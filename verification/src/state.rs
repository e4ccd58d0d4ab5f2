use vstd::prelude::*;

verus! {

use vstd::bytes::{
    spec_u64_from_le_bytes, spec_u64_to_le_bytes, u64_from_le_bytes, u64_to_le_bytes,
    lemma_auto_spec_u64_to_from_le_bytes,
};
use vstd::slice::{slice_subrange, slice_to_vec};
use crate::codec::{
    spec_i64_from_le_bytes, spec_i64_to_le_bytes, i64_from_le_bytes, i64_to_le_bytes,
    lemma_auto_i64_le_bytes_roundtrip,
};
use crate::error::ProcessError;
use crate::ident::{Identity, IDENTITY_LEN};

/// The exact width of a persisted vault record: three 32-byte identities and
/// three 8-byte counters.
pub const RECORD_LEN: usize = 32 + 32 + 32 + 8 + 8 + 8;

/// The mathematical model of a persisted vault record.
#[verifier::ext_equal]
pub struct VaultModel {
    pub owner: Seq<u8>,
    pub token_mint: Seq<u8>,
    pub token_account: Seq<u8>,
    pub balance: u64,
    pub timelock: i64,
    pub last_withdrawal: i64,
}

impl VaultModel {
    /// Every identity field holds exactly 32 bytes.
    pub open spec fn wf(self) -> bool {
        &&& self.owner.len() == IDENTITY_LEN
        &&& self.token_mint.len() == IDENTITY_LEN
        &&& self.token_account.len() == IDENTITY_LEN
    }
}

/// The clean baseline record bound to an owner and a mint: custody location
/// unbound (all zeroes), balance, cooldown and last-withdrawal all zero.
pub open spec fn spec_initial_record(owner: Seq<u8>, token_mint: Seq<u8>) -> VaultModel {
    VaultModel {
        owner: owner,
        token_mint: token_mint,
        token_account: Seq::new(IDENTITY_LEN as nat, |i: int| 0u8),
        balance: 0,
        timelock: 0,
        last_withdrawal: 0,
    }
}

/// The persisted byte image of a record: owner, mint and custody identities
/// back to back, then balance, cooldown and last-withdrawal, each as eight
/// little-endian bytes.
pub open spec fn spec_record_bytes(m: VaultModel) -> Seq<u8> {
    m.owner + m.token_mint + m.token_account + spec_u64_to_le_bytes(m.balance)
        + spec_i64_to_le_bytes(m.timelock) + spec_i64_to_le_bytes(m.last_withdrawal)
}

/// The record read from stored bytes, or nothing when the storage does not
/// have the exact record width.
pub open spec fn spec_parse_record(s: Seq<u8>) -> Option<VaultModel> {
    if s.len() == RECORD_LEN {
        Some(
            VaultModel {
                owner: s.subrange(0, 32),
                token_mint: s.subrange(32, 64),
                token_account: s.subrange(64, 96),
                balance: spec_u64_from_le_bytes(s.subrange(96, 104)),
                timelock: spec_i64_from_le_bytes(s.subrange(104, 112)),
                last_withdrawal: spec_i64_from_le_bytes(s.subrange(112, 120)),
            },
        )
    } else {
        None
    }
}

/// Serializing a well-formed record gives exactly the record width, and the
/// bytes parse back to the same record.
pub proof fn lemma_record_roundtrip(m: VaultModel)
    requires
        m.wf(),
    ensures
        spec_record_bytes(m).len() == RECORD_LEN,
        spec_parse_record(spec_record_bytes(m)) == Some(m),
{
    lemma_auto_spec_u64_to_from_le_bytes();
    lemma_auto_i64_le_bytes_roundtrip();
    let s = spec_record_bytes(m);
    assert(s.subrange(0, 32) =~= m.owner);
    assert(s.subrange(32, 64) =~= m.token_mint);
    assert(s.subrange(64, 96) =~= m.token_account);
    assert(s.subrange(96, 104) =~= spec_u64_to_le_bytes(m.balance));
    assert(s.subrange(104, 112) =~= spec_i64_to_le_bytes(m.timelock));
    assert(s.subrange(112, 120) =~= spec_i64_to_le_bytes(m.last_withdrawal));
    assert(spec_parse_record(s)->Some_0 =~= m);
}

/// Any storage of the exact record width parses, and the parsed record
/// serializes back to the very same bytes: the byte image is a bijection.
pub proof fn lemma_parse_then_record_bytes(s: Seq<u8>)
    requires
        s.len() == RECORD_LEN,
    ensures
        spec_parse_record(s) is Some,
        spec_parse_record(s)->Some_0.wf(),
        spec_record_bytes(spec_parse_record(s)->Some_0) == s,
{
    lemma_auto_spec_u64_to_from_le_bytes();
    lemma_auto_i64_le_bytes_roundtrip();
    let m = spec_parse_record(s)->Some_0;
    assert(spec_record_bytes(m) =~= s);
}

/// The persisted vault record: the sole entity the state machine reads and
/// writes. `owner` and `token_mint` are set once at creation and never
/// mutated by any later operation; `token_account` is a placeholder binding
/// no current operation populates.
#[derive(Clone, Debug, PartialEq, Eq)]
pub struct VaultState {
    pub owner: Identity,
    pub token_mint: Identity,
    pub token_account: Identity,
    pub balance: u64,
    pub timelock: i64,
    pub last_withdrawal: i64,
}

impl View for VaultState {
    type V = VaultModel;

    open spec fn view(&self) -> VaultModel {
        VaultModel {
            owner: self.owner@,
            token_mint: self.token_mint@,
            token_account: self.token_account@,
            balance: self.balance,
            timelock: self.timelock,
            last_withdrawal: self.last_withdrawal,
        }
    }
}

impl VaultState {
    /// Total packed width of a record, in bytes.
    pub const LEN: usize = 32 + 32 + 32 + 8 + 8 + 8;

    /// Every identity field holds exactly 32 bytes.
    pub open spec fn wf(&self) -> bool {
        self@.wf()
    }

    /// The active record a fresh vault starts from: owner and mint bound,
    /// custody unbound, balance, cooldown and last-withdrawal all zero.
    pub fn initial(owner: &Identity, token_mint: &Identity) -> (s: VaultState)
        ensures
            s@ == spec_initial_record(owner@, token_mint@),
            owner.wf() && token_mint.wf() ==> s.wf(),
    {
        let s = VaultState {
            owner: owner.copied(),
            token_mint: token_mint.copied(),
            token_account: Identity::filled(0),
            balance: 0,
            timelock: 0,
            last_withdrawal: 0,
        };
        proof {
            assert(s@ =~= spec_initial_record(owner@, token_mint@));
        }
        s
    }

    /// Serializes the whole record into its fixed byte layout.
    pub fn to_bytes(&self) -> (r: Vec<u8>)
        requires
            self.wf(),
        ensures
            r@ == spec_record_bytes(self@),
            r@.len() == RECORD_LEN,
    {
        let mut v: Vec<u8> = Vec::new();
        let mut part = slice_to_vec(self.owner.bytes.as_slice());
        v.append(&mut part);
        let mut part = slice_to_vec(self.token_mint.bytes.as_slice());
        v.append(&mut part);
        let mut part = slice_to_vec(self.token_account.bytes.as_slice());
        v.append(&mut part);
        let mut part = u64_to_le_bytes(self.balance);
        v.append(&mut part);
        let mut part = i64_to_le_bytes(self.timelock);
        v.append(&mut part);
        let mut part = i64_to_le_bytes(self.last_withdrawal);
        v.append(&mut part);
        proof {
            lemma_auto_spec_u64_to_from_le_bytes();
            assert(v@ =~= spec_record_bytes(self@));
        }
        v
    }

    /// Deserializes a whole record from stored bytes; storage of any other
    /// width is rejected as malformed.
    pub fn from_bytes(data: &[u8]) -> (r: Result<VaultState, ProcessError>)
        ensures
            match spec_parse_record(data@) {
                Some(m) => r matches Ok(s) && s@ == m && s.wf(),
                None => r matches Err(e) && e == ProcessError::InvalidAccountData,
            },
    {
        if data.len() != RECORD_LEN {
            return Err(ProcessError::InvalidAccountData);
        }
        let owner = Identity::read_from(data, 0);
        let token_mint = Identity::read_from(data, 32);
        let token_account = Identity::read_from(data, 64);
        let balance = u64_from_le_bytes(slice_subrange(data, 96, 104));
        let timelock = i64_from_le_bytes(slice_subrange(data, 104, 112));
        let last_withdrawal = i64_from_le_bytes(slice_subrange(data, 112, 120));
        let s = VaultState { owner, token_mint, token_account, balance, timelock, last_withdrawal };
        proof {
            assert(s@ =~= spec_parse_record(data@)->Some_0);
        }
        Ok(s)
    }
}

} // verus!
