use vstd::prelude::*;

verus! {

use crate::error::{ProcessError, VaultError};
use crate::ident::Identity;
use crate::instruction::{spec_unpack_instruction, VaultInstruction};
use crate::state::{
    spec_initial_record, spec_parse_record, spec_record_bytes, VaultModel, VaultState, RECORD_LEN,
};

// --- guards: pure precondition checks, none of them mutating ---

/// Authority guard: a transition is permitted only to a caller whose
/// identity is bit-equal to the stored owner.
pub fn check_authority(owner: &Identity, caller: &Identity) -> (r: Result<(), VaultError>)
    ensures
        r is Ok <==> caller@ == owner@,
        r is Err ==> r->Err_0 == VaultError::AuthorityMismatch,
{
    if owner.same_as(caller) {
        Ok(())
    } else {
        Err(VaultError::AuthorityMismatch)
    }
}

/// The cooldown window has elapsed when `now >= last_withdrawal + timelock`,
/// over unbounded integers.
pub open spec fn spec_timelock_expired(now: i64, last_withdrawal: i64, timelock: i64) -> bool {
    now as int >= last_withdrawal as int + timelock as int
}

/// Timelock guard: permits a withdrawal only once the cooldown window has
/// elapsed; the sum is taken over unbounded integers, so a window reaching
/// past the signed 64-bit range still compares correctly.
pub fn check_timelock(now: i64, last_withdrawal: i64, timelock: i64) -> (r: Result<
    (),
    VaultError,
>)
    ensures
        r is Ok <==> spec_timelock_expired(now, last_withdrawal, timelock),
        r is Err ==> r->Err_0 == VaultError::TimelockNotExpired,
{
    match last_withdrawal.checked_add(timelock) {
        Some(gate) => {
            if now >= gate {
                Ok(())
            } else {
                Err(VaultError::TimelockNotExpired)
            }
        }
        None => {
            if timelock > 0 {
                // the window ends beyond the far future
                Err(VaultError::TimelockNotExpired)
            } else {
                // the window ends before the far past
                Ok(())
            }
        }
    }
}

/// Arithmetic guard, deposit side: checked addition that fails closed when
/// the sum would leave the unsigned 64-bit range.
pub fn checked_deposit(balance: u64, amount: u64) -> (r: Result<u64, VaultError>)
    ensures
        r is Ok <==> balance + amount <= u64::MAX,
        r matches Ok(b) ==> b == balance + amount,
        r is Err ==> r->Err_0 == VaultError::AmountOverflow,
{
    match balance.checked_add(amount) {
        Some(b) => Ok(b),
        None => Err(VaultError::AmountOverflow),
    }
}

/// Arithmetic guard, withdraw side: the funds floor is checked first, and
/// the checked subtraction behind it must agree — its underflow path is
/// provably never taken.
pub fn checked_withdraw(balance: u64, amount: u64) -> (r: Result<u64, VaultError>)
    ensures
        r is Ok <==> amount <= balance,
        r matches Ok(b) ==> b == balance - amount,
        r is Err ==> r->Err_0 == VaultError::InsufficientFunds,
{
    if balance < amount {
        return Err(VaultError::InsufficientFunds);
    }
    match balance.checked_sub(amount) {
        Some(b) => Ok(b),
        None => Err(VaultError::AmountOverflow),
    }
}

// --- the state machine over the record model ---

/// The deposit transition: authority, then custody-mint binding, then
/// checked addition; any failure leaves the record as it was.
pub open spec fn spec_deposit(
    m: VaultModel,
    caller: Seq<u8>,
    custody_mint: Seq<u8>,
    amount: u64,
) -> Result<VaultModel, ProcessError> {
    if caller != m.owner {
        Err(ProcessError::Vault(VaultError::AuthorityMismatch))
    } else if custody_mint != m.token_mint {
        Err(ProcessError::InvalidAccountData)
    } else if m.balance + amount > u64::MAX {
        Err(ProcessError::Vault(VaultError::AmountOverflow))
    } else {
        Ok(VaultModel { balance: (m.balance + amount) as u64, ..m })
    }
}

/// The withdraw transition: authority, then the cooldown window, then the
/// funds floor; on success the balance shrinks and the withdrawal time is
/// recorded.
pub open spec fn spec_withdraw(m: VaultModel, caller: Seq<u8>, amount: u64, now: i64) -> Result<
    VaultModel,
    VaultError,
> {
    if caller != m.owner {
        Err(VaultError::AuthorityMismatch)
    } else if !spec_timelock_expired(now, m.last_withdrawal, m.timelock) {
        Err(VaultError::TimelockNotExpired)
    } else if amount > m.balance {
        Err(VaultError::InsufficientFunds)
    } else {
        Ok(VaultModel { balance: (m.balance - amount) as u64, last_withdrawal: now, ..m })
    }
}

/// The cooldown-change transition: authority only; the new window is stored
/// exactly as given, any signed value included.
pub open spec fn spec_set_timelock(m: VaultModel, caller: Seq<u8>, new_timelock: i64) -> Result<
    VaultModel,
    VaultError,
> {
    if caller != m.owner {
        Err(VaultError::AuthorityMismatch)
    } else {
        Ok(VaultModel { timelock: new_timelock, ..m })
    }
}

impl VaultState {
    /// Runs the deposit transition in place: on any guard failure the record
    /// is untouched and the first failing guard's error is surfaced.
    pub fn apply_deposit(
        &mut self,
        caller: &Identity,
        custody_mint: &Identity,
        amount: u64,
    ) -> (r: Result<(), ProcessError>)
        ensures
            match spec_deposit(old(self)@, caller@, custody_mint@, amount) {
                Ok(m2) => r is Ok && final(self)@ == m2,
                Err(e) => r == Err::<(), ProcessError>(e) && final(self)@ == old(self)@,
            },
    {
        match check_authority(&self.owner, caller) {
            Ok(_) => {}
            Err(e) => {
                return Err(ProcessError::Vault(e));
            }
        }
        if !self.token_mint.same_as(custody_mint) {
            return Err(ProcessError::InvalidAccountData);
        }
        match checked_deposit(self.balance, amount) {
            Ok(b) => {
                self.balance = b;
                proof {
                    assert(self@ =~= spec_deposit(old(self)@, caller@, custody_mint@, amount)->Ok_0);
                }
                Ok(())
            }
            Err(e) => Err(ProcessError::Vault(e)),
        }
    }

    /// Runs the withdraw transition in place: on any guard failure the
    /// record is untouched and the first failing guard's error is surfaced.
    pub fn apply_withdraw(&mut self, caller: &Identity, amount: u64, now: i64) -> (r: Result<
        (),
        VaultError,
    >)
        ensures
            match spec_withdraw(old(self)@, caller@, amount, now) {
                Ok(m2) => r is Ok && final(self)@ == m2,
                Err(e) => r == Err::<(), VaultError>(e) && final(self)@ == old(self)@,
            },
    {
        match check_authority(&self.owner, caller) {
            Ok(_) => {}
            Err(e) => {
                return Err(e);
            }
        }
        match check_timelock(now, self.last_withdrawal, self.timelock) {
            Ok(_) => {}
            Err(e) => {
                return Err(e);
            }
        }
        match checked_withdraw(self.balance, amount) {
            Ok(b) => {
                self.balance = b;
                self.last_withdrawal = now;
                proof {
                    assert(self@ =~= spec_withdraw(old(self)@, caller@, amount, now)->Ok_0);
                }
                Ok(())
            }
            Err(e) => Err(e),
        }
    }

    /// Runs the cooldown-change transition in place: only the owner may
    /// change the window, and nothing else of the record moves.
    pub fn apply_set_timelock(&mut self, caller: &Identity, new_timelock: i64) -> (r: Result<
        (),
        VaultError,
    >)
        ensures
            match spec_set_timelock(old(self)@, caller@, new_timelock) {
                Ok(m2) => r is Ok && final(self)@ == m2,
                Err(e) => r == Err::<(), VaultError>(e) && final(self)@ == old(self)@,
            },
    {
        match check_authority(&self.owner, caller) {
            Ok(_) => {}
            Err(e) => {
                return Err(e);
            }
        }
        self.timelock = new_timelock;
        proof {
            assert(self@ =~= spec_set_timelock(old(self)@, caller@, new_timelock)->Ok_0);
        }
        Ok(())
    }
}

// --- the external custody-record parser, taken on trust ---

/// The token-account byte forms that the external token library's record
/// parser accepts: exactly 165 bytes, each optional-field tag a little-endian
/// zero or one, and the state byte marking an initialized or frozen account.
pub open spec fn spec_token_account_accepted(s: Seq<u8>) -> bool {
    &&& s.len() == 165
    &&& (s[72] == 0 || s[72] == 1)
    &&& s[73] == 0 && s[74] == 0 && s[75] == 0
    &&& (s[108] == 1 || s[108] == 2)
    &&& (s[109] == 0 || s[109] == 1)
    &&& s[110] == 0 && s[111] == 0 && s[112] == 0
    &&& (s[129] == 0 || s[129] == 1)
    &&& s[130] == 0 && s[131] == 0 && s[132] == 0
}

/// Relies on spl_token::state::Account::unpack: it accepts exactly the
/// 165-byte records whose optional-field tags are valid and whose state byte
/// marks an initialized or frozen account, and a parsed account's mint is
/// its first 32 bytes. Every parse failure is collapsed to
/// `InvalidAccountData` here, the processor surfacing no finer distinction.
#[verifier::external_body]
fn token_account_mint(data: &[u8]) -> (r: Result<Identity, ProcessError>)
    ensures
        r is Ok <==> spec_token_account_accepted(data@),
        r matches Ok(m) ==> m.wf() && m@ == data@.subrange(0, 32),
        r matches Err(e) ==> e == ProcessError::InvalidAccountData,
{
    match <spl_token::state::Account as spl_token::solana_program::program_pack::Pack>::unpack(
        data,
    ) {
        Ok(acc) => Ok(Identity { bytes: acc.mint.to_bytes().to_vec() }),
        Err(_) => Err(ProcessError::InvalidAccountData),
    }
}

// --- the processor: one atomic read-modify-write per call ---

/// What initialize does to the stored bytes: rent policy first, then the
/// storage width, then the whole clean baseline record is written.
pub open spec fn spec_process_initialize(
    storage: Seq<u8>,
    owner: Seq<u8>,
    token_mint: Seq<u8>,
    rent_exempt: bool,
) -> Result<Seq<u8>, ProcessError> {
    if !rent_exempt {
        Err(ProcessError::Vault(VaultError::NotRentExempt))
    } else if storage.len() != RECORD_LEN {
        Err(ProcessError::InvalidAccountData)
    } else {
        Ok(spec_record_bytes(spec_initial_record(owner, token_mint)))
    }
}

/// Opens a vault over raw storage: writes the clean baseline record bound to
/// the given owner and mint, or fails without touching a byte.
pub fn process_initialize(
    vault_data: &mut Vec<u8>,
    owner: &Identity,
    token_mint: &Identity,
    rent_exempt: bool,
) -> (r: Result<(), ProcessError>)
    requires
        owner.wf(),
        token_mint.wf(),
    ensures
        match spec_process_initialize(old(vault_data)@, owner@, token_mint@, rent_exempt) {
            Ok(bytes) => r is Ok && final(vault_data)@ == bytes,
            Err(e) => r == Err::<(), ProcessError>(e) && final(vault_data)@ == old(vault_data)@,
        },
{
    if !rent_exempt {
        return Err(ProcessError::Vault(VaultError::NotRentExempt));
    }
    if vault_data.len() != RECORD_LEN {
        return Err(ProcessError::InvalidAccountData);
    }
    let state = VaultState::initial(owner, token_mint);
    let bytes = state.to_bytes();
    *vault_data = bytes;
    Ok(())
}

/// What deposit does to the stored bytes: parse the record, authority,
/// custody-account validity and mint binding, checked addition; the new
/// record bytes replace the old ones only when every guard passed.
pub open spec fn spec_process_deposit(
    storage: Seq<u8>,
    caller: Seq<u8>,
    custody: Seq<u8>,
    amount: u64,
) -> Result<Seq<u8>, ProcessError> {
    match spec_parse_record(storage) {
        None => Err(ProcessError::InvalidAccountData),
        Some(m) => {
            if caller != m.owner {
                Err(ProcessError::Vault(VaultError::AuthorityMismatch))
            } else if !spec_token_account_accepted(custody) {
                Err(ProcessError::InvalidAccountData)
            } else {
                match spec_deposit(m, caller, custody.subrange(0, 32), amount) {
                    Ok(m2) => Ok(spec_record_bytes(m2)),
                    Err(e) => Err(e),
                }
            }
        }
    }
}

/// Adds to the vault's balance: a full read-modify-write of the stored
/// record, committed only when every guard passed.
pub fn process_deposit(
    vault_data: &mut Vec<u8>,
    caller: &Identity,
    token_account_data: &[u8],
    amount: u64,
) -> (r: Result<(), ProcessError>)
    ensures
        match spec_process_deposit(old(vault_data)@, caller@, token_account_data@, amount) {
            Ok(bytes) => r is Ok && final(vault_data)@ == bytes,
            Err(e) => r == Err::<(), ProcessError>(e) && final(vault_data)@ == old(vault_data)@,
        },
{
    let mut state = match VaultState::from_bytes(vault_data.as_slice()) {
        Ok(s) => s,
        Err(e) => {
            return Err(e);
        }
    };
    match check_authority(&state.owner, caller) {
        Ok(_) => {}
        Err(e) => {
            return Err(ProcessError::Vault(e));
        }
    }
    let custody_mint = match token_account_mint(token_account_data) {
        Ok(m) => m,
        Err(e) => {
            return Err(e);
        }
    };
    match state.apply_deposit(caller, &custody_mint, amount) {
        Ok(_) => {}
        Err(e) => {
            return Err(e);
        }
    }
    let bytes = state.to_bytes();
    *vault_data = bytes;
    Ok(())
}

/// What withdraw does to the stored bytes: parse the record, then the
/// withdraw transition; the new record bytes replace the old ones only on
/// success.
pub open spec fn spec_process_withdraw(
    storage: Seq<u8>,
    caller: Seq<u8>,
    amount: u64,
    now: i64,
) -> Result<Seq<u8>, ProcessError> {
    match spec_parse_record(storage) {
        None => Err(ProcessError::InvalidAccountData),
        Some(m) => match spec_withdraw(m, caller, amount, now) {
            Ok(m2) => Ok(spec_record_bytes(m2)),
            Err(e) => Err(ProcessError::Vault(e)),
        },
    }
}

/// Removes from the vault's balance and records the withdrawal time: a full
/// read-modify-write of the stored record, committed only on success.
pub fn process_withdraw(vault_data: &mut Vec<u8>, caller: &Identity, amount: u64, now: i64) -> (r:
    Result<(), ProcessError>)
    ensures
        match spec_process_withdraw(old(vault_data)@, caller@, amount, now) {
            Ok(bytes) => r is Ok && final(vault_data)@ == bytes,
            Err(e) => r == Err::<(), ProcessError>(e) && final(vault_data)@ == old(vault_data)@,
        },
{
    let mut state = match VaultState::from_bytes(vault_data.as_slice()) {
        Ok(s) => s,
        Err(e) => {
            return Err(e);
        }
    };
    match state.apply_withdraw(caller, amount, now) {
        Ok(_) => {}
        Err(e) => {
            return Err(ProcessError::Vault(e));
        }
    }
    let bytes = state.to_bytes();
    *vault_data = bytes;
    Ok(())
}

/// What a cooldown change does to the stored bytes.
pub open spec fn spec_process_set_timelock(
    storage: Seq<u8>,
    caller: Seq<u8>,
    new_timelock: i64,
) -> Result<Seq<u8>, ProcessError> {
    match spec_parse_record(storage) {
        None => Err(ProcessError::InvalidAccountData),
        Some(m) => match spec_set_timelock(m, caller, new_timelock) {
            Ok(m2) => Ok(spec_record_bytes(m2)),
            Err(e) => Err(ProcessError::Vault(e)),
        },
    }
}

/// Replaces the cooldown window: a full read-modify-write of the stored
/// record, committed only on success.
pub fn process_set_timelock(vault_data: &mut Vec<u8>, caller: &Identity, new_timelock: i64) -> (r:
    Result<(), ProcessError>)
    ensures
        match spec_process_set_timelock(old(vault_data)@, caller@, new_timelock) {
            Ok(bytes) => r is Ok && final(vault_data)@ == bytes,
            Err(e) => r == Err::<(), ProcessError>(e) && final(vault_data)@ == old(vault_data)@,
        },
{
    let mut state = match VaultState::from_bytes(vault_data.as_slice()) {
        Ok(s) => s,
        Err(e) => {
            return Err(e);
        }
    };
    match state.apply_set_timelock(caller, new_timelock) {
        Ok(_) => {}
        Err(e) => {
            return Err(ProcessError::Vault(e));
        }
    }
    let bytes = state.to_bytes();
    *vault_data = bytes;
    Ok(())
}

/// The view of an optional identity reference.
pub open spec fn spec_opt_key(o: Option<&Identity>) -> Option<Seq<u8>> {
    match o {
        Some(k) => Some(k@),
        None => None,
    }
}

/// The view of an optional byte-slice reference.
pub open spec fn spec_opt_bytes(o: Option<&[u8]>) -> Option<Seq<u8>> {
    match o {
        Some(d) => Some(d@),
        None => None,
    }
}

/// The whole call, as one function of the host-supplied plain values:
/// decode the payload into an operation, demand the positional references
/// that operation needs, and run its transition over the stored bytes.
pub open spec fn spec_process_instruction(
    storage: Seq<u8>,
    signer: Seq<u8>,
    mint_key: Option<Seq<u8>>,
    custody_data: Option<Seq<u8>>,
    rent_exempt: bool,
    now: i64,
    payload: Seq<u8>,
) -> Result<Seq<u8>, ProcessError> {
    match spec_unpack_instruction(payload) {
        None => Err(ProcessError::Vault(VaultError::InvalidInstruction)),
        Some(VaultInstruction::Initialize) => match mint_key {
            None => Err(ProcessError::NotEnoughAccountKeys),
            Some(mint) => spec_process_initialize(storage, signer, mint, rent_exempt),
        },
        Some(VaultInstruction::Deposit { amount }) => match custody_data {
            None => Err(ProcessError::NotEnoughAccountKeys),
            Some(custody) => spec_process_deposit(storage, signer, custody, amount),
        },
        Some(VaultInstruction::Withdraw { amount }) => match custody_data {
            None => Err(ProcessError::NotEnoughAccountKeys),
            Some(_) => spec_process_withdraw(storage, signer, amount, now),
        },
        Some(VaultInstruction::SetTimelock { new_timelock }) => spec_process_set_timelock(
            storage,
            signer,
            new_timelock,
        ),
    }
}

/// Entry point of the state machine: consumes the raw payload and the
/// host-supplied positional values, and performs at most one atomic
/// read-modify-write of the stored record. On any failure the stored bytes
/// are exactly as they were.
pub fn process_instruction(
    vault_data: &mut Vec<u8>,
    signer: &Identity,
    mint_key: Option<&Identity>,
    custody_data: Option<&[u8]>,
    rent_exempt: bool,
    now: i64,
    instruction_data: &[u8],
) -> (r: Result<(), ProcessError>)
    requires
        signer.wf(),
        mint_key matches Some(k) ==> k.wf(),
    ensures
        match spec_process_instruction(
            old(vault_data)@,
            signer@,
            spec_opt_key(mint_key),
            spec_opt_bytes(custody_data),
            rent_exempt,
            now,
            instruction_data@,
        ) {
            Ok(bytes) => r is Ok && final(vault_data)@ == bytes,
            Err(e) => r == Err::<(), ProcessError>(e) && final(vault_data)@ == old(vault_data)@,
        },
{
    let instruction = match VaultInstruction::unpack(instruction_data) {
        Ok(i) => i,
        Err(e) => {
            return Err(ProcessError::Vault(e));
        }
    };
    match instruction {
        VaultInstruction::Initialize => match mint_key {
            None => Err(ProcessError::NotEnoughAccountKeys),
            Some(mint) => process_initialize(vault_data, signer, mint, rent_exempt),
        },
        VaultInstruction::Deposit { amount } => match custody_data {
            None => Err(ProcessError::NotEnoughAccountKeys),
            Some(data) => process_deposit(vault_data, signer, data, amount),
        },
        VaultInstruction::Withdraw { amount } => match custody_data {
            None => Err(ProcessError::NotEnoughAccountKeys),
            Some(_) => process_withdraw(vault_data, signer, amount, now),
        },
        VaultInstruction::SetTimelock { new_timelock } => process_set_timelock(
            vault_data,
            signer,
            new_timelock,
        ),
    }
}

// --- laws of the state machine ---

/// Law: initialization sets a clean baseline. Opening a vault over
/// exact-width, rent-exempt storage writes a record that parses back to
/// owner O, mint M, an unbound custody identity, and zero balance, cooldown
/// and last-withdrawal.
pub proof fn lemma_initialize_baseline(storage: Seq<u8>, owner: Seq<u8>, token_mint: Seq<u8>)
    requires
        storage.len() == RECORD_LEN,
        owner.len() == 32,
        token_mint.len() == 32,
    ensures
        ({
            let r = spec_process_initialize(storage, owner, token_mint, true);
            let m = spec_initial_record(owner, token_mint);
            &&& r == Ok::<Seq<u8>, ProcessError>(spec_record_bytes(m))
            &&& spec_parse_record(r->Ok_0) == Some(m)
            &&& m.owner == owner
            &&& m.token_mint == token_mint
            &&& m.balance == 0
            &&& m.timelock == 0
            &&& m.last_withdrawal == 0
        }),
{
    crate::state::lemma_record_roundtrip(spec_initial_record(owner, token_mint));
}

/// Law: deposit is additive and owner-gated. Over any record, a deposit by
/// the owner whose sum stays in range adds exactly the amount and moves
/// nothing else; a deposit by anyone else fails with `AuthorityMismatch`,
/// whatever the amount.
pub proof fn lemma_deposit_additive_owner_gated(
    m: VaultModel,
    caller: Seq<u8>,
    custody_mint: Seq<u8>,
    amount: u64,
)
    requires
        custody_mint == m.token_mint,
    ensures
        caller == m.owner && m.balance + amount <= u64::MAX ==> ({
            let r = spec_deposit(m, caller, custody_mint, amount);
            &&& r is Ok
            &&& r->Ok_0.balance == m.balance + amount
            &&& r->Ok_0 == (VaultModel { balance: r->Ok_0.balance, ..m })
        }),
        caller != m.owner ==> spec_deposit(m, caller, custody_mint, amount) == Err::<
            VaultModel,
            ProcessError,
        >(ProcessError::Vault(VaultError::AuthorityMismatch)),
{
}

/// Law: the deposit overflow boundary. For the owner with a matching
/// custody mint, a deposit fails with `AmountOverflow` exactly when the sum
/// would leave the unsigned 64-bit range.
pub proof fn lemma_deposit_overflow_boundary(
    m: VaultModel,
    caller: Seq<u8>,
    custody_mint: Seq<u8>,
    amount: u64,
)
    requires
        caller == m.owner,
        custody_mint == m.token_mint,
    ensures
        spec_deposit(m, caller, custody_mint, amount) == Err::<VaultModel, ProcessError>(
            ProcessError::Vault(VaultError::AmountOverflow),
        ) <==> m.balance + amount > u64::MAX,
{
}

/// Law: withdraw respects the balance. For the owner, once the cooldown has
/// elapsed, asking for more than the balance fails with `InsufficientFunds`.
pub proof fn lemma_withdraw_respects_balance(m: VaultModel, caller: Seq<u8>, amount: u64, now: i64)
    requires
        caller == m.owner,
        spec_timelock_expired(now, m.last_withdrawal, m.timelock),
    ensures
        amount > m.balance <==> spec_withdraw(m, caller, amount, now) == Err::<
            VaultModel,
            VaultError,
        >(VaultError::InsufficientFunds),
{
}

/// Law: withdraw respects the cooldown. For the owner, a withdrawal before
/// `last_withdrawal + timelock` fails with `TimelockNotExpired`; from that
/// moment on, with sufficient balance, it succeeds, shrinks the balance by
/// the amount, records the withdrawal time, and moves nothing else.
pub proof fn lemma_withdraw_respects_cooldown(m: VaultModel, caller: Seq<u8>, amount: u64, now: i64)
    requires
        caller == m.owner,
    ensures
        (now as int) < m.last_withdrawal + m.timelock ==> spec_withdraw(m, caller, amount, now)
            == Err::<VaultModel, VaultError>(VaultError::TimelockNotExpired),
        now as int >= m.last_withdrawal + m.timelock && amount <= m.balance ==> ({
            let r = spec_withdraw(m, caller, amount, now);
            &&& r is Ok
            &&& r->Ok_0.balance == m.balance - amount
            &&& r->Ok_0.last_withdrawal == now
            &&& r->Ok_0 == (VaultModel {
                balance: r->Ok_0.balance,
                last_withdrawal: now,
                ..m
            })
        }),
{
}

/// Law: the first-withdrawal edge case. With no prior withdrawal recorded
/// (`last_withdrawal` zero) and cooldown T, the owner's withdrawal at any
/// `now >= T` succeeds, even though no withdrawal ever happened.
pub proof fn lemma_first_withdrawal(m: VaultModel, caller: Seq<u8>, amount: u64, now: i64)
    requires
        caller == m.owner,
        m.last_withdrawal == 0,
        now as int >= m.timelock as int,
        amount <= m.balance,
    ensures
        ({
            let r = spec_withdraw(m, caller, amount, now);
            &&& r is Ok
            &&& r->Ok_0.balance == m.balance - amount
            &&& r->Ok_0.last_withdrawal == now
        }),
{
}

/// Law: the cooldown change is owner-gated and exact. The owner's change
/// stores precisely the new window and moves nothing else; anyone else's
/// fails with `AuthorityMismatch`.
pub proof fn lemma_set_timelock_owner_gated(m: VaultModel, caller: Seq<u8>, new_timelock: i64)
    ensures
        caller == m.owner ==> spec_set_timelock(m, caller, new_timelock) == Ok::<
            VaultModel,
            VaultError,
        >(VaultModel { timelock: new_timelock, ..m }),
        caller != m.owner ==> spec_set_timelock(m, caller, new_timelock) == Err::<
            VaultModel,
            VaultError,
        >(VaultError::AuthorityMismatch),
{
}

/// Law: owner and mint are write-once. No successful transition out of an
/// active record changes its owner or its mint binding.
pub proof fn lemma_owner_mint_write_once(
    m: VaultModel,
    caller: Seq<u8>,
    custody_mint: Seq<u8>,
    amount: u64,
    now: i64,
    new_timelock: i64,
)
    ensures
        spec_deposit(m, caller, custody_mint, amount) matches Ok(m2) ==> m2.owner == m.owner
            && m2.token_mint == m.token_mint,
        spec_withdraw(m, caller, amount, now) matches Ok(m2) ==> m2.owner == m.owner
            && m2.token_mint == m.token_mint,
        spec_set_timelock(m, caller, new_timelock) matches Ok(m2) ==> m2.owner == m.owner
            && m2.token_mint == m.token_mint,
{
}

} // verus!
