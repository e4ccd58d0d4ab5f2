use vstd::prelude::*;

verus! {

use vstd::bytes::{
    spec_u64_from_le_bytes, spec_u64_to_le_bytes, u64_from_le_bytes, u64_to_le_bytes,
    lemma_auto_spec_u64_to_from_le_bytes,
};
use vstd::slice::slice_subrange;
use crate::codec::{
    spec_i64_from_le_bytes, spec_i64_to_le_bytes, i64_from_le_bytes, i64_to_le_bytes,
    lemma_auto_i64_le_bytes_roundtrip,
};
use crate::error::VaultError;

/// The closed set of operations the vault accepts, decoded from the raw
/// request payload.
#[derive(Clone, Copy, Debug, PartialEq, Eq, Structural)]
pub enum VaultInstruction {
    /// Open a vault: bind owner and mint, zero every counter.
    Initialize,
    /// Add to the ledger balance.
    Deposit { amount: u64 },
    /// Remove from the ledger balance, subject to the cooldown.
    Withdraw { amount: u64 },
    /// Replace the cooldown window, in seconds.
    SetTimelock { new_timelock: i64 },
}

/// The wire encoding of an operation: a one-byte discriminant in declaration
/// order, then the argument as eight little-endian bytes.
pub open spec fn spec_pack_instruction(i: VaultInstruction) -> Seq<u8> {
    match i {
        VaultInstruction::Initialize => seq![0u8],
        VaultInstruction::Deposit { amount } => seq![1u8] + spec_u64_to_le_bytes(amount),
        VaultInstruction::Withdraw { amount } => seq![2u8] + spec_u64_to_le_bytes(amount),
        VaultInstruction::SetTimelock { new_timelock } => seq![3u8] + spec_i64_to_le_bytes(
            new_timelock,
        ),
    }
}

/// The decoded form of a payload, or nothing when the payload matches no
/// known discriminant or has the wrong length for its discriminant.
pub open spec fn spec_unpack_instruction(s: Seq<u8>) -> Option<VaultInstruction> {
    if s.len() == 1 && s[0] == 0 {
        Some(VaultInstruction::Initialize)
    } else if s.len() == 9 && s[0] == 1 {
        Some(VaultInstruction::Deposit { amount: spec_u64_from_le_bytes(s.subrange(1, 9)) })
    } else if s.len() == 9 && s[0] == 2 {
        Some(VaultInstruction::Withdraw { amount: spec_u64_from_le_bytes(s.subrange(1, 9)) })
    } else if s.len() == 9 && s[0] == 3 {
        Some(
            VaultInstruction::SetTimelock {
                new_timelock: spec_i64_from_le_bytes(s.subrange(1, 9)),
            },
        )
    } else {
        None
    }
}

/// Every operation's encoding decodes back to it: decode is a left inverse
/// of encode, so no two operations share an encoding.
pub proof fn lemma_pack_then_unpack(i: VaultInstruction)
    ensures
        spec_unpack_instruction(spec_pack_instruction(i)) == Some(i),
{
    lemma_auto_spec_u64_to_from_le_bytes();
    lemma_auto_i64_le_bytes_roundtrip();
    let s = spec_pack_instruction(i);
    match i {
        VaultInstruction::Initialize => {}
        VaultInstruction::Deposit { amount } => {
            assert(s.subrange(1, 9) =~= spec_u64_to_le_bytes(amount));
        }
        VaultInstruction::Withdraw { amount } => {
            assert(s.subrange(1, 9) =~= spec_u64_to_le_bytes(amount));
        }
        VaultInstruction::SetTimelock { new_timelock } => {
            assert(s.subrange(1, 9) =~= spec_i64_to_le_bytes(new_timelock));
        }
    }
}

/// Every payload that decodes at all re-encodes to the very same bytes:
/// encode is a left inverse of decode on valid payloads.
pub proof fn lemma_unpack_then_pack(s: Seq<u8>)
    requires
        spec_unpack_instruction(s) is Some,
    ensures
        spec_pack_instruction(spec_unpack_instruction(s)->Some_0) == s,
{
    lemma_auto_spec_u64_to_from_le_bytes();
    lemma_auto_i64_le_bytes_roundtrip();
    let i = spec_unpack_instruction(s)->Some_0;
    match i {
        VaultInstruction::Initialize => {
            assert(spec_pack_instruction(i) =~= s);
        }
        VaultInstruction::Deposit { amount } => {
            assert(spec_pack_instruction(i) =~= s);
        }
        VaultInstruction::Withdraw { amount } => {
            assert(spec_pack_instruction(i) =~= s);
        }
        VaultInstruction::SetTimelock { new_timelock } => {
            assert(spec_pack_instruction(i) =~= s);
        }
    }
}

impl VaultInstruction {
    /// Encodes this operation for the wire.
    pub fn pack(&self) -> (r: Vec<u8>)
        ensures
            r@ == spec_pack_instruction(*self),
    {
        let mut v: Vec<u8> = Vec::new();
        match self {
            VaultInstruction::Initialize => {
                v.push(0u8);
                proof {
                    assert(v@ =~= seq![0u8]);
                }
            }
            VaultInstruction::Deposit { amount } => {
                v.push(1u8);
                let mut arg = u64_to_le_bytes(*amount);
                v.append(&mut arg);
                proof {
                    assert(v@ =~= seq![1u8] + spec_u64_to_le_bytes(*amount));
                }
            }
            VaultInstruction::Withdraw { amount } => {
                v.push(2u8);
                let mut arg = u64_to_le_bytes(*amount);
                v.append(&mut arg);
                proof {
                    assert(v@ =~= seq![2u8] + spec_u64_to_le_bytes(*amount));
                }
            }
            VaultInstruction::SetTimelock { new_timelock } => {
                v.push(3u8);
                let mut arg = i64_to_le_bytes(*new_timelock);
                v.append(&mut arg);
                proof {
                    assert(v@ =~= seq![3u8] + spec_i64_to_le_bytes(*new_timelock));
                }
            }
        }
        v
    }

    /// Decodes a raw payload, all-or-nothing: any input that matches no
    /// known discriminant or whose argument bytes have the wrong length
    /// fails with `InvalidInstruction`.
    pub fn unpack(data: &[u8]) -> (r: Result<VaultInstruction, VaultError>)
        ensures
            match spec_unpack_instruction(data@) {
                Some(i) => r matches Ok(got) && got == i,
                None => r matches Err(e) && e == VaultError::InvalidInstruction,
            },
    {
        if data.len() == 1 && data[0] == 0 {
            Ok(VaultInstruction::Initialize)
        } else if data.len() == 9 && data[0] == 1 {
            let amount = u64_from_le_bytes(slice_subrange(data, 1, 9));
            Ok(VaultInstruction::Deposit { amount })
        } else if data.len() == 9 && data[0] == 2 {
            let amount = u64_from_le_bytes(slice_subrange(data, 1, 9));
            Ok(VaultInstruction::Withdraw { amount })
        } else if data.len() == 9 && data[0] == 3 {
            let new_timelock = i64_from_le_bytes(slice_subrange(data, 1, 9));
            Ok(VaultInstruction::SetTimelock { new_timelock })
        } else {
            Err(VaultError::InvalidInstruction)
        }
    }
}

} // verus!
