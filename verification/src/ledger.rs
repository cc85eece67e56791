use vstd::prelude::*;
use crate::address::Address;

verus! {

/// The space of a holding account on the ledger, in bytes.
pub const HOLDING_ACCOUNT_SPACE: usize = 165;

/// Who authorizes an instruction.
#[derive(Clone, Copy, Debug, PartialEq, Eq)]
pub enum Authority {
    /// An identity that signed the operation itself.
    Signer(Address),
    /// The sale's own address, which has no key: whoever holds the tag, the
    /// sale's name and this bump can stand for it.
    Derived { address: Address, bump: u8 },
}

/// One instruction to the ledger. The instructions of one operation are
/// carried out in order and commit together or not at all.
#[derive(Clone, Copy, Debug, PartialEq, Eq)]
pub enum LedgerInstruction {
    /// Allocate an empty account of the given size, paid for by `payer`.
    CreateAccount { payer: Address, new_address: Address, size_bytes: usize },
    /// Hand the control of an account to a new authority.
    SetAuthority { account: Address, new_authority: Address },
    /// Move `amount` units from one account to another.
    Transfer { from: Address, to: Address, authority: Authority, amount: u64 },
    /// Destroy an account and sweep what it leased to `destination`.
    CloseAccount { account: Address, destination: Address, authority: Authority },
}

/// The balance of `account` once the ledger has carried out one instruction,
/// or `None` where the ledger rejects it: a transfer of more than the source
/// holds, or one that would take the destination past what a balance can hold.
/// A fresh account and a closed one hold nothing; a transfer from an account
/// to itself moves nothing.
pub open spec fn balance_after_one(instruction: LedgerInstruction, account: Seq<u8>, balance: u64)
    -> Option<u64> {
    match instruction {
        LedgerInstruction::CreateAccount { new_address, .. } => if new_address@ == account {
            Some(0u64)
        } else {
            Some(balance)
        },
        LedgerInstruction::SetAuthority { .. } => Some(balance),
        LedgerInstruction::Transfer { from, to, amount, .. } => if from@ == account {
            if amount > balance {
                None
            } else if to@ == account {
                Some(balance)
            } else {
                Some((balance - amount) as u64)
            }
        } else if to@ == account {
            if balance + amount > u64::MAX {
                None
            } else {
                Some((balance + amount) as u64)
            }
        } else {
            Some(balance)
        },
        LedgerInstruction::CloseAccount { account: closed, .. } => if closed@ == account {
            Some(0u64)
        } else {
            Some(balance)
        },
    }
}

/// The balance of `account` once the ledger has carried out the instructions
/// in order, or `None` where it rejects one of them.
pub open spec fn balance_after(
    instructions: Seq<LedgerInstruction>,
    account: Seq<u8>,
    balance: u64,
) -> Option<u64>
    decreases instructions.len(),
{
    if instructions.len() == 0 {
        Some(balance)
    } else {
        match balance_after_one(instructions[0], account, balance) {
            Some(next) => balance_after(instructions.drop_first(), account, next),
            None => None,
        }
    }
}

/// Follows one account's balance through one instruction.
pub fn apply_to_balance(instruction: &LedgerInstruction, account: &Address, balance: u64) -> (after:
    Option<u64>)
    ensures
        after == balance_after_one(*instruction, account@, balance),
{
    match instruction {
        LedgerInstruction::CreateAccount { payer: _, new_address, size_bytes: _ } => {
            if new_address.same(account) {
                Some(0)
            } else {
                Some(balance)
            }
        },
        LedgerInstruction::SetAuthority { account: _, new_authority: _ } => Some(balance),
        LedgerInstruction::Transfer { from, to, authority: _, amount } => {
            if from.same(account) {
                if *amount > balance {
                    None
                } else if to.same(account) {
                    Some(balance)
                } else {
                    Some(balance - *amount)
                }
            } else if to.same(account) {
                balance.checked_add(*amount)
            } else {
                Some(balance)
            }
        },
        LedgerInstruction::CloseAccount { account: closed, destination: _, authority: _ } => {
            if closed.same(account) {
                Some(0)
            } else {
                Some(balance)
            }
        },
    }
}

/// Follows one account's balance through the instructions of an operation.
pub fn settle_balance(instructions: &Vec<LedgerInstruction>, account: &Address, balance: u64) -> (after:
    Option<u64>)
    ensures
        after == balance_after(instructions@, account@, balance),
{
    let mut current: u64 = balance;
    let mut i: usize = 0;
    assert(instructions@.skip(0) =~= instructions@);
    while i < instructions.len()
        invariant
            i <= instructions.len(),
            balance_after(instructions@, account@, balance) == balance_after(
                instructions@.skip(i as int),
                account@,
                current,
            ),
        decreases instructions.len() - i,
    {
        let ghost rest = instructions@.skip(i as int);
        assert(rest[0] == instructions@[i as int]);
        assert(rest.drop_first() =~= instructions@.skip(i + 1));
        match apply_to_balance(&instructions[i], account, current) {
            Some(next) => {
                current = next;
            },
            None => {
                return None;
            },
        }
        i += 1;
    }
    assert(instructions@.skip(i as int).len() == 0);
    Some(current)
}

} // verus!
