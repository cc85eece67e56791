use vstd::prelude::*;
use crate::address::Address;

verus! {

/// The greatest length of a sale's name, in bytes.
pub const MAX_NAME_LEN: usize = 128;

/// The record of one sale, kept at the sale's own derived address.
#[derive(Clone, Debug, PartialEq, Eq)]
pub struct EscrowAccount {
    /// Who created the sale; the only one who may cancel it.
    pub admin: Address,
    /// The ledger account that holds the supply.
    pub holding_account: Address,
    /// The sale's name, a seed of its address.
    pub name: String,
    /// Units of the sold asset granted for one unit of payment.
    pub rate: u64,
    /// What was deposited when the sale was created.
    pub total_supply: u64,
    /// What is still held for sale.
    pub remaining_supply: u64,
    /// The bump at which the sale's address was found.
    pub bump: u8,
}

/// A sale's record as plain values.
pub struct EscrowView {
    pub admin: Seq<u8>,
    pub holding_account: Seq<u8>,
    pub name: Seq<char>,
    pub rate: u64,
    pub total_supply: u64,
    pub remaining_supply: u64,
    pub bump: u8,
}

/// The bytes of a name: its UTF-8 encoding.
pub open spec fn name_bytes(name: Seq<char>) -> Seq<u8> {
    vstd::utf8::encode_utf8(name)
}

impl View for EscrowAccount {
    type V = EscrowView;

    open spec fn view(&self) -> EscrowView {
        EscrowView {
            admin: self.admin@,
            holding_account: self.holding_account@,
            name: self.name@,
            rate: self.rate,
            total_supply: self.total_supply,
            remaining_supply: self.remaining_supply,
            bump: self.bump,
        }
    }
}

impl EscrowView {
    /// What holds of every record of an active sale: a positive rate, no more
    /// left than was deposited, a name that fits the reserved space, and a
    /// holding account that is not the administrator's own identity.
    pub open spec fn well_formed(self) -> bool {
        &&& self.rate > 0
        &&& self.remaining_supply <= self.total_supply
        &&& name_bytes(self.name).len() <= MAX_NAME_LEN
        &&& self.admin != self.holding_account
    }

    /// The bytes that the record takes when stored: an eight-byte type mark,
    /// both identities, the name behind a four-byte length, three eight-byte
    /// integers and the bump.
    pub open spec fn stored_len(self) -> nat {
        8 + 32 + 32 + (4 + name_bytes(self.name).len()) + 8 + 8 + 8 + 1
    }
}

impl EscrowAccount {
    /// The record is well formed.
    pub open spec fn well_formed(&self) -> bool {
        self@.well_formed()
    }

    /// The space reserved for a record: exactly what the longest name needs.
    pub fn space() -> (bytes: usize)
        ensures
            bytes == 8 + 32 + 32 + (4 + MAX_NAME_LEN) + 8 + 8 + 8 + 1,
            bytes == 229,
    {
        8 + 32 + 32 + (4 + MAX_NAME_LEN) + 8 + 8 + 8 + 1
    }

    /// The bytes that this record takes when stored; never more than `space`.
    /// The name must fit the space reserved for it.
    pub fn stored_len(&self) -> (bytes: usize)
        requires
            name_bytes(self.name@).len() <= MAX_NAME_LEN,
        ensures
            bytes == self@.stored_len(),
            bytes <= 229,
    {
        let name_len: usize = self.name.as_str().as_bytes().len();
        8 + 32 + 32 + (4 + name_len) + 8 + 8 + 8 + 1
    }

    /// Whether the record meets what holds of every active sale.
    pub fn is_well_formed(&self) -> (ok: bool)
        ensures
            ok == self.well_formed(),
    {
        let name_len: usize = self.name.as_str().as_bytes().len();
        self.rate > 0 && self.remaining_supply <= self.total_supply && name_len <= MAX_NAME_LEN
            && !self.admin.same(&self.holding_account)
    }
}

} // verus!
