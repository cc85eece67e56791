use vstd::prelude::*;
use vstd::bytes::{
    lemma_auto_spec_u32_to_from_le_bytes, lemma_auto_spec_u64_to_from_le_bytes,
    spec_u32_from_le_bytes, spec_u32_to_le_bytes, spec_u64_from_le_bytes, spec_u64_to_le_bytes,
    u32_from_le_bytes,
    u32_to_le_bytes, u64_from_le_bytes, u64_to_le_bytes,
};
use vstd::slice::{slice_subrange, slice_to_vec};
use vstd::utf8::valid_utf8;
use crate::address::Address;
use crate::escrow::{name_bytes, EscrowAccount, EscrowView, MAX_NAME_LEN};

verus! {

/// The length of the mark that tells a sale's record from other stored data.
pub const MARK_LEN: usize = 8;

/// The bytes of a record before its name: the mark, both identities and the
/// name's length.
pub const HEAD_LEN: usize = 76;

/// The bytes of a record after its name: three integers and the bump.
pub const TAIL_LEN: usize = 25;

/// A record as it is stored: the mark, the administrator, the holding
/// account, the name's length in four bytes and the name, then the rate, the
/// deposit and what remains in eight bytes each, then the bump. Integers are
/// little-endian.
pub open spec fn stored_bytes(record: EscrowView, mark: Seq<u8>) -> Seq<u8> {
    mark + record.admin + record.holding_account + spec_u32_to_le_bytes(
        name_bytes(record.name).len() as u32,
    ) + name_bytes(record.name) + spec_u64_to_le_bytes(record.rate) + spec_u64_to_le_bytes(
        record.total_supply,
    ) + spec_u64_to_le_bytes(record.remaining_supply) + seq![record.bump]
}

/// The length that the bytes give for the name.
pub open spec fn stored_name_len(bytes: Seq<u8>) -> int {
    spec_u32_from_le_bytes(bytes.subrange(72, 76)) as int
}

/// The bytes start with a record: they are long enough, carry the mark, and
/// give a name of at most the greatest length that is valid UTF-8.
pub open spec fn holds_record(bytes: Seq<u8>, mark: Seq<u8>) -> bool {
    &&& bytes.len() >= HEAD_LEN + TAIL_LEN
    &&& bytes.subrange(0, 8) == mark
    &&& stored_name_len(bytes) <= MAX_NAME_LEN
    &&& bytes.len() >= HEAD_LEN + stored_name_len(bytes) + TAIL_LEN
    &&& valid_utf8(bytes.subrange(76, 76 + stored_name_len(bytes)))
}

/// Calls `String::from_utf8` of std, which takes the bytes as a string where
/// they are valid UTF-8 and refuses them otherwise; the string then has
/// exactly those bytes. Believed, not proved; validity is the one that vstd
/// defines for the bytes of a `str`.
#[verifier::external_body]
fn string_from_utf8(bytes: Vec<u8>) -> (text: Option<String>)
    ensures
        text.is_some() == valid_utf8(bytes@),
        text.is_some() ==> name_bytes(text.unwrap()@) == bytes@,
{
    match String::from_utf8(bytes) {
        Ok(text) => Some(text),
        Err(_) => None,
    }
}

fn append(out: &mut Vec<u8>, part: &[u8])
    ensures
        final(out)@ == old(out)@ + part@,
{
    out.extend_from_slice(part);
    assert(out@ =~= old(out)@ + part@);
}

fn read_address(bytes: &[u8], at: usize) -> (address: Address)
    requires
        at + 32 <= bytes@.len(),
    ensures
        address@ == bytes@.subrange(at as int, at + 32),
{
    let total: usize = bytes.len();
    let mut found = [0u8;32];
    let mut i: usize = 0;
    while i < 32
        invariant
            i <= 32,
            at + 32 <= total == bytes@.len(),
            forall|j: int| 0 <= j < i ==> found@[j] == bytes@[at + j],
        decreases 32 - i,
    {
        found[i] = bytes[at + i];
        i += 1;
    }
    assert(found@ =~= bytes@.subrange(at as int, at + 32));
    Address { bytes: found }
}

/// The stored form of a record under a mark, or `None` where its name is
/// longer than a stored record allows.
pub fn encode(record: &EscrowAccount, mark: &[u8; 8]) -> (bytes: Option<Vec<u8>>)
    ensures
        bytes.is_some() == (name_bytes(record.name@).len() <= MAX_NAME_LEN),
        bytes.is_some() ==> bytes.unwrap()@ == stored_bytes(record@, mark@),
        bytes.is_some() ==> bytes.unwrap()@.len() == record@.stored_len(),
{
    let name = record.name.as_str().as_bytes();
    if name.len() > MAX_NAME_LEN {
        return None;
    }
    let mut out: Vec<u8> = Vec::new();
    append(&mut out, mark.as_slice());
    append(&mut out, record.admin.bytes.as_slice());
    append(&mut out, record.holding_account.bytes.as_slice());
    append(&mut out, u32_to_le_bytes(name.len() as u32).as_slice());
    append(&mut out, name);
    append(&mut out, u64_to_le_bytes(record.rate).as_slice());
    append(&mut out, u64_to_le_bytes(record.total_supply).as_slice());
    append(&mut out, u64_to_le_bytes(record.remaining_supply).as_slice());
    out.push(record.bump);
    proof {
        lemma_auto_spec_u64_to_from_le_bytes();
        assert(out@ =~= stored_bytes(record@, mark@));
    }
    Some(out)
}

/// Reads the record that the bytes start with, as stored under the mark; what
/// follows the record is not looked at. Returns a record exactly when the
/// bytes hold one, and then the record whose stored form those bytes are.
pub fn decode(bytes: &[u8], mark: &[u8; 8]) -> (record: Option<EscrowAccount>)
    ensures
        record.is_some() == holds_record(bytes@, mark@),
        record.is_some() ==> {
            &&& name_bytes(record.unwrap().name@).len() <= MAX_NAME_LEN
            &&& record.unwrap()@.stored_len() <= bytes@.len()
            &&& bytes@.subrange(0, record.unwrap()@.stored_len() as int) == stored_bytes(
                record.unwrap()@,
                mark@,
            )
        },
{
    if bytes.len() < HEAD_LEN + TAIL_LEN {
        return None;
    }
    let mut i: usize = 0;
    while i < 8
        invariant
            i <= 8,
            bytes@.len() >= 8,
            forall|j: int| 0 <= j < i ==> bytes@[j] == mark@[j],
        decreases 8 - i,
    {
        if bytes[i] != mark[i] {
            assert(bytes@.subrange(0, 8)[i as int] != mark@[i as int]);
            return None;
        }
        i += 1;
    }
    assert(bytes@.subrange(0, 8) =~= mark@);
    let admin = read_address(bytes, 8);
    let holding_account = read_address(bytes, 40);
    let name_len32: u32 = u32_from_le_bytes(slice_subrange(bytes, 72, 76));
    let name_len: usize = name_len32 as usize;
    if name_len > MAX_NAME_LEN || bytes.len() < HEAD_LEN + name_len + TAIL_LEN {
        return None;
    }
    let name = match string_from_utf8(slice_to_vec(slice_subrange(bytes, 76, 76 + name_len))) {
        Some(name) => name,
        None => {
            return None;
        },
    };
    let rate = u64_from_le_bytes(slice_subrange(bytes, 76 + name_len, 84 + name_len));
    let total_supply = u64_from_le_bytes(slice_subrange(bytes, 84 + name_len, 92 + name_len));
    let remaining_supply = u64_from_le_bytes(
        slice_subrange(bytes, 92 + name_len, 100 + name_len),
    );
    let bump = bytes[100 + name_len];
    let record = EscrowAccount {
        admin,
        holding_account,
        name,
        rate,
        total_supply,
        remaining_supply,
        bump,
    };
    proof {
        lemma_auto_spec_u32_to_from_le_bytes();
        lemma_auto_spec_u64_to_from_le_bytes();
        let n = name_len as int;
        assert(spec_u32_to_le_bytes(name_len32) == bytes@.subrange(72, 76));
        assert(spec_u64_to_le_bytes(rate) == bytes@.subrange(76 + n, 84 + n));
        assert(spec_u64_to_le_bytes(total_supply) == bytes@.subrange(84 + n, 92 + n));
        assert(spec_u64_to_le_bytes(remaining_supply) == bytes@.subrange(92 + n, 100 + n));
        assert(bytes@.subrange(0, 101 + n) =~= stored_bytes(record@, mark@));
    }
    Some(record)
}

/// The length of a record's name in bytes.
pub open spec fn name_len(record: EscrowView) -> int {
    name_bytes(record.name).len() as int
}

/// Where each field lies in a record's stored form.
pub proof fn fields_in_place(record: EscrowView, mark: Seq<u8>)
    requires
        mark.len() == MARK_LEN,
        record.admin.len() == 32,
        record.holding_account.len() == 32,
        name_bytes(record.name).len() <= MAX_NAME_LEN,
    ensures
        stored_bytes(record, mark).len() == record.stored_len(),
        stored_bytes(record, mark).subrange(0, 8) == mark,
        stored_bytes(record, mark).subrange(8, 40) == record.admin,
        stored_bytes(record, mark).subrange(40, 72) == record.holding_account,
        stored_bytes(record, mark).subrange(72, 76) == spec_u32_to_le_bytes(
            name_bytes(record.name).len() as u32,
        ),
        stored_bytes(record, mark).subrange(76, 76 + name_len(record)) == name_bytes(
            record.name,
        ),
        stored_bytes(record, mark).subrange(
            76 + name_len(record),
            84 + name_len(record),
        ) == spec_u64_to_le_bytes(record.rate),
        stored_bytes(record, mark).subrange(
            84 + name_len(record),
            92 + name_len(record),
        ) == spec_u64_to_le_bytes(record.total_supply),
        stored_bytes(record, mark).subrange(
            92 + name_len(record),
            100 + name_len(record),
        ) == spec_u64_to_le_bytes(record.remaining_supply),
        stored_bytes(record, mark)[100 + name_len(record)] == record.bump,
{
    lemma_auto_spec_u32_to_from_le_bytes();
    lemma_auto_spec_u64_to_from_le_bytes();
    let s = stored_bytes(record, mark);
    let n = name_bytes(record.name).len() as int;
    assert(s.subrange(0, 8) =~= mark);
    assert(s.subrange(8, 40) =~= record.admin);
    assert(s.subrange(40, 72) =~= record.holding_account);
    assert(s.subrange(72, 76) =~= spec_u32_to_le_bytes(n as u32));
    assert(s.subrange(76, 76 + n) =~= name_bytes(record.name));
    assert(s.subrange(76 + n, 84 + n) =~= spec_u64_to_le_bytes(record.rate));
    assert(s.subrange(84 + n, 92 + n) =~= spec_u64_to_le_bytes(record.total_supply));
    assert(s.subrange(92 + n, 100 + n) =~= spec_u64_to_le_bytes(record.remaining_supply));
}

/// The stored form of a record, with anything behind it, holds a record.
pub proof fn stored_record_is_held(record: EscrowView, mark: Seq<u8>, padding: Seq<u8>)
    requires
        mark.len() == MARK_LEN,
        record.admin.len() == 32,
        record.holding_account.len() == 32,
        name_bytes(record.name).len() <= MAX_NAME_LEN,
    ensures
        holds_record(stored_bytes(record, mark) + padding, mark),
        stored_name_len(stored_bytes(record, mark) + padding) == name_bytes(record.name).len(),
{
    broadcast use vstd::utf8::encode_utf8_valid_utf8;

    lemma_auto_spec_u32_to_from_le_bytes();
    fields_in_place(record, mark);
    let s = stored_bytes(record, mark);
    let all = s + padding;
    let n = name_bytes(record.name).len() as int;
    assert(all.subrange(0, 8) =~= s.subrange(0, 8));
    assert(all.subrange(72, 76) =~= s.subrange(72, 76));
    assert(all.subrange(76, 76 + n) =~= s.subrange(76, 76 + n));
}

/// What is stored reads back: a record whose stored form is the start of
/// another record's stored form, with anything behind it, is that record.
pub proof fn stored_record_reads_back(
    record: EscrowView,
    mark: Seq<u8>,
    padding: Seq<u8>,
    other: EscrowView,
)
    requires
        mark.len() == MARK_LEN,
        record.admin.len() == 32,
        record.holding_account.len() == 32,
        name_bytes(record.name).len() <= MAX_NAME_LEN,
        other.admin.len() == 32,
        other.holding_account.len() == 32,
        name_bytes(other.name).len() <= MAX_NAME_LEN,
        other.stored_len() <= (stored_bytes(record, mark) + padding).len(),
        (stored_bytes(record, mark) + padding).subrange(0, other.stored_len() as int)
            == stored_bytes(other, mark),
    ensures
        other == record,
{
    broadcast use vstd::utf8::encode_utf8_decode_utf8;

    lemma_auto_spec_u32_to_from_le_bytes();
    lemma_auto_spec_u64_to_from_le_bytes();
    fields_in_place(record, mark);
    fields_in_place(other, mark);
    let mine = stored_bytes(record, mark);
    let theirs = stored_bytes(other, mark);
    let all = mine + padding;
    let n = name_bytes(record.name).len() as int;
    let m = name_bytes(other.name).len() as int;
    assert forall|i: int| 0 <= i < theirs.len() implies theirs[i] == all[i] by {
        assert(all.subrange(0, other.stored_len() as int)[i] == all[i]);
    }
    assert(theirs.subrange(72, 76) =~= mine.subrange(72, 76));
    assert(spec_u32_from_le_bytes(spec_u32_to_le_bytes(n as u32)) == n as u32);
    assert(spec_u32_from_le_bytes(spec_u32_to_le_bytes(m as u32)) == m as u32);
    assert(n == m);
    assert(theirs =~= mine);
    assert(other.name == vstd::utf8::decode_utf8(name_bytes(other.name)));
    assert(record.name == vstd::utf8::decode_utf8(name_bytes(record.name)));
    assert(spec_u64_from_le_bytes(spec_u64_to_le_bytes(other.rate)) == other.rate);
    assert(spec_u64_from_le_bytes(spec_u64_to_le_bytes(record.rate)) == record.rate);
    assert(spec_u64_from_le_bytes(spec_u64_to_le_bytes(other.total_supply))
        == other.total_supply);
    assert(spec_u64_from_le_bytes(spec_u64_to_le_bytes(record.total_supply))
        == record.total_supply);
    assert(spec_u64_from_le_bytes(spec_u64_to_le_bytes(other.remaining_supply))
        == other.remaining_supply);
    assert(spec_u64_from_le_bytes(spec_u64_to_le_bytes(record.remaining_supply))
        == record.remaining_supply);
}

} // verus!
