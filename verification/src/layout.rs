use crate::account::{name_len, UserAccount, UserAccountView, MAX_NAME_LEN};
use crate::address::Address;
use vstd::bytes::{spec_u32_from_le_bytes, spec_u32_to_le_bytes};
use vstd::bytes::{spec_u64_from_le_bytes, spec_u64_to_le_bytes};
use vstd::bytes::{u32_from_le_bytes, u32_to_le_bytes, u64_from_le_bytes, u64_to_le_bytes};
use vstd::prelude::*;
use vstd::slice::slice_subrange;
use vstd::utf8::{decode_utf8, encode_utf8, valid_utf8};

verus! {

/// The header that marks stored bytes as a user account.
pub const DISCRIMINATOR: [u8; 8] = [211, 33, 136, 16, 186, 110, 242, 127];

/// The byte that stands for a flag.
pub open spec fn flag_byte(flag: bool) -> u8 {
    if flag {
        1
    } else {
        0
    }
}

/// A signed time as the unsigned number with the same sixty-four bits.
pub open spec fn timestamp_bits(time: i64) -> u64 {
    if time >= 0 {
        time as u64
    } else {
        (time + 0x1_0000_0000_0000_0000) as u64
    }
}

/// The signed time that sixty-four bits stand for.
pub open spec fn timestamp_of(bits: u64) -> i64 {
    if bits < 0x8000_0000_0000_0000 {
        bits as i64
    } else {
        (bits - 0x1_0000_0000_0000_0000) as i64
    }
}

/// The stored form of a record: the header, the authority, the name's byte
/// count in four bytes and the name, the age, the balance in eight bytes,
/// the activity flag, and the creation time in eight; numbers with their
/// low byte first.
pub open spec fn encoded(record: UserAccountView) -> Seq<u8> {
    DISCRIMINATOR@ + record.authority@ + spec_u32_to_le_bytes(name_len(record.name) as u32)
        + encode_utf8(record.name) + seq![record.age] + spec_u64_to_le_bytes(record.balance)
        + seq![flag_byte(record.is_active)] + spec_u64_to_le_bytes(
        timestamp_bits(record.created_at),
    )
}

/// The stored form filled up with zeros to the size set aside for a record.
pub open spec fn image(record: UserAccountView) -> Seq<u8> {
    encoded(record) + Seq::new((UserAccount::LEN - encoded(record).len()) as nat, |i: int| 0u8)
}

/// The byte count that stored bytes give for the name.
pub open spec fn stored_name_len(data: Seq<u8>) -> int {
    spec_u32_from_le_bytes(data.subrange(40, 44)) as int
}

/// The bytes that stored bytes hold as the name.
pub open spec fn stored_name(data: Seq<u8>) -> Seq<u8> {
    data.subrange(44, 44 + stored_name_len(data))
}

/// Whether `data` begins with the stored form of a record: the header is
/// there, every field is there in full, the name is UTF-8 and the flag is
/// zero or one. What follows the last field is of no account.
pub open spec fn decodable(data: Seq<u8>) -> bool {
    &&& data.len() >= 44
    &&& data.subrange(0, 8) == DISCRIMINATOR@
    &&& data.len() >= 62 + stored_name_len(data)
    &&& valid_utf8(stored_name(data))
    &&& data[53 + stored_name_len(data)] <= 1
}

/// Whether `record` is the record that `data` begins with.
pub open spec fn decodes_to(data: Seq<u8>, record: UserAccountView) -> bool {
    let n = stored_name_len(data);
    &&& decodable(data)
    &&& record.authority@ == data.subrange(8, 40)
    &&& record.name == decode_utf8(stored_name(data))
    &&& record.age == data[44 + n]
    &&& record.balance == spec_u64_from_le_bytes(data.subrange(45 + n, 53 + n))
    &&& record.is_active == (data[53 + n] == 1)
    &&& record.created_at == timestamp_of(spec_u64_from_le_bytes(data.subrange(54 + n, 62 + n)))
}

/// Reads bytes as text through `core::str::from_utf8`.
///
/// Trusted: the call succeeds exactly on well-formed UTF-8, and the text it
/// hands out is made of the very bytes it was given.
#[verifier::external_body]
fn text_of(bytes: &[u8]) -> (text: Option<&str>)
    ensures
        text is Some <==> valid_utf8(bytes@),
        text is Some ==> encode_utf8(text->0@) == bytes@,
{
    match core::str::from_utf8(bytes) {
        Ok(text) => Some(text),
        Err(_) => None,
    }
}

/// Puts `bytes` at the end of `out`.
fn append(out: &mut Vec<u8>, bytes: &[u8])
    ensures
        final(out)@ == old(out)@ + bytes@,
{
    let mut i: usize = 0;
    while i < bytes.len()
        invariant
            i <= bytes.len(),
            out@ == old(out)@ + bytes@.subrange(0, i as int),
        decreases bytes.len() - i,
    {
        out.push(bytes[i]);
        i += 1;
        assert(out@ =~= old(out)@ + bytes@.subrange(0, i as int));
    }
    assert(bytes@.subrange(0, i as int) =~= bytes@);
}

/// The unsigned number with the bits of `time`.
fn bits_of_timestamp(time: i64) -> (bits: u64)
    ensures
        bits == timestamp_bits(time),
{
    if time >= 0 {
        time as u64
    } else {
        let wide: i128 = time as i128;
        (wide + 0x1_0000_0000_0000_0000i128) as u64
    }
}

/// The signed time with the bits of `bits`.
fn timestamp_of_bits(bits: u64) -> (time: i64)
    ensures
        time == timestamp_of(bits),
{
    if bits < 0x8000_0000_0000_0000u64 {
        bits as i64
    } else {
        let wide: i128 = bits as i128;
        (wide - 0x1_0000_0000_0000_0000i128) as i64
    }
}

impl UserAccount {
    /// The bytes to keep for the record: its stored form, filled up with
    /// zeros to exactly [`UserAccount::LEN`] bytes.
    ///
    /// There is none for a record whose name is over the limit: it would
    /// not fit the space set aside.
    pub fn encode(&self) -> (stored: Option<Vec<u8>>)
        ensures
            stored is Some <==> name_len(self@.name) <= MAX_NAME_LEN,
            stored is Some ==> stored->0@ == image(self@),
            stored is Some ==> stored->0@.len() == UserAccount::LEN,
    {
        let name = self.name.as_str().as_bytes();
        if name.len() > MAX_NAME_LEN {
            return None;
        }
        let mut out: Vec<u8> = Vec::new();
        append(&mut out, &DISCRIMINATOR);
        append(&mut out, &self.authority.bytes);
        let count = u32_to_le_bytes(name.len() as u32);
        append(&mut out, count.as_slice());
        append(&mut out, name);
        out.push(self.age);
        let balance = u64_to_le_bytes(self.balance);
        append(&mut out, balance.as_slice());
        out.push(if self.is_active { 1 } else { 0 });
        let created = u64_to_le_bytes(bits_of_timestamp(self.created_at));
        append(&mut out, created.as_slice());
        assert(out@ =~= encoded(self@));
        let ghost body = out@;
        while out.len() < UserAccount::LEN
            invariant
                body.len() <= out@.len() <= UserAccount::LEN,
                out@ =~= body + Seq::new((out@.len() - body.len()) as nat, |i: int| 0u8),
            decreases UserAccount::LEN - out.len(),
        {
            out.push(0);
        }
        Some(out)
    }

    /// Reads the record that `data` begins with.
    ///
    /// There is none where the header is missing or another, where a field
    /// is cut short, where the name is not UTF-8 or where the flag is
    /// neither zero nor one. Bytes after the last field are passed over.
    pub fn decode(data: &[u8]) -> (record: Option<UserAccount>)
        ensures
            record is Some <==> decodable(data@),
            record is Some ==> decodes_to(data@, record->0@),
    {
        if data.len() < 44 {
            return None;
        }
        let mut i: usize = 0;
        while i < 8
            invariant
                i <= 8,
                data@.len() >= 44,
                forall|j: int| 0 <= j < i ==> data@[j] == DISCRIMINATOR@[j],
            decreases 8 - i,
        {
            if data[i] != DISCRIMINATOR[i] {
                assert(data@.subrange(0, 8)[i as int] != DISCRIMINATOR@[i as int]);
                return None;
            }
            i += 1;
        }
        assert(data@.subrange(0, 8) =~= DISCRIMINATOR@);
        let mut authority = [0u8; 32];
        let mut k: usize = 0;
        while k < 32
            invariant
                k <= 32,
                data@.len() >= 44,
                forall|j: int| 0 <= j < k ==> authority@[j] == data@[8 + j],
            decreases 32 - k,
        {
            authority[k] = data[8 + k];
            k += 1;
        }
        assert(authority@ =~= data@.subrange(8, 40));
        let n = u32_from_le_bytes(slice_subrange(data, 40, 44)) as usize;
        let rest = data.len() - 44;
        if rest < 18 || rest - 18 < n {
            return None;
        }
        let name = match text_of(slice_subrange(data, 44, 44 + n)) {
            Some(text) => text,
            None => {
                return None;
            },
        };
        proof {
            vstd::utf8::encode_utf8_decode_utf8(name@);
        }
        let age = data[44 + n];
        let balance = u64_from_le_bytes(slice_subrange(data, 45 + n, 53 + n));
        let flag = data[53 + n];
        if flag > 1 {
            return None;
        }
        let created = u64_from_le_bytes(slice_subrange(data, 54 + n, 62 + n));
        Some(
            UserAccount {
                authority: Address { bytes: authority },
                name: name.to_owned(),
                age,
                balance,
                is_active: flag == 1,
                created_at: timestamp_of_bits(created),
            },
        )
    }
}

/// Reading a time's bits back gives the time.
pub proof fn lemma_timestamp_bits_round_trip(time: i64)
    ensures
        timestamp_of(timestamp_bits(time)) == time,
{
}

/// The stored form of a record takes sixty-two bytes and the bytes of its
/// name; with a name within the limit it fits the space set aside.
pub proof fn lemma_encoded_len(record: UserAccountView)
    ensures
        encoded(record).len() == 62 + name_len(record.name),
        name_len(record.name) <= MAX_NAME_LEN ==> encoded(record).len() <= UserAccount::LEN,
        name_len(record.name) <= MAX_NAME_LEN ==> image(record).len() == UserAccount::LEN,
{
    vstd::bytes::lemma_auto_spec_u32_to_from_le_bytes();
    vstd::bytes::lemma_auto_spec_u64_to_from_le_bytes();
}

/// Reading inverts storing: bytes that begin with the stored form of a
/// record, whatever follows it, are read as that record.
pub proof fn lemma_decode_inverts_encode(record: UserAccountView, tail: Seq<u8>)
    requires
        name_len(record.name) <= u32::MAX,
    ensures
        decodes_to(encoded(record) + tail, record),
{
    vstd::bytes::lemma_auto_spec_u32_to_from_le_bytes();
    vstd::bytes::lemma_auto_spec_u64_to_from_le_bytes();
    vstd::utf8::encode_utf8_valid_utf8(record.name);
    vstd::utf8::encode_utf8_decode_utf8(record.name);
    lemma_timestamp_bits_round_trip(record.created_at);
    let n = name_len(record.name) as int;
    let count = spec_u32_to_le_bytes(n as u32);
    let name = encode_utf8(record.name);
    let balance = spec_u64_to_le_bytes(record.balance);
    let created = spec_u64_to_le_bytes(timestamp_bits(record.created_at));
    let data = encoded(record) + tail;
    assert(data.subrange(0, 8) =~= DISCRIMINATOR@);
    assert(data.subrange(8, 40) =~= record.authority@);
    assert(data.subrange(40, 44) =~= count);
    assert(stored_name_len(data) == n);
    assert(data.subrange(44, 44 + n) =~= name);
    assert(data[44 + n] == record.age);
    assert(data.subrange(45 + n, 53 + n) =~= balance);
    assert(data[53 + n] == flag_byte(record.is_active));
    assert(data.subrange(54 + n, 62 + n) =~= created);
}

/// Bytes are read as one record at most.
pub proof fn lemma_decoding_is_unique(data: Seq<u8>, first: UserAccountView, second: UserAccountView)
    requires
        decodes_to(data, first),
        decodes_to(data, second),
    ensures
        first == second,
{
    crate::guard::lemma_address_by_bytes(first.authority, second.authority);
}

} // verus!
