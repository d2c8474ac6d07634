//! Identifiers: the 128-bit value of a UUID, its textual form, and fresh ones.
use vstd::prelude::*;

verus! {

/// The lowercase hexadecimal digit of a nibble.
pub open spec fn hex_digit(n: nat) -> char {
    if n < 10 {
        crate::text::digit_char(n)
    } else if n == 10 {
        'a'
    } else if n == 11 {
        'b'
    } else if n == 12 {
        'c'
    } else if n == 13 {
        'd'
    } else if n == 14 {
        'e'
    } else {
        'f'
    }
}

/// The `count` lowest nibbles of `v` as lowercase hexadecimal, most significant first.
pub open spec fn hex_nibbles(v: nat, count: nat) -> Seq<char>
    decreases count,
{
    if count == 0 {
        Seq::empty()
    } else {
        hex_nibbles(v / 16, (count - 1) as nat).push(hex_digit(v % 16))
    }
}

/// The hyphenated lowercase form of a UUID (`8-4-4-4-12` hexadecimal digits), which
/// is how a UUID displays.
pub open spec fn uuid_string(id: u128) -> Seq<char> {
    let h = hex_nibbles(id as nat, 32);
    h.subrange(0, 8) + seq!['-'] + h.subrange(8, 12) + seq!['-'] + h.subrange(12, 16) + seq!['-']
        + h.subrange(16, 20) + seq!['-'] + h.subrange(20, 32)
}

/// The textual form of the UUID with the given value.
///
/// Trusted: calls `uuid::Uuid::from_u128` and formats the UUID with `Display`, which
/// writes the hyphenated lowercase form of its big-endian bytes; the contract states
/// that form digit by digit.
#[verifier::external_body]
pub fn uuid_text(id: u128) -> (s: String)
    ensures
        s@ == uuid_string(id),
{
    uuid::Uuid::from_u128(id).to_string()
}

/// A fresh random (version 4) UUID.
///
/// Trusted: calls `uuid::Uuid::new_v4`, which draws random bits and sets the version
/// nibble to 4 and the variant bits to `10`; only those bits are stated.
#[verifier::external_body]
pub fn new_id() -> (id: u128)
    ensures
        (id >> 76u128) & 0xfu128 == 4,
        (id >> 62u128) & 0x3u128 == 2,
{
    uuid::Uuid::new_v4().as_u128()
}

/// The textual forms of `ids` as `Debug` prints a list: `[a, b, c]`.
pub open spec fn uuid_list_string(ids: Seq<u128>) -> Seq<char> {
    "["@ + uuid_list_items(ids) + "]"@
}

/// The textual forms of `ids` separated by `", "`.
pub open spec fn uuid_list_items(ids: Seq<u128>) -> Seq<char>
    decreases ids.len(),
{
    if ids.len() == 0 {
        Seq::empty()
    } else if ids.len() == 1 {
        uuid_string(ids[0])
    } else {
        uuid_list_items(ids.drop_last()) + ", "@ + uuid_string(ids.last())
    }
}

/// The `Debug` form of a list of UUIDs.
pub fn uuid_list_text(ids: &Vec<u128>) -> (s: String)
    ensures
        s@ == uuid_list_string(ids@),
{
    let mut s = String::from_str("[");
    let n = ids.len();
    for i in 0..n
        invariant
            n == ids@.len(),
            s@ == "["@ + uuid_list_items(ids@.take(i as int)),
    {
        if i > 0 {
            s.append(", ");
        }
        let t = uuid_text(ids[i]);
        s.append(t.as_str());
        proof {
            let pre = ids@.take(i as int);
            let post = ids@.take(i + 1);
            assert(post.drop_last() =~= pre);
            if i == 0 {
                assert(uuid_list_items(post) == uuid_string(ids@[0]));
                assert(uuid_list_items(pre) =~= Seq::<char>::empty());
            }
        }
        assert(s@ =~= "["@ + uuid_list_items(ids@.take(i + 1)));
    }
    s.append("]");
    assert(ids@.take(n as int) =~= ids@);
    s
}

} // verus!
