//! Content addresses: BLAKE3 digests written in hexadecimal.

use vstd::prelude::*;

verus! {

/// The 32-byte BLAKE3 digest of some input.
pub uninterp spec fn blake3_of(input: Seq<u8>) -> Seq<u8>;

/// `blake3::Hasher`, which digests input in pieces.
#[verifier::external_type_specification]
#[verifier::external_body]
pub struct ExBlake3Hasher(blake3::Hasher);

/// The input a `blake3::Hasher` has been given so far.
pub uninterp spec fn hasher_input(hasher: &blake3::Hasher) -> Seq<u8>;

/// `blake3::Hasher::new`: a hasher without input.
#[verifier::external_body]
fn hasher_new() -> (hasher: blake3::Hasher)
    ensures
        hasher_input(&hasher).len() == 0,
{
    blake3::Hasher::new()
}

/// `blake3::Hasher::update`: appends to the input.
#[verifier::external_body]
fn hasher_update(hasher: &mut blake3::Hasher, bytes: &[u8])
    ensures
        hasher_input(final(hasher)) == hasher_input(old(hasher)) + bytes@,
{
    hasher.update(bytes);
}

/// `blake3::Hasher::finalize`: the digest of the input, named by `blake3_of`.
#[verifier::external_body]
fn hasher_digest(hasher: &blake3::Hasher) -> (digest: [u8; 32])
    ensures
        digest@ == blake3_of(hasher_input(hasher)),
{
    *hasher.finalize().as_bytes()
}

/// The lower-case hexadecimal digit of a value below 16.
pub open spec fn hex_digit(v: int) -> char {
    if v < 10 {
        ('0' as u32 + v) as char
    } else {
        ('a' as u32 + (v - 10)) as char
    }
}

/// Bytes in lower-case hexadecimal, the high digit of each first.
pub open spec fn hex_text(bytes: Seq<u8>) -> Seq<char> {
    Seq::new(
        2 * bytes.len(),
        |i: int|
            if i % 2 == 0 {
                hex_digit(bytes[i / 2] as int / 16)
            } else {
                hex_digit(bytes[i / 2] as int % 16)
            },
    )
}

/// `hex::encode`: lower-case hexadecimal.
#[verifier::external_body]
fn hex_encode(bytes: &[u8]) -> (r: String)
    ensures
        r@ == hex_text(bytes@),
{
    hex::encode(bytes)
}

/// The content address of some bytes.
pub open spec fn content_address(bytes: Seq<u8>) -> Seq<char> {
    hex_text(blake3_of(bytes))
}

/// Digests input that arrives in pieces.
pub struct StreamHasher {
    inner: blake3::Hasher,
}

impl View for StreamHasher {
    type V = Seq<u8>;

    closed spec fn view(&self) -> Seq<u8> {
        hasher_input(&self.inner)
    }
}

impl StreamHasher {
    /// A hasher without input.
    pub fn new() -> (r: Self)
        ensures
            r@ == Seq::<u8>::empty(),
    {
        let r = StreamHasher { inner: hasher_new() };
        assert(r@ =~= Seq::<u8>::empty());
        r
    }

    /// Appends a piece.
    pub fn update(&mut self, piece: &[u8])
        ensures
            final(self)@ == old(self)@ + piece@,
    {
        hasher_update(&mut self.inner, piece);
    }

    /// The content address of everything appended.
    pub fn finish(&self) -> (r: String)
        ensures
            r@ == content_address(self@),
            r@.len() == 64,
    {
        let digest = hasher_digest(&self.inner);
        address_of_digest(&digest)
    }
}

/// The address that a digest spells.
pub fn address_of_digest(digest: &[u8; 32]) -> (r: String)
    ensures
        r@ == hex_text(digest@),
        r@.len() == 64,
{
    hex_encode(digest.as_slice())
}

/// The content address of `bytes`.
pub fn content_hash(bytes: &[u8]) -> (r: String)
    ensures
        r@ == content_address(bytes@),
        r@.len() == 64,
{
    let mut hasher = StreamHasher::new();
    hasher.update(bytes);
    assert(hasher@ =~= bytes@);
    hasher.finish()
}

/// The value of an ASCII hexadecimal digit of either case.
pub open spec fn digit_value(b: u8) -> Option<int> {
    if 0x30 <= b <= 0x39 {
        Some(b - 0x30)
    } else if 0x61 <= b <= 0x66 {
        Some(b - 0x61 + 10)
    } else if 0x41 <= b <= 0x46 {
        Some(b - 0x41 + 10)
    } else {
        None
    }
}

/// The 32 bytes that 64 hexadecimal digits spell.
pub open spec fn spelled(digits: Seq<u8>) -> Seq<u8> {
    Seq::new(
        32,
        |i: int|
            (digit_value(digits[2 * i]).unwrap() * 16 + digit_value(
                digits[2 * i + 1],
            ).unwrap()) as u8,
    )
}

/// What a text decodes to: 32 bytes for exactly 64 hexadecimal digits, else nothing.
pub open spec fn decoded(text: Seq<char>) -> Option<Seq<u8>> {
    let b = vstd::utf8::encode_utf8(text);
    if b.len() == 64 && forall|i: int| 0 <= i < 64 ==> digit_value(#[trigger] b[i]) is Some {
        Some(spelled(b))
    } else {
        None
    }
}

fn value_of_digit(b: u8) -> (r: Option<u8>)
    ensures
        match digit_value(b) {
            Some(v) => r matches Some(x) && x == v && x < 16,
            None => r is None,
        },
{
    if 0x30 <= b && b <= 0x39 {
        Some(b - 0x30)
    } else if 0x61 <= b && b <= 0x66 {
        Some(b - 0x61 + 10)
    } else if 0x41 <= b && b <= 0x46 {
        Some(b - 0x41 + 10)
    } else {
        None
    }
}

/// Decodes a 64-digit hexadecimal hash of either case.
pub fn decode_hash_hex(hex: &str) -> (r: Option<[u8; 32]>)
    ensures
        match decoded(hex@) {
            Some(b) => r matches Some(out) && out@ == b,
            None => r is None,
        },
{
    let bytes = hex.as_bytes();
    if bytes.len() != 64 {
        return None;
    }
    let mut out: [u8; 32] = [0;32];
    let mut i: usize = 0;
    while i < 32
        invariant
            i <= 32,
            bytes@.len() == 64,
            bytes@ == vstd::utf8::encode_utf8(hex@),
            forall|j: int| 0 <= j < 2 * i ==> digit_value(#[trigger] bytes@[j]) is Some,
            forall|j: int| 0 <= j < i ==> out@[j] == #[trigger] spelled(bytes@)[j],
        decreases 32 - i,
    {
        let high = match value_of_digit(bytes[2 * i]) {
            Some(v) => v,
            None => return None,
        };
        let low = match value_of_digit(bytes[2 * i + 1]) {
            Some(v) => v,
            None => return None,
        };
        let value: u8 = high * 16 + low;
        assert(spelled(bytes@)[i as int] == value);
        out[i] = value;
        i += 1;
    }
    assert(out@ =~= spelled(bytes@));
    Some(out)
}

/// Hexadecimal text is ASCII, and its digits have the values they were made from.
proof fn lemma_hex_digits(bytes: Seq<u8>)
    ensures
        vstd::utf8::is_ascii_chars(hex_text(bytes)),
        forall|i: int|
            0 <= i < 2 * bytes.len() ==> digit_value(#[trigger] hex_text(bytes)[i] as u8) == Some(
                if i % 2 == 0 {
                    bytes[i / 2] as int / 16
                } else {
                    bytes[i / 2] as int % 16
                },
            ),
{
    let t = hex_text(bytes);
    assert forall|i: int| 0 <= i < t.len() implies '\0' <= #[trigger] t[i] <= '\u{7f}' by {
        lemma_hex_digit(bytes[i / 2] as int / 16);
        lemma_hex_digit(bytes[i / 2] as int % 16);
    }
    assert forall|i: int| 0 <= i < 2 * bytes.len() implies digit_value(
        #[trigger] t[i] as u8,
    ) == Some(
        if i % 2 == 0 {
            bytes[i / 2] as int / 16
        } else {
            bytes[i / 2] as int % 16
        },
    ) by {
        lemma_hex_digit(bytes[i / 2] as int / 16);
        lemma_hex_digit(bytes[i / 2] as int % 16);
    }
}

/// A content address is ASCII text.
pub proof fn lemma_address_is_ascii(digest: Seq<u8>)
    ensures
        vstd::utf8::is_ascii_chars(hex_text(digest)),
{
    lemma_hex_digits(digest);
}

/// A hexadecimal digit is an ASCII character with the value it was made from.
proof fn lemma_hex_digit(v: int)
    requires
        0 <= v < 16,
    ensures
        '\0' <= hex_digit(v) <= '\u{7f}',
        digit_value(hex_digit(v) as u8) == Some(v),
{
}

/// Decoding the hexadecimal text of a digest gives the digest back.
pub proof fn law_decoding_inverts_encoding(digest: Seq<u8>)
    requires
        digest.len() == 32,
    ensures
        decoded(hex_text(digest)) == Some(digest),
{
    let t = hex_text(digest);
    let b = vstd::utf8::encode_utf8(t);
    lemma_hex_digits(digest);
    vstd::utf8::is_ascii_chars_encode_utf8(t);
    assert forall|i: int| 0 <= i < 64 implies digit_value(#[trigger] b[i]) == Some(
        if i % 2 == 0 {
            digest[i / 2] as int / 16
        } else {
            digest[i / 2] as int % 16
        },
    ) by {
        assert(t[i] as u8 == b[i]);
    }
    assert forall|i: int| 0 <= i < 32 implies #[trigger] spelled(b)[i] == digest[i] by {
        assert(digit_value(b[2 * i]) == Some(digest[i] as int / 16));
        assert(digit_value(b[2 * i + 1]) == Some(digest[i] as int % 16));
    }
    assert(spelled(b) =~= digest);
}

/// Different digests have different addresses.
pub proof fn law_addresses_are_distinct(a: Seq<u8>, b: Seq<u8>)
    requires
        a.len() == 32,
        b.len() == 32,
        hex_text(a) == hex_text(b),
    ensures
        a == b,
{
    law_decoding_inverts_encoding(a);
    law_decoding_inverts_encoding(b);
}

} // verus!
