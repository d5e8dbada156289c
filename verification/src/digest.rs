//! SHA-256 digests as lower-case hexadecimal text.
use sha2::Digest;
use vstd::prelude::*;
use vstd::string::*;
use vstd::utf8::encode_utf8;

verus! {

/// The SHA-256 digest of a message.
pub uninterp spec fn sha256(message: Seq<u8>) -> Seq<u8>;

/// `sha2::Sha256::digest`: the 32 bytes of the message's SHA-256 digest.
#[verifier::external_body]
pub(crate) fn sha256_digest(message: &[u8]) -> (res: Vec<u8>)
    ensures
        res@ == sha256(message@),
        res@.len() == 32,
{
    sha2::Sha256::digest(message).to_vec()
}

/// The lower-case hexadecimal digit of `n < 16`.
pub open spec fn hex_digit(n: nat) -> char {
    if n < 10 {
        (48 + n) as char
    } else {
        (87 + n) as char
    }
}

/// Whether `c` is a lower-case hexadecimal digit.
pub open spec fn is_hex(c: char) -> bool {
    ('0' <= c && c <= '9') || ('a' <= c && c <= 'f')
}

/// Two hexadecimal digits for each byte.
pub open spec fn hex_text(bytes: Seq<u8>) -> Seq<char> {
    Seq::new(
        2 * bytes.len(),
        |i: int|
            if i % 2 == 0 {
                hex_digit((bytes[i / 2] / 16) as nat)
            } else {
                hex_digit((bytes[i / 2] % 16) as nat)
            },
    )
}

/// Every character of a hexadecimal text is a lower-case hexadecimal digit.
pub proof fn hex_text_is_hex(bytes: Seq<u8>)
    ensures
        hex_text(bytes).len() == 2 * bytes.len(),
        forall|i: int| 0 <= i < hex_text(bytes).len() ==> is_hex(#[trigger] hex_text(bytes)[i]),
{
}

fn hex_char(n: u8) -> (res: char)
    requires
        n < 16,
    ensures
        res == hex_digit(n as nat),
{
    match n {
        0 => '0',
        1 => '1',
        2 => '2',
        3 => '3',
        4 => '4',
        5 => '5',
        6 => '6',
        7 => '7',
        8 => '8',
        9 => '9',
        10 => 'a',
        11 => 'b',
        12 => 'c',
        13 => 'd',
        14 => 'e',
        _ => 'f',
    }
}

/// The bytes in lower-case hexadecimal.
pub fn hex(bytes: &Vec<u8>) -> (res: String)
    ensures
        res@ == hex_text(bytes@),
{
    let mut out = String::new();
    let mut i: usize = 0;
    while i < bytes.len()
        invariant
            i <= bytes@.len(),
            out@ == hex_text(bytes@.take(i as int)),
        decreases bytes@.len() - i,
    {
        let byte: u8 = bytes[i];
        out.push(hex_char(byte / 16));
        out.push(hex_char(byte % 16));
        assert(out@ =~= hex_text(bytes@.take(i + 1)));
        i = i + 1;
    }
    assert(bytes@.take(bytes@.len() as int) =~= bytes@);
    out
}

/// The hexadecimal SHA-256 digest of a message.
pub open spec fn sha256_hex(message: Seq<u8>) -> Seq<char> {
    hex_text(sha256(message))
}

/// The hexadecimal SHA-256 digest of the UTF-8 bytes of a text.
pub open spec fn text_digest(text: Seq<char>) -> Seq<char> {
    sha256_hex(encode_utf8(text))
}

/// The digest of a message: 64 lower-case hexadecimal digits.
pub fn digest_bytes(message: &[u8]) -> (res: String)
    ensures
        res@ == sha256_hex(message@),
        res@.len() == 64,
        forall|i: int| 0 <= i < res@.len() ==> is_hex(#[trigger] res@[i]),
{
    let bytes = sha256_digest(message);
    proof {
        hex_text_is_hex(bytes@);
    }
    hex(&bytes)
}

/// The digest of a text: 64 lower-case hexadecimal digits.
pub fn digest_text(text: &str) -> (res: String)
    ensures
        res@ == text_digest(text@),
        res@.len() == 64,
        forall|i: int| 0 <= i < res@.len() ==> is_hex(#[trigger] res@[i]),
{
    digest_bytes(text.as_bytes())
}

/// The hexadecimal text of bytes tells them: other bytes have another text.
pub proof fn hex_text_tells_the_bytes(bytes: Seq<u8>, other: Seq<u8>)
    requires
        hex_text(bytes) == hex_text(other),
    ensures
        bytes == other,
{
    assert(hex_text(bytes).len() == 2 * bytes.len());
    assert(hex_text(other).len() == 2 * other.len());
    assert forall|i: int| 0 <= i < bytes.len() implies bytes[i] == other[i] by {
        assert(hex_text(bytes)[2 * i] == hex_text(other)[2 * i]);
        assert(hex_text(bytes)[2 * i + 1] == hex_text(other)[2 * i + 1]);
        assert((2 * i) / 2 == i && (2 * i + 1) / 2 == i);
        assert((2 * i) % 2 == 0 && (2 * i + 1) % 2 == 1);
        assert(hex_text(bytes)[2 * i] == hex_digit((bytes[i] / 16) as nat));
        assert(hex_text(other)[2 * i] == hex_digit((other[i] / 16) as nat));
        assert(hex_text(bytes)[2 * i + 1] == hex_digit((bytes[i] % 16) as nat));
        assert(hex_text(other)[2 * i + 1] == hex_digit((other[i] % 16) as nat));
    }
    assert(bytes =~= other);
}

} // verus!
