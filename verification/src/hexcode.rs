//! Lower-case hex encoding and decoding of byte strings.
//!
//! All cryptographic payloads (commitments, signature shares, signatures,
//! public keys) cross the API surface as hex strings.  The two executable
//! entry points call the `hex` crate; their results are pinned to the spec
//! functions below, and the round-trip lemma shows the two directions agree.

use vstd::prelude::*;

verus! {

/// The lower-case hex digit for a nibble.
pub open spec fn hex_char_of(n: u8) -> char
    recommends
        n < 16,
{
    seq!['0', '1', '2', '3', '4', '5', '6', '7', '8', '9', 'a', 'b', 'c', 'd', 'e', 'f'][n as int]
}

/// Lower-case hex encoding of a byte sequence: two digits per byte, high
/// nibble first.
pub open spec fn hex_seq_of(b: Seq<u8>) -> Seq<char>
    decreases b.len(),
{
    if b.len() == 0 {
        Seq::empty()
    } else {
        seq![hex_char_of(b[0] / 16), hex_char_of(b[0] % 16)] + hex_seq_of(b.skip(1))
    }
}

/// A character the decoder accepts: upper- and lower-case digits both count.
pub open spec fn is_hex_char(c: char) -> bool {
    ('0' <= c && c <= '9') || ('a' <= c && c <= 'f') || ('A' <= c && c <= 'F')
}

/// The nibble value of one hex character.
pub open spec fn nibble_of(c: char) -> u8
    recommends
        is_hex_char(c),
{
    if '0' <= c && c <= '9' {
        (c as int - '0' as int) as u8
    } else if 'a' <= c && c <= 'f' {
        (c as int - 'a' as int + 10) as u8
    } else {
        (c as int - 'A' as int + 10) as u8
    }
}

/// A string the decoder accepts whole: even length, hex characters only.
pub open spec fn valid_hex(s: Seq<char>) -> bool {
    &&& s.len() % 2 == 0
    &&& forall|i: int| 0 <= i < s.len() ==> is_hex_char(#[trigger] s[i])
}

/// The bytes denoted by a hex string, two characters per byte.
pub open spec fn bytes_of_hex(s: Seq<char>) -> Seq<u8>
    decreases s.len(),
{
    if s.len() < 2 {
        Seq::empty()
    } else {
        seq![(nibble_of(s[0]) as int * 16 + nibble_of(s[1]) as int) as u8] + bytes_of_hex(
            s.skip(2),
        )
    }
}

/// Relies on hex::encode: lower-case output, two digits per byte, high nibble
/// first.
#[verifier::external_body]
pub(crate) fn hex_encode(b: &[u8]) -> (r: String)
    ensures
        r@ == hex_seq_of(b@),
{
    hex::encode(b)
}

/// Relies on hex::decode: accepts upper- or lower-case digits, rejects odd
/// lengths and any other character.  The error is carried as its message.
#[verifier::external_body]
pub(crate) fn hex_decode(s: &str) -> (r: Result<Vec<u8>, String>)
    ensures
        r is Ok <==> valid_hex(s@),
        r matches Ok(v) ==> v@ == bytes_of_hex(s@),
{
    hex::decode(s).map_err(|e| e.to_string())
}

/// Each hex digit the encoder emits is one the decoder accepts, and decodes
/// back to the nibble it came from.
proof fn lemma_hex_char_of_inverts(n: u8)
    requires
        n < 16,
    ensures
        is_hex_char(hex_char_of(n)),
        nibble_of(hex_char_of(n)) == n,
        '0' <= hex_char_of(n) && hex_char_of(n) <= 'f',
{
}

/// The encoding of `b` is twice as long as `b`.
pub proof fn lemma_hex_seq_len(b: Seq<u8>)
    ensures
        hex_seq_of(b).len() == 2 * b.len(),
    decreases b.len(),
{
    if b.len() > 0 {
        lemma_hex_seq_len(b.skip(1));
    }
}

/// Encoding then decoding gives the original bytes back: the decoder accepts
/// every string the encoder can produce, and inverts it exactly.
pub proof fn lemma_hex_round_trip(b: Seq<u8>)
    ensures
        valid_hex(hex_seq_of(b)),
        bytes_of_hex(hex_seq_of(b)) =~= b,
    decreases b.len(),
{
    lemma_hex_seq_len(b);
    if b.len() == 0 {
    } else {
        let s = hex_seq_of(b);
        lemma_hex_char_of_inverts(b[0] / 16);
        lemma_hex_char_of_inverts(b[0] % 16);
        lemma_hex_round_trip(b.skip(1));
        lemma_hex_seq_len(b.skip(1));
        assert(s.skip(2) =~= hex_seq_of(b.skip(1)));
        assert(nibble_of(s[0]) as int * 16 + nibble_of(s[1]) as int == b[0] as int);
        assert(bytes_of_hex(s) =~= seq![b[0]] + bytes_of_hex(hex_seq_of(b.skip(1))));
        assert(bytes_of_hex(hex_seq_of(b)) =~= b);
    }
}

} // verus!
