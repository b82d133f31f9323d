//! Content digests: `sha256:` followed by the lowercase hex encoding of the
//! SHA-256 hash of the exact bytes the digest labels.

use vstd::prelude::*;

verus! {

/// The SHA-256 hash of a byte sequence, as the 32 output bytes.
pub uninterp spec fn spec_sha256(data: Seq<u8>) -> Seq<u8>;

/// Relies on `ring::digest::digest` with `SHA256`: the hash is a function of
/// the input bytes alone, and is 32 bytes long.
#[verifier::external_body]
fn sha256(data: &[u8]) -> (r: Vec<u8>)
    ensures
        r@ == spec_sha256(data@),
        r@.len() == 32,
{
    ring::digest::digest(&ring::digest::SHA256, data).as_ref().to_vec()
}

pub const HEX_DIGITS: [char; 16] = [
    '0', '1', '2', '3', '4', '5', '6', '7', '8', '9', 'a', 'b', 'c', 'd', 'e', 'f',
];

/// The lowercase hex encoding of a byte sequence, two digits per byte.
pub open spec fn spec_hex(data: Seq<u8>) -> Seq<char>
    decreases data.len(),
{
    if data.len() == 0 {
        seq![]
    } else {
        seq![
            HEX_DIGITS@[(data.first() >> 4) as int],
            HEX_DIGITS@[(data.first() & 0x0f) as int],
        ] + spec_hex(data.drop_first())
    }
}

pub proof fn lemma_spec_hex_len(data: Seq<u8>)
    ensures
        spec_hex(data).len() == 2 * data.len(),
    decreases data.len(),
{
    if data.len() > 0 {
        lemma_spec_hex_len(data.drop_first());
    }
}

/// Encodes bytes as lowercase hex, two digits per byte.
pub fn to_hex(data: &[u8]) -> (r: String)
    ensures
        r@ == spec_hex(data@),
{
    let mut r = String::new();
    let len = data.len();
    assert(data@.skip(0) == data@);
    for i in 0..len
        invariant
            len == data@.len(),
            spec_hex(data@) =~= r@ + spec_hex(data@.skip(i as int)),
    {
        let b = data[i];
        assert(0 <= (b >> 4) < 16 && 0 <= (b & 0x0f) < 16) by (bit_vector);
        crate::text::push_char(&mut r, HEX_DIGITS[(b >> 4) as usize]);
        crate::text::push_char(&mut r, HEX_DIGITS[(b & 0x0f) as usize]);
        assert(data@.skip(i as int).drop_first() == data@.skip(i + 1));
    }
    r
}

/// The content digest labelling a byte sequence.
pub open spec fn spec_digest(data: Seq<u8>) -> Seq<char> {
    "sha256:"@ + spec_hex(spec_sha256(data))
}

/// Computes the content digest of `data`: `sha256:` and 64 lowercase hex
/// characters.
pub fn calc_digest(data: &[u8]) -> (r: String)
    ensures
        r@ == spec_digest(data@),
        r@.len() == 71,
{
    proof {
        reveal_strlit("sha256:");
    }
    let hash = sha256(data);
    let mut r: String = "sha256:".to_owned();
    let hex = to_hex(hash.as_slice());
    r.append(hex.as_str());
    proof {
        lemma_spec_hex_len(hash@);
    }
    r
}

/// The digest is deterministic: equal byte sequences have equal digests.
pub proof fn lemma_digest_deterministic(b1: Seq<u8>, b2: Seq<u8>)
    requires
        b1 == b2,
    ensures
        spec_digest(b1) == spec_digest(b2),
{
}

} // verus!
