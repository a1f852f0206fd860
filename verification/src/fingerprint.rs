//! The identity of a command line: the SHA3-256 digest of its words joined
//! by single spaces, in lowercase hexadecimal.

use sha3::Digest;
use vstd::prelude::*;
use vstd::utf8::{encode_utf8, encode_utf8_decode_utf8};
use crate::hex::{hex_text, hex_text_injective, hex_text_shape, is_hex_char, to_hex};
use crate::text::{join_from, join_spaced, join_spaced_injective, space_free, texts};

verus! {

/// The SHA3-256 digest of a byte string, as `sha3::Sha3_256` computes it.
pub uninterp spec fn sha3_256_digest(data: Seq<u8>) -> Seq<u8>;

/// The fingerprint of a command line given as the texts of its words.
pub open spec fn fingerprint(command: Seq<Seq<char>>) -> Seq<char> {
    hex_text(sha3_256_digest(encode_utf8(join_spaced(command))))
}

/// `sha3::Sha3_256::digest` on `data`. Believed of it: the result is the
/// SHA3-256 digest of the bytes, a function of them alone, and is 32 bytes
/// long.
#[verifier::external_body]
fn sha3_256(data: &[u8]) -> (out: Vec<u8>)
    ensures
        out@ == sha3_256_digest(data@),
        out@.len() == 32,
{
    sha3::Sha3_256::digest(data).to_vec()
}

/// The fingerprint of the command line `v`: 64 lowercase hexadecimal digits.
pub fn hashit(v: &Vec<String>) -> (out: String)
    ensures
        out@ == fingerprint(texts(v@)),
        out@.len() == 64,
        forall|i: int| 0 <= i < 64 ==> is_hex_char(#[trigger] out@[i]),
{
    let line = join_from(v, 0);
    proof {
        assert(texts(v@).skip(0) =~= texts(v@));
    }
    let digest = sha3_256(line.as_str().as_bytes());
    proof {
        hex_text_shape(digest@);
    }
    to_hex(digest.as_slice())
}

/// The same command line always has the same fingerprint.
pub proof fn fingerprint_deterministic(a: Seq<Seq<char>>, b: Seq<Seq<char>>)
    requires
        a == b,
    ensures
        fingerprint(a) == fingerprint(b),
{
}

/// Two command lines have the same fingerprint exactly when the digests of
/// their joined texts are the same: the rendering adds no collision to those
/// of the digest.
pub proof fn fingerprint_collides_only_with_digest(a: Seq<Seq<char>>, b: Seq<Seq<char>>)
    ensures
        fingerprint(a) == fingerprint(b) <==> sha3_256_digest(encode_utf8(join_spaced(a)))
            == sha3_256_digest(encode_utf8(join_spaced(b))),
{
    if fingerprint(a) == fingerprint(b) {
        hex_text_injective(
            sha3_256_digest(encode_utf8(join_spaced(a))),
            sha3_256_digest(encode_utf8(join_spaced(b))),
        );
    }
}

/// Two different command lines whose words hold no space are hashed as
/// different byte strings: whether they differ in the executable, in an
/// argument, in the order or in the number of arguments, their fingerprints
/// are the same only where the digest itself collides.
pub proof fn distinct_commands_hash_distinct_bytes(a: Seq<Seq<char>>, b: Seq<Seq<char>>)
    requires
        a.len() >= 1,
        b.len() >= 1,
        space_free(a),
        space_free(b),
        a != b,
    ensures
        encode_utf8(join_spaced(a)) != encode_utf8(join_spaced(b)),
{
    if encode_utf8(join_spaced(a)) == encode_utf8(join_spaced(b)) {
        encode_utf8_decode_utf8(join_spaced(a));
        encode_utf8_decode_utf8(join_spaced(b));
        join_spaced_injective(a, b);
    }
}

} // verus!
