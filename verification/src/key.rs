//! Storage keys: the sharded hexadecimal SHA-256 digest of a URL.

use sha2::{Digest, Sha256};
use vstd::prelude::*;
use vstd::string::*;
use vstd::utf8::encode_utf8;

verus! {

/// The SHA-256 digest of a byte string, as `sha2::Sha256::digest` computes
/// it. Nothing more is assumed of it than that it is a function of the bytes.
pub uninterp spec fn sha256(data: Seq<u8>) -> [u8; 32];

/// Calls `sha2::Sha256::digest`, which hashes the whole input at once.
///
/// Not proved: that the 32 bytes handed back are the SHA-256 digest of
/// `data`. The digest depends on the input bytes alone.
#[verifier::external_body]
fn sha256_digest(data: &[u8]) -> (digest: [u8; 32])
    ensures
        digest == sha256(data@),
{
    Sha256::digest(data).into()
}

/// `base16ct::Error`, the error of the hexadecimal encoder. Nothing is
/// assumed of its values.
#[verifier::external_type_specification]
#[verifier::external_body]
pub struct ExHexError(base16ct::Error);

/// Calls `base16ct::encoded_len`, which doubles the length of its input.
///
/// Not proved: that the result is twice the input's length. The product must
/// fit in a `usize`.
#[verifier::external_body]
fn encoded_len(bytes: &[u8]) -> (len: usize)
    requires
        2 * bytes@.len() <= usize::MAX,
    ensures
        len == 2 * bytes@.len(),
{
    base16ct::encoded_len(bytes)
}

/// Calls `base16ct::lower::encode_str`, which writes the lower-case
/// hexadecimal form of `src` into the front of `dst` and hands that part back
/// as a string.
///
/// Not proved: that the call succeeds exactly when `dst` has room for two
/// characters per byte of `src`, and that the string is then `hex_lower` of
/// `src`.
#[verifier::external_body]
fn encode_str(src: &[u8], dst: &mut Vec<u8>) -> (hex: Result<String, base16ct::Error>)
    requires
        2 * src@.len() <= usize::MAX,
    ensures
        hex is Ok <==> 2 * src@.len() <= old(dst)@.len(),
        hex matches Ok(text) ==> text@ == hex_lower(src@),
{
    base16ct::lower::encode_str(src, dst).map(String::from)
}

/// The sixteen lower-case hexadecimal digits, in order of value.
pub open spec fn hex_digits() -> Seq<char> {
    seq!['0', '1', '2', '3', '4', '5', '6', '7', '8', '9', 'a', 'b', 'c', 'd', 'e', 'f']
}

/// The lower-case hexadecimal form of `bytes`: two digits per byte, the high
/// half first.
pub open spec fn hex_lower(bytes: Seq<u8>) -> Seq<char> {
    Seq::new(
        2 * bytes.len(),
        |i: int|
            if i % 2 == 0 {
                hex_digits()[bytes[i / 2] as int / 16]
            } else {
                hex_digits()[bytes[i / 2] as int % 16]
            },
    )
}

/// `hex` cut into its first two characters, its next two and the rest,
/// joined by `/`.
pub open spec fn shard(hex: Seq<char>) -> Seq<char> {
    hex.subrange(0, 2) + seq!['/'] + hex.subrange(2, 4) + seq!['/'] + hex.subrange(
        4,
        hex.len() as int,
    )
}

/// The key under which an object with this digest is stored.
pub open spec fn key_of_digest(digest: Seq<u8>) -> Seq<char> {
    shard(hex_lower(digest))
}

/// The digest of a URL: SHA-256 over its UTF-8 bytes.
pub open spec fn url_digest(url: Seq<char>) -> Seq<u8> {
    sha256(encode_utf8(url))@
}

/// The key under which the answer for `url` is stored.
pub open spec fn cache_key(url: Seq<char>) -> Seq<char> {
    key_of_digest(url_digest(url))
}

/// The storage key for a digest: 64 hexadecimal digits in three segments.
pub fn key_from_digest(digest: &[u8; 32]) -> (key: String)
    ensures
        key@ == key_of_digest(digest@),
        key@.len() == 66,
{
    proof {
        lemma_key_shape(digest@);
    }
    let bytes = digest.as_slice();
    let elen = encoded_len(bytes);
    let mut dst = vec![0u8; elen];
    let hex = match encode_str(bytes, &mut dst) {
        Ok(text) => text,
        Err(_) => unreached(),
    };
    let text = hex.as_str();
    let mut key = String::from_str(text.substring_char(0, 2));
    proof {
        reveal_strlit("/");
    }
    key.append("/");
    key.append(text.substring_char(2, 4));
    key.append("/");
    key.append(text.substring_char(4, 64));
    key
}

/// The storage key for a URL. Every string is accepted, the empty one too,
/// and the key depends on the URL alone.
pub fn get_r2_key(url: &str) -> (key: String)
    ensures
        key@ == cache_key(url@),
        key@.len() == 66,
{
    let digest = sha256_digest(url.as_bytes());
    key_from_digest(&digest)
}

/// Whether `c` is one of the sixteen lower-case hexadecimal digits.
pub open spec fn is_hex_digit(c: char) -> bool {
    exists|v: int| 0 <= v < 16 && hex_digits()[v] == c
}

/// A key is 66 characters long: 64 hexadecimal digits, with a `/` after the
/// second and after the fourth.
pub proof fn lemma_key_shape(digest: Seq<u8>)
    requires
        digest.len() == 32,
    ensures
        key_of_digest(digest).len() == 66,
        forall|i: int|
            0 <= i < 66 ==> if i == 2 || i == 5 {
                #[trigger] key_of_digest(digest)[i] == '/'
            } else {
                is_hex_digit(key_of_digest(digest)[i])
            },
{
    let hex = hex_lower(digest);
    let key = key_of_digest(digest);
    assert forall|j: int| 0 <= j < 64 implies is_hex_digit(#[trigger] hex[j]) by {
        let v = if j % 2 == 0 {
            digest[j / 2] as int / 16
        } else {
            digest[j / 2] as int % 16
        };
        assert(0 <= v < 16 && hex_digits()[v] == hex[j]);
    }
    assert forall|i: int| 0 <= i < 66 implies if i == 2 || i == 5 {
        #[trigger] key[i] == '/'
    } else {
        is_hex_digit(key[i])
    } by {
        if i < 2 {
            assert(key[i] == hex[i]);
        } else if 2 < i < 5 {
            assert(key[i] == hex[i - 1]);
        } else if 5 < i {
            assert(key[i] == hex[i - 2]);
        }
    }
}

/// Byte strings with the same hexadecimal form are equal.
pub proof fn lemma_hex_lower_injective(a: Seq<u8>, b: Seq<u8>)
    requires
        hex_lower(a) == hex_lower(b),
    ensures
        a == b,
{
    assert(hex_lower(a).len() == 2 * a.len());
    assert(hex_lower(b).len() == 2 * b.len());
    assert forall|i: int| 0 <= i < a.len() implies a[i] == b[i] by {
        let x = a[i] as int;
        let y = b[i] as int;
        assert(hex_lower(a)[2 * i] == hex_digits()[x / 16]);
        assert(hex_lower(b)[2 * i] == hex_digits()[y / 16]);
        assert(hex_lower(a)[2 * i + 1] == hex_digits()[x % 16]);
        assert(hex_lower(b)[2 * i + 1] == hex_digits()[y % 16]);
        assert(x / 16 == y / 16);
        assert(x % 16 == y % 16);
    }
    assert(a =~= b);
}

/// Strings of four characters or more that shard to the same key are equal.
pub proof fn lemma_shard_injective(g: Seq<char>, h: Seq<char>)
    requires
        g.len() >= 4,
        h.len() >= 4,
        shard(g) == shard(h),
    ensures
        g == h,
{
    assert(shard(g).len() == g.len() + 2);
    assert(shard(h).len() == h.len() + 2);
    assert forall|i: int| 0 <= i < g.len() implies g[i] == h[i] by {
        let j = if i < 2 {
            i
        } else if i < 4 {
            i + 1
        } else {
            i + 2
        };
        assert(shard(g)[j] == g[i]);
        assert(shard(h)[j] == h[i]);
    }
    assert(g =~= h);
}

/// Digests of two bytes or more that have the same key are equal.
pub proof fn lemma_key_of_digest_injective(c: Seq<u8>, d: Seq<u8>)
    requires
        c.len() >= 2,
        d.len() >= 2,
        key_of_digest(c) == key_of_digest(d),
    ensures
        c == d,
{
    lemma_shard_injective(hex_lower(c), hex_lower(d));
    lemma_hex_lower_injective(c, d);
}

/// Two URLs have the same key exactly when their digests are equal. Distinct
/// URLs have distinct UTF-8 bytes, so they share a key only where SHA-256
/// gives both byte strings one digest.
pub proof fn lemma_keys_collide_only_with_digests(url1: Seq<char>, url2: Seq<char>)
    ensures
        cache_key(url1) == cache_key(url2) <==> url_digest(url1) == url_digest(url2),
        url1 != url2 ==> encode_utf8(url1) != encode_utf8(url2),
{
    if cache_key(url1) == cache_key(url2) {
        lemma_key_of_digest_injective(url_digest(url1), url_digest(url2));
    }
    vstd::utf8::encode_utf8_decode_utf8(url1);
    vstd::utf8::encode_utf8_decode_utf8(url2);
}

/// Two URLs on which SHA-256 does not collide have distinct keys.
pub proof fn lemma_distinct_urls_distinct_keys(url1: Seq<char>, url2: Seq<char>)
    requires
        url_digest(url1) != url_digest(url2),
    ensures
        url1 != url2,
        cache_key(url1) != cache_key(url2),
{
    lemma_keys_collide_only_with_digests(url1, url2);
}

} // verus!
