//! The credential encoder: the part of a request's query that proves who is
//! asking, in the form that the connected server understands.

use crate::text::{
    hex_digit, hex_text, is_hex_digit, lemma_hex_text_shape, occurs, push_char, push_hex,
};
use crate::version::{at_least, satisfies, Version};
use md5::{Digest, Md5};
use vstd::prelude::*;
use vstd::string::*;
use vstd::utf8::encode_utf8;

verus! {

/// The MD5 digest of a byte string.
pub uninterp spec fn md5_digest(data: Seq<u8>) -> Seq<u8>;

/// Trusted: `md5::Md5`, fed the bytes once and finalized. MD5 is a function of
/// its input, and its output is sixteen bytes long.
#[verifier::external_body]
pub(crate) fn md5_of(data: &[u8]) -> (r: Vec<u8>)
    ensures
        r@ == md5_digest(data@),
        r@.len() == 16,
{
    let mut hasher = Md5::new();
    hasher.update(data);
    hasher.finalize().to_vec()
}

/// Trusted: `fastrand::u8` over the range `..=15`, which draws from the
/// thread's generator and stays within the range. Nothing else is known of
/// the value: two calls may or may not agree.
#[verifier::external_body]
pub(crate) fn random_nibble() -> (r: u8)
    ensures
        r <= 15,
{
    fastrand::u8(..=15)
}

/// The number of hexadecimal digits in a salt.
pub const SALT_LENGTH: usize = 10;

/// From this version on a server takes a salted hash for a password.
pub open spec fn salted_since() -> Version {
    Version { major: 1, minor: 13, patch: 0 }
}

/// A salt is `SALT_LENGTH` hexadecimal digits.
pub open spec fn is_salt(s: Seq<char>) -> bool {
    s.len() == SALT_LENGTH && forall|i: int| 0 <= i < s.len() ==> is_hex_digit(#[trigger] s[i])
}

/// The fallback for old servers: the password's bytes in hexadecimal. It can
/// be read back by anyone and is no secret.
pub open spec fn legacy_fragment(password: Seq<char>) -> Seq<char> {
    "p=enc:"@ + hex_text(encode_utf8(password))
}

/// The token is the digest of the password followed by the salt, in
/// hexadecimal; the salt goes along in the clear.
pub open spec fn salted_fragment(password: Seq<char>, salt: Seq<char>) -> Seq<char> {
    token_fragment(md5_digest(encode_utf8(password + salt)), salt)
}

/// The fragment for a server at `connected`, given the salt to use if the
/// server takes one.
pub open spec fn credential(password: Seq<char>, connected: Version, salt: Seq<char>) -> Seq<
    char,
> {
    if at_least(connected, salted_since()) {
        salted_fragment(password, salt)
    } else {
        legacy_fragment(password)
    }
}

/// Encodes a password for a server that takes no salted hash.
pub fn encode_legacy(password: &str) -> (r: String)
    ensures
        r@ == legacy_fragment(password@),
{
    let mut out = String::from_str("p=enc:");
    push_hex(&mut out, password.as_bytes());
    out
}

/// The salted form, given the digest of the password and the salt.
pub open spec fn token_fragment(digest: Seq<u8>, salt: Seq<char>) -> Seq<char> {
    "t="@ + hex_text(digest) + "&s="@ + salt
}

/// Writes a digest and the salt it was made with as a fragment.
pub fn encode_token(digest: &[u8], salt: &str) -> (r: String)
    ensures
        r@ == token_fragment(digest@, salt@),
{
    let mut out = String::from_str("t=");
    push_hex(&mut out, digest);
    out.append("&s=");
    out.append(salt);
    out
}

/// Encodes a password with the given salt.
pub fn encode_salted(password: &str, salt: &str) -> (r: String)
    ensures
        r@ == salted_fragment(password@, salt@),
{
    let mut salted = String::from_str(password);
    salted.append(salt);
    let digest = md5_of(salted.as_str().as_bytes());
    encode_token(digest.as_slice(), salt)
}

/// Draws a fresh salt from the random source.
pub fn fresh_salt() -> (r: String)
    ensures
        is_salt(r@),
{
    let mut out = String::new();
    let mut i: usize = 0;
    while i < SALT_LENGTH
        invariant
            i <= SALT_LENGTH,
            out@.len() == i,
            forall|j: int| 0 <= j < out@.len() ==> is_hex_digit(#[trigger] out@[j]),
        decreases SALT_LENGTH - i,
    {
        let nibble = random_nibble();
        push_char(&mut out, hex_digit(nibble));
        i += 1;
    }
    out
}

/// Whether a server at `connected` takes a salted hash.
pub fn takes_salt(connected: Version) -> (r: bool)
    ensures
        r == at_least(connected, salted_since()),
{
    satisfies(connected, Version { major: 1, minor: 13, patch: 0 })
}

/// Encodes a password for a server at `connected`, with the salt to use if
/// the server takes one.
pub fn encode_with(password: &str, connected: Version, salt: &str) -> (r: String)
    ensures
        r@ == credential(password@, connected, salt@),
{
    if takes_salt(connected) {
        encode_salted(password, salt)
    } else {
        encode_legacy(password)
    }
}

/// Encodes a password for a server at `connected`: a salted hash with a
/// fresh salt where the server takes one, else the legacy form. The random
/// source is drawn from only where a salt is needed.
pub fn encode(password: &str, connected: Version) -> (r: String)
    ensures
        exists|salt: Seq<char>| #[trigger]
            is_salt(salt) && r@ == credential(password@, connected, salt),
        at_least(connected, salted_since()) <==> occurs(r@, "t="@),
        at_least(connected, salted_since()) <==> occurs(r@, "s="@),
{
    if takes_salt(connected) {
        let salt = fresh_salt();
        let out = encode_salted(password, salt.as_str());
        proof {
            lemma_salted_has_tokens(password@, salt@);
        }
        assert(is_salt(salt@) && out@ == credential(password@, connected, salt@));
        out
    } else {
        let out = encode_legacy(password);
        proof {
            lemma_legacy_has_no_token(password@);
            let any = Seq::new(SALT_LENGTH as nat, |i: int| '0');
            assert(is_salt(any) && out@ == credential(password@, connected, any));
        }
        out
    }
}

/// The legacy form holds neither `t=` nor `s=`, whatever the password.
pub proof fn lemma_legacy_has_no_token(password: Seq<char>)
    ensures
        !occurs(legacy_fragment(password), "t="@),
        !occurs(legacy_fragment(password), "s="@),
{
    reveal_strlit("p=enc:");
    reveal_strlit("t=");
    reveal_strlit("s=");
    let f = legacy_fragment(password);
    let h = hex_text(encode_utf8(password));
    lemma_hex_text_shape(encode_utf8(password));
    assert forall|i: int| 0 <= i < f.len() implies f[i] != 't' && f[i] != 's' by {
        if i >= 6 {
            assert(f[i] == h[i - 6]);
            assert(is_hex_digit(h[i - 6]));
        }
    }
    if occurs(f, "t="@) {
        let i = choose|i: int|
            0 <= i && i + "t="@.len() <= f.len() && #[trigger] f.subrange(i, i + "t="@.len())
                == "t="@;
        assert(f.subrange(i, i + 2)[0] == f[i]);
        assert(false);
    }
    if occurs(f, "s="@) {
        let i = choose|i: int|
            0 <= i && i + "s="@.len() <= f.len() && #[trigger] f.subrange(i, i + "s="@.len())
                == "s="@;
        assert(f.subrange(i, i + 2)[0] == f[i]);
        assert(false);
    }
}

/// The salted form holds both `t=` and `s=`, whatever the password and salt.
pub proof fn lemma_salted_has_tokens(password: Seq<char>, salt: Seq<char>)
    ensures
        occurs(salted_fragment(password, salt), "t="@),
        occurs(salted_fragment(password, salt), "s="@),
{
    reveal_strlit("t=");
    reveal_strlit("s=");
    reveal_strlit("&s=");
    let f = salted_fragment(password, salt);
    let h = hex_text(md5_digest(encode_utf8(password + salt)));
    assert(f == "t="@ + h + "&s="@ + salt);
    let z: int = 0;
    assert(f.subrange(z, z + "t="@.len()) =~= "t="@);
    let k = (h.len() + 3) as int;
    assert(f.subrange(k, k + "s="@.len()) =~= "s="@);
}

} // verus!
