//! The version triple of a server and the capability rule built on it.

use crate::text::{
    chars_of, decimal_text, find_char, index_of, lemma_decimal_text_is_numeral,
    lemma_index_of_after, parse_u32_in, parse_u32_spec, push_char, push_decimal,
};
use vstd::prelude::*;

verus! {

/// A protocol version: major, minor and patch level.
#[derive(Clone, Copy, Debug, PartialEq, Eq, Structural)]
pub struct Version {
    pub major: u32,
    pub minor: u32,
    pub patch: u32,
}

/// The policy: `connected` is at least as new as `required` in the
/// lexicographic order of triples, so that a later major version satisfies
/// every requirement of an earlier one.
pub open spec fn at_least(connected: Version, required: Version) -> bool {
    connected.major > required.major || (connected.major == required.major && (connected.minor
        > required.minor || (connected.minor == required.minor && connected.patch
        >= required.patch)))
}

/// The stricter, field-by-field comparison: every field of `connected` is at
/// least the same field of `required`. It rejects (2, 0, 0) against (1, 13, 0).
pub open spec fn at_least_in_each_field(connected: Version, required: Version) -> bool {
    connected.major >= required.major && connected.minor >= required.minor && connected.patch
        >= required.patch
}

/// Whether a server at `connected` supports what was introduced at `required`.
pub fn satisfies(connected: Version, required: Version) -> (r: bool)
    ensures
        r == at_least(connected, required),
{
    if connected.major != required.major {
        connected.major > required.major
    } else if connected.minor != required.minor {
        connected.minor > required.minor
    } else {
        connected.patch >= required.patch
    }
}

/// Whatever the field-by-field comparison admits, the policy admits.
pub proof fn lemma_each_field_implies_at_least(connected: Version, required: Version)
    requires
        at_least_in_each_field(connected, required),
    ensures
        at_least(connected, required),
{
}

/// The policy is a total order on triples: every version satisfies itself, two
/// versions that satisfy each other are the same, satisfaction carries over a
/// chain, and of any two versions one satisfies the other.
pub proof fn lemma_at_least_total_order(a: Version, b: Version, c: Version)
    ensures
        at_least(a, a),
        at_least(a, b) && at_least(b, a) ==> a == b,
        at_least(a, b) && at_least(b, c) ==> at_least(a, c),
        at_least(a, b) || at_least(b, a),
{
}

/// `major.minor.patch` in decimal.
pub open spec fn version_text(v: Version) -> Seq<char> {
    decimal_text(v.major as nat) + seq!['.'] + decimal_text(v.minor as nat) + seq!['.']
        + decimal_text(v.patch as nat)
}

/// The triple that a text of exactly three dot-separated numerals denotes.
pub open spec fn parse_version(s: Seq<char>) -> Option<Version> {
    let i = index_of(s, '.');
    let rest = s.skip(i + 1);
    let j = index_of(rest, '.');
    if i >= s.len() || j >= rest.len() {
        None
    } else {
        match (parse_u32_spec(s.take(i)), parse_u32_spec(rest.take(j)), parse_u32_spec(
            rest.skip(j + 1),
        )) {
            (Some(major), Some(minor), Some(patch)) => Some(Version { major, minor, patch }),
            _ => None,
        }
    }
}

impl Version {
    pub fn new(major: u32, minor: u32, patch: u32) -> (r: Version)
        ensures
            r == (Version { major, minor, patch }),
    {
        Version { major, minor, patch }
    }

    /// Reads a version as a server reports it, such as `1.16.1`.
    pub fn parse(text: &str) -> (r: Option<Version>)
        ensures
            r == parse_version(text@),
    {
        let cs = chars_of(text);
        let n = cs.len();
        let i = find_char(&cs, 0, '.');
        assert(cs@.skip(0) =~= cs@);
        if i >= n {
            return None;
        }
        let ghost rest = cs@.skip(i + 1);
        let j = find_char(&cs, i + 1, '.');
        if j >= n {
            return None;
        }
        proof {
            assert(cs@.subrange(0, i as int) =~= cs@.take(i as int));
            assert(cs@.subrange(i + 1, j as int) =~= rest.take(j - (i + 1)));
            assert(cs@.subrange(j + 1, n as int) =~= rest.skip(j - (i + 1) + 1));
        }
        let major = parse_u32_in(&cs, 0, i);
        let minor = parse_u32_in(&cs, i + 1, j);
        let patch = parse_u32_in(&cs, j + 1, n);
        match (major, minor, patch) {
            (Some(major), Some(minor), Some(patch)) => Some(Version { major, minor, patch }),
            _ => None,
        }
    }

    /// Appends `major.minor.patch` to `out`.
    pub fn push_to(&self, out: &mut String)
        ensures
            final(out)@ == old(out)@ + version_text(*self),
    {
        push_decimal(out, self.major as u64);
        push_char(out, '.');
        push_decimal(out, self.minor as u64);
        push_char(out, '.');
        push_decimal(out, self.patch as u64);
        assert(out@ =~= old(out)@ + version_text(*self));
    }

    /// `major.minor.patch` as text.
    pub fn render(&self) -> (r: String)
        ensures
            r@ == version_text(*self),
    {
        let mut out = String::new();
        self.push_to(&mut out);
        assert(out@ =~= version_text(*self));
        out
    }
}

/// A triple that is written out reads back as itself.
pub proof fn lemma_version_round_trip(v: Version)
    ensures
        parse_version(version_text(v)) == Some(v),
{
    let a = decimal_text(v.major as nat);
    let b = decimal_text(v.minor as nat);
    let c = decimal_text(v.patch as nat);
    lemma_decimal_text_is_numeral(v.major as nat);
    lemma_decimal_text_is_numeral(v.minor as nat);
    lemma_decimal_text_is_numeral(v.patch as nat);
    let s = version_text(v);
    let tail = b + seq!['.'] + c;
    assert(s =~= a + seq!['.'] + tail);
    lemma_index_of_after(a, '.', tail);
    let i = index_of(s, '.');
    assert(s.take(i) =~= a);
    let rest = s.skip(i + 1);
    assert(rest =~= tail);
    lemma_index_of_after(b, '.', c);
    let j = index_of(rest, '.');
    assert(rest.take(j) =~= b);
    assert(rest.skip(j + 1) =~= c);
}

} // verus!
