//! Release lookup: reading the latest release tag out of a release
//! document, parsing MAJOR.MINOR.PATCH version strings, and deciding
//! whether a newer release exists.

use crate::json::{json_doc_of, key_of, parse_json, str_of, JsonValue};
use vstd::prelude::*;
use vstd::string::*;

verus! {

/// The tool's own version, by component.
pub const CURRENT_MAJOR: u64 = 1;

pub const CURRENT_MINOR: u64 = 2;

pub const CURRENT_PATCH: u64 = 0;

/// The tool's own version string.
pub fn get_current_version() -> (r: String)
    ensures
        r@ == "1.2.0"@,
{
    String::from_str("1.2.0")
}

/// Whether `s` is one or more decimal digits.
pub open spec fn is_digits(s: Seq<char>) -> bool {
    s.len() > 0 && forall|i: int| 0 <= i < s.len() ==> '0' <= #[trigger] s[i] <= '9'
}

/// The number a sequence of decimal digits denotes.
pub open spec fn digits_value(s: Seq<char>) -> int
    decreases s.len(),
{
    if s.len() == 0 {
        0
    } else {
        digits_value(s.drop_last()) * 10 + (s.last() as int - '0' as int)
    }
}

proof fn lemma_digits_value_nonneg(s: Seq<char>)
    requires
        forall|i: int| 0 <= i < s.len() ==> '0' <= #[trigger] s[i] <= '9',
    ensures
        digits_value(s) >= 0,
    decreases s.len(),
{
    if s.len() > 0 {
        lemma_digits_value_nonneg(s.drop_last());
    }
}

proof fn lemma_digits_value_step(s: Seq<char>, i: int)
    requires
        0 <= i < s.len(),
    ensures
        digits_value(s.take(i + 1)) == digits_value(s.take(i)) * 10 + (s[i] as int
            - '0' as int),
{
    assert(s.take(i + 1).drop_last() =~= s.take(i));
    assert(s.take(i + 1).last() == s[i]);
}

proof fn lemma_digits_value_prefix(s: Seq<char>, i: int)
    requires
        0 <= i <= s.len(),
        forall|k: int| 0 <= k < s.len() ==> '0' <= #[trigger] s[k] <= '9',
    ensures
        digits_value(s.take(i)) <= digits_value(s),
    decreases s.len() - i,
{
    if i == s.len() {
        assert(s.take(i) =~= s);
    } else {
        lemma_digits_value_step(s, i);
        assert(forall|k: int|
            0 <= k < s.take(i).len() ==> '0' <= #[trigger] s.take(i)[k] <= '9');
        lemma_digits_value_nonneg(s.take(i));
        lemma_digits_value_prefix(s, i + 1);
    }
}

/// The value of `s` read as a decimal `u64`: digits only, value in
/// range; leading zeros are accepted.
pub open spec fn spec_parse_u64(s: Seq<char>) -> Option<u64> {
    if is_digits(s) && digits_value(s) <= u64::MAX {
        Some(digits_value(s) as u64)
    } else {
        None
    }
}

/// Parses a decimal `u64`.
fn parse_u64(s: &str) -> (r: Option<u64>)
    ensures
        r == spec_parse_u64(s@),
{
    let n = s.unicode_len();
    if n == 0 {
        return None;
    }
    let mut acc: u64 = 0;
    let mut i: usize = 0;
    proof {
        assert(s@.take(0) =~= Seq::empty());
    }
    while i < n
        invariant
            n == s@.len(),
            i <= n,
            forall|k: int| 0 <= k < i ==> '0' <= #[trigger] s@[k] <= '9',
            acc == digits_value(s@.take(i as int)),
        decreases n - i,
    {
        let c = s.get_char(i);
        if c < '0' || c > '9' {
            assert(!is_digits(s@));
            return None;
        }
        let d: u64 = (c as u32 - 48) as u64;
        assert(d == s@[i as int] as int - '0' as int);
        if acc > (u64::MAX - d) / 10 {
            proof {
                lemma_digits_value_step(s@, i as int);
                assert(acc * 10 + d > u64::MAX) by {
                    assert(acc >= (u64::MAX - d) / 10 + 1);
                    assert(((u64::MAX - d) / 10 + 1) * 10 == ((u64::MAX - d) / 10) * 10
                        + 10);
                    assert(((u64::MAX - d) / 10) * 10 + 10 > u64::MAX - d) by (
                    nonlinear_arith);
                    assert(acc * 10 >= ((u64::MAX - d) / 10 + 1) * 10) by (
                    nonlinear_arith)
                        requires
                            acc >= (u64::MAX - d) / 10 + 1,
                    ;
                }
                if is_digits(s@) {
                    lemma_digits_value_prefix(s@, i + 1);
                }
            }
            return None;
        }
        proof {
            lemma_digits_value_step(s@, i as int);
            assert(acc * 10 + d <= u64::MAX) by {
                assert(acc <= (u64::MAX - d) / 10);
                assert(((u64::MAX - d) / 10) * 10 <= u64::MAX - d) by (nonlinear_arith);
                assert(acc * 10 <= ((u64::MAX - d) / 10) * 10) by (nonlinear_arith)
                    requires
                        acc <= (u64::MAX - d) / 10,
                ;
            }
        }
        acc = acc * 10 + d;
        i += 1;
    }
    proof {
        assert(s@.take(n as int) =~= s@);
    }
    Some(acc)
}

/// The index of the first `.` in `s`, or `s.len()` when there is none.
pub open spec fn spec_find_dot(s: Seq<char>) -> int
    decreases s.len(),
{
    if s.len() == 0 {
        0
    } else if s[0] == '.' {
        0
    } else {
        1 + spec_find_dot(s.skip(1))
    }
}

proof fn lemma_find_dot(s: Seq<char>)
    ensures
        0 <= spec_find_dot(s) <= s.len(),
        forall|k: int| 0 <= k < spec_find_dot(s) ==> #[trigger] s[k] != '.',
        spec_find_dot(s) < s.len() ==> s[spec_find_dot(s)] == '.',
    decreases s.len(),
{
    if s.len() == 0 {
    } else if s[0] == '.' {
    } else {
        lemma_find_dot(s.skip(1));
        assert forall|k: int| 0 <= k < spec_find_dot(s) implies s[k] != '.' by {
            if k > 0 {
                assert(s.skip(1)[k - 1] == s[k]);
            }
        }
        if spec_find_dot(s) < s.len() {
            assert(s.skip(1)[spec_find_dot(s.skip(1))] == s[spec_find_dot(s)]);
        }
    }
}

/// The position of the first dot, by scan.
fn find_dot(s: &str) -> (r: usize)
    ensures
        r == spec_find_dot(s@),
{
    let n = s.unicode_len();
    let mut i: usize = 0;
    while i < n
        invariant
            n == s@.len(),
            i <= n,
            forall|k: int| 0 <= k < i ==> #[trigger] s@[k] != '.',
        decreases n - i,
    {
        if s.get_char(i) == '.' {
            proof {
                lemma_find_dot(s@);
            }
            return i;
        }
        i += 1;
    }
    proof {
        lemma_find_dot(s@);
    }
    n
}

/// The version triple a MAJOR.MINOR.PATCH string denotes, each
/// component one or more decimal digits fitting a `u64`.
pub open spec fn spec_parse_version(s: Seq<char>) -> Option<(u64, u64, u64)> {
    let i = spec_find_dot(s);
    if i == s.len() {
        None
    } else {
        let rest = s.skip(i + 1);
        let j = spec_find_dot(rest);
        if j == rest.len() {
            None
        } else {
            match (
                spec_parse_u64(s.subrange(0, i)),
                spec_parse_u64(rest.subrange(0, j)),
                spec_parse_u64(rest.skip(j + 1)),
            ) {
                (Some(major), Some(minor), Some(patch)) => Some((major, minor, patch)),
                _ => None,
            }
        }
    }
}

/// Parses a MAJOR.MINOR.PATCH version string.
pub fn parse_version(s: &str) -> (r: Option<(u64, u64, u64)>)
    ensures
        r == spec_parse_version(s@),
{
    let n = s.unicode_len();
    let i = find_dot(s);
    proof {
        lemma_find_dot(s@);
    }
    if i == n {
        return None;
    }
    let rest = s.substring_char(i + 1, n);
    proof {
        assert(rest@ =~= s@.skip(i + 1));
    }
    let rn = rest.unicode_len();
    let j = find_dot(rest);
    proof {
        lemma_find_dot(rest@);
    }
    if j == rn {
        return None;
    }
    let major = parse_u64(s.substring_char(0, i));
    let minor = parse_u64(rest.substring_char(0, j));
    let patch = parse_u64(rest.substring_char(j + 1, rn));
    proof {
        assert(s@.skip(i + 1).subrange(0, j as int) =~= rest@.subrange(0, j as int));
        assert(s@.skip(i + 1).skip(j + 1) =~= rest@.skip(j + 1));
    }
    match (major, minor, patch) {
        (Some(a), Some(b), Some(c)) => Some((a, b, c)),
        _ => None,
    }
}

/// Whether version `a` is strictly newer than version `b`: major,
/// minor and patch compared lexicographically.
pub open spec fn spec_version_newer(a: (u64, u64, u64), b: (u64, u64, u64)) -> bool {
    a.0 > b.0 || (a.0 == b.0 && (a.1 > b.1 || (a.1 == b.1 && a.2 > b.2)))
}

/// Whether version `a` is strictly newer than version `b`.
pub fn version_newer(a: (u64, u64, u64), b: (u64, u64, u64)) -> (r: bool)
    ensures
        r == spec_version_newer(a, b),
{
    a.0 > b.0 || (a.0 == b.0 && (a.1 > b.1 || (a.1 == b.1 && a.2 > b.2)))
}

/// A release tag with a leading `v` stripped.
pub open spec fn spec_strip_v(s: Seq<char>) -> Seq<char> {
    if s.len() > 0 && s[0] == 'v' {
        s.skip(1)
    } else {
        s
    }
}

/// Whether `latest_tag` names a release strictly newer than this
/// tool's own version. A tag that does not read as MAJOR.MINOR.PATCH,
/// with or without a leading `v`, counts as not newer.
pub open spec fn spec_is_newer_than_current(tag: Seq<char>) -> bool {
    match spec_parse_version(spec_strip_v(tag)) {
        Some(v) => spec_version_newer(v, (CURRENT_MAJOR, CURRENT_MINOR, CURRENT_PATCH)),
        None => false,
    }
}

/// Decides from the latest release tag whether a newer version than
/// this tool's own is available.
pub fn is_newer_than_current(latest_tag: &str) -> (r: bool)
    ensures
        r == spec_is_newer_than_current(latest_tag@),
{
    let n = latest_tag.unicode_len();
    let stripped = if n > 0 && latest_tag.get_char(0) == 'v' {
        latest_tag.substring_char(1, n)
    } else {
        latest_tag
    };
    proof {
        assert(stripped@ =~= spec_strip_v(latest_tag@));
    }
    match parse_version(stripped) {
        Some(v) => version_newer(v, (CURRENT_MAJOR, CURRENT_MINOR, CURRENT_PATCH)),
        None => false,
    }
}

/// Reads the release tag out of a release document and strips its
/// leading `v`: the version string of the latest release. `None` when
/// the document is not valid JSON or carries no string `tag_name`.
pub fn latest_version_from_body(body: &str) -> (r: Option<String>)
    ensures
        match json_doc_of(body@) {
            None => r is None,
            Some(d) => match str_of(key_of(d, "tag_name"@)) {
                None => r is None,
                Some(tag) => r matches Some(v) && v@ == spec_strip_v(tag),
            },
        },
{
    let doc = match parse_json(body) {
        Some(d) => d,
        None => {
            return None;
        },
    };
    let null = JsonValue::Null;
    let tag = match doc.get_or("tag_name", &null).as_text() {
        Some(s) => s,
        None => {
            return None;
        },
    };
    let n = tag.as_str().unicode_len();
    if n > 0 && tag.as_str().get_char(0) == 'v' {
        let stripped = tag.as_str().substring_char(1, n);
        proof {
            assert(stripped@ =~= tag@.skip(1));
        }
        Some(String::from_str(stripped))
    } else {
        Some(tag.clone())
    }
}

} // verus!
