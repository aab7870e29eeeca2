//! Recognition of service-role ARNs.
//!
//! A role whose ARN names the `aws-service-role` or `service-role` path
//! segment is managed by a service and is conventionally left out of manual
//! cleanup. The shape recognised here is: the literal prefix
//! `arn:aws:iam::`, then exactly twelve decimal digits, then `:role/`, then
//! the whole path segment `aws-service-role/` or `service-role/` — the
//! slash after the segment is part of the shape, so a role whose first
//! segment merely begins with one of these words is not a service role.

use vstd::prelude::*;

verus! {

/// `pat` occurs in `s` as a block starting at position `off`.
pub open spec fn spec_matches_at(s: Seq<char>, off: int, pat: Seq<char>) -> bool {
    &&& 0 <= off
    &&& off + pat.len() <= s.len()
    &&& forall|i: int| 0 <= i < pat.len() ==> s[off + i] == pat[i]
}

/// `c` is a decimal digit.
pub open spec fn spec_is_digit(c: char) -> bool {
    48 <= c as u32 <= 57
}

/// The `count` characters of `s` starting at `off` are all decimal digits.
pub open spec fn spec_digits_at(s: Seq<char>, off: int, count: int) -> bool {
    &&& 0 <= off
    &&& off + count <= s.len()
    &&& forall|i: int| 0 <= i < count ==> spec_is_digit(#[trigger] s[off + i])
}

/// The ARN marks a role managed by a service: `arn:aws:iam::`, twelve
/// digits, `:role/`, and a resource path whose first segment is exactly
/// `aws-service-role` or `service-role`, slash included.
pub open spec fn spec_is_service_role_arn(s: Seq<char>) -> bool {
    &&& spec_matches_at(s, 0, "arn:aws:iam::"@)
    &&& spec_digits_at(s, 13, 12)
    &&& spec_matches_at(s, 25, ":role/"@)
    &&& (spec_matches_at(s, 31, "aws-service-role/"@) || spec_matches_at(s, 31, "service-role/"@))
}

/// Compares `pat` against the block of `s` starting at `off`, character by
/// character.
fn has_at(s: &str, off: usize, pat: &str) -> (b: bool)
    ensures
        b == spec_matches_at(s@, off as int, pat@),
{
    let s_len: usize = s.unicode_len();
    let p_len: usize = pat.unicode_len();
    if p_len > s_len || off > s_len - p_len {
        return false;
    }
    let mut i: usize = 0;
    while i < p_len
        invariant
            i <= p_len,
            off + p_len <= s_len,
            s_len == s@.len(),
            p_len == pat@.len(),
            forall|j: int| 0 <= j < i ==> s@[off + j] == pat@[j],
        decreases p_len - i,
    {
        if s.get_char(off + i) != pat.get_char(i) {
            return false;
        }
        i = i + 1;
    }
    true
}

/// Checks that the `count` characters of `s` starting at `off` are decimal
/// digits.
fn digits_at(s: &str, off: usize, count: usize) -> (b: bool)
    ensures
        b == spec_digits_at(s@, off as int, count as int),
{
    let s_len: usize = s.unicode_len();
    if count > s_len || off > s_len - count {
        return false;
    }
    let mut i: usize = 0;
    while i < count
        invariant
            i <= count,
            off + count <= s_len,
            s_len == s@.len(),
            forall|j: int| 0 <= j < i ==> spec_is_digit(#[trigger] s@[off + j]),
        decreases count - i,
    {
        let c: char = s.get_char(off + i);
        let u: u32 = c as u32;
        if u < 48 || u > 57 {
            return false;
        }
        i = i + 1;
    }
    true
}

/// Decides whether an ARN marks a role managed by a service.
pub fn is_service_role_arn(arn: &str) -> (b: bool)
    ensures
        b == spec_is_service_role_arn(arn@),
{
    has_at(arn, 0, "arn:aws:iam::") && digits_at(arn, 13, 12) && has_at(arn, 25, ":role/") && (
    has_at(arn, 31, "aws-service-role/") || has_at(arn, 31, "service-role/"))
}

} // verus!
