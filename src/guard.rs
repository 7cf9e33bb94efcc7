//! The write guard: a lexical test of whether SQL text starts a mutating statement.

use vstd::prelude::*;
use crate::error::{ErrorKind, GatewayError};
use crate::text::{has_prefix, starts_with, owned};

verus! {

/// A character of the Unicode `White_Space` property.
pub open spec fn is_white_space(c: char) -> bool {
    let u = c as u32;
    (0x9 <= u <= 0xD) || u == 0x20 || u == 0x85 || u == 0xA0 || u == 0x1680 || (0x2000 <= u
        <= 0x200A) || u == 0x2028 || u == 0x2029 || u == 0x202F || u == 0x205F || u == 0x3000
}

/// `s` without its leading white space.
pub open spec fn trim_start(s: Seq<char>) -> Seq<char>
    decreases s.len(),
{
    if s.len() > 0 && is_white_space(s[0]) {
        trim_start(s.drop_first())
    } else {
        s
    }
}

/// `s` without its trailing white space.
pub open spec fn trim_end(s: Seq<char>) -> Seq<char>
    decreases s.len(),
{
    if s.len() > 0 && is_white_space(s.last()) {
        trim_end(s.drop_last())
    } else {
        s
    }
}

/// `s` without leading and trailing white space.
pub open spec fn trimmed(s: Seq<char>) -> Seq<char> {
    trim_end(trim_start(s))
}

/// What `str::to_uppercase` makes of `s`.
pub uninterp spec fn upper(s: Seq<char>) -> Seq<char>;

/// Relies on `str::trim`: leading and trailing characters of the Unicode
/// `White_Space` property removed.
#[verifier::external_body]
fn trim_text(s: &str) -> (r: &str)
    ensures
        r@ == trimmed(s@),
{
    s.trim()
}

/// Relies on `str::to_uppercase`: Unicode upper-case mapping, a function of the
/// text alone.
#[verifier::external_body]
fn uppercase(s: &str) -> (r: String)
    ensures
        r@ == upper(s@),
{
    s.to_uppercase()
}

/// Normalized text opens with one of the guarded keywords.
pub open spec fn starts_with_guarded(s: Seq<char>) -> bool {
    has_prefix(s, "INSERT"@) || has_prefix(s, "UPDATE"@) || has_prefix(s, "DELETE"@)
        || has_prefix(s, "DROP"@) || has_prefix(s, "CREATE"@) || has_prefix(s, "ALTER"@)
        || has_prefix(s, "TRUNCATE"@)
}

/// The statement counts as mutating: once trimmed and upper-cased it opens with a
/// guarded keyword.
pub open spec fn is_mutating(sql: Seq<char>) -> bool {
    starts_with_guarded(upper(trimmed(sql)))
}

/// Tests text that is already trimmed and upper-cased against the guarded keywords.
pub fn is_guarded_statement(normalized: &str) -> (r: bool)
    ensures
        r == starts_with_guarded(normalized@),
{
    starts_with(normalized, "INSERT") || starts_with(normalized, "UPDATE") || starts_with(
        normalized,
        "DELETE",
    ) || starts_with(normalized, "DROP") || starts_with(normalized, "CREATE") || starts_with(
        normalized,
        "ALTER",
    ) || starts_with(normalized, "TRUNCATE")
}

/// Classifies `sql` as mutating or not.
pub fn is_write_query(sql: &str) -> (r: bool)
    ensures
        r == is_mutating(sql@),
{
    let t = trim_text(sql);
    let u = uppercase(t);
    is_guarded_statement(u.as_str())
}

/// The message of a refused mutating statement.
pub open spec fn write_refusal() -> Seq<char> {
    "Write operations are not allowed. Set DANGEROUSLY_ALLOW_WRITE_OPS=true to enable."@
}

/// Passes `sql` through unless it is mutating and writes are not allowed.
pub fn enforce(sql: &str, allow_write: bool) -> (r: Result<(), GatewayError>)
    ensures
        r is Err <==> (is_mutating(sql@) && !allow_write),
        r is Err ==> r->Err_0.kind == ErrorKind::PolicyViolation && r->Err_0.message@
            == write_refusal(),
{
    if !allow_write && is_write_query(sql) {
        return Err(
            GatewayError::new(
                ErrorKind::PolicyViolation,
                owned(
                    "Write operations are not allowed. Set DANGEROUSLY_ALLOW_WRITE_OPS=true to enable.",
                ),
            ),
        );
    }
    Ok(())
}

/// White space before a statement never changes how it is classified.
pub proof fn lemma_leading_white_space_ignored(c: char, sql: Seq<char>)
    requires
        is_white_space(c),
    ensures
        is_mutating(seq![c] + sql) == is_mutating(sql),
{
    assert((seq![c] + sql).drop_first() =~= sql);
}

} // verus!
