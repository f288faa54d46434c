//! Column names of the streaming Parquet writer.

use vstd::prelude::*;
use vstd::string::StringExecFns;
use crate::text::chars_of;

verus! {

/// Whether `char::is_alphanumeric` holds of a character: its Unicode
/// category is alphabetic or numeric.
pub uninterp spec fn alphanumeric(c: char) -> bool;

/// Whether a character is alphanumeric.
///
/// Trusted wrapper of `char::is_alphanumeric`; its result is named
/// `alphanumeric`.
#[verifier::external_body]
fn is_alphanumeric(c: char) -> (r: bool)
    ensures
        r == alphanumeric(c),
{
    c.is_alphanumeric()
}

/// The column character for `c`: itself when alphanumeric, '-' or '_',
/// and '_' otherwise (so dots and slashes become underscores).
pub open spec fn column_char(c: char) -> char {
    if alphanumeric(c) || c == '-' || c == '_' {
        c
    } else {
        '_'
    }
}

/// A feature name made fit for a column name.
pub open spec fn sanitized(name: Seq<char>) -> Seq<char> {
    name.map_values(|c: char| column_char(c))
}

/// The column name of a feature: each character kept when alphanumeric,
/// '-' or '_', replaced by '_' otherwise.
pub fn sanitize_feature_name(name: &str) -> (r: String)
    ensures
        r@ == sanitized(name@),
{
    let cs = chars_of(name);
    let mut out = String::new();
    let mut i: usize = 0;
    while i < cs.len()
        invariant
            cs@ == name@,
            0 <= i <= cs@.len(),
            out@ == sanitized(name@.take(i as int)),
        decreases cs.len() - i,
    {
        let c = cs[i];
        if is_alphanumeric(c) || c == '-' || c == '_' {
            out.append(name.substring_char(i, i + 1));
        } else {
            out.append("_");
        }
        proof {
            reveal_strlit("_");
            assert(name@.subrange(i as int, i + 1) =~= seq![c]);
            assert(sanitized(name@.take(i + 1)) =~= sanitized(name@.take(i as int)).push(column_char(c)));
        }
        i = i + 1;
    }
    assert(name@.take(cs@.len() as int) =~= name@);
    out
}

} // verus!
