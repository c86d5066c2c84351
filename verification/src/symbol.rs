//! Interned names.

use ustr::Ustr;
use vstd::prelude::*;

verus! {

/// `ustr::Ustr`, the handle of an interned string: a value that is copied
/// freely and whose inside the library never looks at.
#[verifier::external_type_specification]
#[verifier::external_body]
pub struct ExUstr(Ustr);

/// The text that an interned name stands for.
pub uninterp spec fn ustr_text(name: Ustr) -> Seq<char>;

/// `ustr::ustr` interns a string: the handle it returns stands for exactly
/// the text it was given.
pub assume_specification[ ustr::ustr ](s: &str) -> (name: Ustr)
    ensures
        ustr_text(name) == s@,
;

/// `Ustr`'s `==` compares the handles. Interning gives one handle to each
/// text, so two handles are the same exactly when their texts are.
#[verifier::external_body]
pub(crate) fn same_name(a: Ustr, b: Ustr) -> (same: bool)
    ensures
        same == (ustr_text(a) == ustr_text(b)),
{
    a == b
}

} // verus!
