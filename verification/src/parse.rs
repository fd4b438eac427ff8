//! Syntax checks for annotation arguments.
//!
//! The `as`, `with` and `bounds` annotations carry fragments of Rust
//! syntax as strings; generation rejects a fragment that does not parse
//! as the kind of syntax its annotation calls for.  The checks go
//! through `syn`, whose verdict on a given string is a function of the
//! string alone; each verdict is named by an uninterpreted predicate.

use vstd::prelude::*;

verus! {

/// Whether `s` parses as a Rust type.
pub uninterp spec fn is_type_syntax(s: Seq<char>) -> bool;

/// Whether `s` parses as a Rust path expression.
pub uninterp spec fn is_expr_path_syntax(s: Seq<char>) -> bool;

/// Whether `s` parses as a Rust `where`-clause predicate.
pub uninterp spec fn is_where_predicate_syntax(s: Seq<char>) -> bool;

/// Relies on `syn::parse_str::<syn::Type>`: whether `s` is a type, a
/// verdict that depends on the characters of `s` alone.
#[verifier::external_body]
pub(crate) fn parse_type_ok(s: &str) -> (r: bool)
    ensures
        r == is_type_syntax(s@),
{
    syn::parse_str::<syn::Type>(s).is_ok()
}

/// Relies on `syn::parse_str::<syn::ExprPath>`: whether `s` is a path
/// expression, a verdict that depends on the characters of `s` alone.
#[verifier::external_body]
pub(crate) fn parse_expr_path_ok(s: &str) -> (r: bool)
    ensures
        r == is_expr_path_syntax(s@),
{
    syn::parse_str::<syn::ExprPath>(s).is_ok()
}

/// Relies on `syn::parse_str::<syn::WherePredicate>`: whether `s` is a
/// `where`-clause predicate, a verdict that depends on the characters
/// of `s` alone.
#[verifier::external_body]
pub(crate) fn parse_where_predicate_ok(s: &str) -> (r: bool)
    ensures
        r == is_where_predicate_syntax(s@),
{
    syn::parse_str::<syn::WherePredicate>(s).is_ok()
}

} // verus!
