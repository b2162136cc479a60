//! The calls this library makes into syn and Inflector, with what is
//! assumed of each.

use vstd::prelude::*;

verus! {

/// What `syn::parse_str::<syn::Type>` makes of a text: `None` where it does
/// not parse as a type; `Some(None)` where it parses as a type that is not a
/// path; `Some(Some(leaf))` where it parses as a path whose last segment is
/// the identifier `leaf`.
pub uninterp spec fn parsed_type_leaf(s: Seq<char>) -> Option<Option<Seq<char>>>;

/// Whether `syn::parse_str::<syn::Expr>` accepts a text.
pub uninterp spec fn parses_as_expr(s: Seq<char>) -> bool;

/// What `inflector::cases::classcase::to_class_case` returns for a text.
pub uninterp spec fn class_case_of(s: Seq<char>) -> Seq<char>;

/// What `inflector::cases::snakecase::to_snake_case` returns for a text.
pub uninterp spec fn snake_case_of(s: Seq<char>) -> Seq<char>;

/// The model of a type-reference parse, read off the wrapper's result.
pub open spec fn leaf_view(r: Result<Option<String>, ()>) -> Option<Option<Seq<char>>> {
    match r {
        Err(_) => None,
        Ok(None) => Some(None),
        Ok(Some(leaf)) => Some(Some(leaf@)),
    }
}

/// Relies on `syn::parse_str::<syn::Type>`: parses `s` as a type and, for a
/// path type, hands out the identifier of its last segment.
#[verifier::external_body]
pub(crate) fn type_reference_leaf(s: &str) -> (r: Result<Option<String>, ()>)
    ensures
        leaf_view(r) == parsed_type_leaf(s@),
{
    match syn::parse_str::<syn::Type>(s) {
        Ok(syn::Type::Path(p)) => Ok(p.path.segments.last().map(|seg| seg.ident.to_string())),
        Ok(_) => Ok(None),
        Err(_) => Err(()),
    }
}

/// Relies on `syn::parse_str::<syn::Expr>`: whether `s` parses as an
/// expression.
#[verifier::external_body]
pub(crate) fn expr_parses(s: &str) -> (r: bool)
    ensures
        r == parses_as_expr(s@),
{
    syn::parse_str::<syn::Expr>(s).is_ok()
}

/// Relies on `inflector::cases::classcase::to_class_case`.
#[verifier::external_body]
pub(crate) fn class_case(s: &str) -> (r: String)
    ensures
        r@ == class_case_of(s@),
{
    inflector::cases::classcase::to_class_case(s)
}

/// Relies on `inflector::cases::snakecase::to_snake_case`.
#[verifier::external_body]
pub(crate) fn snake_case(s: &str) -> (r: String)
    ensures
        r@ == snake_case_of(s@),
{
    inflector::cases::snakecase::to_snake_case(s)
}

} // verus!
