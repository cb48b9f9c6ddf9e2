//! Extraction of the single-use `execution` token from a CAS login page.

use vstd::prelude::*;
use soup::{NodeExt, QueryBuilderExt};
use crate::error::CasError;

verus! {

/// An optional string as an optional character sequence.
pub open spec fn string_option_view(o: Option<String>) -> Option<Seq<char>> {
    match o {
        Some(s) => Some(s@),
        None => None,
    }
}

/// The `value` attribute of the first element of the HTML document `html`
/// whose `name` attribute is `execution`; `None` when there is no such
/// element or it has no `value` attribute.
pub uninterp spec fn execution_value_of(html: Seq<char>) -> Option<Seq<char>>;

/// Relies on `soup::Soup::new`, `QueryBuilderExt::attr`, `QueryBuilder::find`
/// and `NodeExt::get`: parse the page, take the first node in document order
/// with `name="execution"`, and read its `value` attribute.
#[verifier::external_body]
fn find_execution_value(html: &str) -> (r: Option<String>)
    ensures
        string_option_view(r) == execution_value_of(html@),
{
    soup::Soup::new(html).attr("name", "execution").find().and_then(|node| node.get("value"))
}

/// The token a login form submission must carry, read from the login page
/// `html`: the `execution` value, as it stands.
pub open spec fn token_in(html: Seq<char>) -> Option<Seq<char>> {
    execution_value_of(html)
}

/// Turns the `execution` value of a login page into a token. Fails with
/// `MissingToken` when there is no value.
pub fn token_from_value(value: Option<String>) -> (r: Result<String, CasError>)
    ensures
        match value {
            Some(v) => r is Ok && r->Ok_0@ == v@,
            None => r == Err::<String, CasError>(CasError::MissingToken),
        },
{
    match value {
        Some(v) => Ok(v),
        None => Err(CasError::MissingToken),
    }
}

/// Reads the execution token out of the login page `html`. Fails with
/// `MissingToken` when the page has no `execution` element, or that element
/// has no `value` attribute.
pub fn exec_token_in(html: &str) -> (r: Result<String, CasError>)
    ensures
        match token_in(html@) {
            Some(t) => r is Ok && r->Ok_0@ == t,
            None => r == Err::<String, CasError>(CasError::MissingToken),
        },
{
    let value = find_execution_value(html);
    token_from_value(value)
}

} // verus!
