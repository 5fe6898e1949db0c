//! Conversion of identifiers between naming conventions.

use convert_case::{Case, Casing};
use vstd::prelude::*;

verus! {

/// The naming conventions that an identifier can be converted to.
#[derive(Clone, Copy, Debug, PartialEq, Eq, Structural)]
pub enum Convention {
    /// Words joined without a delimiter, each but the first capitalised: `myMethod`.
    Camel,
    /// Lower-case words joined by underscores: `my_method`.
    Snake,
}

/// The spelling of `identifier` in `convention`.
///
/// The words of an identifier are found by the rules of the `convert_case`
/// crate, which are not restated here.
pub uninterp spec fn converted(identifier: Seq<char>, convention: Convention) -> Seq<char>;

/// Converts `identifier` to `convention`.
///
/// Trusted: calls `convert_case::Casing::to_case` on the identifier, with
/// `Case::Camel` or `Case::Snake`. The call splits its input into words and
/// joins them again; it depends on the input alone, and its result is what
/// `converted` stands for.
#[verifier::external_body]
pub(crate) fn to_case(identifier: &str, convention: Convention) -> (spelling: String)
    ensures
        spelling@ == converted(identifier@, convention),
{
    match convention {
        Convention::Camel => identifier.to_case(Case::Camel),
        Convention::Snake => identifier.to_case(Case::Snake),
    }
}

} // verus!
