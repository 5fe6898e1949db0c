//! The names of a method on the two sides of the bridge.

use crate::case::{converted, to_case, Convention};
use crate::parser::ParsedMethod;
use crate::syntax::{
    attribute_find_path, find_path, lemma_find_path_from, Attribute, AttributeModel,
    AttributeValue, MethodDecl, ValueModel,
};
use vstd::prelude::*;
use vstd::string::*;

verus! {

/// The name of one declaration in C++ and in Rust.
#[derive(Debug, PartialEq, Eq)]
pub struct CombinedIdent {
    /// The name that C++ uses.
    pub cpp: String,
    /// The name that Rust uses.
    pub rust: String,
}

/// The model of a `CombinedIdent`.
pub ghost struct Names {
    pub cpp: Seq<char>,
    pub rust: Seq<char>,
}

impl View for CombinedIdent {
    type V = Names;

    open spec fn view(&self) -> Names {
        Names { cpp: self.cpp@, rust: self.rust@ }
    }
}

impl Clone for CombinedIdent {
    fn clone(&self) -> (copy: Self)
        ensures
            copy@ == self@,
    {
        CombinedIdent { cpp: self.cpp.clone(), rust: self.rust.clone() }
    }
}

/// The names that the author of a declaration chose by attribute.
#[derive(Debug, PartialEq, Eq)]
pub struct NamingOverride {
    /// The name for C++, from `#[cxx_name = "..."]`.
    pub cxx_name: Option<String>,
    /// The name for Rust, from `#[rust_name = "..."]`.
    pub rust_name: Option<String>,
}

/// The model of a `NamingOverride`.
pub ghost struct OverrideModel {
    pub cxx_name: Option<Seq<char>>,
    pub rust_name: Option<Seq<char>>,
}

impl View for NamingOverride {
    type V = OverrideModel;

    open spec fn view(&self) -> OverrideModel {
        OverrideModel {
            cxx_name: match self.cxx_name {
                Some(name) => Some(name@),
                None => None,
            },
            rust_name: match self.rust_name {
                Some(name) => Some(name@),
                None => None,
            },
        }
    }
}

/// The name that `attrs` give under `path`: the string of the first
/// attribute with that path, if that attribute holds a string literal.
///
/// An attribute with the path and another kind of value gives no name, and
/// hides any later attribute with the same path.
pub open spec fn override_value(attrs: Seq<AttributeModel>, path: Seq<char>) -> Option<Seq<char>> {
    match find_path(attrs, path) {
        Some(index) => match attrs[index].value {
            ValueModel::Literal(name) => Some(name),
            _ => None,
        },
        None => None,
    }
}

/// The names that `attrs` choose.
pub open spec fn overrides_of(attrs: Seq<AttributeModel>) -> OverrideModel {
    OverrideModel {
        cxx_name: override_value(attrs, "cxx_name"@),
        rust_name: override_value(attrs, "rust_name"@),
    }
}

/// The names that convention gives a method written as `ident` in Rust:
/// camel case for C++, snake case for Rust.
pub open spec fn convention_names(ident: Seq<char>) -> Names {
    Names { cpp: converted(ident, Convention::Camel), rust: converted(ident, Convention::Snake) }
}

/// The names of a method written as `ident`, given the names that
/// convention would pick and those that its author chose.
///
/// A side with a chosen name has that name. Once a name is chosen on either
/// side, the other side keeps `ident` as it is written. Only where nothing
/// is chosen do the names follow convention.
pub open spec fn resolved(defaults: Names, ident: Seq<char>, overrides: OverrideModel) -> Names {
    match (overrides.cxx_name, overrides.rust_name) {
        (Some(cpp), Some(rust)) => Names { cpp, rust },
        (Some(cpp), None) => Names { cpp, rust: ident },
        (None, Some(rust)) => Names { cpp: ident, rust },
        (None, None) => defaults,
    }
}

/// The names of the method that is written as `ident` and carries `attrs`.
pub open spec fn declared_names(attrs: Seq<AttributeModel>, ident: Seq<char>) -> Names {
    resolved(convention_names(ident), ident, overrides_of(attrs))
}

/// The names of the wrapper of a method with the names `ident`.
pub open spec fn wrapper_names(ident: Names) -> Names {
    Names { cpp: ident.cpp + "Wrapper"@, rust: ident.rust + "_wrapper"@ }
}

/// The name that `attrs` give under `path`.
fn override_of(attrs: &[Attribute], path: &str) -> (name: Option<String>)
    ensures
        match name {
            Some(text) => override_value(attrs.deep_view(), path@) == Some(text@),
            None => override_value(attrs.deep_view(), path@).is_none(),
        },
{
    match attribute_find_path(attrs, path) {
        Some(index) => match &attrs[index].value {
            AttributeValue::Literal(text) => Some(text.clone()),
            _ => None,
        },
        None => None,
    }
}

impl NamingOverride {
    /// Reads the chosen names off the attributes of a declaration.
    pub fn from_attributes(attrs: &[Attribute]) -> (overrides: NamingOverride)
        ensures
            overrides@ == overrides_of(attrs.deep_view()),
    {
        NamingOverride {
            cxx_name: override_of(attrs, "cxx_name"),
            rust_name: override_of(attrs, "rust_name"),
        }
    }
}

impl CombinedIdent {
    /// The names that convention gives a method written as `ident`.
    pub fn by_convention(ident: &str) -> (names: CombinedIdent)
        ensures
            names@ == convention_names(ident@),
    {
        CombinedIdent {
            cpp: to_case(ident, Convention::Camel),
            rust: to_case(ident, Convention::Snake),
        }
    }

    /// Settles the names of a method written as `ident`: `defaults`, unless
    /// `overrides` choose otherwise.
    pub fn with_overrides(defaults: CombinedIdent, ident: &str, overrides: &NamingOverride) -> (names:
        CombinedIdent)
        ensures
            names@ == resolved(defaults@, ident@, overrides@),
    {
        let mut names = defaults;
        let mut cxx_name_found = false;
        if let Some(cxx_name) = &overrides.cxx_name {
            cxx_name_found = true;
            names.cpp = cxx_name.clone();
            names.rust = String::from_str(ident);
        }
        if let Some(rust_name) = &overrides.rust_name {
            names.rust = rust_name.clone();
            if !cxx_name_found {
                names.cpp = String::from_str(ident);
            }
        }
        names
    }

    /// The names of the method that is declared in Rust as `ident`, with the
    /// attributes `attrs`.
    pub fn from_rust_function(attrs: &[Attribute], ident: &str) -> (names: CombinedIdent)
        ensures
            names@ == declared_names(attrs.deep_view(), ident@),
    {
        let overrides = NamingOverride::from_attributes(attrs);
        CombinedIdent::with_overrides(CombinedIdent::by_convention(ident), ident, &overrides)
    }

    /// The names of the wrapper through which the method `ident` is called.
    pub fn wrapper_from_invokable(ident: &CombinedIdent) -> (wrapper: CombinedIdent)
        ensures
            wrapper@ == wrapper_names(ident@),
    {
        let mut cpp = ident.cpp.clone();
        cpp.append("Wrapper");
        let mut rust = ident.rust.clone();
        rust.append("_wrapper");
        CombinedIdent { cpp, rust }
    }
}

/// Names for parts of a method, which may be invokable from QML.
#[derive(Debug, PartialEq, Eq)]
pub struct QMethodName {
    /// The names of the method itself.
    pub name: CombinedIdent,
    /// The names of its wrapper.
    pub wrapper: CombinedIdent,
}

/// The names of the method that `method` declares.
pub open spec fn method_names(method: MethodDecl) -> Names {
    declared_names(method@.attrs, method@.ident)
}

impl QMethodName {
    /// The names for a parsed method.
    pub fn from(invokable: &ParsedMethod) -> (names: QMethodName)
        ensures
            names.name@ == method_names(invokable.method),
            names.wrapper@ == wrapper_names(method_names(invokable.method)),
    {
        QMethodName::from_method(&invokable.method)
    }

    /// The names for a method declaration.
    pub fn from_method(method: &MethodDecl) -> (names: QMethodName)
        ensures
            names.name@ == method_names(*method),
            names.wrapper@ == wrapper_names(method_names(*method)),
    {
        let name = CombinedIdent::from_rust_function(method.attrs.as_slice(), method.ident.as_str());
        let wrapper = CombinedIdent::wrapper_from_invokable(&name);
        QMethodName { name, wrapper }
    }
}

/// Resolution is a function of the declaration: the same identifier with the
/// same attributes has the same names.
pub proof fn lemma_resolution_deterministic(
    first_attrs: Seq<AttributeModel>,
    first_ident: Seq<char>,
    second_attrs: Seq<AttributeModel>,
    second_ident: Seq<char>,
)
    requires
        first_attrs == second_attrs,
        first_ident == second_ident,
    ensures
        declared_names(first_attrs, first_ident) == declared_names(second_attrs, second_ident),
{
}

/// Where the attributes choose a name for both sides, each side has the name
/// chosen for it; the identifier and the conventions play no part.
pub proof fn lemma_both_overrides_win(
    attrs: Seq<AttributeModel>,
    ident: Seq<char>,
    cxx_name: Seq<char>,
    rust_name: Seq<char>,
)
    requires
        override_value(attrs, "cxx_name"@) == Some(cxx_name),
        override_value(attrs, "rust_name"@) == Some(rust_name),
    ensures
        declared_names(attrs, ident) == (Names { cpp: cxx_name, rust: rust_name }),
{
}

/// Where the attributes choose a name for C++ only, Rust keeps the
/// identifier as it is written, not its spelling in snake case.
pub proof fn lemma_cxx_name_alone_keeps_ident(
    attrs: Seq<AttributeModel>,
    ident: Seq<char>,
    cxx_name: Seq<char>,
)
    requires
        override_value(attrs, "cxx_name"@) == Some(cxx_name),
        override_value(attrs, "rust_name"@).is_none(),
    ensures
        declared_names(attrs, ident) == (Names { cpp: cxx_name, rust: ident }),
{
}

/// Where the attributes choose a name for Rust only, C++ keeps the
/// identifier as it is written, not its spelling in camel case.
pub proof fn lemma_rust_name_alone_keeps_ident(
    attrs: Seq<AttributeModel>,
    ident: Seq<char>,
    rust_name: Seq<char>,
)
    requires
        override_value(attrs, "cxx_name"@).is_none(),
        override_value(attrs, "rust_name"@) == Some(rust_name),
    ensures
        declared_names(attrs, ident) == (Names { cpp: ident, rust: rust_name }),
{
}

/// Where the attributes choose no name, the names follow convention: camel
/// case for C++, snake case for Rust.
pub proof fn lemma_no_override_follows_convention(attrs: Seq<AttributeModel>, ident: Seq<char>)
    requires
        override_value(attrs, "cxx_name"@).is_none(),
        override_value(attrs, "rust_name"@).is_none(),
    ensures
        declared_names(attrs, ident) == (Names {
            cpp: converted(ident, Convention::Camel),
            rust: converted(ident, Convention::Snake),
        }),
{
}

/// An attribute gives a name only as a string literal: a declaration whose
/// attributes hold no string literal under either path is named by
/// convention, whatever else those attributes hold.
pub proof fn lemma_other_values_choose_nothing(attrs: Seq<AttributeModel>, ident: Seq<char>)
    requires
        forall|i: int|
            0 <= i < attrs.len() ==> !(#[trigger] attrs[i].value is Literal),
    ensures
        declared_names(attrs, ident) == convention_names(ident),
{
    lemma_find_path_from(attrs, "cxx_name"@, 0);
    lemma_find_path_from(attrs, "rust_name"@, 0);
}

/// The names of a wrapper tell the names of its method: two methods with
/// the same wrapper have the same names.
pub proof fn lemma_wrapper_names_injective(first: Names, second: Names)
    requires
        wrapper_names(first) == wrapper_names(second),
    ensures
        first == second,
{
    let suffix_cpp = "Wrapper"@;
    let suffix_rust = "_wrapper"@;
    assert(first.cpp =~= (first.cpp + suffix_cpp).subrange(0, first.cpp.len() as int));
    assert(second.cpp =~= (second.cpp + suffix_cpp).subrange(0, second.cpp.len() as int));
    assert((first.cpp + suffix_cpp).len() == first.cpp.len() + suffix_cpp.len());
    assert((second.cpp + suffix_cpp).len() == second.cpp.len() + suffix_cpp.len());
    assert(first.rust =~= (first.rust + suffix_rust).subrange(0, first.rust.len() as int));
    assert(second.rust =~= (second.rust + suffix_rust).subrange(0, second.rust.len() as int));
    assert((first.rust + suffix_rust).len() == first.rust.len() + suffix_rust.len());
    assert((second.rust + suffix_rust).len() == second.rust.len() + suffix_rust.len());
}

} // verus!
