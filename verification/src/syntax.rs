//! The parts of a method declaration that naming and synthesis work on.
//!
//! A declaration is held as plain values: its attributes, whether it is
//! marked `unsafe`, its identifier, and the rest of its signature as source
//! text. Each type has a model, its view, that the contracts speak of.

use crate::tokens::string_literal;
use vstd::prelude::*;
use vstd::string::*;

verus! {

/// Whether a declaration, or the block it was declared in, may be used
/// without an `unsafe` acknowledgment.
#[derive(Clone, Copy, Debug, PartialEq, Eq, Structural)]
pub enum Safety {
    Safe,
    Unsafe,
}

/// What an attribute holds after its path.
#[derive(Debug, PartialEq, Eq)]
pub enum AttributeValue {
    /// Nothing: the attribute is its path alone, as in `#[inline]`.
    Missing,
    /// An equals sign and a string literal, as in `#[cxx_name = "myMethod"]`.
    /// The field is the string that the literal denotes.
    Literal(String),
    /// Anything else: a list in brackets, or an expression that is no string literal.
    Other,
}

/// The model of an `AttributeValue`.
pub ghost enum ValueModel {
    Missing,
    Literal(Seq<char>),
    Other,
}

impl View for AttributeValue {
    type V = ValueModel;

    open spec fn view(&self) -> ValueModel {
        match self {
            AttributeValue::Missing => ValueModel::Missing,
            AttributeValue::Literal(text) => ValueModel::Literal(text@),
            AttributeValue::Other => ValueModel::Other,
        }
    }
}

impl Clone for AttributeValue {
    fn clone(&self) -> (copy: Self)
        ensures
            copy@ == self@,
    {
        match self {
            AttributeValue::Missing => AttributeValue::Missing,
            AttributeValue::Literal(text) => AttributeValue::Literal(text.clone()),
            AttributeValue::Other => AttributeValue::Other,
        }
    }
}

/// One attribute of a declaration.
#[derive(Debug, PartialEq, Eq)]
pub struct Attribute {
    /// The path, as written: `cxx_name`, `doc`, `cxx_qt::inherit`.
    pub path: String,
    /// What follows the path.
    pub value: AttributeValue,
    /// The whole attribute as source text, `#[` and `]` included.
    pub tokens: String,
}

/// The model of an `Attribute`.
pub ghost struct AttributeModel {
    pub path: Seq<char>,
    pub value: ValueModel,
    pub tokens: Seq<char>,
}

impl View for Attribute {
    type V = AttributeModel;

    open spec fn view(&self) -> AttributeModel {
        AttributeModel { path: self.path@, value: self.value@, tokens: self.tokens@ }
    }
}

impl DeepView for Attribute {
    type V = AttributeModel;

    open spec fn deep_view(&self) -> AttributeModel {
        self@
    }
}

impl Clone for Attribute {
    fn clone(&self) -> (copy: Self)
        ensures
            copy@ == self@,
    {
        Attribute {
            path: self.path.clone(),
            value: self.value.clone(),
            tokens: self.tokens.clone(),
        }
    }
}

/// The index of the first attribute from `start` on whose path is `path`.
pub open spec fn find_path_from(attrs: Seq<AttributeModel>, path: Seq<char>, start: int) -> Option<
    int,
>
    decreases attrs.len() - start,
{
    if start < 0 || start >= attrs.len() {
        None
    } else if attrs[start].path == path {
        Some(start)
    } else {
        find_path_from(attrs, path, start + 1)
    }
}

/// The index of the first attribute whose path is `path`.
pub open spec fn find_path(attrs: Seq<AttributeModel>, path: Seq<char>) -> Option<int> {
    find_path_from(attrs, path, 0)
}

/// `attrs` without the first attribute whose path is `path`.
pub open spec fn without_path(attrs: Seq<AttributeModel>, path: Seq<char>) -> Seq<AttributeModel> {
    match find_path(attrs, path) {
        Some(index) => attrs.remove(index),
        None => attrs,
    }
}

/// What `find_path_from` finds is in range, has the path, and is the first
/// such from `start` on; when it finds nothing, no attribute from `start` on
/// has the path.
pub proof fn lemma_find_path_from(attrs: Seq<AttributeModel>, path: Seq<char>, start: int)
    requires
        0 <= start,
    ensures
        match find_path_from(attrs, path, start) {
            Some(index) => {
                &&& start <= index < attrs.len()
                &&& attrs[index].path == path
                &&& forall|j: int| start <= j < index ==> attrs[j].path != path
            },
            None => forall|j: int| start <= j < attrs.len() ==> attrs[j].path != path,
        },
    decreases attrs.len() - start,
{
    if start < attrs.len() && attrs[start].path != path {
        lemma_find_path_from(attrs, path, start + 1);
    }
}

/// Finds the first attribute whose path is `path`.
pub fn attribute_find_path(attrs: &[Attribute], path: &str) -> (found: Option<usize>)
    ensures
        match found {
            Some(index) => index < attrs@.len() && find_path(attrs.deep_view(), path@) == Some(
                index as int,
            ),
            None => find_path(attrs.deep_view(), path@).is_none(),
        },
{
    let wanted = String::from_str(path);
    let mut index: usize = 0;
    while index < attrs.len()
        invariant
            index <= attrs@.len(),
            wanted@ == path@,
            find_path(attrs.deep_view(), path@) == find_path_from(
                attrs.deep_view(),
                path@,
                index as int,
            ),
        decreases attrs@.len() - index,
    {
        if attrs[index].path == wanted {
            return Some(index);
        }
        index += 1;
    }
    None
}

/// Takes the first attribute whose path is `path` out of `attrs`, and hands
/// it back.
pub fn attribute_take_path(attrs: &mut Vec<Attribute>, path: &str) -> (taken: Option<Attribute>)
    ensures
        final(attrs).deep_view() == without_path(old(attrs).deep_view(), path@),
        match taken {
            Some(attribute) => {
                &&& find_path(old(attrs).deep_view(), path@) is Some
                &&& attribute@ == old(attrs).deep_view()[find_path(
                    old(attrs).deep_view(),
                    path@,
                ).unwrap()]
            },
            None => find_path(old(attrs).deep_view(), path@).is_none(),
        },
{
    match attribute_find_path(attrs.as_slice(), path) {
        Some(index) => {
            let taken = attrs.remove(index);
            assert(attrs.deep_view() =~= old(attrs).deep_view().remove(index as int));
            Some(taken)
        },
        None => None,
    }
}

/// The attribute `#[path = literal]`, where `literal` denotes `value`.
pub open spec fn name_value_model(
    path: Seq<char>,
    value: Seq<char>,
    literal: Seq<char>,
) -> AttributeModel {
    AttributeModel {
        path,
        value: ValueModel::Literal(value),
        tokens: "#["@ + path + " = "@ + literal + "]"@,
    }
}

/// Whether `attribute` sets `path` to the string `value`, written with some
/// string literal.
pub open spec fn sets_name_value(
    attribute: AttributeModel,
    path: Seq<char>,
    value: Seq<char>,
) -> bool {
    exists|literal: Seq<char>| attribute == #[trigger] name_value_model(path, value, literal)
}

/// The attribute `#[doc(hidden)]`.
pub open spec fn doc_hidden_model() -> AttributeModel {
    AttributeModel { path: "doc"@, value: ValueModel::Other, tokens: "#[doc(hidden)]"@ }
}

impl Attribute {
    /// The attribute that sets `path` to the string `value`, written with
    /// `literal` as the string literal for `value`.
    pub fn with_literal(path: &str, value: &str, literal: &str) -> (attribute: Attribute)
        ensures
            attribute@ == name_value_model(path@, value@, literal@),
    {
        let mut tokens = String::from_str("#[");
        tokens.append(path);
        tokens.append(" = ");
        tokens.append(literal);
        tokens.append("]");
        Attribute {
            path: String::from_str(path),
            value: AttributeValue::Literal(String::from_str(value)),
            tokens,
        }
    }

    /// The attribute that sets `path` to the string `value`, written with
    /// the string literal that the lexer gives for `value`.
    pub fn name_value(path: &str, value: &str) -> (attribute: Attribute)
        ensures
            sets_name_value(attribute@, path@, value@),
    {
        let literal = string_literal(value);
        Attribute::with_literal(path, value, literal.as_str())
    }

    /// The attribute that keeps an item out of the documentation.
    pub fn doc_hidden() -> (attribute: Attribute)
        ensures
            attribute@ == doc_hidden_model(),
    {
        Attribute {
            path: String::from_str("doc"),
            value: AttributeValue::Other,
            tokens: String::from_str("#[doc(hidden)]"),
        }
    }
}

/// The source text of `attrs`, each attribute followed by a space.
pub open spec fn attributes_tokens(attrs: Seq<AttributeModel>) -> Seq<char>
    decreases attrs.len(),
{
    if attrs.len() == 0 {
        Seq::empty()
    } else {
        attributes_tokens(attrs.drop_last()) + attrs.last().tokens + " "@
    }
}

/// The declaration of a method in a bridge block: a function without a body.
#[derive(Debug, PartialEq, Eq)]
pub struct MethodDecl {
    /// The attributes, in the order they were written.
    pub attrs: Vec<Attribute>,
    /// Whether the declaration is marked `unsafe`.
    pub unsafety: bool,
    /// The name of the method.
    pub ident: String,
    /// What follows the name up to the closing semicolon, as source text:
    /// the parameters in their brackets and the return type.
    pub signature: String,
}

/// The model of a `MethodDecl`.
pub ghost struct MethodModel {
    pub attrs: Seq<AttributeModel>,
    pub unsafety: bool,
    pub ident: Seq<char>,
    pub signature: Seq<char>,
}

impl MethodModel {
    /// The marker that an unsafe declaration carries in front of `fn`.
    pub open spec fn unsafe_marker(self) -> Seq<char> {
        if self.unsafety {
            "unsafe "@
        } else {
            Seq::empty()
        }
    }

    /// The declaration as source text.
    pub open spec fn tokens(self) -> Seq<char> {
        attributes_tokens(self.attrs) + self.unsafe_marker() + "fn "@ + self.ident
            + self.signature + ";"@
    }

    /// The declaration without its first attribute whose path is `path`.
    pub open spec fn without_attribute(self, path: Seq<char>) -> MethodModel {
        MethodModel { attrs: without_path(self.attrs, path), ..self }
    }

    /// The declaration with `front` before its own attributes.
    pub open spec fn with_attributes_in_front(self, front: Seq<AttributeModel>) -> MethodModel {
        MethodModel { attrs: front + self.attrs, ..self }
    }
}

impl View for MethodDecl {
    type V = MethodModel;

    open spec fn view(&self) -> MethodModel {
        MethodModel {
            attrs: self.attrs.deep_view(),
            unsafety: self.unsafety,
            ident: self.ident@,
            signature: self.signature@,
        }
    }
}

/// Copies `attrs`.
pub fn clone_attributes(attrs: &[Attribute]) -> (copy: Vec<Attribute>)
    ensures
        copy.deep_view() == attrs.deep_view(),
{
    let mut copy: Vec<Attribute> = Vec::new();
    let mut index: usize = 0;
    while index < attrs.len()
        invariant
            index <= attrs@.len(),
            copy@.len() == index,
            forall|j: int| 0 <= j < index ==> copy@[j]@ == attrs@[j]@,
        decreases attrs@.len() - index,
    {
        copy.push(attrs[index].clone());
        index += 1;
    }
    assert(copy.deep_view() =~= attrs.deep_view());
    copy
}

impl Clone for MethodDecl {
    fn clone(&self) -> (copy: Self)
        ensures
            copy@ == self@,
    {
        MethodDecl {
            attrs: clone_attributes(self.attrs.as_slice()),
            unsafety: self.unsafety,
            ident: self.ident.clone(),
            signature: self.signature.clone(),
        }
    }
}

impl MethodDecl {
    /// A copy of the declaration without its first attribute whose path is
    /// `path`.
    pub fn without_attribute(&self, path: &str) -> (stripped: MethodDecl)
        ensures
            stripped@ == self@.without_attribute(path@),
    {
        let mut stripped = self.clone();
        attribute_take_path(&mut stripped.attrs, path);
        stripped
    }

    /// The declaration with `front` before its own attributes.
    pub fn with_attributes_in_front(self, front: Vec<Attribute>) -> (extended: MethodDecl)
        ensures
            extended@ == self@.with_attributes_in_front(front.deep_view()),
    {
        let mut attrs = front;
        let mut own = self.attrs;
        attrs.append(&mut own);
        assert(attrs.deep_view() =~= front.deep_view() + self.attrs.deep_view());
        MethodDecl {
            attrs,
            unsafety: self.unsafety,
            ident: self.ident,
            signature: self.signature,
        }
    }

    /// Writes the declaration as source text.
    pub fn to_tokens(&self) -> (tokens: String)
        ensures
            tokens@ == self@.tokens(),
    {
        let mut tokens = String::new();
        let mut index: usize = 0;
        while index < self.attrs.len()
            invariant
                index <= self.attrs@.len(),
                tokens@ == attributes_tokens(self.attrs.deep_view().take(index as int)),
            decreases self.attrs@.len() - index,
        {
            proof {
                let models = self.attrs.deep_view();
                assert(models.take(index + 1).drop_last() =~= models.take(index as int));
            }
            tokens.append(self.attrs[index].tokens.as_str());
            tokens.append(" ");
            index += 1;
        }
        proof {
            let models = self.attrs.deep_view();
            assert(models.take(index as int) =~= models);
        }
        if self.unsafety {
            tokens.append("unsafe ");
        }
        tokens.append("fn ");
        tokens.append(self.ident.as_str());
        tokens.append(self.signature.as_str());
        tokens.append(";");
        tokens
    }
}

} // verus!
