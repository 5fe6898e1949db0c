//! The Rust module that is generated for one QObject.

use crate::case::{converted, to_case, Convention};
use crate::tokens::string_literal;
use vstd::prelude::*;
use vstd::string::*;

verus! {

/// The type of a parameter of an invokable.
#[derive(Debug, PartialEq, Eq)]
pub struct ParameterType {
    /// The name of the type.
    pub ident: String,
    /// Whether the parameter is a reference to the type.
    pub is_ref: bool,
}

/// A parameter of an invokable.
#[derive(Debug, PartialEq, Eq)]
pub struct Parameter {
    /// The name of the parameter.
    pub ident: String,
    /// Its type.
    pub type_ident: ParameterType,
}

/// A method of the QObject that can be invoked from QML.
#[derive(Debug, PartialEq, Eq)]
pub struct Invokable {
    /// The name of the method.
    pub ident: String,
    /// The parameters, without the receiver.
    pub parameters: Vec<Parameter>,
    /// The method as its author wrote it, body included, as source text.
    pub original_method: String,
}

/// The struct that a QObject was declared as.
#[derive(Debug, PartialEq, Eq)]
pub struct StructDecl {
    /// What stands before the name, as source text: attributes, visibility
    /// and the keyword `struct`.
    pub head: String,
    /// The name of the struct.
    pub ident: String,
    /// What stands after the name, as source text: the fields in their
    /// brackets, or a semicolon.
    pub body: String,
}

/// A QObject as it was declared in Rust.
#[derive(Debug, PartialEq, Eq)]
pub struct QObject {
    /// The name of the class in C++.
    pub ident: String,
    /// The name of the module that the declaration stands in.
    pub module_ident: String,
    /// The name of the struct in Rust that backs the class.
    pub rust_struct_ident: String,
    /// The invokables, in the order they were written.
    pub invokables: Vec<Invokable>,
    /// The struct as it was written.
    pub original_struct: StructDecl,
}

/// The model of a `Parameter`.
pub ghost struct ParameterModel {
    pub ident: Seq<char>,
    pub type_ident: Seq<char>,
    pub is_ref: bool,
}

/// The model of an `Invokable`.
pub ghost struct InvokableModel {
    pub ident: Seq<char>,
    pub parameters: Seq<ParameterModel>,
    pub original_method: Seq<char>,
}

/// The model of a `StructDecl`.
pub ghost struct StructModel {
    pub head: Seq<char>,
    pub ident: Seq<char>,
    pub body: Seq<char>,
}

/// The model of a `QObject`.
pub ghost struct QObjectModel {
    pub ident: Seq<char>,
    pub module_ident: Seq<char>,
    pub rust_struct_ident: Seq<char>,
    pub invokables: Seq<InvokableModel>,
    pub original_struct: StructModel,
}

impl View for Parameter {
    type V = ParameterModel;

    open spec fn view(&self) -> ParameterModel {
        ParameterModel {
            ident: self.ident@,
            type_ident: self.type_ident.ident@,
            is_ref: self.type_ident.is_ref,
        }
    }
}

impl DeepView for Parameter {
    type V = ParameterModel;

    open spec fn deep_view(&self) -> ParameterModel {
        self@
    }
}

impl View for Invokable {
    type V = InvokableModel;

    open spec fn view(&self) -> InvokableModel {
        InvokableModel {
            ident: self.ident@,
            parameters: self.parameters.deep_view(),
            original_method: self.original_method@,
        }
    }
}

impl DeepView for Invokable {
    type V = InvokableModel;

    open spec fn deep_view(&self) -> InvokableModel {
        self@
    }
}

impl View for StructDecl {
    type V = StructModel;

    open spec fn view(&self) -> StructModel {
        StructModel { head: self.head@, ident: self.ident@, body: self.body@ }
    }
}

impl View for QObject {
    type V = QObjectModel;

    open spec fn view(&self) -> QObjectModel {
        QObjectModel {
            ident: self.ident@,
            module_ident: self.module_ident@,
            rust_struct_ident: self.rust_struct_ident@,
            invokables: self.invokables.deep_view(),
            original_struct: self.original_struct@,
        }
    }
}

impl ParameterModel {
    /// The parameter as source text.
    pub open spec fn tokens(self) -> Seq<char> {
        self.ident + ": "@ + (if self.is_ref {
            "&"@
        } else {
            Seq::empty()
        }) + self.type_ident
    }
}

/// The source text of `parameters`, each followed by a comma and a space.
pub open spec fn parameters_tokens(parameters: Seq<ParameterModel>) -> Seq<char>
    decreases parameters.len(),
{
    if parameters.len() == 0 {
        Seq::empty()
    } else {
        parameters_tokens(parameters.drop_last()) + parameters.last().tokens() + ", "@
    }
}

impl InvokableModel {
    /// The declaration of the invokable to the bridge, as a method of
    /// `rust_class` that takes its receiver by shared reference.
    pub open spec fn declaration(self, rust_class: Seq<char>) -> Seq<char> {
        if self.parameters.len() == 0 {
            "fn "@ + self.ident + "(self: &"@ + rust_class + ");"@
        } else {
            "fn "@ + self.ident + "(self: &"@ + rust_class + ", "@ + parameters_tokens(
                self.parameters,
            ) + ");"@
        }
    }
}

/// The declarations of `invokables` to the bridge, each followed by a space.
pub open spec fn declarations_tokens(
    invokables: Seq<InvokableModel>,
    rust_class: Seq<char>,
) -> Seq<char>
    decreases invokables.len(),
{
    if invokables.len() == 0 {
        Seq::empty()
    } else {
        declarations_tokens(invokables.drop_last(), rust_class) + invokables.last().declaration(
            rust_class,
        ) + " "@
    }
}

/// The methods of `invokables` as their authors wrote them, each followed by
/// a space.
pub open spec fn methods_tokens(invokables: Seq<InvokableModel>) -> Seq<char>
    decreases invokables.len(),
{
    if invokables.len() == 0 {
        Seq::empty()
    } else {
        methods_tokens(invokables.drop_last()) + invokables.last().original_method + " "@
    }
}

impl StructModel {
    /// The struct as source text, under the name `ident`.
    pub open spec fn renamed_tokens(self, ident: Seq<char>) -> Seq<char> {
        self.head + " "@ + ident + " "@ + self.body
    }
}

/// The path, relative to the include directory, of the header that declares
/// a class whose name in snake case is `ident_snake`.
pub open spec fn import_path(ident_snake: Seq<char>) -> Seq<char> {
    "cxx-qt-gen/include/"@ + ident_snake + ".h"@
}

impl QObjectModel {
    /// The bridge module of the QObject, where `ident_snake` is the name of
    /// the class in snake case and `import` the string literal that holds
    /// the path of its header.
    pub open spec fn cxx_tokens_with(self, ident_snake: Seq<char>, import: Seq<char>) -> Seq<char> {
        "#[cxx::bridge] mod ffi { unsafe extern \"C++\" { include!("@ + import + "); type "@
            + self.ident + "; fn new_"@ + self.ident + "() -> UniquePtr<"@ + self.ident
            + ">; } extern \"Rust\" { type "@ + self.rust_struct_ident + "; "@
            + declarations_tokens(self.invokables, self.rust_struct_ident) + "fn create_"@
            + ident_snake + "_rs() -> Box<"@ + self.rust_struct_ident + ">; } }"@
    }

    /// The name of the class in snake case.
    pub open spec fn ident_snake(self) -> Seq<char> {
        converted(self.ident, Convention::Snake)
    }

    /// Whether `tokens` is the bridge module of the QObject, with the path
    /// of its header written as some string literal.
    pub open spec fn is_cxx_tokens(self, tokens: Seq<char>) -> bool {
        exists|import: Seq<char>|
            tokens == #[trigger] self.cxx_tokens_with(self.ident_snake(), import)
    }

    /// The function that makes the Rust object behind the QObject, where
    /// `ident_snake` is the name of the class in snake case.
    pub open spec fn creator_tokens_with(self, ident_snake: Seq<char>) -> Seq<char> {
        "fn create_"@ + ident_snake + "_rs() -> Box<"@ + self.rust_struct_ident
            + "> { Box::new("@ + self.rust_struct_ident + " {}) }"@
    }

    /// The function that makes the Rust object behind the QObject.
    pub open spec fn creator_tokens(self) -> Seq<char> {
        self.creator_tokens_with(self.ident_snake())
    }

    /// The whole module of the QObject, around the bridge module `cxx_block`
    /// and the function `creator` that makes the Rust object.
    pub open spec fn rs_tokens_with(self, cxx_block: Seq<char>, creator: Seq<char>) -> Seq<char> {
        "mod "@ + self.module_ident + " { "@ + cxx_block + " "@
            + self.original_struct.renamed_tokens(self.rust_struct_ident) + " impl "@
            + self.rust_struct_ident + " { "@ + methods_tokens(self.invokables) + "} "@ + creator
            + " }"@
    }

    /// Whether `tokens` is the whole module of the QObject, with the path of
    /// its header written as some string literal.
    pub open spec fn is_rs_tokens(self, tokens: Seq<char>) -> bool {
        exists|cxx_block: Seq<char>|
            self.is_cxx_tokens(cxx_block) && tokens == #[trigger] self.rs_tokens_with(
                cxx_block,
                self.creator_tokens(),
            )
    }
}

impl Parameter {
    /// Writes the parameter as source text.
    pub fn to_tokens(&self) -> (tokens: String)
        ensures
            tokens@ == self@.tokens(),
    {
        let mut tokens = self.ident.clone();
        tokens.append(": ");
        if self.type_ident.is_ref {
            tokens.append("&");
        }
        tokens.append(self.type_ident.ident.as_str());
        tokens
    }
}

impl Invokable {
    /// Writes the parameters as source text, each followed by a comma and a
    /// space.
    fn parameters_to_tokens(&self) -> (tokens: String)
        ensures
            tokens@ == parameters_tokens(self@.parameters),
    {
        let mut tokens = String::new();
        let mut index: usize = 0;
        while index < self.parameters.len()
            invariant
                index <= self.parameters@.len(),
                tokens@ == parameters_tokens(self.parameters.deep_view().take(index as int)),
            decreases self.parameters@.len() - index,
        {
            proof {
                let models = self.parameters.deep_view();
                assert(models.take(index + 1).drop_last() =~= models.take(index as int));
            }
            let parameter = self.parameters[index].to_tokens();
            tokens.append(parameter.as_str());
            tokens.append(", ");
            index += 1;
        }
        proof {
            let models = self.parameters.deep_view();
            assert(models.take(index as int) =~= models);
        }
        tokens
    }

    /// Writes the declaration of the invokable to the bridge, as a method of
    /// `rust_class`.
    pub fn declaration(&self, rust_class: &str) -> (tokens: String)
        ensures
            tokens@ == self@.declaration(rust_class@),
    {
        let mut tokens = String::from_str("fn ");
        tokens.append(self.ident.as_str());
        tokens.append("(self: &");
        tokens.append(rust_class);
        if self.parameters.len() == 0 {
            tokens.append(");");
        } else {
            let parameters = self.parameters_to_tokens();
            tokens.append(", ");
            tokens.append(parameters.as_str());
            tokens.append(");");
        }
        tokens
    }
}

impl StructDecl {
    /// Writes the struct as source text, under the name `ident`.
    pub fn renamed(&self, ident: &str) -> (tokens: String)
        ensures
            tokens@ == self@.renamed_tokens(ident@),
    {
        let mut tokens = self.head.clone();
        tokens.append(" ");
        tokens.append(ident);
        tokens.append(" ");
        tokens.append(self.body.as_str());
        tokens
    }
}

impl QObject {
    /// Writes the declarations of the invokables to the bridge.
    fn declarations(&self) -> (tokens: String)
        ensures
            tokens@ == declarations_tokens(self@.invokables, self@.rust_struct_ident),
    {
        let mut tokens = String::new();
        let mut index: usize = 0;
        while index < self.invokables.len()
            invariant
                index <= self.invokables@.len(),
                tokens@ == declarations_tokens(
                    self.invokables.deep_view().take(index as int),
                    self.rust_struct_ident@,
                ),
            decreases self.invokables@.len() - index,
        {
            proof {
                let models = self.invokables.deep_view();
                assert(models.take(index + 1).drop_last() =~= models.take(index as int));
            }
            let declaration = self.invokables[index].declaration(self.rust_struct_ident.as_str());
            tokens.append(declaration.as_str());
            tokens.append(" ");
            index += 1;
        }
        proof {
            let models = self.invokables.deep_view();
            assert(models.take(index as int) =~= models);
        }
        tokens
    }

    /// Writes the methods of the invokables as their authors wrote them.
    fn methods(&self) -> (tokens: String)
        ensures
            tokens@ == methods_tokens(self@.invokables),
    {
        let mut tokens = String::new();
        let mut index: usize = 0;
        while index < self.invokables.len()
            invariant
                index <= self.invokables@.len(),
                tokens@ == methods_tokens(self.invokables.deep_view().take(index as int)),
            decreases self.invokables@.len() - index,
        {
            proof {
                let models = self.invokables.deep_view();
                assert(models.take(index + 1).drop_last() =~= models.take(index as int));
            }
            tokens.append(self.invokables[index].original_method.as_str());
            tokens.append(" ");
            index += 1;
        }
        proof {
            let models = self.invokables.deep_view();
            assert(models.take(index as int) =~= models);
        }
        tokens
    }

    /// Writes the bridge module, given the name of the class in snake case
    /// and the string literal that holds the path of its header.
    pub fn cxx_with(&self, ident_snake: &str, import: &str) -> (tokens: String)
        ensures
            tokens@ == self@.cxx_tokens_with(ident_snake@, import@),
    {
        let declarations = self.declarations();
        let mut tokens = String::from_str(
            "#[cxx::bridge] mod ffi { unsafe extern \"C++\" { include!(",
        );
        tokens.append(import);
        tokens.append("); type ");
        tokens.append(self.ident.as_str());
        tokens.append("; fn new_");
        tokens.append(self.ident.as_str());
        tokens.append("() -> UniquePtr<");
        tokens.append(self.ident.as_str());
        tokens.append(">; } extern \"Rust\" { type ");
        tokens.append(self.rust_struct_ident.as_str());
        tokens.append("; ");
        tokens.append(declarations.as_str());
        tokens.append("fn create_");
        tokens.append(ident_snake);
        tokens.append("_rs() -> Box<");
        tokens.append(self.rust_struct_ident.as_str());
        tokens.append(">; } }");
        tokens
    }

    /// Writes the function that makes the Rust object, given the name of the
    /// class in snake case.
    pub fn creator_with(&self, ident_snake: &str) -> (tokens: String)
        ensures
            tokens@ == self@.creator_tokens_with(ident_snake@),
    {
        let mut tokens = String::from_str("fn create_");
        tokens.append(ident_snake);
        tokens.append("_rs() -> Box<");
        tokens.append(self.rust_struct_ident.as_str());
        tokens.append("> { Box::new(");
        tokens.append(self.rust_struct_ident.as_str());
        tokens.append(" {}) }");
        tokens
    }

    /// Writes the whole module, around the bridge module `cxx_block` and the
    /// function `creator` that makes the Rust object.
    pub fn rs_with(&self, cxx_block: &str, creator: &str) -> (tokens: String)
        ensures
            tokens@ == self@.rs_tokens_with(cxx_block@, creator@),
    {
        let renamed_struct = self.original_struct.renamed(self.rust_struct_ident.as_str());
        let methods = self.methods();
        let mut tokens = String::from_str("mod ");
        tokens.append(self.module_ident.as_str());
        tokens.append(" { ");
        tokens.append(cxx_block);
        tokens.append(" ");
        tokens.append(renamed_struct.as_str());
        tokens.append(" impl ");
        tokens.append(self.rust_struct_ident.as_str());
        tokens.append(" { ");
        tokens.append(methods.as_str());
        tokens.append("} ");
        tokens.append(creator);
        tokens.append(" }");
        tokens
    }
}

/// Writes the path, relative to the include directory, of the header that
/// declares a class whose name in snake case is `ident_snake`.
pub fn header_path(ident_snake: &str) -> (path: String)
    ensures
        path@ == import_path(ident_snake@),
{
    let mut path = String::from_str("cxx-qt-gen/include/");
    path.append(ident_snake);
    path.append(".h");
    path
}

/// Generates the module that declares the QObject to the bridge: the class
/// and its constructor on the side of C++, the struct, its invokables and
/// its constructor on the side of Rust. The header of the class is the one
/// at `header_path`, written as the string literal that the lexer gives for
/// that path.
pub fn generate_qobject_cxx(obj: &QObject) -> (generated: Result<String, String>)
    ensures
        generated matches Ok(tokens) && obj@.is_cxx_tokens(tokens@),
{
    let ident_snake = to_case(obj.ident.as_str(), Convention::Snake);
    let path = header_path(ident_snake.as_str());
    let import = string_literal(path.as_str());
    let tokens = obj.cxx_with(ident_snake.as_str(), import.as_str());
    assert(tokens@ == obj@.cxx_tokens_with(obj@.ident_snake(), import@));
    Ok(tokens)
}

/// Generates the function that makes, on the heap, the Rust object behind
/// the QObject.
pub fn generate_rust_object_creator(obj: &QObject) -> (generated: Result<String, String>)
    ensures
        generated matches Ok(tokens) && tokens@ == obj@.creator_tokens(),
{
    let ident_snake = to_case(obj.ident.as_str(), Convention::Snake);
    Ok(obj.creator_with(ident_snake.as_str()))
}

/// Generates the whole module of the QObject: the bridge module, the struct
/// under its name in Rust, the invokables as methods of the struct, and the
/// function that makes the object.
pub fn generate_qobject_rs(obj: &QObject) -> (generated: Result<String, String>)
    ensures
        generated matches Ok(tokens) && obj@.is_rs_tokens(tokens@),
{
    let cxx_block = match generate_qobject_cxx(obj) {
        Ok(tokens) => tokens,
        Err(error) => {
            return Err(error);
        },
    };
    let creator_fn = match generate_rust_object_creator(obj) {
        Ok(tokens) => tokens,
        Err(error) => {
            return Err(error);
        },
    };
    let tokens = obj.rs_with(cxx_block.as_str(), creator_fn.as_str());
    assert(tokens@ == obj@.rs_tokens_with(cxx_block@, obj@.creator_tokens()));
    Ok(tokens)
}

} // verus!
