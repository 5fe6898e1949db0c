//! Methods as they come out of parsing, ready for generation.

use crate::naming::{method_names, CombinedIdent};
use crate::syntax::{MethodDecl, Safety};
use std::collections::HashSet;
use vstd::prelude::*;
use vstd::string::*;

verus! {

/// A parameter of a method, other than its receiver.
#[derive(Debug, PartialEq, Eq)]
pub struct ParsedFunctionParameter {
    /// The name of the parameter.
    pub ident: String,
    /// Its type, as source text.
    pub ty: String,
}

/// What a method may be declared as towards C++.
#[derive(Clone, Copy, Debug, PartialEq, Eq, Hash, Structural)]
pub enum ParsedQInvokableSpecifiers {
    Final,
    Override,
    Virtual,
}

/// A method that is implemented in Rust and exposed to C++.
#[derive(Debug, PartialEq, Eq)]
pub struct ParsedMethod {
    /// The declaration as it was written.
    pub method: MethodDecl,
    /// The type that the method belongs to.
    pub qobject_ident: String,
    /// Whether the method needs exclusive access to its receiver.
    pub mutable: bool,
    /// Whether the method may be called without `unsafe`.
    pub safe: bool,
    /// The parameters, without the receiver.
    pub parameters: Vec<ParsedFunctionParameter>,
    /// The specifiers of the method.
    pub specifiers: HashSet<ParsedQInvokableSpecifiers>,
    /// Whether the method can be invoked from QML.
    pub is_qinvokable: bool,
}

/// Why a declaration was not accepted as an inherited method.
#[derive(Clone, Copy, Debug, PartialEq, Eq, Structural)]
pub enum InheritError {
    /// The block holds unsafe methods, and the declaration is not marked `unsafe`.
    MissingUnsafe,
}

/// A method that is implemented in C++, by a base class, and exposed to Rust.
#[derive(Debug, PartialEq, Eq)]
pub struct ParsedInheritedMethod {
    /// The declaration as it was written.
    pub method: MethodDecl,
    /// The type that the method belongs to.
    pub qobject_ident: String,
    /// Whether the method needs exclusive access to its receiver.
    pub mutable: bool,
    /// Whether the method may be called without `unsafe`.
    pub safe: bool,
    /// The parameters, without the receiver.
    pub parameters: Vec<ParsedFunctionParameter>,
    /// The names of the method.
    pub ident: CombinedIdent,
}

/// The name in C++ of the wrapper of an inherited method called `cpp`.
pub open spec fn inherit_wrapper_name(cpp: Seq<char>) -> Seq<char> {
    cpp + "CxxQtInherit"@
}

impl ParsedInheritedMethod {
    /// The method counts as safe exactly when its declaration is not marked
    /// `unsafe`, and its names are those of its declaration.
    pub open spec fn well_formed(&self) -> bool {
        &&& self.safe == !self.method.unsafety
        &&& self.ident@ == method_names(self.method)
    }

    /// Accepts `method`, declared in a block of the given `safety`, as an
    /// inherited method of `qobject_ident`.
    ///
    /// A method in a block of unsafe methods must itself be marked `unsafe`.
    pub fn parse(
        method: MethodDecl,
        safety: Safety,
        qobject_ident: String,
        mutable: bool,
        parameters: Vec<ParsedFunctionParameter>,
    ) -> (parsed: Result<ParsedInheritedMethod, InheritError>)
        ensures
            parsed is Err <==> safety == Safety::Unsafe && !method.unsafety,
            parsed matches Ok(inherited) ==> {
                &&& inherited.well_formed()
                &&& inherited.method == method
                &&& inherited.qobject_ident == qobject_ident
                &&& inherited.mutable == mutable
                &&& inherited.parameters == parameters
            },
            parsed matches Err(error) ==> error == InheritError::MissingUnsafe,
    {
        if safety == Safety::Unsafe && !method.unsafety {
            return Err(InheritError::MissingUnsafe);
        }
        let ident = CombinedIdent::from_rust_function(
            method.attrs.as_slice(),
            method.ident.as_str(),
        );
        let safe = !method.unsafety;
        Ok(ParsedInheritedMethod { method, qobject_ident, mutable, safe, parameters, ident })
    }

    /// The name of the wrapper of the method in C++.
    pub fn wrapper_ident(&self) -> (name: String)
        ensures
            name@ == inherit_wrapper_name(self.ident@.cpp),
    {
        let mut name = self.ident.cpp.clone();
        name.append("CxxQtInherit");
        name
    }
}

} // verus!
