//! What generation hands on: blocks for the generated module.

use crate::syntax::{MethodDecl, MethodModel};
use crate::tokens::parse_item;
use vstd::prelude::*;
use vstd::string::*;

verus! {

/// The two kinds of block that declare methods to the bridge.
#[derive(Clone, Copy, Debug, PartialEq, Eq, Structural)]
pub enum Region {
    /// Methods that are implemented in Rust and called from C++.
    Rust,
    /// Methods that are implemented in C++ and called from Rust.
    Cxx,
}

/// The ABI string of the blocks of `region`, quotes included.
pub open spec fn abi_literal(region: Region) -> Seq<char> {
    match region {
        Region::Rust => "\"Rust\""@,
        Region::Cxx => "\"C++\""@,
    }
}

/// A block that declares one method to the bridge.
#[derive(Debug, PartialEq, Eq)]
pub struct BridgeBlock {
    /// Whether the whole block is marked `unsafe`.
    pub unsafety: bool,
    /// The kind of the block.
    pub region: Region,
    /// The declaration inside the block.
    pub method: MethodDecl,
}

/// The model of a `BridgeBlock`.
pub ghost struct BlockModel {
    pub unsafety: bool,
    pub region: Region,
    pub method: MethodModel,
}

impl BlockModel {
    /// The marker that an unsafe block carries in front.
    pub open spec fn unsafe_marker(self) -> Seq<char> {
        if self.unsafety {
            "unsafe "@
        } else {
            Seq::empty()
        }
    }

    /// The block as source text.
    pub open spec fn tokens(self) -> Seq<char> {
        self.unsafe_marker() + "extern "@ + abi_literal(self.region) + " { "@
            + self.method.tokens() + " }"@
    }
}

impl View for BridgeBlock {
    type V = BlockModel;

    open spec fn view(&self) -> BlockModel {
        BlockModel { unsafety: self.unsafety, region: self.region, method: self.method@ }
    }
}

impl DeepView for BridgeBlock {
    type V = BlockModel;

    open spec fn deep_view(&self) -> BlockModel {
        self@
    }
}

impl BridgeBlock {
    /// Writes the block as source text.
    pub fn to_tokens(&self) -> (tokens: String)
        ensures
            tokens@ == self@.tokens(),
    {
        let mut tokens = String::new();
        if self.unsafety {
            tokens.append("unsafe ");
        }
        tokens.append("extern ");
        match self.region {
            Region::Rust => tokens.append("\"Rust\""),
            Region::Cxx => tokens.append("\"C++\""),
        }
        tokens.append(" { ");
        let method = self.method.to_tokens();
        tokens.append(method.as_str());
        tokens.append(" }");
        tokens
    }
}

/// The declaration whose block cannot be read back as an item.
#[derive(Clone, Copy, Debug, PartialEq, Eq, Structural)]
pub struct SyntaxError {
    /// The position of the declaration among those handed in.
    pub declaration: usize,
}

/// Keeps `block`, written for the declaration at position `declaration`, if
/// the parser accepted its text, and reports the declaration if not.
pub fn embedded(
    block: BridgeBlock,
    declaration: usize,
    parsed: Result<syn::Item, syn::Error>,
) -> (kept:
    Result<BridgeBlock, SyntaxError>)
    ensures
        match kept {
            Ok(same) => parsed is Ok && same == block,
            Err(error) => parsed is Err && error.declaration == declaration,
        },
{
    match parsed {
        Ok(_) => Ok(block),
        Err(_) => Err(SyntaxError { declaration }),
    }
}

/// Hands the text of `block`, written for the declaration at position
/// `declaration`, to the parser: keeps the block if the parser accepts the
/// text as an item, and reports the declaration if not.
///
/// What the parser accepts is not stated here; `embedded` says what is done
/// with either outcome.
pub fn embed(block: BridgeBlock, declaration: usize) -> (kept: Result<BridgeBlock, SyntaxError>)
    ensures
        match kept {
            Ok(same) => same == block,
            Err(error) => error.declaration == declaration,
        },
{
    let tokens = block.to_tokens();
    let parsed = parse_item(tokens.as_str());
    embedded(block, declaration, parsed)
}

/// What generation adds to the generated module.
#[derive(Debug, PartialEq, Eq)]
pub struct GeneratedRustFragment {
    /// Blocks for the module that declares the bridge.
    pub cxx_mod_contents: Vec<BridgeBlock>,
    /// Blocks for the module that holds the implementation.
    pub cxx_qt_mod_contents: Vec<BridgeBlock>,
}

impl Default for GeneratedRustFragment {
    fn default() -> (fragment: Self)
        ensures
            fragment.cxx_mod_contents@.len() == 0,
            fragment.cxx_qt_mod_contents@.len() == 0,
    {
        GeneratedRustFragment { cxx_mod_contents: Vec::new(), cxx_qt_mod_contents: Vec::new() }
    }
}

} // verus!
