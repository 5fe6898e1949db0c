//! Bridge blocks for methods that are implemented in Rust.

use crate::fragment::{embed, BlockModel, BridgeBlock, GeneratedRustFragment, Region, SyntaxError};
use crate::naming::{method_names, wrapper_names, QMethodName};
use crate::parser::ParsedMethod;
use crate::syntax::{doc_hidden_model, name_value_model, sets_name_value, Attribute};
use vstd::prelude::*;

verus! {

/// The block that declares the method `invokable` to the bridge, where
/// `literal` is the string literal that holds the name of the wrapper.
///
/// The block is an `extern "Rust"` block, which needs no `unsafe` marker.
/// The declaration inside loses its `cxx_name` attribute and gets two
/// attributes in front: one that keeps it out of the documentation, and a
/// new `cxx_name` that names the wrapper in C++.
pub open spec fn invokable_model(invokable: ParsedMethod, literal: Seq<char>) -> BlockModel {
    BlockModel {
        unsafety: false,
        region: Region::Rust,
        method: invokable.method@.without_attribute("cxx_name"@).with_attributes_in_front(
            seq![
                doc_hidden_model(),
                name_value_model(
                    "cxx_name"@,
                    wrapper_names(method_names(invokable.method)).cpp,
                    literal,
                ),
            ],
        ),
    }
}

/// Whether `block` declares the method `invokable` to the bridge, with the
/// name of the wrapper written as some string literal.
pub open spec fn is_invokable_block(block: BlockModel, invokable: ParsedMethod) -> bool {
    exists|literal: Seq<char>| block == #[trigger] invokable_model(invokable, literal)
}

/// Writes the block that declares `invokable` to the bridge.
pub fn invokable_block(invokable: &ParsedMethod) -> (block: BridgeBlock)
    ensures
        is_invokable_block(block@, *invokable),
{
    let idents = QMethodName::from(invokable);
    let original_method = invokable.method.without_attribute("cxx_name");
    let cxx_name = Attribute::name_value("cxx_name", idents.wrapper.cpp.as_str());
    let ghost literal = choose|literal: Seq<char>|
        cxx_name@ == #[trigger] name_value_model("cxx_name"@, idents.wrapper.cpp@, literal);
    let mut front: Vec<Attribute> = Vec::new();
    front.push(Attribute::doc_hidden());
    front.push(cxx_name);
    assert(front.deep_view() =~= seq![
        doc_hidden_model(),
        name_value_model("cxx_name"@, idents.wrapper.cpp@, literal),
    ]);
    let block = BridgeBlock {
        unsafety: false,
        region: Region::Rust,
        method: original_method.with_attributes_in_front(front),
    };
    assert(block@ == invokable_model(*invokable, literal));
    block
}

/// Generates the bridge blocks of `invokables`, one for each and in their
/// order. The implementation gets nothing: the bodies of the methods are
/// written by their author.
///
/// Each block is handed to the parser as text. Generation fails at the first
/// method whose block the parser does not accept as an item, and then hands
/// out no block at all. Without methods there is nothing to refuse.
pub fn generate_rust_methods(invokables: &Vec<ParsedMethod>) -> (generated: Result<
    GeneratedRustFragment,
    SyntaxError,
>)
    ensures
        match generated {
            Ok(blocks) => {
                &&& blocks.cxx_qt_mod_contents@.len() == 0
                &&& blocks.cxx_mod_contents@.len() == invokables@.len()
                &&& forall|i: int|
                    0 <= i < invokables@.len() ==> is_invokable_block(
                        #[trigger] blocks.cxx_mod_contents@[i]@,
                        invokables@[i],
                    )
            },
            Err(error) => error.declaration < invokables@.len(),
        },
        invokables@.len() == 0 ==> generated is Ok,
{
    let mut generated = GeneratedRustFragment::default();
    let mut index: usize = 0;
    while index < invokables.len()
        invariant
            index <= invokables@.len(),
            generated.cxx_qt_mod_contents@.len() == 0,
            generated.cxx_mod_contents@.len() == index,
            forall|i: int|
                0 <= i < index ==> is_invokable_block(
                    #[trigger] generated.cxx_mod_contents@[i]@,
                    invokables@[i],
                ),
        decreases invokables@.len() - index,
    {
        match embed(invokable_block(&invokables[index]), index) {
            Ok(block) => generated.cxx_mod_contents.push(block),
            Err(error) => {
                return Err(error);
            },
        }
        index += 1;
    }
    Ok(generated)
}

/// The block of a method that is implemented in Rust is one of methods that
/// C++ calls, and carries no `unsafe` marker of its own.
pub proof fn lemma_invokable_region(invokable: ParsedMethod, block: BlockModel)
    requires
        is_invokable_block(block, invokable),
    ensures
        block.region == Region::Rust,
        !block.unsafety,
{
}

/// The block of a method that is implemented in Rust holds the declaration
/// of that method: its name, its signature and its `unsafe` marker are kept,
/// its first `cxx_name` attribute is gone, and the two attributes in front
/// hide it from the documentation and name the wrapper.
pub proof fn lemma_invokable_declaration(invokable: ParsedMethod, block: BlockModel)
    requires
        is_invokable_block(block, invokable),
    ensures
        block.method.ident == invokable.method@.ident,
        block.method.signature == invokable.method@.signature,
        block.method.unsafety == invokable.method.unsafety,
        block.method.attrs.len() == invokable.method@.without_attribute("cxx_name"@).attrs.len()
            + 2,
        block.method.attrs.skip(2) == invokable.method@.without_attribute("cxx_name"@).attrs,
        block.method.attrs[0] == doc_hidden_model(),
        sets_name_value(
            block.method.attrs[1],
            "cxx_name"@,
            wrapper_names(method_names(invokable.method)).cpp,
        ),
{
    let literal = choose|literal: Seq<char>| block == #[trigger] invokable_model(invokable, literal);
    let stripped = invokable.method@.without_attribute("cxx_name"@).attrs;
    let front = seq![
        doc_hidden_model(),
        name_value_model("cxx_name"@, wrapper_names(method_names(invokable.method)).cpp, literal),
    ];
    assert((front + stripped).skip(2) =~= stripped);
}

} // verus!
