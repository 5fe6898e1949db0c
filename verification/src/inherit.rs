//! Bridge blocks for methods that a C++ base class implements.

use crate::fragment::{embed, BlockModel, BridgeBlock, GeneratedRustFragment, Region, SyntaxError};
use crate::parser::{inherit_wrapper_name, ParsedInheritedMethod};
use crate::syntax::{name_value_model, sets_name_value, Attribute};
use vstd::prelude::*;

verus! {

/// The block that declares the inherited method `method` to the bridge,
/// where `literal` is the string literal that holds the name of the wrapper.
///
/// The block is an `extern "C++"` block. It is marked `unsafe` exactly when
/// the method counts as safe; the declaration inside keeps its own marker.
/// The declaration loses its `cxx_name` attribute and gets a new one in
/// front, which names the wrapper.
pub open spec fn inherited_model(method: ParsedInheritedMethod, literal: Seq<char>) -> BlockModel {
    BlockModel {
        unsafety: method.safe,
        region: Region::Cxx,
        method: method.method@.without_attribute("cxx_name"@).with_attributes_in_front(
            seq![name_value_model("cxx_name"@, inherit_wrapper_name(method.ident@.cpp), literal)],
        ),
    }
}

/// Whether `block` declares the inherited method `method` to the bridge,
/// with the name of the wrapper written as some string literal.
pub open spec fn is_inherited_block(block: BlockModel, method: ParsedInheritedMethod) -> bool {
    exists|literal: Seq<char>| block == #[trigger] inherited_model(method, literal)
}

/// Writes the block that declares `method` to the bridge.
pub fn inherited_block(method: &ParsedInheritedMethod) -> (block: BridgeBlock)
    ensures
        is_inherited_block(block@, *method),
{
    let wrapper = method.wrapper_ident();
    let original_method = method.method.without_attribute("cxx_name");
    let cxx_name = Attribute::name_value("cxx_name", wrapper.as_str());
    let ghost literal = choose|literal: Seq<char>|
        cxx_name@ == #[trigger] name_value_model("cxx_name"@, wrapper@, literal);
    let mut front: Vec<Attribute> = Vec::new();
    front.push(cxx_name);
    assert(front.deep_view() =~= seq![name_value_model("cxx_name"@, wrapper@, literal)]);
    let block = BridgeBlock {
        unsafety: method.safe,
        region: Region::Cxx,
        method: original_method.with_attributes_in_front(front),
    };
    assert(block@ == inherited_model(*method, literal));
    block
}

/// Generates the bridge blocks of `methods`, one for each and in their order.
///
/// Each block is handed to the parser as text. Generation fails at the first
/// method whose block the parser does not accept as an item, and then hands
/// out no block at all. Without methods there is nothing to refuse.
pub fn generate(methods: &[ParsedInheritedMethod]) -> (generated: Result<
    GeneratedRustFragment,
    SyntaxError,
>)
    ensures
        match generated {
            Ok(blocks) => {
                &&& blocks.cxx_qt_mod_contents@.len() == 0
                &&& blocks.cxx_mod_contents@.len() == methods@.len()
                &&& forall|i: int|
                    0 <= i < methods@.len() ==> is_inherited_block(
                        #[trigger] blocks.cxx_mod_contents@[i]@,
                        methods@[i],
                    )
            },
            Err(error) => error.declaration < methods@.len(),
        },
        methods@.len() == 0 ==> generated is Ok,
{
    let mut blocks = GeneratedRustFragment::default();
    let mut index: usize = 0;
    while index < methods.len()
        invariant
            index <= methods@.len(),
            blocks.cxx_qt_mod_contents@.len() == 0,
            blocks.cxx_mod_contents@.len() == index,
            forall|i: int|
                0 <= i < index ==> is_inherited_block(
                    #[trigger] blocks.cxx_mod_contents@[i]@,
                    methods@[i],
                ),
        decreases methods@.len() - index,
    {
        match embed(inherited_block(&methods[index]), index) {
            Ok(block) => blocks.cxx_mod_contents.push(block),
            Err(error) => {
                return Err(error);
            },
        }
        index += 1;
    }
    Ok(blocks)
}

/// The block of an inherited method whose `safe` flag is the opposite of
/// the marker on its declaration carries exactly one `unsafe` marker: on the
/// block when the method counts as safe, on the declaration when it does
/// not.
pub proof fn lemma_one_unsafe_marker(method: ParsedInheritedMethod, block: BlockModel)
    requires
        method.safe == !method.method.unsafety,
        is_inherited_block(block, method),
    ensures
        block.unsafety != block.method.unsafety,
        block.unsafety <==> method.safe,
{
}

/// The block of an inherited method is one of methods that C++ implements.
pub proof fn lemma_inherited_region(method: ParsedInheritedMethod, block: BlockModel)
    requires
        is_inherited_block(block, method),
    ensures
        block.region == Region::Cxx,
{
}

/// The block of an inherited method holds the declaration of that method:
/// its name, its signature and its own `unsafe` marker are kept, its first
/// `cxx_name` attribute is gone, and the attribute in front names the
/// wrapper.
pub proof fn lemma_inherited_declaration(method: ParsedInheritedMethod, block: BlockModel)
    requires
        is_inherited_block(block, method),
    ensures
        block.method.ident == method.method@.ident,
        block.method.signature == method.method@.signature,
        block.method.unsafety == method.method.unsafety,
        block.method.attrs.len() == method.method@.without_attribute("cxx_name"@).attrs.len() + 1,
        block.method.attrs.skip(1) == method.method@.without_attribute("cxx_name"@).attrs,
        sets_name_value(
            block.method.attrs[0],
            "cxx_name"@,
            inherit_wrapper_name(method.ident@.cpp),
        ),
{
    let literal = choose|literal: Seq<char>| block == #[trigger] inherited_model(method, literal);
    let stripped = method.method@.without_attribute("cxx_name"@).attrs;
    let front = seq![
        name_value_model("cxx_name"@, inherit_wrapper_name(method.ident@.cpp), literal),
    ];
    assert((front + stripped).skip(1) =~= stripped);
}

} // verus!
