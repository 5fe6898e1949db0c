use cxx_qt_gen::fragment::{embed, embedded, BridgeBlock, Region, SyntaxError};
use cxx_qt_gen::method::{generate_rust_methods, invokable_block};
use cxx_qt_gen::parser::{ParsedFunctionParameter, ParsedMethod, ParsedQInvokableSpecifiers};
use cxx_qt_gen::syntax::{Attribute, MethodDecl};
use quote::ToTokens;
use std::collections::HashSet;

fn tokens_of_item(source: &str) -> String {
    syn::parse_str::<syn::Item>(source)
        .unwrap()
        .to_token_stream()
        .to_string()
}

fn invokable(
    unsafety: bool,
    ident: &str,
    signature: &str,
    mutable: bool,
    parameters: Vec<ParsedFunctionParameter>,
) -> ParsedMethod {
    ParsedMethod {
        method: MethodDecl {
            attrs: vec![],
            unsafety,
            ident: ident.to_string(),
            signature: signature.to_string(),
        },
        qobject_ident: "MyObject".to_string(),
        mutable,
        safe: !unsafety,
        parameters,
        specifiers: HashSet::new(),
        is_qinvokable: true,
    }
}

fn param(ty: &str) -> Vec<ParsedFunctionParameter> {
    vec![ParsedFunctionParameter { ident: "param".to_string(), ty: ty.to_string() }]
}

#[test]
fn test_generate_rust_invokables() {
    let invokables = vec![
        invokable(false, "void_invokable", "(self: &MyObject)", false, vec![]),
        invokable(
            false,
            "trivial_invokable",
            "(self: &MyObject, param: i32) -> i32",
            false,
            param("i32"),
        ),
        invokable(
            false,
            "opaque_invokable",
            "(self: Pin<&mut MyObject>, param: &QColor) -> UniquePtr<QColor>",
            true,
            param("&QColor"),
        ),
        invokable(
            true,
            "unsafe_invokable",
            "(self: &MyObject, param: *mut T) -> *mut T",
            false,
            param("*mut T"),
        ),
    ];

    let generated = generate_rust_methods(&invokables).unwrap();

    assert_eq!(generated.cxx_mod_contents.len(), 4);
    assert_eq!(generated.cxx_qt_mod_contents.len(), 0);

    // void_invokable
    assert_eq!(
        tokens_of_item(&generated.cxx_mod_contents[0].to_tokens()),
        tokens_of_item(
            "extern \"Rust\" {
                #[doc(hidden)]
                #[cxx_name = \"voidInvokableWrapper\"]
                fn void_invokable(self: &MyObject);
            }"
        ),
    );

    // trivial_invokable
    assert_eq!(
        tokens_of_item(&generated.cxx_mod_contents[1].to_tokens()),
        tokens_of_item(
            "extern \"Rust\" {
                #[doc(hidden)]
                #[cxx_name = \"trivialInvokableWrapper\"]
                fn trivial_invokable(self: &MyObject, param: i32) -> i32;
            }"
        ),
    );

    // opaque_invokable
    assert_eq!(
        tokens_of_item(&generated.cxx_mod_contents[2].to_tokens()),
        tokens_of_item(
            "extern \"Rust\" {
                #[doc(hidden)]
                #[cxx_name = \"opaqueInvokableWrapper\"]
                fn opaque_invokable(self: Pin<&mut MyObject>, param: &QColor) -> UniquePtr<QColor>;
            }"
        ),
    );

    // unsafe_invokable
    assert_eq!(
        tokens_of_item(&generated.cxx_mod_contents[3].to_tokens()),
        tokens_of_item(
            "extern \"Rust\" {
                #[doc(hidden)]
                #[cxx_name = \"unsafeInvokableWrapper\"]
                unsafe fn unsafe_invokable(self:&MyObject, param: *mut T) -> *mut T;
            }"
        ),
    );
}

#[test]
fn invokable_block_text_is_exact() {
    let method = invokable(false, "void_invokable", "(self: &MyObject)", false, vec![]);
    assert_eq!(
        invokable_block(&method).to_tokens(),
        "extern \"Rust\" { #[doc(hidden)] #[cxx_name = \"voidInvokableWrapper\"] \
         fn void_invokable(self: &MyObject); }"
    );
}

#[test]
fn invokable_blocks_are_rust_blocks() {
    let methods = vec![
        invokable(false, "one", "(self: &MyObject)", false, vec![]),
        invokable(true, "two", "(self: &MyObject)", false, vec![]),
    ];
    let generated = generate_rust_methods(&methods).unwrap();
    for block in &generated.cxx_mod_contents {
        assert_eq!(block.region, Region::Rust);
        assert!(!block.unsafety);
        assert!(block.to_tokens().starts_with("extern \"Rust\" {"));
    }
    assert!(!generated.cxx_mod_contents[0].method.unsafety);
    assert!(generated.cxx_mod_contents[1].method.unsafety);
}

#[test]
fn invokable_wrapper_follows_the_resolved_name() {
    let mut method = invokable(false, "my_method", "(self: &MyObject)", false, vec![]);
    method.method.attrs = vec![
        Attribute::name_value("cxx_name", "renamed"),
        Attribute::name_value("rust_name", "my_method_rust"),
    ];
    let block = invokable_block(&method);
    assert_eq!(
        block.to_tokens(),
        "extern \"Rust\" { #[doc(hidden)] #[cxx_name = \"renamedWrapper\"] \
         #[rust_name = \"my_method_rust\"] fn my_method(self: &MyObject); }"
    );
    assert_eq!(block.method.attrs.len(), 3);
    assert_eq!(method.method.attrs.len(), 2);
}

#[test]
fn end_to_end_mixed_case_declaration() {
    let method = invokable(false, "Test_Function", "(self: &MyObject)", false, vec![]);
    let generated = generate_rust_methods(&vec![method]).unwrap();
    assert_eq!(
        generated.cxx_mod_contents[0].to_tokens(),
        "extern \"Rust\" { #[doc(hidden)] #[cxx_name = \"testFunctionWrapper\"] \
         fn Test_Function(self: &MyObject); }"
    );
}

#[test]
fn invokable_output_keeps_the_order_of_its_input() {
    let names = ["delta", "alpha", "charlie", "alpha", "bravo"];
    let methods: Vec<ParsedMethod> = names
        .iter()
        .map(|name| invokable(false, name, "(self: &MyObject)", false, vec![]))
        .collect();
    let generated = generate_rust_methods(&methods).unwrap();
    assert_eq!(generated.cxx_mod_contents.len(), names.len());
    assert_eq!(generated.cxx_qt_mod_contents.len(), 0);
    for (block, name) in generated.cxx_mod_contents.iter().zip(names.iter()) {
        assert_eq!(block.method.ident, *name);
    }
}

#[test]
fn no_invokables_no_blocks() {
    let generated = generate_rust_methods(&vec![]).unwrap();
    assert_eq!(generated.cxx_mod_contents.len(), 0);
    assert_eq!(generated.cxx_qt_mod_contents.len(), 0);
}

#[test]
fn unreadable_invokable_aborts_generation() {
    let methods = vec![
        invokable(false, "one", "(self: &MyObject)", false, vec![]),
        invokable(false, "two", "(self: &MyObject)", false, vec![]),
        invokable(false, "three", "(self: &MyObject) -> ", false, vec![]),
        invokable(false, "four", "(((", false, vec![]),
    ];
    assert_eq!(generate_rust_methods(&methods), Err(SyntaxError { declaration: 2 }));
}

#[test]
fn embed_keeps_what_parses() {
    let block = BridgeBlock {
        unsafety: true,
        region: Region::Cxx,
        method: MethodDecl {
            attrs: vec![],
            unsafety: false,
            ident: "test".to_string(),
            signature: "()".to_string(),
        },
    };
    let kept = embed(block, 7).unwrap();
    assert_eq!(kept.to_tokens(), "unsafe extern \"C++\" { fn test(); }");

    let block = BridgeBlock {
        unsafety: false,
        region: Region::Rust,
        method: MethodDecl {
            attrs: vec![],
            unsafety: false,
            ident: "not an identifier".to_string(),
            signature: "()".to_string(),
        },
    };
    assert_eq!(embed(block, 7), Err(SyntaxError { declaration: 7 }));
}

#[test]
fn embedded_goes_by_the_outcome_of_parsing() {
    let block = || BridgeBlock {
        unsafety: false,
        region: Region::Rust,
        method: MethodDecl {
            attrs: vec![],
            unsafety: false,
            ident: "test".to_string(),
            signature: "()".to_string(),
        },
    };
    let accepted = syn::parse_str::<syn::Item>("struct Unit;");
    assert_eq!(embedded(block(), 3, accepted), Ok(block()));
    let refused = syn::parse_str::<syn::Item>("struct");
    assert_eq!(embedded(block(), 3, refused), Err(SyntaxError { declaration: 3 }));
}

#[test]
fn specifiers_are_carried_along() {
    let mut method = invokable(false, "one", "(self: &MyObject)", false, vec![]);
    method.specifiers.insert(ParsedQInvokableSpecifiers::Final);
    method.specifiers.insert(ParsedQInvokableSpecifiers::Final);
    method.specifiers.insert(ParsedQInvokableSpecifiers::Virtual);
    assert_eq!(method.specifiers.len(), 2);
    let generated = generate_rust_methods(&vec![method]).unwrap();
    assert_eq!(generated.cxx_mod_contents.len(), 1);
}
