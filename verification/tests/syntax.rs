use cxx_qt_gen::syntax::{
    attribute_find_path, attribute_take_path, clone_attributes, Attribute, AttributeValue,
    MethodDecl,
};

fn word(path: &str) -> Attribute {
    Attribute {
        path: path.to_string(),
        value: AttributeValue::Missing,
        tokens: format!("#[{}]", path),
    }
}

#[test]
fn find_path_gives_the_first_match() {
    let attrs = vec![word("a"), word("b"), word("a"), word("c")];
    assert_eq!(attribute_find_path(&attrs, "a"), Some(0));
    assert_eq!(attribute_find_path(&attrs, "b"), Some(1));
    assert_eq!(attribute_find_path(&attrs, "c"), Some(3));
    assert_eq!(attribute_find_path(&attrs, "d"), None);
    assert_eq!(attribute_find_path(&[], "a"), None);
}

#[test]
fn find_path_compares_whole_paths() {
    let attrs = vec![word("cxx_name_extra"), word("cxx"), word("cxx_qt::inherit")];
    assert_eq!(attribute_find_path(&attrs, "cxx_name"), None);
    assert_eq!(attribute_find_path(&attrs, "inherit"), None);
    assert_eq!(attribute_find_path(&attrs, "cxx_qt::inherit"), Some(2));
}

#[test]
fn take_path_removes_the_first_match_only() {
    let mut attrs = vec![word("a"), word("b"), word("a"), word("c")];
    let taken = attribute_take_path(&mut attrs, "a");
    assert_eq!(taken, Some(word("a")));
    assert_eq!(attrs, vec![word("b"), word("a"), word("c")]);

    let taken = attribute_take_path(&mut attrs, "missing");
    assert_eq!(taken, None);
    assert_eq!(attrs, vec![word("b"), word("a"), word("c")]);
}

#[test]
fn name_value_attribute_is_written_with_a_literal() {
    let attribute = Attribute::name_value("cxx_name", "myWrapper");
    assert_eq!(attribute.path, "cxx_name");
    assert_eq!(attribute.value, AttributeValue::Literal("myWrapper".to_string()));
    assert_eq!(attribute.tokens, "#[cxx_name = \"myWrapper\"]");
}

#[test]
fn name_value_attribute_escapes_its_value() {
    let attribute = Attribute::name_value("cxx_name", "a\"b\\c");
    assert_eq!(attribute.value, AttributeValue::Literal("a\"b\\c".to_string()));
    assert_eq!(attribute.tokens, "#[cxx_name = \"a\\\"b\\\\c\"]");
}

#[test]
fn with_literal_places_the_literal_as_given() {
    let attribute = Attribute::with_literal("rust_name", "value", "\"value\"");
    assert_eq!(attribute.path, "rust_name");
    assert_eq!(attribute.value, AttributeValue::Literal("value".to_string()));
    assert_eq!(attribute.tokens, "#[rust_name = \"value\"]");
}

#[test]
fn doc_hidden_attribute() {
    let attribute = Attribute::doc_hidden();
    assert_eq!(attribute.path, "doc");
    assert_eq!(attribute.value, AttributeValue::Other);
    assert_eq!(attribute.tokens, "#[doc(hidden)]");
}

#[test]
fn declaration_tokens() {
    let method = MethodDecl {
        attrs: vec![],
        unsafety: false,
        ident: "test".to_string(),
        signature: "(self: &MyObject, a: B) -> C".to_string(),
    };
    assert_eq!(method.to_tokens(), "fn test(self: &MyObject, a: B) -> C;");

    let method = MethodDecl {
        attrs: vec![word("inline"), Attribute::name_value("cxx_name", "other")],
        unsafety: true,
        ident: "test".to_string(),
        signature: "(self: &MyObject)".to_string(),
    };
    assert_eq!(
        method.to_tokens(),
        "#[inline] #[cxx_name = \"other\"] unsafe fn test(self: &MyObject);"
    );
}

#[test]
fn without_attribute_copies_the_rest() {
    let method = MethodDecl {
        attrs: vec![
            word("inline"),
            Attribute::name_value("cxx_name", "first"),
            Attribute::name_value("cxx_name", "second"),
        ],
        unsafety: true,
        ident: "test".to_string(),
        signature: "(self: &MyObject)".to_string(),
    };
    let stripped = method.without_attribute("cxx_name");
    assert_eq!(
        stripped.attrs,
        vec![word("inline"), Attribute::name_value("cxx_name", "second")]
    );
    assert!(stripped.unsafety);
    assert_eq!(stripped.ident, "test");
    assert_eq!(stripped.signature, "(self: &MyObject)");
    assert_eq!(method.attrs.len(), 3);

    let untouched = method.without_attribute("rust_name");
    assert_eq!(untouched, method);
}

#[test]
fn attributes_in_front_keep_their_order() {
    let method = MethodDecl {
        attrs: vec![word("c")],
        unsafety: false,
        ident: "test".to_string(),
        signature: "()".to_string(),
    };
    let extended = method.with_attributes_in_front(vec![word("a"), word("b")]);
    assert_eq!(extended.attrs, vec![word("a"), word("b"), word("c")]);
    assert_eq!(extended.to_tokens(), "#[a] #[b] #[c] fn test();");
}

#[test]
fn clones_are_equal() {
    let attrs = vec![word("a"), Attribute::name_value("b", "c"), Attribute::doc_hidden()];
    assert_eq!(clone_attributes(&attrs), attrs);
    let method = MethodDecl {
        attrs,
        unsafety: true,
        ident: "test".to_string(),
        signature: "(self: &MyObject)".to_string(),
    };
    assert_eq!(method.clone(), method);
}
