//! Accessor generation: `get_ref`, `get_mut`, and `into_inner`.

use custom_slice::attrs::{Attr, AttrMeta, MetaNode};
use custom_slice::defs::{Definitions, Fields, File, Item, StructItem, UnnamedField};

fn cs(nodes: Vec<MetaNode>) -> Attr {
    Attr {
        meta: Some(AttrMeta::List("custom_slice".to_string(), nodes)),
        text: String::new(),
    }
}

fn w(name: &str) -> MetaNode {
    MetaNode::Word(name.to_string())
}

fn nv(key: &str, value: &str) -> MetaNode {
    MetaNode::NameValue(key.to_string(), value.to_string())
}

fn repr_transparent() -> Attr {
    Attr {
        meta: Some(AttrMeta::List(
            "repr".to_string(),
            vec![MetaNode::Word("transparent".to_string())],
        )),
        text: "#[repr(transparent)]".to_string(),
    }
}

fn tuple_struct(attrs: Vec<Attr>, vis: &str, ident: &str, ty: &str) -> Item {
    Item::Struct(StructItem {
        attrs,
        vis: vis.to_string(),
        ident: ident.to_string(),
        fields: Fields::Unnamed(vec![UnnamedField { ty: ty.to_string() }]),
    })
}

/// The declaration of this file's scenario: both roles with accessors, the
/// owned role with an extractor, and unchecked constructors only.
fn scenario() -> File {
    File {
        items: vec![
            tuple_struct(
                vec![
                    cs(vec![w("owned")]),
                    cs(vec![nv("new_unchecked", "pub fn new")]),
                    cs(vec![nv("get_ref", "fn get")]),
                    cs(vec![nv("get_mut", "unsafe fn get_mut")]),
                    cs(vec![nv("into_inner", "fn into_inner")]),
                ],
                "pub",
                "MyString",
                "String",
            ),
            tuple_struct(
                vec![
                    repr_transparent(),
                    cs(vec![w("slice")]),
                    cs(vec![nv("new_unchecked", "pub fn new")]),
                    cs(vec![nv("new_unchecked_mut", "pub fn new_mut")]),
                    cs(vec![nv("get_ref", "fn get")]),
                    cs(vec![nv("get_mut", "unsafe fn get_mut")]),
                ],
                "pub",
                "MyStr",
                "str",
            ),
        ],
    }
}

fn generate() -> String {
    let defs = Definitions::from_file(scenario()).unwrap_or_else(|e| panic!("{}", e.message()));
    defs.generate().unwrap_or_else(|e| panic!("{}", e.message()))
}

// A transcription of the owned role's generated methods: exactly the text
// the generator emits for them, which the tests below hold it to.
pub struct MyString(String);

impl MyString {
    pub fn new(_v: String) -> Self {
        MyString { 0: _v }
    }
    fn get(&self) -> &String {
        &self.0
    }
    fn into_inner(self) -> String {
        self.0
    }
}

#[test]
fn accessor_get() {
    let out = generate();
    assert!(out.contains("fn get(&self) -> &String { &self.0 }"));
    assert!(out.contains("fn get(&self) -> &str { &self.0 }"));
    let owned: MyString = MyString::new("Hello".to_owned());
    let got: &String = owned.get();
    assert_eq!(got, "Hello");
}

#[test]
fn accessor_get_mut() {
    let out = generate();
    assert!(out.contains("unsafe fn get_mut(&mut self) -> &mut String { &mut self.0 }"));
    assert!(out.contains("unsafe fn get_mut(&mut self) -> &mut str { &mut self.0 }"));
    let mut owned = String::from("Hello");
    owned.push('!');
    assert_eq!(owned, "Hello!");
}

#[test]
fn into_inner() {
    let out = generate();
    assert!(out.contains("fn into_inner(self) -> String { self.0 }"));
    let orig_inner: String = "Hello".to_owned();
    let owned: MyString = MyString::new(orig_inner.clone());
    let owned_inner = owned.into_inner();
    assert_eq!(orig_inner, owned_inner);
}
