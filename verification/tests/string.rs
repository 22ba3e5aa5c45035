//! The smallest pair: unchecked constructors and default values only.

use custom_slice::attrs::{Attr, AttrMeta, MetaLeaf, MetaNode};
use custom_slice::defs::{Definitions, Fields, File, Item, StructItem, UnnamedField};

fn cs(nodes: Vec<MetaNode>) -> Attr {
    Attr {
        meta: Some(AttrMeta::List("custom_slice".to_string(), nodes)),
        text: String::new(),
    }
}

fn w(name: &str) -> MetaNode {
    MetaNode::Word(name.to_string())
}

fn nv(key: &str, value: &str) -> MetaNode {
    MetaNode::NameValue(key.to_string(), value.to_string())
}

fn repr_transparent() -> Attr {
    Attr {
        meta: Some(AttrMeta::List(
            "repr".to_string(),
            vec![MetaNode::Word("transparent".to_string())],
        )),
        text: "#[repr(transparent)]".to_string(),
    }
}

fn scenario() -> File {
    File {
        items: vec![
            Item::Struct(StructItem {
                attrs: vec![
                    cs(vec![w("owned")]),
                    Attr {
                        meta: Some(AttrMeta::List(
                            "derive".to_string(),
                            vec![MetaNode::Word("Default".to_string())],
                        )),
                        text: "#[derive(Default)]".to_string(),
                    },
                    cs(vec![nv("new_unchecked", "pub fn new")]),
                ],
                vis: "pub".to_string(),
                ident: "MyString".to_string(),
                fields: Fields::Unnamed(vec![UnnamedField { ty: "String".to_string() }]),
            }),
            Item::Struct(StructItem {
                attrs: vec![
                    cs(vec![w("slice")]),
                    cs(vec![MetaNode::List(
                        "derive".to_string(),
                        vec![MetaLeaf::Word("Default".to_string())],
                    )]),
                    repr_transparent(),
                    cs(vec![nv("new_unchecked", "pub fn new")]),
                    cs(vec![nv("new_unchecked_mut", "pub fn new_mut")]),
                ],
                vis: "pub".to_string(),
                ident: "MyStr".to_string(),
                fields: Fields::Unnamed(vec![UnnamedField { ty: "str".to_string() }]),
            }),
        ],
    }
}

fn generate() -> String {
    let defs = Definitions::from_file(scenario()).unwrap_or_else(|e| panic!("{}", e.message()));
    defs.generate().unwrap_or_else(|e| panic!("{}", e.message()))
}

// A transcription of the owned role's generated constructor.
pub struct MyString(String);

impl MyString {
    pub fn new(_v: String) -> Self {
        MyString { 0: _v }
    }
}

#[test]
fn string_default() {
    let out = generate();
    // The slice role's `Default` target yields the default slice reference.
    assert!(out.contains(
        "impl std::default::Default for &MyStr { fn default() -> Self { \
         unsafe { &*(<&str as std::default::Default>::default() \
         as *const str as *const MyStr) } } }"
    ));
    // The owned role's pass-through `derive(Default)` is re-emitted.
    assert!(out.contains("#[derive(Default)]\npub struct MyString(String);"));
}

#[test]
fn string_new() {
    let out = generate();
    assert!(out.contains("pub fn new(_v: String) -> Self { MyString { 0: _v } }"));
    assert!(out.contains(
        "pub fn new(_v: &str) -> &MyStr { unsafe { &*(_v as *const str as *const MyStr) } }"
    ));
    assert!(out.contains(
        "pub fn new_mut(_v: &mut str) -> &mut MyStr { \
         unsafe { &mut *(_v as *mut str as *mut MyStr) } }"
    ));
    let _: MyString = MyString::new("Hello".to_owned());
}

#[test]
fn borrow_and_to_owned() {
    let out = generate();
    // `Borrow` for the owned type and `ToOwned` for the slice type are
    // always generated, so the borrow / to_owned round trip holds with no
    // derive target at all.
    assert!(out.contains("impl std::borrow::Borrow<MyStr> for MyString"));
    assert!(out.contains(
        "impl std::borrow::ToOwned for MyStr { type Owned = MyString; \
         fn to_owned(&self) -> Self::Owned { \
         MyString { 0: <str as std::borrow::ToOwned>::to_owned(&&self.0) } } }"
    ));
}
