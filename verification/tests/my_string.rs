//! The unvalidated pair with dereferencing, default values, and
//! shared-ownership pointers.

use custom_slice::attrs::{Attr, AttrMeta, MetaLeaf, MetaNode};
use custom_slice::defs::{Definitions, Fields, File, Item, StructItem, UnnamedField};

fn cs(nodes: Vec<MetaNode>) -> Attr {
    Attr {
        meta: Some(AttrMeta::List("custom_slice".to_string(), nodes)),
        text: String::new(),
    }
}

fn w(name: &str) -> MetaNode {
    MetaNode::Word(name.to_string())
}

fn nv(key: &str, value: &str) -> MetaNode {
    MetaNode::NameValue(key.to_string(), value.to_string())
}

fn derives(names: &[&str]) -> MetaNode {
    MetaNode::List(
        "derive".to_string(),
        names.iter().map(|n| MetaLeaf::Word(n.to_string())).collect(),
    )
}

fn repr_transparent() -> Attr {
    Attr {
        meta: Some(AttrMeta::List(
            "repr".to_string(),
            vec![MetaNode::Word("transparent".to_string())],
        )),
        text: "#[repr(transparent)]".to_string(),
    }
}

fn tuple_struct(attrs: Vec<Attr>, ident: &str, ty: &str) -> Item {
    Item::Struct(StructItem {
        attrs,
        vis: "pub".to_string(),
        ident: ident.to_string(),
        fields: Fields::Unnamed(vec![UnnamedField { ty: ty.to_string() }]),
    })
}

/// The owned constructor's prefix carries its own doc comment, as the
/// declaration writes it across several lines.
const NEW_PREFIX: &str = "\n        /// Creates a new string.\n        pub fn new\n    ";

fn scenario() -> File {
    File {
        items: vec![
            tuple_struct(
                vec![
                    Attr {
                        meta: Some(AttrMeta::List(
                            "derive".to_string(),
                            vec![MetaNode::Word("Default".to_string())],
                        )),
                        text: "#[derive(Default)]".to_string(),
                    },
                    cs(vec![w("owned")]),
                    cs(vec![derives(&["Deref", "DerefMut"])]),
                    cs(vec![nv("new_unchecked", NEW_PREFIX)]),
                ],
                "MyString",
                "String",
            ),
            tuple_struct(
                vec![
                    repr_transparent(),
                    cs(vec![w("slice")]),
                    cs(vec![derives(
                        &["DefaultRef", "DefaultRefMut", "DefaultBox", "IntoArc", "IntoBox", "IntoRc"],
                    )]),
                    cs(vec![nv("new_unchecked", "#[allow(dead_code)] pub fn new")]),
                    cs(vec![nv("new_unchecked_mut", "pub fn new_mut")]),
                ],
                "MyStr",
                "str",
            ),
        ],
    }
}

fn generate() -> String {
    let defs = Definitions::from_file(scenario()).unwrap_or_else(|e| panic!("{}", e.message()));
    defs.generate().unwrap_or_else(|e| panic!("{}", e.message()))
}

// A transcription of the owned role's generated constructor.
pub struct MyString(String);

impl MyString {
    pub fn new(_v: String) -> Self {
        MyString { 0: _v }
    }
}

#[test]
fn my_string_new() {
    let out = generate();
    // The doc-commented prefix is kept verbatim and completed into the
    // unchecked constructor.
    let mut expected = String::from(NEW_PREFIX);
    expected.push_str("(_v: String) -> Self { MyString { 0: _v } }");
    assert!(out.contains(&expected));
    let _: MyString = MyString::new("Hello".to_owned());
}

#[test]
fn my_string_new_mut() {
    let out = generate();
    assert!(out.contains(
        "pub fn new_mut(_v: &mut str) -> &mut MyStr { \
         unsafe { &mut *(_v as *mut str as *mut MyStr) } }"
    ));
    assert!(out.contains(
        "#[allow(dead_code)] pub fn new(_v: &str) -> &MyStr { \
         unsafe { &*(_v as *const str as *const MyStr) } }"
    ));
    let hello = "Hello".to_owned();
    assert_eq!(hello, "Hello");
}

#[test]
fn my_string_borrow() {
    let out = generate();
    assert!(out.contains(
        "impl std::borrow::Borrow<MyStr> for MyString { fn borrow(&self) -> &MyStr { \
         unsafe { &*(<String as std::borrow::Borrow<str>>::borrow(&self.0) \
         as *const str as *const MyStr) } } }"
    ));
}

#[test]
fn my_string_default() {
    let out = generate();
    assert!(out.contains("#[derive(Default)]\npub struct MyString(String);"));
}

#[test]
fn my_string_deref() {
    let out = generate();
    assert!(out.contains(
        "impl std::ops::Deref for MyString { type Target = MyStr; \
         fn deref(&self) -> &Self::Target { unsafe { \
         &*(<String as std::ops::Deref>::deref(&self.0) as *const str as *const MyStr) } } }"
    ));
}

#[test]
fn my_string_deref_mut() {
    let out = generate();
    assert!(out.contains(
        "impl std::ops::DerefMut for MyString { \
         fn deref_mut(&mut self) -> &mut Self::Target { unsafe { \
         &mut *(<String as std::ops::DerefMut>::deref_mut(&mut self.0) \
         as *mut str as *mut MyStr) } } }"
    ));
}

#[test]
fn my_string_to_owned() {
    let out = generate();
    assert!(out.contains(
        "impl std::borrow::ToOwned for MyStr { type Owned = MyString; \
         fn to_owned(&self) -> Self::Owned { \
         MyString { 0: <str as std::borrow::ToOwned>::to_owned(&&self.0) } } }"
    ));
}

#[test]
fn my_string_default_ref() {
    let out = generate();
    assert!(out.contains(
        "impl std::default::Default for &MyStr { fn default() -> Self { \
         unsafe { &*(<&str as std::default::Default>::default() \
         as *const str as *const MyStr) } } }"
    ));
}

#[test]
fn default_ref_mut() {
    let out = generate();
    assert!(out.contains(
        "impl std::default::Default for &mut MyStr { fn default() -> Self { \
         unsafe { &mut *(<&mut str as std::default::Default>::default() \
         as *mut str as *mut MyStr) } } }"
    ));
}

#[test]
fn default_box() {
    let out = generate();
    assert!(out.contains(
        "impl std::default::Default for std::boxed::Box<MyStr> { fn default() -> Self { \
         unsafe { <std::boxed::Box<MyStr>>::from_raw(\
         <std::boxed::Box<str>>::into_raw(\
         <std::boxed::Box<str> as std::default::Default>::default()) as *mut MyStr) } } }"
    ));
}

#[test]
fn into_arc() {
    let out = generate();
    assert!(out.contains(
        "impl std::convert::From<&MyStr> for std::sync::Arc<MyStr> { fn from(_v: &MyStr) -> Self { \
         unsafe { <std::sync::Arc<MyStr>>::from_raw(\
         <std::sync::Arc<str>>::into_raw(<std::sync::Arc<str>>::from(&_v.0)) as *mut MyStr) } } }"
    ));
}

#[test]
fn into_box() {
    let out = generate();
    assert!(out.contains(
        "impl std::convert::From<&MyStr> for std::boxed::Box<MyStr> { fn from(_v: &MyStr) -> Self { \
         unsafe { <std::boxed::Box<MyStr>>::from_raw(\
         <std::boxed::Box<str>>::into_raw(<std::boxed::Box<str>>::from(&_v.0)) as *mut MyStr) } } }"
    ));
}

#[test]
fn into_rc() {
    let out = generate();
    assert!(out.contains(
        "impl std::convert::From<&MyStr> for std::rc::Rc<MyStr> { fn from(_v: &MyStr) -> Self { \
         unsafe { <std::rc::Rc<MyStr>>::from_raw(\
         <std::rc::Rc<str>>::into_raw(<std::rc::Rc<str>>::from(&_v.0)) as *mut MyStr) } } }"
    ));
}
