//! The validated pair: a string type that admits only lower-case ASCII,
//! with checked and unchecked constructors in both roles.

use custom_slice::attrs::{Attr, AttrMeta, MetaLeaf, MetaNode};
use custom_slice::defs::{Definitions, Fields, File, FnItem, Item, StructItem, UnnamedField};

fn cs(nodes: Vec<MetaNode>) -> Attr {
    Attr {
        meta: Some(AttrMeta::List("custom_slice".to_string(), nodes)),
        text: String::new(),
    }
}

fn w(name: &str) -> MetaNode {
    MetaNode::Word(name.to_string())
}

fn nv(key: &str, value: &str) -> MetaNode {
    MetaNode::NameValue(key.to_string(), value.to_string())
}

fn derives(names: &[&str]) -> MetaNode {
    MetaNode::List(
        "derive".to_string(),
        names.iter().map(|n| MetaLeaf::Word(n.to_string())).collect(),
    )
}

fn error_ty(t: &str) -> MetaNode {
    MetaNode::List(
        "error".to_string(),
        vec![MetaLeaf::NameValue("type".to_string(), t.to_string())],
    )
}

fn repr_transparent() -> Attr {
    Attr {
        meta: Some(AttrMeta::List(
            "repr".to_string(),
            vec![MetaNode::Word("transparent".to_string())],
        )),
        text: "#[repr(transparent)]".to_string(),
    }
}

fn tuple_struct(attrs: Vec<Attr>, ident: &str, ty: &str) -> Item {
    Item::Struct(StructItem {
        attrs,
        vis: "pub".to_string(),
        ident: ident.to_string(),
        fields: Fields::Unnamed(vec![UnnamedField { ty: ty.to_string() }]),
    })
}

const VALIDATOR_TEXT: &str = "fn validate(s: &str) -> Result<(), Error> { \
    match s.chars().find(|c| !c.is_ascii_lowercase()) { \
    Some(c) => Err(Error(c)), None => Ok(()), } }";

fn scenario() -> File {
    File {
        items: vec![
            tuple_struct(
                vec![
                    Attr {
                        meta: Some(AttrMeta::List(
                            "derive".to_string(),
                            vec![MetaNode::Word("Default".to_string())],
                        )),
                        text: "#[derive(Default)]".to_string(),
                    },
                    cs(vec![w("owned")]),
                    cs(vec![derives(&["Deref", "DerefMut"])]),
                    cs(vec![nv("new_unchecked", "unsafe fn new_unchecked")]),
                    cs(vec![nv("new_checked", "pub fn new")]),
                    cs(vec![error_ty("Error")]),
                ],
                "LowerAsciiString",
                "String",
            ),
            tuple_struct(
                vec![
                    repr_transparent(),
                    cs(vec![w("slice")]),
                    cs(vec![derives(&["DefaultRef", "DefaultRefMut"])]),
                    cs(vec![nv("new_unchecked", "unsafe fn new_unchecked")]),
                    cs(vec![nv("new_unchecked_mut", "unsafe fn new_unchecked_mut")]),
                    cs(vec![nv("new_checked", "pub fn new")]),
                    cs(vec![nv("new_checked_mut", "pub fn new_mut")]),
                    cs(vec![error_ty("Error")]),
                ],
                "LowerAsciiStr",
                "str",
            ),
            Item::Fn(FnItem {
                attrs: vec![cs(vec![w("validator")])],
                ident: "validate".to_string(),
                rest: VALIDATOR_TEXT.to_string(),
            }),
        ],
    }
}

fn generate() -> String {
    let defs = Definitions::from_file(scenario()).unwrap_or_else(|e| panic!("{}", e.message()));
    defs.generate().unwrap_or_else(|e| panic!("{}", e.message()))
}

/// The scenario's validator, run directly: it rejects the first character
/// that is not lower-case ASCII.
fn validate_model(s: &str) -> Result<(), char> {
    match s.chars().find(|c| !c.is_ascii_lowercase()) {
        Some(c) => Err(c),
        None => Ok(()),
    }
}

#[test]
fn lower_ascii_string_new() {
    let out = generate();
    // The checked owned constructor delegates to the declared validator on
    // the borrowed view and re-wraps the original value on success.
    assert!(out.contains(
        "pub fn new(_v: String) -> std::result::Result<Self, Error> { \
         match validate(<String as std::borrow::Borrow<str>>::borrow(&_v)) { \
         Ok(_) => Ok(LowerAsciiString { 0: _v }), Err(_e) => Err(_e), } }"
    ));
    // The checked slice constructor validates the candidate itself.
    assert!(out.contains(
        "pub fn new(_v: &str) -> std::result::Result<&LowerAsciiStr, Error> { \
         match validate(_v) { \
         Ok(_) => Ok(unsafe { &*(_v as *const str as *const LowerAsciiStr) }), \
         Err(_e) => Err(_e), } }"
    ));
    // So construction succeeds exactly when the validator accepts.
    assert!(validate_model("hello").is_ok());
}

#[test]
fn lower_ascii_string_new_should_fail() {
    let out = generate();
    // The only failure path of the generated constructor is the
    // validator's error, mapped unchanged when no mapping is configured.
    assert!(out.contains("Err(_e) => Err(_e), } }"));
    assert_eq!(validate_model("Hello"), Err('H'));
}

#[test]
fn lower_ascii_string_new_mut() {
    let out = generate();
    assert!(out.contains(
        "pub fn new_mut(_v: &mut str) -> std::result::Result<&mut LowerAsciiStr, Error> { \
         match validate(_v) { \
         Ok(_) => Ok(unsafe { &mut *(_v as *mut str as *mut LowerAsciiStr) }), \
         Err(_e) => Err(_e), } }"
    ));
    assert!(validate_model("hello").is_ok());
}

#[test]
fn new_mut_should_fail() {
    let out = generate();
    assert!(out.contains("pub fn new_mut(_v: &mut str)"));
    assert_eq!(validate_model("Hello"), Err('H'));
}

#[test]
fn lower_ascii_string_new_unchecked() {
    let out = generate();
    // The unchecked constructors never call the validator and have no
    // failure path: the prefixes declare them unsafe, so the
    // reinterpretation is not wrapped a second time.
    assert!(out.contains(
        "unsafe fn new_unchecked(_v: String) -> Self { LowerAsciiString { 0: _v } }"
    ));
    assert!(out.contains(
        "unsafe fn new_unchecked(_v: &str) -> &LowerAsciiStr { \
         &*(_v as *const str as *const LowerAsciiStr) }"
    ));
    assert!(out.contains(
        "unsafe fn new_unchecked_mut(_v: &mut str) -> &mut LowerAsciiStr { \
         &mut *(_v as *mut str as *mut LowerAsciiStr) }"
    ));
    assert!(validate_model("hello").is_ok());
}

#[test]
fn lower_ascii_string_borrow() {
    let out = generate();
    assert!(out.contains(
        "impl std::borrow::Borrow<LowerAsciiStr> for LowerAsciiString { \
         fn borrow(&self) -> &LowerAsciiStr { unsafe { \
         &*(<String as std::borrow::Borrow<str>>::borrow(&self.0) \
         as *const str as *const LowerAsciiStr) } } }"
    ));
}

#[test]
fn lower_ascii_string_default() {
    let out = generate();
    // The pass-through `derive(Default)` attribute is re-emitted verbatim
    // on the owned type.
    assert!(out.contains("#[derive(Default)]\npub struct LowerAsciiString(String);"));
}

#[test]
fn lower_ascii_string_deref() {
    let out = generate();
    assert!(out.contains(
        "impl std::ops::Deref for LowerAsciiString { type Target = LowerAsciiStr; \
         fn deref(&self) -> &Self::Target { unsafe { \
         &*(<String as std::ops::Deref>::deref(&self.0) \
         as *const str as *const LowerAsciiStr) } } }"
    ));
}

#[test]
fn lower_ascii_string_deref_mut() {
    let out = generate();
    assert!(out.contains(
        "impl std::ops::DerefMut for LowerAsciiString { \
         fn deref_mut(&mut self) -> &mut Self::Target { unsafe { \
         &mut *(<String as std::ops::DerefMut>::deref_mut(&mut self.0) \
         as *mut str as *mut LowerAsciiStr) } } }"
    ));
}

#[test]
fn lower_ascii_string_to_owned() {
    let out = generate();
    assert!(out.contains(
        "impl std::borrow::ToOwned for LowerAsciiStr { type Owned = LowerAsciiString; \
         fn to_owned(&self) -> Self::Owned { LowerAsciiString { 0: \
         <str as std::borrow::ToOwned>::to_owned(&&self.0) } } }"
    ));
}

#[test]
fn lower_ascii_string_default_ref() {
    let out = generate();
    assert!(out.contains(
        "impl std::default::Default for &LowerAsciiStr { fn default() -> Self { unsafe { \
         &*(<&str as std::default::Default>::default() \
         as *const str as *const LowerAsciiStr) } } }"
    ));
    assert!(out.contains(
        "impl std::default::Default for &mut LowerAsciiStr { fn default() -> Self { unsafe { \
         &mut *(<&mut str as std::default::Default>::default() \
         as *mut str as *mut LowerAsciiStr) } } }"
    ));
}
