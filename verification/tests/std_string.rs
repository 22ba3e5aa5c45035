//! A pair modelled on the standard string types: byte buffers validated as
//! UTF-8, with a configured error-mapping template on the owned role.

use custom_slice::attrs::{Attr, AttrMeta, MetaLeaf, MetaNode};
use custom_slice::defs::{Definitions, Fields, File, FnItem, Item, StructItem, UnnamedField};

fn cs(nodes: Vec<MetaNode>) -> Attr {
    Attr {
        meta: Some(AttrMeta::List("custom_slice".to_string(), nodes)),
        text: String::new(),
    }
}

fn w(name: &str) -> MetaNode {
    MetaNode::Word(name.to_string())
}

fn nv(key: &str, value: &str) -> MetaNode {
    MetaNode::NameValue(key.to_string(), value.to_string())
}

fn derives(names: &[&str]) -> MetaNode {
    MetaNode::List(
        "derive".to_string(),
        names.iter().map(|n| MetaLeaf::Word(n.to_string())).collect(),
    )
}

fn error_conf(ty: &str, map: Option<&str>) -> MetaNode {
    let mut leaves = vec![MetaLeaf::NameValue("type".to_string(), ty.to_string())];
    if let Some(m) = map {
        leaves.push(MetaLeaf::NameValue("map".to_string(), m.to_string()));
    }
    MetaNode::List("error".to_string(), leaves)
}

fn repr_transparent() -> Attr {
    Attr {
        meta: Some(AttrMeta::List(
            "repr".to_string(),
            vec![MetaNode::Word("transparent".to_string())],
        )),
        text: "#[repr(transparent)]".to_string(),
    }
}

fn tuple_struct(attrs: Vec<Attr>, ident: &str, ty: &str) -> Item {
    Item::Struct(StructItem {
        attrs,
        vis: "pub".to_string(),
        ident: ident.to_string(),
        fields: Fields::Unnamed(vec![UnnamedField { ty: ty.to_string() }]),
    })
}

fn scenario() -> File {
    File {
        items: vec![
            tuple_struct(
                vec![
                    Attr {
                        meta: Some(AttrMeta::List(
                            "derive".to_string(),
                            vec![MetaNode::Word("Default".to_string())],
                        )),
                        text: "#[derive(Default)]".to_string(),
                    },
                    cs(vec![w("owned")]),
                    cs(vec![derives(&["BorrowMut", "Deref", "DerefMut"])]),
                    cs(vec![nv("new_unchecked", "pub unsafe fn from_utf8_unchecked")]),
                    cs(vec![nv("new_checked", "pub fn from_utf8")]),
                    cs(vec![error_conf("FromUtf8Error", Some("FromUtf8Error::new"))]),
                ],
                "StdString",
                "Vec<u8>",
            ),
            tuple_struct(
                vec![
                    repr_transparent(),
                    cs(vec![w("slice")]),
                    cs(vec![derives(&["DefaultRef", "DefaultRefMut"])]),
                    cs(vec![nv("new_unchecked", "pub unsafe fn from_utf8_unchecked")]),
                    cs(vec![nv("new_unchecked_mut", "pub unsafe fn from_utf8_unchecked_mut")]),
                    cs(vec![nv("new_checked", "pub fn from_utf8")]),
                    cs(vec![nv("new_checked_mut", "pub fn from_utf8_mut")]),
                    cs(vec![error_conf("Utf8Error", None)]),
                ],
                "StdStr",
                "[u8]",
            ),
            Item::Fn(FnItem {
                attrs: vec![cs(vec![w("validator")])],
                ident: "validate".to_string(),
                rest: "fn validate(bytes: &[u8]) -> Result<(), Utf8Error> { \
                       match std::str::from_utf8(bytes) { Ok(_) => Ok(()), \
                       Err(e) => Err(Utf8Error::of(e)), } }"
                    .to_string(),
            }),
        ],
    }
}

fn generate() -> String {
    let defs = Definitions::from_file(scenario()).unwrap_or_else(|e| panic!("{}", e.message()));
    defs.generate().unwrap_or_else(|e| panic!("{}", e.message()))
}

/// The scenario's validation, run directly: the bytes must be UTF-8.
fn validate_model(bytes: &[u8]) -> bool {
    std::str::from_utf8(bytes).is_ok()
}

#[test]
fn std_string_new_checked() {
    let out = generate();
    // The owned checked constructor validates the borrowed byte view and
    // maps a failure through the configured template, which receives both
    // the error and the original input.
    assert!(out.contains(
        "pub fn from_utf8(_v: Vec<u8>) -> std::result::Result<Self, FromUtf8Error> { \
         match validate(<Vec<u8> as std::borrow::Borrow<[u8]>>::borrow(&_v)) { \
         Ok(_) => Ok(StdString { 0: _v }), \
         Err(_e) => Err(FromUtf8Error::new(_e, _v)), } }"
    ));
    assert!(validate_model(b"Hello"));
}

#[test]
fn std_string_new_checked_mut() {
    let out = generate();
    // The slice role has no mapping template, so the raw error is returned.
    assert!(out.contains(
        "pub fn from_utf8_mut(_v: &mut [u8]) -> std::result::Result<&mut StdStr, Utf8Error> { \
         match validate(_v) { \
         Ok(_) => Ok(unsafe { &mut *(_v as *mut [u8] as *mut StdStr) }), \
         Err(_e) => Err(_e), } }"
    ));
    assert!(validate_model(b"Hello"));
}

#[test]
fn std_string_new_unchecked() {
    let out = generate();
    // The prefixes declare the functions unsafe, so the reinterpretation
    // stands bare, not wrapped in a second unsafe block.
    assert!(out.contains(
        "pub unsafe fn from_utf8_unchecked(_v: Vec<u8>) -> Self { StdString { 0: _v } }"
    ));
    assert!(out.contains(
        "pub unsafe fn from_utf8_unchecked(_v: &[u8]) -> &StdStr { \
         &*(_v as *const [u8] as *const StdStr) }"
    ));
    let _ = b"Hello";
}

#[test]
fn new_unchecked_mut() {
    let out = generate();
    assert!(out.contains(
        "pub unsafe fn from_utf8_unchecked_mut(_v: &mut [u8]) -> &mut StdStr { \
         &mut *(_v as *mut [u8] as *mut StdStr) }"
    ));
    let _ = b"Hello";
}
