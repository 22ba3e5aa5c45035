//! The remaining interfaces of the derive catalogue: the as-view family,
//! the bulk comparisons, and the fallible and infallible inner
//! conversions.

use custom_slice::attrs::{Attr, AttrMeta, MetaLeaf, MetaNode};
use custom_slice::defs::{
    Definitions, Fields, File, FnItem, GenError, Item, StructItem, UnnamedField,
};

fn cs(nodes: Vec<MetaNode>) -> Attr {
    Attr {
        meta: Some(AttrMeta::List("custom_slice".to_string(), nodes)),
        text: String::new(),
    }
}

fn w(name: &str) -> MetaNode {
    MetaNode::Word(name.to_string())
}

fn derives(names: &[&str]) -> MetaNode {
    MetaNode::List(
        "derive".to_string(),
        names.iter().map(|n| MetaLeaf::Word(n.to_string())).collect(),
    )
}

fn error_ty(t: &str) -> MetaNode {
    MetaNode::List(
        "error".to_string(),
        vec![MetaLeaf::NameValue("type".to_string(), t.to_string())],
    )
}

fn repr_transparent() -> Attr {
    Attr {
        meta: Some(AttrMeta::List(
            "repr".to_string(),
            vec![MetaNode::Word("transparent".to_string())],
        )),
        text: "#[repr(transparent)]".to_string(),
    }
}

fn pair(owned_extra: Vec<Attr>, slice_extra: Vec<Attr>, with_validator: bool) -> Vec<Item> {
    let mut owned_attrs = vec![cs(vec![w("owned")])];
    owned_attrs.extend(owned_extra);
    let mut slice_attrs = vec![repr_transparent(), cs(vec![w("slice")])];
    slice_attrs.extend(slice_extra);
    let mut items = vec![
        Item::Struct(StructItem {
            attrs: owned_attrs,
            vis: "pub".to_string(),
            ident: "MyString".to_string(),
            fields: Fields::Unnamed(vec![UnnamedField { ty: "String".to_string() }]),
        }),
        Item::Struct(StructItem {
            attrs: slice_attrs,
            vis: "pub".to_string(),
            ident: "MyStr".to_string(),
            fields: Fields::Unnamed(vec![UnnamedField { ty: "str".to_string() }]),
        }),
    ];
    if with_validator {
        items.push(Item::Fn(FnItem {
            attrs: vec![cs(vec![w("validator")])],
            ident: "validate".to_string(),
            rest: "fn validate(s: &str) -> Result<(), Error> { Ok(()) }".to_string(),
        }));
    }
    items
}

fn generate(items: Vec<Item>) -> Result<String, GenError> {
    Definitions::from_file(File { items })
        .unwrap_or_else(|e| panic!("{}", e.message()))
        .generate()
}

#[test]
fn as_view_family_on_the_owned_role() {
    let out = generate(pair(
        vec![cs(vec![derives(
            &["AsRefSlice", "AsRefSliceInner", "AsMutSlice", "AsMutSliceInner"],
        )])],
        vec![],
        false,
    ))
    .unwrap();
    assert!(out.contains(
        "impl std::convert::AsRef<MyStr> for MyString { fn as_ref(&self) -> &MyStr { \
         unsafe { &*(<String as std::convert::AsRef<str>>::as_ref(&self.0) \
         as *const str as *const MyStr) } } }"
    ));
    assert!(out.contains(
        "impl std::convert::AsRef<str> for MyString { fn as_ref(&self) -> &str { \
         <String as std::convert::AsRef<str>>::as_ref(&self.0) } }"
    ));
    assert!(out.contains(
        "impl std::convert::AsMut<MyStr> for MyString { fn as_mut(&mut self) -> &mut MyStr { \
         unsafe { &mut *(<String as std::convert::AsMut<str>>::as_mut(&mut self.0) \
         as *mut str as *mut MyStr) } } }"
    ));
    assert!(out.contains(
        "impl std::convert::AsMut<str> for MyString { fn as_mut(&mut self) -> &mut str { \
         <String as std::convert::AsMut<str>>::as_mut(&mut self.0) } }"
    ));
}

#[test]
fn as_view_family_and_deref_on_the_slice_role() {
    let out = generate(pair(
        vec![],
        vec![cs(vec![derives(&["AsRefSlice", "AsRefSliceInner", "Deref", "DerefMut"])])],
        false,
    ))
    .unwrap();
    // The slice type viewed as itself is the identity.
    assert!(out.contains(
        "impl std::convert::AsRef<MyStr> for MyStr { fn as_ref(&self) -> &MyStr { self } }"
    ));
    assert!(out.contains(
        "impl std::convert::AsRef<str> for MyStr { fn as_ref(&self) -> &str { &self.0 } }"
    ));
    assert!(out.contains(
        "impl std::ops::Deref for MyStr { type Target = str; \
         fn deref(&self) -> &Self::Target { &self.0 } }"
    ));
    assert!(out.contains(
        "impl std::ops::DerefMut for MyStr { \
         fn deref_mut(&mut self) -> &mut Self::Target { &mut self.0 } }"
    ));
}

#[test]
fn owned_bulk_comparison_covers_all_six_pairs() {
    let out = generate(pair(vec![cs(vec![derives(&["PartialEqBulk"])])], vec![], false)).unwrap();
    // One overload per ordered pair of the owned type against the slice
    // forms, every one delegating to the slice comparison.
    assert!(out.contains("impl std::cmp::PartialEq<MyStr> for MyString"));
    assert!(out.contains("impl std::cmp::PartialEq<MyString> for MyStr"));
    assert!(out.contains("impl std::cmp::PartialEq<&MyStr> for MyString"));
    assert!(out.contains("impl std::cmp::PartialEq<MyString> for &MyStr"));
    assert!(out.contains("impl std::cmp::PartialEq<std::borrow::Cow<'_, MyStr>> for MyString"));
    assert!(out.contains("impl std::cmp::PartialEq<MyString> for std::borrow::Cow<'_, MyStr>"));
    assert_eq!(out.matches("std::cmp::PartialEq::<MyStr>::eq(").count(), 6);
}

#[test]
fn inner_bulk_comparison_delegates_through_inner_views() {
    let out = generate(pair(vec![cs(vec![derives(&["PartialEqInnerBulk"])])], vec![], false))
        .unwrap();
    assert!(out.contains(
        "impl std::cmp::PartialEq<str> for MyString { fn eq(&self, __other: &str) -> bool { \
         std::cmp::PartialEq::<str>::eq(\
         <String as std::borrow::Borrow<str>>::borrow(&self.0), __other) } }"
    ));
    assert!(out.contains("impl std::cmp::PartialEq<String> for MyString"));
    assert!(out.contains("impl std::cmp::PartialEq<MyString> for String"));
    assert_eq!(out.matches("std::cmp::PartialEq::<str>::eq(").count(), 8);
}

#[test]
fn slice_from_inner_is_the_bare_reinterpretation() {
    let out = generate(pair(
        vec![cs(vec![derives(&["FromInner", "IntoInner"])])],
        vec![cs(vec![derives(&["FromInner", "FromInnerMut"])])],
        false,
    ))
    .unwrap();
    assert!(out.contains(
        "impl<'a> std::convert::From<&'a str> for &'a MyStr { fn from(_v: &'a str) -> Self { \
         unsafe { &*(_v as *const str as *const MyStr) } } }"
    ));
    assert!(out.contains(
        "impl<'a> std::convert::From<&'a mut str> for &'a mut MyStr { \
         fn from(_v: &'a mut str) -> Self { \
         unsafe { &mut *(_v as *mut str as *mut MyStr) } } }"
    ));
    assert!(out.contains(
        "impl std::convert::From<String> for MyString { fn from(_v: String) -> Self { \
         MyString { 0: _v } } }"
    ));
    assert!(out.contains(
        "impl std::convert::From<MyString> for String { fn from(_v: MyString) -> Self { \
         _v.0 } }"
    ));
}

#[test]
fn try_from_inner_reuses_the_checked_construction() {
    let out = generate(pair(
        vec![cs(vec![derives(&["TryFromInner"])]), cs(vec![error_ty("Error")])],
        vec![cs(vec![derives(&["TryFromInner", "TryFromInnerMut"])]), cs(vec![error_ty("Error")])],
        true,
    ))
    .unwrap();
    assert!(out.contains(
        "impl std::convert::TryFrom<String> for MyString { type Error = Error; \
         fn try_from(_v: String) -> std::result::Result<Self, Self::Error> { \
         match validate(<String as std::borrow::Borrow<str>>::borrow(&_v)) { \
         Ok(_) => Ok(MyString { 0: _v }), Err(_e) => Err(_e), } } }"
    ));
    assert!(out.contains(
        "impl<'a> std::convert::TryFrom<&'a str> for &'a MyStr { type Error = Error; \
         fn try_from(_v: &'a str) -> std::result::Result<Self, Self::Error> { \
         match validate(_v) { Ok(_) => Ok(unsafe { &*(_v as *const str as *const MyStr) }), \
         Err(_e) => Err(_e), } } }"
    ));
    assert!(out.contains(
        "impl<'a> std::convert::TryFrom<&'a mut str> for &'a mut MyStr { type Error = Error; \
         fn try_from(_v: &'a mut str) -> std::result::Result<Self, Self::Error> { \
         match validate(_v) { Ok(_) => Ok(unsafe { &mut *(_v as *mut str as *mut MyStr) }), \
         Err(_e) => Err(_e), } } }"
    ));
}

#[test]
fn slice_bulk_comparison_covers_the_four_pairs() {
    let out = generate(pair(vec![], vec![cs(vec![derives(&["PartialOrdBulk"])])], false)).unwrap();
    assert!(out.contains("impl std::cmp::PartialOrd<&MyStr> for MyStr"));
    assert!(out.contains("impl std::cmp::PartialOrd<MyStr> for &MyStr"));
    assert!(out.contains("impl std::cmp::PartialOrd<std::borrow::Cow<'_, MyStr>> for MyStr"));
    assert!(out.contains("impl std::cmp::PartialOrd<MyStr> for std::borrow::Cow<'_, MyStr>"));
    assert_eq!(out.matches("std::cmp::PartialOrd::<MyStr>::partial_cmp(").count(), 4);
}

#[test]
fn default_smart_pointers_cross_the_raw_pointer_boundary_once() {
    let out = generate(pair(
        vec![],
        vec![cs(vec![derives(&["DefaultArc", "DefaultRc"])])],
        false,
    ))
    .unwrap();
    assert!(out.contains(
        "impl std::default::Default for std::sync::Arc<MyStr> { fn default() -> Self { \
         unsafe { <std::sync::Arc<MyStr>>::from_raw(\
         <std::sync::Arc<str>>::into_raw(\
         <std::sync::Arc<str> as std::default::Default>::default()) as *mut MyStr) } } }"
    ));
    assert!(out.contains(
        "impl std::default::Default for std::rc::Rc<MyStr> { fn default() -> Self { \
         unsafe { <std::rc::Rc<MyStr>>::from_raw(\
         <std::rc::Rc<str>>::into_raw(\
         <std::rc::Rc<str> as std::default::Default>::default()) as *mut MyStr) } } }"
    ));
}
