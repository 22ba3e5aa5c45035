//! The generator's own surface: the exact shape of a whole output, the
//! configuration faults, the loader faults, and the template validation.

use custom_slice::attrs::{Attr, AttrMeta, FnPrefix, MetaLeaf, MetaNode};
use custom_slice::builder::{Builder, LoadError};
use custom_slice::defs::{
    Definitions, Fields, File, FnItem, GenError, Item, NamedField, StructItem, UnnamedField,
};
use custom_slice::props::{Mutability, Safety};
use custom_slice::template::{parse_prefix, template_ok};
use custom_slice::types::{RefType, StdSmartPtr, TypeNames};

fn cs(nodes: Vec<MetaNode>) -> Attr {
    Attr {
        meta: Some(AttrMeta::List("custom_slice".to_string(), nodes)),
        text: String::new(),
    }
}

fn w(name: &str) -> MetaNode {
    MetaNode::Word(name.to_string())
}

fn nv(key: &str, value: &str) -> MetaNode {
    MetaNode::NameValue(key.to_string(), value.to_string())
}

fn derives(names: &[&str]) -> MetaNode {
    MetaNode::List(
        "derive".to_string(),
        names.iter().map(|n| MetaLeaf::Word(n.to_string())).collect(),
    )
}

fn error_ty(t: &str) -> MetaNode {
    MetaNode::List(
        "error".to_string(),
        vec![MetaLeaf::NameValue("type".to_string(), t.to_string())],
    )
}

fn repr_transparent() -> Attr {
    Attr {
        meta: Some(AttrMeta::List(
            "repr".to_string(),
            vec![MetaNode::Word("transparent".to_string())],
        )),
        text: "#[repr(transparent)]".to_string(),
    }
}

fn owned_struct(extra: Vec<Attr>) -> Item {
    let mut attrs = vec![cs(vec![w("owned")])];
    attrs.extend(extra);
    Item::Struct(StructItem {
        attrs,
        vis: "pub".to_string(),
        ident: "MyString".to_string(),
        fields: Fields::Unnamed(vec![UnnamedField { ty: "String".to_string() }]),
    })
}

fn slice_struct(extra: Vec<Attr>) -> Item {
    let mut attrs = vec![repr_transparent(), cs(vec![w("slice")])];
    attrs.extend(extra);
    Item::Struct(StructItem {
        attrs,
        vis: "pub".to_string(),
        ident: "MyStr".to_string(),
        fields: Fields::Unnamed(vec![UnnamedField { ty: "str".to_string() }]),
    })
}

fn validator_item() -> Item {
    Item::Fn(FnItem {
        attrs: vec![cs(vec![w("validator")])],
        ident: "validate".to_string(),
        rest: "fn validate(s: &str) -> Result<(), Error> { Ok(()) }".to_string(),
    })
}

fn load(items: Vec<Item>) -> Result<Definitions, LoadError> {
    Definitions::from_file(File { items })
}

fn generate(items: Vec<Item>) -> Result<String, GenError> {
    load(items).unwrap_or_else(|e| panic!("{}", e.message())).generate()
}

#[test]
fn whole_output_of_a_minimal_pair() {
    let out = generate(vec![
        owned_struct(vec![cs(vec![nv("new_unchecked", "pub fn new")])]),
        slice_struct(vec![]),
    ])
    .unwrap();
    let mut expected = String::new();
    expected.push_str("pub struct MyString(String);\n");
    expected.push_str("#[repr(transparent)]\npub struct MyStr(str);\n");
    expected.push_str("impl MyString { pub fn new(_v: String) -> Self { MyString { 0: _v } }\n}\n");
    expected.push_str(
        "impl std::borrow::Borrow<MyStr> for MyString { fn borrow(&self) -> &MyStr { \
         unsafe { &*(<String as std::borrow::Borrow<str>>::borrow(&self.0) \
         as *const str as *const MyStr) } } }\n",
    );
    expected.push_str(
        "impl std::borrow::ToOwned for MyStr { type Owned = MyString; \
         fn to_owned(&self) -> Self::Owned { \
         MyString { 0: <str as std::borrow::ToOwned>::to_owned(&&self.0) } } }\n",
    );
    assert_eq!(out, expected);
}

#[test]
fn named_field_pair_projects_by_name() {
    let out = generate(vec![
        Item::Struct(StructItem {
            attrs: vec![cs(vec![w("owned")]), cs(vec![nv("get_ref", "pub fn get")])],
            vis: String::new(),
            ident: "Owned".to_string(),
            fields: Fields::Named(vec![NamedField {
                name: "inner".to_string(),
                ty: "Vec<u8>".to_string(),
            }]),
        }),
        Item::Struct(StructItem {
            attrs: vec![repr_transparent(), cs(vec![w("slice")])],
            vis: String::new(),
            ident: "Slice".to_string(),
            fields: Fields::Named(vec![NamedField {
                name: "raw".to_string(),
                ty: "[u8]".to_string(),
            }]),
        }),
    ])
    .unwrap();
    assert!(out.contains("struct Owned { inner: Vec<u8> }"));
    assert!(out.contains("pub fn get(&self) -> &Vec<u8> { &self.inner }"));
    assert!(out.contains("Owned { inner: <[u8] as std::borrow::ToOwned>::to_owned(&&self.raw) }"));
}

#[test]
fn validator_item_is_reemitted() {
    let out = generate(vec![
        owned_struct(vec![cs(vec![nv("new_checked", "pub fn new")]), cs(vec![error_ty("Error")])]),
        slice_struct(vec![]),
        validator_item(),
    ])
    .unwrap();
    assert!(out.contains("fn validate(s: &str) -> Result<(), Error> { Ok(()) }\n"));
}

#[test]
fn checked_without_validator_fails_generation() {
    // A validator-dependent constructor with no validator configured must
    // fail generation, never produce a stub.
    let r = generate(vec![
        owned_struct(vec![]),
        slice_struct(vec![
            cs(vec![nv("new_checked", "pub fn new")]),
            cs(vec![error_ty("Error")]),
        ]),
    ]);
    assert!(matches!(r, Err(GenError::MissingValidator(k)) if k == "new_checked"));
}

#[test]
fn try_from_inner_without_validator_fails_generation() {
    let r = generate(vec![
        owned_struct(vec![cs(vec![derives(&["TryFromInner"])]), cs(vec![error_ty("Error")])]),
        slice_struct(vec![]),
    ]);
    assert!(matches!(r, Err(GenError::MissingValidator(k)) if k == "TryFromInner"));
}

#[test]
fn from_inner_with_validator_fails_generation() {
    // The infallible conversion would bypass validation; the two are
    // mutually exclusive.
    let r = generate(vec![
        owned_struct(vec![cs(vec![derives(&["FromInner"])])]),
        slice_struct(vec![]),
        validator_item(),
    ]);
    assert!(matches!(r, Err(GenError::ValidatorConflict(k)) if k == "FromInner"));
}

#[test]
fn checked_without_error_type_fails_generation() {
    let r = generate(vec![
        owned_struct(vec![cs(vec![nv("new_checked", "pub fn new")])]),
        slice_struct(vec![]),
        validator_item(),
    ]);
    assert!(matches!(r, Err(GenError::MissingErrorType(k)) if k == "new_checked"));
}

#[test]
fn malformed_prefix_fails_generation() {
    let r = generate(vec![
        owned_struct(vec![cs(vec![nv("new_unchecked", "pub fn")])]),
        slice_struct(vec![]),
    ]);
    assert!(matches!(r, Err(GenError::BadPrefix(k)) if k == "new_unchecked"));
}

#[test]
fn malformed_error_type_fails_generation() {
    let r = generate(vec![
        owned_struct(vec![
            cs(vec![nv("new_checked", "pub fn new")]),
            cs(vec![error_ty("Error<(")]),
        ]),
        slice_struct(vec![]),
        validator_item(),
    ]);
    assert!(matches!(r, Err(GenError::BadErrorType(k)) if k == "new_checked"));
}

#[test]
fn malformed_error_map_fails_generation() {
    let r = generate(vec![
        owned_struct(vec![
            cs(vec![nv("new_checked", "pub fn new")]),
            cs(vec![MetaNode::List(
                "error".to_string(),
                vec![
                    MetaLeaf::NameValue("type".to_string(), "Error".to_string()),
                    MetaLeaf::NameValue("map".to_string(), "   ".to_string()),
                ],
            )]),
        ]),
        slice_struct(vec![]),
        validator_item(),
    ]);
    assert!(matches!(r, Err(GenError::BadErrorMap(k)) if k == "new_checked"));
}

#[test]
fn unknown_derive_target_fails_generation() {
    let r = generate(vec![owned_struct(vec![cs(vec![derives(&["Clone"])])]), slice_struct(vec![])]);
    assert!(matches!(r, Err(GenError::UnknownDeriveOwned(k)) if k == "Clone"));
    let r = generate(vec![owned_struct(vec![]), slice_struct(vec![cs(vec![derives(&["Sparkle"])])])]);
    assert!(matches!(r, Err(GenError::UnknownDeriveSlice(k)) if k == "Sparkle"));
}

#[test]
fn loader_demands_exactly_one_of_each_role() {
    assert!(matches!(load(vec![slice_struct(vec![])]), Err(LoadError::NoOwnedDefinitions)));
    assert!(matches!(load(vec![owned_struct(vec![])]), Err(LoadError::NoSliceDefinitions)));
    assert!(matches!(
        load(vec![owned_struct(vec![]), owned_struct(vec![]), slice_struct(vec![])]),
        Err(LoadError::MultipleOwnedDefinitions)
    ));
    assert!(matches!(
        load(vec![owned_struct(vec![]), slice_struct(vec![]), slice_struct(vec![])]),
        Err(LoadError::MultipleSliceDefinitions)
    ));
}

#[test]
fn loader_refuses_unmarked_or_misplaced_items() {
    assert!(matches!(
        load(vec![owned_struct(vec![]), slice_struct(vec![]), Item::Other("mod x;".to_string())]),
        Err(LoadError::ExtraItems)
    ));
    // A function marked as a role type is a load fault.
    let misplaced = Item::Fn(FnItem {
        attrs: vec![cs(vec![w("slice")])],
        ident: "f".to_string(),
        rest: "fn f() {}".to_string(),
    });
    assert!(matches!(
        load(vec![owned_struct(vec![]), slice_struct(vec![]), misplaced]),
        Err(LoadError::InvalidSpecialItem(_))
    ));
}

#[test]
fn loader_demands_exactly_one_field() {
    let two_fields = Item::Struct(StructItem {
        attrs: vec![cs(vec![w("owned")])],
        vis: "pub".to_string(),
        ident: "Pair".to_string(),
        fields: Fields::Unnamed(vec![
            UnnamedField { ty: "String".to_string() },
            UnnamedField { ty: "usize".to_string() },
        ]),
    });
    assert!(matches!(
        load(vec![two_fields, slice_struct(vec![])]),
        Err(LoadError::UnexpectedFields(2))
    ));
}

#[test]
fn loader_demands_repr_transparency_of_the_slice_role() {
    // The reinterpretation step is sound only under the representation
    // guarantee, so the slice role must declare it.
    let bare = Item::Struct(StructItem {
        attrs: vec![cs(vec![w("slice")])],
        vis: "pub".to_string(),
        ident: "MyStr".to_string(),
        fields: Fields::Unnamed(vec![UnnamedField { ty: "str".to_string() }]),
    });
    assert!(matches!(
        load(vec![owned_struct(vec![]), bare]),
        Err(LoadError::MissingReprTransparent)
    ));
}

#[test]
fn duplicate_validator_is_a_load_fault() {
    // The fault names the validator role, not another one.
    match load(vec![owned_struct(vec![]), slice_struct(vec![]), validator_item(), validator_item()])
    {
        Err(e) => {
            assert!(matches!(e, LoadError::MultipleValidatorDefinitions));
            assert_eq!(e.message(), "Multiple validator definitions found");
        }
        Ok(_) => panic!("a duplicate validator must be refused"),
    }
}

#[test]
fn field_count_fault_names_the_count_found() {
    let three = Item::Struct(StructItem {
        attrs: vec![cs(vec![w("owned")])],
        vis: "pub".to_string(),
        ident: "Triple".to_string(),
        fields: Fields::Unnamed(vec![
            UnnamedField { ty: "String".to_string() },
            UnnamedField { ty: "usize".to_string() },
            UnnamedField { ty: "bool".to_string() },
        ]),
    });
    match load(vec![three, slice_struct(vec![])]) {
        Err(e) => {
            assert!(matches!(e, LoadError::UnexpectedFields(3)));
            assert_eq!(e.message(), "Unexpected number of fields: expect just one, but got 3");
        }
        Ok(_) => panic!("a three-field role type must be refused"),
    }
}

#[test]
fn prefix_templates_parse_as_signature_prefixes() {
    assert_eq!(parse_prefix("pub fn new"), Some(false));
    assert_eq!(parse_prefix("fn get"), Some(false));
    assert_eq!(parse_prefix("unsafe fn new_unchecked"), Some(true));
    assert_eq!(parse_prefix("pub unsafe fn from_utf8_unchecked"), Some(true));
    assert_eq!(parse_prefix("pub(crate) fn new"), Some(false));
    assert_eq!(parse_prefix("#[allow(dead_code)] pub fn new"), Some(false));
    assert_eq!(
        parse_prefix("\n        /// Creates a new string.\n        pub fn new\n    "),
        Some(false)
    );
    assert_eq!(parse_prefix(""), None);
    assert_eq!(parse_prefix("pub fn"), None);
    assert_eq!(parse_prefix("fn 9lives"), None);
    assert_eq!(parse_prefix("pub fn new() -> Self"), None);
    assert_eq!(parse_prefix("pub async fn new"), None);
    assert_eq!(parse_prefix("#[broken attribute pub fn new"), None);
}

#[test]
fn free_form_templates_must_be_balanced_and_visible() {
    assert!(template_ok("Error"));
    assert!(template_ok("FromUtf8Error::new"));
    assert!(template_ok("{|e, _v| e}"));
    assert!(template_ok("Wrapper<(u8, [u8; 4])>"));
    assert!(!template_ok(""));
    assert!(!template_ok("   "));
    assert!(!template_ok("Error("));
    assert!(!template_ok("f(x))"));
    assert!(!template_ok("f([)]"));
}

#[test]
fn unsafe_context_is_not_rewrapped() {
    // The one subtle rule of the safety primitive: an operation generated
    // inside a function the user already declared unsafe is not wrapped a
    // second time; in a safe context it is wrapped exactly once.
    assert_eq!(Safety::Unsafe.wrap_unsafe_expr("&*(v as *const str as *const S)"),
        "&*(v as *const str as *const S)");
    assert_eq!(Safety::Safe.wrap_unsafe_expr("x"), "unsafe { x }");
    assert!(Safety::Safe.is_safe());
    assert!(Safety::Unsafe.is_unsafe());
    assert_eq!(Safety::of_unsafety(true), Safety::Unsafe);
}

#[test]
fn mutability_builds_both_reference_forms() {
    assert_eq!(Mutability::Constant.make_ref("self"), "&self");
    assert_eq!(Mutability::Mutable.make_ref("self"), "&mut self");
    assert_eq!(Mutability::Constant.make_ptr("str"), "*const str");
    assert_eq!(Mutability::Mutable.make_ptr("str"), "*mut str");
    assert_eq!(Mutability::Constant.make_ref_with_lifetime("str"), "&'a str");
    assert_eq!(Mutability::Mutable.make_ref_with_lifetime("str"), "&'a mut str");
}

fn names() -> TypeNames {
    TypeNames {
        ty_owned: "MyString".to_string(),
        ty_owned_inner: "String".to_string(),
        ty_slice: "MyStr".to_string(),
        ty_slice_inner: "str".to_string(),
        owned_field: "0".to_string(),
        slice_field: "0".to_string(),
    }
}

#[test]
fn every_bulk_comparison_pair_delegates_to_the_slice_comparison() {
    // Each generated overload compares the two operands' canonical slice
    // views through the one ground-truth comparison.
    let n = names();
    let pairs = [
        (RefType::Owned, RefType::Slice),
        (RefType::Slice, RefType::Owned),
        (RefType::Owned, RefType::RefSlice),
        (RefType::RefSlice, RefType::Owned),
        (RefType::Owned, RefType::CowSlice),
        (RefType::CowSlice, RefType::Owned),
    ];
    for (lhs, rhs) in pairs {
        let one = custom_slice::traits::CmpTrait::PartialEq.impl_with_slice(lhs, rhs, &n);
        let a = lhs.ref_to_slice_ref(&n, "self");
        let b = rhs.ref_to_slice_ref(&n, "__other");
        let call = format!("std::cmp::PartialEq::<MyStr>::eq({}, {})", a, b);
        assert!(one.contains(&call));
    }
}

#[test]
fn smart_pointer_texts() {
    assert_eq!(StdSmartPtr::Box.ty("str"), "std::boxed::Box<str>");
    assert_eq!(StdSmartPtr::Arc.ty("MyStr"), "std::sync::Arc<MyStr>");
    assert_eq!(StdSmartPtr::Rc.ty("MyStr"), "std::rc::Rc<MyStr>");
    assert_eq!(
        StdSmartPtr::Box.expr_into_raw("str", "e"),
        "<std::boxed::Box<str>>::into_raw(e)"
    );
}

#[test]
fn fn_prefix_completes_an_item() {
    let p = FnPrefix::from("pub fn len".to_string());
    assert_eq!(
        p.build_item_with_named_arg("_v", "usize", "Self", "Self { 0: _v }"),
        "pub fn len(_v: usize) -> Self { Self { 0: _v } }"
    );
    assert_eq!(
        p.build_item_with_raw_args("&self", "usize", "self.0"),
        "pub fn len(&self) -> usize { self.0 }"
    );
}

#[test]
fn builder_collects_the_three_parts() {
    let b = Builder::try_from_file(File {
        items: vec![owned_struct(vec![]), slice_struct(vec![]), validator_item()],
    })
    .unwrap();
    assert!(b.slice.is_some());
    assert!(b.owned.is_some());
    assert!(b.validator.is_some());
    let d = b.build().unwrap();
    assert_eq!(d.ty_owned(), "MyString");
    assert_eq!(d.ty_owned_inner(), "String");
    assert_eq!(d.ty_slice(), "MyStr");
    assert_eq!(d.ty_slice_inner(), "str");
}
