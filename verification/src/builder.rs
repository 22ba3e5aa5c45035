//! The loader: walks the flat list of declared items, classifies each by
//! its role marker, enforces presence and uniqueness, and hands the
//! classified parts to the definitions aggregate.

use vstd::prelude::*;

use crate::attrs::{
    spec_custom_of, spec_raw_of, spec_repr_tc_from, spec_special_from, Attr, CustomSliceAttrs,
    MetaNode, SpecialItemType,
};
use crate::defs::{CustomType, Definitions, Fields, File, FnItem, Item, StructItem, Validator};

verus! {

/// A structural fault in the declaration list.
#[derive(Debug, Clone, Copy, PartialEq, Eq, Structural)]
pub enum LoadError {
    /// An item without a role marker, or of an unsupported kind.
    ExtraItems,
    /// No item carries the slice role marker.
    NoSliceDefinitions,
    /// No item carries the owned role marker.
    NoOwnedDefinitions,
    /// Two items carry the slice role marker.
    MultipleSliceDefinitions,
    /// Two items carry the owned role marker.
    MultipleOwnedDefinitions,
    /// Two items carry the validator marker.
    MultipleValidatorDefinitions,
    /// A role marker on an item of the wrong kind.
    InvalidSpecialItem(SpecialItemType),
    /// A role type with no field or with more than one; carries the number
    /// found.
    UnexpectedFields(usize),
    /// A slice role type without the representation-transparency guarantee,
    /// `repr(transparent)` or `repr(C)`, which the reinterpretation step
    /// is only sound under.
    MissingReprTransparent,
}

/// The text of one decimal digit.
pub open spec fn spec_digit_str(d: nat) -> Seq<char> {
    if d == 0 {
        "0"@
    } else if d == 1 {
        "1"@
    } else if d == 2 {
        "2"@
    } else if d == 3 {
        "3"@
    } else if d == 4 {
        "4"@
    } else if d == 5 {
        "5"@
    } else if d == 6 {
        "6"@
    } else if d == 7 {
        "7"@
    } else if d == 8 {
        "8"@
    } else {
        "9"@
    }
}

/// The decimal text of a number.
pub open spec fn spec_udec(n: nat) -> Seq<char>
    decreases n,
{
    if n < 10 {
        spec_digit_str(n)
    } else {
        spec_udec(n / 10) + spec_digit_str(n % 10)
    }
}

/// The text of one decimal digit.
fn digit_str(d: usize) -> (r: String)
    requires
        d < 10,
    ensures
        r@ == spec_digit_str(d as nat),
{
    match d {
        0 => String::from_str("0"),
        1 => String::from_str("1"),
        2 => String::from_str("2"),
        3 => String::from_str("3"),
        4 => String::from_str("4"),
        5 => String::from_str("5"),
        6 => String::from_str("6"),
        7 => String::from_str("7"),
        8 => String::from_str("8"),
        _ => String::from_str("9"),
    }
}

/// The decimal text of a number.
fn udec(n: usize) -> (r: String)
    ensures
        r@ == spec_udec(n as nat),
    decreases n,
{
    if n < 10 {
        digit_str(n)
    } else {
        udec(n / 10).concat(digit_str(n % 10).as_str())
    }
}

/// The diagnostic line of a structural fault.
pub open spec fn load_error_message(e: LoadError) -> Seq<char> {
    match e {
        LoadError::ExtraItems => "Extra items found"@,
        LoadError::NoSliceDefinitions => "No slice definitions found"@,
        LoadError::NoOwnedDefinitions => "No owned type definitions found"@,
        LoadError::MultipleSliceDefinitions => "Multiple slice definitions found"@,
        LoadError::MultipleOwnedDefinitions => "Multiple owned type definitions found"@,
        LoadError::MultipleValidatorDefinitions => "Multiple validator definitions found"@,
        LoadError::InvalidSpecialItem(t) => "Invalid special item: "@ + (match t {
            SpecialItemType::SliceType => "slice"@,
            SpecialItemType::OwnedType => "owned"@,
            SpecialItemType::Validator => "validator"@,
        }),
        LoadError::UnexpectedFields(n) => "Unexpected number of fields: expect just one, but got "@
            + spec_udec(n as nat),
        LoadError::MissingReprTransparent =>
            "The slice type must declare repr(transparent) or repr(C)"@,
    }
}

impl LoadError {
    /// A diagnostic line for this fault.
    pub fn message(&self) -> (r: String)
        ensures
            r@ == load_error_message(*self),
    {
        match self {
            LoadError::ExtraItems => String::from_str("Extra items found"),
            LoadError::NoSliceDefinitions => String::from_str("No slice definitions found"),
            LoadError::NoOwnedDefinitions => String::from_str("No owned type definitions found"),
            LoadError::MultipleSliceDefinitions => String::from_str(
                "Multiple slice definitions found",
            ),
            LoadError::MultipleOwnedDefinitions => String::from_str(
                "Multiple owned type definitions found",
            ),
            LoadError::MultipleValidatorDefinitions => String::from_str(
                "Multiple validator definitions found",
            ),
            LoadError::InvalidSpecialItem(t) => {
                let name = match t {
                    SpecialItemType::SliceType => "slice",
                    SpecialItemType::OwnedType => "owned",
                    SpecialItemType::Validator => "validator",
                };
                String::from_str("Invalid special item: ").concat(name)
            },
            LoadError::UnexpectedFields(n) => String::from_str(
                "Unexpected number of fields: expect just one, but got ",
            ).concat(udec(*n).as_str()),
            LoadError::MissingReprTransparent => String::from_str(
                "The slice type must declare repr(transparent) or repr(C)",
            ),
        }
    }
}

/// A role type as the loader sees it, at the specification level.
pub struct CtV {
    pub vis: Seq<char>,
    pub ident: Seq<char>,
    pub fields: Fields,
    pub custom_meta: Seq<MetaNode>,
    pub raw: Seq<Attr>,
}

/// A validator as the loader sees it, at the specification level.
pub struct ValV {
    pub ident: Seq<char>,
    pub rest: Seq<char>,
    pub custom_meta: Seq<MetaNode>,
    pub raw: Seq<Attr>,
}

/// The loader's state, at the specification level.
pub struct BuilderV {
    pub slice: Option<CtV>,
    pub owned: Option<CtV>,
    pub validator: Option<ValV>,
}

/// What the loader read out of one accepted role type.
pub open spec fn ct_view(c: CustomType) -> CtV {
    CtV {
        vis: c.vis@,
        ident: c.ident@,
        fields: c.fields,
        custom_meta: c.attrs.custom_meta@,
        raw: c.attrs.raw@,
    }
}

/// What the loader read out of one accepted validator.
pub open spec fn val_view(v: Validator) -> ValV {
    ValV {
        ident: v.ident@,
        rest: v.rest@,
        custom_meta: v.attrs.custom_meta@,
        raw: v.attrs.raw@,
    }
}

pub open spec fn opt_ct_view(o: Option<CustomType>) -> Option<CtV> {
    match o {
        Some(c) => Some(ct_view(c)),
        None => None,
    }
}

pub open spec fn opt_val_view(o: Option<Validator>) -> Option<ValV> {
    match o {
        Some(v) => Some(val_view(v)),
        None => None,
    }
}

/// The role type read out of a declared struct.
pub open spec fn struct_ct_view(s: StructItem) -> CtV {
    CtV {
        vis: s.vis@,
        ident: s.ident@,
        fields: s.fields,
        custom_meta: spec_custom_of(s.attrs@, 0),
        raw: spec_raw_of(s.attrs@, 0),
    }
}

/// The validator read out of a declared function.
pub open spec fn fn_val_view(f: FnItem) -> ValV {
    ValV {
        ident: f.ident@,
        rest: f.rest@,
        custom_meta: spec_custom_of(f.attrs@, 0),
        raw: spec_raw_of(f.attrs@, 0),
    }
}

/// The number of fields a declared struct has.
pub open spec fn field_count(fields: Fields) -> int {
    match fields {
        Fields::Named(v) => v@.len() as int,
        Fields::Unnamed(v) => v@.len() as int,
        Fields::Unit => 0,
    }
}

/// How the loader folds the declaration list into its state, item by item:
/// a function-like item must carry the validator marker and be the only
/// one; a struct-like item must carry the slice or owned marker, wrap
/// exactly one field, be the only one of its role, and — for the slice
/// role — declare representation transparency; anything else is a fault.
pub open spec fn spec_build(
    items: Seq<Item>,
    sl: Option<CtV>,
    ow: Option<CtV>,
    va: Option<ValV>,
) -> Result<BuilderV, LoadError>
    decreases items.len(),
{
    if items.len() == 0 {
        Ok(BuilderV { slice: sl, owned: ow, validator: va })
    } else {
        match items[0] {
            Item::Fn(f) => {
                match spec_special_from(spec_custom_of(f.attrs@, 0), 0) {
                    Some(SpecialItemType::Validator) => {
                        if va is Some {
                            Err(LoadError::MultipleValidatorDefinitions)
                        } else {
                            spec_build(items.drop_first(), sl, ow, Some(fn_val_view(f)))
                        }
                    },
                    Some(t) => Err(LoadError::InvalidSpecialItem(t)),
                    None => Err(LoadError::ExtraItems),
                }
            },
            Item::Struct(s) => {
                match spec_special_from(spec_custom_of(s.attrs@, 0), 0) {
                    Some(SpecialItemType::SliceType) => {
                        if field_count(s.fields) != 1 {
                            Err(LoadError::UnexpectedFields(field_count(s.fields) as usize))
                        } else if !spec_repr_tc_from(spec_raw_of(s.attrs@, 0), 0) {
                            Err(LoadError::MissingReprTransparent)
                        } else if sl is Some {
                            Err(LoadError::MultipleSliceDefinitions)
                        } else {
                            spec_build(items.drop_first(), Some(struct_ct_view(s)), ow, va)
                        }
                    },
                    Some(SpecialItemType::OwnedType) => {
                        if field_count(s.fields) != 1 {
                            Err(LoadError::UnexpectedFields(field_count(s.fields) as usize))
                        } else if ow is Some {
                            Err(LoadError::MultipleOwnedDefinitions)
                        } else {
                            spec_build(items.drop_first(), sl, Some(struct_ct_view(s)), va)
                        }
                    },
                    Some(t) => Err(LoadError::InvalidSpecialItem(t)),
                    None => Err(LoadError::ExtraItems),
                }
            },
            Item::Other(_) => Err(LoadError::ExtraItems),
        }
    }
}

/// What loading a whole declaration list yields: the classified state,
/// which must hold exactly one slice role and exactly one owned role.
pub open spec fn spec_load(items: Seq<Item>) -> Result<BuilderV, LoadError> {
    match spec_build(items, None, None, None) {
        Err(e) => Err(e),
        Ok(b) => {
            if b.slice is None {
                Err(LoadError::NoSliceDefinitions)
            } else if b.owned is None {
                Err(LoadError::NoOwnedDefinitions)
            } else {
                Ok(b)
            }
        },
    }
}

/// The loader's state: the classified parts found so far.
pub struct Builder {
    /// Slice type definition.
    pub slice: Option<CustomType>,
    /// Owned type definition.
    pub owned: Option<CustomType>,
    /// Validator function definition.
    pub validator: Option<Validator>,
}

/// The view of a finished load.
pub open spec fn builder_res_view(r: Result<Builder, LoadError>) -> Result<BuilderV, LoadError> {
    match r {
        Ok(b) => Ok(
            BuilderV {
                slice: opt_ct_view(b.slice),
                owned: opt_ct_view(b.owned),
                validator: opt_val_view(b.validator),
            },
        ),
        Err(e) => Err(e),
    }
}

/// Both role types held by the loader wrap exactly one field.
pub open spec fn builder_wf(b: Builder) -> bool {
    &&& (b.slice matches Some(c) ==> c.wf())
    &&& (b.owned matches Some(c) ==> c.wf())
}

/// Fold the remaining items into the loader's state.
fn build_items(
    items: Vec<Item>,
    sl: Option<CustomType>,
    ow: Option<CustomType>,
    va: Option<Validator>,
) -> (r: Result<Builder, LoadError>)
    requires
        sl matches Some(c) ==> c.wf(),
        ow matches Some(c) ==> c.wf(),
    ensures
        builder_res_view(r) == spec_build(items@, opt_ct_view(sl), opt_ct_view(ow), opt_val_view(va)),
        r matches Ok(b) ==> builder_wf(b),
    decreases items@.len(),
{
    let mut items = items;
    if items.len() == 0 {
        return Ok(Builder { slice: sl, owned: ow, validator: va });
    }
    let ghost pre = items@;
    let it = items.remove(0);
    proof {
        assert(items@ =~= pre.drop_first());
    }
    match it {
        Item::Fn(f) => {
            let FnItem { attrs, ident, rest } = f;
            let split = CustomSliceAttrs::from_attrs(attrs);
            match split.special_item_type() {
                Some(SpecialItemType::Validator) => {
                    if va.is_some() {
                        Err(LoadError::MultipleValidatorDefinitions)
                    } else {
                        let v = Validator { attrs: split, ident, rest };
                        build_items(items, sl, ow, Some(v))
                    }
                },
                Some(t) => Err(LoadError::InvalidSpecialItem(t)),
                None => Err(LoadError::ExtraItems),
            }
        },
        Item::Struct(s) => {
            let StructItem { attrs, vis, ident, fields } = s;
            let split = CustomSliceAttrs::from_attrs(attrs);
            match split.special_item_type() {
                Some(SpecialItemType::SliceType) => {
                    match CustomType::new(vis, ident, fields, split) {
                        Err(n) => Err(LoadError::UnexpectedFields(n)),
                        Ok(c) => {
                            if !c.attrs.is_repr_transparent_or_c() {
                                Err(LoadError::MissingReprTransparent)
                            } else if sl.is_some() {
                                Err(LoadError::MultipleSliceDefinitions)
                            } else {
                                build_items(items, Some(c), ow, va)
                            }
                        },
                    }
                },
                Some(SpecialItemType::OwnedType) => {
                    match CustomType::new(vis, ident, fields, split) {
                        Err(n) => Err(LoadError::UnexpectedFields(n)),
                        Ok(c) => {
                            if ow.is_some() {
                                Err(LoadError::MultipleOwnedDefinitions)
                            } else {
                                build_items(items, sl, Some(c), va)
                            }
                        },
                    }
                },
                Some(t) => Err(LoadError::InvalidSpecialItem(t)),
                None => Err(LoadError::ExtraItems),
            }
        },
        Item::Other(_) => Err(LoadError::ExtraItems),
    }
}

impl Builder {
    /// Load a declaration list into the loader's state.
    pub fn try_from_file(file: File) -> (r: Result<Builder, LoadError>)
        ensures
            builder_res_view(r) == spec_build(file.items@, None, None, None),
            r matches Ok(b) ==> builder_wf(b),
    {
        build_items(file.items, None, None, None)
    }

    /// Hand the classified parts to the definitions aggregate; a missing
    /// slice or owned role is a fault.
    pub fn build(self) -> (r: Result<Definitions, LoadError>)
        ensures
            r matches Ok(d) ==> self.slice matches Some(s) && self.owned matches Some(o) && d == (
            Definitions { owned: o, slice: s, validator: self.validator }),
            self.slice is None <==> r == Err::<Definitions, LoadError>(
                LoadError::NoSliceDefinitions,
            ),
            self.slice is Some && self.owned is None <==> r == Err::<Definitions, LoadError>(
                LoadError::NoOwnedDefinitions,
            ),
            r is Ok <==> self.slice is Some && self.owned is Some,
    {
        match self.slice {
            None => Err(LoadError::NoSliceDefinitions),
            Some(slice) => {
                match self.owned {
                    None => Err(LoadError::NoOwnedDefinitions),
                    Some(owned) => Ok(Definitions { owned, slice, validator: self.validator }),
                }
            },
        }
    }
}

/// The view of a finished load of definitions.
pub open spec fn defs_res_view(r: Result<Definitions, LoadError>) -> Result<BuilderV, LoadError> {
    match r {
        Ok(d) => Ok(
            BuilderV {
                slice: Some(ct_view(d.slice)),
                owned: Some(ct_view(d.owned)),
                validator: opt_val_view(d.validator),
            },
        ),
        Err(e) => Err(e),
    }
}

impl Definitions {
    /// Load a `Definitions` from the given declaration list.
    pub fn from_file(file: File) -> (r: Result<Definitions, LoadError>)
        ensures
            defs_res_view(r) == spec_load(file.items@),
            r matches Ok(d) ==> d.wf(),
    {
        match Builder::try_from_file(file) {
            Err(e) => Err(e),
            Ok(b) => b.build(),
        }
    }
}

} // verus!
