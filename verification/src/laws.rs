//! The guarantees the generator gives, stated and proved over the
//! specification of its output.

use vstd::prelude::*;

use crate::attrs::{spec_mapped_error, spec_nv_from};
use crate::defs::{
    spec_error_cfg, spec_generate, spec_methods_for_owned, spec_methods_for_slice,
    spec_owned_checked, spec_owned_derive_one, spec_owned_derives_from, spec_owned_into_inner,
    spec_owned_unchecked, spec_slice_checked, spec_slice_derive_one, spec_slice_derives_from,
    spec_slice_unchecked, Definitions, GenErrV,
};
use crate::emit::validate_match_code;
use crate::expr::{borrow_inner_code, proj_code, reinterpret_code, wrap_owned_code};
use crate::props::{ref_code, Mutability, Safety};
use crate::template::{fn_item_code, fn_item_raw_code, spec_parse_prefix};
use crate::traits::{
    cmp_ground_call_code, cmp_impl_header_code, cmp_impl_inner_code, cmp_impl_slice_code, CmpTrait,
    OwnedToSliceTrait,
};
use crate::types::{
    ref_to_slice_inner_ref_code, ref_to_slice_ref_code, spec_is_outer, NamesView, RefType,
};

verus! {

/// An unchecked slice constructor with a well-formed prefix is always
/// generated, whether or not a validator is configured; its return type is
/// the plain slice reference — not a fallible one — and its body is
/// exactly the reinterpretation of the argument, wrapped in an `unsafe`
/// block precisely when the prefix does not already declare the function
/// `unsafe`.
pub proof fn lemma_slice_unchecked_total(d: Definitions, key: Seq<char>, m: Mutability)
    requires
        spec_nv_from(d.slice.attrs.custom_meta@, key, 0) matches Some(p) && spec_parse_prefix(p)
            is Some,
    ensures
        spec_slice_unchecked(d, key, m) matches Ok(o) && o matches Some(item) && item
            == fn_item_code(
            spec_nv_from(d.slice.attrs.custom_meta@, key, 0)->0,
            "_v"@,
            ref_code(m, d.names_view().ty_slice_inner),
            ref_code(m, d.names_view().ty_slice),
            reinterpret_code(
                m,
                if spec_parse_prefix(spec_nv_from(d.slice.attrs.custom_meta@, key, 0)->0)->0 {
                    Safety::Unsafe
                } else {
                    Safety::Safe
                },
                d.names_view().ty_slice_inner,
                d.names_view().ty_slice,
                "_v"@,
            ),
        ),
{
    reveal(spec_slice_unchecked);
}

/// A checked slice constructor whose configuration is complete is generated
/// as a fallible function whose body calls the configured validator on the
/// argument itself, returns the reinterpreted argument on `Ok`, and the
/// mapped error on `Err` — success of the generated function is exactly
/// success of the validator.
pub proof fn lemma_slice_checked_structure(d: Definitions, key: Seq<char>, m: Mutability)
    requires
        spec_nv_from(d.slice.attrs.custom_meta@, key, 0) matches Some(p) && spec_parse_prefix(p)
            is Some,
        spec_error_cfg(d.slice.attrs.custom_meta@, key) is Ok,
        d.has_validator(),
    ensures
        spec_slice_checked(d, key, m) matches Ok(o) && o matches Some(item) && item
            == fn_item_code(
            spec_nv_from(d.slice.attrs.custom_meta@, key, 0)->0,
            "_v"@,
            ref_code(m, d.names_view().ty_slice_inner),
            "std::result::Result<"@ + ref_code(m, d.names_view().ty_slice) + ", "@ + spec_error_cfg(
                d.slice.attrs.custom_meta@,
                key,
            )->Ok_0 + ">"@,
            validate_match_code(
                d.validator_chars(),
                "_v"@,
                reinterpret_code(
                    m,
                    if spec_parse_prefix(spec_nv_from(d.slice.attrs.custom_meta@, key, 0)->0)->0 {
                        Safety::Unsafe
                    } else {
                        Safety::Safe
                    },
                    d.names_view().ty_slice_inner,
                    d.names_view().ty_slice,
                    "_v"@,
                ),
                spec_mapped_error(d.slice.attrs.custom_meta@, "_e"@, "_v"@),
            ),
        ),
{
    reveal(spec_slice_checked);
}

/// A checked owned constructor whose configuration is complete validates
/// the borrowed slice-inner view of the candidate and, on success, re-wraps
/// the very value that was passed in — not a reconstructed one.
pub proof fn lemma_owned_checked_rewraps_original(d: Definitions, key: Seq<char>)
    requires
        spec_nv_from(d.owned.attrs.custom_meta@, key, 0) matches Some(p) && spec_parse_prefix(p)
            is Some,
        spec_error_cfg(d.owned.attrs.custom_meta@, key) is Ok,
        d.has_validator(),
    ensures
        spec_owned_checked(d, key) matches Ok(o) && o matches Some(item) && item == fn_item_code(
            spec_nv_from(d.owned.attrs.custom_meta@, key, 0)->0,
            "_v"@,
            d.names_view().ty_owned_inner,
            "std::result::Result<Self, "@ + spec_error_cfg(d.owned.attrs.custom_meta@, key)->Ok_0
                + ">"@,
            validate_match_code(
                d.validator_chars(),
                borrow_inner_code(
                    OwnedToSliceTrait::Borrow,
                    Mutability::Constant,
                    d.names_view().ty_owned_inner,
                    d.names_view().ty_slice_inner,
                    "_v"@,
                ),
                wrap_owned_code(d.names_view().ty_owned, d.names_view().owned_field, "_v"@),
                spec_mapped_error(d.owned.attrs.custom_meta@, "_e"@, "_v"@),
            ),
        ),
{
    reveal(spec_owned_checked);
}

/// The configured extractor consumes the owned wrapper and yields the bare
/// field projection, so applying it to a value built by re-wrapping an
/// inner value reads that very value back.
pub proof fn lemma_into_inner_is_projection(d: Definitions, key: Seq<char>)
    requires
        spec_nv_from(d.owned.attrs.custom_meta@, key, 0) matches Some(p) && spec_parse_prefix(p)
            is Some,
    ensures
        spec_owned_into_inner(d, key) matches Ok(o) && o matches Some(item) && item
            == fn_item_raw_code(
            spec_nv_from(d.owned.attrs.custom_meta@, key, 0)->0,
            "self"@,
            d.names_view().ty_owned_inner,
            proj_code("self"@, d.names_view().owned_field),
        ),
{
    reveal(spec_owned_into_inner);
}

/// Every generated comparison between outer operand forms delegates to the
/// one ground-truth comparison: the slice type's own method, applied to
/// the two operands' canonical slice views. No overload compares anything
/// else.
pub proof fn lemma_cmp_delegates_to_ground_truth(
    t: CmpTrait,
    lhs: RefType,
    rhs: RefType,
    names: NamesView,
)
    requires
        spec_is_outer(lhs),
        spec_is_outer(rhs),
    ensures
        cmp_impl_slice_code(t, lhs, rhs, names) == cmp_impl_header_code(t, lhs, rhs, names)
            + cmp_ground_call_code(
            t,
            names.ty_slice,
            ref_to_slice_ref_code(lhs, names, "self"@),
            ref_to_slice_ref_code(rhs, names, "__other"@),
        ) + " } }"@,
{
}

/// Every generated comparison against an inner operand form delegates to
/// the slice inner type's own method, applied to the two operands'
/// canonical slice-inner views.
pub proof fn lemma_cmp_inner_delegates_to_ground_truth(
    t: CmpTrait,
    lhs: RefType,
    rhs: RefType,
    names: NamesView,
)
    ensures
        cmp_impl_inner_code(t, lhs, rhs, names) == cmp_impl_header_code(t, lhs, rhs, names)
            + cmp_ground_call_code(
            t,
            names.ty_slice_inner,
            ref_to_slice_inner_ref_code(lhs, names, "self"@),
            ref_to_slice_inner_ref_code(rhs, names, "__other"@),
        ) + " } }"@,
{
}

/// A checked owned constructor that is requested while no validator is
/// configured is never generated: the step fails, whatever else the
/// configuration holds.
pub proof fn lemma_owned_checked_demands_validator(d: Definitions, key: Seq<char>)
    requires
        spec_nv_from(d.owned.attrs.custom_meta@, key, 0) is Some,
        !d.has_validator(),
    ensures
        spec_owned_checked(d, key) is Err,
{
    reveal(spec_owned_checked);
}

/// A checked slice constructor that is requested while no validator is
/// configured is never generated.
pub proof fn lemma_slice_checked_demands_validator(d: Definitions, key: Seq<char>, m: Mutability)
    requires
        spec_nv_from(d.slice.attrs.custom_meta@, key, 0) is Some,
        !d.has_validator(),
    ensures
        spec_slice_checked(d, key, m) is Err,
{
    reveal(spec_slice_checked);
}

/// The fallible from-inner interface of the owned type demands a
/// validator; the infallible one refuses to coexist with it. The two are
/// mutually exclusive, so no configuration can generate a conversion that
/// bypasses validation.
#[verifier::rlimit(100)]
pub proof fn lemma_owned_from_inner_exclusion(d: Definitions)
    ensures
        !d.has_validator() ==> spec_owned_derive_one(d, "TryFromInner"@) is Err,
        d.has_validator() ==> spec_owned_derive_one(d, "FromInner"@) is Err,
{
    reveal(spec_owned_derive_one);
    reveal_strlit("AsRefSlice");
    reveal_strlit("AsRefSliceInner");
    reveal_strlit("AsMutSlice");
    reveal_strlit("AsMutSliceInner");
    reveal_strlit("BorrowMut");
    reveal_strlit("Deref");
    reveal_strlit("DerefMut");
    reveal_strlit("PartialEq");
    reveal_strlit("PartialOrd");
    reveal_strlit("PartialEqBulk");
    reveal_strlit("PartialOrdBulk");
    reveal_strlit("PartialEqInnerBulk");
    reveal_strlit("PartialOrdInnerBulk");
    reveal_strlit("FromInner");
    reveal_strlit("IntoInner");
    reveal_strlit("TryFromInner");
    assert(("AsRefSlice"@).len() == 10);
    assert(("AsRefSliceInner"@).len() == 15);
    assert(("AsMutSlice"@).len() == 10);
    assert(("AsMutSliceInner"@).len() == 15);
    assert(("BorrowMut"@).len() == 9);
    assert(("Deref"@).len() == 5);
    assert(("DerefMut"@).len() == 8);
    assert(("PartialEq"@).len() == 9);
    assert(("PartialOrd"@).len() == 10);
    assert(("PartialEqBulk"@).len() == 13);
    assert(("PartialOrdBulk"@).len() == 14);
    assert(("PartialEqInnerBulk"@).len() == 18);
    assert(("PartialOrdInnerBulk"@).len() == 19);
    assert(("FromInner"@).len() == 9);
    assert(("IntoInner"@).len() == 9);
    assert(("TryFromInner"@).len() == 12);
    assert(("FromInner"@)[0] == 'F');
    assert(("BorrowMut"@)[0] == 'B');
    assert(("FromInner"@) != ("BorrowMut"@));
    assert(("PartialEq"@)[0] == 'P');
    assert(("FromInner"@) != ("PartialEq"@));
}

/// The fallible from-inner interfaces of the slice type demand a
/// validator; the infallible ones refuse to coexist with it.
#[verifier::rlimit(100)]
pub proof fn lemma_slice_from_inner_exclusion(d: Definitions)
    ensures
        !d.has_validator() ==> spec_slice_derive_one(d, "TryFromInner"@) is Err,
        !d.has_validator() ==> spec_slice_derive_one(d, "TryFromInnerMut"@) is Err,
        d.has_validator() ==> spec_slice_derive_one(d, "FromInner"@) is Err,
        d.has_validator() ==> spec_slice_derive_one(d, "FromInnerMut"@) is Err,
{
    reveal(spec_slice_derive_one);
    reveal_strlit("AsRefSlice");
    reveal_strlit("AsRefSliceInner");
    reveal_strlit("AsMutSlice");
    reveal_strlit("AsMutSliceInner");
    reveal_strlit("Deref");
    reveal_strlit("DerefMut");
    reveal_strlit("Default");
    reveal_strlit("DefaultRef");
    reveal_strlit("DefaultRefMut");
    reveal_strlit("DefaultArc");
    reveal_strlit("DefaultBox");
    reveal_strlit("DefaultRc");
    reveal_strlit("IntoArc");
    reveal_strlit("IntoBox");
    reveal_strlit("IntoRc");
    reveal_strlit("PartialEqBulk");
    reveal_strlit("PartialOrdBulk");
    reveal_strlit("PartialEqInnerBulk");
    reveal_strlit("PartialOrdInnerBulk");
    reveal_strlit("FromInner");
    reveal_strlit("FromInnerMut");
    reveal_strlit("TryFromInner");
    reveal_strlit("TryFromInnerMut");
    assert(("AsRefSlice"@).len() == 10);
    assert(("AsRefSliceInner"@).len() == 15);
    assert(("AsMutSlice"@).len() == 10);
    assert(("AsMutSliceInner"@).len() == 15);
    assert(("Deref"@).len() == 5);
    assert(("DerefMut"@).len() == 8);
    assert(("Default"@).len() == 7);
    assert(("DefaultRef"@).len() == 10);
    assert(("DefaultRefMut"@).len() == 13);
    assert(("DefaultArc"@).len() == 10);
    assert(("DefaultBox"@).len() == 10);
    assert(("DefaultRc"@).len() == 9);
    assert(("IntoArc"@).len() == 7);
    assert(("IntoBox"@).len() == 7);
    assert(("IntoRc"@).len() == 6);
    assert(("PartialEqBulk"@).len() == 13);
    assert(("PartialOrdBulk"@).len() == 14);
    assert(("PartialEqInnerBulk"@).len() == 18);
    assert(("PartialOrdInnerBulk"@).len() == 19);
    assert(("FromInner"@).len() == 9);
    assert(("FromInnerMut"@).len() == 12);
    assert(("TryFromInner"@).len() == 12);
    assert(("TryFromInnerMut"@).len() == 15);
    assert(("FromInner"@)[0] == 'F');
    assert(("DefaultRc"@)[0] == 'D');
    assert(("FromInner"@) != ("DefaultRc"@));
    assert(("TryFromInner"@)[0] == 'T');
    assert(("FromInnerMut"@)[0] == 'F');
    assert(("TryFromInner"@) != ("FromInnerMut"@));
    assert(("TryFromInnerMut"@)[0] == 'T');
    assert(("AsRefSliceInner"@)[0] == 'A');
    assert(("TryFromInnerMut"@) != ("AsRefSliceInner"@));
    assert(("AsMutSliceInner"@)[0] == 'A');
    assert(("TryFromInnerMut"@) != ("AsMutSliceInner"@));
}

/// A derive list that requests a validator-dependent interface while no
/// validator is configured makes the owned type's derive generation fail.
pub proof fn lemma_owned_derives_demand_validator(
    d: Definitions,
    list: Seq<Seq<char>>,
    i: int,
    k: int,
)
    requires
        !d.has_validator(),
        0 <= i <= k < list.len(),
        list[k] == "TryFromInner"@,
    ensures
        spec_owned_derives_from(d, list, i) is Err,
    decreases k - i,
{
    if i == k {
        lemma_owned_from_inner_exclusion(d);
    } else {
        lemma_owned_derives_demand_validator(d, list, i + 1, k);
    }
}

/// Requesting a checked slice constructor with no validator configured
/// makes the whole generation fail: nothing is silently generated in its
/// place.
pub proof fn lemma_generate_demands_validator(d: Definitions)
    requires
        !d.has_validator(),
        spec_nv_from(d.slice.attrs.custom_meta@, "new_checked"@, 0) is Some || spec_nv_from(
            d.slice.attrs.custom_meta@,
            "new_checked_mut"@,
            0,
        ) is Some || spec_nv_from(d.owned.attrs.custom_meta@, "new_checked"@, 0) is Some,
    ensures
        spec_generate(d) is Err,
{
    reveal(spec_generate);
    reveal(spec_methods_for_owned);
    reveal(spec_methods_for_slice);
    if spec_nv_from(d.owned.attrs.custom_meta@, "new_checked"@, 0) is Some {
        lemma_owned_checked_demands_validator(d, "new_checked"@);
    }
    if spec_nv_from(d.slice.attrs.custom_meta@, "new_checked"@, 0) is Some {
        lemma_slice_checked_demands_validator(d, "new_checked"@, Mutability::Constant);
    }
    if spec_nv_from(d.slice.attrs.custom_meta@, "new_checked_mut"@, 0) is Some {
        lemma_slice_checked_demands_validator(d, "new_checked_mut"@, Mutability::Mutable);
    }
}

/// The unchecked owned constructor re-wraps the very value that was passed
/// in, with no validation and no failure path: its return type is `Self`,
/// not a fallible one.
pub proof fn lemma_owned_unchecked_total(d: Definitions, key: Seq<char>)
    requires
        spec_nv_from(d.owned.attrs.custom_meta@, key, 0) matches Some(p) && spec_parse_prefix(p)
            is Some,
    ensures
        spec_owned_unchecked(d, key) matches Ok(o) && o matches Some(item) && item == fn_item_code(
            spec_nv_from(d.owned.attrs.custom_meta@, key, 0)->0,
            "_v"@,
            d.names_view().ty_owned_inner,
            "Self"@,
            wrap_owned_code(d.names_view().ty_owned, d.names_view().owned_field, "_v"@),
        ),
{
    reveal(spec_owned_unchecked);
}

} // verus!
