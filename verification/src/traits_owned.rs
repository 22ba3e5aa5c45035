//! Generated trait impls for the owned role type.

use vstd::prelude::*;

use crate::emit::{
    assoc_ty_code, assoc_ty_text, impl_for, impl_for_code, method_code, method_text,
    validate_match_code, validate_match_text,
};
use crate::expr::{borrow_inner_code, proj_code, reinterpret_code, wrap_owned_code};
use crate::props::{ref_code, Mutability, Safety};
use crate::traits::{
    cmp_impl_slice_code, o2s_method_code, o2s_trait_param_code, o2s_trait_path_code, CmpTrait,
    OwnedToSliceTrait,
};
use crate::types::{NamesView, RefType, TypeNames};

verus! {

/// `&Owned` taken down to `&SliceInner`, through the selected interface of
/// the owned inner type.
pub open spec fn owned_to_slice_inner_body(
    names: NamesView,
    t: OwnedToSliceTrait,
    m: Mutability,
) -> Seq<char> {
    borrow_inner_code(
        t,
        m,
        names.ty_owned_inner,
        names.ty_slice_inner,
        proj_code("self"@, names.owned_field),
    )
}

/// `&Owned` taken down to `&Slice`: the slice-inner borrow followed by the
/// one reinterpretation step, wrapped in its own `unsafe` block because the
/// generated trait methods are safe.
pub open spec fn owned_to_slice_body(
    names: NamesView,
    t: OwnedToSliceTrait,
    m: Mutability,
) -> Seq<char> {
    reinterpret_code(
        m,
        Safety::Safe,
        names.ty_slice_inner,
        names.ty_slice,
        owned_to_slice_inner_body(names, t, m),
    )
}

/// `AsRef<Slice>` / `AsMut<Slice>` for the owned type.
pub open spec fn owned_as_ref_slice_code(names: NamesView, m: Mutability) -> Seq<char> {
    impl_for_code(
        o2s_trait_param_code(OwnedToSliceTrait::AsRef, m, names.ty_slice),
        names.ty_owned,
        method_code(
            o2s_method_code(OwnedToSliceTrait::AsRef, m),
            ref_code(m, "self"@),
            ref_code(m, names.ty_slice),
            owned_to_slice_body(names, OwnedToSliceTrait::AsRef, m),
        ),
    )
}

/// `AsRef<SliceInner>` / `AsMut<SliceInner>` for the owned type.
pub open spec fn owned_as_ref_slice_inner_code(names: NamesView, m: Mutability) -> Seq<char> {
    impl_for_code(
        o2s_trait_param_code(OwnedToSliceTrait::AsRef, m, names.ty_slice_inner),
        names.ty_owned,
        method_code(
            o2s_method_code(OwnedToSliceTrait::AsRef, m),
            ref_code(m, "self"@),
            ref_code(m, names.ty_slice_inner),
            owned_to_slice_inner_body(names, OwnedToSliceTrait::AsRef, m),
        ),
    )
}

/// `Borrow<Slice>` / `BorrowMut<Slice>` for the owned type.
pub open spec fn owned_borrow_code(names: NamesView, m: Mutability) -> Seq<char> {
    impl_for_code(
        o2s_trait_param_code(OwnedToSliceTrait::Borrow, m, names.ty_slice),
        names.ty_owned,
        method_code(
            o2s_method_code(OwnedToSliceTrait::Borrow, m),
            ref_code(m, "self"@),
            ref_code(m, names.ty_slice),
            owned_to_slice_body(names, OwnedToSliceTrait::Borrow, m),
        ),
    )
}

/// `Deref` / `DerefMut` for the owned type, targeting the slice type.
pub open spec fn owned_deref_code(names: NamesView, m: Mutability) -> Seq<char> {
    impl_for_code(
        o2s_trait_path_code(OwnedToSliceTrait::Deref, m),
        names.ty_owned,
        (match m {
            Mutability::Constant => assoc_ty_code("Target"@, names.ty_slice),
            Mutability::Mutable => Seq::<char>::empty(),
        }) + method_code(
            o2s_method_code(OwnedToSliceTrait::Deref, m),
            ref_code(m, "self"@),
            ref_code(m, "Self::Target"@),
            owned_to_slice_body(names, OwnedToSliceTrait::Deref, m),
        ),
    )
}

/// `From<OwnedInner>` for the owned type: the infallible re-wrap, only
/// available when no validator is configured.
pub open spec fn owned_from_inner_code(names: NamesView) -> Seq<char> {
    impl_for_code(
        "std::convert::From<"@ + names.ty_owned_inner + ">"@,
        names.ty_owned,
        method_code(
            "from"@,
            "_v: "@ + names.ty_owned_inner,
            "Self"@,
            wrap_owned_code(names.ty_owned, names.owned_field, "_v"@),
        ),
    )
}

/// `From<Owned>` for the owned inner type: the field projection.
pub open spec fn owned_into_inner_code(names: NamesView) -> Seq<char> {
    impl_for_code(
        "std::convert::From<"@ + names.ty_owned + ">"@,
        names.ty_owned_inner,
        method_code(
            "from"@,
            "_v: "@ + names.ty_owned,
            "Self"@,
            proj_code("_v"@, names.owned_field),
        ),
    )
}

/// The validated inner-to-owned construction: validate the borrowed
/// slice-inner view of the candidate, re-wrap the original value on
/// success, map the error on failure.
pub open spec fn owned_checked_body_code(
    names: NamesView,
    fn_validate: Seq<char>,
    mapped_error: Seq<char>,
) -> Seq<char> {
    validate_match_code(
        fn_validate,
        borrow_inner_code(
            OwnedToSliceTrait::Borrow,
            Mutability::Constant,
            names.ty_owned_inner,
            names.ty_slice_inner,
            "_v"@,
        ),
        wrap_owned_code(names.ty_owned, names.owned_field, "_v"@),
        mapped_error,
    )
}

/// `TryFrom<OwnedInner>` for the owned type: the fallible conversion that
/// reuses the checked-construction logic.
pub open spec fn owned_try_from_inner_code(
    names: NamesView,
    fn_validate: Seq<char>,
    ty_error: Seq<char>,
    mapped_error: Seq<char>,
) -> Seq<char> {
    impl_for_code(
        "std::convert::TryFrom<"@ + names.ty_owned_inner + ">"@,
        names.ty_owned,
        assoc_ty_code("Error"@, ty_error) + method_code(
            "try_from"@,
            "_v: "@ + names.ty_owned_inner,
            "std::result::Result<Self, Self::Error>"@,
            owned_checked_body_code(names, fn_validate, mapped_error),
        ),
    )
}

/// The six operand pairs of the owned type's bulk comparison: the owned
/// type against the slice value, the slice reference, and the
/// copy-on-write slice, on both sides.
pub open spec fn owned_cmp_bulk_code(t: CmpTrait, names: NamesView) -> Seq<char> {
    cmp_impl_slice_code(t, RefType::Owned, RefType::Slice, names) + "\n"@ + cmp_impl_slice_code(
        t,
        RefType::Slice,
        RefType::Owned,
        names,
    ) + "\n"@ + cmp_impl_slice_code(t, RefType::Owned, RefType::RefSlice, names) + "\n"@
        + cmp_impl_slice_code(t, RefType::RefSlice, RefType::Owned, names) + "\n"@
        + cmp_impl_slice_code(t, RefType::Owned, RefType::CowSlice, names) + "\n"@
        + cmp_impl_slice_code(t, RefType::CowSlice, RefType::Owned, names)
}

/// The eight operand pairs of the owned type's inner bulk comparison.
pub open spec fn owned_cmp_inner_bulk_code(t: CmpTrait, names: NamesView) -> Seq<char> {
    crate::traits::cmp_impl_inner_code(t, RefType::Owned, RefType::SliceInner, names) + "\n"@
        + crate::traits::cmp_impl_inner_code(t, RefType::SliceInner, RefType::Owned, names) + "\n"@
        + crate::traits::cmp_impl_inner_code(t, RefType::Owned, RefType::RefSliceInner, names)
        + "\n"@ + crate::traits::cmp_impl_inner_code(t, RefType::RefSliceInner, RefType::Owned, names)
        + "\n"@ + crate::traits::cmp_impl_inner_code(t, RefType::Owned, RefType::CowSliceInner, names)
        + "\n"@ + crate::traits::cmp_impl_inner_code(t, RefType::CowSliceInner, RefType::Owned, names)
        + "\n"@ + crate::traits::cmp_impl_inner_code(t, RefType::Owned, RefType::OwnedInner, names)
        + "\n"@ + crate::traits::cmp_impl_inner_code(t, RefType::OwnedInner, RefType::Owned, names)
}

/// Build the `&Owned -> &SliceInner` method body.
fn to_slice_inner_body(names: &TypeNames, t: OwnedToSliceTrait, m: Mutability) -> (r: String)
    ensures
        r@ == owned_to_slice_inner_body(names@, t, m),
{
    let proj = String::from_str("self").concat(".").concat(names.owned_field.as_str());
    proof {
        assert(proj@ =~= proj_code("self"@, names.owned_field@));
    }
    let inner = crate::expr::OwnedInner::new(proj);
    let si = inner.to_slice_inner_ref(
        t,
        m,
        names.ty_owned_inner.as_str(),
        names.ty_slice_inner.as_str(),
    );
    String::from_str(si.as_str())
}

/// Build the `&Owned -> &Slice` method body.
fn to_slice_body(names: &TypeNames, t: OwnedToSliceTrait, m: Mutability) -> (r: String)
    ensures
        r@ == owned_to_slice_body(names@, t, m),
{
    let si = crate::expr::SliceInner::new(to_slice_inner_body(names, t, m), m);
    let sl = si.to_slice_unchecked(
        names.ty_slice_inner.as_str(),
        names.ty_slice.as_str(),
        Safety::Safe,
    );
    String::from_str(sl.as_str())
}

/// Generate `AsRef<Slice>` or `AsMut<Slice>` for the owned type.
pub fn impl_as_ref_slice(names: &TypeNames, m: Mutability) -> (r: String)
    ensures
        r@ == owned_as_ref_slice_code(names@, m),
{
    let t = OwnedToSliceTrait::AsRef;
    let body = to_slice_body(names, t, m);
    impl_for(
        t.trait_path_with_param(m, names.ty_slice.as_str()).as_str(),
        names.ty_owned.as_str(),
        method_text(
            t.method_name(m).as_str(),
            m.make_ref("self").as_str(),
            m.make_ref(names.ty_slice.as_str()).as_str(),
            body.as_str(),
        ).as_str(),
    )
}

/// Generate `AsRef<SliceInner>` or `AsMut<SliceInner>` for the owned type.
pub fn impl_as_ref_slice_inner(names: &TypeNames, m: Mutability) -> (r: String)
    ensures
        r@ == owned_as_ref_slice_inner_code(names@, m),
{
    let t = OwnedToSliceTrait::AsRef;
    let body = to_slice_inner_body(names, t, m);
    impl_for(
        t.trait_path_with_param(m, names.ty_slice_inner.as_str()).as_str(),
        names.ty_owned.as_str(),
        method_text(
            t.method_name(m).as_str(),
            m.make_ref("self").as_str(),
            m.make_ref(names.ty_slice_inner.as_str()).as_str(),
            body.as_str(),
        ).as_str(),
    )
}

/// Generate `Borrow<Slice>` or `BorrowMut<Slice>` for the owned type.
pub fn impl_borrow(names: &TypeNames, m: Mutability) -> (r: String)
    ensures
        r@ == owned_borrow_code(names@, m),
{
    let t = OwnedToSliceTrait::Borrow;
    let body = to_slice_body(names, t, m);
    impl_for(
        t.trait_path_with_param(m, names.ty_slice.as_str()).as_str(),
        names.ty_owned.as_str(),
        method_text(
            t.method_name(m).as_str(),
            m.make_ref("self").as_str(),
            m.make_ref(names.ty_slice.as_str()).as_str(),
            body.as_str(),
        ).as_str(),
    )
}

/// Generate `Deref` or `DerefMut` for the owned type.
pub fn impl_deref(names: &TypeNames, m: Mutability) -> (r: String)
    ensures
        r@ == owned_deref_code(names@, m),
{
    let t = OwnedToSliceTrait::Deref;
    let body = to_slice_body(names, t, m);
    let method = method_text(
        t.method_name(m).as_str(),
        m.make_ref("self").as_str(),
        m.make_ref("Self::Target").as_str(),
        body.as_str(),
    );
    let inner = match m {
        Mutability::Constant => assoc_ty_text("Target", names.ty_slice.as_str()).concat(
            method.as_str(),
        ),
        Mutability::Mutable => String::new().concat(method.as_str()),
    };
    proof {
        assert(inner@ =~= (match m {
            Mutability::Constant => assoc_ty_code("Target"@, names.ty_slice@),
            Mutability::Mutable => Seq::<char>::empty(),
        }) + method@);
    }
    impl_for(t.trait_path(m).as_str(), names.ty_owned.as_str(), inner.as_str())
}

/// Generate the owned type's own comparison, delegating to the slice
/// comparison of the two operands' canonical views.
pub fn impl_cmp(t: CmpTrait, names: &TypeNames) -> (r: String)
    ensures
        r@ == cmp_impl_slice_code(t, RefType::Owned, RefType::Owned, names@),
{
    t.impl_with_slice(RefType::Owned, RefType::Owned, names)
}

/// Generate the six bulk comparison impls between the owned type and the
/// slice forms.
pub fn impl_cmp_bulk(t: CmpTrait, names: &TypeNames) -> (r: String)
    ensures
        r@ == owned_cmp_bulk_code(t, names@),
{
    let r = t.impl_with_slice(RefType::Owned, RefType::Slice, names).concat("\n").concat(
        t.impl_with_slice(RefType::Slice, RefType::Owned, names).as_str(),
    ).concat("\n").concat(t.impl_with_slice(RefType::Owned, RefType::RefSlice, names).as_str()).concat(
        "\n",
    ).concat(t.impl_with_slice(RefType::RefSlice, RefType::Owned, names).as_str()).concat(
        "\n",
    ).concat(t.impl_with_slice(RefType::Owned, RefType::CowSlice, names).as_str()).concat(
        "\n",
    ).concat(t.impl_with_slice(RefType::CowSlice, RefType::Owned, names).as_str());
    proof {
        assert(r@ =~= owned_cmp_bulk_code(t, names@));
    }
    r
}

/// Generate the eight bulk comparison impls between the owned type and the
/// inner forms.
pub fn impl_cmp_inner_bulk(t: CmpTrait, names: &TypeNames) -> (r: String)
    ensures
        r@ == owned_cmp_inner_bulk_code(t, names@),
{
    let r = t.impl_with_inner(RefType::Owned, RefType::SliceInner, names).concat("\n").concat(
        t.impl_with_inner(RefType::SliceInner, RefType::Owned, names).as_str(),
    ).concat("\n").concat(
        t.impl_with_inner(RefType::Owned, RefType::RefSliceInner, names).as_str(),
    ).concat("\n").concat(
        t.impl_with_inner(RefType::RefSliceInner, RefType::Owned, names).as_str(),
    ).concat("\n").concat(
        t.impl_with_inner(RefType::Owned, RefType::CowSliceInner, names).as_str(),
    ).concat("\n").concat(
        t.impl_with_inner(RefType::CowSliceInner, RefType::Owned, names).as_str(),
    ).concat("\n").concat(t.impl_with_inner(RefType::Owned, RefType::OwnedInner, names).as_str()).concat(
        "\n",
    ).concat(t.impl_with_inner(RefType::OwnedInner, RefType::Owned, names).as_str());
    proof {
        assert(r@ =~= owned_cmp_inner_bulk_code(t, names@));
    }
    r
}

/// Generate `From<OwnedInner>` for the owned type.
pub fn impl_from_inner(names: &TypeNames) -> (r: String)
    ensures
        r@ == owned_from_inner_code(names@),
{
    let trait_part = String::from_str("std::convert::From<").concat(
        names.ty_owned_inner.as_str(),
    ).concat(">");
    let arg = String::from_str("_v: ").concat(names.ty_owned_inner.as_str());
    let body = crate::expr::OwnedInner::new(String::from_str("_v")).to_owned_unchecked(
        names.ty_owned.as_str(),
        names.owned_field.as_str(),
    );
    impl_for(
        trait_part.as_str(),
        names.ty_owned.as_str(),
        method_text("from", arg.as_str(), "Self", body.as_str()).as_str(),
    )
}

/// Generate `From<Owned>` for the owned inner type.
pub fn impl_into_inner(names: &TypeNames) -> (r: String)
    ensures
        r@ == owned_into_inner_code(names@),
{
    let trait_part = String::from_str("std::convert::From<").concat(names.ty_owned.as_str()).concat(
        ">",
    );
    let arg = String::from_str("_v: ").concat(names.ty_owned.as_str());
    let body = String::from_str("_v").concat(".").concat(names.owned_field.as_str());
    proof {
        assert(body@ =~= proj_code("_v"@, names.owned_field@));
    }
    impl_for(
        trait_part.as_str(),
        names.ty_owned_inner.as_str(),
        method_text("from", arg.as_str(), "Self", body.as_str()).as_str(),
    )
}

/// Generate `TryFrom<OwnedInner>` for the owned type, validating through
/// the configured validator.
pub fn impl_try_from_inner(
    names: &TypeNames,
    fn_validate: &str,
    ty_error: &str,
    mapped_error: &str,
) -> (r: String)
    ensures
        r@ == owned_try_from_inner_code(names@, fn_validate@, ty_error@, mapped_error@),
{
    let trait_part = String::from_str("std::convert::TryFrom<").concat(
        names.ty_owned_inner.as_str(),
    ).concat(">");
    let arg = String::from_str("_v: ").concat(names.ty_owned_inner.as_str());
    let candidate = crate::expr::OwnedInner::new(String::from_str("_v")).to_slice_inner_ref(
        OwnedToSliceTrait::Borrow,
        Mutability::Constant,
        names.ty_owned_inner.as_str(),
        names.ty_slice_inner.as_str(),
    );
    let ok_expr = crate::expr::OwnedInner::new(String::from_str("_v")).to_owned_unchecked(
        names.ty_owned.as_str(),
        names.owned_field.as_str(),
    );
    let body = validate_match_text(
        fn_validate,
        candidate.as_str(),
        ok_expr.as_str(),
        mapped_error,
    );
    let inner = assoc_ty_text("Error", ty_error).concat(
        method_text(
            "try_from",
            arg.as_str(),
            "std::result::Result<Self, Self::Error>",
            body.as_str(),
        ).as_str(),
    );
    impl_for(trait_part.as_str(), names.ty_owned.as_str(), inner.as_str())
}

} // verus!
