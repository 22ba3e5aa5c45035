//! Generated trait impls for the slice role type.

use vstd::prelude::*;

use crate::emit::{
    assoc_ty_code, assoc_ty_text, impl_for, impl_for_code, impl_lt_for, impl_lt_for_code,
    method_code, method_text, validate_match_code, validate_match_text,
};
use crate::expr::{clone_inner_code, proj_code, reinterpret_code, wrap_owned_code};
use crate::props::{ref_code, ref_lt_code, unsafe_code, Mutability, Safety};
use crate::traits::{
    cmp_impl_inner_code, cmp_impl_slice_code, o2s_method_code, o2s_trait_param_code,
    o2s_trait_path_code, CmpTrait, OwnedToSliceTrait,
};
use crate::types::{
    smartptr_from_raw_code, smartptr_into_raw_code, smartptr_ty_code, NamesView, RefType,
    StdSmartPtr, TypeNames,
};

verus! {

/// `&Slice` taken down to `&SliceInner`: the field projection.
pub open spec fn slice_to_inner_body(names: NamesView, m: Mutability) -> Seq<char> {
    ref_code(m, proj_code("self"@, names.slice_field))
}

/// `AsRef<Slice>` / `AsMut<Slice>` for the slice type: the identity.
pub open spec fn slice_as_ref_slice_code(names: NamesView, m: Mutability) -> Seq<char> {
    impl_for_code(
        o2s_trait_param_code(OwnedToSliceTrait::AsRef, m, names.ty_slice),
        names.ty_slice,
        method_code(
            o2s_method_code(OwnedToSliceTrait::AsRef, m),
            ref_code(m, "self"@),
            ref_code(m, names.ty_slice),
            "self"@,
        ),
    )
}

/// `AsRef<SliceInner>` / `AsMut<SliceInner>` for the slice type.
pub open spec fn slice_as_ref_slice_inner_code(names: NamesView, m: Mutability) -> Seq<char> {
    impl_for_code(
        o2s_trait_param_code(OwnedToSliceTrait::AsRef, m, names.ty_slice_inner),
        names.ty_slice,
        method_code(
            o2s_method_code(OwnedToSliceTrait::AsRef, m),
            ref_code(m, "self"@),
            ref_code(m, names.ty_slice_inner),
            slice_to_inner_body(names, m),
        ),
    )
}

/// `Deref` / `DerefMut` for the slice type, targeting the inner type.
pub open spec fn slice_deref_code(names: NamesView, m: Mutability) -> Seq<char> {
    impl_for_code(
        o2s_trait_path_code(OwnedToSliceTrait::Deref, m),
        names.ty_slice,
        (match m {
            Mutability::Constant => assoc_ty_code("Target"@, names.ty_slice_inner),
            Mutability::Mutable => Seq::<char>::empty(),
        }) + method_code(
            o2s_method_code(OwnedToSliceTrait::Deref, m),
            ref_code(m, "self"@),
            ref_code(m, "Self::Target"@),
            slice_to_inner_body(names, m),
        ),
    )
}

/// The four operand pairs of the slice type's bulk comparison.
pub open spec fn slice_cmp_bulk_code(t: CmpTrait, names: NamesView) -> Seq<char> {
    cmp_impl_slice_code(t, RefType::Slice, RefType::RefSlice, names) + "\n"@ + cmp_impl_slice_code(
        t,
        RefType::RefSlice,
        RefType::Slice,
        names,
    ) + "\n"@ + cmp_impl_slice_code(t, RefType::Slice, RefType::CowSlice, names) + "\n"@
        + cmp_impl_slice_code(t, RefType::CowSlice, RefType::Slice, names)
}

/// The fourteen operand pairs of the slice type's inner bulk comparison.
pub open spec fn slice_cmp_inner_bulk_code(t: CmpTrait, names: NamesView) -> Seq<char> {
    cmp_impl_inner_code(t, RefType::Slice, RefType::SliceInner, names) + "\n"@
        + cmp_impl_inner_code(t, RefType::SliceInner, RefType::Slice, names) + "\n"@
        + cmp_impl_inner_code(t, RefType::Slice, RefType::RefSliceInner, names) + "\n"@
        + cmp_impl_inner_code(t, RefType::RefSliceInner, RefType::Slice, names) + "\n"@
        + cmp_impl_inner_code(t, RefType::Slice, RefType::OwnedInner, names) + "\n"@
        + cmp_impl_inner_code(t, RefType::OwnedInner, RefType::Slice, names) + "\n"@
        + cmp_impl_inner_code(t, RefType::Slice, RefType::CowSliceInner, names) + "\n"@
        + cmp_impl_inner_code(t, RefType::CowSliceInner, RefType::Slice, names) + "\n"@
        + cmp_impl_inner_code(t, RefType::RefSlice, RefType::SliceInner, names) + "\n"@
        + cmp_impl_inner_code(t, RefType::SliceInner, RefType::RefSlice, names) + "\n"@
        + cmp_impl_inner_code(t, RefType::RefSlice, RefType::OwnedInner, names) + "\n"@
        + cmp_impl_inner_code(t, RefType::OwnedInner, RefType::RefSlice, names) + "\n"@
        + cmp_impl_inner_code(t, RefType::RefSlice, RefType::CowSliceInner, names) + "\n"@
        + cmp_impl_inner_code(t, RefType::CowSliceInner, RefType::RefSlice, names)
}

/// `Default` for `&Slice` / `&mut Slice`: the default of the inner
/// reference, reinterpreted.
pub open spec fn slice_default_ref_code(names: NamesView, m: Mutability) -> Seq<char> {
    impl_for_code(
        "std::default::Default"@,
        ref_code(m, names.ty_slice),
        method_code(
            "default"@,
            ""@,
            "Self"@,
            reinterpret_code(
                m,
                Safety::Safe,
                names.ty_slice_inner,
                names.ty_slice,
                "<"@ + ref_code(m, names.ty_slice_inner) + " as std::default::Default>::default()"@,
            ),
        ),
    )
}

/// The reconstitution of a shared-ownership pointer around a reinterpreted
/// raw pointer: `<Ptr<Slice>>::from_raw(inner_raw as *mut Slice)`.
pub open spec fn smartptr_reinterpret_code(
    p: StdSmartPtr,
    names: NamesView,
    inner_expr: Seq<char>,
) -> Seq<char> {
    smartptr_from_raw_code(
        p,
        names.ty_slice,
        smartptr_into_raw_code(p, names.ty_slice_inner, inner_expr) + " as *mut "@
            + names.ty_slice,
    )
}

/// `Default` for a shared-ownership-wrapped slice: default-construct the
/// pointer around the inner type, then cross the raw-pointer boundary.
pub open spec fn slice_default_smartptr_code(names: NamesView, p: StdSmartPtr) -> Seq<char> {
    impl_for_code(
        "std::default::Default"@,
        smartptr_ty_code(p, names.ty_slice),
        method_code(
            "default"@,
            ""@,
            "Self"@,
            unsafe_code(
                Safety::Safe,
                smartptr_reinterpret_code(
                    p,
                    names,
                    "<"@ + smartptr_ty_code(p, names.ty_slice_inner)
                        + " as std::default::Default>::default()"@,
                ),
            ),
        ),
    )
}

/// `From<&Slice>` for a shared-ownership-wrapped slice.
pub open spec fn slice_into_smartptr_code(names: NamesView, p: StdSmartPtr) -> Seq<char> {
    impl_for_code(
        "std::convert::From<&"@ + names.ty_slice + ">"@,
        smartptr_ty_code(p, names.ty_slice),
        method_code(
            "from"@,
            "_v: &"@ + names.ty_slice,
            "Self"@,
            unsafe_code(
                Safety::Safe,
                smartptr_reinterpret_code(
                    p,
                    names,
                    "<"@ + smartptr_ty_code(p, names.ty_slice_inner) + ">::from("@ + ref_code(
                        Mutability::Constant,
                        proj_code("_v"@, names.slice_field),
                    ) + ")"@,
                ),
            ),
        ),
    )
}

/// `ToOwned` for the slice type: clone the inner representation and re-wrap
/// it in the owned type.
pub open spec fn slice_to_owned_code(names: NamesView) -> Seq<char> {
    impl_for_code(
        "std::borrow::ToOwned"@,
        names.ty_slice,
        assoc_ty_code("Owned"@, names.ty_owned) + method_code(
            "to_owned"@,
            ref_code(Mutability::Constant, "self"@),
            "Self::Owned"@,
            wrap_owned_code(
                names.ty_owned,
                names.owned_field,
                clone_inner_code(
                    names.ty_slice_inner,
                    ref_code(Mutability::Constant, proj_code("self"@, names.slice_field)),
                ),
            ),
        ),
    )
}

/// `From<&SliceInner>` for `&Slice` (and the `mut` forms): the infallible
/// reinterpretation, only available when no validator is configured.
pub open spec fn slice_from_inner_code(names: NamesView, m: Mutability) -> Seq<char> {
    impl_lt_for_code(
        "std::convert::From<"@ + ref_lt_code(m, names.ty_slice_inner) + ">"@,
        ref_lt_code(m, names.ty_slice),
        method_code(
            "from"@,
            "_v: "@ + ref_lt_code(m, names.ty_slice_inner),
            "Self"@,
            reinterpret_code(m, Safety::Safe, names.ty_slice_inner, names.ty_slice, "_v"@),
        ),
    )
}

/// The validated inner-to-slice construction: validate the candidate,
/// reinterpret it on success, map the error on failure.
pub open spec fn slice_checked_body_code(
    names: NamesView,
    m: Mutability,
    ctx: Safety,
    fn_validate: Seq<char>,
    mapped_error: Seq<char>,
) -> Seq<char> {
    validate_match_code(
        fn_validate,
        "_v"@,
        reinterpret_code(m, ctx, names.ty_slice_inner, names.ty_slice, "_v"@),
        mapped_error,
    )
}

/// `TryFrom<&SliceInner>` for `&Slice` (and the `mut` forms).
pub open spec fn slice_try_from_inner_code(
    names: NamesView,
    m: Mutability,
    fn_validate: Seq<char>,
    ty_error: Seq<char>,
    mapped_error: Seq<char>,
) -> Seq<char> {
    impl_lt_for_code(
        "std::convert::TryFrom<"@ + ref_lt_code(m, names.ty_slice_inner) + ">"@,
        ref_lt_code(m, names.ty_slice),
        assoc_ty_code("Error"@, ty_error) + method_code(
            "try_from"@,
            "_v: "@ + ref_lt_code(m, names.ty_slice_inner),
            "std::result::Result<Self, Self::Error>"@,
            slice_checked_body_code(names, m, Safety::Safe, fn_validate, mapped_error),
        ),
    )
}

/// Build the `&Slice -> &SliceInner` method body.
fn to_inner_body(names: &TypeNames, m: Mutability) -> (r: String)
    ensures
        r@ == slice_to_inner_body(names@, m),
{
    let sl = crate::expr::Slice::new(String::from_str("self"), m);
    let si = sl.to_slice_inner_ref(names.slice_field.as_str());
    String::from_str(si.as_str())
}

/// Build the reinterpretation of the expression `_v`.
fn reinterpret_v(names: &TypeNames, m: Mutability, ctx: Safety) -> (r: String)
    ensures
        r@ == reinterpret_code(m, ctx, names.ty_slice_inner@, names.ty_slice@, "_v"@),
{
    let si = crate::expr::SliceInner::new(String::from_str("_v"), m);
    let sl = si.to_slice_unchecked(names.ty_slice_inner.as_str(), names.ty_slice.as_str(), ctx);
    String::from_str(sl.as_str())
}

/// Generate `AsRef<Slice>` or `AsMut<Slice>` for the slice type.
pub fn impl_as_ref_slice(names: &TypeNames, m: Mutability) -> (r: String)
    ensures
        r@ == slice_as_ref_slice_code(names@, m),
{
    let t = OwnedToSliceTrait::AsRef;
    impl_for(
        t.trait_path_with_param(m, names.ty_slice.as_str()).as_str(),
        names.ty_slice.as_str(),
        method_text(
            t.method_name(m).as_str(),
            m.make_ref("self").as_str(),
            m.make_ref(names.ty_slice.as_str()).as_str(),
            "self",
        ).as_str(),
    )
}

/// Generate `AsRef<SliceInner>` or `AsMut<SliceInner>` for the slice type.
pub fn impl_as_ref_slice_inner(names: &TypeNames, m: Mutability) -> (r: String)
    ensures
        r@ == slice_as_ref_slice_inner_code(names@, m),
{
    let t = OwnedToSliceTrait::AsRef;
    let body = to_inner_body(names, m);
    impl_for(
        t.trait_path_with_param(m, names.ty_slice_inner.as_str()).as_str(),
        names.ty_slice.as_str(),
        method_text(
            t.method_name(m).as_str(),
            m.make_ref("self").as_str(),
            m.make_ref(names.ty_slice_inner.as_str()).as_str(),
            body.as_str(),
        ).as_str(),
    )
}

/// Generate `Deref` or `DerefMut` for the slice type.
pub fn impl_deref(names: &TypeNames, m: Mutability) -> (r: String)
    ensures
        r@ == slice_deref_code(names@, m),
{
    let t = OwnedToSliceTrait::Deref;
    let body = to_inner_body(names, m);
    let method = method_text(
        t.method_name(m).as_str(),
        m.make_ref("self").as_str(),
        m.make_ref("Self::Target").as_str(),
        body.as_str(),
    );
    let inner = match m {
        Mutability::Constant => assoc_ty_text("Target", names.ty_slice_inner.as_str()).concat(
            method.as_str(),
        ),
        Mutability::Mutable => String::new().concat(method.as_str()),
    };
    proof {
        assert(inner@ =~= (match m {
            Mutability::Constant => assoc_ty_code("Target"@, names.ty_slice_inner@),
            Mutability::Mutable => Seq::<char>::empty(),
        }) + method@);
    }
    impl_for(t.trait_path(m).as_str(), names.ty_slice.as_str(), inner.as_str())
}

/// Generate the four bulk comparison impls among the slice forms.
pub fn impl_cmp_bulk(t: CmpTrait, names: &TypeNames) -> (r: String)
    ensures
        r@ == slice_cmp_bulk_code(t, names@),
{
    let r = t.impl_with_slice(RefType::Slice, RefType::RefSlice, names).concat("\n").concat(
        t.impl_with_slice(RefType::RefSlice, RefType::Slice, names).as_str(),
    ).concat("\n").concat(t.impl_with_slice(RefType::Slice, RefType::CowSlice, names).as_str()).concat(
        "\n",
    ).concat(t.impl_with_slice(RefType::CowSlice, RefType::Slice, names).as_str());
    proof {
        assert(r@ =~= slice_cmp_bulk_code(t, names@));
    }
    r
}

/// Generate the fourteen bulk comparison impls between the slice forms and
/// the inner forms.
pub fn impl_cmp_inner_bulk(t: CmpTrait, names: &TypeNames) -> (r: String)
    ensures
        r@ == slice_cmp_inner_bulk_code(t, names@),
{
    let r = t.impl_with_inner(RefType::Slice, RefType::SliceInner, names).concat("\n").concat(
        t.impl_with_inner(RefType::SliceInner, RefType::Slice, names).as_str(),
    ).concat("\n").concat(
        t.impl_with_inner(RefType::Slice, RefType::RefSliceInner, names).as_str(),
    ).concat("\n").concat(
        t.impl_with_inner(RefType::RefSliceInner, RefType::Slice, names).as_str(),
    ).concat("\n").concat(t.impl_with_inner(RefType::Slice, RefType::OwnedInner, names).as_str()).concat(
        "\n",
    ).concat(t.impl_with_inner(RefType::OwnedInner, RefType::Slice, names).as_str()).concat(
        "\n",
    ).concat(t.impl_with_inner(RefType::Slice, RefType::CowSliceInner, names).as_str()).concat(
        "\n",
    ).concat(t.impl_with_inner(RefType::CowSliceInner, RefType::Slice, names).as_str()).concat(
        "\n",
    ).concat(t.impl_with_inner(RefType::RefSlice, RefType::SliceInner, names).as_str()).concat(
        "\n",
    ).concat(t.impl_with_inner(RefType::SliceInner, RefType::RefSlice, names).as_str()).concat(
        "\n",
    ).concat(t.impl_with_inner(RefType::RefSlice, RefType::OwnedInner, names).as_str()).concat(
        "\n",
    ).concat(t.impl_with_inner(RefType::OwnedInner, RefType::RefSlice, names).as_str()).concat(
        "\n",
    ).concat(t.impl_with_inner(RefType::RefSlice, RefType::CowSliceInner, names).as_str()).concat(
        "\n",
    ).concat(t.impl_with_inner(RefType::CowSliceInner, RefType::RefSlice, names).as_str());
    proof {
        assert(r@ =~= slice_cmp_inner_bulk_code(t, names@));
    }
    r
}

/// Generate `Default` for `&Slice` or `&mut Slice`.
pub fn impl_default_ref(names: &TypeNames, m: Mutability) -> (r: String)
    ensures
        r@ == slice_default_ref_code(names@, m),
{
    let inner_default = String::from_str("<").concat(
        m.make_ref(names.ty_slice_inner.as_str()).as_str(),
    ).concat(" as std::default::Default>::default()");
    proof {
        assert(inner_default@ =~= "<"@ + ref_code(m, names.ty_slice_inner@)
            + " as std::default::Default>::default()"@);
    }
    let si = crate::expr::SliceInner::new(inner_default, m);
    let body = si.to_slice_unchecked(
        names.ty_slice_inner.as_str(),
        names.ty_slice.as_str(),
        Safety::Safe,
    );
    impl_for(
        "std::default::Default",
        m.make_ref(names.ty_slice.as_str()).as_str(),
        method_text("default", "", "Self", body.as_str()).as_str(),
    )
}

/// Build the pointer reconstitution around a reinterpreted raw pointer.
fn smartptr_reinterpret(p: StdSmartPtr, names: &TypeNames, inner_expr: &str) -> (r: String)
    ensures
        r@ == smartptr_reinterpret_code(p, names@, inner_expr@),
{
    let raw = p.expr_into_raw(names.ty_slice_inner.as_str(), inner_expr).concat(
        " as *mut ",
    ).concat(names.ty_slice.as_str());
    p.expr_from_raw(names.ty_slice.as_str(), raw.as_str())
}

/// Generate `Default` for an `Arc`-, `Box`-, or `Rc`-wrapped slice.
pub fn impl_default_smartptr(names: &TypeNames, p: StdSmartPtr) -> (r: String)
    ensures
        r@ == slice_default_smartptr_code(names@, p),
{
    let inner_default = String::from_str("<").concat(
        p.ty(names.ty_slice_inner.as_str()).as_str(),
    ).concat(" as std::default::Default>::default()");
    proof {
        assert(inner_default@ =~= "<"@ + smartptr_ty_code(p, names.ty_slice_inner@)
            + " as std::default::Default>::default()"@);
    }
    let body = Safety::Safe.wrap_unsafe_expr(
        smartptr_reinterpret(p, names, inner_default.as_str()).as_str(),
    );
    impl_for(
        "std::default::Default",
        p.ty(names.ty_slice.as_str()).as_str(),
        method_text("default", "", "Self", body.as_str()).as_str(),
    )
}

/// Generate `From<&Slice>` for an `Arc`-, `Box`-, or `Rc`-wrapped slice.
pub fn impl_into_smartptr(names: &TypeNames, p: StdSmartPtr) -> (r: String)
    ensures
        r@ == slice_into_smartptr_code(names@, p),
{
    let trait_part = String::from_str("std::convert::From<&").concat(names.ty_slice.as_str()).concat(
        ">",
    );
    let arg = String::from_str("_v: &").concat(names.ty_slice.as_str());
    let arg_inner = crate::expr::Slice::new(
        String::from_str("_v"),
        Mutability::Constant,
    ).to_slice_inner_ref(names.slice_field.as_str());
    let inner_from = String::from_str("<").concat(p.ty(names.ty_slice_inner.as_str()).as_str()).concat(
        ">::from(",
    ).concat(arg_inner.as_str()).concat(")");
    proof {
        assert(inner_from@ =~= "<"@ + smartptr_ty_code(p, names.ty_slice_inner@) + ">::from("@
            + ref_code(Mutability::Constant, proj_code("_v"@, names.slice_field@)) + ")"@);
    }
    let body = Safety::Safe.wrap_unsafe_expr(
        smartptr_reinterpret(p, names, inner_from.as_str()).as_str(),
    );
    impl_for(
        trait_part.as_str(),
        p.ty(names.ty_slice.as_str()).as_str(),
        method_text("from", arg.as_str(), "Self", body.as_str()).as_str(),
    )
}

/// Generate `ToOwned` for the slice type.
pub fn impl_to_owned(names: &TypeNames) -> (r: String)
    ensures
        r@ == slice_to_owned_code(names@),
{
    let si = crate::expr::Slice::new(
        String::from_str("self"),
        Mutability::Constant,
    ).to_slice_inner_ref(names.slice_field.as_str());
    let oi = si.to_owned_inner(names.ty_slice_inner.as_str());
    let body = oi.to_owned_unchecked(names.ty_owned.as_str(), names.owned_field.as_str());
    let inner = assoc_ty_text("Owned", names.ty_owned.as_str()).concat(
        method_text(
            "to_owned",
            Mutability::Constant.make_ref("self").as_str(),
            "Self::Owned",
            body.as_str(),
        ).as_str(),
    );
    impl_for("std::borrow::ToOwned", names.ty_slice.as_str(), inner.as_str())
}

/// Generate `From<&SliceInner>` for `&Slice` (or the `mut` forms).
pub fn impl_from_inner(names: &TypeNames, m: Mutability) -> (r: String)
    ensures
        r@ == slice_from_inner_code(names@, m),
{
    let ref_inner = m.make_ref_with_lifetime(names.ty_slice_inner.as_str());
    let trait_part = String::from_str("std::convert::From<").concat(ref_inner.as_str()).concat(">");
    let arg = String::from_str("_v: ").concat(ref_inner.as_str());
    let body = reinterpret_v(names, m, Safety::Safe);
    impl_lt_for(
        trait_part.as_str(),
        m.make_ref_with_lifetime(names.ty_slice.as_str()).as_str(),
        method_text("from", arg.as_str(), "Self", body.as_str()).as_str(),
    )
}

/// Generate `TryFrom<&SliceInner>` for `&Slice` (or the `mut` forms),
/// validating through the configured validator.
pub fn impl_try_from_inner(
    names: &TypeNames,
    m: Mutability,
    fn_validate: &str,
    ty_error: &str,
    mapped_error: &str,
) -> (r: String)
    ensures
        r@ == slice_try_from_inner_code(names@, m, fn_validate@, ty_error@, mapped_error@),
{
    let ref_inner = m.make_ref_with_lifetime(names.ty_slice_inner.as_str());
    let trait_part = String::from_str("std::convert::TryFrom<").concat(ref_inner.as_str()).concat(
        ">",
    );
    let arg = String::from_str("_v: ").concat(ref_inner.as_str());
    let ok_expr = reinterpret_v(names, m, Safety::Safe);
    let body = validate_match_text(fn_validate, "_v", ok_expr.as_str(), mapped_error);
    let inner = assoc_ty_text("Error", ty_error).concat(
        method_text(
            "try_from",
            arg.as_str(),
            "std::result::Result<Self, Self::Error>",
            body.as_str(),
        ).as_str(),
    );
    impl_lt_for(
        trait_part.as_str(),
        m.make_ref_with_lifetime(names.ty_slice.as_str()).as_str(),
        inner.as_str(),
    )
}

} // verus!
