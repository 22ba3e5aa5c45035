//! Type-level helpers: the names of the four related types, the standard
//! shared-ownership pointers, and the family of operand types the bulk
//! comparison interfaces range over.

use vstd::prelude::*;

use crate::expr::{borrow_inner_code, proj_code};
use crate::props::{ref_code, Mutability};
use crate::traits::OwnedToSliceTrait;

verus! {

/// The names of [`TypeNames`], at the specification level.
pub struct NamesView {
    /// The owned wrapper type.
    pub ty_owned: Seq<char>,
    /// The inner type of the owned wrapper.
    pub ty_owned_inner: Seq<char>,
    /// The slice wrapper type.
    pub ty_slice: Seq<char>,
    /// The inner type of the slice wrapper.
    pub ty_slice_inner: Seq<char>,
    /// Field selector of the owned wrapper.
    pub owned_field: Seq<char>,
    /// Field selector of the slice wrapper.
    pub slice_field: Seq<char>,
}

/// The names that every generated fragment is built from: the two declared
/// wrapper types, their inner types, and the field selectors that project
/// the inner value out of each wrapper.
pub struct TypeNames {
    /// The owned wrapper type.
    pub ty_owned: String,
    /// The inner type of the owned wrapper.
    pub ty_owned_inner: String,
    /// The slice wrapper type.
    pub ty_slice: String,
    /// The inner type of the slice wrapper.
    pub ty_slice_inner: String,
    /// Field selector of the owned wrapper.
    pub owned_field: String,
    /// Field selector of the slice wrapper.
    pub slice_field: String,
}

impl View for TypeNames {
    type V = NamesView;

    open spec fn view(&self) -> NamesView {
        NamesView {
            ty_owned: self.ty_owned@,
            ty_owned_inner: self.ty_owned_inner@,
            ty_slice: self.ty_slice@,
            ty_slice_inner: self.ty_slice_inner@,
            owned_field: self.owned_field@,
            slice_field: self.slice_field@,
        }
    }
}

/// The standard shared-ownership pointers a slice value can be wrapped in.
#[derive(Debug, Clone, Copy, PartialEq, Eq, Structural)]
pub enum StdSmartPtr {
    /// `std::sync::Arc`.
    Arc,
    /// `std::boxed::Box`.
    Box,
    /// `std::rc::Rc`.
    Rc,
}

/// The pointer type applied to an inner type: `std::boxed::Box<T>` etc.
pub open spec fn smartptr_ty_code(p: StdSmartPtr, ty_inner: Seq<char>) -> Seq<char> {
    match p {
        StdSmartPtr::Arc => "std::sync::Arc<"@ + ty_inner + ">"@,
        StdSmartPtr::Box => "std::boxed::Box<"@ + ty_inner + ">"@,
        StdSmartPtr::Rc => "std::rc::Rc<"@ + ty_inner + ">"@,
    }
}

/// Reconstitution of the pointer around a raw pointer:
/// `<Ptr<T>>::from_raw(expr)`.
pub open spec fn smartptr_from_raw_code(
    p: StdSmartPtr,
    ty_inner: Seq<char>,
    expr: Seq<char>,
) -> Seq<char> {
    "<"@ + smartptr_ty_code(p, ty_inner) + ">::from_raw("@ + expr + ")"@
}

/// Escape of the pointer into a raw pointer: `<Ptr<T>>::into_raw(expr)`.
pub open spec fn smartptr_into_raw_code(
    p: StdSmartPtr,
    ty_inner: Seq<char>,
    expr: Seq<char>,
) -> Seq<char> {
    "<"@ + smartptr_ty_code(p, ty_inner) + ">::into_raw("@ + expr + ")"@
}

impl StdSmartPtr {
    pub fn ty(self, ty_inner: &str) -> (r: String)
        ensures
            r@ == smartptr_ty_code(self, ty_inner@),
    {
        match self {
            StdSmartPtr::Arc => String::from_str("std::sync::Arc<").concat(ty_inner).concat(">"),
            StdSmartPtr::Box => String::from_str("std::boxed::Box<").concat(ty_inner).concat(">"),
            StdSmartPtr::Rc => String::from_str("std::rc::Rc<").concat(ty_inner).concat(">"),
        }
    }

    pub fn expr_from_raw(self, ty_inner: &str, expr: &str) -> (r: String)
        ensures
            r@ == smartptr_from_raw_code(self, ty_inner@, expr@),
    {
        let r = String::from_str("<").concat(self.ty(ty_inner).as_str()).concat(
            ">::from_raw(",
        ).concat(expr).concat(")");
        proof {
            assert(r@ =~= smartptr_from_raw_code(self, ty_inner@, expr@));
        }
        r
    }

    pub fn expr_into_raw(self, ty_inner: &str, expr: &str) -> (r: String)
        ensures
            r@ == smartptr_into_raw_code(self, ty_inner@, expr@),
    {
        let r = String::from_str("<").concat(self.ty(ty_inner).as_str()).concat(
            ">::into_raw(",
        ).concat(expr).concat(")");
        proof {
            assert(r@ =~= smartptr_into_raw_code(self, ty_inner@, expr@));
        }
        r
    }
}

/// The operand types the generated comparison interfaces range over.
#[derive(Debug, Clone, Copy, PartialEq, Eq, Structural)]
pub enum RefType {
    /// The slice wrapper itself.
    Slice,
    /// A reference to the slice wrapper.
    RefSlice,
    /// The owned wrapper.
    Owned,
    /// A copy-on-write wrapped slice.
    CowSlice,
    /// The slice inner type itself.
    SliceInner,
    /// A reference to the slice inner type.
    RefSliceInner,
    /// The owned inner type.
    OwnedInner,
    /// A copy-on-write wrapped slice inner value.
    CowSliceInner,
}

/// The operand types whose canonical view reaches the slice wrapper
/// directly: the four outer forms.
pub open spec fn spec_is_outer(rt: RefType) -> bool {
    rt == RefType::Slice || rt == RefType::RefSlice || rt == RefType::Owned || rt
        == RefType::CowSlice
}

/// A free-standing borrow call: `std::borrow::Borrow::<T>::borrow(expr)`.
pub open spec fn borrow_free_code(ty: Seq<char>, expr: Seq<char>) -> Seq<char> {
    "std::borrow::Borrow::<"@ + ty + ">::borrow("@ + expr + ")"@
}

/// The written form of each operand type.
pub open spec fn ref_type_ty_code(rt: RefType, names: NamesView) -> Seq<char> {
    match rt {
        RefType::Slice => names.ty_slice,
        RefType::RefSlice => "&"@ + names.ty_slice,
        RefType::Owned => names.ty_owned,
        RefType::CowSlice => "std::borrow::Cow<'_, "@ + names.ty_slice + ">"@,
        RefType::SliceInner => names.ty_slice_inner,
        RefType::RefSliceInner => "&"@ + names.ty_slice_inner,
        RefType::OwnedInner => names.ty_owned_inner,
        RefType::CowSliceInner => "std::borrow::Cow<'_, "@ + names.ty_slice_inner + ">"@,
    }
}

/// The canonical slice view: how a borrowed operand of this type is turned
/// into a reference to the slice wrapper. Defined for the four outer forms.
pub open spec fn ref_to_slice_ref_code(rt: RefType, names: NamesView, expr: Seq<char>) -> Seq<
    char,
> {
    match rt {
        RefType::Slice => expr,
        RefType::RefSlice => "*"@ + expr,
        _ => borrow_free_code(names.ty_slice, expr),
    }
}

/// The canonical slice-inner view: how a borrowed operand of this type is
/// turned into a reference to the slice inner type. Defined for all forms.
pub open spec fn ref_to_slice_inner_ref_code(
    rt: RefType,
    names: NamesView,
    expr: Seq<char>,
) -> Seq<char> {
    match rt {
        RefType::Slice => ref_code(Mutability::Constant, proj_code(expr, names.slice_field)),
        RefType::RefSlice => ref_code(
            Mutability::Constant,
            proj_code("(*"@ + expr + ")"@, names.slice_field),
        ),
        RefType::Owned => borrow_inner_code(
            OwnedToSliceTrait::Borrow,
            Mutability::Constant,
            names.ty_owned_inner,
            names.ty_slice_inner,
            proj_code(expr, names.owned_field),
        ),
        RefType::CowSlice => ref_code(
            Mutability::Constant,
            proj_code(borrow_free_code(names.ty_slice, expr), names.slice_field),
        ),
        RefType::SliceInner => expr,
        RefType::RefSliceInner => "*"@ + expr,
        RefType::OwnedInner => borrow_free_code(names.ty_slice_inner, expr),
        RefType::CowSliceInner => borrow_free_code(names.ty_slice_inner, expr),
    }
}

impl RefType {
    /// Does this operand's canonical view reach the slice wrapper directly?
    pub fn is_outer(self) -> (r: bool)
        ensures
            r == spec_is_outer(self),
    {
        match self {
            RefType::Slice => true,
            RefType::RefSlice => true,
            RefType::Owned => true,
            RefType::CowSlice => true,
            _ => false,
        }
    }

    /// The written form of this operand type.
    pub fn ty(self, names: &TypeNames) -> (r: String)
        ensures
            r@ == ref_type_ty_code(self, names@),
    {
        match self {
            RefType::Slice => String::from_str(names.ty_slice.as_str()),
            RefType::RefSlice => String::from_str("&").concat(names.ty_slice.as_str()),
            RefType::Owned => String::from_str(names.ty_owned.as_str()),
            RefType::CowSlice => String::from_str("std::borrow::Cow<'_, ").concat(
                names.ty_slice.as_str(),
            ).concat(">"),
            RefType::SliceInner => String::from_str(names.ty_slice_inner.as_str()),
            RefType::RefSliceInner => String::from_str("&").concat(names.ty_slice_inner.as_str()),
            RefType::OwnedInner => String::from_str(names.ty_owned_inner.as_str()),
            RefType::CowSliceInner => String::from_str("std::borrow::Cow<'_, ").concat(
                names.ty_slice_inner.as_str(),
            ).concat(">"),
        }
    }

    /// Convert a borrowed operand expression of this type to a reference to
    /// the slice wrapper — the single ground-truth view every generated
    /// comparison delegates to.
    pub fn ref_to_slice_ref(self, names: &TypeNames, expr: &str) -> (r: String)
        requires
            spec_is_outer(self),
        ensures
            r@ == ref_to_slice_ref_code(self, names@, expr@),
    {
        match self {
            RefType::Slice => String::from_str(expr),
            RefType::RefSlice => String::from_str("*").concat(expr),
            _ => {
                let r = String::from_str("std::borrow::Borrow::<").concat(
                    names.ty_slice.as_str(),
                ).concat(">::borrow(").concat(expr).concat(")");
                proof {
                    assert(r@ =~= borrow_free_code(names.ty_slice@, expr@));
                }
                r
            },
        }
    }

    /// Convert a borrowed operand expression of this type to a reference to
    /// the slice inner type.
    pub fn ref_to_slice_inner_ref(self, names: &TypeNames, expr: &str) -> (r: String)
        ensures
            r@ == ref_to_slice_inner_ref_code(self, names@, expr@),
    {
        match self {
            RefType::Slice => {
                let r = String::from_str("&").concat(expr).concat(".").concat(
                    names.slice_field.as_str(),
                );
                proof {
                    assert(r@ =~= ref_to_slice_inner_ref_code(self, names@, expr@));
                }
                r
            },
            RefType::RefSlice => {
                let r = String::from_str("&").concat("(*").concat(expr).concat(")").concat(
                    ".",
                ).concat(names.slice_field.as_str());
                proof {
                    assert(r@ =~= ref_to_slice_inner_ref_code(self, names@, expr@));
                }
                r
            },
            RefType::Owned => {
                let proj = String::from_str(expr).concat(".").concat(names.owned_field.as_str());
                proof {
                    assert(proj@ =~= proj_code(expr@, names.owned_field@));
                }
                let inner = crate::expr::OwnedInner::new(proj);
                let si = inner.to_slice_inner_ref(
                    OwnedToSliceTrait::Borrow,
                    Mutability::Constant,
                    names.ty_owned_inner.as_str(),
                    names.ty_slice_inner.as_str(),
                );
                String::from_str(si.as_str())
            },
            RefType::CowSlice => {
                let r = String::from_str("&").concat("std::borrow::Borrow::<").concat(
                    names.ty_slice.as_str(),
                ).concat(">::borrow(").concat(expr).concat(")").concat(".").concat(
                    names.slice_field.as_str(),
                );
                proof {
                    assert(r@ =~= ref_to_slice_inner_ref_code(self, names@, expr@));
                }
                r
            },
            RefType::SliceInner => String::from_str(expr),
            RefType::RefSliceInner => String::from_str("*").concat(expr),
            _ => {
                let r = String::from_str("std::borrow::Borrow::<").concat(
                    names.ty_slice_inner.as_str(),
                ).concat(">::borrow(").concat(expr).concat(")");
                proof {
                    assert(r@ =~= ref_to_slice_inner_ref_code(self, names@, expr@));
                }
                r
            },
        }
    }
}

} // verus!
