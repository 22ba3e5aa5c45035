//! Selection of the standard interfaces a generated impl can delegate to.

use vstd::prelude::*;

use crate::props::Mutability;
use crate::types::{
    ref_to_slice_inner_ref_code, ref_to_slice_ref_code, ref_type_ty_code, spec_is_outer, NamesView,
    RefType, TypeNames,
};

verus! {

/// The three families of interfaces that convert an owned value to a view of
/// the slice type, in constant and mutable variants.
#[derive(Debug, Clone, Copy, PartialEq, Eq, Structural)]
pub enum OwnedToSliceTrait {
    /// `AsRef` / `AsMut`.
    AsRef,
    /// `Borrow` / `BorrowMut`.
    Borrow,
    /// `Deref` / `DerefMut`.
    Deref,
}

/// Full path of the selected trait.
pub open spec fn o2s_trait_path_code(t: OwnedToSliceTrait, m: Mutability) -> Seq<char> {
    match (t, m) {
        (OwnedToSliceTrait::AsRef, Mutability::Constant) => "std::convert::AsRef"@,
        (OwnedToSliceTrait::AsRef, Mutability::Mutable) => "std::convert::AsMut"@,
        (OwnedToSliceTrait::Borrow, Mutability::Constant) => "std::borrow::Borrow"@,
        (OwnedToSliceTrait::Borrow, Mutability::Mutable) => "std::borrow::BorrowMut"@,
        (OwnedToSliceTrait::Deref, Mutability::Constant) => "std::ops::Deref"@,
        (OwnedToSliceTrait::Deref, Mutability::Mutable) => "std::ops::DerefMut"@,
    }
}

/// Path of the selected trait with its type parameter where the trait takes
/// one (`Deref` fixes its target through an associated type instead).
pub open spec fn o2s_trait_param_code(
    t: OwnedToSliceTrait,
    m: Mutability,
    ty_target: Seq<char>,
) -> Seq<char> {
    match t {
        OwnedToSliceTrait::Deref => o2s_trait_path_code(t, m),
        _ => o2s_trait_path_code(t, m) + "<"@ + ty_target + ">"@,
    }
}

/// Method name of the selected trait.
pub open spec fn o2s_method_code(t: OwnedToSliceTrait, m: Mutability) -> Seq<char> {
    match (t, m) {
        (OwnedToSliceTrait::AsRef, Mutability::Constant) => "as_ref"@,
        (OwnedToSliceTrait::AsRef, Mutability::Mutable) => "as_mut"@,
        (OwnedToSliceTrait::Borrow, Mutability::Constant) => "borrow"@,
        (OwnedToSliceTrait::Borrow, Mutability::Mutable) => "borrow_mut"@,
        (OwnedToSliceTrait::Deref, Mutability::Constant) => "deref"@,
        (OwnedToSliceTrait::Deref, Mutability::Mutable) => "deref_mut"@,
    }
}

/// Fully qualified method path: `<Owner as Trait<Target>>::method`.
pub open spec fn o2s_path_method_code(
    t: OwnedToSliceTrait,
    m: Mutability,
    ty_owner: Seq<char>,
    ty_target: Seq<char>,
) -> Seq<char> {
    "<"@ + ty_owner + " as "@ + o2s_trait_param_code(t, m, ty_target) + ">::"@ + o2s_method_code(
        t,
        m,
    )
}

/// A call of the fully qualified method on one argument expression.
pub open spec fn o2s_call_code(
    t: OwnedToSliceTrait,
    m: Mutability,
    ty_owner: Seq<char>,
    ty_target: Seq<char>,
    arg: Seq<char>,
) -> Seq<char> {
    o2s_path_method_code(t, m, ty_owner, ty_target) + "("@ + arg + ")"@
}

impl OwnedToSliceTrait {
    pub fn trait_path(self, m: Mutability) -> (r: String)
        ensures
            r@ == o2s_trait_path_code(self, m),
    {
        match (self, m) {
            (OwnedToSliceTrait::AsRef, Mutability::Constant) => String::from_str(
                "std::convert::AsRef",
            ),
            (OwnedToSliceTrait::AsRef, Mutability::Mutable) => String::from_str(
                "std::convert::AsMut",
            ),
            (OwnedToSliceTrait::Borrow, Mutability::Constant) => String::from_str(
                "std::borrow::Borrow",
            ),
            (OwnedToSliceTrait::Borrow, Mutability::Mutable) => String::from_str(
                "std::borrow::BorrowMut",
            ),
            (OwnedToSliceTrait::Deref, Mutability::Constant) => String::from_str("std::ops::Deref"),
            (OwnedToSliceTrait::Deref, Mutability::Mutable) => String::from_str(
                "std::ops::DerefMut",
            ),
        }
    }

    pub fn trait_path_with_param(self, m: Mutability, ty_target: &str) -> (r: String)
        ensures
            r@ == o2s_trait_param_code(self, m, ty_target@),
    {
        match self {
            OwnedToSliceTrait::Deref => self.trait_path(m),
            _ => self.trait_path(m).concat("<").concat(ty_target).concat(">"),
        }
    }

    pub fn method_name(self, m: Mutability) -> (r: String)
        ensures
            r@ == o2s_method_code(self, m),
    {
        match (self, m) {
            (OwnedToSliceTrait::AsRef, Mutability::Constant) => String::from_str("as_ref"),
            (OwnedToSliceTrait::AsRef, Mutability::Mutable) => String::from_str("as_mut"),
            (OwnedToSliceTrait::Borrow, Mutability::Constant) => String::from_str("borrow"),
            (OwnedToSliceTrait::Borrow, Mutability::Mutable) => String::from_str("borrow_mut"),
            (OwnedToSliceTrait::Deref, Mutability::Constant) => String::from_str("deref"),
            (OwnedToSliceTrait::Deref, Mutability::Mutable) => String::from_str("deref_mut"),
        }
    }

    pub fn path_method(self, m: Mutability, ty_owner: &str, ty_target: &str) -> (r: String)
        ensures
            r@ == o2s_path_method_code(self, m, ty_owner@, ty_target@),
    {
        let r = String::from_str("<").concat(ty_owner).concat(" as ").concat(
            self.trait_path_with_param(m, ty_target).as_str(),
        ).concat(">::").concat(self.method_name(m).as_str());
        proof {
            assert(r@ =~= o2s_path_method_code(self, m, ty_owner@, ty_target@));
        }
        r
    }

    pub fn expr_call(self, m: Mutability, ty_owner: &str, ty_target: &str, arg: &str) -> (r:
        String)
        ensures
            r@ == o2s_call_code(self, m, ty_owner@, ty_target@, arg@),
    {
        let r = self.path_method(m, ty_owner, ty_target).concat("(").concat(arg).concat(")");
        proof {
            assert(r@ =~= o2s_call_code(self, m, ty_owner@, ty_target@, arg@));
        }
        r
    }
}

/// The two comparison interfaces the generator can spread over a family of
/// operand types.
#[derive(Debug, Clone, Copy, PartialEq, Eq, Structural)]
pub enum CmpTrait {
    /// `std::cmp::PartialEq`.
    PartialEq,
    /// `std::cmp::PartialOrd`.
    PartialOrd,
}

/// Full path of the comparison trait.
pub open spec fn cmp_trait_path_code(t: CmpTrait) -> Seq<char> {
    match t {
        CmpTrait::PartialEq => "std::cmp::PartialEq"@,
        CmpTrait::PartialOrd => "std::cmp::PartialOrd"@,
    }
}

/// Method name of the comparison trait.
pub open spec fn cmp_method_code(t: CmpTrait) -> Seq<char> {
    match t {
        CmpTrait::PartialEq => "eq"@,
        CmpTrait::PartialOrd => "partial_cmp"@,
    }
}

/// Return type of the comparison method.
pub open spec fn cmp_ret_code(t: CmpTrait) -> Seq<char> {
    match t {
        CmpTrait::PartialEq => "bool"@,
        CmpTrait::PartialOrd => "Option<std::cmp::Ordering>"@,
    }
}

/// The ground-truth comparison every generated overload delegates to: the
/// comparison method of the slice-level type `ty_ground`, applied to the two
/// canonical views `a` and `b`.
pub open spec fn cmp_ground_call_code(
    t: CmpTrait,
    ty_ground: Seq<char>,
    a: Seq<char>,
    b: Seq<char>,
) -> Seq<char> {
    cmp_trait_path_code(t) + "::<"@ + ty_ground + ">::"@ + cmp_method_code(t) + "("@ + a + ", "@
        + b + ")"@
}

/// The header of a generated comparison impl between two operand types.
pub open spec fn cmp_impl_header_code(
    t: CmpTrait,
    lhs: RefType,
    rhs: RefType,
    names: NamesView,
) -> Seq<char> {
    "impl "@ + cmp_trait_path_code(t) + "<"@ + ref_type_ty_code(rhs, names) + "> for "@
        + ref_type_ty_code(lhs, names) + " { fn "@ + cmp_method_code(t) + "(&self, __other: &"@
        + ref_type_ty_code(rhs, names) + ") -> "@ + cmp_ret_code(t) + " { "@
}

/// A whole comparison impl that delegates to the slice wrapper's own
/// comparison of the two operands' canonical slice views.
pub open spec fn cmp_impl_slice_code(
    t: CmpTrait,
    lhs: RefType,
    rhs: RefType,
    names: NamesView,
) -> Seq<char> {
    cmp_impl_header_code(t, lhs, rhs, names) + cmp_ground_call_code(
        t,
        names.ty_slice,
        ref_to_slice_ref_code(lhs, names, "self"@),
        ref_to_slice_ref_code(rhs, names, "__other"@),
    ) + " } }"@
}

/// A whole comparison impl that delegates to the slice inner type's own
/// comparison of the two operands' canonical slice-inner views.
pub open spec fn cmp_impl_inner_code(
    t: CmpTrait,
    lhs: RefType,
    rhs: RefType,
    names: NamesView,
) -> Seq<char> {
    cmp_impl_header_code(t, lhs, rhs, names) + cmp_ground_call_code(
        t,
        names.ty_slice_inner,
        ref_to_slice_inner_ref_code(lhs, names, "self"@),
        ref_to_slice_inner_ref_code(rhs, names, "__other"@),
    ) + " } }"@
}

impl CmpTrait {
    pub fn trait_path(self) -> (r: String)
        ensures
            r@ == cmp_trait_path_code(self),
    {
        match self {
            CmpTrait::PartialEq => String::from_str("std::cmp::PartialEq"),
            CmpTrait::PartialOrd => String::from_str("std::cmp::PartialOrd"),
        }
    }

    pub fn method_name(self) -> (r: String)
        ensures
            r@ == cmp_method_code(self),
    {
        match self {
            CmpTrait::PartialEq => String::from_str("eq"),
            CmpTrait::PartialOrd => String::from_str("partial_cmp"),
        }
    }

    pub fn ty_ret(self) -> (r: String)
        ensures
            r@ == cmp_ret_code(self),
    {
        match self {
            CmpTrait::PartialEq => String::from_str("bool"),
            CmpTrait::PartialOrd => String::from_str("Option<std::cmp::Ordering>"),
        }
    }

    /// The impl header between two operand types.
    fn impl_header(self, lhs: RefType, rhs: RefType, names: &TypeNames) -> (r: String)
        ensures
            r@ == cmp_impl_header_code(self, lhs, rhs, names@),
    {
        let ty_lhs = lhs.ty(names);
        let ty_rhs = rhs.ty(names);
        let r = String::from_str("impl ").concat(self.trait_path().as_str()).concat("<").concat(
            ty_rhs.as_str(),
        ).concat("> for ").concat(ty_lhs.as_str()).concat(" { fn ").concat(
            self.method_name().as_str(),
        ).concat("(&self, __other: &").concat(ty_rhs.as_str()).concat(") -> ").concat(
            self.ty_ret().as_str(),
        ).concat(" { ");
        proof {
            assert(r@ =~= cmp_impl_header_code(self, lhs, rhs, names@));
        }
        r
    }

    /// Generate one comparison impl delegating to the slice wrapper's own
    /// comparison of the two operands' canonical slice views.
    #[verifier::rlimit(50)]
    pub fn impl_with_slice(self, lhs: RefType, rhs: RefType, names: &TypeNames) -> (r: String)
        requires
            spec_is_outer(lhs),
            spec_is_outer(rhs),
        ensures
            r@ == cmp_impl_slice_code(self, lhs, rhs, names@),
    {
        let a = lhs.ref_to_slice_ref(names, "self");
        let b = rhs.ref_to_slice_ref(names, "__other");
        let r = self.impl_header(lhs, rhs, names).concat(self.trait_path().as_str()).concat(
            "::<",
        ).concat(names.ty_slice.as_str()).concat(">::").concat(self.method_name().as_str()).concat(
            "(",
        ).concat(a.as_str()).concat(", ").concat(b.as_str()).concat(")").concat(" } }");
        proof {
            assert(r@ =~= cmp_impl_header_code(self, lhs, rhs, names@) + cmp_ground_call_code(
                self,
                names.ty_slice@,
                a@,
                b@,
            ) + " } }"@);
        }
        r
    }

    /// Generate one comparison impl delegating to the slice inner type's own
    /// comparison of the two operands' canonical slice-inner views.
    #[verifier::rlimit(50)]
    pub fn impl_with_inner(self, lhs: RefType, rhs: RefType, names: &TypeNames) -> (r: String)
        ensures
            r@ == cmp_impl_inner_code(self, lhs, rhs, names@),
    {
        let a = lhs.ref_to_slice_inner_ref(names, "self");
        let b = rhs.ref_to_slice_inner_ref(names, "__other");
        let r = self.impl_header(lhs, rhs, names).concat(self.trait_path().as_str()).concat(
            "::<",
        ).concat(names.ty_slice_inner.as_str()).concat(">::").concat(
            self.method_name().as_str(),
        ).concat("(").concat(a.as_str()).concat(", ").concat(b.as_str()).concat(")").concat(
            " } }",
        );
        proof {
            assert(r@ =~= cmp_impl_header_code(self, lhs, rhs, names@) + cmp_ground_call_code(
                self,
                names.ty_slice_inner@,
                a@,
                b@,
            ) + " } }"@);
        }
        r
    }
}

} // verus!
