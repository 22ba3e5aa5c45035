//! The expression algebra: the four positions a generated expression can
//! occupy — owned wrapper, owned inner, slice wrapper, slice inner — and the
//! conversions between them.
//!
//! Every generated method body is a composition of these conversions; in
//! particular, the sole unsafe operation ever produced is the pointer
//! reinterpretation in [`SliceInner::to_slice_unchecked`].

use vstd::prelude::*;

use crate::props::{ptr_code, ref_code, unsafe_code, Mutability, Safety};
use crate::traits::{o2s_call_code, OwnedToSliceTrait};

verus! {

/// Projection of the single field out of a wrapper: `expr.field`.
pub open spec fn proj_code(expr: Seq<char>, field: Seq<char>) -> Seq<char> {
    expr + "."@ + field
}

/// Re-wrap of an inner value into the owned wrapper:
/// `Owned { field: expr }`.
pub open spec fn wrap_owned_code(ty_owned: Seq<char>, field: Seq<char>, expr: Seq<char>) -> Seq<
    char,
> {
    ty_owned + " { "@ + field + ": "@ + expr + " }"@
}

/// Borrow of the slice-inner view out of an owned-inner expression, through
/// the selected owned-to-slice interface:
/// `<OwnedInner as Trait<SliceInner>>::method(&expr)`.
pub open spec fn borrow_inner_code(
    t: OwnedToSliceTrait,
    m: Mutability,
    ty_owned_inner: Seq<char>,
    ty_slice_inner: Seq<char>,
    expr: Seq<char>,
) -> Seq<char> {
    o2s_call_code(t, m, ty_owned_inner, ty_slice_inner, ref_code(m, expr))
}

/// Owning conversion of a slice-inner reference:
/// `<SliceInner as std::borrow::ToOwned>::to_owned(&expr)`.
pub open spec fn clone_inner_code(ty_slice_inner: Seq<char>, expr: Seq<char>) -> Seq<char> {
    "<"@ + ty_slice_inner + " as std::borrow::ToOwned>::to_owned(&"@ + expr + ")"@
}

/// The one unsafe operation: reinterpretation of a reference to the inner
/// representation as a reference to the slice wrapper, acknowledged with an
/// `unsafe` block only when the surrounding context is safe:
/// `&*(expr as *const SliceInner as *const Slice)` (or the `mut` forms).
pub open spec fn reinterpret_code(
    m: Mutability,
    ctx: Safety,
    ty_slice_inner: Seq<char>,
    ty_slice: Seq<char>,
    expr: Seq<char>,
) -> Seq<char> {
    unsafe_code(
        ctx,
        ref_code(
            m,
            "*("@ + expr + " as "@ + ptr_code(m, ty_slice_inner) + " as "@ + ptr_code(m, ty_slice)
                + ")"@,
        ),
    )
}

/// An expression of the owned wrapper type.
pub struct Owned {
    expr: String,
}

impl Owned {
    /// The text of the expression.
    pub closed spec fn code(self) -> Seq<char> {
        self.expr@
    }

    pub fn new(expr: String) -> (r: Owned)
        ensures
            r.code() == expr@,
    {
        Owned { expr }
    }

    pub fn as_str(&self) -> (r: &str)
        ensures
            r@ == self.code(),
    {
        self.expr.as_str()
    }

    /// Project the inner value out of the owned wrapper.
    pub fn to_owned_inner(&self, owned_field: &str) -> (r: OwnedInner)
        ensures
            r.code() == proj_code(self.code(), owned_field@),
    {
        let r = OwnedInner::new(
            String::from_str(self.expr.as_str()).concat(".").concat(owned_field),
        );
        proof {
            assert(r.code() =~= proj_code(self.code(), owned_field@));
        }
        r
    }
}

/// An expression of the owned inner type.
pub struct OwnedInner {
    expr: String,
}

impl OwnedInner {
    /// The text of the expression.
    pub closed spec fn code(self) -> Seq<char> {
        self.expr@
    }

    pub fn new(expr: String) -> (r: OwnedInner)
        ensures
            r.code() == expr@,
    {
        OwnedInner { expr }
    }

    pub fn as_str(&self) -> (r: &str)
        ensures
            r@ == self.code(),
    {
        self.expr.as_str()
    }

    /// Borrow the slice-inner view of this owned-inner expression through the
    /// selected interface; the produced reference carries the mutability it
    /// was borrowed under.
    pub fn to_slice_inner_ref(
        &self,
        t: OwnedToSliceTrait,
        m: Mutability,
        ty_owned_inner: &str,
        ty_slice_inner: &str,
    ) -> (r: SliceInner)
        ensures
            r.code() == borrow_inner_code(t, m, ty_owned_inner@, ty_slice_inner@, self.code()),
            r.mutability_spec() == m,
    {
        let arg = m.make_ref(self.expr.as_str());
        SliceInner::new(t.expr_call(m, ty_owned_inner, ty_slice_inner, arg.as_str()), m)
    }

    /// Re-wrap this inner expression into the owned wrapper, with no
    /// validation.
    pub fn to_owned_unchecked(&self, ty_owned: &str, owned_field: &str) -> (r: Owned)
        ensures
            r.code() == wrap_owned_code(ty_owned@, owned_field@, self.code()),
    {
        let r = Owned::new(
            String::from_str(ty_owned).concat(" { ").concat(owned_field).concat(": ").concat(
                self.expr.as_str(),
            ).concat(" }"),
        );
        proof {
            assert(r.code() =~= wrap_owned_code(ty_owned@, owned_field@, self.code()));
        }
        r
    }
}

/// An expression of the slice wrapper type, tagged with the mutability it was
/// produced under.
pub struct Slice {
    expr: String,
    mutability: Mutability,
}

impl Slice {
    /// The text of the expression.
    pub closed spec fn code(self) -> Seq<char> {
        self.expr@
    }

    /// The mutability the expression was produced under.
    pub closed spec fn mutability_spec(self) -> Mutability {
        self.mutability
    }

    pub fn new(expr: String, mutability: Mutability) -> (r: Slice)
        ensures
            r.code() == expr@,
            r.mutability_spec() == mutability,
    {
        Slice { expr, mutability }
    }

    pub fn as_str(&self) -> (r: &str)
        ensures
            r@ == self.code(),
    {
        self.expr.as_str()
    }

    pub fn mutability(&self) -> (m: Mutability)
        ensures
            m == self.mutability_spec(),
    {
        self.mutability
    }

    /// Project the inner field out of the slice wrapper and reference it,
    /// keeping this expression's mutability.
    pub fn to_slice_inner_ref(&self, slice_field: &str) -> (r: SliceInner)
        ensures
            r.code() == ref_code(self.mutability_spec(), proj_code(self.code(), slice_field@)),
            r.mutability_spec() == self.mutability_spec(),
    {
        let inner = String::from_str(self.expr.as_str()).concat(".").concat(slice_field);
        proof {
            assert(inner@ =~= proj_code(self.code(), slice_field@));
        }
        SliceInner::new(self.mutability.make_ref(inner.as_str()), self.mutability)
    }
}

/// An expression of the slice inner type, tagged with the mutability it was
/// produced under.
pub struct SliceInner {
    expr: String,
    mutability: Mutability,
}

impl SliceInner {
    /// The text of the expression.
    pub closed spec fn code(self) -> Seq<char> {
        self.expr@
    }

    /// The mutability the expression was produced under.
    pub closed spec fn mutability_spec(self) -> Mutability {
        self.mutability
    }

    pub fn new(expr: String, mutability: Mutability) -> (r: SliceInner)
        ensures
            r.code() == expr@,
            r.mutability_spec() == mutability,
    {
        SliceInner { expr, mutability }
    }

    pub fn as_str(&self) -> (r: &str)
        ensures
            r@ == self.code(),
    {
        self.expr.as_str()
    }

    pub fn mutability(&self) -> (m: Mutability)
        ensures
            m == self.mutability_spec(),
    {
        self.mutability
    }

    /// Clone this slice-inner reference into an owned inner value.
    pub fn to_owned_inner(&self, ty_slice_inner: &str) -> (r: OwnedInner)
        ensures
            r.code() == clone_inner_code(ty_slice_inner@, self.code()),
    {
        let r = OwnedInner::new(
            String::from_str("<").concat(ty_slice_inner).concat(
                " as std::borrow::ToOwned>::to_owned(&",
            ).concat(self.expr.as_str()).concat(")"),
        );
        proof {
            assert(r.code() =~= clone_inner_code(ty_slice_inner@, self.code()));
        }
        r
    }

    /// Reinterpret this reference to the inner representation as a reference
    /// to the slice wrapper. This is the sole unsafe operation the generator
    /// emits; it is wrapped in an `unsafe` block exactly when the surrounding
    /// context `ctx` is safe, and it keeps this expression's mutability.
    pub fn to_slice_unchecked(&self, ty_slice_inner: &str, ty_slice: &str, ctx: Safety) -> (r:
        Slice)
        ensures
            r.code() == reinterpret_code(
                self.mutability_spec(),
                ctx,
                ty_slice_inner@,
                ty_slice@,
                self.code(),
            ),
            r.mutability_spec() == self.mutability_spec(),
    {
        let cast = String::from_str("*(").concat(self.expr.as_str()).concat(" as ").concat(
            self.mutability.make_ptr(ty_slice_inner).as_str(),
        ).concat(" as ").concat(self.mutability.make_ptr(ty_slice).as_str()).concat(")");
        let base = self.mutability.make_ref(cast.as_str());
        let r = Slice::new(ctx.wrap_unsafe_expr(base.as_str()), self.mutability);
        proof {
            assert(r.code() =~= reinterpret_code(
                self.mutability_spec(),
                ctx,
                ty_slice_inner@,
                ty_slice@,
                self.code(),
            ));
        }
        r
    }
}

/// Reinterpretation embeds the source expression unchanged: the text between
/// the fixed head and tail of the cast is exactly the inner expression, so
/// projecting the generated slice reference back reads the very value that
/// went in.
pub proof fn lemma_reinterpret_embeds(
    m: Mutability,
    ctx: Safety,
    tsi: Seq<char>,
    ts: Seq<char>,
    e: Seq<char>,
)
    ensures
        reinterpret_code(m, ctx, tsi, ts, e) == unsafe_code(
            ctx,
            ref_code(m, "*("@ + e + " as "@ + ptr_code(m, tsi) + " as "@ + ptr_code(m, ts) + ")"@),
        ),
{
}

} // verus!
