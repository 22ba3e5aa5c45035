//! Mutability and safety: the two closed properties threaded through
//! every generated expression.

use vstd::prelude::*;

verus! {

/// Whether a generated reference or pointer is mutable or shared.
#[derive(Debug, Clone, Copy, PartialEq, Eq, Structural)]
pub enum Mutability {
    /// Mutable (`&mut`, `*mut`).
    Mutable,
    /// Constant (`&`, `*const`).
    Constant,
}

/// Text of a reference expression or reference type: `&x` or `&mut x`.
pub open spec fn ref_code(m: Mutability, rest: Seq<char>) -> Seq<char> {
    match m {
        Mutability::Mutable => "&mut "@ + rest,
        Mutability::Constant => "&"@ + rest,
    }
}

/// Text of a raw-pointer type: `*const T` or `*mut T`.
pub open spec fn ptr_code(m: Mutability, rest: Seq<char>) -> Seq<char> {
    match m {
        Mutability::Mutable => "*mut "@ + rest,
        Mutability::Constant => "*const "@ + rest,
    }
}

/// Text of a reference type carrying an explicit `'a` lifetime:
/// `&'a T` or `&'a mut T`.
pub open spec fn ref_lt_code(m: Mutability, rest: Seq<char>) -> Seq<char> {
    match m {
        Mutability::Mutable => "&'a mut "@ + rest,
        Mutability::Constant => "&'a "@ + rest,
    }
}

impl Mutability {
    /// Prepend the reference operator for this mutability.
    pub fn make_ref(self, following: &str) -> (r: String)
        ensures
            r@ == ref_code(self, following@),
    {
        match self {
            Mutability::Mutable => String::from_str("&mut ").concat(following),
            Mutability::Constant => String::from_str("&").concat(following),
        }
    }

    /// Prepend the raw-pointer constructor for this mutability.
    pub fn make_ptr(self, following: &str) -> (r: String)
        ensures
            r@ == ptr_code(self, following@),
    {
        match self {
            Mutability::Mutable => String::from_str("*mut ").concat(following),
            Mutability::Constant => String::from_str("*const ").concat(following),
        }
    }

    /// Prepend the reference operator with an explicit `'a` lifetime.
    pub fn make_ref_with_lifetime(self, following: &str) -> (r: String)
        ensures
            r@ == ref_lt_code(self, following@),
    {
        match self {
            Mutability::Mutable => String::from_str("&'a mut ").concat(following),
            Mutability::Constant => String::from_str("&'a ").concat(following),
        }
    }
}

/// Whether the surrounding generated function is itself an `unsafe fn`.
#[derive(Debug, Clone, Copy, PartialEq, Eq, Structural)]
pub enum Safety {
    /// The surrounding context is safe; unsafe operations must be wrapped.
    Safe,
    /// The surrounding context is already unsafe; no wrapping is added.
    Unsafe,
}

/// Text of an expression that needs an unsafe justification, placed in a
/// context of safety `ctx`: wrapped in an `unsafe { .. }` block only when the
/// context has not already declared itself unsafe.
pub open spec fn unsafe_code(ctx: Safety, expr: Seq<char>) -> Seq<char> {
    match ctx {
        Safety::Safe => "unsafe { "@ + expr + " }"@,
        Safety::Unsafe => expr,
    }
}

impl Safety {
    /// A context is safe when it carries no `unsafe` marker.
    pub fn of_unsafety(unsafety: bool) -> (r: Safety)
        ensures
            r == if unsafety {
                Safety::Unsafe
            } else {
                Safety::Safe
            },
    {
        if unsafety {
            Safety::Unsafe
        } else {
            Safety::Safe
        }
    }

    pub fn is_safe(self) -> (r: bool)
        ensures
            r == (self == Safety::Safe),
    {
        match self {
            Safety::Safe => true,
            Safety::Unsafe => false,
        }
    }

    pub fn is_unsafe(self) -> (r: bool)
        ensures
            r == (self == Safety::Unsafe),
    {
        match self {
            Safety::Safe => false,
            Safety::Unsafe => true,
        }
    }

    /// Wrap `unsafe_expr` in an explicit unsafe block if this context needs it.
    ///
    /// `self` is the safety of the surrounding generated function.
    pub fn wrap_unsafe_expr(self, unsafe_expr: &str) -> (r: String)
        ensures
            r@ == unsafe_code(self, unsafe_expr@),
    {
        match self {
            Safety::Safe => String::from_str("unsafe { ").concat(unsafe_expr).concat(" }"),
            Safety::Unsafe => String::from_str(unsafe_expr),
        }
    }
}

/// An operation generated inside a function that the user already declared
/// `unsafe` is never wrapped a second time; in a safe context it is wrapped
/// exactly once.
pub proof fn lemma_unsafe_wrapping(expr: Seq<char>)
    ensures
        unsafe_code(Safety::Unsafe, expr) == expr,
        unsafe_code(Safety::Safe, expr) == "unsafe { "@ + expr + " }"@,
{
}

} // verus!
