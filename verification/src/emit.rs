//! Small framing helpers shared by everything that emits an impl block, a
//! method, or a validated construction.

use vstd::prelude::*;

verus! {

/// A trait impl block: `impl Trait for Ty { body }`.
pub open spec fn impl_for_code(trait_part: Seq<char>, ty_for: Seq<char>, body: Seq<char>) -> Seq<
    char,
> {
    "impl "@ + trait_part + " for "@ + ty_for + " { "@ + body + " }"@
}

/// A method definition: `fn name(args) -> ret { body }`.
pub open spec fn method_code(
    name: Seq<char>,
    args: Seq<char>,
    ret: Seq<char>,
    body: Seq<char>,
) -> Seq<char> {
    "fn "@ + name + "("@ + args + ") -> "@ + ret + " { "@ + body + " }"@
}

/// A trait impl block over a borrowed lifetime:
/// `impl<'a> Trait for Ty { body }`.
pub open spec fn impl_lt_for_code(
    trait_part: Seq<char>,
    ty_for: Seq<char>,
    body: Seq<char>,
) -> Seq<char> {
    "impl<'a> "@ + trait_part + " for "@ + ty_for + " { "@ + body + " }"@
}

/// An associated-type binding: `type Name = Ty; `.
pub open spec fn assoc_ty_code(name: Seq<char>, ty: Seq<char>) -> Seq<char> {
    "type "@ + name + " = "@ + ty + "; "@
}

/// The validated-construction expression: call the validator on the
/// candidate, return the success expression on `Ok`, the mapped error on
/// `Err`.
pub open spec fn validate_match_code(
    fn_validate: Seq<char>,
    arg: Seq<char>,
    ok_expr: Seq<char>,
    err_expr: Seq<char>,
) -> Seq<char> {
    "match "@ + fn_validate + "("@ + arg + ") { Ok(_) => Ok("@ + ok_expr + "), Err(_e) => Err("@
        + err_expr + "), }"@
}

pub fn impl_for(trait_part: &str, ty_for: &str, body: &str) -> (r: String)
    ensures
        r@ == impl_for_code(trait_part@, ty_for@, body@),
{
    let r = String::from_str("impl ").concat(trait_part).concat(" for ").concat(ty_for).concat(
        " { ",
    ).concat(body).concat(" }");
    proof {
        assert(r@ =~= impl_for_code(trait_part@, ty_for@, body@));
    }
    r
}

pub fn impl_lt_for(trait_part: &str, ty_for: &str, body: &str) -> (r: String)
    ensures
        r@ == impl_lt_for_code(trait_part@, ty_for@, body@),
{
    let r = String::from_str("impl<'a> ").concat(trait_part).concat(" for ").concat(ty_for).concat(
        " { ",
    ).concat(body).concat(" }");
    proof {
        assert(r@ =~= impl_lt_for_code(trait_part@, ty_for@, body@));
    }
    r
}

pub fn method_text(name: &str, args: &str, ret: &str, body: &str) -> (r: String)
    ensures
        r@ == method_code(name@, args@, ret@, body@),
{
    let r = String::from_str("fn ").concat(name).concat("(").concat(args).concat(") -> ").concat(
        ret,
    ).concat(" { ").concat(body).concat(" }");
    proof {
        assert(r@ =~= method_code(name@, args@, ret@, body@));
    }
    r
}

pub fn assoc_ty_text(name: &str, ty: &str) -> (r: String)
    ensures
        r@ == assoc_ty_code(name@, ty@),
{
    let r = String::from_str("type ").concat(name).concat(" = ").concat(ty).concat("; ");
    proof {
        assert(r@ =~= assoc_ty_code(name@, ty@));
    }
    r
}

pub fn validate_match_text(fn_validate: &str, arg: &str, ok_expr: &str, err_expr: &str) -> (r:
    String)
    ensures
        r@ == validate_match_code(fn_validate@, arg@, ok_expr@, err_expr@),
{
    let r = String::from_str("match ").concat(fn_validate).concat("(").concat(arg).concat(
        ") { Ok(_) => Ok(",
    ).concat(ok_expr).concat("), Err(_e) => Err(").concat(err_expr).concat("), }");
    proof {
        assert(r@ =~= validate_match_code(fn_validate@, arg@, ok_expr@, err_expr@));
    }
    r
}

} // verus!
