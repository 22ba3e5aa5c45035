//! The definitions aggregate: the two declared wrapper types, the optional
//! validator, and the assembly of the generated output.

use vstd::prelude::*;

use crate::attrs::{
    spec_error_conf_from, spec_mapped_error, spec_nv_from, spec_raw_text, views_of, Attr,
    CustomSliceAttrs, MetaNode,
};
use crate::expr::{proj_code, reinterpret_code, wrap_owned_code};
use crate::props::{ref_code, Mutability, Safety};
use crate::template::{fn_item_code, fn_item_raw_code, spec_parse_prefix, template_ok, wf_template};
use crate::traits::OwnedToSliceTrait;
use crate::traits_owned::owned_checked_body_code;
use crate::traits_slice::slice_checked_body_code;
use crate::types::{NamesView, TypeNames};

verus! {

/// A named field of a declared struct.
pub struct NamedField {
    pub name: String,
    pub ty: String,
}

/// A positional field of a declared struct.
pub struct UnnamedField {
    pub ty: String,
}

/// The fields of a declared struct.
pub enum Fields {
    Named(Vec<NamedField>),
    Unnamed(Vec<UnnamedField>),
    Unit,
}

/// A struct-like declared item.
pub struct StructItem {
    /// The item's attributes.
    pub attrs: Vec<Attr>,
    /// The item's visibility, or the empty string for a private item.
    pub vis: String,
    /// The item's name.
    pub ident: String,
    /// The item's fields.
    pub fields: Fields,
}

/// A function-like declared item. The body and signature are opaque user
/// code, re-emitted verbatim; only the name and the annotations are read.
pub struct FnItem {
    /// The item's attributes.
    pub attrs: Vec<Attr>,
    /// The function's name.
    pub ident: String,
    /// The item's full text, attributes excluded.
    pub rest: String,
}

/// One declared item of the input.
pub enum Item {
    Struct(StructItem),
    Fn(FnItem),
    Other(String),
}

/// The whole input: a flat ordered list of declared items.
pub struct File {
    pub items: Vec<Item>,
}

/// A configuration fault that aborts generation.
#[derive(Debug)]
pub enum GenError {
    /// A checked constructor or a validation-dependent interface was
    /// requested, but no validator is configured.
    MissingValidator(String),
    /// A checked constructor or fallible conversion was requested without
    /// an `error(type = "..")` configuration.
    MissingErrorType(String),
    /// A constructor-prefix template is not a well-formed signature prefix.
    BadPrefix(String),
    /// The configured error type is not a well-formed snippet.
    BadErrorType(String),
    /// The configured error-mapping template is not a well-formed snippet.
    BadErrorMap(String),
    /// A derive target requested for the owned type is not in the catalogue.
    UnknownDeriveOwned(String),
    /// A derive target requested for the slice type is not in the catalogue.
    UnknownDeriveSlice(String),
    /// An infallible from-inner conversion was requested although a
    /// validator is configured; the two are mutually exclusive.
    ValidatorConflict(String),
}

/// A configuration fault, at the specification level.
pub enum GenErrV {
    MissingValidator(Seq<char>),
    MissingErrorType(Seq<char>),
    BadPrefix(Seq<char>),
    BadErrorType(Seq<char>),
    BadErrorMap(Seq<char>),
    UnknownDeriveOwned(Seq<char>),
    UnknownDeriveSlice(Seq<char>),
    ValidatorConflict(Seq<char>),
}

/// The fault named by a [`GenError`] value.
pub open spec fn err_view(e: GenError) -> GenErrV {
    match e {
        GenError::MissingValidator(k) => GenErrV::MissingValidator(k@),
        GenError::MissingErrorType(k) => GenErrV::MissingErrorType(k@),
        GenError::BadPrefix(k) => GenErrV::BadPrefix(k@),
        GenError::BadErrorType(k) => GenErrV::BadErrorType(k@),
        GenError::BadErrorMap(k) => GenErrV::BadErrorMap(k@),
        GenError::UnknownDeriveOwned(k) => GenErrV::UnknownDeriveOwned(k@),
        GenError::UnknownDeriveSlice(k) => GenErrV::UnknownDeriveSlice(k@),
        GenError::ValidatorConflict(k) => GenErrV::ValidatorConflict(k@),
    }
}

/// The view of a generation step that may be absent or fail.
pub open spec fn opt_res_view(r: Result<Option<String>, GenError>) -> Result<
    Option<Seq<char>>,
    GenErrV,
> {
    match r {
        Ok(None) => Ok(None),
        Ok(Some(s)) => Ok(Some(s@)),
        Err(e) => Err(err_view(e)),
    }
}

/// The view of a generation step that must produce text or fail.
pub open spec fn res_view(r: Result<String, GenError>) -> Result<Seq<char>, GenErrV> {
    match r {
        Ok(s) => Ok(s@),
        Err(e) => Err(err_view(e)),
    }
}

/// The diagnostic line of a configuration fault: a fixed description
/// followed by the configuration key or derive target at fault.
pub open spec fn gen_error_message(e: GenError) -> Seq<char> {
    match e {
        GenError::MissingValidator(k) =>
            "a validator is necessary for the checked constructor or interface: "@ + k@,
        GenError::MissingErrorType(k) =>
            "an error type must be configured for the checked constructor or interface: "@ + k@,
        GenError::BadPrefix(k) => "malformed function-signature prefix under key: "@ + k@,
        GenError::BadErrorType(k) => "malformed error type configured for: "@ + k@,
        GenError::BadErrorMap(k) => "malformed error-mapping template configured for: "@ + k@,
        GenError::UnknownDeriveOwned(k) => "unknown derive target for the owned type: "@ + k@,
        GenError::UnknownDeriveSlice(k) => "unknown derive target for the slice type: "@ + k@,
        GenError::ValidatorConflict(k) =>
            "an infallible conversion cannot be generated because a validator is configured: "@
            + k@,
    }
}

impl GenError {
    /// A diagnostic line naming the configuration key or derive target at
    /// fault.
    pub fn message(&self) -> (r: String)
        ensures
            r@ == gen_error_message(*self),
    {
        match self {
            GenError::MissingValidator(k) => String::from_str(
                "a validator is necessary for the checked constructor or interface: ",
            ).concat(k.as_str()),
            GenError::MissingErrorType(k) => String::from_str(
                "an error type must be configured for the checked constructor or interface: ",
            ).concat(k.as_str()),
            GenError::BadPrefix(k) => String::from_str(
                "malformed function-signature prefix under key: ",
            ).concat(k.as_str()),
            GenError::BadErrorType(k) => String::from_str(
                "malformed error type configured for: ",
            ).concat(k.as_str()),
            GenError::BadErrorMap(k) => String::from_str(
                "malformed error-mapping template configured for: ",
            ).concat(k.as_str()),
            GenError::UnknownDeriveOwned(k) => String::from_str(
                "unknown derive target for the owned type: ",
            ).concat(k.as_str()),
            GenError::UnknownDeriveSlice(k) => String::from_str(
                "unknown derive target for the slice type: ",
            ).concat(k.as_str()),
            GenError::ValidatorConflict(k) => String::from_str(
                "an infallible conversion cannot be generated because a validator is configured: ",
            ).concat(k.as_str()),
        }
    }
}

/// One of the two declared wrapper types, with its configuration.
pub struct CustomType {
    /// The declared visibility, or the empty string.
    pub vis: String,
    /// The declared type name.
    pub ident: String,
    /// The declared fields.
    pub fields: Fields,
    /// The partitioned annotations.
    pub attrs: CustomSliceAttrs,
}

impl CustomType {
    /// A wrapper type is well formed when it has exactly one field.
    pub open spec fn wf(&self) -> bool {
        match self.fields {
            Fields::Named(v) => v@.len() == 1,
            Fields::Unnamed(v) => v@.len() == 1,
            Fields::Unit => false,
        }
    }

    /// The type of the single wrapped field.
    pub open spec fn inner_ty_chars(&self) -> Seq<char> {
        match self.fields {
            Fields::Named(v) => v@[0].ty@,
            Fields::Unnamed(v) => v@[0].ty@,
            Fields::Unit => Seq::empty(),
        }
    }

    /// The selector that projects the wrapped field out of the wrapper: the
    /// field's name, or `0` for a positional field.
    pub open spec fn field_chars(&self) -> Seq<char> {
        match self.fields {
            Fields::Named(v) => v@[0].name@,
            _ => "0"@,
        }
    }

    /// The re-emitted declaration: the pass-through attributes, then the
    /// struct itself.
    pub open spec fn create_item_code(&self) -> Seq<char> {
        spec_raw_text(self.attrs.raw@, 0) + (if self.vis@.len() == 0 {
            Seq::<char>::empty()
        } else {
            self.vis@ + " "@
        }) + "struct "@ + self.ident@ + (match self.fields {
            Fields::Named(v) => " { "@ + v@[0].name@ + ": "@ + v@[0].ty@ + " }"@,
            Fields::Unnamed(v) => "("@ + v@[0].ty@ + ");"@,
            Fields::Unit => ";"@,
        })
    }

    /// Accept a declared struct as a role type; a struct with no field or
    /// with more than one is refused with the number found.
    pub fn new(vis: String, ident: String, fields: Fields, attrs: CustomSliceAttrs) -> (r: Result<
        CustomType,
        usize,
    >)
        ensures
            r matches Ok(c) ==> c == (CustomType { vis, ident, fields, attrs }) && c.wf(),
            r matches Err(n) ==> !(CustomType { vis, ident, fields, attrs }).wf() && (match fields {
                Fields::Named(v) => n == v@.len(),
                Fields::Unnamed(v) => n == v@.len(),
                Fields::Unit => n == 0,
            }),
    {
        let n: usize = match &fields {
            Fields::Named(v) => v.len(),
            Fields::Unnamed(v) => v.len(),
            Fields::Unit => 0,
        };
        if n != 1 {
            return Err(n);
        }
        match &fields {
            Fields::Unit => Err(0),
            _ => Ok(CustomType { vis, ident, fields, attrs }),
        }
    }

    /// The declared type name.
    pub fn outer_type(&self) -> (r: &str)
        ensures
            r@ == self.ident@,
    {
        self.ident.as_str()
    }

    /// The type of the single wrapped field.
    pub fn inner_type(&self) -> (r: &str)
        requires
            self.wf(),
        ensures
            r@ == self.inner_ty_chars(),
    {
        match &self.fields {
            Fields::Named(v) => v[0].ty.as_str(),
            Fields::Unnamed(v) => v[0].ty.as_str(),
            Fields::Unit => "",
        }
    }

    /// The selector of the single wrapped field.
    pub fn field_name(&self) -> (r: String)
        requires
            self.wf(),
        ensures
            r@ == self.field_chars(),
    {
        match &self.fields {
            Fields::Named(v) => String::from_str(v[0].name.as_str()),
            _ => String::from_str("0"),
        }
    }

    /// The expression that projects the inner value out of an expression of
    /// the wrapper type.
    pub fn inner_expr(&self, outer_expr: &str) -> (r: String)
        requires
            self.wf(),
        ensures
            r@ == proj_code(outer_expr@, self.field_chars()),
    {
        let r = String::from_str(outer_expr).concat(".").concat(self.field_name().as_str());
        proof {
            assert(r@ =~= proj_code(outer_expr@, self.field_chars()));
        }
        r
    }

    /// Re-emit the declared struct with its pass-through attributes.
    pub fn create_item(&self) -> (r: String)
        requires
            self.wf(),
        ensures
            r@ == self.create_item_code(),
    {
        let mut out = self.attrs.raw_text();
        if !self.vis.as_str().is_empty() {
            out.append(self.vis.as_str());
            out.append(" ");
        }
        out.append("struct ");
        out.append(self.ident.as_str());
        match &self.fields {
            Fields::Named(v) => {
                out.append(" { ");
                out.append(v[0].name.as_str());
                out.append(": ");
                out.append(v[0].ty.as_str());
                out.append(" }");
            },
            Fields::Unnamed(v) => {
                out.append("(");
                out.append(v[0].ty.as_str());
                out.append(");");
            },
            Fields::Unit => {
                out.append(";");
            },
        }
        proof {
            assert(out@ =~= self.create_item_code());
        }
        out
    }
}

/// The declared validator function, with its configuration.
pub struct Validator {
    /// The partitioned annotations.
    pub attrs: CustomSliceAttrs,
    /// The function's name.
    pub ident: String,
    /// The item's full text, attributes excluded.
    pub rest: String,
}

impl Validator {
    /// The re-emitted declaration: the pass-through attributes, then the
    /// function itself.
    pub open spec fn create_item_code(&self) -> Seq<char> {
        spec_raw_text(self.attrs.raw@, 0) + self.rest@
    }

    /// Re-emit the declared function with its pass-through attributes.
    pub fn create_item(&self) -> (r: String)
        ensures
            r@ == self.create_item_code(),
    {
        let mut out = self.attrs.raw_text();
        out.append(self.rest.as_str());
        out
    }

    /// The validator's name.
    pub fn name(&self) -> (r: &str)
        ensures
            r@ == self.ident@,
    {
        self.ident.as_str()
    }
}

/// The error configuration demanded by a checked constructor or fallible
/// conversion under configuration key `key`: the error type must be
/// configured and well formed, and the mapping template, when present,
/// well formed too. Returns the error type.
pub open spec fn spec_error_cfg(ms: Seq<MetaNode>, key: Seq<char>) -> Result<Seq<char>, GenErrV> {
    match spec_error_conf_from(ms, "type"@, 0) {
        None => Err(GenErrV::MissingErrorType(key)),
        Some(t) => {
            if !wf_template(t) {
                Err(GenErrV::BadErrorType(key))
            } else {
                match spec_error_conf_from(ms, "map"@, 0) {
                    Some(mt) => {
                        if !wf_template(mt) {
                            Err(GenErrV::BadErrorMap(key))
                        } else {
                            Ok(t)
                        }
                    },
                    None => Ok(t),
                }
            }
        },
    }
}

/// Check the error configuration under the given key and hand back the
/// configured error type.
fn error_cfg(attrs: &CustomSliceAttrs, key: &str) -> (r: Result<String, GenError>)
    ensures
        res_view(r) == spec_error_cfg(attrs.custom_meta@, key@),
{
    match attrs.get_error_type() {
        None => Err(GenError::MissingErrorType(String::from_str(key))),
        Some(t) => {
            if !template_ok(t.as_str()) {
                Err(GenError::BadErrorType(String::from_str(key)))
            } else {
                match attrs.get_error_conf("map") {
                    Some(mt) => {
                        if !template_ok(mt.as_str()) {
                            Err(GenError::BadErrorMap(String::from_str(key)))
                        } else {
                            Ok(t)
                        }
                    },
                    None => Ok(t),
                }
            }
        },
    }
}

/// The definitions aggregate: exactly one owned role type, exactly one
/// slice role type, and at most one validator. Built once by the loader,
/// immutable thereafter; generation is a pure function of it.
pub struct Definitions {
    /// Owned type definition.
    pub owned: CustomType,
    /// Slice type definition.
    pub slice: CustomType,
    /// Validator function definition.
    pub validator: Option<Validator>,
}

impl Definitions {
    /// Both role types wrap exactly one field.
    pub open spec fn wf(&self) -> bool {
        self.owned.wf() && self.slice.wf()
    }

    /// The names every generated fragment is built from.
    pub open spec fn names_view(&self) -> NamesView {
        NamesView {
            ty_owned: self.owned.ident@,
            ty_owned_inner: self.owned.inner_ty_chars(),
            ty_slice: self.slice.ident@,
            ty_slice_inner: self.slice.inner_ty_chars(),
            owned_field: self.owned.field_chars(),
            slice_field: self.slice.field_chars(),
        }
    }

    /// Is a validator configured?
    pub open spec fn has_validator(&self) -> bool {
        self.validator is Some
    }

    /// The configured validator's name.
    pub open spec fn validator_chars(&self) -> Seq<char>
        recommends
            self.has_validator(),
    {
        self.validator->0.ident@
    }

    pub fn names(&self) -> (r: TypeNames)
        requires
            self.wf(),
        ensures
            r@ == self.names_view(),
    {
        TypeNames {
            ty_owned: String::from_str(self.owned.outer_type()),
            ty_owned_inner: String::from_str(self.owned.inner_type()),
            ty_slice: String::from_str(self.slice.outer_type()),
            ty_slice_inner: String::from_str(self.slice.inner_type()),
            owned_field: self.owned.field_name(),
            slice_field: self.slice.field_name(),
        }
    }

    pub fn ty_owned(&self) -> (r: &str)
        ensures
            r@ == self.names_view().ty_owned,
    {
        self.owned.outer_type()
    }

    pub fn ty_owned_inner(&self) -> (r: &str)
        requires
            self.wf(),
        ensures
            r@ == self.names_view().ty_owned_inner,
    {
        self.owned.inner_type()
    }

    pub fn ty_slice(&self) -> (r: &str)
        ensures
            r@ == self.names_view().ty_slice,
    {
        self.slice.outer_type()
    }

    pub fn ty_slice_inner(&self) -> (r: &str)
        requires
            self.wf(),
        ensures
            r@ == self.names_view().ty_slice_inner,
    {
        self.slice.inner_type()
    }

    /// Project the inner value out of an owned-wrapper expression.
    pub fn expr_owned_to_inner(&self, owned: &crate::expr::Owned) -> (r: crate::expr::OwnedInner)
        requires
            self.wf(),
        ensures
            r.code() == proj_code(owned.code(), self.names_view().owned_field),
    {
        owned.to_owned_inner(self.owned.field_name().as_str())
    }

    /// Project the inner value out of a slice-wrapper expression, keeping
    /// its mutability.
    pub fn expr_slice_to_inner(&self, slice: &crate::expr::Slice) -> (r: crate::expr::SliceInner)
        requires
            self.wf(),
        ensures
            r.code() == ref_code(
                slice.mutability_spec(),
                proj_code(slice.code(), self.names_view().slice_field),
            ),
            r.mutability_spec() == slice.mutability_spec(),
    {
        slice.to_slice_inner_ref(self.slice.field_name().as_str())
    }

    /// Re-wrap an owned-inner expression into the owned wrapper.
    pub fn expr_owned_from_inner(&self, inner: &crate::expr::OwnedInner) -> (r: crate::expr::Owned)
        requires
            self.wf(),
        ensures
            r.code() == wrap_owned_code(
                self.names_view().ty_owned,
                self.names_view().owned_field,
                inner.code(),
            ),
    {
        inner.to_owned_unchecked(self.owned.outer_type(), self.owned.field_name().as_str())
    }
}

/// The unchecked owned constructor configured under `key`: absent when the
/// key is not configured; it takes the inner value and re-wraps it with no
/// validation.
#[verifier::opaque]
pub open spec fn spec_owned_unchecked(d: Definitions, key: Seq<char>) -> Result<
    Option<Seq<char>>,
    GenErrV,
> {
    match spec_nv_from(d.owned.attrs.custom_meta@, key, 0) {
        None => Ok(None),
        Some(p) => {
            match spec_parse_prefix(p) {
                None => Err(GenErrV::BadPrefix(key)),
                Some(_) => Ok(
                    Some(
                        fn_item_code(
                            p,
                            "_v"@,
                            d.names_view().ty_owned_inner,
                            "Self"@,
                            wrap_owned_code(
                                d.names_view().ty_owned,
                                d.names_view().owned_field,
                                "_v"@,
                            ),
                        ),
                    ),
                ),
            }
        },
    }
}

/// The checked owned constructor configured under `key`: it validates the
/// borrowed slice-inner view of the candidate and re-wraps the original
/// value on success. It demands a well-formed prefix, an error
/// configuration, and a validator.
#[verifier::opaque]
pub open spec fn spec_owned_checked(d: Definitions, key: Seq<char>) -> Result<
    Option<Seq<char>>,
    GenErrV,
> {
    match spec_nv_from(d.owned.attrs.custom_meta@, key, 0) {
        None => Ok(None),
        Some(p) => {
            match spec_parse_prefix(p) {
                None => Err(GenErrV::BadPrefix(key)),
                Some(_) => {
                    match spec_error_cfg(d.owned.attrs.custom_meta@, key) {
                        Err(e) => Err(e),
                        Ok(t) => {
                            if !d.has_validator() {
                                Err(GenErrV::MissingValidator(key))
                            } else {
                                Ok(
                                    Some(
                                        fn_item_code(
                                            p,
                                            "_v"@,
                                            d.names_view().ty_owned_inner,
                                            "std::result::Result<Self, "@ + t + ">"@,
                                            owned_checked_body_code(
                                                d.names_view(),
                                                d.validator_chars(),
                                                spec_mapped_error(
                                                    d.owned.attrs.custom_meta@,
                                                    "_e"@,
                                                    "_v"@,
                                                ),
                                            ),
                                        ),
                                    ),
                                )
                            }
                        },
                    }
                },
            }
        },
    }
}

/// The owned accessor configured under `key`: a reference to the inner
/// value, in the given mutability.
#[verifier::opaque]
pub open spec fn spec_owned_accessor(d: Definitions, key: Seq<char>, m: Mutability) -> Result<
    Option<Seq<char>>,
    GenErrV,
> {
    match spec_nv_from(d.owned.attrs.custom_meta@, key, 0) {
        None => Ok(None),
        Some(p) => {
            match spec_parse_prefix(p) {
                None => Err(GenErrV::BadPrefix(key)),
                Some(_) => Ok(
                    Some(
                        fn_item_raw_code(
                            p,
                            ref_code(m, "self"@),
                            ref_code(m, d.names_view().ty_owned_inner),
                            ref_code(m, proj_code("self"@, d.names_view().owned_field)),
                        ),
                    ),
                ),
            }
        },
    }
}

/// The extractor configured under `key`: it consumes the owned wrapper by
/// value and yields the inner value, a pure field projection.
#[verifier::opaque]
pub open spec fn spec_owned_into_inner(d: Definitions, key: Seq<char>) -> Result<
    Option<Seq<char>>,
    GenErrV,
> {
    match spec_nv_from(d.owned.attrs.custom_meta@, key, 0) {
        None => Ok(None),
        Some(p) => {
            match spec_parse_prefix(p) {
                None => Err(GenErrV::BadPrefix(key)),
                Some(_) => Ok(
                    Some(
                        fn_item_raw_code(
                            p,
                            "self"@,
                            d.names_view().ty_owned_inner,
                            proj_code("self"@, d.names_view().owned_field),
                        ),
                    ),
                ),
            }
        },
    }
}

/// The unchecked slice constructor configured under `key`: it takes a
/// reference to the inner representation and reinterprets it
/// unconditionally. The reinterpretation is wrapped in an `unsafe` block
/// exactly when the prefix does not already declare the function `unsafe`.
#[verifier::opaque]
pub open spec fn spec_slice_unchecked(d: Definitions, key: Seq<char>, m: Mutability) -> Result<
    Option<Seq<char>>,
    GenErrV,
> {
    match spec_nv_from(d.slice.attrs.custom_meta@, key, 0) {
        None => Ok(None),
        Some(p) => {
            match spec_parse_prefix(p) {
                None => Err(GenErrV::BadPrefix(key)),
                Some(uns) => Ok(
                    Some(
                        fn_item_code(
                            p,
                            "_v"@,
                            ref_code(m, d.names_view().ty_slice_inner),
                            ref_code(m, d.names_view().ty_slice),
                            reinterpret_code(
                                m,
                                if uns {
                                    Safety::Unsafe
                                } else {
                                    Safety::Safe
                                },
                                d.names_view().ty_slice_inner,
                                d.names_view().ty_slice,
                                "_v"@,
                            ),
                        ),
                    ),
                ),
            }
        },
    }
}

/// The checked slice constructor configured under `key`: it validates the
/// candidate and reinterprets it on success.
#[verifier::opaque]
pub open spec fn spec_slice_checked(d: Definitions, key: Seq<char>, m: Mutability) -> Result<
    Option<Seq<char>>,
    GenErrV,
> {
    match spec_nv_from(d.slice.attrs.custom_meta@, key, 0) {
        None => Ok(None),
        Some(p) => {
            match spec_parse_prefix(p) {
                None => Err(GenErrV::BadPrefix(key)),
                Some(uns) => {
                    match spec_error_cfg(d.slice.attrs.custom_meta@, key) {
                        Err(e) => Err(e),
                        Ok(t) => {
                            if !d.has_validator() {
                                Err(GenErrV::MissingValidator(key))
                            } else {
                                Ok(
                                    Some(
                                        fn_item_code(
                                            p,
                                            "_v"@,
                                            ref_code(m, d.names_view().ty_slice_inner),
                                            "std::result::Result<"@ + ref_code(
                                                m,
                                                d.names_view().ty_slice,
                                            ) + ", "@ + t + ">"@,
                                            slice_checked_body_code(
                                                d.names_view(),
                                                m,
                                                if uns {
                                                    Safety::Unsafe
                                                } else {
                                                    Safety::Safe
                                                },
                                                d.validator_chars(),
                                                spec_mapped_error(
                                                    d.slice.attrs.custom_meta@,
                                                    "_e"@,
                                                    "_v"@,
                                                ),
                                            ),
                                        ),
                                    ),
                                )
                            }
                        },
                    }
                },
            }
        },
    }
}

/// The slice accessor configured under `key`: a reference to the inner
/// representation, in the given mutability.
#[verifier::opaque]
pub open spec fn spec_slice_accessor(d: Definitions, key: Seq<char>, m: Mutability) -> Result<
    Option<Seq<char>>,
    GenErrV,
> {
    match spec_nv_from(d.slice.attrs.custom_meta@, key, 0) {
        None => Ok(None),
        Some(p) => {
            match spec_parse_prefix(p) {
                None => Err(GenErrV::BadPrefix(key)),
                Some(_) => Ok(
                    Some(
                        fn_item_raw_code(
                            p,
                            ref_code(m, "self"@),
                            ref_code(m, d.names_view().ty_slice_inner),
                            ref_code(m, proj_code("self"@, d.names_view().slice_field)),
                        ),
                    ),
                ),
            }
        },
    }
}

/// The view of an optional generated part.
pub open spec fn opt_chars(o: Option<String>) -> Option<Seq<char>> {
    match o {
        Some(s) => Some(s@),
        None => None,
    }
}

/// A present part contributes its text and a line break; an absent one
/// contributes nothing.
pub open spec fn opt_part(o: Option<Seq<char>>) -> Seq<char> {
    match o {
        Some(s) => s + "\n"@,
        None => Seq::empty(),
    }
}

/// The whole inherent-method block of the owned type, or nothing when no
/// method is configured; the first configuration fault aborts it.
#[verifier::opaque]
pub open spec fn spec_methods_for_owned(d: Definitions) -> Result<Option<Seq<char>>, GenErrV> {
    match spec_owned_unchecked(d, "new_unchecked"@) {
        Err(e) => Err(e),
        Ok(o1) => {
            match spec_owned_checked(d, "new_checked"@) {
                Err(e) => Err(e),
                Ok(o2) => {
                    match spec_owned_accessor(d, "get_ref"@, Mutability::Constant) {
                        Err(e) => Err(e),
                        Ok(o3) => {
                            match spec_owned_accessor(d, "get_mut"@, Mutability::Mutable) {
                                Err(e) => Err(e),
                                Ok(o4) => {
                                    match spec_owned_into_inner(d, "into_inner"@) {
                                        Err(e) => Err(e),
                                        Ok(o5) => {
                                            if o1 is None && o2 is None && o3 is None && o4 is None
                                                && o5 is None {
                                                Ok(None)
                                            } else {
                                                Ok(
                                                    Some(
                                                        "impl "@ + d.owned.ident@ + " { "@
                                                            + opt_part(o1) + opt_part(o2)
                                                            + opt_part(o3) + opt_part(o4)
                                                            + opt_part(o5) + "}"@,
                                                    ),
                                                )
                                            }
                                        },
                                    }
                                },
                            }
                        },
                    }
                },
            }
        },
    }
}

/// The whole inherent-method block of the slice type, or nothing when no
/// method is configured; the first configuration fault aborts it.
#[verifier::opaque]
pub open spec fn spec_methods_for_slice(d: Definitions) -> Result<Option<Seq<char>>, GenErrV> {
    match spec_slice_unchecked(d, "new_unchecked"@, Mutability::Constant) {
        Err(e) => Err(e),
        Ok(o1) => {
            match spec_slice_unchecked(d, "new_unchecked_mut"@, Mutability::Mutable) {
                Err(e) => Err(e),
                Ok(o2) => {
                    match spec_slice_checked(d, "new_checked"@, Mutability::Constant) {
                        Err(e) => Err(e),
                        Ok(o3) => {
                            match spec_slice_checked(d, "new_checked_mut"@, Mutability::Mutable) {
                                Err(e) => Err(e),
                                Ok(o4) => {
                                    match spec_slice_accessor(
                                        d,
                                        "get_ref"@,
                                        Mutability::Constant,
                                    ) {
                                        Err(e) => Err(e),
                                        Ok(o5) => {
                                            match spec_slice_accessor(
                                                d,
                                                "get_mut"@,
                                                Mutability::Mutable,
                                            ) {
                                                Err(e) => Err(e),
                                                Ok(o6) => {
                                                    if o1 is None && o2 is None && o3 is None && o4
                                                        is None && o5 is None && o6 is None {
                                                        Ok(None)
                                                    } else {
                                                        Ok(
                                                            Some(
                                                                "impl "@ + d.slice.ident@ + " { "@
                                                                    + opt_part(o1) + opt_part(o2)
                                                                    + opt_part(o3) + opt_part(o4)
                                                                    + opt_part(o5) + opt_part(o6)
                                                                    + "}"@,
                                                            ),
                                                        )
                                                    }
                                                },
                                            }
                                        },
                                    }
                                },
                            }
                        },
                    }
                },
            }
        },
    }
}

/// What one derive target of the owned type generates, selected by name
/// from the closed catalogue; a name outside the catalogue is a fault,
/// never a silent no-op.
#[verifier::opaque]
pub open spec fn spec_owned_derive_one(d: Definitions, name: Seq<char>) -> Result<
    Seq<char>,
    GenErrV,
> {
    let nv = d.names_view();
    if name == "AsRefSlice"@ {
        Ok(crate::traits_owned::owned_as_ref_slice_code(nv, Mutability::Constant))
    } else if name == "AsRefSliceInner"@ {
        Ok(crate::traits_owned::owned_as_ref_slice_inner_code(nv, Mutability::Constant))
    } else if name == "AsMutSlice"@ {
        Ok(crate::traits_owned::owned_as_ref_slice_code(nv, Mutability::Mutable))
    } else if name == "AsMutSliceInner"@ {
        Ok(crate::traits_owned::owned_as_ref_slice_inner_code(nv, Mutability::Mutable))
    } else if name == "BorrowMut"@ {
        Ok(crate::traits_owned::owned_borrow_code(nv, Mutability::Mutable))
    } else if name == "Deref"@ {
        Ok(crate::traits_owned::owned_deref_code(nv, Mutability::Constant))
    } else if name == "DerefMut"@ {
        Ok(crate::traits_owned::owned_deref_code(nv, Mutability::Mutable))
    } else if name == "PartialEq"@ {
        Ok(
            crate::traits::cmp_impl_slice_code(
                crate::traits::CmpTrait::PartialEq,
                crate::types::RefType::Owned,
                crate::types::RefType::Owned,
                nv,
            ),
        )
    } else if name == "PartialOrd"@ {
        Ok(
            crate::traits::cmp_impl_slice_code(
                crate::traits::CmpTrait::PartialOrd,
                crate::types::RefType::Owned,
                crate::types::RefType::Owned,
                nv,
            ),
        )
    } else if name == "PartialEqBulk"@ {
        Ok(crate::traits_owned::owned_cmp_bulk_code(crate::traits::CmpTrait::PartialEq, nv))
    } else if name == "PartialOrdBulk"@ {
        Ok(crate::traits_owned::owned_cmp_bulk_code(crate::traits::CmpTrait::PartialOrd, nv))
    } else if name == "PartialEqInnerBulk"@ {
        Ok(crate::traits_owned::owned_cmp_inner_bulk_code(crate::traits::CmpTrait::PartialEq, nv))
    } else if name == "PartialOrdInnerBulk"@ {
        Ok(crate::traits_owned::owned_cmp_inner_bulk_code(crate::traits::CmpTrait::PartialOrd, nv))
    } else if name == "FromInner"@ {
        if d.has_validator() {
            Err(GenErrV::ValidatorConflict(name))
        } else {
            Ok(crate::traits_owned::owned_from_inner_code(nv))
        }
    } else if name == "IntoInner"@ {
        Ok(crate::traits_owned::owned_into_inner_code(nv))
    } else if name == "TryFromInner"@ {
        match spec_error_cfg(d.owned.attrs.custom_meta@, name) {
            Err(e) => Err(e),
            Ok(t) => {
                if !d.has_validator() {
                    Err(GenErrV::MissingValidator(name))
                } else {
                    Ok(
                        crate::traits_owned::owned_try_from_inner_code(
                            nv,
                            d.validator_chars(),
                            t,
                            spec_mapped_error(d.owned.attrs.custom_meta@, "_e"@, "_v"@),
                        ),
                    )
                }
            },
        }
    } else {
        Err(GenErrV::UnknownDeriveOwned(name))
    }
}

/// What one derive target of the slice type generates, selected by name
/// from the closed catalogue.
#[verifier::opaque]
pub open spec fn spec_slice_derive_one(d: Definitions, name: Seq<char>) -> Result<
    Seq<char>,
    GenErrV,
> {
    let nv = d.names_view();
    if name == "AsRefSlice"@ {
        Ok(crate::traits_slice::slice_as_ref_slice_code(nv, Mutability::Constant))
    } else if name == "AsRefSliceInner"@ {
        Ok(crate::traits_slice::slice_as_ref_slice_inner_code(nv, Mutability::Constant))
    } else if name == "AsMutSlice"@ {
        Ok(crate::traits_slice::slice_as_ref_slice_code(nv, Mutability::Mutable))
    } else if name == "AsMutSliceInner"@ {
        Ok(crate::traits_slice::slice_as_ref_slice_inner_code(nv, Mutability::Mutable))
    } else if name == "Deref"@ {
        Ok(crate::traits_slice::slice_deref_code(nv, Mutability::Constant))
    } else if name == "DerefMut"@ {
        Ok(crate::traits_slice::slice_deref_code(nv, Mutability::Mutable))
    } else if name == "Default"@ {
        Ok(crate::traits_slice::slice_default_ref_code(nv, Mutability::Constant))
    } else if name == "DefaultRef"@ {
        Ok(crate::traits_slice::slice_default_ref_code(nv, Mutability::Constant))
    } else if name == "DefaultRefMut"@ {
        Ok(crate::traits_slice::slice_default_ref_code(nv, Mutability::Mutable))
    } else if name == "DefaultArc"@ {
        Ok(crate::traits_slice::slice_default_smartptr_code(nv, crate::types::StdSmartPtr::Arc))
    } else if name == "DefaultBox"@ {
        Ok(crate::traits_slice::slice_default_smartptr_code(nv, crate::types::StdSmartPtr::Box))
    } else if name == "DefaultRc"@ {
        Ok(crate::traits_slice::slice_default_smartptr_code(nv, crate::types::StdSmartPtr::Rc))
    } else if name == "IntoArc"@ {
        Ok(crate::traits_slice::slice_into_smartptr_code(nv, crate::types::StdSmartPtr::Arc))
    } else if name == "IntoBox"@ {
        Ok(crate::traits_slice::slice_into_smartptr_code(nv, crate::types::StdSmartPtr::Box))
    } else if name == "IntoRc"@ {
        Ok(crate::traits_slice::slice_into_smartptr_code(nv, crate::types::StdSmartPtr::Rc))
    } else if name == "PartialEqBulk"@ {
        Ok(crate::traits_slice::slice_cmp_bulk_code(crate::traits::CmpTrait::PartialEq, nv))
    } else if name == "PartialOrdBulk"@ {
        Ok(crate::traits_slice::slice_cmp_bulk_code(crate::traits::CmpTrait::PartialOrd, nv))
    } else if name == "PartialEqInnerBulk"@ {
        Ok(crate::traits_slice::slice_cmp_inner_bulk_code(crate::traits::CmpTrait::PartialEq, nv))
    } else if name == "PartialOrdInnerBulk"@ {
        Ok(crate::traits_slice::slice_cmp_inner_bulk_code(crate::traits::CmpTrait::PartialOrd, nv))
    } else if name == "FromInner"@ {
        if d.has_validator() {
            Err(GenErrV::ValidatorConflict(name))
        } else {
            Ok(crate::traits_slice::slice_from_inner_code(nv, Mutability::Constant))
        }
    } else if name == "FromInnerMut"@ {
        if d.has_validator() {
            Err(GenErrV::ValidatorConflict(name))
        } else {
            Ok(crate::traits_slice::slice_from_inner_code(nv, Mutability::Mutable))
        }
    } else if name == "TryFromInner"@ {
        match spec_error_cfg(d.slice.attrs.custom_meta@, name) {
            Err(e) => Err(e),
            Ok(t) => {
                if !d.has_validator() {
                    Err(GenErrV::MissingValidator(name))
                } else {
                    Ok(
                        crate::traits_slice::slice_try_from_inner_code(
                            nv,
                            Mutability::Constant,
                            d.validator_chars(),
                            t,
                            spec_mapped_error(d.slice.attrs.custom_meta@, "_e"@, "_v"@),
                        ),
                    )
                }
            },
        }
    } else if name == "TryFromInnerMut"@ {
        match spec_error_cfg(d.slice.attrs.custom_meta@, name) {
            Err(e) => Err(e),
            Ok(t) => {
                if !d.has_validator() {
                    Err(GenErrV::MissingValidator(name))
                } else {
                    Ok(
                        crate::traits_slice::slice_try_from_inner_code(
                            nv,
                            Mutability::Mutable,
                            d.validator_chars(),
                            t,
                            spec_mapped_error(d.slice.attrs.custom_meta@, "_e"@, "_v"@),
                        ),
                    )
                }
            },
        }
    } else {
        Err(GenErrV::UnknownDeriveSlice(name))
    }
}

/// The impls generated for the owned type's derive targets from index `i`
/// on, one per line, in request order; the first fault aborts them.
pub open spec fn spec_owned_derives_from(d: Definitions, list: Seq<Seq<char>>, i: int) -> Result<
    Seq<char>,
    GenErrV,
>
    decreases list.len() - i,
{
    if i < 0 || i >= list.len() {
        Ok(Seq::empty())
    } else {
        match spec_owned_derive_one(d, list[i]) {
            Err(e) => Err(e),
            Ok(c) => {
                match spec_owned_derives_from(d, list, i + 1) {
                    Err(e) => Err(e),
                    Ok(rest) => Ok(c + "\n"@ + rest),
                }
            },
        }
    }
}

/// The impls generated for the slice type's derive targets from index `i`
/// on, one per line, in request order; the first fault aborts them.
pub open spec fn spec_slice_derives_from(d: Definitions, list: Seq<Seq<char>>, i: int) -> Result<
    Seq<char>,
    GenErrV,
>
    decreases list.len() - i,
{
    if i < 0 || i >= list.len() {
        Ok(Seq::empty())
    } else {
        match spec_slice_derive_one(d, list[i]) {
            Err(e) => Err(e),
            Ok(c) => {
                match spec_slice_derives_from(d, list, i + 1) {
                    Err(e) => Err(e),
                    Ok(rest) => Ok(c + "\n"@ + rest),
                }
            },
        }
    }
}

/// The whole generated output: the two re-declared types, the re-declared
/// validator if present, the two inherent-method blocks, the owned type's
/// `Borrow` impl and the slice type's `ToOwned` impl (always generated),
/// and the requested derive targets of both roles, in request order. The
/// first configuration fault aborts the whole generation; nothing is
/// partially emitted.
#[verifier::opaque]
pub open spec fn spec_generate(d: Definitions) -> Result<Seq<char>, GenErrV> {
    match spec_methods_for_owned(d) {
        Err(e) => Err(e),
        Ok(mo) => {
            match spec_methods_for_slice(d) {
                Err(e) => Err(e),
                Ok(ms) => {
                    match spec_owned_derives_from(
                        d,
                        crate::attrs::spec_derives_from(d.owned.attrs.custom_meta@, 0),
                        0,
                    ) {
                        Err(e) => Err(e),
                        Ok(dob) => {
                            match spec_slice_derives_from(
                                d,
                                crate::attrs::spec_derives_from(d.slice.attrs.custom_meta@, 0),
                                0,
                            ) {
                                Err(e) => Err(e),
                                Ok(dsb) => Ok(
                                    d.owned.create_item_code() + "\n"@ + d.slice.create_item_code()
                                        + "\n"@ + (match d.validator {
                                        Some(v) => v.create_item_code() + "\n"@,
                                        None => Seq::<char>::empty(),
                                    }) + opt_part(mo) + opt_part(ms)
                                        + crate::traits_owned::owned_borrow_code(
                                        d.names_view(),
                                        Mutability::Constant,
                                    ) + "\n"@ + crate::traits_slice::slice_to_owned_code(
                                        d.names_view(),
                                    ) + "\n"@ + dob + dsb,
                                ),
                            }
                        },
                    }
                },
            }
        },
    }
}

/// How the generated output follows from its parts: the first fault among
/// the owned methods, the slice methods, the owned derives, and the slice
/// derives aborts it; otherwise the output is the concatenation above.
#[verifier::rlimit(100)]
proof fn lemma_generate(d: Definitions)
    ensures
        spec_methods_for_owned(d) matches Err(e) ==> spec_generate(d) == Err::<Seq<char>, GenErrV>(
            e,
        ),
        spec_methods_for_owned(d) matches Ok(mo) ==> {
            &&& spec_methods_for_slice(d) matches Err(e) ==> spec_generate(d) == Err::<
                Seq<char>,
                GenErrV,
            >(e)
            &&& spec_methods_for_slice(d) matches Ok(ms) ==> {
                &&& spec_owned_derives_from(
                    d,
                    crate::attrs::spec_derives_from(d.owned.attrs.custom_meta@, 0),
                    0,
                ) matches Err(e) ==> spec_generate(d) == Err::<Seq<char>, GenErrV>(e)
                &&& spec_owned_derives_from(
                    d,
                    crate::attrs::spec_derives_from(d.owned.attrs.custom_meta@, 0),
                    0,
                ) matches Ok(dob) ==> {
                    &&& spec_slice_derives_from(
                        d,
                        crate::attrs::spec_derives_from(d.slice.attrs.custom_meta@, 0),
                        0,
                    ) matches Err(e) ==> spec_generate(d) == Err::<Seq<char>, GenErrV>(e)
                    &&& spec_slice_derives_from(
                        d,
                        crate::attrs::spec_derives_from(d.slice.attrs.custom_meta@, 0),
                        0,
                    ) matches Ok(dsb) ==> spec_generate(d) == Ok::<Seq<char>, GenErrV>(
                        d.owned.create_item_code() + "\n"@ + d.slice.create_item_code() + "\n"@ + (
                        match d.validator {
                            Some(v) => v.create_item_code() + "\n"@,
                            None => Seq::<char>::empty(),
                        }) + opt_part(mo) + opt_part(ms) + crate::traits_owned::owned_borrow_code(
                            d.names_view(),
                            Mutability::Constant,
                        ) + "\n"@ + crate::traits_slice::slice_to_owned_code(d.names_view()) + "\n"@
                            + dob + dsb,
                    )
                }
            }
        },
{
    reveal(spec_generate);
}

/// A step that did not fail views as the view of its optional part.
proof fn lemma_opt_res_view(o: Option<String>)
    ensures
        opt_res_view(Ok(o)) == Ok::<Option<Seq<char>>, GenErrV>(opt_chars(o)),
{
}


/// How the owned method block follows from its five parts: the first fault
/// aborts it, and otherwise the block collects the parts that are present.
#[verifier::rlimit(100)]
proof fn lemma_methods_for_owned(d: Definitions)
    ensures
        spec_owned_unchecked(d, "new_unchecked"@) matches Err(e) ==> spec_methods_for_owned(d)
            == Err::<Option<Seq<char>>, GenErrV>(e),
        spec_owned_unchecked(d, "new_unchecked"@) matches Ok(o1) ==> {
            &&& spec_owned_checked(d, "new_checked"@) matches Err(e)
                ==> spec_methods_for_owned(d) == Err::<Option<Seq<char>>, GenErrV>(e)
            &&& spec_owned_checked(d, "new_checked"@) matches Ok(o2) ==> {
                &&& spec_owned_accessor(d, "get_ref"@, Mutability::Constant) matches Err(e)
                    ==> spec_methods_for_owned(d) == Err::<Option<Seq<char>>, GenErrV>(e)
                &&& spec_owned_accessor(d, "get_ref"@, Mutability::Constant) matches Ok(o3) ==> {
                    &&& spec_owned_accessor(d, "get_mut"@, Mutability::Mutable) matches Err(e)
                        ==> spec_methods_for_owned(d) == Err::<Option<Seq<char>>, GenErrV>(e)
                    &&& spec_owned_accessor(d, "get_mut"@, Mutability::Mutable) matches Ok(o4)
                        ==> {
                        &&& spec_owned_into_inner(d, "into_inner"@) matches Err(e)
                            ==> spec_methods_for_owned(d) == Err::<Option<Seq<char>>, GenErrV>(e)
                        &&& spec_owned_into_inner(d, "into_inner"@) matches Ok(o5)
                            ==> spec_methods_for_owned(d) == (if o1 is None && o2 is None && o3
                            is None && o4 is None && o5 is None {
                            Ok::<Option<Seq<char>>, GenErrV>(None)
                        } else {
                            Ok(
                                Some(
                                    "impl "@ + d.owned.ident@ + " { "@ + opt_part(o1) + opt_part(
                                        o2,
                                    ) + opt_part(o3) + opt_part(o4) + opt_part(o5) + "}"@,
                                ),
                            )
                        })
                    }
                }
            }
        },
{
    reveal(spec_methods_for_owned);
}

/// How the slice method block follows from its six parts.
#[verifier::rlimit(100)]
proof fn lemma_methods_for_slice(d: Definitions)
    ensures
        spec_slice_unchecked(d, "new_unchecked"@, Mutability::Constant) matches Err(e)
            ==> spec_methods_for_slice(d) == Err::<Option<Seq<char>>, GenErrV>(e),
        spec_slice_unchecked(d, "new_unchecked"@, Mutability::Constant) matches Ok(o1) ==> {
            &&& spec_slice_unchecked(d, "new_unchecked_mut"@, Mutability::Mutable) matches Err(e)
                ==> spec_methods_for_slice(d) == Err::<Option<Seq<char>>, GenErrV>(e)
            &&& spec_slice_unchecked(d, "new_unchecked_mut"@, Mutability::Mutable) matches Ok(o2)
                ==> {
                &&& spec_slice_checked(d, "new_checked"@, Mutability::Constant) matches Err(e)
                    ==> spec_methods_for_slice(d) == Err::<Option<Seq<char>>, GenErrV>(e)
                &&& spec_slice_checked(d, "new_checked"@, Mutability::Constant) matches Ok(o3)
                    ==> {
                    &&& spec_slice_checked(d, "new_checked_mut"@, Mutability::Mutable) matches Err(
                        e,
                    ) ==> spec_methods_for_slice(d) == Err::<Option<Seq<char>>, GenErrV>(e)
                    &&& spec_slice_checked(d, "new_checked_mut"@, Mutability::Mutable) matches Ok(
                        o4,
                    ) ==> {
                        &&& spec_slice_accessor(d, "get_ref"@, Mutability::Constant) matches Err(e)
                            ==> spec_methods_for_slice(d) == Err::<Option<Seq<char>>, GenErrV>(e)
                        &&& spec_slice_accessor(d, "get_ref"@, Mutability::Constant) matches Ok(o5)
                            ==> {
                            &&& spec_slice_accessor(d, "get_mut"@, Mutability::Mutable) matches Err(
                                e,
                            ) ==> spec_methods_for_slice(d) == Err::<Option<Seq<char>>, GenErrV>(e)
                            &&& spec_slice_accessor(d, "get_mut"@, Mutability::Mutable) matches Ok(
                                o6,
                            ) ==> spec_methods_for_slice(d) == (if o1 is None && o2 is None && o3
                                is None && o4 is None && o5 is None && o6 is None {
                                Ok::<Option<Seq<char>>, GenErrV>(None)
                            } else {
                                Ok(
                                    Some(
                                        "impl "@ + d.slice.ident@ + " { "@ + opt_part(o1)
                                            + opt_part(o2) + opt_part(o3) + opt_part(o4)
                                            + opt_part(o5) + opt_part(o6) + "}"@,
                                    ),
                                )
                            })
                        }
                    }
                }
            }
        },
{
    reveal(spec_methods_for_slice);
}

/// Append an optional part and a line break to the text under assembly.
fn push_part(out: &mut String, part: &Option<String>, any: &mut bool)
    ensures
        final(out)@ == old(out)@ + opt_part(opt_chars(*part)),
        *final(any) == (*old(any) || part is Some),
{
    match part {
        Some(s) => {
            out.append(s.as_str());
            out.append("\n");
            *any = true;
        },
        None => {},
    }
}

impl Definitions {
    /// Generate the unchecked owned constructor, if configured.
    pub fn impl_owned_constructor_unchecked(&self, attr_name: &str) -> (r: Result<
        Option<String>,
        GenError,
    >)
        requires
            self.wf(),
        ensures
            opt_res_view(r) == spec_owned_unchecked(*self, attr_name@),
    {
        proof {
            reveal(spec_owned_unchecked);
        }
        match self.owned.attrs.get_fn_prefix(attr_name) {
            None => Ok(None),
            Some(p) => {
                match p.unsafety() {
                    None => Err(GenError::BadPrefix(String::from_str(attr_name))),
                    Some(_) => {
                        let body = crate::expr::OwnedInner::new(
                            String::from_str("_v"),
                        ).to_owned_unchecked(
                            self.owned.outer_type(),
                            self.owned.field_name().as_str(),
                        );
                        Ok(
                            Some(
                                p.build_item_with_named_arg(
                                    "_v",
                                    self.owned.inner_type(),
                                    "Self",
                                    body.as_str(),
                                ),
                            ),
                        )
                    },
                }
            },
        }
    }

    /// Generate the checked owned constructor, if configured.
    pub fn impl_owned_constructor_checked(&self, attr_name: &str) -> (r: Result<
        Option<String>,
        GenError,
    >)
        requires
            self.wf(),
        ensures
            opt_res_view(r) == spec_owned_checked(*self, attr_name@),
    {
        proof {
            reveal(spec_owned_checked);
        }
        match self.owned.attrs.get_fn_prefix(attr_name) {
            None => Ok(None),
            Some(p) => {
                match p.unsafety() {
                    None => Err(GenError::BadPrefix(String::from_str(attr_name))),
                    Some(_) => {
                        match error_cfg(&self.owned.attrs, attr_name) {
                            Err(e) => Err(e),
                            Ok(t) => {
                                match &self.validator {
                                    None => Err(
                                        GenError::MissingValidator(String::from_str(attr_name)),
                                    ),
                                    Some(v) => {
                                        let mapped = self.owned.attrs.get_mapped_error("_e", "_v");
                                        let candidate = crate::expr::OwnedInner::new(
                                            String::from_str("_v"),
                                        ).to_slice_inner_ref(
                                            OwnedToSliceTrait::Borrow,
                                            Mutability::Constant,
                                            self.owned.inner_type(),
                                            self.slice.inner_type(),
                                        );
                                        let ok_expr = crate::expr::OwnedInner::new(
                                            String::from_str("_v"),
                                        ).to_owned_unchecked(
                                            self.owned.outer_type(),
                                            self.owned.field_name().as_str(),
                                        );
                                        let body = crate::emit::validate_match_text(
                                            v.name(),
                                            candidate.as_str(),
                                            ok_expr.as_str(),
                                            mapped.as_str(),
                                        );
                                        let ret = String::from_str(
                                            "std::result::Result<Self, ",
                                        ).concat(t.as_str()).concat(">");
                                        proof {
                                            assert(ret@ =~= "std::result::Result<Self, "@ + t@
                                                + ">"@);
                                        }
                                        Ok(
                                            Some(
                                                p.build_item_with_named_arg(
                                                    "_v",
                                                    self.owned.inner_type(),
                                                    ret.as_str(),
                                                    body.as_str(),
                                                ),
                                            ),
                                        )
                                    },
                                }
                            },
                        }
                    },
                }
            },
        }
    }

    /// Generate an owned accessor, if configured.
    pub fn impl_owned_accessor(&self, attr_name: &str, m: Mutability) -> (r: Result<
        Option<String>,
        GenError,
    >)
        requires
            self.wf(),
        ensures
            opt_res_view(r) == spec_owned_accessor(*self, attr_name@, m),
    {
        proof {
            reveal(spec_owned_accessor);
        }
        match self.owned.attrs.get_fn_prefix(attr_name) {
            None => Ok(None),
            Some(p) => {
                match p.unsafety() {
                    None => Err(GenError::BadPrefix(String::from_str(attr_name))),
                    Some(_) => {
                        let body = m.make_ref(self.owned.inner_expr("self").as_str());
                        Ok(
                            Some(
                                p.build_item_with_raw_args(
                                    m.make_ref("self").as_str(),
                                    m.make_ref(self.owned.inner_type()).as_str(),
                                    body.as_str(),
                                ),
                            ),
                        )
                    },
                }
            },
        }
    }

    /// Generate the by-value extractor of the inner value, if configured.
    pub fn impl_owned_into_inner(&self, attr_name: &str) -> (r: Result<Option<String>, GenError>)
        requires
            self.wf(),
        ensures
            opt_res_view(r) == spec_owned_into_inner(*self, attr_name@),
    {
        proof {
            reveal(spec_owned_into_inner);
        }
        match self.owned.attrs.get_fn_prefix(attr_name) {
            None => Ok(None),
            Some(p) => {
                match p.unsafety() {
                    None => Err(GenError::BadPrefix(String::from_str(attr_name))),
                    Some(_) => {
                        let body = self.owned.inner_expr("self");
                        Ok(
                            Some(
                                p.build_item_with_raw_args(
                                    "self",
                                    self.owned.inner_type(),
                                    body.as_str(),
                                ),
                            ),
                        )
                    },
                }
            },
        }
    }

    /// Generate an unchecked slice constructor, if configured.
    pub fn impl_slice_constructor_unchecked(&self, attr_name: &str, m: Mutability) -> (r: Result<
        Option<String>,
        GenError,
    >)
        requires
            self.wf(),
        ensures
            opt_res_view(r) == spec_slice_unchecked(*self, attr_name@, m),
    {
        proof {
            reveal(spec_slice_unchecked);
        }
        match self.slice.attrs.get_fn_prefix(attr_name) {
            None => Ok(None),
            Some(p) => {
                match p.unsafety() {
                    None => Err(GenError::BadPrefix(String::from_str(attr_name))),
                    Some(ctx) => {
                        let si = crate::expr::SliceInner::new(String::from_str("_v"), m);
                        let body = si.to_slice_unchecked(
                            self.slice.inner_type(),
                            self.slice.outer_type(),
                            ctx,
                        );
                        Ok(
                            Some(
                                p.build_item_with_named_arg(
                                    "_v",
                                    m.make_ref(self.slice.inner_type()).as_str(),
                                    m.make_ref(self.slice.outer_type()).as_str(),
                                    body.as_str(),
                                ),
                            ),
                        )
                    },
                }
            },
        }
    }

    /// Generate a checked slice constructor, if configured.
    pub fn impl_slice_constructor_checked(&self, attr_name: &str, m: Mutability) -> (r: Result<
        Option<String>,
        GenError,
    >)
        requires
            self.wf(),
        ensures
            opt_res_view(r) == spec_slice_checked(*self, attr_name@, m),
    {
        proof {
            reveal(spec_slice_checked);
        }
        match self.slice.attrs.get_fn_prefix(attr_name) {
            None => Ok(None),
            Some(p) => {
                match p.unsafety() {
                    None => Err(GenError::BadPrefix(String::from_str(attr_name))),
                    Some(ctx) => {
                        match error_cfg(&self.slice.attrs, attr_name) {
                            Err(e) => Err(e),
                            Ok(t) => {
                                match &self.validator {
                                    None => Err(
                                        GenError::MissingValidator(String::from_str(attr_name)),
                                    ),
                                    Some(v) => {
                                        let mapped = self.slice.attrs.get_mapped_error("_e", "_v");
                                        let si = crate::expr::SliceInner::new(
                                            String::from_str("_v"),
                                            m,
                                        );
                                        let ok_expr = si.to_slice_unchecked(
                                            self.slice.inner_type(),
                                            self.slice.outer_type(),
                                            ctx,
                                        );
                                        let body = crate::emit::validate_match_text(
                                            v.name(),
                                            "_v",
                                            ok_expr.as_str(),
                                            mapped.as_str(),
                                        );
                                        let ret = String::from_str("std::result::Result<").concat(
                                            m.make_ref(self.slice.outer_type()).as_str(),
                                        ).concat(", ").concat(t.as_str()).concat(">");
                                        proof {
                                            assert(ret@ =~= "std::result::Result<"@ + ref_code(
                                                m,
                                                self.names_view().ty_slice,
                                            ) + ", "@ + t@ + ">"@);
                                        }
                                        Ok(
                                            Some(
                                                p.build_item_with_named_arg(
                                                    "_v",
                                                    m.make_ref(self.slice.inner_type()).as_str(),
                                                    ret.as_str(),
                                                    body.as_str(),
                                                ),
                                            ),
                                        )
                                    },
                                }
                            },
                        }
                    },
                }
            },
        }
    }

    /// Generate the inherent-method block of the owned type: the two
    /// constructors, the two accessors, and the extractor, each gated by
    /// its configuration key; no block at all when none is configured.
    pub fn impl_methods_for_owned(&self) -> (r: Result<Option<String>, GenError>)
        requires
            self.wf(),
        ensures
            opt_res_view(r) == spec_methods_for_owned(*self),
    {
        proof {
            lemma_methods_for_owned(*self);
        }
        let o1 = match self.impl_owned_constructor_unchecked("new_unchecked") {
            Ok(o) => o,
            Err(e) => { return Err(e) },
        };
        let o2 = match self.impl_owned_constructor_checked("new_checked") {
            Ok(o) => o,
            Err(e) => { return Err(e) },
        };
        let o3 = match self.impl_owned_accessor("get_ref", Mutability::Constant) {
            Ok(o) => o,
            Err(e) => { return Err(e) },
        };
        let o4 = match self.impl_owned_accessor("get_mut", Mutability::Mutable) {
            Ok(o) => o,
            Err(e) => { return Err(e) },
        };
        let o5 = match self.impl_owned_into_inner("into_inner") {
            Ok(o) => o,
            Err(e) => { return Err(e) },
        };
        proof {
            lemma_opt_res_view(o1);
            lemma_opt_res_view(o2);
            lemma_opt_res_view(o3);
            lemma_opt_res_view(o4);
            lemma_opt_res_view(o5);
        }
        let mut body = String::new();
        let mut any = false;
        push_part(&mut body, &o1, &mut any);
        push_part(&mut body, &o2, &mut any);
        push_part(&mut body, &o3, &mut any);
        push_part(&mut body, &o4, &mut any);
        push_part(&mut body, &o5, &mut any);
        if !any {
            return Ok(None);
        }
        let blk = String::from_str("impl ").concat(self.owned.outer_type()).concat(" { ").concat(
            body.as_str(),
        ).concat("}");
        proof {
            assert(blk@ =~= "impl "@ + self.owned.ident@ + " { "@ + opt_part(opt_chars(o1))
                + opt_part(opt_chars(o2)) + opt_part(opt_chars(o3)) + opt_part(opt_chars(o4))
                + opt_part(opt_chars(o5)) + "}"@);
        }
        Ok(Some(blk))
    }

    /// Generate the inherent-method block of the slice type: the four
    /// constructors and the two accessors, each gated by its configuration
    /// key; no block at all when none is configured.
    #[verifier::rlimit(100)]
    pub fn impl_methods_for_slice(&self) -> (r: Result<Option<String>, GenError>)
        requires
            self.wf(),
        ensures
            opt_res_view(r) == spec_methods_for_slice(*self),
    {
        proof {
            lemma_methods_for_slice(*self);
        }
        let o1 = match self.impl_slice_constructor_unchecked("new_unchecked", Mutability::Constant) {
            Ok(o) => o,
            Err(e) => { return Err(e) },
        };
        let o2 = match self.impl_slice_constructor_unchecked(
            "new_unchecked_mut",
            Mutability::Mutable,
        ) {
            Ok(o) => o,
            Err(e) => { return Err(e) },
        };
        let o3 = match self.impl_slice_constructor_checked("new_checked", Mutability::Constant) {
            Ok(o) => o,
            Err(e) => { return Err(e) },
        };
        let o4 = match self.impl_slice_constructor_checked("new_checked_mut", Mutability::Mutable) {
            Ok(o) => o,
            Err(e) => { return Err(e) },
        };
        let o5 = match self.impl_slice_accessor("get_ref", Mutability::Constant) {
            Ok(o) => o,
            Err(e) => { return Err(e) },
        };
        let o6 = match self.impl_slice_accessor("get_mut", Mutability::Mutable) {
            Ok(o) => o,
            Err(e) => { return Err(e) },
        };
        proof {
            lemma_opt_res_view(o1);
            lemma_opt_res_view(o2);
            lemma_opt_res_view(o3);
            lemma_opt_res_view(o4);
            lemma_opt_res_view(o5);
            lemma_opt_res_view(o6);
        }
        let mut body = String::new();
        let mut any = false;
        push_part(&mut body, &o1, &mut any);
        push_part(&mut body, &o2, &mut any);
        push_part(&mut body, &o3, &mut any);
        push_part(&mut body, &o4, &mut any);
        push_part(&mut body, &o5, &mut any);
        push_part(&mut body, &o6, &mut any);
        if !any {
            return Ok(None);
        }
        let blk = String::from_str("impl ").concat(self.slice.outer_type()).concat(" { ").concat(
            body.as_str(),
        ).concat("}");
        proof {
            assert(blk@ =~= "impl "@ + self.slice.ident@ + " { "@ + opt_part(opt_chars(o1))
                + opt_part(opt_chars(o2)) + opt_part(opt_chars(o3)) + opt_part(opt_chars(o4))
                + opt_part(opt_chars(o5)) + opt_part(opt_chars(o6)) + "}"@);
        }
        Ok(Some(blk))
    }

    /// Generate a slice accessor, if configured.
    pub fn impl_slice_accessor(&self, attr_name: &str, m: Mutability) -> (r: Result<
        Option<String>,
        GenError,
    >)
        requires
            self.wf(),
        ensures
            opt_res_view(r) == spec_slice_accessor(*self, attr_name@, m),
    {
        proof {
            reveal(spec_slice_accessor);
        }
        match self.slice.attrs.get_fn_prefix(attr_name) {
            None => Ok(None),
            Some(p) => {
                match p.unsafety() {
                    None => Err(GenError::BadPrefix(String::from_str(attr_name))),
                    Some(_) => {
                        let body = m.make_ref(self.slice.inner_expr("self").as_str());
                        Ok(
                            Some(
                                p.build_item_with_raw_args(
                                    m.make_ref("self").as_str(),
                                    m.make_ref(self.slice.inner_type()).as_str(),
                                    body.as_str(),
                                ),
                            ),
                        )
                    },
                }
            },
        }
    }
}


impl Definitions {
    /// Generate the impl selected by one derive target of the owned type.
    #[verifier::rlimit(100)]
    fn derive_one_owned(&self, tn: &TypeNames, name: &str) -> (r: Result<String, GenError>)
        requires
            self.wf(),
            tn@ == self.names_view(),
        ensures
            res_view(r) == spec_owned_derive_one(*self, name@),
    {
        proof {
            reveal(spec_owned_derive_one);
        }
        if crate::attrs::str_eq(name, "AsRefSlice") {
            Ok(crate::traits_owned::impl_as_ref_slice(tn, Mutability::Constant))
        } else if crate::attrs::str_eq(name, "AsRefSliceInner") {
            Ok(crate::traits_owned::impl_as_ref_slice_inner(tn, Mutability::Constant))
        } else if crate::attrs::str_eq(name, "AsMutSlice") {
            Ok(crate::traits_owned::impl_as_ref_slice(tn, Mutability::Mutable))
        } else if crate::attrs::str_eq(name, "AsMutSliceInner") {
            Ok(crate::traits_owned::impl_as_ref_slice_inner(tn, Mutability::Mutable))
        } else if crate::attrs::str_eq(name, "BorrowMut") {
            Ok(crate::traits_owned::impl_borrow(tn, Mutability::Mutable))
        } else if crate::attrs::str_eq(name, "Deref") {
            Ok(crate::traits_owned::impl_deref(tn, Mutability::Constant))
        } else if crate::attrs::str_eq(name, "DerefMut") {
            Ok(crate::traits_owned::impl_deref(tn, Mutability::Mutable))
        } else if crate::attrs::str_eq(name, "PartialEq") {
            Ok(crate::traits_owned::impl_cmp(crate::traits::CmpTrait::PartialEq, tn))
        } else if crate::attrs::str_eq(name, "PartialOrd") {
            Ok(crate::traits_owned::impl_cmp(crate::traits::CmpTrait::PartialOrd, tn))
        } else if crate::attrs::str_eq(name, "PartialEqBulk") {
            Ok(crate::traits_owned::impl_cmp_bulk(crate::traits::CmpTrait::PartialEq, tn))
        } else if crate::attrs::str_eq(name, "PartialOrdBulk") {
            Ok(crate::traits_owned::impl_cmp_bulk(crate::traits::CmpTrait::PartialOrd, tn))
        } else if crate::attrs::str_eq(name, "PartialEqInnerBulk") {
            Ok(crate::traits_owned::impl_cmp_inner_bulk(crate::traits::CmpTrait::PartialEq, tn))
        } else if crate::attrs::str_eq(name, "PartialOrdInnerBulk") {
            Ok(crate::traits_owned::impl_cmp_inner_bulk(crate::traits::CmpTrait::PartialOrd, tn))
        } else if crate::attrs::str_eq(name, "FromInner") {
            match &self.validator {
                Some(_) => Err(GenError::ValidatorConflict(String::from_str(name))),
                None => Ok(crate::traits_owned::impl_from_inner(tn)),
            }
        } else if crate::attrs::str_eq(name, "IntoInner") {
            Ok(crate::traits_owned::impl_into_inner(tn))
        } else if crate::attrs::str_eq(name, "TryFromInner") {
            match error_cfg(&self.owned.attrs, name) {
                Err(e) => Err(e),
                Ok(t) => {
                    match &self.validator {
                        None => Err(GenError::MissingValidator(String::from_str(name))),
                        Some(v) => {
                            let mapped = self.owned.attrs.get_mapped_error("_e", "_v");
                            Ok(
                                crate::traits_owned::impl_try_from_inner(
                                    tn,
                                    v.name(),
                                    t.as_str(),
                                    mapped.as_str(),
                                ),
                            )
                        },
                    }
                },
            }
        } else {
            Err(GenError::UnknownDeriveOwned(String::from_str(name)))
        }
    }

    /// Generate the impl selected by one derive target of the slice type.
    #[verifier::rlimit(100)]
    fn derive_one_slice(&self, tn: &TypeNames, name: &str) -> (r: Result<String, GenError>)
        requires
            self.wf(),
            tn@ == self.names_view(),
        ensures
            res_view(r) == spec_slice_derive_one(*self, name@),
    {
        proof {
            reveal(spec_slice_derive_one);
        }
        if crate::attrs::str_eq(name, "AsRefSlice") {
            Ok(crate::traits_slice::impl_as_ref_slice(tn, Mutability::Constant))
        } else if crate::attrs::str_eq(name, "AsRefSliceInner") {
            Ok(crate::traits_slice::impl_as_ref_slice_inner(tn, Mutability::Constant))
        } else if crate::attrs::str_eq(name, "AsMutSlice") {
            Ok(crate::traits_slice::impl_as_ref_slice(tn, Mutability::Mutable))
        } else if crate::attrs::str_eq(name, "AsMutSliceInner") {
            Ok(crate::traits_slice::impl_as_ref_slice_inner(tn, Mutability::Mutable))
        } else if crate::attrs::str_eq(name, "Deref") {
            Ok(crate::traits_slice::impl_deref(tn, Mutability::Constant))
        } else if crate::attrs::str_eq(name, "DerefMut") {
            Ok(crate::traits_slice::impl_deref(tn, Mutability::Mutable))
        } else if crate::attrs::str_eq(name, "Default") {
            Ok(crate::traits_slice::impl_default_ref(tn, Mutability::Constant))
        } else if crate::attrs::str_eq(name, "DefaultRef") {
            Ok(crate::traits_slice::impl_default_ref(tn, Mutability::Constant))
        } else if crate::attrs::str_eq(name, "DefaultRefMut") {
            Ok(crate::traits_slice::impl_default_ref(tn, Mutability::Mutable))
        } else if crate::attrs::str_eq(name, "DefaultArc") {
            Ok(crate::traits_slice::impl_default_smartptr(tn, crate::types::StdSmartPtr::Arc))
        } else if crate::attrs::str_eq(name, "DefaultBox") {
            Ok(crate::traits_slice::impl_default_smartptr(tn, crate::types::StdSmartPtr::Box))
        } else if crate::attrs::str_eq(name, "DefaultRc") {
            Ok(crate::traits_slice::impl_default_smartptr(tn, crate::types::StdSmartPtr::Rc))
        } else if crate::attrs::str_eq(name, "IntoArc") {
            Ok(crate::traits_slice::impl_into_smartptr(tn, crate::types::StdSmartPtr::Arc))
        } else if crate::attrs::str_eq(name, "IntoBox") {
            Ok(crate::traits_slice::impl_into_smartptr(tn, crate::types::StdSmartPtr::Box))
        } else if crate::attrs::str_eq(name, "IntoRc") {
            Ok(crate::traits_slice::impl_into_smartptr(tn, crate::types::StdSmartPtr::Rc))
        } else if crate::attrs::str_eq(name, "PartialEqBulk") {
            Ok(crate::traits_slice::impl_cmp_bulk(crate::traits::CmpTrait::PartialEq, tn))
        } else if crate::attrs::str_eq(name, "PartialOrdBulk") {
            Ok(crate::traits_slice::impl_cmp_bulk(crate::traits::CmpTrait::PartialOrd, tn))
        } else if crate::attrs::str_eq(name, "PartialEqInnerBulk") {
            Ok(crate::traits_slice::impl_cmp_inner_bulk(crate::traits::CmpTrait::PartialEq, tn))
        } else if crate::attrs::str_eq(name, "PartialOrdInnerBulk") {
            Ok(crate::traits_slice::impl_cmp_inner_bulk(crate::traits::CmpTrait::PartialOrd, tn))
        } else if crate::attrs::str_eq(name, "FromInner") {
            match &self.validator {
                Some(_) => Err(GenError::ValidatorConflict(String::from_str(name))),
                None => Ok(crate::traits_slice::impl_from_inner(tn, Mutability::Constant)),
            }
        } else if crate::attrs::str_eq(name, "FromInnerMut") {
            match &self.validator {
                Some(_) => Err(GenError::ValidatorConflict(String::from_str(name))),
                None => Ok(crate::traits_slice::impl_from_inner(tn, Mutability::Mutable)),
            }
        } else if crate::attrs::str_eq(name, "TryFromInner") {
            match error_cfg(&self.slice.attrs, name) {
                Err(e) => Err(e),
                Ok(t) => {
                    match &self.validator {
                        None => Err(GenError::MissingValidator(String::from_str(name))),
                        Some(v) => {
                            let mapped = self.slice.attrs.get_mapped_error("_e", "_v");
                            Ok(
                                crate::traits_slice::impl_try_from_inner(
                                    tn,
                                    Mutability::Constant,
                                    v.name(),
                                    t.as_str(),
                                    mapped.as_str(),
                                ),
                            )
                        },
                    }
                },
            }
        } else if crate::attrs::str_eq(name, "TryFromInnerMut") {
            match error_cfg(&self.slice.attrs, name) {
                Err(e) => Err(e),
                Ok(t) => {
                    match &self.validator {
                        None => Err(GenError::MissingValidator(String::from_str(name))),
                        Some(v) => {
                            let mapped = self.slice.attrs.get_mapped_error("_e", "_v");
                            Ok(
                                crate::traits_slice::impl_try_from_inner(
                                    tn,
                                    Mutability::Mutable,
                                    v.name(),
                                    t.as_str(),
                                    mapped.as_str(),
                                ),
                            )
                        },
                    }
                },
            }
        } else {
            Err(GenError::UnknownDeriveSlice(String::from_str(name)))
        }
    }

    /// Generate the owned type's derive targets from index `i` on.
    fn derive_fold_owned(&self, tn: &TypeNames, list: &Vec<String>, i: usize) -> (r: Result<
        String,
        GenError,
    >)
        requires
            self.wf(),
            tn@ == self.names_view(),
        ensures
            res_view(r) == spec_owned_derives_from(*self, views_of(list@), i as int),
        decreases list@.len() - i,
    {
        if i >= list.len() {
            Ok(String::new())
        } else {
            proof {
                assert(views_of(list@)[i as int] == list@[i as int]@);
            }
            match self.derive_one_owned(tn, list[i].as_str()) {
                Err(e) => Err(e),
                Ok(c) => {
                    match self.derive_fold_owned(tn, list, i + 1) {
                        Err(e) => Err(e),
                        Ok(rest) => Ok(c.concat("
").concat(rest.as_str())),
                    }
                },
            }
        }
    }

    /// Generate the slice type's derive targets from index `i` on.
    fn derive_fold_slice(&self, tn: &TypeNames, list: &Vec<String>, i: usize) -> (r: Result<
        String,
        GenError,
    >)
        requires
            self.wf(),
            tn@ == self.names_view(),
        ensures
            res_view(r) == spec_slice_derives_from(*self, views_of(list@), i as int),
        decreases list@.len() - i,
    {
        if i >= list.len() {
            Ok(String::new())
        } else {
            proof {
                assert(views_of(list@)[i as int] == list@[i as int]@);
            }
            match self.derive_one_slice(tn, list[i].as_str()) {
                Err(e) => Err(e),
                Ok(c) => {
                    match self.derive_fold_slice(tn, list, i + 1) {
                        Err(e) => Err(e),
                        Ok(rest) => Ok(c.concat("
").concat(rest.as_str())),
                    }
                },
            }
        }
    }

    /// Generate the impls requested by the owned type's derive targets.
    pub fn impl_derives_for_owned(&self) -> (r: Result<String, GenError>)
        requires
            self.wf(),
        ensures
            res_view(r) == spec_owned_derives_from(
                *self,
                crate::attrs::spec_derives_from(self.owned.attrs.custom_meta@, 0),
                0,
            ),
    {
        let tn = self.names();
        let list = self.owned.attrs.derives();
        self.derive_fold_owned(&tn, &list, 0)
    }

    /// Generate the impls requested by the slice type's derive targets.
    pub fn impl_derives_for_slice(&self) -> (r: Result<String, GenError>)
        requires
            self.wf(),
        ensures
            res_view(r) == spec_slice_derives_from(
                *self,
                crate::attrs::spec_derives_from(self.slice.attrs.custom_meta@, 0),
                0,
            ),
    {
        let tn = self.names();
        let list = self.slice.attrs.derives();
        self.derive_fold_slice(&tn, &list, 0)
    }

    /// Generate the whole output for this definitions aggregate, or the
    /// first configuration fault. Nothing is partially emitted on failure.
    #[verifier::rlimit(100)]
    pub fn generate(&self) -> (r: Result<String, GenError>)
        requires
            self.wf(),
        ensures
            res_view(r) == spec_generate(*self),
    {
        proof {
            lemma_generate(*self);
        }
        let mo = match self.impl_methods_for_owned() {
            Ok(o) => o,
            Err(e) => { return Err(e) },
        };
        let ms = match self.impl_methods_for_slice() {
            Ok(o) => o,
            Err(e) => { return Err(e) },
        };
        let dob = match self.impl_derives_for_owned() {
            Ok(s) => s,
            Err(e) => { return Err(e) },
        };
        let dsb = match self.impl_derives_for_slice() {
            Ok(s) => s,
            Err(e) => { return Err(e) },
        };
        proof {
            lemma_opt_res_view(mo);
            lemma_opt_res_view(ms);
        }
        let tn = self.names();
        let mut out = self.owned.create_item();
        out.append("
");
        out.append(self.slice.create_item().as_str());
        out.append("
");
        match &self.validator {
            Some(v) => {
                out.append(v.create_item().as_str());
                out.append("
");
            },
            None => {},
        }
        let mut any = false;
        push_part(&mut out, &mo, &mut any);
        push_part(&mut out, &ms, &mut any);
        out.append(crate::traits_owned::impl_borrow(&tn, Mutability::Constant).as_str());
        out.append("
");
        out.append(crate::traits_slice::impl_to_owned(&tn).as_str());
        out.append("
");
        out.append(dob.as_str());
        out.append(dsb.as_str());
        proof {
            assert(out@ =~= self.owned.create_item_code() + "\n"@ + self.slice.create_item_code()
                + "\n"@ + (match self.validator {
                Some(v) => v.create_item_code() + "\n"@,
                None => Seq::<char>::empty(),
            }) + opt_part(opt_chars(mo)) + opt_part(opt_chars(ms))
                + crate::traits_owned::owned_borrow_code(self.names_view(), Mutability::Constant)
                + "\n"@ + crate::traits_slice::slice_to_owned_code(self.names_view()) + "\n"@
                + dob@ + dsb@);
        }
        Ok(out)
    }
}

} // verus!
