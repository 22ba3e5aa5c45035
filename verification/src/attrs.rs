//! The configuration model: the structured annotations attached to each
//! declared item, partitioned into the generator's own configuration
//! namespace and the attributes passed through unchanged to the output.

use vstd::prelude::*;

use crate::props::Safety;
use crate::template::{fn_item_code, fn_item_raw_code, spec_parse_prefix};

verus! {

/// String equality by contents.
pub fn str_eq(a: &str, b: &str) -> (r: bool)
    ensures
        r == (a@ == b@),
{
    let sa = String::from_str(a);
    let sb = String::from_str(b);
    sa == sb
}

/// An innermost configuration entry: a bare word or a `name = "value"` pair.
pub enum MetaLeaf {
    Word(String),
    NameValue(String, String),
}

/// One entry of the generator's configuration namespace: a bare word
/// (a role marker), a `name = "value"` pair (a constructor prefix), or a
/// named list (`derive(..)`, `error(..)`).
pub enum MetaNode {
    Word(String),
    NameValue(String, String),
    List(String, Vec<MetaLeaf>),
}

/// The parsed shape of a whole attribute, for attributes the host syntax
/// could parse into this form.
pub enum AttrMeta {
    Word(String),
    NameValue(String, String),
    List(String, Vec<MetaNode>),
}

/// One attribute attached to a declared item: its parsed shape when
/// available, and its exact source text for verbatim re-emission.
pub struct Attr {
    /// Parsed shape, when the attribute fits the meta grammar.
    pub meta: Option<AttrMeta>,
    /// Exact source text of the whole attribute.
    pub text: String,
}

/// The three special roles an item can be marked with.
#[derive(Debug, Clone, Copy, PartialEq, Eq, Structural)]
pub enum SpecialItemType {
    /// Slice type definition.
    SliceType,
    /// Owned type definition.
    OwnedType,
    /// Validator function definition.
    Validator,
}

/// The role named by a marker word, if any.
pub open spec fn spec_special_of_word(w: Seq<char>) -> Option<SpecialItemType> {
    if w == "slice"@ {
        Some(SpecialItemType::SliceType)
    } else if w == "owned"@ {
        Some(SpecialItemType::OwnedType)
    } else if w == "validator"@ {
        Some(SpecialItemType::Validator)
    } else {
        None
    }
}

impl SpecialItemType {
    /// The role named by a marker word, if any.
    pub fn from_ident(ident: &str) -> (r: Option<SpecialItemType>)
        ensures
            r == spec_special_of_word(ident@),
    {
        if str_eq(ident, "slice") {
            Some(SpecialItemType::SliceType)
        } else if str_eq(ident, "owned") {
            Some(SpecialItemType::OwnedType)
        } else if str_eq(ident, "validator") {
            Some(SpecialItemType::Validator)
        } else {
            None
        }
    }
}

/// First role marker among the configuration entries from index `i` on.
pub open spec fn spec_special_from(ms: Seq<MetaNode>, i: int) -> Option<SpecialItemType>
    decreases ms.len() - i,
{
    if i < 0 || i >= ms.len() {
        None
    } else {
        match ms[i] {
            MetaNode::Word(w) => {
                if spec_special_of_word(w@) is Some {
                    spec_special_of_word(w@)
                } else {
                    spec_special_from(ms, i + 1)
                }
            },
            _ => spec_special_from(ms, i + 1),
        }
    }
}

/// The words among a list's entries, in order, from index `j` on.
pub open spec fn spec_leaf_words(ls: Seq<MetaLeaf>, j: int) -> Seq<Seq<char>>
    decreases ls.len() - j,
{
    if j < 0 || j >= ls.len() {
        Seq::empty()
    } else {
        (match ls[j] {
            MetaLeaf::Word(w) => seq![w@],
            _ => Seq::<Seq<char>>::empty(),
        }) + spec_leaf_words(ls, j + 1)
    }
}

/// All derive-target names, in order, from index `i` on.
pub open spec fn spec_derives_from(ms: Seq<MetaNode>, i: int) -> Seq<Seq<char>>
    decreases ms.len() - i,
{
    if i < 0 || i >= ms.len() {
        Seq::empty()
    } else {
        (match ms[i] {
            MetaNode::List(n, items) => {
                if n@ == "derive"@ {
                    spec_leaf_words(items@, 0)
                } else {
                    Seq::<Seq<char>>::empty()
                }
            },
            _ => Seq::<Seq<char>>::empty(),
        }) + spec_derives_from(ms, i + 1)
    }
}

/// First `name = "value"` entry with the given name, from index `i` on.
pub open spec fn spec_nv_from(ms: Seq<MetaNode>, name: Seq<char>, i: int) -> Option<Seq<char>>
    decreases ms.len() - i,
{
    if i < 0 || i >= ms.len() {
        None
    } else {
        match ms[i] {
            MetaNode::NameValue(n, v) => {
                if n@ == name {
                    Some(v@)
                } else {
                    spec_nv_from(ms, name, i + 1)
                }
            },
            _ => spec_nv_from(ms, name, i + 1),
        }
    }
}

/// First `key = "value"` pair among a list's entries, from index `j` on.
pub open spec fn spec_leaf_nv_from(ls: Seq<MetaLeaf>, key: Seq<char>, j: int) -> Option<Seq<char>>
    decreases ls.len() - j,
{
    if j < 0 || j >= ls.len() {
        None
    } else {
        match ls[j] {
            MetaLeaf::NameValue(n, v) => {
                if n@ == key {
                    Some(v@)
                } else {
                    spec_leaf_nv_from(ls, key, j + 1)
                }
            },
            _ => spec_leaf_nv_from(ls, key, j + 1),
        }
    }
}

/// First `key = "value"` pair inside an `error(..)` list, from index `i` on.
pub open spec fn spec_error_conf_from(ms: Seq<MetaNode>, key: Seq<char>, i: int) -> Option<
    Seq<char>,
>
    decreases ms.len() - i,
{
    if i < 0 || i >= ms.len() {
        None
    } else {
        match ms[i] {
            MetaNode::List(n, items) => {
                if n@ == "error"@ && spec_leaf_nv_from(items@, key, 0) is Some {
                    spec_leaf_nv_from(items@, key, 0)
                } else {
                    spec_error_conf_from(ms, key, i + 1)
                }
            },
            _ => spec_error_conf_from(ms, key, i + 1),
        }
    }
}

/// The error expression of a failed validation: the `map` template applied
/// to the error variable and the original input, or the bare error variable
/// when no template is configured.
pub open spec fn spec_mapped_error(
    ms: Seq<MetaNode>,
    error_var: Seq<char>,
    arg: Seq<char>,
) -> Seq<char> {
    match spec_error_conf_from(ms, "map"@, 0) {
        Some(t) => t + "("@ + error_var + ", "@ + arg + ")"@,
        None => error_var,
    }
}

/// Is any entry of `ns` the word `transparent` or `C`?
pub open spec fn spec_any_repr_word(ns: Seq<MetaNode>, j: int) -> bool
    decreases ns.len() - j,
{
    if j < 0 || j >= ns.len() {
        false
    } else {
        (ns[j] matches MetaNode::Word(w) && (w@ == "transparent"@ || w@ == "C"@))
            || spec_any_repr_word(ns, j + 1)
    }
}

/// Does any pass-through attribute from index `i` on declare
/// `repr(transparent)` or `repr(C)`?
pub open spec fn spec_repr_tc_from(attrs: Seq<Attr>, i: int) -> bool
    decreases attrs.len() - i,
{
    if i < 0 || i >= attrs.len() {
        false
    } else {
        (attrs[i].meta matches Some(AttrMeta::List(n, ns)) && n@ == "repr"@ && spec_any_repr_word(
            ns@,
            0,
        )) || spec_repr_tc_from(attrs, i + 1)
    }
}

/// The configuration entries contributed by the attributes from index `i`
/// on: the nested entries of every attribute in the generator's namespace.
pub open spec fn spec_custom_of(attrs: Seq<Attr>, i: int) -> Seq<MetaNode>
    decreases attrs.len() - i,
{
    if i < 0 || i >= attrs.len() {
        Seq::empty()
    } else {
        (match attrs[i].meta {
            Some(AttrMeta::List(n, ns)) => {
                if n@ == "custom_slice"@ {
                    ns@
                } else {
                    Seq::<MetaNode>::empty()
                }
            },
            _ => Seq::<MetaNode>::empty(),
        }) + spec_custom_of(attrs, i + 1)
    }
}

/// The attributes from index `i` on that are not in the generator's
/// namespace, kept in order for verbatim re-emission.
pub open spec fn spec_raw_of(attrs: Seq<Attr>, i: int) -> Seq<Attr>
    decreases attrs.len() - i,
{
    if i < 0 || i >= attrs.len() {
        Seq::empty()
    } else {
        (match attrs[i].meta {
            Some(AttrMeta::List(n, ns)) => {
                if n@ == "custom_slice"@ {
                    Seq::<Attr>::empty()
                } else {
                    seq![attrs[i]]
                }
            },
            _ => seq![attrs[i]],
        }) + spec_raw_of(attrs, i + 1)
    }
}

/// The text of the pass-through attributes from index `i` on, one per line.
pub open spec fn spec_raw_text(attrs: Seq<Attr>, i: int) -> Seq<char>
    decreases attrs.len() - i,
{
    if i < 0 || i >= attrs.len() {
        Seq::empty()
    } else {
        attrs[i].text@ + "\n"@ + spec_raw_text(attrs, i + 1)
    }
}

/// The views of a vector of strings.
pub open spec fn views_of(ss: Seq<String>) -> Seq<Seq<char>> {
    ss.map_values(|s: String| s@)
}

/// The annotations of one declared item, split into the generator's own
/// configuration entries and the attributes to re-emit unchanged.
pub struct CustomSliceAttrs {
    /// Configuration entries of the generator's namespace.
    pub custom_meta: Vec<MetaNode>,
    /// Attributes passed through to the emitted item.
    pub raw: Vec<Attr>,
}

impl CustomSliceAttrs {
    /// Partition an item's attributes: entries of the generator's namespace
    /// become configuration, everything else is kept for re-emission.
    pub fn from_attrs(attrs: Vec<Attr>) -> (r: CustomSliceAttrs)
        ensures
            r.custom_meta@ == spec_custom_of(attrs@, 0),
            r.raw@ == spec_raw_of(attrs@, 0),
    {
        let ghost orig = attrs@;
        let mut rest = attrs;
        let mut custom: Vec<MetaNode> = Vec::new();
        let mut raw: Vec<Attr> = Vec::new();
        while rest.len() > 0
            invariant
                spec_custom_of(orig, 0) =~= custom@ + spec_custom_of(rest@, 0),
                spec_raw_of(orig, 0) =~= raw@ + spec_raw_of(rest@, 0),
            decreases rest.len(),
        {
            let ghost pre = rest@;
            let a = rest.remove(0);
            proof {
                assert(rest@ =~= pre.drop_first());
                assert(spec_custom_of(pre, 0) =~= (match a.meta {
                    Some(AttrMeta::List(n, ns)) => {
                        if n@ == "custom_slice"@ {
                            ns@
                        } else {
                            Seq::<MetaNode>::empty()
                        }
                    },
                    _ => Seq::<MetaNode>::empty(),
                }) + spec_custom_of(rest@, 0)) by {
                    lemma_custom_of_shift(pre, rest@);
                }
                assert(spec_raw_of(pre, 0) =~= (match a.meta {
                    Some(AttrMeta::List(n, ns)) => {
                        if n@ == "custom_slice"@ {
                            Seq::<Attr>::empty()
                        } else {
                            seq![a]
                        }
                    },
                    _ => seq![a],
                }) + spec_raw_of(rest@, 0)) by {
                    lemma_raw_of_shift(pre, rest@);
                }
            }
            let Attr { meta, text } = a;
            match meta {
                Some(AttrMeta::List(name, mut ns)) => {
                    if str_eq(name.as_str(), "custom_slice") {
                        custom.append(&mut ns);
                    } else {
                        raw.push(Attr { meta: Some(AttrMeta::List(name, ns)), text });
                    }
                },
                other => {
                    raw.push(Attr { meta: other, text });
                },
            }
        }
        CustomSliceAttrs { custom_meta: custom, raw }
    }

    /// The role this item is marked with, if any; the first marker wins.
    pub fn special_item_type(&self) -> (r: Option<SpecialItemType>)
        ensures
            r == spec_special_from(self.custom_meta@, 0),
    {
        let n = self.custom_meta.len();
        let mut i: usize = 0;
        while i < n
            invariant
                n == self.custom_meta@.len(),
                i <= n,
                spec_special_from(self.custom_meta@, 0) == spec_special_from(
                    self.custom_meta@,
                    i as int,
                ),
            decreases n - i,
        {
            match &self.custom_meta[i] {
                MetaNode::Word(w) => {
                    let t = SpecialItemType::from_ident(w.as_str());
                    if t.is_some() {
                        return t;
                    }
                },
                _ => {},
            }
            i = i + 1;
        }
        None
    }

    /// All derive-target names requested for this item, in order.
    pub fn derives(&self) -> (r: Vec<String>)
        ensures
            views_of(r@) == spec_derives_from(self.custom_meta@, 0),
    {
        let n = self.custom_meta.len();
        let mut out: Vec<String> = Vec::new();
        let mut i: usize = 0;
        while i < n
            invariant
                n == self.custom_meta@.len(),
                i <= n,
                spec_derives_from(self.custom_meta@, 0) =~= views_of(out@) + spec_derives_from(
                    self.custom_meta@,
                    i as int,
                ),
            decreases n - i,
        {
            match &self.custom_meta[i] {
                MetaNode::List(name, items) => {
                    if str_eq(name.as_str(), "derive") {
                        let k = items.len();
                        let mut j: usize = 0;
                        while j < k
                            invariant
                                n == self.custom_meta@.len(),
                                i < n,
                                k == items@.len(),
                                j <= k,
                                self.custom_meta@[i as int] == MetaNode::List(*name, *items),
                                name@ == "derive"@,
                                spec_derives_from(self.custom_meta@, 0) =~= views_of(out@)
                                    + spec_leaf_words(items@, j as int) + spec_derives_from(
                                    self.custom_meta@,
                                    i + 1,
                                ),
                            decreases k - j,
                        {
                            match &items[j] {
                                MetaLeaf::Word(w) => {
                                    let ghost old_out = out@;
                                    out.push(String::from_str(w.as_str()));
                                    proof {
                                        assert(views_of(out@) =~= views_of(old_out).push(w@));
                                    }
                                },
                                _ => {},
                            }
                            j = j + 1;
                        }
                    }
                },
                _ => {},
            }
            i = i + 1;
        }
        proof {
            assert(views_of(out@) =~= spec_derives_from(self.custom_meta@, 0));
        }
        out
    }

    /// The value of the first `name = "value"` configuration entry with the
    /// given name.
    pub fn get_nv_value(&self, name: &str) -> (r: Option<String>)
        ensures
            r is Some <==> spec_nv_from(self.custom_meta@, name@, 0) is Some,
            r matches Some(v) ==> spec_nv_from(self.custom_meta@, name@, 0) == Some(v@),
    {
        let n = self.custom_meta.len();
        let mut i: usize = 0;
        while i < n
            invariant
                n == self.custom_meta@.len(),
                i <= n,
                spec_nv_from(self.custom_meta@, name@, 0) == spec_nv_from(
                    self.custom_meta@,
                    name@,
                    i as int,
                ),
            decreases n - i,
        {
            match &self.custom_meta[i] {
                MetaNode::NameValue(k, v) => {
                    if str_eq(k.as_str(), name) {
                        return Some(String::from_str(v.as_str()));
                    }
                },
                _ => {},
            }
            i = i + 1;
        }
        None
    }

    /// The function-signature prefix configured under the given key, if any.
    pub fn get_fn_prefix(&self, attr_name: &str) -> (r: Option<FnPrefix>)
        ensures
            r is Some <==> spec_nv_from(self.custom_meta@, attr_name@, 0) is Some,
            r matches Some(p) ==> spec_nv_from(self.custom_meta@, attr_name@, 0) == Some(
                p.prefix_chars(),
            ),
    {
        match self.get_nv_value(attr_name) {
            Some(v) => Some(FnPrefix::from(v)),
            None => None,
        }
    }

    /// The value under the given key of the `error(..)` sub-configuration.
    pub fn get_error_conf(&self, key: &str) -> (r: Option<String>)
        ensures
            r is Some <==> spec_error_conf_from(self.custom_meta@, key@, 0) is Some,
            r matches Some(v) ==> spec_error_conf_from(self.custom_meta@, key@, 0) == Some(v@),
    {
        let n = self.custom_meta.len();
        let mut i: usize = 0;
        while i < n
            invariant
                n == self.custom_meta@.len(),
                i <= n,
                spec_error_conf_from(self.custom_meta@, key@, 0) == spec_error_conf_from(
                    self.custom_meta@,
                    key@,
                    i as int,
                ),
            decreases n - i,
        {
            match &self.custom_meta[i] {
                MetaNode::List(name, items) => {
                    if str_eq(name.as_str(), "error") {
                        let k = items.len();
                        let mut j: usize = 0;
                        while j < k
                            invariant
                                n == self.custom_meta@.len(),
                                i < n,
                                k == items@.len(),
                                j <= k,
                                self.custom_meta@[i as int] == MetaNode::List(*name, *items),
                                name@ == "error"@,
                                spec_error_conf_from(self.custom_meta@, key@, 0)
                                    == spec_error_conf_from(self.custom_meta@, key@, i as int),
                                spec_leaf_nv_from(items@, key@, 0) == spec_leaf_nv_from(
                                    items@,
                                    key@,
                                    j as int,
                                ),
                            decreases k - j,
                        {
                            match &items[j] {
                                MetaLeaf::NameValue(kk, v) => {
                                    if str_eq(kk.as_str(), key) {
                                        return Some(String::from_str(v.as_str()));
                                    }
                                },
                                _ => {},
                            }
                            j = j + 1;
                        }
                    }
                },
                _ => {},
            }
            i = i + 1;
        }
        None
    }

    /// The configured error type, if any.
    pub fn get_error_type(&self) -> (r: Option<String>)
        ensures
            r is Some <==> spec_error_conf_from(self.custom_meta@, "type"@, 0) is Some,
            r matches Some(v) ==> spec_error_conf_from(self.custom_meta@, "type"@, 0) == Some(v@),
    {
        self.get_error_conf("type")
    }

    /// The error expression for a failed validation: the configured `map`
    /// template applied to `(error_var, arg_name)`, or `error_var` alone.
    pub fn get_mapped_error(&self, error_var: &str, arg_name: &str) -> (r: String)
        ensures
            r@ == spec_mapped_error(self.custom_meta@, error_var@, arg_name@),
    {
        match self.get_error_conf("map") {
            Some(t) => {
                let r = t.concat("(").concat(error_var).concat(", ").concat(arg_name).concat(")");
                proof {
                    assert(r@ =~= spec_mapped_error(self.custom_meta@, error_var@, arg_name@));
                }
                r
            },
            None => String::from_str(error_var),
        }
    }

    /// Does a pass-through attribute declare the representation-transparency
    /// guarantee, `repr(transparent)` or `repr(C)`?
    pub fn is_repr_transparent_or_c(&self) -> (r: bool)
        ensures
            r == spec_repr_tc_from(self.raw@, 0),
    {
        let n = self.raw.len();
        let mut i: usize = 0;
        while i < n
            invariant
                n == self.raw@.len(),
                i <= n,
                spec_repr_tc_from(self.raw@, 0) == spec_repr_tc_from(self.raw@, i as int),
            decreases n - i,
        {
            match &self.raw[i].meta {
                Some(AttrMeta::List(name, ns)) => {
                    if str_eq(name.as_str(), "repr") {
                        let k = ns.len();
                        let mut j: usize = 0;
                        while j < k
                            invariant
                                n == self.raw@.len(),
                                i < n,
                                k == ns@.len(),
                                j <= k,
                                self.raw@[i as int].meta == Some(AttrMeta::List(*name, *ns)),
                                name@ == "repr"@,
                                spec_repr_tc_from(self.raw@, 0) == spec_repr_tc_from(
                                    self.raw@,
                                    i as int,
                                ),
                                spec_any_repr_word(ns@, 0) == spec_any_repr_word(ns@, j as int),
                            decreases k - j,
                        {
                            match &ns[j] {
                                MetaNode::Word(w) => {
                                    if str_eq(w.as_str(), "transparent") || str_eq(w.as_str(), "C")
                                    {
                                        return true;
                                    }
                                },
                                _ => {},
                            }
                            j = j + 1;
                        }
                    }
                },
                _ => {},
            }
            i = i + 1;
        }
        false
    }

    /// The text of the pass-through attributes, one per line.
    pub fn raw_text(&self) -> (r: String)
        ensures
            r@ == spec_raw_text(self.raw@, 0),
    {
        let n = self.raw.len();
        let mut out = String::new();
        let mut i: usize = 0;
        while i < n
            invariant
                n == self.raw@.len(),
                i <= n,
                spec_raw_text(self.raw@, 0) =~= out@ + spec_raw_text(self.raw@, i as int),
            decreases n - i,
        {
            out.append(self.raw[i].text.as_str());
            out.append("\n");
            i = i + 1;
        }
        proof {
            assert(out@ =~= spec_raw_text(self.raw@, 0));
        }
        out
    }
}

/// Splitting off the first attribute shifts the configuration partition by
/// exactly that attribute's contribution.
proof fn lemma_custom_of_shift(pre: Seq<Attr>, rest: Seq<Attr>)
    requires
        pre.len() > 0,
        rest == pre.drop_first(),
    ensures
        spec_custom_of(pre, 0) =~= (match pre[0].meta {
            Some(AttrMeta::List(n, ns)) => {
                if n@ == "custom_slice"@ {
                    ns@
                } else {
                    Seq::<MetaNode>::empty()
                }
            },
            _ => Seq::<MetaNode>::empty(),
        }) + spec_custom_of(rest, 0),
{
    lemma_custom_of_index(pre, rest, 1);
}

/// From index `i` of `pre`, the configuration entries equal those from
/// index `i - 1` of `pre` without its head.
proof fn lemma_custom_of_index(pre: Seq<Attr>, rest: Seq<Attr>, i: int)
    requires
        pre.len() > 0,
        rest == pre.drop_first(),
        1 <= i <= pre.len(),
    ensures
        spec_custom_of(pre, i) =~= spec_custom_of(rest, i - 1),
    decreases pre.len() - i,
{
    if i < pre.len() {
        lemma_custom_of_index(pre, rest, i + 1);
    }
}

/// Splitting off the first attribute shifts the pass-through partition by
/// exactly that attribute's contribution.
proof fn lemma_raw_of_shift(pre: Seq<Attr>, rest: Seq<Attr>)
    requires
        pre.len() > 0,
        rest == pre.drop_first(),
    ensures
        spec_raw_of(pre, 0) =~= (match pre[0].meta {
            Some(AttrMeta::List(n, ns)) => {
                if n@ == "custom_slice"@ {
                    Seq::<Attr>::empty()
                } else {
                    seq![pre[0]]
                }
            },
            _ => seq![pre[0]],
        }) + spec_raw_of(rest, 0),
{
    lemma_raw_of_index(pre, rest, 1);
}

proof fn lemma_raw_of_index(pre: Seq<Attr>, rest: Seq<Attr>, i: int)
    requires
        pre.len() > 0,
        rest == pre.drop_first(),
        1 <= i <= pre.len(),
    ensures
        spec_raw_of(pre, i) =~= spec_raw_of(rest, i - 1),
    decreases pre.len() - i,
{
    if i < pre.len() {
        lemma_raw_of_index(pre, rest, i + 1);
    }
}

/// A function-signature prefix from the configuration: everything of the
/// generated function's definition before its parameter list — attributes,
/// doc comments, visibility, optional `unsafe`, `fn`, and the name.
#[derive(Debug, Clone)]
pub struct FnPrefix {
    /// The prefix text.
    prefix: String,
}

impl FnPrefix {
    /// The text of the prefix.
    pub closed spec fn prefix_chars(&self) -> Seq<char> {
        self.prefix@
    }

    /// Whether the prefix is a well-formed signature prefix, and, when it
    /// is, whether it declares the generated function `unsafe`.
    pub fn unsafety(&self) -> (r: Option<Safety>)
        ensures
            r is Some <==> spec_parse_prefix(self.prefix_chars()) is Some,
            r matches Some(sf) ==> spec_parse_prefix(self.prefix_chars()) == Some(
                sf == Safety::Unsafe,
            ),
    {
        match crate::template::parse_prefix(self.prefix.as_str()) {
            Some(u) => Some(Safety::of_unsafety(u)),
            None => None,
        }
    }

    /// Complete the prefix into a whole function definition with the given
    /// raw argument list, return type, and body.
    pub fn build_item_with_raw_args(&self, args: &str, ty_ret: &str, body_expr: &str) -> (r:
        String)
        ensures
            r@ == fn_item_raw_code(self.prefix_chars(), args@, ty_ret@, body_expr@),
    {
        let mut out = String::from_str(self.prefix.as_str());
        out.append("(");
        out.append(args);
        out.append(") -> ");
        out.append(ty_ret);
        out.append(" { ");
        out.append(body_expr);
        out.append(" }");
        proof {
            assert(out@ =~= fn_item_raw_code(self.prefix_chars(), args@, ty_ret@, body_expr@));
        }
        out
    }

    /// Complete the prefix into a whole function definition with one typed
    /// argument.
    pub fn build_item_with_named_arg(
        &self,
        arg_name: &str,
        ty_arg: &str,
        ty_ret: &str,
        body_expr: &str,
    ) -> (r: String)
        ensures
            r@ == fn_item_code(self.prefix_chars(), arg_name@, ty_arg@, ty_ret@, body_expr@),
    {
        let args = String::from_str(arg_name).concat(": ").concat(ty_arg);
        self.build_item_with_raw_args(args.as_str(), ty_ret, body_expr)
    }
}

impl From<String> for FnPrefix {
    /// Wrap a configured prefix string.
    fn from(prefix: String) -> (r: FnPrefix) {
        FnPrefix { prefix }
    }
}

impl vstd::std_specs::convert::FromSpecImpl<String> for FnPrefix {
    open spec fn obeys_from_spec() -> bool {
        true
    }

    closed spec fn from_spec(prefix: String) -> FnPrefix {
        FnPrefix { prefix }
    }
}

} // verus!
