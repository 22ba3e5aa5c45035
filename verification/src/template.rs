//! Validation of the code templates embedded in the configuration: the
//! function-signature prefixes that checked and unchecked constructors are
//! built from, and the free-form type / error-mapping snippets.
//!
//! A prefix must be a sequence of doc-comment lines and attribute groups,
//! then an optional visibility, an optional `unsafe` marker, and `fn`
//! followed by the function name. The parser also reports whether the
//! prefix declares the function `unsafe`, which decides how the generated
//! body acknowledges the unsafe reinterpretation.

use vstd::prelude::*;

verus! {

pub open spec fn spec_is_ws(c: char) -> bool {
    c == ' ' || c == '\n' || c == '\t' || c == '\r'
}

pub open spec fn spec_is_ident_start(c: char) -> bool {
    ('a' <= c && c <= 'z') || ('A' <= c && c <= 'Z') || c == '_'
}

pub open spec fn spec_is_ident_char(c: char) -> bool {
    spec_is_ident_start(c) || ('0' <= c && c <= '9')
}

#[verifier::when_used_as_spec(spec_is_ws)]
pub fn is_ws(c: char) -> (r: bool)
    ensures
        r == spec_is_ws(c),
{
    c == ' ' || c == '\n' || c == '\t' || c == '\r'
}

#[verifier::when_used_as_spec(spec_is_ident_start)]
pub fn is_ident_start(c: char) -> (r: bool)
    ensures
        r == spec_is_ident_start(c),
{
    ('a' <= c && c <= 'z') || ('A' <= c && c <= 'Z') || c == '_'
}

#[verifier::when_used_as_spec(spec_is_ident_char)]
pub fn is_ident_char(c: char) -> (r: bool)
    ensures
        r == spec_is_ident_char(c),
{
    is_ident_start(c) || ('0' <= c && c <= '9')
}

/// The characters of a string, as a vector.
pub fn str_to_chars(s: &str) -> (r: Vec<char>)
    ensures
        r@ == s@,
{
    let n = s.unicode_len();
    let mut r: Vec<char> = Vec::new();
    let mut i: usize = 0;
    while i < n
        invariant
            n == s@.len(),
            i <= n,
            r@ =~= s@.take(i as int),
        decreases n - i,
    {
        r.push(s.get_char(i));
        i = i + 1;
    }
    proof {
        assert(r@ =~= s@);
    }
    r
}

/// The parser's position in a prefix template.
pub enum PrefixState {
    /// Skipping whitespace before attributes, visibility, or `fn`.
    Lead,
    /// Inside a `///` doc-comment line, up to its newline.
    DocBody,
    /// After `#`, expecting the `[` of an attribute group.
    AttrOpen,
    /// Inside an attribute group, with the current `[`-nesting depth.
    AttrBody(usize),
    /// After `pub`; a parenthesized restriction may still follow.
    AfterVis,
    /// Inside the parenthesized part of a visibility, with its depth.
    VisParen(usize),
    /// After a complete visibility; only `unsafe` or `fn` may follow.
    AfterVis2,
    /// After `unsafe`; only `fn` may follow.
    AfterUnsafe,
    /// After `fn`, expecting the function name.
    AfterFn,
    /// Inside the function name.
    InName,
    /// After the function name; only trailing whitespace may follow.
    TailWs,
}

/// The keywords the prefix grammar recognizes.
pub open spec fn kw_pub() -> Seq<char> {
    seq!['p', 'u', 'b']
}

pub open spec fn kw_unsafe() -> Seq<char> {
    seq!['u', 'n', 's', 'a', 'f', 'e']
}

pub open spec fn kw_fn() -> Seq<char> {
    seq!['f', 'n']
}

/// Can the keyword `kw` be read at position `i` of `s`, as a whole word?
pub open spec fn spec_kw_at(s: Seq<char>, i: int, kw: Seq<char>) -> bool {
    &&& i + kw.len() <= s.len()
    &&& s.subrange(i, i + kw.len() as int) == kw
    &&& (i + kw.len() == s.len() || !spec_is_ident_char(s[i + kw.len() as int]))
}

/// One-character-at-a-time definition of the prefix grammar. Returns, for a
/// well-formed prefix, whether it declares the function `unsafe`.
pub open spec fn prefix_run(s: Seq<char>, i: int, st: PrefixState, uns: bool) -> Option<bool>
    decreases s.len() - i,
{
    if i < 0 || i >= s.len() {
        match st {
            PrefixState::InName => Some(uns),
            PrefixState::TailWs => Some(uns),
            _ => None,
        }
    } else {
        let c = s[i];
        match st {
            PrefixState::Lead => {
                if spec_is_ws(c) {
                    prefix_run(s, i + 1, PrefixState::Lead, uns)
                } else if c == '/' {
                    if i + 3 <= s.len() && s[i + 1] == '/' && s[i + 2] == '/' {
                        prefix_run(s, i + 3, PrefixState::DocBody, uns)
                    } else {
                        None
                    }
                } else if c == '#' {
                    prefix_run(s, i + 1, PrefixState::AttrOpen, uns)
                } else if spec_kw_at(s, i, kw_pub()) {
                    prefix_run(s, i + 3, PrefixState::AfterVis, uns)
                } else if spec_kw_at(s, i, kw_unsafe()) {
                    prefix_run(s, i + 6, PrefixState::AfterUnsafe, true)
                } else if spec_kw_at(s, i, kw_fn()) {
                    prefix_run(s, i + 2, PrefixState::AfterFn, uns)
                } else {
                    None
                }
            },
            PrefixState::DocBody => {
                if c == '\n' {
                    prefix_run(s, i + 1, PrefixState::Lead, uns)
                } else {
                    prefix_run(s, i + 1, PrefixState::DocBody, uns)
                }
            },
            PrefixState::AttrOpen => {
                if spec_is_ws(c) {
                    prefix_run(s, i + 1, PrefixState::AttrOpen, uns)
                } else if c == '[' {
                    prefix_run(s, i + 1, PrefixState::AttrBody(1), uns)
                } else {
                    None
                }
            },
            PrefixState::AttrBody(d) => {
                if c == '[' {
                    prefix_run(s, i + 1, PrefixState::AttrBody((d + 1) as usize), uns)
                } else if c == ']' {
                    if d <= 1 {
                        prefix_run(s, i + 1, PrefixState::Lead, uns)
                    } else {
                        prefix_run(s, i + 1, PrefixState::AttrBody((d - 1) as usize), uns)
                    }
                } else {
                    prefix_run(s, i + 1, PrefixState::AttrBody(d), uns)
                }
            },
            PrefixState::AfterVis => {
                if spec_is_ws(c) {
                    prefix_run(s, i + 1, PrefixState::AfterVis, uns)
                } else if c == '(' {
                    prefix_run(s, i + 1, PrefixState::VisParen(1), uns)
                } else if spec_kw_at(s, i, kw_unsafe()) {
                    prefix_run(s, i + 6, PrefixState::AfterUnsafe, true)
                } else if spec_kw_at(s, i, kw_fn()) {
                    prefix_run(s, i + 2, PrefixState::AfterFn, uns)
                } else {
                    None
                }
            },
            PrefixState::VisParen(d) => {
                if c == '(' {
                    prefix_run(s, i + 1, PrefixState::VisParen((d + 1) as usize), uns)
                } else if c == ')' {
                    if d <= 1 {
                        prefix_run(s, i + 1, PrefixState::AfterVis2, uns)
                    } else {
                        prefix_run(s, i + 1, PrefixState::VisParen((d - 1) as usize), uns)
                    }
                } else {
                    prefix_run(s, i + 1, PrefixState::VisParen(d), uns)
                }
            },
            PrefixState::AfterVis2 => {
                if spec_is_ws(c) {
                    prefix_run(s, i + 1, PrefixState::AfterVis2, uns)
                } else if spec_kw_at(s, i, kw_unsafe()) {
                    prefix_run(s, i + 6, PrefixState::AfterUnsafe, true)
                } else if spec_kw_at(s, i, kw_fn()) {
                    prefix_run(s, i + 2, PrefixState::AfterFn, uns)
                } else {
                    None
                }
            },
            PrefixState::AfterUnsafe => {
                if spec_is_ws(c) {
                    prefix_run(s, i + 1, PrefixState::AfterUnsafe, uns)
                } else if spec_kw_at(s, i, kw_fn()) {
                    prefix_run(s, i + 2, PrefixState::AfterFn, uns)
                } else {
                    None
                }
            },
            PrefixState::AfterFn => {
                if spec_is_ws(c) {
                    prefix_run(s, i + 1, PrefixState::AfterFn, uns)
                } else if spec_is_ident_start(c) {
                    prefix_run(s, i + 1, PrefixState::InName, uns)
                } else {
                    None
                }
            },
            PrefixState::InName => {
                if spec_is_ident_char(c) {
                    prefix_run(s, i + 1, PrefixState::InName, uns)
                } else if spec_is_ws(c) {
                    prefix_run(s, i + 1, PrefixState::TailWs, uns)
                } else {
                    None
                }
            },
            PrefixState::TailWs => {
                if spec_is_ws(c) {
                    prefix_run(s, i + 1, PrefixState::TailWs, uns)
                } else {
                    None
                }
            },
        }
    }
}

/// What a whole prefix template means: `None` when malformed, otherwise
/// whether it declares the function `unsafe`.
pub open spec fn spec_parse_prefix(s: Seq<char>) -> Option<bool> {
    prefix_run(s, 0, PrefixState::Lead, false)
}

/// A whole function definition completed from a signature prefix: the
/// prefix, the raw parameter list, the return type, and the body.
pub open spec fn fn_item_raw_code(
    prefix: Seq<char>,
    args: Seq<char>,
    ty_ret: Seq<char>,
    body: Seq<char>,
) -> Seq<char> {
    prefix + "("@ + args + ") -> "@ + ty_ret + " { "@ + body + " }"@
}

/// A whole function definition with a single typed argument.
pub open spec fn fn_item_code(
    prefix: Seq<char>,
    arg_name: Seq<char>,
    ty_arg: Seq<char>,
    ty_ret: Seq<char>,
    body: Seq<char>,
) -> Seq<char> {
    fn_item_raw_code(prefix, arg_name + ": "@ + ty_arg, ty_ret, body)
}

/// Which closing delimiter matches an opening one.
pub open spec fn closer_of(c: char) -> char {
    if c == '(' {
        ')'
    } else if c == '[' {
        ']'
    } else {
        '}'
    }
}

pub open spec fn spec_is_open(c: char) -> bool {
    c == '(' || c == '[' || c == '{'
}

pub open spec fn spec_is_close(c: char) -> bool {
    c == ')' || c == ']' || c == '}'
}

/// Are the delimiters of `s`, from position `i` on, balanced, given the
/// closers still owed on the stack?
pub open spec fn bal_run(s: Seq<char>, i: int, stack: Seq<char>) -> bool
    decreases s.len() - i,
{
    if i < 0 || i >= s.len() {
        stack.len() == 0
    } else {
        let c = s[i];
        if spec_is_open(c) {
            bal_run(s, i + 1, stack.push(closer_of(c)))
        } else if spec_is_close(c) {
            stack.len() > 0 && stack.last() == c && bal_run(s, i + 1, stack.drop_last())
        } else {
            bal_run(s, i + 1, stack)
        }
    }
}

/// Does `s` hold any non-whitespace character, from position `i` on?
pub open spec fn spec_has_visible(s: Seq<char>, i: int) -> bool
    decreases s.len() - i,
{
    if i < 0 || i >= s.len() {
        false
    } else {
        !spec_is_ws(s[i]) || spec_has_visible(s, i + 1)
    }
}

/// A free-form embedded snippet (an error type, a mapping expression) is
/// accepted when it is visibly non-empty and its delimiters are balanced.
pub open spec fn wf_template(s: Seq<char>) -> bool {
    spec_has_visible(s, 0) && bal_run(s, 0, Seq::empty())
}

/// Check a free-form embedded snippet.
pub fn template_ok(text: &str) -> (r: bool)
    ensures
        r == wf_template(text@),
{
    let s = str_to_chars(text);
    let n = s.len();
    let mut visible = false;
    let mut i: usize = 0;
    while i < n
        invariant
            s@ == text@,
            n == s@.len(),
            i <= n,
            visible ==> spec_has_visible(s@, 0),
            !visible ==> spec_has_visible(s@, 0) == spec_has_visible(s@, i as int),
        decreases n - i,
    {
        if !is_ws(s[i]) {
            visible = true;
            i = n;
        } else {
            i = i + 1;
        }
    }
    if !visible {
        return false;
    }
    let mut stack: Vec<char> = Vec::new();
    let mut i: usize = 0;
    while i < n
        invariant
            s@ == text@,
            n == s@.len(),
            i <= n,
            spec_has_visible(s@, 0),
            bal_run(s@, 0, Seq::empty()) == bal_run(s@, i as int, stack@),
        decreases n - i,
    {
        let c = s[i];
        if c == '(' {
            stack.push(')');
        } else if c == '[' {
            stack.push(']');
        } else if c == '{' {
            stack.push('}');
        } else if c == ')' || c == ']' || c == '}' {
            if stack.len() == 0 {
                return false;
            }
            let top = stack[stack.len() - 1];
            if top != c {
                return false;
            }
            let _ = stack.pop();
        }
        i = i + 1;
    }
    stack.len() == 0
}

/// Does the keyword `kw` stand at position `i` of `s`, as a whole word?
fn kw_at(s: &Vec<char>, i: usize, kw: &Vec<char>) -> (r: bool)
    requires
        i <= s@.len(),
    ensures
        r == spec_kw_at(s@, i as int, kw@),
{
    let k = kw.len();
    let n = s.len();
    if n - i < k {
        proof {
            assert(!spec_kw_at(s@, i as int, kw@));
        }
        return false;
    }
    let mut j: usize = 0;
    while j < k
        invariant
            0 <= j <= k,
            k == kw@.len(),
            n == s@.len(),
            i + k <= n,
            forall|t: int| 0 <= t < j ==> s@[i + t] == kw@[t],
        decreases k - j,
    {
        if s[i + j] != kw[j] {
            proof {
                assert(s@.subrange(i as int, i + k) != kw@) by {
                    assert(s@.subrange(i as int, i + k)[j as int] != kw@[j as int]);
                }
            }
            return false;
        }
        j = j + 1;
    }
    proof {
        assert(s@.subrange(i as int, i + k) =~= kw@);
    }
    if i + k == n {
        true
    } else {
        !is_ident_char(s[i + k])
    }
}

/// Parse a prefix template; `Some(u)` means it is well formed and `u` says
/// whether it declares the generated function `unsafe`.
pub fn parse_prefix(text: &str) -> (r: Option<bool>)
    ensures
        r == spec_parse_prefix(text@),
{
    let s = str_to_chars(text);
    let kpub: Vec<char> = vec!['p', 'u', 'b'];
    let kuns: Vec<char> = vec!['u', 'n', 's', 'a', 'f', 'e'];
    let kfn: Vec<char> = vec!['f', 'n'];
    let n = s.len();
    let mut i: usize = 0;
    let mut st = PrefixState::Lead;
    let mut uns = false;
    loop
        invariant
            s@ == text@,
            kpub@ == kw_pub(),
            kuns@ == kw_unsafe(),
            kfn@ == kw_fn(),
            n == s@.len(),
            i <= n,
            st matches PrefixState::AttrBody(d) ==> d <= i,
            st matches PrefixState::VisParen(d) ==> d <= i,
            spec_parse_prefix(text@) == prefix_run(s@, i as int, st, uns),
        decreases n - i,
    {
        if i >= n {
            return match st {
                PrefixState::InName => Some(uns),
                PrefixState::TailWs => Some(uns),
                _ => None,
            };
        }
        let c = s[i];
        match st {
            PrefixState::Lead => {
                if is_ws(c) {
                    i = i + 1;
                } else if c == '/' {
                    if n - i >= 3 && s[i + 1] == '/' && s[i + 2] == '/' {
                        i = i + 3;
                        st = PrefixState::DocBody;
                    } else {
                        return None;
                    }
                } else if c == '#' {
                    i = i + 1;
                    st = PrefixState::AttrOpen;
                } else if kw_at(&s, i, &kpub) {
                    i = i + 3;
                    st = PrefixState::AfterVis;
                } else if kw_at(&s, i, &kuns) {
                    i = i + 6;
                    st = PrefixState::AfterUnsafe;
                    uns = true;
                } else if kw_at(&s, i, &kfn) {
                    i = i + 2;
                    st = PrefixState::AfterFn;
                } else {
                    return None;
                }
            },
            PrefixState::DocBody => {
                if c == '\n' {
                    st = PrefixState::Lead;
                }
                i = i + 1;
            },
            PrefixState::AttrOpen => {
                if is_ws(c) {
                    i = i + 1;
                } else if c == '[' {
                    i = i + 1;
                    st = PrefixState::AttrBody(1);
                } else {
                    return None;
                }
            },
            PrefixState::AttrBody(d) => {
                if c == '[' {
                    i = i + 1;
                    st = PrefixState::AttrBody(d + 1);
                } else if c == ']' {
                    if d <= 1 {
                        st = PrefixState::Lead;
                    } else {
                        st = PrefixState::AttrBody(d - 1);
                    }
                    i = i + 1;
                } else {
                    i = i + 1;
                }
            },
            PrefixState::AfterVis => {
                if is_ws(c) {
                    i = i + 1;
                } else if c == '(' {
                    i = i + 1;
                    st = PrefixState::VisParen(1);
                } else if kw_at(&s, i, &kuns) {
                    i = i + 6;
                    st = PrefixState::AfterUnsafe;
                    uns = true;
                } else if kw_at(&s, i, &kfn) {
                    i = i + 2;
                    st = PrefixState::AfterFn;
                } else {
                    return None;
                }
            },
            PrefixState::VisParen(d) => {
                if c == '(' {
                    i = i + 1;
                    st = PrefixState::VisParen(d + 1);
                } else if c == ')' {
                    if d <= 1 {
                        st = PrefixState::AfterVis2;
                    } else {
                        st = PrefixState::VisParen(d - 1);
                    }
                    i = i + 1;
                } else {
                    i = i + 1;
                }
            },
            PrefixState::AfterVis2 => {
                if is_ws(c) {
                    i = i + 1;
                } else if kw_at(&s, i, &kuns) {
                    i = i + 6;
                    st = PrefixState::AfterUnsafe;
                    uns = true;
                } else if kw_at(&s, i, &kfn) {
                    i = i + 2;
                    st = PrefixState::AfterFn;
                } else {
                    return None;
                }
            },
            PrefixState::AfterUnsafe => {
                if is_ws(c) {
                    i = i + 1;
                } else if kw_at(&s, i, &kfn) {
                    i = i + 2;
                    st = PrefixState::AfterFn;
                } else {
                    return None;
                }
            },
            PrefixState::AfterFn => {
                if is_ws(c) {
                    i = i + 1;
                } else if is_ident_start(c) {
                    i = i + 1;
                    st = PrefixState::InName;
                } else {
                    return None;
                }
            },
            PrefixState::InName => {
                if is_ident_char(c) {
                    i = i + 1;
                } else if is_ws(c) {
                    i = i + 1;
                    st = PrefixState::TailWs;
                } else {
                    return None;
                }
            },
            PrefixState::TailWs => {
                if is_ws(c) {
                    i = i + 1;
                } else {
                    return None;
                }
            },
        }
    }
}

} // verus!
