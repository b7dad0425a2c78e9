//! Text templates with named placeholders, in the syntax of Rust's format
//! strings restricted to named arguments: `{name}` is replaced by the value
//! bound to `name`, `{{` stands for `{` and `}}` for `}`.

use vstd::prelude::*;
use crate::text::{chars_of, push_str, string_from_chars};

verus! {

/// A value that the placeholder `{name}` of a template stands for.
pub struct Binding {
    pub name: String,
    pub value: String,
}

/// Why a template could not be rendered; each variant carries the position
/// (counted in characters) of the brace at fault.
#[derive(Debug, Clone, Copy, PartialEq, Eq, Structural)]
pub enum TemplateError {
    /// A `{` that opens a placeholder no `}` closes.
    UnclosedPlaceholder(usize),
    /// A `}` that is neither doubled nor the end of a placeholder.
    UnmatchedBrace(usize),
    /// A placeholder whose name no binding has.
    UnknownName(usize),
    /// A binding (this is its index) that no placeholder uses, or that an
    /// earlier binding of the same name hides.
    UnusedBinding(usize),
}

/// The bindings as (name, value) pairs of character sequences.
pub open spec fn bindings_view(b: Seq<Binding>) -> Seq<(Seq<char>, Seq<char>)> {
    b.map_values(|x: Binding| (x.name@, x.value@))
}

/// The value of the first binding at or after `k` named `name`.
pub open spec fn lookup_from(b: Seq<(Seq<char>, Seq<char>)>, name: Seq<char>, k: int) -> Option<
    Seq<char>,
>
    decreases b.len() - k,
{
    if k < 0 || k >= b.len() {
        None
    } else if b[k].0 == name {
        Some(b[k].1)
    } else {
        lookup_from(b, name, k + 1)
    }
}

/// The value of the first binding named `name`, if any.
pub open spec fn lookup(b: Seq<(Seq<char>, Seq<char>)>, name: Seq<char>) -> Option<Seq<char>> {
    lookup_from(b, name, 0)
}

/// The position of the first `}` at or after `j`, or the length of `t` if
/// there is none.
pub open spec fn close_from(t: Seq<char>, j: int) -> int
    decreases t.len() - j,
{
    if j >= t.len() {
        t.len() as int
    } else if t[j] == '}' {
        j
    } else {
        close_from(t, j + 1)
    }
}

/// `r` with `p` put in front of its text, or the same error.
pub open spec fn prepend(p: Seq<char>, r: Result<Seq<char>, TemplateError>) -> Result<
    Seq<char>,
    TemplateError,
> {
    match r {
        Ok(s) => Ok(p + s),
        Err(e) => Err(e),
    }
}

pub proof fn lemma_close_from_bounds(t: Seq<char>, j: int)
    ensures
        j <= t.len() ==> j <= close_from(t, j) <= t.len(),
        close_from(t, j) < t.len() ==> t[close_from(t, j)] == '}',
        forall|k: int| j <= k < close_from(t, j) ==> t[k] != '}',
    decreases t.len() - j,
{
    if j < t.len() && t[j] != '}' {
        lemma_close_from_bounds(t, j + 1);
    }
}

/// The rendering of `t` from position `i` on.
pub open spec fn render_from(t: Seq<char>, b: Seq<(Seq<char>, Seq<char>)>, i: int) -> Result<
    Seq<char>,
    TemplateError,
>
    decreases t.len() - i,
{
    if i < 0 || i >= t.len() {
        Ok(Seq::empty())
    } else if t[i] == '{' {
        if i + 1 < t.len() && t[i + 1] == '{' {
            prepend(seq!['{'], render_from(t, b, i + 2))
        } else {
            let j = close_from(t, i + 1);
            proof {
                lemma_close_from_bounds(t, i + 1);
            }
            if j >= t.len() {
                Err(TemplateError::UnclosedPlaceholder(i as usize))
            } else {
                match lookup(b, t.subrange(i + 1, j)) {
                    None => Err(TemplateError::UnknownName(i as usize)),
                    Some(v) => prepend(v, render_from(t, b, j + 1)),
                }
            }
        }
    } else if t[i] == '}' {
        if i + 1 < t.len() && t[i + 1] == '}' {
            prepend(seq!['}'], render_from(t, b, i + 2))
        } else {
            Err(TemplateError::UnmatchedBrace(i as usize))
        }
    } else {
        prepend(seq![t[i]], render_from(t, b, i + 1))
    }
}

/// The rendering of template `t` with bindings `b`.
pub open spec fn render(t: Seq<char>, b: Seq<(Seq<char>, Seq<char>)>) -> Result<
    Seq<char>,
    TemplateError,
> {
    render_from(t, b, 0)
}

/// The text of a rendering result, as characters.
pub open spec fn rendered(r: Result<String, TemplateError>) -> Result<Seq<char>, TemplateError> {
    match r {
        Ok(s) => Ok(s@),
        Err(e) => Err(e),
    }
}

proof fn lemma_prepend_prepend(a: Seq<char>, c: Seq<char>, r: Result<Seq<char>, TemplateError>)
    ensures
        prepend(a, prepend(c, r)) == prepend(a + c, r),
{
    match r {
        Ok(s) => {
            assert(a + (c + s) =~= (a + c) + s);
        },
        Err(e) => {},
    }
}

proof fn lemma_prepend_empty(r: Result<Seq<char>, TemplateError>)
    ensures
        prepend(Seq::empty(), r) == r,
{
    match r {
        Ok(s) => {
            assert(Seq::<char>::empty() + s =~= s);
        },
        Err(e) => {},
    }
}

/// Looking for `}` past the end of `a` inside `a + c` is looking inside `c`.
proof fn lemma_close_from_shift(a: Seq<char>, c: Seq<char>, k: int)
    requires
        0 <= k,
    ensures
        close_from(a + c, a.len() + k) == a.len() + close_from(c, k),
    decreases c.len() - k,
{
    if k < c.len() && c[k] != '}' {
        lemma_close_from_shift(a, c, k + 1);
    }
}

/// A `}` found inside `a` is found at the same place inside `a + c`.
proof fn lemma_close_from_prefix(a: Seq<char>, c: Seq<char>, j: int)
    requires
        0 <= j,
        close_from(a, j) < a.len(),
    ensures
        close_from(a + c, j) == close_from(a, j),
    decreases a.len() - j,
{
    if j < a.len() && a[j] != '}' {
        lemma_close_from_prefix(a, c, j + 1);
    }
}

/// Rendering `a + c` past the end of `a` succeeds exactly when rendering `c`
/// does, with the same text.
proof fn lemma_render_from_shift(a: Seq<char>, c: Seq<char>, b: Seq<(Seq<char>, Seq<char>)>, k: int)
    requires
        0 <= k,
    ensures
        render_from(c, b, k) matches Ok(y) ==> render_from(a + c, b, a.len() + k) == Ok::<Seq<char>, TemplateError>(y),
        render_from(c, b, k) is Err ==> render_from(a + c, b, a.len() + k) is Err,
    decreases c.len() - k,
{
    let t = a + c;
    let n = a.len() as int;
    if k >= c.len() {
    } else {
        assert(t[n + k] == c[k]);
        if c[k] == '{' {
            if k + 1 < c.len() && c[k + 1] == '{' {
                assert(t[n + k + 1] == c[k + 1]);
                lemma_render_from_shift(a, c, b, k + 2);
            } else {
                if k + 1 < c.len() {
                    assert(t[n + k + 1] == c[k + 1]);
                }
                lemma_close_from_shift(a, c, k + 1);
                lemma_close_from_bounds(c, k + 1);
                let j = close_from(c, k + 1);
                if j < c.len() {
                    assert(t.subrange(n + k + 1, n + j) =~= c.subrange(k + 1, j));
                    lemma_render_from_shift(a, c, b, j + 1);
                }
            }
        } else if c[k] == '}' {
            if k + 1 < c.len() {
                assert(t[n + k + 1] == c[k + 1]);
            }
            if k + 1 < c.len() && c[k + 1] == '}' {
                lemma_render_from_shift(a, c, b, k + 2);
            }
        } else {
            lemma_render_from_shift(a, c, b, k + 1);
        }
    }
}

/// Rendering `a + c` up to the end of `a` gives what rendering `a` gives,
/// when that succeeds.
proof fn lemma_render_from_prefix(
    a: Seq<char>,
    c: Seq<char>,
    b: Seq<(Seq<char>, Seq<char>)>,
    i: int,
    x: Seq<char>,
)
    requires
        0 <= i <= a.len(),
        render_from(a, b, i) == Ok::<Seq<char>, TemplateError>(x),
    ensures
        render_from(a + c, b, i) == prepend(x, render_from(a + c, b, a.len() as int)),
    decreases a.len() - i,
{
    let t = a + c;
    let n = a.len() as int;
    if i == n {
        assert(x =~= Seq::<char>::empty());
        lemma_prepend_empty(render_from(t, b, n));
    } else {
        assert(t[i] == a[i]);
        if i + 1 < n {
            assert(t[i + 1] == a[i + 1]);
        }
        if a[i] == '{' {
            if i + 1 < n && a[i + 1] == '{' {
                let x1 = render_from(a, b, i + 2)->Ok_0;
                lemma_render_from_prefix(a, c, b, i + 2, x1);
                lemma_prepend_prepend(seq!['{'], x1, render_from(t, b, n));
            } else {
                lemma_close_from_bounds(a, i + 1);
                let j = close_from(a, i + 1);
                lemma_close_from_prefix(a, c, i + 1);
                assert(t.subrange(i + 1, j) =~= a.subrange(i + 1, j));
                let v = lookup(b, a.subrange(i + 1, j))->Some_0;
                let x1 = render_from(a, b, j + 1)->Ok_0;
                lemma_render_from_prefix(a, c, b, j + 1, x1);
                lemma_prepend_prepend(v, x1, render_from(t, b, n));
            }
        } else if a[i] == '}' {
            let x1 = render_from(a, b, i + 2)->Ok_0;
            lemma_render_from_prefix(a, c, b, i + 2, x1);
            lemma_prepend_prepend(seq!['}'], x1, render_from(t, b, n));
        } else {
            let x1 = render_from(a, b, i + 1)->Ok_0;
            lemma_render_from_prefix(a, c, b, i + 1, x1);
            lemma_prepend_prepend(seq![a[i]], x1, render_from(t, b, n));
        }
    }
}

/// Templates compose: when `a` renders to `x`, then `a + c` renders to `x`
/// followed by the rendering of `c`, and fails when `c` fails.
pub proof fn lemma_render_concat(
    a: Seq<char>,
    c: Seq<char>,
    b: Seq<(Seq<char>, Seq<char>)>,
    x: Seq<char>,
)
    requires
        render(a, b) == Ok::<Seq<char>, TemplateError>(x),
    ensures
        render(c, b) matches Ok(y) ==> render(a + c, b) == Ok::<Seq<char>, TemplateError>(x + y),
        render(c, b) is Err ==> render(a + c, b) is Err,
{
    lemma_render_from_prefix(a, c, b, 0, x);
    lemma_render_from_shift(a, c, b, 0);
}

/// Text without braces renders to itself.
pub proof fn lemma_render_plain(t: Seq<char>, b: Seq<(Seq<char>, Seq<char>)>)
    requires
        forall|k: int| 0 <= k < t.len() ==> #[trigger] t[k] != '{' && t[k] != '}',
    ensures
        render(t, b) == Ok::<Seq<char>, TemplateError>(t),
{
    lemma_render_plain_from(t, b, 0);
    assert(t.skip(0) =~= t);
}

proof fn lemma_render_plain_from(t: Seq<char>, b: Seq<(Seq<char>, Seq<char>)>, i: int)
    requires
        0 <= i <= t.len(),
        forall|k: int| 0 <= k < t.len() ==> #[trigger] t[k] != '{' && t[k] != '}',
    ensures
        render_from(t, b, i) == Ok::<Seq<char>, TemplateError>(t.skip(i)),
    decreases t.len() - i,
{
    if i < t.len() {
        lemma_render_plain_from(t, b, i + 1);
        assert(seq![t[i]] + t.skip(i + 1) =~= t.skip(i));
    } else {
        assert(t.skip(i) =~= Seq::<char>::empty());
    }
}

/// A lone placeholder renders to the value bound to its name.
pub proof fn lemma_render_placeholder(
    name: Seq<char>,
    b: Seq<(Seq<char>, Seq<char>)>,
    v: Seq<char>,
)
    requires
        lookup(b, name) == Some(v),
        forall|k: int| 0 <= k < name.len() ==> #[trigger] name[k] != '}',
        name.len() > 0 ==> name[0] != '{',
    ensures
        render(seq!['{'] + name + seq!['}'], b) == Ok::<Seq<char>, TemplateError>(v),
{
    let t = seq!['{'] + name + seq!['}'];
    let n = name.len() as int;
    assert(t[0] == '{');
    assert(forall|k: int| 1 <= k <= n ==> t[k] == name[k - 1]);
    assert(t[n + 1] == '}');
    lemma_close_from_bounds(t, 1);
    assert(close_from(t, 1) == n + 1) by {
        lemma_close_from_exact(t, 1, n + 1);
    }
    assert(t.subrange(1, n + 1) =~= name);
    assert(t[1] != '{');
    assert(render_from(t, b, n + 2) == Ok::<Seq<char>, TemplateError>(Seq::<char>::empty()));
    assert(v + Seq::<char>::empty() =~= v);
}

proof fn lemma_close_from_exact(t: Seq<char>, j: int, e: int)
    requires
        0 <= j <= e < t.len(),
        t[e] == '}',
        forall|k: int| j <= k < e ==> t[k] != '}',
    ensures
        close_from(t, j) == e,
    decreases e - j,
{
    if j < e {
        lemma_close_from_exact(t, j + 1, e);
    }
}

/// `s` with every brace doubled: the template whose rendering is `s` itself.
pub open spec fn escape(s: Seq<char>) -> Seq<char>
    decreases s.len(),
{
    if s.len() == 0 {
        Seq::empty()
    } else if s[0] == '{' || s[0] == '}' {
        seq![s[0], s[0]] + escape(s.drop_first())
    } else {
        seq![s[0]] + escape(s.drop_first())
    }
}

/// Any text survives a template when its braces are doubled, whatever the
/// bindings.
pub proof fn lemma_render_escape(s: Seq<char>, b: Seq<(Seq<char>, Seq<char>)>)
    ensures
        render(escape(s), b) == Ok::<Seq<char>, TemplateError>(s),
    decreases s.len(),
{
    if s.len() == 0 {
        assert(render(escape(s), b) == Ok::<Seq<char>, TemplateError>(Seq::<char>::empty()));
        assert(s =~= Seq::<char>::empty());
    } else {
        let rest = s.drop_first();
        lemma_render_escape(rest, b);
        let head = if s[0] == '{' || s[0] == '}' { seq![s[0], s[0]] } else { seq![s[0]] };
        assert(render(head, b) == Ok::<Seq<char>, TemplateError>(seq![s[0]])) by {
            if s[0] == '{' || s[0] == '}' {
                assert(render_from(head, b, 2) == Ok::<Seq<char>, TemplateError>(Seq::<char>::empty()));
                assert(seq![s[0]] + Seq::<char>::empty() =~= seq![s[0]]);
            } else {
                lemma_render_plain(head, b);
            }
        }
        lemma_render_concat(head, escape(rest), b, seq![s[0]]);
        assert(seq![s[0]] + rest =~= s);
    }
}

/// The names of the placeholders of `t` from position `i` on, in order, up
/// to the first brace at fault.
pub open spec fn placeholders_from(t: Seq<char>, i: int) -> Seq<Seq<char>>
    decreases t.len() - i,
{
    if i < 0 || i >= t.len() {
        Seq::empty()
    } else if t[i] == '{' {
        if i + 1 < t.len() && t[i + 1] == '{' {
            placeholders_from(t, i + 2)
        } else {
            let j = close_from(t, i + 1);
            proof {
                lemma_close_from_bounds(t, i + 1);
            }
            if j >= t.len() {
                Seq::empty()
            } else {
                seq![t.subrange(i + 1, j)] + placeholders_from(t, j + 1)
            }
        }
    } else if t[i] == '}' {
        if i + 1 < t.len() && t[i + 1] == '}' {
            placeholders_from(t, i + 2)
        } else {
            Seq::empty()
        }
    } else {
        placeholders_from(t, i + 1)
    }
}

/// The names of the placeholders of `t`, in order.
pub open spec fn placeholders(t: Seq<char>) -> Seq<Seq<char>> {
    placeholders_from(t, 0)
}

/// Whether binding `k` is one that `t` uses: a placeholder has its name and
/// no earlier binding has the same name.
pub open spec fn binding_used(t: Seq<char>, b: Seq<(Seq<char>, Seq<char>)>, k: int) -> bool {
    &&& placeholders(t).contains(b[k].0)
    &&& forall|j: int| 0 <= j < k ==> #[trigger] b[j].0 != b[k].0
}

/// The first binding at or after `k` that `t` does not use, if any.
pub open spec fn first_unused_from(t: Seq<char>, b: Seq<(Seq<char>, Seq<char>)>, k: int) -> Option<
    int,
>
    decreases b.len() - k,
{
    if k < 0 || k >= b.len() {
        None
    } else if !binding_used(t, b, k) {
        Some(k)
    } else {
        first_unused_from(t, b, k + 1)
    }
}

/// What `render_template` gives: the rendering of `t`, refused when some
/// binding is left unused, as a format string refuses an unused argument.
pub open spec fn render_all(t: Seq<char>, b: Seq<(Seq<char>, Seq<char>)>) -> Result<
    Seq<char>,
    TemplateError,
> {
    match render(t, b) {
        Err(e) => Err(e),
        Ok(s) => match first_unused_from(t, b, 0) {
            Some(k) => Err(TemplateError::UnusedBinding(k as usize)),
            None => Ok(s),
        },
    }
}

/// Whether `v` occurs in `s` as a contiguous piece.
pub open spec fn contains_text(s: Seq<char>, v: Seq<char>) -> bool {
    exists|p: int| 0 <= p && p + v.len() <= s.len() && #[trigger] s.subrange(p, p + v.len()) == v
}

proof fn lemma_contains_shift(a: Seq<char>, s: Seq<char>, v: Seq<char>)
    requires
        contains_text(s, v),
    ensures
        contains_text(a + s, v),
{
    let p = choose|p: int| 0 <= p && p + v.len() <= s.len() && #[trigger] s.subrange(p, p + v.len()) == v;
    let q = a.len() + p;
    assert((a + s).subrange(q, q + v.len()) =~= s.subrange(p, p + v.len()));
}

proof fn lemma_contains_front(v: Seq<char>, s: Seq<char>)
    ensures
        contains_text(v + s, v),
{
    let p = 0int;
    assert((v + s).subrange(p, p + v.len()) =~= v);
}

proof fn lemma_lookup_first(b: Seq<(Seq<char>, Seq<char>)>, k: int, m: int)
    requires
        0 <= m <= k < b.len(),
        forall|j: int| 0 <= j < k ==> #[trigger] b[j].0 != b[k].0,
    ensures
        lookup_from(b, b[k].0, m) == Some(b[k].1),
    decreases k - m,
{
    if m < k {
        assert(b[m].0 != b[k].0);
        lemma_lookup_first(b, k, m + 1);
    }
}

/// Each placeholder met while rendering succeeds has a binding, and its
/// value occurs in what is rendered.
proof fn lemma_placeholder_value_in_render(
    t: Seq<char>,
    b: Seq<(Seq<char>, Seq<char>)>,
    i: int,
    x: Seq<char>,
    name: Seq<char>,
)
    requires
        0 <= i,
        render_from(t, b, i) == Ok::<Seq<char>, TemplateError>(x),
        placeholders_from(t, i).contains(name),
    ensures
        lookup(b, name) is Some,
        contains_text(x, lookup(b, name)->Some_0),
    decreases t.len() - i,
{
    if i >= t.len() {
    } else if t[i] == '{' {
        if i + 1 < t.len() && t[i + 1] == '{' {
            let x1 = render_from(t, b, i + 2)->Ok_0;
            lemma_placeholder_value_in_render(t, b, i + 2, x1, name);
            lemma_contains_shift(seq!['{'], x1, lookup(b, name)->Some_0);
        } else {
            lemma_close_from_bounds(t, i + 1);
            let j = close_from(t, i + 1);
            let n = t.subrange(i + 1, j);
            let v = lookup(b, n)->Some_0;
            let x1 = render_from(t, b, j + 1)->Ok_0;
            assert(x == v + x1);
            if name == n {
                lemma_contains_front(v, x1);
            } else {
                let ph = placeholders_from(t, j + 1);
                assert(placeholders_from(t, i) == seq![n] + ph);
                let k = choose|k: int| 0 <= k < seq![n].add(ph).len() && seq![n].add(ph)[k] == name;
                assert(ph[k - 1] == name);
                assert(ph.contains(name));
                lemma_placeholder_value_in_render(t, b, j + 1, x1, name);
                lemma_contains_shift(v, x1, lookup(b, name)->Some_0);
            }
        }
    } else if t[i] == '}' {
        let x1 = render_from(t, b, i + 2)->Ok_0;
        lemma_placeholder_value_in_render(t, b, i + 2, x1, name);
        lemma_contains_shift(seq!['}'], x1, lookup(b, name)->Some_0);
    } else {
        let x1 = render_from(t, b, i + 1)->Ok_0;
        lemma_placeholder_value_in_render(t, b, i + 1, x1, name);
        lemma_contains_shift(seq![t[i]], x1, lookup(b, name)->Some_0);
    }
}

/// A template that renders uses every binding: the value of each binding
/// occurs in the text, and no two bindings share a name.
pub proof fn lemma_render_all_uses_every_value(
    t: Seq<char>,
    b: Seq<(Seq<char>, Seq<char>)>,
    s: Seq<char>,
)
    requires
        render_all(t, b) == Ok::<Seq<char>, TemplateError>(s),
    ensures
        render(t, b) == Ok::<Seq<char>, TemplateError>(s),
        forall|k: int| 0 <= k < b.len() ==> contains_text(s, #[trigger] b[k].1),
        forall|j: int, k: int| 0 <= j < k < b.len() ==> b[j].0 != b[k].0,
{
    assert forall|k: int| 0 <= k < b.len() implies contains_text(s, #[trigger] b[k].1) by {
        lemma_first_unused_none(t, b, 0, k);
        lemma_lookup_first(b, k, 0);
        lemma_placeholder_value_in_render(t, b, 0, s, b[k].0);
    }
    assert forall|j: int, k: int| 0 <= j < k < b.len() implies b[j].0 != b[k].0 by {
        lemma_first_unused_none(t, b, 0, k);
    }
}

/// A template that renders, and has a placeholder for each binding's name
/// with no name bound twice, renders the same way when every binding must
/// be used, whatever the values are (empty ones included).
pub proof fn lemma_render_all_accepts_used_bindings(
    t: Seq<char>,
    b: Seq<(Seq<char>, Seq<char>)>,
    s: Seq<char>,
)
    requires
        render(t, b) == Ok::<Seq<char>, TemplateError>(s),
        forall|k: int| 0 <= k < b.len() ==> placeholders(t).contains(#[trigger] b[k].0),
        forall|j: int, k: int| 0 <= j < k < b.len() ==> b[j].0 != b[k].0,
    ensures
        render_all(t, b) == Ok::<Seq<char>, TemplateError>(s),
{
    lemma_first_unused_all_used(t, b, 0);
}

proof fn lemma_first_unused_all_used(t: Seq<char>, b: Seq<(Seq<char>, Seq<char>)>, m: int)
    requires
        0 <= m,
        forall|k: int| 0 <= k < b.len() ==> placeholders(t).contains(#[trigger] b[k].0),
        forall|j: int, k: int| 0 <= j < k < b.len() ==> b[j].0 != b[k].0,
    ensures
        first_unused_from(t, b, m) is None,
    decreases b.len() - m,
{
    if m < b.len() {
        assert(placeholders(t).contains(b[m].0));
        assert(binding_used(t, b, m));
        lemma_first_unused_all_used(t, b, m + 1);
    }
}

proof fn lemma_first_unused_none(t: Seq<char>, b: Seq<(Seq<char>, Seq<char>)>, m: int, k: int)
    requires
        0 <= m <= k < b.len(),
        first_unused_from(t, b, m) is None,
    ensures
        binding_used(t, b, k),
    decreases k - m,
{
    if m < k {
        lemma_first_unused_none(t, b, m + 1, k);
    }
}

/// The position of the first `}` in `t` at or after `from`, or `t.len()`.
fn find_close(t: &Vec<char>, from: usize) -> (r: usize)
    requires
        from <= t.len(),
    ensures
        r == close_from(t@, from as int),
{
    let mut k = from;
    while k < t.len() && t[k] != '}'
        invariant
            from <= k <= t.len(),
            close_from(t@, from as int) == close_from(t@, k as int),
        decreases t.len() - k,
    {
        k += 1;
    }
    k
}

/// The characters of `t` from `from` up to (not including) `to`.
fn sub_chars(t: &Vec<char>, from: usize, to: usize) -> (r: Vec<char>)
    requires
        from <= to <= t.len(),
    ensures
        r@ == t@.subrange(from as int, to as int),
{
    let mut r: Vec<char> = Vec::new();
    let mut k = from;
    while k < to
        invariant
            from <= k <= to <= t.len(),
            r@ == t@.subrange(from as int, k as int),
        decreases to - k,
    {
        r.push(t[k]);
        k += 1;
        assert(r@ =~= t@.subrange(from as int, k as int));
    }
    r
}

/// The index of the first binding named `name`, if any.
fn find_binding(bindings: &[Binding], name: &String) -> (r: Option<usize>)
    ensures
        match r {
            Some(k) => k < bindings@.len() && lookup(bindings_view(bindings@), name@) == Some(
                bindings@[k as int].value@,
            ),
            None => lookup(bindings_view(bindings@), name@) is None,
        },
{
    let ghost bv = bindings_view(bindings@);
    let mut k: usize = 0;
    while k < bindings.len()
        invariant
            k <= bindings@.len(),
            bv == bindings_view(bindings@),
            lookup(bv, name@) == lookup_from(bv, name@, k as int),
        decreases bindings.len() - k,
    {
        if bindings[k].name == *name {
            return Some(k);
        }
        k += 1;
    }
    None
}

/// The strings as character sequences.
pub open spec fn strings_view(v: Seq<String>) -> Seq<Seq<char>> {
    v.map_values(|x: String| x@)
}

/// Whether `name` is among `names`.
fn contains_name(names: &Vec<String>, name: &String) -> (r: bool)
    ensures
        r == strings_view(names@).contains(name@),
{
    let mut k: usize = 0;
    while k < names.len()
        invariant
            k <= names@.len(),
            forall|j: int| 0 <= j < k ==> names@[j]@ != name@,
        decreases names.len() - k,
    {
        if names[k] == *name {
            assert(strings_view(names@)[k as int] == name@);
            return true;
        }
        k += 1;
    }
    assert forall|j: int| 0 <= j < strings_view(names@).len() implies strings_view(names@)[j]
        != name@ by {
        assert(names@[j]@ != name@);
    }
    false
}

/// Whether binding `k` is used by a template whose placeholders are `names`.
fn used(bindings: &[Binding], names: &Vec<String>, k: usize) -> (r: bool)
    requires
        k < bindings@.len(),
    ensures
        r == (strings_view(names@).contains(bindings@[k as int].name@) && forall|j: int|
            0 <= j < k ==> #[trigger] bindings@[j].name@ != bindings@[k as int].name@),
{
    if !contains_name(names, &bindings[k].name) {
        return false;
    }
    let mut j: usize = 0;
    while j < k
        invariant
            j <= k < bindings@.len(),
            forall|m: int| 0 <= m < j ==> #[trigger] bindings@[m].name@ != bindings@[k as int].name@,
        decreases k - j,
    {
        if bindings[j].name == bindings[k].name {
            return false;
        }
        j += 1;
    }
    true
}

/// Renders `template`: every `{name}` becomes the value of the binding
/// called `name`, `{{` becomes `{` and `}}` becomes `}`; all other text is
/// kept as it is. Fails on the first brace that fits none of these forms,
/// and, when the text renders, on the first binding that no placeholder
/// uses (or that an earlier binding of the same name hides).
pub fn render_template(template: &str, bindings: &[Binding]) -> (r: Result<String, TemplateError>)
    ensures
        rendered(r) == render_all(template@, bindings_view(bindings@)),
{
    let ghost bv = bindings_view(bindings@);
    let t = chars_of(template);
    let mut out: Vec<char> = Vec::new();
    let mut names: Vec<String> = Vec::new();
    let mut i: usize = 0;
    assert(out@ + Seq::<char>::empty() =~= Seq::<char>::empty());
    assert(strings_view(names@) + placeholders(t@) =~= placeholders(t@));
    while i < t.len()
        invariant
            t@ == template@,
            i <= t.len(),
            bv == bindings_view(bindings@),
            render(t@, bv) == prepend(out@, render_from(t@, bv, i as int)),
            placeholders(t@) == strings_view(names@) + placeholders_from(t@, i as int),
        decreases t.len() - i,
    {
        let ghost before = out@;
        let ghost names_before = strings_view(names@);
        let c = t[i];
        if c == '{' {
            if i + 1 < t.len() && t[i + 1] == '{' {
                out.push('{');
                proof {
                    lemma_prepend_prepend(before, seq!['{'], render_from(t@, bv, i + 2));
                    assert(before + seq!['{'] =~= out@);
                }
                i = i + 2;
            } else {
                let j = find_close(&t, i + 1);
                proof {
                    lemma_close_from_bounds(t@, i + 1);
                }
                if j == t.len() {
                    return Err(TemplateError::UnclosedPlaceholder(i));
                }
                let name_chars = sub_chars(&t, i + 1, j);
                let name = string_from_chars(name_chars.as_slice());
                match find_binding(bindings, &name) {
                    None => {
                        return Err(TemplateError::UnknownName(i));
                    },
                    Some(k) => {
                        push_str(&mut out, bindings[k].value.as_str());
                        proof {
                            lemma_prepend_prepend(
                                before,
                                bindings@[k as int].value@,
                                render_from(t@, bv, j + 1),
                            );
                        }
                        names.push(name);
                        proof {
                            assert(strings_view(names@) =~= names_before.push(name_chars@));
                            assert(names_before.push(name_chars@) + placeholders_from(t@, j + 1)
                                =~= names_before + (seq![name_chars@] + placeholders_from(
                                t@,
                                j + 1,
                            )));
                        }
                        i = j + 1;
                    },
                }
            }
        } else if c == '}' {
            if i + 1 < t.len() && t[i + 1] == '}' {
                out.push('}');
                proof {
                    lemma_prepend_prepend(before, seq!['}'], render_from(t@, bv, i + 2));
                    assert(before + seq!['}'] =~= out@);
                }
                i = i + 2;
            } else {
                return Err(TemplateError::UnmatchedBrace(i));
            }
        } else {
            out.push(c);
            proof {
                lemma_prepend_prepend(before, seq![c], render_from(t@, bv, i + 1));
                assert(before + seq![c] =~= out@);
            }
            i = i + 1;
        }
    }
    assert(out@ + Seq::<char>::empty() =~= out@);
    assert(strings_view(names@) + placeholders_from(t@, i as int) =~= strings_view(names@));
    assert(render(t@, bv) == Ok::<Seq<char>, TemplateError>(out@));
    assert forall|j: int| 0 <= j < bindings@.len() implies #[trigger] bv[j].0 == bindings@[j].name@ by {
    }
    let mut k: usize = 0;
    while k < bindings.len()
        invariant
            k <= bindings@.len(),
            t@ == template@,
            bv == bindings_view(bindings@),
            bv.len() == bindings@.len(),
            forall|j: int| 0 <= j < bindings@.len() ==> #[trigger] bv[j].0 == bindings@[j].name@,
            render(t@, bv) == Ok::<Seq<char>, TemplateError>(out@),
            placeholders(t@) == strings_view(names@),
            first_unused_from(t@, bv, 0) == first_unused_from(t@, bv, k as int),
        decreases bindings.len() - k,
    {
        let u = used(bindings, &names, k);
        assert(u == binding_used(t@, bv, k as int)) by {
            assert(bv[k as int].0 == bindings@[k as int].name@);
            if u {
                assert forall|j: int| 0 <= j < k implies #[trigger] bv[j].0 != bv[k as int].0 by {
                    assert(bindings@[j].name@ != bindings@[k as int].name@);
                }
            } else if strings_view(names@).contains(bindings@[k as int].name@) {
                let j = choose|j: int|
                    0 <= j < k && #[trigger] bindings@[j].name@ == bindings@[k as int].name@;
                assert(bv[j].0 == bv[k as int].0);
            }
        }
        if !u {
            assert(first_unused_from(t@, bv, k as int) == Some(k as int));
            return Err(TemplateError::UnusedBinding(k));
        }
        k += 1;
    }
    assert(first_unused_from(t@, bv, k as int) is None);
    Ok(string_from_chars(out.as_slice()))
}

} // verus!
