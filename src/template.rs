use vstd::prelude::*;
use crate::error::RllmError;
use crate::results::{ChainResult, lookup};

verus! {

/// `{{` starts at position `i` of `t`.
pub open spec fn opens_at(t: Seq<char>, i: int) -> bool {
    0 <= i && i + 1 < t.len() && t[i] == '{' && t[i + 1] == '{'
}

/// `}}` starts at position `j` of `t`.
pub open spec fn closes_at(t: Seq<char>, j: int) -> bool {
    0 <= j && j + 1 < t.len() && t[j] == '}' && t[j + 1] == '}'
}

/// The first position at or after `k` where `}}` starts.
pub open spec fn close_from(t: Seq<char>, k: int) -> Option<int>
    decreases t.len() - k,
{
    if k < 0 || k + 1 >= t.len() {
        None
    } else if closes_at(t, k) {
        Some(k)
    } else {
        close_from(t, k + 1)
    }
}

/// Whatever `close_from` finds is a `}}` at or after `k`, and it is the first one.
pub proof fn lemma_close_from(t: Seq<char>, k: int)
    requires
        0 <= k,
    ensures
        match close_from(t, k) {
            Some(j) => k <= j && closes_at(t, j) && forall|m: int| k <= m < j ==> !closes_at(t, m),
            None => forall|m: int| k <= m ==> !closes_at(t, m),
        },
    decreases t.len() - k,
{
    if k + 1 < t.len() && !closes_at(t, k) {
        lemma_close_from(t, k + 1);
        assert forall|m: int| k <= m && closes_at(t, m) implies k + 1 <= m by {}
    }
}

/// A placeholder starts at `i`: a `{{` with a `}}` somewhere after it.
pub open spec fn placeholder_at(t: Seq<char>, i: int) -> bool {
    opens_at(t, i) && close_from(t, i + 2) is Some
}

/// `t` holds no `{{...}}` marker at all.
pub open spec fn placeholder_free(t: Seq<char>) -> bool {
    forall|i: int, j: int| #[trigger] opens_at(t, i) && i + 2 <= j ==> !#[trigger] closes_at(t, j)
}

/// Prefixes the text of a successful rendering; an error passes through.
pub open spec fn prefixed(p: Seq<char>, r: Result<Seq<char>, Seq<char>>) -> Result<Seq<char>, Seq<char>> {
    match r {
        Ok(s) => Ok(p + s),
        Err(name) => Err(name),
    }
}

/// Renders `t` from position `i` on. Scanning left to right, a `{{` followed later
/// by `}}` is a placeholder whose name is the text up to the first such `}}`; it is
/// replaced by the output of the completed step of that name, and a name with no
/// completed step is an error carrying that name. Any other character, including a
/// `{{` that is never closed, is copied.
pub open spec fn render_from(t: Seq<char>, i: int, done: Seq<(Seq<char>, Seq<char>)>) -> Result<
    Seq<char>,
    Seq<char>,
>
    decreases t.len() - i,
    via render_from_decreases
{
    if i < 0 || i >= t.len() {
        Ok(Seq::empty())
    } else if placeholder_at(t, i) {
        let j = close_from(t, i + 2)->0;
        let name = t.subrange(i + 2, j);
        match lookup(done, name) {
            None => Err(name),
            Some(v) => prefixed(v, render_from(t, j + 2, done)),
        }
    } else {
        prefixed(seq![t[i]], render_from(t, i + 1, done))
    }
}

#[via_fn]
proof fn render_from_decreases(t: Seq<char>, i: int, done: Seq<(Seq<char>, Seq<char>)>) {
    if 0 <= i && i < t.len() && placeholder_at(t, i) {
        lemma_close_from(t, i + 2);
    }
}

/// The rendering of template `t` against the completed outputs `done`: the
/// rendered text, or the first placeholder name that has no completed output.
pub open spec fn render_spec(t: Seq<char>, done: Seq<(Seq<char>, Seq<char>)>) -> Result<
    Seq<char>,
    Seq<char>,
> {
    render_from(t, 0, done)
}

/// The placeholder names of `t` from position `i` on, in order.
pub open spec fn placeholders_from(t: Seq<char>, i: int) -> Seq<Seq<char>>
    decreases t.len() - i,
    via placeholders_from_decreases
{
    if i < 0 || i >= t.len() {
        Seq::empty()
    } else if placeholder_at(t, i) {
        let j = close_from(t, i + 2)->0;
        seq![t.subrange(i + 2, j)] + placeholders_from(t, j + 2)
    } else {
        placeholders_from(t, i + 1)
    }
}

#[via_fn]
proof fn placeholders_from_decreases(t: Seq<char>, i: int) {
    if 0 <= i && i < t.len() && placeholder_at(t, i) {
        lemma_close_from(t, i + 2);
    }
}

/// The placeholder names that template `t` refers to, in order of appearance.
pub open spec fn placeholders(t: Seq<char>) -> Seq<Seq<char>> {
    placeholders_from(t, 0)
}

proof fn lemma_render_free_from(t: Seq<char>, i: int, done: Seq<(Seq<char>, Seq<char>)>)
    requires
        placeholder_free(t),
        0 <= i <= t.len(),
    ensures
        render_from(t, i, done) == Ok::<Seq<char>, Seq<char>>(t.subrange(i, t.len() as int)),
    decreases t.len() - i,
{
    if i < t.len() {
        if opens_at(t, i) {
            lemma_close_from(t, i + 2);
            if close_from(t, i + 2) is Some {
                let j = close_from(t, i + 2)->0;
                assert(!closes_at(t, j));
            }
        }
        lemma_render_free_from(t, i + 1, done);
        assert(seq![t[i]] + t.subrange(i + 1, t.len() as int) =~= t.subrange(i, t.len() as int));
    } else {
        assert(t.subrange(i, t.len() as int) =~= Seq::<char>::empty());
    }
}

/// Rendering a template that holds no `{{...}}` marker gives the template back
/// unchanged, whatever steps have completed.
pub proof fn lemma_render_placeholder_free(t: Seq<char>, done: Seq<(Seq<char>, Seq<char>)>)
    requires
        placeholder_free(t),
    ensures
        render_spec(t, done) == Ok::<Seq<char>, Seq<char>>(t),
{
    lemma_render_free_from(t, 0, done);
    assert(t.subrange(0, t.len() as int) =~= t);
}

proof fn lemma_render_missing_from(
    t: Seq<char>,
    i: int,
    done: Seq<(Seq<char>, Seq<char>)>,
    name: Seq<char>,
)
    requires
        0 <= i,
        placeholders_from(t, i).contains(name),
        lookup(done, name) is None,
    ensures
        render_from(t, i, done) is Err,
    decreases t.len() - i,
{
    if i < t.len() {
        if placeholder_at(t, i) {
            lemma_close_from(t, i + 2);
            let j = close_from(t, i + 2)->0;
            let first = t.subrange(i + 2, j);
            if first != name {
                let rest = placeholders_from(t, j + 2);
                let k = choose|k: int| 0 <= k < placeholders_from(t, i).len()
                    && placeholders_from(t, i)[k] == name;
                assert(k != 0);
                assert(rest[k - 1] == name);
                lemma_render_missing_from(t, j + 2, done, name);
            }
        } else {
            lemma_render_missing_from(t, i + 1, done, name);
        }
    }
}

/// A template that refers to a name with no completed output fails to render.
pub proof fn lemma_render_missing(t: Seq<char>, done: Seq<(Seq<char>, Seq<char>)>, name: Seq<char>)
    requires
        placeholders(t).contains(name),
        lookup(done, name) is None,
    ensures
        render_spec(t, done) is Err,
{
    lemma_render_missing_from(t, 0, done, name);
}

proof fn lemma_render_found_from(t: Seq<char>, i: int, done: Seq<(Seq<char>, Seq<char>)>)
    requires
        0 <= i,
        forall|n: Seq<char>| #[trigger] placeholders_from(t, i).contains(n) ==> lookup(done, n) is Some,
    ensures
        render_from(t, i, done) is Ok,
    decreases t.len() - i,
{
    if i < t.len() {
        if placeholder_at(t, i) {
            lemma_close_from(t, i + 2);
            let j = close_from(t, i + 2)->0;
            let all = placeholders_from(t, i);
            let rest = placeholders_from(t, j + 2);
            assert(all[0] == t.subrange(i + 2, j));
            assert(all.contains(t.subrange(i + 2, j)));
            assert forall|n: Seq<char>| #[trigger] rest.contains(n) implies lookup(done, n) is Some by {
                let k = choose|k: int| 0 <= k < rest.len() && rest[k] == n;
                assert(all[k + 1] == n);
                assert(all.contains(n));
            }
            lemma_render_found_from(t, j + 2, done);
        } else {
            assert(placeholders_from(t, i) == placeholders_from(t, i + 1));
            lemma_render_found_from(t, i + 1, done);
        }
    }
}

/// A template renders exactly when every placeholder it holds names a completed
/// step.
pub proof fn lemma_render_ok_iff(t: Seq<char>, done: Seq<(Seq<char>, Seq<char>)>)
    ensures
        render_spec(t, done) is Ok <==> forall|n: Seq<char>| #[trigger] placeholders(t).contains(n)
            ==> lookup(done, n) is Some,
{
    if forall|n: Seq<char>| #[trigger] placeholders(t).contains(n) ==> lookup(done, n) is Some {
        lemma_render_found_from(t, 0, done);
    } else {
        let n = choose|n: Seq<char>| #[trigger] placeholders(t).contains(n) && lookup(done, n) is None;
        lemma_render_missing(t, done, n);
    }
}

/// Finds the first `}}` at or after `k` in `t`.
fn find_close(t: &str, n: usize, k: usize) -> (r: Option<usize>)
    requires
        n == t@.len(),
        k <= n,
    ensures
        match r {
            Some(j) => close_from(t@, k as int) == Some(j as int),
            None => close_from(t@, k as int) is None,
        },
{
    let mut j: usize = k;
    while j < n && j + 1 < n
        invariant
            n == t@.len(),
            k <= j <= n,
            close_from(t@, k as int) == close_from(t@, j as int),
        decreases n - j,
    {
        if t.get_char(j) == '}' && t.get_char(j + 1) == '}' {
            return Some(j);
        }
        j = j + 1;
    }
    None
}

/// Substitutes every `{{name}}` placeholder of `template` with the output of the
/// completed step `name`. Fails with `TemplateError(name)` on the first placeholder
/// whose step has not completed, so no template syntax reaches a prompt.
pub fn render(template: &str, done: &ChainResult) -> (r: Result<String, RllmError>)
    ensures
        match render_spec(template@, done@) {
            Ok(s) => r matches Ok(out) && out@ == s,
            Err(name) => r matches Err(RllmError::TemplateError(m)) && m@ == name,
        },
{
    let n = template.unicode_len();
    let mut out = String::new();
    let mut i: usize = 0;
    while i < n
        invariant
            n == template@.len(),
            i <= n,
            render_spec(template@, done@) == prefixed(out@, render_from(template@, i as int, done@)),
        decreases n - i,
    {
        let mut close: Option<usize> = None;
        if i + 1 < n && template.get_char(i) == '{' && template.get_char(i + 1) == '{' {
            close = find_close(template, n, i + 2);
        }
        match close {
            Some(j) => {
                proof {
                    lemma_close_from(template@, i + 2);
                }
                let name = template.substring_char(i + 2, j);
                match done.get(name) {
                    None => {
                        return Err(RllmError::TemplateError(name.to_owned()));
                    },
                    Some(v) => {
                        let ghost before = out@;
                        let ghost rest = render_from(template@, j + 2, done@);
                        out.append(v.as_str());
                        assert(prefixed(before, prefixed(v@, rest)) == prefixed(out@, rest)) by {
                            if rest is Ok {
                                assert(before + (v@ + rest->Ok_0) =~= out@ + rest->Ok_0);
                            }
                        }
                        i = j + 2;
                    },
                }
            },
            None => {
                let ghost before = out@;
                let ghost rest = render_from(template@, i + 1, done@);
                let c = template.substring_char(i, i + 1);
                assert(c@ =~= seq![template@[i as int]]);
                out.append(c);
                assert(prefixed(before, prefixed(c@, rest)) == prefixed(out@, rest)) by {
                    if rest is Ok {
                        assert(before + (c@ + rest->Ok_0) =~= out@ + rest->Ok_0);
                    }
                }
                i = i + 1;
            },
        }
    }
    assert(out@ + Seq::<char>::empty() =~= out@);
    Ok(out)
}

} // verus!
