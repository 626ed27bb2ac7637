//! Rewriting exactly one occurrence of a pattern.
use vstd::prelude::*;

use crate::error::MutationError;
use crate::expr::{ast_equals, expr_equal, Expr, ExprKind};
use crate::matcher::{
    find_expression_in_function, lemma_select_append, occurrences, preorder, preorder_list,
    scope_nodes, select, walk, walk_list, FnItem, MatchedSite, SourceFile,
};

verus! {

/// The number of occurrences of `p` among the nodes of `e`.
pub open spec fn count(e: Expr, p: Expr) -> int {
    select(preorder(e), p).len() as int
}

/// The number of occurrences of `p` among the nodes of a list of expressions.
pub open spec fn count_list(xs: Seq<Expr>, p: Expr) -> int {
    select(preorder_list(xs), p).len() as int
}

/// `new` is `old` with its occurrence number `k` of `p` (in walk order)
/// replaced, as a whole, by `r`, and nothing else changed.
pub open spec fn rewritten(old: Expr, new: Expr, p: Expr, r: Expr, k: int) -> bool
    decreases old,
{
    if expr_equal(old, p) && k == 0 {
        new == r
    } else {
        &&& new.kind == old.kind
        &&& new.line == old.line
        &&& new.column == old.column
        &&& new.id == old.id
        &&& rewritten_list(
            old.children@,
            new.children@,
            p,
            r,
            if expr_equal(old, p) {
                k - 1
            } else {
                k
            },
        )
    }
}

/// `news` is `olds` with occurrence number `k` of `p`, counted over the whole
/// list, replaced by `r`, and nothing else changed.
pub open spec fn rewritten_list(olds: Seq<Expr>, news: Seq<Expr>, p: Expr, r: Expr, k: int) -> bool
    decreases olds,
{
    if olds.len() == 0 || news.len() != olds.len() {
        false
    } else {
        let n = olds.len() - 1;
        let c = count_list(olds.subrange(0, n), p);
        if k < c {
            rewritten_list(olds.subrange(0, n), news.subrange(0, n), p, r, k) && news[n] == olds[n]
        } else {
            news.subrange(0, n) == olds.subrange(0, n) && rewritten(olds[n], news[n], p, r, k - c)
        }
    }
}

/// `news` is the function list `olds` with occurrence number `k` of `p`,
/// counted over the functions named `name`, replaced by `r`, and nothing else
/// changed.
pub open spec fn rewritten_fns(
    olds: Seq<FnItem>,
    news: Seq<FnItem>,
    name: Seq<char>,
    p: Expr,
    r: Expr,
    k: int,
) -> bool
    decreases olds.len(),
{
    if olds.len() == 0 || news.len() != olds.len() {
        false
    } else {
        let n = olds.len() - 1;
        let c = select(scope_nodes(olds.subrange(0, n), name), p).len() as int;
        if k < c {
            rewritten_fns(olds.subrange(0, n), news.subrange(0, n), name, p, r, k) && news[n]
                == olds[n]
        } else {
            &&& news.subrange(0, n) == olds.subrange(0, n)
            &&& olds[n].name@ == name
            &&& news[n].name == olds[n].name
            &&& rewritten_list(olds[n].body@, news[n].body@, p, r, k - c)
        }
    }
}

/// What a walk reads of a node apart from its nested expressions.
pub open spec fn shallow(e: Expr) -> (ExprKind, usize, usize, usize) {
    (e.kind, e.line, e.column, e.id)
}

/// A walk read node by node, without nested expressions.
pub open spec fn shallow_walk(nodes: Seq<Expr>) -> Seq<(ExprKind, usize, usize, usize)> {
    nodes.map_values(|e: Expr| shallow(e))
}

proof fn lemma_shallow_add(a: Seq<Expr>, b: Seq<Expr>)
    ensures
        shallow_walk(a + b) == shallow_walk(a) + shallow_walk(b),
{
    assert(shallow_walk(a + b) =~= shallow_walk(a) + shallow_walk(b));
}

/// A single-site rewrite changes one subtree and nothing else: the old walk is
/// `before`, then the walk of a node `t` equal to the pattern, then `after`;
/// exactly `k` occurrences of the pattern come before `t`; and the new walk,
/// read node by node, is `before`, then the replacement's own walk, untouched,
/// then `after`.
pub proof fn lemma_rewrite_splices(old: Expr, new: Expr, p: Expr, r: Expr, k: int) -> (res: (
    Seq<Expr>,
    Expr,
    Seq<Expr>,
))
    requires
        rewritten(old, new, p, r, k),
    ensures
        preorder(old) == res.0 + preorder(res.1) + res.2,
        expr_equal(res.1, p),
        select(res.0, p).len() == k,
        shallow_walk(preorder(new)) == shallow_walk(res.0) + shallow_walk(preorder(r))
            + shallow_walk(res.2),
    decreases old,
{
    if expr_equal(old, p) && k == 0 {
        let e = Seq::<Expr>::empty();
        assert(preorder(old) =~= e + preorder(old) + e);
        assert(select(e, p) =~= e);
        lemma_shallow_add(e, preorder(r));
        lemma_shallow_add(e + preorder(r), e);
        assert(e + preorder(r) + e =~= preorder(r));
        (e, old, e)
    } else {
        let k1 = if expr_equal(old, p) {
            k - 1
        } else {
            k
        };
        assert(decreases_to!(old => old.children));
        let (a1, t, b1) = lemma_rewrite_list_splices(old.children@, new.children@, p, r, k1);
        let a = seq![old] + a1;
        assert(preorder(old) =~= a + preorder(t) + b1);
        lemma_select_append(seq![old], a1, p);
        assert(seq![old].subrange(0, 0) =~= Seq::<Expr>::empty());
        assert(select(Seq::<Expr>::empty(), p) =~= Seq::<Expr>::empty());
        lemma_shallow_add(seq![new], preorder_list(new.children@));
        lemma_shallow_add(seq![old], a1);
        lemma_shallow_add(a1 + preorder(r), b1);
        lemma_shallow_add(a1, preorder(r));
        lemma_shallow_add(a + preorder(r), b1);
        lemma_shallow_add(a, preorder(r));
        assert(shallow_walk(seq![new]) =~= shallow_walk(seq![old]));
        (a, t, b1)
    }
}

/// The same for a list of expressions, occurrences counted over the whole list.
pub proof fn lemma_rewrite_list_splices(
    olds: Seq<Expr>,
    news: Seq<Expr>,
    p: Expr,
    r: Expr,
    k: int,
) -> (res: (Seq<Expr>, Expr, Seq<Expr>))
    requires
        rewritten_list(olds, news, p, r, k),
    ensures
        preorder_list(olds) == res.0 + preorder(res.1) + res.2,
        expr_equal(res.1, p),
        select(res.0, p).len() == k,
        shallow_walk(preorder_list(news)) == shallow_walk(res.0) + shallow_walk(preorder(r))
            + shallow_walk(res.2),
    decreases olds,
{
    let n = olds.len() - 1;
    let c = count_list(olds.subrange(0, n), p);
    let po = olds.subrange(0, n);
    let pn = news.subrange(0, n);
    if k < c {
        let (a1, t, b1) = lemma_rewrite_list_splices(po, pn, p, r, k);
        let b = b1 + preorder(olds[n]);
        assert(preorder_list(olds) =~= a1 + preorder(t) + b);
        lemma_shallow_add(preorder_list(pn), preorder(news[n]));
        lemma_shallow_add(a1 + preorder(r), b1);
        lemma_shallow_add(a1 + preorder(r), b);
        lemma_shallow_add(b1, preorder(olds[n]));
        lemma_shallow_add(a1, preorder(r));
        assert(a1 + preorder(r) + b =~= a1 + preorder(r) + b1 + preorder(olds[n]));
        lemma_shallow_add(a1 + preorder(r) + b1, preorder(olds[n]));
        (a1, t, b)
    } else {
        assert(decreases_to!(olds => olds[n]));
        let (a1, t, b1) = lemma_rewrite_splices(olds[n], news[n], p, r, k - c);
        let a = preorder_list(po) + a1;
        assert(preorder_list(olds) =~= a + preorder(t) + b1);
        lemma_select_append(preorder_list(po), a1, p);
        assert(preorder_list(pn) == preorder_list(po));
        lemma_shallow_add(preorder_list(pn), preorder(news[n]));
        lemma_shallow_add(preorder_list(po), a1);
        lemma_shallow_add(a, preorder(r));
        lemma_shallow_add(a + preorder(r), b1);
        lemma_shallow_add(a1, preorder(r));
        lemma_shallow_add(a1 + preorder(r), b1);
        lemma_shallow_add(preorder_list(po), a1 + preorder(r) + b1);
        assert(a + preorder(r) + b1 =~= preorder_list(po) + (a1 + preorder(r) + b1));
        (a, t, b1)
    }
}

/// The same over a whole file: the walk of the functions named `name`, read
/// node by node, loses exactly the subtree of its occurrence number `k` of the
/// pattern and gains the replacement's own walk in its place.
pub proof fn lemma_rewrite_fns_splices(
    olds: Seq<FnItem>,
    news: Seq<FnItem>,
    name: Seq<char>,
    p: Expr,
    r: Expr,
    k: int,
) -> (res: (Seq<Expr>, Expr, Seq<Expr>))
    requires
        rewritten_fns(olds, news, name, p, r, k),
    ensures
        scope_nodes(olds, name) == res.0 + preorder(res.1) + res.2,
        expr_equal(res.1, p),
        select(res.0, p).len() == k,
        shallow_walk(scope_nodes(news, name)) == shallow_walk(res.0) + shallow_walk(preorder(r))
            + shallow_walk(res.2),
    decreases olds.len(),
{
    let n = olds.len() - 1;
    let po = olds.subrange(0, n);
    let pn = news.subrange(0, n);
    let c = select(scope_nodes(po, name), p).len() as int;
    let tail_old = if olds[n].name@ == name {
        preorder_list(olds[n].body@)
    } else {
        seq![]
    };
    let tail_new = if news[n].name@ == name {
        preorder_list(news[n].body@)
    } else {
        seq![]
    };
    assert(scope_nodes(olds, name) == scope_nodes(po, name) + tail_old);
    assert(scope_nodes(news, name) == scope_nodes(pn, name) + tail_new);
    if k < c {
        let (a1, t, b1) = lemma_rewrite_fns_splices(po, pn, name, p, r, k);
        let b = b1 + tail_old;
        assert(scope_nodes(olds, name) =~= a1 + preorder(t) + b);
        assert(tail_new == tail_old);
        lemma_shallow_add(scope_nodes(pn, name), tail_new);
        lemma_shallow_add(a1 + preorder(r), b1);
        lemma_shallow_add(a1 + preorder(r), b);
        lemma_shallow_add(b1, tail_old);
        lemma_shallow_add(a1, preorder(r));
        assert(a1 + preorder(r) + b =~= a1 + preorder(r) + b1 + tail_old);
        lemma_shallow_add(a1 + preorder(r) + b1, tail_old);
        (a1, t, b)
    } else {
        let (a1, t, b1) = lemma_rewrite_list_splices(olds[n].body@, news[n].body@, p, r, k - c);
        let a = scope_nodes(po, name) + a1;
        assert(scope_nodes(olds, name) =~= a + preorder(t) + b1);
        lemma_select_append(scope_nodes(po, name), a1, p);
        assert(scope_nodes(pn, name) == scope_nodes(po, name));
        lemma_shallow_add(scope_nodes(pn, name), tail_new);
        lemma_shallow_add(scope_nodes(po, name), a1);
        lemma_shallow_add(a, preorder(r));
        lemma_shallow_add(a + preorder(r), b1);
        lemma_shallow_add(a1, preorder(r));
        lemma_shallow_add(a1 + preorder(r), b1);
        lemma_shallow_add(scope_nodes(po, name), a1 + preorder(r) + b1);
        assert(a + preorder(r) + b1 =~= scope_nodes(po, name) + (a1 + preorder(r) + b1));
        (a, t, b1)
    }
}

proof fn lemma_count_node(e: Expr, p: Expr)
    ensures
        count(e, p) == (if expr_equal(e, p) {
            1int
        } else {
            0int
        }) + count_list(e.children@, p),
{
    lemma_select_append(seq![e], preorder_list(e.children@), p);
    assert(seq![e].subrange(0, 0) =~= Seq::<Expr>::empty());
    assert(select(Seq::<Expr>::empty(), p) =~= Seq::<Expr>::empty());
    assert(preorder(e) == seq![e] + preorder_list(e.children@));
}

proof fn lemma_count_push(xs: Seq<Expr>, x: Expr, p: Expr)
    ensures
        count_list(xs.push(x), p) == count_list(xs, p) + count(x, p),
{
    let s = xs.push(x);
    assert(s.subrange(0, s.len() - 1) =~= xs);
    lemma_select_append(preorder_list(xs), preorder(x), p);
}

/// The number of occurrences of `p` among the nodes of `e`.
fn count_matches(e: &Expr, p: &Expr) -> (c: usize)
    ensures
        c == count(*e, *p),
{
    let mut sites: Vec<MatchedSite> = Vec::new();
    walk(e, p, &mut sites, Ghost(Seq::<Expr>::empty()));
    assert(Seq::<Expr>::empty() + select(preorder(*e), *p) =~= select(preorder(*e), *p));
    sites.len()
}

/// Replaces occurrence number `skip` of `p` inside `node`, as a whole, by the
/// value in `slot`, without looking into the value put in.
fn rewrite_node(node: Expr, p: &Expr, slot: &mut Option<Expr>, skip: usize) -> (n: Expr)
    requires
        old(slot).is_some(),
        skip < count(node, *p),
    ensures
        final(slot).is_none(),
        rewritten(node, n, *p, old(slot).unwrap(), skip as int),
    decreases node, 1nat,
{
    let ghost whole = node;
    proof {
        lemma_count_node(node, *p);
    }
    let mut e = node;
    let mut skip = skip;
    if ast_equals(&e, p) {
        if skip == 0 {
            let mut taken: Option<Expr> = None;
            std::mem::swap(slot, &mut taken);
            match taken {
                Some(x) => return x,
                None => return e,
            }
        }
        skip = skip - 1;
    }
    let mut rest: Vec<Expr> = Vec::new();
    std::mem::swap(&mut e.children, &mut rest);
    proof {
        assert(decreases_to!(whole => whole.children));
    }
    let done = rewrite_list(rest, p, slot, skip);
    e.children = done;
    e
}

/// Replaces occurrence number `skip` of `p`, counted over the whole list, as a
/// whole, by the value in `slot`.
fn rewrite_list(xs: Vec<Expr>, p: &Expr, slot: &mut Option<Expr>, skip: usize) -> (n: Vec<Expr>)
    requires
        old(slot).is_some(),
        skip < count_list(xs@, *p),
    ensures
        final(slot).is_none(),
        rewritten_list(xs@, n@, *p, old(slot).unwrap(), skip as int),
    decreases xs, 0nat,
{
    let ghost r = slot.unwrap();
    let ghost k1 = skip as int;
    let ghost whole = xs;
    let ghost olds = xs@;
    let mut skip = skip;
    let mut rest = xs;
    let mut done: Vec<Expr> = Vec::new();
    proof {
        assert(olds.subrange(0, 0) =~= Seq::<Expr>::empty());
        assert forall|j: int| 0 <= j < olds.len() implies decreases_to!(whole => #[trigger] olds[j]) by {
            assert(decreases_to!(whole => whole@));
            assert(decreases_to!(whole@ => whole@[j]));
        }
        assert(rest@.subrange(0, rest@.len() as int) =~= rest@);
    }
    while rest.len() > 0
        invariant
            done@.len() + rest@.len() == olds.len(),
            rest@ == olds.subrange(done@.len() as int, olds.len() as int),
            k1 < count_list(olds, *p),
            slot.is_none() ==> k1 < count_list(olds.subrange(0, done@.len() as int), *p)
                && rewritten_list(olds.subrange(0, done@.len() as int), done@, *p, r, k1),
            slot.is_some() ==> *slot == Some(r) && done@ == olds.subrange(0, done@.len() as int)
                && skip == k1 - count_list(olds.subrange(0, done@.len() as int), *p),
            whole == xs,
            olds == xs@,
            forall|j: int| 0 <= j < olds.len() ==> decreases_to!(whole => #[trigger] olds[j]),
        decreases rest@.len(),
    {
        let ghost i = done@.len() as int;
        let ghost done0 = done@;
        let child = rest.remove(0);
        assert(child == olds[i]);
        let ghost pre = olds.subrange(0, i);
        let ghost pre1 = olds.subrange(0, i + 1);
        proof {
            lemma_count_push(pre, child, *p);
            assert(pre1 =~= pre.push(child));
            assert(pre1.subrange(0, i) =~= pre);
        }
        if slot.is_some() {
            let c = count_matches(&child, p);
            if skip < c {
                assert(decreases_to!(whole => child));
                let nc = rewrite_node(child, p, slot, skip);
                done.push(nc);
                proof {
                    assert(done@.subrange(0, i) =~= done0);
                }
            } else {
                done.push(child);
                skip = skip - c;
                proof {
                    assert(done@ =~= pre1);
                }
            }
        } else {
            done.push(child);
            proof {
                assert(done@.subrange(0, i) =~= done0);
            }
        }
        proof {
            assert(rest@ =~= olds.subrange(done@.len() as int, olds.len() as int));
        }
    }
    proof {
        assert(olds.subrange(0, olds.len() as int) =~= olds);
    }
    done
}

proof fn lemma_scope_push(fns: Seq<FnItem>, f: FnItem, name: Seq<char>, p: Expr)
    ensures
        select(scope_nodes(fns.push(f), name), p).len() == select(scope_nodes(fns, name), p).len()
            + if f.name@ == name {
            count_list(f.body@, p)
        } else {
            0
        },
{
    let s = fns.push(f);
    assert(s.subrange(0, s.len() - 1) =~= fns);
    let tail = if f.name@ == name {
        preorder_list(f.body@)
    } else {
        seq![]
    };
    lemma_select_append(scope_nodes(fns, name), tail, p);
    assert(select(Seq::<Expr>::empty(), p) =~= Seq::<Expr>::empty());
}

/// Applies one mutation to a parsed file.
pub struct Mutator;

impl Mutator {
    /// Replaces, in the function(s) named `function_name`, the occurrence of
    /// `target` that `target_site` numbers by the value `replacement`. Fails,
    /// leaving the file as it was, when there are not that many occurrences.
    pub fn apply(
        ast: &mut SourceFile,
        function_name: &str,
        target: &Expr,
        replacement: Expr,
        target_site: &MatchedSite,
    ) -> (r: Result<(), MutationError>)
        ensures
            r is Ok == (target_site.match_index < occurrences(
                *old(ast),
                function_name@,
                *target,
            ).len()),
            r is Ok ==> rewritten_fns(
                old(ast).functions@,
                final(ast).functions@,
                function_name@,
                *target,
                replacement,
                target_site.match_index as int,
            ),
            r is Err ==> r->Err_0 is FailedToApply && final(ast).functions@ == old(
                ast,
            ).functions@,
    {
        let sites = find_expression_in_function(ast, function_name, target);
        if target_site.match_index >= sites.len() {
            return Err(
                MutationError::FailedToApply {
                    reason: "Target expression not found during mutation".to_owned(),
                },
            );
        }
        let name = function_name.to_owned();
        let ghost k1 = target_site.match_index as int;
        let ghost olds = ast.functions@;
        let ghost r = replacement;
        let mut skip = target_site.match_index;
        let mut slot = Some(replacement);
        let mut rest: Vec<FnItem> = Vec::new();
        std::mem::swap(&mut ast.functions, &mut rest);
        let mut done: Vec<FnItem> = Vec::new();
        proof {
            assert(olds.subrange(0, 0) =~= Seq::<FnItem>::empty());
            assert(rest@.subrange(0, rest@.len() as int) =~= rest@);
            assert(select(Seq::<Expr>::empty(), *target) =~= Seq::<Expr>::empty());
        }
        while rest.len() > 0
            invariant
                done@.len() + rest@.len() == olds.len(),
                rest@ == olds.subrange(done@.len() as int, olds.len() as int),
                name@ == function_name@,
                k1 < select(scope_nodes(olds, name@), *target).len(),
                slot.is_none() ==> k1 < select(
                    scope_nodes(olds.subrange(0, done@.len() as int), name@),
                    *target,
                ).len() && rewritten_fns(
                    olds.subrange(0, done@.len() as int),
                    done@,
                    name@,
                    *target,
                    r,
                    k1,
                ),
                slot.is_some() ==> slot == Some(r) && done@ == olds.subrange(0, done@.len() as int)
                    && skip == k1 - select(
                    scope_nodes(olds.subrange(0, done@.len() as int), name@),
                    *target,
                ).len(),
            decreases rest@.len(),
        {
            let ghost i = done@.len() as int;
            let ghost done0 = done@;
            let mut f = rest.remove(0);
            assert(f == olds[i]);
            let ghost pre = olds.subrange(0, i);
            let ghost pre1 = olds.subrange(0, i + 1);
            proof {
                lemma_scope_push(pre, f, name@, *target);
                assert(pre1 =~= pre.push(f));
                assert(pre1.subrange(0, i) =~= pre);
            }
            if slot.is_some() && f.name.eq(&name) {
                let mut body_sites: Vec<MatchedSite> = Vec::new();
                walk_list(&f.body, target, &mut body_sites, Ghost(Seq::<Expr>::empty()));
                assert(Seq::<Expr>::empty() + select(preorder_list(f.body@), *target) =~= select(
                    preorder_list(f.body@),
                    *target,
                ));
                let c = body_sites.len();
                if skip < c {
                    let ghost f0 = f;
                    let mut body: Vec<Expr> = Vec::new();
                    std::mem::swap(&mut f.body, &mut body);
                    let nb = rewrite_list(body, target, &mut slot, skip);
                    f.body = nb;
                    done.push(f);
                    proof {
                        assert(done@.subrange(0, i) =~= done0);
                        assert(done@[i].name == f0.name);
                    }
                } else {
                    done.push(f);
                    skip = skip - c;
                    proof {
                        assert(done@ =~= pre1);
                    }
                }
            } else {
                done.push(f);
                proof {
                    if slot.is_some() {
                        assert(done@ =~= pre1);
                    } else {
                        assert(done@.subrange(0, i) =~= done0);
                    }
                }
            }
            proof {
                assert(rest@ =~= olds.subrange(done@.len() as int, olds.len() as int));
            }
        }
        proof {
            assert(olds.subrange(0, olds.len() as int) =~= olds);
        }
        ast.functions = done;
        Ok(())
    }
}

} // verus!
