//! Finding the occurrences of a pattern inside a named function.
use vstd::prelude::*;

use crate::error::MatchLocation;
use crate::expr::{ast_equals, expr_equal, Expr};

verus! {

/// A function or method of a parsed file: its name and the expressions of its
/// body's statements, in source order.
pub struct FnItem {
    pub name: String,
    pub body: Vec<Expr>,
}

/// A parsed file: every top-level function and every method of every impl
/// block, in source order.
pub struct SourceFile {
    pub functions: Vec<FnItem>,
}

/// A place where the pattern matched.
#[derive(Clone, Copy, Debug, PartialEq, Eq, Structural)]
pub struct MatchedSite {
    /// Line number (1-indexed).
    pub line: usize,
    /// Column number (1-indexed).
    pub column: usize,
    /// The rank of this occurrence among all occurrences, in walk order.
    pub match_index: usize,
    /// The `id` of the matched node.
    pub node: usize,
}

impl MatchedSite {
    pub fn to_location(&self) -> (r: MatchLocation)
        ensures
            r.line == self.line,
            r.column == self.column,
    {
        MatchLocation { line: self.line, column: self.column }
    }
}

/// The nodes of `e` in pre-order: the node itself, then each nested
/// expression's nodes in turn.
pub open spec fn preorder(e: Expr) -> Seq<Expr>
    decreases e,
{
    seq![e] + preorder_list(e.children@)
}

/// The pre-order nodes of a list of expressions, one after the other.
pub open spec fn preorder_list(xs: Seq<Expr>) -> Seq<Expr>
    decreases xs,
{
    if xs.len() == 0 {
        seq![]
    } else {
        preorder_list(xs.subrange(0, xs.len() - 1)) + preorder(xs[xs.len() - 1])
    }
}

/// The nodes of `nodes` that equal the pattern, in order.
pub open spec fn select(nodes: Seq<Expr>, pattern: Expr) -> Seq<Expr>
    decreases nodes.len(),
{
    if nodes.len() == 0 {
        seq![]
    } else {
        let rest = select(nodes.subrange(0, nodes.len() - 1), pattern);
        if expr_equal(nodes[nodes.len() - 1], pattern) {
            rest.push(nodes[nodes.len() - 1])
        } else {
            rest
        }
    }
}

/// The nodes searched for a function name: those of every function or method
/// of that name, in file order.
pub open spec fn scope_nodes(fns: Seq<FnItem>, name: Seq<char>) -> Seq<Expr>
    decreases fns.len(),
{
    if fns.len() == 0 {
        seq![]
    } else {
        let last = fns[fns.len() - 1];
        scope_nodes(fns.subrange(0, fns.len() - 1), name) + if last.name@ == name {
            preorder_list(last.body@)
        } else {
            seq![]
        }
    }
}

/// The occurrences of `pattern` in the function(s) named `name`, in walk order.
pub open spec fn occurrences(file: SourceFile, name: Seq<char>, pattern: Expr) -> Seq<Expr> {
    select(scope_nodes(file.functions@, name), pattern)
}

/// `site` records node `e` as occurrence number `k`.
pub open spec fn site_at(site: MatchedSite, e: Expr, k: int) -> bool {
    &&& site.line == e.line
    &&& site.column == e.column
    &&& site.match_index == k
    &&& site.node == e.id
}

/// `sites` records exactly the nodes of `found`, in order, numbered from 0.
pub open spec fn records(sites: Seq<MatchedSite>, found: Seq<Expr>) -> bool {
    &&& sites.len() == found.len()
    &&& forall|k: int| 0 <= k < sites.len() ==> site_at(#[trigger] sites[k], found[k], k)
}

pub proof fn lemma_select_append(a: Seq<Expr>, b: Seq<Expr>, p: Expr)
    ensures
        select(a + b, p) == select(a, p) + select(b, p),
    decreases b.len(),
{
    if b.len() == 0 {
        assert(a + b =~= a);
        assert(select(b, p) =~= seq![]);
        assert(select(a, p) + select(b, p) =~= select(a, p));
    } else {
        let b0 = b.subrange(0, b.len() - 1);
        lemma_select_append(a, b0, p);
        assert((a + b).subrange(0, (a + b).len() - 1) =~= a + b0);
        assert((a + b)[(a + b).len() - 1] == b[b.len() - 1]);
        if expr_equal(b[b.len() - 1], p) {
            assert(select(a, p) + select(b0, p).push(b[b.len() - 1]) =~= (select(a, p) + select(
                b0,
                p,
            )).push(b[b.len() - 1]));
        }
    }
}

pub(crate) fn walk(e: &Expr, pattern: &Expr, out: &mut Vec<MatchedSite>, Ghost(acc): Ghost<Seq<Expr>>)
    requires
        records(old(out)@, acc),
    ensures
        records(final(out)@, acc + select(preorder(*e), *pattern)),
    decreases e,
{
    proof {
        lemma_select_append(seq![*e], preorder_list(e.children@), *pattern);
        assert(seq![*e].subrange(0, 0) =~= Seq::<Expr>::empty());
        assert(select(Seq::<Expr>::empty(), *pattern) =~= seq![]);
    }
    let ghost head = select(seq![*e], *pattern);
    if ast_equals(e, pattern) {
        let k = out.len();
        out.push(MatchedSite { line: e.line, column: e.column, match_index: k, node: e.id });
        proof {
            assert(head =~= seq![*e]);
            assert(records(out@, acc + head));
        }
    } else {
        assert(head =~= seq![]);
        assert(acc + head =~= acc);
    }
    walk_list(&e.children, pattern, out, Ghost(acc + head));
    proof {
        assert(acc + head + select(preorder_list(e.children@), *pattern) =~= acc + select(
            preorder(*e),
            *pattern,
        ));
    }
}

pub(crate) fn walk_list(
    xs: &Vec<Expr>,
    pattern: &Expr,
    out: &mut Vec<MatchedSite>,
    Ghost(acc): Ghost<Seq<Expr>>,
)
    requires
        records(old(out)@, acc),
    ensures
        records(final(out)@, acc + select(preorder_list(xs@), *pattern)),
    decreases xs,
{
    let mut i: usize = 0;
    proof {
        assert(xs@.subrange(0, 0) =~= Seq::<Expr>::empty());
        assert(acc + select(Seq::<Expr>::empty(), *pattern) =~= acc);
    }
    while i < xs.len()
        invariant
            i <= xs.len(),
            records(out@, acc + select(preorder_list(xs@.subrange(0, i as int)), *pattern)),
        decreases xs.len() - i,
    {
        let ghost before = acc + select(preorder_list(xs@.subrange(0, i as int)), *pattern);
        proof {
            assert(decreases_to!(xs => xs@[i as int]));
        }
        walk(&xs[i], pattern, out, Ghost(before));
        proof {
            let s = xs@.subrange(0, i + 1);
            assert(s.subrange(0, s.len() - 1) =~= xs@.subrange(0, i as int));
            assert(s[s.len() - 1] == xs@[i as int]);
            lemma_select_append(
                preorder_list(xs@.subrange(0, i as int)),
                preorder(xs@[i as int]),
                *pattern,
            );
            assert(before + select(preorder(xs@[i as int]), *pattern) =~= acc + select(
                preorder_list(s),
                *pattern,
            ));
        }
        i = i + 1;
    }
    assert(xs@.subrange(0, xs.len() as int) =~= xs@);
}

/// Every occurrence of `target_expr` in the function(s) named `function_name`,
/// numbered from 0 in walk order.
pub fn find_expression_in_function(
    ast: &SourceFile,
    function_name: &str,
    target_expr: &Expr,
) -> (r: Vec<MatchedSite>)
    ensures
        records(r@, occurrences(*ast, function_name@, *target_expr)),
{
    let name = function_name.to_owned();
    let mut out: Vec<MatchedSite> = Vec::new();
    let mut i: usize = 0;
    let fns = &ast.functions;
    proof {
        assert(fns@.subrange(0, 0) =~= Seq::<FnItem>::empty());
        assert(out@ =~= Seq::<MatchedSite>::empty());
        assert(select(Seq::<Expr>::empty(), *target_expr) =~= seq![]);
    }
    while i < fns.len()
        invariant
            i <= fns.len(),
            name@ == function_name@,
            records(out@, select(scope_nodes(fns@.subrange(0, i as int), name@), *target_expr)),
        decreases fns.len() - i,
    {
        let ghost prev = scope_nodes(fns@.subrange(0, i as int), name@);
        let ghost s = fns@.subrange(0, i + 1);
        proof {
            assert(s.subrange(0, s.len() - 1) =~= fns@.subrange(0, i as int));
            assert(s[s.len() - 1] == fns@[i as int]);
        }
        if fns[i].name.eq(&name) {
            walk_list(&fns[i].body, target_expr, &mut out, Ghost(select(prev, *target_expr)));
            proof {
                lemma_select_append(prev, preorder_list(fns@[i as int].body@), *target_expr);
            }
        } else {
            proof {
                assert(scope_nodes(s, name@) =~= prev);
            }
        }
        i = i + 1;
    }
    assert(fns@.subrange(0, fns.len() as int) =~= fns@);
    out
}

/// The names of every function and method of the file, in file order.
pub fn collect_function_names(ast: &SourceFile) -> (r: Vec<String>)
    ensures
        r@.len() == ast.functions@.len(),
        forall|i: int| 0 <= i < r@.len() ==> (#[trigger] r@[i])@ == ast.functions@[i].name@,
{
    let mut out: Vec<String> = Vec::new();
    let mut i: usize = 0;
    while i < ast.functions.len()
        invariant
            i <= ast.functions.len(),
            out@.len() == i,
            forall|j: int| 0 <= j < i ==> (#[trigger] out@[j])@ == ast.functions@[j].name@,
        decreases ast.functions.len() - i,
    {
        out.push(ast.functions[i].name.clone());
        i = i + 1;
    }
    out
}

/// `a` starts no later in the source than `b`.
pub open spec fn starts_no_later(a: (usize, usize), b: (usize, usize)) -> bool {
    a.0 < b.0 || (a.0 == b.0 && a.1 <= b.1)
}

/// The nodes' first tokens come in source order.
pub open spec fn in_source_order(nodes: Seq<Expr>) -> bool {
    forall|i: int, j: int|
        0 <= i < j < nodes.len() ==> starts_no_later(
            (#[trigger] nodes[i].line, nodes[i].column),
            (#[trigger] nodes[j].line, nodes[j].column),
        )
}

proof fn lemma_select_member(nodes: Seq<Expr>, p: Expr, k: int)
    requires
        0 <= k < select(nodes, p).len(),
    ensures
        exists|m: int| 0 <= m < nodes.len() && nodes[m] == select(nodes, p)[k],
    decreases nodes.len(),
{
    let n = nodes.len() - 1;
    let pre = nodes.subrange(0, n);
    if k < select(pre, p).len() {
        lemma_select_member(pre, p, k);
        let m = choose|m: int| 0 <= m < pre.len() && pre[m] == select(pre, p)[k];
        assert(nodes[m] == pre[m]);
    } else {
        assert(nodes[n] == select(nodes, p)[k]);
    }
}

proof fn lemma_select_in_order(nodes: Seq<Expr>, p: Expr)
    requires
        in_source_order(nodes),
    ensures
        in_source_order(select(nodes, p)),
    decreases nodes.len(),
{
    if nodes.len() > 0 {
        let n = nodes.len() - 1;
        let pre = nodes.subrange(0, n);
        assert(in_source_order(pre)) by {
            assert forall|i: int, j: int| 0 <= i < j < pre.len() implies starts_no_later(
                (#[trigger] pre[i].line, pre[i].column),
                (#[trigger] pre[j].line, pre[j].column),
            ) by {
                assert(pre[i] == nodes[i] && pre[j] == nodes[j]);
            }
        }
        lemma_select_in_order(pre, p);
        let sp = select(pre, p);
        let s = select(nodes, p);
        assert forall|i: int, j: int| 0 <= i < j < s.len() implies starts_no_later(
            (#[trigger] s[i].line, s[i].column),
            (#[trigger] s[j].line, s[j].column),
        ) by {
            if j < sp.len() {
                assert(s[i] == sp[i] && s[j] == sp[j]);
            } else {
                lemma_select_member(pre, p, i);
                let m = choose|m: int| 0 <= m < pre.len() && pre[m] == sp[i];
                assert(s[i] == sp[i]);
                assert(s[j] == nodes[n]);
                assert(nodes[m] == pre[m]);
            }
        }
    }
}

/// Where the nodes searched come in source order (as a parser's positions
/// do), the sites that the search reports come in source order too.
pub proof fn lemma_sites_in_source_order(
    file: SourceFile,
    name: Seq<char>,
    pattern: Expr,
    sites: Seq<MatchedSite>,
)
    requires
        in_source_order(scope_nodes(file.functions@, name)),
        records(sites, occurrences(file, name, pattern)),
    ensures
        forall|i: int, j: int|
            0 <= i < j < sites.len() ==> starts_no_later(
                (#[trigger] sites[i].line, sites[i].column),
                (#[trigger] sites[j].line, sites[j].column),
            ),
{
    let occ = occurrences(file, name, pattern);
    lemma_select_in_order(scope_nodes(file.functions@, name), pattern);
    assert forall|i: int, j: int| 0 <= i < j < sites.len() implies starts_no_later(
        (#[trigger] sites[i].line, sites[i].column),
        (#[trigger] sites[j].line, sites[j].column),
    ) by {
        assert(site_at(sites[i], occ[i], i));
        assert(site_at(sites[j], occ[j], j));
        assert(starts_no_later((occ[i].line, occ[i].column), (occ[j].line, occ[j].column)));
    }
}

} // verus!
