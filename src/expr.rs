//! The expression model and its structural equality.
//!
//! An `Expr` holds what equality reads of a parsed expression (operator kinds,
//! literal values, path segments, ...) together with every nested expression in
//! the order in which a pre-order walk visits them, so that the same value serves
//! both the comparison and the search for occurrences.
use vstd::prelude::*;

verus! {

/// Binary operators, compared by kind alone.
#[derive(PartialEq, Eq, Structural, Clone, Copy, Debug)]
pub enum BinOp {
    Add,
    Sub,
    Mul,
    Div,
    Rem,
    And,
    Or,
    BitXor,
    BitAnd,
    BitOr,
    Shl,
    Shr,
    Eq,
    Lt,
    Le,
    Ne,
    Ge,
    Gt,
    AddAssign,
    SubAssign,
    MulAssign,
    DivAssign,
    RemAssign,
    BitXorAssign,
    BitAndAssign,
    BitOrAssign,
    ShlAssign,
    ShrAssign,
}

/// Unary operators, compared by kind alone.
#[derive(PartialEq, Eq, Structural, Clone, Copy, Debug)]
pub enum UnOp {
    Deref,
    Not,
    Neg,
}

/// A literal's value. Integers and floats keep their canonical digits.
#[derive(Debug)]
pub enum LitValue {
    Str(String),
    ByteStr(Vec<u8>),
    CStr(Vec<u8>),
    Byte(u8),
    Char(char),
    Int(String),
    Float(String),
    Bool(bool),
    /// A literal that the model does not decode; equal to nothing.
    Verbatim,
}

/// The member of a field access: a named field or a tuple index.
#[derive(Debug)]
pub enum Member {
    Named(String),
    Unnamed(u32),
}

/// One expression node: what equality reads of it, its nested expressions in
/// the order in which a pre-order walk visits them, and the position of its
/// first token.
pub struct Expr {
    pub kind: ExprKind,
    pub children: Vec<Expr>,
    /// Line of the first token (1-indexed).
    pub line: usize,
    /// Column of the first token (1-indexed).
    pub column: usize,
    /// The node's number in a pre-order walk of the parsed file.
    pub id: usize,
}

/// The kind of a node and the data that equality reads of it. The comment on
/// each variant gives the layout of `children`.
pub enum ExprKind {
    /// `[left, right]`
    Binary(BinOp),
    /// `[operand]`
    Unary(UnOp),
    /// `[]`
    Lit(LitValue),
    /// A path, by the names of its segments; `[]`
    Path(Vec<String>),
    /// `[callee, args...]`
    Call,
    /// `[receiver, args...]`
    MethodCall(String),
    /// `[base]`
    Field(Member),
    /// `[base, index]`
    Index,
    /// The target type by its token text; `[operand]`
    Cast(String),
    /// Whether the reference is mutable; `[operand]`
    Reference(bool),
    /// `[elements...]`
    Tuple,
    /// `[elements...]`
    Array,
    /// `[condition, expressions of both branches...]`; equality reads the
    /// condition only.
    If,
    /// The number of statements; `[expressions of the statements...]`;
    /// equality reads the statement count only.
    Block(usize),
    /// `[value]` or `[]`
    Return,
    /// Whether start and end are present and whether the end is inclusive;
    /// `[start?, end?]`
    Range { has_start: bool, has_end: bool, closed: bool },
    /// `[inner]`
    Paren,
    /// Any other kind of expression; equal to nothing.
    Other,
}

pub open spec fn lit_equal(a: LitValue, b: LitValue) -> bool {
    match (a, b) {
        (LitValue::Str(x), LitValue::Str(y)) => x@ == y@,
        (LitValue::ByteStr(x), LitValue::ByteStr(y)) => x@ == y@,
        (LitValue::CStr(x), LitValue::CStr(y)) => x@ == y@,
        (LitValue::Byte(x), LitValue::Byte(y)) => x == y,
        (LitValue::Char(x), LitValue::Char(y)) => x == y,
        (LitValue::Int(x), LitValue::Int(y)) => x@ == y@,
        (LitValue::Float(x), LitValue::Float(y)) => x@ == y@,
        (LitValue::Bool(x), LitValue::Bool(y)) => x == y,
        _ => false,
    }
}

pub open spec fn member_equal(a: Member, b: Member) -> bool {
    match (a, b) {
        (Member::Named(x), Member::Named(y)) => x@ == y@,
        (Member::Unnamed(x), Member::Unnamed(y)) => x == y,
        _ => false,
    }
}

pub open spec fn path_equal(a: Seq<String>, b: Seq<String>) -> bool {
    &&& a.len() == b.len()
    &&& forall|i: int| 0 <= i < a.len() ==> (#[trigger] a[i])@ == b[i]@
}

/// Equality of the data that two node kinds carry; false for two different
/// kinds and for the kinds that `expr_equal` treats apart.
pub open spec fn kind_equal(a: ExprKind, b: ExprKind) -> bool {
    match (a, b) {
        (ExprKind::Binary(x), ExprKind::Binary(y)) => x == y,
        (ExprKind::Unary(x), ExprKind::Unary(y)) => x == y,
        (ExprKind::Lit(x), ExprKind::Lit(y)) => lit_equal(x, y),
        (ExprKind::Path(x), ExprKind::Path(y)) => path_equal(x@, y@),
        (ExprKind::Call, ExprKind::Call) => true,
        (ExprKind::MethodCall(x), ExprKind::MethodCall(y)) => x@ == y@,
        (ExprKind::Field(x), ExprKind::Field(y)) => member_equal(x, y),
        (ExprKind::Index, ExprKind::Index) => true,
        (ExprKind::Cast(x), ExprKind::Cast(y)) => x@ == y@,
        (ExprKind::Reference(x), ExprKind::Reference(y)) => x == y,
        (ExprKind::Tuple, ExprKind::Tuple) => true,
        (ExprKind::Array, ExprKind::Array) => true,
        (ExprKind::Return, ExprKind::Return) => true,
        (
            ExprKind::Range { has_start: s1, has_end: e1, closed: c1 },
            ExprKind::Range { has_start: s2, has_end: e2, closed: c2 },
        ) => s1 == s2 && e1 == e2 && c1 == c2,
        _ => false,
    }
}

/// Structural equality of two expressions: parentheses on either side are
/// unwrapped, a conditional is compared by its condition, a block by its
/// statement count, and any other node by its kind's data and its nested
/// expressions pairwise.
pub open spec fn expr_equal(a: Expr, b: Expr) -> bool
    decreases a, b,
{
    match (a.kind, b.kind) {
        (ExprKind::Paren, ExprKind::Paren) => a.children.len() == 1 && b.children.len() == 1
            && expr_equal(a.children@[0], b.children@[0]),
        (ExprKind::Paren, _) => a.children.len() == 1 && expr_equal(a.children@[0], b),
        (_, ExprKind::Paren) => b.children.len() == 1 && expr_equal(a, b.children@[0]),
        (ExprKind::If, ExprKind::If) => a.children.len() >= 1 && b.children.len() >= 1
            && expr_equal(a.children@[0], b.children@[0]),
        (ExprKind::Block(n1), ExprKind::Block(n2)) => n1 == n2,
        _ => kind_equal(a.kind, b.kind) && a.children.len() == b.children.len() && forall|i: int|
            0 <= i < a.children.len() ==> expr_equal(#[trigger] a.children@[i], b.children@[i]),
    }
}

fn bytes_eq(a: &Vec<u8>, b: &Vec<u8>) -> (r: bool)
    ensures
        r == (a@ == b@),
{
    if a.len() != b.len() {
        return false;
    }
    let mut i: usize = 0;
    while i < a.len()
        invariant
            a.len() == b.len(),
            i <= a.len(),
            forall|j: int| 0 <= j < i ==> a@[j] == b@[j],
        decreases a.len() - i,
    {
        if a[i] != b[i] {
            return false;
        }
        i = i + 1;
    }
    assert(a@ =~= b@);
    true
}

/// Compares two literal values.
pub fn lit_equals(a: &LitValue, b: &LitValue) -> (r: bool)
    ensures
        r == lit_equal(*a, *b),
{
    match (a, b) {
        (LitValue::Str(x), LitValue::Str(y)) => x.eq(y),
        (LitValue::ByteStr(x), LitValue::ByteStr(y)) => bytes_eq(x, y),
        (LitValue::CStr(x), LitValue::CStr(y)) => bytes_eq(x, y),
        (LitValue::Byte(x), LitValue::Byte(y)) => *x == *y,
        (LitValue::Char(x), LitValue::Char(y)) => *x == *y,
        (LitValue::Int(x), LitValue::Int(y)) => x.eq(y),
        (LitValue::Float(x), LitValue::Float(y)) => x.eq(y),
        (LitValue::Bool(x), LitValue::Bool(y)) => *x == *y,
        _ => false,
    }
}

/// Compares two field-access members.
pub fn member_equals(a: &Member, b: &Member) -> (r: bool)
    ensures
        r == member_equal(*a, *b),
{
    match (a, b) {
        (Member::Named(x), Member::Named(y)) => x.eq(y),
        (Member::Unnamed(x), Member::Unnamed(y)) => *x == *y,
        _ => false,
    }
}

/// Compares two paths segment by segment.
pub fn path_equals(a: &Vec<String>, b: &Vec<String>) -> (r: bool)
    ensures
        r == path_equal(a@, b@),
{
    if a.len() != b.len() {
        return false;
    }
    let mut i: usize = 0;
    while i < a.len()
        invariant
            a.len() == b.len(),
            i <= a.len(),
            forall|j: int| 0 <= j < i ==> (#[trigger] a@[j])@ == b@[j]@,
        decreases a.len() - i,
    {
        if a[i] != b[i] {
            return false;
        }
        i = i + 1;
    }
    true
}

/// Compares two expression lists position by position.
pub fn exprs_equal(xs: &Vec<Expr>, ys: &Vec<Expr>) -> (r: bool)
    ensures
        r == (xs.len() == ys.len() && forall|i: int| 0 <= i < xs.len() ==> expr_equal(#[trigger] xs@[i], ys@[i])),
    decreases xs, ys,
{
    if xs.len() != ys.len() {
        return false;
    }
    let mut i: usize = 0;
    while i < xs.len()
        invariant
            xs.len() == ys.len(),
            i <= xs.len(),
            forall|j: int| 0 <= j < i ==> expr_equal(#[trigger] xs@[j], ys@[j]),
        decreases xs.len() - i,
    {
        proof {
            assert(decreases_to!(xs => xs@[i as int]));
        }
        if !ast_equals(&xs[i], &ys[i]) {
            return false;
        }
        i = i + 1;
    }
    true
}

/// Compares the data of two node kinds.
pub fn kind_equals(a: &ExprKind, b: &ExprKind) -> (r: bool)
    ensures
        r == kind_equal(*a, *b),
{
    match (a, b) {
        (ExprKind::Binary(x), ExprKind::Binary(y)) => *x == *y,
        (ExprKind::Unary(x), ExprKind::Unary(y)) => *x == *y,
        (ExprKind::Lit(x), ExprKind::Lit(y)) => lit_equals(x, y),
        (ExprKind::Path(x), ExprKind::Path(y)) => path_equals(x, y),
        (ExprKind::Call, ExprKind::Call) => true,
        (ExprKind::MethodCall(x), ExprKind::MethodCall(y)) => x.eq(y),
        (ExprKind::Field(x), ExprKind::Field(y)) => member_equals(x, y),
        (ExprKind::Index, ExprKind::Index) => true,
        (ExprKind::Cast(x), ExprKind::Cast(y)) => x.eq(y),
        (ExprKind::Reference(x), ExprKind::Reference(y)) => *x == *y,
        (ExprKind::Tuple, ExprKind::Tuple) => true,
        (ExprKind::Array, ExprKind::Array) => true,
        (ExprKind::Return, ExprKind::Return) => true,
        (
            ExprKind::Range { has_start: s1, has_end: e1, closed: c1 },
            ExprKind::Range { has_start: s2, has_end: e2, closed: c2 },
        ) => *s1 == *s2 && *e1 == *e2 && *c1 == *c2,
        _ => false,
    }
}

/// Structural equality of two expressions, ignoring positions, layout and
/// redundant parentheses.
pub fn ast_equals(a: &Expr, b: &Expr) -> (r: bool)
    ensures
        r == expr_equal(*a, *b),
    decreases a, b,
{
    match (&a.kind, &b.kind) {
        (ExprKind::Paren, ExprKind::Paren) => a.children.len() == 1 && b.children.len() == 1
            && ast_equals(&a.children[0], &b.children[0]),
        (ExprKind::Paren, _) => a.children.len() == 1 && ast_equals(&a.children[0], b),
        (_, ExprKind::Paren) => b.children.len() == 1 && ast_equals(a, &b.children[0]),
        (ExprKind::If, ExprKind::If) => a.children.len() >= 1 && b.children.len() >= 1
            && ast_equals(&a.children[0], &b.children[0]),
        (ExprKind::Block(n1), ExprKind::Block(n2)) => *n1 == *n2,
        _ => kind_equals(&a.kind, &b.kind) && exprs_equal(&a.children, &b.children),
    }
}

/// Whether every part of `e` that equality reads is of a kind that equality
/// handles: no `Other` node and no undecoded literal.
pub open spec fn comparable(e: Expr) -> bool
    decreases e,
{
    match e.kind {
        ExprKind::Paren => e.children.len() == 1 && comparable(e.children@[0]),
        ExprKind::If => e.children.len() >= 1 && comparable(e.children@[0]),
        ExprKind::Block(_) => true,
        ExprKind::Other => false,
        ExprKind::Lit(LitValue::Verbatim) => false,
        _ => forall|i: int| 0 <= i < e.children.len() ==> comparable(#[trigger] e.children@[i]),
    }
}

/// Equality is reflexive on every expression whose compared parts are all of
/// handled kinds.
pub proof fn lemma_equal_reflexive(e: Expr)
    requires
        comparable(e),
    ensures
        expr_equal(e, e),
    decreases e,
{
    match e.kind {
        ExprKind::Paren => lemma_equal_reflexive(e.children@[0]),
        ExprKind::If => lemma_equal_reflexive(e.children@[0]),
        ExprKind::Block(_) => {},
        ExprKind::Other => {},
        _ => {
            assert forall|i: int| 0 <= i < e.children.len() implies expr_equal(
                #[trigger] e.children@[i],
                e.children@[i],
            ) by {
                lemma_equal_reflexive(e.children@[i]);
            }
            assert(kind_equal(e.kind, e.kind));
        },
    }
}

/// Equality is symmetric.
pub proof fn lemma_equal_symmetric(a: Expr, b: Expr)
    ensures
        expr_equal(a, b) == expr_equal(b, a),
    decreases a, b,
{
    match (a.kind, b.kind) {
        (ExprKind::Paren, ExprKind::Paren) => {
            if a.children.len() == 1 && b.children.len() == 1 {
                lemma_equal_symmetric(a.children@[0], b.children@[0]);
            }
        },
        (ExprKind::Paren, _) => {
            if a.children.len() == 1 {
                lemma_equal_symmetric(a.children@[0], b);
            }
        },
        (_, ExprKind::Paren) => {
            if b.children.len() == 1 {
                lemma_equal_symmetric(a, b.children@[0]);
            }
        },
        (ExprKind::If, ExprKind::If) => {
            if a.children.len() >= 1 && b.children.len() >= 1 {
                lemma_equal_symmetric(a.children@[0], b.children@[0]);
            }
        },
        (ExprKind::Block(_), ExprKind::Block(_)) => {},
        _ => {
            assert(kind_equal(a.kind, b.kind) == kind_equal(b.kind, a.kind));
            if a.children.len() == b.children.len() {
                assert forall|i: int| 0 <= i < a.children.len() implies expr_equal(
                    #[trigger] a.children@[i],
                    b.children@[i],
                ) == expr_equal(b.children@[i], a.children@[i]) by {
                    lemma_equal_symmetric(a.children@[i], b.children@[i]);
                }
            }
        },
    }
}

} // verus!
