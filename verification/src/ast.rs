//! The tree model: patterns, expressions and statements of a function body,
//! as owned tagged-variant nodes, together with their mathematical views.
//!
//! The model holds exactly what the rewrite reads or builds: the shape of
//! every construct, the identifiers of single-segment paths and identifier
//! patterns, and the name of a called method.  Everything else a host front
//! end may attach to a node (operator kinds, literal values, types, labels)
//! is opaque to the rewrite and stays on the host's side of the conversion.

use vstd::prelude::*;

verus! {

/// A binding pattern.
///
/// `Ident` is a single identifier binding; `mutable` records a `mut`
/// qualifier.  An identifier binding that carries any further qualifier
/// (`ref`, a sub-pattern, ...) is not a plain identifier and converts to
/// `Opaque`, as does every other pattern shape the rewrite never reads.
#[derive(Debug, PartialEq)]
pub enum Pat {
    Ident { mutable: bool, name: String },
    Tuple { elems: Vec<Pat> },
    Opaque,
}

/// The view of a `Pat`: the same shape over `Seq`.
#[verifier::ext_equal]
pub enum PatV {
    Ident { mutable: bool, name: Seq<char> },
    Tuple { elems: Seq<PatV> },
    Opaque,
}

/// The view of one pattern.
pub open spec fn pat_view(p: Pat) -> PatV
    decreases p,
{
    match p {
        Pat::Ident { mutable, name } => PatV::Ident { mutable, name: name@ },
        Pat::Tuple { elems } => PatV::Tuple { elems: pats_view(elems@) },
        Pat::Opaque => PatV::Opaque,
    }
}

/// The element-wise view of a sequence of patterns.
pub open spec fn pats_view(ps: Seq<Pat>) -> Seq<PatV>
    decreases ps,
{
    if ps.len() == 0 {
        Seq::empty()
    } else {
        seq![pat_view(ps[0])] + pats_view(ps.drop_first())
    }
}

impl View for Pat {
    type V = PatV;

    open spec fn view(&self) -> PatV {
        pat_view(*self)
    }
}

/// One arm of a `match`: its pattern (never read by the rewrite), an
/// optional guard expression, and the arm's body expression.
#[derive(Debug, PartialEq)]
pub struct Arm {
    pub pat: Pat,
    pub guard: Option<Box<Expr>>,
    pub body: Box<Expr>,
}

/// A statement of a block or function body.
///
/// `Local` is a `let` binding with an optional initializer.  `Item` is a
/// nested item declaration and `MacroCall` a macro-invocation statement;
/// both are opaque to the rewrite, which never descends into them.
#[derive(Debug, PartialEq)]
pub enum Stmt {
    Local { pat: Pat, init: Option<Box<Expr>> },
    Item,
    Expr { expr: Box<Expr>, semi: bool },
    MacroCall,
}

/// An expression node.  Each variant owns its sub-expressions directly;
/// the tree has no sharing and no cycles.
///
/// Leaves that the rewrite treats as opaque (`Lit`, `MacroCall`, `Infer`,
/// `Verbatim`, a payload-less `Break` or `Continue`) carry no fields here;
/// what a host attaches to them never reaches the rewrite.  `PathRef` is a
/// single-segment path and keeps its identifier, since synthesized clone
/// bindings are built from one.  `Repeat` keeps only its element
/// expression; the length is a constant expression on the host's side.
#[derive(Debug, PartialEq)]
pub enum Expr {
    Array { elems: Vec<Expr> },
    Assign { left: Box<Expr>, right: Box<Expr> },
    Async { body: Vec<Stmt> },
    Await { base: Box<Expr> },
    Binary { left: Box<Expr>, right: Box<Expr> },
    Block { body: Vec<Stmt> },
    Break { value: Option<Box<Expr>> },
    Call { func: Box<Expr>, args: Vec<Expr> },
    Cast { base: Box<Expr> },
    Closure { params: Vec<Pat>, body: Box<Expr> },
    ConstBlock { body: Vec<Stmt> },
    Continue,
    Field { base: Box<Expr> },
    ForLoop { iter: Box<Expr>, body: Vec<Stmt> },
    Group { inner: Box<Expr> },
    If { cond: Box<Expr>, then_body: Vec<Stmt>, else_body: Option<Box<Expr>> },
    Index { base: Box<Expr>, index: Box<Expr> },
    Infer,
    Let { init: Box<Expr> },
    Lit,
    Loop { body: Vec<Stmt> },
    MacroCall,
    Match { scrutinee: Box<Expr>, arms: Vec<Arm> },
    MethodCall { receiver: Box<Expr>, method: String, args: Vec<Expr> },
    Paren { inner: Box<Expr> },
    PathRef { name: String },
    Range { start: Option<Box<Expr>>, end: Option<Box<Expr>> },
    RawBorrow { target: Box<Expr> },
    Reference { target: Box<Expr> },
    Repeat { elem: Box<Expr> },
    Return { value: Option<Box<Expr>> },
    StructLit { fields: Vec<Expr>, rest: Option<Box<Expr>> },
    Try { base: Box<Expr> },
    TryBlock { body: Vec<Stmt> },
    Tuple { elems: Vec<Expr> },
    Unary { operand: Box<Expr> },
    UnsafeBlock { body: Vec<Stmt> },
    Verbatim,
    While { cond: Box<Expr>, body: Vec<Stmt> },
    Yield { value: Option<Box<Expr>> },
}

/// The view of an `Arm`.
#[verifier::ext_equal]
pub struct ArmV {
    pub pat: PatV,
    pub guard: Option<Box<ExprV>>,
    pub body: Box<ExprV>,
}

/// The view of a `Stmt`.
#[verifier::ext_equal]
pub enum StmtV {
    Local { pat: PatV, init: Option<Box<ExprV>> },
    Item,
    Expr { expr: Box<ExprV>, semi: bool },
    MacroCall,
}

/// The view of an `Expr`: the same shape over `Seq`.
#[verifier::ext_equal]
pub enum ExprV {
    Array { elems: Seq<ExprV> },
    Assign { left: Box<ExprV>, right: Box<ExprV> },
    Async { body: Seq<StmtV> },
    Await { base: Box<ExprV> },
    Binary { left: Box<ExprV>, right: Box<ExprV> },
    Block { body: Seq<StmtV> },
    Break { value: Option<Box<ExprV>> },
    Call { func: Box<ExprV>, args: Seq<ExprV> },
    Cast { base: Box<ExprV> },
    Closure { params: Seq<PatV>, body: Box<ExprV> },
    ConstBlock { body: Seq<StmtV> },
    Continue,
    Field { base: Box<ExprV> },
    ForLoop { iter: Box<ExprV>, body: Seq<StmtV> },
    Group { inner: Box<ExprV> },
    If { cond: Box<ExprV>, then_body: Seq<StmtV>, else_body: Option<Box<ExprV>> },
    Index { base: Box<ExprV>, index: Box<ExprV> },
    Infer,
    Let { init: Box<ExprV> },
    Lit,
    Loop { body: Seq<StmtV> },
    MacroCall,
    Match { scrutinee: Box<ExprV>, arms: Seq<ArmV> },
    MethodCall { receiver: Box<ExprV>, method: Seq<char>, args: Seq<ExprV> },
    Paren { inner: Box<ExprV> },
    PathRef { name: Seq<char> },
    Range { start: Option<Box<ExprV>>, end: Option<Box<ExprV>> },
    RawBorrow { target: Box<ExprV> },
    Reference { target: Box<ExprV> },
    Repeat { elem: Box<ExprV> },
    Return { value: Option<Box<ExprV>> },
    StructLit { fields: Seq<ExprV>, rest: Option<Box<ExprV>> },
    Try { base: Box<ExprV> },
    TryBlock { body: Seq<StmtV> },
    Tuple { elems: Seq<ExprV> },
    Unary { operand: Box<ExprV> },
    UnsafeBlock { body: Seq<StmtV> },
    Verbatim,
    While { cond: Box<ExprV>, body: Seq<StmtV> },
    Yield { value: Option<Box<ExprV>> },
}

/// The view of one expression.
pub open spec fn expr_view(e: Expr) -> ExprV
    decreases e,
{
    match e {
        Expr::Array { elems } => ExprV::Array { elems: exprs_view(elems@) },
        Expr::Assign { left, right } => ExprV::Assign {
            left: Box::new(expr_view(*left)),
            right: Box::new(expr_view(*right)),
        },
        Expr::Async { body } => ExprV::Async { body: stmts_view(body@) },
        Expr::Await { base } => ExprV::Await { base: Box::new(expr_view(*base)) },
        Expr::Binary { left, right } => ExprV::Binary {
            left: Box::new(expr_view(*left)),
            right: Box::new(expr_view(*right)),
        },
        Expr::Block { body } => ExprV::Block { body: stmts_view(body@) },
        Expr::Break { value } => ExprV::Break { value: opt_view(value) },
        Expr::Call { func, args } => ExprV::Call {
            func: Box::new(expr_view(*func)),
            args: exprs_view(args@),
        },
        Expr::Cast { base } => ExprV::Cast { base: Box::new(expr_view(*base)) },
        Expr::Closure { params, body } => ExprV::Closure {
            params: pats_view(params@),
            body: Box::new(expr_view(*body)),
        },
        Expr::ConstBlock { body } => ExprV::ConstBlock { body: stmts_view(body@) },
        Expr::Continue => ExprV::Continue,
        Expr::Field { base } => ExprV::Field { base: Box::new(expr_view(*base)) },
        Expr::ForLoop { iter, body } => ExprV::ForLoop {
            iter: Box::new(expr_view(*iter)),
            body: stmts_view(body@),
        },
        Expr::Group { inner } => ExprV::Group { inner: Box::new(expr_view(*inner)) },
        Expr::If { cond, then_body, else_body } => ExprV::If {
            cond: Box::new(expr_view(*cond)),
            then_body: stmts_view(then_body@),
            else_body: opt_view(else_body),
        },
        Expr::Index { base, index } => ExprV::Index {
            base: Box::new(expr_view(*base)),
            index: Box::new(expr_view(*index)),
        },
        Expr::Infer => ExprV::Infer,
        Expr::Let { init } => ExprV::Let { init: Box::new(expr_view(*init)) },
        Expr::Lit => ExprV::Lit,
        Expr::Loop { body } => ExprV::Loop { body: stmts_view(body@) },
        Expr::MacroCall => ExprV::MacroCall,
        Expr::Match { scrutinee, arms } => ExprV::Match {
            scrutinee: Box::new(expr_view(*scrutinee)),
            arms: arms_view(arms@),
        },
        Expr::MethodCall { receiver, method, args } => ExprV::MethodCall {
            receiver: Box::new(expr_view(*receiver)),
            method: method@,
            args: exprs_view(args@),
        },
        Expr::Paren { inner } => ExprV::Paren { inner: Box::new(expr_view(*inner)) },
        Expr::PathRef { name } => ExprV::PathRef { name: name@ },
        Expr::Range { start, end } => ExprV::Range {
            start: opt_view(start),
            end: opt_view(end),
        },
        Expr::RawBorrow { target } => ExprV::RawBorrow { target: Box::new(expr_view(*target)) },
        Expr::Reference { target } => ExprV::Reference { target: Box::new(expr_view(*target)) },
        Expr::Repeat { elem } => ExprV::Repeat { elem: Box::new(expr_view(*elem)) },
        Expr::Return { value } => ExprV::Return { value: opt_view(value) },
        Expr::StructLit { fields, rest } => ExprV::StructLit {
            fields: exprs_view(fields@),
            rest: opt_view(rest),
        },
        Expr::Try { base } => ExprV::Try { base: Box::new(expr_view(*base)) },
        Expr::TryBlock { body } => ExprV::TryBlock { body: stmts_view(body@) },
        Expr::Tuple { elems } => ExprV::Tuple { elems: exprs_view(elems@) },
        Expr::Unary { operand } => ExprV::Unary { operand: Box::new(expr_view(*operand)) },
        Expr::UnsafeBlock { body } => ExprV::UnsafeBlock { body: stmts_view(body@) },
        Expr::Verbatim => ExprV::Verbatim,
        Expr::While { cond, body } => ExprV::While {
            cond: Box::new(expr_view(*cond)),
            body: stmts_view(body@),
        },
        Expr::Yield { value } => ExprV::Yield { value: opt_view(value) },
    }
}

/// The view of an optional boxed expression.
pub open spec fn opt_view(o: Option<Box<Expr>>) -> Option<Box<ExprV>>
    decreases o,
{
    match o {
        Option::Some(b) => Option::Some(Box::new(expr_view(*b))),
        Option::None => Option::None,
    }
}

/// The view of one statement.
pub open spec fn stmt_view(s: Stmt) -> StmtV
    decreases s,
{
    match s {
        Stmt::Local { pat, init } => StmtV::Local { pat: pat_view(pat), init: opt_view(init) },
        Stmt::Item => StmtV::Item,
        Stmt::Expr { expr, semi } => StmtV::Expr { expr: Box::new(expr_view(*expr)), semi },
        Stmt::MacroCall => StmtV::MacroCall,
    }
}

/// The view of one match arm.
pub open spec fn arm_view(a: Arm) -> ArmV
    decreases a,
{
    ArmV { pat: pat_view(a.pat), guard: opt_view(a.guard), body: Box::new(expr_view(*a.body)) }
}

/// The element-wise view of a sequence of expressions.
pub open spec fn exprs_view(es: Seq<Expr>) -> Seq<ExprV>
    decreases es,
{
    if es.len() == 0 {
        Seq::empty()
    } else {
        seq![expr_view(es[0])] + exprs_view(es.drop_first())
    }
}

/// The element-wise view of a sequence of statements.
pub open spec fn stmts_view(ss: Seq<Stmt>) -> Seq<StmtV>
    decreases ss,
{
    if ss.len() == 0 {
        Seq::empty()
    } else {
        seq![stmt_view(ss[0])] + stmts_view(ss.drop_first())
    }
}

/// The element-wise view of a sequence of match arms.
pub open spec fn arms_view(ar: Seq<Arm>) -> Seq<ArmV>
    decreases ar,
{
    if ar.len() == 0 {
        Seq::empty()
    } else {
        seq![arm_view(ar[0])] + arms_view(ar.drop_first())
    }
}

impl View for Expr {
    type V = ExprV;

    open spec fn view(&self) -> ExprV {
        expr_view(*self)
    }
}

impl View for Stmt {
    type V = StmtV;

    open spec fn view(&self) -> StmtV {
        stmt_view(*self)
    }
}

impl View for Arm {
    type V = ArmV;

    open spec fn view(&self) -> ArmV {
        arm_view(*self)
    }
}

/// `exprs_view` is the element-wise image of `expr_view`.
pub proof fn lemma_exprs_view_pointwise(es: Seq<Expr>)
    ensures
        exprs_view(es).len() == es.len(),
        forall|i: int| 0 <= i < es.len() ==> exprs_view(es)[i] == expr_view(#[trigger] es[i]),
    decreases es.len(),
{
    if es.len() > 0 {
        lemma_exprs_view_pointwise(es.drop_first());
        assert forall|i: int| 0 <= i < es.len() implies exprs_view(es)[i] == expr_view(#[trigger] es[i]) by {
            if i > 0 {
                assert(exprs_view(es)[i] == exprs_view(es.drop_first())[i - 1]);
                assert(es.drop_first()[i - 1] == es[i]);
            }
        }
    }
}

/// `stmts_view` is the element-wise image of `stmt_view`.
pub proof fn lemma_stmts_view_pointwise(ss: Seq<Stmt>)
    ensures
        stmts_view(ss).len() == ss.len(),
        forall|i: int| 0 <= i < ss.len() ==> stmts_view(ss)[i] == stmt_view(#[trigger] ss[i]),
    decreases ss.len(),
{
    if ss.len() > 0 {
        lemma_stmts_view_pointwise(ss.drop_first());
        assert forall|i: int| 0 <= i < ss.len() implies stmts_view(ss)[i] == stmt_view(#[trigger] ss[i]) by {
            if i > 0 {
                assert(stmts_view(ss)[i] == stmts_view(ss.drop_first())[i - 1]);
                assert(ss.drop_first()[i - 1] == ss[i]);
            }
        }
    }
}

/// `arms_view` is the element-wise image of `arm_view`.
pub proof fn lemma_arms_view_pointwise(ar: Seq<Arm>)
    ensures
        arms_view(ar).len() == ar.len(),
        forall|i: int| 0 <= i < ar.len() ==> arms_view(ar)[i] == arm_view(#[trigger] ar[i]),
    decreases ar.len(),
{
    if ar.len() > 0 {
        lemma_arms_view_pointwise(ar.drop_first());
        assert forall|i: int| 0 <= i < ar.len() implies arms_view(ar)[i] == arm_view(#[trigger] ar[i]) by {
            if i > 0 {
                assert(arms_view(ar)[i] == arms_view(ar.drop_first())[i - 1]);
                assert(ar.drop_first()[i - 1] == ar[i]);
            }
        }
    }
}

/// `pats_view` is the element-wise image of `pat_view`.
pub proof fn lemma_pats_view_pointwise(ps: Seq<Pat>)
    ensures
        pats_view(ps).len() == ps.len(),
        forall|i: int| 0 <= i < ps.len() ==> pats_view(ps)[i] == pat_view(#[trigger] ps[i]),
    decreases ps.len(),
{
    if ps.len() > 0 {
        lemma_pats_view_pointwise(ps.drop_first());
        assert forall|i: int| 0 <= i < ps.len() implies pats_view(ps)[i] == pat_view(#[trigger] ps[i]) by {
            if i > 0 {
                assert(pats_view(ps)[i] == pats_view(ps.drop_first())[i - 1]);
                assert(ps.drop_first()[i - 1] == ps[i]);
            }
        }
    }
}

} // verus!
