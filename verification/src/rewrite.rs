//! The rewrite, stated as a mathematical function over tree views.
//!
//! A closure triggers when its first parameter is a tuple pattern whose
//! elements are all plain identifiers (at least one).  A triggering closure
//! is replaced, at its position, by a block that binds each captured name to
//! a clone of the enclosing binding of the same name and ends with the
//! closure itself, its first parameter removed and its body rewritten in
//! turn.  Every other node keeps its shape, with the rewrite applied to each
//! sub-expression the grammar reaches.

use vstd::prelude::*;

use crate::ast::ArmV;
use crate::ast::ExprV;
use crate::ast::PatV;
use crate::ast::StmtV;

verus! {

/// A plain identifier binding: no `mut`, and by construction of `PatV`
/// no reference marker, sub-pattern or other qualifier.
pub open spec fn plain_ident(p: PatV) -> bool {
    p matches PatV::Ident { mutable: false, name: _ }
}

/// The elements of a tuple pattern; empty for any other pattern.
pub open spec fn tuple_elems(p: PatV) -> Seq<PatV> {
    match p {
        PatV::Tuple { elems } => elems,
        _ => Seq::empty(),
    }
}

/// The trigger test: a first parameter exists, is a tuple pattern, and
/// every element (at least one) is a plain identifier.
pub open spec fn is_trigger(params: Seq<PatV>) -> bool {
    &&& params.len() > 0
    &&& params[0] is Tuple
    &&& tuple_elems(params[0]).len() > 0
    &&& forall|i: int|
        0 <= i < tuple_elems(params[0]).len() ==> plain_ident(#[trigger] tuple_elems(params[0])[i])
}

/// The name under an identifier pattern; empty for any other pattern.
pub open spec fn ident_name(p: PatV) -> Seq<char> {
    match p {
        PatV::Ident { mutable: _, name } => name,
        _ => Seq::empty(),
    }
}

/// The captured names, in the left-to-right order of the trigger tuple.
pub open spec fn capture_names(params: Seq<PatV>) -> Seq<Seq<char>> {
    tuple_elems(params[0]).map_values(|p: PatV| ident_name(p))
}

/// One synthesized clone binding: `let mut name = name.clone();` — a
/// mutable identifier pattern of the captured name, initialized by calling
/// the clone operation on a path reference to the enclosing binding of the
/// same name.
pub open spec fn clone_binding(name: Seq<char>) -> StmtV {
    StmtV::Local {
        pat: PatV::Ident { mutable: true, name },
        init: Option::Some(
            Box::new(
                ExprV::MethodCall {
                    receiver: Box::new(ExprV::PathRef { name }),
                    method: "clone"@,
                    args: Seq::empty(),
                },
            ),
        ),
    }
}

/// The synthesized clone bindings, one per captured name, in order.
pub open spec fn clone_bindings(names: Seq<Seq<char>>) -> Seq<StmtV> {
    names.map_values(|n: Seq<char>| clone_binding(n))
}

/// The rewrite of one expression.
pub open spec fn rewrite_expr(e: ExprV) -> ExprV
    decreases e,
{
    match e {
        ExprV::Array { elems } => ExprV::Array { elems: rewrite_exprs(elems) },
        ExprV::Assign { left, right } => ExprV::Assign {
            left: Box::new(rewrite_expr(*left)),
            right: Box::new(rewrite_expr(*right)),
        },
        ExprV::Async { body } => ExprV::Async { body: rewrite_stmts(body) },
        ExprV::Await { base } => ExprV::Await { base: Box::new(rewrite_expr(*base)) },
        ExprV::Binary { left, right } => ExprV::Binary {
            left: Box::new(rewrite_expr(*left)),
            right: Box::new(rewrite_expr(*right)),
        },
        ExprV::Block { body } => ExprV::Block { body: rewrite_stmts(body) },
        ExprV::Break { value } => ExprV::Break { value: rewrite_opt(value) },
        ExprV::Call { func, args } => ExprV::Call {
            func: Box::new(rewrite_expr(*func)),
            args: rewrite_exprs(args),
        },
        ExprV::Cast { base } => ExprV::Cast { base: Box::new(rewrite_expr(*base)) },
        ExprV::Closure { params, body } => if is_trigger(params) {
            ExprV::Block {
                body: clone_bindings(capture_names(params)).push(
                    StmtV::Expr {
                        expr: Box::new(
                            ExprV::Closure {
                                params: params.drop_first(),
                                body: Box::new(rewrite_expr(*body)),
                            },
                        ),
                        semi: false,
                    },
                ),
            }
        } else {
            ExprV::Closure { params, body: Box::new(rewrite_expr(*body)) }
        },
        ExprV::ConstBlock { body } => ExprV::ConstBlock { body: rewrite_stmts(body) },
        ExprV::Continue => ExprV::Continue,
        ExprV::Field { base } => ExprV::Field { base: Box::new(rewrite_expr(*base)) },
        ExprV::ForLoop { iter, body } => ExprV::ForLoop {
            iter: Box::new(rewrite_expr(*iter)),
            body: rewrite_stmts(body),
        },
        ExprV::Group { inner } => ExprV::Group { inner: Box::new(rewrite_expr(*inner)) },
        ExprV::If { cond, then_body, else_body } => ExprV::If {
            cond: Box::new(rewrite_expr(*cond)),
            then_body: rewrite_stmts(then_body),
            else_body: rewrite_opt(else_body),
        },
        ExprV::Index { base, index } => ExprV::Index {
            base: Box::new(rewrite_expr(*base)),
            index: Box::new(rewrite_expr(*index)),
        },
        ExprV::Infer => ExprV::Infer,
        ExprV::Let { init } => ExprV::Let { init: Box::new(rewrite_expr(*init)) },
        ExprV::Lit => ExprV::Lit,
        ExprV::Loop { body } => ExprV::Loop { body: rewrite_stmts(body) },
        ExprV::MacroCall => ExprV::MacroCall,
        ExprV::Match { scrutinee, arms } => ExprV::Match {
            scrutinee: Box::new(rewrite_expr(*scrutinee)),
            arms: rewrite_arms(arms),
        },
        ExprV::MethodCall { receiver, method, args } => ExprV::MethodCall {
            receiver: Box::new(rewrite_expr(*receiver)),
            method,
            args: rewrite_exprs(args),
        },
        ExprV::Paren { inner } => ExprV::Paren { inner: Box::new(rewrite_expr(*inner)) },
        ExprV::PathRef { name } => ExprV::PathRef { name },
        ExprV::Range { start, end } => ExprV::Range {
            start: rewrite_opt(start),
            end: rewrite_opt(end),
        },
        ExprV::RawBorrow { target } => ExprV::RawBorrow { target: Box::new(rewrite_expr(*target)) },
        ExprV::Reference { target } => ExprV::Reference { target: Box::new(rewrite_expr(*target)) },
        ExprV::Repeat { elem } => ExprV::Repeat { elem: Box::new(rewrite_expr(*elem)) },
        ExprV::Return { value } => ExprV::Return { value: rewrite_opt(value) },
        ExprV::StructLit { fields, rest } => ExprV::StructLit {
            fields: rewrite_exprs(fields),
            rest: rewrite_opt(rest),
        },
        ExprV::Try { base } => ExprV::Try { base: Box::new(rewrite_expr(*base)) },
        ExprV::TryBlock { body } => ExprV::TryBlock { body: rewrite_stmts(body) },
        ExprV::Tuple { elems } => ExprV::Tuple { elems: rewrite_exprs(elems) },
        ExprV::Unary { operand } => ExprV::Unary { operand: Box::new(rewrite_expr(*operand)) },
        ExprV::UnsafeBlock { body } => ExprV::UnsafeBlock { body: rewrite_stmts(body) },
        ExprV::Verbatim => ExprV::Verbatim,
        ExprV::While { cond, body } => ExprV::While {
            cond: Box::new(rewrite_expr(*cond)),
            body: rewrite_stmts(body),
        },
        ExprV::Yield { value } => ExprV::Yield { value: rewrite_opt(value) },
    }
}

/// The rewrite of an optional expression.
pub open spec fn rewrite_opt(o: Option<Box<ExprV>>) -> Option<Box<ExprV>>
    decreases o,
{
    match o {
        Option::Some(b) => Option::Some(Box::new(rewrite_expr(*b))),
        Option::None => Option::None,
    }
}

/// The rewrite of one statement.  Item declarations and macro-invocation
/// statements are opaque: the rewrite never descends into them.
pub open spec fn rewrite_stmt(s: StmtV) -> StmtV
    decreases s,
{
    match s {
        StmtV::Local { pat, init } => StmtV::Local { pat, init: rewrite_opt(init) },
        StmtV::Item => StmtV::Item,
        StmtV::Expr { expr, semi } => StmtV::Expr { expr: Box::new(rewrite_expr(*expr)), semi },
        StmtV::MacroCall => StmtV::MacroCall,
    }
}

/// The rewrite of one match arm: its guard and body; the arm's own
/// pattern is never touched.
pub open spec fn rewrite_arm(a: ArmV) -> ArmV
    decreases a,
{
    ArmV { pat: a.pat, guard: rewrite_opt(a.guard), body: Box::new(rewrite_expr(*a.body)) }
}

/// The element-wise rewrite of a sequence of expressions.
pub open spec fn rewrite_exprs(es: Seq<ExprV>) -> Seq<ExprV>
    decreases es,
{
    if es.len() == 0 {
        Seq::empty()
    } else {
        seq![rewrite_expr(es[0])] + rewrite_exprs(es.drop_first())
    }
}

/// The element-wise rewrite of a sequence of statements.  This is also the
/// whole transformation of a function body: each top-level statement in
/// order, no filtering, no early exit.
pub open spec fn rewrite_stmts(ss: Seq<StmtV>) -> Seq<StmtV>
    decreases ss,
{
    if ss.len() == 0 {
        Seq::empty()
    } else {
        seq![rewrite_stmt(ss[0])] + rewrite_stmts(ss.drop_first())
    }
}

/// The element-wise rewrite of a sequence of match arms.
pub open spec fn rewrite_arms(ar: Seq<ArmV>) -> Seq<ArmV>
    decreases ar,
{
    if ar.len() == 0 {
        Seq::empty()
    } else {
        seq![rewrite_arm(ar[0])] + rewrite_arms(ar.drop_first())
    }
}

/// `rewrite_exprs` is the element-wise image of `rewrite_expr`.
pub proof fn lemma_rewrite_exprs_pointwise(es: Seq<ExprV>)
    ensures
        rewrite_exprs(es).len() == es.len(),
        forall|i: int| 0 <= i < es.len() ==> rewrite_exprs(es)[i] == rewrite_expr(#[trigger] es[i]),
    decreases es.len(),
{
    if es.len() > 0 {
        lemma_rewrite_exprs_pointwise(es.drop_first());
        assert forall|i: int|
            0 <= i < es.len() implies rewrite_exprs(es)[i] == rewrite_expr(#[trigger] es[i]) by {
            if i > 0 {
                assert(rewrite_exprs(es)[i] == rewrite_exprs(es.drop_first())[i - 1]);
                assert(es.drop_first()[i - 1] == es[i]);
            }
        }
    }
}

/// `rewrite_stmts` is the element-wise image of `rewrite_stmt`: statement
/// count and order are preserved, and each statement is rewritten at its
/// own position.
pub proof fn lemma_rewrite_stmts_pointwise(ss: Seq<StmtV>)
    ensures
        rewrite_stmts(ss).len() == ss.len(),
        forall|i: int| 0 <= i < ss.len() ==> rewrite_stmts(ss)[i] == rewrite_stmt(#[trigger] ss[i]),
    decreases ss.len(),
{
    if ss.len() > 0 {
        lemma_rewrite_stmts_pointwise(ss.drop_first());
        assert forall|i: int|
            0 <= i < ss.len() implies rewrite_stmts(ss)[i] == rewrite_stmt(#[trigger] ss[i]) by {
            if i > 0 {
                assert(rewrite_stmts(ss)[i] == rewrite_stmts(ss.drop_first())[i - 1]);
                assert(ss.drop_first()[i - 1] == ss[i]);
            }
        }
    }
}

/// `rewrite_arms` is the element-wise image of `rewrite_arm`.
pub proof fn lemma_rewrite_arms_pointwise(ar: Seq<ArmV>)
    ensures
        rewrite_arms(ar).len() == ar.len(),
        forall|i: int| 0 <= i < ar.len() ==> rewrite_arms(ar)[i] == rewrite_arm(#[trigger] ar[i]),
    decreases ar.len(),
{
    if ar.len() > 0 {
        lemma_rewrite_arms_pointwise(ar.drop_first());
        assert forall|i: int|
            0 <= i < ar.len() implies rewrite_arms(ar)[i] == rewrite_arm(#[trigger] ar[i]) by {
            if i > 0 {
                assert(rewrite_arms(ar)[i] == rewrite_arms(ar.drop_first())[i - 1]);
                assert(ar.drop_first()[i - 1] == ar[i]);
            }
        }
    }
}

} // verus!
