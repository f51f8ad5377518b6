//! General properties of the rewrite, stated and proved over the tree views.
//!
//! `cleared` says that a tree holds no closure whose first parameter is a
//! trigger pattern; `idem_safe` says that no triggering closure exposes a
//! second parameter that is itself a trigger pattern once the first is
//! removed.  From these follow: the rewrite is the identity on cleared
//! trees, it clears every `idem_safe` tree, and hence re-applying it to a
//! rewritten `idem_safe` tree changes nothing.

use vstd::prelude::*;

use crate::ast::ArmV;
use crate::ast::ExprV;
use crate::ast::StmtV;
use crate::rewrite::capture_names;
use crate::rewrite::clone_binding;
use crate::rewrite::clone_bindings;
use crate::rewrite::is_trigger;
use crate::rewrite::tuple_elems;
use crate::rewrite::rewrite_arm;
use crate::rewrite::rewrite_arms;
use crate::rewrite::rewrite_expr;
use crate::rewrite::rewrite_exprs;
use crate::rewrite::rewrite_opt;
use crate::rewrite::rewrite_stmt;
use crate::rewrite::rewrite_stmts;
use crate::rewrite::lemma_rewrite_arms_pointwise;
use crate::rewrite::lemma_rewrite_exprs_pointwise;
use crate::rewrite::lemma_rewrite_stmts_pointwise;

verus! {

/// No closure anywhere in `e` has a trigger pattern as its first
/// parameter.
pub open spec fn cleared_expr(e: ExprV) -> bool
    decreases e,
{
    match e {
        ExprV::Array { elems } => cleared_exprs(elems),
        ExprV::Assign { left, right } => cleared_expr(*left) && cleared_expr(*right),
        ExprV::Async { body } => cleared_stmts(body),
        ExprV::Await { base } => cleared_expr(*base),
        ExprV::Binary { left, right } => cleared_expr(*left) && cleared_expr(*right),
        ExprV::Block { body } => cleared_stmts(body),
        ExprV::Break { value } => cleared_opt(value),
        ExprV::Call { func, args } => cleared_expr(*func) && cleared_exprs(args),
        ExprV::Cast { base } => cleared_expr(*base),
        ExprV::Closure { params, body } => !is_trigger(params) && cleared_expr(*body),
        ExprV::ConstBlock { body } => cleared_stmts(body),
        ExprV::Continue => true,
        ExprV::Field { base } => cleared_expr(*base),
        ExprV::ForLoop { iter, body } => cleared_expr(*iter) && cleared_stmts(body),
        ExprV::Group { inner } => cleared_expr(*inner),
        ExprV::If { cond, then_body, else_body } => cleared_expr(*cond) && cleared_stmts(then_body)
            && cleared_opt(else_body),
        ExprV::Index { base, index } => cleared_expr(*base) && cleared_expr(*index),
        ExprV::Infer => true,
        ExprV::Let { init } => cleared_expr(*init),
        ExprV::Lit => true,
        ExprV::Loop { body } => cleared_stmts(body),
        ExprV::MacroCall => true,
        ExprV::Match { scrutinee, arms } => cleared_expr(*scrutinee) && cleared_arms(arms),
        ExprV::MethodCall { receiver, method: _, args } => cleared_expr(*receiver) && cleared_exprs(
            args,
        ),
        ExprV::Paren { inner } => cleared_expr(*inner),
        ExprV::PathRef { name: _ } => true,
        ExprV::Range { start, end } => cleared_opt(start) && cleared_opt(end),
        ExprV::RawBorrow { target } => cleared_expr(*target),
        ExprV::Reference { target } => cleared_expr(*target),
        ExprV::Repeat { elem } => cleared_expr(*elem),
        ExprV::Return { value } => cleared_opt(value),
        ExprV::StructLit { fields, rest } => cleared_exprs(fields) && cleared_opt(rest),
        ExprV::Try { base } => cleared_expr(*base),
        ExprV::TryBlock { body } => cleared_stmts(body),
        ExprV::Tuple { elems } => cleared_exprs(elems),
        ExprV::Unary { operand } => cleared_expr(*operand),
        ExprV::UnsafeBlock { body } => cleared_stmts(body),
        ExprV::Verbatim => true,
        ExprV::While { cond, body } => cleared_expr(*cond) && cleared_stmts(body),
        ExprV::Yield { value } => cleared_opt(value),
    }
}

/// `cleared_expr` under an optional expression.
pub open spec fn cleared_opt(o: Option<Box<ExprV>>) -> bool
    decreases o,
{
    match o {
        Option::Some(b) => cleared_expr(*b),
        Option::None => true,
    }
}

/// `cleared_expr` for every expression a statement holds.
pub open spec fn cleared_stmt(s: StmtV) -> bool
    decreases s,
{
    match s {
        StmtV::Local { pat: _, init } => cleared_opt(init),
        StmtV::Item => true,
        StmtV::Expr { expr, semi: _ } => cleared_expr(*expr),
        StmtV::MacroCall => true,
    }
}

/// `cleared_expr` for an arm's guard and body.
pub open spec fn cleared_arm(a: ArmV) -> bool
    decreases a,
{
    cleared_opt(a.guard) && cleared_expr(*a.body)
}

/// Every expression of the sequence is cleared.
pub open spec fn cleared_exprs(es: Seq<ExprV>) -> bool
    decreases es,
{
    forall|i: int| 0 <= i < es.len() ==> cleared_expr(#[trigger] es[i])
}

/// Every statement of the sequence is cleared.
pub open spec fn cleared_stmts(ss: Seq<StmtV>) -> bool
    decreases ss,
{
    forall|i: int| 0 <= i < ss.len() ==> cleared_stmt(#[trigger] ss[i])
}

/// Every arm of the sequence is cleared.
pub open spec fn cleared_arms(ar: Seq<ArmV>) -> bool
    decreases ar,
{
    forall|i: int| 0 <= i < ar.len() ==> cleared_arm(#[trigger] ar[i])
}

/// No triggering closure in `e` has a second parameter that is itself a
/// trigger pattern: removing the first parameter then leaves no new
/// trigger behind.
pub open spec fn idem_safe_expr(e: ExprV) -> bool
    decreases e,
{
    match e {
        ExprV::Array { elems } => idem_safe_exprs(elems),
        ExprV::Assign { left, right } => idem_safe_expr(*left) && idem_safe_expr(*right),
        ExprV::Async { body } => idem_safe_stmts(body),
        ExprV::Await { base } => idem_safe_expr(*base),
        ExprV::Binary { left, right } => idem_safe_expr(*left) && idem_safe_expr(*right),
        ExprV::Block { body } => idem_safe_stmts(body),
        ExprV::Break { value } => idem_safe_opt(value),
        ExprV::Call { func, args } => idem_safe_expr(*func) && idem_safe_exprs(args),
        ExprV::Cast { base } => idem_safe_expr(*base),
        ExprV::Closure { params, body } => (is_trigger(params) ==> !is_trigger(
            params.drop_first(),
        )) && idem_safe_expr(*body),
        ExprV::ConstBlock { body } => idem_safe_stmts(body),
        ExprV::Continue => true,
        ExprV::Field { base } => idem_safe_expr(*base),
        ExprV::ForLoop { iter, body } => idem_safe_expr(*iter) && idem_safe_stmts(body),
        ExprV::Group { inner } => idem_safe_expr(*inner),
        ExprV::If { cond, then_body, else_body } => idem_safe_expr(*cond) && idem_safe_stmts(
            then_body,
        ) && idem_safe_opt(else_body),
        ExprV::Index { base, index } => idem_safe_expr(*base) && idem_safe_expr(*index),
        ExprV::Infer => true,
        ExprV::Let { init } => idem_safe_expr(*init),
        ExprV::Lit => true,
        ExprV::Loop { body } => idem_safe_stmts(body),
        ExprV::MacroCall => true,
        ExprV::Match { scrutinee, arms } => idem_safe_expr(*scrutinee) && idem_safe_arms(arms),
        ExprV::MethodCall { receiver, method: _, args } => idem_safe_expr(*receiver)
            && idem_safe_exprs(args),
        ExprV::Paren { inner } => idem_safe_expr(*inner),
        ExprV::PathRef { name: _ } => true,
        ExprV::Range { start, end } => idem_safe_opt(start) && idem_safe_opt(end),
        ExprV::RawBorrow { target } => idem_safe_expr(*target),
        ExprV::Reference { target } => idem_safe_expr(*target),
        ExprV::Repeat { elem } => idem_safe_expr(*elem),
        ExprV::Return { value } => idem_safe_opt(value),
        ExprV::StructLit { fields, rest } => idem_safe_exprs(fields) && idem_safe_opt(rest),
        ExprV::Try { base } => idem_safe_expr(*base),
        ExprV::TryBlock { body } => idem_safe_stmts(body),
        ExprV::Tuple { elems } => idem_safe_exprs(elems),
        ExprV::Unary { operand } => idem_safe_expr(*operand),
        ExprV::UnsafeBlock { body } => idem_safe_stmts(body),
        ExprV::Verbatim => true,
        ExprV::While { cond, body } => idem_safe_expr(*cond) && idem_safe_stmts(body),
        ExprV::Yield { value } => idem_safe_opt(value),
    }
}

/// `idem_safe_expr` under an optional expression.
pub open spec fn idem_safe_opt(o: Option<Box<ExprV>>) -> bool
    decreases o,
{
    match o {
        Option::Some(b) => idem_safe_expr(*b),
        Option::None => true,
    }
}

/// `idem_safe_expr` for every expression a statement holds.
pub open spec fn idem_safe_stmt(s: StmtV) -> bool
    decreases s,
{
    match s {
        StmtV::Local { pat: _, init } => idem_safe_opt(init),
        StmtV::Item => true,
        StmtV::Expr { expr, semi: _ } => idem_safe_expr(*expr),
        StmtV::MacroCall => true,
    }
}

/// `idem_safe_expr` for an arm's guard and body.
pub open spec fn idem_safe_arm(a: ArmV) -> bool
    decreases a,
{
    idem_safe_opt(a.guard) && idem_safe_expr(*a.body)
}

/// Every expression of the sequence is `idem_safe`.
pub open spec fn idem_safe_exprs(es: Seq<ExprV>) -> bool
    decreases es,
{
    forall|i: int| 0 <= i < es.len() ==> idem_safe_expr(#[trigger] es[i])
}

/// Every statement of the sequence is `idem_safe`.
pub open spec fn idem_safe_stmts(ss: Seq<StmtV>) -> bool
    decreases ss,
{
    forall|i: int| 0 <= i < ss.len() ==> idem_safe_stmt(#[trigger] ss[i])
}

/// Every arm of the sequence is `idem_safe`.
pub open spec fn idem_safe_arms(ar: Seq<ArmV>) -> bool
    decreases ar,
{
    forall|i: int| 0 <= i < ar.len() ==> idem_safe_arm(#[trigger] ar[i])
}

/// A triggering closure rewrites to a block of exactly one clone binding
/// per captured name, in the left-to-right order of the trigger tuple,
/// ended by the closure itself with its first parameter removed and its
/// body rewritten independently in turn — so closures nested inside the
/// body are themselves rewritten, at any depth.
pub proof fn lemma_triggered_closure(params: Seq<crate::ast::PatV>, body: ExprV)
    requires
        is_trigger(params),
    ensures
        rewrite_expr(ExprV::Closure { params, body: Box::new(body) }) matches ExprV::Block {
            body: ss,
        } && {
            let names = capture_names(params);
            &&& names.len() == tuple_elems(params[0]).len()
            &&& ss.len() == names.len() + 1
            &&& forall|i: int| 0 <= i < names.len() ==> ss[i] == clone_binding(#[trigger] names[i])
            &&& ss.last() == StmtV::Expr {
                expr: Box::new(
                    ExprV::Closure {
                        params: params.drop_first(),
                        body: Box::new(rewrite_expr(body)),
                    },
                ),
                semi: false,
            }
            &&& params.drop_first().len() == params.len() - 1
        },
{
}

/// A closure that does not trigger keeps its parameters and its position;
/// only its body is traversed and rewritten.
pub proof fn lemma_untriggered_closure(params: Seq<crate::ast::PatV>, body: ExprV)
    requires
        !is_trigger(params),
    ensures
        rewrite_expr(ExprV::Closure { params, body: Box::new(body) }) == (ExprV::Closure {
            params,
            body: Box::new(rewrite_expr(body)),
        }),
{
}

/// Each synthesized clone binding is itself free of closures.
proof fn lemma_clone_binding_cleared(name: Seq<char>)
    ensures
        cleared_stmt(clone_binding(name)),
{
    let rcv = ExprV::PathRef { name };
    assert(cleared_expr(rcv));
    assert(cleared_exprs(Seq::<ExprV>::empty()));
    let call = ExprV::MethodCall {
        receiver: Box::new(rcv),
        method: "clone"@,
        args: Seq::empty(),
    };
    assert(cleared_expr(call));
    assert(cleared_stmt(clone_binding(name)));
}

/// On a cleared expression the rewrite is the identity.
pub proof fn lemma_cleared_noop_expr(e: ExprV)
    requires
        cleared_expr(e),
    ensures
        rewrite_expr(e) == e,
    decreases e,
{
    match e {
        ExprV::Array { elems } => lemma_cleared_noop_exprs(elems),
        ExprV::Assign { left, right } => {
            lemma_cleared_noop_expr(*left);
            lemma_cleared_noop_expr(*right);
        },
        ExprV::Async { body } => lemma_cleared_noop_stmts(body),
        ExprV::Await { base } => lemma_cleared_noop_expr(*base),
        ExprV::Binary { left, right } => {
            lemma_cleared_noop_expr(*left);
            lemma_cleared_noop_expr(*right);
        },
        ExprV::Block { body } => lemma_cleared_noop_stmts(body),
        ExprV::Break { value } => lemma_cleared_noop_opt(value),
        ExprV::Call { func, args } => {
            lemma_cleared_noop_expr(*func);
            lemma_cleared_noop_exprs(args);
        },
        ExprV::Cast { base } => lemma_cleared_noop_expr(*base),
        ExprV::Closure { params: _, body } => lemma_cleared_noop_expr(*body),
        ExprV::ConstBlock { body } => lemma_cleared_noop_stmts(body),
        ExprV::Continue => {},
        ExprV::Field { base } => lemma_cleared_noop_expr(*base),
        ExprV::ForLoop { iter, body } => {
            lemma_cleared_noop_expr(*iter);
            lemma_cleared_noop_stmts(body);
        },
        ExprV::Group { inner } => lemma_cleared_noop_expr(*inner),
        ExprV::If { cond, then_body, else_body } => {
            lemma_cleared_noop_expr(*cond);
            lemma_cleared_noop_stmts(then_body);
            lemma_cleared_noop_opt(else_body);
        },
        ExprV::Index { base, index } => {
            lemma_cleared_noop_expr(*base);
            lemma_cleared_noop_expr(*index);
        },
        ExprV::Infer => {},
        ExprV::Let { init } => lemma_cleared_noop_expr(*init),
        ExprV::Lit => {},
        ExprV::Loop { body } => lemma_cleared_noop_stmts(body),
        ExprV::MacroCall => {},
        ExprV::Match { scrutinee, arms } => {
            lemma_cleared_noop_expr(*scrutinee);
            lemma_cleared_noop_arms(arms);
        },
        ExprV::MethodCall { receiver, method: _, args } => {
            lemma_cleared_noop_expr(*receiver);
            lemma_cleared_noop_exprs(args);
        },
        ExprV::Paren { inner } => lemma_cleared_noop_expr(*inner),
        ExprV::PathRef { name: _ } => {},
        ExprV::Range { start, end } => {
            lemma_cleared_noop_opt(start);
            lemma_cleared_noop_opt(end);
        },
        ExprV::RawBorrow { target } => lemma_cleared_noop_expr(*target),
        ExprV::Reference { target } => lemma_cleared_noop_expr(*target),
        ExprV::Repeat { elem } => lemma_cleared_noop_expr(*elem),
        ExprV::Return { value } => lemma_cleared_noop_opt(value),
        ExprV::StructLit { fields, rest } => {
            lemma_cleared_noop_exprs(fields);
            lemma_cleared_noop_opt(rest);
        },
        ExprV::Try { base } => lemma_cleared_noop_expr(*base),
        ExprV::TryBlock { body } => lemma_cleared_noop_stmts(body),
        ExprV::Tuple { elems } => lemma_cleared_noop_exprs(elems),
        ExprV::Unary { operand } => lemma_cleared_noop_expr(*operand),
        ExprV::UnsafeBlock { body } => lemma_cleared_noop_stmts(body),
        ExprV::Verbatim => {},
        ExprV::While { cond, body } => {
            lemma_cleared_noop_expr(*cond);
            lemma_cleared_noop_stmts(body);
        },
        ExprV::Yield { value } => lemma_cleared_noop_opt(value),
    }
}

/// On a cleared optional expression the rewrite is the identity.
pub proof fn lemma_cleared_noop_opt(o: Option<Box<ExprV>>)
    requires
        cleared_opt(o),
    ensures
        rewrite_opt(o) == o,
    decreases o,
{
    match o {
        Option::Some(b) => lemma_cleared_noop_expr(*b),
        Option::None => {},
    }
}

/// On a cleared statement the rewrite is the identity: statements outside
/// any rewritten closure are preserved exactly.
pub proof fn lemma_cleared_noop_stmt(s: StmtV)
    requires
        cleared_stmt(s),
    ensures
        rewrite_stmt(s) == s,
    decreases s,
{
    match s {
        StmtV::Local { pat: _, init } => lemma_cleared_noop_opt(init),
        StmtV::Item => {},
        StmtV::Expr { expr, semi: _ } => lemma_cleared_noop_expr(*expr),
        StmtV::MacroCall => {},
    }
}

/// On a cleared arm the rewrite is the identity.
pub proof fn lemma_cleared_noop_arm(a: ArmV)
    requires
        cleared_arm(a),
    ensures
        rewrite_arm(a) == a,
    decreases a,
{
    lemma_cleared_noop_opt(a.guard);
    lemma_cleared_noop_expr(*a.body);
}

/// On a cleared expression sequence the rewrite is the identity.
pub proof fn lemma_cleared_noop_exprs(es: Seq<ExprV>)
    requires
        cleared_exprs(es),
    ensures
        rewrite_exprs(es) == es,
    decreases es,
{
    lemma_rewrite_exprs_pointwise(es);
    assert forall|i: int| 0 <= i < es.len() implies rewrite_exprs(es)[i] == es[i] by {
        lemma_cleared_noop_expr(es[i]);
    }
    assert(rewrite_exprs(es) =~= es);
}

/// On a cleared statement sequence the rewrite is the identity.
pub proof fn lemma_cleared_noop_stmts(ss: Seq<StmtV>)
    requires
        cleared_stmts(ss),
    ensures
        rewrite_stmts(ss) == ss,
    decreases ss,
{
    lemma_rewrite_stmts_pointwise(ss);
    assert forall|i: int| 0 <= i < ss.len() implies rewrite_stmts(ss)[i] == ss[i] by {
        lemma_cleared_noop_stmt(ss[i]);
    }
    assert(rewrite_stmts(ss) =~= ss);
}

/// On a cleared arm sequence the rewrite is the identity.
pub proof fn lemma_cleared_noop_arms(ar: Seq<ArmV>)
    requires
        cleared_arms(ar),
    ensures
        rewrite_arms(ar) == ar,
    decreases ar,
{
    lemma_rewrite_arms_pointwise(ar);
    assert forall|i: int| 0 <= i < ar.len() implies rewrite_arms(ar)[i] == ar[i] by {
        lemma_cleared_noop_arm(ar[i]);
    }
    assert(rewrite_arms(ar) =~= ar);
}

/// The rewrite of an `idem_safe` expression is cleared: after one pass no
/// trigger pattern is left.
pub proof fn lemma_rewrite_clears_expr(e: ExprV)
    requires
        idem_safe_expr(e),
    ensures
        cleared_expr(rewrite_expr(e)),
    decreases e,
{
    match e {
        ExprV::Array { elems } => lemma_rewrite_clears_exprs(elems),
        ExprV::Assign { left, right } => {
            lemma_rewrite_clears_expr(*left);
            lemma_rewrite_clears_expr(*right);
        },
        ExprV::Async { body } => lemma_rewrite_clears_stmts(body),
        ExprV::Await { base } => lemma_rewrite_clears_expr(*base),
        ExprV::Binary { left, right } => {
            lemma_rewrite_clears_expr(*left);
            lemma_rewrite_clears_expr(*right);
        },
        ExprV::Block { body } => lemma_rewrite_clears_stmts(body),
        ExprV::Break { value } => lemma_rewrite_clears_opt(value),
        ExprV::Call { func, args } => {
            lemma_rewrite_clears_expr(*func);
            lemma_rewrite_clears_exprs(args);
        },
        ExprV::Cast { base } => lemma_rewrite_clears_expr(*base),
        ExprV::Closure { params, body } => {
            lemma_rewrite_clears_expr(*body);
            if is_trigger(params) {
                let names = capture_names(params);
                let ss = clone_bindings(names).push(
                    StmtV::Expr {
                        expr: Box::new(
                            ExprV::Closure {
                                params: params.drop_first(),
                                body: Box::new(rewrite_expr(*body)),
                            },
                        ),
                        semi: false,
                    },
                );
                let tail = StmtV::Expr {
                    expr: Box::new(
                        ExprV::Closure {
                            params: params.drop_first(),
                            body: Box::new(rewrite_expr(*body)),
                        },
                    ),
                    semi: false,
                };
                assert forall|i: int| 0 <= i < ss.len() implies cleared_stmt(#[trigger] ss[i]) by {
                    if i < names.len() {
                        assert(ss[i] == clone_binding(names[i]));
                        lemma_clone_binding_cleared(names[i]);
                    } else {
                        assert(ss[i] == tail);
                        assert(cleared_expr(
                            ExprV::Closure {
                                params: params.drop_first(),
                                body: Box::new(rewrite_expr(*body)),
                            },
                        ));
                        assert(cleared_stmt(tail));
                    }
                }
                assert(rewrite_expr(e) == ExprV::Block { body: ss });
                assert(cleared_stmts(ss));
            }
        },
        ExprV::ConstBlock { body } => lemma_rewrite_clears_stmts(body),
        ExprV::Continue => {},
        ExprV::Field { base } => lemma_rewrite_clears_expr(*base),
        ExprV::ForLoop { iter, body } => {
            lemma_rewrite_clears_expr(*iter);
            lemma_rewrite_clears_stmts(body);
        },
        ExprV::Group { inner } => lemma_rewrite_clears_expr(*inner),
        ExprV::If { cond, then_body, else_body } => {
            lemma_rewrite_clears_expr(*cond);
            lemma_rewrite_clears_stmts(then_body);
            lemma_rewrite_clears_opt(else_body);
        },
        ExprV::Index { base, index } => {
            lemma_rewrite_clears_expr(*base);
            lemma_rewrite_clears_expr(*index);
        },
        ExprV::Infer => {},
        ExprV::Let { init } => lemma_rewrite_clears_expr(*init),
        ExprV::Lit => {},
        ExprV::Loop { body } => lemma_rewrite_clears_stmts(body),
        ExprV::MacroCall => {},
        ExprV::Match { scrutinee, arms } => {
            lemma_rewrite_clears_expr(*scrutinee);
            lemma_rewrite_clears_arms(arms);
        },
        ExprV::MethodCall { receiver, method: _, args } => {
            lemma_rewrite_clears_expr(*receiver);
            lemma_rewrite_clears_exprs(args);
        },
        ExprV::Paren { inner } => lemma_rewrite_clears_expr(*inner),
        ExprV::PathRef { name: _ } => {},
        ExprV::Range { start, end } => {
            lemma_rewrite_clears_opt(start);
            lemma_rewrite_clears_opt(end);
        },
        ExprV::RawBorrow { target } => lemma_rewrite_clears_expr(*target),
        ExprV::Reference { target } => lemma_rewrite_clears_expr(*target),
        ExprV::Repeat { elem } => lemma_rewrite_clears_expr(*elem),
        ExprV::Return { value } => lemma_rewrite_clears_opt(value),
        ExprV::StructLit { fields, rest } => {
            lemma_rewrite_clears_exprs(fields);
            lemma_rewrite_clears_opt(rest);
        },
        ExprV::Try { base } => lemma_rewrite_clears_expr(*base),
        ExprV::TryBlock { body } => lemma_rewrite_clears_stmts(body),
        ExprV::Tuple { elems } => lemma_rewrite_clears_exprs(elems),
        ExprV::Unary { operand } => lemma_rewrite_clears_expr(*operand),
        ExprV::UnsafeBlock { body } => lemma_rewrite_clears_stmts(body),
        ExprV::Verbatim => {},
        ExprV::While { cond, body } => {
            lemma_rewrite_clears_expr(*cond);
            lemma_rewrite_clears_stmts(body);
        },
        ExprV::Yield { value } => lemma_rewrite_clears_opt(value),
    }
}

/// The rewrite of an `idem_safe` optional expression is cleared.
pub proof fn lemma_rewrite_clears_opt(o: Option<Box<ExprV>>)
    requires
        idem_safe_opt(o),
    ensures
        cleared_opt(rewrite_opt(o)),
    decreases o,
{
    match o {
        Option::Some(b) => lemma_rewrite_clears_expr(*b),
        Option::None => {},
    }
}

/// The rewrite of an `idem_safe` statement is cleared.
pub proof fn lemma_rewrite_clears_stmt(s: StmtV)
    requires
        idem_safe_stmt(s),
    ensures
        cleared_stmt(rewrite_stmt(s)),
    decreases s,
{
    match s {
        StmtV::Local { pat: _, init } => lemma_rewrite_clears_opt(init),
        StmtV::Item => {},
        StmtV::Expr { expr, semi: _ } => lemma_rewrite_clears_expr(*expr),
        StmtV::MacroCall => {},
    }
}

/// The rewrite of an `idem_safe` arm is cleared.
pub proof fn lemma_rewrite_clears_arm(a: ArmV)
    requires
        idem_safe_arm(a),
    ensures
        cleared_arm(rewrite_arm(a)),
    decreases a,
{
    lemma_rewrite_clears_opt(a.guard);
    lemma_rewrite_clears_expr(*a.body);
}

/// The rewrite of an `idem_safe` expression sequence is cleared.
pub proof fn lemma_rewrite_clears_exprs(es: Seq<ExprV>)
    requires
        idem_safe_exprs(es),
    ensures
        cleared_exprs(rewrite_exprs(es)),
    decreases es,
{
    lemma_rewrite_exprs_pointwise(es);
    assert forall|i: int| 0 <= i < rewrite_exprs(es).len() implies cleared_expr(
        #[trigger] rewrite_exprs(es)[i],
    ) by {
        lemma_rewrite_clears_expr(es[i]);
    }
}

/// The rewrite of an `idem_safe` statement sequence is cleared.
pub proof fn lemma_rewrite_clears_stmts(ss: Seq<StmtV>)
    requires
        idem_safe_stmts(ss),
    ensures
        cleared_stmts(rewrite_stmts(ss)),
    decreases ss,
{
    lemma_rewrite_stmts_pointwise(ss);
    assert forall|i: int| 0 <= i < rewrite_stmts(ss).len() implies cleared_stmt(
        #[trigger] rewrite_stmts(ss)[i],
    ) by {
        lemma_rewrite_clears_stmt(ss[i]);
    }
}

/// The rewrite of an `idem_safe` arm sequence is cleared.
pub proof fn lemma_rewrite_clears_arms(ar: Seq<ArmV>)
    requires
        idem_safe_arms(ar),
    ensures
        cleared_arms(rewrite_arms(ar)),
    decreases ar,
{
    lemma_rewrite_arms_pointwise(ar);
    assert forall|i: int| 0 <= i < rewrite_arms(ar).len() implies cleared_arm(
        #[trigger] rewrite_arms(ar)[i],
    ) by {
        lemma_rewrite_clears_arm(ar[i]);
    }
}

/// One-shot idempotence on an expression: after one pass the trigger
/// pattern is gone, so a second pass changes nothing.  The assumption
/// rules out a triggering closure whose second parameter is itself a
/// trigger tuple, which the first pass would newly expose.
pub proof fn lemma_rewrite_idempotent_expr(e: ExprV)
    requires
        idem_safe_expr(e),
    ensures
        rewrite_expr(rewrite_expr(e)) == rewrite_expr(e),
{
    lemma_rewrite_clears_expr(e);
    lemma_cleared_noop_expr(rewrite_expr(e));
}

/// One-shot idempotence on a whole function body.
pub proof fn lemma_rewrite_idempotent_stmts(ss: Seq<StmtV>)
    requires
        idem_safe_stmts(ss),
    ensures
        rewrite_stmts(rewrite_stmts(ss)) == rewrite_stmts(ss),
{
    lemma_rewrite_clears_stmts(ss);
    lemma_cleared_noop_stmts(rewrite_stmts(ss));
}

} // verus!
