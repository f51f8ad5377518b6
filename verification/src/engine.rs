//! The executable rewrite engine, verified against the functions of
//! `rewrite`: a recursive descent over every statement and expression
//! construct, with the closure substitution performed where the trigger
//! test holds.

use vstd::prelude::*;

use crate::ast::Arm;
use crate::ast::Expr;
use crate::ast::Pat;
use crate::ast::Stmt;
use crate::ast::exprs_view;
use crate::ast::stmts_view;
use crate::ast::arms_view;
use crate::ast::pats_view;
use crate::ast::expr_view;
use crate::ast::stmt_view;
use crate::ast::arm_view;
use crate::ast::pat_view;
use crate::ast::opt_view;
use crate::ast::lemma_exprs_view_pointwise;
use crate::ast::lemma_stmts_view_pointwise;
use crate::ast::lemma_arms_view_pointwise;
use crate::ast::lemma_pats_view_pointwise;
use crate::rewrite::is_trigger;
use crate::rewrite::plain_ident;
use crate::rewrite::tuple_elems;
use crate::rewrite::ident_name;
use crate::rewrite::capture_names;
use crate::rewrite::clone_binding;
use crate::rewrite::clone_bindings;

verus! {

/// Whether every pattern of `elems` is a plain identifier.
#[verifier::loop_isolation(false)]
fn all_plain_idents(elems: &Vec<Pat>) -> (b: bool)
    ensures
        b == (forall|i: int| 0 <= i < elems@.len() ==> plain_ident(pat_view(#[trigger] elems@[i]))),
{
    let mut ok = true;
    let mut i: usize = 0;
    while i < elems.len()
        invariant
            i <= elems@.len(),
            ok == (forall|j: int| 0 <= j < i ==> plain_ident(pat_view(#[trigger] elems@[j]))),
        decreases elems@.len() - i,
    {
        let plain = match &elems[i] {
            Pat::Ident { mutable, name: _ } => !*mutable,
            _ => false,
        };
        proof {
            assert(plain == plain_ident(pat_view(elems@[i as int])));
        }
        ok = ok && plain;
        i = i + 1;
    }
    ok
}

/// The trigger test on a closure's parameter list.
fn is_trigger_params(params: &Vec<Pat>) -> (b: bool)
    ensures
        b == is_trigger(pats_view(params@)),
{
    proof {
        lemma_pats_view_pointwise(params@);
    }
    if params.len() == 0 {
        return false;
    }
    match &params[0] {
        Pat::Tuple { elems } => {
            proof {
                lemma_pats_view_pointwise(elems@);
                assert(pats_view(params@)[0] == pat_view(params@[0]));
                assert(tuple_elems(pats_view(params@)[0]) == pats_view(elems@));
            }
            if elems.len() == 0 {
                false
            } else {
                let b = all_plain_idents(elems);
                proof {
                    let pv = pats_view(params@);
                    if is_trigger(pv) {
                        assert forall|i: int|
                            0 <= i < elems@.len() implies plain_ident(
                            pat_view(#[trigger] elems@[i]),
                        ) by {
                            assert(pat_view(elems@[i]) == tuple_elems(pv[0])[i]);
                        }
                    }
                    if b {
                        assert forall|i: int|
                            0 <= i < tuple_elems(pv[0]).len() implies plain_ident(
                            #[trigger] tuple_elems(pv[0])[i],
                        ) by {
                            assert(tuple_elems(pv[0])[i] == pat_view(elems@[i]));
                        }
                    }
                }
                b
            }
        },
        _ => {
            proof {
                assert(pats_view(params@)[0] == pat_view(params@[0]));
            }
            false
        },
    }
}

/// The captured identifiers, taken in order from the trigger tuple's
/// elements.
#[verifier::loop_isolation(false)]
fn extract_names(elems: Vec<Pat>) -> (names: Vec<String>)
    requires
        forall|i: int| 0 <= i < elems@.len() ==> plain_ident(pat_view(#[trigger] elems@[i])),
    ensures
        names@.len() == elems@.len(),
        forall|i: int|
            0 <= i < elems@.len() ==> (#[trigger] names@[i])@ == ident_name(pat_view(elems@[i])),
{
    let mut rest = elems;
    let ghost orig: Seq<Pat> = rest@;
    let mut names: Vec<String> = Vec::new();
    while rest.len() > 0
        invariant
            names@.len() + rest@.len() == orig.len(),
            rest@ == orig.subrange(names@.len() as int, orig.len() as int),
            forall|i: int| 0 <= i < orig.len() ==> plain_ident(pat_view(#[trigger] orig[i])),
            forall|i: int|
                0 <= i < names@.len() ==> (#[trigger] names@[i])@ == ident_name(pat_view(orig[i])),
        decreases rest@.len(),
    {
        let ghost k = names@.len() as int;
        let p = rest.remove(0);
        proof {
            assert(p == orig[k]);
            assert(rest@ =~= orig.subrange(k + 1, orig.len() as int));
        }
        match p {
            Pat::Ident { mutable: _, name } => {
                names.push(name);
            },
            _ => {
                proof {
                    assert(plain_ident(pat_view(orig[k])));
                }
                vstd::pervasive::unreached::<()>();
            },
        }
    }
    names
}

/// One synthesized clone binding: `let mut name = name.clone();`.
fn make_clone_binding(name: String) -> (s: Stmt)
    ensures
        s@ == clone_binding(name@),
{
    let receiver = Expr::PathRef { name: name.clone() };
    let method: String = "clone".to_owned();
    let args: Vec<Expr> = Vec::new();
    let init = Expr::MethodCall { receiver: Box::new(receiver), method, args };
    let s = Stmt::Local {
        pat: Pat::Ident { mutable: true, name },
        init: Option::Some(Box::new(init)),
    };
    proof {
        assert(expr_view(receiver) == crate::ast::ExprV::PathRef { name: name@ });
        assert(method@ == "clone"@);
        assert(exprs_view(args@) =~= Seq::<crate::ast::ExprV>::empty());
        assert(expr_view(init) =~~= crate::ast::ExprV::MethodCall {
            receiver: Box::new(crate::ast::ExprV::PathRef { name: name@ }),
            method: "clone"@,
            args: Seq::empty(),
        });
        assert(pat_view(Pat::Ident { mutable: true, name }) == crate::ast::PatV::Ident {
            mutable: true,
            name: name@,
        });
        assert(s@ =~~= clone_binding(name@));
    }
    s
}

/// The rewrite of one expression, as `rewrite::rewrite_expr` states it.
#[verifier::rlimit(60)]
pub fn rewrite_expr(e: Expr) -> (r: Expr)
    ensures
        r@ == crate::rewrite::rewrite_expr(e@),
    decreases e, 0int,
{
    match e {
        Expr::Array { elems } => Expr::Array { elems: rewrite_exprs(elems) },
        Expr::Assign { left, right } => Expr::Assign {
            left: Box::new(rewrite_expr(*left)),
            right: Box::new(rewrite_expr(*right)),
        },
        Expr::Async { body } => Expr::Async { body: rewrite_stmts(body) },
        Expr::Await { base } => Expr::Await { base: Box::new(rewrite_expr(*base)) },
        Expr::Binary { left, right } => Expr::Binary {
            left: Box::new(rewrite_expr(*left)),
            right: Box::new(rewrite_expr(*right)),
        },
        Expr::Block { body } => Expr::Block { body: rewrite_stmts(body) },
        Expr::Break { value } => Expr::Break { value: rewrite_opt(value) },
        Expr::Call { func, args } => Expr::Call {
            func: Box::new(rewrite_expr(*func)),
            args: rewrite_exprs(args),
        },
        Expr::Cast { base } => Expr::Cast { base: Box::new(rewrite_expr(*base)) },
        Expr::Closure { params, body } => rewrite_closure(params, body),
        Expr::ConstBlock { body } => Expr::ConstBlock { body: rewrite_stmts(body) },
        Expr::Continue => Expr::Continue,
        Expr::Field { base } => Expr::Field { base: Box::new(rewrite_expr(*base)) },
        Expr::ForLoop { iter, body } => Expr::ForLoop {
            iter: Box::new(rewrite_expr(*iter)),
            body: rewrite_stmts(body),
        },
        Expr::Group { inner } => Expr::Group { inner: Box::new(rewrite_expr(*inner)) },
        Expr::If { cond, then_body, else_body } => Expr::If {
            cond: Box::new(rewrite_expr(*cond)),
            then_body: rewrite_stmts(then_body),
            else_body: rewrite_opt(else_body),
        },
        Expr::Index { base, index } => Expr::Index {
            base: Box::new(rewrite_expr(*base)),
            index: Box::new(rewrite_expr(*index)),
        },
        Expr::Infer => Expr::Infer,
        Expr::Let { init } => Expr::Let { init: Box::new(rewrite_expr(*init)) },
        Expr::Lit => Expr::Lit,
        Expr::Loop { body } => Expr::Loop { body: rewrite_stmts(body) },
        Expr::MacroCall => Expr::MacroCall,
        Expr::Match { scrutinee, arms } => Expr::Match {
            scrutinee: Box::new(rewrite_expr(*scrutinee)),
            arms: rewrite_arms(arms),
        },
        Expr::MethodCall { receiver, method, args } => Expr::MethodCall {
            receiver: Box::new(rewrite_expr(*receiver)),
            method,
            args: rewrite_exprs(args),
        },
        Expr::Paren { inner } => Expr::Paren { inner: Box::new(rewrite_expr(*inner)) },
        Expr::PathRef { name } => Expr::PathRef { name },
        Expr::Range { start, end } => Expr::Range {
            start: rewrite_opt(start),
            end: rewrite_opt(end),
        },
        Expr::RawBorrow { target } => Expr::RawBorrow { target: Box::new(rewrite_expr(*target)) },
        Expr::Reference { target } => Expr::Reference { target: Box::new(rewrite_expr(*target)) },
        Expr::Repeat { elem } => Expr::Repeat { elem: Box::new(rewrite_expr(*elem)) },
        Expr::Return { value } => Expr::Return { value: rewrite_opt(value) },
        Expr::StructLit { fields, rest } => Expr::StructLit {
            fields: rewrite_exprs(fields),
            rest: rewrite_opt(rest),
        },
        Expr::Try { base } => Expr::Try { base: Box::new(rewrite_expr(*base)) },
        Expr::TryBlock { body } => Expr::TryBlock { body: rewrite_stmts(body) },
        Expr::Tuple { elems } => Expr::Tuple { elems: rewrite_exprs(elems) },
        Expr::Unary { operand } => Expr::Unary { operand: Box::new(rewrite_expr(*operand)) },
        Expr::UnsafeBlock { body } => Expr::UnsafeBlock { body: rewrite_stmts(body) },
        Expr::Verbatim => Expr::Verbatim,
        Expr::While { cond, body } => Expr::While {
            cond: Box::new(rewrite_expr(*cond)),
            body: rewrite_stmts(body),
        },
        Expr::Yield { value } => Expr::Yield { value: rewrite_opt(value) },
    }
}

/// The closure case: substitute a triggering closure, or descend into the
/// body of one that does not trigger.
#[verifier::loop_isolation(false)]
#[verifier::rlimit(60)]
fn rewrite_closure(params: Vec<Pat>, body: Box<Expr>) -> (r: Expr)
    ensures
        r@ == crate::rewrite::rewrite_expr(
            crate::ast::ExprV::Closure { params: pats_view(params@), body: Box::new((*body)@) },
        ),
    decreases body, 1int,
{
    let ghost pv = pats_view(params@);
    if is_trigger_params(&params) {
        let mut params2 = params;
        let first = params2.remove(0);
        proof {
            lemma_pats_view_pointwise(params@);
            assert(first == params@[0]);
            assert(params2@ =~= params@.drop_first());
            lemma_pats_view_pointwise(params2@);
            assert(pat_view(first) == pv[0]);
        }
        let names = match first {
            Pat::Tuple { elems } => {
                proof {
                    lemma_pats_view_pointwise(elems@);
                    assert(tuple_elems(pv[0]) == pats_view(elems@));
                }
                extract_names(elems)
            },
            _ => vstd::pervasive::unreached(),
        };
        let mut rest_names = names;
        let ghost names_seq: Seq<String> = rest_names@;
        let mut out: Vec<Stmt> = Vec::new();
        while rest_names.len() > 0
            invariant
                out@.len() + rest_names@.len() == names_seq.len(),
                rest_names@ == names_seq.subrange(out@.len() as int, names_seq.len() as int),
                forall|j: int|
                    0 <= j < out@.len() ==> stmt_view(#[trigger] out@[j]) == clone_binding(
                        names_seq[j]@,
                    ),
            decreases rest_names@.len(),
        {
            let ghost k = out@.len() as int;
            let nm = rest_names.remove(0);
            proof {
                assert(nm == names_seq[k]);
                assert(rest_names@ =~= names_seq.subrange(k + 1, names_seq.len() as int));
            }
            let b = make_clone_binding(nm);
            out.push(b);
        }
        let new_body = rewrite_expr(*body);
        let tail_stmt = Stmt::Expr {
            expr: Box::new(Expr::Closure { params: params2, body: Box::new(new_body) }),
            semi: false,
        };
        let ghost tail_view = stmt_view(tail_stmt);
        out.push(tail_stmt);
        let r = Expr::Block { body: out };
        proof {
            lemma_stmts_view_pointwise(out@);
            let names_v = capture_names(pv);
            let spec_stmts = clone_bindings(names_v).push(
                crate::ast::StmtV::Expr {
                    expr: Box::new(
                        crate::ast::ExprV::Closure {
                            params: pv.drop_first(),
                            body: Box::new(crate::rewrite::rewrite_expr((*body)@)),
                        },
                    ),
                    semi: false,
                },
            );
            let n = names_seq.len() as int;
            assert(names_v.len() == n);
            assert forall|j: int| 0 <= j < n implies stmts_view(out@)[j] == spec_stmts[j] by {
                assert(stmts_view(out@)[j] == stmt_view(out@[j]));
                assert(names_v[j] == names_seq[j]@);
            }
            assert forall|j: int| 0 <= j < params2@.len() implies pats_view(params2@)[j]
                == pv.drop_first()[j] by {
                assert(pats_view(params2@)[j] == pat_view(#[trigger] params2@[j]));
                assert(params2@[j] == params@[j + 1]);
                assert(pats_view(params@)[j + 1] == pat_view(params@[j + 1]));
            }
            assert(pats_view(params2@) =~= pv.drop_first());
            assert(out@[n] == tail_stmt);
            assert(stmts_view(out@)[n] == tail_view);
            assert(spec_stmts[n] == crate::ast::StmtV::Expr {
                expr: Box::new(
                    crate::ast::ExprV::Closure {
                        params: pv.drop_first(),
                        body: Box::new(crate::rewrite::rewrite_expr((*body)@)),
                    },
                ),
                semi: false,
            });
            assert(tail_view =~~= spec_stmts[n]);
            assert(stmts_view(out@) =~= spec_stmts);
        }
        r
    } else {
        Expr::Closure { params, body: Box::new(rewrite_expr(*body)) }
    }
}

/// The rewrite of an optional expression.
fn rewrite_opt(o: Option<Box<Expr>>) -> (r: Option<Box<Expr>>)
    ensures
        opt_view(r) == crate::rewrite::rewrite_opt(opt_view(o)),
    decreases o, 0int,
{
    match o {
        Option::Some(b) => Option::Some(Box::new(rewrite_expr(*b))),
        Option::None => Option::None,
    }
}

/// The rewrite of one statement.
pub fn rewrite_stmt(s: Stmt) -> (r: Stmt)
    ensures
        r@ == crate::rewrite::rewrite_stmt(s@),
    decreases s, 0int,
{
    match s {
        Stmt::Local { pat, init } => Stmt::Local { pat, init: rewrite_opt(init) },
        Stmt::Item => Stmt::Item,
        Stmt::Expr { expr, semi } => Stmt::Expr { expr: Box::new(rewrite_expr(*expr)), semi },
        Stmt::MacroCall => Stmt::MacroCall,
    }
}

/// The rewrite of one match arm.
fn rewrite_arm(a: Arm) -> (r: Arm)
    ensures
        r@ == crate::rewrite::rewrite_arm(a@),
    decreases a, 0int,
{
    let Arm { pat, guard, body } = a;
    Arm { pat, guard: rewrite_opt(guard), body: Box::new(rewrite_expr(*body)) }
}

/// The element-wise rewrite of a sequence of expressions.
#[verifier::loop_isolation(false)]
fn rewrite_exprs(es: Vec<Expr>) -> (r: Vec<Expr>)
    ensures
        exprs_view(r@) == crate::rewrite::rewrite_exprs(exprs_view(es@)),
    decreases es, 0int,
{
    let mut rest = es;
    let ghost orig: Seq<Expr> = rest@;
    let mut out: Vec<Expr> = Vec::new();
    while rest.len() > 0
        invariant
            out@.len() + rest@.len() == orig.len(),
            rest@ == orig.subrange(out@.len() as int, orig.len() as int),
            forall|j: int|
                0 <= j < out@.len() ==> expr_view(#[trigger] out@[j])
                    == crate::rewrite::rewrite_expr(expr_view(orig[j])),
        decreases rest@.len(),
    {
        let ghost k = out@.len() as int;
        let x = rest.remove(0);
        proof {
            assert(x == orig[k]);
            assert(rest@ =~= orig.subrange(k + 1, orig.len() as int));
            assert(x == es[k]);
            vstd::std_specs::vec::axiom_vec_index_decreases(es, k);
        }
        let y = rewrite_expr(x);
        out.push(y);
    }
    proof {
        lemma_exprs_view_pointwise(out@);
        lemma_exprs_view_pointwise(orig);
        crate::rewrite::lemma_rewrite_exprs_pointwise(exprs_view(orig));
        assert forall|j: int| 0 <= j < orig.len() implies exprs_view(out@)[j]
            == crate::rewrite::rewrite_exprs(exprs_view(orig))[j] by {
            assert(exprs_view(out@)[j] == expr_view(#[trigger] out@[j]));
            assert(exprs_view(orig)[j] == expr_view(orig[j]));
            assert(crate::rewrite::rewrite_exprs(exprs_view(orig))[j] == crate::rewrite::rewrite_expr(exprs_view(orig)[j]));
        }
        assert(exprs_view(out@) =~= crate::rewrite::rewrite_exprs(exprs_view(orig)));
    }
    out
}

/// The element-wise rewrite of a sequence of statements.
#[verifier::loop_isolation(false)]
fn rewrite_stmts(ss: Vec<Stmt>) -> (r: Vec<Stmt>)
    ensures
        stmts_view(r@) == crate::rewrite::rewrite_stmts(stmts_view(ss@)),
    decreases ss, 0int,
{
    let mut rest = ss;
    let ghost orig: Seq<Stmt> = rest@;
    let mut out: Vec<Stmt> = Vec::new();
    while rest.len() > 0
        invariant
            out@.len() + rest@.len() == orig.len(),
            rest@ == orig.subrange(out@.len() as int, orig.len() as int),
            forall|j: int|
                0 <= j < out@.len() ==> stmt_view(#[trigger] out@[j])
                    == crate::rewrite::rewrite_stmt(stmt_view(orig[j])),
        decreases rest@.len(),
    {
        let ghost k = out@.len() as int;
        let x = rest.remove(0);
        proof {
            assert(x == orig[k]);
            assert(rest@ =~= orig.subrange(k + 1, orig.len() as int));
            assert(x == ss[k]);
            vstd::std_specs::vec::axiom_vec_index_decreases(ss, k);
        }
        let y = rewrite_stmt(x);
        out.push(y);
    }
    proof {
        lemma_stmts_view_pointwise(out@);
        lemma_stmts_view_pointwise(orig);
        crate::rewrite::lemma_rewrite_stmts_pointwise(stmts_view(orig));
        assert forall|j: int| 0 <= j < orig.len() implies stmts_view(out@)[j]
            == crate::rewrite::rewrite_stmts(stmts_view(orig))[j] by {
            assert(stmts_view(out@)[j] == stmt_view(#[trigger] out@[j]));
            assert(stmts_view(orig)[j] == stmt_view(orig[j]));
            assert(crate::rewrite::rewrite_stmts(stmts_view(orig))[j] == crate::rewrite::rewrite_stmt(stmts_view(orig)[j]));
        }
        assert(stmts_view(out@) =~= crate::rewrite::rewrite_stmts(stmts_view(orig)));
    }
    out
}

/// The element-wise rewrite of a sequence of match arms.
#[verifier::loop_isolation(false)]
fn rewrite_arms(ar: Vec<Arm>) -> (r: Vec<Arm>)
    ensures
        arms_view(r@) == crate::rewrite::rewrite_arms(arms_view(ar@)),
    decreases ar, 0int,
{
    let mut rest = ar;
    let ghost orig: Seq<Arm> = rest@;
    let mut out: Vec<Arm> = Vec::new();
    while rest.len() > 0
        invariant
            out@.len() + rest@.len() == orig.len(),
            rest@ == orig.subrange(out@.len() as int, orig.len() as int),
            forall|j: int|
                0 <= j < out@.len() ==> arm_view(#[trigger] out@[j])
                    == crate::rewrite::rewrite_arm(arm_view(orig[j])),
        decreases rest@.len(),
    {
        let ghost k = out@.len() as int;
        let x = rest.remove(0);
        proof {
            assert(x == orig[k]);
            assert(rest@ =~= orig.subrange(k + 1, orig.len() as int));
            assert(x == ar[k]);
            vstd::std_specs::vec::axiom_vec_index_decreases(ar, k);
        }
        let y = rewrite_arm(x);
        out.push(y);
    }
    proof {
        lemma_arms_view_pointwise(out@);
        lemma_arms_view_pointwise(orig);
        crate::rewrite::lemma_rewrite_arms_pointwise(arms_view(orig));
        assert forall|j: int| 0 <= j < orig.len() implies arms_view(out@)[j]
            == crate::rewrite::rewrite_arms(arms_view(orig))[j] by {
            assert(arms_view(out@)[j] == arm_view(#[trigger] out@[j]));
            assert(arms_view(orig)[j] == arm_view(orig[j]));
            assert(crate::rewrite::rewrite_arms(arms_view(orig))[j] == crate::rewrite::rewrite_arm(arms_view(orig)[j]));
        }
        assert(arms_view(out@) =~= crate::rewrite::rewrite_arms(arms_view(orig)));
    }
    out
}

/// The driver: apply the rewrite to each top-level statement of a function
/// body, in order, in place.
#[verifier::loop_isolation(false)]
pub fn clone_into_closure(body: &mut Vec<Stmt>)
    ensures
        stmts_view(final(body)@) == crate::rewrite::rewrite_stmts(stmts_view(old(body)@)),
{
    let ghost orig: Seq<Stmt> = body@;
    let mut i: usize = 0;
    while i < body.len()
        invariant
            body@.len() == orig.len(),
            i <= orig.len(),
            forall|j: int|
                0 <= j < i ==> stmt_view(#[trigger] body@[j]) == crate::rewrite::rewrite_stmt(
                    stmt_view(orig[j]),
                ),
            forall|j: int| i <= j < orig.len() ==> body@[j] == orig[j],
        decreases orig.len() - i,
    {
        let ghost before: Seq<Stmt> = body@;
        let s = body.remove(i);
        let r = rewrite_stmt(s);
        body.insert(i, r);
        proof {
            assert(body@ =~= before.update(i as int, r));
        }
        i = i + 1;
    }
    proof {
        lemma_stmts_view_pointwise(body@);
        lemma_stmts_view_pointwise(orig);
        crate::rewrite::lemma_rewrite_stmts_pointwise(stmts_view(orig));
        assert forall|j: int| 0 <= j < orig.len() implies stmts_view(body@)[j]
            == crate::rewrite::rewrite_stmts(stmts_view(orig))[j] by {
            assert(stmts_view(body@)[j] == stmt_view(#[trigger] body@[j]));
            assert(stmts_view(orig)[j] == stmt_view(orig[j]));
            assert(crate::rewrite::rewrite_stmts(stmts_view(orig))[j]
                == crate::rewrite::rewrite_stmt(stmts_view(orig)[j]));
        }
        assert(stmts_view(body@) =~= crate::rewrite::rewrite_stmts(stmts_view(orig)));
    }
}

} // verus!
