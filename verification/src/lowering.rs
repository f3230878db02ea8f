//! What typed expressions come to when they are run, and that matches and
//! comparisons keep their meaning when they are lowered.

use vstd::prelude::*;
use crate::ast::{
    BinaryOp, ExprKindView, ExprView, MatchArmView, PatternView, Span, TypeView, UnaryOp,
};
use crate::calls::{ArmKeyView, ArmScanView, TextScanView};
use crate::ir::{TypedConstView, TypedExprKindView, TypedExprView, TypedStmtView};
use crate::state::{CheckedExprView, ContextView, StateView};
use crate::text::{text};

verus! {

broadcast use {
    crate::text::group_text_views,
    crate::ast::group_ast_views,
    crate::diagnostic::group_diagnostic_views,
    crate::ir::group_ir_views,
    crate::state::group_state_views,
};

/// What a run starts from: the values of variables, and what becomes of the
/// expressions that are not looked into.
pub struct Machine {
    pub ints: spec_fn(Seq<char>) -> int,
    pub texts: spec_fn(Seq<char>) -> Seq<char>,
    pub element: spec_fn(TypedExprView, u32) -> int,
    pub value: spec_fn(TypedExprKindView) -> int,
    pub text: spec_fn(TypedExprKindView) -> Seq<char>,
    pub truth: spec_fn(TypedExprKindView) -> bool,
}

/// The machine with a variable set.
pub open spec fn with_var(m: Machine, name: Seq<char>, v: int, t: Seq<char>) -> Machine {
    Machine {
        ints: |n: Seq<char>| if n == name { v } else { (m.ints)(n) },
        texts: |n: Seq<char>| if n == name { t } else { (m.texts)(n) },
        ..m
    }
}

/// The text that an expression comes to.
pub open spec fn comes_to_text(e: TypedExprView, m: Machine) -> Seq<char> {
    match e.kind {
        TypedExprKindView::Str(s) => s,
        TypedExprKindView::Var(n) => (m.texts)(n),
        _ => (m.text)(e.kind),
    }
}

/// The value that an expression comes to: a choice takes one of its branches,
/// and a block binds its variables first.
pub open spec fn comes_to(e: TypedExprView, m: Machine) -> int
    decreases e, 0int,
{
    match e.kind {
        TypedExprKindView::Var(n) => (m.ints)(n),
        TypedExprKindView::TupleAccess { tuple, index } => (m.element)(*tuple, index),
        TypedExprKindView::IfExpr { cond, then_value, else_value } => if holds_in(*cond, m) {
            comes_to(*then_value, m)
        } else {
            comes_to(*else_value, m)
        },
        TypedExprKindView::Block { stmts, tail } => comes_to(*tail, after_lets(stmts, m, 0)),
        _ => (m.value)(e.kind),
    }
}

/// The machine after the statements of a block from one on.
pub open spec fn after_lets(ss: Seq<TypedStmtView>, m: Machine, i: int) -> Machine
    decreases ss, ss.len() - i,
{
    if 0 <= i < ss.len() {
        match ss[i] {
            TypedStmtView::Let { name, expr, .. } => after_lets(
                ss,
                with_var(m, name, comes_to(expr, m), comes_to_text(expr, m)),
                i + 1,
            ),
            _ => after_lets(ss, m, i + 1),
        }
    } else {
        m
    }
}

/// Whether a condition holds.
pub open spec fn holds_in(e: TypedExprView, m: Machine) -> bool
    decreases e, 0int,
{
    match e.kind {
        TypedExprKindView::Bool(v) => v,
        TypedExprKindView::Unary { op: UnaryOp::Not, expr } => !holds_in(*expr, m),
        TypedExprKindView::Binary {
            op: BinaryOp::And,
            left,
            right,
            ..
        } => holds_in(*left, m) && holds_in(*right, m),
        TypedExprKindView::Binary {
            op: BinaryOp::Or,
            left,
            right,
            ..
        } => holds_in(*left, m) || holds_in(*right, m),
        TypedExprKindView::Binary {
            op: BinaryOp::Eq,
            left,
            right,
            ..
        } => if crate::effects::is_text_type_spec(left.ty) {
            comes_to_text(*left, m) == comes_to_text(*right, m)
        } else {
            comes_to(*left, m) == comes_to(*right, m)
        },
        TypedExprKindView::Binary {
            op: BinaryOp::Ne,
            left,
            right,
            ..
        } => if crate::effects::is_text_type_spec(left.ty) {
            comes_to_text(*left, m) != comes_to_text(*right, m)
        } else {
            comes_to(*left, m) != comes_to(*right, m)
        },
        _ => (m.truth)(e.kind),
    }
}

/// The position of the first arm from `k` on whose pattern is the text; the
/// number of arms where there is none.
pub open spec fn arm_for(arms: Seq<(Seq<char>, TypedExprView)>, v: Seq<char>, k: int) -> int
    decreases arms.len() - k,
{
    if 0 <= k < arms.len() && arms[k].0 != v {
        arm_for(arms, v, k + 1)
    } else {
        k
    }
}

proof fn chain_takes_the_first_arm(
    arms: Seq<(Seq<char>, TypedExprView)>,
    k: int,
    name: Seq<char>,
    scrut: TypeView,
    t: TypeView,
    otherwise: TypedExprView,
    span: Span,
    m: Machine,
)
    requires
        0 <= k <= arms.len(),
        crate::effects::is_text_type_spec(scrut),
    ensures
        ({
            let a = arm_for(arms, (m.texts)(name), k);
            &&& k <= a <= arms.len()
            &&& comes_to(
                crate::calls::text_chain_spec(arms, k, name, scrut, t, otherwise, span),
                m,
            ) == comes_to(
                if a < arms.len() {
                    arms[a].1
                } else {
                    otherwise
                },
                m,
            )
        }),
    decreases arms.len() - k,
{
    if k < arms.len() {
        chain_takes_the_first_arm(arms, k + 1, name, scrut, t, otherwise, span, m);
        let test = crate::calls::text_test_spec(name, scrut, arms[k].0, span);
        assert(holds_in(test, m) == (arms[k].0 == (m.texts)(name)));
    }
}

/// A lowered match on a string comes to the first arm whose pattern is the
/// text that the scrutinee comes to, and to the wildcard arm where there is no
/// such arm; a variable holds the scrutinee meanwhile.
pub proof fn lowered_text_match_takes_the_first_arm(
    scrutinee: CheckedExprView,
    scan: TextScanView,
    span: Span,
    st: StateView,
    m: Machine,
)
    requires
        scan.wildcard is Some,
        crate::effects::is_text_type_spec(scrutinee.expr.ty),
    ensures
        ({
            let e = crate::calls::check_match_str_spec(scrutinee, scan, span, st).0.expr;
            let v = comes_to_text(scrutinee.expr, m);
            let a = arm_for(scan.arms, v, 0);
            exists|name: Seq<char>|
                comes_to(e, m) == comes_to(
                    if a < scan.arms.len() {
                        scan.arms[a].1
                    } else {
                        scan.wildcard->0
                    },
                    #[trigger] with_var(m, name, comes_to(scrutinee.expr, m), v),
                )
        }),
{
    reveal_with_fuel(comes_to, 3);
    reveal_with_fuel(after_lets, 5);
    let t = match scan.result {
        Some(t) => t,
        None => TypeView::I64,
    };
    let otherwise = scan.wildcard->0;
    let scrut = scrutinee.expr.ty;
    let name = "__match_str_"@ + crate::text::decimal(span.start as int);
    let inner = with_var(m, name, comes_to(scrutinee.expr, m), comes_to_text(scrutinee.expr, m));
    chain_takes_the_first_arm(scan.arms, 0, name, scrut, t, otherwise, span, inner);
    assert((inner.texts)(name) == comes_to_text(scrutinee.expr, m));
    let chain = crate::calls::text_chain_spec(scan.arms, 0, name, scrut, t, otherwise, span);
    let bind = TypedStmtView::Let { name, ty: scrut, expr: scrutinee.expr };
    if crate::calls::is_fresh_owned_str_spec(scrutinee.expr) {
        let result = "__match_str_result_"@ + crate::text::decimal(span.start as int);
        let keep = TypedStmtView::Let { name: result, ty: t, expr: chain };
        let release = TypedStmtView::Drop { name, ty: scrut, moved_fields: Seq::empty() };
        let ss = Seq::<TypedStmtView>::empty().push(bind).push(keep).push(release);
        assert(ss[0] == bind && ss[1] == keep && ss[2] == release);
        let last = with_var(inner, result, comes_to(chain, inner), comes_to_text(chain, inner));
        assert(after_lets(ss, last, 2) == last);
        assert(after_lets(ss, inner, 1) == last);
        assert(after_lets(ss, m, 0) == last);
    } else {
        let ss = Seq::<TypedStmtView>::empty().push(bind);
        assert(ss[0] == bind);
        assert(after_lets(ss, inner, 1) == inner);
        assert(after_lets(ss, m, 0) == inner);
    }
}

/// An arm of a match on a string is kept behind those before it, under its own
/// pattern and with its own body.
pub proof fn text_arms_stay_in_order(
    scan: TextScanView,
    arm: MatchArmView,
    body: CheckedExprView,
    st: StateView,
)
    ensures
        ({
            let after = crate::calls::finish_text_arm_spec(scan, arm, body, st).0;
            match arm.pattern {
                PatternView::Str(s) => after.wildcard == scan.wildcard && after.arms.len() == scan.arms.len() + 1
                    && after.arms.last() == (s, body.expr) && after.arms.drop_last() == scan.arms,
                _ => after.wildcard == Some(body.expr) && after.arms == scan.arms,
            }
        }),
{
    if let PatternView::Str(s) = arm.pattern {
        assert(scan.arms.push((s, body.expr)).drop_last() =~= scan.arms);
    }
}

/// Whether the elements of two tuples from one up to another are equal.
pub open spec fn elements_equal(
    l: TypedExprView,
    r: TypedExprView,
    from: int,
    to: int,
    m: Machine,
) -> bool {
    forall|i: int|
        #![trigger (m.element)(l, i as u32)]
        from <= i < to ==> (m.element)(l, i as u32) == (m.element)(r, i as u32)
}

proof fn equality_compares_all(
    ts: Seq<TypeView>,
    l: TypedExprView,
    r: TypedExprView,
    span: Span,
    cx: ContextView,
    chain: Option<TypedExprView>,
    i: int,
    m: Machine,
)
    requires
        0 <= i <= ts.len(),
        forall|k: int| 0 <= k < ts.len() ==> crate::types::nominal_name_spec(#[trigger] ts[k]) is None && !crate::effects::is_text_type_spec(ts[k]),
        chain is None <==> i == 0,
    ensures
        ({
            let (c, missing) = crate::operators::tuple_equality_spec(
                ts,
                l,
                r,
                span,
                cx,
                chain,
                None,
                i,
            );
            &&& missing is None
            &&& c is None <==> ts.len() == 0
            &&& c matches Some(e) ==> holds_in(
                e,
                m,
            ) == ((chain matches Some(b) ==> holds_in(b, m)) && elements_equal(
                l,
                r,
                i,
                ts.len() as int,
                m,
            ))
        }),
    decreases ts.len() - i,
{
    if i < ts.len() {
        reveal_with_fuel(comes_to, 2);
        reveal_with_fuel(holds_in, 2);
        assert(
            crate::types::nominal_name_spec(ts[i]) is None
                && !crate::effects::is_text_type_spec(ts[i])
        );
        let e = crate::operators::element_equality_spec(l, r, i as u32, ts[i], span, cx)->0;
        assert(holds_in(e, m) == ((m.element)(l, i as u32) == (m.element)(r, i as u32)));
        let next = match chain {
            None => e,
            Some(before) => crate::scope::typed_spec(
                crate::operators::binary_kind_spec(BinaryOp::And, before, e, true),
                TypeView::Bool,
                None,
                span,
            ),
        };
        assert(holds_in(next, m) == ((chain matches Some(b) ==> holds_in(b, m)) && holds_in(e, m)));
        equality_compares_all(ts, l, r, span, cx, Some(next), i + 1, m);
        assert(elements_equal(l, r, i, ts.len() as int, m) == (holds_in(e, m) && elements_equal(
            l,
            r,
            i + 1,
            ts.len() as int,
            m,
        )));
    }
}

/// Two tuples are equal exactly where all their elements are, and unequal where
/// they are not equal.
pub proof fn lowered_tuples_are_compared_by_element(
    op: BinaryOp,
    l: CheckedExprView,
    r: CheckedExprView,
    elements: Seq<TypeView>,
    span: Span,
    cx: ContextView,
    st: StateView,
    m: Machine,
)
    requires
        op is Eq || op is Ne,
        forall|k: int|
            0 <= k < elements.len()
                ==> crate::types::nominal_name_spec(#[trigger] elements[k]) is None
                && !crate::effects::is_text_type_spec(
                elements[k],
            ),
    ensures
        ({
            let (c, after) = crate::operators::check_tuple_equality_spec(
                op,
                l,
                r,
                elements,
                span,
                cx,
                st,
            );
            after == st
                && holds_in(
                    c.expr,
                    m,
                ) == (elements_equal(l.expr, r.expr, 0, elements.len() as int, m) == (op is Eq))
        }),
{
    reveal_with_fuel(holds_in, 2);
    equality_compares_all(elements, l.expr, r.expr, span, cx, None, 0, m);
    let all = match crate::operators::tuple_equality_spec(
        elements,
        l.expr,
        r.expr,
        span,
        cx,
        None,
        None,
        0,
    ).0 {
        Some(e) => e,
        None => crate::scope::typed_spec(
            TypedExprKindView::Bool(true),
            TypeView::Bool,
            Some(TypedConstView::Bool(true)),
            span,
        ),
    };
    assert(holds_in(all, m) == elements_equal(l.expr, r.expr, 0, elements.len() as int, m));
    let (c, after) = crate::operators::check_tuple_equality_spec(op, l, r, elements, span, cx, st);
    if op is Eq {
        assert(c.expr.kind == all.kind);
        assert(holds_in(c.expr, m) == holds_in(all, m));
    } else {
        assert(c.expr.kind == crate::operators::not_kind_spec(all));
    }
}

/// A lowered choice comes to its first branch where its condition holds, and to
/// its second one otherwise; a known condition gives it the constant of the
/// branch that is taken.
pub proof fn lowered_choice_takes_its_branch(
    cond: CheckedExprView,
    a: CheckedExprView,
    b: CheckedExprView,
    span: Span,
    st: StateView,
    m: Machine,
)
    ensures
        ({
            let e = crate::calls::finish_if_spec(cond, a, b, span, st).0.expr;
            &&& holds_in(cond.expr, m) ==> comes_to(e, m) == comes_to(a.expr, m)
            &&& !holds_in(cond.expr, m) ==> comes_to(e, m) == comes_to(b.expr, m)
            &&& cond.expr.constant == Some(TypedConstView::Bool(true))
                ==> e.constant == a.expr.constant
            &&& cond.expr.constant == Some(TypedConstView::Bool(false))
                ==> e.constant == b.expr.constant
        }),
{
    reveal_with_fuel(comes_to, 2);
}

/// An arm of a match is kept behind those before it, under its own key and with
/// its own body.
pub proof fn arms_stay_in_order(
    scan: ArmScanView,
    arm: MatchArmView,
    key: ArmKeyView,
    binding: Option<(Seq<char>, TypeView)>,
    body: CheckedExprView,
    st: StateView,
)
    ensures
        ({
            let after = crate::calls::finish_arm_spec(scan, arm, key, binding, body, st).0.arms;
            &&& after.len() == scan.arms.len() + 1
            &&& after.drop_last() == scan.arms
            &&& after.last().body == body.expr
            &&& after.last().tag == key.tag
            &&& after.last().variant == key.variant
            &&& after.last().int_value == key.int_value
            &&& after.last().binding == binding
            &&& after.last().is_wildcard == (arm.pattern is Wildcard)
        }),
{
    let after = crate::calls::finish_arm_spec(scan, arm, key, binding, body, st).0.arms;
    assert(after.drop_last() =~= scan.arms);
}

/// A choice in the source is lowered to the choice between its checked parts:
/// the branch that is written first is taken where the condition holds.
pub proof fn written_choice_takes_its_branch(
    e: ExprView,
    cond: ExprView,
    then_value: ExprView,
    else_value: ExprView,
    cx: ContextView,
    st: StateView,
    m: Machine,
)
    requires
        e.kind == (ExprKindView::IfExpr {
            cond: Box::new(cond),
            then_value: Box::new(then_value),
            else_value: Box::new(else_value),
        }),
    ensures
        exists|s: StateView, u: StateView|
            #![
                trigger crate::exprs::check_expr_spec(then_value, cx, s),
                crate::exprs::check_expr_spec(else_value, cx, u),
            ]
            comes_to(
                crate::exprs::check_compound_spec(e, cx, st).0.expr,
                m,
            ) == if holds_in(crate::exprs::check_expr_spec(cond, cx, st).0.expr, m) {
                comes_to(crate::exprs::check_expr_spec(then_value, cx, s).0.expr, m)
            } else {
                comes_to(crate::exprs::check_expr_spec(else_value, cx, u).0.expr, m)
            },
{
    let (c, s0) = crate::exprs::check_expr_spec(cond, cx, st);
    let s = crate::calls::require_if_condition_spec(c, cond.span, s0);
    let (a, u) = crate::exprs::check_expr_spec(then_value, cx, s);
    let (b, last) = crate::exprs::check_expr_spec(else_value, cx, u);
    assert(
        crate::exprs::check_compound_spec(e, cx, st) == crate::calls::finish_if_spec(
            c,
            a,
            b,
            e.span,
            last,
        )
    );
    lowered_choice_takes_its_branch(c, a, b, e.span, last, m);
}

/// Whether operands can be compared and combined without a declared function,
/// and have constants that go with their types.
pub open spec fn are_simple_operands(op: BinaryOp, l: CheckedExprView, r: CheckedExprView) -> bool {
    &&& !(op is Eq || op is Ne)
        || !(crate::operators::is_aggregate_spec(l.expr.ty) || crate::operators::is_aggregate_spec(r.expr.ty))
    &&& l.expr.constant matches Some(c) ==> !crate::effects::is_text_type_spec(l.expr.ty)
        && (c is Bool <==> l.expr.ty is Bool)
    &&& r.expr.constant matches Some(c) ==> !crate::effects::is_text_type_spec(r.expr.ty)
        && (c is Bool <==> r.expr.ty is Bool)
}

/// An operation in the source is lowered to the operation on its checked
/// operands, the left one first. A left operand that decides `&&` or `||`
/// gives the operation its own truth value.
pub proof fn written_operation_is_lowered(
    e: ExprView,
    op: BinaryOp,
    left: ExprView,
    right: ExprView,
    cx: ContextView,
    st: StateView,
)
    requires
        e.kind == (ExprKindView::Binary { op, left: Box::new(left), right: Box::new(right) }),
    ensures
        exists|s: StateView|
            ({
                let l = crate::exprs::check_expr_spec(left, cx, st).0;
                let (r, u) = #[trigger] crate::exprs::check_expr_spec(right, cx, s);
                let result = crate::exprs::check_binary_spec(e, cx, st);
                let decides = (op is And && l.expr.constant == Some(TypedConstView::Bool(false)))
                    || (op is Or
                    && l.expr.constant == Some(TypedConstView::Bool(true)));
                if decides {
                    result.0.expr.constant == l.expr.constant
                        && (result.0.expr.kind matches TypedExprKindView::Binary {
                        op: o,
                        left: a,
                        right: b,
                        ..
                    } && o == op && *a == l.expr && *b == r.expr)
                } else {
                    are_simple_operands(op, l, r)
                        ==> crate::operators::lowered_as_written(op, l, r, u, result)
                }
            }),
{
    let (l, s) = crate::exprs::check_expr_spec(left, cx, st);
    let (r, u) = crate::exprs::check_expr_spec(right, cx, s);
    if are_simple_operands(op, l, r) {
        crate::operators::operations_are_lowered_as_written(op, l, r, left, right, cx, u);
    }
}

} // verus!
