//! What expressions mean, and that replacing variables, filling in contracts
//! and asking a prover keep that meaning.

use vstd::prelude::*;
use crate::ast::{BinaryOp, ExprKindView, ExprView, FloatLitView, Span, StmtView, TypeView, UnaryOp};
use crate::ir::{TypedConstView};
use crate::state::{
    CallRewriteView, ContextView, EnvView, QueryView, SignatureView, StateView, VarInfoView,
};

verus! {

broadcast use {
    crate::text::group_text_views,
    crate::ast::group_ast_views,
    crate::diagnostic::group_diagnostic_views,
    crate::ir::group_ir_views,
    crate::state::group_state_views,
};

/// What an expression is, apart from its parts.
pub enum Head {
    Int(i128),
    Float(FloatLitView),
    Bool(bool),
    Str(Seq<char>),
    Unary(UnaryOp),
    Binary(BinaryOp),
    Cast(TypeView),
    Call(Seq<char>),
    Method(Seq<char>),
    Index,
    Len,
    Array,
    Ref,
    RefMut,
    Tuple,
    Element(u32),
    Struct(Seq<char>, Seq<Seq<char>>),
    Field(Seq<char>),
    Choice,
    Try,
    Other(ExprView),
}

/// The value of an expression: that of its variables is given, and every other
/// expression makes its value of those of its parts, in their order, in
/// whatever way `node` says.
pub open spec fn meaning(
    e: ExprView,
    var: spec_fn(Seq<char>) -> int,
    node: spec_fn(Head, Seq<int>) -> int,
) -> int
    decreases e, 0int,
{
    match e.kind {
        ExprKindView::Var(name) => var(name),
        ExprKindView::Int(v) => node(Head::Int(v), Seq::empty()),
        ExprKindView::Float(v) => node(Head::Float(v), Seq::empty()),
        ExprKindView::Bool(v) => node(Head::Bool(v), Seq::empty()),
        ExprKindView::Str(v) => node(Head::Str(v), Seq::empty()),
        ExprKindView::Unary { op, expr } => node(Head::Unary(op), seq![meaning(*expr, var, node)]),
        ExprKindView::Binary { op, left, right } => node(
            Head::Binary(op),
            seq![meaning(*left, var, node), meaning(*right, var, node)],
        ),
        ExprKindView::Cast { expr, ty } => node(Head::Cast(ty), seq![meaning(*expr, var, node)]),
        ExprKindView::Call { name, args, .. } => node(
            Head::Call(name),
            meanings(args, var, node, 0),
        ),
        ExprKindView::MethodCall { receiver, method, args, .. } => node(
            Head::Method(method),
            seq![meaning(*receiver, var, node)] + meanings(args, var, node, 0),
        ),
        ExprKindView::Index { array, index } => node(
            Head::Index,
            seq![meaning(*array, var, node), meaning(*index, var, node)],
        ),
        ExprKindView::Len { array } => node(Head::Len, seq![meaning(*array, var, node)]),
        ExprKindView::ArrayLit { elements } => node(Head::Array, meanings(elements, var, node, 0)),
        ExprKindView::Ref { inner } => node(Head::Ref, seq![meaning(*inner, var, node)]),
        ExprKindView::RefMut { inner } => node(Head::RefMut, seq![meaning(*inner, var, node)]),
        ExprKindView::Tuple(elements) => node(Head::Tuple, meanings(elements, var, node, 0)),
        ExprKindView::TupleAccess { tuple, index } => node(
            Head::Element(index),
            seq![meaning(*tuple, var, node)],
        ),
        ExprKindView::FieldAccess { object, field } => node(
            Head::Field(field),
            seq![meaning(*object, var, node)],
        ),
        ExprKindView::IfExpr { cond, then_value, else_value } => node(
            Head::Choice,
            seq![
                meaning(*cond, var, node),
                meaning(*then_value, var, node),
                meaning(*else_value, var, node),
            ],
        ),
        ExprKindView::Try { inner } => node(Head::Try, seq![meaning(*inner, var, node)]),
        _ => node(Head::Other(e), Seq::empty()),
    }
}

/// The values of expressions from one on.
pub open spec fn meanings(
    es: Seq<ExprView>,
    var: spec_fn(Seq<char>) -> int,
    node: spec_fn(Head, Seq<int>) -> int,
    i: int,
) -> Seq<int>
    decreases es, es.len() - i,
{
    if 0 <= i < es.len() {
        seq![meaning(es[i], var, node)] + meanings(es, var, node, i + 1)
    } else {
        Seq::empty()
    }
}

/// Whether an expression binds no names and builds no struct.
pub open spec fn is_open(e: ExprView) -> bool
    decreases e,
{
    match e.kind {
        ExprKindView::Unary { expr, .. } => is_open(*expr),
        ExprKindView::Binary { left, right, .. } => is_open(*left) && is_open(*right),
        ExprKindView::Cast { expr, .. } => is_open(*expr),
        ExprKindView::Call { args, .. } => forall|i: int| 0 <= i < args.len()
            ==> is_open(#[trigger] args[i]),
        ExprKindView::MethodCall { receiver, args, .. } => is_open(*receiver) && forall|i: int|
            0 <= i < args.len() ==> is_open(#[trigger] args[i]),
        ExprKindView::Index { array, index } => is_open(*array) && is_open(*index),
        ExprKindView::Len { array } => is_open(*array),
        ExprKindView::ArrayLit { elements } => forall|i: int|
            0 <= i < elements.len() ==> is_open(#[trigger] elements[i]),
        ExprKindView::Ref { inner } => is_open(*inner),
        ExprKindView::RefMut { inner } => is_open(*inner),
        ExprKindView::Tuple(elements) => forall|i: int|
            0 <= i < elements.len() ==> is_open(#[trigger] elements[i]),
        ExprKindView::TupleAccess { tuple, .. } => is_open(*tuple),
        ExprKindView::FieldAccess { object, .. } => is_open(*object),
        ExprKindView::IfExpr {
            cond,
            then_value,
            else_value,
        } => is_open(*cond) && is_open(*then_value) && is_open(
            *else_value,
        ),
        ExprKindView::Try { inner } => is_open(*inner),
        ExprKindView::StructLit { .. } => false,
        ExprKindView::Match { .. } => false,
        ExprKindView::Block { .. } => false,
        _ => true,
    }
}

/// Values of variables, with those in a table taken from there.
pub open spec fn with_table(
    subs: Seq<(Seq<char>, ExprView)>,
    var: spec_fn(Seq<char>) -> int,
    node: spec_fn(Head, Seq<int>) -> int,
) -> spec_fn(Seq<char>) -> int {
    |name: Seq<char>|
        match crate::rewrite::named_expr_get_spec(subs, name) {
            Some(e) => meaning(e, var, node),
            None => var(name),
        }
}

proof fn replaced_one_by_one(
    es: Seq<ExprView>,
    subs: Seq<(Seq<char>, ExprView)>,
    out: Seq<ExprView>,
    i: int,
)
    requires
        0 <= i <= es.len(),
    ensures
        ({
            let r = crate::rewrite::substitute_exprs_spec(es, subs, out, i);
            &&& r.len() == out.len() + es.len() - i
            &&& forall|j: int| 0 <= j < out.len() ==> #[trigger] r[j] == out[j]
            &&& forall|j: int|
                out.len() <= j < r.len()
                    ==> #[trigger] r[j] == crate::rewrite::substitute_expr_spec(
                    es[i + j - out.len()],
                    subs,
                )
        }),
    decreases es.len() - i,
{
    if i < es.len() {
        replaced_one_by_one(
            es,
            subs,
            out.push(crate::rewrite::substitute_expr_spec(es[i], subs)),
            i + 1,
        );
    }
}

proof fn replaced_list_means_the_same(
    es: Seq<ExprView>,
    rs: Seq<ExprView>,
    subs: Seq<(Seq<char>, ExprView)>,
    var: spec_fn(Seq<char>) -> int,
    node: spec_fn(Head, Seq<int>) -> int,
    i: int,
)
    requires
        0 <= i <= es.len(),
        rs.len() == es.len(),
        forall|j: int| 0 <= j < es.len() ==> is_open(#[trigger] es[j]),
        forall|j: int| 0 <= j < rs.len() ==> #[trigger] rs[j] == crate::rewrite::substitute_expr_spec(
            es[j],
            subs,
        ),
    ensures
        meanings(rs, var, node, i) == meanings(es, with_table(subs, var, node), node, i),
    decreases es, es.len() - i,
{
    if i < es.len() {
        assert(is_open(es[i]));
        assert(rs[i] == crate::rewrite::substitute_expr_spec(es[i], subs));
        replacing_keeps_meaning(es[i], subs, var, node);
        replaced_list_means_the_same(es, rs, subs, var, node, i + 1);
    }
}

/// An expression with variables replaced has the value that the expression has
/// where these variables have the values of what replaces them, all at once.
pub proof fn replacing_keeps_meaning(
    e: ExprView,
    subs: Seq<(Seq<char>, ExprView)>,
    var: spec_fn(Seq<char>) -> int,
    node: spec_fn(Head, Seq<int>) -> int,
)
    requires
        is_open(e),
    ensures
        meaning(
            crate::rewrite::substitute_expr_spec(e, subs),
            var,
            node,
        ) == meaning(e, with_table(subs, var, node), node),
    decreases e, 0int,
{
    match e.kind {
        ExprKindView::Unary { expr, .. } => {
            replacing_keeps_meaning(*expr, subs, var, node);
        },
        ExprKindView::Binary { left, right, .. } => {
            replacing_keeps_meaning(*left, subs, var, node);
            replacing_keeps_meaning(*right, subs, var, node);
        },
        ExprKindView::Cast { expr, .. } => {
            replacing_keeps_meaning(*expr, subs, var, node);
        },
        ExprKindView::Call { args, .. } => {
            replaced_one_by_one(args, subs, Seq::empty(), 0);
            replaced_list_means_the_same(
                args,
                crate::rewrite::substitute_exprs_spec(args, subs, Seq::empty(), 0),
                subs,
                var,
                node,
                0,
            );
        },
        ExprKindView::MethodCall { receiver, args, .. } => {
            replacing_keeps_meaning(*receiver, subs, var, node);
            replaced_one_by_one(args, subs, Seq::empty(), 0);
            replaced_list_means_the_same(
                args,
                crate::rewrite::substitute_exprs_spec(args, subs, Seq::empty(), 0),
                subs,
                var,
                node,
                0,
            );
        },
        ExprKindView::Index { array, index } => {
            replacing_keeps_meaning(*array, subs, var, node);
            replacing_keeps_meaning(*index, subs, var, node);
        },
        ExprKindView::Len { array } => {
            replacing_keeps_meaning(*array, subs, var, node);
        },
        ExprKindView::ArrayLit { elements } => {
            replaced_one_by_one(elements, subs, Seq::empty(), 0);
            replaced_list_means_the_same(
                elements,
                crate::rewrite::substitute_exprs_spec(elements, subs, Seq::empty(), 0),
                subs,
                var,
                node,
                0,
            );
        },
        ExprKindView::Ref { inner } => {
            replacing_keeps_meaning(*inner, subs, var, node);
        },
        ExprKindView::RefMut { inner } => {
            replacing_keeps_meaning(*inner, subs, var, node);
        },
        ExprKindView::Tuple(elements) => {
            replaced_one_by_one(elements, subs, Seq::empty(), 0);
            replaced_list_means_the_same(
                elements,
                crate::rewrite::substitute_exprs_spec(elements, subs, Seq::empty(), 0),
                subs,
                var,
                node,
                0,
            );
        },
        ExprKindView::TupleAccess { tuple, .. } => {
            replacing_keeps_meaning(*tuple, subs, var, node);
        },
        ExprKindView::FieldAccess { object, .. } => {
            replacing_keeps_meaning(*object, subs, var, node);
        },
        ExprKindView::IfExpr { cond, then_value, else_value } => {
            replacing_keeps_meaning(*cond, subs, var, node);
            replacing_keeps_meaning(*then_value, subs, var, node);
            replacing_keeps_meaning(*else_value, subs, var, node);
        },
        ExprKindView::Try { inner } => {
            replacing_keeps_meaning(*inner, subs, var, node);
        },
        _ => {},
    }
}

proof fn entry_found_behind(
    m: Seq<(Seq<char>, ExprView)>,
    x: (Seq<char>, ExprView),
    name: Seq<char>,
    i: int,
)
    requires
        0 <= i <= m.len(),
    ensures
        crate::rewrite::named_expr_find_spec(
            m.push(x),
            name,
            None,
            i,
        ) == match crate::rewrite::named_expr_find_spec(m, name, None, i) {
            Some(v) => Some(v),
            None => if x.0 == name {
                Some(x.1)
            } else {
                None
            },
        },
    decreases m.len() - i,
{
    reveal_with_fuel(crate::rewrite::named_expr_find_spec, 3);
    if i < m.len() {
        assert(m.push(x)[i] == m[i]);
        entry_found_behind(m, x, name, i + 1);
    } else {
        assert(m.push(x)[i] == x);
    }
}

proof fn entry_placed_is_found(
    m: Seq<(Seq<char>, ExprView)>,
    name: Seq<char>,
    v: ExprView,
    out: Seq<(Seq<char>, ExprView)>,
    placed: bool,
    i: int,
    n: Seq<char>,
)
    requires
        0 <= i <= m.len(),
        placed ==> crate::rewrite::named_expr_find_spec(out, name, None, 0) == Some(v),
        !placed ==> crate::rewrite::named_expr_find_spec(out, name, None, 0) is None,
    ensures
        ({
            let (r, done) = crate::rewrite::named_expr_place_spec(m, name, v, out, placed, i);
            &&& done ==> crate::rewrite::named_expr_find_spec(r, name, None, 0) == Some(v)
            &&& !done ==> crate::rewrite::named_expr_find_spec(r, name, None, 0) is None
            &&& n != name
                ==> crate::rewrite::named_expr_find_spec(r, n, None, 0) == match crate::rewrite::named_expr_find_spec(
                    out,
                    n,
                    None,
                    0,
                ) {
                Some(x) => Some(x),
                None => crate::rewrite::named_expr_find_spec(m, n, None, i),
            }
        }),
    decreases m.len() - i,
{
    reveal_with_fuel(crate::rewrite::named_expr_find_spec, 2);
    if i < m.len() {
        let e = m[i];
        if !placed && e.0 == name {
            entry_found_behind(out, (name, v), name, 0);
            entry_found_behind(out, (name, v), n, 0);
            entry_placed_is_found(m, name, v, out.push((name, v)), true, i + 1, n);
        } else if !placed && crate::text::str_less_spec(name, e.0) {
            let mid = out.push((name, v));
            entry_found_behind(out, (name, v), name, 0);
            entry_found_behind(out, (name, v), n, 0);
            entry_found_behind(mid, (e.0, e.1), name, 0);
            entry_found_behind(mid, (e.0, e.1), n, 0);
            entry_placed_is_found(m, name, v, mid.push((e.0, e.1)), true, i + 1, n);
        } else {
            entry_found_behind(out, (e.0, e.1), name, 0);
            entry_found_behind(out, (e.0, e.1), n, 0);
            entry_placed_is_found(m, name, v, out.push((e.0, e.1)), placed, i + 1, n);
        }
    }
}

/// A table gives back the last value that was put under a name, and putting one
/// changes no other.
pub proof fn what_is_put_is_found(
    m: Seq<(Seq<char>, ExprView)>,
    name: Seq<char>,
    v: ExprView,
    n: Seq<char>,
)
    ensures
        crate::rewrite::named_expr_get_spec(
            crate::rewrite::named_expr_put_spec(m, name, v),
            n,
        ) == if n == name {
            Some(v)
        } else {
            crate::rewrite::named_expr_get_spec(m, n)
        },
{
    reveal_with_fuel(crate::rewrite::named_expr_find_spec, 2);
    let none = Seq::<(Seq<char>, ExprView)>::empty();
    entry_placed_is_found(m, name, v, none, false, 0, n);
    entry_placed_is_found(m, name, v, none, false, 0, name);
    let (out, placed) = crate::rewrite::named_expr_place_spec(m, name, v, none, false, 0);
    if !placed {
        entry_found_behind(out, (name, v), n, 0);
    }
}

proof fn bound_from(
    names: Seq<Seq<char>>,
    args: Seq<ExprView>,
    subs: Seq<(Seq<char>, ExprView)>,
    i: int,
    n: Seq<char>,
)
    requires
        0 <= i <= names.len(),
        names.no_duplicates(),
        names.len() <= args.len(),
    ensures
        ({
            let r = crate::rewrite::bind_args_spec(names, args, subs, i);
            &&& forall|k: int| i <= k < names.len()
                ==> crate::rewrite::named_expr_get_spec(r, #[trigger] names[k]) == Some(args[k])
            &&& (forall|k: int| i <= k < names.len() ==> #[trigger] names[k] != n)
                ==> crate::rewrite::named_expr_get_spec(r, n)
                == crate::rewrite::named_expr_get_spec(subs, n)
        }),
    decreases names.len() - i,
{
    if i < names.len() {
        let next = crate::rewrite::named_expr_put_spec(subs, names[i], args[i]);
        what_is_put_is_found(subs, names[i], args[i], n);
        what_is_put_is_found(subs, names[i], args[i], names[i]);
        bound_from(names, args, next, i + 1, n);
        bound_from(names, args, next, i + 1, names[i]);
        assert forall|k: int| i + 1 <= k < names.len() implies #[trigger] names[k] != names[i] by {}
    }
}

/// The table that a contract is filled in with maps each parameter to the
/// argument at its position, and holds no other names.
pub proof fn parameters_get_their_arguments(
    names: Seq<Seq<char>>,
    args: Seq<ExprView>,
    n: Seq<char>,
)
    requires
        names.no_duplicates(),
        names.len() == args.len(),
    ensures
        ({
            let table = crate::rewrite::bind_args_spec(names, args, Seq::empty(), 0);
            &&& forall|k: int| 0 <= k < names.len()
                ==> crate::rewrite::named_expr_get_spec(table, #[trigger] names[k]) == Some(args[k])
            &&& !names.contains(n) ==> crate::rewrite::named_expr_get_spec(table, n) is None
        }),
{
    bound_from(names, args, Seq::empty(), 0, n);
    reveal_with_fuel(crate::rewrite::named_expr_find_spec, 2);
    if !names.contains(n) {
        assert forall|k: int| 0 <= k < names.len() implies #[trigger] names[k] != n by {
            assert(names.contains(names[k]));
        }
    }
}

/// Values of variables in which each parameter has the value of its argument.
pub open spec fn gives_arguments(
    at: spec_fn(Seq<char>) -> int,
    names: Seq<Seq<char>>,
    args: Seq<ExprView>,
    var: spec_fn(Seq<char>) -> int,
    node: spec_fn(Head, Seq<int>) -> int,
) -> bool {
    &&& forall|k: int| 0 <= k < names.len()
        ==> at(#[trigger] names[k]) == meaning(args[k], var, node)
    &&& forall|n: Seq<char>| !names.contains(n) ==> #[trigger] at(n) == var(n)
}

/// A condition over parameters, filled in with arguments, has the value that it
/// has where each parameter has the value of its argument.
proof fn filled_in_means_the_arguments(
    e: ExprView,
    names: Seq<Seq<char>>,
    args: Seq<ExprView>,
    at: spec_fn(Seq<char>) -> int,
    var: spec_fn(Seq<char>) -> int,
    node: spec_fn(Head, Seq<int>) -> int,
)
    requires
        is_open(e),
        names.no_duplicates(),
        names.len() == args.len(),
        gives_arguments(at, names, args, var, node),
    ensures
        meaning(
            crate::rewrite::substitute_expr_spec(
                e,
                crate::rewrite::bind_args_spec(names, args, Seq::empty(), 0),
            ),
            var,
            node,
        ) == meaning(e, at, node),
{
    let table = crate::rewrite::bind_args_spec(names, args, Seq::empty(), 0);
    replacing_keeps_meaning(e, table, var, node);
    assert forall|n: Seq<char>| #[trigger] with_table(table, var, node)(n) == at(n) by {
        parameters_get_their_arguments(names, args, n);
        if names.contains(n) {
            let k = choose|k: int| 0 <= k < names.len() && names[k] == n;
            assert(crate::rewrite::named_expr_get_spec(table, names[k]) == Some(args[k]));
        }
    }
    assert(with_table(table, var, node) =~= at);
}

/// Whether an expression is made of literals, variables and operators.
pub open spec fn is_plain_formula(e: ExprView) -> bool
    decreases e,
{
    match e.kind {
        ExprKindView::Int(_) => true,
        ExprKindView::Float(_) => true,
        ExprKindView::Bool(_) => true,
        ExprKindView::Str(_) => true,
        ExprKindView::Var(_) => true,
        ExprKindView::Unary { expr, .. } => is_plain_formula(*expr),
        ExprKindView::Binary {
            left,
            right,
            ..
        } => is_plain_formula(*left) && is_plain_formula(*right),
        ExprKindView::Cast { expr, .. } => is_plain_formula(*expr),
        _ => false,
    }
}

proof fn plain_formula_is_open(e: ExprView)
    requires
        is_plain_formula(e),
    ensures
        is_open(e),
    decreases e,
{
    match e.kind {
        ExprKindView::Unary { expr, .. } => {
            plain_formula_is_open(*expr);
        },
        ExprKindView::Binary { left, right, .. } => {
            plain_formula_is_open(*left);
            plain_formula_is_open(*right);
        },
        ExprKindView::Cast { expr, .. } => {
            plain_formula_is_open(*expr);
        },
        _ => {},
    }
}

proof fn plain_formula_stays(
    e: ExprView,
    facts: Seq<ExprView>,
    env: EnvView,
    cx: ContextView,
    rw: CallRewriteView,
    st: StateView,
)
    requires
        is_plain_formula(e),
    ensures
        crate::prove::substitute_literal_vec_indices_spec(e, env) == e,
        crate::prove::rewrite_method_calls_to_calls_spec(e, env, cx) == e,
        crate::prove::rewrite_struct_field_accesses_spec(e, env) == e,
        crate::prove::rewrite_calls_to_fresh_vars_spec(e, cx, rw) == (e, rw),
        crate::prove::verify_call_args_in_expr_spec(e, facts, env, cx, st) == st,
    decreases e,
{
    match e.kind {
        ExprKindView::Unary { expr, .. } => {
            plain_formula_stays(*expr, facts, env, cx, rw, st);
        },
        ExprKindView::Binary { left, right, .. } => {
            plain_formula_stays(*left, facts, env, cx, rw, st);
            plain_formula_stays(*right, facts, env, cx, rw, st);
        },
        ExprKindView::Cast { expr, .. } => {
            plain_formula_stays(*expr, facts, env, cx, rw, st);
        },
        _ => {},
    }
}

proof fn plain_arguments_ask_nothing(
    es: Seq<ExprView>,
    facts: Seq<ExprView>,
    env: EnvView,
    cx: ContextView,
    st: StateView,
    i: int,
)
    requires
        0 <= i <= es.len(),
        forall|j: int| 0 <= j < es.len() ==> is_plain_formula(#[trigger] es[j]),
    ensures
        crate::prove::verify_call_args_in_exprs_spec(es, facts, env, cx, st, i) == st,
    decreases es.len() - i,
{
    if i < es.len() {
        assert(is_plain_formula(es[i]));
        plain_formula_stays(es[i], facts, env, cx, arbitrary(), st);
        plain_arguments_ask_nothing(es, facts, env, cx, st, i + 1);
    }
}

proof fn replaced_formula_is_plain(e: ExprView, subs: Seq<(Seq<char>, ExprView)>)
    requires
        is_plain_formula(e),
        forall|n: Seq<char>| (#[trigger] crate::rewrite::named_expr_get_spec(subs, n)) matches Some(x) ==> is_plain_formula(x),
    ensures
        is_plain_formula(crate::rewrite::substitute_expr_spec(e, subs)),
    decreases e,
{
    match e.kind {
        ExprKindView::Unary { expr, .. } => {
            replaced_formula_is_plain(*expr, subs);
        },
        ExprKindView::Binary { left, right, .. } => {
            replaced_formula_is_plain(*left, subs);
            replaced_formula_is_plain(*right, subs);
        },
        ExprKindView::Cast { expr, .. } => {
            replaced_formula_is_plain(*expr, subs);
        },
        _ => {},
    }
}

proof fn facts_stay_behind(
    facts: Seq<ExprView>,
    out: Seq<ExprView>,
    env: EnvView,
    cx: ContextView,
    rw: CallRewriteView,
    i: int,
    f: ExprView,
)
    requires
        0 <= i <= facts.len(),
        is_plain_formula(f),
    ensures
        out.contains(f)
            || (exists|j: int| i <= j < facts.len() && facts[j] == f)
            ==> crate::prove::rewrite_facts_spec(
            facts,
            env,
            cx,
            out,
            i,
        ).contains(f) && crate::prove::rewrite_call_list_spec(facts, cx, out, rw, i).0.contains(f),
    decreases facts.len() - i,
{
    if i < facts.len() {
        let a = crate::prove::rewrite_struct_field_accesses_spec(
            crate::prove::rewrite_method_calls_to_calls_spec(facts[i], env, cx),
            env,
        );
        let (b, rw2) = crate::prove::rewrite_calls_to_fresh_vars_spec(facts[i], cx, rw);
        plain_formula_stays(f, facts, env, cx, rw, arbitrary());
        if out.contains(f) {
            let j = choose|j: int| 0 <= j < out.len() && out[j] == f;
            assert(out.push(a)[j] == f);
            assert(out.push(b)[j] == f);
        }
        if facts[i] == f {
            assert(out.push(a)[out.len() as int] == f);
            assert(out.push(b)[out.len() as int] == f);
        }
        facts_stay_behind(facts, out.push(a), env, cx, rw, i + 1, f);
        facts_stay_behind(facts, out.push(b), env, cx, rw2, i + 1, f);
    }
}

proof fn constants_come_behind(
    bs: Seq<(Seq<char>, VarInfoView)>,
    facts: Seq<ExprView>,
    i: int,
    f: ExprView,
)
    requires
        0 <= i <= bs.len(),
        facts.contains(f),
    ensures
        crate::prove::constant_facts_spec(bs, facts, i).contains(f),
    decreases bs.len() - i,
{
    if i < bs.len() {
        let j = choose|j: int| 0 <= j < facts.len() && facts[j] == f;
        assert forall|x: ExprView| #[trigger] facts.push(x).contains(f) by {
            assert(facts.push(x)[j] == f);
        }
        let name = crate::construct::mk_var_spec(bs[i].0, crate::rewrite::no_span_spec());
        match bs[i].1.constant {
            Some(TypedConstView::Int(v)) => {
                constants_come_behind(
                    bs,
                    facts.push(
                        crate::rewrite::mk_eq_spec(
                            name,
                            crate::construct::mk_int_spec(v, crate::rewrite::no_span_spec()),
                        ),
                    ),
                    i + 1,
                    f,
                );
            },
            Some(TypedConstView::Bool(v)) => {
                constants_come_behind(
                    bs,
                    facts.push(
                        crate::rewrite::mk_eq_spec(
                            name,
                            crate::construct::mk_bool_spec(v, crate::rewrite::no_span_spec()),
                        ),
                    ),
                    i + 1,
                    f,
                );
            },
            _ => {
                constants_come_behind(bs, facts, i + 1, f);
            },
        }
    }
}

/// Whether a question asks for the goal, from at least the facts that are
/// formulas.
pub open spec fn asks_for(q: QueryView, goal: ExprView, facts: Seq<ExprView>) -> bool {
    q matches QueryView::Prove { goal: g, facts: fs, .. } && g == goal && forall|f: ExprView|
        is_plain_formula(f) && #[trigger] facts.contains(f) ==> fs.contains(f)
}

/// A prover is asked for the goal itself, from all the facts that are known.
pub proof fn the_goal_is_asked_from_the_facts(
    goal: ExprView,
    facts: Seq<ExprView>,
    env: EnvView,
    cx: ContextView,
    extra: Seq<(Seq<char>, TypeView)>,
)
    requires
        is_plain_formula(goal),
    ensures
        asks_for(crate::prove::prove_query_spec(goal, facts, env, cx, extra).0, goal, facts),
{
    let none = CallRewriteView { vars: Seq::empty(), facts: Seq::empty(), labels: Seq::empty() };
    plain_formula_stays(goal, facts, env, cx, none, arbitrary());
    let bindings = crate::scope::all_bindings_spec(env);
    let known = crate::prove::current_smt_facts_spec(facts, env);
    let all = known
        + crate::prove::struct_field_vars_spec(bindings, env, Seq::empty(), Seq::empty(), 0).1;
    let rewritten = crate::prove::rewrite_facts_spec(all, env, cx, Seq::empty(), 0);
    let (called, rw) = crate::prove::rewrite_call_list_spec(rewritten, cx, Seq::empty(), none, 0);
    let more = crate::prove::rewrite_struct_field_list_spec(rw.facts, env, Seq::empty(), 0);
    assert forall|f: ExprView| is_plain_formula(f)
        && #[trigger] facts.contains(f) implies (called + more).contains(f) by {
        constants_come_behind(bindings, facts, 0, f);
        let j = choose|j: int| 0 <= j < known.len() && known[j] == f;
        assert(all[j] == f);
        facts_stay_behind(all, Seq::empty(), env, cx, none, 0, f);
        let k = choose|k: int| 0 <= k < rewritten.len() && rewritten[k] == f;
        facts_stay_behind(rewritten, Seq::empty(), env, cx, none, 0, f);
        let m = choose|m: int| 0 <= m < called.len() && called[m] == f;
        assert((called + more)[m] == f);
    }
}

/// Whether the next question can only be put, for want of an answer.
pub open spec fn has_no_answer(st: StateView) -> bool {
    st.used >= st.answers.len() && st.pending is None
}

/// A claim is put to the prover as it is written, with what is known there.
pub proof fn claims_are_asked_as_written(goal: ExprView, cx: ContextView, st: StateView)
    requires
        cx.verify,
        is_plain_formula(goal),
        has_no_answer(st),
    ensures
        crate::prove::try_smt_prove_spec(goal, cx, st).pending matches Some(q)
            && asks_for(q, goal, st.facts),
{
    reveal(crate::prove::try_smt_prove_spec);
    the_goal_is_asked_from_the_facts(goal, st.facts, st.env, cx, Seq::empty());
}

/// Every demand of a called function is put to the prover with the value that
/// it has where each parameter has the value of its argument.
pub proof fn demands_are_asked_of_the_arguments(
    e: ExprView,
    name: Seq<char>,
    args: Seq<ExprView>,
    sig: SignatureView,
    facts: Seq<ExprView>,
    env: EnvView,
    cx: ContextView,
    st: StateView,
    at: spec_fn(Seq<char>) -> int,
    var: spec_fn(Seq<char>) -> int,
    node: spec_fn(Head, Seq<int>) -> int,
)
    requires
        e.kind matches ExprKindView::Call { name: n, args: xs, .. } && n == name && xs == args,
        crate::scope::signature_get_spec(cx.signatures, name) == Some(sig),
        sig.params.len() == args.len(),
        sig.param_names.len() == args.len(),
        sig.param_names.no_duplicates(),
        forall|k: int| 0 <= k < args.len() ==> is_plain_formula(#[trigger] args[k]),
        sig.requires.len() > 0,
        is_plain_formula(sig.requires[0]),
        has_no_answer(st),
        gives_arguments(at, sig.param_names, args, var, node),
    ensures
        crate::prove::verify_call_args_in_expr_spec(e, facts, env, cx, st).pending matches Some(q)
            && exists|goal: ExprView|
            #[trigger] asks_for(q, goal, facts) && meaning(goal, var, node) == meaning(sig.requires[0], at, node),
{
    let table = crate::rewrite::bind_args_spec(sig.param_names, args, Seq::empty(), 0);
    plain_arguments_ask_nothing(args, facts, env, cx, st, 0);
    formulas_in_a_table(sig.param_names, args);
    demand_is_asked(sig.requires, name, e.span, table, facts, env, cx, st, 0);
    plain_formula_is_open(sig.requires[0]);
    filled_in_means_the_arguments(sig.requires[0], sig.param_names, args, at, var, node);
}

proof fn formulas_in_a_table(names: Seq<Seq<char>>, args: Seq<ExprView>)
    requires
        names.no_duplicates(),
        names.len() == args.len(),
        forall|k: int| 0 <= k < args.len() ==> is_plain_formula(#[trigger] args[k]),
    ensures
        forall|n: Seq<char>|
            (#[trigger] crate::rewrite::named_expr_get_spec(crate::rewrite::bind_args_spec(names, args, Seq::empty(), 0), n)) matches Some(x)
                ==> is_plain_formula(x),
{
    let table = crate::rewrite::bind_args_spec(names, args, Seq::empty(), 0);
    assert forall|n: Seq<char>| (#[trigger] crate::rewrite::named_expr_get_spec(table, n)) matches Some(x) implies is_plain_formula(
        crate::rewrite::named_expr_get_spec(table, n)->0,
    ) by {
        parameters_get_their_arguments(names, args, n);
        let k = choose|k: int| 0 <= k < names.len() && names[k] == n;
        assert(crate::rewrite::named_expr_get_spec(table, names[k]) == Some(args[k]));
        assert(is_plain_formula(args[k]));
    }
}

proof fn later_demands_change_nothing(
    reqs: Seq<ExprView>,
    name: Seq<char>,
    span: Span,
    subs: Seq<(Seq<char>, ExprView)>,
    facts: Seq<ExprView>,
    env: EnvView,
    cx: ContextView,
    st: StateView,
    i: int,
)
    requires
        0 <= i <= reqs.len(),
        st.used >= st.answers.len(),
        st.pending is Some,
    ensures
        crate::prove::verify_each_requires_spec(
            reqs,
            name,
            span,
            subs,
            facts,
            env,
            cx,
            st,
            i,
        ) == st,
    decreases reqs.len() - i,
{
    if i < reqs.len() {
        later_demands_change_nothing(reqs, name, span, subs, facts, env, cx, st, i + 1);
    }
}

/// A demand is put to the prover with the table filled in; those behind it wait.
pub proof fn demand_is_asked(
    reqs: Seq<ExprView>,
    name: Seq<char>,
    span: Span,
    subs: Seq<(Seq<char>, ExprView)>,
    facts: Seq<ExprView>,
    env: EnvView,
    cx: ContextView,
    st: StateView,
    i: int,
)
    requires
        0 <= i < reqs.len(),
        is_plain_formula(reqs[i]),
        forall|n: Seq<char>| (#[trigger] crate::rewrite::named_expr_get_spec(subs, n)) matches Some(x) ==> is_plain_formula(x),
        has_no_answer(st),
    ensures
        crate::prove::verify_each_requires_spec(
            reqs,
            name,
            span,
            subs,
            facts,
            env,
            cx,
            st,
            i,
        ).pending matches Some(q)
            && asks_for(
            q,
            crate::rewrite::substitute_expr_spec(reqs[i], subs),
            facts,
        ),
{
    let goal = crate::rewrite::substitute_expr_spec(reqs[i], subs);
    replaced_formula_is_plain(reqs[i], subs);
    the_goal_is_asked_from_the_facts(goal, facts, env, cx, Seq::empty());
    let asked = crate::prove::prove_with_calls_spec(goal, facts, env, cx, st).1;
    later_demands_change_nothing(reqs, name, span, subs, facts, env, cx, asked, i + 1);
}

/// What a function ensures is recorded of a call's result, condition by
/// condition, each with the value that it has where the parameters have the
/// values of the arguments and `_return` that of the result.
pub proof fn promises_are_recorded_of_the_result(
    callee: Seq<char>,
    args: Seq<ExprView>,
    result: ExprView,
    sig: SignatureView,
    signatures: Seq<(Seq<char>, SignatureView)>,
    facts: Seq<ExprView>,
    at: spec_fn(Seq<char>) -> int,
    var: spec_fn(Seq<char>) -> int,
    node: spec_fn(Head, Seq<int>) -> int,
    i: int,
)
    requires
        crate::scope::signature_get_spec(signatures, callee) == Some(sig),
        sig.param_names.len() == args.len(),
        sig.params.len() == args.len(),
        sig.param_names.no_duplicates(),
        0 <= i < sig.ensures.len(),
        is_open(sig.ensures[i]),
        at("_return"@) == meaning(result, var, node),
        forall|k: int|
            0 <= k < args.len()
                && sig.param_names[k] != "_return"@
                ==> at(#[trigger] sig.param_names[k]) == meaning(
                args[k],
                var,
                node,
            ),
        forall|n: Seq<char>| !sig.param_names.contains(n) && n != "_return"@ ==> #[trigger] at(n) == var(n),
    ensures
        ({
            let r = crate::rewrite::record_ensures_facts_spec(
                callee,
                args,
                result,
                signatures,
                facts,
            );
            &&& r.len() == facts.len() + sig.ensures.len()
            &&& forall|j: int| 0 <= j < facts.len() ==> #[trigger] r[j] == facts[j]
            &&& meaning(r[facts.len() + i], var, node) == meaning(sig.ensures[i], at, node)
        }),
{
    let names = sig.param_names;
    let table = crate::rewrite::bind_args_spec(names, args, Seq::empty(), 0);
    let full = crate::rewrite::named_expr_put_spec(table, "_return"@, result);
    replacing_keeps_meaning(sig.ensures[i], full, var, node);
    assert forall|n: Seq<char>| #[trigger] with_table(full, var, node)(n) == at(n) by {
        what_is_put_is_found(table, "_return"@, result, n);
        parameters_get_their_arguments(names, args, n);
        if names.contains(n) {
            let k = choose|k: int| 0 <= k < names.len() && names[k] == n;
            assert(crate::rewrite::named_expr_get_spec(table, names[k]) == Some(args[k]));
        }
    }
    assert(with_table(full, var, node) =~= at);
}

/// What a function ensures is put to the prover of the value that it returns.
pub proof fn promises_are_asked_of_the_result(
    enss: Seq<ExprView>,
    name: Seq<char>,
    returned: ExprView,
    cx: ContextView,
    st: StateView,
    i: int,
    at: spec_fn(Seq<char>) -> int,
    var: spec_fn(Seq<char>) -> int,
    node: spec_fn(Head, Seq<int>) -> int,
)
    requires
        0 <= i < enss.len(),
        is_plain_formula(enss[i]),
        is_plain_formula(returned),
        has_no_answer(st),
        at("_return"@) == meaning(returned, var, node),
        forall|n: Seq<char>| n != "_return"@ ==> #[trigger] at(n) == var(n),
    ensures
        crate::prove::verify_each_ensures_spec(
            enss,
            name,
            returned,
            cx,
            st,
            i,
        ).pending matches Some(q)
            && exists|goal: ExprView|
            #[trigger] asks_for(q, goal, st.facts) && meaning(goal, var, node) == meaning(enss[i], at, node),
{
    let none = Seq::<(Seq<char>, ExprView)>::empty();
    let table = crate::rewrite::named_expr_put_spec(none, "_return"@, returned);
    let goal = crate::rewrite::substitute_expr_spec(enss[i], table);
    assert forall|n: Seq<char>| #[trigger] crate::rewrite::named_expr_get_spec(
        table,
        n,
    ) == if n == "_return"@ {
        Some(returned)
    } else {
        None
    } by {
        what_is_put_is_found(none, "_return"@, returned, n);
        reveal_with_fuel(crate::rewrite::named_expr_find_spec, 2);
    }
    plain_formula_is_open(enss[i]);
    replaced_formula_is_plain(enss[i], table);
    replacing_keeps_meaning(enss[i], table, var, node);
    assert(with_table(table, var, node) =~= at);
    the_goal_is_asked_from_the_facts(goal, st.facts, st.env, cx, Seq::empty());
    let asked = crate::prove::prove_with_calls_spec(goal, st.facts, st.env, cx, st).1;
    later_promises_change_nothing(enss, name, returned, cx, asked, i + 1);
}

proof fn later_promises_change_nothing(
    enss: Seq<ExprView>,
    name: Seq<char>,
    returned: ExprView,
    cx: ContextView,
    st: StateView,
    i: int,
)
    requires
        0 <= i <= enss.len(),
        st.used >= st.answers.len(),
        st.pending is Some,
    ensures
        crate::prove::verify_each_ensures_spec(enss, name, returned, cx, st, i) == st,
    decreases enss.len() - i,
{
    if i < enss.len() {
        later_promises_change_nothing(enss, name, returned, cx, st, i + 1);
    }
}

/// The values of variables after one of them was set.
pub open spec fn set_to(
    var: spec_fn(Seq<char>) -> int,
    name: Seq<char>,
    v: int,
) -> spec_fn(Seq<char>) -> int {
    |n: Seq<char>| if n == name { v } else { var(n) }
}

/// The values of variables after a run of assignments.
pub open spec fn run_of(
    ss: Seq<StmtView>,
    i: int,
    var: spec_fn(Seq<char>) -> int,
    node: spec_fn(Head, Seq<int>) -> int,
) -> spec_fn(Seq<char>) -> int
    decreases ss.len() - i,
{
    if 0 <= i < ss.len() {
        match ss[i] {
            StmtView::Assign { name, expr, .. } => run_of(
                ss,
                i + 1,
                set_to(var, name, meaning(expr, var, node)),
                node,
            ),
            StmtView::Let { name, expr, .. } => run_of(
                ss,
                i + 1,
                set_to(var, name, meaning(expr, var, node)),
                node,
            ),
            _ => run_of(ss, i + 1, var, node),
        }
    } else {
        var
    }
}

/// Whether statements only assign, or leave all values alone.
pub open spec fn only_assigns(ss: Seq<StmtView>) -> bool {
    forall|i: int|
        0 <= i < ss.len() ==> match #[trigger] ss[i] {
            StmtView::Assign { expr, .. } => is_open(expr),
            StmtView::Let { expr, .. } => is_open(expr),
            StmtView::Assert { .. } => true,
            StmtView::Prove { .. } => true,
            StmtView::Print { .. } => true,
            _ => false,
        }
}

/// The table of what a body assigns gives each variable the value that it has
/// after the body was run, in terms of the values before it.
pub proof fn reassignments_follow_the_run(
    ss: Seq<StmtView>,
    env: EnvView,
    subs: Seq<(Seq<char>, ExprView)>,
    vars: Seq<(Seq<char>, TypeView)>,
    var: spec_fn(Seq<char>) -> int,
    node: spec_fn(Head, Seq<int>) -> int,
    i: int,
)
    requires
        0 <= i <= ss.len(),
        only_assigns(ss),
    ensures
        with_table(
            crate::prove::walk_for_reassigns_spec(ss, env, subs, vars, i).0,
            var,
            node,
        ) == run_of(
            ss,
            i,
            with_table(subs, var, node),
            node,
        ),
        crate::prove::walk_for_reassigns_spec(ss, env, subs, vars, i).1 == vars,
    decreases ss.len() - i,
{
    reveal_with_fuel(crate::prove::walk_for_reassigns_spec, 2);
    reveal_with_fuel(crate::prove::reassigns_in_stmt_spec, 2);
    if i < ss.len() {
        match ss[i] {
            StmtView::Assign { name, expr, .. } => {
                one_more_assignment(name, expr, subs, var, node);
                let next = crate::rewrite::named_expr_put_spec(
                    subs,
                    name,
                    crate::rewrite::substitute_expr_spec(expr, subs),
                );
                reassignments_follow_the_run(ss, env, next, vars, var, node, i + 1);
            },
            StmtView::Let { name, expr, .. } => {
                one_more_assignment(name, expr, subs, var, node);
                let next = crate::rewrite::named_expr_put_spec(
                    subs,
                    name,
                    crate::rewrite::substitute_expr_spec(expr, subs),
                );
                reassignments_follow_the_run(ss, env, next, vars, var, node, i + 1);
            },
            _ => {
                reassignments_follow_the_run(ss, env, subs, vars, var, node, i + 1);
            },
        }
    }
}

proof fn one_more_assignment(
    name: Seq<char>,
    expr: ExprView,
    subs: Seq<(Seq<char>, ExprView)>,
    var: spec_fn(Seq<char>) -> int,
    node: spec_fn(Head, Seq<int>) -> int,
)
    requires
        is_open(expr),
    ensures
        with_table(
            crate::rewrite::named_expr_put_spec(
                subs,
                name,
                crate::rewrite::substitute_expr_spec(expr, subs),
            ),
            var,
            node,
        ) == set_to(
            with_table(subs, var, node),
            name,
            meaning(expr, with_table(subs, var, node), node),
        ),
{
    let value = crate::rewrite::substitute_expr_spec(expr, subs);
    let next = crate::rewrite::named_expr_put_spec(subs, name, value);
    let want = set_to(
        with_table(subs, var, node),
        name,
        meaning(expr, with_table(subs, var, node), node),
    );
    replacing_keeps_meaning(expr, subs, var, node);
    assert forall|n: Seq<char>| #[trigger] with_table(next, var, node)(n) == want(n) by {
        what_is_put_is_found(subs, name, value, n);
    }
    assert(with_table(next, var, node) =~= want);
}

proof fn unread_list_does_not_matter(
    es: Seq<ExprView>,
    name: Seq<char>,
    v: int,
    var: spec_fn(Seq<char>) -> int,
    node: spec_fn(Head, Seq<int>) -> int,
    i: int,
)
    requires
        0 <= i <= es.len(),
        forall|j: int| 0 <= j < es.len() ==> is_open(#[trigger] es[j]) && !crate::rewrite::expr_mentions_spec(
            es[j],
            name,
        ),
    ensures
        meanings(es, set_to(var, name, v), node, i) == meanings(es, var, node, i),
    decreases es, es.len() - i,
{
    if i < es.len() {
        assert(is_open(es[i]) && !crate::rewrite::expr_mentions_spec(es[i], name));
        unread_variable_does_not_matter(es[i], name, v, var, node);
        unread_list_does_not_matter(es, name, v, var, node, i + 1);
    }
}

/// An expression that does not read a variable has the same value whatever the
/// variable is set to.
pub proof fn unread_variable_does_not_matter(
    e: ExprView,
    name: Seq<char>,
    v: int,
    var: spec_fn(Seq<char>) -> int,
    node: spec_fn(Head, Seq<int>) -> int,
)
    requires
        is_open(e),
        !crate::rewrite::expr_mentions_spec(e, name),
    ensures
        meaning(e, set_to(var, name, v), node) == meaning(e, var, node),
    decreases e, 0int,
{
    match e.kind {
        ExprKindView::Unary { expr, .. } => {
            unread_variable_does_not_matter(*expr, name, v, var, node);
        },
        ExprKindView::Binary { left, right, .. } => {
            unread_variable_does_not_matter(*left, name, v, var, node);
            unread_variable_does_not_matter(*right, name, v, var, node);
        },
        ExprKindView::Cast { expr, .. } => {
            unread_variable_does_not_matter(*expr, name, v, var, node);
        },
        ExprKindView::Call { args, .. } => {
            assert(!crate::rewrite::any_mentions_spec(args, name));
            assert forall|j: int| 0 <= j < args.len() implies is_open(#[trigger] args[j])
                && !crate::rewrite::expr_mentions_spec(args[j], name) by {}
            unread_list_does_not_matter(args, name, v, var, node, 0);
        },
        ExprKindView::MethodCall { receiver, args, .. } => {
            unread_variable_does_not_matter(*receiver, name, v, var, node);
            assert(!crate::rewrite::any_mentions_spec(args, name));
            assert forall|j: int| 0 <= j < args.len() implies is_open(#[trigger] args[j])
                && !crate::rewrite::expr_mentions_spec(args[j], name) by {}
            unread_list_does_not_matter(args, name, v, var, node, 0);
        },
        ExprKindView::Index { array, index } => {
            unread_variable_does_not_matter(*array, name, v, var, node);
            unread_variable_does_not_matter(*index, name, v, var, node);
        },
        ExprKindView::Len { array } => {
            unread_variable_does_not_matter(*array, name, v, var, node);
        },
        ExprKindView::ArrayLit { elements } => {
            assert(!crate::rewrite::any_mentions_spec(elements, name));
            assert forall|j: int| 0 <= j < elements.len() implies is_open(#[trigger] elements[j])
                && !crate::rewrite::expr_mentions_spec(elements[j], name) by {}
            unread_list_does_not_matter(elements, name, v, var, node, 0);
        },
        ExprKindView::Ref { inner } => {
            unread_variable_does_not_matter(*inner, name, v, var, node);
        },
        ExprKindView::RefMut { inner } => {
            unread_variable_does_not_matter(*inner, name, v, var, node);
        },
        ExprKindView::Tuple(elements) => {
            assert(!crate::rewrite::any_mentions_spec(elements, name));
            assert forall|j: int| 0 <= j < elements.len() implies is_open(#[trigger] elements[j])
                && !crate::rewrite::expr_mentions_spec(elements[j], name) by {}
            unread_list_does_not_matter(elements, name, v, var, node, 0);
        },
        ExprKindView::TupleAccess { tuple, .. } => {
            unread_variable_does_not_matter(*tuple, name, v, var, node);
        },
        ExprKindView::FieldAccess { object, .. } => {
            unread_variable_does_not_matter(*object, name, v, var, node);
        },
        ExprKindView::IfExpr { cond, then_value, else_value } => {
            unread_variable_does_not_matter(*cond, name, v, var, node);
            unread_variable_does_not_matter(*then_value, name, v, var, node);
            unread_variable_does_not_matter(*else_value, name, v, var, node);
        },
        ExprKindView::Try { inner } => {
            unread_variable_does_not_matter(*inner, name, v, var, node);
        },
        _ => {},
    }
}

/// What is still known after a variable was forgotten is as true as before,
/// whatever the variable is set to.
pub proof fn kept_facts_do_not_depend(
    st: StateView,
    name: Seq<char>,
    f: ExprView,
    v: int,
    var: spec_fn(Seq<char>) -> int,
    node: spec_fn(Head, Seq<int>) -> int,
)
    requires
        crate::rewrite::forget_spec(st, name).facts.contains(f),
        is_open(f),
    ensures
        st.facts.contains(f),
        meaning(f, set_to(var, name, v), node) == meaning(f, var, node),
{
    crate::rewrite::forgotten_facts_are_gone(st.facts, name, f);
    unread_variable_does_not_matter(f, name, v, var, node);
}

/// Whether all of the conditions are true.
pub open spec fn all_true(
    es: Seq<ExprView>,
    value: spec_fn(ExprView) -> int,
    atom: spec_fn(ExprView) -> bool,
) -> bool {
    forall|i: int| 0 <= i < es.len() ==> crate::rewrite::truth(#[trigger] es[i], value, atom)
}

/// Whether none of the conditions is true.
pub open spec fn none_true(
    es: Seq<ExprView>,
    value: spec_fn(ExprView) -> int,
    atom: spec_fn(ExprView) -> bool,
) -> bool {
    forall|i: int| 0 <= i < es.len() ==> !crate::rewrite::truth(#[trigger] es[i], value, atom)
}

/// What comes behind the facts that there were.
pub open spec fn facts_behind(before: Seq<ExprView>, after: Seq<ExprView>) -> Seq<ExprView> {
    after.subrange(before.len() as int, after.len() as int)
}

/// Facts with more behind them, which are true exactly where some conditions
/// hold and others fail.
#[verifier::opaque]
pub open spec fn knows_more(
    before: Seq<ExprView>,
    after: Seq<ExprView>,
    met: Seq<ExprView>,
    failed: Seq<ExprView>,
) -> bool {
    &&& before.is_prefix_of(after)
    &&& forall|value: spec_fn(ExprView) -> int, atom: spec_fn(ExprView) -> bool|
        #[trigger] all_true(facts_behind(before, after), value, atom) == (all_true(met, value, atom) && none_true(
            failed,
            value,
            atom,
        ))
}

/// A condition, or its negation, behind the facts says that it holds or fails.
pub proof fn knows_a_condition(facts: Seq<ExprView>, cond: ExprView)
    ensures
        knows_more(facts, facts.push(cond), seq![cond], Seq::empty()),
        knows_more(facts, facts.push(crate::rewrite::negate_spec(cond)), Seq::empty(), seq![cond]),
{
    reveal(knows_more);
    let a = facts_behind(facts, facts.push(cond));
    let b = facts_behind(facts, facts.push(crate::rewrite::negate_spec(cond)));
    assert(a =~= seq![cond]);
    assert(b =~= seq![crate::rewrite::negate_spec(cond)]);
    assert forall|value: spec_fn(ExprView) -> int, atom: spec_fn(ExprView) -> bool|
        #[trigger] all_true(b, value, atom) == (all_true(Seq::empty(), value, atom) && none_true(
            seq![cond],
            value,
            atom,
        )) by {
        crate::rewrite::negation_negates(cond, value, atom);
        assert(b[0] == crate::rewrite::negate_spec(cond));
        assert(seq![cond][0] == cond);
    }
}

/// So do conditions as they are.
pub proof fn knows_conditions(facts: Seq<ExprView>, more: Seq<ExprView>)
    ensures
        knows_more(facts, facts + more, more, Seq::empty()),
{
    reveal(knows_more);
    assert(facts_behind(facts, facts + more) =~= more);
}

/// What is learned twice is known together.
pub proof fn knows_both(
    a: Seq<ExprView>,
    b: Seq<ExprView>,
    c: Seq<ExprView>,
    met: Seq<ExprView>,
    failed: Seq<ExprView>,
    met2: Seq<ExprView>,
    failed2: Seq<ExprView>,
)
    requires
        knows_more(a, b, met, failed),
        knows_more(b, c, met2, failed2),
    ensures
        knows_more(a, c, met + met2, failed + failed2),
{
    reveal(knows_more);
    let x = facts_behind(a, b);
    let y = facts_behind(b, c);
    assert(facts_behind(a, c) =~= x + y);
    assert forall|value: spec_fn(ExprView) -> int, atom: spec_fn(ExprView) -> bool|
        #[trigger] all_true(facts_behind(a, c), value, atom) == (all_true(met + met2, value, atom) && none_true(
            failed + failed2,
            value,
            atom,
        )) by {
        both_true(x, y, value, atom);
        both_true(met, met2, value, atom);
        both_true(failed, failed2, value, atom);
        assert(
            all_true(
                x,
                value,
                atom,
            ) == (all_true(met, value, atom) && none_true(failed, value, atom))
        );
        assert(
            all_true(
                y,
                value,
                atom,
            ) == (all_true(met2, value, atom) && none_true(failed2, value, atom))
        );
    }
}

proof fn both_true(
    a: Seq<ExprView>,
    b: Seq<ExprView>,
    value: spec_fn(ExprView) -> int,
    atom: spec_fn(ExprView) -> bool,
)
    ensures
        all_true(a + b, value, atom) == (all_true(a, value, atom) && all_true(b, value, atom)),
        none_true(a + b, value, atom) == (none_true(a, value, atom) && none_true(b, value, atom)),
{
    let c = a + b;
    assert forall|i: int| 0 <= i < a.len() implies #[trigger] a[i] == c[i] by {}
    assert forall|i: int| 0 <= i < b.len() implies #[trigger] b[i] == c[a.len() + i] by {}
    if all_true(a, value, atom) && all_true(b, value, atom) {
        assert forall|i: int| 0 <= i < c.len() implies crate::rewrite::truth(
            #[trigger] c[i],
            value,
            atom,
        ) by {
            if i < a.len() {
                assert(crate::rewrite::truth(a[i], value, atom));
            } else {
                assert(crate::rewrite::truth(b[i - a.len()], value, atom));
            }
        }
    }
    if none_true(a, value, atom) && none_true(b, value, atom) {
        assert forall|i: int| 0 <= i < c.len() implies !crate::rewrite::truth(
            #[trigger] c[i],
            value,
            atom,
        ) by {
            if i < a.len() {
                assert(!crate::rewrite::truth(a[i], value, atom));
            } else {
                assert(!crate::rewrite::truth(b[i - a.len()], value, atom));
            }
        }
    }
}

proof fn later_invariants_wait(
    invs: Seq<ExprView>,
    facts: Seq<ExprView>,
    env: EnvView,
    cx: ContextView,
    phrase: Seq<char>,
    subs: Seq<(Seq<char>, ExprView)>,
    extra: Seq<(Seq<char>, TypeView)>,
    st: StateView,
    i: int,
)
    requires
        0 <= i <= invs.len(),
        st.used >= st.answers.len(),
        st.pending is Some,
    ensures
        crate::prove::verify_each_invariant_spec(
            invs,
            facts,
            env,
            cx,
            phrase,
            subs,
            extra,
            st,
            i,
        ).pending == st.pending,
    decreases invs.len() - i,
{
    if i < invs.len() {
        let goal = crate::rewrite::substitute_expr_spec(invs[i], subs);
        let (v, next) = crate::prove::prove_with_calls_extra_spec(goal, facts, env, cx, extra, st);
        assert(next == st);
        let after = match crate::prove::invariant_failure_spec(v, phrase) {
            Some(message) => crate::scope::report_spec(st, invs[i].span, message),
            None => st,
        };
        later_invariants_wait(invs, facts, env, cx, phrase, subs, extra, after, i + 1);
    }
}

/// An invariant is put to the prover with the value that it has where each
/// variable of a table has the value found there: at the end of a round, the
/// value that the round gave it.
pub proof fn invariants_are_asked_of_the_new_values(
    invs: Seq<ExprView>,
    facts: Seq<ExprView>,
    env: EnvView,
    cx: ContextView,
    phrase: Seq<char>,
    subs: Seq<(Seq<char>, ExprView)>,
    extra: Seq<(Seq<char>, TypeView)>,
    st: StateView,
    i: int,
    var: spec_fn(Seq<char>) -> int,
    node: spec_fn(Head, Seq<int>) -> int,
)
    requires
        0 <= i < invs.len(),
        is_plain_formula(invs[i]),
        forall|n: Seq<char>| (#[trigger] crate::rewrite::named_expr_get_spec(subs, n)) matches Some(x) ==> is_plain_formula(x),
        has_no_answer(st),
    ensures
        crate::prove::verify_each_invariant_spec(
            invs,
            facts,
            env,
            cx,
            phrase,
            subs,
            extra,
            st,
            i,
        ).pending matches Some(q)
            && exists|goal: ExprView|
            #[trigger] asks_for(q, goal, facts) && meaning(goal, var, node) == meaning(
                invs[i],
                with_table(subs, var, node),
                node,
            ),
{
    let goal = crate::rewrite::substitute_expr_spec(invs[i], subs);
    plain_formula_is_open(invs[i]);
    replaced_formula_is_plain(invs[i], subs);
    replacing_keeps_meaning(invs[i], subs, var, node);
    the_goal_is_asked_from_the_facts(goal, facts, env, cx, extra);
    let (v, asked) = crate::prove::prove_with_calls_extra_spec(goal, facts, env, cx, extra, st);
    let after = match crate::prove::invariant_failure_spec(v, phrase) {
        Some(message) => crate::scope::report_spec(asked, invs[i].span, message),
        None => asked,
    };
    assert(asked.pending matches Some(q) && asks_for(q, goal, facts));
    later_invariants_wait(invs, facts, env, cx, phrase, subs, extra, after, i + 1);
}

} // verus!
