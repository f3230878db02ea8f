//! Rewriting expressions: substitution, negation, pinning, comparison, and the
//! facts that built-in calls give.

use vstd::prelude::*;
use crate::ast::{
    BinaryOp, Expr, ExprKind, ExprKindView, ExprView, MatchArm, MatchArmView, Pattern, PatternView,
    Span, Stmt, StmtView, UnaryOp, binary_symbol, type_text, unary_symbol,
};
use crate::construct::{
    mk_arm, mk_array, mk_binary, mk_block, mk_bool, mk_call, mk_cast, mk_field, mk_float, mk_if,
    mk_index, mk_int, mk_len, mk_let, mk_match, mk_method_call, mk_ref, mk_ref_mut, mk_str,
    mk_struct_lit, mk_try, mk_tuple, mk_tuple_access, mk_unary, mk_var,
};
use crate::ir::{
    TypedExpr, TypedExprKind, TypedExprKindView, TypedExprView, TypedMatchArm, TypedMatchArmView,
    TypedStmt, TypedStmtView,
};
use crate::numeric::{bool_text};
use crate::scope::{signature_get};
use crate::state::{Signature, SignatureView, State, StateView};
use crate::text::{
    cat2, cat3, cat4, cat6, cat7, chars_of, extend, int_text, join, push, put, str_eq, str_less,
    text, text_of,
};
use crate::types::{type_eq};

verus! {

broadcast use {
    crate::text::group_text_views,
    crate::ast::group_ast_views,
    crate::diagnostic::group_diagnostic_views,
    crate::ir::group_ir_views,
    crate::state::group_state_views,
    crate::state::group_extends,
};

/// What [`named_expr_find`] computes from position `i` on.
pub open spec fn named_expr_find_spec(
    m: Seq<(Seq<char>, ExprView)>,
    name: Seq<char>,
    found: Option<ExprView>,
    i: int,
) -> Option<ExprView>
    decreases m.len() - i,
{
    if 0 <= i < m.len() && !found.is_some() {
        let e = m[i];
        let found = if e.0 == name {
            Some(e.1)
        } else {
            found
        };
        named_expr_find_spec(m, name, found, i + 1)
    } else {
        found
    }
}

pub fn named_expr_find(
    m: &Vec<(String, Expr)>,
    name: &str,
    found: Option<Expr>,
) -> (r: Option<Expr>)
    ensures
        (match &r { Some(v0) => Some(v0@), None => None }) == named_expr_find_spec(
            crate::ast::named_exprs_view(m@),
            name@,
            (match &found { Some(v0) => Some(v0@), None => None }),
            0,
        ),
{
    let ghost whole_run = named_expr_find_spec(
        crate::ast::named_exprs_view(m@),
        name@,
        (match &found { Some(v0) => Some(v0@), None => None }),
        0,
    );
    let mut found = found;
    let mut i: usize = 0;
    while i < m.len() && !found.is_some()
        invariant
            i <= m.len(),
            named_expr_find_spec(
                crate::ast::named_exprs_view(m@),
                name@,
                (match &found { Some(v0) => Some(v0@), None => None }),
                i as int,
            ) == whole_run,
        decreases m.len() - i,
    {
        let e = &m[i];
        found = if str_eq(&e.0, name) {
            Some(e.1.dup())
        } else {
            found
        };
        i += 1;
    }
    found
}

/// What [`named_expr_get`] computes.
pub open spec fn named_expr_get_spec(
    m: Seq<(Seq<char>, ExprView)>,
    name: Seq<char>,
) -> Option<ExprView>
{
    named_expr_find_spec(m, name, None, 0)
}

/// The value of a name.
pub fn named_expr_get(m: &Vec<(String, Expr)>, name: &str) -> (r: Option<Expr>)
    ensures
        (match &r { Some(v0) => Some(v0@), None => None }) == named_expr_get_spec(
            crate::ast::named_exprs_view(m@),
            name@,
        ),
{
    named_expr_find(m, name, None)
}

/// What [`named_expr_has`] computes.
pub open spec fn named_expr_has_spec(m: Seq<(Seq<char>, ExprView)>, name: Seq<char>) -> bool
{
    named_expr_get_spec(m, name).is_some()
}

/// Whether a name has a value.
pub fn named_expr_has(m: &Vec<(String, Expr)>, name: &str) -> (r: bool)
    ensures
        r == named_expr_has_spec(crate::ast::named_exprs_view(m@), name@),
{
    named_expr_get(m, name).is_some()
}

/// What [`named_expr_place`] computes from position `i` on.
pub open spec fn named_expr_place_spec(
    m: Seq<(Seq<char>, ExprView)>,
    name: Seq<char>,
    v: ExprView,
    out: Seq<(Seq<char>, ExprView)>,
    placed: bool,
    i: int,
) -> (Seq<(Seq<char>, ExprView)>, bool)
    decreases m.len() - i,
{
    if 0 <= i < m.len() {
        let e = m[i];
        let (out, placed) = if placed {
            (out.push((e.0, e.1)), true)
        } else if e.0 == name {
            (out.push((name, v)), true)
        } else if crate::text::str_less_spec(name, e.0) {
            (out.push((name, v)).push((e.0, e.1)), true)
        } else {
            (out.push((e.0, e.1)), false)
        };
        named_expr_place_spec(m, name, v, out, placed, i + 1)
    } else {
        (out, placed)
    }
}

pub fn named_expr_place(
    m: &Vec<(String, Expr)>,
    name: &str,
    v: &Expr,
    out: Vec<(String, Expr)>,
    placed: bool,
) -> (r: (Vec<(String, Expr)>, bool))
    ensures
        (crate::ast::named_exprs_view(r.0@), r.1) == named_expr_place_spec(
            crate::ast::named_exprs_view(m@),
            name@,
            v@,
            crate::ast::named_exprs_view(out@),
            placed,
            0,
        ),
{
    let ghost whole_run = named_expr_place_spec(
        crate::ast::named_exprs_view(m@),
        name@,
        v@,
        crate::ast::named_exprs_view(out@),
        placed,
        0,
    );
    let mut out = out;
    let mut placed = placed;
    let mut i: usize = 0;
    while i < m.len()
        invariant
            i <= m.len(),
            named_expr_place_spec(
                crate::ast::named_exprs_view(m@),
                name@,
                v@,
                crate::ast::named_exprs_view(out@),
                placed,
                i as int,
            ) == whole_run,
        decreases m.len() - i,
    {
        let e = &m[i];
        let next = if placed {
            (push(out, (e.0.clone(), e.1.dup())), true)
        } else if str_eq(&e.0, name) {
            (push(out, (text(name), v.dup())), true)
        } else if str_less(name, &e.0) {
            (push(push(out, (text(name), v.dup())), (e.0.clone(), e.1.dup())), true)
        } else {
            (push(out, (e.0.clone(), e.1.dup())), false)
        };
        out = next.0;
        placed = next.1;
        i += 1;
    }
    (out, placed)
}

/// What [`named_expr_put`] computes.
pub open spec fn named_expr_put_spec(
    m: Seq<(Seq<char>, ExprView)>,
    name: Seq<char>,
    v: ExprView,
) -> Seq<(Seq<char>, ExprView)>
{
    let (out, placed) = named_expr_place_spec(m, name, v, Seq::empty(), false, 0);
    if placed {
        out
    } else {
        out.push((name, v))
    }
}

/// The map, ordered by name, with a name's value set.
pub fn named_expr_put(m: &Vec<(String, Expr)>, name: &str, v: &Expr) -> (r: Vec<(String, Expr)>)
    ensures
        crate::ast::named_exprs_view(r@) == named_expr_put_spec(
            crate::ast::named_exprs_view(m@),
            name@,
            v@,
        ),
{
    let (out, placed) = named_expr_place(m, name, v, Vec::new(), false);
    if placed {
        out
    } else {
        push(out, (text(name), v.dup()))
    }
}

pub open spec fn contains_char_spec(s: Seq<char>, c: char) -> bool {
    s.contains(c)
}

pub fn contains_char(s: &str, c: char) -> (r: bool)
    ensures
        r == contains_char_spec(s@, c),
{
    let cs = chars_of(s);
    let mut i: usize = 0;
    while i < cs.len()
        invariant
            i <= cs.len(),
            cs@ == s@,
            forall|j: int| 0 <= j < i ==> cs@[j] != c,
        decreases cs.len() - i,
    {
        if cs[i] == c {
            assert(s@[i as int] == c);
            return true;
        }
        i += 1;
    }
    false
}

/// Whether `pattern` stands in `s` at position `i`.
pub open spec fn occurs_at(s: Seq<char>, pattern: Seq<char>, i: int) -> bool {
    0 <= i && i + pattern.len() <= s.len() && s.subrange(i, i + pattern.len()) == pattern
}

/// The text from position `i` on, with each occurrence of `from`, taken from
/// the left, replaced by `to`.
pub open spec fn replace_from(s: Seq<char>, from: Seq<char>, to: Seq<char>, i: int) -> Seq<char>
    decreases s.len() - i,
{
    if i >= s.len() {
        Seq::empty()
    } else if from.len() > 0 && occurs_at(s, from, i) {
        to + replace_from(s, from, to, i + from.len())
    } else {
        seq![s[i]] + replace_from(s, from, to, i + 1)
    }
}

pub open spec fn replace_all_spec(s: Seq<char>, from: Seq<char>, to: Seq<char>) -> Seq<char> {
    replace_from(s, from, to, 0)
}

fn stands_at(s: &Vec<char>, pattern: &Vec<char>, i: usize) -> (r: bool)
    requires
        i <= s.len(),
    ensures
        r == occurs_at(s@, pattern@, i as int),
{
    if pattern.len() > s.len() - i {
        return false;
    }
    let mut k: usize = 0;
    while k < pattern.len()
        invariant
            k <= pattern.len(),
            i + pattern.len() <= s.len(),
            forall|j: int| 0 <= j < k ==> s@[i + j] == pattern@[j],
        decreases pattern.len() - k,
    {
        if s[i + k] != pattern[k] {
            assert(s@.subrange(i as int, i + pattern@.len())[k as int] == s@[i + k]);
            return false;
        }
        k += 1;
    }
    assert(s@.subrange(i as int, i + pattern@.len()) =~= pattern@);
    true
}

/// A text with every occurrence of `from` replaced by `to`.
pub fn replace_all(s: &str, from: &str, to: &str) -> (r: String)
    ensures
        r@ == replace_all_spec(s@, from@, to@),
{
    let cs = chars_of(s);
    let pattern = chars_of(from);
    let mut out: Vec<char> = Vec::new();
    let mut i: usize = 0;
    while i < cs.len()
        invariant
            i <= cs.len(),
            cs@ == s@,
            pattern@ == from@,
            out@ + replace_from(s@, from@, to@, i as int) =~= replace_from(s@, from@, to@, 0),
        decreases cs.len() - i,
    {
        if pattern.len() > 0 && stands_at(&cs, &pattern, i) {
            out = put(out, to);
            i = i + pattern.len();
        } else {
            out.push(cs[i]);
            i += 1;
        }
    }
    text_of(&out)
}

/// What [`no_span`] computes.
pub open spec fn no_span_spec() -> Span
{
    Span { start: 0, end: 0 }
}

pub fn no_span() -> (r: Span)
    ensures
        r == no_span_spec(),
{
    Span { start: 0, end: 0 }
}

/// What [`substitute_expr`] computes.
pub open spec fn substitute_expr_spec(e: ExprView, subs: Seq<(Seq<char>, ExprView)>) -> ExprView
    decreases e, 0int,
{
    match e.kind {
        ExprKindView::Var(name) => match named_expr_get_spec(subs, name) {
            Some(replacement) => replacement,
            None => e,
        },
        ExprKindView::Int(_) | ExprKindView::Float(_) | ExprKindView::Bool(_) | ExprKindView::Str(_) => e,
        ExprKindView::Unary { op, expr } => crate::construct::mk_unary_spec(
            op,
            substitute_expr_spec(*expr, subs),
            e.span,
        ),
        ExprKindView::Binary { op, left, right } => crate::construct::mk_binary_spec(
            op,
            substitute_expr_spec(*left, subs),
            substitute_expr_spec(*right, subs),
            e.span,
        ),
        ExprKindView::Cast { expr, ty } => crate::construct::mk_cast_spec(
            substitute_expr_spec(*expr, subs),
            ty,
            e.span,
        ),
        ExprKindView::Call { name, name_span, args } => crate::construct::mk_call_spec(
            name,
            name_span,
            substitute_exprs_spec(args, subs, Seq::empty(), 0),
            e.span,
        ),
        ExprKindView::MethodCall {
            receiver,
            method,
            method_span,
            args,
        } => crate::construct::mk_method_call_spec(
            substitute_expr_spec(*receiver, subs),
            method,
            method_span,
            substitute_exprs_spec(args, subs, Seq::empty(), 0),
            e.span,
        ),
        ExprKindView::Index { array, index } => crate::construct::mk_index_spec(
            substitute_expr_spec(*array, subs),
            substitute_expr_spec(*index, subs),
            e.span,
        ),
        ExprKindView::Len { array } => crate::construct::mk_len_spec(
            substitute_expr_spec(*array, subs),
            e.span,
        ),
        ExprKindView::ArrayLit { elements } => crate::construct::mk_array_spec(
            substitute_exprs_spec(elements, subs, Seq::empty(), 0),
            e.span,
        ),
        ExprKindView::Ref { inner } => crate::construct::mk_ref_spec(
            substitute_expr_spec(*inner, subs),
            e.span,
        ),
        ExprKindView::RefMut { inner } => crate::construct::mk_ref_mut_spec(
            substitute_expr_spec(*inner, subs),
            e.span,
        ),
        ExprKindView::Tuple(elements) => crate::construct::mk_tuple_spec(
            substitute_exprs_spec(elements, subs, Seq::empty(), 0),
            e.span,
        ),
        ExprKindView::TupleAccess { tuple, index } => crate::construct::mk_tuple_access_spec(
            substitute_expr_spec(*tuple, subs),
            index,
            e.span,
        ),
        ExprKindView::StructLit {
            struct_name,
            struct_name_span,
            fields,
        } => crate::construct::mk_struct_lit_spec(
            struct_name,
            struct_name_span,
            substitute_fields_spec(fields, subs, Seq::empty(), 0),
            e.span,
        ),
        ExprKindView::FieldAccess { object, field } => crate::construct::mk_field_spec(
            substitute_expr_spec(*object, subs),
            field,
            e.span,
        ),
        ExprKindView::Match { scrutinee, arms } => crate::construct::mk_match_spec(
            substitute_expr_spec(*scrutinee, subs),
            substitute_arms_spec(arms, subs, Seq::empty(), 0),
            e.span,
        ),
        ExprKindView::IfExpr { cond, then_value, else_value } => crate::construct::mk_if_spec(
            substitute_expr_spec(*cond, subs),
            substitute_expr_spec(*then_value, subs),
            substitute_expr_spec(*else_value, subs),
            e.span,
        ),
        ExprKindView::Block { stmts, tail } => crate::construct::mk_block_spec(
            substitute_lets_spec(stmts, subs, Seq::empty(), 0),
            substitute_expr_spec(*tail, subs),
            e.span,
        ),
        ExprKindView::Try { inner } => crate::construct::mk_try_spec(
            substitute_expr_spec(*inner, subs),
            e.span,
        ),
    }
}

/// An expression with variables replaced.
pub fn substitute_expr(e: &Expr, subs: &Vec<(String, Expr)>) -> (r: Expr)
    ensures
        r@ == substitute_expr_spec(e@, crate::ast::named_exprs_view(subs@)),
    decreases e, 0int,
{
    match &e.kind {
        ExprKind::Var(name) => match named_expr_get(subs, name) {
            Some(replacement) => replacement,
            None => e.dup(),
        },
        ExprKind::Int(_) | ExprKind::Float(_) | ExprKind::Bool(_) | ExprKind::Str(_) => e.dup(),
        ExprKind::Unary { op, expr } => mk_unary(*op, substitute_expr(&**expr, subs), e.span),
        ExprKind::Binary { op, left, right } => mk_binary(
            *op,
            substitute_expr(&**left, subs),
            substitute_expr(&**right, subs),
            e.span,
        ),
        ExprKind::Cast { expr, ty } => mk_cast(substitute_expr(&**expr, subs), ty.dup(), e.span),
        ExprKind::Call { name, name_span, args } => mk_call(
            name,
            *name_span,
            substitute_exprs(args, subs, Vec::new()),
            e.span,
        ),
        ExprKind::MethodCall { receiver, method, method_span, args } => mk_method_call(
            substitute_expr(&**receiver, subs),
            method,
            *method_span,
            substitute_exprs(args, subs, Vec::new()),
            e.span,
        ),
        ExprKind::Index { array, index } => mk_index(
            substitute_expr(&**array, subs),
            substitute_expr(&**index, subs),
            e.span,
        ),
        ExprKind::Len { array } => mk_len(substitute_expr(&**array, subs), e.span),
        ExprKind::ArrayLit { elements } => mk_array(
            substitute_exprs(elements, subs, Vec::new()),
            e.span,
        ),
        ExprKind::Ref { inner } => mk_ref(substitute_expr(&**inner, subs), e.span),
        ExprKind::RefMut { inner } => mk_ref_mut(substitute_expr(&**inner, subs), e.span),
        ExprKind::Tuple(elements) => mk_tuple(substitute_exprs(elements, subs, Vec::new()), e.span),
        ExprKind::TupleAccess { tuple, index } => mk_tuple_access(
            substitute_expr(&**tuple, subs),
            *index,
            e.span,
        ),
        ExprKind::StructLit { struct_name, struct_name_span, fields } => mk_struct_lit(
            struct_name,
            *struct_name_span,
            substitute_fields(fields, subs, Vec::new()),
            e.span,
        ),
        ExprKind::FieldAccess { object, field } => mk_field(
            substitute_expr(&**object, subs),
            field,
            e.span,
        ),
        ExprKind::Match { scrutinee, arms } => mk_match(
            substitute_expr(&**scrutinee, subs),
            substitute_arms(arms, subs, Vec::new()),
            e.span,
        ),
        ExprKind::IfExpr { cond, then_value, else_value } => mk_if(
            substitute_expr(&**cond, subs),
            substitute_expr(&**then_value, subs),
            substitute_expr(&**else_value, subs),
            e.span,
        ),
        ExprKind::Block { stmts, tail } => mk_block(
            substitute_lets(stmts, subs, Vec::new()),
            substitute_expr(&**tail, subs),
            e.span,
        ),
        ExprKind::Try { inner } => mk_try(substitute_expr(&**inner, subs), e.span),
    }
}

/// What [`substitute_exprs`] computes from position `i` on.
pub open spec fn substitute_exprs_spec(
    es: Seq<ExprView>,
    subs: Seq<(Seq<char>, ExprView)>,
    out: Seq<ExprView>,
    i: int,
) -> Seq<ExprView>
    decreases es, es.len() - i,
{
    if 0 <= i < es.len() {
        let e = es[i];
        let out = out.push(substitute_expr_spec(e, subs));
        substitute_exprs_spec(es, subs, out, i + 1)
    } else {
        out
    }
}

/// Adds expressions with variables replaced.
pub fn substitute_exprs(
    es: &Vec<Expr>,
    subs: &Vec<(String, Expr)>,
    out: Vec<Expr>,
) -> (r: Vec<Expr>)
    ensures
        crate::ast::exprs_view(r@) == substitute_exprs_spec(
            crate::ast::exprs_view(es@),
            crate::ast::named_exprs_view(subs@),
            crate::ast::exprs_view(out@),
            0,
        ),
    decreases es, es.len(),
{
    let ghost whole_run = substitute_exprs_spec(
        crate::ast::exprs_view(es@),
        crate::ast::named_exprs_view(subs@),
        crate::ast::exprs_view(out@),
        0,
    );
    let mut out = out;
    let mut i: usize = 0;
    while i < es.len()
        invariant
            i <= es.len(),
            substitute_exprs_spec(
                crate::ast::exprs_view(es@),
                crate::ast::named_exprs_view(subs@),
                crate::ast::exprs_view(out@),
                i as int,
            ) == whole_run,
        decreases es.len() - i,
    {
        let e = &es[i];
        out = push(out, substitute_expr(e, subs));
        i += 1;
    }
    out
}

/// What [`substitute_fields`] computes from position `i` on.
pub open spec fn substitute_fields_spec(
    fs: Seq<(Seq<char>, ExprView)>,
    subs: Seq<(Seq<char>, ExprView)>,
    out: Seq<(Seq<char>, ExprView)>,
    i: int,
) -> Seq<(Seq<char>, ExprView)>
    decreases fs, fs.len() - i,
{
    if 0 <= i < fs.len() {
        let f = fs[i];
        let out = out.push((f.0, substitute_expr_spec(f.1, subs)));
        substitute_fields_spec(fs, subs, out, i + 1)
    } else {
        out
    }
}

/// Adds fields with variables replaced.
pub fn substitute_fields(
    fs: &Vec<(String, Expr)>,
    subs: &Vec<(String, Expr)>,
    out: Vec<(String, Expr)>,
) -> (r: Vec<(String, Expr)>)
    ensures
        crate::ast::named_exprs_view(r@) == substitute_fields_spec(
            crate::ast::named_exprs_view(fs@),
            crate::ast::named_exprs_view(subs@),
            crate::ast::named_exprs_view(out@),
            0,
        ),
    decreases fs, fs.len(),
{
    let ghost whole_run = substitute_fields_spec(
        crate::ast::named_exprs_view(fs@),
        crate::ast::named_exprs_view(subs@),
        crate::ast::named_exprs_view(out@),
        0,
    );
    let mut out = out;
    let mut i: usize = 0;
    while i < fs.len()
        invariant
            i <= fs.len(),
            substitute_fields_spec(
                crate::ast::named_exprs_view(fs@),
                crate::ast::named_exprs_view(subs@),
                crate::ast::named_exprs_view(out@),
                i as int,
            ) == whole_run,
        decreases fs.len() - i,
    {
        let f = &fs[i];
        out = push(out, (f.0.clone(), substitute_expr(&f.1, subs)));
        i += 1;
    }
    out
}

/// What [`substitute_arms`] computes from position `i` on.
pub open spec fn substitute_arms_spec(
    arms: Seq<MatchArmView>,
    subs: Seq<(Seq<char>, ExprView)>,
    out: Seq<MatchArmView>,
    i: int,
) -> Seq<MatchArmView>
    decreases arms, arms.len() - i,
{
    if 0 <= i < arms.len() {
        let a = arms[i];
        let out = out.push(
            crate::construct::mk_arm_spec(
                a.pattern,
                a.pattern_span,
                substitute_expr_spec(a.body, subs),
            ),
        );
        substitute_arms_spec(arms, subs, out, i + 1)
    } else {
        out
    }
}

/// Adds arms with variables replaced in their bodies.
pub fn substitute_arms(
    arms: &Vec<MatchArm>,
    subs: &Vec<(String, Expr)>,
    out: Vec<MatchArm>,
) -> (r: Vec<MatchArm>)
    ensures
        crate::ast::arms_view(r@) == substitute_arms_spec(
            crate::ast::arms_view(arms@),
            crate::ast::named_exprs_view(subs@),
            crate::ast::arms_view(out@),
            0,
        ),
    decreases arms, arms.len(),
{
    let ghost whole_run = substitute_arms_spec(
        crate::ast::arms_view(arms@),
        crate::ast::named_exprs_view(subs@),
        crate::ast::arms_view(out@),
        0,
    );
    let mut out = out;
    let mut i: usize = 0;
    while i < arms.len()
        invariant
            i <= arms.len(),
            substitute_arms_spec(
                crate::ast::arms_view(arms@),
                crate::ast::named_exprs_view(subs@),
                crate::ast::arms_view(out@),
                i as int,
            ) == whole_run,
        decreases arms.len() - i,
    {
        let a = &arms[i];
        out = push(out, mk_arm(a.pattern.dup(), a.pattern_span, substitute_expr(&a.body, subs)));
        i += 1;
    }
    out
}

/// What [`substitute_lets`] computes from position `i` on.
pub open spec fn substitute_lets_spec(
    ss: Seq<StmtView>,
    subs: Seq<(Seq<char>, ExprView)>,
    out: Seq<StmtView>,
    i: int,
) -> Seq<StmtView>
    decreases ss, ss.len() - i,
{
    if 0 <= i < ss.len() {
        let s = ss[i];
        let out = match s {
            StmtView::Let { name, annotation, expr, span } => {
                let annotation = match annotation {
                    Some(t) => Some(t),
                    None => None,
                };
                out.push(
                    crate::construct::mk_let_spec(
                        name,
                        annotation,
                        substitute_expr_spec(expr, subs),
                        span,
                    ),
                )
            },
            _ => out.push(s),
        };
        substitute_lets_spec(ss, subs, out, i + 1)
    } else {
        out
    }
}

/// Adds the statements of a block with variables replaced.
pub fn substitute_lets(ss: &Vec<Stmt>, subs: &Vec<(String, Expr)>, out: Vec<Stmt>) -> (r: Vec<Stmt>)
    ensures
        crate::ast::stmts_view(r@) == substitute_lets_spec(
            crate::ast::stmts_view(ss@),
            crate::ast::named_exprs_view(subs@),
            crate::ast::stmts_view(out@),
            0,
        ),
    decreases ss, ss.len(),
{
    let ghost whole_run = substitute_lets_spec(
        crate::ast::stmts_view(ss@),
        crate::ast::named_exprs_view(subs@),
        crate::ast::stmts_view(out@),
        0,
    );
    let mut out = out;
    let mut i: usize = 0;
    while i < ss.len()
        invariant
            i <= ss.len(),
            substitute_lets_spec(
                crate::ast::stmts_view(ss@),
                crate::ast::named_exprs_view(subs@),
                crate::ast::stmts_view(out@),
                i as int,
            ) == whole_run,
        decreases ss.len() - i,
    {
        let s = &ss[i];
        out = match s {
            Stmt::Let { name, annotation, expr, span } => {
                let annotation = match annotation {
                    Some(t) => Some(t.dup()),
                    None => None,
                };
                push(out, mk_let(name, annotation, substitute_expr(expr, subs), *span))
            },
            _ => push(out, s.dup()),
        };
        i += 1;
    }
    out
}

/// What [`expr_mentions`] computes.
pub open spec fn expr_mentions_spec(e: ExprView, name: Seq<char>) -> bool
    decreases e, 0int,
{
    match e.kind {
        ExprKindView::Var(n) => n == name,
        ExprKindView::Int(_) | ExprKindView::Float(_) | ExprKindView::Bool(_) | ExprKindView::Str(_) => false,
        ExprKindView::Unary { expr, .. } => expr_mentions_spec(*expr, name),
        ExprKindView::Binary {
            left,
            right,
            ..
        } => expr_mentions_spec(*left, name) || expr_mentions_spec(*right, name),
        ExprKindView::Cast { expr, .. } => expr_mentions_spec(*expr, name),
        ExprKindView::Call { args, .. } => any_mentions_spec(args, name),
        ExprKindView::MethodCall {
            receiver,
            args,
            ..
        } => expr_mentions_spec(*receiver, name) || any_mentions_spec(args, name),
        ExprKindView::ArrayLit { elements } => any_mentions_spec(elements, name),
        ExprKindView::Index {
            array,
            index,
        } => expr_mentions_spec(*array, name) || expr_mentions_spec(*index, name),
        ExprKindView::Len { array } => expr_mentions_spec(*array, name),
        ExprKindView::Ref { inner } => expr_mentions_spec(*inner, name),
        ExprKindView::RefMut { inner } => expr_mentions_spec(*inner, name),
        ExprKindView::Tuple(elements) => any_mentions_spec(elements, name),
        ExprKindView::TupleAccess { tuple, .. } => expr_mentions_spec(*tuple, name),
        ExprKindView::StructLit { fields, .. } => fields_mention_spec(fields, name),
        ExprKindView::FieldAccess { object, .. } => expr_mentions_spec(*object, name),
        ExprKindView::Match {
            scrutinee,
            arms,
        } => expr_mentions_spec(*scrutinee, name) || arms_mention_spec(arms, name),
        ExprKindView::IfExpr { cond, then_value, else_value } => expr_mentions_spec(*cond, name)
            || expr_mentions_spec(*then_value, name) || expr_mentions_spec(*else_value, name),
        ExprKindView::Block {
            stmts,
            tail,
        } => lets_mention_spec(stmts, name) || expr_mentions_spec(*tail, name),
        ExprKindView::Try { inner } => expr_mentions_spec(*inner, name),
    }
}

/// Whether an expression reads the variable.
pub fn expr_mentions(e: &Expr, name: &str) -> (r: bool)
    ensures
        r == expr_mentions_spec(e@, name@),
    decreases e, 0int,
{
    match &e.kind {
        ExprKind::Var(n) => str_eq(n, name),
        ExprKind::Int(_) | ExprKind::Float(_) | ExprKind::Bool(_) | ExprKind::Str(_) => false,
        ExprKind::Unary { expr, .. } => expr_mentions(&**expr, name),
        ExprKind::Binary {
            left,
            right,
            ..
        } => expr_mentions(&**left, name) || expr_mentions(&**right, name),
        ExprKind::Cast { expr, .. } => expr_mentions(&**expr, name),
        ExprKind::Call { args, .. } => any_mentions(args, name),
        ExprKind::MethodCall {
            receiver,
            args,
            ..
        } => expr_mentions(&**receiver, name) || any_mentions(args, name),
        ExprKind::ArrayLit { elements } => any_mentions(elements, name),
        ExprKind::Index {
            array,
            index,
        } => expr_mentions(&**array, name) || expr_mentions(&**index, name),
        ExprKind::Len { array } => expr_mentions(&**array, name),
        ExprKind::Ref { inner } => expr_mentions(&**inner, name),
        ExprKind::RefMut { inner } => expr_mentions(&**inner, name),
        ExprKind::Tuple(elements) => any_mentions(elements, name),
        ExprKind::TupleAccess { tuple, .. } => expr_mentions(&**tuple, name),
        ExprKind::StructLit { fields, .. } => fields_mention(fields, name),
        ExprKind::FieldAccess { object, .. } => expr_mentions(&**object, name),
        ExprKind::Match { scrutinee, arms } => expr_mentions(
            &**scrutinee,
            name,
        ) || arms_mention(arms, name),
        ExprKind::IfExpr { cond, then_value, else_value } => expr_mentions(&**cond, name)
            || expr_mentions(&**then_value, name) || expr_mentions(&**else_value, name),
        ExprKind::Block {
            stmts,
            tail,
        } => lets_mention(stmts, name) || expr_mentions(&**tail, name),
        ExprKind::Try { inner } => expr_mentions(&**inner, name),
    }
}

/// What [`any_mentions`] computes.
pub open spec fn any_mentions_spec(es: Seq<ExprView>, name: Seq<char>) -> bool
    decreases es, 1int,
{
    exists|i: int|
        #![trigger es[i]]
        0 <= i < es.len() && expr_mentions_spec(es[i], name)
}

/// Whether an expression of a list reads the variable.
pub fn any_mentions(es: &Vec<Expr>, name: &str) -> (r: bool)
    ensures
        r == any_mentions_spec(crate::ast::exprs_view(es@), name@),
    decreases es, es.len(),
{
    let ghost all = crate::ast::exprs_view(es@);
    let mut i: usize = 0;
    while i < es.len()
        invariant
            i <= es.len(),
            all == crate::ast::exprs_view(es@),
            forall|j: int|
                #![trigger all[j]]
                0 <= j < i ==> !expr_mentions_spec(all[j], name@),
        decreases es.len() - i,
    {
        let e = &es[i];
        assert(all[i as int] == e@);
        if expr_mentions(e, name) {
            return true;
        }
        i += 1;
    }
    false
}

/// What [`fields_mention`] computes.
pub open spec fn fields_mention_spec(fs: Seq<(Seq<char>, ExprView)>, name: Seq<char>) -> bool
    decreases fs, 1int,
{
    exists|i: int|
        #![trigger fs[i]]
        0 <= i < fs.len() && expr_mentions_spec(fs[i].1, name)
}

/// Whether a field of a literal reads the variable.
pub fn fields_mention(fs: &Vec<(String, Expr)>, name: &str) -> (r: bool)
    ensures
        r == fields_mention_spec(crate::ast::named_exprs_view(fs@), name@),
    decreases fs, fs.len(),
{
    let ghost all = crate::ast::named_exprs_view(fs@);
    let mut i: usize = 0;
    while i < fs.len()
        invariant
            i <= fs.len(),
            all == crate::ast::named_exprs_view(fs@),
            forall|j: int|
                #![trigger all[j]]
                0 <= j < i ==> !expr_mentions_spec(all[j].1, name@),
        decreases fs.len() - i,
    {
        let f = &fs[i];
        assert(all[i as int] == (f.0@, f.1@));
        if expr_mentions(&f.1, name) {
            return true;
        }
        i += 1;
    }
    false
}

/// What [`arms_mention`] computes.
pub open spec fn arms_mention_spec(arms: Seq<MatchArmView>, name: Seq<char>) -> bool
    decreases arms, 1int,
{
    exists|i: int|
        #![trigger arms[i]]
        0 <= i < arms.len() && expr_mentions_spec(arms[i].body, name)
}

/// Whether the body of an arm reads the variable.
pub fn arms_mention(arms: &Vec<MatchArm>, name: &str) -> (r: bool)
    ensures
        r == arms_mention_spec(crate::ast::arms_view(arms@), name@),
    decreases arms, arms.len(),
{
    let ghost all = crate::ast::arms_view(arms@);
    let mut i: usize = 0;
    while i < arms.len()
        invariant
            i <= arms.len(),
            all == crate::ast::arms_view(arms@),
            forall|j: int|
                #![trigger all[j]]
                0 <= j < i ==> !expr_mentions_spec(all[j].body, name@),
        decreases arms.len() - i,
    {
        let a = &arms[i];
        assert(all[i as int] == a@);
        if expr_mentions(&a.body, name) {
            return true;
        }
        i += 1;
    }
    false
}

/// What [`let_mentions`] computes.
pub open spec fn let_mentions_spec(s: StmtView, name: Seq<char>) -> bool
    decreases s, 0int,
{
    match s {
        StmtView::Let { expr, .. } => expr_mentions_spec(expr, name),
        _ => false,
    }
}

/// Whether a statement of a block expression reads the variable.
pub fn let_mentions(s: &Stmt, name: &str) -> (r: bool)
    ensures
        r == let_mentions_spec(s@, name@),
    decreases s, 0int,
{
    match s {
        Stmt::Let { expr, .. } => expr_mentions(expr, name),
        _ => false,
    }
}

/// What [`lets_mention`] computes.
pub open spec fn lets_mention_spec(ss: Seq<StmtView>, name: Seq<char>) -> bool
    decreases ss, 1int,
{
    exists|i: int|
        #![trigger ss[i]]
        0 <= i < ss.len() && let_mentions_spec(ss[i], name)
}

/// Whether a statement of a block reads the variable.
pub fn lets_mention(ss: &Vec<Stmt>, name: &str) -> (r: bool)
    ensures
        r == lets_mention_spec(crate::ast::stmts_view(ss@), name@),
    decreases ss, ss.len(),
{
    let ghost all = crate::ast::stmts_view(ss@);
    let mut i: usize = 0;
    while i < ss.len()
        invariant
            i <= ss.len(),
            all == crate::ast::stmts_view(ss@),
            forall|j: int|
                #![trigger all[j]]
                0 <= j < i ==> !let_mentions_spec(all[j], name@),
        decreases ss.len() - i,
    {
        let s = &ss[i];
        assert(all[i as int] == s@);
        if let_mentions(s, name) {
            return true;
        }
        i += 1;
    }
    false
}

/// What [`drop_facts_mentioning`] computes.
pub open spec fn drop_facts_mentioning_spec(facts: Seq<ExprView>, name: Seq<char>) -> Seq<ExprView>
{
    facts.filter(|f: ExprView| !expr_mentions_spec(f, name))
}

/// The facts that do not read the variable.
pub fn drop_facts_mentioning(facts: &Vec<Expr>, name: &str) -> (r: Vec<Expr>)
    ensures
        crate::ast::exprs_view(r@) == drop_facts_mentioning_spec(
            crate::ast::exprs_view(facts@),
            name@,
        ),
{
    let ghost all = crate::ast::exprs_view(facts@);
    let mut r: Vec<Expr> = Vec::new();
    let mut i: usize = 0;
    proof {
        reveal(Seq::filter);
        assert(all.take(0) =~= Seq::empty());
    }
    while i < facts.len()
        invariant
            i <= facts.len(),
            all == crate::ast::exprs_view(facts@),
            crate::ast::exprs_view(r@) == drop_facts_mentioning_spec(all.take(i as int), name@),
        decreases facts.len() - i,
    {
        let f = &facts[i];
        proof {
            reveal(Seq::filter);
            assert(all[i as int] == f@);
            assert(all.take(i + 1).drop_last() =~= all.take(i as int));
            assert(all.take(i + 1).last() == all[i as int]);
        }
        if !expr_mentions(f, name) {
            r.push(f.dup());
        }
        i += 1;
    }
    assert(all.take(i as int) =~= all);
    r
}

/// What [`forget`] computes.
pub open spec fn forget_spec(st: StateView, name: Seq<char>) -> StateView
{
    let facts = drop_facts_mentioning_spec(st.facts, name);
    StateView { facts, ..st }
}

/// Forgets what is known of a variable.
pub fn forget(st: State, name: &str) -> (r: State)
    ensures
        r@ == forget_spec(st@, name@),
        crate::state::follows(st@, r@),
        crate::state::balanced(st@, r@),
{
    let facts = drop_facts_mentioning(&st.facts, name);
    State { facts, ..st }
}

/// What [`pin_var_to_version`] computes.
pub open spec fn pin_var_to_version_spec(e: ExprView, name: Seq<char>, version: u32) -> ExprView
    decreases e, 0int,
{
    match e.kind {
        ExprKindView::Var(n) => if n == name && !contains_char_spec(n, '#') {
            crate::construct::mk_var_spec(
                name + "#"@ + crate::text::decimal((version as i128) as int),
                e.span,
            )
        } else {
            e
        },
        ExprKindView::Int(_) | ExprKindView::Float(_) | ExprKindView::Bool(_) | ExprKindView::Str(_) => e,
        ExprKindView::Unary { op, expr } => crate::construct::mk_unary_spec(
            op,
            pin_var_to_version_spec(*expr, name, version),
            e.span,
        ),
        ExprKindView::Binary { op, left, right } => crate::construct::mk_binary_spec(
            op,
            pin_var_to_version_spec(*left, name, version),
            pin_var_to_version_spec(*right, name, version),
            e.span,
        ),
        ExprKindView::Cast { expr, ty } => crate::construct::mk_cast_spec(
            pin_var_to_version_spec(*expr, name, version),
            ty,
            e.span,
        ),
        ExprKindView::ArrayLit { elements } => crate::construct::mk_array_spec(
            pin_exprs_spec(elements, name, version, Seq::empty(), 0),
            e.span,
        ),
        ExprKindView::Call { name: callee, name_span, args } => crate::construct::mk_call_spec(
            callee,
            name_span,
            pin_exprs_spec(args, name, version, Seq::empty(), 0),
            e.span,
        ),
        ExprKindView::MethodCall {
            receiver,
            method,
            method_span,
            args,
        } => crate::construct::mk_method_call_spec(
            pin_var_to_version_spec(*receiver, name, version),
            method,
            method_span,
            pin_exprs_spec(args, name, version, Seq::empty(), 0),
            e.span,
        ),
        ExprKindView::Index { array, index } => crate::construct::mk_index_spec(
            pin_var_to_version_spec(*array, name, version),
            pin_var_to_version_spec(*index, name, version),
            e.span,
        ),
        ExprKindView::Len { array } => crate::construct::mk_len_spec(
            pin_var_to_version_spec(*array, name, version),
            e.span,
        ),
        ExprKindView::Ref { inner } => crate::construct::mk_ref_spec(
            pin_var_to_version_spec(*inner, name, version),
            e.span,
        ),
        ExprKindView::RefMut { inner } => crate::construct::mk_ref_mut_spec(
            pin_var_to_version_spec(*inner, name, version),
            e.span,
        ),
        ExprKindView::Tuple(elements) => crate::construct::mk_tuple_spec(
            pin_exprs_spec(elements, name, version, Seq::empty(), 0),
            e.span,
        ),
        ExprKindView::TupleAccess { tuple, index } => crate::construct::mk_tuple_access_spec(
            pin_var_to_version_spec(*tuple, name, version),
            index,
            e.span,
        ),
        ExprKindView::StructLit {
            struct_name,
            struct_name_span,
            fields,
        } => crate::construct::mk_struct_lit_spec(
            struct_name,
            struct_name_span,
            pin_fields_spec(fields, name, version, Seq::empty(), 0),
            e.span,
        ),
        ExprKindView::FieldAccess { object, field } => crate::construct::mk_field_spec(
            pin_var_to_version_spec(*object, name, version),
            field,
            e.span,
        ),
        ExprKindView::Match { scrutinee, arms } => crate::construct::mk_match_spec(
            pin_var_to_version_spec(*scrutinee, name, version),
            pin_arms_spec(arms, name, version, Seq::empty(), 0),
            e.span,
        ),
        ExprKindView::IfExpr { cond, then_value, else_value } => crate::construct::mk_if_spec(
            pin_var_to_version_spec(*cond, name, version),
            pin_var_to_version_spec(*then_value, name, version),
            pin_var_to_version_spec(*else_value, name, version),
            e.span,
        ),
        ExprKindView::Block { stmts, tail } => crate::construct::mk_block_spec(
            pin_lets_spec(stmts, name, version, Seq::empty(), 0),
            pin_var_to_version_spec(*tail, name, version),
            e.span,
        ),
        ExprKindView::Try { inner } => crate::construct::mk_try_spec(
            pin_var_to_version_spec(*inner, name, version),
            e.span,
        ),
    }
}

/// An expression with every read of the variable fixed at a version.
pub fn pin_var_to_version(e: &Expr, name: &str, version: u32) -> (r: Expr)
    ensures
        r@ == pin_var_to_version_spec(e@, name@, version),
    decreases e, 0int,
{
    match &e.kind {
        ExprKind::Var(n) => if str_eq(n, name) && !contains_char(n, '#') {
            mk_var(&cat3(name, "#", &int_text(version as i128)), e.span)
        } else {
            e.dup()
        },
        ExprKind::Int(_) | ExprKind::Float(_) | ExprKind::Bool(_) | ExprKind::Str(_) => e.dup(),
        ExprKind::Unary { op, expr } => mk_unary(
            *op,
            pin_var_to_version(&**expr, name, version),
            e.span,
        ),
        ExprKind::Binary { op, left, right } => mk_binary(
            *op,
            pin_var_to_version(&**left, name, version),
            pin_var_to_version(&**right, name, version),
            e.span,
        ),
        ExprKind::Cast { expr, ty } => mk_cast(
            pin_var_to_version(&**expr, name, version),
            ty.dup(),
            e.span,
        ),
        ExprKind::ArrayLit { elements } => mk_array(
            pin_exprs(elements, name, version, Vec::new()),
            e.span,
        ),
        ExprKind::Call { name: callee, name_span, args } => mk_call(
            callee,
            *name_span,
            pin_exprs(args, name, version, Vec::new()),
            e.span,
        ),
        ExprKind::MethodCall { receiver, method, method_span, args } => mk_method_call(
            pin_var_to_version(&**receiver, name, version),
            method,
            *method_span,
            pin_exprs(args, name, version, Vec::new()),
            e.span,
        ),
        ExprKind::Index { array, index } => mk_index(
            pin_var_to_version(&**array, name, version),
            pin_var_to_version(&**index, name, version),
            e.span,
        ),
        ExprKind::Len { array } => mk_len(pin_var_to_version(&**array, name, version), e.span),
        ExprKind::Ref { inner } => mk_ref(pin_var_to_version(&**inner, name, version), e.span),
        ExprKind::RefMut { inner } => mk_ref_mut(
            pin_var_to_version(&**inner, name, version),
            e.span,
        ),
        ExprKind::Tuple(elements) => mk_tuple(
            pin_exprs(elements, name, version, Vec::new()),
            e.span,
        ),
        ExprKind::TupleAccess { tuple, index } => mk_tuple_access(
            pin_var_to_version(&**tuple, name, version),
            *index,
            e.span,
        ),
        ExprKind::StructLit { struct_name, struct_name_span, fields } => mk_struct_lit(
            struct_name,
            *struct_name_span,
            pin_fields(fields, name, version, Vec::new()),
            e.span,
        ),
        ExprKind::FieldAccess { object, field } => mk_field(
            pin_var_to_version(&**object, name, version),
            field,
            e.span,
        ),
        ExprKind::Match { scrutinee, arms } => mk_match(
            pin_var_to_version(&**scrutinee, name, version),
            pin_arms(arms, name, version, Vec::new()),
            e.span,
        ),
        ExprKind::IfExpr { cond, then_value, else_value } => mk_if(
            pin_var_to_version(&**cond, name, version),
            pin_var_to_version(&**then_value, name, version),
            pin_var_to_version(&**else_value, name, version),
            e.span,
        ),
        ExprKind::Block { stmts, tail } => mk_block(
            pin_lets(stmts, name, version, Vec::new()),
            pin_var_to_version(&**tail, name, version),
            e.span,
        ),
        ExprKind::Try { inner } => mk_try(pin_var_to_version(&**inner, name, version), e.span),
    }
}

/// What [`pin_exprs`] computes from position `i` on.
pub open spec fn pin_exprs_spec(
    es: Seq<ExprView>,
    name: Seq<char>,
    version: u32,
    out: Seq<ExprView>,
    i: int,
) -> Seq<ExprView>
    decreases es, es.len() - i,
{
    if 0 <= i < es.len() {
        let e = es[i];
        let out = out.push(pin_var_to_version_spec(e, name, version));
        pin_exprs_spec(es, name, version, out, i + 1)
    } else {
        out
    }
}

/// Adds expressions with the variable fixed at a version.
pub fn pin_exprs(es: &Vec<Expr>, name: &str, version: u32, out: Vec<Expr>) -> (r: Vec<Expr>)
    ensures
        crate::ast::exprs_view(r@) == pin_exprs_spec(
            crate::ast::exprs_view(es@),
            name@,
            version,
            crate::ast::exprs_view(out@),
            0,
        ),
    decreases es, es.len(),
{
    let ghost whole_run = pin_exprs_spec(
        crate::ast::exprs_view(es@),
        name@,
        version,
        crate::ast::exprs_view(out@),
        0,
    );
    let mut out = out;
    let mut i: usize = 0;
    while i < es.len()
        invariant
            i <= es.len(),
            pin_exprs_spec(
                crate::ast::exprs_view(es@),
                name@,
                version,
                crate::ast::exprs_view(out@),
                i as int,
            ) == whole_run,
        decreases es.len() - i,
    {
        let e = &es[i];
        out = push(out, pin_var_to_version(e, name, version));
        i += 1;
    }
    out
}

/// What [`pin_fields`] computes from position `i` on.
pub open spec fn pin_fields_spec(
    fs: Seq<(Seq<char>, ExprView)>,
    name: Seq<char>,
    version: u32,
    out: Seq<(Seq<char>, ExprView)>,
    i: int,
) -> Seq<(Seq<char>, ExprView)>
    decreases fs, fs.len() - i,
{
    if 0 <= i < fs.len() {
        let f = fs[i];
        let out = out.push((f.0, pin_var_to_version_spec(f.1, name, version)));
        pin_fields_spec(fs, name, version, out, i + 1)
    } else {
        out
    }
}

/// Adds fields with the variable fixed at a version.
pub fn pin_fields(
    fs: &Vec<(String, Expr)>,
    name: &str,
    version: u32,
    out: Vec<(String, Expr)>,
) -> (r: Vec<(String, Expr)>)
    ensures
        crate::ast::named_exprs_view(r@) == pin_fields_spec(
            crate::ast::named_exprs_view(fs@),
            name@,
            version,
            crate::ast::named_exprs_view(out@),
            0,
        ),
    decreases fs, fs.len(),
{
    let ghost whole_run = pin_fields_spec(
        crate::ast::named_exprs_view(fs@),
        name@,
        version,
        crate::ast::named_exprs_view(out@),
        0,
    );
    let mut out = out;
    let mut i: usize = 0;
    while i < fs.len()
        invariant
            i <= fs.len(),
            pin_fields_spec(
                crate::ast::named_exprs_view(fs@),
                name@,
                version,
                crate::ast::named_exprs_view(out@),
                i as int,
            ) == whole_run,
        decreases fs.len() - i,
    {
        let f = &fs[i];
        out = push(out, (f.0.clone(), pin_var_to_version(&f.1, name, version)));
        i += 1;
    }
    out
}

/// What [`pin_arms`] computes from position `i` on.
pub open spec fn pin_arms_spec(
    arms: Seq<MatchArmView>,
    name: Seq<char>,
    version: u32,
    out: Seq<MatchArmView>,
    i: int,
) -> Seq<MatchArmView>
    decreases arms, arms.len() - i,
{
    if 0 <= i < arms.len() {
        let a = arms[i];
        let out = out.push(
            crate::construct::mk_arm_spec(
                a.pattern,
                a.pattern_span,
                pin_var_to_version_spec(a.body, name, version),
            ),
        );
        pin_arms_spec(arms, name, version, out, i + 1)
    } else {
        out
    }
}

/// Adds arms with the variable fixed at a version.
pub fn pin_arms(
    arms: &Vec<MatchArm>,
    name: &str,
    version: u32,
    out: Vec<MatchArm>,
) -> (r: Vec<MatchArm>)
    ensures
        crate::ast::arms_view(r@) == pin_arms_spec(
            crate::ast::arms_view(arms@),
            name@,
            version,
            crate::ast::arms_view(out@),
            0,
        ),
    decreases arms, arms.len(),
{
    let ghost whole_run = pin_arms_spec(
        crate::ast::arms_view(arms@),
        name@,
        version,
        crate::ast::arms_view(out@),
        0,
    );
    let mut out = out;
    let mut i: usize = 0;
    while i < arms.len()
        invariant
            i <= arms.len(),
            pin_arms_spec(
                crate::ast::arms_view(arms@),
                name@,
                version,
                crate::ast::arms_view(out@),
                i as int,
            ) == whole_run,
        decreases arms.len() - i,
    {
        let a = &arms[i];
        out = push(
            out,
            mk_arm(a.pattern.dup(), a.pattern_span, pin_var_to_version(&a.body, name, version)),
        );
        i += 1;
    }
    out
}

/// What [`pin_lets`] computes from position `i` on.
pub open spec fn pin_lets_spec(
    ss: Seq<StmtView>,
    name: Seq<char>,
    version: u32,
    out: Seq<StmtView>,
    i: int,
) -> Seq<StmtView>
    decreases ss, ss.len() - i,
{
    if 0 <= i < ss.len() {
        let s = ss[i];
        let out = match s {
            StmtView::Let { name: n, annotation, expr, span } => {
                let annotation = match annotation {
                    Some(t) => Some(t),
                    None => None,
                };
                out.push(
                    crate::construct::mk_let_spec(
                        n,
                        annotation,
                        pin_var_to_version_spec(expr, name, version),
                        span,
                    ),
                )
            },
            _ => out.push(s),
        };
        pin_lets_spec(ss, name, version, out, i + 1)
    } else {
        out
    }
}

/// Adds the statements of a block with the variable fixed at a version.
pub fn pin_lets(ss: &Vec<Stmt>, name: &str, version: u32, out: Vec<Stmt>) -> (r: Vec<Stmt>)
    ensures
        crate::ast::stmts_view(r@) == pin_lets_spec(
            crate::ast::stmts_view(ss@),
            name@,
            version,
            crate::ast::stmts_view(out@),
            0,
        ),
    decreases ss, ss.len(),
{
    let ghost whole_run = pin_lets_spec(
        crate::ast::stmts_view(ss@),
        name@,
        version,
        crate::ast::stmts_view(out@),
        0,
    );
    let mut out = out;
    let mut i: usize = 0;
    while i < ss.len()
        invariant
            i <= ss.len(),
            pin_lets_spec(
                crate::ast::stmts_view(ss@),
                name@,
                version,
                crate::ast::stmts_view(out@),
                i as int,
            ) == whole_run,
        decreases ss.len() - i,
    {
        let s = &ss[i];
        out = match s {
            Stmt::Let { name: n, annotation, expr, span } => {
                let annotation = match annotation {
                    Some(t) => Some(t.dup()),
                    None => None,
                };
                push(out, mk_let(n, annotation, pin_var_to_version(expr, name, version), *span))
            },
            _ => push(out, s.dup()),
        };
        i += 1;
    }
    out
}

/// What [`stmt_breaks`] computes.
pub open spec fn stmt_breaks_spec(s: StmtView) -> bool
    decreases s, 0int,
{
    match s {
        StmtView::Break { .. } => true,
        StmtView::If { then_body, else_body, .. } => contains_break_spec(then_body)
            || contains_break_spec(else_body),
        _ => false,
    }
}

/// Whether a `break` in these statements leaves the loop that they belong to.
/// A `break` inside a nested loop leaves only that one.
pub fn stmt_breaks(s: &Stmt) -> (r: bool)
    ensures
        r == stmt_breaks_spec(s@),
    decreases s, 0int,
{
    match s {
        Stmt::Break { .. } => true,
        Stmt::If { then_body, else_body, .. } => contains_break(then_body)
            || contains_break(else_body),
        _ => false,
    }
}

/// What [`contains_break`] computes.
pub open spec fn contains_break_spec(ss: Seq<StmtView>) -> bool
    decreases ss, 1int,
{
    exists|i: int|
        #![trigger ss[i]]
        0 <= i < ss.len() && stmt_breaks_spec(ss[i])
}

/// Whether a loop's body may leave the loop by `break`.
pub fn contains_break(ss: &Vec<Stmt>) -> (r: bool)
    ensures
        r == contains_break_spec(crate::ast::stmts_view(ss@)),
    decreases ss, ss.len(),
{
    let ghost all = crate::ast::stmts_view(ss@);
    let mut i: usize = 0;
    while i < ss.len()
        invariant
            i <= ss.len(),
            all == crate::ast::stmts_view(ss@),
            forall|j: int|
                #![trigger all[j]]
                0 <= j < i ==> !stmt_breaks_spec(all[j]),
        decreases ss.len() - i,
    {
        let s = &ss[i];
        assert(all[i as int] == s@);
        if stmt_breaks(s) {
            return true;
        }
        i += 1;
    }
    false
}

/// What [`flipped`] computes.
pub open spec fn flipped_spec(op: BinaryOp) -> Option<BinaryOp>
{
    match op {
        BinaryOp::Eq => Some(BinaryOp::Ne),
        BinaryOp::Ne => Some(BinaryOp::Eq),
        BinaryOp::Lt => Some(BinaryOp::Ge),
        BinaryOp::Le => Some(BinaryOp::Gt),
        BinaryOp::Gt => Some(BinaryOp::Le),
        BinaryOp::Ge => Some(BinaryOp::Lt),
        _ => None,
    }
}

/// The comparison that holds where another one does not.
pub fn flipped(op: BinaryOp) -> (r: Option<BinaryOp>)
    ensures
        r == flipped_spec(op),
{
    match op {
        BinaryOp::Eq => Some(BinaryOp::Ne),
        BinaryOp::Ne => Some(BinaryOp::Eq),
        BinaryOp::Lt => Some(BinaryOp::Ge),
        BinaryOp::Le => Some(BinaryOp::Gt),
        BinaryOp::Gt => Some(BinaryOp::Le),
        BinaryOp::Ge => Some(BinaryOp::Lt),
        _ => None,
    }
}

/// What [`negate`] computes.
pub open spec fn negate_spec(e: ExprView) -> ExprView
{
    match e.kind {
        ExprKindView::Unary { op, expr } => if op == UnaryOp::Not {
            (*expr)
        } else {
            crate::construct::mk_unary_spec(UnaryOp::Not, e, e.span)
        },
        ExprKindView::Bool(v) => crate::construct::mk_bool_spec(!v, e.span),
        ExprKindView::Binary { op, left, right } => match flipped_spec(op) {
            Some(other) => crate::construct::mk_binary_spec(other, (*left), (*right), e.span),
            None => crate::construct::mk_unary_spec(UnaryOp::Not, e, e.span),
        },
        _ => crate::construct::mk_unary_spec(UnaryOp::Not, e, e.span),
    }
}

/// The logical negation, with double negations removed and comparisons turned
/// round.
pub fn negate(e: &Expr) -> (r: Expr)
    ensures
        r@ == negate_spec(e@),
{
    match &e.kind {
        ExprKind::Unary { op, expr } => if *op == UnaryOp::Not {
            (**expr).dup()
        } else {
            mk_unary(UnaryOp::Not, e.dup(), e.span)
        },
        ExprKind::Bool(v) => mk_bool(!*v, e.span),
        ExprKind::Binary { op, left, right } => match flipped(*op) {
            Some(other) => mk_binary(other, (**left).dup(), (**right).dup(), e.span),
            None => mk_unary(UnaryOp::Not, e.dup(), e.span),
        },
        _ => mk_unary(UnaryOp::Not, e.dup(), e.span),
    }
}

/// What [`exprs_equal`] computes.
pub open spec fn exprs_equal_spec(a: ExprView, b: ExprView) -> bool
    decreases a, 0int,
{
    match (a.kind, b.kind) {
        (ExprKindView::Int(x), ExprKindView::Int(y)) => x == y,
        (ExprKindView::Float(x), ExprKindView::Float(y)) => x.bits == y.bits,
        (ExprKindView::Bool(x), ExprKindView::Bool(y)) => x == y,
        (ExprKindView::Var(x), ExprKindView::Var(y)) => x == y,
        (ExprKindView::Unary { op: p, expr: x }, ExprKindView::Unary { op: q, expr: y }) => p == q
            && exprs_equal_spec(*x, *y),
        (
            ExprKindView::Binary { op: p, left: lx, right: rx },
            ExprKindView::Binary { op: q, left: ly, right: ry },
        ) => p == q && exprs_equal_spec(*lx, *ly) && exprs_equal_spec(*rx, *ry),
        (ExprKindView::Cast { expr: x, ty: s }, ExprKindView::Cast { expr: y, ty: t }) => s == t
            && exprs_equal_spec(*x, *y),
        (
            ExprKindView::Call { name: m, args: xs, .. },
            ExprKindView::Call { name: n, args: ys, .. },
        ) => m == n
            && xs.len() == ys.len() && expr_lists_equal_spec(xs, ys, true, 0),
        (
            ExprKindView::Index { array: ax, index: ix },
            ExprKindView::Index { array: ay, index: iy },
        ) => exprs_equal_spec(*ax, *ay) && exprs_equal_spec(*ix, *iy),
        (
            ExprKindView::Len { array: x },
            ExprKindView::Len { array: y },
        ) => exprs_equal_spec(*x, *y),
        (
            ExprKindView::ArrayLit { elements: xs },
            ExprKindView::ArrayLit { elements: ys },
        ) => xs.len()
            == ys.len() && expr_lists_equal_spec(xs, ys, true, 0),
        _ => false,
    }
}

/// Whether two expressions are the same up to their places.
pub fn exprs_equal(a: &Expr, b: &Expr) -> (r: bool)
    ensures
        r == exprs_equal_spec(a@, b@),
    decreases a, 0int,
{
    proof {
        reveal_with_fuel(crate::ast::expr_view, 2); reveal_with_fuel(crate::ast::expr_kind_view, 2);
    }
    match (&a.kind, &b.kind) {
        (ExprKind::Int(x), ExprKind::Int(y)) => *x == *y,
        (ExprKind::Float(x), ExprKind::Float(y)) => x.bits == y.bits,
        (ExprKind::Bool(x), ExprKind::Bool(y)) => *x == *y,
        (ExprKind::Var(x), ExprKind::Var(y)) => str_eq(x, y),
        (ExprKind::Unary { op: p, expr: x }, ExprKind::Unary { op: q, expr: y }) => *p == *q
            && exprs_equal(&**x, &**y),
        (
            ExprKind::Binary { op: p, left: lx, right: rx },
            ExprKind::Binary { op: q, left: ly, right: ry },
        ) => *p == *q && exprs_equal(&**lx, &**ly) && exprs_equal(&**rx, &**ry),
        (ExprKind::Cast { expr: x, ty: s }, ExprKind::Cast { expr: y, ty: t }) => type_eq(s, t)
            && exprs_equal(&**x, &**y),
        (
            ExprKind::Call { name: m, args: xs, .. },
            ExprKind::Call { name: n, args: ys, .. },
        ) => str_eq(m, n)
            && xs.len() == ys.len() && expr_lists_equal(xs, ys, true),
        (
            ExprKind::Index { array: ax, index: ix },
            ExprKind::Index { array: ay, index: iy },
        ) => exprs_equal(&**ax, &**ay) && exprs_equal(&**ix, &**iy),
        (ExprKind::Len { array: x }, ExprKind::Len { array: y }) => exprs_equal(&**x, &**y),
        (ExprKind::ArrayLit { elements: xs }, ExprKind::ArrayLit { elements: ys }) => xs.len()
            == ys.len() && expr_lists_equal(xs, ys, true),
        _ => false,
    }
}

/// What [`expr_lists_equal`] computes from position `i` on.
pub open spec fn expr_lists_equal_spec(
    xs: Seq<ExprView>,
    ys: Seq<ExprView>,
    same: bool,
    i: int,
) -> bool
    decreases xs, xs.len() - i,
{
    if 0 <= i < xs.len() {
        let x = xs[i];
        let same = same && i < ys.len() && exprs_equal_spec(x, ys[i]);
        expr_lists_equal_spec(xs, ys, same, i + 1)
    } else {
        same
    }
}

/// Whether two lists of expressions are written alike.
pub fn expr_lists_equal(xs: &Vec<Expr>, ys: &Vec<Expr>, same: bool) -> (r: bool)
    ensures
        r == expr_lists_equal_spec(
            crate::ast::exprs_view(xs@),
            crate::ast::exprs_view(ys@),
            same,
            0,
        ),
    decreases xs, xs.len(),
{
    let ghost whole_run = expr_lists_equal_spec(
        crate::ast::exprs_view(xs@),
        crate::ast::exprs_view(ys@),
        same,
        0,
    );
    let mut same = same;
    let mut i: usize = 0;
    while i < xs.len()
        invariant
            i <= xs.len(),
            expr_lists_equal_spec(
                crate::ast::exprs_view(xs@),
                crate::ast::exprs_view(ys@),
                same,
                i as int,
            ) == whole_run,
        decreases xs.len() - i,
    {
        let x = &xs[i];
        same = same && i < ys.len() && exprs_equal(x, &ys[i]);
        i += 1;
    }
    same
}

/// What [`is_structurally_true`] computes.
pub open spec fn is_structurally_true_spec(e: ExprView) -> bool
    decreases e, 0int,
{
    match e.kind {
        ExprKindView::Bool(v) => v,
        ExprKindView::Binary { op, left, right } => match op {
            BinaryOp::Eq | BinaryOp::Le | BinaryOp::Ge => exprs_equal_spec(*left, *right),
            BinaryOp::Or => is_structurally_true_spec(*left) || is_structurally_true_spec(*right),
            BinaryOp::And => is_structurally_true_spec(*left) && is_structurally_true_spec(*right),
            _ => false,
        },
        ExprKindView::Unary { op, expr } => op == UnaryOp::Not && is_structurally_false_spec(*expr),
        _ => false,
    }
}

/// Whether an expression is true by its form alone.
pub fn is_structurally_true(e: &Expr) -> (r: bool)
    ensures
        r == is_structurally_true_spec(e@),
    decreases e, 0int,
{
    match &e.kind {
        ExprKind::Bool(v) => *v,
        ExprKind::Binary { op, left, right } => match op {
            BinaryOp::Eq | BinaryOp::Le | BinaryOp::Ge => exprs_equal(&**left, &**right),
            BinaryOp::Or => is_structurally_true(&**left) || is_structurally_true(&**right),
            BinaryOp::And => is_structurally_true(&**left) && is_structurally_true(&**right),
            _ => false,
        },
        ExprKind::Unary { op, expr } => *op == UnaryOp::Not && is_structurally_false(&**expr),
        _ => false,
    }
}

/// What [`is_structurally_false`] computes.
pub open spec fn is_structurally_false_spec(e: ExprView) -> bool
    decreases e, 0int,
{
    match e.kind {
        ExprKindView::Bool(v) => !v,
        ExprKindView::Binary { op, left, right } => match op {
            BinaryOp::Ne | BinaryOp::Lt | BinaryOp::Gt => exprs_equal_spec(*left, *right),
            _ => false,
        },
        ExprKindView::Unary { op, expr } => op == UnaryOp::Not && is_structurally_true_spec(*expr),
        _ => false,
    }
}

/// Whether an expression is false by its form.
pub fn is_structurally_false(e: &Expr) -> (r: bool)
    ensures
        r == is_structurally_false_spec(e@),
    decreases e, 0int,
{
    match &e.kind {
        ExprKind::Bool(v) => !*v,
        ExprKind::Binary { op, left, right } => match op {
            BinaryOp::Ne | BinaryOp::Lt | BinaryOp::Gt => exprs_equal(&**left, &**right),
            _ => false,
        },
        ExprKind::Unary { op, expr } => *op == UnaryOp::Not && is_structurally_true(&**expr),
        _ => false,
    }
}

/// What [`pretty_expr`] computes.
pub open spec fn pretty_expr_spec(e: ExprView) -> Seq<char>
    decreases e, 0int,
{
    match e.kind {
        ExprKindView::Int(v) => crate::text::decimal(v as int),
        ExprKindView::Float(v) => v.plain,
        ExprKindView::Bool(v) => crate::numeric::bool_text_spec(v),
        ExprKindView::Str(s) => "\""@ + s + "\""@,
        ExprKindView::Var(name) => name,
        ExprKindView::Unary {
            op,
            expr,
        } => crate::ast::unary_symbol_spec(op) + pretty_expr_spec(*expr),
        ExprKindView::Binary {
            op,
            left,
            right,
        } => "("@ + pretty_expr_spec(*left) + " "@ + crate::ast::binary_symbol_spec(op) + " "@ + pretty_expr_spec(*right) + ")"@,
        ExprKindView::Call {
            name,
            args,
            ..
        } => name + "("@ + pretty_exprs_spec(args, ""@, 0) + ")"@,
        ExprKindView::MethodCall {
            receiver,
            method,
            args,
            ..
        } => pretty_expr_spec(*receiver) + "."@ + method + "("@ + pretty_exprs_spec(args, ""@, 0) + ")"@,
        ExprKindView::Cast {
            expr,
            ty,
        } => pretty_expr_spec(*expr) + " as "@ + crate::ast::type_text_spec(ty),
        ExprKindView::Index {
            array,
            index,
        } => pretty_expr_spec(*array) + "["@ + pretty_expr_spec(*index) + "]"@,
        ExprKindView::Len { array } => "len("@ + pretty_expr_spec(*array) + ")"@,
        ExprKindView::ArrayLit { elements } => "["@ + pretty_exprs_spec(elements, ""@, 0) + "]"@,
        ExprKindView::Ref { inner } => "ref "@ + pretty_expr_spec(*inner),
        ExprKindView::RefMut { inner } => "mut ref "@ + pretty_expr_spec(*inner),
        ExprKindView::Tuple(elements) => "("@ + pretty_exprs_spec(elements, ""@, 0) + ")"@,
        ExprKindView::TupleAccess {
            tuple,
            index,
        } => pretty_expr_spec(*tuple) + "."@ + crate::text::decimal((index as i128) as int),
        ExprKindView::StructLit {
            struct_name,
            fields,
            ..
        } => struct_name + " { "@ + pretty_fields_spec(fields, ""@, 0) + " }"@,
        ExprKindView::FieldAccess { object, field } => pretty_expr_spec(*object) + "."@ + field,
        ExprKindView::Match {
            scrutinee,
            ..
        } => "match "@ + pretty_expr_spec(*scrutinee) + " { … }"@,
        ExprKindView::IfExpr {
            cond,
            ..
        } => "if "@ + pretty_expr_spec(*cond) + " { … } else { … }"@,
        ExprKindView::Block { tail, .. } => "{ … ; "@ + pretty_expr_spec(*tail) + " }"@,
        ExprKindView::Try { inner } => "try "@ + pretty_expr_spec(*inner),
    }
}

/// An expression as a short label.
pub fn pretty_expr(e: &Expr) -> (r: String)
    ensures
        r@ == pretty_expr_spec(e@),
    decreases e, 0int,
{
    match &e.kind {
        ExprKind::Int(v) => int_text(*v),
        ExprKind::Float(v) => v.plain.clone(),
        ExprKind::Bool(v) => bool_text(*v),
        ExprKind::Str(s) => cat3("\"", s, "\""),
        ExprKind::Var(name) => name.clone(),
        ExprKind::Unary { op, expr } => cat2(unary_symbol(*op), &pretty_expr(&**expr)),
        ExprKind::Binary { op, left, right } => cat7(
            "(",
            &pretty_expr(&**left),
            " ",
            binary_symbol(*op),
            " ",
            &pretty_expr(&**right),
            ")",
        ),
        ExprKind::Call { name, args, .. } => cat4(name, "(", &pretty_exprs(args, text("")), ")"),
        ExprKind::MethodCall { receiver, method, args, .. } => cat6(
            &pretty_expr(&**receiver),
            ".",
            method,
            "(",
            &pretty_exprs(args, text("")),
            ")",
        ),
        ExprKind::Cast { expr, ty } => cat3(&pretty_expr(&**expr), " as ", &type_text(ty)),
        ExprKind::Index { array, index } => cat4(
            &pretty_expr(&**array),
            "[",
            &pretty_expr(&**index),
            "]",
        ),
        ExprKind::Len { array } => cat3("len(", &pretty_expr(&**array), ")"),
        ExprKind::ArrayLit { elements } => cat3("[", &pretty_exprs(elements, text("")), "]"),
        ExprKind::Ref { inner } => cat2("ref ", &pretty_expr(&**inner)),
        ExprKind::RefMut { inner } => cat2("mut ref ", &pretty_expr(&**inner)),
        ExprKind::Tuple(elements) => cat3("(", &pretty_exprs(elements, text("")), ")"),
        ExprKind::TupleAccess { tuple, index } => cat3(
            &pretty_expr(&**tuple),
            ".",
            &int_text(*index as i128),
        ),
        ExprKind::StructLit { struct_name, fields, .. } => cat4(
            struct_name,
            " { ",
            &pretty_fields(fields, text("")),
            " }",
        ),
        ExprKind::FieldAccess { object, field } => cat3(&pretty_expr(&**object), ".", field),
        ExprKind::Match { scrutinee, .. } => cat3("match ", &pretty_expr(&**scrutinee), " { … }"),
        ExprKind::IfExpr { cond, .. } => cat3("if ", &pretty_expr(&**cond), " { … } else { … }"),
        ExprKind::Block { tail, .. } => cat3("{ … ; ", &pretty_expr(&**tail), " }"),
        ExprKind::Try { inner } => cat2("try ", &pretty_expr(&**inner)),
    }
}

/// What [`pretty_exprs`] computes from position `i` on.
pub open spec fn pretty_exprs_spec(es: Seq<ExprView>, out: Seq<char>, i: int) -> Seq<char>
    decreases es, es.len() - i,
{
    if 0 <= i < es.len() {
        let e = es[i];
        let out = {
            let out = if i > 0 { out + ", "@ } else { out };
            out + pretty_expr_spec(e)
        };
        pretty_exprs_spec(es, out, i + 1)
    } else {
        out
    }
}

pub fn pretty_exprs(es: &Vec<Expr>, out: String) -> (r: String)
    ensures
        r@ == pretty_exprs_spec(crate::ast::exprs_view(es@), out@, 0),
    decreases es, es.len(),
{
    let ghost whole_run = pretty_exprs_spec(crate::ast::exprs_view(es@), out@, 0);
    let mut out = out;
    let mut i: usize = 0;
    while i < es.len()
        invariant
            i <= es.len(),
            pretty_exprs_spec(crate::ast::exprs_view(es@), out@, i as int) == whole_run,
        decreases es.len() - i,
    {
        let e = &es[i];
        out = {
            let out = if i > 0 { extend(out, ", ") } else { out };
            extend(out, &pretty_expr(e))
        };
        i += 1;
    }
    out
}

/// What [`pretty_fields`] computes from position `i` on.
pub open spec fn pretty_fields_spec(
    fs: Seq<(Seq<char>, ExprView)>,
    out: Seq<char>,
    i: int,
) -> Seq<char>
    decreases fs, fs.len() - i,
{
    if 0 <= i < fs.len() {
        let f = fs[i];
        let out = {
            let out = if i > 0 { out + ", "@ } else { out };
            out + (f.0 + ": "@ + pretty_expr_spec(f.1))
        };
        pretty_fields_spec(fs, out, i + 1)
    } else {
        out
    }
}

pub fn pretty_fields(fs: &Vec<(String, Expr)>, out: String) -> (r: String)
    ensures
        r@ == pretty_fields_spec(crate::ast::named_exprs_view(fs@), out@, 0),
    decreases fs, fs.len(),
{
    let ghost whole_run = pretty_fields_spec(crate::ast::named_exprs_view(fs@), out@, 0);
    let mut out = out;
    let mut i: usize = 0;
    while i < fs.len()
        invariant
            i <= fs.len(),
            pretty_fields_spec(crate::ast::named_exprs_view(fs@), out@, i as int) == whole_run,
        decreases fs.len() - i,
    {
        let f = &fs[i];
        out = {
            let out = if i > 0 { extend(out, ", ") } else { out };
            extend(out, &cat3(&f.0, ": ", &pretty_expr(&f.1)))
        };
        i += 1;
    }
    out
}

/// What [`unwrap_to_var`] computes.
pub open spec fn unwrap_to_var_spec(e: ExprView) -> Option<Seq<char>>
    decreases e,
{
    match e.kind {
        ExprKindView::Var(name) => Some(name),
        ExprKindView::Ref { inner } => unwrap_to_var_spec(*inner),
        ExprKindView::RefMut { inner } => unwrap_to_var_spec(*inner),
        _ => None,
    }
}

/// The variable that an expression names, through any borrows.
pub fn unwrap_to_var(e: &Expr) -> (r: Option<String>)
    ensures
        (match &r { Some(v0) => Some(v0@), None => None }) == unwrap_to_var_spec(e@),
    decreases e,
{
    match &e.kind {
        ExprKind::Var(name) => Some(name.clone()),
        ExprKind::Ref { inner } => unwrap_to_var(&**inner),
        ExprKind::RefMut { inner } => unwrap_to_var(&**inner),
        _ => None,
    }
}

/// What [`mk_eq`] computes.
pub open spec fn mk_eq_spec(left: ExprView, right: ExprView) -> ExprView
{
    crate::construct::mk_binary_spec(BinaryOp::Eq, left, right, no_span_spec())
}

pub fn mk_eq(left: Expr, right: Expr) -> (r: Expr)
    ensures
        r@ == mk_eq_spec(left@, right@),
{
    mk_binary(BinaryOp::Eq, left, right, no_span())
}

/// What [`record_array_element_facts`] computes from position `i` on.
pub open spec fn record_array_element_facts_spec(
    es: Seq<ExprView>,
    var: Seq<char>,
    facts: Seq<ExprView>,
    i: int,
) -> Seq<ExprView>
    decreases es.len() - i,
{
    if 0 <= i < es.len() {
        let e = es[i];
        let facts = {
            let element = crate::construct::mk_index_spec(
                crate::construct::mk_var_spec(var, no_span_spec()),
                crate::construct::mk_int_spec(i as i128, no_span_spec()),
                no_span_spec(),
            );
            facts.push(mk_eq_spec(element, e))
        };
        record_array_element_facts_spec(es, var, facts, i + 1)
    } else {
        facts
    }
}

/// The facts `v[i] == e` for the elements of a literal.
pub fn record_array_element_facts(es: &Vec<Expr>, var: &str, facts: Vec<Expr>) -> (r: Vec<Expr>)
    ensures
        crate::ast::exprs_view(r@) == record_array_element_facts_spec(
            crate::ast::exprs_view(es@),
            var@,
            crate::ast::exprs_view(facts@),
            0,
        ),
{
    let ghost whole_run = record_array_element_facts_spec(
        crate::ast::exprs_view(es@),
        var@,
        crate::ast::exprs_view(facts@),
        0,
    );
    let mut facts = facts;
    let mut i: usize = 0;
    while i < es.len()
        invariant
            i <= es.len(),
            record_array_element_facts_spec(
                crate::ast::exprs_view(es@),
                var@,
                crate::ast::exprs_view(facts@),
                i as int,
            ) == whole_run,
        decreases es.len() - i,
    {
        let e = &es[i];
        facts = {
            let element = mk_index(mk_var(var, no_span()), mk_int(i as i128, no_span()), no_span());
            push(facts, mk_eq(element, e.dup()))
        };
        i += 1;
    }
    facts
}

/// What [`store_fact`] computes.
pub open spec fn store_fact_spec(
    var: Seq<char>,
    base: Seq<char>,
    index: ExprView,
    value: ExprView,
) -> ExprView
{
    let args = Seq::empty().push(crate::construct::mk_var_spec(var, no_span_spec())).push(
        crate::construct::mk_var_spec(base, no_span_spec()),
    );
    crate::construct::mk_call_spec(
        "__smt_store_eq"@,
        no_span_spec(),
        args.push(index).push(value),
        no_span_spec(),
    )
}

/// The fact that one version of an array is another one with one element
/// replaced.
pub fn store_fact(var: &str, base: &str, index: &Expr, value: &Expr) -> (r: Expr)
    ensures
        r@ == store_fact_spec(var@, base@, index@, value@),
{
    let args = push(push(Vec::new(), mk_var(var, no_span())), mk_var(base, no_span()));
    mk_call("__smt_store_eq", no_span(), push(push(args, index.dup()), value.dup()), no_span())
}

/// What [`copy_fact`] computes.
pub open spec fn copy_fact_spec(var: Seq<char>, base: Seq<char>) -> ExprView
{
    let args = Seq::empty().push(crate::construct::mk_var_spec(var, no_span_spec())).push(
        crate::construct::mk_var_spec(base, no_span_spec()),
    );
    crate::construct::mk_call_spec("__smt_array_eq"@, no_span_spec(), args, no_span_spec())
}

/// The fact that two arrays are the same.
pub fn copy_fact(var: &str, base: &str) -> (r: Expr)
    ensures
        r@ == copy_fact_spec(var@, base@),
{
    let args = push(push(Vec::new(), mk_var(var, no_span())), mk_var(base, no_span()));
    mk_call("__smt_array_eq", no_span(), args, no_span())
}

/// What [`record_vec_builtin_facts`] computes.
pub open spec fn record_vec_builtin_facts_spec(
    callee: Seq<char>,
    args: Seq<ExprView>,
    var: Seq<char>,
    facts: Seq<ExprView>,
) -> Seq<ExprView>
{
    let len_var = crate::construct::mk_len_spec(
        crate::construct::mk_var_spec(var, no_span_spec()),
        no_span_spec(),
    );
    if callee == "vec"@ {
        let facts = facts.push(
            mk_eq_spec(
                len_var,
                crate::construct::mk_int_spec((args.len() as int) as i128, no_span_spec()),
            ),
        );
        record_array_element_facts_spec(args, var, facts, 0)
    } else if callee == "push"@ && args.len() == 2 {
        let old_len = crate::construct::mk_len_spec(args[0], no_span_spec());
        let plus_one = crate::construct::mk_binary_spec(
            BinaryOp::Add,
            old_len,
            crate::construct::mk_int_spec(1, no_span_spec()),
            no_span_spec(),
        );
        let facts = facts.push(mk_eq_spec(len_var, plus_one));
        let tail = crate::construct::mk_index_spec(
            crate::construct::mk_var_spec(var, no_span_spec()),
            old_len,
            no_span_spec(),
        );
        let facts = facts.push(mk_eq_spec(tail, args[1]));
        match unwrap_to_var_spec(args[0]) {
            Some(base) => facts.push(store_fact_spec(var, base, old_len, args[1])),
            None => facts,
        }
    } else if callee == "clone"@ && args.len() == 1 {
        let facts = facts.push(
            mk_eq_spec(len_var, crate::construct::mk_len_spec(args[0], no_span_spec())),
        );
        match unwrap_to_var_spec(args[0]) {
            Some(base) => facts.push(copy_fact_spec(var, base)),
            None => facts,
        }
    } else if callee == "set"@ && args.len() == 3 {
        let facts = facts.push(
            mk_eq_spec(len_var, crate::construct::mk_len_spec(args[0], no_span_spec())),
        );
        let slot = crate::construct::mk_index_spec(
            crate::construct::mk_var_spec(var, no_span_spec()),
            args[1],
            no_span_spec(),
        );
        let facts = facts.push(mk_eq_spec(slot, args[2]));
        match unwrap_to_var_spec(args[0]) {
            Some(base) => facts.push(store_fact_spec(var, base, args[1], args[2])),
            None => facts,
        }
    } else {
        facts
    }
}

/// The facts about `v` after `let v = vec(..)`, `push(..)`, `clone(..)` or
/// `set(..)`: its length, its elements, and how it relates to its source.
pub fn record_vec_builtin_facts(
    callee: &str,
    args: &Vec<Expr>,
    var: &str,
    facts: Vec<Expr>,
) -> (r: Vec<Expr>)
    ensures
        crate::ast::exprs_view(r@) == record_vec_builtin_facts_spec(
            callee@,
            crate::ast::exprs_view(args@),
            var@,
            crate::ast::exprs_view(facts@),
        ),
{
    let len_var = mk_len(mk_var(var, no_span()), no_span());
    if str_eq(callee, "vec") {
        let facts = push(facts, mk_eq(len_var, mk_int(args.len() as i128, no_span())));
        record_array_element_facts(args, var, facts)
    } else if str_eq(callee, "push") && args.len() == 2 {
        let old_len = mk_len(args[0].dup(), no_span());
        let plus_one = mk_binary(BinaryOp::Add, old_len.dup(), mk_int(1, no_span()), no_span());
        let facts = push(facts, mk_eq(len_var, plus_one));
        let tail = mk_index(mk_var(var, no_span()), old_len.dup(), no_span());
        let facts = push(facts, mk_eq(tail, args[1].dup()));
        match unwrap_to_var(&args[0]) {
            Some(base) => push(facts, store_fact(var, &base, &old_len, &args[1])),
            None => facts,
        }
    } else if str_eq(callee, "clone") && args.len() == 1 {
        let facts = push(facts, mk_eq(len_var, mk_len(args[0].dup(), no_span())));
        match unwrap_to_var(&args[0]) {
            Some(base) => push(facts, copy_fact(var, &base)),
            None => facts,
        }
    } else if str_eq(callee, "set") && args.len() == 3 {
        let facts = push(facts, mk_eq(len_var, mk_len(args[0].dup(), no_span())));
        let slot = mk_index(mk_var(var, no_span()), args[1].dup(), no_span());
        let facts = push(facts, mk_eq(slot, args[2].dup()));
        match unwrap_to_var(&args[0]) {
            Some(base) => push(facts, store_fact(var, &base, &args[1], &args[2])),
            None => facts,
        }
    } else {
        facts
    }
}

/// What [`bind_args`] computes from position `i` on.
pub open spec fn bind_args_spec(
    names: Seq<Seq<char>>,
    args: Seq<ExprView>,
    subs: Seq<(Seq<char>, ExprView)>,
    i: int,
) -> Seq<(Seq<char>, ExprView)>
    decreases names.len() - i,
{
    if 0 <= i < names.len() {
        let name = names[i];
        let subs = if i < args.len() { named_expr_put_spec(subs, name, args[i]) } else { subs };
        bind_args_spec(names, args, subs, i + 1)
    } else {
        subs
    }
}

/// Arguments by the names of their parameters.
pub fn bind_args(
    names: &Vec<String>,
    args: &Vec<Expr>,
    subs: Vec<(String, Expr)>,
) -> (r: Vec<(String, Expr)>)
    ensures
        crate::ast::named_exprs_view(r@) == bind_args_spec(
            crate::text::strs_view(names@),
            crate::ast::exprs_view(args@),
            crate::ast::named_exprs_view(subs@),
            0,
        ),
{
    let ghost whole_run = bind_args_spec(
        crate::text::strs_view(names@),
        crate::ast::exprs_view(args@),
        crate::ast::named_exprs_view(subs@),
        0,
    );
    let mut subs = subs;
    let mut i: usize = 0;
    while i < names.len()
        invariant
            i <= names.len(),
            bind_args_spec(
                crate::text::strs_view(names@),
                crate::ast::exprs_view(args@),
                crate::ast::named_exprs_view(subs@),
                i as int,
            ) == whole_run,
        decreases names.len() - i,
    {
        let name = &names[i];
        subs = if i < args.len() { named_expr_put(&subs, name, &args[i]) } else { subs };
        i += 1;
    }
    subs
}

/// What [`substituted`] computes.
pub open spec fn substituted_spec(
    es: Seq<ExprView>,
    subs: Seq<(Seq<char>, ExprView)>,
) -> Seq<ExprView>
{
    es.map_values(|e: ExprView| substitute_expr_spec(e, subs))
}

/// Expressions with variables replaced.
pub fn substituted(es: &Vec<Expr>, subs: &Vec<(String, Expr)>) -> (r: Vec<Expr>)
    ensures
        crate::ast::exprs_view(r@) == substituted_spec(
            crate::ast::exprs_view(es@),
            crate::ast::named_exprs_view(subs@),
        ),
{
    let ghost whole = substituted_spec(
        crate::ast::exprs_view(es@),
        crate::ast::named_exprs_view(subs@),
    );
    let ghost all = crate::ast::exprs_view(es@);
    let mut r: Vec<Expr> = Vec::new();
    let mut i: usize = 0;
    while i < es.len()
        invariant
            i <= es.len(),
            all == crate::ast::exprs_view(es@),
            whole == substituted_spec(
                crate::ast::exprs_view(es@),
                crate::ast::named_exprs_view(subs@),
            ),
            crate::ast::exprs_view(r@) == whole.take(i as int),
        decreases es.len() - i,
    {
        let e = &es[i];
        assert(all[i as int] == e@);
        r.push(substitute_expr(e, subs));
        assert(whole.take(i + 1) =~= whole.take(i as int).push(whole[i as int]));
        i += 1;
    }
    assert(whole.take(i as int) =~= whole);
    r
}

/// What [`record_ensures_facts`] computes.
pub open spec fn record_ensures_facts_spec(
    callee: Seq<char>,
    args: Seq<ExprView>,
    result: ExprView,
    signatures: Seq<(Seq<char>, SignatureView)>,
    facts: Seq<ExprView>,
) -> Seq<ExprView>
{
    match crate::scope::signature_get_spec(signatures, callee) {
        None => facts,
        Some(sig) => if sig.ensures.len() == 0 || args.len() != sig.params.len() {
            facts
        } else {
            let subs = bind_args_spec(sig.param_names, args, Seq::empty(), 0);
            let subs = named_expr_put_spec(subs, "_return"@, result);
            facts + substituted_spec(sig.ensures, subs)
        },
    }
}

/// What a function ensures of its result, with the arguments and the result's
/// name filled in.
pub fn record_ensures_facts(
    callee: &str,
    args: &Vec<Expr>,
    result: &Expr,
    signatures: &Vec<(String, Signature)>,
    facts: Vec<Expr>,
) -> (r: Vec<Expr>)
    ensures
        crate::ast::exprs_view(r@) == record_ensures_facts_spec(
            callee@,
            crate::ast::exprs_view(args@),
            result@,
            crate::state::signatures_view(signatures@),
            crate::ast::exprs_view(facts@),
        ),
{
    match signature_get(signatures, callee) {
        None => facts,
        Some(sig) => if sig.ensures.len() == 0 || args.len() != sig.params.len() {
            facts
        } else {
            let subs = bind_args(&sig.param_names, args, Vec::new());
            let subs = named_expr_put(&subs, "_return", result);
            join(facts, substituted(&sig.ensures, &subs))
        },
    }
}

/// What [`typed_to_expr`] computes.
pub open spec fn typed_to_expr_spec(t: TypedExprView) -> ExprView
    decreases t, 0int,
{
    match t.kind {
        TypedExprKindView::Int(v) => crate::construct::mk_int_spec(v, t.span),
        TypedExprKindView::Float(v) => crate::construct::mk_float_spec(v, t.span),
        TypedExprKindView::Bool(v) => crate::construct::mk_bool_spec(v, t.span),
        TypedExprKindView::Str(s) => crate::construct::mk_str_spec(s, t.span),
        TypedExprKindView::Var(name) => crate::construct::mk_var_spec(name, t.span),
        TypedExprKindView::Unary { op, expr } => crate::construct::mk_unary_spec(
            op,
            typed_to_expr_spec(*expr),
            t.span,
        ),
        TypedExprKindView::Binary { op, left, right, .. } => crate::construct::mk_binary_spec(
            op,
            typed_to_expr_spec(*left),
            typed_to_expr_spec(*right),
            t.span,
        ),
        TypedExprKindView::Call { name, name_span, args } => crate::construct::mk_call_spec(
            name,
            name_span,
            typed_to_exprs_spec(args, Seq::empty(), 0),
            t.span,
        ),
        TypedExprKindView::Cast { expr, ty } => crate::construct::mk_cast_spec(
            typed_to_expr_spec(*expr),
            ty,
            t.span,
        ),
        TypedExprKindView::Index { array, index, .. } => crate::construct::mk_index_spec(
            typed_to_expr_spec(*array),
            typed_to_expr_spec(*index),
            t.span,
        ),
        TypedExprKindView::Len { array, .. } => crate::construct::mk_len_spec(
            typed_to_expr_spec(*array),
            t.span,
        ),
        TypedExprKindView::ArrayLit { elements } => crate::construct::mk_array_spec(
            typed_to_exprs_spec(elements, Seq::empty(), 0),
            t.span,
        ),
        TypedExprKindView::Ref { name } => crate::construct::mk_ref_spec(
            crate::construct::mk_var_spec(name, t.span),
            t.span,
        ),
        TypedExprKindView::RefMut { name } => crate::construct::mk_ref_mut_spec(
            crate::construct::mk_var_spec(name, t.span),
            t.span,
        ),
        TypedExprKindView::RefField { object, field, .. } => crate::construct::mk_ref_spec(
            crate::construct::mk_field_spec(
                crate::construct::mk_var_spec(object, t.span),
                field,
                t.span,
            ),
            t.span,
        ),
        TypedExprKindView::RefMutField { object, field, .. } => crate::construct::mk_ref_mut_spec(
            crate::construct::mk_field_spec(
                crate::construct::mk_var_spec(object, t.span),
                field,
                t.span,
            ),
            t.span,
        ),
        TypedExprKindView::FnRef { name, .. } => crate::construct::mk_var_spec(name, t.span),
        TypedExprKindView::CallIndirect { args, .. } => crate::construct::mk_call_spec(
            "__intent_indirect_call"@,
            t.span,
            typed_to_exprs_spec(args, Seq::empty(), 0),
            t.span,
        ),
        TypedExprKindView::Tuple { elements } => crate::construct::mk_tuple_spec(
            typed_to_exprs_spec(elements, Seq::empty(), 0),
            t.span,
        ),
        TypedExprKindView::TupleAccess { tuple, index } => crate::construct::mk_tuple_access_spec(
            typed_to_expr_spec(*tuple),
            index,
            t.span,
        ),
        TypedExprKindView::StructLit {
            struct_name,
            fields,
        } => crate::construct::mk_struct_lit_spec(
            struct_name,
            t.span,
            typed_to_fields_spec(fields, Seq::empty(), 0),
            t.span,
        ),
        TypedExprKindView::FieldAccess { object, field, .. } => crate::construct::mk_field_spec(
            typed_to_expr_spec(*object),
            field,
            t.span,
        ),
        TypedExprKindView::EnumVariant {
            enum_name,
            variant,
            ..
        } => crate::construct::mk_field_spec(
            crate::construct::mk_var_spec(enum_name, t.span),
            variant,
            t.span,
        ),
        TypedExprKindView::EnumVariantWithPayload {
            enum_name,
            variant,
            payload,
            ..
        } => crate::construct::mk_method_call_spec(
            crate::construct::mk_var_spec(enum_name, t.span),
            variant,
            t.span,
            Seq::empty().push(typed_to_expr_spec(*payload)),
            t.span,
        ),
        TypedExprKindView::Match { scrutinee, arms } => crate::construct::mk_match_spec(
            typed_to_expr_spec(*scrutinee),
            typed_to_arms_spec(arms, t.span, Seq::empty(), 0),
            t.span,
        ),
        TypedExprKindView::IfExpr { cond, then_value, else_value } => crate::construct::mk_if_spec(
            typed_to_expr_spec(*cond),
            typed_to_expr_spec(*then_value),
            typed_to_expr_spec(*else_value),
            t.span,
        ),
        TypedExprKindView::Block { stmts, tail } => crate::construct::mk_block_spec(
            typed_to_lets_spec(stmts, t.span, Seq::empty(), 0),
            typed_to_expr_spec(*tail),
            t.span,
        ),
    }
}

/// A typed expression as source syntax.
pub fn typed_to_expr(t: &TypedExpr) -> (r: Expr)
    ensures
        r@ == typed_to_expr_spec(t@),
    decreases t, 0int,
{
    match &t.kind {
        TypedExprKind::Int(v) => mk_int(*v, t.span),
        TypedExprKind::Float(v) => mk_float(v.dup(), t.span),
        TypedExprKind::Bool(v) => mk_bool(*v, t.span),
        TypedExprKind::Str(s) => mk_str(s.clone(), t.span),
        TypedExprKind::Var(name) => mk_var(name, t.span),
        TypedExprKind::Unary { op, expr } => mk_unary(*op, typed_to_expr(&**expr), t.span),
        TypedExprKind::Binary { op, left, right, .. } => mk_binary(
            *op,
            typed_to_expr(&**left),
            typed_to_expr(&**right),
            t.span,
        ),
        TypedExprKind::Call { name, name_span, args } => mk_call(
            name,
            *name_span,
            typed_to_exprs(args, Vec::new()),
            t.span,
        ),
        TypedExprKind::Cast { expr, ty } => mk_cast(typed_to_expr(&**expr), ty.dup(), t.span),
        TypedExprKind::Index { array, index, .. } => mk_index(
            typed_to_expr(&**array),
            typed_to_expr(&**index),
            t.span,
        ),
        TypedExprKind::Len { array, .. } => mk_len(typed_to_expr(&**array), t.span),
        TypedExprKind::ArrayLit { elements } => mk_array(
            typed_to_exprs(elements, Vec::new()),
            t.span,
        ),
        TypedExprKind::Ref { name } => mk_ref(mk_var(name, t.span), t.span),
        TypedExprKind::RefMut { name } => mk_ref_mut(mk_var(name, t.span), t.span),
        TypedExprKind::RefField { object, field, .. } => mk_ref(
            mk_field(mk_var(object, t.span), field, t.span),
            t.span,
        ),
        TypedExprKind::RefMutField { object, field, .. } => mk_ref_mut(
            mk_field(mk_var(object, t.span), field, t.span),
            t.span,
        ),
        TypedExprKind::FnRef { name, .. } => mk_var(name, t.span),
        TypedExprKind::CallIndirect { args, .. } => mk_call(
            "__intent_indirect_call",
            t.span,
            typed_to_exprs(args, Vec::new()),
            t.span,
        ),
        TypedExprKind::Tuple { elements } => mk_tuple(typed_to_exprs(elements, Vec::new()), t.span),
        TypedExprKind::TupleAccess { tuple, index } => mk_tuple_access(
            typed_to_expr(&**tuple),
            *index,
            t.span,
        ),
        TypedExprKind::StructLit { struct_name, fields } => mk_struct_lit(
            struct_name,
            t.span,
            typed_to_fields(fields, Vec::new()),
            t.span,
        ),
        TypedExprKind::FieldAccess { object, field, .. } => mk_field(
            typed_to_expr(&**object),
            field,
            t.span,
        ),
        TypedExprKind::EnumVariant { enum_name, variant, .. } => mk_field(
            mk_var(enum_name, t.span),
            variant,
            t.span,
        ),
        TypedExprKind::EnumVariantWithPayload { enum_name, variant, payload, .. } => mk_method_call(
            mk_var(enum_name, t.span),
            variant,
            t.span,
            push(Vec::new(), typed_to_expr(&**payload)),
            t.span,
        ),
        TypedExprKind::Match { scrutinee, arms } => mk_match(
            typed_to_expr(&**scrutinee),
            typed_to_arms(arms, t.span, Vec::new()),
            t.span,
        ),
        TypedExprKind::IfExpr { cond, then_value, else_value } => mk_if(
            typed_to_expr(&**cond),
            typed_to_expr(&**then_value),
            typed_to_expr(&**else_value),
            t.span,
        ),
        TypedExprKind::Block { stmts, tail } => mk_block(
            typed_to_lets(stmts, t.span, Vec::new()),
            typed_to_expr(&**tail),
            t.span,
        ),
    }
}

/// What [`typed_to_exprs`] computes from position `i` on.
pub open spec fn typed_to_exprs_spec(
    ts: Seq<TypedExprView>,
    out: Seq<ExprView>,
    i: int,
) -> Seq<ExprView>
    decreases ts, ts.len() - i,
{
    if 0 <= i < ts.len() {
        let t = ts[i];
        let out = out.push(typed_to_expr_spec(t));
        typed_to_exprs_spec(ts, out, i + 1)
    } else {
        out
    }
}

pub fn typed_to_exprs(ts: &Vec<TypedExpr>, out: Vec<Expr>) -> (r: Vec<Expr>)
    ensures
        crate::ast::exprs_view(r@) == typed_to_exprs_spec(
            crate::ir::typed_exprs_view(ts@),
            crate::ast::exprs_view(out@),
            0,
        ),
    decreases ts, ts.len(),
{
    let ghost whole_run = typed_to_exprs_spec(
        crate::ir::typed_exprs_view(ts@),
        crate::ast::exprs_view(out@),
        0,
    );
    let mut out = out;
    let mut i: usize = 0;
    while i < ts.len()
        invariant
            i <= ts.len(),
            typed_to_exprs_spec(
                crate::ir::typed_exprs_view(ts@),
                crate::ast::exprs_view(out@),
                i as int,
            ) == whole_run,
        decreases ts.len() - i,
    {
        let t = &ts[i];
        out = push(out, typed_to_expr(t));
        i += 1;
    }
    out
}

/// What [`typed_to_fields`] computes from position `i` on.
pub open spec fn typed_to_fields_spec(
    fs: Seq<(Seq<char>, TypedExprView)>,
    out: Seq<(Seq<char>, ExprView)>,
    i: int,
) -> Seq<(Seq<char>, ExprView)>
    decreases fs, fs.len() - i,
{
    if 0 <= i < fs.len() {
        let f = fs[i];
        let out = out.push((f.0, typed_to_expr_spec(f.1)));
        typed_to_fields_spec(fs, out, i + 1)
    } else {
        out
    }
}

pub fn typed_to_fields(
    fs: &Vec<(String, TypedExpr)>,
    out: Vec<(String, Expr)>,
) -> (r: Vec<(String, Expr)>)
    ensures
        crate::ast::named_exprs_view(r@) == typed_to_fields_spec(
            crate::ir::named_typed_exprs_view(fs@),
            crate::ast::named_exprs_view(out@),
            0,
        ),
    decreases fs, fs.len(),
{
    let ghost whole_run = typed_to_fields_spec(
        crate::ir::named_typed_exprs_view(fs@),
        crate::ast::named_exprs_view(out@),
        0,
    );
    let mut out = out;
    let mut i: usize = 0;
    while i < fs.len()
        invariant
            i <= fs.len(),
            typed_to_fields_spec(
                crate::ir::named_typed_exprs_view(fs@),
                crate::ast::named_exprs_view(out@),
                i as int,
            ) == whole_run,
        decreases fs.len() - i,
    {
        let f = &fs[i];
        out = push(out, (f.0.clone(), typed_to_expr(&f.1)));
        i += 1;
    }
    out
}

/// What [`typed_to_arms`] computes from position `i` on.
pub open spec fn typed_to_arms_spec(
    arms: Seq<TypedMatchArmView>,
    span: Span,
    out: Seq<MatchArmView>,
    i: int,
) -> Seq<MatchArmView>
    decreases arms, arms.len() - i,
{
    if 0 <= i < arms.len() {
        let a = arms[i];
        let out = {
            let pattern = if a.is_wildcard {
                PatternView::Wildcard
            } else {
                PatternView::Variant { enum_name: ""@, variant: a.variant }
            };
            out.push(crate::construct::mk_arm_spec(pattern, span, typed_to_expr_spec(a.body)))
        };
        typed_to_arms_spec(arms, span, out, i + 1)
    } else {
        out
    }
}

pub fn typed_to_arms(
    arms: &Vec<TypedMatchArm>,
    span: Span,
    out: Vec<MatchArm>,
) -> (r: Vec<MatchArm>)
    ensures
        crate::ast::arms_view(r@) == typed_to_arms_spec(
            crate::ir::typed_arms_view(arms@),
            span,
            crate::ast::arms_view(out@),
            0,
        ),
    decreases arms, arms.len(),
{
    let ghost whole_run = typed_to_arms_spec(
        crate::ir::typed_arms_view(arms@),
        span,
        crate::ast::arms_view(out@),
        0,
    );
    let mut out = out;
    let mut i: usize = 0;
    while i < arms.len()
        invariant
            i <= arms.len(),
            typed_to_arms_spec(
                crate::ir::typed_arms_view(arms@),
                span,
                crate::ast::arms_view(out@),
                i as int,
            ) == whole_run,
        decreases arms.len() - i,
    {
        let a = &arms[i];
        out = {
            let pattern = if a.is_wildcard {
                Pattern::Wildcard
            } else {
                Pattern::Variant { enum_name: text(""), variant: a.variant.clone() }
            };
            push(out, mk_arm(pattern, span, typed_to_expr(&a.body)))
        };
        i += 1;
    }
    out
}

/// What [`typed_to_lets`] computes from position `i` on.
pub open spec fn typed_to_lets_spec(
    ss: Seq<TypedStmtView>,
    span: Span,
    out: Seq<StmtView>,
    i: int,
) -> Seq<StmtView>
    decreases ss, ss.len() - i,
{
    if 0 <= i < ss.len() {
        let s = ss[i];
        let out = match s {
            TypedStmtView::Let { name, expr, .. } => out.push(
                crate::construct::mk_let_spec(name, None, typed_to_expr_spec(expr), span),
            ),
            _ => out,
        };
        typed_to_lets_spec(ss, span, out, i + 1)
    } else {
        out
    }
}

pub fn typed_to_lets(ss: &Vec<TypedStmt>, span: Span, out: Vec<Stmt>) -> (r: Vec<Stmt>)
    ensures
        crate::ast::stmts_view(r@) == typed_to_lets_spec(
            crate::ir::typed_stmts_view(ss@),
            span,
            crate::ast::stmts_view(out@),
            0,
        ),
    decreases ss, ss.len(),
{
    let ghost whole_run = typed_to_lets_spec(
        crate::ir::typed_stmts_view(ss@),
        span,
        crate::ast::stmts_view(out@),
        0,
    );
    let mut out = out;
    let mut i: usize = 0;
    while i < ss.len()
        invariant
            i <= ss.len(),
            typed_to_lets_spec(
                crate::ir::typed_stmts_view(ss@),
                span,
                crate::ast::stmts_view(out@),
                i as int,
            ) == whole_run,
        decreases ss.len() - i,
    {
        let s = &ss[i];
        out = match s {
            TypedStmt::Let { name, expr, .. } => push(
                out,
                mk_let(name, None, typed_to_expr(expr), span),
            ),
            _ => out,
        };
        i += 1;
    }
    out
}

/// After a variable is forgotten, a fact is known exactly where it was known
/// before and does not read the variable.
pub proof fn forgotten_facts_are_gone(facts: Seq<ExprView>, name: Seq<char>, e: ExprView)
    ensures
        drop_facts_mentioning_spec(facts, name).contains(e) <==> facts.contains(e)
            && !expr_mentions_spec(e, name),
{
    let kept = |f: ExprView| !expr_mentions_spec(f, name);
    let after = drop_facts_mentioning_spec(facts, name);
    assert(after =~= facts.filter(kept));
    broadcast use vstd::seq_lib::group_filter_ensures;
    if after.contains(e) {
        let j = choose|j: int| 0 <= j < after.len() && after[j] == e;
        assert(kept(facts.filter(kept)[j]));
        filtered_is_there(facts, kept, j);
    }
    if facts.contains(e) && kept(e) {
        let j = choose|j: int| 0 <= j < facts.len() && facts[j] == e;
        facts.lemma_filter_contains(kept, j);
    }
}

proof fn filtered_is_there(s: Seq<ExprView>, kept: spec_fn(ExprView) -> bool, j: int)
    requires
        0 <= j < s.filter(kept).len(),
    ensures
        s.contains(s.filter(kept)[j]),
    decreases s.len(),
{
    reveal(Seq::filter);
    if s.len() > 0 {
        let before = s.drop_last();
        if j < before.filter(kept).len() {
            filtered_is_there(before, kept, j);
            let k = choose|k: int| 0 <= k < before.len() && before[k] == before.filter(kept)[j];
            assert(s[k] == before[k]);
        } else {
            assert(s[s.len() - 1] == s.last());
        }
    }
}

/// The truth of an expression, given the values of operands in a total order
/// and the truth of what has no logical form of its own.
pub open spec fn truth(
    e: ExprView,
    value: spec_fn(ExprView) -> int,
    atom: spec_fn(ExprView) -> bool,
) -> bool
    decreases e,
{
    match e.kind {
        ExprKindView::Bool(v) => v,
        ExprKindView::Unary { op: UnaryOp::Not, expr } => !truth(*expr, value, atom),
        ExprKindView::Binary {
            op: BinaryOp::And,
            left,
            right,
        } => truth(*left, value, atom) && truth(
            *right,
            value,
            atom,
        ),
        ExprKindView::Binary {
            op: BinaryOp::Or,
            left,
            right,
        } => truth(*left, value, atom) || truth(
            *right,
            value,
            atom,
        ),
        ExprKindView::Binary { op: BinaryOp::Eq, left, right } => value(*left) == value(*right),
        ExprKindView::Binary { op: BinaryOp::Ne, left, right } => value(*left) != value(*right),
        ExprKindView::Binary { op: BinaryOp::Lt, left, right } => value(*left) < value(*right),
        ExprKindView::Binary { op: BinaryOp::Le, left, right } => value(*left) <= value(*right),
        ExprKindView::Binary { op: BinaryOp::Gt, left, right } => value(*left) > value(*right),
        ExprKindView::Binary { op: BinaryOp::Ge, left, right } => value(*left) >= value(*right),
        _ => atom(e),
    }
}

/// The negation of an expression is true exactly where the expression is not.
pub proof fn negation_negates(
    e: ExprView,
    value: spec_fn(ExprView) -> int,
    atom: spec_fn(ExprView) -> bool,
)
    ensures
        truth(negate_spec(e), value, atom) == !truth(e, value, atom),
{
    reveal_with_fuel(truth, 2);
}

/// Negating twice gives the expression back, unless it was a negation itself.
pub proof fn negation_undoes_itself(e: ExprView)
    requires
        !(e.kind matches ExprKindView::Unary { op: UnaryOp::Not, .. }),
    ensures
        negate_spec(negate_spec(e)) == e,
{
}

/// What is true by its form is true whatever its operands are, as long as
/// expressions that differ only in their places have the same value; and what
/// is false by its form is false.
pub proof fn true_by_form_is_true(
    e: ExprView,
    value: spec_fn(ExprView) -> int,
    atom: spec_fn(ExprView) -> bool,
)
    requires
        forall|a: ExprView, b: ExprView| #[trigger]
            exprs_equal_spec(a, b) ==> value(a) == value(b),
    ensures
        is_structurally_true_spec(e) ==> truth(e, value, atom),
        is_structurally_false_spec(e) ==> !truth(e, value, atom),
    decreases e,
{
    match e.kind {
        ExprKindView::Unary { expr, .. } => {
            true_by_form_is_true(*expr, value, atom);
        },
        ExprKindView::Binary { left, right, .. } => {
            true_by_form_is_true(*left, value, atom);
            true_by_form_is_true(*right, value, atom);
        },
        _ => {},
    }
}

/// A `break` inside a loop leaves that loop only.
pub proof fn loops_keep_their_breaks(s: StmtView)
    requires
        s is While || s is For || s is ForIter,
    ensures
        !stmt_breaks_spec(s),
{
}

proof fn any_of_both(all: Seq<ExprView>, x: ExprView, name: Seq<char>)
    ensures
        any_mentions_spec(
            all.push(x),
            name,
        ) == (any_mentions_spec(all, name) || expr_mentions_spec(x, name)),
{
    let more = all.push(x);
    assert(more[all.len() as int] == x);
    if any_mentions_spec(all, name) {
        let k = choose|k: int| #![trigger all[k]] 0 <= k < all.len()
            && expr_mentions_spec(all[k], name);
        assert(more[k] == all[k]);
    }
}

proof fn fields_of_both(all: Seq<(Seq<char>, ExprView)>, x: (Seq<char>, ExprView), name: Seq<char>)
    ensures
        fields_mention_spec(
            all.push(x),
            name,
        ) == (fields_mention_spec(all, name) || expr_mentions_spec(x.1, name)),
{
    let more = all.push(x);
    assert(more[all.len() as int] == x);
    if fields_mention_spec(all, name) {
        let k = choose|k: int| #![trigger all[k]] 0 <= k < all.len()
            && expr_mentions_spec(all[k].1, name);
        assert(more[k] == all[k]);
    }
}

proof fn arms_of_both(all: Seq<MatchArmView>, x: MatchArmView, name: Seq<char>)
    ensures
        arms_mention_spec(
            all.push(x),
            name,
        ) == (arms_mention_spec(all, name) || expr_mentions_spec(x.body, name)),
{
    let more = all.push(x);
    assert(more[all.len() as int] == x);
    if arms_mention_spec(all, name) {
        let k = choose|k: int| #![trigger all[k]] 0 <= k < all.len()
            && expr_mentions_spec(all[k].body, name);
        assert(more[k] == all[k]);
    }
}

proof fn lets_of_both(all: Seq<StmtView>, x: StmtView, name: Seq<char>)
    ensures
        lets_mention_spec(
            all.push(x),
            name,
        ) == (lets_mention_spec(all, name) || let_mentions_spec(x, name)),
{
    let more = all.push(x);
    assert(more[all.len() as int] == x);
    if lets_mention_spec(all, name) {
        let k = choose|k: int| #![trigger all[k]] 0 <= k < all.len()
            && let_mentions_spec(all[k], name);
        assert(more[k] == all[k]);
    }
}

/// Once its reads are fixed at a version, a variable is not read any more.
pub proof fn pinned_variable_is_gone(e: ExprView, name: Seq<char>, version: u32)
    requires
        !name.contains('#'),
    ensures
        !expr_mentions_spec(pin_var_to_version_spec(e, name, version), name),
    decreases e, 0int,
{
    match e.kind {
        ExprKindView::Var(n) => {
            reveal_strlit("#");
            assert((name + "#"@ + crate::text::decimal(version as int)).len() > name.len());
        },
        ExprKindView::Unary { expr, .. } => {
            pinned_variable_is_gone(*expr, name, version);
        },
        ExprKindView::Binary { left, right, .. } => {
            pinned_variable_is_gone(*left, name, version);
            pinned_variable_is_gone(*right, name, version);
        },
        ExprKindView::Cast { expr, .. } => {
            pinned_variable_is_gone(*expr, name, version);
        },
        ExprKindView::Call { args, .. } => {
            pinned_exprs_gone(args, name, version, Seq::empty(), 0);
        },
        ExprKindView::MethodCall { receiver, args, .. } => {
            pinned_variable_is_gone(*receiver, name, version);
            pinned_exprs_gone(args, name, version, Seq::empty(), 0);
        },
        ExprKindView::Index { array, index } => {
            pinned_variable_is_gone(*array, name, version);
            pinned_variable_is_gone(*index, name, version);
        },
        ExprKindView::Len { array } => {
            pinned_variable_is_gone(*array, name, version);
        },
        ExprKindView::ArrayLit { elements } => {
            pinned_exprs_gone(elements, name, version, Seq::empty(), 0);
        },
        ExprKindView::Ref { inner } => {
            pinned_variable_is_gone(*inner, name, version);
        },
        ExprKindView::RefMut { inner } => {
            pinned_variable_is_gone(*inner, name, version);
        },
        ExprKindView::Tuple(elements) => {
            pinned_exprs_gone(elements, name, version, Seq::empty(), 0);
        },
        ExprKindView::TupleAccess { tuple, .. } => {
            pinned_variable_is_gone(*tuple, name, version);
        },
        ExprKindView::StructLit { fields, .. } => {
            pinned_fields_gone(fields, name, version, Seq::empty(), 0);
        },
        ExprKindView::FieldAccess { object, .. } => {
            pinned_variable_is_gone(*object, name, version);
        },
        ExprKindView::Match { scrutinee, arms } => {
            pinned_variable_is_gone(*scrutinee, name, version);
            pinned_arms_gone(arms, name, version, Seq::empty(), 0);
        },
        ExprKindView::IfExpr { cond, then_value, else_value } => {
            pinned_variable_is_gone(*cond, name, version);
            pinned_variable_is_gone(*then_value, name, version);
            pinned_variable_is_gone(*else_value, name, version);
        },
        ExprKindView::Block { stmts, tail } => {
            pinned_lets_gone(stmts, name, version, Seq::empty(), 0);
            pinned_variable_is_gone(*tail, name, version);
        },
        ExprKindView::Try { inner } => {
            pinned_variable_is_gone(*inner, name, version);
        },
        _ => {},
    }
}

proof fn pinned_exprs_gone(
    es: Seq<ExprView>,
    name: Seq<char>,
    version: u32,
    out: Seq<ExprView>,
    i: int,
)
    requires
        !name.contains('#'),
        !any_mentions_spec(out, name),
        0 <= i <= es.len(),
    ensures
        !any_mentions_spec(pin_exprs_spec(es, name, version, out, i), name),
    decreases es, es.len() - i,
{
    if i < es.len() {
        pinned_variable_is_gone(es[i], name, version);
        let one = pin_var_to_version_spec(es[i], name, version);
        any_of_both(out, one, name);
        pinned_exprs_gone(es, name, version, out.push(one), i + 1);
    }
}

proof fn pinned_fields_gone(
    fs: Seq<(Seq<char>, ExprView)>,
    name: Seq<char>,
    version: u32,
    out: Seq<(Seq<char>, ExprView)>,
    i: int,
)
    requires
        !name.contains('#'),
        !fields_mention_spec(out, name),
        0 <= i <= fs.len(),
    ensures
        !fields_mention_spec(pin_fields_spec(fs, name, version, out, i), name),
    decreases fs, fs.len() - i,
{
    if i < fs.len() {
        pinned_variable_is_gone(fs[i].1, name, version);
        let one = (fs[i].0, pin_var_to_version_spec(fs[i].1, name, version));
        fields_of_both(out, one, name);
        pinned_fields_gone(fs, name, version, out.push(one), i + 1);
    }
}

proof fn pinned_arms_gone(
    arms: Seq<MatchArmView>,
    name: Seq<char>,
    version: u32,
    out: Seq<MatchArmView>,
    i: int,
)
    requires
        !name.contains('#'),
        !arms_mention_spec(out, name),
        0 <= i <= arms.len(),
    ensures
        !arms_mention_spec(pin_arms_spec(arms, name, version, out, i), name),
    decreases arms, arms.len() - i,
{
    if i < arms.len() {
        pinned_variable_is_gone(arms[i].body, name, version);
        let one = MatchArmView {
            body: pin_var_to_version_spec(arms[i].body, name, version),
            ..arms[i]
        };
        arms_of_both(out, one, name);
        pinned_arms_gone(arms, name, version, out.push(one), i + 1);
    }
}

proof fn pinned_lets_gone(
    ss: Seq<StmtView>,
    name: Seq<char>,
    version: u32,
    out: Seq<StmtView>,
    i: int,
)
    requires
        !name.contains('#'),
        !lets_mention_spec(out, name),
        0 <= i <= ss.len(),
    ensures
        !lets_mention_spec(pin_lets_spec(ss, name, version, out, i), name),
    decreases ss, ss.len() - i,
{
    if i < ss.len() {
        match ss[i] {
            StmtView::Let { name: n, annotation, expr, span } => {
                pinned_variable_is_gone(expr, name, version);
                let one = StmtView::Let {
                    name: n,
                    annotation,
                    expr: pin_var_to_version_spec(expr, name, version),
                    span,
                };
                lets_of_both(out, one, name);
                pinned_lets_gone(ss, name, version, out.push(one), i + 1);
            },
            _ => {
                lets_of_both(out, ss[i], name);
                pinned_lets_gone(ss, name, version, out.push(ss[i]), i + 1);
            },
        }
    }
}

proof fn found_expr(m: Seq<(Seq<char>, ExprView)>, k: Seq<char>, i: int)
    requires
        0 <= i <= m.len(),
    ensures
        named_expr_find_spec(m, k, None, i) matches Some(x) ==> exists|j: int|
            0 <= j < m.len() && (#[trigger] m[j]).0 == k && m[j].1 == x,
        named_expr_find_spec(m, k, None, i) is None ==> forall|j: int|
            i <= j < m.len() ==> (#[trigger] m[j]).0 != k,
    decreases m.len() - i,
{
    reveal_with_fuel(named_expr_find_spec, 2);
    if i < m.len() && m[i].0 != k {
        found_expr(m, k, i + 1);
    }
}

/// Once it is replaced, a variable is read only where a replacement reads it.
pub proof fn replaced_variable_is_gone(e: ExprView, subs: Seq<(Seq<char>, ExprView)>, k: Seq<char>)
    requires
        named_expr_has_spec(subs, k),
        forall|j: int| 0 <= j < subs.len() ==> !expr_mentions_spec(#[trigger] subs[j].1, k),
    ensures
        !expr_mentions_spec(substitute_expr_spec(e, subs), k),
    decreases e, 0int,
{
    match e.kind {
        ExprKindView::Var(n) => {
            found_expr(subs, n, 0);
        },
        ExprKindView::Unary { expr, .. } => {
            replaced_variable_is_gone(*expr, subs, k);
        },
        ExprKindView::Binary { left, right, .. } => {
            replaced_variable_is_gone(*left, subs, k);
            replaced_variable_is_gone(*right, subs, k);
        },
        ExprKindView::Cast { expr, .. } => {
            replaced_variable_is_gone(*expr, subs, k);
        },
        ExprKindView::Call { args, .. } => {
            replaced_exprs_gone(args, subs, k, Seq::empty(), 0);
        },
        ExprKindView::MethodCall { receiver, args, .. } => {
            replaced_variable_is_gone(*receiver, subs, k);
            replaced_exprs_gone(args, subs, k, Seq::empty(), 0);
        },
        ExprKindView::Index { array, index } => {
            replaced_variable_is_gone(*array, subs, k);
            replaced_variable_is_gone(*index, subs, k);
        },
        ExprKindView::Len { array } => {
            replaced_variable_is_gone(*array, subs, k);
        },
        ExprKindView::ArrayLit { elements } => {
            replaced_exprs_gone(elements, subs, k, Seq::empty(), 0);
        },
        ExprKindView::Ref { inner } => {
            replaced_variable_is_gone(*inner, subs, k);
        },
        ExprKindView::RefMut { inner } => {
            replaced_variable_is_gone(*inner, subs, k);
        },
        ExprKindView::Tuple(elements) => {
            replaced_exprs_gone(elements, subs, k, Seq::empty(), 0);
        },
        ExprKindView::TupleAccess { tuple, .. } => {
            replaced_variable_is_gone(*tuple, subs, k);
        },
        ExprKindView::StructLit { fields, .. } => {
            replaced_fields_gone(fields, subs, k, Seq::empty(), 0);
        },
        ExprKindView::FieldAccess { object, .. } => {
            replaced_variable_is_gone(*object, subs, k);
        },
        ExprKindView::Match { scrutinee, arms } => {
            replaced_variable_is_gone(*scrutinee, subs, k);
            replaced_arms_gone(arms, subs, k, Seq::empty(), 0);
        },
        ExprKindView::IfExpr { cond, then_value, else_value } => {
            replaced_variable_is_gone(*cond, subs, k);
            replaced_variable_is_gone(*then_value, subs, k);
            replaced_variable_is_gone(*else_value, subs, k);
        },
        ExprKindView::Block { stmts, tail } => {
            replaced_lets_gone(stmts, subs, k, Seq::empty(), 0);
            replaced_variable_is_gone(*tail, subs, k);
        },
        ExprKindView::Try { inner } => {
            replaced_variable_is_gone(*inner, subs, k);
        },
        _ => {},
    }
}

proof fn replaced_exprs_gone(
    es: Seq<ExprView>,
    subs: Seq<(Seq<char>, ExprView)>,
    k: Seq<char>,
    out: Seq<ExprView>,
    i: int,
)
    requires
        named_expr_has_spec(subs, k),
        forall|j: int| 0 <= j < subs.len() ==> !expr_mentions_spec(#[trigger] subs[j].1, k),
        !any_mentions_spec(out, k),
        0 <= i <= es.len(),
    ensures
        !any_mentions_spec(substitute_exprs_spec(es, subs, out, i), k),
    decreases es, es.len() - i,
{
    if i < es.len() {
        replaced_variable_is_gone(es[i], subs, k);
        let one = substitute_expr_spec(es[i], subs);
        any_of_both(out, one, k);
        replaced_exprs_gone(es, subs, k, out.push(one), i + 1);
    }
}

proof fn replaced_fields_gone(
    fs: Seq<(Seq<char>, ExprView)>,
    subs: Seq<(Seq<char>, ExprView)>,
    k: Seq<char>,
    out: Seq<(Seq<char>, ExprView)>,
    i: int,
)
    requires
        named_expr_has_spec(subs, k),
        forall|j: int| 0 <= j < subs.len() ==> !expr_mentions_spec(#[trigger] subs[j].1, k),
        !fields_mention_spec(out, k),
        0 <= i <= fs.len(),
    ensures
        !fields_mention_spec(substitute_fields_spec(fs, subs, out, i), k),
    decreases fs, fs.len() - i,
{
    if i < fs.len() {
        replaced_variable_is_gone(fs[i].1, subs, k);
        let one = (fs[i].0, substitute_expr_spec(fs[i].1, subs));
        fields_of_both(out, one, k);
        replaced_fields_gone(fs, subs, k, out.push(one), i + 1);
    }
}

proof fn replaced_arms_gone(
    arms: Seq<MatchArmView>,
    subs: Seq<(Seq<char>, ExprView)>,
    k: Seq<char>,
    out: Seq<MatchArmView>,
    i: int,
)
    requires
        named_expr_has_spec(subs, k),
        forall|j: int| 0 <= j < subs.len() ==> !expr_mentions_spec(#[trigger] subs[j].1, k),
        !arms_mention_spec(out, k),
        0 <= i <= arms.len(),
    ensures
        !arms_mention_spec(substitute_arms_spec(arms, subs, out, i), k),
    decreases arms, arms.len() - i,
{
    if i < arms.len() {
        replaced_variable_is_gone(arms[i].body, subs, k);
        let one = MatchArmView { body: substitute_expr_spec(arms[i].body, subs), ..arms[i] };
        arms_of_both(out, one, k);
        replaced_arms_gone(arms, subs, k, out.push(one), i + 1);
    }
}

proof fn replaced_lets_gone(
    ss: Seq<StmtView>,
    subs: Seq<(Seq<char>, ExprView)>,
    k: Seq<char>,
    out: Seq<StmtView>,
    i: int,
)
    requires
        named_expr_has_spec(subs, k),
        forall|j: int| 0 <= j < subs.len() ==> !expr_mentions_spec(#[trigger] subs[j].1, k),
        !lets_mention_spec(out, k),
        0 <= i <= ss.len(),
    ensures
        !lets_mention_spec(substitute_lets_spec(ss, subs, out, i), k),
    decreases ss, ss.len() - i,
{
    if i < ss.len() {
        match ss[i] {
            StmtView::Let { name: n, annotation, expr, span } => {
                replaced_variable_is_gone(expr, subs, k);
                let one = StmtView::Let {
                    name: n,
                    annotation,
                    expr: substitute_expr_spec(expr, subs),
                    span,
                };
                lets_of_both(out, one, k);
                replaced_lets_gone(ss, subs, k, out.push(one), i + 1);
            },
            _ => {
                lets_of_both(out, ss[i], k);
                replaced_lets_gone(ss, subs, k, out.push(ss[i]), i + 1);
            },
        }
    }
}

/// Replacing variables that an expression does not read changes nothing.
pub proof fn unread_variables_change_nothing(e: ExprView, subs: Seq<(Seq<char>, ExprView)>)
    requires
        forall|j: int| 0 <= j < subs.len() ==> !expr_mentions_spec(e, #[trigger] subs[j].0),
    ensures
        substitute_expr_spec(e, subs) == e,
    decreases e, 0int,
{
    match e.kind {
        ExprKindView::Var(n) => {
            found_expr(subs, n, 0);
        },
        ExprKindView::Unary { expr, .. } => {
            assert forall|j: int| 0 <= j < subs.len() implies !expr_mentions_spec(
                *expr,
                #[trigger] subs[j].0,
            ) by {
                assert(!expr_mentions_spec(e, subs[j].0));
            }
            unread_variables_change_nothing(*expr, subs);
        },
        ExprKindView::Binary { left, right, .. } => {
            assert forall|j: int| 0 <= j < subs.len() implies !expr_mentions_spec(
                *left,
                #[trigger] subs[j].0,
            ) by {
                assert(!expr_mentions_spec(e, subs[j].0));
            }
            unread_variables_change_nothing(*left, subs);
            assert forall|j: int| 0 <= j < subs.len() implies !expr_mentions_spec(
                *right,
                #[trigger] subs[j].0,
            ) by {
                assert(!expr_mentions_spec(e, subs[j].0));
            }
            unread_variables_change_nothing(*right, subs);
        },
        ExprKindView::Cast { expr, .. } => {
            assert forall|j: int| 0 <= j < subs.len() implies !expr_mentions_spec(
                *expr,
                #[trigger] subs[j].0,
            ) by {
                assert(!expr_mentions_spec(e, subs[j].0));
            }
            unread_variables_change_nothing(*expr, subs);
        },
        ExprKindView::Call { args, .. } => {
            assert forall|j: int| 0 <= j < subs.len() implies !any_mentions_spec(
                args,
                #[trigger] subs[j].0,
            ) by {
                assert(!expr_mentions_spec(e, subs[j].0));
            }
            unread_exprs_kept(args, subs, Seq::empty(), 0);
            assert(Seq::empty() + args.subrange(0, args.len() as int) =~= args);
        },
        ExprKindView::MethodCall { receiver, args, .. } => {
            assert forall|j: int| 0 <= j < subs.len() implies !expr_mentions_spec(
                *receiver,
                #[trigger] subs[j].0,
            ) by {
                assert(!expr_mentions_spec(e, subs[j].0));
            }
            unread_variables_change_nothing(*receiver, subs);
            assert forall|j: int| 0 <= j < subs.len() implies !any_mentions_spec(
                args,
                #[trigger] subs[j].0,
            ) by {
                assert(!expr_mentions_spec(e, subs[j].0));
            }
            unread_exprs_kept(args, subs, Seq::empty(), 0);
            assert(Seq::empty() + args.subrange(0, args.len() as int) =~= args);
        },
        ExprKindView::Index { array, index } => {
            assert forall|j: int| 0 <= j < subs.len() implies !expr_mentions_spec(
                *array,
                #[trigger] subs[j].0,
            ) by {
                assert(!expr_mentions_spec(e, subs[j].0));
            }
            unread_variables_change_nothing(*array, subs);
            assert forall|j: int| 0 <= j < subs.len() implies !expr_mentions_spec(
                *index,
                #[trigger] subs[j].0,
            ) by {
                assert(!expr_mentions_spec(e, subs[j].0));
            }
            unread_variables_change_nothing(*index, subs);
        },
        ExprKindView::Len { array } => {
            assert forall|j: int| 0 <= j < subs.len() implies !expr_mentions_spec(
                *array,
                #[trigger] subs[j].0,
            ) by {
                assert(!expr_mentions_spec(e, subs[j].0));
            }
            unread_variables_change_nothing(*array, subs);
        },
        ExprKindView::ArrayLit { elements } => {
            assert forall|j: int| 0 <= j < subs.len() implies !any_mentions_spec(
                elements,
                #[trigger] subs[j].0,
            ) by {
                assert(!expr_mentions_spec(e, subs[j].0));
            }
            unread_exprs_kept(elements, subs, Seq::empty(), 0);
            assert(Seq::empty() + elements.subrange(0, elements.len() as int) =~= elements);
        },
        ExprKindView::Ref { inner } => {
            assert forall|j: int| 0 <= j < subs.len() implies !expr_mentions_spec(
                *inner,
                #[trigger] subs[j].0,
            ) by {
                assert(!expr_mentions_spec(e, subs[j].0));
            }
            unread_variables_change_nothing(*inner, subs);
        },
        ExprKindView::RefMut { inner } => {
            assert forall|j: int| 0 <= j < subs.len() implies !expr_mentions_spec(
                *inner,
                #[trigger] subs[j].0,
            ) by {
                assert(!expr_mentions_spec(e, subs[j].0));
            }
            unread_variables_change_nothing(*inner, subs);
        },
        ExprKindView::Tuple(elements) => {
            assert forall|j: int| 0 <= j < subs.len() implies !any_mentions_spec(
                elements,
                #[trigger] subs[j].0,
            ) by {
                assert(!expr_mentions_spec(e, subs[j].0));
            }
            unread_exprs_kept(elements, subs, Seq::empty(), 0);
            assert(Seq::empty() + elements.subrange(0, elements.len() as int) =~= elements);
        },
        ExprKindView::TupleAccess { tuple, .. } => {
            assert forall|j: int| 0 <= j < subs.len() implies !expr_mentions_spec(
                *tuple,
                #[trigger] subs[j].0,
            ) by {
                assert(!expr_mentions_spec(e, subs[j].0));
            }
            unread_variables_change_nothing(*tuple, subs);
        },
        ExprKindView::StructLit { fields, .. } => {
            assert forall|j: int| 0 <= j < subs.len() implies !fields_mention_spec(
                fields,
                #[trigger] subs[j].0,
            ) by {
                assert(!expr_mentions_spec(e, subs[j].0));
            }
            unread_fields_kept(fields, subs, Seq::empty(), 0);
            assert(Seq::empty() + fields.subrange(0, fields.len() as int) =~= fields);
        },
        ExprKindView::FieldAccess { object, .. } => {
            assert forall|j: int| 0 <= j < subs.len() implies !expr_mentions_spec(
                *object,
                #[trigger] subs[j].0,
            ) by {
                assert(!expr_mentions_spec(e, subs[j].0));
            }
            unread_variables_change_nothing(*object, subs);
        },
        ExprKindView::Match { scrutinee, arms } => {
            assert forall|j: int| 0 <= j < subs.len() implies !expr_mentions_spec(
                *scrutinee,
                #[trigger] subs[j].0,
            ) by {
                assert(!expr_mentions_spec(e, subs[j].0));
            }
            unread_variables_change_nothing(*scrutinee, subs);
            assert forall|j: int| 0 <= j < subs.len() implies !arms_mention_spec(
                arms,
                #[trigger] subs[j].0,
            ) by {
                assert(!expr_mentions_spec(e, subs[j].0));
            }
            unread_arms_kept(arms, subs, Seq::empty(), 0);
            assert(Seq::empty() + arms.subrange(0, arms.len() as int) =~= arms);
        },
        ExprKindView::IfExpr { cond, then_value, else_value } => {
            assert forall|j: int| 0 <= j < subs.len() implies !expr_mentions_spec(
                *cond,
                #[trigger] subs[j].0,
            ) by {
                assert(!expr_mentions_spec(e, subs[j].0));
            }
            unread_variables_change_nothing(*cond, subs);
            assert forall|j: int| 0 <= j < subs.len() implies !expr_mentions_spec(
                *then_value,
                #[trigger] subs[j].0,
            ) by {
                assert(!expr_mentions_spec(e, subs[j].0));
            }
            unread_variables_change_nothing(*then_value, subs);
            assert forall|j: int| 0 <= j < subs.len() implies !expr_mentions_spec(
                *else_value,
                #[trigger] subs[j].0,
            ) by {
                assert(!expr_mentions_spec(e, subs[j].0));
            }
            unread_variables_change_nothing(*else_value, subs);
        },
        ExprKindView::Block { stmts, tail } => {
            assert forall|j: int| 0 <= j < subs.len() implies !expr_mentions_spec(
                *tail,
                #[trigger] subs[j].0,
            ) by {
                assert(!expr_mentions_spec(e, subs[j].0));
            }
            unread_variables_change_nothing(*tail, subs);
            assert forall|j: int| 0 <= j < subs.len() implies !lets_mention_spec(
                stmts,
                #[trigger] subs[j].0,
            ) by {
                assert(!expr_mentions_spec(e, subs[j].0));
            }
            unread_lets_kept(stmts, subs, Seq::empty(), 0);
            assert(Seq::empty() + stmts.subrange(0, stmts.len() as int) =~= stmts);
        },
        ExprKindView::Try { inner } => {
            assert forall|j: int| 0 <= j < subs.len() implies !expr_mentions_spec(
                *inner,
                #[trigger] subs[j].0,
            ) by {
                assert(!expr_mentions_spec(e, subs[j].0));
            }
            unread_variables_change_nothing(*inner, subs);
        },
        _ => {},
    }
}

proof fn unread_exprs_kept(
    es: Seq<ExprView>,
    subs: Seq<(Seq<char>, ExprView)>,
    out: Seq<ExprView>,
    i: int,
)
    requires
        0 <= i <= es.len(),
        forall|j: int|
            0 <= j < subs.len() ==> !any_mentions_spec(es, #[trigger] subs[j].0),
    ensures
        substitute_exprs_spec(es, subs, out, i) == out + es.subrange(i, es.len() as int),
    decreases es, es.len() - i,
{
    if i < es.len() {
        assert forall|j: int| 0 <= j < subs.len() implies !expr_mentions_spec(
            es[i],
            #[trigger] subs[j].0,
        ) by {
            assert(!any_mentions_spec(es, subs[j].0));
        }
        unread_variables_change_nothing(es[i], subs);
        unread_exprs_kept(es, subs, out.push(es[i]), i + 1);
        assert(out.push(es[i]) + es.subrange(i + 1, es.len() as int) =~= out + es.subrange(
            i,
            es.len() as int,
        ));
    } else {
        assert(out + es.subrange(i, es.len() as int) =~= out);
    }
}

proof fn unread_fields_kept(
    fs: Seq<(Seq<char>, ExprView)>,
    subs: Seq<(Seq<char>, ExprView)>,
    out: Seq<(Seq<char>, ExprView)>,
    i: int,
)
    requires
        0 <= i <= fs.len(),
        forall|j: int|
            0 <= j < subs.len() ==> !fields_mention_spec(fs, #[trigger] subs[j].0),
    ensures
        substitute_fields_spec(fs, subs, out, i) == out + fs.subrange(i, fs.len() as int),
    decreases fs, fs.len() - i,
{
    if i < fs.len() {
        assert forall|j: int| 0 <= j < subs.len() implies !expr_mentions_spec(
            fs[i].1,
            #[trigger] subs[j].0,
        ) by {
            assert(!fields_mention_spec(fs, subs[j].0));
        }
        unread_variables_change_nothing(fs[i].1, subs);
        unread_fields_kept(fs, subs, out.push(fs[i]), i + 1);
        assert(out.push(fs[i]) + fs.subrange(i + 1, fs.len() as int) =~= out + fs.subrange(
            i,
            fs.len() as int,
        ));
    } else {
        assert(out + fs.subrange(i, fs.len() as int) =~= out);
    }
}

proof fn unread_arms_kept(
    arms: Seq<MatchArmView>,
    subs: Seq<(Seq<char>, ExprView)>,
    out: Seq<MatchArmView>,
    i: int,
)
    requires
        0 <= i <= arms.len(),
        forall|j: int|
            0 <= j < subs.len() ==> !arms_mention_spec(arms, #[trigger] subs[j].0),
    ensures
        substitute_arms_spec(arms, subs, out, i) == out + arms.subrange(i, arms.len() as int),
    decreases arms, arms.len() - i,
{
    if i < arms.len() {
        assert forall|j: int| 0 <= j < subs.len() implies !expr_mentions_spec(
            arms[i].body,
            #[trigger] subs[j].0,
        ) by {
            assert(!arms_mention_spec(arms, subs[j].0));
        }
        unread_variables_change_nothing(arms[i].body, subs);
        unread_arms_kept(arms, subs, out.push(arms[i]), i + 1);
        assert(out.push(arms[i]) + arms.subrange(i + 1, arms.len() as int) =~= out + arms.subrange(
            i,
            arms.len() as int,
        ));
    } else {
        assert(out + arms.subrange(i, arms.len() as int) =~= out);
    }
}

proof fn unread_lets_kept(
    ss: Seq<StmtView>,
    subs: Seq<(Seq<char>, ExprView)>,
    out: Seq<StmtView>,
    i: int,
)
    requires
        0 <= i <= ss.len(),
        forall|j: int|
            0 <= j < subs.len() ==> !lets_mention_spec(ss, #[trigger] subs[j].0),
    ensures
        substitute_lets_spec(ss, subs, out, i) == out + ss.subrange(i, ss.len() as int),
    decreases ss, ss.len() - i,
{
    if i < ss.len() {
        assert forall|j: int| 0 <= j < subs.len() implies !let_mentions_spec(
            ss[i],
            #[trigger] subs[j].0,
        ) by {
            assert(!lets_mention_spec(ss, subs[j].0));
        }
        match ss[i] {
            StmtView::Let { expr, .. } => {
                assert forall|j: int| 0 <= j < subs.len() implies !expr_mentions_spec(
                    expr,
                    #[trigger] subs[j].0,
                ) by {
                    assert(!let_mentions_spec(ss[i], subs[j].0));
                }
                unread_variables_change_nothing(expr, subs);
            },
            _ => {},
        }
        unread_lets_kept(ss, subs, out.push(ss[i]), i + 1);
        assert(out.push(ss[i]) + ss.subrange(i + 1, ss.len() as int) =~= out + ss.subrange(
            i,
            ss.len() as int,
        ));
    } else {
        assert(out + ss.subrange(i, ss.len() as int) =~= out);
    }
}

} // verus!
