//! The parts of checking calls, literals and matches that come after their
//! operands are checked.

use vstd::prelude::*;
use crate::ast::{
    BinaryOp, Expr, ExprKind, ExprKindView, ExprView, FloatLit, FloatLitView, MatchArm,
    MatchArmView, Pattern, PatternView, Span, Type, TypeView, dup_exprs, dup_types, type_text,
};
use crate::construct::{mk_ref, mk_ref_mut};
use crate::ir::{
    TypedConst, TypedConstView, TypedExpr, TypedExprKind, TypedExprKindView, TypedExprView,
    TypedMatchArm, TypedMatchArmView, TypedStmt, TypedStmtView,
};
use crate::moves::{diagnose_partial_then_whole_move, has_leaf, take_value};
use crate::numeric::{
    bool_text, coerce_checked, coerce_numeric_operand, dup_constant, is_supported_atomic_element,
    promoted_numeric_type, value_fits_type,
};
use crate::operators::{
    array_of, atomic_of, binary_kind, enum_name_of, fn_ptr_of, guard_of, int_constant,
    struct_name_of, two_exprs,
};
use crate::prove::{vec_of};
use crate::rewrite::{no_span};
use crate::scope::{
    all_bindings, checked, copies, fallback, fallback_integer, find_field, fresh_var,
    insert_current, lookup, lookup_enum, lookup_enum_variant_payload, lookup_struct,
    moved_field_get, name_position, report, report_note, signature_get, typed, with_decl,
};
use crate::signatures::{extract_locked_mutex_name};
use crate::state::{
    CheckedExpr, CheckedExprView, Context, ContextView, EnumInfo, EnumInfoView, Env, EnvView,
    Signature, SignatureView, State, StateView, VarInfo, VarInfoView,
};
use crate::text::{
    cat2, cat3, cat4, cat5, cat6, cat7, cat9, contains_str, int_text, join, push, str_eq, text,
    usize_text,
};
use crate::types::{
    deref, is_any_ref, is_bool, is_i64, is_integer, is_owned_str, nominal_name, type_eq,
};
use crate::typing::{Declared};

verus! {

broadcast use {
    crate::text::group_text_views,
    crate::ast::group_ast_views,
    crate::diagnostic::group_diagnostic_views,
    crate::ir::group_ir_views,
    crate::state::group_state_views,
    crate::state::group_extends,
    crate::typing::leaves_are_typed,
    crate::typing::found_field_is_declared,
    crate::typing::found_name_is_listed,
};

/// How the receiver of a method call becomes its first argument.
#[derive(Clone, Copy, PartialEq, Eq, Structural, Debug)]
pub enum Receiver {
    /// There is no receiver.
    Absent,
    Value,
    Ref,
    RefMut,
}

/// What a pattern selects.
#[derive(Debug, PartialEq)]
pub struct ArmKey {
    pub tag: u32,
    pub variant: String,
    pub int_value: Option<i128>,
}

/// The mathematical content of a [`ArmKey`].
pub struct ArmKeyView {
    pub tag: u32,
    pub variant: Seq<char>,
    pub int_value: Option<i128>,
}

pub open spec fn arm_key_view(x: ArmKey) -> ArmKeyView
{
    ArmKeyView {
        tag: x.tag,
        variant: x.variant@,
        int_value: x.int_value,
    }
}

impl View for ArmKey {
    type V = ArmKeyView;

    open spec fn view(&self) -> ArmKeyView {
        arm_key_view(*self)
    }
}

impl ArmKey {
    /// A copy with the same content.
    pub fn dup(&self) -> (r: Self)
        ensures
            r@ == self@,
    {
        ArmKey {
            tag: self.tag,
            variant: self.variant.clone(),
            int_value: self.int_value,
        }
    }
}

/// What the arms of a match have covered so far.
#[derive(Debug, PartialEq)]
pub struct ArmScan {
    pub arms: Vec<TypedMatchArm>,
    pub seen_variants: Vec<String>,
    pub seen_ints: Vec<i128>,
    pub seen_true: bool,
    pub seen_false: bool,
    pub result: Option<Type>,
    pub wildcard: bool,
}

/// The mathematical content of a [`ArmScan`].
pub struct ArmScanView {
    pub arms: Seq<TypedMatchArmView>,
    pub seen_variants: Seq<Seq<char>>,
    pub seen_ints: Seq<i128>,
    pub seen_true: bool,
    pub seen_false: bool,
    pub result: Option<TypeView>,
    pub wildcard: bool,
}

pub open spec fn arm_scan_view(x: ArmScan) -> ArmScanView
{
    ArmScanView {
        arms: crate::ir::typed_arms_view(x.arms@),
        seen_variants: crate::text::strs_view(x.seen_variants@),
        seen_ints: x.seen_ints@,
        seen_true: x.seen_true,
        seen_false: x.seen_false,
        result: (match x.result { Some(v0) => Some(crate::ast::type_view(v0)), None => None }),
        wildcard: x.wildcard,
    }
}

impl View for ArmScan {
    type V = ArmScanView;

    open spec fn view(&self) -> ArmScanView {
        arm_scan_view(*self)
    }
}

impl ArmScan {
    /// A copy with the same content.
    pub fn dup(&self) -> (r: Self)
        ensures
            r@ == self@,
    {
        ArmScan {
            arms: crate::ir::dup_typed_arms(&self.arms),
            seen_variants: crate::text::dup_strs(&self.seen_variants),
            seen_ints: crate::text::dup_plain(&self.seen_ints),
            seen_true: self.seen_true,
            seen_false: self.seen_false,
            result: match &self.result {
                Some(v) => Some(v.dup()),
                None => None,
            },
            wildcard: self.wildcard,
        }
    }
}

/// What the arms of a match on a string have covered so far.
#[derive(Debug, PartialEq)]
pub struct TextScan {
    pub seen: Vec<String>,
    pub arms: Vec<(String, TypedExpr)>,
    pub wildcard: Option<TypedExpr>,
    pub result: Option<Type>,
}

/// The mathematical content of a [`TextScan`].
pub struct TextScanView {
    pub seen: Seq<Seq<char>>,
    pub arms: Seq<(Seq<char>, TypedExprView)>,
    pub wildcard: Option<TypedExprView>,
    pub result: Option<TypeView>,
}

pub open spec fn text_scan_view(x: TextScan) -> TextScanView
{
    TextScanView {
        seen: crate::text::strs_view(x.seen@),
        arms: crate::ir::named_typed_exprs_view(x.arms@),
        wildcard: (match x.wildcard { Some(v0) => Some(crate::ir::typed_expr_view(v0)), None => None }),
        result: (match x.result { Some(v0) => Some(crate::ast::type_view(v0)), None => None }),
    }
}

impl View for TextScan {
    type V = TextScanView;

    open spec fn view(&self) -> TextScanView {
        text_scan_view(*self)
    }
}

impl TextScan {
    /// A copy with the same content.
    pub fn dup(&self) -> (r: Self)
        ensures
            r@ == self@,
    {
        TextScan {
            seen: crate::text::dup_strs(&self.seen),
            arms: crate::ir::dup_named_typed_exprs(&self.arms),
            wildcard: match &self.wildcard {
                Some(v) => Some(v.dup()),
                None => None,
            },
            result: match &self.result {
                Some(v) => Some(v.dup()),
                None => None,
            },
        }
    }
}

/// What [`var_name`] computes.
pub open spec fn var_name_spec(e: ExprView) -> Option<Seq<char>>
{
    match e.kind {
        ExprKindView::Var(name) => Some(name),
        _ => None,
    }
}

pub fn var_name(e: &Expr) -> (r: Option<String>)
    ensures
        (match &r { Some(v0) => Some(v0@), None => None }) == var_name_spec(e@),
{
    match &e.kind {
        ExprKind::Var(name) => Some(name.clone()),
        _ => None,
    }
}

/// What [`receiver_arg`] computes.
pub open spec fn receiver_arg_spec(receiver: ExprView, mode: Receiver) -> ExprView
{
    match mode {
        Receiver::Ref => crate::construct::mk_ref_spec(receiver, receiver.span),
        Receiver::RefMut => crate::construct::mk_ref_mut_spec(receiver, receiver.span),
        _ => receiver,
    }
}

/// The receiver as the first argument.
pub fn receiver_arg(receiver: &Expr, mode: Receiver) -> (r: Expr)
    ensures
        r@ == receiver_arg_spec(receiver@, mode),
{
    match mode {
        Receiver::Ref => mk_ref(receiver.dup(), receiver.span),
        Receiver::RefMut => mk_ref_mut(receiver.dup(), receiver.span),
        _ => receiver.dup(),
    }
}

/// What [`call_args`] computes.
pub open spec fn call_args_spec(e: ExprView, mode: Receiver) -> Seq<ExprView>
{
    match e.kind {
        ExprKindView::Call { args, .. } => (args),
        ExprKindView::MethodCall {
            receiver,
            args,
            ..
        } => Seq::empty().push(receiver_arg_spec(*receiver, mode)) + (args),
        _ => Seq::empty(),
    }
}

/// The arguments of a call, the receiver of a method call first.
pub fn call_args(e: &Expr, mode: Receiver) -> (r: Vec<Expr>)
    ensures
        crate::ast::exprs_view(r@) == call_args_spec(e@, mode),
{
    match &e.kind {
        ExprKind::Call { args, .. } => dup_exprs(args),
        ExprKind::MethodCall { receiver, args, .. } => join(
            push(Vec::new(), receiver_arg(&**receiver, mode)),
            dup_exprs(args),
        ),
        _ => Vec::new(),
    }
}

/// What [`no_exprs`] computes.
pub open spec fn no_exprs_spec() -> Seq<TypedExprView>
{
    Seq::empty()
}

pub fn no_exprs() -> (r: Vec<TypedExpr>)
    ensures
        crate::ir::typed_exprs_view(r@) == no_exprs_spec(),
{
    Vec::new()
}

/// What [`one_expr`] computes.
pub open spec fn one_expr_spec(a: TypedExprView) -> Seq<TypedExprView>
{
    Seq::empty().push(a)
}

pub fn one_expr(a: TypedExpr) -> (r: Vec<TypedExpr>)
    ensures
        crate::ir::typed_exprs_view(r@) == one_expr_spec(a@),
{
    push(Vec::new(), a)
}

/// What [`three_exprs`] computes.
pub open spec fn three_exprs_spec(
    a: TypedExprView,
    b: TypedExprView,
    c: TypedExprView,
) -> Seq<TypedExprView>
{
    Seq::empty().push(a).push(b).push(c)
}

pub fn three_exprs(a: TypedExpr, b: TypedExpr, c: TypedExpr) -> (r: Vec<TypedExpr>)
    ensures
        crate::ir::typed_exprs_view(r@) == three_exprs_spec(a@, b@, c@),
{
    push(push(push(Vec::new(), a), b), c)
}

/// What [`builtin_call`] computes.
pub open spec fn builtin_call_spec(
    name: Seq<char>,
    args: Seq<TypedExprView>,
    t: TypeView,
    span: Span,
) -> CheckedExprView
{
    crate::scope::checked_spec(
        TypedExprKindView::Call { name: name, name_span: span, args },
        t,
        None,
        span,
    )
}

/// A call of a built-in function.
pub fn builtin_call(name: &str, args: Vec<TypedExpr>, t: Type, span: Span) -> (r: CheckedExpr)
    ensures
        r@ == builtin_call_spec(name@, crate::ir::typed_exprs_view(args@), t@, span),
{
    checked(TypedExprKind::Call { name: text(name), name_span: span, args }, t, None, span)
}

/// What [`arg_span`] computes.
pub open spec fn arg_span_spec(args: Seq<ExprView>, k: int) -> Span
{
    if k < args.len() { args[k].span } else { crate::rewrite::no_span_spec() }
}

/// The span of the argument at a position.
pub fn arg_span(args: &Vec<Expr>, k: usize) -> (r: Span)
    ensures
        r == arg_span_spec(crate::ast::exprs_view(args@), k as int),
{
    if k < args.len() { args[k].span } else { no_span() }
}

/// What [`take_arg`] computes.
pub open spec fn take_arg_spec(
    args: Seq<ExprView>,
    k: int,
    e: TypedExprView,
    cx: ContextView,
    st: StateView,
) -> (TypedExprView, StateView)
{
    if k < args.len() { crate::moves::take_value_spec(args[k], e, cx, st) } else { (e, st) }
}

/// [`take_value`] on the argument at a position.
pub fn take_arg(
    args: &Vec<Expr>,
    k: usize,
    e: TypedExpr,
    cx: &Context,
    st: State,
) -> (r: (TypedExpr, State))
    ensures
        (r.0@, r.1@) == take_arg_spec(crate::ast::exprs_view(args@), k as int, e@, cx@, st@),
        r.0@.ty == e@.ty,
        crate::state::follows(st@, r.1@),
        crate::state::balanced(st@, r.1@),
        crate::state::same_facts(st@, r.1@),
        crate::typing::well_typed(e@, crate::typing::declared_in(cx@, st@.env))
            && st@.env.scopes.len() > 0
            && crate::typing::quiet(st@, r.1@)
            ==> crate::typing::well_typed(r.0@, crate::typing::declared_in(cx@, st@.env)),
{
    proof {
        reveal(crate::typing::well_typed);
    }
    if k < args.len() { take_value(&args[k], e, cx, st) } else { (e, st) }
}

/// What [`diagnose_arg`] computes.
pub open spec fn diagnose_arg_spec(
    args: Seq<ExprView>,
    k: int,
    c: CheckedExprView,
    cx: ContextView,
    st: StateView,
) -> StateView
{
    if k < args.len() { crate::moves::diagnose_partial_then_whole_move_spec(args[k], c, cx, st) } else { st }
}

/// [`diagnose_partial_then_whole_move`] on the argument at a position.
pub fn diagnose_arg(
    args: &Vec<Expr>,
    k: usize,
    c: &CheckedExpr,
    cx: &Context,
    st: State,
) -> (r: State)
    ensures
        r@ == diagnose_arg_spec(crate::ast::exprs_view(args@), k as int, c@, cx@, st@),
        crate::state::follows(st@, r@),
        crate::state::balanced(st@, r@),
        crate::state::same_facts(st@, r@),
{
    if k < args.len() { diagnose_partial_then_whole_move(&args[k], c, cx, st) } else { st }
}

/// What [`report_count`] computes.
pub open spec fn report_count_spec(
    before: Seq<char>,
    after: Seq<char>,
    n: int,
    span: Span,
    st: StateView,
) -> StateView
{
    let message = before + after + crate::text::decimal(n);
    crate::scope::report_spec(st, span, message)
}

/// Reports a wrong number of arguments.
pub fn report_count(before: &str, after: &str, n: usize, span: Span, st: State) -> (r: State)
    ensures
        r@ == report_count_spec(before@, after@, n as int, span, st@),
        crate::state::follows(st@, r@),
        crate::state::balanced(st@, r@),
        crate::state::same_facts(st@, r@),
{
    let message = cat3(before, after, &usize_text(n));
    report(st, span, message)
}

/// What [`vec_of_i64`] computes.
pub open spec fn vec_of_i64_spec() -> TypeView
{
    crate::prove::vec_of_spec(TypeView::I64)
}

pub fn vec_of_i64() -> (r: Type)
    ensures
        r@ == vec_of_i64_spec(),
{
    vec_of(Type::I64)
}

/// What [`atomic_element_of`] computes.
pub open spec fn atomic_element_of_spec(t: TypeView) -> Option<TypeView>
{
    match t {
        TypeView::Ref(inner) | TypeView::RefMut(inner) => match *inner {
            TypeView::Atomic(element) => Some((*element)),
            _ => None,
        },
        _ => None,
    }
}

/// The element type of the atomic cell that a type refers to.
pub fn atomic_element_of(t: &Type) -> (r: Option<Type>)
    ensures
        (match &r { Some(v0) => Some(v0@), None => None }) == atomic_element_of_spec(t@),
{
    proof {
        reveal_with_fuel(crate::ast::type_view, 4);
    }
    match t {
        Type::Ref(inner) | Type::RefMut(inner) => match &**inner {
            Type::Atomic(element) => Some((**element).dup()),
            _ => None,
        },
        _ => None,
    }
}

/// What [`channel_element_of`] computes.
pub open spec fn channel_element_of_spec(t: TypeView) -> Option<TypeView>
{
    match t {
        TypeView::Ref(inner) | TypeView::RefMut(inner) => match *inner {
            TypeView::Channel(element, _) => Some((*element)),
            _ => None,
        },
        _ => None,
    }
}

/// The element type of the channel that a type refers to.
pub fn channel_element_of(t: &Type) -> (r: Option<Type>)
    ensures
        (match &r { Some(v0) => Some(v0@), None => None }) == channel_element_of_spec(t@),
{
    proof {
        reveal_with_fuel(crate::ast::type_view, 4);
    }
    match t {
        Type::Ref(inner) | Type::RefMut(inner) => match &**inner {
            Type::Channel(element, _) => Some((**element).dup()),
            _ => None,
        },
        _ => None,
    }
}

/// What [`is_mutex_ref`] computes.
pub open spec fn is_mutex_ref_spec(t: TypeView) -> bool
{
    match t {
        TypeView::Ref(inner) | TypeView::RefMut(inner) => match *inner {
            TypeView::Mutex(element) => crate::types::is_i64_spec(*element),
            _ => false,
        },
        _ => false,
    }
}

pub fn is_mutex_ref(t: &Type) -> (r: bool)
    ensures
        r == is_mutex_ref_spec(t@),
{
    proof {
        reveal_with_fuel(crate::ast::type_view, 4);
    }
    match t {
        Type::Ref(inner) | Type::RefMut(inner) => match &**inner {
            Type::Mutex(element) => is_i64(&**element),
            _ => false,
        },
        _ => false,
    }
}

/// What [`is_guard_ref`] computes.
pub open spec fn is_guard_ref_spec(t: TypeView) -> bool
{
    match t {
        TypeView::Ref(inner) | TypeView::RefMut(inner) => match *inner {
            TypeView::Guard(element) => crate::types::is_i64_spec(*element),
            _ => false,
        },
        _ => false,
    }
}

pub fn is_guard_ref(t: &Type) -> (r: bool)
    ensures
        r == is_guard_ref_spec(t@),
{
    proof {
        reveal_with_fuel(crate::ast::type_view, 4);
    }
    match t {
        Type::Ref(inner) | Type::RefMut(inner) => match &**inner {
            Type::Guard(element) => is_i64(&**element),
            _ => false,
        },
        _ => false,
    }
}

/// What [`atomic_cell_element`] computes.
pub open spec fn atomic_cell_element_spec(
    name: Seq<char>,
    c: CheckedExprView,
    at: Span,
    st: StateView,
) -> (TypeView, StateView)
{
    match atomic_element_of_spec(c.expr.ty) {
        Some(t) => (t, st),
        None => {
            let message = "'"@ + name + "' requires a reference to Atomic<T>, got "@
                + crate::ast::type_text_spec(c.expr.ty);
            (TypeView::I64, crate::scope::report_spec(st, at, message))
        },
    }
}

/// The element type of the atomic cell that an argument refers to.
pub fn atomic_cell_element(name: &str, c: &CheckedExpr, at: Span, st: State) -> (r: (Type, State))
    ensures
        (r.0@, r.1@) == atomic_cell_element_spec(name@, c@, at, st@),
        crate::state::follows(st@, r.1@),
        crate::state::balanced(st@, r.1@),
        crate::state::same_facts(st@, r.1@),
{
    match atomic_element_of(&c.expr.ty) {
        Some(t) => (t, st),
        None => {
            let message = cat4(
                "'",
                name,
                "' requires a reference to Atomic<T>, got ",
                &type_text(&c.expr.ty),
            );
            (Type::I64, report(st, at, message))
        },
    }
}

/// What [`channel_ref_element`] computes.
pub open spec fn channel_ref_element_spec(
    name: Seq<char>,
    c: CheckedExprView,
    at: Span,
    st: StateView,
) -> (TypeView, StateView)
{
    match channel_element_of_spec(c.expr.ty) {
        Some(t) => (t, st),
        None => {
            let message = "'"@ + name + "' requires a reference to Channel<T, N>, got "@
                + crate::ast::type_text_spec(c.expr.ty);
            (TypeView::I64, crate::scope::report_spec(st, at, message))
        },
    }
}

/// The element type of the channel that an argument refers to.
pub fn channel_ref_element(name: &str, c: &CheckedExpr, at: Span, st: State) -> (r: (Type, State))
    ensures
        (r.0@, r.1@) == channel_ref_element_spec(name@, c@, at, st@),
        crate::state::follows(st@, r.1@),
        crate::state::balanced(st@, r.1@),
        crate::state::same_facts(st@, r.1@),
{
    match channel_element_of(&c.expr.ty) {
        Some(t) => (t, st),
        None => {
            let message = cat4(
                "'",
                name,
                "' requires a reference to Channel<T, N>, got ",
                &type_text(&c.expr.ty),
            );
            (Type::I64, report(st, at, message))
        },
    }
}

/// What [`require_guard_ref`] computes.
pub open spec fn require_guard_ref_spec(
    name: Seq<char>,
    c: CheckedExprView,
    at: Span,
    st: StateView,
) -> StateView
{
    if is_guard_ref_spec(c.expr.ty) {
        st
    } else {
        let message = "'"@ + name + "' requires a reference to Guard<i64>, got "@
            + crate::ast::type_text_spec(c.expr.ty);
        crate::scope::report_spec(st, at, message)
    }
}

/// Reports an argument that is no reference to a guard.
pub fn require_guard_ref(name: &str, c: &CheckedExpr, at: Span, st: State) -> (r: State)
    ensures
        r@ == require_guard_ref_spec(name@, c@, at, st@),
        crate::state::follows(st@, r@),
        crate::state::balanced(st@, r@),
        crate::state::same_facts(st@, r@),
{
    if is_guard_ref(&c.expr.ty) {
        st
    } else {
        let message = cat4(
            "'",
            name,
            "' requires a reference to Guard<i64>, got ",
            &type_text(&c.expr.ty),
        );
        report(st, at, message)
    }
}

/// What [`any_guard_of`] computes.
pub open spec fn any_guard_of_spec(bs: Seq<(Seq<char>, VarInfoView)>, target: Seq<char>) -> bool
{
    exists|i: int|
        #![trigger bs[i]]
        0 <= i < bs.len() && bs[i].1.moved.is_none() && (match bs[i].1.guarded_mutex {
            Some(m) => m == target,
            None => false,
        })
}

/// Whether a binding is a guard that holds the mutex.
pub fn any_guard_of(bs: &Vec<(String, VarInfo)>, target: &str) -> (r: bool)
    ensures
        r == any_guard_of_spec(crate::state::scope_view(bs@), target@),
{
    let ghost all = crate::state::scope_view(bs@);
    let mut i: usize = 0;
    while i < bs.len()
        invariant
            i <= bs.len(),
            all == crate::state::scope_view(bs@),
            forall|j: int|
                #![trigger all[j]]
                0 <= j < i ==> !(all[j].1.moved.is_none() && (match all[j].1.guarded_mutex {
                    Some(m) => m == target@,
                    None => false,
                })),
        decreases bs.len() - i,
    {
        let b = &bs[i];
        assert(all[i as int] == (b.0@, b.1@));
        if b.1.moved.is_none() && (match &b.1.guarded_mutex {
            Some(m) => str_eq(m, target),
            None => false,
        }) {
            return true;
        }
        i += 1;
    }
    false
}

/// What [`mutex_held`] computes.
pub open spec fn mutex_held_spec(env: EnvView, target: Seq<char>) -> bool
{
    any_guard_of_spec(crate::scope::all_bindings_spec(env), target)
}

/// Whether a live guard holds the mutex.
pub fn mutex_held(env: &Env, target: &str) -> (r: bool)
    ensures
        r == mutex_held_spec(env@, target@),
{
    any_guard_of(&all_bindings(env), target)
}

/// What [`lock_mutex`] computes.
pub open spec fn lock_mutex_spec(
    c: CheckedExprView,
    arg: ExprView,
    span: Span,
    st: StateView,
) -> (CheckedExprView, StateView)
{
    let st = if is_mutex_ref_spec(c.expr.ty) {
        st
    } else {
        let message = "'mutex_lock' requires a reference to Mutex<i64>, got "@
            + crate::ast::type_text_spec(c.expr.ty);
        crate::scope::report_spec(st, arg.span, message)
    };
    let st = match crate::signatures::extract_locked_mutex_name_spec(arg) {
        Some(target) => if mutex_held_spec(st.env, target) {
            let message = "double acquisition: mutex '"@ + target
                + "' is already locked by a live Guard in this scope; let the existing guard drop before re-locking"@;
            crate::scope::report_spec(st, span, message)
        } else {
            st
        },
        None => st,
    };
    (
        builtin_call_spec(
            "mutex_lock"@,
            one_expr_spec(c.expr),
            crate::operators::guard_of_spec(TypeView::I64),
            span,
        ),
        st,
    )
}

/// `mutex_lock` on its checked argument.
pub fn lock_mutex(c: CheckedExpr, arg: &Expr, span: Span, st: State) -> (r: (CheckedExpr, State))
    ensures
        (r.0@, r.1@) == lock_mutex_spec(c@, arg@, span, st@),
        crate::state::follows(st@, r.1@),
        crate::state::balanced(st@, r.1@),
        crate::state::same_facts(st@, r.1@),
        forall|d: Declared|
            #![trigger crate::typing::fits(c@, d)]
            #![trigger crate::typing::fits(r.0@, d)]
            crate::typing::fits(c@, d) && crate::typing::beside(d, st@.env)
                && crate::typing::quiet(st@, r.1@)
                ==> crate::typing::fits(r.0@, d),
{
    proof {
        reveal(crate::typing::well_typed);
    }
    let st = if is_mutex_ref(&c.expr.ty) {
        st
    } else {
        let message = cat2(
            "'mutex_lock' requires a reference to Mutex<i64>, got ",
            &type_text(&c.expr.ty),
        );
        report(st, arg.span, message)
    };
    let st = match extract_locked_mutex_name(arg) {
        Some(target) => if mutex_held(&st.env, &target) {
            let message = cat3(
                "double acquisition: mutex '",
                &target,
                "' is already locked by a live Guard in this scope; let the existing guard drop before re-locking",
            );
            report(st, span, message)
        } else {
            st
        },
        None => st,
    };
    (builtin_call("mutex_lock", one_expr(c.expr), guard_of(Type::I64), span), st)
}

/// What [`new_atomic`] computes.
pub open spec fn new_atomic_spec(
    c: CheckedExprView,
    at: Span,
    span: Span,
    st: StateView,
) -> (CheckedExprView, StateView)
{
    let element = c.expr.ty;
    if crate::numeric::is_supported_atomic_element_spec(element) {
        let (initial, st) = crate::numeric::coerce_checked_spec(
            c,
            element,
            at,
            "atomic_new initial value"@,
            st,
        );
        (
            builtin_call_spec(
                "atomic_new"@,
                one_expr_spec(initial.expr),
                crate::operators::atomic_of_spec(element),
                span,
            ),
            st,
        )
    } else {
        let message = "'atomic_new' element type must be an integer width or bool, got "@
            + crate::ast::type_text_spec(element);
        (
            crate::scope::fallback_spec(crate::operators::atomic_of_spec(TypeView::I64), span),
            crate::scope::report_spec(st, at, message),
        )
    }
}

/// `atomic_new` on its checked argument.
pub fn new_atomic(c: CheckedExpr, at: Span, span: Span, st: State) -> (r: (CheckedExpr, State))
    ensures
        (r.0@, r.1@) == new_atomic_spec(c@, at, span, st@),
        crate::state::follows(st@, r.1@),
        crate::state::balanced(st@, r.1@),
        crate::state::same_facts(st@, r.1@),
        forall|d: Declared|
            #![trigger crate::typing::fits(c@, d)]
            #![trigger crate::typing::fits(r.0@, d)]
            crate::typing::fits(c@, d) && crate::typing::beside(d, st@.env)
                && crate::typing::quiet(st@, r.1@)
                ==> crate::typing::fits(r.0@, d),
{
    proof {
        reveal(crate::typing::well_typed);
    }
    let element = c.expr.ty.dup();
    if is_supported_atomic_element(&element) {
        let (initial, st) = coerce_checked(c, &element, at, "atomic_new initial value", st);
        (builtin_call("atomic_new", one_expr(initial.expr), atomic_of(element), span), st)
    } else {
        let message = cat2(
            "'atomic_new' element type must be an integer width or bool, got ",
            &type_text(&element),
        );
        (fallback(atomic_of(Type::I64), span), report(st, at, message))
    }
}

/// What [`smaller_or_larger`] computes.
pub open spec fn smaller_or_larger_spec(
    name: Seq<char>,
    a: CheckedExprView,
    b: CheckedExprView,
    span: Span,
    st: StateView,
) -> (CheckedExprView, StateView)
{
    match crate::numeric::promoted_numeric_type_spec(a, b, st) {
        (None, st) => (crate::scope::fallback_integer_spec(span), st),
        (Some(t), st) => {
            let (a, st) = crate::numeric::coerce_numeric_operand_spec(a, t, st);
            let (b, st) = crate::numeric::coerce_numeric_operand_spec(b, t, st);
            (builtin_call_spec(name, crate::operators::two_exprs_spec(a.expr, b.expr), t, span), st)
        },
    }
}

/// `min` and `max` on their checked arguments.
pub fn smaller_or_larger(
    name: &str,
    a: CheckedExpr,
    b: CheckedExpr,
    span: Span,
    st: State,
) -> (r: (CheckedExpr, State))
    ensures
        (r.0@, r.1@) == smaller_or_larger_spec(name@, a@, b@, span, st@),
        crate::state::follows(st@, r.1@),
        crate::state::balanced(st@, r.1@),
        crate::state::same_facts(st@, r.1@),
        forall|d: Declared|
            #![trigger crate::typing::fits(a@, d)]
            #![trigger crate::typing::fits(r.0@, d)]
            (name@ == "min"@ || name@ == "max"@) && crate::typing::fits(a@, d)
                && crate::typing::fits(b@, d) && crate::typing::beside(d, st@.env)
                && crate::typing::quiet(st@, r.1@)
                ==> crate::typing::fits(r.0@, d),
{
    proof {
        reveal(crate::typing::well_typed);
    }
    match promoted_numeric_type(&a, &b, st) {
        (None, st) => (fallback_integer(span), st),
        (Some(t), st) => {
            let (a, st) = coerce_numeric_operand(a, &t, st);
            let (b, st) = coerce_numeric_operand(b, &t, st);
            (builtin_call(name, two_exprs(a.expr, b.expr), t, span), st)
        },
    }
}

/// What [`push_target`] computes.
pub open spec fn push_target_spec(t: TypeView) -> Option<(TypeView, bool)>
{
    match t {
        TypeView::Vec(element) => Some(((*element), false)),
        TypeView::RefMut(inner) => match *inner {
            TypeView::Vec(element) => Some(((*element), true)),
            _ => None,
        },
        _ => None,
    }
}

/// The element type that `push` takes, and whether it works in place.
pub fn push_target(t: &Type) -> (r: Option<(Type, bool)>)
    ensures
        (match &r { Some(v0) => Some((v0.0@, v0.1)), None => None }) == push_target_spec(t@),
{
    proof {
        reveal_with_fuel(crate::ast::type_view, 4);
    }
    match t {
        Type::Vec(element) => Some(((**element).dup(), false)),
        Type::RefMut(inner) => match &**inner {
            Type::Vec(element) => Some(((**element).dup(), true)),
            _ => None,
        },
        _ => None,
    }
}

/// What [`vec_element`] computes.
pub open spec fn vec_element_spec(t: TypeView) -> Option<TypeView>
{
    match t {
        TypeView::Vec(element) => Some((*element)),
        _ => None,
    }
}

pub fn vec_element(t: &Type) -> (r: Option<Type>)
    ensures
        (match &r { Some(v0) => Some(v0@), None => None }) == vec_element_spec(t@),
{
    match t {
        Type::Vec(element) => Some((**element).dup()),
        _ => None,
    }
}

/// What [`finish_push`] computes.
pub open spec fn finish_push_spec(
    xs: CheckedExprView,
    value: CheckedExprView,
    element: TypeView,
    in_place: bool,
    args: Seq<ExprView>,
    span: Span,
    cx: ContextView,
    st: StateView,
) -> (CheckedExprView, StateView)
{
    let (value, st) = crate::numeric::coerce_checked_spec(
        value,
        element,
        arg_span_spec(args, 1),
        "push value"@,
        st,
    );
    if in_place {
        let (new, st) = take_arg_spec(args, 1, value.expr, cx, st);
        (
            builtin_call_spec(
                "push_mut"@,
                crate::operators::two_exprs_spec(xs.expr, new),
                TypeView::I64,
                span,
            ),
            st,
        )
    } else {
        let st = diagnose_arg_spec(args, 0, xs, cx, st);
        let (old, st) = take_arg_spec(args, 0, xs.expr, cx, st);
        let (new, st) = take_arg_spec(args, 1, value.expr, cx, st);
        (
            builtin_call_spec(
                "push"@,
                crate::operators::two_exprs_spec(old, new),
                crate::prove::vec_of_spec(element),
                span,
            ),
            st,
        )
    }
}

/// `push` on its checked arguments.
pub fn finish_push(
    xs: CheckedExpr,
    value: CheckedExpr,
    element: Type,
    in_place: bool,
    args: &Vec<Expr>,
    span: Span,
    cx: &Context,
    st: State,
) -> (r: (CheckedExpr, State))
    ensures
        (r.0@, r.1@) == finish_push_spec(
            xs@,
            value@,
            element@,
            in_place,
            crate::ast::exprs_view(args@),
            span,
            cx@,
            st@,
        ),
        crate::state::follows(st@, r.1@),
        crate::state::balanced(st@, r.1@),
        crate::state::same_facts(st@, r.1@),
        push_target_spec(xs@.expr.ty) == Some((element@, in_place))
            && crate::typing::fits(xs@, crate::typing::declared_in(cx@, st@.env))
            && crate::typing::fits(value@, crate::typing::declared_in(cx@, st@.env))
            && st@.env.scopes.len() > 0
            && crate::typing::quiet(st@, r.1@)
            ==> crate::typing::fits(r.0@, crate::typing::declared_in(cx@, st@.env)),
{
    proof {
        reveal(crate::typing::well_typed);
    }
    let (value, st) = coerce_checked(value, &element, arg_span(args, 1), "push value", st);
    if in_place {
        let (new, st) = take_arg(args, 1, value.expr, cx, st);
        (builtin_call("push_mut", two_exprs(xs.expr, new), Type::I64, span), st)
    } else {
        let st = diagnose_arg(args, 0, &xs, cx, st);
        let (old, st) = take_arg(args, 0, xs.expr, cx, st);
        let (new, st) = take_arg(args, 1, value.expr, cx, st);
        (builtin_call("push", two_exprs(old, new), vec_of(element), span), st)
    }
}

/// What [`require_index`] computes.
pub open spec fn require_index_spec(
    what: Seq<char>,
    c: CheckedExprView,
    at: Span,
    st: StateView,
) -> StateView
{
    if crate::types::is_integer_spec(c.expr.ty) {
        st
    } else {
        let message = what + " index must be an integer, got "@
            + crate::ast::type_text_spec(c.expr.ty);
        crate::scope::report_spec(st, at, message)
    }
}

/// Reports an index that is no integer.
pub fn require_index(what: &str, c: &CheckedExpr, at: Span, st: State) -> (r: State)
    ensures
        r@ == require_index_spec(what@, c@, at, st@),
        crate::state::follows(st@, r@),
        crate::state::balanced(st@, r@),
        crate::state::same_facts(st@, r@),
{
    if is_integer(&c.expr.ty) {
        st
    } else {
        let message = cat3(what, " index must be an integer, got ", &type_text(&c.expr.ty));
        report(st, at, message)
    }
}

/// What [`finish_set`] computes.
pub open spec fn finish_set_spec(
    xs: CheckedExprView,
    index: CheckedExprView,
    value: CheckedExprView,
    element: TypeView,
    args: Seq<ExprView>,
    span: Span,
    cx: ContextView,
    st: StateView,
) -> (CheckedExprView, StateView)
{
    let (value, st) = crate::numeric::coerce_checked_spec(
        value,
        element,
        arg_span_spec(args, 2),
        "set value"@,
        st,
    );
    let st = diagnose_arg_spec(args, 0, xs, cx, st);
    let (old, st) = take_arg_spec(args, 0, xs.expr, cx, st);
    let (new, st) = take_arg_spec(args, 2, value.expr, cx, st);
    (
        builtin_call_spec(
            "set"@,
            three_exprs_spec(old, index.expr, new),
            crate::prove::vec_of_spec(element),
            span,
        ),
        st,
    )
}

/// `set` on its checked arguments.
pub fn finish_set(
    xs: CheckedExpr,
    index: CheckedExpr,
    value: CheckedExpr,
    element: Type,
    args: &Vec<Expr>,
    span: Span,
    cx: &Context,
    st: State,
) -> (r: (CheckedExpr, State))
    ensures
        (r.0@, r.1@) == finish_set_spec(
            xs@,
            index@,
            value@,
            element@,
            crate::ast::exprs_view(args@),
            span,
            cx@,
            st@,
        ),
        crate::state::follows(st@, r.1@),
        crate::state::balanced(st@, r.1@),
        crate::state::same_facts(st@, r.1@),
        vec_element_spec(xs@.expr.ty) == Some(element@)
            && crate::types::is_integer_spec(index@.expr.ty)
            && crate::typing::fits(xs@, crate::typing::declared_in(cx@, st@.env))
            && crate::typing::fits(index@, crate::typing::declared_in(cx@, st@.env))
            && crate::typing::fits(value@, crate::typing::declared_in(cx@, st@.env))
            && st@.env.scopes.len() > 0
            && crate::typing::quiet(st@, r.1@)
            ==> crate::typing::fits(r.0@, crate::typing::declared_in(cx@, st@.env)),
{
    proof {
        reveal(crate::typing::well_typed);
    }
    let (value, st) = coerce_checked(value, &element, arg_span(args, 2), "set value", st);
    let st = diagnose_arg(args, 0, &xs, cx, st);
    let (old, st) = take_arg(args, 0, xs.expr, cx, st);
    let (new, st) = take_arg(args, 2, value.expr, cx, st);
    (builtin_call("set", three_exprs(old, index.expr, new), vec_of(element), span), st)
}

/// What [`coerce_vec_elements`] computes from position `i` on.
pub open spec fn coerce_vec_elements_spec(
    cs: Seq<CheckedExprView>,
    element: TypeView,
    args: Seq<ExprView>,
    cx: ContextView,
    out: Seq<TypedExprView>,
    st: StateView,
    i: int,
) -> (Seq<TypedExprView>, StateView)
    decreases cs.len() - i,
{
    if 0 <= i < cs.len() {
        let c = cs[i];
        let (out, st) = {
            let what = "vec element "@ + crate::text::decimal(i);
            let (coerced, st) = crate::numeric::coerce_checked_spec(
                c,
                element,
                c.expr.span,
                what,
                st,
            );
            let (taken, st) = take_arg_spec(args, i, coerced.expr, cx, st);
            (out.push(taken), st)
        };
        coerce_vec_elements_spec(cs, element, args, cx, out, st, i + 1)
    } else {
        (out, st)
    }
}

/// Adds the elements of a `vec`, each taken over.
pub fn coerce_vec_elements(
    cs: &Vec<CheckedExpr>,
    element: &Type,
    args: &Vec<Expr>,
    cx: &Context,
    out: Vec<TypedExpr>,
    st: State,
) -> (r: (Vec<TypedExpr>, State))
    ensures
        (crate::ir::typed_exprs_view(r.0@), r.1@) == coerce_vec_elements_spec(
            crate::state::checked_exprs_view(cs@),
            element@,
            crate::ast::exprs_view(args@),
            cx@,
            crate::ir::typed_exprs_view(out@),
            st@,
            0,
        ),
        crate::ir::typed_exprs_view(r.0@).len() == out@.len() + cs@.len(),
        forall|j: int| out@.len() <= j < crate::ir::typed_exprs_view(r.0@).len() ==> (#[trigger] crate::ir::typed_exprs_view(r.0@)[j]).ty == element@,
        crate::state::follows(st@, r.1@),
        crate::state::balanced(st@, r.1@),
        crate::state::same_facts(st@, r.1@),
        crate::typing::all_fit(
            crate::state::checked_exprs_view(cs@),
            crate::typing::declared_in(cx@, st@.env),
        )
            && crate::typing::all_typed(
                crate::ir::typed_exprs_view(out@),
                crate::typing::declared_in(cx@, st@.env),
            )
            && st@.env.scopes.len() > 0
            && crate::typing::quiet(st@, r.1@)
            ==> crate::typing::all_typed(
                crate::ir::typed_exprs_view(r.0@),
                crate::typing::declared_in(cx@, st@.env),
            ),
{
    let ghost whole_run = coerce_vec_elements_spec(
        crate::state::checked_exprs_view(cs@),
        element@,
        crate::ast::exprs_view(args@),
        cx@,
        crate::ir::typed_exprs_view(out@),
        st@,
        0,
    );
    let ghost start_st = st@;
    let ghost start_out = crate::ir::typed_exprs_view(out@);
    proof {
        reveal(crate::typing::well_typed);
    }
    let mut out = out;
    let mut st = st;
    let mut i: usize = 0;
    while i < cs.len()
        invariant
            i <= cs.len(),
            coerce_vec_elements_spec(
                crate::state::checked_exprs_view(cs@),
                element@,
                crate::ast::exprs_view(args@),
                cx@,
                crate::ir::typed_exprs_view(out@),
                st@,
                i as int,
            ) == whole_run,
            crate::state::follows(start_st, st@),
            crate::state::balanced(start_st, st@),
            crate::state::same_facts(start_st, st@),
            crate::ir::typed_exprs_view(out@).len() == start_out.len() + i,
            forall|j: int| start_out.len() <= j < crate::ir::typed_exprs_view(out@).len() ==> (#[trigger] crate::ir::typed_exprs_view(out@)[j]).ty == element@,
            crate::typing::all_fit(
                crate::state::checked_exprs_view(cs@),
                crate::typing::declared_in(cx@, start_st.env),
            )
                && crate::typing::all_typed(
                    start_out,
                    crate::typing::declared_in(cx@, start_st.env),
                )
                && start_st.env.scopes.len() > 0
                && crate::typing::quiet(start_st, st@)
                ==> crate::typing::all_typed(
                    crate::ir::typed_exprs_view(out@),
                    crate::typing::declared_in(cx@, start_st.env),
                ),
        decreases cs.len() - i,
    {
        let c = &cs[i];
        let next = {
            let what = cat2("vec element ", &usize_text(i));
            let (coerced, st) = coerce_checked(c.dup(), element, c.expr.span, &what, st);
            let (taken, st) = take_arg(args, i, coerced.expr, cx, st);
            (push(out, taken), st)
        };
        out = next.0;
        st = next.1;
        i += 1;
    }
    (out, st)
}

/// What [`finish_vec`] computes.
pub open spec fn finish_vec_spec(
    cs: Seq<CheckedExprView>,
    args: Seq<ExprView>,
    span: Span,
    cx: ContextView,
    st: StateView,
) -> (CheckedExprView, StateView)
{
    if cs.len() > 0 {
        let element = cs[0].expr.ty;
        let st = if crate::types::is_any_ref_spec(element) {
            let message = "Vec element type cannot be a reference, got "@
                + crate::ast::type_text_spec(element);
            crate::scope::report_spec(st, span, message)
        } else {
            st
        };
        let (out, st) = coerce_vec_elements_spec(cs, element, args, cx, Seq::empty(), st, 0);
        (builtin_call_spec("vec"@, out, crate::prove::vec_of_spec(element), span), st)
    } else {
        let message = "vec() needs either at least one element or a type annotation (e.g. `let xs: Vec<i64> = vec();`) so the element type can be inferred"@;
        (
            crate::scope::fallback_spec(vec_of_i64_spec(), span),
            crate::scope::report_spec(st, span, message),
        )
    }
}

/// `vec` on its checked arguments.
pub fn finish_vec(
    cs: &Vec<CheckedExpr>,
    args: &Vec<Expr>,
    span: Span,
    cx: &Context,
    st: State,
) -> (r: (CheckedExpr, State))
    ensures
        (r.0@, r.1@) == finish_vec_spec(
            crate::state::checked_exprs_view(cs@),
            crate::ast::exprs_view(args@),
            span,
            cx@,
            st@,
        ),
        crate::state::follows(st@, r.1@),
        crate::state::balanced(st@, r.1@),
        crate::state::same_facts(st@, r.1@),
        crate::typing::all_fit(
            crate::state::checked_exprs_view(cs@),
            crate::typing::declared_in(cx@, st@.env),
        )
            && st@.env.scopes.len() > 0
            && crate::typing::quiet(st@, r.1@)
            ==> crate::typing::fits(r.0@, crate::typing::declared_in(cx@, st@.env)),
{
    proof {
        reveal(crate::typing::well_typed);
    }
    if cs.len() > 0 {
        let element = cs[0].expr.ty.dup();
        let st = if is_any_ref(&element) {
            let message = cat2(
                "Vec element type cannot be a reference, got ",
                &type_text(&element),
            );
            report(st, span, message)
        } else {
            st
        };
        let (out, st) = coerce_vec_elements(cs, &element, args, cx, Vec::new(), st);
        (builtin_call("vec", out, vec_of(element), span), st)
    } else {
        let message = text(
            "vec() needs either at least one element or a type annotation (e.g. `let xs: Vec<i64> = vec();`) so the element type can be inferred",
        );
        (fallback(vec_of_i64(), span), report(st, span, message))
    }
}

/// What [`try_elaborate_empty_vec`] computes.
pub open spec fn try_elaborate_empty_vec_spec(
    e: ExprView,
    expected: TypeView,
    st: StateView,
) -> (Option<CheckedExprView>, StateView)
{
    match e.kind {
        ExprKindView::Call { name, args, .. } => if name == "vec"@ && args.len() == 0 {
            match vec_element_spec(expected) {
                None => (None, st),
                Some(element) => {
                    let st = if crate::types::is_any_ref_spec(element) {
                        let message = "Vec element type cannot be a reference, got "@
                            + crate::ast::type_text_spec(element);
                        crate::scope::report_spec(st, e.span, message)
                    } else {
                        st
                    };
                    (
                        Some(
                            builtin_call_spec(
                                "vec"@,
                                no_exprs_spec(),
                                crate::prove::vec_of_spec(element),
                                e.span,
                            ),
                        ),
                        st,
                    )
                },
            }
        } else {
            (None, st)
        },
        _ => (None, st),
    }
}

/// `vec()` without arguments where the context names its type.
pub fn try_elaborate_empty_vec(
    e: &Expr,
    expected: &Type,
    st: State,
) -> (r: (Option<CheckedExpr>, State))
    ensures
        (
            (match &r.0 { Some(v0) => Some(v0@), None => None }),
            r.1@,
        ) == try_elaborate_empty_vec_spec(e@, expected@, st@),
        crate::state::follows(st@, r.1@),
        crate::state::balanced(st@, r.1@),
        crate::state::same_facts(st@, r.1@),
{
    proof {
        reveal_with_fuel(crate::ast::expr_view, 4);
        reveal_with_fuel(crate::ast::expr_kind_view, 4);
        reveal_with_fuel(crate::ast::stmt_view, 3);
        reveal_with_fuel(crate::ast::exprs_view, 3);
        reveal_with_fuel(crate::ast::stmts_view, 3);
        reveal_with_fuel(crate::ast::arms_view, 3);
        reveal_with_fuel(crate::ast::match_arm_view, 3);
    }
    match &e.kind {
        ExprKind::Call { name, args, .. } => if str_eq(name, "vec") && args.len() == 0 {
            match vec_element(expected) {
                None => (None, st),
                Some(element) => {
                    let st = if is_any_ref(&element) {
                        let message = cat2(
                            "Vec element type cannot be a reference, got ",
                            &type_text(&element),
                        );
                        report(st, e.span, message)
                    } else {
                        st
                    };
                    (Some(builtin_call("vec", no_exprs(), vec_of(element), e.span)), st)
                },
            }
        } else {
            (None, st)
        },
        _ => (None, st),
    }
}

/// What [`coerce_array_elements`] computes from position `i` on.
pub open spec fn coerce_array_elements_spec(
    cs: Seq<CheckedExprView>,
    element: TypeView,
    out: Seq<TypedExprView>,
    st: StateView,
    i: int,
) -> (Seq<TypedExprView>, StateView)
    decreases cs.len() - i,
{
    if 0 <= i < cs.len() {
        let c = cs[i];
        let (out, st) = {
            let what = "array element "@ + crate::text::decimal(i);
            let (coerced, st) = crate::numeric::coerce_checked_spec(
                c,
                element,
                c.expr.span,
                what,
                st,
            );
            (out.push(coerced.expr), st)
        };
        coerce_array_elements_spec(cs, element, out, st, i + 1)
    } else {
        (out, st)
    }
}

/// Adds the elements of an array literal, each converted.
pub fn coerce_array_elements(
    cs: &Vec<CheckedExpr>,
    element: &Type,
    out: Vec<TypedExpr>,
    st: State,
) -> (r: (Vec<TypedExpr>, State))
    ensures
        (crate::ir::typed_exprs_view(r.0@), r.1@) == coerce_array_elements_spec(
            crate::state::checked_exprs_view(cs@),
            element@,
            crate::ir::typed_exprs_view(out@),
            st@,
            0,
        ),
        crate::ir::typed_exprs_view(r.0@).len() == out@.len() + cs@.len(),
        forall|j: int| out@.len() <= j < crate::ir::typed_exprs_view(r.0@).len() ==> (#[trigger] crate::ir::typed_exprs_view(r.0@)[j]).ty == element@,
        crate::state::follows(st@, r.1@),
        crate::state::balanced(st@, r.1@),
        crate::state::same_facts(st@, r.1@),
        forall|d: Declared|
            #![trigger crate::typing::all_fit(crate::state::checked_exprs_view(cs@), d)]
            #![trigger crate::typing::all_typed(crate::ir::typed_exprs_view(r.0@), d)]
            crate::typing::all_fit(crate::state::checked_exprs_view(cs@), d)
                && crate::typing::all_typed(crate::ir::typed_exprs_view(out@), d)
                && crate::typing::beside(d, st@.env) && crate::typing::quiet(st@, r.1@)
                ==> crate::typing::all_typed(crate::ir::typed_exprs_view(r.0@), d),
{
    let ghost whole_run = coerce_array_elements_spec(
        crate::state::checked_exprs_view(cs@),
        element@,
        crate::ir::typed_exprs_view(out@),
        st@,
        0,
    );
    let ghost start_st = st@;
    let ghost start_out = crate::ir::typed_exprs_view(out@);
    proof {
        reveal(crate::typing::well_typed);
    }
    let mut out = out;
    let mut st = st;
    let mut i: usize = 0;
    while i < cs.len()
        invariant
            i <= cs.len(),
            coerce_array_elements_spec(
                crate::state::checked_exprs_view(cs@),
                element@,
                crate::ir::typed_exprs_view(out@),
                st@,
                i as int,
            ) == whole_run,
            crate::state::follows(start_st, st@),
            crate::state::balanced(start_st, st@),
            crate::state::same_facts(start_st, st@),
            crate::ir::typed_exprs_view(out@).len() == start_out.len() + i,
            forall|j: int| start_out.len() <= j < crate::ir::typed_exprs_view(out@).len() ==> (#[trigger] crate::ir::typed_exprs_view(out@)[j]).ty == element@,
            forall|d: Declared|
                #![trigger crate::typing::all_fit(crate::state::checked_exprs_view(cs@), d)]
                #![trigger crate::typing::all_typed(crate::ir::typed_exprs_view(out@), d)]
                crate::typing::all_fit(crate::state::checked_exprs_view(cs@), d)
                    && crate::typing::all_typed(start_out, d)
                    && crate::typing::beside(d, start_st.env) && crate::typing::quiet(start_st, st@)
                    ==> crate::typing::all_typed(crate::ir::typed_exprs_view(out@), d),
        decreases cs.len() - i,
    {
        let c = &cs[i];
        let next = {
            let what = cat2("array element ", &usize_text(i));
            let (coerced, st) = coerce_checked(c.dup(), element, c.expr.span, &what, st);
            (push(out, coerced.expr), st)
        };
        out = next.0;
        st = next.1;
        i += 1;
    }
    (out, st)
}

/// What [`check_array_literal`] computes.
pub open spec fn check_array_literal_spec(
    cs: Seq<CheckedExprView>,
    span: Span,
    cx: ContextView,
    st: StateView,
) -> (CheckedExprView, StateView)
{
    if cs.len() > 0 {
        let element = cs[0].expr.ty;
        let st = if crate::scope::copies_spec(element, cx) {
            st
        } else {
            crate::scope::report_spec(
                st,
                span,
                "array element type must be Copy, got "@ + crate::ast::type_text_spec(element),
            )
        };
        let length: u64 = cs.len() as u64;
        let (elements, st) = coerce_array_elements_spec(cs, element, Seq::empty(), st, 0);
        (
            crate::scope::checked_spec(
                TypedExprKindView::ArrayLit { elements },
                crate::operators::array_of_spec(element, length),
                None,
                span,
            ),
            st,
        )
    } else {
        let message = "empty array literals are not supported; explicit element type is required"@;
        (crate::scope::fallback_integer_spec(span), crate::scope::report_spec(st, span, message))
    }
}

/// An array literal on its checked elements.
pub fn check_array_literal(
    cs: &Vec<CheckedExpr>,
    span: Span,
    cx: &Context,
    st: State,
) -> (r: (CheckedExpr, State))
    ensures
        (r.0@, r.1@) == check_array_literal_spec(
            crate::state::checked_exprs_view(cs@),
            span,
            cx@,
            st@,
        ),
        crate::state::follows(st@, r.1@),
        crate::state::balanced(st@, r.1@),
        crate::state::same_facts(st@, r.1@),
        crate::typing::all_fit(
            crate::state::checked_exprs_view(cs@),
            crate::typing::declared_in(cx@, st@.env),
        )
            && st@.env.scopes.len() > 0
            && crate::typing::quiet(st@, r.1@)
            ==> crate::typing::fits(r.0@, crate::typing::declared_in(cx@, st@.env)),
{
    proof {
        reveal(crate::typing::well_typed);
    }
    if cs.len() > 0 {
        let element = cs[0].expr.ty.dup();
        let st = if copies(&element, cx) {
            st
        } else {
            report(st, span, cat2("array element type must be Copy, got ", &type_text(&element)))
        };
        let length: u64 = cs.len() as u64;
        let (elements, st) = coerce_array_elements(cs, &element, Vec::new(), st);
        (checked(TypedExprKind::ArrayLit { elements }, array_of(element, length), None, span), st)
    } else {
        let message = text(
            "empty array literals are not supported; explicit element type is required",
        );
        (fallback_integer(span), report(st, span, message))
    }
}

/// What [`indexable`] computes.
pub open spec fn indexable_spec(t: TypeView) -> Option<(TypeView, Option<u64>)>
{
    match t {
        TypeView::Array { element, length } => Some(((*element), Some(length))),
        TypeView::Vec(element) => Some(((*element), None)),
        _ => None,
    }
}

/// The element type and, for an array, the length of an indexable type.
pub fn indexable(t: &Type) -> (r: Option<(Type, Option<u64>)>)
    ensures
        (match &r { Some(v0) => Some((v0.0@, v0.1)), None => None }) == indexable_spec(t@),
{
    match t {
        Type::Array { element, length } => Some(((**element).dup(), Some(*length))),
        Type::Vec(element) => Some(((**element).dup(), None)),
        _ => None,
    }
}

/// What [`index_error`] computes.
pub open spec fn index_error_spec(value: i128, length: u64) -> Option<Seq<char>>
{
    if value < 0 {
        Some(
            "array index "@ + crate::text::decimal(value as int) + " is negative; length is "@
                + crate::text::decimal((length as i128) as int),
        )
    } else if value >= length as i128 {
        Some(
            "array index "@ + crate::text::decimal(value as int) + " is out of range for length "@
                + crate::text::decimal((length as i128) as int),
        )
    } else {
        None
    }
}

/// Why a known index does not lie in an array.
pub fn index_error(value: i128, length: u64) -> (r: Option<String>)
    ensures
        (match &r { Some(v0) => Some(v0@), None => None }) == index_error_spec(value, length),
{
    if value < 0 {
        Some(
            cat4(
                "array index ",
                &int_text(value),
                " is negative; length is ",
                &int_text(length as i128),
            ),
        )
    } else if value >= length as i128 {
        Some(
            cat4(
                "array index ",
                &int_text(value),
                " is out of range for length ",
                &int_text(length as i128),
            ),
        )
    } else {
        None
    }
}

/// What [`index_expr`] computes.
pub open spec fn index_expr_spec(
    array: TypedExprView,
    index: TypedExprView,
    runtime_check: bool,
    t: TypeView,
    span: Span,
) -> CheckedExprView
{
    let kind = TypedExprKindView::Index {
        array: Box::new(array),
        index: Box::new(index),
        checked: runtime_check,
    };
    crate::scope::checked_spec(kind, t, None, span)
}

pub fn index_expr(
    array: TypedExpr,
    index: TypedExpr,
    runtime_check: bool,
    t: Type,
    span: Span,
) -> (r: CheckedExpr)
    ensures
        r@ == index_expr_spec(array@, index@, runtime_check, t@, span),
{
    let kind = TypedExprKind::Index {
        array: Box::new(array),
        index: Box::new(index),
        checked: runtime_check,
    };
    checked(kind, t, None, span)
}

/// What [`check_index`] computes.
pub open spec fn check_index_spec(
    array: CheckedExprView,
    index: CheckedExprView,
    array_span: Span,
    index_span: Span,
    span: Span,
    cx: ContextView,
    st: StateView,
) -> (CheckedExprView, StateView)
{
    let resolved = crate::types::deref_spec(array.expr.ty);
    match indexable_spec(resolved) {
        None => {
            let message = "cannot index into non-array type "@
                + crate::ast::type_text_spec(resolved);
            (
                crate::scope::fallback_integer_spec(span),
                crate::scope::report_spec(st, array_span, message),
            )
        },
        Some((element, length)) => if !crate::scope::copies_spec(
            element,
            cx,
        ) && !crate::types::is_any_ref_spec(element) {
            let message = "cannot index a Vec/array whose element type ("@
                + crate::ast::type_text_spec(element)
                + ") is non-Copy by value; the element would alias the owner's slot and double-free. Use `clone_at(&xs, i)` to bind an owned deep-clone of the slot."@;
            (
                crate::scope::fallback_spec(element, span),
                crate::scope::report_spec(st, span, message),
            )
        } else if !crate::types::is_integer_spec(index.expr.ty) {
            let message = "array index must be an integer, got "@
                + crate::ast::type_text_spec(index.expr.ty);
            (
                crate::scope::fallback_spec(element, span),
                crate::scope::report_spec(st, index_span, message),
            )
        } else {
            match (length, crate::operators::int_constant_spec(index.expr.constant)) {
                (Some(length), Some(value)) => match index_error_spec(value, length) {
                    Some(message) => (
                        crate::scope::fallback_spec(element, span),
                        crate::scope::report_spec(st, index_span, message),
                    ),
                    None => (index_expr_spec(array.expr, index.expr, false, element, span), st),
                },
                _ => (index_expr_spec(array.expr, index.expr, true, element, span), st),
            }
        },
    }
}

/// An index expression on its checked operands.
pub fn check_index(
    array: CheckedExpr,
    index: CheckedExpr,
    array_span: Span,
    index_span: Span,
    span: Span,
    cx: &Context,
    st: State,
) -> (r: (CheckedExpr, State))
    ensures
        (r.0@, r.1@) == check_index_spec(array@, index@, array_span, index_span, span, cx@, st@),
        crate::state::follows(st@, r.1@),
        crate::state::balanced(st@, r.1@),
        crate::state::same_facts(st@, r.1@),
        crate::typing::fits(array@, crate::typing::declared_in(cx@, st@.env))
            && crate::typing::fits(index@, crate::typing::declared_in(cx@, st@.env))
            && st@.env.scopes.len() > 0
            && crate::typing::quiet(st@, r.1@)
            ==> crate::typing::fits(r.0@, crate::typing::declared_in(cx@, st@.env)),
{
    proof {
        reveal(crate::typing::well_typed);
    }
    let resolved = deref(&array.expr.ty);
    match indexable(&resolved) {
        None => {
            let message = cat2("cannot index into non-array type ", &type_text(&resolved));
            (fallback_integer(span), report(st, array_span, message))
        },
        Some((element, length)) => if !copies(&element, cx) && !is_any_ref(&element) {
            let message = cat3(
                "cannot index a Vec/array whose element type (",
                &type_text(&element),
                ") is non-Copy by value; the element would alias the owner's slot and double-free. Use `clone_at(&xs, i)` to bind an owned deep-clone of the slot.",
            );
            (fallback(element, span), report(st, span, message))
        } else if !is_integer(&index.expr.ty) {
            let message = cat2("array index must be an integer, got ", &type_text(&index.expr.ty));
            (fallback(element, span), report(st, index_span, message))
        } else {
            match (length, int_constant(&index.expr.constant)) {
                (Some(length), Some(value)) => match index_error(value, length) {
                    Some(message) => (fallback(element, span), report(st, index_span, message)),
                    None => (index_expr(array.expr, index.expr, false, element, span), st),
                },
                _ => (index_expr(array.expr, index.expr, true, element, span), st),
            }
        },
    }
}

/// What [`len_expr`] computes.
pub open spec fn len_expr_spec(
    array: TypedExprView,
    length: u64,
    constant: Option<TypedConstView>,
    span: Span,
) -> CheckedExprView
{
    crate::scope::checked_spec(
        TypedExprKindView::Len { array: Box::new(array), length },
        TypeView::U64,
        constant,
        span,
    )
}

pub fn len_expr(
    array: TypedExpr,
    length: u64,
    constant: Option<TypedConst>,
    span: Span,
) -> (r: CheckedExpr)
    ensures
        r@ == len_expr_spec(
            array@,
            length,
            (match &constant { Some(v0) => Some(v0@), None => None }),
            span,
        ),
{
    checked(TypedExprKind::Len { array: Box::new(array), length }, Type::U64, constant, span)
}

/// What [`check_len`] computes.
pub open spec fn check_len_spec(
    array: CheckedExprView,
    array_span: Span,
    span: Span,
    st: StateView,
) -> (CheckedExprView, StateView)
{
    let resolved = crate::types::deref_spec(array.expr.ty);
    match resolved {
        TypeView::Array { length, .. } => (
            len_expr_spec(array.expr, length, Some(TypedConstView::Int(length as i128)), span),
            st,
        ),
        TypeView::Vec(_) | TypeView::Str | TypeView::OwnedStr => (
            len_expr_spec(array.expr, 0, None, span),
            st,
        ),
        _ => {
            let message = "len() requires an array, Vec, or Str argument, got "@
                + crate::ast::type_text_spec(resolved);
            (
                crate::scope::fallback_spec(TypeView::U64, span),
                crate::scope::report_spec(st, array_span, message),
            )
        },
    }
}

/// `len` on its checked operand.
pub fn check_len(
    array: CheckedExpr,
    array_span: Span,
    span: Span,
    st: State,
) -> (r: (CheckedExpr, State))
    ensures
        (r.0@, r.1@) == check_len_spec(array@, array_span, span, st@),
        crate::state::follows(st@, r.1@),
        crate::state::balanced(st@, r.1@),
        crate::state::same_facts(st@, r.1@),
        forall|d: Declared|
            #![trigger crate::typing::fits(array@, d)]
            #![trigger crate::typing::fits(r.0@, d)]
            crate::typing::fits(array@, d) && crate::typing::beside(d, st@.env)
                && crate::typing::quiet(st@, r.1@)
                ==> crate::typing::fits(r.0@, d),
{
    proof {
        reveal(crate::typing::well_typed);
    }
    let resolved = deref(&array.expr.ty);
    match &resolved {
        Type::Array { length, .. } => (
            len_expr(array.expr, *length, Some(TypedConst::Int(*length as i128)), span),
            st,
        ),
        Type::Vec(_) | Type::Str | Type::OwnedStr => (len_expr(array.expr, 0, None, span), st),
        _ => {
            let message = cat2(
                "len() requires an array, Vec, or Str argument, got ",
                &type_text(&resolved),
            );
            (fallback(Type::U64, span), report(st, array_span, message))
        },
    }
}

/// What [`var_kind`] computes.
pub open spec fn var_kind_spec(name: Seq<char>, info: VarInfoView) -> TypedExprKindView
{
    if info.is_const {
        match info.constant {
            Some(TypedConstView::Int(v)) => TypedExprKindView::Int(v),
            Some(TypedConstView::Float(v)) => TypedExprKindView::Float(v),
            Some(TypedConstView::Bool(v)) => TypedExprKindView::Bool(v),
            None => TypedExprKindView::Var(name),
        }
    } else {
        TypedExprKindView::Var(name)
    }
}

/// A variable, or the value of a constant.
pub fn var_kind(name: &str, info: &VarInfo) -> (r: TypedExprKind)
    ensures
        r@ == var_kind_spec(name@, info@),
{
    if info.is_const {
        match &info.constant {
            Some(TypedConst::Int(v)) => TypedExprKind::Int(*v),
            Some(TypedConst::Float(v)) => TypedExprKind::Float(v.dup()),
            Some(TypedConst::Bool(v)) => TypedExprKind::Bool(*v),
            None => TypedExprKind::Var(text(name)),
        }
    } else {
        TypedExprKind::Var(text(name))
    }
}

/// What [`check_var`] computes.
pub open spec fn check_var_spec(
    name: Seq<char>,
    span: Span,
    cx: ContextView,
    st: StateView,
) -> (CheckedExprView, StateView)
{
    match crate::scope::lookup_spec(st.env, name) {
        Some(info) => {
            let st = match info.moved {
                Some(at) => crate::scope::report_note_spec(
                    st,
                    span,
                    "value '"@ + name + "' was moved; cannot use after move"@,
                    at,
                    "'"@ + name + "' was moved here"@,
                ),
                None => st,
            };
            let kind = var_kind_spec(name, info);
            let at = info.decl_span;
            (
                crate::scope::with_decl_spec(
                    crate::scope::checked_spec(kind, info.ty, info.constant, span),
                    at,
                ),
                st,
            )
        },
        None => match crate::scope::signature_get_spec(cx.signatures, name) {
            Some(sig) => {
                let kind = TypedExprKindView::FnRef { name: name, name_span: span };
                (
                    crate::scope::checked_spec(
                        kind,
                        crate::operators::fn_ptr_of_spec(sig.params, sig.return_type),
                        None,
                        span,
                    ),
                    st,
                )
            },
            None => (
                crate::scope::fallback_integer_spec(span),
                crate::scope::report_spec(st, span, "unknown variable '"@ + name + "'"@),
            ),
        },
    }
}

/// A name used as a value: a binding or a function.
pub fn check_var(name: &str, span: Span, cx: &Context, st: State) -> (r: (CheckedExpr, State))
    ensures
        (r.0@, r.1@) == check_var_spec(name@, span, cx@, st@),
        crate::state::follows(st@, r.1@),
        crate::state::balanced(st@, r.1@),
        crate::state::same_facts(st@, r.1@),
        st@.env.scopes.len() > 0
            && crate::typing::quiet(st@, r.1@)
            ==> crate::typing::fits(r.0@, crate::typing::declared_in(cx@, st@.env)),
{
    proof {
        reveal(crate::typing::well_typed);
    }
    match lookup(&st.env, name) {
        Some(info) => {
            let st = match info.moved {
                Some(at) => report_note(
                    st,
                    span,
                    cat3("value '", name, "' was moved; cannot use after move"),
                    at,
                    cat3("'", name, "' was moved here"),
                ),
                None => st,
            };
            let kind = var_kind(name, &info);
            let at = info.decl_span;
            (with_decl(checked(kind, info.ty, info.constant, span), at), st)
        },
        None => match signature_get(&cx.signatures, name) {
            Some(sig) => {
                let kind = TypedExprKind::FnRef { name: text(name), name_span: span };
                (checked(kind, fn_ptr_of(sig.params, sig.return_type), None, span), st)
            },
            None => (
                fallback_integer(span),
                report(st, span, cat3("unknown variable '", name, "'")),
            ),
        },
    }
}

/// What [`check_int`] computes.
pub open spec fn check_int_spec(v: i128, span: Span, st: StateView) -> (CheckedExprView, StateView)
{
    let st = if crate::numeric::value_fits_type_spec(v, TypeView::U64) {
        st
    } else {
        crate::scope::report_spec(
            st,
            span,
            "integer literal '"@ + crate::text::decimal(v as int) + "' does not fit in u64"@,
        )
    };
    let t = if v <= 0x7fff_ffff_ffff_ffff { TypeView::I64 } else { TypeView::U64 };
    let c = crate::scope::checked_spec(
        TypedExprKindView::Int(v),
        t,
        Some(TypedConstView::Int(v)),
        span,
    );
    (CheckedExprView { flexible_integer: true, ..c }, st)
}

/// An integer literal.
pub fn check_int(v: i128, span: Span, st: State) -> (r: (CheckedExpr, State))
    ensures
        (r.0@, r.1@) == check_int_spec(v, span, st@),
        crate::state::follows(st@, r.1@),
        crate::state::balanced(st@, r.1@),
        crate::state::same_facts(st@, r.1@),
        forall|d: Declared|
            #![trigger crate::typing::fits(r.0@, d)]
            crate::typing::beside(d, st@.env) && crate::typing::quiet(st@, r.1@)
                ==> crate::typing::fits(r.0@, d),
{
    proof {
        reveal(crate::typing::well_typed);
    }
    let st = if value_fits_type(v, &Type::U64) {
        st
    } else {
        report(st, span, cat3("integer literal '", &int_text(v), "' does not fit in u64"))
    };
    let t = if v <= 0x7fff_ffff_ffff_ffff { Type::I64 } else { Type::U64 };
    let c = checked(TypedExprKind::Int(v), t, Some(TypedConst::Int(v)), span);
    (CheckedExpr { flexible_integer: true, ..c }, st)
}

/// What [`check_float`] computes.
pub open spec fn check_float_spec(v: FloatLitView, span: Span) -> CheckedExprView
{
    let c = crate::scope::checked_spec(
        TypedExprKindView::Float(v),
        TypeView::F64,
        Some(TypedConstView::Float(v)),
        span,
    );
    CheckedExprView { flexible_float: true, ..c }
}

pub fn check_float(v: &FloatLit, span: Span) -> (r: CheckedExpr)
    ensures
        r@ == check_float_spec(v@, span),
{
    let c = checked(
        TypedExprKind::Float(v.dup()),
        Type::F64,
        Some(TypedConst::Float(v.dup())),
        span,
    );
    CheckedExpr { flexible_float: true, ..c }
}

/// What [`report_owning_elements`] computes from position `i` on.
pub open spec fn report_owning_elements_spec(
    cs: Seq<CheckedExprView>,
    es: Seq<ExprView>,
    cx: ContextView,
    st: StateView,
    i: int,
) -> StateView
    decreases cs.len() - i,
{
    if 0 <= i < cs.len() {
        let c = cs[i];
        let st = if crate::scope::copies_spec(c.expr.ty, cx) {
            st
        } else {
            let message = "tuple element "@ + crate::text::decimal(i) + " has non-Copy type "@
                + crate::ast::type_text_spec(c.expr.ty) + " — v1 tuples are Copy-only"@;
            crate::scope::report_spec(st, arg_span_spec(es, i), message)
        };
        report_owning_elements_spec(cs, es, cx, st, i + 1)
    } else {
        st
    }
}

/// Reports the elements of a tuple that own something.
pub fn report_owning_elements(
    cs: &Vec<CheckedExpr>,
    es: &Vec<Expr>,
    cx: &Context,
    st: State,
) -> (r: State)
    ensures
        r@ == report_owning_elements_spec(
            crate::state::checked_exprs_view(cs@),
            crate::ast::exprs_view(es@),
            cx@,
            st@,
            0,
        ),
        crate::state::follows(st@, r@),
        crate::state::balanced(st@, r@),
        crate::state::same_facts(st@, r@),
{
    let ghost whole_run = report_owning_elements_spec(
        crate::state::checked_exprs_view(cs@),
        crate::ast::exprs_view(es@),
        cx@,
        st@,
        0,
    );
    let ghost start_st = st@;
    let mut st = st;
    let mut i: usize = 0;
    while i < cs.len()
        invariant
            i <= cs.len(),
            report_owning_elements_spec(
                crate::state::checked_exprs_view(cs@),
                crate::ast::exprs_view(es@),
                cx@,
                st@,
                i as int,
            ) == whole_run,
            crate::state::follows(start_st, st@),
            crate::state::balanced(start_st, st@),
            crate::state::same_facts(start_st, st@),
        decreases cs.len() - i,
    {
        let c = &cs[i];
        st = if copies(&c.expr.ty, cx) {
            st
        } else {
            let message = cat5(
                "tuple element ",
                &usize_text(i),
                " has non-Copy type ",
                &type_text(&c.expr.ty),
                " — v1 tuples are Copy-only",
            );
            report(st, arg_span(es, i), message)
        };
        i += 1;
    }
    st
}

/// What [`types_of`] computes.
pub open spec fn types_of_spec(cs: Seq<CheckedExprView>) -> Seq<TypeView>
{
    cs.map_values(|c: CheckedExprView| c.expr.ty)
}

pub fn types_of(cs: &Vec<CheckedExpr>) -> (r: Vec<Type>)
    ensures
        crate::ast::types_view(r@) == types_of_spec(crate::state::checked_exprs_view(cs@)),
{
    let ghost whole = types_of_spec(crate::state::checked_exprs_view(cs@));
    let ghost all = crate::state::checked_exprs_view(cs@);
    let mut r: Vec<Type> = Vec::new();
    let mut i: usize = 0;
    while i < cs.len()
        invariant
            i <= cs.len(),
            all == crate::state::checked_exprs_view(cs@),
            whole == types_of_spec(crate::state::checked_exprs_view(cs@)),
            crate::ast::types_view(r@) == whole.take(i as int),
        decreases cs.len() - i,
    {
        let c = &cs[i];
        assert(all[i as int] == c@);
        r.push(c.expr.ty.dup());
        assert(whole.take(i + 1) =~= whole.take(i as int).push(whole[i as int]));
        i += 1;
    }
    assert(whole.take(i as int) =~= whole);
    r
}

/// What [`typed_of`] computes.
pub open spec fn typed_of_spec(cs: Seq<CheckedExprView>) -> Seq<TypedExprView>
{
    cs.map_values(|c: CheckedExprView| c.expr)
}

pub fn typed_of(cs: &Vec<CheckedExpr>) -> (r: Vec<TypedExpr>)
    ensures
        crate::ir::typed_exprs_view(r@) == typed_of_spec(crate::state::checked_exprs_view(cs@)),
{
    let ghost whole = typed_of_spec(crate::state::checked_exprs_view(cs@));
    let ghost all = crate::state::checked_exprs_view(cs@);
    let mut r: Vec<TypedExpr> = Vec::new();
    let mut i: usize = 0;
    while i < cs.len()
        invariant
            i <= cs.len(),
            all == crate::state::checked_exprs_view(cs@),
            whole == typed_of_spec(crate::state::checked_exprs_view(cs@)),
            crate::ir::typed_exprs_view(r@) == whole.take(i as int),
        decreases cs.len() - i,
    {
        let c = &cs[i];
        assert(all[i as int] == c@);
        r.push(c.expr.dup());
        assert(whole.take(i + 1) =~= whole.take(i as int).push(whole[i as int]));
        i += 1;
    }
    assert(whole.take(i as int) =~= whole);
    r
}

/// What [`finish_tuple`] computes.
pub open spec fn finish_tuple_spec(
    cs: Seq<CheckedExprView>,
    es: Seq<ExprView>,
    span: Span,
    cx: ContextView,
    st: StateView,
) -> (CheckedExprView, StateView)
{
    let st = report_owning_elements_spec(cs, es, cx, st, 0);
    let kind = TypedExprKindView::Tuple { elements: typed_of_spec(cs) };
    (crate::scope::checked_spec(kind, TypeView::Tuple(types_of_spec(cs)), None, span), st)
}

/// A tuple on its checked elements.
pub fn finish_tuple(
    cs: &Vec<CheckedExpr>,
    es: &Vec<Expr>,
    span: Span,
    cx: &Context,
    st: State,
) -> (r: (CheckedExpr, State))
    ensures
        (r.0@, r.1@) == finish_tuple_spec(
            crate::state::checked_exprs_view(cs@),
            crate::ast::exprs_view(es@),
            span,
            cx@,
            st@,
        ),
        crate::state::follows(st@, r.1@),
        crate::state::balanced(st@, r.1@),
        crate::state::same_facts(st@, r.1@),
        crate::typing::all_fit(
            crate::state::checked_exprs_view(cs@),
            crate::typing::declared_in(cx@, st@.env),
        )
            && st@.env.scopes.len() > 0
            && crate::typing::quiet(st@, r.1@)
            ==> crate::typing::fits(r.0@, crate::typing::declared_in(cx@, st@.env)),
{
    proof {
        reveal(crate::typing::well_typed);
    }
    let st = report_owning_elements(cs, es, cx, st);
    let kind = TypedExprKind::Tuple { elements: typed_of(cs) };
    (checked(kind, Type::Tuple(types_of(cs)), None, span), st)
}

/// What [`tuple_elements`] computes.
pub open spec fn tuple_elements_spec(t: TypeView) -> Option<Seq<TypeView>>
{
    match t {
        TypeView::Tuple(elements) => Some((elements)),
        _ => None,
    }
}

pub fn tuple_elements(t: &Type) -> (r: Option<Vec<Type>>)
    ensures
        (match &r { Some(v0) => Some(crate::ast::types_view(v0@)), None => None }) == tuple_elements_spec(t@),
{
    match t {
        Type::Tuple(elements) => Some(dup_types(elements)),
        _ => None,
    }
}

/// What [`finish_tuple_access`] computes.
pub open spec fn finish_tuple_access_spec(
    c: CheckedExprView,
    index: u32,
    tuple_span: Span,
    span: Span,
    st: StateView,
) -> (CheckedExprView, StateView)
{
    match tuple_elements_spec(c.expr.ty) {
        Some(elements) => if (index as int) < elements.len() {
            let t = elements[index as int];
            (
                crate::scope::checked_spec(
                    TypedExprKindView::TupleAccess { tuple: Box::new(c.expr), index },
                    t,
                    None,
                    span,
                ),
                st,
            )
        } else {
            let message = "tuple index "@ + crate::text::decimal((index as i128) as int)
                + " out of bounds for tuple of arity "@
                + crate::text::decimal((elements.len() as int));
            (
                crate::scope::fallback_integer_spec(span),
                crate::scope::report_spec(st, span, message),
            )
        },
        None => {
            let message = "tuple access on non-tuple type "@
                + crate::ast::type_text_spec(c.expr.ty);
            (
                crate::scope::fallback_integer_spec(span),
                crate::scope::report_spec(st, tuple_span, message),
            )
        },
    }
}

/// A tuple's element on its checked operand.
pub fn finish_tuple_access(
    c: CheckedExpr,
    index: u32,
    tuple_span: Span,
    span: Span,
    st: State,
) -> (r: (CheckedExpr, State))
    ensures
        (r.0@, r.1@) == finish_tuple_access_spec(c@, index, tuple_span, span, st@),
        crate::state::follows(st@, r.1@),
        crate::state::balanced(st@, r.1@),
        crate::state::same_facts(st@, r.1@),
        forall|d: Declared|
            #![trigger crate::typing::fits(c@, d)]
            #![trigger crate::typing::fits(r.0@, d)]
            crate::typing::fits(c@, d) && crate::typing::beside(d, st@.env)
                && crate::typing::quiet(st@, r.1@)
                ==> crate::typing::fits(r.0@, d),
{
    proof {
        reveal(crate::typing::well_typed);
    }
    match tuple_elements(&c.expr.ty) {
        Some(elements) => if (index as usize) < elements.len() {
            let t = elements[index as usize].dup();
            (
                checked(
                    TypedExprKind::TupleAccess { tuple: Box::new(c.expr), index },
                    t,
                    None,
                    span,
                ),
                st,
            )
        } else {
            let message = cat4(
                "tuple index ",
                &int_text(index as i128),
                " out of bounds for tuple of arity ",
                &usize_text(elements.len()),
            );
            (fallback_integer(span), report(st, span, message))
        },
        None => {
            let message = cat2("tuple access on non-tuple type ", &type_text(&c.expr.ty));
            (fallback_integer(span), report(st, tuple_span, message))
        },
    }
}

/// What [`literal_field`] computes from position `i` on.
pub open spec fn literal_field_spec(
    fs: Seq<(Seq<char>, ExprView)>,
    name: Seq<char>,
    found: Option<int>,
    i: int,
) -> Option<int>
    decreases fs.len() - i,
{
    if 0 <= i < fs.len() && !found.is_some() {
        let f = fs[i];
        let found = if f.0 == name { Some(i) } else { found };
        literal_field_spec(fs, name, found, i + 1)
    } else {
        found
    }
}

/// Where a field stands in a literal.
pub fn literal_field(
    fs: &Vec<(String, Expr)>,
    name: &str,
    found: Option<usize>,
) -> (r: Option<usize>)
    ensures
        (match &r { Some(v0) => Some(*v0 as int), None => None }) == literal_field_spec(
            crate::ast::named_exprs_view(fs@),
            name@,
            (match &found { Some(v0) => Some(*v0 as int), None => None }),
            0,
        ),
{
    let ghost whole_run = literal_field_spec(
        crate::ast::named_exprs_view(fs@),
        name@,
        (match &found { Some(v0) => Some(*v0 as int), None => None }),
        0,
    );
    let mut found = found;
    let mut i: usize = 0;
    while i < fs.len() && !found.is_some()
        invariant
            i <= fs.len(),
            literal_field_spec(
                crate::ast::named_exprs_view(fs@),
                name@,
                (match &found { Some(v0) => Some(*v0 as int), None => None }),
                i as int,
            ) == whole_run,
        decreases fs.len() - i,
    {
        let f = &fs[i];
        found = if str_eq(&f.0, name) { Some(i) } else { found };
        i += 1;
    }
    found
}

/// What [`undeclared_field`] computes from position `i` on.
pub open spec fn undeclared_field_spec(
    fs: Seq<(Seq<char>, ExprView)>,
    declared: Seq<(Seq<char>, TypeView)>,
    found: Option<Seq<char>>,
    i: int,
) -> Option<Seq<char>>
    decreases fs.len() - i,
{
    if 0 <= i < fs.len() && !found.is_some() {
        let f = fs[i];
        let found = if crate::moves::has_leaf_spec(declared, f.0) { found } else { Some(f.0) };
        undeclared_field_spec(fs, declared, found, i + 1)
    } else {
        found
    }
}

/// The first field of a literal that the struct does not declare.
pub fn undeclared_field(
    fs: &Vec<(String, Expr)>,
    declared: &Vec<(String, Type)>,
    found: Option<String>,
) -> (r: Option<String>)
    ensures
        (match &r { Some(v0) => Some(v0@), None => None }) == undeclared_field_spec(
            crate::ast::named_exprs_view(fs@),
            crate::ir::named_types_view(declared@),
            (match &found { Some(v0) => Some(v0@), None => None }),
            0,
        ),
{
    let ghost whole_run = undeclared_field_spec(
        crate::ast::named_exprs_view(fs@),
        crate::ir::named_types_view(declared@),
        (match &found { Some(v0) => Some(v0@), None => None }),
        0,
    );
    let mut found = found;
    let mut i: usize = 0;
    while i < fs.len() && !found.is_some()
        invariant
            i <= fs.len(),
            undeclared_field_spec(
                crate::ast::named_exprs_view(fs@),
                crate::ir::named_types_view(declared@),
                (match &found { Some(v0) => Some(v0@), None => None }),
                i as int,
            ) == whole_run,
        decreases fs.len() - i,
    {
        let f = &fs[i];
        found = if has_leaf(declared, &f.0) { found } else { Some(f.0.clone()) };
        i += 1;
    }
    found
}

/// What [`missing_field`] computes.
pub open spec fn missing_field_spec(struct_name: Seq<char>, field: Seq<char>) -> Seq<char>
{
    "struct '"@ + struct_name + "' literal missing field '"@ + field + "'"@
}

pub fn missing_field(struct_name: &str, field: &str) -> (r: String)
    ensures
        r@ == missing_field_spec(struct_name@, field@),
{
    cat5("struct '", struct_name, "' literal missing field '", field, "'")
}

/// What [`no_such_field`] computes.
pub open spec fn no_such_field_spec(struct_name: Seq<char>, field: Seq<char>) -> Seq<char>
{
    "struct '"@ + struct_name + "' has no field named '"@ + field + "'"@
}

pub fn no_such_field(struct_name: &str, field: &str) -> (r: String)
    ensures
        r@ == no_such_field_spec(struct_name@, field@),
{
    cat5("struct '", struct_name, "' has no field named '", field, "'")
}

/// What [`finish_literal_field`] computes.
pub open spec fn finish_literal_field_spec(
    c: CheckedExprView,
    t: TypeView,
    name: Seq<char>,
    source: ExprView,
    cx: ContextView,
    st: StateView,
) -> (TypedExprView, StateView)
{
    let what = "struct field '"@ + name + "'"@;
    let (coerced, st) = crate::numeric::coerce_checked_spec(c, t, source.span, what, st);
    let st = crate::moves::diagnose_partial_then_whole_move_spec(source, coerced, cx, st);
    crate::moves::take_value_spec(source, coerced.expr, cx, st)
}

/// A field of a literal on its checked value.
pub fn finish_literal_field(
    c: CheckedExpr,
    t: &Type,
    name: &str,
    source: &Expr,
    cx: &Context,
    st: State,
) -> (r: (TypedExpr, State))
    ensures
        (r.0@, r.1@) == finish_literal_field_spec(c@, t@, name@, source@, cx@, st@),
        r.0@.ty == t@,
        crate::state::follows(st@, r.1@),
        crate::state::balanced(st@, r.1@),
        crate::state::same_facts(st@, r.1@),
        crate::typing::fits(c@, crate::typing::declared_in(cx@, st@.env))
            && st@.env.scopes.len() > 0
            && crate::typing::quiet(st@, r.1@)
            ==> crate::typing::well_typed(r.0@, crate::typing::declared_in(cx@, st@.env)),
{
    proof {
        reveal(crate::typing::well_typed);
    }
    let what = cat3("struct field '", name, "'");
    let (coerced, st) = coerce_checked(c, t, source.span, &what, st);
    let st = diagnose_partial_then_whole_move(source, &coerced, cx, st);
    take_value(source, coerced.expr, cx, st)
}

/// What [`enum_variant`] computes.
pub open spec fn enum_variant_spec(
    info: EnumInfoView,
    name: Seq<char>,
    variant: Seq<char>,
    span: Span,
    st: StateView,
) -> (CheckedExprView, StateView)
{
    match crate::scope::name_position_spec(info.variants, variant, None, 0) {
        Some(tag) => {
            let kind = TypedExprKindView::EnumVariant {
                enum_name: name,
                variant: variant,
                tag: tag as u32,
            };
            (crate::scope::checked_spec(kind, TypeView::Enum(name), None, span), st)
        },
        None => {
            let message = "enum '"@ + name + "' has no variant named '"@ + variant + "'"@;
            (
                crate::scope::fallback_integer_spec(span),
                crate::scope::report_spec(st, span, message),
            )
        },
    }
}

/// A variant without a payload, written `Enum.Variant`.
pub fn enum_variant(
    info: &EnumInfo,
    name: &str,
    variant: &str,
    span: Span,
    st: State,
) -> (r: (CheckedExpr, State))
    ensures
        (r.0@, r.1@) == enum_variant_spec(info@, name@, variant@, span, st@),
        crate::state::follows(st@, r.1@),
        crate::state::balanced(st@, r.1@),
        crate::state::same_facts(st@, r.1@),
        forall|d: Declared|
            #![trigger crate::typing::fits(r.0@, d)]
            crate::scope::enum_info_get_spec(st@.env.enums, name@) == Some(info@)
                && crate::typing::beside(d, st@.env) && crate::typing::quiet(st@, r.1@)
                ==> crate::typing::fits(r.0@, d),
{
    proof {
        reveal(crate::typing::well_typed);
    }
    match name_position(&info.variants, variant, None) {
        Some(tag) => {
            let kind = TypedExprKind::EnumVariant {
                enum_name: text(name),
                variant: text(variant),
                tag: tag as u32,
            };
            (checked(kind, Type::Enum(text(name)), None, span), st)
        },
        None => {
            let message = cat5("enum '", name, "' has no variant named '", variant, "'");
            (fallback_integer(span), report(st, span, message))
        },
    }
}

/// What [`report_moved_field`] computes.
pub open spec fn report_moved_field_spec(
    object: ExprView,
    field: Seq<char>,
    span: Span,
    st: StateView,
) -> StateView
{
    match var_name_spec(object) {
        Some(name) => match crate::scope::lookup_spec(st.env, name) {
            Some(info) => match crate::scope::moved_field_get_spec(info.moved_fields, field) {
                Some(at) => crate::scope::report_note_spec(
                    st,
                    span,
                    "field '"@ + name + "."@ + field + "' was moved; cannot use after move"@,
                    at,
                    "'"@ + name + "."@ + field + "' was moved here"@,
                ),
                None => st,
            },
            None => st,
        },
        None => st,
    }
}

/// Reports the use of a field that was moved out.
pub fn report_moved_field(object: &Expr, field: &str, span: Span, st: State) -> (r: State)
    ensures
        r@ == report_moved_field_spec(object@, field@, span, st@),
        crate::state::follows(st@, r@),
        crate::state::balanced(st@, r@),
        crate::state::same_facts(st@, r@),
{
    match var_name(object) {
        Some(name) => match lookup(&st.env, &name) {
            Some(info) => match moved_field_get(&info.moved_fields, field) {
                Some(at) => report_note(
                    st,
                    span,
                    cat5("field '", &name, ".", field, "' was moved; cannot use after move"),
                    at,
                    cat5("'", &name, ".", field, "' was moved here"),
                ),
                None => st,
            },
            None => st,
        },
        None => st,
    }
}

/// What [`finish_field_access`] computes.
pub open spec fn finish_field_access_spec(
    c: CheckedExprView,
    object: ExprView,
    field: Seq<char>,
    span: Span,
    st: StateView,
) -> (CheckedExprView, StateView)
{
    let underlying = crate::types::deref_spec(c.expr.ty);
    match crate::operators::struct_name_of_spec(underlying) {
        None => {
            let message = "field access on non-struct type "@
                + crate::ast::type_text_spec(underlying);
            (
                crate::scope::fallback_integer_spec(span),
                crate::scope::report_spec(st, object.span, message),
            )
        },
        Some(name) => match crate::scope::lookup_struct_spec(st.env, name) {
            None => (
                crate::scope::fallback_integer_spec(span),
                crate::scope::report_spec(
                    st,
                    object.span,
                    "struct '"@ + name + "' is not declared"@,
                ),
            ),
            Some(decl) => match crate::scope::find_field_spec(decl.fields, field, None, 0) {
                None => (
                    crate::scope::fallback_integer_spec(span),
                    crate::scope::report_spec(st, span, no_such_field_spec(name, field)),
                ),
                Some((k, t)) => {
                    let st = report_moved_field_spec(object, field, span, st);
                    let kind = TypedExprKindView::FieldAccess {
                        object: Box::new(c.expr),
                        field: field,
                        field_index: k,
                    };
                    (crate::scope::checked_spec(kind, t, None, span), st)
                },
            },
        },
    }
}

/// A field access on its checked operand.
pub fn finish_field_access(
    c: CheckedExpr,
    object: &Expr,
    field: &str,
    span: Span,
    st: State,
) -> (r: (CheckedExpr, State))
    ensures
        (r.0@, r.1@) == finish_field_access_spec(c@, object@, field@, span, st@),
        crate::state::follows(st@, r.1@),
        crate::state::balanced(st@, r.1@),
        crate::state::same_facts(st@, r.1@),
        forall|d: Declared|
            #![trigger crate::typing::fits(c@, d)]
            #![trigger crate::typing::fits(r.0@, d)]
            crate::typing::fits(c@, d) && crate::typing::beside(d, st@.env)
                && crate::typing::quiet(st@, r.1@)
                ==> crate::typing::fits(r.0@, d),
{
    proof {
        reveal(crate::typing::well_typed);
    }
    let underlying = deref(&c.expr.ty);
    match struct_name_of(&underlying) {
        None => {
            let message = cat2("field access on non-struct type ", &type_text(&underlying));
            (fallback_integer(span), report(st, object.span, message))
        },
        Some(name) => match lookup_struct(&st.env, &name) {
            None => (
                fallback_integer(span),
                report(st, object.span, cat3("struct '", &name, "' is not declared")),
            ),
            Some(decl) => match find_field(&decl.fields, field, None) {
                None => (fallback_integer(span), report(st, span, no_such_field(&name, field))),
                Some((k, t)) => {
                    let st = report_moved_field(object, field, span, st);
                    let kind = TypedExprKind::FieldAccess {
                        object: Box::new(c.expr),
                        field: text(field),
                        field_index: k,
                    };
                    (checked(kind, t, None, span), st)
                },
            },
        },
    }
}

/// What [`if_expr`] computes.
pub open spec fn if_expr_spec(
    cond: TypedExprView,
    then_value: TypedExprView,
    else_value: TypedExprView,
    t: TypeView,
    constant: Option<TypedConstView>,
    span: Span,
) -> TypedExprView
{
    let kind = TypedExprKindView::IfExpr {
        cond: Box::new(cond),
        then_value: Box::new(then_value),
        else_value: Box::new(else_value),
    };
    crate::scope::typed_spec(kind, t, constant, span)
}

pub fn if_expr(
    cond: TypedExpr,
    then_value: TypedExpr,
    else_value: TypedExpr,
    t: Type,
    constant: Option<TypedConst>,
    span: Span,
) -> (r: TypedExpr)
    ensures
        r@ == if_expr_spec(
            cond@,
            then_value@,
            else_value@,
            t@,
            (match &constant { Some(v0) => Some(v0@), None => None }),
            span,
        ),
{
    let kind = TypedExprKind::IfExpr {
        cond: Box::new(cond),
        then_value: Box::new(then_value),
        else_value: Box::new(else_value),
    };
    typed(kind, t, constant, span)
}

/// What [`finish_if`] computes.
pub open spec fn finish_if_spec(
    cond: CheckedExprView,
    a: CheckedExprView,
    b: CheckedExprView,
    span: Span,
    st: StateView,
) -> (CheckedExprView, StateView)
{
    let st = if a.expr.ty == b.expr.ty {
        st
    } else {
        let message = "if-expression branches have different types: then = "@
            + crate::ast::type_text_spec(a.expr.ty) + ", else = "@
            + crate::ast::type_text_spec(b.expr.ty);
        crate::scope::report_spec(st, span, message)
    };
    let constant = match cond.expr.constant {
        Some(TypedConstView::Bool(c)) => if c { (a.expr.constant) } else { (b.expr.constant) },
        _ => None,
    };
    let t = a.expr.ty;
    let e = if_expr_spec(cond.expr, a.expr, b.expr, t, constant, span);
    (CheckedExprView { expr: e, flexible_integer: false, flexible_float: false }, st)
}

/// An `if` expression on its checked operands.
pub fn finish_if(
    cond: CheckedExpr,
    a: CheckedExpr,
    b: CheckedExpr,
    span: Span,
    st: State,
) -> (r: (CheckedExpr, State))
    ensures
        (r.0@, r.1@) == finish_if_spec(cond@, a@, b@, span, st@),
        crate::state::follows(st@, r.1@),
        crate::state::balanced(st@, r.1@),
        crate::state::same_facts(st@, r.1@),
        forall|d: Declared|
            #![trigger crate::typing::fits(cond@, d)]
            #![trigger crate::typing::fits(r.0@, d)]
            cond@.expr.ty == TypeView::Bool && crate::typing::fits(cond@, d)
                && crate::typing::fits(a@, d) && crate::typing::fits(b@, d)
                && crate::typing::beside(d, st@.env) && crate::typing::quiet(st@, r.1@)
                ==> crate::typing::fits(r.0@, d),
{
    proof {
        reveal(crate::typing::well_typed);
    }
    let st = if type_eq(&a.expr.ty, &b.expr.ty) {
        st
    } else {
        let message = cat4(
            "if-expression branches have different types: then = ",
            &type_text(&a.expr.ty),
            ", else = ",
            &type_text(&b.expr.ty),
        );
        report(st, span, message)
    };
    let constant = match &cond.expr.constant {
        Some(TypedConst::Bool(c)) => if *c { dup_constant(&a.expr.constant) } else { dup_constant(&b.expr.constant) },
        _ => None,
    };
    let t = a.expr.ty.dup();
    let e = if_expr(cond.expr, a.expr, b.expr, t, constant, span);
    (CheckedExpr { expr: e, flexible_integer: false, flexible_float: false }, st)
}

/// What [`require_if_condition`] computes.
pub open spec fn require_if_condition_spec(
    c: CheckedExprView,
    span: Span,
    st: StateView,
) -> StateView
{
    if crate::types::is_bool_spec(c.expr.ty) {
        st
    } else {
        crate::scope::report_spec(
            st,
            span,
            "if-expression condition must be bool, got "@ + crate::ast::type_text_spec(c.expr.ty),
        )
    }
}

/// Reports a condition that is no truth value.
pub fn require_if_condition(c: &CheckedExpr, span: Span, st: State) -> (r: State)
    ensures
        r@ == require_if_condition_spec(c@, span, st@),
        crate::state::follows(st@, r@),
        crate::state::balanced(st@, r@),
        crate::state::same_facts(st@, r@),
{
    if is_bool(&c.expr.ty) {
        st
    } else {
        report(st, span, cat2("if-expression condition must be bool, got ", &type_text(&c.expr.ty)))
    }
}

/// What [`bind_let`] computes.
pub open spec fn bind_let_spec(
    name: Seq<char>,
    c: CheckedExprView,
    span: Span,
    st: StateView,
) -> StateView
{
    let info = crate::scope::fresh_var_spec(c.expr.ty, (c.expr.constant), span);
    StateView { env: crate::scope::insert_current_spec(st.env, name, info), ..st }
}

/// A binding made by `let` in a block expression.
pub fn bind_let(name: &str, c: &CheckedExpr, span: Span, st: State) -> (r: State)
    ensures
        r@ == bind_let_spec(name@, c@, span, st@),
        crate::state::follows(st@, r@),
        crate::state::balanced(st@, r@),
        crate::state::same_facts(st@, r@),
{
    let info = fresh_var(c.expr.ty.dup(), dup_constant(&c.expr.constant), span);
    State { env: insert_current(st.env, name, &info), ..st }
}

/// What [`has_int`] computes.
pub open spec fn has_int_spec(xs: Seq<i128>, v: i128) -> bool
{
    exists|i: int|
        #![trigger xs[i]]
        0 <= i < xs.len() && xs[i] == v
}

pub fn has_int(xs: &Vec<i128>, v: i128) -> (r: bool)
    ensures
        r == has_int_spec(xs@, v),
{
    let ghost all = xs@;
    let mut i: usize = 0;
    while i < xs.len()
        invariant
            i <= xs.len(),
            all == xs@,
            forall|j: int|
                #![trigger all[j]]
                0 <= j < i ==> !(all[j] == v),
        decreases xs.len() - i,
    {
        let x = &xs[i];
        assert(all[i as int] == *x);
        if *x == v {
            return true;
        }
        i += 1;
    }
    false
}

/// What [`unreachable_arm`] computes.
pub open spec fn unreachable_arm_spec() -> Seq<char>
{
    "match arm is unreachable: a wildcard `_` arm above already covers every remaining case"@
}

pub fn unreachable_arm() -> (r: String)
    ensures
        r@ == unreachable_arm_spec(),
{
    text(
        "match arm is unreachable: a wildcard `_` arm above already covers every remaining case",
    )
}

/// What [`is_int_dispatch`] computes.
pub open spec fn is_int_dispatch_spec(scrut: TypeView, decl: Option<EnumInfoView>) -> bool
{
    decl.is_none() && !crate::types::is_bool_spec(scrut)
}

/// Whether the scrutinee is dispatched on as an integer.
pub fn is_int_dispatch(scrut: &Type, decl: &Option<EnumInfo>) -> (r: bool)
    ensures
        r == is_int_dispatch_spec(scrut@, (match &decl { Some(v0) => Some(v0@), None => None })),
{
    decl.is_none() && !is_bool(scrut)
}

/// What [`enum_name_or`] computes.
pub open spec fn enum_name_or_spec(t: TypeView, otherwise: Seq<char>) -> Seq<char>
{
    match crate::operators::enum_name_of_spec(t) {
        Some(name) => name,
        None => otherwise,
    }
}

pub fn enum_name_or(t: &Type, otherwise: &str) -> (r: String)
    ensures
        r@ == enum_name_or_spec(t@, otherwise@),
{
    match enum_name_of(t) {
        Some(name) => name,
        None => text(otherwise),
    }
}

/// What [`variant_key`] computes.
pub open spec fn variant_key_spec(
    pattern_enum: Seq<char>,
    variant: Seq<char>,
    shape: Seq<char>,
    scrut: TypeView,
    decl: Option<EnumInfoView>,
    scan: ArmScanView,
) -> Result<ArmKeyView, Seq<char>>
{
    if is_int_dispatch_spec(scrut, decl) {
        Err(
            shape + " '"@ + pattern_enum + "."@ + variant
                + "' in match arm but scrutinee is of integer type "@
                + crate::ast::type_text_spec(scrut),
        )
    } else {
        let name = enum_name_or_spec(scrut, ""@);
        if !(pattern_enum == name) {
            Err(
                "match arm references enum '"@ + pattern_enum + "' but scrutinee is of enum '"@
                    + name + "'"@,
            )
        } else {
            let found = match decl {
                Some(info) => crate::scope::name_position_spec(info.variants, variant, None, 0),
                None => None,
            };
            match found {
                None => Err("enum '"@ + name + "' has no variant '"@ + variant + "'"@),
                Some(tag) => if scan.seen_variants.contains(variant) {
                    Err("match arm for '"@ + name + "."@ + variant + "' appears twice"@)
                } else {
                    Ok(ArmKeyView { tag: tag as u32, variant: variant, int_value: None })
                },
            }
        }
    }
}

/// What a variant pattern selects, or why it is refused.
pub fn variant_key(
    pattern_enum: &str,
    variant: &str,
    shape: &str,
    scrut: &Type,
    decl: &Option<EnumInfo>,
    scan: &ArmScan,
) -> (r: Result<ArmKey, String>)
    ensures
        (match &r { Ok(v0) => Ok(v0@), Err(v0) => Err(v0@) }) == variant_key_spec(
            pattern_enum@,
            variant@,
            shape@,
            scrut@,
            (match &decl { Some(v0) => Some(v0@), None => None }),
            scan@,
        ),
{
    if is_int_dispatch(scrut, decl) {
        Err(
            cat7(
                shape,
                " '",
                pattern_enum,
                ".",
                variant,
                "' in match arm but scrutinee is of integer type ",
                &type_text(scrut),
            ),
        )
    } else {
        let name = enum_name_or(scrut, "");
        if !str_eq(pattern_enum, &name) {
            Err(
                cat5(
                    "match arm references enum '",
                    pattern_enum,
                    "' but scrutinee is of enum '",
                    &name,
                    "'",
                ),
            )
        } else {
            let found = match decl {
                Some(info) => name_position(&info.variants, variant, None),
                None => None,
            };
            match found {
                None => Err(cat5("enum '", &name, "' has no variant '", variant, "'")),
                Some(tag) => if contains_str(&scan.seen_variants, variant) {
                    Err(cat5("match arm for '", &name, ".", variant, "' appears twice"))
                } else {
                    Ok(ArmKey { tag: tag as u32, variant: text(variant), int_value: None })
                },
            }
        }
    }
}

/// What [`arm_key`] computes.
pub open spec fn arm_key_spec(
    pattern: PatternView,
    scrut: TypeView,
    decl: Option<EnumInfoView>,
    scan: ArmScanView,
) -> Result<ArmKeyView, Seq<char>>
{
    match pattern {
        PatternView::Wildcard => Ok(ArmKeyView { tag: 0, variant: ""@, int_value: None }),
        PatternView::Int(v) => if !is_int_dispatch_spec(scrut, decl) {
            Err(
                "integer pattern in match arm but scrutinee is of enum type "@
                    + enum_name_or_spec(scrut, "?"@),
            )
        } else if !crate::numeric::value_fits_type_spec(v, scrut) {
            Err(
                "integer pattern '"@ + crate::text::decimal(v as int)
                    + "' does not fit in scrutinee type "@ + crate::ast::type_text_spec(scrut),
            )
        } else if has_int_spec(scan.seen_ints, v) {
            Err(
                "match arm for integer pattern '"@ + crate::text::decimal(v as int)
                    + "' appears twice"@,
            )
        } else {
            Ok(ArmKeyView { tag: 0, variant: ""@, int_value: Some(v) })
        },
        PatternView::Bool(b) => if !crate::types::is_bool_spec(scrut) {
            Err(
                "bool pattern in match arm but scrutinee is of type "@
                    + crate::ast::type_text_spec(scrut),
            )
        } else if (b && scan.seen_true) || (!b && scan.seen_false) {
            Err(
                "match arm for bool pattern '"@ + crate::numeric::bool_text_spec(b)
                    + "' appears twice"@,
            )
        } else {
            Ok(
                ArmKeyView {
                    tag: 0,
                    variant: ""@,
                    int_value: Some(if b { 1 as i128 } else { 0 as i128 }),
                },
            )
        },
        PatternView::Str(_) => Err(
            "string literal match patterns are not yet supported in v1 — use if/else chains with `==` on Str/OwnedStr"@,
        ),
        PatternView::Variant { enum_name, variant } => variant_key_spec(
            enum_name,
            variant,
            "variant pattern"@,
            scrut,
            decl,
            scan,
        ),
        PatternView::VariantWithBinding { enum_name, variant, .. } => variant_key_spec(
            enum_name,
            variant,
            "variant destructure pattern"@,
            scrut,
            decl,
            scan,
        ),
    }
}

/// What an arm's pattern selects, or why it is refused.
pub fn arm_key(
    pattern: &Pattern,
    scrut: &Type,
    decl: &Option<EnumInfo>,
    scan: &ArmScan,
) -> (r: Result<ArmKey, String>)
    ensures
        (match &r { Ok(v0) => Ok(v0@), Err(v0) => Err(v0@) }) == arm_key_spec(
            pattern@,
            scrut@,
            (match &decl { Some(v0) => Some(v0@), None => None }),
            scan@,
        ),
{
    match pattern {
        Pattern::Wildcard => Ok(ArmKey { tag: 0, variant: text(""), int_value: None }),
        Pattern::Int(v) => if !is_int_dispatch(scrut, decl) {
            Err(
                cat2(
                    "integer pattern in match arm but scrutinee is of enum type ",
                    &enum_name_or(scrut, "?"),
                ),
            )
        } else if !value_fits_type(*v, scrut) {
            Err(
                cat4(
                    "integer pattern '",
                    &int_text(*v),
                    "' does not fit in scrutinee type ",
                    &type_text(scrut),
                ),
            )
        } else if has_int(&scan.seen_ints, *v) {
            Err(cat3("match arm for integer pattern '", &int_text(*v), "' appears twice"))
        } else {
            Ok(ArmKey { tag: 0, variant: text(""), int_value: Some(*v) })
        },
        Pattern::Bool(b) => if !is_bool(scrut) {
            Err(cat2("bool pattern in match arm but scrutinee is of type ", &type_text(scrut)))
        } else if (*b && scan.seen_true) || (!*b && scan.seen_false) {
            Err(cat3("match arm for bool pattern '", &bool_text(*b), "' appears twice"))
        } else {
            Ok(
                ArmKey {
                    tag: 0,
                    variant: text(""),
                    int_value: Some(if *b { 1 as i128 } else { 0 as i128 }),
                },
            )
        },
        Pattern::Str(_) => Err(
            text(
                "string literal match patterns are not yet supported in v1 — use if/else chains with `==` on Str/OwnedStr",
            ),
        ),
        Pattern::Variant { enum_name, variant } => variant_key(
            enum_name,
            variant,
            "variant pattern",
            scrut,
            decl,
            scan,
        ),
        Pattern::VariantWithBinding { enum_name, variant, .. } => variant_key(
            enum_name,
            variant,
            "variant destructure pattern",
            scrut,
            decl,
            scan,
        ),
    }
}

/// What [`arm_binding`] computes.
pub open spec fn arm_binding_spec(
    pattern: PatternView,
    env: EnvView,
) -> Option<(Seq<char>, TypeView)>
{
    match pattern {
        PatternView::VariantWithBinding {
            enum_name,
            variant,
            binding,
        } => match crate::scope::lookup_enum_variant_payload_spec(env, enum_name, variant) {
            Some(t) => if crate::types::is_owned_str_spec(t) {
                Some((binding, TypeView::Str))
            } else {
                Some((binding, t))
            },
            None => None,
        },
        _ => None,
    }
}

/// The name that a pattern binds and the type it is seen at; an owned string
/// is seen as a borrowed one.
pub fn arm_binding(pattern: &Pattern, env: &Env) -> (r: Option<(String, Type)>)
    ensures
        (match &r { Some(v0) => Some((v0.0@, v0.1@)), None => None }) == arm_binding_spec(
            pattern@,
            env@,
        ),
{
    match pattern {
        Pattern::VariantWithBinding {
            enum_name,
            variant,
            binding,
        } => match lookup_enum_variant_payload(env, enum_name, variant) {
            Some(t) => if is_owned_str(&t) {
                Some((binding.clone(), Type::Str))
            } else {
                Some((binding.clone(), t))
            },
            None => None,
        },
        _ => None,
    }
}

/// What [`require_copy_binding`] computes.
pub open spec fn require_copy_binding_spec(
    binding: Option<(Seq<char>, TypeView)>,
    span: Span,
    cx: ContextView,
    st: StateView,
) -> StateView
{
    match binding {
        Some((_, t)) => if crate::scope::copies_spec(t, cx) {
            st
        } else {
            let message = "destructure binding for non-Copy payload type "@
                + crate::ast::type_text_spec(t)
                + " is not supported in v1 — only OwnedStr payloads admit a binding (exposed as Str view); other affine payload types need explicit borrow-view wiring"@;
            crate::scope::report_spec(st, span, message)
        },
        None => st,
    }
}

/// Reports a binding to a payload that owns something.
pub fn require_copy_binding(
    binding: &Option<(String, Type)>,
    span: Span,
    cx: &Context,
    st: State,
) -> (r: State)
    ensures
        r@ == require_copy_binding_spec(
            (match &binding { Some(v0) => Some((v0.0@, v0.1@)), None => None }),
            span,
            cx@,
            st@,
        ),
        crate::state::follows(st@, r@),
        crate::state::balanced(st@, r@),
        crate::state::same_facts(st@, r@),
{
    match binding {
        Some((_, t)) => if copies(t, cx) {
            st
        } else {
            let message = cat3(
                "destructure binding for non-Copy payload type ",
                &type_text(t),
                " is not supported in v1 — only OwnedStr payloads admit a binding (exposed as Str view); other affine payload types need explicit borrow-view wiring",
            );
            report(st, span, message)
        },
        None => st,
    }
}

/// What [`merge_arm_type`] computes.
pub open spec fn merge_arm_type_spec(
    result: Option<TypeView>,
    body: CheckedExprView,
    span: Span,
    st: StateView,
) -> (Option<TypeView>, StateView)
{
    match result {
        Some(expected) => if body.expr.ty == expected {
            (Some(expected), st)
        } else {
            let message = "match arm body has type "@ + crate::ast::type_text_spec(body.expr.ty)
                + " but earlier arm produced "@ + crate::ast::type_text_spec(expected);
            (Some(expected), crate::scope::report_spec(st, span, message))
        },
        None => (Some(body.expr.ty), st),
    }
}

/// Takes the type of an arm's body into the result.
pub fn merge_arm_type(
    result: Option<Type>,
    body: &CheckedExpr,
    span: Span,
    st: State,
) -> (r: (Option<Type>, State))
    ensures
        ((match &r.0 { Some(v0) => Some(v0@), None => None }), r.1@) == merge_arm_type_spec(
            (match &result { Some(v0) => Some(v0@), None => None }),
            body@,
            span,
            st@,
        ),
        crate::state::follows(st@, r.1@),
        crate::state::balanced(st@, r.1@),
        crate::state::same_facts(st@, r.1@),
{
    match result {
        Some(expected) => if type_eq(&body.expr.ty, &expected) {
            (Some(expected), st)
        } else {
            let message = cat4(
                "match arm body has type ",
                &type_text(&body.expr.ty),
                " but earlier arm produced ",
                &type_text(&expected),
            );
            (Some(expected), report(st, span, message))
        },
        None => (Some(body.expr.ty.dup()), st),
    }
}

/// What [`is_wildcard`] computes.
pub open spec fn is_wildcard_spec(p: PatternView) -> bool
{
    p is Wildcard
}

pub fn is_wildcard(p: &Pattern) -> (r: bool)
    ensures
        r == is_wildcard_spec(p@),
{
    match p {
        Pattern::Wildcard => true,
        _ => false,
    }
}

/// What [`mark_seen`] computes.
pub open spec fn mark_seen_spec(scan: ArmScanView, pattern: PatternView) -> ArmScanView
{
    match pattern {
        PatternView::Wildcard => ArmScanView { wildcard: true, ..scan },
        PatternView::Int(v) => ArmScanView { seen_ints: scan.seen_ints.push(v), ..scan },
        PatternView::Bool(b) => if b {
            ArmScanView { seen_true: true, ..scan }
        } else {
            ArmScanView { seen_false: true, ..scan }
        },
        PatternView::Variant { variant, .. } => ArmScanView {
            seen_variants: scan.seen_variants.push(variant),
            ..scan
        },
        PatternView::VariantWithBinding { variant, .. } => ArmScanView {
            seen_variants: scan.seen_variants.push(variant),
            ..scan
        },
        PatternView::Str(_) => scan,
    }
}

/// Records what a pattern covers.
pub fn mark_seen(scan: ArmScan, pattern: &Pattern) -> (r: ArmScan)
    ensures
        r@ == mark_seen_spec(scan@, pattern@),
{
    match pattern {
        Pattern::Wildcard => ArmScan { wildcard: true, ..scan },
        Pattern::Int(v) => ArmScan { seen_ints: push(scan.seen_ints, *v), ..scan },
        Pattern::Bool(b) => if *b {
            ArmScan { seen_true: true, ..scan }
        } else {
            ArmScan { seen_false: true, ..scan }
        },
        Pattern::Variant { variant, .. } => ArmScan {
            seen_variants: push(scan.seen_variants, variant.clone()),
            ..scan
        },
        Pattern::VariantWithBinding { variant, .. } => ArmScan {
            seen_variants: push(scan.seen_variants, variant.clone()),
            ..scan
        },
        Pattern::Str(_) => scan,
    }
}

/// What [`finish_arm`] computes.
pub open spec fn finish_arm_spec(
    scan: ArmScanView,
    arm: MatchArmView,
    key: ArmKeyView,
    binding: Option<(Seq<char>, TypeView)>,
    body: CheckedExprView,
    st: StateView,
) -> (ArmScanView, StateView)
{
    let scan = mark_seen_spec(scan, arm.pattern);
    let (result, st) = merge_arm_type_spec(scan.result, body, arm.body.span, st);
    let typed_arm = TypedMatchArmView {
        variant: key.variant,
        tag: key.tag,
        is_wildcard: is_wildcard_spec(arm.pattern),
        int_value: key.int_value,
        binding,
        body: body.expr,
    };
    (ArmScanView { result, arms: scan.arms.push(typed_arm), ..scan }, st)
}

/// An arm on its checked body.
pub fn finish_arm(
    scan: ArmScan,
    arm: &MatchArm,
    key: ArmKey,
    binding: Option<(String, Type)>,
    body: CheckedExpr,
    st: State,
) -> (r: (ArmScan, State))
    ensures
        (r.0@, r.1@) == finish_arm_spec(
            scan@,
            arm@,
            key@,
            (match &binding { Some(v0) => Some((v0.0@, v0.1@)), None => None }),
            body@,
            st@,
        ),
        crate::state::follows(st@, r.1@),
        crate::state::balanced(st@, r.1@),
        crate::state::same_facts(st@, r.1@),
        forall|d: Declared|
            #![trigger crate::typing::arms_fit(scan@, d)]
            #![trigger crate::typing::arms_fit(r.0@, d)]
            crate::typing::key_fits(arm@.pattern, key@) && crate::typing::arms_fit(scan@, d)
                && crate::typing::fits(body@, d) && crate::typing::beside(d, st@.env)
                && crate::typing::quiet(st@, r.1@)
                ==> crate::typing::arms_fit(r.0@, d),
{
    proof {
        reveal(crate::typing::well_typed);
        let bound = (match &binding { Some(v0) => Some((v0.0@, v0.1@)), None => None });
        let next = finish_arm_spec(scan@, arm@, key@, bound, body@, st@);
        assert forall|d: Declared| #[trigger] crate::typing::arms_fit(scan@, d)
            && crate::typing::key_fits(arm@.pattern, key@) && crate::typing::fits(body@, d)
            && next.1 == st@ implies crate::typing::arms_fit(next.0, d) by {
            arm_is_added(scan@, arm@, key@, bound, body@, st@, d);
        }
    }
    let scan = mark_seen(scan, &arm.pattern);
    let (result, st) = merge_arm_type(scan.result, &body, arm.body.span, st);
    let typed_arm = TypedMatchArm {
        variant: key.variant,
        tag: key.tag,
        is_wildcard: is_wildcard(&arm.pattern),
        int_value: key.int_value,
        binding,
        body: body.expr,
    };
    (ArmScan { result, arms: push(scan.arms, typed_arm), ..scan }, st)
}

/// What [`no_arms`] computes.
pub open spec fn no_arms_spec() -> ArmScanView
{
    ArmScanView {
        arms: Seq::empty(),
        seen_variants: Seq::empty(),
        seen_ints: Seq::empty(),
        seen_true: false,
        seen_false: false,
        result: None,
        wildcard: false,
    }
}

/// A match of which no arm was seen.
pub fn no_arms() -> (r: ArmScan)
    ensures
        r@ == no_arms_spec(),
{
    ArmScan {
        arms: Vec::new(),
        seen_variants: Vec::new(),
        seen_ints: Vec::new(),
        seen_true: false,
        seen_false: false,
        result: None,
        wildcard: false,
    }
}

/// What [`report_missing_variants`] computes from position `i` on.
pub open spec fn report_missing_variants_spec(
    vs: Seq<Seq<char>>,
    seen: Seq<Seq<char>>,
    name: Seq<char>,
    span: Span,
    st: StateView,
    i: int,
) -> StateView
    decreases vs.len() - i,
{
    if 0 <= i < vs.len() {
        let v = vs[i];
        let st = if seen.contains(v) {
            st
        } else {
            crate::scope::report_spec(
                st,
                span,
                "non-exhaustive match: missing arm for '"@ + name + "."@ + v + "'"@,
            )
        };
        report_missing_variants_spec(vs, seen, name, span, st, i + 1)
    } else {
        st
    }
}

/// Reports the variants that no arm covers.
pub fn report_missing_variants(
    vs: &Vec<String>,
    seen: &Vec<String>,
    name: &str,
    span: Span,
    st: State,
) -> (r: State)
    ensures
        r@ == report_missing_variants_spec(
            crate::text::strs_view(vs@),
            crate::text::strs_view(seen@),
            name@,
            span,
            st@,
            0,
        ),
        crate::state::follows(st@, r@),
        crate::state::balanced(st@, r@),
        crate::state::same_facts(st@, r@),
{
    let ghost whole_run = report_missing_variants_spec(
        crate::text::strs_view(vs@),
        crate::text::strs_view(seen@),
        name@,
        span,
        st@,
        0,
    );
    let ghost start_st = st@;
    let mut st = st;
    let mut i: usize = 0;
    while i < vs.len()
        invariant
            i <= vs.len(),
            report_missing_variants_spec(
                crate::text::strs_view(vs@),
                crate::text::strs_view(seen@),
                name@,
                span,
                st@,
                i as int,
            ) == whole_run,
            crate::state::follows(start_st, st@),
            crate::state::balanced(start_st, st@),
            crate::state::same_facts(start_st, st@),
        decreases vs.len() - i,
    {
        let v = &vs[i];
        st = if contains_str(seen, v) {
            st
        } else {
            report(st, span, cat5("non-exhaustive match: missing arm for '", name, ".", v, "'"))
        };
        i += 1;
    }
    st
}

/// What [`check_exhaustive`] computes.
pub open spec fn check_exhaustive_spec(
    scan: ArmScanView,
    scrut: TypeView,
    decl: Option<EnumInfoView>,
    span: Span,
    st: StateView,
) -> StateView
{
    if scan.wildcard {
        st
    } else if is_int_dispatch_spec(scrut, decl) {
        let message = "non-exhaustive match: integer scrutinees require a wildcard `_ then …` arm to cover values not explicitly listed"@;
        crate::scope::report_spec(st, span, message)
    } else if crate::types::is_bool_spec(scrut) {
        let st = if scan.seen_true {
            st
        } else {
            crate::scope::report_spec(st, span, "non-exhaustive match: missing arm for 'true'"@)
        };
        if scan.seen_false {
            st
        } else {
            crate::scope::report_spec(st, span, "non-exhaustive match: missing arm for 'false'"@)
        }
    } else {
        match decl {
            Some(info) => report_missing_variants_spec(
                info.variants,
                scan.seen_variants,
                enum_name_or_spec(scrut, ""@),
                span,
                st,
                0,
            ),
            None => st,
        }
    }
}

/// Reports what the arms leave uncovered.
pub fn check_exhaustive(
    scan: &ArmScan,
    scrut: &Type,
    decl: &Option<EnumInfo>,
    span: Span,
    st: State,
) -> (r: State)
    ensures
        r@ == check_exhaustive_spec(
            scan@,
            scrut@,
            (match &decl { Some(v0) => Some(v0@), None => None }),
            span,
            st@,
        ),
        crate::state::follows(st@, r@),
        crate::state::balanced(st@, r@),
        crate::state::same_facts(st@, r@),
{
    if scan.wildcard {
        st
    } else if is_int_dispatch(scrut, decl) {
        let message = text(
            "non-exhaustive match: integer scrutinees require a wildcard `_ then …` arm to cover values not explicitly listed",
        );
        report(st, span, message)
    } else if is_bool(scrut) {
        let st = if scan.seen_true {
            st
        } else {
            report(st, span, text("non-exhaustive match: missing arm for 'true'"))
        };
        if scan.seen_false {
            st
        } else {
            report(st, span, text("non-exhaustive match: missing arm for 'false'"))
        }
    } else {
        match decl {
            Some(info) => report_missing_variants(
                &info.variants,
                &scan.seen_variants,
                &enum_name_or(scrut, ""),
                span,
                st,
            ),
            None => st,
        }
    }
}

/// What [`selected_constant`] computes from position `i` on.
pub open spec fn selected_constant_spec(
    arms: Seq<TypedMatchArmView>,
    v: i128,
    found: bool,
    value: Option<TypedConstView>,
    i: int,
) -> (bool, Option<TypedConstView>)
    decreases arms.len() - i,
{
    if 0 <= i < arms.len() && !found {
        let a = arms[i];
        let (found, value) = match a.int_value {
            Some(p) => if p == v {
                (true, (a.body.constant))
            } else {
                (false, value)
            },
            None => if a.is_wildcard {
                (true, (a.body.constant))
            } else {
                (false, value)
            },
        };
        selected_constant_spec(arms, v, found, value, i + 1)
    } else {
        (found, value)
    }
}

/// The value of the arm that a known scrutinee selects.
pub fn selected_constant(
    arms: &Vec<TypedMatchArm>,
    v: i128,
    found: bool,
    value: Option<TypedConst>,
) -> (r: (bool, Option<TypedConst>))
    ensures
        (r.0, (match &r.1 { Some(v0) => Some(v0@), None => None })) == selected_constant_spec(
            crate::ir::typed_arms_view(arms@),
            v,
            found,
            (match &value { Some(v0) => Some(v0@), None => None }),
            0,
        ),
{
    let ghost whole_run = selected_constant_spec(
        crate::ir::typed_arms_view(arms@),
        v,
        found,
        (match &value { Some(v0) => Some(v0@), None => None }),
        0,
    );
    let mut found = found;
    let mut value = value;
    let mut i: usize = 0;
    while i < arms.len() && !found
        invariant
            i <= arms.len(),
            selected_constant_spec(
                crate::ir::typed_arms_view(arms@),
                v,
                found,
                (match &value { Some(v0) => Some(v0@), None => None }),
                i as int,
            ) == whole_run,
        decreases arms.len() - i,
    {
        let a = &arms[i];
        let next = match a.int_value {
            Some(p) => if p == v {
                (true, dup_constant(&a.body.constant))
            } else {
                (false, value)
            },
            None => if a.is_wildcard {
                (true, dup_constant(&a.body.constant))
            } else {
                (false, value)
            },
        };
        found = next.0;
        value = next.1;
        i += 1;
    }
    (found, value)
}

/// What [`finish_match`] computes.
pub open spec fn finish_match_spec(
    scrutinee: CheckedExprView,
    scan: ArmScanView,
    decl: Option<EnumInfoView>,
    span: Span,
    st: StateView,
) -> (CheckedExprView, StateView)
{
    let st = check_exhaustive_spec(scan, scrutinee.expr.ty, decl, span, st);
    let constant = match crate::operators::int_constant_spec(scrutinee.expr.constant) {
        Some(v) => {
            let (_, value) = selected_constant_spec(scan.arms, v, false, None, 0);
            value
        },
        None => None,
    };
    let t = match scan.result {
        Some(t) => t,
        None => TypeView::I64,
    };
    let kind = TypedExprKindView::Match { scrutinee: Box::new(scrutinee.expr), arms: scan.arms };
    (crate::scope::checked_spec(kind, t, constant, span), st)
}

/// A match on its checked arms.
pub fn finish_match(
    scrutinee: CheckedExpr,
    scan: ArmScan,
    decl: &Option<EnumInfo>,
    span: Span,
    st: State,
) -> (r: (CheckedExpr, State))
    ensures
        (r.0@, r.1@) == finish_match_spec(
            scrutinee@,
            scan@,
            (match &decl { Some(v0) => Some(v0@), None => None }),
            span,
            st@,
        ),
        crate::state::follows(st@, r.1@),
        crate::state::balanced(st@, r.1@),
        crate::state::same_facts(st@, r.1@),
        forall|d: Declared|
            #![trigger crate::typing::fits(scrutinee@, d)]
            #![trigger crate::typing::fits(r.0@, d)]
            match_target_spec(scrutinee@.expr.ty, st@.env) == Ok::<Option<EnumInfoView>, Seq<char>>(
                (match decl { Some(v0) => Some(v0@), None => None }),
            ) && crate::typing::fits(scrutinee@, d) && crate::typing::arms_fit(scan@, d) && crate::typing::beside(d, st@.env) && crate::typing::quiet(st@, r.1@)
                ==> crate::typing::fits(r.0@, d),
{
    proof {
        reveal(crate::typing::well_typed);
        uncovered_matches_are_reported(
            scan@,
            scrutinee@.expr.ty,
            (match decl { Some(v0) => Some(v0@), None => None }),
            span,
            st@,
        );
    }
    let st = check_exhaustive(&scan, &scrutinee.expr.ty, decl, span, st);
    let constant = match int_constant(&scrutinee.expr.constant) {
        Some(v) => {
            let (_, value) = selected_constant(&scan.arms, v, false, None);
            value
        },
        None => None,
    };
    let t = match scan.result {
        Some(t) => t,
        None => Type::I64,
    };
    let kind = TypedExprKind::Match { scrutinee: Box::new(scrutinee.expr), arms: scan.arms };
    (checked(kind, t, constant, span), st)
}

/// What [`match_target`] computes.
pub open spec fn match_target_spec(
    t: TypeView,
    env: EnvView,
) -> Result<Option<EnumInfoView>, Seq<char>>
{
    match crate::operators::enum_name_of_spec(t) {
        Some(name) => match crate::scope::lookup_enum_spec(env, name) {
            Some(info) => Ok(Some(info)),
            None => Err("enum '"@ + name + "' is not declared"@),
        },
        None => if crate::types::is_integer_spec(t) || crate::types::is_bool_spec(t) {
            Ok(None)
        } else {
            Err(
                "match scrutinee must be an enum, integer, or bool type, got "@
                    + crate::ast::type_text_spec(t),
            )
        },
    }
}

/// The declaration that a scrutinee is dispatched by, where it is of an enum
/// type; or why it cannot be matched on.
pub fn match_target(t: &Type, env: &Env) -> (r: Result<Option<EnumInfo>, String>)
    ensures
        (match &r { Ok(v0) => Ok((match &v0 { Some(v1) => Some(v1@), None => None })), Err(v0) => Err(v0@) }) == match_target_spec(
            t@,
            env@,
        ),
{
    match enum_name_of(t) {
        Some(name) => match lookup_enum(env, &name) {
            Some(info) => Ok(Some(info)),
            None => Err(cat3("enum '", &name, "' is not declared")),
        },
        None => if is_integer(t) || is_bool(t) {
            Ok(None)
        } else {
            Err(cat2("match scrutinee must be an enum, integer, or bool type, got ", &type_text(t)))
        },
    }
}

/// What [`no_texts`] computes.
pub open spec fn no_texts_spec() -> TextScanView
{
    TextScanView { seen: Seq::empty(), arms: Seq::empty(), wildcard: None, result: None }
}

/// A match on a string of which no arm was seen.
pub fn no_texts() -> (r: TextScan)
    ensures
        r@ == no_texts_spec(),
{
    TextScan { seen: Vec::new(), arms: Vec::new(), wildcard: None, result: None }
}

/// What [`merge_text_type`] computes.
pub open spec fn merge_text_type_spec(
    result: Option<TypeView>,
    body: CheckedExprView,
    span: Span,
    st: StateView,
) -> (Option<TypeView>, StateView)
{
    match result {
        Some(expected) => if body.expr.ty == expected {
            (Some(expected), st)
        } else {
            let message = "match arm body type mismatch: expected "@
                + crate::ast::type_text_spec(expected) + ", got "@
                + crate::ast::type_text_spec(body.expr.ty);
            (Some(expected), crate::scope::report_spec(st, span, message))
        },
        None => (Some(body.expr.ty), st),
    }
}

/// Takes the type of an arm's body into the result of a match on a string.
pub fn merge_text_type(
    result: Option<Type>,
    body: &CheckedExpr,
    span: Span,
    st: State,
) -> (r: (Option<Type>, State))
    ensures
        ((match &r.0 { Some(v0) => Some(v0@), None => None }), r.1@) == merge_text_type_spec(
            (match &result { Some(v0) => Some(v0@), None => None }),
            body@,
            span,
            st@,
        ),
        crate::state::follows(st@, r.1@),
        crate::state::balanced(st@, r.1@),
        crate::state::same_facts(st@, r.1@),
{
    match result {
        Some(expected) => if type_eq(&body.expr.ty, &expected) {
            (Some(expected), st)
        } else {
            let message = cat4(
                "match arm body type mismatch: expected ",
                &type_text(&expected),
                ", got ",
                &type_text(&body.expr.ty),
            );
            (Some(expected), report(st, span, message))
        },
        None => (Some(body.expr.ty.dup()), st),
    }
}

/// What [`text_arm_error`] computes.
pub open spec fn text_arm_error_spec(
    arm: MatchArmView,
    scrut: TypeView,
    scan: TextScanView,
) -> Option<Seq<char>>
{
    if scan.wildcard.is_some() {
        Some(unreachable_arm_spec())
    } else {
        match arm.pattern {
            PatternView::Str(s) => if scan.seen.contains(s) {
                Some("match arm for string pattern \""@ + s + "\" appears twice"@)
            } else {
                None
            },
            PatternView::Wildcard => None,
            _ => Some(
                "match scrutinee is "@ + crate::ast::type_text_spec(scrut)
                    + ", but pattern is not a string literal — use `\"text\" then …` or `_ then …`"@,
            ),
        }
    }
}

/// Why an arm of a match on a string is skipped.
pub fn text_arm_error(arm: &MatchArm, scrut: &Type, scan: &TextScan) -> (r: Option<String>)
    ensures
        (match &r { Some(v0) => Some(v0@), None => None }) == text_arm_error_spec(
            arm@,
            scrut@,
            scan@,
        ),
{
    if scan.wildcard.is_some() {
        Some(unreachable_arm())
    } else {
        match &arm.pattern {
            Pattern::Str(s) => if contains_str(&scan.seen, s) {
                Some(cat3("match arm for string pattern \"", s, "\" appears twice"))
            } else {
                None
            },
            Pattern::Wildcard => None,
            _ => Some(
                cat3(
                    "match scrutinee is ",
                    &type_text(scrut),
                    ", but pattern is not a string literal — use `\"text\" then …` or `_ then …`",
                ),
            ),
        }
    }
}

/// What [`finish_text_arm`] computes.
pub open spec fn finish_text_arm_spec(
    scan: TextScanView,
    arm: MatchArmView,
    body: CheckedExprView,
    st: StateView,
) -> (TextScanView, StateView)
{
    let (result, st) = merge_text_type_spec(scan.result, body, arm.body.span, st);
    match arm.pattern {
        PatternView::Str(s) => (
            TextScanView {
                seen: scan.seen.push(s),
                arms: scan.arms.push((s, body.expr)),
                wildcard: scan.wildcard,
                result,
            },
            st,
        ),
        _ => (
            TextScanView { seen: scan.seen, arms: scan.arms, wildcard: Some(body.expr), result },
            st,
        ),
    }
}

/// An arm of a match on a string, on its checked body.
pub fn finish_text_arm(
    scan: TextScan,
    arm: &MatchArm,
    body: CheckedExpr,
    st: State,
) -> (r: (TextScan, State))
    ensures
        (r.0@, r.1@) == finish_text_arm_spec(scan@, arm@, body@, st@),
        crate::state::follows(st@, r.1@),
        crate::state::balanced(st@, r.1@),
        crate::state::same_facts(st@, r.1@),
        forall|d: Declared|
            #![trigger crate::typing::texts_fit(scan@, d)]
            #![trigger crate::typing::texts_fit(r.0@, d)]
            crate::typing::texts_fit(scan@, d) && crate::typing::fits(body@, d)
                && crate::typing::beside(d, st@.env) && crate::typing::quiet(st@, r.1@)
                ==> crate::typing::texts_fit(r.0@, d),
{
    proof {
        reveal(crate::typing::well_typed);
    }
    let (result, st) = merge_text_type(scan.result, &body, arm.body.span, st);
    match &arm.pattern {
        Pattern::Str(s) => (
            TextScan {
                seen: push(scan.seen, s.clone()),
                arms: push(scan.arms, (s.clone(), body.expr)),
                wildcard: scan.wildcard,
                result,
            },
            st,
        ),
        _ => (
            TextScan { seen: scan.seen, arms: scan.arms, wildcard: Some(body.expr), result },
            st,
        ),
    }
}

/// What [`text_test`] computes.
pub open spec fn text_test_spec(
    name: Seq<char>,
    scrut: TypeView,
    literal: Seq<char>,
    span: Span,
) -> TypedExprView
{
    let var = crate::scope::typed_spec(TypedExprKindView::Var(name), scrut, None, span);
    let lit = crate::scope::typed_spec(TypedExprKindView::Str(literal), TypeView::Str, None, span);
    crate::scope::typed_spec(
        crate::operators::binary_kind_spec(BinaryOp::Eq, var, lit, true),
        TypeView::Bool,
        None,
        span,
    )
}

/// The comparison of the scrutinee with a literal.
pub fn text_test(name: &str, scrut: &Type, literal: &str, span: Span) -> (r: TypedExpr)
    ensures
        r@ == text_test_spec(name@, scrut@, literal@, span),
{
    let var = typed(TypedExprKind::Var(text(name)), scrut.dup(), None, span);
    let lit = typed(TypedExprKind::Str(text(literal)), Type::Str, None, span);
    typed(binary_kind(BinaryOp::Eq, var, lit, true), Type::Bool, None, span)
}

/// What [`text_chain`] computes.
pub open spec fn text_chain_spec(
    arms: Seq<(Seq<char>, TypedExprView)>,
    k: int,
    name: Seq<char>,
    scrut: TypeView,
    t: TypeView,
    otherwise: TypedExprView,
    span: Span,
) -> TypedExprView
    decreases arms.len() - k,
{
    if k < arms.len() {
        let rest = text_chain_spec(arms, k + 1, name, scrut, t, otherwise, span);
        if_expr_spec(text_test_spec(name, scrut, arms[k].0, span), arms[k].1, rest, t, None, span)
    } else {
        otherwise
    }
}

/// The arms from a position on, as nested `if` expressions.
pub fn text_chain(
    arms: &Vec<(String, TypedExpr)>,
    k: usize,
    name: &str,
    scrut: &Type,
    t: &Type,
    otherwise: &TypedExpr,
    span: Span,
) -> (r: TypedExpr)
    requires
        k <= arms.len(),
    ensures
        r@ == text_chain_spec(
            crate::ir::named_typed_exprs_view(arms@),
            k as int,
            name@,
            scrut@,
            t@,
            otherwise@,
            span,
        ),
    decreases arms.len() - k,
{
    if k < arms.len() {
        let rest = text_chain(arms, k + 1, name, scrut, t, otherwise, span);
        if_expr(
            text_test(name, scrut, &arms[k].0, span),
            arms[k].1.dup(),
            rest,
            t.dup(),
            None,
            span,
        )
    } else {
        otherwise.dup()
    }
}

/// What [`is_fresh_owned_str`] computes.
pub open spec fn is_fresh_owned_str_spec(e: TypedExprView) -> bool
{
    match e.kind {
        TypedExprKindView::Call { .. } => crate::types::is_owned_str_spec(e.ty),
        TypedExprKindView::Binary {
            op,
            ..
        } => op == BinaryOp::Add && crate::types::is_owned_str_spec(e.ty),
        _ => false,
    }
}

/// Whether a string was just made, so that no binding owns it.
pub fn is_fresh_owned_str(e: &TypedExpr) -> (r: bool)
    ensures
        r == is_fresh_owned_str_spec(e@),
{
    match &e.kind {
        TypedExprKind::Call { .. } => is_owned_str(&e.ty),
        TypedExprKind::Binary { op, .. } => *op == BinaryOp::Add && is_owned_str(&e.ty),
        _ => false,
    }
}

/// What [`block_expr`] computes.
pub open spec fn block_expr_spec(
    stmts: Seq<TypedStmtView>,
    tail: TypedExprView,
    t: TypeView,
    span: Span,
) -> CheckedExprView
{
    crate::scope::checked_spec(
        TypedExprKindView::Block { stmts, tail: Box::new(tail) },
        t,
        None,
        span,
    )
}

pub fn block_expr(stmts: Vec<TypedStmt>, tail: TypedExpr, t: Type, span: Span) -> (r: CheckedExpr)
    ensures
        r@ == block_expr_spec(crate::ir::typed_stmts_view(stmts@), tail@, t@, span),
{
    checked(TypedExprKind::Block { stmts, tail: Box::new(tail) }, t, None, span)
}

/// What [`check_match_str`] computes.
pub open spec fn check_match_str_spec(
    scrutinee: CheckedExprView,
    scan: TextScanView,
    span: Span,
    st: StateView,
) -> (CheckedExprView, StateView)
{
    let st = if scan.wildcard.is_some() {
        st
    } else {
        let message = "non-exhaustive match: string scrutinees require a wildcard `_ then …` arm to cover values not explicitly listed"@;
        crate::scope::report_spec(st, span, message)
    };
    let t = match scan.result {
        Some(t) => t,
        None => TypeView::I64,
    };
    let otherwise = match scan.wildcard {
        Some(e) => e,
        None => crate::scope::typed_spec(
            TypedExprKindView::Int(0),
            t,
            Some(TypedConstView::Int(0)),
            span,
        ),
    };
    let scrut = scrutinee.expr.ty;
    let name = "__match_str_"@ + crate::text::decimal((span.start as int));
    let chain = text_chain_spec(scan.arms, 0, name, scrut, t, otherwise, span);
    let bind = TypedStmtView::Let { name: name, ty: scrut, expr: scrutinee.expr };
    if is_fresh_owned_str_spec(scrutinee.expr) {
        let result = "__match_str_result_"@ + crate::text::decimal((span.start as int));
        let keep = TypedStmtView::Let { name: result, ty: t, expr: chain };
        let release = TypedStmtView::Drop { name, ty: scrut, moved_fields: Seq::empty() };
        let tail = crate::scope::typed_spec(TypedExprKindView::Var(result), t, None, span);
        let stmts = Seq::empty().push(bind).push(keep).push(release);
        (block_expr_spec(stmts, tail, t, span), st)
    } else {
        (block_expr_spec(Seq::empty().push(bind), chain, t, span), st)
    }
}

/// A match on a string, as a block that binds the scrutinee and compares it
/// with one literal after the other; a scrutinee that nothing else owns is
/// dropped at the end.
pub fn check_match_str(
    scrutinee: &CheckedExpr,
    scan: TextScan,
    span: Span,
    st: State,
) -> (r: (CheckedExpr, State))
    ensures
        (r.0@, r.1@) == check_match_str_spec(scrutinee@, scan@, span, st@),
        crate::state::follows(st@, r.1@),
        crate::state::balanced(st@, r.1@),
        crate::state::same_facts(st@, r.1@),
        forall|d: Declared|
            #![trigger crate::typing::fits(scrutinee@, d)]
            #![trigger crate::typing::fits(r.0@, d)]
            crate::effects::is_text_type_spec(scrutinee@.expr.ty)
                && crate::typing::fits(scrutinee@, d) && crate::typing::texts_fit(scan@, d)
                && crate::typing::beside(d, st@.env) && crate::typing::quiet(st@, r.1@)
                ==> crate::typing::fits(r.0@, d),
{
    proof {
        assert forall|d: Declared| #[trigger] crate::typing::fits(scrutinee@, d)
            && crate::typing::texts_fit(scan@, d)
            && crate::effects::is_text_type_spec(scrutinee@.expr.ty)
            && scan@.wildcard is Some
            implies crate::typing::fits(
                check_match_str_spec(scrutinee@, scan@, span, st@).0,
                d,
            ) by {
            matched_text_fits(scrutinee@, scan@, span, d, st@);
        }
    }
    let st = if scan.wildcard.is_some() {
        st
    } else {
        let message = text(
            "non-exhaustive match: string scrutinees require a wildcard `_ then …` arm to cover values not explicitly listed",
        );
        report(st, span, message)
    };
    let t = match scan.result {
        Some(t) => t,
        None => Type::I64,
    };
    let otherwise = match scan.wildcard {
        Some(e) => e,
        None => typed(TypedExprKind::Int(0), t.dup(), Some(TypedConst::Int(0)), span),
    };
    let scrut = scrutinee.expr.ty.dup();
    let name = cat2("__match_str_", &usize_text(span.start));
    let chain = text_chain(&scan.arms, 0, &name, &scrut, &t, &otherwise, span);
    let bind = TypedStmt::Let { name: name.clone(), ty: scrut.dup(), expr: scrutinee.expr.dup() };
    if is_fresh_owned_str(&scrutinee.expr) {
        let result = cat2("__match_str_result_", &usize_text(span.start));
        let keep = TypedStmt::Let { name: result.clone(), ty: t.dup(), expr: chain };
        let release = TypedStmt::Drop { name, ty: scrut, moved_fields: Vec::new() };
        let tail = typed(TypedExprKind::Var(result), t.dup(), None, span);
        let stmts = push(push(push(Vec::new(), bind), keep), release);
        (block_expr(stmts, tail, t, span), st)
    } else {
        (block_expr(push(Vec::new(), bind), chain, t, span), st)
    }
}

/// What [`moved_arg`] computes.
pub open spec fn moved_arg_spec(arg: ExprView, env: EnvView, cx: ContextView) -> Option<Seq<char>>
{
    match arg.kind {
        ExprKindView::Var(name) => match crate::scope::lookup_spec(env, name) {
            Some(info) => if crate::scope::copies_spec(info.ty, cx) { None } else { Some(name) },
            None => None,
        },
        _ => None,
    }
}

/// Whether an argument is a variable given away.
pub fn moved_arg(arg: &Expr, env: &Env, cx: &Context) -> (r: Option<String>)
    ensures
        (match &r { Some(v0) => Some(v0@), None => None }) == moved_arg_spec(arg@, env@, cx@),
{
    match &arg.kind {
        ExprKind::Var(name) => match lookup(env, name) {
            Some(info) => if copies(&info.ty, cx) { None } else { Some(name.clone()) },
            None => None,
        },
        _ => None,
    }
}

/// What [`shared_arg`] computes.
pub open spec fn shared_arg_spec(arg: ExprView) -> Option<Seq<char>>
{
    match arg.kind {
        ExprKindView::Ref { inner } => var_name_spec(*inner),
        _ => None,
    }
}

pub fn shared_arg(arg: &Expr) -> (r: Option<String>)
    ensures
        (match &r { Some(v0) => Some(v0@), None => None }) == shared_arg_spec(arg@),
{
    proof {
        reveal_with_fuel(crate::ast::expr_view, 4);
        reveal_with_fuel(crate::ast::expr_kind_view, 4);
        reveal_with_fuel(crate::ast::stmt_view, 3);
        reveal_with_fuel(crate::ast::exprs_view, 3);
        reveal_with_fuel(crate::ast::stmts_view, 3);
        reveal_with_fuel(crate::ast::arms_view, 3);
        reveal_with_fuel(crate::ast::match_arm_view, 3);
    }
    match &arg.kind {
        ExprKind::Ref { inner } => var_name(&**inner),
        _ => None,
    }
}

/// What [`exclusive_arg`] computes.
pub open spec fn exclusive_arg_spec(arg: ExprView) -> Option<Seq<char>>
{
    match arg.kind {
        ExprKindView::RefMut { inner } => var_name_spec(*inner),
        _ => None,
    }
}

pub fn exclusive_arg(arg: &Expr) -> (r: Option<String>)
    ensures
        (match &r { Some(v0) => Some(v0@), None => None }) == exclusive_arg_spec(arg@),
{
    proof {
        reveal_with_fuel(crate::ast::expr_view, 4);
        reveal_with_fuel(crate::ast::expr_kind_view, 4);
        reveal_with_fuel(crate::ast::stmt_view, 3);
        reveal_with_fuel(crate::ast::exprs_view, 3);
        reveal_with_fuel(crate::ast::stmts_view, 3);
        reveal_with_fuel(crate::ast::arms_view, 3);
        reveal_with_fuel(crate::ast::match_arm_view, 3);
    }
    match &arg.kind {
        ExprKind::RefMut { inner } => var_name(&**inner),
        _ => None,
    }
}

/// What [`push_some`] computes.
pub open spec fn push_some_spec(names: Seq<Seq<char>>, name: Option<Seq<char>>) -> Seq<Seq<char>>
{
    match name {
        Some(n) => names.push(n),
        None => names,
    }
}

pub fn push_some(names: Vec<String>, name: Option<String>) -> (r: Vec<String>)
    ensures
        crate::text::strs_view(r@) == push_some_spec(
            crate::text::strs_view(names@),
            (match &name { Some(v0) => Some(v0@), None => None }),
        ),
{
    match name {
        Some(n) => push(names, n),
        None => names,
    }
}

/// What [`classify_args`] computes from position `i` on.
pub open spec fn classify_args_spec(
    args: Seq<ExprView>,
    env: EnvView,
    cx: ContextView,
    all: Seq<Seq<char>>,
    moves: Seq<Seq<char>>,
    muts: Seq<Seq<char>>,
    i: int,
) -> (Seq<Seq<char>>, Seq<Seq<char>>, Seq<Seq<char>>)
    decreases args.len() - i,
{
    if 0 <= i < args.len() {
        let arg = args[i];
        let (all, moves, muts) = {
            let m = moved_arg_spec(arg, env, cx);
            let s = shared_arg_spec(arg);
            let x = exclusive_arg_spec(arg);
            (
                push_some_spec(
                    push_some_spec(push_some_spec(all, moved_arg_spec(arg, env, cx)), s),
                    exclusive_arg_spec(arg),
                ),
                push_some_spec(moves, m),
                push_some_spec(muts, x),
            )
        };
        classify_args_spec(args, env, cx, all, moves, muts, i + 1)
    } else {
        (all, moves, muts)
    }
}

/// The variables that arguments give away, share and borrow exclusively.
pub fn classify_args(
    args: &Vec<Expr>,
    env: &Env,
    cx: &Context,
    all: Vec<String>,
    moves: Vec<String>,
    muts: Vec<String>,
) -> (r: (Vec<String>, Vec<String>, Vec<String>))
    ensures
        (crate::text::strs_view(r.0@), crate::text::strs_view(r.1@), crate::text::strs_view(r.2@)) == classify_args_spec(
            crate::ast::exprs_view(args@),
            env@,
            cx@,
            crate::text::strs_view(all@),
            crate::text::strs_view(moves@),
            crate::text::strs_view(muts@),
            0,
        ),
{
    let ghost whole_run = classify_args_spec(
        crate::ast::exprs_view(args@),
        env@,
        cx@,
        crate::text::strs_view(all@),
        crate::text::strs_view(moves@),
        crate::text::strs_view(muts@),
        0,
    );
    let mut all = all;
    let mut moves = moves;
    let mut muts = muts;
    let mut i: usize = 0;
    while i < args.len()
        invariant
            i <= args.len(),
            classify_args_spec(
                crate::ast::exprs_view(args@),
                env@,
                cx@,
                crate::text::strs_view(all@),
                crate::text::strs_view(moves@),
                crate::text::strs_view(muts@),
                i as int,
            ) == whole_run,
        decreases args.len() - i,
    {
        let arg = &args[i];
        let next = {
            let m = moved_arg(arg, env, cx);
            let s = shared_arg(arg);
            let x = exclusive_arg(arg);
            (
                push_some(
                    push_some(push_some(all, moved_arg(arg, env, cx)), s),
                    exclusive_arg(arg),
                ),
                push_some(moves, m),
                push_some(muts, x),
            )
        };
        all = next.0;
        moves = next.1;
        muts = next.2;
        i += 1;
    }
    (all, moves, muts)
}

/// What [`count_name`] computes from position `i` on.
pub open spec fn count_name_spec(names: Seq<Seq<char>>, name: Seq<char>, c: int, i: int) -> int
    decreases names.len() - i,
{
    if 0 <= i < names.len() {
        let n = names[i];
        let c = if n == name { c + 1 } else { c };
        count_name_spec(names, name, c, i + 1)
    } else {
        c
    }
}

/// How often a name occurs.
pub fn count_name(names: &Vec<String>, name: &str, c: usize) -> (r: usize)
    requires
        c + names.len() <= usize::MAX,
    ensures
        r as int == count_name_spec(crate::text::strs_view(names@), name@, c as int, 0),
{
    let ghost whole_run = count_name_spec(crate::text::strs_view(names@), name@, c as int, 0);
    let ghost start_c = c as int;
    let mut c = c;
    let mut i: usize = 0;
    while i < names.len()
        invariant
            i <= names.len(),
            count_name_spec(crate::text::strs_view(names@), name@, c as int, i as int) == whole_run,
            c <= start_c + i, start_c + names.len() <= usize::MAX,
        decreases names.len() - i,
    {
        let n = &names[i];
        c = if str_eq(n, name) { c + 1 } else { c };
        i += 1;
    }
    c
}

/// What [`check_alias`] computes.
pub open spec fn check_alias_spec(
    name: Seq<char>,
    all: Seq<Seq<char>>,
    moves: Seq<Seq<char>>,
    muts: Seq<Seq<char>>,
    span: Span,
    st: StateView,
) -> StateView
{
    if count_name_spec(all, name, 0, 0) > 1 {
        let st = if muts.contains(name) {
            let message = "argument list aliases '"@ + name
                + "': an '&mut' borrow cannot coexist with another use of the same variable in the same call"@;
            crate::scope::report_spec(st, span, message)
        } else {
            st
        };
        if moves.contains(name) {
            let message = "argument list aliases '"@ + name
                + "': moving it cannot coexist with a borrow of the same variable in the same call"@;
            crate::scope::report_spec(st, span, message)
        } else {
            st
        }
    } else {
        st
    }
}

/// Reports a variable that is used twice in one argument list, once by an
/// exclusive borrow or by giving it away.
pub fn check_alias(
    name: &str,
    all: &Vec<String>,
    moves: &Vec<String>,
    muts: &Vec<String>,
    span: Span,
    st: State,
) -> (r: State)
    ensures
        r@ == check_alias_spec(
            name@,
            crate::text::strs_view(all@),
            crate::text::strs_view(moves@),
            crate::text::strs_view(muts@),
            span,
            st@,
        ),
        crate::state::follows(st@, r@),
        crate::state::balanced(st@, r@),
        crate::state::same_facts(st@, r@),
{
    if count_name(all, name, 0) > 1 {
        let st = if contains_str(muts, name) {
            let message = cat3(
                "argument list aliases '",
                name,
                "': an '&mut' borrow cannot coexist with another use of the same variable in the same call",
            );
            report(st, span, message)
        } else {
            st
        };
        if contains_str(moves, name) {
            let message = cat3(
                "argument list aliases '",
                name,
                "': moving it cannot coexist with a borrow of the same variable in the same call",
            );
            report(st, span, message)
        } else {
            st
        }
    } else {
        st
    }
}

/// What [`check_aliases`] computes from position `i` on.
pub open spec fn check_aliases_spec(
    names: Seq<Seq<char>>,
    moves: Seq<Seq<char>>,
    muts: Seq<Seq<char>>,
    span: Span,
    done: Seq<Seq<char>>,
    st: StateView,
    i: int,
) -> (Seq<Seq<char>>, StateView)
    decreases names.len() - i,
{
    if 0 <= i < names.len() {
        let name = names[i];
        let (done, st) = if done.contains(name) {
            (done, st)
        } else {
            let st = check_alias_spec(name, names, moves, muts, span, st);
            (done.push(name), st)
        };
        check_aliases_spec(names, moves, muts, span, done, st, i + 1)
    } else {
        (done, st)
    }
}

/// Reports each aliased variable once.
pub fn check_aliases(
    names: &Vec<String>,
    moves: &Vec<String>,
    muts: &Vec<String>,
    span: Span,
    done: Vec<String>,
    st: State,
) -> (r: (Vec<String>, State))
    ensures
        (crate::text::strs_view(r.0@), r.1@) == check_aliases_spec(
            crate::text::strs_view(names@),
            crate::text::strs_view(moves@),
            crate::text::strs_view(muts@),
            span,
            crate::text::strs_view(done@),
            st@,
            0,
        ),
        crate::state::follows(st@, r.1@),
        crate::state::balanced(st@, r.1@),
        crate::state::same_facts(st@, r.1@),
{
    let ghost whole_run = check_aliases_spec(
        crate::text::strs_view(names@),
        crate::text::strs_view(moves@),
        crate::text::strs_view(muts@),
        span,
        crate::text::strs_view(done@),
        st@,
        0,
    );
    let ghost start_st = st@;
    let mut done = done;
    let mut st = st;
    let mut i: usize = 0;
    while i < names.len()
        invariant
            i <= names.len(),
            check_aliases_spec(
                crate::text::strs_view(names@),
                crate::text::strs_view(moves@),
                crate::text::strs_view(muts@),
                span,
                crate::text::strs_view(done@),
                st@,
                i as int,
            ) == whole_run,
            crate::state::follows(start_st, st@),
            crate::state::balanced(start_st, st@),
            crate::state::same_facts(start_st, st@),
        decreases names.len() - i,
    {
        let name = &names[i];
        let next = if contains_str(&done, name) {
            (done, st)
        } else {
            let st = check_alias(name, names, moves, muts, span, st);
            (push(done, name.clone()), st)
        };
        done = next.0;
        st = next.1;
        i += 1;
    }
    (done, st)
}

/// What [`check_arg_aliasing`] computes.
pub open spec fn check_arg_aliasing_spec(
    args: Seq<ExprView>,
    span: Span,
    cx: ContextView,
    st: StateView,
) -> StateView
{
    let (all, moves, muts) = classify_args_spec(
        args,
        st.env,
        cx,
        Seq::empty(),
        Seq::empty(),
        Seq::empty(),
        0,
    );
    let (_, st) = check_aliases_spec(all, moves, muts, span, Seq::empty(), st, 0);
    st
}

/// Reports the variables that an argument list aliases, in the order in which
/// they occur.
pub fn check_arg_aliasing(args: &Vec<Expr>, span: Span, cx: &Context, st: State) -> (r: State)
    ensures
        r@ == check_arg_aliasing_spec(crate::ast::exprs_view(args@), span, cx@, st@),
        crate::state::follows(st@, r@),
        crate::state::balanced(st@, r@),
        crate::state::same_facts(st@, r@),
{
    let (all, moves, muts) = classify_args(args, &st.env, cx, Vec::new(), Vec::new(), Vec::new());
    let (_, st) = check_aliases(&all, &moves, &muts, span, Vec::new(), st);
    st
}

/// What [`check_held_mutexes`] computes from position `i` on.
pub open spec fn check_held_mutexes_spec(
    args: Seq<ExprView>,
    name: Seq<char>,
    locks: Seq<bool>,
    st: StateView,
    i: int,
) -> StateView
    decreases args.len() - i,
{
    if 0 <= i < args.len() {
        let arg = args[i];
        let st = if i < locks.len() && locks[i] {
            match crate::signatures::extract_locked_mutex_name_spec(arg) {
                Some(target) => if mutex_held_spec(st.env, target) {
                    let message = "cross-function double acquisition: '"@ + name
                        + "' would call `mutex_lock` on '"@ + target + "', but a Guard for '"@
                        + target + "' is still live in this scope"@;
                    crate::scope::report_spec(st, arg.span, message)
                } else {
                    st
                },
                None => st,
            }
        } else {
            st
        };
        check_held_mutexes_spec(args, name, locks, st, i + 1)
    } else {
        st
    }
}

/// Reports the mutexes that a call would lock a second time.
pub fn check_held_mutexes(args: &Vec<Expr>, name: &str, locks: &Vec<bool>, st: State) -> (r: State)
    ensures
        r@ == check_held_mutexes_spec(crate::ast::exprs_view(args@), name@, locks@, st@, 0),
        crate::state::follows(st@, r@),
        crate::state::balanced(st@, r@),
        crate::state::same_facts(st@, r@),
{
    let ghost whole_run = check_held_mutexes_spec(
        crate::ast::exprs_view(args@),
        name@,
        locks@,
        st@,
        0,
    );
    let ghost start_st = st@;
    let mut st = st;
    let mut i: usize = 0;
    while i < args.len()
        invariant
            i <= args.len(),
            check_held_mutexes_spec(
                crate::ast::exprs_view(args@),
                name@,
                locks@,
                st@,
                i as int,
            ) == whole_run,
            crate::state::follows(start_st, st@),
            crate::state::balanced(start_st, st@),
            crate::state::same_facts(start_st, st@),
        decreases args.len() - i,
    {
        let arg = &args[i];
        st = if i < locks.len() && locks[i] {
            match extract_locked_mutex_name(arg) {
                Some(target) => if mutex_held(&st.env, &target) {
                    let message = cat7(
                        "cross-function double acquisition: '",
                        name,
                        "' would call `mutex_lock` on '",
                        &target,
                        "', but a Guard for '",
                        &target,
                        "' is still live in this scope",
                    );
                    report(st, arg.span, message)
                } else {
                    st
                },
                None => st,
            }
        } else {
            st
        };
        i += 1;
    }
    st
}

/// What [`finish_arg`] computes.
pub open spec fn finish_arg_spec(
    c: CheckedExprView,
    arg: ExprView,
    k: int,
    params: Seq<TypeView>,
    name: Seq<char>,
    cx: ContextView,
    st: StateView,
) -> (TypedExprView, StateView)
{
    let (coerced, st) = if k < params.len() {
        let what = "argument "@ + crate::text::decimal(k + 1) + " to '"@ + name + "'"@;
        crate::numeric::coerce_checked_spec(c, params[k], arg.span, what, st)
    } else {
        (c, st)
    };
    let st = crate::moves::diagnose_partial_then_whole_move_spec(arg, coerced, cx, st);
    crate::moves::take_value_spec(arg, coerced.expr, cx, st)
}

/// An argument on its checked value, converted to the parameter's type.
pub fn finish_arg(
    c: CheckedExpr,
    arg: &Expr,
    k: usize,
    params: &Vec<Type>,
    name: &str,
    cx: &Context,
    st: State,
) -> (r: (TypedExpr, State))
    ensures
        (r.0@, r.1@) == finish_arg_spec(
            c@,
            arg@,
            k as int,
            crate::ast::types_view(params@),
            name@,
            cx@,
            st@,
        ),
        k < params@.len() ==> r.0@.ty == crate::ast::types_view(params@)[k as int],
        crate::state::follows(st@, r.1@),
        crate::state::balanced(st@, r.1@),
        crate::state::same_facts(st@, r.1@),
        crate::typing::fits(c@, crate::typing::declared_in(cx@, st@.env))
            && st@.env.scopes.len() > 0
            && crate::typing::quiet(st@, r.1@)
            ==> crate::typing::well_typed(r.0@, crate::typing::declared_in(cx@, st@.env)),
{
    proof {
        reveal(crate::typing::well_typed);
    }
    let (coerced, st) = if k < params.len() {
        let what = cat5("argument ", &usize_text(k + 1), " to '", name, "'");
        coerce_checked(c, &params[k], arg.span, &what, st)
    } else {
        (c, st)
    };
    let st = diagnose_partial_then_whole_move(arg, &coerced, cx, st);
    take_value(arg, coerced.expr, cx, st)
}

/// What [`finish_associated_arg`] computes.
pub open spec fn finish_associated_arg_spec(
    c: CheckedExprView,
    arg: ExprView,
    k: int,
    params: Seq<TypeView>,
    type_label: Seq<char>,
    method: Seq<char>,
    cx: ContextView,
    st: StateView,
) -> (TypedExprView, StateView)
{
    let (coerced, st) = if k < params.len() {
        let what = type_label + "."@ + method + " arg #"@ + crate::text::decimal(k + 1);
        crate::numeric::coerce_checked_spec(c, params[k], arg.span, what, st)
    } else {
        (c, st)
    };
    let st = crate::moves::diagnose_partial_then_whole_move_spec(arg, coerced, cx, st);
    crate::moves::take_value_spec(arg, coerced.expr, cx, st)
}

/// An argument of a function attached to a type.
pub fn finish_associated_arg(
    c: CheckedExpr,
    arg: &Expr,
    k: usize,
    params: &Vec<Type>,
    type_label: &str,
    method: &str,
    cx: &Context,
    st: State,
) -> (r: (TypedExpr, State))
    ensures
        (r.0@, r.1@) == finish_associated_arg_spec(
            c@,
            arg@,
            k as int,
            crate::ast::types_view(params@),
            type_label@,
            method@,
            cx@,
            st@,
        ),
        k < params@.len() ==> r.0@.ty == crate::ast::types_view(params@)[k as int],
        crate::state::follows(st@, r.1@),
        crate::state::balanced(st@, r.1@),
        crate::state::same_facts(st@, r.1@),
        crate::typing::fits(c@, crate::typing::declared_in(cx@, st@.env))
            && st@.env.scopes.len() > 0
            && crate::typing::quiet(st@, r.1@)
            ==> crate::typing::well_typed(r.0@, crate::typing::declared_in(cx@, st@.env)),
{
    proof {
        reveal(crate::typing::well_typed);
    }
    let (coerced, st) = if k < params.len() {
        let what = cat5(type_label, ".", method, " arg #", &usize_text(k + 1));
        coerce_checked(c, &params[k], arg.span, &what, st)
    } else {
        (c, st)
    };
    let st = diagnose_partial_then_whole_move(arg, &coerced, cx, st);
    take_value(arg, coerced.expr, cx, st)
}

/// What [`finish_indirect_arg`] computes.
pub open spec fn finish_indirect_arg_spec(
    c: CheckedExprView,
    span: Span,
    k: int,
    params: Seq<TypeView>,
    st: StateView,
) -> (TypedExprView, StateView)
{
    let t = if k < params.len() { params[k] } else { c.expr.ty };
    let what = "indirect call argument "@ + crate::text::decimal(k);
    let (coerced, st) = crate::numeric::coerce_checked_spec(c, t, span, what, st);
    (coerced.expr, st)
}

/// An argument of a call through a function value.
pub fn finish_indirect_arg(
    c: CheckedExpr,
    span: Span,
    k: usize,
    params: &Vec<Type>,
    st: State,
) -> (r: (TypedExpr, State))
    ensures
        (r.0@, r.1@) == finish_indirect_arg_spec(
            c@,
            span,
            k as int,
            crate::ast::types_view(params@),
            st@,
        ),
        k < params@.len() ==> r.0@.ty == crate::ast::types_view(params@)[k as int],
        crate::state::follows(st@, r.1@),
        crate::state::balanced(st@, r.1@),
        crate::state::same_facts(st@, r.1@),
        forall|d: Declared|
            #![trigger crate::typing::fits(c@, d)]
            #![trigger crate::typing::well_typed(r.0@, d)]
            crate::typing::fits(c@, d) && crate::typing::beside(d, st@.env)
                && crate::typing::quiet(st@, r.1@)
                ==> crate::typing::well_typed(r.0@, d),
{
    proof {
        reveal(crate::typing::well_typed);
    }
    let t = if k < params.len() { params[k].dup() } else { c.expr.ty.dup() };
    let what = cat2("indirect call argument ", &usize_text(k));
    let (coerced, st) = coerce_checked(c, &t, span, &what, st);
    (coerced.expr, st)
}

/// What [`fn_ptr_parts`] computes.
pub open spec fn fn_ptr_parts_spec(t: TypeView) -> Option<(Seq<TypeView>, TypeView)>
{
    match t {
        TypeView::FnPtr(params, ret) => Some(((params), (*ret))),
        _ => None,
    }
}

/// The parameter and result types of a function value.
pub fn fn_ptr_parts(t: &Type) -> (r: Option<(Vec<Type>, Type)>)
    ensures
        (match &r { Some(v0) => Some((crate::ast::types_view(v0.0@), v0.1@)), None => None }) == fn_ptr_parts_spec(t@),
{
    match t {
        Type::FnPtr(params, ret) => Some((dup_types(params), (**ret).dup())),
        _ => None,
    }
}

/// What [`indirect_kind`] computes.
pub open spec fn indirect_kind_spec(
    callee: TypedExprView,
    args: Seq<TypedExprView>,
) -> TypedExprKindView
{
    TypedExprKindView::CallIndirect { callee: Box::new(callee), args }
}

pub fn indirect_kind(callee: TypedExpr, args: Vec<TypedExpr>) -> (r: TypedExprKind)
    ensures
        r@ == indirect_kind_spec(callee@, crate::ir::typed_exprs_view(args@)),
{
    TypedExprKind::CallIndirect { callee: Box::new(callee), args }
}

/// What [`indirect_call`] computes.
pub open spec fn indirect_call_spec(
    name: Seq<char>,
    name_span: Span,
    at: Span,
    params: Seq<TypeView>,
    ret: TypeView,
    args: Seq<TypedExprView>,
    span: Span,
) -> CheckedExprView
{
    let t = crate::operators::fn_ptr_of_spec(params, ret);
    let callee = crate::scope::with_decl_spec(
        crate::scope::checked_spec(TypedExprKindView::Var(name), t, None, name_span),
        at,
    );
    crate::scope::checked_spec(indirect_kind_spec(callee.expr, args), ret, None, span)
}

/// A call through a function value, on its checked arguments.
pub fn indirect_call(
    name: &str,
    name_span: Span,
    at: Span,
    params: Vec<Type>,
    ret: &Type,
    args: Vec<TypedExpr>,
    span: Span,
) -> (r: CheckedExpr)
    ensures
        r@ == indirect_call_spec(
            name@,
            name_span,
            at,
            crate::ast::types_view(params@),
            ret@,
            crate::ir::typed_exprs_view(args@),
            span,
        ),
{
    let t = fn_ptr_of(params, ret.dup());
    let callee = with_decl(checked(TypedExprKind::Var(text(name)), t, None, name_span), at);
    checked(indirect_kind(callee.expr, args), ret.dup(), None, span)
}

/// What [`call_kind`] computes.
pub open spec fn call_kind_spec(
    name: Seq<char>,
    name_span: Span,
    args: Seq<TypedExprView>,
) -> TypedExprKindView
{
    TypedExprKindView::Call { name: name, name_span, args }
}

pub fn call_kind(name: &str, name_span: Span, args: Vec<TypedExpr>) -> (r: TypedExprKind)
    ensures
        r@ == call_kind_spec(name@, name_span, crate::ir::typed_exprs_view(args@)),
{
    TypedExprKind::Call { name: text(name), name_span, args }
}

/// What [`is_nominal`] computes.
pub open spec fn is_nominal_spec(t: TypeView) -> bool
{
    crate::types::nominal_name_spec(t).is_some()
}

pub fn is_nominal(t: &Type) -> (r: bool)
    ensures
        r == is_nominal_spec(t@),
{
    nominal_name(t).is_some()
}

/// What [`receiver_mode`] computes.
pub open spec fn receiver_mode_spec(receiver: TypeView, expected: TypeView) -> Receiver
{
    if is_nominal_spec(receiver) {
        match expected {
            TypeView::Ref(inner) => if is_nominal_spec(*inner) { Receiver::Ref } else { Receiver::Value },
            TypeView::RefMut(inner) => if is_nominal_spec(*inner) { Receiver::RefMut } else { Receiver::Value },
            _ => Receiver::Value,
        }
    } else {
        Receiver::Value
    }
}

/// How a receiver of one type is handed to a method that takes another.
pub fn receiver_mode(receiver: &Type, expected: &Type) -> (r: Receiver)
    ensures
        r == receiver_mode_spec(receiver@, expected@),
{
    proof {
        reveal_with_fuel(crate::ast::type_view, 4);
    }
    if is_nominal(receiver) {
        match expected {
            Type::Ref(inner) => if is_nominal(&**inner) { Receiver::Ref } else { Receiver::Value },
            Type::RefMut(inner) => if is_nominal(&**inner) { Receiver::RefMut } else { Receiver::Value },
            _ => Receiver::Value,
        }
    } else {
        Receiver::Value
    }
}

/// What [`method_target`] computes.
pub open spec fn method_target_spec(
    t: TypeView,
    method: Seq<char>,
    cx: ContextView,
) -> Result<(Seq<char>, Receiver), Seq<char>>
{
    match crate::types::nominal_name_spec(crate::types::deref_spec(t)) {
        None => Err(
            "cannot call method '"@ + method + "' on "@
                + crate::ast::type_text_spec(crate::types::deref_spec(t))
                + " — methods are attached to struct/enum types only in v1"@,
        ),
        Some(name) => {
            let mangled = name + "_"@ + method;
            match crate::scope::signature_get_spec(cx.signatures, mangled) {
                None => {
                    let head = "no method '"@ + method + "' on type '"@ + name
                        + "'; expected a `methods on "@ + name + "` block declaring `fn "@;
                    Err(head + method + "(self: "@ + name + ", …)`"@)
                },
                Some(sig) => if sig.params.len() > 0 {
                    if crate::types::is_any_ref_spec(t) && is_nominal_spec(sig.params[0]) {
                        let under = crate::ast::type_text_spec(crate::types::deref_spec(t));
                        let head = "method '"@ + method + "' takes `self: "@
                            + crate::ast::type_text_spec(sig.params[0])
                            + "` by value but the receiver is a borrow ("@
                            + crate::ast::type_text_spec(t)
                            + "); either change the method signature to `self: ref "@;
                        Err(
                            head + under + "` / `self: mut ref "@ + under
                                + "`, or copy the value by reconstructing the struct literal before calling"@,
                        )
                    } else {
                        Ok((mangled, receiver_mode_spec(t, sig.params[0])))
                    }
                } else {
                    Ok((mangled, Receiver::Value))
                },
            }
        },
    }
}

/// How the method that a receiver's type attaches is called: its function's
/// name and how the receiver is handed over; or why there is none.
pub fn method_target(t: &Type, method: &str, cx: &Context) -> (r: Result<(String, Receiver), String>)
    ensures
        (match &r { Ok(v0) => Ok((v0.0@, v0.1)), Err(v0) => Err(v0@) }) == method_target_spec(
            t@,
            method@,
            cx@,
        ),
{
    match nominal_name(&deref(t)) {
        None => Err(
            cat5(
                "cannot call method '",
                method,
                "' on ",
                &type_text(&deref(t)),
                " — methods are attached to struct/enum types only in v1",
            ),
        ),
        Some(name) => {
            let mangled = cat3(&name, "_", method);
            match signature_get(&cx.signatures, &mangled) {
                None => {
                    let head = cat7(
                        "no method '",
                        method,
                        "' on type '",
                        &name,
                        "'; expected a `methods on ",
                        &name,
                        "` block declaring `fn ",
                    );
                    Err(cat5(&head, method, "(self: ", &name, ", …)`"))
                },
                Some(sig) => if sig.params.len() > 0 {
                    if is_any_ref(t) && is_nominal(&sig.params[0]) {
                        let under = type_text(&deref(t));
                        let head = cat7(
                            "method '",
                            method,
                            "' takes `self: ",
                            &type_text(&sig.params[0]),
                            "` by value but the receiver is a borrow (",
                            &type_text(t),
                            "); either change the method signature to `self: ref ",
                        );
                        Err(
                            cat5(
                                &head,
                                &under,
                                "` / `self: mut ref ",
                                &under,
                                "`, or copy the value by reconstructing the struct literal before calling",
                            ),
                        )
                    } else {
                        Ok((mangled, receiver_mode(t, &sig.params[0])))
                    }
                } else {
                    Ok((mangled, Receiver::Value))
                },
            }
        },
    }
}

/// What [`associated_function`] computes.
pub open spec fn associated_function_spec(
    name: Seq<char>,
    method: Seq<char>,
    cx: ContextView,
    env: EnvView,
) -> Option<SignatureView>
{
    if crate::scope::lookup_struct_spec(env, name).is_some()
        || crate::scope::lookup_enum_spec(env, name).is_some() {
        crate::scope::signature_get_spec(cx.signatures, name + "_"@ + method)
    } else {
        None
    }
}

/// The function attached to the type that a name stands for.
pub fn associated_function(
    name: &str,
    method: &str,
    cx: &Context,
    env: &Env,
) -> (r: Option<Signature>)
    ensures
        (match &r { Some(v0) => Some(v0@), None => None }) == associated_function_spec(
            name@,
            method@,
            cx@,
            env@,
        ),
{
    if lookup_struct(env, name).is_some() || lookup_enum(env, name).is_some() {
        signature_get(&cx.signatures, &cat3(name, "_", method))
    } else {
        None
    }
}

/// What [`variant_tag`] computes.
pub open spec fn variant_tag_spec(name: Seq<char>, variant: Seq<char>, env: EnvView) -> Option<int>
{
    match crate::scope::lookup_enum_spec(env, name) {
        Some(info) => crate::scope::name_position_spec(info.variants, variant, None, 0),
        None => None,
    }
}

/// The position of a variant in the enum that a name stands for.
pub fn variant_tag(name: &str, variant: &str, env: &Env) -> (r: Option<usize>)
    ensures
        (match &r { Some(v0) => Some(*v0 as int), None => None }) == variant_tag_spec(
            name@,
            variant@,
            env@,
        ),
{
    match lookup_enum(env, name) {
        Some(info) => name_position(&info.variants, variant, None),
        None => None,
    }
}

/// What [`finish_variant`] computes.
pub open spec fn finish_variant_spec(
    c: CheckedExprView,
    arg: ExprView,
    name: Seq<char>,
    variant: Seq<char>,
    tag: u32,
    payload_ty: TypeView,
    span: Span,
    cx: ContextView,
    st: StateView,
) -> (CheckedExprView, StateView)
{
    let (coerced, st) = crate::numeric::coerce_checked_spec(
        c,
        payload_ty,
        arg.span,
        "enum payload"@,
        st,
    );
    let (taken, st) = crate::moves::take_value_spec(arg, coerced.expr, cx, st);
    let kind = TypedExprKindView::EnumVariantWithPayload {
        enum_name: name,
        variant: variant,
        tag,
        payload: Box::new(taken),
        payload_ty,
    };
    (crate::scope::checked_spec(kind, TypeView::Enum(name), None, span), st)
}

/// A variant with its checked payload.
pub fn finish_variant(
    c: CheckedExpr,
    arg: &Expr,
    name: &str,
    variant: &str,
    tag: u32,
    payload_ty: Type,
    span: Span,
    cx: &Context,
    st: State,
) -> (r: (CheckedExpr, State))
    ensures
        (r.0@, r.1@) == finish_variant_spec(
            c@,
            arg@,
            name@,
            variant@,
            tag,
            payload_ty@,
            span,
            cx@,
            st@,
        ),
        crate::state::follows(st@, r.1@),
        crate::state::balanced(st@, r.1@),
        crate::state::same_facts(st@, r.1@),
        crate::scope::lookup_enum_variant_payload_spec(
            st@.env,
            name@,
            variant@,
        ) == Some(payload_ty@)
            && crate::typing::fits(c@, crate::typing::declared_in(cx@, st@.env))
            && st@.env.scopes.len() > 0
            && crate::typing::quiet(st@, r.1@)
            ==> crate::typing::fits(r.0@, crate::typing::declared_in(cx@, st@.env)),
{
    proof {
        reveal(crate::typing::well_typed);
    }
    let (coerced, st) = coerce_checked(c, &payload_ty, arg.span, "enum payload", st);
    let (taken, st) = take_value(arg, coerced.expr, cx, st);
    let kind = TypedExprKind::EnumVariantWithPayload {
        enum_name: text(name),
        variant: text(variant),
        tag,
        payload: Box::new(taken),
        payload_ty,
    };
    (checked(kind, Type::Enum(text(name)), None, span), st)
}

/// What [`payload_count`] computes.
pub open spec fn payload_count_spec(name: Seq<char>, variant: Seq<char>, n: int) -> Seq<char>
{
    "enum constructor '"@ + name + "."@ + variant + "' expects 1 payload argument, got "@
        + crate::text::decimal(n)
}

pub fn payload_count(name: &str, variant: &str, n: usize) -> (r: String)
    ensures
        r@ == payload_count_spec(name@, variant@, n as int),
{
    cat6(
        "enum constructor '",
        name,
        ".",
        variant,
        "' expects 1 payload argument, got ",
        &usize_text(n),
    )
}

/// What [`no_payload`] computes.
pub open spec fn no_payload_spec(name: Seq<char>, variant: Seq<char>) -> Seq<char>
{
    "enum variant '"@ + name + "."@ + variant + "' has no payload — use `"@ + name + "."@ + variant
        + "` without parentheses"@
}

pub fn no_payload(name: &str, variant: &str) -> (r: String)
    ensures
        r@ == no_payload_spec(name@, variant@),
{
    cat9(
        "enum variant '",
        name,
        ".",
        variant,
        "' has no payload — use `",
        name,
        ".",
        variant,
        "` without parentheses",
    )
}

/// What [`associated_count`] computes.
pub open spec fn associated_count_spec(
    name: Seq<char>,
    method: Seq<char>,
    want: int,
    got: int,
) -> Seq<char>
{
    let head = "type-associated function '"@ + name + "."@ + method + "' expects "@;
    head + crate::text::decimal(want) + " arguments, got "@ + crate::text::decimal(got)
}

pub fn associated_count(name: &str, method: &str, want: usize, got: usize) -> (r: String)
    ensures
        r@ == associated_count_spec(name@, method@, want as int, got as int),
{
    let head = cat5("type-associated function '", name, ".", method, "' expects ");
    cat4(&head, &usize_text(want), " arguments, got ", &usize_text(got))
}

/// What [`short_circuit`] computes.
pub open spec fn short_circuit_spec(op: BinaryOp, left: Option<TypedConstView>) -> Option<bool>
{
    match left {
        Some(TypedConstView::Bool(v)) => if op == BinaryOp::And && !v || op == BinaryOp::Or && v {
            Some(v)
        } else {
            None
        },
        _ => None,
    }
}

/// The result of `&&` or `||` where a known left side decides it.
pub fn short_circuit(op: BinaryOp, left: &Option<TypedConst>) -> (r: Option<bool>)
    ensures
        r == short_circuit_spec(op, (match &left { Some(v0) => Some(v0@), None => None })),
{
    match left {
        Some(TypedConst::Bool(v)) => if op == BinaryOp::And && !*v || op == BinaryOp::Or && *v {
            Some(*v)
        } else {
            None
        },
        _ => None,
    }
}

/// What [`struct_literal`] computes.
pub open spec fn struct_literal_spec(
    name: Seq<char>,
    fields: Seq<(Seq<char>, TypedExprView)>,
    span: Span,
) -> CheckedExprView
{
    crate::scope::checked_spec(
        TypedExprKindView::StructLit { struct_name: name, fields },
        TypeView::Struct(name),
        None,
        span,
    )
}

pub fn struct_literal(name: &str, fields: Vec<(String, TypedExpr)>, span: Span) -> (r: CheckedExpr)
    ensures
        r@ == struct_literal_spec(name@, crate::ir::named_typed_exprs_view(fields@), span),
{
    checked(
        TypedExprKind::StructLit { struct_name: text(name), fields },
        Type::Struct(text(name)),
        None,
        span,
    )
}

/// What [`named_enum`] computes.
pub open spec fn named_enum_spec(e: ExprView, env: EnvView) -> Option<(Seq<char>, EnumInfoView)>
{
    match var_name_spec(e) {
        Some(name) => match crate::scope::lookup_enum_spec(env, name) {
            Some(info) => Some((name, info)),
            None => None,
        },
        None => None,
    }
}

/// The enum that an expression names.
pub fn named_enum(e: &Expr, env: &Env) -> (r: Option<(String, EnumInfo)>)
    ensures
        (match &r { Some(v0) => Some((v0.0@, v0.1@)), None => None }) == named_enum_spec(e@, env@),
{
    match var_name(e) {
        Some(name) => match lookup_enum(env, &name) {
            Some(info) => Some((name, info)),
            None => None,
        },
        None => None,
    }
}

/// What [`named_variant`] computes.
pub open spec fn named_variant_spec(
    e: ExprView,
    variant: Seq<char>,
    env: EnvView,
) -> Option<(Seq<char>, u32)>
{
    match var_name_spec(e) {
        Some(name) => match variant_tag_spec(name, variant, env) {
            Some(tag) => Some((name, tag as u32)),
            None => None,
        },
        None => None,
    }
}

/// The enum that an expression names and the position of its variant.
pub fn named_variant(e: &Expr, variant: &str, env: &Env) -> (r: Option<(String, u32)>)
    ensures
        (match &r { Some(v0) => Some((v0.0@, v0.1)), None => None }) == named_variant_spec(
            e@,
            variant@,
            env@,
        ),
{
    match var_name(e) {
        Some(name) => match variant_tag(&name, variant, env) {
            Some(tag) => Some((name, tag as u32)),
            None => None,
        },
        None => None,
    }
}

/// What [`named_function`] computes.
pub open spec fn named_function_spec(
    e: ExprView,
    method: Seq<char>,
    cx: ContextView,
    env: EnvView,
) -> Option<(Seq<char>, SignatureView)>
{
    match var_name_spec(e) {
        Some(name) => match associated_function_spec(name, method, cx, env) {
            Some(sig) => Some((name, sig)),
            None => None,
        },
        None => None,
    }
}

/// The type that an expression names and the function attached to it.
pub fn named_function(
    e: &Expr,
    method: &str,
    cx: &Context,
    env: &Env,
) -> (r: Option<(String, Signature)>)
    ensures
        (match &r { Some(v0) => Some((v0.0@, v0.1@)), None => None }) == named_function_spec(
            e@,
            method@,
            cx@,
            env@,
        ),
{
    match var_name(e) {
        Some(name) => match associated_function(&name, method, cx, env) {
            Some(sig) => Some((name, sig)),
            None => None,
        },
        None => None,
    }
}

/// What [`named_fn_value`] computes.
pub open spec fn named_fn_value_spec(
    name: Seq<char>,
    env: EnvView,
) -> Option<(Span, Seq<TypeView>, TypeView)>
{
    match crate::scope::lookup_spec(env, name) {
        Some(info) => match fn_ptr_parts_spec(info.ty) {
            Some((params, ret)) => Some((info.decl_span, params, ret)),
            None => None,
        },
        None => None,
    }
}

/// The binding of a name to a function value: its place, the parameters' types
/// and the result's.
pub fn named_fn_value(name: &str, env: &Env) -> (r: Option<(Span, Vec<Type>, Type)>)
    ensures
        (match &r { Some(v0) => Some((v0.0, crate::ast::types_view(v0.1@), v0.2@)), None => None }) == named_fn_value_spec(
            name@,
            env@,
        ),
{
    match lookup(env, name) {
        Some(info) => match fn_ptr_parts(&info.ty) {
            Some((params, ret)) => Some((info.decl_span, params, ret)),
            None => None,
        },
        None => None,
    }
}

/// What [`is_atomic_builtin`] computes.
pub open spec fn is_atomic_builtin_spec(name: Seq<char>) -> bool
{
    name == "atomic_new"@ || name == "atomic_load"@ || name == "atomic_store"@
        || name == "atomic_fetch_add"@ || name == "atomic_compare_exchange"@
}

pub fn is_atomic_builtin(name: &str) -> (r: bool)
    ensures
        r == is_atomic_builtin_spec(name@),
{
    str_eq(name, "atomic_new") || str_eq(name, "atomic_load") || str_eq(name, "atomic_store")
        || str_eq(name, "atomic_fetch_add") || str_eq(name, "atomic_compare_exchange")
}

/// What [`is_channel_builtin`] computes.
pub open spec fn is_channel_builtin_spec(name: Seq<char>) -> bool
{
    name == "channel_new"@ || name == "channel_send"@ || name == "channel_recv"@
}

pub fn is_channel_builtin(name: &str) -> (r: bool)
    ensures
        r == is_channel_builtin_spec(name@),
{
    str_eq(name, "channel_new") || str_eq(name, "channel_send") || str_eq(name, "channel_recv")
}

/// What [`is_mutex_builtin`] computes.
pub open spec fn is_mutex_builtin_spec(name: Seq<char>) -> bool
{
    name == "mutex_new"@ || name == "mutex_lock"@ || name == "guard_get"@ || name == "guard_set"@
}

pub fn is_mutex_builtin(name: &str) -> (r: bool)
    ensures
        r == is_mutex_builtin_spec(name@),
{
    str_eq(name, "mutex_new") || str_eq(name, "mutex_lock") || str_eq(name, "guard_get")
        || str_eq(name, "guard_set")
}

/// What the arms of a match cover stays covered, and what a new arm's pattern
/// covers has that arm.
proof fn arm_is_added(
    scan: ArmScanView,
    arm: MatchArmView,
    key: ArmKeyView,
    binding: Option<(Seq<char>, TypeView)>,
    body: CheckedExprView,
    st: StateView,
    d: Declared,
)
    requires
        crate::typing::arms_fit(scan, d),
        crate::typing::key_fits(arm.pattern, key),
        crate::typing::fits(body, d),
        finish_arm_spec(scan, arm, key, binding, body, st).1 == st,
    ensures
        crate::typing::arms_fit(finish_arm_spec(scan, arm, key, binding, body, st).0, d),
{
    let next = finish_arm_spec(scan, arm, key, binding, body, st).0;
    let n = scan.arms.len() as int;
    assert(next.arms.len() == n + 1);
    assert(forall|i: int| 0 <= i < n ==> next.arms[i] == #[trigger] scan.arms[i]);
    assert(next.arms[n].body == body.expr && next.arms[n].variant == key.variant && next.arms[n].int_value
        == key.int_value && next.arms[n].is_wildcard == is_wildcard_spec(arm.pattern));
    assert forall|v: i128| crate::typing::has_value_arm(
        scan.arms,
        v,
    ) implies #[trigger] crate::typing::has_value_arm(next.arms, v) by {
        let i = choose|i: int| 0 <= i < n && (#[trigger] scan.arms[i]).int_value == Some(v);
        assert(next.arms[i].int_value == Some(v));
    }
    assert forall|v: Seq<char>| crate::typing::has_variant_arm(
        scan.arms,
        v,
    ) implies #[trigger] crate::typing::has_variant_arm(next.arms, v) by {
        let i = choose|i: int| 0 <= i < n && (#[trigger] scan.arms[i]).variant == v;
        assert(next.arms[i].variant == v);
    }
    if scan.wildcard {
        let i = choose|i: int| 0 <= i < n && (#[trigger] scan.arms[i]).is_wildcard;
        assert(next.arms[i].is_wildcard);
    }
    assert(scan.result is Some ==> scan.result == Some(body.expr.ty)) by {
        if scan.result is Some && scan.result != Some(body.expr.ty) {
            let after = merge_arm_type_spec(scan.result, body, arm.body.span, st).1;
            assert(after.diagnostics.len() == st.diagnostics.len() + 1);
        }
    }
    assert forall|k: int| 0 <= k < next.seen_variants.len() implies crate::typing::has_variant_arm(
        next.arms,
        #[trigger] next.seen_variants[k],
    ) by {
        if k < scan.seen_variants.len() {
            assert(crate::typing::has_variant_arm(scan.arms, scan.seen_variants[k]));
        }
    }
}

/// The arms of a match on a string are well typed as nested `if` expressions.
proof fn text_chain_fits(
    arms: Seq<(Seq<char>, TypedExprView)>,
    k: int,
    name: Seq<char>,
    scrut: TypeView,
    t: TypeView,
    otherwise: TypedExprView,
    span: Span,
    d: Declared,
)
    requires
        0 <= k <= arms.len(),
        crate::effects::is_text_type_spec(scrut),
        forall|i: int| 0 <= i < arms.len() ==> crate::typing::well_typed(
            (#[trigger] arms[i]).1,
            d,
        ) && arms[i].1.ty == t,
        crate::typing::well_typed(otherwise, d),
        otherwise.ty == t,
    ensures
        ({
            let e = text_chain_spec(arms, k, name, scrut, t, otherwise, span);
            crate::typing::well_typed(e, d) && e.ty == t
        }),
    decreases arms.len() - k,
{
    if k < arms.len() {
        text_chain_fits(arms, k + 1, name, scrut, t, otherwise, span, d);
        reveal(crate::typing::well_typed);
        let var = crate::scope::typed_spec(TypedExprKindView::Var(name), scrut, None, span);
        let lit = crate::scope::typed_spec(
            TypedExprKindView::Str(arms[k].0),
            TypeView::Str,
            None,
            span,
        );
        assert(crate::typing::well_typed(var, d) && crate::typing::well_typed(lit, d));
        assert(crate::typing::well_typed(text_test_spec(name, scrut, arms[k].0, span), d));
        assert(crate::typing::well_typed(arms[k].1, d));
    }
}

/// A match on a string is well typed as a whole.
proof fn matched_text_fits(
    scrutinee: CheckedExprView,
    scan: TextScanView,
    span: Span,
    d: Declared,
    st: StateView,
)
    requires
        crate::typing::fits(scrutinee, d),
        crate::typing::texts_fit(scan, d),
        crate::effects::is_text_type_spec(scrutinee.expr.ty),
        scan.wildcard is Some,
    ensures
        crate::typing::fits(check_match_str_spec(scrutinee, scan, span, st).0, d),
{
    let t = scan.result->0;
    let otherwise = scan.wildcard->0;
    let scrut = scrutinee.expr.ty;
    let name = "__match_str_"@ + crate::text::decimal(span.start as int);
    text_chain_fits(scan.arms, 0, name, scrut, t, otherwise, span, d);
    let result = "__match_str_result_"@ + crate::text::decimal(span.start as int);
    let tail = crate::scope::typed_spec(TypedExprKindView::Var(result), t, None, span);
    reveal(crate::typing::well_typed);
    assert(crate::typing::well_typed(tail, d));
}

/// Whether the arms of a `match` cover every value of its type.
pub open spec fn arms_cover(
    scan: ArmScanView,
    scrut: TypeView,
    decl: Option<EnumInfoView>,
) -> bool {
    scan.wildcard || (!is_int_dispatch_spec(scrut, decl) && if crate::types::is_bool_spec(scrut) {
        scan.seen_true && scan.seen_false
    } else {
        decl matches Some(info) ==> forall|j: int|
            0 <= j < info.variants.len()
                ==> scan.seen_variants.contains(#[trigger] info.variants[j])
    })
}

proof fn missing_variants_reported(
    vs: Seq<Seq<char>>,
    seen: Seq<Seq<char>>,
    name: Seq<char>,
    span: Span,
    st: StateView,
    i: int,
)
    requires
        0 <= i <= vs.len(),
    ensures
        crate::effects::reported_unless(
            forall|j: int| i <= j < vs.len() ==> seen.contains(#[trigger] vs[j]),
            st,
            report_missing_variants_spec(vs, seen, name, span, st, i),
        ),
    decreases vs.len() - i,
{
    if i < vs.len() {
        let message = "non-exhaustive match: missing arm for '"@ + name + "."@ + vs[i] + "'"@;
        let next = if seen.contains(vs[i]) {
            st
        } else {
            crate::scope::report_spec(st, span, message)
        };
        missing_variants_reported(vs, seen, name, span, next, i + 1);
    }
}

/// A `match` passes as exhaustive exactly where its arms cover every value.
pub proof fn uncovered_matches_are_reported(
    scan: ArmScanView,
    scrut: TypeView,
    decl: Option<EnumInfoView>,
    span: Span,
    st: StateView,
)
    ensures
        crate::effects::reported_unless(
            arms_cover(scan, scrut, decl),
            st,
            check_exhaustive_spec(scan, scrut, decl, span, st),
        ),
{
    match decl {
        Some(info) => {
            missing_variants_reported(
                info.variants,
                scan.seen_variants,
                enum_name_or_spec(scrut, ""@),
                span,
                st,
                0,
            );
        },
        None => {},
    }
}

/// Whether a binding is a guard that still holds the mutex.
pub open spec fn guards(b: (Seq<char>, VarInfoView), target: Seq<char>) -> bool {
    b.1.moved is None && b.1.guarded_mutex == Some(target)
}

/// A mutex counts as held exactly while some guard in scope that was not given
/// away holds it.
pub proof fn held_while_a_guard_lives(env: EnvView, target: Seq<char>)
    ensures
        mutex_held_spec(env, target) <==> exists|j: int|
            0 <= j < crate::scope::all_bindings_spec(env).len() && guards(
                #[trigger] crate::scope::all_bindings_spec(env)[j],
                target,
            ),
{
    let bs = crate::scope::all_bindings_spec(env);
    assert(
        forall|j: int| 0 <= j < bs.len() && guards(
            #[trigger] bs[j],
            target,
        ) ==> mutex_held_spec(env, target)
    );
}

/// The variable that an argument gives away, shares or borrows exclusively.
pub open spec fn used_by(arg: ExprView, env: EnvView, cx: ContextView) -> Option<Seq<char>> {
    if moved_arg_spec(arg, env, cx) is Some {
        moved_arg_spec(arg, env, cx)
    } else if shared_arg_spec(arg) is Some {
        shared_arg_spec(arg)
    } else {
        exclusive_arg_spec(arg)
    }
}

/// How many arguments from position `i` on use the variable.
pub open spec fn uses_of(
    args: Seq<ExprView>,
    env: EnvView,
    cx: ContextView,
    name: Seq<char>,
    i: int,
) -> int
    decreases args.len() - i,
{
    if 0 <= i < args.len() {
        uses_of(args, env, cx, name, i + 1) + if used_by(args[i], env, cx) == Some(name) {
            1int
        } else {
            0
        }
    } else {
        0
    }
}

/// Whether an argument gives the variable away or borrows it exclusively.
pub open spec fn takes(arg: ExprView, env: EnvView, cx: ContextView, name: Seq<char>) -> bool {
    moved_arg_spec(arg, env, cx) == Some(name) || exclusive_arg_spec(arg) == Some(name)
}

/// Whether no variable that an argument gives away or borrows exclusively is
/// used by another argument.
pub open spec fn no_argument_aliases(args: Seq<ExprView>, env: EnvView, cx: ContextView) -> bool {
    forall|name: Seq<char>, j: int|
        0 <= j < args.len() && #[trigger] takes(args[j], env, cx, name) ==> uses_of(
            args,
            env,
            cx,
            name,
            0,
        ) <= 1
}

proof fn counted_behind(names: Seq<Seq<char>>, n: Seq<char>, name: Seq<char>, c: int, i: int)
    requires
        0 <= i <= names.len(),
    ensures
        count_name_spec(names.push(n), name, c, i) == count_name_spec(names, name, c, i) + if n
            == name {
            1int
        } else {
            0
        },
    decreases names.len() - i,
{
    reveal_with_fuel(count_name_spec, 2);
    if i < names.len() {
        assert(names.push(n)[i] == names[i]);
        let next = if names[i] == name {
            c + 1
        } else {
            c
        };
        counted_behind(names, n, name, next, i + 1);
    } else {
        assert(names.push(n)[i] == n);
    }
}

proof fn listed_behind(names: Seq<Seq<char>>, n: Seq<char>, name: Seq<char>)
    ensures
        names.push(n).contains(name) <==> names.contains(name) || n == name,
{
    if names.contains(name) {
        let j = choose|j: int| 0 <= j < names.len() && names[j] == name;
        assert(names.push(n)[j] == name);
    }
    if n == name {
        assert(names.push(n)[names.len() as int] == name);
    }
}

proof fn arguments_classified(
    args: Seq<ExprView>,
    env: EnvView,
    cx: ContextView,
    all: Seq<Seq<char>>,
    moves: Seq<Seq<char>>,
    muts: Seq<Seq<char>>,
    name: Seq<char>,
    i: int,
)
    requires
        0 <= i <= args.len(),
    ensures
        ({
            let r = classify_args_spec(args, env, cx, all, moves, muts, i);
            &&& count_name_spec(r.0, name, 0, 0) == count_name_spec(all, name, 0, 0) + uses_of(
                args,
                env,
                cx,
                name,
                i,
            )
            &&& (r.1.contains(name) || r.2.contains(name)) <==> (moves.contains(name)
                || muts.contains(name) || exists|j: int|
                i <= j < args.len() && takes(#[trigger] args[j], env, cx, name))
        }),
    decreases args.len() - i,
{
    if i < args.len() {
        let arg = args[i];
        let m = moved_arg_spec(arg, env, cx);
        let s = shared_arg_spec(arg);
        let x = exclusive_arg_spec(arg);
        if m is Some {
            counted_behind(all, m->0, name, 0, 0);
            listed_behind(moves, m->0, name);
        }
        if s is Some {
            counted_behind(all, s->0, name, 0, 0);
        }
        if x is Some {
            counted_behind(all, x->0, name, 0, 0);
            listed_behind(muts, x->0, name);
        }
        let next_all = push_some_spec(push_some_spec(push_some_spec(all, m), s), x);
        let next_moves = push_some_spec(moves, m);
        let next_muts = push_some_spec(muts, x);
        arguments_classified(args, env, cx, next_all, next_moves, next_muts, name, i + 1);
        if exists|j: int| i <= j < args.len() && takes(#[trigger] args[j], env, cx, name) {
            let j = choose|j: int| i <= j < args.len() && takes(#[trigger] args[j], env, cx, name);
            if j != i {
                assert(i + 1 <= j < args.len() && takes(args[j], env, cx, name));
            }
        }
    }
}

/// Whether a name that occurs more than once is neither given away nor
/// borrowed exclusively.
spec fn used_well(
    name: Seq<char>,
    names: Seq<Seq<char>>,
    moves: Seq<Seq<char>>,
    muts: Seq<Seq<char>>,
) -> bool {
    count_name_spec(names, name, 0, 0) > 1 ==> !moves.contains(name) && !muts.contains(name)
}

proof fn aliases_reported(
    names: Seq<Seq<char>>,
    moves: Seq<Seq<char>>,
    muts: Seq<Seq<char>>,
    span: Span,
    done: Seq<Seq<char>>,
    st: StateView,
    i: int,
)
    requires
        0 <= i <= names.len(),
        forall|j: int|
            0 <= j < done.len() ==> exists|k: int| 0 <= k < i && names[k] == #[trigger] done[j],
    ensures
        ({
            let r = check_aliases_spec(names, moves, muts, span, done, st, i);
            &&& r.1.diagnostics.len() >= st.diagnostics.len()
            &&& (forall|j: int| i <= j < names.len() ==> used_well(#[trigger] names[j], names, moves, muts))
                ==> r.1 == st
            &&& (forall|j: int|
                i <= j < names.len() && !done.contains(names[j]) ==> used_well(
                    #[trigger] names[j],
                    names,
                    moves,
                    muts,
                )) || r.1.diagnostics.len() > st.diagnostics.len()
        }),
    decreases names.len() - i,
{
    if i < names.len() {
        let name = names[i];
        if done.contains(name) {
            assert forall|j: int| 0 <= j < done.len() implies exists|k: int|
                0 <= k < i + 1 && names[k] == #[trigger] done[j] by {
                let k = choose|k: int| 0 <= k < i && names[k] == done[j];
                assert(names[k] == done[j]);
            }
            aliases_reported(names, moves, muts, span, done, st, i + 1);
        } else {
            let next = check_alias_spec(name, names, moves, muts, span, st);
            let more = done.push(name);
            assert forall|j: int| 0 <= j < more.len() implies exists|k: int|
                0 <= k < i + 1 && names[k] == #[trigger] more[j] by {
                if j < done.len() {
                    let k = choose|k: int| 0 <= k < i && names[k] == done[j];
                    assert(names[k] == more[j]);
                } else {
                    assert(names[i] == more[j]);
                }
            }
            assert(crate::effects::reported_unless(used_well(name, names, moves, muts), st, next));
            aliases_reported(names, moves, muts, span, more, next, i + 1);
            let r = check_aliases_spec(names, moves, muts, span, done, st, i);
            assert(r == check_aliases_spec(names, moves, muts, span, more, next, i + 1));
            if r.1.diagnostics.len() == st.diagnostics.len() {
                assert forall|j: int| i <= j < names.len()
                    && !done.contains(names[j]) implies used_well(
                    #[trigger] names[j],
                    names,
                    moves,
                    muts,
                ) by {
                    listed_behind(done, name, names[j]);
                }
            }
        }
    }
}

proof fn counted_is_listed(names: Seq<Seq<char>>, name: Seq<char>, c: int, i: int)
    requires
        0 <= i <= names.len(),
        count_name_spec(names, name, c, i) > c,
    ensures
        exists|j: int| i <= j < names.len() && #[trigger] names[j] == name,
    decreases names.len() - i,
{
    if i < names.len() && names[i] != name {
        counted_is_listed(names, name, c, i + 1);
        let j = choose|j: int| i + 1 <= j < names.len() && #[trigger] names[j] == name;
        assert(names[j] == name);
    }
}

/// The arguments of a call pass exactly where none of them gives away or
/// borrows exclusively what another one uses; otherwise something is reported.
pub proof fn aliasing_arguments_are_reported(
    args: Seq<ExprView>,
    span: Span,
    cx: ContextView,
    st: StateView,
)
    ensures
        crate::effects::reported_unless(
            no_argument_aliases(args, st.env, cx),
            st,
            check_arg_aliasing_spec(args, span, cx, st),
        ),
{
    let none = Seq::<Seq<char>>::empty();
    let (all, moves, muts) = classify_args_spec(args, st.env, cx, none, none, none, 0);
    aliases_reported(all, moves, muts, span, none, st, 0);
    if no_argument_aliases(args, st.env, cx) {
        assert forall|j: int| 0 <= j < all.len() implies used_well(
            #[trigger] all[j],
            all,
            moves,
            muts,
        ) by {
            arguments_classified(args, st.env, cx, none, none, none, all[j], 0);
            if moves.contains(all[j]) || muts.contains(all[j]) {
                let k = choose|k: int| 0 <= k < args.len()
                    && takes(#[trigger] args[k], st.env, cx, all[j]);
                assert(takes(args[k], st.env, cx, all[j]));
            }
        }
    } else {
        let (name, j) = choose|name: Seq<char>, j: int|
            0 <= j < args.len() && #[trigger] takes(args[j], st.env, cx, name) && uses_of(
                args,
                st.env,
                cx,
                name,
                0,
            ) > 1;
        arguments_classified(args, st.env, cx, none, none, none, name, 0);
        assert(takes(args[j], st.env, cx, name));
        counted_is_listed(all, name, 0, 0);
        let k = choose|k: int| 0 <= k < all.len() && #[trigger] all[k] == name;
        assert(!used_well(all[k], all, moves, muts));
    }
}

/// Whether a name may be used as a value: it is bound and was not moved, or it
/// is not bound and names a function.
pub open spec fn usable(name: Seq<char>, cx: ContextView, env: EnvView) -> bool {
    match crate::scope::lookup_spec(env, name) {
        Some(info) => info.moved is None,
        None => crate::scope::signature_has_spec(cx.signatures, name),
    }
}

/// A name is reported exactly where it is unknown or its value was moved.
pub proof fn unusable_names_are_reported(
    name: Seq<char>,
    span: Span,
    cx: ContextView,
    st: StateView,
)
    ensures
        crate::effects::reported_unless(
            usable(name, cx, st.env),
            st,
            check_var_spec(name, span, cx, st).1,
        ),
{
}

/// What was taken cannot be used again: after its value is taken a variable is
/// reported wherever it is used.
pub proof fn used_after_move_is_reported(
    name: Seq<char>,
    taken: Span,
    used: Span,
    cx: ContextView,
    st: StateView,
)
    requires
        crate::scope::lookup_spec(st.env, name) is Some,
    ensures
        ({
            let after = StateView { env: crate::moves::mark_moved_spec(st.env, name, taken), ..st };
            check_var_spec(name, used, cx, after).1.diagnostics.len() > st.diagnostics.len()
        }),
{
    crate::moves::taken_variable_is_moved(st.env, name, taken, name);
}

} // verus!
