//! Checking whole programs.

use vstd::prelude::*;
use crate::ast::{
    EnumDecl, EnumDeclView, Expr, ExprView, Function, FunctionView, IntentDecl, IntentDeclView,
    Param, ParamView, Program, ProgramView, Span, StructDecl, StructDeclView, Type, TypeView,
    dup_exprs, type_text,
};
use crate::body::{check_stmt_list};
use crate::calls::{is_nominal};
use crate::diagnostic::{Diagnostic, DiagnosticView};
use crate::effects::{verify_pure_body, verify_task_affine};
use crate::hoist::{
    desugar_try_let_in_program, hoist_impls_into_functions, hoist_methods_into_functions,
};
use crate::ir::{
    TypedEnumDecl, TypedEnumDeclView, TypedExpr, TypedExprView, TypedFunction, TypedFunctionView,
    TypedParam, TypedParamView, TypedProgram, TypedProgramView, TypedStmt, TypedStmtView,
    TypedStructDecl, TypedStructDeclView,
};
use crate::mono::{monomorphize_generics_in_program};
use crate::moves::{validate_param_type};
use crate::numeric::{require_type};
use crate::prove::{binding_types};
use crate::registry::{
    field_types, idle_bounds, owning_enums, owning_structs, payload_types, register, strip_suffix,
    variant_names,
};
use crate::resolve::{
    resolve_enum_types_in_program, resolve_type_aliases, substitute_aliases_in_program,
};
use crate::scope::{
    all_bindings, array_versions, ask, current_has, diag, fresh_var, insert_current, report,
};
use crate::signatures::{collect_signatures, validate_main};
use crate::state::{
    Answer, AnswerView, ConstInfo, ConstInfoView, Context, ContextView, Env, EnvView, Query,
    QueryView, Registry, RegistryView, State, StateView, VarInfo, VarInfoView, dup_enum_infos,
    dup_struct_infos,
};
use crate::statements::{check_value};
use crate::text::{cat3, cat4, join, push, str_eq};
use crate::typing::{Declared};

verus! {

broadcast use {
    crate::text::group_text_views,
    crate::ast::group_ast_views,
    crate::diagnostic::group_diagnostic_views,
    crate::ir::group_ir_views,
    crate::state::group_state_views,
    crate::state::group_extends,
    crate::typing::leaves_are_typed,
};

/// A program without errors: its syntax after every rewriting, and its typed
/// form.
#[derive(Debug, PartialEq)]
pub struct CheckedProgram {
    pub program: Program,
    pub ir: TypedProgram,
}

/// The mathematical content of a [`CheckedProgram`].
pub struct CheckedProgramView {
    pub program: ProgramView,
    pub ir: TypedProgramView,
}

pub open spec fn checked_program_view(x: CheckedProgram) -> CheckedProgramView
{
    CheckedProgramView {
        program: crate::ast::program_view(x.program),
        ir: crate::ir::typed_program_view(x.ir),
    }
}

impl View for CheckedProgram {
    type V = CheckedProgramView;

    open spec fn view(&self) -> CheckedProgramView {
        checked_program_view(*self)
    }
}

impl CheckedProgram {
    /// A copy with the same content.
    pub fn dup(&self) -> (r: Self)
        ensures
            r@ == self@,
    {
        CheckedProgram {
            program: self.program.dup(),
            ir: self.ir.dup(),
        }
    }
}

/// What checking a program came to.
#[derive(Debug, PartialEq)]
pub enum CheckOutcome {
    Accepted(CheckedProgram),
    /// What is wrong with the program, in the order in which it was found.
    Rejected(Vec<Diagnostic>),
    /// A question that the answers given did not reach.
    Pending(Query),
}

/// The mathematical content of a [`CheckOutcome`].
pub enum CheckOutcomeView {
    Accepted(CheckedProgramView),
    Rejected(Seq<DiagnosticView>),
    Pending(QueryView),
}

pub open spec fn check_outcome_view(x: CheckOutcome) -> CheckOutcomeView
{
    match x {
        CheckOutcome::Accepted(a) => CheckOutcomeView::Accepted(checked_program_view(a)),
        CheckOutcome::Rejected(a) => CheckOutcomeView::Rejected(crate::diagnostic::diagnostics_view(a@)),
        CheckOutcome::Pending(a) => CheckOutcomeView::Pending(crate::state::query_view(a)),
    }
}

impl View for CheckOutcome {
    type V = CheckOutcomeView;

    open spec fn view(&self) -> CheckOutcomeView {
        check_outcome_view(*self)
    }
}

impl CheckOutcome {
    /// A copy with the same content.
    pub fn dup(&self) -> (r: Self)
        ensures
            r@ == self@,
    {
        match self {
            CheckOutcome::Accepted(a) => CheckOutcome::Accepted(a.dup()),
            CheckOutcome::Rejected(a) => CheckOutcome::Rejected(crate::diagnostic::dup_diagnostics(a)),
            CheckOutcome::Pending(a) => CheckOutcome::Pending(a.dup()),
        }
    }
}

/// Whether the conditions of a contract are well-typed truth values.
pub open spec fn conditions_typed(es: Seq<TypedExprView>, d: Declared) -> bool {
    forall|i: int| 0 <= i < es.len() ==> crate::typing::well_typed(
        #[trigger] es[i],
        d,
    ) && es[i].ty == TypeView::Bool
}

/// What is checked of a typed function as a whole: it is well typed, control
/// never runs past its end, a pure one has no side effect, and its tasks are
/// joined once.
pub open spec fn function_is_sound(f: TypedFunctionView, cx: ContextView, d: Declared) -> bool {
    conditions_typed(f.requires, d) && crate::typing::body_typed(f.body, f.return_type, d)
        && crate::statements::always_leaves(f.body) && (
    f.is_pure
        ==> crate::effects::have_no_effect(f.body, cx, 0)) && crate::effects::tasks_joined_once(f.body)
}

/// What the functions of a lowered program know of each other.
pub open spec fn context_of(p: ProgramView, verify: bool) -> ContextView {
    ContextView {
        signatures: crate::signatures::collect_signatures_spec(p, Seq::empty()).0,
        owning_structs: crate::registry::owning_structs_spec(p),
        owning_enums: crate::registry::owning_enums_spec(p),
        verify,
    }
}

/// Whether a typed function is that of a declaration.
pub open spec fn declares(f: FunctionView, t: TypedFunctionView) -> bool {
    f.type_params.len() == 0 && t.name == f.name && t.return_type == f.return_type
        && t.is_pure == f.is_pure
}

/// What a program with the given tables declares.
pub open spec fn declared_by(cx: ContextView, reg: RegistryView) -> Declared {
    Declared { signatures: cx.signatures, structs: reg.structs, enums: reg.enums }
}

/// What an accepted program is: its signatures, its `main` and its
/// declarations give nothing to report, and each of its functions is sound.
pub open spec fn accepted_is_sound(c: CheckedProgramView, verify: bool) -> bool {
    let cx = context_of(c.program, verify);
    let reg = crate::registry::register_spec(c.program, cx, Seq::empty()).0;
    &&& crate::signatures::collect_signatures_spec(c.program, Seq::empty()).1.len() == 0
    &&& crate::scope::signature_get_spec(cx.signatures, "main"@) matches Some(main)
        && main.params.len() == 0
        && main.return_type == TypeView::I64
    &&& crate::registry::register_spec(c.program, cx, Seq::empty()).1.len() == 0
    &&& c.ir.functions.len() == c.program.functions.len()
    &&& forall|j: int|
        0 <= j < c.ir.functions.len() ==> function_is_sound(
            #[trigger] c.ir.functions[j],
            cx,
            declared_by(cx, reg),
        )
            && declares(c.program.functions[j], c.ir.functions[j])
}

/// What [`bind_consts`] computes from position `i` on.
pub open spec fn bind_consts_spec(
    cs: Seq<(Seq<char>, ConstInfoView)>,
    env: EnvView,
    i: int,
) -> EnvView
    decreases cs.len() - i,
{
    if 0 <= i < cs.len() {
        let c = cs[i];
        let env = {
            let info = VarInfoView {
                is_const: true,
                ..crate::scope::fresh_var_spec(c.1.ty, Some(c.1.value), c.1.decl_span)
            };
            crate::scope::insert_current_spec(env, c.0, info)
        };
        bind_consts_spec(cs, env, i + 1)
    } else {
        env
    }
}

/// The bindings of the constants.
pub fn bind_consts(cs: &Vec<(String, ConstInfo)>, env: Env) -> (r: Env)
    ensures
        r@ == bind_consts_spec(crate::state::const_infos_view(cs@), env@, 0),
        crate::state::same_scopes(env@, r@),
{
    let ghost whole_run = bind_consts_spec(crate::state::const_infos_view(cs@), env@, 0);
    let ghost start_env = env@;
    let mut env = env;
    let mut i: usize = 0;
    while i < cs.len()
        invariant
            i <= cs.len(),
            bind_consts_spec(crate::state::const_infos_view(cs@), env@, i as int) == whole_run,
            crate::state::same_scopes(start_env, env@),
        decreases cs.len() - i,
    {
        let c = &cs[i];
        env = {
            let info = VarInfo {
                is_const: true,
                ..fresh_var(c.1.ty.dup(), Some(c.1.value.dup()), c.1.decl_span)
            };
            insert_current(env, &c.0, &info)
        };
        i += 1;
    }
    env
}

/// What [`start_env`] computes.
pub open spec fn start_env_spec(reg: RegistryView) -> EnvView
{
    let env = EnvView {
        scopes: Seq::empty().push(Seq::empty()),
        structs: (reg.structs),
        enums: (reg.enums),
    };
    bind_consts_spec(reg.consts, env, 0)
}

/// The bindings that a function's body starts from.
pub fn start_env(reg: &Registry) -> (r: Env)
    ensures
        r@ == start_env_spec(reg@),
        r@.scopes.len() > 0,
        r@.structs == reg@.structs,
        r@.enums == reg@.enums,
{
    let env = Env {
        scopes: push(Vec::new(), Vec::new()),
        structs: dup_struct_infos(&reg.structs),
        enums: dup_enum_infos(&reg.enums),
    };
    bind_consts(&reg.consts, env)
}

/// What [`is_dropped_self`] computes.
pub open spec fn is_dropped_self_spec(p: ParamView, function_name: Seq<char>) -> bool
{
    p.name == "self"@ && crate::registry::strip_suffix_spec(function_name, "_drop"@).is_some()
        && crate::calls::is_nominal_spec(p.ty)
}

/// Whether a parameter is the receiver of a drop function, which must not be
/// dropped again.
pub fn is_dropped_self(p: &Param, function_name: &str) -> (r: bool)
    ensures
        r == is_dropped_self_spec(p@, function_name@),
{
    str_eq(&p.name, "self") && strip_suffix(function_name, "_drop").is_some() && is_nominal(&p.ty)
}

/// What [`check_params`] computes from position `i` on.
pub open spec fn check_params_spec(
    ps: Seq<ParamView>,
    function_name: Seq<char>,
    cx: ContextView,
    out: Seq<TypedParamView>,
    st: StateView,
    i: int,
) -> (Seq<TypedParamView>, StateView)
    decreases ps.len() - i,
{
    if 0 <= i < ps.len() {
        let p = ps[i];
        let (out, st) = {
            let st = crate::moves::validate_param_type_spec(p.ty, p.span, cx, st);
            let st = if crate::scope::current_has_spec(st.env, p.name) {
                crate::scope::report_spec(
                    st,
                    p.span,
                    "parameter '"@ + p.name + "' is already defined"@,
                )
            } else {
                st
            };
            let info = VarInfoView {
                no_drop: is_dropped_self_spec(p, function_name),
                ..crate::scope::fresh_var_spec(p.ty, None, p.span)
            };
            let env = crate::scope::insert_current_spec(st.env, p.name, info);
            let param = TypedParamView { name: p.name, ty: p.ty, name_span: p.name_span };
            (out.push(param), StateView { env, ..st })
        };
        check_params_spec(ps, function_name, cx, out, st, i + 1)
    } else {
        (out, st)
    }
}

/// Binds the parameters of a function.
pub fn check_params(
    ps: &Vec<Param>,
    function_name: &str,
    cx: &Context,
    out: Vec<TypedParam>,
    st: State,
) -> (r: (Vec<TypedParam>, State))
    ensures
        (crate::ir::typed_params_view(r.0@), r.1@) == check_params_spec(
            crate::ast::params_view(ps@),
            function_name@,
            cx@,
            crate::ir::typed_params_view(out@),
            st@,
            0,
        ),
        crate::state::follows(st@, r.1@),
        crate::state::balanced(st@, r.1@),
{
    let ghost whole_run = check_params_spec(
        crate::ast::params_view(ps@),
        function_name@,
        cx@,
        crate::ir::typed_params_view(out@),
        st@,
        0,
    );
    let ghost start_st = st@;
    let mut out = out;
    let mut st = st;
    let mut i: usize = 0;
    while i < ps.len()
        invariant
            i <= ps.len(),
            check_params_spec(
                crate::ast::params_view(ps@),
                function_name@,
                cx@,
                crate::ir::typed_params_view(out@),
                st@,
                i as int,
            ) == whole_run,
            crate::state::follows(start_st, st@),
            crate::state::balanced(start_st, st@),
        decreases ps.len() - i,
    {
        let p = &ps[i];
        let next = {
            let st = validate_param_type(&p.ty, p.span, cx, st);
            let st = if current_has(&st.env, &p.name) {
                report(st, p.span, cat3("parameter '", &p.name, "' is already defined"))
            } else {
                st
            };
            let info = VarInfo {
                no_drop: is_dropped_self(p, function_name),
                ..fresh_var(p.ty.dup(), None, p.span)
            };
            let env = insert_current(st.env, &p.name, &info);
            let param = TypedParam { name: p.name.clone(), ty: p.ty.dup(), name_span: p.name_span };
            (push(out, param), State { env, ..st })
        };
        out = next.0;
        st = next.1;
        i += 1;
    }
    (out, st)
}

/// What [`check_clauses`] computes from position `i` on.
pub open spec fn check_clauses_spec(
    es: Seq<ExprView>,
    context: Seq<char>,
    cx: ContextView,
    out: Seq<TypedExprView>,
    st: StateView,
    i: int,
) -> (Seq<TypedExprView>, StateView)
    decreases es.len() - i,
{
    if 0 <= i < es.len() {
        let e = es[i];
        let (out, st) = {
            let (c, st) = crate::statements::check_value_spec(e, cx, st);
            let st = crate::numeric::require_type_spec(
                c.expr.ty,
                TypeView::Bool,
                e.span,
                context,
                st,
            );
            (out.push(c.expr), st)
        };
        check_clauses_spec(es, context, cx, out, st, i + 1)
    } else {
        (out, st)
    }
}

/// Checks the clauses of a contract, which have to be truth values.
pub fn check_clauses(
    es: &Vec<Expr>,
    context: &str,
    cx: &Context,
    out: Vec<TypedExpr>,
    st: State,
) -> (r: (Vec<TypedExpr>, State))
    ensures
        (crate::ir::typed_exprs_view(r.0@), r.1@) == check_clauses_spec(
            crate::ast::exprs_view(es@),
            context@,
            cx@,
            crate::ir::typed_exprs_view(out@),
            st@,
            0,
        ),
        st@.env.scopes.len() > 0
            && conditions_typed(
                crate::ir::typed_exprs_view(out@),
                crate::typing::declared_in(cx@, st@.env),
            )
            && crate::typing::quiet(st@, r.1@)
            ==> conditions_typed(
                crate::ir::typed_exprs_view(r.0@),
                crate::typing::declared_in(cx@, st@.env),
            ),
        crate::state::follows(st@, r.1@),
        crate::state::balanced(st@, r.1@),
        crate::typing::all_typed(
            crate::ir::typed_exprs_view(out@),
            crate::typing::declared_in(cx@, st@.env),
        )
            && st@.env.scopes.len() > 0
            && crate::typing::quiet(st@, r.1@)
            ==> crate::typing::all_typed(
                crate::ir::typed_exprs_view(r.0@),
                crate::typing::declared_in(cx@, st@.env),
            ),
{
    let ghost whole_run = check_clauses_spec(
        crate::ast::exprs_view(es@),
        context@,
        cx@,
        crate::ir::typed_exprs_view(out@),
        st@,
        0,
    );
    let ghost start_st = st@;
    let ghost start_out = crate::ir::typed_exprs_view(out@);
    let mut out = out;
    let mut st = st;
    let mut i: usize = 0;
    while i < es.len()
        invariant
            i <= es.len(),
            check_clauses_spec(
                crate::ast::exprs_view(es@),
                context@,
                cx@,
                crate::ir::typed_exprs_view(out@),
                st@,
                i as int,
            ) == whole_run,
            crate::state::follows(start_st, st@),
            crate::state::balanced(start_st, st@),
            start_st.env.scopes.len() > 0
                && conditions_typed(start_out, crate::typing::declared_in(cx@, start_st.env))
                && crate::typing::quiet(start_st, st@)
                ==> conditions_typed(
                    crate::ir::typed_exprs_view(out@),
                    crate::typing::declared_in(cx@, start_st.env),
                ),
            crate::typing::all_typed(start_out, crate::typing::declared_in(cx@, start_st.env))
                && start_st.env.scopes.len() > 0
                && crate::typing::quiet(start_st, st@)
                ==> crate::typing::all_typed(
                    crate::ir::typed_exprs_view(out@),
                    crate::typing::declared_in(cx@, start_st.env),
                ),
        decreases es.len() - i,
    {
        let e = &es[i];
        let next = {
            let (c, st) = check_value(e, cx, st);
            let st = require_type(&c.expr.ty, &Type::Bool, e.span, context, st);
            (push(out, c.expr), st)
        };
        out = next.0;
        st = next.1;
        i += 1;
    }
    (out, st)
}

/// What [`check_ensures`] computes.
pub open spec fn check_ensures_spec(f: FunctionView, cx: ContextView, st: StateView) -> StateView
{
    let before = st.env;
    let env = crate::scope::insert_current_spec(
        st.env,
        "_return"@,
        crate::scope::fresh_var_spec(f.return_type, None, f.span),
    );
    let (_, st) = check_clauses_spec(
        f.ensures,
        "ensures condition"@,
        cx,
        Seq::empty(),
        StateView { env, ..st },
        0,
    );
    StateView { env: before, ..st }
}

/// Checks what a function ensures, with its result in scope.
pub fn check_ensures(f: &Function, cx: &Context, st: State) -> (r: State)
    ensures
        r@ == check_ensures_spec(f@, cx@, st@),
        crate::state::follows(st@, r@),
        crate::state::balanced(st@, r@),
{
    let before = st.env.dup();
    let env = insert_current(st.env, "_return", &fresh_var(f.return_type.dup(), None, f.span));
    let (_, st) = check_clauses(
        &f.ensures,
        "ensures condition",
        cx,
        Vec::new(),
        State { env, ..st },
    );
    State { env: before, ..st }
}

/// What [`check_satisfiable`] computes.
pub open spec fn check_satisfiable_spec(
    f: FunctionView,
    cx: ContextView,
    st: StateView,
) -> StateView
{
    if f.requires.len() > 0 && cx.verify {
        let q = QueryView::Satisfy {
            facts: (f.requires),
            vars: crate::prove::binding_types_spec(crate::scope::all_bindings_spec(st.env)),
            versions: crate::scope::array_versions_spec(st.env),
        };
        match crate::scope::ask_spec(q, st) {
            (Some(AnswerView::Unsatisfiable(b)), st) => if b {
                let message = "function '"@ + f.name
                    + "' has contradictory 'requires' clauses; every proof in its body is vacuously true and the function is unreachable"@;
                crate::scope::report_spec(st, f.span, message)
            } else {
                st
            },
            (_, st) => st,
        }
    } else {
        st
    }
}

/// Reports requirements that nothing can meet.
pub fn check_satisfiable(f: &Function, cx: &Context, st: State) -> (r: State)
    ensures
        r@ == check_satisfiable_spec(f@, cx@, st@),
        crate::state::follows(st@, r@),
        crate::state::balanced(st@, r@),
{
    if f.requires.len() > 0 && cx.verify {
        let q = Query::Satisfy {
            facts: dup_exprs(&f.requires),
            vars: binding_types(&all_bindings(&st.env)),
            versions: array_versions(&st.env),
        };
        match ask(q, st) {
            (Some(Answer::Unsatisfiable(b)), st) => if b {
                let message = cat3(
                    "function '",
                    &f.name,
                    "' has contradictory 'requires' clauses; every proof in its body is vacuously true and the function is unreachable",
                );
                report(st, f.span, message)
            } else {
                st
            },
            (_, st) => st,
        }
    } else {
        st
    }
}

/// What [`bare_function`] computes.
pub open spec fn bare_function_spec(f: FunctionView) -> TypedFunctionView
{
    TypedFunctionView {
        name: f.name,
        params: Seq::empty(),
        return_type: f.return_type,
        requires: Seq::empty(),
        body: Seq::empty(),
        is_pure: f.is_pure,
        span: f.span,
    }
}

pub fn bare_function(f: &Function) -> (r: TypedFunction)
    ensures
        r@ == bare_function_spec(f@),
{
    TypedFunction {
        name: f.name.clone(),
        params: Vec::new(),
        return_type: f.return_type.dup(),
        requires: Vec::new(),
        body: Vec::new(),
        is_pure: f.is_pure,
        span: f.span,
    }
}

/// What [`check_body`] computes.
#[verifier::opaque]
pub open spec fn check_body_spec(
    f: FunctionView,
    cx: ContextView,
    st: StateView,
) -> (bool, Seq<TypedStmtView>, StateView)
{
    crate::body::check_stmt_list_spec(f.body, f, Seq::empty(), cx, st)
}

/// [`check_stmt_list`] on the whole body of a function.
pub fn check_body(f: &Function, cx: &Context, st: State) -> (r: (bool, Vec<TypedStmt>, State))
    ensures
        (r.0, crate::ir::typed_stmts_view(r.1@), r.2@) == check_body_spec(f@, cx@, st@),
        r.0 ==> crate::statements::always_leaves(crate::ir::typed_stmts_view(r.1@)),
        crate::state::follows(st@, r.2@),
        crate::state::balanced(st@, r.2@),
        st@.env.scopes.len() > 0
            && crate::typing::quiet(st@, r.2@)
            ==> crate::typing::body_typed(
                crate::ir::typed_stmts_view(r.1@),
                f@.return_type,
                crate::typing::declared_in(cx@, st@.env),
            ),
{
    proof {
        reveal(check_body_spec);
    }
    check_stmt_list(&f.body, f, &Vec::new(), cx, st)
}

/// What [`verify_pure_function`] computes.
#[verifier::opaque]
pub open spec fn verify_pure_function_spec(
    f: FunctionView,
    body: Seq<TypedStmtView>,
    cx: ContextView,
    st: StateView,
) -> StateView
{
    crate::effects::verify_pure_body_spec(body, cx, "pure fn '"@ + f.name + "'"@, st, 0)
}

/// [`verify_pure_body`] on the body of a pure function.
pub fn verify_pure_function(
    f: &Function,
    body: &Vec<TypedStmt>,
    cx: &Context,
    st: State,
) -> (r: State)
    ensures
        r@ == verify_pure_function_spec(f@, crate::ir::typed_stmts_view(body@), cx@, st@),
        crate::effects::reported_unless(
            crate::effects::have_no_effect(crate::ir::typed_stmts_view(body@), cx@, 0),
            st@,
            r@,
        ),
        crate::state::follows(st@, r@),
        crate::state::balanced(st@, r@),
{
    proof {
        reveal(verify_pure_function_spec);
        crate::effects::impure_bodies_are_reported(
            crate::ir::typed_stmts_view(body@),
            cx@,
            "pure fn '"@ + f.name@ + "'"@,
            st@,
        );
    }
    verify_pure_body(body, cx, &cat3("pure fn '", &f.name, "'"), st)
}

/// What [`check_whole_body`] computes.
pub open spec fn check_whole_body_spec(
    f: FunctionView,
    terminated: bool,
    body: Seq<TypedStmtView>,
    cx: ContextView,
    st: StateView,
) -> StateView
{
    let st = if terminated {
        st
    } else {
        crate::scope::report_spec(
            st,
            f.span,
            "function '"@ + f.name + "' must return a "@
                + crate::ast::type_text_spec(f.return_type),
        )
    };
    let st = if f.is_pure { verify_pure_function_spec(f, body, cx, st) } else { st };
    crate::effects::verify_task_affine_spec(body, st)
}

/// What holds of a checked body as a whole.
pub fn check_whole_body(
    f: &Function,
    terminated: bool,
    body: &Vec<TypedStmt>,
    cx: &Context,
    st: State,
) -> (r: State)
    ensures
        r@ == check_whole_body_spec(f@, terminated, crate::ir::typed_stmts_view(body@), cx@, st@),
        r@.diagnostics.len() <= st@.diagnostics.len() ==> terminated
            && (f.is_pure ==> crate::effects::have_no_effect(crate::ir::typed_stmts_view(body@), cx@, 0))
            && crate::effects::tasks_joined_once(crate::ir::typed_stmts_view(body@)),
        crate::state::follows(st@, r@),
        crate::state::balanced(st@, r@),
{
    proof {
        reveal(crate::state::extends);
    }
    let st = if terminated {
        st
    } else {
        report(
            st,
            f.span,
            cat4("function '", &f.name, "' must return a ", &type_text(&f.return_type)),
        )
    };
    let st = if f.is_pure { verify_pure_function(f, body, cx, st) } else { st };
    verify_task_affine(body, st)
}

/// What [`check_function`] computes.
#[verifier::opaque]
pub open spec fn check_function_spec(
    f: FunctionView,
    reg: RegistryView,
    cx: ContextView,
    st: StateView,
) -> (TypedFunctionView, StateView)
{
    if f.type_params.len() > 0 {
        let message = "generic function '"@ + f.name
            + "' is declared but never called with concrete types — monomorphization couldn't specialize it. Either call it from a non-generic call site or remove the declaration."@;
        (bare_function_spec(f), crate::scope::report_spec(st, f.span, message))
    } else {
        let (params, st) = check_params_spec(
            f.params,
            f.name,
            cx,
            Seq::empty(),
            StateView { env: start_env_spec(reg), ..st },
            0,
        );
        let (requires_, st) = check_clauses_spec(
            f.requires,
            "requires condition"@,
            cx,
            Seq::empty(),
            st,
            0,
        );
        let st = check_ensures_spec(f, cx, st);
        let st = check_satisfiable_spec(f, cx, st);
        let facts = (f.requires);
        let (terminated, body, st) = check_body_spec(f, cx, StateView { facts, ..st });
        let st = check_whole_body_spec(f, terminated, body, cx, st);
        (
            TypedFunctionView {
                name: f.name,
                params,
                return_type: f.return_type,
                requires: requires_,
                body,
                is_pure: f.is_pure,
                span: f.span,
            },
            st,
        )
    }
}

/// Checks one function: its parameters, its contract and its body.
pub fn check_function(
    f: &Function,
    reg: &Registry,
    cx: &Context,
    st: State,
) -> (r: (TypedFunction, State))
    ensures
        (r.0@, r.1@) == check_function_spec(f@, reg@, cx@, st@),
        r.1@.diagnostics.len() <= st@.diagnostics.len()
            ==> function_is_sound(r.0@, cx@, declared_by(cx@, reg@))
            && declares(f@, r.0@),
        crate::state::follows(st@, r.1@),
{
    proof {
        reveal(check_function_spec); reveal(crate::state::extends);
    }
    if f.type_params.len() > 0 {
        let message = cat3(
            "generic function '",
            &f.name,
            "' is declared but never called with concrete types — monomorphization couldn't specialize it. Either call it from a non-generic call site or remove the declaration.",
        );
        (bare_function(f), report(st, f.span, message))
    } else {
        let (params, st) = check_params(
            &f.params,
            &f.name,
            cx,
            Vec::new(),
            State { env: start_env(reg), ..st },
        );
        proof {
            assert(crate::typing::declared_in(cx@, st@.env) == declared_by(cx@, reg@));
        }
        let (requires_, st) = check_clauses(&f.requires, "requires condition", cx, Vec::new(), st);
        let st = check_ensures(f, cx, st);
        let st = check_satisfiable(f, cx, st);
        let facts = dup_exprs(&f.requires);
        proof {
            assert(crate::typing::declared_in(cx@, st@.env) == declared_by(cx@, reg@));
        }
        let (terminated, body, st) = check_body(f, cx, State { facts, ..st });
        let st = check_whole_body(f, terminated, &body, cx, st);
        (
            TypedFunction {
                name: f.name.clone(),
                params,
                return_type: f.return_type.dup(),
                requires: requires_,
                body,
                is_pure: f.is_pure,
                span: f.span,
            },
            st,
        )
    }
}

/// What [`check_functions`] computes from position `i` on.
pub open spec fn check_functions_spec(
    fs: Seq<FunctionView>,
    reg: RegistryView,
    cx: ContextView,
    out: Seq<TypedFunctionView>,
    st: StateView,
    i: int,
) -> (Seq<TypedFunctionView>, StateView)
    decreases fs.len() - i,
{
    if 0 <= i < fs.len() {
        let f = fs[i];
        let (out, st) = {
            let (t, st) = check_function_spec(f, reg, cx, st);
            (out.push(t), st)
        };
        check_functions_spec(fs, reg, cx, out, st, i + 1)
    } else {
        (out, st)
    }
}

/// Checks the functions in order.
pub fn check_functions(
    fs: &Vec<Function>,
    reg: &Registry,
    cx: &Context,
    out: Vec<TypedFunction>,
    st: State,
) -> (r: (Vec<TypedFunction>, State))
    ensures
        (crate::ir::typed_functions_view(r.0@), r.1@) == check_functions_spec(
            crate::ast::functions_view(fs@),
            reg@,
            cx@,
            crate::ir::typed_functions_view(out@),
            st@,
            0,
        ),
        r.0@.len() == out@.len() + fs@.len(),
        r.1@.diagnostics.len() == 0 ==> forall|j: int| out@.len() <= j < r.0@.len()
            ==> function_is_sound(
                #[trigger] crate::ir::typed_functions_view(r.0@)[j],
                cx@,
                declared_by(cx@, reg@),
            )
            && declares(
                crate::ast::functions_view(fs@)[j - out@.len()],
                crate::ir::typed_functions_view(r.0@)[j],
            ),
        crate::state::follows(st@, r.1@),
{
    let ghost whole_run = check_functions_spec(
        crate::ast::functions_view(fs@),
        reg@,
        cx@,
        crate::ir::typed_functions_view(out@),
        st@,
        0,
    );
    let ghost start_st = st@;
    let ghost start_out = crate::ir::typed_functions_view(out@);
    let mut out = out;
    let mut st = st;
    let mut i: usize = 0;
    while i < fs.len()
        invariant
            i <= fs.len(),
            check_functions_spec(
                crate::ast::functions_view(fs@),
                reg@,
                cx@,
                crate::ir::typed_functions_view(out@),
                st@,
                i as int,
            ) == whole_run,
            crate::state::follows(start_st, st@),
            out@.len() == start_out.len() + i, st@.diagnostics.len() == 0
                ==> forall|j: int| start_out.len() <= j < out@.len()
                ==> function_is_sound(
                    #[trigger] crate::ir::typed_functions_view(out@)[j],
                    cx@,
                    declared_by(cx@, reg@),
                )
                && declares(
                    crate::ast::functions_view(fs@)[j - start_out.len()],
                    crate::ir::typed_functions_view(out@)[j],
                ),
        decreases fs.len() - i,
    {
        let f = &fs[i];
        let next = {
            proof {
                reveal(crate::state::extends);
            }
            let (t, st) = check_function(f, reg, cx, st);
            (push(out, t), st)
        };
        out = next.0;
        st = next.1;
        i += 1;
    }
    (out, st)
}

/// What [`intent_texts`] computes.
pub open spec fn intent_texts_spec(ds: Seq<IntentDeclView>) -> Seq<Seq<char>>
{
    ds.map_values(|d: IntentDeclView| d.text)
}

pub fn intent_texts(ds: &Vec<IntentDecl>) -> (r: Vec<String>)
    ensures
        crate::text::strs_view(r@) == intent_texts_spec(crate::ast::intents_view(ds@)),
{
    let ghost whole = intent_texts_spec(crate::ast::intents_view(ds@));
    let ghost all = crate::ast::intents_view(ds@);
    let mut r: Vec<String> = Vec::new();
    let mut i: usize = 0;
    while i < ds.len()
        invariant
            i <= ds.len(),
            all == crate::ast::intents_view(ds@),
            whole == intent_texts_spec(crate::ast::intents_view(ds@)),
            crate::text::strs_view(r@) == whole.take(i as int),
        decreases ds.len() - i,
    {
        let d = &ds[i];
        assert(all[i as int] == d@);
        r.push(d.text.clone());
        assert(whole.take(i + 1) =~= whole.take(i as int).push(whole[i as int]));
        i += 1;
    }
    assert(whole.take(i as int) =~= whole);
    r
}

/// What [`typed_structs`] computes.
pub open spec fn typed_structs_spec(ds: Seq<StructDeclView>) -> Seq<TypedStructDeclView>
{
    ds.map_values(
        |d: StructDeclView| TypedStructDeclView {
            name: d.name,
            fields: crate::registry::field_types_spec(d.fields),
        },
    )
}

pub fn typed_structs(ds: &Vec<StructDecl>) -> (r: Vec<TypedStructDecl>)
    ensures
        crate::ir::typed_structs_view(r@) == typed_structs_spec(crate::ast::structs_view(ds@)),
{
    let ghost whole = typed_structs_spec(crate::ast::structs_view(ds@));
    let ghost all = crate::ast::structs_view(ds@);
    let mut r: Vec<TypedStructDecl> = Vec::new();
    let mut i: usize = 0;
    while i < ds.len()
        invariant
            i <= ds.len(),
            all == crate::ast::structs_view(ds@),
            whole == typed_structs_spec(crate::ast::structs_view(ds@)),
            crate::ir::typed_structs_view(r@) == whole.take(i as int),
        decreases ds.len() - i,
    {
        let d = &ds[i];
        assert(all[i as int] == d@);
        r.push(TypedStructDecl { name: d.name.clone(), fields: field_types(&d.fields) });
        assert(whole.take(i + 1) =~= whole.take(i as int).push(whole[i as int]));
        i += 1;
    }
    assert(whole.take(i as int) =~= whole);
    r
}

/// What [`typed_enums`] computes.
pub open spec fn typed_enums_spec(ds: Seq<EnumDeclView>) -> Seq<TypedEnumDeclView>
{
    ds.map_values(|d: EnumDeclView| TypedEnumDeclView {
        name: d.name,
        variants: crate::registry::variant_names_spec(d.variants),
        payload_types: crate::registry::payload_types_spec(d.variants),
    })
}

pub fn typed_enums(ds: &Vec<EnumDecl>) -> (r: Vec<TypedEnumDecl>)
    ensures
        crate::ir::typed_enums_view(r@) == typed_enums_spec(crate::ast::enums_view(ds@)),
{
    let ghost whole = typed_enums_spec(crate::ast::enums_view(ds@));
    let ghost all = crate::ast::enums_view(ds@);
    let mut r: Vec<TypedEnumDecl> = Vec::new();
    let mut i: usize = 0;
    while i < ds.len()
        invariant
            i <= ds.len(),
            all == crate::ast::enums_view(ds@),
            whole == typed_enums_spec(crate::ast::enums_view(ds@)),
            crate::ir::typed_enums_view(r@) == whole.take(i as int),
        decreases ds.len() - i,
    {
        let d = &ds[i];
        assert(all[i as int] == d@);
        r.push(TypedEnumDecl {
            name: d.name.clone(),
            variants: variant_names(&d.variants),
            payload_types: payload_types(&d.variants),
        });
        assert(whole.take(i + 1) =~= whole.take(i as int).push(whole[i as int]));
        i += 1;
    }
    assert(whole.take(i as int) =~= whole);
    r
}

/// What [`typed_program`] computes.
pub open spec fn typed_program_spec(
    p: ProgramView,
    functions: Seq<TypedFunctionView>,
) -> TypedProgramView
{
    TypedProgramView {
        intents: intent_texts_spec(p.intents),
        functions,
        structs: typed_structs_spec(p.structs),
        enums: typed_enums_spec(p.enums),
    }
}

/// The checked declarations of a program.
pub fn typed_program(p: &Program, functions: Vec<TypedFunction>) -> (r: TypedProgram)
    ensures
        r@ == typed_program_spec(p@, crate::ir::typed_functions_view(functions@)),
{
    TypedProgram {
        intents: intent_texts(&p.intents),
        functions,
        structs: typed_structs(&p.structs),
        enums: typed_enums(&p.enums),
    }
}

/// What [`lower`] computes.
pub open spec fn lower_spec(p: ProgramView) -> Result<(
    ProgramView,
    Seq<DiagnosticView>,
), (Span, Seq<char>)>
{
    let p = crate::resolve::resolve_enum_types_in_program_spec(p);
    match crate::resolve::resolve_type_aliases_spec(p) {
        Err(error) => Err(error),
        Ok(aliases) => {
            let p = if aliases.len() > 0 { crate::resolve::substitute_aliases_in_program_spec(p, aliases) } else { p };
            let (p, diags) = crate::hoist::hoist_methods_into_functions_spec(p, Seq::empty());
            let (p, diags) = crate::hoist::desugar_try_let_in_program_spec(p, diags);
            let (p, diags) = crate::mono::monomorphize_generics_in_program_spec(p, diags);
            let (p, diags) = crate::hoist::hoist_impls_into_functions_spec(p, diags);
            let diags = diags + crate::registry::idle_bounds_spec(p.functions);
            Ok((p, diags))
        },
    }
}

/// The program after every rewriting, and what was reported on the way; or
/// the place and the reason where its type aliases cannot be resolved.
pub fn lower(p: &Program) -> (r: Result<(Program, Vec<Diagnostic>), (Span, String)>)
    ensures
        (match &r { Ok(v0) => Ok((v0.0@, crate::diagnostic::diagnostics_view(v0.1@))), Err(v0) => Err((v0.0, v0.1@)) }) == lower_spec(p@),
{
    let p = resolve_enum_types_in_program(p);
    match resolve_type_aliases(&p) {
        Err(error) => Err(error),
        Ok(aliases) => {
            let p = if aliases.len() > 0 { substitute_aliases_in_program(&p, &aliases) } else { p };
            let (p, diags) = hoist_methods_into_functions(&p, Vec::new());
            let (p, diags) = desugar_try_let_in_program(&p, diags);
            let (p, diags) = monomorphize_generics_in_program(&p, diags);
            let (p, diags) = hoist_impls_into_functions(&p, diags);
            let diags = join(diags, idle_bounds(&p.functions));
            Ok((p, diags))
        },
    }
}

/// What [`start_state`] computes.
pub open spec fn start_state_spec(
    diagnostics: Seq<DiagnosticView>,
    answers: Seq<AnswerView>,
) -> StateView
{
    StateView {
        env: EnvView { scopes: Seq::empty(), structs: Seq::empty(), enums: Seq::empty() },
        diagnostics,
        facts: Seq::empty(),
        answers,
        used: 0,
        pending: None,
    }
}

/// The state in which the check of the functions starts.
pub fn start_state(diagnostics: Vec<Diagnostic>, answers: Vec<Answer>) -> (r: State)
    ensures
        r@ == start_state_spec(
            crate::diagnostic::diagnostics_view(diagnostics@),
            crate::state::answers_view(answers@),
        ),
{
    State {
        env: Env { scopes: Vec::new(), structs: Vec::new(), enums: Vec::new() },
        diagnostics,
        facts: Vec::new(),
        answers,
        used: 0,
        pending: None,
    }
}

/// What [`check_lowered`] computes.
pub open spec fn check_lowered_spec(
    p: ProgramView,
    diags: Seq<DiagnosticView>,
    verify: bool,
    answers: Seq<AnswerView>,
) -> CheckOutcomeView
{
    let (signatures, diags) = crate::signatures::collect_signatures_spec(p, diags);
    let diags = crate::signatures::validate_main_spec(p, signatures, diags);
    let cx = ContextView {
        signatures,
        owning_structs: crate::registry::owning_structs_spec(p),
        owning_enums: crate::registry::owning_enums_spec(p),
        verify,
    };
    let (reg, diags) = crate::registry::register_spec(p, cx, diags);
    let (functions, st) = check_functions_spec(
        p.functions,
        reg,
        cx,
        Seq::empty(),
        start_state_spec(diags, answers),
        0,
    );
    match st.pending {
        Some(q) => CheckOutcomeView::Pending(q),
        None => if st.diagnostics.len() == 0 {
            let ir = typed_program_spec(p, functions);
            CheckOutcomeView::Accepted(CheckedProgramView { program: p, ir })
        } else {
            CheckOutcomeView::Rejected(st.diagnostics)
        },
    }
}

/// Checks a lowered program.
pub fn check_lowered(
    p: Program,
    diags: Vec<Diagnostic>,
    verify: bool,
    answers: Vec<Answer>,
) -> (r: CheckOutcome)
    ensures
        r@ == check_lowered_spec(
            p@,
            crate::diagnostic::diagnostics_view(diags@),
            verify,
            crate::state::answers_view(answers@),
        ),
        r matches CheckOutcome::Accepted(c) ==> diags@.len() == 0 && c@.program == p@
            && accepted_is_sound(c@, verify),
        r matches CheckOutcome::Rejected(ds) ==> ds@.len() > 0,
{
    proof {
        reveal(crate::state::extends);
        assert(
            crate::diagnostic::diagnostics_view(diags@).len() == 0
                ==> crate::diagnostic::diagnostics_view(diags@) =~= Seq::empty()
        );
    }
    let (signatures, diags) = collect_signatures(&p, diags);
    let diags = validate_main(&p, &signatures, diags);
    let cx = Context {
        signatures,
        owning_structs: owning_structs(&p),
        owning_enums: owning_enums(&p),
        verify,
    };
    let (reg, diags) = register(&p, &cx, diags);
    let (functions, st) = check_functions(
        &p.functions,
        &reg,
        &cx,
        Vec::new(),
        start_state(diags, answers),
    );
    match st.pending {
        Some(q) => CheckOutcome::Pending(q),
        None => if st.diagnostics.len() == 0 {
            let ir = typed_program(&p, functions);
            CheckOutcome::Accepted(CheckedProgram { program: p, ir })
        } else {
            CheckOutcome::Rejected(st.diagnostics)
        },
    }
}

/// What [`check`] computes.
pub open spec fn check_spec(
    program: ProgramView,
    verify: bool,
    answers: Seq<AnswerView>,
) -> CheckOutcomeView
{
    match lower_spec(program) {
        Err((at, message)) => CheckOutcomeView::Rejected(
            Seq::empty().push(crate::scope::diag_spec(at, message)),
        ),
        Ok((p, diags)) => check_lowered_spec(p, diags, verify, answers),
    }
}

/// Checks a program against the answers to the questions that it asks, in the
/// order in which it asks them: its typed form, what is wrong with it, or the
/// first question that no answer was given for. With that answer added, the
/// same call goes on from there. Obligations are asked about only where
/// `verify` is set.
pub fn check(program: Program, verify: bool, answers: Vec<Answer>) -> (r: CheckOutcome)
    ensures
        r@ == check_spec(program@, verify, crate::state::answers_view(answers@)),
        r matches CheckOutcome::Accepted(c) ==> accepted_is_sound(c@, verify)
            && lower_spec(program@) == Ok::<(
                ProgramView,
                Seq<DiagnosticView>,
            ), (Span, Seq<char>)>((c@.program, Seq::empty())),
        r matches CheckOutcome::Rejected(ds) ==> ds@.len() > 0,
{
    match lower(&program) {
        Err((at, message)) => CheckOutcome::Rejected(push(Vec::new(), diag(at, message))),
        Ok((p, diags)) => check_lowered(p, diags, verify, answers),
    }
}

} // verus!
