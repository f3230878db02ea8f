//! Specialising generic functions to the types they are called with.

use vstd::prelude::*;
use crate::ast::{
    Expr, ExprKind, ExprKindView, ExprView, Function, FunctionView, ImplDecl, ImplDeclView, Param,
    ParamView, PrintItem, PrintItemView, Program, ProgramView, Span, Stmt, StmtView, Type,
    TypeView, WhereClause, WhereClauseView, dup_exprs, type_text,
};
use crate::construct::{mk_binary, mk_call, mk_unary};
use crate::diagnostic::{Diagnostic, DiagnosticView};
use crate::hoist::{has_function};
use crate::resolve::{rewrite_function_types};
use crate::scope::{diag, named_type_get, named_type_put};
use crate::state::{TypeRewrite, TypeRewriteView};
use crate::text::{
    cat2, cat3, cat5, cat7, chars_of, contains_str, extend, int_text, join, push, str_eq, text,
    text_of, usize_text,
};
use crate::types::{type_eq};

verus! {

broadcast use {
    crate::text::group_text_views,
    crate::ast::group_ast_views,
    crate::diagnostic::group_diagnostic_views,
    crate::ir::group_ir_views,
    crate::state::group_state_views,
    crate::state::group_extends,
};

/// The characters that a mangled name does not keep.
pub open spec fn is_punctuation_spec(c: char) -> bool {
    c == ' ' || c == '<' || c == '>' || c == ',' || c == '(' || c == ')' || c == '"' || c == '{'
        || c == '}' || c == ':'
}

/// A text with every such character replaced by an underscore.
pub open spec fn replace_punctuation_spec(s: Seq<char>) -> Seq<char> {
    s.map_values(|c: char| if is_punctuation_spec(c) { '_' } else { c })
}

pub fn replace_punctuation(s: &str) -> (r: String)
    ensures
        r@ == replace_punctuation_spec(s@),
{
    let cs = chars_of(s);
    let mut out: Vec<char> = Vec::new();
    let mut i: usize = 0;
    while i < cs.len()
        invariant
            i <= cs.len(),
            out.len() == i,
            cs@ == s@,
            forall|j: int| 0 <= j < i ==> out@[j] == replace_punctuation_spec(s@)[j],
        decreases cs.len() - i,
    {
        let c = cs[i];
        let keep = !(c == ' ' || c == '<' || c == '>' || c == ',' || c == '(' || c == ')' || c == '"'
            || c == '{' || c == '}' || c == ':');
        out.push(if keep { c } else { '_' });
        i += 1;
    }
    assert(out@ =~= replace_punctuation_spec(s@));
    text_of(&out)
}

/// What [`type_debug`] computes.
pub open spec fn type_debug_spec(t: TypeView) -> Seq<char>
    decreases t, 0int,
{
    match t {
        TypeView::I8 => "I8"@,
        TypeView::I16 => "I16"@,
        TypeView::I32 => "I32"@,
        TypeView::I64 => "I64"@,
        TypeView::U8 => "U8"@,
        TypeView::U16 => "U16"@,
        TypeView::U32 => "U32"@,
        TypeView::U64 => "U64"@,
        TypeView::F32 => "F32"@,
        TypeView::F64 => "F64"@,
        TypeView::Bool => "Bool"@,
        TypeView::Str => "Str"@,
        TypeView::OwnedStr => "OwnedStr"@,
        TypeView::Task => "Task"@,
        TypeView::Struct(name) => "Struct(\""@ + name + "\")"@,
        TypeView::Enum(name) => "Enum(\""@ + name + "\")"@,
        TypeView::Param(name) => "Param(\""@ + name + "\")"@,
        TypeView::Vec(inner) => "Vec("@ + type_debug_spec(*inner) + ")"@,
        TypeView::Ref(inner) => "Ref("@ + type_debug_spec(*inner) + ")"@,
        TypeView::RefMut(inner) => "RefMut("@ + type_debug_spec(*inner) + ")"@,
        TypeView::Atomic(inner) => "Atomic("@ + type_debug_spec(*inner) + ")"@,
        TypeView::Mutex(inner) => "Mutex("@ + type_debug_spec(*inner) + ")"@,
        TypeView::Guard(inner) => "Guard("@ + type_debug_spec(*inner) + ")"@,
        TypeView::Array {
            element,
            length,
        } => "Array { element: "@ + type_debug_spec(*element) + ", length: "@ + crate::text::decimal((length as i128) as int) + " }"@,
        TypeView::Channel(
            inner,
            capacity,
        ) => "Channel("@ + type_debug_spec(*inner) + ", "@ + crate::text::decimal((capacity as i128) as int) + ")"@,
        TypeView::Tuple(elements) => "Tuple(["@ + type_debugs_spec(elements, ""@, 0) + "])"@,
        TypeView::FnPtr(params, ret) => "FnPtr(["@ + type_debugs_spec(
            params,
            ""@,
            0,
        ) + "], "@ + type_debug_spec(*ret) + ")"@,
    }
}

/// A type in constructor notation.
pub fn type_debug(t: &Type) -> (r: String)
    ensures
        r@ == type_debug_spec(t@),
    decreases t, 0int,
{
    match t {
        Type::I8 => text("I8"),
        Type::I16 => text("I16"),
        Type::I32 => text("I32"),
        Type::I64 => text("I64"),
        Type::U8 => text("U8"),
        Type::U16 => text("U16"),
        Type::U32 => text("U32"),
        Type::U64 => text("U64"),
        Type::F32 => text("F32"),
        Type::F64 => text("F64"),
        Type::Bool => text("Bool"),
        Type::Str => text("Str"),
        Type::OwnedStr => text("OwnedStr"),
        Type::Task => text("Task"),
        Type::Struct(name) => cat3("Struct(\"", name, "\")"),
        Type::Enum(name) => cat3("Enum(\"", name, "\")"),
        Type::Param(name) => cat3("Param(\"", name, "\")"),
        Type::Vec(inner) => cat3("Vec(", &type_debug(&**inner), ")"),
        Type::Ref(inner) => cat3("Ref(", &type_debug(&**inner), ")"),
        Type::RefMut(inner) => cat3("RefMut(", &type_debug(&**inner), ")"),
        Type::Atomic(inner) => cat3("Atomic(", &type_debug(&**inner), ")"),
        Type::Mutex(inner) => cat3("Mutex(", &type_debug(&**inner), ")"),
        Type::Guard(inner) => cat3("Guard(", &type_debug(&**inner), ")"),
        Type::Array { element, length } => cat5(
            "Array { element: ",
            &type_debug(&**element),
            ", length: ",
            &int_text(*length as i128),
            " }",
        ),
        Type::Channel(inner, capacity) => cat5(
            "Channel(",
            &type_debug(&**inner),
            ", ",
            &int_text(*capacity as i128),
            ")",
        ),
        Type::Tuple(elements) => cat3("Tuple([", &type_debugs(elements, text("")), "])"),
        Type::FnPtr(params, ret) => cat5(
            "FnPtr([",
            &type_debugs(params, text("")),
            "], ",
            &type_debug(&**ret),
            ")",
        ),
    }
}

/// What [`type_debugs`] computes from position `i` on.
pub open spec fn type_debugs_spec(ts: Seq<TypeView>, out: Seq<char>, i: int) -> Seq<char>
    decreases ts, ts.len() - i,
{
    if 0 <= i < ts.len() {
        let t = ts[i];
        let out = {
            let out = if i > 0 { out + ", "@ } else { out };
            out + type_debug_spec(t)
        };
        type_debugs_spec(ts, out, i + 1)
    } else {
        out
    }
}

pub fn type_debugs(ts: &Vec<Type>, out: String) -> (r: String)
    ensures
        r@ == type_debugs_spec(crate::ast::types_view(ts@), out@, 0),
    decreases ts, ts.len(),
{
    let ghost whole_run = type_debugs_spec(crate::ast::types_view(ts@), out@, 0);
    let mut out = out;
    let mut i: usize = 0;
    while i < ts.len()
        invariant
            i <= ts.len(),
            type_debugs_spec(crate::ast::types_view(ts@), out@, i as int) == whole_run,
        decreases ts.len() - i,
    {
        let t = &ts[i];
        out = {
            let out = if i > 0 { extend(out, ", ") } else { out };
            extend(out, &type_debug(t))
        };
        i += 1;
    }
    out
}

/// What [`type_mangle`] computes.
pub open spec fn type_mangle_spec(t: TypeView) -> Seq<char>
{
    match t {
        TypeView::I64 => "i64"@,
        TypeView::I32 => "i32"@,
        TypeView::I16 => "i16"@,
        TypeView::I8 => "i8"@,
        TypeView::U64 => "u64"@,
        TypeView::U32 => "u32"@,
        TypeView::U16 => "u16"@,
        TypeView::U8 => "u8"@,
        TypeView::F64 => "f64"@,
        TypeView::F32 => "f32"@,
        TypeView::Bool => "bool"@,
        TypeView::Str => "Str"@,
        TypeView::OwnedStr => "OwnedStr"@,
        TypeView::Struct(name) => "Struct_"@ + name,
        TypeView::Enum(name) => "Enum_"@ + name,
        _ => replace_punctuation_spec(type_debug_spec(t)),
    }
}

/// A type as part of the name of a specialised function.
pub fn type_mangle(t: &Type) -> (r: String)
    ensures
        r@ == type_mangle_spec(t@),
{
    match t {
        Type::I64 => text("i64"),
        Type::I32 => text("i32"),
        Type::I16 => text("i16"),
        Type::I8 => text("i8"),
        Type::U64 => text("u64"),
        Type::U32 => text("u32"),
        Type::U16 => text("u16"),
        Type::U8 => text("u8"),
        Type::F64 => text("f64"),
        Type::F32 => text("f32"),
        Type::Bool => text("bool"),
        Type::Str => text("Str"),
        Type::OwnedStr => text("OwnedStr"),
        Type::Struct(name) => cat2("Struct_", name),
        Type::Enum(name) => cat2("Enum_", name),
        _ => replace_punctuation(&type_debug(t)),
    }
}

/// What [`generic_templates`] computes.
pub open spec fn generic_templates_spec(fs: Seq<FunctionView>) -> Seq<FunctionView>
{
    fs.filter(|f: FunctionView| f.type_params.len() > 0)
}

/// The functions with type parameters.
pub fn generic_templates(fs: &Vec<Function>) -> (r: Vec<Function>)
    ensures
        crate::ast::functions_view(r@) == generic_templates_spec(crate::ast::functions_view(fs@)),
{
    let ghost all = crate::ast::functions_view(fs@);
    let mut r: Vec<Function> = Vec::new();
    let mut i: usize = 0;
    proof {
        reveal(Seq::filter);
        assert(all.take(0) =~= Seq::empty());
    }
    while i < fs.len()
        invariant
            i <= fs.len(),
            all == crate::ast::functions_view(fs@),
            crate::ast::functions_view(r@) == generic_templates_spec(all.take(i as int)),
        decreases fs.len() - i,
    {
        let f = &fs[i];
        proof {
            reveal(Seq::filter);
            assert(all[i as int] == f@);
            assert(all.take(i + 1).drop_last() =~= all.take(i as int));
            assert(all.take(i + 1).last() == all[i as int]);
        }
        if f.type_params.len() > 0 {
            r.push(f.dup());
        }
        i += 1;
    }
    assert(all.take(i as int) =~= all);
    r
}

/// What [`find_template`] computes from position `i` on.
pub open spec fn find_template_spec(
    fs: Seq<FunctionView>,
    name: Seq<char>,
    found: Option<FunctionView>,
    i: int,
) -> Option<FunctionView>
    decreases fs.len() - i,
{
    if 0 <= i < fs.len() {
        let f = fs[i];
        let found = if f.name == name { Some(f) } else { found };
        find_template_spec(fs, name, found, i + 1)
    } else {
        found
    }
}

/// The last generic function of a name.
pub fn find_template(
    fs: &Vec<Function>,
    name: &str,
    found: Option<Function>,
) -> (r: Option<Function>)
    ensures
        (match &r { Some(v0) => Some(v0@), None => None }) == find_template_spec(
            crate::ast::functions_view(fs@),
            name@,
            (match &found { Some(v0) => Some(v0@), None => None }),
            0,
        ),
{
    let ghost whole_run = find_template_spec(
        crate::ast::functions_view(fs@),
        name@,
        (match &found { Some(v0) => Some(v0@), None => None }),
        0,
    );
    let mut found = found;
    let mut i: usize = 0;
    while i < fs.len()
        invariant
            i <= fs.len(),
            find_template_spec(
                crate::ast::functions_view(fs@),
                name@,
                (match &found { Some(v0) => Some(v0@), None => None }),
                i as int,
            ) == whole_run,
        decreases fs.len() - i,
    {
        let f = &fs[i];
        found = if str_eq(&f.name, name) { Some(f.dup()) } else { found };
        i += 1;
    }
    found
}

/// What [`infer_from_first`] computes.
pub open spec fn infer_from_first_spec(
    args: Seq<ExprView>,
    scope: Seq<(Seq<char>, TypeView)>,
) -> Option<TypeView>
{
    if args.len() == 0 {
        None
    } else {
        match args[0].kind {
            ExprKindView::Int(_) => Some(TypeView::I64),
            ExprKindView::Float(_) => Some(TypeView::F64),
            ExprKindView::Bool(_) => Some(TypeView::Bool),
            ExprKindView::Var(name) => crate::scope::named_type_get_spec(scope, name),
            _ => None,
        }
    }
}

/// The type that a generic call is made at, by its first argument.
pub fn infer_from_first(args: &Vec<Expr>, scope: &Vec<(String, Type)>) -> (r: Option<Type>)
    ensures
        (match &r { Some(v0) => Some(v0@), None => None }) == infer_from_first_spec(
            crate::ast::exprs_view(args@),
            crate::ir::named_types_view(scope@),
        ),
{
    if args.len() == 0 {
        None
    } else {
        match &args[0].kind {
            ExprKind::Int(_) => Some(Type::I64),
            ExprKind::Float(_) => Some(Type::F64),
            ExprKind::Bool(_) => Some(Type::Bool),
            ExprKind::Var(name) => named_type_get(scope, name),
            _ => None,
        }
    }
}

/// What [`infer_concrete_type_for_call`] computes.
pub open spec fn infer_concrete_type_for_call_spec(
    args: Seq<ExprView>,
    scope: Seq<(Seq<char>, TypeView)>,
    span: Span,
    diags: Seq<DiagnosticView>,
) -> (Option<TypeView>, Seq<DiagnosticView>)
{
    if args.len() == 0 {
        (None, diags)
    } else {
        match infer_from_first_spec(args, scope) {
            Some(t) => (Some(t), diags),
            None => {
                let message = match args[0].kind {
                    ExprKindView::Var(name) => "cannot infer generic type parameter from variable '"@ + name + "' — the monomorphizer pre-pass only resolves bindings declared with a let-annotation or as a function parameter at the call site"@,
                    _ => "v1 generic-call inference supports literal arguments (integer / float / bool) or annotated variable bindings at the first position. More complex first-arg expressions need full type-checking context."@,
                };
                (None, diags.push(crate::scope::diag_spec(span, message)))
            },
        }
    }
}

/// [`infer_from_first`], reporting why a first argument tells nothing.
pub fn infer_concrete_type_for_call(
    args: &Vec<Expr>,
    scope: &Vec<(String, Type)>,
    span: Span,
    diags: Vec<Diagnostic>,
) -> (r: (Option<Type>, Vec<Diagnostic>))
    ensures
        ((match &r.0 { Some(v0) => Some(v0@), None => None }), crate::diagnostic::diagnostics_view(r.1@)) == infer_concrete_type_for_call_spec(
            crate::ast::exprs_view(args@),
            crate::ir::named_types_view(scope@),
            span,
            crate::diagnostic::diagnostics_view(diags@),
        ),
        crate::state::extends(
            crate::diagnostic::diagnostics_view(diags@),
            crate::diagnostic::diagnostics_view(r.1@),
        ),
{
    if args.len() == 0 {
        (None, diags)
    } else {
        match infer_from_first(args, scope) {
            Some(t) => (Some(t), diags),
            None => {
                let message = match &args[0].kind {
                    ExprKind::Var(name) => cat3(
                        "cannot infer generic type parameter from variable '",
                        name,
                        "' — the monomorphizer pre-pass only resolves bindings declared with a let-annotation or as a function parameter at the call site",
                    ),
                    _ => text(
                        "v1 generic-call inference supports literal arguments (integer / float / bool) or annotated variable bindings at the first position. More complex first-arg expressions need full type-checking context.",
                    ),
                };
                (None, push(diags, diag(span, message)))
            },
        }
    }
}

/// What [`has_need`] computes.
pub open spec fn has_need_spec(
    needed: Seq<(Seq<char>, TypeView)>,
    name: Seq<char>,
    t: TypeView,
) -> bool
{
    exists|i: int|
        #![trigger needed[i]]
        0 <= i < needed.len() && needed[i].0 == name && needed[i].1 == t
}

/// Whether the function is needed for the type.
pub fn has_need(needed: &Vec<(String, Type)>, name: &str, t: &Type) -> (r: bool)
    ensures
        r == has_need_spec(crate::ir::named_types_view(needed@), name@, t@),
{
    let ghost all = crate::ir::named_types_view(needed@);
    let mut i: usize = 0;
    while i < needed.len()
        invariant
            i <= needed.len(),
            all == crate::ir::named_types_view(needed@),
            forall|j: int|
                #![trigger all[j]]
                0 <= j < i ==> !(all[j].0 == name@ && all[j].1 == t@),
        decreases needed.len() - i,
    {
        let n = &needed[i];
        assert(all[i as int] == (n.0@, n.1@));
        if str_eq(&n.0, name) && type_eq(&n.1, t) {
            return true;
        }
        i += 1;
    }
    false
}

/// What [`names_need`] computes.
pub open spec fn names_need_spec(needed: Seq<(Seq<char>, TypeView)>, name: Seq<char>) -> bool
{
    exists|i: int|
        #![trigger needed[i]]
        0 <= i < needed.len() && needed[i].0 == name
}

/// Whether the function is needed for any type.
pub fn names_need(needed: &Vec<(String, Type)>, name: &str) -> (r: bool)
    ensures
        r == names_need_spec(crate::ir::named_types_view(needed@), name@),
{
    let ghost all = crate::ir::named_types_view(needed@);
    let mut i: usize = 0;
    while i < needed.len()
        invariant
            i <= needed.len(),
            all == crate::ir::named_types_view(needed@),
            forall|j: int|
                #![trigger all[j]]
                0 <= j < i ==> !(all[j].0 == name@),
        decreases needed.len() - i,
    {
        let n = &needed[i];
        assert(all[i as int] == (n.0@, n.1@));
        if str_eq(&n.0, name) {
            return true;
        }
        i += 1;
    }
    false
}

/// What [`collect_generic_calls_in_expr`] computes.
pub open spec fn collect_generic_calls_in_expr_spec(
    e: ExprView,
    generics: Seq<FunctionView>,
    scope: Seq<(Seq<char>, TypeView)>,
    needed: Seq<(Seq<char>, TypeView)>,
    diags: Seq<DiagnosticView>,
) -> (Seq<(Seq<char>, TypeView)>, Seq<DiagnosticView>)
    decreases e, 0int,
{
    match e.kind {
        ExprKindView::Call { name, args, .. } => {
            let (needed, diags) = if crate::hoist::has_function_spec(generics, name) {
                match infer_concrete_type_for_call_spec(args, scope, e.span, diags) {
                    (Some(t), diags) => if has_need_spec(needed, name, t) {
                        (needed, diags)
                    } else {
                        (needed.push((name, t)), diags)
                    },
                    (None, diags) => (needed, diags),
                }
            } else {
                (needed, diags)
            };
            collect_generic_calls_in_exprs_spec(args, generics, scope, needed, diags, 0)
        },
        ExprKindView::Binary { left, right, .. } => {
            let (needed, diags) = collect_generic_calls_in_expr_spec(
                *left,
                generics,
                scope,
                needed,
                diags,
            );
            collect_generic_calls_in_expr_spec(*right, generics, scope, needed, diags)
        },
        ExprKindView::Unary { expr, .. } => collect_generic_calls_in_expr_spec(
            *expr,
            generics,
            scope,
            needed,
            diags,
        ),
        _ => (needed, diags),
    }
}

/// The generic calls in an expression, each with the type it is made at.
pub fn collect_generic_calls_in_expr(
    e: &Expr,
    generics: &Vec<Function>,
    scope: &Vec<(String, Type)>,
    needed: Vec<(String, Type)>,
    diags: Vec<Diagnostic>,
) -> (r: (Vec<(String, Type)>, Vec<Diagnostic>))
    ensures
        (crate::ir::named_types_view(r.0@), crate::diagnostic::diagnostics_view(r.1@)) == collect_generic_calls_in_expr_spec(
            e@,
            crate::ast::functions_view(generics@),
            crate::ir::named_types_view(scope@),
            crate::ir::named_types_view(needed@),
            crate::diagnostic::diagnostics_view(diags@),
        ),
        crate::state::extends(
            crate::diagnostic::diagnostics_view(diags@),
            crate::diagnostic::diagnostics_view(r.1@),
        ),
    decreases e, 0int,
{
    match &e.kind {
        ExprKind::Call { name, args, .. } => {
            let (needed, diags) = if has_function(generics, name) {
                match infer_concrete_type_for_call(args, scope, e.span, diags) {
                    (Some(t), diags) => if has_need(&needed, name, &t) {
                        (needed, diags)
                    } else {
                        (push(needed, (name.clone(), t)), diags)
                    },
                    (None, diags) => (needed, diags),
                }
            } else {
                (needed, diags)
            };
            collect_generic_calls_in_exprs(args, generics, scope, needed, diags)
        },
        ExprKind::Binary { left, right, .. } => {
            let (needed, diags) = collect_generic_calls_in_expr(
                &**left,
                generics,
                scope,
                needed,
                diags,
            );
            collect_generic_calls_in_expr(&**right, generics, scope, needed, diags)
        },
        ExprKind::Unary { expr, .. } => collect_generic_calls_in_expr(
            &**expr,
            generics,
            scope,
            needed,
            diags,
        ),
        _ => (needed, diags),
    }
}

/// What [`collect_generic_calls_in_exprs`] computes from position `i` on.
pub open spec fn collect_generic_calls_in_exprs_spec(
    es: Seq<ExprView>,
    generics: Seq<FunctionView>,
    scope: Seq<(Seq<char>, TypeView)>,
    needed: Seq<(Seq<char>, TypeView)>,
    diags: Seq<DiagnosticView>,
    i: int,
) -> (Seq<(Seq<char>, TypeView)>, Seq<DiagnosticView>)
    decreases es, es.len() - i,
{
    if 0 <= i < es.len() {
        let e = es[i];
        let (needed, diags) = collect_generic_calls_in_expr_spec(e, generics, scope, needed, diags);
        collect_generic_calls_in_exprs_spec(es, generics, scope, needed, diags, i + 1)
    } else {
        (needed, diags)
    }
}

/// Adds what the calls in expressions need.
pub fn collect_generic_calls_in_exprs(
    es: &Vec<Expr>,
    generics: &Vec<Function>,
    scope: &Vec<(String, Type)>,
    needed: Vec<(String, Type)>,
    diags: Vec<Diagnostic>,
) -> (r: (Vec<(String, Type)>, Vec<Diagnostic>))
    ensures
        (crate::ir::named_types_view(r.0@), crate::diagnostic::diagnostics_view(r.1@)) == collect_generic_calls_in_exprs_spec(
            crate::ast::exprs_view(es@),
            crate::ast::functions_view(generics@),
            crate::ir::named_types_view(scope@),
            crate::ir::named_types_view(needed@),
            crate::diagnostic::diagnostics_view(diags@),
            0,
        ),
        crate::state::extends(
            crate::diagnostic::diagnostics_view(diags@),
            crate::diagnostic::diagnostics_view(r.1@),
        ),
    decreases es, es.len(),
{
    let ghost whole_run = collect_generic_calls_in_exprs_spec(
        crate::ast::exprs_view(es@),
        crate::ast::functions_view(generics@),
        crate::ir::named_types_view(scope@),
        crate::ir::named_types_view(needed@),
        crate::diagnostic::diagnostics_view(diags@),
        0,
    );
    let ghost start_diags = crate::diagnostic::diagnostics_view(diags@);
    let mut needed = needed;
    let mut diags = diags;
    let mut i: usize = 0;
    while i < es.len()
        invariant
            i <= es.len(),
            collect_generic_calls_in_exprs_spec(
                crate::ast::exprs_view(es@),
                crate::ast::functions_view(generics@),
                crate::ir::named_types_view(scope@),
                crate::ir::named_types_view(needed@),
                crate::diagnostic::diagnostics_view(diags@),
                i as int,
            ) == whole_run,
            crate::state::extends(start_diags, crate::diagnostic::diagnostics_view(diags@)),
        decreases es.len() - i,
    {
        let e = &es[i];
        let next = collect_generic_calls_in_expr(e, generics, scope, needed, diags);
        needed = next.0;
        diags = next.1;
        i += 1;
    }
    (needed, diags)
}

/// What [`collect_generic_calls_in_items`] computes from position `i` on.
pub open spec fn collect_generic_calls_in_items_spec(
    items: Seq<PrintItemView>,
    generics: Seq<FunctionView>,
    scope: Seq<(Seq<char>, TypeView)>,
    needed: Seq<(Seq<char>, TypeView)>,
    diags: Seq<DiagnosticView>,
    i: int,
) -> (Seq<(Seq<char>, TypeView)>, Seq<DiagnosticView>)
    decreases items.len() - i,
{
    if 0 <= i < items.len() {
        let item = items[i];
        let (needed, diags) = match item {
            PrintItemView::Expr(e) => collect_generic_calls_in_expr_spec(
                e,
                generics,
                scope,
                needed,
                diags,
            ),
            PrintItemView::Str(_) => (needed, diags),
        };
        collect_generic_calls_in_items_spec(items, generics, scope, needed, diags, i + 1)
    } else {
        (needed, diags)
    }
}

/// Adds what the calls in a `print` need.
pub fn collect_generic_calls_in_items(
    items: &Vec<PrintItem>,
    generics: &Vec<Function>,
    scope: &Vec<(String, Type)>,
    needed: Vec<(String, Type)>,
    diags: Vec<Diagnostic>,
) -> (r: (Vec<(String, Type)>, Vec<Diagnostic>))
    ensures
        (crate::ir::named_types_view(r.0@), crate::diagnostic::diagnostics_view(r.1@)) == collect_generic_calls_in_items_spec(
            crate::ast::print_items_view(items@),
            crate::ast::functions_view(generics@),
            crate::ir::named_types_view(scope@),
            crate::ir::named_types_view(needed@),
            crate::diagnostic::diagnostics_view(diags@),
            0,
        ),
        crate::state::extends(
            crate::diagnostic::diagnostics_view(diags@),
            crate::diagnostic::diagnostics_view(r.1@),
        ),
{
    let ghost whole_run = collect_generic_calls_in_items_spec(
        crate::ast::print_items_view(items@),
        crate::ast::functions_view(generics@),
        crate::ir::named_types_view(scope@),
        crate::ir::named_types_view(needed@),
        crate::diagnostic::diagnostics_view(diags@),
        0,
    );
    let ghost start_diags = crate::diagnostic::diagnostics_view(diags@);
    let mut needed = needed;
    let mut diags = diags;
    let mut i: usize = 0;
    while i < items.len()
        invariant
            i <= items.len(),
            collect_generic_calls_in_items_spec(
                crate::ast::print_items_view(items@),
                crate::ast::functions_view(generics@),
                crate::ir::named_types_view(scope@),
                crate::ir::named_types_view(needed@),
                crate::diagnostic::diagnostics_view(diags@),
                i as int,
            ) == whole_run,
            crate::state::extends(start_diags, crate::diagnostic::diagnostics_view(diags@)),
        decreases items.len() - i,
    {
        let item = &items[i];
        let next = match item {
            PrintItem::Expr(e) => collect_generic_calls_in_expr(e, generics, scope, needed, diags),
            PrintItem::Str(_) => (needed, diags),
        };
        needed = next.0;
        diags = next.1;
        i += 1;
    }
    (needed, diags)
}

/// What [`annotate`] computes.
pub open spec fn annotate_spec(
    scope: Seq<(Seq<char>, TypeView)>,
    name: Seq<char>,
    annotation: Option<TypeView>,
) -> Seq<(Seq<char>, TypeView)>
{
    match annotation {
        Some(t) => crate::scope::named_type_put_spec(scope, name, t),
        None => scope,
    }
}

/// The scope after a `let`: an annotated name has its annotated type.
pub fn annotate(
    scope: Vec<(String, Type)>,
    name: &str,
    annotation: &Option<Type>,
) -> (r: Vec<(String, Type)>)
    ensures
        crate::ir::named_types_view(r@) == annotate_spec(
            crate::ir::named_types_view(scope@),
            name@,
            (match &annotation { Some(v0) => Some(v0@), None => None }),
        ),
{
    match annotation {
        Some(t) => named_type_put(&scope, name, t),
        None => scope,
    }
}

/// What [`collect_generic_calls_in_stmt`] computes.
pub open spec fn collect_generic_calls_in_stmt_spec(
    s: StmtView,
    generics: Seq<FunctionView>,
    scope: Seq<(Seq<char>, TypeView)>,
    needed: Seq<(Seq<char>, TypeView)>,
    diags: Seq<DiagnosticView>,
) -> (Seq<(Seq<char>, TypeView)>, Seq<(Seq<char>, TypeView)>, Seq<DiagnosticView>)
    decreases s, 0int,
{
    match s {
        StmtView::Let { name, annotation, expr, .. } => {
            let (needed, diags) = collect_generic_calls_in_expr_spec(
                expr,
                generics,
                scope,
                needed,
                diags,
            );
            (annotate_spec(scope, name, annotation), needed, diags)
        },
        StmtView::Assign { expr, .. } => {
            let (needed, diags) = collect_generic_calls_in_expr_spec(
                expr,
                generics,
                scope,
                needed,
                diags,
            );
            (scope, needed, diags)
        },
        StmtView::Return { expr, .. } => {
            let (needed, diags) = collect_generic_calls_in_expr_spec(
                expr,
                generics,
                scope,
                needed,
                diags,
            );
            (scope, needed, diags)
        },
        StmtView::Print { items, .. } => {
            let (needed, diags) = collect_generic_calls_in_items_spec(
                items,
                generics,
                scope,
                needed,
                diags,
                0,
            );
            (scope, needed, diags)
        },
        StmtView::If { cond, then_body, else_body, .. } => {
            let (needed, diags) = collect_generic_calls_in_expr_spec(
                cond,
                generics,
                scope,
                needed,
                diags,
            );
            let (scope, needed, diags) = collect_generic_calls_in_stmts_spec(
                then_body,
                generics,
                scope,
                needed,
                diags,
                0,
            );
            collect_generic_calls_in_stmts_spec(else_body, generics, scope, needed, diags, 0)
        },
        StmtView::While { cond, body, .. } => {
            let (needed, diags) = collect_generic_calls_in_expr_spec(
                cond,
                generics,
                scope,
                needed,
                diags,
            );
            collect_generic_calls_in_stmts_spec(body, generics, scope, needed, diags, 0)
        },
        _ => (scope, needed, diags),
    }
}

/// Adds what the calls in a statement need, and the types that it annotates.
pub fn collect_generic_calls_in_stmt(
    s: &Stmt,
    generics: &Vec<Function>,
    scope: Vec<(String, Type)>,
    needed: Vec<(String, Type)>,
    diags: Vec<Diagnostic>,
) -> (r: (Vec<(String, Type)>, Vec<(String, Type)>, Vec<Diagnostic>))
    ensures
        (crate::ir::named_types_view(r.0@), crate::ir::named_types_view(r.1@), crate::diagnostic::diagnostics_view(r.2@)) == collect_generic_calls_in_stmt_spec(
            s@,
            crate::ast::functions_view(generics@),
            crate::ir::named_types_view(scope@),
            crate::ir::named_types_view(needed@),
            crate::diagnostic::diagnostics_view(diags@),
        ),
        crate::state::extends(
            crate::diagnostic::diagnostics_view(diags@),
            crate::diagnostic::diagnostics_view(r.2@),
        ),
    decreases s, 0int,
{
    match s {
        Stmt::Let { name, annotation, expr, .. } => {
            let (needed, diags) = collect_generic_calls_in_expr(
                expr,
                generics,
                &scope,
                needed,
                diags,
            );
            (annotate(scope, name, annotation), needed, diags)
        },
        Stmt::Assign { expr, .. } => {
            let (needed, diags) = collect_generic_calls_in_expr(
                expr,
                generics,
                &scope,
                needed,
                diags,
            );
            (scope, needed, diags)
        },
        Stmt::Return { expr, .. } => {
            let (needed, diags) = collect_generic_calls_in_expr(
                expr,
                generics,
                &scope,
                needed,
                diags,
            );
            (scope, needed, diags)
        },
        Stmt::Print { items, .. } => {
            let (needed, diags) = collect_generic_calls_in_items(
                items,
                generics,
                &scope,
                needed,
                diags,
            );
            (scope, needed, diags)
        },
        Stmt::If { cond, then_body, else_body, .. } => {
            let (needed, diags) = collect_generic_calls_in_expr(
                cond,
                generics,
                &scope,
                needed,
                diags,
            );
            let (scope, needed, diags) = collect_generic_calls_in_stmts(
                then_body,
                generics,
                scope,
                needed,
                diags,
            );
            collect_generic_calls_in_stmts(else_body, generics, scope, needed, diags)
        },
        Stmt::While { cond, body, .. } => {
            let (needed, diags) = collect_generic_calls_in_expr(
                cond,
                generics,
                &scope,
                needed,
                diags,
            );
            collect_generic_calls_in_stmts(body, generics, scope, needed, diags)
        },
        _ => (scope, needed, diags),
    }
}

/// What [`collect_generic_calls_in_stmts`] computes from position `i` on.
pub open spec fn collect_generic_calls_in_stmts_spec(
    ss: Seq<StmtView>,
    generics: Seq<FunctionView>,
    scope: Seq<(Seq<char>, TypeView)>,
    needed: Seq<(Seq<char>, TypeView)>,
    diags: Seq<DiagnosticView>,
    i: int,
) -> (Seq<(Seq<char>, TypeView)>, Seq<(Seq<char>, TypeView)>, Seq<DiagnosticView>)
    decreases ss, ss.len() - i,
{
    if 0 <= i < ss.len() {
        let s = ss[i];
        let (scope, needed, diags) = collect_generic_calls_in_stmt_spec(
            s,
            generics,
            scope,
            needed,
            diags,
        );
        collect_generic_calls_in_stmts_spec(ss, generics, scope, needed, diags, i + 1)
    } else {
        (scope, needed, diags)
    }
}

/// Adds what the calls in statements need.
pub fn collect_generic_calls_in_stmts(
    ss: &Vec<Stmt>,
    generics: &Vec<Function>,
    scope: Vec<(String, Type)>,
    needed: Vec<(String, Type)>,
    diags: Vec<Diagnostic>,
) -> (r: (Vec<(String, Type)>, Vec<(String, Type)>, Vec<Diagnostic>))
    ensures
        (crate::ir::named_types_view(r.0@), crate::ir::named_types_view(r.1@), crate::diagnostic::diagnostics_view(r.2@)) == collect_generic_calls_in_stmts_spec(
            crate::ast::stmts_view(ss@),
            crate::ast::functions_view(generics@),
            crate::ir::named_types_view(scope@),
            crate::ir::named_types_view(needed@),
            crate::diagnostic::diagnostics_view(diags@),
            0,
        ),
        crate::state::extends(
            crate::diagnostic::diagnostics_view(diags@),
            crate::diagnostic::diagnostics_view(r.2@),
        ),
    decreases ss, ss.len(),
{
    let ghost whole_run = collect_generic_calls_in_stmts_spec(
        crate::ast::stmts_view(ss@),
        crate::ast::functions_view(generics@),
        crate::ir::named_types_view(scope@),
        crate::ir::named_types_view(needed@),
        crate::diagnostic::diagnostics_view(diags@),
        0,
    );
    let ghost start_diags = crate::diagnostic::diagnostics_view(diags@);
    let mut scope = scope;
    let mut needed = needed;
    let mut diags = diags;
    let mut i: usize = 0;
    while i < ss.len()
        invariant
            i <= ss.len(),
            collect_generic_calls_in_stmts_spec(
                crate::ast::stmts_view(ss@),
                crate::ast::functions_view(generics@),
                crate::ir::named_types_view(scope@),
                crate::ir::named_types_view(needed@),
                crate::diagnostic::diagnostics_view(diags@),
                i as int,
            ) == whole_run,
            crate::state::extends(start_diags, crate::diagnostic::diagnostics_view(diags@)),
        decreases ss.len() - i,
    {
        let s = &ss[i];
        let next = collect_generic_calls_in_stmt(s, generics, scope, needed, diags);
        scope = next.0;
        needed = next.1;
        diags = next.2;
        i += 1;
    }
    (scope, needed, diags)
}

/// What [`param_scope`] computes from position `i` on.
pub open spec fn param_scope_spec(
    ps: Seq<ParamView>,
    scope: Seq<(Seq<char>, TypeView)>,
    i: int,
) -> Seq<(Seq<char>, TypeView)>
    decreases ps.len() - i,
{
    if 0 <= i < ps.len() {
        let p = ps[i];
        let scope = crate::scope::named_type_put_spec(scope, p.name, p.ty);
        param_scope_spec(ps, scope, i + 1)
    } else {
        scope
    }
}

/// Adds the types of parameters by name.
pub fn param_scope(ps: &Vec<Param>, scope: Vec<(String, Type)>) -> (r: Vec<(String, Type)>)
    ensures
        crate::ir::named_types_view(r@) == param_scope_spec(
            crate::ast::params_view(ps@),
            crate::ir::named_types_view(scope@),
            0,
        ),
{
    let ghost whole_run = param_scope_spec(
        crate::ast::params_view(ps@),
        crate::ir::named_types_view(scope@),
        0,
    );
    let mut scope = scope;
    let mut i: usize = 0;
    while i < ps.len()
        invariant
            i <= ps.len(),
            param_scope_spec(
                crate::ast::params_view(ps@),
                crate::ir::named_types_view(scope@),
                i as int,
            ) == whole_run,
        decreases ps.len() - i,
    {
        let p = &ps[i];
        scope = named_type_put(&scope, &p.name, &p.ty);
        i += 1;
    }
    scope
}

/// What [`collect_needs`] computes from position `i` on.
pub open spec fn collect_needs_spec(
    fs: Seq<FunctionView>,
    generics: Seq<FunctionView>,
    needed: Seq<(Seq<char>, TypeView)>,
    diags: Seq<DiagnosticView>,
    i: int,
) -> (Seq<(Seq<char>, TypeView)>, Seq<DiagnosticView>)
    decreases fs.len() - i,
{
    if 0 <= i < fs.len() {
        let f = fs[i];
        let (needed, diags) = if f.type_params.len() > 0 {
            (needed, diags)
        } else {
            let scope = param_scope_spec(f.params, Seq::empty(), 0);
            let (scope, needed, diags) = collect_generic_calls_in_stmts_spec(
                f.body,
                generics,
                scope,
                needed,
                diags,
                0,
            );
            (needed, diags)
        };
        collect_needs_spec(fs, generics, needed, diags, i + 1)
    } else {
        (needed, diags)
    }
}

/// Adds what the calls in functions that are not generic need.
pub fn collect_needs(
    fs: &Vec<Function>,
    generics: &Vec<Function>,
    needed: Vec<(String, Type)>,
    diags: Vec<Diagnostic>,
) -> (r: (Vec<(String, Type)>, Vec<Diagnostic>))
    ensures
        (crate::ir::named_types_view(r.0@), crate::diagnostic::diagnostics_view(r.1@)) == collect_needs_spec(
            crate::ast::functions_view(fs@),
            crate::ast::functions_view(generics@),
            crate::ir::named_types_view(needed@),
            crate::diagnostic::diagnostics_view(diags@),
            0,
        ),
        crate::state::extends(
            crate::diagnostic::diagnostics_view(diags@),
            crate::diagnostic::diagnostics_view(r.1@),
        ),
{
    let ghost whole_run = collect_needs_spec(
        crate::ast::functions_view(fs@),
        crate::ast::functions_view(generics@),
        crate::ir::named_types_view(needed@),
        crate::diagnostic::diagnostics_view(diags@),
        0,
    );
    let ghost start_diags = crate::diagnostic::diagnostics_view(diags@);
    let mut needed = needed;
    let mut diags = diags;
    let mut i: usize = 0;
    while i < fs.len()
        invariant
            i <= fs.len(),
            collect_needs_spec(
                crate::ast::functions_view(fs@),
                crate::ast::functions_view(generics@),
                crate::ir::named_types_view(needed@),
                crate::diagnostic::diagnostics_view(diags@),
                i as int,
            ) == whole_run,
            crate::state::extends(start_diags, crate::diagnostic::diagnostics_view(diags@)),
        decreases fs.len() - i,
    {
        let f = &fs[i];
        let next = if f.type_params.len() > 0 {
            (needed, diags)
        } else {
            let scope = param_scope(&f.params, Vec::new());
            let (scope, needed, diags) = collect_generic_calls_in_stmts(
                &f.body,
                generics,
                scope,
                needed,
                diags,
            );
            (needed, diags)
        };
        needed = next.0;
        diags = next.1;
        i += 1;
    }
    (needed, diags)
}

/// What [`has_impl`] computes.
pub open spec fn has_impl_spec(imps: Seq<ImplDeclView>, interface: Seq<char>, t: TypeView) -> bool
{
    exists|i: int|
        #![trigger imps[i]]
        0 <= i < imps.len() && imps[i].interface_name == interface && imps[i].for_type == t
}

/// Whether the interface is implemented for the type.
pub fn has_impl(imps: &Vec<ImplDecl>, interface: &str, t: &Type) -> (r: bool)
    ensures
        r == has_impl_spec(crate::ast::impls_view(imps@), interface@, t@),
{
    let ghost all = crate::ast::impls_view(imps@);
    let mut i: usize = 0;
    while i < imps.len()
        invariant
            i <= imps.len(),
            all == crate::ast::impls_view(imps@),
            forall|j: int|
                #![trigger all[j]]
                0 <= j < i ==> !(all[j].interface_name == interface@ && all[j].for_type == t@),
        decreases imps.len() - i,
    {
        let imp = &imps[i];
        assert(all[i as int] == imp@);
        if str_eq(&imp.interface_name, interface) && type_eq(&imp.for_type, t) {
            return true;
        }
        i += 1;
    }
    false
}

/// What [`unmet_bounds`] computes from position `i` on.
pub open spec fn unmet_bounds_spec(
    ws: Seq<WhereClauseView>,
    imps: Seq<ImplDeclView>,
    name: Seq<char>,
    t: TypeView,
    unmet: bool,
    diags: Seq<DiagnosticView>,
    i: int,
) -> (bool, Seq<DiagnosticView>)
    decreases ws.len() - i,
{
    if 0 <= i < ws.len() {
        let w = ws[i];
        let (unmet, diags) = if has_impl_spec(imps, w.interface_name, t) {
            (unmet, diags)
        } else {
            let head = "generic function '"@ + name + "' requires `"@ + w.type_param + " is "@
                + w.interface_name + "`, but no `implement "@;
            let message = head + w.interface_name + " for "@ + crate::ast::type_text_spec(t)
                + "` is in scope. Add the impl or pick a type that satisfies the bound."@;
            (true, diags.push(crate::scope::diag_spec(w.span, message)))
        };
        unmet_bounds_spec(ws, imps, name, t, unmet, diags, i + 1)
    } else {
        (unmet, diags)
    }
}

/// The bounds of a generic function that a type does not meet.
pub fn unmet_bounds(
    ws: &Vec<WhereClause>,
    imps: &Vec<ImplDecl>,
    name: &str,
    t: &Type,
    unmet: bool,
    diags: Vec<Diagnostic>,
) -> (r: (bool, Vec<Diagnostic>))
    ensures
        (r.0, crate::diagnostic::diagnostics_view(r.1@)) == unmet_bounds_spec(
            crate::ast::where_clauses_view(ws@),
            crate::ast::impls_view(imps@),
            name@,
            t@,
            unmet,
            crate::diagnostic::diagnostics_view(diags@),
            0,
        ),
        crate::state::extends(
            crate::diagnostic::diagnostics_view(diags@),
            crate::diagnostic::diagnostics_view(r.1@),
        ),
{
    let ghost whole_run = unmet_bounds_spec(
        crate::ast::where_clauses_view(ws@),
        crate::ast::impls_view(imps@),
        name@,
        t@,
        unmet,
        crate::diagnostic::diagnostics_view(diags@),
        0,
    );
    let ghost start_diags = crate::diagnostic::diagnostics_view(diags@);
    let mut unmet = unmet;
    let mut diags = diags;
    let mut i: usize = 0;
    while i < ws.len()
        invariant
            i <= ws.len(),
            unmet_bounds_spec(
                crate::ast::where_clauses_view(ws@),
                crate::ast::impls_view(imps@),
                name@,
                t@,
                unmet,
                crate::diagnostic::diagnostics_view(diags@),
                i as int,
            ) == whole_run,
            crate::state::extends(start_diags, crate::diagnostic::diagnostics_view(diags@)),
        decreases ws.len() - i,
    {
        let w = &ws[i];
        let next = if has_impl(imps, &w.interface_name, t) {
            (unmet, diags)
        } else {
            let head = cat7(
                "generic function '",
                name,
                "' requires `",
                &w.type_param,
                " is ",
                &w.interface_name,
                "`, but no `implement ",
            );
            let message = cat5(
                &head,
                &w.interface_name,
                " for ",
                &type_text(t),
                "` is in scope. Add the impl or pick a type that satisfies the bound.",
            );
            (true, push(diags, diag(w.span, message)))
        };
        unmet = next.0;
        diags = next.1;
        i += 1;
    }
    (unmet, diags)
}

/// What [`specialized_name`] computes.
pub open spec fn specialized_name_spec(name: Seq<char>, t: TypeView) -> Seq<char>
{
    name + "__"@ + type_mangle_spec(t)
}

/// The name of a generic function for one type.
pub fn specialized_name(name: &str, t: &Type) -> (r: String)
    ensures
        r@ == specialized_name_spec(name@, t@),
{
    cat3(name, "__", &type_mangle(t))
}

/// What [`specialize`] computes.
pub open spec fn specialize_spec(f: FunctionView, param: Seq<char>, t: TypeView) -> FunctionView
{
    let rw = TypeRewriteView::Parameter(param, t);
    let g = crate::resolve::rewrite_function_types_spec(f, rw);
    FunctionView {
        name: specialized_name_spec(f.name, t),
        type_params: Seq::empty(),
        where_clauses: Seq::empty(),
        ..g
    }
}

/// A generic function at one type.
pub fn specialize(f: &Function, param: &str, t: &Type) -> (r: Function)
    ensures
        r@ == specialize_spec(f@, param@, t@),
{
    let rw = TypeRewrite::Parameter(text(param), t.dup());
    let g = rewrite_function_types(f, &rw);
    Function {
        name: specialized_name(&f.name, t),
        type_params: Vec::new(),
        where_clauses: Vec::new(),
        ..g
    }
}

/// What [`specialize_all`] computes from position `i` on.
pub open spec fn specialize_all_spec(
    needed: Seq<(Seq<char>, TypeView)>,
    generics: Seq<FunctionView>,
    imps: Seq<ImplDeclView>,
    out: Seq<FunctionView>,
    diags: Seq<DiagnosticView>,
    i: int,
) -> (Seq<FunctionView>, Seq<DiagnosticView>)
    decreases needed.len() - i,
{
    if 0 <= i < needed.len() {
        let n = needed[i];
        let (out, diags) = match find_template_spec(generics, n.0, None, 0) {
            None => (out, diags),
            Some(template) => {
                let (unmet, diags) = unmet_bounds_spec(
                    template.where_clauses,
                    imps,
                    n.0,
                    n.1,
                    false,
                    diags,
                    0,
                );
                if unmet {
                    (out, diags)
                } else if template.type_params.len() != 1 {
                    let message = "generic function '"@ + n.0 + "' has "@
                        + crate::text::decimal((template.type_params.len() as int))
                        + " type parameters — v1 supports only one (T1.4 phase 2 follow-up)."@;
                    (out, diags.push(crate::scope::diag_spec(template.span, message)))
                } else {
                    (out.push(specialize_spec(template, template.type_params[0], n.1)), diags)
                }
            },
        };
        specialize_all_spec(needed, generics, imps, out, diags, i + 1)
    } else {
        (out, diags)
    }
}

/// Adds each needed function for its type.
pub fn specialize_all(
    needed: &Vec<(String, Type)>,
    generics: &Vec<Function>,
    imps: &Vec<ImplDecl>,
    out: Vec<Function>,
    diags: Vec<Diagnostic>,
) -> (r: (Vec<Function>, Vec<Diagnostic>))
    ensures
        (crate::ast::functions_view(r.0@), crate::diagnostic::diagnostics_view(r.1@)) == specialize_all_spec(
            crate::ir::named_types_view(needed@),
            crate::ast::functions_view(generics@),
            crate::ast::impls_view(imps@),
            crate::ast::functions_view(out@),
            crate::diagnostic::diagnostics_view(diags@),
            0,
        ),
        crate::state::extends(
            crate::diagnostic::diagnostics_view(diags@),
            crate::diagnostic::diagnostics_view(r.1@),
        ),
{
    let ghost whole_run = specialize_all_spec(
        crate::ir::named_types_view(needed@),
        crate::ast::functions_view(generics@),
        crate::ast::impls_view(imps@),
        crate::ast::functions_view(out@),
        crate::diagnostic::diagnostics_view(diags@),
        0,
    );
    let ghost start_diags = crate::diagnostic::diagnostics_view(diags@);
    let mut out = out;
    let mut diags = diags;
    let mut i: usize = 0;
    while i < needed.len()
        invariant
            i <= needed.len(),
            specialize_all_spec(
                crate::ir::named_types_view(needed@),
                crate::ast::functions_view(generics@),
                crate::ast::impls_view(imps@),
                crate::ast::functions_view(out@),
                crate::diagnostic::diagnostics_view(diags@),
                i as int,
            ) == whole_run,
            crate::state::extends(start_diags, crate::diagnostic::diagnostics_view(diags@)),
        decreases needed.len() - i,
    {
        let n = &needed[i];
        let next = match find_template(generics, &n.0, None) {
            None => (out, diags),
            Some(template) => {
                let (unmet, diags) = unmet_bounds(
                    &template.where_clauses,
                    imps,
                    &n.0,
                    &n.1,
                    false,
                    diags,
                );
                if unmet {
                    (out, diags)
                } else if template.type_params.len() != 1 {
                    let message = cat5(
                        "generic function '",
                        &n.0,
                        "' has ",
                        &usize_text(template.type_params.len()),
                        " type parameters — v1 supports only one (T1.4 phase 2 follow-up).",
                    );
                    (out, push(diags, diag(template.span, message)))
                } else {
                    (push(out, specialize(&template, &template.type_params[0], &n.1)), diags)
                }
            },
        };
        out = next.0;
        diags = next.1;
        i += 1;
    }
    (out, diags)
}

/// What [`rewrite_generic_calls_in_expr`] computes.
pub open spec fn rewrite_generic_calls_in_expr_spec(
    e: ExprView,
    generics: Seq<FunctionView>,
    scope: Seq<(Seq<char>, TypeView)>,
) -> ExprView
    decreases e, 0int,
{
    match e.kind {
        ExprKindView::Call { name, name_span, args } => {
            let callee = if crate::hoist::has_function_spec(generics, name) {
                match infer_from_first_spec(args, scope) {
                    Some(t) => specialized_name_spec(name, t),
                    None => name,
                }
            } else {
                name
            };
            crate::construct::mk_call_spec(
                callee,
                name_span,
                rewrite_generic_calls_in_exprs_spec(args, generics, scope, Seq::empty(), 0),
                e.span,
            )
        },
        ExprKindView::Binary { op, left, right } => crate::construct::mk_binary_spec(
            op,
            rewrite_generic_calls_in_expr_spec(*left, generics, scope),
            rewrite_generic_calls_in_expr_spec(*right, generics, scope),
            e.span,
        ),
        ExprKindView::Unary { op, expr } => crate::construct::mk_unary_spec(
            op,
            rewrite_generic_calls_in_expr_spec(*expr, generics, scope),
            e.span,
        ),
        _ => e,
    }
}

/// An expression with its generic calls under their specialised names.
pub fn rewrite_generic_calls_in_expr(
    e: &Expr,
    generics: &Vec<Function>,
    scope: &Vec<(String, Type)>,
) -> (r: Expr)
    ensures
        r@ == rewrite_generic_calls_in_expr_spec(
            e@,
            crate::ast::functions_view(generics@),
            crate::ir::named_types_view(scope@),
        ),
    decreases e, 0int,
{
    match &e.kind {
        ExprKind::Call { name, name_span, args } => {
            let callee = if has_function(generics, name) {
                match infer_from_first(args, scope) {
                    Some(t) => specialized_name(name, &t),
                    None => name.clone(),
                }
            } else {
                name.clone()
            };
            mk_call(
                &callee,
                *name_span,
                rewrite_generic_calls_in_exprs(args, generics, scope, Vec::new()),
                e.span,
            )
        },
        ExprKind::Binary { op, left, right } => mk_binary(
            *op,
            rewrite_generic_calls_in_expr(&**left, generics, scope),
            rewrite_generic_calls_in_expr(&**right, generics, scope),
            e.span,
        ),
        ExprKind::Unary { op, expr } => mk_unary(
            *op,
            rewrite_generic_calls_in_expr(&**expr, generics, scope),
            e.span,
        ),
        _ => e.dup(),
    }
}

/// What [`rewrite_generic_calls_in_exprs`] computes from position `i` on.
pub open spec fn rewrite_generic_calls_in_exprs_spec(
    es: Seq<ExprView>,
    generics: Seq<FunctionView>,
    scope: Seq<(Seq<char>, TypeView)>,
    out: Seq<ExprView>,
    i: int,
) -> Seq<ExprView>
    decreases es, es.len() - i,
{
    if 0 <= i < es.len() {
        let e = es[i];
        let out = out.push(rewrite_generic_calls_in_expr_spec(e, generics, scope));
        rewrite_generic_calls_in_exprs_spec(es, generics, scope, out, i + 1)
    } else {
        out
    }
}

/// Adds expressions with their generic calls renamed.
pub fn rewrite_generic_calls_in_exprs(
    es: &Vec<Expr>,
    generics: &Vec<Function>,
    scope: &Vec<(String, Type)>,
    out: Vec<Expr>,
) -> (r: Vec<Expr>)
    ensures
        crate::ast::exprs_view(r@) == rewrite_generic_calls_in_exprs_spec(
            crate::ast::exprs_view(es@),
            crate::ast::functions_view(generics@),
            crate::ir::named_types_view(scope@),
            crate::ast::exprs_view(out@),
            0,
        ),
    decreases es, es.len(),
{
    let ghost whole_run = rewrite_generic_calls_in_exprs_spec(
        crate::ast::exprs_view(es@),
        crate::ast::functions_view(generics@),
        crate::ir::named_types_view(scope@),
        crate::ast::exprs_view(out@),
        0,
    );
    let mut out = out;
    let mut i: usize = 0;
    while i < es.len()
        invariant
            i <= es.len(),
            rewrite_generic_calls_in_exprs_spec(
                crate::ast::exprs_view(es@),
                crate::ast::functions_view(generics@),
                crate::ir::named_types_view(scope@),
                crate::ast::exprs_view(out@),
                i as int,
            ) == whole_run,
        decreases es.len() - i,
    {
        let e = &es[i];
        out = push(out, rewrite_generic_calls_in_expr(e, generics, scope));
        i += 1;
    }
    out
}

/// What [`rewrite_generic_calls_in_items`] computes from position `i` on.
pub open spec fn rewrite_generic_calls_in_items_spec(
    items: Seq<PrintItemView>,
    generics: Seq<FunctionView>,
    scope: Seq<(Seq<char>, TypeView)>,
    out: Seq<PrintItemView>,
    i: int,
) -> Seq<PrintItemView>
    decreases items.len() - i,
{
    if 0 <= i < items.len() {
        let item = items[i];
        let out = match item {
            PrintItemView::Expr(e) => out.push(
                PrintItemView::Expr(rewrite_generic_calls_in_expr_spec(e, generics, scope)),
            ),
            PrintItemView::Str(s) => out.push(PrintItemView::Str(s)),
        };
        rewrite_generic_calls_in_items_spec(items, generics, scope, out, i + 1)
    } else {
        out
    }
}

/// Adds print items with their generic calls renamed.
pub fn rewrite_generic_calls_in_items(
    items: &Vec<PrintItem>,
    generics: &Vec<Function>,
    scope: &Vec<(String, Type)>,
    out: Vec<PrintItem>,
) -> (r: Vec<PrintItem>)
    ensures
        crate::ast::print_items_view(r@) == rewrite_generic_calls_in_items_spec(
            crate::ast::print_items_view(items@),
            crate::ast::functions_view(generics@),
            crate::ir::named_types_view(scope@),
            crate::ast::print_items_view(out@),
            0,
        ),
{
    let ghost whole_run = rewrite_generic_calls_in_items_spec(
        crate::ast::print_items_view(items@),
        crate::ast::functions_view(generics@),
        crate::ir::named_types_view(scope@),
        crate::ast::print_items_view(out@),
        0,
    );
    let mut out = out;
    let mut i: usize = 0;
    while i < items.len()
        invariant
            i <= items.len(),
            rewrite_generic_calls_in_items_spec(
                crate::ast::print_items_view(items@),
                crate::ast::functions_view(generics@),
                crate::ir::named_types_view(scope@),
                crate::ast::print_items_view(out@),
                i as int,
            ) == whole_run,
        decreases items.len() - i,
    {
        let item = &items[i];
        out = match item {
            PrintItem::Expr(e) => push(
                out,
                PrintItem::Expr(rewrite_generic_calls_in_expr(e, generics, scope)),
            ),
            PrintItem::Str(s) => push(out, PrintItem::Str(s.clone())),
        };
        i += 1;
    }
    out
}

/// What [`rewrite_generic_calls_in_stmt`] computes.
pub open spec fn rewrite_generic_calls_in_stmt_spec(
    s: StmtView,
    generics: Seq<FunctionView>,
    scope: Seq<(Seq<char>, TypeView)>,
) -> (StmtView, Seq<(Seq<char>, TypeView)>)
    decreases s, 0int,
{
    match s {
        StmtView::Let { name, annotation, expr, span } => {
            let expr = rewrite_generic_calls_in_expr_spec(expr, generics, scope);
            let kept = match annotation {
                Some(t) => Some(t),
                None => None,
            };
            (
                StmtView::Let { name: name, annotation: kept, expr, span: span },
                annotate_spec(scope, name, annotation),
            )
        },
        StmtView::Assign { name, expr, span } => (
            StmtView::Assign {
                name: name,
                expr: rewrite_generic_calls_in_expr_spec(expr, generics, scope),
                span: span,
            },
            scope,
        ),
        StmtView::Return { expr, span } => (
            StmtView::Return {
                expr: rewrite_generic_calls_in_expr_spec(expr, generics, scope),
                span: span,
            },
            scope,
        ),
        StmtView::Print { items, span } => (
            StmtView::Print {
                items: rewrite_generic_calls_in_items_spec(items, generics, scope, Seq::empty(), 0),
                span: span,
            },
            scope,
        ),
        StmtView::If { cond, then_body, else_body, span } => {
            let cond = rewrite_generic_calls_in_expr_spec(cond, generics, scope);
            let (then_body, scope) = rewrite_generic_calls_in_stmts_spec(
                then_body,
                generics,
                Seq::empty(),
                scope,
                0,
            );
            let (else_body, scope) = rewrite_generic_calls_in_stmts_spec(
                else_body,
                generics,
                Seq::empty(),
                scope,
                0,
            );
            (StmtView::If { cond, then_body, else_body, span: span }, scope)
        },
        StmtView::While { cond, invariants, body, span } => {
            let cond = rewrite_generic_calls_in_expr_spec(cond, generics, scope);
            let (body, scope) = rewrite_generic_calls_in_stmts_spec(
                body,
                generics,
                Seq::empty(),
                scope,
                0,
            );
            (StmtView::While { cond, invariants: (invariants), body, span: span }, scope)
        },
        _ => (s, scope),
    }
}

/// A statement with its generic calls renamed, and the types known after it.
pub fn rewrite_generic_calls_in_stmt(
    s: &Stmt,
    generics: &Vec<Function>,
    scope: Vec<(String, Type)>,
) -> (r: (Stmt, Vec<(String, Type)>))
    ensures
        (r.0@, crate::ir::named_types_view(r.1@)) == rewrite_generic_calls_in_stmt_spec(
            s@,
            crate::ast::functions_view(generics@),
            crate::ir::named_types_view(scope@),
        ),
    decreases s, 0int,
{
    match s {
        Stmt::Let { name, annotation, expr, span } => {
            let expr = rewrite_generic_calls_in_expr(expr, generics, &scope);
            let kept = match annotation {
                Some(t) => Some(t.dup()),
                None => None,
            };
            (
                Stmt::Let { name: name.clone(), annotation: kept, expr, span: *span },
                annotate(scope, name, annotation),
            )
        },
        Stmt::Assign { name, expr, span } => (
            Stmt::Assign {
                name: name.clone(),
                expr: rewrite_generic_calls_in_expr(expr, generics, &scope),
                span: *span,
            },
            scope,
        ),
        Stmt::Return { expr, span } => (
            Stmt::Return {
                expr: rewrite_generic_calls_in_expr(expr, generics, &scope),
                span: *span,
            },
            scope,
        ),
        Stmt::Print { items, span } => (
            Stmt::Print {
                items: rewrite_generic_calls_in_items(items, generics, &scope, Vec::new()),
                span: *span,
            },
            scope,
        ),
        Stmt::If { cond, then_body, else_body, span } => {
            let cond = rewrite_generic_calls_in_expr(cond, generics, &scope);
            let (then_body, scope) = rewrite_generic_calls_in_stmts(
                then_body,
                generics,
                Vec::new(),
                scope,
            );
            let (else_body, scope) = rewrite_generic_calls_in_stmts(
                else_body,
                generics,
                Vec::new(),
                scope,
            );
            (Stmt::If { cond, then_body, else_body, span: *span }, scope)
        },
        Stmt::While { cond, invariants, body, span } => {
            let cond = rewrite_generic_calls_in_expr(cond, generics, &scope);
            let (body, scope) = rewrite_generic_calls_in_stmts(body, generics, Vec::new(), scope);
            (Stmt::While { cond, invariants: dup_exprs(invariants), body, span: *span }, scope)
        },
        _ => (s.dup(), scope),
    }
}

/// What [`rewrite_generic_calls_in_stmts`] computes from position `i` on.
pub open spec fn rewrite_generic_calls_in_stmts_spec(
    ss: Seq<StmtView>,
    generics: Seq<FunctionView>,
    out: Seq<StmtView>,
    scope: Seq<(Seq<char>, TypeView)>,
    i: int,
) -> (Seq<StmtView>, Seq<(Seq<char>, TypeView)>)
    decreases ss, ss.len() - i,
{
    if 0 <= i < ss.len() {
        let s = ss[i];
        let (out, scope) = {
            let (s, scope) = rewrite_generic_calls_in_stmt_spec(s, generics, scope);
            (out.push(s), scope)
        };
        rewrite_generic_calls_in_stmts_spec(ss, generics, out, scope, i + 1)
    } else {
        (out, scope)
    }
}

/// Adds statements with their generic calls renamed.
pub fn rewrite_generic_calls_in_stmts(
    ss: &Vec<Stmt>,
    generics: &Vec<Function>,
    out: Vec<Stmt>,
    scope: Vec<(String, Type)>,
) -> (r: (Vec<Stmt>, Vec<(String, Type)>))
    ensures
        (crate::ast::stmts_view(r.0@), crate::ir::named_types_view(r.1@)) == rewrite_generic_calls_in_stmts_spec(
            crate::ast::stmts_view(ss@),
            crate::ast::functions_view(generics@),
            crate::ast::stmts_view(out@),
            crate::ir::named_types_view(scope@),
            0,
        ),
    decreases ss, ss.len(),
{
    let ghost whole_run = rewrite_generic_calls_in_stmts_spec(
        crate::ast::stmts_view(ss@),
        crate::ast::functions_view(generics@),
        crate::ast::stmts_view(out@),
        crate::ir::named_types_view(scope@),
        0,
    );
    let mut out = out;
    let mut scope = scope;
    let mut i: usize = 0;
    while i < ss.len()
        invariant
            i <= ss.len(),
            rewrite_generic_calls_in_stmts_spec(
                crate::ast::stmts_view(ss@),
                crate::ast::functions_view(generics@),
                crate::ast::stmts_view(out@),
                crate::ir::named_types_view(scope@),
                i as int,
            ) == whole_run,
        decreases ss.len() - i,
    {
        let s = &ss[i];
        let next = {
            let (s, scope) = rewrite_generic_calls_in_stmt(s, generics, scope);
            (push(out, s), scope)
        };
        out = next.0;
        scope = next.1;
        i += 1;
    }
    (out, scope)
}

/// What [`rewrite_generic_calls`] computes from position `i` on.
pub open spec fn rewrite_generic_calls_spec(
    fs: Seq<FunctionView>,
    generics: Seq<FunctionView>,
    out: Seq<FunctionView>,
    i: int,
) -> Seq<FunctionView>
    decreases fs.len() - i,
{
    if 0 <= i < fs.len() {
        let f = fs[i];
        let out = if f.type_params.len() > 0 {
            out
        } else {
            let scope = param_scope_spec(f.params, Seq::empty(), 0);
            let (body, scope) = rewrite_generic_calls_in_stmts_spec(
                f.body,
                generics,
                Seq::empty(),
                scope,
                0,
            );
            out.push(FunctionView { body, ..f })
        };
        rewrite_generic_calls_spec(fs, generics, out, i + 1)
    } else {
        out
    }
}

/// The functions that are not generic, with their generic calls renamed.
pub fn rewrite_generic_calls(
    fs: &Vec<Function>,
    generics: &Vec<Function>,
    out: Vec<Function>,
) -> (r: Vec<Function>)
    ensures
        crate::ast::functions_view(r@) == rewrite_generic_calls_spec(
            crate::ast::functions_view(fs@),
            crate::ast::functions_view(generics@),
            crate::ast::functions_view(out@),
            0,
        ),
{
    let ghost whole_run = rewrite_generic_calls_spec(
        crate::ast::functions_view(fs@),
        crate::ast::functions_view(generics@),
        crate::ast::functions_view(out@),
        0,
    );
    let mut out = out;
    let mut i: usize = 0;
    while i < fs.len()
        invariant
            i <= fs.len(),
            rewrite_generic_calls_spec(
                crate::ast::functions_view(fs@),
                crate::ast::functions_view(generics@),
                crate::ast::functions_view(out@),
                i as int,
            ) == whole_run,
        decreases fs.len() - i,
    {
        let f = &fs[i];
        out = if f.type_params.len() > 0 {
            out
        } else {
            let scope = param_scope(&f.params, Vec::new());
            let (body, scope) = rewrite_generic_calls_in_stmts(
                &f.body,
                generics,
                Vec::new(),
                scope,
            );
            push(out, Function { body, ..f.dup() })
        };
        i += 1;
    }
    out
}

/// What [`report_unused`] computes from position `i` on.
pub open spec fn report_unused_spec(
    fs: Seq<FunctionView>,
    generics: Seq<FunctionView>,
    needed: Seq<(Seq<char>, TypeView)>,
    seen: Seq<Seq<char>>,
    diags: Seq<DiagnosticView>,
    i: int,
) -> (Seq<Seq<char>>, Seq<DiagnosticView>)
    decreases fs.len() - i,
{
    if 0 <= i < fs.len() {
        let f = fs[i];
        let (seen, diags) = if seen.contains(f.name) || names_need_spec(needed, f.name) {
            (seen, diags)
        } else {
            let span = match find_template_spec(generics, f.name, None, 0) {
                Some(template) => template.span,
                None => f.span,
            };
            let message = "generic function '"@ + f.name
                + "' is declared but never called with concrete types — monomorphization couldn't specialize it. Either call it from a non-generic call site or remove the declaration."@;
            (seen.push(f.name), diags.push(crate::scope::diag_spec(span, message)))
        };
        report_unused_spec(fs, generics, needed, seen, diags, i + 1)
    } else {
        (seen, diags)
    }
}

/// A report for each generic function that is never called at a known type.
pub fn report_unused(
    fs: &Vec<Function>,
    generics: &Vec<Function>,
    needed: &Vec<(String, Type)>,
    seen: Vec<String>,
    diags: Vec<Diagnostic>,
) -> (r: (Vec<String>, Vec<Diagnostic>))
    ensures
        (crate::text::strs_view(r.0@), crate::diagnostic::diagnostics_view(r.1@)) == report_unused_spec(
            crate::ast::functions_view(fs@),
            crate::ast::functions_view(generics@),
            crate::ir::named_types_view(needed@),
            crate::text::strs_view(seen@),
            crate::diagnostic::diagnostics_view(diags@),
            0,
        ),
        crate::state::extends(
            crate::diagnostic::diagnostics_view(diags@),
            crate::diagnostic::diagnostics_view(r.1@),
        ),
{
    let ghost whole_run = report_unused_spec(
        crate::ast::functions_view(fs@),
        crate::ast::functions_view(generics@),
        crate::ir::named_types_view(needed@),
        crate::text::strs_view(seen@),
        crate::diagnostic::diagnostics_view(diags@),
        0,
    );
    let ghost start_diags = crate::diagnostic::diagnostics_view(diags@);
    let mut seen = seen;
    let mut diags = diags;
    let mut i: usize = 0;
    while i < fs.len()
        invariant
            i <= fs.len(),
            report_unused_spec(
                crate::ast::functions_view(fs@),
                crate::ast::functions_view(generics@),
                crate::ir::named_types_view(needed@),
                crate::text::strs_view(seen@),
                crate::diagnostic::diagnostics_view(diags@),
                i as int,
            ) == whole_run,
            crate::state::extends(start_diags, crate::diagnostic::diagnostics_view(diags@)),
        decreases fs.len() - i,
    {
        let f = &fs[i];
        let next = if contains_str(&seen, &f.name) || names_need(needed, &f.name) {
            (seen, diags)
        } else {
            let span = match find_template(generics, &f.name, None) {
                Some(template) => template.span,
                None => f.span,
            };
            let message = cat3(
                "generic function '",
                &f.name,
                "' is declared but never called with concrete types — monomorphization couldn't specialize it. Either call it from a non-generic call site or remove the declaration.",
            );
            (push(seen, f.name.clone()), push(diags, diag(span, message)))
        };
        seen = next.0;
        diags = next.1;
        i += 1;
    }
    (seen, diags)
}

/// What [`monomorphize_generics_in_program`] computes.
pub open spec fn monomorphize_generics_in_program_spec(
    p: ProgramView,
    diags: Seq<DiagnosticView>,
) -> (ProgramView, Seq<DiagnosticView>)
{
    let generics = generic_templates_spec(p.functions);
    if generics.len() == 0 {
        (p, diags)
    } else {
        let (needed, diags) = collect_needs_spec(p.functions, generics, Seq::empty(), diags, 0);
        let (specialized, diags) = specialize_all_spec(
            needed,
            generics,
            p.impls,
            Seq::empty(),
            diags,
            0,
        );
        let functions = rewrite_generic_calls_spec(p.functions, generics, Seq::empty(), 0);
        let (seen, diags) = report_unused_spec(generics, generics, needed, Seq::empty(), diags, 0);
        (ProgramView { functions: functions + specialized, ..p }, diags)
    }
}

/// The program without generic functions: for each type that one is called
/// at, a specialised copy stands in its place.
pub fn monomorphize_generics_in_program(
    p: &Program,
    diags: Vec<Diagnostic>,
) -> (r: (Program, Vec<Diagnostic>))
    ensures
        (
            r.0@,
            crate::diagnostic::diagnostics_view(r.1@),
        ) == monomorphize_generics_in_program_spec(p@, crate::diagnostic::diagnostics_view(diags@)),
        crate::state::extends(
            crate::diagnostic::diagnostics_view(diags@),
            crate::diagnostic::diagnostics_view(r.1@),
        ),
{
    let generics = generic_templates(&p.functions);
    if generics.len() == 0 {
        (p.dup(), diags)
    } else {
        let (needed, diags) = collect_needs(&p.functions, &generics, Vec::new(), diags);
        let (specialized, diags) = specialize_all(&needed, &generics, &p.impls, Vec::new(), diags);
        let functions = rewrite_generic_calls(&p.functions, &generics, Vec::new());
        let (seen, diags) = report_unused(&generics, &generics, &needed, Vec::new(), diags);
        (Program { functions: join(functions, specialized), ..p.dup() }, diags)
    }
}

/// Functions of which none is generic.
pub open spec fn none_generic(fs: Seq<FunctionView>) -> bool {
    forall|j: int| 0 <= j < fs.len() ==> (#[trigger] fs[j]).type_params.len() == 0
}

proof fn templates_are_all(fs: Seq<FunctionView>)
    ensures
        generic_templates_spec(fs).len() == 0 ==> none_generic(fs),
{
    let generic = |f: FunctionView| f.type_params.len() > 0;
    if generic_templates_spec(fs).len() == 0 {
        assert forall|j: int| 0 <= j < fs.len() implies (#[trigger] fs[j]).type_params.len() == 0 by {
            if generic(fs[j]) {
                fs.lemma_filter_contains(generic, j);
                assert(generic_templates_spec(fs) =~= fs.filter(generic));
            }
        }
    }
}

proof fn specialized_are_plain(
    needed: Seq<(Seq<char>, TypeView)>,
    generics: Seq<FunctionView>,
    imps: Seq<ImplDeclView>,
    out: Seq<FunctionView>,
    diags: Seq<DiagnosticView>,
    i: int,
)
    requires
        0 <= i <= needed.len(),
        none_generic(out),
    ensures
        none_generic(specialize_all_spec(needed, generics, imps, out, diags, i).0),
    decreases needed.len() - i,
{
    if i < needed.len() {
        let n = needed[i];
        match find_template_spec(generics, n.0, None, 0) {
            None => {
                specialized_are_plain(needed, generics, imps, out, diags, i + 1);
            },
            Some(template) => {
                let (unmet, after) = unmet_bounds_spec(
                    template.where_clauses,
                    imps,
                    n.0,
                    n.1,
                    false,
                    diags,
                    0,
                );
                let message = "generic function '"@ + n.0 + "' has "@
                    + crate::text::decimal(template.type_params.len() as int)
                    + " type parameters — v1 supports only one (T1.4 phase 2 follow-up)."@;
                if unmet {
                    specialized_are_plain(needed, generics, imps, out, after, i + 1);
                } else if template.type_params.len() != 1 {
                    specialized_are_plain(
                        needed,
                        generics,
                        imps,
                        out,
                        after.push(crate::scope::diag_spec(template.span, message)),
                        i + 1,
                    );
                } else {
                    let one = specialize_spec(template, template.type_params[0], n.1);
                    specialized_are_plain(needed, generics, imps, out.push(one), after, i + 1);
                }
            },
        }
    }
}

proof fn renamed_are_plain(
    fs: Seq<FunctionView>,
    generics: Seq<FunctionView>,
    out: Seq<FunctionView>,
    i: int,
)
    requires
        0 <= i <= fs.len(),
        none_generic(out),
    ensures
        none_generic(rewrite_generic_calls_spec(fs, generics, out, i)),
    decreases fs.len() - i,
{
    if i < fs.len() {
        let f = fs[i];
        if f.type_params.len() > 0 {
            renamed_are_plain(fs, generics, out, i + 1);
        } else {
            let scope = param_scope_spec(f.params, Seq::empty(), 0);
            let body = rewrite_generic_calls_in_stmts_spec(
                f.body,
                generics,
                Seq::empty(),
                scope,
                0,
            ).0;
            renamed_are_plain(fs, generics, out.push(FunctionView { body, ..f }), i + 1);
        }
    }
}

/// No generic function is left.
pub proof fn no_generic_function_is_left(p: ProgramView, diags: Seq<DiagnosticView>)
    ensures
        none_generic(monomorphize_generics_in_program_spec(p, diags).0.functions),
{
    let none = Seq::<FunctionView>::empty();
    let generics = generic_templates_spec(p.functions);
    templates_are_all(p.functions);
    let (needed, after) = collect_needs_spec(p.functions, generics, Seq::empty(), diags, 0);
    specialized_are_plain(needed, generics, p.impls, none, after, 0);
    renamed_are_plain(p.functions, generics, none, 0);
}

} // verus!
