//! Turning methods and interface implementations into plain functions named
//! after their type, and unfolding a leading `try`.

use vstd::prelude::*;
use crate::ast::{
    EnumDecl, EnumDeclView, Expr, ExprKind, ExprKindView, ExprView, Function, FunctionView,
    ImplDecl, ImplDeclView, InterfaceDecl, InterfaceDeclView, InterfaceMethod, InterfaceMethodView,
    MethodsBlock, MethodsBlockView, Param, ParamView, Pattern, PatternView, Program, ProgramView,
    Span, Stmt, StmtView, Type, TypeView, VariantDecl, VariantDeclView, dup_functions, type_text,
};
use crate::construct::{mk_arm, mk_block, mk_field, mk_let, mk_match, mk_return, mk_var};
use crate::diagnostic::{Diagnostic, DiagnosticView};
use crate::resolve::{rewrite_type};
use crate::scope::{diag, named_type_put};
use crate::state::{TypeRewrite, TypeRewriteView};
use crate::text::{
    cat2, cat3, cat5, cat6, cat7, cat9, contains_str, join, push, str_eq, text, twice, usize_text,
};
use crate::types::{deref, is_i64, nominal_name, type_eq};

verus! {

broadcast use {
    crate::text::group_text_views,
    crate::ast::group_ast_views,
    crate::diagnostic::group_diagnostic_views,
    crate::ir::group_ir_views,
    crate::state::group_state_views,
    crate::state::group_extends,
};

/// What [`has_function`] computes.
pub open spec fn has_function_spec(fs: Seq<FunctionView>, name: Seq<char>) -> bool
{
    exists|i: int|
        #![trigger fs[i]]
        0 <= i < fs.len() && fs[i].name == name
}

/// Whether there is a function of the name.
pub fn has_function(fs: &Vec<Function>, name: &str) -> (r: bool)
    ensures
        r == has_function_spec(crate::ast::functions_view(fs@), name@),
{
    let ghost all = crate::ast::functions_view(fs@);
    let mut i: usize = 0;
    while i < fs.len()
        invariant
            i <= fs.len(),
            all == crate::ast::functions_view(fs@),
            forall|j: int|
                #![trigger all[j]]
                0 <= j < i ==> !(all[j].name == name@),
        decreases fs.len() - i,
    {
        let f = &fs[i];
        assert(all[i as int] == f@);
        if str_eq(&f.name, name) {
            return true;
        }
        i += 1;
    }
    false
}

/// What [`has_interface_method`] computes from position `i` on.
pub open spec fn has_interface_method_spec(
    ms: Seq<InterfaceMethodView>,
    name: Seq<char>,
    found: Option<InterfaceMethodView>,
    i: int,
) -> Option<InterfaceMethodView>
    decreases ms.len() - i,
{
    if 0 <= i < ms.len() && !found.is_some() {
        let m = ms[i];
        let found = if m.name == name { Some(m) } else { found };
        has_interface_method_spec(ms, name, found, i + 1)
    } else {
        found
    }
}

/// The first method of a name that an interface declares.
pub fn has_interface_method(
    ms: &Vec<InterfaceMethod>,
    name: &str,
    found: Option<InterfaceMethod>,
) -> (r: Option<InterfaceMethod>)
    ensures
        (match &r { Some(v0) => Some(v0@), None => None }) == has_interface_method_spec(
            crate::ast::interface_methods_view(ms@),
            name@,
            (match &found { Some(v0) => Some(v0@), None => None }),
            0,
        ),
{
    let ghost whole_run = has_interface_method_spec(
        crate::ast::interface_methods_view(ms@),
        name@,
        (match &found { Some(v0) => Some(v0@), None => None }),
        0,
    );
    let mut found = found;
    let mut i: usize = 0;
    while i < ms.len() && !found.is_some()
        invariant
            i <= ms.len(),
            has_interface_method_spec(
                crate::ast::interface_methods_view(ms@),
                name@,
                (match &found { Some(v0) => Some(v0@), None => None }),
                i as int,
            ) == whole_run,
        decreases ms.len() - i,
    {
        let m = &ms[i];
        found = if str_eq(&m.name, name) { Some(m.dup()) } else { found };
        i += 1;
    }
    found
}

/// What [`hoist_block`] computes from position `i` on.
pub open spec fn hoist_block_spec(
    ms: Seq<FunctionView>,
    owner: Seq<char>,
    functions: Seq<FunctionView>,
    hoisted: Seq<FunctionView>,
    seen: Seq<Seq<char>>,
    diags: Seq<DiagnosticView>,
    i: int,
) -> (Seq<FunctionView>, Seq<Seq<char>>, Seq<DiagnosticView>)
    decreases ms.len() - i,
{
    if 0 <= i < ms.len() {
        let m = ms[i];
        let (hoisted, seen, diags) = if seen.contains(m.name) {
            let message = "method '"@ + owner + "::"@ + m.name
                + "' is declared twice in this methods block"@;
            (hoisted, seen, diags.push(crate::scope::diag_spec(m.span, message)))
        } else {
            let seen = seen.push(m.name);
            let mangled = owner + "_"@ + m.name;
            if has_function_spec(functions, mangled) || has_function_spec(hoisted, mangled) {
                let message = "method '"@ + owner + "::"@ + m.name + "' (mangled to '"@ + mangled
                    + "') collides with an existing function — pick a different method name"@;
                (hoisted, seen, diags.push(crate::scope::diag_spec(m.span, message)))
            } else {
                (hoisted.push(FunctionView { name: mangled, ..m }), seen, diags)
            }
        };
        hoist_block_spec(ms, owner, functions, hoisted, seen, diags, i + 1)
    } else {
        (hoisted, seen, diags)
    }
}

/// Adds the methods of one block as functions.
pub fn hoist_block(
    ms: &Vec<Function>,
    owner: &str,
    functions: &Vec<Function>,
    hoisted: Vec<Function>,
    seen: Vec<String>,
    diags: Vec<Diagnostic>,
) -> (r: (Vec<Function>, Vec<String>, Vec<Diagnostic>))
    ensures
        (crate::ast::functions_view(r.0@), crate::text::strs_view(r.1@), crate::diagnostic::diagnostics_view(r.2@)) == hoist_block_spec(
            crate::ast::functions_view(ms@),
            owner@,
            crate::ast::functions_view(functions@),
            crate::ast::functions_view(hoisted@),
            crate::text::strs_view(seen@),
            crate::diagnostic::diagnostics_view(diags@),
            0,
        ),
        crate::state::extends(
            crate::diagnostic::diagnostics_view(diags@),
            crate::diagnostic::diagnostics_view(r.2@),
        ),
{
    let ghost whole_run = hoist_block_spec(
        crate::ast::functions_view(ms@),
        owner@,
        crate::ast::functions_view(functions@),
        crate::ast::functions_view(hoisted@),
        crate::text::strs_view(seen@),
        crate::diagnostic::diagnostics_view(diags@),
        0,
    );
    let ghost start_diags = crate::diagnostic::diagnostics_view(diags@);
    let mut hoisted = hoisted;
    let mut seen = seen;
    let mut diags = diags;
    let mut i: usize = 0;
    while i < ms.len()
        invariant
            i <= ms.len(),
            hoist_block_spec(
                crate::ast::functions_view(ms@),
                owner@,
                crate::ast::functions_view(functions@),
                crate::ast::functions_view(hoisted@),
                crate::text::strs_view(seen@),
                crate::diagnostic::diagnostics_view(diags@),
                i as int,
            ) == whole_run,
            crate::state::extends(start_diags, crate::diagnostic::diagnostics_view(diags@)),
        decreases ms.len() - i,
    {
        let m = &ms[i];
        let next = if contains_str(&seen, &m.name) {
            let message = cat5(
                "method '",
                owner,
                "::",
                &m.name,
                "' is declared twice in this methods block",
            );
            (hoisted, seen, push(diags, diag(m.span, message)))
        } else {
            let seen = push(seen, m.name.clone());
            let mangled = cat3(owner, "_", &m.name);
            if has_function(functions, &mangled) || has_function(&hoisted, &mangled) {
                let message = cat7(
                    "method '",
                    owner,
                    "::",
                    &m.name,
                    "' (mangled to '",
                    &mangled,
                    "') collides with an existing function — pick a different method name",
                );
                (hoisted, seen, push(diags, diag(m.span, message)))
            } else {
                (push(hoisted, Function { name: mangled, ..m.dup() }), seen, diags)
            }
        };
        hoisted = next.0;
        seen = next.1;
        diags = next.2;
        i += 1;
    }
    (hoisted, seen, diags)
}

/// What [`hoist_blocks`] computes from position `i` on.
pub open spec fn hoist_blocks_spec(
    bs: Seq<MethodsBlockView>,
    functions: Seq<FunctionView>,
    hoisted: Seq<FunctionView>,
    diags: Seq<DiagnosticView>,
    i: int,
) -> (Seq<FunctionView>, Seq<DiagnosticView>)
    decreases bs.len() - i,
{
    if 0 <= i < bs.len() {
        let b = bs[i];
        let (hoisted, diags) = match crate::types::nominal_name_spec(b.for_type) {
            Some(owner) => {
                let (hoisted, seen, diags) = hoist_block_spec(
                    b.methods,
                    owner,
                    functions,
                    hoisted,
                    Seq::empty(),
                    diags,
                 0);
                (hoisted, diags)
            },
            None => {
                let message = "`methods on …` target must be a struct or enum type, got "@
                    + crate::ast::type_text_spec(b.for_type);
                (hoisted, diags.push(crate::scope::diag_spec(b.for_type_span, message)))
            },
        };
        hoist_blocks_spec(bs, functions, hoisted, diags, i + 1)
    } else {
        (hoisted, diags)
    }
}

/// Adds the methods of all blocks as functions.
pub fn hoist_blocks(
    bs: &Vec<MethodsBlock>,
    functions: &Vec<Function>,
    hoisted: Vec<Function>,
    diags: Vec<Diagnostic>,
) -> (r: (Vec<Function>, Vec<Diagnostic>))
    ensures
        (crate::ast::functions_view(r.0@), crate::diagnostic::diagnostics_view(r.1@)) == hoist_blocks_spec(
            crate::ast::methods_blocks_view(bs@),
            crate::ast::functions_view(functions@),
            crate::ast::functions_view(hoisted@),
            crate::diagnostic::diagnostics_view(diags@),
            0,
        ),
        crate::state::extends(
            crate::diagnostic::diagnostics_view(diags@),
            crate::diagnostic::diagnostics_view(r.1@),
        ),
{
    let ghost whole_run = hoist_blocks_spec(
        crate::ast::methods_blocks_view(bs@),
        crate::ast::functions_view(functions@),
        crate::ast::functions_view(hoisted@),
        crate::diagnostic::diagnostics_view(diags@),
        0,
    );
    let ghost start_diags = crate::diagnostic::diagnostics_view(diags@);
    let mut hoisted = hoisted;
    let mut diags = diags;
    let mut i: usize = 0;
    while i < bs.len()
        invariant
            i <= bs.len(),
            hoist_blocks_spec(
                crate::ast::methods_blocks_view(bs@),
                crate::ast::functions_view(functions@),
                crate::ast::functions_view(hoisted@),
                crate::diagnostic::diagnostics_view(diags@),
                i as int,
            ) == whole_run,
            crate::state::extends(start_diags, crate::diagnostic::diagnostics_view(diags@)),
        decreases bs.len() - i,
    {
        let b = &bs[i];
        let next = match nominal_name(&b.for_type) {
            Some(owner) => {
                let (hoisted, seen, diags) = hoist_block(
                    &b.methods,
                    &owner,
                    functions,
                    hoisted,
                    Vec::new(),
                    diags,
                );
                (hoisted, diags)
            },
            None => {
                let message = cat2(
                    "`methods on …` target must be a struct or enum type, got ",
                    &type_text(&b.for_type),
                );
                (hoisted, push(diags, diag(b.for_type_span, message)))
            },
        };
        hoisted = next.0;
        diags = next.1;
        i += 1;
    }
    (hoisted, diags)
}

/// What [`hoist_methods_into_functions`] computes.
pub open spec fn hoist_methods_into_functions_spec(
    p: ProgramView,
    diags: Seq<DiagnosticView>,
) -> (ProgramView, Seq<DiagnosticView>)
{
    let (hoisted, diags) = hoist_blocks_spec(p.methods_blocks, p.functions, Seq::empty(), diags, 0);
    let functions = (p.functions) + hoisted;
    (ProgramView { functions, methods_blocks: Seq::empty(), ..p }, diags)
}

/// The program with every method `m` of a `methods on T` block as a function
/// `T_m`, and without such blocks.
pub fn hoist_methods_into_functions(
    p: &Program,
    diags: Vec<Diagnostic>,
) -> (r: (Program, Vec<Diagnostic>))
    ensures
        (
            r.0@,
            crate::diagnostic::diagnostics_view(r.1@),
        ) == hoist_methods_into_functions_spec(p@, crate::diagnostic::diagnostics_view(diags@)),
        crate::state::extends(
            crate::diagnostic::diagnostics_view(diags@),
            crate::diagnostic::diagnostics_view(r.1@),
        ),
{
    let (hoisted, diags) = hoist_blocks(&p.methods_blocks, &p.functions, Vec::new(), diags);
    let functions = join(dup_functions(&p.functions), hoisted);
    (Program { functions, methods_blocks: Vec::new(), ..p.dup() }, diags)
}

/// What [`check_drop_impl`] computes.
pub open spec fn check_drop_impl_spec(
    imp: ImplDeclView,
    diags: Seq<DiagnosticView>,
) -> Seq<DiagnosticView>
{
    if !(imp.interface_name == "Drop"@) {
        diags
    } else if imp.methods.len() != 1 || !(imp.methods[0].name == "drop"@) {
        let message = "`implement Drop for "@ + crate::ast::type_text_spec(imp.for_type)
            + "` must declare exactly one method named `drop` (T2.7)"@;
        diags.push(crate::scope::diag_spec(imp.span, message))
    } else {
        let m = imp.methods[0];
        let owner = match crate::types::nominal_name_spec(imp.for_type) {
            Some(name) => name,
            None => ""@,
        };
        if m.params.len() == 1 && m.params[0].name == "self"@ && m.params[0].ty == imp.for_type
            && crate::types::is_i64_spec(m.return_type) {
            diags
        } else {
            let message = "Drop impl for '"@ + owner + "' must have signature `fn drop(self: "@
                + owner + ") -> i64` — got "@ + crate::text::decimal((m.params.len() as int))
                + " params, return type "@ + crate::ast::type_text_spec(m.return_type) + ""@;
            diags.push(crate::scope::diag_spec(m.span, message))
        }
    }
}

/// What is wrong with the shape of an `implement Drop`.
pub fn check_drop_impl(imp: &ImplDecl, diags: Vec<Diagnostic>) -> (r: Vec<Diagnostic>)
    ensures
        crate::diagnostic::diagnostics_view(r@) == check_drop_impl_spec(
            imp@,
            crate::diagnostic::diagnostics_view(diags@),
        ),
        crate::state::extends(
            crate::diagnostic::diagnostics_view(diags@),
            crate::diagnostic::diagnostics_view(r@),
        ),
{
    if !str_eq(&imp.interface_name, "Drop") {
        diags
    } else if imp.methods.len() != 1 || !str_eq(&imp.methods[0].name, "drop") {
        let message = cat3(
            "`implement Drop for ",
            &type_text(&imp.for_type),
            "` must declare exactly one method named `drop` (T2.7)",
        );
        push(diags, diag(imp.span, message))
    } else {
        let m = &imp.methods[0];
        let owner = match nominal_name(&imp.for_type) {
            Some(name) => name,
            None => text(""),
        };
        if m.params.len() == 1 && str_eq(&m.params[0].name, "self")
            && type_eq(&m.params[0].ty, &imp.for_type) && is_i64(&m.return_type) {
            diags
        } else {
            let message = cat9(
                "Drop impl for '",
                &owner,
                "' must have signature `fn drop(self: ",
                &owner,
                ") -> i64` — got ",
                &usize_text(m.params.len()),
                " params, return type ",
                &type_text(&m.return_type),
                "",
            );
            push(diags, diag(m.span, message))
        }
    }
}

/// What [`find_interface`] computes from position `i` on.
pub open spec fn find_interface_spec(
    ds: Seq<InterfaceDeclView>,
    name: Seq<char>,
    found: Option<InterfaceDeclView>,
    i: int,
) -> Option<InterfaceDeclView>
    decreases ds.len() - i,
{
    if 0 <= i < ds.len() {
        let d = ds[i];
        let found = if d.name == name { Some(d) } else { found };
        find_interface_spec(ds, name, found, i + 1)
    } else {
        found
    }
}

/// The last interface of a name.
pub fn find_interface(
    ds: &Vec<InterfaceDecl>,
    name: &str,
    found: Option<InterfaceDecl>,
) -> (r: Option<InterfaceDecl>)
    ensures
        (match &r { Some(v0) => Some(v0@), None => None }) == find_interface_spec(
            crate::ast::interfaces_view(ds@),
            name@,
            (match &found { Some(v0) => Some(v0@), None => None }),
            0,
        ),
{
    let ghost whole_run = find_interface_spec(
        crate::ast::interfaces_view(ds@),
        name@,
        (match &found { Some(v0) => Some(v0@), None => None }),
        0,
    );
    let mut found = found;
    let mut i: usize = 0;
    while i < ds.len()
        invariant
            i <= ds.len(),
            find_interface_spec(
                crate::ast::interfaces_view(ds@),
                name@,
                (match &found { Some(v0) => Some(v0@), None => None }),
                i as int,
            ) == whole_run,
        decreases ds.len() - i,
    {
        let d = &ds[i];
        found = if str_eq(&d.name, name) { Some(d.dup()) } else { found };
        i += 1;
    }
    found
}

/// What [`receiver_name`] computes.
pub open spec fn receiver_name_spec(ps: Seq<ParamView>) -> Option<Seq<char>>
{
    if ps.len() > 0
        && ps[0].name == "self"@ { crate::types::nominal_name_spec(crate::types::deref_spec(ps[0].ty)) } else { None }
}

/// The name of the type that an interface declares a method's receiver with.
pub fn receiver_name(ps: &Vec<Param>) -> (r: Option<String>)
    ensures
        (match &r { Some(v0) => Some(v0@), None => None }) == receiver_name_spec(crate::ast::params_view(ps@)),
{
    if ps.len() > 0 && str_eq(&ps[0].name, "self") { nominal_name(&deref(&ps[0].ty)) } else { None }
}

/// What [`as_implemented`] computes.
pub open spec fn as_implemented_spec(
    t: TypeView,
    own: Option<Seq<char>>,
    for_type: TypeView,
) -> TypeView
{
    let t = crate::resolve::rewrite_type_spec(t, TypeRewriteView::Parameter("Self"@, for_type));
    let t = crate::resolve::rewrite_type_spec(
        t,
        TypeRewriteView::Aliases(
            crate::scope::named_type_put_spec(Seq::empty(), "Self"@, for_type),
        ),
    );
    match own {
        Some(name) => crate::resolve::rewrite_type_spec(
            t,
            TypeRewriteView::Aliases(
                crate::scope::named_type_put_spec(Seq::empty(), name, for_type),
            ),
        ),
        None => t,
    }
}

/// A type of an interface as its implementation has it: `Self`, and the type
/// of the name `own` where there is one, is the type that the interface is
/// implemented for.
pub fn as_implemented(t: &Type, own: &Option<String>, for_type: &Type) -> (r: Type)
    ensures
        r@ == as_implemented_spec(
            t@,
            (match &own { Some(v0) => Some(v0@), None => None }),
            for_type@,
        ),
{
    let t = rewrite_type(t, &TypeRewrite::Parameter(text("Self"), for_type.dup()));
    let t = rewrite_type(&t, &TypeRewrite::Aliases(named_type_put(&Vec::new(), "Self", for_type)));
    match own {
        Some(name) => rewrite_type(
            &t,
            &TypeRewrite::Aliases(named_type_put(&Vec::new(), name, for_type)),
        ),
        None => t,
    }
}

/// What [`as_declared`] computes.
pub open spec fn as_declared_spec(
    t: TypeView,
    declared: TypeView,
    own: Option<Seq<char>>,
    for_type: TypeView,
) -> bool
{
    t == declared || t == as_implemented_spec(declared, own, for_type)
}

/// Whether a type of a method is the one that the interface declares.
pub fn as_declared(t: &Type, declared: &Type, own: &Option<String>, for_type: &Type) -> (r: bool)
    ensures
        r == as_declared_spec(
            t@,
            declared@,
            (match &own { Some(v0) => Some(v0@), None => None }),
            for_type@,
        ),
{
    type_eq(t, declared) || type_eq(t, &as_implemented(declared, own, for_type))
}

/// What [`other_param`] computes from position `i` on.
pub open spec fn other_param_spec(
    ps: Seq<ParamView>,
    declared: Seq<ParamView>,
    own: Option<Seq<char>>,
    for_type: TypeView,
    found: Option<int>,
    i: int,
) -> Option<int>
    decreases ps.len() - i,
{
    if 0 <= i < ps.len() && !found.is_some() {
        let p = ps[i];
        let found = if i < declared.len()
            && !as_declared_spec(p.ty, declared[i].ty, own, for_type) { Some(i) } else { found };
        other_param_spec(ps, declared, own, for_type, found, i + 1)
    } else {
        found
    }
}

/// The first parameter of a method that is not of the declared type.
pub fn other_param(
    ps: &Vec<Param>,
    declared: &Vec<Param>,
    own: &Option<String>,
    for_type: &Type,
    found: Option<usize>,
) -> (r: Option<usize>)
    ensures
        (match &r { Some(v0) => Some(*v0 as int), None => None }) == other_param_spec(
            crate::ast::params_view(ps@),
            crate::ast::params_view(declared@),
            (match &own { Some(v0) => Some(v0@), None => None }),
            for_type@,
            (match &found { Some(v0) => Some(*v0 as int), None => None }),
            0,
        ),
{
    let ghost whole_run = other_param_spec(
        crate::ast::params_view(ps@),
        crate::ast::params_view(declared@),
        (match &own { Some(v0) => Some(v0@), None => None }),
        for_type@,
        (match &found { Some(v0) => Some(*v0 as int), None => None }),
        0,
    );
    let mut found = found;
    let mut i: usize = 0;
    while i < ps.len() && !found.is_some()
        invariant
            i <= ps.len(),
            other_param_spec(
                crate::ast::params_view(ps@),
                crate::ast::params_view(declared@),
                (match &own { Some(v0) => Some(v0@), None => None }),
                for_type@,
                (match &found { Some(v0) => Some(*v0 as int), None => None }),
                i as int,
            ) == whole_run,
        decreases ps.len() - i,
    {
        let p = &ps[i];
        found = if i < declared.len()
            && !as_declared(&p.ty, &declared[i].ty, own, for_type) { Some(i) } else { found };
        i += 1;
    }
    found
}

/// What [`param_type_text`] computes.
pub open spec fn param_type_text_spec(ps: Seq<ParamView>, k: int) -> Seq<char>
{
    if k < ps.len() { crate::ast::type_text_spec(ps[k].ty) } else { ""@ }
}

pub fn param_type_text(ps: &Vec<Param>, k: usize) -> (r: String)
    ensures
        r@ == param_type_text_spec(crate::ast::params_view(ps@), k as int),
{
    if k < ps.len() { type_text(&ps[k].ty) } else { text("") }
}

/// What [`impl_method_problem`] computes.
pub open spec fn impl_method_problem_spec(
    m: FunctionView,
    owner: Seq<char>,
    interface: Seq<char>,
    declared: Option<InterfaceMethodView>,
    for_type: TypeView,
) -> Option<Seq<char>>
{
    match declared {
        None => Some(
            "interface '"@ + interface + "' has no method '"@ + m.name
                + "' — the impl declares a method not in the interface"@,
        ),
        Some(d) => if m.params.len() != d.params.len() {
            Some(
                "impl method '"@ + owner + "::"@ + m.name + "' has "@
                    + crate::text::decimal((m.params.len() as int))
                    + " parameters but interface declares "@
                    + crate::text::decimal((d.params.len() as int)) + ""@,
            )
        } else if !as_declared_spec(m.return_type, d.return_type, None, for_type) {
            Some(
                "impl method '"@ + owner + "::"@ + m.name + "' returns "@
                    + crate::ast::type_text_spec(m.return_type) + " but interface declares "@
                    + crate::ast::type_text_spec(d.return_type) + ""@,
            )
        } else {
            match other_param_spec(
                m.params,
                d.params,
                receiver_name_spec(d.params),
                for_type,
                None,
                0,
            ) {
                Some(k) => {
                    let head = "impl method '"@ + owner + "::"@ + m.name + "' parameter "@;
                    Some(
                        head + crate::text::decimal(k) + " has type "@
                            + param_type_text_spec(m.params, k) + " but interface declares "@
                            + param_type_text_spec(d.params, k),
                    )
                },
                None => None,
            }
        },
    }
}

/// What is wrong with a method against its declaration in the interface. The
/// result is the declared one, up to `Self`; a parameter of the type that the
/// interface declares the receiver with may be of the implementing type.
pub fn impl_method_problem(
    m: &Function,
    owner: &str,
    interface: &str,
    declared: &Option<InterfaceMethod>,
    for_type: &Type,
) -> (r: Option<String>)
    ensures
        (match &r { Some(v0) => Some(v0@), None => None }) == impl_method_problem_spec(
            m@,
            owner@,
            interface@,
            (match &declared { Some(v0) => Some(v0@), None => None }),
            for_type@,
        ),
{
    match declared {
        None => Some(cat5(
            "interface '",
            interface,
            "' has no method '",
            &m.name,
            "' — the impl declares a method not in the interface",
        )),
        Some(d) => if m.params.len() != d.params.len() {
            Some(cat9(
                "impl method '",
                owner,
                "::",
                &m.name,
                "' has ",
                &usize_text(m.params.len()),
                " parameters but interface declares ",
                &usize_text(d.params.len()),
                "",
            ))
        } else if !as_declared(&m.return_type, &d.return_type, &None, for_type) {
            Some(cat9(
                "impl method '",
                owner,
                "::",
                &m.name,
                "' returns ",
                &type_text(&m.return_type),
                " but interface declares ",
                &type_text(&d.return_type),
                "",
            ))
        } else {
            match other_param(&m.params, &d.params, &receiver_name(&d.params), for_type, None) {
                Some(k) => {
                    let head = cat5("impl method '", owner, "::", &m.name, "' parameter ");
                    Some(cat6(
                        &head,
                        &usize_text(k),
                        " has type ",
                        &param_type_text(&m.params, k),
                        " but interface declares ",
                        &param_type_text(&d.params, k),
                    ))
                },
                None => None,
            }
        },
    }
}

/// What [`hoist_impl_methods`] computes from position `i` on.
pub open spec fn hoist_impl_methods_spec(
    ms: Seq<FunctionView>,
    owner: Seq<char>,
    interface: InterfaceDeclView,
    interface_name: Seq<char>,
    for_type: TypeView,
    functions: Seq<FunctionView>,
    hoisted: Seq<FunctionView>,
    covered: Seq<Seq<char>>,
    diags: Seq<DiagnosticView>,
    i: int,
) -> (Seq<FunctionView>, Seq<Seq<char>>, Seq<DiagnosticView>)
    decreases ms.len() - i,
{
    if 0 <= i < ms.len() {
        let m = ms[i];
        let (hoisted, covered, diags) = {
            let declared = has_interface_method_spec(interface.methods, m.name, None, 0);
            match impl_method_problem_spec(m, owner, interface_name, declared, for_type) {
                Some(message) => (
                    hoisted,
                    covered,
                    diags.push(crate::scope::diag_spec(m.span, message)),
                ),
                None => {
                    let covered = covered.push(m.name);
                    let mangled = owner + "_"@ + m.name;
                    if has_function_spec(functions, mangled)
                        || has_function_spec(hoisted, mangled) {
                        let message = "impl method '"@ + owner + "::"@ + m.name + "' (mangled to '"@
                            + mangled
                            + "') collides with an existing function — `implement` and `methods on T` can't both define the same method"@;
                        (hoisted, covered, diags.push(crate::scope::diag_spec(m.span, message)))
                    } else {
                        (hoisted.push(FunctionView { name: mangled, ..m }), covered, diags)
                    }
                },
            }
        };
        hoist_impl_methods_spec(
            ms,
            owner,
            interface,
            interface_name,
            for_type,
            functions,
            hoisted,
            covered,
            diags,
            i + 1,
        )
    } else {
        (hoisted, covered, diags)
    }
}

/// Adds the methods of one implementation as functions.
pub fn hoist_impl_methods(
    ms: &Vec<Function>,
    owner: &str,
    interface: &InterfaceDecl,
    interface_name: &str,
    for_type: &Type,
    functions: &Vec<Function>,
    hoisted: Vec<Function>,
    covered: Vec<String>,
    diags: Vec<Diagnostic>,
) -> (r: (Vec<Function>, Vec<String>, Vec<Diagnostic>))
    ensures
        (crate::ast::functions_view(r.0@), crate::text::strs_view(r.1@), crate::diagnostic::diagnostics_view(r.2@)) == hoist_impl_methods_spec(
            crate::ast::functions_view(ms@),
            owner@,
            interface@,
            interface_name@,
            for_type@,
            crate::ast::functions_view(functions@),
            crate::ast::functions_view(hoisted@),
            crate::text::strs_view(covered@),
            crate::diagnostic::diagnostics_view(diags@),
            0,
        ),
        crate::state::extends(
            crate::diagnostic::diagnostics_view(diags@),
            crate::diagnostic::diagnostics_view(r.2@),
        ),
{
    let ghost whole_run = hoist_impl_methods_spec(
        crate::ast::functions_view(ms@),
        owner@,
        interface@,
        interface_name@,
        for_type@,
        crate::ast::functions_view(functions@),
        crate::ast::functions_view(hoisted@),
        crate::text::strs_view(covered@),
        crate::diagnostic::diagnostics_view(diags@),
        0,
    );
    let ghost start_diags = crate::diagnostic::diagnostics_view(diags@);
    let mut hoisted = hoisted;
    let mut covered = covered;
    let mut diags = diags;
    let mut i: usize = 0;
    while i < ms.len()
        invariant
            i <= ms.len(),
            hoist_impl_methods_spec(
                crate::ast::functions_view(ms@),
                owner@,
                interface@,
                interface_name@,
                for_type@,
                crate::ast::functions_view(functions@),
                crate::ast::functions_view(hoisted@),
                crate::text::strs_view(covered@),
                crate::diagnostic::diagnostics_view(diags@),
                i as int,
            ) == whole_run,
            crate::state::extends(start_diags, crate::diagnostic::diagnostics_view(diags@)),
        decreases ms.len() - i,
    {
        let m = &ms[i];
        let next = {
            let declared = has_interface_method(&interface.methods, &m.name, None);
            match impl_method_problem(m, owner, interface_name, &declared, for_type) {
                Some(message) => (hoisted, covered, push(diags, diag(m.span, message))),
                None => {
                    let covered = push(covered, m.name.clone());
                    let mangled = cat3(owner, "_", &m.name);
                    if has_function(functions, &mangled) || has_function(&hoisted, &mangled) {
                        let message = cat7(
                            "impl method '",
                            owner,
                            "::",
                            &m.name,
                            "' (mangled to '",
                            &mangled,
                            "') collides with an existing function — `implement` and `methods on T` can't both define the same method",
                        );
                        (hoisted, covered, push(diags, diag(m.span, message)))
                    } else {
                        (push(hoisted, Function { name: mangled, ..m.dup() }), covered, diags)
                    }
                },
            }
        };
        hoisted = next.0;
        covered = next.1;
        diags = next.2;
        i += 1;
    }
    (hoisted, covered, diags)
}

/// What [`missing_methods`] computes from position `i` on.
pub open spec fn missing_methods_spec(
    ds: Seq<InterfaceMethodView>,
    covered: Seq<Seq<char>>,
    imp: ImplDeclView,
    owner: Seq<char>,
    diags: Seq<DiagnosticView>,
    i: int,
) -> Seq<DiagnosticView>
    decreases ds.len() - i,
{
    if 0 <= i < ds.len() {
        let d = ds[i];
        let diags = if covered.contains(d.name) {
            diags
        } else {
            let message = "`implement "@ + imp.interface_name + " for "@ + owner
                + "` is missing the interface method '"@ + d.name + "'"@;
            diags.push(crate::scope::diag_spec(imp.span, message))
        };
        missing_methods_spec(ds, covered, imp, owner, diags, i + 1)
    } else {
        diags
    }
}

/// Reports the methods that an implementation lacks.
pub fn missing_methods(
    ds: &Vec<InterfaceMethod>,
    covered: &Vec<String>,
    imp: &ImplDecl,
    owner: &str,
    diags: Vec<Diagnostic>,
) -> (r: Vec<Diagnostic>)
    ensures
        crate::diagnostic::diagnostics_view(r@) == missing_methods_spec(
            crate::ast::interface_methods_view(ds@),
            crate::text::strs_view(covered@),
            imp@,
            owner@,
            crate::diagnostic::diagnostics_view(diags@),
            0,
        ),
        crate::state::extends(
            crate::diagnostic::diagnostics_view(diags@),
            crate::diagnostic::diagnostics_view(r@),
        ),
{
    let ghost whole_run = missing_methods_spec(
        crate::ast::interface_methods_view(ds@),
        crate::text::strs_view(covered@),
        imp@,
        owner@,
        crate::diagnostic::diagnostics_view(diags@),
        0,
    );
    let ghost start_diags = crate::diagnostic::diagnostics_view(diags@);
    let mut diags = diags;
    let mut i: usize = 0;
    while i < ds.len()
        invariant
            i <= ds.len(),
            missing_methods_spec(
                crate::ast::interface_methods_view(ds@),
                crate::text::strs_view(covered@),
                imp@,
                owner@,
                crate::diagnostic::diagnostics_view(diags@),
                i as int,
            ) == whole_run,
            crate::state::extends(start_diags, crate::diagnostic::diagnostics_view(diags@)),
        decreases ds.len() - i,
    {
        let d = &ds[i];
        diags = if contains_str(covered, &d.name) {
            diags
        } else {
            let message = cat7(
                "`implement ",
                &imp.interface_name,
                " for ",
                owner,
                "` is missing the interface method '",
                &d.name,
                "'",
            );
            push(diags, diag(imp.span, message))
        };
        i += 1;
    }
    diags
}

/// What [`hoist_impls`] computes from position `i` on.
pub open spec fn hoist_impls_spec(
    imps: Seq<ImplDeclView>,
    p: ProgramView,
    hoisted: Seq<FunctionView>,
    diags: Seq<DiagnosticView>,
    i: int,
) -> (Seq<FunctionView>, Seq<DiagnosticView>)
    decreases imps.len() - i,
{
    if 0 <= i < imps.len() {
        let imp = imps[i];
        let (hoisted, diags) = {
            let diags = check_drop_impl_spec(imp, diags);
            match find_interface_spec(p.interfaces, imp.interface_name, None, 0) {
                None => {
                    let message = "`implement "@ + imp.interface_name + " for "@
                        + crate::ast::type_text_spec(imp.for_type)
                        + "` references unknown interface '"@ + imp.interface_name + "'"@;
                    (hoisted, diags.push(crate::scope::diag_spec(imp.span, message)))
                },
                Some(interface) => match crate::types::nominal_name_spec(imp.for_type) {
                    None => {
                        let message = "`implement "@ + imp.interface_name + " for "@
                            + crate::ast::type_text_spec(imp.for_type)
                            + "` requires a struct or enum type (got "@
                            + crate::ast::type_text_spec(imp.for_type) + ")"@;
                        (hoisted, diags.push(crate::scope::diag_spec(imp.span, message)))
                    },
                    Some(owner) => {
                        let (hoisted, covered, diags) = hoist_impl_methods_spec(
                            imp.methods,
                            owner,
                            interface,
                            imp.interface_name,
                            imp.for_type,
                            p.functions,
                            hoisted,
                            Seq::empty(),
                            diags,
                         0);
                        (
                            hoisted,
                            missing_methods_spec(interface.methods, covered, imp, owner, diags, 0),
                        )
                    },
                },
            }
        };
        hoist_impls_spec(imps, p, hoisted, diags, i + 1)
    } else {
        (hoisted, diags)
    }
}

/// Adds the methods of all implementations as functions.
pub fn hoist_impls(
    imps: &Vec<ImplDecl>,
    p: &Program,
    hoisted: Vec<Function>,
    diags: Vec<Diagnostic>,
) -> (r: (Vec<Function>, Vec<Diagnostic>))
    ensures
        (crate::ast::functions_view(r.0@), crate::diagnostic::diagnostics_view(r.1@)) == hoist_impls_spec(
            crate::ast::impls_view(imps@),
            p@,
            crate::ast::functions_view(hoisted@),
            crate::diagnostic::diagnostics_view(diags@),
            0,
        ),
        crate::state::extends(
            crate::diagnostic::diagnostics_view(diags@),
            crate::diagnostic::diagnostics_view(r.1@),
        ),
{
    let ghost whole_run = hoist_impls_spec(
        crate::ast::impls_view(imps@),
        p@,
        crate::ast::functions_view(hoisted@),
        crate::diagnostic::diagnostics_view(diags@),
        0,
    );
    let ghost start_diags = crate::diagnostic::diagnostics_view(diags@);
    let mut hoisted = hoisted;
    let mut diags = diags;
    let mut i: usize = 0;
    while i < imps.len()
        invariant
            i <= imps.len(),
            hoist_impls_spec(
                crate::ast::impls_view(imps@),
                p@,
                crate::ast::functions_view(hoisted@),
                crate::diagnostic::diagnostics_view(diags@),
                i as int,
            ) == whole_run,
            crate::state::extends(start_diags, crate::diagnostic::diagnostics_view(diags@)),
        decreases imps.len() - i,
    {
        let imp = &imps[i];
        let next = {
            let diags = check_drop_impl(imp, diags);
            match find_interface(&p.interfaces, &imp.interface_name, None) {
                None => {
                    let message = cat7(
                        "`implement ",
                        &imp.interface_name,
                        " for ",
                        &type_text(&imp.for_type),
                        "` references unknown interface '",
                        &imp.interface_name,
                        "'",
                    );
                    (hoisted, push(diags, diag(imp.span, message)))
                },
                Some(interface) => match nominal_name(&imp.for_type) {
                    None => {
                        let message = cat7(
                            "`implement ",
                            &imp.interface_name,
                            " for ",
                            &type_text(&imp.for_type),
                            "` requires a struct or enum type (got ",
                            &type_text(&imp.for_type),
                            ")",
                        );
                        (hoisted, push(diags, diag(imp.span, message)))
                    },
                    Some(owner) => {
                        let (hoisted, covered, diags) = hoist_impl_methods(
                            &imp.methods,
                            &owner,
                            &interface,
                            &imp.interface_name,
                            &imp.for_type,
                            &p.functions,
                            hoisted,
                            Vec::new(),
                            diags,
                        );
                        (hoisted, missing_methods(&interface.methods, &covered, imp, &owner, diags))
                    },
                },
            }
        };
        hoisted = next.0;
        diags = next.1;
        i += 1;
    }
    (hoisted, diags)
}

/// What [`hoist_impls_into_functions`] computes.
pub open spec fn hoist_impls_into_functions_spec(
    p: ProgramView,
    diags: Seq<DiagnosticView>,
) -> (ProgramView, Seq<DiagnosticView>)
{
    let (hoisted, diags) = hoist_impls_spec(p.impls, p, Seq::empty(), diags, 0);
    let functions = (p.functions) + hoisted;
    (ProgramView { functions, impls: Seq::empty(), ..p }, diags)
}

/// The program with every method `m` of an implementation for `T` as a
/// function `T_m`, and without implementations.
pub fn hoist_impls_into_functions(
    p: &Program,
    diags: Vec<Diagnostic>,
) -> (r: (Program, Vec<Diagnostic>))
    ensures
        (
            r.0@,
            crate::diagnostic::diagnostics_view(r.1@),
        ) == hoist_impls_into_functions_spec(p@, crate::diagnostic::diagnostics_view(diags@)),
        crate::state::extends(
            crate::diagnostic::diagnostics_view(diags@),
            crate::diagnostic::diagnostics_view(r.1@),
        ),
{
    let (hoisted, diags) = hoist_impls(&p.impls, p, Vec::new(), diags);
    let functions = join(dup_functions(&p.functions), hoisted);
    (Program { functions, impls: Vec::new(), ..p.dup() }, diags)
}

/// What [`find_enum`] computes from position `i` on.
pub open spec fn find_enum_spec(
    ds: Seq<EnumDeclView>,
    name: Seq<char>,
    found: Option<EnumDeclView>,
    i: int,
) -> Option<EnumDeclView>
    decreases ds.len() - i,
{
    if 0 <= i < ds.len() {
        let d = ds[i];
        let found = if d.name == name { Some(d) } else { found };
        find_enum_spec(ds, name, found, i + 1)
    } else {
        found
    }
}

/// The last enum of a name.
pub fn find_enum(ds: &Vec<EnumDecl>, name: &str, found: Option<EnumDecl>) -> (r: Option<EnumDecl>)
    ensures
        (match &r { Some(v0) => Some(v0@), None => None }) == find_enum_spec(
            crate::ast::enums_view(ds@),
            name@,
            (match &found { Some(v0) => Some(v0@), None => None }),
            0,
        ),
{
    let ghost whole_run = find_enum_spec(
        crate::ast::enums_view(ds@),
        name@,
        (match &found { Some(v0) => Some(v0@), None => None }),
        0,
    );
    let mut found = found;
    let mut i: usize = 0;
    while i < ds.len()
        invariant
            i <= ds.len(),
            find_enum_spec(
                crate::ast::enums_view(ds@),
                name@,
                (match &found { Some(v0) => Some(v0@), None => None }),
                i as int,
            ) == whole_run,
        decreases ds.len() - i,
    {
        let d = &ds[i];
        found = if str_eq(&d.name, name) { Some(d.dup()) } else { found };
        i += 1;
    }
    found
}

/// What [`variants_with`] computes.
pub open spec fn variants_with_spec(vs: Seq<VariantDeclView>, payload: bool) -> Seq<Seq<char>>
{
    vs.filter(
        |v: VariantDeclView| (v.payload.len() > 0) == payload,
    ).map_values(|v: VariantDeclView| v.name)
}

/// The variants with a payload, or those without.
pub fn variants_with(vs: &Vec<VariantDecl>, payload: bool) -> (r: Vec<String>)
    ensures
        crate::text::strs_view(r@) == variants_with_spec(crate::ast::variants_view(vs@), payload),
{
    let ghost all = crate::ast::variants_view(vs@);
    let mut r: Vec<String> = Vec::new();
    let mut i: usize = 0;
    proof {
        reveal(Seq::filter);
        assert(all.take(0) =~= Seq::empty());
    }
    while i < vs.len()
        invariant
            i <= vs.len(),
            all == crate::ast::variants_view(vs@),
            crate::text::strs_view(r@) == variants_with_spec(all.take(i as int), payload),
        decreases vs.len() - i,
    {
        let v = &vs[i];
        proof {
            reveal(Seq::filter);
            assert(all[i as int] == v@);
            assert(all.take(i + 1).drop_last() =~= all.take(i as int));
            assert(all.take(i + 1).last() == all[i as int]);
        }
        if (v.payload.len() > 0) == payload {
            r.push(v.name.clone());
        }
        i += 1;
    }
    assert(all.take(i as int) =~= all);
    r
}

/// What [`only_lets`] computes.
pub open spec fn only_lets_spec(body: Seq<StmtView>, from: int, to: int) -> bool
    decreases to - from,
{
    if from >= to {
        true
    } else {
        match body[from] {
            StmtView::Let { .. } => only_lets_spec(body, from + 1, to),
            StmtView::Print { .. } => only_lets_spec(body, from + 1, to),
            _ => false,
        }
    }
}

/// Whether the statements from `from` up to `to` are all `let` or `print`.
pub fn only_lets(body: &Vec<Stmt>, from: usize, to: usize) -> (r: bool)
    requires
        to <= body.len(),
    ensures
        r == only_lets_spec(crate::ast::stmts_view(body@), from as int, to as int),
    decreases to - from,
{
    if from >= to {
        true
    } else {
        match &body[from] {
            Stmt::Let { .. } => only_lets(body, from + 1, to),
            Stmt::Print { .. } => only_lets(body, from + 1, to),
            _ => false,
        }
    }
}

/// What [`copy_stmts`] computes.
pub open spec fn copy_stmts_spec(
    body: Seq<StmtView>,
    from: int,
    to: int,
    out: Seq<StmtView>,
) -> Seq<StmtView>
    decreases to - from,
{
    if from >= to {
        out
    } else {
        let s = body[from];
        copy_stmts_spec(body, from + 1, to, out.push(s))
    }
}

/// Adds the statements from `from` up to `to`.
pub fn copy_stmts(body: &Vec<Stmt>, from: usize, to: usize, out: Vec<Stmt>) -> (r: Vec<Stmt>)
    requires
        to <= body.len(),
    ensures
        crate::ast::stmts_view(r@) == copy_stmts_spec(
            crate::ast::stmts_view(body@),
            from as int,
            to as int,
            crate::ast::stmts_view(out@),
        ),
    decreases to - from,
{
    if from >= to {
        out
    } else {
        let s = body[from].dup();
        copy_stmts(body, from + 1, to, push(out, s))
    }
}

/// What [`try_as_match`] computes.
pub open spec fn try_as_match_spec(
    f: FunctionView,
    name: Seq<char>,
    annotation: Option<TypeView>,
    tried: ExprView,
    span: Span,
    tail: ExprView,
    tail_span: Span,
    enum_name: Seq<char>,
    some_variant: Seq<char>,
    none_variant: Seq<char>,
    fresh: Seq<char>,
) -> FunctionView
{
    let annotation = match annotation {
        Some(t) => Some(t),
        None => None,
    };
    let first = crate::construct::mk_let_spec(
        name,
        annotation,
        crate::construct::mk_var_spec(fresh, span),
        span,
    );
    let stmts = copy_stmts_spec(f.body, 1, ((f.body.len() - 1) as int), Seq::empty().push(first));
    let some_body = crate::construct::mk_block_spec(stmts, tail, span);
    let none_body = crate::construct::mk_field_spec(
        crate::construct::mk_var_spec(enum_name, span),
        none_variant,
        span,
    );
    let some_pattern = PatternView::VariantWithBinding {
        enum_name: enum_name,
        variant: some_variant,
        binding: fresh,
    };
    let none_pattern = PatternView::Variant {
        enum_name: enum_name,
        variant: none_variant,
    };
    let some_arm = crate::construct::mk_arm_spec(some_pattern, span, some_body);
    let none_arm = crate::construct::mk_arm_spec(none_pattern, span, none_body);
    let matched = crate::construct::mk_match_spec(
        tried,
        Seq::empty().push(some_arm).push(none_arm),
        span,
    );
    let body = Seq::empty().push(crate::construct::mk_return_spec(matched, tail_span));
    FunctionView { body, ..f }
}

/// The function as one `match` on the tried value: the payload is bound and
/// the rest of the body follows, or the empty variant is returned.
pub fn try_as_match(
    f: &Function,
    name: &str,
    annotation: &Option<Type>,
    tried: &Expr,
    span: Span,
    tail: &Expr,
    tail_span: Span,
    enum_name: &str,
    some_variant: &str,
    none_variant: &str,
    fresh: &str,
) -> (r: Function)
    requires
        f.body.len() > 0,
    ensures
        r@ == try_as_match_spec(
            f@,
            name@,
            (match &annotation { Some(v0) => Some(v0@), None => None }),
            tried@,
            span,
            tail@,
            tail_span,
            enum_name@,
            some_variant@,
            none_variant@,
            fresh@,
        ),
{
    let annotation = match annotation {
        Some(t) => Some(t.dup()),
        None => None,
    };
    let first = mk_let(name, annotation, mk_var(fresh, span), span);
    let stmts = copy_stmts(&f.body, 1, f.body.len() - 1, push(Vec::new(), first));
    let some_body = mk_block(stmts, tail.dup(), span);
    let none_body = mk_field(mk_var(enum_name, span), none_variant, span);
    let some_pattern = Pattern::VariantWithBinding {
        enum_name: text(enum_name),
        variant: text(some_variant),
        binding: text(fresh),
    };
    let none_pattern = Pattern::Variant {
        enum_name: text(enum_name),
        variant: text(none_variant),
    };
    let some_arm = mk_arm(some_pattern, span, some_body);
    let none_arm = mk_arm(none_pattern, span, none_body);
    let matched = mk_match(tried.dup(), push(push(Vec::new(), some_arm), none_arm), span);
    let body = push(Vec::new(), mk_return(matched, tail_span));
    Function { body, ..f.dup() }
}

/// What [`desugar_try`] computes.
pub open spec fn desugar_try_spec(
    f: FunctionView,
    enums: Seq<EnumDeclView>,
    counter: int,
    diags: Seq<DiagnosticView>,
) -> (FunctionView, int, Seq<DiagnosticView>)
{
    if f.body.len() < 2 {
        (f, counter, diags)
    } else {
        match (f.body[0], f.body[f.body.len() - 1]) {
            (
                StmtView::Let { name, annotation, expr, span },
                StmtView::Return { expr: tail, span: tail_span },
            ) => match expr.kind {
                ExprKindView::Try { inner } => if !only_lets_spec(
                    f.body,
                    1,
                    ((f.body.len() - 1) as int),
                ) {
                    let message = "`try` desugar in v1 requires only `let` and `print` statements between the `try`-let and the final `return`; control flow / assignments between aren't supported yet (T2.6 phase 2 follow-up)"@;
                    (f, counter, diags.push(crate::scope::diag_spec(span, message)))
                } else {
                    match f.return_type {
                        TypeView::Enum(enum_name) => match find_enum_spec(
                            enums,
                            enum_name,
                            None,
                            0,
                        ) {
                            None => (f, counter, diags),
                            Some(decl) => {
                                let full = variants_with_spec(decl.variants, true);
                                let empty = variants_with_spec(decl.variants, false);
                                if full.len() != 1 || empty.len() != 1 {
                                    let message = "`try` requires the enum '"@ + enum_name
                                        + "' to have exactly one payloaded variant and one payload-less variant; got "@
                                        + crate::text::decimal((full.len() as int))
                                        + " payloaded and "@
                                        + crate::text::decimal((empty.len() as int))
                                        + " payload-less"@;
                                    (f, counter, diags.push(crate::scope::diag_spec(span, message)))
                                } else {
                                    let fresh = "__try_v_"@ + crate::text::decimal(counter);
                                    (
                                        try_as_match_spec(
                                            f,
                                            name,
                                            annotation,
                                            *inner,
                                            span,
                                            tail,
                                            tail_span,
                                            enum_name,
                                            full[0],
                                            empty[0],
                                            fresh,
                                        ),
                                        counter + 1,
                                        diags,
                                    )
                                }
                            },
                        },
                        _ => {
                            let message = "`try` requires the enclosing function's return type to be an enum; got "@
                                + crate::ast::type_text_spec(f.return_type);
                            (f, counter, diags.push(crate::scope::diag_spec(span, message)))
                        },
                    }
                },
                _ => (f, counter, diags),
            },
            _ => (f, counter, diags),
        }
    }
}

/// Unfolds a body of the form `let v = try e; ..; return x;`. Any other body
/// stays as it is.
pub fn desugar_try(
    f: &Function,
    enums: &Vec<EnumDecl>,
    counter: usize,
    diags: Vec<Diagnostic>,
) -> (r: (Function, usize, Vec<Diagnostic>))
    requires
        counter < usize::MAX,
    ensures
        (r.0@, r.1 as int, crate::diagnostic::diagnostics_view(r.2@)) == desugar_try_spec(
            f@,
            crate::ast::enums_view(enums@),
            counter as int,
            crate::diagnostic::diagnostics_view(diags@),
        ),
        r.1 <= counter + 1,
        crate::state::extends(
            crate::diagnostic::diagnostics_view(diags@),
            crate::diagnostic::diagnostics_view(r.2@),
        ),
{
    proof {
        reveal_with_fuel(crate::ast::expr_view, 4);
        reveal_with_fuel(crate::ast::expr_kind_view, 4);
        reveal_with_fuel(crate::ast::stmt_view, 3);
        reveal_with_fuel(crate::ast::exprs_view, 3);
        reveal_with_fuel(crate::ast::stmts_view, 3);
        reveal_with_fuel(crate::ast::arms_view, 3);
        reveal_with_fuel(crate::ast::match_arm_view, 3);
    }
    if f.body.len() < 2 {
        (f.dup(), counter, diags)
    } else {
        match (&f.body[0], &f.body[f.body.len() - 1]) {
            (
                Stmt::Let { name, annotation, expr, span },
                Stmt::Return { expr: tail, span: tail_span },
            ) => match &expr.kind {
                ExprKind::Try { inner } => if !only_lets(&f.body, 1, f.body.len() - 1) {
                    let message = text(
                        "`try` desugar in v1 requires only `let` and `print` statements between the `try`-let and the final `return`; control flow / assignments between aren't supported yet (T2.6 phase 2 follow-up)",
                    );
                    (f.dup(), counter, push(diags, diag(*span, message)))
                } else {
                    match &f.return_type {
                        Type::Enum(enum_name) => match find_enum(enums, enum_name, None) {
                            None => (f.dup(), counter, diags),
                            Some(decl) => {
                                let full = variants_with(&decl.variants, true);
                                let empty = variants_with(&decl.variants, false);
                                if full.len() != 1 || empty.len() != 1 {
                                    let message = cat7(
                                        "`try` requires the enum '",
                                        enum_name,
                                        "' to have exactly one payloaded variant and one payload-less variant; got ",
                                        &usize_text(full.len()),
                                        " payloaded and ",
                                        &usize_text(empty.len()),
                                        " payload-less",
                                    );
                                    (f.dup(), counter, push(diags, diag(*span, message)))
                                } else {
                                    let fresh = cat2("__try_v_", &usize_text(counter));
                                    (
                                        try_as_match(
                                            f,
                                            name,
                                            annotation,
                                            &**inner,
                                            *span,
                                            tail,
                                            *tail_span,
                                            enum_name,
                                            &full[0],
                                            &empty[0],
                                            &fresh,
                                        ),
                                        counter + 1,
                                        diags,
                                    )
                                }
                            },
                        },
                        _ => {
                            let message = cat2(
                                "`try` requires the enclosing function's return type to be an enum; got ",
                                &type_text(&f.return_type),
                            );
                            (f.dup(), counter, push(diags, diag(*span, message)))
                        },
                    }
                },
                _ => (f.dup(), counter, diags),
            },
            _ => (f.dup(), counter, diags),
        }
    }
}

/// What [`desugar_tries`] computes from position `i` on.
pub open spec fn desugar_tries_spec(
    fs: Seq<FunctionView>,
    enums: Seq<EnumDeclView>,
    out: Seq<FunctionView>,
    counter: int,
    diags: Seq<DiagnosticView>,
    i: int,
) -> (Seq<FunctionView>, int, Seq<DiagnosticView>)
    decreases fs.len() - i,
{
    if 0 <= i < fs.len() {
        let f = fs[i];
        let (out, counter, diags) = {
            let (g, counter, diags) = desugar_try_spec(f, enums, counter, diags);
            (out.push(g), counter, diags)
        };
        desugar_tries_spec(fs, enums, out, counter, diags, i + 1)
    } else {
        (out, counter, diags)
    }
}

/// Unfolds the leading `try` of every function.
pub fn desugar_tries(
    fs: &Vec<Function>,
    enums: &Vec<EnumDecl>,
    out: Vec<Function>,
    counter: usize,
    diags: Vec<Diagnostic>,
) -> (r: (Vec<Function>, usize, Vec<Diagnostic>))
    requires
        counter + fs.len() <= usize::MAX,
    ensures
        (crate::ast::functions_view(r.0@), r.1 as int, crate::diagnostic::diagnostics_view(r.2@)) == desugar_tries_spec(
            crate::ast::functions_view(fs@),
            crate::ast::enums_view(enums@),
            crate::ast::functions_view(out@),
            counter as int,
            crate::diagnostic::diagnostics_view(diags@),
            0,
        ),
        crate::state::extends(
            crate::diagnostic::diagnostics_view(diags@),
            crate::diagnostic::diagnostics_view(r.2@),
        ),
{
    let ghost whole_run = desugar_tries_spec(
        crate::ast::functions_view(fs@),
        crate::ast::enums_view(enums@),
        crate::ast::functions_view(out@),
        counter as int,
        crate::diagnostic::diagnostics_view(diags@),
        0,
    );
    let ghost start_diags = crate::diagnostic::diagnostics_view(diags@);
    let ghost start_counter = counter as int;
    let mut out = out;
    let mut counter = counter;
    let mut diags = diags;
    let mut i: usize = 0;
    while i < fs.len()
        invariant
            i <= fs.len(),
            desugar_tries_spec(
                crate::ast::functions_view(fs@),
                crate::ast::enums_view(enums@),
                crate::ast::functions_view(out@),
                counter as int,
                crate::diagnostic::diagnostics_view(diags@),
                i as int,
            ) == whole_run,
            crate::state::extends(start_diags, crate::diagnostic::diagnostics_view(diags@)),
            counter <= start_counter + i, start_counter + fs.len() <= usize::MAX,
        decreases fs.len() - i,
    {
        let f = &fs[i];
        let next = {
            let (g, counter, diags) = desugar_try(f, enums, counter, diags);
            (push(out, g), counter, diags)
        };
        out = next.0;
        counter = next.1;
        diags = next.2;
        i += 1;
    }
    (out, counter, diags)
}

/// What [`desugar_try_let_in_program`] computes.
pub open spec fn desugar_try_let_in_program_spec(
    p: ProgramView,
    diags: Seq<DiagnosticView>,
) -> (ProgramView, Seq<DiagnosticView>)
{
    let (functions, counter, diags) = desugar_tries_spec(
        p.functions,
        p.enums,
        Seq::empty(),
        0,
        diags,
        0,
    );
    (ProgramView { functions, ..p }, diags)
}

/// The program with every leading `try` unfolded.
pub fn desugar_try_let_in_program(
    p: &Program,
    diags: Vec<Diagnostic>,
) -> (r: (Program, Vec<Diagnostic>))
    ensures
        (
            r.0@,
            crate::diagnostic::diagnostics_view(r.1@),
        ) == desugar_try_let_in_program_spec(p@, crate::diagnostic::diagnostics_view(diags@)),
        crate::state::extends(
            crate::diagnostic::diagnostics_view(diags@),
            crate::diagnostic::diagnostics_view(r.1@),
        ),
{
    let (functions, counter, diags) = desugar_tries(&p.functions, &p.enums, Vec::new(), 0, diags);
    (Program { functions, ..p.dup() }, diags)
}

/// Functions whose names are all different, and different from those of the
/// functions that there are already.
pub open spec fn newly_named(hoisted: Seq<FunctionView>, functions: Seq<FunctionView>) -> bool {
    &&& forall|j: int, k: int|
        0 <= j < k < hoisted.len() ==> (#[trigger] hoisted[j]).name != (#[trigger] hoisted[k]).name
    &&& forall|j: int, k: int|
        0 <= j < hoisted.len() && 0 <= k < functions.len() ==> (#[trigger] hoisted[j]).name != (
        #[trigger] functions[k]).name
}

proof fn one_more_named(hoisted: Seq<FunctionView>, functions: Seq<FunctionView>, f: FunctionView)
    requires
        newly_named(hoisted, functions),
        !has_function_spec(functions, f.name),
        !has_function_spec(hoisted, f.name),
    ensures
        newly_named(hoisted.push(f), functions),
{
}

proof fn block_hoisted(
    ms: Seq<FunctionView>,
    owner: Seq<char>,
    functions: Seq<FunctionView>,
    hoisted: Seq<FunctionView>,
    seen: Seq<Seq<char>>,
    diags: Seq<DiagnosticView>,
    i: int,
)
    requires
        0 <= i <= ms.len(),
        newly_named(hoisted, functions),
    ensures
        ({
            let r = hoist_block_spec(ms, owner, functions, hoisted, seen, diags, i);
            &&& newly_named(r.0, functions)
            &&& r.0.len() + r.2.len() == hoisted.len() + diags.len() + ms.len() - i
            &&& hoisted.len() <= r.0.len()
            &&& diags.len() <= r.2.len()
        }),
    decreases ms.len() - i,
{
    if i < ms.len() {
        let m = ms[i];
        let mangled = owner + "_"@ + m.name;
        let f = FunctionView { name: mangled, ..m };
        let twice = crate::scope::diag_spec(
            m.span,
            "method '"@ + owner + "::"@ + m.name + "' is declared twice in this methods block"@,
        );
        let collides = crate::scope::diag_spec(
            m.span,
            "method '"@ + owner + "::"@ + m.name + "' (mangled to '"@ + mangled
                + "') collides with an existing function — pick a different method name"@,
        );
        if seen.contains(m.name) {
            block_hoisted(ms, owner, functions, hoisted, seen, diags.push(twice), i + 1);
        } else if has_function_spec(functions, mangled) || has_function_spec(
            hoisted,
            mangled) {
            block_hoisted(
                ms,
                owner,
                functions,
                hoisted,
                seen.push(m.name),
                diags.push(collides),
                i + 1,
            );
        } else {
            one_more_named(hoisted, functions, f);
            block_hoisted(ms, owner, functions, hoisted.push(f), seen.push(m.name), diags, i + 1);
        }
    }
}

/// How many methods the blocks from position `i` on declare.
pub open spec fn methods_in(bs: Seq<MethodsBlockView>, i: int) -> nat
    decreases bs.len() - i,
{
    if 0 <= i < bs.len() {
        bs[i].methods.len() + methods_in(bs, i + 1)
    } else {
        0
    }
}

proof fn blocks_hoisted(
    bs: Seq<MethodsBlockView>,
    functions: Seq<FunctionView>,
    hoisted: Seq<FunctionView>,
    diags: Seq<DiagnosticView>,
    i: int,
)
    requires
        0 <= i <= bs.len(),
        newly_named(hoisted, functions),
    ensures
        ({
            let r = hoist_blocks_spec(bs, functions, hoisted, diags, i);
            &&& newly_named(r.0, functions)
            &&& diags.len() <= r.1.len()
            &&& r.1.len() == diags.len() ==> r.0.len() == hoisted.len() + methods_in(bs, i)
        }),
    decreases bs.len() - i,
{
    if i < bs.len() {
        let b = bs[i];
        match crate::types::nominal_name_spec(b.for_type) {
            Some(owner) => {
                block_hoisted(b.methods, owner, functions, hoisted, Seq::empty(), diags, 0);
                let r = hoist_block_spec(
                    b.methods,
                    owner,
                    functions,
                    hoisted,
                    Seq::empty(),
                    diags,
                    0,
                );
                blocks_hoisted(bs, functions, r.0, r.2, i + 1);
            },
            None => {
                let message = "`methods on …` target must be a struct or enum type, got "@
                    + crate::ast::type_text_spec(b.for_type);
                blocks_hoisted(
                    bs,
                    functions,
                    hoisted,
                    diags.push(crate::scope::diag_spec(b.for_type_span, message)),
                    i + 1,
                );
            },
        }
    }
}

/// Every method becomes a function of its own behind the functions that there
/// are, under a name that no other function has, or something is reported; no
/// methods block is left.
pub proof fn methods_become_functions(p: ProgramView, diags: Seq<DiagnosticView>)
    ensures
        ({
            let (q, after) = hoist_methods_into_functions_spec(p, diags);
            let hoisted = q.functions.subrange(p.functions.len() as int, q.functions.len() as int);
            &&& q.methods_blocks.len() == 0
            &&& p.functions.is_prefix_of(q.functions)
            &&& newly_named(hoisted, p.functions)
            &&& after.len() >= diags.len()
            &&& after.len() == diags.len() ==> hoisted.len() == methods_in(p.methods_blocks, 0)
        }),
{
    let none = Seq::<FunctionView>::empty();
    blocks_hoisted(p.methods_blocks, p.functions, none, diags, 0);
    let r = hoist_blocks_spec(p.methods_blocks, p.functions, none, diags, 0);
    let q = hoist_methods_into_functions_spec(p, diags).0;
    assert(q.functions.subrange(p.functions.len() as int, q.functions.len() as int) =~= r.0);
    assert(q.functions.subrange(0, p.functions.len() as int) =~= p.functions);
}

proof fn impl_methods_hoisted(
    ms: Seq<FunctionView>,
    owner: Seq<char>,
    interface: InterfaceDeclView,
    interface_name: Seq<char>,
    for_type: TypeView,
    functions: Seq<FunctionView>,
    hoisted: Seq<FunctionView>,
    covered: Seq<Seq<char>>,
    diags: Seq<DiagnosticView>,
    i: int,
)
    requires
        0 <= i <= ms.len(),
        newly_named(hoisted, functions),
    ensures
        ({
            let r = hoist_impl_methods_spec(
                ms,
                owner,
                interface,
                interface_name,
                for_type,
                functions,
                hoisted,
                covered,
                diags,
                i,
            );
            &&& newly_named(r.0, functions)
            &&& r.0.len() + r.2.len() == hoisted.len() + diags.len() + ms.len() - i
            &&& hoisted.len() <= r.0.len()
            &&& diags.len() <= r.2.len()
        }),
    decreases ms.len() - i,
{
    if i < ms.len() {
        let m = ms[i];
        let declared = has_interface_method_spec(interface.methods, m.name, None, 0);
        let mangled = owner + "_"@ + m.name;
        let f = FunctionView { name: mangled, ..m };
        let collides = crate::scope::diag_spec(
            m.span,
            "impl method '"@ + owner + "::"@ + m.name + "' (mangled to '"@ + mangled
                + "') collides with an existing function — `implement` and `methods on T` can't both define the same method"@,
        );
        match impl_method_problem_spec(m, owner, interface_name, declared, for_type) {
            Some(message) => {
                impl_methods_hoisted(
                    ms,
                    owner,
                    interface,
                    interface_name,
                    for_type,
                    functions,
                    hoisted,
                    covered,
                    diags.push(crate::scope::diag_spec(m.span, message)),
                    i + 1,
                );
            },
            None => {
                let covered = covered.push(m.name);
                if has_function_spec(functions, mangled) || has_function_spec(
                    hoisted,
                    mangled) {
                    impl_methods_hoisted(
                        ms,
                        owner,
                        interface,
                        interface_name,
                        for_type,
                        functions,
                        hoisted,
                        covered,
                        diags.push(collides),
                        i + 1,
                    );
                } else {
                    one_more_named(hoisted, functions, f);
                    impl_methods_hoisted(
                        ms,
                        owner,
                        interface,
                        interface_name,
                        for_type,
                        functions,
                        hoisted.push(f),
                        covered,
                        diags,
                        i + 1,
                    );
                }
            },
        }
    }
}

proof fn missing_only_reported(
    ds: Seq<InterfaceMethodView>,
    covered: Seq<Seq<char>>,
    imp: ImplDeclView,
    owner: Seq<char>,
    diags: Seq<DiagnosticView>,
    i: int,
)
    requires
        0 <= i <= ds.len(),
    ensures
        missing_methods_spec(ds, covered, imp, owner, diags, i).len() >= diags.len(),
        missing_methods_spec(
            ds,
            covered,
            imp,
            owner,
            diags,
            i,
        ).len() == diags.len() <==> forall|j: int|
            i <= j < ds.len() ==> covered.contains((#[trigger] ds[j]).name),
    decreases ds.len() - i,
{
    if i < ds.len() {
        let d = ds[i];
        let message = "`implement "@ + imp.interface_name + " for "@ + owner
            + "` is missing the interface method '"@ + d.name + "'"@;
        if covered.contains(d.name) {
            missing_only_reported(ds, covered, imp, owner, diags, i + 1);
        } else {
            missing_only_reported(
                ds,
                covered,
                imp,
                owner,
                diags.push(crate::scope::diag_spec(imp.span, message)),
                i + 1,
            );
        }
    }
}

/// How many methods the implementations from position `i` on declare.
pub open spec fn impl_methods_in(imps: Seq<ImplDeclView>, i: int) -> nat
    decreases imps.len() - i,
{
    if 0 <= i < imps.len() {
        imps[i].methods.len() + impl_methods_in(imps, i + 1)
    } else {
        0
    }
}

proof fn impls_hoisted(
    imps: Seq<ImplDeclView>,
    p: ProgramView,
    hoisted: Seq<FunctionView>,
    diags: Seq<DiagnosticView>,
    i: int,
)
    requires
        0 <= i <= imps.len(),
        newly_named(hoisted, p.functions),
    ensures
        ({
            let r = hoist_impls_spec(imps, p, hoisted, diags, i);
            &&& newly_named(r.0, p.functions)
            &&& diags.len() <= r.1.len()
            &&& r.1.len() == diags.len() ==> r.0.len() == hoisted.len() + impl_methods_in(imps, i)
        }),
    decreases imps.len() - i,
{
    if i < imps.len() {
        let imp = imps[i];
        let start = check_drop_impl_spec(imp, diags);
        match find_interface_spec(p.interfaces, imp.interface_name, None, 0) {
            None => {
                let message = "`implement "@ + imp.interface_name + " for "@
                    + crate::ast::type_text_spec(imp.for_type) + "` references unknown interface '"@
                    + imp.interface_name + "'"@;
                impls_hoisted(
                    imps,
                    p,
                    hoisted,
                    start.push(crate::scope::diag_spec(imp.span, message)),
                    i + 1,
                );
            },
            Some(interface) => match crate::types::nominal_name_spec(imp.for_type) {
                None => {
                    let message = "`implement "@ + imp.interface_name + " for "@
                        + crate::ast::type_text_spec(imp.for_type)
                        + "` requires a struct or enum type (got "@
                        + crate::ast::type_text_spec(imp.for_type) + ")"@;
                    impls_hoisted(
                        imps,
                        p,
                        hoisted,
                        start.push(crate::scope::diag_spec(imp.span, message)),
                        i + 1,
                    );
                },
                Some(owner) => {
                    impl_methods_hoisted(
                        imp.methods,
                        owner,
                        interface,
                        imp.interface_name,
                        imp.for_type,
                        p.functions,
                        hoisted,
                        Seq::empty(),
                        start,
                        0,
                    );
                    let r = hoist_impl_methods_spec(
                        imp.methods,
                        owner,
                        interface,
                        imp.interface_name,
                        imp.for_type,
                        p.functions,
                        hoisted,
                        Seq::empty(),
                        start,
                        0,
                    );
                    missing_only_reported(interface.methods, r.1, imp, owner, r.2, 0);
                    let after = missing_methods_spec(interface.methods, r.1, imp, owner, r.2, 0);
                    impls_hoisted(imps, p, r.0, after, i + 1);
                },
            },
        }
    }
}

/// Every method of an implementation becomes a function of its own behind the
/// functions that there are, under a name that no other function has, or
/// something is reported; no implementation is left.
pub proof fn implementations_become_functions(p: ProgramView, diags: Seq<DiagnosticView>)
    ensures
        ({
            let (q, after) = hoist_impls_into_functions_spec(p, diags);
            let hoisted = q.functions.subrange(p.functions.len() as int, q.functions.len() as int);
            &&& q.impls.len() == 0
            &&& p.functions.is_prefix_of(q.functions)
            &&& newly_named(hoisted, p.functions)
            &&& after.len() >= diags.len()
            &&& after.len() == diags.len() ==> hoisted.len() == impl_methods_in(p.impls, 0)
        }),
{
    let none = Seq::<FunctionView>::empty();
    impls_hoisted(p.impls, p, none, diags, 0);
    let r = hoist_impls_spec(p.impls, p, none, diags, 0);
    let q = hoist_impls_into_functions_spec(p, diags).0;
    assert(q.functions.subrange(p.functions.len() as int, q.functions.len() as int) =~= r.0);
    assert(q.functions.subrange(0, p.functions.len() as int) =~= p.functions);
}

} // verus!
