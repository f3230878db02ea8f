//! Passes over the types of a program: telling enums from structs, unfolding
//! aliases, and filling in type parameters.

use vstd::prelude::*;
use crate::ast::{
    ConstDecl, ConstDeclView, EnumDecl, EnumDeclView, Expr, ExprKind, ExprKindView, ExprView,
    FieldDecl, FieldDeclView, Function, FunctionView, ImplDecl, ImplDeclView, InterfaceDecl,
    InterfaceDeclView, InterfaceMethod, InterfaceMethodView, MatchArm, MatchArmView, MethodsBlock,
    MethodsBlockView, Param, ParamView, PrintItem, PrintItemView, Program, ProgramView, Span, Stmt,
    StmtView, StructDecl, StructDeclView, Type, TypeAlias, TypeAliasView, TypeView, VariantDecl,
    VariantDeclView, dup_reductions,
};
use crate::construct::{
    mk_arm, mk_array, mk_binary, mk_block, mk_call, mk_cast, mk_field, mk_if, mk_index, mk_len,
    mk_match, mk_method_call, mk_ref, mk_ref_mut, mk_struct_lit, mk_try, mk_tuple, mk_tuple_access,
    mk_unary,
};
use crate::ir::{dup_named_types};
use crate::scope::{named_type_get, named_type_has, named_type_put};
use crate::state::{TypeRewrite, TypeRewriteView};
use crate::text::{cat3, contains_str, dup_strs, push, put, str_eq, str_less, text, twice};

verus! {

broadcast use {
    crate::text::group_text_views,
    crate::ast::group_ast_views,
    crate::diagnostic::group_diagnostic_views,
    crate::ir::group_ir_views,
    crate::state::group_state_views,
};

/// What [`alias_decl_find`] computes from position `i` on.
pub open spec fn alias_decl_find_spec(
    m: Seq<(Seq<char>, TypeAliasView)>,
    name: Seq<char>,
    found: Option<TypeAliasView>,
    i: int,
) -> Option<TypeAliasView>
    decreases m.len() - i,
{
    if 0 <= i < m.len() && !found.is_some() {
        let e = m[i];
        let found = if e.0 == name {
            Some(e.1)
        } else {
            found
        };
        alias_decl_find_spec(m, name, found, i + 1)
    } else {
        found
    }
}

pub fn alias_decl_find(
    m: &Vec<(String, TypeAlias)>,
    name: &str,
    found: Option<TypeAlias>,
) -> (r: Option<TypeAlias>)
    ensures
        (match &r { Some(v0) => Some(v0@), None => None }) == alias_decl_find_spec(
            crate::state::alias_table_view(m@),
            name@,
            (match &found { Some(v0) => Some(v0@), None => None }),
            0,
        ),
{
    let ghost whole_run = alias_decl_find_spec(
        crate::state::alias_table_view(m@),
        name@,
        (match &found { Some(v0) => Some(v0@), None => None }),
        0,
    );
    let mut found = found;
    let mut i: usize = 0;
    while i < m.len() && !found.is_some()
        invariant
            i <= m.len(),
            alias_decl_find_spec(
                crate::state::alias_table_view(m@),
                name@,
                (match &found { Some(v0) => Some(v0@), None => None }),
                i as int,
            ) == whole_run,
        decreases m.len() - i,
    {
        let e = &m[i];
        found = if str_eq(&e.0, name) {
            Some(e.1.dup())
        } else {
            found
        };
        i += 1;
    }
    found
}

/// What [`alias_decl_get`] computes.
pub open spec fn alias_decl_get_spec(
    m: Seq<(Seq<char>, TypeAliasView)>,
    name: Seq<char>,
) -> Option<TypeAliasView>
{
    alias_decl_find_spec(m, name, None, 0)
}

/// The value of a name.
pub fn alias_decl_get(m: &Vec<(String, TypeAlias)>, name: &str) -> (r: Option<TypeAlias>)
    ensures
        (match &r { Some(v0) => Some(v0@), None => None }) == alias_decl_get_spec(
            crate::state::alias_table_view(m@),
            name@,
        ),
{
    alias_decl_find(m, name, None)
}

/// What [`alias_decl_has`] computes.
pub open spec fn alias_decl_has_spec(m: Seq<(Seq<char>, TypeAliasView)>, name: Seq<char>) -> bool
{
    alias_decl_get_spec(m, name).is_some()
}

/// Whether a name has a value.
pub fn alias_decl_has(m: &Vec<(String, TypeAlias)>, name: &str) -> (r: bool)
    ensures
        r == alias_decl_has_spec(crate::state::alias_table_view(m@), name@),
{
    alias_decl_get(m, name).is_some()
}

/// What [`alias_decl_place`] computes from position `i` on.
pub open spec fn alias_decl_place_spec(
    m: Seq<(Seq<char>, TypeAliasView)>,
    name: Seq<char>,
    v: TypeAliasView,
    out: Seq<(Seq<char>, TypeAliasView)>,
    placed: bool,
    i: int,
) -> (Seq<(Seq<char>, TypeAliasView)>, bool)
    decreases m.len() - i,
{
    if 0 <= i < m.len() {
        let e = m[i];
        let (out, placed) = if placed {
            (out.push((e.0, e.1)), true)
        } else if e.0 == name {
            (out.push((name, v)), true)
        } else if crate::text::str_less_spec(name, e.0) {
            (out.push((name, v)).push((e.0, e.1)), true)
        } else {
            (out.push((e.0, e.1)), false)
        };
        alias_decl_place_spec(m, name, v, out, placed, i + 1)
    } else {
        (out, placed)
    }
}

pub fn alias_decl_place(
    m: &Vec<(String, TypeAlias)>,
    name: &str,
    v: &TypeAlias,
    out: Vec<(String, TypeAlias)>,
    placed: bool,
) -> (r: (Vec<(String, TypeAlias)>, bool))
    ensures
        (crate::state::alias_table_view(r.0@), r.1) == alias_decl_place_spec(
            crate::state::alias_table_view(m@),
            name@,
            v@,
            crate::state::alias_table_view(out@),
            placed,
            0,
        ),
{
    let ghost whole_run = alias_decl_place_spec(
        crate::state::alias_table_view(m@),
        name@,
        v@,
        crate::state::alias_table_view(out@),
        placed,
        0,
    );
    let mut out = out;
    let mut placed = placed;
    let mut i: usize = 0;
    while i < m.len()
        invariant
            i <= m.len(),
            alias_decl_place_spec(
                crate::state::alias_table_view(m@),
                name@,
                v@,
                crate::state::alias_table_view(out@),
                placed,
                i as int,
            ) == whole_run,
        decreases m.len() - i,
    {
        let e = &m[i];
        let next = if placed {
            (push(out, (e.0.clone(), e.1.dup())), true)
        } else if str_eq(&e.0, name) {
            (push(out, (text(name), v.dup())), true)
        } else if str_less(name, &e.0) {
            (push(push(out, (text(name), v.dup())), (e.0.clone(), e.1.dup())), true)
        } else {
            (push(out, (e.0.clone(), e.1.dup())), false)
        };
        out = next.0;
        placed = next.1;
        i += 1;
    }
    (out, placed)
}

/// What [`alias_decl_put`] computes.
pub open spec fn alias_decl_put_spec(
    m: Seq<(Seq<char>, TypeAliasView)>,
    name: Seq<char>,
    v: TypeAliasView,
) -> Seq<(Seq<char>, TypeAliasView)>
{
    let (out, placed) = alias_decl_place_spec(m, name, v, Seq::empty(), false, 0);
    if placed {
        out
    } else {
        out.push((name, v))
    }
}

/// The map, ordered by name, with a name's value set.
pub fn alias_decl_put(
    m: &Vec<(String, TypeAlias)>,
    name: &str,
    v: &TypeAlias,
) -> (r: Vec<(String, TypeAlias)>)
    ensures
        crate::state::alias_table_view(r@) == alias_decl_put_spec(
            crate::state::alias_table_view(m@),
            name@,
            v@,
        ),
{
    let (out, placed) = alias_decl_place(m, name, v, Vec::new(), false);
    if placed {
        out
    } else {
        push(out, (text(name), v.dup()))
    }
}

/// What [`rewrite_type`] computes.
pub open spec fn rewrite_type_spec(t: TypeView, rw: TypeRewriteView) -> TypeView
    decreases t, 0int,
{
    match t {
        TypeView::Struct(name) => match rw {
            TypeRewriteView::Enums(enums) => if enums.contains(name) {
                TypeView::Enum(name)
            } else {
                t
            },
            TypeRewriteView::Aliases(aliases) => match crate::scope::named_type_get_spec(
                aliases,
                name,
            ) {
                Some(target) => target,
                None => t,
            },
            TypeRewriteView::Parameter(_, _) => t,
        },
        TypeView::Param(name) => match rw {
            TypeRewriteView::Parameter(param, concrete) => if name == param {
                concrete
            } else {
                t
            },
            _ => t,
        },
        TypeView::Vec(inner) => TypeView::Vec(Box::new(rewrite_type_spec(*inner, rw))),
        TypeView::Ref(inner) => TypeView::Ref(Box::new(rewrite_type_spec(*inner, rw))),
        TypeView::RefMut(inner) => TypeView::RefMut(Box::new(rewrite_type_spec(*inner, rw))),
        TypeView::Atomic(inner) => TypeView::Atomic(Box::new(rewrite_type_spec(*inner, rw))),
        TypeView::Mutex(inner) => TypeView::Mutex(Box::new(rewrite_type_spec(*inner, rw))),
        TypeView::Guard(inner) => TypeView::Guard(Box::new(rewrite_type_spec(*inner, rw))),
        TypeView::Array { element, length } => TypeView::Array {
            element: Box::new(rewrite_type_spec(*element, rw)),
            length: length,
        },
        TypeView::Channel(element, capacity) => TypeView::Channel(
            Box::new(rewrite_type_spec(*element, rw)),
            capacity,
        ),
        TypeView::Tuple(elements) => TypeView::Tuple(
            rewrite_types_spec(elements, rw, Seq::empty(), 0),
        ),
        TypeView::FnPtr(params, ret) => TypeView::FnPtr(
            rewrite_types_spec(params, rw, Seq::empty(), 0),
            Box::new(rewrite_type_spec(*ret, rw)),
        ),
        _ => t,
    }
}

/// A type after a rewrite.
pub fn rewrite_type(t: &Type, rw: &TypeRewrite) -> (r: Type)
    ensures
        r@ == rewrite_type_spec(t@, rw@),
    decreases t, 0int,
{
    match t {
        Type::Struct(name) => match rw {
            TypeRewrite::Enums(enums) => if contains_str(enums, name) {
                Type::Enum(name.clone())
            } else {
                t.dup()
            },
            TypeRewrite::Aliases(aliases) => match named_type_get(aliases, name) {
                Some(target) => target,
                None => t.dup(),
            },
            TypeRewrite::Parameter(_, _) => t.dup(),
        },
        Type::Param(name) => match rw {
            TypeRewrite::Parameter(param, concrete) => if str_eq(name, param) {
                concrete.dup()
            } else {
                t.dup()
            },
            _ => t.dup(),
        },
        Type::Vec(inner) => Type::Vec(Box::new(rewrite_type(&**inner, rw))),
        Type::Ref(inner) => Type::Ref(Box::new(rewrite_type(&**inner, rw))),
        Type::RefMut(inner) => Type::RefMut(Box::new(rewrite_type(&**inner, rw))),
        Type::Atomic(inner) => Type::Atomic(Box::new(rewrite_type(&**inner, rw))),
        Type::Mutex(inner) => Type::Mutex(Box::new(rewrite_type(&**inner, rw))),
        Type::Guard(inner) => Type::Guard(Box::new(rewrite_type(&**inner, rw))),
        Type::Array { element, length } => Type::Array {
            element: Box::new(rewrite_type(&**element, rw)),
            length: *length,
        },
        Type::Channel(element, capacity) => Type::Channel(
            Box::new(rewrite_type(&**element, rw)),
            *capacity,
        ),
        Type::Tuple(elements) => Type::Tuple(rewrite_types(elements, rw, Vec::new())),
        Type::FnPtr(params, ret) => Type::FnPtr(
            rewrite_types(params, rw, Vec::new()),
            Box::new(rewrite_type(&**ret, rw)),
        ),
        _ => t.dup(),
    }
}

/// What [`rewrite_types`] computes from position `i` on.
pub open spec fn rewrite_types_spec(
    ts: Seq<TypeView>,
    rw: TypeRewriteView,
    out: Seq<TypeView>,
    i: int,
) -> Seq<TypeView>
    decreases ts, ts.len() - i,
{
    if 0 <= i < ts.len() {
        let t = ts[i];
        let out = out.push(rewrite_type_spec(t, rw));
        rewrite_types_spec(ts, rw, out, i + 1)
    } else {
        out
    }
}

/// Adds types after a rewrite.
pub fn rewrite_types(ts: &Vec<Type>, rw: &TypeRewrite, out: Vec<Type>) -> (r: Vec<Type>)
    ensures
        crate::ast::types_view(r@) == rewrite_types_spec(
            crate::ast::types_view(ts@),
            rw@,
            crate::ast::types_view(out@),
            0,
        ),
    decreases ts, ts.len(),
{
    let ghost whole_run = rewrite_types_spec(
        crate::ast::types_view(ts@),
        rw@,
        crate::ast::types_view(out@),
        0,
    );
    let mut out = out;
    let mut i: usize = 0;
    while i < ts.len()
        invariant
            i <= ts.len(),
            rewrite_types_spec(
                crate::ast::types_view(ts@),
                rw@,
                crate::ast::types_view(out@),
                i as int,
            ) == whole_run,
        decreases ts.len() - i,
    {
        let t = &ts[i];
        out = push(out, rewrite_type(t, rw));
        i += 1;
    }
    out
}

/// What [`rewrite_annotation`] computes.
pub open spec fn rewrite_annotation_spec(
    annotation: Option<TypeView>,
    rw: TypeRewriteView,
) -> Option<TypeView>
{
    match annotation {
        Some(t) => Some(rewrite_type_spec(t, rw)),
        None => None,
    }
}

/// An annotation after a rewrite.
pub fn rewrite_annotation(annotation: &Option<Type>, rw: &TypeRewrite) -> (r: Option<Type>)
    ensures
        (match &r { Some(v0) => Some(v0@), None => None }) == rewrite_annotation_spec(
            (match &annotation { Some(v0) => Some(v0@), None => None }),
            rw@,
        ),
{
    match annotation {
        Some(t) => Some(rewrite_type(t, rw)),
        None => None,
    }
}

/// What [`rewrite_expr_types`] computes.
pub open spec fn rewrite_expr_types_spec(e: ExprView, rw: TypeRewriteView) -> ExprView
    decreases e, 0int,
{
    match e.kind {
        ExprKindView::Int(_) | ExprKindView::Float(_) | ExprKindView::Bool(_) | ExprKindView::Str(_) | ExprKindView::Var(_) => e,
        ExprKindView::Unary { op, expr } => crate::construct::mk_unary_spec(
            op,
            rewrite_expr_types_spec(*expr, rw),
            e.span,
        ),
        ExprKindView::Binary { op, left, right } => crate::construct::mk_binary_spec(
            op,
            rewrite_expr_types_spec(*left, rw),
            rewrite_expr_types_spec(*right, rw),
            e.span,
        ),
        ExprKindView::Cast { expr, ty } => crate::construct::mk_cast_spec(
            rewrite_expr_types_spec(*expr, rw),
            rewrite_type_spec(ty, rw),
            e.span,
        ),
        ExprKindView::Call { name, name_span, args } => crate::construct::mk_call_spec(
            name,
            name_span,
            rewrite_exprs_types_spec(args, rw, Seq::empty(), 0),
            e.span,
        ),
        ExprKindView::MethodCall {
            receiver,
            method,
            method_span,
            args,
        } => crate::construct::mk_method_call_spec(
            rewrite_expr_types_spec(*receiver, rw),
            method,
            method_span,
            rewrite_exprs_types_spec(args, rw, Seq::empty(), 0),
            e.span,
        ),
        ExprKindView::Index { array, index } => crate::construct::mk_index_spec(
            rewrite_expr_types_spec(*array, rw),
            rewrite_expr_types_spec(*index, rw),
            e.span,
        ),
        ExprKindView::Len { array } => crate::construct::mk_len_spec(
            rewrite_expr_types_spec(*array, rw),
            e.span,
        ),
        ExprKindView::ArrayLit { elements } => crate::construct::mk_array_spec(
            rewrite_exprs_types_spec(elements, rw, Seq::empty(), 0),
            e.span,
        ),
        ExprKindView::Ref { inner } => crate::construct::mk_ref_spec(
            rewrite_expr_types_spec(*inner, rw),
            e.span,
        ),
        ExprKindView::RefMut { inner } => crate::construct::mk_ref_mut_spec(
            rewrite_expr_types_spec(*inner, rw),
            e.span,
        ),
        ExprKindView::Tuple(elements) => crate::construct::mk_tuple_spec(
            rewrite_exprs_types_spec(elements, rw, Seq::empty(), 0),
            e.span,
        ),
        ExprKindView::TupleAccess { tuple, index } => crate::construct::mk_tuple_access_spec(
            rewrite_expr_types_spec(*tuple, rw),
            index,
            e.span,
        ),
        ExprKindView::StructLit {
            struct_name,
            struct_name_span,
            fields,
        } => crate::construct::mk_struct_lit_spec(
            struct_name,
            struct_name_span,
            rewrite_values_types_spec(fields, rw, Seq::empty(), 0),
            e.span,
        ),
        ExprKindView::FieldAccess { object, field } => crate::construct::mk_field_spec(
            rewrite_expr_types_spec(*object, rw),
            field,
            e.span,
        ),
        ExprKindView::Match { scrutinee, arms } => crate::construct::mk_match_spec(
            rewrite_expr_types_spec(*scrutinee, rw),
            rewrite_arms_types_spec(arms, rw, Seq::empty(), 0),
            e.span,
        ),
        ExprKindView::IfExpr { cond, then_value, else_value } => crate::construct::mk_if_spec(
            rewrite_expr_types_spec(*cond, rw),
            rewrite_expr_types_spec(*then_value, rw),
            rewrite_expr_types_spec(*else_value, rw),
            e.span,
        ),
        ExprKindView::Block { stmts, tail } => crate::construct::mk_block_spec(
            rewrite_stmts_types_spec(stmts, rw, Seq::empty(), 0),
            rewrite_expr_types_spec(*tail, rw),
            e.span,
        ),
        ExprKindView::Try { inner } => crate::construct::mk_try_spec(
            rewrite_expr_types_spec(*inner, rw),
            e.span,
        ),
    }
}

/// An expression after a rewrite of its types.
pub fn rewrite_expr_types(e: &Expr, rw: &TypeRewrite) -> (r: Expr)
    ensures
        r@ == rewrite_expr_types_spec(e@, rw@),
    decreases e, 0int,
{
    match &e.kind {
        ExprKind::Int(_) | ExprKind::Float(_) | ExprKind::Bool(_) | ExprKind::Str(_) | ExprKind::Var(_) => e.dup(),
        ExprKind::Unary { op, expr } => mk_unary(*op, rewrite_expr_types(&**expr, rw), e.span),
        ExprKind::Binary { op, left, right } => mk_binary(
            *op,
            rewrite_expr_types(&**left, rw),
            rewrite_expr_types(&**right, rw),
            e.span,
        ),
        ExprKind::Cast { expr, ty } => mk_cast(
            rewrite_expr_types(&**expr, rw),
            rewrite_type(ty, rw),
            e.span,
        ),
        ExprKind::Call { name, name_span, args } => mk_call(
            name,
            *name_span,
            rewrite_exprs_types(args, rw, Vec::new()),
            e.span,
        ),
        ExprKind::MethodCall { receiver, method, method_span, args } => mk_method_call(
            rewrite_expr_types(&**receiver, rw),
            method,
            *method_span,
            rewrite_exprs_types(args, rw, Vec::new()),
            e.span,
        ),
        ExprKind::Index { array, index } => mk_index(
            rewrite_expr_types(&**array, rw),
            rewrite_expr_types(&**index, rw),
            e.span,
        ),
        ExprKind::Len { array } => mk_len(rewrite_expr_types(&**array, rw), e.span),
        ExprKind::ArrayLit { elements } => mk_array(
            rewrite_exprs_types(elements, rw, Vec::new()),
            e.span,
        ),
        ExprKind::Ref { inner } => mk_ref(rewrite_expr_types(&**inner, rw), e.span),
        ExprKind::RefMut { inner } => mk_ref_mut(rewrite_expr_types(&**inner, rw), e.span),
        ExprKind::Tuple(elements) => mk_tuple(
            rewrite_exprs_types(elements, rw, Vec::new()),
            e.span,
        ),
        ExprKind::TupleAccess { tuple, index } => mk_tuple_access(
            rewrite_expr_types(&**tuple, rw),
            *index,
            e.span,
        ),
        ExprKind::StructLit { struct_name, struct_name_span, fields } => mk_struct_lit(
            struct_name,
            *struct_name_span,
            rewrite_values_types(fields, rw, Vec::new()),
            e.span,
        ),
        ExprKind::FieldAccess { object, field } => mk_field(
            rewrite_expr_types(&**object, rw),
            field,
            e.span,
        ),
        ExprKind::Match { scrutinee, arms } => mk_match(
            rewrite_expr_types(&**scrutinee, rw),
            rewrite_arms_types(arms, rw, Vec::new()),
            e.span,
        ),
        ExprKind::IfExpr { cond, then_value, else_value } => mk_if(
            rewrite_expr_types(&**cond, rw),
            rewrite_expr_types(&**then_value, rw),
            rewrite_expr_types(&**else_value, rw),
            e.span,
        ),
        ExprKind::Block { stmts, tail } => mk_block(
            rewrite_stmts_types(stmts, rw, Vec::new()),
            rewrite_expr_types(&**tail, rw),
            e.span,
        ),
        ExprKind::Try { inner } => mk_try(rewrite_expr_types(&**inner, rw), e.span),
    }
}

/// What [`rewrite_exprs_types`] computes from position `i` on.
pub open spec fn rewrite_exprs_types_spec(
    es: Seq<ExprView>,
    rw: TypeRewriteView,
    out: Seq<ExprView>,
    i: int,
) -> Seq<ExprView>
    decreases es, es.len() - i,
{
    if 0 <= i < es.len() {
        let e = es[i];
        let out = out.push(rewrite_expr_types_spec(e, rw));
        rewrite_exprs_types_spec(es, rw, out, i + 1)
    } else {
        out
    }
}

/// Adds expressions after a rewrite of their types.
pub fn rewrite_exprs_types(es: &Vec<Expr>, rw: &TypeRewrite, out: Vec<Expr>) -> (r: Vec<Expr>)
    ensures
        crate::ast::exprs_view(r@) == rewrite_exprs_types_spec(
            crate::ast::exprs_view(es@),
            rw@,
            crate::ast::exprs_view(out@),
            0,
        ),
    decreases es, es.len(),
{
    let ghost whole_run = rewrite_exprs_types_spec(
        crate::ast::exprs_view(es@),
        rw@,
        crate::ast::exprs_view(out@),
        0,
    );
    let mut out = out;
    let mut i: usize = 0;
    while i < es.len()
        invariant
            i <= es.len(),
            rewrite_exprs_types_spec(
                crate::ast::exprs_view(es@),
                rw@,
                crate::ast::exprs_view(out@),
                i as int,
            ) == whole_run,
        decreases es.len() - i,
    {
        let e = &es[i];
        out = push(out, rewrite_expr_types(e, rw));
        i += 1;
    }
    out
}

/// What [`rewrite_values_types`] computes from position `i` on.
pub open spec fn rewrite_values_types_spec(
    fs: Seq<(Seq<char>, ExprView)>,
    rw: TypeRewriteView,
    out: Seq<(Seq<char>, ExprView)>,
    i: int,
) -> Seq<(Seq<char>, ExprView)>
    decreases fs, fs.len() - i,
{
    if 0 <= i < fs.len() {
        let f = fs[i];
        let out = out.push((f.0, rewrite_expr_types_spec(f.1, rw)));
        rewrite_values_types_spec(fs, rw, out, i + 1)
    } else {
        out
    }
}

/// Adds the fields of a literal after a rewrite of their types.
pub fn rewrite_values_types(
    fs: &Vec<(String, Expr)>,
    rw: &TypeRewrite,
    out: Vec<(String, Expr)>,
) -> (r: Vec<(String, Expr)>)
    ensures
        crate::ast::named_exprs_view(r@) == rewrite_values_types_spec(
            crate::ast::named_exprs_view(fs@),
            rw@,
            crate::ast::named_exprs_view(out@),
            0,
        ),
    decreases fs, fs.len(),
{
    let ghost whole_run = rewrite_values_types_spec(
        crate::ast::named_exprs_view(fs@),
        rw@,
        crate::ast::named_exprs_view(out@),
        0,
    );
    let mut out = out;
    let mut i: usize = 0;
    while i < fs.len()
        invariant
            i <= fs.len(),
            rewrite_values_types_spec(
                crate::ast::named_exprs_view(fs@),
                rw@,
                crate::ast::named_exprs_view(out@),
                i as int,
            ) == whole_run,
        decreases fs.len() - i,
    {
        let f = &fs[i];
        out = push(out, (f.0.clone(), rewrite_expr_types(&f.1, rw)));
        i += 1;
    }
    out
}

/// What [`rewrite_arms_types`] computes from position `i` on.
pub open spec fn rewrite_arms_types_spec(
    arms: Seq<MatchArmView>,
    rw: TypeRewriteView,
    out: Seq<MatchArmView>,
    i: int,
) -> Seq<MatchArmView>
    decreases arms, arms.len() - i,
{
    if 0 <= i < arms.len() {
        let a = arms[i];
        let out = out.push(
            crate::construct::mk_arm_spec(
                a.pattern,
                a.pattern_span,
                rewrite_expr_types_spec(a.body, rw),
            ),
        );
        rewrite_arms_types_spec(arms, rw, out, i + 1)
    } else {
        out
    }
}

/// Adds the arms of a match after a rewrite of their types.
pub fn rewrite_arms_types(
    arms: &Vec<MatchArm>,
    rw: &TypeRewrite,
    out: Vec<MatchArm>,
) -> (r: Vec<MatchArm>)
    ensures
        crate::ast::arms_view(r@) == rewrite_arms_types_spec(
            crate::ast::arms_view(arms@),
            rw@,
            crate::ast::arms_view(out@),
            0,
        ),
    decreases arms, arms.len(),
{
    let ghost whole_run = rewrite_arms_types_spec(
        crate::ast::arms_view(arms@),
        rw@,
        crate::ast::arms_view(out@),
        0,
    );
    let mut out = out;
    let mut i: usize = 0;
    while i < arms.len()
        invariant
            i <= arms.len(),
            rewrite_arms_types_spec(
                crate::ast::arms_view(arms@),
                rw@,
                crate::ast::arms_view(out@),
                i as int,
            ) == whole_run,
        decreases arms.len() - i,
    {
        let a = &arms[i];
        out = push(out, mk_arm(a.pattern.dup(), a.pattern_span, rewrite_expr_types(&a.body, rw)));
        i += 1;
    }
    out
}

/// What [`rewrite_items_types`] computes from position `i` on.
pub open spec fn rewrite_items_types_spec(
    items: Seq<PrintItemView>,
    rw: TypeRewriteView,
    out: Seq<PrintItemView>,
    i: int,
) -> Seq<PrintItemView>
    decreases items, items.len() - i,
{
    if 0 <= i < items.len() {
        let item = items[i];
        let out = match item {
            PrintItemView::Expr(e) => out.push(PrintItemView::Expr(rewrite_expr_types_spec(e, rw))),
            PrintItemView::Str(s) => out.push(PrintItemView::Str(s)),
        };
        rewrite_items_types_spec(items, rw, out, i + 1)
    } else {
        out
    }
}

/// Adds the items of a `print` after a rewrite of their types.
pub fn rewrite_items_types(
    items: &Vec<PrintItem>,
    rw: &TypeRewrite,
    out: Vec<PrintItem>,
) -> (r: Vec<PrintItem>)
    ensures
        crate::ast::print_items_view(r@) == rewrite_items_types_spec(
            crate::ast::print_items_view(items@),
            rw@,
            crate::ast::print_items_view(out@),
            0,
        ),
    decreases items, items.len(),
{
    let ghost whole_run = rewrite_items_types_spec(
        crate::ast::print_items_view(items@),
        rw@,
        crate::ast::print_items_view(out@),
        0,
    );
    let mut out = out;
    let mut i: usize = 0;
    while i < items.len()
        invariant
            i <= items.len(),
            rewrite_items_types_spec(
                crate::ast::print_items_view(items@),
                rw@,
                crate::ast::print_items_view(out@),
                i as int,
            ) == whole_run,
        decreases items.len() - i,
    {
        let item = &items[i];
        out = match item {
            PrintItem::Expr(e) => push(out, PrintItem::Expr(rewrite_expr_types(e, rw))),
            PrintItem::Str(s) => push(out, PrintItem::Str(s.clone())),
        };
        i += 1;
    }
    out
}

/// What [`rewrite_stmt_types`] computes.
pub open spec fn rewrite_stmt_types_spec(s: StmtView, rw: TypeRewriteView) -> StmtView
    decreases s, 0int,
{
    match s {
        StmtView::Let { name, annotation, expr, span } => StmtView::Let {
            name: name,
            annotation: rewrite_annotation_spec(annotation, rw),
            expr: rewrite_expr_types_spec(expr, rw),
            span: span,
        },
        StmtView::LetTuple { names, annotation, expr, span } => StmtView::LetTuple {
            names: (names),
            annotation: rewrite_annotation_spec(annotation, rw),
            expr: rewrite_expr_types_spec(expr, rw),
            span: span,
        },
        StmtView::Return { expr, span } => StmtView::Return {
            expr: rewrite_expr_types_spec(expr, rw),
            span: span,
        },
        StmtView::Assert { expr, message, span } => StmtView::Assert {
            expr: rewrite_expr_types_spec(expr, rw),
            message: match message {
                Some(m) => Some(m),
                None => None,
            },
            span: span,
        },
        StmtView::Prove { expr, span } => StmtView::Prove {
            expr: rewrite_expr_types_spec(expr, rw),
            span: span,
        },
        StmtView::Print { items, span } => StmtView::Print {
            items: rewrite_items_types_spec(items, rw, Seq::empty(), 0),
            span: span,
        },
        StmtView::If { cond, then_body, else_body, span } => StmtView::If {
            cond: rewrite_expr_types_spec(cond, rw),
            then_body: rewrite_stmts_types_spec(then_body, rw, Seq::empty(), 0),
            else_body: rewrite_stmts_types_spec(else_body, rw, Seq::empty(), 0),
            span: span,
        },
        StmtView::While { cond, invariants, body, span } => StmtView::While {
            cond: rewrite_expr_types_spec(cond, rw),
            invariants: rewrite_exprs_types_spec(invariants, rw, Seq::empty(), 0),
            body: rewrite_stmts_types_spec(body, rw, Seq::empty(), 0),
            span: span,
        },
        StmtView::Assign { name, expr, span } => StmtView::Assign {
            name: name,
            expr: rewrite_expr_types_spec(expr, rw),
            span: span,
        },
        StmtView::IndexAssign { name, index, field_path, value, span } => StmtView::IndexAssign {
            name: name,
            index: rewrite_expr_types_spec(index, rw),
            field_path: (field_path),
            value: rewrite_expr_types_spec(value, rw),
            span: span,
        },
        StmtView::FieldAssign { object, field, field_span, value, span } => StmtView::FieldAssign {
            object: rewrite_expr_types_spec(object, rw),
            field: field,
            field_span: field_span,
            value: rewrite_expr_types_spec(value, rw),
            span: span,
        },
        StmtView::For {
            var,
            start,
            end,
            invariants,
            body,
            span,
            parallel,
            reductions,
        } => StmtView::For {
            var: var,
            start: rewrite_expr_types_spec(start, rw),
            end: rewrite_expr_types_spec(end, rw),
            invariants: rewrite_exprs_types_spec(invariants, rw, Seq::empty(), 0),
            body: rewrite_stmts_types_spec(body, rw, Seq::empty(), 0),
            span: span,
            parallel: parallel,
            reductions: (reductions),
        },
        StmtView::ForIter { var, collection, consumes, body, span } => StmtView::ForIter {
            var: var,
            collection: collection,
            consumes: consumes,
            body: rewrite_stmts_types_spec(body, rw, Seq::empty(), 0),
            span: span,
        },
        StmtView::TaskSpawn { name, body, span } => StmtView::TaskSpawn {
            name: name,
            body: rewrite_stmts_types_spec(body, rw, Seq::empty(), 0),
            span: span,
        },
        StmtView::Break { .. } | StmtView::Continue { .. } | StmtView::TaskJoin { .. } => s,
    }
}

/// A statement after a rewrite of its types.
pub fn rewrite_stmt_types(s: &Stmt, rw: &TypeRewrite) -> (r: Stmt)
    ensures
        r@ == rewrite_stmt_types_spec(s@, rw@),
    decreases s, 0int,
{
    match s {
        Stmt::Let { name, annotation, expr, span } => Stmt::Let {
            name: name.clone(),
            annotation: rewrite_annotation(annotation, rw),
            expr: rewrite_expr_types(expr, rw),
            span: *span,
        },
        Stmt::LetTuple { names, annotation, expr, span } => Stmt::LetTuple {
            names: dup_strs(names),
            annotation: rewrite_annotation(annotation, rw),
            expr: rewrite_expr_types(expr, rw),
            span: *span,
        },
        Stmt::Return { expr, span } => Stmt::Return {
            expr: rewrite_expr_types(expr, rw),
            span: *span,
        },
        Stmt::Assert { expr, message, span } => Stmt::Assert {
            expr: rewrite_expr_types(expr, rw),
            message: match message {
                Some(m) => Some(m.clone()),
                None => None,
            },
            span: *span,
        },
        Stmt::Prove { expr, span } => Stmt::Prove {
            expr: rewrite_expr_types(expr, rw),
            span: *span,
        },
        Stmt::Print { items, span } => Stmt::Print {
            items: rewrite_items_types(items, rw, Vec::new()),
            span: *span,
        },
        Stmt::If { cond, then_body, else_body, span } => Stmt::If {
            cond: rewrite_expr_types(cond, rw),
            then_body: rewrite_stmts_types(then_body, rw, Vec::new()),
            else_body: rewrite_stmts_types(else_body, rw, Vec::new()),
            span: *span,
        },
        Stmt::While { cond, invariants, body, span } => Stmt::While {
            cond: rewrite_expr_types(cond, rw),
            invariants: rewrite_exprs_types(invariants, rw, Vec::new()),
            body: rewrite_stmts_types(body, rw, Vec::new()),
            span: *span,
        },
        Stmt::Assign { name, expr, span } => Stmt::Assign {
            name: name.clone(),
            expr: rewrite_expr_types(expr, rw),
            span: *span,
        },
        Stmt::IndexAssign { name, index, field_path, value, span } => Stmt::IndexAssign {
            name: name.clone(),
            index: rewrite_expr_types(index, rw),
            field_path: dup_strs(field_path),
            value: rewrite_expr_types(value, rw),
            span: *span,
        },
        Stmt::FieldAssign { object, field, field_span, value, span } => Stmt::FieldAssign {
            object: rewrite_expr_types(object, rw),
            field: field.clone(),
            field_span: *field_span,
            value: rewrite_expr_types(value, rw),
            span: *span,
        },
        Stmt::For { var, start, end, invariants, body, span, parallel, reductions } => Stmt::For {
            var: var.clone(),
            start: rewrite_expr_types(start, rw),
            end: rewrite_expr_types(end, rw),
            invariants: rewrite_exprs_types(invariants, rw, Vec::new()),
            body: rewrite_stmts_types(body, rw, Vec::new()),
            span: *span,
            parallel: *parallel,
            reductions: dup_reductions(reductions),
        },
        Stmt::ForIter { var, collection, consumes, body, span } => Stmt::ForIter {
            var: var.clone(),
            collection: collection.clone(),
            consumes: *consumes,
            body: rewrite_stmts_types(body, rw, Vec::new()),
            span: *span,
        },
        Stmt::TaskSpawn { name, body, span } => Stmt::TaskSpawn {
            name: name.clone(),
            body: rewrite_stmts_types(body, rw, Vec::new()),
            span: *span,
        },
        Stmt::Break { .. } | Stmt::Continue { .. } | Stmt::TaskJoin { .. } => s.dup(),
    }
}

/// What [`rewrite_stmts_types`] computes from position `i` on.
pub open spec fn rewrite_stmts_types_spec(
    ss: Seq<StmtView>,
    rw: TypeRewriteView,
    out: Seq<StmtView>,
    i: int,
) -> Seq<StmtView>
    decreases ss, ss.len() - i,
{
    if 0 <= i < ss.len() {
        let s = ss[i];
        let out = out.push(rewrite_stmt_types_spec(s, rw));
        rewrite_stmts_types_spec(ss, rw, out, i + 1)
    } else {
        out
    }
}

/// Adds statements after a rewrite of their types.
pub fn rewrite_stmts_types(ss: &Vec<Stmt>, rw: &TypeRewrite, out: Vec<Stmt>) -> (r: Vec<Stmt>)
    ensures
        crate::ast::stmts_view(r@) == rewrite_stmts_types_spec(
            crate::ast::stmts_view(ss@),
            rw@,
            crate::ast::stmts_view(out@),
            0,
        ),
    decreases ss, ss.len(),
{
    let ghost whole_run = rewrite_stmts_types_spec(
        crate::ast::stmts_view(ss@),
        rw@,
        crate::ast::stmts_view(out@),
        0,
    );
    let mut out = out;
    let mut i: usize = 0;
    while i < ss.len()
        invariant
            i <= ss.len(),
            rewrite_stmts_types_spec(
                crate::ast::stmts_view(ss@),
                rw@,
                crate::ast::stmts_view(out@),
                i as int,
            ) == whole_run,
        decreases ss.len() - i,
    {
        let s = &ss[i];
        out = push(out, rewrite_stmt_types(s, rw));
        i += 1;
    }
    out
}

/// What [`rewrite_param_types`] computes.
pub open spec fn rewrite_param_types_spec(ps: Seq<ParamView>, rw: TypeRewriteView) -> Seq<ParamView>
{
    ps.map_values(|p: ParamView| ParamView { ty: rewrite_type_spec(p.ty, rw), ..p })
}

/// Parameters after a rewrite of their types.
pub fn rewrite_param_types(ps: &Vec<Param>, rw: &TypeRewrite) -> (r: Vec<Param>)
    ensures
        crate::ast::params_view(r@) == rewrite_param_types_spec(crate::ast::params_view(ps@), rw@),
{
    let ghost whole = rewrite_param_types_spec(crate::ast::params_view(ps@), rw@);
    let ghost all = crate::ast::params_view(ps@);
    let mut r: Vec<Param> = Vec::new();
    let mut i: usize = 0;
    while i < ps.len()
        invariant
            i <= ps.len(),
            all == crate::ast::params_view(ps@),
            whole == rewrite_param_types_spec(crate::ast::params_view(ps@), rw@),
            crate::ast::params_view(r@) == whole.take(i as int),
        decreases ps.len() - i,
    {
        let p = &ps[i];
        assert(all[i as int] == p@);
        r.push(Param { ty: rewrite_type(&p.ty, rw), ..p.dup() });
        assert(whole.take(i + 1) =~= whole.take(i as int).push(whole[i as int]));
        i += 1;
    }
    assert(whole.take(i as int) =~= whole);
    r
}

/// What [`rewrite_function_types`] computes.
pub open spec fn rewrite_function_types_spec(f: FunctionView, rw: TypeRewriteView) -> FunctionView
{
    FunctionView {
        return_type: rewrite_type_spec(f.return_type, rw),
        params: rewrite_param_types_spec(f.params, rw),
        requires: rewrite_exprs_types_spec(f.requires, rw, Seq::empty(), 0),
        ensures: rewrite_exprs_types_spec(f.ensures, rw, Seq::empty(), 0),
        body: rewrite_stmts_types_spec(f.body, rw, Seq::empty(), 0),
        ..f
    }
}

/// A function after a rewrite of its parameters, result, contract and body.
pub fn rewrite_function_types(f: &Function, rw: &TypeRewrite) -> (r: Function)
    ensures
        r@ == rewrite_function_types_spec(f@, rw@),
{
    Function {
        return_type: rewrite_type(&f.return_type, rw),
        params: rewrite_param_types(&f.params, rw),
        requires: rewrite_exprs_types(&f.requires, rw, Vec::new()),
        ensures: rewrite_exprs_types(&f.ensures, rw, Vec::new()),
        body: rewrite_stmts_types(&f.body, rw, Vec::new()),
        ..f.dup()
    }
}

/// What [`rewrite_functions_types`] computes.
pub open spec fn rewrite_functions_types_spec(
    fs: Seq<FunctionView>,
    rw: TypeRewriteView,
) -> Seq<FunctionView>
{
    fs.map_values(|f: FunctionView| rewrite_function_types_spec(f, rw))
}

/// Functions after a rewrite of their types.
pub fn rewrite_functions_types(fs: &Vec<Function>, rw: &TypeRewrite) -> (r: Vec<Function>)
    ensures
        crate::ast::functions_view(r@) == rewrite_functions_types_spec(
            crate::ast::functions_view(fs@),
            rw@,
        ),
{
    let ghost whole = rewrite_functions_types_spec(crate::ast::functions_view(fs@), rw@);
    let ghost all = crate::ast::functions_view(fs@);
    let mut r: Vec<Function> = Vec::new();
    let mut i: usize = 0;
    while i < fs.len()
        invariant
            i <= fs.len(),
            all == crate::ast::functions_view(fs@),
            whole == rewrite_functions_types_spec(crate::ast::functions_view(fs@), rw@),
            crate::ast::functions_view(r@) == whole.take(i as int),
        decreases fs.len() - i,
    {
        let f = &fs[i];
        assert(all[i as int] == f@);
        r.push(rewrite_function_types(f, rw));
        assert(whole.take(i + 1) =~= whole.take(i as int).push(whole[i as int]));
        i += 1;
    }
    assert(whole.take(i as int) =~= whole);
    r
}

/// What [`rewrite_field_types`] computes.
pub open spec fn rewrite_field_types_spec(
    fs: Seq<FieldDeclView>,
    rw: TypeRewriteView,
) -> Seq<FieldDeclView>
{
    fs.map_values(|f: FieldDeclView| FieldDeclView { ty: rewrite_type_spec(f.ty, rw), ..f })
}

/// Fields after a rewrite of their types.
pub fn rewrite_field_types(fs: &Vec<FieldDecl>, rw: &TypeRewrite) -> (r: Vec<FieldDecl>)
    ensures
        crate::ast::fields_view(r@) == rewrite_field_types_spec(crate::ast::fields_view(fs@), rw@),
{
    let ghost whole = rewrite_field_types_spec(crate::ast::fields_view(fs@), rw@);
    let ghost all = crate::ast::fields_view(fs@);
    let mut r: Vec<FieldDecl> = Vec::new();
    let mut i: usize = 0;
    while i < fs.len()
        invariant
            i <= fs.len(),
            all == crate::ast::fields_view(fs@),
            whole == rewrite_field_types_spec(crate::ast::fields_view(fs@), rw@),
            crate::ast::fields_view(r@) == whole.take(i as int),
        decreases fs.len() - i,
    {
        let f = &fs[i];
        assert(all[i as int] == f@);
        r.push(FieldDecl { ty: rewrite_type(&f.ty, rw), ..f.dup() });
        assert(whole.take(i + 1) =~= whole.take(i as int).push(whole[i as int]));
        i += 1;
    }
    assert(whole.take(i as int) =~= whole);
    r
}

/// What [`rewrite_struct_types`] computes.
pub open spec fn rewrite_struct_types_spec(
    ds: Seq<StructDeclView>,
    rw: TypeRewriteView,
) -> Seq<StructDeclView>
{
    ds.map_values(
        |d: StructDeclView| StructDeclView { fields: rewrite_field_types_spec(d.fields, rw), ..d },
    )
}

/// Structs after a rewrite of their fields.
pub fn rewrite_struct_types(ds: &Vec<StructDecl>, rw: &TypeRewrite) -> (r: Vec<StructDecl>)
    ensures
        crate::ast::structs_view(r@) == rewrite_struct_types_spec(
            crate::ast::structs_view(ds@),
            rw@,
        ),
{
    let ghost whole = rewrite_struct_types_spec(crate::ast::structs_view(ds@), rw@);
    let ghost all = crate::ast::structs_view(ds@);
    let mut r: Vec<StructDecl> = Vec::new();
    let mut i: usize = 0;
    while i < ds.len()
        invariant
            i <= ds.len(),
            all == crate::ast::structs_view(ds@),
            whole == rewrite_struct_types_spec(crate::ast::structs_view(ds@), rw@),
            crate::ast::structs_view(r@) == whole.take(i as int),
        decreases ds.len() - i,
    {
        let d = &ds[i];
        assert(all[i as int] == d@);
        r.push(StructDecl { fields: rewrite_field_types(&d.fields, rw), ..d.dup() });
        assert(whole.take(i + 1) =~= whole.take(i as int).push(whole[i as int]));
        i += 1;
    }
    assert(whole.take(i as int) =~= whole);
    r
}

/// What [`rewrite_alias_types`] computes.
pub open spec fn rewrite_alias_types_spec(
    ds: Seq<TypeAliasView>,
    rw: TypeRewriteView,
) -> Seq<TypeAliasView>
{
    ds.map_values(|d: TypeAliasView| TypeAliasView { target: rewrite_type_spec(d.target, rw), ..d })
}

/// Aliases after a rewrite of what they stand for.
pub fn rewrite_alias_types(ds: &Vec<TypeAlias>, rw: &TypeRewrite) -> (r: Vec<TypeAlias>)
    ensures
        crate::ast::type_aliases_view(r@) == rewrite_alias_types_spec(
            crate::ast::type_aliases_view(ds@),
            rw@,
        ),
{
    let ghost whole = rewrite_alias_types_spec(crate::ast::type_aliases_view(ds@), rw@);
    let ghost all = crate::ast::type_aliases_view(ds@);
    let mut r: Vec<TypeAlias> = Vec::new();
    let mut i: usize = 0;
    while i < ds.len()
        invariant
            i <= ds.len(),
            all == crate::ast::type_aliases_view(ds@),
            whole == rewrite_alias_types_spec(crate::ast::type_aliases_view(ds@), rw@),
            crate::ast::type_aliases_view(r@) == whole.take(i as int),
        decreases ds.len() - i,
    {
        let d = &ds[i];
        assert(all[i as int] == d@);
        r.push(TypeAlias { target: rewrite_type(&d.target, rw), ..d.dup() });
        assert(whole.take(i + 1) =~= whole.take(i as int).push(whole[i as int]));
        i += 1;
    }
    assert(whole.take(i as int) =~= whole);
    r
}

/// What [`rewrite_const_types`] computes.
pub open spec fn rewrite_const_types_spec(
    ds: Seq<ConstDeclView>,
    rw: TypeRewriteView,
) -> Seq<ConstDeclView>
{
    ds.map_values(
        |d: ConstDeclView| ConstDeclView {
            ty: rewrite_type_spec(d.ty, rw),
            value: rewrite_expr_types_spec(d.value, rw),
            ..d
        },
    )
}

/// Constants after a rewrite of their types.
pub fn rewrite_const_types(ds: &Vec<ConstDecl>, rw: &TypeRewrite) -> (r: Vec<ConstDecl>)
    ensures
        crate::ast::consts_view(r@) == rewrite_const_types_spec(crate::ast::consts_view(ds@), rw@),
{
    let ghost whole = rewrite_const_types_spec(crate::ast::consts_view(ds@), rw@);
    let ghost all = crate::ast::consts_view(ds@);
    let mut r: Vec<ConstDecl> = Vec::new();
    let mut i: usize = 0;
    while i < ds.len()
        invariant
            i <= ds.len(),
            all == crate::ast::consts_view(ds@),
            whole == rewrite_const_types_spec(crate::ast::consts_view(ds@), rw@),
            crate::ast::consts_view(r@) == whole.take(i as int),
        decreases ds.len() - i,
    {
        let d = &ds[i];
        assert(all[i as int] == d@);
        r.push(
            ConstDecl {
                ty: rewrite_type(&d.ty, rw),
                value: rewrite_expr_types(&d.value, rw),
                ..d.dup()
            },
        );
        assert(whole.take(i + 1) =~= whole.take(i as int).push(whole[i as int]));
        i += 1;
    }
    assert(whole.take(i as int) =~= whole);
    r
}

/// What [`rewrite_variant_types`] computes.
pub open spec fn rewrite_variant_types_spec(
    vs: Seq<VariantDeclView>,
    rw: TypeRewriteView,
) -> Seq<VariantDeclView>
{
    vs.map_values(
        |v: VariantDeclView| VariantDeclView {
            payload: rewrite_types_spec(v.payload, rw, Seq::empty(), 0),
            ..v
        },
    )
}

/// Variants after a rewrite of their payloads.
pub fn rewrite_variant_types(vs: &Vec<VariantDecl>, rw: &TypeRewrite) -> (r: Vec<VariantDecl>)
    ensures
        crate::ast::variants_view(r@) == rewrite_variant_types_spec(
            crate::ast::variants_view(vs@),
            rw@,
        ),
{
    let ghost whole = rewrite_variant_types_spec(crate::ast::variants_view(vs@), rw@);
    let ghost all = crate::ast::variants_view(vs@);
    let mut r: Vec<VariantDecl> = Vec::new();
    let mut i: usize = 0;
    while i < vs.len()
        invariant
            i <= vs.len(),
            all == crate::ast::variants_view(vs@),
            whole == rewrite_variant_types_spec(crate::ast::variants_view(vs@), rw@),
            crate::ast::variants_view(r@) == whole.take(i as int),
        decreases vs.len() - i,
    {
        let v = &vs[i];
        assert(all[i as int] == v@);
        r.push(VariantDecl { payload: rewrite_types(&v.payload, rw, Vec::new()), ..v.dup() });
        assert(whole.take(i + 1) =~= whole.take(i as int).push(whole[i as int]));
        i += 1;
    }
    assert(whole.take(i as int) =~= whole);
    r
}

/// What [`rewrite_enum_types`] computes.
pub open spec fn rewrite_enum_types_spec(
    ds: Seq<EnumDeclView>,
    rw: TypeRewriteView,
) -> Seq<EnumDeclView>
{
    ds.map_values(
        |d: EnumDeclView| EnumDeclView {
            variants: rewrite_variant_types_spec(d.variants, rw),
            ..d
        },
    )
}

/// Enums after a rewrite of their payloads.
pub fn rewrite_enum_types(ds: &Vec<EnumDecl>, rw: &TypeRewrite) -> (r: Vec<EnumDecl>)
    ensures
        crate::ast::enums_view(r@) == rewrite_enum_types_spec(crate::ast::enums_view(ds@), rw@),
{
    let ghost whole = rewrite_enum_types_spec(crate::ast::enums_view(ds@), rw@);
    let ghost all = crate::ast::enums_view(ds@);
    let mut r: Vec<EnumDecl> = Vec::new();
    let mut i: usize = 0;
    while i < ds.len()
        invariant
            i <= ds.len(),
            all == crate::ast::enums_view(ds@),
            whole == rewrite_enum_types_spec(crate::ast::enums_view(ds@), rw@),
            crate::ast::enums_view(r@) == whole.take(i as int),
        decreases ds.len() - i,
    {
        let d = &ds[i];
        assert(all[i as int] == d@);
        r.push(EnumDecl { variants: rewrite_variant_types(&d.variants, rw), ..d.dup() });
        assert(whole.take(i + 1) =~= whole.take(i as int).push(whole[i as int]));
        i += 1;
    }
    assert(whole.take(i as int) =~= whole);
    r
}

/// What [`rewrite_declared_types`] computes.
pub open spec fn rewrite_declared_types_spec(
    ms: Seq<InterfaceMethodView>,
    rw: TypeRewriteView,
) -> Seq<InterfaceMethodView>
{
    ms.map_values(|m: InterfaceMethodView| InterfaceMethodView {
        params: rewrite_param_types_spec(m.params, rw),
        return_type: rewrite_type_spec(m.return_type, rw),
        ..m
    })
}

/// The methods of an interface after a rewrite of their types.
pub fn rewrite_declared_types(
    ms: &Vec<InterfaceMethod>,
    rw: &TypeRewrite,
) -> (r: Vec<InterfaceMethod>)
    ensures
        crate::ast::interface_methods_view(r@) == rewrite_declared_types_spec(
            crate::ast::interface_methods_view(ms@),
            rw@,
        ),
{
    let ghost whole = rewrite_declared_types_spec(crate::ast::interface_methods_view(ms@), rw@);
    let ghost all = crate::ast::interface_methods_view(ms@);
    let mut r: Vec<InterfaceMethod> = Vec::new();
    let mut i: usize = 0;
    while i < ms.len()
        invariant
            i <= ms.len(),
            all == crate::ast::interface_methods_view(ms@),
            whole == rewrite_declared_types_spec(crate::ast::interface_methods_view(ms@), rw@),
            crate::ast::interface_methods_view(r@) == whole.take(i as int),
        decreases ms.len() - i,
    {
        let m = &ms[i];
        assert(all[i as int] == m@);
        r.push(InterfaceMethod {
            params: rewrite_param_types(&m.params, rw),
            return_type: rewrite_type(&m.return_type, rw),
            ..m.dup()
        });
        assert(whole.take(i + 1) =~= whole.take(i as int).push(whole[i as int]));
        i += 1;
    }
    assert(whole.take(i as int) =~= whole);
    r
}

/// What [`rewrite_interface_types`] computes.
pub open spec fn rewrite_interface_types_spec(
    ds: Seq<InterfaceDeclView>,
    rw: TypeRewriteView,
) -> Seq<InterfaceDeclView>
{
    ds.map_values(
        |d: InterfaceDeclView| InterfaceDeclView {
            methods: rewrite_declared_types_spec(d.methods, rw),
            ..d
        },
    )
}

/// Interfaces after a rewrite of their methods.
pub fn rewrite_interface_types(ds: &Vec<InterfaceDecl>, rw: &TypeRewrite) -> (r: Vec<InterfaceDecl>)
    ensures
        crate::ast::interfaces_view(r@) == rewrite_interface_types_spec(
            crate::ast::interfaces_view(ds@),
            rw@,
        ),
{
    let ghost whole = rewrite_interface_types_spec(crate::ast::interfaces_view(ds@), rw@);
    let ghost all = crate::ast::interfaces_view(ds@);
    let mut r: Vec<InterfaceDecl> = Vec::new();
    let mut i: usize = 0;
    while i < ds.len()
        invariant
            i <= ds.len(),
            all == crate::ast::interfaces_view(ds@),
            whole == rewrite_interface_types_spec(crate::ast::interfaces_view(ds@), rw@),
            crate::ast::interfaces_view(r@) == whole.take(i as int),
        decreases ds.len() - i,
    {
        let d = &ds[i];
        assert(all[i as int] == d@);
        r.push(InterfaceDecl { methods: rewrite_declared_types(&d.methods, rw), ..d.dup() });
        assert(whole.take(i + 1) =~= whole.take(i as int).push(whole[i as int]));
        i += 1;
    }
    assert(whole.take(i as int) =~= whole);
    r
}

/// What [`rewrite_methods_types`] computes.
pub open spec fn rewrite_methods_types_spec(
    ds: Seq<MethodsBlockView>,
    rw: TypeRewriteView,
) -> Seq<MethodsBlockView>
{
    ds.map_values(|d: MethodsBlockView| MethodsBlockView {
        for_type: rewrite_type_spec(d.for_type, rw),
        methods: rewrite_functions_types_spec(d.methods, rw),
        ..d
    })
}

/// Methods blocks after a rewrite of all their types.
pub fn rewrite_methods_types(ds: &Vec<MethodsBlock>, rw: &TypeRewrite) -> (r: Vec<MethodsBlock>)
    ensures
        crate::ast::methods_blocks_view(r@) == rewrite_methods_types_spec(
            crate::ast::methods_blocks_view(ds@),
            rw@,
        ),
{
    let ghost whole = rewrite_methods_types_spec(crate::ast::methods_blocks_view(ds@), rw@);
    let ghost all = crate::ast::methods_blocks_view(ds@);
    let mut r: Vec<MethodsBlock> = Vec::new();
    let mut i: usize = 0;
    while i < ds.len()
        invariant
            i <= ds.len(),
            all == crate::ast::methods_blocks_view(ds@),
            whole == rewrite_methods_types_spec(crate::ast::methods_blocks_view(ds@), rw@),
            crate::ast::methods_blocks_view(r@) == whole.take(i as int),
        decreases ds.len() - i,
    {
        let d = &ds[i];
        assert(all[i as int] == d@);
        r.push(MethodsBlock {
            for_type: rewrite_type(&d.for_type, rw),
            methods: rewrite_functions_types(&d.methods, rw),
            ..d.dup()
        });
        assert(whole.take(i + 1) =~= whole.take(i as int).push(whole[i as int]));
        i += 1;
    }
    assert(whole.take(i as int) =~= whole);
    r
}

/// What [`rewrite_impl_types`] computes.
pub open spec fn rewrite_impl_types_spec(
    ds: Seq<ImplDeclView>,
    rw: TypeRewriteView,
) -> Seq<ImplDeclView>
{
    ds.map_values(|d: ImplDeclView| ImplDeclView {
        for_type: rewrite_type_spec(d.for_type, rw),
        methods: rewrite_functions_types_spec(d.methods, rw),
        ..d
    })
}

/// Implementations after a rewrite of all their types.
pub fn rewrite_impl_types(ds: &Vec<ImplDecl>, rw: &TypeRewrite) -> (r: Vec<ImplDecl>)
    ensures
        crate::ast::impls_view(r@) == rewrite_impl_types_spec(crate::ast::impls_view(ds@), rw@),
{
    let ghost whole = rewrite_impl_types_spec(crate::ast::impls_view(ds@), rw@);
    let ghost all = crate::ast::impls_view(ds@);
    let mut r: Vec<ImplDecl> = Vec::new();
    let mut i: usize = 0;
    while i < ds.len()
        invariant
            i <= ds.len(),
            all == crate::ast::impls_view(ds@),
            whole == rewrite_impl_types_spec(crate::ast::impls_view(ds@), rw@),
            crate::ast::impls_view(r@) == whole.take(i as int),
        decreases ds.len() - i,
    {
        let d = &ds[i];
        assert(all[i as int] == d@);
        r.push(ImplDecl {
            for_type: rewrite_type(&d.for_type, rw),
            methods: rewrite_functions_types(&d.methods, rw),
            ..d.dup()
        });
        assert(whole.take(i + 1) =~= whole.take(i as int).push(whole[i as int]));
        i += 1;
    }
    assert(whole.take(i as int) =~= whole);
    r
}

/// What [`enum_names`] computes.
pub open spec fn enum_names_spec(ds: Seq<EnumDeclView>) -> Seq<Seq<char>>
{
    ds.map_values(|d: EnumDeclView| d.name)
}

/// The names of the enums.
pub fn enum_names(ds: &Vec<EnumDecl>) -> (r: Vec<String>)
    ensures
        crate::text::strs_view(r@) == enum_names_spec(crate::ast::enums_view(ds@)),
{
    let ghost whole = enum_names_spec(crate::ast::enums_view(ds@));
    let ghost all = crate::ast::enums_view(ds@);
    let mut r: Vec<String> = Vec::new();
    let mut i: usize = 0;
    while i < ds.len()
        invariant
            i <= ds.len(),
            all == crate::ast::enums_view(ds@),
            whole == enum_names_spec(crate::ast::enums_view(ds@)),
            crate::text::strs_view(r@) == whole.take(i as int),
        decreases ds.len() - i,
    {
        let d = &ds[i];
        assert(all[i as int] == d@);
        r.push(d.name.clone());
        assert(whole.take(i + 1) =~= whole.take(i as int).push(whole[i as int]));
        i += 1;
    }
    assert(whole.take(i as int) =~= whole);
    r
}

/// What [`rewrite_program_types`] computes.
pub open spec fn rewrite_program_types_spec(p: ProgramView, rw: TypeRewriteView) -> ProgramView
{
    ProgramView {
        functions: rewrite_functions_types_spec(p.functions, rw),
        structs: rewrite_struct_types_spec(p.structs, rw),
        enums: rewrite_enum_types_spec(p.enums, rw),
        interfaces: rewrite_interface_types_spec(p.interfaces, rw),
        type_aliases: rewrite_alias_types_spec(p.type_aliases, rw),
        consts: rewrite_const_types_spec(p.consts, rw),
        methods_blocks: rewrite_methods_types_spec(p.methods_blocks, rw),
        impls: rewrite_impl_types_spec(p.impls, rw),
        ..p
    }
}

/// The program after a rewrite of all its types.
pub fn rewrite_program_types(p: &Program, rw: &TypeRewrite) -> (r: Program)
    ensures
        r@ == rewrite_program_types_spec(p@, rw@),
{
    Program {
        functions: rewrite_functions_types(&p.functions, rw),
        structs: rewrite_struct_types(&p.structs, rw),
        enums: rewrite_enum_types(&p.enums, rw),
        interfaces: rewrite_interface_types(&p.interfaces, rw),
        type_aliases: rewrite_alias_types(&p.type_aliases, rw),
        consts: rewrite_const_types(&p.consts, rw),
        methods_blocks: rewrite_methods_types(&p.methods_blocks, rw),
        impls: rewrite_impl_types(&p.impls, rw),
        ..p.dup()
    }
}

/// What [`resolve_enum_types_in_program`] computes.
pub open spec fn resolve_enum_types_in_program_spec(p: ProgramView) -> ProgramView
{
    rewrite_program_types_spec(p, TypeRewriteView::Enums(enum_names_spec(p.enums)))
}

/// The program with every name of an enum read as that enum. The parser reads
/// every type name as a struct.
pub fn resolve_enum_types_in_program(p: &Program) -> (r: Program)
    ensures
        r@ == resolve_enum_types_in_program_spec(p@),
{
    rewrite_program_types(p, &TypeRewrite::Enums(enum_names(&p.enums)))
}

/// What [`substitute_aliases_in_program`] computes.
pub open spec fn substitute_aliases_in_program_spec(
    p: ProgramView,
    aliases: Seq<(Seq<char>, TypeView)>,
) -> ProgramView
{
    rewrite_program_types_spec(p, TypeRewriteView::Aliases((aliases)))
}

/// The program with every alias replaced by what it stands for.
pub fn substitute_aliases_in_program(p: &Program, aliases: &Vec<(String, Type)>) -> (r: Program)
    ensures
        r@ == substitute_aliases_in_program_spec(p@, crate::ir::named_types_view(aliases@)),
{
    rewrite_program_types(p, &TypeRewrite::Aliases(dup_named_types(aliases)))
}

/// What [`has_struct`] computes.
pub open spec fn has_struct_spec(ds: Seq<StructDeclView>, name: Seq<char>) -> bool
{
    exists|i: int|
        #![trigger ds[i]]
        0 <= i < ds.len() && ds[i].name == name
}

/// Whether a struct of the name is declared.
pub fn has_struct(ds: &Vec<StructDecl>, name: &str) -> (r: bool)
    ensures
        r == has_struct_spec(crate::ast::structs_view(ds@), name@),
{
    let ghost all = crate::ast::structs_view(ds@);
    let mut i: usize = 0;
    while i < ds.len()
        invariant
            i <= ds.len(),
            all == crate::ast::structs_view(ds@),
            forall|j: int|
                #![trigger all[j]]
                0 <= j < i ==> !(all[j].name == name@),
        decreases ds.len() - i,
    {
        let d = &ds[i];
        assert(all[i as int] == d@);
        if str_eq(&d.name, name) {
            return true;
        }
        i += 1;
    }
    false
}

/// What [`has_enum`] computes.
pub open spec fn has_enum_spec(ds: Seq<EnumDeclView>, name: Seq<char>) -> bool
{
    exists|i: int|
        #![trigger ds[i]]
        0 <= i < ds.len() && ds[i].name == name
}

/// Whether an enum of the name is declared.
pub fn has_enum(ds: &Vec<EnumDecl>, name: &str) -> (r: bool)
    ensures
        r == has_enum_spec(crate::ast::enums_view(ds@), name@),
{
    let ghost all = crate::ast::enums_view(ds@);
    let mut i: usize = 0;
    while i < ds.len()
        invariant
            i <= ds.len(),
            all == crate::ast::enums_view(ds@),
            forall|j: int|
                #![trigger all[j]]
                0 <= j < i ==> !(all[j].name == name@),
        decreases ds.len() - i,
    {
        let d = &ds[i];
        assert(all[i as int] == d@);
        if str_eq(&d.name, name) {
            return true;
        }
        i += 1;
    }
    false
}

/// What [`collect_aliases`] computes from position `i` on.
pub open spec fn collect_aliases_spec(
    aliases: Seq<TypeAliasView>,
    p: ProgramView,
    table: Seq<(Seq<char>, TypeAliasView)>,
    error: Option<(Span, Seq<char>)>,
    i: int,
) -> (Seq<(Seq<char>, TypeAliasView)>, Option<(Span, Seq<char>)>)
    decreases aliases.len() - i,
{
    if 0 <= i < aliases.len() && !error.is_some() {
        let a = aliases[i];
        let (table, error) = if alias_decl_has_spec(table, a.name) {
            (table, Some((a.name_span, "type alias '"@ + a.name + "' is already declared"@)))
        } else if has_struct_spec(p.structs, a.name) {
            (
                table,
                Some((
                    a.name_span,
                    "type alias '"@ + a.name + "' collides with a struct of the same name"@,
                )),
            )
        } else if has_enum_spec(p.enums, a.name) {
            (
                table,
                Some((
                    a.name_span,
                    "type alias '"@ + a.name + "' collides with an enum of the same name"@,
                )),
            )
        } else {
            (alias_decl_put_spec(table, a.name, a), None)
        };
        collect_aliases_spec(aliases, p, table, error, i + 1)
    } else {
        (table, error)
    }
}

/// The aliases by name, up to the first that is declared twice or shares its
/// name with a struct or enum, which is then the error.
pub fn collect_aliases(
    aliases: &Vec<TypeAlias>,
    p: &Program,
    table: Vec<(String, TypeAlias)>,
    error: Option<(Span, String)>,
) -> (r: (Vec<(String, TypeAlias)>, Option<(Span, String)>))
    ensures
        (crate::state::alias_table_view(r.0@), (match &r.1 { Some(v0) => Some((v0.0, v0.1@)), None => None })) == collect_aliases_spec(
            crate::ast::type_aliases_view(aliases@),
            p@,
            crate::state::alias_table_view(table@),
            (match &error { Some(v0) => Some((v0.0, v0.1@)), None => None }),
            0,
        ),
{
    let ghost whole_run = collect_aliases_spec(
        crate::ast::type_aliases_view(aliases@),
        p@,
        crate::state::alias_table_view(table@),
        (match &error { Some(v0) => Some((v0.0, v0.1@)), None => None }),
        0,
    );
    let mut table = table;
    let mut error = error;
    let mut i: usize = 0;
    while i < aliases.len() && !error.is_some()
        invariant
            i <= aliases.len(),
            collect_aliases_spec(
                crate::ast::type_aliases_view(aliases@),
                p@,
                crate::state::alias_table_view(table@),
                (match &error { Some(v0) => Some((v0.0, v0.1@)), None => None }),
                i as int,
            ) == whole_run,
        decreases aliases.len() - i,
    {
        let a = &aliases[i];
        let next = if alias_decl_has(&table, &a.name) {
            (table, Some((a.name_span, cat3("type alias '", &a.name, "' is already declared"))))
        } else if has_struct(&p.structs, &a.name) {
            (
                table,
                Some((
                    a.name_span,
                    cat3("type alias '", &a.name, "' collides with a struct of the same name"),
                )),
            )
        } else if has_enum(&p.enums, &a.name) {
            (
                table,
                Some((
                    a.name_span,
                    cat3("type alias '", &a.name, "' collides with an enum of the same name"),
                )),
            )
        } else {
            (alias_decl_put(&table, &a.name, a), None)
        };
        table = next.0;
        error = next.1;
        i += 1;
    }
    (table, error)
}

/// What [`recursive_alias`] computes.
pub open spec fn recursive_alias_spec(
    table: Seq<(Seq<char>, TypeAliasView)>,
    name: Seq<char>,
) -> (Span, Seq<char>)
{
    let span = match alias_decl_get_spec(table, name) {
        Some(a) => a.name_span,
        None => Span { start: 0, end: 0 },
    };
    (span, "recursive type alias '"@ + name + "' is not allowed in v1"@)
}

/// Where and why an alias that needs itself is refused.
pub fn recursive_alias(table: &Vec<(String, TypeAlias)>, name: &str) -> (r: (Span, String))
    ensures
        (r.0, r.1@) == recursive_alias_spec(crate::state::alias_table_view(table@), name@),
{
    let span = match alias_decl_get(table, name) {
        Some(a) => a.name_span,
        None => Span { start: 0, end: 0 },
    };
    (span, cat3("recursive type alias '", name, "' is not allowed in v1"))
}

/// What [`resolve_alias_chain`] computes.
pub open spec fn resolve_alias_chain_spec(
    name: Seq<char>,
    table: Seq<(Seq<char>, TypeAliasView)>,
    resolved: Seq<(Seq<char>, TypeView)>,
    stack: Seq<Seq<char>>,
    fuel: int,
) -> Result<Seq<(Seq<char>, TypeView)>, (Span, Seq<char>)>
    decreases fuel, stack, 0int,
{
    if crate::scope::named_type_has_spec(resolved, name) {
        Ok(resolved)
    } else if stack.contains(name) || fuel < 1 {
        Err(recursive_alias_spec(table, name))
    } else {
        match alias_decl_get_spec(table, name) {
            None => Ok(resolved),
            Some(alias) => {
                let inner = (stack).push(name);
                match resolve_type_with_aliases_spec(
                    alias.target,
                    table,
                    resolved,
                    inner,
                    fuel - 1,
                ) {
                    Err(error) => Err(error),
                    Ok((target, resolved)) => Ok(
                        crate::scope::named_type_put_spec(resolved, name, target),
                    ),
                }
            },
        }
    }
}

/// Adds an alias, and those that it needs, to the resolved ones. `stack` holds
/// the aliases being unfolded; `fuel` bounds their number.
pub fn resolve_alias_chain(
    name: &str,
    table: &Vec<(String, TypeAlias)>,
    resolved: Vec<(String, Type)>,
    stack: &Vec<String>,
    fuel: usize,
) -> (r: Result<Vec<(String, Type)>, (Span, String)>)
    ensures
        (match &r { Ok(v0) => Ok(crate::ir::named_types_view(v0@)), Err(v0) => Err((v0.0, v0.1@)) }) == resolve_alias_chain_spec(
            name@,
            crate::state::alias_table_view(table@),
            crate::ir::named_types_view(resolved@),
            crate::text::strs_view(stack@),
            fuel as int,
        ),
    decreases fuel, stack, 0int,
{
    if named_type_has(&resolved, name) {
        Ok(resolved)
    } else if contains_str(stack, name) || fuel < 1 {
        Err(recursive_alias(table, name))
    } else {
        match alias_decl_get(table, name) {
            None => Ok(resolved),
            Some(alias) => {
                let inner = push(dup_strs(stack), text(name));
                match resolve_type_with_aliases(&alias.target, table, resolved, &inner, fuel - 1) {
                    Err(error) => Err(error),
                    Ok((target, resolved)) => Ok(named_type_put(&resolved, name, &target)),
                }
            },
        }
    }
}

/// What [`resolve_type_with_aliases`] computes.
pub open spec fn resolve_type_with_aliases_spec(
    t: TypeView,
    table: Seq<(Seq<char>, TypeAliasView)>,
    resolved: Seq<(Seq<char>, TypeView)>,
    stack: Seq<Seq<char>>,
    fuel: int,
) -> Result<(TypeView, Seq<(Seq<char>, TypeView)>), (Span, Seq<char>)>
    decreases fuel, t, 1int,
{
    match t {
        TypeView::Struct(name) => if alias_decl_has_spec(table, name) {
            if fuel < 1 {
                Err(recursive_alias_spec(table, name))
            } else {
                match resolve_alias_chain_spec(name, table, resolved, stack, fuel - 1) {
                    Err(error) => Err(error),
                    Ok(resolved) => match crate::scope::named_type_get_spec(resolved, name) {
                        Some(target) => Ok((target, resolved)),
                        None => Ok((t, resolved)),
                    },
                }
            }
        } else {
            Ok((t, resolved))
        },
        TypeView::Vec(inner) => match resolve_type_with_aliases_spec(
            *inner,
            table,
            resolved,
            stack,
            fuel,
        ) {
            Ok((inner, resolved)) => Ok((TypeView::Vec(Box::new(inner)), resolved)),
            Err(error) => Err(error),
        },
        TypeView::Ref(inner) => match resolve_type_with_aliases_spec(
            *inner,
            table,
            resolved,
            stack,
            fuel,
        ) {
            Ok((inner, resolved)) => Ok((TypeView::Ref(Box::new(inner)), resolved)),
            Err(error) => Err(error),
        },
        TypeView::RefMut(inner) => match resolve_type_with_aliases_spec(
            *inner,
            table,
            resolved,
            stack,
            fuel,
        ) {
            Ok((inner, resolved)) => Ok((TypeView::RefMut(Box::new(inner)), resolved)),
            Err(error) => Err(error),
        },
        TypeView::Atomic(inner) => match resolve_type_with_aliases_spec(
            *inner,
            table,
            resolved,
            stack,
            fuel,
        ) {
            Ok((inner, resolved)) => Ok((TypeView::Atomic(Box::new(inner)), resolved)),
            Err(error) => Err(error),
        },
        TypeView::Mutex(inner) => match resolve_type_with_aliases_spec(
            *inner,
            table,
            resolved,
            stack,
            fuel,
        ) {
            Ok((inner, resolved)) => Ok((TypeView::Mutex(Box::new(inner)), resolved)),
            Err(error) => Err(error),
        },
        TypeView::Guard(inner) => match resolve_type_with_aliases_spec(
            *inner,
            table,
            resolved,
            stack,
            fuel,
        ) {
            Ok((inner, resolved)) => Ok((TypeView::Guard(Box::new(inner)), resolved)),
            Err(error) => Err(error),
        },
        TypeView::Array { element, length } => match resolve_type_with_aliases_spec(
            *element,
            table,
            resolved,
            stack,
            fuel,
        ) {
            Ok((inner, resolved)) => Ok((
                TypeView::Array { element: Box::new(inner), length: length },
                resolved,
            )),
            Err(error) => Err(error),
        },
        TypeView::Channel(element, capacity) => match resolve_type_with_aliases_spec(
            *element,
            table,
            resolved,
            stack,
            fuel,
        ) {
            Ok((inner, resolved)) => Ok((TypeView::Channel(Box::new(inner), capacity), resolved)),
            Err(error) => Err(error),
        },
        TypeView::Tuple(elements) => match resolve_types_with_aliases_spec(
            elements,
            table,
            stack,
            fuel,
            Ok((Seq::empty(), resolved)),
            0,
        ) {
            Ok((elements, resolved)) => Ok((TypeView::Tuple(elements), resolved)),
            Err(error) => Err(error),
        },
        TypeView::FnPtr(params, ret) => match resolve_types_with_aliases_spec(
            params,
            table,
            stack,
            fuel,
            Ok((Seq::empty(), resolved)),
            0,
        ) {
            Ok((params, resolved)) => match resolve_type_with_aliases_spec(
                *ret,
                table,
                resolved,
                stack,
                fuel,
            ) {
                Ok((ret, resolved)) => Ok((TypeView::FnPtr(params, Box::new(ret)), resolved)),
                Err(error) => Err(error),
            },
            Err(error) => Err(error),
        },
        _ => Ok((t, resolved)),
    }
}

/// A type with its aliases unfolded, and the aliases resolved on the way.
pub fn resolve_type_with_aliases(
    t: &Type,
    table: &Vec<(String, TypeAlias)>,
    resolved: Vec<(String, Type)>,
    stack: &Vec<String>,
    fuel: usize,
) -> (r: Result<(Type, Vec<(String, Type)>), (Span, String)>)
    ensures
        (match &r { Ok(v0) => Ok((v0.0@, crate::ir::named_types_view(v0.1@))), Err(v0) => Err((v0.0, v0.1@)) }) == resolve_type_with_aliases_spec(
            t@,
            crate::state::alias_table_view(table@),
            crate::ir::named_types_view(resolved@),
            crate::text::strs_view(stack@),
            fuel as int,
        ),
    decreases fuel, t, 1int,
{
    match t {
        Type::Struct(name) => if alias_decl_has(table, name) {
            if fuel < 1 {
                Err(recursive_alias(table, name))
            } else {
                match resolve_alias_chain(name, table, resolved, stack, fuel - 1) {
                    Err(error) => Err(error),
                    Ok(resolved) => match named_type_get(&resolved, name) {
                        Some(target) => Ok((target, resolved)),
                        None => Ok((t.dup(), resolved)),
                    },
                }
            }
        } else {
            Ok((t.dup(), resolved))
        },
        Type::Vec(inner) => match resolve_type_with_aliases(
            &**inner,
            table,
            resolved,
            stack,
            fuel,
        ) {
            Ok((inner, resolved)) => Ok((Type::Vec(Box::new(inner)), resolved)),
            Err(error) => Err(error),
        },
        Type::Ref(inner) => match resolve_type_with_aliases(
            &**inner,
            table,
            resolved,
            stack,
            fuel,
        ) {
            Ok((inner, resolved)) => Ok((Type::Ref(Box::new(inner)), resolved)),
            Err(error) => Err(error),
        },
        Type::RefMut(inner) => match resolve_type_with_aliases(
            &**inner,
            table,
            resolved,
            stack,
            fuel,
        ) {
            Ok((inner, resolved)) => Ok((Type::RefMut(Box::new(inner)), resolved)),
            Err(error) => Err(error),
        },
        Type::Atomic(inner) => match resolve_type_with_aliases(
            &**inner,
            table,
            resolved,
            stack,
            fuel,
        ) {
            Ok((inner, resolved)) => Ok((Type::Atomic(Box::new(inner)), resolved)),
            Err(error) => Err(error),
        },
        Type::Mutex(inner) => match resolve_type_with_aliases(
            &**inner,
            table,
            resolved,
            stack,
            fuel,
        ) {
            Ok((inner, resolved)) => Ok((Type::Mutex(Box::new(inner)), resolved)),
            Err(error) => Err(error),
        },
        Type::Guard(inner) => match resolve_type_with_aliases(
            &**inner,
            table,
            resolved,
            stack,
            fuel,
        ) {
            Ok((inner, resolved)) => Ok((Type::Guard(Box::new(inner)), resolved)),
            Err(error) => Err(error),
        },
        Type::Array { element, length } => match resolve_type_with_aliases(
            &**element,
            table,
            resolved,
            stack,
            fuel,
        ) {
            Ok((inner, resolved)) => Ok((
                Type::Array { element: Box::new(inner), length: *length },
                resolved,
            )),
            Err(error) => Err(error),
        },
        Type::Channel(element, capacity) => match resolve_type_with_aliases(
            &**element,
            table,
            resolved,
            stack,
            fuel,
        ) {
            Ok((inner, resolved)) => Ok((Type::Channel(Box::new(inner), *capacity), resolved)),
            Err(error) => Err(error),
        },
        Type::Tuple(elements) => match resolve_types_with_aliases(
            elements,
            table,
            stack,
            fuel,
            Ok((Vec::new(), resolved)),
        ) {
            Ok((elements, resolved)) => Ok((Type::Tuple(elements), resolved)),
            Err(error) => Err(error),
        },
        Type::FnPtr(params, ret) => match resolve_types_with_aliases(
            params,
            table,
            stack,
            fuel,
            Ok((Vec::new(), resolved)),
        ) {
            Ok((params, resolved)) => match resolve_type_with_aliases(
                &**ret,
                table,
                resolved,
                stack,
                fuel,
            ) {
                Ok((ret, resolved)) => Ok((Type::FnPtr(params, Box::new(ret)), resolved)),
                Err(error) => Err(error),
            },
            Err(error) => Err(error),
        },
        _ => Ok((t.dup(), resolved)),
    }
}

/// What [`resolve_types_with_aliases`] computes from position `i` on.
pub open spec fn resolve_types_with_aliases_spec(
    ts: Seq<TypeView>,
    table: Seq<(Seq<char>, TypeAliasView)>,
    stack: Seq<Seq<char>>,
    fuel: int,
    out: Result<(Seq<TypeView>, Seq<(Seq<char>, TypeView)>), (Span, Seq<char>)>,
    i: int,
) -> Result<(Seq<TypeView>, Seq<(Seq<char>, TypeView)>), (Span, Seq<char>)>
    decreases fuel, ts, ts.len() - i,
{
    if 0 <= i < ts.len() {
        let t = ts[i];
        let out = match out {
            Err(error) => Err(error),
            Ok((done, resolved)) => match resolve_type_with_aliases_spec(
                t,
                table,
                resolved,
                stack,
                fuel,
            ) {
                Err(error) => Err(error),
                Ok((t, resolved)) => Ok((done.push(t), resolved)),
            },
        };
        resolve_types_with_aliases_spec(ts, table, stack, fuel, out, i + 1)
    } else {
        out
    }
}

/// Adds types with their aliases unfolded, up to the first error.
pub fn resolve_types_with_aliases(
    ts: &Vec<Type>,
    table: &Vec<(String, TypeAlias)>,
    stack: &Vec<String>,
    fuel: usize,
    out: Result<(Vec<Type>, Vec<(String, Type)>), (Span, String)>,
) -> (r: Result<(Vec<Type>, Vec<(String, Type)>), (Span, String)>)
    ensures
        (match &r { Ok(v0) => Ok((crate::ast::types_view(v0.0@), crate::ir::named_types_view(v0.1@))), Err(v0) => Err((v0.0, v0.1@)) }) == resolve_types_with_aliases_spec(
            crate::ast::types_view(ts@),
            crate::state::alias_table_view(table@),
            crate::text::strs_view(stack@),
            fuel as int,
            (match &out { Ok(v0) => Ok((crate::ast::types_view(v0.0@), crate::ir::named_types_view(v0.1@))), Err(v0) => Err((v0.0, v0.1@)) }),
            0,
        ),
    decreases fuel, ts, ts.len(),
{
    let ghost whole_run = resolve_types_with_aliases_spec(
        crate::ast::types_view(ts@),
        crate::state::alias_table_view(table@),
        crate::text::strs_view(stack@),
        fuel as int,
        (match &out { Ok(v0) => Ok((crate::ast::types_view(v0.0@), crate::ir::named_types_view(v0.1@))), Err(v0) => Err((v0.0, v0.1@)) }),
        0,
    );
    let mut out = out;
    let mut i: usize = 0;
    while i < ts.len()
        invariant
            i <= ts.len(),
            resolve_types_with_aliases_spec(
                crate::ast::types_view(ts@),
                crate::state::alias_table_view(table@),
                crate::text::strs_view(stack@),
                fuel as int,
                (match &out { Ok(v0) => Ok((crate::ast::types_view(v0.0@), crate::ir::named_types_view(v0.1@))), Err(v0) => Err((v0.0, v0.1@)) }),
                i as int,
            ) == whole_run,
        decreases ts.len() - i,
    {
        let t = &ts[i];
        out = match out {
            Err(error) => Err(error),
            Ok((done, resolved)) => match resolve_type_with_aliases(
                t,
                table,
                resolved,
                stack,
                fuel,
            ) {
                Err(error) => Err(error),
                Ok((t, resolved)) => Ok((push(done, t), resolved)),
            },
        };
        i += 1;
    }
    out
}

/// What [`resolve_each_alias`] computes from position `i` on.
pub open spec fn resolve_each_alias_spec(
    entries: Seq<(Seq<char>, TypeAliasView)>,
    table: Seq<(Seq<char>, TypeAliasView)>,
    fuel: int,
    out: Result<Seq<(Seq<char>, TypeView)>, (Span, Seq<char>)>,
    i: int,
) -> Result<Seq<(Seq<char>, TypeView)>, (Span, Seq<char>)>
    decreases entries.len() - i,
{
    if 0 <= i < entries.len() {
        let e = entries[i];
        let out = match out {
            Err(error) => Err(error),
            Ok(resolved) => {
                let none: Seq<Seq<char>> = Seq::empty();
                resolve_alias_chain_spec(e.0, table, resolved, none, fuel)
            },
        };
        resolve_each_alias_spec(entries, table, fuel, out, i + 1)
    } else {
        out
    }
}

/// Resolves the aliases in order, up to the first error.
pub fn resolve_each_alias(
    entries: &Vec<(String, TypeAlias)>,
    table: &Vec<(String, TypeAlias)>,
    fuel: usize,
    out: Result<Vec<(String, Type)>, (Span, String)>,
) -> (r: Result<Vec<(String, Type)>, (Span, String)>)
    ensures
        (match &r { Ok(v0) => Ok(crate::ir::named_types_view(v0@)), Err(v0) => Err((v0.0, v0.1@)) }) == resolve_each_alias_spec(
            crate::state::alias_table_view(entries@),
            crate::state::alias_table_view(table@),
            fuel as int,
            (match &out { Ok(v0) => Ok(crate::ir::named_types_view(v0@)), Err(v0) => Err((v0.0, v0.1@)) }),
            0,
        ),
{
    let ghost whole_run = resolve_each_alias_spec(
        crate::state::alias_table_view(entries@),
        crate::state::alias_table_view(table@),
        fuel as int,
        (match &out { Ok(v0) => Ok(crate::ir::named_types_view(v0@)), Err(v0) => Err((v0.0, v0.1@)) }),
        0,
    );
    let mut out = out;
    let mut i: usize = 0;
    while i < entries.len()
        invariant
            i <= entries.len(),
            resolve_each_alias_spec(
                crate::state::alias_table_view(entries@),
                crate::state::alias_table_view(table@),
                fuel as int,
                (match &out { Ok(v0) => Ok(crate::ir::named_types_view(v0@)), Err(v0) => Err((v0.0, v0.1@)) }),
                i as int,
            ) == whole_run,
        decreases entries.len() - i,
    {
        let e = &entries[i];
        out = match out {
            Err(error) => Err(error),
            Ok(resolved) => {
                let none: Vec<String> = Vec::new();
                resolve_alias_chain(&e.0, table, resolved, &none, fuel)
            },
        };
        i += 1;
    }
    out
}

/// What [`resolve_type_aliases`] computes.
pub open spec fn resolve_type_aliases_spec(p: ProgramView) -> Result<Seq<(
    Seq<char>,
    TypeView,
)>, (Span, Seq<char>)>
{
    let (table, error) = collect_aliases_spec(p.type_aliases, p, Seq::empty(), None, 0);
    match error {
        Some(error) => Err(error),
        None => resolve_each_alias_spec(
            table,
            table,
            crate::text::twice_spec((table.len() as int)),
            Ok(Seq::empty()),
            0,
        ),
    }
}

/// Every alias of the program with the type it stands for, all inner aliases
/// unfolded; or the first error.
pub fn resolve_type_aliases(p: &Program) -> (r: Result<Vec<(String, Type)>, (Span, String)>)
    ensures
        (match &r { Ok(v0) => Ok(crate::ir::named_types_view(v0@)), Err(v0) => Err((v0.0, v0.1@)) }) == resolve_type_aliases_spec(p@),
{
    let (table, error) = collect_aliases(&p.type_aliases, p, Vec::new(), None);
    match error {
        Some(error) => Err(error),
        None => resolve_each_alias(&table, &table, twice(table.len()), Ok(Vec::new())),
    }
}

/// Whether a type names a struct, also inside.
pub open spec fn names_struct(t: TypeView, name: Seq<char>) -> bool
    decreases t,
{
    match t {
        TypeView::Struct(n) => n == name,
        TypeView::Vec(inner) => names_struct(*inner, name),
        TypeView::Ref(inner) => names_struct(*inner, name),
        TypeView::RefMut(inner) => names_struct(*inner, name),
        TypeView::Atomic(inner) => names_struct(*inner, name),
        TypeView::Mutex(inner) => names_struct(*inner, name),
        TypeView::Guard(inner) => names_struct(*inner, name),
        TypeView::Array { element, .. } => names_struct(*element, name),
        TypeView::Channel(element, _) => names_struct(*element, name),
        TypeView::Tuple(elements) => exists|j: int|
            0 <= j < elements.len() && names_struct(#[trigger] elements[j], name),
        TypeView::FnPtr(params, ret) => names_struct(*ret, name) || exists|j: int|
            0 <= j < params.len() && names_struct(#[trigger] params[j], name),
        _ => false,
    }
}

/// Whether a type names no alias.
pub open spec fn names_no_alias(t: TypeView, table: Seq<(Seq<char>, TypeAliasView)>) -> bool {
    forall|name: Seq<char>| #[trigger]
        names_struct(t, name) ==> !alias_decl_has_spec(table, name)
}

/// Whether no type of a table of resolved aliases names an alias.
pub open spec fn all_unfolded(
    resolved: Seq<(Seq<char>, TypeView)>,
    table: Seq<(Seq<char>, TypeAliasView)>,
) -> bool {
    forall|k: Seq<char>|
        (#[trigger] crate::scope::named_type_get_spec(resolved, k)) matches Some(t)
            ==> names_no_alias(t, table)
}

/// Whether the target of an alias names another one.
pub open spec fn alias_uses(
    table: Seq<(Seq<char>, TypeAliasView)>,
    a: Seq<char>,
    b: Seq<char>,
) -> bool {
    alias_decl_get_spec(table, a) matches Some(alias) && names_struct(alias.target, b)
        && alias_decl_has_spec(table, b)
}

/// Whether each alias of a path uses the next one, and the last one uses
/// `name`.
pub open spec fn alias_path(
    table: Seq<(Seq<char>, TypeAliasView)>,
    path: Seq<Seq<char>>,
    name: Seq<char>,
) -> bool {
    forall|j: int|
        0 <= j < path.len() ==> alias_uses(
            table,
            #[trigger] path[j],
            if j + 1 < path.len() {
                path[j + 1]
            } else {
                name
            },
        )
}

/// Whether an alias leads back to itself.
pub open spec fn alias_recurs(table: Seq<(Seq<char>, TypeAliasView)>, name: Seq<char>) -> bool {
    exists|path: Seq<Seq<char>>| #[trigger]
        alias_path(table, path, name) && path.len() > 0 && path[0] == name
}

/// Whether resolving went on, or stopped at an alias that leads back to
/// itself.
pub open spec fn stops_at_recursion(
    error: (Span, Seq<char>),
    table: Seq<(Seq<char>, TypeAliasView)>,
) -> bool {
    exists|name: Seq<char>| #[trigger]
        alias_recurs(table, name) && error == recursive_alias_spec(table, name)
}

proof fn alias_found(m: Seq<(Seq<char>, TypeAliasView)>, k: Seq<char>, i: int)
    requires
        0 <= i <= m.len(),
        alias_decl_find_spec(m, k, None, i) is Some,
    ensures
        m.map_values(|e: (Seq<char>, TypeAliasView)| e.0).contains(k),
    decreases m.len() - i,
{
    reveal_with_fuel(alias_decl_find_spec, 2);
    if i < m.len() {
        if m[i].0 == k {
            assert(m.map_values(|e: (Seq<char>, TypeAliasView)| e.0)[i] == k);
        } else {
            alias_found(m, k, i + 1);
        }
    }
}

proof fn entry_is_found(m: Seq<(Seq<char>, TypeAliasView)>, i: int, j: int)
    requires
        0 <= j <= i < m.len(),
    ensures
        alias_decl_find_spec(m, m[i].0, None, j) is Some,
    decreases i - j,
{
    reveal_with_fuel(alias_decl_find_spec, 2);
    if m[j].0 == m[i].0 {
        found_alias_stays(m, m[i].0, m[j].1, j + 1);
    } else {
        entry_is_found(m, i, j + 1);
    }
}

proof fn found_alias_stays(
    m: Seq<(Seq<char>, TypeAliasView)>,
    k: Seq<char>,
    a: TypeAliasView,
    i: int,
)
    ensures
        alias_decl_find_spec(m, k, Some(a), i) == Some(a),
{
}

proof fn stack_is_short(table: Seq<(Seq<char>, TypeAliasView)>, stack: Seq<Seq<char>>)
    requires
        stack.no_duplicates(),
        forall|j: int| 0 <= j < stack.len() ==> alias_decl_has_spec(table, #[trigger] stack[j]),
    ensures
        stack.len() <= table.len(),
{
    let all = table.map_values(|e: (Seq<char>, TypeAliasView)| e.0);
    stack.unique_seq_to_set();
    all.lemma_cardinality_of_set();
    assert(stack.to_set().subset_of(all.to_set())) by {
        assert forall|n: Seq<char>| stack.to_set().contains(n) implies all.to_set().contains(n) by {
            let j = choose|j: int| 0 <= j < stack.len() && stack[j] == n;
            assert(alias_decl_has_spec(table, stack[j]));
            alias_found(table, stack[j], 0);
        }
    }
    vstd::set_lib::lemma_len_subset(stack.to_set(), all.to_set());
}

proof fn type_behind(
    s: Seq<(Seq<char>, TypeView)>,
    e: (Seq<char>, TypeView),
    k: Seq<char>,
    i: int,
)
    requires
        0 <= i <= s.len(),
    ensures
        crate::scope::named_type_find_spec(
            s.push(e),
            k,
            None,
            i,
        ) == match crate::scope::named_type_find_spec(s, k, None, i) {
            Some(x) => Some(x),
            None => if e.0 == k { Some(e.1) } else { None },
        },
    decreases s.len() - i,
{
    reveal_with_fuel(crate::scope::named_type_find_spec, 2);
    if i < s.len() {
        assert(s.push(e)[i] == s[i]);
        if s[i].0 != k {
            type_behind(s, e, k, i + 1);
        }
    } else {
        assert(s.push(e)[i] == e);
    }
}

/// What a search of `out` and then of `m` from position `i` on finds.
spec fn type_found_in_turn(
    out: Seq<(Seq<char>, TypeView)>,
    m: Seq<(Seq<char>, TypeView)>,
    k: Seq<char>,
    i: int,
) -> Option<TypeView> {
    match crate::scope::named_type_get_spec(out, k) {
        Some(x) => Some(x),
        None => crate::scope::named_type_find_spec(m, k, None, i),
    }
}

proof fn type_placed_once(
    m: Seq<(Seq<char>, TypeView)>,
    name: Seq<char>,
    v: TypeView,
    out: Seq<(Seq<char>, TypeView)>,
    placed: bool,
    k: Seq<char>,
    i: int,
)
    requires
        0 <= i <= m.len(),
        placed ==> crate::scope::named_type_get_spec(out, name) == Some(v),
        !placed ==> crate::scope::named_type_get_spec(out, name) is None,
    ensures
        ({
            let r = crate::scope::named_type_place_spec(m, name, v, out, placed, i);
            &&& r.1 ==> crate::scope::named_type_get_spec(r.0, name) == Some(v)
            &&& !r.1 ==> crate::scope::named_type_get_spec(r.0, name) is None
            &&& k != name
                ==> crate::scope::named_type_get_spec(r.0, k) == type_found_in_turn(out, m, k, i)
        }),
    decreases m.len() - i,
{
    reveal_with_fuel(crate::scope::named_type_find_spec, 2);
    if i < m.len() {
        let e = m[i];
        type_behind(out, (e.0, e.1), k, 0);
        type_behind(out, (e.0, e.1), name, 0);
        type_behind(out, (name, v), k, 0);
        type_behind(out, (name, v), name, 0);
        type_behind(out.push((name, v)), (e.0, e.1), k, 0);
        type_behind(out.push((name, v)), (e.0, e.1), name, 0);
        if placed {
            type_placed_once(m, name, v, out.push((e.0, e.1)), true, k, i + 1);
        } else if e.0 == name {
            type_placed_once(m, name, v, out.push((name, v)), true, k, i + 1);
        } else if crate::text::str_less_spec(name, e.0) {
            type_placed_once(m, name, v, out.push((name, v)).push((e.0, e.1)), true, k, i + 1);
        } else {
            type_placed_once(m, name, v, out.push((e.0, e.1)), false, k, i + 1);
        }
    }
}

/// A table of types holds under a name what was put there last, and under every
/// other name what it held before.
pub proof fn types_hold_what_was_put(
    m: Seq<(Seq<char>, TypeView)>,
    name: Seq<char>,
    v: TypeView,
    k: Seq<char>,
)
    ensures
        crate::scope::named_type_get_spec(
            crate::scope::named_type_put_spec(m, name, v),
            name,
        ) == Some(v),
        k != name
            ==> crate::scope::named_type_get_spec(crate::scope::named_type_put_spec(m, name, v), k)
            == crate::scope::named_type_get_spec(m, k),
{
    let none = Seq::<(Seq<char>, TypeView)>::empty();
    type_placed_once(m, name, v, none, false, k, 0);
    let r = crate::scope::named_type_place_spec(m, name, v, none, false, 0);
    type_behind(r.0, (name, v), k, 0);
    type_behind(r.0, (name, v), name, 0);
}

/// What is resolved stays resolved.
pub open spec fn still_resolved(
    before: Seq<(Seq<char>, TypeView)>,
    after: Seq<(Seq<char>, TypeView)>,
) -> bool {
    forall|k: Seq<char>|
        crate::scope::named_type_get_spec(before, k) is Some
            ==> (#[trigger] crate::scope::named_type_get_spec(after, k)) is Some
}

/// The aliases being unfolded: all different, each using the next one.
spec fn unfolding(
    table: Seq<(Seq<char>, TypeAliasView)>,
    stack: Seq<Seq<char>>,
    name: Seq<char>,
) -> bool {
    &&& stack.no_duplicates()
    &&& alias_path(table, stack, name)
    &&& forall|j: int| 0 <= j < stack.len() ==> alias_decl_has_spec(table, #[trigger] stack[j])
}

/// A type inside the target of the alias being unfolded.
spec fn inside_target(
    t: TypeView,
    table: Seq<(Seq<char>, TypeAliasView)>,
    stack: Seq<Seq<char>>,
) -> bool {
    &&& stack.len() > 0
    &&& stack.no_duplicates()
    &&& forall|j: int| 0 <= j < stack.len() ==> alias_decl_has_spec(table, #[trigger] stack[j])
    &&& forall|name: Seq<char>|
        #[trigger] names_struct(t, name) && alias_decl_has_spec(table, name) ==> alias_path(
            table,
            stack,
            name,
        )
}

proof fn closed_stack_recurs(
    table: Seq<(Seq<char>, TypeAliasView)>,
    stack: Seq<Seq<char>>,
    name: Seq<char>,
)
    requires
        alias_path(table, stack, name),
        stack.contains(name),
    ensures
        alias_recurs(table, name),
{
    let k = choose|k: int| 0 <= k < stack.len() && stack[k] == name;
    let path = stack.subrange(k, stack.len() as int);
    assert forall|j: int| 0 <= j < path.len() implies alias_uses(
        table,
        #[trigger] path[j],
        if j + 1 < path.len() {
            path[j + 1]
        } else {
            name
        },
    ) by {
        assert(path[j] == stack[k + j]);
        if j + 1 < path.len() {
            assert(path[j + 1] == stack[k + j + 1]);
        }
    }
    assert(alias_path(table, path, name));
}

proof fn target_is_inside(
    table: Seq<(Seq<char>, TypeAliasView)>,
    stack: Seq<Seq<char>>,
    name: Seq<char>,
    alias: TypeAliasView,
)
    requires
        unfolding(table, stack, name),
        alias_decl_get_spec(table, name) == Some(alias),
        !stack.contains(name),
    ensures
        inside_target(alias.target, table, stack.push(name)),
{
    let inner = stack.push(name);
    assert forall|j: int| 0 <= j < inner.len() implies alias_decl_has_spec(
        table,
        #[trigger] inner[j],
    ) by {
        if j < stack.len() {
            assert(inner[j] == stack[j]);
        }
    }
    assert forall|n: Seq<char>| #[trigger]
        names_struct(alias.target, n) && alias_decl_has_spec(table, n) implies alias_path(
        table,
        inner,
        n,
    ) by {
        assert forall|j: int| 0 <= j < inner.len() implies alias_uses(
            table,
            #[trigger] inner[j],
            if j + 1 < inner.len() {
                inner[j + 1]
            } else {
                n
            },
        ) by {
            if j < stack.len() {
                assert(inner[j] == stack[j]);
                if j + 1 < stack.len() {
                    assert(inner[j + 1] == stack[j + 1]);
                }
            }
        }
    }
}

proof fn one_more_unfolded(
    table: Seq<(Seq<char>, TypeAliasView)>,
    resolved: Seq<(Seq<char>, TypeView)>,
    after: Seq<(Seq<char>, TypeView)>,
    name: Seq<char>,
    target: TypeView,
)
    requires
        all_unfolded(after, table),
        still_resolved(resolved, after),
        names_no_alias(target, table),
    ensures
        all_unfolded(crate::scope::named_type_put_spec(after, name, target), table),
        still_resolved(resolved, crate::scope::named_type_put_spec(after, name, target)),
        crate::scope::named_type_has_spec(
            crate::scope::named_type_put_spec(after, name, target),
            name,
        ),
{
    let put = crate::scope::named_type_put_spec(after, name, target);
    assert forall|k: Seq<char>|
        (#[trigger] crate::scope::named_type_get_spec(put, k)) is Some implies names_no_alias(
        crate::scope::named_type_get_spec(put, k)->0,
        table,
    ) by {
        types_hold_what_was_put(after, name, target, k);
        if k != name {
            assert(crate::scope::named_type_get_spec(after, k) is Some);
        }
    }
    assert forall|k: Seq<char>| crate::scope::named_type_get_spec(resolved, k) is Some implies (
    #[trigger] crate::scope::named_type_get_spec(put, k)) is Some by {
        types_hold_what_was_put(after, name, target, k);
        assert(crate::scope::named_type_get_spec(after, k) is Some);
    }
    types_hold_what_was_put(after, name, target, name);
}

proof fn chain_unfolds(
    name: Seq<char>,
    table: Seq<(Seq<char>, TypeAliasView)>,
    resolved: Seq<(Seq<char>, TypeView)>,
    stack: Seq<Seq<char>>,
    fuel: int,
)
    requires
        unfolding(table, stack, name),
        alias_decl_has_spec(table, name),
        all_unfolded(resolved, table),
        fuel == 2 * (table.len() - stack.len()) + 2,
    ensures
        match resolve_alias_chain_spec(name, table, resolved, stack, fuel) {
            Ok(after) => all_unfolded(after, table) && still_resolved(resolved, after)
                && crate::scope::named_type_has_spec(after, name),
            Err(error) => stops_at_recursion(error, table),
        },
    decreases fuel, stack, 0int,
{
    if !crate::scope::named_type_has_spec(resolved, name) {
        stack_is_short(table, stack);
        if stack.contains(name) {
            closed_stack_recurs(table, stack, name);
        } else {
            let inner = stack.push(name);
            let alias = alias_decl_get_spec(table, name)->0;
            target_is_inside(table, stack, name, alias);
            type_unfolds(alias.target, table, resolved, inner, fuel - 1);
            match resolve_type_with_aliases_spec(alias.target, table, resolved, inner, fuel - 1) {
                Ok((target, after)) => {
                    one_more_unfolded(table, resolved, after, name, target);
                },
                Err(_) => {},
            }
        }
    }
}

proof fn type_unfolds(
    t: TypeView,
    table: Seq<(Seq<char>, TypeAliasView)>,
    resolved: Seq<(Seq<char>, TypeView)>,
    stack: Seq<Seq<char>>,
    fuel: int,
)
    requires
        inside_target(t, table, stack),
        all_unfolded(resolved, table),
        fuel == 2 * (table.len() - stack.len()) + 3,
    ensures
        match resolve_type_with_aliases_spec(t, table, resolved, stack, fuel) {
            Ok((unfolded, after)) => all_unfolded(after, table) && still_resolved(resolved, after)
                && names_no_alias(unfolded, table),
            Err(error) => stops_at_recursion(error, table),
        },
    decreases fuel, t, 1int,
{
    stack_is_short(table, stack);
    match t {
        TypeView::Struct(name) => {
            if alias_decl_has_spec(table, name) {
                assert(names_struct(t, name));
                chain_unfolds(name, table, resolved, stack, fuel - 1);
            } else {
                assert(names_no_alias(t, table));
            }
        },
        TypeView::Vec(inner) => {
            assert forall|name: Seq<char>| #[trigger]
                names_struct(*inner, name) && alias_decl_has_spec(table, name) implies alias_path(
                table,
                stack,
                name,
            ) by {
                assert(names_struct(t, name));
            }
            type_unfolds(*inner, table, resolved, stack, fuel);
            if let Ok((unfolded, _)) = resolve_type_with_aliases_spec(
                *inner,
                table,
                resolved,
                stack,
                fuel,
            ) {
                assert forall|name: Seq<char>| #[trigger]
                    names_struct(TypeView::Vec(Box::new(unfolded)), name)
                        implies !alias_decl_has_spec(
                    table,
                    name,
                ) by {
                    assert(names_struct(unfolded, name));
                }
            }
        },
        TypeView::Ref(inner) => {
            assert forall|name: Seq<char>| #[trigger]
                names_struct(*inner, name) && alias_decl_has_spec(table, name) implies alias_path(
                table,
                stack,
                name,
            ) by {
                assert(names_struct(t, name));
            }
            type_unfolds(*inner, table, resolved, stack, fuel);
            if let Ok((unfolded, _)) = resolve_type_with_aliases_spec(
                *inner,
                table,
                resolved,
                stack,
                fuel,
            ) {
                assert forall|name: Seq<char>| #[trigger]
                    names_struct(TypeView::Ref(Box::new(unfolded)), name)
                        implies !alias_decl_has_spec(
                    table,
                    name,
                ) by {
                    assert(names_struct(unfolded, name));
                }
            }
        },
        TypeView::RefMut(inner) => {
            assert forall|name: Seq<char>| #[trigger]
                names_struct(*inner, name) && alias_decl_has_spec(table, name) implies alias_path(
                table,
                stack,
                name,
            ) by {
                assert(names_struct(t, name));
            }
            type_unfolds(*inner, table, resolved, stack, fuel);
            if let Ok((unfolded, _)) = resolve_type_with_aliases_spec(
                *inner,
                table,
                resolved,
                stack,
                fuel,
            ) {
                assert forall|name: Seq<char>| #[trigger]
                    names_struct(TypeView::RefMut(Box::new(unfolded)), name)
                        implies !alias_decl_has_spec(
                    table,
                    name,
                ) by {
                    assert(names_struct(unfolded, name));
                }
            }
        },
        TypeView::Atomic(inner) => {
            assert forall|name: Seq<char>| #[trigger]
                names_struct(*inner, name) && alias_decl_has_spec(table, name) implies alias_path(
                table,
                stack,
                name,
            ) by {
                assert(names_struct(t, name));
            }
            type_unfolds(*inner, table, resolved, stack, fuel);
            if let Ok((unfolded, _)) = resolve_type_with_aliases_spec(
                *inner,
                table,
                resolved,
                stack,
                fuel,
            ) {
                assert forall|name: Seq<char>| #[trigger]
                    names_struct(TypeView::Atomic(Box::new(unfolded)), name)
                        implies !alias_decl_has_spec(
                    table,
                    name,
                ) by {
                    assert(names_struct(unfolded, name));
                }
            }
        },
        TypeView::Mutex(inner) => {
            assert forall|name: Seq<char>| #[trigger]
                names_struct(*inner, name) && alias_decl_has_spec(table, name) implies alias_path(
                table,
                stack,
                name,
            ) by {
                assert(names_struct(t, name));
            }
            type_unfolds(*inner, table, resolved, stack, fuel);
            if let Ok((unfolded, _)) = resolve_type_with_aliases_spec(
                *inner,
                table,
                resolved,
                stack,
                fuel,
            ) {
                assert forall|name: Seq<char>| #[trigger]
                    names_struct(TypeView::Mutex(Box::new(unfolded)), name)
                        implies !alias_decl_has_spec(
                    table,
                    name,
                ) by {
                    assert(names_struct(unfolded, name));
                }
            }
        },
        TypeView::Guard(inner) => {
            assert forall|name: Seq<char>| #[trigger]
                names_struct(*inner, name) && alias_decl_has_spec(table, name) implies alias_path(
                table,
                stack,
                name,
            ) by {
                assert(names_struct(t, name));
            }
            type_unfolds(*inner, table, resolved, stack, fuel);
            if let Ok((unfolded, _)) = resolve_type_with_aliases_spec(
                *inner,
                table,
                resolved,
                stack,
                fuel,
            ) {
                assert forall|name: Seq<char>| #[trigger]
                    names_struct(TypeView::Guard(Box::new(unfolded)), name)
                        implies !alias_decl_has_spec(
                    table,
                    name,
                ) by {
                    assert(names_struct(unfolded, name));
                }
            }
        },
        TypeView::Array { element, length } => {
            assert forall|name: Seq<char>| #[trigger]
                names_struct(*element, name) && alias_decl_has_spec(table, name) implies alias_path(
                table,
                stack,
                name,
            ) by {
                assert(names_struct(t, name));
            }
            type_unfolds(*element, table, resolved, stack, fuel);
            if let Ok((unfolded, _)) = resolve_type_with_aliases_spec(
                *element,
                table,
                resolved,
                stack,
                fuel,
            ) {
                let whole = TypeView::Array { element: Box::new(unfolded), length };
                assert forall|name: Seq<char>| #[trigger]
                    names_struct(whole, name) implies !alias_decl_has_spec(table, name) by {
                    assert(names_struct(unfolded, name));
                }
            }
        },
        TypeView::Channel(element, capacity) => {
            assert forall|name: Seq<char>| #[trigger]
                names_struct(*element, name) && alias_decl_has_spec(table, name) implies alias_path(
                table,
                stack,
                name,
            ) by {
                assert(names_struct(t, name));
            }
            type_unfolds(*element, table, resolved, stack, fuel);
            if let Ok((unfolded, _)) = resolve_type_with_aliases_spec(
                *element,
                table,
                resolved,
                stack,
                fuel,
            ) {
                let whole = TypeView::Channel(Box::new(unfolded), capacity);
                assert forall|name: Seq<char>| #[trigger]
                    names_struct(whole, name) implies !alias_decl_has_spec(table, name) by {
                    assert(names_struct(unfolded, name));
                }
            }
        },
        TypeView::Tuple(elements) => {
            assert forall|j: int| 0 <= j < elements.len() implies inside_target(
                #[trigger] elements[j],
                table,
                stack,
            ) by {
                assert forall|name: Seq<char>| #[trigger]
                    names_struct(elements[j], name)
                        && alias_decl_has_spec(table, name) implies alias_path(
                    table,
                    stack,
                    name,
                ) by {
                    assert(names_struct(t, name));
                }
            }
            types_unfold(elements, table, stack, fuel, Seq::empty(), resolved, 0);
            if let Ok((unfolded, _)) = resolve_types_with_aliases_spec(
                elements,
                table,
                stack,
                fuel,
                Ok((Seq::empty(), resolved)),
                0,
            ) {
                let whole = TypeView::Tuple(unfolded);
                assert forall|name: Seq<char>| #[trigger]
                    names_struct(whole, name) implies !alias_decl_has_spec(table, name) by {
                    let j = choose|j: int|
                        0 <= j < unfolded.len() && names_struct(#[trigger] unfolded[j], name);
                    assert(names_no_alias(unfolded[j], table));
                }
            }
        },
        TypeView::FnPtr(params, ret) => {
            assert forall|j: int| 0 <= j < params.len() implies inside_target(
                #[trigger] params[j],
                table,
                stack,
            ) by {
                assert forall|name: Seq<char>| #[trigger]
                    names_struct(params[j], name)
                        && alias_decl_has_spec(table, name) implies alias_path(
                    table,
                    stack,
                    name,
                ) by {
                    assert(names_struct(t, name));
                }
            }
            assert forall|name: Seq<char>| #[trigger]
                names_struct(*ret, name) && alias_decl_has_spec(table, name) implies alias_path(
                table,
                stack,
                name,
            ) by {
                assert(names_struct(t, name));
            }
            types_unfold(params, table, stack, fuel, Seq::empty(), resolved, 0);
            if let Ok((unfolded, after)) = resolve_types_with_aliases_spec(
                params,
                table,
                stack,
                fuel,
                Ok((Seq::empty(), resolved)),
                0,
            ) {
                type_unfolds(*ret, table, after, stack, fuel);
                if let Ok((last, _)) = resolve_type_with_aliases_spec(
                    *ret,
                    table,
                    after,
                    stack,
                    fuel,
                ) {
                    let whole = TypeView::FnPtr(unfolded, Box::new(last));
                    assert forall|name: Seq<char>| #[trigger]
                        names_struct(whole, name) implies !alias_decl_has_spec(table, name) by {
                        if names_struct(last, name) {
                        } else {
                            let j = choose|j: int|
                                0 <= j < unfolded.len()
                                    && names_struct(#[trigger] unfolded[j], name);
                            assert(names_no_alias(unfolded[j], table));
                        }
                    }
                }
            }
        },
        _ => {
            assert(names_no_alias(t, table));
        },
    }
}

proof fn types_unfold(
    ts: Seq<TypeView>,
    table: Seq<(Seq<char>, TypeAliasView)>,
    stack: Seq<Seq<char>>,
    fuel: int,
    done: Seq<TypeView>,
    resolved: Seq<(Seq<char>, TypeView)>,
    i: int,
)
    requires
        0 <= i <= ts.len(),
        forall|j: int| 0 <= j < ts.len() ==> inside_target(#[trigger] ts[j], table, stack),
        all_unfolded(resolved, table),
        forall|j: int| 0 <= j < done.len() ==> names_no_alias(#[trigger] done[j], table),
        fuel == 2 * (table.len() - stack.len()) + 3,
    ensures
        match resolve_types_with_aliases_spec(ts, table, stack, fuel, Ok((done, resolved)), i) {
            Ok((unfolded, after)) => all_unfolded(after, table) && still_resolved(resolved, after)
                && forall|j: int|
                0 <= j < unfolded.len() ==> names_no_alias(#[trigger] unfolded[j], table),
            Err(error) => stops_at_recursion(error, table),
        },
    decreases fuel, ts, ts.len() - i,
{
    if i < ts.len() {
        assert(inside_target(ts[i], table, stack));
        type_unfolds(ts[i], table, resolved, stack, fuel);
        match resolve_type_with_aliases_spec(ts[i], table, resolved, stack, fuel) {
            Ok((one, after)) => {
                types_unfold(ts, table, stack, fuel, done.push(one), after, i + 1);
            },
            Err(error) => {
                error_stays(ts, table, stack, fuel, error, i + 1);
            },
        }
    }
}

proof fn error_stays(
    ts: Seq<TypeView>,
    table: Seq<(Seq<char>, TypeAliasView)>,
    stack: Seq<Seq<char>>,
    fuel: int,
    error: (Span, Seq<char>),
    i: int,
)
    requires
        0 <= i <= ts.len(),
    ensures
        resolve_types_with_aliases_spec(ts, table, stack, fuel, Err(error), i)
            == Err::<(Seq<TypeView>, Seq<(Seq<char>, TypeView)>), (Span, Seq<char>)>(error),
    decreases ts.len() - i,
{
    if i < ts.len() {
        error_stays(ts, table, stack, fuel, error, i + 1);
    }
}

proof fn first_error_stays(
    entries: Seq<(Seq<char>, TypeAliasView)>,
    table: Seq<(Seq<char>, TypeAliasView)>,
    fuel: int,
    error: (Span, Seq<char>),
    i: int,
)
    requires
        0 <= i <= entries.len(),
    ensures
        resolve_each_alias_spec(entries, table, fuel, Err(error), i) == Err::<
            Seq<(Seq<char>, TypeView)>,
            (Span, Seq<char>),
        >(error),
    decreases entries.len() - i,
{
    if i < entries.len() {
        first_error_stays(entries, table, fuel, error, i + 1);
    }
}

proof fn each_unfolds(
    table: Seq<(Seq<char>, TypeAliasView)>,
    resolved: Seq<(Seq<char>, TypeView)>,
    i: int,
)
    requires
        0 <= i <= table.len(),
        all_unfolded(resolved, table),
        forall|j: int| 0 <= j < i ==> crate::scope::named_type_has_spec(
            resolved,
            (#[trigger] table[j]).0,
        ),
    ensures
        match resolve_each_alias_spec(table, table, 2 * table.len() as int + 2, Ok(resolved), i) {
            Ok(after) => all_unfolded(after, table) && forall|j: int|
                0 <= j < table.len()
                    ==> crate::scope::named_type_has_spec(after, (#[trigger] table[j]).0),
            Err(error) => stops_at_recursion(error, table),
        },
    decreases table.len() - i,
{
    if i < table.len() {
        let none = Seq::<Seq<char>>::empty();
        let fuel: int = 2 * table.len() as int + 2;
        entry_is_found(table, i, 0);
        assert(unfolding(table, none, table[i].0));
        chain_unfolds(table[i].0, table, resolved, none, fuel);
        match resolve_alias_chain_spec(table[i].0, table, resolved, none, fuel) {
            Ok(after) => {
                each_unfolds(table, after, i + 1);
            },
            Err(error) => {
                first_error_stays(table, table, fuel, error, i + 1);
            },
        }
    }
}

/// The aliases of a program are unfolded to the end: what each of them stands
/// for names no alias any more. Where that fails, some alias is declared twice
/// or under the name of a struct or enum, or leads back to itself.
pub proof fn aliases_are_unfolded(p: ProgramView)
    requires
        2 * collect_aliases_spec(
            p.type_aliases,
            p,
            Seq::empty(),
            None,
            0,
        ).0.len() + 2 <= usize::MAX,
    ensures
        ({
            let (table, error) = collect_aliases_spec(p.type_aliases, p, Seq::empty(), None, 0);
            match resolve_type_aliases_spec(p) {
                Ok(resolved) => error is None && all_unfolded(resolved, table) && forall|j: int|
                    0 <= j < table.len()
                        ==> crate::scope::named_type_has_spec(resolved, (#[trigger] table[j]).0),
                Err(e) => error == Some(e) || (error is None && stops_at_recursion(e, table)),
            }
        }),
{
    let (table, error) = collect_aliases_spec(p.type_aliases, p, Seq::empty(), None, 0);
    if error is None {
        each_unfolds(table, Seq::empty(), 0);
    }
}

proof fn rewritten_one_by_one(ts: Seq<TypeView>, rw: TypeRewriteView, out: Seq<TypeView>, i: int)
    requires
        0 <= i <= ts.len(),
    ensures
        ({
            let r = rewrite_types_spec(ts, rw, out, i);
            &&& r.len() == out.len() + ts.len() - i
            &&& forall|j: int| 0 <= j < out.len() ==> #[trigger] r[j] == out[j]
            &&& forall|j: int|
                out.len() <= j < r.len() ==> #[trigger] r[j] == rewrite_type_spec(
                    ts[i + j - out.len()],
                    rw,
                )
        }),
    decreases ts.len() - i,
{
    if i < ts.len() {
        rewritten_one_by_one(ts, rw, out.push(rewrite_type_spec(ts[i], rw)), i + 1);
    }
}

/// Whether a rewritten type may name the struct: the rewrite leaves the name
/// alone, or brings it in.
pub open spec fn may_remain(rw: TypeRewriteView, name: Seq<char>) -> bool {
    match rw {
        TypeRewriteView::Enums(enums) => !enums.contains(name),
        TypeRewriteView::Aliases(aliases) => crate::scope::named_type_get_spec(
            aliases,
            name,
        ) is None || exists|k: Seq<char>|
            (#[trigger] crate::scope::named_type_get_spec(aliases, k)) matches Some(t)
                && names_struct(t, name),
        TypeRewriteView::Parameter(_, _) => true,
    }
}

/// A rewritten type names only structs that the rewrite leaves.
pub proof fn rewritten_names_remain(t: TypeView, rw: TypeRewriteView, name: Seq<char>)
    requires
        names_struct(rewrite_type_spec(t, rw), name),
    ensures
        may_remain(rw, name),
    decreases t,
{
    match t {
        TypeView::Struct(n) => match rw {
            TypeRewriteView::Aliases(aliases) => match crate::scope::named_type_get_spec(
                aliases,
                n,
            ) {
                Some(target) => {
                    assert(names_struct(target, name));
                    assert(crate::scope::named_type_get_spec(aliases, n) == Some(target));
                },
                None => {},
            },
            _ => {},
        },
        TypeView::Vec(inner) => {
            rewritten_names_remain(*inner, rw, name);
        },
        TypeView::Ref(inner) => {
            rewritten_names_remain(*inner, rw, name);
        },
        TypeView::RefMut(inner) => {
            rewritten_names_remain(*inner, rw, name);
        },
        TypeView::Atomic(inner) => {
            rewritten_names_remain(*inner, rw, name);
        },
        TypeView::Mutex(inner) => {
            rewritten_names_remain(*inner, rw, name);
        },
        TypeView::Guard(inner) => {
            rewritten_names_remain(*inner, rw, name);
        },
        TypeView::Array { element, .. } => {
            rewritten_names_remain(*element, rw, name);
        },
        TypeView::Channel(element, _) => {
            rewritten_names_remain(*element, rw, name);
        },
        TypeView::Tuple(elements) => {
            rewritten_one_by_one(elements, rw, Seq::empty(), 0);
            let r = rewrite_types_spec(elements, rw, Seq::empty(), 0);
            let j = choose|j: int| 0 <= j < r.len() && names_struct(#[trigger] r[j], name);
            rewritten_names_remain(elements[j], rw, name);
        },
        TypeView::FnPtr(params, ret) => {
            rewritten_one_by_one(params, rw, Seq::empty(), 0);
            let r = rewrite_types_spec(params, rw, Seq::empty(), 0);
            if names_struct(rewrite_type_spec(*ret, rw), name) {
                rewritten_names_remain(*ret, rw, name);
            } else {
                let j = choose|j: int| 0 <= j < r.len() && names_struct(#[trigger] r[j], name);
                rewritten_names_remain(params[j], rw, name);
            }
        },
        _ => {},
    }
}

/// Once the names of enums are read as enums, no type reads one as a struct.
pub proof fn no_enum_is_read_as_struct(t: TypeView, enums: Seq<Seq<char>>, name: Seq<char>)
    requires
        enums.contains(name),
    ensures
        !names_struct(rewrite_type_spec(t, TypeRewriteView::Enums(enums)), name),
{
    if names_struct(rewrite_type_spec(t, TypeRewriteView::Enums(enums)), name) {
        rewritten_names_remain(t, TypeRewriteView::Enums(enums), name);
    }
}

/// Once the aliases are replaced by what they stand for, no type names one.
pub proof fn no_alias_remains(
    t: TypeView,
    table: Seq<(Seq<char>, TypeAliasView)>,
    resolved: Seq<(Seq<char>, TypeView)>,
)
    requires
        all_unfolded(resolved, table),
        forall|name: Seq<char>| #[trigger]
            alias_decl_has_spec(table, name) ==> crate::scope::named_type_has_spec(resolved, name),
    ensures
        names_no_alias(rewrite_type_spec(t, TypeRewriteView::Aliases(resolved)), table),
{
    let rw = TypeRewriteView::Aliases(resolved);
    assert forall|name: Seq<char>| #[trigger]
        names_struct(rewrite_type_spec(t, rw), name) implies !alias_decl_has_spec(table, name) by {
        rewritten_names_remain(t, rw, name);
        if alias_decl_has_spec(table, name) {
            let k = choose|k: Seq<char>|
                (#[trigger] crate::scope::named_type_get_spec(resolved, k)) matches Some(t)
                    && names_struct(t, name);
            assert(names_no_alias(crate::scope::named_type_get_spec(resolved, k)->0, table));
        }
    }
}

/// No type of a signature names the struct.
pub open spec fn signature_without(
    params: Seq<ParamView>,
    return_type: TypeView,
    name: Seq<char>,
) -> bool {
    !names_struct(return_type, name) && forall|i: int|
        0 <= i < params.len() ==> !names_struct((#[trigger] params[i]).ty, name)
}

/// No signature of the functions names the struct.
pub open spec fn functions_without(fs: Seq<FunctionView>, name: Seq<char>) -> bool {
    forall|i: int|
        0 <= i < fs.len() ==> signature_without((#[trigger] fs[i]).params, fs[i].return_type, name)
}

/// No field names the struct.
pub open spec fn fields_without(fs: Seq<FieldDeclView>, name: Seq<char>) -> bool {
    forall|i: int| 0 <= i < fs.len() ==> !names_struct((#[trigger] fs[i]).ty, name)
}

/// No payload names the struct.
pub open spec fn payload_without(ts: Seq<TypeView>, name: Seq<char>) -> bool {
    forall|i: int| 0 <= i < ts.len() ==> !names_struct(#[trigger] ts[i], name)
}

/// No payload of the variants names the struct.
pub open spec fn variants_without(vs: Seq<VariantDeclView>, name: Seq<char>) -> bool {
    forall|i: int| 0 <= i < vs.len() ==> payload_without((#[trigger] vs[i]).payload, name)
}

/// No method that an interface declares names the struct.
pub open spec fn methods_without(ms: Seq<InterfaceMethodView>, name: Seq<char>) -> bool {
    forall|i: int|
        0 <= i < ms.len() ==> signature_without((#[trigger] ms[i]).params, ms[i].return_type, name)
}

/// No declaration of a program names the struct.
pub open spec fn declarations_without(p: ProgramView, name: Seq<char>) -> bool {
    &&& functions_without(p.functions, name)
    &&& forall|i: int| 0 <= i < p.structs.len()
        ==> fields_without((#[trigger] p.structs[i]).fields, name)
    &&& forall|i: int| 0 <= i < p.enums.len()
        ==> variants_without((#[trigger] p.enums[i]).variants, name)
    &&& forall|i: int| 0 <= i < p.interfaces.len()
        ==> methods_without((#[trigger] p.interfaces[i]).methods, name)
    &&& forall|i: int|
        0 <= i < p.impls.len() ==> !names_struct((#[trigger] p.impls[i]).for_type, name)
            && functions_without(
            p.impls[i].methods,
            name,
        )
    &&& forall|i: int|
        0 <= i < p.methods_blocks.len()
            ==> !names_struct((#[trigger] p.methods_blocks[i]).for_type, name)
            && functions_without(p.methods_blocks[i].methods, name)
    &&& forall|i: int| 0 <= i < p.consts.len() ==> !names_struct((#[trigger] p.consts[i]).ty, name)
    &&& forall|i: int| 0 <= i < p.type_aliases.len()
        ==> !names_struct((#[trigger] p.type_aliases[i]).target, name)
}

proof fn functions_rewritten(fs: Seq<FunctionView>, rw: TypeRewriteView, name: Seq<char>)
    requires
        forall|t: TypeView| !names_struct(#[trigger] rewrite_type_spec(t, rw), name),
    ensures
        functions_without(rewrite_functions_types_spec(fs, rw), name),
{
    let r = rewrite_functions_types_spec(fs, rw);
    assert forall|i: int| 0 <= i < r.len() implies signature_without(
        (#[trigger] r[i]).params,
        r[i].return_type,
        name,
    ) by {
        assert(r[i] == rewrite_function_types_spec(fs[i], rw));
    }
}

proof fn declarations_rewritten(p: ProgramView, rw: TypeRewriteView, name: Seq<char>)
    requires
        forall|t: TypeView| !names_struct(#[trigger] rewrite_type_spec(t, rw), name),
    ensures
        declarations_without(rewrite_program_types_spec(p, rw), name),
{
    let r = rewrite_program_types_spec(p, rw);
    functions_rewritten(p.functions, rw, name);
    assert forall|i: int| 0 <= i < r.enums.len() implies variants_without(
        (#[trigger] r.enums[i]).variants,
        name,
    ) by {
        let before = p.enums[i].variants;
        let after = r.enums[i].variants;
        assert(after == rewrite_variant_types_spec(before, rw));
        assert forall|j: int| 0 <= j < after.len() implies payload_without(
            (#[trigger] after[j]).payload,
            name,
        ) by {
            rewritten_one_by_one(before[j].payload, rw, Seq::empty(), 0);
        }
    }
    assert forall|i: int| 0 <= i < r.interfaces.len() implies methods_without(
        (#[trigger] r.interfaces[i]).methods,
        name,
    ) by {
        assert(r.interfaces[i].methods == rewrite_declared_types_spec(p.interfaces[i].methods, rw));
    }
    assert forall|i: int| 0 <= i < r.impls.len() implies !names_struct(
        (#[trigger] r.impls[i]).for_type,
        name,
    )
        && functions_without(r.impls[i].methods, name) by {
        functions_rewritten(p.impls[i].methods, rw, name);
    }
    assert forall|i: int| 0 <= i < r.methods_blocks.len() implies !names_struct(
        (#[trigger] r.methods_blocks[i]).for_type,
        name,
    ) && functions_without(r.methods_blocks[i].methods, name) by {
        functions_rewritten(p.methods_blocks[i].methods, rw, name);
    }
}

/// Once the names of enums are read as enums, no declaration of the program
/// reads one as a struct.
pub proof fn no_declaration_reads_enum_as_struct(p: ProgramView, name: Seq<char>)
    requires
        enum_names_spec(p.enums).contains(name),
    ensures
        declarations_without(resolve_enum_types_in_program_spec(p), name),
{
    let names = enum_names_spec(p.enums);
    assert forall|t: TypeView| !names_struct(
        #[trigger] rewrite_type_spec(t, TypeRewriteView::Enums(names)),
        name,
    ) by {
        no_enum_is_read_as_struct(t, names, name);
    }
    declarations_rewritten(p, TypeRewriteView::Enums(names), name);
}

/// Once the aliases are replaced by what they stand for, no declaration of the
/// program names one.
pub proof fn no_declaration_names_an_alias(
    p: ProgramView,
    table: Seq<(Seq<char>, TypeAliasView)>,
    resolved: Seq<(Seq<char>, TypeView)>,
    name: Seq<char>,
)
    requires
        all_unfolded(resolved, table),
        forall|n: Seq<char>| #[trigger] alias_decl_has_spec(table, n) ==> crate::scope::named_type_has_spec(
            resolved,
            n,
        ),
        alias_decl_has_spec(table, name),
    ensures
        declarations_without(substitute_aliases_in_program_spec(p, resolved), name),
{
    let rw = TypeRewriteView::Aliases(resolved);
    assert forall|t: TypeView| !names_struct(#[trigger] rewrite_type_spec(t, rw), name) by {
        no_alias_remains(t, table, resolved);
    }
    declarations_rewritten(p, rw, name);
}

} // verus!
