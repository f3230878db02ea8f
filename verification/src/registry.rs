//! The declarations of a program: types, constants and what they are allowed
//! to hold.

use vstd::prelude::*;
use crate::ast::{
    BinaryOp, ConstDecl, ConstDeclView, EnumDecl, EnumDeclView, Expr, ExprKind, ExprKindView,
    ExprView, FieldDecl, FieldDeclView, Function, FunctionView, Program, ProgramView, Span,
    StructDecl, StructDeclView, Type, TypeAlias, TypeAliasView, TypeView, UnaryOp, VariantDecl,
    VariantDeclView, type_text,
};
use crate::diagnostic::{Diagnostic, DiagnosticView};
use crate::effects::{add_name};
use crate::ir::{TypedConst, TypedConstView};
use crate::numeric::{float_neg, integer_value, neg_checked, value_fits_type};
use crate::operators::{int_constant};
use crate::resolve::{has_enum, has_struct};
use crate::scope::{
    copies, diag, enum_info_has, enum_info_put, signature_has, struct_info_has, struct_info_put,
};
use crate::state::{
    ConstInfo, ConstInfoView, Context, ContextView, EnumInfo, EnumInfoView, Layout, LayoutView,
    Registry, RegistryView, StructInfo, StructInfoView,
};
use crate::text::{
    add_capped, cat3, cat4, cat5, cat6, cat7, chars_of, contains_str, dup_strs, int_text, join,
    push, slice_chars, str_eq, str_less, text, text_of, usize_text,
};
use crate::types::{
    is_any_ref, is_bool, is_copy, is_float, is_integer, is_owned_str, is_struct, is_vec, type_eq,
};

verus! {

broadcast use {
    crate::text::group_text_views,
    crate::ast::group_ast_views,
    crate::diagnostic::group_diagnostic_views,
    crate::ir::group_ir_views,
    crate::state::group_state_views,
    crate::state::group_extends,
};

/// What [`const_info_find`] computes from position `i` on.
pub open spec fn const_info_find_spec(
    m: Seq<(Seq<char>, ConstInfoView)>,
    name: Seq<char>,
    found: Option<ConstInfoView>,
    i: int,
) -> Option<ConstInfoView>
    decreases m.len() - i,
{
    if 0 <= i < m.len() && !found.is_some() {
        let e = m[i];
        let found = if e.0 == name {
            Some(e.1)
        } else {
            found
        };
        const_info_find_spec(m, name, found, i + 1)
    } else {
        found
    }
}

pub fn const_info_find(
    m: &Vec<(String, ConstInfo)>,
    name: &str,
    found: Option<ConstInfo>,
) -> (r: Option<ConstInfo>)
    ensures
        (match &r { Some(v0) => Some(v0@), None => None }) == const_info_find_spec(
            crate::state::const_infos_view(m@),
            name@,
            (match &found { Some(v0) => Some(v0@), None => None }),
            0,
        ),
{
    let ghost whole_run = const_info_find_spec(
        crate::state::const_infos_view(m@),
        name@,
        (match &found { Some(v0) => Some(v0@), None => None }),
        0,
    );
    let mut found = found;
    let mut i: usize = 0;
    while i < m.len() && !found.is_some()
        invariant
            i <= m.len(),
            const_info_find_spec(
                crate::state::const_infos_view(m@),
                name@,
                (match &found { Some(v0) => Some(v0@), None => None }),
                i as int,
            ) == whole_run,
        decreases m.len() - i,
    {
        let e = &m[i];
        found = if str_eq(&e.0, name) {
            Some(e.1.dup())
        } else {
            found
        };
        i += 1;
    }
    found
}

/// What [`const_info_get`] computes.
pub open spec fn const_info_get_spec(
    m: Seq<(Seq<char>, ConstInfoView)>,
    name: Seq<char>,
) -> Option<ConstInfoView>
{
    const_info_find_spec(m, name, None, 0)
}

/// The value of a name.
pub fn const_info_get(m: &Vec<(String, ConstInfo)>, name: &str) -> (r: Option<ConstInfo>)
    ensures
        (match &r { Some(v0) => Some(v0@), None => None }) == const_info_get_spec(
            crate::state::const_infos_view(m@),
            name@,
        ),
{
    const_info_find(m, name, None)
}

/// What [`const_info_has`] computes.
pub open spec fn const_info_has_spec(m: Seq<(Seq<char>, ConstInfoView)>, name: Seq<char>) -> bool
{
    const_info_get_spec(m, name).is_some()
}

/// Whether a name has a value.
pub fn const_info_has(m: &Vec<(String, ConstInfo)>, name: &str) -> (r: bool)
    ensures
        r == const_info_has_spec(crate::state::const_infos_view(m@), name@),
{
    const_info_get(m, name).is_some()
}

/// What [`const_info_place`] computes from position `i` on.
pub open spec fn const_info_place_spec(
    m: Seq<(Seq<char>, ConstInfoView)>,
    name: Seq<char>,
    v: ConstInfoView,
    out: Seq<(Seq<char>, ConstInfoView)>,
    placed: bool,
    i: int,
) -> (Seq<(Seq<char>, ConstInfoView)>, bool)
    decreases m.len() - i,
{
    if 0 <= i < m.len() {
        let e = m[i];
        let (out, placed) = if placed {
            (out.push((e.0, e.1)), true)
        } else if e.0 == name {
            (out.push((name, v)), true)
        } else if crate::text::str_less_spec(name, e.0) {
            (out.push((name, v)).push((e.0, e.1)), true)
        } else {
            (out.push((e.0, e.1)), false)
        };
        const_info_place_spec(m, name, v, out, placed, i + 1)
    } else {
        (out, placed)
    }
}

pub fn const_info_place(
    m: &Vec<(String, ConstInfo)>,
    name: &str,
    v: &ConstInfo,
    out: Vec<(String, ConstInfo)>,
    placed: bool,
) -> (r: (Vec<(String, ConstInfo)>, bool))
    ensures
        (crate::state::const_infos_view(r.0@), r.1) == const_info_place_spec(
            crate::state::const_infos_view(m@),
            name@,
            v@,
            crate::state::const_infos_view(out@),
            placed,
            0,
        ),
{
    let ghost whole_run = const_info_place_spec(
        crate::state::const_infos_view(m@),
        name@,
        v@,
        crate::state::const_infos_view(out@),
        placed,
        0,
    );
    let mut out = out;
    let mut placed = placed;
    let mut i: usize = 0;
    while i < m.len()
        invariant
            i <= m.len(),
            const_info_place_spec(
                crate::state::const_infos_view(m@),
                name@,
                v@,
                crate::state::const_infos_view(out@),
                placed,
                i as int,
            ) == whole_run,
        decreases m.len() - i,
    {
        let e = &m[i];
        let next = if placed {
            (push(out, (e.0.clone(), e.1.dup())), true)
        } else if str_eq(&e.0, name) {
            (push(out, (text(name), v.dup())), true)
        } else if str_less(name, &e.0) {
            (push(push(out, (text(name), v.dup())), (e.0.clone(), e.1.dup())), true)
        } else {
            (push(out, (e.0.clone(), e.1.dup())), false)
        };
        out = next.0;
        placed = next.1;
        i += 1;
    }
    (out, placed)
}

/// What [`const_info_put`] computes.
pub open spec fn const_info_put_spec(
    m: Seq<(Seq<char>, ConstInfoView)>,
    name: Seq<char>,
    v: ConstInfoView,
) -> Seq<(Seq<char>, ConstInfoView)>
{
    let (out, placed) = const_info_place_spec(m, name, v, Seq::empty(), false, 0);
    if placed {
        out
    } else {
        out.push((name, v))
    }
}

/// The map, ordered by name, with a name's value set.
pub fn const_info_put(
    m: &Vec<(String, ConstInfo)>,
    name: &str,
    v: &ConstInfo,
) -> (r: Vec<(String, ConstInfo)>)
    ensures
        crate::state::const_infos_view(r@) == const_info_put_spec(
            crate::state::const_infos_view(m@),
            name@,
            v@,
        ),
{
    let (out, placed) = const_info_place(m, name, v, Vec::new(), false);
    if placed {
        out
    } else {
        push(out, (text(name), v.dup()))
    }
}

/// The text before an ending, where the text has it.
pub open spec fn strip_suffix_spec(s: Seq<char>, suffix: Seq<char>) -> Option<Seq<char>> {
    if suffix.len() <= s.len() && s.subrange(s.len() - suffix.len(), s.len() as int) == suffix {
        Some(s.subrange(0, s.len() - suffix.len()))
    } else {
        None
    }
}

/// The text before an ending, where the text has it.
pub fn strip_suffix(s: &str, suffix: &str) -> (r: Option<String>)
    ensures
        (match &r {
            Some(v) => Some(v@),
            None => None,
        }) == strip_suffix_spec(s@, suffix@),
{
    let cs = chars_of(s);
    let n = chars_of(suffix).len();
    if n <= cs.len() {
        let tail = text_of(&slice_chars(&cs, cs.len() - n, cs.len()));
        if str_eq(&tail, suffix) {
            Some(text_of(&slice_chars(&cs, 0, cs.len() - n)))
        } else {
            None
        }
    } else {
        None
    }
}

/// What [`idle_bounds`] computes.
pub open spec fn idle_bounds_spec(fs: Seq<FunctionView>) -> Seq<DiagnosticView>
{
    fs.filter(
        |f: FunctionView| f.where_clauses.len() > 0 && f.type_params.len() == 0,
    ).map_values(|f: FunctionView| crate::scope::diag_spec(
        f.where_clauses[0].span,
        "non-generic function '"@ + f.name + "' carries `where "@ + f.where_clauses[0].type_param
            + " is "@ + f.where_clauses[0].interface_name
            + "` — where-bounds apply only to generic type parameters"@,
    ))
}

/// What is wrong with bounds on functions that have no type parameter.
pub fn idle_bounds(fs: &Vec<Function>) -> (r: Vec<Diagnostic>)
    ensures
        crate::diagnostic::diagnostics_view(r@) == idle_bounds_spec(crate::ast::functions_view(fs@)),
{
    let ghost all = crate::ast::functions_view(fs@);
    let mut r: Vec<Diagnostic> = Vec::new();
    let mut i: usize = 0;
    proof {
        reveal(Seq::filter);
        assert(all.take(0) =~= Seq::empty());
    }
    while i < fs.len()
        invariant
            i <= fs.len(),
            all == crate::ast::functions_view(fs@),
            crate::diagnostic::diagnostics_view(r@) == idle_bounds_spec(all.take(i as int)),
        decreases fs.len() - i,
    {
        let f = &fs[i];
        proof {
            reveal(Seq::filter);
            assert(all[i as int] == f@);
            assert(all.take(i + 1).drop_last() =~= all.take(i as int));
            assert(all.take(i + 1).last() == all[i as int]);
        }
        if f.where_clauses.len() > 0 && f.type_params.len() == 0 {
            r.push(diag(
            f.where_clauses[0].span,
            cat7(
                "non-generic function '",
                &f.name,
                "' carries `where ",
                &f.where_clauses[0].type_param,
                " is ",
                &f.where_clauses[0].interface_name,
                "` — where-bounds apply only to generic type parameters",
            ),
        ));
        }
        i += 1;
    }
    assert(all.take(i as int) =~= all);
    r
}

/// What [`is_reserved`] computes.
pub open spec fn is_reserved_spec(name: Seq<char>) -> bool
{
    name == "Task"@ || name == "Atomic"@ || name == "Mutex"@ || name == "Guard"@
        || name == "Channel"@ || name == "OwnedStr"@ || name == "Self"@
}

/// Whether a name is that of a built-in type.
pub fn is_reserved(name: &str) -> (r: bool)
    ensures
        r == is_reserved_spec(name@),
{
    str_eq(name, "Task") || str_eq(name, "Atomic") || str_eq(name, "Mutex") || str_eq(name, "Guard")
        || str_eq(name, "Channel") || str_eq(name, "OwnedStr") || str_eq(name, "Self")
}

/// What [`reserved_name`] computes.
pub open spec fn reserved_name_spec(what: Seq<char>, name: Seq<char>, span: Span) -> DiagnosticView
{
    let message = what + " name '"@ + name
        + "' is a reserved built-in type — pick a different name"@;
    crate::scope::diag_spec(span, message)
}

/// What is wrong with a declaration under the name of a built-in type.
pub fn reserved_name(what: &str, name: &str, span: Span) -> (r: Diagnostic)
    ensures
        r@ == reserved_name_spec(what@, name@, span),
{
    let message = cat4(
        what,
        " name '",
        name,
        "' is a reserved built-in type — pick a different name",
    );
    diag(span, message)
}

/// What [`reserved_structs`] computes.
pub open spec fn reserved_structs_spec(ds: Seq<StructDeclView>) -> Seq<DiagnosticView>
{
    ds.filter(|d: StructDeclView| is_reserved_spec(d.name)).map_values(
        |d: StructDeclView| reserved_name_spec("struct"@, d.name, d.name_span),
    )
}

/// What is wrong with structs under names of built-in types.
pub fn reserved_structs(ds: &Vec<StructDecl>) -> (r: Vec<Diagnostic>)
    ensures
        crate::diagnostic::diagnostics_view(r@) == reserved_structs_spec(crate::ast::structs_view(ds@)),
{
    let ghost all = crate::ast::structs_view(ds@);
    let mut r: Vec<Diagnostic> = Vec::new();
    let mut i: usize = 0;
    proof {
        reveal(Seq::filter);
        assert(all.take(0) =~= Seq::empty());
    }
    while i < ds.len()
        invariant
            i <= ds.len(),
            all == crate::ast::structs_view(ds@),
            crate::diagnostic::diagnostics_view(r@) == reserved_structs_spec(all.take(i as int)),
        decreases ds.len() - i,
    {
        let d = &ds[i];
        proof {
            reveal(Seq::filter);
            assert(all[i as int] == d@);
            assert(all.take(i + 1).drop_last() =~= all.take(i as int));
            assert(all.take(i + 1).last() == all[i as int]);
        }
        if is_reserved(&d.name) {
            r.push(reserved_name("struct", &d.name, d.name_span));
        }
        i += 1;
    }
    assert(all.take(i as int) =~= all);
    r
}

/// What [`reserved_enums`] computes.
pub open spec fn reserved_enums_spec(ds: Seq<EnumDeclView>) -> Seq<DiagnosticView>
{
    ds.filter(|d: EnumDeclView| is_reserved_spec(d.name)).map_values(
        |d: EnumDeclView| reserved_name_spec("enum"@, d.name, d.name_span),
    )
}

/// What is wrong with enums under names of built-in types.
pub fn reserved_enums(ds: &Vec<EnumDecl>) -> (r: Vec<Diagnostic>)
    ensures
        crate::diagnostic::diagnostics_view(r@) == reserved_enums_spec(crate::ast::enums_view(ds@)),
{
    let ghost all = crate::ast::enums_view(ds@);
    let mut r: Vec<Diagnostic> = Vec::new();
    let mut i: usize = 0;
    proof {
        reveal(Seq::filter);
        assert(all.take(0) =~= Seq::empty());
    }
    while i < ds.len()
        invariant
            i <= ds.len(),
            all == crate::ast::enums_view(ds@),
            crate::diagnostic::diagnostics_view(r@) == reserved_enums_spec(all.take(i as int)),
        decreases ds.len() - i,
    {
        let d = &ds[i];
        proof {
            reveal(Seq::filter);
            assert(all[i as int] == d@);
            assert(all.take(i + 1).drop_last() =~= all.take(i as int));
            assert(all.take(i + 1).last() == all[i as int]);
        }
        if is_reserved(&d.name) {
            r.push(reserved_name("enum", &d.name, d.name_span));
        }
        i += 1;
    }
    assert(all.take(i as int) =~= all);
    r
}

/// What [`reserved_aliases`] computes.
pub open spec fn reserved_aliases_spec(ds: Seq<TypeAliasView>) -> Seq<DiagnosticView>
{
    ds.filter(|d: TypeAliasView| is_reserved_spec(d.name)).map_values(
        |d: TypeAliasView| reserved_name_spec("type alias"@, d.name, d.name_span),
    )
}

/// What is wrong with aliases under names of built-in types.
pub fn reserved_aliases(ds: &Vec<TypeAlias>) -> (r: Vec<Diagnostic>)
    ensures
        crate::diagnostic::diagnostics_view(r@) == reserved_aliases_spec(crate::ast::type_aliases_view(ds@)),
{
    let ghost all = crate::ast::type_aliases_view(ds@);
    let mut r: Vec<Diagnostic> = Vec::new();
    let mut i: usize = 0;
    proof {
        reveal(Seq::filter);
        assert(all.take(0) =~= Seq::empty());
    }
    while i < ds.len()
        invariant
            i <= ds.len(),
            all == crate::ast::type_aliases_view(ds@),
            crate::diagnostic::diagnostics_view(r@) == reserved_aliases_spec(all.take(i as int)),
        decreases ds.len() - i,
    {
        let d = &ds[i];
        proof {
            reveal(Seq::filter);
            assert(all[i as int] == d@);
            assert(all.take(i + 1).drop_last() =~= all.take(i as int));
            assert(all.take(i + 1).last() == all[i as int]);
        }
        if is_reserved(&d.name) {
            r.push(reserved_name("type alias", &d.name, d.name_span));
        }
        i += 1;
    }
    assert(all.take(i as int) =~= all);
    r
}

/// What [`report_reserved`] computes.
pub open spec fn report_reserved_spec(
    p: ProgramView,
    diags: Seq<DiagnosticView>,
) -> Seq<DiagnosticView>
{
    diags + reserved_structs_spec(p.structs) + reserved_enums_spec(p.enums)
        + reserved_aliases_spec(p.type_aliases)
}

/// Reports the declarations under names of built-in types.
pub fn report_reserved(p: &Program, diags: Vec<Diagnostic>) -> (r: Vec<Diagnostic>)
    ensures
        crate::diagnostic::diagnostics_view(r@) == report_reserved_spec(
            p@,
            crate::diagnostic::diagnostics_view(diags@),
        ),
        crate::state::extends(
            crate::diagnostic::diagnostics_view(diags@),
            crate::diagnostic::diagnostics_view(r@),
        ),
{
    join(
        join(join(diags, reserved_structs(&p.structs)), reserved_enums(&p.enums)),
        reserved_aliases(&p.type_aliases),
    )
}

/// What [`any_owning_field`] computes.
pub open spec fn any_owning_field_spec(fs: Seq<FieldDeclView>, owning: Seq<Seq<char>>) -> bool
{
    exists|i: int|
        #![trigger fs[i]]
        0 <= i < fs.len() && !crate::types::is_copy_spec(fs[i].ty, owning, Seq::empty())
}

/// Whether a struct has a field that owns something.
pub fn any_owning_field(fs: &Vec<FieldDecl>, owning: &Vec<String>) -> (r: bool)
    ensures
        r == any_owning_field_spec(crate::ast::fields_view(fs@), crate::text::strs_view(owning@)),
{
    let ghost all = crate::ast::fields_view(fs@);
    let mut i: usize = 0;
    while i < fs.len()
        invariant
            i <= fs.len(),
            all == crate::ast::fields_view(fs@),
            forall|j: int|
                #![trigger all[j]]
                0 <= j < i
                    ==> !(!crate::types::is_copy_spec(all[j].ty, crate::text::strs_view(owning@), Seq::empty())),
        decreases fs.len() - i,
    {
        let f = &fs[i];
        assert(all[i as int] == f@);
        if !is_copy(&f.ty, owning, &Vec::new()) {
            return true;
        }
        i += 1;
    }
    false
}

/// What [`owning_round`] computes from position `i` on.
pub open spec fn owning_round_spec(
    ds: Seq<StructDeclView>,
    before: Seq<Seq<char>>,
    owning: Seq<Seq<char>>,
    changed: bool,
    i: int,
) -> (Seq<Seq<char>>, bool)
    decreases ds.len() - i,
{
    if 0 <= i < ds.len() {
        let d = ds[i];
        let (owning, changed) = if owning.contains(d.name)
            || !any_owning_field_spec(d.fields, before) {
            (owning, changed)
        } else {
            (owning.push(d.name), true)
        };
        owning_round_spec(ds, before, owning, changed, i + 1)
    } else {
        (owning, changed)
    }
}

/// Adds the structs with a field that owns something, as far as the list so
/// far shows it.
pub fn owning_round(
    ds: &Vec<StructDecl>,
    before: &Vec<String>,
    owning: Vec<String>,
    changed: bool,
) -> (r: (Vec<String>, bool))
    ensures
        (crate::text::strs_view(r.0@), r.1) == owning_round_spec(
            crate::ast::structs_view(ds@),
            crate::text::strs_view(before@),
            crate::text::strs_view(owning@),
            changed,
            0,
        ),
{
    let ghost whole_run = owning_round_spec(
        crate::ast::structs_view(ds@),
        crate::text::strs_view(before@),
        crate::text::strs_view(owning@),
        changed,
        0,
    );
    let mut owning = owning;
    let mut changed = changed;
    let mut i: usize = 0;
    while i < ds.len()
        invariant
            i <= ds.len(),
            owning_round_spec(
                crate::ast::structs_view(ds@),
                crate::text::strs_view(before@),
                crate::text::strs_view(owning@),
                changed,
                i as int,
            ) == whole_run,
        decreases ds.len() - i,
    {
        let d = &ds[i];
        let next = if contains_str(&owning, &d.name) || !any_owning_field(&d.fields, before) {
            (owning, changed)
        } else {
            (push(owning, d.name.clone()), true)
        };
        owning = next.0;
        changed = next.1;
        i += 1;
    }
    (owning, changed)
}

/// What [`owning_rounds`] computes.
pub open spec fn owning_rounds_spec(
    ds: Seq<StructDeclView>,
    owning: Seq<Seq<char>>,
    fuel: int,
) -> Seq<Seq<char>>
    decreases fuel,
{
    if fuel < 1 {
        owning
    } else {
        let (next, changed) = owning_round_spec(ds, owning, (owning), false, 0);
        if changed { owning_rounds_spec(ds, next, fuel - 1) } else { next }
    }
}

/// Repeats [`owning_round`] until nothing is added.
pub fn owning_rounds(ds: &Vec<StructDecl>, owning: Vec<String>, fuel: usize) -> (r: Vec<String>)
    ensures
        crate::text::strs_view(r@) == owning_rounds_spec(
            crate::ast::structs_view(ds@),
            crate::text::strs_view(owning@),
            fuel as int,
        ),
    decreases fuel,
{
    if fuel < 1 {
        owning
    } else {
        let (next, changed) = owning_round(ds, &owning, dup_strs(&owning), false);
        if changed { owning_rounds(ds, next, fuel - 1) } else { next }
    }
}

/// What [`structs_with_drop`] computes from position `i` on.
pub open spec fn structs_with_drop_spec(
    fs: Seq<FunctionView>,
    ds: Seq<StructDeclView>,
    owning: Seq<Seq<char>>,
    i: int,
) -> Seq<Seq<char>>
    decreases fs.len() - i,
{
    if 0 <= i < fs.len() {
        let f = fs[i];
        let owning = match strip_suffix_spec(f.name, "_drop"@) {
            Some(name) => if crate::resolve::has_struct_spec(
                ds,
                name,
            ) { crate::effects::add_name_spec(owning, name) } else { owning },
            None => owning,
        };
        structs_with_drop_spec(fs, ds, owning, i + 1)
    } else {
        owning
    }
}

/// Adds the structs that a drop function was declared for.
pub fn structs_with_drop(
    fs: &Vec<Function>,
    ds: &Vec<StructDecl>,
    owning: Vec<String>,
) -> (r: Vec<String>)
    ensures
        crate::text::strs_view(r@) == structs_with_drop_spec(
            crate::ast::functions_view(fs@),
            crate::ast::structs_view(ds@),
            crate::text::strs_view(owning@),
            0,
        ),
{
    let ghost whole_run = structs_with_drop_spec(
        crate::ast::functions_view(fs@),
        crate::ast::structs_view(ds@),
        crate::text::strs_view(owning@),
        0,
    );
    let mut owning = owning;
    let mut i: usize = 0;
    while i < fs.len()
        invariant
            i <= fs.len(),
            structs_with_drop_spec(
                crate::ast::functions_view(fs@),
                crate::ast::structs_view(ds@),
                crate::text::strs_view(owning@),
                i as int,
            ) == whole_run,
        decreases fs.len() - i,
    {
        let f = &fs[i];
        owning = match strip_suffix(&f.name, "_drop") {
            Some(name) => if has_struct(ds, &name) { add_name(owning, &name) } else { owning },
            None => owning,
        };
        i += 1;
    }
    owning
}

/// What [`owning_structs`] computes.
pub open spec fn owning_structs_spec(p: ProgramView) -> Seq<Seq<char>>
{
    let owning = structs_with_drop_spec(p.functions, p.structs, Seq::empty(), 0);
    owning_rounds_spec(p.structs, owning, crate::text::add_capped_spec((p.structs.len() as int), 1))
}

/// The structs whose values are moved.
pub fn owning_structs(p: &Program) -> (r: Vec<String>)
    ensures
        crate::text::strs_view(r@) == owning_structs_spec(p@),
{
    let owning = structs_with_drop(&p.functions, &p.structs, Vec::new());
    owning_rounds(&p.structs, owning, add_capped(p.structs.len(), 1))
}

/// What [`payload_of`] computes.
pub open spec fn payload_of_spec(v: VariantDeclView) -> Option<TypeView>
{
    if v.payload.len() > 0 { Some(v.payload[0]) } else { None }
}

/// The type of a variant's payload.
pub fn payload_of(v: &VariantDecl) -> (r: Option<Type>)
    ensures
        (match &r { Some(v0) => Some(v0@), None => None }) == payload_of_spec(v@),
{
    if v.payload.len() > 0 { Some(v.payload[0].dup()) } else { None }
}

/// What [`any_owning_payload`] computes.
pub open spec fn any_owning_payload_spec(vs: Seq<VariantDeclView>) -> bool
{
    exists|i: int|
        #![trigger vs[i]]
        0 <= i < vs.len() && (match payload_of_spec(vs[i]) {
            Some(t) => crate::types::is_owned_str_spec(t) || crate::types::is_vec_spec(t),
            None => false,
        })
}

/// Whether an enum has a payload that owns something.
pub fn any_owning_payload(vs: &Vec<VariantDecl>) -> (r: bool)
    ensures
        r == any_owning_payload_spec(crate::ast::variants_view(vs@)),
{
    let ghost all = crate::ast::variants_view(vs@);
    let mut i: usize = 0;
    while i < vs.len()
        invariant
            i <= vs.len(),
            all == crate::ast::variants_view(vs@),
            forall|j: int|
                #![trigger all[j]]
                0 <= j < i ==> !(match payload_of_spec(all[j]) {
                    Some(t) => crate::types::is_owned_str_spec(t) || crate::types::is_vec_spec(t),
                    None => false,
                }),
        decreases vs.len() - i,
    {
        let v = &vs[i];
        assert(all[i as int] == v@);
        if match payload_of(v) {
            Some(t) => is_owned_str(&t) || is_vec(&t),
            None => false,
        } {
            return true;
        }
        i += 1;
    }
    false
}

/// What [`enums_that_own`] computes.
pub open spec fn enums_that_own_spec(ds: Seq<EnumDeclView>) -> Seq<Seq<char>>
{
    ds.filter(
        |d: EnumDeclView| any_owning_payload_spec(d.variants),
    ).map_values(|d: EnumDeclView| d.name)
}

/// The enums with a payload that owns something.
pub fn enums_that_own(ds: &Vec<EnumDecl>) -> (r: Vec<String>)
    ensures
        crate::text::strs_view(r@) == enums_that_own_spec(crate::ast::enums_view(ds@)),
{
    let ghost all = crate::ast::enums_view(ds@);
    let mut r: Vec<String> = Vec::new();
    let mut i: usize = 0;
    proof {
        reveal(Seq::filter);
        assert(all.take(0) =~= Seq::empty());
    }
    while i < ds.len()
        invariant
            i <= ds.len(),
            all == crate::ast::enums_view(ds@),
            crate::text::strs_view(r@) == enums_that_own_spec(all.take(i as int)),
        decreases ds.len() - i,
    {
        let d = &ds[i];
        proof {
            reveal(Seq::filter);
            assert(all[i as int] == d@);
            assert(all.take(i + 1).drop_last() =~= all.take(i as int));
            assert(all.take(i + 1).last() == all[i as int]);
        }
        if any_owning_payload(&d.variants) {
            r.push(d.name.clone());
        }
        i += 1;
    }
    assert(all.take(i as int) =~= all);
    r
}

/// What [`enums_with_drop`] computes from position `i` on.
pub open spec fn enums_with_drop_spec(
    fs: Seq<FunctionView>,
    ds: Seq<EnumDeclView>,
    owning: Seq<Seq<char>>,
    i: int,
) -> Seq<Seq<char>>
    decreases fs.len() - i,
{
    if 0 <= i < fs.len() {
        let f = fs[i];
        let owning = match strip_suffix_spec(f.name, "_drop"@) {
            Some(name) => if crate::resolve::has_enum_spec(
                ds,
                name,
            ) { crate::effects::add_name_spec(owning, name) } else { owning },
            None => owning,
        };
        enums_with_drop_spec(fs, ds, owning, i + 1)
    } else {
        owning
    }
}

/// Adds the enums that a drop function was declared for.
pub fn enums_with_drop(
    fs: &Vec<Function>,
    ds: &Vec<EnumDecl>,
    owning: Vec<String>,
) -> (r: Vec<String>)
    ensures
        crate::text::strs_view(r@) == enums_with_drop_spec(
            crate::ast::functions_view(fs@),
            crate::ast::enums_view(ds@),
            crate::text::strs_view(owning@),
            0,
        ),
{
    let ghost whole_run = enums_with_drop_spec(
        crate::ast::functions_view(fs@),
        crate::ast::enums_view(ds@),
        crate::text::strs_view(owning@),
        0,
    );
    let mut owning = owning;
    let mut i: usize = 0;
    while i < fs.len()
        invariant
            i <= fs.len(),
            enums_with_drop_spec(
                crate::ast::functions_view(fs@),
                crate::ast::enums_view(ds@),
                crate::text::strs_view(owning@),
                i as int,
            ) == whole_run,
        decreases fs.len() - i,
    {
        let f = &fs[i];
        owning = match strip_suffix(&f.name, "_drop") {
            Some(name) => if has_enum(ds, &name) { add_name(owning, &name) } else { owning },
            None => owning,
        };
        i += 1;
    }
    owning
}

/// What [`owning_enums`] computes.
pub open spec fn owning_enums_spec(p: ProgramView) -> Seq<Seq<char>>
{
    enums_with_drop_spec(p.functions, p.enums, enums_that_own_spec(p.enums), 0)
}

/// The enums whose values are moved.
pub fn owning_enums(p: &Program) -> (r: Vec<String>)
    ensures
        crate::text::strs_view(r@) == owning_enums_spec(p@),
{
    enums_with_drop(&p.functions, &p.enums, enums_that_own(&p.enums))
}

/// What [`is_copy_array`] computes.
pub open spec fn is_copy_array_spec(t: TypeView, cx: ContextView) -> bool
{
    match t {
        TypeView::Array { element, .. } => crate::scope::copies_spec(*element, cx),
        _ => false,
    }
}

pub fn is_copy_array(t: &Type, cx: &Context) -> (r: bool)
    ensures
        r == is_copy_array_spec(t@, cx@),
{
    match t {
        Type::Array { element, .. } => copies(&**element, cx),
        _ => false,
    }
}

/// What [`may_be_held`] computes.
pub open spec fn may_be_held_spec(t: TypeView, cx: ContextView) -> bool
{
    crate::scope::copies_spec(t, cx) || is_copy_array_spec(t, cx) || (match t {
        TypeView::OwnedStr | TypeView::Task | TypeView::Atomic(_) | TypeView::Vec(_) | TypeView::Mutex(_) | TypeView::Channel(
            _,
            _,
        ) => true,
        _ => false,
    })
}

/// Whether a type may stand in an aggregate.
pub fn may_be_held(t: &Type, cx: &Context) -> (r: bool)
    ensures
        r == may_be_held_spec(t@, cx@),
{
    copies(t, cx) || is_copy_array(t, cx) || (match t {
        Type::OwnedStr | Type::Task | Type::Atomic(_) | Type::Vec(_) | Type::Mutex(_) | Type::Channel(
            _,
            _,
        ) => true,
        _ => false,
    })
}

/// What [`check_fields`] computes from position `i` on.
pub open spec fn check_fields_spec(
    fs: Seq<FieldDeclView>,
    name: Seq<char>,
    cx: ContextView,
    diags: Seq<DiagnosticView>,
    i: int,
) -> Seq<DiagnosticView>
    decreases fs.len() - i,
{
    if 0 <= i < fs.len() {
        let f = fs[i];
        let diags = {
            let diags = if crate::types::is_any_ref_spec(f.ty) {
                diags.push(
                    crate::scope::diag_spec(
                        f.span,
                        "struct field '"@ + name + "::"@ + f.name + "' cannot be a reference"@,
                    ),
                )
            } else {
                diags
            };
            if may_be_held_spec(f.ty, cx) || crate::types::is_struct_spec(f.ty) {
                diags
            } else {
                let message = "struct field '"@ + name + "::"@ + f.name + "' has non-Copy type "@
                    + crate::ast::type_text_spec(f.ty)
                    + " — v1 supports Copy types, OwnedStr, Vec<T>, [T; N] of Copy elements, Task, Atomic<T>, Mutex<T>, and Channel<T, N> as struct fields; Guard<T> still needs explicit wiring"@;
                diags.push(crate::scope::diag_spec(f.span, message))
            }
        };
        check_fields_spec(fs, name, cx, diags, i + 1)
    } else {
        diags
    }
}

/// Reports the fields whose types a struct may not hold.
pub fn check_fields(
    fs: &Vec<FieldDecl>,
    name: &str,
    cx: &Context,
    diags: Vec<Diagnostic>,
) -> (r: Vec<Diagnostic>)
    ensures
        crate::diagnostic::diagnostics_view(r@) == check_fields_spec(
            crate::ast::fields_view(fs@),
            name@,
            cx@,
            crate::diagnostic::diagnostics_view(diags@),
            0,
        ),
        crate::state::extends(
            crate::diagnostic::diagnostics_view(diags@),
            crate::diagnostic::diagnostics_view(r@),
        ),
{
    let ghost whole_run = check_fields_spec(
        crate::ast::fields_view(fs@),
        name@,
        cx@,
        crate::diagnostic::diagnostics_view(diags@),
        0,
    );
    let ghost start_diags = crate::diagnostic::diagnostics_view(diags@);
    let mut diags = diags;
    let mut i: usize = 0;
    while i < fs.len()
        invariant
            i <= fs.len(),
            check_fields_spec(
                crate::ast::fields_view(fs@),
                name@,
                cx@,
                crate::diagnostic::diagnostics_view(diags@),
                i as int,
            ) == whole_run,
            crate::state::extends(start_diags, crate::diagnostic::diagnostics_view(diags@)),
        decreases fs.len() - i,
    {
        let f = &fs[i];
        diags = {
            let diags = if is_any_ref(&f.ty) {
                push(
                    diags,
                    diag(
                        f.span,
                        cat5("struct field '", name, "::", &f.name, "' cannot be a reference"),
                    ),
                )
            } else {
                diags
            };
            if may_be_held(&f.ty, cx) || is_struct(&f.ty) {
                diags
            } else {
                let message = cat7(
                    "struct field '",
                    name,
                    "::",
                    &f.name,
                    "' has non-Copy type ",
                    &type_text(&f.ty),
                    " — v1 supports Copy types, OwnedStr, Vec<T>, [T; N] of Copy elements, Task, Atomic<T>, Mutex<T>, and Channel<T, N> as struct fields; Guard<T> still needs explicit wiring",
                );
                push(diags, diag(f.span, message))
            }
        };
        i += 1;
    }
    diags
}

/// What [`later_same_fields`] computes from position `i` on.
pub open spec fn later_same_fields_spec(
    fs: Seq<FieldDeclView>,
    at: int,
    field: Seq<char>,
    name: Seq<char>,
    diags: Seq<DiagnosticView>,
    i: int,
) -> Seq<DiagnosticView>
    decreases fs.len() - i,
{
    if 0 <= i < fs.len() {
        let g = fs[i];
        let diags = if i > at && g.name == field {
            diags.push(
                crate::scope::diag_spec(
                    g.span,
                    "struct '"@ + name + "' has duplicate field '"@ + g.name + "'"@,
                ),
            )
        } else {
            diags
        };
        later_same_fields_spec(fs, at, field, name, diags, i + 1)
    } else {
        diags
    }
}

/// Reports the later fields of the same name.
pub fn later_same_fields(
    fs: &Vec<FieldDecl>,
    at: usize,
    field: &str,
    name: &str,
    diags: Vec<Diagnostic>,
) -> (r: Vec<Diagnostic>)
    ensures
        crate::diagnostic::diagnostics_view(r@) == later_same_fields_spec(
            crate::ast::fields_view(fs@),
            at as int,
            field@,
            name@,
            crate::diagnostic::diagnostics_view(diags@),
            0,
        ),
        crate::state::extends(
            crate::diagnostic::diagnostics_view(diags@),
            crate::diagnostic::diagnostics_view(r@),
        ),
{
    let ghost whole_run = later_same_fields_spec(
        crate::ast::fields_view(fs@),
        at as int,
        field@,
        name@,
        crate::diagnostic::diagnostics_view(diags@),
        0,
    );
    let ghost start_diags = crate::diagnostic::diagnostics_view(diags@);
    let mut diags = diags;
    let mut i: usize = 0;
    while i < fs.len()
        invariant
            i <= fs.len(),
            later_same_fields_spec(
                crate::ast::fields_view(fs@),
                at as int,
                field@,
                name@,
                crate::diagnostic::diagnostics_view(diags@),
                i as int,
            ) == whole_run,
            crate::state::extends(start_diags, crate::diagnostic::diagnostics_view(diags@)),
        decreases fs.len() - i,
    {
        let g = &fs[i];
        diags = if i > at && str_eq(&g.name, field) {
            push(
                diags,
                diag(g.span, cat5("struct '", name, "' has duplicate field '", &g.name, "'")),
            )
        } else {
            diags
        };
        i += 1;
    }
    diags
}

/// What [`duplicate_fields`] computes from position `i` on.
pub open spec fn duplicate_fields_spec(
    fs: Seq<FieldDeclView>,
    name: Seq<char>,
    diags: Seq<DiagnosticView>,
    i: int,
) -> Seq<DiagnosticView>
    decreases fs.len() - i,
{
    if 0 <= i < fs.len() {
        let f = fs[i];
        let diags = later_same_fields_spec(fs, i, f.name, name, diags, 0);
        duplicate_fields_spec(fs, name, diags, i + 1)
    } else {
        diags
    }
}

/// Reports each pair of fields of the same name.
pub fn duplicate_fields(
    fs: &Vec<FieldDecl>,
    name: &str,
    diags: Vec<Diagnostic>,
) -> (r: Vec<Diagnostic>)
    ensures
        crate::diagnostic::diagnostics_view(r@) == duplicate_fields_spec(
            crate::ast::fields_view(fs@),
            name@,
            crate::diagnostic::diagnostics_view(diags@),
            0,
        ),
        crate::state::extends(
            crate::diagnostic::diagnostics_view(diags@),
            crate::diagnostic::diagnostics_view(r@),
        ),
{
    let ghost whole_run = duplicate_fields_spec(
        crate::ast::fields_view(fs@),
        name@,
        crate::diagnostic::diagnostics_view(diags@),
        0,
    );
    let ghost start_diags = crate::diagnostic::diagnostics_view(diags@);
    let mut diags = diags;
    let mut i: usize = 0;
    while i < fs.len()
        invariant
            i <= fs.len(),
            duplicate_fields_spec(
                crate::ast::fields_view(fs@),
                name@,
                crate::diagnostic::diagnostics_view(diags@),
                i as int,
            ) == whole_run,
            crate::state::extends(start_diags, crate::diagnostic::diagnostics_view(diags@)),
        decreases fs.len() - i,
    {
        let f = &fs[i];
        diags = later_same_fields(fs, i, &f.name, name, diags);
        i += 1;
    }
    diags
}

/// What [`field_types`] computes.
pub open spec fn field_types_spec(fs: Seq<FieldDeclView>) -> Seq<(Seq<char>, TypeView)>
{
    fs.map_values(|f: FieldDeclView| (f.name, f.ty))
}

/// The fields with their types.
pub fn field_types(fs: &Vec<FieldDecl>) -> (r: Vec<(String, Type)>)
    ensures
        crate::ir::named_types_view(r@) == field_types_spec(crate::ast::fields_view(fs@)),
{
    let ghost whole = field_types_spec(crate::ast::fields_view(fs@));
    let ghost all = crate::ast::fields_view(fs@);
    let mut r: Vec<(String, Type)> = Vec::new();
    let mut i: usize = 0;
    while i < fs.len()
        invariant
            i <= fs.len(),
            all == crate::ast::fields_view(fs@),
            whole == field_types_spec(crate::ast::fields_view(fs@)),
            crate::ir::named_types_view(r@) == whole.take(i as int),
        decreases fs.len() - i,
    {
        let f = &fs[i];
        assert(all[i as int] == f@);
        r.push((f.name.clone(), f.ty.dup()));
        assert(whole.take(i + 1) =~= whole.take(i as int).push(whole[i as int]));
        i += 1;
    }
    assert(whole.take(i as int) =~= whole);
    r
}

/// What [`report_field_count`] computes.
pub open spec fn report_field_count_spec(
    d: StructDeclView,
    diags: Seq<DiagnosticView>,
) -> Seq<DiagnosticView>
{
    if d.fields.len() > 64 {
        let message = "struct '"@ + d.name + "' has "@
            + crate::text::decimal((d.fields.len() as int)) + " fields; v1 supports 0..=64"@;
        diags.push(crate::scope::diag_spec(d.span, message))
    } else {
        diags
    }
}

/// Reports a struct with too many fields.
pub fn report_field_count(d: &StructDecl, diags: Vec<Diagnostic>) -> (r: Vec<Diagnostic>)
    ensures
        crate::diagnostic::diagnostics_view(r@) == report_field_count_spec(
            d@,
            crate::diagnostic::diagnostics_view(diags@),
        ),
        crate::state::extends(
            crate::diagnostic::diagnostics_view(diags@),
            crate::diagnostic::diagnostics_view(r@),
        ),
{
    if d.fields.len() > 64 {
        let message = cat5(
            "struct '",
            &d.name,
            "' has ",
            &usize_text(d.fields.len()),
            " fields; v1 supports 0..=64",
        );
        push(diags, diag(d.span, message))
    } else {
        diags
    }
}

/// What [`register_structs`] computes from position `i` on.
pub open spec fn register_structs_spec(
    ds: Seq<StructDeclView>,
    cx: ContextView,
    table: Seq<(Seq<char>, StructInfoView)>,
    diags: Seq<DiagnosticView>,
    i: int,
) -> (Seq<(Seq<char>, StructInfoView)>, Seq<DiagnosticView>)
    decreases ds.len() - i,
{
    if 0 <= i < ds.len() {
        let d = ds[i];
        let (table, diags) = {
            let diags = report_field_count_spec(d, diags);
            let diags = check_fields_spec(d.fields, d.name, cx, diags, 0);
            let diags = duplicate_fields_spec(d.fields, d.name, diags, 0);
            let diags = if crate::scope::struct_info_has_spec(table, d.name) {
                diags.push(
                    crate::scope::diag_spec(
                        d.name_span,
                        "struct '"@ + d.name + "' already declared"@,
                    ),
                )
            } else {
                diags
            };
            let info = StructInfoView { fields: field_types_spec(d.fields) };
            (crate::scope::struct_info_put_spec(table, d.name, info), diags)
        };
        register_structs_spec(ds, cx, table, diags, i + 1)
    } else {
        (table, diags)
    }
}

/// The structs by name.
pub fn register_structs(
    ds: &Vec<StructDecl>,
    cx: &Context,
    table: Vec<(String, StructInfo)>,
    diags: Vec<Diagnostic>,
) -> (r: (Vec<(String, StructInfo)>, Vec<Diagnostic>))
    ensures
        (crate::state::struct_infos_view(r.0@), crate::diagnostic::diagnostics_view(r.1@)) == register_structs_spec(
            crate::ast::structs_view(ds@),
            cx@,
            crate::state::struct_infos_view(table@),
            crate::diagnostic::diagnostics_view(diags@),
            0,
        ),
        crate::state::extends(
            crate::diagnostic::diagnostics_view(diags@),
            crate::diagnostic::diagnostics_view(r.1@),
        ),
{
    let ghost whole_run = register_structs_spec(
        crate::ast::structs_view(ds@),
        cx@,
        crate::state::struct_infos_view(table@),
        crate::diagnostic::diagnostics_view(diags@),
        0,
    );
    let ghost start_diags = crate::diagnostic::diagnostics_view(diags@);
    let mut table = table;
    let mut diags = diags;
    let mut i: usize = 0;
    while i < ds.len()
        invariant
            i <= ds.len(),
            register_structs_spec(
                crate::ast::structs_view(ds@),
                cx@,
                crate::state::struct_infos_view(table@),
                crate::diagnostic::diagnostics_view(diags@),
                i as int,
            ) == whole_run,
            crate::state::extends(start_diags, crate::diagnostic::diagnostics_view(diags@)),
        decreases ds.len() - i,
    {
        let d = &ds[i];
        let next = {
            let diags = report_field_count(d, diags);
            let diags = check_fields(&d.fields, &d.name, cx, diags);
            let diags = duplicate_fields(&d.fields, &d.name, diags);
            let diags = if struct_info_has(&table, &d.name) {
                push(diags, diag(d.name_span, cat3("struct '", &d.name, "' already declared")))
            } else {
                diags
            };
            let info = StructInfo { fields: field_types(&d.fields) };
            (struct_info_put(&table, &d.name, &info), diags)
        };
        table = next.0;
        diags = next.1;
        i += 1;
    }
    (table, diags)
}

/// What [`direct_struct_deps`] computes.
pub open spec fn direct_struct_deps_spec(t: TypeView, out: Seq<Seq<char>>) -> Seq<Seq<char>>
    decreases t, 0int,
{
    match t {
        TypeView::Struct(name) => crate::effects::add_name_spec(out, name),
        TypeView::Tuple(elements) => direct_deps_of_spec(elements, out, 0),
        TypeView::Array { element, .. } => direct_struct_deps_spec(*element, out),
        _ => out,
    }
}

/// Adds the structs that a type holds by value.
pub fn direct_struct_deps(t: &Type, out: Vec<String>) -> (r: Vec<String>)
    ensures
        crate::text::strs_view(r@) == direct_struct_deps_spec(t@, crate::text::strs_view(out@)),
    decreases t, 0int,
{
    match t {
        Type::Struct(name) => add_name(out, name),
        Type::Tuple(elements) => direct_deps_of(elements, out),
        Type::Array { element, .. } => direct_struct_deps(&**element, out),
        _ => out,
    }
}

/// What [`direct_deps_of`] computes from position `i` on.
pub open spec fn direct_deps_of_spec(
    ts: Seq<TypeView>,
    out: Seq<Seq<char>>,
    i: int,
) -> Seq<Seq<char>>
    decreases ts, ts.len() - i,
{
    if 0 <= i < ts.len() {
        let t = ts[i];
        let out = direct_struct_deps_spec(t, out);
        direct_deps_of_spec(ts, out, i + 1)
    } else {
        out
    }
}

/// Adds the structs that types hold by value.
pub fn direct_deps_of(ts: &Vec<Type>, out: Vec<String>) -> (r: Vec<String>)
    ensures
        crate::text::strs_view(r@) == direct_deps_of_spec(
            crate::ast::types_view(ts@),
            crate::text::strs_view(out@),
            0,
        ),
    decreases ts, ts.len(),
{
    let ghost whole_run = direct_deps_of_spec(
        crate::ast::types_view(ts@),
        crate::text::strs_view(out@),
        0,
    );
    let mut out = out;
    let mut i: usize = 0;
    while i < ts.len()
        invariant
            i <= ts.len(),
            direct_deps_of_spec(
                crate::ast::types_view(ts@),
                crate::text::strs_view(out@),
                i as int,
            ) == whole_run,
        decreases ts.len() - i,
    {
        let t = &ts[i];
        out = direct_struct_deps(t, out);
        i += 1;
    }
    out
}

/// What [`field_deps`] computes from position `i` on.
pub open spec fn field_deps_spec(
    fs: Seq<FieldDeclView>,
    out: Seq<Seq<char>>,
    i: int,
) -> Seq<Seq<char>>
    decreases fs.len() - i,
{
    if 0 <= i < fs.len() {
        let f = fs[i];
        let out = direct_struct_deps_spec(f.ty, out);
        field_deps_spec(fs, out, i + 1)
    } else {
        out
    }
}

/// Adds the structs that fields hold by value.
pub fn field_deps(fs: &Vec<FieldDecl>, out: Vec<String>) -> (r: Vec<String>)
    ensures
        crate::text::strs_view(r@) == field_deps_spec(
            crate::ast::fields_view(fs@),
            crate::text::strs_view(out@),
            0,
        ),
{
    let ghost whole_run = field_deps_spec(
        crate::ast::fields_view(fs@),
        crate::text::strs_view(out@),
        0,
    );
    let mut out = out;
    let mut i: usize = 0;
    while i < fs.len()
        invariant
            i <= fs.len(),
            field_deps_spec(
                crate::ast::fields_view(fs@),
                crate::text::strs_view(out@),
                i as int,
            ) == whole_run,
        decreases fs.len() - i,
    {
        let f = &fs[i];
        out = direct_struct_deps(&f.ty, out);
        i += 1;
    }
    out
}

/// What [`layouts`] computes.
pub open spec fn layouts_spec(ds: Seq<StructDeclView>) -> Seq<LayoutView>
{
    ds.map_values(
        |d: StructDeclView| LayoutView {
            name: d.name,
            inline: field_deps_spec(d.fields, Seq::empty(), 0),
        },
    )
}

/// What each struct holds by value.
pub fn layouts(ds: &Vec<StructDecl>) -> (r: Vec<Layout>)
    ensures
        crate::state::layouts_view(r@) == layouts_spec(crate::ast::structs_view(ds@)),
{
    let ghost whole = layouts_spec(crate::ast::structs_view(ds@));
    let ghost all = crate::ast::structs_view(ds@);
    let mut r: Vec<Layout> = Vec::new();
    let mut i: usize = 0;
    while i < ds.len()
        invariant
            i <= ds.len(),
            all == crate::ast::structs_view(ds@),
            whole == layouts_spec(crate::ast::structs_view(ds@)),
            crate::state::layouts_view(r@) == whole.take(i as int),
        decreases ds.len() - i,
    {
        let d = &ds[i];
        assert(all[i as int] == d@);
        r.push(Layout { name: d.name.clone(), inline: field_deps(&d.fields, Vec::new()) });
        assert(whole.take(i + 1) =~= whole.take(i as int).push(whole[i as int]));
        i += 1;
    }
    assert(whole.take(i as int) =~= whole);
    r
}

/// What [`layout_of`] computes from position `i` on.
pub open spec fn layout_of_spec(
    ls: Seq<LayoutView>,
    name: Seq<char>,
    found: Seq<Seq<char>>,
    i: int,
) -> Seq<Seq<char>>
    decreases ls.len() - i,
{
    if 0 <= i < ls.len() {
        let l = ls[i];
        let found = if l.name == name { (l.inline) } else { found };
        layout_of_spec(ls, name, found, i + 1)
    } else {
        found
    }
}

/// What a struct holds by value, by its last declaration.
pub fn layout_of(ls: &Vec<Layout>, name: &str, found: Vec<String>) -> (r: Vec<String>)
    ensures
        crate::text::strs_view(r@) == layout_of_spec(
            crate::state::layouts_view(ls@),
            name@,
            crate::text::strs_view(found@),
            0,
        ),
{
    let ghost whole_run = layout_of_spec(
        crate::state::layouts_view(ls@),
        name@,
        crate::text::strs_view(found@),
        0,
    );
    let mut found = found;
    let mut i: usize = 0;
    while i < ls.len()
        invariant
            i <= ls.len(),
            layout_of_spec(
                crate::state::layouts_view(ls@),
                name@,
                crate::text::strs_view(found@),
                i as int,
            ) == whole_run,
        decreases ls.len() - i,
    {
        let l = &ls[i];
        found = if str_eq(&l.name, name) { dup_strs(&l.inline) } else { found };
        i += 1;
    }
    found
}

/// What [`has_cycle`] computes.
pub open spec fn has_cycle_spec(
    name: Seq<char>,
    ls: Seq<LayoutView>,
    path: Seq<Seq<char>>,
    clear: Seq<Seq<char>>,
    fuel: int,
) -> (bool, Seq<Seq<char>>)
    decreases fuel, 1int, 0int,
{
    if path.contains(name) {
        (true, clear)
    } else if fuel < 1 {
        (false, clear)
    } else {
        let inline = layout_of_spec(ls, name, Seq::empty(), 0);
        let path = (path).push(name);
        let (found, clear) = any_cycle_spec(inline, ls, path, fuel, false, clear, 0);
        if found { (true, clear) } else { (false, crate::effects::add_name_spec(clear, name)) }
    }
}

/// Whether a struct holds itself by value, or one that does, and the structs
/// that are known not to. The path leads to the struct; it is never longer
/// than the structs are many.
pub fn has_cycle(
    name: &str,
    ls: &Vec<Layout>,
    path: &Vec<String>,
    clear: Vec<String>,
    fuel: usize,
) -> (r: (bool, Vec<String>))
    ensures
        (r.0, crate::text::strs_view(r.1@)) == has_cycle_spec(
            name@,
            crate::state::layouts_view(ls@),
            crate::text::strs_view(path@),
            crate::text::strs_view(clear@),
            fuel as int,
        ),
    decreases fuel, 1int, 0int,
{
    if contains_str(path, name) {
        (true, clear)
    } else if fuel < 1 {
        (false, clear)
    } else {
        let inline = layout_of(ls, name, Vec::new());
        let path = push(dup_strs(path), text(name));
        let (found, clear) = any_cycle(&inline, ls, &path, fuel, false, clear);
        if found { (true, clear) } else { (false, add_name(clear, name)) }
    }
}

/// What [`any_cycle`] computes from position `i` on.
pub open spec fn any_cycle_spec(
    ds: Seq<Seq<char>>,
    ls: Seq<LayoutView>,
    path: Seq<Seq<char>>,
    fuel: int,
    found: bool,
    clear: Seq<Seq<char>>,
    i: int,
) -> (bool, Seq<Seq<char>>)
    decreases fuel, 0int, ds.len() - i,
{
    if 0 <= i < ds.len() && !found {
        let d = ds[i];
        let (found, clear) = if clear.contains(d) {
            (false, clear)
        } else if fuel > 0 {
            has_cycle_spec(d, ls, path, clear, fuel - 1)
        } else {
            (false, clear)
        };
        any_cycle_spec(ds, ls, path, fuel, found, clear, i + 1)
    } else {
        (found, clear)
    }
}

/// Whether one of the structs holds itself by value, or one that does.
pub fn any_cycle(
    ds: &Vec<String>,
    ls: &Vec<Layout>,
    path: &Vec<String>,
    fuel: usize,
    found: bool,
    clear: Vec<String>,
) -> (r: (bool, Vec<String>))
    requires
        fuel > 0,
    ensures
        (r.0, crate::text::strs_view(r.1@)) == any_cycle_spec(
            crate::text::strs_view(ds@),
            crate::state::layouts_view(ls@),
            crate::text::strs_view(path@),
            fuel as int,
            found,
            crate::text::strs_view(clear@),
            0,
        ),
    decreases fuel, 0int, ds.len(),
{
    let ghost whole_run = any_cycle_spec(
        crate::text::strs_view(ds@),
        crate::state::layouts_view(ls@),
        crate::text::strs_view(path@),
        fuel as int,
        found,
        crate::text::strs_view(clear@),
        0,
    );
    let mut found = found;
    let mut clear = clear;
    let mut i: usize = 0;
    while i < ds.len() && !found
        invariant
            i <= ds.len(),
            any_cycle_spec(
                crate::text::strs_view(ds@),
                crate::state::layouts_view(ls@),
                crate::text::strs_view(path@),
                fuel as int,
                found,
                crate::text::strs_view(clear@),
                i as int,
            ) == whole_run,
            fuel > 0,
        decreases ds.len() - i,
    {
        let d = &ds[i];
        let next = if contains_str(&clear, d) {
            (false, clear)
        } else if fuel > 0 {
            has_cycle(d, ls, path, clear, fuel - 1)
        } else {
            (false, clear)
        };
        found = next.0;
        clear = next.1;
        i += 1;
    }
    (found, clear)
}

/// What [`report_recursive`] computes from position `i` on.
pub open spec fn report_recursive_spec(
    ds: Seq<StructDeclView>,
    ls: Seq<LayoutView>,
    clear: Seq<Seq<char>>,
    diags: Seq<DiagnosticView>,
    i: int,
) -> (Seq<Seq<char>>, Seq<DiagnosticView>)
    decreases ds.len() - i,
{
    if 0 <= i < ds.len() {
        let d = ds[i];
        let (clear, diags) = if clear.contains(d.name) {
            (clear, diags)
        } else {
            let (found, clear) = has_cycle_spec(
                d.name,
                ls,
                Seq::empty(),
                clear,
                crate::text::add_capped_spec((ls.len() as int), 2),
            );
            if found {
                let message = "struct '"@ + d.name
                    + "' is recursive (directly or transitively) — contains itself by value, which has infinite size; use `ref T` / `Vec<T>` to break the cycle via the heap"@;
                (clear, diags.push(crate::scope::diag_spec(d.span, message)))
            } else {
                (clear, diags)
            }
        };
        report_recursive_spec(ds, ls, clear, diags, i + 1)
    } else {
        (clear, diags)
    }
}

/// Reports the structs that have no finite size.
pub fn report_recursive(
    ds: &Vec<StructDecl>,
    ls: &Vec<Layout>,
    clear: Vec<String>,
    diags: Vec<Diagnostic>,
) -> (r: (Vec<String>, Vec<Diagnostic>))
    ensures
        (crate::text::strs_view(r.0@), crate::diagnostic::diagnostics_view(r.1@)) == report_recursive_spec(
            crate::ast::structs_view(ds@),
            crate::state::layouts_view(ls@),
            crate::text::strs_view(clear@),
            crate::diagnostic::diagnostics_view(diags@),
            0,
        ),
        crate::state::extends(
            crate::diagnostic::diagnostics_view(diags@),
            crate::diagnostic::diagnostics_view(r.1@),
        ),
{
    let ghost whole_run = report_recursive_spec(
        crate::ast::structs_view(ds@),
        crate::state::layouts_view(ls@),
        crate::text::strs_view(clear@),
        crate::diagnostic::diagnostics_view(diags@),
        0,
    );
    let ghost start_diags = crate::diagnostic::diagnostics_view(diags@);
    let mut clear = clear;
    let mut diags = diags;
    let mut i: usize = 0;
    while i < ds.len()
        invariant
            i <= ds.len(),
            report_recursive_spec(
                crate::ast::structs_view(ds@),
                crate::state::layouts_view(ls@),
                crate::text::strs_view(clear@),
                crate::diagnostic::diagnostics_view(diags@),
                i as int,
            ) == whole_run,
            crate::state::extends(start_diags, crate::diagnostic::diagnostics_view(diags@)),
        decreases ds.len() - i,
    {
        let d = &ds[i];
        let next = if contains_str(&clear, &d.name) {
            (clear, diags)
        } else {
            let (found, clear) = has_cycle(
                &d.name,
                ls,
                &Vec::new(),
                clear,
                add_capped(ls.len(), 2),
            );
            if found {
                let message = cat3(
                    "struct '",
                    &d.name,
                    "' is recursive (directly or transitively) — contains itself by value, which has infinite size; use `ref T` / `Vec<T>` to break the cycle via the heap",
                );
                (clear, push(diags, diag(d.span, message)))
            } else {
                (clear, diags)
            }
        };
        clear = next.0;
        diags = next.1;
        i += 1;
    }
    (clear, diags)
}

/// What [`check_variants`] computes from position `i` on.
pub open spec fn check_variants_spec(
    vs: Seq<VariantDeclView>,
    name: Seq<char>,
    cx: ContextView,
    diags: Seq<DiagnosticView>,
    i: int,
) -> Seq<DiagnosticView>
    decreases vs.len() - i,
{
    if 0 <= i < vs.len() {
        let v = vs[i];
        let diags = {
            let diags = if v.payload.len() > 1 {
                let message = "enum '"@ + name + "' variant '"@ + v.name + "' has "@
                    + crate::text::decimal((v.payload.len() as int))
                    + " payload fields — only single-field payloads supported in v1 (T1.3 phase 2b)"@;
                diags.push(crate::scope::diag_spec(v.name_span, message))
            } else {
                diags
            };
            match payload_of_spec(v) {
                Some(t) => if may_be_held_spec(t, cx) {
                    diags
                } else {
                    let message = "enum '"@ + name + "' variant '"@ + v.name + "' payload type "@
                        + crate::ast::type_text_spec(t)
                        + " is not admitted in v1 — supported payloads are Copy types, OwnedStr, Vec<T>, [T;N] of Copy elements, Task, Atomic<T>, Mutex<T>, and Channel<T, N>; only Guard<T> still needs codegen work"@;
                    diags.push(crate::scope::diag_spec(v.name_span, message))
                },
                None => diags,
            }
        };
        check_variants_spec(vs, name, cx, diags, i + 1)
    } else {
        diags
    }
}

/// Reports the payloads that an enum may not have.
pub fn check_variants(
    vs: &Vec<VariantDecl>,
    name: &str,
    cx: &Context,
    diags: Vec<Diagnostic>,
) -> (r: Vec<Diagnostic>)
    ensures
        crate::diagnostic::diagnostics_view(r@) == check_variants_spec(
            crate::ast::variants_view(vs@),
            name@,
            cx@,
            crate::diagnostic::diagnostics_view(diags@),
            0,
        ),
        crate::state::extends(
            crate::diagnostic::diagnostics_view(diags@),
            crate::diagnostic::diagnostics_view(r@),
        ),
{
    let ghost whole_run = check_variants_spec(
        crate::ast::variants_view(vs@),
        name@,
        cx@,
        crate::diagnostic::diagnostics_view(diags@),
        0,
    );
    let ghost start_diags = crate::diagnostic::diagnostics_view(diags@);
    let mut diags = diags;
    let mut i: usize = 0;
    while i < vs.len()
        invariant
            i <= vs.len(),
            check_variants_spec(
                crate::ast::variants_view(vs@),
                name@,
                cx@,
                crate::diagnostic::diagnostics_view(diags@),
                i as int,
            ) == whole_run,
            crate::state::extends(start_diags, crate::diagnostic::diagnostics_view(diags@)),
        decreases vs.len() - i,
    {
        let v = &vs[i];
        diags = {
            let diags = if v.payload.len() > 1 {
                let message = cat7(
                    "enum '",
                    name,
                    "' variant '",
                    &v.name,
                    "' has ",
                    &usize_text(v.payload.len()),
                    " payload fields — only single-field payloads supported in v1 (T1.3 phase 2b)",
                );
                push(diags, diag(v.name_span, message))
            } else {
                diags
            };
            match payload_of(v) {
                Some(t) => if may_be_held(&t, cx) {
                    diags
                } else {
                    let message = cat7(
                        "enum '",
                        name,
                        "' variant '",
                        &v.name,
                        "' payload type ",
                        &type_text(&t),
                        " is not admitted in v1 — supported payloads are Copy types, OwnedStr, Vec<T>, [T;N] of Copy elements, Task, Atomic<T>, Mutex<T>, and Channel<T, N>; only Guard<T> still needs codegen work",
                    );
                    push(diags, diag(v.name_span, message))
                },
                None => diags,
            }
        };
        i += 1;
    }
    diags
}

/// What [`mixed_payloads`] computes from position `i` on.
pub open spec fn mixed_payloads_spec(
    vs: Seq<VariantDeclView>,
    first: Option<(Seq<char>, TypeView)>,
    other: Option<(Seq<char>, TypeView)>,
    i: int,
) -> (Option<(Seq<char>, TypeView)>, Option<(Seq<char>, TypeView)>)
    decreases vs.len() - i,
{
    if 0 <= i < vs.len() && !other.is_some() {
        let v = vs[i];
        let (first, other) = match payload_of_spec(v) {
            None => (first, other),
            Some(t) => match first {
                None => (Some((v.name, t)), other),
                Some((n, f)) => if t == f {
                    (Some((n, f)), other)
                } else {
                    (Some((n, f)), Some((v.name, t)))
                },
            },
        };
        mixed_payloads_spec(vs, first, other, i + 1)
    } else {
        (first, other)
    }
}

/// The first variant with a payload and the first after it with a payload of
/// another type.
pub fn mixed_payloads(
    vs: &Vec<VariantDecl>,
    first: Option<(String, Type)>,
    other: Option<(String, Type)>,
) -> (r: (Option<(String, Type)>, Option<(String, Type)>))
    ensures
        ((match &r.0 { Some(v0) => Some((v0.0@, v0.1@)), None => None }), (match &r.1 { Some(v0) => Some((v0.0@, v0.1@)), None => None })) == mixed_payloads_spec(
            crate::ast::variants_view(vs@),
            (match &first { Some(v0) => Some((v0.0@, v0.1@)), None => None }),
            (match &other { Some(v0) => Some((v0.0@, v0.1@)), None => None }),
            0,
        ),
{
    let ghost whole_run = mixed_payloads_spec(
        crate::ast::variants_view(vs@),
        (match &first { Some(v0) => Some((v0.0@, v0.1@)), None => None }),
        (match &other { Some(v0) => Some((v0.0@, v0.1@)), None => None }),
        0,
    );
    let mut first = first;
    let mut other = other;
    let mut i: usize = 0;
    while i < vs.len() && !other.is_some()
        invariant
            i <= vs.len(),
            mixed_payloads_spec(
                crate::ast::variants_view(vs@),
                (match &first { Some(v0) => Some((v0.0@, v0.1@)), None => None }),
                (match &other { Some(v0) => Some((v0.0@, v0.1@)), None => None }),
                i as int,
            ) == whole_run,
        decreases vs.len() - i,
    {
        let v = &vs[i];
        let next = match payload_of(v) {
            None => (first, other),
            Some(t) => match first {
                None => (Some((v.name.clone(), t)), other),
                Some((n, f)) => if type_eq(&t, &f) {
                    (Some((n, f)), other)
                } else {
                    (Some((n, f)), Some((v.name.clone(), t)))
                },
            },
        };
        first = next.0;
        other = next.1;
        i += 1;
    }
    (first, other)
}

/// What [`report_mixed`] computes.
pub open spec fn report_mixed_spec(
    d: EnumDeclView,
    diags: Seq<DiagnosticView>,
) -> Seq<DiagnosticView>
{
    match mixed_payloads_spec(d.variants, None, None, 0) {
        (Some((a, t)), Some((b, u))) => {
            let head = "enum '"@ + d.name + "' has mixed payload types — '"@ + a + "' carries "@
                + crate::ast::type_text_spec(t) + " but '"@;
            let message = head + b + "' carries "@ + crate::ast::type_text_spec(u)
                + ". V1 requires all payload-bearing variants to share the same payload type (multi-type representation deferred)."@;
            diags.push(crate::scope::diag_spec(d.name_span, message))
        },
        _ => diags,
    }
}

/// Reports an enum with payloads of different types.
pub fn report_mixed(d: &EnumDecl, diags: Vec<Diagnostic>) -> (r: Vec<Diagnostic>)
    ensures
        crate::diagnostic::diagnostics_view(r@) == report_mixed_spec(
            d@,
            crate::diagnostic::diagnostics_view(diags@),
        ),
        crate::state::extends(
            crate::diagnostic::diagnostics_view(diags@),
            crate::diagnostic::diagnostics_view(r@),
        ),
{
    match mixed_payloads(&d.variants, None, None) {
        (Some((a, t)), Some((b, u))) => {
            let head = cat7(
                "enum '",
                &d.name,
                "' has mixed payload types — '",
                &a,
                "' carries ",
                &type_text(&t),
                " but '",
            );
            let message = cat5(
                &head,
                &b,
                "' carries ",
                &type_text(&u),
                ". V1 requires all payload-bearing variants to share the same payload type (multi-type representation deferred).",
            );
            push(diags, diag(d.name_span, message))
        },
        _ => diags,
    }
}

/// What [`later_same_variants`] computes from position `i` on.
pub open spec fn later_same_variants_spec(
    vs: Seq<VariantDeclView>,
    at: int,
    variant: Seq<char>,
    name: Seq<char>,
    diags: Seq<DiagnosticView>,
    i: int,
) -> Seq<DiagnosticView>
    decreases vs.len() - i,
{
    if 0 <= i < vs.len() {
        let w = vs[i];
        let diags = if i > at && w.name == variant {
            diags.push(
                crate::scope::diag_spec(
                    w.name_span,
                    "enum '"@ + name + "' has duplicate variant '"@ + w.name + "'"@,
                ),
            )
        } else {
            diags
        };
        later_same_variants_spec(vs, at, variant, name, diags, i + 1)
    } else {
        diags
    }
}

/// Reports the later variants of the same name.
pub fn later_same_variants(
    vs: &Vec<VariantDecl>,
    at: usize,
    variant: &str,
    name: &str,
    diags: Vec<Diagnostic>,
) -> (r: Vec<Diagnostic>)
    ensures
        crate::diagnostic::diagnostics_view(r@) == later_same_variants_spec(
            crate::ast::variants_view(vs@),
            at as int,
            variant@,
            name@,
            crate::diagnostic::diagnostics_view(diags@),
            0,
        ),
        crate::state::extends(
            crate::diagnostic::diagnostics_view(diags@),
            crate::diagnostic::diagnostics_view(r@),
        ),
{
    let ghost whole_run = later_same_variants_spec(
        crate::ast::variants_view(vs@),
        at as int,
        variant@,
        name@,
        crate::diagnostic::diagnostics_view(diags@),
        0,
    );
    let ghost start_diags = crate::diagnostic::diagnostics_view(diags@);
    let mut diags = diags;
    let mut i: usize = 0;
    while i < vs.len()
        invariant
            i <= vs.len(),
            later_same_variants_spec(
                crate::ast::variants_view(vs@),
                at as int,
                variant@,
                name@,
                crate::diagnostic::diagnostics_view(diags@),
                i as int,
            ) == whole_run,
            crate::state::extends(start_diags, crate::diagnostic::diagnostics_view(diags@)),
        decreases vs.len() - i,
    {
        let w = &vs[i];
        diags = if i > at && str_eq(&w.name, variant) {
            push(
                diags,
                diag(w.name_span, cat5("enum '", name, "' has duplicate variant '", &w.name, "'")),
            )
        } else {
            diags
        };
        i += 1;
    }
    diags
}

/// What [`duplicate_variants`] computes from position `i` on.
pub open spec fn duplicate_variants_spec(
    vs: Seq<VariantDeclView>,
    name: Seq<char>,
    diags: Seq<DiagnosticView>,
    i: int,
) -> Seq<DiagnosticView>
    decreases vs.len() - i,
{
    if 0 <= i < vs.len() {
        let v = vs[i];
        let diags = later_same_variants_spec(vs, i, v.name, name, diags, 0);
        duplicate_variants_spec(vs, name, diags, i + 1)
    } else {
        diags
    }
}

/// Reports each pair of variants of the same name.
pub fn duplicate_variants(
    vs: &Vec<VariantDecl>,
    name: &str,
    diags: Vec<Diagnostic>,
) -> (r: Vec<Diagnostic>)
    ensures
        crate::diagnostic::diagnostics_view(r@) == duplicate_variants_spec(
            crate::ast::variants_view(vs@),
            name@,
            crate::diagnostic::diagnostics_view(diags@),
            0,
        ),
        crate::state::extends(
            crate::diagnostic::diagnostics_view(diags@),
            crate::diagnostic::diagnostics_view(r@),
        ),
{
    let ghost whole_run = duplicate_variants_spec(
        crate::ast::variants_view(vs@),
        name@,
        crate::diagnostic::diagnostics_view(diags@),
        0,
    );
    let ghost start_diags = crate::diagnostic::diagnostics_view(diags@);
    let mut diags = diags;
    let mut i: usize = 0;
    while i < vs.len()
        invariant
            i <= vs.len(),
            duplicate_variants_spec(
                crate::ast::variants_view(vs@),
                name@,
                crate::diagnostic::diagnostics_view(diags@),
                i as int,
            ) == whole_run,
            crate::state::extends(start_diags, crate::diagnostic::diagnostics_view(diags@)),
        decreases vs.len() - i,
    {
        let v = &vs[i];
        diags = later_same_variants(vs, i, &v.name, name, diags);
        i += 1;
    }
    diags
}

/// What [`variant_names`] computes.
pub open spec fn variant_names_spec(vs: Seq<VariantDeclView>) -> Seq<Seq<char>>
{
    vs.map_values(|v: VariantDeclView| v.name)
}

pub fn variant_names(vs: &Vec<VariantDecl>) -> (r: Vec<String>)
    ensures
        crate::text::strs_view(r@) == variant_names_spec(crate::ast::variants_view(vs@)),
{
    let ghost whole = variant_names_spec(crate::ast::variants_view(vs@));
    let ghost all = crate::ast::variants_view(vs@);
    let mut r: Vec<String> = Vec::new();
    let mut i: usize = 0;
    while i < vs.len()
        invariant
            i <= vs.len(),
            all == crate::ast::variants_view(vs@),
            whole == variant_names_spec(crate::ast::variants_view(vs@)),
            crate::text::strs_view(r@) == whole.take(i as int),
        decreases vs.len() - i,
    {
        let v = &vs[i];
        assert(all[i as int] == v@);
        r.push(v.name.clone());
        assert(whole.take(i + 1) =~= whole.take(i as int).push(whole[i as int]));
        i += 1;
    }
    assert(whole.take(i as int) =~= whole);
    r
}

/// What [`payload_types`] computes.
pub open spec fn payload_types_spec(vs: Seq<VariantDeclView>) -> Seq<Option<TypeView>>
{
    vs.map_values(|v: VariantDeclView| payload_of_spec(v))
}

pub fn payload_types(vs: &Vec<VariantDecl>) -> (r: Vec<Option<Type>>)
    ensures
        crate::ir::opt_types_view(r@) == payload_types_spec(crate::ast::variants_view(vs@)),
{
    let ghost whole = payload_types_spec(crate::ast::variants_view(vs@));
    let ghost all = crate::ast::variants_view(vs@);
    let mut r: Vec<Option<Type>> = Vec::new();
    let mut i: usize = 0;
    while i < vs.len()
        invariant
            i <= vs.len(),
            all == crate::ast::variants_view(vs@),
            whole == payload_types_spec(crate::ast::variants_view(vs@)),
            crate::ir::opt_types_view(r@) == whole.take(i as int),
        decreases vs.len() - i,
    {
        let v = &vs[i];
        assert(all[i as int] == v@);
        r.push(payload_of(v));
        assert(whole.take(i + 1) =~= whole.take(i as int).push(whole[i as int]));
        i += 1;
    }
    assert(whole.take(i as int) =~= whole);
    r
}

/// What [`report_variant_count`] computes.
pub open spec fn report_variant_count_spec(
    d: EnumDeclView,
    diags: Seq<DiagnosticView>,
) -> Seq<DiagnosticView>
{
    if d.variants.len() == 0 || d.variants.len() > 255 {
        let message = "enum '"@ + d.name + "' has "@
            + crate::text::decimal((d.variants.len() as int)) + " variants; v1 supports 1..=255"@;
        diags.push(crate::scope::diag_spec(d.span, message))
    } else {
        diags
    }
}

/// Reports an enum with no variant or too many.
pub fn report_variant_count(d: &EnumDecl, diags: Vec<Diagnostic>) -> (r: Vec<Diagnostic>)
    ensures
        crate::diagnostic::diagnostics_view(r@) == report_variant_count_spec(
            d@,
            crate::diagnostic::diagnostics_view(diags@),
        ),
        crate::state::extends(
            crate::diagnostic::diagnostics_view(diags@),
            crate::diagnostic::diagnostics_view(r@),
        ),
{
    if d.variants.len() == 0 || d.variants.len() > 255 {
        let message = cat5(
            "enum '",
            &d.name,
            "' has ",
            &usize_text(d.variants.len()),
            " variants; v1 supports 1..=255",
        );
        push(diags, diag(d.span, message))
    } else {
        diags
    }
}

/// What [`register_enums`] computes from position `i` on.
pub open spec fn register_enums_spec(
    ds: Seq<EnumDeclView>,
    structs: Seq<(Seq<char>, StructInfoView)>,
    cx: ContextView,
    table: Seq<(Seq<char>, EnumInfoView)>,
    diags: Seq<DiagnosticView>,
    i: int,
) -> (Seq<(Seq<char>, EnumInfoView)>, Seq<DiagnosticView>)
    decreases ds.len() - i,
{
    if 0 <= i < ds.len() {
        let d = ds[i];
        let (table, diags) = {
            let diags = report_variant_count_spec(d, diags);
            let diags = check_variants_spec(d.variants, d.name, cx, diags, 0);
            let diags = report_mixed_spec(d, diags);
            let diags = duplicate_variants_spec(d.variants, d.name, diags, 0);
            let diags = if crate::scope::enum_info_has_spec(table, d.name) {
                diags.push(
                    crate::scope::diag_spec(
                        d.name_span,
                        "enum '"@ + d.name + "' already declared"@,
                    ),
                )
            } else {
                diags
            };
            let diags = if crate::scope::struct_info_has_spec(structs, d.name) {
                diags.push(
                    crate::scope::diag_spec(
                        d.name_span,
                        "enum '"@ + d.name + "' collides with a struct of the same name"@,
                    ),
                )
            } else {
                diags
            };
            let info = EnumInfoView {
                variants: variant_names_spec(d.variants),
                payload_types: payload_types_spec(d.variants),
            };
            (crate::scope::enum_info_put_spec(table, d.name, info), diags)
        };
        register_enums_spec(ds, structs, cx, table, diags, i + 1)
    } else {
        (table, diags)
    }
}

/// The enums by name.
pub fn register_enums(
    ds: &Vec<EnumDecl>,
    structs: &Vec<(String, StructInfo)>,
    cx: &Context,
    table: Vec<(String, EnumInfo)>,
    diags: Vec<Diagnostic>,
) -> (r: (Vec<(String, EnumInfo)>, Vec<Diagnostic>))
    ensures
        (crate::state::enum_infos_view(r.0@), crate::diagnostic::diagnostics_view(r.1@)) == register_enums_spec(
            crate::ast::enums_view(ds@),
            crate::state::struct_infos_view(structs@),
            cx@,
            crate::state::enum_infos_view(table@),
            crate::diagnostic::diagnostics_view(diags@),
            0,
        ),
        crate::state::extends(
            crate::diagnostic::diagnostics_view(diags@),
            crate::diagnostic::diagnostics_view(r.1@),
        ),
{
    let ghost whole_run = register_enums_spec(
        crate::ast::enums_view(ds@),
        crate::state::struct_infos_view(structs@),
        cx@,
        crate::state::enum_infos_view(table@),
        crate::diagnostic::diagnostics_view(diags@),
        0,
    );
    let ghost start_diags = crate::diagnostic::diagnostics_view(diags@);
    let mut table = table;
    let mut diags = diags;
    let mut i: usize = 0;
    while i < ds.len()
        invariant
            i <= ds.len(),
            register_enums_spec(
                crate::ast::enums_view(ds@),
                crate::state::struct_infos_view(structs@),
                cx@,
                crate::state::enum_infos_view(table@),
                crate::diagnostic::diagnostics_view(diags@),
                i as int,
            ) == whole_run,
            crate::state::extends(start_diags, crate::diagnostic::diagnostics_view(diags@)),
        decreases ds.len() - i,
    {
        let d = &ds[i];
        let next = {
            let diags = report_variant_count(d, diags);
            let diags = check_variants(&d.variants, &d.name, cx, diags);
            let diags = report_mixed(d, diags);
            let diags = duplicate_variants(&d.variants, &d.name, diags);
            let diags = if enum_info_has(&table, &d.name) {
                push(diags, diag(d.name_span, cat3("enum '", &d.name, "' already declared")))
            } else {
                diags
            };
            let diags = if struct_info_has(structs, &d.name) {
                push(
                    diags,
                    diag(
                        d.name_span,
                        cat3("enum '", &d.name, "' collides with a struct of the same name"),
                    ),
                )
            } else {
                diags
            };
            let info = EnumInfo {
                variants: variant_names(&d.variants),
                payload_types: payload_types(&d.variants),
            };
            (enum_info_put(&table, &d.name, &info), diags)
        };
        table = next.0;
        diags = next.1;
        i += 1;
    }
    (table, diags)
}

/// What [`is_arithmetic`] computes.
pub open spec fn is_arithmetic_spec(op: BinaryOp) -> bool
{
    op == BinaryOp::Add || op == BinaryOp::Sub || op == BinaryOp::Mul || op == BinaryOp::Div
        || op == BinaryOp::Rem
}

pub fn is_arithmetic(op: BinaryOp) -> (r: bool)
    ensures
        r == is_arithmetic_spec(op),
{
    op == BinaryOp::Add || op == BinaryOp::Sub || op == BinaryOp::Mul || op == BinaryOp::Div
        || op == BinaryOp::Rem
}

/// What [`negated_literal`] computes.
pub open spec fn negated_literal_spec(c: Option<TypedConstView>) -> Option<TypedConstView>
{
    match c {
        Some(TypedConstView::Int(v)) => match crate::numeric::neg_checked_spec(v) {
            Some(n) => Some(TypedConstView::Int(n)),
            None => None,
        },
        Some(TypedConstView::Float(v)) => Some(
            TypedConstView::Float(crate::numeric::float_neg_spec(v)),
        ),
        _ => None,
    }
}

/// The value of a negated initializer.
pub fn negated_literal(c: Option<TypedConst>) -> (r: Option<TypedConst>)
    ensures
        (match &r { Some(v0) => Some(v0@), None => None }) == negated_literal_spec(
            (match &c { Some(v0) => Some(v0@), None => None }),
        ),
{
    match c {
        Some(TypedConst::Int(v)) => match neg_checked(v) {
            Some(n) => Some(TypedConst::Int(n)),
            None => None,
        },
        Some(TypedConst::Float(v)) => Some(TypedConst::Float(float_neg(&v))),
        _ => None,
    }
}

/// What [`folded_literals`] computes.
pub open spec fn folded_literals_spec(
    op: BinaryOp,
    a: Option<TypedConstView>,
    b: Option<TypedConstView>,
) -> Option<TypedConstView>
{
    match (crate::operators::int_constant_spec(a), crate::operators::int_constant_spec(b)) {
        (Some(x), Some(y)) => if is_arithmetic_spec(op) {
            match crate::numeric::integer_value_spec(op, x, y) {
                Some(v) => Some(TypedConstView::Int(v)),
                None => None,
            }
        } else {
            None
        },
        _ => None,
    }
}

/// The value of integer arithmetic on initializers.
pub fn folded_literals(
    op: BinaryOp,
    a: Option<TypedConst>,
    b: Option<TypedConst>,
) -> (r: Option<TypedConst>)
    ensures
        (match &r { Some(v0) => Some(v0@), None => None }) == folded_literals_spec(
            op,
            (match &a { Some(v0) => Some(v0@), None => None }),
            (match &b { Some(v0) => Some(v0@), None => None }),
        ),
{
    match (int_constant(&a), int_constant(&b)) {
        (Some(x), Some(y)) => if is_arithmetic(op) {
            match integer_value(op, x, y) {
                Some(v) => Some(TypedConst::Int(v)),
                None => None,
            }
        } else {
            None
        },
        _ => None,
    }
}

/// What [`literal_const_value`] computes.
pub open spec fn literal_const_value_spec(
    e: ExprView,
    t: TypeView,
    consts: Seq<(Seq<char>, ConstInfoView)>,
) -> Option<TypedConstView>
    decreases e,
{
    match e.kind {
        ExprKindView::Int(v) => if crate::types::is_integer_spec(t) { Some(TypedConstView::Int(v)) } else { None },
        ExprKindView::Float(v) => if crate::types::is_float_spec(t) { Some(TypedConstView::Float(v)) } else { None },
        ExprKindView::Bool(v) => if crate::types::is_bool_spec(t) { Some(TypedConstView::Bool(v)) } else { None },
        ExprKindView::Var(name) => match const_info_get_spec(consts, name) {
            Some(info) => if info.ty == t { Some(info.value) } else { None },
            None => None,
        },
        ExprKindView::Unary { op, expr } => if op == UnaryOp::Neg {
            negated_literal_spec(literal_const_value_spec(*expr, t, consts))
        } else {
            None
        },
        ExprKindView::Binary { op, left, right } => if crate::types::is_integer_spec(t) {
            folded_literals_spec(
                op,
                literal_const_value_spec(*left, t, consts),
                literal_const_value_spec(*right, t, consts),
            )
        } else {
            None
        },
        _ => None,
    }
}

/// The value of a constant's initializer: a literal of its type, an earlier
/// constant of the same type, a negation, or integer arithmetic on these.
pub fn literal_const_value(
    e: &Expr,
    t: &Type,
    consts: &Vec<(String, ConstInfo)>,
) -> (r: Option<TypedConst>)
    ensures
        (match &r { Some(v0) => Some(v0@), None => None }) == literal_const_value_spec(
            e@,
            t@,
            crate::state::const_infos_view(consts@),
        ),
    decreases e,
{
    match &e.kind {
        ExprKind::Int(v) => if is_integer(t) { Some(TypedConst::Int(*v)) } else { None },
        ExprKind::Float(v) => if is_float(t) { Some(TypedConst::Float(v.dup())) } else { None },
        ExprKind::Bool(v) => if is_bool(t) { Some(TypedConst::Bool(*v)) } else { None },
        ExprKind::Var(name) => match const_info_get(consts, name) {
            Some(info) => if type_eq(&info.ty, t) { Some(info.value) } else { None },
            None => None,
        },
        ExprKind::Unary { op, expr } => if *op == UnaryOp::Neg {
            negated_literal(literal_const_value(&**expr, t, consts))
        } else {
            None
        },
        ExprKind::Binary { op, left, right } => if is_integer(t) {
            folded_literals(
                *op,
                literal_const_value(&**left, t, consts),
                literal_const_value(&**right, t, consts),
            )
        } else {
            None
        },
        _ => None,
    }
}

/// What [`const_value`] computes.
pub open spec fn const_value_spec(
    d: ConstDeclView,
    table: Seq<(Seq<char>, ConstInfoView)>,
    structs: Seq<(Seq<char>, StructInfoView)>,
    enums: Seq<(Seq<char>, EnumInfoView)>,
    cx: ContextView,
) -> Result<TypedConstView, (Span, Seq<char>)>
{
    if const_info_has_spec(table, d.name) {
        Err((d.name_span, "const '"@ + d.name + "' is already declared"@))
    } else if crate::scope::struct_info_has_spec(structs, d.name) || crate::scope::enum_info_has_spec(enums, d.name) || crate::scope::signature_has_spec(cx.signatures, d.name) {
        Err((d.name_span, "const '"@ + d.name + "' collides with an existing type or function"@))
    } else if !crate::scope::copies_spec(d.ty, cx) || crate::types::is_any_ref_spec(d.ty) {
        let message = "const '"@ + d.name
            + "': v1 supports Copy scalar types only (i64/i32/.../f64/bool); got "@
            + crate::ast::type_text_spec(d.ty);
        Err((d.span, message))
    } else {
        match literal_const_value_spec(d.value, d.ty, table) {
            None => {
                let message = "const '"@ + d.name
                    + "': v1 initializers must be a literal value (e.g. 42, -1, 3.14, true); arithmetic + function calls land in a later phase"@;
                Err((d.value.span, message))
            },
            Some(TypedConstView::Int(v)) => if crate::numeric::value_fits_type_spec(v, d.ty) {
                Ok(TypedConstView::Int(v))
            } else {
                let message = "const '"@ + d.name + "': literal "@ + crate::text::decimal(v as int)
                    + " does not fit in "@ + crate::ast::type_text_spec(d.ty);
                Err((d.value.span, message))
            },
            Some(c) => Ok(c),
        }
    }
}

/// The value of a constant, or where and why it is refused.
pub fn const_value(
    d: &ConstDecl,
    table: &Vec<(String, ConstInfo)>,
    structs: &Vec<(String, StructInfo)>,
    enums: &Vec<(String, EnumInfo)>,
    cx: &Context,
) -> (r: Result<TypedConst, (Span, String)>)
    ensures
        (match &r { Ok(v0) => Ok(v0@), Err(v0) => Err((v0.0, v0.1@)) }) == const_value_spec(
            d@,
            crate::state::const_infos_view(table@),
            crate::state::struct_infos_view(structs@),
            crate::state::enum_infos_view(enums@),
            cx@,
        ),
{
    if const_info_has(table, &d.name) {
        Err((d.name_span, cat3("const '", &d.name, "' is already declared")))
    } else if struct_info_has(structs, &d.name) || enum_info_has(enums, &d.name) || signature_has(&cx.signatures, &d.name) {
        Err((d.name_span, cat3("const '", &d.name, "' collides with an existing type or function")))
    } else if !copies(&d.ty, cx) || is_any_ref(&d.ty) {
        let message = cat4(
            "const '",
            &d.name,
            "': v1 supports Copy scalar types only (i64/i32/.../f64/bool); got ",
            &type_text(&d.ty),
        );
        Err((d.span, message))
    } else {
        match literal_const_value(&d.value, &d.ty, table) {
            None => {
                let message = cat3(
                    "const '",
                    &d.name,
                    "': v1 initializers must be a literal value (e.g. 42, -1, 3.14, true); arithmetic + function calls land in a later phase",
                );
                Err((d.value.span, message))
            },
            Some(TypedConst::Int(v)) => if value_fits_type(v, &d.ty) {
                Ok(TypedConst::Int(v))
            } else {
                let message = cat6(
                    "const '",
                    &d.name,
                    "': literal ",
                    &int_text(v),
                    " does not fit in ",
                    &type_text(&d.ty),
                );
                Err((d.value.span, message))
            },
            Some(c) => Ok(c),
        }
    }
}

/// What [`register_consts`] computes from position `i` on.
pub open spec fn register_consts_spec(
    ds: Seq<ConstDeclView>,
    structs: Seq<(Seq<char>, StructInfoView)>,
    enums: Seq<(Seq<char>, EnumInfoView)>,
    cx: ContextView,
    table: Seq<(Seq<char>, ConstInfoView)>,
    diags: Seq<DiagnosticView>,
    i: int,
) -> (Seq<(Seq<char>, ConstInfoView)>, Seq<DiagnosticView>)
    decreases ds.len() - i,
{
    if 0 <= i < ds.len() {
        let d = ds[i];
        let (table, diags) = match const_value_spec(d, table, structs, enums, cx) {
            Err((at, message)) => (table, diags.push(crate::scope::diag_spec(at, message))),
            Ok(value) => {
                let info = ConstInfoView { ty: d.ty, value, decl_span: d.name_span };
                (const_info_put_spec(table, d.name, info), diags)
            },
        };
        register_consts_spec(ds, structs, enums, cx, table, diags, i + 1)
    } else {
        (table, diags)
    }
}

/// The constants by name; those that are refused are left out.
pub fn register_consts(
    ds: &Vec<ConstDecl>,
    structs: &Vec<(String, StructInfo)>,
    enums: &Vec<(String, EnumInfo)>,
    cx: &Context,
    table: Vec<(String, ConstInfo)>,
    diags: Vec<Diagnostic>,
) -> (r: (Vec<(String, ConstInfo)>, Vec<Diagnostic>))
    ensures
        (crate::state::const_infos_view(r.0@), crate::diagnostic::diagnostics_view(r.1@)) == register_consts_spec(
            crate::ast::consts_view(ds@),
            crate::state::struct_infos_view(structs@),
            crate::state::enum_infos_view(enums@),
            cx@,
            crate::state::const_infos_view(table@),
            crate::diagnostic::diagnostics_view(diags@),
            0,
        ),
        crate::state::extends(
            crate::diagnostic::diagnostics_view(diags@),
            crate::diagnostic::diagnostics_view(r.1@),
        ),
{
    let ghost whole_run = register_consts_spec(
        crate::ast::consts_view(ds@),
        crate::state::struct_infos_view(structs@),
        crate::state::enum_infos_view(enums@),
        cx@,
        crate::state::const_infos_view(table@),
        crate::diagnostic::diagnostics_view(diags@),
        0,
    );
    let ghost start_diags = crate::diagnostic::diagnostics_view(diags@);
    let mut table = table;
    let mut diags = diags;
    let mut i: usize = 0;
    while i < ds.len()
        invariant
            i <= ds.len(),
            register_consts_spec(
                crate::ast::consts_view(ds@),
                crate::state::struct_infos_view(structs@),
                crate::state::enum_infos_view(enums@),
                cx@,
                crate::state::const_infos_view(table@),
                crate::diagnostic::diagnostics_view(diags@),
                i as int,
            ) == whole_run,
            crate::state::extends(start_diags, crate::diagnostic::diagnostics_view(diags@)),
        decreases ds.len() - i,
    {
        let d = &ds[i];
        let next = match const_value(d, &table, structs, enums, cx) {
            Err((at, message)) => (table, push(diags, diag(at, message))),
            Ok(value) => {
                let info = ConstInfo { ty: d.ty.dup(), value, decl_span: d.name_span };
                (const_info_put(&table, &d.name, &info), diags)
            },
        };
        table = next.0;
        diags = next.1;
        i += 1;
    }
    (table, diags)
}

/// What [`register`] computes.
pub open spec fn register_spec(
    p: ProgramView,
    cx: ContextView,
    diags: Seq<DiagnosticView>,
) -> (RegistryView, Seq<DiagnosticView>)
{
    let diags = report_reserved_spec(p, diags);
    let (structs, diags) = register_structs_spec(p.structs, cx, Seq::empty(), diags, 0);
    let (_, diags) = report_recursive_spec(
        p.structs,
        layouts_spec(p.structs),
        Seq::empty(),
        diags,
        0,
    );
    let (enums, diags) = register_enums_spec(p.enums, structs, cx, Seq::empty(), diags, 0);
    let (consts, diags) = register_consts_spec(
        p.consts,
        structs,
        enums,
        cx,
        Seq::empty(),
        diags,
        0,
    );
    (RegistryView { structs, enums, consts }, diags)
}

/// The declarations of a program by name.
pub fn register(
    p: &Program,
    cx: &Context,
    diags: Vec<Diagnostic>,
) -> (r: (Registry, Vec<Diagnostic>))
    ensures
        (r.0@, crate::diagnostic::diagnostics_view(r.1@)) == register_spec(
            p@,
            cx@,
            crate::diagnostic::diagnostics_view(diags@),
        ),
        crate::state::extends(
            crate::diagnostic::diagnostics_view(diags@),
            crate::diagnostic::diagnostics_view(r.1@),
        ),
{
    let diags = report_reserved(p, diags);
    let (structs, diags) = register_structs(&p.structs, cx, Vec::new(), diags);
    let (_, diags) = report_recursive(&p.structs, &layouts(&p.structs), Vec::new(), diags);
    let (enums, diags) = register_enums(&p.enums, &structs, cx, Vec::new(), diags);
    let (consts, diags) = register_consts(&p.consts, &structs, &enums, cx, Vec::new(), diags);
    (Registry { structs, enums, consts }, diags)
}

/// The names of a list of structs.
pub open spec fn struct_names(ds: Seq<StructDeclView>) -> Seq<Seq<char>> {
    ds.map_values(|d: StructDeclView| d.name)
}

/// Names that are all different and all names of structs.
pub open spec fn some_structs(names: Seq<Seq<char>>, ds: Seq<StructDeclView>) -> bool {
    names.no_duplicates() && forall|i: int|
        0 <= i < names.len() ==> struct_names(ds).contains(#[trigger] names[i])
}

proof fn no_more_than_structs(names: Seq<Seq<char>>, ds: Seq<StructDeclView>)
    requires
        some_structs(names, ds),
    ensures
        names.len() <= ds.len(),
{
    let all = struct_names(ds);
    names.unique_seq_to_set();
    all.lemma_cardinality_of_set();
    assert(names.to_set().subset_of(all.to_set())) by {
        assert forall|n: Seq<char>| names.to_set().contains(n) implies all.to_set().contains(n) by {
            let i = choose|i: int| 0 <= i < names.len() && names[i] == n;
            assert(all.contains(names[i]));
        }
    }
    vstd::set_lib::lemma_len_subset(names.to_set(), all.to_set());
}

proof fn round_adds_structs(
    ds: Seq<StructDeclView>,
    before: Seq<Seq<char>>,
    owning: Seq<Seq<char>>,
    changed: bool,
    i: int,
)
    requires
        0 <= i <= ds.len(),
        some_structs(owning, ds),
    ensures
        ({
            let r = owning_round_spec(ds, before, owning, changed, i);
            &&& some_structs(r.0, ds)
            &&& owning.len() <= r.0.len()
            &&& r.1 && !changed ==> owning.len() < r.0.len()
            &&& !r.1 ==> r.0 == owning
            &&& changed ==> r.1
        }),
    decreases ds.len() - i,
{
    if i < ds.len() {
        let d = ds[i];
        if owning.contains(d.name) || !any_owning_field_spec(d.fields, before) {
            round_adds_structs(ds, before, owning, changed, i + 1);
        } else {
            let more = owning.push(d.name);
            assert(struct_names(ds)[i] == d.name);
            assert forall|j: int| 0 <= j < more.len() implies struct_names(ds).contains(
                #[trigger] more[j],
            ) by {
                if j < owning.len() {
                    assert(more[j] == owning[j]);
                }
            }
            round_adds_structs(ds, before, more, true, i + 1);
        }
    }
}

proof fn rounds_reach_the_end(ds: Seq<StructDeclView>, owning: Seq<Seq<char>>, fuel: int)
    requires
        some_structs(owning, ds),
        fuel > ds.len() - owning.len(),
    ensures
        some_structs(owning_rounds_spec(ds, owning, fuel), ds),
        !owning_round_spec(
            ds,
            owning_rounds_spec(ds, owning, fuel),
            owning_rounds_spec(ds, owning, fuel),
            false,
            0,
        ).1,
    decreases fuel,
{
    no_more_than_structs(owning, ds);
    round_adds_structs(ds, owning, owning, false, 0);
    let r = owning_round_spec(ds, owning, owning, false, 0);
    if r.1 {
        rounds_reach_the_end(ds, r.0, fuel - 1);
    }
}

proof fn closed_round(ds: Seq<StructDeclView>, owning: Seq<Seq<char>>, i: int)
    requires
        0 <= i <= ds.len(),
        !owning_round_spec(ds, owning, owning, false, i).1,
        some_structs(owning, ds),
    ensures
        forall|j: int|
            i <= j < ds.len() && any_owning_field_spec((#[trigger] ds[j]).fields, owning)
                ==> owning.contains(ds[j].name),
    decreases ds.len() - i,
{
    if i < ds.len() {
        let d = ds[i];
        if owning.contains(d.name) || !any_owning_field_spec(d.fields, owning) {
            closed_round(ds, owning, i + 1);
        } else {
            let more = owning.push(d.name);
            assert(struct_names(ds)[i] == d.name);
            assert forall|j: int| 0 <= j < more.len() implies struct_names(ds).contains(
                #[trigger] more[j],
            ) by {
                if j < owning.len() {
                    assert(more[j] == owning[j]);
                }
            }
            round_adds_structs(ds, owning, more, true, i + 1);
        }
    }
}

proof fn structs_with_drop_are_structs(
    fs: Seq<FunctionView>,
    ds: Seq<StructDeclView>,
    owning: Seq<Seq<char>>,
    i: int,
)
    requires
        0 <= i <= fs.len(),
        some_structs(owning, ds),
    ensures
        some_structs(structs_with_drop_spec(fs, ds, owning, i), ds),
        owning.to_set().subset_of(structs_with_drop_spec(fs, ds, owning, i).to_set()),
        forall|j: int, name: Seq<char>|
            i <= j < fs.len() && #[trigger] strip_suffix_spec(fs[j].name, "_drop"@) == Some(name)
                && #[trigger] crate::resolve::has_struct_spec(ds, name)
                ==> structs_with_drop_spec(fs, ds, owning, i).contains(name),
    decreases fs.len() - i,
{
    if i < fs.len() {
        match strip_suffix_spec(fs[i].name, "_drop"@) {
            Some(name) => {
                if crate::resolve::has_struct_spec(ds, name) {
                    let more = crate::effects::add_name_spec(owning, name);
                    let k = choose|k: int| 0 <= k < ds.len() && ds[k].name == name;
                    assert(struct_names(ds)[k] == name);
                    assert forall|j: int| 0 <= j < more.len() implies struct_names(ds).contains(
                        #[trigger] more[j],
                    ) by {
                        if j < owning.len() {
                            assert(more[j] == owning[j]);
                        }
                    }
                    assert(more.contains(name)) by {
                        if !owning.contains(name) {
                            assert(more[owning.len() as int] == name);
                        }
                    }
                    assert forall|n: Seq<char>| owning.contains(n) implies more.contains(n) by {
                        let j = choose|j: int| 0 <= j < owning.len() && owning[j] == n;
                        assert(more[j] == n);
                    }
                    structs_with_drop_are_structs(fs, ds, more, i + 1);
                    assert(more.to_set().contains(name));
                } else {
                    structs_with_drop_are_structs(fs, ds, owning, i + 1);
                }
            },
            None => {
                structs_with_drop_are_structs(fs, ds, owning, i + 1);
            },
        }
    }
}

proof fn rounds_keep(ds: Seq<StructDeclView>, owning: Seq<Seq<char>>, fuel: int, name: Seq<char>)
    requires
        owning.contains(name),
    ensures
        owning_rounds_spec(ds, owning, fuel).contains(name),
    decreases fuel,
{
    if fuel >= 1 {
        round_keeps(ds, owning, owning, false, 0, name);
        let r = owning_round_spec(ds, owning, owning, false, 0);
        if r.1 {
            rounds_keep(ds, r.0, fuel - 1, name);
        }
    }
}

proof fn round_keeps(
    ds: Seq<StructDeclView>,
    before: Seq<Seq<char>>,
    owning: Seq<Seq<char>>,
    changed: bool,
    i: int,
    name: Seq<char>,
)
    requires
        0 <= i,
        owning.contains(name),
    ensures
        owning_round_spec(ds, before, owning, changed, i).0.contains(name),
    decreases ds.len() - i,
{
    if i < ds.len() {
        let d = ds[i];
        if owning.contains(d.name) || !any_owning_field_spec(d.fields, before) {
            round_keeps(ds, before, owning, changed, i + 1, name);
        } else {
            let more = owning.push(d.name);
            let j = choose|j: int| 0 <= j < owning.len() && owning[j] == name;
            assert(more[j] == name);
            round_keeps(ds, before, more, true, i + 1, name);
        }
    }
}

/// The structs found to own something are those that a drop function is
/// declared for and, closed under holding, the structs with a field of a type
/// that owns something, however deep the chain of structs is through which it
/// does.
pub proof fn owning_structs_are_closed(p: ProgramView)
    requires
        p.structs.len() < usize::MAX,
    ensures
        some_structs(owning_structs_spec(p), p.structs),
        forall|j: int|
            0 <= j < p.structs.len() && any_owning_field_spec(
                (#[trigger] p.structs[j]).fields,
                owning_structs_spec(p),
            ) ==> owning_structs_spec(p).contains(p.structs[j].name),
        forall|j: int, name: Seq<char>|
            0 <= j < p.functions.len()
                && #[trigger] strip_suffix_spec(p.functions[j].name, "_drop"@) == Some(name)
                && #[trigger] crate::resolve::has_struct_spec(p.structs, name)
                ==> owning_structs_spec(p).contains(name),
{
    let ds = p.structs;
    let none = Seq::<Seq<char>>::empty();
    assert(some_structs(none, ds));
    structs_with_drop_are_structs(p.functions, ds, none, 0);
    let first = structs_with_drop_spec(p.functions, ds, none, 0);
    let rounds: int = ds.len() as int + 1;
    rounds_reach_the_end(ds, first, rounds);
    closed_round(ds, owning_rounds_spec(ds, first, rounds), 0);
    assert forall|j: int, name: Seq<char>|
        0 <= j < p.functions.len()
            && #[trigger] strip_suffix_spec(p.functions[j].name, "_drop"@) == Some(name)
            && #[trigger] crate::resolve::has_struct_spec(p.structs, name)
            implies owning_structs_spec(p).contains(name) by {
        rounds_keep(ds, first, rounds, name);
    }
}

/// The structs that a struct holds by value.
pub open spec fn held(ls: Seq<LayoutView>, name: Seq<char>) -> Seq<Seq<char>> {
    layout_of_spec(ls, name, Seq::empty(), 0)
}

/// Whether a chain of `n` steps starts at a struct, each step going on to a
/// struct that is held by value.
pub open spec fn goes_on(ls: Seq<LayoutView>, name: Seq<char>, n: nat) -> bool
    decreases n,
{
    n == 0 || exists|j: int|
        0 <= j < held(ls, name).len() && goes_on(ls, #[trigger] held(ls, name)[j], (n - 1) as nat)
}

/// Whether a struct has no finite size: chains of any length start at it.
pub open spec fn endless(ls: Seq<LayoutView>, name: Seq<char>) -> bool {
    forall|n: nat| #[trigger] goes_on(ls, name, n)
}

proof fn shorter_chain(ls: Seq<LayoutView>, name: Seq<char>, n: nat)
    requires
        goes_on(ls, name, n + 1),
    ensures
        goes_on(ls, name, n),
    decreases n,
{
    if n > 0 {
        let j = choose|j: int|
            0 <= j < held(ls, name).len() && goes_on(ls, #[trigger] held(ls, name)[j], n);
        shorter_chain(ls, held(ls, name)[j], (n - 1) as nat);
        assert(goes_on(ls, held(ls, name)[j], (n - 1) as nat));
    }
}

proof fn much_shorter_chain(ls: Seq<LayoutView>, name: Seq<char>, n: nat, m: nat)
    requires
        goes_on(ls, name, m),
        n <= m,
    ensures
        goes_on(ls, name, n),
    decreases m - n,
{
    if n < m {
        shorter_chain(ls, name, (m - 1) as nat);
        much_shorter_chain(ls, name, n, (m - 1) as nat);
    }
}

proof fn common_end(ls: Seq<LayoutView>, names: Seq<Seq<char>>, i: int) -> (n: nat)
    requires
        0 <= i <= names.len(),
        forall|j: int| i <= j < names.len() ==> !endless(ls, #[trigger] names[j]),
    ensures
        forall|j: int| i <= j < names.len() ==> !goes_on(ls, #[trigger] names[j], n),
    decreases names.len() - i,
{
    if i < names.len() {
        let rest = common_end(ls, names, i + 1);
        assert(!endless(ls, names[i]));
        let mine = choose|n: nat| !goes_on(ls, names[i], n);
        let n = if mine < rest { rest } else { mine };
        assert forall|j: int| i <= j < names.len() implies !goes_on(ls, #[trigger] names[j], n) by {
            if goes_on(ls, names[j], n) {
                if j == i {
                    much_shorter_chain(ls, names[j], mine, n);
                } else {
                    much_shorter_chain(ls, names[j], rest, n);
                }
            }
        }
        n
    } else {
        0
    }
}

proof fn ends_where_held_end(ls: Seq<LayoutView>, name: Seq<char>)
    requires
        forall|j: int| 0 <= j < held(ls, name).len() ==> !endless(ls, #[trigger] held(ls, name)[j]),
    ensures
        !endless(ls, name),
{
    let n = common_end(ls, held(ls, name), 0);
    assert(!goes_on(ls, name, n + 1));
}

proof fn endless_where_held_is(ls: Seq<LayoutView>, name: Seq<char>, j: int)
    requires
        0 <= j < held(ls, name).len(),
        endless(ls, held(ls, name)[j]),
    ensures
        endless(ls, name),
{
    assert forall|n: nat| #[trigger] goes_on(ls, name, n) by {
        if n > 0 {
            assert(goes_on(ls, held(ls, name)[j], (n - 1) as nat));
        }
    }
}

/// Each struct of a path holds the next one, and the last one holds `name`.
spec fn leads_to(ls: Seq<LayoutView>, path: Seq<Seq<char>>, name: Seq<char>) -> bool {
    forall|j: int|
        0 <= j < path.len() ==> held(ls, #[trigger] path[j]).contains(
            if j + 1 < path.len() {
                path[j + 1]
            } else {
                name
            },
        )
}

proof fn closed_path_goes_on(
    ls: Seq<LayoutView>,
    path: Seq<Seq<char>>,
    name: Seq<char>,
    k: int,
    j: int,
    n: nat,
)
    requires
        leads_to(ls, path, name),
        0 <= k <= j < path.len(),
        path[k] == name,
    ensures
        goes_on(ls, path[j], n),
    decreases n,
{
    if n > 0 {
        let next = if j + 1 < path.len() {
            path[j + 1]
        } else {
            name
        };
        assert(held(ls, path[j]).contains(next));
        let at = choose|at: int| 0 <= at < held(ls, path[j]).len() && held(ls, path[j])[at] == next;
        closed_path_goes_on(
            ls,
            path,
            name,
            k,
            if j + 1 < path.len() {
                j + 1
            } else {
                k
            },
            (n - 1) as nat,
        );
        assert(goes_on(ls, held(ls, path[j])[at], (n - 1) as nat));
    }
}

/// The names of a list of layouts.
spec fn layout_names(ls: Seq<LayoutView>) -> Seq<Seq<char>> {
    ls.map_values(|l: LayoutView| l.name)
}

proof fn holder_is_declared(ls: Seq<LayoutView>, name: Seq<char>, found: Seq<Seq<char>>, i: int)
    requires
        0 <= i <= ls.len(),
        layout_of_spec(ls, name, found, i) != found,
    ensures
        layout_names(ls).contains(name),
    decreases ls.len() - i,
{
    if i < ls.len() {
        if ls[i].name == name {
            assert(layout_names(ls)[i] == name);
        } else {
            holder_is_declared(ls, name, found, i + 1);
        }
    }
}

proof fn path_is_short(ls: Seq<LayoutView>, path: Seq<Seq<char>>, name: Seq<char>)
    requires
        leads_to(ls, path, name),
        path.no_duplicates(),
    ensures
        path.len() <= ls.len(),
{
    let all = layout_names(ls);
    path.unique_seq_to_set();
    all.lemma_cardinality_of_set();
    assert(path.to_set().subset_of(all.to_set())) by {
        assert forall|n: Seq<char>| path.to_set().contains(n) implies all.to_set().contains(n) by {
            let j = choose|j: int| 0 <= j < path.len() && path[j] == n;
            assert(held(ls, path[j]).len() > 0);
            holder_is_declared(ls, path[j], Seq::empty(), 0);
        }
    }
    vstd::set_lib::lemma_len_subset(path.to_set(), all.to_set());
}

/// Every struct of a list has a finite size.
spec fn all_end(ls: Seq<LayoutView>, names: Seq<Seq<char>>) -> bool {
    forall|j: int| 0 <= j < names.len() ==> !endless(ls, #[trigger] names[j])
}

proof fn search_finds_endless(
    name: Seq<char>,
    ls: Seq<LayoutView>,
    path: Seq<Seq<char>>,
    clear: Seq<Seq<char>>,
    fuel: int,
)
    requires
        leads_to(ls, path, name),
        path.no_duplicates(),
        all_end(ls, clear),
        fuel + path.len() == ls.len() + 2,
    ensures
        all_end(ls, has_cycle_spec(name, ls, path, clear, fuel).1),
        has_cycle_spec(name, ls, path, clear, fuel).0 == endless(ls, name),
    decreases fuel, 1int, 0int,
{
    path_is_short(ls, path, name);
    if path.contains(name) {
        let k = choose|k: int| 0 <= k < path.len() && path[k] == name;
        assert forall|n: nat| #[trigger] goes_on(ls, name, n) by {
            closed_path_goes_on(ls, path, name, k, k, n);
        }
    } else {
        let longer = path.push(name);
        let inline = held(ls, name);
        assert forall|d: int| 0 <= d < inline.len() implies leads_to(
            ls,
            longer,
            #[trigger] inline[d],
        ) by {
            assert forall|j: int| 0 <= j < longer.len() implies held(
                ls,
                #[trigger] longer[j],
            ).contains(
                if j + 1 < longer.len() {
                    longer[j + 1]
                } else {
                    inline[d]
                },
            ) by {
                if j < path.len() {
                    assert(longer[j] == path[j]);
                    if j + 1 < path.len() {
                        assert(longer[j + 1] == path[j + 1]);
                    }
                }
            }
        }
        search_in_held(name, inline, ls, longer, fuel, clear, 0);
        let r = any_cycle_spec(inline, ls, longer, fuel, false, clear, 0);
        if !r.0 {
            ends_where_held_end(ls, name);
        }
    }
}

proof fn search_in_held(
    name: Seq<char>,
    ds: Seq<Seq<char>>,
    ls: Seq<LayoutView>,
    path: Seq<Seq<char>>,
    fuel: int,
    clear: Seq<Seq<char>>,
    i: int,
)
    requires
        ds == held(ls, name),
        0 <= i <= ds.len(),
        fuel > 0,
        forall|d: int| 0 <= d < ds.len() ==> leads_to(ls, path, #[trigger] ds[d]),
        path.no_duplicates(),
        all_end(ls, clear),
        fuel - 1 + path.len() == ls.len() + 2,
        forall|j: int| 0 <= j < i ==> !endless(ls, #[trigger] ds[j]),
    ensures
        ({
            let r = any_cycle_spec(ds, ls, path, fuel, false, clear, i);
            &&& all_end(ls, r.1)
            &&& r.0 ==> endless(ls, name)
            &&& !r.0 ==> forall|j: int| 0 <= j < ds.len() ==> !endless(ls, #[trigger] ds[j])
        }),
    decreases fuel, 0int, ds.len() - i,
{
    reveal_with_fuel(any_cycle_spec, 2);
    if i < ds.len() {
        let d = ds[i];
        if clear.contains(d) {
            let k = choose|k: int| 0 <= k < clear.len() && clear[k] == d;
            assert(!endless(ls, clear[k]));
            search_in_held(name, ds, ls, path, fuel, clear, i + 1);
        } else {
            search_finds_endless(d, ls, path, clear, fuel - 1);
            let r = has_cycle_spec(d, ls, path, clear, fuel - 1);
            if r.0 {
                endless_where_held_is(ls, name, i);
            } else {
                search_in_held(name, ds, ls, path, fuel, r.1, i + 1);
            }
        }
    }
}

/// The diagnostics, and one for each struct from position `i` on that has no
/// finite size.
pub open spec fn with_endless(
    ds: Seq<StructDeclView>,
    ls: Seq<LayoutView>,
    diags: Seq<DiagnosticView>,
    i: int,
) -> Seq<DiagnosticView>
    decreases ds.len() - i,
{
    if 0 <= i < ds.len() {
        let message = "struct '"@ + ds[i].name
            + "' is recursive (directly or transitively) — contains itself by value, which has infinite size; use `ref T` / `Vec<T>` to break the cycle via the heap"@;
        let diags = if endless(ls, ds[i].name) {
            diags.push(crate::scope::diag_spec(ds[i].span, message))
        } else {
            diags
        };
        with_endless(ds, ls, diags, i + 1)
    } else {
        diags
    }
}

proof fn endless_reported(
    ds: Seq<StructDeclView>,
    ls: Seq<LayoutView>,
    clear: Seq<Seq<char>>,
    diags: Seq<DiagnosticView>,
    i: int,
)
    requires
        0 <= i <= ds.len(),
        all_end(ls, clear),
        ls.len() + 2 <= usize::MAX,
    ensures
        report_recursive_spec(ds, ls, clear, diags, i).1 == with_endless(ds, ls, diags, i),
    decreases ds.len() - i,
{
    if i < ds.len() {
        let d = ds[i];
        if clear.contains(d.name) {
            let k = choose|k: int| 0 <= k < clear.len() && clear[k] == d.name;
            assert(!endless(ls, clear[k]));
            endless_reported(ds, ls, clear, diags, i + 1);
        } else {
            let none = Seq::<Seq<char>>::empty();
            let fuel: int = ls.len() as int + 2;
            search_finds_endless(d.name, ls, none, clear, fuel);
            let r = has_cycle_spec(d.name, ls, none, clear, fuel);
            let next = report_recursive_spec(ds, ls, clear, diags, i);
            let message = "struct '"@ + d.name
                + "' is recursive (directly or transitively) — contains itself by value, which has infinite size; use `ref T` / `Vec<T>` to break the cycle via the heap"@;
            let more = if r.0 {
                diags.push(crate::scope::diag_spec(d.span, message))
            } else {
                diags
            };
            endless_reported(ds, ls, r.1, more, i + 1);
        }
    }
}

/// A struct is reported as recursive exactly where it has no finite size.
pub proof fn recursive_structs_are_reported(ds: Seq<StructDeclView>, diags: Seq<DiagnosticView>)
    requires
        ds.len() + 2 <= usize::MAX,
    ensures
        report_recursive_spec(ds, layouts_spec(ds), Seq::empty(), diags, 0).1
            == with_endless(ds, layouts_spec(ds), diags, 0),
{
    endless_reported(ds, layouts_spec(ds), Seq::empty(), diags, 0);
}

} // verus!
