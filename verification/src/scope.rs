//! Looking up and changing bindings, reporting, and asking outside questions.

use vstd::prelude::*;
use crate::ast::{FloatLit, FloatLitView, Span, Type, TypeView};
use crate::diagnostic::{Diagnostic, DiagnosticView};
use crate::ir::{
    TypedConst, TypedConstView, TypedExpr, TypedExprKind, TypedExprKindView, TypedExprView,
};
use crate::state::{
    Answer, AnswerView, CheckedExpr, CheckedExprView, Context, ContextView, EnumInfo, EnumInfoView,
    Env, EnvView, Query, QueryView, Signature, SignatureView, State, StateView, StructInfo,
    StructInfoView, VarInfo, VarInfoView, dup_scope,
};
use crate::text::{drop_last_of, join, push, replace_at, str_eq, str_less, text};
use crate::types::{deref, is_copy};

verus! {

broadcast use {
    crate::text::group_text_views,
    crate::ast::group_ast_views,
    crate::diagnostic::group_diagnostic_views,
    crate::ir::group_ir_views,
    crate::state::group_state_views,
    crate::state::group_extends,
};

/// What [`struct_info_find`] computes from position `i` on.
pub open spec fn struct_info_find_spec(
    m: Seq<(Seq<char>, StructInfoView)>,
    name: Seq<char>,
    found: Option<StructInfoView>,
    i: int,
) -> Option<StructInfoView>
    decreases m.len() - i,
{
    if 0 <= i < m.len() && !found.is_some() {
        let e = m[i];
        let found = if e.0 == name {
            Some(e.1)
        } else {
            found
        };
        struct_info_find_spec(m, name, found, i + 1)
    } else {
        found
    }
}

pub fn struct_info_find(
    m: &Vec<(String, StructInfo)>,
    name: &str,
    found: Option<StructInfo>,
) -> (r: Option<StructInfo>)
    ensures
        (match &r { Some(v0) => Some(v0@), None => None }) == struct_info_find_spec(
            crate::state::struct_infos_view(m@),
            name@,
            (match &found { Some(v0) => Some(v0@), None => None }),
            0,
        ),
{
    let ghost whole_run = struct_info_find_spec(
        crate::state::struct_infos_view(m@),
        name@,
        (match &found { Some(v0) => Some(v0@), None => None }),
        0,
    );
    let mut found = found;
    let mut i: usize = 0;
    while i < m.len() && !found.is_some()
        invariant
            i <= m.len(),
            struct_info_find_spec(
                crate::state::struct_infos_view(m@),
                name@,
                (match &found { Some(v0) => Some(v0@), None => None }),
                i as int,
            ) == whole_run,
        decreases m.len() - i,
    {
        let e = &m[i];
        found = if str_eq(&e.0, name) {
            Some(e.1.dup())
        } else {
            found
        };
        i += 1;
    }
    found
}

/// What [`struct_info_get`] computes.
pub open spec fn struct_info_get_spec(
    m: Seq<(Seq<char>, StructInfoView)>,
    name: Seq<char>,
) -> Option<StructInfoView>
{
    struct_info_find_spec(m, name, None, 0)
}

/// The value of a name.
pub fn struct_info_get(m: &Vec<(String, StructInfo)>, name: &str) -> (r: Option<StructInfo>)
    ensures
        (match &r { Some(v0) => Some(v0@), None => None }) == struct_info_get_spec(
            crate::state::struct_infos_view(m@),
            name@,
        ),
{
    struct_info_find(m, name, None)
}

/// What [`struct_info_has`] computes.
pub open spec fn struct_info_has_spec(m: Seq<(Seq<char>, StructInfoView)>, name: Seq<char>) -> bool
{
    struct_info_get_spec(m, name).is_some()
}

/// Whether a name has a value.
pub fn struct_info_has(m: &Vec<(String, StructInfo)>, name: &str) -> (r: bool)
    ensures
        r == struct_info_has_spec(crate::state::struct_infos_view(m@), name@),
{
    struct_info_get(m, name).is_some()
}

/// What [`struct_info_place`] computes from position `i` on.
pub open spec fn struct_info_place_spec(
    m: Seq<(Seq<char>, StructInfoView)>,
    name: Seq<char>,
    v: StructInfoView,
    out: Seq<(Seq<char>, StructInfoView)>,
    placed: bool,
    i: int,
) -> (Seq<(Seq<char>, StructInfoView)>, bool)
    decreases m.len() - i,
{
    if 0 <= i < m.len() {
        let e = m[i];
        let (out, placed) = if placed {
            (out.push((e.0, e.1)), true)
        } else if e.0 == name {
            (out.push((name, v)), true)
        } else if crate::text::str_less_spec(name, e.0) {
            (out.push((name, v)).push((e.0, e.1)), true)
        } else {
            (out.push((e.0, e.1)), false)
        };
        struct_info_place_spec(m, name, v, out, placed, i + 1)
    } else {
        (out, placed)
    }
}

pub fn struct_info_place(
    m: &Vec<(String, StructInfo)>,
    name: &str,
    v: &StructInfo,
    out: Vec<(String, StructInfo)>,
    placed: bool,
) -> (r: (Vec<(String, StructInfo)>, bool))
    ensures
        (crate::state::struct_infos_view(r.0@), r.1) == struct_info_place_spec(
            crate::state::struct_infos_view(m@),
            name@,
            v@,
            crate::state::struct_infos_view(out@),
            placed,
            0,
        ),
{
    let ghost whole_run = struct_info_place_spec(
        crate::state::struct_infos_view(m@),
        name@,
        v@,
        crate::state::struct_infos_view(out@),
        placed,
        0,
    );
    let mut out = out;
    let mut placed = placed;
    let mut i: usize = 0;
    while i < m.len()
        invariant
            i <= m.len(),
            struct_info_place_spec(
                crate::state::struct_infos_view(m@),
                name@,
                v@,
                crate::state::struct_infos_view(out@),
                placed,
                i as int,
            ) == whole_run,
        decreases m.len() - i,
    {
        let e = &m[i];
        let next = if placed {
            (push(out, (e.0.clone(), e.1.dup())), true)
        } else if str_eq(&e.0, name) {
            (push(out, (text(name), v.dup())), true)
        } else if str_less(name, &e.0) {
            (push(push(out, (text(name), v.dup())), (e.0.clone(), e.1.dup())), true)
        } else {
            (push(out, (e.0.clone(), e.1.dup())), false)
        };
        out = next.0;
        placed = next.1;
        i += 1;
    }
    (out, placed)
}

/// What [`struct_info_put`] computes.
pub open spec fn struct_info_put_spec(
    m: Seq<(Seq<char>, StructInfoView)>,
    name: Seq<char>,
    v: StructInfoView,
) -> Seq<(Seq<char>, StructInfoView)>
{
    let (out, placed) = struct_info_place_spec(m, name, v, Seq::empty(), false, 0);
    if placed {
        out
    } else {
        out.push((name, v))
    }
}

/// The map, ordered by name, with a name's value set.
pub fn struct_info_put(
    m: &Vec<(String, StructInfo)>,
    name: &str,
    v: &StructInfo,
) -> (r: Vec<(String, StructInfo)>)
    ensures
        crate::state::struct_infos_view(r@) == struct_info_put_spec(
            crate::state::struct_infos_view(m@),
            name@,
            v@,
        ),
{
    let (out, placed) = struct_info_place(m, name, v, Vec::new(), false);
    if placed {
        out
    } else {
        push(out, (text(name), v.dup()))
    }
}

/// What [`enum_info_find`] computes from position `i` on.
pub open spec fn enum_info_find_spec(
    m: Seq<(Seq<char>, EnumInfoView)>,
    name: Seq<char>,
    found: Option<EnumInfoView>,
    i: int,
) -> Option<EnumInfoView>
    decreases m.len() - i,
{
    if 0 <= i < m.len() && !found.is_some() {
        let e = m[i];
        let found = if e.0 == name {
            Some(e.1)
        } else {
            found
        };
        enum_info_find_spec(m, name, found, i + 1)
    } else {
        found
    }
}

pub fn enum_info_find(
    m: &Vec<(String, EnumInfo)>,
    name: &str,
    found: Option<EnumInfo>,
) -> (r: Option<EnumInfo>)
    ensures
        (match &r { Some(v0) => Some(v0@), None => None }) == enum_info_find_spec(
            crate::state::enum_infos_view(m@),
            name@,
            (match &found { Some(v0) => Some(v0@), None => None }),
            0,
        ),
{
    let ghost whole_run = enum_info_find_spec(
        crate::state::enum_infos_view(m@),
        name@,
        (match &found { Some(v0) => Some(v0@), None => None }),
        0,
    );
    let mut found = found;
    let mut i: usize = 0;
    while i < m.len() && !found.is_some()
        invariant
            i <= m.len(),
            enum_info_find_spec(
                crate::state::enum_infos_view(m@),
                name@,
                (match &found { Some(v0) => Some(v0@), None => None }),
                i as int,
            ) == whole_run,
        decreases m.len() - i,
    {
        let e = &m[i];
        found = if str_eq(&e.0, name) {
            Some(e.1.dup())
        } else {
            found
        };
        i += 1;
    }
    found
}

/// What [`enum_info_get`] computes.
pub open spec fn enum_info_get_spec(
    m: Seq<(Seq<char>, EnumInfoView)>,
    name: Seq<char>,
) -> Option<EnumInfoView>
{
    enum_info_find_spec(m, name, None, 0)
}

/// The value of a name.
pub fn enum_info_get(m: &Vec<(String, EnumInfo)>, name: &str) -> (r: Option<EnumInfo>)
    ensures
        (match &r { Some(v0) => Some(v0@), None => None }) == enum_info_get_spec(
            crate::state::enum_infos_view(m@),
            name@,
        ),
{
    enum_info_find(m, name, None)
}

/// What [`enum_info_has`] computes.
pub open spec fn enum_info_has_spec(m: Seq<(Seq<char>, EnumInfoView)>, name: Seq<char>) -> bool
{
    enum_info_get_spec(m, name).is_some()
}

/// Whether a name has a value.
pub fn enum_info_has(m: &Vec<(String, EnumInfo)>, name: &str) -> (r: bool)
    ensures
        r == enum_info_has_spec(crate::state::enum_infos_view(m@), name@),
{
    enum_info_get(m, name).is_some()
}

/// What [`enum_info_place`] computes from position `i` on.
pub open spec fn enum_info_place_spec(
    m: Seq<(Seq<char>, EnumInfoView)>,
    name: Seq<char>,
    v: EnumInfoView,
    out: Seq<(Seq<char>, EnumInfoView)>,
    placed: bool,
    i: int,
) -> (Seq<(Seq<char>, EnumInfoView)>, bool)
    decreases m.len() - i,
{
    if 0 <= i < m.len() {
        let e = m[i];
        let (out, placed) = if placed {
            (out.push((e.0, e.1)), true)
        } else if e.0 == name {
            (out.push((name, v)), true)
        } else if crate::text::str_less_spec(name, e.0) {
            (out.push((name, v)).push((e.0, e.1)), true)
        } else {
            (out.push((e.0, e.1)), false)
        };
        enum_info_place_spec(m, name, v, out, placed, i + 1)
    } else {
        (out, placed)
    }
}

pub fn enum_info_place(
    m: &Vec<(String, EnumInfo)>,
    name: &str,
    v: &EnumInfo,
    out: Vec<(String, EnumInfo)>,
    placed: bool,
) -> (r: (Vec<(String, EnumInfo)>, bool))
    ensures
        (crate::state::enum_infos_view(r.0@), r.1) == enum_info_place_spec(
            crate::state::enum_infos_view(m@),
            name@,
            v@,
            crate::state::enum_infos_view(out@),
            placed,
            0,
        ),
{
    let ghost whole_run = enum_info_place_spec(
        crate::state::enum_infos_view(m@),
        name@,
        v@,
        crate::state::enum_infos_view(out@),
        placed,
        0,
    );
    let mut out = out;
    let mut placed = placed;
    let mut i: usize = 0;
    while i < m.len()
        invariant
            i <= m.len(),
            enum_info_place_spec(
                crate::state::enum_infos_view(m@),
                name@,
                v@,
                crate::state::enum_infos_view(out@),
                placed,
                i as int,
            ) == whole_run,
        decreases m.len() - i,
    {
        let e = &m[i];
        let next = if placed {
            (push(out, (e.0.clone(), e.1.dup())), true)
        } else if str_eq(&e.0, name) {
            (push(out, (text(name), v.dup())), true)
        } else if str_less(name, &e.0) {
            (push(push(out, (text(name), v.dup())), (e.0.clone(), e.1.dup())), true)
        } else {
            (push(out, (e.0.clone(), e.1.dup())), false)
        };
        out = next.0;
        placed = next.1;
        i += 1;
    }
    (out, placed)
}

/// What [`enum_info_put`] computes.
pub open spec fn enum_info_put_spec(
    m: Seq<(Seq<char>, EnumInfoView)>,
    name: Seq<char>,
    v: EnumInfoView,
) -> Seq<(Seq<char>, EnumInfoView)>
{
    let (out, placed) = enum_info_place_spec(m, name, v, Seq::empty(), false, 0);
    if placed {
        out
    } else {
        out.push((name, v))
    }
}

/// The map, ordered by name, with a name's value set.
pub fn enum_info_put(
    m: &Vec<(String, EnumInfo)>,
    name: &str,
    v: &EnumInfo,
) -> (r: Vec<(String, EnumInfo)>)
    ensures
        crate::state::enum_infos_view(r@) == enum_info_put_spec(
            crate::state::enum_infos_view(m@),
            name@,
            v@,
        ),
{
    let (out, placed) = enum_info_place(m, name, v, Vec::new(), false);
    if placed {
        out
    } else {
        push(out, (text(name), v.dup()))
    }
}

/// What [`var_info_find`] computes from position `i` on.
pub open spec fn var_info_find_spec(
    m: Seq<(Seq<char>, VarInfoView)>,
    name: Seq<char>,
    found: Option<VarInfoView>,
    i: int,
) -> Option<VarInfoView>
    decreases m.len() - i,
{
    if 0 <= i < m.len() && !found.is_some() {
        let e = m[i];
        let found = if e.0 == name {
            Some(e.1)
        } else {
            found
        };
        var_info_find_spec(m, name, found, i + 1)
    } else {
        found
    }
}

pub fn var_info_find(
    m: &Vec<(String, VarInfo)>,
    name: &str,
    found: Option<VarInfo>,
) -> (r: Option<VarInfo>)
    ensures
        (match &r { Some(v0) => Some(v0@), None => None }) == var_info_find_spec(
            crate::state::scope_view(m@),
            name@,
            (match &found { Some(v0) => Some(v0@), None => None }),
            0,
        ),
{
    let ghost whole_run = var_info_find_spec(
        crate::state::scope_view(m@),
        name@,
        (match &found { Some(v0) => Some(v0@), None => None }),
        0,
    );
    let mut found = found;
    let mut i: usize = 0;
    while i < m.len() && !found.is_some()
        invariant
            i <= m.len(),
            var_info_find_spec(
                crate::state::scope_view(m@),
                name@,
                (match &found { Some(v0) => Some(v0@), None => None }),
                i as int,
            ) == whole_run,
        decreases m.len() - i,
    {
        let e = &m[i];
        found = if str_eq(&e.0, name) {
            Some(e.1.dup())
        } else {
            found
        };
        i += 1;
    }
    found
}

/// What [`var_info_get`] computes.
pub open spec fn var_info_get_spec(
    m: Seq<(Seq<char>, VarInfoView)>,
    name: Seq<char>,
) -> Option<VarInfoView>
{
    var_info_find_spec(m, name, None, 0)
}

/// The value of a name.
pub fn var_info_get(m: &Vec<(String, VarInfo)>, name: &str) -> (r: Option<VarInfo>)
    ensures
        (match &r { Some(v0) => Some(v0@), None => None }) == var_info_get_spec(
            crate::state::scope_view(m@),
            name@,
        ),
{
    var_info_find(m, name, None)
}

/// What [`var_info_has`] computes.
pub open spec fn var_info_has_spec(m: Seq<(Seq<char>, VarInfoView)>, name: Seq<char>) -> bool
{
    var_info_get_spec(m, name).is_some()
}

/// Whether a name has a value.
pub fn var_info_has(m: &Vec<(String, VarInfo)>, name: &str) -> (r: bool)
    ensures
        r == var_info_has_spec(crate::state::scope_view(m@), name@),
{
    var_info_get(m, name).is_some()
}

/// What [`var_info_place`] computes from position `i` on.
pub open spec fn var_info_place_spec(
    m: Seq<(Seq<char>, VarInfoView)>,
    name: Seq<char>,
    v: VarInfoView,
    out: Seq<(Seq<char>, VarInfoView)>,
    placed: bool,
    i: int,
) -> (Seq<(Seq<char>, VarInfoView)>, bool)
    decreases m.len() - i,
{
    if 0 <= i < m.len() {
        let e = m[i];
        let (out, placed) = if placed {
            (out.push((e.0, e.1)), true)
        } else if e.0 == name {
            (out.push((name, v)), true)
        } else if crate::text::str_less_spec(name, e.0) {
            (out.push((name, v)).push((e.0, e.1)), true)
        } else {
            (out.push((e.0, e.1)), false)
        };
        var_info_place_spec(m, name, v, out, placed, i + 1)
    } else {
        (out, placed)
    }
}

pub fn var_info_place(
    m: &Vec<(String, VarInfo)>,
    name: &str,
    v: &VarInfo,
    out: Vec<(String, VarInfo)>,
    placed: bool,
) -> (r: (Vec<(String, VarInfo)>, bool))
    ensures
        (crate::state::scope_view(r.0@), r.1) == var_info_place_spec(
            crate::state::scope_view(m@),
            name@,
            v@,
            crate::state::scope_view(out@),
            placed,
            0,
        ),
{
    let ghost whole_run = var_info_place_spec(
        crate::state::scope_view(m@),
        name@,
        v@,
        crate::state::scope_view(out@),
        placed,
        0,
    );
    let mut out = out;
    let mut placed = placed;
    let mut i: usize = 0;
    while i < m.len()
        invariant
            i <= m.len(),
            var_info_place_spec(
                crate::state::scope_view(m@),
                name@,
                v@,
                crate::state::scope_view(out@),
                placed,
                i as int,
            ) == whole_run,
        decreases m.len() - i,
    {
        let e = &m[i];
        let next = if placed {
            (push(out, (e.0.clone(), e.1.dup())), true)
        } else if str_eq(&e.0, name) {
            (push(out, (text(name), v.dup())), true)
        } else if str_less(name, &e.0) {
            (push(push(out, (text(name), v.dup())), (e.0.clone(), e.1.dup())), true)
        } else {
            (push(out, (e.0.clone(), e.1.dup())), false)
        };
        out = next.0;
        placed = next.1;
        i += 1;
    }
    (out, placed)
}

/// What [`var_info_put`] computes.
pub open spec fn var_info_put_spec(
    m: Seq<(Seq<char>, VarInfoView)>,
    name: Seq<char>,
    v: VarInfoView,
) -> Seq<(Seq<char>, VarInfoView)>
{
    let (out, placed) = var_info_place_spec(m, name, v, Seq::empty(), false, 0);
    if placed {
        out
    } else {
        out.push((name, v))
    }
}

/// The map, ordered by name, with a name's value set.
pub fn var_info_put(
    m: &Vec<(String, VarInfo)>,
    name: &str,
    v: &VarInfo,
) -> (r: Vec<(String, VarInfo)>)
    ensures
        crate::state::scope_view(r@) == var_info_put_spec(crate::state::scope_view(m@), name@, v@),
{
    let (out, placed) = var_info_place(m, name, v, Vec::new(), false);
    if placed {
        out
    } else {
        push(out, (text(name), v.dup()))
    }
}

/// What [`signature_find`] computes from position `i` on.
pub open spec fn signature_find_spec(
    m: Seq<(Seq<char>, SignatureView)>,
    name: Seq<char>,
    found: Option<SignatureView>,
    i: int,
) -> Option<SignatureView>
    decreases m.len() - i,
{
    if 0 <= i < m.len() && !found.is_some() {
        let e = m[i];
        let found = if e.0 == name {
            Some(e.1)
        } else {
            found
        };
        signature_find_spec(m, name, found, i + 1)
    } else {
        found
    }
}

pub fn signature_find(
    m: &Vec<(String, Signature)>,
    name: &str,
    found: Option<Signature>,
) -> (r: Option<Signature>)
    ensures
        (match &r { Some(v0) => Some(v0@), None => None }) == signature_find_spec(
            crate::state::signatures_view(m@),
            name@,
            (match &found { Some(v0) => Some(v0@), None => None }),
            0,
        ),
{
    let ghost whole_run = signature_find_spec(
        crate::state::signatures_view(m@),
        name@,
        (match &found { Some(v0) => Some(v0@), None => None }),
        0,
    );
    let mut found = found;
    let mut i: usize = 0;
    while i < m.len() && !found.is_some()
        invariant
            i <= m.len(),
            signature_find_spec(
                crate::state::signatures_view(m@),
                name@,
                (match &found { Some(v0) => Some(v0@), None => None }),
                i as int,
            ) == whole_run,
        decreases m.len() - i,
    {
        let e = &m[i];
        found = if str_eq(&e.0, name) {
            Some(e.1.dup())
        } else {
            found
        };
        i += 1;
    }
    found
}

/// What [`signature_get`] computes.
pub open spec fn signature_get_spec(
    m: Seq<(Seq<char>, SignatureView)>,
    name: Seq<char>,
) -> Option<SignatureView>
{
    signature_find_spec(m, name, None, 0)
}

/// The value of a name.
pub fn signature_get(m: &Vec<(String, Signature)>, name: &str) -> (r: Option<Signature>)
    ensures
        (match &r { Some(v0) => Some(v0@), None => None }) == signature_get_spec(
            crate::state::signatures_view(m@),
            name@,
        ),
{
    signature_find(m, name, None)
}

/// What [`signature_has`] computes.
pub open spec fn signature_has_spec(m: Seq<(Seq<char>, SignatureView)>, name: Seq<char>) -> bool
{
    signature_get_spec(m, name).is_some()
}

/// Whether a name has a value.
pub fn signature_has(m: &Vec<(String, Signature)>, name: &str) -> (r: bool)
    ensures
        r == signature_has_spec(crate::state::signatures_view(m@), name@),
{
    signature_get(m, name).is_some()
}

/// What [`signature_place`] computes from position `i` on.
pub open spec fn signature_place_spec(
    m: Seq<(Seq<char>, SignatureView)>,
    name: Seq<char>,
    v: SignatureView,
    out: Seq<(Seq<char>, SignatureView)>,
    placed: bool,
    i: int,
) -> (Seq<(Seq<char>, SignatureView)>, bool)
    decreases m.len() - i,
{
    if 0 <= i < m.len() {
        let e = m[i];
        let (out, placed) = if placed {
            (out.push((e.0, e.1)), true)
        } else if e.0 == name {
            (out.push((name, v)), true)
        } else if crate::text::str_less_spec(name, e.0) {
            (out.push((name, v)).push((e.0, e.1)), true)
        } else {
            (out.push((e.0, e.1)), false)
        };
        signature_place_spec(m, name, v, out, placed, i + 1)
    } else {
        (out, placed)
    }
}

pub fn signature_place(
    m: &Vec<(String, Signature)>,
    name: &str,
    v: &Signature,
    out: Vec<(String, Signature)>,
    placed: bool,
) -> (r: (Vec<(String, Signature)>, bool))
    ensures
        (crate::state::signatures_view(r.0@), r.1) == signature_place_spec(
            crate::state::signatures_view(m@),
            name@,
            v@,
            crate::state::signatures_view(out@),
            placed,
            0,
        ),
{
    let ghost whole_run = signature_place_spec(
        crate::state::signatures_view(m@),
        name@,
        v@,
        crate::state::signatures_view(out@),
        placed,
        0,
    );
    let mut out = out;
    let mut placed = placed;
    let mut i: usize = 0;
    while i < m.len()
        invariant
            i <= m.len(),
            signature_place_spec(
                crate::state::signatures_view(m@),
                name@,
                v@,
                crate::state::signatures_view(out@),
                placed,
                i as int,
            ) == whole_run,
        decreases m.len() - i,
    {
        let e = &m[i];
        let next = if placed {
            (push(out, (e.0.clone(), e.1.dup())), true)
        } else if str_eq(&e.0, name) {
            (push(out, (text(name), v.dup())), true)
        } else if str_less(name, &e.0) {
            (push(push(out, (text(name), v.dup())), (e.0.clone(), e.1.dup())), true)
        } else {
            (push(out, (e.0.clone(), e.1.dup())), false)
        };
        out = next.0;
        placed = next.1;
        i += 1;
    }
    (out, placed)
}

/// What [`signature_put`] computes.
pub open spec fn signature_put_spec(
    m: Seq<(Seq<char>, SignatureView)>,
    name: Seq<char>,
    v: SignatureView,
) -> Seq<(Seq<char>, SignatureView)>
{
    let (out, placed) = signature_place_spec(m, name, v, Seq::empty(), false, 0);
    if placed {
        out
    } else {
        out.push((name, v))
    }
}

/// The map, ordered by name, with a name's value set.
pub fn signature_put(
    m: &Vec<(String, Signature)>,
    name: &str,
    v: &Signature,
) -> (r: Vec<(String, Signature)>)
    ensures
        crate::state::signatures_view(r@) == signature_put_spec(
            crate::state::signatures_view(m@),
            name@,
            v@,
        ),
{
    let (out, placed) = signature_place(m, name, v, Vec::new(), false);
    if placed {
        out
    } else {
        push(out, (text(name), v.dup()))
    }
}

/// What [`moved_field_find`] computes from position `i` on.
pub open spec fn moved_field_find_spec(
    m: Seq<(Seq<char>, Span)>,
    name: Seq<char>,
    found: Option<Span>,
    i: int,
) -> Option<Span>
    decreases m.len() - i,
{
    if 0 <= i < m.len() && !found.is_some() {
        let e = m[i];
        let found = if e.0 == name {
            Some(e.1)
        } else {
            found
        };
        moved_field_find_spec(m, name, found, i + 1)
    } else {
        found
    }
}

pub fn moved_field_find(
    m: &Vec<(String, Span)>,
    name: &str,
    found: Option<Span>,
) -> (r: Option<Span>)
    ensures
        r == moved_field_find_spec(crate::state::moved_fields_view(m@), name@, found, 0),
{
    let ghost whole_run = moved_field_find_spec(
        crate::state::moved_fields_view(m@),
        name@,
        found,
        0,
    );
    let mut found = found;
    let mut i: usize = 0;
    while i < m.len() && !found.is_some()
        invariant
            i <= m.len(),
            moved_field_find_spec(
                crate::state::moved_fields_view(m@),
                name@,
                found,
                i as int,
            ) == whole_run,
        decreases m.len() - i,
    {
        let e = &m[i];
        found = if str_eq(&e.0, name) {
            Some(e.1)
        } else {
            found
        };
        i += 1;
    }
    found
}

/// What [`moved_field_get`] computes.
pub open spec fn moved_field_get_spec(m: Seq<(Seq<char>, Span)>, name: Seq<char>) -> Option<Span>
{
    moved_field_find_spec(m, name, None, 0)
}

/// The value of a name.
pub fn moved_field_get(m: &Vec<(String, Span)>, name: &str) -> (r: Option<Span>)
    ensures
        r == moved_field_get_spec(crate::state::moved_fields_view(m@), name@),
{
    moved_field_find(m, name, None)
}

/// What [`moved_field_has`] computes.
pub open spec fn moved_field_has_spec(m: Seq<(Seq<char>, Span)>, name: Seq<char>) -> bool
{
    moved_field_get_spec(m, name).is_some()
}

/// Whether a name has a value.
pub fn moved_field_has(m: &Vec<(String, Span)>, name: &str) -> (r: bool)
    ensures
        r == moved_field_has_spec(crate::state::moved_fields_view(m@), name@),
{
    moved_field_get(m, name).is_some()
}

/// What [`moved_field_place`] computes from position `i` on.
pub open spec fn moved_field_place_spec(
    m: Seq<(Seq<char>, Span)>,
    name: Seq<char>,
    v: Span,
    out: Seq<(Seq<char>, Span)>,
    placed: bool,
    i: int,
) -> (Seq<(Seq<char>, Span)>, bool)
    decreases m.len() - i,
{
    if 0 <= i < m.len() {
        let e = m[i];
        let (out, placed) = if placed {
            (out.push((e.0, e.1)), true)
        } else if e.0 == name {
            (out.push((name, v)), true)
        } else if crate::text::str_less_spec(name, e.0) {
            (out.push((name, v)).push((e.0, e.1)), true)
        } else {
            (out.push((e.0, e.1)), false)
        };
        moved_field_place_spec(m, name, v, out, placed, i + 1)
    } else {
        (out, placed)
    }
}

pub fn moved_field_place(
    m: &Vec<(String, Span)>,
    name: &str,
    v: Span,
    out: Vec<(String, Span)>,
    placed: bool,
) -> (r: (Vec<(String, Span)>, bool))
    ensures
        (crate::state::moved_fields_view(r.0@), r.1) == moved_field_place_spec(
            crate::state::moved_fields_view(m@),
            name@,
            v,
            crate::state::moved_fields_view(out@),
            placed,
            0,
        ),
{
    let ghost whole_run = moved_field_place_spec(
        crate::state::moved_fields_view(m@),
        name@,
        v,
        crate::state::moved_fields_view(out@),
        placed,
        0,
    );
    let mut out = out;
    let mut placed = placed;
    let mut i: usize = 0;
    while i < m.len()
        invariant
            i <= m.len(),
            moved_field_place_spec(
                crate::state::moved_fields_view(m@),
                name@,
                v,
                crate::state::moved_fields_view(out@),
                placed,
                i as int,
            ) == whole_run,
        decreases m.len() - i,
    {
        let e = &m[i];
        let next = if placed {
            (push(out, (e.0.clone(), e.1)), true)
        } else if str_eq(&e.0, name) {
            (push(out, (text(name), v)), true)
        } else if str_less(name, &e.0) {
            (push(push(out, (text(name), v)), (e.0.clone(), e.1)), true)
        } else {
            (push(out, (e.0.clone(), e.1)), false)
        };
        out = next.0;
        placed = next.1;
        i += 1;
    }
    (out, placed)
}

/// What [`moved_field_put`] computes.
pub open spec fn moved_field_put_spec(
    m: Seq<(Seq<char>, Span)>,
    name: Seq<char>,
    v: Span,
) -> Seq<(Seq<char>, Span)>
{
    let (out, placed) = moved_field_place_spec(m, name, v, Seq::empty(), false, 0);
    if placed {
        out
    } else {
        out.push((name, v))
    }
}

/// The map, ordered by name, with a name's value set.
pub fn moved_field_put(m: &Vec<(String, Span)>, name: &str, v: Span) -> (r: Vec<(String, Span)>)
    ensures
        crate::state::moved_fields_view(r@) == moved_field_put_spec(
            crate::state::moved_fields_view(m@),
            name@,
            v,
        ),
{
    let (out, placed) = moved_field_place(m, name, v, Vec::new(), false);
    if placed {
        out
    } else {
        push(out, (text(name), v))
    }
}

/// What [`version_find`] computes from position `i` on.
pub open spec fn version_find_spec(
    m: Seq<(Seq<char>, u32)>,
    name: Seq<char>,
    found: Option<u32>,
    i: int,
) -> Option<u32>
    decreases m.len() - i,
{
    if 0 <= i < m.len() && !found.is_some() {
        let e = m[i];
        let found = if e.0 == name {
            Some(e.1)
        } else {
            found
        };
        version_find_spec(m, name, found, i + 1)
    } else {
        found
    }
}

pub fn version_find(m: &Vec<(String, u32)>, name: &str, found: Option<u32>) -> (r: Option<u32>)
    ensures
        r == version_find_spec(crate::ir::numbered_names_view(m@), name@, found, 0),
{
    let ghost whole_run = version_find_spec(crate::ir::numbered_names_view(m@), name@, found, 0);
    let mut found = found;
    let mut i: usize = 0;
    while i < m.len() && !found.is_some()
        invariant
            i <= m.len(),
            version_find_spec(
                crate::ir::numbered_names_view(m@),
                name@,
                found,
                i as int,
            ) == whole_run,
        decreases m.len() - i,
    {
        let e = &m[i];
        found = if str_eq(&e.0, name) {
            Some(e.1)
        } else {
            found
        };
        i += 1;
    }
    found
}

/// What [`version_get`] computes.
pub open spec fn version_get_spec(m: Seq<(Seq<char>, u32)>, name: Seq<char>) -> Option<u32>
{
    version_find_spec(m, name, None, 0)
}

/// The value of a name.
pub fn version_get(m: &Vec<(String, u32)>, name: &str) -> (r: Option<u32>)
    ensures
        r == version_get_spec(crate::ir::numbered_names_view(m@), name@),
{
    version_find(m, name, None)
}

/// What [`version_has`] computes.
pub open spec fn version_has_spec(m: Seq<(Seq<char>, u32)>, name: Seq<char>) -> bool
{
    version_get_spec(m, name).is_some()
}

/// Whether a name has a value.
pub fn version_has(m: &Vec<(String, u32)>, name: &str) -> (r: bool)
    ensures
        r == version_has_spec(crate::ir::numbered_names_view(m@), name@),
{
    version_get(m, name).is_some()
}

/// What [`version_place`] computes from position `i` on.
pub open spec fn version_place_spec(
    m: Seq<(Seq<char>, u32)>,
    name: Seq<char>,
    v: u32,
    out: Seq<(Seq<char>, u32)>,
    placed: bool,
    i: int,
) -> (Seq<(Seq<char>, u32)>, bool)
    decreases m.len() - i,
{
    if 0 <= i < m.len() {
        let e = m[i];
        let (out, placed) = if placed {
            (out.push((e.0, e.1)), true)
        } else if e.0 == name {
            (out.push((name, v)), true)
        } else if crate::text::str_less_spec(name, e.0) {
            (out.push((name, v)).push((e.0, e.1)), true)
        } else {
            (out.push((e.0, e.1)), false)
        };
        version_place_spec(m, name, v, out, placed, i + 1)
    } else {
        (out, placed)
    }
}

pub fn version_place(
    m: &Vec<(String, u32)>,
    name: &str,
    v: u32,
    out: Vec<(String, u32)>,
    placed: bool,
) -> (r: (Vec<(String, u32)>, bool))
    ensures
        (crate::ir::numbered_names_view(r.0@), r.1) == version_place_spec(
            crate::ir::numbered_names_view(m@),
            name@,
            v,
            crate::ir::numbered_names_view(out@),
            placed,
            0,
        ),
{
    let ghost whole_run = version_place_spec(
        crate::ir::numbered_names_view(m@),
        name@,
        v,
        crate::ir::numbered_names_view(out@),
        placed,
        0,
    );
    let mut out = out;
    let mut placed = placed;
    let mut i: usize = 0;
    while i < m.len()
        invariant
            i <= m.len(),
            version_place_spec(
                crate::ir::numbered_names_view(m@),
                name@,
                v,
                crate::ir::numbered_names_view(out@),
                placed,
                i as int,
            ) == whole_run,
        decreases m.len() - i,
    {
        let e = &m[i];
        let next = if placed {
            (push(out, (e.0.clone(), e.1)), true)
        } else if str_eq(&e.0, name) {
            (push(out, (text(name), v)), true)
        } else if str_less(name, &e.0) {
            (push(push(out, (text(name), v)), (e.0.clone(), e.1)), true)
        } else {
            (push(out, (e.0.clone(), e.1)), false)
        };
        out = next.0;
        placed = next.1;
        i += 1;
    }
    (out, placed)
}

/// What [`version_put`] computes.
pub open spec fn version_put_spec(
    m: Seq<(Seq<char>, u32)>,
    name: Seq<char>,
    v: u32,
) -> Seq<(Seq<char>, u32)>
{
    let (out, placed) = version_place_spec(m, name, v, Seq::empty(), false, 0);
    if placed {
        out
    } else {
        out.push((name, v))
    }
}

/// The map, ordered by name, with a name's value set.
pub fn version_put(m: &Vec<(String, u32)>, name: &str, v: u32) -> (r: Vec<(String, u32)>)
    ensures
        crate::ir::numbered_names_view(r@) == version_put_spec(
            crate::ir::numbered_names_view(m@),
            name@,
            v,
        ),
{
    let (out, placed) = version_place(m, name, v, Vec::new(), false);
    if placed {
        out
    } else {
        push(out, (text(name), v))
    }
}

/// What [`named_type_find`] computes from position `i` on.
pub open spec fn named_type_find_spec(
    m: Seq<(Seq<char>, TypeView)>,
    name: Seq<char>,
    found: Option<TypeView>,
    i: int,
) -> Option<TypeView>
    decreases m.len() - i,
{
    if 0 <= i < m.len() && !found.is_some() {
        let e = m[i];
        let found = if e.0 == name {
            Some(e.1)
        } else {
            found
        };
        named_type_find_spec(m, name, found, i + 1)
    } else {
        found
    }
}

pub fn named_type_find(
    m: &Vec<(String, Type)>,
    name: &str,
    found: Option<Type>,
) -> (r: Option<Type>)
    ensures
        (match &r { Some(v0) => Some(v0@), None => None }) == named_type_find_spec(
            crate::ir::named_types_view(m@),
            name@,
            (match &found { Some(v0) => Some(v0@), None => None }),
            0,
        ),
{
    let ghost whole_run = named_type_find_spec(
        crate::ir::named_types_view(m@),
        name@,
        (match &found { Some(v0) => Some(v0@), None => None }),
        0,
    );
    let mut found = found;
    let mut i: usize = 0;
    while i < m.len() && !found.is_some()
        invariant
            i <= m.len(),
            named_type_find_spec(
                crate::ir::named_types_view(m@),
                name@,
                (match &found { Some(v0) => Some(v0@), None => None }),
                i as int,
            ) == whole_run,
        decreases m.len() - i,
    {
        let e = &m[i];
        found = if str_eq(&e.0, name) {
            Some(e.1.dup())
        } else {
            found
        };
        i += 1;
    }
    found
}

/// What [`named_type_get`] computes.
pub open spec fn named_type_get_spec(
    m: Seq<(Seq<char>, TypeView)>,
    name: Seq<char>,
) -> Option<TypeView>
{
    named_type_find_spec(m, name, None, 0)
}

/// The value of a name.
pub fn named_type_get(m: &Vec<(String, Type)>, name: &str) -> (r: Option<Type>)
    ensures
        (match &r { Some(v0) => Some(v0@), None => None }) == named_type_get_spec(
            crate::ir::named_types_view(m@),
            name@,
        ),
{
    named_type_find(m, name, None)
}

/// What [`named_type_has`] computes.
pub open spec fn named_type_has_spec(m: Seq<(Seq<char>, TypeView)>, name: Seq<char>) -> bool
{
    named_type_get_spec(m, name).is_some()
}

/// Whether a name has a value.
pub fn named_type_has(m: &Vec<(String, Type)>, name: &str) -> (r: bool)
    ensures
        r == named_type_has_spec(crate::ir::named_types_view(m@), name@),
{
    named_type_get(m, name).is_some()
}

/// What [`named_type_place`] computes from position `i` on.
pub open spec fn named_type_place_spec(
    m: Seq<(Seq<char>, TypeView)>,
    name: Seq<char>,
    v: TypeView,
    out: Seq<(Seq<char>, TypeView)>,
    placed: bool,
    i: int,
) -> (Seq<(Seq<char>, TypeView)>, bool)
    decreases m.len() - i,
{
    if 0 <= i < m.len() {
        let e = m[i];
        let (out, placed) = if placed {
            (out.push((e.0, e.1)), true)
        } else if e.0 == name {
            (out.push((name, v)), true)
        } else if crate::text::str_less_spec(name, e.0) {
            (out.push((name, v)).push((e.0, e.1)), true)
        } else {
            (out.push((e.0, e.1)), false)
        };
        named_type_place_spec(m, name, v, out, placed, i + 1)
    } else {
        (out, placed)
    }
}

pub fn named_type_place(
    m: &Vec<(String, Type)>,
    name: &str,
    v: &Type,
    out: Vec<(String, Type)>,
    placed: bool,
) -> (r: (Vec<(String, Type)>, bool))
    ensures
        (crate::ir::named_types_view(r.0@), r.1) == named_type_place_spec(
            crate::ir::named_types_view(m@),
            name@,
            v@,
            crate::ir::named_types_view(out@),
            placed,
            0,
        ),
{
    let ghost whole_run = named_type_place_spec(
        crate::ir::named_types_view(m@),
        name@,
        v@,
        crate::ir::named_types_view(out@),
        placed,
        0,
    );
    let mut out = out;
    let mut placed = placed;
    let mut i: usize = 0;
    while i < m.len()
        invariant
            i <= m.len(),
            named_type_place_spec(
                crate::ir::named_types_view(m@),
                name@,
                v@,
                crate::ir::named_types_view(out@),
                placed,
                i as int,
            ) == whole_run,
        decreases m.len() - i,
    {
        let e = &m[i];
        let next = if placed {
            (push(out, (e.0.clone(), e.1.dup())), true)
        } else if str_eq(&e.0, name) {
            (push(out, (text(name), v.dup())), true)
        } else if str_less(name, &e.0) {
            (push(push(out, (text(name), v.dup())), (e.0.clone(), e.1.dup())), true)
        } else {
            (push(out, (e.0.clone(), e.1.dup())), false)
        };
        out = next.0;
        placed = next.1;
        i += 1;
    }
    (out, placed)
}

/// What [`named_type_put`] computes.
pub open spec fn named_type_put_spec(
    m: Seq<(Seq<char>, TypeView)>,
    name: Seq<char>,
    v: TypeView,
) -> Seq<(Seq<char>, TypeView)>
{
    let (out, placed) = named_type_place_spec(m, name, v, Seq::empty(), false, 0);
    if placed {
        out
    } else {
        out.push((name, v))
    }
}

/// The map, ordered by name, with a name's value set.
pub fn named_type_put(m: &Vec<(String, Type)>, name: &str, v: &Type) -> (r: Vec<(String, Type)>)
    ensures
        crate::ir::named_types_view(r@) == named_type_put_spec(
            crate::ir::named_types_view(m@),
            name@,
            v@,
        ),
{
    let (out, placed) = named_type_place(m, name, v, Vec::new(), false);
    if placed {
        out
    } else {
        push(out, (text(name), v.dup()))
    }
}

/// What [`diag`] computes.
pub open spec fn diag_spec(span: Span, message: Seq<char>) -> DiagnosticView
{
    DiagnosticView { span, message, related: Seq::empty() }
}

/// A diagnostic without notes.
pub fn diag(span: Span, message: String) -> (r: Diagnostic)
    ensures
        r@ == diag_spec(span, message@),
{
    Diagnostic { span, message, related: Vec::new() }
}

/// What [`diag_note`] computes.
pub open spec fn diag_note_spec(
    span: Span,
    message: Seq<char>,
    at: Span,
    note: Seq<char>,
) -> DiagnosticView
{
    DiagnosticView { span, message, related: Seq::empty().push((at, note)) }
}

/// A diagnostic with one note.
pub fn diag_note(span: Span, message: String, at: Span, note: String) -> (r: Diagnostic)
    ensures
        r@ == diag_note_spec(span, message@, at, note@),
{
    Diagnostic { span, message, related: push(Vec::new(), (at, note)) }
}

/// What [`report`] computes.
pub open spec fn report_spec(st: StateView, span: Span, message: Seq<char>) -> StateView
{
    StateView { diagnostics: st.diagnostics.push(diag_spec(span, message)), ..st }
}

/// Adds a diagnostic.
pub fn report(st: State, span: Span, message: String) -> (r: State)
    ensures
        r@ == report_spec(st@, span, message@),
        crate::state::follows(st@, r@),
        crate::state::balanced(st@, r@),
        crate::state::same_facts(st@, r@),
{
    State { diagnostics: push(st.diagnostics, diag(span, message)), ..st }
}

/// What [`report_note`] computes.
pub open spec fn report_note_spec(
    st: StateView,
    span: Span,
    message: Seq<char>,
    at: Span,
    note: Seq<char>,
) -> StateView
{
    StateView { diagnostics: st.diagnostics.push(diag_note_spec(span, message, at, note)), ..st }
}

/// Adds a diagnostic with one note.
pub fn report_note(st: State, span: Span, message: String, at: Span, note: String) -> (r: State)
    ensures
        r@ == report_note_spec(st@, span, message@, at, note@),
        crate::state::follows(st@, r@),
        crate::state::balanced(st@, r@),
        crate::state::same_facts(st@, r@),
{
    State { diagnostics: push(st.diagnostics, diag_note(span, message, at, note)), ..st }
}

/// What [`take_answer`] computes.
pub open spec fn take_answer_spec(st: StateView) -> (Option<AnswerView>, StateView)
{
    if st.used < st.answers.len() {
        let answer = st.answers[st.used];
        (Some(answer), StateView { used: st.used + 1, ..st })
    } else {
        (None, st)
    }
}

/// The next answer, if one is left.
pub fn take_answer(st: State) -> (r: (Option<Answer>, State))
    ensures
        ((match &r.0 { Some(v0) => Some(v0@), None => None }), r.1@) == take_answer_spec(st@),
        crate::state::follows(st@, r.1@),
        crate::state::balanced(st@, r.1@),
        crate::state::same_facts(st@, r.1@),
{
    if st.used < st.answers.len() {
        let answer = st.answers[st.used].dup();
        (Some(answer), State { used: st.used + 1, ..st })
    } else {
        (None, st)
    }
}

/// What [`ask`] computes.
pub open spec fn ask_spec(q: QueryView, st: StateView) -> (Option<AnswerView>, StateView)
{
    if st.used < st.answers.len() {
        take_answer_spec(st)
    } else if st.pending.is_some() {
        (None, st)
    } else {
        (None, StateView { pending: Some(q), ..st })
    }
}

/// Asks a question: the next answer, or none where the answers have run out,
/// in which case the first such question is kept.
pub fn ask(q: Query, st: State) -> (r: (Option<Answer>, State))
    ensures
        ((match &r.0 { Some(v0) => Some(v0@), None => None }), r.1@) == ask_spec(q@, st@),
        crate::state::follows(st@, r.1@),
        crate::state::balanced(st@, r.1@),
        crate::state::same_facts(st@, r.1@),
{
    if st.used < st.answers.len() {
        take_answer(st)
    } else if st.pending.is_some() {
        (None, st)
    } else {
        (None, State { pending: Some(q), ..st })
    }
}

/// What [`lookup_struct`] computes.
pub open spec fn lookup_struct_spec(env: EnvView, name: Seq<char>) -> Option<StructInfoView>
{
    struct_info_get_spec(env.structs, name)
}

/// The declaration of a struct.
pub fn lookup_struct(env: &Env, name: &str) -> (r: Option<StructInfo>)
    ensures
        (match &r { Some(v0) => Some(v0@), None => None }) == lookup_struct_spec(env@, name@),
{
    struct_info_get(&env.structs, name)
}

/// What [`lookup_enum`] computes.
pub open spec fn lookup_enum_spec(env: EnvView, name: Seq<char>) -> Option<EnumInfoView>
{
    enum_info_get_spec(env.enums, name)
}

/// The declaration of an enum.
pub fn lookup_enum(env: &Env, name: &str) -> (r: Option<EnumInfo>)
    ensures
        (match &r { Some(v0) => Some(v0@), None => None }) == lookup_enum_spec(env@, name@),
{
    enum_info_get(&env.enums, name)
}

/// What [`scope_index`] computes.
pub open spec fn scope_index_spec(
    scopes: Seq<Seq<(Seq<char>, VarInfoView)>>,
    name: Seq<char>,
    n: int,
) -> int
    decreases n,
{
    if n < 1 {
        0
    } else if var_info_has_spec(scopes[n - 1], name) {
        n
    } else {
        scope_index_spec(scopes, name, n - 1)
    }
}

/// The innermost of the first `n` scopes that holds the name, counted from
/// one; zero where none does.
pub fn scope_index(scopes: &Vec<Vec<(String, VarInfo)>>, name: &str, n: usize) -> (r: usize)
    requires
        n <= scopes.len(),
    ensures
        r as int == scope_index_spec(crate::state::scopes_view(scopes@), name@, n as int),
        r <= n,
    decreases n,
{
    if n < 1 {
        0
    } else if var_info_has(&scopes[n - 1], name) {
        n
    } else {
        scope_index(scopes, name, n - 1)
    }
}

/// What [`lookup`] computes.
pub open spec fn lookup_spec(env: EnvView, name: Seq<char>) -> Option<VarInfoView>
{
    let k: int = scope_index_spec(env.scopes, name, (env.scopes.len() as int));
    if k < 1 {
        None
    } else {
        var_info_get_spec(env.scopes[k - 1], name)
    }
}

/// The innermost binding of a name.
pub fn lookup(env: &Env, name: &str) -> (r: Option<VarInfo>)
    ensures
        (match &r { Some(v0) => Some(v0@), None => None }) == lookup_spec(env@, name@),
{
    let k: usize = scope_index(&env.scopes, name, env.scopes.len());
    if k < 1 {
        None
    } else {
        var_info_get(&env.scopes[k - 1], name)
    }
}

/// What [`set_var`] computes.
pub open spec fn set_var_spec(env: EnvView, name: Seq<char>, info: VarInfoView) -> EnvView
{
    let k: int = scope_index_spec(env.scopes, name, (env.scopes.len() as int));
    if k < 1 {
        env
    } else {
        let scope = var_info_put_spec(env.scopes[k - 1], name, info);
        EnvView { scopes: env.scopes.update(k - 1, scope), ..env }
    }
}

/// Replaces the innermost binding of a name, where there is one.
pub fn set_var(env: Env, name: &str, info: &VarInfo) -> (r: Env)
    ensures
        r@ == set_var_spec(env@, name@, info@),
        crate::state::same_scopes(env@, r@),
{
    let k: usize = scope_index(&env.scopes, name, env.scopes.len());
    if k < 1 {
        env
    } else {
        let scope = var_info_put(&env.scopes[k - 1], name, info);
        Env { scopes: replace_at(env.scopes, k - 1, scope), ..env }
    }
}

/// What [`current_scope`] computes.
pub open spec fn current_scope_spec(env: EnvView) -> Seq<(Seq<char>, VarInfoView)>
{
    if env.scopes.len() > 0 {
        (env.scopes[env.scopes.len() - 1])
    } else {
        Seq::empty()
    }
}

/// The bindings of the innermost scope.
pub fn current_scope(env: &Env) -> (r: Vec<(String, VarInfo)>)
    ensures
        crate::state::scope_view(r@) == current_scope_spec(env@),
{
    if env.scopes.len() > 0 {
        dup_scope(&env.scopes[env.scopes.len() - 1])
    } else {
        Vec::new()
    }
}

/// What [`current_has`] computes.
pub open spec fn current_has_spec(env: EnvView, name: Seq<char>) -> bool
{
    env.scopes.len() > 0 && var_info_has_spec(env.scopes[env.scopes.len() - 1], name)
}

/// Whether the innermost scope binds a name.
pub fn current_has(env: &Env, name: &str) -> (r: bool)
    ensures
        r == current_has_spec(env@, name@),
{
    env.scopes.len() > 0 && var_info_has(&env.scopes[env.scopes.len() - 1], name)
}

/// What [`current_get`] computes.
pub open spec fn current_get_spec(env: EnvView, name: Seq<char>) -> Option<VarInfoView>
{
    if env.scopes.len() > 0 {
        var_info_get_spec(env.scopes[env.scopes.len() - 1], name)
    } else {
        None
    }
}

/// The binding of a name in the innermost scope.
pub fn current_get(env: &Env, name: &str) -> (r: Option<VarInfo>)
    ensures
        (match &r { Some(v0) => Some(v0@), None => None }) == current_get_spec(env@, name@),
{
    if env.scopes.len() > 0 {
        var_info_get(&env.scopes[env.scopes.len() - 1], name)
    } else {
        None
    }
}

/// What [`insert_current`] computes.
pub open spec fn insert_current_spec(env: EnvView, name: Seq<char>, info: VarInfoView) -> EnvView
{
    if env.scopes.len() > 0 {
        let k: int = ((env.scopes.len() - 1) as int);
        let scope = var_info_put_spec(env.scopes[k], name, info);
        EnvView { scopes: env.scopes.update(k, scope), ..env }
    } else {
        env
    }
}

/// Binds a name in the innermost scope.
pub fn insert_current(env: Env, name: &str, info: &VarInfo) -> (r: Env)
    ensures
        r@ == insert_current_spec(env@, name@, info@),
        crate::state::same_scopes(env@, r@),
{
    if env.scopes.len() > 0 {
        let k: usize = env.scopes.len() - 1;
        let scope = var_info_put(&env.scopes[k], name, info);
        Env { scopes: replace_at(env.scopes, k, scope), ..env }
    } else {
        env
    }
}

/// What [`push_scope`] computes.
pub open spec fn push_scope_spec(env: EnvView) -> EnvView
{
    EnvView { scopes: env.scopes.push(Seq::empty()), ..env }
}

/// Opens a scope.
pub fn push_scope(env: Env) -> (r: Env)
    ensures
        r@ == push_scope_spec(env@),
{
    Env { scopes: push(env.scopes, Vec::new()), ..env }
}

/// What [`pop_scope`] computes.
pub open spec fn pop_scope_spec(env: EnvView) -> EnvView
{
    if env.scopes.len() > 1 {
        EnvView { scopes: env.scopes.drop_last(), ..env }
    } else {
        env
    }
}

/// Leaves the innermost scope; the outermost one stays.
pub fn pop_scope(env: Env) -> (r: Env)
    ensures
        r@ == pop_scope_spec(env@),
{
    if env.scopes.len() > 1 {
        Env { scopes: drop_last_of(env.scopes), ..env }
    } else {
        env
    }
}

/// What [`bindings_from`] computes.
pub open spec fn bindings_from_spec(
    scopes: Seq<Seq<(Seq<char>, VarInfoView)>>,
    n: int,
    out: Seq<(Seq<char>, VarInfoView)>,
) -> Seq<(Seq<char>, VarInfoView)>
    decreases n,
{
    if n < 1 {
        out
    } else {
        bindings_from_spec(scopes, n - 1, out + (scopes[n - 1]))
    }
}

/// Every binding, innermost scope first and each scope by name, hidden ones
/// included.
pub fn bindings_from(
    scopes: &Vec<Vec<(String, VarInfo)>>,
    n: usize,
    out: Vec<(String, VarInfo)>,
) -> (r: Vec<(String, VarInfo)>)
    requires
        n <= scopes.len(),
    ensures
        crate::state::scope_view(r@) == bindings_from_spec(
            crate::state::scopes_view(scopes@),
            n as int,
            crate::state::scope_view(out@),
        ),
    decreases n,
{
    if n < 1 {
        out
    } else {
        bindings_from(scopes, n - 1, join(out, dup_scope(&scopes[n - 1])))
    }
}

/// What [`all_bindings`] computes.
pub open spec fn all_bindings_spec(env: EnvView) -> Seq<(Seq<char>, VarInfoView)>
{
    bindings_from_spec(env.scopes, (env.scopes.len() as int), Seq::empty())
}

/// All bindings, those of the innermost scope first.
pub fn all_bindings(env: &Env) -> (r: Vec<(String, VarInfo)>)
    ensures
        crate::state::scope_view(r@) == all_bindings_spec(env@),
{
    bindings_from(&env.scopes, env.scopes.len(), Vec::new())
}

/// What [`versions_of`] computes from position `i` on.
pub open spec fn versions_of_spec(
    bs: Seq<(Seq<char>, VarInfoView)>,
    out: Seq<(Seq<char>, u32)>,
    i: int,
) -> Seq<(Seq<char>, u32)>
    decreases bs.len() - i,
{
    if 0 <= i < bs.len() {
        let b = bs[i];
        let out = match crate::types::deref_spec(b.1.ty) {
            TypeView::Vec(_) | TypeView::Array { .. } => if version_has_spec(out, b.0) {
                out
            } else {
                version_put_spec(out, b.0, b.1.array_version)
            },
            _ => out,
        };
        versions_of_spec(bs, out, i + 1)
    } else {
        out
    }
}

/// Adds the version of each array and vector; an inner binding comes first.
pub fn versions_of(bs: &Vec<(String, VarInfo)>, out: Vec<(String, u32)>) -> (r: Vec<(String, u32)>)
    ensures
        crate::ir::numbered_names_view(r@) == versions_of_spec(
            crate::state::scope_view(bs@),
            crate::ir::numbered_names_view(out@),
            0,
        ),
{
    let ghost whole_run = versions_of_spec(
        crate::state::scope_view(bs@),
        crate::ir::numbered_names_view(out@),
        0,
    );
    let mut out = out;
    let mut i: usize = 0;
    while i < bs.len()
        invariant
            i <= bs.len(),
            versions_of_spec(
                crate::state::scope_view(bs@),
                crate::ir::numbered_names_view(out@),
                i as int,
            ) == whole_run,
        decreases bs.len() - i,
    {
        let b = &bs[i];
        out = match deref(&b.1.ty) {
            Type::Vec(_) | Type::Array { .. } => if version_has(&out, &b.0) {
                out
            } else {
                version_put(&out, &b.0, b.1.array_version)
            },
            _ => out,
        };
        i += 1;
    }
    out
}

/// What [`array_versions`] computes.
pub open spec fn array_versions_spec(env: EnvView) -> Seq<(Seq<char>, u32)>
{
    versions_of_spec(all_bindings_spec(env), Seq::empty(), 0)
}

/// The current version of every array and vector in scope.
pub fn array_versions(env: &Env) -> (r: Vec<(String, u32)>)
    ensures
        crate::ir::numbered_names_view(r@) == array_versions_spec(env@),
{
    versions_of(&all_bindings(env), Vec::new())
}

/// What [`name_position`] computes from position `i` on.
pub open spec fn name_position_spec(
    names: Seq<Seq<char>>,
    name: Seq<char>,
    found: Option<int>,
    i: int,
) -> Option<int>
    decreases names.len() - i,
{
    if 0 <= i < names.len() && !found.is_some() {
        let n = names[i];
        let found = if n == name {
            Some(i)
        } else {
            found
        };
        name_position_spec(names, name, found, i + 1)
    } else {
        found
    }
}

/// Where a name first stands in a list.
pub fn name_position(names: &Vec<String>, name: &str, found: Option<usize>) -> (r: Option<usize>)
    ensures
        (match &r { Some(v0) => Some(*v0 as int), None => None }) == name_position_spec(
            crate::text::strs_view(names@),
            name@,
            (match &found { Some(v0) => Some(*v0 as int), None => None }),
            0,
        ),
{
    let ghost whole_run = name_position_spec(
        crate::text::strs_view(names@),
        name@,
        (match &found { Some(v0) => Some(*v0 as int), None => None }),
        0,
    );
    let mut found = found;
    let mut i: usize = 0;
    while i < names.len() && !found.is_some()
        invariant
            i <= names.len(),
            name_position_spec(
                crate::text::strs_view(names@),
                name@,
                (match &found { Some(v0) => Some(*v0 as int), None => None }),
                i as int,
            ) == whole_run,
        decreases names.len() - i,
    {
        let n = &names[i];
        found = if str_eq(n, name) {
            Some(i)
        } else {
            found
        };
        i += 1;
    }
    found
}

/// What [`find_field`] computes from position `i` on.
pub open spec fn find_field_spec(
    fs: Seq<(Seq<char>, TypeView)>,
    name: Seq<char>,
    found: Option<(u32, TypeView)>,
    i: int,
) -> Option<(u32, TypeView)>
    decreases fs.len() - i,
{
    if 0 <= i < fs.len() && !found.is_some() {
        let f = fs[i];
        let found = if f.0 == name { Some((i as u32, f.1)) } else { found };
        find_field_spec(fs, name, found, i + 1)
    } else {
        found
    }
}

/// Where a field stands in a declaration, and its type.
pub fn find_field(
    fs: &Vec<(String, Type)>,
    name: &str,
    found: Option<(u32, Type)>,
) -> (r: Option<(u32, Type)>)
    ensures
        (match &r { Some(v0) => Some((v0.0, v0.1@)), None => None }) == find_field_spec(
            crate::ir::named_types_view(fs@),
            name@,
            (match &found { Some(v0) => Some((v0.0, v0.1@)), None => None }),
            0,
        ),
{
    let ghost whole_run = find_field_spec(
        crate::ir::named_types_view(fs@),
        name@,
        (match &found { Some(v0) => Some((v0.0, v0.1@)), None => None }),
        0,
    );
    let mut found = found;
    let mut i: usize = 0;
    while i < fs.len() && !found.is_some()
        invariant
            i <= fs.len(),
            find_field_spec(
                crate::ir::named_types_view(fs@),
                name@,
                (match &found { Some(v0) => Some((v0.0, v0.1@)), None => None }),
                i as int,
            ) == whole_run,
        decreases fs.len() - i,
    {
        let f = &fs[i];
        found = if str_eq(&f.0, name) { Some((i as u32, f.1.dup())) } else { found };
        i += 1;
    }
    found
}

/// What [`lookup_enum_variant_payload`] computes.
pub open spec fn lookup_enum_variant_payload_spec(
    env: EnvView,
    enum_name: Seq<char>,
    variant: Seq<char>,
) -> Option<TypeView>
{
    match lookup_enum_spec(env, enum_name) {
        None => None,
        Some(info) => match name_position_spec(info.variants, variant, None, 0) {
            None => None,
            Some(idx) => if idx < info.payload_types.len() {
                match info.payload_types[idx] {
                    Some(t) => Some(t),
                    None => None,
                }
            } else {
                None
            },
        },
    }
}

/// The payload type of an enum's variant.
pub fn lookup_enum_variant_payload(env: &Env, enum_name: &str, variant: &str) -> (r: Option<Type>)
    ensures
        (match &r { Some(v0) => Some(v0@), None => None }) == lookup_enum_variant_payload_spec(
            env@,
            enum_name@,
            variant@,
        ),
{
    match lookup_enum(env, enum_name) {
        None => None,
        Some(info) => match name_position(&info.variants, variant, None) {
            None => None,
            Some(idx) => if idx < info.payload_types.len() {
                match &info.payload_types[idx] {
                    Some(t) => Some(t.dup()),
                    None => None,
                }
            } else {
                None
            },
        },
    }
}

/// What [`fresh_var`] computes.
pub open spec fn fresh_var_spec(
    ty: TypeView,
    constant: Option<TypedConstView>,
    decl_span: Span,
) -> VarInfoView
{
    VarInfoView {
        ty,
        constant,
        moved: None,
        decl_span,
        vec_literal_elements: None,
        array_version: 0,
        guarded_mutex: None,
        no_drop: false,
        is_const: false,
        struct_literal_fields: None,
        moved_fields: Seq::empty(),
    }
}

/// A binding of which nothing but its type, value and place is known.
pub fn fresh_var(ty: Type, constant: Option<TypedConst>, decl_span: Span) -> (r: VarInfo)
    ensures
        r@ == fresh_var_spec(
            ty@,
            (match &constant { Some(v0) => Some(v0@), None => None }),
            decl_span,
        ),
{
    VarInfo {
        ty,
        constant,
        moved: None,
        decl_span,
        vec_literal_elements: None,
        array_version: 0,
        guarded_mutex: None,
        no_drop: false,
        is_const: false,
        struct_literal_fields: None,
        moved_fields: Vec::new(),
    }
}

/// What [`copies`] computes.
pub open spec fn copies_spec(t: TypeView, cx: ContextView) -> bool
{
    crate::types::is_copy_spec(t, cx.owning_structs, cx.owning_enums)
}

/// Whether values of the type are copied.
pub fn copies(t: &Type, cx: &Context) -> (r: bool)
    ensures
        r == copies_spec(t@, cx@),
{
    is_copy(t, &cx.owning_structs, &cx.owning_enums)
}

/// What [`typed`] computes.
pub open spec fn typed_spec(
    kind: TypedExprKindView,
    ty: TypeView,
    constant: Option<TypedConstView>,
    span: Span,
) -> TypedExprView
{
    TypedExprView { kind, ty, constant, span, binding_decl_span: None }
}

/// A typed expression that names no binding.
pub fn typed(
    kind: TypedExprKind,
    ty: Type,
    constant: Option<TypedConst>,
    span: Span,
) -> (r: TypedExpr)
    ensures
        r@ == typed_spec(
            kind@,
            ty@,
            (match &constant { Some(v0) => Some(v0@), None => None }),
            span,
        ),
{
    TypedExpr { kind, ty, constant, span, binding_decl_span: None }
}

/// What [`checked`] computes.
pub open spec fn checked_spec(
    kind: TypedExprKindView,
    ty: TypeView,
    constant: Option<TypedConstView>,
    span: Span,
) -> CheckedExprView
{
    CheckedExprView {
        expr: typed_spec(kind, ty, constant, span),
        flexible_integer: false,
        flexible_float: false,
    }
}

/// A checked expression of a settled type.
pub fn checked(
    kind: TypedExprKind,
    ty: Type,
    constant: Option<TypedConst>,
    span: Span,
) -> (r: CheckedExpr)
    ensures
        r@ == checked_spec(
            kind@,
            ty@,
            (match &constant { Some(v0) => Some(v0@), None => None }),
            span,
        ),
{
    CheckedExpr {
        expr: typed(kind, ty, constant, span),
        flexible_integer: false,
        flexible_float: false,
    }
}

/// What [`with_decl`] computes.
pub open spec fn with_decl_spec(c: CheckedExprView, at: Span) -> CheckedExprView
{
    CheckedExprView { expr: TypedExprView { binding_decl_span: Some(at), ..c.expr }, ..c }
}

/// The expression with the place of the binding that it names.
pub fn with_decl(c: CheckedExpr, at: Span) -> (r: CheckedExpr)
    ensures
        r@ == with_decl_spec(c@, at),
{
    CheckedExpr { expr: TypedExpr { binding_decl_span: Some(at), ..c.expr }, ..c }
}

/// What [`float_zero`] computes.
pub open spec fn float_zero_spec() -> FloatLitView
{
    FloatLitView { bits: 0, exact: "0.0"@, plain: "0"@ }
}

/// Positive zero.
pub fn float_zero() -> (r: FloatLit)
    ensures
        r@ == float_zero_spec(),
{
    FloatLit { bits: 0, exact: text("0.0"), plain: text("0") }
}

/// What [`fallback`] computes.
pub open spec fn fallback_spec(ty: TypeView, span: Span) -> CheckedExprView
{
    let kind = match ty {
        TypeView::F32 | TypeView::F64 => TypedExprKindView::Float(float_zero_spec()),
        TypeView::Bool => TypedExprKindView::Bool(false),
        _ => TypedExprKindView::Int(0),
    };
    checked_spec(kind, ty, None, span)
}

/// A stand-in of the given type for an expression that could not be checked.
pub fn fallback(ty: Type, span: Span) -> (r: CheckedExpr)
    ensures
        r@ == fallback_spec(ty@, span),
{
    let kind = match &ty {
        Type::F32 | Type::F64 => TypedExprKind::Float(float_zero()),
        Type::Bool => TypedExprKind::Bool(false),
        _ => TypedExprKind::Int(0),
    };
    checked(kind, ty, None, span)
}

/// What [`fallback_integer`] computes.
pub open spec fn fallback_integer_spec(span: Span) -> CheckedExprView
{
    fallback_spec(TypeView::I64, span)
}

/// What stands for an expression that could not be checked.
pub fn fallback_integer(span: Span) -> (r: CheckedExpr)
    ensures
        r@ == fallback_integer_spec(span),
{
    fallback(Type::I64, span)
}

/// A search of a longer table finds what it found before, or the new entry.
pub proof fn found_behind(
    s: Seq<(Seq<char>, VarInfoView)>,
    e: (Seq<char>, VarInfoView),
    k: Seq<char>,
    i: int,
)
    requires
        0 <= i <= s.len(),
    ensures
        var_info_find_spec(s.push(e), k, None, i) == match var_info_find_spec(s, k, None, i) {
            Some(x) => Some(x),
            None => if e.0 == k { Some(e.1) } else { None },
        },
    decreases s.len() - i,
{
    reveal_with_fuel(var_info_find_spec, 2);
    if i < s.len() {
        assert(s.push(e)[i] == s[i]);
        if s[i].0 != k {
            found_behind(s, e, k, i + 1);
        }
    } else {
        assert(s.push(e)[i] == e);
    }
}

/// What a search of `out` and then of `m` from position `i` on finds.
spec fn found_in_turn(
    out: Seq<(Seq<char>, VarInfoView)>,
    m: Seq<(Seq<char>, VarInfoView)>,
    k: Seq<char>,
    i: int,
) -> Option<VarInfoView> {
    match var_info_get_spec(out, k) {
        Some(x) => Some(x),
        None => var_info_find_spec(m, k, None, i),
    }
}

proof fn placed_once(
    m: Seq<(Seq<char>, VarInfoView)>,
    name: Seq<char>,
    v: VarInfoView,
    out: Seq<(Seq<char>, VarInfoView)>,
    placed: bool,
    k: Seq<char>,
    i: int,
)
    requires
        0 <= i <= m.len(),
        placed ==> var_info_get_spec(out, name) == Some(v),
        !placed ==> var_info_get_spec(out, name) is None,
    ensures
        ({
            let r = var_info_place_spec(m, name, v, out, placed, i);
            &&& r.1 ==> var_info_get_spec(r.0, name) == Some(v)
            &&& !r.1 ==> var_info_get_spec(r.0, name) is None
            &&& k != name ==> var_info_get_spec(r.0, k) == found_in_turn(out, m, k, i)
        }),
    decreases m.len() - i,
{
    reveal_with_fuel(var_info_find_spec, 2);
    if i < m.len() {
        let e = m[i];
        found_behind(out, (e.0, e.1), k, 0);
        found_behind(out, (e.0, e.1), name, 0);
        found_behind(out, (name, v), k, 0);
        found_behind(out, (name, v), name, 0);
        found_behind(out.push((name, v)), (e.0, e.1), k, 0);
        found_behind(out.push((name, v)), (e.0, e.1), name, 0);
        if placed {
            placed_once(m, name, v, out.push((e.0, e.1)), true, k, i + 1);
        } else if e.0 == name {
            placed_once(m, name, v, out.push((name, v)), true, k, i + 1);
        } else if crate::text::str_less_spec(name, e.0) {
            placed_once(m, name, v, out.push((name, v)).push((e.0, e.1)), true, k, i + 1);
        } else {
            placed_once(m, name, v, out.push((e.0, e.1)), false, k, i + 1);
        }
    }
}

/// A table holds under a name what was put there last, and under every other
/// name what it held before.
pub proof fn table_holds_what_was_put(
    m: Seq<(Seq<char>, VarInfoView)>,
    name: Seq<char>,
    v: VarInfoView,
    k: Seq<char>,
)
    ensures
        var_info_get_spec(var_info_put_spec(m, name, v), name) == Some(v),
        k != name
            ==> var_info_get_spec(var_info_put_spec(m, name, v), k) == var_info_get_spec(m, k),
{
    let none = Seq::<(Seq<char>, VarInfoView)>::empty();
    placed_once(m, name, v, none, false, k, 0);
    let r = var_info_place_spec(m, name, v, none, false, 0);
    found_behind(r.0, (name, v), k, 0);
    found_behind(r.0, (name, v), name, 0);
}

proof fn signature_found_behind(
    s: Seq<(Seq<char>, SignatureView)>,
    e: (Seq<char>, SignatureView),
    k: Seq<char>,
    i: int,
)
    requires
        0 <= i <= s.len(),
    ensures
        signature_find_spec(s.push(e), k, None, i) == match signature_find_spec(s, k, None, i) {
            Some(x) => Some(x),
            None => if e.0 == k { Some(e.1) } else { None },
        },
    decreases s.len() - i,
{
    reveal_with_fuel(signature_find_spec, 2);
    if i < s.len() {
        assert(s.push(e)[i] == s[i]);
        if s[i].0 != k {
            signature_found_behind(s, e, k, i + 1);
        }
    } else {
        assert(s.push(e)[i] == e);
    }
}

/// What a search of `out` and then of `m` from position `i` on finds.
spec fn signature_found_in_turn(
    out: Seq<(Seq<char>, SignatureView)>,
    m: Seq<(Seq<char>, SignatureView)>,
    k: Seq<char>,
    i: int,
) -> Option<SignatureView> {
    match signature_get_spec(out, k) {
        Some(x) => Some(x),
        None => signature_find_spec(m, k, None, i),
    }
}

proof fn signature_placed_once(
    m: Seq<(Seq<char>, SignatureView)>,
    name: Seq<char>,
    v: SignatureView,
    out: Seq<(Seq<char>, SignatureView)>,
    placed: bool,
    k: Seq<char>,
    i: int,
)
    requires
        0 <= i <= m.len(),
        placed ==> signature_get_spec(out, name) == Some(v),
        !placed ==> signature_get_spec(out, name) is None,
    ensures
        ({
            let r = signature_place_spec(m, name, v, out, placed, i);
            &&& r.1 ==> signature_get_spec(r.0, name) == Some(v)
            &&& !r.1 ==> signature_get_spec(r.0, name) is None
            &&& k != name ==> signature_get_spec(r.0, k) == signature_found_in_turn(out, m, k, i)
        }),
    decreases m.len() - i,
{
    reveal_with_fuel(signature_find_spec, 2);
    if i < m.len() {
        let e = m[i];
        signature_found_behind(out, (e.0, e.1), k, 0);
        signature_found_behind(out, (e.0, e.1), name, 0);
        signature_found_behind(out, (name, v), k, 0);
        signature_found_behind(out, (name, v), name, 0);
        signature_found_behind(out.push((name, v)), (e.0, e.1), k, 0);
        signature_found_behind(out.push((name, v)), (e.0, e.1), name, 0);
        if placed {
            signature_placed_once(m, name, v, out.push((e.0, e.1)), true, k, i + 1);
        } else if e.0 == name {
            signature_placed_once(m, name, v, out.push((name, v)), true, k, i + 1);
        } else if crate::text::str_less_spec(name, e.0) {
            signature_placed_once(m, name, v, out.push((name, v)).push((e.0, e.1)), true, k, i + 1);
        } else {
            signature_placed_once(m, name, v, out.push((e.0, e.1)), false, k, i + 1);
        }
    }
}

/// A table of signatures holds under a name what was put there last, and under
/// every other name what it held before.
pub proof fn signatures_hold_what_was_put(
    m: Seq<(Seq<char>, SignatureView)>,
    name: Seq<char>,
    v: SignatureView,
    k: Seq<char>,
)
    ensures
        signature_get_spec(signature_put_spec(m, name, v), name) == Some(v),
        k != name
            ==> signature_get_spec(signature_put_spec(m, name, v), k) == signature_get_spec(m, k),
{
    let none = Seq::<(Seq<char>, SignatureView)>::empty();
    signature_placed_once(m, name, v, none, false, k, 0);
    let r = signature_place_spec(m, name, v, none, false, 0);
    signature_found_behind(r.0, (name, v), k, 0);
    signature_found_behind(r.0, (name, v), name, 0);
}

/// Where a name is found it is bound.
pub proof fn scope_index_bound(scopes: Seq<Seq<(Seq<char>, VarInfoView)>>, name: Seq<char>, n: int)
    requires
        0 <= n <= scopes.len(),
    ensures
        0 <= scope_index_spec(scopes, name, n) <= n,
        scope_index_spec(scopes, name, n) > 0 ==> var_info_has_spec(
            scopes[scope_index_spec(scopes, name, n) - 1],
            name,
        ),
    decreases n,
{
    if n >= 1 && !var_info_has_spec(scopes[n - 1], name) {
        scope_index_bound(scopes, name, n - 1);
    }
}

/// Where two lists of scopes bind a name alike, it is found at the same place.
pub proof fn same_scope_index(
    a: Seq<Seq<(Seq<char>, VarInfoView)>>,
    b: Seq<Seq<(Seq<char>, VarInfoView)>>,
    name: Seq<char>,
    n: int,
)
    requires
        0 <= n <= a.len(),
        n <= b.len(),
        forall|i: int|
            0 <= i < n
                ==> var_info_has_spec(#[trigger] a[i], name) == var_info_has_spec(b[i], name),
    ensures
        scope_index_spec(a, name, n) == scope_index_spec(b, name, n),
    decreases n,
{
    if n >= 1 {
        assert(var_info_has_spec(a[n - 1], name) == var_info_has_spec(b[n - 1], name));
        same_scope_index(a, b, name, n - 1);
    }
}

/// A binding made in the innermost scope is the one that is found, and hides
/// no other name.
pub proof fn bound_name_is_found(env: EnvView, name: Seq<char>, info: VarInfoView, k: Seq<char>)
    requires
        env.scopes.len() > 0,
    ensures
        lookup_spec(insert_current_spec(env, name, info), name) == Some(info),
        k != name ==> lookup_spec(insert_current_spec(env, name, info), k) == lookup_spec(env, k),
{
    let last = env.scopes.len() - 1;
    let after = insert_current_spec(env, name, info);
    table_holds_what_was_put(env.scopes[last], name, info, k);
    if k != name {
        scope_index_bound(env.scopes, k, env.scopes.len() as int);
        same_scope_index(env.scopes, after.scopes, k, env.scopes.len() as int);
    }
}

/// Changing a binding changes what is found under its name, where anything is
/// bound to it, and nothing else.
pub proof fn changed_binding_is_found(
    env: EnvView,
    name: Seq<char>,
    info: VarInfoView,
    k: Seq<char>,
)
    ensures
        lookup_spec(env, name) is Some ==> lookup_spec(set_var_spec(env, name, info), name) == Some(
            info,
        ),
        lookup_spec(env, name) is None ==> set_var_spec(env, name, info) == env,
        k != name ==> lookup_spec(set_var_spec(env, name, info), k) == lookup_spec(env, k),
{
    let n = env.scopes.len() as int;
    let at = scope_index_spec(env.scopes, name, n);
    scope_index_bound(env.scopes, name, n);
    scope_index_bound(env.scopes, k, n);
    if at >= 1 {
        let after = set_var_spec(env, name, info);
        table_holds_what_was_put(env.scopes[at - 1], name, info, k);
        same_scope_index(env.scopes, after.scopes, name, n);
        if k != name {
            same_scope_index(env.scopes, after.scopes, k, n);
        }
    }
}

/// Leaving a scope undoes entering it and every binding made in it.
pub proof fn left_scope_is_forgotten(env: EnvView, name: Seq<char>, info: VarInfoView)
    requires
        env.scopes.len() > 0,
    ensures
        pop_scope_spec(push_scope_spec(env)) == env,
        pop_scope_spec(insert_current_spec(push_scope_spec(env), name, info)) == env,
{
    assert(pop_scope_spec(push_scope_spec(env)).scopes =~= env.scopes);
    assert(pop_scope_spec(insert_current_spec(push_scope_spec(env), name, info)).scopes
        =~= env.scopes);
}

/// A new scope hides nothing.
pub proof fn new_scope_hides_nothing(env: EnvView, k: Seq<char>)
    ensures
        lookup_spec(push_scope_spec(env), k) == lookup_spec(env, k),
{
    let n = env.scopes.len() as int;
    scope_index_bound(env.scopes, k, n);
    same_scope_index(env.scopes, push_scope_spec(env).scopes, k, n);
}

/// Questions are answered in order: while answers are left, a question takes
/// the next one and leaves nothing pending that was not.
pub proof fn answers_are_taken_in_order(q: QueryView, st: StateView)
    requires
        st.used < st.answers.len(),
    ensures
        ask_spec(q, st).0 == Some(st.answers[st.used as int]),
        ask_spec(q, st).1.used == st.used + 1,
        ask_spec(q, st).1.pending == st.pending,
{
}

/// The first question that no answer is left for is the one that stays
/// pending.
pub proof fn first_open_question_is_kept(q: QueryView, later: QueryView, st: StateView)
    requires
        st.used >= st.answers.len(),
        st.pending is None,
    ensures
        ask_spec(q, st).0 is None,
        ask_spec(q, st).1.pending == Some(q),
        ask_spec(later, ask_spec(q, st).1).1.pending == Some(q),
{
}

} // verus!
