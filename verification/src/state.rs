//! What the checker carries: bindings, declared types, signatures, the facts
//! handed to the prover, and the answers that came from outside.

use vstd::prelude::*;
use crate::ast::{
    Expr, ExprView, FloatLit, FloatLitView, Span, Type, TypeAlias, TypeAliasView, TypeView,
};
use crate::diagnostic::{Diagnostic, DiagnosticView};
use crate::ir::{TypedConst, TypedConstView, TypedExpr, TypedExprView, TypedStmtView};
use crate::registry::{owning_enums, owning_structs, payload_types};
use crate::signatures::{param_names};

verus! {

broadcast use {
    crate::text::group_text_views,
    crate::ast::group_ast_views,
    crate::diagnostic::group_diagnostic_views,
    crate::ir::group_ir_views,
};

/// A declared struct.
#[derive(Debug, PartialEq)]
pub struct StructInfo {
    pub fields: Vec<(String, Type)>,
}

/// The mathematical content of a [`StructInfo`].
pub struct StructInfoView {
    pub fields: Seq<(Seq<char>, TypeView)>,
}

pub open spec fn struct_info_view(x: StructInfo) -> StructInfoView
{
    StructInfoView {
        fields: crate::ir::named_types_view(x.fields@),
    }
}

impl View for StructInfo {
    type V = StructInfoView;

    open spec fn view(&self) -> StructInfoView {
        struct_info_view(*self)
    }
}

impl StructInfo {
    /// A copy with the same content.
    pub fn dup(&self) -> (r: Self)
        ensures
            r@ == self@,
    {
        StructInfo {
            fields: crate::ir::dup_named_types(&self.fields),
        }
    }
}

/// A declared enum: its variants in order, each with its payload type.
#[derive(Debug, PartialEq)]
pub struct EnumInfo {
    pub variants: Vec<String>,
    pub payload_types: Vec<Option<Type>>,
}

/// The mathematical content of a [`EnumInfo`].
pub struct EnumInfoView {
    pub variants: Seq<Seq<char>>,
    pub payload_types: Seq<Option<TypeView>>,
}

pub open spec fn enum_info_view(x: EnumInfo) -> EnumInfoView
{
    EnumInfoView {
        variants: crate::text::strs_view(x.variants@),
        payload_types: crate::ir::opt_types_view(x.payload_types@),
    }
}

impl View for EnumInfo {
    type V = EnumInfoView;

    open spec fn view(&self) -> EnumInfoView {
        enum_info_view(*self)
    }
}

impl EnumInfo {
    /// A copy with the same content.
    pub fn dup(&self) -> (r: Self)
        ensures
            r@ == self@,
    {
        EnumInfo {
            variants: crate::text::dup_strs(&self.variants),
            payload_types: crate::ir::dup_opt_types(&self.payload_types),
        }
    }
}

/// What is known of a binding.
#[derive(Debug, PartialEq)]
pub struct VarInfo {
    pub ty: Type,
    pub constant: Option<TypedConst>,
    /// Where the value was moved out, if it was.
    pub moved: Option<Span>,
    pub decl_span: Span,
    /// The elements of the `vec(..)` literal that the binding was made from.
    pub vec_literal_elements: Option<Vec<Expr>>,
    /// How often an element of the array or vector was assigned.
    pub array_version: u32,
    /// The mutex that a guard holds.
    pub guarded_mutex: Option<String>,
    /// A view into another value, which is not dropped with its scope.
    pub no_drop: bool,
    pub is_const: bool,
    /// The fields of the struct literal that the binding was made from.
    pub struct_literal_fields: Option<Vec<(String, Expr)>>,
    /// The fields that were moved out, each with the place of the move.
    pub moved_fields: Vec<(String, Span)>,
}

/// The mathematical content of a [`VarInfo`].
pub struct VarInfoView {
    pub ty: TypeView,
    pub constant: Option<TypedConstView>,
    pub moved: Option<Span>,
    pub decl_span: Span,
    pub vec_literal_elements: Option<Seq<ExprView>>,
    pub array_version: u32,
    pub guarded_mutex: Option<Seq<char>>,
    pub no_drop: bool,
    pub is_const: bool,
    pub struct_literal_fields: Option<Seq<(Seq<char>, ExprView)>>,
    pub moved_fields: Seq<(Seq<char>, Span)>,
}

pub open spec fn var_info_view(x: VarInfo) -> VarInfoView
{
    VarInfoView {
        ty: crate::ast::type_view(x.ty),
        constant: (match x.constant { Some(v0) => Some(crate::ir::typed_const_view(v0)), None => None }),
        moved: x.moved,
        decl_span: x.decl_span,
        vec_literal_elements: (match x.vec_literal_elements { Some(v0) => Some(crate::ast::exprs_view(v0@)), None => None }),
        array_version: x.array_version,
        guarded_mutex: (match x.guarded_mutex { Some(v0) => Some(v0@), None => None }),
        no_drop: x.no_drop,
        is_const: x.is_const,
        struct_literal_fields: (match x.struct_literal_fields { Some(v0) => Some(crate::ast::named_exprs_view(v0@)), None => None }),
        moved_fields: moved_fields_view(x.moved_fields@),
    }
}

impl View for VarInfo {
    type V = VarInfoView;

    open spec fn view(&self) -> VarInfoView {
        var_info_view(*self)
    }
}

impl VarInfo {
    /// A copy with the same content.
    pub fn dup(&self) -> (r: Self)
        ensures
            r@ == self@,
    {
        VarInfo {
            ty: self.ty.dup(),
            constant: match &self.constant {
                Some(v) => Some(v.dup()),
                None => None,
            },
            moved: self.moved,
            decl_span: self.decl_span,
            vec_literal_elements: match &self.vec_literal_elements {
                Some(v) => Some(crate::ast::dup_exprs(v)),
                None => None,
            },
            array_version: self.array_version,
            guarded_mutex: match &self.guarded_mutex {
                Some(v) => Some(v.clone()),
                None => None,
            },
            no_drop: self.no_drop,
            is_const: self.is_const,
            struct_literal_fields: match &self.struct_literal_fields {
                Some(v) => Some(crate::ast::dup_named_exprs(v)),
                None => None,
            },
            moved_fields: dup_moved_fields(&self.moved_fields),
        }
    }
}

pub open spec fn struct_infos_view(s: Seq<(String, StructInfo)>) -> Seq<(Seq<char>, StructInfoView)>
{
    Seq::new(s.len(), |i: int| (s[i].0@, struct_info_view(s[i].1)))
}

pub broadcast proof fn struct_infos_view_push(s: Seq<(String, StructInfo)>, x: (String, StructInfo))
    ensures
        #[trigger] struct_infos_view(s.push(x)) == struct_infos_view(s).push((x.0@, struct_info_view(x.1))),
{
    assert(
        struct_infos_view(s.push(x)) =~= struct_infos_view(s).push((x.0@, struct_info_view(x.1)))
    );
}

pub broadcast proof fn struct_infos_view_empty(s: Seq<(String, StructInfo)>)
    requires
        s.len() == 0,
    ensures
        #[trigger] struct_infos_view(s) == Seq::<(Seq<char>, StructInfoView)>::empty(),
{
    assert(struct_infos_view(s) =~= Seq::<(Seq<char>, StructInfoView)>::empty());
}

pub broadcast proof fn struct_infos_view_add(
    a: Seq<(String, StructInfo)>,
    b: Seq<(String, StructInfo)>,
)
    ensures
        #[trigger] struct_infos_view(a + b) == struct_infos_view(a) + struct_infos_view(b),
{
    assert(struct_infos_view(a + b) =~= struct_infos_view(a) + struct_infos_view(b));
}

pub broadcast proof fn struct_infos_view_subrange(s: Seq<(String, StructInfo)>, a: int, b: int)
    requires
        0 <= a <= b <= s.len(),
    ensures
        #[trigger] struct_infos_view(s.subrange(a, b)) == struct_infos_view(s).subrange(a, b),
{
    assert(struct_infos_view(s.subrange(a, b)) =~= struct_infos_view(s).subrange(a, b));
}

pub broadcast proof fn struct_infos_view_update(
    s: Seq<(String, StructInfo)>,
    i: int,
    x: (String, StructInfo),
)
    requires
        0 <= i < s.len(),
    ensures
        #[trigger] struct_infos_view(s.update(i, x)) == struct_infos_view(s).update(i, (x.0@, struct_info_view(x.1))),
{
    assert(
        struct_infos_view(s.update(i, x)) =~= struct_infos_view(s).update(
            i,
            (x.0@, struct_info_view(x.1)),
        )
    );
}

pub fn dup_struct_infos(v: &Vec<(String, StructInfo)>) -> (r: Vec<(String, StructInfo)>)
    ensures
        struct_infos_view(r@) == struct_infos_view(v@),
{
    let mut r: Vec<(String, StructInfo)> = Vec::new();
    let mut i: usize = 0;
    while i < v.len()
        invariant
            i <= v.len(),
            r.len() == i,
            forall|j: int| 0 <= j < i ==> #[trigger] struct_infos_view(r@)[j] == struct_infos_view(v@)[j],
        decreases v.len() - i,
    {
        let ghost before = r@;
        let x = &v[i];
        r.push((x.0.clone(), x.1.dup()));
        proof {
            struct_infos_view_push(before, r@.last());
        }
        i += 1;
    }
    assert(struct_infos_view(r@) =~= struct_infos_view(v@));
    r
}

pub open spec fn enum_infos_view(s: Seq<(String, EnumInfo)>) -> Seq<(Seq<char>, EnumInfoView)>
{
    Seq::new(s.len(), |i: int| (s[i].0@, enum_info_view(s[i].1)))
}

pub broadcast proof fn enum_infos_view_push(s: Seq<(String, EnumInfo)>, x: (String, EnumInfo))
    ensures
        #[trigger] enum_infos_view(s.push(x)) == enum_infos_view(s).push((x.0@, enum_info_view(x.1))),
{
    assert(enum_infos_view(s.push(x)) =~= enum_infos_view(s).push((x.0@, enum_info_view(x.1))));
}

pub broadcast proof fn enum_infos_view_empty(s: Seq<(String, EnumInfo)>)
    requires
        s.len() == 0,
    ensures
        #[trigger] enum_infos_view(s) == Seq::<(Seq<char>, EnumInfoView)>::empty(),
{
    assert(enum_infos_view(s) =~= Seq::<(Seq<char>, EnumInfoView)>::empty());
}

pub broadcast proof fn enum_infos_view_add(a: Seq<(String, EnumInfo)>, b: Seq<(String, EnumInfo)>)
    ensures
        #[trigger] enum_infos_view(a + b) == enum_infos_view(a) + enum_infos_view(b),
{
    assert(enum_infos_view(a + b) =~= enum_infos_view(a) + enum_infos_view(b));
}

pub broadcast proof fn enum_infos_view_subrange(s: Seq<(String, EnumInfo)>, a: int, b: int)
    requires
        0 <= a <= b <= s.len(),
    ensures
        #[trigger] enum_infos_view(s.subrange(a, b)) == enum_infos_view(s).subrange(a, b),
{
    assert(enum_infos_view(s.subrange(a, b)) =~= enum_infos_view(s).subrange(a, b));
}

pub broadcast proof fn enum_infos_view_update(
    s: Seq<(String, EnumInfo)>,
    i: int,
    x: (String, EnumInfo),
)
    requires
        0 <= i < s.len(),
    ensures
        #[trigger] enum_infos_view(s.update(i, x)) == enum_infos_view(s).update(i, (x.0@, enum_info_view(x.1))),
{
    assert(
        enum_infos_view(s.update(i, x)) =~= enum_infos_view(s).update(
            i,
            (x.0@, enum_info_view(x.1)),
        )
    );
}

pub fn dup_enum_infos(v: &Vec<(String, EnumInfo)>) -> (r: Vec<(String, EnumInfo)>)
    ensures
        enum_infos_view(r@) == enum_infos_view(v@),
{
    let mut r: Vec<(String, EnumInfo)> = Vec::new();
    let mut i: usize = 0;
    while i < v.len()
        invariant
            i <= v.len(),
            r.len() == i,
            forall|j: int| 0 <= j < i ==> #[trigger] enum_infos_view(r@)[j] == enum_infos_view(v@)[j],
        decreases v.len() - i,
    {
        let ghost before = r@;
        let x = &v[i];
        r.push((x.0.clone(), x.1.dup()));
        proof {
            enum_infos_view_push(before, r@.last());
        }
        i += 1;
    }
    assert(enum_infos_view(r@) =~= enum_infos_view(v@));
    r
}

pub open spec fn moved_fields_view(s: Seq<(String, Span)>) -> Seq<(Seq<char>, Span)>
{
    Seq::new(s.len(), |i: int| (s[i].0@, s[i].1))
}

pub broadcast proof fn moved_fields_view_push(s: Seq<(String, Span)>, x: (String, Span))
    ensures
        #[trigger] moved_fields_view(s.push(x)) == moved_fields_view(s).push((x.0@, x.1)),
{
    assert(moved_fields_view(s.push(x)) =~= moved_fields_view(s).push((x.0@, x.1)));
}

pub broadcast proof fn moved_fields_view_empty(s: Seq<(String, Span)>)
    requires
        s.len() == 0,
    ensures
        #[trigger] moved_fields_view(s) == Seq::<(Seq<char>, Span)>::empty(),
{
    assert(moved_fields_view(s) =~= Seq::<(Seq<char>, Span)>::empty());
}

pub broadcast proof fn moved_fields_view_add(a: Seq<(String, Span)>, b: Seq<(String, Span)>)
    ensures
        #[trigger] moved_fields_view(a + b) == moved_fields_view(a) + moved_fields_view(b),
{
    assert(moved_fields_view(a + b) =~= moved_fields_view(a) + moved_fields_view(b));
}

pub broadcast proof fn moved_fields_view_subrange(s: Seq<(String, Span)>, a: int, b: int)
    requires
        0 <= a <= b <= s.len(),
    ensures
        #[trigger] moved_fields_view(s.subrange(a, b)) == moved_fields_view(s).subrange(a, b),
{
    assert(moved_fields_view(s.subrange(a, b)) =~= moved_fields_view(s).subrange(a, b));
}

pub broadcast proof fn moved_fields_view_update(s: Seq<(String, Span)>, i: int, x: (String, Span))
    requires
        0 <= i < s.len(),
    ensures
        #[trigger] moved_fields_view(s.update(i, x)) == moved_fields_view(s).update(i, (x.0@, x.1)),
{
    assert(moved_fields_view(s.update(i, x)) =~= moved_fields_view(s).update(i, (x.0@, x.1)));
}

pub fn dup_moved_fields(v: &Vec<(String, Span)>) -> (r: Vec<(String, Span)>)
    ensures
        moved_fields_view(r@) == moved_fields_view(v@),
{
    let mut r: Vec<(String, Span)> = Vec::new();
    let mut i: usize = 0;
    while i < v.len()
        invariant
            i <= v.len(),
            r.len() == i,
            forall|j: int| 0 <= j < i ==> #[trigger] moved_fields_view(r@)[j] == moved_fields_view(v@)[j],
        decreases v.len() - i,
    {
        let ghost before = r@;
        let x = &v[i];
        r.push((x.0.clone(), x.1));
        proof {
            moved_fields_view_push(before, r@.last());
        }
        i += 1;
    }
    assert(moved_fields_view(r@) =~= moved_fields_view(v@));
    r
}

pub open spec fn scope_view(s: Seq<(String, VarInfo)>) -> Seq<(Seq<char>, VarInfoView)>
{
    Seq::new(s.len(), |i: int| (s[i].0@, var_info_view(s[i].1)))
}

pub broadcast proof fn scope_view_push(s: Seq<(String, VarInfo)>, x: (String, VarInfo))
    ensures
        #[trigger] scope_view(s.push(x)) == scope_view(s).push((x.0@, var_info_view(x.1))),
{
    assert(scope_view(s.push(x)) =~= scope_view(s).push((x.0@, var_info_view(x.1))));
}

pub broadcast proof fn scope_view_empty(s: Seq<(String, VarInfo)>)
    requires
        s.len() == 0,
    ensures
        #[trigger] scope_view(s) == Seq::<(Seq<char>, VarInfoView)>::empty(),
{
    assert(scope_view(s) =~= Seq::<(Seq<char>, VarInfoView)>::empty());
}

pub broadcast proof fn scope_view_add(a: Seq<(String, VarInfo)>, b: Seq<(String, VarInfo)>)
    ensures
        #[trigger] scope_view(a + b) == scope_view(a) + scope_view(b),
{
    assert(scope_view(a + b) =~= scope_view(a) + scope_view(b));
}

pub broadcast proof fn scope_view_subrange(s: Seq<(String, VarInfo)>, a: int, b: int)
    requires
        0 <= a <= b <= s.len(),
    ensures
        #[trigger] scope_view(s.subrange(a, b)) == scope_view(s).subrange(a, b),
{
    assert(scope_view(s.subrange(a, b)) =~= scope_view(s).subrange(a, b));
}

pub broadcast proof fn scope_view_update(s: Seq<(String, VarInfo)>, i: int, x: (String, VarInfo))
    requires
        0 <= i < s.len(),
    ensures
        #[trigger] scope_view(s.update(i, x)) == scope_view(s).update(i, (x.0@, var_info_view(x.1))),
{
    assert(scope_view(s.update(i, x)) =~= scope_view(s).update(i, (x.0@, var_info_view(x.1))));
}

pub fn dup_scope(v: &Vec<(String, VarInfo)>) -> (r: Vec<(String, VarInfo)>)
    ensures
        scope_view(r@) == scope_view(v@),
{
    let mut r: Vec<(String, VarInfo)> = Vec::new();
    let mut i: usize = 0;
    while i < v.len()
        invariant
            i <= v.len(),
            r.len() == i,
            forall|j: int| 0 <= j < i ==> #[trigger] scope_view(r@)[j] == scope_view(v@)[j],
        decreases v.len() - i,
    {
        let ghost before = r@;
        let x = &v[i];
        r.push((x.0.clone(), x.1.dup()));
        proof {
            scope_view_push(before, r@.last());
        }
        i += 1;
    }
    assert(scope_view(r@) =~= scope_view(v@));
    r
}

pub open spec fn scopes_view(s: Seq<Vec<(String, VarInfo)>>) -> Seq<Seq<(Seq<char>, VarInfoView)>>
{
    Seq::new(s.len(), |i: int| scope_view(s[i]@))
}

pub broadcast proof fn scopes_view_push(s: Seq<Vec<(String, VarInfo)>>, x: Vec<(String, VarInfo)>)
    ensures
        #[trigger] scopes_view(s.push(x)) == scopes_view(s).push(scope_view(x@)),
{
    assert(scopes_view(s.push(x)) =~= scopes_view(s).push(scope_view(x@)));
}

pub broadcast proof fn scopes_view_empty(s: Seq<Vec<(String, VarInfo)>>)
    requires
        s.len() == 0,
    ensures
        #[trigger] scopes_view(s) == Seq::<Seq<(Seq<char>, VarInfoView)>>::empty(),
{
    assert(scopes_view(s) =~= Seq::<Seq<(Seq<char>, VarInfoView)>>::empty());
}

pub broadcast proof fn scopes_view_add(
    a: Seq<Vec<(String, VarInfo)>>,
    b: Seq<Vec<(String, VarInfo)>>,
)
    ensures
        #[trigger] scopes_view(a + b) == scopes_view(a) + scopes_view(b),
{
    assert(scopes_view(a + b) =~= scopes_view(a) + scopes_view(b));
}

pub broadcast proof fn scopes_view_subrange(s: Seq<Vec<(String, VarInfo)>>, a: int, b: int)
    requires
        0 <= a <= b <= s.len(),
    ensures
        #[trigger] scopes_view(s.subrange(a, b)) == scopes_view(s).subrange(a, b),
{
    assert(scopes_view(s.subrange(a, b)) =~= scopes_view(s).subrange(a, b));
}

pub broadcast proof fn scopes_view_update(
    s: Seq<Vec<(String, VarInfo)>>,
    i: int,
    x: Vec<(String, VarInfo)>,
)
    requires
        0 <= i < s.len(),
    ensures
        #[trigger] scopes_view(s.update(i, x)) == scopes_view(s).update(i, scope_view(x@)),
{
    assert(scopes_view(s.update(i, x)) =~= scopes_view(s).update(i, scope_view(x@)));
}

pub fn dup_scopes(v: &Vec<Vec<(String, VarInfo)>>) -> (r: Vec<Vec<(String, VarInfo)>>)
    ensures
        scopes_view(r@) == scopes_view(v@),
{
    let mut r: Vec<Vec<(String, VarInfo)>> = Vec::new();
    let mut i: usize = 0;
    while i < v.len()
        invariant
            i <= v.len(),
            r.len() == i,
            forall|j: int| 0 <= j < i ==> #[trigger] scopes_view(r@)[j] == scopes_view(v@)[j],
        decreases v.len() - i,
    {
        let ghost before = r@;
        let x = &v[i];
        r.push(dup_scope(&x));
        proof {
            scopes_view_push(before, r@.last());
        }
        i += 1;
    }
    assert(scopes_view(r@) =~= scopes_view(v@));
    r
}

/// The bindings in scope, innermost last, and the declared types. Each scope
/// and each table is ordered by name.
#[derive(Debug, PartialEq)]
pub struct Env {
    pub scopes: Vec<Vec<(String, VarInfo)>>,
    pub structs: Vec<(String, StructInfo)>,
    pub enums: Vec<(String, EnumInfo)>,
}

/// The mathematical content of a [`Env`].
pub struct EnvView {
    pub scopes: Seq<Seq<(Seq<char>, VarInfoView)>>,
    pub structs: Seq<(Seq<char>, StructInfoView)>,
    pub enums: Seq<(Seq<char>, EnumInfoView)>,
}

pub open spec fn env_view(x: Env) -> EnvView
{
    EnvView {
        scopes: scopes_view(x.scopes@),
        structs: struct_infos_view(x.structs@),
        enums: enum_infos_view(x.enums@),
    }
}

impl View for Env {
    type V = EnvView;

    open spec fn view(&self) -> EnvView {
        env_view(*self)
    }
}

impl Env {
    /// A copy with the same content.
    pub fn dup(&self) -> (r: Self)
        ensures
            r@ == self@,
    {
        Env {
            scopes: dup_scopes(&self.scopes),
            structs: dup_struct_infos(&self.structs),
            enums: dup_enum_infos(&self.enums),
        }
    }
}

/// What callers know of a function.
#[derive(Debug, PartialEq)]
pub struct Signature {
    pub params: Vec<Type>,
    pub param_names: Vec<String>,
    pub return_type: Type,
    pub requires: Vec<Expr>,
    pub ensures: Vec<Expr>,
    pub is_pure: bool,
    /// For each parameter, whether the body locks it as a mutex.
    pub locks_params: Vec<bool>,
}

/// The mathematical content of a [`Signature`].
pub struct SignatureView {
    pub params: Seq<TypeView>,
    pub param_names: Seq<Seq<char>>,
    pub return_type: TypeView,
    pub requires: Seq<ExprView>,
    pub ensures: Seq<ExprView>,
    pub is_pure: bool,
    pub locks_params: Seq<bool>,
}

pub open spec fn signature_view(x: Signature) -> SignatureView
{
    SignatureView {
        params: crate::ast::types_view(x.params@),
        param_names: crate::text::strs_view(x.param_names@),
        return_type: crate::ast::type_view(x.return_type),
        requires: crate::ast::exprs_view(x.requires@),
        ensures: crate::ast::exprs_view(x.ensures@),
        is_pure: x.is_pure,
        locks_params: x.locks_params@,
    }
}

impl View for Signature {
    type V = SignatureView;

    open spec fn view(&self) -> SignatureView {
        signature_view(*self)
    }
}

impl Signature {
    /// A copy with the same content.
    pub fn dup(&self) -> (r: Self)
        ensures
            r@ == self@,
    {
        Signature {
            params: crate::ast::dup_types(&self.params),
            param_names: crate::text::dup_strs(&self.param_names),
            return_type: self.return_type.dup(),
            requires: crate::ast::dup_exprs(&self.requires),
            ensures: crate::ast::dup_exprs(&self.ensures),
            is_pure: self.is_pure,
            locks_params: crate::text::dup_plain(&self.locks_params),
        }
    }
}

pub open spec fn signatures_view(s: Seq<(String, Signature)>) -> Seq<(Seq<char>, SignatureView)>
{
    Seq::new(s.len(), |i: int| (s[i].0@, signature_view(s[i].1)))
}

pub broadcast proof fn signatures_view_push(s: Seq<(String, Signature)>, x: (String, Signature))
    ensures
        #[trigger] signatures_view(s.push(x)) == signatures_view(s).push((x.0@, signature_view(x.1))),
{
    assert(signatures_view(s.push(x)) =~= signatures_view(s).push((x.0@, signature_view(x.1))));
}

pub broadcast proof fn signatures_view_empty(s: Seq<(String, Signature)>)
    requires
        s.len() == 0,
    ensures
        #[trigger] signatures_view(s) == Seq::<(Seq<char>, SignatureView)>::empty(),
{
    assert(signatures_view(s) =~= Seq::<(Seq<char>, SignatureView)>::empty());
}

pub broadcast proof fn signatures_view_add(a: Seq<(String, Signature)>, b: Seq<(String, Signature)>)
    ensures
        #[trigger] signatures_view(a + b) == signatures_view(a) + signatures_view(b),
{
    assert(signatures_view(a + b) =~= signatures_view(a) + signatures_view(b));
}

pub broadcast proof fn signatures_view_subrange(s: Seq<(String, Signature)>, a: int, b: int)
    requires
        0 <= a <= b <= s.len(),
    ensures
        #[trigger] signatures_view(s.subrange(a, b)) == signatures_view(s).subrange(a, b),
{
    assert(signatures_view(s.subrange(a, b)) =~= signatures_view(s).subrange(a, b));
}

pub broadcast proof fn signatures_view_update(
    s: Seq<(String, Signature)>,
    i: int,
    x: (String, Signature),
)
    requires
        0 <= i < s.len(),
    ensures
        #[trigger] signatures_view(s.update(i, x)) == signatures_view(s).update(i, (x.0@, signature_view(x.1))),
{
    assert(
        signatures_view(s.update(i, x)) =~= signatures_view(s).update(
            i,
            (x.0@, signature_view(x.1)),
        )
    );
}

pub fn dup_signatures(v: &Vec<(String, Signature)>) -> (r: Vec<(String, Signature)>)
    ensures
        signatures_view(r@) == signatures_view(v@),
{
    let mut r: Vec<(String, Signature)> = Vec::new();
    let mut i: usize = 0;
    while i < v.len()
        invariant
            i <= v.len(),
            r.len() == i,
            forall|j: int| 0 <= j < i ==> #[trigger] signatures_view(r@)[j] == signatures_view(v@)[j],
        decreases v.len() - i,
    {
        let ghost before = r@;
        let x = &v[i];
        r.push((x.0.clone(), x.1.dup()));
        proof {
            signatures_view_push(before, r@.last());
        }
        i += 1;
    }
    assert(signatures_view(r@) =~= signatures_view(v@));
    r
}

/// What does not change while functions are checked.
#[derive(Debug, PartialEq)]
pub struct Context {
    pub signatures: Vec<(String, Signature)>,
    /// The structs that own something.
    pub owning_structs: Vec<String>,
    /// The enums that own something.
    pub owning_enums: Vec<String>,
    /// Whether obligations are sent to the prover.
    pub verify: bool,
}

/// The mathematical content of a [`Context`].
pub struct ContextView {
    pub signatures: Seq<(Seq<char>, SignatureView)>,
    pub owning_structs: Seq<Seq<char>>,
    pub owning_enums: Seq<Seq<char>>,
    pub verify: bool,
}

pub open spec fn context_view(x: Context) -> ContextView
{
    ContextView {
        signatures: signatures_view(x.signatures@),
        owning_structs: crate::text::strs_view(x.owning_structs@),
        owning_enums: crate::text::strs_view(x.owning_enums@),
        verify: x.verify,
    }
}

impl View for Context {
    type V = ContextView;

    open spec fn view(&self) -> ContextView {
        context_view(*self)
    }
}

impl Context {
    /// A copy with the same content.
    pub fn dup(&self) -> (r: Self)
        ensures
            r@ == self@,
    {
        Context {
            signatures: dup_signatures(&self.signatures),
            owning_structs: crate::text::dup_strs(&self.owning_structs),
            owning_enums: crate::text::dup_strs(&self.owning_enums),
            verify: self.verify,
        }
    }
}

/// An operation on floating-point values.
#[derive(Debug, PartialEq)]
pub enum FloatOp {
    Add,
    Sub,
    Mul,
    Div,
    /// Rounds to single precision.
    Narrow,
    /// The nearest value of an integer.
    FromInt(i128),
    /// The integer part.
    ToInt,
}

/// The mathematical content of a [`FloatOp`].
pub enum FloatOpView {
    Add,
    Sub,
    Mul,
    Div,
    Narrow,
    FromInt(i128),
    ToInt,
}

pub open spec fn float_op_view(x: FloatOp) -> FloatOpView
{
    match x {
        FloatOp::Add => FloatOpView::Add,
        FloatOp::Sub => FloatOpView::Sub,
        FloatOp::Mul => FloatOpView::Mul,
        FloatOp::Div => FloatOpView::Div,
        FloatOp::Narrow => FloatOpView::Narrow,
        FloatOp::FromInt(a) => FloatOpView::FromInt(a),
        FloatOp::ToInt => FloatOpView::ToInt,
    }
}

impl View for FloatOp {
    type V = FloatOpView;

    open spec fn view(&self) -> FloatOpView {
        float_op_view(*self)
    }
}

impl FloatOp {
    /// A copy with the same content.
    pub fn dup(&self) -> (r: Self)
        ensures
            r@ == self@,
    {
        match self {
            FloatOp::Add => FloatOp::Add,
            FloatOp::Sub => FloatOp::Sub,
            FloatOp::Mul => FloatOp::Mul,
            FloatOp::Div => FloatOp::Div,
            FloatOp::Narrow => FloatOp::Narrow,
            FloatOp::FromInt(a) => FloatOp::FromInt(*a),
            FloatOp::ToInt => FloatOp::ToInt,
        }
    }
}

/// A question that is answered outside: by a prover or by the machine's
/// floating-point unit.
#[derive(Debug, PartialEq)]
pub enum Query {
    Prove {
        goal: Expr,
        facts: Vec<Expr>,
        vars: Vec<(String, Type)>,
        versions: Vec<(String, u32)>,
    },
    Satisfy {
        facts: Vec<Expr>,
        vars: Vec<(String, Type)>,
        versions: Vec<(String, u32)>,
    },
    Float { op: FloatOp, left: FloatLit, right: FloatLit },
}

/// The mathematical content of a [`Query`].
pub enum QueryView {
    Prove {
        goal: ExprView,
        facts: Seq<ExprView>,
        vars: Seq<(Seq<char>, TypeView)>,
        versions: Seq<(Seq<char>, u32)>,
    },
    Satisfy {
        facts: Seq<ExprView>,
        vars: Seq<(Seq<char>, TypeView)>,
        versions: Seq<(Seq<char>, u32)>,
    },
    Float { op: FloatOpView, left: FloatLitView, right: FloatLitView },
}

pub open spec fn query_view(x: Query) -> QueryView
{
    match x {
        Query::Prove { goal, facts, vars, versions } => QueryView::Prove {
            goal: crate::ast::expr_view(goal),
            facts: crate::ast::exprs_view(facts@),
            vars: crate::ir::named_types_view(vars@),
            versions: crate::ir::numbered_names_view(versions@),
        },
        Query::Satisfy { facts, vars, versions } => QueryView::Satisfy {
            facts: crate::ast::exprs_view(facts@),
            vars: crate::ir::named_types_view(vars@),
            versions: crate::ir::numbered_names_view(versions@),
        },
        Query::Float { op, left, right } => QueryView::Float {
            op: float_op_view(op),
            left: crate::ast::float_lit_view(left),
            right: crate::ast::float_lit_view(right),
        },
    }
}

impl View for Query {
    type V = QueryView;

    open spec fn view(&self) -> QueryView {
        query_view(*self)
    }
}

impl Query {
    /// A copy with the same content.
    pub fn dup(&self) -> (r: Self)
        ensures
            r@ == self@,
    {
        match self {
            Query::Prove { goal, facts, vars, versions } => Query::Prove {
                goal: goal.dup(),
                facts: crate::ast::dup_exprs(facts),
                vars: crate::ir::dup_named_types(vars),
                versions: crate::ir::dup_numbered_names(versions),
            },
            Query::Satisfy { facts, vars, versions } => Query::Satisfy {
                facts: crate::ast::dup_exprs(facts),
                vars: crate::ir::dup_named_types(vars),
                versions: crate::ir::dup_numbered_names(versions),
            },
            Query::Float { op, left, right } => Query::Float {
                op: op.dup(),
                left: left.dup(),
                right: right.dup(),
            },
        }
    }
}

/// A prover's verdict on an obligation.
#[derive(Debug, PartialEq)]
pub enum Verdict {
    Proven,
    Disproven { counterexample: Option<String> },
    Unknown,
    Unavailable,
    Unsupported(String),
}

/// The mathematical content of a [`Verdict`].
pub enum VerdictView {
    Proven,
    Disproven { counterexample: Option<Seq<char>> },
    Unknown,
    Unavailable,
    Unsupported(Seq<char>),
}

pub open spec fn verdict_view(x: Verdict) -> VerdictView
{
    match x {
        Verdict::Proven => VerdictView::Proven,
        Verdict::Disproven { counterexample } => VerdictView::Disproven {
            counterexample: (match counterexample { Some(v0) => Some(v0@), None => None }),
        },
        Verdict::Unknown => VerdictView::Unknown,
        Verdict::Unavailable => VerdictView::Unavailable,
        Verdict::Unsupported(a) => VerdictView::Unsupported(a@),
    }
}

impl View for Verdict {
    type V = VerdictView;

    open spec fn view(&self) -> VerdictView {
        verdict_view(*self)
    }
}

impl Verdict {
    /// A copy with the same content.
    pub fn dup(&self) -> (r: Self)
        ensures
            r@ == self@,
    {
        match self {
            Verdict::Proven => Verdict::Proven,
            Verdict::Disproven { counterexample } => Verdict::Disproven {
                counterexample: match counterexample {
                Some(v) => Some(v.clone()),
                None => None,
            },
            },
            Verdict::Unknown => Verdict::Unknown,
            Verdict::Unavailable => Verdict::Unavailable,
            Verdict::Unsupported(a) => Verdict::Unsupported(a.clone()),
        }
    }
}

/// An answer to a [`Query`].
#[derive(Debug, PartialEq)]
pub enum Answer {
    Verdict(Verdict),
    /// Whether a list of facts was shown to have no model.
    Unsatisfiable(bool),
    Float(FloatLit),
    Int(Option<i128>),
}

/// The mathematical content of a [`Answer`].
pub enum AnswerView {
    Verdict(VerdictView),
    Unsatisfiable(bool),
    Float(FloatLitView),
    Int(Option<i128>),
}

pub open spec fn answer_view(x: Answer) -> AnswerView
{
    match x {
        Answer::Verdict(a) => AnswerView::Verdict(verdict_view(a)),
        Answer::Unsatisfiable(a) => AnswerView::Unsatisfiable(a),
        Answer::Float(a) => AnswerView::Float(crate::ast::float_lit_view(a)),
        Answer::Int(a) => AnswerView::Int(a),
    }
}

impl View for Answer {
    type V = AnswerView;

    open spec fn view(&self) -> AnswerView {
        answer_view(*self)
    }
}

impl Answer {
    /// A copy with the same content.
    pub fn dup(&self) -> (r: Self)
        ensures
            r@ == self@,
    {
        match self {
            Answer::Verdict(a) => Answer::Verdict(a.dup()),
            Answer::Unsatisfiable(a) => Answer::Unsatisfiable(*a),
            Answer::Float(a) => Answer::Float(a.dup()),
            Answer::Int(a) => Answer::Int(*a),
        }
    }
}

pub open spec fn answers_view(s: Seq<Answer>) -> Seq<AnswerView>
{
    Seq::new(s.len(), |i: int| answer_view(s[i]))
}

pub broadcast proof fn answers_view_push(s: Seq<Answer>, x: Answer)
    ensures
        #[trigger] answers_view(s.push(x)) == answers_view(s).push(answer_view(x)),
{
    assert(answers_view(s.push(x)) =~= answers_view(s).push(answer_view(x)));
}

pub broadcast proof fn answers_view_empty(s: Seq<Answer>)
    requires
        s.len() == 0,
    ensures
        #[trigger] answers_view(s) == Seq::<AnswerView>::empty(),
{
    assert(answers_view(s) =~= Seq::<AnswerView>::empty());
}

pub broadcast proof fn answers_view_add(a: Seq<Answer>, b: Seq<Answer>)
    ensures
        #[trigger] answers_view(a + b) == answers_view(a) + answers_view(b),
{
    assert(answers_view(a + b) =~= answers_view(a) + answers_view(b));
}

pub broadcast proof fn answers_view_subrange(s: Seq<Answer>, a: int, b: int)
    requires
        0 <= a <= b <= s.len(),
    ensures
        #[trigger] answers_view(s.subrange(a, b)) == answers_view(s).subrange(a, b),
{
    assert(answers_view(s.subrange(a, b)) =~= answers_view(s).subrange(a, b));
}

pub broadcast proof fn answers_view_update(s: Seq<Answer>, i: int, x: Answer)
    requires
        0 <= i < s.len(),
    ensures
        #[trigger] answers_view(s.update(i, x)) == answers_view(s).update(i, answer_view(x)),
{
    assert(answers_view(s.update(i, x)) =~= answers_view(s).update(i, answer_view(x)));
}

pub fn dup_answers(v: &Vec<Answer>) -> (r: Vec<Answer>)
    ensures
        answers_view(r@) == answers_view(v@),
{
    let mut r: Vec<Answer> = Vec::new();
    let mut i: usize = 0;
    while i < v.len()
        invariant
            i <= v.len(),
            r.len() == i,
            forall|j: int| 0 <= j < i ==> #[trigger] answers_view(r@)[j] == answers_view(v@)[j],
        decreases v.len() - i,
    {
        let ghost before = r@;
        let x = &v[i];
        r.push(x.dup());
        proof {
            answers_view_push(before, r@.last());
        }
        i += 1;
    }
    assert(answers_view(r@) =~= answers_view(v@));
    r
}

/// What changes while functions are checked.
#[derive(Debug, PartialEq)]
pub struct State {
    pub env: Env,
    pub diagnostics: Vec<Diagnostic>,
    /// What is known to hold at this point.
    pub facts: Vec<Expr>,
    /// The answers to the questions asked, in order.
    pub answers: Vec<Answer>,
    /// How many answers have been used.
    pub used: usize,
    /// The first question that no answer was left for.
    pub pending: Option<Query>,
}

/// The mathematical content of a [`State`].
pub struct StateView {
    pub env: EnvView,
    pub diagnostics: Seq<DiagnosticView>,
    pub facts: Seq<ExprView>,
    pub answers: Seq<AnswerView>,
    pub used: int,
    pub pending: Option<QueryView>,
}

pub open spec fn state_view(x: State) -> StateView
{
    StateView {
        env: env_view(x.env),
        diagnostics: crate::diagnostic::diagnostics_view(x.diagnostics@),
        facts: crate::ast::exprs_view(x.facts@),
        answers: answers_view(x.answers@),
        used: x.used as int,
        pending: (match x.pending { Some(v0) => Some(query_view(v0)), None => None }),
    }
}

impl View for State {
    type V = StateView;

    open spec fn view(&self) -> StateView {
        state_view(*self)
    }
}

impl State {
    /// A copy with the same content.
    pub fn dup(&self) -> (r: Self)
        ensures
            r@ == self@,
    {
        State {
            env: self.env.dup(),
            diagnostics: crate::diagnostic::dup_diagnostics(&self.diagnostics),
            facts: crate::ast::dup_exprs(&self.facts),
            answers: dup_answers(&self.answers),
            used: self.used,
            pending: match &self.pending {
                Some(v) => Some(v.dup()),
                None => None,
            },
        }
    }
}

/// A loop that the statement being checked stands in.
#[derive(Debug, PartialEq)]
pub struct LoopFrame {
    /// The bindings before the loop.
    pub pre_env: Env,
    /// How many scopes there are in the loop's body.
    pub body_scope_depth: usize,
}

/// The mathematical content of a [`LoopFrame`].
pub struct LoopFrameView {
    pub pre_env: EnvView,
    pub body_scope_depth: int,
}

pub open spec fn loop_frame_view(x: LoopFrame) -> LoopFrameView
{
    LoopFrameView {
        pre_env: env_view(x.pre_env),
        body_scope_depth: x.body_scope_depth as int,
    }
}

impl View for LoopFrame {
    type V = LoopFrameView;

    open spec fn view(&self) -> LoopFrameView {
        loop_frame_view(*self)
    }
}

impl LoopFrame {
    /// A copy with the same content.
    pub fn dup(&self) -> (r: Self)
        ensures
            r@ == self@,
    {
        LoopFrame {
            pre_env: self.pre_env.dup(),
            body_scope_depth: self.body_scope_depth,
        }
    }
}

/// A checked expression; a literal that fits no annotation yet may still take
/// another numeric type.
#[derive(Debug, PartialEq)]
pub struct CheckedExpr {
    pub expr: TypedExpr,
    pub flexible_integer: bool,
    pub flexible_float: bool,
}

/// The mathematical content of a [`CheckedExpr`].
pub struct CheckedExprView {
    pub expr: TypedExprView,
    pub flexible_integer: bool,
    pub flexible_float: bool,
}

pub open spec fn checked_expr_view(x: CheckedExpr) -> CheckedExprView
{
    CheckedExprView {
        expr: crate::ir::typed_expr_view(x.expr),
        flexible_integer: x.flexible_integer,
        flexible_float: x.flexible_float,
    }
}

impl View for CheckedExpr {
    type V = CheckedExprView;

    open spec fn view(&self) -> CheckedExprView {
        checked_expr_view(*self)
    }
}

impl CheckedExpr {
    /// A copy with the same content.
    pub fn dup(&self) -> (r: Self)
        ensures
            r@ == self@,
    {
        CheckedExpr {
            expr: self.expr.dup(),
            flexible_integer: self.flexible_integer,
            flexible_float: self.flexible_float,
        }
    }
}

pub open spec fn loop_frames_view(s: Seq<LoopFrame>) -> Seq<LoopFrameView>
{
    Seq::new(s.len(), |i: int| loop_frame_view(s[i]))
}

pub broadcast proof fn loop_frames_view_push(s: Seq<LoopFrame>, x: LoopFrame)
    ensures
        #[trigger] loop_frames_view(s.push(x)) == loop_frames_view(s).push(loop_frame_view(x)),
{
    assert(loop_frames_view(s.push(x)) =~= loop_frames_view(s).push(loop_frame_view(x)));
}

pub broadcast proof fn loop_frames_view_empty(s: Seq<LoopFrame>)
    requires
        s.len() == 0,
    ensures
        #[trigger] loop_frames_view(s) == Seq::<LoopFrameView>::empty(),
{
    assert(loop_frames_view(s) =~= Seq::<LoopFrameView>::empty());
}

pub broadcast proof fn loop_frames_view_add(a: Seq<LoopFrame>, b: Seq<LoopFrame>)
    ensures
        #[trigger] loop_frames_view(a + b) == loop_frames_view(a) + loop_frames_view(b),
{
    assert(loop_frames_view(a + b) =~= loop_frames_view(a) + loop_frames_view(b));
}

pub broadcast proof fn loop_frames_view_subrange(s: Seq<LoopFrame>, a: int, b: int)
    requires
        0 <= a <= b <= s.len(),
    ensures
        #[trigger] loop_frames_view(s.subrange(a, b)) == loop_frames_view(s).subrange(a, b),
{
    assert(loop_frames_view(s.subrange(a, b)) =~= loop_frames_view(s).subrange(a, b));
}

pub broadcast proof fn loop_frames_view_update(s: Seq<LoopFrame>, i: int, x: LoopFrame)
    requires
        0 <= i < s.len(),
    ensures
        #[trigger] loop_frames_view(s.update(i, x)) == loop_frames_view(s).update(i, loop_frame_view(x)),
{
    assert(loop_frames_view(s.update(i, x)) =~= loop_frames_view(s).update(i, loop_frame_view(x)));
}

pub fn dup_loop_frames(v: &Vec<LoopFrame>) -> (r: Vec<LoopFrame>)
    ensures
        loop_frames_view(r@) == loop_frames_view(v@),
{
    let mut r: Vec<LoopFrame> = Vec::new();
    let mut i: usize = 0;
    while i < v.len()
        invariant
            i <= v.len(),
            r.len() == i,
            forall|j: int| 0 <= j < i ==> #[trigger] loop_frames_view(r@)[j] == loop_frames_view(v@)[j],
        decreases v.len() - i,
    {
        let ghost before = r@;
        let x = &v[i];
        r.push(x.dup());
        proof {
            loop_frames_view_push(before, r@.last());
        }
        i += 1;
    }
    assert(loop_frames_view(r@) =~= loop_frames_view(v@));
    r
}

pub open spec fn checked_exprs_view(s: Seq<CheckedExpr>) -> Seq<CheckedExprView>
{
    Seq::new(s.len(), |i: int| checked_expr_view(s[i]))
}

pub broadcast proof fn checked_exprs_view_push(s: Seq<CheckedExpr>, x: CheckedExpr)
    ensures
        #[trigger] checked_exprs_view(s.push(x)) == checked_exprs_view(s).push(checked_expr_view(x)),
{
    assert(checked_exprs_view(s.push(x)) =~= checked_exprs_view(s).push(checked_expr_view(x)));
}

pub broadcast proof fn checked_exprs_view_empty(s: Seq<CheckedExpr>)
    requires
        s.len() == 0,
    ensures
        #[trigger] checked_exprs_view(s) == Seq::<CheckedExprView>::empty(),
{
    assert(checked_exprs_view(s) =~= Seq::<CheckedExprView>::empty());
}

pub broadcast proof fn checked_exprs_view_add(a: Seq<CheckedExpr>, b: Seq<CheckedExpr>)
    ensures
        #[trigger] checked_exprs_view(a + b) == checked_exprs_view(a) + checked_exprs_view(b),
{
    assert(checked_exprs_view(a + b) =~= checked_exprs_view(a) + checked_exprs_view(b));
}

pub broadcast proof fn checked_exprs_view_subrange(s: Seq<CheckedExpr>, a: int, b: int)
    requires
        0 <= a <= b <= s.len(),
    ensures
        #[trigger] checked_exprs_view(s.subrange(a, b)) == checked_exprs_view(s).subrange(a, b),
{
    assert(checked_exprs_view(s.subrange(a, b)) =~= checked_exprs_view(s).subrange(a, b));
}

pub broadcast proof fn checked_exprs_view_update(s: Seq<CheckedExpr>, i: int, x: CheckedExpr)
    requires
        0 <= i < s.len(),
    ensures
        #[trigger] checked_exprs_view(s.update(i, x)) == checked_exprs_view(s).update(i, checked_expr_view(x)),
{
    assert(
        checked_exprs_view(s.update(i, x)) =~= checked_exprs_view(s).update(i, checked_expr_view(x))
    );
}

/// A change to every type of a program.
#[derive(Debug, PartialEq)]
pub enum TypeRewrite {
    /// Struct names in the list name enums.
    Enums(Vec<String>),
    /// Struct names in the table stand for other types.
    Aliases(Vec<(String, Type)>),
    /// A type parameter stands for a concrete type.
    Parameter(String, Type),
}

/// The mathematical content of a [`TypeRewrite`].
pub enum TypeRewriteView {
    Enums(Seq<Seq<char>>),
    Aliases(Seq<(Seq<char>, TypeView)>),
    Parameter(Seq<char>, TypeView),
}

pub open spec fn type_rewrite_view(x: TypeRewrite) -> TypeRewriteView
{
    match x {
        TypeRewrite::Enums(a) => TypeRewriteView::Enums(crate::text::strs_view(a@)),
        TypeRewrite::Aliases(a) => TypeRewriteView::Aliases(crate::ir::named_types_view(a@)),
        TypeRewrite::Parameter(a, b) => TypeRewriteView::Parameter(a@, crate::ast::type_view(b)),
    }
}

impl View for TypeRewrite {
    type V = TypeRewriteView;

    open spec fn view(&self) -> TypeRewriteView {
        type_rewrite_view(*self)
    }
}

impl TypeRewrite {
    /// A copy with the same content.
    pub fn dup(&self) -> (r: Self)
        ensures
            r@ == self@,
    {
        match self {
            TypeRewrite::Enums(a) => TypeRewrite::Enums(crate::text::dup_strs(a)),
            TypeRewrite::Aliases(a) => TypeRewrite::Aliases(crate::ir::dup_named_types(a)),
            TypeRewrite::Parameter(a, b) => TypeRewrite::Parameter(a.clone(), b.dup()),
        }
    }
}

pub open spec fn alias_table_view(s: Seq<(String, TypeAlias)>) -> Seq<(Seq<char>, TypeAliasView)>
{
    Seq::new(s.len(), |i: int| (s[i].0@, crate::ast::type_alias_view(s[i].1)))
}

pub broadcast proof fn alias_table_view_push(s: Seq<(String, TypeAlias)>, x: (String, TypeAlias))
    ensures
        #[trigger] alias_table_view(s.push(x)) == alias_table_view(s).push((x.0@, crate::ast::type_alias_view(x.1))),
{
    assert(
        alias_table_view(s.push(x)) =~= alias_table_view(s).push((x.0@, crate::ast::type_alias_view(x.1)))
    );
}

pub broadcast proof fn alias_table_view_empty(s: Seq<(String, TypeAlias)>)
    requires
        s.len() == 0,
    ensures
        #[trigger] alias_table_view(s) == Seq::<(Seq<char>, TypeAliasView)>::empty(),
{
    assert(alias_table_view(s) =~= Seq::<(Seq<char>, TypeAliasView)>::empty());
}

pub broadcast proof fn alias_table_view_add(
    a: Seq<(String, TypeAlias)>,
    b: Seq<(String, TypeAlias)>,
)
    ensures
        #[trigger] alias_table_view(a + b) == alias_table_view(a) + alias_table_view(b),
{
    assert(alias_table_view(a + b) =~= alias_table_view(a) + alias_table_view(b));
}

pub broadcast proof fn alias_table_view_subrange(s: Seq<(String, TypeAlias)>, a: int, b: int)
    requires
        0 <= a <= b <= s.len(),
    ensures
        #[trigger] alias_table_view(s.subrange(a, b)) == alias_table_view(s).subrange(a, b),
{
    assert(alias_table_view(s.subrange(a, b)) =~= alias_table_view(s).subrange(a, b));
}

pub broadcast proof fn alias_table_view_update(
    s: Seq<(String, TypeAlias)>,
    i: int,
    x: (String, TypeAlias),
)
    requires
        0 <= i < s.len(),
    ensures
        #[trigger] alias_table_view(s.update(i, x)) == alias_table_view(s).update(i, (x.0@, crate::ast::type_alias_view(x.1))),
{
    assert(
        alias_table_view(s.update(i, x)) =~= alias_table_view(s).update(
            i,
            (x.0@, crate::ast::type_alias_view(x.1)),
        )
    );
}

/// The calls replaced by fresh variables: the variables with their types,
/// what is known of them, and the calls they stand for.
#[derive(Debug, PartialEq)]
pub struct CallRewrite {
    pub vars: Vec<(String, Type)>,
    pub facts: Vec<Expr>,
    pub labels: Vec<(String, String)>,
}

/// The mathematical content of a [`CallRewrite`].
pub struct CallRewriteView {
    pub vars: Seq<(Seq<char>, TypeView)>,
    pub facts: Seq<ExprView>,
    pub labels: Seq<(Seq<char>, Seq<char>)>,
}

pub open spec fn call_rewrite_view(x: CallRewrite) -> CallRewriteView
{
    CallRewriteView {
        vars: crate::ir::named_types_view(x.vars@),
        facts: crate::ast::exprs_view(x.facts@),
        labels: labels_view(x.labels@),
    }
}

impl View for CallRewrite {
    type V = CallRewriteView;

    open spec fn view(&self) -> CallRewriteView {
        call_rewrite_view(*self)
    }
}

impl CallRewrite {
    /// A copy with the same content.
    pub fn dup(&self) -> (r: Self)
        ensures
            r@ == self@,
    {
        CallRewrite {
            vars: crate::ir::dup_named_types(&self.vars),
            facts: crate::ast::dup_exprs(&self.facts),
            labels: dup_labels(&self.labels),
        }
    }
}

pub open spec fn labels_view(s: Seq<(String, String)>) -> Seq<(Seq<char>, Seq<char>)>
{
    Seq::new(s.len(), |i: int| (s[i].0@, s[i].1@))
}

pub broadcast proof fn labels_view_push(s: Seq<(String, String)>, x: (String, String))
    ensures
        #[trigger] labels_view(s.push(x)) == labels_view(s).push((x.0@, x.1@)),
{
    assert(labels_view(s.push(x)) =~= labels_view(s).push((x.0@, x.1@)));
}

pub broadcast proof fn labels_view_empty(s: Seq<(String, String)>)
    requires
        s.len() == 0,
    ensures
        #[trigger] labels_view(s) == Seq::<(Seq<char>, Seq<char>)>::empty(),
{
    assert(labels_view(s) =~= Seq::<(Seq<char>, Seq<char>)>::empty());
}

pub broadcast proof fn labels_view_add(a: Seq<(String, String)>, b: Seq<(String, String)>)
    ensures
        #[trigger] labels_view(a + b) == labels_view(a) + labels_view(b),
{
    assert(labels_view(a + b) =~= labels_view(a) + labels_view(b));
}

pub broadcast proof fn labels_view_subrange(s: Seq<(String, String)>, a: int, b: int)
    requires
        0 <= a <= b <= s.len(),
    ensures
        #[trigger] labels_view(s.subrange(a, b)) == labels_view(s).subrange(a, b),
{
    assert(labels_view(s.subrange(a, b)) =~= labels_view(s).subrange(a, b));
}

pub broadcast proof fn labels_view_update(s: Seq<(String, String)>, i: int, x: (String, String))
    requires
        0 <= i < s.len(),
    ensures
        #[trigger] labels_view(s.update(i, x)) == labels_view(s).update(i, (x.0@, x.1@)),
{
    assert(labels_view(s.update(i, x)) =~= labels_view(s).update(i, (x.0@, x.1@)));
}

pub fn dup_labels(v: &Vec<(String, String)>) -> (r: Vec<(String, String)>)
    ensures
        labels_view(r@) == labels_view(v@),
{
    let mut r: Vec<(String, String)> = Vec::new();
    let mut i: usize = 0;
    while i < v.len()
        invariant
            i <= v.len(),
            r.len() == i,
            forall|j: int| 0 <= j < i ==> #[trigger] labels_view(r@)[j] == labels_view(v@)[j],
        decreases v.len() - i,
    {
        let ghost before = r@;
        let x = &v[i];
        r.push((x.0.clone(), x.1.clone()));
        proof {
            labels_view_push(before, r@.last());
        }
        i += 1;
    }
    assert(labels_view(r@) =~= labels_view(v@));
    r
}

/// A declared constant.
#[derive(Debug, PartialEq)]
pub struct ConstInfo {
    pub ty: Type,
    pub value: TypedConst,
    pub decl_span: Span,
}

/// The mathematical content of a [`ConstInfo`].
pub struct ConstInfoView {
    pub ty: TypeView,
    pub value: TypedConstView,
    pub decl_span: Span,
}

pub open spec fn const_info_view(x: ConstInfo) -> ConstInfoView
{
    ConstInfoView {
        ty: crate::ast::type_view(x.ty),
        value: crate::ir::typed_const_view(x.value),
        decl_span: x.decl_span,
    }
}

impl View for ConstInfo {
    type V = ConstInfoView;

    open spec fn view(&self) -> ConstInfoView {
        const_info_view(*self)
    }
}

impl ConstInfo {
    /// A copy with the same content.
    pub fn dup(&self) -> (r: Self)
        ensures
            r@ == self@,
    {
        ConstInfo {
            ty: self.ty.dup(),
            value: self.value.dup(),
            decl_span: self.decl_span,
        }
    }
}

/// The structs that a struct holds by value.
#[derive(Debug, PartialEq)]
pub struct Layout {
    pub name: String,
    pub inline: Vec<String>,
}

/// The mathematical content of a [`Layout`].
pub struct LayoutView {
    pub name: Seq<char>,
    pub inline: Seq<Seq<char>>,
}

pub open spec fn layout_view(x: Layout) -> LayoutView
{
    LayoutView {
        name: x.name@,
        inline: crate::text::strs_view(x.inline@),
    }
}

impl View for Layout {
    type V = LayoutView;

    open spec fn view(&self) -> LayoutView {
        layout_view(*self)
    }
}

impl Layout {
    /// A copy with the same content.
    pub fn dup(&self) -> (r: Self)
        ensures
            r@ == self@,
    {
        Layout {
            name: self.name.clone(),
            inline: crate::text::dup_strs(&self.inline),
        }
    }
}

pub open spec fn const_infos_view(s: Seq<(String, ConstInfo)>) -> Seq<(Seq<char>, ConstInfoView)>
{
    Seq::new(s.len(), |i: int| (s[i].0@, const_info_view(s[i].1)))
}

pub broadcast proof fn const_infos_view_push(s: Seq<(String, ConstInfo)>, x: (String, ConstInfo))
    ensures
        #[trigger] const_infos_view(s.push(x)) == const_infos_view(s).push((x.0@, const_info_view(x.1))),
{
    assert(const_infos_view(s.push(x)) =~= const_infos_view(s).push((x.0@, const_info_view(x.1))));
}

pub broadcast proof fn const_infos_view_empty(s: Seq<(String, ConstInfo)>)
    requires
        s.len() == 0,
    ensures
        #[trigger] const_infos_view(s) == Seq::<(Seq<char>, ConstInfoView)>::empty(),
{
    assert(const_infos_view(s) =~= Seq::<(Seq<char>, ConstInfoView)>::empty());
}

pub broadcast proof fn const_infos_view_add(
    a: Seq<(String, ConstInfo)>,
    b: Seq<(String, ConstInfo)>,
)
    ensures
        #[trigger] const_infos_view(a + b) == const_infos_view(a) + const_infos_view(b),
{
    assert(const_infos_view(a + b) =~= const_infos_view(a) + const_infos_view(b));
}

pub broadcast proof fn const_infos_view_subrange(s: Seq<(String, ConstInfo)>, a: int, b: int)
    requires
        0 <= a <= b <= s.len(),
    ensures
        #[trigger] const_infos_view(s.subrange(a, b)) == const_infos_view(s).subrange(a, b),
{
    assert(const_infos_view(s.subrange(a, b)) =~= const_infos_view(s).subrange(a, b));
}

pub broadcast proof fn const_infos_view_update(
    s: Seq<(String, ConstInfo)>,
    i: int,
    x: (String, ConstInfo),
)
    requires
        0 <= i < s.len(),
    ensures
        #[trigger] const_infos_view(s.update(i, x)) == const_infos_view(s).update(i, (x.0@, const_info_view(x.1))),
{
    assert(
        const_infos_view(s.update(i, x)) =~= const_infos_view(s).update(
            i,
            (x.0@, const_info_view(x.1)),
        )
    );
}

pub fn dup_const_infos(v: &Vec<(String, ConstInfo)>) -> (r: Vec<(String, ConstInfo)>)
    ensures
        const_infos_view(r@) == const_infos_view(v@),
{
    let mut r: Vec<(String, ConstInfo)> = Vec::new();
    let mut i: usize = 0;
    while i < v.len()
        invariant
            i <= v.len(),
            r.len() == i,
            forall|j: int| 0 <= j < i ==> #[trigger] const_infos_view(r@)[j] == const_infos_view(v@)[j],
        decreases v.len() - i,
    {
        let ghost before = r@;
        let x = &v[i];
        r.push((x.0.clone(), x.1.dup()));
        proof {
            const_infos_view_push(before, r@.last());
        }
        i += 1;
    }
    assert(const_infos_view(r@) =~= const_infos_view(v@));
    r
}

pub open spec fn layouts_view(s: Seq<Layout>) -> Seq<LayoutView>
{
    Seq::new(s.len(), |i: int| layout_view(s[i]))
}

pub broadcast proof fn layouts_view_push(s: Seq<Layout>, x: Layout)
    ensures
        #[trigger] layouts_view(s.push(x)) == layouts_view(s).push(layout_view(x)),
{
    assert(layouts_view(s.push(x)) =~= layouts_view(s).push(layout_view(x)));
}

pub broadcast proof fn layouts_view_empty(s: Seq<Layout>)
    requires
        s.len() == 0,
    ensures
        #[trigger] layouts_view(s) == Seq::<LayoutView>::empty(),
{
    assert(layouts_view(s) =~= Seq::<LayoutView>::empty());
}

pub broadcast proof fn layouts_view_add(a: Seq<Layout>, b: Seq<Layout>)
    ensures
        #[trigger] layouts_view(a + b) == layouts_view(a) + layouts_view(b),
{
    assert(layouts_view(a + b) =~= layouts_view(a) + layouts_view(b));
}

pub broadcast proof fn layouts_view_subrange(s: Seq<Layout>, a: int, b: int)
    requires
        0 <= a <= b <= s.len(),
    ensures
        #[trigger] layouts_view(s.subrange(a, b)) == layouts_view(s).subrange(a, b),
{
    assert(layouts_view(s.subrange(a, b)) =~= layouts_view(s).subrange(a, b));
}

pub broadcast proof fn layouts_view_update(s: Seq<Layout>, i: int, x: Layout)
    requires
        0 <= i < s.len(),
    ensures
        #[trigger] layouts_view(s.update(i, x)) == layouts_view(s).update(i, layout_view(x)),
{
    assert(layouts_view(s.update(i, x)) =~= layouts_view(s).update(i, layout_view(x)));
}

/// The declared types and constants, each table ordered by name.
#[derive(Debug, PartialEq)]
pub struct Registry {
    pub structs: Vec<(String, StructInfo)>,
    pub enums: Vec<(String, EnumInfo)>,
    pub consts: Vec<(String, ConstInfo)>,
}

/// The mathematical content of a [`Registry`].
pub struct RegistryView {
    pub structs: Seq<(Seq<char>, StructInfoView)>,
    pub enums: Seq<(Seq<char>, EnumInfoView)>,
    pub consts: Seq<(Seq<char>, ConstInfoView)>,
}

pub open spec fn registry_view(x: Registry) -> RegistryView
{
    RegistryView {
        structs: struct_infos_view(x.structs@),
        enums: enum_infos_view(x.enums@),
        consts: const_infos_view(x.consts@),
    }
}

impl View for Registry {
    type V = RegistryView;

    open spec fn view(&self) -> RegistryView {
        registry_view(*self)
    }
}

impl Registry {
    /// A copy with the same content.
    pub fn dup(&self) -> (r: Self)
        ensures
            r@ == self@,
    {
        Registry {
            structs: dup_struct_infos(&self.structs),
            enums: dup_enum_infos(&self.enums),
            consts: dup_const_infos(&self.consts),
        }
    }
}

/// Whether a list of diagnostics starts with another one.
#[verifier::opaque]
pub open spec fn extends(before: Seq<DiagnosticView>, after: Seq<DiagnosticView>) -> bool {
    before.is_prefix_of(after)
}

/// A list of diagnostics starts with itself.
pub broadcast proof fn extends_itself(a: Seq<DiagnosticView>)
    ensures
        #[trigger] extends(a, a),
{
    reveal(extends);
}

/// Nothing is lost where a diagnostic is added.
pub broadcast proof fn extends_push(
    a: Seq<DiagnosticView>,
    b: Seq<DiagnosticView>,
    d: DiagnosticView,
)
    requires
        extends(a, b),
    ensures
        #[trigger] extends(a, b.push(d)),
{
    reveal(extends);
}

/// Nothing is lost where diagnostics are added.
pub broadcast proof fn extends_add(
    a: Seq<DiagnosticView>,
    b: Seq<DiagnosticView>,
    more: Seq<DiagnosticView>,
)
    requires
        extends(a, b),
    ensures
        #[trigger] extends(a, b + more),
{
    reveal(extends);
}

/// What is kept twice is kept.
pub broadcast proof fn extends_twice(
    a: Seq<DiagnosticView>,
    b: Seq<DiagnosticView>,
    c: Seq<DiagnosticView>,
)
    requires
        #[trigger] extends(a, b),
        #[trigger] extends(b, c),
    ensures
        extends(a, c),
{
    reveal(extends);
}

/// A list that starts with another one is no shorter.
pub broadcast proof fn extends_is_longer(a: Seq<DiagnosticView>, b: Seq<DiagnosticView>)
    requires
        #[trigger] extends(a, b),
    ensures
        a.len() <= b.len(),
{
    reveal(extends);
}

pub broadcast group group_extends {
    extends_itself,
    extends_push,
    extends_add,
    extends_twice,
    extends_is_longer,
}

/// What every step of checking keeps: the diagnostics so far stay, in order
/// and in front; the answers stay and are used from the front; and a
/// question is pending only once they are used up, and stays the pending one.
pub open spec fn follows(before: StateView, after: StateView) -> bool {
    &&& extends(before.diagnostics, after.diagnostics)
    &&& after.answers == before.answers
    &&& before.used <= after.used
    &&& before.used <= before.answers.len() ==> after.used <= after.answers.len()
    &&& before.pending is Some ==> after.pending == before.pending
    &&& before.pending is None && after.pending is Some && before.used <= before.answers.len()
        ==> after.used == after.answers.len()
}

/// Whether bindings are laid out alike: as many scopes, and the same declared
/// types.
pub open spec fn same_scopes(before: EnvView, after: EnvView) -> bool {
    after.scopes.len() == before.scopes.len() && after.structs == before.structs && after.enums
        == before.enums
}

/// What every step inside a function keeps: each scope that it opens it also
/// leaves, and the declared types stay.
pub open spec fn balanced(before: StateView, after: StateView) -> bool {
    before.env.scopes.len() > 0 ==> same_scopes(before.env, after.env)
}

/// What every step inside an expression keeps: the facts that are known where
/// it stands.
pub open spec fn same_facts(before: StateView, after: StateView) -> bool {
    after.facts == before.facts
}

/// What every step that adds statements keeps: those that are there stay, in
/// order and in front.
#[verifier::opaque]
pub open spec fn grows(before: Seq<TypedStmtView>, after: Seq<TypedStmtView>) -> bool {
    before.is_prefix_of(after)
}

/// A list of statements starts with itself.
pub broadcast proof fn grows_from_itself(a: Seq<TypedStmtView>)
    ensures
        #[trigger] grows(a, a),
{
    reveal(grows);
}

/// Nothing is lost where a statement is added.
pub broadcast proof fn grows_by_one(a: Seq<TypedStmtView>, b: Seq<TypedStmtView>, s: TypedStmtView)
    requires
        grows(a, b),
    ensures
        #[trigger] grows(a, b.push(s)),
{
    reveal(grows);
}

/// Nothing is lost where statements are added.
pub broadcast proof fn grows_by_more(
    a: Seq<TypedStmtView>,
    b: Seq<TypedStmtView>,
    more: Seq<TypedStmtView>,
)
    requires
        grows(a, b),
    ensures
        #[trigger] grows(a, b + more),
{
    reveal(grows);
}

/// What is kept twice is kept.
pub broadcast proof fn grows_twice(
    a: Seq<TypedStmtView>,
    b: Seq<TypedStmtView>,
    c: Seq<TypedStmtView>,
)
    requires
        #[trigger] grows(a, b),
        #[trigger] grows(b, c),
    ensures
        grows(a, c),
{
    reveal(grows);
}

pub broadcast group group_grows {
    grows_from_itself,
    grows_by_one,
    grows_by_more,
    grows_twice,
}

pub broadcast group group_state_views {
    struct_infos_view_push,
    struct_infos_view_empty,
    struct_infos_view_add,
    struct_infos_view_subrange,
    struct_infos_view_update,
    enum_infos_view_push,
    enum_infos_view_empty,
    enum_infos_view_add,
    enum_infos_view_subrange,
    enum_infos_view_update,
    moved_fields_view_push,
    moved_fields_view_empty,
    moved_fields_view_add,
    moved_fields_view_subrange,
    moved_fields_view_update,
    scope_view_push,
    scope_view_empty,
    scope_view_add,
    scope_view_subrange,
    scope_view_update,
    scopes_view_push,
    scopes_view_empty,
    scopes_view_add,
    scopes_view_subrange,
    scopes_view_update,
    signatures_view_push,
    signatures_view_empty,
    signatures_view_add,
    signatures_view_subrange,
    signatures_view_update,
    answers_view_push,
    answers_view_empty,
    answers_view_add,
    answers_view_subrange,
    answers_view_update,
    loop_frames_view_push,
    loop_frames_view_empty,
    loop_frames_view_add,
    loop_frames_view_subrange,
    loop_frames_view_update,
    checked_exprs_view_push,
    checked_exprs_view_empty,
    checked_exprs_view_add,
    checked_exprs_view_subrange,
    checked_exprs_view_update,
    alias_table_view_push,
    alias_table_view_empty,
    alias_table_view_add,
    alias_table_view_subrange,
    alias_table_view_update,
    labels_view_push,
    labels_view_empty,
    labels_view_add,
    labels_view_subrange,
    labels_view_update,
    const_infos_view_push,
    const_infos_view_empty,
    const_infos_view_add,
    const_infos_view_subrange,
    const_infos_view_update,
    layouts_view_push,
    layouts_view_empty,
    layouts_view_add,
    layouts_view_subrange,
    layouts_view_update,
}

} // verus!
