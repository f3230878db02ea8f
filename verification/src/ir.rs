//! The typed program that checking produces.

use vstd::prelude::*;
use crate::ast::{
    BinaryOp, Expr, FloatLit, FloatLitView, ReductionOp, Span, Type, TypeView, UnaryOp,
};
use crate::calls::{is_wildcard};
use crate::registry::{payload_types};
use crate::scope::{checked};

verus! {

broadcast use {crate::text::group_text_views, crate::ast::group_ast_views};

#[derive(Debug, PartialEq)]
pub enum TypedConst {
    Int(i128),
    Float(FloatLit),
    Bool(bool),
}

/// The mathematical content of a [`TypedConst`].
pub enum TypedConstView {
    Int(i128),
    Float(FloatLitView),
    Bool(bool),
}

pub open spec fn typed_const_view(x: TypedConst) -> TypedConstView
    decreases x,
{
    match x {
        TypedConst::Int(a) => TypedConstView::Int(a),
        TypedConst::Float(a) => TypedConstView::Float(crate::ast::float_lit_view(a)),
        TypedConst::Bool(a) => TypedConstView::Bool(a),
    }
}

impl View for TypedConst {
    type V = TypedConstView;

    open spec fn view(&self) -> TypedConstView {
        typed_const_view(*self)
    }
}

impl TypedConst {
    /// A copy with the same content.
    pub fn dup(&self) -> (r: Self)
        ensures
            r@ == self@,
        decreases self,
    {
        match self {
            TypedConst::Int(a) => TypedConst::Int(*a),
            TypedConst::Float(a) => TypedConst::Float(a.dup()),
            TypedConst::Bool(a) => TypedConst::Bool(*a),
        }
    }
}

#[derive(Debug, PartialEq)]
pub enum TypedExprKind {
    Int(i128),
    Float(FloatLit),
    Bool(bool),
    Str(String),
    Var(String),
    Unary { op: UnaryOp, expr: Box<TypedExpr> },
    Binary { op: BinaryOp, left: Box<TypedExpr>, right: Box<TypedExpr>, checked: bool },
    Call { name: String, name_span: Span, args: Vec<TypedExpr> },
    Cast { expr: Box<TypedExpr>, ty: Type },
    ArrayLit { elements: Vec<TypedExpr> },
    Index { array: Box<TypedExpr>, index: Box<TypedExpr>, checked: bool },
    Len { array: Box<TypedExpr>, length: u64 },
    Ref { name: String },
    RefMut { name: String },
    RefField { object: String, field: String, field_index: u32, object_ty: Type },
    RefMutField { object: String, field: String, field_index: u32, object_ty: Type },
    FnRef { name: String, name_span: Span },
    CallIndirect { callee: Box<TypedExpr>, args: Vec<TypedExpr> },
    Tuple { elements: Vec<TypedExpr> },
    TupleAccess { tuple: Box<TypedExpr>, index: u32 },
    StructLit { struct_name: String, fields: Vec<(String, TypedExpr)> },
    FieldAccess { object: Box<TypedExpr>, field: String, field_index: u32 },
    EnumVariant { enum_name: String, variant: String, tag: u32 },
    EnumVariantWithPayload {
        enum_name: String,
        variant: String,
        tag: u32,
        payload: Box<TypedExpr>,
        payload_ty: Type,
    },
    Match { scrutinee: Box<TypedExpr>, arms: Vec<TypedMatchArm> },
    IfExpr { cond: Box<TypedExpr>, then_value: Box<TypedExpr>, else_value: Box<TypedExpr> },
    Block { stmts: Vec<TypedStmt>, tail: Box<TypedExpr> },
}

/// The mathematical content of a [`TypedExprKind`].
pub enum TypedExprKindView {
    Int(i128),
    Float(FloatLitView),
    Bool(bool),
    Str(Seq<char>),
    Var(Seq<char>),
    Unary { op: UnaryOp, expr: Box<TypedExprView> },
    Binary { op: BinaryOp, left: Box<TypedExprView>, right: Box<TypedExprView>, checked: bool },
    Call { name: Seq<char>, name_span: Span, args: Seq<TypedExprView> },
    Cast { expr: Box<TypedExprView>, ty: TypeView },
    ArrayLit { elements: Seq<TypedExprView> },
    Index { array: Box<TypedExprView>, index: Box<TypedExprView>, checked: bool },
    Len { array: Box<TypedExprView>, length: u64 },
    Ref { name: Seq<char> },
    RefMut { name: Seq<char> },
    RefField { object: Seq<char>, field: Seq<char>, field_index: u32, object_ty: TypeView },
    RefMutField { object: Seq<char>, field: Seq<char>, field_index: u32, object_ty: TypeView },
    FnRef { name: Seq<char>, name_span: Span },
    CallIndirect { callee: Box<TypedExprView>, args: Seq<TypedExprView> },
    Tuple { elements: Seq<TypedExprView> },
    TupleAccess { tuple: Box<TypedExprView>, index: u32 },
    StructLit { struct_name: Seq<char>, fields: Seq<(Seq<char>, TypedExprView)> },
    FieldAccess { object: Box<TypedExprView>, field: Seq<char>, field_index: u32 },
    EnumVariant { enum_name: Seq<char>, variant: Seq<char>, tag: u32 },
    EnumVariantWithPayload {
        enum_name: Seq<char>,
        variant: Seq<char>,
        tag: u32,
        payload: Box<TypedExprView>,
        payload_ty: TypeView,
    },
    Match { scrutinee: Box<TypedExprView>, arms: Seq<TypedMatchArmView> },
    IfExpr {
        cond: Box<TypedExprView>,
        then_value: Box<TypedExprView>,
        else_value: Box<TypedExprView>,
    },
    Block { stmts: Seq<TypedStmtView>, tail: Box<TypedExprView> },
}

pub open spec fn typed_expr_kind_view(x: TypedExprKind) -> TypedExprKindView
    decreases x,
{
    match x {
        TypedExprKind::Int(a) => TypedExprKindView::Int(a),
        TypedExprKind::Float(a) => TypedExprKindView::Float(crate::ast::float_lit_view(a)),
        TypedExprKind::Bool(a) => TypedExprKindView::Bool(a),
        TypedExprKind::Str(a) => TypedExprKindView::Str(a@),
        TypedExprKind::Var(a) => TypedExprKindView::Var(a@),
        TypedExprKind::Unary { op, expr } => TypedExprKindView::Unary {
            op: op,
            expr: Box::new(typed_expr_view(*expr)),
        },
        TypedExprKind::Binary { op, left, right, checked } => TypedExprKindView::Binary {
            op: op,
            left: Box::new(typed_expr_view(*left)),
            right: Box::new(typed_expr_view(*right)),
            checked: checked,
        },
        TypedExprKind::Call { name, name_span, args } => TypedExprKindView::Call {
            name: name@,
            name_span: name_span,
            args: typed_exprs_view(args@),
        },
        TypedExprKind::Cast { expr, ty } => TypedExprKindView::Cast {
            expr: Box::new(typed_expr_view(*expr)),
            ty: crate::ast::type_view(ty),
        },
        TypedExprKind::ArrayLit { elements } => TypedExprKindView::ArrayLit {
            elements: typed_exprs_view(elements@),
        },
        TypedExprKind::Index { array, index, checked } => TypedExprKindView::Index {
            array: Box::new(typed_expr_view(*array)),
            index: Box::new(typed_expr_view(*index)),
            checked: checked,
        },
        TypedExprKind::Len { array, length } => TypedExprKindView::Len {
            array: Box::new(typed_expr_view(*array)),
            length: length,
        },
        TypedExprKind::Ref { name } => TypedExprKindView::Ref {
            name: name@,
        },
        TypedExprKind::RefMut { name } => TypedExprKindView::RefMut {
            name: name@,
        },
        TypedExprKind::RefField {
            object,
            field,
            field_index,
            object_ty,
        } => TypedExprKindView::RefField {
            object: object@,
            field: field@,
            field_index: field_index,
            object_ty: crate::ast::type_view(object_ty),
        },
        TypedExprKind::RefMutField {
            object,
            field,
            field_index,
            object_ty,
        } => TypedExprKindView::RefMutField {
            object: object@,
            field: field@,
            field_index: field_index,
            object_ty: crate::ast::type_view(object_ty),
        },
        TypedExprKind::FnRef { name, name_span } => TypedExprKindView::FnRef {
            name: name@,
            name_span: name_span,
        },
        TypedExprKind::CallIndirect { callee, args } => TypedExprKindView::CallIndirect {
            callee: Box::new(typed_expr_view(*callee)),
            args: typed_exprs_view(args@),
        },
        TypedExprKind::Tuple { elements } => TypedExprKindView::Tuple {
            elements: typed_exprs_view(elements@),
        },
        TypedExprKind::TupleAccess { tuple, index } => TypedExprKindView::TupleAccess {
            tuple: Box::new(typed_expr_view(*tuple)),
            index: index,
        },
        TypedExprKind::StructLit { struct_name, fields } => TypedExprKindView::StructLit {
            struct_name: struct_name@,
            fields: named_typed_exprs_view(fields@),
        },
        TypedExprKind::FieldAccess {
            object,
            field,
            field_index,
        } => TypedExprKindView::FieldAccess {
            object: Box::new(typed_expr_view(*object)),
            field: field@,
            field_index: field_index,
        },
        TypedExprKind::EnumVariant { enum_name, variant, tag } => TypedExprKindView::EnumVariant {
            enum_name: enum_name@,
            variant: variant@,
            tag: tag,
        },
        TypedExprKind::EnumVariantWithPayload {
            enum_name,
            variant,
            tag,
            payload,
            payload_ty,
        } => TypedExprKindView::EnumVariantWithPayload {
            enum_name: enum_name@,
            variant: variant@,
            tag: tag,
            payload: Box::new(typed_expr_view(*payload)),
            payload_ty: crate::ast::type_view(payload_ty),
        },
        TypedExprKind::Match { scrutinee, arms } => TypedExprKindView::Match {
            scrutinee: Box::new(typed_expr_view(*scrutinee)),
            arms: typed_arms_view(arms@),
        },
        TypedExprKind::IfExpr { cond, then_value, else_value } => TypedExprKindView::IfExpr {
            cond: Box::new(typed_expr_view(*cond)),
            then_value: Box::new(typed_expr_view(*then_value)),
            else_value: Box::new(typed_expr_view(*else_value)),
        },
        TypedExprKind::Block { stmts, tail } => TypedExprKindView::Block {
            stmts: typed_stmts_view(stmts@),
            tail: Box::new(typed_expr_view(*tail)),
        },
    }
}

impl View for TypedExprKind {
    type V = TypedExprKindView;

    open spec fn view(&self) -> TypedExprKindView {
        typed_expr_kind_view(*self)
    }
}

impl TypedExprKind {
    /// A copy with the same content.
    pub fn dup(&self) -> (r: Self)
        ensures
            r@ == self@,
        decreases self,
    {
        match self {
            TypedExprKind::Int(a) => TypedExprKind::Int(*a),
            TypedExprKind::Float(a) => TypedExprKind::Float(a.dup()),
            TypedExprKind::Bool(a) => TypedExprKind::Bool(*a),
            TypedExprKind::Str(a) => TypedExprKind::Str(a.clone()),
            TypedExprKind::Var(a) => TypedExprKind::Var(a.clone()),
            TypedExprKind::Unary { op, expr } => TypedExprKind::Unary {
                op: *op,
                expr: Box::new(expr.dup()),
            },
            TypedExprKind::Binary { op, left, right, checked } => TypedExprKind::Binary {
                op: *op,
                left: Box::new(left.dup()),
                right: Box::new(right.dup()),
                checked: *checked,
            },
            TypedExprKind::Call { name, name_span, args } => TypedExprKind::Call {
                name: name.clone(),
                name_span: *name_span,
                args: dup_typed_exprs(args),
            },
            TypedExprKind::Cast { expr, ty } => TypedExprKind::Cast {
                expr: Box::new(expr.dup()),
                ty: ty.dup(),
            },
            TypedExprKind::ArrayLit { elements } => TypedExprKind::ArrayLit {
                elements: dup_typed_exprs(elements),
            },
            TypedExprKind::Index { array, index, checked } => TypedExprKind::Index {
                array: Box::new(array.dup()),
                index: Box::new(index.dup()),
                checked: *checked,
            },
            TypedExprKind::Len { array, length } => TypedExprKind::Len {
                array: Box::new(array.dup()),
                length: *length,
            },
            TypedExprKind::Ref { name } => TypedExprKind::Ref {
                name: name.clone(),
            },
            TypedExprKind::RefMut { name } => TypedExprKind::RefMut {
                name: name.clone(),
            },
            TypedExprKind::RefField {
                object,
                field,
                field_index,
                object_ty,
            } => TypedExprKind::RefField {
                object: object.clone(),
                field: field.clone(),
                field_index: *field_index,
                object_ty: object_ty.dup(),
            },
            TypedExprKind::RefMutField {
                object,
                field,
                field_index,
                object_ty,
            } => TypedExprKind::RefMutField {
                object: object.clone(),
                field: field.clone(),
                field_index: *field_index,
                object_ty: object_ty.dup(),
            },
            TypedExprKind::FnRef { name, name_span } => TypedExprKind::FnRef {
                name: name.clone(),
                name_span: *name_span,
            },
            TypedExprKind::CallIndirect { callee, args } => TypedExprKind::CallIndirect {
                callee: Box::new(callee.dup()),
                args: dup_typed_exprs(args),
            },
            TypedExprKind::Tuple { elements } => TypedExprKind::Tuple {
                elements: dup_typed_exprs(elements),
            },
            TypedExprKind::TupleAccess { tuple, index } => TypedExprKind::TupleAccess {
                tuple: Box::new(tuple.dup()),
                index: *index,
            },
            TypedExprKind::StructLit { struct_name, fields } => TypedExprKind::StructLit {
                struct_name: struct_name.clone(),
                fields: dup_named_typed_exprs(fields),
            },
            TypedExprKind::FieldAccess {
                object,
                field,
                field_index,
            } => TypedExprKind::FieldAccess {
                object: Box::new(object.dup()),
                field: field.clone(),
                field_index: *field_index,
            },
            TypedExprKind::EnumVariant { enum_name, variant, tag } => TypedExprKind::EnumVariant {
                enum_name: enum_name.clone(),
                variant: variant.clone(),
                tag: *tag,
            },
            TypedExprKind::EnumVariantWithPayload {
                enum_name,
                variant,
                tag,
                payload,
                payload_ty,
            } => TypedExprKind::EnumVariantWithPayload {
                enum_name: enum_name.clone(),
                variant: variant.clone(),
                tag: *tag,
                payload: Box::new(payload.dup()),
                payload_ty: payload_ty.dup(),
            },
            TypedExprKind::Match { scrutinee, arms } => TypedExprKind::Match {
                scrutinee: Box::new(scrutinee.dup()),
                arms: dup_typed_arms(arms),
            },
            TypedExprKind::IfExpr { cond, then_value, else_value } => TypedExprKind::IfExpr {
                cond: Box::new(cond.dup()),
                then_value: Box::new(then_value.dup()),
                else_value: Box::new(else_value.dup()),
            },
            TypedExprKind::Block { stmts, tail } => TypedExprKind::Block {
                stmts: dup_typed_stmts(stmts),
                tail: Box::new(tail.dup()),
            },
        }
    }
}

/// An expression with its type and, where it is known, its value.
#[derive(Debug, PartialEq)]
pub struct TypedExpr {
    pub kind: TypedExprKind,
    pub ty: Type,
    pub constant: Option<TypedConst>,
    pub span: Span,
    /// Where the binding that the expression names was declared.
    pub binding_decl_span: Option<Span>,
}

/// The mathematical content of a [`TypedExpr`].
pub struct TypedExprView {
    pub kind: TypedExprKindView,
    pub ty: TypeView,
    pub constant: Option<TypedConstView>,
    pub span: Span,
    pub binding_decl_span: Option<Span>,
}

pub open spec fn typed_expr_view(x: TypedExpr) -> TypedExprView
    decreases x,
{
    TypedExprView {
        kind: typed_expr_kind_view(x.kind),
        ty: crate::ast::type_view(x.ty),
        constant: (match x.constant { Some(v0) => Some(typed_const_view(v0)), None => None }),
        span: x.span,
        binding_decl_span: x.binding_decl_span,
    }
}

impl View for TypedExpr {
    type V = TypedExprView;

    open spec fn view(&self) -> TypedExprView {
        typed_expr_view(*self)
    }
}

impl TypedExpr {
    /// A copy with the same content.
    pub fn dup(&self) -> (r: Self)
        ensures
            r@ == self@,
        decreases self,
    {
        TypedExpr {
            kind: self.kind.dup(),
            ty: self.ty.dup(),
            constant: match &self.constant {
                Some(v) => Some(v.dup()),
                None => None,
            },
            span: self.span,
            binding_decl_span: self.binding_decl_span,
        }
    }
}

#[derive(Debug, PartialEq)]
pub struct TypedMatchArm {
    pub variant: String,
    pub tag: u32,
    pub is_wildcard: bool,
    pub int_value: Option<i128>,
    pub binding: Option<(String, Type)>,
    pub body: TypedExpr,
}

/// The mathematical content of a [`TypedMatchArm`].
pub struct TypedMatchArmView {
    pub variant: Seq<char>,
    pub tag: u32,
    pub is_wildcard: bool,
    pub int_value: Option<i128>,
    pub binding: Option<(Seq<char>, TypeView)>,
    pub body: TypedExprView,
}

pub open spec fn typed_match_arm_view(x: TypedMatchArm) -> TypedMatchArmView
    decreases x,
{
    TypedMatchArmView {
        variant: x.variant@,
        tag: x.tag,
        is_wildcard: x.is_wildcard,
        int_value: x.int_value,
        binding: (match x.binding { Some(v0) => Some((v0.0@, crate::ast::type_view(v0.1))), None => None }),
        body: typed_expr_view(x.body),
    }
}

impl View for TypedMatchArm {
    type V = TypedMatchArmView;

    open spec fn view(&self) -> TypedMatchArmView {
        typed_match_arm_view(*self)
    }
}

impl TypedMatchArm {
    /// A copy with the same content.
    pub fn dup(&self) -> (r: Self)
        ensures
            r@ == self@,
        decreases self,
    {
        TypedMatchArm {
            variant: self.variant.clone(),
            tag: self.tag,
            is_wildcard: self.is_wildcard,
            int_value: self.int_value,
            binding: match &self.binding {
                Some(v) => Some((v.0.clone(), v.1.dup())),
                None => None,
            },
            body: self.body.dup(),
        }
    }
}

#[derive(Debug, PartialEq)]
pub enum TypedPrintItem {
    Expr(TypedExpr),
    Str(String),
}

/// The mathematical content of a [`TypedPrintItem`].
pub enum TypedPrintItemView {
    Expr(TypedExprView),
    Str(Seq<char>),
}

pub open spec fn typed_print_item_view(x: TypedPrintItem) -> TypedPrintItemView
    decreases x,
{
    match x {
        TypedPrintItem::Expr(a) => TypedPrintItemView::Expr(typed_expr_view(a)),
        TypedPrintItem::Str(a) => TypedPrintItemView::Str(a@),
    }
}

impl View for TypedPrintItem {
    type V = TypedPrintItemView;

    open spec fn view(&self) -> TypedPrintItemView {
        typed_print_item_view(*self)
    }
}

impl TypedPrintItem {
    /// A copy with the same content.
    pub fn dup(&self) -> (r: Self)
        ensures
            r@ == self@,
        decreases self,
    {
        match self {
            TypedPrintItem::Expr(a) => TypedPrintItem::Expr(a.dup()),
            TypedPrintItem::Str(a) => TypedPrintItem::Str(a.clone()),
        }
    }
}

#[derive(Debug, PartialEq)]
pub struct TypedReduction {
    pub var: String,
    pub op: ReductionOp,
    pub ty: Type,
}

/// The mathematical content of a [`TypedReduction`].
pub struct TypedReductionView {
    pub var: Seq<char>,
    pub op: ReductionOp,
    pub ty: TypeView,
}

pub open spec fn typed_reduction_view(x: TypedReduction) -> TypedReductionView
    decreases x,
{
    TypedReductionView {
        var: x.var@,
        op: x.op,
        ty: crate::ast::type_view(x.ty),
    }
}

impl View for TypedReduction {
    type V = TypedReductionView;

    open spec fn view(&self) -> TypedReductionView {
        typed_reduction_view(*self)
    }
}

impl TypedReduction {
    /// A copy with the same content.
    pub fn dup(&self) -> (r: Self)
        ensures
            r@ == self@,
        decreases self,
    {
        TypedReduction {
            var: self.var.clone(),
            op: self.op,
            ty: self.ty.dup(),
        }
    }
}

#[derive(Debug, PartialEq)]
pub enum TypedStmt {
    Let { name: String, ty: Type, expr: TypedExpr },
    Reassign { name: String, ty: Type, expr: TypedExpr, drop_old: bool },
    Return { expr: TypedExpr },
    Assert { expr: TypedExpr, message: Option<String> },
    Prove { expr: TypedExpr },
    Discard { expr: TypedExpr },
    Print { items: Vec<TypedPrintItem> },
    Drop { name: String, ty: Type, moved_fields: Vec<String> },
    If { cond: TypedExpr, then_body: Vec<TypedStmt>, else_body: Vec<TypedStmt> },
    While { cond: TypedExpr, body: Vec<TypedStmt> },
    For {
        var: String,
        ty: Type,
        start: TypedExpr,
        end: TypedExpr,
        body: Vec<TypedStmt>,
        parallel: bool,
        reductions: Vec<TypedReduction>,
    },
    ForIter {
        var: String,
        element_ty: Type,
        collection: String,
        collection_ty: Type,
        consumes: bool,
        body: Vec<TypedStmt>,
    },
    IndexAssign {
        name: String,
        base_ty: Type,
        index: TypedExpr,
        field_path: Vec<(String, u32)>,
        value: TypedExpr,
        checked: bool,
    },
    FieldAssign {
        object: TypedExpr,
        field: String,
        field_index: u32,
        through_mut_ref: bool,
        value: TypedExpr,
    },
    Break,
    Continue,
    TaskSpawn { name: String, body: Vec<TypedStmt>, captures: Vec<(String, Type)> },
    TaskJoin { name: String },
}

/// The mathematical content of a [`TypedStmt`].
pub enum TypedStmtView {
    Let { name: Seq<char>, ty: TypeView, expr: TypedExprView },
    Reassign { name: Seq<char>, ty: TypeView, expr: TypedExprView, drop_old: bool },
    Return { expr: TypedExprView },
    Assert { expr: TypedExprView, message: Option<Seq<char>> },
    Prove { expr: TypedExprView },
    Discard { expr: TypedExprView },
    Print { items: Seq<TypedPrintItemView> },
    Drop { name: Seq<char>, ty: TypeView, moved_fields: Seq<Seq<char>> },
    If { cond: TypedExprView, then_body: Seq<TypedStmtView>, else_body: Seq<TypedStmtView> },
    While { cond: TypedExprView, body: Seq<TypedStmtView> },
    For {
        var: Seq<char>,
        ty: TypeView,
        start: TypedExprView,
        end: TypedExprView,
        body: Seq<TypedStmtView>,
        parallel: bool,
        reductions: Seq<TypedReductionView>,
    },
    ForIter {
        var: Seq<char>,
        element_ty: TypeView,
        collection: Seq<char>,
        collection_ty: TypeView,
        consumes: bool,
        body: Seq<TypedStmtView>,
    },
    IndexAssign {
        name: Seq<char>,
        base_ty: TypeView,
        index: TypedExprView,
        field_path: Seq<(Seq<char>, u32)>,
        value: TypedExprView,
        checked: bool,
    },
    FieldAssign {
        object: TypedExprView,
        field: Seq<char>,
        field_index: u32,
        through_mut_ref: bool,
        value: TypedExprView,
    },
    Break,
    Continue,
    TaskSpawn { name: Seq<char>, body: Seq<TypedStmtView>, captures: Seq<(Seq<char>, TypeView)> },
    TaskJoin { name: Seq<char> },
}

pub open spec fn typed_stmt_view(x: TypedStmt) -> TypedStmtView
    decreases x,
{
    match x {
        TypedStmt::Let { name, ty, expr } => TypedStmtView::Let {
            name: name@,
            ty: crate::ast::type_view(ty),
            expr: typed_expr_view(expr),
        },
        TypedStmt::Reassign { name, ty, expr, drop_old } => TypedStmtView::Reassign {
            name: name@,
            ty: crate::ast::type_view(ty),
            expr: typed_expr_view(expr),
            drop_old: drop_old,
        },
        TypedStmt::Return { expr } => TypedStmtView::Return {
            expr: typed_expr_view(expr),
        },
        TypedStmt::Assert { expr, message } => TypedStmtView::Assert {
            expr: typed_expr_view(expr),
            message: (match message { Some(v0) => Some(v0@), None => None }),
        },
        TypedStmt::Prove { expr } => TypedStmtView::Prove {
            expr: typed_expr_view(expr),
        },
        TypedStmt::Discard { expr } => TypedStmtView::Discard {
            expr: typed_expr_view(expr),
        },
        TypedStmt::Print { items } => TypedStmtView::Print {
            items: typed_print_items_view(items@),
        },
        TypedStmt::Drop { name, ty, moved_fields } => TypedStmtView::Drop {
            name: name@,
            ty: crate::ast::type_view(ty),
            moved_fields: crate::text::strs_view(moved_fields@),
        },
        TypedStmt::If { cond, then_body, else_body } => TypedStmtView::If {
            cond: typed_expr_view(cond),
            then_body: typed_stmts_view(then_body@),
            else_body: typed_stmts_view(else_body@),
        },
        TypedStmt::While { cond, body } => TypedStmtView::While {
            cond: typed_expr_view(cond),
            body: typed_stmts_view(body@),
        },
        TypedStmt::For { var, ty, start, end, body, parallel, reductions } => TypedStmtView::For {
            var: var@,
            ty: crate::ast::type_view(ty),
            start: typed_expr_view(start),
            end: typed_expr_view(end),
            body: typed_stmts_view(body@),
            parallel: parallel,
            reductions: typed_reductions_view(reductions@),
        },
        TypedStmt::ForIter {
            var,
            element_ty,
            collection,
            collection_ty,
            consumes,
            body,
        } => TypedStmtView::ForIter {
            var: var@,
            element_ty: crate::ast::type_view(element_ty),
            collection: collection@,
            collection_ty: crate::ast::type_view(collection_ty),
            consumes: consumes,
            body: typed_stmts_view(body@),
        },
        TypedStmt::IndexAssign {
            name,
            base_ty,
            index,
            field_path,
            value,
            checked,
        } => TypedStmtView::IndexAssign {
            name: name@,
            base_ty: crate::ast::type_view(base_ty),
            index: typed_expr_view(index),
            field_path: numbered_names_view(field_path@),
            value: typed_expr_view(value),
            checked: checked,
        },
        TypedStmt::FieldAssign {
            object,
            field,
            field_index,
            through_mut_ref,
            value,
        } => TypedStmtView::FieldAssign {
            object: typed_expr_view(object),
            field: field@,
            field_index: field_index,
            through_mut_ref: through_mut_ref,
            value: typed_expr_view(value),
        },
        TypedStmt::Break => TypedStmtView::Break,
        TypedStmt::Continue => TypedStmtView::Continue,
        TypedStmt::TaskSpawn { name, body, captures } => TypedStmtView::TaskSpawn {
            name: name@,
            body: typed_stmts_view(body@),
            captures: named_types_view(captures@),
        },
        TypedStmt::TaskJoin { name } => TypedStmtView::TaskJoin {
            name: name@,
        },
    }
}

impl View for TypedStmt {
    type V = TypedStmtView;

    open spec fn view(&self) -> TypedStmtView {
        typed_stmt_view(*self)
    }
}

impl TypedStmt {
    /// A copy with the same content.
    pub fn dup(&self) -> (r: Self)
        ensures
            r@ == self@,
        decreases self,
    {
        match self {
            TypedStmt::Let { name, ty, expr } => TypedStmt::Let {
                name: name.clone(),
                ty: ty.dup(),
                expr: expr.dup(),
            },
            TypedStmt::Reassign { name, ty, expr, drop_old } => TypedStmt::Reassign {
                name: name.clone(),
                ty: ty.dup(),
                expr: expr.dup(),
                drop_old: *drop_old,
            },
            TypedStmt::Return { expr } => TypedStmt::Return {
                expr: expr.dup(),
            },
            TypedStmt::Assert { expr, message } => TypedStmt::Assert {
                expr: expr.dup(),
                message: match message {
                Some(v) => Some(v.clone()),
                None => None,
            },
            },
            TypedStmt::Prove { expr } => TypedStmt::Prove {
                expr: expr.dup(),
            },
            TypedStmt::Discard { expr } => TypedStmt::Discard {
                expr: expr.dup(),
            },
            TypedStmt::Print { items } => TypedStmt::Print {
                items: dup_typed_print_items(items),
            },
            TypedStmt::Drop { name, ty, moved_fields } => TypedStmt::Drop {
                name: name.clone(),
                ty: ty.dup(),
                moved_fields: crate::text::dup_strs(moved_fields),
            },
            TypedStmt::If { cond, then_body, else_body } => TypedStmt::If {
                cond: cond.dup(),
                then_body: dup_typed_stmts(then_body),
                else_body: dup_typed_stmts(else_body),
            },
            TypedStmt::While { cond, body } => TypedStmt::While {
                cond: cond.dup(),
                body: dup_typed_stmts(body),
            },
            TypedStmt::For { var, ty, start, end, body, parallel, reductions } => TypedStmt::For {
                var: var.clone(),
                ty: ty.dup(),
                start: start.dup(),
                end: end.dup(),
                body: dup_typed_stmts(body),
                parallel: *parallel,
                reductions: dup_typed_reductions(reductions),
            },
            TypedStmt::ForIter {
                var,
                element_ty,
                collection,
                collection_ty,
                consumes,
                body,
            } => TypedStmt::ForIter {
                var: var.clone(),
                element_ty: element_ty.dup(),
                collection: collection.clone(),
                collection_ty: collection_ty.dup(),
                consumes: *consumes,
                body: dup_typed_stmts(body),
            },
            TypedStmt::IndexAssign {
                name,
                base_ty,
                index,
                field_path,
                value,
                checked,
            } => TypedStmt::IndexAssign {
                name: name.clone(),
                base_ty: base_ty.dup(),
                index: index.dup(),
                field_path: dup_numbered_names(field_path),
                value: value.dup(),
                checked: *checked,
            },
            TypedStmt::FieldAssign {
                object,
                field,
                field_index,
                through_mut_ref,
                value,
            } => TypedStmt::FieldAssign {
                object: object.dup(),
                field: field.clone(),
                field_index: *field_index,
                through_mut_ref: *through_mut_ref,
                value: value.dup(),
            },
            TypedStmt::Break => TypedStmt::Break,
            TypedStmt::Continue => TypedStmt::Continue,
            TypedStmt::TaskSpawn { name, body, captures } => TypedStmt::TaskSpawn {
                name: name.clone(),
                body: dup_typed_stmts(body),
                captures: dup_named_types(captures),
            },
            TypedStmt::TaskJoin { name } => TypedStmt::TaskJoin {
                name: name.clone(),
            },
        }
    }
}

pub open spec fn typed_exprs_view(s: Seq<TypedExpr>) -> Seq<TypedExprView>
    decreases s,
{
    Seq::new(s.len(), |i: int| if 0 <= i < s.len() { typed_expr_view(s[i]) } else { arbitrary() })
}

pub broadcast proof fn typed_exprs_view_push(s: Seq<TypedExpr>, x: TypedExpr)
    ensures
        #[trigger] typed_exprs_view(s.push(x)) == typed_exprs_view(s).push(typed_expr_view(x)),
{
    assert(typed_exprs_view(s.push(x)) =~= typed_exprs_view(s).push(typed_expr_view(x)));
}

pub broadcast proof fn typed_exprs_view_empty(s: Seq<TypedExpr>)
    requires
        s.len() == 0,
    ensures
        #[trigger] typed_exprs_view(s) == Seq::<TypedExprView>::empty(),
{
    assert(typed_exprs_view(s) =~= Seq::<TypedExprView>::empty());
}

pub broadcast proof fn typed_exprs_view_add(a: Seq<TypedExpr>, b: Seq<TypedExpr>)
    ensures
        #[trigger] typed_exprs_view(a + b) == typed_exprs_view(a) + typed_exprs_view(b),
{
    assert(typed_exprs_view(a + b) =~= typed_exprs_view(a) + typed_exprs_view(b));
}

pub broadcast proof fn typed_exprs_view_subrange(s: Seq<TypedExpr>, a: int, b: int)
    requires
        0 <= a <= b <= s.len(),
    ensures
        #[trigger] typed_exprs_view(s.subrange(a, b)) == typed_exprs_view(s).subrange(a, b),
{
    assert(typed_exprs_view(s.subrange(a, b)) =~= typed_exprs_view(s).subrange(a, b));
}

pub broadcast proof fn typed_exprs_view_update(s: Seq<TypedExpr>, i: int, x: TypedExpr)
    requires
        0 <= i < s.len(),
    ensures
        #[trigger] typed_exprs_view(s.update(i, x)) == typed_exprs_view(s).update(i, typed_expr_view(x)),
{
    assert(typed_exprs_view(s.update(i, x)) =~= typed_exprs_view(s).update(i, typed_expr_view(x)));
}

pub fn dup_typed_exprs(v: &Vec<TypedExpr>) -> (r: Vec<TypedExpr>)
    ensures
        typed_exprs_view(r@) == typed_exprs_view(v@),
    decreases v,
{
    let mut r: Vec<TypedExpr> = Vec::new();
    let mut i: usize = 0;
    while i < v.len()
        invariant
            i <= v.len(),
            r.len() == i,
            forall|j: int| 0 <= j < i ==> #[trigger] typed_exprs_view(r@)[j] == typed_exprs_view(v@)[j],
        decreases v.len() - i,
    {
        let ghost before = r@;
        let x = &v[i];
        r.push(x.dup());
        proof {
            typed_exprs_view_push(before, r@.last());
        }
        i += 1;
    }
    assert(typed_exprs_view(r@) =~= typed_exprs_view(v@));
    r
}

pub open spec fn named_typed_exprs_view(s: Seq<(String, TypedExpr)>) -> Seq<(
    Seq<char>,
    TypedExprView,
)>
    decreases s,
{
    Seq::new(
        s.len(),
        |i: int| if 0 <= i < s.len() { (s[i].0@, typed_expr_view(s[i].1)) } else { arbitrary() },
    )
}

pub broadcast proof fn named_typed_exprs_view_push(
    s: Seq<(String, TypedExpr)>,
    x: (String, TypedExpr),
)
    ensures
        #[trigger] named_typed_exprs_view(s.push(x)) == named_typed_exprs_view(s).push((x.0@, typed_expr_view(x.1))),
{
    assert(
        named_typed_exprs_view(s.push(x)) =~= named_typed_exprs_view(s).push((x.0@, typed_expr_view(x.1)))
    );
}

pub broadcast proof fn named_typed_exprs_view_empty(s: Seq<(String, TypedExpr)>)
    requires
        s.len() == 0,
    ensures
        #[trigger] named_typed_exprs_view(s) == Seq::<(Seq<char>, TypedExprView)>::empty(),
{
    assert(named_typed_exprs_view(s) =~= Seq::<(Seq<char>, TypedExprView)>::empty());
}

pub broadcast proof fn named_typed_exprs_view_add(
    a: Seq<(String, TypedExpr)>,
    b: Seq<(String, TypedExpr)>,
)
    ensures
        #[trigger] named_typed_exprs_view(a + b) == named_typed_exprs_view(a) + named_typed_exprs_view(b),
{
    assert(named_typed_exprs_view(a + b) =~= named_typed_exprs_view(a) + named_typed_exprs_view(b));
}

pub broadcast proof fn named_typed_exprs_view_subrange(s: Seq<(String, TypedExpr)>, a: int, b: int)
    requires
        0 <= a <= b <= s.len(),
    ensures
        #[trigger] named_typed_exprs_view(s.subrange(a, b)) == named_typed_exprs_view(s).subrange(a, b),
{
    assert(named_typed_exprs_view(s.subrange(a, b)) =~= named_typed_exprs_view(s).subrange(a, b));
}

pub broadcast proof fn named_typed_exprs_view_update(
    s: Seq<(String, TypedExpr)>,
    i: int,
    x: (String, TypedExpr),
)
    requires
        0 <= i < s.len(),
    ensures
        #[trigger] named_typed_exprs_view(s.update(i, x)) == named_typed_exprs_view(s).update(i, (x.0@, typed_expr_view(x.1))),
{
    assert(
        named_typed_exprs_view(s.update(i, x)) =~= named_typed_exprs_view(s).update(
            i,
            (x.0@, typed_expr_view(x.1)),
        )
    );
}

pub fn dup_named_typed_exprs(v: &Vec<(String, TypedExpr)>) -> (r: Vec<(String, TypedExpr)>)
    ensures
        named_typed_exprs_view(r@) == named_typed_exprs_view(v@),
    decreases v,
{
    let mut r: Vec<(String, TypedExpr)> = Vec::new();
    let mut i: usize = 0;
    while i < v.len()
        invariant
            i <= v.len(),
            r.len() == i,
            forall|j: int| 0 <= j < i ==> #[trigger] named_typed_exprs_view(r@)[j] == named_typed_exprs_view(v@)[j],
        decreases v.len() - i,
    {
        let ghost before = r@;
        let x = &v[i];
        r.push((x.0.clone(), x.1.dup()));
        proof {
            named_typed_exprs_view_push(before, r@.last());
        }
        i += 1;
    }
    assert(named_typed_exprs_view(r@) =~= named_typed_exprs_view(v@));
    r
}

pub open spec fn typed_arms_view(s: Seq<TypedMatchArm>) -> Seq<TypedMatchArmView>
    decreases s,
{
    Seq::new(
        s.len(),
        |i: int| if 0 <= i < s.len() { typed_match_arm_view(s[i]) } else { arbitrary() },
    )
}

pub broadcast proof fn typed_arms_view_push(s: Seq<TypedMatchArm>, x: TypedMatchArm)
    ensures
        #[trigger] typed_arms_view(s.push(x)) == typed_arms_view(s).push(typed_match_arm_view(x)),
{
    assert(typed_arms_view(s.push(x)) =~= typed_arms_view(s).push(typed_match_arm_view(x)));
}

pub broadcast proof fn typed_arms_view_empty(s: Seq<TypedMatchArm>)
    requires
        s.len() == 0,
    ensures
        #[trigger] typed_arms_view(s) == Seq::<TypedMatchArmView>::empty(),
{
    assert(typed_arms_view(s) =~= Seq::<TypedMatchArmView>::empty());
}

pub broadcast proof fn typed_arms_view_add(a: Seq<TypedMatchArm>, b: Seq<TypedMatchArm>)
    ensures
        #[trigger] typed_arms_view(a + b) == typed_arms_view(a) + typed_arms_view(b),
{
    assert(typed_arms_view(a + b) =~= typed_arms_view(a) + typed_arms_view(b));
}

pub broadcast proof fn typed_arms_view_subrange(s: Seq<TypedMatchArm>, a: int, b: int)
    requires
        0 <= a <= b <= s.len(),
    ensures
        #[trigger] typed_arms_view(s.subrange(a, b)) == typed_arms_view(s).subrange(a, b),
{
    assert(typed_arms_view(s.subrange(a, b)) =~= typed_arms_view(s).subrange(a, b));
}

pub broadcast proof fn typed_arms_view_update(s: Seq<TypedMatchArm>, i: int, x: TypedMatchArm)
    requires
        0 <= i < s.len(),
    ensures
        #[trigger] typed_arms_view(s.update(i, x)) == typed_arms_view(s).update(i, typed_match_arm_view(x)),
{
    assert(
        typed_arms_view(s.update(i, x)) =~= typed_arms_view(s).update(i, typed_match_arm_view(x))
    );
}

pub fn dup_typed_arms(v: &Vec<TypedMatchArm>) -> (r: Vec<TypedMatchArm>)
    ensures
        typed_arms_view(r@) == typed_arms_view(v@),
    decreases v,
{
    let mut r: Vec<TypedMatchArm> = Vec::new();
    let mut i: usize = 0;
    while i < v.len()
        invariant
            i <= v.len(),
            r.len() == i,
            forall|j: int| 0 <= j < i ==> #[trigger] typed_arms_view(r@)[j] == typed_arms_view(v@)[j],
        decreases v.len() - i,
    {
        let ghost before = r@;
        let x = &v[i];
        r.push(x.dup());
        proof {
            typed_arms_view_push(before, r@.last());
        }
        i += 1;
    }
    assert(typed_arms_view(r@) =~= typed_arms_view(v@));
    r
}

pub open spec fn typed_print_items_view(s: Seq<TypedPrintItem>) -> Seq<TypedPrintItemView>
    decreases s,
{
    Seq::new(
        s.len(),
        |i: int| if 0 <= i < s.len() { typed_print_item_view(s[i]) } else { arbitrary() },
    )
}

pub broadcast proof fn typed_print_items_view_push(s: Seq<TypedPrintItem>, x: TypedPrintItem)
    ensures
        #[trigger] typed_print_items_view(s.push(x)) == typed_print_items_view(s).push(typed_print_item_view(x)),
{
    assert(
        typed_print_items_view(s.push(x)) =~= typed_print_items_view(s).push(typed_print_item_view(x))
    );
}

pub broadcast proof fn typed_print_items_view_empty(s: Seq<TypedPrintItem>)
    requires
        s.len() == 0,
    ensures
        #[trigger] typed_print_items_view(s) == Seq::<TypedPrintItemView>::empty(),
{
    assert(typed_print_items_view(s) =~= Seq::<TypedPrintItemView>::empty());
}

pub broadcast proof fn typed_print_items_view_add(a: Seq<TypedPrintItem>, b: Seq<TypedPrintItem>)
    ensures
        #[trigger] typed_print_items_view(a + b) == typed_print_items_view(a) + typed_print_items_view(b),
{
    assert(typed_print_items_view(a + b) =~= typed_print_items_view(a) + typed_print_items_view(b));
}

pub broadcast proof fn typed_print_items_view_subrange(s: Seq<TypedPrintItem>, a: int, b: int)
    requires
        0 <= a <= b <= s.len(),
    ensures
        #[trigger] typed_print_items_view(s.subrange(a, b)) == typed_print_items_view(s).subrange(a, b),
{
    assert(typed_print_items_view(s.subrange(a, b)) =~= typed_print_items_view(s).subrange(a, b));
}

pub broadcast proof fn typed_print_items_view_update(
    s: Seq<TypedPrintItem>,
    i: int,
    x: TypedPrintItem,
)
    requires
        0 <= i < s.len(),
    ensures
        #[trigger] typed_print_items_view(s.update(i, x)) == typed_print_items_view(s).update(i, typed_print_item_view(x)),
{
    assert(
        typed_print_items_view(s.update(i, x)) =~= typed_print_items_view(s).update(
            i,
            typed_print_item_view(x),
        )
    );
}

pub fn dup_typed_print_items(v: &Vec<TypedPrintItem>) -> (r: Vec<TypedPrintItem>)
    ensures
        typed_print_items_view(r@) == typed_print_items_view(v@),
    decreases v,
{
    let mut r: Vec<TypedPrintItem> = Vec::new();
    let mut i: usize = 0;
    while i < v.len()
        invariant
            i <= v.len(),
            r.len() == i,
            forall|j: int| 0 <= j < i ==> #[trigger] typed_print_items_view(r@)[j] == typed_print_items_view(v@)[j],
        decreases v.len() - i,
    {
        let ghost before = r@;
        let x = &v[i];
        r.push(x.dup());
        proof {
            typed_print_items_view_push(before, r@.last());
        }
        i += 1;
    }
    assert(typed_print_items_view(r@) =~= typed_print_items_view(v@));
    r
}

pub open spec fn typed_stmts_view(s: Seq<TypedStmt>) -> Seq<TypedStmtView>
    decreases s,
{
    Seq::new(s.len(), |i: int| if 0 <= i < s.len() { typed_stmt_view(s[i]) } else { arbitrary() })
}

pub broadcast proof fn typed_stmts_view_push(s: Seq<TypedStmt>, x: TypedStmt)
    ensures
        #[trigger] typed_stmts_view(s.push(x)) == typed_stmts_view(s).push(typed_stmt_view(x)),
{
    assert(typed_stmts_view(s.push(x)) =~= typed_stmts_view(s).push(typed_stmt_view(x)));
}

pub broadcast proof fn typed_stmts_view_empty(s: Seq<TypedStmt>)
    requires
        s.len() == 0,
    ensures
        #[trigger] typed_stmts_view(s) == Seq::<TypedStmtView>::empty(),
{
    assert(typed_stmts_view(s) =~= Seq::<TypedStmtView>::empty());
}

pub broadcast proof fn typed_stmts_view_add(a: Seq<TypedStmt>, b: Seq<TypedStmt>)
    ensures
        #[trigger] typed_stmts_view(a + b) == typed_stmts_view(a) + typed_stmts_view(b),
{
    assert(typed_stmts_view(a + b) =~= typed_stmts_view(a) + typed_stmts_view(b));
}

pub broadcast proof fn typed_stmts_view_subrange(s: Seq<TypedStmt>, a: int, b: int)
    requires
        0 <= a <= b <= s.len(),
    ensures
        #[trigger] typed_stmts_view(s.subrange(a, b)) == typed_stmts_view(s).subrange(a, b),
{
    assert(typed_stmts_view(s.subrange(a, b)) =~= typed_stmts_view(s).subrange(a, b));
}

pub broadcast proof fn typed_stmts_view_update(s: Seq<TypedStmt>, i: int, x: TypedStmt)
    requires
        0 <= i < s.len(),
    ensures
        #[trigger] typed_stmts_view(s.update(i, x)) == typed_stmts_view(s).update(i, typed_stmt_view(x)),
{
    assert(typed_stmts_view(s.update(i, x)) =~= typed_stmts_view(s).update(i, typed_stmt_view(x)));
}

pub fn dup_typed_stmts(v: &Vec<TypedStmt>) -> (r: Vec<TypedStmt>)
    ensures
        typed_stmts_view(r@) == typed_stmts_view(v@),
    decreases v,
{
    let mut r: Vec<TypedStmt> = Vec::new();
    let mut i: usize = 0;
    while i < v.len()
        invariant
            i <= v.len(),
            r.len() == i,
            forall|j: int| 0 <= j < i ==> #[trigger] typed_stmts_view(r@)[j] == typed_stmts_view(v@)[j],
        decreases v.len() - i,
    {
        let ghost before = r@;
        let x = &v[i];
        r.push(x.dup());
        proof {
            typed_stmts_view_push(before, r@.last());
        }
        i += 1;
    }
    assert(typed_stmts_view(r@) =~= typed_stmts_view(v@));
    r
}

pub open spec fn typed_reductions_view(s: Seq<TypedReduction>) -> Seq<TypedReductionView>
{
    Seq::new(s.len(), |i: int| typed_reduction_view(s[i]))
}

pub broadcast proof fn typed_reductions_view_push(s: Seq<TypedReduction>, x: TypedReduction)
    ensures
        #[trigger] typed_reductions_view(s.push(x)) == typed_reductions_view(s).push(typed_reduction_view(x)),
{
    assert(
        typed_reductions_view(s.push(x)) =~= typed_reductions_view(s).push(typed_reduction_view(x))
    );
}

pub broadcast proof fn typed_reductions_view_empty(s: Seq<TypedReduction>)
    requires
        s.len() == 0,
    ensures
        #[trigger] typed_reductions_view(s) == Seq::<TypedReductionView>::empty(),
{
    assert(typed_reductions_view(s) =~= Seq::<TypedReductionView>::empty());
}

pub broadcast proof fn typed_reductions_view_add(a: Seq<TypedReduction>, b: Seq<TypedReduction>)
    ensures
        #[trigger] typed_reductions_view(a + b) == typed_reductions_view(a) + typed_reductions_view(b),
{
    assert(typed_reductions_view(a + b) =~= typed_reductions_view(a) + typed_reductions_view(b));
}

pub broadcast proof fn typed_reductions_view_subrange(s: Seq<TypedReduction>, a: int, b: int)
    requires
        0 <= a <= b <= s.len(),
    ensures
        #[trigger] typed_reductions_view(s.subrange(a, b)) == typed_reductions_view(s).subrange(a, b),
{
    assert(typed_reductions_view(s.subrange(a, b)) =~= typed_reductions_view(s).subrange(a, b));
}

pub broadcast proof fn typed_reductions_view_update(
    s: Seq<TypedReduction>,
    i: int,
    x: TypedReduction,
)
    requires
        0 <= i < s.len(),
    ensures
        #[trigger] typed_reductions_view(s.update(i, x)) == typed_reductions_view(s).update(i, typed_reduction_view(x)),
{
    assert(
        typed_reductions_view(s.update(i, x)) =~= typed_reductions_view(s).update(
            i,
            typed_reduction_view(x),
        )
    );
}

pub fn dup_typed_reductions(v: &Vec<TypedReduction>) -> (r: Vec<TypedReduction>)
    ensures
        typed_reductions_view(r@) == typed_reductions_view(v@),
{
    let mut r: Vec<TypedReduction> = Vec::new();
    let mut i: usize = 0;
    while i < v.len()
        invariant
            i <= v.len(),
            r.len() == i,
            forall|j: int| 0 <= j < i ==> #[trigger] typed_reductions_view(r@)[j] == typed_reductions_view(v@)[j],
        decreases v.len() - i,
    {
        let ghost before = r@;
        let x = &v[i];
        r.push(x.dup());
        proof {
            typed_reductions_view_push(before, r@.last());
        }
        i += 1;
    }
    assert(typed_reductions_view(r@) =~= typed_reductions_view(v@));
    r
}

pub open spec fn numbered_names_view(s: Seq<(String, u32)>) -> Seq<(Seq<char>, u32)>
{
    Seq::new(s.len(), |i: int| (s[i].0@, s[i].1))
}

pub broadcast proof fn numbered_names_view_push(s: Seq<(String, u32)>, x: (String, u32))
    ensures
        #[trigger] numbered_names_view(s.push(x)) == numbered_names_view(s).push((x.0@, x.1)),
{
    assert(numbered_names_view(s.push(x)) =~= numbered_names_view(s).push((x.0@, x.1)));
}

pub broadcast proof fn numbered_names_view_empty(s: Seq<(String, u32)>)
    requires
        s.len() == 0,
    ensures
        #[trigger] numbered_names_view(s) == Seq::<(Seq<char>, u32)>::empty(),
{
    assert(numbered_names_view(s) =~= Seq::<(Seq<char>, u32)>::empty());
}

pub broadcast proof fn numbered_names_view_add(a: Seq<(String, u32)>, b: Seq<(String, u32)>)
    ensures
        #[trigger] numbered_names_view(a + b) == numbered_names_view(a) + numbered_names_view(b),
{
    assert(numbered_names_view(a + b) =~= numbered_names_view(a) + numbered_names_view(b));
}

pub broadcast proof fn numbered_names_view_subrange(s: Seq<(String, u32)>, a: int, b: int)
    requires
        0 <= a <= b <= s.len(),
    ensures
        #[trigger] numbered_names_view(s.subrange(a, b)) == numbered_names_view(s).subrange(a, b),
{
    assert(numbered_names_view(s.subrange(a, b)) =~= numbered_names_view(s).subrange(a, b));
}

pub broadcast proof fn numbered_names_view_update(s: Seq<(String, u32)>, i: int, x: (String, u32))
    requires
        0 <= i < s.len(),
    ensures
        #[trigger] numbered_names_view(s.update(i, x)) == numbered_names_view(s).update(i, (x.0@, x.1)),
{
    assert(numbered_names_view(s.update(i, x)) =~= numbered_names_view(s).update(i, (x.0@, x.1)));
}

pub fn dup_numbered_names(v: &Vec<(String, u32)>) -> (r: Vec<(String, u32)>)
    ensures
        numbered_names_view(r@) == numbered_names_view(v@),
{
    let mut r: Vec<(String, u32)> = Vec::new();
    let mut i: usize = 0;
    while i < v.len()
        invariant
            i <= v.len(),
            r.len() == i,
            forall|j: int| 0 <= j < i ==> #[trigger] numbered_names_view(r@)[j] == numbered_names_view(v@)[j],
        decreases v.len() - i,
    {
        let ghost before = r@;
        let x = &v[i];
        r.push((x.0.clone(), x.1));
        proof {
            numbered_names_view_push(before, r@.last());
        }
        i += 1;
    }
    assert(numbered_names_view(r@) =~= numbered_names_view(v@));
    r
}

pub open spec fn named_types_view(s: Seq<(String, Type)>) -> Seq<(Seq<char>, TypeView)>
{
    Seq::new(s.len(), |i: int| (s[i].0@, crate::ast::type_view(s[i].1)))
}

pub broadcast proof fn named_types_view_push(s: Seq<(String, Type)>, x: (String, Type))
    ensures
        #[trigger] named_types_view(s.push(x)) == named_types_view(s).push((x.0@, crate::ast::type_view(x.1))),
{
    assert(
        named_types_view(s.push(x)) =~= named_types_view(s).push((x.0@, crate::ast::type_view(x.1)))
    );
}

pub broadcast proof fn named_types_view_empty(s: Seq<(String, Type)>)
    requires
        s.len() == 0,
    ensures
        #[trigger] named_types_view(s) == Seq::<(Seq<char>, TypeView)>::empty(),
{
    assert(named_types_view(s) =~= Seq::<(Seq<char>, TypeView)>::empty());
}

pub broadcast proof fn named_types_view_add(a: Seq<(String, Type)>, b: Seq<(String, Type)>)
    ensures
        #[trigger] named_types_view(a + b) == named_types_view(a) + named_types_view(b),
{
    assert(named_types_view(a + b) =~= named_types_view(a) + named_types_view(b));
}

pub broadcast proof fn named_types_view_subrange(s: Seq<(String, Type)>, a: int, b: int)
    requires
        0 <= a <= b <= s.len(),
    ensures
        #[trigger] named_types_view(s.subrange(a, b)) == named_types_view(s).subrange(a, b),
{
    assert(named_types_view(s.subrange(a, b)) =~= named_types_view(s).subrange(a, b));
}

pub broadcast proof fn named_types_view_update(s: Seq<(String, Type)>, i: int, x: (String, Type))
    requires
        0 <= i < s.len(),
    ensures
        #[trigger] named_types_view(s.update(i, x)) == named_types_view(s).update(i, (x.0@, crate::ast::type_view(x.1))),
{
    assert(
        named_types_view(s.update(i, x)) =~= named_types_view(s).update(
            i,
            (x.0@, crate::ast::type_view(x.1)),
        )
    );
}

pub fn dup_named_types(v: &Vec<(String, Type)>) -> (r: Vec<(String, Type)>)
    ensures
        named_types_view(r@) == named_types_view(v@),
{
    let mut r: Vec<(String, Type)> = Vec::new();
    let mut i: usize = 0;
    while i < v.len()
        invariant
            i <= v.len(),
            r.len() == i,
            forall|j: int| 0 <= j < i ==> #[trigger] named_types_view(r@)[j] == named_types_view(v@)[j],
        decreases v.len() - i,
    {
        let ghost before = r@;
        let x = &v[i];
        r.push((x.0.clone(), x.1.dup()));
        proof {
            named_types_view_push(before, r@.last());
        }
        i += 1;
    }
    assert(named_types_view(r@) =~= named_types_view(v@));
    r
}

pub open spec fn opt_types_view(s: Seq<Option<Type>>) -> Seq<Option<TypeView>>
{
    Seq::new(
        s.len(),
        |i: int| (match s[i] { Some(v0) => Some(crate::ast::type_view(v0)), None => None }),
    )
}

pub broadcast proof fn opt_types_view_push(s: Seq<Option<Type>>, x: Option<Type>)
    ensures
        #[trigger] opt_types_view(s.push(x)) == opt_types_view(s).push((match x { Some(v0) => Some(crate::ast::type_view(v0)), None => None })),
{
    assert(
        opt_types_view(s.push(x)) =~= opt_types_view(s).push(
            (match x { Some(v0) => Some(crate::ast::type_view(v0)), None => None }),
        )
    );
}

pub broadcast proof fn opt_types_view_empty(s: Seq<Option<Type>>)
    requires
        s.len() == 0,
    ensures
        #[trigger] opt_types_view(s) == Seq::<Option<TypeView>>::empty(),
{
    assert(opt_types_view(s) =~= Seq::<Option<TypeView>>::empty());
}

pub broadcast proof fn opt_types_view_add(a: Seq<Option<Type>>, b: Seq<Option<Type>>)
    ensures
        #[trigger] opt_types_view(a + b) == opt_types_view(a) + opt_types_view(b),
{
    assert(opt_types_view(a + b) =~= opt_types_view(a) + opt_types_view(b));
}

pub broadcast proof fn opt_types_view_subrange(s: Seq<Option<Type>>, a: int, b: int)
    requires
        0 <= a <= b <= s.len(),
    ensures
        #[trigger] opt_types_view(s.subrange(a, b)) == opt_types_view(s).subrange(a, b),
{
    assert(opt_types_view(s.subrange(a, b)) =~= opt_types_view(s).subrange(a, b));
}

pub broadcast proof fn opt_types_view_update(s: Seq<Option<Type>>, i: int, x: Option<Type>)
    requires
        0 <= i < s.len(),
    ensures
        #[trigger] opt_types_view(s.update(i, x)) == opt_types_view(s).update(i, (match x { Some(v0) => Some(crate::ast::type_view(v0)), None => None })),
{
    assert(
        opt_types_view(s.update(i, x)) =~= opt_types_view(s).update(
            i,
            (match x { Some(v0) => Some(crate::ast::type_view(v0)), None => None }),
        )
    );
}

pub fn dup_opt_types(v: &Vec<Option<Type>>) -> (r: Vec<Option<Type>>)
    ensures
        opt_types_view(r@) == opt_types_view(v@),
{
    let mut r: Vec<Option<Type>> = Vec::new();
    let mut i: usize = 0;
    while i < v.len()
        invariant
            i <= v.len(),
            r.len() == i,
            forall|j: int| 0 <= j < i ==> #[trigger] opt_types_view(r@)[j] == opt_types_view(v@)[j],
        decreases v.len() - i,
    {
        let ghost before = r@;
        let x = &v[i];
        r.push((match &x { Some(v) => Some(v.dup()), None => None }));
        proof {
            opt_types_view_push(before, r@.last());
        }
        i += 1;
    }
    assert(opt_types_view(r@) =~= opt_types_view(v@));
    r
}

#[derive(Debug, PartialEq)]
pub struct TypedParam {
    pub name: String,
    pub ty: Type,
    pub name_span: Span,
}

/// The mathematical content of a [`TypedParam`].
pub struct TypedParamView {
    pub name: Seq<char>,
    pub ty: TypeView,
    pub name_span: Span,
}

pub open spec fn typed_param_view(x: TypedParam) -> TypedParamView
{
    TypedParamView {
        name: x.name@,
        ty: crate::ast::type_view(x.ty),
        name_span: x.name_span,
    }
}

impl View for TypedParam {
    type V = TypedParamView;

    open spec fn view(&self) -> TypedParamView {
        typed_param_view(*self)
    }
}

impl TypedParam {
    /// A copy with the same content.
    pub fn dup(&self) -> (r: Self)
        ensures
            r@ == self@,
    {
        TypedParam {
            name: self.name.clone(),
            ty: self.ty.dup(),
            name_span: self.name_span,
        }
    }
}

#[derive(Debug, PartialEq)]
pub struct TypedFunction {
    pub name: String,
    pub params: Vec<TypedParam>,
    pub return_type: Type,
    pub requires: Vec<TypedExpr>,
    pub body: Vec<TypedStmt>,
    pub is_pure: bool,
    pub span: Span,
}

/// The mathematical content of a [`TypedFunction`].
pub struct TypedFunctionView {
    pub name: Seq<char>,
    pub params: Seq<TypedParamView>,
    pub return_type: TypeView,
    pub requires: Seq<TypedExprView>,
    pub body: Seq<TypedStmtView>,
    pub is_pure: bool,
    pub span: Span,
}

pub open spec fn typed_function_view(x: TypedFunction) -> TypedFunctionView
{
    TypedFunctionView {
        name: x.name@,
        params: typed_params_view(x.params@),
        return_type: crate::ast::type_view(x.return_type),
        requires: typed_exprs_view(x.requires@),
        body: typed_stmts_view(x.body@),
        is_pure: x.is_pure,
        span: x.span,
    }
}

impl View for TypedFunction {
    type V = TypedFunctionView;

    open spec fn view(&self) -> TypedFunctionView {
        typed_function_view(*self)
    }
}

impl TypedFunction {
    /// A copy with the same content.
    pub fn dup(&self) -> (r: Self)
        ensures
            r@ == self@,
    {
        TypedFunction {
            name: self.name.clone(),
            params: dup_typed_params(&self.params),
            return_type: self.return_type.dup(),
            requires: dup_typed_exprs(&self.requires),
            body: dup_typed_stmts(&self.body),
            is_pure: self.is_pure,
            span: self.span,
        }
    }
}

#[derive(Debug, PartialEq)]
pub struct TypedStructDecl {
    pub name: String,
    pub fields: Vec<(String, Type)>,
}

/// The mathematical content of a [`TypedStructDecl`].
pub struct TypedStructDeclView {
    pub name: Seq<char>,
    pub fields: Seq<(Seq<char>, TypeView)>,
}

pub open spec fn typed_struct_decl_view(x: TypedStructDecl) -> TypedStructDeclView
{
    TypedStructDeclView {
        name: x.name@,
        fields: named_types_view(x.fields@),
    }
}

impl View for TypedStructDecl {
    type V = TypedStructDeclView;

    open spec fn view(&self) -> TypedStructDeclView {
        typed_struct_decl_view(*self)
    }
}

impl TypedStructDecl {
    /// A copy with the same content.
    pub fn dup(&self) -> (r: Self)
        ensures
            r@ == self@,
    {
        TypedStructDecl {
            name: self.name.clone(),
            fields: dup_named_types(&self.fields),
        }
    }
}

#[derive(Debug, PartialEq)]
pub struct TypedEnumDecl {
    pub name: String,
    pub variants: Vec<String>,
    pub payload_types: Vec<Option<Type>>,
}

/// The mathematical content of a [`TypedEnumDecl`].
pub struct TypedEnumDeclView {
    pub name: Seq<char>,
    pub variants: Seq<Seq<char>>,
    pub payload_types: Seq<Option<TypeView>>,
}

pub open spec fn typed_enum_decl_view(x: TypedEnumDecl) -> TypedEnumDeclView
{
    TypedEnumDeclView {
        name: x.name@,
        variants: crate::text::strs_view(x.variants@),
        payload_types: opt_types_view(x.payload_types@),
    }
}

impl View for TypedEnumDecl {
    type V = TypedEnumDeclView;

    open spec fn view(&self) -> TypedEnumDeclView {
        typed_enum_decl_view(*self)
    }
}

impl TypedEnumDecl {
    /// A copy with the same content.
    pub fn dup(&self) -> (r: Self)
        ensures
            r@ == self@,
    {
        TypedEnumDecl {
            name: self.name.clone(),
            variants: crate::text::dup_strs(&self.variants),
            payload_types: dup_opt_types(&self.payload_types),
        }
    }
}

#[derive(Debug, PartialEq)]
pub struct TypedProgram {
    pub intents: Vec<String>,
    pub functions: Vec<TypedFunction>,
    pub structs: Vec<TypedStructDecl>,
    pub enums: Vec<TypedEnumDecl>,
}

/// The mathematical content of a [`TypedProgram`].
pub struct TypedProgramView {
    pub intents: Seq<Seq<char>>,
    pub functions: Seq<TypedFunctionView>,
    pub structs: Seq<TypedStructDeclView>,
    pub enums: Seq<TypedEnumDeclView>,
}

pub open spec fn typed_program_view(x: TypedProgram) -> TypedProgramView
{
    TypedProgramView {
        intents: crate::text::strs_view(x.intents@),
        functions: typed_functions_view(x.functions@),
        structs: typed_structs_view(x.structs@),
        enums: typed_enums_view(x.enums@),
    }
}

impl View for TypedProgram {
    type V = TypedProgramView;

    open spec fn view(&self) -> TypedProgramView {
        typed_program_view(*self)
    }
}

impl TypedProgram {
    /// A copy with the same content.
    pub fn dup(&self) -> (r: Self)
        ensures
            r@ == self@,
    {
        TypedProgram {
            intents: crate::text::dup_strs(&self.intents),
            functions: dup_typed_functions(&self.functions),
            structs: dup_typed_structs(&self.structs),
            enums: dup_typed_enums(&self.enums),
        }
    }
}

pub open spec fn typed_params_view(s: Seq<TypedParam>) -> Seq<TypedParamView>
{
    Seq::new(s.len(), |i: int| typed_param_view(s[i]))
}

pub broadcast proof fn typed_params_view_push(s: Seq<TypedParam>, x: TypedParam)
    ensures
        #[trigger] typed_params_view(s.push(x)) == typed_params_view(s).push(typed_param_view(x)),
{
    assert(typed_params_view(s.push(x)) =~= typed_params_view(s).push(typed_param_view(x)));
}

pub broadcast proof fn typed_params_view_empty(s: Seq<TypedParam>)
    requires
        s.len() == 0,
    ensures
        #[trigger] typed_params_view(s) == Seq::<TypedParamView>::empty(),
{
    assert(typed_params_view(s) =~= Seq::<TypedParamView>::empty());
}

pub broadcast proof fn typed_params_view_add(a: Seq<TypedParam>, b: Seq<TypedParam>)
    ensures
        #[trigger] typed_params_view(a + b) == typed_params_view(a) + typed_params_view(b),
{
    assert(typed_params_view(a + b) =~= typed_params_view(a) + typed_params_view(b));
}

pub broadcast proof fn typed_params_view_subrange(s: Seq<TypedParam>, a: int, b: int)
    requires
        0 <= a <= b <= s.len(),
    ensures
        #[trigger] typed_params_view(s.subrange(a, b)) == typed_params_view(s).subrange(a, b),
{
    assert(typed_params_view(s.subrange(a, b)) =~= typed_params_view(s).subrange(a, b));
}

pub broadcast proof fn typed_params_view_update(s: Seq<TypedParam>, i: int, x: TypedParam)
    requires
        0 <= i < s.len(),
    ensures
        #[trigger] typed_params_view(s.update(i, x)) == typed_params_view(s).update(i, typed_param_view(x)),
{
    assert(
        typed_params_view(s.update(i, x)) =~= typed_params_view(s).update(i, typed_param_view(x))
    );
}

pub fn dup_typed_params(v: &Vec<TypedParam>) -> (r: Vec<TypedParam>)
    ensures
        typed_params_view(r@) == typed_params_view(v@),
{
    let mut r: Vec<TypedParam> = Vec::new();
    let mut i: usize = 0;
    while i < v.len()
        invariant
            i <= v.len(),
            r.len() == i,
            forall|j: int| 0 <= j < i ==> #[trigger] typed_params_view(r@)[j] == typed_params_view(v@)[j],
        decreases v.len() - i,
    {
        let ghost before = r@;
        let x = &v[i];
        r.push(x.dup());
        proof {
            typed_params_view_push(before, r@.last());
        }
        i += 1;
    }
    assert(typed_params_view(r@) =~= typed_params_view(v@));
    r
}

pub open spec fn typed_functions_view(s: Seq<TypedFunction>) -> Seq<TypedFunctionView>
{
    Seq::new(s.len(), |i: int| typed_function_view(s[i]))
}

pub broadcast proof fn typed_functions_view_push(s: Seq<TypedFunction>, x: TypedFunction)
    ensures
        #[trigger] typed_functions_view(s.push(x)) == typed_functions_view(s).push(typed_function_view(x)),
{
    assert(
        typed_functions_view(s.push(x)) =~= typed_functions_view(s).push(typed_function_view(x))
    );
}

pub broadcast proof fn typed_functions_view_empty(s: Seq<TypedFunction>)
    requires
        s.len() == 0,
    ensures
        #[trigger] typed_functions_view(s) == Seq::<TypedFunctionView>::empty(),
{
    assert(typed_functions_view(s) =~= Seq::<TypedFunctionView>::empty());
}

pub broadcast proof fn typed_functions_view_add(a: Seq<TypedFunction>, b: Seq<TypedFunction>)
    ensures
        #[trigger] typed_functions_view(a + b) == typed_functions_view(a) + typed_functions_view(b),
{
    assert(typed_functions_view(a + b) =~= typed_functions_view(a) + typed_functions_view(b));
}

pub broadcast proof fn typed_functions_view_subrange(s: Seq<TypedFunction>, a: int, b: int)
    requires
        0 <= a <= b <= s.len(),
    ensures
        #[trigger] typed_functions_view(s.subrange(a, b)) == typed_functions_view(s).subrange(a, b),
{
    assert(typed_functions_view(s.subrange(a, b)) =~= typed_functions_view(s).subrange(a, b));
}

pub broadcast proof fn typed_functions_view_update(s: Seq<TypedFunction>, i: int, x: TypedFunction)
    requires
        0 <= i < s.len(),
    ensures
        #[trigger] typed_functions_view(s.update(i, x)) == typed_functions_view(s).update(i, typed_function_view(x)),
{
    assert(
        typed_functions_view(s.update(i, x)) =~= typed_functions_view(s).update(
            i,
            typed_function_view(x),
        )
    );
}

pub fn dup_typed_functions(v: &Vec<TypedFunction>) -> (r: Vec<TypedFunction>)
    ensures
        typed_functions_view(r@) == typed_functions_view(v@),
{
    let mut r: Vec<TypedFunction> = Vec::new();
    let mut i: usize = 0;
    while i < v.len()
        invariant
            i <= v.len(),
            r.len() == i,
            forall|j: int| 0 <= j < i ==> #[trigger] typed_functions_view(r@)[j] == typed_functions_view(v@)[j],
        decreases v.len() - i,
    {
        let ghost before = r@;
        let x = &v[i];
        r.push(x.dup());
        proof {
            typed_functions_view_push(before, r@.last());
        }
        i += 1;
    }
    assert(typed_functions_view(r@) =~= typed_functions_view(v@));
    r
}

pub open spec fn typed_structs_view(s: Seq<TypedStructDecl>) -> Seq<TypedStructDeclView>
{
    Seq::new(s.len(), |i: int| typed_struct_decl_view(s[i]))
}

pub broadcast proof fn typed_structs_view_push(s: Seq<TypedStructDecl>, x: TypedStructDecl)
    ensures
        #[trigger] typed_structs_view(s.push(x)) == typed_structs_view(s).push(typed_struct_decl_view(x)),
{
    assert(typed_structs_view(s.push(x)) =~= typed_structs_view(s).push(typed_struct_decl_view(x)));
}

pub broadcast proof fn typed_structs_view_empty(s: Seq<TypedStructDecl>)
    requires
        s.len() == 0,
    ensures
        #[trigger] typed_structs_view(s) == Seq::<TypedStructDeclView>::empty(),
{
    assert(typed_structs_view(s) =~= Seq::<TypedStructDeclView>::empty());
}

pub broadcast proof fn typed_structs_view_add(a: Seq<TypedStructDecl>, b: Seq<TypedStructDecl>)
    ensures
        #[trigger] typed_structs_view(a + b) == typed_structs_view(a) + typed_structs_view(b),
{
    assert(typed_structs_view(a + b) =~= typed_structs_view(a) + typed_structs_view(b));
}

pub broadcast proof fn typed_structs_view_subrange(s: Seq<TypedStructDecl>, a: int, b: int)
    requires
        0 <= a <= b <= s.len(),
    ensures
        #[trigger] typed_structs_view(s.subrange(a, b)) == typed_structs_view(s).subrange(a, b),
{
    assert(typed_structs_view(s.subrange(a, b)) =~= typed_structs_view(s).subrange(a, b));
}

pub broadcast proof fn typed_structs_view_update(
    s: Seq<TypedStructDecl>,
    i: int,
    x: TypedStructDecl,
)
    requires
        0 <= i < s.len(),
    ensures
        #[trigger] typed_structs_view(s.update(i, x)) == typed_structs_view(s).update(i, typed_struct_decl_view(x)),
{
    assert(
        typed_structs_view(s.update(i, x)) =~= typed_structs_view(s).update(
            i,
            typed_struct_decl_view(x),
        )
    );
}

pub fn dup_typed_structs(v: &Vec<TypedStructDecl>) -> (r: Vec<TypedStructDecl>)
    ensures
        typed_structs_view(r@) == typed_structs_view(v@),
{
    let mut r: Vec<TypedStructDecl> = Vec::new();
    let mut i: usize = 0;
    while i < v.len()
        invariant
            i <= v.len(),
            r.len() == i,
            forall|j: int| 0 <= j < i ==> #[trigger] typed_structs_view(r@)[j] == typed_structs_view(v@)[j],
        decreases v.len() - i,
    {
        let ghost before = r@;
        let x = &v[i];
        r.push(x.dup());
        proof {
            typed_structs_view_push(before, r@.last());
        }
        i += 1;
    }
    assert(typed_structs_view(r@) =~= typed_structs_view(v@));
    r
}

pub open spec fn typed_enums_view(s: Seq<TypedEnumDecl>) -> Seq<TypedEnumDeclView>
{
    Seq::new(s.len(), |i: int| typed_enum_decl_view(s[i]))
}

pub broadcast proof fn typed_enums_view_push(s: Seq<TypedEnumDecl>, x: TypedEnumDecl)
    ensures
        #[trigger] typed_enums_view(s.push(x)) == typed_enums_view(s).push(typed_enum_decl_view(x)),
{
    assert(typed_enums_view(s.push(x)) =~= typed_enums_view(s).push(typed_enum_decl_view(x)));
}

pub broadcast proof fn typed_enums_view_empty(s: Seq<TypedEnumDecl>)
    requires
        s.len() == 0,
    ensures
        #[trigger] typed_enums_view(s) == Seq::<TypedEnumDeclView>::empty(),
{
    assert(typed_enums_view(s) =~= Seq::<TypedEnumDeclView>::empty());
}

pub broadcast proof fn typed_enums_view_add(a: Seq<TypedEnumDecl>, b: Seq<TypedEnumDecl>)
    ensures
        #[trigger] typed_enums_view(a + b) == typed_enums_view(a) + typed_enums_view(b),
{
    assert(typed_enums_view(a + b) =~= typed_enums_view(a) + typed_enums_view(b));
}

pub broadcast proof fn typed_enums_view_subrange(s: Seq<TypedEnumDecl>, a: int, b: int)
    requires
        0 <= a <= b <= s.len(),
    ensures
        #[trigger] typed_enums_view(s.subrange(a, b)) == typed_enums_view(s).subrange(a, b),
{
    assert(typed_enums_view(s.subrange(a, b)) =~= typed_enums_view(s).subrange(a, b));
}

pub broadcast proof fn typed_enums_view_update(s: Seq<TypedEnumDecl>, i: int, x: TypedEnumDecl)
    requires
        0 <= i < s.len(),
    ensures
        #[trigger] typed_enums_view(s.update(i, x)) == typed_enums_view(s).update(i, typed_enum_decl_view(x)),
{
    assert(
        typed_enums_view(s.update(i, x)) =~= typed_enums_view(s).update(i, typed_enum_decl_view(x))
    );
}

pub fn dup_typed_enums(v: &Vec<TypedEnumDecl>) -> (r: Vec<TypedEnumDecl>)
    ensures
        typed_enums_view(r@) == typed_enums_view(v@),
{
    let mut r: Vec<TypedEnumDecl> = Vec::new();
    let mut i: usize = 0;
    while i < v.len()
        invariant
            i <= v.len(),
            r.len() == i,
            forall|j: int| 0 <= j < i ==> #[trigger] typed_enums_view(r@)[j] == typed_enums_view(v@)[j],
        decreases v.len() - i,
    {
        let ghost before = r@;
        let x = &v[i];
        r.push(x.dup());
        proof {
            typed_enums_view_push(before, r@.last());
        }
        i += 1;
    }
    assert(typed_enums_view(r@) =~= typed_enums_view(v@));
    r
}

pub broadcast group group_ir_views {
    typed_exprs_view_push,
    typed_exprs_view_empty,
    typed_exprs_view_add,
    typed_exprs_view_subrange,
    typed_exprs_view_update,
    named_typed_exprs_view_push,
    named_typed_exprs_view_empty,
    named_typed_exprs_view_add,
    named_typed_exprs_view_subrange,
    named_typed_exprs_view_update,
    typed_arms_view_push,
    typed_arms_view_empty,
    typed_arms_view_add,
    typed_arms_view_subrange,
    typed_arms_view_update,
    typed_print_items_view_push,
    typed_print_items_view_empty,
    typed_print_items_view_add,
    typed_print_items_view_subrange,
    typed_print_items_view_update,
    typed_stmts_view_push,
    typed_stmts_view_empty,
    typed_stmts_view_add,
    typed_stmts_view_subrange,
    typed_stmts_view_update,
    typed_reductions_view_push,
    typed_reductions_view_empty,
    typed_reductions_view_add,
    typed_reductions_view_subrange,
    typed_reductions_view_update,
    numbered_names_view_push,
    numbered_names_view_empty,
    numbered_names_view_add,
    numbered_names_view_subrange,
    numbered_names_view_update,
    named_types_view_push,
    named_types_view_empty,
    named_types_view_add,
    named_types_view_subrange,
    named_types_view_update,
    opt_types_view_push,
    opt_types_view_empty,
    opt_types_view_add,
    opt_types_view_subrange,
    opt_types_view_update,
    typed_params_view_push,
    typed_params_view_empty,
    typed_params_view_add,
    typed_params_view_subrange,
    typed_params_view_update,
    typed_functions_view_push,
    typed_functions_view_empty,
    typed_functions_view_add,
    typed_functions_view_subrange,
    typed_functions_view_update,
    typed_structs_view_push,
    typed_structs_view_empty,
    typed_structs_view_add,
    typed_structs_view_subrange,
    typed_structs_view_update,
    typed_enums_view_push,
    typed_enums_view_empty,
    typed_enums_view_add,
    typed_enums_view_subrange,
    typed_enums_view_update,
}

} // verus!
