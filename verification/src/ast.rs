//! The syntax tree of a program.

use vstd::prelude::*;
use crate::text::{cat2, cat3, cat4, cat5, int_text, text};

verus! {

broadcast use {crate::text::group_text_views};

/// A half-open byte range of the source text.
#[derive(Clone, Copy, PartialEq, Eq, Structural, Debug)]
pub struct Span {
    pub start: usize,
    pub end: usize,
}

impl Span {
    pub fn new(start: usize, end: usize) -> (r: Span)
        ensures
            r.start == start,
            r.end == end,
    {
        Span { start, end }
    }
}

#[derive(Clone, Copy, PartialEq, Eq, Structural, Debug)]
pub enum UnaryOp {
    Neg,
    Not,
}

#[derive(Clone, Copy, PartialEq, Eq, Structural, Debug)]
pub enum BinaryOp {
    Add,
    Sub,
    Mul,
    Div,
    Rem,
    Shl,
    Shr,
    BitAnd,
    BitOr,
    BitXor,
    Lt,
    Le,
    Gt,
    Ge,
    Eq,
    Ne,
    And,
    Or,
}

#[derive(Clone, Copy, PartialEq, Eq, Structural, Debug)]
pub enum ReductionOp {
    Add,
    Mul,
    Min,
    Max,
    And,
    Or,
    BitAnd,
    BitOr,
    BitXor,
}

/// A floating-point value, carried by its IEEE 754 double bit pattern together
/// with its shortest round-tripping rendering (`1.0`) and its plain rendering
/// (`1`).
#[derive(Debug, PartialEq)]
pub struct FloatLit {
    pub bits: u64,
    pub exact: String,
    pub plain: String,
}

/// The mathematical content of a [`FloatLit`].
pub struct FloatLitView {
    pub bits: u64,
    pub exact: Seq<char>,
    pub plain: Seq<char>,
}

pub open spec fn float_lit_view(x: FloatLit) -> FloatLitView
{
    FloatLitView {
        bits: x.bits,
        exact: x.exact@,
        plain: x.plain@,
    }
}

impl View for FloatLit {
    type V = FloatLitView;

    open spec fn view(&self) -> FloatLitView {
        float_lit_view(*self)
    }
}

impl FloatLit {
    /// A copy with the same content.
    pub fn dup(&self) -> (r: Self)
        ensures
            r@ == self@,
    {
        FloatLit {
            bits: self.bits,
            exact: self.exact.clone(),
            plain: self.plain.clone(),
        }
    }
}

/// A line comment, from its `//` to the end of the line.
#[derive(Debug, PartialEq)]
pub struct Comment {
    pub span: Span,
    pub text: String,
}

/// The mathematical content of a [`Comment`].
pub struct CommentView {
    pub span: Span,
    pub text: Seq<char>,
}

pub open spec fn comment_view(x: Comment) -> CommentView
{
    CommentView {
        span: x.span,
        text: x.text@,
    }
}

impl View for Comment {
    type V = CommentView;

    open spec fn view(&self) -> CommentView {
        comment_view(*self)
    }
}

impl Comment {
    /// A copy with the same content.
    pub fn dup(&self) -> (r: Self)
        ensures
            r@ == self@,
    {
        Comment {
            span: self.span,
            text: self.text.clone(),
        }
    }
}

pub open spec fn comments_view(s: Seq<Comment>) -> Seq<CommentView>
{
    Seq::new(s.len(), |i: int| comment_view(s[i]))
}

pub broadcast proof fn comments_view_push(s: Seq<Comment>, x: Comment)
    ensures
        #[trigger] comments_view(s.push(x)) == comments_view(s).push(comment_view(x)),
{
    assert(comments_view(s.push(x)) =~= comments_view(s).push(comment_view(x)));
}

pub broadcast proof fn comments_view_empty(s: Seq<Comment>)
    requires
        s.len() == 0,
    ensures
        #[trigger] comments_view(s) == Seq::<CommentView>::empty(),
{
    assert(comments_view(s) =~= Seq::<CommentView>::empty());
}

pub broadcast proof fn comments_view_add(a: Seq<Comment>, b: Seq<Comment>)
    ensures
        #[trigger] comments_view(a + b) == comments_view(a) + comments_view(b),
{
    assert(comments_view(a + b) =~= comments_view(a) + comments_view(b));
}

pub broadcast proof fn comments_view_subrange(s: Seq<Comment>, a: int, b: int)
    requires
        0 <= a <= b <= s.len(),
    ensures
        #[trigger] comments_view(s.subrange(a, b)) == comments_view(s).subrange(a, b),
{
    assert(comments_view(s.subrange(a, b)) =~= comments_view(s).subrange(a, b));
}

pub broadcast proof fn comments_view_update(s: Seq<Comment>, i: int, x: Comment)
    requires
        0 <= i < s.len(),
    ensures
        #[trigger] comments_view(s.update(i, x)) == comments_view(s).update(i, comment_view(x)),
{
    assert(comments_view(s.update(i, x)) =~= comments_view(s).update(i, comment_view(x)));
}

/// A type of the language.
#[derive(Debug, PartialEq)]
pub enum Type {
    I8,
    I16,
    I32,
    I64,
    U8,
    U16,
    U32,
    U64,
    F32,
    F64,
    Bool,
    Str,
    OwnedStr,
    Task,
    Struct(String),
    Enum(String),
    Param(String),
    Vec(Box<Type>),
    Ref(Box<Type>),
    RefMut(Box<Type>),
    Atomic(Box<Type>),
    Mutex(Box<Type>),
    Guard(Box<Type>),
    Array { element: Box<Type>, length: u64 },
    Channel(Box<Type>, u64),
    Tuple(Vec<Type>),
    FnPtr(Vec<Type>, Box<Type>),
}

/// The mathematical content of a [`Type`].
pub enum TypeView {
    I8,
    I16,
    I32,
    I64,
    U8,
    U16,
    U32,
    U64,
    F32,
    F64,
    Bool,
    Str,
    OwnedStr,
    Task,
    Struct(Seq<char>),
    Enum(Seq<char>),
    Param(Seq<char>),
    Vec(Box<TypeView>),
    Ref(Box<TypeView>),
    RefMut(Box<TypeView>),
    Atomic(Box<TypeView>),
    Mutex(Box<TypeView>),
    Guard(Box<TypeView>),
    Array { element: Box<TypeView>, length: u64 },
    Channel(Box<TypeView>, u64),
    Tuple(Seq<TypeView>),
    FnPtr(Seq<TypeView>, Box<TypeView>),
}

pub open spec fn type_view(x: Type) -> TypeView
    decreases x,
{
    match x {
        Type::I8 => TypeView::I8,
        Type::I16 => TypeView::I16,
        Type::I32 => TypeView::I32,
        Type::I64 => TypeView::I64,
        Type::U8 => TypeView::U8,
        Type::U16 => TypeView::U16,
        Type::U32 => TypeView::U32,
        Type::U64 => TypeView::U64,
        Type::F32 => TypeView::F32,
        Type::F64 => TypeView::F64,
        Type::Bool => TypeView::Bool,
        Type::Str => TypeView::Str,
        Type::OwnedStr => TypeView::OwnedStr,
        Type::Task => TypeView::Task,
        Type::Struct(a) => TypeView::Struct(a@),
        Type::Enum(a) => TypeView::Enum(a@),
        Type::Param(a) => TypeView::Param(a@),
        Type::Vec(a) => TypeView::Vec(Box::new(type_view(*a))),
        Type::Ref(a) => TypeView::Ref(Box::new(type_view(*a))),
        Type::RefMut(a) => TypeView::RefMut(Box::new(type_view(*a))),
        Type::Atomic(a) => TypeView::Atomic(Box::new(type_view(*a))),
        Type::Mutex(a) => TypeView::Mutex(Box::new(type_view(*a))),
        Type::Guard(a) => TypeView::Guard(Box::new(type_view(*a))),
        Type::Array { element, length } => TypeView::Array {
            element: Box::new(type_view(*element)),
            length: length,
        },
        Type::Channel(a, b) => TypeView::Channel(Box::new(type_view(*a)), b),
        Type::Tuple(a) => TypeView::Tuple(types_view(a@)),
        Type::FnPtr(a, b) => TypeView::FnPtr(types_view(a@), Box::new(type_view(*b))),
    }
}

impl View for Type {
    type V = TypeView;

    open spec fn view(&self) -> TypeView {
        type_view(*self)
    }
}

impl Type {
    /// A copy with the same content.
    pub fn dup(&self) -> (r: Self)
        ensures
            r@ == self@,
        decreases self,
    {
        match self {
            Type::I8 => Type::I8,
            Type::I16 => Type::I16,
            Type::I32 => Type::I32,
            Type::I64 => Type::I64,
            Type::U8 => Type::U8,
            Type::U16 => Type::U16,
            Type::U32 => Type::U32,
            Type::U64 => Type::U64,
            Type::F32 => Type::F32,
            Type::F64 => Type::F64,
            Type::Bool => Type::Bool,
            Type::Str => Type::Str,
            Type::OwnedStr => Type::OwnedStr,
            Type::Task => Type::Task,
            Type::Struct(a) => Type::Struct(a.clone()),
            Type::Enum(a) => Type::Enum(a.clone()),
            Type::Param(a) => Type::Param(a.clone()),
            Type::Vec(a) => Type::Vec(Box::new(a.dup())),
            Type::Ref(a) => Type::Ref(Box::new(a.dup())),
            Type::RefMut(a) => Type::RefMut(Box::new(a.dup())),
            Type::Atomic(a) => Type::Atomic(Box::new(a.dup())),
            Type::Mutex(a) => Type::Mutex(Box::new(a.dup())),
            Type::Guard(a) => Type::Guard(Box::new(a.dup())),
            Type::Array { element, length } => Type::Array {
                element: Box::new(element.dup()),
                length: *length,
            },
            Type::Channel(a, b) => Type::Channel(Box::new(a.dup()), *b),
            Type::Tuple(a) => Type::Tuple(dup_types(a)),
            Type::FnPtr(a, b) => Type::FnPtr(dup_types(a), Box::new(b.dup())),
        }
    }
}

pub open spec fn types_view(s: Seq<Type>) -> Seq<TypeView>
    decreases s,
{
    Seq::new(s.len(), |i: int| if 0 <= i < s.len() { type_view(s[i]) } else { arbitrary() })
}

pub broadcast proof fn types_view_push(s: Seq<Type>, x: Type)
    ensures
        #[trigger] types_view(s.push(x)) == types_view(s).push(type_view(x)),
{
    assert(types_view(s.push(x)) =~= types_view(s).push(type_view(x)));
}

pub broadcast proof fn types_view_empty(s: Seq<Type>)
    requires
        s.len() == 0,
    ensures
        #[trigger] types_view(s) == Seq::<TypeView>::empty(),
{
    assert(types_view(s) =~= Seq::<TypeView>::empty());
}

pub broadcast proof fn types_view_add(a: Seq<Type>, b: Seq<Type>)
    ensures
        #[trigger] types_view(a + b) == types_view(a) + types_view(b),
{
    assert(types_view(a + b) =~= types_view(a) + types_view(b));
}

pub broadcast proof fn types_view_subrange(s: Seq<Type>, a: int, b: int)
    requires
        0 <= a <= b <= s.len(),
    ensures
        #[trigger] types_view(s.subrange(a, b)) == types_view(s).subrange(a, b),
{
    assert(types_view(s.subrange(a, b)) =~= types_view(s).subrange(a, b));
}

pub broadcast proof fn types_view_update(s: Seq<Type>, i: int, x: Type)
    requires
        0 <= i < s.len(),
    ensures
        #[trigger] types_view(s.update(i, x)) == types_view(s).update(i, type_view(x)),
{
    assert(types_view(s.update(i, x)) =~= types_view(s).update(i, type_view(x)));
}

pub fn dup_types(v: &Vec<Type>) -> (r: Vec<Type>)
    ensures
        types_view(r@) == types_view(v@),
    decreases v,
{
    let mut r: Vec<Type> = Vec::new();
    let mut i: usize = 0;
    while i < v.len()
        invariant
            i <= v.len(),
            r.len() == i,
            forall|j: int| 0 <= j < i ==> #[trigger] types_view(r@)[j] == types_view(v@)[j],
        decreases v.len() - i,
    {
        let ghost before = r@;
        let x = &v[i];
        r.push(x.dup());
        proof {
            types_view_push(before, r@.last());
        }
        i += 1;
    }
    assert(types_view(r@) =~= types_view(v@));
    r
}

#[derive(Debug, PartialEq)]
pub enum ExprKind {
    Int(i128),
    Float(FloatLit),
    Bool(bool),
    Str(String),
    Var(String),
    Unary { op: UnaryOp, expr: Box<Expr> },
    Binary { op: BinaryOp, left: Box<Expr>, right: Box<Expr> },
    Call { name: String, name_span: Span, args: Vec<Expr> },
    MethodCall { receiver: Box<Expr>, method: String, method_span: Span, args: Vec<Expr> },
    Cast { expr: Box<Expr>, ty: Type },
    ArrayLit { elements: Vec<Expr> },
    Index { array: Box<Expr>, index: Box<Expr> },
    Len { array: Box<Expr> },
    Ref { inner: Box<Expr> },
    RefMut { inner: Box<Expr> },
    Tuple(Vec<Expr>),
    TupleAccess { tuple: Box<Expr>, index: u32 },
    StructLit { struct_name: String, struct_name_span: Span, fields: Vec<(String, Expr)> },
    FieldAccess { object: Box<Expr>, field: String },
    Match { scrutinee: Box<Expr>, arms: Vec<MatchArm> },
    IfExpr { cond: Box<Expr>, then_value: Box<Expr>, else_value: Box<Expr> },
    Block { stmts: Vec<Stmt>, tail: Box<Expr> },
    Try { inner: Box<Expr> },
}

/// The mathematical content of a [`ExprKind`].
pub enum ExprKindView {
    Int(i128),
    Float(FloatLitView),
    Bool(bool),
    Str(Seq<char>),
    Var(Seq<char>),
    Unary { op: UnaryOp, expr: Box<ExprView> },
    Binary { op: BinaryOp, left: Box<ExprView>, right: Box<ExprView> },
    Call { name: Seq<char>, name_span: Span, args: Seq<ExprView> },
    MethodCall {
        receiver: Box<ExprView>,
        method: Seq<char>,
        method_span: Span,
        args: Seq<ExprView>,
    },
    Cast { expr: Box<ExprView>, ty: TypeView },
    ArrayLit { elements: Seq<ExprView> },
    Index { array: Box<ExprView>, index: Box<ExprView> },
    Len { array: Box<ExprView> },
    Ref { inner: Box<ExprView> },
    RefMut { inner: Box<ExprView> },
    Tuple(Seq<ExprView>),
    TupleAccess { tuple: Box<ExprView>, index: u32 },
    StructLit {
        struct_name: Seq<char>,
        struct_name_span: Span,
        fields: Seq<(Seq<char>, ExprView)>,
    },
    FieldAccess { object: Box<ExprView>, field: Seq<char> },
    Match { scrutinee: Box<ExprView>, arms: Seq<MatchArmView> },
    IfExpr { cond: Box<ExprView>, then_value: Box<ExprView>, else_value: Box<ExprView> },
    Block { stmts: Seq<StmtView>, tail: Box<ExprView> },
    Try { inner: Box<ExprView> },
}

pub open spec fn expr_kind_view(x: ExprKind) -> ExprKindView
    decreases x,
{
    match x {
        ExprKind::Int(a) => ExprKindView::Int(a),
        ExprKind::Float(a) => ExprKindView::Float(float_lit_view(a)),
        ExprKind::Bool(a) => ExprKindView::Bool(a),
        ExprKind::Str(a) => ExprKindView::Str(a@),
        ExprKind::Var(a) => ExprKindView::Var(a@),
        ExprKind::Unary { op, expr } => ExprKindView::Unary {
            op: op,
            expr: Box::new(expr_view(*expr)),
        },
        ExprKind::Binary { op, left, right } => ExprKindView::Binary {
            op: op,
            left: Box::new(expr_view(*left)),
            right: Box::new(expr_view(*right)),
        },
        ExprKind::Call { name, name_span, args } => ExprKindView::Call {
            name: name@,
            name_span: name_span,
            args: exprs_view(args@),
        },
        ExprKind::MethodCall { receiver, method, method_span, args } => ExprKindView::MethodCall {
            receiver: Box::new(expr_view(*receiver)),
            method: method@,
            method_span: method_span,
            args: exprs_view(args@),
        },
        ExprKind::Cast { expr, ty } => ExprKindView::Cast {
            expr: Box::new(expr_view(*expr)),
            ty: type_view(ty),
        },
        ExprKind::ArrayLit { elements } => ExprKindView::ArrayLit {
            elements: exprs_view(elements@),
        },
        ExprKind::Index { array, index } => ExprKindView::Index {
            array: Box::new(expr_view(*array)),
            index: Box::new(expr_view(*index)),
        },
        ExprKind::Len { array } => ExprKindView::Len {
            array: Box::new(expr_view(*array)),
        },
        ExprKind::Ref { inner } => ExprKindView::Ref {
            inner: Box::new(expr_view(*inner)),
        },
        ExprKind::RefMut { inner } => ExprKindView::RefMut {
            inner: Box::new(expr_view(*inner)),
        },
        ExprKind::Tuple(a) => ExprKindView::Tuple(exprs_view(a@)),
        ExprKind::TupleAccess { tuple, index } => ExprKindView::TupleAccess {
            tuple: Box::new(expr_view(*tuple)),
            index: index,
        },
        ExprKind::StructLit { struct_name, struct_name_span, fields } => ExprKindView::StructLit {
            struct_name: struct_name@,
            struct_name_span: struct_name_span,
            fields: named_exprs_view(fields@),
        },
        ExprKind::FieldAccess { object, field } => ExprKindView::FieldAccess {
            object: Box::new(expr_view(*object)),
            field: field@,
        },
        ExprKind::Match { scrutinee, arms } => ExprKindView::Match {
            scrutinee: Box::new(expr_view(*scrutinee)),
            arms: arms_view(arms@),
        },
        ExprKind::IfExpr { cond, then_value, else_value } => ExprKindView::IfExpr {
            cond: Box::new(expr_view(*cond)),
            then_value: Box::new(expr_view(*then_value)),
            else_value: Box::new(expr_view(*else_value)),
        },
        ExprKind::Block { stmts, tail } => ExprKindView::Block {
            stmts: stmts_view(stmts@),
            tail: Box::new(expr_view(*tail)),
        },
        ExprKind::Try { inner } => ExprKindView::Try {
            inner: Box::new(expr_view(*inner)),
        },
    }
}

impl View for ExprKind {
    type V = ExprKindView;

    open spec fn view(&self) -> ExprKindView {
        expr_kind_view(*self)
    }
}

impl ExprKind {
    /// A copy with the same content.
    pub fn dup(&self) -> (r: Self)
        ensures
            r@ == self@,
        decreases self,
    {
        match self {
            ExprKind::Int(a) => ExprKind::Int(*a),
            ExprKind::Float(a) => ExprKind::Float(a.dup()),
            ExprKind::Bool(a) => ExprKind::Bool(*a),
            ExprKind::Str(a) => ExprKind::Str(a.clone()),
            ExprKind::Var(a) => ExprKind::Var(a.clone()),
            ExprKind::Unary { op, expr } => ExprKind::Unary {
                op: *op,
                expr: Box::new(expr.dup()),
            },
            ExprKind::Binary { op, left, right } => ExprKind::Binary {
                op: *op,
                left: Box::new(left.dup()),
                right: Box::new(right.dup()),
            },
            ExprKind::Call { name, name_span, args } => ExprKind::Call {
                name: name.clone(),
                name_span: *name_span,
                args: dup_exprs(args),
            },
            ExprKind::MethodCall { receiver, method, method_span, args } => ExprKind::MethodCall {
                receiver: Box::new(receiver.dup()),
                method: method.clone(),
                method_span: *method_span,
                args: dup_exprs(args),
            },
            ExprKind::Cast { expr, ty } => ExprKind::Cast {
                expr: Box::new(expr.dup()),
                ty: ty.dup(),
            },
            ExprKind::ArrayLit { elements } => ExprKind::ArrayLit {
                elements: dup_exprs(elements),
            },
            ExprKind::Index { array, index } => ExprKind::Index {
                array: Box::new(array.dup()),
                index: Box::new(index.dup()),
            },
            ExprKind::Len { array } => ExprKind::Len {
                array: Box::new(array.dup()),
            },
            ExprKind::Ref { inner } => ExprKind::Ref {
                inner: Box::new(inner.dup()),
            },
            ExprKind::RefMut { inner } => ExprKind::RefMut {
                inner: Box::new(inner.dup()),
            },
            ExprKind::Tuple(a) => ExprKind::Tuple(dup_exprs(a)),
            ExprKind::TupleAccess { tuple, index } => ExprKind::TupleAccess {
                tuple: Box::new(tuple.dup()),
                index: *index,
            },
            ExprKind::StructLit { struct_name, struct_name_span, fields } => ExprKind::StructLit {
                struct_name: struct_name.clone(),
                struct_name_span: *struct_name_span,
                fields: dup_named_exprs(fields),
            },
            ExprKind::FieldAccess { object, field } => ExprKind::FieldAccess {
                object: Box::new(object.dup()),
                field: field.clone(),
            },
            ExprKind::Match { scrutinee, arms } => ExprKind::Match {
                scrutinee: Box::new(scrutinee.dup()),
                arms: dup_arms(arms),
            },
            ExprKind::IfExpr { cond, then_value, else_value } => ExprKind::IfExpr {
                cond: Box::new(cond.dup()),
                then_value: Box::new(then_value.dup()),
                else_value: Box::new(else_value.dup()),
            },
            ExprKind::Block { stmts, tail } => ExprKind::Block {
                stmts: dup_stmts(stmts),
                tail: Box::new(tail.dup()),
            },
            ExprKind::Try { inner } => ExprKind::Try {
                inner: Box::new(inner.dup()),
            },
        }
    }
}

/// An expression with its place in the source.
#[derive(Debug, PartialEq)]
pub struct Expr {
    pub kind: ExprKind,
    pub span: Span,
}

/// The mathematical content of a [`Expr`].
pub struct ExprView {
    pub kind: ExprKindView,
    pub span: Span,
}

pub open spec fn expr_view(x: Expr) -> ExprView
    decreases x,
{
    ExprView {
        kind: expr_kind_view(x.kind),
        span: x.span,
    }
}

impl View for Expr {
    type V = ExprView;

    open spec fn view(&self) -> ExprView {
        expr_view(*self)
    }
}

impl Expr {
    /// A copy with the same content.
    pub fn dup(&self) -> (r: Self)
        ensures
            r@ == self@,
        decreases self,
    {
        Expr {
            kind: self.kind.dup(),
            span: self.span,
        }
    }
}

#[derive(Debug, PartialEq)]
pub struct MatchArm {
    pub pattern: Pattern,
    pub pattern_span: Span,
    pub body: Expr,
}

/// The mathematical content of a [`MatchArm`].
pub struct MatchArmView {
    pub pattern: PatternView,
    pub pattern_span: Span,
    pub body: ExprView,
}

pub open spec fn match_arm_view(x: MatchArm) -> MatchArmView
    decreases x,
{
    MatchArmView {
        pattern: pattern_view(x.pattern),
        pattern_span: x.pattern_span,
        body: expr_view(x.body),
    }
}

impl View for MatchArm {
    type V = MatchArmView;

    open spec fn view(&self) -> MatchArmView {
        match_arm_view(*self)
    }
}

impl MatchArm {
    /// A copy with the same content.
    pub fn dup(&self) -> (r: Self)
        ensures
            r@ == self@,
        decreases self,
    {
        MatchArm {
            pattern: self.pattern.dup(),
            pattern_span: self.pattern_span,
            body: self.body.dup(),
        }
    }
}

#[derive(Debug, PartialEq)]
pub enum PrintItem {
    Expr(Expr),
    Str(String),
}

/// The mathematical content of a [`PrintItem`].
pub enum PrintItemView {
    Expr(ExprView),
    Str(Seq<char>),
}

pub open spec fn print_item_view(x: PrintItem) -> PrintItemView
    decreases x,
{
    match x {
        PrintItem::Expr(a) => PrintItemView::Expr(expr_view(a)),
        PrintItem::Str(a) => PrintItemView::Str(a@),
    }
}

impl View for PrintItem {
    type V = PrintItemView;

    open spec fn view(&self) -> PrintItemView {
        print_item_view(*self)
    }
}

impl PrintItem {
    /// A copy with the same content.
    pub fn dup(&self) -> (r: Self)
        ensures
            r@ == self@,
        decreases self,
    {
        match self {
            PrintItem::Expr(a) => PrintItem::Expr(a.dup()),
            PrintItem::Str(a) => PrintItem::Str(a.clone()),
        }
    }
}

#[derive(Debug, PartialEq)]
pub enum Stmt {
    Let { name: String, annotation: Option<Type>, expr: Expr, span: Span },
    LetTuple { names: Vec<String>, annotation: Option<Type>, expr: Expr, span: Span },
    Return { expr: Expr, span: Span },
    Assert { expr: Expr, message: Option<String>, span: Span },
    Prove { expr: Expr, span: Span },
    Print { items: Vec<PrintItem>, span: Span },
    If { cond: Expr, then_body: Vec<Stmt>, else_body: Vec<Stmt>, span: Span },
    While { cond: Expr, invariants: Vec<Expr>, body: Vec<Stmt>, span: Span },
    Assign { name: String, expr: Expr, span: Span },
    Break { span: Span },
    Continue { span: Span },
    IndexAssign { name: String, index: Expr, field_path: Vec<String>, value: Expr, span: Span },
    FieldAssign { object: Expr, field: String, field_span: Span, value: Expr, span: Span },
    For {
        var: String,
        start: Expr,
        end: Expr,
        invariants: Vec<Expr>,
        body: Vec<Stmt>,
        span: Span,
        parallel: bool,
        reductions: Vec<Reduction>,
    },
    ForIter { var: String, collection: String, consumes: bool, body: Vec<Stmt>, span: Span },
    TaskSpawn { name: String, body: Vec<Stmt>, span: Span },
    TaskJoin { name: String, span: Span },
}

/// The mathematical content of a [`Stmt`].
pub enum StmtView {
    Let { name: Seq<char>, annotation: Option<TypeView>, expr: ExprView, span: Span },
    LetTuple { names: Seq<Seq<char>>, annotation: Option<TypeView>, expr: ExprView, span: Span },
    Return { expr: ExprView, span: Span },
    Assert { expr: ExprView, message: Option<Seq<char>>, span: Span },
    Prove { expr: ExprView, span: Span },
    Print { items: Seq<PrintItemView>, span: Span },
    If { cond: ExprView, then_body: Seq<StmtView>, else_body: Seq<StmtView>, span: Span },
    While { cond: ExprView, invariants: Seq<ExprView>, body: Seq<StmtView>, span: Span },
    Assign { name: Seq<char>, expr: ExprView, span: Span },
    Break { span: Span },
    Continue { span: Span },
    IndexAssign {
        name: Seq<char>,
        index: ExprView,
        field_path: Seq<Seq<char>>,
        value: ExprView,
        span: Span,
    },
    FieldAssign {
        object: ExprView,
        field: Seq<char>,
        field_span: Span,
        value: ExprView,
        span: Span,
    },
    For {
        var: Seq<char>,
        start: ExprView,
        end: ExprView,
        invariants: Seq<ExprView>,
        body: Seq<StmtView>,
        span: Span,
        parallel: bool,
        reductions: Seq<ReductionView>,
    },
    ForIter {
        var: Seq<char>,
        collection: Seq<char>,
        consumes: bool,
        body: Seq<StmtView>,
        span: Span,
    },
    TaskSpawn { name: Seq<char>, body: Seq<StmtView>, span: Span },
    TaskJoin { name: Seq<char>, span: Span },
}

pub open spec fn stmt_view(x: Stmt) -> StmtView
    decreases x,
{
    match x {
        Stmt::Let { name, annotation, expr, span } => StmtView::Let {
            name: name@,
            annotation: (match annotation { Some(v0) => Some(type_view(v0)), None => None }),
            expr: expr_view(expr),
            span: span,
        },
        Stmt::LetTuple { names, annotation, expr, span } => StmtView::LetTuple {
            names: crate::text::strs_view(names@),
            annotation: (match annotation { Some(v0) => Some(type_view(v0)), None => None }),
            expr: expr_view(expr),
            span: span,
        },
        Stmt::Return { expr, span } => StmtView::Return {
            expr: expr_view(expr),
            span: span,
        },
        Stmt::Assert { expr, message, span } => StmtView::Assert {
            expr: expr_view(expr),
            message: (match message { Some(v0) => Some(v0@), None => None }),
            span: span,
        },
        Stmt::Prove { expr, span } => StmtView::Prove {
            expr: expr_view(expr),
            span: span,
        },
        Stmt::Print { items, span } => StmtView::Print {
            items: print_items_view(items@),
            span: span,
        },
        Stmt::If { cond, then_body, else_body, span } => StmtView::If {
            cond: expr_view(cond),
            then_body: stmts_view(then_body@),
            else_body: stmts_view(else_body@),
            span: span,
        },
        Stmt::While { cond, invariants, body, span } => StmtView::While {
            cond: expr_view(cond),
            invariants: exprs_view(invariants@),
            body: stmts_view(body@),
            span: span,
        },
        Stmt::Assign { name, expr, span } => StmtView::Assign {
            name: name@,
            expr: expr_view(expr),
            span: span,
        },
        Stmt::Break { span } => StmtView::Break {
            span: span,
        },
        Stmt::Continue { span } => StmtView::Continue {
            span: span,
        },
        Stmt::IndexAssign { name, index, field_path, value, span } => StmtView::IndexAssign {
            name: name@,
            index: expr_view(index),
            field_path: crate::text::strs_view(field_path@),
            value: expr_view(value),
            span: span,
        },
        Stmt::FieldAssign { object, field, field_span, value, span } => StmtView::FieldAssign {
            object: expr_view(object),
            field: field@,
            field_span: field_span,
            value: expr_view(value),
            span: span,
        },
        Stmt::For {
            var,
            start,
            end,
            invariants,
            body,
            span,
            parallel,
            reductions,
        } => StmtView::For {
            var: var@,
            start: expr_view(start),
            end: expr_view(end),
            invariants: exprs_view(invariants@),
            body: stmts_view(body@),
            span: span,
            parallel: parallel,
            reductions: reductions_view(reductions@),
        },
        Stmt::ForIter { var, collection, consumes, body, span } => StmtView::ForIter {
            var: var@,
            collection: collection@,
            consumes: consumes,
            body: stmts_view(body@),
            span: span,
        },
        Stmt::TaskSpawn { name, body, span } => StmtView::TaskSpawn {
            name: name@,
            body: stmts_view(body@),
            span: span,
        },
        Stmt::TaskJoin { name, span } => StmtView::TaskJoin {
            name: name@,
            span: span,
        },
    }
}

impl View for Stmt {
    type V = StmtView;

    open spec fn view(&self) -> StmtView {
        stmt_view(*self)
    }
}

impl Stmt {
    /// A copy with the same content.
    pub fn dup(&self) -> (r: Self)
        ensures
            r@ == self@,
        decreases self,
    {
        match self {
            Stmt::Let { name, annotation, expr, span } => Stmt::Let {
                name: name.clone(),
                annotation: match annotation {
                Some(v) => Some(v.dup()),
                None => None,
            },
                expr: expr.dup(),
                span: *span,
            },
            Stmt::LetTuple { names, annotation, expr, span } => Stmt::LetTuple {
                names: crate::text::dup_strs(names),
                annotation: match annotation {
                Some(v) => Some(v.dup()),
                None => None,
            },
                expr: expr.dup(),
                span: *span,
            },
            Stmt::Return { expr, span } => Stmt::Return {
                expr: expr.dup(),
                span: *span,
            },
            Stmt::Assert { expr, message, span } => Stmt::Assert {
                expr: expr.dup(),
                message: match message {
                Some(v) => Some(v.clone()),
                None => None,
            },
                span: *span,
            },
            Stmt::Prove { expr, span } => Stmt::Prove {
                expr: expr.dup(),
                span: *span,
            },
            Stmt::Print { items, span } => Stmt::Print {
                items: dup_print_items(items),
                span: *span,
            },
            Stmt::If { cond, then_body, else_body, span } => Stmt::If {
                cond: cond.dup(),
                then_body: dup_stmts(then_body),
                else_body: dup_stmts(else_body),
                span: *span,
            },
            Stmt::While { cond, invariants, body, span } => Stmt::While {
                cond: cond.dup(),
                invariants: dup_exprs(invariants),
                body: dup_stmts(body),
                span: *span,
            },
            Stmt::Assign { name, expr, span } => Stmt::Assign {
                name: name.clone(),
                expr: expr.dup(),
                span: *span,
            },
            Stmt::Break { span } => Stmt::Break {
                span: *span,
            },
            Stmt::Continue { span } => Stmt::Continue {
                span: *span,
            },
            Stmt::IndexAssign { name, index, field_path, value, span } => Stmt::IndexAssign {
                name: name.clone(),
                index: index.dup(),
                field_path: crate::text::dup_strs(field_path),
                value: value.dup(),
                span: *span,
            },
            Stmt::FieldAssign { object, field, field_span, value, span } => Stmt::FieldAssign {
                object: object.dup(),
                field: field.clone(),
                field_span: *field_span,
                value: value.dup(),
                span: *span,
            },
            Stmt::For {
                var,
                start,
                end,
                invariants,
                body,
                span,
                parallel,
                reductions,
            } => Stmt::For {
                var: var.clone(),
                start: start.dup(),
                end: end.dup(),
                invariants: dup_exprs(invariants),
                body: dup_stmts(body),
                span: *span,
                parallel: *parallel,
                reductions: dup_reductions(reductions),
            },
            Stmt::ForIter { var, collection, consumes, body, span } => Stmt::ForIter {
                var: var.clone(),
                collection: collection.clone(),
                consumes: *consumes,
                body: dup_stmts(body),
                span: *span,
            },
            Stmt::TaskSpawn { name, body, span } => Stmt::TaskSpawn {
                name: name.clone(),
                body: dup_stmts(body),
                span: *span,
            },
            Stmt::TaskJoin { name, span } => Stmt::TaskJoin {
                name: name.clone(),
                span: *span,
            },
        }
    }
}

pub open spec fn exprs_view(s: Seq<Expr>) -> Seq<ExprView>
    decreases s,
{
    Seq::new(s.len(), |i: int| if 0 <= i < s.len() { expr_view(s[i]) } else { arbitrary() })
}

pub broadcast proof fn exprs_view_push(s: Seq<Expr>, x: Expr)
    ensures
        #[trigger] exprs_view(s.push(x)) == exprs_view(s).push(expr_view(x)),
{
    assert(exprs_view(s.push(x)) =~= exprs_view(s).push(expr_view(x)));
}

pub broadcast proof fn exprs_view_empty(s: Seq<Expr>)
    requires
        s.len() == 0,
    ensures
        #[trigger] exprs_view(s) == Seq::<ExprView>::empty(),
{
    assert(exprs_view(s) =~= Seq::<ExprView>::empty());
}

pub broadcast proof fn exprs_view_add(a: Seq<Expr>, b: Seq<Expr>)
    ensures
        #[trigger] exprs_view(a + b) == exprs_view(a) + exprs_view(b),
{
    assert(exprs_view(a + b) =~= exprs_view(a) + exprs_view(b));
}

pub broadcast proof fn exprs_view_subrange(s: Seq<Expr>, a: int, b: int)
    requires
        0 <= a <= b <= s.len(),
    ensures
        #[trigger] exprs_view(s.subrange(a, b)) == exprs_view(s).subrange(a, b),
{
    assert(exprs_view(s.subrange(a, b)) =~= exprs_view(s).subrange(a, b));
}

pub broadcast proof fn exprs_view_update(s: Seq<Expr>, i: int, x: Expr)
    requires
        0 <= i < s.len(),
    ensures
        #[trigger] exprs_view(s.update(i, x)) == exprs_view(s).update(i, expr_view(x)),
{
    assert(exprs_view(s.update(i, x)) =~= exprs_view(s).update(i, expr_view(x)));
}

pub fn dup_exprs(v: &Vec<Expr>) -> (r: Vec<Expr>)
    ensures
        exprs_view(r@) == exprs_view(v@),
    decreases v,
{
    let mut r: Vec<Expr> = Vec::new();
    let mut i: usize = 0;
    while i < v.len()
        invariant
            i <= v.len(),
            r.len() == i,
            forall|j: int| 0 <= j < i ==> #[trigger] exprs_view(r@)[j] == exprs_view(v@)[j],
        decreases v.len() - i,
    {
        let ghost before = r@;
        let x = &v[i];
        r.push(x.dup());
        proof {
            exprs_view_push(before, r@.last());
        }
        i += 1;
    }
    assert(exprs_view(r@) =~= exprs_view(v@));
    r
}

pub open spec fn named_exprs_view(s: Seq<(String, Expr)>) -> Seq<(Seq<char>, ExprView)>
    decreases s,
{
    Seq::new(
        s.len(),
        |i: int| if 0 <= i < s.len() { (s[i].0@, expr_view(s[i].1)) } else { arbitrary() },
    )
}

pub broadcast proof fn named_exprs_view_push(s: Seq<(String, Expr)>, x: (String, Expr))
    ensures
        #[trigger] named_exprs_view(s.push(x)) == named_exprs_view(s).push((x.0@, expr_view(x.1))),
{
    assert(named_exprs_view(s.push(x)) =~= named_exprs_view(s).push((x.0@, expr_view(x.1))));
}

pub broadcast proof fn named_exprs_view_empty(s: Seq<(String, Expr)>)
    requires
        s.len() == 0,
    ensures
        #[trigger] named_exprs_view(s) == Seq::<(Seq<char>, ExprView)>::empty(),
{
    assert(named_exprs_view(s) =~= Seq::<(Seq<char>, ExprView)>::empty());
}

pub broadcast proof fn named_exprs_view_add(a: Seq<(String, Expr)>, b: Seq<(String, Expr)>)
    ensures
        #[trigger] named_exprs_view(a + b) == named_exprs_view(a) + named_exprs_view(b),
{
    assert(named_exprs_view(a + b) =~= named_exprs_view(a) + named_exprs_view(b));
}

pub broadcast proof fn named_exprs_view_subrange(s: Seq<(String, Expr)>, a: int, b: int)
    requires
        0 <= a <= b <= s.len(),
    ensures
        #[trigger] named_exprs_view(s.subrange(a, b)) == named_exprs_view(s).subrange(a, b),
{
    assert(named_exprs_view(s.subrange(a, b)) =~= named_exprs_view(s).subrange(a, b));
}

pub broadcast proof fn named_exprs_view_update(s: Seq<(String, Expr)>, i: int, x: (String, Expr))
    requires
        0 <= i < s.len(),
    ensures
        #[trigger] named_exprs_view(s.update(i, x)) == named_exprs_view(s).update(i, (x.0@, expr_view(x.1))),
{
    assert(
        named_exprs_view(s.update(i, x)) =~= named_exprs_view(s).update(i, (x.0@, expr_view(x.1)))
    );
}

pub fn dup_named_exprs(v: &Vec<(String, Expr)>) -> (r: Vec<(String, Expr)>)
    ensures
        named_exprs_view(r@) == named_exprs_view(v@),
    decreases v,
{
    let mut r: Vec<(String, Expr)> = Vec::new();
    let mut i: usize = 0;
    while i < v.len()
        invariant
            i <= v.len(),
            r.len() == i,
            forall|j: int| 0 <= j < i ==> #[trigger] named_exprs_view(r@)[j] == named_exprs_view(v@)[j],
        decreases v.len() - i,
    {
        let ghost before = r@;
        let x = &v[i];
        r.push((x.0.clone(), x.1.dup()));
        proof {
            named_exprs_view_push(before, r@.last());
        }
        i += 1;
    }
    assert(named_exprs_view(r@) =~= named_exprs_view(v@));
    r
}

pub open spec fn arms_view(s: Seq<MatchArm>) -> Seq<MatchArmView>
    decreases s,
{
    Seq::new(s.len(), |i: int| if 0 <= i < s.len() { match_arm_view(s[i]) } else { arbitrary() })
}

pub broadcast proof fn arms_view_push(s: Seq<MatchArm>, x: MatchArm)
    ensures
        #[trigger] arms_view(s.push(x)) == arms_view(s).push(match_arm_view(x)),
{
    assert(arms_view(s.push(x)) =~= arms_view(s).push(match_arm_view(x)));
}

pub broadcast proof fn arms_view_empty(s: Seq<MatchArm>)
    requires
        s.len() == 0,
    ensures
        #[trigger] arms_view(s) == Seq::<MatchArmView>::empty(),
{
    assert(arms_view(s) =~= Seq::<MatchArmView>::empty());
}

pub broadcast proof fn arms_view_add(a: Seq<MatchArm>, b: Seq<MatchArm>)
    ensures
        #[trigger] arms_view(a + b) == arms_view(a) + arms_view(b),
{
    assert(arms_view(a + b) =~= arms_view(a) + arms_view(b));
}

pub broadcast proof fn arms_view_subrange(s: Seq<MatchArm>, a: int, b: int)
    requires
        0 <= a <= b <= s.len(),
    ensures
        #[trigger] arms_view(s.subrange(a, b)) == arms_view(s).subrange(a, b),
{
    assert(arms_view(s.subrange(a, b)) =~= arms_view(s).subrange(a, b));
}

pub broadcast proof fn arms_view_update(s: Seq<MatchArm>, i: int, x: MatchArm)
    requires
        0 <= i < s.len(),
    ensures
        #[trigger] arms_view(s.update(i, x)) == arms_view(s).update(i, match_arm_view(x)),
{
    assert(arms_view(s.update(i, x)) =~= arms_view(s).update(i, match_arm_view(x)));
}

pub fn dup_arms(v: &Vec<MatchArm>) -> (r: Vec<MatchArm>)
    ensures
        arms_view(r@) == arms_view(v@),
    decreases v,
{
    let mut r: Vec<MatchArm> = Vec::new();
    let mut i: usize = 0;
    while i < v.len()
        invariant
            i <= v.len(),
            r.len() == i,
            forall|j: int| 0 <= j < i ==> #[trigger] arms_view(r@)[j] == arms_view(v@)[j],
        decreases v.len() - i,
    {
        let ghost before = r@;
        let x = &v[i];
        r.push(x.dup());
        proof {
            arms_view_push(before, r@.last());
        }
        i += 1;
    }
    assert(arms_view(r@) =~= arms_view(v@));
    r
}

pub open spec fn print_items_view(s: Seq<PrintItem>) -> Seq<PrintItemView>
    decreases s,
{
    Seq::new(s.len(), |i: int| if 0 <= i < s.len() { print_item_view(s[i]) } else { arbitrary() })
}

pub broadcast proof fn print_items_view_push(s: Seq<PrintItem>, x: PrintItem)
    ensures
        #[trigger] print_items_view(s.push(x)) == print_items_view(s).push(print_item_view(x)),
{
    assert(print_items_view(s.push(x)) =~= print_items_view(s).push(print_item_view(x)));
}

pub broadcast proof fn print_items_view_empty(s: Seq<PrintItem>)
    requires
        s.len() == 0,
    ensures
        #[trigger] print_items_view(s) == Seq::<PrintItemView>::empty(),
{
    assert(print_items_view(s) =~= Seq::<PrintItemView>::empty());
}

pub broadcast proof fn print_items_view_add(a: Seq<PrintItem>, b: Seq<PrintItem>)
    ensures
        #[trigger] print_items_view(a + b) == print_items_view(a) + print_items_view(b),
{
    assert(print_items_view(a + b) =~= print_items_view(a) + print_items_view(b));
}

pub broadcast proof fn print_items_view_subrange(s: Seq<PrintItem>, a: int, b: int)
    requires
        0 <= a <= b <= s.len(),
    ensures
        #[trigger] print_items_view(s.subrange(a, b)) == print_items_view(s).subrange(a, b),
{
    assert(print_items_view(s.subrange(a, b)) =~= print_items_view(s).subrange(a, b));
}

pub broadcast proof fn print_items_view_update(s: Seq<PrintItem>, i: int, x: PrintItem)
    requires
        0 <= i < s.len(),
    ensures
        #[trigger] print_items_view(s.update(i, x)) == print_items_view(s).update(i, print_item_view(x)),
{
    assert(print_items_view(s.update(i, x)) =~= print_items_view(s).update(i, print_item_view(x)));
}

pub fn dup_print_items(v: &Vec<PrintItem>) -> (r: Vec<PrintItem>)
    ensures
        print_items_view(r@) == print_items_view(v@),
    decreases v,
{
    let mut r: Vec<PrintItem> = Vec::new();
    let mut i: usize = 0;
    while i < v.len()
        invariant
            i <= v.len(),
            r.len() == i,
            forall|j: int| 0 <= j < i ==> #[trigger] print_items_view(r@)[j] == print_items_view(v@)[j],
        decreases v.len() - i,
    {
        let ghost before = r@;
        let x = &v[i];
        r.push(x.dup());
        proof {
            print_items_view_push(before, r@.last());
        }
        i += 1;
    }
    assert(print_items_view(r@) =~= print_items_view(v@));
    r
}

pub open spec fn stmts_view(s: Seq<Stmt>) -> Seq<StmtView>
    decreases s,
{
    Seq::new(s.len(), |i: int| if 0 <= i < s.len() { stmt_view(s[i]) } else { arbitrary() })
}

pub broadcast proof fn stmts_view_push(s: Seq<Stmt>, x: Stmt)
    ensures
        #[trigger] stmts_view(s.push(x)) == stmts_view(s).push(stmt_view(x)),
{
    assert(stmts_view(s.push(x)) =~= stmts_view(s).push(stmt_view(x)));
}

pub broadcast proof fn stmts_view_empty(s: Seq<Stmt>)
    requires
        s.len() == 0,
    ensures
        #[trigger] stmts_view(s) == Seq::<StmtView>::empty(),
{
    assert(stmts_view(s) =~= Seq::<StmtView>::empty());
}

pub broadcast proof fn stmts_view_add(a: Seq<Stmt>, b: Seq<Stmt>)
    ensures
        #[trigger] stmts_view(a + b) == stmts_view(a) + stmts_view(b),
{
    assert(stmts_view(a + b) =~= stmts_view(a) + stmts_view(b));
}

pub broadcast proof fn stmts_view_subrange(s: Seq<Stmt>, a: int, b: int)
    requires
        0 <= a <= b <= s.len(),
    ensures
        #[trigger] stmts_view(s.subrange(a, b)) == stmts_view(s).subrange(a, b),
{
    assert(stmts_view(s.subrange(a, b)) =~= stmts_view(s).subrange(a, b));
}

pub broadcast proof fn stmts_view_update(s: Seq<Stmt>, i: int, x: Stmt)
    requires
        0 <= i < s.len(),
    ensures
        #[trigger] stmts_view(s.update(i, x)) == stmts_view(s).update(i, stmt_view(x)),
{
    assert(stmts_view(s.update(i, x)) =~= stmts_view(s).update(i, stmt_view(x)));
}

pub fn dup_stmts(v: &Vec<Stmt>) -> (r: Vec<Stmt>)
    ensures
        stmts_view(r@) == stmts_view(v@),
    decreases v,
{
    let mut r: Vec<Stmt> = Vec::new();
    let mut i: usize = 0;
    while i < v.len()
        invariant
            i <= v.len(),
            r.len() == i,
            forall|j: int| 0 <= j < i ==> #[trigger] stmts_view(r@)[j] == stmts_view(v@)[j],
        decreases v.len() - i,
    {
        let ghost before = r@;
        let x = &v[i];
        r.push(x.dup());
        proof {
            stmts_view_push(before, r@.last());
        }
        i += 1;
    }
    assert(stmts_view(r@) =~= stmts_view(v@));
    r
}

#[derive(Debug, PartialEq)]
pub enum Pattern {
    Variant { enum_name: String, variant: String },
    VariantWithBinding { enum_name: String, variant: String, binding: String },
    Int(i128),
    Bool(bool),
    Str(String),
    Wildcard,
}

/// The mathematical content of a [`Pattern`].
pub enum PatternView {
    Variant { enum_name: Seq<char>, variant: Seq<char> },
    VariantWithBinding { enum_name: Seq<char>, variant: Seq<char>, binding: Seq<char> },
    Int(i128),
    Bool(bool),
    Str(Seq<char>),
    Wildcard,
}

pub open spec fn pattern_view(x: Pattern) -> PatternView
{
    match x {
        Pattern::Variant { enum_name, variant } => PatternView::Variant {
            enum_name: enum_name@,
            variant: variant@,
        },
        Pattern::VariantWithBinding {
            enum_name,
            variant,
            binding,
        } => PatternView::VariantWithBinding {
            enum_name: enum_name@,
            variant: variant@,
            binding: binding@,
        },
        Pattern::Int(a) => PatternView::Int(a),
        Pattern::Bool(a) => PatternView::Bool(a),
        Pattern::Str(a) => PatternView::Str(a@),
        Pattern::Wildcard => PatternView::Wildcard,
    }
}

impl View for Pattern {
    type V = PatternView;

    open spec fn view(&self) -> PatternView {
        pattern_view(*self)
    }
}

impl Pattern {
    /// A copy with the same content.
    pub fn dup(&self) -> (r: Self)
        ensures
            r@ == self@,
    {
        match self {
            Pattern::Variant { enum_name, variant } => Pattern::Variant {
                enum_name: enum_name.clone(),
                variant: variant.clone(),
            },
            Pattern::VariantWithBinding {
                enum_name,
                variant,
                binding,
            } => Pattern::VariantWithBinding {
                enum_name: enum_name.clone(),
                variant: variant.clone(),
                binding: binding.clone(),
            },
            Pattern::Int(a) => Pattern::Int(*a),
            Pattern::Bool(a) => Pattern::Bool(*a),
            Pattern::Str(a) => Pattern::Str(a.clone()),
            Pattern::Wildcard => Pattern::Wildcard,
        }
    }
}

#[derive(Debug, PartialEq)]
pub struct Reduction {
    pub var: String,
    pub op: ReductionOp,
    pub span: Span,
}

/// The mathematical content of a [`Reduction`].
pub struct ReductionView {
    pub var: Seq<char>,
    pub op: ReductionOp,
    pub span: Span,
}

pub open spec fn reduction_view(x: Reduction) -> ReductionView
{
    ReductionView {
        var: x.var@,
        op: x.op,
        span: x.span,
    }
}

impl View for Reduction {
    type V = ReductionView;

    open spec fn view(&self) -> ReductionView {
        reduction_view(*self)
    }
}

impl Reduction {
    /// A copy with the same content.
    pub fn dup(&self) -> (r: Self)
        ensures
            r@ == self@,
    {
        Reduction {
            var: self.var.clone(),
            op: self.op,
            span: self.span,
        }
    }
}

#[derive(Debug, PartialEq)]
pub struct Param {
    pub name: String,
    pub name_span: Span,
    pub ty: Type,
    pub span: Span,
}

/// The mathematical content of a [`Param`].
pub struct ParamView {
    pub name: Seq<char>,
    pub name_span: Span,
    pub ty: TypeView,
    pub span: Span,
}

pub open spec fn param_view(x: Param) -> ParamView
{
    ParamView {
        name: x.name@,
        name_span: x.name_span,
        ty: type_view(x.ty),
        span: x.span,
    }
}

impl View for Param {
    type V = ParamView;

    open spec fn view(&self) -> ParamView {
        param_view(*self)
    }
}

impl Param {
    /// A copy with the same content.
    pub fn dup(&self) -> (r: Self)
        ensures
            r@ == self@,
    {
        Param {
            name: self.name.clone(),
            name_span: self.name_span,
            ty: self.ty.dup(),
            span: self.span,
        }
    }
}

#[derive(Debug, PartialEq)]
pub struct WhereClause {
    pub type_param: String,
    pub interface_name: String,
    pub span: Span,
}

/// The mathematical content of a [`WhereClause`].
pub struct WhereClauseView {
    pub type_param: Seq<char>,
    pub interface_name: Seq<char>,
    pub span: Span,
}

pub open spec fn where_clause_view(x: WhereClause) -> WhereClauseView
{
    WhereClauseView {
        type_param: x.type_param@,
        interface_name: x.interface_name@,
        span: x.span,
    }
}

impl View for WhereClause {
    type V = WhereClauseView;

    open spec fn view(&self) -> WhereClauseView {
        where_clause_view(*self)
    }
}

impl WhereClause {
    /// A copy with the same content.
    pub fn dup(&self) -> (r: Self)
        ensures
            r@ == self@,
    {
        WhereClause {
            type_param: self.type_param.clone(),
            interface_name: self.interface_name.clone(),
            span: self.span,
        }
    }
}

#[derive(Debug, PartialEq)]
pub struct Function {
    pub name: String,
    pub type_params: Vec<String>,
    pub params: Vec<Param>,
    pub return_type: Type,
    pub where_clauses: Vec<WhereClause>,
    pub requires: Vec<Expr>,
    pub ensures: Vec<Expr>,
    pub body: Vec<Stmt>,
    pub is_pure: bool,
    pub span: Span,
}

/// The mathematical content of a [`Function`].
pub struct FunctionView {
    pub name: Seq<char>,
    pub type_params: Seq<Seq<char>>,
    pub params: Seq<ParamView>,
    pub return_type: TypeView,
    pub where_clauses: Seq<WhereClauseView>,
    pub requires: Seq<ExprView>,
    pub ensures: Seq<ExprView>,
    pub body: Seq<StmtView>,
    pub is_pure: bool,
    pub span: Span,
}

pub open spec fn function_view(x: Function) -> FunctionView
{
    FunctionView {
        name: x.name@,
        type_params: crate::text::strs_view(x.type_params@),
        params: params_view(x.params@),
        return_type: type_view(x.return_type),
        where_clauses: where_clauses_view(x.where_clauses@),
        requires: exprs_view(x.requires@),
        ensures: exprs_view(x.ensures@),
        body: stmts_view(x.body@),
        is_pure: x.is_pure,
        span: x.span,
    }
}

impl View for Function {
    type V = FunctionView;

    open spec fn view(&self) -> FunctionView {
        function_view(*self)
    }
}

impl Function {
    /// A copy with the same content.
    pub fn dup(&self) -> (r: Self)
        ensures
            r@ == self@,
    {
        Function {
            name: self.name.clone(),
            type_params: crate::text::dup_strs(&self.type_params),
            params: dup_params(&self.params),
            return_type: self.return_type.dup(),
            where_clauses: dup_where_clauses(&self.where_clauses),
            requires: dup_exprs(&self.requires),
            ensures: dup_exprs(&self.ensures),
            body: dup_stmts(&self.body),
            is_pure: self.is_pure,
            span: self.span,
        }
    }
}

#[derive(Debug, PartialEq)]
pub struct UseDecl {
    pub path: String,
    pub span: Span,
}

/// The mathematical content of a [`UseDecl`].
pub struct UseDeclView {
    pub path: Seq<char>,
    pub span: Span,
}

pub open spec fn use_decl_view(x: UseDecl) -> UseDeclView
{
    UseDeclView {
        path: x.path@,
        span: x.span,
    }
}

impl View for UseDecl {
    type V = UseDeclView;

    open spec fn view(&self) -> UseDeclView {
        use_decl_view(*self)
    }
}

impl UseDecl {
    /// A copy with the same content.
    pub fn dup(&self) -> (r: Self)
        ensures
            r@ == self@,
    {
        UseDecl {
            path: self.path.clone(),
            span: self.span,
        }
    }
}

#[derive(Debug, PartialEq)]
pub struct IntentDecl {
    pub text: String,
    pub span: Span,
}

/// The mathematical content of a [`IntentDecl`].
pub struct IntentDeclView {
    pub text: Seq<char>,
    pub span: Span,
}

pub open spec fn intent_decl_view(x: IntentDecl) -> IntentDeclView
{
    IntentDeclView {
        text: x.text@,
        span: x.span,
    }
}

impl View for IntentDecl {
    type V = IntentDeclView;

    open spec fn view(&self) -> IntentDeclView {
        intent_decl_view(*self)
    }
}

impl IntentDecl {
    /// A copy with the same content.
    pub fn dup(&self) -> (r: Self)
        ensures
            r@ == self@,
    {
        IntentDecl {
            text: self.text.clone(),
            span: self.span,
        }
    }
}

#[derive(Debug, PartialEq)]
pub struct FieldDecl {
    pub name: String,
    pub ty: Type,
    pub span: Span,
}

/// The mathematical content of a [`FieldDecl`].
pub struct FieldDeclView {
    pub name: Seq<char>,
    pub ty: TypeView,
    pub span: Span,
}

pub open spec fn field_decl_view(x: FieldDecl) -> FieldDeclView
{
    FieldDeclView {
        name: x.name@,
        ty: type_view(x.ty),
        span: x.span,
    }
}

impl View for FieldDecl {
    type V = FieldDeclView;

    open spec fn view(&self) -> FieldDeclView {
        field_decl_view(*self)
    }
}

impl FieldDecl {
    /// A copy with the same content.
    pub fn dup(&self) -> (r: Self)
        ensures
            r@ == self@,
    {
        FieldDecl {
            name: self.name.clone(),
            ty: self.ty.dup(),
            span: self.span,
        }
    }
}

#[derive(Debug, PartialEq)]
pub struct StructDecl {
    pub name: String,
    pub name_span: Span,
    pub fields: Vec<FieldDecl>,
    pub span: Span,
}

/// The mathematical content of a [`StructDecl`].
pub struct StructDeclView {
    pub name: Seq<char>,
    pub name_span: Span,
    pub fields: Seq<FieldDeclView>,
    pub span: Span,
}

pub open spec fn struct_decl_view(x: StructDecl) -> StructDeclView
{
    StructDeclView {
        name: x.name@,
        name_span: x.name_span,
        fields: fields_view(x.fields@),
        span: x.span,
    }
}

impl View for StructDecl {
    type V = StructDeclView;

    open spec fn view(&self) -> StructDeclView {
        struct_decl_view(*self)
    }
}

impl StructDecl {
    /// A copy with the same content.
    pub fn dup(&self) -> (r: Self)
        ensures
            r@ == self@,
    {
        StructDecl {
            name: self.name.clone(),
            name_span: self.name_span,
            fields: dup_fields(&self.fields),
            span: self.span,
        }
    }
}

#[derive(Debug, PartialEq)]
pub struct VariantDecl {
    pub name: String,
    pub name_span: Span,
    pub payload: Vec<Type>,
}

/// The mathematical content of a [`VariantDecl`].
pub struct VariantDeclView {
    pub name: Seq<char>,
    pub name_span: Span,
    pub payload: Seq<TypeView>,
}

pub open spec fn variant_decl_view(x: VariantDecl) -> VariantDeclView
{
    VariantDeclView {
        name: x.name@,
        name_span: x.name_span,
        payload: types_view(x.payload@),
    }
}

impl View for VariantDecl {
    type V = VariantDeclView;

    open spec fn view(&self) -> VariantDeclView {
        variant_decl_view(*self)
    }
}

impl VariantDecl {
    /// A copy with the same content.
    pub fn dup(&self) -> (r: Self)
        ensures
            r@ == self@,
    {
        VariantDecl {
            name: self.name.clone(),
            name_span: self.name_span,
            payload: dup_types(&self.payload),
        }
    }
}

#[derive(Debug, PartialEq)]
pub struct EnumDecl {
    pub name: String,
    pub name_span: Span,
    pub variants: Vec<VariantDecl>,
    pub span: Span,
}

/// The mathematical content of a [`EnumDecl`].
pub struct EnumDeclView {
    pub name: Seq<char>,
    pub name_span: Span,
    pub variants: Seq<VariantDeclView>,
    pub span: Span,
}

pub open spec fn enum_decl_view(x: EnumDecl) -> EnumDeclView
{
    EnumDeclView {
        name: x.name@,
        name_span: x.name_span,
        variants: variants_view(x.variants@),
        span: x.span,
    }
}

impl View for EnumDecl {
    type V = EnumDeclView;

    open spec fn view(&self) -> EnumDeclView {
        enum_decl_view(*self)
    }
}

impl EnumDecl {
    /// A copy with the same content.
    pub fn dup(&self) -> (r: Self)
        ensures
            r@ == self@,
    {
        EnumDecl {
            name: self.name.clone(),
            name_span: self.name_span,
            variants: dup_variants(&self.variants),
            span: self.span,
        }
    }
}

#[derive(Debug, PartialEq)]
pub struct InterfaceMethod {
    pub name: String,
    pub name_span: Span,
    pub params: Vec<Param>,
    pub return_type: Type,
    pub span: Span,
}

/// The mathematical content of a [`InterfaceMethod`].
pub struct InterfaceMethodView {
    pub name: Seq<char>,
    pub name_span: Span,
    pub params: Seq<ParamView>,
    pub return_type: TypeView,
    pub span: Span,
}

pub open spec fn interface_method_view(x: InterfaceMethod) -> InterfaceMethodView
{
    InterfaceMethodView {
        name: x.name@,
        name_span: x.name_span,
        params: params_view(x.params@),
        return_type: type_view(x.return_type),
        span: x.span,
    }
}

impl View for InterfaceMethod {
    type V = InterfaceMethodView;

    open spec fn view(&self) -> InterfaceMethodView {
        interface_method_view(*self)
    }
}

impl InterfaceMethod {
    /// A copy with the same content.
    pub fn dup(&self) -> (r: Self)
        ensures
            r@ == self@,
    {
        InterfaceMethod {
            name: self.name.clone(),
            name_span: self.name_span,
            params: dup_params(&self.params),
            return_type: self.return_type.dup(),
            span: self.span,
        }
    }
}

#[derive(Debug, PartialEq)]
pub struct InterfaceDecl {
    pub name: String,
    pub name_span: Span,
    pub methods: Vec<InterfaceMethod>,
    pub span: Span,
}

/// The mathematical content of a [`InterfaceDecl`].
pub struct InterfaceDeclView {
    pub name: Seq<char>,
    pub name_span: Span,
    pub methods: Seq<InterfaceMethodView>,
    pub span: Span,
}

pub open spec fn interface_decl_view(x: InterfaceDecl) -> InterfaceDeclView
{
    InterfaceDeclView {
        name: x.name@,
        name_span: x.name_span,
        methods: interface_methods_view(x.methods@),
        span: x.span,
    }
}

impl View for InterfaceDecl {
    type V = InterfaceDeclView;

    open spec fn view(&self) -> InterfaceDeclView {
        interface_decl_view(*self)
    }
}

impl InterfaceDecl {
    /// A copy with the same content.
    pub fn dup(&self) -> (r: Self)
        ensures
            r@ == self@,
    {
        InterfaceDecl {
            name: self.name.clone(),
            name_span: self.name_span,
            methods: dup_interface_methods(&self.methods),
            span: self.span,
        }
    }
}

#[derive(Debug, PartialEq)]
pub struct ImplDecl {
    pub interface_name: String,
    pub for_type: Type,
    pub methods: Vec<Function>,
    pub span: Span,
}

/// The mathematical content of a [`ImplDecl`].
pub struct ImplDeclView {
    pub interface_name: Seq<char>,
    pub for_type: TypeView,
    pub methods: Seq<FunctionView>,
    pub span: Span,
}

pub open spec fn impl_decl_view(x: ImplDecl) -> ImplDeclView
{
    ImplDeclView {
        interface_name: x.interface_name@,
        for_type: type_view(x.for_type),
        methods: functions_view(x.methods@),
        span: x.span,
    }
}

impl View for ImplDecl {
    type V = ImplDeclView;

    open spec fn view(&self) -> ImplDeclView {
        impl_decl_view(*self)
    }
}

impl ImplDecl {
    /// A copy with the same content.
    pub fn dup(&self) -> (r: Self)
        ensures
            r@ == self@,
    {
        ImplDecl {
            interface_name: self.interface_name.clone(),
            for_type: self.for_type.dup(),
            methods: dup_functions(&self.methods),
            span: self.span,
        }
    }
}

#[derive(Debug, PartialEq)]
pub struct ConstDecl {
    pub name: String,
    pub name_span: Span,
    pub ty: Type,
    pub value: Expr,
    pub span: Span,
}

/// The mathematical content of a [`ConstDecl`].
pub struct ConstDeclView {
    pub name: Seq<char>,
    pub name_span: Span,
    pub ty: TypeView,
    pub value: ExprView,
    pub span: Span,
}

pub open spec fn const_decl_view(x: ConstDecl) -> ConstDeclView
{
    ConstDeclView {
        name: x.name@,
        name_span: x.name_span,
        ty: type_view(x.ty),
        value: expr_view(x.value),
        span: x.span,
    }
}

impl View for ConstDecl {
    type V = ConstDeclView;

    open spec fn view(&self) -> ConstDeclView {
        const_decl_view(*self)
    }
}

impl ConstDecl {
    /// A copy with the same content.
    pub fn dup(&self) -> (r: Self)
        ensures
            r@ == self@,
    {
        ConstDecl {
            name: self.name.clone(),
            name_span: self.name_span,
            ty: self.ty.dup(),
            value: self.value.dup(),
            span: self.span,
        }
    }
}

#[derive(Debug, PartialEq)]
pub struct TypeAlias {
    pub name: String,
    pub name_span: Span,
    pub target: Type,
    pub span: Span,
}

/// The mathematical content of a [`TypeAlias`].
pub struct TypeAliasView {
    pub name: Seq<char>,
    pub name_span: Span,
    pub target: TypeView,
    pub span: Span,
}

pub open spec fn type_alias_view(x: TypeAlias) -> TypeAliasView
{
    TypeAliasView {
        name: x.name@,
        name_span: x.name_span,
        target: type_view(x.target),
        span: x.span,
    }
}

impl View for TypeAlias {
    type V = TypeAliasView;

    open spec fn view(&self) -> TypeAliasView {
        type_alias_view(*self)
    }
}

impl TypeAlias {
    /// A copy with the same content.
    pub fn dup(&self) -> (r: Self)
        ensures
            r@ == self@,
    {
        TypeAlias {
            name: self.name.clone(),
            name_span: self.name_span,
            target: self.target.dup(),
            span: self.span,
        }
    }
}

#[derive(Debug, PartialEq)]
pub struct MethodsBlock {
    pub for_type: Type,
    pub for_type_span: Span,
    pub methods: Vec<Function>,
    pub span: Span,
}

/// The mathematical content of a [`MethodsBlock`].
pub struct MethodsBlockView {
    pub for_type: TypeView,
    pub for_type_span: Span,
    pub methods: Seq<FunctionView>,
    pub span: Span,
}

pub open spec fn methods_block_view(x: MethodsBlock) -> MethodsBlockView
{
    MethodsBlockView {
        for_type: type_view(x.for_type),
        for_type_span: x.for_type_span,
        methods: functions_view(x.methods@),
        span: x.span,
    }
}

impl View for MethodsBlock {
    type V = MethodsBlockView;

    open spec fn view(&self) -> MethodsBlockView {
        methods_block_view(*self)
    }
}

impl MethodsBlock {
    /// A copy with the same content.
    pub fn dup(&self) -> (r: Self)
        ensures
            r@ == self@,
    {
        MethodsBlock {
            for_type: self.for_type.dup(),
            for_type_span: self.for_type_span,
            methods: dup_functions(&self.methods),
            span: self.span,
        }
    }
}

/// A whole source file.
#[derive(Debug, PartialEq)]
pub struct Program {
    pub intents: Vec<IntentDecl>,
    pub functions: Vec<Function>,
    pub uses: Vec<UseDecl>,
    pub structs: Vec<StructDecl>,
    pub enums: Vec<EnumDecl>,
    pub interfaces: Vec<InterfaceDecl>,
    pub impls: Vec<ImplDecl>,
    pub consts: Vec<ConstDecl>,
    pub type_aliases: Vec<TypeAlias>,
    pub methods_blocks: Vec<MethodsBlock>,
}

/// The mathematical content of a [`Program`].
pub struct ProgramView {
    pub intents: Seq<IntentDeclView>,
    pub functions: Seq<FunctionView>,
    pub uses: Seq<UseDeclView>,
    pub structs: Seq<StructDeclView>,
    pub enums: Seq<EnumDeclView>,
    pub interfaces: Seq<InterfaceDeclView>,
    pub impls: Seq<ImplDeclView>,
    pub consts: Seq<ConstDeclView>,
    pub type_aliases: Seq<TypeAliasView>,
    pub methods_blocks: Seq<MethodsBlockView>,
}

pub open spec fn program_view(x: Program) -> ProgramView
{
    ProgramView {
        intents: intents_view(x.intents@),
        functions: functions_view(x.functions@),
        uses: uses_view(x.uses@),
        structs: structs_view(x.structs@),
        enums: enums_view(x.enums@),
        interfaces: interfaces_view(x.interfaces@),
        impls: impls_view(x.impls@),
        consts: consts_view(x.consts@),
        type_aliases: type_aliases_view(x.type_aliases@),
        methods_blocks: methods_blocks_view(x.methods_blocks@),
    }
}

impl View for Program {
    type V = ProgramView;

    open spec fn view(&self) -> ProgramView {
        program_view(*self)
    }
}

impl Program {
    /// A copy with the same content.
    pub fn dup(&self) -> (r: Self)
        ensures
            r@ == self@,
    {
        Program {
            intents: dup_intents(&self.intents),
            functions: dup_functions(&self.functions),
            uses: dup_uses(&self.uses),
            structs: dup_structs(&self.structs),
            enums: dup_enums(&self.enums),
            interfaces: dup_interfaces(&self.interfaces),
            impls: dup_impls(&self.impls),
            consts: dup_consts(&self.consts),
            type_aliases: dup_type_aliases(&self.type_aliases),
            methods_blocks: dup_methods_blocks(&self.methods_blocks),
        }
    }
}

pub open spec fn reductions_view(s: Seq<Reduction>) -> Seq<ReductionView>
{
    Seq::new(s.len(), |i: int| reduction_view(s[i]))
}

pub broadcast proof fn reductions_view_push(s: Seq<Reduction>, x: Reduction)
    ensures
        #[trigger] reductions_view(s.push(x)) == reductions_view(s).push(reduction_view(x)),
{
    assert(reductions_view(s.push(x)) =~= reductions_view(s).push(reduction_view(x)));
}

pub broadcast proof fn reductions_view_empty(s: Seq<Reduction>)
    requires
        s.len() == 0,
    ensures
        #[trigger] reductions_view(s) == Seq::<ReductionView>::empty(),
{
    assert(reductions_view(s) =~= Seq::<ReductionView>::empty());
}

pub broadcast proof fn reductions_view_add(a: Seq<Reduction>, b: Seq<Reduction>)
    ensures
        #[trigger] reductions_view(a + b) == reductions_view(a) + reductions_view(b),
{
    assert(reductions_view(a + b) =~= reductions_view(a) + reductions_view(b));
}

pub broadcast proof fn reductions_view_subrange(s: Seq<Reduction>, a: int, b: int)
    requires
        0 <= a <= b <= s.len(),
    ensures
        #[trigger] reductions_view(s.subrange(a, b)) == reductions_view(s).subrange(a, b),
{
    assert(reductions_view(s.subrange(a, b)) =~= reductions_view(s).subrange(a, b));
}

pub broadcast proof fn reductions_view_update(s: Seq<Reduction>, i: int, x: Reduction)
    requires
        0 <= i < s.len(),
    ensures
        #[trigger] reductions_view(s.update(i, x)) == reductions_view(s).update(i, reduction_view(x)),
{
    assert(reductions_view(s.update(i, x)) =~= reductions_view(s).update(i, reduction_view(x)));
}

pub fn dup_reductions(v: &Vec<Reduction>) -> (r: Vec<Reduction>)
    ensures
        reductions_view(r@) == reductions_view(v@),
{
    let mut r: Vec<Reduction> = Vec::new();
    let mut i: usize = 0;
    while i < v.len()
        invariant
            i <= v.len(),
            r.len() == i,
            forall|j: int| 0 <= j < i ==> #[trigger] reductions_view(r@)[j] == reductions_view(v@)[j],
        decreases v.len() - i,
    {
        let ghost before = r@;
        let x = &v[i];
        r.push(x.dup());
        proof {
            reductions_view_push(before, r@.last());
        }
        i += 1;
    }
    assert(reductions_view(r@) =~= reductions_view(v@));
    r
}

pub open spec fn params_view(s: Seq<Param>) -> Seq<ParamView>
{
    Seq::new(s.len(), |i: int| param_view(s[i]))
}

pub broadcast proof fn params_view_push(s: Seq<Param>, x: Param)
    ensures
        #[trigger] params_view(s.push(x)) == params_view(s).push(param_view(x)),
{
    assert(params_view(s.push(x)) =~= params_view(s).push(param_view(x)));
}

pub broadcast proof fn params_view_empty(s: Seq<Param>)
    requires
        s.len() == 0,
    ensures
        #[trigger] params_view(s) == Seq::<ParamView>::empty(),
{
    assert(params_view(s) =~= Seq::<ParamView>::empty());
}

pub broadcast proof fn params_view_add(a: Seq<Param>, b: Seq<Param>)
    ensures
        #[trigger] params_view(a + b) == params_view(a) + params_view(b),
{
    assert(params_view(a + b) =~= params_view(a) + params_view(b));
}

pub broadcast proof fn params_view_subrange(s: Seq<Param>, a: int, b: int)
    requires
        0 <= a <= b <= s.len(),
    ensures
        #[trigger] params_view(s.subrange(a, b)) == params_view(s).subrange(a, b),
{
    assert(params_view(s.subrange(a, b)) =~= params_view(s).subrange(a, b));
}

pub broadcast proof fn params_view_update(s: Seq<Param>, i: int, x: Param)
    requires
        0 <= i < s.len(),
    ensures
        #[trigger] params_view(s.update(i, x)) == params_view(s).update(i, param_view(x)),
{
    assert(params_view(s.update(i, x)) =~= params_view(s).update(i, param_view(x)));
}

pub fn dup_params(v: &Vec<Param>) -> (r: Vec<Param>)
    ensures
        params_view(r@) == params_view(v@),
{
    let mut r: Vec<Param> = Vec::new();
    let mut i: usize = 0;
    while i < v.len()
        invariant
            i <= v.len(),
            r.len() == i,
            forall|j: int| 0 <= j < i ==> #[trigger] params_view(r@)[j] == params_view(v@)[j],
        decreases v.len() - i,
    {
        let ghost before = r@;
        let x = &v[i];
        r.push(x.dup());
        proof {
            params_view_push(before, r@.last());
        }
        i += 1;
    }
    assert(params_view(r@) =~= params_view(v@));
    r
}

pub open spec fn where_clauses_view(s: Seq<WhereClause>) -> Seq<WhereClauseView>
{
    Seq::new(s.len(), |i: int| where_clause_view(s[i]))
}

pub broadcast proof fn where_clauses_view_push(s: Seq<WhereClause>, x: WhereClause)
    ensures
        #[trigger] where_clauses_view(s.push(x)) == where_clauses_view(s).push(where_clause_view(x)),
{
    assert(where_clauses_view(s.push(x)) =~= where_clauses_view(s).push(where_clause_view(x)));
}

pub broadcast proof fn where_clauses_view_empty(s: Seq<WhereClause>)
    requires
        s.len() == 0,
    ensures
        #[trigger] where_clauses_view(s) == Seq::<WhereClauseView>::empty(),
{
    assert(where_clauses_view(s) =~= Seq::<WhereClauseView>::empty());
}

pub broadcast proof fn where_clauses_view_add(a: Seq<WhereClause>, b: Seq<WhereClause>)
    ensures
        #[trigger] where_clauses_view(a + b) == where_clauses_view(a) + where_clauses_view(b),
{
    assert(where_clauses_view(a + b) =~= where_clauses_view(a) + where_clauses_view(b));
}

pub broadcast proof fn where_clauses_view_subrange(s: Seq<WhereClause>, a: int, b: int)
    requires
        0 <= a <= b <= s.len(),
    ensures
        #[trigger] where_clauses_view(s.subrange(a, b)) == where_clauses_view(s).subrange(a, b),
{
    assert(where_clauses_view(s.subrange(a, b)) =~= where_clauses_view(s).subrange(a, b));
}

pub broadcast proof fn where_clauses_view_update(s: Seq<WhereClause>, i: int, x: WhereClause)
    requires
        0 <= i < s.len(),
    ensures
        #[trigger] where_clauses_view(s.update(i, x)) == where_clauses_view(s).update(i, where_clause_view(x)),
{
    assert(
        where_clauses_view(s.update(i, x)) =~= where_clauses_view(s).update(i, where_clause_view(x))
    );
}

pub fn dup_where_clauses(v: &Vec<WhereClause>) -> (r: Vec<WhereClause>)
    ensures
        where_clauses_view(r@) == where_clauses_view(v@),
{
    let mut r: Vec<WhereClause> = Vec::new();
    let mut i: usize = 0;
    while i < v.len()
        invariant
            i <= v.len(),
            r.len() == i,
            forall|j: int| 0 <= j < i ==> #[trigger] where_clauses_view(r@)[j] == where_clauses_view(v@)[j],
        decreases v.len() - i,
    {
        let ghost before = r@;
        let x = &v[i];
        r.push(x.dup());
        proof {
            where_clauses_view_push(before, r@.last());
        }
        i += 1;
    }
    assert(where_clauses_view(r@) =~= where_clauses_view(v@));
    r
}

pub open spec fn functions_view(s: Seq<Function>) -> Seq<FunctionView>
{
    Seq::new(s.len(), |i: int| function_view(s[i]))
}

pub broadcast proof fn functions_view_push(s: Seq<Function>, x: Function)
    ensures
        #[trigger] functions_view(s.push(x)) == functions_view(s).push(function_view(x)),
{
    assert(functions_view(s.push(x)) =~= functions_view(s).push(function_view(x)));
}

pub broadcast proof fn functions_view_empty(s: Seq<Function>)
    requires
        s.len() == 0,
    ensures
        #[trigger] functions_view(s) == Seq::<FunctionView>::empty(),
{
    assert(functions_view(s) =~= Seq::<FunctionView>::empty());
}

pub broadcast proof fn functions_view_add(a: Seq<Function>, b: Seq<Function>)
    ensures
        #[trigger] functions_view(a + b) == functions_view(a) + functions_view(b),
{
    assert(functions_view(a + b) =~= functions_view(a) + functions_view(b));
}

pub broadcast proof fn functions_view_subrange(s: Seq<Function>, a: int, b: int)
    requires
        0 <= a <= b <= s.len(),
    ensures
        #[trigger] functions_view(s.subrange(a, b)) == functions_view(s).subrange(a, b),
{
    assert(functions_view(s.subrange(a, b)) =~= functions_view(s).subrange(a, b));
}

pub broadcast proof fn functions_view_update(s: Seq<Function>, i: int, x: Function)
    requires
        0 <= i < s.len(),
    ensures
        #[trigger] functions_view(s.update(i, x)) == functions_view(s).update(i, function_view(x)),
{
    assert(functions_view(s.update(i, x)) =~= functions_view(s).update(i, function_view(x)));
}

pub fn dup_functions(v: &Vec<Function>) -> (r: Vec<Function>)
    ensures
        functions_view(r@) == functions_view(v@),
{
    let mut r: Vec<Function> = Vec::new();
    let mut i: usize = 0;
    while i < v.len()
        invariant
            i <= v.len(),
            r.len() == i,
            forall|j: int| 0 <= j < i ==> #[trigger] functions_view(r@)[j] == functions_view(v@)[j],
        decreases v.len() - i,
    {
        let ghost before = r@;
        let x = &v[i];
        r.push(x.dup());
        proof {
            functions_view_push(before, r@.last());
        }
        i += 1;
    }
    assert(functions_view(r@) =~= functions_view(v@));
    r
}

pub open spec fn uses_view(s: Seq<UseDecl>) -> Seq<UseDeclView>
{
    Seq::new(s.len(), |i: int| use_decl_view(s[i]))
}

pub broadcast proof fn uses_view_push(s: Seq<UseDecl>, x: UseDecl)
    ensures
        #[trigger] uses_view(s.push(x)) == uses_view(s).push(use_decl_view(x)),
{
    assert(uses_view(s.push(x)) =~= uses_view(s).push(use_decl_view(x)));
}

pub broadcast proof fn uses_view_empty(s: Seq<UseDecl>)
    requires
        s.len() == 0,
    ensures
        #[trigger] uses_view(s) == Seq::<UseDeclView>::empty(),
{
    assert(uses_view(s) =~= Seq::<UseDeclView>::empty());
}

pub broadcast proof fn uses_view_add(a: Seq<UseDecl>, b: Seq<UseDecl>)
    ensures
        #[trigger] uses_view(a + b) == uses_view(a) + uses_view(b),
{
    assert(uses_view(a + b) =~= uses_view(a) + uses_view(b));
}

pub broadcast proof fn uses_view_subrange(s: Seq<UseDecl>, a: int, b: int)
    requires
        0 <= a <= b <= s.len(),
    ensures
        #[trigger] uses_view(s.subrange(a, b)) == uses_view(s).subrange(a, b),
{
    assert(uses_view(s.subrange(a, b)) =~= uses_view(s).subrange(a, b));
}

pub broadcast proof fn uses_view_update(s: Seq<UseDecl>, i: int, x: UseDecl)
    requires
        0 <= i < s.len(),
    ensures
        #[trigger] uses_view(s.update(i, x)) == uses_view(s).update(i, use_decl_view(x)),
{
    assert(uses_view(s.update(i, x)) =~= uses_view(s).update(i, use_decl_view(x)));
}

pub fn dup_uses(v: &Vec<UseDecl>) -> (r: Vec<UseDecl>)
    ensures
        uses_view(r@) == uses_view(v@),
{
    let mut r: Vec<UseDecl> = Vec::new();
    let mut i: usize = 0;
    while i < v.len()
        invariant
            i <= v.len(),
            r.len() == i,
            forall|j: int| 0 <= j < i ==> #[trigger] uses_view(r@)[j] == uses_view(v@)[j],
        decreases v.len() - i,
    {
        let ghost before = r@;
        let x = &v[i];
        r.push(x.dup());
        proof {
            uses_view_push(before, r@.last());
        }
        i += 1;
    }
    assert(uses_view(r@) =~= uses_view(v@));
    r
}

pub open spec fn intents_view(s: Seq<IntentDecl>) -> Seq<IntentDeclView>
{
    Seq::new(s.len(), |i: int| intent_decl_view(s[i]))
}

pub broadcast proof fn intents_view_push(s: Seq<IntentDecl>, x: IntentDecl)
    ensures
        #[trigger] intents_view(s.push(x)) == intents_view(s).push(intent_decl_view(x)),
{
    assert(intents_view(s.push(x)) =~= intents_view(s).push(intent_decl_view(x)));
}

pub broadcast proof fn intents_view_empty(s: Seq<IntentDecl>)
    requires
        s.len() == 0,
    ensures
        #[trigger] intents_view(s) == Seq::<IntentDeclView>::empty(),
{
    assert(intents_view(s) =~= Seq::<IntentDeclView>::empty());
}

pub broadcast proof fn intents_view_add(a: Seq<IntentDecl>, b: Seq<IntentDecl>)
    ensures
        #[trigger] intents_view(a + b) == intents_view(a) + intents_view(b),
{
    assert(intents_view(a + b) =~= intents_view(a) + intents_view(b));
}

pub broadcast proof fn intents_view_subrange(s: Seq<IntentDecl>, a: int, b: int)
    requires
        0 <= a <= b <= s.len(),
    ensures
        #[trigger] intents_view(s.subrange(a, b)) == intents_view(s).subrange(a, b),
{
    assert(intents_view(s.subrange(a, b)) =~= intents_view(s).subrange(a, b));
}

pub broadcast proof fn intents_view_update(s: Seq<IntentDecl>, i: int, x: IntentDecl)
    requires
        0 <= i < s.len(),
    ensures
        #[trigger] intents_view(s.update(i, x)) == intents_view(s).update(i, intent_decl_view(x)),
{
    assert(intents_view(s.update(i, x)) =~= intents_view(s).update(i, intent_decl_view(x)));
}

pub fn dup_intents(v: &Vec<IntentDecl>) -> (r: Vec<IntentDecl>)
    ensures
        intents_view(r@) == intents_view(v@),
{
    let mut r: Vec<IntentDecl> = Vec::new();
    let mut i: usize = 0;
    while i < v.len()
        invariant
            i <= v.len(),
            r.len() == i,
            forall|j: int| 0 <= j < i ==> #[trigger] intents_view(r@)[j] == intents_view(v@)[j],
        decreases v.len() - i,
    {
        let ghost before = r@;
        let x = &v[i];
        r.push(x.dup());
        proof {
            intents_view_push(before, r@.last());
        }
        i += 1;
    }
    assert(intents_view(r@) =~= intents_view(v@));
    r
}

pub open spec fn fields_view(s: Seq<FieldDecl>) -> Seq<FieldDeclView>
{
    Seq::new(s.len(), |i: int| field_decl_view(s[i]))
}

pub broadcast proof fn fields_view_push(s: Seq<FieldDecl>, x: FieldDecl)
    ensures
        #[trigger] fields_view(s.push(x)) == fields_view(s).push(field_decl_view(x)),
{
    assert(fields_view(s.push(x)) =~= fields_view(s).push(field_decl_view(x)));
}

pub broadcast proof fn fields_view_empty(s: Seq<FieldDecl>)
    requires
        s.len() == 0,
    ensures
        #[trigger] fields_view(s) == Seq::<FieldDeclView>::empty(),
{
    assert(fields_view(s) =~= Seq::<FieldDeclView>::empty());
}

pub broadcast proof fn fields_view_add(a: Seq<FieldDecl>, b: Seq<FieldDecl>)
    ensures
        #[trigger] fields_view(a + b) == fields_view(a) + fields_view(b),
{
    assert(fields_view(a + b) =~= fields_view(a) + fields_view(b));
}

pub broadcast proof fn fields_view_subrange(s: Seq<FieldDecl>, a: int, b: int)
    requires
        0 <= a <= b <= s.len(),
    ensures
        #[trigger] fields_view(s.subrange(a, b)) == fields_view(s).subrange(a, b),
{
    assert(fields_view(s.subrange(a, b)) =~= fields_view(s).subrange(a, b));
}

pub broadcast proof fn fields_view_update(s: Seq<FieldDecl>, i: int, x: FieldDecl)
    requires
        0 <= i < s.len(),
    ensures
        #[trigger] fields_view(s.update(i, x)) == fields_view(s).update(i, field_decl_view(x)),
{
    assert(fields_view(s.update(i, x)) =~= fields_view(s).update(i, field_decl_view(x)));
}

pub fn dup_fields(v: &Vec<FieldDecl>) -> (r: Vec<FieldDecl>)
    ensures
        fields_view(r@) == fields_view(v@),
{
    let mut r: Vec<FieldDecl> = Vec::new();
    let mut i: usize = 0;
    while i < v.len()
        invariant
            i <= v.len(),
            r.len() == i,
            forall|j: int| 0 <= j < i ==> #[trigger] fields_view(r@)[j] == fields_view(v@)[j],
        decreases v.len() - i,
    {
        let ghost before = r@;
        let x = &v[i];
        r.push(x.dup());
        proof {
            fields_view_push(before, r@.last());
        }
        i += 1;
    }
    assert(fields_view(r@) =~= fields_view(v@));
    r
}

pub open spec fn structs_view(s: Seq<StructDecl>) -> Seq<StructDeclView>
{
    Seq::new(s.len(), |i: int| struct_decl_view(s[i]))
}

pub broadcast proof fn structs_view_push(s: Seq<StructDecl>, x: StructDecl)
    ensures
        #[trigger] structs_view(s.push(x)) == structs_view(s).push(struct_decl_view(x)),
{
    assert(structs_view(s.push(x)) =~= structs_view(s).push(struct_decl_view(x)));
}

pub broadcast proof fn structs_view_empty(s: Seq<StructDecl>)
    requires
        s.len() == 0,
    ensures
        #[trigger] structs_view(s) == Seq::<StructDeclView>::empty(),
{
    assert(structs_view(s) =~= Seq::<StructDeclView>::empty());
}

pub broadcast proof fn structs_view_add(a: Seq<StructDecl>, b: Seq<StructDecl>)
    ensures
        #[trigger] structs_view(a + b) == structs_view(a) + structs_view(b),
{
    assert(structs_view(a + b) =~= structs_view(a) + structs_view(b));
}

pub broadcast proof fn structs_view_subrange(s: Seq<StructDecl>, a: int, b: int)
    requires
        0 <= a <= b <= s.len(),
    ensures
        #[trigger] structs_view(s.subrange(a, b)) == structs_view(s).subrange(a, b),
{
    assert(structs_view(s.subrange(a, b)) =~= structs_view(s).subrange(a, b));
}

pub broadcast proof fn structs_view_update(s: Seq<StructDecl>, i: int, x: StructDecl)
    requires
        0 <= i < s.len(),
    ensures
        #[trigger] structs_view(s.update(i, x)) == structs_view(s).update(i, struct_decl_view(x)),
{
    assert(structs_view(s.update(i, x)) =~= structs_view(s).update(i, struct_decl_view(x)));
}

pub fn dup_structs(v: &Vec<StructDecl>) -> (r: Vec<StructDecl>)
    ensures
        structs_view(r@) == structs_view(v@),
{
    let mut r: Vec<StructDecl> = Vec::new();
    let mut i: usize = 0;
    while i < v.len()
        invariant
            i <= v.len(),
            r.len() == i,
            forall|j: int| 0 <= j < i ==> #[trigger] structs_view(r@)[j] == structs_view(v@)[j],
        decreases v.len() - i,
    {
        let ghost before = r@;
        let x = &v[i];
        r.push(x.dup());
        proof {
            structs_view_push(before, r@.last());
        }
        i += 1;
    }
    assert(structs_view(r@) =~= structs_view(v@));
    r
}

pub open spec fn variants_view(s: Seq<VariantDecl>) -> Seq<VariantDeclView>
{
    Seq::new(s.len(), |i: int| variant_decl_view(s[i]))
}

pub broadcast proof fn variants_view_push(s: Seq<VariantDecl>, x: VariantDecl)
    ensures
        #[trigger] variants_view(s.push(x)) == variants_view(s).push(variant_decl_view(x)),
{
    assert(variants_view(s.push(x)) =~= variants_view(s).push(variant_decl_view(x)));
}

pub broadcast proof fn variants_view_empty(s: Seq<VariantDecl>)
    requires
        s.len() == 0,
    ensures
        #[trigger] variants_view(s) == Seq::<VariantDeclView>::empty(),
{
    assert(variants_view(s) =~= Seq::<VariantDeclView>::empty());
}

pub broadcast proof fn variants_view_add(a: Seq<VariantDecl>, b: Seq<VariantDecl>)
    ensures
        #[trigger] variants_view(a + b) == variants_view(a) + variants_view(b),
{
    assert(variants_view(a + b) =~= variants_view(a) + variants_view(b));
}

pub broadcast proof fn variants_view_subrange(s: Seq<VariantDecl>, a: int, b: int)
    requires
        0 <= a <= b <= s.len(),
    ensures
        #[trigger] variants_view(s.subrange(a, b)) == variants_view(s).subrange(a, b),
{
    assert(variants_view(s.subrange(a, b)) =~= variants_view(s).subrange(a, b));
}

pub broadcast proof fn variants_view_update(s: Seq<VariantDecl>, i: int, x: VariantDecl)
    requires
        0 <= i < s.len(),
    ensures
        #[trigger] variants_view(s.update(i, x)) == variants_view(s).update(i, variant_decl_view(x)),
{
    assert(variants_view(s.update(i, x)) =~= variants_view(s).update(i, variant_decl_view(x)));
}

pub fn dup_variants(v: &Vec<VariantDecl>) -> (r: Vec<VariantDecl>)
    ensures
        variants_view(r@) == variants_view(v@),
{
    let mut r: Vec<VariantDecl> = Vec::new();
    let mut i: usize = 0;
    while i < v.len()
        invariant
            i <= v.len(),
            r.len() == i,
            forall|j: int| 0 <= j < i ==> #[trigger] variants_view(r@)[j] == variants_view(v@)[j],
        decreases v.len() - i,
    {
        let ghost before = r@;
        let x = &v[i];
        r.push(x.dup());
        proof {
            variants_view_push(before, r@.last());
        }
        i += 1;
    }
    assert(variants_view(r@) =~= variants_view(v@));
    r
}

pub open spec fn enums_view(s: Seq<EnumDecl>) -> Seq<EnumDeclView>
{
    Seq::new(s.len(), |i: int| enum_decl_view(s[i]))
}

pub broadcast proof fn enums_view_push(s: Seq<EnumDecl>, x: EnumDecl)
    ensures
        #[trigger] enums_view(s.push(x)) == enums_view(s).push(enum_decl_view(x)),
{
    assert(enums_view(s.push(x)) =~= enums_view(s).push(enum_decl_view(x)));
}

pub broadcast proof fn enums_view_empty(s: Seq<EnumDecl>)
    requires
        s.len() == 0,
    ensures
        #[trigger] enums_view(s) == Seq::<EnumDeclView>::empty(),
{
    assert(enums_view(s) =~= Seq::<EnumDeclView>::empty());
}

pub broadcast proof fn enums_view_add(a: Seq<EnumDecl>, b: Seq<EnumDecl>)
    ensures
        #[trigger] enums_view(a + b) == enums_view(a) + enums_view(b),
{
    assert(enums_view(a + b) =~= enums_view(a) + enums_view(b));
}

pub broadcast proof fn enums_view_subrange(s: Seq<EnumDecl>, a: int, b: int)
    requires
        0 <= a <= b <= s.len(),
    ensures
        #[trigger] enums_view(s.subrange(a, b)) == enums_view(s).subrange(a, b),
{
    assert(enums_view(s.subrange(a, b)) =~= enums_view(s).subrange(a, b));
}

pub broadcast proof fn enums_view_update(s: Seq<EnumDecl>, i: int, x: EnumDecl)
    requires
        0 <= i < s.len(),
    ensures
        #[trigger] enums_view(s.update(i, x)) == enums_view(s).update(i, enum_decl_view(x)),
{
    assert(enums_view(s.update(i, x)) =~= enums_view(s).update(i, enum_decl_view(x)));
}

pub fn dup_enums(v: &Vec<EnumDecl>) -> (r: Vec<EnumDecl>)
    ensures
        enums_view(r@) == enums_view(v@),
{
    let mut r: Vec<EnumDecl> = Vec::new();
    let mut i: usize = 0;
    while i < v.len()
        invariant
            i <= v.len(),
            r.len() == i,
            forall|j: int| 0 <= j < i ==> #[trigger] enums_view(r@)[j] == enums_view(v@)[j],
        decreases v.len() - i,
    {
        let ghost before = r@;
        let x = &v[i];
        r.push(x.dup());
        proof {
            enums_view_push(before, r@.last());
        }
        i += 1;
    }
    assert(enums_view(r@) =~= enums_view(v@));
    r
}

pub open spec fn interface_methods_view(s: Seq<InterfaceMethod>) -> Seq<InterfaceMethodView>
{
    Seq::new(s.len(), |i: int| interface_method_view(s[i]))
}

pub broadcast proof fn interface_methods_view_push(s: Seq<InterfaceMethod>, x: InterfaceMethod)
    ensures
        #[trigger] interface_methods_view(s.push(x)) == interface_methods_view(s).push(interface_method_view(x)),
{
    assert(
        interface_methods_view(s.push(x)) =~= interface_methods_view(s).push(interface_method_view(x))
    );
}

pub broadcast proof fn interface_methods_view_empty(s: Seq<InterfaceMethod>)
    requires
        s.len() == 0,
    ensures
        #[trigger] interface_methods_view(s) == Seq::<InterfaceMethodView>::empty(),
{
    assert(interface_methods_view(s) =~= Seq::<InterfaceMethodView>::empty());
}

pub broadcast proof fn interface_methods_view_add(a: Seq<InterfaceMethod>, b: Seq<InterfaceMethod>)
    ensures
        #[trigger] interface_methods_view(a + b) == interface_methods_view(a) + interface_methods_view(b),
{
    assert(interface_methods_view(a + b) =~= interface_methods_view(a) + interface_methods_view(b));
}

pub broadcast proof fn interface_methods_view_subrange(s: Seq<InterfaceMethod>, a: int, b: int)
    requires
        0 <= a <= b <= s.len(),
    ensures
        #[trigger] interface_methods_view(s.subrange(a, b)) == interface_methods_view(s).subrange(a, b),
{
    assert(interface_methods_view(s.subrange(a, b)) =~= interface_methods_view(s).subrange(a, b));
}

pub broadcast proof fn interface_methods_view_update(
    s: Seq<InterfaceMethod>,
    i: int,
    x: InterfaceMethod,
)
    requires
        0 <= i < s.len(),
    ensures
        #[trigger] interface_methods_view(s.update(i, x)) == interface_methods_view(s).update(i, interface_method_view(x)),
{
    assert(
        interface_methods_view(s.update(i, x)) =~= interface_methods_view(s).update(
            i,
            interface_method_view(x),
        )
    );
}

pub fn dup_interface_methods(v: &Vec<InterfaceMethod>) -> (r: Vec<InterfaceMethod>)
    ensures
        interface_methods_view(r@) == interface_methods_view(v@),
{
    let mut r: Vec<InterfaceMethod> = Vec::new();
    let mut i: usize = 0;
    while i < v.len()
        invariant
            i <= v.len(),
            r.len() == i,
            forall|j: int| 0 <= j < i ==> #[trigger] interface_methods_view(r@)[j] == interface_methods_view(v@)[j],
        decreases v.len() - i,
    {
        let ghost before = r@;
        let x = &v[i];
        r.push(x.dup());
        proof {
            interface_methods_view_push(before, r@.last());
        }
        i += 1;
    }
    assert(interface_methods_view(r@) =~= interface_methods_view(v@));
    r
}

pub open spec fn interfaces_view(s: Seq<InterfaceDecl>) -> Seq<InterfaceDeclView>
{
    Seq::new(s.len(), |i: int| interface_decl_view(s[i]))
}

pub broadcast proof fn interfaces_view_push(s: Seq<InterfaceDecl>, x: InterfaceDecl)
    ensures
        #[trigger] interfaces_view(s.push(x)) == interfaces_view(s).push(interface_decl_view(x)),
{
    assert(interfaces_view(s.push(x)) =~= interfaces_view(s).push(interface_decl_view(x)));
}

pub broadcast proof fn interfaces_view_empty(s: Seq<InterfaceDecl>)
    requires
        s.len() == 0,
    ensures
        #[trigger] interfaces_view(s) == Seq::<InterfaceDeclView>::empty(),
{
    assert(interfaces_view(s) =~= Seq::<InterfaceDeclView>::empty());
}

pub broadcast proof fn interfaces_view_add(a: Seq<InterfaceDecl>, b: Seq<InterfaceDecl>)
    ensures
        #[trigger] interfaces_view(a + b) == interfaces_view(a) + interfaces_view(b),
{
    assert(interfaces_view(a + b) =~= interfaces_view(a) + interfaces_view(b));
}

pub broadcast proof fn interfaces_view_subrange(s: Seq<InterfaceDecl>, a: int, b: int)
    requires
        0 <= a <= b <= s.len(),
    ensures
        #[trigger] interfaces_view(s.subrange(a, b)) == interfaces_view(s).subrange(a, b),
{
    assert(interfaces_view(s.subrange(a, b)) =~= interfaces_view(s).subrange(a, b));
}

pub broadcast proof fn interfaces_view_update(s: Seq<InterfaceDecl>, i: int, x: InterfaceDecl)
    requires
        0 <= i < s.len(),
    ensures
        #[trigger] interfaces_view(s.update(i, x)) == interfaces_view(s).update(i, interface_decl_view(x)),
{
    assert(
        interfaces_view(s.update(i, x)) =~= interfaces_view(s).update(i, interface_decl_view(x))
    );
}

pub fn dup_interfaces(v: &Vec<InterfaceDecl>) -> (r: Vec<InterfaceDecl>)
    ensures
        interfaces_view(r@) == interfaces_view(v@),
{
    let mut r: Vec<InterfaceDecl> = Vec::new();
    let mut i: usize = 0;
    while i < v.len()
        invariant
            i <= v.len(),
            r.len() == i,
            forall|j: int| 0 <= j < i ==> #[trigger] interfaces_view(r@)[j] == interfaces_view(v@)[j],
        decreases v.len() - i,
    {
        let ghost before = r@;
        let x = &v[i];
        r.push(x.dup());
        proof {
            interfaces_view_push(before, r@.last());
        }
        i += 1;
    }
    assert(interfaces_view(r@) =~= interfaces_view(v@));
    r
}

pub open spec fn impls_view(s: Seq<ImplDecl>) -> Seq<ImplDeclView>
{
    Seq::new(s.len(), |i: int| impl_decl_view(s[i]))
}

pub broadcast proof fn impls_view_push(s: Seq<ImplDecl>, x: ImplDecl)
    ensures
        #[trigger] impls_view(s.push(x)) == impls_view(s).push(impl_decl_view(x)),
{
    assert(impls_view(s.push(x)) =~= impls_view(s).push(impl_decl_view(x)));
}

pub broadcast proof fn impls_view_empty(s: Seq<ImplDecl>)
    requires
        s.len() == 0,
    ensures
        #[trigger] impls_view(s) == Seq::<ImplDeclView>::empty(),
{
    assert(impls_view(s) =~= Seq::<ImplDeclView>::empty());
}

pub broadcast proof fn impls_view_add(a: Seq<ImplDecl>, b: Seq<ImplDecl>)
    ensures
        #[trigger] impls_view(a + b) == impls_view(a) + impls_view(b),
{
    assert(impls_view(a + b) =~= impls_view(a) + impls_view(b));
}

pub broadcast proof fn impls_view_subrange(s: Seq<ImplDecl>, a: int, b: int)
    requires
        0 <= a <= b <= s.len(),
    ensures
        #[trigger] impls_view(s.subrange(a, b)) == impls_view(s).subrange(a, b),
{
    assert(impls_view(s.subrange(a, b)) =~= impls_view(s).subrange(a, b));
}

pub broadcast proof fn impls_view_update(s: Seq<ImplDecl>, i: int, x: ImplDecl)
    requires
        0 <= i < s.len(),
    ensures
        #[trigger] impls_view(s.update(i, x)) == impls_view(s).update(i, impl_decl_view(x)),
{
    assert(impls_view(s.update(i, x)) =~= impls_view(s).update(i, impl_decl_view(x)));
}

pub fn dup_impls(v: &Vec<ImplDecl>) -> (r: Vec<ImplDecl>)
    ensures
        impls_view(r@) == impls_view(v@),
{
    let mut r: Vec<ImplDecl> = Vec::new();
    let mut i: usize = 0;
    while i < v.len()
        invariant
            i <= v.len(),
            r.len() == i,
            forall|j: int| 0 <= j < i ==> #[trigger] impls_view(r@)[j] == impls_view(v@)[j],
        decreases v.len() - i,
    {
        let ghost before = r@;
        let x = &v[i];
        r.push(x.dup());
        proof {
            impls_view_push(before, r@.last());
        }
        i += 1;
    }
    assert(impls_view(r@) =~= impls_view(v@));
    r
}

pub open spec fn consts_view(s: Seq<ConstDecl>) -> Seq<ConstDeclView>
{
    Seq::new(s.len(), |i: int| const_decl_view(s[i]))
}

pub broadcast proof fn consts_view_push(s: Seq<ConstDecl>, x: ConstDecl)
    ensures
        #[trigger] consts_view(s.push(x)) == consts_view(s).push(const_decl_view(x)),
{
    assert(consts_view(s.push(x)) =~= consts_view(s).push(const_decl_view(x)));
}

pub broadcast proof fn consts_view_empty(s: Seq<ConstDecl>)
    requires
        s.len() == 0,
    ensures
        #[trigger] consts_view(s) == Seq::<ConstDeclView>::empty(),
{
    assert(consts_view(s) =~= Seq::<ConstDeclView>::empty());
}

pub broadcast proof fn consts_view_add(a: Seq<ConstDecl>, b: Seq<ConstDecl>)
    ensures
        #[trigger] consts_view(a + b) == consts_view(a) + consts_view(b),
{
    assert(consts_view(a + b) =~= consts_view(a) + consts_view(b));
}

pub broadcast proof fn consts_view_subrange(s: Seq<ConstDecl>, a: int, b: int)
    requires
        0 <= a <= b <= s.len(),
    ensures
        #[trigger] consts_view(s.subrange(a, b)) == consts_view(s).subrange(a, b),
{
    assert(consts_view(s.subrange(a, b)) =~= consts_view(s).subrange(a, b));
}

pub broadcast proof fn consts_view_update(s: Seq<ConstDecl>, i: int, x: ConstDecl)
    requires
        0 <= i < s.len(),
    ensures
        #[trigger] consts_view(s.update(i, x)) == consts_view(s).update(i, const_decl_view(x)),
{
    assert(consts_view(s.update(i, x)) =~= consts_view(s).update(i, const_decl_view(x)));
}

pub fn dup_consts(v: &Vec<ConstDecl>) -> (r: Vec<ConstDecl>)
    ensures
        consts_view(r@) == consts_view(v@),
{
    let mut r: Vec<ConstDecl> = Vec::new();
    let mut i: usize = 0;
    while i < v.len()
        invariant
            i <= v.len(),
            r.len() == i,
            forall|j: int| 0 <= j < i ==> #[trigger] consts_view(r@)[j] == consts_view(v@)[j],
        decreases v.len() - i,
    {
        let ghost before = r@;
        let x = &v[i];
        r.push(x.dup());
        proof {
            consts_view_push(before, r@.last());
        }
        i += 1;
    }
    assert(consts_view(r@) =~= consts_view(v@));
    r
}

pub open spec fn type_aliases_view(s: Seq<TypeAlias>) -> Seq<TypeAliasView>
{
    Seq::new(s.len(), |i: int| type_alias_view(s[i]))
}

pub broadcast proof fn type_aliases_view_push(s: Seq<TypeAlias>, x: TypeAlias)
    ensures
        #[trigger] type_aliases_view(s.push(x)) == type_aliases_view(s).push(type_alias_view(x)),
{
    assert(type_aliases_view(s.push(x)) =~= type_aliases_view(s).push(type_alias_view(x)));
}

pub broadcast proof fn type_aliases_view_empty(s: Seq<TypeAlias>)
    requires
        s.len() == 0,
    ensures
        #[trigger] type_aliases_view(s) == Seq::<TypeAliasView>::empty(),
{
    assert(type_aliases_view(s) =~= Seq::<TypeAliasView>::empty());
}

pub broadcast proof fn type_aliases_view_add(a: Seq<TypeAlias>, b: Seq<TypeAlias>)
    ensures
        #[trigger] type_aliases_view(a + b) == type_aliases_view(a) + type_aliases_view(b),
{
    assert(type_aliases_view(a + b) =~= type_aliases_view(a) + type_aliases_view(b));
}

pub broadcast proof fn type_aliases_view_subrange(s: Seq<TypeAlias>, a: int, b: int)
    requires
        0 <= a <= b <= s.len(),
    ensures
        #[trigger] type_aliases_view(s.subrange(a, b)) == type_aliases_view(s).subrange(a, b),
{
    assert(type_aliases_view(s.subrange(a, b)) =~= type_aliases_view(s).subrange(a, b));
}

pub broadcast proof fn type_aliases_view_update(s: Seq<TypeAlias>, i: int, x: TypeAlias)
    requires
        0 <= i < s.len(),
    ensures
        #[trigger] type_aliases_view(s.update(i, x)) == type_aliases_view(s).update(i, type_alias_view(x)),
{
    assert(
        type_aliases_view(s.update(i, x)) =~= type_aliases_view(s).update(i, type_alias_view(x))
    );
}

pub fn dup_type_aliases(v: &Vec<TypeAlias>) -> (r: Vec<TypeAlias>)
    ensures
        type_aliases_view(r@) == type_aliases_view(v@),
{
    let mut r: Vec<TypeAlias> = Vec::new();
    let mut i: usize = 0;
    while i < v.len()
        invariant
            i <= v.len(),
            r.len() == i,
            forall|j: int| 0 <= j < i ==> #[trigger] type_aliases_view(r@)[j] == type_aliases_view(v@)[j],
        decreases v.len() - i,
    {
        let ghost before = r@;
        let x = &v[i];
        r.push(x.dup());
        proof {
            type_aliases_view_push(before, r@.last());
        }
        i += 1;
    }
    assert(type_aliases_view(r@) =~= type_aliases_view(v@));
    r
}

pub open spec fn methods_blocks_view(s: Seq<MethodsBlock>) -> Seq<MethodsBlockView>
{
    Seq::new(s.len(), |i: int| methods_block_view(s[i]))
}

pub broadcast proof fn methods_blocks_view_push(s: Seq<MethodsBlock>, x: MethodsBlock)
    ensures
        #[trigger] methods_blocks_view(s.push(x)) == methods_blocks_view(s).push(methods_block_view(x)),
{
    assert(methods_blocks_view(s.push(x)) =~= methods_blocks_view(s).push(methods_block_view(x)));
}

pub broadcast proof fn methods_blocks_view_empty(s: Seq<MethodsBlock>)
    requires
        s.len() == 0,
    ensures
        #[trigger] methods_blocks_view(s) == Seq::<MethodsBlockView>::empty(),
{
    assert(methods_blocks_view(s) =~= Seq::<MethodsBlockView>::empty());
}

pub broadcast proof fn methods_blocks_view_add(a: Seq<MethodsBlock>, b: Seq<MethodsBlock>)
    ensures
        #[trigger] methods_blocks_view(a + b) == methods_blocks_view(a) + methods_blocks_view(b),
{
    assert(methods_blocks_view(a + b) =~= methods_blocks_view(a) + methods_blocks_view(b));
}

pub broadcast proof fn methods_blocks_view_subrange(s: Seq<MethodsBlock>, a: int, b: int)
    requires
        0 <= a <= b <= s.len(),
    ensures
        #[trigger] methods_blocks_view(s.subrange(a, b)) == methods_blocks_view(s).subrange(a, b),
{
    assert(methods_blocks_view(s.subrange(a, b)) =~= methods_blocks_view(s).subrange(a, b));
}

pub broadcast proof fn methods_blocks_view_update(s: Seq<MethodsBlock>, i: int, x: MethodsBlock)
    requires
        0 <= i < s.len(),
    ensures
        #[trigger] methods_blocks_view(s.update(i, x)) == methods_blocks_view(s).update(i, methods_block_view(x)),
{
    assert(
        methods_blocks_view(s.update(i, x)) =~= methods_blocks_view(s).update(
            i,
            methods_block_view(x),
        )
    );
}

pub fn dup_methods_blocks(v: &Vec<MethodsBlock>) -> (r: Vec<MethodsBlock>)
    ensures
        methods_blocks_view(r@) == methods_blocks_view(v@),
{
    let mut r: Vec<MethodsBlock> = Vec::new();
    let mut i: usize = 0;
    while i < v.len()
        invariant
            i <= v.len(),
            r.len() == i,
            forall|j: int| 0 <= j < i ==> #[trigger] methods_blocks_view(r@)[j] == methods_blocks_view(v@)[j],
        decreases v.len() - i,
    {
        let ghost before = r@;
        let x = &v[i];
        r.push(x.dup());
        proof {
            methods_blocks_view_push(before, r@.last());
        }
        i += 1;
    }
    assert(methods_blocks_view(r@) =~= methods_blocks_view(v@));
    r
}

/// What [`stmt_span`] computes.
pub open spec fn stmt_span_spec(s: StmtView) -> Span
{
    match s {
        StmtView::Let { span, .. } => span,
        StmtView::LetTuple { span, .. } => span,
        StmtView::Return { span, .. } => span,
        StmtView::Assert { span, .. } => span,
        StmtView::Prove { span, .. } => span,
        StmtView::Print { span, .. } => span,
        StmtView::If { span, .. } => span,
        StmtView::While { span, .. } => span,
        StmtView::Assign { span, .. } => span,
        StmtView::Break { span } => span,
        StmtView::Continue { span } => span,
        StmtView::IndexAssign { span, .. } => span,
        StmtView::FieldAssign { span, .. } => span,
        StmtView::For { span, .. } => span,
        StmtView::ForIter { span, .. } => span,
        StmtView::TaskSpawn { span, .. } => span,
        StmtView::TaskJoin { span, .. } => span,
    }
}

/// The place of a statement in the source.
pub fn stmt_span(s: &Stmt) -> (r: Span)
    ensures
        r == stmt_span_spec(s@),
{
    match s {
        Stmt::Let { span, .. } => *span,
        Stmt::LetTuple { span, .. } => *span,
        Stmt::Return { span, .. } => *span,
        Stmt::Assert { span, .. } => *span,
        Stmt::Prove { span, .. } => *span,
        Stmt::Print { span, .. } => *span,
        Stmt::If { span, .. } => *span,
        Stmt::While { span, .. } => *span,
        Stmt::Assign { span, .. } => *span,
        Stmt::Break { span } => *span,
        Stmt::Continue { span } => *span,
        Stmt::IndexAssign { span, .. } => *span,
        Stmt::FieldAssign { span, .. } => *span,
        Stmt::For { span, .. } => *span,
        Stmt::ForIter { span, .. } => *span,
        Stmt::TaskSpawn { span, .. } => *span,
        Stmt::TaskJoin { span, .. } => *span,
    }
}

/// What [`binary_symbol`] computes.
pub open spec fn binary_symbol_spec(op: BinaryOp) -> Seq<char>
{
    match op {
        BinaryOp::Add => "+"@,
        BinaryOp::Sub => "-"@,
        BinaryOp::Mul => "*"@,
        BinaryOp::Div => "/"@,
        BinaryOp::Rem => "%"@,
        BinaryOp::Shl => "<<"@,
        BinaryOp::Shr => ">>"@,
        BinaryOp::BitAnd => "&"@,
        BinaryOp::BitOr => "|"@,
        BinaryOp::BitXor => "^"@,
        BinaryOp::Lt => "<"@,
        BinaryOp::Le => "<="@,
        BinaryOp::Gt => ">"@,
        BinaryOp::Ge => ">="@,
        BinaryOp::Eq => "=="@,
        BinaryOp::Ne => "!="@,
        BinaryOp::And => "&&"@,
        BinaryOp::Or => "||"@,
    }
}

/// The operator as written in the source.
pub fn binary_symbol(op: BinaryOp) -> (r: &'static str)
    ensures
        r@ == binary_symbol_spec(op),
{
    match op {
        BinaryOp::Add => "+",
        BinaryOp::Sub => "-",
        BinaryOp::Mul => "*",
        BinaryOp::Div => "/",
        BinaryOp::Rem => "%",
        BinaryOp::Shl => "<<",
        BinaryOp::Shr => ">>",
        BinaryOp::BitAnd => "&",
        BinaryOp::BitOr => "|",
        BinaryOp::BitXor => "^",
        BinaryOp::Lt => "<",
        BinaryOp::Le => "<=",
        BinaryOp::Gt => ">",
        BinaryOp::Ge => ">=",
        BinaryOp::Eq => "==",
        BinaryOp::Ne => "!=",
        BinaryOp::And => "&&",
        BinaryOp::Or => "||",
    }
}

/// What [`unary_symbol`] computes.
pub open spec fn unary_symbol_spec(op: UnaryOp) -> Seq<char>
{
    match op {
        UnaryOp::Neg => "-"@,
        UnaryOp::Not => "!"@,
    }
}

/// How a unary operator is written.
pub fn unary_symbol(op: UnaryOp) -> (r: &'static str)
    ensures
        r@ == unary_symbol_spec(op),
{
    match op {
        UnaryOp::Neg => "-",
        UnaryOp::Not => "!",
    }
}

/// What [`reduction_symbol`] computes.
pub open spec fn reduction_symbol_spec(op: ReductionOp) -> Seq<char>
{
    match op {
        ReductionOp::Add => "+"@,
        ReductionOp::Mul => "*"@,
        ReductionOp::Min => "min"@,
        ReductionOp::Max => "max"@,
        ReductionOp::And => "&&"@,
        ReductionOp::Or => "||"@,
        ReductionOp::BitAnd => "&"@,
        ReductionOp::BitOr => "|"@,
        ReductionOp::BitXor => "^"@,
    }
}

/// How a reduction is written.
pub fn reduction_symbol(op: ReductionOp) -> (r: &'static str)
    ensures
        r@ == reduction_symbol_spec(op),
{
    match op {
        ReductionOp::Add => "+",
        ReductionOp::Mul => "*",
        ReductionOp::Min => "min",
        ReductionOp::Max => "max",
        ReductionOp::And => "&&",
        ReductionOp::Or => "||",
        ReductionOp::BitAnd => "&",
        ReductionOp::BitOr => "|",
        ReductionOp::BitXor => "^",
    }
}

/// What [`type_text`] computes.
pub open spec fn type_text_spec(t: TypeView) -> Seq<char>
    decreases t, 0int,
{
    match t {
        TypeView::I8 => "i8"@,
        TypeView::I16 => "i16"@,
        TypeView::I32 => "i32"@,
        TypeView::I64 => "i64"@,
        TypeView::U8 => "u8"@,
        TypeView::U16 => "u16"@,
        TypeView::U32 => "u32"@,
        TypeView::U64 => "u64"@,
        TypeView::F32 => "f32"@,
        TypeView::F64 => "f64"@,
        TypeView::Bool => "bool"@,
        TypeView::Str => "Str"@,
        TypeView::OwnedStr => "OwnedStr"@,
        TypeView::Task => "Task"@,
        TypeView::Struct(name) => name,
        TypeView::Enum(name) => name,
        TypeView::Param(name) => name,
        TypeView::Vec(inner) => "Vec<"@ + type_text_spec(*inner) + ">"@,
        TypeView::Ref(inner) => "ref "@ + type_text_spec(*inner),
        TypeView::RefMut(inner) => "mut ref "@ + type_text_spec(*inner),
        TypeView::Atomic(inner) => "Atomic<"@ + type_text_spec(*inner) + ">"@,
        TypeView::Mutex(inner) => "Mutex<"@ + type_text_spec(*inner) + ">"@,
        TypeView::Guard(inner) => "Guard<"@ + type_text_spec(*inner) + ">"@,
        TypeView::Array {
            element,
            length,
        } => "["@ + type_text_spec(*element) + "; "@ + crate::text::decimal((length as i128) as int) + "]"@,
        TypeView::Channel(
            inner,
            capacity,
        ) => "Channel<"@ + type_text_spec(*inner) + ", "@ + crate::text::decimal((capacity as i128) as int) + ">"@,
        TypeView::Tuple(elements) => "("@ + type_texts_spec(elements, ""@, 0) + ")"@,
        TypeView::FnPtr(params, ret) => "fn("@ + type_texts_spec(
            params,
            ""@,
            0,
        ) + ") -> "@ + type_text_spec(*ret),
    }
}

/// A type as written in the source.
pub fn type_text(t: &Type) -> (r: String)
    ensures
        r@ == type_text_spec(t@),
    decreases t, 0int,
{
    match t {
        Type::I8 => text("i8"),
        Type::I16 => text("i16"),
        Type::I32 => text("i32"),
        Type::I64 => text("i64"),
        Type::U8 => text("u8"),
        Type::U16 => text("u16"),
        Type::U32 => text("u32"),
        Type::U64 => text("u64"),
        Type::F32 => text("f32"),
        Type::F64 => text("f64"),
        Type::Bool => text("bool"),
        Type::Str => text("Str"),
        Type::OwnedStr => text("OwnedStr"),
        Type::Task => text("Task"),
        Type::Struct(name) => name.clone(),
        Type::Enum(name) => name.clone(),
        Type::Param(name) => name.clone(),
        Type::Vec(inner) => cat3("Vec<", &type_text(&**inner), ">"),
        Type::Ref(inner) => cat2("ref ", &type_text(&**inner)),
        Type::RefMut(inner) => cat2("mut ref ", &type_text(&**inner)),
        Type::Atomic(inner) => cat3("Atomic<", &type_text(&**inner), ">"),
        Type::Mutex(inner) => cat3("Mutex<", &type_text(&**inner), ">"),
        Type::Guard(inner) => cat3("Guard<", &type_text(&**inner), ">"),
        Type::Array { element, length } => cat5(
            "[",
            &type_text(&**element),
            "; ",
            &int_text(*length as i128),
            "]",
        ),
        Type::Channel(inner, capacity) => cat5(
            "Channel<",
            &type_text(&**inner),
            ", ",
            &int_text(*capacity as i128),
            ">",
        ),
        Type::Tuple(elements) => cat3("(", &type_texts(elements, text("")), ")"),
        Type::FnPtr(params, ret) => cat4(
            "fn(",
            &type_texts(params, text("")),
            ") -> ",
            &type_text(&**ret),
        ),
    }
}

/// What [`type_texts`] computes from position `i` on.
pub open spec fn type_texts_spec(ts: Seq<TypeView>, out: Seq<char>, i: int) -> Seq<char>
    decreases ts, ts.len() - i,
{
    if 0 <= i < ts.len() {
        let t = ts[i];
        let out = if i > 0 {
            out + ", "@ + type_text_spec(t)
        } else {
            out + type_text_spec(t)
        };
        type_texts_spec(ts, out, i + 1)
    } else {
        out
    }
}

/// The types of a list, separated by commas.
pub fn type_texts(ts: &Vec<Type>, out: String) -> (r: String)
    ensures
        r@ == type_texts_spec(types_view(ts@), out@, 0),
    decreases ts, ts.len(),
{
    let ghost whole_run = type_texts_spec(types_view(ts@), out@, 0);
    let mut out = out;
    let mut i: usize = 0;
    while i < ts.len()
        invariant
            i <= ts.len(),
            type_texts_spec(types_view(ts@), out@, i as int) == whole_run,
        decreases ts.len() - i,
    {
        let t = &ts[i];
        out = if i > 0 {
            cat3(&out, ", ", &type_text(t))
        } else {
            cat2(&out, &type_text(t))
        };
        i += 1;
    }
    out
}

pub broadcast group group_ast_views {
    comments_view_push,
    comments_view_empty,
    comments_view_add,
    comments_view_subrange,
    comments_view_update,
    types_view_push,
    types_view_empty,
    types_view_add,
    types_view_subrange,
    types_view_update,
    exprs_view_push,
    exprs_view_empty,
    exprs_view_add,
    exprs_view_subrange,
    exprs_view_update,
    named_exprs_view_push,
    named_exprs_view_empty,
    named_exprs_view_add,
    named_exprs_view_subrange,
    named_exprs_view_update,
    arms_view_push,
    arms_view_empty,
    arms_view_add,
    arms_view_subrange,
    arms_view_update,
    print_items_view_push,
    print_items_view_empty,
    print_items_view_add,
    print_items_view_subrange,
    print_items_view_update,
    stmts_view_push,
    stmts_view_empty,
    stmts_view_add,
    stmts_view_subrange,
    stmts_view_update,
    reductions_view_push,
    reductions_view_empty,
    reductions_view_add,
    reductions_view_subrange,
    reductions_view_update,
    params_view_push,
    params_view_empty,
    params_view_add,
    params_view_subrange,
    params_view_update,
    where_clauses_view_push,
    where_clauses_view_empty,
    where_clauses_view_add,
    where_clauses_view_subrange,
    where_clauses_view_update,
    functions_view_push,
    functions_view_empty,
    functions_view_add,
    functions_view_subrange,
    functions_view_update,
    uses_view_push,
    uses_view_empty,
    uses_view_add,
    uses_view_subrange,
    uses_view_update,
    intents_view_push,
    intents_view_empty,
    intents_view_add,
    intents_view_subrange,
    intents_view_update,
    fields_view_push,
    fields_view_empty,
    fields_view_add,
    fields_view_subrange,
    fields_view_update,
    structs_view_push,
    structs_view_empty,
    structs_view_add,
    structs_view_subrange,
    structs_view_update,
    variants_view_push,
    variants_view_empty,
    variants_view_add,
    variants_view_subrange,
    variants_view_update,
    enums_view_push,
    enums_view_empty,
    enums_view_add,
    enums_view_subrange,
    enums_view_update,
    interface_methods_view_push,
    interface_methods_view_empty,
    interface_methods_view_add,
    interface_methods_view_subrange,
    interface_methods_view_update,
    interfaces_view_push,
    interfaces_view_empty,
    interfaces_view_add,
    interfaces_view_subrange,
    interfaces_view_update,
    impls_view_push,
    impls_view_empty,
    impls_view_add,
    impls_view_subrange,
    impls_view_update,
    consts_view_push,
    consts_view_empty,
    consts_view_add,
    consts_view_subrange,
    consts_view_update,
    type_aliases_view_push,
    type_aliases_view_empty,
    type_aliases_view_add,
    type_aliases_view_subrange,
    type_aliases_view_update,
    methods_blocks_view_push,
    methods_blocks_view_empty,
    methods_blocks_view_add,
    methods_blocks_view_subrange,
    methods_blocks_view_update,
}

} // verus!
