//! When the types in a typed program fit together.

use vstd::prelude::*;
use crate::ast::{BinaryOp, PatternView, TypeView, UnaryOp};
use crate::calls::{ArmKeyView, ArmScanView, TextScanView};
use crate::ir::{
    TypedConstView, TypedExprKindView, TypedExprView, TypedMatchArmView, TypedPrintItemView,
    TypedStmtView,
};
use crate::state::{
    CheckedExprView, ContextView, EnumInfoView, EnvView, SignatureView, StateView, StructInfoView,
};

verus! {

broadcast use {
    crate::text::group_text_views,
    crate::ast::group_ast_views,
    crate::diagnostic::group_diagnostic_views,
    crate::ir::group_ir_views,
    crate::state::group_state_views,
};

/// What a program declares.
pub struct Declared {
    pub signatures: Seq<(Seq<char>, SignatureView)>,
    pub structs: Seq<(Seq<char>, StructInfoView)>,
    pub enums: Seq<(Seq<char>, EnumInfoView)>,
}

/// What the program that is checked declares.
pub open spec fn declared_in(cx: ContextView, env: EnvView) -> Declared {
    Declared { signatures: cx.signatures, structs: env.structs, enums: env.enums }
}

/// Whether bindings stand beside the given types.
pub open spec fn beside(d: Declared, env: EnvView) -> bool {
    d.structs == env.structs && d.enums == env.enums && env.scopes.len() > 0
}

/// Whether a step of checking reported nothing.
pub open spec fn quiet(before: StateView, after: StateView) -> bool {
    after.diagnostics.len() <= before.diagnostics.len()
}

/// Whether arguments have the types of parameters.
pub open spec fn args_fit(args: Seq<TypedExprView>, params: Seq<TypeView>) -> bool {
    args.len() == params.len() && forall|i: int|
        0 <= i < args.len() ==> (#[trigger] args[i]).ty == params[i]
}

/// Whether a call has the arguments and the type that its function declares.
pub open spec fn signature_fits(
    name: Seq<char>,
    args: Seq<TypedExprView>,
    ty: TypeView,
    d: Declared,
) -> bool {
    crate::scope::signature_get_spec(d.signatures, name) matches Some(sig)
        && args_fit(args, sig.params) && ty
        == sig.return_type
}

/// Whether a call compares two values of a struct or an enum by the equality
/// function of that type.
pub open spec fn equality_fits(name: Seq<char>, args: Seq<TypedExprView>, ty: TypeView) -> bool {
    args.len() == 2 && args[0].ty == args[1].ty
        && (crate::types::nominal_name_spec(args[0].ty) matches Some(of)
        && name == of + "_eq"@) && ty == TypeView::Bool
}

/// Whether a call of a built-in function has arguments and a type that belong
/// together.
pub open spec fn builtin_fits(name: Seq<char>, args: Seq<TypedExprView>, ty: TypeView) -> bool {
    let n = args.len();
    ||| name == "vec"@
        && (ty matches TypeView::Vec(element) && forall|i: int| 0 <= i < n ==> (#[trigger] args[i]).ty == *element)
    ||| name == "push"@ && n == 2 && args[0].ty == ty && ty == TypeView::Vec(Box::new(args[1].ty))
    ||| name == "push_mut"@ && n == 2
        && args[0].ty == TypeView::RefMut(Box::new(TypeView::Vec(Box::new(args[1].ty)))) && ty
        == TypeView::I64
    ||| name == "set"@ && n == 3 && args[0].ty == ty && crate::types::is_integer_spec(args[1].ty)
        && ty == TypeView::Vec(
        Box::new(args[2].ty),
    )
    ||| name == "clone"@ && n == 1 && args[0].ty == ty && ty is Vec
    ||| name == "clone_at"@ && n == 2
        && crate::types::deref_spec(args[0].ty) == TypeView::Vec(Box::new(ty))
        && crate::types::is_integer_spec(args[1].ty)
    ||| (name == "min"@ || name == "max"@) && n == 2 && args[0].ty == ty && args[1].ty == ty
        && crate::types::is_numeric_spec(ty)
    ||| name == "atomic_new"@ && n == 1 && ty == TypeView::Atomic(Box::new(args[0].ty))
    ||| name == "atomic_load"@ && n == 1 && crate::types::is_any_ref_spec(args[0].ty)
        && crate::types::deref_spec(args[0].ty) == TypeView::Atomic(Box::new(ty))
    ||| (name == "atomic_store"@ || name == "atomic_fetch_add"@) && n == 2
        && crate::types::is_any_ref_spec(args[0].ty)
        && crate::types::deref_spec(args[0].ty) == TypeView::Atomic(Box::new(ty))
        && args[1].ty == ty
    ||| name == "atomic_compare_exchange"@ && n == 3 && crate::types::is_any_ref_spec(args[0].ty)
        && crate::types::deref_spec(args[0].ty) == TypeView::Atomic(
        Box::new(args[1].ty),
    ) && args[2].ty == args[1].ty && ty == TypeView::Bool
    ||| name == "channel_new"@ && ty is Channel
    ||| name == "channel_send"@ && n == 2 && crate::types::is_any_ref_spec(args[0].ty)
        && args[1].ty == ty && (crate::types::deref_spec(args[0].ty) matches
        TypeView::Channel(element, _) && *element == ty)
    ||| name == "channel_recv"@ && n == 1 && crate::types::is_any_ref_spec(args[0].ty)
        && (crate::types::deref_spec(args[0].ty) matches TypeView::Channel(
        element,
        _,
    ) && *element == ty)
    ||| name == "mutex_new"@ && n == 1 && args[0].ty == TypeView::I64
        && ty == TypeView::Mutex(Box::new(TypeView::I64))
    ||| name == "mutex_lock"@ && n == 1 && crate::types::is_any_ref_spec(args[0].ty)
        && crate::types::deref_spec(args[0].ty) == TypeView::Mutex(
        Box::new(TypeView::I64),
    ) && ty == TypeView::Guard(Box::new(TypeView::I64))
    ||| name == "guard_get"@ && n == 1 && crate::types::is_any_ref_spec(args[0].ty)
        && crate::types::deref_spec(args[0].ty) == TypeView::Guard(
        Box::new(TypeView::I64),
    ) && ty == TypeView::I64
    ||| name == "guard_set"@ && n == 2 && crate::types::is_any_ref_spec(args[0].ty)
        && crate::types::deref_spec(args[0].ty) == TypeView::Guard(
        Box::new(TypeView::I64),
    ) && args[1].ty == TypeView::I64 && ty == TypeView::I64
}

/// Whether a call has arguments and a type that its function goes with.
pub open spec fn call_fits(
    name: Seq<char>,
    args: Seq<TypedExprView>,
    ty: TypeView,
    d: Declared,
) -> bool {
    builtin_fits(name, args, ty) || signature_fits(name, args, ty, d)
        || equality_fits(name, args, ty)
}

/// Whether a unary operation has the type that its operand gives it.
pub open spec fn unary_fits(op: UnaryOp, operand: TypeView, ty: TypeView) -> bool {
    match op {
        UnaryOp::Not => operand == TypeView::Bool && ty == TypeView::Bool,
        UnaryOp::Neg => {
            &&& crate::types::is_numeric_spec(operand)
            &&& ty == operand || crate::types::is_integer_spec(operand) && ty == TypeView::I64
        },
    }
}

/// Whether a binary operation has the type that its operands give it.
pub open spec fn binary_fits(op: BinaryOp, left: TypeView, right: TypeView, ty: TypeView) -> bool {
    let texts = crate::effects::is_text_type_spec(left) && crate::effects::is_text_type_spec(right);
    let same = left == ty && right == ty;
    match op {
        BinaryOp::Add => {
            ||| texts && ty == TypeView::OwnedStr
            ||| same && crate::types::is_numeric_spec(ty)
        },
        BinaryOp::Sub | BinaryOp::Mul | BinaryOp::Div => same && crate::types::is_numeric_spec(ty),
        BinaryOp::Rem => same && crate::types::is_integer_spec(ty),
        BinaryOp::BitAnd | BinaryOp::BitOr | BinaryOp::BitXor => same && crate::types::is_integer_spec(ty),
        BinaryOp::Shl | BinaryOp::Shr => {
            &&& left == ty
            &&& crate::types::is_integer_spec(left)
            &&& crate::types::is_integer_spec(right)
        },
        BinaryOp::Lt | BinaryOp::Le | BinaryOp::Gt | BinaryOp::Ge => {
            &&& ty == TypeView::Bool
            &&& texts || crate::types::is_numeric_spec(left) && left == right
        },
        BinaryOp::Eq | BinaryOp::Ne => {
            &&& ty == TypeView::Bool
            &&& texts || left == right
        },
        BinaryOp::And | BinaryOp::Or => same && ty == TypeView::Bool,
    }
}

/// Whether a known left operand decides an operation, so that its right operand
/// is never evaluated.
pub open spec fn decided(op: BinaryOp, left: Option<TypedConstView>) -> bool {
    left matches Some(TypedConstView::Bool(v))
        && (op == BinaryOp::And && !v || op == BinaryOp::Or && v)
}

/// Whether a type is that of an array or vector with the given elements.
pub open spec fn holds_elements(t: TypeView, element: TypeView) -> bool {
    match t {
        TypeView::Array { element: e, .. } => *e == element,
        TypeView::Vec(e) => *e == element,
        _ => false,
    }
}

/// Whether an array literal has the elements of its type.
pub open spec fn array_fits(elements: Seq<TypedExprView>, ty: TypeView) -> bool {
    &&& ty matches TypeView::Array { element, length }
    &&& length == elements.len()
    &&& forall|i: int| 0 <= i < elements.len() ==> (#[trigger] elements[i]).ty == *element
}

/// Whether values of a type have a length.
pub open spec fn has_length(t: TypeView) -> bool {
    t is Array || t is Vec || t is Str || t is OwnedStr
}

/// Whether a match may look at values of a type.
pub open spec fn can_be_matched(t: TypeView) -> bool {
    t is Enum || crate::types::is_integer_spec(t) || t == TypeView::Bool
}

/// Whether a struct declares a field at a position and of a type.
pub open spec fn field_declared(
    of: TypeView,
    field: Seq<char>,
    index: u32,
    ty: TypeView,
    d: Declared,
) -> bool {
    &&& of matches TypeView::Struct(name)
    &&& crate::scope::struct_info_get_spec(d.structs, name) matches Some(info)
    &&& info.fields.len() <= u32::MAX ==> {
        &&& index < info.fields.len()
        &&& info.fields[index as int] == (field, ty)
    }
}

/// Whether a path of declared fields leads over the given types.
pub open spec fn path_over(
    types: Seq<TypeView>,
    of: TypeView,
    path: Seq<(Seq<char>, u32)>,
    ty: TypeView,
    d: Declared,
) -> bool {
    &&& types.len() == path.len() + 1
    &&& types[0] == of
    &&& types.last() == ty
    &&& forall|i: int|
        0 <= i < path.len()
            ==> field_declared(types[i], (#[trigger] path[i]).0, path[i].1, types[i + 1], d)
}

/// Whether a path of declared fields leads from one type to another.
pub open spec fn path_declared(
    of: TypeView,
    path: Seq<(Seq<char>, u32)>,
    ty: TypeView,
    d: Declared,
) -> bool {
    exists|types: Seq<TypeView>| #[trigger] path_over(types, of, path, ty, d)
}

/// No step leads nowhere else, and a declared field is one more step.
pub proof fn path_grows(
    of: TypeView,
    path: Seq<(Seq<char>, u32)>,
    mid: TypeView,
    step: (Seq<char>, u32),
    ty: TypeView,
    d: Declared,
)
    ensures
        path_declared(of, Seq::empty(), of, d),
        path_declared(of, path, mid, d)
            && field_declared(mid, step.0, step.1, ty, d) ==> path_declared(
            of,
            path.push(step),
            ty,
            d,
        ),
{
    assert(path_over(seq![of], of, Seq::empty(), of, d));
    if path_declared(of, path, mid, d) && field_declared(mid, step.0, step.1, ty, d) {
        let types = choose|types: Seq<TypeView>| #[trigger] path_over(types, of, path, mid, d);
        assert(path_over(types.push(ty), of, path.push(step), ty, d));
    }
}

/// Whether an element of a collection, or what a path of fields leads to in
/// it, is of a type.
pub open spec fn place_fits(
    base: TypeView,
    path: Seq<(Seq<char>, u32)>,
    ty: TypeView,
    d: Declared,
) -> bool {
    exists|element: TypeView| #[trigger]
        holds_elements(crate::types::deref_spec(base), element)
            && path_declared(element, path, ty, d)
}

/// Whether the fields of a literal are those that its struct declares.
pub open spec fn fields_fit(
    fields: Seq<(Seq<char>, TypedExprView)>,
    ds: Seq<(Seq<char>, TypeView)>,
) -> bool {
    fields.len() == ds.len() && forall|i: int|
        0 <= i < fields.len() ==> (#[trigger] fields[i]).0 == ds[i].0 && fields[i].1.ty == ds[i].1
}

/// Whether an enum declares a variant at a position.
pub open spec fn variant_declared(
    name: Seq<char>,
    variant: Seq<char>,
    tag: u32,
    d: Declared,
) -> bool {
    &&& crate::scope::enum_info_get_spec(d.enums, name) matches Some(info)
    &&& info.variants.len() <= u32::MAX ==> {
        &&& tag < info.variants.len()
        &&& info.variants[tag as int] == variant
    }
}

/// Whether an enum declares a variant with a payload.
pub open spec fn payload_declared(
    name: Seq<char>,
    variant: Seq<char>,
    ty: TypeView,
    d: Declared,
) -> bool {
    &&& crate::scope::enum_info_get_spec(d.enums, name) matches Some(info)
    &&& exists|k: int|
        {
            &&& 0 <= k < info.variants.len()
            &&& k < info.payload_types.len()
            &&& #[trigger] info.variants[k] == variant
            &&& info.payload_types[k] == Some(ty)
        }
}

/// Whether a match has an arm for everything else.
pub open spec fn has_wildcard_arm(arms: Seq<TypedMatchArmView>) -> bool {
    exists|i: int| 0 <= i < arms.len() && (#[trigger] arms[i]).is_wildcard
}

/// Whether a match has an arm for a number.
pub open spec fn has_value_arm(arms: Seq<TypedMatchArmView>, v: i128) -> bool {
    exists|i: int| 0 <= i < arms.len() && (#[trigger] arms[i]).int_value == Some(v)
}

/// Whether a match has an arm for a variant.
pub open spec fn has_variant_arm(arms: Seq<TypedMatchArmView>, variant: Seq<char>) -> bool {
    exists|i: int| 0 <= i < arms.len() && (#[trigger] arms[i]).variant == variant
}

/// Whether the arms of a match have one for each value of a type.
pub open spec fn arms_exhaust(arms: Seq<TypedMatchArmView>, ty: TypeView, d: Declared) -> bool {
    has_wildcard_arm(arms) || match ty {
        TypeView::Bool => has_value_arm(arms, 1) && has_value_arm(arms, 0),
        TypeView::Enum(name) => {
            &&& crate::scope::enum_info_get_spec(d.enums, name) matches Some(info)
            &&& forall|j: int|
                0 <= j < info.variants.len() ==> has_variant_arm(arms, #[trigger] info.variants[j])
        },
        _ => false,
    }
}

/// Whether the types in an expression fit together: every operation has operands
/// of the types that it takes, every call has the arguments that its function
/// declares, every struct has its declared fields, every match has an arm for
/// each value, and the branches of a choice have its type. An operand that is
/// never evaluated may be anything.
#[verifier::opaque]
pub open spec fn well_typed(e: TypedExprView, d: Declared) -> bool
    decreases e,
{
    match e.kind {
        TypedExprKindView::Int(_) => true,
        TypedExprKindView::Float(_) => true,
        TypedExprKindView::Bool(_) => true,
        TypedExprKindView::Str(_) => true,
        TypedExprKindView::Var(_) => true,
        TypedExprKindView::Unary { op, expr } => {
            &&& well_typed(*expr, d)
            &&& unary_fits(op, expr.ty, e.ty)
        },
        TypedExprKindView::Binary { op, left, right, .. } => {
            &&& well_typed(*left, d)
            &&& if decided(op, left.constant) {
                e.ty == TypeView::Bool
            } else {
                well_typed(*right, d) && binary_fits(op, left.ty, right.ty, e.ty)
            }
        },
        TypedExprKindView::Call { name, args, .. } => {
            &&& forall|i: int| 0 <= i < args.len() ==> well_typed(#[trigger] args[i], d)
            &&& call_fits(name, args, e.ty, d)
        },
        TypedExprKindView::Cast { expr, ty } => {
            &&& well_typed(*expr, d)
            &&& e.ty == ty
        },
        TypedExprKindView::ArrayLit { elements } => {
            &&& forall|i: int| 0 <= i < elements.len() ==> well_typed(#[trigger] elements[i], d)
            &&& array_fits(elements, e.ty)
        },
        TypedExprKindView::Index { array, index, .. } => {
            &&& well_typed(*array, d)
            &&& well_typed(*index, d)
            &&& crate::types::is_integer_spec(index.ty)
            &&& holds_elements(crate::types::deref_spec(array.ty), e.ty)
        },
        TypedExprKindView::Len { array, .. } => {
            &&& well_typed(*array, d)
            &&& has_length(crate::types::deref_spec(array.ty))
            &&& e.ty == TypeView::U64
        },
        TypedExprKindView::Ref { .. } => e.ty is Ref,
        TypedExprKindView::RefMut { .. } => e.ty is RefMut,
        TypedExprKindView::RefField { field, field_index, object_ty, .. } => {
            &&& e.ty is Ref
            &&& field_declared(
                crate::types::deref_spec(object_ty),
                field,
                field_index,
                crate::types::deref_spec(e.ty),
                d,
            )
        },
        TypedExprKindView::RefMutField { field, field_index, object_ty, .. } => {
            &&& e.ty is RefMut
            &&& field_declared(
                crate::types::deref_spec(object_ty),
                field,
                field_index,
                crate::types::deref_spec(e.ty),
                d,
            )
        },
        TypedExprKindView::FnRef { name, .. } => {
            &&& crate::scope::signature_get_spec(d.signatures, name) matches Some(sig)
            &&& e.ty == TypeView::FnPtr(sig.params, Box::new(sig.return_type))
        },
        TypedExprKindView::CallIndirect { callee, args } => {
            &&& well_typed(*callee, d)
            &&& forall|i: int| 0 <= i < args.len() ==> well_typed(#[trigger] args[i], d)
            &&& callee.ty matches TypeView::FnPtr(params, ret)
            &&& args_fit(args, params)
            &&& e.ty == *ret
        },
        TypedExprKindView::Tuple { elements } => {
            &&& forall|i: int| 0 <= i < elements.len() ==> well_typed(#[trigger] elements[i], d)
            &&& e.ty matches TypeView::Tuple(types)
            &&& args_fit(elements, types)
        },
        TypedExprKindView::TupleAccess { tuple, index } => {
            &&& well_typed(*tuple, d)
            &&& tuple.ty matches TypeView::Tuple(types)
            &&& types.len() <= u32::MAX ==> index < types.len() && e.ty == types[index as int]
        },
        TypedExprKindView::StructLit { struct_name, fields } => {
            &&& forall|i: int| 0 <= i < fields.len() ==> well_typed((#[trigger] fields[i]).1, d)
            &&& e.ty == TypeView::Struct(struct_name)
            &&& crate::scope::struct_info_get_spec(d.structs, struct_name) matches Some(info)
            &&& fields_fit(fields, info.fields)
        },
        TypedExprKindView::FieldAccess { object, field, field_index } => {
            &&& well_typed(*object, d)
            &&& field_declared(crate::types::deref_spec(object.ty), field, field_index, e.ty, d)
        },
        TypedExprKindView::EnumVariant { enum_name, variant, tag } => {
            &&& e.ty == TypeView::Enum(enum_name)
            &&& variant_declared(enum_name, variant, tag, d)
        },
        TypedExprKindView::EnumVariantWithPayload {
            enum_name,
            variant,
            payload,
            payload_ty,
            ..
        } => {
            &&& well_typed(*payload, d)
            &&& payload.ty == payload_ty
            &&& e.ty == TypeView::Enum(enum_name)
            &&& payload_declared(enum_name, variant, payload_ty, d)
        },
        TypedExprKindView::Match { scrutinee, arms } => {
            &&& well_typed(*scrutinee, d)
            &&& can_be_matched(scrutinee.ty)
            &&& arms_exhaust(arms, scrutinee.ty, d)
            &&& forall|i: int|
                0 <= i < arms.len() ==> well_typed((#[trigger] arms[i]).body, d)
                    && arms[i].body.ty == e.ty
        },
        TypedExprKindView::IfExpr { cond, then_value, else_value } => {
            &&& well_typed(*cond, d)
            &&& well_typed(*then_value, d)
            &&& well_typed(*else_value, d)
            &&& cond.ty == TypeView::Bool
            &&& then_value.ty == e.ty
            &&& else_value.ty == e.ty
        },
        TypedExprKindView::Block { stmts, tail } => {
            &&& forall|i: int|
                0 <= i < stmts.len() ==> match #[trigger] stmts[i] {
                    TypedStmtView::Let { ty, expr, .. } => well_typed(expr, d) && expr.ty == ty,
                    TypedStmtView::Print { items } => forall|j: int|
                        0 <= j < items.len() ==> match #[trigger] items[j] {
                            TypedPrintItemView::Expr(x) => well_typed(x, d),
                            TypedPrintItemView::Str(_) => true,
                        },
                    TypedStmtView::Drop { .. } => true,
                    _ => false,
                }
            &&& well_typed(*tail, d)
            &&& tail.ty == e.ty
        },
    }
}

/// Literals and variables are well typed.
pub broadcast proof fn leaves_are_typed(e: TypedExprView, d: Declared)
    requires
        e.kind is Int || e.kind is Float || e.kind is Bool || e.kind is Str || e.kind is Var,
    ensures
        #[trigger] well_typed(e, d),
{
    reveal(well_typed);
}

/// Whether all expressions of a list are well typed.
pub open spec fn all_typed(es: Seq<TypedExprView>, d: Declared) -> bool {
    forall|i: int| 0 <= i < es.len() ==> well_typed(#[trigger] es[i], d)
}

/// Whether a statement of a block expression is well typed.
pub open spec fn let_typed(s: TypedStmtView, d: Declared) -> bool {
    match s {
        TypedStmtView::Let { ty, expr, .. } => well_typed(expr, d) && expr.ty == ty,
        TypedStmtView::Print { items } => items_typed(items, d),
        TypedStmtView::Drop { .. } => true,
        _ => false,
    }
}

/// Whether the items of a `print` are well typed.
pub open spec fn items_typed(items: Seq<TypedPrintItemView>, d: Declared) -> bool {
    forall|i: int|
        0 <= i < items.len() ==> (#[trigger] items[i] matches TypedPrintItemView::Expr(e) ==> well_typed(e, d))
}

/// Whether the statements of a block expression are well typed.
pub open spec fn all_lets_typed(ss: Seq<TypedStmtView>, d: Declared) -> bool {
    forall|i: int| 0 <= i < ss.len() ==> let_typed(#[trigger] ss[i], d)
}

/// Whether a checked expression is well typed; only a number may still take
/// another type.
pub open spec fn fits(c: CheckedExprView, d: Declared) -> bool {
    well_typed(c.expr, d) && (c.flexible_integer ==> crate::types::is_integer_spec(c.expr.ty))
}

/// Whether all checked expressions of a list are well typed.
pub open spec fn all_fit(cs: Seq<CheckedExprView>, d: Declared) -> bool {
    forall|i: int| 0 <= i < cs.len() ==> fits(#[trigger] cs[i], d)
}

/// Whether a checked expression, where there is one, is well typed.
pub open spec fn may_fit(c: Option<CheckedExprView>, d: Declared) -> bool {
    c matches Some(c) ==> fits(c, d)
}

/// Whether the fields of a literal are well typed.
pub open spec fn fields_typed(fields: Seq<(Seq<char>, TypedExprView)>, d: Declared) -> bool {
    forall|i: int| 0 <= i < fields.len() ==> well_typed((#[trigger] fields[i]).1, d)
}

/// Whether the arms seen so far are well typed and of the type of the match,
/// and what counts as covered has an arm.
pub open spec fn arms_fit(scan: ArmScanView, d: Declared) -> bool {
    &&& scan.wildcard ==> has_wildcard_arm(scan.arms)
    &&& scan.seen_true ==> has_value_arm(scan.arms, 1)
    &&& scan.seen_false ==> has_value_arm(scan.arms, 0)
    &&& forall|k: int|
        0 <= k < scan.seen_variants.len()
            ==> has_variant_arm(scan.arms, #[trigger] scan.seen_variants[k])
    &&& forall|i: int|
        0 <= i < scan.arms.len() ==> well_typed((#[trigger] scan.arms[i]).body, d)
            && scan.result == Some(
            scan.arms[i].body.ty,
        )
}

/// Whether the arms of a match on a string seen so far are well typed and of
/// the type of the match.
pub open spec fn texts_fit(scan: TextScanView, d: Declared) -> bool {
    &&& forall|i: int|
        0 <= i < scan.arms.len() ==> well_typed((#[trigger] scan.arms[i]).1, d)
            && scan.result == Some(
            scan.arms[i].1.ty,
        )
    &&& scan.wildcard matches Some(e) ==> well_typed(e, d) && scan.result == Some(e.ty)
}

/// Whether a variable holds a tuple that is taken apart.
pub open spec fn is_taken_apart(name: Seq<char>) -> bool {
    "__intent_tup_"@.is_prefix_of(name)
}

/// Whether a binding is of the type of its value. A tuple that is taken apart
/// goes by the element types written for it, which are not compared.
pub open spec fn binding_fits(name: Seq<char>, ty: TypeView, value: TypeView) -> bool {
    value == ty || is_taken_apart(name) && ty is Tuple && value is Tuple
}

/// Whether a statement is well typed in a function that returns the given
/// type.
#[verifier::opaque]
pub open spec fn stmt_typed(s: TypedStmtView, ret: TypeView, d: Declared) -> bool
    decreases s,
{
    match s {
        TypedStmtView::Let { name, ty, expr } => well_typed(expr, d) && binding_fits(
            name,
            ty,
            expr.ty,
        ),
        TypedStmtView::Reassign { ty, expr, .. } => well_typed(expr, d) && expr.ty == ty,
        TypedStmtView::Return { expr } => well_typed(expr, d) && expr.ty == ret,
        TypedStmtView::Assert { expr, .. } => well_typed(expr, d) && expr.ty == TypeView::Bool,
        TypedStmtView::Prove { expr } => well_typed(expr, d) && expr.ty == TypeView::Bool,
        TypedStmtView::Print { items } => items_typed(items, d),
        TypedStmtView::Discard { expr } => well_typed(expr, d),
        TypedStmtView::Drop { .. } => true,
        TypedStmtView::If { cond, then_body, else_body } => {
            &&& well_typed(cond, d)
            &&& cond.ty == TypeView::Bool
            &&& forall|i: int| 0 <= i < then_body.len()
                ==> stmt_typed(#[trigger] then_body[i], ret, d)
            &&& forall|i: int| 0 <= i < else_body.len()
                ==> stmt_typed(#[trigger] else_body[i], ret, d)
        },
        TypedStmtView::While { cond, body } => {
            &&& well_typed(cond, d)
            &&& cond.ty == TypeView::Bool
            &&& forall|i: int| 0 <= i < body.len() ==> stmt_typed(#[trigger] body[i], ret, d)
        },
        TypedStmtView::For { ty, start, end, body, .. } => {
            &&& crate::types::is_integer_spec(ty)
            &&& well_typed(start, d) && start.ty == ty
            &&& well_typed(end, d) && end.ty == ty
            &&& forall|i: int| 0 <= i < body.len() ==> stmt_typed(#[trigger] body[i], ret, d)
        },
        TypedStmtView::ForIter { element_ty, collection_ty, body, .. } => {
            &&& holds_elements(crate::types::deref_spec(collection_ty), element_ty)
            &&& forall|i: int| 0 <= i < body.len() ==> stmt_typed(#[trigger] body[i], ret, d)
        },
        TypedStmtView::IndexAssign { base_ty, index, field_path, value, .. } => {
            &&& well_typed(index, d)
            &&& well_typed(value, d)
            &&& crate::types::is_integer_spec(index.ty)
            &&& place_fits(base_ty, field_path, value.ty, d)
        },
        TypedStmtView::FieldAssign { object, field, field_index, value, .. } => {
            &&& well_typed(object, d)
            &&& well_typed(value, d)
            &&& field_declared(crate::types::deref_spec(object.ty), field, field_index, value.ty, d)
        },
        TypedStmtView::Break => true,
        TypedStmtView::Continue => true,
        TypedStmtView::TaskSpawn { body, .. } => forall|i: int| 0 <= i < body.len()
            ==> stmt_typed(#[trigger] body[i], ret, d),
        TypedStmtView::TaskJoin { .. } => true,
    }
}

/// Whether the statements of a body are well typed.
pub open spec fn body_typed(ss: Seq<TypedStmtView>, ret: TypeView, d: Declared) -> bool {
    forall|i: int| 0 <= i < ss.len() ==> stmt_typed(#[trigger] ss[i], ret, d)
}

/// Whether a call fits depends on its arguments only by their types.
pub proof fn same_types_fit(
    name: Seq<char>,
    a: Seq<TypedExprView>,
    b: Seq<TypedExprView>,
    ty: TypeView,
    d: Declared,
)
    requires
        a.len() == b.len(),
        forall|i: int| 0 <= i < a.len() ==> (#[trigger] a[i]).ty == b[i].ty,
        call_fits(name, a, ty, d),
    ensures
        call_fits(name, b, ty, d),
{
    assert forall|i: int| 0 <= i < b.len() implies (#[trigger] b[i]).ty == a[i].ty by {
        assert(a[i].ty == b[i].ty);
    }
}

/// Whether a key is that of a pattern.
pub open spec fn key_fits(pattern: PatternView, key: ArmKeyView) -> bool {
    match pattern {
        PatternView::Bool(b) => key.int_value == Some(if b {
            1i128
        } else {
            0i128
        }),
        PatternView::Variant { variant, .. } => key.variant == variant,
        PatternView::VariantWithBinding { variant, .. } => key.variant == variant,
        _ => true,
    }
}

/// A field that is found in a declaration stands there.
pub broadcast proof fn found_field_is_declared(fs: Seq<(Seq<char>, TypeView)>, name: Seq<char>)
    ensures
        (#[trigger] crate::scope::find_field_spec(fs, name, None, 0)) matches Some((k, t)) ==> (fs.len() <= u32::MAX ==> k
            < fs.len() && fs[k as int] == (name, t)),
{
    found_from(fs, name, 0);
}

proof fn found_from(fs: Seq<(Seq<char>, TypeView)>, name: Seq<char>, i: int)
    requires
        0 <= i <= fs.len(),
    ensures
        crate::scope::find_field_spec(
            fs,
            name,
            None,
            i,
        ) matches Some((k, t)) ==> (fs.len() <= u32::MAX ==> k < fs.len()
            && fs[k as int] == (name, t)),
    decreases fs.len() - i,
{
    reveal_with_fuel(crate::scope::find_field_spec, 2);
    if i < fs.len() {
        found_from(fs, name, i + 1);
    }
}

/// A name that is found in a list stands there.
pub broadcast proof fn found_name_is_listed(names: Seq<Seq<char>>, name: Seq<char>)
    ensures
        (#[trigger] crate::scope::name_position_spec(names, name, None, 0)) matches Some(k)
            ==> 0 <= k < names.len()
            && names[k]
            == name,
{
    listed_from(names, name, 0);
}

proof fn listed_from(names: Seq<Seq<char>>, name: Seq<char>, i: int)
    requires
        0 <= i <= names.len(),
    ensures
        crate::scope::name_position_spec(names, name, None, i) matches Some(k)
            ==> 0 <= k < names.len()
            && names[k] == name,
    decreases names.len() - i,
{
    reveal_with_fuel(crate::scope::name_position_spec, 2);
    if i < names.len() {
        listed_from(names, name, i + 1);
    }
}

} // verus!
