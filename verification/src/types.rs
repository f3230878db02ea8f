//! Questions about types: kind, width, range, copying and equality.

use vstd::prelude::*;
use crate::ast::{Type, TypeView};
use crate::text::{contains_str, str_eq};

verus! {

broadcast use {crate::text::group_text_views, crate::ast::group_ast_views};

/// Whether two types are the same.
pub fn type_eq(a: &Type, b: &Type) -> (r: bool)
    ensures
        r == (a@ == b@),
    decreases a,
{
    match (a, b) {
        (Type::I8, Type::I8) => true,
        (Type::I16, Type::I16) => true,
        (Type::I32, Type::I32) => true,
        (Type::I64, Type::I64) => true,
        (Type::U8, Type::U8) => true,
        (Type::U16, Type::U16) => true,
        (Type::U32, Type::U32) => true,
        (Type::U64, Type::U64) => true,
        (Type::F32, Type::F32) => true,
        (Type::F64, Type::F64) => true,
        (Type::Bool, Type::Bool) => true,
        (Type::Str, Type::Str) => true,
        (Type::OwnedStr, Type::OwnedStr) => true,
        (Type::Task, Type::Task) => true,
        (Type::Struct(x), Type::Struct(y)) => str_eq(x, y),
        (Type::Enum(x), Type::Enum(y)) => str_eq(x, y),
        (Type::Param(x), Type::Param(y)) => str_eq(x, y),
        (Type::Vec(x), Type::Vec(y)) => type_eq(x, y),
        (Type::Ref(x), Type::Ref(y)) => type_eq(x, y),
        (Type::RefMut(x), Type::RefMut(y)) => type_eq(x, y),
        (Type::Atomic(x), Type::Atomic(y)) => type_eq(x, y),
        (Type::Mutex(x), Type::Mutex(y)) => type_eq(x, y),
        (Type::Guard(x), Type::Guard(y)) => type_eq(x, y),
        (Type::Array { element: x, length: m }, Type::Array { element: y, length: n }) => type_eq(
            x,
            y,
        ) && *m == *n,
        (Type::Channel(x, m), Type::Channel(y, n)) => type_eq(x, y) && *m == *n,
        (Type::Tuple(x), Type::Tuple(y)) => types_eq(x, y),
        (Type::FnPtr(x, p), Type::FnPtr(y, q)) => types_eq(x, y) && type_eq(p, q),
        _ => false,
    }
}

pub fn types_eq(a: &Vec<Type>, b: &Vec<Type>) -> (r: bool)
    ensures
        r == (crate::ast::types_view(a@) == crate::ast::types_view(b@)),
    decreases a,
{
    if a.len() != b.len() {
        assert(crate::ast::types_view(a@).len() != crate::ast::types_view(b@).len());
        return false;
    }
    let mut i: usize = 0;
    while i < a.len()
        invariant
            i <= a.len(),
            a.len() == b.len(),
            forall|j: int| 0 <= j < i ==> #[trigger] crate::ast::types_view(a@)[j] == crate::ast::types_view(b@)[j],
        decreases a.len() - i,
    {
        if !type_eq(&a[i], &b[i]) {
            assert(crate::ast::types_view(a@)[i as int] != crate::ast::types_view(b@)[i as int]);
            return false;
        }
        i += 1;
    }
    assert(crate::ast::types_view(a@) =~= crate::ast::types_view(b@));
    true
}

/// What [`is_ref`] computes.
pub open spec fn is_ref_spec(t: TypeView) -> bool
{
    t is Ref
}

pub fn is_ref(t: &Type) -> (r: bool)
    ensures
        r == is_ref_spec(t@),
{
    match t {
        Type::Ref(_) => true,
        _ => false,
    }
}

/// What [`is_ref_mut`] computes.
pub open spec fn is_ref_mut_spec(t: TypeView) -> bool
{
    t is RefMut
}

pub fn is_ref_mut(t: &Type) -> (r: bool)
    ensures
        r == is_ref_mut_spec(t@),
{
    match t {
        Type::RefMut(_) => true,
        _ => false,
    }
}

/// What [`is_any_ref`] computes.
pub open spec fn is_any_ref_spec(t: TypeView) -> bool
{
    is_ref_spec(t) || is_ref_mut_spec(t)
}

pub fn is_any_ref(t: &Type) -> (r: bool)
    ensures
        r == is_any_ref_spec(t@),
{
    is_ref(t) || is_ref_mut(t)
}

/// What [`is_array`] computes.
pub open spec fn is_array_spec(t: TypeView) -> bool
{
    t is Array
}

pub fn is_array(t: &Type) -> (r: bool)
    ensures
        r == is_array_spec(t@),
{
    match t {
        Type::Array { .. } => true,
        _ => false,
    }
}

/// What [`is_vec`] computes.
pub open spec fn is_vec_spec(t: TypeView) -> bool
{
    t is Vec
}

pub fn is_vec(t: &Type) -> (r: bool)
    ensures
        r == is_vec_spec(t@),
{
    match t {
        Type::Vec(_) => true,
        _ => false,
    }
}

/// What [`is_bool`] computes.
pub open spec fn is_bool_spec(t: TypeView) -> bool
{
    t is Bool
}

pub fn is_bool(t: &Type) -> (r: bool)
    ensures
        r == is_bool_spec(t@),
{
    match t {
        Type::Bool => true,
        _ => false,
    }
}

/// What [`is_i64`] computes.
pub open spec fn is_i64_spec(t: TypeView) -> bool
{
    t is I64
}

pub fn is_i64(t: &Type) -> (r: bool)
    ensures
        r == is_i64_spec(t@),
{
    match t {
        Type::I64 => true,
        _ => false,
    }
}

/// What [`is_u64`] computes.
pub open spec fn is_u64_spec(t: TypeView) -> bool
{
    t is U64
}

pub fn is_u64(t: &Type) -> (r: bool)
    ensures
        r == is_u64_spec(t@),
{
    match t {
        Type::U64 => true,
        _ => false,
    }
}

/// What [`is_str`] computes.
pub open spec fn is_str_spec(t: TypeView) -> bool
{
    t is Str
}

pub fn is_str(t: &Type) -> (r: bool)
    ensures
        r == is_str_spec(t@),
{
    match t {
        Type::Str => true,
        _ => false,
    }
}

/// What [`is_owned_str`] computes.
pub open spec fn is_owned_str_spec(t: TypeView) -> bool
{
    t is OwnedStr
}

pub fn is_owned_str(t: &Type) -> (r: bool)
    ensures
        r == is_owned_str_spec(t@),
{
    match t {
        Type::OwnedStr => true,
        _ => false,
    }
}

/// What [`is_task`] computes.
pub open spec fn is_task_spec(t: TypeView) -> bool
{
    t is Task
}

pub fn is_task(t: &Type) -> (r: bool)
    ensures
        r == is_task_spec(t@),
{
    match t {
        Type::Task => true,
        _ => false,
    }
}

/// What [`is_struct`] computes.
pub open spec fn is_struct_spec(t: TypeView) -> bool
{
    t is Struct
}

pub fn is_struct(t: &Type) -> (r: bool)
    ensures
        r == is_struct_spec(t@),
{
    match t {
        Type::Struct(_) => true,
        _ => false,
    }
}

/// What [`is_signed_integer`] computes.
pub open spec fn is_signed_integer_spec(t: TypeView) -> bool
{
    t is I8 || t is I16 || t is I32 || t is I64
}

pub fn is_signed_integer(t: &Type) -> (r: bool)
    ensures
        r == is_signed_integer_spec(t@),
{
    match t {
        Type::I8 | Type::I16 | Type::I32 | Type::I64 => true,
        _ => false,
    }
}

/// What [`is_unsigned_integer`] computes.
pub open spec fn is_unsigned_integer_spec(t: TypeView) -> bool
{
    t is U8 || t is U16 || t is U32 || t is U64
}

pub fn is_unsigned_integer(t: &Type) -> (r: bool)
    ensures
        r == is_unsigned_integer_spec(t@),
{
    match t {
        Type::U8 | Type::U16 | Type::U32 | Type::U64 => true,
        _ => false,
    }
}

/// What [`is_integer`] computes.
pub open spec fn is_integer_spec(t: TypeView) -> bool
{
    is_signed_integer_spec(t) || is_unsigned_integer_spec(t)
}

pub fn is_integer(t: &Type) -> (r: bool)
    ensures
        r == is_integer_spec(t@),
{
    is_signed_integer(t) || is_unsigned_integer(t)
}

/// What [`is_float`] computes.
pub open spec fn is_float_spec(t: TypeView) -> bool
{
    t is F32 || t is F64
}

pub fn is_float(t: &Type) -> (r: bool)
    ensures
        r == is_float_spec(t@),
{
    match t {
        Type::F32 | Type::F64 => true,
        _ => false,
    }
}

/// What [`is_numeric`] computes.
pub open spec fn is_numeric_spec(t: TypeView) -> bool
{
    is_integer_spec(t) || is_float_spec(t)
}

pub fn is_numeric(t: &Type) -> (r: bool)
    ensures
        r == is_numeric_spec(t@),
{
    is_integer(t) || is_float(t)
}

/// What [`type_bits`] computes.
pub open spec fn type_bits_spec(t: TypeView) -> Option<u16>
{
    match t {
        TypeView::I8 | TypeView::U8 => Some(8),
        TypeView::I16 | TypeView::U16 => Some(16),
        TypeView::I32 | TypeView::U32 | TypeView::F32 => Some(32),
        TypeView::I64 | TypeView::U64 | TypeView::F64 => Some(64),
        _ => None,
    }
}

/// The width of a numeric type.
pub fn type_bits(t: &Type) -> (r: Option<u16>)
    ensures
        r == type_bits_spec(t@),
{
    match t {
        Type::I8 | Type::U8 => Some(8),
        Type::I16 | Type::U16 => Some(16),
        Type::I32 | Type::U32 | Type::F32 => Some(32),
        Type::I64 | Type::U64 | Type::F64 => Some(64),
        _ => None,
    }
}

/// What [`min_value`] computes.
pub open spec fn min_value_spec(t: TypeView) -> Option<i128>
{
    match t {
        TypeView::I8 => Some((-128) as i128),
        TypeView::I16 => Some((-32768) as i128),
        TypeView::I32 => Some((-2147483648) as i128),
        TypeView::I64 => Some((-9223372036854775808) as i128),
        TypeView::U8 | TypeView::U16 | TypeView::U32 | TypeView::U64 => Some(0),
        _ => None,
    }
}

/// The least value of an integer type.
pub fn min_value(t: &Type) -> (r: Option<i128>)
    ensures
        r == min_value_spec(t@),
{
    match t {
        Type::I8 => Some((-128) as i128),
        Type::I16 => Some((-32768) as i128),
        Type::I32 => Some((-2147483648) as i128),
        Type::I64 => Some((-9223372036854775808) as i128),
        Type::U8 | Type::U16 | Type::U32 | Type::U64 => Some(0),
        _ => None,
    }
}

/// What [`max_value`] computes.
pub open spec fn max_value_spec(t: TypeView) -> Option<i128>
{
    match t {
        TypeView::I8 => Some(127),
        TypeView::I16 => Some(32767),
        TypeView::I32 => Some(2147483647),
        TypeView::I64 => Some(9223372036854775807),
        TypeView::U8 => Some(255),
        TypeView::U16 => Some(65535),
        TypeView::U32 => Some(4294967295),
        TypeView::U64 => Some(18446744073709551615),
        _ => None,
    }
}

/// The greatest value of an integer type.
pub fn max_value(t: &Type) -> (r: Option<i128>)
    ensures
        r == max_value_spec(t@),
{
    match t {
        Type::I8 => Some(127),
        Type::I16 => Some(32767),
        Type::I32 => Some(2147483647),
        Type::I64 => Some(9223372036854775807),
        Type::U8 => Some(255),
        Type::U16 => Some(65535),
        Type::U32 => Some(4294967295),
        Type::U64 => Some(18446744073709551615),
        _ => None,
    }
}

/// What [`deref`] computes.
pub open spec fn deref_spec(t: TypeView) -> TypeView
{
    match t {
        TypeView::Ref(inner) => (*inner),
        TypeView::RefMut(inner) => (*inner),
        _ => t,
    }
}

/// The type behind a reference; any other type itself.
pub fn deref(t: &Type) -> (r: Type)
    ensures
        r@ == deref_spec(t@),
{
    match t {
        Type::Ref(inner) => (**inner).dup(),
        Type::RefMut(inner) => (**inner).dup(),
        _ => t.dup(),
    }
}

/// What [`is_copy`] computes.
pub open spec fn is_copy_spec(t: TypeView, structs: Seq<Seq<char>>, enums: Seq<Seq<char>>) -> bool
{
    match t {
        TypeView::Vec(_) | TypeView::OwnedStr | TypeView::Array { .. } | TypeView::Task | TypeView::Atomic(_)
        | TypeView::Mutex(_) | TypeView::Guard(_) | TypeView::Channel(_, _) => false,
        TypeView::Struct(name) => !structs.contains(name),
        TypeView::Enum(name) => !enums.contains(name),
        _ => true,
    }
}

/// Whether values of the type are copied rather than moved, given the names of
/// the structs and enums that own something.
pub fn is_copy(t: &Type, structs: &Vec<String>, enums: &Vec<String>) -> (r: bool)
    ensures
        r == is_copy_spec(t@, crate::text::strs_view(structs@), crate::text::strs_view(enums@)),
{
    match t {
        Type::Vec(_) | Type::OwnedStr | Type::Array { .. } | Type::Task | Type::Atomic(_)
        | Type::Mutex(_) | Type::Guard(_) | Type::Channel(_, _) => false,
        Type::Struct(name) => !contains_str(structs, name),
        Type::Enum(name) => !contains_str(enums, name),
        _ => true,
    }
}

/// What [`nominal_name`] computes.
pub open spec fn nominal_name_spec(t: TypeView) -> Option<Seq<char>>
{
    match t {
        TypeView::Struct(name) => Some(name),
        TypeView::Enum(name) => Some(name),
        _ => None,
    }
}

/// The name of a struct or enum type.
pub fn nominal_name(t: &Type) -> (r: Option<String>)
    ensures
        (match &r { Some(v0) => Some(v0@), None => None }) == nominal_name_spec(t@),
{
    match t {
        Type::Struct(name) => Some(name.clone()),
        Type::Enum(name) => Some(name.clone()),
        _ => None,
    }
}

} // verus!
