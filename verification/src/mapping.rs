//! The type mapping engine: from a resolved source type to a host type name
//! and an optional marshaling directive.

use vstd::prelude::*;

use crate::env::{
    chase, named_cs, spec_chase, spec_named_cs, AliasEntry, TypeEntry,
};
use crate::text::{dec_u64, spec_dec_nat, spec_upper_camel, to_upper_camel};
use crate::types::{ArrayLen, Prim, RustType};

verus! {

/// Why a shape could not be mapped.
#[derive(Clone, Copy, PartialEq, Eq, Structural, Debug)]
pub enum MapErr {
    /// An alias chain did not resolve (a cyclic alias).
    Unresolved,
    /// A resolved shape that has no mapping rule.
    Unsupported,
    /// A callback whose payload shape cannot be classified.
    CallbackShape,
}

/// The fixed-width host equivalent of a primitive type.
pub open spec fn spec_prim_cs(p: Prim) -> Seq<char> {
    match p {
        Prim::U8 => "byte"@,
        Prim::I8 => "sbyte"@,
        Prim::U16 => "ushort"@,
        Prim::I16 => "short"@,
        Prim::U32 => "uint"@,
        Prim::I32 => "int"@,
        Prim::U64 => "ulong"@,
        Prim::I64 => "long"@,
        Prim::USize => "ulong"@,
        Prim::ISize => "long"@,
        Prim::Bool => "bool"@,
        Prim::CChar => "sbyte"@,
        Prim::CVoid => "void"@,
    }
}

pub fn prim_cs(p: Prim) -> (r: &'static str)
    ensures
        r@ == spec_prim_cs(p),
{
    match p {
        Prim::U8 => "byte",
        Prim::I8 => "sbyte",
        Prim::U16 => "ushort",
        Prim::I16 => "short",
        Prim::U32 => "uint",
        Prim::I32 => "int",
        Prim::U64 => "ulong",
        Prim::I64 => "long",
        Prim::USize => "ulong",
        Prim::ISize => "long",
        Prim::Bool => "bool",
        Prim::CChar => "sbyte",
        Prim::CVoid => "void",
    }
}

/// The name segment a primitive contributes to a derived delegate name.
pub open spec fn spec_prim_seg(p: Prim) -> Seq<char> {
    match p {
        Prim::U8 => "Byte"@,
        Prim::I8 => "SByte"@,
        Prim::U16 => "UShort"@,
        Prim::I16 => "Short"@,
        Prim::U32 => "UInt"@,
        Prim::I32 => "Int"@,
        Prim::U64 => "ULong"@,
        Prim::I64 => "Long"@,
        Prim::USize => "ULong"@,
        Prim::ISize => "Long"@,
        Prim::Bool => "Bool"@,
        Prim::CChar => "SByte"@,
        Prim::CVoid => "Void"@,
    }
}

pub fn prim_seg(p: Prim) -> (r: &'static str)
    ensures
        r@ == spec_prim_seg(p),
{
    match p {
        Prim::U8 => "Byte",
        Prim::I8 => "SByte",
        Prim::U16 => "UShort",
        Prim::I16 => "Short",
        Prim::U32 => "UInt",
        Prim::I32 => "Int",
        Prim::U64 => "ULong",
        Prim::I64 => "Long",
        Prim::USize => "ULong",
        Prim::ISize => "Long",
        Prim::Bool => "Bool",
        Prim::CChar => "SByte",
        Prim::CVoid => "Void",
    }
}

/// The size expression of a size-constrained marshaling directive: a literal
/// size stays literal; a named constant is preserved symbolically as a
/// cast-to-integer reference into the constants class.
pub open spec fn spec_size_expr(l: ArrayLen) -> Seq<char> {
    match l {
        ArrayLen::Lit(n) => spec_dec_nat(n as nat),
        ArrayLen::Named(c) => "(int) Constants."@ + c@,
    }
}

pub fn size_expr(l: &ArrayLen) -> (r: String)
    ensures
        r@ == spec_size_expr(*l),
{
    match l {
        ArrayLen::Lit(n) => dec_u64(*n),
        ArrayLen::Named(c) => {
            let mut s = String::from_str("(int) Constants.");
            s.append(c.as_str());
            s
        },
    }
}

/// The fixed-size-array marshaling directive.
pub open spec fn spec_byval(l: ArrayLen) -> Seq<char> {
    "UnmanagedType.ByValArray, SizeConst = "@ + spec_size_expr(l)
}

pub fn byval(l: &ArrayLen) -> (r: String)
    ensures
        r@ == spec_byval(*l),
{
    let mut s = String::from_str("UnmanagedType.ByValArray, SizeConst = ");
    let e = size_expr(l);
    s.append(e.as_str());
    s
}

/// The element type name of an array, after alias resolution: a primitive or
/// a named type; any other element shape has no mapping rule.
pub open spec fn spec_elem_cs(
    aliases: Seq<AliasEntry>,
    types: Seq<TypeEntry>,
    elem: RustType,
) -> Option<Seq<char>> {
    match spec_chase(aliases, elem, aliases.len() + 1) {
        None => None,
        Some(e) => match e {
            RustType::Prim(p) => if p == Prim::CVoid {
                None
            } else {
                Some(spec_prim_cs(p))
            },
            RustType::Named(n) => Some(spec_named_cs(types, n@)),
            _ => None,
        },
    }
}

pub fn elem_cs(aliases: &Vec<AliasEntry>, types: &Vec<TypeEntry>, elem: &RustType) -> (r: Result<
    String,
    MapErr,
>)
    ensures
        match r {
            Ok(s) => spec_elem_cs(aliases@, types@, *elem) == Some(s@),
            Err(_) => spec_elem_cs(aliases@, types@, *elem) is None,
        },
{
    match chase(aliases, elem) {
        None => Err(MapErr::Unresolved),
        Some(e) => match e {
            RustType::Prim(p) => if p == Prim::CVoid {
                Err(MapErr::Unsupported)
            } else {
                Ok(String::from_str(prim_cs(p)))
            },
            RustType::Named(n) => Ok(named_cs(types, &n)),
            _ => Err(MapErr::Unsupported),
        },
    }
}

/// Map a struct field type to its host type name and marshaling directive
/// (the empty directive means none).  Booleans carry a single-byte directive,
/// constant strings a null-terminated one, raw pointers become bare address
/// holders, and fixed arrays carry a size-constrained directive.
pub open spec fn spec_field_cs(
    aliases: Seq<AliasEntry>,
    types: Seq<TypeEntry>,
    t: RustType,
) -> Option<(Seq<char>, Seq<char>)> {
    match spec_chase(aliases, t, aliases.len() + 1) {
        None => None,
        Some(rt) => match rt {
            RustType::Prim(p) => if p == Prim::CVoid {
                None
            } else if p == Prim::Bool {
                Some(("bool"@, "UnmanagedType.U1"@))
            } else {
                Some((spec_prim_cs(p), Seq::<char>::empty()))
            },
            RustType::Named(n) => Some((spec_named_cs(types, n@), Seq::<char>::empty())),
            RustType::Ptr { target, .. } => match spec_chase(aliases, *target, aliases.len() + 1) {
                None => None,
                Some(pt) => match pt {
                    RustType::Prim(p) => if p == Prim::CChar {
                        Some(("String"@, "UnmanagedType.LPStr"@))
                    } else {
                        Some(("IntPtr"@, Seq::<char>::empty()))
                    },
                    _ => Some(("IntPtr"@, Seq::<char>::empty())),
                },
            },
            RustType::Array { elem, len } => match spec_elem_cs(aliases, types, *elem) {
                None => None,
                Some(e) => Some((e + "[]"@, spec_byval(len))),
            },
        },
    }
}

pub fn field_cs(aliases: &Vec<AliasEntry>, types: &Vec<TypeEntry>, t: &RustType) -> (r: Result<
    (String, String),
    MapErr,
>)
    ensures
        match r {
            Ok(p) => spec_field_cs(aliases@, types@, *t) == Some((p.0@, p.1@)),
            Err(_) => spec_field_cs(aliases@, types@, *t) is None,
        },
{
    match chase(aliases, t) {
        None => Err(MapErr::Unresolved),
        Some(rt) => match rt {
            RustType::Prim(p) => if p == Prim::CVoid {
                Err(MapErr::Unsupported)
            } else if p == Prim::Bool {
                Ok((String::from_str("bool"), String::from_str("UnmanagedType.U1")))
            } else {
                Ok((String::from_str(prim_cs(p)), String::new()))
            },
            RustType::Named(n) => Ok((named_cs(types, &n), String::new())),
            RustType::Ptr { target, .. } => match chase(aliases, &*target) {
                None => Err(MapErr::Unresolved),
                Some(pt) => {
                    let is_cchar = match &pt {
                        RustType::Prim(p) => *p == Prim::CChar,
                        _ => false,
                    };
                    if is_cchar {
                        Ok((String::from_str("String"), String::from_str("UnmanagedType.LPStr")))
                    } else {
                        Ok((String::from_str("IntPtr"), String::new()))
                    }
                },
            },
            RustType::Array { elem, len } => match elem_cs(aliases, types, &elem) {
                Err(e) => Err(e),
                Ok(en) => {
                    let mut ty = en;
                    ty.append("[]");
                    Ok((ty, byval(&len)))
                },
            },
        },
    }
}

} // verus!
