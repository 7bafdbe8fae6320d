//! The constant emitter: top-level constants become host constant or static
//! read-only declarations.

use vstd::prelude::*;

use crate::env::{named_cs, spec_named_cs, AliasEntry, TypeEntry};
use crate::mapping::{elem_cs, field_cs, spec_elem_cs, spec_field_cs, MapErr};
use crate::text::{dec_i64, spec_dec_int, spec_lower_camel, to_lower_camel};
use crate::types::{ConstDecl, ConstField, ConstScalar, ConstValue, RustType};

verus! {

/// The host rendering of a scalar constant value.
pub open spec fn spec_scalar_text(v: ConstScalar) -> Seq<char> {
    match v {
        ConstScalar::Int(i) => spec_dec_int(i as int),
        ConstScalar::Bool(b) => if b {
            "true"@
        } else {
            "false"@
        },
        ConstScalar::Str(s) => "\""@ + s@ + "\""@,
    }
}

pub fn scalar_text(v: &ConstScalar) -> (r: String)
    ensures
        r@ == spec_scalar_text(*v),
{
    match v {
        ConstScalar::Int(i) => dec_i64(*i),
        ConstScalar::Bool(b) => {
            if *b {
                String::from_str("true")
            } else {
                String::from_str("false")
            }
        },
        ConstScalar::Str(s) => {
            let mut out = String::from_str("\"");
            out.append(s.as_str());
            out.append("\"");
            proof {
                assert(out@ =~= spec_scalar_text(*v));
            }
            out
        },
    }
}

/// The comma-separated renderings of the scalar elements of an array value.
pub open spec fn spec_scalars_join(vs: Seq<ConstScalar>) -> Seq<char>
    decreases vs.len(),
{
    if vs.len() == 0 {
        Seq::<char>::empty()
    } else if vs.len() == 1 {
        spec_scalar_text(vs[0])
    } else {
        spec_scalar_text(vs[0]) + ", "@ + spec_scalars_join(vs.skip(1))
    }
}

fn scalars_join(vs: &Vec<ConstScalar>) -> (r: String)
    ensures
        r@ == spec_scalars_join(vs@),
{
    let mut out = String::new();
    let mut i: usize = 0;
    proof {
        assert(vs@.skip(0) =~= vs@);
        assert(out@ + spec_scalars_join(vs@) =~= spec_scalars_join(vs@));
    }
    while i < vs.len()
        invariant
            i <= vs@.len(),
            out@ + spec_scalars_join(vs@.skip(i as int)) == spec_scalars_join(vs@),
        decreases vs@.len() - i,
    {
        let ghost old_out = out@;
        let t = scalar_text(&vs[i]);
        out.append(t.as_str());
        if i + 1 < vs.len() {
            out.append(", ");
        }
        proof {
            assert(vs@.skip(i as int)[0] == vs@[i as int]);
            assert(vs@.skip(i as int).skip(1) =~= vs@.skip(i as int + 1));
            assert(vs@.skip(i as int).len() > 1 ==> out@ + spec_scalars_join(
                vs@.skip(i as int + 1),
            ) =~= old_out + spec_scalars_join(vs@.skip(i as int)));
            assert(vs@.skip(i as int).len() == 1 ==> out@ + spec_scalars_join(
                vs@.skip(i as int + 1),
            ) =~= old_out + spec_scalars_join(vs@.skip(i as int)));
        }
        i = i + 1;
    }
    out
}

/// The comma-separated field initialisers of a struct-literal value, field
/// names passed through the camelCase transformer.
pub open spec fn spec_const_fields_join(fs: Seq<ConstField>) -> Seq<char>
    decreases fs.len(),
{
    if fs.len() == 0 {
        Seq::<char>::empty()
    } else if fs.len() == 1 {
        spec_lower_camel(fs[0].name@) + " = "@ + spec_scalar_text(fs[0].value)
    } else {
        spec_lower_camel(fs[0].name@) + " = "@ + spec_scalar_text(fs[0].value) + ", "@
            + spec_const_fields_join(fs.skip(1))
    }
}

fn const_fields_join(fs: &Vec<ConstField>) -> (r: String)
    ensures
        r@ == spec_const_fields_join(fs@),
{
    let mut out = String::new();
    let mut i: usize = 0;
    proof {
        assert(fs@.skip(0) =~= fs@);
        assert(out@ + spec_const_fields_join(fs@) =~= spec_const_fields_join(fs@));
    }
    while i < fs.len()
        invariant
            i <= fs@.len(),
            out@ + spec_const_fields_join(fs@.skip(i as int)) == spec_const_fields_join(fs@),
        decreases fs@.len() - i,
    {
        let ghost old_out = out@;
        let n = to_lower_camel(fs[i].name.as_str());
        out.append(n.as_str());
        out.append(" = ");
        let t = scalar_text(&fs[i].value);
        out.append(t.as_str());
        if i + 1 < fs.len() {
            out.append(", ");
        }
        proof {
            assert(fs@.skip(i as int)[0] == fs@[i as int]);
            assert(fs@.skip(i as int).skip(1) =~= fs@.skip(i as int + 1));
            assert(fs@.skip(i as int).len() > 1 ==> out@ + spec_const_fields_join(
                fs@.skip(i as int + 1),
            ) =~= old_out + spec_const_fields_join(fs@.skip(i as int)));
            assert(fs@.skip(i as int).len() == 1 ==> out@ + spec_const_fields_join(
                fs@.skip(i as int + 1),
            ) =~= old_out + spec_const_fields_join(fs@.skip(i as int)));
        }
        i = i + 1;
    }
    out
}

/// Whether a constant declaration has a mapping rule.
pub open spec fn spec_const_ok(
    aliases: Seq<AliasEntry>,
    types: Seq<TypeEntry>,
    d: ConstDecl,
) -> bool {
    match d.value {
        ConstValue::Scalar(_) => spec_field_cs(aliases, types, d.ty) is Some,
        ConstValue::NullCharPtr => spec_field_cs(aliases, types, d.ty) is Some,
        ConstValue::Array(_) => match d.ty {
            RustType::Array { elem, .. } => spec_elem_cs(aliases, types, *elem) is Some,
            _ => false,
        },
        ConstValue::StructLit { .. } => true,
        ConstValue::StructRef { .. } => true,
    }
}

/// A struct-literal static read-only instance line.
pub open spec fn spec_struct_const_line(
    types: Seq<TypeEntry>,
    name: Seq<char>,
    ty_name: Seq<char>,
    fs: Seq<ConstField>,
) -> Seq<char> {
    "        public static readonly "@ + spec_named_cs(types, ty_name) + " "@ + name + " = new "@
        + spec_named_cs(types, ty_name) + " { "@ + spec_const_fields_join(fs) + " };\n"@
}

/// One emitted constant line; constant names pass through unchanged.
pub open spec fn spec_const_frag(
    aliases: Seq<AliasEntry>,
    types: Seq<TypeEntry>,
    d: ConstDecl,
) -> Seq<char> {
    match d.value {
        ConstValue::Scalar(v) => match spec_field_cs(aliases, types, d.ty) {
            Some(p) => "        public const "@ + p.0 + " "@ + d.name@ + " = "@
                + spec_scalar_text(v) + ";\n"@,
            None => Seq::<char>::empty(),
        },
        ConstValue::NullCharPtr => match spec_field_cs(aliases, types, d.ty) {
            Some(p) => "        public const "@ + p.0 + " "@ + d.name@ + " = \"\";\n"@,
            None => Seq::<char>::empty(),
        },
        ConstValue::Array(vs) => match d.ty {
            RustType::Array { elem, .. } => match spec_elem_cs(aliases, types, *elem) {
                Some(e) => "        public static readonly "@ + e + "[] "@ + d.name@ + " = new "@
                    + e + "[] { "@ + spec_scalars_join(vs@) + " };\n"@,
                None => Seq::<char>::empty(),
            },
            _ => Seq::<char>::empty(),
        },
        ConstValue::StructLit { ty_name, fields } => spec_struct_const_line(
            types,
            d.name@,
            ty_name@,
            fields@,
        ),
        ConstValue::StructRef { ty_name, fields } => spec_struct_const_line(
            types,
            d.name@,
            ty_name@,
            fields@,
        ),
    }
}

fn struct_const_line(
    types: &Vec<TypeEntry>,
    name: &String,
    ty_name: &String,
    fs: &Vec<ConstField>,
) -> (r: String)
    ensures
        r@ == spec_struct_const_line(types@, name@, ty_name@, fs@),
{
    let mut out = String::from_str("        public static readonly ");
    let t = named_cs(types, ty_name);
    out.append(t.as_str());
    out.append(" ");
    out.append(name.as_str());
    out.append(" = new ");
    out.append(t.as_str());
    out.append(" { ");
    let j = const_fields_join(fs);
    out.append(j.as_str());
    out.append(" };\n");
    proof {
        assert(out@ =~= spec_struct_const_line(types@, name@, ty_name@, fs@));
    }
    out
}

/// Emit one top-level constant declaration.
pub fn const_fragment(
    aliases: &Vec<AliasEntry>,
    types: &Vec<TypeEntry>,
    d: &ConstDecl,
) -> (r: Result<String, MapErr>)
    ensures
        match r {
            Ok(s) => spec_const_ok(aliases@, types@, *d) && s@ == spec_const_frag(
                aliases@,
                types@,
                *d,
            ),
            Err(_) => !spec_const_ok(aliases@, types@, *d),
        },
{
    match &d.value {
        ConstValue::Scalar(v) => match field_cs(aliases, types, &d.ty) {
            Err(e) => Err(e),
            Ok(p) => {
                let mut out = String::from_str("        public const ");
                out.append(p.0.as_str());
                out.append(" ");
                out.append(d.name.as_str());
                out.append(" = ");
                let t = scalar_text(v);
                out.append(t.as_str());
                out.append(";\n");
                proof {
                    assert(out@ =~= spec_const_frag(aliases@, types@, *d));
                }
                Ok(out)
            },
        },
        ConstValue::NullCharPtr => match field_cs(aliases, types, &d.ty) {
            Err(e) => Err(e),
            Ok(p) => {
                let mut out = String::from_str("        public const ");
                out.append(p.0.as_str());
                out.append(" ");
                out.append(d.name.as_str());
                out.append(" = \"\";\n");
                proof {
                    assert(out@ =~= spec_const_frag(aliases@, types@, *d));
                }
                Ok(out)
            },
        },
        ConstValue::Array(vs) => match &d.ty {
            RustType::Array { elem, .. } => match elem_cs(aliases, types, &*elem) {
                Err(e) => Err(e),
                Ok(en) => {
                    let mut out = String::from_str("        public static readonly ");
                    out.append(en.as_str());
                    out.append("[] ");
                    out.append(d.name.as_str());
                    out.append(" = new ");
                    out.append(en.as_str());
                    out.append("[] { ");
                    let j = scalars_join(vs);
                    out.append(j.as_str());
                    out.append(" };\n");
                    proof {
                        assert(out@ =~= spec_const_frag(aliases@, types@, *d));
                    }
                    Ok(out)
                },
            },
            _ => Err(MapErr::Unsupported),
        },
        ConstValue::StructLit { ty_name, fields } => Ok(
            struct_const_line(types, &d.name, ty_name, fields),
        ),
        ConstValue::StructRef { ty_name, fields } => Ok(
            struct_const_line(types, &d.name, ty_name, fields),
        ),
    }
}

/// One externally registered constant, appended verbatim after the
/// source-derived constants.
pub open spec fn spec_custom_const_line(ty: Seq<char>, name: Seq<char>, value: Seq<char>) -> Seq<
    char,
> {
    "        public const "@ + ty + " "@ + name + " = "@ + value + ";\n"@
}

/// Emit one externally registered constant.
pub fn custom_const_line(ty: &String, name: &String, value: &String) -> (r: String)
    ensures
        r@ == spec_custom_const_line(ty@, name@, value@),
{
    let mut out = String::from_str("        public const ");
    out.append(ty.as_str());
    out.append(" ");
    out.append(name.as_str());
    out.append(" = ");
    out.append(value.as_str());
    out.append(";\n");
    proof {
        assert(out@ =~= spec_custom_const_line(ty@, name@, value@));
    }
    out
}

} // verus!
