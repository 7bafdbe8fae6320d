//! The struct and enum emitter: C-layout structs and C-ABI enums become host
//! type declarations, with dynamic-array detection on struct fields.

use vstd::prelude::*;

use crate::env::{AliasEntry, TypeEntry};
use crate::mapping::{field_cs, spec_field_cs, MapErr};
use crate::text::{
    dec_i64, is_ptr_name, ptr_base, ptr_base_name, spec_dec_int, spec_upper_camel, to_upper_camel,
};
use crate::types::{EnumDecl, Field, Prim, RustType, StructDecl, Variant};

verus! {

/// Whether fields `a` and `b`, standing adjacently in that order, form a
/// `<base>_ptr` / `<base>_len` pair: the names follow the convention
/// literally, `a` is a pointer and `b` is size-typed.
pub open spec fn spec_is_field_pair(a: Field, b: Field) -> bool {
    &&& is_ptr_name(a.name@)
    &&& b.name@ == ptr_base(a.name@) + "_len"@
    &&& a.ty is Ptr
    &&& b.ty == RustType::Prim(Prim::USize)
}

/// Whether a struct holds at least one dynamic-array field pair.
pub open spec fn spec_has_pair(fields: Seq<Field>) -> bool {
    exists|i: int|
        0 <= i && i + 1 < fields.len() && #[trigger] spec_is_field_pair(fields[i], fields[i + 1])
}

pub fn is_field_pair(a: &Field, b: &Field) -> (r: bool)
    ensures
        r == spec_is_field_pair(*a, *b),
{
    let a_is_ptr = match &a.ty {
        RustType::Ptr { .. } => true,
        _ => false,
    };
    let b_is_size = match &b.ty {
        RustType::Prim(p) => *p == Prim::USize,
        _ => false,
    };
    if !a_is_ptr || !b_is_size {
        return false;
    }
    match ptr_base_name(a.name.as_str()) {
        None => false,
        Some(base) => {
            let mut expected = base;
            expected.append("_len");
            expected == b.name
        },
    }
}

pub fn has_pair(fields: &Vec<Field>) -> (r: bool)
    ensures
        r == spec_has_pair(fields@),
{
    if fields.len() == 0 {
        return false;
    }
    let mut i: usize = 0;
    while i < fields.len() - 1
        invariant
            fields@.len() > 0,
            i < fields@.len(),
            forall|j: int|
                0 <= j && j + 1 < i + 1 && j + 1 < fields@.len() ==> !#[trigger] spec_is_field_pair(
                    fields@[j],
                    fields@[j + 1],
                ),
        decreases fields@.len() - i,
    {
        if is_field_pair(&fields[i], &fields[i + 1]) {
            return true;
        }
        i = i + 1;
    }
    false
}

/// The emitted type name of a C-layout struct: PascalCase, with the suffix
/// signalling a raw marshaling shape where the struct is dynamically sized.
pub open spec fn spec_struct_cs_name(d: StructDecl) -> Seq<char> {
    if spec_has_pair(d.fields@) {
        spec_upper_camel(d.name@) + "Native"@
    } else {
        spec_upper_camel(d.name@)
    }
}

/// One emitted struct field: an optional marshaling attribute line, then the
/// field declaration.
pub open spec fn spec_field_frag(
    aliases: Seq<AliasEntry>,
    types: Seq<TypeEntry>,
    f: Field,
) -> Seq<char> {
    match spec_field_cs(aliases, types, f.ty) {
        Some(p) => (if p.1.len() > 0 {
            "        [MarshalAs("@ + p.1 + ")]\n"@
        } else {
            Seq::<char>::empty()
        }) + "        public "@ + p.0 + " "@ + spec_upper_camel(f.name@) + ";\n"@,
        None => Seq::<char>::empty(),
    }
}

pub open spec fn spec_fields_frag(
    aliases: Seq<AliasEntry>,
    types: Seq<TypeEntry>,
    fields: Seq<Field>,
) -> Seq<char>
    decreases fields.len(),
{
    if fields.len() == 0 {
        Seq::<char>::empty()
    } else {
        spec_field_frag(aliases, types, fields[0]) + spec_fields_frag(
            aliases,
            types,
            fields.skip(1),
        )
    }
}

/// Whether every field of the struct has a mapping rule.
pub open spec fn spec_fields_ok(
    aliases: Seq<AliasEntry>,
    types: Seq<TypeEntry>,
    fields: Seq<Field>,
) -> bool {
    forall|i: int| 0 <= i < fields.len() ==> spec_field_cs(aliases, types, fields[i].ty) is Some
}

/// The whole emitted struct block, including its trailing blank line.
pub open spec fn spec_struct_frag(
    aliases: Seq<AliasEntry>,
    types: Seq<TypeEntry>,
    d: StructDecl,
) -> Seq<char> {
    "    public struct "@ + spec_struct_cs_name(d) + " {\n"@ + spec_fields_frag(
        aliases,
        types,
        d.fields@,
    ) + "    }\n\n"@
}

/// Emit a C-layout struct declaration; the second result reports whether the
/// struct was dynamically sized.
pub fn struct_fragment(
    aliases: &Vec<AliasEntry>,
    types: &Vec<TypeEntry>,
    d: &StructDecl,
) -> (r: Result<(String, bool), MapErr>)
    ensures
        match r {
            Ok(p) => spec_fields_ok(aliases@, types@, d.fields@) && p.0@ == spec_struct_frag(
                aliases@,
                types@,
                *d,
            ) && p.1 == spec_has_pair(d.fields@),
            Err(_) => !spec_fields_ok(aliases@, types@, d.fields@),
        },
{
    let dynamic = has_pair(&d.fields);
    let mut out = String::from_str("    public struct ");
    let name = to_upper_camel(d.name.as_str());
    out.append(name.as_str());
    if dynamic {
        out.append("Native");
    }
    out.append(" {\n");
    let ghost header = "    public struct "@ + spec_struct_cs_name(*d) + " {\n"@;
    proof {
        assert(out@ =~= header);
    }
    let mut i: usize = 0;
    proof {
        assert(d.fields@.skip(0) =~= d.fields@);
    }
    while i < d.fields.len()
        invariant
            i <= d.fields@.len(),
            forall|j: int|
                0 <= j < i ==> spec_field_cs(aliases@, types@, d.fields@[j].ty) is Some,
            out@ + spec_fields_frag(aliases@, types@, d.fields@.skip(i as int)) == header
                + spec_fields_frag(aliases@, types@, d.fields@),
        decreases d.fields@.len() - i,
    {
        let f = &d.fields[i];
        let ghost old_out = out@;
        match field_cs(aliases, types, &f.ty) {
            Err(e) => {
                return Err(e);
            },
            Ok(p) => {
                let (ty, dir) = p;
                if !dir.as_str().is_empty() {
                    out.append("        [MarshalAs(");
                    out.append(dir.as_str());
                    out.append(")]\n");
                }
                out.append("        public ");
                out.append(ty.as_str());
                out.append(" ");
                let fname = to_upper_camel(f.name.as_str());
                out.append(fname.as_str());
                out.append(";\n");
                proof {
                    assert(out@ =~= old_out + spec_field_frag(aliases@, types@, d.fields@[
                        i as int]));
                    assert(d.fields@.skip(i as int).skip(1) =~= d.fields@.skip(i as int + 1));
                    assert(d.fields@.skip(i as int)[0] == d.fields@[i as int]);
                    assert((old_out + spec_field_frag(aliases@, types@, d.fields@[i as int]))
                        + spec_fields_frag(aliases@, types@, d.fields@.skip(i as int + 1)) =~= old_out
                        + (spec_field_frag(aliases@, types@, d.fields@[i as int])
                        + spec_fields_frag(aliases@, types@, d.fields@.skip(i as int + 1))));
                }
            },
        }
        i = i + 1;
    }
    proof {
        assert(spec_fields_frag(aliases@, types@, d.fields@.skip(d.fields@.len() as int)).len()
            == 0);
        assert(out@ =~= out@ + spec_fields_frag(
            aliases@,
            types@,
            d.fields@.skip(d.fields@.len() as int),
        ));
    }
    out.append("    }\n\n");
    proof {
        assert(out@ =~= spec_struct_frag(aliases@, types@, *d));
    }
    Ok((out, dynamic))
}

/// One emitted enum variant line.
pub open spec fn spec_variant_frag(v: Variant) -> Seq<char> {
    "        "@ + spec_upper_camel(v.name@) + (match v.value {
        Some(x) => " = "@ + spec_dec_int(x as int),
        None => Seq::<char>::empty(),
    }) + ",\n"@
}

pub open spec fn spec_variants_frag(vs: Seq<Variant>) -> Seq<char>
    decreases vs.len(),
{
    if vs.len() == 0 {
        Seq::<char>::empty()
    } else {
        spec_variant_frag(vs[0]) + spec_variants_frag(vs.skip(1))
    }
}

/// The whole emitted enum block, including its trailing blank line.
pub open spec fn spec_enum_frag(d: EnumDecl) -> Seq<char> {
    "    public enum "@ + spec_upper_camel(d.name@) + " {\n"@ + spec_variants_frag(d.variants@)
        + "    }\n\n"@
}

/// Emit a C-ABI enum declaration.
pub fn enum_fragment(d: &EnumDecl) -> (r: String)
    ensures
        r@ == spec_enum_frag(*d),
{
    let mut out = String::from_str("    public enum ");
    let name = to_upper_camel(d.name.as_str());
    out.append(name.as_str());
    out.append(" {\n");
    let ghost header = "    public enum "@ + spec_upper_camel(d.name@) + " {\n"@;
    proof {
        assert(out@ =~= header);
        assert(d.variants@.skip(0) =~= d.variants@);
    }
    let mut i: usize = 0;
    while i < d.variants.len()
        invariant
            i <= d.variants@.len(),
            out@ + spec_variants_frag(d.variants@.skip(i as int)) == header + spec_variants_frag(
                d.variants@,
            ),
        decreases d.variants@.len() - i,
    {
        let v = &d.variants[i];
        let ghost old_out = out@;
        out.append("        ");
        let vname = to_upper_camel(v.name.as_str());
        out.append(vname.as_str());
        match &v.value {
            Some(x) => {
                out.append(" = ");
                let num = dec_i64(*x);
                out.append(num.as_str());
            },
            None => {},
        }
        out.append(",\n");
        proof {
            assert(out@ =~= old_out + spec_variant_frag(d.variants@[i as int]));
            assert(d.variants@.skip(i as int).skip(1) =~= d.variants@.skip(i as int + 1));
            assert(d.variants@.skip(i as int)[0] == d.variants@[i as int]);
            assert((old_out + spec_variant_frag(d.variants@[i as int])) + spec_variants_frag(
                d.variants@.skip(i as int + 1),
            ) =~= old_out + (spec_variant_frag(d.variants@[i as int]) + spec_variants_frag(
                d.variants@.skip(i as int + 1),
            )));
        }
        i = i + 1;
    }
    out.append("    }\n\n");
    proof {
        assert(out@ =~= spec_enum_frag(*d));
    }
    out
}

/// One emitted opaque-handle struct block: a single-pointer-sized wrapper.
pub open spec fn spec_opaque_frag(n: Seq<char>) -> Seq<char> {
    "    public struct "@ + spec_upper_camel(n)
        + " {\n        private IntPtr _value;\n    }\n\n"@
}

pub open spec fn spec_opaques_frag(ns: Seq<String>) -> Seq<char>
    decreases ns.len(),
{
    if ns.len() == 0 {
        Seq::<char>::empty()
    } else {
        spec_opaque_frag(ns[0]@) + spec_opaques_frag(ns.skip(1))
    }
}

/// The opaque-type section of the type declarations document: every
/// registered opaque handle, wrapped in the warning-suppression pragmas.
pub open spec fn spec_opaque_section(ns: Seq<String>) -> Seq<char> {
    if ns.len() == 0 {
        Seq::<char>::empty()
    } else {
        "    #pragma warning disable CS0169\n"@ + spec_opaques_frag(ns)
            + "    #pragma warning restore CS0169\n"@
    }
}

/// Emit the opaque-type section.
pub fn opaque_section(ns: &Vec<String>) -> (r: String)
    ensures
        r@ == spec_opaque_section(ns@),
{
    if ns.len() == 0 {
        let r = String::new();
        return r;
    }
    let mut out = String::from_str("    #pragma warning disable CS0169\n");
    let ghost header = "    #pragma warning disable CS0169\n"@;
    proof {
        assert(out@ =~= header);
        assert(ns@.skip(0) =~= ns@);
    }
    let mut i: usize = 0;
    while i < ns.len()
        invariant
            i <= ns@.len(),
            out@ + spec_opaques_frag(ns@.skip(i as int)) == header + spec_opaques_frag(ns@),
        decreases ns@.len() - i,
    {
        let ghost old_out = out@;
        out.append("    public struct ");
        let name = to_upper_camel(ns[i].as_str());
        out.append(name.as_str());
        out.append(" {\n        private IntPtr _value;\n    }\n\n");
        proof {
            assert(out@ =~= old_out + spec_opaque_frag(ns@[i as int]@));
            assert(ns@.skip(i as int).skip(1) =~= ns@.skip(i as int + 1));
            assert(ns@.skip(i as int)[0] == ns@[i as int]);
            assert((old_out + spec_opaque_frag(ns@[i as int]@)) + spec_opaques_frag(
                ns@.skip(i as int + 1),
            ) =~= old_out + (spec_opaque_frag(ns@[i as int]@) + spec_opaques_frag(
                ns@.skip(i as int + 1),
            )));
        }
        i = i + 1;
    }
    out.append("    #pragma warning restore CS0169\n");
    proof {
        assert(out@ =~= spec_opaque_section(ns@));
    }
    out
}

} // verus!
