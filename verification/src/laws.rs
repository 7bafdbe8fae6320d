//! The engine's general laws, stated and proved against the specifications
//! the executable code is verified against.

use vstd::prelude::*;

use crate::env::{spec_chase, spec_find_alias, spec_is_dynamic, spec_named_cs, AliasEntry, TypeEntry};
use crate::functions::{
    plain_ty, pointee_of, spec_cbs_list_from, spec_first_cb, spec_fn_cbs, spec_fn_iface,
    spec_fn_ok, spec_is_mpair, spec_merge_from, MPar,
};
use crate::lang::{
    spec_finalize, spec_run, spec_step, spec_step_ok, CustomConst, EngineState,
};
use crate::mapping::{spec_field_cs, spec_prim_cs};
use crate::structs::{spec_has_pair, spec_struct_cs_name};
use crate::text::spec_upper_camel;
use crate::types::{Decl, EnumDecl, FnDecl, FnParam, Prim, RustType, StructDecl};

verus! {

/// Idempotence: the engine is a pure function of its starting state, its
/// declaration sequence and its configuration, so running it twice on the
/// same input yields byte-identical documents.
pub proof fn lemma_idempotent(
    st1: EngineState,
    st2: EngineState,
    ds1: Seq<Decl>,
    ds2: Seq<Decl>,
    cs1: Seq<CustomConst>,
    cs2: Seq<CustomConst>,
)
    requires
        st1 == st2,
        ds1 == ds2,
        cs1 == cs2,
    ensures
        spec_finalize(spec_run(st1, ds1, 0), cs1) == spec_finalize(spec_run(st2, ds2, 0), cs2),
{
}

/// Filtering: a function lacking either the exported-symbol marker or the
/// C-ABI calling-convention marker contributes nothing to any document.
pub proof fn lemma_unmarked_function_contributes_nothing(st: EngineState, fd: FnDecl)
    requires
        !(fd.no_mangle && fd.extern_c),
    ensures
        spec_step(st, Decl::Func(fd)) == st,
        spec_step_ok(st, Decl::Func(fd)),
{
}

/// Filtering: a struct lacking the C-layout marker contributes nothing to
/// the type-declarations document, and registers nothing.
pub proof fn lemma_non_repr_c_struct_contributes_nothing(st: EngineState, sd: StructDecl)
    requires
        !sd.repr_c,
    ensures
        spec_step(st, Decl::Struct(sd)) == st,
        spec_step_ok(st, Decl::Struct(sd)),
{
}

/// Filtering: an enum lacking the C-layout marker contributes nothing to
/// the type-declarations document, and registers nothing.
pub proof fn lemma_non_repr_c_enum_contributes_nothing(st: EngineState, ed: EnumDecl)
    requires
        !ed.repr_c,
    ensures
        spec_step(st, Decl::Enum(ed)) == st,
        spec_step_ok(st, Decl::Enum(ed)),
{
}

/// Resolution is insensitive to extra fuel: once an alias chain reaches a
/// concrete type it stays there, however much deeper the resolver may look.
pub proof fn lemma_chase_fuel_mono(aliases: Seq<AliasEntry>, t: RustType, fuel1: nat, fuel2: nat)
    requires
        fuel1 <= fuel2,
        spec_chase(aliases, t, fuel1) is Some,
    ensures
        spec_chase(aliases, t, fuel2) == spec_chase(aliases, t, fuel1),
    decreases fuel1,
{
    match t {
        RustType::Named(n) => {
            match spec_find_alias(aliases, n@) {
                Some(t2) => {
                    lemma_chase_fuel_mono(aliases, t2, (fuel1 - 1) as nat, (fuel2 - 1) as nat);
                },
                None => {},
            }
        },
        _ => {},
    }
}

/// Alias transitivity: where `a` is registered as an alias of `t` and `t`
/// resolves to `r`, a use-site of `a` resolves to the same `r`, whatever the
/// chain depth below `t`.
pub proof fn lemma_alias_transitivity(
    aliases: Seq<AliasEntry>,
    a: String,
    t: RustType,
    r: RustType,
    fuel: nat,
)
    requires
        spec_find_alias(aliases, a@) == Some(t),
        spec_chase(aliases, t, fuel) == Some(r),
    ensures
        spec_chase(aliases, RustType::Named(a), fuel + 1) == Some(r),
{
}

/// Alias transitivity at a use site: a name whose chain resolves to a
/// primitive is mapped to exactly that primitive's host type, with no
/// marshaling directive beyond the boolean one.
pub proof fn lemma_alias_use_site(
    aliases: Seq<AliasEntry>,
    types: Seq<TypeEntry>,
    a: String,
    p: Prim,
)
    requires
        spec_chase(aliases, RustType::Named(a), aliases.len() + 1) == Some(RustType::Prim(p)),
        p != Prim::CVoid,
        p != Prim::Bool,
    ensures
        spec_field_cs(aliases, types, RustType::Named(a)) == Some(
            (spec_prim_cs(p), Seq::<char>::empty()),
        ),
{
}

/// Array-pair merge: a parameter literally named `<base>_ptr` followed by
/// `<base>_len` of size type merges into one logical array parameter.
pub proof fn lemma_pair_merges(a: FnParam, b: FnParam)
    requires
        spec_is_mpair(a, b),
    ensures
        spec_merge_from(seq![a, b], 0, 2) == seq![
            MPar::Pair { ptr_name: a.name, elem: pointee_of(a) },
        ],
{
    let ps = seq![a, b];
    assert(ps[0] == a && ps[1] == b);
    assert(spec_merge_from(ps, 2, 2) =~= Seq::<MPar>::empty());
    assert(spec_merge_from(ps, 0, 2) =~= seq![
        MPar::Pair { ptr_name: a.name, elem: pointee_of(a) },
    ]);
}

/// Array-pair merge: an adjacency that does not follow the literal
/// `<base>_ptr` / `<base>_len` naming never merges, even when the types
/// would otherwise permit it; both parameters stay independent.
pub proof fn lemma_no_merge_without_convention(a: FnParam, b: FnParam)
    requires
        !spec_is_mpair(a, b),
        a.ty is Plain,
        b.ty is Plain,
    ensures
        spec_merge_from(seq![a, b], 0, 2) == seq![
            MPar::Plain { name: a.name, ty: plain_ty(a) },
            MPar::Plain { name: b.name, ty: plain_ty(b) },
        ],
{
    let ps = seq![a, b];
    assert(ps[0] == a && ps[1] == b);
    assert(ps.len() == 2);
    assert(spec_merge_from(ps, 2, 2) =~= Seq::<MPar>::empty());
    assert(spec_merge_from(ps, 1, 2) =~= seq![MPar::Plain { name: b.name, ty: plain_ty(b) }]);
    assert(spec_merge_from(ps, 0, 2) =~= seq![
        MPar::Plain { name: a.name, ty: plain_ty(a) },
        MPar::Plain { name: b.name, ty: plain_ty(b) },
    ]);
}

proof fn lemma_cbs_list_len(
    aliases: Seq<AliasEntry>,
    opaques: Seq<String>,
    types: Seq<TypeEntry>,
    ps: Seq<FnParam>,
    j: int,
)
    requires
        0 <= j <= ps.len(),
        spec_cbs_list_from(aliases, opaques, types, ps, j) is Some,
    ensures
        spec_cbs_list_from(aliases, opaques, types, ps, j)->Some_0.len() == ps.len() - j,
    decreases ps.len() - j,
{
    if j < ps.len() {
        lemma_cbs_list_len(aliases, opaques, types, ps, j + 1);
    }
}

/// Callback arity dispatch, without callbacks: a classifiable function with
/// no callback parameter contributes no delegate and no interface entry;
/// only its synchronous wrapper and native import are emitted.
pub proof fn lemma_arity_zero_dispatch(
    aliases: Seq<AliasEntry>,
    opaques: Seq<String>,
    types: Seq<TypeEntry>,
    f: FnDecl,
)
    requires
        spec_fn_ok(aliases, opaques, types, f),
        spec_first_cb(f.params@, 0) == f.params@.len(),
    ensures
        spec_fn_cbs(aliases, opaques, types, f).len() == 0,
        spec_fn_iface(aliases, opaques, types, f).len() == 0,
{
}

/// Callback arity dispatch, one callback: exactly one delegate entry is
/// collected, carrying both the delegate and its trampoline, and the
/// asynchronous signature is appended to the public interface.
pub proof fn lemma_arity_one_dispatch(
    aliases: Seq<AliasEntry>,
    opaques: Seq<String>,
    types: Seq<TypeEntry>,
    f: FnDecl,
)
    requires
        spec_fn_ok(aliases, opaques, types, f),
        spec_first_cb(f.params@, 0) == f.params@.len() - 1,
        f.params@.len() >= 1,
    ensures
        spec_fn_cbs(aliases, opaques, types, f).len() == 1,
        spec_fn_iface(aliases, opaques, types, f).len() > 0,
{
    reveal_strlit("        Task");
}

/// Callback arity dispatch, two or more callbacks: one bare delegate per
/// callback is collected, and no interface entry is emitted.
pub proof fn lemma_arity_many_dispatch(
    aliases: Seq<AliasEntry>,
    opaques: Seq<String>,
    types: Seq<TypeEntry>,
    f: FnDecl,
)
    requires
        spec_fn_ok(aliases, opaques, types, f),
        spec_first_cb(f.params@, 0) <= f.params@.len() - 2,
        f.params@.len() >= 2,
    ensures
        spec_fn_cbs(aliases, opaques, types, f).len() == f.params@.len() - spec_first_cb(
            f.params@,
            0,
        ),
        spec_fn_iface(aliases, opaques, types, f).len() == 0,
{
    let k = spec_first_cb(f.params@, 0);
    assert(0 <= k <= f.params@.len()) by {
        lemma_first_cb_bounds(f.params@, 0);
    }
    lemma_cbs_list_len(aliases, opaques, types, f.params@, k);
}

proof fn lemma_first_cb_bounds(ps: Seq<FnParam>, i: int)
    requires
        0 <= i <= ps.len(),
    ensures
        i <= spec_first_cb(ps, i) <= ps.len(),
    decreases ps.len() - i,
{
    if i < ps.len() && !(ps[i].ty is Callback) {
        lemma_first_cb_bounds(ps, i + 1);
    }
}

/// Dynamic-array struct naming: a struct holding a pointer/length field
/// pair emits its type name with the raw-shape suffix; one without emits
/// its name unchanged.
pub proof fn lemma_dynamic_struct_naming(d: StructDecl)
    ensures
        spec_has_pair(d.fields@) ==> spec_struct_cs_name(d) == spec_upper_camel(d.name@)
            + "Native"@,
        !spec_has_pair(d.fields@) ==> spec_struct_cs_name(d) == spec_upper_camel(d.name@),
{
}

proof fn lemma_is_dynamic_last(types: Seq<TypeEntry>, e: TypeEntry, n: Seq<char>)
    requires
        forall|j: int| 0 <= j < types.len() ==> (#[trigger] types[j].name)@ != n,
        e.name@ == n,
    ensures
        spec_is_dynamic(types.push(e), n) == e.dynamic,
    decreases types.len(),
{
    if types.len() == 0 {
        assert(types.push(e)[0] == e);
        assert(types.push(e).len() == 1);
    } else {
        assert(types.push(e)[0] == types[0]);
        assert(types.push(e).skip(1) =~= types.skip(1).push(e));
        lemma_is_dynamic_last(types.skip(1), e, n);
    }
}

/// Dynamic-array struct naming at use sites: after a dynamic struct is
/// registered under a fresh name, a later use of that name maps to the
/// suffixed host name; a non-dynamic registration maps to the plain name.
pub proof fn lemma_dynamic_registration(st: EngineState, sd: StructDecl)
    requires
        sd.repr_c,
        spec_step_ok(st, Decl::Struct(sd)),
        forall|j: int| 0 <= j < st.types.len() ==> (#[trigger] st.types[j].name)@ != sd.name@,
    ensures
        spec_named_cs(spec_step(st, Decl::Struct(sd)).types, sd.name@) == (if spec_has_pair(
            sd.fields@,
        ) {
            spec_upper_camel(sd.name@) + "Native"@
        } else {
            spec_upper_camel(sd.name@)
        }),
{
    let e = TypeEntry { name: sd.name, dynamic: spec_has_pair(sd.fields@) };
    lemma_is_dynamic_last(st.types, e, sd.name@);
}

} // verus!
