//! The function and callback emitter: classifies exported functions, merges
//! array pairs, resolves callback arity and emits synchronous wrappers,
//! asynchronous completion wrappers, native imports, delegate types and
//! trampoline methods.

use vstd::prelude::*;

use crate::env::{
    chase, clone_type, named_cs, spec_chase, spec_named_cs, spec_is_opaque, is_opaque_name,
    AliasEntry, TypeEntry,
};
use crate::mapping::{
    byval, elem_cs, prim_cs, prim_seg, spec_byval, spec_elem_cs, spec_prim_cs, spec_prim_seg,
    MapErr,
};
use crate::text::{
    dec_u128, dec_u64, is_ptr_name, ptr_base, ptr_base_name, spec_dec_nat, spec_lower_camel,
    spec_title_camel, spec_upper_camel, to_lower_camel, to_title_camel, to_upper_camel,
};
use crate::types::{ArrayLen, CbParam, FnDecl, FnParam, ParamType, Prim, RustType};

verus! {

/// One collected callback entry: the derived delegate name, and the emitted
/// delegate (and, for asynchronous wrappers, trampoline) text.
pub struct CallbackEntry {
    pub name: String,
    pub text: String,
}

/// A function parameter after array-pair merging.
pub enum MPar {
    Plain { name: String, ty: RustType },
    Pair { ptr_name: String, elem: RustType },
}

/// A callback parameter after array-pair merging; `pos` is the original
/// position, used to name anonymous parameters.
pub enum CbMPar {
    Plain { name: Option<String>, pos: usize, ty: RustType },
    Pair { ptr_name: String, elem: RustType },
}

/// The plain type of a parameter; callbacks yield a placeholder never used.
pub open spec fn plain_ty(p: FnParam) -> RustType {
    match p.ty {
        ParamType::Plain(t) => t,
        ParamType::Callback(_) => RustType::Prim(Prim::CVoid),
    }
}

/// The pointee of a plain pointer parameter; a placeholder otherwise.
pub open spec fn pointee_of(p: FnParam) -> RustType {
    match p.ty {
        ParamType::Plain(t) => match t {
            RustType::Ptr { target, .. } => *target,
            _ => RustType::Prim(Prim::CVoid),
        },
        ParamType::Callback(_) => RustType::Prim(Prim::CVoid),
    }
}

/// Whether two adjacent parameters form a `<base>_ptr` / `<base>_len` array
/// pair by the literal naming convention.
pub open spec fn spec_is_mpair(a: FnParam, b: FnParam) -> bool {
    &&& is_ptr_name(a.name@)
    &&& b.name@ == ptr_base(a.name@) + "_len"@
    &&& (match a.ty {
        ParamType::Plain(t) => t is Ptr,
        _ => false,
    })
    &&& (match b.ty {
        ParamType::Plain(t) => t == RustType::Prim(Prim::USize),
        _ => false,
    })
}

/// Array-pair merging over the parameter range `[i, end)`.
pub open spec fn spec_merge_from(ps: Seq<FnParam>, i: int, end: int) -> Seq<MPar>
    decreases end - i,
{
    if i < 0 || i >= end || end > ps.len() {
        Seq::<MPar>::empty()
    } else if i + 1 < end && spec_is_mpair(ps[i], ps[i + 1]) {
        seq![MPar::Pair { ptr_name: ps[i].name, elem: pointee_of(ps[i]) }] + spec_merge_from(
            ps,
            i + 2,
            end,
        )
    } else {
        seq![MPar::Plain { name: ps[i].name, ty: plain_ty(ps[i]) }] + spec_merge_from(
            ps,
            i + 1,
            end,
        )
    }
}

pub fn is_mpair(a: &FnParam, b: &FnParam) -> (r: bool)
    ensures
        r == spec_is_mpair(*a, *b),
{
    let a_is_ptr = match &a.ty {
        ParamType::Plain(t) => match t {
            RustType::Ptr { .. } => true,
            _ => false,
        },
        _ => false,
    };
    let b_is_size = match &b.ty {
        ParamType::Plain(t) => match t {
            RustType::Prim(p) => *p == Prim::USize,
            _ => false,
        },
        _ => false,
    };
    if !a_is_ptr || !b_is_size {
        return false;
    }
    match ptr_base_name(a.name.as_str()) {
        None => false,
        Some(base) => {
            let mut expected = base;
            expected.append("_len");
            expected == b.name
        },
    }
}

fn plain_ty_of(p: &FnParam) -> (r: RustType)
    ensures
        r == plain_ty(*p),
{
    match &p.ty {
        ParamType::Plain(t) => clone_type(t),
        ParamType::Callback(_) => RustType::Prim(Prim::CVoid),
    }
}

fn pointee_of_exec(p: &FnParam) -> (r: RustType)
    ensures
        r == pointee_of(*p),
{
    match &p.ty {
        ParamType::Plain(t) => match t {
            RustType::Ptr { target, .. } => clone_type(&*target),
            _ => RustType::Prim(Prim::CVoid),
        },
        ParamType::Callback(_) => RustType::Prim(Prim::CVoid),
    }
}

/// Merge the parameter range `[i, end)`.
pub fn merge_from(ps: &Vec<FnParam>, i: usize, end: usize) -> (r: Vec<MPar>)
    requires
        end <= ps@.len(),
    ensures
        r@ == spec_merge_from(ps@, i as int, end as int),
    decreases end - i,
{
    if i >= end {
        let r: Vec<MPar> = Vec::new();
        proof {
            assert(r@ =~= spec_merge_from(ps@, i as int, end as int));
        }
        return r;
    }
    if i + 1 < end && is_mpair(&ps[i], &ps[i + 1]) {
        let mut r: Vec<MPar> = Vec::new();
        r.push(MPar::Pair { ptr_name: ps[i].name.clone(), elem: pointee_of_exec(&ps[i]) });
        let mut rest = merge_from(ps, i + 2, end);
        r.append(&mut rest);
        proof {
            assert(r@ =~= spec_merge_from(ps@, i as int, end as int));
        }
        r
    } else {
        let mut r: Vec<MPar> = Vec::new();
        r.push(MPar::Plain { name: ps[i].name.clone(), ty: plain_ty_of(&ps[i]) });
        let mut rest = merge_from(ps, i + 1, end);
        r.append(&mut rest);
        proof {
            assert(r@ =~= spec_merge_from(ps@, i as int, end as int));
        }
        r
    }
}

/// The index of the first callback-typed parameter, or the length if none.
pub open spec fn spec_first_cb(ps: Seq<FnParam>, i: int) -> int
    decreases ps.len() - i,
{
    if i < 0 || i >= ps.len() {
        ps.len() as int
    } else if ps[i].ty is Callback {
        i
    } else {
        spec_first_cb(ps, i + 1)
    }
}

pub fn first_cb(ps: &Vec<FnParam>) -> (r: usize)
    ensures
        r as int == spec_first_cb(ps@, 0),
        r <= ps@.len(),
{
    let mut i: usize = 0;
    while i < ps.len()
        invariant
            i <= ps@.len(),
            spec_first_cb(ps@, 0) == spec_first_cb(ps@, i as int),
        decreases ps@.len() - i,
    {
        let is_cb = match &ps[i].ty {
            ParamType::Callback(_) => true,
            _ => false,
        };
        if is_cb {
            return i;
        }
        i = i + 1;
    }
    i
}

/// Whether every parameter from `i` on is callback-typed.
pub open spec fn spec_all_cbs_from(ps: Seq<FnParam>, i: int) -> bool {
    forall|j: int| i <= j < ps.len() ==> (#[trigger] ps[j].ty) is Callback
}

/// Whether a parameter is the user-data slot: a pointer to the C void type.
pub open spec fn spec_is_user_data(p: FnParam) -> bool {
    match p.ty {
        ParamType::Plain(t) => match t {
            RustType::Ptr { target, .. } => *target == RustType::Prim(Prim::CVoid),
            _ => false,
        },
        _ => false,
    }
}

pub fn is_user_data(p: &FnParam) -> (r: bool)
    ensures
        r == spec_is_user_data(*p),
{
    match &p.ty {
        ParamType::Plain(t) => match t {
            RustType::Ptr { target, .. } => match &**target {
                RustType::Prim(pr) => *pr == Prim::CVoid,
                _ => false,
            },
            _ => false,
        },
        _ => false,
    }
}

/// The callback parameter list of a callback-typed parameter.
pub open spec fn cb_params(p: FnParam) -> Seq<CbParam> {
    match p.ty {
        ParamType::Callback(v) => v@,
        _ => Seq::<CbParam>::empty(),
    }
}

/// The rendered name of a callback parameter: its camelCase name, or a
/// positional `arg<n>` name where it is anonymous.
pub open spec fn spec_cb_pname(name: Option<String>, pos: int) -> Seq<char> {
    match name {
        Some(s) => spec_lower_camel(s@),
        None => "arg"@ + spec_dec_nat(pos as nat),
    }
}

pub fn cb_pname(name: &Option<String>, pos: usize) -> (r: String)
    ensures
        r@ == spec_cb_pname(*name, pos as int),
{
    match name {
        Some(s) => to_lower_camel(s.as_str()),
        None => {
            let mut out = String::from_str("arg");
            let d = dec_u64(pos as u64);
            out.append(d.as_str());
            proof {
                assert(out@ =~= spec_cb_pname(*name, pos as int));
            }
            out
        },
    }
}

/// Whether two adjacent callback parameters form an array pair.
pub open spec fn spec_is_cb_pair(a: CbParam, b: CbParam) -> bool {
    &&& (match a.name {
        Some(an) => is_ptr_name(an@),
        None => false,
    })
    &&& (match (a.name, b.name) {
        (Some(an), Some(bn)) => bn@ == ptr_base(an@) + "_len"@,
        _ => false,
    })
    &&& a.ty is Ptr
    &&& b.ty == RustType::Prim(Prim::USize)
}

pub fn is_cb_pair(a: &CbParam, b: &CbParam) -> (r: bool)
    ensures
        r == spec_is_cb_pair(*a, *b),
{
    let a_is_ptr = match &a.ty {
        RustType::Ptr { .. } => true,
        _ => false,
    };
    let b_is_size = match &b.ty {
        RustType::Prim(p) => *p == Prim::USize,
        _ => false,
    };
    if !a_is_ptr || !b_is_size {
        return false;
    }
    let an = match &a.name {
        Some(s) => s,
        None => {
            return false;
        },
    };
    let bn = match &b.name {
        Some(s) => s,
        None => {
            return false;
        },
    };
    match ptr_base_name(an.as_str()) {
        None => false,
        Some(base) => {
            let mut expected = base;
            expected.append("_len");
            expected == *bn
        },
    }
}

/// The pointee of a pointer-typed callback parameter; a placeholder otherwise.
pub open spec fn cb_pointee(p: CbParam) -> RustType {
    match p.ty {
        RustType::Ptr { target, .. } => *target,
        _ => RustType::Prim(Prim::CVoid),
    }
}

/// Array-pair merging over callback parameters from position `i` on.
pub open spec fn spec_cb_merge(ps: Seq<CbParam>, i: int) -> Seq<CbMPar>
    decreases ps.len() - i,
{
    if i < 0 || i >= ps.len() {
        Seq::<CbMPar>::empty()
    } else if i + 1 < ps.len() && spec_is_cb_pair(ps[i], ps[i + 1]) {
        seq![CbMPar::Pair { ptr_name: unwrap_name(ps[i].name), elem: cb_pointee(ps[i]) }]
            + spec_cb_merge(ps, i + 2)
    } else {
        seq![CbMPar::Plain { name: ps[i].name, pos: i as usize, ty: ps[i].ty }] + spec_cb_merge(
            ps,
            i + 1,
        )
    }
}

/// The name inside an option; a placeholder where there is none.
pub open spec fn unwrap_name(n: Option<String>) -> String {
    match n {
        Some(s) => s,
        None => arbitrary(),
    }
}

fn cb_pointee_exec(p: &CbParam) -> (r: RustType)
    ensures
        r == cb_pointee(*p),
{
    match &p.ty {
        RustType::Ptr { target, .. } => clone_type(&*target),
        _ => RustType::Prim(Prim::CVoid),
    }
}

fn clone_opt_name(n: &Option<String>) -> (r: Option<String>)
    ensures
        r == *n,
{
    match n {
        Some(s) => Some(s.clone()),
        None => None,
    }
}

/// Merge the callback parameters from position `i` on.
pub fn cb_merge(ps: &Vec<CbParam>, i: usize) -> (r: Vec<CbMPar>)
    ensures
        r@ == spec_cb_merge(ps@, i as int),
    decreases ps@.len() - i,
{
    if i >= ps.len() {
        let r: Vec<CbMPar> = Vec::new();
        proof {
            assert(r@ =~= spec_cb_merge(ps@, i as int));
        }
        return r;
    }
    if i + 1 < ps.len() && is_cb_pair(&ps[i], &ps[i + 1]) {
        let pn = match &ps[i].name {
            Some(s) => s.clone(),
            None => String::new(),
        };
        let mut r: Vec<CbMPar> = Vec::new();
        r.push(CbMPar::Pair { ptr_name: pn, elem: cb_pointee_exec(&ps[i]) });
        let mut rest = cb_merge(ps, i + 2);
        r.append(&mut rest);
        proof {
            assert(r@ =~= spec_cb_merge(ps@, i as int));
        }
        r
    } else {
        let mut r: Vec<CbMPar> = Vec::new();
        r.push(
            CbMPar::Plain { name: clone_opt_name(&ps[i].name), pos: i, ty: plain_cb_ty(&ps[i]) },
        );
        let mut rest = cb_merge(ps, i + 1);
        r.append(&mut rest);
        proof {
            assert(r@ =~= spec_cb_merge(ps@, i as int));
        }
        r
    }
}

fn plain_cb_ty(p: &CbParam) -> (r: RustType)
    ensures
        r == p.ty,
{
    clone_type(&p.ty)
}

/// The number of merged array pairs from position `i` on.  More than one
/// independent pair in one parameter list is not a supported shape: no
/// merge order is defined for it, so it fails loudly.
pub open spec fn spec_pair_count(ms: Seq<MPar>, i: int) -> int
    decreases ms.len() - i,
{
    if i < 0 || i >= ms.len() {
        0
    } else {
        (match ms[i] {
            MPar::Pair { .. } => 1int,
            MPar::Plain { .. } => 0int,
        }) + spec_pair_count(ms, i + 1)
    }
}

pub fn pair_count(ms: &Vec<MPar>, i: usize) -> (r: u128)
    ensures
        r as int == spec_pair_count(ms@, i as int),
        i <= ms@.len() ==> r <= ms@.len() - i,
        i > ms@.len() ==> r == 0,
    decreases ms@.len() - i,
{
    if i >= ms.len() {
        return 0;
    }
    let here: u128 = match &ms[i] {
        MPar::Pair { .. } => 1,
        MPar::Plain { .. } => 0,
    };
    here + pair_count(ms, i + 1)
}

/// How many native parameters a merged parameter occupies.
pub open spec fn mpar_width(m: MPar) -> int {
    match m {
        MPar::Plain { .. } => 1,
        MPar::Pair { .. } => 2,
    }
}

/// Render one merged parameter: its wrapper-signature entry, its
/// native-import entry (marshaling attributes inline) and its call-site
/// argument.  `idx` is the parameter's position in the native import, used
/// for the size-parameter index of a merged array pair.
pub open spec fn spec_mpar_cs(
    aliases: Seq<AliasEntry>,
    opaques: Seq<String>,
    types: Seq<TypeEntry>,
    m: MPar,
    idx: int,
) -> Option<(Seq<char>, Seq<char>, Seq<char>)> {
    match m {
        MPar::Pair { ptr_name, elem } => match spec_elem_cs(aliases, types, elem) {
            None => None,
            Some(ety) => {
                let bsrc = if is_ptr_name(ptr_name@) {
                    ptr_base(ptr_name@)
                } else {
                    ptr_name@
                };
                let base = spec_lower_camel(bsrc);
                let lenn = spec_lower_camel(bsrc + "_len"@);
                Some(
                    (
                        ety + "[] "@ + base,
                        "[MarshalAs(UnmanagedType.LPArray, SizeParamIndex = "@ + spec_dec_nat(
                            (idx + 1) as nat,
                        ) + ")] "@ + ety + "[] "@ + base + ", ulong "@ + lenn,
                        base + ", (ulong) "@ + base + ".Length"@,
                    ),
                )
            },
        },
        MPar::Plain { name, ty } => {
            let n0 = spec_lower_camel(name@);
            match spec_chase(aliases, ty, aliases.len() + 1) {
                None => None,
                Some(rt) => match rt {
                    RustType::Prim(p) => if p == Prim::CVoid {
                        None
                    } else if p == Prim::Bool {
                        Some(
                            (
                                "bool "@ + n0,
                                "[MarshalAs(UnmanagedType.U1)] bool "@ + n0,
                                n0,
                            ),
                        )
                    } else {
                        Some((spec_prim_cs(p) + " "@ + n0, spec_prim_cs(p) + " "@ + n0, n0))
                    },
                    RustType::Named(n2) => Some(
                        (
                            spec_named_cs(types, n2@) + " "@ + n0,
                            spec_named_cs(types, n2@) + " "@ + n0,
                            n0,
                        ),
                    ),
                    RustType::Ptr { target, .. } => match spec_chase(
                        aliases,
                        *target,
                        aliases.len() + 1,
                    ) {
                        None => None,
                        Some(pt) => match pt {
                            RustType::Prim(p) => if p == Prim::CChar {
                                Some(
                                    (
                                        "String "@ + n0,
                                        "[MarshalAs(UnmanagedType.LPStr)] String "@ + n0,
                                        n0,
                                    ),
                                )
                            } else {
                                Some(("IntPtr "@ + n0, "IntPtr "@ + n0, n0))
                            },
                            RustType::Ptr { .. } => Some(
                                ("out IntPtr "@ + n0, "out IntPtr "@ + n0, "out "@ + n0),
                            ),
                            RustType::Named(n2) => if spec_is_opaque(opaques, n2@) {
                                Some(
                                    (
                                        spec_upper_camel(n2@) + " "@ + n0,
                                        spec_upper_camel(n2@) + " "@ + n0,
                                        n0,
                                    ),
                                )
                            } else {
                                Some(
                                    (
                                        "ref "@ + spec_named_cs(types, n2@) + " "@ + n0,
                                        "ref "@ + spec_named_cs(types, n2@) + " "@ + n0,
                                        "ref "@ + n0,
                                    ),
                                )
                            },
                            _ => None,
                        },
                    },
                    RustType::Array { elem, len } => match spec_elem_cs(aliases, types, *elem) {
                        None => None,
                        Some(ety) => Some(
                            (
                                ety + "[] "@ + n0,
                                "[MarshalAs("@ + spec_byval(len) + ")] "@ + ety + "[] "@ + n0,
                                n0,
                            ),
                        ),
                    },
                },
            }
        },
    }
}

pub fn mpar_cs(
    aliases: &Vec<AliasEntry>,
    opaques: &Vec<String>,
    types: &Vec<TypeEntry>,
    m: &MPar,
    idx: u128,
) -> (r: Result<(String, String, String), MapErr>)
    requires
        idx + 1 < 0x1_0000_0000_0000_0000_0000_0000,
    ensures
        match r {
            Ok(p) => spec_mpar_cs(aliases@, opaques@, types@, *m, idx as int) == Some(
                (p.0@, p.1@, p.2@),
            ),
            Err(_) => spec_mpar_cs(aliases@, opaques@, types@, *m, idx as int) is None,
        },
{
    match m {
        MPar::Pair { ptr_name, elem } => match elem_cs(aliases, types, elem) {
            Err(e) => Err(e),
            Ok(ety) => {
                let base = match ptr_base_name(ptr_name.as_str()) {
                    Some(b) => to_lower_camel(b.as_str()),
                    None => to_lower_camel(ptr_name.as_str()),
                };
                let mut lensrc = match ptr_base_name(ptr_name.as_str()) {
                    Some(b) => b,
                    None => ptr_name.clone(),
                };
                lensrc.append("_len");
                let lenn = to_lower_camel(lensrc.as_str());
                let mut w = ety.clone();
                w.append("[] ");
                w.append(base.as_str());
                let mut n = String::from_str("[MarshalAs(UnmanagedType.LPArray, SizeParamIndex = ");
                let d = dec_u128(idx + 1);
                n.append(d.as_str());
                n.append(")] ");
                n.append(ety.as_str());
                n.append("[] ");
                n.append(base.as_str());
                n.append(", ulong ");
                n.append(lenn.as_str());
                let mut c = base.clone();
                c.append(", (ulong) ");
                c.append(base.as_str());
                c.append(".Length");
                proof {
                    assert(w@ =~= spec_mpar_cs(aliases@, opaques@, types@, *m, idx as int)
                        ->Some_0.0);
                    assert(n@ =~= spec_mpar_cs(aliases@, opaques@, types@, *m, idx as int)
                        ->Some_0.1);
                    assert(c@ =~= spec_mpar_cs(aliases@, opaques@, types@, *m, idx as int)
                        ->Some_0.2);
                }
                Ok((w, n, c))
            },
        },
        MPar::Plain { name, ty } => {
            let n0 = to_lower_camel(name.as_str());
            match chase(aliases, ty) {
                None => Err(MapErr::Unresolved),
                Some(rt) => match rt {
                    RustType::Prim(p) => {
                        if p == Prim::CVoid {
                            Err(MapErr::Unsupported)
                        } else if p == Prim::Bool {
                            let mut w = String::from_str("bool ");
                            w.append(n0.as_str());
                            let mut n = String::from_str("[MarshalAs(UnmanagedType.U1)] bool ");
                            n.append(n0.as_str());
                            proof {
                                assert(w@ =~= "bool "@ + n0@);
                                assert(n@ =~= "[MarshalAs(UnmanagedType.U1)] bool "@ + n0@);
                            }
                            Ok((w, n, n0))
                        } else {
                            let mut w = String::from_str(prim_cs(p));
                            w.append(" ");
                            w.append(n0.as_str());
                            let n = w.clone();
                            proof {
                                assert(w@ =~= spec_prim_cs(p) + " "@ + n0@);
                            }
                            Ok((w, n, n0))
                        }
                    },
                    RustType::Named(n2) => {
                        let mut w = named_cs(types, &n2);
                        w.append(" ");
                        w.append(n0.as_str());
                        let n = w.clone();
                        proof {
                            assert(w@ =~= spec_named_cs(types@, n2@) + " "@ + n0@);
                        }
                        Ok((w, n, n0))
                    },
                    RustType::Ptr { target, .. } => match chase(aliases, &*target) {
                        None => Err(MapErr::Unresolved),
                        Some(pt) => match pt {
                            RustType::Prim(p) => {
                                if p == Prim::CChar {
                                    let mut w = String::from_str("String ");
                                    w.append(n0.as_str());
                                    let mut n = String::from_str(
                                        "[MarshalAs(UnmanagedType.LPStr)] String ",
                                    );
                                    n.append(n0.as_str());
                                    proof {
                                        assert(w@ =~= "String "@ + n0@);
                                        assert(n@ =~= "[MarshalAs(UnmanagedType.LPStr)] String "@
                                            + n0@);
                                    }
                                    Ok((w, n, n0))
                                } else {
                                    let mut w = String::from_str("IntPtr ");
                                    w.append(n0.as_str());
                                    let n = w.clone();
                                    proof {
                                        assert(w@ =~= "IntPtr "@ + n0@);
                                    }
                                    Ok((w, n, n0))
                                }
                            },
                            RustType::Ptr { .. } => {
                                let mut w = String::from_str("out IntPtr ");
                                w.append(n0.as_str());
                                let n = w.clone();
                                let mut c = String::from_str("out ");
                                c.append(n0.as_str());
                                proof {
                                    assert(w@ =~= "out IntPtr "@ + n0@);
                                    assert(c@ =~= "out "@ + n0@);
                                }
                                Ok((w, n, c))
                            },
                            RustType::Named(n2) => {
                                if is_opaque_name(opaques, &n2) {
                                    let mut w = to_upper_camel(n2.as_str());
                                    w.append(" ");
                                    w.append(n0.as_str());
                                    let n = w.clone();
                                    proof {
                                        assert(w@ =~= spec_upper_camel(n2@) + " "@ + n0@);
                                    }
                                    Ok((w, n, n0))
                                } else {
                                    let mut w = String::from_str("ref ");
                                    let t = named_cs(types, &n2);
                                    w.append(t.as_str());
                                    w.append(" ");
                                    w.append(n0.as_str());
                                    let n = w.clone();
                                    let mut c = String::from_str("ref ");
                                    c.append(n0.as_str());
                                    proof {
                                        assert(w@ =~= "ref "@ + spec_named_cs(types@, n2@) + " "@
                                            + n0@);
                                        assert(c@ =~= "ref "@ + n0@);
                                    }
                                    Ok((w, n, c))
                                }
                            },
                            _ => Err(MapErr::Unsupported),
                        },
                    },
                    RustType::Array { elem, len } => match elem_cs(aliases, types, &*elem) {
                        Err(e) => Err(e),
                        Ok(ety) => {
                            let mut w = ety.clone();
                            w.append("[] ");
                            w.append(n0.as_str());
                            let mut n = String::from_str("[MarshalAs(");
                            let b = byval(&len);
                            n.append(b.as_str());
                            n.append(")] ");
                            n.append(ety.as_str());
                            n.append("[] ");
                            n.append(n0.as_str());
                            proof {
                                assert(w@ =~= ety@ + "[] "@ + n0@);
                                assert(n@ =~= "[MarshalAs("@ + spec_byval(len) + ")] "@ + ety@
                                    + "[] "@ + n0@);
                            }
                            Ok((w, n, n0))
                        },
                    },
                },
            }
        },
    }
}

/// Render the merged parameter list from position `i` on, the native
/// position counter standing at `idx`: the three comma-separated lists.
pub open spec fn spec_psig_from(
    aliases: Seq<AliasEntry>,
    opaques: Seq<String>,
    types: Seq<TypeEntry>,
    ms: Seq<MPar>,
    i: int,
    idx: int,
) -> Option<(Seq<char>, Seq<char>, Seq<char>)>
    decreases ms.len() - i,
{
    if i < 0 || i >= ms.len() {
        Some((Seq::<char>::empty(), Seq::<char>::empty(), Seq::<char>::empty()))
    } else {
        match spec_mpar_cs(aliases, opaques, types, ms[i], idx) {
            None => None,
            Some(p) => match spec_psig_from(aliases, opaques, types, ms, i + 1, idx + mpar_width(
                ms[i],
            )) {
                None => None,
                Some(rest) => {
                    let sep = if i + 1 < ms.len() {
                        ", "@
                    } else {
                        Seq::<char>::empty()
                    };
                    Some((p.0 + sep + rest.0, p.1 + sep + rest.1, p.2 + sep + rest.2))
                },
            },
        }
    }
}

pub fn psig_from(
    aliases: &Vec<AliasEntry>,
    opaques: &Vec<String>,
    types: &Vec<TypeEntry>,
    ms: &Vec<MPar>,
    i: usize,
    idx: u128,
) -> (r: Result<(String, String, String), MapErr>)
    requires
        idx + 2 * (ms@.len() - i) < 0x1_0000_0000_0000_0000_0000_0000,
    ensures
        match r {
            Ok(p) => spec_psig_from(aliases@, opaques@, types@, ms@, i as int, idx as int) == Some(
                (p.0@, p.1@, p.2@),
            ),
            Err(_) => spec_psig_from(aliases@, opaques@, types@, ms@, i as int, idx as int)
                is None,
        },
    decreases ms@.len() - i,
{
    if i >= ms.len() {
        return Ok((String::new(), String::new(), String::new()));
    }
    let width: u128 = match &ms[i] {
        MPar::Plain { .. } => 1,
        MPar::Pair { .. } => 2,
    };
    match mpar_cs(aliases, opaques, types, &ms[i], idx) {
        Err(e) => Err(e),
        Ok(p) => match psig_from(aliases, opaques, types, ms, i + 1, idx + width) {
            Err(e) => Err(e),
            Ok(rest) => {
                let (mut w, mut n, mut c) = p;
                if i + 1 < ms.len() {
                    w.append(", ");
                    n.append(", ");
                    c.append(", ");
                }
                w.append(rest.0.as_str());
                n.append(rest.1.as_str());
                c.append(rest.2.as_str());
                proof {
                    let s = spec_psig_from(aliases@, opaques@, types@, ms@, i as int, idx as int);
                    assert(w@ =~= s->Some_0.0);
                    assert(n@ =~= s->Some_0.1);
                    assert(c@ =~= s->Some_0.2);
                }
                Ok((w, n, c))
            },
        },
    }
}

/// Whether a callback parameter is the leading user-data slot.
pub open spec fn spec_is_ud_cb(p: CbParam) -> bool {
    match p.ty {
        RustType::Ptr { target, .. } => *target == RustType::Prim(Prim::CVoid),
        _ => false,
    }
}

pub fn is_ud_cb(p: &CbParam) -> (r: bool)
    ensures
        r == spec_is_ud_cb(*p),
{
    match &p.ty {
        RustType::Ptr { target, .. } => match &**target {
            RustType::Prim(pr) => *pr == Prim::CVoid,
            _ => false,
        },
        _ => false,
    }
}

/// Render one raw callback parameter for a delegate or trampoline signature.
pub open spec fn spec_cb_sig_param(
    aliases: Seq<AliasEntry>,
    opaques: Seq<String>,
    types: Seq<TypeEntry>,
    p: CbParam,
    i: int,
) -> Option<Seq<char>> {
    let n0 = spec_cb_pname(p.name, i);
    match spec_chase(aliases, p.ty, aliases.len() + 1) {
        None => None,
        Some(rt) => match rt {
            RustType::Prim(pr) => if pr == Prim::CVoid {
                None
            } else {
                Some(spec_prim_cs(pr) + " "@ + n0)
            },
            RustType::Named(n2) => Some(spec_named_cs(types, n2@) + " "@ + n0),
            RustType::Ptr { target, .. } => match spec_chase(aliases, *target, aliases.len() + 1) {
                None => None,
                Some(pt) => match pt {
                    RustType::Prim(pr) => if pr == Prim::CChar {
                        Some("String "@ + n0)
                    } else {
                        Some("IntPtr "@ + n0)
                    },
                    RustType::Named(n2) => if (match p.name {
                        Some(pn) => is_ptr_name(pn@),
                        None => false,
                    }) {
                        Some("IntPtr "@ + n0)
                    } else if spec_is_opaque(opaques, n2@) {
                        Some(spec_upper_camel(n2@) + " "@ + n0)
                    } else {
                        Some("ref "@ + spec_named_cs(types, n2@) + " "@ + n0)
                    },
                    RustType::Ptr { .. } => Some("IntPtr "@ + n0),
                    _ => None,
                },
            },
            RustType::Array { .. } => Some("IntPtr "@ + n0 + "Ptr"@),
        },
    }
}

pub fn cb_sig_param(
    aliases: &Vec<AliasEntry>,
    opaques: &Vec<String>,
    types: &Vec<TypeEntry>,
    p: &CbParam,
    i: usize,
) -> (r: Result<String, MapErr>)
    ensures
        match r {
            Ok(s) => spec_cb_sig_param(aliases@, opaques@, types@, *p, i as int) == Some(s@),
            Err(_) => spec_cb_sig_param(aliases@, opaques@, types@, *p, i as int) is None,
        },
{
    let n0 = cb_pname(&p.name, i);
    match chase(aliases, &p.ty) {
        None => Err(MapErr::Unresolved),
        Some(rt) => match rt {
            RustType::Prim(pr) => {
                if pr == Prim::CVoid {
                    Err(MapErr::CallbackShape)
                } else {
                    let mut s = String::from_str(prim_cs(pr));
                    s.append(" ");
                    s.append(n0.as_str());
                    proof {
                        assert(s@ =~= spec_prim_cs(pr) + " "@ + n0@);
                    }
                    Ok(s)
                }
            },
            RustType::Named(n2) => {
                let mut s = named_cs(types, &n2);
                s.append(" ");
                s.append(n0.as_str());
                proof {
                    assert(s@ =~= spec_named_cs(types@, n2@) + " "@ + n0@);
                }
                Ok(s)
            },
            RustType::Ptr { target, .. } => match chase(aliases, &*target) {
                None => Err(MapErr::Unresolved),
                Some(pt) => match pt {
                    RustType::Prim(pr) => {
                        if pr == Prim::CChar {
                            let mut s = String::from_str("String ");
                            s.append(n0.as_str());
                            proof {
                                assert(s@ =~= "String "@ + n0@);
                            }
                            Ok(s)
                        } else {
                            let mut s = String::from_str("IntPtr ");
                            s.append(n0.as_str());
                            proof {
                                assert(s@ =~= "IntPtr "@ + n0@);
                            }
                            Ok(s)
                        }
                    },
                    RustType::Named(n2) => {
                        let ptr_named = match &p.name {
                            Some(pn) => ptr_base_name(pn.as_str()).is_some(),
                            None => false,
                        };
                        if ptr_named {
                            let mut s = String::from_str("IntPtr ");
                            s.append(n0.as_str());
                            proof {
                                assert(s@ =~= "IntPtr "@ + n0@);
                            }
                            Ok(s)
                        } else if is_opaque_name(opaques, &n2) {
                            let mut s = to_upper_camel(n2.as_str());
                            s.append(" ");
                            s.append(n0.as_str());
                            proof {
                                assert(s@ =~= spec_upper_camel(n2@) + " "@ + n0@);
                            }
                            Ok(s)
                        } else {
                            let mut s = String::from_str("ref ");
                            let t = named_cs(types, &n2);
                            s.append(t.as_str());
                            s.append(" ");
                            s.append(n0.as_str());
                            proof {
                                assert(s@ =~= "ref "@ + spec_named_cs(types@, n2@) + " "@ + n0@);
                            }
                            Ok(s)
                        }
                    },
                    RustType::Ptr { .. } => {
                        let mut s = String::from_str("IntPtr ");
                        s.append(n0.as_str());
                        proof {
                            assert(s@ =~= "IntPtr "@ + n0@);
                        }
                        Ok(s)
                    },
                    _ => Err(MapErr::CallbackShape),
                },
            },
            RustType::Array { .. } => {
                let mut s = String::from_str("IntPtr ");
                s.append(n0.as_str());
                s.append("Ptr");
                proof {
                    assert(s@ =~= "IntPtr "@ + n0@ + "Ptr"@);
                }
                Ok(s)
            },
        },
    }
}

/// The comma-separated delegate signature from raw parameter `i` on.
pub open spec fn spec_cb_sig_from(
    aliases: Seq<AliasEntry>,
    opaques: Seq<String>,
    types: Seq<TypeEntry>,
    ps: Seq<CbParam>,
    i: int,
) -> Option<Seq<char>>
    decreases ps.len() - i,
{
    if i < 0 || i >= ps.len() {
        Some(Seq::<char>::empty())
    } else {
        match spec_cb_sig_param(aliases, opaques, types, ps[i], i) {
            None => None,
            Some(s) => match spec_cb_sig_from(aliases, opaques, types, ps, i + 1) {
                None => None,
                Some(rest) => {
                    let sep = if i + 1 < ps.len() {
                        ", "@
                    } else {
                        Seq::<char>::empty()
                    };
                    Some(s + sep + rest)
                },
            },
        }
    }
}

pub fn cb_sig_from(
    aliases: &Vec<AliasEntry>,
    opaques: &Vec<String>,
    types: &Vec<TypeEntry>,
    ps: &Vec<CbParam>,
    i: usize,
) -> (r: Result<String, MapErr>)
    ensures
        match r {
            Ok(s) => spec_cb_sig_from(aliases@, opaques@, types@, ps@, i as int) == Some(s@),
            Err(_) => spec_cb_sig_from(aliases@, opaques@, types@, ps@, i as int) is None,
        },
    decreases ps@.len() - i,
{
    if i >= ps.len() {
        return Ok(String::new());
    }
    match cb_sig_param(aliases, opaques, types, &ps[i], i) {
        Err(e) => Err(e),
        Ok(mut s) => match cb_sig_from(aliases, opaques, types, ps, i + 1) {
            Err(e) => Err(e),
            Ok(rest) => {
                if i + 1 < ps.len() {
                    s.append(", ");
                }
                s.append(rest.as_str());
                proof {
                    let sp = spec_cb_sig_from(aliases@, opaques@, types@, ps@, i as int);
                    assert(s@ =~= sp->Some_0);
                }
                Ok(s)
            },
        },
    }
}

/// The size segment a fixed array contributes to a delegate name: the
/// literal, or the PascalCase of the named constant.
pub open spec fn spec_size_seg(l: ArrayLen) -> Seq<char> {
    match l {
        ArrayLen::Lit(n) => spec_dec_nat(n as nat),
        ArrayLen::Named(c) => spec_title_camel(c@),
    }
}

pub fn size_seg(l: &ArrayLen) -> (r: String)
    ensures
        r@ == spec_size_seg(*l),
{
    match l {
        ArrayLen::Lit(n) => dec_u64(*n),
        ArrayLen::Named(c) => to_title_camel(c.as_str()),
    }
}

/// The name segment one merged callback parameter contributes.
pub open spec fn spec_cb_seg(
    aliases: Seq<AliasEntry>,
    types: Seq<TypeEntry>,
    m: CbMPar,
) -> Option<Seq<char>> {
    match m {
        CbMPar::Pair { elem, .. } => match spec_chase(aliases, elem, aliases.len() + 1) {
            None => None,
            Some(e) => match e {
                RustType::Prim(p) => if p == Prim::CVoid {
                    None
                } else {
                    Some(spec_prim_seg(p) + "List"@)
                },
                RustType::Named(n2) => Some(spec_upper_camel(n2@) + "List"@),
                _ => None,
            },
        },
        CbMPar::Plain { ty, .. } => match spec_chase(aliases, ty, aliases.len() + 1) {
            None => None,
            Some(rt) => match rt {
                RustType::Prim(p) => if p == Prim::CVoid {
                    None
                } else {
                    Some(spec_prim_seg(p))
                },
                RustType::Named(n2) => Some(spec_upper_camel(n2@)),
                RustType::Ptr { target, .. } => match spec_chase(
                    aliases,
                    *target,
                    aliases.len() + 1,
                ) {
                    None => None,
                    Some(pt) => match pt {
                        RustType::Prim(p) => if p == Prim::CChar {
                            Some("String"@)
                        } else {
                            None
                        },
                        RustType::Named(n2) => Some(spec_upper_camel(n2@)),
                        _ => None,
                    },
                },
                RustType::Array { elem, len } => match spec_chase(
                    aliases,
                    *elem,
                    aliases.len() + 1,
                ) {
                    None => None,
                    Some(e) => match e {
                        RustType::Prim(p) => if p == Prim::CVoid {
                            None
                        } else {
                            Some(spec_prim_seg(p) + "Array"@ + spec_size_seg(len))
                        },
                        RustType::Named(n2) => Some(
                            spec_upper_camel(n2@) + "Array"@ + spec_size_seg(len),
                        ),
                        _ => None,
                    },
                },
            },
        },
    }
}

pub fn cb_seg(aliases: &Vec<AliasEntry>, types: &Vec<TypeEntry>, m: &CbMPar) -> (r: Result<
    String,
    MapErr,
>)
    ensures
        match r {
            Ok(s) => spec_cb_seg(aliases@, types@, *m) == Some(s@),
            Err(_) => spec_cb_seg(aliases@, types@, *m) is None,
        },
{
    match m {
        CbMPar::Pair { elem, .. } => match chase(aliases, elem) {
            None => Err(MapErr::Unresolved),
            Some(e) => match e {
                RustType::Prim(p) => {
                    if p == Prim::CVoid {
                        Err(MapErr::CallbackShape)
                    } else {
                        let mut s = String::from_str(prim_seg(p));
                        s.append("List");
                        proof {
                            assert(s@ =~= spec_prim_seg(p) + "List"@);
                        }
                        Ok(s)
                    }
                },
                RustType::Named(n2) => {
                    let mut s = to_upper_camel(n2.as_str());
                    s.append("List");
                    proof {
                        assert(s@ =~= spec_upper_camel(n2@) + "List"@);
                    }
                    Ok(s)
                },
                _ => Err(MapErr::CallbackShape),
            },
        },
        CbMPar::Plain { ty, .. } => match chase(aliases, ty) {
            None => Err(MapErr::Unresolved),
            Some(rt) => match rt {
                RustType::Prim(p) => {
                    if p == Prim::CVoid {
                        Err(MapErr::CallbackShape)
                    } else {
                        Ok(String::from_str(prim_seg(p)))
                    }
                },
                RustType::Named(n2) => Ok(to_upper_camel(n2.as_str())),
                RustType::Ptr { target, .. } => match chase(aliases, &*target) {
                    None => Err(MapErr::Unresolved),
                    Some(pt) => match pt {
                        RustType::Prim(p) => {
                            if p == Prim::CChar {
                                Ok(String::from_str("String"))
                            } else {
                                Err(MapErr::CallbackShape)
                            }
                        },
                        RustType::Named(n2) => Ok(to_upper_camel(n2.as_str())),
                        _ => Err(MapErr::CallbackShape),
                    },
                },
                RustType::Array { elem, len } => match chase(aliases, &*elem) {
                    None => Err(MapErr::Unresolved),
                    Some(e) => match e {
                        RustType::Prim(p) => {
                            if p == Prim::CVoid {
                                Err(MapErr::CallbackShape)
                            } else {
                                let mut s = String::from_str(prim_seg(p));
                                s.append("Array");
                                let z = size_seg(&len);
                                s.append(z.as_str());
                                proof {
                                    assert(s@ =~= spec_prim_seg(p) + "Array"@ + spec_size_seg(
                                        len,
                                    ));
                                }
                                Ok(s)
                            }
                        },
                        RustType::Named(n2) => {
                            let mut s = to_upper_camel(n2.as_str());
                            s.append("Array");
                            let z = size_seg(&len);
                            s.append(z.as_str());
                            proof {
                                assert(s@ =~= spec_upper_camel(n2@) + "Array"@ + spec_size_seg(
                                    len,
                                ));
                            }
                            Ok(s)
                        },
                        _ => Err(MapErr::CallbackShape),
                    },
                },
            },
        },
    }
}

/// The concatenated name segments of the merged parameters from `i` on.
pub open spec fn spec_cb_segs_from(
    aliases: Seq<AliasEntry>,
    types: Seq<TypeEntry>,
    ms: Seq<CbMPar>,
    i: int,
) -> Option<Seq<char>>
    decreases ms.len() - i,
{
    if i < 0 || i >= ms.len() {
        Some(Seq::<char>::empty())
    } else {
        match spec_cb_seg(aliases, types, ms[i]) {
            None => None,
            Some(s) => match spec_cb_segs_from(aliases, types, ms, i + 1) {
                None => None,
                Some(rest) => Some(s + rest),
            },
        }
    }
}

pub fn cb_segs_from(
    aliases: &Vec<AliasEntry>,
    types: &Vec<TypeEntry>,
    ms: &Vec<CbMPar>,
    i: usize,
) -> (r: Result<String, MapErr>)
    ensures
        match r {
            Ok(s) => spec_cb_segs_from(aliases@, types@, ms@, i as int) == Some(s@),
            Err(_) => spec_cb_segs_from(aliases@, types@, ms@, i as int) is None,
        },
    decreases ms@.len() - i,
{
    if i >= ms.len() {
        return Ok(String::new());
    }
    match cb_seg(aliases, types, &ms[i]) {
        Err(e) => Err(e),
        Ok(mut s) => match cb_segs_from(aliases, types, ms, i + 1) {
            Err(e) => Err(e),
            Ok(rest) => {
                s.append(rest.as_str());
                proof {
                    assert(s@ =~= spec_cb_segs_from(aliases@, types@, ms@, i as int)->Some_0);
                }
                Ok(s)
            },
        },
    }
}

/// Where naming and payload classification start: the leading user-data slot
/// of a callback is excluded.
pub open spec fn spec_cb_rest_start(ps: Seq<CbParam>) -> int {
    if ps.len() > 0 && spec_is_ud_cb(ps[0]) {
        1
    } else {
        0
    }
}

/// The derived delegate type name of a callback.
pub open spec fn spec_cb_name(
    aliases: Seq<AliasEntry>,
    types: Seq<TypeEntry>,
    ps: Seq<CbParam>,
) -> Option<Seq<char>> {
    let ms = spec_cb_merge(ps, spec_cb_rest_start(ps));
    match spec_cb_segs_from(aliases, types, ms, 0) {
        None => None,
        Some(s) => if ms.len() == 0 {
            Some("None"@ + "Cb"@)
        } else {
            Some(s + "Cb"@)
        },
    }
}

pub fn cb_name(aliases: &Vec<AliasEntry>, types: &Vec<TypeEntry>, ps: &Vec<CbParam>) -> (r: Result<
    String,
    MapErr,
>)
    ensures
        match r {
            Ok(s) => spec_cb_name(aliases@, types@, ps@) == Some(s@),
            Err(_) => spec_cb_name(aliases@, types@, ps@) is None,
        },
{
    let start: usize = if ps.len() > 0 && is_ud_cb(&ps[0]) {
        1
    } else {
        0
    };
    let ms = cb_merge(ps, start);
    match cb_segs_from(aliases, types, &ms, 0) {
        Err(e) => Err(e),
        Ok(s) => {
            if ms.len() == 0 {
                let mut out = String::from_str("None");
                out.append("Cb");
                proof {
                    assert(out@ =~= "None"@ + "Cb"@);
                }
                Ok(out)
            } else {
                let mut out = s;
                out.append("Cb");
                Ok(out)
            }
        },
    }
}

/// The size expression used when a trampoline reconstructs a fixed array.
pub open spec fn spec_tramp_size(l: ArrayLen) -> Seq<char> {
    match l {
        ArrayLen::Lit(n) => spec_dec_nat(n as nat),
        ArrayLen::Named(c) => "Constants."@ + c@,
    }
}

pub fn tramp_size(l: &ArrayLen) -> (r: String)
    ensures
        r@ == spec_tramp_size(*l),
{
    match l {
        ArrayLen::Lit(n) => dec_u64(*n),
        ArrayLen::Named(c) => {
            let mut s = String::from_str("Constants.");
            s.append(c.as_str());
            s
        },
    }
}

/// One argument of the trampoline's completion call: plain values and the
/// status reference pass through; array payloads are reconstructed from
/// their pointers.
pub open spec fn spec_tramp_arg(
    aliases: Seq<AliasEntry>,
    types: Seq<TypeEntry>,
    m: CbMPar,
) -> Option<Seq<char>> {
    match m {
        CbMPar::Pair { ptr_name, elem } => {
            let bsrc = if is_ptr_name(ptr_name@) {
                ptr_base(ptr_name@)
            } else {
                ptr_name@
            };
            match spec_chase(aliases, elem, aliases.len() + 1) {
                None => None,
                Some(e) => match e {
                    RustType::Prim(p) => if p == Prim::U8 {
                        Some(
                            "Utils.CopyToByteArray("@ + spec_lower_camel(ptr_name@) + ", "@
                                + spec_lower_camel(bsrc + "_len"@) + ")"@,
                        )
                    } else {
                        None
                    },
                    RustType::Named(n2) => Some(
                        "Utils.CopyToObjectArray<"@ + spec_named_cs(types, n2@) + ">("@
                            + spec_lower_camel(ptr_name@) + ", "@ + spec_lower_camel(
                            bsrc + "_len"@,
                        ) + ")"@,
                    ),
                    _ => None,
                },
            }
        },
        CbMPar::Plain { name, pos, ty } => {
            let n0 = spec_cb_pname(name, pos as int);
            match spec_chase(aliases, ty, aliases.len() + 1) {
                None => None,
                Some(rt) => match rt {
                    RustType::Prim(p) => if p == Prim::CVoid {
                        None
                    } else {
                        Some(n0)
                    },
                    RustType::Named(_) => Some(n0),
                    RustType::Ptr { target, .. } => match spec_chase(
                        aliases,
                        *target,
                        aliases.len() + 1,
                    ) {
                        None => None,
                        Some(pt) => match pt {
                            RustType::Prim(p) => if p == Prim::CVoid || p == Prim::CChar {
                                Some(n0)
                            } else {
                                None
                            },
                            RustType::Named(_) => Some("ref "@ + n0),
                            _ => None,
                        },
                    },
                    RustType::Array { elem, len } => match spec_chase(
                        aliases,
                        *elem,
                        aliases.len() + 1,
                    ) {
                        None => None,
                        Some(e) => match e {
                            RustType::Prim(p) => if p == Prim::U8 {
                                Some(
                                    "Utils.CopyToByteArray("@ + n0 + "Ptr, "@ + spec_tramp_size(
                                        len,
                                    ) + ")"@,
                                )
                            } else {
                                None
                            },
                            _ => None,
                        },
                    },
                },
            }
        },
    }
}

pub fn tramp_arg(aliases: &Vec<AliasEntry>, types: &Vec<TypeEntry>, m: &CbMPar) -> (r: Result<
    String,
    MapErr,
>)
    ensures
        match r {
            Ok(s) => spec_tramp_arg(aliases@, types@, *m) == Some(s@),
            Err(_) => spec_tramp_arg(aliases@, types@, *m) is None,
        },
{
    match m {
        CbMPar::Pair { ptr_name, elem } => {
            let base = match ptr_base_name(ptr_name.as_str()) {
                Some(b) => b,
                None => ptr_name.clone(),
            };
            let pn = to_lower_camel(ptr_name.as_str());
            let mut lensrc = base;
            lensrc.append("_len");
            let ln = to_lower_camel(lensrc.as_str());
            match chase(aliases, elem) {
                None => Err(MapErr::Unresolved),
                Some(e) => match e {
                    RustType::Prim(p) => {
                        if p == Prim::U8 {
                            let mut s = String::from_str("Utils.CopyToByteArray(");
                            s.append(pn.as_str());
                            s.append(", ");
                            s.append(ln.as_str());
                            s.append(")");
                            proof {
                                assert(s@ =~= spec_tramp_arg(aliases@, types@, *m)->Some_0);
                            }
                            Ok(s)
                        } else {
                            Err(MapErr::CallbackShape)
                        }
                    },
                    RustType::Named(n2) => {
                        let mut s = String::from_str("Utils.CopyToObjectArray<");
                        let t = named_cs(types, &n2);
                        s.append(t.as_str());
                        s.append(">(");
                        s.append(pn.as_str());
                        s.append(", ");
                        s.append(ln.as_str());
                        s.append(")");
                        proof {
                            assert(s@ =~= spec_tramp_arg(aliases@, types@, *m)->Some_0);
                        }
                        Ok(s)
                    },
                    _ => Err(MapErr::CallbackShape),
                },
            }
        },
        CbMPar::Plain { name, pos, ty } => {
            let n0 = cb_pname(name, *pos);
            match chase(aliases, ty) {
                None => Err(MapErr::Unresolved),
                Some(rt) => match rt {
                    RustType::Prim(p) => {
                        if p == Prim::CVoid {
                            Err(MapErr::CallbackShape)
                        } else {
                            Ok(n0)
                        }
                    },
                    RustType::Named(_) => Ok(n0),
                    RustType::Ptr { target, .. } => match chase(aliases, &*target) {
                        None => Err(MapErr::Unresolved),
                        Some(pt) => match pt {
                            RustType::Prim(p) => {
                                if p == Prim::CVoid || p == Prim::CChar {
                                    Ok(n0)
                                } else {
                                    Err(MapErr::CallbackShape)
                                }
                            },
                            RustType::Named(_) => {
                                let mut s = String::from_str("ref ");
                                s.append(n0.as_str());
                                proof {
                                    assert(s@ =~= "ref "@ + n0@);
                                }
                                Ok(s)
                            },
                            _ => Err(MapErr::CallbackShape),
                        },
                    },
                    RustType::Array { elem, len } => match chase(aliases, &*elem) {
                        None => Err(MapErr::Unresolved),
                        Some(e) => match e {
                            RustType::Prim(p) => {
                                if p == Prim::U8 {
                                    let mut s = String::from_str("Utils.CopyToByteArray(");
                                    s.append(n0.as_str());
                                    s.append("Ptr, ");
                                    let z = tramp_size(&len);
                                    s.append(z.as_str());
                                    s.append(")");
                                    proof {
                                        assert(s@ =~= spec_tramp_arg(aliases@, types@, *m)
                                            ->Some_0);
                                    }
                                    Ok(s)
                                } else {
                                    Err(MapErr::CallbackShape)
                                }
                            },
                            _ => Err(MapErr::CallbackShape),
                        },
                    },
                },
            }
        },
    }
}

/// The comma-separated completion-call arguments from position `i` on.
pub open spec fn spec_tramp_args_from(
    aliases: Seq<AliasEntry>,
    types: Seq<TypeEntry>,
    ms: Seq<CbMPar>,
    i: int,
) -> Option<Seq<char>>
    decreases ms.len() - i,
{
    if i < 0 || i >= ms.len() {
        Some(Seq::<char>::empty())
    } else {
        match spec_tramp_arg(aliases, types, ms[i]) {
            None => None,
            Some(s) => match spec_tramp_args_from(aliases, types, ms, i + 1) {
                None => None,
                Some(rest) => {
                    let sep = if i + 1 < ms.len() {
                        ", "@
                    } else {
                        Seq::<char>::empty()
                    };
                    Some(s + sep + rest)
                },
            },
        }
    }
}

pub fn tramp_args_from(
    aliases: &Vec<AliasEntry>,
    types: &Vec<TypeEntry>,
    ms: &Vec<CbMPar>,
    i: usize,
) -> (r: Result<String, MapErr>)
    ensures
        match r {
            Ok(s) => spec_tramp_args_from(aliases@, types@, ms@, i as int) == Some(s@),
            Err(_) => spec_tramp_args_from(aliases@, types@, ms@, i as int) is None,
        },
    decreases ms@.len() - i,
{
    if i >= ms.len() {
        return Ok(String::new());
    }
    match tramp_arg(aliases, types, &ms[i]) {
        Err(e) => Err(e),
        Ok(mut s) => match tramp_args_from(aliases, types, ms, i + 1) {
            Err(e) => Err(e),
            Ok(rest) => {
                if i + 1 < ms.len() {
                    s.append(", ");
                }
                s.append(rest.as_str());
                proof {
                    assert(s@ =~= spec_tramp_args_from(aliases@, types@, ms@, i as int)->Some_0);
                }
                Ok(s)
            },
        },
    }
}

/// Whether a merged callback parameter is the status reference, a pointer to
/// a named result struct.
pub open spec fn spec_is_status(aliases: Seq<AliasEntry>, m: CbMPar) -> bool {
    match m {
        CbMPar::Plain { ty, .. } => match spec_chase(aliases, ty, aliases.len() + 1) {
            Some(rt) => match rt {
                RustType::Ptr { target, .. } => match spec_chase(
                    aliases,
                    *target,
                    aliases.len() + 1,
                ) {
                    Some(pt) => pt is Named,
                    None => false,
                },
                _ => false,
            },
            None => false,
        },
        _ => false,
    }
}

pub fn is_status(aliases: &Vec<AliasEntry>, m: &CbMPar) -> (r: bool)
    ensures
        r == spec_is_status(aliases@, *m),
{
    match m {
        CbMPar::Plain { ty, .. } => match chase(aliases, ty) {
            Some(rt) => match rt {
                RustType::Ptr { target, .. } => match chase(aliases, &*target) {
                    Some(pt) => match pt {
                        RustType::Named(_) => true,
                        _ => false,
                    },
                    None => false,
                },
                _ => false,
            },
            None => false,
        },
        _ => false,
    }
}

/// The value payload type of an asynchronous completion, beyond the bare
/// status result: empty for a bare completion; the host type of a single
/// value; an array type for a fixed-array or pointer/length payload.
pub open spec fn spec_task_ty(
    aliases: Seq<AliasEntry>,
    types: Seq<TypeEntry>,
    ps: Seq<CbParam>,
) -> Option<Seq<char>> {
    let ms = spec_cb_merge(ps, spec_cb_rest_start(ps));
    let s2: int = if ms.len() > 0 && spec_is_status(aliases, ms[0]) {
        1
    } else {
        0
    };
    if ms.len() == s2 {
        Some(Seq::<char>::empty())
    } else if ms.len() == s2 + 1 {
        match ms[s2] {
            CbMPar::Pair { elem, .. } => match spec_chase(aliases, elem, aliases.len() + 1) {
                None => None,
                Some(e) => match e {
                    RustType::Prim(p) => if p == Prim::U8 {
                        Some("byte[]"@)
                    } else {
                        None
                    },
                    RustType::Named(n2) => Some(spec_named_cs(types, n2@) + "[]"@),
                    _ => None,
                },
            },
            CbMPar::Plain { ty, .. } => match spec_chase(aliases, ty, aliases.len() + 1) {
                None => None,
                Some(rt) => match rt {
                    RustType::Prim(p) => if p == Prim::CVoid {
                        None
                    } else {
                        Some(spec_prim_cs(p))
                    },
                    RustType::Named(n2) => Some(spec_named_cs(types, n2@)),
                    RustType::Ptr { target, .. } => match spec_chase(
                        aliases,
                        *target,
                        aliases.len() + 1,
                    ) {
                        Some(pt) => match pt {
                            RustType::Prim(p) => if p == Prim::CChar {
                                Some("String"@)
                            } else {
                                None
                            },
                            _ => None,
                        },
                        None => None,
                    },
                    RustType::Array { elem, .. } => match spec_chase(
                        aliases,
                        *elem,
                        aliases.len() + 1,
                    ) {
                        Some(e) => match e {
                            RustType::Prim(p) => if p == Prim::U8 {
                                Some("byte[]"@)
                            } else {
                                None
                            },
                            _ => None,
                        },
                        None => None,
                    },
                },
            },
        }
    } else {
        None
    }
}

pub fn task_ty(aliases: &Vec<AliasEntry>, types: &Vec<TypeEntry>, ps: &Vec<CbParam>) -> (r: Result<
    String,
    MapErr,
>)
    ensures
        match r {
            Ok(s) => spec_task_ty(aliases@, types@, ps@) == Some(s@),
            Err(_) => spec_task_ty(aliases@, types@, ps@) is None,
        },
{
    let start: usize = if ps.len() > 0 && is_ud_cb(&ps[0]) {
        1
    } else {
        0
    };
    let ms = cb_merge(ps, start);
    let s2: usize = if ms.len() > 0 && is_status(aliases, &ms[0]) {
        1
    } else {
        0
    };
    if ms.len() == s2 {
        return Ok(String::new());
    }
    if ms.len() != s2 + 1 {
        return Err(MapErr::CallbackShape);
    }
    match &ms[s2] {
        CbMPar::Pair { elem, .. } => match chase(aliases, elem) {
            None => Err(MapErr::Unresolved),
            Some(e) => match e {
                RustType::Prim(p) => {
                    if p == Prim::U8 {
                        Ok(String::from_str("byte[]"))
                    } else {
                        Err(MapErr::CallbackShape)
                    }
                },
                RustType::Named(n2) => {
                    let mut s = named_cs(types, &n2);
                    s.append("[]");
                    proof {
                        assert(s@ =~= spec_named_cs(types@, n2@) + "[]"@);
                    }
                    Ok(s)
                },
                _ => Err(MapErr::CallbackShape),
            },
        },
        CbMPar::Plain { ty, .. } => match chase(aliases, ty) {
            None => Err(MapErr::Unresolved),
            Some(rt) => match rt {
                RustType::Prim(p) => {
                    if p == Prim::CVoid {
                        Err(MapErr::CallbackShape)
                    } else {
                        Ok(String::from_str(prim_cs(p)))
                    }
                },
                RustType::Named(n2) => Ok(named_cs(types, &n2)),
                RustType::Ptr { target, .. } => match chase(aliases, &*target) {
                    Some(pt) => match pt {
                        RustType::Prim(p) => {
                            if p == Prim::CChar {
                                Ok(String::from_str("String"))
                            } else {
                                Err(MapErr::CallbackShape)
                            }
                        },
                        _ => Err(MapErr::CallbackShape),
                    },
                    None => Err(MapErr::Unresolved),
                },
                RustType::Array { elem, .. } => match chase(aliases, &*elem) {
                    Some(e) => match e {
                        RustType::Prim(p) => {
                            if p == Prim::U8 {
                                Ok(String::from_str("byte[]"))
                            } else {
                                Err(MapErr::CallbackShape)
                            }
                        },
                        _ => Err(MapErr::CallbackShape),
                    },
                    None => Err(MapErr::Unresolved),
                },
            },
        },
    }
}

/// The host return type of a function: `void` where there is none.
pub open spec fn spec_ret_cs(
    aliases: Seq<AliasEntry>,
    types: Seq<TypeEntry>,
    r: Option<RustType>,
) -> Option<Seq<char>> {
    match r {
        None => Some("void"@),
        Some(t) => match spec_chase(aliases, t, aliases.len() + 1) {
            None => None,
            Some(rt) => match rt {
                RustType::Prim(p) => if p == Prim::CVoid {
                    None
                } else {
                    Some(spec_prim_cs(p))
                },
                RustType::Named(n2) => Some(spec_named_cs(types, n2@)),
                RustType::Ptr { .. } => Some("IntPtr"@),
                _ => None,
            },
        },
    }
}

pub fn ret_cs(aliases: &Vec<AliasEntry>, types: &Vec<TypeEntry>, r: &Option<RustType>) -> (res:
    Result<String, MapErr>)
    ensures
        match res {
            Ok(s) => spec_ret_cs(aliases@, types@, *r) == Some(s@),
            Err(_) => spec_ret_cs(aliases@, types@, *r) is None,
        },
{
    match r {
        None => Ok(String::from_str("void")),
        Some(t) => match chase(aliases, t) {
            None => Err(MapErr::Unresolved),
            Some(rt) => match rt {
                RustType::Prim(p) => {
                    if p == Prim::CVoid {
                        Err(MapErr::Unsupported)
                    } else {
                        Ok(String::from_str(prim_cs(p)))
                    }
                },
                RustType::Named(n2) => Ok(named_cs(types, &n2)),
                RustType::Ptr { .. } => Ok(String::from_str("IntPtr")),
                _ => Err(MapErr::Unsupported),
            },
        },
    }
}

/// An emitted delegate declaration, with its trailing blank line.
pub open spec fn spec_delegate_text(nm: Seq<char>, sig: Seq<char>) -> Seq<char> {
    "        internal delegate void "@ + nm + "("@ + sig + ");\n\n"@
}

pub fn delegate_text(nm: &String, sig: &String) -> (r: String)
    ensures
        r@ == spec_delegate_text(nm@, sig@),
{
    let mut s = String::from_str("        internal delegate void ");
    s.append(nm.as_str());
    s.append("(");
    s.append(sig.as_str());
    s.append(");\n\n");
    proof {
        assert(s@ =~= spec_delegate_text(nm@, sig@));
    }
    s
}

/// An emitted trampoline method, guarded for restricted runtimes that
/// require explicit reverse-callback registration, with its trailing blank
/// line.
pub open spec fn spec_tramp_text(nm: Seq<char>, sig: Seq<char>, args: Seq<char>) -> Seq<char> {
    "        #if __IOS__\n        [MonoPInvokeCallback(typeof("@ + nm
        + "))]\n        #endif\n        private static void On"@ + nm + "("@ + sig
        + ") {\n            Utils.CompleteTask("@ + args + ");\n        }\n\n"@
}

pub fn tramp_text(nm: &String, sig: &String, args: &String) -> (r: String)
    ensures
        r@ == spec_tramp_text(nm@, sig@, args@),
{
    let mut s = String::from_str("        #if __IOS__\n        [MonoPInvokeCallback(typeof(");
    s.append(nm.as_str());
    s.append("))]\n        #endif\n        private static void On");
    s.append(nm.as_str());
    s.append("(");
    s.append(sig.as_str());
    s.append(") {\n            Utils.CompleteTask(");
    s.append(args.as_str());
    s.append(");\n        }\n\n");
    proof {
        assert(s@ =~= spec_tramp_text(nm@, sig@, args@));
    }
    s
}

/// The trailing callback parameters of the native import: one delegate-typed
/// parameter per callback, under its own name.
pub open spec fn spec_cbtail_from(
    aliases: Seq<AliasEntry>,
    types: Seq<TypeEntry>,
    ps: Seq<FnParam>,
    j: int,
) -> Option<Seq<char>>
    decreases ps.len() - j,
{
    if j < 0 || j >= ps.len() {
        Some(Seq::<char>::empty())
    } else {
        match spec_cb_name(aliases, types, cb_params(ps[j])) {
            None => None,
            Some(nm) => match spec_cbtail_from(aliases, types, ps, j + 1) {
                None => None,
                Some(rest) => Some(", "@ + nm + " "@ + spec_lower_camel(ps[j].name@) + rest),
            },
        }
    }
}

pub fn cbtail_from(
    aliases: &Vec<AliasEntry>,
    types: &Vec<TypeEntry>,
    ps: &Vec<FnParam>,
    j: usize,
) -> (r: Result<String, MapErr>)
    ensures
        match r {
            Ok(s) => spec_cbtail_from(aliases@, types@, ps@, j as int) == Some(s@),
            Err(_) => spec_cbtail_from(aliases@, types@, ps@, j as int) is None,
        },
    decreases ps@.len() - j,
{
    if j >= ps.len() {
        return Ok(String::new());
    }
    let cps = clone_cb_params(&ps[j]);
    match cb_name(aliases, types, &cps) {
        Err(e) => Err(e),
        Ok(nm) => match cbtail_from(aliases, types, ps, j + 1) {
            Err(e) => Err(e),
            Ok(rest) => {
                let mut s = String::from_str(", ");
                s.append(nm.as_str());
                s.append(" ");
                let pn = to_lower_camel(ps[j].name.as_str());
                s.append(pn.as_str());
                s.append(rest.as_str());
                proof {
                    assert(s@ =~= spec_cbtail_from(aliases@, types@, ps@, j as int)->Some_0);
                }
                Ok(s)
            },
        },
    }
}

/// Copy the callback parameter list of a parameter; empty where the
/// parameter is not callback-typed.
fn clone_cb_params(p: &FnParam) -> (c: Vec<CbParam>)
    ensures
        c@ == cb_params(*p),
{
    match &p.ty {
        ParamType::Callback(v) => {
            let mut c: Vec<CbParam> = Vec::new();
            let mut x: usize = 0;
            while x < v.len()
                invariant
                    x <= v@.len(),
                    c@ =~= v@.take(x as int),
                decreases v@.len() - x,
            {
                c.push(CbParam { name: clone_opt_name(&v[x].name), ty: clone_type(&v[x].ty) });
                proof {
                    assert(v@.take(x as int).push(v@[x as int]) =~= v@.take(x as int + 1));
                }
                x = x + 1;
            }
            proof {
                assert(c@ =~= v@);
            }
            c
        },
        _ => Vec::new(),
    }
}

/// The view of collected callback entries: name and text pairs.
pub open spec fn cbs_views(s: Seq<CallbackEntry>) -> Seq<(Seq<char>, Seq<char>)> {
    s.map_values(|e: CallbackEntry| (e.name@, e.text@))
}

/// The delegate entries of the callbacks from parameter `j` on, without
/// trampolines: name and delegate text, in parameter order.
pub open spec fn spec_cbs_list_from(
    aliases: Seq<AliasEntry>,
    opaques: Seq<String>,
    types: Seq<TypeEntry>,
    ps: Seq<FnParam>,
    j: int,
) -> Option<Seq<(Seq<char>, Seq<char>)>>
    decreases ps.len() - j,
{
    if j < 0 || j >= ps.len() {
        Some(Seq::<(Seq<char>, Seq<char>)>::empty())
    } else {
        match spec_cb_name(aliases, types, cb_params(ps[j])) {
            None => None,
            Some(nm) => match spec_cb_sig_from(aliases, opaques, types, cb_params(ps[j]), 0) {
                None => None,
                Some(sig) => match spec_cbs_list_from(aliases, opaques, types, ps, j + 1) {
                    None => None,
                    Some(rest) => Some(
                        seq![(nm, spec_delegate_text(nm, sig))] + rest,
                    ),
                },
            },
        }
    }
}

fn cbs_build(
    aliases: &Vec<AliasEntry>,
    opaques: &Vec<String>,
    types: &Vec<TypeEntry>,
    ps: &Vec<FnParam>,
    j: usize,
) -> (r: Result<Vec<CallbackEntry>, MapErr>)
    ensures
        match r {
            Ok(v) => spec_cbs_list_from(aliases@, opaques@, types@, ps@, j as int) == Some(
                cbs_views(v@),
            ),
            Err(_) => spec_cbs_list_from(aliases@, opaques@, types@, ps@, j as int) is None,
        },
    decreases ps@.len() - j,
{
    if j >= ps.len() {
        let v: Vec<CallbackEntry> = Vec::new();
        proof {
            assert(cbs_views(v@) =~= spec_cbs_list_from(
                aliases@,
                opaques@,
                types@,
                ps@,
                j as int,
            )->Some_0);
        }
        return Ok(v);
    }
    let cps = clone_cb_params(&ps[j]);
    match cb_name(aliases, types, &cps) {
        Err(e) => Err(e),
        Ok(nm) => match cb_sig_from(aliases, opaques, types, &cps, 0) {
            Err(e) => Err(e),
            Ok(sig) => match cbs_build(aliases, opaques, types, ps, j + 1) {
                Err(e) => Err(e),
                Ok(rest) => {
                    let text = delegate_text(&nm, &sig);
                    let mut v: Vec<CallbackEntry> = Vec::new();
                    v.push(CallbackEntry { name: nm, text });
                    let mut r2 = rest;
                    v.append(&mut r2);
                    proof {
                        assert(cbs_views(v@) =~= spec_cbs_list_from(
                            aliases@,
                            opaques@,
                            types@,
                            ps@,
                            j as int,
                        )->Some_0);
                    }
                    Ok(v)
                },
            },
        },
    }
}

/// The emitted fragments of one exported function.
pub struct FnFrags {
    /// The wrapper method and native import for the implementation class.
    pub backend: String,
    /// The asynchronous signature for the public interface, where one is
    /// emitted.
    pub iface: String,
    /// The delegate (and trampoline) entries the function contributes.
    pub callbacks: Vec<CallbackEntry>,
}

/// Whether an exported function's shape is classifiable and mappable.
pub open spec fn spec_fn_ok(
    aliases: Seq<AliasEntry>,
    opaques: Seq<String>,
    types: Seq<TypeEntry>,
    f: FnDecl,
) -> bool {
    let ps = f.params@;
    let k = spec_first_cb(ps, 0);
    if k == ps.len() {
        &&& spec_ret_cs(aliases, types, f.ret) is Some
        &&& spec_pair_count(spec_merge_from(ps, 0, ps.len() as int), 0) <= 1
        &&& spec_psig_from(aliases, opaques, types, spec_merge_from(ps, 0, ps.len() as int), 0, 0)
            is Some
    } else {
        &&& k >= 1
        &&& spec_is_user_data(ps[k - 1])
        &&& spec_all_cbs_from(ps, k)
        &&& spec_ret_cs(aliases, types, f.ret) is Some
        &&& spec_pair_count(spec_merge_from(ps, 0, k - 1), 0) <= 1
        &&& spec_psig_from(aliases, opaques, types, spec_merge_from(ps, 0, k - 1), 0, 0) is Some
        &&& spec_cbtail_from(aliases, types, ps, k) is Some
        &&& spec_cbs_list_from(aliases, opaques, types, ps, k) is Some
        &&& (ps.len() - k == 1 ==> spec_tramp_args_from(
            aliases,
            types,
            spec_cb_merge(cb_params(ps[k]), 0),
            0,
        ) is Some && spec_task_ty(aliases, types, cb_params(ps[k])) is Some)
    }
}

/// The generic suffix of the pending-completion type: empty for a bare
/// completion.
pub open spec fn spec_task_sfx(t: Seq<char>) -> Seq<char> {
    if t.len() == 0 {
        Seq::<char>::empty()
    } else {
        "<"@ + t + ">"@
    }
}

/// The implementation-class fragment of one exported function: wrapper (for
/// callback counts zero and one) and native import.
pub open spec fn spec_fn_backend(
    aliases: Seq<AliasEntry>,
    opaques: Seq<String>,
    types: Seq<TypeEntry>,
    f: FnDecl,
) -> Seq<char> {
    let ps = f.params@;
    let k = spec_first_cb(ps, 0);
    let fname = spec_upper_camel(f.name@);
    let rettext = spec_ret_cs(aliases, types, f.ret)->Some_0;
    if k == ps.len() {
        let trip = spec_psig_from(
            aliases,
            opaques,
            types,
            spec_merge_from(ps, 0, ps.len() as int),
            0,
            0,
        )->Some_0;
        "        public "@ + rettext + " "@ + fname + "("@ + trip.0 + ") {\n"@ + (if f.ret
            is Some {
            "            return "@
        } else {
            "            "@
        }) + fname + "Native("@ + trip.2 + ");\n        }\n\n"@
            + "        [DllImport(DLL_NAME, EntryPoint = \""@ + f.name@
            + "\")]\n        internal static extern "@ + rettext + " "@ + fname + "Native("@
            + trip.1 + ");\n\n"@
    } else {
        let front = spec_merge_from(ps, 0, k - 1);
        let trip = spec_psig_from(aliases, opaques, types, front, 0, 0)->Some_0;
        let fsep = if front.len() > 0 {
            ", "@
        } else {
            Seq::<char>::empty()
        };
        let udname = spec_lower_camel(ps[k - 1].name@);
        let tail = "IntPtr "@ + udname + spec_cbtail_from(aliases, types, ps, k)->Some_0;
        let import = "        [DllImport(DLL_NAME, EntryPoint = \""@ + f.name@
            + "\")]\n        internal static extern "@ + rettext + " "@ + fname + "Native("@
            + trip.1 + fsep + tail + ");\n\n"@;
        if ps.len() - k == 1 {
            let nm = spec_cb_name(aliases, types, cb_params(ps[k]))->Some_0;
            let sfx = spec_task_sfx(spec_task_ty(aliases, types, cb_params(ps[k]))->Some_0);
            "        public Task"@ + sfx + " "@ + fname + "("@ + trip.0
                + ") {\n            var (task, userData) = Utils.PrepareTask"@ + sfx
                + "();\n            "@ + fname + "Native("@ + trip.2 + fsep + "userData, On"@ + nm
                + ");\n            return task;\n        }\n\n"@ + import
        } else {
            import
        }
    }
}

/// The public-interface fragment of one exported function: only functions
/// with exactly one callback contribute an asynchronous signature.
pub open spec fn spec_fn_iface(
    aliases: Seq<AliasEntry>,
    opaques: Seq<String>,
    types: Seq<TypeEntry>,
    f: FnDecl,
) -> Seq<char> {
    let ps = f.params@;
    let k = spec_first_cb(ps, 0);
    if k < ps.len() && ps.len() - k == 1 {
        let front = spec_merge_from(ps, 0, k - 1);
        let trip = spec_psig_from(aliases, opaques, types, front, 0, 0)->Some_0;
        let sfx = spec_task_sfx(spec_task_ty(aliases, types, cb_params(ps[k]))->Some_0);
        "        Task"@ + sfx + " "@ + spec_upper_camel(f.name@) + "("@ + trip.0 + ");\n"@
    } else {
        Seq::<char>::empty()
    }
}

/// The callback entries one exported function contributes: a delegate and
/// trampoline for a single callback; bare delegates for several.
pub open spec fn spec_fn_cbs(
    aliases: Seq<AliasEntry>,
    opaques: Seq<String>,
    types: Seq<TypeEntry>,
    f: FnDecl,
) -> Seq<(Seq<char>, Seq<char>)> {
    let ps = f.params@;
    let k = spec_first_cb(ps, 0);
    if k == ps.len() {
        Seq::<(Seq<char>, Seq<char>)>::empty()
    } else if ps.len() - k == 1 {
        let cps = cb_params(ps[k]);
        let nm = spec_cb_name(aliases, types, cps)->Some_0;
        let sig = spec_cb_sig_from(aliases, opaques, types, cps, 0)->Some_0;
        let targs = spec_tramp_args_from(aliases, types, spec_cb_merge(cps, 0), 0)->Some_0;
        seq![(nm, spec_delegate_text(nm, sig) + spec_tramp_text(nm, sig, targs))]
    } else {
        spec_cbs_list_from(aliases, opaques, types, ps, k)->Some_0
    }
}

/// Emit the fragments of one function that carries both the C-ABI
/// calling-convention marker and the exported-symbol marker.
#[verifier::rlimit(100)]
#[verifier::loop_isolation(false)]
pub fn fn_fragments(
    aliases: &Vec<AliasEntry>,
    opaques: &Vec<String>,
    types: &Vec<TypeEntry>,
    f: &FnDecl,
) -> (r: Result<FnFrags, MapErr>)
    ensures
        match r {
            Ok(fr) => spec_fn_ok(aliases@, opaques@, types@, *f) && fr.backend@ == spec_fn_backend(
                aliases@,
                opaques@,
                types@,
                *f,
            ) && fr.iface@ == spec_fn_iface(aliases@, opaques@, types@, *f) && cbs_views(
                fr.callbacks@,
            ) == spec_fn_cbs(aliases@, opaques@, types@, *f),
            Err(_) => !spec_fn_ok(aliases@, opaques@, types@, *f),
        },
{
    let ps = &f.params;
    let k = first_cb(ps);
    let fname = to_upper_camel(f.name.as_str());
    let rettext = match ret_cs(aliases, types, &f.ret) {
        Ok(s) => s,
        Err(e) => {
            return Err(e);
        },
    };
    if k == ps.len() {
        let ms = merge_from(ps, 0, ps.len());
        if pair_count(&ms, 0) > 1 {
            return Err(MapErr::Unsupported);
        }
        proof {
            assert(ms@.len() <= usize::MAX) by {
                assert(ms@.len() == ms.len());
            }
        }
        let trip = match psig_from(aliases, opaques, types, &ms, 0, 0) {
            Ok(t) => t,
            Err(e) => {
                return Err(e);
            },
        };
        let mut b = String::from_str("        public ");
        b.append(rettext.as_str());
        b.append(" ");
        b.append(fname.as_str());
        b.append("(");
        b.append(trip.0.as_str());
        b.append(") {\n");
        match &f.ret {
            Some(_) => b.append("            return "),
            None => b.append("            "),
        }
        b.append(fname.as_str());
        b.append("Native(");
        b.append(trip.2.as_str());
        b.append(");\n        }\n\n");
        b.append("        [DllImport(DLL_NAME, EntryPoint = \"");
        b.append(f.name.as_str());
        b.append("\")]\n        internal static extern ");
        b.append(rettext.as_str());
        b.append(" ");
        b.append(fname.as_str());
        b.append("Native(");
        b.append(trip.1.as_str());
        b.append(");\n\n");
        proof {
            assert(b@ =~= spec_fn_backend(aliases@, opaques@, types@, *f));
        }
        let v: Vec<CallbackEntry> = Vec::new();
        proof {
            assert(cbs_views(v@) =~= spec_fn_cbs(aliases@, opaques@, types@, *f));
        }
        return Ok(FnFrags { backend: b, iface: String::new(), callbacks: v });
    }
    if k == 0 {
        return Err(MapErr::CallbackShape);
    }
    if !is_user_data(&ps[k - 1]) {
        return Err(MapErr::CallbackShape);
    }
    let mut j: usize = k;
    while j < ps.len()
        invariant
            k <= j <= ps@.len(),
            k as int == spec_first_cb(ps@, 0),
            1 <= k < ps@.len(),
            forall|x: int| k <= x < j ==> (#[trigger] ps@[x].ty) is Callback,
        decreases ps@.len() - j,
    {
        let is_cb = match &ps[j].ty {
            ParamType::Callback(_) => true,
            _ => false,
        };
        if !is_cb {
            proof {
                assert(!((ps@[j as int].ty) is Callback));
                assert(!spec_all_cbs_from(ps@, k as int));
                assert(spec_first_cb(ps@, 0) != ps@.len());
                assert(!spec_fn_ok(aliases@, opaques@, types@, *f));
            }
            return Err(MapErr::CallbackShape);
        }
        j = j + 1;
    }
    let front = merge_from(ps, 0, k - 1);
    if pair_count(&front, 0) > 1 {
        return Err(MapErr::Unsupported);
    }
    proof {
        assert(front@.len() <= usize::MAX) by {
            assert(front@.len() == front.len());
        }
    }
    let trip = match psig_from(aliases, opaques, types, &front, 0, 0) {
        Ok(t) => t,
        Err(e) => {
            return Err(e);
        },
    };
    let tailtext = match cbtail_from(aliases, types, ps, k) {
        Ok(t) => t,
        Err(e) => {
            return Err(e);
        },
    };
    let entries = match cbs_build(aliases, opaques, types, ps, k) {
        Ok(v) => v,
        Err(e) => {
            return Err(e);
        },
    };
    let udname = to_lower_camel(ps[k - 1].name.as_str());
    let mut import = String::from_str("        [DllImport(DLL_NAME, EntryPoint = \"");
    import.append(f.name.as_str());
    import.append("\")]\n        internal static extern ");
    import.append(rettext.as_str());
    import.append(" ");
    import.append(fname.as_str());
    import.append("Native(");
    import.append(trip.1.as_str());
    if front.len() > 0 {
        import.append(", ");
    }
    import.append("IntPtr ");
    import.append(udname.as_str());
    import.append(tailtext.as_str());
    import.append(");\n\n");
    if ps.len() - k == 1 {
        let cps = clone_cb_params(&ps[k]);
        let nm = match cb_name(aliases, types, &cps) {
            Ok(s) => s,
            Err(e) => {
                return Err(e);
            },
        };
        let sig = match cb_sig_from(aliases, opaques, types, &cps, 0) {
            Ok(s) => s,
            Err(e) => {
                return Err(e);
            },
        };
        let msfull = cb_merge(&cps, 0);
        let targs = match tramp_args_from(aliases, types, &msfull, 0) {
            Ok(s) => s,
            Err(e) => {
                return Err(e);
            },
        };
        let task = match task_ty(aliases, types, &cps) {
            Ok(s) => s,
            Err(e) => {
                return Err(e);
            },
        };
        let mut sfx = String::new();
        if !task.as_str().is_empty() {
            sfx.append("<");
            sfx.append(task.as_str());
            sfx.append(">");
        }
        proof {
            assert(sfx@ =~= spec_task_sfx(spec_task_ty(aliases@, types@, cb_params(ps@[
                k as int]))->Some_0));
        }
        let mut w = String::from_str("        public Task");
        w.append(sfx.as_str());
        w.append(" ");
        w.append(fname.as_str());
        w.append("(");
        w.append(trip.0.as_str());
        w.append(") {\n            var (task, userData) = Utils.PrepareTask");
        w.append(sfx.as_str());
        w.append("();\n            ");
        w.append(fname.as_str());
        w.append("Native(");
        w.append(trip.2.as_str());
        if front.len() > 0 {
            w.append(", ");
        }
        w.append("userData, On");
        w.append(nm.as_str());
        w.append(");\n            return task;\n        }\n\n");
        w.append(import.as_str());
        proof {
            assert(w@ =~= spec_fn_backend(aliases@, opaques@, types@, *f));
        }
        let mut ifc = String::from_str("        Task");
        ifc.append(sfx.as_str());
        ifc.append(" ");
        ifc.append(fname.as_str());
        ifc.append("(");
        ifc.append(trip.0.as_str());
        ifc.append(");\n");
        proof {
            assert(ifc@ =~= spec_fn_iface(aliases@, opaques@, types@, *f));
        }
        let dtext = delegate_text(&nm, &sig);
        let ttext = tramp_text(&nm, &sig, &targs);
        let mut text = dtext;
        text.append(ttext.as_str());
        let mut v: Vec<CallbackEntry> = Vec::new();
        v.push(CallbackEntry { name: nm, text });
        proof {
            assert(cbs_views(v@) =~= spec_fn_cbs(aliases@, opaques@, types@, *f));
        }
        Ok(FnFrags { backend: w, iface: ifc, callbacks: v })
    } else {
        proof {
            assert(import@ =~= spec_fn_backend(aliases@, opaques@, types@, *f));
            assert(cbs_views(entries@) =~= spec_fn_cbs(aliases@, opaques@, types@, *f));
        }
        Ok(FnFrags { backend: import, iface: String::new(), callbacks: entries })
    }
}

} // verus!
