//! The type environment: alias resolution and the registry of seen types.
//!
//! Aliases are followed to a fixed point; a name that is neither an alias nor
//! a registered type passes through unchanged.  Once an alias resolves to a
//! concrete type that mapping never changes within one compilation run, since
//! entries are only appended and the first entry for a name wins.

use vstd::prelude::*;

use crate::text::{spec_upper_camel, to_upper_camel};
use crate::types::{ArrayLen, RustType};

verus! {

/// One registered type alias.
pub struct AliasEntry {
    pub name: String,
    pub target: RustType,
}

/// One struct or enum name the engine has seen, and whether the struct was
/// dynamically sized (held a pointer/length field pair).
pub struct TypeEntry {
    pub name: String,
    pub dynamic: bool,
}

/// The target of the first alias entry for `n`, if any.
pub open spec fn spec_find_alias(aliases: Seq<AliasEntry>, n: Seq<char>) -> Option<RustType>
    decreases aliases.len(),
{
    if aliases.len() == 0 {
        None
    } else if aliases[0].name@ == n {
        Some(aliases[0].target)
    } else {
        spec_find_alias(aliases.skip(1), n)
    }
}

/// Follow the alias chain from `t` for at most `fuel` steps; `None` means the
/// chain did not reach a concrete type (a cyclic alias).
pub open spec fn spec_chase(aliases: Seq<AliasEntry>, t: RustType, fuel: nat) -> Option<RustType>
    decreases fuel,
{
    match t {
        RustType::Named(n) => match spec_find_alias(aliases, n@) {
            Some(t2) => if fuel == 0 {
                None
            } else {
                spec_chase(aliases, t2, (fuel - 1) as nat)
            },
            None => Some(t),
        },
        _ => Some(t),
    }
}

/// Whether `n` names a struct or enum registered as dynamically sized; the
/// first entry for a name wins.
pub open spec fn spec_is_dynamic(types: Seq<TypeEntry>, n: Seq<char>) -> bool
    decreases types.len(),
{
    if types.len() == 0 {
        false
    } else if types[0].name@ == n {
        types[0].dynamic
    } else {
        spec_is_dynamic(types.skip(1), n)
    }
}

/// The emitted host name of the named type `n`: PascalCase, with the
/// dynamic-array suffix where the struct was registered as dynamic.
pub open spec fn spec_named_cs(types: Seq<TypeEntry>, n: Seq<char>) -> Seq<char> {
    if spec_is_dynamic(types, n) {
        spec_upper_camel(n) + "Native"@
    } else {
        spec_upper_camel(n)
    }
}

/// Whether `n` is in the list of registered opaque type names.
pub open spec fn spec_is_opaque(opaques: Seq<String>, n: Seq<char>) -> bool
    decreases opaques.len(),
{
    if opaques.len() == 0 {
        false
    } else if opaques[0]@ == n {
        true
    } else {
        spec_is_opaque(opaques.skip(1), n)
    }
}

fn find_alias_index(aliases: &Vec<AliasEntry>, n: &String) -> (r: Option<usize>)
    ensures
        match r {
            Some(i) => i < aliases@.len() && aliases@[i as int].name@ == n@ && spec_find_alias(
                aliases@,
                n@,
            ) == Some(aliases@[i as int].target),
            None => spec_find_alias(aliases@, n@) is None,
        },
{
    let mut i: usize = 0;
    proof {
        assert(aliases@.skip(0) =~= aliases@);
    }
    while i < aliases.len()
        invariant
            i <= aliases@.len(),
            spec_find_alias(aliases@, n@) == spec_find_alias(aliases@.skip(i as int), n@),
            forall|j: int| 0 <= j < i ==> aliases@[j].name@ != n@,
        decreases aliases@.len() - i,
    {
        if aliases[i].name == *n {
            return Some(i);
        }
        proof {
            assert(aliases@.skip(i as int).skip(1) =~= aliases@.skip(i as int + 1));
            assert(aliases@.skip(i as int)[0] == aliases@[i as int]);
        }
        i = i + 1;
    }
    None
}

pub fn is_dynamic_name(types: &Vec<TypeEntry>, n: &String) -> (r: bool)
    ensures
        r == spec_is_dynamic(types@, n@),
{
    let mut i: usize = 0;
    proof {
        assert(types@.skip(0) =~= types@);
    }
    while i < types.len()
        invariant
            i <= types@.len(),
            spec_is_dynamic(types@, n@) == spec_is_dynamic(types@.skip(i as int), n@),
        decreases types@.len() - i,
    {
        proof {
            assert(types@.skip(i as int).skip(1) =~= types@.skip(i as int + 1));
            assert(types@.skip(i as int)[0] == types@[i as int]);
        }
        if types[i].name == *n {
            return types[i].dynamic;
        }
        i = i + 1;
    }
    false
}

/// The emitted host name of the named type `n`.
pub fn named_cs(types: &Vec<TypeEntry>, n: &String) -> (r: String)
    ensures
        r@ == spec_named_cs(types@, n@),
{
    let mut r = to_upper_camel(n.as_str());
    if is_dynamic_name(types, n) {
        r.append("Native");
    }
    r
}

pub fn is_opaque_name(opaques: &Vec<String>, n: &String) -> (r: bool)
    ensures
        r == spec_is_opaque(opaques@, n@),
{
    let mut i: usize = 0;
    proof {
        assert(opaques@.skip(0) =~= opaques@);
    }
    while i < opaques.len()
        invariant
            i <= opaques@.len(),
            spec_is_opaque(opaques@, n@) == spec_is_opaque(opaques@.skip(i as int), n@),
        decreases opaques@.len() - i,
    {
        proof {
            assert(opaques@.skip(i as int).skip(1) =~= opaques@.skip(i as int + 1));
            assert(opaques@.skip(i as int)[0] == opaques@[i as int]);
        }
        if opaques[i] == *n {
            return true;
        }
        i = i + 1;
    }
    false
}

/// Copy an array length descriptor.
pub fn clone_len(l: &ArrayLen) -> (r: ArrayLen)
    ensures
        r == *l,
{
    match l {
        ArrayLen::Lit(n) => ArrayLen::Lit(*n),
        ArrayLen::Named(s) => ArrayLen::Named(s.clone()),
    }
}

/// Copy a type descriptor.
pub fn clone_type(t: &RustType) -> (r: RustType)
    ensures
        r == *t,
    decreases *t,
{
    match t {
        RustType::Prim(p) => RustType::Prim(*p),
        RustType::Named(s) => RustType::Named(s.clone()),
        RustType::Ptr { mutable, target } => RustType::Ptr {
            mutable: *mutable,
            target: Box::new(clone_type(target)),
        },
        RustType::Array { elem, len } => RustType::Array {
            elem: Box::new(clone_type(elem)),
            len: clone_len(len),
        },
    }
}

/// Follow the alias chain from `t`, with enough fuel to traverse every
/// registered alias once; `None` reports a cyclic alias chain.
pub fn chase(aliases: &Vec<AliasEntry>, t: &RustType) -> (r: Option<RustType>)
    ensures
        r == spec_chase(aliases@, *t, aliases@.len() + 1),
{
    chase_fuel(aliases, t, aliases.len() as u128 + 1)
}

fn chase_fuel(aliases: &Vec<AliasEntry>, t: &RustType, fuel: u128) -> (r: Option<RustType>)
    ensures
        r == spec_chase(aliases@, *t, fuel as nat),
    decreases fuel,
{
    match t {
        RustType::Named(n) => {
            match find_alias_index(aliases, n) {
                Some(i) => {
                    if fuel == 0 {
                        None
                    } else {
                        let target = clone_type(&aliases[i].target);
                        chase_fuel(aliases, &target, fuel - 1)
                    }
                },
                None => Some(clone_type(t)),
            }
        },
        _ => Some(clone_type(t)),
    }
}

} // verus!
