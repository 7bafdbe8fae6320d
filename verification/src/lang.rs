//! The emission engine's state and per-declaration processing.
//!
//! [`LangCSharp`] holds the type environment (aliases, opaque types, seen
//! type names), the configured extra constants, and the callback registry;
//! each `parse_*` call appends fragments to the shared document set, and
//! [`LangCSharp::finalise_output`] wraps every non-empty document with its
//! preamble.
//!
//! The whole pass is pinned by [`spec_step`] and [`spec_run`]: given the same
//! declarations and configuration the engine is a function, which is what
//! makes the emission deterministic.

use vstd::prelude::*;

use crate::consts::{const_fragment, custom_const_line, spec_const_frag, spec_const_ok, spec_custom_const_line};
use crate::env::{AliasEntry, TypeEntry};
use crate::functions::{
    cbs_views, fn_fragments, spec_fn_backend, spec_fn_cbs, spec_fn_iface, spec_fn_ok,
    CallbackEntry,
};
use crate::mapping::MapErr;
use crate::output::Outputs;
use crate::structs::{
    enum_fragment, opaque_section, spec_enum_frag, spec_fields_ok, spec_has_pair,
    spec_opaque_section, spec_struct_frag, struct_fragment,
};
use crate::text::{lex_lt, str_cmp, Cmp};
use crate::types::{
    AliasDecl, ConstDecl, Decl, EnumDecl, Error, FnDecl, Level, StructDecl,
};

verus! {

/// One externally registered constant: host type, name and value, emitted
/// verbatim.
pub struct CustomConst {
    pub ty: String,
    pub name: String,
    pub value: String,
}

/// The engine's abstract state: the environment, the callback registry and
/// the four raw document bodies.
#[verifier::ext_equal]
pub struct EngineState {
    pub aliases: Seq<AliasEntry>,
    pub opaques: Seq<String>,
    pub types: Seq<TypeEntry>,
    pub cbs: Seq<(Seq<char>, Seq<char>)>,
    pub types_doc: Seq<char>,
    pub consts_doc: Seq<char>,
    pub backend_doc: Seq<char>,
    pub iface_doc: Seq<char>,
}

/// The declaration-to-source emission engine for the C# target.
pub struct LangCSharp {
    pub aliases: Vec<AliasEntry>,
    pub opaque_types: Vec<String>,
    pub custom_consts: Vec<CustomConst>,
    pub type_names: Vec<TypeEntry>,
    pub callbacks: Vec<CallbackEntry>,
}

/// The abstract state of an engine and its document set.
pub open spec fn state_of(l: LangCSharp, o: Outputs) -> EngineState {
    EngineState {
        aliases: l.aliases@,
        opaques: l.opaque_types@,
        types: l.type_names@,
        cbs: cbs_views(l.callbacks@),
        types_doc: o.types@,
        consts_doc: o.constants@,
        backend_doc: o.backend@,
        iface_doc: o.iface@,
    }
}

/// Insert one callback entry into the registry: sorted by name, first entry
/// for a name kept.
pub open spec fn spec_insert_cb(
    s: Seq<(Seq<char>, Seq<char>)>,
    e: (Seq<char>, Seq<char>),
) -> Seq<(Seq<char>, Seq<char>)>
    decreases s.len(),
{
    if s.len() == 0 {
        seq![e]
    } else if s[0].0 == e.0 {
        s
    } else if lex_lt(e.0, s[0].0) {
        seq![e] + s
    } else {
        seq![s[0]] + spec_insert_cb(s.skip(1), e)
    }
}

/// Insert the entries from position `i` on, in order.
pub open spec fn spec_insert_cbs(
    s: Seq<(Seq<char>, Seq<char>)>,
    es: Seq<(Seq<char>, Seq<char>)>,
    i: int,
) -> Seq<(Seq<char>, Seq<char>)>
    decreases es.len() - i,
{
    if i < 0 || i >= es.len() {
        s
    } else {
        spec_insert_cbs(spec_insert_cb(s, es[i]), es, i + 1)
    }
}

/// Whether one declaration processes without error against a given state.
pub open spec fn spec_step_ok(st: EngineState, d: Decl) -> bool {
    match d {
        Decl::Struct(sd) => !sd.repr_c || spec_fields_ok(st.aliases, st.types, sd.fields@),
        Decl::Enum(_) => true,
        Decl::Alias(_) => true,
        Decl::Const(cd) => spec_const_ok(st.aliases, st.types, cd),
        Decl::Func(fd) => !(fd.no_mangle && fd.extern_c) || spec_fn_ok(
            st.aliases,
            st.opaques,
            st.types,
            fd,
        ),
    }
}

/// Process one declaration: on error, or for a skipped declaration, the
/// state is unchanged; otherwise the fragments are appended and the
/// environment extended.
pub open spec fn spec_step(st: EngineState, d: Decl) -> EngineState {
    match d {
        Decl::Struct(sd) => {
            if !sd.repr_c || !spec_fields_ok(st.aliases, st.types, sd.fields@) {
                st
            } else {
                EngineState {
                    types: st.types.push(
                        TypeEntry { name: sd.name, dynamic: spec_has_pair(sd.fields@) },
                    ),
                    types_doc: st.types_doc + spec_struct_frag(st.aliases, st.types, sd),
                    ..st
                }
            }
        },
        Decl::Enum(ed) => {
            if !ed.repr_c {
                st
            } else {
                EngineState {
                    types: st.types.push(TypeEntry { name: ed.name, dynamic: false }),
                    types_doc: st.types_doc + spec_enum_frag(ed),
                    ..st
                }
            }
        },
        Decl::Alias(ad) => EngineState {
            aliases: st.aliases.push(AliasEntry { name: ad.name, target: ad.target }),
            ..st
        },
        Decl::Const(cd) => {
            if !spec_const_ok(st.aliases, st.types, cd) {
                st
            } else {
                EngineState {
                    consts_doc: st.consts_doc + spec_const_frag(st.aliases, st.types, cd),
                    ..st
                }
            }
        },
        Decl::Func(fd) => {
            if !(fd.no_mangle && fd.extern_c) || !spec_fn_ok(st.aliases, st.opaques, st.types, fd) {
                st
            } else {
                EngineState {
                    backend_doc: st.backend_doc + spec_fn_backend(
                        st.aliases,
                        st.opaques,
                        st.types,
                        fd,
                    ),
                    iface_doc: st.iface_doc + spec_fn_iface(st.aliases, st.opaques, st.types, fd),
                    cbs: spec_insert_cbs(
                        st.cbs,
                        spec_fn_cbs(st.aliases, st.opaques, st.types, fd),
                        0,
                    ),
                    ..st
                }
            }
        },
    }
}

/// Process the declarations from position `i` on.
pub open spec fn spec_run(st: EngineState, ds: Seq<Decl>, i: int) -> EngineState
    decreases ds.len() - i,
{
    if i < 0 || i >= ds.len() {
        st
    } else {
        spec_run(spec_step(st, ds[i]), ds, i + 1)
    }
}

/// The declarations from position `i` on that fail to process.
pub open spec fn spec_fails(st: EngineState, ds: Seq<Decl>, i: int) -> Seq<Decl>
    decreases ds.len() - i,
{
    if i < 0 || i >= ds.len() {
        Seq::<Decl>::empty()
    } else {
        (if spec_step_ok(st, ds[i]) {
            Seq::<Decl>::empty()
        } else {
            seq![ds[i]]
        }) + spec_fails(spec_step(st, ds[i]), ds, i + 1)
    }
}

/// The source name a declaration carries.
pub open spec fn decl_name(d: Decl) -> Seq<char> {
    match d {
        Decl::Struct(sd) => sd.name@,
        Decl::Enum(ed) => ed.name@,
        Decl::Alias(ad) => ad.name@,
        Decl::Const(cd) => cd.name@,
        Decl::Func(fd) => fd.name@,
    }
}

/// What every diagnostic of a failing declaration satisfies: error severity,
/// the declaration's name as its location, and a non-empty message.
pub open spec fn spec_err_for(e: Error, name: Seq<char>) -> bool {
    &&& e.level == Level::Error
    &&& (match e.span {
        Some(s) => s@ == name,
        None => false,
    })
    &&& e.message@.len() > 0
}

/// Build the diagnostic for a declaration that failed to map.
fn map_error(kind: MapErr, name: &String) -> (e: Error)
    ensures
        spec_err_for(e, name@),
{
    let mut message = match kind {
        MapErr::Unresolved => String::from_str("unresolved type in declaration `"),
        MapErr::Unsupported => String::from_str("unsupported type shape in declaration `"),
        MapErr::CallbackShape => String::from_str("unsupported callback shape in declaration `"),
    };
    proof {
        reveal_strlit("unresolved type in declaration `");
        reveal_strlit("unsupported type shape in declaration `");
        reveal_strlit("unsupported callback shape in declaration `");
    }
    message.append(name.as_str());
    message.append("`");
    Error { level: Level::Error, span: Some(name.clone()), message }
}

fn clone_cb_entry(e: &CallbackEntry) -> (r: CallbackEntry)
    ensures
        r.name@ == e.name@ && r.text@ == e.text@,
{
    CallbackEntry { name: e.name.clone(), text: e.text.clone() }
}

/// Insert one callback entry into the sorted registry.
#[verifier::loop_isolation(false)]
fn insert_callback(cbs: &mut Vec<CallbackEntry>, e: CallbackEntry)
    ensures
        cbs_views(final(cbs)@) == spec_insert_cb(cbs_views(old(cbs)@), (e.name@, e.text@)),
{
    let ghost orig = cbs_views(old(cbs)@);
    let ghost ee = (e.name@, e.text@);
    let mut i: usize = 0;
    proof {
        assert(orig.skip(0) =~= orig);
        assert(orig.take(0) + spec_insert_cb(orig.skip(0), ee) =~= spec_insert_cb(orig, ee));
    }
    while i < cbs.len()
        invariant
            i <= cbs@.len(),
            orig == cbs_views(cbs@),
            ee == (e.name@, e.text@),
            spec_insert_cb(orig, ee) == orig.take(i as int) + spec_insert_cb(
                orig.skip(i as int),
                ee,
            ),
            forall|j: int| 0 <= j < i ==> lex_lt(#[trigger] orig[j].0, ee.0),
        decreases cbs@.len() - i,
    {
        let c = str_cmp(e.name.as_str(), cbs[i].name.as_str());
        proof {
            assert(orig.skip(i as int)[0] == orig[i as int]);
            assert(orig[i as int].0 == cbs@[i as int].name@);
        }
        match c {
            Cmp::Eq => {
                proof {
                    assert(spec_insert_cb(orig.skip(i as int), ee) =~= orig.skip(i as int));
                    assert(orig.take(i as int) + orig.skip(i as int) =~= orig);
                }
                return ;
            },
            Cmp::Lt => {
                proof {
                    assert(spec_insert_cb(orig.skip(i as int), ee) =~= seq![ee] + orig.skip(
                        i as int,
                    ));
                }
                cbs.insert(i, e);
                proof {
                    assert(cbs_views(cbs@) =~= orig.take(i as int) + (seq![ee] + orig.skip(
                        i as int,
                    )));
                }
                return ;
            },
            Cmp::Gt => {
                proof {
                    assert(spec_insert_cb(orig.skip(i as int), ee) =~= seq![orig[i as int]]
                        + spec_insert_cb(orig.skip(i as int).skip(1), ee));
                    assert(orig.skip(i as int).skip(1) =~= orig.skip(i as int + 1));
                    assert(orig.take(i as int).push(orig[i as int]) =~= orig.take(i as int + 1));
                    assert(orig.take(i as int) + (seq![orig[i as int]] + spec_insert_cb(
                        orig.skip(i as int + 1),
                        ee,
                    )) =~= orig.take(i as int + 1) + spec_insert_cb(orig.skip(i as int + 1), ee));
                }
            },
        }
        i = i + 1;
    }
    proof {
        assert(orig.skip(i as int).len() == 0);
        assert(spec_insert_cb(orig.skip(i as int), ee) =~= seq![ee]);
    }
    cbs.push(e);
    proof {
        assert(cbs_views(cbs@) =~= orig.take(orig.len() as int) + seq![ee]);
        assert(orig.take(orig.len() as int) =~= orig);
    }
}

impl LangCSharp {
    /// A fresh engine with an empty environment and no configuration.
    pub fn new() -> (l: LangCSharp)
        ensures
            l.aliases@.len() == 0,
            l.opaque_types@.len() == 0,
            l.custom_consts@.len() == 0,
            l.type_names@.len() == 0,
            l.callbacks@.len() == 0,
    {
        LangCSharp {
            aliases: Vec::new(),
            opaque_types: Vec::new(),
            custom_consts: Vec::new(),
            type_names: Vec::new(),
            callbacks: Vec::new(),
        }
    }

    /// Register an opaque handle type by name.
    pub fn add_opaque_type(&mut self, name: &str)
        ensures
            final(self).opaque_types@.len() == old(self).opaque_types@.len() + 1,
            final(self).opaque_types@.subrange(0, old(self).opaque_types@.len() as int) == old(
                self,
            ).opaque_types@,
            final(self).opaque_types@[final(self).opaque_types@.len() - 1]@ == name@,
            final(self).aliases == old(self).aliases,
            final(self).custom_consts == old(self).custom_consts,
            final(self).type_names == old(self).type_names,
            final(self).callbacks == old(self).callbacks,
    {
        self.opaque_types.push(String::from_str(name));
    }

    /// Register an extra constant, emitted verbatim after the source-derived
    /// constants.
    pub fn add_const(&mut self, ty: &str, name: &str, value: &str)
        ensures
            final(self).custom_consts@.len() == old(self).custom_consts@.len() + 1,
            final(self).custom_consts@.subrange(0, old(self).custom_consts@.len() as int) == old(
                self,
            ).custom_consts@,
            final(self).custom_consts@[final(self).custom_consts@.len() - 1].ty@ == ty@,
            final(self).custom_consts@[final(self).custom_consts@.len() - 1].name@ == name@,
            final(self).custom_consts@[final(self).custom_consts@.len() - 1].value@ == value@,
            final(self).aliases == old(self).aliases,
            final(self).opaque_types == old(self).opaque_types,
            final(self).type_names == old(self).type_names,
            final(self).callbacks == old(self).callbacks,
    {
        self.custom_consts.push(
            CustomConst {
                ty: String::from_str(ty),
                name: String::from_str(name),
                value: String::from_str(value),
            },
        );
    }

    /// Process one struct declaration.
    pub fn parse_struct(&mut self, d: &StructDecl, outputs: &mut Outputs) -> (r: Result<
        (),
        Vec<Error>,
    >)
        ensures
            final(self).custom_consts == old(self).custom_consts,
            match r {
                Ok(_) => spec_step_ok(state_of(*old(self), *old(outputs)), Decl::Struct(*d))
                    && state_of(*final(self), *final(outputs)) == spec_step(
                    state_of(*old(self), *old(outputs)),
                    Decl::Struct(*d),
                ),
                Err(es) => !spec_step_ok(state_of(*old(self), *old(outputs)), Decl::Struct(*d))
                    && state_of(*final(self), *final(outputs)) == state_of(
                    *old(self),
                    *old(outputs),
                ) && es@.len() == 1 && spec_err_for(es@[0], d.name@),
            },
    {
        if !d.repr_c {
            proof {
                assert(state_of(*self, *outputs) =~= spec_step(
                    state_of(*self, *outputs),
                    Decl::Struct(*d),
                ));
            }
            return Ok(());
        }
        match struct_fragment(&self.aliases, &self.type_names, d) {
            Err(e) => {
                let mut es: Vec<Error> = Vec::new();
                es.push(map_error(e, &d.name));
                Err(es)
            },
            Ok(p) => {
                let (frag, dynamic) = p;
                outputs.types.append(frag.as_str());
                self.type_names.push(TypeEntry { name: d.name.clone(), dynamic });
                proof {
                    assert(state_of(*self, *outputs) =~= spec_step(
                        state_of(*old(self), *old(outputs)),
                        Decl::Struct(*d),
                    ));
                }
                Ok(())
            },
        }
    }

    /// Process one enum declaration.
    pub fn parse_enum(&mut self, d: &EnumDecl, outputs: &mut Outputs) -> (r: Result<
        (),
        Vec<Error>,
    >)
        ensures
            final(self).custom_consts == old(self).custom_consts,
            r is Ok,
            state_of(*final(self), *final(outputs)) == spec_step(
                state_of(*old(self), *old(outputs)),
                Decl::Enum(*d),
            ),
    {
        if !d.repr_c {
            proof {
                assert(state_of(*self, *outputs) =~= spec_step(
                    state_of(*self, *outputs),
                    Decl::Enum(*d),
                ));
            }
            return Ok(());
        }
        let frag = enum_fragment(d);
        outputs.types.append(frag.as_str());
        self.type_names.push(TypeEntry { name: d.name.clone(), dynamic: false });
        proof {
            assert(state_of(*self, *outputs) =~= spec_step(
                state_of(*old(self), *old(outputs)),
                Decl::Enum(*d),
            ));
        }
        Ok(())
    }

    /// Process one type alias declaration: it is registered and emits
    /// nothing.
    pub fn parse_ty(&mut self, d: &AliasDecl, outputs: &mut Outputs) -> (r: Result<(), Vec<Error>>)
        ensures
            final(self).custom_consts == old(self).custom_consts,
            r is Ok,
            state_of(*final(self), *final(outputs)) == spec_step(
                state_of(*old(self), *old(outputs)),
                Decl::Alias(*d),
            ),
    {
        self.aliases.push(AliasEntry { name: d.name.clone(), target: crate::env::clone_type(&d.target) });
        proof {
            assert(state_of(*self, *outputs) =~= spec_step(
                state_of(*old(self), *old(outputs)),
                Decl::Alias(*d),
            ));
        }
        Ok(())
    }

    /// Process one constant declaration.
    pub fn parse_const(&mut self, d: &ConstDecl, outputs: &mut Outputs) -> (r: Result<
        (),
        Vec<Error>,
    >)
        ensures
            final(self).custom_consts == old(self).custom_consts,
            match r {
                Ok(_) => spec_step_ok(state_of(*old(self), *old(outputs)), Decl::Const(*d))
                    && state_of(*final(self), *final(outputs)) == spec_step(
                    state_of(*old(self), *old(outputs)),
                    Decl::Const(*d),
                ),
                Err(es) => !spec_step_ok(state_of(*old(self), *old(outputs)), Decl::Const(*d))
                    && state_of(*final(self), *final(outputs)) == state_of(
                    *old(self),
                    *old(outputs),
                ) && es@.len() == 1 && spec_err_for(es@[0], d.name@),
            },
    {
        match const_fragment(&self.aliases, &self.type_names, d) {
            Err(e) => {
                let mut es: Vec<Error> = Vec::new();
                es.push(map_error(e, &d.name));
                Err(es)
            },
            Ok(frag) => {
                outputs.constants.append(frag.as_str());
                proof {
                    assert(state_of(*self, *outputs) =~= spec_step(
                        state_of(*old(self), *old(outputs)),
                        Decl::Const(*d),
                    ));
                }
                Ok(())
            },
        }
    }

    /// Process one function declaration.  A function lacking either the
    /// exported-symbol marker or the C-ABI calling-convention marker
    /// contributes nothing.
    #[verifier::loop_isolation(false)]
    pub fn parse_fn(&mut self, d: &FnDecl, outputs: &mut Outputs) -> (r: Result<(), Vec<Error>>)
        ensures
            final(self).custom_consts == old(self).custom_consts,
            match r {
                Ok(_) => spec_step_ok(state_of(*old(self), *old(outputs)), Decl::Func(*d))
                    && state_of(*final(self), *final(outputs)) == spec_step(
                    state_of(*old(self), *old(outputs)),
                    Decl::Func(*d),
                ),
                Err(es) => !spec_step_ok(state_of(*old(self), *old(outputs)), Decl::Func(*d))
                    && state_of(*final(self), *final(outputs)) == state_of(
                    *old(self),
                    *old(outputs),
                ) && es@.len() == 1 && spec_err_for(es@[0], d.name@),
            },
    {
        if !(d.no_mangle && d.extern_c) {
            proof {
                assert(state_of(*self, *outputs) =~= spec_step(
                    state_of(*self, *outputs),
                    Decl::Func(*d),
                ));
            }
            return Ok(());
        }
        match fn_fragments(&self.aliases, &self.opaque_types, &self.type_names, d) {
            Err(e) => {
                let mut es: Vec<Error> = Vec::new();
                es.push(map_error(e, &d.name));
                Err(es)
            },
            Ok(fr) => {
                let ghost st0 = state_of(*old(self), *old(outputs));
                outputs.backend.append(fr.backend.as_str());
                outputs.iface.append(fr.iface.as_str());
                let ghost fcbs = spec_fn_cbs(st0.aliases, st0.opaques, st0.types, *d);
                let entries = fr.callbacks;
                let mut i: usize = 0;
                while i < entries.len()
                    invariant
                        i <= entries@.len(),
                        cbs_views(entries@) == fcbs,
                        self.aliases == old(self).aliases,
                        self.opaque_types == old(self).opaque_types,
                        self.custom_consts == old(self).custom_consts,
                        self.type_names == old(self).type_names,
                        spec_insert_cbs(st0.cbs, fcbs, 0) == spec_insert_cbs(
                            cbs_views(self.callbacks@),
                            fcbs,
                            i as int,
                        ),
                    decreases entries@.len() - i,
                {
                    let e = clone_cb_entry(&entries[i]);
                    proof {
                        assert((e.name@, e.text@) == fcbs[i as int]);
                    }
                    insert_callback(&mut self.callbacks, e);
                    i = i + 1;
                }
                proof {
                    assert(state_of(*self, *outputs) =~= spec_step(st0, Decl::Func(*d)));
                }
                Ok(())
            },
        }
    }
}

/// The concatenated texts of the sorted callback entries from `i` on.
pub open spec fn spec_cb_texts(cbs: Seq<(Seq<char>, Seq<char>)>, i: int) -> Seq<char>
    decreases cbs.len() - i,
{
    if i < 0 || i >= cbs.len() {
        Seq::<char>::empty()
    } else {
        cbs[i].1 + spec_cb_texts(cbs, i + 1)
    }
}

/// The callback region of the implementation class: every collected
/// delegate and trampoline, sorted by delegate name, inside region markers.
pub open spec fn spec_region(cbs: Seq<(Seq<char>, Seq<char>)>) -> Seq<char> {
    if cbs.len() == 0 {
        Seq::<char>::empty()
    } else {
        "        #region Callbacks\n"@ + spec_cb_texts(cbs, 0) + "        #endregion\n\n"@
    }
}

/// The externally registered constants from `i` on, in registration order.
pub open spec fn spec_customs_frag(cs: Seq<CustomConst>, i: int) -> Seq<char>
    decreases cs.len() - i,
{
    if i < 0 || i >= cs.len() {
        Seq::<char>::empty()
    } else {
        spec_custom_const_line(cs[i].ty@, cs[i].name@, cs[i].value@) + spec_customs_frag(cs, i + 1)
    }
}

/// Wrap a non-empty type-declarations body with its preamble; an empty body
/// finalises to the empty document.
pub open spec fn spec_wrap_types(body: Seq<char>) -> Seq<char> {
    if body.len() == 0 {
        Seq::<char>::empty()
    } else {
        "using System;\nusing System.Runtime.InteropServices;\n\nnamespace Backend {\n"@ + body
            + "}\n"@
    }
}

/// Wrap a non-empty constants body with its preamble and static class.
pub open spec fn spec_wrap_consts(body: Seq<char>) -> Seq<char> {
    if body.len() == 0 {
        Seq::<char>::empty()
    } else {
        "using System;\n\nnamespace Backend {\n    public static class Constants {\n"@ + body
            + "    }\n}\n"@
    }
}

/// Wrap a non-empty implementation body with its preamble, partial class and
/// the conditional symbol-loading name block.
pub open spec fn spec_wrap_backend(body: Seq<char>) -> Seq<char> {
    if body.len() == 0 {
        Seq::<char>::empty()
    } else {
        "using System;\nusing System.Runtime.InteropServices;\nusing System.Threading.Tasks;\n\nnamespace Backend {\n    public partial class Backend : IBackend {\n        #if __IOS__\n        internal const String DLL_NAME = \"__Internal\";\n        #else\n        internal const String DLL_NAME = \"backend\";\n        #endif\n\n"@
            + body + "    }\n}\n"@
    }
}

/// Wrap a non-empty interface body with its preamble and partial interface.
pub open spec fn spec_wrap_iface(body: Seq<char>) -> Seq<char> {
    if body.len() == 0 {
        Seq::<char>::empty()
    } else {
        "using System;\nusing System.Runtime.InteropServices;\nusing System.Threading.Tasks;\n\nnamespace Backend {\n    public partial interface IBackend {\n"@
            + body + "    }\n}\n"@
    }
}

/// Finalisation: the opaque-type section, the extra constants and the
/// callback region are appended, and every non-empty document is wrapped
/// with its preamble.
pub open spec fn spec_finalize(st: EngineState, customs: Seq<CustomConst>) -> EngineState {
    EngineState {
        types_doc: spec_wrap_types(st.types_doc + spec_opaque_section(st.opaques)),
        consts_doc: spec_wrap_consts(st.consts_doc + spec_customs_frag(customs, 0)),
        backend_doc: spec_wrap_backend(st.backend_doc + spec_region(st.cbs)),
        iface_doc: spec_wrap_iface(st.iface_doc),
        ..st
    }
}

impl LangCSharp {
    /// Finalise the document set: append the opaque-type section, the extra
    /// constants and the callback region, then wrap every non-empty
    /// document with its deterministic preamble.  Documents that received
    /// zero fragments finalise to empty output.
    #[verifier::loop_isolation(false)]
    pub fn finalise_output(&self, outputs: &mut Outputs) -> (r: Result<(), Vec<Error>>)
        ensures
            r is Ok,
            state_of(*self, *final(outputs)) == spec_finalize(
                state_of(*self, *old(outputs)),
                self.custom_consts@,
            ),
    {
        let ghost st0 = state_of(*self, *old(outputs));
        // Type declarations.
        let mut types_body = outputs.types.clone();
        let op = opaque_section(&self.opaque_types);
        types_body.append(op.as_str());
        if types_body.as_str().is_empty() {
            outputs.types = String::new();
        } else {
            let mut w = String::from_str(
                "using System;\nusing System.Runtime.InteropServices;\n\nnamespace Backend {\n",
            );
            w.append(types_body.as_str());
            w.append("}\n");
            outputs.types = w;
        }
        proof {
            assert(outputs.types@ =~= spec_wrap_types(st0.types_doc + spec_opaque_section(
                st0.opaques,
            )));
        }
        // Constants.
        let mut consts_body = outputs.constants.clone();
        let mut i: usize = 0;
        proof {
            assert(consts_body@ + spec_customs_frag(self.custom_consts@, 0) =~= st0.consts_doc
                + spec_customs_frag(self.custom_consts@, 0));
        }
        while i < self.custom_consts.len()
            invariant
                i <= self.custom_consts@.len(),
                consts_body@ + spec_customs_frag(self.custom_consts@, i as int) == st0.consts_doc
                    + spec_customs_frag(self.custom_consts@, 0),
            decreases self.custom_consts@.len() - i,
        {
            let ghost oldb = consts_body@;
            let line = custom_const_line(
                &self.custom_consts[i].ty,
                &self.custom_consts[i].name,
                &self.custom_consts[i].value,
            );
            consts_body.append(line.as_str());
            proof {
                assert(consts_body@ + spec_customs_frag(self.custom_consts@, i as int + 1)
                    =~= oldb + spec_customs_frag(self.custom_consts@, i as int));
            }
            i = i + 1;
        }
        if consts_body.as_str().is_empty() {
            outputs.constants = String::new();
        } else {
            let mut w = String::from_str(
                "using System;\n\nnamespace Backend {\n    public static class Constants {\n",
            );
            w.append(consts_body.as_str());
            w.append("    }\n}\n");
            outputs.constants = w;
        }
        proof {
            assert(outputs.constants@ =~= spec_wrap_consts(st0.consts_doc + spec_customs_frag(
                self.custom_consts@,
                0,
            )));
        }
        // Implementation class.
        let mut backend_body = outputs.backend.clone();
        if self.callbacks.len() > 0 {
            backend_body.append("        #region Callbacks\n");
            let mut j: usize = 0;
            let ghost cbsv = cbs_views(self.callbacks@);
            proof {
                assert(backend_body@ + spec_cb_texts(cbsv, 0) =~= st0.backend_doc
                    + "        #region Callbacks\n"@ + spec_cb_texts(cbsv, 0));
            }
            while j < self.callbacks.len()
                invariant
                    j <= self.callbacks@.len(),
                    cbsv == cbs_views(self.callbacks@),
                    backend_body@ + spec_cb_texts(cbsv, j as int) == st0.backend_doc
                        + "        #region Callbacks\n"@ + spec_cb_texts(cbsv, 0),
                decreases self.callbacks@.len() - j,
            {
                let ghost oldb = backend_body@;
                backend_body.append(self.callbacks[j].text.as_str());
                proof {
                    assert(backend_body@ + spec_cb_texts(cbsv, j as int + 1) =~= oldb
                        + spec_cb_texts(cbsv, j as int));
                }
                j = j + 1;
            }
            backend_body.append("        #endregion\n\n");
            proof {
                assert(backend_body@ =~= st0.backend_doc + spec_region(st0.cbs));
            }
        } else {
            proof {
                assert(backend_body@ =~= st0.backend_doc + spec_region(st0.cbs));
            }
        }
        if backend_body.as_str().is_empty() {
            outputs.backend = String::new();
        } else {
            let mut w = String::from_str(
                "using System;\nusing System.Runtime.InteropServices;\nusing System.Threading.Tasks;\n\nnamespace Backend {\n    public partial class Backend : IBackend {\n        #if __IOS__\n        internal const String DLL_NAME = \"__Internal\";\n        #else\n        internal const String DLL_NAME = \"backend\";\n        #endif\n\n",
            );
            w.append(backend_body.as_str());
            w.append("    }\n}\n");
            outputs.backend = w;
        }
        proof {
            assert(outputs.backend@ =~= spec_wrap_backend(st0.backend_doc + spec_region(st0.cbs)));
        }
        // Public interface.
        if outputs.iface.as_str().is_empty() {
            outputs.iface = String::new();
        } else {
            let mut w = String::from_str(
                "using System;\nusing System.Runtime.InteropServices;\nusing System.Threading.Tasks;\n\nnamespace Backend {\n    public partial interface IBackend {\n",
            );
            w.append(outputs.iface.as_str());
            w.append("    }\n}\n");
            outputs.iface = w;
        }
        proof {
            assert(outputs.iface@ =~= spec_wrap_iface(st0.iface_doc));
            assert(state_of(*self, *outputs) =~= spec_finalize(st0, self.custom_consts@));
        }
        Ok(())
    }
}

} // verus!
