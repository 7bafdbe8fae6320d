//! A binding generator core: it turns a stream of parsed C-compatible
//! declarations (C-layout structs, C-ABI enums, exported functions, type
//! aliases, constants) into C# source for consuming the native library
//! through platform invocation, including asynchronous completion plumbing
//! for callback-based APIs.
//!
//! The embedding driver locates and reads source files, parses them into
//! [`types::Decl`] values and writes the produced documents out; this crate
//! holds the emission engine itself, with its behaviour pinned by
//! specifications.

pub mod consts;
pub mod env;
pub mod functions;
pub mod lang;
pub mod laws;
pub mod mapping;
pub mod output;
pub mod structs;
pub mod text;
pub mod types;

pub use lang::LangCSharp;
pub use output::fetch;
pub use output::Outputs;
pub use types::Error;
pub use types::Level;

use vstd::prelude::*;

use crate::lang::{decl_name, spec_err_for, spec_fails, spec_finalize, spec_run, state_of};
use crate::types::Decl;

verus! {

/// What the engine is given to compile: a source path, to be loaded and
/// parsed by the embedding driver, or an already-parsed declaration stream.
pub enum Input {
    File(String),
    Code { file_name: String, decls: Vec<Decl> },
}

/// The declarations of an input; a file input carries none.
pub open spec fn input_decls(i: Input) -> Seq<Decl> {
    match i {
        Input::Code { decls, .. } => decls@,
        Input::File(_) => Seq::<Decl>::empty(),
    }
}

/// Stores configuration for the bindgen: the root input the compilation
/// reads.
pub struct Bindgen {
    pub input: Input,
}

impl Bindgen {
    /// Create a new bindgen instance, with the conventional crate root as
    /// its source file until told otherwise.
    pub fn new() -> (r: Result<Bindgen, Error>)
        ensures
            match r {
                Ok(b) => match b.input {
                    Input::File(p) => p@ == "src/lib.rs"@,
                    _ => false,
                },
                Err(_) => false,
            },
    {
        Ok(Bindgen { input: Input::File(String::from_str("src/lib.rs")) })
    }

    /// Set the path to the root source file of the crate.
    pub fn source_file(&mut self, path: &str)
        ensures
            match final(self).input {
                Input::File(p) => p@ == path@,
                _ => false,
            },
    {
        self.input = Input::File(String::from_str(path));
    }

    /// Use an already-parsed declaration stream as input.
    pub fn source_code(&mut self, file_name: &str, decls: Vec<Decl>)
        ensures
            match final(self).input {
                Input::Code { file_name: f, decls: d } => f@ == file_name@ && d == decls,
                _ => false,
            },
    {
        self.input = Input::Code { file_name: String::from_str(file_name), decls };
    }

    /// Compile the input declarations into document fragments, finalising
    /// the documents when asked to.
    ///
    /// Every declaration is processed in order; a declaration that fails
    /// contributes one diagnostic and nothing to any document, and
    /// processing continues.  The whole error list is surfaced at the end;
    /// the documents are finalised only when every declaration processed
    /// cleanly.  A file input is refused: loading and parsing belong to the
    /// embedding driver.
    #[verifier::loop_isolation(false)]
    pub fn compile(&mut self, lang: &mut LangCSharp, outputs: &mut Outputs, finalise: bool) -> (r:
        Result<(), Vec<Error>>)
        ensures
            *final(self) == *old(self),
            final(lang).custom_consts@ == old(lang).custom_consts@,
            match old(self).input {
                Input::File(_) => {
                    &&& r is Err
                    &&& *final(lang) == *old(lang)
                    &&& *final(outputs) == *old(outputs)
                    &&& (match r {
                        Err(es) => es@.len() == 1 && es@[0].level == Level::Fatal,
                        Ok(_) => false,
                    })
                },
                Input::Code { .. } => {
                    let ds = input_decls(old(self).input);
                    let st0 = state_of(*old(lang), *old(outputs));
                    let fails = spec_fails(st0, ds, 0);
                    match r {
                        Ok(_) => fails.len() == 0 && state_of(*final(lang), *final(outputs)) == (
                        if finalise {
                            spec_finalize(spec_run(st0, ds, 0), old(lang).custom_consts@)
                        } else {
                            spec_run(st0, ds, 0)
                        }),
                        Err(es) => {
                            &&& fails.len() > 0
                            &&& state_of(*final(lang), *final(outputs)) == spec_run(st0, ds, 0)
                            &&& es@.len() == fails.len()
                            &&& forall|k: int|
                                0 <= k < es@.len() ==> spec_err_for(
                                    #[trigger] es@[k],
                                    decl_name(fails[k]),
                                )
                        },
                    }
                },
            },
    {
        match &self.input {
            Input::File(_) => {
                let mut es: Vec<Error> = Vec::new();
                es.push(
                    Error {
                        level: Level::Fatal,
                        span: None,
                        message: String::from_str(
                            "reading source files is left to the embedding driver; supply parsed declarations with source_code",
                        ),
                    },
                );
                Err(es)
            },
            Input::Code { decls, .. } => {
                let ghost st0 = state_of(*lang, *outputs);
                let mut errors: Vec<Error> = Vec::new();
                let ghost mut fails_acc: Seq<Decl> = Seq::<Decl>::empty();
                let mut i: usize = 0;
                proof {
                    assert(fails_acc + spec_fails(st0, decls@, 0) =~= spec_fails(st0, decls@, 0));
                }
                while i < decls.len()
                    invariant
                        i <= decls@.len(),
                        lang.custom_consts@ == old(lang).custom_consts@,
                        spec_fails(st0, decls@, 0) == fails_acc + spec_fails(
                            state_of(*lang, *outputs),
                            decls@,
                            i as int,
                        ),
                        spec_run(st0, decls@, 0) == spec_run(
                            state_of(*lang, *outputs),
                            decls@,
                            i as int,
                        ),
                        errors@.len() == fails_acc.len(),
                        forall|k: int|
                            0 <= k < errors@.len() ==> spec_err_for(
                                #[trigger] errors@[k],
                                decl_name(fails_acc[k]),
                            ),
                    decreases decls@.len() - i,
                {
                    let res = match &decls[i] {
                        Decl::Struct(sd) => lang.parse_struct(sd, outputs),
                        Decl::Enum(ed) => lang.parse_enum(ed, outputs),
                        Decl::Alias(ad) => lang.parse_ty(ad, outputs),
                        Decl::Const(cd) => lang.parse_const(cd, outputs),
                        Decl::Func(fd) => lang.parse_fn(fd, outputs),
                    };
                    match res {
                        Ok(()) => {
                            proof {
                                assert(spec_fails(st0, decls@, 0) =~= fails_acc + spec_fails(
                                    state_of(*lang, *outputs),
                                    decls@,
                                    i as int + 1,
                                ));
                            }
                        },
                        Err(mut es) => {
                            let e = match es.pop() {
                                Some(e) => e,
                                None => {
                                    proof {
                                        assert(false);
                                    }
                                    Error {
                                        level: Level::Fatal,
                                        span: None,
                                        message: String::new(),
                                    }
                                },
                            };
                            errors.push(e);
                            proof {
                                fails_acc = fails_acc + seq![decls@[i as int]];
                                assert(spec_fails(st0, decls@, 0) =~= fails_acc + spec_fails(
                                    state_of(*lang, *outputs),
                                    decls@,
                                    i as int + 1,
                                ));
                            }
                        },
                    }
                    i = i + 1;
                }
                proof {
                    assert(spec_fails(state_of(*lang, *outputs), decls@, decls@.len() as int).len()
                        == 0);
                    assert(spec_fails(st0, decls@, 0) =~= fails_acc);
                }
                if errors.len() == 0 {
                    if finalise {
                        match lang.finalise_output(outputs) {
                            Ok(()) => Ok(()),
                            Err(es) => Err(es),
                        }
                    } else {
                        Ok(())
                    }
                } else {
                    Err(errors)
                }
            },
        }
    }

    /// Compile, panicking on any compilation error; meant for build scripts
    /// whose input is known to process cleanly, which the caller must
    /// guarantee.
    pub fn compile_or_panic(&mut self, lang: &mut LangCSharp, outputs: &mut Outputs, finalise: bool)
        requires
            old(self).input is Code,
            spec_fails(
                state_of(*old(lang), *old(outputs)),
                input_decls(old(self).input),
                0,
            ).len() == 0,
        ensures
            *final(self) == *old(self),
            final(lang).custom_consts@ == old(lang).custom_consts@,
            state_of(*final(lang), *final(outputs)) == (if finalise {
                spec_finalize(
                    spec_run(state_of(*old(lang), *old(outputs)), input_decls(old(self).input), 0),
                    old(lang).custom_consts@,
                )
            } else {
                spec_run(state_of(*old(lang), *old(outputs)), input_decls(old(self).input), 0)
            }),
    {
        match self.compile(lang, outputs, finalise) {
            Ok(()) => {},
            Err(_) => {
                proof {
                    assert(false);
                }
            },
        }
    }
}

} // verus!
