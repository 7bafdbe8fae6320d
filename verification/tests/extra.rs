//! Further behaviour: error reporting, configuration-only documents,
//! determinism, and edge cases of the naming rules.

use sn_bindgen::types::{
    AliasDecl, ArrayLen, CbParam, ConstDecl, ConstScalar, ConstValue, Decl, EnumDecl, Field,
    FnDecl, FnParam, Level, ParamType, Prim, RustType, StructDecl, Variant,
};
use sn_bindgen::{fetch, Bindgen, LangCSharp, Outputs};

fn prim(p: Prim) -> RustType {
    RustType::Prim(p)
}

fn named(n: &str) -> RustType {
    RustType::Named(n.to_string())
}

fn cptr(t: RustType) -> RustType {
    RustType::Ptr { mutable: false, target: Box::new(t) }
}

fn mptr(t: RustType) -> RustType {
    RustType::Ptr { mutable: true, target: Box::new(t) }
}

fn field(n: &str, t: RustType) -> Field {
    Field { name: n.to_string(), ty: t }
}

fn param(n: &str, t: RustType) -> FnParam {
    FnParam { name: n.to_string(), ty: ParamType::Plain(t) }
}

fn cbp(n: &str, t: RustType) -> CbParam {
    CbParam { name: Some(n.to_string()), ty: t }
}

fn marked_fn(n: &str, params: Vec<FnParam>, ret: Option<RustType>) -> Decl {
    Decl::Func(FnDecl { name: n.to_string(), no_mangle: true, extern_c: true, params, ret })
}

fn try_compile(
    mut lang: LangCSharp,
    decls: Vec<Decl>,
) -> Result<Outputs, Vec<sn_bindgen::Error>> {
    let mut outputs = Outputs::new();
    let mut bindgen = Bindgen::new().unwrap();
    bindgen.source_code("lib.rs", decls);
    bindgen.compile(&mut lang, &mut outputs, true)?;
    Ok(outputs)
}

#[test]
fn cyclic_aliases_are_reported() {
    let decls = vec![
        Decl::Alias(AliasDecl { name: "A".to_string(), target: named("B") }),
        Decl::Alias(AliasDecl { name: "B".to_string(), target: named("A") }),
        Decl::Struct(StructDecl {
            name: "Holder".to_string(),
            repr_c: true,
            fields: vec![field("value", named("A"))],
        }),
    ];
    let errors = try_compile(LangCSharp::new(), decls).err().expect("expected an error");
    assert_eq!(errors.len(), 1);
    assert_eq!(errors[0].level, Level::Error);
    assert_eq!(errors[0].span.as_deref(), Some("Holder"));
    assert!(!errors[0].message.is_empty());
}

#[test]
fn void_valued_parameters_are_reported() {
    let decls = vec![marked_fn("fun", vec![param("x", prim(Prim::CVoid))], None)];
    let errors = try_compile(LangCSharp::new(), decls).err().expect("expected an error");
    assert_eq!(errors.len(), 1);
    assert_eq!(errors[0].span.as_deref(), Some("fun"));
}

#[test]
fn multiple_array_pairs_are_reported() {
    // Two independent pointer/length pairs leave the merge order undefined,
    // so the shape is refused rather than guessed at.
    let decls = vec![marked_fn(
        "fun",
        vec![
            param("a_ptr", cptr(prim(Prim::U8))),
            param("a_len", prim(Prim::USize)),
            param("b_ptr", cptr(prim(Prim::U8))),
            param("b_len", prim(Prim::USize)),
        ],
        None,
    )];
    let errors = try_compile(LangCSharp::new(), decls).err().expect("expected an error");
    assert_eq!(errors.len(), 1);
    assert_eq!(errors[0].span.as_deref(), Some("fun"));
}

#[test]
fn callback_without_user_data_slot_is_reported() {
    // A trailing callback must stand behind a user-data pointer slot.
    let decls = vec![marked_fn(
        "fun",
        vec![
            param("num", prim(Prim::I32)),
            FnParam {
                name: "cb".to_string(),
                ty: ParamType::Callback(vec![cbp("user_data", mptr(prim(Prim::CVoid)))]),
            },
        ],
        None,
    )];
    let errors = try_compile(LangCSharp::new(), decls).err().expect("expected an error");
    assert_eq!(errors.len(), 1);
    assert_eq!(errors[0].span.as_deref(), Some("fun"));
}

#[test]
fn callback_with_two_value_payloads_is_reported() {
    // Completion semantics are defined for at most one value payload beyond
    // the status result.
    let decls = vec![marked_fn(
        "fun",
        vec![
            param("user_data", mptr(prim(Prim::CVoid))),
            FnParam {
                name: "cb".to_string(),
                ty: ParamType::Callback(vec![
                    cbp("user_data", mptr(prim(Prim::CVoid))),
                    cbp("result", cptr(named("FfiResult"))),
                    cbp("first", prim(Prim::I32)),
                    cbp("second", prim(Prim::I32)),
                ]),
            },
        ],
        None,
    )];
    let errors = try_compile(LangCSharp::new(), decls).err().expect("expected an error");
    assert_eq!(errors.len(), 1);
    assert_eq!(errors[0].span.as_deref(), Some("fun"));
}

#[test]
fn failing_declarations_do_not_stop_the_rest() {
    // The failing function contributes only its diagnostic; the healthy
    // enum before and after it is still emitted.
    let decls = vec![
        Decl::Enum(EnumDecl {
            name: "First".to_string(),
            repr_c: true,
            variants: vec![Variant { name: "A".to_string(), value: None }],
        }),
        marked_fn("bad", vec![param("x", prim(Prim::CVoid))], None),
        Decl::Enum(EnumDecl {
            name: "Second".to_string(),
            repr_c: true,
            variants: vec![Variant { name: "B".to_string(), value: None }],
        }),
    ];
    let errors = try_compile(LangCSharp::new(), decls).err().expect("expected an error");
    assert_eq!(errors.len(), 1);
    assert_eq!(errors[0].span.as_deref(), Some("bad"));
}

#[test]
fn compiling_twice_yields_identical_documents() {
    let decls = || {
        vec![
            Decl::Alias(AliasDecl { name: "Id".to_string(), target: prim(Prim::U64) }),
            Decl::Struct(StructDecl {
                name: "Item".to_string(),
                repr_c: true,
                fields: vec![field("id", named("Id")), field("ok", prim(Prim::Bool))],
            }),
            marked_fn(
                "fun",
                vec![
                    param("item", named("Item")),
                    param("user_data", mptr(prim(Prim::CVoid))),
                    FnParam {
                        name: "cb".to_string(),
                        ty: ParamType::Callback(vec![
                            cbp("user_data", mptr(prim(Prim::CVoid))),
                            cbp("result", cptr(named("FfiResult"))),
                        ]),
                    },
                ],
                None,
            ),
        ]
    };
    let one = try_compile(LangCSharp::new(), decls()).unwrap();
    let two = try_compile(LangCSharp::new(), decls()).unwrap();
    for name in ["Types.cs", "Constants.cs", "Backend.cs", "IBackend.cs"] {
        assert_eq!(fetch(&one, name), fetch(&two, name));
    }
    assert!(!fetch(&one, "Types.cs").is_empty());
    assert!(!fetch(&one, "Backend.cs").is_empty());
    assert!(!fetch(&one, "IBackend.cs").is_empty());
}

#[test]
fn custom_constants_alone_produce_a_constants_document() {
    let mut lang = LangCSharp::new();
    lang.add_const("ulong", "LIMIT", "9000");
    let outputs = try_compile(lang, vec![]).unwrap();
    let expected = [
        "using System;",
        "",
        "namespace Backend {",
        "    public static class Constants {",
        "        public const ulong LIMIT = 9000;",
        "    }",
        "}",
        "",
    ]
    .join("\n");
    assert_eq!(fetch(&outputs, "Constants.cs"), expected);
}

#[test]
fn registered_opaque_types_alone_produce_a_types_document() {
    let mut lang = LangCSharp::new();
    lang.add_opaque_type("Session");
    let outputs = try_compile(lang, vec![]).unwrap();
    let expected = [
        "using System;",
        "using System.Runtime.InteropServices;",
        "",
        "namespace Backend {",
        "    #pragma warning disable CS0169",
        "    public struct Session {",
        "        private IntPtr _value;",
        "    }",
        "",
        "    #pragma warning restore CS0169",
        "}",
        "",
    ]
    .join("\n");
    assert_eq!(fetch(&outputs, "Types.cs"), expected);
}

#[test]
fn negative_enum_values_and_constants() {
    let outputs = try_compile(
        LangCSharp::new(),
        vec![
            Decl::Enum(EnumDecl {
                name: "Status".to_string(),
                repr_c: true,
                variants: vec![
                    Variant { name: "Bad".to_string(), value: Some(-1) },
                    Variant { name: "Good".to_string(), value: Some(0) },
                ],
            }),
            Decl::Const(ConstDecl {
                name: "OFFSET".to_string(),
                ty: prim(Prim::I64),
                value: ConstValue::Scalar(ConstScalar::Int(-42)),
            }),
        ],
    )
    .unwrap();
    let types = fetch(&outputs, "Types.cs");
    assert!(types.contains("        Bad = -1,\n"));
    assert!(types.contains("        Good = 0,\n"));
    let consts = fetch(&outputs, "Constants.cs");
    assert!(consts.contains("        public const long OFFSET = -42;\n"));
}

#[test]
fn fetch_of_an_unknown_document_is_empty() {
    let outputs = try_compile(LangCSharp::new(), vec![]).unwrap();
    assert_eq!(fetch(&outputs, "Nope.cs"), "");
    assert_eq!(fetch(&outputs, "Types.cs"), "");
}

#[test]
fn file_input_is_refused_by_compile() {
    let mut lang = LangCSharp::new();
    let mut outputs = Outputs::new();
    let mut bindgen = Bindgen::new().unwrap();
    bindgen.source_file("src/other.rs");
    let errors = bindgen.compile(&mut lang, &mut outputs, true).err().expect("expected an error");
    assert_eq!(errors.len(), 1);
    assert_eq!(errors[0].level, Level::Fatal);
}

#[test]
fn compile_or_panic_compiles_clean_input() {
    let mut lang = LangCSharp::new();
    let mut outputs = Outputs::default();
    let mut bindgen = Bindgen::new().unwrap();
    bindgen.source_code(
        "lib.rs",
        vec![Decl::Enum(EnumDecl {
            name: "Kind".to_string(),
            repr_c: true,
            variants: vec![Variant { name: "One".to_string(), value: None }],
        })],
    );
    bindgen.compile_or_panic(&mut lang, &mut outputs, true);
    assert!(fetch(&outputs, "Types.cs").contains("    public enum Kind {\n"));
}

#[test]
fn snake_case_names_become_host_casing() {
    let outputs = try_compile(
        LangCSharp::new(),
        vec![
            Decl::Struct(StructDecl {
                name: "wire_packet".to_string(),
                repr_c: true,
                fields: vec![field("total_size", prim(Prim::U32))],
            }),
            marked_fn("send_packet", vec![param("packet_count", prim(Prim::U32))], None),
        ],
    )
    .unwrap();
    let types = fetch(&outputs, "Types.cs");
    assert!(types.contains("    public struct WirePacket {\n"));
    assert!(types.contains("        public uint TotalSize;\n"));
    let backend = fetch(&outputs, "Backend.cs");
    assert!(backend.contains("        public void SendPacket(uint packetCount) {\n"));
    assert!(backend.contains("            SendPacketNative(packetCount);\n"));
    assert!(backend.contains("[DllImport(DLL_NAME, EntryPoint = \"send_packet\")]"));
}
