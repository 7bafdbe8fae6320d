//! The emission engine exercised end to end: declarations in, documents out.

use sn_bindgen::types::{
    AliasDecl, ArrayLen, CbParam, ConstDecl, ConstField, ConstScalar, ConstValue, Decl, EnumDecl,
    Field, FnDecl, FnParam, ParamType, Prim, RustType, StructDecl, Variant,
};
use sn_bindgen::{fetch, Bindgen, LangCSharp, Outputs};

fn prim(p: Prim) -> RustType {
    RustType::Prim(p)
}

fn named(n: &str) -> RustType {
    RustType::Named(n.to_string())
}

fn cptr(t: RustType) -> RustType {
    RustType::Ptr { mutable: false, target: Box::new(t) }
}

fn mptr(t: RustType) -> RustType {
    RustType::Ptr { mutable: true, target: Box::new(t) }
}

fn arr(t: RustType, n: u64) -> RustType {
    RustType::Array { elem: Box::new(t), len: ArrayLen::Lit(n) }
}

fn arr_c(t: RustType, c: &str) -> RustType {
    RustType::Array { elem: Box::new(t), len: ArrayLen::Named(c.to_string()) }
}

fn field(n: &str, t: RustType) -> Field {
    Field { name: n.to_string(), ty: t }
}

fn param(n: &str, t: RustType) -> FnParam {
    FnParam { name: n.to_string(), ty: ParamType::Plain(t) }
}

fn cb_param(n: &str, ps: Vec<CbParam>) -> FnParam {
    FnParam { name: n.to_string(), ty: ParamType::Callback(ps) }
}

fn cbp(n: &str, t: RustType) -> CbParam {
    CbParam { name: Some(n.to_string()), ty: t }
}

fn cbp_anon(t: RustType) -> CbParam {
    CbParam { name: None, ty: t }
}

fn strukt(n: &str, repr_c: bool, fields: Vec<Field>) -> Decl {
    Decl::Struct(StructDecl { name: n.to_string(), repr_c, fields })
}

fn marked_fn(n: &str, params: Vec<FnParam>, ret: Option<RustType>) -> Decl {
    Decl::Func(FnDecl { name: n.to_string(), no_mangle: true, extern_c: true, params, ret })
}

fn compile_with(mut lang: LangCSharp, decls: Vec<Decl>) -> Outputs {
    let mut outputs = Outputs::new();
    let mut bindgen = Bindgen::new().unwrap();
    bindgen.source_code("lib.rs", decls);
    if let Err(errors) = bindgen.compile(&mut lang, &mut outputs, true) {
        panic!("compilation failed with {} errors", errors.len());
    }
    outputs
}

fn compile(decls: Vec<Decl>) -> Outputs {
    compile_with(LangCSharp::new(), decls)
}

#[test]
fn non_repr_c_types_are_ignored() {
    let outputs = compile(vec![
        strukt("Foo", false, vec![field("bar", prim(Prim::I32))]),
        Decl::Enum(EnumDecl {
            name: "Meta".to_string(),
            repr_c: false,
            variants: vec![
                Variant { name: "Foo".to_string(), value: None },
                Variant { name: "Bar".to_string(), value: None },
                Variant { name: "Baz".to_string(), value: None },
            ],
        }),
    ]);

    let actual = fetch(&outputs, "Types.cs");
    assert!(actual.is_empty());
}

#[test]
fn structs() {
    let outputs = compile(vec![strukt(
        "Record",
        true,
        vec![
            field("id", prim(Prim::U64)),
            field("enabled", prim(Prim::Bool)),
            field("name", cptr(prim(Prim::CChar))),
            field("random_numbers", arr(prim(Prim::I32), 10)),
            field("widget", named("Widget")),
            field("gadgets", arr(named("Gadget"), 100)),
        ],
    )]);

    let actual = fetch(&outputs, "Types.cs");
    let expected = [
        "using System;",
        "using System.Runtime.InteropServices;",
        "",
        "namespace Backend {",
        "    public struct Record {",
        "        public ulong Id;",
        "        [MarshalAs(UnmanagedType.U1)]",
        "        public bool Enabled;",
        "        [MarshalAs(UnmanagedType.LPStr)]",
        "        public String Name;",
        "        [MarshalAs(UnmanagedType.ByValArray, SizeConst = 10)]",
        "        public int[] RandomNumbers;",
        "        public Widget Widget;",
        "        [MarshalAs(UnmanagedType.ByValArray, SizeConst = 100)]",
        "        public Gadget[] Gadgets;",
        "    }",
        "",
        "}",
        "",
    ]
    .join("\n");

    assert_eq!(actual, expected);
}

#[test]
fn structs_with_dynamic_array_field() {
    // The struct name gets the raw-shape suffix, to allow writing custom
    // wrappers of the unsuffixed name.
    let outputs = compile(vec![
        strukt(
            "Entry",
            true,
            vec![
                field("key_ptr", cptr(prim(Prim::U8))),
                field("key_len", prim(Prim::USize)),
                field("records_ptr", cptr(named("Record"))),
                field("records_len", prim(Prim::USize)),
            ],
        ),
        marked_fn("fun", vec![param("entry", named("Entry"))], None),
    ]);

    let actual = fetch(&outputs, "Types.cs");
    let expected = [
        "using System;",
        "using System.Runtime.InteropServices;",
        "",
        "namespace Backend {",
        "    public struct EntryNative {",
        "        public IntPtr KeyPtr;",
        "        public ulong KeyLen;",
        "        public IntPtr RecordsPtr;",
        "        public ulong RecordsLen;",
        "    }",
        "",
        "}",
        "",
    ]
    .join("\n");
    assert_eq!(actual, expected);

    let actual = fetch(&outputs, "Backend.cs");
    let expected = [
        "using System;",
        "using System.Runtime.InteropServices;",
        "using System.Threading.Tasks;",
        "",
        "namespace Backend {",
        "    public partial class Backend : IBackend {",
        "        #if __IOS__",
        "        internal const String DLL_NAME = \"__Internal\";",
        "        #else",
        "        internal const String DLL_NAME = \"backend\";",
        "        #endif",
        "",
        "        public void Fun(EntryNative entry) {",
        "            FunNative(entry);",
        "        }",
        "",
        "        [DllImport(DLL_NAME, EntryPoint = \"fun\")]",
        "        internal static extern void FunNative(EntryNative entry);",
        "",
        "    }",
        "}",
        "",
    ]
    .join("\n");
    assert_eq!(actual, expected);
}

#[test]
fn type_aliases() {
    let outputs = compile(vec![
        Decl::Alias(AliasDecl { name: "Id".to_string(), target: prim(Prim::U64) }),
        // Double indirection.
        Decl::Alias(AliasDecl { name: "UserId".to_string(), target: named("Id") }),
        strukt(
            "Message",
            true,
            vec![
                field("id", named("Id")),
                field("sender_id", named("UserId")),
                field("receiver_ids", arr(named("Id"), 10)),
            ],
        ),
        marked_fn(
            "fun",
            vec![
                param("id", named("Id")),
                param("user_data", mptr(prim(Prim::CVoid))),
                cb_param(
                    "cb",
                    vec![
                        cbp_anon(mptr(prim(Prim::CVoid))),
                        cbp_anon(cptr(named("FfiResult"))),
                        cbp_anon(named("Id")),
                    ],
                ),
            ],
            None,
        ),
    ]);

    let actual = fetch(&outputs, "Types.cs");
    let expected = [
        "using System;",
        "using System.Runtime.InteropServices;",
        "",
        "namespace Backend {",
        "    public struct Message {",
        "        public ulong Id;",
        "        public ulong SenderId;",
        "        [MarshalAs(UnmanagedType.ByValArray, SizeConst = 10)]",
        "        public ulong[] ReceiverIds;",
        "    }",
        "",
        "}",
        "",
    ]
    .join("\n");
    assert_eq!(actual, expected);

    let actual = fetch(&outputs, "Backend.cs");
    let expected = [
        "using System;",
        "using System.Runtime.InteropServices;",
        "using System.Threading.Tasks;",
        "",
        "namespace Backend {",
        "    public partial class Backend : IBackend {",
        "        #if __IOS__",
        "        internal const String DLL_NAME = \"__Internal\";",
        "        #else",
        "        internal const String DLL_NAME = \"backend\";",
        "        #endif",
        "",
        "        public Task<ulong> Fun(ulong id) {",
        "            var (task, userData) = Utils.PrepareTask<ulong>();",
        "            FunNative(id, userData, OnFfiResultULongCb);",
        "            return task;",
        "        }",
        "",
        "        [DllImport(DLL_NAME, EntryPoint = \"fun\")]",
        "        internal static extern void FunNative(ulong id, IntPtr userData, FfiResultULongCb cb);",
        "",
        "        #region Callbacks",
        "        internal delegate void FfiResultULongCb(IntPtr arg0, ref FfiResult arg1, ulong arg2);",
        "",
        "        #if __IOS__",
        "        [MonoPInvokeCallback(typeof(FfiResultULongCb))]",
        "        #endif",
        "        private static void OnFfiResultULongCb(IntPtr arg0, ref FfiResult arg1, ulong arg2) {",
        "            Utils.CompleteTask(arg0, ref arg1, arg2);",
        "        }",
        "",
        "        #endregion",
        "",
        "    }",
        "}",
        "",
    ]
    .join("\n");
    assert_eq!(actual, expected);
}

#[test]
fn enums() {
    let outputs = compile(vec![
        Decl::Enum(EnumDecl {
            name: "Mode".to_string(),
            repr_c: true,
            variants: vec![
                Variant { name: "ReadOnly".to_string(), value: None },
                Variant { name: "WriteOnly".to_string(), value: None },
                Variant { name: "ReadAndWrite".to_string(), value: None },
            ],
        }),
        Decl::Enum(EnumDecl {
            name: "Binary".to_string(),
            repr_c: true,
            variants: vec![
                Variant { name: "Zero".to_string(), value: Some(0) },
                Variant { name: "One".to_string(), value: Some(1) },
            ],
        }),
    ]);

    let actual = fetch(&outputs, "Types.cs");
    let expected = [
        "using System;",
        "using System.Runtime.InteropServices;",
        "",
        "namespace Backend {",
        "    public enum Mode {",
        "        ReadOnly,",
        "        WriteOnly,",
        "        ReadAndWrite,",
        "    }",
        "",
        "    public enum Binary {",
        "        Zero = 0,",
        "        One = 1,",
        "    }",
        "",
        "}",
        "",
    ]
    .join("\n");

    assert_eq!(actual, expected);
}

#[test]
fn functions_without_extern_and_no_mangle_are_ignored() {
    let outputs = compile(vec![
        Decl::Func(FnDecl {
            name: "fun1".to_string(),
            no_mangle: false,
            extern_c: true,
            params: vec![],
            ret: None,
        }),
        Decl::Func(FnDecl {
            name: "fun2".to_string(),
            no_mangle: true,
            extern_c: false,
            params: vec![],
            ret: None,
        }),
    ]);

    let actual = fetch(&outputs, "Backend.cs");
    assert!(actual.is_empty());
}

#[test]
fn functions_taking_no_callbacks() {
    let outputs = compile(vec![marked_fn("fun0", vec![param("engine", mptr(named("Engine")))], None)]);

    let actual = fetch(&outputs, "Backend.cs");
    let expected = [
        "using System;",
        "using System.Runtime.InteropServices;",
        "using System.Threading.Tasks;",
        "",
        "namespace Backend {",
        "    public partial class Backend : IBackend {",
        "        #if __IOS__",
        "        internal const String DLL_NAME = \"__Internal\";",
        "        #else",
        "        internal const String DLL_NAME = \"backend\";",
        "        #endif",
        "",
        "        public void Fun0(ref Engine engine) {",
        "            Fun0Native(ref engine);",
        "        }",
        "",
        "        [DllImport(DLL_NAME, EntryPoint = \"fun0\")]",
        "        internal static extern void Fun0Native(ref Engine engine);",
        "",
        "    }",
        "}",
        "",
    ]
    .join("\n");

    assert_eq!(actual, expected);
}

#[test]
fn functions_taking_one_callback() {
    let outputs = compile(vec![marked_fn(
        "fun1",
        vec![
            param("num", prim(Prim::I32)),
            param("name", cptr(prim(Prim::CChar))),
            param("user_data", mptr(prim(Prim::CVoid))),
            cb_param(
                "cb",
                vec![
                    cbp("user_data", mptr(prim(Prim::CVoid))),
                    cbp("result", cptr(named("FfiResult"))),
                ],
            ),
        ],
        None,
    )]);

    let actual = fetch(&outputs, "Backend.cs");
    let expected = [
        "using System;",
        "using System.Runtime.InteropServices;",
        "using System.Threading.Tasks;",
        "",
        "namespace Backend {",
        "    public partial class Backend : IBackend {",
        "        #if __IOS__",
        "        internal const String DLL_NAME = \"__Internal\";",
        "        #else",
        "        internal const String DLL_NAME = \"backend\";",
        "        #endif",
        "",
        "        public Task Fun1(int num, String name) {",
        "            var (task, userData) = Utils.PrepareTask();",
        "            Fun1Native(num, name, userData, OnFfiResultCb);",
        "            return task;",
        "        }",
        "",
        "        [DllImport(DLL_NAME, EntryPoint = \"fun1\")]",
        "        internal static extern void Fun1Native(int num, [MarshalAs(UnmanagedType.LPStr)] String name, IntPtr userData, FfiResultCb cb);",
        "",
        "        #region Callbacks",
        "        internal delegate void FfiResultCb(IntPtr userData, ref FfiResult result);",
        "",
        "        #if __IOS__",
        "        [MonoPInvokeCallback(typeof(FfiResultCb))]",
        "        #endif",
        "        private static void OnFfiResultCb(IntPtr userData, ref FfiResult result) {",
        "            Utils.CompleteTask(userData, ref result);",
        "        }",
        "",
        "        #endregion",
        "",
        "    }",
        "}",
        "",
    ]
    .join("\n");

    assert_eq!(actual, expected);
}

#[test]
fn functions_taking_multiple_callbacks() {
    // Only the native declaration and the delegates should be produced.
    let outputs = compile(vec![marked_fn(
        "fun",
        vec![
            param("input", prim(Prim::I32)),
            param("user_data", mptr(prim(Prim::CVoid))),
            cb_param("cb0", vec![cbp("user_data", mptr(prim(Prim::CVoid)))]),
            cb_param(
                "cb1",
                vec![
                    cbp("user_data", mptr(prim(Prim::CVoid))),
                    cbp("result", cptr(named("FfiResult"))),
                    cbp("output", prim(Prim::I32)),
                ],
            ),
        ],
        None,
    )]);

    let actual = fetch(&outputs, "Backend.cs");
    let expected = [
        "using System;",
        "using System.Runtime.InteropServices;",
        "using System.Threading.Tasks;",
        "",
        "namespace Backend {",
        "    public partial class Backend : IBackend {",
        "        #if __IOS__",
        "        internal const String DLL_NAME = \"__Internal\";",
        "        #else",
        "        internal const String DLL_NAME = \"backend\";",
        "        #endif",
        "",
        "        [DllImport(DLL_NAME, EntryPoint = \"fun\")]",
        "        internal static extern void FunNative(int input, IntPtr userData, NoneCb cb0, FfiResultIntCb cb1);",
        "",
        "        #region Callbacks",
        "        internal delegate void FfiResultIntCb(IntPtr userData, ref FfiResult result, int output);",
        "",
        "        internal delegate void NoneCb(IntPtr userData);",
        "",
        "        #endregion",
        "",
        "    }",
        "}",
        "",
    ]
    .join("\n");

    assert_eq!(actual, expected);
}

#[test]
fn functions_taking_array() {
    let outputs = compile(vec![
        marked_fn(
            "fun0",
            vec![param("data_ptr", cptr(prim(Prim::U8))), param("data_len", prim(Prim::USize))],
            None,
        ),
        // Params before and/or after the array.
        marked_fn(
            "fun1",
            vec![
                param("id", prim(Prim::U64)),
                param("data_ptr", cptr(prim(Prim::U8))),
                param("data_len", prim(Prim::USize)),
            ],
            None,
        ),
        // This one does not follow the naming convention and thus is not
        // transformed to an array.
        marked_fn(
            "fun2",
            vec![param("result", cptr(named("FfiResult"))), param("len", prim(Prim::USize))],
            None,
        ),
    ]);

    let actual = fetch(&outputs, "Backend.cs");
    let expected = [
        "using System;",
        "using System.Runtime.InteropServices;",
        "using System.Threading.Tasks;",
        "",
        "namespace Backend {",
        "    public partial class Backend : IBackend {",
        "        #if __IOS__",
        "        internal const String DLL_NAME = \"__Internal\";",
        "        #else",
        "        internal const String DLL_NAME = \"backend\";",
        "        #endif",
        "",
        "        public void Fun0(byte[] data) {",
        "            Fun0Native(data, (ulong) data.Length);",
        "        }",
        "",
        "        [DllImport(DLL_NAME, EntryPoint = \"fun0\")]",
        "        internal static extern void Fun0Native([MarshalAs(UnmanagedType.LPArray, SizeParamIndex = 1)] byte[] data, ulong dataLen);",
        "",
        "        public void Fun1(ulong id, byte[] data) {",
        "            Fun1Native(id, data, (ulong) data.Length);",
        "        }",
        "",
        "        [DllImport(DLL_NAME, EntryPoint = \"fun1\")]",
        "        internal static extern void Fun1Native(ulong id, [MarshalAs(UnmanagedType.LPArray, SizeParamIndex = 2)] byte[] data, ulong dataLen);",
        "",
        "        public void Fun2(ref FfiResult result, ulong len) {",
        "            Fun2Native(ref result, len);",
        "        }",
        "",
        "        [DllImport(DLL_NAME, EntryPoint = \"fun2\")]",
        "        internal static extern void Fun2Native(ref FfiResult result, ulong len);",
        "",
        "    }",
        "}",
        "",
    ]
    .join("\n");

    assert_eq!(actual, expected);
}

#[test]
fn functions_taking_callback_taking_const_size_array() {
    let outputs = compile(vec![
        // Literal size.
        marked_fn(
            "fun2",
            vec![
                param("user_data", mptr(prim(Prim::CVoid))),
                cb_param(
                    "cb",
                    vec![
                        cbp("user_data", mptr(prim(Prim::CVoid))),
                        cbp("result", cptr(named("FfiResult"))),
                        cbp("key", arr(prim(Prim::U8), 32)),
                    ],
                ),
            ],
            None,
        ),
        // Named constant size.
        marked_fn(
            "fun3",
            vec![
                param("user_data", mptr(prim(Prim::CVoid))),
                cb_param(
                    "cb",
                    vec![
                        cbp("user_data", mptr(prim(Prim::CVoid))),
                        cbp("result", cptr(named("FfiResult"))),
                        cbp("nonce", arr_c(prim(Prim::U8), "NONCE_LEN")),
                    ],
                ),
            ],
            None,
        ),
    ]);

    let actual = fetch(&outputs, "Backend.cs");
    let expected = [
        "using System;",
        "using System.Runtime.InteropServices;",
        "using System.Threading.Tasks;",
        "",
        "namespace Backend {",
        "    public partial class Backend : IBackend {",
        "        #if __IOS__",
        "        internal const String DLL_NAME = \"__Internal\";",
        "        #else",
        "        internal const String DLL_NAME = \"backend\";",
        "        #endif",
        "",
        "        public Task<byte[]> Fun2() {",
        "            var (task, userData) = Utils.PrepareTask<byte[]>();",
        "            Fun2Native(userData, OnFfiResultByteArray32Cb);",
        "            return task;",
        "        }",
        "",
        "        [DllImport(DLL_NAME, EntryPoint = \"fun2\")]",
        "        internal static extern void Fun2Native(IntPtr userData, FfiResultByteArray32Cb cb);",
        "",
        "        public Task<byte[]> Fun3() {",
        "            var (task, userData) = Utils.PrepareTask<byte[]>();",
        "            Fun3Native(userData, OnFfiResultByteArrayNonceLenCb);",
        "            return task;",
        "        }",
        "",
        "        [DllImport(DLL_NAME, EntryPoint = \"fun3\")]",
        "        internal static extern void Fun3Native(IntPtr userData, FfiResultByteArrayNonceLenCb cb);",
        "",
        "        #region Callbacks",
        "        internal delegate void FfiResultByteArray32Cb(IntPtr userData, ref FfiResult result, IntPtr keyPtr);",
        "",
        "        #if __IOS__",
        "        [MonoPInvokeCallback(typeof(FfiResultByteArray32Cb))]",
        "        #endif",
        "        private static void OnFfiResultByteArray32Cb(IntPtr userData, ref FfiResult result, IntPtr keyPtr) {",
        "            Utils.CompleteTask(userData, ref result, Utils.CopyToByteArray(keyPtr, 32));",
        "        }",
        "",
        "        internal delegate void FfiResultByteArrayNonceLenCb(IntPtr userData, ref FfiResult result, IntPtr noncePtr);",
        "",
        "        #if __IOS__",
        "        [MonoPInvokeCallback(typeof(FfiResultByteArrayNonceLenCb))]",
        "        #endif",
        "        private static void OnFfiResultByteArrayNonceLenCb(IntPtr userData, ref FfiResult result, IntPtr noncePtr) {",
        "            Utils.CompleteTask(userData, ref result, Utils.CopyToByteArray(noncePtr, Constants.NONCE_LEN));",
        "        }",
        "",
        "        #endregion",
        "",
        "    }",
        "}",
        "",
    ]
    .join("\n");

    assert_eq!(actual, expected);
}

#[test]
fn functions_taking_callback_taking_dynamic_array() {
    let outputs = compile(vec![
        // Primitive element type.
        marked_fn(
            "fun0",
            vec![
                param("user_data", mptr(prim(Prim::CVoid))),
                cb_param(
                    "cb",
                    vec![
                        cbp("user_data", mptr(prim(Prim::CVoid))),
                        cbp("result", cptr(named("FfiResult"))),
                        cbp("data_ptr", cptr(prim(Prim::U8))),
                        cbp("data_len", prim(Prim::USize)),
                    ],
                ),
            ],
            None,
        ),
        // Structures.
        marked_fn(
            "fun1",
            vec![
                param("user_data", mptr(prim(Prim::CVoid))),
                cb_param(
                    "cb",
                    vec![
                        cbp("user_data", mptr(prim(Prim::CVoid))),
                        cbp("result", cptr(named("FfiResult"))),
                        cbp("records_ptr", cptr(named("Record"))),
                        cbp("records_len", prim(Prim::USize)),
                    ],
                ),
            ],
            None,
        ),
    ]);

    let actual = fetch(&outputs, "Backend.cs");
    let expected = [
        "using System;",
        "using System.Runtime.InteropServices;",
        "using System.Threading.Tasks;",
        "",
        "namespace Backend {",
        "    public partial class Backend : IBackend {",
        "        #if __IOS__",
        "        internal const String DLL_NAME = \"__Internal\";",
        "        #else",
        "        internal const String DLL_NAME = \"backend\";",
        "        #endif",
        "",
        "        public Task<byte[]> Fun0() {",
        "            var (task, userData) = Utils.PrepareTask<byte[]>();",
        "            Fun0Native(userData, OnFfiResultByteListCb);",
        "            return task;",
        "        }",
        "",
        "        [DllImport(DLL_NAME, EntryPoint = \"fun0\")]",
        "        internal static extern void Fun0Native(IntPtr userData, FfiResultByteListCb cb);",
        "",
        "        public Task<Record[]> Fun1() {",
        "            var (task, userData) = Utils.PrepareTask<Record[]>();",
        "            Fun1Native(userData, OnFfiResultRecordListCb);",
        "            return task;",
        "        }",
        "",
        "        [DllImport(DLL_NAME, EntryPoint = \"fun1\")]",
        "        internal static extern void Fun1Native(IntPtr userData, FfiResultRecordListCb cb);",
        "",
        "        #region Callbacks",
        "        internal delegate void FfiResultByteListCb(IntPtr userData, ref FfiResult result, IntPtr dataPtr, ulong dataLen);",
        "",
        "        #if __IOS__",
        "        [MonoPInvokeCallback(typeof(FfiResultByteListCb))]",
        "        #endif",
        "        private static void OnFfiResultByteListCb(IntPtr userData, ref FfiResult result, IntPtr dataPtr, ulong dataLen) {",
        "            Utils.CompleteTask(userData, ref result, Utils.CopyToByteArray(dataPtr, dataLen));",
        "        }",
        "",
        "        internal delegate void FfiResultRecordListCb(IntPtr userData, ref FfiResult result, IntPtr recordsPtr, ulong recordsLen);",
        "",
        "        #if __IOS__",
        "        [MonoPInvokeCallback(typeof(FfiResultRecordListCb))]",
        "        #endif",
        "        private static void OnFfiResultRecordListCb(IntPtr userData, ref FfiResult result, IntPtr recordsPtr, ulong recordsLen) {",
        "            Utils.CompleteTask(userData, ref result, Utils.CopyToObjectArray<Record>(recordsPtr, recordsLen));",
        "        }",
        "",
        "        #endregion",
        "",
        "    }",
        "}",
        "",
    ]
    .join("\n");

    assert_eq!(actual, expected);
}

#[test]
fn functions_with_opaque_params() {
    let mut lang = LangCSharp::new();
    lang.add_opaque_type("Handle");

    let outputs = compile_with(lang, vec![marked_fn(
        "fun0",
        vec![param("handle", cptr(named("Handle")))],
        None,
    )]);

    let actual = fetch(&outputs, "Types.cs");
    let expected = [
        "using System;",
        "using System.Runtime.InteropServices;",
        "",
        "namespace Backend {",
        "    #pragma warning disable CS0169",
        "    public struct Handle {",
        "        private IntPtr _value;",
        "    }",
        "",
        "    #pragma warning restore CS0169",
        "}",
        "",
    ]
    .join("\n");
    assert_eq!(actual, expected);

    let actual = fetch(&outputs, "Backend.cs");
    let expected = [
        "using System;",
        "using System.Runtime.InteropServices;",
        "using System.Threading.Tasks;",
        "",
        "namespace Backend {",
        "    public partial class Backend : IBackend {",
        "        #if __IOS__",
        "        internal const String DLL_NAME = \"__Internal\";",
        "        #else",
        "        internal const String DLL_NAME = \"backend\";",
        "        #endif",
        "",
        "        public void Fun0(Handle handle) {",
        "            Fun0Native(handle);",
        "        }",
        "",
        "        [DllImport(DLL_NAME, EntryPoint = \"fun0\")]",
        "        internal static extern void Fun0Native(Handle handle);",
        "",
        "    }",
        "}",
        "",
    ]
    .join("\n");
    assert_eq!(actual, expected);
}

#[test]
fn functions_with_return_values() {
    let outputs = compile(vec![marked_fn(
        "fun",
        vec![param("arg", prim(Prim::I32))],
        Some(prim(Prim::Bool)),
    )]);

    let actual = fetch(&outputs, "Backend.cs");
    let expected = [
        "using System;",
        "using System.Runtime.InteropServices;",
        "using System.Threading.Tasks;",
        "",
        "namespace Backend {",
        "    public partial class Backend : IBackend {",
        "        #if __IOS__",
        "        internal const String DLL_NAME = \"__Internal\";",
        "        #else",
        "        internal const String DLL_NAME = \"backend\";",
        "        #endif",
        "",
        "        public bool Fun(int arg) {",
        "            return FunNative(arg);",
        "        }",
        "",
        "        [DllImport(DLL_NAME, EntryPoint = \"fun\")]",
        "        internal static extern bool FunNative(int arg);",
        "",
        "    }",
        "}",
        "",
    ]
    .join("\n");

    assert_eq!(actual, expected);
}

#[test]
fn functions_taking_out_param() {
    let outputs = compile(vec![marked_fn(
        "fun",
        vec![param("o_app", mptr(mptr(named("App"))))],
        None,
    )]);

    let actual = fetch(&outputs, "Backend.cs");
    let expected = [
        "using System;",
        "using System.Runtime.InteropServices;",
        "using System.Threading.Tasks;",
        "",
        "namespace Backend {",
        "    public partial class Backend : IBackend {",
        "        #if __IOS__",
        "        internal const String DLL_NAME = \"__Internal\";",
        "        #else",
        "        internal const String DLL_NAME = \"backend\";",
        "        #endif",
        "",
        "        public void Fun(out IntPtr oApp) {",
        "            FunNative(out oApp);",
        "        }",
        "",
        "        [DllImport(DLL_NAME, EntryPoint = \"fun\")]",
        "        internal static extern void FunNative(out IntPtr oApp);",
        "",
        "    }",
        "}",
        "",
    ]
    .join("\n");
    assert_eq!(actual, expected);
}

#[test]
fn constants() {
    let mut lang = LangCSharp::new();
    lang.add_const("byte", "CUSTOM", "45");

    let outputs = compile_with(lang, vec![
        Decl::Const(ConstDecl {
            name: "NUMBER".to_string(),
            ty: prim(Prim::I32),
            value: ConstValue::Scalar(ConstScalar::Int(123)),
        }),
        Decl::Const(ConstDecl {
            name: "STRING".to_string(),
            ty: cptr(prim(Prim::CChar)),
            value: ConstValue::Scalar(ConstScalar::Str("hello world".to_string())),
        }),
        Decl::Const(ConstDecl {
            name: "ARRAY".to_string(),
            ty: arr(prim(Prim::U8), 4),
            value: ConstValue::Array(vec![
                ConstScalar::Int(0),
                ConstScalar::Int(1),
                ConstScalar::Int(2),
                ConstScalar::Int(3),
            ]),
        }),
        Decl::Const(ConstDecl {
            name: "STRUCT_VALUE".to_string(),
            ty: named("Record"),
            value: ConstValue::StructLit {
                ty_name: "Record".to_string(),
                fields: vec![
                    ConstField { name: "id".to_string(), value: ConstScalar::Int(0) },
                    ConstField {
                        name: "secret_code".to_string(),
                        value: ConstScalar::Str("xyz".to_string()),
                    },
                ],
            },
        }),
        Decl::Const(ConstDecl {
            name: "STRUCT_REF".to_string(),
            ty: named("Record"),
            value: ConstValue::StructRef {
                ty_name: "Record".to_string(),
                fields: vec![
                    ConstField { name: "id".to_string(), value: ConstScalar::Int(1) },
                    ConstField {
                        name: "secret_code".to_string(),
                        value: ConstScalar::Str("xyz".to_string()),
                    },
                ],
            },
        }),
        Decl::Const(ConstDecl {
            name: "EMPTY_STR".to_string(),
            ty: cptr(prim(Prim::CChar)),
            value: ConstValue::NullCharPtr,
        }),
    ]);

    let actual = fetch(&outputs, "Constants.cs");
    let expected = [
        "using System;",
        "",
        "namespace Backend {",
        "    public static class Constants {",
        "        public const int NUMBER = 123;",
        "        public const String STRING = \"hello world\";",
        "        public static readonly byte[] ARRAY = new byte[] { 0, 1, 2, 3 };",
        "        public static readonly Record STRUCT_VALUE = new Record { id = 0, secretCode = \"xyz\" };",
        "        public static readonly Record STRUCT_REF = new Record { id = 1, secretCode = \"xyz\" };",
        "        public const String EMPTY_STR = \"\";",
        "        public const byte CUSTOM = 45;",
        "    }",
        "}",
        "",
    ]
    .join("\n");

    assert_eq!(actual, expected);
}

#[test]
fn arrays() {
    let outputs = compile(vec![
        Decl::Const(ConstDecl {
            name: "ARRAY_SIZE".to_string(),
            ty: prim(Prim::USize),
            value: ConstValue::Scalar(ConstScalar::Int(20)),
        }),
        marked_fn(
            "fun",
            vec![
                param("a", arr(prim(Prim::U8), 10)),
                param("b", arr_c(prim(Prim::U8), "ARRAY_SIZE")),
            ],
            None,
        ),
    ]);

    let actual = fetch(&outputs, "Backend.cs");
    let expected = [
        "using System;",
        "using System.Runtime.InteropServices;",
        "using System.Threading.Tasks;",
        "",
        "namespace Backend {",
        "    public partial class Backend : IBackend {",
        "        #if __IOS__",
        "        internal const String DLL_NAME = \"__Internal\";",
        "        #else",
        "        internal const String DLL_NAME = \"backend\";",
        "        #endif",
        "",
        "        public void Fun(byte[] a, byte[] b) {",
        "            FunNative(a, b);",
        "        }",
        "",
        "        [DllImport(DLL_NAME, EntryPoint = \"fun\")]",
        "        internal static extern void FunNative([MarshalAs(UnmanagedType.ByValArray, SizeConst = 10)] byte[] a, [MarshalAs(UnmanagedType.ByValArray, SizeConst = (int) Constants.ARRAY_SIZE)] byte[] b);",
        "",
        "    }",
        "}",
        "",
    ]
    .join("\n");

    assert_eq!(actual, expected);
}

#[test]
fn interface() {
    let outputs = compile(vec![marked_fn(
        "fun",
        vec![
            param("enabled", prim(Prim::Bool)),
            param("user_data", mptr(prim(Prim::CVoid))),
            cb_param(
                "cb",
                vec![
                    cbp("user_data", mptr(prim(Prim::CVoid))),
                    cbp("result", cptr(named("FfiResult"))),
                ],
            ),
        ],
        None,
    )]);

    let actual = fetch(&outputs, "IBackend.cs");
    let expected = [
        "using System;",
        "using System.Runtime.InteropServices;",
        "using System.Threading.Tasks;",
        "",
        "namespace Backend {",
        "    public partial interface IBackend {",
        "        Task Fun(bool enabled);",
        "    }",
        "}",
        "",
    ]
    .join("\n");

    assert_eq!(actual, expected);
}
