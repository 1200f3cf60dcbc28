use overlink::args::{MockFfiArgs, Token};
use overlink::error::{ErrorSite, TransformError};
use overlink::path::{Path, PathSegment};
use overlink::pointer_type::{
    bare_fn_type, extract_arg_names, BareFnArg, BareVariadic, TypeBareFn,
};
use overlink::rewrite::{replace_super, SUPER};
use overlink::signature::{Abi, FnArg, GenericParam, Pat, PatType, Signature, Variadic};
use overlink::transform::{
    contains_nul, overlink, Attribute, ItemFn, Stmt, RECURSION_GUARD, RECURSION_STATE, SUPER_FN,
    SUPER_STATIC,
};
use overlink::tree::Syntax;

fn text(s: &str) -> String {
    s.to_string()
}

fn c_abi() -> Option<Abi> {
    Some(Abi { name: Some(text("C")) })
}

fn typed(name: &str, ty: &str) -> FnArg {
    FnArg::Typed(PatType { attrs: Vec::new(), pat: Pat::Ident(text(name)), ty: text(ty) })
}

fn path(names: &[&str]) -> Path {
    Path {
        leading_colon: false,
        segments: names.iter().map(|n| PathSegment { ident: text(n), arguments: None }).collect(),
    }
}

fn name(ident: &str) -> Syntax {
    Syntax::Path(path(&[ident]))
}

fn super_call(args: Vec<Syntax>) -> Syntax {
    Syntax::Macro { path: path(&["super"]), args }
}

fn forwarded_call(args: Vec<Syntax>) -> Syntax {
    Syntax::Call { func: path(&[SUPER_FN]), args }
}

fn defaults() -> MockFfiArgs {
    MockFfiArgs { allow_reentry: false, name: None }
}

fn clock_gettime_sig() -> Signature {
    Signature {
        unsafety: true,
        abi: c_abi(),
        ident: text("clock_gettime"),
        generics: Vec::new(),
        inputs: vec![typed("clockid", "libc::clockid_t"), typed("res", "*mut libc::timespec")],
        variadic: None,
        output: Some(text("libc::c_int")),
    }
}

fn clock_gettime_type() -> TypeBareFn {
    TypeBareFn {
        lifetimes: Vec::new(),
        unsafety: true,
        abi: c_abi(),
        inputs: vec![
            BareFnArg { attrs: Vec::new(), ty: text("libc::clockid_t") },
            BareFnArg { attrs: Vec::new(), ty: text("*mut libc::timespec") },
        ],
        variadic: None,
        output: Some(text("libc::c_int")),
    }
}

/// `let result = super!(clockid, res); if result != 0 { return result; } ...`
fn clock_gettime_body() -> Vec<Stmt> {
    vec![
        Stmt::Source(Syntax::Other(vec![super_call(vec![name("clockid"), name("res")])])),
        Stmt::Source(Syntax::Other(vec![
            Syntax::Other(vec![Syntax::Path(path(&["result"])), Syntax::Other(Vec::new())]),
            Syntax::Other(vec![Syntax::Path(path(&["result"]))]),
        ])),
        Stmt::Source(Syntax::Other(Vec::new())),
    ]
}

fn clock_gettime() -> ItemFn {
    ItemFn {
        attrs: vec![Attribute::Other(text("#[inline(never)]"))],
        sig: clock_gettime_sig(),
        stmts: clock_gettime_body(),
    }
}

#[test]
fn the_names_that_the_wrapper_uses() {
    assert_eq!(SUPER, "super");
    assert_eq!(SUPER_STATIC, "__OVERLINK_SUPER__");
    assert_eq!(SUPER_FN, "__overlink_super__");
    assert_eq!(RECURSION_STATE, "__OVERLINK_RECURSION__");
    assert_eq!(RECURSION_GUARD, "__overlink_recursion_guard__");
}

#[test]
fn the_wrapper_of_a_time_override() {
    let output = overlink(defaults(), clock_gettime()).unwrap();
    let want = ItemFn {
        attrs: vec![
            Attribute::ExportName(text("clock_gettime")),
            Attribute::Other(text("#[inline(never)]")),
        ],
        sig: clock_gettime_sig(),
        stmts: vec![
            Stmt::SuperHandle { ty: clock_gettime_type(), symbol: b"clock_gettime".to_vec() },
            Stmt::SuperBinding { ty: clock_gettime_type() },
            Stmt::RecursionState,
            Stmt::RecursionCheck { forward: vec![text("clockid"), text("res")] },
            Stmt::Source(Syntax::Other(vec![forwarded_call(vec![name("clockid"), name("res")])])),
            Stmt::Source(Syntax::Other(vec![
                Syntax::Other(vec![Syntax::Path(path(&["result"])), Syntax::Other(Vec::new())]),
                Syntax::Other(vec![Syntax::Path(path(&["result"]))]),
            ])),
            Stmt::Source(Syntax::Other(Vec::new())),
        ],
    };
    assert_eq!(output, want);
}

#[test]
fn allow_reentry_leaves_the_guard_out() {
    let args = MockFfiArgs { allow_reentry: true, name: None };
    let output = overlink(args, clock_gettime()).unwrap();
    assert_eq!(output.stmts.len(), 2 + clock_gettime_body().len());
    assert_eq!(
        output.stmts[0],
        Stmt::SuperHandle { ty: clock_gettime_type(), symbol: b"clock_gettime".to_vec() }
    );
    assert_eq!(output.stmts[1], Stmt::SuperBinding { ty: clock_gettime_type() });
    assert!(output
        .stmts
        .iter()
        .all(|stmt| !matches!(stmt, Stmt::RecursionState | Stmt::RecursionCheck { .. })));
}

#[test]
fn an_explicit_name_replaces_the_identifier() {
    let args = MockFfiArgs { allow_reentry: false, name: Some(text("__clock_gettime64")) };
    let output = overlink(args, clock_gettime()).unwrap();
    assert_eq!(output.attrs[0], Attribute::ExportName(text("__clock_gettime64")));
    assert_eq!(
        output.stmts[0],
        Stmt::SuperHandle { ty: clock_gettime_type(), symbol: b"__clock_gettime64".to_vec() }
    );
    assert_eq!(output.sig.ident, "clock_gettime");
}

#[test]
fn a_symbol_name_is_exported_as_its_utf8_bytes() {
    let args = MockFfiArgs { allow_reentry: true, name: Some(text("zeit_é")) };
    let output = overlink(args, clock_gettime()).unwrap();
    assert_eq!(
        output.stmts[0],
        Stmt::SuperHandle { ty: clock_gettime_type(), symbol: "zeit_é".as_bytes().to_vec() }
    );
}

#[test]
fn a_function_without_calling_convention_is_refused() {
    let mut item = clock_gettime();
    item.sig.abi = None;
    let error = overlink(defaults(), item).unwrap_err();
    assert_eq!(error, TransformError::MissingAbi);
    assert_eq!(error.site(), ErrorSite::FnToken);
    assert_eq!(error.message(), "#[overlink] functions must have an explicit ABI");
}

#[test]
fn the_calling_convention_is_checked_first() {
    let mut item = clock_gettime();
    item.sig.abi = None;
    item.sig.generics = vec![GenericParam::Type(text("T"))];
    item.sig.inputs = vec![FnArg::Receiver(text("&self"))];
    let args = MockFfiArgs { allow_reentry: false, name: Some(text("a\0b")) };
    assert_eq!(overlink(args, item), Err(TransformError::MissingAbi));
}

#[test]
fn extern_without_a_name_is_a_calling_convention() {
    let mut item = clock_gettime();
    item.sig.abi = Some(Abi { name: None });
    let output = overlink(defaults(), item).unwrap();
    match &output.stmts[0] {
        Stmt::SuperHandle { ty, .. } => assert_eq!(ty.abi, Some(Abi { name: None })),
        other => panic!("unexpected statement {:?}", other),
    }
}

#[test]
fn a_zero_byte_in_the_name_is_refused() {
    let args = MockFfiArgs { allow_reentry: false, name: Some(text("clock\0gettime")) };
    let error = overlink(args, clock_gettime()).unwrap_err();
    assert_eq!(error, TransformError::NulInSymbolName);
    assert_eq!(error.site(), ErrorSite::SymbolName);
    assert_eq!(error.message(), "symbol name contains a null byte");
    let mut item = clock_gettime();
    item.sig.ident = text("\0");
    assert_eq!(overlink(defaults(), item), Err(TransformError::NulInSymbolName));
}

#[test]
fn a_zero_byte_written_as_an_escape_is_refused() {
    let tokens = vec![
        Token::Ident(text("name")),
        Token::Punct('='),
        Token::Literal(text("\"clock\\0gettime\"")),
    ];
    let args = MockFfiArgs::parse(&tokens).unwrap();
    assert_eq!(args.name, Some(text("clock\0gettime")));
    assert_eq!(overlink(args, clock_gettime()), Err(TransformError::NulInSymbolName));
}

#[test]
fn zero_bytes_are_found_wherever_they_stand() {
    assert!(!contains_nul(&Vec::new()));
    assert!(!contains_nul(&b"clock_gettime".to_vec()));
    assert!(contains_nul(&vec![0]));
    assert!(contains_nul(&b"abc\0".to_vec()));
    assert!(contains_nul(&b"\0abc".to_vec()));
}

#[test]
fn a_type_parameter_is_refused() {
    let mut item = clock_gettime();
    item.sig.generics = vec![
        GenericParam::Lifetime(text("'a")),
        GenericParam::Type(text("T: Copy")),
        GenericParam::Const(text("const N: usize")),
    ];
    item.sig.inputs.push(FnArg::Receiver(text("self")));
    let error = overlink(defaults(), item).unwrap_err();
    assert_eq!(error, TransformError::NonLifetimeGeneric { index: 1 });
    assert_eq!(error.site(), ErrorSite::GenericParam(1));
    assert_eq!(
        error.message(),
        "#[overlink] does not support non-lifetime generic parameters"
    );
}

#[test]
fn a_const_parameter_is_refused() {
    let mut sig = clock_gettime_sig();
    sig.generics = vec![GenericParam::Const(text("const N: usize"))];
    assert_eq!(bare_fn_type(&sig), Err(TransformError::NonLifetimeGeneric { index: 0 }));
}

#[test]
fn a_receiver_is_refused() {
    let mut item = clock_gettime();
    item.sig.inputs.insert(1, FnArg::Receiver(text("&mut self")));
    let args = MockFfiArgs { allow_reentry: true, name: None };
    let error = overlink(args, item).unwrap_err();
    assert_eq!(error, TransformError::Receiver { index: 1 });
    assert_eq!(error.site(), ErrorSite::Input(1));
    assert_eq!(error.message(), "#[overlink] does not support self-receiver arguments");
}

#[test]
fn a_destructured_parameter_is_refused_under_the_guard() {
    let mut item = clock_gettime();
    item.sig.inputs.push(FnArg::Typed(PatType {
        attrs: Vec::new(),
        pat: Pat::Other(text("(a, b)")),
        ty: text("(i32, i32)"),
    }));
    let error = overlink(defaults(), item).unwrap_err();
    assert_eq!(error, TransformError::ComplexArgument { index: 2 });
    assert_eq!(error.site(), ErrorSite::InputPattern(2));
    assert_eq!(
        error.message(),
        "only simply named arguments are supported by #[overlink]"
    );
}

#[test]
fn a_destructured_parameter_is_accepted_with_reentry() {
    let mut item = clock_gettime();
    item.sig.inputs.push(FnArg::Typed(PatType {
        attrs: Vec::new(),
        pat: Pat::Other(text("(a, b)")),
        ty: text("(i32, i32)"),
    }));
    let args = MockFfiArgs { allow_reentry: true, name: None };
    let output = overlink(args, item).unwrap();
    match &output.stmts[1] {
        Stmt::SuperBinding { ty } => {
            assert_eq!(ty.inputs.len(), 3);
            assert_eq!(ty.inputs[2], BareFnArg { attrs: Vec::new(), ty: text("(i32, i32)") });
        }
        other => panic!("unexpected statement {:?}", other),
    }
}

#[test]
fn the_pointer_type_keeps_all_but_the_names() {
    let sig = Signature {
        unsafety: false,
        abi: Some(Abi { name: Some(text("system")) }),
        ident: text("printf"),
        generics: vec![
            GenericParam::Lifetime(text("'a")),
            GenericParam::Lifetime(text("'b: 'a")),
        ],
        inputs: vec![
            FnArg::Typed(PatType {
                attrs: vec![text("#[allow(unused)]")],
                pat: Pat::Other(text("_")),
                ty: text("&'a CStr"),
            }),
            typed("level", "&'b mut i32"),
        ],
        variadic: Some(Variadic {
            attrs: vec![text("#[cfg(all())]")],
            name: Some(text("args")),
            comma: true,
        }),
        output: None,
    };
    let want = TypeBareFn {
        lifetimes: vec![text("'a"), text("'b: 'a")],
        unsafety: false,
        abi: Some(Abi { name: Some(text("system")) }),
        inputs: vec![
            BareFnArg { attrs: vec![text("#[allow(unused)]")], ty: text("&'a CStr") },
            BareFnArg { attrs: Vec::new(), ty: text("&'b mut i32") },
        ],
        variadic: Some(BareVariadic { attrs: vec![text("#[cfg(all())]")], comma: true }),
        output: None,
    };
    let ty = bare_fn_type(&sig).unwrap();
    assert_eq!(ty, want);
    assert_eq!(ty.copy(), want);
}

#[test]
fn the_pointer_type_does_not_ask_for_a_calling_convention() {
    let mut sig = clock_gettime_sig();
    sig.abi = None;
    sig.inputs = Vec::new();
    let ty = bare_fn_type(&sig).unwrap();
    assert_eq!(ty.abi, None);
    assert!(ty.inputs.is_empty());
    assert!(ty.lifetimes.is_empty());
}

#[test]
fn parameters_are_handed_on_by_name() {
    let inputs = vec![FnArg::Receiver(text("&self")), typed("fd", "i32"), typed("buf", "*mut u8")];
    assert_eq!(extract_arg_names(&inputs), Ok(vec![text("self"), text("fd"), text("buf")]));
    assert_eq!(extract_arg_names(&Vec::new()), Ok(Vec::new()));
}

#[test]
fn the_first_unnamed_parameter_is_reported() {
    let inputs = vec![
        typed("fd", "i32"),
        FnArg::Typed(PatType { attrs: Vec::new(), pat: Pat::Other(text("_")), ty: text("i32") }),
        FnArg::Typed(PatType {
            attrs: Vec::new(),
            pat: Pat::Other(text("[a, b]")),
            ty: text("[u8; 2]"),
        }),
    ];
    assert_eq!(extract_arg_names(&inputs), Err(TransformError::ComplexArgument { index: 1 }));
}

#[test]
fn super_is_replaced_in_call_and_in_reference_position() {
    let target = Path::from_ident(SUPER_FN);
    assert_eq!(target, path(&[SUPER_FN]));
    assert_eq!(
        replace_super(&super_call(vec![name("a"), name("b")]), &target),
        forwarded_call(vec![name("a"), name("b")])
    );
    assert_eq!(replace_super(&name("super"), &target), name(SUPER_FN));
}

#[test]
fn a_call_of_super_becomes_a_call_of_the_binding() {
    let target = Path::from_ident(SUPER_FN);
    let call = Syntax::Call { func: path(&["super"]), args: vec![name("id"), name("res")] };
    assert_eq!(
        replace_super(&call, &target),
        forwarded_call(vec![name("id"), name("res")])
    );
    let as_expression = Syntax::Other(vec![name("super"), name("id"), name("res")]);
    assert_eq!(
        replace_super(&as_expression, &target),
        Syntax::Other(vec![name(SUPER_FN), name("id"), name("res")])
    );
}

#[test]
fn super_is_replaced_inside_the_arguments_of_super() {
    let target = Path::from_ident(SUPER_FN);
    let nested = super_call(vec![super_call(vec![name("p")]), name("super")]);
    assert_eq!(
        replace_super(&nested, &target),
        forwarded_call(vec![forwarded_call(vec![name("p")]), name(SUPER_FN)])
    );
    let in_call = Syntax::Call {
        func: path(&["super"]),
        args: vec![Syntax::Call { func: path(&["super"]), args: vec![name("p")] }],
    };
    assert_eq!(
        replace_super(&in_call, &target),
        forwarded_call(vec![forwarded_call(vec![name("p")])])
    );
}

#[test]
fn super_is_replaced_at_any_depth() {
    let target = Path::from_ident(SUPER_FN);
    let body = Syntax::Other(vec![
        Syntax::Other(vec![
            name("f"),
            Syntax::Other(vec![super_call(vec![Syntax::Other(Vec::new())]), name("super")]),
        ]),
        Syntax::Macro {
            path: path(&["println"]),
            args: vec![Syntax::Other(Vec::new()), super_call(vec![name("x")])],
        },
        Syntax::Call { func: path(&["log"]), args: vec![name("super")] },
    ]);
    let want = Syntax::Other(vec![
        Syntax::Other(vec![
            name("f"),
            Syntax::Other(vec![forwarded_call(vec![Syntax::Other(Vec::new())]), name(SUPER_FN)]),
        ]),
        Syntax::Macro {
            path: path(&["println"]),
            args: vec![Syntax::Other(Vec::new()), forwarded_call(vec![name("x")])],
        },
        Syntax::Call { func: path(&["log"]), args: vec![name(SUPER_FN)] },
    ]);
    let once = replace_super(&body, &target);
    assert_eq!(once, want);
    assert_eq!(replace_super(&once, &target), want);
    assert_eq!(body.copy(), body);
}

#[test]
fn text_that_holds_no_expression_is_left_alone() {
    let target = Path::from_ident(SUPER_FN);
    let opaque = Syntax::Macro {
        path: path(&["asm"]),
        args: vec![Syntax::Verbatim(text("super => super!(x)"))],
    };
    assert_eq!(replace_super(&opaque, &target), opaque);
    let replaced = super_call(vec![Syntax::Verbatim(text("a b"))]);
    assert_eq!(
        replace_super(&replaced, &target),
        forwarded_call(vec![Syntax::Verbatim(text("a b"))])
    );
}

#[test]
fn longer_paths_through_super_are_left_alone() {
    let target = Path::from_ident(SUPER_FN);
    let qualified = Syntax::Path(path(&["super", "helper"]));
    assert_eq!(replace_super(&qualified, &target), qualified);
    let rooted = Syntax::Path(Path { leading_colon: true, segments: path(&["super"]).segments });
    assert_eq!(replace_super(&rooted, &target), rooted);
    let generic = Syntax::Path(Path {
        leading_colon: false,
        segments: vec![PathSegment { ident: text("super"), arguments: Some(text("::<T>")) }],
    });
    assert_eq!(replace_super(&generic, &target), generic);
    let other_macro = Syntax::Macro { path: path(&["super", "log"]), args: vec![name("x")] };
    assert_eq!(replace_super(&other_macro, &target), other_macro);
    let helper = Syntax::Call { func: path(&["super", "helper"]), args: Vec::new() };
    assert_eq!(replace_super(&helper, &target), helper);
}

#[test]
fn a_body_that_calls_super_as_a_function() {
    let item = ItemFn {
        attrs: vec![Attribute::Other(text("#[inline(never)]"))],
        sig: Signature {
            unsafety: true,
            abi: c_abi(),
            ident: text("my_clock"),
            generics: Vec::new(),
            inputs: vec![typed("id", "i32"), typed("res", "*mut u8")],
            variadic: None,
            output: Some(text("i32")),
        },
        stmts: vec![
            Stmt::Source(Syntax::Other(vec![Syntax::Call {
                func: path(&["super", "helper"]),
                args: Vec::new(),
            }])),
            Stmt::Source(Syntax::Other(vec![Syntax::Call {
                func: path(&["super"]),
                args: vec![name("id"), name("res")],
            }])),
        ],
    };
    let args = MockFfiArgs { allow_reentry: false, name: Some(text("clock_gettime")) };
    let output = overlink(args, item).unwrap();
    assert_eq!(
        output.attrs,
        vec![
            Attribute::ExportName(text("clock_gettime")),
            Attribute::Other(text("#[inline(never)]")),
        ]
    );
    assert_eq!(output.sig.ident, "my_clock");
    assert_eq!(output.stmts.len(), 6);
    match &output.stmts[0] {
        Stmt::SuperHandle { symbol, .. } => assert_eq!(symbol, &b"clock_gettime".to_vec()),
        other => panic!("unexpected statement {:?}", other),
    }
    assert_eq!(
        output.stmts[4],
        Stmt::Source(Syntax::Other(vec![Syntax::Call {
            func: path(&["super", "helper"]),
            args: Vec::new(),
        }]))
    );
    assert_eq!(
        output.stmts[5],
        Stmt::Source(Syntax::Other(vec![forwarded_call(vec![name("id"), name("res")])]))
    );
}

#[test]
fn a_body_that_nests_super_in_its_own_arguments() {
    let mut item = clock_gettime();
    item.stmts = vec![
        Stmt::Source(Syntax::Other(vec![super_call(vec![super_call(vec![name("p")])])])),
        Stmt::Source(Syntax::Other(vec![name("r")])),
    ];
    let output = overlink(defaults(), item).unwrap();
    assert_eq!(
        output.stmts[4],
        Stmt::Source(Syntax::Other(vec![forwarded_call(vec![forwarded_call(vec![name("p")])])]))
    );
    assert_eq!(output.stmts[5], Stmt::Source(Syntax::Other(vec![name("r")])));
}

#[test]
fn a_path_is_an_identifier_only_when_it_is_nothing_more() {
    assert!(path(&["super"]).is_ident("super"));
    assert!(!path(&["super"]).is_ident("supe"));
    assert!(!path(&["super", "x"]).is_ident("super"));
    assert!(!path(&[]).is_ident("super"));
    assert!(Path::from_ident("self").is_ident("self"));
    assert_eq!(path(&["a", "b"]).copy(), path(&["a", "b"]));
}

#[test]
fn generated_statements_pass_through_a_second_run() {
    let first = overlink(defaults(), clock_gettime()).unwrap();
    let prelude: Vec<Stmt> = overlink(defaults(), clock_gettime()).unwrap().stmts;
    let second = overlink(MockFfiArgs { allow_reentry: true, name: None }, first).unwrap();
    assert_eq!(second.stmts.len(), 2 + prelude.len());
    assert_eq!(&second.stmts[2..], &prelude[..]);
    assert_eq!(
        second.attrs,
        vec![
            Attribute::ExportName(text("clock_gettime")),
            Attribute::ExportName(text("clock_gettime")),
            Attribute::Other(text("#[inline(never)]")),
        ]
    );
}
