use instrument_transform::ast::{
    BindingPattern, FunctionDefinition, Parameter, SourceSpan, Stmt,
};
use instrument_transform::transform::transform;

fn at(line: u64, column: u64) -> SourceSpan {
    SourceSpan { line, column }
}

fn named(name: &str, ty: &str, line: u64) -> Parameter {
    Parameter::Typed {
        pattern: BindingPattern::Ident { name: name.to_string() },
        ty: ty.to_string(),
        location: at(line, 4),
    }
}

fn plain_def(name: &str, params: Vec<Parameter>, body: Vec<Stmt>) -> FunctionDefinition {
    FunctionDefinition {
        attrs: Vec::new(),
        vis: String::new(),
        constness: false,
        unsafety: false,
        asyncness: false,
        abi: None,
        generics: String::new(),
        name: name.to_string(),
        params,
        output: String::new(),
        body,
        source_file: "src/lib.rs".to_string(),
    }
}

#[test]
fn scenario_add_is_wrapped_in_a_span() {
    let def = plain_def(
        "add",
        vec![named("a", "T", 1), named("b", "T", 1)],
        vec![Stmt::Opaque { text: "a + b".to_string() }],
    );
    let t = transform(def).unwrap();
    assert_eq!(t.name, "add");
    assert_eq!(t.params, vec![named("a", "T", 1), named("b", "T", 1)]);
    match t.body {
        Stmt::Span { label, template, args, body } => {
            assert_eq!(label, "src/lib.rs#add");
            assert_eq!(template, ", a={:?}, b={:?}");
            assert_eq!(args, vec!["a".to_string(), "b".to_string()]);
            assert_eq!(body, vec![Stmt::Opaque { text: "a + b".to_string() }]);
        }
        other => panic!("expected a span statement, got {:?}", other),
    }
}

#[test]
fn signature_is_preserved() {
    let def = FunctionDefinition {
        attrs: vec!["#[inline]".to_string(), "#[cold]".to_string()],
        vis: "pub".to_string(),
        constness: false,
        unsafety: true,
        asyncness: true,
        abi: Some("C".to_string()),
        generics: "<T: Debug>".to_string(),
        name: "mix".to_string(),
        params: vec![named("x", "T", 3), named("y", "u8", 3)],
        output: "T".to_string(),
        body: vec![Stmt::Opaque { text: "x".to_string() }],
        source_file: "src/mix.rs".to_string(),
    };
    let t = transform(def).unwrap();
    assert_eq!(t.attrs, vec!["#[inline]".to_string(), "#[cold]".to_string()]);
    assert_eq!(t.vis, "pub");
    assert!(!t.constness);
    assert!(t.unsafety);
    assert!(t.asyncness);
    assert_eq!(t.abi, Some("C".to_string()));
    assert_eq!(t.generics, "<T: Debug>");
    assert_eq!(t.name, "mix");
    assert_eq!(t.params, vec![named("x", "T", 3), named("y", "u8", 3)]);
    assert_eq!(t.output, "T");
    assert_eq!(t.source_file, "src/mix.rs");
    assert!(matches!(t.body, Stmt::Span { .. }));
}

#[test]
fn arguments_keep_declaration_order() {
    // The order must hold even when qualifiers and generics are present.
    let mut def = plain_def(
        "mid",
        vec![named("c", "i64", 2), named("a", "i64", 2), named("b", "i64", 2)],
        Vec::new(),
    );
    def.asyncness = true;
    def.generics = "<T>".to_string();
    let t = transform(def).unwrap();
    match t.body {
        Stmt::Span { template, args, .. } => {
            assert_eq!(template, ", c={:?}, a={:?}, b={:?}");
            assert_eq!(args, vec!["c".to_string(), "a".to_string(), "b".to_string()]);
        }
        other => panic!("expected a span statement, got {:?}", other),
    }
}

#[test]
fn label_is_file_hash_name() {
    let mut def = plain_def("run", Vec::new(), Vec::new());
    def.source_file = "examples/demo.rs".to_string();
    let t = transform(def).unwrap();
    match t.body {
        Stmt::Span { label, .. } => assert_eq!(label, "examples/demo.rs#run"),
        other => panic!("expected a span statement, got {:?}", other),
    }
}

#[test]
fn zero_parameters_leave_no_argument_suffix() {
    let def = plain_def("tick", Vec::new(), vec![Stmt::Opaque { text: "()".to_string() }]);
    let t = transform(def).unwrap();
    match t.body {
        Stmt::Span { label, template, args, .. } => {
            assert_eq!(label, "src/lib.rs#tick");
            assert_eq!(template, "");
            assert!(args.is_empty());
        }
        other => panic!("expected a span statement, got {:?}", other),
    }
}

#[test]
fn receiver_is_skipped_but_allowed() {
    let def = plain_def(
        "step",
        vec![Parameter::Receiver { location: at(7, 4) }, named("n", "u32", 7)],
        Vec::new(),
    );
    let t = transform(def).unwrap();
    match t.body {
        Stmt::Span { template, args, .. } => {
            assert_eq!(template, ", n={:?}");
            assert_eq!(args, vec!["n".to_string()]);
        }
        other => panic!("expected a span statement, got {:?}", other),
    }
}

#[test]
fn tuple_pattern_is_rejected_at_its_parameter() {
    let def = plain_def(
        "pair",
        vec![
            named("ok", "i32", 9),
            Parameter::Typed {
                pattern: BindingPattern::Tuple,
                ty: "(i32, i32)".to_string(),
                location: at(9, 14),
            },
        ],
        vec![Stmt::Opaque { text: "ok".to_string() }],
    );
    let e = transform(def).unwrap_err();
    assert_eq!(e.index, 1);
    assert_eq!(e.location, at(9, 14));
    assert_eq!(e.message(), "instrumented functions need to name arguments");
}

#[test]
fn wildcard_pattern_is_rejected() {
    let def = plain_def(
        "drop_it",
        vec![Parameter::Typed {
            pattern: BindingPattern::Wildcard,
            ty: "u8".to_string(),
            location: at(3, 11),
        }],
        Vec::new(),
    );
    let e = transform(def).unwrap_err();
    assert_eq!(e.index, 0);
    assert_eq!(e.location, at(3, 11));
}

#[test]
fn first_offending_parameter_wins() {
    let def = plain_def(
        "both_bad",
        vec![
            Parameter::Typed {
                pattern: BindingPattern::Struct,
                ty: "Point".to_string(),
                location: at(5, 10),
            },
            Parameter::Typed {
                pattern: BindingPattern::Tuple,
                ty: "(u8, u8)".to_string(),
                location: at(5, 30),
            },
        ],
        Vec::new(),
    );
    let e = transform(def).unwrap_err();
    assert_eq!(e.index, 0);
    assert_eq!(e.location, at(5, 10));
}

#[test]
fn functions_are_transformed_independently() {
    let good = plain_def("good", vec![named("v", "bool", 2)], Vec::new());
    let bad = plain_def(
        "bad",
        vec![Parameter::Typed {
            pattern: BindingPattern::Tuple,
            ty: "(i32, i32)".to_string(),
            location: at(8, 8),
        }],
        Vec::new(),
    );
    assert!(transform(good).is_ok());
    let e = transform(bad).unwrap_err();
    assert_eq!(e.index, 0);
}

#[test]
fn reapplying_wraps_a_second_span() {
    let def = plain_def(
        "twice",
        vec![named("k", "usize", 4)],
        vec![Stmt::Opaque { text: "k".to_string() }],
    );
    let first = transform(def).unwrap();
    let again = transform(first.into_definition()).unwrap();
    match again.body {
        Stmt::Span { label, template, body, .. } => {
            assert_eq!(label, "src/lib.rs#twice");
            assert_eq!(template, ", k={:?}");
            assert_eq!(body.len(), 1);
            match &body[0] {
                Stmt::Span { label: inner_label, body: inner_body, .. } => {
                    assert_eq!(inner_label, "src/lib.rs#twice");
                    assert_eq!(
                        inner_body,
                        &vec![Stmt::Opaque { text: "k".to_string() }],
                    );
                }
                other => panic!("expected a nested span statement, got {:?}", other),
            }
        }
        other => panic!("expected a span statement, got {:?}", other),
    }
}
