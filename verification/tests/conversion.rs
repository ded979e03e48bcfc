//! Node-to-model conversion behavior, and the chained diagnostics of
//! conversion failures.

use rua_gen::errors::ConversionError;
use rua_gen::models::{
    RuaArrayLen, RuaEnum, RuaReference, RuaSigFn, RuaStruct, RuaType,
};
use rua_gen::nodes::{
    FieldNode, FieldsNode, FnNode, ItemNode, LenNode, OtherItemKind, ParamNode, PatNode, Span,
    StructNode, TypeNode, VariantNode,
};

fn sp(line: usize) -> Span {
    Span { start_line: line, start_col: 0, end_line: line, end_col: 9 }
}

fn path_ty(name: &str, line: usize) -> TypeNode {
    TypeNode::Path { segments: vec![name.to_string()], span: sp(line) }
}

#[test]
fn primitive_table_resolves_spellings() {
    for (spelling, expected) in [
        ("u8", RuaType::U8),
        ("u16", RuaType::U16),
        ("u32", RuaType::U32),
        ("u64", RuaType::U64),
        ("u128", RuaType::U128),
        ("usize", RuaType::Usize),
        ("i8", RuaType::I8),
        ("i16", RuaType::I16),
        ("i32", RuaType::I32),
        ("i64", RuaType::I64),
        ("i128", RuaType::I128),
        ("isize", RuaType::Isize),
        ("f32", RuaType::F32),
        ("f64", RuaType::F64),
        ("bool", RuaType::Bool),
        ("char", RuaType::Char),
        ("Char", RuaType::Char),
        ("str", RuaType::Str),
        ("String", RuaType::String),
        ("unit", RuaType::Unit),
        ("Unit", RuaType::Unit),
    ] {
        let got = RuaType::try_from_node(&path_ty(spelling, 1)).unwrap();
        assert_eq!(got, expected, "spelling {}", spelling);
    }
}

#[test]
fn unknown_path_becomes_custom() {
    let got = RuaType::try_from_node(&path_ty("MyThing", 1)).unwrap();
    match got {
        RuaType::Custom(n) => assert_eq!(n.get_name(), "MyThing"),
        other => panic!("expected custom type, got {:?}", other),
    }
}

#[test]
fn path_resolution_uses_last_segment() {
    let node = TypeNode::Path {
        segments: vec!["std".to_string(), "string".to_string(), "String".to_string()],
        span: sp(2),
    };
    assert_eq!(RuaType::try_from_node(&node).unwrap(), RuaType::String);
}

#[test]
fn converting_twice_yields_equal_values() {
    let node = TypeNode::Tuple {
        elems: vec![
            path_ty("i32", 1),
            TypeNode::Reference {
                is_mut: false,
                elem: Box::new(path_ty("str", 1)),
                span: sp(1),
            },
            TypeNode::Slice { elem: Box::new(path_ty("u8", 1)), span: sp(1) },
        ],
        span: sp(1),
    };
    let a = RuaType::try_from_node(&node).unwrap();
    let b = RuaType::try_from_node(&node).unwrap();
    assert_eq!(a, b);
}

#[test]
fn unsupported_categories_fail_naming_the_category() {
    let cases: Vec<(TypeNode, &str)> = vec![
        (TypeNode::Group { span: sp(1) }, "unsupported type Group"),
        (TypeNode::ImplTrait { span: sp(1) }, "unsupported type ImplTrait"),
        (
            TypeNode::Infer { span: sp(1) },
            "unsupported type Infer, please specify the type explicitly",
        ),
        (TypeNode::Macro { span: sp(1) }, "unsupported type Macro"),
        (TypeNode::Never { span: sp(1) }, "unsupported type Never"),
        (TypeNode::Paren { span: sp(1) }, "unsupported type Paren"),
        (TypeNode::TraitObject { span: sp(1) }, "unsupported type TraitObject"),
        (
            TypeNode::Verbatim { text: "weird tokens".to_string(), span: sp(1) },
            "unsupported type Verbatim: weird tokens",
        ),
        (TypeNode::Other { span: sp(1) }, "unsupported type"),
    ];
    for (node, expected) in cases {
        let err = RuaType::try_from_node(&node).unwrap_err();
        assert_eq!(err.message().as_deref(), Some(expected));
        assert_eq!(err.source_type().as_deref(), Some("Type"));
        assert_eq!(err.target_type().as_deref(), Some("RuaType"));
    }
}

#[test]
fn array_lengths_convert_or_fail() {
    let ok = RuaArrayLen::try_from_node(&LenNode::IntLit {
        digits: "16".to_string(),
        span: sp(1),
    });
    assert_eq!(ok.unwrap(), RuaArrayLen::Num(16));

    let named = RuaArrayLen::try_from_node(&LenNode::PathRef {
        segments: vec!["LEN".to_string()],
        span: sp(1),
    });
    assert_eq!(named.unwrap(), RuaArrayLen::Const("LEN".to_string()));

    let too_big = RuaArrayLen::try_from_node(&LenNode::IntLit {
        digits: "99999999999999999999999999".to_string(),
        span: sp(1),
    });
    assert_eq!(too_big.unwrap_err().message().as_deref(), Some("failed to parse usize"));

    let two_segments = RuaArrayLen::try_from_node(&LenNode::PathRef {
        segments: vec!["a".to_string(), "b".to_string()],
        span: sp(1),
    });
    assert_eq!(
        two_segments.unwrap_err().message().as_deref(),
        Some("unsupported path segments length")
    );

    let lit = RuaArrayLen::try_from_node(&LenNode::LitOther { span: sp(1) });
    assert_eq!(lit.unwrap_err().message().as_deref(), Some("unsupported literal type"));

    let other = RuaArrayLen::try_from_node(&LenNode::ExprOther { span: sp(1) });
    assert_eq!(other.unwrap_err().message().as_deref(), Some("unsupported expression type"));
}

#[test]
fn array_type_converts_with_length() {
    let node = TypeNode::Array {
        elem: Box::new(path_ty("u8", 1)),
        len: LenNode::IntLit { digits: "4".to_string(), span: sp(1) },
        span: sp(1),
    };
    match RuaType::try_from_node(&node).unwrap() {
        RuaType::Array(a) => {
            assert_eq!(*a.ty, RuaType::U8);
            assert_eq!(a.len, RuaArrayLen::Num(4));
        },
        other => panic!("expected array, got {:?}", other),
    }
}

#[test]
fn pointer_and_reference_keep_flags() {
    let p = TypeNode::Ptr { is_const: true, elem: Box::new(path_ty("u8", 1)), span: sp(1) };
    match RuaType::try_from_node(&p).unwrap() {
        RuaType::Pointer(ptr) => {
            assert!(ptr.is_const);
            assert_eq!(*ptr.ty, RuaType::U8);
        },
        other => panic!("expected pointer, got {:?}", other),
    }
    let r = TypeNode::Reference {
        is_mut: true,
        elem: Box::new(path_ty("bool", 1)),
        span: sp(1),
    };
    match RuaType::try_from_node(&r).unwrap() {
        RuaType::Reference(rf) => {
            assert!(rf.is_mut);
            assert_eq!(*rf.ty, RuaType::Bool);
        },
        other => panic!("expected reference, got {:?}", other),
    }
}

#[test]
fn bare_function_type_converts() {
    let node = TypeNode::BareFn {
        params: vec![path_ty("usize", 1)],
        ret: Some(Box::new(path_ty("bool", 1))),
        span: sp(1),
    };
    match RuaType::try_from_node(&node).unwrap() {
        RuaType::Fn(rua_gen::models::RuaFn::Bare(b)) => {
            assert_eq!(b.params, vec![RuaType::Usize]);
            assert_eq!(*b.ret, RuaType::Bool);
        },
        other => panic!("expected bare fn, got {:?}", other),
    }
    let no_ret = TypeNode::BareFn { params: vec![], ret: None, span: sp(1) };
    match RuaType::try_from_node(&no_ret).unwrap() {
        RuaType::Fn(rua_gen::models::RuaFn::Bare(b)) => {
            assert_eq!(*b.ret, RuaType::Unit);
        },
        other => panic!("expected bare fn, got {:?}", other),
    }
}

fn named_fn_node() -> FnNode {
    FnNode {
        name: "add".to_string(),
        params: vec![
            ParamNode::Typed {
                pat: PatNode::Ident { name: "a".to_string(), span: sp(2) },
                ty: path_ty("i32", 2),
                span: sp(2),
            },
            ParamNode::Typed {
                pat: PatNode::Ident { name: "b".to_string(), span: sp(2) },
                ty: path_ty("i32", 2),
                span: sp(2),
            },
        ],
        ret: Some(path_ty("i32", 2)),
        is_pub: true,
        attrs: vec![],
        span: sp(2),
    }
}

#[test]
fn named_signature_converts_with_named_parameters() {
    let f = RuaSigFn::try_from_node(&named_fn_node()).unwrap();
    assert_eq!(f.name.get_name(), "add");
    assert_eq!(f.params.len(), 2);
    assert_eq!(f.params[0].name.get_name(), "a");
    assert_eq!(*f.params[0].ty, RuaType::I32);
    assert_eq!(f.params[1].name.get_name(), "b");
    assert_eq!(*f.params[1].ty, RuaType::I32);
    assert_eq!(*f.ret, RuaType::I32);
}

#[test]
fn missing_return_type_defaults_to_unit() {
    let f = FnNode {
        name: "log".to_string(),
        params: vec![
            ParamNode::Typed {
                pat: PatNode::Ident { name: "msg".to_string(), span: sp(3) },
                ty: TypeNode::Reference {
                    is_mut: false,
                    elem: Box::new(path_ty("str", 3)),
                    span: sp(3),
                },
                span: sp(3),
            },
        ],
        ret: None,
        is_pub: true,
        attrs: vec![],
        span: sp(3),
    };
    let got = RuaSigFn::try_from_node(&f).unwrap();
    assert_eq!(*got.ret, RuaType::Unit);
    assert_eq!(
        *got.params[0].ty,
        RuaType::Reference(RuaReference { is_mut: false, ty: Box::new(RuaType::Str) })
    );
}

#[test]
fn receiver_parameter_fails_conversion() {
    let f = FnNode {
        name: "method".to_string(),
        params: vec![ParamNode::Receiver { span: sp(4) }],
        ret: None,
        is_pub: true,
        attrs: vec![],
        span: sp(4),
    };
    let err = RuaSigFn::try_from_node(&f).unwrap_err();
    let inner: &ConversionError = err.cause().as_ref().expect("a cause");
    assert_eq!(inner.message().as_deref(), Some("receiver is not supported"));
    assert_eq!(inner.source_type().as_deref(), Some("FnArg"));
}

#[test]
fn struct_shapes_classify() {
    let named = StructNode {
        name: "Point".to_string(),
        fields: FieldsNode::Named {
            fields: vec![
                FieldNode { name: Some("x".to_string()), ty: path_ty("i64", 5), span: sp(5) },
                FieldNode { name: Some("y".to_string()), ty: path_ty("i64", 5), span: sp(5) },
            ],
        },
        is_pub: true,
        attrs: vec![],
        span: sp(5),
    };
    match RuaStruct::try_from_struct_node(&named).unwrap() {
        RuaStruct::Named(s) => {
            assert_eq!(s.name.get_name(), "Point");
            assert_eq!(s.fields.len(), 2);
            assert_eq!(s.fields[0].name.get_name(), "x");
            assert_eq!(*s.fields[0].ty, RuaType::I64);
        },
        other => panic!("expected named struct, got {:?}", other),
    }

    let tuple = StructNode {
        name: "Pair".to_string(),
        fields: FieldsNode::Unnamed {
            fields: vec![
                FieldNode { name: None, ty: path_ty("u8", 6), span: sp(6) },
                FieldNode { name: None, ty: path_ty("u16", 6), span: sp(6) },
            ],
        },
        is_pub: true,
        attrs: vec![],
        span: sp(6),
    };
    match RuaStruct::try_from_struct_node(&tuple).unwrap() {
        RuaStruct::Tuple(s) => {
            assert_eq!(s.name.get_name(), "Pair");
            assert_eq!(s.tys, vec![RuaType::U8, RuaType::U16]);
        },
        other => panic!("expected tuple struct, got {:?}", other),
    }

    let unit = StructNode {
        name: "S".to_string(),
        fields: FieldsNode::Unit,
        is_pub: true,
        attrs: vec![],
        span: sp(7),
    };
    match RuaStruct::try_from_struct_node(&unit).unwrap() {
        RuaStruct::Unit(s) => assert_eq!(s.name.get_name(), "S"),
        other => panic!("expected unit struct, got {:?}", other),
    }
}

#[test]
fn enum_variants_convert_and_unit_enums_are_computed() {
    let e = rua_gen::nodes::EnumNode {
        name: "Mode".to_string(),
        variants: vec![
            VariantNode { name: "On".to_string(), fields: FieldsNode::Unit, span: sp(8) },
            VariantNode { name: "Off".to_string(), fields: FieldsNode::Unit, span: sp(8) },
        ],
        is_pub: true,
        attrs: vec![],
        span: sp(8),
    };
    let got: RuaEnum = RuaEnum::try_from_node(&e).unwrap();
    assert_eq!(got.name.get_name(), "Mode");
    assert_eq!(got.variants.len(), 2);
    assert!(got.is_unit());

    let mixed = rua_gen::nodes::EnumNode {
        name: "Shape".to_string(),
        variants: vec![
            VariantNode { name: "Dot".to_string(), fields: FieldsNode::Unit, span: sp(9) },
            VariantNode {
                name: "Line".to_string(),
                fields: FieldsNode::Unnamed {
                    fields: vec![FieldNode { name: None, ty: path_ty("u32", 9), span: sp(9) }],
                },
                span: sp(9),
            },
        ],
        is_pub: true,
        attrs: vec![],
        span: sp(9),
    };
    let got = RuaEnum::try_from_node(&mixed).unwrap();
    assert!(!got.is_unit());
}

#[test]
fn error_chain_walks_from_struct_to_type() {
    let bad = StructNode {
        name: "Bad".to_string(),
        fields: FieldsNode::Named {
            fields: vec![FieldNode {
                name: Some("x".to_string()),
                ty: TypeNode::Never { span: sp(30) },
                span: sp(20),
            }],
        },
        is_pub: true,
        attrs: vec![],
        span: sp(10),
    };
    let err = RuaStruct::try_from_struct_node(&bad).unwrap_err();
    assert_eq!(err.source_type().as_deref(), Some("ItemStruct"));
    assert_eq!(err.target_type().as_deref(), Some("RuaStruct"));
    assert_eq!(*err.start(), Some((10, 0)));

    let field_err: &ConversionError = err.cause().as_ref().expect("field-level cause");
    assert_eq!(field_err.source_type().as_deref(), Some("Field"));
    assert_eq!(field_err.target_type().as_deref(), Some("RuaVar"));
    assert_eq!(*field_err.start(), Some((20, 0)));

    let mut innermost: &ConversionError = field_err;
    while let Some(next) = innermost.cause().as_ref() {
        innermost = &**next;
    }
    assert_eq!(innermost.source_type().as_deref(), Some("Type"));
    assert_eq!(innermost.target_type().as_deref(), Some("RuaType"));
    assert_eq!(innermost.message().as_deref(), Some("unsupported type Never"));
    assert_eq!(*innermost.start(), Some((30, 0)));
    assert_ne!(*err.start(), *innermost.start());
}

#[test]
fn unnamed_field_in_named_position_fails() {
    let bad = StructNode {
        name: "Bad".to_string(),
        fields: FieldsNode::Named {
            fields: vec![FieldNode { name: None, ty: path_ty("u8", 11), span: sp(11) }],
        },
        is_pub: true,
        attrs: vec![],
        span: sp(11),
    };
    let err = RuaStruct::try_from_struct_node(&bad).unwrap_err();
    let inner: &ConversionError = err.cause().as_ref().expect("a cause");
    assert_eq!(inner.message().as_deref(), Some("field name is required"));
}

#[test]
fn empty_path_type_fails() {
    let node = TypeNode::Path { segments: vec![], span: sp(12) };
    let err = RuaType::try_from_node(&node).unwrap_err();
    let mut innermost: &ConversionError = &err;
    while let Some(next) = innermost.cause().as_ref() {
        innermost = &**next;
    }
    assert_eq!(innermost.message().as_deref(), Some("empty path"));
}

#[test]
fn builder_snapshots_only_set_fields() {
    let e = ConversionError::builder()
        .path("src/a.rs".to_string())
        .start((1, 2))
        .end((3, 4))
        .source_type("Type")
        .target_type("RuaType")
        .message("boom".to_string())
        .build();
    assert_eq!(e.path().as_deref(), Some("src/a.rs"));
    assert_eq!(*e.start(), Some((1, 2)));
    assert_eq!(*e.end(), Some((3, 4)));
    assert_eq!(e.source_type().as_deref(), Some("Type"));
    assert_eq!(e.target_type().as_deref(), Some("RuaType"));
    assert_eq!(e.message().as_deref(), Some("boom"));
    assert!(e.cause().is_none());

    let bare = ConversionError::builder().build();
    assert!(bare.path().is_none());
    assert!(bare.start().is_none());
    assert!(bare.message().is_none());
}

#[test]
fn render_formats_error_and_chain() {
    let e = ConversionError::builder()
        .path("src/a.rs".to_string())
        .start((1, 2))
        .end((3, 4))
        .source_type("Type")
        .target_type("RuaType")
        .message("boom".to_string())
        .build();
    assert_eq!(e.render(), "src/a.rs(from 1:2to 3:4) from Type to RuaType: boom");

    let outer = e.builder_for_next().start((5, 6)).source_type("Outer").build();
    assert_eq!(
        outer.render(),
        "(from 5:6) from Outer\n- Caused by: src/a.rs(from 1:2to 3:4) from Type to RuaType: boom"
    );

    let empty = ConversionError::builder().build();
    assert_eq!(empty.render(), "()");
}

#[test]
fn item_kind_tags_are_reported() {
    let f = named_fn_node();
    assert_eq!(ItemNode::Fn { f }.ty(), "fn");
    assert_eq!(ItemNode::Other { kind: OtherItemKind::ConstItem }.ty(), "const");
    assert_eq!(ItemNode::Other { kind: OtherItemKind::ImplBlock }.ty(), "impl");
    assert_eq!(ItemNode::Other { kind: OtherItemKind::UseItem }.ty(), "use");
    assert_eq!(ItemNode::Other { kind: OtherItemKind::TraitAlias }.ty(), "trait alias");
}
