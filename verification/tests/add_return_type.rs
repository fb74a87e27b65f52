use lib::add_return_type::{
    add_return_type, Assist, AssistContext, AssistId, AssistKind, FnAtCursor, FnBody,
    InferredType, TailExpr, TextInsert, TextRange,
};

fn fn_with_tail(ty: InferredType, param_list: TextRange) -> FnAtCursor {
    FnAtCursor {
        has_ret_type: false,
        body: Some(FnBody { tail_expr: Some(TailExpr { ty }), in_module: true }),
        param_list: Some(param_list),
    }
}

fn apply(text: &str, assist: &Assist) -> String {
    let mut result = text.to_string();
    result.insert_str(assist.edit.offset as usize, &assist.edit.text);
    result
}

#[test]
fn it_works() {
    let before = r#"
struct Foo;
fn foo() {
    $0Foo
}
"#;
    let after = r#"
struct Foo;
fn foo() -> Foo {
    Foo
}
"#;
    let text = before.replace("$0", "");
    // The function under the cursor: `fn foo()` with no return type, whose
    // body ends with the expression `Foo`, of type `Foo`.
    let start: usize = text.find("fn foo(").unwrap() + "fn foo".len();
    let param_list = TextRange { start: start as u32, end: (start + "()".len()) as u32 };
    let ctx = AssistContext {
        fn_at_offset: Some(fn_with_tail(InferredType::Source("Foo".to_string()), param_list)),
    };
    let mut acc = Vec::new();
    assert_eq!(add_return_type(&mut acc, &ctx), Some(()));
    assert_eq!(acc.len(), 1);
    assert_eq!(apply(&text, &acc[0]), after);
}

#[test]
fn the_assist_is_a_quick_fix_on_the_parameter_list() {
    let param_list = TextRange { start: 6, end: 8 };
    let ctx = AssistContext {
        fn_at_offset: Some(fn_with_tail(
            InferredType::Source("&'static str".to_string()),
            param_list,
        )),
    };
    let mut acc = Vec::new();
    assert_eq!(add_return_type(&mut acc, &ctx), Some(()));
    let expected = Assist {
        id: AssistId { name: "add_return_type".to_string(), kind: AssistKind::QuickFix },
        label: "Add a return type".to_string(),
        target: param_list,
        edit: TextInsert { offset: 8, text: " -> &'static str".to_string() },
    };
    assert_eq!(acc, vec![expected]);
    let text = "fn foo() {\n    \"Hello, world\"\n}\n";
    assert_eq!(apply(text, &acc[0]), "fn foo() -> &'static str {\n    \"Hello, world\"\n}\n");
}

#[test]
fn earlier_assists_are_kept() {
    let param_list = TextRange { start: 3, end: 5 };
    let ctx = AssistContext {
        fn_at_offset: Some(fn_with_tail(InferredType::Source("u8".to_string()), param_list)),
    };
    let mut acc = Vec::new();
    assert_eq!(add_return_type(&mut acc, &ctx), Some(()));
    assert_eq!(add_return_type(&mut acc, &ctx), Some(()));
    assert_eq!(acc.len(), 2);
    assert_eq!(acc[0], acc[1]);
}

#[test]
fn not_applicable_with_a_return_type() {
    let mut f = fn_with_tail(
        InferredType::Source("Foo".to_string()),
        TextRange { start: 6, end: 8 },
    );
    f.has_ret_type = true;
    let ctx = AssistContext { fn_at_offset: Some(f) };
    let mut acc = Vec::new();
    assert_eq!(add_return_type(&mut acc, &ctx), None);
    assert!(acc.is_empty());
}

#[test]
fn not_applicable_without_a_function() {
    let ctx = AssistContext { fn_at_offset: None };
    let mut acc = Vec::new();
    assert_eq!(add_return_type(&mut acc, &ctx), None);
    assert!(acc.is_empty());
}

#[test]
fn not_applicable_without_a_tail_expression() {
    let ctx = AssistContext {
        fn_at_offset: Some(FnAtCursor {
            has_ret_type: false,
            body: Some(FnBody { tail_expr: None, in_module: true }),
            param_list: Some(TextRange { start: 6, end: 8 }),
        }),
    };
    let mut acc = Vec::new();
    assert_eq!(add_return_type(&mut acc, &ctx), None);
    assert!(acc.is_empty());
}

#[test]
fn not_applicable_without_a_body_or_parameter_list() {
    let no_body = AssistContext {
        fn_at_offset: Some(FnAtCursor {
            has_ret_type: false,
            body: None,
            param_list: Some(TextRange { start: 6, end: 8 }),
        }),
    };
    let mut no_params = fn_with_tail(
        InferredType::Source("Foo".to_string()),
        TextRange { start: 6, end: 8 },
    );
    no_params.param_list = None;
    let no_params = AssistContext { fn_at_offset: Some(no_params) };
    let mut acc = Vec::new();
    assert_eq!(add_return_type(&mut acc, &no_body), None);
    assert_eq!(add_return_type(&mut acc, &no_params), None);
    assert!(acc.is_empty());
}

#[test]
fn not_applicable_when_the_type_is_unknown_or_cannot_be_written() {
    let range = TextRange { start: 6, end: 8 };
    let mut acc = Vec::new();
    for ty in [InferredType::Unknown, InferredType::Undisplayable] {
        let ctx = AssistContext { fn_at_offset: Some(fn_with_tail(ty, range)) };
        assert_eq!(add_return_type(&mut acc, &ctx), None);
    }
    let mut outside = fn_with_tail(InferredType::Source("Foo".to_string()), range);
    outside.body = Some(FnBody {
        tail_expr: Some(TailExpr { ty: InferredType::Source("Foo".to_string()) }),
        in_module: false,
    });
    let ctx = AssistContext { fn_at_offset: Some(outside) };
    assert_eq!(add_return_type(&mut acc, &ctx), None);
    assert!(acc.is_empty());
}
