use lib::adt::{Adt, FieldList, RecordField, Variant};
use lib::ast::{BlockExpr, Expr, FnDef, MatchArm, Pat, Path, RecordExprField};
use lib::gen_trait_fn_body::{
    gen_clone_impl, gen_debug_impl, gen_default_impl, gen_hash_impl, gen_trait_fn_body,
};

// ---------------------------------------------------------------------------
// Building the input and the expected syntax.

fn s(text: &str) -> String {
    text.to_string()
}

fn path(segments: &[&str]) -> Path {
    Path { segments: segments.iter().map(|x| s(x)).collect() }
}

fn name(n: &str) -> Expr {
    Expr::Path(path(&[n]))
}

fn field(receiver: Expr, f: &str) -> Expr {
    Expr::Field { receiver: Box::new(receiver), field: s(f) }
}

fn ref_self_field(f: &str) -> Expr {
    field(Expr::Ref { expr: Box::new(name("self")), exclusive: false }, f)
}

fn call_method(receiver: Expr, method: &str, args: Vec<Expr>) -> Expr {
    Expr::MethodCall { receiver: Box::new(receiver), method: s(method), args }
}

fn clone_of(e: Expr) -> Expr {
    call_method(e, "clone", vec![])
}

fn lit(text: &str) -> Expr {
    Expr::Literal(s(text))
}

fn init(n: &str, expr: Expr) -> RecordExprField {
    RecordExprField { name: s(n), expr }
}

fn body(e: Expr) -> BlockExpr {
    BlockExpr { stmts: vec![], tail_expr: Some(e), indent_level: 1 }
}

fn match_self(arms: Vec<MatchArm>) -> Expr {
    Expr::Match { expr: Box::new(name("self")), arms, indent_level: 1 }
}

fn default_call() -> Expr {
    Expr::Call { callee: Box::new(Expr::Path(path(&["Default", "default"]))), args: vec![] }
}

fn hash_of(e: Expr) -> Expr {
    call_method(e, "hash", vec![name("state")])
}

fn todo_fn() -> FnDef {
    FnDef {
        body: Some(BlockExpr {
            stmts: vec![],
            tail_expr: Some(Expr::MacroCall { macro_path: Box::new(name("todo")), args: vec![] }),
            indent_level: 0,
        }),
    }
}

fn generated(b: BlockExpr) -> FnDef {
    FnDef { body: Some(b) }
}

fn named(fields: &[&str]) -> FieldList {
    FieldList::Record(fields.iter().map(|f| RecordField { name: Some(s(f)) }).collect())
}

fn record_struct() -> Adt {
    Adt::Struct { name: Some(s("Foo")), field_list: Some(named(&["bin", "bar"])) }
}

fn tuple_struct() -> Adt {
    Adt::Struct { name: Some(s("Foo")), field_list: Some(FieldList::Tuple(2)) }
}

fn unit_struct() -> Adt {
    Adt::Struct { name: Some(s("Foo")), field_list: None }
}

/// `enum Foo { Bar, Baz(String, usize), Qux { bin: usize } }`
fn an_enum() -> Adt {
    Adt::Enum {
        name: Some(s("Foo")),
        variant_list: Some(vec![
            Variant { name: Some(s("Bar")), field_list: None },
            Variant { name: Some(s("Baz")), field_list: Some(FieldList::Tuple(2)) },
            Variant { name: Some(s("Qux")), field_list: Some(named(&["bin"])) },
        ]),
    }
}

fn a_union() -> Adt {
    Adt::Union { name: Some(s("Foo")) }
}

/// A struct whose second field was written without a name.
fn unnamed_field_struct() -> Adt {
    Adt::Struct {
        name: Some(s("Foo")),
        field_list: Some(FieldList::Record(vec![
            RecordField { name: Some(s("bin")) },
            RecordField { name: None },
        ])),
    }
}

type Gen = fn(&Adt, &mut FnDef) -> Option<()>;

fn run(gen: Gen, adt: &Adt) -> (Option<()>, FnDef) {
    let mut func = todo_fn();
    let res = gen(adt, &mut func);
    (res, func)
}

fn assert_not_generated(gen: Gen, adt: &Adt) {
    let (res, func) = run(gen, adt);
    assert_eq!(res, None);
    assert_eq!(func, todo_fn());
}

// ---------------------------------------------------------------------------
// Clone.

#[test]
fn clone_record_struct() {
    let expected = Expr::Record {
        path: path(&["Self"]),
        fields: vec![
            init("bin", clone_of(field(name("self"), "bin"))),
            init("bar", clone_of(field(name("self"), "bar"))),
        ],
    };
    assert_eq!(run(gen_clone_impl, &record_struct()), (Some(()), generated(body(expected))));
}

#[test]
fn clone_tuple_struct() {
    let expected = Expr::Call {
        callee: Box::new(name("Self")),
        args: vec![clone_of(field(name("self"), "0")), clone_of(field(name("self"), "1"))],
    };
    assert_eq!(run(gen_clone_impl, &tuple_struct()), (Some(()), generated(body(expected))));
}

#[test]
fn clone_unit_struct() {
    let expected = Expr::Record { path: path(&["Self"]), fields: vec![] };
    assert_eq!(run(gen_clone_impl, &unit_struct()), (Some(()), generated(body(expected))));
}

#[test]
fn clone_enum() {
    let bar = MatchArm {
        pat: Pat::Path(path(&["Self", "Bar"])),
        expr: Expr::Path(path(&["Self", "Bar"])),
    };
    let baz = MatchArm {
        pat: Pat::TupleStruct {
            path: path(&["Self", "Baz"]),
            pats: vec![Pat::Ident { name: s("arg0") }, Pat::Ident { name: s("arg1") }],
        },
        expr: Expr::Call {
            callee: Box::new(Expr::Path(path(&["Self", "Baz"]))),
            args: vec![clone_of(name("arg0")), clone_of(name("arg1"))],
        },
    };
    let qux = MatchArm {
        pat: Pat::Record {
            path: path(&["Self", "Qux"]),
            pats: vec![Pat::Ident { name: s("bin") }],
        },
        expr: Expr::Record {
            path: path(&["Self", "Qux"]),
            fields: vec![init("bin", clone_of(name("bin")))],
        },
    };
    let expected = match_self(vec![bar, baz, qux]);
    assert_eq!(run(gen_clone_impl, &an_enum()), (Some(()), generated(body(expected))));
}

#[test]
fn clone_empty_enum() {
    let adt = Adt::Enum { name: Some(s("Never")), variant_list: Some(vec![]) };
    assert_eq!(run(gen_clone_impl, &adt), (Some(()), generated(body(match_self(vec![])))));
}

#[test]
fn clone_not_generated() {
    assert_not_generated(gen_clone_impl, &a_union());
    assert_not_generated(gen_clone_impl, &unnamed_field_struct());
    assert_not_generated(gen_clone_impl, &Adt::Enum { name: Some(s("Foo")), variant_list: None });
    let unnamed_variant = Adt::Enum {
        name: Some(s("Foo")),
        variant_list: Some(vec![Variant { name: None, field_list: None }]),
    };
    assert_not_generated(gen_clone_impl, &unnamed_variant);
    let unnamed_variant_field = Adt::Enum {
        name: Some(s("Foo")),
        variant_list: Some(vec![Variant {
            name: Some(s("Bar")),
            field_list: Some(FieldList::Record(vec![RecordField { name: None }])),
        }]),
    };
    assert_not_generated(gen_clone_impl, &unnamed_variant_field);
}

#[test]
fn no_body_to_replace() {
    let mut func = FnDef { body: None };
    assert_eq!(gen_clone_impl(&record_struct(), &mut func), None);
    assert_eq!(gen_hash_impl(&an_enum(), &mut func), None);
    assert_eq!(func, FnDef { body: None });
}

// ---------------------------------------------------------------------------
// Debug.

#[test]
fn debug_record_struct() {
    let start = call_method(name("f"), "debug_struct", vec![lit("\"Foo\"")]);
    let bin = call_method(start, "field", vec![lit("\"bin\""), ref_self_field("bin")]);
    let bar = call_method(bin, "field", vec![lit("\"bar\""), ref_self_field("bar")]);
    let expected = call_method(bar, "finish", vec![]);
    assert_eq!(run(gen_debug_impl, &record_struct()), (Some(()), generated(body(expected))));
}

#[test]
fn debug_tuple_struct() {
    let start = call_method(name("f"), "debug_tuple", vec![lit("\"Foo\"")]);
    let first = call_method(start, "field", vec![ref_self_field("0")]);
    let second = call_method(first, "field", vec![ref_self_field("1")]);
    let expected = call_method(second, "finish", vec![]);
    assert_eq!(run(gen_debug_impl, &tuple_struct()), (Some(()), generated(body(expected))));
}

#[test]
fn debug_unit_struct() {
    let start = call_method(name("f"), "debug_struct", vec![lit("\"Foo\"")]);
    let expected = call_method(start, "finish", vec![]);
    assert_eq!(run(gen_debug_impl, &unit_struct()), (Some(()), generated(body(expected))));
}

#[test]
fn debug_enum() {
    let arm = |v: &str| MatchArm {
        pat: Pat::Path(path(&["Self", v])),
        expr: Expr::MacroCall {
            macro_path: Box::new(name("write")),
            args: vec![name("f"), lit(&format!("\"{}\"", v))],
        },
    };
    let expected = match_self(vec![arm("Bar"), arm("Baz"), arm("Qux")]);
    assert_eq!(run(gen_debug_impl, &an_enum()), (Some(()), generated(body(expected))));
}

#[test]
fn debug_not_generated() {
    assert_not_generated(gen_debug_impl, &a_union());
    assert_not_generated(gen_debug_impl, &unnamed_field_struct());
    assert_not_generated(gen_debug_impl, &Adt::Struct { name: None, field_list: None });
    assert_not_generated(gen_debug_impl, &Adt::Enum { name: Some(s("Foo")), variant_list: None });
}

// ---------------------------------------------------------------------------
// Default.

#[test]
fn default_record_struct() {
    let expected = Expr::Record {
        path: path(&["Self"]),
        fields: vec![init("bin", default_call()), init("bar", default_call())],
    };
    assert_eq!(run(gen_default_impl, &record_struct()), (Some(()), generated(body(expected))));
}

#[test]
fn default_tuple_struct() {
    let expected = Expr::Call {
        callee: Box::new(name("Self")),
        args: vec![default_call(), default_call()],
    };
    assert_eq!(run(gen_default_impl, &tuple_struct()), (Some(()), generated(body(expected))));
}

#[test]
fn default_unit_struct() {
    let expected = Expr::Record { path: path(&["Self"]), fields: vec![] };
    assert_eq!(run(gen_default_impl, &unit_struct()), (Some(()), generated(body(expected))));
}

#[test]
fn default_not_generated() {
    assert_not_generated(gen_default_impl, &a_union());
    assert_not_generated(gen_default_impl, &an_enum());
    assert_not_generated(gen_default_impl, &unnamed_field_struct());
}

// ---------------------------------------------------------------------------
// Hash.

fn stmts_body(stmts: Vec<Expr>) -> BlockExpr {
    BlockExpr { stmts, tail_expr: None, indent_level: 1 }
}

#[test]
fn hash_enum() {
    let discriminant = Expr::Call {
        callee: Box::new(Expr::Path(path(&["core", "mem", "discriminant"]))),
        args: vec![name("self")],
    };
    let expected = stmts_body(vec![hash_of(discriminant)]);
    assert_eq!(run(gen_hash_impl, &an_enum()), (Some(()), generated(expected)));
    // The variants play no part.
    let other = Adt::Enum { name: Some(s("Other")), variant_list: None };
    assert_eq!(run(gen_hash_impl, &other), run(gen_hash_impl, &an_enum()));
}

#[test]
fn hash_record_struct() {
    let expected = stmts_body(vec![
        hash_of(field(name("self"), "bin")),
        hash_of(field(name("self"), "bar")),
    ]);
    assert_eq!(run(gen_hash_impl, &record_struct()), (Some(()), generated(expected)));
}

#[test]
fn hash_tuple_struct() {
    let expected = stmts_body(vec![
        hash_of(field(name("self"), "0")),
        hash_of(field(name("self"), "1")),
    ]);
    assert_eq!(run(gen_hash_impl, &tuple_struct()), (Some(()), generated(expected)));
}

#[test]
fn hash_not_generated() {
    assert_not_generated(gen_hash_impl, &a_union());
    assert_not_generated(gen_hash_impl, &unit_struct());
    assert_not_generated(gen_hash_impl, &unnamed_field_struct());
}

// ---------------------------------------------------------------------------
// Dispatch on the trait.

fn dispatch(trait_path: &[&str], adt: &Adt) -> (Option<()>, FnDef) {
    let mut func = todo_fn();
    let res = gen_trait_fn_body(&mut func, &path(trait_path), adt);
    (res, func)
}

#[test]
fn dispatch_on_the_last_segment() {
    assert_eq!(dispatch(&["Clone"], &record_struct()), run(gen_clone_impl, &record_struct()));
    assert_eq!(
        dispatch(&["std", "fmt", "Debug"], &record_struct()),
        run(gen_debug_impl, &record_struct()),
    );
    assert_eq!(dispatch(&["Default"], &tuple_struct()), run(gen_default_impl, &tuple_struct()));
    assert_eq!(dispatch(&["core", "hash", "Hash"], &an_enum()), run(gen_hash_impl, &an_enum()));
    assert_eq!(dispatch(&["Clone"], &record_struct()).0, Some(()));
}

#[test]
fn dispatch_other_traits() {
    for t in [&["PartialEq"][..], &["Clone", "Other"][..], &[][..], &["clone"][..]] {
        assert_eq!(dispatch(t, &record_struct()), (None, todo_fn()));
    }
    assert_eq!(dispatch(&["Clone"], &a_union()), (None, todo_fn()));
}
