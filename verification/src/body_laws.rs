//! What the generated bodies are, stated field by field and variant by
//! variant in plain syntax: for every type, how many initializers,
//! arguments, statements, arms and `.field(..)` calls a body has, and what
//! each of them is about.

use vstd::prelude::*;
use crate::adt::{SpecAdt, SpecFieldList, SpecVariant};
use crate::ast::{SpecBlockExpr, SpecExpr, SpecMatchArm, SpecPat, SpecRecordExprField};
use crate::gen_trait_fn_body::{
    clone_body, debug_body, debug_record_chain, debug_tuple_chain, default_body, hash_body,
    trait_fn_body,
};
use crate::numeral::decimal;

verus! {

/// `x.method()` with no arguments, or with the given ones.
pub open spec fn is_call_of(e: SpecExpr, receiver: SpecExpr, method: Seq<char>, args: Seq<SpecExpr>) -> bool {
    e == SpecExpr::MethodCall { receiver: Box::new(receiver), method, args }
}

/// The expression `name` (a path of one segment).
pub open spec fn var(name: Seq<char>) -> SpecExpr {
    SpecExpr::Path(seq![name])
}

/// The expression `self.name`.
pub open spec fn of_self(name: Seq<char>) -> SpecExpr {
    SpecExpr::Field { receiver: Box::new(SpecExpr::Path(seq!["self"@])), field: name }
}

/// Every record field is named.
pub open spec fn named(fs: Seq<Option<Seq<char>>>) -> bool {
    forall|j: int| 0 <= j < fs.len() ==> (#[trigger] fs[j]) is Some
}

/// The arm `arm` clones the variant `v` of the enum: it binds every field of
/// the variant and rebuilds the same variant from the clone of each field's
/// own binding, field for field.
pub open spec fn arm_clones_variant(v: SpecVariant, arm: SpecMatchArm) -> bool {
    let path = seq!["Self"@, v.name.unwrap()];
    match v.field_list {
        Some(SpecFieldList::Record(fs)) => {
            &&& arm.pat matches SpecPat::Record { path: p, pats } && p == path && pats.len()
                == fs.len() && forall|j: int|
                0 <= j < fs.len() ==> #[trigger] pats[j] == SpecPat::Ident { name: fs[j].unwrap() }
            &&& arm.expr matches SpecExpr::Record { path: p, fields } && p == path
                && fields.len() == fs.len() && forall|j: int|
                0 <= j < fs.len() ==> {
                    &&& (#[trigger] fields[j]).name == fs[j].unwrap()
                    &&& is_call_of(fields[j].expr, var(fs[j].unwrap()), "clone"@, Seq::empty())
                }
        },
        Some(SpecFieldList::Tuple(n)) => {
            &&& arm.pat matches SpecPat::TupleStruct { path: p, pats } && p == path && pats.len()
                == n && forall|j: int|
                0 <= j < n ==> #[trigger] pats[j] == SpecPat::Ident {
                    name: "arg"@ + decimal(j as nat),
                }
            &&& arm.expr matches SpecExpr::Call { callee, args } && *callee == SpecExpr::Path(path)
                && args.len() == n && forall|j: int|
                0 <= j < n ==> is_call_of(
                    #[trigger] args[j],
                    var("arg"@ + decimal(j as nat)),
                    "clone"@,
                    Seq::empty(),
                )
        },
        None => arm.pat == SpecPat::Path(path) && arm.expr == SpecExpr::Path(path),
    }
}

/// `Clone` of an enum is generated exactly when the variants and their
/// record fields are all named; it then matches on `self` with one arm per
/// variant, in order, and the `i`-th arm clones the `i`-th variant.
pub proof fn law_clone_enum(adt: SpecAdt)
    requires
        adt matches SpecAdt::Enum { variant_list: Some(_), .. },
    ensures
        ({
            let vs = adt->variant_list.unwrap();
            let all_named = forall|i: int|
                0 <= i < vs.len() ==> (#[trigger] vs[i]).name is Some && (vs[i].field_list matches Some(
                    SpecFieldList::Record(fs),
                ) ==> named(fs));
            &&& clone_body(adt) is Some <==> all_named
            &&& all_named ==> {
                let b = clone_body(adt).unwrap();
                &&& b.stmts.len() == 0
                &&& b.indent_level == 1
                &&& b.tail_expr matches Some(SpecExpr::Match { expr, arms, indent_level })
                &&& indent_level == 1
                &&& *expr == SpecExpr::Path(seq!["self"@])
                &&& arms.len() == vs.len()
                &&& forall|i: int| 0 <= i < vs.len() ==> arm_clones_variant(vs[i], #[trigger] arms[i])
            }
        }),
{
    let vs = adt->variant_list.unwrap();
    let all_named = forall|i: int|
        0 <= i < vs.len() ==> (#[trigger] vs[i]).name is Some && (vs[i].field_list matches Some(
            SpecFieldList::Record(fs),
        ) ==> named(fs));
    if clone_body(adt) is Some {
        assert forall|i: int| 0 <= i < vs.len() implies (#[trigger] vs[i]).name is Some
            && (vs[i].field_list matches Some(SpecFieldList::Record(fs)) ==> named(fs)) by {
            assert(crate::gen_trait_fn_body::variant_fully_named(vs[i]));
        }
    }
    if all_named {
        assert forall|i: int| 0 <= i < vs.len() implies crate::gen_trait_fn_body::variant_fully_named(
            #[trigger] vs[i],
        ) by {
            assert(vs[i].name is Some);
        }
        let b = clone_body(adt).unwrap();
        let arms = crate::gen_trait_fn_body::clone_arms(vs);
        assert forall|i: int| 0 <= i < vs.len() implies arm_clones_variant(vs[i], #[trigger] arms[i]) by {
            let v = vs[i];
            match v.field_list {
                Some(SpecFieldList::Record(fs)) => {},
                Some(SpecFieldList::Tuple(n)) => {},
                None => {},
            }
        }
    }
}

/// `Clone` of a struct: `Self { f: self.f.clone(), .. }` with one initializer
/// per field in order, each cloning that same field; `Self(self.0.clone(), ..)`
/// with one argument per tuple field; `Self { }` for a unit struct. It is
/// generated exactly when every record field is named.
pub proof fn law_clone_struct(adt: SpecAdt)
    requires
        adt is Struct,
    ensures
        match adt->Struct_field_list {
            Some(SpecFieldList::Record(fs)) => {
                &&& clone_body(adt) is Some <==> named(fs)
                &&& named(fs) ==> {
                    let b = clone_body(adt).unwrap();
                    &&& b.stmts.len() == 0
                    &&& b.indent_level == 1
                    &&& b.tail_expr matches Some(SpecExpr::Record { path, fields })
                    &&& path == seq!["Self"@]
                    &&& fields.len() == fs.len()
                    &&& forall|i: int|
                        0 <= i < fs.len() ==> {
                            &&& (#[trigger] fields[i]).name == fs[i].unwrap()
                            &&& is_call_of(fields[i].expr, of_self(fs[i].unwrap()), "clone"@, Seq::empty())
                        }
                }
            },
            Some(SpecFieldList::Tuple(n)) => {
                let b = clone_body(adt).unwrap();
                &&& clone_body(adt) is Some
                &&& b.stmts.len() == 0
                &&& b.indent_level == 1
                &&& b.tail_expr matches Some(SpecExpr::Call { callee, args })
                &&& *callee == SpecExpr::Path(seq!["Self"@])
                &&& args.len() == n
                &&& forall|i: int|
                    0 <= i < n ==> is_call_of(
                        #[trigger] args[i],
                        of_self(decimal(i as nat)),
                        "clone"@,
                        Seq::empty(),
                    )
            },
            None => clone_body(adt) == Some(
                SpecBlockExpr {
                    stmts: Seq::empty(),
                    tail_expr: Some(SpecExpr::Record { path: seq!["Self"@], fields: Seq::empty() }),
                    indent_level: 1,
                },
            ),
        },
{
}

/// The expression reached from `e` by following the receivers of `d`
/// method calls.
pub open spec fn receiver_after(e: SpecExpr, d: nat) -> SpecExpr
    decreases d,
{
    if d == 0 {
        e
    } else {
        match e {
            SpecExpr::MethodCall { receiver, .. } => receiver_after(*receiver, (d - 1) as nat),
            _ => e,
        }
    }
}

/// `e` is a call `.field(args)` on some receiver.
pub open spec fn is_field_call(e: SpecExpr, args: Seq<SpecExpr>) -> bool {
    e matches SpecExpr::MethodCall { method, args: a, .. } && method == "field"@ && a == args
}

/// `"text"`, a string literal.
pub open spec fn str_lit(text: Seq<char>) -> SpecExpr {
    SpecExpr::Literal("\""@ + text + "\""@)
}

/// `&self.name`.
pub open spec fn of_ref_self(name: Seq<char>) -> SpecExpr {
    SpecExpr::Field {
        receiver: Box::new(SpecExpr::Ref { expr: Box::new(SpecExpr::Path(seq!["self"@])), exclusive: false }),
        field: name,
    }
}

proof fn lemma_receiver_after_record_chain(base: SpecExpr, fs: Seq<Option<Seq<char>>>, d: nat)
    requires
        d <= fs.len(),
    ensures
        receiver_after(debug_record_chain(base, fs), d) == debug_record_chain(
            base,
            fs.take(fs.len() - d),
        ),
    decreases d,
{
    if d == 0 {
        assert(fs.take(fs.len() as int) =~= fs);
    } else {
        lemma_receiver_after_record_chain(base, fs.drop_last(), (d - 1) as nat);
        assert(fs.drop_last().take(fs.drop_last().len() - (d - 1)) =~= fs.take(fs.len() - d));
    }
}

proof fn lemma_receiver_after_tuple_chain(base: SpecExpr, n: nat, d: nat)
    requires
        d <= n,
    ensures
        receiver_after(debug_tuple_chain(base, n), d) == debug_tuple_chain(base, (n - d) as nat),
    decreases d,
{
    if d > 0 {
        lemma_receiver_after_tuple_chain(base, (n - 1) as nat, (d - 1) as nat);
    }
}

/// `Debug` of a struct named `Name` is generated exactly when every record
/// field is named. It is `f.debug_struct("Name")` (or `f.debug_tuple("Name")`
/// for a tuple struct), followed by exactly one `.field(..)` call per field,
/// in order: `.field("f", &self.f)` for the `i`-th record field `f`,
/// `.field(&self.i)` for the `i`-th tuple field, then `.finish()`.
pub proof fn law_debug_struct(adt: SpecAdt)
    requires
        adt matches SpecAdt::Struct { name: Some(_), .. },
    ensures
        ({
            let name = adt->Struct_name.unwrap();
            let head = |builder: Seq<char>|
                SpecExpr::MethodCall {
                    receiver: Box::new(SpecExpr::Path(seq!["f"@])),
                    method: builder,
                    args: seq![str_lit(name)],
                };
            match adt->Struct_field_list {
                Some(SpecFieldList::Record(fs)) => {
                    &&& debug_body(adt) is Some <==> named(fs)
                    &&& named(fs) ==> {
                        let b = debug_body(adt).unwrap();
                        &&& b.stmts.len() == 0
                        &&& b.indent_level == 1
                        &&& b.tail_expr matches Some(SpecExpr::MethodCall { receiver, method, args })
                        &&& method == "finish"@
                        &&& args.len() == 0
                        &&& receiver_after(*receiver, fs.len()) == head("debug_struct"@)
                        &&& forall|i: int|
                            0 <= i < fs.len() ==> is_field_call(
                                #[trigger] receiver_after(*receiver, (fs.len() - 1 - i) as nat),
                                seq![str_lit(fs[i].unwrap()), of_ref_self(fs[i].unwrap())],
                            )
                    }
                },
                Some(SpecFieldList::Tuple(n)) => {
                    let b = debug_body(adt).unwrap();
                    &&& debug_body(adt) is Some
                    &&& b.stmts.len() == 0
                    &&& b.indent_level == 1
                    &&& b.tail_expr matches Some(SpecExpr::MethodCall { receiver, method, args })
                    &&& method == "finish"@
                    &&& args.len() == 0
                    &&& receiver_after(*receiver, n) == head("debug_tuple"@)
                    &&& forall|i: int|
                        0 <= i < n ==> is_field_call(
                            #[trigger] receiver_after(*receiver, (n - 1 - i) as nat),
                            seq![of_ref_self(decimal(i as nat))],
                        )
                },
                None => debug_body(adt) == Some(
                    SpecBlockExpr {
                        stmts: Seq::empty(),
                        tail_expr: Some(
                            SpecExpr::MethodCall {
                                receiver: Box::new(head("debug_struct"@)),
                                method: "finish"@,
                                args: Seq::empty(),
                            },
                        ),
                        indent_level: 1,
                    },
                ),
            }
        }),
{
    let name = adt->Struct_name.unwrap();
    let title = seq![SpecExpr::Literal(crate::gen_trait_fn_body::quoted(name))];
    match adt->Struct_field_list {
        Some(SpecFieldList::Record(fs)) => {
            if named(fs) {
                let base = crate::gen_trait_fn_body::method_call(
                    crate::gen_trait_fn_body::name_expr("f"@),
                    "debug_struct"@,
                    title,
                );
                let chain = debug_record_chain(base, fs);
                lemma_receiver_after_record_chain(base, fs, fs.len());
                assert(fs.take(0) =~= Seq::<Option<Seq<char>>>::empty());
                assert forall|i: int| 0 <= i < fs.len() implies is_field_call(
                    #[trigger] receiver_after(chain, (fs.len() - 1 - i) as nat),
                    seq![str_lit(fs[i].unwrap()), of_ref_self(fs[i].unwrap())],
                ) by {
                    lemma_receiver_after_record_chain(base, fs, (fs.len() - 1 - i) as nat);
                    assert(fs.take(i + 1).last() == fs[i]);
                }
            }
        },
        Some(SpecFieldList::Tuple(n)) => {
            let base = crate::gen_trait_fn_body::method_call(
                crate::gen_trait_fn_body::name_expr("f"@),
                "debug_tuple"@,
                title,
            );
            let chain = debug_tuple_chain(base, n);
            lemma_receiver_after_tuple_chain(base, n, n);
            assert forall|i: int| 0 <= i < n implies is_field_call(
                #[trigger] receiver_after(chain, (n - 1 - i) as nat),
                seq![of_ref_self(decimal(i as nat))],
            ) by {
                lemma_receiver_after_tuple_chain(base, n, (n - 1 - i) as nat);
            }
        },
        None => {},
    }
}

/// `Debug` of an enum is generated exactly when it and its variants are
/// named; it matches on `self` with one arm per variant, in order, the
/// `i`-th being `Self::V => write!(f, "V")` for the `i`-th variant `V`.
pub proof fn law_debug_enum(adt: SpecAdt)
    requires
        adt matches SpecAdt::Enum { variant_list: Some(_), .. },
    ensures
        ({
            let vs = adt->variant_list.unwrap();
            let all_named = adt.name() is Some && forall|i: int|
                0 <= i < vs.len() ==> (#[trigger] vs[i]).name is Some;
            &&& debug_body(adt) is Some <==> all_named
            &&& all_named ==> {
                let b = debug_body(adt).unwrap();
                &&& b.stmts.len() == 0
                &&& b.indent_level == 1
                &&& b.tail_expr matches Some(SpecExpr::Match { expr, arms, indent_level })
                &&& indent_level == 1
                &&& *expr == SpecExpr::Path(seq!["self"@])
                &&& arms.len() == vs.len()
                &&& forall|i: int|
                    0 <= i < vs.len() ==> #[trigger] arms[i] == SpecMatchArm {
                        pat: SpecPat::Path(seq!["Self"@, vs[i].name.unwrap()]),
                        expr: SpecExpr::MacroCall {
                            macro_path: Box::new(SpecExpr::Path(seq!["write"@])),
                            args: seq![SpecExpr::Path(seq!["f"@]), str_lit(vs[i].name.unwrap())],
                        },
                    }
            }
        }),
{
}

/// `Default::default()`.
pub open spec fn default_value() -> SpecExpr {
    SpecExpr::Call {
        callee: Box::new(SpecExpr::Path(seq!["Default"@, "default"@])),
        args: Seq::empty(),
    }
}

/// `Default` is generated for structs only, and for a struct exactly when
/// every record field is named: `Self { f: Default::default(), .. }` with one
/// initializer per field in order, `Self(Default::default(), ..)` with one
/// argument per tuple field, or `Self { }`.
pub proof fn law_default(adt: SpecAdt)
    ensures
        match adt {
            SpecAdt::Struct { field_list: Some(SpecFieldList::Record(fs)), .. } => {
                &&& default_body(adt) is Some <==> named(fs)
                &&& named(fs) ==> {
                    let b = default_body(adt).unwrap();
                    &&& b.stmts.len() == 0
                    &&& b.indent_level == 1
                    &&& b.tail_expr matches Some(SpecExpr::Record { path, fields })
                    &&& path == seq!["Self"@]
                    &&& fields.len() == fs.len()
                    &&& forall|i: int|
                        0 <= i < fs.len() ==> #[trigger] fields[i] == SpecRecordExprField {
                            name: fs[i].unwrap(),
                            expr: default_value(),
                        }
                }
            },
            SpecAdt::Struct { field_list: Some(SpecFieldList::Tuple(n)), .. } => {
                let b = default_body(adt).unwrap();
                &&& default_body(adt) is Some
                &&& b.stmts.len() == 0
                &&& b.indent_level == 1
                &&& b.tail_expr matches Some(SpecExpr::Call { callee, args })
                &&& *callee == SpecExpr::Path(seq!["Self"@])
                &&& args.len() == n
                &&& forall|i: int| 0 <= i < n ==> #[trigger] args[i] == default_value()
            },
            SpecAdt::Struct { field_list: None, .. } => default_body(adt) == Some(
                SpecBlockExpr {
                    stmts: Seq::empty(),
                    tail_expr: Some(SpecExpr::Record { path: seq!["Self"@], fields: Seq::empty() }),
                    indent_level: 1,
                },
            ),
            _ => default_body(adt) is None,
        },
{
}

/// `e` is the statement `target.hash(state);`.
pub open spec fn hashes(e: SpecExpr, target: SpecExpr) -> bool {
    is_call_of(e, target, "hash"@, seq![SpecExpr::Path(seq!["state"@])])
}

/// `Hash` hashes exactly the fields, one statement per field in order, each
/// `self.f.hash(state);` for the `i`-th record field `f` or
/// `self.i.hash(state);` for the `i`-th tuple field; an enum hashes
/// `core::mem::discriminant(self)` only; nothing is generated for a unit
/// struct, a union, or a struct with an unnamed field. The body has no tail.
pub proof fn law_hash(adt: SpecAdt)
    ensures
        match adt {
            SpecAdt::Struct { field_list: Some(SpecFieldList::Record(fs)), .. } => {
                &&& hash_body(adt) is Some <==> named(fs)
                &&& named(fs) ==> {
                    let b = hash_body(adt).unwrap();
                    &&& b.tail_expr is None
                &&& b.indent_level == 1
                    &&& b.stmts.len() == fs.len()
                    &&& forall|i: int|
                        0 <= i < fs.len() ==> hashes(#[trigger] b.stmts[i], of_self(fs[i].unwrap()))
                }
            },
            SpecAdt::Struct { field_list: Some(SpecFieldList::Tuple(n)), .. } => {
                let b = hash_body(adt).unwrap();
                &&& hash_body(adt) is Some
                &&& b.tail_expr is None
                &&& b.indent_level == 1
                &&& b.stmts.len() == n
                &&& forall|i: int|
                    0 <= i < n ==> hashes(#[trigger] b.stmts[i], of_self(decimal(i as nat)))
            },
            SpecAdt::Enum { .. } => {
                let b = hash_body(adt).unwrap();
                &&& hash_body(adt) is Some
                &&& b.tail_expr is None
                &&& b.indent_level == 1
                &&& b.stmts.len() == 1
                &&& hashes(
                    b.stmts[0],
                    SpecExpr::Call {
                        callee: Box::new(SpecExpr::Path(seq!["core"@, "mem"@, "discriminant"@])),
                        args: seq![SpecExpr::Path(seq!["self"@])],
                    },
                )
            },
            _ => hash_body(adt) is None,
        },
{
}

/// The body generated for the traits `Clone`, `Debug`, `Default` and `Hash`
/// is the one of that trait, whatever the other traits give.
pub proof fn law_trait_dispatch(adt: SpecAdt)
    ensures
        trait_fn_body(Some("Clone"@), adt) == clone_body(adt),
        trait_fn_body(Some("Debug"@), adt) == debug_body(adt),
        trait_fn_body(Some("Default"@), adt) == default_body(adt),
        trait_fn_body(Some("Hash"@), adt) == hash_body(adt),
        trait_fn_body(None, adt) is None,
{
    reveal_strlit("Clone");
    reveal_strlit("Debug");
    reveal_strlit("Default");
    reveal_strlit("Hash");
    assert("Debug"@ != "Clone"@) by {
        assert("Debug"@[0] != "Clone"@[0]);
    }
    assert("Default"@ != "Clone"@) by {
        assert("Default"@[0] != "Clone"@[0]);
    }
    assert("Default"@ != "Debug"@) by {
        assert("Default"@.len() != "Debug"@.len());
    }
    assert("Hash"@ != "Clone"@) by {
        assert("Hash"@[0] != "Clone"@[0]);
    }
    assert("Hash"@ != "Debug"@) by {
        assert("Hash"@[0] != "Debug"@[0]);
    }
    assert("Hash"@ != "Default"@) by {
        assert("Hash"@[0] != "Default"@[0]);
    }
}

/// The trait is named by the last segment of its path (`Clone` in
/// `std::clone::Clone`); an empty path names none.
pub proof fn law_trait_name_is_last_segment(p: Seq<Seq<char>>)
    ensures
        p.len() == 0 ==> crate::gen_trait_fn_body::trait_name(p) is None,
        p.len() > 0 ==> crate::gen_trait_fn_body::trait_name(p) == Some(p[p.len() - 1]),
{
}

/// Nothing is generated for a union, for `Clone` or `Debug` of an enum
/// written without its variant list, nor for `Debug` of an unnamed type.
pub proof fn law_nothing_generated(adt: SpecAdt)
    ensures
        adt is Union ==> clone_body(adt) is None && debug_body(adt) is None && default_body(adt)
            is None && hash_body(adt) is None,
        adt matches SpecAdt::Enum { variant_list: None, .. } ==> clone_body(adt) is None
            && debug_body(adt) is None,
        adt.name() is None ==> debug_body(adt) is None,
{
}

} // verus!
