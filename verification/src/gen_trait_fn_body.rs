//! Generates default trait impl function bodies where possible: `Clone`,
//! `Debug`, `Default` and `Hash`, from the fields and variants of the type.
//!
//! Each generator either replaces the body of the function with the body it
//! built and returns `Some(())`, or returns `None` and leaves the function as
//! it was (its `todo!()` body stays).

use vstd::prelude::*;
use crate::adt::{
    all_named, field_names, opt_field_list_view, opt_string_view, variants_view, Adt, FieldList, RecordField, SpecAdt, SpecFieldList,
    SpecVariant, Variant,
};
use crate::ast::{
    arms_view, exprs_view, group_view_push, pats_view, record_fields_view, strings_view,
    BlockExpr, Expr, FnDef, MatchArm, Pat, Path, RecordExprField, SpecBlockExpr, SpecExpr,
    SpecMatchArm, SpecPat, SpecPath, SpecRecordExprField,
};
use crate::numeral::{decimal, decimal_string, lemma_decimal_injective};

verus! {

broadcast use group_view_push;

// ---------------------------------------------------------------------------
// The bodies, stated over the views.

/// A path of one segment.
pub open spec fn name_path(name: Seq<char>) -> SpecPath {
    seq![name]
}

/// A path of one segment, as an expression.
pub open spec fn name_expr(name: Seq<char>) -> SpecExpr {
    SpecExpr::Path(name_path(name))
}

/// `Self::Name`.
pub open spec fn variant_path(name: Seq<char>) -> SpecPath {
    seq!["Self"@, name]
}

pub open spec fn method_call(receiver: SpecExpr, method: Seq<char>, args: Seq<SpecExpr>) -> SpecExpr {
    SpecExpr::MethodCall { receiver: Box::new(receiver), method, args }
}

/// `self.name`.
pub open spec fn self_field(name: Seq<char>) -> SpecExpr {
    SpecExpr::Field { receiver: Box::new(name_expr("self"@)), field: name }
}

/// `&self.name`, that is the field `name` of `&self`.
pub open spec fn self_ref_field(name: Seq<char>) -> SpecExpr {
    SpecExpr::Field {
        receiver: Box::new(SpecExpr::Ref { expr: Box::new(name_expr("self"@)), exclusive: false }),
        field: name,
    }
}

/// The binding `arg{i}` for the `i`-th field of a tuple variant.
pub open spec fn arg_name(i: nat) -> Seq<char> {
    "arg"@ + decimal(i)
}

/// A name between double quotes, as a string literal.
pub open spec fn quoted(name: Seq<char>) -> Seq<char> {
    "\""@ + name + "\""@
}

/// A block whose only content is the tail expression `e`, indented one level.
pub open spec fn body_of(e: SpecExpr) -> SpecBlockExpr {
    SpecBlockExpr { stmts: Seq::empty(), tail_expr: Some(e), indent_level: 1 }
}

/// A block of the statements `stmts` and no tail expression, indented one level.
pub open spec fn stmts_body(stmts: Seq<SpecExpr>) -> SpecBlockExpr {
    SpecBlockExpr { stmts, tail_expr: None, indent_level: 1 }
}

/// `match self { arms }`, the arms indented one level.
pub open spec fn match_self(arms: Seq<SpecMatchArm>) -> SpecExpr {
    SpecExpr::Match { expr: Box::new(name_expr("self"@)), arms, indent_level: 1 }
}

/// `Self { }`.
pub open spec fn empty_self_record() -> SpecExpr {
    SpecExpr::Record { path: name_path("Self"@), fields: Seq::empty() }
}

/// Names of the variant and of all its record fields are present.
pub open spec fn variant_fully_named(v: SpecVariant) -> bool {
    &&& v.name is Some
    &&& v.field_list matches Some(SpecFieldList::Record(fs)) ==> all_named(fs)
}

/// A struct's record fields, if it has them, are all named.
pub open spec fn struct_fields_named(l: Option<SpecFieldList>) -> bool {
    l matches Some(SpecFieldList::Record(fs)) ==> all_named(fs)
}

/// `target.clone()`.
pub open spec fn clone_call(target: SpecExpr) -> SpecExpr {
    method_call(target, "clone"@, Seq::empty())
}

/// `a: self.a.clone(), ..` for the named fields `fs`.
pub open spec fn clone_struct_inits(fs: Seq<Option<Seq<char>>>) -> Seq<SpecRecordExprField> {
    fs.map_values(
        |f: Option<Seq<char>>|
            SpecRecordExprField { name: f.unwrap(), expr: clone_call(self_field(f.unwrap())) },
    )
}

/// `self.0.clone(), ..` for `n` tuple fields.
pub open spec fn clone_struct_args(n: nat) -> Seq<SpecExpr> {
    Seq::new(n, |i: int| clone_call(self_field(decimal(i as nat))))
}

/// `Self { a: self.a.clone(), .. }`, `Self(self.0.clone(), ..)` or `Self { }`.
pub open spec fn clone_struct_expr(l: Option<SpecFieldList>) -> SpecExpr {
    match l {
        Some(SpecFieldList::Record(fs)) => SpecExpr::Record {
            path: name_path("Self"@),
            fields: clone_struct_inits(fs),
        },
        Some(SpecFieldList::Tuple(n)) => SpecExpr::Call {
            callee: Box::new(name_expr("Self"@)),
            args: clone_struct_args(n),
        },
        None => empty_self_record(),
    }
}

/// The bindings `a, ..` of the named fields `fs`.
pub open spec fn binding_pats(fs: Seq<Option<Seq<char>>>) -> Seq<SpecPat> {
    fs.map_values(|f: Option<Seq<char>>| SpecPat::Ident { name: f.unwrap() })
}

/// `a: a.clone(), ..` for the named fields `fs`.
pub open spec fn clone_binding_inits(fs: Seq<Option<Seq<char>>>) -> Seq<SpecRecordExprField> {
    fs.map_values(
        |f: Option<Seq<char>>|
            SpecRecordExprField { name: f.unwrap(), expr: clone_call(name_expr(f.unwrap())) },
    )
}

/// The bindings `arg0, ..` of `n` tuple fields.
pub open spec fn arg_pats(n: nat) -> Seq<SpecPat> {
    Seq::new(n, |i: int| SpecPat::Ident { name: arg_name(i as nat) })
}

/// `arg0.clone(), ..` for `n` tuple fields.
pub open spec fn clone_arg_exprs(n: nat) -> Seq<SpecExpr> {
    Seq::new(n, |i: int| clone_call(name_expr(arg_name(i as nat))))
}

/// `Self::V { a } => Self::V { a: a.clone() }`, `Self::V(arg0) => Self::V(arg0.clone())`
/// or `Self::V => Self::V`.
pub open spec fn clone_variant_arm(v: SpecVariant) -> SpecMatchArm {
    let path = variant_path(v.name.unwrap());
    match v.field_list {
        Some(SpecFieldList::Record(fs)) => SpecMatchArm {
            pat: SpecPat::Record { path, pats: binding_pats(fs) },
            expr: SpecExpr::Record { path, fields: clone_binding_inits(fs) },
        },
        Some(SpecFieldList::Tuple(n)) => SpecMatchArm {
            pat: SpecPat::TupleStruct { path, pats: arg_pats(n) },
            expr: SpecExpr::Call { callee: Box::new(SpecExpr::Path(path)), args: clone_arg_exprs(n) },
        },
        None => SpecMatchArm { pat: SpecPat::Path(path), expr: SpecExpr::Path(path) },
    }
}

/// One arm per variant, in order.
pub open spec fn clone_arms(vs: Seq<SpecVariant>) -> Seq<SpecMatchArm> {
    vs.map_values(|v: SpecVariant| clone_variant_arm(v))
}

/// The body of `clone` for the type, if one can be generated.
pub open spec fn clone_body(adt: SpecAdt) -> Option<SpecBlockExpr> {
    match adt {
        SpecAdt::Union { .. } => None,
        SpecAdt::Enum { variant_list, .. } => match variant_list {
            Some(vs) => if forall|i: int| 0 <= i < vs.len() ==> variant_fully_named(#[trigger] vs[i]) {
                Some(body_of(match_self(clone_arms(vs))))
            } else {
                None
            },
            None => None,
        },
        SpecAdt::Struct { field_list, .. } => if struct_fields_named(field_list) {
            Some(body_of(clone_struct_expr(field_list)))
        } else {
            None
        },
    }
}

/// `Self::V => write!(f, "V")`.
pub open spec fn debug_variant_arm(v: SpecVariant) -> SpecMatchArm {
    SpecMatchArm {
        pat: SpecPat::Path(variant_path(v.name.unwrap())),
        expr: SpecExpr::MacroCall {
            macro_path: Box::new(name_expr("write"@)),
            args: seq![name_expr("f"@), SpecExpr::Literal(quoted(v.name.unwrap()))],
        },
    }
}

/// `base.field("a", &self.a).field("b", &self.b)..` over the named fields `fs`.
pub open spec fn debug_record_chain(base: SpecExpr, fs: Seq<Option<Seq<char>>>) -> SpecExpr
    decreases fs.len(),
{
    if fs.len() == 0 {
        base
    } else {
        let name = fs.last().unwrap();
        method_call(
            debug_record_chain(base, fs.drop_last()),
            "field"@,
            seq![SpecExpr::Literal(quoted(name)), self_ref_field(name)],
        )
    }
}

/// `base.field(&self.0).field(&self.1)..` over `n` tuple fields.
pub open spec fn debug_tuple_chain(base: SpecExpr, n: nat) -> SpecExpr
    decreases n,
{
    if n == 0 {
        base
    } else {
        method_call(
            debug_tuple_chain(base, (n - 1) as nat),
            "field"@,
            seq![self_ref_field(decimal((n - 1) as nat))],
        )
    }
}

/// `f.debug_struct("Name").field("a", &self.a)..finish()`,
/// `f.debug_tuple("Name").field(&self.0)..finish()` or `f.debug_struct("Name").finish()`.
pub open spec fn debug_struct_expr(name: Seq<char>, l: Option<SpecFieldList>) -> SpecExpr {
    let title = seq![SpecExpr::Literal(quoted(name))];
    let builder = match l {
        Some(SpecFieldList::Record(fs)) => debug_record_chain(
            method_call(name_expr("f"@), "debug_struct"@, title),
            fs,
        ),
        Some(SpecFieldList::Tuple(n)) => debug_tuple_chain(
            method_call(name_expr("f"@), "debug_tuple"@, title),
            n,
        ),
        None => method_call(name_expr("f"@), "debug_struct"@, title),
    };
    method_call(builder, "finish"@, Seq::empty())
}

/// One arm per variant, in order.
pub open spec fn debug_arms(vs: Seq<SpecVariant>) -> Seq<SpecMatchArm> {
    vs.map_values(|v: SpecVariant| debug_variant_arm(v))
}

/// The body of `fmt` for the type, if one can be generated.
pub open spec fn debug_body(adt: SpecAdt) -> Option<SpecBlockExpr> {
    match adt.name() {
        None => None,
        Some(name) => match adt {
            SpecAdt::Union { .. } => None,
            SpecAdt::Enum { variant_list, .. } => match variant_list {
                Some(vs) => if forall|i: int| 0 <= i < vs.len() ==> (#[trigger] vs[i]).name is Some {
                    Some(body_of(match_self(debug_arms(vs))))
                } else {
                    None
                },
                None => None,
            },
            SpecAdt::Struct { field_list, .. } => if struct_fields_named(field_list) {
                Some(body_of(debug_struct_expr(name, field_list)))
            } else {
                None
            },
        },
    }
}

/// `Default::default()`.
pub open spec fn default_call() -> SpecExpr {
    SpecExpr::Call {
        callee: Box::new(SpecExpr::Path(seq!["Default"@, "default"@])),
        args: Seq::empty(),
    }
}

/// `a: Default::default(), ..` for the named fields `fs`.
pub open spec fn default_inits(fs: Seq<Option<Seq<char>>>) -> Seq<SpecRecordExprField> {
    fs.map_values(
        |f: Option<Seq<char>>| SpecRecordExprField { name: f.unwrap(), expr: default_call() },
    )
}

/// `Default::default(), ..` for `n` tuple fields.
pub open spec fn default_args(n: nat) -> Seq<SpecExpr> {
    Seq::new(n, |i: int| default_call())
}

/// The body of `default` for the type, if one can be generated.
pub open spec fn default_body(adt: SpecAdt) -> Option<SpecBlockExpr> {
    match adt {
        SpecAdt::Struct { field_list, .. } => match field_list {
            Some(SpecFieldList::Record(fs)) => if all_named(fs) {
                Some(body_of(SpecExpr::Record { path: name_path("Self"@), fields: default_inits(fs) }))
            } else {
                None
            },
            Some(SpecFieldList::Tuple(n)) => Some(
                body_of(SpecExpr::Call { callee: Box::new(name_expr("Self"@)), args: default_args(n) }),
            ),
            None => Some(body_of(empty_self_record())),
        },
        _ => None,
    }
}

/// The statement `target.hash(state);`.
pub open spec fn hash_call(target: SpecExpr) -> SpecExpr {
    method_call(target, "hash"@, seq![name_expr("state"@)])
}

/// `core::mem::discriminant(self)`.
pub open spec fn discriminant_call() -> SpecExpr {
    SpecExpr::Call {
        callee: Box::new(SpecExpr::Path(seq!["core"@, "mem"@, "discriminant"@])),
        args: seq![name_expr("self"@)],
    }
}

/// `self.a.hash(state); ..` for the named fields `fs`.
pub open spec fn hash_field_stmts(fs: Seq<Option<Seq<char>>>) -> Seq<SpecExpr> {
    fs.map_values(|f: Option<Seq<char>>| hash_call(self_field(f.unwrap())))
}

/// `self.0.hash(state); ..` for `n` tuple fields.
pub open spec fn hash_tuple_stmts(n: nat) -> Seq<SpecExpr> {
    Seq::new(n, |i: int| hash_call(self_field(decimal(i as nat))))
}

/// The body of `hash` for the type, if one can be generated.
pub open spec fn hash_body(adt: SpecAdt) -> Option<SpecBlockExpr> {
    match adt {
        SpecAdt::Union { .. } => None,
        SpecAdt::Enum { .. } => Some(stmts_body(seq![hash_call(discriminant_call())])),
        SpecAdt::Struct { field_list, .. } => match field_list {
            Some(SpecFieldList::Record(fs)) => if all_named(fs) {
                Some(stmts_body(hash_field_stmts(fs)))
            } else {
                None
            },
            Some(SpecFieldList::Tuple(n)) => Some(stmts_body(hash_tuple_stmts(n))),
            None => None,
        },
    }
}

/// The trait named by the last segment of a path.
pub open spec fn trait_name(trait_path: SpecPath) -> Option<Seq<char>> {
    if trait_path.len() == 0 {
        None
    } else {
        Some(trait_path.last())
    }
}

/// The body generated for the method of the trait named `name`, if any.
pub open spec fn trait_fn_body(name: Option<Seq<char>>, adt: SpecAdt) -> Option<SpecBlockExpr> {
    match name {
        None => None,
        Some(name) => if name == "Clone"@ {
            clone_body(adt)
        } else if name == "Debug"@ {
            debug_body(adt)
        } else if name == "Default"@ {
            default_body(adt)
        } else if name == "Hash"@ {
            hash_body(adt)
        } else {
            None
        },
    }
}

/// What a generator leaves of `func` when it built `body`, or failed to.
pub open spec fn replaced_body(
    old_func: FnDef,
    new_func: FnDef,
    res: Option<()>,
    body: Option<SpecBlockExpr>,
) -> bool {
    &&& res is Some <==> (old_func.body is Some && body is Some)
    &&& res is Some ==> new_func@.body == body
    &&& res is None ==> new_func == old_func
}

// ---------------------------------------------------------------------------
// Building blocks.

fn text(s: &str) -> (r: String)
    ensures
        r@ == s@,
{
    s.to_owned()
}

fn new_name_path(name: String) -> (p: Path)
    ensures
        p@ == name_path(name@),
{
    let mut segments = Vec::new();
    segments.push(name);
    assert(strings_view(segments@) =~= seq![name@]);
    Path { segments }
}

fn new_name_expr(name: String) -> (e: Expr)
    ensures
        e@ == name_expr(name@),
{
    Expr::Path(new_name_path(name))
}

/// `Self::name`.
fn new_variant_path(name: &String) -> (p: Path)
    ensures
        p@ == variant_path(name@),
{
    let mut segments = Vec::new();
    segments.push(text("Self"));
    segments.push(name.clone());
    assert(strings_view(segments@) =~= variant_path(name@));
    Path { segments }
}

fn new_self_field(name: String) -> (e: Expr)
    ensures
        e@ == self_field(name@),
{
    Expr::Field { receiver: Box::new(new_name_expr(text("self"))), field: name }
}

fn new_self_ref_field(name: String) -> (e: Expr)
    ensures
        e@ == self_ref_field(name@),
{
    let this = Expr::Ref { expr: Box::new(new_name_expr(text("self"))), exclusive: false };
    assert(this@ == SpecExpr::Ref { expr: Box::new(name_expr("self"@)), exclusive: false });
    Expr::Field { receiver: Box::new(this), field: name }
}

fn new_arg_name(i: usize) -> (s: String)
    ensures
        s@ == arg_name(i as nat),
{
    let mut s = text("arg");
    let digits = decimal_string(i);
    s.append(digits.as_str());
    s
}

fn new_quoted(name: &String) -> (s: String)
    ensures
        s@ == quoted(name@),
{
    let mut s = text("\"");
    s.append(name.as_str());
    s.append("\"");
    s
}

fn new_method_call(receiver: Expr, method: &str, args: Vec<Expr>) -> (e: Expr)
    ensures
        e@ == method_call(receiver@, method@, exprs_view(args@)),
{
    Expr::MethodCall { receiver: Box::new(receiver), method: text(method), args }
}

fn new_body(e: Expr) -> (b: BlockExpr)
    ensures
        b@ == body_of(e@),
{
    BlockExpr { stmts: Vec::new(), tail_expr: Some(e), indent_level: 1 }
}

fn new_match_self(arms: Vec<MatchArm>) -> (e: Expr)
    ensures
        e@ == match_self(arms_view(arms@)),
{
    Expr::Match { expr: Box::new(new_name_expr(text("self"))), arms, indent_level: 1 }
}

fn new_empty_self_record() -> (e: Expr)
    ensures
        e@ == empty_self_record(),
{
    let fields: Vec<RecordExprField> = Vec::new();
    assert(record_fields_view(fields@) == Seq::<SpecRecordExprField>::empty());
    Expr::Record { path: new_name_path(text("Self")), fields }
}

/// The name of a record field, or `None` where it has none.
fn field_name(f: &RecordField) -> (r: Option<String>)
    ensures
        r == f.name,
{
    match &f.name {
        Some(n) => Some(n.clone()),
        None => None,
    }
}

/// Replaces the body of `func` with `body`, where `func` has a body.
fn replace_body(func: &mut FnDef, body: BlockExpr) -> (res: Option<()>)
    ensures
        res is Some <==> old(func).body is Some,
        res is Some ==> final(func).body == Some(body),
        res is None ==> *final(func) == *old(func),
{
    if func.body.is_none() {
        return None;
    }
    func.body = Some(body);
    Some(())
}

// ---------------------------------------------------------------------------
// Clone.

/// `target.clone()`.
fn gen_clone_call(target: Expr) -> (e: Expr)
    ensures
        e@ == clone_call(target@),
{
    new_method_call(target, "clone", Vec::new())
}

/// The expression that clones a struct with the field list `l`.
fn gen_clone_struct_expr(l: &Option<FieldList>) -> (r: Option<Expr>)
    ensures
        r is Some <==> struct_fields_named(opt_field_list_view(*l)),
        r matches Some(e) ==> e@ == clone_struct_expr(opt_field_list_view(*l)),
{
    match l {
        Some(FieldList::Record(field_list)) => {
            let ghost fs = field_names(field_list@);
            let mut fields: Vec<RecordExprField> = Vec::new();
            let mut i: usize = 0;
            while i < field_list.len()
                invariant
                    0 <= i <= field_list.len(),
                    fs == field_names(field_list@),
                    opt_field_list_view(*l) == Some(SpecFieldList::Record(fs)),
                    forall|j: int| 0 <= j < i ==> (#[trigger] fs[j]) is Some,
                    record_fields_view(fields@) =~= clone_struct_inits(fs).take(i as int),
                decreases field_list.len() - i,
            {
                let name = match field_name(&field_list[i]) {
                    Some(n) => n,
                    None => {
                        assert(fs[i as int] is None);
                        return None;
                    },
                };
                let target = new_self_field(name.clone());
                let init = RecordExprField { name, expr: gen_clone_call(target) };
                fields.push(init);
                i += 1;
            }
            assert(clone_struct_inits(fs).take(field_list.len() as int) =~= clone_struct_inits(fs));
            let e = Expr::Record { path: new_name_path(text("Self")), fields };
            assert(all_named(fs));
            Some(e)
        },
        Some(FieldList::Tuple(n)) => {
            let n: usize = *n;
            let mut args: Vec<Expr> = Vec::new();
            let mut i: usize = 0;
            while i < n
                invariant
                    0 <= i <= n,
                    exprs_view(args@) =~= clone_struct_args(n as nat).take(i as int),
                decreases n - i,
            {
                let target = new_self_field(decimal_string(i));
                args.push(gen_clone_call(target));
                i += 1;
            }
            assert(clone_struct_args(n as nat).take(n as int) =~= clone_struct_args(n as nat));
            Some(Expr::Call { callee: Box::new(new_name_expr(text("Self"))), args })
        },
        None => Some(new_empty_self_record()),
    }
}

/// The match arm that clones the variant `v`.
fn gen_clone_variant_arm(v: &Variant) -> (r: Option<MatchArm>)
    ensures
        r is Some <==> variant_fully_named(v@),
        r matches Some(a) ==> a@ == clone_variant_arm(v@),
{
    let name = match &v.name {
        Some(n) => n,
        None => return None,
    };
    match &v.field_list {
        // => match self { Self::Name { x } => Self::Name { x: x.clone() } }
        Some(FieldList::Record(list)) => {
            let ghost fs = field_names(list@);
            let mut pats: Vec<Pat> = Vec::new();
            let mut fields: Vec<RecordExprField> = Vec::new();
            let mut i: usize = 0;
            while i < list.len()
                invariant
                    0 <= i <= list.len(),
                    fs == field_names(list@),
                    v@.name == Some(name@),
                    v@.field_list == Some(SpecFieldList::Record(fs)),
                    forall|j: int| 0 <= j < i ==> (#[trigger] fs[j]) is Some,
                    pats_view(pats@) =~= binding_pats(fs).take(i as int),
                    record_fields_view(fields@) =~= clone_binding_inits(fs).take(i as int),
                decreases list.len() - i,
            {
                let field_name = match field_name(&list[i]) {
                    Some(n) => n,
                    None => {
                        assert(fs[i as int] is None);
                        return None;
                    },
                };
                pats.push(Pat::Ident { name: field_name.clone() });
                let method_call = gen_clone_call(new_name_expr(field_name.clone()));
                fields.push(RecordExprField { name: field_name, expr: method_call });
                i += 1;
            }
            assert(all_named(fs));
            assert(binding_pats(fs).take(list.len() as int) =~= binding_pats(fs));
            assert(clone_binding_inits(fs).take(list.len() as int) =~= clone_binding_inits(fs));
            let pat = Pat::Record { path: new_variant_path(name), pats };
            let record_expr = Expr::Record { path: new_variant_path(name), fields };
            let arm = MatchArm { pat, expr: record_expr };
            Some(arm)
        },
        // => match self { Self::Name(arg1) => Self::Name(arg1.clone()) }
        Some(FieldList::Tuple(n)) => {
            let n: usize = *n;
            let mut pats: Vec<Pat> = Vec::new();
            let mut fields: Vec<Expr> = Vec::new();
            let mut i: usize = 0;
            while i < n
                invariant
                    0 <= i <= n,
                    pats_view(pats@) =~= arg_pats(n as nat).take(i as int),
                    exprs_view(fields@) =~= clone_arg_exprs(n as nat).take(i as int),
                decreases n - i,
            {
                let field_name = new_arg_name(i);
                pats.push(Pat::Ident { name: field_name.clone() });
                fields.push(gen_clone_call(new_name_expr(field_name)));
                i += 1;
            }
            assert(arg_pats(n as nat).take(n as int) =~= arg_pats(n as nat));
            assert(clone_arg_exprs(n as nat).take(n as int) =~= clone_arg_exprs(n as nat));
            let pat = Pat::TupleStruct { path: new_variant_path(name), pats };
            let struct_name = Expr::Path(new_variant_path(name));
            assert(struct_name@ == SpecExpr::Path(variant_path(name@)));
            let tuple_expr = Expr::Call { callee: Box::new(struct_name), args: fields };
            let arm = MatchArm { pat, expr: tuple_expr };
            Some(arm)
        },
        // => match self { Self::Name => Self::Name }
        None => {
            let pattern = Pat::Path(new_variant_path(name));
            let variant_expr = Expr::Path(new_variant_path(name));
            Some(MatchArm { pat: pattern, expr: variant_expr })
        },
    }
}

/// The body of `clone` for `adt`, if one can be generated.
fn gen_clone_body(adt: &Adt) -> (r: Option<BlockExpr>)
    ensures
        r is Some <==> clone_body(adt@) is Some,
        r matches Some(b) ==> clone_body(adt@) == Some(b@),
{
    match adt {
        // `Clone` cannot be derived for unions, so no default impl can be provided.
        Adt::Union { .. } => None,
        Adt::Enum { variant_list, .. } => {
            let list = match variant_list {
                Some(list) => list,
                None => return None,
            };
            let ghost vs = variants_view(list@);
            let mut arms: Vec<MatchArm> = Vec::new();
            let mut i: usize = 0;
            while i < list.len()
                invariant
                    0 <= i <= list.len(),
                    vs == variants_view(list@),
                    adt@ matches SpecAdt::Enum { variant_list: Some(l), .. } && l == vs,
                    forall|j: int| 0 <= j < i ==> variant_fully_named(#[trigger] vs[j]),
                    arms_view(arms@) =~= clone_arms(vs).take(i as int),
                decreases list.len() - i,
            {
                let arm = match gen_clone_variant_arm(&list[i]) {
                    Some(arm) => arm,
                    None => {
                        assert(!variant_fully_named(vs[i as int]));
                        return None;
                    },
                };
                arms.push(arm);
                i += 1;
            }
            let body = new_body(new_match_self(arms));
            assert(clone_arms(vs).take(list.len() as int) =~= clone_arms(vs));
            Some(body)
        },
        Adt::Struct { field_list, .. } => match gen_clone_struct_expr(field_list) {
            Some(e) => Some(new_body(e)),
            None => None,
        },
    }
}

/// Generates a `Clone` impl based on the fields and members of the target type.
pub fn gen_clone_impl(adt: &Adt, func: &mut FnDef) -> (res: Option<()>)
    ensures
        replaced_body(*old(func), *final(func), res, clone_body(adt@)),
{
    let body = match gen_clone_body(adt) {
        Some(body) => body,
        None => return None,
    };
    replace_body(func, body)
}

// ---------------------------------------------------------------------------
// Debug.

/// `name` of a definition, whatever its kind.
fn adt_name(adt: &Adt) -> (r: &Option<String>)
    ensures
        opt_string_view(*r) == adt@.name(),
{
    match adt {
        Adt::Struct { name, .. } => name,
        Adt::Enum { name, .. } => name,
        Adt::Union { name } => name,
    }
}

/// The argument list `("Name")` of `debug_struct` and `debug_tuple`.
fn gen_title_args(name: &String) -> (args: Vec<Expr>)
    ensures
        exprs_view(args@) == seq![SpecExpr::Literal(quoted(name@))],
{
    let mut args = Vec::new();
    args.push(Expr::Literal(new_quoted(name)));
    assert(exprs_view(args@) =~= seq![SpecExpr::Literal(quoted(name@))]);
    args
}

/// The arm `Self::V => write!(f, "V")` of the variant `v`.
fn gen_debug_variant_arm(v: &Variant) -> (r: Option<MatchArm>)
    ensures
        r is Some <==> v@.name is Some,
        r matches Some(a) ==> a@ == debug_variant_arm(v@),
{
    let name = match &v.name {
        Some(n) => n,
        None => return None,
    };
    let variant_name = Pat::Path(new_variant_path(name));
    let target = new_name_expr(text("f"));
    let fmt_string = Expr::Literal(new_quoted(name));
    let mut args = Vec::new();
    args.push(target);
    args.push(fmt_string);
    assert(exprs_view(args@) =~= seq![name_expr("f"@), SpecExpr::Literal(quoted(name@))]);
    let macro_name = new_name_expr(text("write"));
    let macro_call = Expr::MacroCall { macro_path: Box::new(macro_name), args };
    Some(MatchArm { pat: variant_name, expr: macro_call })
}

/// The expression that formats a struct named `name` with the field list `l`.
fn gen_debug_struct_expr(name: &String, l: &Option<FieldList>) -> (r: Option<Expr>)
    ensures
        r is Some <==> struct_fields_named(opt_field_list_view(*l)),
        r matches Some(e) ==> e@ == debug_struct_expr(name@, opt_field_list_view(*l)),
{
    let ghost title = seq![SpecExpr::Literal(quoted(name@))];
    let expr = match l {
        // => f.debug_struct("Name").finish()
        None => new_method_call(new_name_expr(text("f")), "debug_struct", gen_title_args(name)),
        // => f.debug_struct("Name").field("foo", &self.foo).finish()
        Some(FieldList::Record(field_list)) => {
            let ghost fs = field_names(field_list@);
            let ghost base = method_call(name_expr("f"@), "debug_struct"@, title);
            let target = new_name_expr(text("f"));
            let mut expr = new_method_call(target, "debug_struct", gen_title_args(name));
            let mut i: usize = 0;
            assert(fs.take(0) =~= Seq::<Option<Seq<char>>>::empty());
            while i < field_list.len()
                invariant
                    0 <= i <= field_list.len(),
                    fs == field_names(field_list@),
                    opt_field_list_view(*l) == Some(SpecFieldList::Record(fs)),
                    base == method_call(name_expr("f"@), "debug_struct"@, title),
                    forall|j: int| 0 <= j < i ==> (#[trigger] fs[j]) is Some,
                    expr@ == debug_record_chain(base, fs.take(i as int)),
                decreases field_list.len() - i,
            {
                let field = match field_name(&field_list[i]) {
                    Some(n) => n,
                    None => {
                        assert(fs[i as int] is None);
                        return None;
                    },
                };
                let f_name = Expr::Literal(new_quoted(&field));
                let f_path = new_self_ref_field(field);
                let mut args = Vec::new();
                args.push(f_name);
                args.push(f_path);
                proof {
                    let name_i = fs[i as int].unwrap();
                    assert(exprs_view(args@) =~= seq![
                        SpecExpr::Literal(quoted(name_i)),
                        self_ref_field(name_i),
                    ]);
                    assert(fs.take(i + 1).drop_last() =~= fs.take(i as int));
                    assert(fs.take(i + 1).last() == fs[i as int]);
                }
                expr = new_method_call(expr, "field", args);
                i += 1;
            }
            assert(fs.take(field_list.len() as int) =~= fs);
            assert(all_named(fs));
            expr
        },
        // => f.debug_tuple("Name").field(self.0).finish()
        Some(FieldList::Tuple(n)) => {
            let n: usize = *n;
            let ghost base = method_call(name_expr("f"@), "debug_tuple"@, title);
            let target = new_name_expr(text("f"));
            let mut expr = new_method_call(target, "debug_tuple", gen_title_args(name));
            let mut i: usize = 0;
            while i < n
                invariant
                    0 <= i <= n,
                    base == method_call(name_expr("f"@), "debug_tuple"@, title),
                    expr@ == debug_tuple_chain(base, i as nat),
                decreases n - i,
            {
                let f_path = new_self_ref_field(decimal_string(i));
                let mut args = Vec::new();
                args.push(f_path);
                assert(exprs_view(args@) =~= seq![self_ref_field(decimal(i as nat))]);
                expr = new_method_call(expr, "field", args);
                i += 1;
            }
            expr
        },
    };
    Some(new_method_call(expr, "finish", Vec::new()))
}

/// The body of `fmt` for `adt`, if one can be generated.
fn gen_debug_body(adt: &Adt) -> (r: Option<BlockExpr>)
    ensures
        r is Some <==> debug_body(adt@) is Some,
        r matches Some(b) ==> debug_body(adt@) == Some(b@),
{
    let annotated_name = match adt_name(adt) {
        Some(n) => n,
        None => return None,
    };
    match adt {
        // `Debug` cannot be derived for unions, so no default impl can be provided.
        Adt::Union { .. } => None,
        // => match self { Self::Variant => write!(f, "Variant") }
        Adt::Enum { variant_list, .. } => {
            let list = match variant_list {
                Some(list) => list,
                None => return None,
            };
            let ghost vs = variants_view(list@);
            let mut arms: Vec<MatchArm> = Vec::new();
            let mut i: usize = 0;
            while i < list.len()
                invariant
                    0 <= i <= list.len(),
                    vs == variants_view(list@),
                    adt@ matches SpecAdt::Enum { variant_list: Some(l), .. } && l == vs,
                    forall|j: int| 0 <= j < i ==> (#[trigger] vs[j]).name is Some,
                    arms_view(arms@) =~= debug_arms(vs).take(i as int),
                decreases list.len() - i,
            {
                let arm = match gen_debug_variant_arm(&list[i]) {
                    Some(arm) => arm,
                    None => {
                        assert(vs[i as int].name is None);
                        return None;
                    },
                };
                arms.push(arm);
                i += 1;
            }
            assert(debug_arms(vs).take(list.len() as int) =~= debug_arms(vs));
            Some(new_body(new_match_self(arms)))
        },
        Adt::Struct { field_list, .. } => match gen_debug_struct_expr(annotated_name, field_list) {
            Some(e) => Some(new_body(e)),
            None => None,
        },
    }
}

/// Generates a `Debug` impl based on the fields and members of the target type.
pub fn gen_debug_impl(adt: &Adt, func: &mut FnDef) -> (res: Option<()>)
    ensures
        replaced_body(*old(func), *final(func), res, debug_body(adt@)),
{
    let body = match gen_debug_body(adt) {
        Some(body) => body,
        None => return None,
    };
    replace_body(func, body)
}

// ---------------------------------------------------------------------------
// Default.

/// `Default::default()`.
fn gen_default_call() -> (e: Expr)
    ensures
        e@ == default_call(),
{
    let mut segments = Vec::new();
    segments.push(text("Default"));
    segments.push(text("default"));
    assert(strings_view(segments@) =~= seq!["Default"@, "default"@]);
    let fn_name = Expr::Path(Path { segments });
    assert(fn_name@ == SpecExpr::Path(seq!["Default"@, "default"@]));
    let args: Vec<Expr> = Vec::new();
    assert(exprs_view(args@) == Seq::<SpecExpr>::empty());
    Expr::Call { callee: Box::new(fn_name), args }
}

/// The body of `default` for `adt`, if one can be generated.
fn gen_default_body(adt: &Adt) -> (r: Option<BlockExpr>)
    ensures
        r is Some <==> default_body(adt@) is Some,
        r matches Some(b) ==> default_body(adt@) == Some(b@),
{
    match adt {
        // `Default` cannot be derived for unions, so no default impl can be provided.
        Adt::Union { .. } => None,
        // Deriving `Default` for enums is not stable yet.
        Adt::Enum { .. } => None,
        Adt::Struct { field_list, .. } => {
            let expr = match field_list {
                Some(FieldList::Record(list)) => {
                    let ghost fs = field_names(list@);
                    let mut fields: Vec<RecordExprField> = Vec::new();
                    let mut i: usize = 0;
                    while i < list.len()
                        invariant
                            0 <= i <= list.len(),
                            fs == field_names(list@),
                            adt@ matches SpecAdt::Struct {
                                field_list: Some(SpecFieldList::Record(l)),
                                ..
                            } && l == fs,
                            forall|j: int| 0 <= j < i ==> (#[trigger] fs[j]) is Some,
                            record_fields_view(fields@) =~= default_inits(fs).take(i as int),
                        decreases list.len() - i,
                    {
                        let name = match field_name(&list[i]) {
                            Some(n) => n,
                            None => {
                                assert(fs[i as int] is None);
                                return None;
                            },
                        };
                        fields.push(RecordExprField { name, expr: gen_default_call() });
                        i += 1;
                    }
                    assert(default_inits(fs).take(list.len() as int) =~= default_inits(fs));
                    assert(all_named(fs));
                    Expr::Record { path: new_name_path(text("Self")), fields }
                },
                Some(FieldList::Tuple(n)) => {
                    let n: usize = *n;
                    let mut args: Vec<Expr> = Vec::new();
                    let mut i: usize = 0;
                    while i < n
                        invariant
                            0 <= i <= n,
                            exprs_view(args@) =~= default_args(n as nat).take(i as int),
                        decreases n - i,
                    {
                        args.push(gen_default_call());
                        i += 1;
                    }
                    assert(default_args(n as nat).take(n as int) =~= default_args(n as nat));
                    Expr::Call { callee: Box::new(new_name_expr(text("Self"))), args }
                },
                None => new_empty_self_record(),
            };
            Some(new_body(expr))
        },
    }
}

/// Generates a `Default` impl based on the fields of the target type.
pub fn gen_default_impl(adt: &Adt, func: &mut FnDef) -> (res: Option<()>)
    ensures
        replaced_body(*old(func), *final(func), res, default_body(adt@)),
{
    let body = match gen_default_body(adt) {
        Some(body) => body,
        None => return None,
    };
    replace_body(func, body)
}

// ---------------------------------------------------------------------------
// Hash.

/// The statement `target.hash(state);`.
fn gen_hash_call(target: Expr) -> (e: Expr)
    ensures
        e@ == hash_call(target@),
{
    let arg = new_name_expr(text("state"));
    let mut args = Vec::new();
    args.push(arg);
    assert(exprs_view(args@) =~= seq![name_expr("state"@)]);
    new_method_call(target, "hash", args)
}

/// `core::mem::discriminant(self)`.
fn gen_discriminant_call() -> (e: Expr)
    ensures
        e@ == discriminant_call(),
{
    let mut segments = Vec::new();
    segments.push(text("core"));
    segments.push(text("mem"));
    segments.push(text("discriminant"));
    assert(strings_view(segments@) =~= seq!["core"@, "mem"@, "discriminant"@]);
    let fn_name = Expr::Path(Path { segments });
    assert(fn_name@ == SpecExpr::Path(seq!["core"@, "mem"@, "discriminant"@]));
    let mut args = Vec::new();
    args.push(new_name_expr(text("self")));
    assert(exprs_view(args@) =~= seq![name_expr("self"@)]);
    Expr::Call { callee: Box::new(fn_name), args }
}

/// The body of `hash` for `adt`, if one can be generated.
fn gen_hash_body(adt: &Adt) -> (r: Option<BlockExpr>)
    ensures
        r is Some <==> hash_body(adt@) is Some,
        r matches Some(b) ==> hash_body(adt@) == Some(b@),
{
    let stmts = match adt {
        // `Hash` cannot be derived for unions, so no default impl can be provided.
        Adt::Union { .. } => return None,
        // => std::mem::discriminant(self).hash(state);
        Adt::Enum { .. } => {
            let mut stmts = Vec::new();
            stmts.push(gen_hash_call(gen_discriminant_call()));
            assert(exprs_view(stmts@) =~= seq![hash_call(discriminant_call())]);
            stmts
        },
        Adt::Struct { field_list, .. } => match field_list {
            // => self.<field>.hash(state);
            Some(FieldList::Record(list)) => {
                let ghost fs = field_names(list@);
                let mut stmts: Vec<Expr> = Vec::new();
                let mut i: usize = 0;
                while i < list.len()
                    invariant
                        0 <= i <= list.len(),
                        fs == field_names(list@),
                        adt@ matches SpecAdt::Struct {
                            field_list: Some(SpecFieldList::Record(l)),
                            ..
                        } && l == fs,
                        forall|j: int| 0 <= j < i ==> (#[trigger] fs[j]) is Some,
                        exprs_view(stmts@) =~= hash_field_stmts(fs).take(i as int),
                    decreases list.len() - i,
                {
                    let name = match field_name(&list[i]) {
                        Some(n) => n,
                        None => {
                            assert(fs[i as int] is None);
                            return None;
                        },
                    };
                    stmts.push(gen_hash_call(new_self_field(name)));
                    i += 1;
                }
                assert(hash_field_stmts(fs).take(list.len() as int) =~= hash_field_stmts(fs));
                assert(all_named(fs));
                stmts
            },
            // => self.<field_index>.hash(state);
            Some(FieldList::Tuple(n)) => {
                let n: usize = *n;
                let mut stmts: Vec<Expr> = Vec::new();
                let mut i: usize = 0;
                while i < n
                    invariant
                        0 <= i <= n,
                        exprs_view(stmts@) =~= hash_tuple_stmts(n as nat).take(i as int),
                    decreases n - i,
                {
                    stmts.push(gen_hash_call(new_self_field(decimal_string(i))));
                    i += 1;
                }
                assert(hash_tuple_stmts(n as nat).take(n as int) =~= hash_tuple_stmts(n as nat));
                stmts
            },
            // No fields in the body means there's nothing to hash.
            None => return None,
        },
    };
    Some(BlockExpr { stmts, tail_expr: None, indent_level: 1 })
}

/// Generates a `Hash` impl based on the fields and members of the target type.
pub fn gen_hash_impl(adt: &Adt, func: &mut FnDef) -> (res: Option<()>)
    ensures
        replaced_body(*old(func), *final(func), res, hash_body(adt@)),
{
    let body = match gen_hash_body(adt) {
        Some(body) => body,
        None => return None,
    };
    replace_body(func, body)
}

// ---------------------------------------------------------------------------
// Dispatch.

/// Generates a custom body for the method `func` of the trait `trait_path`,
/// implemented for `adt`, where possible.
///
/// Returns `Option` so that a failure is plain: `None` means that generating
/// a custom trait body failed, and the body remains as `todo!` instead.
pub fn gen_trait_fn_body(func: &mut FnDef, trait_path: &Path, adt: &Adt) -> (res: Option<()>)
    ensures
        replaced_body(*old(func), *final(func), res, trait_fn_body(trait_name(trait_path@), adt@)),
{
    let segments = &trait_path.segments;
    if segments.len() == 0 {
        return None;
    }
    let name = &segments[segments.len() - 1];
    assert(trait_name(trait_path@) == Some(name@));
    if *name == text("Clone") {
        gen_clone_impl(adt, func)
    } else if *name == text("Debug") {
        gen_debug_impl(adt, func)
    } else if *name == text("Default") {
        gen_default_impl(adt, func)
    } else if *name == text("Hash") {
        gen_hash_impl(adt, func)
    } else {
        None
    }
}

// ---------------------------------------------------------------------------
// Laws.

/// No body is generated for a union, whatever the trait: none of `Clone`,
/// `Debug`, `Default` and `Hash` can be derived for one.
pub proof fn lemma_union_gets_no_body(name: Option<Seq<char>>, adt: SpecAdt)
    requires
        adt is Union,
    ensures
        trait_fn_body(name, adt) is None,
{
}

/// A trait other than `Clone`, `Debug`, `Default` and `Hash` gets no body.
pub proof fn lemma_other_traits_get_no_body(name: Seq<char>, adt: SpecAdt)
    requires
        name != "Clone"@,
        name != "Debug"@,
        name != "Default"@,
        name != "Hash"@,
    ensures
        trait_fn_body(Some(name), adt) is None,
{
}

/// `Default` is generated for structs only, never for an enum or a union.
pub proof fn lemma_default_only_for_structs(adt: SpecAdt)
    requires
        !(adt is Struct),
    ensures
        default_body(adt) is None,
{
}

/// The bindings `arg0`, `arg1`, .. of the fields of a tuple variant are
/// pairwise distinct, and so are the tuple field indices `0`, `1`, ..
pub proof fn lemma_field_bindings_distinct(i: nat, j: nat)
    requires
        i != j,
    ensures
        arg_name(i) != arg_name(j),
        decimal(i) != decimal(j),
{
    if decimal(i) == decimal(j) {
        lemma_decimal_injective(i, j);
    }
    if arg_name(i) == arg_name(j) {
        assert(decimal(i) =~= arg_name(i).skip("arg"@.len() as int));
        assert(decimal(j) =~= arg_name(j).skip("arg"@.len() as int));
        lemma_decimal_injective(i, j);
    }
}

/// The body generated for an enum matches on `self` with one arm per
/// variant, in the order of declaration, each arm's pattern naming its
/// variant as `Self::Variant`; so for `Clone` and for `Debug`.
pub proof fn lemma_enum_arms_follow_variants(adt: SpecAdt)
    requires
        adt matches SpecAdt::Enum { variant_list: Some(_), .. },
    ensures
        ({
            let vs = adt->variant_list.unwrap();
            &&& clone_body(adt) matches Some(b) ==> {
                &&& b.tail_expr matches Some(SpecExpr::Match { expr, arms, .. })
                &&& *expr == name_expr("self"@)
                &&& arms.len() == vs.len()
                &&& forall|i: int|
                    0 <= i < vs.len() ==> pat_path(#[trigger] arms[i].pat) == variant_path(
                        vs[i].name.unwrap(),
                    )
            }
            &&& debug_body(adt) matches Some(b) ==> {
                &&& b.tail_expr matches Some(SpecExpr::Match { expr, arms, .. })
                &&& *expr == name_expr("self"@)
                &&& arms.len() == vs.len()
                &&& forall|i: int|
                    0 <= i < vs.len() ==> pat_path(#[trigger] arms[i].pat) == variant_path(
                        vs[i].name.unwrap(),
                    )
            }
        }),
{
    let vs = adt->variant_list.unwrap();
    assert forall|i: int| 0 <= i < vs.len() implies pat_path(
        #[trigger] clone_arms(vs)[i].pat,
    ) == variant_path(vs[i].name.unwrap()) by {
        let v = vs[i];
        match v.field_list {
            Some(SpecFieldList::Record(_)) => {},
            Some(SpecFieldList::Tuple(_)) => {},
            None => {},
        }
    }
}

/// The path a pattern names, where it names one.
pub open spec fn pat_path(p: SpecPat) -> SpecPath {
    match p {
        SpecPat::Ident { name } => name_path(name),
        SpecPat::Record { path, .. } => path,
        SpecPat::TupleStruct { path, .. } => path,
        SpecPat::Path(path) => path,
    }
}

/// For a struct with named fields, `Clone`, `Default` and `Hash` can be
/// generated exactly when every field has a name, and so can `Debug` when
/// the struct has a name too.
pub proof fn lemma_struct_generators_agree(adt: SpecAdt)
    requires
        adt matches SpecAdt::Struct { field_list: Some(SpecFieldList::Record(_)), .. },
    ensures
        ({
            let fs = adt->field_list.unwrap()->Record_0;
            &&& clone_body(adt) is Some <==> all_named(fs)
            &&& default_body(adt) is Some <==> all_named(fs)
            &&& hash_body(adt) is Some <==> all_named(fs)
            &&& debug_body(adt) is Some <==> (adt.name() is Some && all_named(fs))
        }),
{
}

/// The `Hash` body of an enum hashes its discriminant only: it is the same
/// for every enum, whatever its variants.
pub proof fn lemma_enum_hash_ignores_variants(a: SpecAdt, b: SpecAdt)
    requires
        a is Enum,
        b is Enum,
    ensures
        hash_body(a) == hash_body(b),
        hash_body(a) == Some(stmts_body(seq![hash_call(discriminant_call())])),
{
}

/// Each field of a struct is cloned, hashed and (for `Debug`) listed exactly
/// in the order of declaration: the `i`-th initializer, statement or
/// `.field(..)` call is about the `i`-th field.
pub proof fn lemma_struct_fields_in_order(fs: Seq<Option<Seq<char>>>, i: int)
    requires
        all_named(fs),
        0 <= i < fs.len(),
    ensures
        clone_struct_inits(fs)[i].name == fs[i].unwrap(),
        clone_struct_inits(fs)[i].expr == clone_call(self_field(fs[i].unwrap())),
        hash_field_stmts(fs)[i] == hash_call(self_field(fs[i].unwrap())),
        default_inits(fs)[i].name == fs[i].unwrap(),
{
}

} // verus!
