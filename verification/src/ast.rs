//! The syntax that the generators build: paths, expressions, patterns, match
//! arms and blocks, each as an executable value and as its mathematical view.
//!
//! Every node corresponds to one constructor of the syntax builder that the
//! generated code is printed with (a path, `receiver.method(args)`,
//! `callee(args)`, `receiver.field`, `&expr`, a literal, `name!(args)`,
//! `Path { field: expr, .. }`, `match expr { arms }`, and the patterns
//! `name`, `Path { pats }`, `Path(pats)` and `Path`).

use vstd::prelude::*;

verus! {

/// A path such as `Self::Variant` or `core::mem::discriminant`, one name per segment.
#[derive(Clone, Debug, PartialEq, Eq)]
pub struct Path {
    pub segments: Vec<String>,
}

/// An expression.
#[derive(Debug, PartialEq, Eq)]
pub enum Expr {
    /// A path used as an expression: `self`, `Self`, `Self::Variant`, `f`.
    Path(Path),
    /// A literal, kept as its source text (for instance `"Name"` with its quotes).
    Literal(String),
    /// `&expr`, or `&mut expr` when `exclusive` holds.
    Ref { expr: Box<Expr>, exclusive: bool },
    /// `receiver.field`.
    Field { receiver: Box<Expr>, field: String },
    /// `receiver.method(args)`.
    MethodCall { receiver: Box<Expr>, method: String, args: Vec<Expr> },
    /// `callee(args)`.
    Call { callee: Box<Expr>, args: Vec<Expr> },
    /// `path!(args)`.
    MacroCall { macro_path: Box<Expr>, args: Vec<Expr> },
    /// `Path { name: expr, .. }`.
    Record { path: Path, fields: Vec<RecordExprField> },
    /// `match expr { arms }`, the arm list indented by `indent_level` more levels.
    Match { expr: Box<Expr>, arms: Vec<MatchArm>, indent_level: u8 },
}

/// One initializer `name: expr` of a record expression.
#[derive(Debug, PartialEq, Eq)]
pub struct RecordExprField {
    pub name: String,
    pub expr: Expr,
}

/// A pattern.
#[derive(Debug, PartialEq, Eq)]
pub enum Pat {
    /// A binding `name` (neither `ref` nor `mut`).
    Ident { name: String },
    /// `Path { pats }`.
    Record { path: Path, pats: Vec<Pat> },
    /// `Path(pats)`.
    TupleStruct { path: Path, pats: Vec<Pat> },
    /// `Path`.
    Path(Path),
}

/// A match arm `pat => expr` (without a guard).
#[derive(Debug, PartialEq, Eq)]
pub struct MatchArm {
    pub pat: Pat,
    pub expr: Expr,
}

/// A block `{ stmts; tail_expr }`: each statement is an expression followed
/// by `;`; the whole block is indented by `indent_level` more levels.
#[derive(Debug, PartialEq, Eq)]
pub struct BlockExpr {
    pub stmts: Vec<Expr>,
    pub tail_expr: Option<Expr>,
    pub indent_level: u8,
}

/// A function item, as far as the generators see it: its body, if it has one.
#[derive(Debug, PartialEq, Eq)]
pub struct FnDef {
    pub body: Option<BlockExpr>,
}

// ---------------------------------------------------------------------------
// Mathematical views.

/// The view of a path: the text of each segment.
pub type SpecPath = Seq<Seq<char>>;

pub enum SpecExpr {
    Path(SpecPath),
    Literal(Seq<char>),
    Ref { expr: Box<SpecExpr>, exclusive: bool },
    Field { receiver: Box<SpecExpr>, field: Seq<char> },
    MethodCall { receiver: Box<SpecExpr>, method: Seq<char>, args: Seq<SpecExpr> },
    Call { callee: Box<SpecExpr>, args: Seq<SpecExpr> },
    MacroCall { macro_path: Box<SpecExpr>, args: Seq<SpecExpr> },
    Record { path: SpecPath, fields: Seq<SpecRecordExprField> },
    Match { expr: Box<SpecExpr>, arms: Seq<SpecMatchArm>, indent_level: u8 },
}

pub struct SpecRecordExprField {
    pub name: Seq<char>,
    pub expr: SpecExpr,
}

pub enum SpecPat {
    Ident { name: Seq<char> },
    Record { path: SpecPath, pats: Seq<SpecPat> },
    TupleStruct { path: SpecPath, pats: Seq<SpecPat> },
    Path(SpecPath),
}

pub struct SpecMatchArm {
    pub pat: SpecPat,
    pub expr: SpecExpr,
}

pub struct SpecBlockExpr {
    pub stmts: Seq<SpecExpr>,
    pub tail_expr: Option<SpecExpr>,
    pub indent_level: u8,
}

pub struct SpecFnDef {
    pub body: Option<SpecBlockExpr>,
}

pub open spec fn strings_view(s: Seq<String>) -> Seq<Seq<char>> {
    s.map_values(|x: String| x@)
}

impl View for Path {
    type V = SpecPath;

    open spec fn view(&self) -> SpecPath {
        strings_view(self.segments@)
    }
}

pub open spec fn expr_view(e: Expr) -> SpecExpr
    decreases e,
{
    match e {
        Expr::Path(p) => SpecExpr::Path(p@),
        Expr::Literal(s) => SpecExpr::Literal(s@),
        Expr::Ref { expr, exclusive } => SpecExpr::Ref {
            expr: Box::new(expr_view(*expr)),
            exclusive,
        },
        Expr::Field { receiver, field } => SpecExpr::Field {
            receiver: Box::new(expr_view(*receiver)),
            field: field@,
        },
        Expr::MethodCall { receiver, method, args } => SpecExpr::MethodCall {
            receiver: Box::new(expr_view(*receiver)),
            method: method@,
            args: exprs_view(args@),
        },
        Expr::Call { callee, args } => SpecExpr::Call {
            callee: Box::new(expr_view(*callee)),
            args: exprs_view(args@),
        },
        Expr::MacroCall { macro_path, args } => SpecExpr::MacroCall {
            macro_path: Box::new(expr_view(*macro_path)),
            args: exprs_view(args@),
        },
        Expr::Record { path, fields } => SpecExpr::Record {
            path: path@,
            fields: record_fields_view(fields@),
        },
        Expr::Match { expr, arms, indent_level } => SpecExpr::Match {
            expr: Box::new(expr_view(*expr)),
            arms: arms_view(arms@),
            indent_level,
        },
    }
}

pub open spec fn exprs_view(es: Seq<Expr>) -> Seq<SpecExpr>
    decreases es,
{
    if es.len() == 0 {
        Seq::empty()
    } else {
        exprs_view(es.drop_last()).push(expr_view(es.last()))
    }
}

pub open spec fn record_fields_view(fs: Seq<RecordExprField>) -> Seq<SpecRecordExprField>
    decreases fs,
{
    if fs.len() == 0 {
        Seq::empty()
    } else {
        record_fields_view(fs.drop_last()).push(
            SpecRecordExprField { name: fs.last().name@, expr: expr_view(fs.last().expr) },
        )
    }
}

pub open spec fn arms_view(arms: Seq<MatchArm>) -> Seq<SpecMatchArm>
    decreases arms,
{
    if arms.len() == 0 {
        Seq::empty()
    } else {
        arms_view(arms.drop_last()).push(
            SpecMatchArm { pat: pat_view(arms.last().pat), expr: expr_view(arms.last().expr) },
        )
    }
}

pub open spec fn pat_view(p: Pat) -> SpecPat
    decreases p,
{
    match p {
        Pat::Ident { name } => SpecPat::Ident { name: name@ },
        Pat::Record { path, pats } => SpecPat::Record { path: path@, pats: pats_view(pats@) },
        Pat::TupleStruct { path, pats } => SpecPat::TupleStruct {
            path: path@,
            pats: pats_view(pats@),
        },
        Pat::Path(path) => SpecPat::Path(path@),
    }
}

pub open spec fn pats_view(ps: Seq<Pat>) -> Seq<SpecPat>
    decreases ps,
{
    if ps.len() == 0 {
        Seq::empty()
    } else {
        pats_view(ps.drop_last()).push(pat_view(ps.last()))
    }
}

impl View for Expr {
    type V = SpecExpr;

    open spec fn view(&self) -> SpecExpr {
        expr_view(*self)
    }
}

impl View for RecordExprField {
    type V = SpecRecordExprField;

    open spec fn view(&self) -> SpecRecordExprField {
        SpecRecordExprField { name: self.name@, expr: expr_view(self.expr) }
    }
}

impl View for Pat {
    type V = SpecPat;

    open spec fn view(&self) -> SpecPat {
        pat_view(*self)
    }
}

impl View for MatchArm {
    type V = SpecMatchArm;

    open spec fn view(&self) -> SpecMatchArm {
        SpecMatchArm { pat: pat_view(self.pat), expr: expr_view(self.expr) }
    }
}

impl View for BlockExpr {
    type V = SpecBlockExpr;

    open spec fn view(&self) -> SpecBlockExpr {
        SpecBlockExpr {
            stmts: exprs_view(self.stmts@),
            tail_expr: match self.tail_expr {
                Some(e) => Some(expr_view(e)),
                None => None,
            },
            indent_level: self.indent_level,
        }
    }
}

impl View for FnDef {
    type V = SpecFnDef;

    open spec fn view(&self) -> SpecFnDef {
        SpecFnDef {
            body: match self.body {
                Some(b) => Some(b@),
                None => None,
            },
        }
    }
}

// ---------------------------------------------------------------------------
// Pushing onto a list extends its view by the view of the new element.

pub broadcast proof fn lemma_exprs_view_push(es: Seq<Expr>, e: Expr)
    ensures
        #[trigger] exprs_view(es.push(e)) == exprs_view(es).push(expr_view(e)),
{
    assert(es.push(e).drop_last() =~= es);
}

pub broadcast proof fn lemma_record_fields_view_push(fs: Seq<RecordExprField>, f: RecordExprField)
    ensures
        #[trigger] record_fields_view(fs.push(f)) == record_fields_view(fs).push(f@),
{
    assert(fs.push(f).drop_last() =~= fs);
}

pub broadcast proof fn lemma_arms_view_push(arms: Seq<MatchArm>, arm: MatchArm)
    ensures
        #[trigger] arms_view(arms.push(arm)) == arms_view(arms).push(arm@),
{
    assert(arms.push(arm).drop_last() =~= arms);
}

pub broadcast proof fn lemma_pats_view_push(ps: Seq<Pat>, p: Pat)
    ensures
        #[trigger] pats_view(ps.push(p)) == pats_view(ps).push(pat_view(p)),
{
    assert(ps.push(p).drop_last() =~= ps);
}

pub broadcast group group_view_push {
    lemma_exprs_view_push,
    lemma_record_fields_view_push,
    lemma_arms_view_push,
    lemma_pats_view_push,
}

// ---------------------------------------------------------------------------
// The view of a list is the list of the views, element for element.

/// The view of a list of expressions has one element per expression, the
/// view of the expression at the same place.
pub proof fn law_exprs_view(es: Seq<Expr>)
    ensures
        exprs_view(es).len() == es.len(),
        forall|i: int| 0 <= i < es.len() ==> #[trigger] exprs_view(es)[i] == expr_view(es[i]),
    decreases es.len(),
{
    if es.len() > 0 {
        law_exprs_view(es.drop_last());
    }
}

/// The view of a list of record initializers has one element per
/// initializer: its name and the view of its expression.
pub proof fn law_record_fields_view(fs: Seq<RecordExprField>)
    ensures
        record_fields_view(fs).len() == fs.len(),
        forall|i: int|
            0 <= i < fs.len() ==> #[trigger] record_fields_view(fs)[i] == (SpecRecordExprField {
                name: fs[i].name@,
                expr: expr_view(fs[i].expr),
            }),
    decreases fs.len(),
{
    if fs.len() > 0 {
        law_record_fields_view(fs.drop_last());
    }
}

/// The view of a list of match arms has one element per arm: the views of
/// its pattern and of its expression.
pub proof fn law_arms_view(arms: Seq<MatchArm>)
    ensures
        arms_view(arms).len() == arms.len(),
        forall|i: int|
            0 <= i < arms.len() ==> #[trigger] arms_view(arms)[i] == (SpecMatchArm {
                pat: pat_view(arms[i].pat),
                expr: expr_view(arms[i].expr),
            }),
    decreases arms.len(),
{
    if arms.len() > 0 {
        law_arms_view(arms.drop_last());
    }
}

/// The view of a list of patterns has one element per pattern, its view.
pub proof fn law_pats_view(ps: Seq<Pat>)
    ensures
        pats_view(ps).len() == ps.len(),
        forall|i: int| 0 <= i < ps.len() ==> #[trigger] pats_view(ps)[i] == pat_view(ps[i]),
    decreases ps.len(),
{
    if ps.len() > 0 {
        law_pats_view(ps.drop_last());
    }
}

/// The view of a path is the text of each of its segments, in order.
pub proof fn law_path_view(p: Path)
    ensures
        p@.len() == p.segments.len(),
        forall|i: int| 0 <= i < p.segments.len() ==> #[trigger] p@[i] == p.segments[i]@,
{
}

} // verus!
