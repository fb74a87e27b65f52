//! Assist: add_return_type
//!
//! Adds a return type annotation to a function, the type of its tail
//! expression:
//!
//! ```text
//! fn foo() {
//!     "Hello, world"
//! }
//! ```
//! ->
//! ```text
//! fn foo() -> &'static str {
//!     "Hello, world"
//! }
//! ```

use vstd::prelude::*;

verus! {

/// A range of the source text, in bytes: `start..end`.
#[derive(Clone, Copy, Debug, PartialEq, Eq)]
pub struct TextRange {
    pub start: u32,
    pub end: u32,
}

/// What kind of change an assist makes.
#[derive(Clone, Copy, Debug, PartialEq, Eq)]
pub enum AssistKind {
    QuickFix,
    Generate,
    Refactor,
    RefactorExtract,
    RefactorInline,
    RefactorRewrite,
}

/// The identity of an assist: its name and its kind.
#[derive(Clone, Debug, PartialEq, Eq)]
pub struct AssistId {
    pub name: String,
    pub kind: AssistKind,
}

/// The insertion of `text` at `offset`.
#[derive(Clone, Debug, PartialEq, Eq)]
pub struct TextInsert {
    pub offset: u32,
    pub text: String,
}

/// An assist offered to the user: what it is called, the range it is shown
/// for, and the edit that applying it makes.
#[derive(Clone, Debug, PartialEq, Eq)]
pub struct Assist {
    pub id: AssistId,
    pub label: String,
    pub target: TextRange,
    pub edit: TextInsert,
}

/// The type inferred for an expression.
#[derive(Clone, Debug, PartialEq, Eq)]
pub enum InferredType {
    /// No type could be inferred.
    Unknown,
    /// A type was inferred, but it cannot be written in the source.
    Undisplayable,
    /// The type, as it is written in the source where the function stands.
    Source(String),
}

/// The tail expression of a function body.
#[derive(Clone, Debug, PartialEq, Eq)]
pub struct TailExpr {
    pub ty: InferredType,
}

/// The body of a function.
#[derive(Clone, Debug, PartialEq, Eq)]
pub struct FnBody {
    /// Absent where the body ends with a statement.
    pub tail_expr: Option<TailExpr>,
    /// Whether the body lies in a module that the analysis knows.
    pub in_module: bool,
}

/// The function under the cursor, as far as the assist reads it.
#[derive(Clone, Debug, PartialEq, Eq)]
pub struct FnAtCursor {
    /// Whether the function is written with a return type (`-> T`).
    pub has_ret_type: bool,
    pub body: Option<FnBody>,
    /// The range of the parameter list `(..)`.
    pub param_list: Option<TextRange>,
}

/// Where the assist was asked for.
#[derive(Clone, Debug, PartialEq, Eq)]
pub struct AssistContext {
    /// The function that covers the cursor, if any.
    pub fn_at_offset: Option<FnAtCursor>,
}

pub struct SpecAssist {
    pub id: Seq<char>,
    pub kind: AssistKind,
    pub label: Seq<char>,
    pub target: TextRange,
    pub insert_offset: u32,
    pub insert_text: Seq<char>,
}

impl View for Assist {
    type V = SpecAssist;

    open spec fn view(&self) -> SpecAssist {
        SpecAssist {
            id: self.id.name@,
            kind: self.id.kind,
            label: self.label@,
            target: self.target,
            insert_offset: self.edit.offset,
            insert_text: self.edit.text@,
        }
    }
}

/// The return type to add to `f`: the type of its tail expression, where
/// `f` has a body that ends with an expression, a parameter list, no return
/// type, and the type can be written in the source.
pub open spec fn added_return_type(f: FnAtCursor) -> Option<Seq<char>> {
    match f.body {
        Some(body) => match body.tail_expr {
            Some(tail) => match tail.ty {
                InferredType::Source(ty) => if f.param_list is Some && body.in_module
                    && !f.has_ret_type {
                    Some(ty@)
                } else {
                    None
                },
                _ => None,
            },
            None => None,
        },
        None => None,
    }
}

/// The assist that adds the return type `ty` to a function whose parameter
/// list spans `param_list`: it inserts ` -> ty` right after the list.
pub open spec fn return_type_assist(param_list: TextRange, ty: Seq<char>) -> SpecAssist {
    SpecAssist {
        id: "add_return_type"@,
        kind: AssistKind::QuickFix,
        label: "Add a return type"@,
        target: param_list,
        insert_offset: param_list.end,
        insert_text: " -> "@ + ty,
    }
}

/// Offers to add the type of the tail expression of the function under the
/// cursor as its return type. Returns `Some(())` when the assist was added
/// to `acc`; `None` when it does not apply, leaving `acc` unchanged.
pub fn add_return_type(acc: &mut Vec<Assist>, ctx: &AssistContext) -> (res: Option<()>)
    ensures
        res is Some <==> (ctx.fn_at_offset matches Some(f) && added_return_type(f) is Some),
        res is Some ==> {
            let f = ctx.fn_at_offset.unwrap();
            &&& final(acc)@.len() == old(acc)@.len() + 1
            &&& final(acc)@.drop_last() == old(acc)@
            &&& final(acc)@.last()@ == return_type_assist(
                f.param_list.unwrap(),
                added_return_type(f).unwrap(),
            )
        },
        res is None ==> final(acc)@ == old(acc)@,
{
    let fun = match &ctx.fn_at_offset {
        Some(fun) => fun,
        None => return None,
    };
    let has_ret_type = fun.has_ret_type;
    let body = match &fun.body {
        Some(body) => body,
        None => return None,
    };
    let expr = match &body.tail_expr {
        Some(expr) => expr,
        None => return None,
    };
    let param_list = match fun.param_list {
        Some(range) => range,
        None => return None,
    };
    if !body.in_module {
        return None;
    }
    if let InferredType::Unknown = expr.ty {
        return None;
    }
    if has_ret_type {
        return None;
    }
    let inferred_type = match &expr.ty {
        InferredType::Source(ty) => ty,
        _ => return None,
    };
    let mut insert = " -> ".to_owned();
    insert.append(inferred_type.as_str());
    let assist = Assist {
        id: AssistId { name: "add_return_type".to_owned(), kind: AssistKind::QuickFix },
        label: "Add a return type".to_owned(),
        target: param_list,
        edit: TextInsert { offset: param_list.end, text: insert },
    };
    acc.push(assist);
    assert(acc@.drop_last() =~= old(acc)@);
    Some(())
}

/// The assist is never offered for a function that already has a return
/// type, nor for one without a tail expression.
pub proof fn lemma_not_offered_twice(f: FnAtCursor)
    requires
        f.has_ret_type || (f.body matches Some(b) && b.tail_expr is None),
    ensures
        added_return_type(f) is None,
{
}

/// The assist is shown for the parameter list, and its edit inserts
/// ` -> Type` right where the parameter list ends, deleting nothing.
pub proof fn lemma_inserts_after_param_list(param_list: TextRange, ty: Seq<char>)
    ensures
        return_type_assist(param_list, ty).target == param_list,
        return_type_assist(param_list, ty).insert_offset == param_list.end,
        return_type_assist(param_list, ty).insert_text == " -> "@ + ty,
        return_type_assist(param_list, ty).id == "add_return_type"@,
        return_type_assist(param_list, ty).kind == AssistKind::QuickFix,
        return_type_assist(param_list, ty).label == "Add a return type"@,
{
}

/// The assist is offered exactly for a function with a parameter list
/// (wherever it stands and whatever it holds), no return type, and a body
/// that lies in a module and ends with an expression whose type can be
/// written; the type added is that expression's type.
pub proof fn law_when_offered(f: FnAtCursor)
    ensures
        added_return_type(f) is Some <==> {
            &&& f.param_list is Some
            &&& !f.has_ret_type
            &&& f.body matches Some(b)
            &&& b.in_module
            &&& b.tail_expr matches Some(t)
            &&& t.ty is Source
        },
        added_return_type(f) is Some ==> added_return_type(f).unwrap()
            == f.body.unwrap().tail_expr.unwrap().ty->Source_0@,
{
}

} // verus!
