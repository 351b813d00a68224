//! The syntax tree that the visitor walks.
//!
//! It keeps, of each ECMAScript node shape, the children that can hold a
//! call: sub-expressions, patterns, statement lists. Literal text is kept
//! where a dependency name can come from (string literals and template
//! chunks) and identifier names where a callee is compared with the target.
use vstd::prelude::*;

verus! {

/// One item of a program, a function body or a block.
#[derive(Debug)]
pub enum Part {
    /// A directive such as `'use strict'`, with its text.
    Dir(String),
    Decl(Decl),
    Stmt(Stmt),
}

#[derive(Debug)]
pub enum Decl {
    Var(Vec<VarDecl>),
    Func(Func),
    Class(Class),
    Import,
    Export(Box<Export>),
}

#[derive(Debug)]
pub enum Export {
    /// `export default function () {}` and the like.
    DefaultDecl(Decl),
    /// `export default <expr>`.
    DefaultExpr(Expr),
    /// `export const a = ...` and the like.
    NamedDecl(Decl),
    /// `export { a, b }`, with or without a source.
    Specifiers,
    /// `export * from '...'`.
    All,
}

/// One declarator of a `var`, `let` or `const` list.
#[derive(Debug)]
pub struct VarDecl {
    pub id: Pat,
    pub init: Option<Expr>,
}

#[derive(Debug)]
pub struct Func {
    pub params: Vec<FuncArg>,
    pub body: Vec<Part>,
}

#[derive(Debug)]
pub enum FuncArg {
    Expr(Expr),
    Pat(Pat),
}

#[derive(Debug)]
pub struct Class {
    pub super_class: Option<Box<Expr>>,
    pub body: Vec<Prop>,
}

/// A property of an object literal or pattern, or a member of a class body.
#[derive(Debug)]
pub struct Prop {
    pub key: PropKey,
    pub value: PropValue,
}

#[derive(Debug)]
pub enum PropKey {
    Lit(Lit),
    Expr(Expr),
    Pat(Pat),
}

#[derive(Debug)]
pub enum PropValue {
    Expr(Expr),
    Pat(Pat),
    Absent,
}

#[derive(Debug)]
pub enum Lit {
    Null,
    /// A string literal, with its decoded text.
    String(String),
    Number(String),
    Boolean(bool),
    RegEx { pattern: String, flags: String },
    Template(Template),
}

/// A template literal: a first chunk, then each interpolated expression
/// with the chunk that follows it. The texts are the cooked chunks.
#[derive(Debug)]
pub struct Template {
    pub head: String,
    pub spans: Vec<TemplateSpan>,
}

#[derive(Debug)]
pub struct TemplateSpan {
    pub expr: Expr,
    pub text: String,
}

#[derive(Debug)]
#[allow(inconsistent_fields)]
pub enum Expr {
    /// Array literal; `None` is a hole (`[, x]`).
    Array(Vec<Option<Expr>>),
    ArrowFunc { params: Vec<FuncArg>, body: ArrowBody },
    /// The parser's stand-in for a parenthesised list before `=>`.
    ArrowParamPlaceHolder(Vec<FuncArg>),
    Assign { left: AssignLeft, right: Box<Expr> },
    Await(Box<Expr>),
    Binary { left: Box<Expr>, right: Box<Expr> },
    Class(Class),
    Call { callee: Box<Expr>, arguments: Vec<Expr> },
    Conditional { test: Box<Expr>, consequent: Box<Expr>, alternate: Box<Expr> },
    Func(Func),
    Ident(String),
    Lit(Lit),
    Logical { left: Box<Expr>, right: Box<Expr> },
    Member { object: Box<Expr>, property: Box<Expr> },
    /// `new.target` and the like.
    MetaProp,
    New { callee: Box<Expr>, arguments: Vec<Expr> },
    Obj(Vec<ObjProp>),
    Sequence(Vec<Expr>),
    Spread(Box<Expr>),
    Super,
    TaggedTemplate { tag: Box<Expr>, quasi: Template },
    This,
    Unary(Box<Expr>),
    Update(Box<Expr>),
    Yield(Option<Box<Expr>>),
}

#[derive(Debug)]
pub enum ArrowBody {
    Body(Vec<Part>),
    Expr(Box<Expr>),
}

#[derive(Debug)]
pub enum AssignLeft {
    Pat(Pat),
    Expr(Box<Expr>),
}

#[derive(Debug)]
pub enum ObjProp {
    Prop(Prop),
    Spread(Expr),
}

#[derive(Debug)]
pub enum Pat {
    Ident(String),
    Obj(Vec<ObjPatPart>),
    /// Array pattern; `None` is a hole.
    Array(Vec<Option<ArrayPatPart>>),
    RestElement(Box<Pat>),
    Assign { left: Box<Pat>, right: Box<Expr> },
}

#[derive(Debug)]
pub enum ObjPatPart {
    Assign(Prop),
    Rest(Box<Pat>),
}

#[derive(Debug)]
pub enum ArrayPatPart {
    Pat(Pat),
    Expr(Expr),
}

#[derive(Debug)]
#[allow(inconsistent_fields)]
pub enum Stmt {
    Expr(Expr),
    Block(Vec<Part>),
    Empty,
    Debugger,
    With { object: Expr, body: Box<Stmt> },
    Return(Option<Expr>),
    Labeled(Box<Stmt>),
    Break,
    Continue,
    If { test: Expr, consequent: Box<Stmt>, alternate: Option<Box<Stmt>> },
    Switch { discriminant: Expr, cases: Vec<SwitchCase> },
    Throw(Expr),
    Try { block: Vec<Part>, handler: Option<CatchClause>, finalizer: Option<Vec<Part>> },
    While { test: Expr, body: Box<Stmt> },
    DoWhile { body: Box<Stmt>, test: Expr },
    For { init: Option<LoopInit>, test: Option<Expr>, update: Option<Expr>, body: Box<Stmt> },
    ForIn { left: LoopLeft, right: Expr, body: Box<Stmt> },
    /// `for (... of ...)`, the `for await` form included.
    ForOf { left: LoopLeft, right: Expr, body: Box<Stmt> },
    Var(Vec<VarDecl>),
}

#[derive(Debug)]
pub struct SwitchCase {
    /// `None` for `default:`.
    pub test: Option<Expr>,
    pub consequent: Vec<Part>,
}

#[derive(Debug)]
pub struct CatchClause {
    pub param: Option<Pat>,
    pub body: Vec<Part>,
}

#[derive(Debug)]
pub enum LoopInit {
    Variable(Vec<VarDecl>),
    Expr(Expr),
}

/// The left side of `for-in` / `for-of`.
#[derive(Debug)]
pub enum LoopLeft {
    Expr(Expr),
    Variable(VarDecl),
    Pat(Pat),
}

} // verus!
