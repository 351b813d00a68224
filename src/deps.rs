//! What a traversal finds, stated over the syntax tree.
//!
//! Each node shape has a spec function that gives the dependencies found in
//! it, in depth-first, left-to-right order. The visitor in `detective` is
//! proved to produce exactly these.
use vstd::prelude::*;
use crate::syntax::{
    ArrayPatPart, ArrowBody, AssignLeft, Class, Decl, Export, Expr, Func, FuncArg, Lit, LoopInit,
    LoopLeft, ObjPatPart, ObjProp, Part, Pat, Prop, PropKey, PropValue, Stmt, SwitchCase, TemplateSpan,
    VarDecl,
};

verus! {

/// The two ordered lists of a result: resolved names and dynamic records.
pub ghost struct Deps {
    pub strings: Seq<Seq<char>>,
    pub expressions: Seq<Seq<char>>,
}

impl Deps {
    pub open spec fn empty() -> Deps {
        Deps { strings: Seq::empty(), expressions: Seq::empty() }
    }

    pub open spec fn named(s: Seq<char>) -> Deps {
        Deps { strings: seq![s], expressions: Seq::empty() }
    }

    pub open spec fn dynamic(s: Seq<char>) -> Deps {
        Deps { strings: Seq::empty(), expressions: seq![s] }
    }

    /// The results of `self` followed by those of `o`.
    pub open spec fn add(self, o: Deps) -> Deps {
        Deps { strings: self.strings + o.strings, expressions: self.expressions + o.expressions }
    }
}

pub broadcast proof fn lemma_add_assoc(a: Deps, b: Deps, c: Deps)
    ensures
        #[trigger] a.add(b).add(c) == a.add(b.add(c)),
{
    assert(a.strings + b.strings + c.strings =~= a.strings + (b.strings + c.strings));
    assert(a.expressions + b.expressions + c.expressions =~= a.expressions + (b.expressions
        + c.expressions));
}

pub broadcast proof fn lemma_add_empty(a: Deps)
    ensures
        #[trigger] a.add(Deps::empty()) == a,
        #[trigger] Deps::empty().add(a) == a,
{
    assert(a.strings + Seq::empty() =~= a.strings);
    assert(a.expressions + Seq::empty() =~= a.expressions);
    assert(Seq::empty() + a.strings =~= a.strings);
    assert(Seq::empty() + a.expressions =~= a.expressions);
}

pub broadcast group group_deps {
    lemma_add_assoc,
    lemma_add_empty,
}

/// A result with each record `w1` renamed `w2`.
pub open spec fn renamed(d: Deps, w1: Seq<char>, w2: Seq<char>) -> Deps {
    Deps {
        strings: d.strings,
        expressions: d.expressions.map_values(|r: Seq<char>| if r == w1 { w2 } else { r }),
    }
}

pub broadcast proof fn lemma_renamed_add(x: Deps, y: Deps, w1: Seq<char>, w2: Seq<char>)
    ensures
        #[trigger] renamed(x.add(y), w1, w2) == renamed(x, w1, w2).add(renamed(y, w1, w2)),
{
    assert(renamed(x.add(y), w1, w2).expressions =~= renamed(x, w1, w2).expressions + renamed(
        y,
        w1,
        w2,
    ).expressions);
}

pub broadcast proof fn lemma_renamed_empty(w1: Seq<char>, w2: Seq<char>)
    ensures
        #[trigger] renamed(Deps::empty(), w1, w2) == Deps::empty(),
{
    assert(renamed(Deps::empty(), w1, w2).expressions =~= Seq::empty());
}

pub broadcast group group_renamed {
    lemma_renamed_add,
    lemma_renamed_empty,
}

/// `w` occurs in `s` as a run of consecutive characters.
pub open spec fn contains(s: Seq<char>, w: Seq<char>) -> bool {
    exists|i: int| 0 <= i && i + w.len() <= s.len() && #[trigger] s.subrange(i, i + w.len()) == w
}

/// A callee is the target when it is a bare identifier named `w`.
pub open spec fn is_target(callee: Expr, w: Seq<char>) -> bool {
    callee matches Expr::Ident(name) && name@ == w
}

/// What is recorded of a dynamic argument: the tree keeps no source text,
/// so an identifier gives its name and any other shape an empty record.
pub open spec fn dynamic_text(e: Expr) -> Seq<char> {
    match e {
        Expr::Ident(name) => name@,
        _ => Seq::empty(),
    }
}

/// What a matched call records for its first argument, if it has one.
pub open spec fn first_arg_deps(arguments: Seq<Expr>) -> Deps {
    if arguments.len() == 0 {
        Deps::empty()
    } else {
        match arguments[0] {
            Expr::Lit(Lit::String(s)) => Deps::named(s@),
            Expr::Lit(Lit::Template(t)) => if t.spans@.len() == 0 {
                Deps::named(t.head@)
            } else {
                Deps::dynamic(Seq::empty())
            },
            e => Deps::dynamic(dynamic_text(e)),
        }
    }
}

pub open spec fn expr_deps(e: Expr, w: Seq<char>) -> Deps
    decreases e,
{
    match e {
        Expr::Array(elements) => opt_exprs_deps(elements@, w),
        Expr::ArrowFunc { params, body } => args_deps(params@, w).add(
            match body {
                ArrowBody::Body(b) => parts_deps(b@, w),
                ArrowBody::Expr(x) => expr_deps(*x, w),
            },
        ),
        Expr::Assign { left, right } => match left {
            AssignLeft::Pat(p) => pat_deps(p, w),
            AssignLeft::Expr(x) => expr_deps(*x, w),
        }.add(expr_deps(*right, w)),
        Expr::Await(x) => expr_deps(*x, w),
        Expr::Binary { left, right } => expr_deps(*left, w).add(expr_deps(*right, w)),
        Expr::Class(c) => class_deps(c, w),
        // A matched call records its first argument and visits its arguments;
        // any other call visits its callee, then its arguments. So does `new`.
        Expr::Call { callee, arguments } => if is_target(*callee, w) {
            first_arg_deps(arguments@).add(exprs_deps(arguments@, w))
        } else {
            expr_deps(*callee, w).add(exprs_deps(arguments@, w))
        },
        Expr::Conditional { test, consequent, alternate } => expr_deps(*test, w).add(
            expr_deps(*consequent, w),
        ).add(expr_deps(*alternate, w)),
        Expr::Func(f) => func_deps(f, w),
        Expr::Logical { left, right } => expr_deps(*left, w).add(expr_deps(*right, w)),
        Expr::Member { object, property } => expr_deps(*object, w).add(expr_deps(*property, w)),
        Expr::New { callee, arguments } => if is_target(*callee, w) {
            first_arg_deps(arguments@).add(exprs_deps(arguments@, w))
        } else {
            expr_deps(*callee, w).add(exprs_deps(arguments@, w))
        },
        Expr::Obj(props) => obj_props_deps(props@, w),
        Expr::Sequence(exprs) => exprs_deps(exprs@, w),
        Expr::Spread(x) => expr_deps(*x, w),
        Expr::TaggedTemplate { tag, quasi } => expr_deps(*tag, w).add(spans_deps(quasi.spans@, w)),
        Expr::Unary(x) => expr_deps(*x, w),
        Expr::Update(x) => expr_deps(*x, w),
        Expr::Yield(Some(x)) => expr_deps(*x, w),
        _ => Deps::empty(),
    }
}

pub open spec fn exprs_deps(s: Seq<Expr>, w: Seq<char>) -> Deps
    decreases s,
{
    if s.len() == 0 {
        Deps::empty()
    } else {
        exprs_deps(s.subrange(0, s.len() - 1), w).add(expr_deps(s[s.len() - 1], w))
    }
}

/// Array elements; holes hold nothing.
pub open spec fn opt_exprs_deps(s: Seq<Option<Expr>>, w: Seq<char>) -> Deps
    decreases s,
{
    if s.len() == 0 {
        Deps::empty()
    } else {
        opt_exprs_deps(s.subrange(0, s.len() - 1), w).add(
            match s[s.len() - 1] {
                Some(x) => expr_deps(x, w),
                None => Deps::empty(),
            },
        )
    }
}

pub open spec fn args_deps(s: Seq<FuncArg>, w: Seq<char>) -> Deps
    decreases s,
{
    if s.len() == 0 {
        Deps::empty()
    } else {
        args_deps(s.subrange(0, s.len() - 1), w).add(
            match s[s.len() - 1] {
                FuncArg::Expr(x) => expr_deps(x, w),
                FuncArg::Pat(p) => pat_deps(p, w),
            },
        )
    }
}

pub open spec fn func_deps(f: Func, w: Seq<char>) -> Deps
    decreases f,
{
    args_deps(f.params@, w).add(parts_deps(f.body@, w))
}

pub open spec fn class_deps(c: Class, w: Seq<char>) -> Deps
    decreases c,
{
    match c.super_class {
        Some(x) => expr_deps(*x, w),
        None => Deps::empty(),
    }.add(props_deps(c.body@, w))
}

/// A property: its key, then its value; a literal key holds nothing.
pub open spec fn prop_deps(p: Prop, w: Seq<char>) -> Deps
    decreases p,
{
    match p.key {
        PropKey::Expr(x) => expr_deps(x, w),
        PropKey::Pat(q) => pat_deps(q, w),
        PropKey::Lit(_) => Deps::empty(),
    }.add(
        match p.value {
            PropValue::Expr(x) => expr_deps(x, w),
            PropValue::Pat(q) => pat_deps(q, w),
            PropValue::Absent => Deps::empty(),
        },
    )
}

pub open spec fn props_deps(s: Seq<Prop>, w: Seq<char>) -> Deps
    decreases s,
{
    if s.len() == 0 {
        Deps::empty()
    } else {
        props_deps(s.subrange(0, s.len() - 1), w).add(prop_deps(s[s.len() - 1], w))
    }
}

pub open spec fn obj_props_deps(s: Seq<ObjProp>, w: Seq<char>) -> Deps
    decreases s,
{
    if s.len() == 0 {
        Deps::empty()
    } else {
        obj_props_deps(s.subrange(0, s.len() - 1), w).add(
            match s[s.len() - 1] {
                ObjProp::Prop(p) => prop_deps(p, w),
                ObjProp::Spread(x) => expr_deps(x, w),
            },
        )
    }
}

/// The interpolated expressions of a template, never its chunks.
pub open spec fn spans_deps(s: Seq<TemplateSpan>, w: Seq<char>) -> Deps
    decreases s,
{
    if s.len() == 0 {
        Deps::empty()
    } else {
        spans_deps(s.subrange(0, s.len() - 1), w).add(expr_deps(s[s.len() - 1].expr, w))
    }
}

pub open spec fn pat_deps(p: Pat, w: Seq<char>) -> Deps
    decreases p,
{
    match p {
        Pat::Obj(parts) => obj_pat_deps(parts@, w),
        Pat::Array(parts) => array_pat_deps(parts@, w),
        Pat::RestElement(q) => pat_deps(*q, w),
        Pat::Assign { left, right } => pat_deps(*left, w).add(expr_deps(*right, w)),
        Pat::Ident(_) => Deps::empty(),
    }
}

pub open spec fn obj_pat_deps(s: Seq<ObjPatPart>, w: Seq<char>) -> Deps
    decreases s,
{
    if s.len() == 0 {
        Deps::empty()
    } else {
        obj_pat_deps(s.subrange(0, s.len() - 1), w).add(
            match s[s.len() - 1] {
                ObjPatPart::Assign(p) => prop_deps(p, w),
                ObjPatPart::Rest(q) => pat_deps(*q, w),
            },
        )
    }
}

pub open spec fn array_pat_deps(s: Seq<Option<ArrayPatPart>>, w: Seq<char>) -> Deps
    decreases s,
{
    if s.len() == 0 {
        Deps::empty()
    } else {
        array_pat_deps(s.subrange(0, s.len() - 1), w).add(
            match s[s.len() - 1] {
                Some(ArrayPatPart::Pat(q)) => pat_deps(q, w),
                Some(ArrayPatPart::Expr(x)) => expr_deps(x, w),
                None => Deps::empty(),
            },
        )
    }
}

/// A declarator: its pattern, then its initializer.
pub open spec fn var_decl_deps(d: VarDecl, w: Seq<char>) -> Deps
    decreases d,
{
    pat_deps(d.id, w).add(
        match d.init {
            Some(x) => expr_deps(x, w),
            None => Deps::empty(),
        },
    )
}

pub open spec fn var_decls_deps(s: Seq<VarDecl>, w: Seq<char>) -> Deps
    decreases s,
{
    if s.len() == 0 {
        Deps::empty()
    } else {
        var_decls_deps(s.subrange(0, s.len() - 1), w).add(var_decl_deps(s[s.len() - 1], w))
    }
}

/// Imports, and exports of names only, hold nothing.
pub open spec fn decl_deps(d: Decl, w: Seq<char>) -> Deps
    decreases d,
{
    match d {
        Decl::Var(decls) => var_decls_deps(decls@, w),
        Decl::Func(f) => func_deps(f, w),
        Decl::Class(c) => class_deps(c, w),
        Decl::Import => Deps::empty(),
        Decl::Export(x) => match *x {
            Export::DefaultDecl(inner) => decl_deps(inner, w),
            Export::DefaultExpr(e) => expr_deps(e, w),
            Export::NamedDecl(inner) => decl_deps(inner, w),
            Export::Specifiers => Deps::empty(),
            Export::All => Deps::empty(),
        },
    }
}

pub open spec fn loop_left_deps(l: LoopLeft, w: Seq<char>) -> Deps
    decreases l,
{
    match l {
        LoopLeft::Expr(x) => expr_deps(x, w),
        LoopLeft::Variable(d) => var_decl_deps(d, w),
        LoopLeft::Pat(p) => pat_deps(p, w),
    }
}

pub open spec fn opt_expr_deps(o: Option<Expr>, w: Seq<char>) -> Deps
    decreases o,
{
    match o {
        Some(x) => expr_deps(x, w),
        None => Deps::empty(),
    }
}

/// Statements that hold no expression (`break`, `continue`, `debugger`,
/// the empty statement, a bare `return`) hold nothing.
pub open spec fn stmt_deps(s: Stmt, w: Seq<char>) -> Deps
    decreases s,
{
    match s {
        Stmt::Expr(x) => expr_deps(x, w),
        Stmt::Block(body) => parts_deps(body@, w),
        Stmt::With { object, body } => expr_deps(object, w).add(stmt_deps(*body, w)),
        Stmt::Return(x) => opt_expr_deps(x, w),
        Stmt::Labeled(body) => stmt_deps(*body, w),
        Stmt::If { test, consequent, alternate } => expr_deps(test, w).add(
            stmt_deps(*consequent, w),
        ).add(
            match alternate {
                Some(a) => stmt_deps(*a, w),
                None => Deps::empty(),
            },
        ),
        Stmt::Switch { discriminant, cases } => expr_deps(discriminant, w).add(
            cases_deps(cases@, w),
        ),
        Stmt::Throw(x) => expr_deps(x, w),
        Stmt::Try { block, handler, finalizer } => parts_deps(block@, w).add(
            match handler {
                Some(h) => match h.param {
                    Some(p) => pat_deps(p, w),
                    None => Deps::empty(),
                }.add(parts_deps(h.body@, w)),
                None => Deps::empty(),
            },
        ).add(
            match finalizer {
                Some(f) => parts_deps(f@, w),
                None => Deps::empty(),
            },
        ),
        Stmt::While { test, body } => expr_deps(test, w).add(stmt_deps(*body, w)),
        Stmt::DoWhile { body, test } => stmt_deps(*body, w).add(expr_deps(test, w)),
        Stmt::For { init, test, update, body } => match init {
            Some(LoopInit::Variable(decls)) => var_decls_deps(decls@, w),
            Some(LoopInit::Expr(x)) => expr_deps(x, w),
            None => Deps::empty(),
        }.add(opt_expr_deps(test, w)).add(opt_expr_deps(update, w)).add(stmt_deps(*body, w)),
        Stmt::ForIn { left, right, body } => loop_left_deps(left, w).add(expr_deps(right, w)).add(
            stmt_deps(*body, w),
        ),
        Stmt::ForOf { left, right, body } => loop_left_deps(left, w).add(expr_deps(right, w)).add(
            stmt_deps(*body, w),
        ),
        Stmt::Var(decls) => var_decls_deps(decls@, w),
        _ => Deps::empty(),
    }
}

/// A switch case: its test, if any, then its statements.
pub open spec fn cases_deps(s: Seq<SwitchCase>, w: Seq<char>) -> Deps
    decreases s,
{
    if s.len() == 0 {
        Deps::empty()
    } else {
        cases_deps(s.subrange(0, s.len() - 1), w).add(
            opt_expr_deps(s[s.len() - 1].test, w).add(parts_deps(s[s.len() - 1].consequent@, w)),
        )
    }
}

/// Directives hold nothing.
pub open spec fn part_deps(p: Part, w: Seq<char>) -> Deps
    decreases p,
{
    match p {
        Part::Decl(d) => decl_deps(d, w),
        Part::Stmt(s) => stmt_deps(s, w),
        Part::Dir(_) => Deps::empty(),
    }
}

/// The dependencies of a list of program parts, in order.
pub open spec fn parts_deps(s: Seq<Part>, w: Seq<char>) -> Deps
    decreases s,
{
    if s.len() == 0 {
        Deps::empty()
    } else {
        parts_deps(s.subrange(0, s.len() - 1), w).add(part_deps(s[s.len() - 1], w))
    }
}

} // verus!
