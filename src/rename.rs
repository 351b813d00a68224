//! The search is parametric in the target identifier: renaming it, in the
//! options and in the tree alike, renames the result and changes nothing else.
use vstd::prelude::*;
use crate::deps::{
    args_deps, array_pat_deps, cases_deps, class_deps, decl_deps, dynamic_text, expr_deps,
    exprs_deps, first_arg_deps, func_deps, group_deps, is_target, loop_left_deps, obj_pat_deps, obj_props_deps,
    opt_expr_deps, opt_exprs_deps, part_deps, parts_deps, pat_deps, prop_deps, props_deps,
    spans_deps, stmt_deps, var_decl_deps, var_decls_deps, Deps, group_renamed, renamed,
};
use crate::syntax::{
    ArrayPatPart, ArrowBody, AssignLeft, Class, Decl, Export, Expr, Func, FuncArg, Lit, LoopInit,
    LoopLeft, ObjPatPart, ObjProp, Part, Pat, Prop, PropKey, PropValue, Stmt, SwitchCase,
    TemplateSpan, VarDecl,
};

verus! {

broadcast use group_deps, group_renamed;

/// `b` stands where `a` stands once `w1` is renamed `w2`: either `a` is `w1`
/// and `b` is `w2`, or both are one name that is neither.
pub open spec fn ren_name(a: Seq<char>, b: Seq<char>, w1: Seq<char>, w2: Seq<char>) -> bool {
    (a == w1 && b == w2) || (a == b && a != w1 && b != w2)
}

/// Literals correspond when they are of one kind and hold the same text
/// where the search reads it.
pub open spec fn ren_lit(a: Lit, b: Lit) -> bool {
    match a {
        Lit::Null => b is Null,
        Lit::String(s) => b matches Lit::String(t) && s@ == t@,
        Lit::Number(_) => b is Number,
        Lit::Boolean(_) => b is Boolean,
        Lit::RegEx { .. } => b is RegEx,
        Lit::Template(t) => b matches Lit::Template(u) && t.head@ == u.head@ && t.spans@.len()
            == u.spans@.len(),
    }
}

pub open spec fn ren_expr(a: Expr, b: Expr, w1: Seq<char>, w2: Seq<char>) -> bool
    decreases a,
{
    match a {
        Expr::Array(x) => b matches Expr::Array(y) && ren_opt_exprs(x@, y@, w1, w2),
        Expr::ArrowFunc { params, body } => b matches Expr::ArrowFunc { params: p2, body: b2 }
            && ren_args(params@, p2@, w1, w2) && (match body {
            ArrowBody::Body(x) => b2 matches ArrowBody::Body(y) && ren_parts(x@, y@, w1, w2),
            ArrowBody::Expr(x) => b2 matches ArrowBody::Expr(y) && ren_expr(*x, *y, w1, w2),
        }),
        Expr::ArrowParamPlaceHolder(_) => b is ArrowParamPlaceHolder,
        Expr::Assign { left, right } => b matches Expr::Assign { left: l2, right: r2 } && (match left {
            AssignLeft::Pat(p) => l2 matches AssignLeft::Pat(q) && ren_pat(p, q, w1, w2),
            AssignLeft::Expr(x) => l2 matches AssignLeft::Expr(y) && ren_expr(*x, *y, w1, w2),
        }) && ren_expr(*right, *r2, w1, w2),
        Expr::Await(x) => b matches Expr::Await(y) && ren_expr(*x, *y, w1, w2),
        Expr::Binary { left, right } => b matches Expr::Binary { left: l2, right: r2 } && ren_expr(
            *left,
            *l2,
            w1,
            w2,
        ) && ren_expr(*right, *r2, w1, w2),
        Expr::Class(c) => b matches Expr::Class(d) && ren_class(c, d, w1, w2),
        Expr::Call { callee, arguments } => b matches Expr::Call { callee: c2, arguments: a2 }
            && ren_expr(*callee, *c2, w1, w2) && ren_exprs(arguments@, a2@, w1, w2),
        Expr::Conditional { test, consequent, alternate } => b matches Expr::Conditional {
            test: t2,
            consequent: c2,
            alternate: a2,
        } && ren_expr(*test, *t2, w1, w2) && ren_expr(*consequent, *c2, w1, w2) && ren_expr(
            *alternate,
            *a2,
            w1,
            w2,
        ),
        Expr::Func(f) => b matches Expr::Func(g) && ren_func(f, g, w1, w2),
        Expr::Ident(n) => b matches Expr::Ident(m) && ren_name(n@, m@, w1, w2),
        Expr::Lit(l) => b matches Expr::Lit(m) && ren_lit(l, m),
        Expr::Logical { left, right } => b matches Expr::Logical { left: l2, right: r2 }
            && ren_expr(*left, *l2, w1, w2) && ren_expr(*right, *r2, w1, w2),
        Expr::Member { object, property } => b matches Expr::Member { object: o2, property: p2 }
            && ren_expr(*object, *o2, w1, w2) && ren_expr(*property, *p2, w1, w2),
        Expr::MetaProp => b is MetaProp,
        Expr::New { callee, arguments } => b matches Expr::New { callee: c2, arguments: a2 }
            && ren_expr(*callee, *c2, w1, w2) && ren_exprs(arguments@, a2@, w1, w2),
        Expr::Obj(x) => b matches Expr::Obj(y) && ren_obj_props(x@, y@, w1, w2),
        Expr::Sequence(x) => b matches Expr::Sequence(y) && ren_exprs(x@, y@, w1, w2),
        Expr::Spread(x) => b matches Expr::Spread(y) && ren_expr(*x, *y, w1, w2),
        Expr::Super => b is Super,
        Expr::TaggedTemplate { tag, quasi } => b matches Expr::TaggedTemplate { tag: t2, quasi: q2 }
            && ren_expr(*tag, *t2, w1, w2) && ren_spans(quasi.spans@, q2.spans@, w1, w2),
        Expr::This => b is This,
        Expr::Unary(x) => b matches Expr::Unary(y) && ren_expr(*x, *y, w1, w2),
        Expr::Update(x) => b matches Expr::Update(y) && ren_expr(*x, *y, w1, w2),
        Expr::Yield(x) => b matches Expr::Yield(y) && (match x {
            Some(x) => y matches Some(y) && ren_expr(*x, *y, w1, w2),
            None => y is None,
        }),
    }
}

pub open spec fn ren_exprs(a: Seq<Expr>, b: Seq<Expr>, w1: Seq<char>, w2: Seq<char>) -> bool
    decreases a,
{
    a.len() == b.len() && (a.len() > 0 ==> ren_exprs(
        a.subrange(0, a.len() - 1),
        b.subrange(0, b.len() - 1),
        w1,
        w2,
    ) && ren_expr(a[a.len() - 1], b[b.len() - 1], w1, w2))
}

pub open spec fn ren_opt_expr(a: Option<Expr>, b: Option<Expr>, w1: Seq<char>, w2: Seq<char>) -> bool
    decreases a,
{
    match a {
        Some(x) => b matches Some(y) && ren_expr(x, y, w1, w2),
        None => b is None,
    }
}

pub open spec fn ren_opt_exprs(
    a: Seq<Option<Expr>>,
    b: Seq<Option<Expr>>,
    w1: Seq<char>,
    w2: Seq<char>,
) -> bool
    decreases a,
{
    a.len() == b.len() && (a.len() > 0 ==> ren_opt_exprs(
        a.subrange(0, a.len() - 1),
        b.subrange(0, b.len() - 1),
        w1,
        w2,
    ) && ren_opt_expr(a[a.len() - 1], b[b.len() - 1], w1, w2))
}

pub open spec fn ren_arg(a: FuncArg, b: FuncArg, w1: Seq<char>, w2: Seq<char>) -> bool
    decreases a,
{
    match a {
        FuncArg::Expr(x) => b matches FuncArg::Expr(y) && ren_expr(x, y, w1, w2),
        FuncArg::Pat(p) => b matches FuncArg::Pat(q) && ren_pat(p, q, w1, w2),
    }
}

pub open spec fn ren_args(a: Seq<FuncArg>, b: Seq<FuncArg>, w1: Seq<char>, w2: Seq<char>) -> bool
    decreases a,
{
    a.len() == b.len() && (a.len() > 0 ==> ren_args(
        a.subrange(0, a.len() - 1),
        b.subrange(0, b.len() - 1),
        w1,
        w2,
    ) && ren_arg(a[a.len() - 1], b[b.len() - 1], w1, w2))
}

pub open spec fn ren_func(a: Func, b: Func, w1: Seq<char>, w2: Seq<char>) -> bool
    decreases a,
{
    ren_args(a.params@, b.params@, w1, w2) && ren_parts(a.body@, b.body@, w1, w2)
}

pub open spec fn ren_class(a: Class, b: Class, w1: Seq<char>, w2: Seq<char>) -> bool
    decreases a,
{
    (match a.super_class {
        Some(x) => b.super_class matches Some(y) && ren_expr(*x, *y, w1, w2),
        None => b.super_class is None,
    }) && ren_props(a.body@, b.body@, w1, w2)
}

pub open spec fn ren_prop(a: Prop, b: Prop, w1: Seq<char>, w2: Seq<char>) -> bool
    decreases a,
{
    (match a.key {
        PropKey::Lit(_) => b.key is Lit,
        PropKey::Expr(x) => b.key matches PropKey::Expr(y) && ren_expr(x, y, w1, w2),
        PropKey::Pat(p) => b.key matches PropKey::Pat(q) && ren_pat(p, q, w1, w2),
    }) && (match a.value {
        PropValue::Expr(x) => b.value matches PropValue::Expr(y) && ren_expr(x, y, w1, w2),
        PropValue::Pat(p) => b.value matches PropValue::Pat(q) && ren_pat(p, q, w1, w2),
        PropValue::Absent => b.value is Absent,
    })
}

pub open spec fn ren_props(a: Seq<Prop>, b: Seq<Prop>, w1: Seq<char>, w2: Seq<char>) -> bool
    decreases a,
{
    a.len() == b.len() && (a.len() > 0 ==> ren_props(
        a.subrange(0, a.len() - 1),
        b.subrange(0, b.len() - 1),
        w1,
        w2,
    ) && ren_prop(a[a.len() - 1], b[b.len() - 1], w1, w2))
}

pub open spec fn ren_obj_prop(a: ObjProp, b: ObjProp, w1: Seq<char>, w2: Seq<char>) -> bool
    decreases a,
{
    match a {
        ObjProp::Prop(p) => b matches ObjProp::Prop(q) && ren_prop(p, q, w1, w2),
        ObjProp::Spread(x) => b matches ObjProp::Spread(y) && ren_expr(x, y, w1, w2),
    }
}

pub open spec fn ren_obj_props(
    a: Seq<ObjProp>,
    b: Seq<ObjProp>,
    w1: Seq<char>,
    w2: Seq<char>,
) -> bool
    decreases a,
{
    a.len() == b.len() && (a.len() > 0 ==> ren_obj_props(
        a.subrange(0, a.len() - 1),
        b.subrange(0, b.len() - 1),
        w1,
        w2,
    ) && ren_obj_prop(a[a.len() - 1], b[b.len() - 1], w1, w2))
}

pub open spec fn ren_spans(
    a: Seq<TemplateSpan>,
    b: Seq<TemplateSpan>,
    w1: Seq<char>,
    w2: Seq<char>,
) -> bool
    decreases a,
{
    a.len() == b.len() && (a.len() > 0 ==> ren_spans(
        a.subrange(0, a.len() - 1),
        b.subrange(0, b.len() - 1),
        w1,
        w2,
    ) && ren_expr(a[a.len() - 1].expr, b[b.len() - 1].expr, w1, w2))
}

pub open spec fn ren_pat(a: Pat, b: Pat, w1: Seq<char>, w2: Seq<char>) -> bool
    decreases a,
{
    match a {
        Pat::Ident(_) => b is Ident,
        Pat::Obj(x) => b matches Pat::Obj(y) && ren_obj_pat(x@, y@, w1, w2),
        Pat::Array(x) => b matches Pat::Array(y) && ren_array_pat(x@, y@, w1, w2),
        Pat::RestElement(p) => b matches Pat::RestElement(q) && ren_pat(*p, *q, w1, w2),
        Pat::Assign { left, right } => b matches Pat::Assign { left: l2, right: r2 } && ren_pat(
            *left,
            *l2,
            w1,
            w2,
        ) && ren_expr(*right, *r2, w1, w2),
    }
}

pub open spec fn ren_obj_pat_part(a: ObjPatPart, b: ObjPatPart, w1: Seq<char>, w2: Seq<char>) -> bool
    decreases a,
{
    match a {
        ObjPatPart::Assign(p) => b matches ObjPatPart::Assign(q) && ren_prop(p, q, w1, w2),
        ObjPatPart::Rest(p) => b matches ObjPatPart::Rest(q) && ren_pat(*p, *q, w1, w2),
    }
}

pub open spec fn ren_obj_pat(
    a: Seq<ObjPatPart>,
    b: Seq<ObjPatPart>,
    w1: Seq<char>,
    w2: Seq<char>,
) -> bool
    decreases a,
{
    a.len() == b.len() && (a.len() > 0 ==> ren_obj_pat(
        a.subrange(0, a.len() - 1),
        b.subrange(0, b.len() - 1),
        w1,
        w2,
    ) && ren_obj_pat_part(a[a.len() - 1], b[b.len() - 1], w1, w2))
}

pub open spec fn ren_array_pat_part(
    a: Option<ArrayPatPart>,
    b: Option<ArrayPatPart>,
    w1: Seq<char>,
    w2: Seq<char>,
) -> bool
    decreases a,
{
    match a {
        Some(ArrayPatPart::Pat(p)) => b matches Some(ArrayPatPart::Pat(q)) && ren_pat(p, q, w1, w2),
        Some(ArrayPatPart::Expr(x)) => b matches Some(ArrayPatPart::Expr(y)) && ren_expr(
            x,
            y,
            w1,
            w2,
        ),
        None => b is None,
    }
}

pub open spec fn ren_array_pat(
    a: Seq<Option<ArrayPatPart>>,
    b: Seq<Option<ArrayPatPart>>,
    w1: Seq<char>,
    w2: Seq<char>,
) -> bool
    decreases a,
{
    a.len() == b.len() && (a.len() > 0 ==> ren_array_pat(
        a.subrange(0, a.len() - 1),
        b.subrange(0, b.len() - 1),
        w1,
        w2,
    ) && ren_array_pat_part(a[a.len() - 1], b[b.len() - 1], w1, w2))
}

pub open spec fn ren_var_decl(a: VarDecl, b: VarDecl, w1: Seq<char>, w2: Seq<char>) -> bool
    decreases a,
{
    ren_pat(a.id, b.id, w1, w2) && ren_opt_expr(a.init, b.init, w1, w2)
}

pub open spec fn ren_var_decls(
    a: Seq<VarDecl>,
    b: Seq<VarDecl>,
    w1: Seq<char>,
    w2: Seq<char>,
) -> bool
    decreases a,
{
    a.len() == b.len() && (a.len() > 0 ==> ren_var_decls(
        a.subrange(0, a.len() - 1),
        b.subrange(0, b.len() - 1),
        w1,
        w2,
    ) && ren_var_decl(a[a.len() - 1], b[b.len() - 1], w1, w2))
}

pub open spec fn ren_decl(a: Decl, b: Decl, w1: Seq<char>, w2: Seq<char>) -> bool
    decreases a,
{
    match a {
        Decl::Var(x) => b matches Decl::Var(y) && ren_var_decls(x@, y@, w1, w2),
        Decl::Func(f) => b matches Decl::Func(g) && ren_func(f, g, w1, w2),
        Decl::Class(c) => b matches Decl::Class(d) && ren_class(c, d, w1, w2),
        Decl::Import => b is Import,
        Decl::Export(x) => b matches Decl::Export(y) && (match *x {
            Export::DefaultDecl(d) => *y matches Export::DefaultDecl(e) && ren_decl(d, e, w1, w2),
            Export::DefaultExpr(d) => *y matches Export::DefaultExpr(e) && ren_expr(d, e, w1, w2),
            Export::NamedDecl(d) => *y matches Export::NamedDecl(e) && ren_decl(d, e, w1, w2),
            Export::Specifiers => *y is Specifiers,
            Export::All => *y is All,
        }),
    }
}

pub open spec fn ren_loop_left(a: LoopLeft, b: LoopLeft, w1: Seq<char>, w2: Seq<char>) -> bool
    decreases a,
{
    match a {
        LoopLeft::Expr(x) => b matches LoopLeft::Expr(y) && ren_expr(x, y, w1, w2),
        LoopLeft::Variable(d) => b matches LoopLeft::Variable(e) && ren_var_decl(d, e, w1, w2),
        LoopLeft::Pat(p) => b matches LoopLeft::Pat(q) && ren_pat(p, q, w1, w2),
    }
}

pub open spec fn ren_stmt(a: Stmt, b: Stmt, w1: Seq<char>, w2: Seq<char>) -> bool
    decreases a,
{
    match a {
        Stmt::Expr(x) => b matches Stmt::Expr(y) && ren_expr(x, y, w1, w2),
        Stmt::Block(x) => b matches Stmt::Block(y) && ren_parts(x@, y@, w1, w2),
        Stmt::Empty => b is Empty,
        Stmt::Debugger => b is Debugger,
        Stmt::With { object, body } => b matches Stmt::With { object: o2, body: b2 } && ren_expr(
            object,
            o2,
            w1,
            w2,
        ) && ren_stmt(*body, *b2, w1, w2),
        Stmt::Return(x) => b matches Stmt::Return(y) && ren_opt_expr(x, y, w1, w2),
        Stmt::Labeled(x) => b matches Stmt::Labeled(y) && ren_stmt(*x, *y, w1, w2),
        Stmt::Break => b is Break,
        Stmt::Continue => b is Continue,
        Stmt::If { test, consequent, alternate } => b matches Stmt::If {
            test: t2,
            consequent: c2,
            alternate: a2,
        } && ren_expr(test, t2, w1, w2) && ren_stmt(*consequent, *c2, w1, w2) && (match alternate {
            Some(x) => a2 matches Some(y) && ren_stmt(*x, *y, w1, w2),
            None => a2 is None,
        }),
        Stmt::Switch { discriminant, cases } => b matches Stmt::Switch {
            discriminant: d2,
            cases: c2,
        } && ren_expr(discriminant, d2, w1, w2) && ren_cases(cases@, c2@, w1, w2),
        Stmt::Throw(x) => b matches Stmt::Throw(y) && ren_expr(x, y, w1, w2),
        Stmt::Try { block, handler, finalizer } => b matches Stmt::Try {
            block: b2,
            handler: h2,
            finalizer: f2,
        } && ren_parts(block@, b2@, w1, w2) && (match handler {
            Some(h) => h2 matches Some(g) && (match h.param {
                Some(p) => g.param matches Some(q) && ren_pat(p, q, w1, w2),
                None => g.param is None,
            }) && ren_parts(h.body@, g.body@, w1, w2),
            None => h2 is None,
        }) && (match finalizer {
            Some(f) => f2 matches Some(g) && ren_parts(f@, g@, w1, w2),
            None => f2 is None,
        }),
        Stmt::While { test, body } => b matches Stmt::While { test: t2, body: b2 } && ren_expr(
            test,
            t2,
            w1,
            w2,
        ) && ren_stmt(*body, *b2, w1, w2),
        Stmt::DoWhile { body, test } => b matches Stmt::DoWhile { body: b2, test: t2 } && ren_stmt(
            *body,
            *b2,
            w1,
            w2,
        ) && ren_expr(test, t2, w1, w2),
        Stmt::For { init, test, update, body } => b matches Stmt::For {
            init: i2,
            test: t2,
            update: u2,
            body: b2,
        } && (match init {
            Some(LoopInit::Variable(x)) => i2 matches Some(LoopInit::Variable(y)) && ren_var_decls(
                x@,
                y@,
                w1,
                w2,
            ),
            Some(LoopInit::Expr(x)) => i2 matches Some(LoopInit::Expr(y)) && ren_expr(x, y, w1, w2),
            None => i2 is None,
        }) && ren_opt_expr(test, t2, w1, w2) && ren_opt_expr(update, u2, w1, w2) && ren_stmt(
            *body,
            *b2,
            w1,
            w2,
        ),
        Stmt::ForIn { left, right, body } => b matches Stmt::ForIn { left: l2, right: r2, body: b2 }
            && ren_loop_left(left, l2, w1, w2) && ren_expr(right, r2, w1, w2) && ren_stmt(
            *body,
            *b2,
            w1,
            w2,
        ),
        Stmt::ForOf { left, right, body } => b matches Stmt::ForOf { left: l2, right: r2, body: b2 }
            && ren_loop_left(left, l2, w1, w2) && ren_expr(right, r2, w1, w2) && ren_stmt(
            *body,
            *b2,
            w1,
            w2,
        ),
        Stmt::Var(x) => b matches Stmt::Var(y) && ren_var_decls(x@, y@, w1, w2),
    }
}

pub open spec fn ren_cases(
    a: Seq<SwitchCase>,
    b: Seq<SwitchCase>,
    w1: Seq<char>,
    w2: Seq<char>,
) -> bool
    decreases a,
{
    a.len() == b.len() && (a.len() > 0 ==> ren_cases(
        a.subrange(0, a.len() - 1),
        b.subrange(0, b.len() - 1),
        w1,
        w2,
    ) && ren_opt_expr(a[a.len() - 1].test, b[b.len() - 1].test, w1, w2) && ren_parts(
        a[a.len() - 1].consequent@,
        b[b.len() - 1].consequent@,
        w1,
        w2,
    ))
}

pub open spec fn ren_part(a: Part, b: Part, w1: Seq<char>, w2: Seq<char>) -> bool
    decreases a,
{
    match a {
        Part::Dir(_) => b is Dir,
        Part::Decl(d) => b matches Part::Decl(e) && ren_decl(d, e, w1, w2),
        Part::Stmt(s) => b matches Part::Stmt(t) && ren_stmt(s, t, w1, w2),
    }
}

/// `b` is the program `a` with the identifier `w1` renamed `w2` wherever
/// the search reads a name, and with the same literal texts.
pub open spec fn ren_parts(a: Seq<Part>, b: Seq<Part>, w1: Seq<char>, w2: Seq<char>) -> bool
    decreases a,
{
    a.len() == b.len() && (a.len() > 0 ==> ren_parts(
        a.subrange(0, a.len() - 1),
        b.subrange(0, b.len() - 1),
        w1,
        w2,
    ) && ren_part(a[a.len() - 1], b[b.len() - 1], w1, w2))
}

/// A name that is `w1` becomes `w2`; any other stays as it is.
proof fn lemma_renamed_record(r: Seq<char>, w1: Seq<char>, w2: Seq<char>)
    ensures
        renamed(Deps::dynamic(r), w1, w2) == Deps::dynamic(if r == w1 { w2 } else { r }),
        renamed(Deps::named(r), w1, w2) == Deps::named(r),
{
    assert(renamed(Deps::dynamic(r), w1, w2).expressions =~= seq![if r == w1 { w2 } else { r }]);
    assert(renamed(Deps::named(r), w1, w2).expressions =~= Seq::empty());
}

proof fn lemma_ren_target(a: Expr, b: Expr, w1: Seq<char>, w2: Seq<char>)
    requires
        ren_expr(a, b, w1, w2),
    ensures
        is_target(a, w1) == is_target(b, w2),
{
    match a {
        Expr::Ident(_) => {},
        _ => {},
    }
}

proof fn lemma_ren_exprs_first(a: Seq<Expr>, b: Seq<Expr>, w1: Seq<char>, w2: Seq<char>)
    requires
        ren_exprs(a, b, w1, w2),
        a.len() > 0,
    ensures
        ren_expr(a[0], b[0], w1, w2),
    decreases a.len(),
{
    if a.len() > 1 {
        lemma_ren_exprs_first(a.subrange(0, a.len() - 1), b.subrange(0, b.len() - 1), w1, w2);
    }
}

proof fn lemma_ren_first_arg(a: Seq<Expr>, b: Seq<Expr>, w1: Seq<char>, w2: Seq<char>)
    requires
        ren_exprs(a, b, w1, w2),
        w1.len() > 0,
    ensures
        first_arg_deps(b) == renamed(first_arg_deps(a), w1, w2),
{
    if a.len() > 0 {
        lemma_ren_exprs_first(a, b, w1, w2);
        lemma_renamed_record(dynamic_text(a[0]), w1, w2);
        match a[0] {
            Expr::Lit(Lit::String(s)) => lemma_renamed_record(s@, w1, w2),
            Expr::Lit(Lit::Template(t)) => lemma_renamed_record(t.head@, w1, w2),
            _ => {},
        }
        assert(Seq::<char>::empty() != w1);
    }
}

proof fn lemma_ren_expr(a: Expr, b: Expr, w1: Seq<char>, w2: Seq<char>)
    requires
        ren_expr(a, b, w1, w2),
        w1.len() > 0,
    ensures
        expr_deps(b, w2) == renamed(expr_deps(a, w1), w1, w2),
    decreases a, 1nat,
{
    match (a, b) {
        (Expr::Array(x), Expr::Array(y)) => lemma_ren_opt_exprs(x@, y@, w1, w2),
        (Expr::ArrowFunc { params, body }, Expr::ArrowFunc { params: p2, body: b2 }) => {
            lemma_ren_args(params@, p2@, w1, w2);
            match (body, b2) {
                (ArrowBody::Body(x), ArrowBody::Body(y)) => lemma_ren_parts(x@, y@, w1, w2),
                (ArrowBody::Expr(x), ArrowBody::Expr(y)) => lemma_ren_expr(*x, *y, w1, w2),
                _ => {},
            }
        },
        (Expr::Assign { left, right }, Expr::Assign { left: l2, right: r2 }) => {
            match (left, l2) {
                (AssignLeft::Pat(p), AssignLeft::Pat(q)) => lemma_ren_pat(p, q, w1, w2),
                (AssignLeft::Expr(x), AssignLeft::Expr(y)) => lemma_ren_expr(*x, *y, w1, w2),
                _ => {},
            }
            lemma_ren_expr(*right, *r2, w1, w2);
        },
        (Expr::Await(x), Expr::Await(y)) => lemma_ren_expr(*x, *y, w1, w2),
        (Expr::Binary { left, right }, Expr::Binary { left: l2, right: r2 }) => {
            lemma_ren_expr(*left, *l2, w1, w2);
            lemma_ren_expr(*right, *r2, w1, w2);
        },
        (Expr::Class(c), Expr::Class(d)) => lemma_ren_class(c, d, w1, w2),
        (Expr::Call { callee, arguments }, Expr::Call { callee: c2, arguments: a2 }) => {
            lemma_ren_target(*callee, *c2, w1, w2);
            lemma_ren_expr(*callee, *c2, w1, w2);
            lemma_ren_exprs(arguments@, a2@, w1, w2);
            lemma_ren_first_arg(arguments@, a2@, w1, w2);
        },
        (
            Expr::Conditional { test, consequent, alternate },
            Expr::Conditional { test: t2, consequent: c2, alternate: a2 },
        ) => {
            lemma_ren_expr(*test, *t2, w1, w2);
            lemma_ren_expr(*consequent, *c2, w1, w2);
            lemma_ren_expr(*alternate, *a2, w1, w2);
        },
        (Expr::Func(f), Expr::Func(g)) => lemma_ren_func(f, g, w1, w2),
        (Expr::Logical { left, right }, Expr::Logical { left: l2, right: r2 }) => {
            lemma_ren_expr(*left, *l2, w1, w2);
            lemma_ren_expr(*right, *r2, w1, w2);
        },
        (Expr::Member { object, property }, Expr::Member { object: o2, property: p2 }) => {
            lemma_ren_expr(*object, *o2, w1, w2);
            lemma_ren_expr(*property, *p2, w1, w2);
        },
        (Expr::New { callee, arguments }, Expr::New { callee: c2, arguments: a2 }) => {
            lemma_ren_target(*callee, *c2, w1, w2);
            lemma_ren_expr(*callee, *c2, w1, w2);
            lemma_ren_exprs(arguments@, a2@, w1, w2);
            lemma_ren_first_arg(arguments@, a2@, w1, w2);
        },
        (Expr::Obj(x), Expr::Obj(y)) => lemma_ren_obj_props(x@, y@, w1, w2),
        (Expr::Sequence(x), Expr::Sequence(y)) => lemma_ren_exprs(x@, y@, w1, w2),
        (Expr::Spread(x), Expr::Spread(y)) => lemma_ren_expr(*x, *y, w1, w2),
        (Expr::TaggedTemplate { tag, quasi }, Expr::TaggedTemplate { tag: t2, quasi: q2 }) => {
            lemma_ren_expr(*tag, *t2, w1, w2);
            lemma_ren_spans(quasi.spans@, q2.spans@, w1, w2);
        },
        (Expr::Unary(x), Expr::Unary(y)) => lemma_ren_expr(*x, *y, w1, w2),
        (Expr::Update(x), Expr::Update(y)) => lemma_ren_expr(*x, *y, w1, w2),
        (Expr::Yield(Some(x)), Expr::Yield(Some(y))) => lemma_ren_expr(*x, *y, w1, w2),
        _ => {},
    }
}

proof fn lemma_ren_exprs(a: Seq<Expr>, b: Seq<Expr>, w1: Seq<char>, w2: Seq<char>)
    requires
        ren_exprs(a, b, w1, w2),
        w1.len() > 0,
    ensures
        exprs_deps(b, w2) == renamed(exprs_deps(a, w1), w1, w2),
    decreases a, 0nat,
{
    if a.len() > 0 {
        lemma_ren_exprs(a.subrange(0, a.len() - 1), b.subrange(0, b.len() - 1), w1, w2);
        lemma_ren_expr(a[a.len() - 1], b[b.len() - 1], w1, w2);
    }
}

proof fn lemma_ren_opt_expr(a: Option<Expr>, b: Option<Expr>, w1: Seq<char>, w2: Seq<char>)
    requires
        ren_opt_expr(a, b, w1, w2),
        w1.len() > 0,
    ensures
        opt_expr_deps(b, w2) == renamed(opt_expr_deps(a, w1), w1, w2),
    decreases a, 0nat,
{
    match (a, b) {
        (Some(x), Some(y)) => lemma_ren_expr(x, y, w1, w2),
        _ => {},
    }
}

proof fn lemma_ren_opt_exprs(
    a: Seq<Option<Expr>>,
    b: Seq<Option<Expr>>,
    w1: Seq<char>,
    w2: Seq<char>,
)
    requires
        ren_opt_exprs(a, b, w1, w2),
        w1.len() > 0,
    ensures
        opt_exprs_deps(b, w2) == renamed(opt_exprs_deps(a, w1), w1, w2),
    decreases a, 0nat,
{
    if a.len() > 0 {
        lemma_ren_opt_exprs(a.subrange(0, a.len() - 1), b.subrange(0, b.len() - 1), w1, w2);
        lemma_ren_opt_expr(a[a.len() - 1], b[b.len() - 1], w1, w2);
    }
}

proof fn lemma_ren_args(a: Seq<FuncArg>, b: Seq<FuncArg>, w1: Seq<char>, w2: Seq<char>)
    requires
        ren_args(a, b, w1, w2),
        w1.len() > 0,
    ensures
        args_deps(b, w2) == renamed(args_deps(a, w1), w1, w2),
    decreases a, 0nat,
{
    reveal_with_fuel(ren_args, 2);
    if a.len() > 0 {
        lemma_ren_args(a.subrange(0, a.len() - 1), b.subrange(0, b.len() - 1), w1, w2);
        match (a[a.len() - 1], b[b.len() - 1]) {
            (FuncArg::Expr(x), FuncArg::Expr(y)) => lemma_ren_expr(x, y, w1, w2),
            (FuncArg::Pat(p), FuncArg::Pat(q)) => lemma_ren_pat(p, q, w1, w2),
            _ => {},
        }
    }
}

proof fn lemma_ren_func(a: Func, b: Func, w1: Seq<char>, w2: Seq<char>)
    requires
        ren_func(a, b, w1, w2),
        w1.len() > 0,
    ensures
        func_deps(b, w2) == renamed(func_deps(a, w1), w1, w2),
    decreases a, 0nat,
{
    lemma_ren_args(a.params@, b.params@, w1, w2);
    lemma_ren_parts(a.body@, b.body@, w1, w2);
}

proof fn lemma_ren_class(a: Class, b: Class, w1: Seq<char>, w2: Seq<char>)
    requires
        ren_class(a, b, w1, w2),
        w1.len() > 0,
    ensures
        class_deps(b, w2) == renamed(class_deps(a, w1), w1, w2),
    decreases a, 0nat,
{
    match (a.super_class, b.super_class) {
        (Some(x), Some(y)) => lemma_ren_expr(*x, *y, w1, w2),
        _ => {},
    }
    lemma_ren_props(a.body@, b.body@, w1, w2);
}

proof fn lemma_ren_prop(a: Prop, b: Prop, w1: Seq<char>, w2: Seq<char>)
    requires
        ren_prop(a, b, w1, w2),
        w1.len() > 0,
    ensures
        prop_deps(b, w2) == renamed(prop_deps(a, w1), w1, w2),
    decreases a, 0nat,
{
    match (a.key, b.key) {
        (PropKey::Expr(x), PropKey::Expr(y)) => lemma_ren_expr(x, y, w1, w2),
        (PropKey::Pat(p), PropKey::Pat(q)) => lemma_ren_pat(p, q, w1, w2),
        _ => {},
    }
    match (a.value, b.value) {
        (PropValue::Expr(x), PropValue::Expr(y)) => lemma_ren_expr(x, y, w1, w2),
        (PropValue::Pat(p), PropValue::Pat(q)) => lemma_ren_pat(p, q, w1, w2),
        _ => {},
    }
}

proof fn lemma_ren_props(a: Seq<Prop>, b: Seq<Prop>, w1: Seq<char>, w2: Seq<char>)
    requires
        ren_props(a, b, w1, w2),
        w1.len() > 0,
    ensures
        props_deps(b, w2) == renamed(props_deps(a, w1), w1, w2),
    decreases a, 0nat,
{
    if a.len() > 0 {
        lemma_ren_props(a.subrange(0, a.len() - 1), b.subrange(0, b.len() - 1), w1, w2);
        lemma_ren_prop(a[a.len() - 1], b[b.len() - 1], w1, w2);
    }
}

proof fn lemma_ren_obj_props(a: Seq<ObjProp>, b: Seq<ObjProp>, w1: Seq<char>, w2: Seq<char>)
    requires
        ren_obj_props(a, b, w1, w2),
        w1.len() > 0,
    ensures
        obj_props_deps(b, w2) == renamed(obj_props_deps(a, w1), w1, w2),
    decreases a, 0nat,
{
    reveal_with_fuel(ren_obj_props, 2);
    if a.len() > 0 {
        lemma_ren_obj_props(a.subrange(0, a.len() - 1), b.subrange(0, b.len() - 1), w1, w2);
        match (a[a.len() - 1], b[b.len() - 1]) {
            (ObjProp::Prop(p), ObjProp::Prop(q)) => lemma_ren_prop(p, q, w1, w2),
            (ObjProp::Spread(x), ObjProp::Spread(y)) => lemma_ren_expr(x, y, w1, w2),
            _ => {},
        }
    }
}

proof fn lemma_ren_spans(a: Seq<TemplateSpan>, b: Seq<TemplateSpan>, w1: Seq<char>, w2: Seq<char>)
    requires
        ren_spans(a, b, w1, w2),
        w1.len() > 0,
    ensures
        spans_deps(b, w2) == renamed(spans_deps(a, w1), w1, w2),
    decreases a, 0nat,
{
    if a.len() > 0 {
        lemma_ren_spans(a.subrange(0, a.len() - 1), b.subrange(0, b.len() - 1), w1, w2);
        lemma_ren_expr(a[a.len() - 1].expr, b[b.len() - 1].expr, w1, w2);
    }
}

proof fn lemma_ren_pat(a: Pat, b: Pat, w1: Seq<char>, w2: Seq<char>)
    requires
        ren_pat(a, b, w1, w2),
        w1.len() > 0,
    ensures
        pat_deps(b, w2) == renamed(pat_deps(a, w1), w1, w2),
    decreases a, 0nat,
{
    match (a, b) {
        (Pat::Obj(x), Pat::Obj(y)) => lemma_ren_obj_pat(x@, y@, w1, w2),
        (Pat::Array(x), Pat::Array(y)) => lemma_ren_array_pat(x@, y@, w1, w2),
        (Pat::RestElement(p), Pat::RestElement(q)) => lemma_ren_pat(*p, *q, w1, w2),
        (Pat::Assign { left, right }, Pat::Assign { left: l2, right: r2 }) => {
            lemma_ren_pat(*left, *l2, w1, w2);
            lemma_ren_expr(*right, *r2, w1, w2);
        },
        _ => {},
    }
}

proof fn lemma_ren_obj_pat(a: Seq<ObjPatPart>, b: Seq<ObjPatPart>, w1: Seq<char>, w2: Seq<char>)
    requires
        ren_obj_pat(a, b, w1, w2),
        w1.len() > 0,
    ensures
        obj_pat_deps(b, w2) == renamed(obj_pat_deps(a, w1), w1, w2),
    decreases a, 0nat,
{
    reveal_with_fuel(ren_obj_pat, 2);
    if a.len() > 0 {
        lemma_ren_obj_pat(a.subrange(0, a.len() - 1), b.subrange(0, b.len() - 1), w1, w2);
        match (a[a.len() - 1], b[b.len() - 1]) {
            (ObjPatPart::Assign(p), ObjPatPart::Assign(q)) => lemma_ren_prop(p, q, w1, w2),
            (ObjPatPart::Rest(p), ObjPatPart::Rest(q)) => lemma_ren_pat(*p, *q, w1, w2),
            _ => {},
        }
    }
}

proof fn lemma_ren_array_pat(
    a: Seq<Option<ArrayPatPart>>,
    b: Seq<Option<ArrayPatPart>>,
    w1: Seq<char>,
    w2: Seq<char>,
)
    requires
        ren_array_pat(a, b, w1, w2),
        w1.len() > 0,
    ensures
        array_pat_deps(b, w2) == renamed(array_pat_deps(a, w1), w1, w2),
    decreases a, 0nat,
{
    reveal_with_fuel(ren_array_pat, 2);
    if a.len() > 0 {
        lemma_ren_array_pat(a.subrange(0, a.len() - 1), b.subrange(0, b.len() - 1), w1, w2);
        match (a[a.len() - 1], b[b.len() - 1]) {
            (Some(ArrayPatPart::Pat(p)), Some(ArrayPatPart::Pat(q))) => lemma_ren_pat(p, q, w1, w2),
            (Some(ArrayPatPart::Expr(x)), Some(ArrayPatPart::Expr(y))) => lemma_ren_expr(
                x,
                y,
                w1,
                w2,
            ),
            _ => {},
        }
    }
}

proof fn lemma_ren_var_decl(a: VarDecl, b: VarDecl, w1: Seq<char>, w2: Seq<char>)
    requires
        ren_var_decl(a, b, w1, w2),
        w1.len() > 0,
    ensures
        var_decl_deps(b, w2) == renamed(var_decl_deps(a, w1), w1, w2),
    decreases a, 0nat,
{
    lemma_ren_pat(a.id, b.id, w1, w2);
    lemma_ren_opt_expr(a.init, b.init, w1, w2);
}

proof fn lemma_ren_var_decls(a: Seq<VarDecl>, b: Seq<VarDecl>, w1: Seq<char>, w2: Seq<char>)
    requires
        ren_var_decls(a, b, w1, w2),
        w1.len() > 0,
    ensures
        var_decls_deps(b, w2) == renamed(var_decls_deps(a, w1), w1, w2),
    decreases a, 0nat,
{
    if a.len() > 0 {
        lemma_ren_var_decls(a.subrange(0, a.len() - 1), b.subrange(0, b.len() - 1), w1, w2);
        lemma_ren_var_decl(a[a.len() - 1], b[b.len() - 1], w1, w2);
    }
}

proof fn lemma_ren_decl(a: Decl, b: Decl, w1: Seq<char>, w2: Seq<char>)
    requires
        ren_decl(a, b, w1, w2),
        w1.len() > 0,
    ensures
        decl_deps(b, w2) == renamed(decl_deps(a, w1), w1, w2),
    decreases a, 0nat,
{
    match (a, b) {
        (Decl::Var(x), Decl::Var(y)) => lemma_ren_var_decls(x@, y@, w1, w2),
        (Decl::Func(f), Decl::Func(g)) => lemma_ren_func(f, g, w1, w2),
        (Decl::Class(c), Decl::Class(d)) => lemma_ren_class(c, d, w1, w2),
        (Decl::Export(x), Decl::Export(y)) => match (*x, *y) {
            (Export::DefaultDecl(d), Export::DefaultDecl(e)) => lemma_ren_decl(d, e, w1, w2),
            (Export::DefaultExpr(d), Export::DefaultExpr(e)) => lemma_ren_expr(d, e, w1, w2),
            (Export::NamedDecl(d), Export::NamedDecl(e)) => lemma_ren_decl(d, e, w1, w2),
            _ => {},
        },
        _ => {},
    }
}

proof fn lemma_ren_loop_left(a: LoopLeft, b: LoopLeft, w1: Seq<char>, w2: Seq<char>)
    requires
        ren_loop_left(a, b, w1, w2),
        w1.len() > 0,
    ensures
        loop_left_deps(b, w2) == renamed(loop_left_deps(a, w1), w1, w2),
    decreases a, 0nat,
{
    match (a, b) {
        (LoopLeft::Expr(x), LoopLeft::Expr(y)) => lemma_ren_expr(x, y, w1, w2),
        (LoopLeft::Variable(d), LoopLeft::Variable(e)) => lemma_ren_var_decl(d, e, w1, w2),
        (LoopLeft::Pat(p), LoopLeft::Pat(q)) => lemma_ren_pat(p, q, w1, w2),
        _ => {},
    }
}

proof fn lemma_ren_stmt(a: Stmt, b: Stmt, w1: Seq<char>, w2: Seq<char>)
    requires
        ren_stmt(a, b, w1, w2),
        w1.len() > 0,
    ensures
        stmt_deps(b, w2) == renamed(stmt_deps(a, w1), w1, w2),
    decreases a, 0nat,
{
    match (a, b) {
        (Stmt::Expr(x), Stmt::Expr(y)) => lemma_ren_expr(x, y, w1, w2),
        (Stmt::Block(x), Stmt::Block(y)) => lemma_ren_parts(x@, y@, w1, w2),
        (Stmt::With { object, body }, Stmt::With { object: o2, body: b2 }) => {
            lemma_ren_expr(object, o2, w1, w2);
            lemma_ren_stmt(*body, *b2, w1, w2);
        },
        (Stmt::Return(x), Stmt::Return(y)) => lemma_ren_opt_expr(x, y, w1, w2),
        (Stmt::Labeled(x), Stmt::Labeled(y)) => lemma_ren_stmt(*x, *y, w1, w2),
        (
            Stmt::If { test, consequent, alternate },
            Stmt::If { test: t2, consequent: c2, alternate: a2 },
        ) => {
            lemma_ren_expr(test, t2, w1, w2);
            lemma_ren_stmt(*consequent, *c2, w1, w2);
            match (alternate, a2) {
                (Some(x), Some(y)) => lemma_ren_stmt(*x, *y, w1, w2),
                _ => {},
            }
        },
        (Stmt::Switch { discriminant, cases }, Stmt::Switch { discriminant: d2, cases: c2 }) => {
            lemma_ren_expr(discriminant, d2, w1, w2);
            lemma_ren_cases(cases@, c2@, w1, w2);
        },
        (Stmt::Throw(x), Stmt::Throw(y)) => lemma_ren_expr(x, y, w1, w2),
        (
            Stmt::Try { block, handler, finalizer },
            Stmt::Try { block: b2, handler: h2, finalizer: f2 },
        ) => {
            lemma_ren_parts(block@, b2@, w1, w2);
            match (handler, h2) {
                (Some(h), Some(g)) => {
                    match (h.param, g.param) {
                        (Some(p), Some(q)) => lemma_ren_pat(p, q, w1, w2),
                        _ => {},
                    }
                    lemma_ren_parts(h.body@, g.body@, w1, w2);
                },
                _ => {},
            }
            match (finalizer, f2) {
                (Some(f), Some(g)) => lemma_ren_parts(f@, g@, w1, w2),
                _ => {},
            }
        },
        (Stmt::While { test, body }, Stmt::While { test: t2, body: b2 }) => {
            lemma_ren_expr(test, t2, w1, w2);
            lemma_ren_stmt(*body, *b2, w1, w2);
        },
        (Stmt::DoWhile { body, test }, Stmt::DoWhile { body: b2, test: t2 }) => {
            lemma_ren_stmt(*body, *b2, w1, w2);
            lemma_ren_expr(test, t2, w1, w2);
        },
        (
            Stmt::For { init, test, update, body },
            Stmt::For { init: i2, test: t2, update: u2, body: b2 },
        ) => {
            match (init, i2) {
                (Some(LoopInit::Variable(x)), Some(LoopInit::Variable(y))) => lemma_ren_var_decls(
                    x@,
                    y@,
                    w1,
                    w2,
                ),
                (Some(LoopInit::Expr(x)), Some(LoopInit::Expr(y))) => lemma_ren_expr(x, y, w1, w2),
                _ => {},
            }
            lemma_ren_opt_expr(test, t2, w1, w2);
            lemma_ren_opt_expr(update, u2, w1, w2);
            lemma_ren_stmt(*body, *b2, w1, w2);
        },
        (Stmt::ForIn { left, right, body }, Stmt::ForIn { left: l2, right: r2, body: b2 }) => {
            lemma_ren_loop_left(left, l2, w1, w2);
            lemma_ren_expr(right, r2, w1, w2);
            lemma_ren_stmt(*body, *b2, w1, w2);
        },
        (Stmt::ForOf { left, right, body }, Stmt::ForOf { left: l2, right: r2, body: b2 }) => {
            lemma_ren_loop_left(left, l2, w1, w2);
            lemma_ren_expr(right, r2, w1, w2);
            lemma_ren_stmt(*body, *b2, w1, w2);
        },
        (Stmt::Var(x), Stmt::Var(y)) => lemma_ren_var_decls(x@, y@, w1, w2),
        _ => {},
    }
}

proof fn lemma_ren_cases(a: Seq<SwitchCase>, b: Seq<SwitchCase>, w1: Seq<char>, w2: Seq<char>)
    requires
        ren_cases(a, b, w1, w2),
        w1.len() > 0,
    ensures
        cases_deps(b, w2) == renamed(cases_deps(a, w1), w1, w2),
    decreases a, 0nat,
{
    if a.len() > 0 {
        lemma_ren_cases(a.subrange(0, a.len() - 1), b.subrange(0, b.len() - 1), w1, w2);
        lemma_ren_opt_expr(a[a.len() - 1].test, b[b.len() - 1].test, w1, w2);
        lemma_ren_parts(a[a.len() - 1].consequent@, b[b.len() - 1].consequent@, w1, w2);
    }
}

proof fn lemma_ren_part(a: Part, b: Part, w1: Seq<char>, w2: Seq<char>)
    requires
        ren_part(a, b, w1, w2),
        w1.len() > 0,
    ensures
        part_deps(b, w2) == renamed(part_deps(a, w1), w1, w2),
    decreases a, 0nat,
{
    match (a, b) {
        (Part::Decl(d), Part::Decl(e)) => lemma_ren_decl(d, e, w1, w2),
        (Part::Stmt(s), Part::Stmt(t)) => lemma_ren_stmt(s, t, w1, w2),
        _ => {},
    }
}

proof fn lemma_ren_parts(a: Seq<Part>, b: Seq<Part>, w1: Seq<char>, w2: Seq<char>)
    requires
        ren_parts(a, b, w1, w2),
        w1.len() > 0,
    ensures
        parts_deps(b, w2) == renamed(parts_deps(a, w1), w1, w2),
    decreases a, 0nat,
{
    if a.len() > 0 {
        lemma_ren_parts(a.subrange(0, a.len() - 1), b.subrange(0, b.len() - 1), w1, w2);
        lemma_ren_part(a[a.len() - 1], b[b.len() - 1], w1, w2);
    }
}

/// Renaming the target identifier `w1` to `w2`, in the options and in the
/// program alike, gives the same names in the same order, and the same
/// dynamic records with `w1` renamed `w2`. (The one input left out is an
/// empty `w1`, which an empty record of a dynamic argument would equal.)
pub proof fn lemma_target_renamed(a: Seq<Part>, b: Seq<Part>, w1: Seq<char>, w2: Seq<char>)
    requires
        ren_parts(a, b, w1, w2),
        w1.len() > 0,
    ensures
        parts_deps(b, w2).strings == parts_deps(a, w1).strings,
        parts_deps(b, w2).expressions == parts_deps(a, w1).expressions.map_values(
            |r: Seq<char>| if r == w1 { w2 } else { r },
        ),
{
    lemma_ren_parts(a, b, w1, w2);
}

} // verus!
