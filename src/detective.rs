//! The visitor: one depth-first, left-to-right walk over a syntax tree that
//! records each call of the target identifier.
use vstd::prelude::*;
use crate::deps::{
    args_deps, array_pat_deps, cases_deps, class_deps, decl_deps, expr_deps, exprs_deps,
    first_arg_deps, func_deps, group_deps, is_target, loop_left_deps, obj_pat_deps, obj_props_deps,
    opt_expr_deps, opt_exprs_deps, part_deps, parts_deps, pat_deps, prop_deps, props_deps,
    spans_deps, stmt_deps, var_decl_deps, var_decls_deps, Deps,
};
use crate::options::{Found, Options};
use crate::syntax::{
    ArrayPatPart, ArrowBody, AssignLeft, Class, Decl, Export, Expr, Func, FuncArg, Lit, LoopInit,
    LoopLeft, ObjPatPart, ObjProp, Part, Pat, Prop, PropKey, PropValue, Stmt, SwitchCase,
    TemplateSpan, VarDecl,
};

verus! {

broadcast use group_deps;

/// Each method adds to `found` what its node holds (the `*_deps` spec
/// function of that node) and leaves `options` as it was.
pub(crate) struct Detective<'a> {
    pub(crate) options: &'a Options,
    pub(crate) found: Found,
}

impl<'a> Detective<'a> {
    pub(crate) open spec fn word(&self) -> Seq<char> {
        self.options@
    }

    pub(crate) fn new(options: &'a Options) -> (r: Self)
        ensures
            r.options == options,
            r.found@ == Deps::empty(),
    {
        Detective { options, found: Found::new() }
    }

    /// Records the first argument of a call whose callee is the target, and
    /// tells whether it was one.
    fn check(&mut self, callee: &Expr, arguments: &Vec<Expr>) -> (matched: bool)
        ensures
            matched == is_target(*callee, old(self).word()),
            final(self).options == old(self).options,
            final(self).found@ == old(self).found@.add(
                if matched {
                    first_arg_deps(arguments@)
                } else {
                    Deps::empty()
                },
            ),
    {
        if let Expr::Ident(name) = callee {
            if *name == *self.options.target() {
                if arguments.len() > 0 {
                    match &arguments[0] {
                        Expr::Lit(Lit::String(s)) => self.found.push_string(s.clone()),
                        Expr::Lit(Lit::Template(t)) => {
                            if t.spans.len() == 0 {
                                self.found.push_string(t.head.clone());
                            } else {
                                self.found.push_expression(String::new());
                            }
                        },
                        Expr::Ident(n) => self.found.push_expression(n.clone()),
                        _ => self.found.push_expression(String::new()),
                    }
                }
                return true;
            }
        }
        false
    }

    fn onexpr(&mut self, e: &Expr)
        ensures
            final(self).options == old(self).options,
            final(self).found@ == old(self).found@.add(expr_deps(*e, old(self).word())),
        decreases e,
    {
        match e {
            Expr::Array(elements) => self.onelements(elements),
            Expr::ArrowFunc { params, body } => {
                self.onparams(params);
                match body {
                    ArrowBody::Body(b) => self.onbody(b),
                    ArrowBody::Expr(x) => self.onexpr(x),
                }
            },
            Expr::Assign { left, right } => {
                match left {
                    AssignLeft::Pat(p) => self.onpat(p),
                    AssignLeft::Expr(x) => self.onexpr(x),
                }
                self.onexpr(right);
            },
            Expr::Await(x) => self.onexpr(x),
            Expr::Binary { left, right } => {
                self.onexpr(left);
                self.onexpr(right);
            },
            Expr::Class(c) => self.onclass(c),
            Expr::Call { callee, arguments } => {
                if !self.check(callee, arguments) {
                    self.onexpr(callee);
                }
                self.onexprs(arguments);
            },
            Expr::Conditional { test, consequent, alternate } => {
                self.onexpr(test);
                self.onexpr(consequent);
                self.onexpr(alternate);
            },
            Expr::Func(f) => self.onfunc(f),
            Expr::Logical { left, right } => {
                self.onexpr(left);
                self.onexpr(right);
            },
            Expr::Member { object, property } => {
                self.onexpr(object);
                self.onexpr(property);
            },
            Expr::New { callee, arguments } => {
                if !self.check(callee, arguments) {
                    self.onexpr(callee);
                }
                self.onexprs(arguments);
            },
            Expr::Obj(props) => self.onobj(props),
            Expr::Sequence(exprs) => self.onexprs(exprs),
            Expr::Spread(x) => self.onexpr(x),
            Expr::TaggedTemplate { tag, quasi } => {
                self.onexpr(tag);
                self.onspans(&quasi.spans);
            },
            Expr::Unary(x) => self.onexpr(x),
            Expr::Update(x) => self.onexpr(x),
            Expr::Yield(Some(x)) => self.onexpr(x),
            _ => {},
        }
    }

    fn onexprs(&mut self, s: &Vec<Expr>)
        ensures
            final(self).options == old(self).options,
            final(self).found@ == old(self).found@.add(exprs_deps(s@, old(self).word())),
        decreases s,
    {
        let mut i: usize = 0;
        while i < s.len()
            invariant
                i <= s.len(),
                self.options == old(self).options,
                self.found@ == old(self).found@.add(exprs_deps(s@.subrange(0, i as int), self.word())),
            decreases s.len() - i,
        {
            assert(s@.subrange(0, i + 1).subrange(0, i as int) =~= s@.subrange(0, i as int));
            self.onexpr(&s[i]);
            i += 1;
        }
        assert(s@.subrange(0, s@.len() as int) =~= s@);
    }

    fn onelements(&mut self, s: &Vec<Option<Expr>>)
        ensures
            final(self).options == old(self).options,
            final(self).found@ == old(self).found@.add(opt_exprs_deps(s@, old(self).word())),
        decreases s,
    {
        let mut i: usize = 0;
        while i < s.len()
            invariant
                i <= s.len(),
                self.options == old(self).options,
                self.found@ == old(self).found@.add(
                    opt_exprs_deps(s@.subrange(0, i as int), self.word()),
                ),
            decreases s.len() - i,
        {
            assert(s@.subrange(0, i + 1).subrange(0, i as int) =~= s@.subrange(0, i as int));
            if let Some(x) = &s[i] {
                self.onexpr(x);
            }
            i += 1;
        }
        assert(s@.subrange(0, s@.len() as int) =~= s@);
    }

    fn onparams(&mut self, s: &Vec<FuncArg>)
        ensures
            final(self).options == old(self).options,
            final(self).found@ == old(self).found@.add(args_deps(s@, old(self).word())),
        decreases s,
    {
        let mut i: usize = 0;
        while i < s.len()
            invariant
                i <= s.len(),
                self.options == old(self).options,
                self.found@ == old(self).found@.add(args_deps(s@.subrange(0, i as int), self.word())),
            decreases s.len() - i,
        {
            assert(s@.subrange(0, i + 1).subrange(0, i as int) =~= s@.subrange(0, i as int));
            match &s[i] {
                FuncArg::Expr(x) => self.onexpr(x),
                FuncArg::Pat(p) => self.onpat(p),
            }
            i += 1;
        }
        assert(s@.subrange(0, s@.len() as int) =~= s@);
    }

    fn onfunc(&mut self, f: &Func)
        ensures
            final(self).options == old(self).options,
            final(self).found@ == old(self).found@.add(func_deps(*f, old(self).word())),
        decreases f,
    {
        self.onparams(&f.params);
        self.onbody(&f.body);
    }

    fn onclass(&mut self, c: &Class)
        ensures
            final(self).options == old(self).options,
            final(self).found@ == old(self).found@.add(class_deps(*c, old(self).word())),
        decreases c,
    {
        if let Some(x) = &c.super_class {
            self.onexpr(x);
        }
        self.onprops(&c.body);
    }

    fn onprop(&mut self, p: &Prop)
        ensures
            final(self).options == old(self).options,
            final(self).found@ == old(self).found@.add(prop_deps(*p, old(self).word())),
        decreases p,
    {
        match &p.key {
            PropKey::Expr(x) => self.onexpr(x),
            PropKey::Pat(q) => self.onpat(q),
            PropKey::Lit(_) => {},
        }
        match &p.value {
            PropValue::Expr(x) => self.onexpr(x),
            PropValue::Pat(q) => self.onpat(q),
            PropValue::Absent => {},
        }
    }

    fn onprops(&mut self, s: &Vec<Prop>)
        ensures
            final(self).options == old(self).options,
            final(self).found@ == old(self).found@.add(props_deps(s@, old(self).word())),
        decreases s,
    {
        let mut i: usize = 0;
        while i < s.len()
            invariant
                i <= s.len(),
                self.options == old(self).options,
                self.found@ == old(self).found@.add(props_deps(s@.subrange(0, i as int), self.word())),
            decreases s.len() - i,
        {
            assert(s@.subrange(0, i + 1).subrange(0, i as int) =~= s@.subrange(0, i as int));
            self.onprop(&s[i]);
            i += 1;
        }
        assert(s@.subrange(0, s@.len() as int) =~= s@);
    }

    fn onobj(&mut self, s: &Vec<ObjProp>)
        ensures
            final(self).options == old(self).options,
            final(self).found@ == old(self).found@.add(obj_props_deps(s@, old(self).word())),
        decreases s,
    {
        let mut i: usize = 0;
        while i < s.len()
            invariant
                i <= s.len(),
                self.options == old(self).options,
                self.found@ == old(self).found@.add(
                    obj_props_deps(s@.subrange(0, i as int), self.word()),
                ),
            decreases s.len() - i,
        {
            assert(s@.subrange(0, i + 1).subrange(0, i as int) =~= s@.subrange(0, i as int));
            match &s[i] {
                ObjProp::Prop(p) => self.onprop(p),
                ObjProp::Spread(x) => self.onexpr(x),
            }
            i += 1;
        }
        assert(s@.subrange(0, s@.len() as int) =~= s@);
    }

    fn onspans(&mut self, s: &Vec<TemplateSpan>)
        ensures
            final(self).options == old(self).options,
            final(self).found@ == old(self).found@.add(spans_deps(s@, old(self).word())),
        decreases s,
    {
        let mut i: usize = 0;
        while i < s.len()
            invariant
                i <= s.len(),
                self.options == old(self).options,
                self.found@ == old(self).found@.add(spans_deps(s@.subrange(0, i as int), self.word())),
            decreases s.len() - i,
        {
            assert(s@.subrange(0, i + 1).subrange(0, i as int) =~= s@.subrange(0, i as int));
            self.onexpr(&s[i].expr);
            i += 1;
        }
        assert(s@.subrange(0, s@.len() as int) =~= s@);
    }

    fn onpat(&mut self, p: &Pat)
        ensures
            final(self).options == old(self).options,
            final(self).found@ == old(self).found@.add(pat_deps(*p, old(self).word())),
        decreases p,
    {
        match p {
            Pat::Obj(parts) => self.onobjpat(parts),
            Pat::Array(parts) => self.onarraypat(parts),
            Pat::RestElement(q) => self.onpat(q),
            Pat::Assign { left, right } => {
                self.onpat(left);
                self.onexpr(right);
            },
            Pat::Ident(_) => {},
        }
    }

    fn onobjpat(&mut self, s: &Vec<ObjPatPart>)
        ensures
            final(self).options == old(self).options,
            final(self).found@ == old(self).found@.add(obj_pat_deps(s@, old(self).word())),
        decreases s,
    {
        let mut i: usize = 0;
        while i < s.len()
            invariant
                i <= s.len(),
                self.options == old(self).options,
                self.found@ == old(self).found@.add(
                    obj_pat_deps(s@.subrange(0, i as int), self.word()),
                ),
            decreases s.len() - i,
        {
            assert(s@.subrange(0, i + 1).subrange(0, i as int) =~= s@.subrange(0, i as int));
            match &s[i] {
                ObjPatPart::Assign(p) => self.onprop(p),
                ObjPatPart::Rest(q) => self.onpat(q),
            }
            i += 1;
        }
        assert(s@.subrange(0, s@.len() as int) =~= s@);
    }

    fn onarraypat(&mut self, s: &Vec<Option<ArrayPatPart>>)
        ensures
            final(self).options == old(self).options,
            final(self).found@ == old(self).found@.add(array_pat_deps(s@, old(self).word())),
        decreases s,
    {
        let mut i: usize = 0;
        while i < s.len()
            invariant
                i <= s.len(),
                self.options == old(self).options,
                self.found@ == old(self).found@.add(
                    array_pat_deps(s@.subrange(0, i as int), self.word()),
                ),
            decreases s.len() - i,
        {
            assert(s@.subrange(0, i + 1).subrange(0, i as int) =~= s@.subrange(0, i as int));
            match &s[i] {
                Some(ArrayPatPart::Pat(q)) => self.onpat(q),
                Some(ArrayPatPart::Expr(x)) => self.onexpr(x),
                None => {},
            }
            i += 1;
        }
        assert(s@.subrange(0, s@.len() as int) =~= s@);
    }

    fn onvardecl(&mut self, d: &VarDecl)
        ensures
            final(self).options == old(self).options,
            final(self).found@ == old(self).found@.add(var_decl_deps(*d, old(self).word())),
        decreases d,
    {
        self.onpat(&d.id);
        if let Some(x) = &d.init {
            self.onexpr(x);
        }
    }

    fn onvar(&mut self, s: &Vec<VarDecl>)
        ensures
            final(self).options == old(self).options,
            final(self).found@ == old(self).found@.add(var_decls_deps(s@, old(self).word())),
        decreases s,
    {
        let mut i: usize = 0;
        while i < s.len()
            invariant
                i <= s.len(),
                self.options == old(self).options,
                self.found@ == old(self).found@.add(
                    var_decls_deps(s@.subrange(0, i as int), self.word()),
                ),
            decreases s.len() - i,
        {
            assert(s@.subrange(0, i + 1).subrange(0, i as int) =~= s@.subrange(0, i as int));
            self.onvardecl(&s[i]);
            i += 1;
        }
        assert(s@.subrange(0, s@.len() as int) =~= s@);
    }

    fn ondecl(&mut self, d: &Decl)
        ensures
            final(self).options == old(self).options,
            final(self).found@ == old(self).found@.add(decl_deps(*d, old(self).word())),
        decreases d,
    {
        match d {
            Decl::Var(decls) => self.onvar(decls),
            Decl::Func(f) => self.onfunc(f),
            Decl::Class(c) => self.onclass(c),
            Decl::Import => {},
            Decl::Export(x) => match &**x {
                Export::DefaultDecl(inner) => self.ondecl(inner),
                Export::DefaultExpr(e) => self.onexpr(e),
                Export::NamedDecl(inner) => self.ondecl(inner),
                Export::Specifiers => {},
                Export::All => {},
            },
        }
    }

    fn onloopleft(&mut self, l: &LoopLeft)
        ensures
            final(self).options == old(self).options,
            final(self).found@ == old(self).found@.add(loop_left_deps(*l, old(self).word())),
        decreases l,
    {
        match l {
            LoopLeft::Expr(x) => self.onexpr(x),
            LoopLeft::Variable(d) => self.onvardecl(d),
            LoopLeft::Pat(p) => self.onpat(p),
        }
    }

    fn onoptexpr(&mut self, o: &Option<Expr>)
        ensures
            final(self).options == old(self).options,
            final(self).found@ == old(self).found@.add(opt_expr_deps(*o, old(self).word())),
        decreases o,
    {
        if let Some(x) = o {
            self.onexpr(x);
        }
    }

    fn onstmt(&mut self, s: &Stmt)
        ensures
            final(self).options == old(self).options,
            final(self).found@ == old(self).found@.add(stmt_deps(*s, old(self).word())),
        decreases s,
    {
        match s {
            Stmt::Expr(x) => self.onexpr(x),
            Stmt::Block(body) => self.onbody(body),
            Stmt::With { object, body } => {
                self.onexpr(object);
                self.onstmt(body);
            },
            Stmt::Return(x) => self.onoptexpr(x),
            Stmt::Labeled(body) => self.onstmt(body),
            Stmt::If { test, consequent, alternate } => {
                self.onexpr(test);
                self.onstmt(consequent);
                if let Some(a) = alternate {
                    self.onstmt(a);
                }
            },
            Stmt::Switch { discriminant, cases } => {
                self.onexpr(discriminant);
                self.oncases(cases);
            },
            Stmt::Throw(x) => self.onexpr(x),
            Stmt::Try { block, handler, finalizer } => {
                self.onbody(block);
                if let Some(h) = handler {
                    if let Some(p) = &h.param {
                        self.onpat(p);
                    }
                    self.onbody(&h.body);
                }
                if let Some(f) = finalizer {
                    self.onbody(f);
                }
            },
            Stmt::While { test, body } => {
                self.onexpr(test);
                self.onstmt(body);
            },
            Stmt::DoWhile { body, test } => {
                self.onstmt(body);
                self.onexpr(test);
            },
            Stmt::For { init, test, update, body } => {
                match init {
                    Some(LoopInit::Variable(decls)) => self.onvar(decls),
                    Some(LoopInit::Expr(x)) => self.onexpr(x),
                    None => {},
                }
                self.onoptexpr(test);
                self.onoptexpr(update);
                self.onstmt(body);
            },
            Stmt::ForIn { left, right, body } => {
                self.onloopleft(left);
                self.onexpr(right);
                self.onstmt(body);
            },
            Stmt::ForOf { left, right, body } => {
                self.onloopleft(left);
                self.onexpr(right);
                self.onstmt(body);
            },
            Stmt::Var(decls) => self.onvar(decls),
            _ => {},
        }
    }

    fn oncases(&mut self, s: &Vec<SwitchCase>)
        ensures
            final(self).options == old(self).options,
            final(self).found@ == old(self).found@.add(cases_deps(s@, old(self).word())),
        decreases s,
    {
        let mut i: usize = 0;
        while i < s.len()
            invariant
                i <= s.len(),
                self.options == old(self).options,
                self.found@ == old(self).found@.add(cases_deps(s@.subrange(0, i as int), self.word())),
            decreases s.len() - i,
        {
            assert(s@.subrange(0, i + 1).subrange(0, i as int) =~= s@.subrange(0, i as int));
            self.onoptexpr(&s[i].test);
            self.onbody(&s[i].consequent);
            i += 1;
        }
        assert(s@.subrange(0, s@.len() as int) =~= s@);
    }

    fn onpart(&mut self, p: &Part)
        ensures
            final(self).options == old(self).options,
            final(self).found@ == old(self).found@.add(part_deps(*p, old(self).word())),
        decreases p,
    {
        match p {
            Part::Decl(d) => self.ondecl(d),
            Part::Stmt(s) => self.onstmt(s),
            Part::Dir(_) => {},
        }
    }

    pub(crate) fn onbody(&mut self, s: &Vec<Part>)
        ensures
            final(self).options == old(self).options,
            final(self).found@ == old(self).found@.add(parts_deps(s@, old(self).word())),
        decreases s,
    {
        let mut i: usize = 0;
        while i < s.len()
            invariant
                i <= s.len(),
                self.options == old(self).options,
                self.found@ == old(self).found@.add(parts_deps(s@.subrange(0, i as int), self.word())),
            decreases s.len() - i,
        {
            assert(s@.subrange(0, i + 1).subrange(0, i as int) =~= s@.subrange(0, i as int));
            self.onpart(&s[i]);
            i += 1;
        }
        assert(s@.subrange(0, s@.len() as int) =~= s@);
    }
}

} // verus!
