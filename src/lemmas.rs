//! Laws of the traversal, proved over the spec functions of `deps`.
use vstd::prelude::*;
use crate::deps::{
    expr_deps, exprs_deps, first_arg_deps, group_deps, is_target, parts_deps, Deps,
};
use crate::syntax::{Expr, Lit, Part};

verus! {

broadcast use group_deps;

/// A matched call records its first argument in exactly one of the two
/// lists, and records nothing only when it has no argument.
pub proof fn lemma_matched_call_records_once(arguments: Seq<Expr>)
    ensures
        first_arg_deps(arguments).strings.len() + first_arg_deps(arguments).expressions.len() == if arguments.len() == 0 {
            0int
        } else {
            1int
        },
{
}

/// A call whose callee is an identifier other than the target is not
/// matched: it adds nothing of its own, and what it holds is what its
/// arguments hold.
pub proof fn lemma_other_identifier_not_matched(name: String, arguments: Vec<Expr>, w: Seq<char>)
    requires
        name@ != w,
    ensures
        expr_deps(Expr::Call { callee: Box::new(Expr::Ident(name)), arguments }, w)
            == exprs_deps(arguments@, w),
{
    reveal_with_fuel(expr_deps, 2);
}

/// Whatever the target identifier `w` is, a call of an identifier named
/// `w` is matched: it records its first argument, then visits its arguments.
pub proof fn lemma_target_call_matched(name: String, arguments: Vec<Expr>, w: Seq<char>)
    requires
        name@ == w,
    ensures
        expr_deps(Expr::Call { callee: Box::new(Expr::Ident(name)), arguments }, w)
            == first_arg_deps(arguments@).add(exprs_deps(arguments@, w)),
{
}

/// A template with an interpolated expression, as the sole argument of a
/// matched call, is a dynamic argument: one record, no name.
pub proof fn lemma_interpolated_template_dynamic(callee: Expr, arguments: Vec<Expr>, w: Seq<char>)
    requires
        is_target(callee, w),
        arguments@.len() == 1,
        arguments@[0] matches Expr::Lit(Lit::Template(t)) && t.spans@.len() > 0,
    ensures
        expr_deps(Expr::Call { callee: Box::new(callee), arguments }, w) == Deps::dynamic(
            Seq::empty(),
        ),
{
    assert(exprs_deps(arguments@.subrange(0, 0), w) == Deps::empty());
    assert(expr_deps(arguments@[0], w) == Deps::empty());
    assert(exprs_deps(arguments@, w) == Deps::empty());
}

/// Order is kept across a list of parts: the result of `a` followed by `b`
/// is the result of `a`, then that of `b`.
pub proof fn lemma_parts_concat(a: Seq<Part>, b: Seq<Part>, w: Seq<char>)
    ensures
        parts_deps(a + b, w) == parts_deps(a, w).add(parts_deps(b, w)),
    decreases b.len(),
{
    if b.len() == 0 {
        assert(a + b =~= a);
    } else {
        let c = b.subrange(0, b.len() - 1);
        lemma_parts_concat(a, c, w);
        assert((a + b).subrange(0, (a + b).len() - 1) =~= a + c);
        assert((a + b)[(a + b).len() - 1] == b[b.len() - 1]);
    }
}

} // verus!
