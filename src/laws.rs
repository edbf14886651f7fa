//! Laws of equality and rendering that callers may rely on.
use crate::lang::{
    args_texts, join_comma, term_text, var_text, ConstantModel, Term, TermModel, Variable,
    VariableModel,
};
use crate::decimal::{int_text, nat_text};
use vstd::prelude::*;
use vstd::std_specs::cmp::PartialEqSpec;

verus! {

/// Term equality is reflexive, symmetric and transitive.
pub proof fn term_eq_is_equivalence(a: Term, b: Term, c: Term)
    ensures
        a.eq_spec(&a),
        a.eq_spec(&b) == b.eq_spec(&a),
        a.eq_spec(&b) && b.eq_spec(&c) ==> a.eq_spec(&c),
{
}

/// Two variables of one name at different depths are different variables.
pub proof fn variables_differ_by_depth(v1: Variable, v2: Variable, name: Seq<char>, d1: nat, d2: nat)
    requires
        v1@ == (VariableModel { name, depth: d1 }),
        v2@ == (VariableModel { name, depth: d2 }),
        d1 != d2,
    ensures
        !v1.eq_spec(&v2),
{
}

/// Two variables are equal exactly when their names have the same text and
/// their depths are the same.
pub proof fn variable_identity(
    v1: Variable,
    v2: Variable,
    n1: Seq<char>,
    d1: nat,
    n2: Seq<char>,
    d2: nat,
)
    requires
        v1@ == (VariableModel { name: n1, depth: d1 }),
        v2@ == (VariableModel { name: n2, depth: d2 }),
    ensures
        v1.eq_spec(&v2) <==> (n1 == n2 && d1 == d2),
{
}

/// Rendering depends on nothing but the term: equal terms, and so the same
/// term rendered twice, give the same text.
pub proof fn rendering_is_deterministic(a: Term, b: Term)
    requires
        a.eq_spec(&b),
    ensures
        term_text(a@) == term_text(b@),
{
}

/// An application with no arguments renders as its functor followed by `()`.
pub proof fn empty_application_text(f: Seq<char>)
    ensures
        term_text(TermModel::App(f, Seq::empty())) == f + seq!['(', ')'],
{
    assert(args_texts(Seq::empty()) =~= Seq::empty());
    assert(term_text(TermModel::App(f, Seq::empty())) =~= f + seq!['(', ')']);
}

/// The arguments of an application render in order, separated by `", "`,
/// with no separator after the last one.
pub proof fn two_argument_application_text(f: Seq<char>, a: TermModel, b: TermModel)
    ensures
        term_text(TermModel::App(f, seq![a, b])) == f + seq!['('] + term_text(a) + seq![',', ' ']
            + term_text(b) + seq![')'],
{
    let parts = args_texts(seq![a, b]);
    assert(parts.drop_last() =~= seq![term_text(a)]);
    assert(join_comma(parts.drop_last()) == term_text(a));
    assert(join_comma(parts) =~= term_text(a) + seq![',', ' '] + term_text(b));
    assert(term_text(TermModel::App(f, seq![a, b])) =~= f + seq!['('] + term_text(a) + seq![
        ',',
        ' ',
    ] + term_text(b) + seq![')']);
}

/// A negative number renders as `-` followed by the digits of its magnitude.
pub proof fn negative_number_text(n: int)
    requires
        n < 0,
    ensures
        term_text(TermModel::Const(ConstantModel::Num(n))) == seq!['-'] + nat_text((-n) as nat),
        int_text(n)[0] == '-',
{
}

/// A variable renders as its name immediately followed by its depth.
pub proof fn variable_text(v: Variable)
    ensures
        term_text(TermModel::Var(v@)) == v@.name + nat_text(v@.depth),
        var_text(v@) == v@.name + nat_text(v@.depth),
{
}

/// Two applications are equal exactly when their functors have the same text,
/// they have the same number of arguments, and the arguments are equal
/// position by position, all the way down.
pub proof fn application_equality_is_deep(a: Term, b: Term)
    requires
        a is Application,
        b is Application,
    ensures
        a.eq_spec(&b) <==> {
            &&& a->Application_0@ == b->Application_0@
            &&& a->Application_1@.len() == b->Application_1@.len()
            &&& forall|i: int|
                0 <= i < a->Application_1@.len() ==> (#[trigger] a->Application_1@[i]).eq_spec(
                    &b->Application_1@[i],
                )
        },
{
    let xs = a->Application_1@;
    let ys = b->Application_1@;
    assert(a@->App_1.len() == xs.len());
    assert(b@->App_1.len() == ys.len());
    assert(forall|i: int| 0 <= i < xs.len() ==> a@->App_1[i] == (#[trigger] xs[i])@);
    assert(forall|i: int| 0 <= i < ys.len() ==> b@->App_1[i] == (#[trigger] ys[i])@);
    if a->Application_0@ == b->Application_0@ && xs.len() == ys.len() && forall|i: int|
        0 <= i < xs.len() ==> (#[trigger] xs[i]).eq_spec(&ys[i]) {
        assert(a@->App_1 =~= b@->App_1);
    }
}

} // verus!
