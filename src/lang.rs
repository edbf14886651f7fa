//! The term algebra: variables, constants and compound applications.
use crate::decimal::{int_text, nat_text, push_int, push_nat};
use crate::ident::{ident_eq, ident_str, Ident};
use vstd::prelude::*;

verus! {

/// A constant as a mathematical value: a number, or a name.
pub enum ConstantModel {
    Num(int),
    Name(Seq<char>),
}

/// A variable as a mathematical value: its name and the search depth at
/// which it was instantiated.
pub struct VariableModel {
    pub name: Seq<char>,
    pub depth: nat,
}

/// A term as a mathematical value.
pub enum TermModel {
    Var(VariableModel),
    Const(ConstantModel),
    App(Seq<char>, Seq<TermModel>),
}

/// A term.
#[derive(Debug, Hash, Eq)]
pub enum Term {
    /// A variable (e.g. `X0`, `Y1`).
    Var(Variable),
    /// A constant (an atom or a number).
    Const(Constant),
    /// A compound term, `ident(args...)`.
    Application(Ident, Vec<Term>),
}

/// A constant: a number or an identifier.
#[derive(Debug, Hash, Eq)]
pub enum Constant {
    Num(i64),
    Ident(Ident),
}

/// A logic variable: a name together with the proof search depth at which it
/// was instantiated.
///
/// When a clause is used at search depth `n`, each of its variables `(x, 0)`
/// is renamed to `(x, n)`, so that two uses of one clause never share a
/// variable. Two variables are the same variable exactly when both the name
/// and the depth agree.
#[derive(Debug, Hash, Eq)]
pub struct Variable {
    name: Ident,
    depth: usize,
}

/// A marker for atoms; it carries no data.
#[derive(Debug, Hash, PartialEq, Eq, Structural)]
pub struct Atom {}

/// The model of a term: identifiers by their text, numbers as integers,
/// arguments in order.
pub open spec fn term_model(t: &Term) -> TermModel
    decreases t,
{
    match t {
        Term::Var(v) => TermModel::Var(v@),
        Term::Const(c) => TermModel::Const(c@),
        Term::Application(f, args) => TermModel::App(
            f@,
            Seq::new(args@.len(), |i: int|
                if 0 <= i < args@.len() {
                    term_model(&args@[i])
                } else {
                    arbitrary()
                }),
        ),
    }
}

impl View for Variable {
    type V = VariableModel;

    closed spec fn view(&self) -> VariableModel {
        VariableModel { name: self.name@, depth: self.depth as nat }
    }
}

impl View for Constant {
    type V = ConstantModel;

    open spec fn view(&self) -> ConstantModel {
        match self {
            Constant::Num(n) => ConstantModel::Num(*n as int),
            Constant::Ident(s) => ConstantModel::Name(s@),
        }
    }
}

impl View for Term {
    type V = TermModel;

    open spec fn view(&self) -> TermModel {
        term_model(self)
    }
}

/// Text of a variable: its name, then its depth, with no separator.
pub open spec fn var_text(v: VariableModel) -> Seq<char> {
    v.name + nat_text(v.depth)
}

/// Text of a constant: a number in decimal, a name as it is.
pub open spec fn const_text(c: ConstantModel) -> Seq<char> {
    match c {
        ConstantModel::Num(n) => int_text(n),
        ConstantModel::Name(s) => s,
    }
}

/// The parts, in order, with `", "` between each two neighbours.
pub open spec fn join_comma(parts: Seq<Seq<char>>) -> Seq<char>
    decreases parts.len(),
{
    if parts.len() == 0 {
        Seq::empty()
    } else if parts.len() == 1 {
        parts[0]
    } else {
        join_comma(parts.drop_last()) + seq![',', ' '] + parts.last()
    }
}

/// Text of a term: a variable or constant as above; an application as its
/// functor, `(`, its arguments' texts joined by `", "`, and `)`.
pub open spec fn term_text(t: TermModel) -> Seq<char>
    decreases t, 1nat,
{
    match t {
        TermModel::Var(v) => var_text(v),
        TermModel::Const(c) => const_text(c),
        TermModel::App(f, args) => f + seq!['('] + join_comma(args_texts(args)) + seq![')'],
    }
}

/// The texts of the arguments, one for each, in order.
pub open spec fn args_texts(args: Seq<TermModel>) -> Seq<Seq<char>>
    decreases args, 0nat,
{
    Seq::new(
        args.len(),
        |i: int|
            if 0 <= i < args.len() {
                term_text(args[i])
            } else {
                Seq::empty()
            },
    )
}

/// Whether two variables are the same variable: same name and same depth.
fn variable_eq(a: &Variable, b: &Variable) -> (r: bool)
    ensures
        r == (a@ == b@),
{
    a.depth == b.depth && ident_eq(&a.name, &b.name)
}

/// Whether two constants are equal: both numbers and equal, or both names with
/// the same text.
fn constant_eq(a: &Constant, b: &Constant) -> (r: bool)
    ensures
        r == (a@ == b@),
{
    match (a, b) {
        (Constant::Num(x), Constant::Num(y)) => *x == *y,
        (Constant::Ident(x), Constant::Ident(y)) => ident_eq(x, y),
        _ => false,
    }
}

/// Whether two terms are structurally equal, leaf by leaf.
#[verifier::loop_isolation(false)]
fn term_eq(a: &Term, b: &Term) -> (r: bool)
    ensures
        r == (a@ == b@),
    decreases a,
{
    match (a, b) {
        (Term::Var(x), Term::Var(y)) => variable_eq(x, y),
        (Term::Const(x), Term::Const(y)) => constant_eq(x, y),
        (Term::Application(f, xs), Term::Application(g, ys)) => {
            if !ident_eq(f, g) || xs.len() != ys.len() {
                proof {
                    if f@ != g@ {
                        assert(a@->App_0 != b@->App_0);
                    } else {
                        assert(a@->App_1.len() != b@->App_1.len());
                    }
                }
                return false;
            }
            let mut i: usize = 0;
            while i < xs.len()
                invariant
                    xs@.len() == ys@.len(),
                    i <= xs@.len(),
                    forall|j: int| 0 <= j < i ==> xs@[j]@ == ys@[j]@,
                decreases xs@.len() - i,
            {
                proof {
                    assert(decreases_to!(*xs => xs@[i as int]));
                }
                if !term_eq(&xs[i], &ys[i]) {
                    assert(a@->App_1[i as int] != b@->App_1[i as int]);
                    return false;
                }
                i = i + 1;
            }
            assert(a@->App_1 =~= b@->App_1);
            true
        },
        _ => false,
    }
}

fn push_variable(out: &mut String, v: &Variable)
    ensures
        final(out)@ == old(out)@ + var_text(v@),
{
    out.append(ident_str(&v.name));
    push_nat(out, v.depth as u64);
    assert(out@ =~= old(out)@ + var_text(v@));
}

fn push_constant(out: &mut String, c: &Constant)
    ensures
        final(out)@ == old(out)@ + const_text(c@),
{
    match c {
        Constant::Num(n) => push_int(out, *n),
        Constant::Ident(s) => out.append(ident_str(s)),
    }
}

/// Appends the text of `t` to `out`, in one depth-first, left-to-right pass.
#[verifier::loop_isolation(false)]
fn push_term(out: &mut String, t: &Term)
    ensures
        final(out)@ == old(out)@ + term_text(t@),
    decreases t,
{
    match t {
        Term::Var(v) => push_variable(out, v),
        Term::Const(c) => push_constant(out, c),
        Term::Application(f, args) => {
            proof {
                reveal_strlit("(");
                reveal_strlit(", ");
                reveal_strlit(")");
            }
            out.append(ident_str(f));
            out.append("(");
            let ghost head = out@;
            let ghost parts = Seq::new(args@.len(), |j: int| term_text(args@[j]@));
            let mut i: usize = 0;
            while i < args.len()
                invariant
                    i <= args@.len(),
                    out@ == head + join_comma(parts.take(i as int)),
                decreases args@.len() - i,
            {
                proof {
                    assert(decreases_to!(*args => args@[i as int]));
                }
                if i > 0 {
                    out.append(", ");
                }
                push_term(out, &args[i]);
                proof {
                    let next = parts.take(i + 1);
                    assert(next.drop_last() =~= parts.take(i as int));
                    assert(out@ =~= head + join_comma(next));
                }
                i = i + 1;
            }
            out.append(")");
            proof {
                assert(parts.take(args@.len() as int) =~= parts);
                let m = t@->App_1;
                assert(m.len() == args@.len());
                assert(forall|j: int| 0 <= j < m.len() ==> m[j] == args@[j]@);
                assert(parts =~= args_texts(m));
                assert(out@ =~= old(out)@ + term_text(t@));
            }
        },
    }
}

impl Variable {
    /// The variable named `name` at search depth `depth`.
    pub fn new(name: Ident, depth: usize) -> (r: Variable)
        ensures
            r@ == (VariableModel { name: name@, depth: depth as nat }),
    {
        Variable { name, depth }
    }

    /// Its name.
    pub fn name(&self) -> (r: &Ident)
        ensures
            r@ == self@.name,
    {
        &self.name
    }

    /// The search depth at which it was instantiated.
    pub fn depth(&self) -> (r: usize)
        ensures
            r as nat == self@.depth,
    {
        self.depth
    }

    /// The variable of the same name at search depth `depth`: a new value,
    /// sharing the name's text.
    pub fn at_depth(&self, depth: usize) -> (r: Variable)
        ensures
            r@ == (VariableModel { name: self@.name, depth: depth as nat }),
    {
        Variable { name: self.name.clone(), depth }
    }

    /// Its text: the name immediately followed by the depth, e.g. `X1`.
    pub fn render(&self) -> (r: String)
        ensures
            r@ == var_text(self@),
    {
        let mut out = String::new();
        push_variable(&mut out, self);
        assert(out@ =~= var_text(self@));
        out
    }
}

impl Constant {
    /// Its text: a number in decimal with a `-` when negative, a name as it
    /// is.
    pub fn render(&self) -> (r: String)
        ensures
            r@ == const_text(self@),
    {
        let mut out = String::new();
        push_constant(&mut out, self);
        assert(out@ =~= const_text(self@));
        out
    }
}

impl Term {
    /// Its text: `X0` for a variable, `-5` or `foo` for a constant,
    /// `f(a, b)` for an application, `f()` when there are no arguments.
    pub fn render(&self) -> (r: String)
        ensures
            r@ == term_text(self@),
    {
        let mut out = String::new();
        push_term(&mut out, self);
        assert(out@ =~= term_text(self@));
        out
    }
}

impl PartialEq for Variable {
    fn eq(&self, other: &Variable) -> (r: bool) {
        variable_eq(self, other)
    }
}

impl vstd::std_specs::cmp::PartialEqSpecImpl for Variable {
    open spec fn obeys_eq_spec() -> bool {
        true
    }

    open spec fn eq_spec(&self, other: &Variable) -> bool {
        self@ == other@
    }
}

impl PartialEq for Constant {
    fn eq(&self, other: &Constant) -> (r: bool) {
        constant_eq(self, other)
    }
}

impl vstd::std_specs::cmp::PartialEqSpecImpl for Constant {
    open spec fn obeys_eq_spec() -> bool {
        true
    }

    open spec fn eq_spec(&self, other: &Constant) -> bool {
        self@ == other@
    }
}

impl PartialEq for Term {
    fn eq(&self, other: &Term) -> (r: bool) {
        term_eq(self, other)
    }
}

impl vstd::std_specs::cmp::PartialEqSpecImpl for Term {
    open spec fn obeys_eq_spec() -> bool {
        true
    }

    open spec fn eq_spec(&self, other: &Term) -> bool {
        self@ == other@
    }
}

} // verus!
