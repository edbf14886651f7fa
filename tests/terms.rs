use logic_lang::{ident_eq, ident_owned, ident_static, ident_str, Atom, Constant, Term, Variable};
use std::collections::hash_map::DefaultHasher;
use std::collections::HashSet;
use std::hash::{Hash, Hasher};

fn hash_of<T: Hash>(value: &T) -> u64 {
    let mut hasher = DefaultHasher::new();
    value.hash(&mut hasher);
    hasher.finish()
}

fn var(name: &'static str, depth: usize) -> Term {
    Term::Var(Variable::new(ident_static(name), depth))
}

fn num(n: i64) -> Term {
    Term::Const(Constant::Num(n))
}

fn app(name: &'static str, args: Vec<Term>) -> Term {
    Term::Application(ident_static(name), args)
}

#[test]
fn empty_application_renders_with_parentheses() {
    assert_eq!(app("foo", vec![]).render(), "foo()");
}

#[test]
fn arguments_are_separated_by_comma_and_space() {
    assert_eq!(app("f", vec![num(1), num(2)]).render(), "f(1, 2)");
    assert_eq!(app("g", vec![num(7)]).render(), "g(7)");
    assert_eq!(
        app("h", vec![var("X", 0), num(3), app("k", vec![])]).render(),
        "h(X0, 3, k())"
    );
}

#[test]
fn nested_applications_render_depth_first() {
    let t = app(
        "parent",
        vec![app("f", vec![var("Y", 3), Term::Const(Constant::Ident(ident_static("bob")))]), num(-1)],
    );
    assert_eq!(t.render(), "parent(f(Y3, bob), -1)");
}

#[test]
fn negative_numbers_render_with_minus() {
    assert_eq!(num(-5).render(), "-5");
    assert_eq!(Constant::Num(-5).render(), "-5");
}

#[test]
fn numbers_render_in_decimal() {
    assert_eq!(num(0).render(), "0");
    assert_eq!(num(10).render(), "10");
    assert_eq!(num(1234567890).render(), "1234567890");
    assert_eq!(num(i64::MAX).render(), "9223372036854775807");
    assert_eq!(num(i64::MIN).render(), "-9223372036854775808");
}

#[test]
fn identifier_constants_render_verbatim() {
    let c = Constant::Ident(ident_owned(String::from("hello world")));
    assert_eq!(c.render(), "hello world");
    assert_eq!(Term::Const(c).render(), "hello world");
}

#[test]
fn variable_renders_name_then_depth() {
    assert_eq!(Variable::new(ident_static("X"), 2).render(), "X2");
    assert_eq!(Variable::new(ident_static("X"), 1).render(), "X1");
    assert_eq!(var("Y", 3).render(), "Y3");
    assert_eq!(var("Z", 10).render(), "Z10");
}

#[test]
fn rendering_is_deterministic() {
    let t = app("f", vec![var("X", 1), num(-2), app("g", vec![])]);
    let u = app("f", vec![var("X", 1), num(-2), app("g", vec![])]);
    assert_eq!(t.render(), t.render());
    assert_eq!(t.render(), u.render());
}

#[test]
fn deep_structural_equality() {
    let a = app("f", vec![var("X", 0)]);
    let b = app("f", vec![var("X", 0)]);
    let c = app("f", vec![var("X", 1)]);
    assert!(a == b);
    assert!(a != c);
    assert!(a != app("g", vec![var("X", 0)]));
    assert!(a != app("f", vec![var("X", 0), var("X", 0)]));
    assert!(a != app("f", vec![var("Y", 0)]));
}

#[test]
fn equality_is_an_equivalence() {
    let a = app("f", vec![num(1), var("X", 2)]);
    let b = Term::Application(
        ident_owned(String::from("f")),
        vec![num(1), Term::Var(Variable::new(ident_owned(String::from("X")), 2))],
    );
    let c = app("f", vec![num(1), var("X", 2)]);
    assert!(a == a);
    assert!(a == b && b == a);
    assert!(b == c && a == c);
}

#[test]
fn equal_terms_hash_equally() {
    let a = app("f", vec![num(1), var("X", 2)]);
    let b = Term::Application(
        ident_owned(String::from("f")),
        vec![num(1), Term::Var(Variable::new(ident_owned(String::from("X")), 2))],
    );
    assert!(a == b);
    assert_eq!(hash_of(&a), hash_of(&b));
    let mut set = HashSet::new();
    set.insert(a);
    assert!(set.contains(&b));
    assert!(!set.contains(&app("f", vec![num(1), var("X", 3)])));
}

#[test]
fn variables_differ_by_depth() {
    let v0 = Variable::new(ident_static("X"), 0);
    let v1 = Variable::new(ident_static("X"), 1);
    assert!(v0 != v1);
    assert_ne!(hash_of(&v0), hash_of(&v1));
}

#[test]
fn variable_identity_is_name_and_depth() {
    let a = Variable::new(ident_static("X"), 4);
    let b = Variable::new(ident_owned(String::from("X")), 4);
    assert!(a == b);
    assert!(a != Variable::new(ident_static("Y"), 4));
    assert!(a != Variable::new(ident_static("X"), 5));
}

#[test]
fn variable_at_new_depth_is_a_new_variable() {
    let v = Variable::new(ident_static("X"), 0);
    let w = v.at_depth(3);
    assert_eq!(w.depth(), 3);
    assert_eq!(ident_str(w.name()), "X");
    assert_eq!(v.depth(), 0);
    assert!(v != w);
    assert!(w == Variable::new(ident_static("X"), 3));
    assert_eq!(w.render(), "X3");
}

#[test]
fn constants_compare_by_kind_and_value() {
    assert!(Constant::Num(3) == Constant::Num(3));
    assert!(Constant::Num(3) != Constant::Num(-3));
    assert!(Constant::Ident(ident_static("a")) == Constant::Ident(ident_owned(String::from("a"))));
    assert!(Constant::Ident(ident_static("3")) != Constant::Num(3));
    assert!(num(3) != var("X", 3));
}

#[test]
fn identifiers_compare_by_text() {
    let a = ident_static("name");
    let b = ident_owned(String::from("name"));
    assert!(ident_eq(&a, &b));
    assert!(!ident_eq(&a, &ident_static("names")));
    assert!(!ident_eq(&a, &ident_static("nam")));
    assert!(!ident_eq(&a, &ident_static("nbme")));
    assert!(ident_eq(&ident_static(""), &ident_owned(String::new())));
    assert_eq!(ident_str(&b), "name");
}

#[test]
fn atoms_are_all_equal() {
    assert!(Atom {} == Atom {});
    assert_eq!(hash_of(&Atom {}), hash_of(&Atom {}));
}
