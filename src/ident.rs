//! Shared, immutable symbolic names.
use std::borrow::Cow;
use std::sync::Arc;
use vstd::prelude::*;
use vstd::std_specs::iter::IteratorSpec;

verus! {

broadcast use vstd::string::group_string_axioms;

/// A symbolic name (an atom, a functor, a variable's name). Cloning it copies
/// a handle, not the text; two identifiers are the same name when their text
/// is the same, wherever it is stored.
pub type Ident = Arc<Cow<'static, str>>;

/// An identifier that borrows text which lives for the whole program.
pub fn ident_static(s: &'static str) -> (r: Ident)
    ensures
        r@ == s@,
{
    Arc::new(Cow::Borrowed(s))
}

/// An identifier that owns its text.
pub fn ident_owned(s: String) -> (r: Ident)
    ensures
        r@ == s@,
{
    Arc::new(Cow::Owned(s))
}

/// The text of an identifier.
pub fn ident_str(id: &Ident) -> (r: &str)
    ensures
        r@ == id@,
{
    match &**id {
        Cow::Borrowed(s) => s,
        Cow::Owned(s) => s.as_str(),
    }
}

/// Whether two strings hold the same characters.
pub fn text_eq(a: &str, b: &str) -> (r: bool)
    ensures
        r == (a@ == b@),
{
    let mut ia = a.chars();
    let mut ib = b.chars();
    let ghost mut k: int = 0;
    loop
        invariant
            0 <= k <= a@.len(),
            0 <= k <= b@.len(),
            ia.remaining() == a@.skip(k),
            ib.remaining() == b@.skip(k),
            a@.take(k) == b@.take(k),
        decreases a@.len() - k,
    {
        let ca = ia.next();
        let cb = ib.next();
        match (ca, cb) {
            (None, None) => {
                assert(a@ =~= a@.take(k));
                assert(b@ =~= b@.take(k));
                return true;
            },
            (Some(x), Some(y)) => {
                if x != y {
                    assert(a@[k] != b@[k]);
                    return false;
                }
                assert(a@.take(k + 1) =~= a@.take(k).push(x));
                assert(b@.take(k + 1) =~= b@.take(k).push(y));
                proof {
                    k = k + 1;
                }
            },
            _ => {
                return false;
            },
        }
    }
}

/// Whether two identifiers name the same text.
pub fn ident_eq(a: &Ident, b: &Ident) -> (r: bool)
    ensures
        r == (a@ == b@),
{
    text_eq(ident_str(a), ident_str(b))
}

} // verus!
