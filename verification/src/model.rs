//! The mathematical model of the library's values: text as `Seq<char>`,
//! vectors as `Seq`, and each record as a ghost record of models.

use vstd::prelude::*;

verus! {

/// A value that contracts speak of through its model.
pub trait Model {
    type M;

    spec fn model(&self) -> Self::M;
}

impl Model for () {
    type M = ();

    open spec fn model(&self) -> () {
        ()
    }
}

impl Model for bool {
    type M = bool;

    open spec fn model(&self) -> bool {
        *self
    }
}

impl Model for char {
    type M = char;

    open spec fn model(&self) -> char {
        *self
    }
}

impl Model for u8 {
    type M = u8;

    open spec fn model(&self) -> u8 {
        *self
    }
}

impl Model for usize {
    type M = usize;

    open spec fn model(&self) -> usize {
        *self
    }
}

impl Model for i64 {
    type M = i64;

    open spec fn model(&self) -> i64 {
        *self
    }
}

impl Model for String {
    type M = Seq<char>;

    open spec fn model(&self) -> Seq<char> {
        self@
    }
}

impl<T: Model> Model for Vec<T> {
    type M = Seq<T::M>;

    open spec fn model(&self) -> Seq<T::M> {
        models(self@)
    }
}

impl<T: Model> Model for Option<T> {
    type M = Option<T::M>;

    open spec fn model(&self) -> Option<T::M> {
        match self {
            Some(x) => Some(x.model()),
            None => None,
        }
    }
}

impl<T: Model, E: Model> Model for Result<T, E> {
    type M = Result<T::M, E::M>;

    open spec fn model(&self) -> Result<T::M, E::M> {
        match self {
            Ok(x) => Ok(x.model()),
            Err(e) => Err(e.model()),
        }
    }
}

impl<A: Model, B: Model> Model for (A, B) {
    type M = (A::M, B::M);

    open spec fn model(&self) -> (A::M, B::M) {
        (self.0.model(), self.1.model())
    }
}

/// The models of the items of a sequence, in order.
pub open spec fn models<T: Model>(s: Seq<T>) -> Seq<T::M> {
    Seq::new(s.len(), |i: int| s[i].model())
}

/// Pushing an item pushes its model.
pub proof fn lemma_models_push<T: Model>(s: Seq<T>, x: T)
    ensures
        models(s.push(x)) == models(s).push(x.model()),
{
    assert(models(s.push(x)) =~= models(s).push(x.model()));
}

/// Characters and bytes are their own models.
pub proof fn lemma_models_chars(s: Seq<char>)
    ensures
        models(s) == s,
{
    assert(models(s) =~= s);
}

pub proof fn lemma_models_bytes(s: Seq<u8>)
    ensures
        models(s) == s,
{
    assert(models(s) =~= s);
}

/// The models of two sequences in a row.
pub proof fn lemma_models_concat<T: Model>(a: Seq<T>, b: Seq<T>)
    ensures
        models(a + b) == models(a) + models(b),
{
    assert(models(a + b) =~= models(a) + models(b));
}

} // verus!
