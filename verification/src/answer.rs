//! How what the store keeps is answered.

use vstd::prelude::*;

verus! {

/// Something that the store keeps, and that is answered in a form of its own.
pub trait Answer {
    /// The form in which it is answered.
    type Out;

    /// `out` is the answer.
    spec fn answered(&self, out: &Self::Out) -> bool;

    fn answer(&self) -> (r: Self::Out)
        ensures
            self.answered(&r),
    ;
}

/// The answers, one for each and in the same order.
pub open spec fn all_answered<T: Answer>(items: Seq<T>, out: Seq<T::Out>) -> bool {
    &&& out.len() == items.len()
    &&& forall|i: int| 0 <= i < items.len() ==> (#[trigger] items[i]).answered(&out[i])
}

/// The answers, one for each and in the same order.
pub fn answer_all<T: Answer>(items: &[T]) -> (r: Vec<T::Out>)
    ensures
        all_answered(items@, r@),
{
    let mut out: Vec<T::Out> = Vec::new();
    let mut i: usize = 0;
    while i < items.len()
        invariant
            i <= items@.len(),
            out@.len() == i,
            forall|j: int| 0 <= j < i ==> (#[trigger] items@[j]).answered(&out@[j]),
        decreases items.len() - i,
    {
        out.push(items[i].answer());
        i = i + 1;
    }
    out
}

impl<T: Answer> Answer for Vec<T> {
    type Out = Vec<T::Out>;

    open spec fn answered(&self, out: &Vec<T::Out>) -> bool {
        all_answered(self@, out@)
    }

    fn answer(&self) -> (r: Vec<T::Out>) {
        answer_all(self.as_slice())
    }
}

} // verus!
