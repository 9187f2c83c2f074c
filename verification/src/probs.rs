//! The class-probability vector and the derived class decision.
//!
//! The tensor engine's softmax yields one probability per digit class,
//! ordered by class label. The entries arrive as the bit patterns of the
//! engine's non-negative 32-bit softmax outputs; for such values the
//! engine's encoding orders bit patterns exactly as it orders the values,
//! so the `u32` comparisons below decide the numeric order.

use vstd::prelude::*;

verus! {

/// Number of digit classes.
pub const NUM_CLASSES: usize = 10;

/// A class-probability vector: exactly `NUM_CLASSES` entries, ordered by
/// class label 0 to 9.
#[derive(Debug)]
pub struct ClassProbs {
    values: Vec<u32>,
}

impl View for ClassProbs {
    type V = Seq<u32>;

    closed spec fn view(&self) -> Seq<u32> {
        self.values@
    }
}

impl ClassProbs {
    /// A well-formed vector has one entry per class.
    pub open spec fn wf(self) -> bool {
        self@.len() == NUM_CLASSES
    }

    /// Accepts exactly `NUM_CLASSES` entries, kept in order and unchanged;
    /// any other count is refused rather than padded or truncated.
    pub fn new(values: Vec<u32>) -> (r: Option<ClassProbs>)
        ensures
            values@.len() == NUM_CLASSES ==> (r matches Some(p) && p@ == values@ && p.wf()),
            values@.len() != NUM_CLASSES ==> r is None,
    {
        if values.len() == NUM_CLASSES {
            Some(ClassProbs { values })
        } else {
            None
        }
    }

    /// Number of entries held; `NUM_CLASSES` on every well-formed vector.
    pub fn len(&self) -> (n: usize)
        ensures
            n == self@.len(),
    {
        self.values.len()
    }

    /// The probabilities, ordered by class label, for the response body.
    pub fn values(&self) -> (v: &Vec<u32>)
        ensures
            v@ == self@,
    {
        &self.values
    }

    /// Whether every entry is non-negative. In the engine's 32-bit
    /// encoding a value is non-negative exactly when its sign bit is
    /// clear, so this is decided on the bits alone.
    pub fn non_negative(&self) -> (r: bool)
        ensures
            r <==> forall|j: int| 0 <= j < self@.len() ==> self@[j] < 0x8000_0000u32,
    {
        let mut k: usize = 0;
        while k < self.values.len()
            invariant
                forall|j: int| 0 <= j < k ==> self@[j] < 0x8000_0000u32,
                k <= self@.len(),
            decreases self@.len() - k,
        {
            if self.values[k] >= 0x8000_0000 {
                return false;
            }
            k = k + 1;
        }
        true
    }

    /// The predicted class: the first index holding the maximum entry.
    pub fn argmax(&self) -> (i: usize)
        requires
            self.wf(),
        ensures
            i < NUM_CLASSES,
            forall|j: int| 0 <= j < self@.len() ==> self@[j] <= self@[i as int],
            forall|j: int| 0 <= j < i ==> self@[j] < self@[i as int],
    {
        let mut best: usize = 0;
        let mut k: usize = 1;
        while k < self.values.len()
            invariant
                self.wf(),
                best < k <= self@.len(),
                forall|j: int| 0 <= j < k ==> self@[j] <= self@[best as int],
                forall|j: int| 0 <= j < best ==> self@[j] < self@[best as int],
            decreases self@.len() - k,
        {
            if self.values[k] > self.values[best] {
                best = k;
            }
            k = k + 1;
        }
        best
    }
}

} // verus!
