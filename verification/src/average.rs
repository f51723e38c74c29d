//! A bounded sliding window of samples with an exact mean.
//!
//! Samples are whole numbers. The mean is handed out as the exact fraction
//! `sum / count`, so nothing is rounded and nothing is divided by zero.

use vstd::prelude::*;

verus! {

/// Why a request on a window could not be served.
#[derive(Clone, Copy, Debug, PartialEq, Eq, Structural)]
pub enum AverageError {
    /// The window holds no sample, so it has no mean.
    EmptyWindow,
    /// The index is not below the number of samples held.
    OutOfRange,
}

/// The arithmetic mean of a non-empty window, as the fraction `sum / count`.
#[derive(Clone, Copy, Debug, PartialEq, Eq, Structural)]
pub struct Mean {
    /// The sum of the samples.
    pub sum: u128,
    /// How many samples there are; never zero in a value that
    /// [`RunningAverage::average`] returns.
    pub count: usize,
}

/// The sum of a sequence of samples.
pub open spec fn sum_of(samples: Seq<u64>) -> nat
    decreases samples.len(),
{
    if samples.len() == 0 {
        0
    } else {
        sum_of(samples.drop_last()) + samples.last() as nat
    }
}

/// A window of capacity `capacity` after `value` has arrived: the value is
/// appended, and the oldest sample leaves if that made the window too long.
pub open spec fn push_bounded(window: Seq<u64>, value: u64, capacity: nat) -> Seq<u64> {
    if window.len() + 1 > capacity {
        window.push(value).skip(1)
    } else {
        window.push(value)
    }
}

/// The window of capacity `capacity` after the samples of `inserted` have
/// arrived one by one, in order, starting from an empty window.
pub open spec fn window_after(capacity: nat, inserted: Seq<u64>) -> Seq<u64>
    decreases inserted.len(),
{
    if inserted.len() == 0 {
        Seq::empty()
    } else {
        push_bounded(window_after(capacity, inserted.drop_last()), inserted.last(), capacity)
    }
}

/// The last `count` elements of `samples`, or all of them if there are fewer.
pub open spec fn latest(samples: Seq<u64>, count: nat) -> Seq<u64> {
    if samples.len() <= count {
        samples
    } else {
        samples.skip(samples.len() - count)
    }
}

/// A sum of `n` samples is at most `n` times the largest sample there can be.
pub proof fn lemma_sum_bound(samples: Seq<u64>)
    ensures
        sum_of(samples) <= samples.len() * u64::MAX,
    decreases samples.len(),
{
    if samples.len() > 0 {
        lemma_sum_bound(samples.drop_last());
        assert(samples.len() * u64::MAX == (samples.len() - 1) * u64::MAX + u64::MAX)
            by (nonlinear_arith);
    }
}

/// However many samples arrive, a window holds exactly the latest of them, as
/// many as its capacity allows, oldest first. In particular, once more than
/// `capacity` samples have arrived its length is `capacity` and stays so.
pub proof fn lemma_window_holds_latest(capacity: nat, inserted: Seq<u64>)
    ensures
        window_after(capacity, inserted) == latest(inserted, capacity),
        window_after(capacity, inserted).len() <= capacity,
        inserted.len() >= capacity ==> window_after(capacity, inserted).len() == capacity,
        forall|i: int|
            0 <= i < capacity && inserted.len() >= capacity ==> #[trigger] window_after(
                capacity,
                inserted,
            )[i] == inserted[inserted.len() - capacity + i],
    decreases inserted.len(),
{
    if inserted.len() > 0 {
        let earlier = inserted.drop_last();
        lemma_window_holds_latest(capacity, earlier);
    }
}

/// Appends `value` to `values`, first dropping the oldest sample if `limit`
/// samples are already there.
fn push_within(values: &mut Vec<u64>, value: u64, limit: usize)
    requires
        limit > 0,
        old(values)@.len() <= limit,
    ensures
        final(values)@ == push_bounded(old(values)@, value, limit as nat),
        final(values)@.len() >= old(values)@.len(),
{
    if values.len() >= limit {
        values.remove(0);
    }
    values.push(value);
}

/// A fixed-capacity window over a stream of samples: it keeps the most recent
/// ones, oldest first, and steps through them with a cursor.
#[derive(Debug)]
pub struct RunningAverage {
    values: Vec<u64>,
    limit: usize,
    position: usize,
}

impl View for RunningAverage {
    type V = Seq<u64>;

    /// The samples held, oldest first.
    closed spec fn view(&self) -> Seq<u64> {
        self.values@
    }
}

impl Clone for RunningAverage {
    /// A window with the same samples, capacity and cursor.
    fn clone(&self) -> (copy: RunningAverage)
        ensures
            copy@ == self@,
            copy.capacity() == self.capacity(),
            copy.cursor() == self.cursor(),
    {
        proof {
            use_type_invariant(self);
        }
        let values = self.values.clone();
        RunningAverage { values, limit: self.limit, position: self.position }
    }
}

impl RunningAverage {
    #[verifier::type_invariant]
    spec fn well_formed(&self) -> bool {
        &&& self.values@.len() <= self.limit
        &&& self.position <= self.values@.len()
    }

    /// The most samples the window will hold.
    pub closed spec fn capacity(&self) -> nat {
        self.limit as nat
    }

    /// How many samples the cursor has stepped over.
    pub closed spec fn cursor(&self) -> nat {
        self.position as nat
    }

    /// An empty window that will hold up to `limit` samples.
    pub fn new(limit: usize) -> (window: RunningAverage)
        ensures
            window@ == Seq::<u64>::empty(),
            window.capacity() == limit,
            window.cursor() == 0,
    {
        RunningAverage { values: Vec::new(), limit, position: 0 }
    }

    /// Appends `value`; if the window was full, its oldest sample leaves.
    /// The cursor stays where it is.
    pub fn add(&mut self, value: u64)
        ensures
            final(self)@ == push_bounded(old(self)@, value, old(self).capacity()),
            final(self)@.len() <= final(self).capacity(),
            final(self).capacity() == old(self).capacity(),
            final(self).cursor() == old(self).cursor(),
    {
        proof {
            use_type_invariant(&*self);
        }
        if self.limit == 0 {
            return ;
        }
        // The invariant holds at every step, so the samples leave `self` while
        // they are worked on, and the cursor waits at the start meanwhile.
        let position = self.position;
        self.position = 0;
        let mut values = Vec::new();
        std::mem::swap(&mut values, &mut self.values);
        push_within(&mut values, value, self.limit);
        self.values = values;
        self.position = position;
    }

    /// The number of samples held. It never exceeds the capacity, and the
    /// cursor never passes it.
    pub fn len(&self) -> (n: usize)
        ensures
            n == self@.len(),
            n <= self.capacity(),
            self.cursor() <= n,
    {
        proof {
            use_type_invariant(self);
        }
        self.values.len()
    }

    /// The sample at `index`, counting from the oldest, or `OutOfRange` if
    /// there is none.
    pub fn index(&self, index: usize) -> (sample: Result<u64, AverageError>)
        ensures
            sample == if index < self@.len() {
                Ok::<u64, AverageError>(self@[index as int])
            } else {
                Err::<u64, AverageError>(AverageError::OutOfRange)
            },
    {
        if index < self.values.len() {
            Ok(self.values[index])
        } else {
            Err(AverageError::OutOfRange)
        }
    }

    /// The mean of the samples held, or `EmptyWindow` if there is none.
    pub fn average(&self) -> (mean: Result<Mean, AverageError>)
        ensures
            mean == if self@.len() == 0 {
                Err::<Mean, AverageError>(AverageError::EmptyWindow)
            } else {
                Ok::<Mean, AverageError>(
                    Mean { sum: sum_of(self@) as u128, count: self@.len() as usize },
                )
            },
            self@.len() <= usize::MAX,
            sum_of(self@) <= u128::MAX,
    {
        let count = self.values.len();
        if count == 0 {
            return Err(AverageError::EmptyWindow);
        }
        let mut sum: u128 = 0;
        let mut i: usize = 0;
        while i < count
            invariant
                i <= count,
                count == self.values@.len(),
                sum == sum_of(self.values@.take(i as int)),
            decreases count - i,
        {
            proof {
                let upto = self.values@.take(i + 1);
                assert(upto.drop_last() =~= self.values@.take(i as int));
                lemma_sum_bound(upto);
                assert(upto.len() * u64::MAX <= usize::MAX * u64::MAX) by (nonlinear_arith)
                    requires
                        upto.len() <= usize::MAX,
                ;
            }
            sum = sum + self.values[i] as u128;
            i = i + 1;
        }
        assert(self.values@.take(count as int) =~= self.values@);
        Ok(Mean { sum, count })
    }

    /// The sample under the cursor, after which the cursor moves on; `None`
    /// once every sample has been stepped over.
    pub fn next(&mut self) -> (sample: Option<u64>)
        ensures
            final(self)@ == old(self)@,
            final(self).capacity() == old(self).capacity(),
            old(self).cursor() < old(self)@.len() ==> sample == Some(
                old(self)@[old(self).cursor() as int],
            ) && final(self).cursor() == old(self).cursor() + 1,
            old(self).cursor() >= old(self)@.len() ==> sample.is_none() && final(self).cursor()
                == old(self).cursor(),
    {
        proof {
            use_type_invariant(&*self);
        }
        if self.position < self.values.len() {
            let value = self.values[self.position];
            self.position = self.position + 1;
            Some(value)
        } else {
            None
        }
    }

    /// How many samples the cursor has yet to step over, as a lower and an
    /// upper bound, which are the same.
    pub fn size_hint(&self) -> (bounds: (usize, Option<usize>))
        ensures
            bounds.0 == self@.len() - self.cursor(),
            bounds.1 == Some(bounds.0),
    {
        proof {
            use_type_invariant(self);
        }
        let remaining_items = self.values.len() - self.position;
        (remaining_items, Some(remaining_items))
    }
}

} // verus!
