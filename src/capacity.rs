use vstd::prelude::*;

verus! {

/// Space needed by a batch against space free at the destination.
#[derive(Clone, Copy, Debug, PartialEq, Eq, Structural)]
pub struct CapacityReport {
    pub available_bytes: u64,
    pub required_bytes: u64,
}

/// The summed sizes of the images that could be located (`None` for one that
/// could not).
pub open spec fn total_size(sizes: Seq<Option<u64>>) -> int
    decreases sizes.len(),
{
    if sizes.len() == 0 {
        0
    } else {
        total_size(sizes.drop_last()) + match sizes.last() {
            Some(b) => b as int,
            None => 0,
        }
    }
}

pub open spec fn saturated(n: int) -> u64 {
    if n <= u64::MAX { n as u64 } else { u64::MAX }
}

impl CapacityReport {
    /// The space a batch needs: the sizes of all the candidate images, those
    /// that could not be located left out, summed (at most `u64::MAX`).
    pub fn plan(sizes: &Vec<Option<u64>>, available_bytes: u64) -> (r: CapacityReport)
        ensures
            r.available_bytes == available_bytes,
            r.required_bytes == saturated(total_size(sizes@)),
    {
        let mut sum: u64 = 0;
        let mut i: usize = 0;
        while i < sizes.len()
            invariant
                i <= sizes.len(),
                sum == saturated(total_size(sizes@.take(i as int))),
            decreases sizes.len() - i,
        {
            proof {
                assert(sizes@.take(i + 1).drop_last() =~= sizes@.take(i as int));
                assert(total_size(sizes@.take(i as int)) >= 0) by {
                    lemma_total_size_nonneg(sizes@.take(i as int));
                }
            }
            match sizes[i] {
                Some(b) => {
                    sum = sum.saturating_add(b);
                },
                None => {},
            }
            i = i + 1;
        }
        assert(sizes@.take(sizes.len() as int) =~= sizes@);
        CapacityReport { available_bytes, required_bytes: sum }
    }

    /// Whether the destination has room for the whole batch.
    pub fn is_sufficient(&self) -> (r: bool)
        ensures
            r == (self.required_bytes <= self.available_bytes),
    {
        self.required_bytes <= self.available_bytes
    }
}

proof fn lemma_total_size_nonneg(sizes: Seq<Option<u64>>)
    ensures
        total_size(sizes) >= 0,
    decreases sizes.len(),
{
    if sizes.len() > 0 {
        lemma_total_size_nonneg(sizes.drop_last());
    }
}

} // verus!
