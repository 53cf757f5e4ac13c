//! Growth policy for the GPU-resident vertex and index buffers.
//!
//! A buffer is created with zero element capacity and grown lazily: when a
//! frame requests more elements than the buffer holds, the buffer is
//! replaced by one sized to the request plus a fixed slack, which amortizes
//! frequent small growth. The capacity never shrinks.

use vstd::prelude::*;

verus! {

/// Extra vertex capacity added beyond the requested size on reallocation.
pub const VERTEX_BUF_ADD_CAPACITY: usize = 5000;

/// Extra index capacity added beyond the requested size on reallocation.
pub const INDEX_BUF_ADD_CAPACITY: usize = 10000;

/// Largest element count a frame may request for one buffer.
///
/// Frame geometry counts come from the GUI library as 32-bit signed
/// totals, so a request never exceeds this; it also keeps the grown
/// capacity within `usize` on every machine.
pub const MAX_BUFFER_REQUEST: usize = 0x7fff_ffff;

/// The model of one growable GPU buffer: its current element capacity.
///
/// The device resource itself lives outside the verified core; the policy
/// decisions are made against this capacity alone.
pub struct Buffer {
    len: usize,
}

impl Buffer {
    /// A buffer with no capacity, as created at renderer construction.
    pub fn empty() -> (b: Buffer)
        ensures
            b.spec_len() == 0,
    {
        Buffer { len: 0 }
    }

    /// The current element capacity.
    pub fn len(&self) -> (n: usize)
        ensures
            n == self.spec_len(),
    {
        self.len
    }

    /// The current element capacity, for specifications.
    pub closed spec fn spec_len(&self) -> nat {
        self.len as nat
    }

    /// Grows the buffer so that `required` elements fit, adding `slack`
    /// elements of headroom when a reallocation is needed; leaves the
    /// buffer unchanged when the capacity already suffices.
    pub fn ensure_capacity(&mut self, required: usize, slack: usize) -> (grown: Option<usize>)
        requires
            required + slack <= usize::MAX,
        ensures
            final(self).spec_len() == grown_capacity(old(self).spec_len(), required as nat, slack as nat),
            grown == (if old(self).spec_len() < required {
                Some((required + slack) as usize)
            } else {
                None::<usize>
            }),
    {
        if self.len < required {
            self.len = required + slack;
            Some(self.len)
        } else {
            None
        }
    }
}

/// The capacity after one request: unchanged if it suffices, else the
/// request plus the slack.
pub open spec fn grown_capacity(cap: nat, required: nat, slack: nat) -> nat {
    if cap < required {
        required + slack
    } else {
        cap
    }
}

/// The capacity after a whole sequence of per-frame requests, starting
/// from `cap`.
pub open spec fn capacity_after(cap: nat, reqs: Seq<nat>, slack: nat) -> nat
    decreases reqs.len(),
{
    if reqs.len() == 0 {
        cap
    } else {
        grown_capacity(capacity_after(cap, reqs.drop_last(), slack), reqs.last(), slack)
    }
}

/// Capacity is non-decreasing across any sequence of requests.
///
/// Together with [`lemma_capacity_covers_requests`] this is the buffer
/// growth law: each request is answered by a capacity at least as large,
/// and later frames never see a smaller buffer.
pub proof fn lemma_capacity_monotonic(cap: nat, reqs: Seq<nat>, slack: nat, i: int, j: int)
    requires
        0 <= i <= j <= reqs.len(),
    ensures
        capacity_after(cap, reqs.take(i), slack) <= capacity_after(cap, reqs.take(j), slack),
    decreases j - i,
{
    if i < j {
        lemma_capacity_monotonic(cap, reqs, slack, i, j - 1);
        assert(reqs.take(j).drop_last() =~= reqs.take(j - 1));
    }
}

/// Every request in the sequence is covered: from the moment a request is
/// processed, the capacity is at least that request.
pub proof fn lemma_capacity_covers_requests(cap: nat, reqs: Seq<nat>, slack: nat, i: int)
    requires
        0 <= i < reqs.len(),
    ensures
        reqs[i] <= capacity_after(cap, reqs.take(i + 1), slack),
        reqs[i] <= capacity_after(cap, reqs, slack),
{
    assert(reqs.take(i + 1).drop_last() =~= reqs.take(i));
    assert(reqs.take(i + 1).last() == reqs[i]);
    lemma_capacity_monotonic(cap, reqs, slack, i + 1, reqs.len() as int);
    assert(reqs.take(reqs.len() as int) =~= reqs);
}

/// The final capacity is either the starting one, with no request having
/// exceeded it, or it is the request that caused the last growth plus the
/// slack, and that request was the largest seen up to that point; no later
/// request exceeded the capacity it left behind.
pub proof fn lemma_capacity_last_growth(cap: nat, reqs: Seq<nat>, slack: nat)
    ensures
        ({
            let fin = capacity_after(cap, reqs, slack);
            (fin == cap && forall|k: int| 0 <= k < reqs.len() ==> #[trigger] reqs[k] <= cap)
                || (exists|i: int|
                    0 <= i < reqs.len() && fin == reqs[i] + slack
                        && (forall|k: int| 0 <= k <= i ==> #[trigger] reqs[k] <= reqs[i])
                        && (forall|k: int| i < k < reqs.len() ==> #[trigger] reqs[k] <= fin))
        }),
    decreases reqs.len(),
{
    if reqs.len() > 0 {
        let prefix = reqs.drop_last();
        let r = reqs.last();
        let before = capacity_after(cap, prefix, slack);
        lemma_capacity_last_growth(cap, prefix, slack);
        if before < r {
            // the final request grew the buffer; show it is the maximum
            assert forall|k: int| 0 <= k <= reqs.len() - 1 implies #[trigger] reqs[k] <= r by {
                if k < reqs.len() - 1 {
                    lemma_capacity_covers_requests(cap, prefix, slack, k);
                }
            }
            assert(capacity_after(cap, reqs, slack) == r + slack);
            assert(reqs[reqs.len() - 1] == r);
        } else {
            if before == cap && forall|k: int| 0 <= k < prefix.len() ==> #[trigger] prefix[k] <= cap {
                assert forall|k: int| 0 <= k < reqs.len() implies #[trigger] reqs[k] <= cap by {
                    if k < reqs.len() - 1 {
                        assert(prefix[k] == reqs[k]);
                    }
                }
            } else {
                let i = choose|i: int|
                    0 <= i < prefix.len() && before == prefix[i] + slack
                        && (forall|k: int| 0 <= k <= i ==> #[trigger] prefix[k] <= prefix[i])
                        && (forall|k: int| i < k < prefix.len() ==> #[trigger] prefix[k] <= before);
                assert(reqs[i] == prefix[i]);
                assert forall|k: int| 0 <= k <= i implies #[trigger] reqs[k] <= reqs[i] by {
                    assert(prefix[k] == reqs[k]);
                }
                assert forall|k: int| i < k < reqs.len() implies #[trigger] reqs[k] <= before by {
                    if k < reqs.len() - 1 {
                        assert(prefix[k] == reqs[k]);
                    }
                }
            }
        }
    }
}

} // verus!
