//! Progress counters of a checkout.

use vstd::prelude::*;

verus! {

/// How much a checkout has done so far.
#[derive(Clone, Copy, Debug, PartialEq, Eq)]
pub struct CheckoutStats {
    removed: usize,
    updated: usize,
    meta_updated: usize,
    written_bytes: usize,
}

/// Mathematical value of [`CheckoutStats`].
pub struct StatsView {
    /// Files removed.
    pub removed: nat,
    /// Files whose content was written.
    pub updated: nat,
    /// Files whose executable bit was flipped.
    pub meta_updated: nat,
    /// Bytes written, counted modulo the width of `usize`.
    pub written_bytes: nat,
}

/// The byte counts `counts` added up as the counter adds them: each count is
/// added with wrap-around at the width of `usize`.
pub open spec fn wrapping_total(counts: Seq<usize>) -> usize
    decreases counts.len(),
{
    if counts.len() == 0 {
        0
    } else {
        wrapping_total(counts.drop_last()).wrapping_add(counts.last())
    }
}

/// The byte counts `counts` added up as numbers.
pub open spec fn total(counts: Seq<usize>) -> nat
    decreases counts.len(),
{
    if counts.len() == 0 {
        0
    } else {
        total(counts.drop_last()) + counts.last() as nat
    }
}

/// As long as the sum of the byte counts fits in a `usize`, the counter
/// holds that sum.
pub proof fn lemma_wrapping_total_exact(counts: Seq<usize>)
    requires
        total(counts) <= usize::MAX,
    ensures
        wrapping_total(counts) == total(counts),
    decreases counts.len(),
{
    if counts.len() > 0 {
        lemma_wrapping_total_exact(counts.drop_last());
    }
}

impl View for CheckoutStats {
    type V = StatsView;

    closed spec fn view(&self) -> StatsView {
        StatsView {
            removed: self.removed as nat,
            updated: self.updated as nat,
            meta_updated: self.meta_updated as nat,
            written_bytes: self.written_bytes as nat,
        }
    }
}

impl Default for CheckoutStats {
    fn default() -> (stats: CheckoutStats)
        ensures
            stats@ == (StatsView { removed: 0, updated: 0, meta_updated: 0, written_bytes: 0 }),
    {
        CheckoutStats { removed: 0, updated: 0, meta_updated: 0, written_bytes: 0 }
    }
}

impl CheckoutStats {
    /// Number of files removed.
    pub fn removed(&self) -> (n: usize)
        ensures
            n == self@.removed,
    {
        self.removed
    }

    /// Number of files whose content was written.
    pub fn updated(&self) -> (n: usize)
        ensures
            n == self@.updated,
    {
        self.updated
    }

    /// Number of files whose executable bit was flipped.
    pub fn meta_updated(&self) -> (n: usize)
        ensures
            n == self@.meta_updated,
    {
        self.meta_updated
    }

    /// Number of bytes written, modulo the width of `usize`.
    pub fn written_bytes(&self) -> (n: usize)
        ensures
            n == self@.written_bytes,
    {
        self.written_bytes
    }

    /// Counts one file as removed.
    pub fn record_removed(&mut self)
        requires
            old(self)@.removed < usize::MAX,
        ensures
            final(self)@ == (StatsView { removed: old(self)@.removed + 1, ..old(self)@ }),
    {
        self.removed = self.removed + 1;
    }

    /// Counts one file as written, with `bytes` bytes of content. The byte
    /// counter wraps around at the width of `usize`.
    pub fn record_written(&mut self, bytes: usize)
        requires
            old(self)@.updated < usize::MAX,
        ensures
            final(self)@ == (StatsView {
                updated: old(self)@.updated + 1,
                written_bytes: (old(self)@.written_bytes as usize).wrapping_add(bytes) as nat,
                ..old(self)@
            }),
    {
        self.updated = self.updated + 1;
        self.written_bytes = self.written_bytes.wrapping_add(bytes);
    }

    /// Counts one file as having had its executable bit flipped.
    pub fn record_meta_updated(&mut self)
        requires
            old(self)@.meta_updated < usize::MAX,
        ensures
            final(self)@ == (StatsView { meta_updated: old(self)@.meta_updated + 1, ..old(self)@ }),
    {
        self.meta_updated = self.meta_updated + 1;
    }
}

} // verus!
