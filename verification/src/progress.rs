//! Counting the bytes of one transfer as they are read, without touching
//! them: the counter behind a progress display.

use vstd::prelude::*;
use vstd::string::StringExecFns;
use crate::text::{decimal, push_decimal};

verus! {

/// The counter as a mathematical value.
pub struct ProgressView {
    /// Expected length of the transfer.
    pub total: nat,
    /// Bytes seen so far.
    pub observed: nat,
    /// Whether the count is closed.
    pub finished: bool,
}

/// Bytes that one read adds to the count: what the read put into the
/// buffer when it came back ready and without error, nothing otherwise.
pub open spec fn read_increment(before: nat, after: nat, ready_ok: bool) -> nat {
    if ready_ok && after > before {
        (after - before) as nat
    } else {
        0
    }
}

impl ProgressView {
    /// A fresh counter for a transfer of `total` bytes.
    pub open spec fn initial(total: nat) -> ProgressView {
        ProgressView { total, observed: 0, finished: false }
    }

    /// The counter after `count` more bytes. A closed counter stays as it
    /// is; an open one stops at the largest value that fits 64 bits.
    pub open spec fn add(self, count: nat) -> ProgressView {
        if self.finished {
            self
        } else if self.observed + count > u64::MAX {
            ProgressView { observed: u64::MAX as nat, ..self }
        } else {
            ProgressView { observed: self.observed + count, ..self }
        }
    }

    /// The counter after reads of these sizes, in this order.
    pub open spec fn after_reads(self, sizes: Seq<nat>) -> ProgressView
        decreases sizes.len(),
    {
        if sizes.len() == 0 {
            self
        } else {
            self.after_reads(sizes.drop_last()).add(sizes.last())
        }
    }

    /// The closed counter.
    pub open spec fn close(self) -> ProgressView {
        ProgressView { finished: true, ..self }
    }
}

/// Sum of the sizes of a sequence of reads.
pub open spec fn sizes_sum(sizes: Seq<nat>) -> nat
    decreases sizes.len(),
{
    if sizes.len() == 0 {
        0
    } else {
        sizes_sum(sizes.drop_last()) + sizes.last()
    }
}

/// However a read of a file is split into pieces, a counter that saw every
/// piece stands at the sum of their sizes, as long as that fits 64 bits.
pub proof fn lemma_count_is_sum_of_reads(total: nat, sizes: Seq<nat>)
    requires
        sizes_sum(sizes) <= u64::MAX,
    ensures
        ProgressView::initial(total).after_reads(sizes).observed == sizes_sum(sizes),
        !ProgressView::initial(total).after_reads(sizes).finished,
        ProgressView::initial(total).after_reads(sizes).total == total,
    decreases sizes.len(),
{
    if sizes.len() > 0 {
        lemma_count_is_sum_of_reads(total, sizes.drop_last());
    }
}

/// After a full read of a file the count equals the file's length, whatever
/// the sizes of the single reads were: the counter of a transfer sized to
/// the file ends at its total.
pub proof fn lemma_full_read_counts_file_length(file_size: u64, sizes: Seq<nat>)
    requires
        sizes_sum(sizes) == file_size,
    ensures
        ProgressView::initial(file_size as nat).after_reads(sizes).observed == file_size,
        ProgressView::initial(file_size as nat).after_reads(sizes).close().observed
            == ProgressView::initial(file_size as nat).total,
{
    lemma_count_is_sum_of_reads(file_size as nat, sizes);
}

/// The count never goes down.
pub proof fn lemma_count_never_decreases(state: ProgressView, count: nat)
    requires
        state.observed <= u64::MAX,
    ensures
        state.add(count).observed >= state.observed,
        state.add(count).observed <= u64::MAX,
{
}

/// Counter of the bytes read for one transfer.
#[derive(Debug)]
pub struct ProgressState {
    total: u64,
    observed: u64,
    finished: bool,
}

impl View for ProgressState {
    type V = ProgressView;

    closed spec fn view(&self) -> ProgressView {
        ProgressView {
            total: self.total as nat,
            observed: self.observed as nat,
            finished: self.finished,
        }
    }
}

impl ProgressState {
    /// A counter at zero for a transfer of `total` bytes.
    pub fn new(total: u64) -> (state: Self)
        ensures
            state@ == ProgressView::initial(total as nat),
    {
        ProgressState { total, observed: 0, finished: false }
    }

    /// Takes note of one read of the observed source. `before` and `after`
    /// are the filled lengths of the read buffer around the read, and
    /// `ready_ok` says that the read came back ready and without error.
    /// Returns the bytes that the read delivered, which is what a display
    /// has to advance by.
    pub fn record_read(&mut self, before: usize, after: usize, ready_ok: bool) -> (counted: u64)
        ensures
            counted == if old(self)@.finished {
                0
            } else {
                read_increment(before as nat, after as nat, ready_ok)
            },
            final(self)@ == old(self)@.add(counted as nat),
            final(self)@.observed >= old(self)@.observed,
    {
        if self.finished || !ready_ok || after <= before {
            return 0;
        }
        let counted: u64 = (after - before) as u64;
        self.observed = self.observed.saturating_add(counted);
        counted
    }

    /// Bytes seen so far.
    pub fn position(&self) -> (n: u64)
        ensures
            n == self@.observed,
    {
        self.observed
    }

    /// Expected length of the transfer.
    pub fn total(&self) -> (n: u64)
        ensures
            n == self@.total,
    {
        self.total
    }

    /// Whether the count is closed.
    pub fn is_finished(&self) -> (b: bool)
        ensures
            b == self@.finished,
    {
        self.finished
    }

    /// Closes the count and returns where it stands. From here on no read
    /// changes it.
    pub fn finish(&mut self) -> (n: u64)
        ensures
            final(self)@ == old(self)@.close(),
            n == old(self)@.observed,
    {
        self.finished = true;
        self.observed
    }

    /// The closing line of a display: `Uploaded N bytes`.
    pub fn finish_message(&self) -> (text: String)
        ensures
            text@ == "Uploaded "@ + decimal(self@.observed) + " bytes"@,
    {
        let mut text = "Uploaded ".to_owned();
        push_decimal(&mut text, self.observed);
        text.append(" bytes");
        text
    }
}

} // verus!
