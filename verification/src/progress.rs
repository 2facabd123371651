//! Progress of one transfer: the bytes received so far against the size the
//! server declared, and the whole percentage that is shown for them.

use vstd::prelude::*;
use vstd::arithmetic::div_mod::{lemma_div_is_ordered, lemma_div_multiples_vanish};

verus! {

/// Name of the event that carries a progress report to the front end.
pub const PROGRESS_EVENT: &'static str = "update-download-progress";

/// Whole percent of `total` that `received` amounts to, rounded down.
pub open spec fn percent_of(received: nat, total: nat) -> nat
    recommends
        total > 0,
{
    received * 100 / total
}

/// The percentage as it is reported: `percent_of`, held to what a `u32` can
/// carry. It stays within 0 to 100 as long as no more than `total` arrived.
pub open spec fn reported_percent(received: nat, total: nat) -> u32
    recommends
        total > 0,
{
    if percent_of(received, total) <= u32::MAX {
        percent_of(received, total) as u32
    } else {
        u32::MAX
    }
}

/// What can be reported for `received` bytes out of `total`: nothing while
/// the size is unknown (zero), else the reported percentage.
pub open spec fn percentage_of(received: nat, total: nat) -> Option<u32> {
    if total == 0 {
        None
    } else {
        Some(reported_percent(received, total))
    }
}

/// Computes the percentage to report for `received` bytes out of `total`.
/// A `total` of zero means that the size is unknown, and yields `None`.
pub fn percentage(received: u64, total: u64) -> (p: Option<u32>)
    ensures
        p == percentage_of(received as nat, total as nat),
{
    if total == 0 {
        return None;
    }
    let scaled: u128 = (received as u128) * 100;
    let whole: u128 = scaled / (total as u128);
    if whole > u32::MAX as u128 {
        Some(u32::MAX)
    } else {
        Some(whole as u32)
    }
}

/// More bytes never lower the reported percentage.
pub proof fn lemma_percent_monotonic(fewer: nat, more: nat, total: nat)
    requires
        fewer <= more,
        total > 0,
    ensures
        percent_of(fewer, total) <= percent_of(more, total),
        reported_percent(fewer, total) <= reported_percent(more, total),
{
    lemma_div_is_ordered(fewer as int * 100, more as int * 100, total as int);
}

/// Once exactly the declared size has arrived, the percentage is 100.
pub proof fn lemma_percent_full(total: nat)
    requires
        total > 0,
    ensures
        percent_of(total, total) == 100,
        reported_percent(total, total) == 100,
{
    lemma_div_multiples_vanish(100, total as int);
    assert(total as int * 100 == total * 100);
}

/// While no more than the declared size has arrived, the percentage is at
/// most 100.
pub proof fn lemma_percent_bounded(received: nat, total: nat)
    requires
        received <= total,
        total > 0,
    ensures
        percent_of(received, total) <= 100,
        reported_percent(received, total) <= 100,
{
    lemma_percent_monotonic(received, total, total);
    lemma_percent_full(total);
}

/// Mathematical model of a transfer in flight.
pub ghost struct TransferView {
    /// Bytes received and persisted so far.
    pub bytes_downloaded: nat,
    /// Size the server declared, zero if it declared none.
    pub total_size: nat,
}

impl TransferView {
    /// A transfer at its start, for the content length the response carried.
    pub open spec fn begin(content_length: Option<u64>) -> TransferView {
        TransferView {
            bytes_downloaded: 0,
            total_size: match content_length {
                Some(n) => n as nat,
                None => 0,
            },
        }
    }

    /// Whether `len` more bytes can still be counted in 64 bits.
    pub open spec fn fits(self, len: nat) -> bool {
        self.bytes_downloaded + len <= u64::MAX
    }

    /// The transfer after `len` more bytes.
    pub open spec fn record(self, len: nat) -> TransferView {
        TransferView { bytes_downloaded: self.bytes_downloaded + len, total_size: self.total_size }
    }

    /// The percentage this state shows, if the size is known.
    pub open spec fn percentage(self) -> Option<u32> {
        percentage_of(self.bytes_downloaded, self.total_size)
    }
}

/// State of one transfer. The stored percentage always is the one that
/// follows from the two byte counts.
#[derive(Clone, Copy, Debug)]
pub struct Transfer {
    bytes_downloaded: u64,
    total_size: u64,
    percentage: u32,
}

impl View for Transfer {
    type V = TransferView;

    closed spec fn view(&self) -> TransferView {
        TransferView {
            bytes_downloaded: self.bytes_downloaded as nat,
            total_size: self.total_size as nat,
        }
    }
}

impl Transfer {
    #[verifier::type_invariant]
    spec fn percentage_follows(self) -> bool {
        self.percentage == match percentage_of(
            self.bytes_downloaded as nat,
            self.total_size as nat,
        ) {
            Some(p) => p,
            None => 0u32,
        }
    }

    /// Starts a transfer for a response that declared `content_length`.
    pub fn begin(content_length: Option<u64>) -> (transfer: Transfer)
        ensures
            transfer@ == TransferView::begin(content_length),
    {
        let total_size: u64 = match content_length {
            Some(n) => n,
            None => 0,
        };
        let shown: u32 = match percentage(0, total_size) {
            Some(p) => p,
            None => 0,
        };
        Transfer { bytes_downloaded: 0, total_size, percentage: shown }
    }

    /// Counts `len` more bytes. `None` if the count would leave 64 bits.
    pub fn record(&self, len: u64) -> (next: Option<Transfer>)
        ensures
            match next {
                Some(t) => self@.fits(len as nat) && t@ == self@.record(len as nat),
                None => !self@.fits(len as nat),
            },
    {
        if len > u64::MAX - self.bytes_downloaded {
            return None;
        }
        let bytes_downloaded: u64 = self.bytes_downloaded + len;
        let shown: u32 = match percentage(bytes_downloaded, self.total_size) {
            Some(p) => p,
            None => 0,
        };
        Some(Transfer { bytes_downloaded, total_size: self.total_size, percentage: shown })
    }

    /// Bytes received so far.
    pub fn bytes_downloaded(&self) -> (n: u64)
        ensures
            n == self@.bytes_downloaded,
    {
        self.bytes_downloaded
    }

    /// Declared size, zero if unknown.
    pub fn total_size(&self) -> (n: u64)
        ensures
            n == self@.total_size,
    {
        self.total_size
    }

    /// The percentage to show, `None` while the size is unknown.
    pub fn percentage(&self) -> (p: Option<u32>)
        ensures
            p == self@.percentage(),
    {
        proof {
            use_type_invariant(self);
        }
        if self.total_size == 0 {
            None
        } else {
            Some(self.percentage)
        }
    }
}

} // verus!
