//! The verified part of a progress-reporting scan.
//!
//! The surrounding program streams the file, feeds every line's byte count
//! into a `ScanProgress`, and asks it for the events it delivers to its
//! sink; the wall-clock rate limiting between events is the program's.

use crate::data::LoadingProgress;
use vstd::arithmetic::div_mod::{lemma_div_is_ordered, lemma_div_multiples_vanish};
use vstd::arithmetic::mul::lemma_mul_inequality;
use vstd::prelude::*;

verus! {

/// The estimate announced before anything has been read: one line per
/// hundred bytes, and at least one line.
pub open spec fn spec_initial_estimate(file_size: u64) -> int {
    if file_size / 100 >= 1 {
        file_size as int / 100
    } else {
        1
    }
}

/// The running estimate of the final line count: the lines seen so far
/// scaled up by the share of the file that is still unread, falling back
/// to the initial estimate while nothing has been read.
pub open spec fn spec_estimated_total(file_size: u64, lines_seen: u64, bytes_seen: u64) -> int {
    if bytes_seen == 0 {
        spec_initial_estimate(file_size)
    } else {
        (lines_seen as int) * (file_size as int) / (bytes_seen as int)
    }
}

/// The counters of one scan over one file.
pub struct ScanProgress {
    /// The file's size in bytes, measured once before the scan.
    pub file_size: u64,
    /// Lines counted so far.
    pub lines_seen: u64,
    /// Bytes read so far, line terminators included.
    pub bytes_seen: u64,
}

impl ScanProgress {
    /// Every counted line took at least one byte.
    pub open spec fn wf(&self) -> bool {
        self.lines_seen <= self.bytes_seen
    }

    /// A fresh scan over a file of `file_size` bytes.
    pub fn new(file_size: u64) -> (r: Self)
        ensures
            r.file_size == file_size,
            r.lines_seen == 0,
            r.bytes_seen == 0,
            r.wf(),
    {
        ScanProgress { file_size, lines_seen: 0, bytes_seen: 0 }
    }

    /// Count one line of `bytes` bytes (terminator included, so at least
    /// one byte).
    pub fn record_line(&mut self, bytes: u64)
        requires
            old(self).wf(),
            1 <= bytes,
            old(self).bytes_seen + bytes <= u64::MAX,
            old(self).lines_seen < u64::MAX,
        ensures
            final(self).file_size == old(self).file_size,
            final(self).lines_seen == old(self).lines_seen + 1,
            final(self).bytes_seen == old(self).bytes_seen + bytes,
            final(self).wf(),
    {
        self.lines_seen = self.lines_seen + 1;
        self.bytes_seen = self.bytes_seen + bytes;
    }

    /// The estimate announced before anything has been read.
    pub fn initial_estimate(&self) -> (r: u64)
        ensures
            r == spec_initial_estimate(self.file_size),
    {
        let e = self.file_size / 100;
        if e >= 1 {
            e
        } else {
            1
        }
    }

    /// The running estimate of the final line count.
    pub fn estimated_total(&self) -> (r: u64)
        requires
            self.wf(),
        ensures
            r == spec_estimated_total(self.file_size, self.lines_seen, self.bytes_seen),
    {
        if self.bytes_seen == 0 {
            self.initial_estimate()
        } else {
            proof {
                assert((self.lines_seen as int) * (self.file_size as int) <= (u64::MAX as int)
                    * (u64::MAX as int)) by (nonlinear_arith)
                    requires
                        0 <= self.lines_seen as int <= u64::MAX as int,
                        0 <= self.file_size as int <= u64::MAX as int,
                ;
            }
            let prod: u128 = (self.lines_seen as u128) * (self.file_size as u128);
            let est: u128 = prod / (self.bytes_seen as u128);
            proof {
                self.lemma_estimate_bounded();
            }
            est as u64
        }
    }

    /// The estimate never exceeds the file size: at least one byte was
    /// read for every line counted.
    proof fn lemma_estimate_bounded(&self)
        requires
            self.wf(),
            self.bytes_seen > 0,
        ensures
            0 <= (self.lines_seen as int) * (self.file_size as int) / (self.bytes_seen as int)
                <= self.file_size,
    {
        let l = self.lines_seen as int;
        let f = self.file_size as int;
        let b = self.bytes_seen as int;
        lemma_mul_inequality(l, b, f);
        lemma_div_is_ordered(l * f, b * f, b);
        lemma_div_multiples_vanish(f, b);
    }

    /// The event delivered before the first read.
    pub fn start_event(&self) -> (r: LoadingProgress)
        ensures
            r.current == 0,
            r.total == spec_initial_estimate(self.file_size),
            r.stage@ == "counting lines"@,
    {
        LoadingProgress { current: 0, total: self.initial_estimate(), stage: "counting lines".to_owned() }
    }

    /// An event delivered somewhere inside the scan.
    pub fn interim_event(&self) -> (r: LoadingProgress)
        requires
            self.wf(),
        ensures
            r.current == self.lines_seen,
            r.total == spec_estimated_total(self.file_size, self.lines_seen, self.bytes_seen),
            r.stage@ == "counting lines"@,
    {
        LoadingProgress {
            current: self.lines_seen,
            total: self.estimated_total(),
            stage: "counting lines".to_owned(),
        }
    }

    /// The closing event: the count is now exact.
    pub fn final_event(&self) -> (r: LoadingProgress)
        ensures
            r.current == self.lines_seen,
            r.total == self.lines_seen,
            r.stage@ == "line count finished"@,
    {
        LoadingProgress {
            current: self.lines_seen,
            total: self.lines_seen,
            stage: "line count finished".to_owned(),
        }
    }
}

} // verus!
