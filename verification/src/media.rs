//! Counting of incoming audio frames and of the samples dumped for
//! debugging, with the decisions on when to report them.

use vstd::prelude::*;

verus! {

/// Sample rate of the negotiated Opus stream and of the dumped WAV file.
pub const SAMPLE_RATE: u32 = 48000;

/// Largest number of samples one Opus packet decodes to (120 ms at 48 kHz).
pub const MAX_PACKET_SAMPLES: usize = 5760;

/// A dump progress line is reported every this many samples (5 s of audio).
pub const PROGRESS_INTERVAL_SAMPLES: u64 = 240000;

/// What to report about a frame just counted.
#[derive(Clone, Copy, Debug, PartialEq, Eq, Structural)]
pub struct FrameNotice {
    /// Log the frame: one of the first five, or every 500th.
    pub log_frame: bool,
    /// Report a dump failure for this frame: one of the first three, or every 100th.
    pub report_dump_error: bool,
}

/// Whether frame number `n` (counting from 1) is logged.
pub open spec fn logs_frame(n: nat) -> bool {
    n <= 5 || n % 500 == 0
}

/// Whether a dump failure on frame number `n` (counting from 1) is reported.
pub open spec fn reports_dump_error(n: nat) -> bool {
    n <= 3 || n % 100 == 0
}

/// Consumes incoming audio media frames: counts frames and encoded bytes.
pub struct AudioSink {
    /// Number of media frames observed.
    frame_count: u64,
    /// Total number of encoded bytes observed.
    byte_count: u64,
}

impl AudioSink {
    /// Number of media frames observed.
    pub closed spec fn frames(&self) -> nat {
        self.frame_count as nat
    }

    /// Total number of encoded bytes observed.
    pub closed spec fn bytes(&self) -> nat {
        self.byte_count as nat
    }

    /// Create a new audio sink that has seen nothing.
    pub fn new() -> (sink: Self)
        ensures
            sink.frames() == 0,
            sink.bytes() == 0,
    {
        AudioSink { frame_count: 0, byte_count: 0 }
    }

    /// Count one encoded media frame of `len` bytes and say what to report.
    pub fn handle_frame(&mut self, len: usize) -> (notice: FrameNotice)
        requires
            old(self).frames() < u64::MAX,
            old(self).bytes() + len <= u64::MAX,
        ensures
            final(self).frames() == old(self).frames() + 1,
            final(self).bytes() == old(self).bytes() + len,
            notice.log_frame == logs_frame(final(self).frames()),
            notice.report_dump_error == reports_dump_error(final(self).frames()),
    {
        self.frame_count = self.frame_count + 1;
        self.byte_count = self.byte_count + len as u64;
        FrameNotice {
            log_frame: self.frame_count <= 5 || self.frame_count % 500 == 0,
            report_dump_error: self.frame_count <= 3 || self.frame_count % 100 == 0,
        }
    }

    /// Number of media frames observed.
    pub fn frame_count(&self) -> (n: u64)
        ensures
            n == self.frames(),
    {
        self.frame_count
    }

    /// Total number of encoded bytes observed.
    pub fn byte_count(&self) -> (n: u64)
        ensures
            n == self.bytes(),
    {
        self.byte_count
    }
}

/// Number of decoded samples written to the debugging dump.
pub struct DumpProgress {
    /// Number of decoded PCM samples written.
    sample_count: u64,
}

impl DumpProgress {
    /// Number of decoded PCM samples written.
    pub closed spec fn samples(&self) -> nat {
        self.sample_count as nat
    }

    /// Nothing written yet.
    pub fn new() -> (progress: Self)
        ensures
            progress.samples() == 0,
    {
        DumpProgress { sample_count: 0 }
    }

    /// Count `samples` more written samples; returns whether to report the
    /// duration written so far.
    pub fn record(&mut self, samples: usize) -> (report: bool)
        requires
            old(self).samples() + samples <= u64::MAX,
        ensures
            final(self).samples() == old(self).samples() + samples,
            report == (final(self).samples() % (PROGRESS_INTERVAL_SAMPLES as nat) < samples),
    {
        self.sample_count = self.sample_count + samples as u64;
        self.sample_count % PROGRESS_INTERVAL_SAMPLES < samples as u64
    }

    /// Number of decoded PCM samples written.
    pub fn sample_count(&self) -> (n: u64)
        ensures
            n == self.samples(),
    {
        self.sample_count
    }
}

/// The total length of frames of lengths `lens`.
pub open spec fn total_len(lens: Seq<nat>) -> nat
    decreases lens.len(),
{
    if lens.len() == 0 {
        0
    } else {
        total_len(lens.drop_last()) + lens.last()
    }
}

/// A sink that starts with nothing and then counts frames of lengths `lens`,
/// one after the other (`sinks[i + 1]` is `sinks[i]` after counting the frame
/// of length `lens[i]`), has seen exactly `lens.len()` frames and their total
/// length in bytes.
pub proof fn lemma_counts_add_up(sinks: Seq<AudioSink>, lens: Seq<nat>)
    requires
        sinks.len() == lens.len() + 1,
        sinks[0].frames() == 0,
        sinks[0].bytes() == 0,
        forall|i: int|
            0 <= i < lens.len() ==> #[trigger] sinks[i + 1].frames() == sinks[i].frames() + 1
                && sinks[i + 1].bytes() == sinks[i].bytes() + lens[i],
    ensures
        sinks.last().frames() == lens.len(),
        sinks.last().bytes() == total_len(lens),
    decreases lens.len(),
{
    if lens.len() > 0 {
        let n = lens.len() as int;
        let before = sinks.drop_last();
        let shorter = lens.drop_last();
        assert forall|i: int| 0 <= i < shorter.len() implies #[trigger] before[i + 1].frames() == before[i].frames() + 1
            && before[i + 1].bytes() == before[i].bytes() + shorter[i] by {
            assert(sinks[i + 1].frames() == sinks[i].frames() + 1);
        }
        lemma_counts_add_up(before, shorter);
        assert(sinks[n].frames() == sinks[n - 1].frames() + 1);
    }
}

/// A progress report is made exactly when the written sample count crosses
/// a multiple of [`PROGRESS_INTERVAL_SAMPLES`].
pub proof fn lemma_report_on_crossing(before: nat, samples: nat)
    ensures
        ((before + samples) % (PROGRESS_INTERVAL_SAMPLES as nat) < samples) == (before / (
        PROGRESS_INTERVAL_SAMPLES as nat) < (before + samples) / (PROGRESS_INTERVAL_SAMPLES as nat)),
{
    let p = PROGRESS_INTERVAL_SAMPLES as int;
    let b = before as int;
    let after = before as int + samples as int;
    let q = after / p;
    let r = after % p;
    assert(after == q * p + r && 0 <= r < p && q >= 0) by (nonlinear_arith)
        requires
            p > 0,
            after >= 0,
            q == after / p,
            r == after % p,
    ;
    if r < samples {
        assert(b < q * p);
        assert(b / p < q) by (nonlinear_arith)
            requires
                b < q * p,
                p > 0,
                b >= 0,
        ;
    } else {
        assert(b >= q * p);
        assert(b / p >= q) by (nonlinear_arith)
            requires
                b >= q * p,
                p > 0,
                q >= 0,
        ;
        assert(b / p <= q) by (nonlinear_arith)
            requires
                b <= after,
                q == after / p,
                p > 0,
                b >= 0,
        ;
    }
}

} // verus!
