//! Frame-lifecycle instrumentation.
//!
//! A frame takes a checkpoint, in nanoseconds since it began, at every state transition. The line
//! that is logged carries the timeline value of the submission, by which it can be joined with
//! timings that were taken on the device.

use crate::text::{decimal, decimal_of, lowered, reads_as, trim, trimmed};
use std::collections::VecDeque;
use vstd::prelude::*;
use vstd::string::*;

verus! {

/// What is done with the checkpoints of a frame.
#[derive(Clone, Copy, Debug, PartialEq, Eq, Structural)]
pub enum Mode {
    Off,
    /// A structured line is logged.
    Log,
    /// The frame is also retained.
    LogRing,
}

impl Mode {
    /// The mode that a setting asks for, whatever its case and the white space around it.
    pub open spec fn of(value: Option<Seq<char>>) -> Mode {
        match value {
            None => Mode::Off,
            Some(v) => {
                let word = lowered(trimmed(v));
                if word == ""@ || word == "0"@ || word == "false"@ || word == "off"@ {
                    Mode::Off
                } else if word == "ring"@ {
                    Mode::LogRing
                } else {
                    Mode::Log
                }
            },
        }
    }

    /// The mode that a setting asks for.
    pub fn from_setting(value: Option<&str>) -> (mode: Mode)
        ensures
            mode == Self::of(
                match value {
                    None => None,
                    Some(v) => Some(v@),
                },
            ),
    {
        match value {
            None => Mode::Off,
            Some(v) => {
                let word: &str = trim(v);
                if reads_as(word, "") || reads_as(word, "0") || reads_as(word, "false") || reads_as(word, "off") {
                    Mode::Off
                } else if reads_as(word, "ring") {
                    Mode::LogRing
                } else {
                    Mode::Log
                }
            },
        }
    }

    /// Whether checkpoints are taken at all.
    pub fn enabled(self) -> (b: bool)
        ensures
            b == !(self is Off),
    {
        match self {
            Mode::Off => false,
            _ => true,
        }
    }
}

/// One captured frame's checkpoints.
#[derive(Debug)]
pub struct FrameTraceRecord {
    pub frame_num: u64,
    pub timeline: u64,
    /// Label and nanoseconds since the frame began, for each checkpoint, in order.
    pub checkpoints: Vec<(&'static str, u64)>,
    /// Total time of the frame, in nanoseconds.
    pub total_ns: u64,
}

impl Clone for FrameTraceRecord {
    fn clone(&self) -> (r: Self)
        ensures
            r.checkpoints@ == self.checkpoints@,
            r == (FrameTraceRecord { checkpoints: r.checkpoints, ..*self }),
    {
        let mut checkpoints: Vec<(&'static str, u64)> = Vec::new();
        let mut i: usize = 0;
        while i < self.checkpoints.len()
            invariant
                i <= self.checkpoints.len(),
                checkpoints@ == self.checkpoints@.take(i as int),
            decreases self.checkpoints.len() - i,
        {
            checkpoints.push(self.checkpoints[i]);
            i = i + 1;
            assert(checkpoints@ =~= self.checkpoints@.take(i as int));
        }
        assert(checkpoints@ =~= self.checkpoints@);
        FrameTraceRecord { frame_num: self.frame_num, timeline: self.timeline, checkpoints, total_ns: self.total_ns }
    }
}

pub const RING_CAP: usize = 256;

/// The frames that were captured last.
pub struct TraceRing {
    pub records: VecDeque<FrameTraceRecord>,
}

impl TraceRing {
    pub open spec fn wf(self) -> bool {
        self.records@.len() <= RING_CAP
    }

    pub fn new() -> (ring: TraceRing)
        ensures
            ring.wf(),
            ring.records@.len() == 0,
    {
        TraceRing { records: VecDeque::new() }
    }

    /// The frame that was captured last.
    pub fn last_frame(&self) -> (record: Option<&FrameTraceRecord>)
        ensures
            match record {
                Some(r) => self.records@.len() > 0 && *r == self.records@.last(),
                None => self.records@.len() == 0,
            },
    {
        let n: usize = self.records.len();
        if n == 0 {
            None
        } else {
            Some(&self.records[n - 1])
        }
    }

    /// Retains a frame. The oldest one makes room for it.
    pub fn retain(&mut self, record: FrameTraceRecord)
        requires
            old(self).wf(),
        ensures
            final(self).wf(),
            final(self).records@ == (if old(self).records@.len() == RING_CAP {
                old(self).records@.skip(1)
            } else {
                old(self).records@
            }).push(record),
            0 < final(self).records@.len() <= 256,
            final(self).records@.last() == record,
            old(self).records@.len() < 256 ==> final(self).records@.drop_last() == old(self).records@,
    {
        let ghost before = self.records@;
        if self.records.len() == RING_CAP {
            let _ = self.records.pop_front();
            assert(self.records@ =~= before.skip(1));
        }
        self.records.push_back(record);
    }
}

/// Time of the checkpoint before the one at `i`.
pub open spec fn time_before(marks: Seq<(&'static str, u64)>, i: int) -> u64 {
    if i <= 0 {
        0
    } else {
        marks[i - 1].1
    }
}

/// Time that went by between a checkpoint and the one before it.
pub open spec fn delta(marks: Seq<(&'static str, u64)>, i: int) -> nat {
    if marks[i].1 >= time_before(marks, i) {
        (marks[i].1 - time_before(marks, i)) as nat
    } else {
        0
    }
}

/// The first `n` checkpoints as they are logged.
pub open spec fn segments(marks: Seq<(&'static str, u64)>, n: int) -> Seq<char>
    decreases n,
{
    if n <= 0 {
        seq![]
    } else {
        segments(marks, n - 1) + " "@ + marks[n - 1].0@ + "="@ + decimal_of(delta(marks, n - 1)) + "ns"@
    }
}

/// The line that is logged of a frame.
pub open spec fn line_of(frame_num: u64, timeline: u64, marks: Seq<(&'static str, u64)>) -> Seq<char> {
    "[FTRACE] frame="@ + decimal_of(frame_num as nat) + " timeline="@ + decimal_of(timeline as nat) + segments(
        marks,
        marks.len() as int,
    ) + " total="@ + decimal_of(marks.last().1 as nat) + "ns"@
}

/// Sum of the first `n` times that are logged.
pub open spec fn sum_of_deltas(marks: Seq<(&'static str, u64)>, n: int) -> nat
    decreases n,
{
    if n <= 0 {
        0
    } else {
        sum_of_deltas(marks, n - 1) + delta(marks, n - 1)
    }
}

/// Where time does not run backwards, the times that are logged add up to the time of the
/// checkpoint.
pub proof fn times_are_recovered_by_summing(marks: Seq<(&'static str, u64)>, n: int)
    requires
        0 < n <= marks.len(),
        forall|i: int, j: int| 0 <= i < j < marks.len() ==> (#[trigger] marks[i]).1 <= (#[trigger] marks[j]).1,
    ensures
        sum_of_deltas(marks, n) == marks[n - 1].1,
    decreases n,
{
    if n > 1 {
        times_are_recovered_by_summing(marks, n - 1);
    } else {
        assert(sum_of_deltas(marks, 0) == 0);
    }
}

/// Per-frame checkpoint recorder. Take one at the top of a frame, mark each state transition, then
/// emit it.
pub struct FrameTrace {
    pub mode: Mode,
    pub marks: Vec<(&'static str, u64)>,
}

impl FrameTrace {
    /// Begins a trace.
    pub fn begin(mode: Mode) -> (trace: Self)
        ensures
            trace.mode == mode,
            trace.marks@.len() == 0,
    {
        FrameTrace { mode, marks: Vec::new() }
    }

    /// Records a checkpoint, labelled by the state transition that just completed, unless tracing is
    /// off.
    pub fn mark(&mut self, label: &'static str, since_start: u64)
        ensures
            final(self).mode == old(self).mode,
            final(self).marks@ == (if old(self).mode is Off {
                old(self).marks@
            } else {
                old(self).marks@.push((label, since_start))
            }),
            !(old(self).mode is Off) ==> final(self).marks@.last().0 == label && final(self).marks@.last().1
                == since_start,
    {
        if self.mode.enabled() {
            self.marks.push((label, since_start));
        }
    }

    /// Finishes the trace: the line to log, if there is anything to log. The frame is retained where
    /// the mode asks for it.
    pub fn emit(self, ring: &mut TraceRing, frame_num: u64, timeline: u64) -> (line: Option<String>)
        requires
            old(ring).wf(),
        ensures
            final(ring).wf(),
            match line {
                None => self.mode is Off || self.marks@.len() == 0,
                Some(l) => {
                    &&& !(self.mode is Off)
                    &&& self.marks@.len() > 0
                    &&& l@ == line_of(frame_num, timeline, self.marks@)
                },
            },
            line is Some && self.mode is LogRing ==> {
                let record = final(ring).records@.last();
                &&& record.frame_num == frame_num && record.timeline == timeline
                &&& record.checkpoints@ == self.marks@
                &&& record.total_ns == self.marks@[self.marks@.len() - 1].1
            },
            if line is Some && self.mode is LogRing {
                final(ring).records@ == (if old(ring).records@.len() == RING_CAP {
                    old(ring).records@.skip(1)
                } else {
                    old(ring).records@
                }).push(
                    FrameTraceRecord {
                        frame_num,
                        timeline,
                        checkpoints: self.marks,
                        total_ns: self.marks@.last().1,
                    },
                )
            } else {
                *final(ring) == *old(ring)
            },
    {
        let n: usize = self.marks.len();
        if !self.mode.enabled() || n == 0 {
            return None;
        }
        let total_ns: u64 = self.marks[n - 1].1;
        let mut line: String = String::from_str("[FTRACE] frame=");
        let frame: String = decimal(frame_num);
        let time: String = decimal(timeline);
        let total: String = decimal(total_ns);
        line.append(frame.as_str());
        line.append(" timeline=");
        line.append(time.as_str());
        let ghost head = line@;
        let mut prev_ns: u64 = 0;
        let mut i: usize = 0;
        assert(line@ =~= head + segments(self.marks@, 0));
        while i < n
            invariant
                n == self.marks.len(),
                i <= n,
                prev_ns == time_before(self.marks@, i as int),
                line@ == head + segments(self.marks@, i as int),
            decreases n - i,
        {
            let at_ns: u64 = self.marks[i].1;
            let apart: u64 = at_ns.saturating_sub(prev_ns);
            let text: String = decimal(apart);
            line.append(" ");
            line.append(self.marks[i].0);
            line.append("=");
            line.append(text.as_str());
            line.append("ns");
            prev_ns = at_ns;
            i = i + 1;
            assert(line@ =~= head + segments(self.marks@, i as int));
        }
        line.append(" total=");
        line.append(total.as_str());
        line.append("ns");
        assert(line@ =~= line_of(frame_num, timeline, self.marks@));
        if let Mode::LogRing = self.mode {
            ring.retain(FrameTraceRecord { frame_num, timeline, checkpoints: self.marks, total_ns });
        }
        Some(line)
    }
}

} // verus!
