//! What the reporter computes at each tick and the line that it shows for a
//! direction.

use crate::mode::Mode;
use crate::rate::saturated;
use crate::sample::Sample;
use crate::window::average;
use crate::window::compute_average;
use crate::window::pruned;
use crate::window::window_average;
use crate::window::Window;
use humansize::file_size_opts::BINARY;
use humansize::FileSize;
use vstd::prelude::*;
use vstd::string::StringExecFns;

verus! {

/// The horizon of the short window: five seconds, in nanoseconds.
pub const FIVE_SECONDS: u64 = 5_000_000_000;

/// The horizon of the long window: one minute, in nanoseconds.
pub const ONE_MINUTE: u64 = 60_000_000_000;

/// The three rates of one direction at one tick, in bytes per second.
#[derive(Clone, Copy, Debug, PartialEq, Eq, Structural)]
pub struct Averages {
    pub one_second: usize,
    pub five_seconds: usize,
    pub one_minute: usize,
}

/// What the reporter keeps for one direction: the sample of the previous
/// tick and the two windows.
pub struct DirectionStats {
    last: Sample,
    short: Window,
    long: Window,
}

impl DirectionStats {
    /// The sample of the previous tick.
    pub closed spec fn last(self) -> Sample {
        self.last
    }

    /// The five-second window.
    pub closed spec fn short(self) -> Seq<Sample> {
        self.short@
    }

    /// The one-minute window.
    pub closed spec fn long(self) -> Seq<Sample> {
        self.long@
    }

    /// The horizons are those of the two windows.
    pub closed spec fn wf(self) -> bool {
        &&& self.short.span() == FIVE_SECONDS
        &&& self.long.span() == ONE_MINUTE
        &&& self.short@.len() > 0
        &&& self.long@.len() > 0
    }

    /// The statistics of a direction at the start of a run: both windows are
    /// seeded with a sample of no bytes, taken at `start`.
    pub fn new(start: u64) -> (stats: DirectionStats)
        ensures
            stats.wf(),
            stats.last() == (Sample { time: start, bytes: 0 }),
            stats.short() == seq![Sample { time: start, bytes: 0 }],
            stats.long() == seq![Sample { time: start, bytes: 0 }],
    {
        let seed = Sample { time: start, bytes: 0 };
        DirectionStats {
            last: seed,
            short: Window::new(seed, FIVE_SECONDS),
            long: Window::new(seed, ONE_MINUTE),
        }
    }

    /// These are the statistics that follow `before` once `sample` is
    /// recorded: it is the last sample, and it was pushed into both windows.
    pub open spec fn follows(self, before: DirectionStats, sample: Sample) -> bool {
        &&& self.wf()
        &&& self.last() == sample
        &&& self.short() == pruned(before.short().push(sample), sample.time - FIVE_SECONDS)
        &&& self.long() == pruned(before.long().push(sample), sample.time - ONE_MINUTE)
    }

    /// The rates that recording `sample` gives. The one-second rate is that
    /// of the new sample alone, measured from the sample of the previous
    /// tick. The other two are the averages of the windows once the sample is
    /// pushed into them.
    pub open spec fn recorded(self, sample: Sample) -> Averages {
        Averages {
            one_second: saturated(average(self.last().time, seq![sample])),
            five_seconds: saturated(
                window_average(pruned(self.short().push(sample), sample.time - FIVE_SECONDS)),
            ),
            one_minute: saturated(
                window_average(pruned(self.long().push(sample), sample.time - ONE_MINUTE)),
            ),
        }
    }

    /// Takes the sample of a tick and gives the three rates.
    pub fn record(&mut self, sample: Sample) -> (averages: Averages)
        requires
            old(self).wf(),
        ensures
            final(self).follows(*old(self), sample),
            averages == old(self).recorded(sample),
    {
        let newest: [Sample; 1] = [sample];
        assert(newest@ =~= seq![sample]);
        let one_second = compute_average(self.last.time, newest.as_slice());
        self.short.push(sample);
        let five_seconds = self.short.average();
        self.long.push(sample);
        let one_minute = self.long.average();
        self.last = sample;
        Averages { one_second, five_seconds, one_minute }
    }
}

/// The text that humansize's `file_size` gives for `bytes` with its `BINARY`
/// options: the count scaled by powers of 1024, with at most two decimal
/// places, a space and the unit (`B`, `KiB`, `MiB` and so on).
pub uninterp spec fn binary_size_text(bytes: usize) -> Seq<char>;

/// Calls `FileSize::file_size` of humansize on a `usize`, with the options
/// `BINARY`. For an unsigned number that function has no failing path: it
/// always returns `Ok`. The text is a function of the number alone.
#[verifier::external_body]
fn binary_size(bytes: usize) -> (shown: Result<String, String>)
    ensures
        shown is Ok,
        shown->Ok_0@ == binary_size_text(bytes),
{
    bytes.file_size(BINARY)
}

/// The line of one direction, given the direction's name and the three
/// rates as they are to be shown.
pub open spec fn line_text(
    direction: Seq<char>,
    one_second: Seq<char>,
    five_seconds: Seq<char>,
    one_minute: Seq<char>,
) -> Seq<char> {
    direction + ": 1s avg: "@ + one_second + "/s, 5s avg: "@ + five_seconds + "/s, 1min avg: "@
        + one_minute + "/s"@
}

/// The line of one direction for `averages`, each rate shown in binary
/// units.
pub open spec fn rendered(direction: Seq<char>, averages: Averages) -> Seq<char> {
    line_text(
        direction,
        binary_size_text(averages.one_second),
        binary_size_text(averages.five_seconds),
        binary_size_text(averages.one_minute),
    )
}

/// Puts the line of one direction together from the texts of its rates.
pub fn compose_line(direction: &str, one_second: &str, five_seconds: &str, one_minute: &str) -> (line:
    String)
    ensures
        line@ == line_text(direction@, one_second@, five_seconds@, one_minute@),
{
    let mut line = direction.to_owned();
    line.append(": 1s avg: ");
    line.append(one_second);
    line.append("/s, 5s avg: ");
    line.append(five_seconds);
    line.append("/s, 1min avg: ");
    line.append(one_minute);
    line.append("/s");
    line
}

/// The text of a rate in binary units.
pub fn size_text(bytes: usize) -> (text: String)
    ensures
        text@ == binary_size_text(bytes),
{
    match binary_size(bytes) {
        Ok(text) => text,
        Err(message) => message,
    }
}

/// The line of one direction for `averages`.
pub fn render_line(direction: &str, averages: &Averages) -> (line: String)
    ensures
        line@ == rendered(direction@, *averages),
{
    let one_second = size_text(averages.one_second);
    let five_seconds = size_text(averages.five_seconds);
    let one_minute = size_text(averages.one_minute);
    compose_line(direction, one_second.as_str(), five_seconds.as_str(), one_minute.as_str())
}

/// The state of the reporter: the mode of the run and the statistics of
/// either direction.
pub struct Reporter {
    mode: Mode,
    up: DirectionStats,
    down: DirectionStats,
}

impl Reporter {
    /// The mode of the run.
    pub closed spec fn mode(self) -> Mode {
        self.mode
    }

    /// The statistics of the upstream direction.
    pub closed spec fn up(self) -> DirectionStats {
        self.up
    }

    /// The statistics of the downstream direction.
    pub closed spec fn down(self) -> DirectionStats {
        self.down
    }

    pub open spec fn wf(self) -> bool {
        self.up().wf() && self.down().wf()
    }

    /// The number of lines that a tick shows: one for each active direction.
    pub open spec fn line_count(self) -> nat {
        (if self.mode().up {
            1nat
        } else {
            0nat
        }) + (if self.mode().down {
            1nat
        } else {
            0nat
        })
    }

    /// The reporter of a run in `mode` that started at `start`.
    pub fn new(mode: Mode, start: u64) -> (reporter: Reporter)
        ensures
            reporter.wf(),
            reporter.mode() == mode,
            reporter.up().last() == (Sample { time: start, bytes: 0 }),
            reporter.up().short() == seq![Sample { time: start, bytes: 0 }],
            reporter.up().long() == seq![Sample { time: start, bytes: 0 }],
            reporter.down().last() == (Sample { time: start, bytes: 0 }),
            reporter.down().short() == seq![Sample { time: start, bytes: 0 }],
            reporter.down().long() == seq![Sample { time: start, bytes: 0 }],
    {
        Reporter { mode, up: DirectionStats::new(start), down: DirectionStats::new(start) }
    }

    /// One tick: records the new sample of each active direction and gives
    /// the lines to show, upstream first. The statistics of a direction that
    /// is not active stay as they are.
    pub fn tick(&mut self, up: Sample, down: Sample) -> (lines: Vec<String>)
        requires
            old(self).wf(),
        ensures
            final(self).wf(),
            final(self).mode() == old(self).mode(),
            lines@.len() == old(self).line_count(),
            old(self).mode().up ==> {
                &&& final(self).up().follows(old(self).up(), up)
                &&& lines@[0]@ == rendered("Up"@, old(self).up().recorded(up))
            },
            !old(self).mode().up ==> final(self).up() == old(self).up(),
            old(self).mode().down ==> {
                &&& final(self).down().follows(old(self).down(), down)
                &&& lines@[lines@.len() - 1]@ == rendered(
                    "Down"@,
                    old(self).down().recorded(down),
                )
            },
            !old(self).mode().down ==> final(self).down() == old(self).down(),
    {
        let mut lines: Vec<String> = Vec::new();
        if self.mode.up {
            let averages = self.up.record(up);
            lines.push(render_line("Up", &averages));
        }
        if self.mode.down {
            let averages = self.down.record(down);
            lines.push(render_line("Down", &averages));
        }
        lines
    }
}

} // verus!
