use vstd::prelude::*;
use vstd::slice::slice_to_vec;

verus! {

/// Largest payload handed to the serial bus in one write.
pub const SPI_CHUNK_SIZE: usize = 4096;

/// Discrete output lines that the controllers are driven through.
#[derive(Clone, Copy, Debug, PartialEq, Eq, Structural)]
pub enum OutputLine {
    /// The single chip-select of a one-chip panel.
    ChipSelect,
    /// First chip-select of a two-chip panel.
    ChipSelect0,
    /// Second chip-select of a two-chip panel.
    ChipSelect1,
    /// Data/command selector: low for an opcode, high for parameters.
    DataCommand,
    /// Hardware reset.
    Reset,
}

/// One unit of hardware work.  A host performs the steps of a plan in order
/// and stops at the first failure.
#[derive(Debug)]
pub enum BusStep {
    SetLine { line: OutputLine, value: u8 },
    Sleep { millis: u64 },
    /// One serial write of at most `SPI_CHUNK_SIZE` bytes.
    Write(Vec<u8>),
    /// Wait on the busy line (see `busy_next`); a timeout is an error only
    /// when `fatal`.
    WaitBusy { millis: u64, fatal: bool },
}

/// Mathematical form of a bus step.
pub enum StepView {
    SetLine(OutputLine, u8),
    Sleep(u64),
    Write(Seq<u8>),
    WaitBusy(u64, bool),
}

impl View for BusStep {
    type V = StepView;

    open spec fn view(&self) -> StepView {
        match self {
            BusStep::SetLine { line, value } => StepView::SetLine(*line, *value),
            BusStep::Sleep { millis } => StepView::Sleep(*millis),
            BusStep::Write(bytes) => StepView::Write(bytes@),
            BusStep::WaitBusy { millis, fatal } => StepView::WaitBusy(*millis, *fatal),
        }
    }
}

pub open spec fn steps_view(steps: Seq<BusStep>) -> Seq<StepView> {
    steps.map_values(|s: BusStep| s@)
}

/// A payload split into consecutive writes of at most `SPI_CHUNK_SIZE` bytes.
pub open spec fn chunk_writes(payload: Seq<u8>) -> Seq<StepView>
    decreases payload.len(),
{
    if payload.len() <= SPI_CHUNK_SIZE {
        seq![StepView::Write(payload)]
    } else {
        seq![StepView::Write(payload.take(SPI_CHUNK_SIZE as int))] + chunk_writes(
            payload.skip(SPI_CHUNK_SIZE as int),
        )
    }
}

/// Appends one step.
pub fn push_step(steps: &mut Vec<BusStep>, step: BusStep)
    ensures
        steps_view(final(steps)@) == steps_view(old(steps)@).push(step@),
{
    let ghost s = step@;
    steps.push(step);
    assert(steps_view(steps@) =~= steps_view(old(steps)@).push(s));
}

/// Appends the writes that carry `payload`, in chunks.
pub fn push_chunked(steps: &mut Vec<BusStep>, payload: &[u8])
    ensures
        steps_view(final(steps)@) == steps_view(old(steps)@) + chunk_writes(payload@),
{
    let len = payload.len();
    let mut off: usize = 0;
    assert(payload@.skip(0) =~= payload@);
    while len - off > SPI_CHUNK_SIZE
        invariant
            len == payload@.len(),
            off <= len,
            steps_view(steps@) + chunk_writes(payload@.skip(off as int)) == steps_view(old(steps)@)
                + chunk_writes(payload@),
        decreases len - off,
    {
        let ghost before = steps_view(steps@);
        let ghost rest = payload@.skip(off as int);
        let chunk = slice_to_vec(&payload[off..off + SPI_CHUNK_SIZE]);
        assert(chunk@ =~= rest.take(SPI_CHUNK_SIZE as int));
        assert(rest.skip(SPI_CHUNK_SIZE as int) =~= payload@.skip(off + SPI_CHUNK_SIZE));
        push_step(steps, BusStep::Write(chunk));
        assert(steps_view(steps@) + chunk_writes(payload@.skip(off + SPI_CHUNK_SIZE)) =~= before
            + chunk_writes(rest));
        off = off + SPI_CHUNK_SIZE;
    }
    let last = slice_to_vec(&payload[off..len]);
    assert(last@ =~= payload@.skip(off as int));
    push_step(steps, BusStep::Write(last));
    assert(steps_view(steps@) =~= steps_view(old(steps)@) + chunk_writes(payload@));
}

/// Which controller family a plan or a busy-wait belongs to.
#[derive(Clone, Copy, Debug, PartialEq, Eq, Structural)]
pub enum ControllerFamily {
    Uc8159,
    El133Uf1,
}

/// What the host observed after performing the previous busy-wait action.
#[derive(Clone, Copy, Debug, PartialEq, Eq, Structural)]
pub enum BusyEvent {
    /// The wait begins.
    Begin,
    /// Level of the busy line at the first read (`true` when asserted).
    FirstLevel(bool),
    /// Level of the busy line at a later read.
    Level(bool),
    /// A sleep ended; `finish` echoes the sleep's flag.
    Slept { finish: bool },
    /// Milliseconds elapsed since the wait began.
    Clock(u64),
}

/// What the host does next while waiting on the busy line.
#[derive(Clone, Copy, Debug, PartialEq, Eq, Structural)]
pub enum BusyAction {
    ReadFirst,
    Read,
    Sleep { millis: u64, finish: bool },
    CheckClock,
    Finish,
    TimedOut,
}

/// Interval between two polls of the busy line, in milliseconds.
pub const BUSY_POLL_MILLIS: u64 = 10;

/// The busy-wait decisions.  The UC8159 family waits for the line to be
/// asserted, and when it is asserted at the very first read it sleeps the
/// whole timeout and reports success.  The EL133UF1 family waits for the
/// line to be released.  Both poll every `BUSY_POLL_MILLIS` until the
/// timeout.
pub fn busy_next(family: ControllerFamily, event: BusyEvent, timeout_ms: u64) -> (r: BusyAction)
    ensures
        r == spec_busy_next(family, event, timeout_ms),
{
    match event {
        BusyEvent::Begin => match family {
            ControllerFamily::Uc8159 => BusyAction::ReadFirst,
            ControllerFamily::El133Uf1 => BusyAction::CheckClock,
        },
        BusyEvent::Clock(elapsed) => if elapsed < timeout_ms {
            BusyAction::Read
        } else {
            BusyAction::TimedOut
        },
        BusyEvent::Slept { finish } => if finish {
            BusyAction::Finish
        } else {
            BusyAction::CheckClock
        },
        BusyEvent::FirstLevel(high) => match family {
            ControllerFamily::Uc8159 => if high {
                BusyAction::Sleep { millis: timeout_ms, finish: true }
            } else {
                BusyAction::CheckClock
            },
            ControllerFamily::El133Uf1 => el133uf1_level(high),
        },
        BusyEvent::Level(high) => match family {
            ControllerFamily::Uc8159 => if high {
                BusyAction::Finish
            } else {
                BusyAction::Sleep { millis: BUSY_POLL_MILLIS, finish: false }
            },
            ControllerFamily::El133Uf1 => el133uf1_level(high),
        },
    }
}

fn el133uf1_level(high: bool) -> (r: BusyAction)
    ensures
        r == (if high {
            BusyAction::Sleep { millis: BUSY_POLL_MILLIS, finish: false }
        } else {
            BusyAction::Finish
        }),
{
    if high {
        BusyAction::Sleep { millis: BUSY_POLL_MILLIS, finish: false }
    } else {
        BusyAction::Finish
    }
}

pub open spec fn spec_busy_next(family: ControllerFamily, event: BusyEvent, timeout_ms: u64) -> BusyAction {
    match event {
        BusyEvent::Begin => if family is Uc8159 {
            BusyAction::ReadFirst
        } else {
            BusyAction::CheckClock
        },
        BusyEvent::Clock(elapsed) => if elapsed < timeout_ms {
            BusyAction::Read
        } else {
            BusyAction::TimedOut
        },
        BusyEvent::Slept { finish } => if finish {
            BusyAction::Finish
        } else {
            BusyAction::CheckClock
        },
        BusyEvent::FirstLevel(high) | BusyEvent::Level(high) => if family is Uc8159 {
            if high && event is FirstLevel {
                BusyAction::Sleep { millis: timeout_ms, finish: true }
            } else if high {
                BusyAction::Finish
            } else if event is FirstLevel {
                BusyAction::CheckClock
            } else {
                BusyAction::Sleep { millis: BUSY_POLL_MILLIS, finish: false }
            }
        } else if high {
            BusyAction::Sleep { millis: BUSY_POLL_MILLIS, finish: false }
        } else {
            BusyAction::Finish
        },
    }
}

/// The work of one `show`: the initialisation steps when the panel is not
/// initialised yet, then the frame transfer and refresh.  The host runs
/// `initialise` first and reports its success to the driver before running
/// `transfer`.
#[derive(Debug)]
pub struct ShowPlan {
    pub initialise: Option<Vec<BusStep>>,
    pub transfer: Vec<BusStep>,
}

} // verus!
