//! The host side of the device search: the device program's source, and the decisions taken
//! between two device operations.
//!
//! The device search never ends by itself. Its caller enqueues the kernel, reads the clock,
//! sleeps and reads the solution back; after each of these it hands what happened to
//! [`MinerState::step`] and does what the returned action says. A search begins with
//! [`MinerState::reseed`], which draws its salt segment and starting nonce.

use crate::config::{AppConfig, ConfigView};
use crate::protocol::{
    candidate_found, check_candidate, found_views, reports_have_widths, FoundResult,
    FoundResultView,
};
use crate::text::{decimal, decimal_text};
use alloy_primitives::FixedBytes;
use rand::Rng;
use vstd::prelude::*;
use vstd::string::*;

verus! {

/// The line that defines one byte of the message as a constant of the device program.
pub open spec fn define_line(index: nat, value: u8) -> Seq<char> {
    "#define S_"@ + decimal_text(index) + " "@ + decimal_text(value as nat) + "u\n"@
}

/// One line per byte, in order; the first byte has the index `first_index`.
pub open spec fn define_lines(bytes: Seq<u8>, first_index: nat) -> Seq<char>
    decreases bytes.len(),
{
    if bytes.len() == 0 {
        Seq::empty()
    } else {
        define_lines(bytes.drop_last(), first_index) + define_line(
            (first_index + bytes.len() - 1) as nat,
            bytes.last(),
        )
    }
}

/// The constants of a configuration: each byte of factory, caller and codehash under the index
/// it has in the message.
pub open spec fn kernel_constants(config: ConfigView) -> Seq<char> {
    define_lines(config.factory, 1) + define_lines(config.caller, 21) + define_lines(
        config.codehash,
        53,
    )
}

fn push_define_lines(src: &mut String, bytes: &[u8], first_index: usize)
    requires
        first_index + bytes@.len() <= usize::MAX,
    ensures
        final(src)@ == old(src)@ + define_lines(bytes@, first_index as nat),
{
    let mut i: usize = 0;
    while i < bytes.len()
        invariant
            i <= bytes@.len(),
            first_index + bytes@.len() <= usize::MAX,
            src@ == old(src)@ + define_lines(bytes@.take(i as int), first_index as nat),
        decreases bytes@.len() - i,
    {
        src.append("#define S_");
        src.append(decimal(first_index + i).as_str());
        src.append(" ");
        src.append(decimal(bytes[i] as usize).as_str());
        src.append("u\n");
        assert(bytes@.take(i + 1).drop_last() =~= bytes@.take(i as int));
        i += 1;
    }
    assert(bytes@.take(bytes@.len() as int) =~= bytes@);
}

/// The source of the device program for one configuration: the configuration's constants,
/// then the kernel text.
pub fn mk_kernel_src(config: &AppConfig, kernel_src: &str) -> (src: String)
    ensures
        src@ == kernel_constants(config@) + kernel_src@,
{
    let mut src = String::new();
    push_define_lines(&mut src, config.factory.as_slice(), 1);
    push_define_lines(&mut src, config.caller.as_slice(), 21);
    push_define_lines(&mut src, config.codehash.as_slice(), 53);
    src.append(kernel_src);
    src
}

/// What the caller reports to the state machine.
#[derive(Debug, Clone, Copy, PartialEq, Eq)]
pub enum MinerEvent {
    /// A search begins: a fresh random salt segment and starting nonce were drawn.
    Seeded { salt: [u8; 4], nonce: u32 },
    /// The kernel was enqueued, and the clock read after it.
    Enqueued { secs: u64, subsec_nanos: u32 },
    /// The solution was read back, and the clock read after it. Zero means no match.
    ReadBack { solution: u64, secs: u64, subsec_nanos: u32 },
}

/// What the caller does next.
#[derive(Debug, Clone, Copy, PartialEq, Eq)]
pub enum MinerAction {
    /// Upload salt segment, pattern and nonce, and enqueue the kernel.
    Dispatch { salt: [u8; 4], nonce: u32 },
    /// Report the work rate if there is one, sleep if there is a time, then read the solution.
    Poll { report: Option<u128>, sleep_millis: Option<u64> },
    /// Upload the nonce and enqueue the kernel again.
    Redispatch { nonce: u32 },
    /// The search is over; `confirmed` says whether its solution matched again on the host
    /// and was added to the found list. Draw a fresh salt segment and nonce.
    Reseed { confirmed: bool },
}

/// The bookkeeping of one run of the device search.
#[derive(Debug)]
pub struct MinerState {
    /// Dispatches made so far, over all searches.
    pub cumulative_nonce: u64,
    /// Second of the last progress report.
    pub previous_time: u64,
    /// How long the last dispatch took, in milliseconds; zero before the first one.
    pub work_duration_millis: u64,
    /// When the current dispatch began, in milliseconds.
    pub work_start_time_millis: u64,
    /// Salt segment of the current search.
    pub salt: [u8; 4],
    /// Nonce of the current dispatch.
    pub nonce: u32,
    /// Every solution confirmed on the host so far.
    pub found_list: Vec<FoundResult>,
}

/// What the bookkeeping holds.
pub struct MinerView {
    pub cumulative_nonce: u64,
    pub previous_time: u64,
    pub work_duration_millis: u64,
    pub work_start_time_millis: u64,
    pub salt: Seq<u8>,
    pub nonce: u32,
    pub found_list: Seq<FoundResultView>,
}

impl View for MinerState {
    type V = MinerView;

    open spec fn view(&self) -> MinerView {
        MinerView {
            cumulative_nonce: self.cumulative_nonce,
            previous_time: self.previous_time,
            work_duration_millis: self.work_duration_millis,
            work_start_time_millis: self.work_start_time_millis,
            salt: self.salt@,
            nonce: self.nonce,
            found_list: found_views(self.found_list@),
        }
    }
}

/// A clock reading in milliseconds.
pub open spec fn clock_millis(secs: u64, subsec_nanos: u32) -> int {
    secs * 1000 + subsec_nanos / 1_000_000
}

/// Progress is reported when at least one second has passed since the last report.
pub open spec fn progress_due(previous_time: u64, secs: u64) -> bool {
    secs - previous_time >= 1
}

/// The reported work rate: the work size in millions, times the dispatches made so far.
pub open spec fn work_rate(worksize: u32, cumulative_nonce: u64) -> int {
    (worksize / 1_000_000) * cumulative_nonce
}

/// How long to sleep before reading back: 99% of the time the last dispatch took, and not at
/// all if that time is zero, as it is before the first dispatch.
pub open spec fn throttle_millis(work_duration_millis: u64) -> Option<u64> {
    if work_duration_millis == 0 {
        None
    } else {
        Some((work_duration_millis * 990 / 1000) as u64)
    }
}

/// The inputs on which a step stays within machine numbers: the dispatch count and the nonce
/// have room for one more, clock readings fit in 64 bits of milliseconds, and a dispatch does
/// not end before it began.
pub open spec fn step_defined(state: MinerView, event: MinerEvent) -> bool {
    match event {
        MinerEvent::Seeded { .. } => true,
        MinerEvent::Enqueued { secs, subsec_nanos } => {
            &&& state.cumulative_nonce < u64::MAX
            &&& clock_millis(secs, subsec_nanos) <= u64::MAX
        },
        MinerEvent::ReadBack { solution, secs, subsec_nanos } => {
            &&& state.work_start_time_millis <= clock_millis(secs, subsec_nanos) <= u64::MAX
            &&& solution == 0 ==> state.nonce < u32::MAX
        },
    }
}

/// The state after an event, and the action it calls for.
///
/// - A search that begins takes the drawn salt segment and nonce, and is dispatched.
/// - After a dispatch, one more dispatch is counted, its start time is kept, and the caller is
///   told whether to report and how long to sleep. The reported rate counts the dispatches
///   before this one.
/// - After a read-back, the dispatch's duration is kept. Without solution the nonce moves on by
///   one and is dispatched again. With a solution the candidate is hashed again on the host,
///   taking the solution as its nonce; it joins the found list only if it matches there.
pub open spec fn next_step(state: MinerView, config: ConfigView, event: MinerEvent) -> (
    MinerView,
    MinerAction,
) {
    match event {
        MinerEvent::Seeded { salt, nonce } => (
            MinerView { salt: salt@, nonce, ..state },
            MinerAction::Dispatch { salt, nonce },
        ),
        MinerEvent::Enqueued { secs, subsec_nanos } => {
            let due = progress_due(state.previous_time, secs);
            (
                MinerView {
                    previous_time: if due {
                        secs
                    } else {
                        state.previous_time
                    },
                    cumulative_nonce: (state.cumulative_nonce + 1) as u64,
                    work_start_time_millis: clock_millis(secs, subsec_nanos) as u64,
                    ..state
                },
                MinerAction::Poll {
                    report: if due {
                        Some(work_rate(config.worksize, state.cumulative_nonce) as u128)
                    } else {
                        None
                    },
                    sleep_millis: throttle_millis(state.work_duration_millis),
                },
            )
        },
        MinerEvent::ReadBack { solution, secs, subsec_nanos } => {
            let timed = MinerView {
                work_duration_millis: (clock_millis(secs, subsec_nanos)
                    - state.work_start_time_millis) as u64,
                ..state
            };
            if solution == 0 {
                (
                    MinerView { nonce: (state.nonce + 1) as u32, ..timed },
                    MinerAction::Redispatch { nonce: (state.nonce + 1) as u32 },
                )
            } else {
                match candidate_found(config, state.salt, solution) {
                    Some(report) => (
                        MinerView { found_list: state.found_list.push(report), ..timed },
                        MinerAction::Reseed { confirmed: true },
                    ),
                    None => (timed, MinerAction::Reseed { confirmed: false }),
                }
            }
        },
    }
}

/// `FixedBytes::<4>::random` of `alloy_primitives`, which fills four bytes from the default
/// cryptographic generator.
///
/// Trusted: nothing is claimed of the bytes that come back.
#[verifier::external_body]
fn random_segment() -> (segment: [u8; 4]) {
    FixedBytes::<4>::random().0
}

/// `Rng::gen` of `rand` on the generator that `rand::thread_rng` hands out, for one `u32`.
///
/// Trusted: nothing is claimed of the number that comes back.
#[verifier::external_body]
fn random_nonce() -> (nonce: u32) {
    let drawn: [u32; 1] = rand::thread_rng().gen();
    drawn[0]
}

impl MinerState {
    /// The state before the first search: nothing dispatched, nothing found.
    pub fn new() -> (state: MinerState)
        ensures
            state@ == (MinerView {
                cumulative_nonce: 0,
                previous_time: 0,
                work_duration_millis: 0,
                work_start_time_millis: 0,
                salt: seq![0u8, 0u8, 0u8, 0u8],
                nonce: 0,
                found_list: Seq::empty(),
            }),
    {
        let state = MinerState {
            cumulative_nonce: 0,
            previous_time: 0,
            work_duration_millis: 0,
            work_start_time_millis: 0,
            salt: [0u8, 0u8, 0u8, 0u8],
            nonce: 0,
            found_list: Vec::new(),
        };
        assert(found_views(state.found_list@) =~= Seq::<FoundResultView>::empty());
        state
    }

    /// Takes one event and says what to do next.
    pub fn step(&mut self, config: &AppConfig, event: MinerEvent) -> (action: MinerAction)
        requires
            config.wf(),
            step_defined(old(self)@, event),
        ensures
            (final(self)@, action) == next_step(old(self)@, config@, event),
            reports_have_widths(old(self)@.found_list) ==> reports_have_widths(
                final(self)@.found_list,
            ),
    {
        match event {
            MinerEvent::Seeded { salt, nonce } => {
                self.salt = salt;
                self.nonce = nonce;
                MinerAction::Dispatch { salt, nonce }
            },
            MinerEvent::Enqueued { secs, subsec_nanos } => {
                let due = secs > self.previous_time;
                let report = if due {
                    let workfactor = (config.worksize as u128) / 1_000_000;
                    assert(workfactor * self.cumulative_nonce <= 4294 * 0xffff_ffff_ffff_ffff)
                        by (nonlinear_arith)
                        requires
                            0 <= workfactor <= 4294,
                            0 <= self.cumulative_nonce <= 0xffff_ffff_ffff_ffff,
                    ;
                    self.previous_time = secs;
                    Some(workfactor * (self.cumulative_nonce as u128))
                } else {
                    None
                };
                let sleep_millis = if self.work_duration_millis != 0 {
                    Some(((self.work_duration_millis as u128) * 990 / 1000) as u64)
                } else {
                    None
                };
                self.cumulative_nonce = self.cumulative_nonce + 1;
                self.work_start_time_millis = secs * 1000 + (subsec_nanos as u64) / 1_000_000;
                MinerAction::Poll { report, sleep_millis }
            },
            MinerEvent::ReadBack { solution, secs, subsec_nanos } => {
                let now = secs * 1000 + (subsec_nanos as u64) / 1_000_000;
                self.work_duration_millis = now - self.work_start_time_millis;
                if solution == 0 {
                    self.nonce = self.nonce + 1;
                    MinerAction::Redispatch { nonce: self.nonce }
                } else {
                    let ghost before = self.found_list@;
                    match check_candidate(
                        &config.factory,
                        &config.caller,
                        &config.codehash,
                        config.pattern.as_slice(),
                        &self.salt,
                        solution,
                    ) {
                        Some(report) => {
                            self.found_list.push(report);
                            assert(found_views(self.found_list@) =~= found_views(before).push(
                                report@,
                            ));
                            MinerAction::Reseed { confirmed: true }
                        },
                        None => MinerAction::Reseed { confirmed: false },
                    }
                }
            },
        }
    }

    /// Begins a search: draws a fresh random salt segment and starting nonce, and takes them
    /// as [`MinerEvent::Seeded`] would. The action holds what was drawn.
    pub fn reseed(&mut self, config: &AppConfig) -> (action: MinerAction)
        requires
            config.wf(),
        ensures
            (action matches MinerAction::Dispatch { salt, nonce } && (final(self)@, action)
                == next_step(old(self)@, config@, (MinerEvent::Seeded { salt, nonce }))),
    {
        let salt = random_segment();
        let nonce = random_nonce();
        self.step(config, MinerEvent::Seeded { salt, nonce })
    }

    /// Tests whether [`MinerState::step`] is defined on `event` in this state.
    pub fn can_step(&self, event: &MinerEvent) -> (defined: bool)
        ensures
            defined == step_defined(self@, *event),
    {
        match *event {
            MinerEvent::Seeded { .. } => true,
            MinerEvent::Enqueued { secs, subsec_nanos } => {
                let now = (secs as u128) * 1000 + (subsec_nanos as u128) / 1_000_000;
                self.cumulative_nonce < u64::MAX && now <= u64::MAX as u128
            },
            MinerEvent::ReadBack { solution, secs, subsec_nanos } => {
                let now = (secs as u128) * 1000 + (subsec_nanos as u128) / 1_000_000;
                self.work_start_time_millis as u128 <= now && now <= u64::MAX as u128 && (solution
                    != 0 || self.nonce < u32::MAX)
            },
        }
    }

    /// Takes one event where [`MinerState::step`] is defined on it; otherwise returns `None`
    /// and leaves the state as it is.
    pub fn try_step(&mut self, config: &AppConfig, event: MinerEvent) -> (action: Option<
        MinerAction,
    >)
        ensures
            action is Some <==> config.wf() && step_defined(old(self)@, event),
            action matches Some(taken) ==> (final(self)@, taken) == next_step(
                old(self)@,
                config@,
                event,
            ),
            action is None ==> final(self)@ == old(self)@,
    {
        if config.is_well_formed() && self.can_step(&event) {
            Some(self.step(config, event))
        } else {
            None
        }
    }
}

} // verus!
