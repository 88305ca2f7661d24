use vstd::prelude::*;

use crate::session_state::SessionState;
use crate::session_type::SessionType;
use crate::text::{decimal, two_digits, zero_padded};
use crate::time::{elapsed_since, instant_now, Duration, NANOS_PER_SEC};

verus! {

/// What a timer session holds, with spans of time in nanoseconds.
pub struct TimerView {
    pub session_type: SessionType,
    pub work: int,
    pub break_len: int,
    /// The time left as last brought up to date.
    pub remaining: int,
    /// The time that was left when the clock last started: the session's
    /// length at its start, what was left at the pause on a resume.
    pub left_at_start: int,
    pub state: SessionState,
    /// The instant the clock last started.
    pub start: Option<std::time::Instant>,
    pub cycle_count: int,
    pub max_cycles: Option<usize>,
}

/// The length of a session of type `t`.
pub open spec fn duration_of(v: TimerView, t: SessionType) -> int {
    match t {
        SessionType::Work => v.work,
        SessionType::Break => v.break_len,
    }
}

/// The length of the current session.
pub open spec fn current_duration_of(v: TimerView) -> int {
    duration_of(v, v.session_type)
}

/// Whether the cycle limit is reached: during work, once the count is past
/// the limit; during a break, once it is at the limit. Never without a limit.
pub open spec fn finished(v: TimerView) -> bool {
    match v.max_cycles {
        Some(max) => match v.session_type {
            SessionType::Work => v.cycle_count > max,
            SessionType::Break => v.cycle_count >= max,
        },
        None => false,
    }
}

/// A new session started at `now`: running work of cycle 1, with the whole
/// work span left.
pub open spec fn initial(
    work_secs: u64,
    break_secs: u64,
    max_cycles: Option<usize>,
    now: std::time::Instant,
) -> TimerView {
    TimerView {
        session_type: SessionType::Work,
        work: work_secs as int * NANOS_PER_SEC as int,
        break_len: break_secs as int * NANOS_PER_SEC as int,
        remaining: work_secs as int * NANOS_PER_SEC as int,
        left_at_start: work_secs as int * NANOS_PER_SEC as int,
        state: SessionState::Running,
        start: Some(now),
        cycle_count: 1,
        max_cycles,
    }
}

/// The session marked completed.
pub open spec fn completed(v: TimerView) -> TimerView {
    TimerView { state: SessionState::Completed, ..v }
}

/// The session after the current one has ended, moving on at `now`. Work at
/// the cycle limit finishes the timer at once; otherwise the type switches,
/// the count goes up when a break gives way to work, and the timer either
/// finishes (limit reached) or runs the new session from its full length,
/// its clock started at `now`.
pub open spec fn advanced(v: TimerView, now: std::time::Instant) -> TimerView {
    if v.session_type == SessionType::Work && finished(v) {
        TimerView { state: SessionState::Finished, ..v }
    } else {
        let t = v.session_type.spec_next();
        let switched = TimerView {
            session_type: t,
            cycle_count: if t == SessionType::Work {
                v.cycle_count + 1
            } else {
                v.cycle_count
            },
            ..v
        };
        if finished(switched) {
            TimerView { state: SessionState::Finished, ..switched }
        } else {
            TimerView {
                remaining: current_duration_of(switched),
                left_at_start: current_duration_of(switched),
                state: SessionState::Running,
                start: Some(now),
                ..switched
            }
        }
    }
}

/// Pausing a running session, or resuming a paused one at `now`: the clock
/// starts again from the time that was left at the pause. Completed and
/// finished sessions stay as they are.
pub open spec fn toggled(v: TimerView, now: std::time::Instant) -> TimerView {
    match v.state {
        SessionState::Running => TimerView { state: SessionState::Paused, ..v },
        SessionState::Paused => TimerView {
            state: SessionState::Running,
            start: Some(now),
            left_at_start: v.remaining,
            ..v
        },
        _ => v,
    }
}

/// The session after `elapsed` nanoseconds have passed since its clock last
/// started, and whether the session completed just now. Only a running
/// session with a start instant changes: once the elapsed time reaches what
/// was left when the clock started, it completes with nothing left; before,
/// what is left is that less the elapsed time.
pub open spec fn updated(v: TimerView, elapsed: int) -> (TimerView, bool) {
    if v.state != SessionState::Running || v.start is None {
        (v, false)
    } else if elapsed >= v.left_at_start {
        (TimerView { remaining: 0, state: SessionState::Completed, ..v }, true)
    } else {
        (TimerView { remaining: v.left_at_start - elapsed, ..v }, false)
    }
}

/// The `MM:SS` text of a number of seconds: the minutes and the seconds
/// beyond them, each padded with zeros to two digits.
pub open spec fn clock_text(total_secs: nat) -> Seq<char> {
    zero_padded(decimal(total_secs / 60), 2) + seq![':'] + zero_padded(decimal(total_secs % 60), 2)
}

/// A work/break interval timer.
#[derive(Debug)]
pub struct TimerSession {
    session_type: SessionType,
    work_duration: Duration,
    break_duration: Duration,
    remaining: Duration,
    left_at_start: Duration,
    state: SessionState,
    start_time: Option<std::time::Instant>,
    cycle_count: usize,
    max_cycles: Option<usize>,
}

impl View for TimerSession {
    type V = TimerView;

    closed spec fn view(&self) -> TimerView {
        TimerView {
            session_type: self.session_type,
            work: self.work_duration@,
            break_len: self.break_duration@,
            remaining: self.remaining@,
            left_at_start: self.left_at_start@,
            state: self.state,
            start: self.start_time,
            cycle_count: self.cycle_count as int,
            max_cycles: self.max_cycles,
        }
    }
}

impl TimerSession {
    /// Starts a timer on work of cycle 1, with the clock started now.
    pub fn new(work_seconds: u64, break_seconds: u64, max_cycles: Option<usize>) -> (s: Self)
        ensures
            s@.start is Some,
            s@ == initial(work_seconds, break_seconds, max_cycles, s@.start.unwrap()),
    {
        Self::new_at(work_seconds, break_seconds, max_cycles, instant_now())
    }

    /// Starts a timer on work of cycle 1, with the clock started at `now`.
    pub fn new_at(
        work_seconds: u64,
        break_seconds: u64,
        max_cycles: Option<usize>,
        now: std::time::Instant,
    ) -> (s: Self)
        ensures
            s@ == initial(work_seconds, break_seconds, max_cycles, now),
    {
        TimerSession {
            session_type: SessionType::Work,
            work_duration: Duration::from_secs(work_seconds),
            break_duration: Duration::from_secs(break_seconds),
            remaining: Duration::from_secs(work_seconds),
            left_at_start: Duration::from_secs(work_seconds),
            state: SessionState::Running,
            start_time: Some(now),
            cycle_count: 1,
            max_cycles,
        }
    }

    pub fn session_type(&self) -> (t: SessionType)
        ensures
            t == self@.session_type,
    {
        self.session_type
    }

    pub fn remaining(&self) -> (d: Duration)
        ensures
            d@ == self@.remaining,
    {
        self.remaining
    }

    pub fn state(&self) -> (s: SessionState)
        ensures
            s == self@.state,
    {
        self.state
    }

    pub fn cycle_count(&self) -> (c: usize)
        ensures
            c as int == self@.cycle_count,
    {
        self.cycle_count
    }

    pub fn max_cycles(&self) -> (m: Option<usize>)
        ensures
            m == self@.max_cycles,
    {
        self.max_cycles
    }

    pub fn is_finished(&self) -> (b: bool)
        ensures
            b == finished(self@),
    {
        if let Some(max) = self.max_cycles {
            match self.session_type {
                SessionType::Work => self.cycle_count > max,
                SessionType::Break => self.cycle_count >= max,
            }
        } else {
            false
        }
    }

    /// The length of the current session.
    pub fn current_duration(&self) -> (d: Duration)
        ensures
            d@ == current_duration_of(self@),
    {
        match self.session_type {
            SessionType::Work => self.work_duration,
            SessionType::Break => self.break_duration,
        }
    }

    /// Brings the remaining time up to date with the clock; true when the
    /// session completed just now. Whatever the clock reads, the outcome is
    /// that of `update_with_elapsed` for some elapsed span.
    pub fn update(&mut self) -> (done: bool)
        ensures
            exists|elapsed: int|
                0 <= elapsed && #[trigger] updated(old(self)@, elapsed) == (final(self)@, done),
    {
        if self.state != SessionState::Running {
            assert(updated(old(self)@, 0) == (self@, false));
            return false;
        }
        match &self.start_time {
            Some(start) => {
                let elapsed = elapsed_since(start);
                proof {
                    elapsed.lemma_nonnegative();
                }
                let ghost e = elapsed@;
                let done = self.update_with_elapsed(elapsed);
                assert(updated(old(self)@, e) == (self@, done));
                done
            },
            None => {
                assert(updated(old(self)@, 0) == (self@, false));
                false
            },
        }
    }

    /// Brings the remaining time up to date, `elapsed` having passed since
    /// the session's clock last started; true when the session completed
    /// just now.
    pub fn update_with_elapsed(&mut self, elapsed: Duration) -> (done: bool)
        ensures
            updated(old(self)@, elapsed@) == (final(self)@, done),
    {
        if self.state != SessionState::Running {
            return false;
        }
        if self.start_time.is_some() {
            let left_at_start = self.left_at_start;
            if elapsed.at_least(&left_at_start) {
                // Nothing is left once what was left at the start has passed.
                self.remaining = Duration::zero();
                self.complete_session();
                return true;
            }
            if let Some(left) = left_at_start.checked_sub(&elapsed) {
                self.remaining = left;
            }
        }
        false
    }

    /// Marks the current session completed.
    pub fn complete_session(&mut self)
        ensures
            final(self)@ == completed(old(self)@),
    {
        self.state = SessionState::Completed;
    }

    /// Moves on to the next session, or finishes the timer when the cycle
    /// limit is reached; a new session's clock starts now.
    pub fn advance_to_next_session(&mut self)
        requires
            old(self)@.session_type == SessionType::Break ==> old(self)@.cycle_count < usize::MAX,
        ensures
            exists|now: std::time::Instant| final(self)@ == #[trigger] advanced(old(self)@, now),
    {
        let now = instant_now();
        self.advance_to_next_session_at(now);
    }

    /// Moves on to the next session, or finishes the timer when the cycle
    /// limit is reached; a new session's clock starts at `now`.
    pub fn advance_to_next_session_at(&mut self, now: std::time::Instant)
        requires
            old(self)@.session_type == SessionType::Break ==> old(self)@.cycle_count < usize::MAX,
        ensures
            final(self)@ == advanced(old(self)@, now),
    {
        // Work at the cycle limit finishes at once, without a break.
        if self.session_type == SessionType::Work && self.is_finished() {
            self.state = SessionState::Finished;
            return;
        }

        self.session_type = self.session_type.next();

        // A new cycle begins when a break gives way to work.
        if self.session_type == SessionType::Work {
            self.cycle_count = self.cycle_count + 1;
        }

        if self.is_finished() {
            self.state = SessionState::Finished;
            return;
        }

        self.remaining = self.current_duration();
        self.left_at_start = self.remaining;
        self.state = SessionState::Running;
        self.start_time = Some(now);
    }

    /// Pauses a running session or resumes a paused one, its clock
    /// starting now from what was left at the pause.
    pub fn toggle_pause(&mut self)
        ensures
            exists|now: std::time::Instant| final(self)@ == #[trigger] toggled(old(self)@, now),
    {
        let now = instant_now();
        self.toggle_pause_at(now);
    }

    /// Pauses a running session or resumes a paused one, its clock starting
    /// at `now` from what was left at the pause.
    pub fn toggle_pause_at(&mut self, now: std::time::Instant)
        ensures
            final(self)@ == toggled(old(self)@, now),
    {
        match self.state {
            SessionState::Running => {
                self.state = SessionState::Paused;
            },
            SessionState::Paused => {
                self.state = SessionState::Running;
                self.left_at_start = self.remaining;
                self.start_time = Some(now);
            },
            SessionState::Completed | SessionState::Finished => {},
        }
    }

    /// The remaining time as `MM:SS`.
    pub fn format_remaining(&self) -> (s: String)
        ensures
            s@ == clock_text((self@.remaining / NANOS_PER_SEC as int) as nat),
    {
        let total_secs = self.remaining.as_secs();
        let minutes = total_secs / 60;
        let seconds = total_secs % 60;
        let mut s = two_digits(minutes);
        let ss = two_digits(seconds);
        s.append(":");
        s.append(ss.as_str());
        proof {
            reveal_strlit(":");
        }
        s
    }
}

/// The session after skipping the current one at `now`: completing it, then
/// moving on.
pub open spec fn skipped(v: TimerView, now: std::time::Instant) -> TimerView {
    advanced(completed(v), now)
}

/// The session after skipping `n` sessions in a row, each at `now`.
pub open spec fn skipped_times(v: TimerView, n: nat, now: std::time::Instant) -> TimerView
    decreases n,
{
    if n == 0 {
        v
    } else {
        skipped(skipped_times(v, (n - 1) as nat, now), now)
    }
}

/// What every operation keeps of a session that `new` made: the count of
/// cycles starts at 1, the clock has started, a session under way (running
/// or paused) has no more time left than when its clock last started, which
/// is no more than its length, a finished session has reached its cycle
/// limit, and under a limit a break never comes after the last cycle's work.
pub open spec fn consistent(v: TimerView) -> bool {
    &&& v.cycle_count >= 1
    &&& v.start is Some
    &&& v.work >= 0
    &&& v.break_len >= 0
    &&& (v.state == SessionState::Running || v.state == SessionState::Paused ==> 0 <= v.remaining
        <= v.left_at_start <= current_duration_of(v))
    &&& (v.state == SessionState::Finished ==> finished(v))
    &&& match v.max_cycles {
        Some(max) => v.cycle_count <= max + 1 && (v.session_type == SessionType::Break
            ==> v.cycle_count <= max),
        None => true,
    }
}

/// The session that `skipped_times` reaches after `j` skips at `now` from a
/// new one started at `start`, while the limit is not reached: work on even
/// steps, breaks on odd ones, each from its full length, cycle `j / 2 + 1`.
pub open spec fn expected_run(
    work_secs: u64,
    break_secs: u64,
    max_cycles: Option<usize>,
    start: std::time::Instant,
    now: std::time::Instant,
    j: nat,
) -> TimerView {
    let v0 = initial(work_secs, break_secs, max_cycles, start);
    let t = if j % 2 == 0 { SessionType::Work } else { SessionType::Break };
    TimerView {
        session_type: t,
        remaining: duration_of(v0, t),
        left_at_start: duration_of(v0, t),
        start: if j == 0 { Some(start) } else { Some(now) },
        cycle_count: (j / 2 + 1) as int,
        ..v0
    }
}

/// A new session is consistent.
pub proof fn lemma_initial_consistent(
    work_secs: u64,
    break_secs: u64,
    max_cycles: Option<usize>,
    now: std::time::Instant,
)
    ensures
        consistent(initial(work_secs, break_secs, max_cycles, now)),
{
}

/// Completing, moving on, pausing or resuming, and bringing the clock up to
/// date all keep a session consistent.
pub proof fn lemma_operations_keep_consistent(v: TimerView, now: std::time::Instant, elapsed: int)
    requires
        consistent(v),
        elapsed >= 0,
    ensures
        consistent(completed(v)),
        consistent(advanced(v, now)),
        consistent(toggled(v, now)),
        consistent(updated(v, elapsed).0),
{
}

/// The count of cycles never goes down: moving on raises it by one at most,
/// and the other operations leave it as it is.
pub proof fn lemma_cycle_count_never_decreases(v: TimerView, now: std::time::Instant, elapsed: int)
    ensures
        advanced(v, now).cycle_count == v.cycle_count || advanced(v, now).cycle_count
            == v.cycle_count + 1,
        completed(v).cycle_count == v.cycle_count,
        toggled(v, now).cycle_count == v.cycle_count,
        updated(v, elapsed).0.cycle_count == v.cycle_count,
{
}

/// A new session, and one the timer moves on to, starts its clock at the
/// moment given; a resumed one too, from what was left at the pause.
pub proof fn lemma_clock_starts(v: TimerView, now: std::time::Instant)
    ensures
        advanced(v, now).state == SessionState::Running ==> advanced(v, now).start == Some(now)
            && advanced(v, now).left_at_start == current_duration_of(advanced(v, now)),
        v.state == SessionState::Paused ==> toggled(v, now).start == Some(now)
            && toggled(v, now).left_at_start == v.remaining,
        v.state != SessionState::Paused ==> toggled(v, now).start == v.start,
{
}

/// A finished timer stays finished: moving on keeps it finished, pausing
/// does nothing, and the clock no longer changes it.
pub proof fn lemma_finished_is_final(v: TimerView, now: std::time::Instant, elapsed: int)
    requires
        consistent(v),
        v.state == SessionState::Finished,
    ensures
        advanced(v, now).state == SessionState::Finished,
        toggled(v, now) == v,
        updated(v, elapsed) == (v, false),
{
}

/// Pausing and then resuming a running session gives it back with the same
/// time left and its clock started again at the resume.
pub proof fn lemma_toggle_twice(v: TimerView, pause_at: std::time::Instant, resume_at: std::time::Instant)
    requires
        v.state == SessionState::Running,
    ensures
        toggled(toggled(v, pause_at), resume_at) == (TimerView {
            left_at_start: v.remaining,
            start: Some(resume_at),
            ..v
        }),
{
}

/// Resuming continues from the time left at the pause: a running session
/// with `r` left, paused and resumed, has `r - e` left once `e < r` has
/// passed since the resume, and completes once `r` has passed.
pub proof fn lemma_resume_continues(
    v: TimerView,
    pause_at: std::time::Instant,
    resume_at: std::time::Instant,
    elapsed: int,
)
    requires
        v.state == SessionState::Running,
        elapsed >= 0,
    ensures
        elapsed < v.remaining ==> updated(toggled(toggled(v, pause_at), resume_at), elapsed).0.remaining
            == v.remaining - elapsed,
        elapsed < v.remaining ==> !updated(toggled(toggled(v, pause_at), resume_at), elapsed).1,
        elapsed < v.remaining ==> updated(toggled(toggled(v, pause_at), resume_at), elapsed).0.state
            == SessionState::Running,
        elapsed >= v.remaining ==> updated(toggled(toggled(v, pause_at), resume_at), elapsed).1,
        elapsed >= v.remaining ==> updated(toggled(toggled(v, pause_at), resume_at), elapsed).0.remaining
            == 0,
{
}

/// Without a cycle limit the timer never finishes: skipping from a new timer
/// alternates work and break from their full lengths, and the count goes up
/// by one with each new work session.
pub proof fn lemma_unlimited_cycles(
    work_secs: u64,
    break_secs: u64,
    start: std::time::Instant,
    now: std::time::Instant,
    j: nat,
)
    ensures
        skipped_times(initial(work_secs, break_secs, None, start), j, now) == expected_run(
            work_secs,
            break_secs,
            None,
            start,
            now,
            j,
        ),
        skipped_times(initial(work_secs, break_secs, None, start), j, now).state
            == SessionState::Running,
    decreases j,
{
    if j > 0 {
        lemma_unlimited_cycles(work_secs, break_secs, start, now, (j - 1) as nat);
    }
}

/// With a limit of `max` cycles, skipping from a new timer runs work and
/// breaks in turn, cycles counted from 1, and finishes right after the
/// `max`-th work session, without a last break.
pub proof fn lemma_limited_cycles(
    work_secs: u64,
    break_secs: u64,
    max: usize,
    start: std::time::Instant,
    now: std::time::Instant,
    j: nat,
)
    requires
        1 <= max,
        j <= 2 * max - 1,
    ensures
        j < 2 * max - 1 ==> skipped_times(initial(work_secs, break_secs, Some(max), start), j, now)
            == expected_run(work_secs, break_secs, Some(max), start, now, j),
        j < 2 * max - 1 ==> skipped_times(
            initial(work_secs, break_secs, Some(max), start),
            j,
            now,
        ).state == SessionState::Running,
        j == 2 * max - 1 ==> skipped_times(
            initial(work_secs, break_secs, Some(max), start),
            j,
            now,
        ).state == SessionState::Finished,
        j == 2 * max - 1 ==> skipped_times(
            initial(work_secs, break_secs, Some(max), start),
            j,
            now,
        ).cycle_count == max,
    decreases j,
{
    if j > 0 {
        lemma_limited_cycles(work_secs, break_secs, max, start, now, (j - 1) as nat);
    }
}

/// With a limit of no cycles, the first skip finishes the timer.
pub proof fn lemma_zero_cycles(
    work_secs: u64,
    break_secs: u64,
    start: std::time::Instant,
    now: std::time::Instant,
)
    ensures
        finished(initial(work_secs, break_secs, Some(0), start)),
        skipped(initial(work_secs, break_secs, Some(0), start), now).state == SessionState::Finished,
{
}

/// A session the timer moves on to runs from its full length, counted from
/// the moment of the move: `elapsed` after it, short of that length, it is
/// still running with the length less `elapsed` left, and it completes once
/// its length has passed.
pub proof fn lemma_next_session_runs_full_length(
    v: TimerView,
    now: std::time::Instant,
    elapsed: int,
)
    requires
        advanced(v, now).state == SessionState::Running,
        0 <= elapsed,
    ensures
        advanced(v, now).start == Some(now),
        elapsed < current_duration_of(advanced(v, now)) ==> !updated(advanced(v, now), elapsed).1
            && updated(advanced(v, now), elapsed).0.state == SessionState::Running
            && updated(advanced(v, now), elapsed).0.remaining == current_duration_of(
            advanced(v, now),
        ) - elapsed,
        elapsed >= current_duration_of(advanced(v, now)) ==> updated(advanced(v, now), elapsed).1,
{
}

} // verus!
