//! The watch session state machine. It owns every decision of the loop —
//! when to render, when a cycle ends the session, which key cancels, and
//! what terminal mode the driver must hold — while the driver performs the
//! outside work (terminal control, process spawning, event polling) and
//! hands the observed events back in.

use crate::config::WatchConfig;
use crate::cycle::{CycleResult, CycleView, WatchError, cycle_outcome, spec_cycle_outcome};
use crate::render::{
    Directive, render_final_frame, render_frame, spec_final_frame, spec_frame, views_of,
};
use vstd::prelude::*;

verus! {

/// A key observed during the wait, as the session logic reads it: the
/// character the key carries, if any, and the modifier flags that were held.
#[derive(Clone, Copy, Debug)]
pub struct KeyPress {
    /// The plain character of the key, when it has one.
    pub ch: Option<char>,
    /// The control modifier.
    pub ctrl: bool,
    /// The alt modifier.
    pub alt: bool,
    /// The shift modifier.
    pub shift: bool,
    /// Any modifier beyond control, alt and shift.
    pub other_mods: bool,
}

/// A quit request: the `q` key under any modifiers, or the interrupt chord —
/// the `c` key with exactly the control modifier held.
pub open spec fn spec_is_quit(k: KeyPress) -> bool {
    k.ch == Some('q') || (k.ch == Some('c') && k.ctrl && !k.alt && !k.shift && !k.other_mods)
}

/// Decides whether a key cancels the session.
pub fn is_quit_key(k: &KeyPress) -> (r: bool)
    ensures
        r == spec_is_quit(*k),
{
    match k.ch {
        Some(c) => c == 'q' || (c == 'c' && k.ctrl && !k.alt && !k.shift && !k.other_mods),
        None => false,
    }
}

/// The control phase of the watch loop.
#[derive(Clone, Copy, PartialEq, Eq, Structural, Debug)]
pub enum Phase {
    /// Before the terminal has entered the exclusive mode.
    Setup,
    /// About to render a header and run the command.
    Run,
    /// A frame is on screen; waiting out the interval, watching for keys.
    Wait,
    /// Cancelled by the user; the session ended successfully.
    Done,
    /// Ended by a fatal error.
    Failed,
}

/// The terminal's special modes, as the session tells the driver to hold
/// them.
#[derive(Clone, Copy, PartialEq, Eq, Structural, Debug)]
pub struct TermMode {
    /// Raw keystroke delivery: unbuffered, no echo, no driver-side signals.
    pub raw: bool,
    /// The alternate full-screen display region.
    pub alternate: bool,
    /// The cursor is hidden.
    pub cursor_hidden: bool,
    /// Soft line-wrapping is forced on for rendered text.
    pub wrap_forced: bool,
}

/// The ordinary terminal state: no special mode active.
pub open spec fn normal_mode() -> TermMode {
    TermMode { raw: false, alternate: false, cursor_hidden: false, wrap_forced: false }
}

/// The exclusive full-screen state the session runs in.
pub open spec fn exclusive_mode() -> TermMode {
    TermMode { raw: true, alternate: true, cursor_hidden: true, wrap_forced: true }
}

/// The mathematical value of a `WatchState`: the configuration's content,
/// the control phase, the held terminal mode, the current cycle, the fatal
/// error if one ended the session, and two counters — frames rendered and
/// cycles completed successfully.
#[verifier::ext_equal]
pub ghost struct StateView {
    pub command_line: Seq<char>,
    pub interval: u64,
    pub phase: Phase,
    pub mode: TermMode,
    pub current: Option<CycleView>,
    pub error: Option<WatchError>,
    pub frames: nat,
    pub cycles: nat,
}

/// The state of one watch session.
pub struct WatchState {
    /// The immutable configuration of the run.
    pub config: WatchConfig,
    /// The control phase.
    pub phase: Phase,
    /// The terminal mode the driver has been told to hold.
    pub mode: TermMode,
    /// The current cycle's result, kept for the final render.
    pub current: Option<CycleResult>,
    /// The fatal error, once one has ended the session.
    pub error: Option<WatchError>,
    /// How many frames the driver has been told to show.
    pub frames: Ghost<nat>,
    /// How many cycles completed successfully.
    pub cycles: Ghost<nat>,
}

impl View for WatchState {
    type V = StateView;

    open spec fn view(&self) -> StateView {
        StateView {
            command_line: self.config.command_line@,
            interval: self.config.interval,
            phase: self.phase,
            mode: self.mode,
            current: match self.current {
                Some(c) => Some(c@),
                None => None,
            },
            error: self.error,
            frames: self.frames@,
            cycles: self.cycles@,
        }
    }
}

/// The session invariant: the interval is positive, a waiting session holds
/// a current cycle, and an error is present exactly in the failed phase.
pub open spec fn spec_wf(s: StateView) -> bool {
    &&& s.interval >= 1
    &&& (s.phase is Wait ==> s.current is Some)
    &&& (s.error is Some <==> s.phase is Failed)
}

/// The fresh state of a session that has not touched the terminal yet.
pub open spec fn spec_init(cmd: Seq<char>, interval: u64) -> StateView {
    StateView {
        command_line: cmd,
        interval,
        phase: Phase::Setup,
        mode: normal_mode(),
        current: None,
        error: None,
        frames: 0,
        cycles: 0,
    }
}

/// The state after the driver tried to enter the exclusive terminal mode:
/// on success the loop starts; on failure the session fails before any
/// iteration, the terminal untouched.
pub open spec fn spec_on_enter(s: StateView, ok: bool) -> StateView {
    if ok {
        StateView { phase: Phase::Run, mode: exclusive_mode(), ..s }
    } else {
        StateView { phase: Phase::Failed, error: Some(WatchError::Terminal), ..s }
    }
}

/// The state after one command execution: a successful, decodable cycle is
/// stored and counted, one frame is due, and the session waits; any other
/// outcome fails the session with its error.
pub open spec fn spec_on_cycle(
    s: StateView,
    stdout_bytes: Seq<u8>,
    stderr_bytes: Seq<u8>,
    success: bool,
    code: Option<i32>,
) -> StateView {
    match spec_cycle_outcome(stdout_bytes, stderr_bytes, success, code) {
        Ok(c) => StateView {
            phase: Phase::Wait,
            current: Some(c),
            frames: s.frames + 1,
            cycles: s.cycles + 1,
            ..s
        },
        Err(e) => StateView { phase: Phase::Failed, error: Some(e), ..s },
    }
}

/// The state after the shell interpreter itself could not be launched:
/// fatal, surfaced immediately.
pub open spec fn spec_on_spawn_failed(s: StateView) -> StateView {
    StateView { phase: Phase::Failed, error: Some(WatchError::Spawn), ..s }
}

/// The state after a key arrived during the wait: a quit key ends the
/// session with one final frame, rendered on the normal screen — so the
/// alternate region is left — while any other key changes nothing and the
/// wait resumes.
pub open spec fn spec_on_key(s: StateView, k: KeyPress) -> StateView {
    if spec_is_quit(k) {
        StateView {
            phase: Phase::Done,
            mode: TermMode { alternate: false, ..s.mode },
            frames: s.frames + 1,
            ..s
        }
    } else {
        s
    }
}

/// The state after the full interval elapsed with no quit key: back to the
/// next iteration.
pub open spec fn spec_on_elapsed(s: StateView) -> StateView {
    StateView { phase: Phase::Run, ..s }
}

/// The state after the driver restored the terminal: every special mode is
/// off, whatever path led here.
pub open spec fn spec_on_exit(s: StateView) -> StateView {
    StateView { mode: normal_mode(), ..s }
}

/// One observed event of a session, at the level of the mathematical model.
pub ghost enum EventView {
    /// The driver tried to enter the exclusive terminal mode.
    Enter { ok: bool },
    /// The child process exited and its output was captured.
    Cycle { stdout_bytes: Seq<u8>, stderr_bytes: Seq<u8>, success: bool, code: Option<i32> },
    /// The shell interpreter could not be launched.
    SpawnFailed,
    /// A key arrived during the wait.
    Key { key: KeyPress },
    /// The full interval elapsed with no quit key.
    Elapsed,
    /// The driver restored the terminal; performed on every path out.
    Exit,
}

/// The whole session as one step function: an event arriving in a phase it
/// does not belong to changes nothing, and the restore step applies in every
/// phase.
pub open spec fn spec_step(s: StateView, e: EventView) -> StateView {
    match e {
        EventView::Enter { ok } => if s.phase is Setup {
            spec_on_enter(s, ok)
        } else {
            s
        },
        EventView::Cycle { stdout_bytes, stderr_bytes, success, code } => if s.phase is Run {
            spec_on_cycle(s, stdout_bytes, stderr_bytes, success, code)
        } else {
            s
        },
        EventView::SpawnFailed => if s.phase is Run {
            spec_on_spawn_failed(s)
        } else {
            s
        },
        EventView::Key { key } => if s.phase is Wait {
            spec_on_key(s, key)
        } else {
            s
        },
        EventView::Elapsed => if s.phase is Wait {
            spec_on_elapsed(s)
        } else {
            s
        },
        EventView::Exit => spec_on_exit(s),
    }
}

/// The state a session reaches after a whole trace of events.
pub open spec fn spec_run(s: StateView, es: Seq<EventView>) -> StateView
    decreases es.len(),
{
    if es.len() == 0 {
        s
    } else {
        spec_run(spec_step(s, es[0]), es.drop_first())
    }
}

/// Frame accounting: the frames the driver was told to show are exactly the
/// successful cycles, plus the one final frame once the session was
/// cancelled; and at least one frame was shown before any wait began.
pub open spec fn frame_accounting(s: StateView) -> bool {
    &&& s.frames == s.cycles + (if s.phase is Done {
        1nat
    } else {
        0nat
    })
    &&& (s.phase is Wait ==> s.cycles >= 1)
}

proof fn lemma_step_preserves_accounting(s: StateView, e: EventView)
    requires
        frame_accounting(s),
    ensures
        frame_accounting(spec_step(s, e)),
{
}

proof fn lemma_run_preserves_accounting(s: StateView, es: Seq<EventView>)
    requires
        frame_accounting(s),
    ensures
        frame_accounting(spec_run(s, es)),
    decreases es.len(),
{
    if es.len() > 0 {
        lemma_step_preserves_accounting(s, es[0]);
        lemma_run_preserves_accounting(spec_step(s, es[0]), es.drop_first());
    }
}

/// Exactly one frame per iteration: along every event trace of a session,
/// the frames the driver was told to show equal the successful cycles —
/// one frame before the first wait begins and one per later iteration —
/// plus the single final frame after a cancellation.
pub proof fn lemma_one_frame_per_cycle(cmd: Seq<char>, interval: u64, es: Seq<EventView>)
    ensures
        frame_accounting(spec_run(spec_init(cmd, interval), es)),
{
    lemma_run_preserves_accounting(spec_init(cmd, interval), es);
}

proof fn lemma_run_push(s: StateView, es: Seq<EventView>, e: EventView)
    ensures
        spec_run(s, es.push(e)) == spec_step(spec_run(s, es), e),
    decreases es.len(),
{
    if es.len() == 0 {
        assert(es.push(e)[0] == e);
        assert(es.push(e).drop_first() =~~= Seq::<EventView>::empty());
        assert(spec_run(s, es.push(e)) == spec_run(
            spec_step(s, e),
            Seq::<EventView>::empty(),
        ));
        assert(spec_run(spec_step(s, e), Seq::<EventView>::empty()) == spec_step(s, e));
        assert(spec_run(s, es) == s);
    } else {
        assert(es.push(e)[0] == es[0]);
        assert(es.push(e).drop_first() =~~= es.drop_first().push(e));
        assert(spec_run(s, es.push(e)) == spec_run(
            spec_step(s, es[0]),
            es.drop_first().push(e),
        ));
        lemma_run_push(spec_step(s, es[0]), es.drop_first(), e);
        assert(spec_run(s, es) == spec_run(spec_step(s, es[0]), es.drop_first()));
    }
}

/// Cancellation restores the normal terminal mode: a quit key or the
/// interrupt chord during the wait ends the session, leaves the alternate
/// region together with the final frame, and the unconditional restore step
/// leaves no special mode active.
pub proof fn lemma_cancellation_restores_mode(s: StateView, k: KeyPress)
    requires
        s.phase is Wait,
        spec_is_quit(k),
    ensures
        spec_on_key(s, k).phase is Done,
        !spec_on_key(s, k).mode.alternate,
        spec_on_exit(spec_on_key(s, k)).mode == normal_mode(),
{
}

/// The restore step works from anywhere: whatever trace a session took,
/// once the driver performs the exit step the terminal holds no special
/// mode.
pub proof fn lemma_exit_always_restores(cmd: Seq<char>, interval: u64, es: Seq<EventView>)
    ensures
        spec_run(spec_init(cmd, interval), es.push(EventView::Exit)).mode == normal_mode(),
{
    lemma_run_push(spec_init(cmd, interval), es, EventView::Exit);
}

proof fn lemma_step_preserves_wf(s: StateView, e: EventView)
    requires
        spec_wf(s),
    ensures
        spec_wf(spec_step(s, e)),
{
}

/// The session invariant holds of every reachable state: it holds of the
/// fresh state and every step keeps it.
pub proof fn lemma_run_preserves_wf(cmd: Seq<char>, interval: u64, es: Seq<EventView>)
    requires
        interval >= 1,
    ensures
        spec_wf(spec_run(spec_init(cmd, interval), es)),
{
    lemma_run_preserves_wf_from(spec_init(cmd, interval), es);
}

proof fn lemma_run_preserves_wf_from(s: StateView, es: Seq<EventView>)
    requires
        spec_wf(s),
    ensures
        spec_wf(spec_run(s, es)),
    decreases es.len(),
{
    if es.len() > 0 {
        lemma_step_preserves_wf(s, es[0]);
        lemma_run_preserves_wf_from(spec_step(s, es[0]), es.drop_first());
    }
}

/// An ended session stays ended: once the phase is `Done` or `Failed`, no
/// event re-enters the loop — no further iterations occur — and the error
/// that ended it is kept.
pub proof fn lemma_end_is_final(s: StateView, e: EventView)
    requires
        s.phase is Done || s.phase is Failed,
    ensures
        spec_step(s, e).phase == s.phase,
        spec_step(s, e).error == s.error,
        spec_step(s, e).frames == s.frames,
        spec_step(s, e).cycles == s.cycles,
{
}

impl WatchState {
    /// The session invariant on the executable state.
    pub open spec fn wf(&self) -> bool {
        spec_wf(self@)
    }

    /// Starts a session in the setup phase, terminal untouched.
    pub fn init(config: WatchConfig) -> (s: Self)
        requires
            config.wf(),
        ensures
            s@ == spec_init(config.command_line@, config.interval),
            s.config == config,
            s.wf(),
    {
        let s = WatchState {
            config,
            phase: Phase::Setup,
            mode: TermMode { raw: false, alternate: false, cursor_hidden: false, wrap_forced: false },
            current: None,
            error: None,
            frames: Ghost(0),
            cycles: Ghost(0),
        };
        proof {
            assert(s@ =~~= spec_init(s.config.command_line@, s.config.interval));
        }
        s
    }

    /// Records whether the driver managed to enter the exclusive terminal
    /// mode; on failure the session fails with the terminal error.
    pub fn on_enter(self, ok: bool) -> (s: Self)
        requires
            self.phase is Setup,
            self.wf(),
        ensures
            s@ == spec_on_enter(self@, ok),
            s.config == self.config,
            s.wf(),
    {
        let s = if ok {
            WatchState {
                phase: Phase::Run,
                mode: TermMode { raw: true, alternate: true, cursor_hidden: true, wrap_forced: true },
                ..self
            }
        } else {
            WatchState { phase: Phase::Failed, error: Some(WatchError::Terminal), ..self }
        };
        proof {
            assert(s@ =~~= spec_on_enter(self@, ok));
        }
        s
    }

    /// Takes the captured output of one command execution. A successful,
    /// decodable cycle returns exactly one frame for the driver to queue and
    /// flush; a non-zero exit or undecodable bytes return no frame and fail
    /// the session, no further iterations occurring.
    pub fn on_cycle_output(
        self,
        width: u16,
        height: u16,
        stdout_bytes: Vec<u8>,
        stderr_bytes: Vec<u8>,
        success: bool,
        code: Option<i32>,
    ) -> (r: (Self, Option<Vec<Directive>>))
        requires
            self.phase is Run,
            self.wf(),
        ensures
            r.0@ == spec_on_cycle(self@, stdout_bytes@, stderr_bytes@, success, code),
            r.0.config == self.config,
            r.0.wf(),
            r.1 is Some <==> spec_cycle_outcome(stdout_bytes@, stderr_bytes@, success, code) is Ok,
            r.1 is Some ==> views_of(r.1->0@) == spec_frame(
                self@.command_line,
                self@.interval,
                r.0@.current->0.stdout,
                r.0@.current->0.stderr,
                width,
                height,
            ),
    {
        let ghost outcome = spec_cycle_outcome(stdout_bytes@, stderr_bytes@, success, code);
        match cycle_outcome(stdout_bytes, stderr_bytes, success, code) {
            Ok(result) => {
                let frame = render_frame(&self.config, &result, width, height);
                let s = WatchState {
                    phase: Phase::Wait,
                    current: Some(result),
                    frames: Ghost(self.frames@ + 1),
                    cycles: Ghost(self.cycles@ + 1),
                    ..self
                };
                proof {
                    assert(s@ =~~= spec_on_cycle(self@, stdout_bytes@, stderr_bytes@, success, code));
                }
                (s, Some(frame))
            },
            Err(e) => {
                let s = WatchState { phase: Phase::Failed, error: Some(e), ..self };
                proof {
                    assert(s@ =~~= spec_on_cycle(self@, stdout_bytes@, stderr_bytes@, success, code));
                }
                (s, None)
            },
        }
    }

    /// Takes a key observed during the wait. A quit key ends the session and
    /// returns the one final frame — rendered for the normal screen, leaving
    /// the alternate region; any other key returns no frame and the wait
    /// resumes for the remaining time.
    pub fn on_key(self, key: KeyPress) -> (r: (Self, Option<Vec<Directive>>))
        requires
            self.phase is Wait,
            self.wf(),
        ensures
            r.0@ == spec_on_key(self@, key),
            r.0.config == self.config,
            r.0.wf(),
            r.1 is Some <==> spec_is_quit(key),
            r.1 is Some ==> views_of(r.1->0@) == spec_final_frame(
                self@.command_line,
                self@.current->0.stdout,
                self@.current->0.stderr,
            ),
    {
        if is_quit_key(&key) {
            let frame = match &self.current {
                Some(result) => render_final_frame(&self.config, result),
                None => Vec::new(),
            };
            let s = WatchState {
                phase: Phase::Done,
                mode: TermMode { alternate: false, ..self.mode },
                frames: Ghost(self.frames@ + 1),
                ..self
            };
            proof {
                assert(s@ =~~= spec_on_key(self@, key));
            }
            (s, Some(frame))
        } else {
            proof {
                assert(self@ =~~= spec_on_key(self@, key));
            }
            (self, None)
        }
    }

    /// Records that the shell interpreter could not be launched: the session
    /// fails at once with the spawn error.
    pub fn on_spawn_failed(self) -> (s: Self)
        requires
            self.phase is Run,
            self.wf(),
        ensures
            s@ == spec_on_spawn_failed(self@),
            s.config == self.config,
            s.wf(),
    {
        let s = WatchState { phase: Phase::Failed, error: Some(WatchError::Spawn), ..self };
        proof {
            assert(s@ =~~= spec_on_spawn_failed(self@));
        }
        s
    }

    /// Records that the full interval elapsed with no quit key: the next
    /// iteration begins.
    pub fn on_elapsed(self) -> (s: Self)
        requires
            self.phase is Wait,
            self.wf(),
        ensures
            s@ == spec_on_elapsed(self@),
            s.config == self.config,
            s.wf(),
    {
        let s = WatchState { phase: Phase::Run, ..self };
        proof {
            assert(s@ =~~= spec_on_elapsed(self@));
        }
        s
    }

    /// Records that the driver restored the terminal: every special mode is
    /// off. The driver performs this on every path out of the loop.
    pub fn on_exit(self) -> (s: Self)
        requires
            self.wf(),
        ensures
            s@ == spec_on_exit(self@),
            s.config == self.config,
            s.wf(),
            s.mode == (TermMode {
                raw: false,
                alternate: false,
                cursor_hidden: false,
                wrap_forced: false,
            }),
    {
        let s = WatchState {
            mode: TermMode { raw: false, alternate: false, cursor_hidden: false, wrap_forced: false },
            ..self
        };
        proof {
            assert(s@ =~~= spec_on_exit(self@));
        }
        s
    }

    /// The milliseconds of the wait that remain after `elapsed_ms` of an
    /// `interval_ms`-long wait have passed; the wait is re-armed with this
    /// after each non-matching event.
    pub fn remaining_wait_ms(interval_ms: u64, elapsed_ms: u64) -> (r: u64)
        ensures
            r == if elapsed_ms < interval_ms {
                interval_ms - elapsed_ms
            } else {
                0
            },
    {
        if elapsed_ms < interval_ms {
            interval_ms - elapsed_ms
        } else {
            0
        }
    }
}

} // verus!
