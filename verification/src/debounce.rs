//! The debounce engine: one watched button, one press/release state machine.
//!
//! The engine is fed raw transitions, each classified as press-like or
//! release-like and stamped with the time at which it was received. A raw
//! transition is *accepted* when the debounce window has elapsed since the
//! last accepted one, or when it changes the logical state; any other is
//! chatter and leaves the state untouched. An accepted transition that
//! changes the logical state is surfaced as a logical press or release.

use crate::codec::RawEvent;
use vstd::prelude::*;

verus! {

/// Default debounce window, in milliseconds.
pub const DEBOUNCE_MS: i64 = 50;

/// Default watched control: the side button of a pointing device.
pub const BTN_SIDE: u16 = 0x113;

/// A press or release that the engine surfaces to the application.
#[derive(Clone, Copy, Debug, PartialEq, Eq, Structural)]
pub enum LogicalEvent {
    Press,
    Release,
}

/// What the engine is built with: the width of the debounce window and the
/// code of the one control it watches.
#[derive(Clone, Copy, Debug, PartialEq, Eq, Structural)]
pub struct DebounceConfig {
    pub debounce_ms: i64,
    pub watched_code: u16,
}

impl Default for DebounceConfig {
    /// A window of [`DEBOUNCE_MS`] on the control [`BTN_SIDE`].
    fn default() -> (config: DebounceConfig)
        ensures
            config.debounce_ms == DEBOUNCE_MS,
            config.watched_code == BTN_SIDE,
    {
        DebounceConfig { debounce_ms: DEBOUNCE_MS, watched_code: BTN_SIDE }
    }
}

/// One raw transition of the watched control.
#[derive(Clone, Copy, Debug, PartialEq, Eq, Structural)]
pub struct RawTransition {
    /// `true` for a press-like transition, `false` for a release-like one.
    pub press_like: bool,
    /// The time at which the transition was received, in milliseconds.
    pub time_ms: i64,
}

impl RawTransition {
    /// Classifies a raw value: zero is release-like, anything else is
    /// press-like.
    pub fn from_value(value: i32, time_ms: i64) -> (tr: RawTransition)
        ensures
            tr.press_like == (value != 0),
            tr.time_ms == time_ms,
    {
        RawTransition { press_like: value != 0, time_ms }
    }

    /// The logical event that this transition stands for when it is
    /// surfaced.
    pub open spec fn event(self) -> LogicalEvent {
        if self.press_like {
            LogicalEvent::Press
        } else {
            LogicalEvent::Release
        }
    }
}

/// Debounce state of the one monitored control.
#[derive(Clone, Copy, Debug, PartialEq, Eq, Structural)]
pub struct ButtonState {
    /// Classification of the most recently accepted raw transition.
    pub last_is_released: bool,
    /// Time of the most recently accepted raw transition, in milliseconds.
    pub last_time_ms: i64,
    /// A logical press has been emitted and not yet matched by a release.
    pub sent_press: bool,
    /// The release matching the last logical press has been emitted.
    pub sent_release: bool,
}

impl ButtonState {
    /// The state at engine start: released, nothing pending.
    pub open spec fn initial() -> ButtonState {
        ButtonState {
            last_is_released: true,
            last_time_ms: 0,
            sent_press: false,
            sent_release: true,
        }
    }

    /// The two flags tell one fact from two sides and never agree, and the
    /// last accepted classification tells the same fact.
    pub open spec fn wf(self) -> bool {
        &&& self.sent_press != self.sent_release
        &&& self.last_is_released == self.sent_release
    }

    /// The transition would change the logical state: a press while no
    /// press is open, or a release while one is.
    pub open spec fn changes_state(self, tr: RawTransition) -> bool {
        if tr.press_like {
            !self.sent_press
        } else {
            !self.sent_release
        }
    }

    /// The debounce window has elapsed between the last accepted transition
    /// and this one.
    pub open spec fn window_elapsed(self, tr: RawTransition, window_ms: i64) -> bool {
        tr.time_ms - self.last_time_ms >= window_ms
    }

    /// The guard of the state machine. A transition that is not accepted is
    /// chatter.
    pub open spec fn accepts(self, tr: RawTransition, window_ms: i64) -> bool {
        self.window_elapsed(tr, window_ms) || self.changes_state(tr)
    }

    /// The logical event that the transition gives rise to, if any.
    pub open spec fn emission(self, tr: RawTransition) -> Option<LogicalEvent> {
        if self.changes_state(tr) {
            Some(tr.event())
        } else {
            None
        }
    }

    /// The state after the transition.
    pub open spec fn after(self, tr: RawTransition, window_ms: i64) -> ButtonState {
        if !self.accepts(tr, window_ms) {
            self
        } else if self.changes_state(tr) {
            ButtonState {
                last_is_released: !tr.press_like,
                last_time_ms: tr.time_ms,
                sent_press: tr.press_like,
                sent_release: !tr.press_like,
            }
        } else {
            ButtonState { last_is_released: !tr.press_like, last_time_ms: tr.time_ms, ..self }
        }
    }

    /// The state after a sequence of transitions, fed in order.
    pub open spec fn after_all(self, trs: Seq<RawTransition>, window_ms: i64) -> ButtonState
        decreases trs.len(),
    {
        if trs.len() == 0 {
            self
        } else {
            self.after_all(trs.drop_last(), window_ms).after(trs.last(), window_ms)
        }
    }

    /// The logical event that the `i`-th transition of a sequence gives rise
    /// to, if any.
    pub open spec fn emission_at(
        self,
        trs: Seq<RawTransition>,
        window_ms: i64,
        i: int,
    ) -> Option<LogicalEvent> {
        self.after_all(trs.take(i), window_ms).emission(trs[i])
    }

    /// A press is open and more than the debounce window has passed since
    /// the last accepted transition.
    pub open spec fn silent_since(self, now_ms: i64, window_ms: i64) -> bool {
        self.sent_press && now_ms - self.last_time_ms > window_ms
    }

    /// The state at engine start.
    pub fn new() -> (s: ButtonState)
        ensures
            s == ButtonState::initial(),
            s.wf(),
    {
        ButtonState {
            last_is_released: true,
            last_time_ms: 0,
            sent_press: false,
            sent_release: true,
        }
    }

    /// Feeds one raw transition to the state machine and returns the logical
    /// event to emit, if any.
    pub fn apply(&mut self, tr: RawTransition, window_ms: i64) -> (emitted: Option<LogicalEvent>)
        ensures
            *final(self) == old(self).after(tr, window_ms),
            emitted == old(self).emission(tr),
            old(self).wf() ==> final(self).wf(),
    {
        let changes = if tr.press_like {
            !self.sent_press
        } else {
            !self.sent_release
        };
        let elapsed = tr.time_ms as i128 - self.last_time_ms as i128 >= window_ms as i128;
        if !(elapsed || changes) {
            return None;
        }
        self.last_is_released = !tr.press_like;
        self.last_time_ms = tr.time_ms;
        if changes {
            self.sent_press = tr.press_like;
            self.sent_release = !tr.press_like;
            if tr.press_like {
                Some(LogicalEvent::Press)
            } else {
                Some(LogicalEvent::Release)
            }
        } else {
            None
        }
    }

    /// The silence check: whether a press is open and more than the window
    /// has passed since the last accepted transition.
    pub fn is_silent(&self, now_ms: i64, window_ms: i64) -> (silent: bool)
        ensures
            silent == self.silent_since(now_ms, window_ms),
    {
        self.sent_press && now_ms as i128 - self.last_time_ms as i128 > window_ms as i128
    }
}

/// The debounce engine: its configuration and the state of the control it
/// watches.
#[derive(Clone, Copy, Debug, PartialEq, Eq, Structural)]
pub struct Debouncer {
    pub config: DebounceConfig,
    pub state: ButtonState,
}

impl Debouncer {
    /// The state of the watched control is well formed.
    pub open spec fn wf(self) -> bool {
        self.state.wf()
    }

    /// The event concerns the watched control.
    pub open spec fn routes(self, event: RawEvent) -> bool {
        event.code == self.config.watched_code
    }

    /// The raw transition that a routed event stands for.
    pub open spec fn transition_of(event: RawEvent, now_ms: i64) -> RawTransition {
        RawTransition { press_like: event.value != 0, time_ms: now_ms }
    }

    /// The engine after a raw event received at `now_ms`.
    pub open spec fn after_event(self, event: RawEvent, now_ms: i64) -> Debouncer {
        if self.routes(event) {
            Debouncer {
                state: self.state.after(
                    Self::transition_of(event, now_ms),
                    self.config.debounce_ms,
                ),
                ..self
            }
        } else {
            self
        }
    }

    /// The logical event that a raw event gives rise to, if any.
    pub open spec fn emission_for(self, event: RawEvent, now_ms: i64) -> Option<LogicalEvent> {
        if self.routes(event) {
            self.state.emission(Self::transition_of(event, now_ms))
        } else {
            None
        }
    }

    /// An engine at its start, watching the control that `config` names.
    pub fn new(config: DebounceConfig) -> (engine: Debouncer)
        ensures
            engine.config == config,
            engine.state == ButtonState::initial(),
            engine.wf(),
    {
        Debouncer { config, state: ButtonState::new() }
    }

    /// Feeds one raw transition of the watched control to the engine.
    pub fn handle_transition(&mut self, tr: RawTransition) -> (emitted: Option<LogicalEvent>)
        ensures
            final(self).config == old(self).config,
            final(self).state == old(self).state.after(tr, old(self).config.debounce_ms),
            emitted == old(self).state.emission(tr),
            old(self).wf() ==> final(self).wf(),
    {
        let mut state = self.state;
        let emitted = state.apply(tr, self.config.debounce_ms);
        self.state = state;
        emitted
    }

    /// Feeds one raw event, received at `now_ms`, to the engine. An event
    /// for another control than the watched one is ignored.
    pub fn handle_event(&mut self, event: &RawEvent, now_ms: i64) -> (emitted: Option<
        LogicalEvent,
    >)
        ensures
            *final(self) == old(self).after_event(*event, now_ms),
            emitted == old(self).emission_for(*event, now_ms),
            old(self).wf() ==> final(self).wf(),
    {
        if event.code != self.config.watched_code {
            return None;
        }
        self.handle_transition(RawTransition::from_value(event.value, now_ms))
    }

    /// The silence timeout hook, to be called on every poll cycle: whether a
    /// press is open and more than the debounce window has passed since the
    /// last accepted transition.
    pub fn silence_timeout(&self, now_ms: i64) -> (silent: bool)
        ensures
            silent == self.state.silent_since(now_ms, self.config.debounce_ms),
    {
        self.state.is_silent(now_ms, self.config.debounce_ms)
    }
}

/// Well-formedness survives any sequence of transitions.
pub proof fn lemma_after_all_wf(s: ButtonState, trs: Seq<RawTransition>, window_ms: i64)
    requires
        s.wf(),
    ensures
        s.after_all(trs, window_ms).wf(),
    decreases trs.len(),
{
    if trs.len() > 0 {
        lemma_after_all_wf(s, trs.drop_last(), window_ms);
    }
}

/// After any sequence of transitions from engine start, exactly one of
/// `sent_press` and `sent_release` is set.
pub proof fn law_flags_never_agree(trs: Seq<RawTransition>, window_ms: i64)
    ensures
        ButtonState::initial().after_all(trs, window_ms).sent_press != ButtonState::initial().after_all(
            trs,
            window_ms,
        ).sent_release,
{
    lemma_after_all_wf(ButtonState::initial(), trs, window_ms);
}

/// The first raw transition after engine start is never held back by the
/// window: whatever its time, a press-like one is accepted and surfaces as a
/// logical press. A release-like one finds the control released already and
/// surfaces nothing.
pub proof fn law_first_transition(tr: RawTransition, window_ms: i64)
    ensures
        tr.press_like ==> ButtonState::initial().accepts(tr, window_ms)
            && ButtonState::initial().emission(tr) == Some(LogicalEvent::Press),
        !tr.press_like ==> ButtonState::initial().emission(tr).is_none(),
{
}

/// Of two raw transitions of one classification in a row, the second gives
/// rise to no logical event, whatever the times of the two.
pub proof fn law_repeat_surfaces_nothing(
    s: ButtonState,
    first: RawTransition,
    second: RawTransition,
    window_ms: i64,
)
    requires
        first.press_like == second.press_like,
    ensures
        s.after(first, window_ms).emission(second).is_none(),
{
}

/// While press-like chatter arrives within the window, the state stays what
/// the first transition left.
proof fn lemma_press_chatter_prefix(
    s: ButtonState,
    trs: Seq<RawTransition>,
    window_ms: i64,
    n: int,
)
    requires
        1 <= n <= trs.len(),
        forall|j: int| 0 <= j < trs.len() ==> (#[trigger] trs[j]).press_like,
        forall|j: int|
            1 <= j < trs.len() ==> !s.after_all(#[trigger] trs.take(j), window_ms).window_elapsed(
                trs[j],
                window_ms,
            ),
    ensures
        s.after_all(trs.take(n), window_ms) == s.after_all(trs.take(1), window_ms),
    decreases n,
{
    if n > 1 {
        lemma_press_chatter_prefix(s, trs, window_ms, n - 1);
        assert(trs.take(n).drop_last() =~= trs.take(n - 1));
    }
}

/// A burst of press-like transitions, each after the first arriving
/// strictly within the window of the last accepted one, gives rise to no
/// logical event after its first transition and leaves the state as the
/// first transition left it.
pub proof fn law_press_chatter_is_suppressed(
    s: ButtonState,
    trs: Seq<RawTransition>,
    window_ms: i64,
)
    requires
        trs.len() >= 1,
        forall|j: int| 0 <= j < trs.len() ==> (#[trigger] trs[j]).press_like,
        forall|j: int|
            1 <= j < trs.len() ==> !s.after_all(#[trigger] trs.take(j), window_ms).window_elapsed(
                trs[j],
                window_ms,
            ),
    ensures
        forall|i: int| 1 <= i < trs.len() ==> (#[trigger] s.emission_at(trs, window_ms, i)).is_none(),
        s.after_all(trs, window_ms) == s.after_all(trs.take(1), window_ms),
{
    lemma_press_chatter_prefix(s, trs, window_ms, trs.len() as int);
    assert(trs.take(trs.len() as int) =~= trs);
}

} // verus!
