//! The exit/accept button: a leaf widget that privately tracks pointer state
//! and, on a press, emits exactly one application message through its
//! configured callback.
use vstd::prelude::*;

verus! {

/// The button's visual state, owned by the rendering framework: idle or
/// hovered (`Hovered(false)` / `Hovered(true)`), or already pressed.
///
/// There is no transition out of `Clicked`: the button fires once per
/// construction, and only the owning page rebuilding it restores the idle
/// visual.
#[derive(Clone, Copy, Debug, PartialEq, Eq, Structural)]
pub enum ExitButtonState {
    Hovered(bool),
    Clicked,
}

impl Default for ExitButtonState {
    /// First render: idle, not hovered.
    fn default() -> (r: Self)
        ensures
            r == ExitButtonState::Hovered(false),
    {
        ExitButtonState::Hovered(false)
    }
}

/// The pointer events the button reacts to.
#[derive(Clone, Copy, Debug, PartialEq, Eq, Structural)]
pub enum ExitButtonEvent {
    Clicked,
    MouseEnter,
    MouseExit,
}

/// Where each event takes the visual state: while the button is unpressed,
/// the pointer events overwrite the hover flag (last write wins); a press is
/// terminal, and a pressed button has no transition left, so later pointer
/// events change nothing.
pub open spec fn exit_button_step(s: ExitButtonState, e: ExitButtonEvent) -> ExitButtonState {
    match e {
        ExitButtonEvent::Clicked => ExitButtonState::Clicked,
        ExitButtonEvent::MouseEnter => match s {
            ExitButtonState::Clicked => ExitButtonState::Clicked,
            _ => ExitButtonState::Hovered(true),
        },
        ExitButtonEvent::MouseExit => match s {
            ExitButtonState::Clicked => ExitButtonState::Clicked,
            _ => ExitButtonState::Hovered(false),
        },
    }
}

/// The state after a whole sequence of events, delivered in arrival order.
pub open spec fn exit_button_run(s: ExitButtonState, events: Seq<ExitButtonEvent>) -> ExitButtonState
    decreases events.len(),
{
    if events.len() == 0 {
        s
    } else {
        exit_button_run(exit_button_step(s, events[0]), events.drop_first())
    }
}

/// Over any press-free event sequence from an unpressed state, the visual
/// state is decided by the last event alone: hovered exactly when it was a
/// pointer-enter. (A pressed button no longer follows the pointer; see
/// `lemma_triggered_is_terminal`.)
pub proof fn lemma_hover_state_is_last_write(s: ExitButtonState, events: Seq<ExitButtonEvent>)
    requires
        s matches ExitButtonState::Hovered(_),
        events.len() > 0,
        forall|i: int| 0 <= i < events.len() ==> events[i] != ExitButtonEvent::Clicked,
    ensures
        exit_button_run(s, events) == ExitButtonState::Hovered(
            events.last() == ExitButtonEvent::MouseEnter,
        ),
    decreases events.len(),
{
    assert(events[0] != ExitButtonEvent::Clicked);
    let s1 = exit_button_step(s, events[0]);
    let tail = events.drop_first();
    assert(exit_button_run(s, events) == exit_button_run(s1, tail));
    if events.len() == 1 {
        assert(events.last() == events[0]);
        assert(exit_button_run(s1, tail) == s1);
    } else {
        assert forall|i: int| 0 <= i < tail.len() implies tail[i] != ExitButtonEvent::Clicked by {
            assert(tail[i] == events[i + 1]);
        }
        lemma_hover_state_is_last_write(s1, tail);
        assert(tail.last() == events.last());
    }
}

/// The pressed state is terminal: once `Clicked`, no event sequence moves
/// the machine again; only the owning page rebuilding the button restores
/// the idle visual.
pub proof fn lemma_triggered_is_terminal(events: Seq<ExitButtonEvent>)
    ensures
        exit_button_run(ExitButtonState::Clicked, events) == ExitButtonState::Clicked,
    decreases events.len(),
{
    if events.len() > 0 {
        assert(exit_button_step(ExitButtonState::Clicked, events[0]) == ExitButtonState::Clicked);
        lemma_triggered_is_terminal(events.drop_first());
    }
}

/// A press is never lost: whatever the state, one more `Clicked` event lands
/// the machine in `Clicked`.
pub proof fn lemma_press_reaches_clicked(s: ExitButtonState, events: Seq<ExitButtonEvent>)
    requires
        events.len() > 0,
        events.last() == ExitButtonEvent::Clicked,
    ensures
        exit_button_run(s, events) == ExitButtonState::Clicked,
    decreases events.len(),
{
    let s1 = exit_button_step(s, events[0]);
    let tail = events.drop_first();
    assert(exit_button_run(s, events) == exit_button_run(s1, tail));
    if events.len() == 1 {
        assert(events.last() == events[0]);
        assert(exit_button_run(s1, tail) == s1);
    } else {
        assert(tail.last() == events.last());
        lemma_press_reaches_clicked(s1, tail);
    }
}

/// The button's configuration: one visual asset per state, and the callback
/// that turns its single terminal interaction into an application message.
#[verifier::reject_recursive_types(M)]
pub struct ExitButton<M, F: Fn(()) -> M> {
    pub active_view: String,
    pub hovered_view: String,
    pub clicked_view: String,
    pub on_click: F,
}

impl<M, F: Fn(()) -> M> ExitButton<M, F> {
    /// The callback must accept the unit value, the only argument the button
    /// ever hands it.
    pub open spec fn wf(self) -> bool {
        call_requires(self.on_click, ((),))
    }

    pub fn new(active_svg: String, hovered_svg: String, clicked_svg: String, on_click: F) -> (r:
        Self)
        requires
            call_requires(on_click, ((),)),
        ensures
            r.active_view == active_svg,
            r.hovered_view == hovered_svg,
            r.clicked_view == clicked_svg,
            r.on_click == on_click,
            r.wf(),
    {
        ExitButton { active_view: active_svg, hovered_view: hovered_svg, clicked_view: clicked_svg, on_click }
    }

    /// Deliver one event: pointer enter/exit only move the hover flag of an
    /// unpressed button and emit nothing — a pressed button stays pressed,
    /// having no transition left; a press, from any reachable state, moves
    /// to `Clicked` exactly once and yields exactly one message, the
    /// callback applied to the unit value.
    pub fn update(&mut self, state: &mut ExitButtonState, event: ExitButtonEvent) -> (r: Option<M>)
        requires
            old(self).wf(),
        ensures
            *final(self) == *old(self),
            *final(state) == exit_button_step(*old(state), event),
            event != ExitButtonEvent::Clicked ==> r is None,
            event == ExitButtonEvent::Clicked ==> (r matches Some(m) && call_ensures(
                old(self).on_click,
                ((),),
                m,
            )),
    {
        match event {
            ExitButtonEvent::MouseEnter => {
                if !matches!(*state, ExitButtonState::Clicked) {
                    *state = ExitButtonState::Hovered(true);
                }
                None
            },
            ExitButtonEvent::MouseExit => {
                if !matches!(*state, ExitButtonState::Clicked) {
                    *state = ExitButtonState::Hovered(false);
                }
                None
            },
            ExitButtonEvent::Clicked => {
                *state = ExitButtonState::Clicked;
                Some((self.on_click)(()))
            },
        }
    }

    /// The render step's one decision: which of the three visual assets the
    /// current state selects.
    pub fn view(&self, state: &ExitButtonState) -> (r: &String)
        ensures
            *state == ExitButtonState::Hovered(true) ==> r == self.hovered_view,
            *state == ExitButtonState::Hovered(false) ==> r == self.active_view,
            *state == ExitButtonState::Clicked ==> r == self.clicked_view,
    {
        match state {
            ExitButtonState::Hovered(true) => &self.hovered_view,
            ExitButtonState::Hovered(false) => &self.active_view,
            ExitButtonState::Clicked => &self.clicked_view,
        }
    }
}

} // verus!
