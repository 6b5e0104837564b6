//! The hyperlink-style category selector: hover only changes text emphasis,
//! and a press always emits the configured category through the callback,
//! whatever the prior hover state.
use vstd::prelude::*;
use crate::pages::notes_page::NotesCategory;

verus! {

/// The pointer events the link reacts to.
#[derive(Debug, Clone, Copy, PartialEq, Eq, Structural)]
pub enum HyperlinkEvent {
    Clicked,
    MouseEnter,
    MouseExit,
}

/// The link's private visual state: whether the pointer is over it.
#[derive(Debug, Clone, Copy, PartialEq, Eq, Structural)]
pub struct HyperlinkState {
    pub hovered: bool,
}

impl Default for HyperlinkState {
    /// First render: not hovered.
    fn default() -> (r: Self)
        ensures
            !r.hovered,
    {
        HyperlinkState { hovered: false }
    }
}

/// The link's configuration: its label, the category it navigates to, and
/// the callback that turns that category into an application message.
#[verifier::reject_recursive_types(M)]
pub struct Hyperlink<M, F: Fn(NotesCategory) -> M> {
    pub placeholder: String,
    pub category_to: NotesCategory,
    pub on_change: F,
}

impl<M, F: Fn(NotesCategory) -> M> Hyperlink<M, F> {
    /// The callback must accept the configured category, the only argument
    /// the link ever hands it.
    pub open spec fn wf(self) -> bool {
        call_requires(self.on_change, (self.category_to,))
    }

    pub fn new(placeholder: String, category_to: NotesCategory, on_change: F) -> (r: Self)
        requires
            call_requires(on_change, (category_to,)),
        ensures
            r.placeholder == placeholder,
            r.category_to == category_to,
            r.on_change == on_change,
            r.wf(),
    {
        Hyperlink { placeholder, category_to, on_change }
    }

    /// Deliver one event: pointer enter/exit only write the hover flag and
    /// emit nothing; a press leaves the state alone and always yields
    /// exactly one message, the callback applied to the configured category,
    /// regardless of the prior hover state.
    pub fn update(&mut self, state: &mut HyperlinkState, event: HyperlinkEvent) -> (r: Option<M>)
        requires
            old(self).wf(),
        ensures
            *final(self) == *old(self),
            event == HyperlinkEvent::MouseEnter ==> (r is None && final(state).hovered),
            event == HyperlinkEvent::MouseExit ==> (r is None && !final(state).hovered),
            event == HyperlinkEvent::Clicked ==> (*final(state) == *old(state) && (
            r matches Some(m) && call_ensures(old(self).on_change, (old(self).category_to,), m))),
    {
        match event {
            HyperlinkEvent::Clicked => Some((self.on_change)(self.category_to)),
            HyperlinkEvent::MouseEnter => {
                state.hovered = true;
                None
            },
            HyperlinkEvent::MouseExit => {
                state.hovered = false;
                None
            },
        }
    }
}

} // verus!
