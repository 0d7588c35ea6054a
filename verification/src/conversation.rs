//! What one step of a dialogue decides: the text to send back and what
//! becomes of the dialogue's stored state.

use vstd::prelude::*;

verus! {

/// What becomes of a dialogue after a message was answered.
pub enum Next<S> {
    /// The stored state stays as it was.
    Stay,
    /// The stored state is replaced by this one.
    Update(S),
    /// The dialogue ends and its state is removed.
    Exit,
}

impl<S: View> View for Next<S> {
    type V = Next<S::V>;

    open spec fn view(&self) -> Next<S::V> {
        match self {
            Next::Stay => Next::Stay,
            Next::Update(s) => Next::Update(s@),
            Next::Exit => Next::Exit,
        }
    }
}

/// The answer to one incoming message: a reply and the dialogue's next state.
pub struct Step<S> {
    pub reply: String,
    pub next: Next<S>,
}

/// A step as the contracts see it.
pub struct StepView<V> {
    pub reply: Seq<char>,
    pub next: Next<V>,
}

impl<S: View> View for Step<S> {
    type V = StepView<S::V>;

    open spec fn view(&self) -> StepView<S::V> {
        StepView { reply: self.reply@, next: self.next@ }
    }
}

/// The text of a message, if it has one, as characters.
pub open spec fn text_view(text: Option<&str>) -> Option<Seq<char>> {
    match text {
        Some(t) => Some(t@),
        None => None,
    }
}

} // verus!
