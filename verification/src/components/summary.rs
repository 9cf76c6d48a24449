use vstd::prelude::*;

verus! {

#[derive(Debug, Clone, Copy, PartialEq, Eq)]
pub struct Model {
    /// Whether the summary shows the switch that turns collection on and off.
    pub show_toggle: bool,
}

#[derive(Debug, Clone, Copy, PartialEq, Eq)]
pub enum Message {
    DisplaySample,
    OpenWebpage(&'static str),
    /// The switch was flipped; it carries the switch's new state.
    Toggle(bool),
}

/// What the caller does in answer to a message.
#[derive(Debug, Clone, Copy, PartialEq, Eq)]
pub enum Action {
    OpenWebpage(&'static str),
    /// Turn the collection of analytics on or off.
    StartToggle(bool),
}

/// The summary's answer to a message.
pub open spec fn answer(message: Message) -> Option<Action> {
    match message {
        Message::DisplaySample => None,
        Message::OpenWebpage(url) => Some(Action::OpenWebpage(url)),
        Message::Toggle(enable) => Some(Action::StartToggle(enable)),
    }
}

/// The summary's toggle request carries the switch's new state, and the page
/// that a link names is the page that opens.
pub proof fn lemma_summary_requests(enable: bool, url: &'static str)
    ensures
        answer(Message::Toggle(enable)) == Some(Action::StartToggle(enable)),
        answer(Message::OpenWebpage(url)) == Some(Action::OpenWebpage(url)),
        answer(Message::DisplaySample) is None,
{
}

impl Model {
    pub fn new(show_toggle: bool) -> (model: Model)
        ensures
            model.show_toggle == show_toggle,
    {
        Model { show_toggle }
    }

    /// Handles one message and returns the action that it asks for.
    pub fn update(&self, message: Message) -> (action: Option<Action>)
        ensures
            action == answer(message),
    {
        match message {
            Message::DisplaySample => None,
            Message::OpenWebpage(url) => Some(Action::OpenWebpage(url)),
            Message::Toggle(enable) => Some(Action::StartToggle(enable)),
        }
    }
}

} // verus!
