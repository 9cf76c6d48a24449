use vstd::prelude::*;

verus! {

#[derive(Debug, Clone, Copy, PartialEq, Eq)]
pub struct Model;

#[derive(Debug, Clone, Copy, PartialEq, Eq)]
pub enum Message {
    DisplaySample,
    OpenWebpage(&'static str),
}

/// What the caller does in answer to a message.
#[derive(Debug, Clone, Copy, PartialEq, Eq)]
pub enum Action {
    OpenWebpage(&'static str),
}

/// The summary's answer to a message.
pub open spec fn answer(message: Message) -> Option<Action> {
    match message {
        Message::DisplaySample => None,
        Message::OpenWebpage(url) => Some(Action::OpenWebpage(url)),
    }
}

/// The page that a link names is the page that opens; the sample link does
/// nothing.
pub proof fn lemma_summary_requests(url: &'static str)
    ensures
        answer(Message::OpenWebpage(url)) == Some(Action::OpenWebpage(url)),
        answer(Message::DisplaySample) is None,
{
}

impl Model {
    /// Handles one message and returns the action that it asks for.
    pub fn update(&self, message: Message) -> (action: Option<Action>)
        ensures
            action == answer(message),
    {
        match message {
            Message::DisplaySample => None,
            Message::OpenWebpage(url) => Some(Action::OpenWebpage(url)),
        }
    }
}

} // verus!
