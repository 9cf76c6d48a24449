use vstd::prelude::*;

use super::panel::PurposeKey;
use super::Purpose;

verus! {

/// The setup page's state: the purpose that the user is asked to agree to.
#[derive(Debug, PartialEq, Eq)]
pub struct Model {
    pub purpose: PurposeKey,
    pub purpose_statement: String,
}

#[derive(Debug, Clone, Copy, PartialEq, Eq)]
pub enum Message {
    Agree,
    Decline,
    DisplaySample,
    OpenWebpage(&'static str),
}

/// What the caller does in answer to a message.
#[derive(Debug, PartialEq, Eq)]
pub enum Action {
    /// Give (`agreed`) or withdraw consent for the purpose, then tell the
    /// setup whether the user agreed.
    Consent { purpose: PurposeKey, agreed: bool },
    OpenWebpage(&'static str),
}

/// The setup page's answer to a message.
pub open spec fn answer(model: Model, message: Message) -> Option<Action> {
    match message {
        Message::Agree => Some(Action::Consent { purpose: model.purpose, agreed: true }),
        Message::Decline => Some(Action::Consent { purpose: model.purpose, agreed: false }),
        Message::DisplaySample => None,
        Message::OpenWebpage(url) => Some(Action::OpenWebpage(url)),
    }
}

/// Agreeing gives consent and declining withdraws it, both for the purpose
/// that the page shows, and the setup learns which of the two the user chose.
pub proof fn lemma_consent_follows_choice(model: Model, url: &'static str)
    ensures
        answer(model, Message::Agree) == Some(
            Action::Consent { purpose: model.purpose, agreed: true },
        ),
        answer(model, Message::Decline) == Some(
            Action::Consent { purpose: model.purpose, agreed: false },
        ),
        answer(model, Message::OpenWebpage(url)) == Some(Action::OpenWebpage(url)),
        answer(model, Message::DisplaySample) is None,
{
}

impl Model {
    /// The page for the purpose chosen for the locale among the purposes
    /// shipped with the client.
    pub fn new(language: String, region: String, purpose: Purpose) -> (model: Model)
        ensures
            model.purpose == (PurposeKey {
                language,
                region,
                purpose_id: purpose.purpose_id,
                version: purpose.version,
            }),
            model.purpose_statement == purpose.statement,
    {
        Model {
            purpose: PurposeKey {
                language,
                region,
                purpose_id: purpose.purpose_id,
                version: purpose.version,
            },
            purpose_statement: purpose.statement,
        }
    }

    /// Handles one message and returns the action that it asks for.
    pub fn update(&self, message: Message) -> (action: Option<Action>)
        ensures
            action == answer(*self, message),
    {
        match message {
            Message::Agree => Some(Action::Consent { purpose: self.purpose.clone(), agreed: true }),
            Message::Decline => Some(
                Action::Consent { purpose: self.purpose.clone(), agreed: false },
            ),
            Message::DisplaySample => None,
            Message::OpenWebpage(url) => Some(Action::OpenWebpage(url)),
        }
    }
}

} // verus!
