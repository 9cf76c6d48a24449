use vstd::prelude::*;

use super::panel;

verus! {

#[derive(Debug, Clone, Copy, PartialEq, Eq)]
pub enum Variant {
    DataDownloaded,
    Deleted,
    DeleteData,
    NoDataFound,
    NoInternet,
}

#[derive(Debug, Clone, Copy, PartialEq, Eq)]
pub enum Message {
    Accept,
    Close,
    Hide,
    Update(Variant),
}

/// What the dialog shows: the ids of its localized texts.
#[derive(Debug, Clone, Copy, PartialEq, Eq)]
pub struct Content {
    pub header: &'static str,
    pub description: &'static str,
    /// The label of the button that hides the dialog.
    pub close: &'static str,
    /// The label of the accept button, which is hidden where there is none.
    pub accept: Option<&'static str>,
}

/// What the caller does to the dialog and the panel.
#[derive(Debug, Clone, Copy, PartialEq, Eq)]
pub enum Action {
    /// Set the texts and buttons of the dialog.
    Configure(Content),
    Show,
    Hide,
    /// Close the dialog for good.
    Close,
    /// Pass a message to the panel.
    Send(panel::Message),
}

/// The dialog's state: whether it still has its window, and what it asks.
#[derive(Debug, Clone, Copy, PartialEq, Eq)]
pub struct Model {
    pub has_dialog: bool,
    pub variant: Option<Variant>,
}

/// The texts that each variant shows.
pub open spec fn content_of(variant: Variant) -> Content {
    match variant {
        Variant::Deleted => Content {
            header: "data-deleted-header",
            description: "data-deleted-description",
            close: "close",
            accept: None,
        },
        Variant::DataDownloaded => Content {
            header: "data-downloaded-header",
            description: "data-downloaded-description",
            close: "cancel",
            accept: Some("open-folder"),
        },
        Variant::DeleteData => Content {
            header: "delete-data-header",
            description: "delete-data-description",
            close: "cancel",
            accept: Some("delete"),
        },
        Variant::NoDataFound => Content {
            header: "no-data-header",
            description: "no-data-description",
            close: "close",
            accept: None,
        },
        Variant::NoInternet => Content {
            header: "no-internet-header",
            description: "no-internet-description",
            close: "close",
            accept: Some("try-again"),
        },
    }
}

/// The message that accepting a dialog of this variant sends to the panel.
pub open spec fn accept_request(variant: Option<Variant>) -> Seq<Action> {
    match variant {
        Some(Variant::DeleteData) => seq![Action::Send(panel::Message::Delete)],
        Some(Variant::NoInternet) => seq![Action::Send(panel::Message::TryAgain)],
        Some(Variant::DataDownloaded) => seq![Action::Send(panel::Message::OpenDataDir)],
        _ => seq![],
    }
}

/// `action` where the dialog still has its window, else nothing.
pub open spec fn if_open(model: Model, action: Action) -> Seq<Action> {
    if model.has_dialog {
        seq![action]
    } else {
        seq![]
    }
}

/// The dialog's answer to a message: its next state and the actions to perform.
pub open spec fn step(model: Model, message: Message) -> (Model, Seq<Action>) {
    match message {
        Message::Accept => (model, accept_request(model.variant) + if_open(model, Action::Hide)),
        Message::Update(variant) => if model.has_dialog {
            (
                Model { variant: Some(variant), ..model },
                seq![Action::Configure(content_of(variant)), Action::Show],
            )
        } else {
            (model, seq![])
        },
        Message::Hide => (model, if_open(model, Action::Hide)),
        Message::Close => (Model { has_dialog: false, ..model }, if_open(model, Action::Close)),
    }
}

/// Accepting a dialog sends the panel the request that its question was
/// about, and hides the dialog.
pub proof fn lemma_accept_sends_request(model: Model, variant: Variant)
    requires
        model.has_dialog,
    ensures
        step(step(model, Message::Update(variant)).0, Message::Accept).1 == accept_request(
            Some(variant),
        ) + seq![Action::Hide],
{
}

/// A closed dialog stays closed: whatever it is told, it never shows, hides
/// or closes again; at most it passes a request on to the panel.
pub proof fn lemma_closed_dialog_stays_closed(model: Model, message: Message)
    requires
        !model.has_dialog,
    ensures
        !step(model, message).0.has_dialog,
        forall|i: int|
            0 <= i < step(model, message).1.len() ==> #[trigger] step(model, message).1[i] is Send,
{
}

/// Hiding a dialog keeps it: it shows again for the next question.
pub proof fn lemma_hidden_dialog_shows_again(model: Model, variant: Variant)
    requires
        model.has_dialog,
    ensures
        step(model, Message::Hide).0 == model,
        step(step(model, Message::Hide).0, Message::Update(variant)).1 == seq![
            Action::Configure(content_of(variant)),
            Action::Show,
        ],
{
}

/// Accepting keeps the dialog: it stays open (or closed) and remembers its
/// question, and an open dialog shows the next question it is asked.
pub proof fn lemma_accept_keeps_dialog(model: Model, variant: Variant)
    ensures
        step(model, Message::Accept).0 == model,
        model.has_dialog ==> step(step(model, Message::Accept).0, Message::Update(variant)).1
            == seq![Action::Configure(content_of(variant)), Action::Show],
{
}

/// Accepting hides an open dialog, after at most one request to the panel;
/// it shows nothing and closes nothing.
pub proof fn lemma_accept_hides(model: Model)
    ensures
        model.has_dialog ==> step(model, Message::Accept).1.last() == Action::Hide,
        !model.has_dialog ==> forall|i: int|
            0 <= i < step(model, Message::Accept).1.len() ==> #[trigger] step(
                model,
                Message::Accept,
            ).1[i] is Send,
        step(model, Message::Accept).1.len() <= 2,
{
}

/// An open dialog asked a question remembers it, stays open, shows the
/// texts of that question and shows itself; a closed one stays as it is.
pub proof fn lemma_update_asks(model: Model, variant: Variant)
    ensures
        model.has_dialog ==> step(model, Message::Update(variant)).0 == (Model {
            has_dialog: true,
            variant: Some(variant),
        }),
        model.has_dialog ==> step(model, Message::Update(variant)).1 == seq![
            Action::Configure(content_of(variant)),
            Action::Show,
        ],
        !model.has_dialog ==> step(model, Message::Update(variant)).0 == model
            && step(model, Message::Update(variant)).1.len() == 0,
{
}

/// Closing drops the dialog's window for good and keeps its question.
pub proof fn lemma_close_drops_window(model: Model)
    ensures
        !step(model, Message::Close).0.has_dialog,
        step(model, Message::Close).0.variant == model.variant,
        step(model, Message::Close).1 == (if model.has_dialog {
            seq![Action::Close]
        } else {
            Seq::empty()
        }),
{
}

/// A dialog offers an accept button exactly for the questions whose
/// acceptance asks something of the panel.
pub proof fn lemma_accept_button_matches_request(variant: Variant)
    ensures
        content_of(variant).accept is Some <==> accept_request(Some(variant)).len() == 1,
        accept_request(Some(variant)).len() <= 1,
{
}

/// Every question has its own header and its own description.
pub proof fn lemma_questions_differ(a: Variant, b: Variant)
    requires
        a != b,
    ensures
        content_of(a).header@ != content_of(b).header@,
        content_of(a).description@ != content_of(b).description@,
{
    reveal_strlit("data-deleted-header");
    reveal_strlit("data-downloaded-header");
    reveal_strlit("delete-data-header");
    reveal_strlit("no-data-header");
    reveal_strlit("no-internet-header");
    reveal_strlit("data-deleted-description");
    reveal_strlit("data-downloaded-description");
    reveal_strlit("delete-data-description");
    reveal_strlit("no-data-description");
    reveal_strlit("no-internet-description");
    let ha = content_of(a).header@;
    let hb = content_of(b).header@;
    let da = content_of(a).description@;
    let db = content_of(b).description@;
    assert(ha.len() != hb.len() || ha[1] != hb[1] || ha[5] != hb[5]);
    assert(da.len() != db.len() || da[1] != db[1] || da[5] != db[5]);
}

/// The texts that `variant` shows.
pub fn content_for(variant: Variant) -> (content: Content)
    ensures
        content == content_of(variant),
{
    match variant {
        Variant::Deleted => Content {
            header: "data-deleted-header",
            description: "data-deleted-description",
            close: "close",
            accept: None,
        },
        Variant::DataDownloaded => Content {
            header: "data-downloaded-header",
            description: "data-downloaded-description",
            close: "cancel",
            accept: Some("open-folder"),
        },
        Variant::DeleteData => Content {
            header: "delete-data-header",
            description: "delete-data-description",
            close: "cancel",
            accept: Some("delete"),
        },
        Variant::NoDataFound => Content {
            header: "no-data-header",
            description: "no-data-description",
            close: "close",
            accept: None,
        },
        Variant::NoInternet => Content {
            header: "no-internet-header",
            description: "no-internet-description",
            close: "close",
            accept: Some("try-again"),
        },
    }
}

impl Model {
    /// A dialog that has its window and has not been asked anything yet.
    pub fn new() -> (model: Model)
        ensures
            model.has_dialog,
            model.variant is None,
    {
        Model { has_dialog: true, variant: None }
    }

    /// Handles one message and returns the actions that it asks for.
    pub fn update(&mut self, message: Message) -> (actions: Vec<Action>)
        ensures
            (*final(self), actions@) == step(*old(self), message),
    {
        match message {
            Message::Accept => {
                let mut actions = match self.variant {
                    Some(Variant::DeleteData) => vec![Action::Send(panel::Message::Delete)],
                    Some(Variant::NoInternet) => vec![Action::Send(panel::Message::TryAgain)],
                    Some(Variant::DataDownloaded) => vec![Action::Send(panel::Message::OpenDataDir)],
                    _ => vec![],
                };
                if self.has_dialog {
                    actions.push(Action::Hide);
                }
                actions
            },
            Message::Update(variant) => {
                if self.has_dialog {
                    self.variant = Some(variant);
                    vec![Action::Configure(content_for(variant)), Action::Show]
                } else {
                    vec![]
                }
            },
            Message::Hide => {
                if self.has_dialog {
                    vec![Action::Hide]
                } else {
                    vec![]
                }
            },
            Message::Close => {
                if self.has_dialog {
                    self.has_dialog = false;
                    vec![Action::Close]
                } else {
                    vec![]
                }
            },
        }
    }
}

} // verus!
