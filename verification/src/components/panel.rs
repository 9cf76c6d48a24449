use vstd::prelude::*;

use super::dialog::{self, Variant};
use super::Progress;

verus! {

/// The remote operation that the panel has under way, which the dialog's
/// "try again" repeats.
#[derive(Debug, Clone, Copy, PartialEq, Eq)]
pub enum Operation {
    DeleteData,
    DownloadData,
}

#[derive(Debug, Clone, Copy, PartialEq, Eq)]
pub enum Message {
    Delete,
    DeleteDialog,
    DeleteRequest,
    DisplaySample,
    Download,
    DownloadComplete,
    DownloadProgress(Progress),
    OpenDataDir,
    OpenWebpage(&'static str),
    /// The switch was flipped; it carries the switch's new state.
    Toggle(bool),
    TryAgain,
}

/// What the caller does to the widgets and the outside world.
#[derive(Debug, Clone, Copy, PartialEq, Eq)]
pub enum Action {
    /// Turn the collection of analytics on or off.
    StartToggle(bool),
    /// Delete the data held remotely.
    StartDelete,
    /// Ask for the remote data to be deleted.
    StartDeleteRequest,
    /// Download the data held remotely.
    StartDownload,
    /// Let the dialog show this variant.
    UpdateDialog(Variant),
    ShowDialog,
    SetDownloadSensitive(bool),
    SetProgress(Progress),
    /// Show the progress bar in place of the download label.
    ShowProgress,
    /// Show the download label in place of the progress bar.
    ShowDownloadLabel,
    OpenDataDir,
    OpenWebpage(&'static str),
}

/// The panel's own state: the operation it has under way.
#[derive(Debug, Clone, Copy, PartialEq, Eq)]
pub struct Model {
    pub operation: Option<Operation>,
}

/// The action that starts an operation again.
pub open spec fn restart(operation: Option<Operation>) -> Seq<Action> {
    match operation {
        Some(Operation::DeleteData) => seq![Action::StartDelete],
        Some(Operation::DownloadData) => seq![Action::StartDownload],
        None => seq![],
    }
}

/// The panel's answer to a message: its next state and the actions to perform.
pub open spec fn step(model: Model, message: Message) -> (Model, Seq<Action>) {
    match message {
        Message::Toggle(enable) => (model, seq![Action::StartToggle(enable)]),
        Message::Delete => (model, seq![Action::StartDelete]),
        Message::DeleteRequest => (
            Model { operation: Some(Operation::DeleteData) },
            seq![Action::StartDeleteRequest],
        ),
        Message::DeleteDialog => (
            model,
            seq![Action::UpdateDialog(Variant::DeleteData), Action::ShowDialog],
        ),
        Message::Download => (
            Model { operation: Some(Operation::DownloadData) },
            seq![Action::SetDownloadSensitive(false), Action::StartDownload],
        ),
        Message::DownloadProgress(progress) => (
            model,
            seq![Action::SetProgress(progress), Action::ShowProgress],
        ),
        Message::DownloadComplete => (
            Model { operation: None },
            seq![Action::UpdateDialog(Variant::DataDownloaded), Action::ShowDownloadLabel],
        ),
        Message::DisplaySample => (model, seq![]),
        Message::OpenDataDir => (model, seq![Action::OpenDataDir]),
        Message::OpenWebpage(url) => (model, seq![Action::OpenWebpage(url)]),
        Message::TryAgain => (model, restart(model.operation)),
    }
}

/// Trying again repeats the operation under way: the deletion that was asked
/// for, or the download, until the download completes.
pub proof fn lemma_try_again_repeats_operation(model: Model)
    ensures
        step(step(model, Message::DeleteRequest).0, Message::TryAgain).1 == seq![
            Action::StartDelete,
        ],
        step(step(model, Message::Download).0, Message::TryAgain).1 == seq![
            Action::StartDownload,
        ],
        step(step(model, Message::DownloadComplete).0, Message::TryAgain).1 == Seq::<
            Action,
        >::empty(),
{
}

/// Accepting the confirmation of a deletion makes the panel delete the data.
pub proof fn lemma_confirmed_deletion_deletes(dialog_model: dialog::Model, model: Model)
    requires
        dialog_model.has_dialog,
    ensures
        dialog::step(
            dialog::step(dialog_model, dialog::Message::Update(Variant::DeleteData)).0,
            dialog::Message::Accept,
        ).1[0] == dialog::Action::Send(Message::Delete),
        step(model, Message::Delete).1 == seq![Action::StartDelete],
{
}

/// Accepting the "no internet" dialog makes the panel repeat the operation
/// that it has under way.
pub proof fn lemma_no_internet_retries(dialog_model: dialog::Model, model: Model)
    requires
        dialog_model.has_dialog,
    ensures
        dialog::step(
            dialog::step(dialog_model, dialog::Message::Update(Variant::NoInternet)).0,
            dialog::Message::Accept,
        ).1[0] == dialog::Action::Send(Message::TryAgain),
        step(model, Message::TryAgain).1 == restart(model.operation),
{
}

/// The toggle request carries the switch's new state, and leaves the
/// operation under way alone.
pub proof fn lemma_toggle_carries_state(model: Model, enable: bool)
    ensures
        step(model, Message::Toggle(enable)) == (model, seq![Action::StartToggle(enable)]),
{
}

/// The panel shows the progress it is told, on the progress bar.
pub proof fn lemma_progress_shown(model: Model, progress: Progress)
    ensures
        step(model, Message::DownloadProgress(progress)) == (
            model,
            seq![Action::SetProgress(progress), Action::ShowProgress],
        ),
{
}

/// The page that a link names is the page that opens.
pub proof fn lemma_webpage_opened(model: Model, url: &'static str)
    ensures
        step(model, Message::OpenWebpage(url)) == (model, seq![Action::OpenWebpage(url)]),
{
}

/// Only asking for a deletion, starting a download and its completion change
/// the operation under way.
pub proof fn lemma_operation_kept(model: Model, message: Message)
    requires
        !(message is DeleteRequest),
        !(message is Download),
        !(message is DownloadComplete),
    ensures
        step(model, message).0 == model,
{
}

/// Accepting the downloaded-data dialog opens the data folder.
pub proof fn lemma_open_folder_opens_data_dir(dialog_model: dialog::Model, model: Model)
    requires
        dialog_model.has_dialog,
    ensures
        dialog::step(
            dialog::step(dialog_model, dialog::Message::Update(Variant::DataDownloaded)).0,
            dialog::Message::Accept,
        ).1[0] == dialog::Action::Send(Message::OpenDataDir),
        step(model, Message::OpenDataDir) == (model, seq![Action::OpenDataDir]),
{
}

/// Each control asks for what it names: deleting deletes, asking to delete
/// asks, the delete dialog asks the delete question, a download disables its
/// button and downloads, and a finished download says so and shows the label
/// again.
pub proof fn lemma_controls_ask_what_they_name(model: Model)
    ensures
        step(model, Message::Delete) == (model, seq![Action::StartDelete]),
        step(model, Message::DeleteRequest).1 == seq![Action::StartDeleteRequest],
        step(model, Message::DeleteDialog) == (
            model,
            seq![Action::UpdateDialog(Variant::DeleteData), Action::ShowDialog],
        ),
        step(model, Message::Download).1 == seq![
            Action::SetDownloadSensitive(false),
            Action::StartDownload,
        ],
        step(model, Message::DownloadComplete).1 == seq![
            Action::UpdateDialog(Variant::DataDownloaded),
            Action::ShowDownloadLabel,
        ],
        step(model, Message::DisplaySample) == (model, Seq::<Action>::empty()),
{
}

impl Model {
    pub fn new() -> (model: Model)
        ensures
            model.operation is None,
    {
        Model { operation: None }
    }

    /// Handles one message and returns the actions that it asks for.
    pub fn update(&mut self, message: Message) -> (actions: Vec<Action>)
        ensures
            (*final(self), actions@) == step(*old(self), message),
    {
        match message {
            Message::Toggle(enable) => vec![Action::StartToggle(enable)],
            Message::Delete => vec![Action::StartDelete],
            Message::DeleteRequest => {
                self.operation = Some(Operation::DeleteData);
                vec![Action::StartDeleteRequest]
            },
            Message::DeleteDialog => {
                vec![Action::UpdateDialog(Variant::DeleteData), Action::ShowDialog]
            },
            Message::Download => {
                self.operation = Some(Operation::DownloadData);
                vec![Action::SetDownloadSensitive(false), Action::StartDownload]
            },
            Message::DownloadProgress(progress) => {
                vec![Action::SetProgress(progress), Action::ShowProgress]
            },
            Message::DownloadComplete => {
                self.operation = None;
                vec![Action::UpdateDialog(Variant::DataDownloaded), Action::ShowDownloadLabel]
            },
            Message::DisplaySample => vec![],
            Message::OpenDataDir => vec![Action::OpenDataDir],
            Message::OpenWebpage(url) => vec![Action::OpenWebpage(url)],
            Message::TryAgain => match self.operation {
                Some(Operation::DeleteData) => vec![Action::StartDelete],
                Some(Operation::DownloadData) => vec![Action::StartDownload],
                None => vec![],
            },
        }
    }
}

} // verus!
