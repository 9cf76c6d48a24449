use vstd::prelude::*;

use super::super::dialog::Variant;
use super::super::Progress;
use super::{ClientError, Purpose, PurposeAndOpt};

verus! {

/// The device that the panel speaks of.
pub const MODEL: &'static str = "HP Dev One";

/// The remote operation that the panel has under way.
#[derive(Debug, Clone, Copy, PartialEq, Eq)]
pub enum Operation {
    DeleteData,
    DownloadData,
}

/// The language, region, purpose id and purpose version that a consent is
/// given or withdrawn for.
#[derive(Debug, PartialEq, Eq)]
pub struct PurposeKey {
    pub language: String,
    pub region: String,
    pub purpose_id: String,
    pub version: String,
}

impl Clone for PurposeKey {
    fn clone(&self) -> (res: Self)
        ensures
            res == *self,
    {
        PurposeKey {
            language: self.language.clone(),
            region: self.region.clone(),
            purpose_id: self.purpose_id.clone(),
            version: self.version.clone(),
        }
    }
}

#[derive(Debug, PartialEq, Eq)]
pub enum Message {
    Delete,
    DeleteDialog,
    DeleteComplete(bool),
    Download,
    DownloadComplete(bool),
    DownloadProgress(Progress),
    OpenDataDir,
    OpenSupportPanel,
    PurposeAndOpt(PurposeAndOpt),
    /// The switch was flipped; it carries the switch's new state.
    Toggle(bool),
    ToggleSensitive,
    TryAgain,
}

/// Work that runs in the background and reports back with a message.
#[derive(Debug, PartialEq, Eq)]
pub enum Job {
    /// Delete the data held remotely and stop collecting.
    Delete,
    /// Download the data held remotely.
    Download,
    /// Give or withdraw consent to the collection for a purpose.
    Toggle { purpose: PurposeKey, enable: bool },
}

/// What the caller does to the widgets and the outside world.
#[derive(Debug, PartialEq, Eq)]
pub enum Action {
    SetToggleSensitive(bool),
    /// Set the switch without its change being reported back as a `Toggle`.
    SetToggleActiveQuietly(bool),
    SetDeleteSensitive(bool),
    SetDownloadSensitive(bool),
    /// Run the job in the background.
    Start(Job),
    /// Let the dialog show this variant.
    UpdateDialog(Variant),
    ShowDialog,
    SetProgress(Progress),
    /// Show the progress bar in place of the download label.
    ShowProgress,
    /// Show the download label in place of the progress bar.
    ShowDownloadLabel,
    OpenDataDir,
    OpenSupportPanel,
    SetPurposeStatement(String),
}

/// The panel's own state.
#[derive(Debug, PartialEq, Eq)]
pub struct Model {
    pub operation: Option<Operation>,
    pub purpose: PurposeKey,
    pub purpose_statement: String,
}

/// What the dialog shows when a job fails.
#[derive(Debug, Clone, Copy, PartialEq, Eq)]
pub enum ErrorReport {
    NoDataFound,
    NotEnrolled,
    DeviceIdInvalid,
    NoInternet,
    /// Any other failure, shown with the error itself.
    Failed,
}

/// The job that starts an operation again.
pub open spec fn restart(operation: Option<Operation>) -> Seq<Action> {
    match operation {
        Some(Operation::DeleteData) => seq![Action::Start(Job::Delete)],
        Some(Operation::DownloadData) => seq![Action::Start(Job::Download)],
        None => seq![],
    }
}

/// The purpose key of a purpose received for a locale.
pub open spec fn key_of(p: PurposeAndOpt) -> PurposeKey {
    PurposeKey {
        language: p.language,
        region: p.region,
        purpose_id: p.purpose.purpose_id,
        version: p.purpose.version,
    }
}

/// The panel's answer to a message: its next state and the actions to perform.
pub open spec fn step(model: Model, message: Message) -> (Model, Seq<Action>) {
    match message {
        Message::Toggle(enable) => (
            model,
            seq![
                Action::SetToggleSensitive(false),
                Action::Start(Job::Toggle { purpose: model.purpose, enable }),
            ],
        ),
        Message::ToggleSensitive => (model, seq![Action::SetToggleSensitive(true)]),
        Message::Delete => (
            model,
            seq![Action::SetDeleteSensitive(false), Action::Start(Job::Delete)],
        ),
        Message::DeleteComplete(success) => (
            Model { operation: None, ..model },
            seq![Action::SetDeleteSensitive(true)] + if success {
                seq![Action::SetToggleActiveQuietly(false)]
            } else {
                seq![]
            },
        ),
        Message::DeleteDialog => (
            Model { operation: Some(Operation::DeleteData), ..model },
            seq![Action::UpdateDialog(Variant::DeleteData), Action::ShowDialog],
        ),
        Message::Download => (
            Model { operation: Some(Operation::DownloadData), ..model },
            seq![Action::SetDownloadSensitive(false), Action::Start(Job::Download)],
        ),
        Message::DownloadProgress(progress) => (
            model,
            seq![Action::SetProgress(progress), Action::ShowProgress],
        ),
        Message::DownloadComplete(success) => (
            Model { operation: None, ..model },
            seq![Action::SetDownloadSensitive(true)] + if success {
                seq![Action::UpdateDialog(Variant::DataDownloaded)]
            } else {
                seq![]
            } + seq![Action::ShowDownloadLabel],
        ),
        Message::OpenDataDir => (model, seq![Action::OpenDataDir]),
        Message::OpenSupportPanel => (model, seq![Action::OpenSupportPanel]),
        Message::PurposeAndOpt(p) => (
            Model { purpose: key_of(p), purpose_statement: p.purpose.statement, ..model },
            seq![
                Action::SetToggleActiveQuietly(p.opted),
                Action::SetToggleSensitive(true),
                Action::SetPurposeStatement(p.purpose.statement),
            ],
        ),
        Message::TryAgain => (model, restart(model.operation)),
    }
}

/// The message with which a job reports back.
pub open spec fn completion_of(job: Job, succeeded: bool) -> Message {
    match job {
        Job::Delete => Message::DeleteComplete(succeeded),
        Job::Download => Message::DownloadComplete(succeeded),
        Job::Toggle { .. } => Message::ToggleSensitive,
    }
}

/// Whether `endpoint` names the service endpoint `name`.
pub open spec fn is_endpoint(endpoint: String, name: &str) -> bool {
    endpoint@ == name@
}

/// What the dialog shows for an error of the vendor service.
pub open spec fn report_of(err: ClientError) -> ErrorReport {
    match err {
        ClientError::Api { code, endpoint } => {
            if (code == 404 && is_endpoint(endpoint, "DataDownload")) || is_endpoint(
                endpoint,
                "DataDelete",
            ) {
                ErrorReport::NoDataFound
            } else if code == 404 && is_endpoint(endpoint, "Token") {
                ErrorReport::NotEnrolled
            } else if code == 400 && is_endpoint(endpoint, "Token") {
                ErrorReport::DeviceIdInvalid
            } else {
                ErrorReport::Failed
            }
        },
        ClientError::Reqwest => ErrorReport::NoInternet,
        ClientError::Other => ErrorReport::Failed,
    }
}

/// The action that sets how sensitive the control of a job is.
pub open spec fn control_of(job: Job, sensitive: bool) -> Action {
    match job {
        Job::Toggle { .. } => Action::SetToggleSensitive(sensitive),
        Job::Delete => Action::SetDeleteSensitive(sensitive),
        Job::Download => Action::SetDownloadSensitive(sensitive),
    }
}

/// Confirming the deletion in the dialog makes "try again" delete the data.
pub proof fn lemma_try_again_after_delete_dialog(model: Model)
    ensures
        step(step(model, Message::DeleteDialog).0, Message::TryAgain).1 == seq![
            Action::Start(Job::Delete),
        ],
{
}

/// While a download is under way, "try again" downloads again.
pub proof fn lemma_try_again_after_download(model: Model)
    ensures
        step(step(model, Message::Download).0, Message::TryAgain).1 == seq![
            Action::Start(Job::Download),
        ],
{
}

/// Once a deletion or a download has reported back, whether it succeeded or
/// not, "try again" has nothing left to repeat.
pub proof fn lemma_report_ends_operation(model: Model, job: Job, succeeded: bool)
    requires
        job is Delete || job is Download,
    ensures
        step(model, completion_of(job, succeeded)).0.operation is None,
        step(step(model, completion_of(job, succeeded)).0, Message::TryAgain).1 == Seq::<
            Action,
        >::empty(),
{
}

/// Starting a job from its control disables that control, and the job's
/// report, whatever the state the panel is in by then and whether the job
/// succeeded, makes it sensitive again.
pub proof fn lemma_report_reenables_control(
    model: Model,
    later: Model,
    message: Message,
    succeeded: bool,
)
    requires
        message is Toggle || message is Delete || message is Download,
    ensures
        step(model, message).1.len() == 2,
        step(model, message).1[1] matches Action::Start(job) && step(model, message).1[0]
            == control_of(job, false) && step(later, completion_of(job, succeeded)).1.contains(
            control_of(job, true),
        ),
{
    let actions = step(model, message).1;
    if let Action::Start(job) = actions[1] {
        let report = step(later, completion_of(job, succeeded)).1;
        assert(report[0] == control_of(job, true));
    }
}

/// Deleting the data turns the switch off, quietly, and starts no job: the
/// switch follows the service, which stops collecting when it deletes.
pub proof fn lemma_deletion_turns_switch_off(model: Model)
    ensures
        step(model, Message::DeleteComplete(true)).1.contains(
            Action::SetToggleActiveQuietly(false),
        ),
        forall|i: int|
            0 <= i < step(model, Message::DeleteComplete(true)).1.len() ==> !(#[trigger] step(
                model,
                Message::DeleteComplete(true),
            ).1[i] is Start),
{
    assert(step(model, Message::DeleteComplete(true)).1[1] == Action::SetToggleActiveQuietly(
        false,
    ));
}

/// The consent that the switch gives or withdraws is for the purpose that the
/// service named last.
pub proof fn lemma_toggle_uses_received_purpose(model: Model, p: PurposeAndOpt, enable: bool)
    ensures
        step(step(model, Message::PurposeAndOpt(p)).0, Message::Toggle(enable)).1[1] == Action::Start(
            Job::Toggle {
                purpose: PurposeKey {
                    language: p.language,
                    region: p.region,
                    purpose_id: p.purpose.purpose_id,
                    version: p.purpose.version,
                },
                enable,
            },
        ),
{
}

/// Only the service's answer changes the purpose and its statement.
pub proof fn lemma_purpose_kept(model: Model, message: Message)
    requires
        !(message is PurposeAndOpt),
    ensures
        step(model, message).0.purpose == model.purpose,
        step(model, message).0.purpose_statement == model.purpose_statement,
{
}

/// The panel shows the progress it is told, on the progress bar, and its
/// state does not change.
pub proof fn lemma_progress_shown(model: Model, progress: Progress)
    ensures
        step(model, Message::DownloadProgress(progress)) == (
            model,
            seq![Action::SetProgress(progress), Action::ShowProgress],
        ),
{
}

/// Flipping the switch disables it and gives or withdraws consent, as the
/// switch now says, for the panel's purpose; the state does not change.
pub proof fn lemma_toggle_carries_state(model: Model, enable: bool)
    ensures
        step(model, Message::Toggle(enable)).0 == model,
        step(model, Message::Toggle(enable)).1 == seq![
            Action::SetToggleSensitive(false),
            Action::Start(Job::Toggle { purpose: model.purpose, enable }),
        ],
{
}

/// The service's answer sets the switch to whether the user opted in, without
/// that being taken for a flip, makes it usable, and shows and keeps the
/// purpose's statement; the operation under way stays.
pub proof fn lemma_answer_applied(model: Model, p: PurposeAndOpt)
    ensures
        step(model, Message::PurposeAndOpt(p)).1 == seq![
            Action::SetToggleActiveQuietly(p.opted),
            Action::SetToggleSensitive(true),
            Action::SetPurposeStatement(p.purpose.statement),
        ],
        step(model, Message::PurposeAndOpt(p)).0.purpose_statement == p.purpose.statement,
        step(model, Message::PurposeAndOpt(p)).0.operation == model.operation,
{
}

/// A finished download announces the downloaded data exactly when it
/// succeeded; a finished deletion turns the switch off exactly when it
/// succeeded. Either way the operation ends and its button is usable again.
pub proof fn lemma_report_follows_success(model: Model, succeeded: bool)
    ensures
        step(model, Message::DownloadComplete(succeeded)).1.contains(
            Action::UpdateDialog(Variant::DataDownloaded),
        ) <==> succeeded,
        step(model, Message::DownloadComplete(succeeded)).1[0] == Action::SetDownloadSensitive(
            true,
        ),
        step(model, Message::DownloadComplete(succeeded)).1.last() == Action::ShowDownloadLabel,
        step(model, Message::DeleteComplete(succeeded)).1.contains(
            Action::SetToggleActiveQuietly(false),
        ) <==> succeeded,
        step(model, Message::DeleteComplete(succeeded)).1[0] == Action::SetDeleteSensitive(true),
        step(model, Message::DownloadComplete(succeeded)).0.operation is None,
        step(model, Message::DeleteComplete(succeeded)).0.operation is None,
{
    let d = step(model, Message::DownloadComplete(succeeded)).1;
    if succeeded {
        assert(d[1] == Action::UpdateDialog(Variant::DataDownloaded));
        assert(step(model, Message::DeleteComplete(succeeded)).1[1]
            == Action::SetToggleActiveQuietly(false));
    } else {
        assert(d =~= seq![Action::SetDownloadSensitive(true), Action::ShowDownloadLabel]);
    }
}

/// Only confirming a deletion, starting a download and the report of a
/// deletion or download change the operation under way.
pub proof fn lemma_operation_kept(model: Model, message: Message)
    requires
        !(message is DeleteDialog),
        !(message is Download),
        !(message is DeleteComplete),
        !(message is DownloadComplete),
    ensures
        step(model, message).0.operation == model.operation,
{
}

/// What each report says of the error: an invalid device id and a missing
/// enrollment come only from the Token endpoint, with status 400 and 404;
/// missing data only from the data endpoints; no internet only from an
/// unreachable service; and an error of any other endpoint is shown as it is.
pub proof fn lemma_report_sources(code: u16, endpoint: String)
    ensures
        report_of(ClientError::Api { code, endpoint }) == ErrorReport::DeviceIdInvalid ==> code
            == 400 && endpoint@ == "Token"@,
        report_of(ClientError::Api { code, endpoint }) == ErrorReport::NotEnrolled ==> code == 404
            && endpoint@ == "Token"@,
        report_of(ClientError::Api { code, endpoint }) == ErrorReport::NoDataFound ==> (code == 404
            && endpoint@ == "DataDownload"@) || endpoint@ == "DataDelete"@,
        report_of(ClientError::Api { code, endpoint }) != ErrorReport::NoInternet,
        report_of(ClientError::Reqwest) == ErrorReport::NoInternet,
        report_of(ClientError::Other) == ErrorReport::Failed,
        (endpoint@ != "DataDownload"@ && endpoint@ != "DataDelete"@ && endpoint@ != "Token"@)
            ==> report_of(ClientError::Api { code, endpoint }) == ErrorReport::Failed,
{
}

/// Each known answer of the service leads to its own report: missing data
/// for the data endpoints, and for the Token endpoint a missing enrollment
/// (404) or an invalid device id (400).
pub proof fn lemma_report_of_known_errors(code: u16, endpoint: String)
    ensures
        endpoint@ == "DataDelete"@ ==> report_of(ClientError::Api { code, endpoint })
            == ErrorReport::NoDataFound,
        (code == 404 && endpoint@ == "DataDownload"@) ==> report_of(
            ClientError::Api { code, endpoint },
        ) == ErrorReport::NoDataFound,
        (code == 404 && endpoint@ == "Token"@) ==> report_of(ClientError::Api { code, endpoint })
            == ErrorReport::NotEnrolled,
        (code == 400 && endpoint@ == "Token"@) ==> report_of(ClientError::Api { code, endpoint })
            == ErrorReport::DeviceIdInvalid,
        (code != 404 && endpoint@ == "DataDownload"@) ==> report_of(
            ClientError::Api { code, endpoint },
        ) == ErrorReport::Failed,
        (code != 404 && code != 400 && endpoint@ == "Token"@) ==> report_of(
            ClientError::Api { code, endpoint },
        ) == ErrorReport::Failed,
{
    reveal_strlit("Token");
    reveal_strlit("DataDelete");
    reveal_strlit("DataDownload");
    assert("Token"@ != "DataDelete"@) by {
        assert("Token"@.len() != "DataDelete"@.len());
    }
    assert("Token"@ != "DataDownload"@) by {
        assert("Token"@.len() != "DataDownload"@.len());
    }
    assert("DataDownload"@ != "DataDelete"@) by {
        assert("DataDownload"@.len() != "DataDelete"@.len());
    }
}

/// Each control starts the job it names, after disabling itself; the delete
/// button first asks the delete question; the other requests go out as named
/// and change nothing.
pub proof fn lemma_controls_start_their_jobs(model: Model)
    ensures
        step(model, Message::Delete) == (
            model,
            seq![Action::SetDeleteSensitive(false), Action::Start(Job::Delete)],
        ),
        step(model, Message::Download).1 == seq![
            Action::SetDownloadSensitive(false),
            Action::Start(Job::Download),
        ],
        step(model, Message::Download).0.operation == Some(Operation::DownloadData),
        step(model, Message::DeleteDialog).1 == seq![
            Action::UpdateDialog(Variant::DeleteData),
            Action::ShowDialog,
        ],
        step(model, Message::DeleteDialog).0.operation == Some(Operation::DeleteData),
        step(model, Message::OpenDataDir) == (model, seq![Action::OpenDataDir]),
        step(model, Message::OpenSupportPanel) == (model, seq![Action::OpenSupportPanel]),
        step(model, Message::ToggleSensitive) == (model, seq![Action::SetToggleSensitive(true)]),
{
}

/// A job reports back whether it succeeded: a successful deletion turns the
/// switch off and a successful download announces its data, each exactly
/// when it succeeded; a consent change reports only that it is done.
pub proof fn lemma_job_reports_success(model: Model, succeeded: bool, purpose: PurposeKey, enable: bool)
    ensures
        step(model, completion_of(Job::Delete, succeeded)).1.contains(
            Action::SetToggleActiveQuietly(false),
        ) <==> succeeded,
        step(model, completion_of(Job::Download, succeeded)).1.contains(
            Action::UpdateDialog(Variant::DataDownloaded),
        ) <==> succeeded,
        completion_of(Job::Toggle { purpose, enable }, succeeded) == Message::ToggleSensitive,
{
    lemma_report_follows_success(model, succeeded);
}

fn endpoint_is(endpoint: &String, name: &str) -> (res: bool)
    ensures
        res == is_endpoint(*endpoint, name),
{
    *endpoint == String::from_str(name)
}

/// What the dialog shows when a job fails with `err`.
pub fn error_report(err: &ClientError) -> (report: ErrorReport)
    ensures
        report == report_of(*err),
{
    match err {
        ClientError::Api { code, endpoint } => {
            if (*code == 404 && endpoint_is(endpoint, "DataDownload")) || endpoint_is(
                endpoint,
                "DataDelete",
            ) {
                ErrorReport::NoDataFound
            } else if *code == 404 && endpoint_is(endpoint, "Token") {
                ErrorReport::NotEnrolled
            } else if *code == 400 && endpoint_is(endpoint, "Token") {
                ErrorReport::DeviceIdInvalid
            } else {
                ErrorReport::Failed
            }
        },
        ClientError::Reqwest => ErrorReport::NoInternet,
        ClientError::Other => ErrorReport::Failed,
    }
}

/// How a row of the panel's list gets the separator above it.
#[derive(Debug, Clone, Copy, PartialEq, Eq)]
pub enum HeaderChange {
    /// The first row has no separator.
    Remove,
    /// A later row without a header gets a separator.
    AddSeparator,
    /// A later row that has its header keeps it.
    Keep,
}

/// The change to a row's header, given whether a row comes before it and
/// whether it has a header already.
pub fn header_change(has_before: bool, has_header: bool) -> (change: HeaderChange)
    ensures
        change == (if !has_before {
            HeaderChange::Remove
        } else if !has_header {
            HeaderChange::AddSeparator
        } else {
            HeaderChange::Keep
        }),
{
    if !has_before {
        HeaderChange::Remove
    } else if !has_header {
        HeaderChange::AddSeparator
    } else {
        HeaderChange::Keep
    }
}

impl Job {
    /// The message with which this job reports back, given whether it succeeded.
    pub fn completion(&self, succeeded: bool) -> (message: Message)
        ensures
            message == completion_of(*self, succeeded),
    {
        match self {
            Job::Delete => Message::DeleteComplete(succeeded),
            Job::Download => Message::DownloadComplete(succeeded),
            Job::Toggle { .. } => Message::ToggleSensitive,
        }
    }
}

impl Model {
    /// The panel before the vendor service has answered: the purpose is the
    /// one chosen for the locale among the purposes shipped with the client.
    pub fn new(language: String, region: String, purpose: Purpose) -> (model: Model)
        ensures
            model.operation is None,
            model.purpose == (PurposeKey {
                language,
                region,
                purpose_id: purpose.purpose_id,
                version: purpose.version,
            }),
            model.purpose_statement == purpose.statement,
    {
        Model {
            operation: None,
            purpose: PurposeKey {
                language,
                region,
                purpose_id: purpose.purpose_id,
                version: purpose.version,
            },
            purpose_statement: purpose.statement,
        }
    }

    /// Handles one message and returns the actions that it asks for.
    pub fn update(&mut self, message: Message) -> (actions: Vec<Action>)
        ensures
            (*final(self), actions@) == step(*old(self), message),
    {
        match message {
            Message::Toggle(enable) => {
                let purpose = self.purpose.clone();
                vec![Action::SetToggleSensitive(false), Action::Start(Job::Toggle { purpose, enable })]
            },
            Message::ToggleSensitive => vec![Action::SetToggleSensitive(true)],
            Message::Delete => vec![Action::SetDeleteSensitive(false), Action::Start(Job::Delete)],
            Message::DeleteComplete(success) => {
                self.operation = None;
                let mut actions = vec![Action::SetDeleteSensitive(true)];
                if success {
                    actions.push(Action::SetToggleActiveQuietly(false));
                }
                actions
            },
            Message::DeleteDialog => {
                self.operation = Some(Operation::DeleteData);
                vec![Action::UpdateDialog(Variant::DeleteData), Action::ShowDialog]
            },
            Message::Download => {
                self.operation = Some(Operation::DownloadData);
                vec![Action::SetDownloadSensitive(false), Action::Start(Job::Download)]
            },
            Message::DownloadProgress(progress) => {
                vec![Action::SetProgress(progress), Action::ShowProgress]
            },
            Message::DownloadComplete(success) => {
                self.operation = None;
                let mut actions = vec![Action::SetDownloadSensitive(true)];
                if success {
                    actions.push(Action::UpdateDialog(Variant::DataDownloaded));
                }
                actions.push(Action::ShowDownloadLabel);
                actions
            },
            Message::OpenDataDir => vec![Action::OpenDataDir],
            Message::OpenSupportPanel => vec![Action::OpenSupportPanel],
            Message::PurposeAndOpt(p) => {
                let PurposeAndOpt { language, region, purpose, opted } = p;
                let Purpose { purpose_id, version, statement } = purpose;
                let shown = statement.clone();
                self.purpose = PurposeKey { language, region, purpose_id, version };
                self.purpose_statement = statement;
                vec![
                    Action::SetToggleActiveQuietly(opted),
                    Action::SetToggleSensitive(true),
                    Action::SetPurposeStatement(shown),
                ]
            },
            Message::TryAgain => match self.operation {
                Some(Operation::DeleteData) => vec![Action::Start(Job::Delete)],
                Some(Operation::DownloadData) => vec![Action::Start(Job::Download)],
                None => vec![],
            },
        }
    }
}

} // verus!
