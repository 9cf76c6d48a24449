use pop_analytics_panel::components::dialog::Variant;
use pop_analytics_panel::components::hp::panel::{
    error_report, header_change, Action, ErrorReport, HeaderChange, Job, Message, Model, Operation,
    PurposeKey, MODEL,
};
use pop_analytics_panel::components::hp::{ClientError, Purpose, PurposeAndOpt};
use pop_analytics_panel::components::Progress;

fn purpose(id: &str, version: &str, statement: &str) -> Purpose {
    Purpose {
        purpose_id: id.to_string(),
        version: version.to_string(),
        statement: statement.to_string(),
    }
}

fn key(language: &str, region: &str, id: &str, version: &str) -> PurposeKey {
    PurposeKey {
        language: language.to_string(),
        region: region.to_string(),
        purpose_id: id.to_string(),
        version: version.to_string(),
    }
}

fn panel() -> Model {
    Model::new("en".to_string(), "US".to_string(), purpose("p1", "1.0", "We collect"))
}

#[test]
fn new_panel_uses_the_shipped_purpose() {
    let model = panel();
    assert_eq!(model.operation, None);
    assert_eq!(model.purpose, key("en", "US", "p1", "1.0"));
    assert_eq!(model.purpose_statement, "We collect");
    assert_eq!(MODEL, "HP Dev One");
}

#[test]
fn toggle_disables_switch_and_starts_consent() {
    let mut model = panel();
    assert_eq!(
        model.update(Message::Toggle(true)),
        vec![
            Action::SetToggleSensitive(false),
            Action::Start(Job::Toggle { purpose: key("en", "US", "p1", "1.0"), enable: true }),
        ]
    );
    assert_eq!(model.update(Message::ToggleSensitive), vec![Action::SetToggleSensitive(true)]);
}

#[test]
fn toggle_uses_received_purpose() {
    let mut model = panel();
    let answer = PurposeAndOpt::from_response(
        "de".to_string(),
        "DE".to_string(),
        purpose("p2", "2.1", "Wir sammeln"),
        Some(true),
    );
    assert_eq!(
        model.update(Message::PurposeAndOpt(answer)),
        vec![
            Action::SetToggleActiveQuietly(true),
            Action::SetToggleSensitive(true),
            Action::SetPurposeStatement("Wir sammeln".to_string()),
        ]
    );
    assert_eq!(model.purpose_statement, "Wir sammeln");
    let actions = model.update(Message::Toggle(false));
    assert_eq!(
        actions[1],
        Action::Start(Job::Toggle { purpose: key("de", "DE", "p2", "2.1"), enable: false })
    );
}

#[test]
fn opted_out_without_consent() {
    let answer = PurposeAndOpt::from_response(
        "en".to_string(),
        "US".to_string(),
        purpose("p", "1", "s"),
        None,
    );
    assert!(!answer.opted);
    let declined = PurposeAndOpt::from_response(
        "en".to_string(),
        "US".to_string(),
        purpose("p", "1", "s"),
        Some(false),
    );
    assert!(!declined.opted);
    let mut model = panel();
    assert_eq!(model.update(Message::PurposeAndOpt(answer))[0], Action::SetToggleActiveQuietly(false));
}

#[test]
fn delete_dialog_then_try_again_deletes() {
    let mut model = panel();
    assert_eq!(
        model.update(Message::DeleteDialog),
        vec![Action::UpdateDialog(Variant::DeleteData), Action::ShowDialog]
    );
    assert_eq!(model.operation, Some(Operation::DeleteData));
    assert_eq!(model.update(Message::TryAgain), vec![Action::Start(Job::Delete)]);
}

#[test]
fn delete_disables_button_until_report() {
    let mut model = panel();
    model.update(Message::DeleteDialog);
    assert_eq!(
        model.update(Message::Delete),
        vec![Action::SetDeleteSensitive(false), Action::Start(Job::Delete)]
    );
    assert_eq!(model.update(Message::DeleteComplete(false)), vec![Action::SetDeleteSensitive(true)]);
    assert_eq!(model.operation, None);
    assert_eq!(model.update(Message::TryAgain), vec![]);
}

#[test]
fn deletion_turns_switch_off() {
    let mut model = panel();
    model.update(Message::DeleteDialog);
    assert_eq!(
        model.update(Message::DeleteComplete(true)),
        vec![Action::SetDeleteSensitive(true), Action::SetToggleActiveQuietly(false)]
    );
}

#[test]
fn download_round() {
    let mut model = panel();
    assert_eq!(
        model.update(Message::Download),
        vec![Action::SetDownloadSensitive(false), Action::Start(Job::Download)]
    );
    assert_eq!(model.update(Message::TryAgain), vec![Action::Start(Job::Download)]);
    assert_eq!(
        model.update(Message::DownloadProgress(Progress::Started)),
        vec![Action::SetProgress(Progress::Started), Action::ShowProgress]
    );
    assert_eq!(
        model.update(Message::DownloadComplete(true)),
        vec![
            Action::SetDownloadSensitive(true),
            Action::UpdateDialog(Variant::DataDownloaded),
            Action::ShowDownloadLabel,
        ]
    );
    assert_eq!(model.update(Message::TryAgain), vec![]);
}

#[test]
fn failed_download_shows_no_dialog() {
    let mut model = panel();
    model.update(Message::Download);
    assert_eq!(
        model.update(Message::DownloadComplete(false)),
        vec![Action::SetDownloadSensitive(true), Action::ShowDownloadLabel]
    );
}

#[test]
fn plain_requests() {
    let mut model = panel();
    assert_eq!(model.update(Message::OpenDataDir), vec![Action::OpenDataDir]);
    assert_eq!(model.update(Message::OpenSupportPanel), vec![Action::OpenSupportPanel]);
    assert_eq!(model.purpose, key("en", "US", "p1", "1.0"));
}

#[test]
fn jobs_report_back() {
    assert_eq!(Job::Delete.completion(true), Message::DeleteComplete(true));
    assert_eq!(Job::Download.completion(false), Message::DownloadComplete(false));
    let toggle = Job::Toggle { purpose: key("en", "US", "p", "1"), enable: true };
    assert_eq!(toggle.completion(false), Message::ToggleSensitive);
}

#[test]
fn report_reenables_control() {
    let mut model = panel();
    let actions = model.update(Message::Download);
    if let Action::Start(job) = &actions[1] {
        let report = model.update(job.completion(false));
        assert!(report.contains(&Action::SetDownloadSensitive(true)));
    } else {
        panic!("download started no job");
    }
}

fn api(code: u16, endpoint: &str) -> ClientError {
    ClientError::Api { code, endpoint: endpoint.to_string() }
}

#[test]
fn error_reports() {
    assert_eq!(error_report(&api(404, "DataDownload")), ErrorReport::NoDataFound);
    assert_eq!(error_report(&api(500, "DataDownload")), ErrorReport::Failed);
    assert_eq!(error_report(&api(404, "DataDelete")), ErrorReport::NoDataFound);
    assert_eq!(error_report(&api(500, "DataDelete")), ErrorReport::NoDataFound);
    assert_eq!(error_report(&api(404, "Token")), ErrorReport::NotEnrolled);
    assert_eq!(error_report(&api(400, "Token")), ErrorReport::DeviceIdInvalid);
    assert_eq!(error_report(&api(401, "Token")), ErrorReport::Failed);
    assert_eq!(error_report(&api(404, "Purposes")), ErrorReport::Failed);
    assert_eq!(error_report(&ClientError::Reqwest), ErrorReport::NoInternet);
    assert_eq!(error_report(&ClientError::Other), ErrorReport::Failed);
}

#[test]
fn list_headers() {
    assert_eq!(header_change(false, false), HeaderChange::Remove);
    assert_eq!(header_change(false, true), HeaderChange::Remove);
    assert_eq!(header_change(true, false), HeaderChange::AddSeparator);
    assert_eq!(header_change(true, true), HeaderChange::Keep);
}

#[test]
fn purposes_clone_equal() {
    let p = purpose("a", "b", "c");
    assert_eq!(p.clone(), p);
    let k = key("a", "b", "c", "d");
    assert_eq!(k.clone(), k);
}
