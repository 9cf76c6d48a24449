use pop_analytics_panel::components::hp::eula::{tco_error, trust_args, TcoFailure, SHORTCUT_NAME};
use pop_analytics_panel::components::hp::initial_setup;
use pop_analytics_panel::components::hp::panel::PurposeKey;
use pop_analytics_panel::components::hp::{summary as hp_summary, Purpose, HP_PRIVACY_URL};
use pop_analytics_panel::components::summary;

#[test]
fn summary_answers() {
    let model = summary::Model::new(false);
    assert!(!model.show_toggle);
    assert_eq!(model.update(summary::Message::DisplaySample), None);
    assert_eq!(
        model.update(summary::Message::OpenWebpage("u")),
        Some(summary::Action::OpenWebpage("u"))
    );
    assert_eq!(
        model.update(summary::Message::Toggle(true)),
        Some(summary::Action::StartToggle(true))
    );
}

#[test]
fn hp_summary_answers() {
    let model = hp_summary::Model;
    assert_eq!(model.update(hp_summary::Message::DisplaySample), None);
    assert_eq!(
        model.update(hp_summary::Message::OpenWebpage(HP_PRIVACY_URL)),
        Some(hp_summary::Action::OpenWebpage(
            "https://www.hp.com/us-en/privacy/privacy-central.html"
        ))
    );
}

#[test]
fn initial_setup_consents() {
    let model = initial_setup::Model::new(
        "en".to_string(),
        "GB".to_string(),
        Purpose {
            purpose_id: "id".to_string(),
            version: "3".to_string(),
            statement: "text".to_string(),
        },
    );
    let purpose = PurposeKey {
        language: "en".to_string(),
        region: "GB".to_string(),
        purpose_id: "id".to_string(),
        version: "3".to_string(),
    };
    assert_eq!(model.purpose_statement, "text");
    assert_eq!(
        model.update(initial_setup::Message::Agree),
        Some(initial_setup::Action::Consent { purpose: purpose.clone(), agreed: true })
    );
    assert_eq!(
        model.update(initial_setup::Message::Decline),
        Some(initial_setup::Action::Consent { purpose, agreed: false })
    );
    assert_eq!(model.update(initial_setup::Message::DisplaySample), None);
    assert_eq!(
        model.update(initial_setup::Message::OpenWebpage("x")),
        Some(initial_setup::Action::OpenWebpage("x"))
    );
}

#[test]
fn tco_errors() {
    let path = "/home/u/Desktop/hp-tco-certified.desktop";
    assert_eq!(
        tco_error(TcoFailure::NoDesktopDir, path, "x"),
        "failed to get desktop directory"
    );
    assert_eq!(
        tco_error(TcoFailure::Open, path, "denied"),
        "failed to open /home/u/Desktop/hp-tco-certified.desktop: denied"
    );
    assert_eq!(
        tco_error(TcoFailure::Write, path, "full"),
        "failed to write /home/u/Desktop/hp-tco-certified.desktop: full"
    );
    assert_eq!(
        tco_error(TcoFailure::Trust, path, "exit status: 1"),
        "failed to set /home/u/Desktop/hp-tco-certified.desktop as trusted: exit status: 1"
    );
    assert_eq!(SHORTCUT_NAME, "hp-tco-certified.desktop");
}

#[test]
fn trust_command() {
    assert_eq!(
        trust_args("/d/x.desktop"),
        vec!["set", "/d/x.desktop", "metadata::trusted", "true"]
    );
}
