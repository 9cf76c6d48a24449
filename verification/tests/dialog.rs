use pop_analytics_panel::components::bold_markup;
use pop_analytics_panel::components::dialog::{content_for, Action, Content, Message, Model, Variant};
use pop_analytics_panel::components::panel;

#[test]
fn new_dialog_is_open_and_unasked() {
    let model = Model::new();
    assert!(model.has_dialog);
    assert_eq!(model.variant, None);
}

#[test]
fn update_configures_and_shows() {
    let mut model = Model::new();
    let actions = model.update(Message::Update(Variant::NoInternet));
    assert_eq!(
        actions,
        vec![
            Action::Configure(Content {
                header: "no-internet-header",
                description: "no-internet-description",
                close: "close",
                accept: Some("try-again"),
            }),
            Action::Show,
        ]
    );
    assert_eq!(model.variant, Some(Variant::NoInternet));
}

#[test]
fn contents_of_every_variant() {
    assert_eq!(
        content_for(Variant::Deleted),
        Content {
            header: "data-deleted-header",
            description: "data-deleted-description",
            close: "close",
            accept: None,
        }
    );
    assert_eq!(
        content_for(Variant::DataDownloaded),
        Content {
            header: "data-downloaded-header",
            description: "data-downloaded-description",
            close: "cancel",
            accept: Some("open-folder"),
        }
    );
    assert_eq!(
        content_for(Variant::DeleteData),
        Content {
            header: "delete-data-header",
            description: "delete-data-description",
            close: "cancel",
            accept: Some("delete"),
        }
    );
    assert_eq!(
        content_for(Variant::NoDataFound),
        Content {
            header: "no-data-header",
            description: "no-data-description",
            close: "close",
            accept: None,
        }
    );
}

#[test]
fn accept_sends_the_request_of_the_question() {
    let cases = [
        (Variant::DeleteData, Some(panel::Message::Delete)),
        (Variant::NoInternet, Some(panel::Message::TryAgain)),
        (Variant::DataDownloaded, Some(panel::Message::OpenDataDir)),
        (Variant::Deleted, None),
        (Variant::NoDataFound, None),
    ];
    for (variant, request) in cases {
        let mut model = Model::new();
        model.update(Message::Update(variant));
        let actions = model.update(Message::Accept);
        let mut expected = Vec::new();
        if let Some(request) = request {
            expected.push(Action::Send(request));
        }
        expected.push(Action::Hide);
        assert_eq!(actions, expected);
    }
}

#[test]
fn accept_before_any_question_only_hides() {
    let mut model = Model::new();
    assert_eq!(model.update(Message::Accept), vec![Action::Hide]);
}

#[test]
fn closed_dialog_stays_closed() {
    let mut model = Model::new();
    assert_eq!(model.update(Message::Close), vec![Action::Close]);
    assert!(!model.has_dialog);
    assert_eq!(model.update(Message::Update(Variant::DeleteData)), vec![]);
    assert_eq!(model.update(Message::Hide), vec![]);
    assert_eq!(model.update(Message::Close), vec![]);
}

#[test]
fn closed_dialog_still_passes_on_an_accept() {
    let mut model = Model::new();
    model.update(Message::Update(Variant::DeleteData));
    model.update(Message::Close);
    assert_eq!(
        model.update(Message::Accept),
        vec![Action::Send(panel::Message::Delete)]
    );
}

#[test]
fn hidden_dialog_shows_again() {
    let mut model = Model::new();
    model.update(Message::Update(Variant::Deleted));
    assert_eq!(model.update(Message::Hide), vec![Action::Hide]);
    assert!(model.has_dialog);
    let actions = model.update(Message::Update(Variant::NoDataFound));
    assert_eq!(
        actions,
        vec![Action::Configure(content_for(Variant::NoDataFound)), Action::Show]
    );
}

#[test]
fn header_is_bold() {
    assert_eq!(bold_markup("Data deleted"), "<b>Data deleted</b>");
    assert_eq!(bold_markup(""), "<b></b>");
}
