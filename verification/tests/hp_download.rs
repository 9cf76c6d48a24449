use std::io::Write;

use flate2::write::GzEncoder;
use flate2::Compression;
use pop_analytics_panel::components::hp::{export_download, ExportError, ProgressCounter, Status};
use pop_analytics_panel::components::Progress;

fn gzip(data: &[u8]) -> Vec<u8> {
    let mut encoder = GzEncoder::new(Vec::new(), Compression::default());
    encoder.write_all(data).unwrap();
    encoder.finish().unwrap()
}

#[test]
fn export_pretty_prints() {
    let compressed = gzip(br#"{"a":[true,null],"b":1}"#);
    let exported = export_download(&compressed).unwrap();
    assert_eq!(
        String::from_utf8(exported).unwrap(),
        "{\n  \"a\": [\n    true,\n    null\n  ],\n  \"b\": 1\n}"
    );
}

#[test]
fn export_changes_what_it_is_given() {
    let compressed = gzip(b"[1,2]");
    let exported = export_download(&compressed).unwrap();
    assert_ne!(exported, compressed);
    assert_eq!(exported, b"[\n  1,\n  2\n]".to_vec());
}

#[test]
fn export_rejects_no_gzip() {
    match export_download(b"[1,2]") {
        Err(ExportError::Decompress(_)) => (),
        other => panic!("unexpected: {:?}", other),
    }
}

#[test]
fn export_rejects_no_json() {
    match export_download(&gzip(b"{not json")) {
        Err(ExportError::Json(_)) => (),
        other => panic!("unexpected: {:?}", other),
    }
}

#[test]
fn counter_adds_up_reads() {
    let mut counter = ProgressCounter::new(100);
    assert_eq!(counter.read, 0);
    assert_eq!(counter.record(30), Progress::Read { read: 30, total: 100 });
    assert_eq!(counter.record(0), Progress::Read { read: 30, total: 100 });
    assert_eq!(counter.record(70), Progress::Read { read: 100, total: 100 });
    assert_eq!(counter.total, 100);
}

#[test]
fn statuses_differ() {
    assert_ne!(Status::Success, Status::Failed);
}
