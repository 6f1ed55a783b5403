use dashcmafsink::registry::StreamRegistry;
use dashcmafsink::stream::DashCmafSinkStream;

fn names(r: &StreamRegistry) -> Vec<String> {
    (0..r.len()).map(|i| r.pad_name_at(i).to_string()).collect()
}

#[test]
fn new_registry_is_empty() {
    let r = StreamRegistry::new();
    assert_eq!(r.len(), 0);
    assert_eq!(r.position("sink_0"), None);
    assert!(r.get("sink_0").is_none());
}

#[test]
fn streams_keep_the_order_of_their_names() {
    let mut r = StreamRegistry::new();
    r.insert("b".to_string(), DashCmafSinkStream::default());
    r.insert("a".to_string(), DashCmafSinkStream::default());
    r.insert("c".to_string(), DashCmafSinkStream::default());
    assert_eq!(names(&r), vec!["b", "a", "c"]);
    assert_eq!(r.position("a"), Some(1));
    assert_eq!(r.position("d"), None);
}

#[test]
fn a_name_is_free_again_after_its_stream_is_removed() {
    let mut r = StreamRegistry::new();
    r.insert("a".to_string(), DashCmafSinkStream::default());
    r.insert("b".to_string(), DashCmafSinkStream::default());
    r.record_segment_at(0, 10, 1000);
    assert_eq!(r.get("a").unwrap().segment_idx(), 1);
    r.remove("a");
    assert_eq!(r.position("a"), None);
    r.insert("a".to_string(), DashCmafSinkStream::default());
    assert_eq!(names(&r), vec!["b", "a"]);
    assert_eq!(r.get("a").unwrap().segment_idx(), 0);
}

#[test]
fn removing_takes_out_one_name() {
    let mut r = StreamRegistry::new();
    r.insert("a".to_string(), DashCmafSinkStream::default());
    r.insert("b".to_string(), DashCmafSinkStream::default());
    r.insert("c".to_string(), DashCmafSinkStream::default());
    r.remove("b");
    assert_eq!(names(&r), vec!["a", "c"]);
    r.remove("b");
    assert_eq!(names(&r), vec!["a", "c"]);
    r.remove("a");
    r.remove("c");
    assert_eq!(r.len(), 0);
}

#[test]
fn recording_changes_one_stream_only() {
    let mut r = StreamRegistry::new();
    r.insert("a".to_string(), DashCmafSinkStream::default());
    r.insert("b".to_string(), DashCmafSinkStream::default());
    assert!(r.can_record_at(1, 10, 500));
    r.record_segment_at(1, 10, 500);
    assert_eq!(r.stream_at(0).segment_idx(), 0);
    assert_eq!(r.stream_at(0).bandwidth(), 0);
    assert_eq!(r.stream_at(1).segment_idx(), 1);
    assert_eq!(r.stream_at(1).bandwidth(), 400);
    assert_eq!(names(&r), vec!["a", "b"]);
}
