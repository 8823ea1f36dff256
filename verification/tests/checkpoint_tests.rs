use mmx_core::checkpoint::{checkpoint_content, checkpoint_plan, checkpoint_plan_now};

#[test]
fn completion_fields_are_appended_to_the_object() {
    let out = checkpoint_content("{\"job\":\"x\"}", Some("2024-01-02T03:04:05Z"), Some(42)).unwrap();
    assert_eq!(
        out,
        "{\"job\":\"x\",\"completed_at\":\"2024-01-02T03:04:05Z\",\"output_size\":42}"
    );
}

#[test]
fn empty_object_gets_no_leading_comma() {
    let out = checkpoint_content("{}", Some("t"), None).unwrap();
    assert_eq!(out, "{\"completed_at\":\"t\",\"output_size\":null}");
}

#[test]
fn whitespace_only_object_counts_as_empty() {
    let out = checkpoint_content("{   \n }", Some("t"), Some(1)).unwrap();
    assert_eq!(out, "{   \n \"completed_at\":\"t\",\"output_size\":1}");
}

#[test]
fn non_object_documents_are_skipped() {
    assert!(checkpoint_content("[1,2,3]", Some("t"), None).is_none());
    assert!(checkpoint_content("42", Some("t"), None).is_none());
}

#[test]
fn unparseable_documents_are_skipped() {
    assert!(checkpoint_content("not json at all", Some("t"), None).is_none());
    assert!(checkpoint_content("", Some("t"), None).is_none());
    assert!(checkpoint_content("{\"unterminated\":", Some("t"), None).is_none());
}

#[test]
fn unsafe_timestamps_are_refused() {
    assert!(checkpoint_content("{}", Some("odd\"quote"), Some(1)).is_none());
    assert!(checkpoint_content("{}", Some("back\\slash"), Some(1)).is_none());
}

#[test]
fn plan_writes_only_to_the_sibling_temporary_path() {
    let plan = checkpoint_plan("out/job.json", "{\"a\":1}", Some("ts"), Some(7)).unwrap();
    assert_eq!(plan.final_path, "out/job.json");
    assert_eq!(plan.tmp_path, "out/job.json.tmp");
    assert_ne!(plan.tmp_path, plan.final_path);
    assert_eq!(plan.content, "{\"a\":1,\"completed_at\":\"ts\",\"output_size\":7}");
}

#[test]
fn plan_now_stamps_a_parseable_manifest() {
    let plan = checkpoint_plan_now("m.json", "{\"a\":1}", Some(3)).unwrap();
    assert!(plan.content.contains("\"completed_at\":\""));
    assert!(plan.content.contains("\"output_size\":3"));
    assert_eq!(plan.tmp_path, "m.json.tmp");
    assert!(checkpoint_plan_now("m.json", "[]", Some(3)).is_none());
}

#[test]
fn nested_braces_splice_before_the_last_one() {
    let out = checkpoint_content("{\"inner\":{\"x\":1}}", Some("t"), None).unwrap();
    assert_eq!(out, "{\"inner\":{\"x\":1},\"completed_at\":\"t\",\"output_size\":null}");
}

#[test]
fn error_path_omits_the_completion_timestamp() {
    let out = checkpoint_content("{\"a\":1}", None, Some(9)).unwrap();
    assert_eq!(out, "{\"a\":1,\"completed_at\":null,\"output_size\":9}");
}

#[test]
fn largest_output_size_renders_in_full() {
    let out = checkpoint_content("{}", Some("t"), Some(u64::MAX)).unwrap();
    assert_eq!(out, "{\"completed_at\":\"t\",\"output_size\":18446744073709551615}");
}
