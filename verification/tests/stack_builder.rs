use rusty_cdk::stack::StackBuilder;

#[test]
fn test_check_for_duplicate_ids() {
    let duplicates = StackBuilder::check_for_duplicate_ids(vec![
        "bucket".to_string(),
        "bucket".to_string(),
        "topic".to_string(),
        "queue".to_string(),
        "bucket".to_string(),
        "table".to_string(),
        "topic".to_string(),
    ]);

    assert_eq!(duplicates, vec!["bucket", "topic"])
}
