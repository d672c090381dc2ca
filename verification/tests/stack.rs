use rusty_cdk::sns::TopicBuilder;
use rusty_cdk::sqs::QueueBuilder;
use rusty_cdk::stack::StackBuilder;

#[test]
fn should_do_nothing_for_empty_stack_and_empty_existing_ids() {
    let mut stack_builder = StackBuilder::new().build().ok().unwrap();
    let existing_ids: Vec<(String, String)> = Vec::new();

    stack_builder.update_resource_ids_for_existing_stack(existing_ids);

    assert_eq!(stack_builder.resource_count(), 0);
    assert_eq!(stack_builder.metadata_count(), 0);
    assert_eq!(stack_builder.replacement_count(), 0);
}

#[test]
fn should_do_nothing_for_empty_stack() {
    let mut stack_builder = StackBuilder::new().build().ok().unwrap();
    let mut existing_ids = Vec::new();
    existing_ids.push(("fun".to_string(), "abc123".to_string()));

    stack_builder.update_resource_ids_for_existing_stack(existing_ids);

    assert_eq!(stack_builder.resource_count(), 0);
    assert_eq!(stack_builder.metadata_count(), 0);
    assert_eq!(stack_builder.replacement_count(), 0);
}

#[test]
fn should_replace_topic_resource_id_with_the_existing_id() {
    let mut stack_builder = StackBuilder::new();
    TopicBuilder::new("topic").build(&mut stack_builder);
    let mut existing_ids = Vec::new();
    existing_ids.push(("topic".to_string(), "abc123".to_string()));
    let mut stack = stack_builder.build().ok().unwrap();

    stack.update_resource_ids_for_existing_stack(existing_ids);

    assert_eq!(stack.resource_count(), 1);
    assert_eq!(stack.replacement_count(), 1);
    assert_eq!(stack.metadata_count(), 1);
    assert_eq!(stack.metadata_for("topic").unwrap(), "abc123".to_string());
}

#[test]
fn should_replace_topic_resource_id_with_the_existing_id_keeping_new_queue_id() {
    let mut stack_builder = StackBuilder::new();
    TopicBuilder::new("topic").build(&mut stack_builder);
    QueueBuilder::new("queue").standard_queue().build(&mut stack_builder);
    let mut existing_ids = Vec::new();
    existing_ids.push(("topic".to_string(), "abc123".to_string()));
    let mut stack = stack_builder.build().ok().unwrap();

    stack.update_resource_ids_for_existing_stack(existing_ids);

    assert_eq!(stack.resource_count(), 2);
    assert_eq!(stack.replacement_count(), 1);
    assert_eq!(stack.metadata_count(), 2);
    assert_eq!(stack.metadata_for("topic").unwrap(), "abc123".to_string());
}

#[test]
fn replaced_ids_are_replaced_in_the_template_text() {
    let mut stack_builder = StackBuilder::new();
    let topic = TopicBuilder::new("topic").build(&mut stack_builder);
    let _ = topic;
    let mut stack = stack_builder.build().ok().unwrap();
    let original = stack.metadata_for("topic").unwrap();
    stack.update_resource_ids_for_existing_stack(vec![("topic".to_string(), "abc123".to_string())]);

    let template = format!("{{\"Resources\":{{\"{}\":{{}}}},\"Ref\":\"{}\"}}", original, original);
    let replaced = stack.replace_resource_ids(template);
    assert_eq!(replaced, "{\"Resources\":{\"abc123\":{}},\"Ref\":\"abc123\"}");
}

#[test]
fn unknown_existing_ids_change_nothing() {
    let mut stack_builder = StackBuilder::new();
    QueueBuilder::new("queue").standard_queue().build(&mut stack_builder);
    let mut stack = stack_builder.build().ok().unwrap();
    let before = stack.metadata_for("queue").unwrap();

    stack.update_resource_ids_for_existing_stack(vec![("other".to_string(), "abc123".to_string())]);

    assert_eq!(stack.replacement_count(), 0);
    assert_eq!(stack.metadata_for("queue").unwrap(), before);
}

#[test]
fn generated_queue_ids_start_with_the_kind() {
    let mut stack_builder = StackBuilder::new();
    QueueBuilder::new("queue").standard_queue().build(&mut stack_builder);
    let stack = stack_builder.build().ok().unwrap();
    let logical = stack.metadata_for("queue").unwrap();
    assert!(logical.starts_with("SqsQueue"));
    assert!(logical["SqsQueue".len()..].chars().all(|c| c.is_ascii_digit()));
}

#[test]
fn duplicate_ids_are_refused() {
    let mut stack_builder = StackBuilder::new();
    QueueBuilder::new("same").standard_queue().build(&mut stack_builder);
    TopicBuilder::new("same").build(&mut stack_builder);
    let result = stack_builder.build();
    assert!(result.is_err());
}
