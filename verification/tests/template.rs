use rusty_cdk::json::{ToJson, Value};
use rusty_cdk::s3::BucketBuilder;
use rusty_cdk::sqs::QueueBuilder;
use rusty_cdk::stack::StackBuilder;
use rusty_cdk::wrappers::StringWithOnlyAlphaNumericsAndUnderscores;

fn member<'a>(v: &'a Value, key: &str) -> Option<&'a Value> {
    match v {
        Value::Object(members) => members.iter().find(|(k, _)| k == key).map(|(_, v)| v),
        _ => None,
    }
}

fn members(v: &Value) -> &Vec<(String, Value)> {
    match v {
        Value::Object(members) => members,
        _ => panic!("not an object"),
    }
}

fn text(v: &Value) -> &str {
    match v {
        Value::String(s) => s.as_str(),
        _ => panic!("not a string"),
    }
}

#[test]
fn a_queue_stands_in_the_template_under_its_resource_id() {
    let mut stack_builder = StackBuilder::new();
    QueueBuilder::new("myQueue").standard_queue().build(&mut stack_builder);
    let stack = stack_builder.build().ok().unwrap();
    let template = stack.to_json();

    let resources = members(member(&template, "Resources").unwrap());
    assert_eq!(resources.len(), 1);
    let (resource_id, queue) = &resources[0];
    assert!(resource_id.starts_with("SqsQueue"));
    assert_eq!(text(member(queue, "Type").unwrap()), "AWS::SQS::Queue");

    let metadata = members(member(&template, "Metadata").unwrap());
    assert_eq!(metadata.len(), 1);
    assert_eq!(metadata[0].0, "myQueue");
    assert_eq!(text(&metadata[0].1), resource_id.as_str());
    assert!(member(&template, "Outputs").is_none());
}

#[test]
fn a_fifo_queue_is_marked_and_its_name_ends_in_fifo() {
    let mut stack_builder = StackBuilder::new();
    QueueBuilder::new("myQueue")
        .fifo_queue()
        .queue_name(StringWithOnlyAlphaNumericsAndUnderscores("orders".to_string()))
        .build(&mut stack_builder);
    let stack = stack_builder.build().ok().unwrap();
    let template = stack.to_json();

    let resources = members(member(&template, "Resources").unwrap());
    let properties = member(&resources[0].1, "Properties").unwrap();
    assert!(matches!(member(properties, "FifoQueue"), Some(Value::Bool(true))));
    assert_eq!(text(member(properties, "QueueName").unwrap()), "orders.fifo");
}

#[test]
fn a_standard_queue_has_no_fifo_member() {
    let mut stack_builder = StackBuilder::new();
    QueueBuilder::new("plain").standard_queue().build(&mut stack_builder);
    let stack = stack_builder.build().ok().unwrap();
    let template = stack.to_json();
    let resources = members(member(&template, "Resources").unwrap());
    let properties = member(&resources[0].1, "Properties").unwrap();
    assert!(member(properties, "FifoQueue").is_none());
}

#[test]
fn a_bucket_is_a_bucket_in_the_template() {
    let mut stack_builder = StackBuilder::new();
    BucketBuilder::new("buck").build(&mut stack_builder);
    let stack = stack_builder.build().ok().unwrap();
    let template = stack.to_json();
    let resources = members(member(&template, "Resources").unwrap());
    assert_eq!(resources.len(), 1);
    assert_eq!(text(member(&resources[0].1, "Type").unwrap()), "AWS::S3::Bucket");
}
