use rusty_cdk::apigateway::ApiGatewayV2Builder;
use rusty_cdk::shared::HttpMethod;
use rusty_cdk::cloudwatch::AlarmBuilder;
use rusty_cdk::json::{ToJson, Value};
use rusty_cdk::s3::{BucketBuilder, LifecycleRuleBuilder, LifecycleRuleStatus, NotificationDestination, NotificationEventType};
use rusty_cdk::sns::TopicBuilder;
use rusty_cdk::sqs::QueueBuilder;
use rusty_cdk::stack::StackBuilder;
use rusty_cdk::lambda::{Architecture, Code, FunctionBuilder, Runtime, Zip};
use rusty_cdk::wrappers::{Bucket, Memory, S3LifecycleObjectSizes, Timeout, ZipFile};

fn member<'a>(v: &'a Value, key: &str) -> Option<&'a Value> {
    match v {
        Value::Object(members) => members.iter().find(|(k, _)| k == key).map(|(_, v)| v),
        _ => None,
    }
}

fn resources(stack_builder: StackBuilder) -> Vec<(String, Value)> {
    let template = stack_builder.build().ok().unwrap().to_json();
    match member(&template, "Resources") {
        Some(Value::Object(members)) => members.iter().map(|(k, v)| (k.clone(), v.deep_copy())).collect(),
        _ => panic!("a template has resources"),
    }
}

fn type_of(resource: &Value) -> String {
    match member(resource, "Type") {
        Some(Value::String(s)) => s.clone(),
        _ => panic!("a resource has a type"),
    }
}

#[test]
fn building_an_alarm_adds_it_to_the_stack() {
    let mut stack_builder = StackBuilder::new();
    AlarmBuilder::new("alarm", "GreaterThanThreshold".to_string(), 1).build(&mut stack_builder);
    let rs = resources(stack_builder);
    assert_eq!(rs.len(), 1);
    assert!(rs[0].0.starts_with("Alarm"));
    assert_eq!(type_of(&rs[0].1), "AWS::CloudWatch::Alarm");
    let properties = member(&rs[0].1, "Properties").unwrap();
    assert!(matches!(member(properties, "ComparisonOperator"), Some(Value::String(s)) if s == "GreaterThanThreshold"));
    assert!(matches!(member(properties, "EvaluationPeriods"), Some(Value::Number(1))));
}

#[test]
fn the_first_object_size_is_the_minimum() {
    let rule = LifecycleRuleBuilder::new(LifecycleRuleStatus::Enabled)
        .object_size(S3LifecycleObjectSizes(Some(1024), Some(10485760)))
        .build();
    let json = rule.to_json();
    assert!(matches!(member(&json, "ObjectSizeGreaterThan"), Some(Value::Number(1024))));
    assert!(matches!(member(&json, "ObjectSizeLessThan"), Some(Value::Number(10485760))));
}

#[test]
fn a_website_bucket_adds_exactly_the_bucket_and_its_policy() {
    let mut stack_builder = StackBuilder::new();
    BucketBuilder::new("website").website("index.com").build(&mut stack_builder);
    let rs = resources(stack_builder);
    assert_eq!(rs.len(), 2);
    assert_eq!(type_of(&rs[0].1), "AWS::S3::Bucket");
    assert_eq!(type_of(&rs[1].1), "AWS::S3::BucketPolicy");
}

#[test]
fn a_notification_to_a_topic_adds_its_handler_policy_and_notification() {
    let mut stack_builder = StackBuilder::new();
    let topic = TopicBuilder::new("topic").build(&mut stack_builder);
    BucketBuilder::new("bucket")
        .add_notification(NotificationDestination::Sns(&topic, NotificationEventType::ObjectCreated))
        .build(&mut stack_builder);
    let rs = resources(stack_builder);
    assert_eq!(rs.len(), 1 + 1 + 5);
    assert_eq!(type_of(&rs[5].1), "AWS::SNS::TopicPolicy");
    assert_eq!(type_of(&rs[6].1), "Custom::S3BucketNotifications");
}

#[test]
fn a_queue_adds_one_resource() {
    let mut stack_builder = StackBuilder::new();
    QueueBuilder::new("myQueue").standard_queue().build(&mut stack_builder);
    assert_eq!(resources(stack_builder).len(), 1);
}

#[test]
fn a_notification_to_a_function_adds_five_resources_after_the_bucket() {
    let mut stack_builder = StackBuilder::new();
    let (function, _, _) = FunctionBuilder::new("fun", Architecture::ARM64, Memory(128), Timeout(30))
        .code(Code::Zip(Zip::new(Bucket("assets".to_string()), ZipFile("fun.zip".to_string()))))
        .handler("bootstrap")
        .runtime(Runtime::ProvidedAl2023)
        .build(&mut stack_builder);
    BucketBuilder::new("bucket")
        .add_notification(NotificationDestination::Lambda(&function, NotificationEventType::ObjectCreated))
        .build(&mut stack_builder);
    let rs = resources(stack_builder);
    assert_eq!(rs.len(), 3 + 1 + 5);
    assert_eq!(type_of(&rs[3].1), "AWS::S3::Bucket");
    assert_eq!(type_of(&rs[4].1), "AWS::Lambda::Permission");
    assert_eq!(type_of(&rs[8].1), "Custom::S3BucketNotifications");
}

#[test]
fn an_api_with_two_routes_gives_each_resource_its_own_id() {
    let mut stack_builder = StackBuilder::new();
    let (f1, _, _) = FunctionBuilder::new("one", Architecture::ARM64, Memory(128), Timeout(30))
        .code(Code::Zip(Zip::new(Bucket("assets".to_string()), ZipFile("one.zip".to_string()))))
        .handler("bootstrap")
        .runtime(Runtime::ProvidedAl2023)
        .build(&mut stack_builder);
    let (f2, _, _) = FunctionBuilder::new("two", Architecture::ARM64, Memory(128), Timeout(30))
        .code(Code::Zip(Zip::new(Bucket("assets".to_string()), ZipFile("two.zip".to_string()))))
        .handler("bootstrap")
        .runtime(Runtime::ProvidedAl2023)
        .build(&mut stack_builder);
    ApiGatewayV2Builder::new("api")
        .add_route_lambda("a", HttpMethod::Get, &f1)
        .add_route_lambda("b", HttpMethod::Post, &f2)
        .add_route_lambda("c", HttpMethod::Post, &f2)
        .build(&mut stack_builder);
    let stack = stack_builder.build();
    assert!(stack.is_ok());
    let template = stack.ok().unwrap().to_json();
    let metadata = match member(&template, "Metadata") {
        Some(Value::Object(m)) => m.iter().map(|(k, _)| k.clone()).collect::<Vec<_>>(),
        _ => panic!("a template has metadata"),
    };
    for id in ["apiPermission0", "apiIntegration0", "apiRoute0", "apiPermission1", "apiRoute2", "apiStage", "api"] {
        assert!(metadata.iter().any(|k| k == id), "missing {}", id);
    }
    assert_eq!(metadata.len(), 6 + 3 * 3 + 2);
}
