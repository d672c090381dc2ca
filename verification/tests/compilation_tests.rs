use rusty_cdk::cloudwatch::{LogGroupBuilder, LogGroupClass};
use rusty_cdk::dynamodb::{AttributeType, Key, TableBuilder};
use rusty_cdk::iam::{AssumeRolePolicyDocumentBuilder, Effect, PrincipalBuilder, RoleBuilder, RolePropertiesBuilder, StatementBuilder};
use rusty_cdk::s3::BucketBuilder;
use rusty_cdk::sns::{FifoThroughputScope, TopicBuilder};
use rusty_cdk::sqs::QueueBuilder;
use rusty_cdk::stack::StackBuilder;
use rusty_cdk::wrappers::{
    DelaySeconds, IamAction, LogGroupName, MaximumMessageSize, MessageRetentionPeriod, NonZeroNumber,
    ReceiveMessageWaitTime, RetentionInDays, StringWithOnlyAlphaNumericsAndUnderscores,
    StringWithOnlyAlphaNumericsUnderscoresAndHyphens, VisibilityTimeout,
};

#[test]
fn dynamodb_pay_per_request_billing_should_compile() {
    let mut stack_builder = StackBuilder::new();
    let key = StringWithOnlyAlphaNumericsAndUnderscores("test".to_string());
    let _ = TableBuilder::new("myTable", Key::new(key, AttributeType::String))
        .pay_per_request_billing()
        .build(&mut stack_builder);
}

#[test]
fn dynamodb_provisioned_billing_should_compile() {
    let mut stack_builder = StackBuilder::new();
    let key = StringWithOnlyAlphaNumericsAndUnderscores("id".to_string());
    let read_cap = NonZeroNumber(5);
    let write_cap = NonZeroNumber(5);

    TableBuilder::new("myTable", Key::new(key, AttributeType::String))
        .provisioned_billing()
        .read_capacity(read_cap)
        .write_capacity(write_cap)
        .build(&mut stack_builder);
}

#[test]
fn sqs_standard_queue_builder_should_compile() {
    let mut stack_builder = StackBuilder::new();
    let queue_name = StringWithOnlyAlphaNumericsAndUnderscores("test_queue".to_string());
    let delay = DelaySeconds(300);
    let max_size = MaximumMessageSize(262144);
    let retention = MessageRetentionPeriod(345600);
    let timeout = VisibilityTimeout(30);
    let wait_time = ReceiveMessageWaitTime(10);
    let max_receive = NonZeroNumber(3);

    let _ = QueueBuilder::new("myQueue")
        .standard_queue()
        .queue_name(queue_name)
        .delay_seconds(delay)
        .maximum_message_size(max_size)
        .message_retention_period(retention)
        .visibility_timeout(timeout)
        .receive_message_wait_time_seconds(wait_time)
        .dead_letter_queue("arn:aws:sqs:us-east-1:123456789012:dlq", max_receive)
        .sqs_managed_sse_enabled(true)
        .build(&mut stack_builder);
}

#[test]
fn sqs_fifo_queue_builder_should_compile() {
    let mut stack_builder = StackBuilder::new();
    let queue_name = StringWithOnlyAlphaNumericsAndUnderscores("test_fifo_queue".to_string());
    let delay = DelaySeconds(60);
    let timeout = VisibilityTimeout(120);

    let _ = QueueBuilder::new("myQueue")
        .fifo_queue()
        .queue_name(queue_name)
        .delay_seconds(delay)
        .visibility_timeout(timeout)
        .content_based_deduplication(true)
        .build(&mut stack_builder);
}

#[test]
fn stack_with_bucket_website_should_compile() {
    let mut stack_builder = StackBuilder::new();
    BucketBuilder::new("website").website("index.com").build(&mut stack_builder);

    let stack = StackBuilder::new().build();

    assert!(stack.is_ok());
}

#[test]
fn sns_standard_topic_builder_should_compile() {
    let mut stack_builder = StackBuilder::new();
    let topic_name = StringWithOnlyAlphaNumericsUnderscoresAndHyphens("test_topic".to_string());

    TopicBuilder::new("myTopic").topic_name(topic_name).build(&mut stack_builder);
}

#[test]
fn sns_fifo_topic_builder_should_compile() {
    let mut stack_builder = StackBuilder::new();
    let topic_name = StringWithOnlyAlphaNumericsUnderscoresAndHyphens("test_fifo_topic".to_string());

    TopicBuilder::new("myTopic")
        .fifo()
        .topic_name(topic_name)
        .content_based_deduplication(true)
        .fifo_throughput_scope(FifoThroughputScope::MessageGroup)
        .build(&mut stack_builder);
}

#[test]
fn cloudwatch_log_group_builder_should_compile() {
    let mut stack_builder = StackBuilder::new();
    let log_group_name = LogGroupName("/aws/lambda/my-function".to_string());

    LogGroupBuilder::new("myLogGroup")
        .log_group_name_string(log_group_name)
        .log_group_class(LogGroupClass::Standard)
        .log_group_retention(RetentionInDays(7))
        .build(&mut stack_builder);
}

#[test]
fn iam_principal_builder_should_compile() {
    let mut stack_builder = StackBuilder::new();

    let statement = StatementBuilder::new(vec![IamAction("s3:*".to_string())], Effect::Allow)
        .principal(PrincipalBuilder::new().service("lambda.amazonaws.com").build())
        .build();

    let assume_role_policy = AssumeRolePolicyDocumentBuilder::new(vec![statement]).build();
    let properties = RolePropertiesBuilder::new(assume_role_policy, vec![]).build();

    RoleBuilder::new("myRole", properties).build(&mut stack_builder);
}
