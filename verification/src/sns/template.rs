//! How the module's resources appear in a CloudFormation template.
use crate::sns::{LoggingConfig, SnsSubscriptionProperties, Subscription, Topic, TopicPolicy, TopicPolicyProperties, TopicProperties};
use crate::json::{member, opt_member, push_json, push_opt_json, JsonView, ToJson, Value};
use vstd::prelude::*;

verus! {

impl ToJson for Topic {
    open(crate) spec fn as_json(&self) -> JsonView {
        JsonView::Object(
            Seq::empty()
                + member("Type"@, &self.resource_type)
                + member("Properties"@, &self.properties),
        )
    }

    fn to_json(&self) -> (r: Value) {
        let mut members: Vec<(String, Value)> = Vec::new();
        push_json(&mut members, "Type", &self.resource_type);
        push_json(&mut members, "Properties", &self.properties);
        Value::Object(members)
    }
}

impl ToJson for TopicProperties {
    open(crate) spec fn as_json(&self) -> JsonView {
        JsonView::Object(
            Seq::empty()
                + opt_member("ArchivePolicy"@, &self.archive_policy)
                + opt_member("ContentBasedDeduplication"@, &self.content_based_deduplication)
                + opt_member("DeliveryStatusLogging"@, &self.delivery_status_logging)
                + opt_member("DisplayName"@, &self.display_name)
                + opt_member("FifoTopic"@, &self.fifo_topic)
                + opt_member("FifoThroughputScope"@, &self.fifo_throughput_scope)
                + opt_member("KmsMasterKeyId"@, &self.kms_master_key_id)
                + opt_member("TopicName"@, &self.topic_name)
                + opt_member("TracingConfig"@, &self.tracing_config),
        )
    }

    fn to_json(&self) -> (r: Value) {
        let mut members: Vec<(String, Value)> = Vec::new();
        push_opt_json(&mut members, "ArchivePolicy", &self.archive_policy);
        push_opt_json(&mut members, "ContentBasedDeduplication", &self.content_based_deduplication);
        push_opt_json(&mut members, "DeliveryStatusLogging", &self.delivery_status_logging);
        push_opt_json(&mut members, "DisplayName", &self.display_name);
        push_opt_json(&mut members, "FifoTopic", &self.fifo_topic);
        push_opt_json(&mut members, "FifoThroughputScope", &self.fifo_throughput_scope);
        push_opt_json(&mut members, "KmsMasterKeyId", &self.kms_master_key_id);
        push_opt_json(&mut members, "TopicName", &self.topic_name);
        push_opt_json(&mut members, "TracingConfig", &self.tracing_config);
        Value::Object(members)
    }
}

impl ToJson for LoggingConfig {
    open(crate) spec fn as_json(&self) -> JsonView {
        JsonView::Object(
            Seq::empty()
                + opt_member("FailureFeedbackRoleArn"@, &self.failure_feedback_role_arn)
                + member("Protocol"@, &self.protocol)
                + opt_member("SuccessFeedbackRoleArn"@, &self.success_feedback_role_arn)
                + opt_member("SuccessFeedbackSampleRate"@, &self.success_feedback_sample_rate),
        )
    }

    fn to_json(&self) -> (r: Value) {
        let mut members: Vec<(String, Value)> = Vec::new();
        push_opt_json(&mut members, "FailureFeedbackRoleArn", &self.failure_feedback_role_arn);
        push_json(&mut members, "Protocol", &self.protocol);
        push_opt_json(&mut members, "SuccessFeedbackRoleArn", &self.success_feedback_role_arn);
        push_opt_json(&mut members, "SuccessFeedbackSampleRate", &self.success_feedback_sample_rate);
        Value::Object(members)
    }
}

impl ToJson for TopicPolicy {
    open(crate) spec fn as_json(&self) -> JsonView {
        JsonView::Object(
            Seq::empty()
                + member("Type"@, &self.resource_type)
                + member("Properties"@, &self.properties),
        )
    }

    fn to_json(&self) -> (r: Value) {
        let mut members: Vec<(String, Value)> = Vec::new();
        push_json(&mut members, "Type", &self.resource_type);
        push_json(&mut members, "Properties", &self.properties);
        Value::Object(members)
    }
}

impl ToJson for TopicPolicyProperties {
    open(crate) spec fn as_json(&self) -> JsonView {
        JsonView::Object(
            Seq::empty()
                + member("PolicyDocument"@, &self.doc)
                + member("Topics"@, &self.topics),
        )
    }

    fn to_json(&self) -> (r: Value) {
        let mut members: Vec<(String, Value)> = Vec::new();
        push_json(&mut members, "PolicyDocument", &self.doc);
        push_json(&mut members, "Topics", &self.topics);
        Value::Object(members)
    }
}

impl ToJson for Subscription {
    open(crate) spec fn as_json(&self) -> JsonView {
        JsonView::Object(
            Seq::empty()
                + member("Type"@, &self.resource_type)
                + member("Properties"@, &self.properties),
        )
    }

    fn to_json(&self) -> (r: Value) {
        let mut members: Vec<(String, Value)> = Vec::new();
        push_json(&mut members, "Type", &self.resource_type);
        push_json(&mut members, "Properties", &self.properties);
        Value::Object(members)
    }
}

impl ToJson for SnsSubscriptionProperties {
    open(crate) spec fn as_json(&self) -> JsonView {
        JsonView::Object(
            Seq::empty()
                + member("Endpoint"@, &self.endpoint)
                + member("Protocol"@, &self.protocol)
                + member("TopicArn"@, &self.topic_arn),
        )
    }

    fn to_json(&self) -> (r: Value) {
        let mut members: Vec<(String, Value)> = Vec::new();
        push_json(&mut members, "Endpoint", &self.endpoint);
        push_json(&mut members, "Protocol", &self.protocol);
        push_json(&mut members, "TopicArn", &self.topic_arn);
        Value::Object(members)
    }
}

} // verus!
