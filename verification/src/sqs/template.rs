//! How the module's resources appear in a CloudFormation template.
use crate::sqs::{Queue, QueuePolicy, QueuePolicyProperties, QueueProperties, RedrivePolicy};
use crate::json::{has_member, member, opt_member, push_json, push_opt_json, JsonView, ToJson, Value};
use vstd::prelude::*;

verus! {

impl ToJson for Queue {
    open(crate) spec fn as_json(&self) -> JsonView {
        JsonView::Object(
            Seq::empty()
                + member("Type"@, &self.resource_type)
                + member("Properties"@, &self.properties),
        )
    }

    fn to_json(&self) -> (r: Value) {
        let mut members: Vec<(String, Value)> = Vec::new();
        push_json(&mut members, "Type", &self.resource_type);
        push_json(&mut members, "Properties", &self.properties);
        Value::Object(members)
    }
}

impl ToJson for QueueProperties {
    open(crate) spec fn as_json(&self) -> JsonView {
        JsonView::Object(
            Seq::empty()
                + opt_member("ContentBasedDeduplication"@, &self.content_based_deduplication)
                + opt_member("DeduplicationScope"@, &self.deduplication_scope)
                + opt_member("DelaySeconds"@, &self.delay_seconds)
                + opt_member("FifoThroughputLimit"@, &self.fifo_throughput_limit)
                + opt_member("FifoQueue"@, &self.fifo_queue)
                + opt_member("KmsDataKeyReusePeriodSeconds"@, &self.kms_data_key_reuse_period_seconds)
                + opt_member("KmsMasterKeyId"@, &self.kms_master_key_id)
                + opt_member("MaximumMessageSize"@, &self.maximum_message_size)
                + opt_member("MessageRetentionPeriod"@, &self.message_retention_period)
                + opt_member("QueueName"@, &self.queue_name)
                + opt_member("ReceiveMessageWaitTimeSeconds"@, &self.receive_message_wait_time_seconds)
                + opt_member("RedrivePolicy"@, &self.redrive_policy)
                + opt_member("RedriveAllowPolicy"@, &self.redrive_allow_policy)
                + opt_member("SqsManagedSseEnabled"@, &self.sqs_managed_sse_enabled)
                + opt_member("VisibilityTimeout"@, &self.visibility_timeout),
        )
    }

    fn to_json(&self) -> (r: Value) {
        let mut members: Vec<(String, Value)> = Vec::new();
        push_opt_json(&mut members, "ContentBasedDeduplication", &self.content_based_deduplication);
        push_opt_json(&mut members, "DeduplicationScope", &self.deduplication_scope);
        push_opt_json(&mut members, "DelaySeconds", &self.delay_seconds);
        push_opt_json(&mut members, "FifoThroughputLimit", &self.fifo_throughput_limit);
        push_opt_json(&mut members, "FifoQueue", &self.fifo_queue);
        push_opt_json(&mut members, "KmsDataKeyReusePeriodSeconds", &self.kms_data_key_reuse_period_seconds);
        push_opt_json(&mut members, "KmsMasterKeyId", &self.kms_master_key_id);
        push_opt_json(&mut members, "MaximumMessageSize", &self.maximum_message_size);
        push_opt_json(&mut members, "MessageRetentionPeriod", &self.message_retention_period);
        push_opt_json(&mut members, "QueueName", &self.queue_name);
        push_opt_json(&mut members, "ReceiveMessageWaitTimeSeconds", &self.receive_message_wait_time_seconds);
        push_opt_json(&mut members, "RedrivePolicy", &self.redrive_policy);
        push_opt_json(&mut members, "RedriveAllowPolicy", &self.redrive_allow_policy);
        push_opt_json(&mut members, "SqsManagedSseEnabled", &self.sqs_managed_sse_enabled);
        push_opt_json(&mut members, "VisibilityTimeout", &self.visibility_timeout);
        Value::Object(members)
    }
}

impl ToJson for QueuePolicy {
    open(crate) spec fn as_json(&self) -> JsonView {
        JsonView::Object(
            Seq::empty()
                + member("Type"@, &self.resource_type)
                + member("Properties"@, &self.properties),
        )
    }

    fn to_json(&self) -> (r: Value) {
        let mut members: Vec<(String, Value)> = Vec::new();
        push_json(&mut members, "Type", &self.resource_type);
        push_json(&mut members, "Properties", &self.properties);
        Value::Object(members)
    }
}

impl ToJson for QueuePolicyProperties {
    open(crate) spec fn as_json(&self) -> JsonView {
        JsonView::Object(
            Seq::empty()
                + member("PolicyDocument"@, &self.doc)
                + member("Queues"@, &self.queues),
        )
    }

    fn to_json(&self) -> (r: Value) {
        let mut members: Vec<(String, Value)> = Vec::new();
        push_json(&mut members, "PolicyDocument", &self.doc);
        push_json(&mut members, "Queues", &self.queues);
        Value::Object(members)
    }
}

impl ToJson for RedrivePolicy {
    open(crate) spec fn as_json(&self) -> JsonView {
        JsonView::Object(
            Seq::empty()
                + member("deadLetterTargetArn"@, &self.dead_letter_target_arn)
                + member("maxReceiveCount"@, &self.max_receive_count),
        )
    }

    fn to_json(&self) -> (r: Value) {
        let mut members: Vec<(String, Value)> = Vec::new();
        push_json(&mut members, "deadLetterTargetArn", &self.dead_letter_target_arn);
        push_json(&mut members, "maxReceiveCount", &self.max_receive_count);
        Value::Object(members)
    }
}

/// Every property set on a queue appears in the queue's JSON under its
/// CloudFormation name, holding the value that was set.
pub proof fn queue_properties_json_holds_every_set_property(p: &QueueProperties)
    ensures
        p.as_json() is Object,
        p@.content_based_deduplication matches Some(b) ==> has_member(p.as_json(), "ContentBasedDeduplication"@, JsonView::Bool(b)),
        p@.deduplication_scope matches Some(s) ==> has_member(p.as_json(), "DeduplicationScope"@, JsonView::String(s@)),
        p@.delay_seconds matches Some(n) ==> has_member(p.as_json(), "DelaySeconds"@, JsonView::Number(n as int)),
        p@.fifo_throughput_limit matches Some(s) ==> has_member(p.as_json(), "FifoThroughputLimit"@, JsonView::String(s@)),
        p@.fifo_queue matches Some(b) ==> has_member(p.as_json(), "FifoQueue"@, JsonView::Bool(b)),
        p@.kms_data_key_reuse_period_seconds matches Some(n) ==> has_member(p.as_json(), "KmsDataKeyReusePeriodSeconds"@, JsonView::Number(n as int)),
        p@.kms_master_key_id matches Some(v) ==> has_member(p.as_json(), "KmsMasterKeyId"@, v@),
        p@.maximum_message_size matches Some(n) ==> has_member(p.as_json(), "MaximumMessageSize"@, JsonView::Number(n as int)),
        p@.message_retention_period matches Some(n) ==> has_member(p.as_json(), "MessageRetentionPeriod"@, JsonView::Number(n as int)),
        p@.queue_name matches Some(s) ==> has_member(p.as_json(), "QueueName"@, JsonView::String(s@)),
        p@.receive_message_wait_time_seconds matches Some(n) ==> has_member(p.as_json(), "ReceiveMessageWaitTimeSeconds"@, JsonView::Number(n as int)),
        p@.redrive_policy matches Some(rp) ==> has_member(p.as_json(), "RedrivePolicy"@, rp.as_json()),
        p@.redrive_allow_policy matches Some(v) ==> has_member(p.as_json(), "RedriveAllowPolicy"@, v@),
        p@.sqs_managed_sse_enabled matches Some(b) ==> has_member(p.as_json(), "SqsManagedSseEnabled"@, JsonView::Bool(b)),
        p@.visibility_timeout matches Some(n) ==> has_member(p.as_json(), "VisibilityTimeout"@, JsonView::Number(n as int)),
{
    broadcast use vstd::seq_lib::lemma_seq_concat_contains_all_elements;
    lemma_opt_member_holds(p.content_based_deduplication, "ContentBasedDeduplication"@);
    lemma_opt_member_holds(p.deduplication_scope, "DeduplicationScope"@);
    lemma_opt_member_holds(p.delay_seconds, "DelaySeconds"@);
    lemma_opt_member_holds(p.fifo_throughput_limit, "FifoThroughputLimit"@);
    lemma_opt_member_holds(p.fifo_queue, "FifoQueue"@);
    lemma_opt_member_holds(p.kms_data_key_reuse_period_seconds, "KmsDataKeyReusePeriodSeconds"@);
    lemma_opt_member_holds(p.kms_master_key_id, "KmsMasterKeyId"@);
    lemma_opt_member_holds(p.maximum_message_size, "MaximumMessageSize"@);
    lemma_opt_member_holds(p.message_retention_period, "MessageRetentionPeriod"@);
    lemma_opt_member_holds(p.queue_name, "QueueName"@);
    lemma_opt_member_holds(p.receive_message_wait_time_seconds, "ReceiveMessageWaitTimeSeconds"@);
    lemma_opt_member_holds(p.redrive_policy, "RedrivePolicy"@);
    lemma_opt_member_holds(p.redrive_allow_policy, "RedriveAllowPolicy"@);
    lemma_opt_member_holds(p.sqs_managed_sse_enabled, "SqsManagedSseEnabled"@);
    lemma_opt_member_holds(p.visibility_timeout, "VisibilityTimeout"@);
}

/// A set value's member holds that value.
proof fn lemma_opt_member_holds<T: ToJson>(v: Option<T>, key: Seq<char>)
    ensures
        v matches Some(x) ==> opt_member(key, &v).contains((key, x.as_json())),
{
    if let Some(x) = v {
        assert(opt_member(key, &v)[0] == (key, x.as_json()));
    }
}

} // verus!
