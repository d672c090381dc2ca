use crate::json::Value;
use crate::shared::{arn_json, clone_opt, opt_view, ref_json, Id, RefView, RefWithIdView};
use crate::intrinsic::{get_arn, get_att, get_att_json, get_ref, string_value};
use crate::iam::PolicyDocument;
use vstd::prelude::*;

verus! {

/// A reference to a resource, which other resources use to depend on it.
pub struct QueueRef {
    pub(crate) id: Id,
    pub(crate) resource_id: String,
    pub(crate) ref_name: Option<String>,
    pub(crate) arn_value: Option<String>,
}

impl View for QueueRef {
    type V = RefWithIdView;

    open(crate) spec fn view(&self) -> RefWithIdView {
        RefWithIdView {
            id: self.id.0@,
            resource_id: self.resource_id@,
            ref_name: opt_view(self.ref_name),
            arn_value: opt_view(self.arn_value),
        }
    }
}

impl QueueRef {
    pub(crate) fn internal_new(id: Id, resource_id: String) -> (r: Self)
        ensures
            r@ == (RefWithIdView { id: id.0@, resource_id: resource_id@, ref_name: None, arn_value: None }),
    {
        Self { id, resource_id, ref_name: None, arn_value: None }
    }

    /// A reference to a resource that exists outside the stack.
    pub fn new(id: &str, resource_id: &str, ref_name: &str, arn_value: &str) -> (r: Self)
        ensures
            r@ == (RefWithIdView { id: id@, resource_id: resource_id@, ref_name: Some(ref_name@), arn_value: Some(arn_value@) }),
    {
        Self {
            id: Id(String::from_str(id)),
            resource_id: String::from_str(resource_id),
            ref_name: Some(String::from_str(ref_name)),
            arn_value: Some(String::from_str(arn_value)),
        }
    }

    pub(crate) fn get_id(&self) -> (r: &Id)
        ensures
            r.0@ == self@.id,
    {
        &self.id
    }

    pub(crate) fn get_resource_id(&self) -> (r: &str)
        ensures
            r@ == self@.resource_id,
    {
        self.resource_id.as_str()
    }

    /// What `Ref` gives for the resource: the name it was imported with, or the intrinsic function.
    pub fn get_ref(&self) -> (r: Value)
        ensures
            r@ == ref_json(self@.resource_id, self@.ref_name),
    {
        match &self.ref_name {
            Some(val) => string_value(val.as_str()),
            None => get_ref(self.resource_id.as_str()),
        }
    }

    /// The ARN of the resource: the one it was imported with, or the intrinsic function.
    pub fn get_arn(&self) -> (r: Value)
        ensures
            r@ == arn_json(self@.resource_id, self@.arn_value),
    {
        match &self.arn_value {
            Some(val) => string_value(val.as_str()),
            None => get_arn(self.resource_id.as_str()),
        }
    }

    /// An attribute of the resource; not available for an imported resource.
    pub fn get_att(&self, id: &str) -> (r: Value)
        requires
            !(self@.ref_name is Some && self@.arn_value is Some),
        ensures
            r@ == get_att_json(self@.resource_id, id@),
    {
        get_att(self.resource_id.as_str(), id)
    }
}

impl Clone for QueueRef {
    fn clone(&self) -> (r: Self)
        ensures
            r@ == self@,
    {
        Self {
            id: self.id.clone(),
            resource_id: self.resource_id.clone(),
            ref_name: clone_opt(&self.ref_name),
            arn_value: clone_opt(&self.arn_value),
        }
    }
}

/// A reference to a resource, which other resources use to depend on it.
pub struct QueuePolicyRef {
    pub(crate) id: Id,
    pub(crate) resource_id: String,
    pub(crate) ref_name: Option<String>,
    pub(crate) arn_value: Option<String>,
}

impl View for QueuePolicyRef {
    type V = RefWithIdView;

    open(crate) spec fn view(&self) -> RefWithIdView {
        RefWithIdView {
            id: self.id.0@,
            resource_id: self.resource_id@,
            ref_name: opt_view(self.ref_name),
            arn_value: opt_view(self.arn_value),
        }
    }
}

impl QueuePolicyRef {
    pub(crate) fn internal_new(id: Id, resource_id: String) -> (r: Self)
        ensures
            r@ == (RefWithIdView { id: id.0@, resource_id: resource_id@, ref_name: None, arn_value: None }),
    {
        Self { id, resource_id, ref_name: None, arn_value: None }
    }

    /// A reference to a resource that exists outside the stack.
    pub fn new(id: &str, resource_id: &str, ref_name: &str, arn_value: &str) -> (r: Self)
        ensures
            r@ == (RefWithIdView { id: id@, resource_id: resource_id@, ref_name: Some(ref_name@), arn_value: Some(arn_value@) }),
    {
        Self {
            id: Id(String::from_str(id)),
            resource_id: String::from_str(resource_id),
            ref_name: Some(String::from_str(ref_name)),
            arn_value: Some(String::from_str(arn_value)),
        }
    }

    pub(crate) fn get_id(&self) -> (r: &Id)
        ensures
            r.0@ == self@.id,
    {
        &self.id
    }

    pub(crate) fn get_resource_id(&self) -> (r: &str)
        ensures
            r@ == self@.resource_id,
    {
        self.resource_id.as_str()
    }

    /// What `Ref` gives for the resource: the name it was imported with, or the intrinsic function.
    pub fn get_ref(&self) -> (r: Value)
        ensures
            r@ == ref_json(self@.resource_id, self@.ref_name),
    {
        match &self.ref_name {
            Some(val) => string_value(val.as_str()),
            None => get_ref(self.resource_id.as_str()),
        }
    }

    /// The ARN of the resource: the one it was imported with, or the intrinsic function.
    pub fn get_arn(&self) -> (r: Value)
        ensures
            r@ == arn_json(self@.resource_id, self@.arn_value),
    {
        match &self.arn_value {
            Some(val) => string_value(val.as_str()),
            None => get_arn(self.resource_id.as_str()),
        }
    }

    /// An attribute of the resource; not available for an imported resource.
    pub fn get_att(&self, id: &str) -> (r: Value)
        requires
            !(self@.ref_name is Some && self@.arn_value is Some),
        ensures
            r@ == get_att_json(self@.resource_id, id@),
    {
        get_att(self.resource_id.as_str(), id)
    }
}

impl Clone for QueuePolicyRef {
    fn clone(&self) -> (r: Self)
        ensures
            r@ == self@,
    {
        Self {
            id: self.id.clone(),
            resource_id: self.resource_id.clone(),
            ref_name: clone_opt(&self.ref_name),
            arn_value: clone_opt(&self.arn_value),
        }
    }
}

/// An SQS queue resource.
pub struct Queue {
    pub(crate) id: Id,
    pub(crate) resource_id: String,
    pub(crate) resource_type: String,
    pub(crate) properties: QueueProperties,
}

/// What a [`Queue`] holds.
pub struct QueueView {
    pub id: Id,
    pub resource_id: String,
    pub resource_type: String,
    pub properties: QueueProperties,
}

impl View for Queue {
    type V = QueueView;

    open(crate) spec fn view(&self) -> QueueView {
        QueueView {
            id: self.id,
            resource_id: self.resource_id,
            resource_type: self.resource_type,
            properties: self.properties,
        }
    }
}

impl Queue {
    pub fn get_id(&self) -> (r: &Id)
        ensures
            *r == self@.id,
    {
        &self.id
    }

    pub fn get_resource_id(&self) -> (r: &str)
        ensures
            r@ == self@.resource_id@,
    {
        self.resource_id.as_str()
    }

    pub fn get_type(&self) -> (r: &str)
        ensures
            r@ == self@.resource_type@,
    {
        self.resource_type.as_str()
    }
}

/// The properties of an SQS queue.
pub struct QueueProperties {
    pub(crate) content_based_deduplication: Option<bool>,
    pub(crate) deduplication_scope: Option<String>,
    pub(crate) delay_seconds: Option<u32>,
    pub(crate) fifo_throughput_limit: Option<String>,
    pub(crate) fifo_queue: Option<bool>,
    pub(crate) kms_data_key_reuse_period_seconds: Option<u32>,
    pub(crate) kms_master_key_id: Option<Value>,
    pub(crate) maximum_message_size: Option<u32>,
    pub(crate) message_retention_period: Option<u32>,
    pub(crate) queue_name: Option<String>,
    pub(crate) receive_message_wait_time_seconds: Option<u32>,
    pub(crate) redrive_policy: Option<RedrivePolicy>,
    pub(crate) redrive_allow_policy: Option<Value>,
    pub(crate) sqs_managed_sse_enabled: Option<bool>,
    pub(crate) visibility_timeout: Option<u32>,
}

/// What a [`QueueProperties`] holds.
pub struct QueuePropertiesView {
    pub content_based_deduplication: Option<bool>,
    pub deduplication_scope: Option<String>,
    pub delay_seconds: Option<u32>,
    pub fifo_throughput_limit: Option<String>,
    pub fifo_queue: Option<bool>,
    pub kms_data_key_reuse_period_seconds: Option<u32>,
    pub kms_master_key_id: Option<Value>,
    pub maximum_message_size: Option<u32>,
    pub message_retention_period: Option<u32>,
    pub queue_name: Option<String>,
    pub receive_message_wait_time_seconds: Option<u32>,
    pub redrive_policy: Option<RedrivePolicy>,
    pub redrive_allow_policy: Option<Value>,
    pub sqs_managed_sse_enabled: Option<bool>,
    pub visibility_timeout: Option<u32>,
}

impl View for QueueProperties {
    type V = QueuePropertiesView;

    open(crate) spec fn view(&self) -> QueuePropertiesView {
        QueuePropertiesView {
            content_based_deduplication: self.content_based_deduplication,
            deduplication_scope: self.deduplication_scope,
            delay_seconds: self.delay_seconds,
            fifo_throughput_limit: self.fifo_throughput_limit,
            fifo_queue: self.fifo_queue,
            kms_data_key_reuse_period_seconds: self.kms_data_key_reuse_period_seconds,
            kms_master_key_id: self.kms_master_key_id,
            maximum_message_size: self.maximum_message_size,
            message_retention_period: self.message_retention_period,
            queue_name: self.queue_name,
            receive_message_wait_time_seconds: self.receive_message_wait_time_seconds,
            redrive_policy: self.redrive_policy,
            redrive_allow_policy: self.redrive_allow_policy,
            sqs_managed_sse_enabled: self.sqs_managed_sse_enabled,
            visibility_timeout: self.visibility_timeout,
        }
    }
}

/// An SQS queue policy resource.
pub struct QueuePolicy {
    pub(crate) id: Id,
    pub(crate) resource_id: String,
    pub(crate) resource_type: String,
    pub(crate) properties: QueuePolicyProperties,
}

/// What a [`QueuePolicy`] holds.
pub struct QueuePolicyView {
    pub id: Id,
    pub resource_id: String,
    pub resource_type: String,
    pub properties: QueuePolicyProperties,
}

impl View for QueuePolicy {
    type V = QueuePolicyView;

    open(crate) spec fn view(&self) -> QueuePolicyView {
        QueuePolicyView {
            id: self.id,
            resource_id: self.resource_id,
            resource_type: self.resource_type,
            properties: self.properties,
        }
    }
}

impl QueuePolicy {
    pub fn get_id(&self) -> (r: &Id)
        ensures
            *r == self@.id,
    {
        &self.id
    }

    pub fn get_resource_id(&self) -> (r: &str)
        ensures
            r@ == self@.resource_id@,
    {
        self.resource_id.as_str()
    }

    pub fn get_type(&self) -> (r: &str)
        ensures
            r@ == self@.resource_type@,
    {
        self.resource_type.as_str()
    }
}

/// The properties of a queue policy: its document and the queues it applies to.
pub struct QueuePolicyProperties {
    pub(crate) doc: PolicyDocument,
    pub(crate) queues: Vec<Value>,
}

/// What a [`QueuePolicyProperties`] holds.
pub struct QueuePolicyPropertiesView {
    pub doc: PolicyDocument,
    pub queues: Vec<Value>,
}

impl View for QueuePolicyProperties {
    type V = QueuePolicyPropertiesView;

    open(crate) spec fn view(&self) -> QueuePolicyPropertiesView {
        QueuePolicyPropertiesView {
            doc: self.doc,
            queues: self.queues,
        }
    }
}

/// Where messages go after failing too often, and after how many receives.
pub struct RedrivePolicy {
    pub(crate) dead_letter_target_arn: String,
    pub(crate) max_receive_count: u32,
}

/// What a [`RedrivePolicy`] holds.
pub struct RedrivePolicyView {
    pub dead_letter_target_arn: String,
    pub max_receive_count: u32,
}

impl View for RedrivePolicy {
    type V = RedrivePolicyView;

    open(crate) spec fn view(&self) -> RedrivePolicyView {
        RedrivePolicyView {
            dead_letter_target_arn: self.dead_letter_target_arn,
            max_receive_count: self.max_receive_count,
        }
    }
}

} // verus!
