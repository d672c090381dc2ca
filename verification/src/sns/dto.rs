use crate::json::{JsonView, Value};
use crate::shared::{arn_json, clone_opt, opt_view, ref_json, Id, RefView, RefWithIdView};
use crate::intrinsic::{get_arn, get_att, get_att_json, get_ref, string_value};
use crate::iam::PolicyDocument;
use vstd::prelude::*;

verus! {

/// The ARN of a topic: the one it was imported with, or what `Ref` gives for it.
pub open spec fn topic_arn_json(t: RefWithIdView) -> JsonView {
    match t.arn_value {
        Some(a) => JsonView::String(a),
        None => ref_json(t.resource_id, t.ref_name),
    }
}

/// A reference to a topic, which other resources use to depend on it; its ARN is what `Ref` gives.
pub struct TopicRef {
    pub(crate) id: Id,
    pub(crate) resource_id: String,
    pub(crate) ref_name: Option<String>,
    pub(crate) arn_value: Option<String>,
}

impl View for TopicRef {
    type V = RefWithIdView;

    open(crate) spec fn view(&self) -> RefWithIdView {
        RefWithIdView {
            id: self.id.0@,
            resource_id: self.resource_id@,
            ref_name: opt_view(self.ref_name),
            arn_value: opt_view(self.arn_value),
        }
    }
}

impl TopicRef {
    pub(crate) fn internal_new(id: Id, resource_id: String) -> (r: Self)
        ensures
            r@ == (RefWithIdView { id: id.0@, resource_id: resource_id@, ref_name: None, arn_value: None }),
    {
        Self { id, resource_id, ref_name: None, arn_value: None }
    }

    /// A reference to a resource that exists outside the stack.
    pub fn new(id: &str, resource_id: &str, ref_name: &str, arn_value: &str) -> (r: Self)
        ensures
            r@ == (RefWithIdView { id: id@, resource_id: resource_id@, ref_name: Some(ref_name@), arn_value: Some(arn_value@) }),
    {
        Self {
            id: Id(String::from_str(id)),
            resource_id: String::from_str(resource_id),
            ref_name: Some(String::from_str(ref_name)),
            arn_value: Some(String::from_str(arn_value)),
        }
    }

    pub(crate) fn get_id(&self) -> (r: &Id)
        ensures
            r.0@ == self@.id,
    {
        &self.id
    }

    pub(crate) fn get_resource_id(&self) -> (r: &str)
        ensures
            r@ == self@.resource_id,
    {
        self.resource_id.as_str()
    }

    /// What `Ref` gives for the resource: the name it was imported with, or the intrinsic function.
    pub fn get_ref(&self) -> (r: Value)
        ensures
            r@ == ref_json(self@.resource_id, self@.ref_name),
    {
        match &self.ref_name {
            Some(val) => string_value(val.as_str()),
            None => get_ref(self.resource_id.as_str()),
        }
    }

    /// The ARN of the topic: the one it was imported with, or what `Ref` gives for it.
    pub fn get_arn(&self) -> (r: Value)
        ensures
            r@ == topic_arn_json(self@),
    {
        match &self.arn_value {
            Some(val) => string_value(val.as_str()),
            None => self.get_ref(),
        }
    }

    /// An attribute of the resource; not available for an imported resource.
    pub fn get_att(&self, id: &str) -> (r: Value)
        requires
            !(self@.ref_name is Some && self@.arn_value is Some),
        ensures
            r@ == get_att_json(self@.resource_id, id@),
    {
        get_att(self.resource_id.as_str(), id)
    }
}

impl Clone for TopicRef {
    fn clone(&self) -> (r: Self)
        ensures
            r@ == self@,
    {
        Self {
            id: self.id.clone(),
            resource_id: self.resource_id.clone(),
            ref_name: clone_opt(&self.ref_name),
            arn_value: clone_opt(&self.arn_value),
        }
    }
}

/// A reference to a resource, which other resources use to depend on it.
pub struct TopicPolicyRef {
    pub(crate) id: Id,
    pub(crate) resource_id: String,
    pub(crate) ref_name: Option<String>,
    pub(crate) arn_value: Option<String>,
}

impl View for TopicPolicyRef {
    type V = RefWithIdView;

    open(crate) spec fn view(&self) -> RefWithIdView {
        RefWithIdView {
            id: self.id.0@,
            resource_id: self.resource_id@,
            ref_name: opt_view(self.ref_name),
            arn_value: opt_view(self.arn_value),
        }
    }
}

impl TopicPolicyRef {
    pub(crate) fn internal_new(id: Id, resource_id: String) -> (r: Self)
        ensures
            r@ == (RefWithIdView { id: id.0@, resource_id: resource_id@, ref_name: None, arn_value: None }),
    {
        Self { id, resource_id, ref_name: None, arn_value: None }
    }

    /// A reference to a resource that exists outside the stack.
    pub fn new(id: &str, resource_id: &str, ref_name: &str, arn_value: &str) -> (r: Self)
        ensures
            r@ == (RefWithIdView { id: id@, resource_id: resource_id@, ref_name: Some(ref_name@), arn_value: Some(arn_value@) }),
    {
        Self {
            id: Id(String::from_str(id)),
            resource_id: String::from_str(resource_id),
            ref_name: Some(String::from_str(ref_name)),
            arn_value: Some(String::from_str(arn_value)),
        }
    }

    pub(crate) fn get_id(&self) -> (r: &Id)
        ensures
            r.0@ == self@.id,
    {
        &self.id
    }

    pub(crate) fn get_resource_id(&self) -> (r: &str)
        ensures
            r@ == self@.resource_id,
    {
        self.resource_id.as_str()
    }

    /// What `Ref` gives for the resource: the name it was imported with, or the intrinsic function.
    pub fn get_ref(&self) -> (r: Value)
        ensures
            r@ == ref_json(self@.resource_id, self@.ref_name),
    {
        match &self.ref_name {
            Some(val) => string_value(val.as_str()),
            None => get_ref(self.resource_id.as_str()),
        }
    }

    /// The ARN of the resource: the one it was imported with, or the intrinsic function.
    pub fn get_arn(&self) -> (r: Value)
        ensures
            r@ == arn_json(self@.resource_id, self@.arn_value),
    {
        match &self.arn_value {
            Some(val) => string_value(val.as_str()),
            None => get_arn(self.resource_id.as_str()),
        }
    }

    /// An attribute of the resource; not available for an imported resource.
    pub fn get_att(&self, id: &str) -> (r: Value)
        requires
            !(self@.ref_name is Some && self@.arn_value is Some),
        ensures
            r@ == get_att_json(self@.resource_id, id@),
    {
        get_att(self.resource_id.as_str(), id)
    }
}

impl Clone for TopicPolicyRef {
    fn clone(&self) -> (r: Self)
        ensures
            r@ == self@,
    {
        Self {
            id: self.id.clone(),
            resource_id: self.resource_id.clone(),
            ref_name: clone_opt(&self.ref_name),
            arn_value: clone_opt(&self.arn_value),
        }
    }
}

/// An SNS topic resource.
pub struct Topic {
    pub(crate) id: Id,
    pub(crate) resource_id: String,
    pub(crate) resource_type: String,
    pub(crate) properties: TopicProperties,
}

/// What a [`Topic`] holds.
pub struct TopicView {
    pub id: Id,
    pub resource_id: String,
    pub resource_type: String,
    pub properties: TopicProperties,
}

impl View for Topic {
    type V = TopicView;

    open(crate) spec fn view(&self) -> TopicView {
        TopicView {
            id: self.id,
            resource_id: self.resource_id,
            resource_type: self.resource_type,
            properties: self.properties,
        }
    }
}

impl Topic {
    pub fn get_id(&self) -> (r: &Id)
        ensures
            *r == self@.id,
    {
        &self.id
    }

    pub fn get_resource_id(&self) -> (r: &str)
        ensures
            r@ == self@.resource_id@,
    {
        self.resource_id.as_str()
    }

    pub fn get_type(&self) -> (r: &str)
        ensures
            r@ == self@.resource_type@,
    {
        self.resource_type.as_str()
    }
}

/// The properties of an SNS topic.
pub struct TopicProperties {
    pub(crate) archive_policy: Option<Value>,
    pub(crate) content_based_deduplication: Option<bool>,
    pub(crate) delivery_status_logging: Option<LoggingConfig>,
    pub(crate) display_name: Option<String>,
    pub(crate) fifo_topic: Option<bool>,
    pub(crate) fifo_throughput_scope: Option<String>,
    pub(crate) kms_master_key_id: Option<Value>,
    pub(crate) topic_name: Option<String>,
    pub(crate) tracing_config: Option<String>,
}

/// What a [`TopicProperties`] holds.
pub struct TopicPropertiesView {
    pub archive_policy: Option<Value>,
    pub content_based_deduplication: Option<bool>,
    pub delivery_status_logging: Option<LoggingConfig>,
    pub display_name: Option<String>,
    pub fifo_topic: Option<bool>,
    pub fifo_throughput_scope: Option<String>,
    pub kms_master_key_id: Option<Value>,
    pub topic_name: Option<String>,
    pub tracing_config: Option<String>,
}

impl View for TopicProperties {
    type V = TopicPropertiesView;

    open(crate) spec fn view(&self) -> TopicPropertiesView {
        TopicPropertiesView {
            archive_policy: self.archive_policy,
            content_based_deduplication: self.content_based_deduplication,
            delivery_status_logging: self.delivery_status_logging,
            display_name: self.display_name,
            fifo_topic: self.fifo_topic,
            fifo_throughput_scope: self.fifo_throughput_scope,
            kms_master_key_id: self.kms_master_key_id,
            topic_name: self.topic_name,
            tracing_config: self.tracing_config,
        }
    }
}

/// How deliveries of a protocol are logged.
pub struct LoggingConfig {
    pub(crate) failure_feedback_role_arn: Option<Value>,
    pub(crate) protocol: String,
    pub(crate) success_feedback_role_arn: Option<Value>,
    pub(crate) success_feedback_sample_rate: Option<u8>,
}

/// What a [`LoggingConfig`] holds.
pub struct LoggingConfigView {
    pub failure_feedback_role_arn: Option<Value>,
    pub protocol: String,
    pub success_feedback_role_arn: Option<Value>,
    pub success_feedback_sample_rate: Option<u8>,
}

impl View for LoggingConfig {
    type V = LoggingConfigView;

    open(crate) spec fn view(&self) -> LoggingConfigView {
        LoggingConfigView {
            failure_feedback_role_arn: self.failure_feedback_role_arn,
            protocol: self.protocol,
            success_feedback_role_arn: self.success_feedback_role_arn,
            success_feedback_sample_rate: self.success_feedback_sample_rate,
        }
    }
}

/// An SNS topic policy resource.
pub struct TopicPolicy {
    pub(crate) id: Id,
    pub(crate) resource_id: String,
    pub(crate) resource_type: String,
    pub(crate) properties: TopicPolicyProperties,
}

/// What a [`TopicPolicy`] holds.
pub struct TopicPolicyView {
    pub id: Id,
    pub resource_id: String,
    pub resource_type: String,
    pub properties: TopicPolicyProperties,
}

impl View for TopicPolicy {
    type V = TopicPolicyView;

    open(crate) spec fn view(&self) -> TopicPolicyView {
        TopicPolicyView {
            id: self.id,
            resource_id: self.resource_id,
            resource_type: self.resource_type,
            properties: self.properties,
        }
    }
}

impl TopicPolicy {
    pub fn get_id(&self) -> (r: &Id)
        ensures
            *r == self@.id,
    {
        &self.id
    }

    pub fn get_resource_id(&self) -> (r: &str)
        ensures
            r@ == self@.resource_id@,
    {
        self.resource_id.as_str()
    }

    pub fn get_type(&self) -> (r: &str)
        ensures
            r@ == self@.resource_type@,
    {
        self.resource_type.as_str()
    }
}

/// The properties of a topic policy: its document and the topics it applies to.
pub struct TopicPolicyProperties {
    pub(crate) doc: PolicyDocument,
    pub(crate) topics: Vec<Value>,
}

/// What a [`TopicPolicyProperties`] holds.
pub struct TopicPolicyPropertiesView {
    pub doc: PolicyDocument,
    pub topics: Vec<Value>,
}

impl View for TopicPolicyProperties {
    type V = TopicPolicyPropertiesView;

    open(crate) spec fn view(&self) -> TopicPolicyPropertiesView {
        TopicPolicyPropertiesView {
            doc: self.doc,
            topics: self.topics,
        }
    }
}

/// An SNS subscription resource.
pub struct Subscription {
    pub(crate) id: Id,
    pub(crate) resource_id: String,
    pub(crate) resource_type: String,
    pub(crate) properties: SnsSubscriptionProperties,
}

/// What a [`Subscription`] holds.
pub struct SubscriptionView {
    pub id: Id,
    pub resource_id: String,
    pub resource_type: String,
    pub properties: SnsSubscriptionProperties,
}

impl View for Subscription {
    type V = SubscriptionView;

    open(crate) spec fn view(&self) -> SubscriptionView {
        SubscriptionView {
            id: self.id,
            resource_id: self.resource_id,
            resource_type: self.resource_type,
            properties: self.properties,
        }
    }
}

impl Subscription {
    pub fn get_id(&self) -> (r: &Id)
        ensures
            *r == self@.id,
    {
        &self.id
    }

    pub fn get_resource_id(&self) -> (r: &str)
        ensures
            r@ == self@.resource_id@,
    {
        self.resource_id.as_str()
    }

    pub fn get_type(&self) -> (r: &str)
        ensures
            r@ == self@.resource_type@,
    {
        self.resource_type.as_str()
    }
}

/// The properties of a subscription: the endpoint, its protocol and the topic.
pub struct SnsSubscriptionProperties {
    pub(crate) endpoint: Value,
    pub(crate) protocol: String,
    pub(crate) topic_arn: Value,
}

/// What a [`SnsSubscriptionProperties`] holds.
pub struct SnsSubscriptionPropertiesView {
    pub endpoint: Value,
    pub protocol: String,
    pub topic_arn: Value,
}

impl View for SnsSubscriptionProperties {
    type V = SnsSubscriptionPropertiesView;

    open(crate) spec fn view(&self) -> SnsSubscriptionPropertiesView {
        SnsSubscriptionPropertiesView {
            endpoint: self.endpoint,
            protocol: self.protocol,
            topic_arn: self.topic_arn,
        }
    }
}

} // verus!
