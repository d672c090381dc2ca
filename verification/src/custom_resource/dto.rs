use crate::json::Value;
use crate::shared::{arn_json, clone_opt, opt_view, ref_json, Id, RefView, RefWithIdView};
use crate::intrinsic::{get_arn, get_att, get_att_json, get_ref, string_value};

use vstd::prelude::*;

verus! {

/// A reference to a resource, which other resources use to depend on it.
pub struct BucketNotificationRef {
    pub(crate) resource_id: String,
    pub(crate) ref_name: Option<String>,
    pub(crate) arn_value: Option<String>,
}

impl View for BucketNotificationRef {
    type V = RefView;

    open(crate) spec fn view(&self) -> RefView {
        RefView {
            resource_id: self.resource_id@,
            ref_name: opt_view(self.ref_name),
            arn_value: opt_view(self.arn_value),
        }
    }
}

impl BucketNotificationRef {
    pub(crate) fn internal_new(resource_id: String) -> (r: Self)
        ensures
            r@ == (RefView { resource_id: resource_id@, ref_name: None, arn_value: None }),
    {
        Self { resource_id, ref_name: None, arn_value: None }
    }

    /// A reference to a resource that exists outside the stack.
    pub fn new(resource_id: &str, ref_name: &str, arn_value: &str) -> (r: Self)
        ensures
            r@ == (RefView { resource_id: resource_id@, ref_name: Some(ref_name@), arn_value: Some(arn_value@) }),
    {
        Self {
            resource_id: String::from_str(resource_id),
            ref_name: Some(String::from_str(ref_name)),
            arn_value: Some(String::from_str(arn_value)),
        }
    }

    pub(crate) fn get_resource_id(&self) -> (r: &str)
        ensures
            r@ == self@.resource_id,
    {
        self.resource_id.as_str()
    }

    /// What `Ref` gives for the resource: the name it was imported with, or the intrinsic function.
    pub fn get_ref(&self) -> (r: Value)
        ensures
            r@ == ref_json(self@.resource_id, self@.ref_name),
    {
        match &self.ref_name {
            Some(val) => string_value(val.as_str()),
            None => get_ref(self.resource_id.as_str()),
        }
    }

    /// The ARN of the resource: the one it was imported with, or the intrinsic function.
    pub fn get_arn(&self) -> (r: Value)
        ensures
            r@ == arn_json(self@.resource_id, self@.arn_value),
    {
        match &self.arn_value {
            Some(val) => string_value(val.as_str()),
            None => get_arn(self.resource_id.as_str()),
        }
    }

    /// An attribute of the resource; not available for an imported resource.
    pub fn get_att(&self, id: &str) -> (r: Value)
        requires
            !(self@.ref_name is Some && self@.arn_value is Some),
        ensures
            r@ == get_att_json(self@.resource_id, id@),
    {
        get_att(self.resource_id.as_str(), id)
    }
}

impl Clone for BucketNotificationRef {
    fn clone(&self) -> (r: Self)
        ensures
            r@ == self@,
    {
        Self {
            resource_id: self.resource_id.clone(),
            ref_name: clone_opt(&self.ref_name),
            arn_value: clone_opt(&self.arn_value),
        }
    }
}

/// A custom resource that sets the notifications of a bucket.
pub struct BucketNotification {
    pub(crate) id: Id,
    pub(crate) resource_id: String,
    pub(crate) resource_type: String,
    pub(crate) properties: BucketNotificationProperties,
}

/// What a [`BucketNotification`] holds.
pub struct BucketNotificationView {
    pub id: Id,
    pub resource_id: String,
    pub resource_type: String,
    pub properties: BucketNotificationProperties,
}

impl View for BucketNotification {
    type V = BucketNotificationView;

    open(crate) spec fn view(&self) -> BucketNotificationView {
        BucketNotificationView {
            id: self.id,
            resource_id: self.resource_id,
            resource_type: self.resource_type,
            properties: self.properties,
        }
    }
}

impl BucketNotification {
    pub fn get_id(&self) -> (r: &Id)
        ensures
            *r == self@.id,
    {
        &self.id
    }

    pub fn get_resource_id(&self) -> (r: &str)
        ensures
            r@ == self@.resource_id@,
    {
        self.resource_id.as_str()
    }

    pub fn get_type(&self) -> (r: &str)
        ensures
            r@ == self@.resource_type@,
    {
        self.resource_type.as_str()
    }
}

/// The properties of the custom resource: the handler, the bucket and the notifications.
pub struct BucketNotificationProperties {
    pub(crate) service_token: Value,
    pub(crate) bucket_name: Value,
    pub(crate) managed: bool,
    pub(crate) skip_destination_validation: bool,
    pub(crate) notification_configuration: NotificationConfiguration,
    pub(crate) depends_on: Option<Vec<String>>,
}

/// What a [`BucketNotificationProperties`] holds.
pub struct BucketNotificationPropertiesView {
    pub service_token: Value,
    pub bucket_name: Value,
    pub managed: bool,
    pub skip_destination_validation: bool,
    pub notification_configuration: NotificationConfiguration,
    pub depends_on: Option<Vec<String>>,
}

impl View for BucketNotificationProperties {
    type V = BucketNotificationPropertiesView;

    open(crate) spec fn view(&self) -> BucketNotificationPropertiesView {
        BucketNotificationPropertiesView {
            service_token: self.service_token,
            bucket_name: self.bucket_name,
            managed: self.managed,
            skip_destination_validation: self.skip_destination_validation,
            notification_configuration: self.notification_configuration,
            depends_on: self.depends_on,
        }
    }
}

/// The notifications of a bucket, by kind of destination.
pub struct NotificationConfiguration {
    pub(crate) lambda_configs: Option<Vec<LambdaFunctionConfiguration>>,
    pub(crate) topic_configs: Option<Vec<TopicConfiguration>>,
    pub(crate) queue_configs: Option<Vec<QueueConfiguration>>,
}

/// What a [`NotificationConfiguration`] holds.
pub struct NotificationConfigurationView {
    pub lambda_configs: Option<Vec<LambdaFunctionConfiguration>>,
    pub topic_configs: Option<Vec<TopicConfiguration>>,
    pub queue_configs: Option<Vec<QueueConfiguration>>,
}

impl View for NotificationConfiguration {
    type V = NotificationConfigurationView;

    open(crate) spec fn view(&self) -> NotificationConfigurationView {
        NotificationConfigurationView {
            lambda_configs: self.lambda_configs,
            topic_configs: self.topic_configs,
            queue_configs: self.queue_configs,
        }
    }
}

/// A notification to a function: the events and the function.
pub struct LambdaFunctionConfiguration {
    pub(crate) events: Vec<String>,
    pub(crate) arn: Value,
}

/// What a [`LambdaFunctionConfiguration`] holds.
pub struct LambdaFunctionConfigurationView {
    pub events: Vec<String>,
    pub arn: Value,
}

impl View for LambdaFunctionConfiguration {
    type V = LambdaFunctionConfigurationView;

    open(crate) spec fn view(&self) -> LambdaFunctionConfigurationView {
        LambdaFunctionConfigurationView {
            events: self.events,
            arn: self.arn,
        }
    }
}

/// A notification to a topic: the events and the topic.
pub struct TopicConfiguration {
    pub(crate) events: Vec<String>,
    pub(crate) arn: Value,
}

/// What a [`TopicConfiguration`] holds.
pub struct TopicConfigurationView {
    pub events: Vec<String>,
    pub arn: Value,
}

impl View for TopicConfiguration {
    type V = TopicConfigurationView;

    open(crate) spec fn view(&self) -> TopicConfigurationView {
        TopicConfigurationView {
            events: self.events,
            arn: self.arn,
        }
    }
}

/// A notification to a queue: the events and the queue.
pub struct QueueConfiguration {
    pub(crate) events: Vec<String>,
    pub(crate) arn: Value,
}

/// What a [`QueueConfiguration`] holds.
pub struct QueueConfigurationView {
    pub events: Vec<String>,
    pub arn: Value,
}

impl View for QueueConfiguration {
    type V = QueueConfigurationView;

    open(crate) spec fn view(&self) -> QueueConfigurationView {
        QueueConfigurationView {
            events: self.events,
            arn: self.arn,
        }
    }
}

} // verus!
