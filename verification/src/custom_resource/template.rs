//! How the module's resources appear in a CloudFormation template.
use crate::custom_resource::{BucketNotification, BucketNotificationProperties, LambdaFunctionConfiguration, NotificationConfiguration, QueueConfiguration, TopicConfiguration};
use crate::json::{member, opt_member, push_json, push_opt_json, JsonView, ToJson, Value};
use vstd::prelude::*;

verus! {

impl ToJson for BucketNotification {
    open(crate) spec fn as_json(&self) -> JsonView {
        JsonView::Object(
            Seq::empty()
                + member("Type"@, &self.resource_type)
                + member("Properties"@, &self.properties),
        )
    }

    fn to_json(&self) -> (r: Value) {
        let mut members: Vec<(String, Value)> = Vec::new();
        push_json(&mut members, "Type", &self.resource_type);
        push_json(&mut members, "Properties", &self.properties);
        Value::Object(members)
    }
}

impl ToJson for BucketNotificationProperties {
    open(crate) spec fn as_json(&self) -> JsonView {
        JsonView::Object(
            Seq::empty()
                + member("ServiceToken"@, &self.service_token)
                + member("BucketName"@, &self.bucket_name)
                + member("Managed"@, &self.managed)
                + member("SkipDestinationValidation"@, &self.skip_destination_validation)
                + member("NotificationConfiguration"@, &self.notification_configuration)
                + opt_member("DependsOn"@, &self.depends_on),
        )
    }

    fn to_json(&self) -> (r: Value) {
        let mut members: Vec<(String, Value)> = Vec::new();
        push_json(&mut members, "ServiceToken", &self.service_token);
        push_json(&mut members, "BucketName", &self.bucket_name);
        push_json(&mut members, "Managed", &self.managed);
        push_json(&mut members, "SkipDestinationValidation", &self.skip_destination_validation);
        push_json(&mut members, "NotificationConfiguration", &self.notification_configuration);
        push_opt_json(&mut members, "DependsOn", &self.depends_on);
        Value::Object(members)
    }
}

impl ToJson for NotificationConfiguration {
    open(crate) spec fn as_json(&self) -> JsonView {
        JsonView::Object(
            Seq::empty()
                + opt_member("LambdaFunctionConfigurations"@, &self.lambda_configs)
                + opt_member("TopicConfigurations"@, &self.topic_configs)
                + opt_member("QueueConfigurations"@, &self.queue_configs),
        )
    }

    fn to_json(&self) -> (r: Value) {
        let mut members: Vec<(String, Value)> = Vec::new();
        push_opt_json(&mut members, "LambdaFunctionConfigurations", &self.lambda_configs);
        push_opt_json(&mut members, "TopicConfigurations", &self.topic_configs);
        push_opt_json(&mut members, "QueueConfigurations", &self.queue_configs);
        Value::Object(members)
    }
}

impl ToJson for LambdaFunctionConfiguration {
    open(crate) spec fn as_json(&self) -> JsonView {
        JsonView::Object(
            Seq::empty()
                + member("Events"@, &self.events)
                + member("LambdaFunctionArn"@, &self.arn),
        )
    }

    fn to_json(&self) -> (r: Value) {
        let mut members: Vec<(String, Value)> = Vec::new();
        push_json(&mut members, "Events", &self.events);
        push_json(&mut members, "LambdaFunctionArn", &self.arn);
        Value::Object(members)
    }
}

impl ToJson for TopicConfiguration {
    open(crate) spec fn as_json(&self) -> JsonView {
        JsonView::Object(
            Seq::empty()
                + member("Events"@, &self.events)
                + member("TopicArn"@, &self.arn),
        )
    }

    fn to_json(&self) -> (r: Value) {
        let mut members: Vec<(String, Value)> = Vec::new();
        push_json(&mut members, "Events", &self.events);
        push_json(&mut members, "TopicArn", &self.arn);
        Value::Object(members)
    }
}

impl ToJson for QueueConfiguration {
    open(crate) spec fn as_json(&self) -> JsonView {
        JsonView::Object(
            Seq::empty()
                + member("Events"@, &self.events)
                + member("QueueArn"@, &self.arn),
        )
    }

    fn to_json(&self) -> (r: Value) {
        let mut members: Vec<(String, Value)> = Vec::new();
        push_json(&mut members, "Events", &self.events);
        push_json(&mut members, "QueueArn", &self.arn);
        Value::Object(members)
    }
}

} // verus!
