use crate::custom_resource::{
    BucketNotification, BucketNotificationProperties, BucketNotificationRef, LambdaFunctionConfiguration,
    NotificationConfiguration, QueueConfiguration, TopicConfiguration,
};
use crate::json::Value;
use crate::shared::Id;
use crate::stack::{is_generated_id, Resource, StackBuilder, StackBuilderView};
use crate::text::views;
use vstd::prelude::*;

verus! {

/// The code of the function that sets a bucket's notifications when CloudFormation asks it to.
pub(crate) const BUCKET_NOTIFICATION_HANDLER_CODE: &'static str = r#"import boto3  # type: ignore
import json
import logging
import urllib.request

s3 = boto3.client("s3")

EVENTBRIDGE_CONFIGURATION = 'EventBridgeConfiguration'
CONFIGURATION_TYPES = ["TopicConfigurations", "QueueConfigurations", "LambdaFunctionConfigurations"]

def handler(event: dict, context):
  response_status = "SUCCESS"
  error_message = ""
  try:
    props = event["ResourceProperties"]
    notification_configuration = props["NotificationConfiguration"]
    managed = props.get('Managed', 'true').lower() == 'true'
    skipDestinationValidation = props.get('SkipDestinationValidation', 'false').lower() == 'true'
    stack_id = event['StackId']
    old = event.get("OldResourceProperties", {}).get("NotificationConfiguration", {})
    if managed:
      config = handle_managed(event["RequestType"], notification_configuration)
    else:
      config = handle_unmanaged(props["BucketName"], stack_id, event["RequestType"], notification_configuration, old)
    s3.put_bucket_notification_configuration(Bucket=props["BucketName"], NotificationConfiguration=config, SkipDestinationValidation=skipDestinationValidation)
  except Exception as e:
    logging.exception("Failed to put bucket notification configuration")
    response_status = "FAILED"
    error_message = f"Error: {str(e)}. "
  finally:
    submit_response(event, context, response_status, error_message)

def handle_managed(request_type, notification_configuration):
  if request_type == 'Delete':
    return {}
  return notification_configuration

def handle_unmanaged(bucket, stack_id, request_type, notification_configuration, old):
  def get_id(n):
    n['Id'] = ''
    sorted_notifications = sort_filter_rules(n)
    strToHash=json.dumps(sorted_notifications, sort_keys=True).replace('"Name": "prefix"', '"Name": "Prefix"').replace('"Name": "suffix"', '"Name": "Suffix"')
    return f"{stack_id}-{hash(strToHash)}"
  def with_id(n):
    n['Id'] = get_id(n)
    return n

  external_notifications = {}
  existing_notifications = s3.get_bucket_notification_configuration(Bucket=bucket)
  for t in CONFIGURATION_TYPES:
    if request_type == 'Update':
        old_incoming_ids = [get_id(n) for n in old.get(t, [])]
        external_notifications[t] = [n for n in existing_notifications.get(t, []) if not get_id(n) in old_incoming_ids]      
    elif request_type == 'Delete':
        external_notifications[t] = [n for n in existing_notifications.get(t, []) if not n['Id'].startswith(f"{stack_id}-")]
    elif request_type == 'Create':
        external_notifications[t] = [n for n in existing_notifications.get(t, [])]
  if EVENTBRIDGE_CONFIGURATION in existing_notifications:
    external_notifications[EVENTBRIDGE_CONFIGURATION] = existing_notifications[EVENTBRIDGE_CONFIGURATION]

  if request_type == 'Delete':
    return external_notifications

  notifications = {}
  for t in CONFIGURATION_TYPES:
    external = external_notifications.get(t, [])
    incoming = [with_id(n) for n in notification_configuration.get(t, [])]
    notifications[t] = external + incoming

  if EVENTBRIDGE_CONFIGURATION in notification_configuration:
    notifications[EVENTBRIDGE_CONFIGURATION] = notification_configuration[EVENTBRIDGE_CONFIGURATION]
  elif EVENTBRIDGE_CONFIGURATION in external_notifications:
    notifications[EVENTBRIDGE_CONFIGURATION] = external_notifications[EVENTBRIDGE_CONFIGURATION]

  return notifications

def submit_response(event: dict, context, response_status: str, error_message: str):
  response_body = json.dumps(
    {
      "Status": response_status,
      "Reason": f"{error_message}See the details in CloudWatch Log Stream: {context.log_stream_name}",
      "PhysicalResourceId": event.get("PhysicalResourceId") or event["LogicalResourceId"],
      "StackId": event["StackId"],
      "RequestId": event["RequestId"],
      "LogicalResourceId": event["LogicalResourceId"],
      "NoEcho": False,
    }
  ).encode("utf-8")
  headers = {"content-type": "", "content-length": str(len(response_body))}
  try:
    req = urllib.request.Request(url=event["ResponseURL"], headers=headers, data=response_body, method="PUT")
    with urllib.request.urlopen(req) as response:
      print(response.read().decode("utf-8"))
    print("Status code: " + response.reason)
  except Exception as e:
      print("send(..) failed executing request.urlopen(..): " + str(e))

def sort_filter_rules(json_obj):
  if not isinstance(json_obj, dict):
      return json_obj
  for key, value in json_obj.items():
      if isinstance(value, dict):
          json_obj[key] = sort_filter_rules(value)
      elif isinstance(value, list):
          json_obj[key] = [sort_filter_rules(item) for item in value]
  if "Filter" in json_obj and "Key" in json_obj["Filter"] and "FilterRules" in json_obj["Filter"]["Key"]:
      filter_rules = json_obj["Filter"]["Key"]["FilterRules"]
      sorted_filter_rules = sorted(filter_rules, key=lambda x: x["Name"])
      json_obj["Filter"]["Key"]["FilterRules"] = sorted_filter_rules
  return json_obj"#;

/// Builder for the custom resource that sets one notification of a bucket.
pub struct BucketNotificationBuilder {
    pub(crate) id: Id,
    pub(crate) handler_arn: Value,
    pub(crate) bucket_ref: Value,
    pub(crate) event: String,
    pub(crate) dependency: Option<Id>,
    pub(crate) lambda_arn: Option<Value>,
    pub(crate) sns_ref: Option<Value>,
    pub(crate) sqs_arn: Option<Value>,
}

/// What a [`BucketNotificationBuilder`] holds.
pub struct BucketNotificationBuilderView {
    pub id: Id,
    pub handler_arn: Value,
    pub bucket_ref: Value,
    pub event: String,
    pub dependency: Option<Id>,
    pub lambda_arn: Option<Value>,
    pub sns_ref: Option<Value>,
    pub sqs_arn: Option<Value>,
}

impl View for BucketNotificationBuilder {
    type V = BucketNotificationBuilderView;

    open(crate) spec fn view(&self) -> BucketNotificationBuilderView {
        BucketNotificationBuilderView {
            id: self.id,
            handler_arn: self.handler_arn,
            bucket_ref: self.bucket_ref,
            event: self.event,
            dependency: self.dependency,
            lambda_arn: self.lambda_arn,
            sns_ref: self.sns_ref,
            sqs_arn: self.sqs_arn,
        }
    }
}

/// `c` notifies of the event the destination of the builder state `b`: its function where it has
/// one, else its topic, else its queue; the other kinds stay empty.
pub open spec fn notification_configured(c: NotificationConfiguration, b: BucketNotificationBuilderView) -> bool {
    let c = c@;
    match b.lambda_arn {
        Some(arn) => {
            &&& c.lambda_configs matches Some(v) && v@.len() == 1 && v@[0]@.arn == arn && views(v@[0]@.events@) == seq![b.event@]
            &&& c.topic_configs is None
            &&& c.queue_configs is None
        },
        None => match b.sns_ref {
            Some(arn) => {
                &&& c.topic_configs matches Some(v) && v@.len() == 1 && v@[0]@.arn == arn && views(v@[0]@.events@) == seq![b.event@]
                &&& c.lambda_configs is None
                &&& c.queue_configs is None
            },
            None => {
                &&& c.queue_configs matches Some(v) && v@.len() == 1 && v@[0]@.arn == b.sqs_arn.unwrap() && views(v@[0]@.events@) == seq![b.event@]
                &&& c.lambda_configs is None
                &&& c.topic_configs is None
            },
        },
    }
}

impl BucketNotificationBuilder {
    /// A notification of `event` for the bucket, set by the handler; it waits for the resource
    /// `dependency`, where one is given.
    pub(crate) fn new(id: &str, handler_arn: Value, bucket_ref: Value, event: String, dependency: Option<Id>) -> (r: Self)
        ensures
            r@.id.0@ == id@,
            r@.handler_arn == handler_arn,
            r@.bucket_ref == bucket_ref,
            r@.event == event,
            r@.dependency == dependency,
            r@.lambda_arn is None,
            r@.sns_ref is None,
            r@.sqs_arn is None,
    {
        Self {
            id: Id(String::from_str(id)),
            handler_arn,
            bucket_ref,
            event,
            dependency,
            lambda_arn: None,
            sns_ref: None,
            sqs_arn: None,
        }
    }

    /// Sends the notification to a function.
    pub(crate) fn lambda(self, arn: Value) -> (r: Self)
        ensures
            r@ == (BucketNotificationBuilderView { lambda_arn: Some(arn), ..self@ }),
    {
        Self { lambda_arn: Some(arn), ..self }
    }

    /// Sends the notification to a topic.
    pub(crate) fn sns(self, reference: Value) -> (r: Self)
        ensures
            r@ == (BucketNotificationBuilderView { sns_ref: Some(reference), ..self@ }),
    {
        Self { sns_ref: Some(reference), ..self }
    }

    /// Sends the notification to a queue.
    pub(crate) fn sqs(self, arn: Value) -> (r: Self)
        ensures
            r@ == (BucketNotificationBuilderView { sqs_arn: Some(arn), ..self@ }),
    {
        Self { sqs_arn: Some(arn), ..self }
    }

    /// Adds the custom resource that sets the notification.
    pub(crate) fn build(self, stack_builder: &mut StackBuilder) -> (r: BucketNotificationRef)
        requires
            self@.lambda_arn is Some || self@.sns_ref is Some || self@.sqs_arn is Some,
        ensures
            final(stack_builder)@ == (StackBuilderView {
                resources: old(stack_builder)@.resources.push(final(stack_builder)@.resources.last()),
                ..old(stack_builder)@
            }),
            final(stack_builder)@.resources.last() matches Resource::BucketNotification(n) && {
                let p = n@.properties@;
                &&& n@.id == self@.id
                &&& n@.resource_id@ == r@.resource_id
                &&& n@.resource_type@ == "Custom::S3BucketNotifications"@
                &&& p.service_token == self@.handler_arn
                &&& p.bucket_name == self@.bucket_ref
                &&& p.managed
                &&& !p.skip_destination_validation
                &&& notification_configured(p.notification_configuration, self@)
                &&& match self@.dependency {
                    Some(d) => p.depends_on matches Some(v) && views(v@) == seq![d.0@],
                    None => p.depends_on is None,
                }
            },
            is_generated_id(r@.resource_id, "BucketNotification"@),
            r@.ref_name is None,
            r@.arn_value is None,
    {
        let ghost b = self@;
        let resource_id = Resource::generate_id("BucketNotification");
        let bucket_notification_ref = BucketNotificationRef::internal_new(resource_id.clone());
        let mut events: Vec<String> = Vec::new();
        events.push(self.event);
        assert(views(events@) =~= seq![b.event@]);
        let config = match self.lambda_arn {
            Some(arn) => {
                let mut configs = Vec::new();
                configs.push(LambdaFunctionConfiguration { events, arn });
                NotificationConfiguration { lambda_configs: Some(configs), topic_configs: None, queue_configs: None }
            },
            None => match self.sns_ref {
                Some(arn) => {
                    let mut configs = Vec::new();
                    configs.push(TopicConfiguration { events, arn });
                    NotificationConfiguration { topic_configs: Some(configs), lambda_configs: None, queue_configs: None }
                },
                None => {
                    let arn = match self.sqs_arn {
                        Some(arn) => arn,
                        None => {
                            assert(false);
                            Value::Null
                        },
                    };
                    let mut configs = Vec::new();
                    configs.push(QueueConfiguration { events, arn });
                    NotificationConfiguration { queue_configs: Some(configs), lambda_configs: None, topic_configs: None }
                },
            },
        };
        let depends_on = match self.dependency {
            Some(d) => {
                let mut v: Vec<String> = Vec::new();
                v.push(d.to_string());
                assert(views(v@) =~= seq![b.dependency.unwrap().0@]);
                Some(v)
            },
            None => None,
        };
        stack_builder.add_resource(
            Resource::BucketNotification(
                BucketNotification {
                    id: self.id,
                    resource_id,
                    resource_type: String::from_str("Custom::S3BucketNotifications"),
                    properties: BucketNotificationProperties {
                        notification_configuration: config,
                        service_token: self.handler_arn,
                        bucket_name: self.bucket_ref,
                        managed: true,
                        skip_destination_validation: false,
                        depends_on,
                    },
                },
            ),
        );
        bucket_notification_ref
    }
}

} // verus!
