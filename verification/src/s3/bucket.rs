use crate::custom_resource::{BucketNotificationBuilder, BUCKET_NOTIFICATION_HANDLER_CODE};
use crate::iam::{
    CustomPermission, Effect, Permission, PolicyDocumentBuilder, Principal, PrincipalBuilder, Statement,
    StatementBuilder,
};
use crate::intrinsic::{get_arn_json, get_ref_json, join, join_json, single_member, string_value};
use crate::json::{json_views, JsonView, Value};
use crate::lambda::{Architecture, Code, FunctionBuilder, FunctionRef, PermissionBuilder, Runtime};
use crate::s3::{
    encryption_name, notification_event_type_name, versioning_configuration_name, AbacStatus, AccelerateConfiguration,
    AccelerationStatus, Bucket, BucketEncryption, BucketPolicyBuilder, BucketPolicyRef, BucketProperties, BucketRef,
    CorsConfiguration, Encryption, IntelligentTieringConfiguration, LifecycleConfiguration, MetadataConfiguration,
    NotificationEventType, PublicAccessBlockConfiguration, RedirectAllRequestsTo, ServerSideEncryptionByDefault,
    ServerSideEncryptionRule, VersioningConfig, VersioningConfiguration, WebsiteConfiguration,
};
use crate::shared::{
    deletion_policy_name, opt_view, protocol_name, update_replace_policy_name, DeletionPolicy, Id, Protocol,
    UpdateDeletePolicyDTO, UpdateReplacePolicy, QUEUE_POLICY_ID_SUFFIX, TOPIC_POLICY_ID_SUFFIX,
};
use crate::sns::{TopicPolicyBuilder, TopicRef};
use crate::sqs::{QueuePolicyBuilder, QueueRef};
use crate::stack::{is_generated_id, Resource, StackBuilder, StackBuilderView};
use crate::text::{concat2, concat3, decimal, push_decimal_usize, views};
use crate::wrappers::{BucketName, IamAction, LambdaPermissionAction, Memory, PolicyName, Timeout};
use std::marker::PhantomData;
use vstd::prelude::*;

verus! {

/// The destination of a notification of a bucket, with the event it is sent for.
pub enum NotificationDestination<'a> {
    Lambda(&'a FunctionRef, NotificationEventType),
    Sns(&'a TopicRef, NotificationEventType),
    Sqs(&'a QueueRef, NotificationEventType),
}

/// The states of a [`BucketBuilder`]: a plain bucket, or a website.
pub trait BucketBuilderState {}

pub struct StartState {}

pub struct WebsiteState {}

impl BucketBuilderState for StartState {}

impl BucketBuilderState for WebsiteState {}

/// Builder for S3 buckets, optionally serving a website, with notifications to functions,
/// topics and queues.
pub struct BucketBuilder<T: BucketBuilderState> {
    pub(crate) phantom_data: PhantomData<T>,
    pub(crate) id: Id,
    pub(crate) abac_status: Option<String>,
    pub(crate) acceleration_status: Option<String>,
    pub(crate) name: Option<String>,
    pub(crate) access: Option<PublicAccessBlockConfiguration>,
    pub(crate) intelligent_tiering_configurations: Option<Vec<IntelligentTieringConfiguration>>,
    pub(crate) metadata_configuration: Option<MetadataConfiguration>,
    pub(crate) versioning_configuration: Option<VersioningConfiguration>,
    pub(crate) lifecycle_configuration: Option<LifecycleConfiguration>,
    pub(crate) index_document: Option<String>,
    pub(crate) error_document: Option<String>,
    pub(crate) redirect_all_requests_to: Option<(String, Option<Protocol>)>,
    pub(crate) cors_config: Option<CorsConfiguration>,
    pub(crate) bucket_encryption: Option<Encryption>,
    pub(crate) bucket_notification_lambda_destinations: Vec<(Value, String)>,
    pub(crate) bucket_notification_sns_destinations: Vec<(Id, Value, String)>,
    pub(crate) bucket_notification_sqs_destinations: Vec<(Id, Value, Value, String)>,
    pub(crate) deletion_policy: Option<String>,
    pub(crate) update_replace_policy: Option<String>,
}

/// What a [`BucketBuilder`] holds; the notification destinations as (function ARN, event),
/// (topic id, topic reference, event) and (queue id, queue reference, queue ARN, event).
pub struct BucketBuilderView {
    pub id: Id,
    pub abac_status: Option<String>,
    pub acceleration_status: Option<String>,
    pub name: Option<String>,
    pub access: Option<PublicAccessBlockConfiguration>,
    pub intelligent_tiering_configurations: Option<Vec<IntelligentTieringConfiguration>>,
    pub metadata_configuration: Option<MetadataConfiguration>,
    pub versioning_configuration: Option<VersioningConfiguration>,
    pub lifecycle_configuration: Option<LifecycleConfiguration>,
    pub index_document: Option<String>,
    pub error_document: Option<String>,
    pub redirect_all_requests_to: Option<(String, Option<Protocol>)>,
    pub cors_config: Option<CorsConfiguration>,
    pub bucket_encryption: Option<Encryption>,
    pub lambda_destinations: Seq<(JsonView, Seq<char>)>,
    pub sns_destinations: Seq<(Seq<char>, JsonView, Seq<char>)>,
    pub sqs_destinations: Seq<(Seq<char>, JsonView, JsonView, Seq<char>)>,
    pub deletion_policy: Option<String>,
    pub update_replace_policy: Option<String>,
}

/// The views of the destinations to functions.
pub open spec fn lambda_destination_views(s: Seq<(Value, String)>) -> Seq<(JsonView, Seq<char>)> {
    s.map_values(|d: (Value, String)| (d.0@, d.1@))
}

/// The views of the destinations to topics.
pub open spec fn sns_destination_views(s: Seq<(Id, Value, String)>) -> Seq<(Seq<char>, JsonView, Seq<char>)> {
    s.map_values(|d: (Id, Value, String)| (d.0.0@, d.1@, d.2@))
}

/// The views of the destinations to queues.
pub open spec fn sqs_destination_views(s: Seq<(Id, Value, Value, String)>) -> Seq<(Seq<char>, JsonView, JsonView, Seq<char>)> {
    s.map_values(|d: (Id, Value, Value, String)| (d.0.0@, d.1@, d.2@, d.3@))
}

impl<T: BucketBuilderState> View for BucketBuilder<T> {
    type V = BucketBuilderView;

    open(crate) spec fn view(&self) -> BucketBuilderView {
        BucketBuilderView {
            id: self.id,
            abac_status: self.abac_status,
            acceleration_status: self.acceleration_status,
            name: self.name,
            access: self.access,
            intelligent_tiering_configurations: self.intelligent_tiering_configurations,
            metadata_configuration: self.metadata_configuration,
            versioning_configuration: self.versioning_configuration,
            lifecycle_configuration: self.lifecycle_configuration,
            index_document: self.index_document,
            error_document: self.error_document,
            redirect_all_requests_to: self.redirect_all_requests_to,
            cors_config: self.cors_config,
            bucket_encryption: self.bucket_encryption,
            lambda_destinations: lambda_destination_views(self.bucket_notification_lambda_destinations@),
            sns_destinations: sns_destination_views(self.bucket_notification_sns_destinations@),
            sqs_destinations: sqs_destination_views(self.bucket_notification_sqs_destinations@),
            deletion_policy: self.deletion_policy,
            update_replace_policy: self.update_replace_policy,
        }
    }
}

/// The public access block a website gets where none was given: public policies are allowed,
/// public ACLs are not.
pub open spec fn website_access(a: PublicAccessBlockConfiguration) -> bool {
    a@ == (crate::s3::PublicAccessBlockConfigurationView {
        block_public_acls: Some(true),
        block_public_policy: Some(false),
        ignore_public_acls: Some(true),
        restrict_public_buckets: Some(false),
    })
}

/// `bk` is the bucket that the builder state `b` describes, with logical id `resource_id`.
pub open spec fn bucket_made_by(bk: Bucket, b: BucketBuilderView, website: bool, resource_id: Seq<char>) -> bool {
    let p = bk@.properties@;
    &&& bk@.id == b.id
    &&& bk@.resource_id@ == resource_id
    &&& bk@.resource_type@ == "AWS::S3::Bucket"@
    &&& p.abac_status == b.abac_status
    &&& match b.acceleration_status {
        Some(s) => p.accelerate_configuration matches Some(c) && c@.acceleration_status == s,
        None => p.accelerate_configuration is None,
    }
    &&& p.bucket_name == b.name
    &&& p.cors_configuration == b.cors_config
    &&& p.intelligent_tiering_configurations == b.intelligent_tiering_configurations
    &&& p.lifecycle_configuration == b.lifecycle_configuration
    &&& p.metadata_configuration == b.metadata_configuration
    &&& if b.access is None && website {
        p.public_access_block_configuration matches Some(a) && website_access(a)
    } else {
        p.public_access_block_configuration == b.access
    }
    &&& match b.versioning_configuration {
        Some(v) => p.versioning_configuration matches Some(c) && c@.status@ == versioning_configuration_name(v),
        None => p.versioning_configuration is None,
    }
    &&& if website {
        p.website_configuration matches Some(w) && {
            &&& w@.index_document == b.index_document
            &&& w@.error_document == b.error_document
            &&& match b.redirect_all_requests_to {
                Some(r) => w@.redirect_all_requests_to matches Some(x) && x@.host_name == r.0 && opt_view(x@.protocol) == (
                match r.1 {
                    Some(pr) => Some(protocol_name(pr)),
                    None => None,
                }),
                None => w@.redirect_all_requests_to is None,
            }
        }
    } else {
        p.website_configuration is None
    }
    &&& match b.bucket_encryption {
        Some(e) => p.bucket_encryption matches Some(enc) && enc@.server_side_encryption_configuration@.len() == 1 && {
            let rule = enc@.server_side_encryption_configuration@[0]@;
            &&& rule.server_side_encryption_by_default@.sse_algorithm@ == encryption_name(e)
            &&& rule.server_side_encryption_by_default@.kms_master_key_id is None
            &&& rule.bucket_key_enabled is None
        },
        None => p.bucket_encryption is None,
    }
    &&& bk@.update_delete_policy_dto@.deletion_policy == b.deletion_policy
    &&& bk@.update_delete_policy_dto@.update_replace_policy == b.update_replace_policy
}

/// `p` is the policy that lets anyone read the objects of the website bucket `bucket`.
pub open spec fn website_policy_made(p: crate::s3::BucketPolicy, b: BucketBuilderView, bucket: Seq<char>) -> bool {
    let props = p@.properties@;
    let doc = props.policy_document@;
    &&& p@.id.0@ == b.id.0@ + "S3Policy"@
    &&& is_generated_id(p@.resource_id@, "S3BucketPolicy"@)
    &&& p@.resource_type@ == "AWS::S3::BucketPolicy"@
    &&& props.bucket_name@ == get_ref_json(bucket)
    &&& doc.version@ == crate::iam::policy_version()
    &&& doc.statements@.len() == 1
    &&& {
        let st = doc.statements@[0]@;
        &&& crate::text::views(st.action@) == seq!["s3:GetObject"@]
        &&& st.effect@ == "Allow"@
        &&& st.principal matches Some(Principal::Custom(c)) && c@ == "*"@
        &&& st.resource matches Some(res) && json_views(res@) == seq![
            join_json(""@, seq![get_arn_json(bucket), JsonView::String("/*"@)]),
        ]
        &&& st.condition is None
    }
}

/// A suffix that building the bucket `b` gives the ids of the resources it adds: none for the
/// bucket itself, one for the website policy, and for each notification its handler (with the handler's
/// role and log group), the permission or policy it needs, and the notification itself.
pub open spec fn bucket_created_suffix(b: BucketBuilderView, s: Seq<char>) -> bool {
    ||| s.len() == 0
    ||| s == "S3Policy"@
    ||| exists|i: nat| #![trigger decimal(i)] i < b.lambda_destinations.len() && {
        ||| s == "LambdaDestPerm"@ + decimal(i)
        ||| s == "Lambda"@ + "Handler"@ + decimal(i)
        ||| s == "Lambda"@ + "Handler"@ + decimal(i) + "Role"@
        ||| s == "Lambda"@ + "Handler"@ + decimal(i) + "LogGroup"@
        ||| s == "LambdaNotification"@ + decimal(i)
    }
    ||| exists|i: nat| #![trigger decimal(i)] i < b.sns_destinations.len() && {
        ||| s == "SNS"@ + "Handler"@ + decimal(i)
        ||| s == "SNS"@ + "Handler"@ + decimal(i) + "Role"@
        ||| s == "SNS"@ + "Handler"@ + decimal(i) + "LogGroup"@
        ||| s == "SNSDestinationPolicy"@ + decimal(i)
        ||| s == "SNSNotification"@ + decimal(i)
    }
    ||| exists|i: nat| #![trigger decimal(i)] i < b.sqs_destinations.len() && {
        ||| s == "SQS"@ + "Handler"@ + decimal(i)
        ||| s == "SQS"@ + "Handler"@ + decimal(i) + "Role"@
        ||| s == "SQS"@ + "Handler"@ + decimal(i) + "LogGroup"@
        ||| s == "SQSDestinationPolicy"@ + decimal(i)
        ||| s == "SQSNotification"@ + decimal(i)
    }
}

/// `id` is the id of a resource that building the bucket `b` adds.
pub open spec fn bucket_created_id(b: BucketBuilderView, id: Seq<char>) -> bool {
    exists|s: Seq<char>| #[trigger] bucket_created_suffix(b, s) && id == b.id.0@ + s
}

/// A resource stays what it was, but that a topic or queue policy may change its content; its
/// id stays the same.
pub open spec fn shape_kept(after: Resource, before: Resource) -> bool {
    &&& after.id_view() == before.id_view()
    &&& {
        ||| after == before
        ||| after is TopicPolicy && before is TopicPolicy
        ||| after is QueuePolicy && before is QueuePolicy
    }
}

/// The resources of `before` keep their places, ids and kinds in `after`, and those added
/// after them have ids that building the bucket `b` creates.
pub open spec fn notification_step(before: StackBuilderView, after: StackBuilderView, b: BucketBuilderView) -> bool {
    &&& after.tags == before.tags
    &&& after.outputs == before.outputs
    &&& after.resources.len() >= before.resources.len()
    &&& forall|j: int| 0 <= j < before.resources.len() ==> #[trigger] shape_kept(after.resources[j], before.resources[j])
    &&& forall|j: int| before.resources.len() <= j < after.resources.len() ==> #[trigger] bucket_created_id(
        b,
        after.resources[j].id_view(),
    )
}

/// Where a topic of a notification has its policy, that resource is a topic policy; where a
/// queue has, a queue policy; and building the bucket adds no resource with such an id.
pub open spec fn destination_policies_fit(resources: Seq<Resource>, b: BucketBuilderView) -> bool {
    &&& forall|i: int, j: int| 0 <= i < b.sns_destinations.len() && 0 <= j < resources.len()
        && #[trigger] resources[j].id_view() == #[trigger] b.sns_destinations[i].0 + TOPIC_POLICY_ID_SUFFIX@
        ==> resources[j] is TopicPolicy
    &&& forall|i: int, j: int| 0 <= i < b.sqs_destinations.len() && 0 <= j < resources.len()
        && #[trigger] resources[j].id_view() == #[trigger] b.sqs_destinations[i].0 + QUEUE_POLICY_ID_SUFFIX@
        ==> resources[j] is QueuePolicy
    &&& forall|i: int| 0 <= i < b.sns_destinations.len() ==> !bucket_created_id(
        b,
        #[trigger] b.sns_destinations[i].0 + TOPIC_POLICY_ID_SUFFIX@,
    )
    &&& forall|i: int| 0 <= i < b.sqs_destinations.len() ==> !bucket_created_id(
        b,
        #[trigger] b.sqs_destinations[i].0 + QUEUE_POLICY_ID_SUFFIX@,
    )
}

/// What building the bucket `b` does to the stack: the bucket first, the website policy next
/// where it is a website, then the resources of its notifications, which may also add a
/// statement to a policy that a destination topic or queue already has.
pub open spec fn bucket_resources_added(
    before: StackBuilderView,
    after: StackBuilderView,
    b: BucketBuilderView,
    website: bool,
    bucket: crate::shared::RefView,
    policy: Option<crate::shared::RefView>,
) -> bool {
    let n = before.resources.len() as int;
    let w = if website { 1int } else { 0int };
    &&& after.tags == before.tags
    &&& after.outputs == before.outputs
    &&& is_generated_id(bucket.resource_id, "S3Bucket"@)
    &&& bucket.ref_name is None && bucket.arn_value is None
    &&& after.resources.len() >= n + 1 + w
    &&& forall|j: int| 0 <= j < n ==> #[trigger] shape_kept(after.resources[j], before.resources[j])
    &&& after.resources[n] matches Resource::Bucket(bk) && bucket_made_by(bk, b, website, bucket.resource_id)
    &&& if website {
        &&& policy matches Some(p) && p.ref_name is None && p.arn_value is None && is_generated_id(p.resource_id, "S3BucketPolicy"@)
        &&& after.resources[n + 1] matches Resource::BucketPolicy(bp) && bp@.resource_id@ == policy.unwrap().resource_id
            && website_policy_made(bp, b, bucket.resource_id)
    } else {
        policy is None
    }
    &&& forall|j: int| n + 1 + w <= j < after.resources.len() ==> #[trigger] bucket_created_id(b, after.resources[j].id_view())
    &&& forall|j: int| 0 <= j < n && !destination_policy_id(b, before.resources[j].id_view()) ==> #[trigger] after.resources[j]
        == before.resources[j]
    &&& notifications_added(before.resources, after.resources, b, n + 1 + w, bucket)
}

/// `id` is the id of the policy of a topic or a queue that the bucket `b` notifies.
pub open spec fn destination_policy_id(b: BucketBuilderView, id: Seq<char>) -> bool {
    ||| exists|k: int| #![trigger b.sns_destinations[k]] 0 <= k < b.sns_destinations.len() && id == b.sns_destinations[k].0 + TOPIC_POLICY_ID_SUFFIX@
    ||| exists|k: int| #![trigger b.sqs_destinations[k]] 0 <= k < b.sqs_destinations.len() && id == b.sqs_destinations[k].0 + QUEUE_POLICY_ID_SUFFIX@
}

/// The topic of the `k`th notification to a topic has its policy among the resources.
pub open spec fn topic_has_policy(rs: Seq<Resource>, b: BucketBuilderView, k: int) -> bool {
    has_id(rs, b.sns_destinations[k].0 + TOPIC_POLICY_ID_SUFFIX@)
}

/// The queue of the `k`th notification to a queue has its policy among the resources.
pub open spec fn queue_has_policy(rs: Seq<Resource>, b: BucketBuilderView, k: int) -> bool {
    has_id(rs, b.sqs_destinations[k].0 + QUEUE_POLICY_ID_SUFFIX@)
}

/// How many resources the first `k` notifications to topics add, the stack holding `rs` before.
pub open spec fn topic_steps_len(rs: Seq<Resource>, b: BucketBuilderView, k: nat) -> int
    decreases k,
{
    if k == 0 {
        0
    } else {
        topic_steps_len(rs, b, (k - 1) as nat) + policy_step_count(topic_has_policy(rs, b, k - 1))
    }
}

/// How many resources the first `k` notifications to queues add, the stack holding `rs` before.
pub open spec fn queue_steps_len(rs: Seq<Resource>, b: BucketBuilderView, k: nat) -> int
    decreases k,
{
    if k == 0 {
        0
    } else {
        queue_steps_len(rs, b, (k - 1) as nat) + policy_step_count(queue_has_policy(rs, b, k - 1))
    }
}

/// The resources that the notifications of the bucket `b` add from position `base`, the stack
/// holding `before` when the bucket was built: for each function, in order, the resources of
/// [`lambda_block`]; then for each topic those of [`topic_block`]; then for each queue those of
/// [`queue_block`]; and nothing more.
pub open spec fn notifications_added(
    before: Seq<Resource>,
    after: Seq<Resource>,
    b: BucketBuilderView,
    base: int,
    bucket: crate::shared::RefView,
) -> bool {
    let l = b.lambda_destinations.len() as int;
    let topics_base = base + 5 * l;
    let queues_base = topics_base + topic_steps_len(before, b, b.sns_destinations.len());
    &&& after.len() == queues_base + queue_steps_len(before, b, b.sqs_destinations.len())
    &&& forall|k: int|
        #![trigger b.lambda_destinations[k]]
        0 <= k < l ==> lambda_block(
            after,
            base + 5 * k,
            b.id.0@,
            bucket,
            k as nat,
            b.lambda_destinations[k].0,
            b.lambda_destinations[k].1,
        )
    &&& forall|k: int|
        #![trigger b.sns_destinations[k]]
        0 <= k < b.sns_destinations.len() ==> topic_block(
            after,
            topics_base + topic_steps_len(before, b, k as nat),
            b.id.0@,
            bucket,
            k as nat,
            !topic_has_policy(before, b, k),
            b.sns_destinations[k].0 + TOPIC_POLICY_ID_SUFFIX@,
            b.sns_destinations[k].1,
            b.sns_destinations[k].2,
        )
    &&& forall|k: int|
        #![trigger b.sqs_destinations[k]]
        0 <= k < b.sqs_destinations.len() ==> queue_block(
            after,
            queues_base + queue_steps_len(before, b, k as nat),
            b.id.0@,
            bucket,
            k as nat,
            !queue_has_policy(before, b, k),
            b.sqs_destinations[k].0 + QUEUE_POLICY_ID_SUFFIX@,
            b.sqs_destinations[k].1,
            b.sqs_destinations[k].2,
            b.sqs_destinations[k].3,
        )
    &&& forall|k: int|
        #![trigger b.sns_destinations[k]]
        0 <= k < b.sns_destinations.len() && topic_has_policy(before, b, k) ==> topic_policy_allows(
            after,
            b.sns_destinations[k].0 + TOPIC_POLICY_ID_SUFFIX@,
            b.sns_destinations[k].1,
            crate::shared::arn_json(bucket.resource_id, bucket.arn_value),
        )
    &&& forall|k: int|
        #![trigger b.sqs_destinations[k]]
        0 <= k < b.sqs_destinations.len() && queue_has_policy(before, b, k) ==> queue_policy_allows(
            after,
            b.sqs_destinations[k].0 + QUEUE_POLICY_ID_SUFFIX@,
            b.sqs_destinations[k].2,
            crate::shared::arn_json(bucket.resource_id, bucket.arn_value),
        )
}

/// `x` is the id of a resource that the `i`th notification to a function adds.
pub open spec fn lambda_step_id(id: Seq<char>, i: nat, x: Seq<char>) -> bool {
    ||| x == id + ("LambdaDestPerm"@ + decimal(i))
    ||| x == id + ("Lambda"@ + "Handler"@ + decimal(i))
    ||| x == id + ("Lambda"@ + "Handler"@ + decimal(i)) + "Role"@
    ||| x == id + ("Lambda"@ + "Handler"@ + decimal(i)) + "LogGroup"@
    ||| x == id + ("LambdaNotification"@ + decimal(i))
}

/// `x` is the id of a resource that the `i`th notification to a topic (`kind` "SNS") or a
/// queue (`kind` "SQS") adds.
pub open spec fn policy_step_id(id: Seq<char>, kind: Seq<char>, policy: Seq<char>, notification: Seq<char>, i: nat, x: Seq<char>) -> bool {
    ||| x == id + (kind + "Handler"@ + decimal(i))
    ||| x == id + (kind + "Handler"@ + decimal(i)) + "Role"@
    ||| x == id + (kind + "Handler"@ + decimal(i)) + "LogGroup"@
    ||| x == id + (policy + decimal(i))
    ||| x == id + (notification + decimal(i))
}

/// `id` followed by `name` and the decimal digits of `i`.
fn numbered_id(id: &Id, name: &str, i: usize) -> (r: Id)
    ensures
        r.0@ == id.0@ + (name@ + decimal(i as nat)),
{
    let mut suffix = String::from_str(name);
    push_decimal_usize(&mut suffix, i);
    let r = Id::generate_id(id, suffix.as_str());
    assert(r.0@ =~= id.0@ + (name@ + decimal(i as nat)));
    r
}

/// Adds the function that sets the bucket's notifications for the `num`th destination of the
/// kind `target`: its role, its log group and the function.
fn notification_handler(id: &Id, target: &str, num: usize, stack_builder: &mut StackBuilder) -> (r: FunctionRef)
    ensures
        final(stack_builder)@.tags == old(stack_builder)@.tags,
        final(stack_builder)@.outputs == old(stack_builder)@.outputs,
        final(stack_builder)@.resources.len() == old(stack_builder)@.resources.len() + 3,
        final(stack_builder)@.resources.subrange(0, old(stack_builder)@.resources.len() as int) == old(stack_builder)@.resources,
        ({
            let n = old(stack_builder)@.resources.len() as int;
            let hid = id.0@ + (target@ + "Handler"@ + decimal(num as nat));
            &&& final(stack_builder)@.resources[n].id_view() == hid + "Role"@
            &&& final(stack_builder)@.resources[n + 1].id_view() == hid + "LogGroup"@
            &&& final(stack_builder)@.resources[n + 2].id_view() == hid
            &&& final(stack_builder)@.resources[n + 2] is Function
            &&& final(stack_builder)@.resources[n + 2].resource_id_view() == r@.resource_id
        }),
        r@.ref_name is None,
        r@.arn_value is None,
{
    let mut name = String::from_str(target);
    name.append("Handler");
    let handler_id = numbered_id(id, name.as_str(), num);
    assert(name@ + decimal(num as nat) =~= target@ + "Handler"@ + decimal(num as nat));
    let mut actions: Vec<IamAction> = Vec::new();
    actions.push(IamAction(String::from_str("s3:PutBucketNotification")));
    let statement = StatementBuilder::new(actions, Effect::Allow).all_resources().build();
    let permission = Permission::Custom(CustomPermission::new(PolicyName(String::from_str("NotificationPermission")), statement));
    let (handler, _, _) = FunctionBuilder::new(handler_id.0.as_str(), Architecture::X86_64, Memory(128), Timeout(300))
        .code(Code::Inline(String::from_str(BUCKET_NOTIFICATION_HANDLER_CODE)))
        .handler("index.handler")
        .runtime(Runtime::Python313)
        .add_permission(permission)
        .build(stack_builder);
    handler
}

/// The condition that a request comes from the bucket with the given ARN.
fn from_bucket_condition(bucket_arn: Value) -> (r: Value)
    ensures
        r@ == JsonView::Object(seq![("ArnLike"@, JsonView::Object(seq![("aws:SourceArn"@, bucket_arn@)]))]),
{
    single_member("ArnLike", single_member("aws:SourceArn", bucket_arn))
}

/// Adds what the `i`th notification to a function needs: a permission for S3 to invoke it, the
/// handler that sets the notification, and the notification.
fn add_lambda_notification(
    bucket_id: &Id,
    bucket: &BucketRef,
    i: usize,
    arn: Value,
    event: String,
    stack_builder: &mut StackBuilder,
)
    ensures
        final(stack_builder)@.tags == old(stack_builder)@.tags,
        final(stack_builder)@.outputs == old(stack_builder)@.outputs,
        final(stack_builder)@.resources.len() == old(stack_builder)@.resources.len() + 5,
        final(stack_builder)@.resources.subrange(0, old(stack_builder)@.resources.len() as int) == old(stack_builder)@.resources,
        forall|j: int| old(stack_builder)@.resources.len() <= j < final(stack_builder)@.resources.len() ==> lambda_step_id(
            bucket_id.0@,
            i as nat,
            #[trigger] final(stack_builder)@.resources[j].id_view(),
        ),
        lambda_block(
            final(stack_builder)@.resources,
            old(stack_builder)@.resources.len() as int,
            bucket_id.0@,
            bucket@,
            i as nat,
            arn@,
            event@,
        ),
{
    reveal(lambda_block);
    let ghost start = stack_builder@.resources;
    let ghost n = start.len() as int;
    let permission_id = numbered_id(bucket_id, "LambdaDestPerm", i);
    let permission = PermissionBuilder::new(
        permission_id.0.as_str(),
        LambdaPermissionAction(String::from_str("lambda:InvokeFunction")),
        arn.clone(),
        "s3.amazonaws.com",
    ).source_arn(bucket.get_arn()).current_account().build(stack_builder);
    let ghost after_permission = stack_builder@.resources;
    let handler = notification_handler(bucket_id, "Lambda", i, stack_builder);
    let ghost after_handler = stack_builder@.resources;
    let notification_id = numbered_id(bucket_id, "LambdaNotification", i);
    BucketNotificationBuilder::new(
        notification_id.0.as_str(),
        handler.get_arn(),
        bucket.get_ref(),
        event,
        Some(permission.get_id().clone()),
    ).lambda(arn).build(stack_builder);
    proof {
        let after = stack_builder@.resources;
        assert(after_permission.drop_last() =~= start);
        assert(after.drop_last() =~= after_handler);
        assert(after.subrange(0, n) =~= start) by {
            assert forall|j: int| 0 <= j < n implies after[j] == start[j] by {
                assert(after[j] == after_handler[j]);
                assert(after_handler.subrange(0, n + 1)[j] == after_permission[j]);
            }
        }
        assert(after_permission.last().id_view() == permission_id.0@);
        assert(after.last().id_view() == notification_id.0@);
        assert forall|j: int| n <= j < after.len() implies lambda_step_id(bucket_id.0@, i as nat, #[trigger] after[j].id_view()) by {
            if j == n {
                assert(after[j] == after_handler.subrange(0, n + 1)[j]);
                assert(after_handler.subrange(0, n + 1)[j] == after_permission[j]);
            } else if j < n + 4 {
                assert(after[j] == after_handler[j]);
            }
        }
    }
}

/// `s` lets S3 do the `actions` on `target`, for requests that come from the bucket with the ARN
/// `bucket_arn`.
pub open spec fn s3_access_statement(s: Statement, actions: Seq<Seq<char>>, target: JsonView, bucket_arn: JsonView) -> bool {
    let v = s@;
    &&& views(v.action@) == actions
    &&& v.effect@ == crate::iam::effect_name(Effect::Allow)
    &&& v.principal matches Some(Principal::Service(p)) && p@.service@ == "s3.amazonaws.com"@
    &&& v.resource matches Some(r) && json_views(r@) == seq![target]
    &&& v.condition matches Some(c) && c@ == JsonView::Object(
        seq![("ArnLike"@, JsonView::Object(seq![("aws:SourceArn"@, bucket_arn)]))],
    )
}

/// `j` is the position of the first of the resources with the id `id`.
pub open spec fn first_with_id(rs: Seq<Resource>, id: Seq<char>, j: int) -> bool {
    &&& 0 <= j < rs.len()
    &&& rs[j].id_view() == id
    &&& forall|k: int| 0 <= k < j ==> #[trigger] rs[k].id_view() != id
}

/// The handler of the `i`th notification of the kind `kind` stands at `n`, `n + 1` and `n + 2`:
/// its role, its log group and the function.
pub open spec fn handler_at(after: Seq<Resource>, n: int, bucket_id: Seq<char>, kind: Seq<char>, i: nat) -> bool {
    let hid = bucket_id + (kind + "Handler"@ + decimal(i));
    &&& after[n].id_view() == hid + "Role"@
    &&& after[n + 1].id_view() == hid + "LogGroup"@
    &&& after[n + 2] is Function
    &&& after[n + 2].id_view() == hid
}

/// `nt` is the notification with the id `id` of the bucket, set by the function `handler`, waiting
/// for the resource `dependency`.
pub open spec fn notification_made(
    nt: crate::custom_resource::BucketNotification,
    id: Seq<char>,
    bucket: crate::shared::RefView,
    handler: Resource,
    dependency: Seq<char>,
) -> bool {
    let p = nt@.properties@;
    &&& nt@.id.0@ == id
    &&& nt@.resource_type@ == "Custom::S3BucketNotifications"@
    &&& p.service_token@ == get_arn_json(handler.resource_id_view())
    &&& p.bucket_name@ == crate::shared::ref_json(bucket.resource_id, bucket.ref_name)
    &&& p.depends_on matches Some(d) && views(d@) == seq![dependency]
}

/// The resources that the `i`th notification to a function adds, from position `p`: the
/// permission that lets S3 invoke the function, the handler (role, log group, function), and the
/// notification of `event` to the function `arn`, which waits for the permission.
#[verifier::opaque]
pub open spec fn lambda_block(
    rs: Seq<Resource>,
    p: int,
    bucket_id: Seq<char>,
    bucket: crate::shared::RefView,
    i: nat,
    arn: JsonView,
    event: Seq<char>,
) -> bool {
    let permission = bucket_id + ("LambdaDestPerm"@ + decimal(i));
    &&& 0 <= p
    &&& p + 5 <= rs.len()
    &&& rs[p] is Permission
    &&& rs[p].id_view() == permission
    &&& handler_at(rs, p + 1, bucket_id, "Lambda"@, i)
    &&& rs[p + 4] matches Resource::BucketNotification(nt) && {
        let c = nt@.properties@.notification_configuration@;
        &&& notification_made(nt, bucket_id + ("LambdaNotification"@ + decimal(i)), bucket, rs[p + 3], permission)
        &&& c.lambda_configs matches Some(v) && v@.len() == 1 && v@[0]@.arn@ == arn && views(v@[0]@.events@) == seq![event]
        &&& c.topic_configs is None
        &&& c.queue_configs is None
    }
}

/// The number of resources that a notification to a topic or queue adds: 4 where its policy is
/// already there, else 5 (the new policy too).
pub open spec fn policy_step_count(has_policy: bool) -> int {
    if has_policy {
        4
    } else {
        5
    }
}

/// The resources that the `i`th notification to a topic adds, from position `p`: the handler
/// (role, log group, function); where the topic had no policy (`new_policy`), a new policy
/// `<bucket id>SNSDestinationPolicy<i>` for the topic `reference` that holds just the statement
/// that lets S3 publish to it; and, last, the notification of `event` to the topic, which waits
/// for the new policy or for the topic's own, `policy_id`.
#[verifier::opaque]
pub open spec fn topic_block(
    rs: Seq<Resource>,
    p: int,
    bucket_id: Seq<char>,
    bucket: crate::shared::RefView,
    i: nat,
    new_policy: bool,
    policy_id: Seq<char>,
    reference: JsonView,
    event: Seq<char>,
) -> bool {
    let count = policy_step_count(!new_policy);
    let own_policy = bucket_id + ("SNSDestinationPolicy"@ + decimal(i));
    let bucket_arn = crate::shared::arn_json(bucket.resource_id, bucket.arn_value);
    &&& 0 <= p
    &&& p + count <= rs.len()
    &&& handler_at(rs, p, bucket_id, "SNS"@, i)
    &&& rs[p + count - 1] matches Resource::BucketNotification(nt) && {
        let c = nt@.properties@.notification_configuration@;
        &&& notification_made(nt, bucket_id + ("SNSNotification"@ + decimal(i)), bucket, rs[p + 2], if new_policy {
            own_policy
        } else {
            policy_id
        })
        &&& c.topic_configs matches Some(v) && v@.len() == 1 && v@[0]@.arn@ == reference && views(v@[0]@.events@) == seq![event]
        &&& c.lambda_configs is None
        &&& c.queue_configs is None
    }
    &&& new_policy ==> (rs[p + 3] matches Resource::TopicPolicy(pp) && {
        let st = pp@.properties@.doc@.statements@;
        &&& pp@.id.0@ == own_policy
        &&& pp@.resource_type@ == "AWS::SNS::TopicPolicy"@
        &&& pp@.properties@.doc@.version@ == crate::iam::policy_version()
        &&& st.len() == 1
        &&& s3_access_statement(st[0], seq!["sns:Publish"@], reference, bucket_arn)
        &&& json_views(pp@.properties@.topics@) == seq![reference]
    })
}

/// The resources that the `i`th notification to a queue adds, from position `p`: the handler;
/// where the queue had no policy (`new_policy`), a new policy `<bucket id>SQSDestinationPolicy<i>`
/// for the queue `reference` that holds just the statement that lets S3 send to the queue `arn`;
/// and, last, the notification of `event` to the queue `arn`, which waits for the new policy or
/// for the queue's own, `policy_id`.
#[verifier::opaque]
pub open spec fn queue_block(
    rs: Seq<Resource>,
    p: int,
    bucket_id: Seq<char>,
    bucket: crate::shared::RefView,
    i: nat,
    new_policy: bool,
    policy_id: Seq<char>,
    reference: JsonView,
    arn: JsonView,
    event: Seq<char>,
) -> bool {
    let count = policy_step_count(!new_policy);
    let own_policy = bucket_id + ("SQSDestinationPolicy"@ + decimal(i));
    let bucket_arn = crate::shared::arn_json(bucket.resource_id, bucket.arn_value);
    &&& 0 <= p
    &&& p + count <= rs.len()
    &&& handler_at(rs, p, bucket_id, "SQS"@, i)
    &&& rs[p + count - 1] matches Resource::BucketNotification(nt) && {
        let c = nt@.properties@.notification_configuration@;
        &&& notification_made(nt, bucket_id + ("SQSNotification"@ + decimal(i)), bucket, rs[p + 2], if new_policy {
            own_policy
        } else {
            policy_id
        })
        &&& c.queue_configs matches Some(v) && v@.len() == 1 && v@[0]@.arn@ == arn && views(v@[0]@.events@) == seq![event]
        &&& c.lambda_configs is None
        &&& c.topic_configs is None
    }
    &&& new_policy ==> (rs[p + 3] matches Resource::QueuePolicy(pp) && {
        let st = pp@.properties@.doc@.statements@;
        &&& pp@.id.0@ == own_policy
        &&& pp@.resource_type@ == "AWS::SQS::QueuePolicy"@
        &&& pp@.properties@.doc@.version@ == crate::iam::policy_version()
        &&& st.len() == 1
        &&& s3_access_statement(
            st[0],
            seq!["sqs:GetQueueAttributes"@, "sqs:GetQueueUrl"@, "sqs:SendMessage"@],
            arn,
            bucket_arn,
        )
        &&& json_views(pp@.properties@.queues@) == seq![reference]
    })
}

/// The resources hold one with the id `id`.
pub open spec fn has_id(rs: Seq<Resource>, id: Seq<char>) -> bool {
    exists|j: int| 0 <= j < rs.len() && #[trigger] rs[j].id_view() == id
}

/// What the `i`th notification to a topic adds to the resources `before`: the resources of
/// [`topic_block`] after them, where a new policy is made exactly when no resource has the id
/// `policy_id` of the topic's policy. Where one has, the first such resource is the topic's
/// policy, which gains at its end the statement that lets S3 publish to the topic `reference`;
/// no other resource changes.
pub open spec fn topic_notification_added(
    before: Seq<Resource>,
    after: Seq<Resource>,
    bucket_id: Seq<char>,
    bucket: crate::shared::RefView,
    i: nat,
    policy_id: Seq<char>,
    reference: JsonView,
    event: Seq<char>,
) -> bool {
    let n = before.len() as int;
    let has_policy = has_id(before, policy_id);
    let bucket_arn = crate::shared::arn_json(bucket.resource_id, bucket.arn_value);
    &&& after.len() == n + policy_step_count(has_policy)
    &&& topic_block(after, n, bucket_id, bucket, i, !has_policy, policy_id, reference, event)
    &&& forall|k: int| 0 <= k < n && before[k].id_view() != policy_id ==> #[trigger] after[k] == before[k]
    &&& if has_policy {
        forall|j: int| #[trigger] first_with_id(before, policy_id, j) ==> {
            &&& forall|k: int| 0 <= k < n && k != j ==> #[trigger] after[k] == before[k]
            &&& before[j] matches Resource::TopicPolicy(a) && after[j] matches Resource::TopicPolicy(b) && {
                let sa = a@.properties@.doc@.statements@;
                let sb = b@.properties@.doc@.statements@;
                &&& b@.id == a@.id
                &&& b@.resource_id == a@.resource_id
                &&& b@.properties@.topics == a@.properties@.topics
                &&& b@.properties@.doc@.version == a@.properties@.doc@.version
                &&& sb.len() == sa.len() + 1
                &&& sb.drop_last() == sa
                &&& s3_access_statement(sb.last(), seq!["sns:Publish"@], reference, bucket_arn)
            }
        }
    } else {
        after.subrange(0, n) == before
    }
}

/// What the `i`th notification to a queue adds to the resources `before`: the resources of
/// [`queue_block`] after them, where a new policy is made exactly when no resource has the id
/// `policy_id` of the queue's policy. Where one has, the first such resource is the queue's
/// policy, which gains at its end the statement that lets S3 send to the queue `arn`; no other
/// resource changes.
pub open spec fn queue_notification_added(
    before: Seq<Resource>,
    after: Seq<Resource>,
    bucket_id: Seq<char>,
    bucket: crate::shared::RefView,
    i: nat,
    policy_id: Seq<char>,
    reference: JsonView,
    arn: JsonView,
    event: Seq<char>,
) -> bool {
    let n = before.len() as int;
    let has_policy = has_id(before, policy_id);
    let bucket_arn = crate::shared::arn_json(bucket.resource_id, bucket.arn_value);
    &&& after.len() == n + policy_step_count(has_policy)
    &&& queue_block(after, n, bucket_id, bucket, i, !has_policy, policy_id, reference, arn, event)
    &&& forall|k: int| 0 <= k < n && before[k].id_view() != policy_id ==> #[trigger] after[k] == before[k]
    &&& if has_policy {
        forall|j: int| #[trigger] first_with_id(before, policy_id, j) ==> {
            &&& forall|k: int| 0 <= k < n && k != j ==> #[trigger] after[k] == before[k]
            &&& before[j] matches Resource::QueuePolicy(a) && after[j] matches Resource::QueuePolicy(b) && {
                let sa = a@.properties@.doc@.statements@;
                let sb = b@.properties@.doc@.statements@;
                &&& b@.id == a@.id
                &&& b@.resource_id == a@.resource_id
                &&& b@.properties@.queues == a@.properties@.queues
                &&& b@.properties@.doc@.version == a@.properties@.doc@.version
                &&& sb.len() == sa.len() + 1
                &&& sb.drop_last() == sa
                &&& s3_access_statement(
                    sb.last(),
                    seq!["sqs:GetQueueAttributes"@, "sqs:GetQueueUrl"@, "sqs:SendMessage"@],
                    arn,
                    bucket_arn,
                )
            }
        }
    } else {
        after.subrange(0, n) == before
    }
}

/// Adds what the `i`th notification to a topic needs: the handler, a statement that lets S3
/// publish to the topic (in the topic's policy where it has one, else in a new policy), and the
/// notification.
fn add_sns_notification(
    bucket_id: &Id,
    bucket: &BucketRef,
    i: usize,
    topic_id: &Id,
    reference: Value,
    event: String,
    stack_builder: &mut StackBuilder,
)
    requires
        forall|j: int| 0 <= j < old(stack_builder)@.resources.len() && #[trigger] old(stack_builder)@.resources[j].id_view()
            == topic_id.0@ + TOPIC_POLICY_ID_SUFFIX@ ==> old(stack_builder)@.resources[j] is TopicPolicy,
        !policy_step_id(bucket_id.0@, "SNS"@, "SNSDestinationPolicy"@, "SNSNotification"@, i as nat, topic_id.0@ + TOPIC_POLICY_ID_SUFFIX@),
    ensures
        final(stack_builder)@.tags == old(stack_builder)@.tags,
        final(stack_builder)@.outputs == old(stack_builder)@.outputs,
        final(stack_builder)@.resources.len() >= old(stack_builder)@.resources.len(),
        forall|j: int| 0 <= j < old(stack_builder)@.resources.len() ==> #[trigger] shape_kept(
            final(stack_builder)@.resources[j],
            old(stack_builder)@.resources[j],
        ),
        forall|j: int| old(stack_builder)@.resources.len() <= j < final(stack_builder)@.resources.len() ==> policy_step_id(
            bucket_id.0@,
            "SNS"@,
            "SNSDestinationPolicy"@,
            "SNSNotification"@,
            i as nat,
            #[trigger] final(stack_builder)@.resources[j].id_view(),
        ),
        topic_notification_added(
            old(stack_builder)@.resources,
            final(stack_builder)@.resources,
            bucket_id.0@,
            bucket@,
            i as nat,
            topic_id.0@ + TOPIC_POLICY_ID_SUFFIX@,
            reference@,
            event@,
        ),
{
    reveal(topic_block);
    let ghost start = stack_builder@.resources;
    let ghost n = start.len() as int;
    let ghost pid = topic_id.0@ + TOPIC_POLICY_ID_SUFFIX@;
    let ghost bucket_arn = crate::shared::arn_json(bucket@.resource_id, bucket@.arn_value);
    let ghost acts = seq!["sns:Publish"@];
    let handler = notification_handler(bucket_id, "SNS", i, stack_builder);
    let ghost after_handler = stack_builder@.resources;
    let condition = from_bucket_condition(bucket.get_arn());
    let principal = PrincipalBuilder::new().service("s3.amazonaws.com").build();
    let mut actions: Vec<IamAction> = Vec::new();
    actions.push(IamAction(String::from_str("sns:Publish")));
    assert(crate::iam::action_names(actions@) =~= acts);
    let mut resources: Vec<Value> = Vec::new();
    resources.push(reference.clone());
    proof {
        reveal_with_fuel(json_views, 2);
        assert(resources@.drop_last() =~= Seq::<Value>::empty());
        assert(json_views(resources@) =~= seq![reference@]);
    }
    let statement = StatementBuilder::new(actions, Effect::Allow).principal(principal).condition(condition).resources(
        resources,
    ).build();
    assert(s3_access_statement(statement, acts, reference@, bucket_arn));
    let topic_policy_id = Id::generate_id(topic_id, TOPIC_POLICY_ID_SUFFIX);
    let ghost new_policy = bucket_id.0@ + ("SNSDestinationPolicy"@ + decimal(i as nat));
    let ghost mut found: Option<int> = None;
    let dependency = match stack_builder.get_resource(&topic_policy_id) {
        None => {
            let mut statements = Vec::new();
            statements.push(statement);
            let doc = PolicyDocumentBuilder::new(statements).build();
            let new_policy_id = numbered_id(bucket_id, "SNSDestinationPolicy", i);
            let mut topics: Vec<Value> = Vec::new();
            topics.push(reference.clone());
            proof {
                reveal_with_fuel(json_views, 2);
                assert(topics@.drop_last() =~= Seq::<Value>::empty());
                assert(json_views(topics@) =~= seq![reference@]);
                assert(doc@.statements@ =~= seq![statement]);
            }
            TopicPolicyBuilder::new_with_values(new_policy_id.clone(), doc, topics).build(stack_builder);
            new_policy_id
        },
        Some(j) => {
            proof {
                if j >= n {
                    assert(after_handler[j as int].id_view() == stack_builder@.resources[j as int].id_view());
                    assert(false);
                } else {
                    assert(after_handler.subrange(0, n)[j as int] == start[j as int]);
                    assert forall|k: int| 0 <= k < j implies #[trigger] start[k].id_view() != pid by {
                        assert(after_handler.subrange(0, n)[k] == start[k]);
                    }
                }
                found = Some(j as int);
            }
            stack_builder.add_policy_statement(j, statement);
            topic_policy_id
        },
    };
    let ghost after_policy = stack_builder@.resources;
    let notification_id = numbered_id(bucket_id, "SNSNotification", i);
    let handler_arn = handler.get_arn();
    let bucket_ref = bucket.get_ref();
    let ghost dep = dependency.0@;
    BucketNotificationBuilder::new(
        notification_id.0.as_str(),
        handler_arn,
        bucket_ref,
        event,
        Some(dependency),
    ).sns(reference).build(stack_builder);
    proof {
        let after = stack_builder@.resources;
        assert(after.drop_last() =~= after_policy);
        assert forall|j: int| 0 <= j < n implies #[trigger] shape_kept(after[j], start[j]) by {
            assert(after[j] == after_policy[j]);
            assert(after_handler.subrange(0, n)[j] == start[j]);
        }
        assert(after.last().id_view() == notification_id.0@);
        assert forall|j: int| n <= j < after.len() implies policy_step_id(bucket_id.0@, "SNS"@, "SNSDestinationPolicy"@, "SNSNotification"@, i as nat, #[trigger] after[j].id_view()) by {
            if j < after.len() - 1 {
                assert(after[j] == after_policy[j]);
                if j < n + 3 {
                    assert(after_policy[j].id_view() == after_handler[j].id_view());
                }
            }
        }
        assert(after[n + 2] == after_handler[n + 2]) by {
            assert(after[n + 2] == after_policy[n + 2]);
        }
        assert(after[n] == after_handler[n] && after[n + 1] == after_handler[n + 1]) by {
            assert(after[n] == after_policy[n]);
            assert(after[n + 1] == after_policy[n + 1]);
        }
        match found {
            Some(j) => {
                assert(first_with_id(start, pid, j));
                assert(dep == pid);
                assert(start[j].id_view() == pid);
                assert forall|j2: int| #[trigger] first_with_id(start, pid, j2) implies j2 == j by {
                    if j2 < j {
                        assert(start[j2].id_view() != pid);
                    } else if j < j2 {
                        assert(start[j].id_view() != pid);
                    }
                }
                assert forall|k: int| 0 <= k < n && k != j implies #[trigger] after[k] == start[k] by {
                    assert(after[k] == after_policy[k]);
                    assert(after_handler.subrange(0, n)[k] == start[k]);
                }
                assert(after[j] == after_policy[j]);
                assert(exists|j3: int| 0 <= j3 < n && #[trigger] start[j3].id_view() == pid);
                assert(after.len() == n + 4);
                assert(handler_at(after, n, bucket_id.0@, "SNS"@, i as nat));
                assert(after.last() matches Resource::BucketNotification(nt) && notification_made(nt, bucket_id.0@ + ("SNSNotification"@ + decimal(i as nat)), bucket@, after[n + 2], pid));
                assert(after.last() matches Resource::BucketNotification(nt) && {
                    let c = nt@.properties@.notification_configuration@;
                    &&& c.topic_configs matches Some(v) && v@.len() == 1 && v@[0]@.arn@ == reference@ && views(v@[0]@.events@) == seq![event@]
                    &&& c.lambda_configs is None
                    &&& c.queue_configs is None
                });
                assert(start[j] matches Resource::TopicPolicy(a) && after[j] matches Resource::TopicPolicy(b) && {
                    let sa = a@.properties@.doc@.statements@;
                    let sb = b@.properties@.doc@.statements@;
                    &&& b@.id == a@.id
                    &&& b@.resource_id == a@.resource_id
                    &&& b@.properties@.topics == a@.properties@.topics
                    &&& b@.properties@.doc@.version == a@.properties@.doc@.version
                    &&& sb.len() == sa.len() + 1
                    &&& sb.drop_last() == sa
                    &&& s3_access_statement(sb.last(), acts, reference@, bucket_arn)
                });
            },
            None => {
                assert(dep == new_policy);
                assert forall|k: int| 0 <= k < n implies #[trigger] start[k].id_view() != pid by {
                    assert(after_handler.subrange(0, n)[k] == start[k]);
                    assert(after_handler[k].id_view() != pid);
                }
                assert(after.subrange(0, n) =~= start) by {
                    assert forall|k: int| 0 <= k < n implies after[k] == start[k] by {
                        assert(after[k] == after_policy[k]);
                        assert(after_policy[k] == after_handler[k]);
                        assert(after_handler.subrange(0, n)[k] == start[k]);
                    }
                }
                assert(after[n + 3] == after_policy.last());
                assert(!(exists|j3: int| 0 <= j3 < n && #[trigger] start[j3].id_view() == pid));
                assert(after.len() == n + 5);
                assert(handler_at(after, n, bucket_id.0@, "SNS"@, i as nat));
                assert(after.last() matches Resource::BucketNotification(nt) && notification_made(nt, bucket_id.0@ + ("SNSNotification"@ + decimal(i as nat)), bucket@, after[n + 2], new_policy));
                assert(after[n + 3] matches Resource::TopicPolicy(p) && {
                    let st = p@.properties@.doc@.statements@;
                    &&& p@.id.0@ == new_policy
                    &&& p@.resource_type@ == "AWS::SNS::TopicPolicy"@
                    &&& p@.properties@.doc@.version@ == crate::iam::policy_version()
                    &&& st.len() == 1
                    &&& s3_access_statement(st[0], acts, reference@, bucket_arn)
                    &&& json_views(p@.properties@.topics@) == seq![reference@]
                });
            },
        }
    }
}


/// Adds what the `i`th notification to a queue needs: the handler, a statement that lets S3
/// send to the queue (in the queue's policy where it has one, else in a new policy), and the
/// notification.
fn add_sqs_notification(
    bucket_id: &Id,
    bucket: &BucketRef,
    i: usize,
    queue_id: &Id,
    reference: Value,
    arn: Value,
    event: String,
    stack_builder: &mut StackBuilder,
)
    requires
        forall|j: int| 0 <= j < old(stack_builder)@.resources.len() && #[trigger] old(stack_builder)@.resources[j].id_view()
            == queue_id.0@ + QUEUE_POLICY_ID_SUFFIX@ ==> old(stack_builder)@.resources[j] is QueuePolicy,
        !policy_step_id(bucket_id.0@, "SQS"@, "SQSDestinationPolicy"@, "SQSNotification"@, i as nat, queue_id.0@ + QUEUE_POLICY_ID_SUFFIX@),
    ensures
        final(stack_builder)@.tags == old(stack_builder)@.tags,
        final(stack_builder)@.outputs == old(stack_builder)@.outputs,
        final(stack_builder)@.resources.len() >= old(stack_builder)@.resources.len(),
        forall|j: int| 0 <= j < old(stack_builder)@.resources.len() ==> #[trigger] shape_kept(
            final(stack_builder)@.resources[j],
            old(stack_builder)@.resources[j],
        ),
        forall|j: int| old(stack_builder)@.resources.len() <= j < final(stack_builder)@.resources.len() ==> policy_step_id(
            bucket_id.0@,
            "SQS"@,
            "SQSDestinationPolicy"@,
            "SQSNotification"@,
            i as nat,
            #[trigger] final(stack_builder)@.resources[j].id_view(),
        ),
        queue_notification_added(
            old(stack_builder)@.resources,
            final(stack_builder)@.resources,
            bucket_id.0@,
            bucket@,
            i as nat,
            queue_id.0@ + QUEUE_POLICY_ID_SUFFIX@,
            reference@,
            arn@,
            event@,
        ),
{
    reveal(queue_block);
    let ghost start = stack_builder@.resources;
    let ghost n = start.len() as int;
    let ghost pid = queue_id.0@ + QUEUE_POLICY_ID_SUFFIX@;
    let ghost bucket_arn = crate::shared::arn_json(bucket@.resource_id, bucket@.arn_value);
    let ghost acts = seq!["sqs:GetQueueAttributes"@, "sqs:GetQueueUrl"@, "sqs:SendMessage"@];
    let handler = notification_handler(bucket_id, "SQS", i, stack_builder);
    let ghost after_handler = stack_builder@.resources;
    let condition = from_bucket_condition(bucket.get_arn());
    let principal = PrincipalBuilder::new().service("s3.amazonaws.com").build();
    let mut actions: Vec<IamAction> = Vec::new();
    actions.push(IamAction(String::from_str("sqs:GetQueueAttributes")));
    actions.push(IamAction(String::from_str("sqs:GetQueueUrl")));
    actions.push(IamAction(String::from_str("sqs:SendMessage")));
    assert(crate::iam::action_names(actions@) =~= acts);
    let mut resources: Vec<Value> = Vec::new();
    resources.push(arn.clone());
    proof {
        reveal_with_fuel(json_views, 2);
        assert(resources@.drop_last() =~= Seq::<Value>::empty());
        assert(json_views(resources@) =~= seq![arn@]);
    }
    let statement = StatementBuilder::new(actions, Effect::Allow).principal(principal).condition(condition).resources(
        resources,
    ).build();
    assert(s3_access_statement(statement, acts, arn@, bucket_arn));
    let queue_policy_id = Id::generate_id(queue_id, QUEUE_POLICY_ID_SUFFIX);
    let ghost new_policy = bucket_id.0@ + ("SQSDestinationPolicy"@ + decimal(i as nat));
    let ghost mut found: Option<int> = None;
    let dependency = match stack_builder.get_resource(&queue_policy_id) {
        None => {
            let mut statements = Vec::new();
            statements.push(statement);
            let doc = PolicyDocumentBuilder::new(statements).build();
            let new_policy_id = numbered_id(bucket_id, "SQSDestinationPolicy", i);
            let ghost reference_view = reference@;
            let mut queues: Vec<Value> = Vec::new();
            queues.push(reference);
            proof {
                reveal_with_fuel(json_views, 2);
                assert(queues@.drop_last() =~= Seq::<Value>::empty());
                assert(json_views(queues@) =~= seq![reference_view]);
                assert(doc@.statements@ =~= seq![statement]);
            }
            QueuePolicyBuilder::new_with_values(new_policy_id.clone(), doc, queues).build(stack_builder);
            new_policy_id
        },
        Some(j) => {
            proof {
                if j >= n {
                    assert(after_handler[j as int].id_view() == stack_builder@.resources[j as int].id_view());
                    assert(false);
                } else {
                    assert(after_handler.subrange(0, n)[j as int] == start[j as int]);
                    assert forall|k: int| 0 <= k < j implies #[trigger] start[k].id_view() != pid by {
                        assert(after_handler.subrange(0, n)[k] == start[k]);
                    }
                }
                found = Some(j as int);
            }
            stack_builder.add_policy_statement(j, statement);
            queue_policy_id
        },
    };
    let ghost after_policy = stack_builder@.resources;
    let notification_id = numbered_id(bucket_id, "SQSNotification", i);
    let handler_arn = handler.get_arn();
    let bucket_ref = bucket.get_ref();
    let ghost dep = dependency.0@;
    BucketNotificationBuilder::new(
        notification_id.0.as_str(),
        handler_arn,
        bucket_ref,
        event,
        Some(dependency),
    ).sqs(arn).build(stack_builder);
    proof {
        let after = stack_builder@.resources;
        assert(after.drop_last() =~= after_policy);
        assert forall|j: int| 0 <= j < n implies #[trigger] shape_kept(after[j], start[j]) by {
            assert(after[j] == after_policy[j]);
            assert(after_handler.subrange(0, n)[j] == start[j]);
        }
        assert(after.last().id_view() == notification_id.0@);
        assert forall|j: int| n <= j < after.len() implies policy_step_id(bucket_id.0@, "SQS"@, "SQSDestinationPolicy"@, "SQSNotification"@, i as nat, #[trigger] after[j].id_view()) by {
            if j < after.len() - 1 {
                assert(after[j] == after_policy[j]);
                if j < n + 3 {
                    assert(after_policy[j].id_view() == after_handler[j].id_view());
                }
            }
        }
        assert(after[n + 2] == after_handler[n + 2]) by {
            assert(after[n + 2] == after_policy[n + 2]);
        }
        assert(after[n] == after_handler[n] && after[n + 1] == after_handler[n + 1]) by {
            assert(after[n] == after_policy[n]);
            assert(after[n + 1] == after_policy[n + 1]);
        }
        match found {
            Some(j) => {
                assert(first_with_id(start, pid, j));
                assert(dep == pid);
                assert(start[j].id_view() == pid);
                assert forall|j2: int| #[trigger] first_with_id(start, pid, j2) implies j2 == j by {
                    if j2 < j {
                        assert(start[j2].id_view() != pid);
                    } else if j < j2 {
                        assert(start[j].id_view() != pid);
                    }
                }
                assert forall|k: int| 0 <= k < n && k != j implies #[trigger] after[k] == start[k] by {
                    assert(after[k] == after_policy[k]);
                    assert(after_handler.subrange(0, n)[k] == start[k]);
                }
                assert(after[j] == after_policy[j]);
                assert(exists|j3: int| 0 <= j3 < n && #[trigger] start[j3].id_view() == pid);
                assert(after.len() == n + 4);
                assert(handler_at(after, n, bucket_id.0@, "SQS"@, i as nat));
                assert(after.last() matches Resource::BucketNotification(nt) && notification_made(nt, bucket_id.0@ + ("SQSNotification"@ + decimal(i as nat)), bucket@, after[n + 2], pid));
                assert(after.last() matches Resource::BucketNotification(nt) && {
                    let c = nt@.properties@.notification_configuration@;
                    &&& c.queue_configs matches Some(v) && v@.len() == 1 && v@[0]@.arn@ == arn@ && views(v@[0]@.events@) == seq![event@]
                    &&& c.lambda_configs is None
                    &&& c.topic_configs is None
                });
                assert(start[j] matches Resource::QueuePolicy(a) && after[j] matches Resource::QueuePolicy(b) && {
                    let sa = a@.properties@.doc@.statements@;
                    let sb = b@.properties@.doc@.statements@;
                    &&& b@.id == a@.id
                    &&& b@.resource_id == a@.resource_id
                    &&& b@.properties@.queues == a@.properties@.queues
                    &&& b@.properties@.doc@.version == a@.properties@.doc@.version
                    &&& sb.len() == sa.len() + 1
                    &&& sb.drop_last() == sa
                    &&& s3_access_statement(sb.last(), acts, arn@, bucket_arn)
                });
            },
            None => {
                assert(dep == new_policy);
                assert forall|k: int| 0 <= k < n implies #[trigger] start[k].id_view() != pid by {
                    assert(after_handler.subrange(0, n)[k] == start[k]);
                    assert(after_handler[k].id_view() != pid);
                }
                assert(after.subrange(0, n) =~= start) by {
                    assert forall|k: int| 0 <= k < n implies after[k] == start[k] by {
                        assert(after[k] == after_policy[k]);
                        assert(after_policy[k] == after_handler[k]);
                        assert(after_handler.subrange(0, n)[k] == start[k]);
                    }
                }
                assert(after[n + 3] == after_policy.last());
                assert(!(exists|j3: int| 0 <= j3 < n && #[trigger] start[j3].id_view() == pid));
                assert(after.len() == n + 5);
                assert(handler_at(after, n, bucket_id.0@, "SQS"@, i as nat));
                assert(after.last() matches Resource::BucketNotification(nt) && notification_made(nt, bucket_id.0@ + ("SQSNotification"@ + decimal(i as nat)), bucket@, after[n + 2], new_policy));
                assert(after[n + 3] matches Resource::QueuePolicy(p) && {
                    let st = p@.properties@.doc@.statements@;
                    &&& p@.id.0@ == new_policy
                    &&& p@.resource_type@ == "AWS::SQS::QueuePolicy"@
                    &&& p@.properties@.doc@.version@ == crate::iam::policy_version()
                    &&& st.len() == 1
                    &&& s3_access_statement(st[0], acts, arn@, bucket_arn)
                    &&& json_views(p@.properties@.queues@) == seq![reference@]
                });
            },
        }
    }
}

/// The first resource with the id `pid` is a topic policy that holds the statement letting S3
/// publish to the topic `target` for requests from the bucket with the ARN `bucket_arn`.
pub open spec fn topic_policy_allows(rs: Seq<Resource>, pid: Seq<char>, target: JsonView, bucket_arn: JsonView) -> bool {
    exists|j: int|
        #[trigger] first_with_id(rs, pid, j) && (rs[j] matches Resource::TopicPolicy(p) && exists|m: int|
            0 <= m < p@.properties@.doc@.statements@.len() && s3_access_statement(
                #[trigger] p@.properties@.doc@.statements@[m],
                seq!["sns:Publish"@],
                target,
                bucket_arn,
            ))
}

/// The first resource with the id `pid` is a queue policy that holds the statement letting S3
/// send to the queue `target` for requests from the bucket with the ARN `bucket_arn`.
pub open spec fn queue_policy_allows(rs: Seq<Resource>, pid: Seq<char>, target: JsonView, bucket_arn: JsonView) -> bool {
    exists|j: int|
        #[trigger] first_with_id(rs, pid, j) && (rs[j] matches Resource::QueuePolicy(p) && exists|m: int|
            0 <= m < p@.properties@.doc@.statements@.len() && s3_access_statement(
                #[trigger] p@.properties@.doc@.statements@[m],
                seq!["sqs:GetQueueAttributes"@, "sqs:GetQueueUrl"@, "sqs:SendMessage"@],
                target,
                bucket_arn,
            ))
}

/// The statements `sb` are `sa` with perhaps more after them.
spec fn statements_grow(sa: Seq<Statement>, sb: Seq<Statement>) -> bool {
    &&& sa.len() <= sb.len()
    &&& forall|m: int| 0 <= m < sa.len() ==> #[trigger] sb[m] == sa[m]
}

/// `c` is `a`, or the same topic or queue policy with more statements; its id is the same.
spec fn resource_grows(a: Resource, c: Resource) -> bool {
    &&& c.id_view() == a.id_view()
    &&& {
        ||| c == a
        ||| a matches Resource::TopicPolicy(x) && c matches Resource::TopicPolicy(y) && statements_grow(
            x@.properties@.doc@.statements@,
            y@.properties@.doc@.statements@,
        )
        ||| a matches Resource::QueuePolicy(x) && c matches Resource::QueuePolicy(y) && statements_grow(
            x@.properties@.doc@.statements@,
            y@.properties@.doc@.statements@,
        )
    }
}

/// Each resource of `before` stands in `now` as it was or with more statements.
spec fn grows(before: Seq<Resource>, now: Seq<Resource>) -> bool {
    &&& now.len() >= before.len()
    &&& forall|k: int| 0 <= k < before.len() ==> #[trigger] resource_grows(before[k], now[k])
}

/// A resource with an id comes first somewhere.
proof fn lemma_first_exists(rs: Seq<Resource>, id: Seq<char>)
    requires
        has_id(rs, id),
    ensures
        exists|j: int| #[trigger] first_with_id(rs, id, j),
    decreases rs.len(),
{
    let init = rs.drop_last();
    if has_id(init, id) {
        lemma_first_exists(init, id);
        let j = choose|j: int| #[trigger] first_with_id(init, id, j);
        assert forall|k: int| 0 <= k < j implies #[trigger] rs[k].id_view() != id by {
            assert(init[k] == rs[k]);
        }
        assert(init[j] == rs[j]);
        assert(first_with_id(rs, id, j));
    } else {
        let j = choose|j: int| 0 <= j < rs.len() && #[trigger] rs[j].id_view() == id;
        if j < rs.len() - 1 {
            assert(init[j] == rs[j]);
            assert(has_id(init, id));
        }
        assert forall|k: int| 0 <= k < rs.len() - 1 implies #[trigger] rs[k].id_view() != id by {
            assert(init[k] == rs[k]);
            if rs[k].id_view() == id {
                assert(has_id(init, id));
            }
        }
        assert(first_with_id(rs, id, rs.len() - 1));
    }
}

/// A grown stack still holds the statement that a topic's policy held.
proof fn lemma_topic_allows_kept(before: Seq<Resource>, now: Seq<Resource>, pid: Seq<char>, target: JsonView, bucket_arn: JsonView)
    requires
        grows(before, now),
        topic_policy_allows(before, pid, target, bucket_arn),
    ensures
        topic_policy_allows(now, pid, target, bucket_arn),
{
    let j = choose|j: int|
        #[trigger] first_with_id(before, pid, j) && (before[j] matches Resource::TopicPolicy(p) && exists|m: int|
            0 <= m < p@.properties@.doc@.statements@.len() && s3_access_statement(
                #[trigger] p@.properties@.doc@.statements@[m],
                seq!["sns:Publish"@],
                target,
                bucket_arn,
            ));
    assert forall|k: int| 0 <= k < j implies #[trigger] now[k].id_view() != pid by {
        assert(resource_grows(before[k], now[k]));
    }
    assert(resource_grows(before[j], now[j]));
    assert(first_with_id(now, pid, j));
    if let Resource::TopicPolicy(p) = before[j] {
        let m = choose|m: int|
            0 <= m < p@.properties@.doc@.statements@.len() && s3_access_statement(
                #[trigger] p@.properties@.doc@.statements@[m],
                seq!["sns:Publish"@],
                target,
                bucket_arn,
            );
        if let Resource::TopicPolicy(q) = now[j] {
            assert(q@.properties@.doc@.statements@[m] == p@.properties@.doc@.statements@[m]);
        }
    }
}

/// A grown stack still holds the statement that a queue's policy held.
proof fn lemma_queue_allows_kept(before: Seq<Resource>, now: Seq<Resource>, pid: Seq<char>, target: JsonView, bucket_arn: JsonView)
    requires
        grows(before, now),
        queue_policy_allows(before, pid, target, bucket_arn),
    ensures
        queue_policy_allows(now, pid, target, bucket_arn),
{
    let j = choose|j: int|
        #[trigger] first_with_id(before, pid, j) && (before[j] matches Resource::QueuePolicy(p) && exists|m: int|
            0 <= m < p@.properties@.doc@.statements@.len() && s3_access_statement(
                #[trigger] p@.properties@.doc@.statements@[m],
                seq!["sqs:GetQueueAttributes"@, "sqs:GetQueueUrl"@, "sqs:SendMessage"@],
                target,
                bucket_arn,
            ));
    assert forall|k: int| 0 <= k < j implies #[trigger] now[k].id_view() != pid by {
        assert(resource_grows(before[k], now[k]));
    }
    assert(resource_grows(before[j], now[j]));
    assert(first_with_id(now, pid, j));
    if let Resource::QueuePolicy(p) = before[j] {
        let m = choose|m: int|
            0 <= m < p@.properties@.doc@.statements@.len() && s3_access_statement(
                #[trigger] p@.properties@.doc@.statements@[m],
                seq!["sqs:GetQueueAttributes"@, "sqs:GetQueueUrl"@, "sqs:SendMessage"@],
                target,
                bucket_arn,
            );
        if let Resource::QueuePolicy(q) = now[j] {
            assert(q@.properties@.doc@.statements@[m] == p@.properties@.doc@.statements@[m]);
        }
    }
}

/// A notification to a topic grows the stack, and where the topic had its policy, that policy
/// then holds the statement for the bucket.
proof fn lemma_topic_step_grows(
    before: Seq<Resource>,
    now: Seq<Resource>,
    bucket_id: Seq<char>,
    bucket: crate::shared::RefView,
    i: nat,
    pid: Seq<char>,
    reference: JsonView,
    event: Seq<char>,
)
    requires
        topic_notification_added(before, now, bucket_id, bucket, i, pid, reference, event),
    ensures
        grows(before, now),
        has_id(before, pid) ==> topic_policy_allows(
            now,
            pid,
            reference,
            crate::shared::arn_json(bucket.resource_id, bucket.arn_value),
        ),
{
    let bucket_arn = crate::shared::arn_json(bucket.resource_id, bucket.arn_value);
    if has_id(before, pid) {
        lemma_first_exists(before, pid);
        let j = choose|j: int| #[trigger] first_with_id(before, pid, j);
        assert forall|k: int| 0 <= k < before.len() implies #[trigger] resource_grows(before[k], now[k]) by {
            if k != j {
                assert(now[k] == before[k]);
            } else {
                if let Resource::TopicPolicy(x) = before[j] {
                    if let Resource::TopicPolicy(y) = now[j] {
                        let sa = x@.properties@.doc@.statements@;
                        let sb = y@.properties@.doc@.statements@;
                        assert forall|m: int| 0 <= m < sa.len() implies #[trigger] sb[m] == sa[m] by {
                            assert(sb.drop_last()[m] == sb[m]);
                        }
                    }
                }
            }
        }
        assert forall|k: int| 0 <= k < j implies #[trigger] now[k].id_view() != pid by {
            assert(now[k] == before[k]);
        }
        assert(first_with_id(now, pid, j));
        if let Resource::TopicPolicy(y) = now[j] {
            let sb = y@.properties@.doc@.statements@;
            assert(s3_access_statement(sb[sb.len() - 1], seq!["sns:Publish"@], reference, bucket_arn));
        }
    } else {
        assert forall|k: int| 0 <= k < before.len() implies #[trigger] resource_grows(before[k], now[k]) by {
            assert(now.subrange(0, before.len() as int)[k] == now[k]);
        }
    }
}

/// A notification to a queue grows the stack, and where the queue had its policy, that policy
/// then holds the statement for the bucket.
proof fn lemma_queue_step_grows(
    before: Seq<Resource>,
    now: Seq<Resource>,
    bucket_id: Seq<char>,
    bucket: crate::shared::RefView,
    i: nat,
    pid: Seq<char>,
    reference: JsonView,
    arn: JsonView,
    event: Seq<char>,
)
    requires
        queue_notification_added(before, now, bucket_id, bucket, i, pid, reference, arn, event),
    ensures
        grows(before, now),
        has_id(before, pid) ==> queue_policy_allows(now, pid, arn, crate::shared::arn_json(bucket.resource_id, bucket.arn_value)),
{
    let bucket_arn = crate::shared::arn_json(bucket.resource_id, bucket.arn_value);
    if has_id(before, pid) {
        lemma_first_exists(before, pid);
        let j = choose|j: int| #[trigger] first_with_id(before, pid, j);
        assert forall|k: int| 0 <= k < before.len() implies #[trigger] resource_grows(before[k], now[k]) by {
            if k != j {
                assert(now[k] == before[k]);
            } else {
                if let Resource::QueuePolicy(x) = before[j] {
                    if let Resource::QueuePolicy(y) = now[j] {
                        let sa = x@.properties@.doc@.statements@;
                        let sb = y@.properties@.doc@.statements@;
                        assert forall|m: int| 0 <= m < sa.len() implies #[trigger] sb[m] == sa[m] by {
                            assert(sb.drop_last()[m] == sb[m]);
                        }
                    }
                }
            }
        }
        assert forall|k: int| 0 <= k < j implies #[trigger] now[k].id_view() != pid by {
            assert(now[k] == before[k]);
        }
        assert(first_with_id(now, pid, j));
        if let Resource::QueuePolicy(y) = now[j] {
            let sb = y@.properties@.doc@.statements@;
            assert(s3_access_statement(
                sb[sb.len() - 1],
                seq!["sqs:GetQueueAttributes"@, "sqs:GetQueueUrl"@, "sqs:SendMessage"@],
                arn,
                bucket_arn,
            ));
        }
    } else {
        assert forall|k: int| 0 <= k < before.len() implies #[trigger] resource_grows(before[k], now[k]) by {
            assert(now.subrange(0, before.len() as int)[k] == now[k]);
        }
    }
}

/// The policies of the first `count` topics that had one hold the statements for the bucket.
#[verifier::opaque]
spec fn topic_policies_hold(first: Seq<Resource>, rs: Seq<Resource>, b: BucketBuilderView, bucket: crate::shared::RefView, count: int) -> bool {
    forall|k: int|
        #![trigger b.sns_destinations[k]]
        0 <= k < count && topic_has_policy(first, b, k) ==> topic_policy_allows(
            rs,
            b.sns_destinations[k].0 + TOPIC_POLICY_ID_SUFFIX@,
            b.sns_destinations[k].1,
            crate::shared::arn_json(bucket.resource_id, bucket.arn_value),
        )
}

/// The policies of the first `count` queues that had one hold the statements for the bucket.
#[verifier::opaque]
spec fn queue_policies_hold(first: Seq<Resource>, rs: Seq<Resource>, b: BucketBuilderView, bucket: crate::shared::RefView, count: int) -> bool {
    forall|k: int|
        #![trigger b.sqs_destinations[k]]
        0 <= k < count && queue_has_policy(first, b, k) ==> queue_policy_allows(
            rs,
            b.sqs_destinations[k].0 + QUEUE_POLICY_ID_SUFFIX@,
            b.sqs_destinations[k].2,
            crate::shared::arn_json(bucket.resource_id, bucket.arn_value),
        )
}

/// The statements that topic policies hold stay while the stack grows; after the `i`th
/// notification to a topic, its policy holds its statement too where it had a policy.
proof fn lemma_topic_policies_step(
    first: Seq<Resource>,
    before: Seq<Resource>,
    now: Seq<Resource>,
    b: BucketBuilderView,
    bucket: crate::shared::RefView,
    count: int,
    next: bool,
)
    requires
        topic_policies_hold(first, before, b, bucket, count),
        grows(before, now),
        0 <= count,
        next ==> count < b.sns_destinations.len(),
        next ==> has_id(before, b.sns_destinations[count].0 + TOPIC_POLICY_ID_SUFFIX@) == topic_has_policy(first, b, count),
        next && has_id(before, b.sns_destinations[count].0 + TOPIC_POLICY_ID_SUFFIX@) ==> topic_policy_allows(
            now,
            b.sns_destinations[count].0 + TOPIC_POLICY_ID_SUFFIX@,
            b.sns_destinations[count].1,
            crate::shared::arn_json(bucket.resource_id, bucket.arn_value),
        ),
    ensures
        topic_policies_hold(first, now, b, bucket, if next { count + 1 } else { count }),
{
    reveal(topic_policies_hold);
    let bucket_arn = crate::shared::arn_json(bucket.resource_id, bucket.arn_value);
    assert forall|k: int|
        #![trigger b.sns_destinations[k]]
        0 <= k < (if next { count + 1 } else { count }) && topic_has_policy(first, b, k) implies topic_policy_allows(
            now,
            b.sns_destinations[k].0 + TOPIC_POLICY_ID_SUFFIX@,
            b.sns_destinations[k].1,
            bucket_arn,
        ) by {
        if k < count {
            lemma_topic_allows_kept(before, now, b.sns_destinations[k].0 + TOPIC_POLICY_ID_SUFFIX@, b.sns_destinations[k].1, bucket_arn);
        }
    }
}

/// The statements that queue policies hold stay while the stack grows; after the `i`th
/// notification to a queue, its policy holds its statement too where it had a policy.
proof fn lemma_queue_policies_step(
    first: Seq<Resource>,
    before: Seq<Resource>,
    now: Seq<Resource>,
    b: BucketBuilderView,
    bucket: crate::shared::RefView,
    count: int,
    next: bool,
)
    requires
        queue_policies_hold(first, before, b, bucket, count),
        grows(before, now),
        0 <= count,
        next ==> count < b.sqs_destinations.len(),
        next ==> has_id(before, b.sqs_destinations[count].0 + QUEUE_POLICY_ID_SUFFIX@) == queue_has_policy(first, b, count),
        next && has_id(before, b.sqs_destinations[count].0 + QUEUE_POLICY_ID_SUFFIX@) ==> queue_policy_allows(
            now,
            b.sqs_destinations[count].0 + QUEUE_POLICY_ID_SUFFIX@,
            b.sqs_destinations[count].2,
            crate::shared::arn_json(bucket.resource_id, bucket.arn_value),
        ),
    ensures
        queue_policies_hold(first, now, b, bucket, if next { count + 1 } else { count }),
{
    reveal(queue_policies_hold);
    let bucket_arn = crate::shared::arn_json(bucket.resource_id, bucket.arn_value);
    assert forall|k: int|
        #![trigger b.sqs_destinations[k]]
        0 <= k < (if next { count + 1 } else { count }) && queue_has_policy(first, b, k) implies queue_policy_allows(
            now,
            b.sqs_destinations[k].0 + QUEUE_POLICY_ID_SUFFIX@,
            b.sqs_destinations[k].2,
            bucket_arn,
        ) by {
        if k < count {
            lemma_queue_allows_kept(before, now, b.sqs_destinations[k].0 + QUEUE_POLICY_ID_SUFFIX@, b.sqs_destinations[k].2, bucket_arn);
        }
    }
}

/// No destination policy is accounted for yet.
proof fn lemma_no_policies(first: Seq<Resource>, rs: Seq<Resource>, b: BucketBuilderView, bucket: crate::shared::RefView)
    ensures
        topic_policies_hold(first, rs, b, bucket, 0),
        queue_policies_hold(first, rs, b, bucket, 0),
{
    reveal(topic_policies_hold);
    reveal(queue_policies_hold);
}

/// The resources of a notification to a function stay where they are while the positions they
/// take keep their resources.
proof fn lemma_lambda_block_kept(
    a: Seq<Resource>,
    c: Seq<Resource>,
    p: int,
    bucket_id: Seq<char>,
    bucket: crate::shared::RefView,
    i: nat,
    arn: JsonView,
    event: Seq<char>,
)
    requires
        lambda_block(c, p, bucket_id, bucket, i, arn, event),
        a.len() >= c.len(),
        forall|q: int| p <= q < p + 5 ==> a[q] == c[q],
    ensures
        lambda_block(a, p, bucket_id, bucket, i, arn, event),
{
    reveal(lambda_block);
    assert(a[p] == c[p]);
    assert(a[p + 1] == c[p + 1]);
    assert(a[p + 2] == c[p + 2]);
    assert(a[p + 3] == c[p + 3]);
    assert(a[p + 4] == c[p + 4]);
}

/// The resources of a notification to a topic stay where they are while the positions they
/// take keep their resources.
proof fn lemma_topic_block_kept(
    a: Seq<Resource>,
    c: Seq<Resource>,
    p: int,
    bucket_id: Seq<char>,
    bucket: crate::shared::RefView,
    i: nat,
    new_policy: bool,
    policy_id: Seq<char>,
    reference: JsonView,
    event: Seq<char>,
)
    requires
        topic_block(c, p, bucket_id, bucket, i, new_policy, policy_id, reference, event),
        a.len() >= c.len(),
        forall|q: int| p <= q < p + policy_step_count(!new_policy) ==> a[q] == c[q],
    ensures
        topic_block(a, p, bucket_id, bucket, i, new_policy, policy_id, reference, event),
{
    reveal(topic_block);
    assert(a[p] == c[p]);
    assert(a[p + 1] == c[p + 1]);
    assert(a[p + 2] == c[p + 2]);
    assert(a[p + 3] == c[p + 3]);
    if new_policy {
        assert(a[p + 4] == c[p + 4]);
    }
}

/// The resources of a notification to a queue stay where they are while the positions they
/// take keep their resources.
proof fn lemma_queue_block_kept(
    a: Seq<Resource>,
    c: Seq<Resource>,
    p: int,
    bucket_id: Seq<char>,
    bucket: crate::shared::RefView,
    i: nat,
    new_policy: bool,
    policy_id: Seq<char>,
    reference: JsonView,
    arn: JsonView,
    event: Seq<char>,
)
    requires
        queue_block(c, p, bucket_id, bucket, i, new_policy, policy_id, reference, arn, event),
        a.len() >= c.len(),
        forall|q: int| p <= q < p + policy_step_count(!new_policy) ==> a[q] == c[q],
    ensures
        queue_block(a, p, bucket_id, bucket, i, new_policy, policy_id, reference, arn, event),
{
    reveal(queue_block);
    assert(a[p] == c[p]);
    assert(a[p + 1] == c[p + 1]);
    assert(a[p + 2] == c[p + 2]);
    assert(a[p + 3] == c[p + 3]);
    if new_policy {
        assert(a[p + 4] == c[p + 4]);
    }
}

/// Whether the stack holds the policy of a destination is the same before and during the
/// notifications: the resources that were there keep their ids, and those added have ids that
/// the bucket creates, which no destination policy has.
proof fn lemma_has_policy_same(first: Seq<Resource>, cur: Seq<Resource>, b: BucketBuilderView, pid: Seq<char>)
    requires
        cur.len() >= first.len(),
        forall|j: int| 0 <= j < first.len() ==> #[trigger] shape_kept(cur[j], first[j]),
        forall|j: int| first.len() <= j < cur.len() ==> #[trigger] bucket_created_id(b, cur[j].id_view()),
        !bucket_created_id(b, pid),
    ensures
        has_id(cur, pid) == has_id(first, pid),
{
    if has_id(cur, pid) {
        let j = choose|j: int| 0 <= j < cur.len() && #[trigger] cur[j].id_view() == pid;
        if j >= first.len() {
            assert(bucket_created_id(b, cur[j].id_view()));
        } else {
            assert(shape_kept(cur[j], first[j]));
            assert(first[j].id_view() == pid);
        }
    }
    if has_id(first, pid) {
        let j = choose|j: int| 0 <= j < first.len() && #[trigger] first[j].id_view() == pid;
        assert(shape_kept(cur[j], first[j]));
        assert(cur[j].id_view() == pid);
    }
}

/// The resources that the first `j` notifications to topics add are no fewer than those of the
/// first `k`, and at least those of the first `k - 1` and the `k - 1`th.
proof fn lemma_topic_steps_mono(rs: Seq<Resource>, b: BucketBuilderView, k: nat, j: nat)
    requires
        k <= j,
    ensures
        topic_steps_len(rs, b, k) <= topic_steps_len(rs, b, j),
    decreases j - k,
{
    if k < j {
        lemma_topic_steps_mono(rs, b, k, (j - 1) as nat);
    }
}

/// The resources that the first `j` notifications to queues add are no fewer than those of the
/// first `k`.
proof fn lemma_queue_steps_mono(rs: Seq<Resource>, b: BucketBuilderView, k: nat, j: nat)
    requires
        k <= j,
    ensures
        queue_steps_len(rs, b, k) <= queue_steps_len(rs, b, j),
    decreases j - k,
{
    if k < j {
        lemma_queue_steps_mono(rs, b, k, (j - 1) as nat);
    }
}

/// The resources before the bucket keep theirs but for the policies of destinations, and those
/// from the bucket up to the notifications stay as `mid` has them.
#[verifier::opaque]
spec fn frame_kept(first: Seq<Resource>, mid: Seq<Resource>, rs: Seq<Resource>, b: BucketBuilderView) -> bool {
    &&& forall|q: int| first.len() <= q < mid.len() ==> #[trigger] rs[q] == mid[q]
    &&& forall|j: int| 0 <= j < first.len() && !destination_policy_id(b, first[j].id_view()) ==> #[trigger] rs[j] == first[j]
}

/// The resources of the first `count` notifications to functions stand from `base`.
#[verifier::opaque]
spec fn lambda_blocks_hold(rs: Seq<Resource>, b: BucketBuilderView, bucket: crate::shared::RefView, base: int, count: int) -> bool {
    forall|k: int|
        #![trigger b.lambda_destinations[k]]
        0 <= k < count ==> lambda_block(
            rs,
            base + 5 * k,
            b.id.0@,
            bucket,
            k as nat,
            b.lambda_destinations[k].0,
            b.lambda_destinations[k].1,
        )
}

/// The resources of the first `count` notifications to topics stand from `base`.
#[verifier::opaque]
spec fn topic_blocks_hold(
    first: Seq<Resource>,
    rs: Seq<Resource>,
    b: BucketBuilderView,
    bucket: crate::shared::RefView,
    base: int,
    count: int,
) -> bool {
    forall|k: int|
        #![trigger b.sns_destinations[k]]
        0 <= k < count ==> topic_block(
            rs,
            base + topic_steps_len(first, b, k as nat),
            b.id.0@,
            bucket,
            k as nat,
            !topic_has_policy(first, b, k),
            b.sns_destinations[k].0 + TOPIC_POLICY_ID_SUFFIX@,
            b.sns_destinations[k].1,
            b.sns_destinations[k].2,
        )
}

/// The resources of the first `count` notifications to queues stand from `base`.
#[verifier::opaque]
spec fn queue_blocks_hold(
    first: Seq<Resource>,
    rs: Seq<Resource>,
    b: BucketBuilderView,
    bucket: crate::shared::RefView,
    base: int,
    count: int,
) -> bool {
    forall|k: int|
        #![trigger b.sqs_destinations[k]]
        0 <= k < count ==> queue_block(
            rs,
            base + queue_steps_len(first, b, k as nat),
            b.id.0@,
            bucket,
            k as nat,
            !queue_has_policy(first, b, k),
            b.sqs_destinations[k].0 + QUEUE_POLICY_ID_SUFFIX@,
            b.sqs_destinations[k].1,
            b.sqs_destinations[k].2,
            b.sqs_destinations[k].3,
        )
}

/// The resources of the first `count` notifications to functions stay while the positions from
/// `base` keep theirs.
proof fn lemma_lambda_blocks_kept(a: Seq<Resource>, c: Seq<Resource>, b: BucketBuilderView, bucket: crate::shared::RefView, base: int, count: int)
    requires
        lambda_blocks_hold(c, b, bucket, base, count),
        0 <= count <= b.lambda_destinations.len(),
        a.len() >= c.len(),
        c.len() >= base + 5 * count,
        forall|q: int| base <= q < c.len() ==> #[trigger] a[q] == c[q],
    ensures
        lambda_blocks_hold(a, b, bucket, base, count),
{
    reveal(lambda_blocks_hold);
    assert forall|k: int|
        #![trigger b.lambda_destinations[k]]
        0 <= k < count implies lambda_block(
            a,
            base + 5 * k,
            b.id.0@,
            bucket,
            k as nat,
            b.lambda_destinations[k].0,
            b.lambda_destinations[k].1,
        ) by {
        lemma_lambda_block_kept(a, c, base + 5 * k, b.id.0@, bucket, k as nat, b.lambda_destinations[k].0, b.lambda_destinations[k].1);
    }
}

/// The resources of the first `count` notifications to topics stay while the positions from
/// `base` keep theirs.
proof fn lemma_topic_blocks_kept(
    first: Seq<Resource>,
    a: Seq<Resource>,
    c: Seq<Resource>,
    b: BucketBuilderView,
    bucket: crate::shared::RefView,
    base: int,
    count: int,
)
    requires
        topic_blocks_hold(first, c, b, bucket, base, count),
        0 <= count <= b.sns_destinations.len(),
        a.len() >= c.len(),
        c.len() >= base + topic_steps_len(first, b, count as nat),
        forall|q: int| base <= q < c.len() ==> #[trigger] a[q] == c[q],
    ensures
        topic_blocks_hold(first, a, b, bucket, base, count),
{
    reveal(topic_blocks_hold);
    assert forall|k: int|
        #![trigger b.sns_destinations[k]]
        0 <= k < count implies topic_block(
            a,
            base + topic_steps_len(first, b, k as nat),
            b.id.0@,
            bucket,
            k as nat,
            !topic_has_policy(first, b, k),
            b.sns_destinations[k].0 + TOPIC_POLICY_ID_SUFFIX@,
            b.sns_destinations[k].1,
            b.sns_destinations[k].2,
        ) by {
        lemma_topic_steps_mono(first, b, 0, k as nat);
        lemma_topic_steps_mono(first, b, (k + 1) as nat, count as nat);
        assert(topic_steps_len(first, b, (k + 1) as nat) == topic_steps_len(first, b, k as nat) + policy_step_count(
            topic_has_policy(first, b, k),
        ));
        lemma_topic_block_kept(
            a,
            c,
            base + topic_steps_len(first, b, k as nat),
            b.id.0@,
            bucket,
            k as nat,
            !topic_has_policy(first, b, k),
            b.sns_destinations[k].0 + TOPIC_POLICY_ID_SUFFIX@,
            b.sns_destinations[k].1,
            b.sns_destinations[k].2,
        );
    }
}

/// The resources of the first `count` notifications to queues stay while the positions from
/// `base` keep theirs.
proof fn lemma_queue_blocks_kept(
    first: Seq<Resource>,
    a: Seq<Resource>,
    c: Seq<Resource>,
    b: BucketBuilderView,
    bucket: crate::shared::RefView,
    base: int,
    count: int,
)
    requires
        queue_blocks_hold(first, c, b, bucket, base, count),
        0 <= count <= b.sqs_destinations.len(),
        a.len() >= c.len(),
        c.len() >= base + queue_steps_len(first, b, count as nat),
        forall|q: int| base <= q < c.len() ==> #[trigger] a[q] == c[q],
    ensures
        queue_blocks_hold(first, a, b, bucket, base, count),
{
    reveal(queue_blocks_hold);
    assert forall|k: int|
        #![trigger b.sqs_destinations[k]]
        0 <= k < count implies queue_block(
            a,
            base + queue_steps_len(first, b, k as nat),
            b.id.0@,
            bucket,
            k as nat,
            !queue_has_policy(first, b, k),
            b.sqs_destinations[k].0 + QUEUE_POLICY_ID_SUFFIX@,
            b.sqs_destinations[k].1,
            b.sqs_destinations[k].2,
            b.sqs_destinations[k].3,
        ) by {
        lemma_queue_steps_mono(first, b, 0, k as nat);
        lemma_queue_steps_mono(first, b, (k + 1) as nat, count as nat);
        assert(queue_steps_len(first, b, (k + 1) as nat) == queue_steps_len(first, b, k as nat) + policy_step_count(
            queue_has_policy(first, b, k),
        ));
        lemma_queue_block_kept(
            a,
            c,
            base + queue_steps_len(first, b, k as nat),
            b.id.0@,
            bucket,
            k as nat,
            !queue_has_policy(first, b, k),
            b.sqs_destinations[k].0 + QUEUE_POLICY_ID_SUFFIX@,
            b.sqs_destinations[k].1,
            b.sqs_destinations[k].2,
            b.sqs_destinations[k].3,
        );
    }
}

/// No notification has been added yet: there is nothing to hold.
proof fn lemma_no_blocks(first: Seq<Resource>, rs: Seq<Resource>, b: BucketBuilderView, bucket: crate::shared::RefView, base: int)
    ensures
        lambda_blocks_hold(rs, b, bucket, base, 0),
        topic_blocks_hold(first, rs, b, bucket, base, 0),
        queue_blocks_hold(first, rs, b, bucket, base, 0),
        topic_steps_len(first, b, 0) == 0,
        queue_steps_len(first, b, 0) == 0,
{
    reveal(lambda_blocks_hold);
    reveal(topic_blocks_hold);
    reveal(queue_blocks_hold);
}

/// Before the notifications, the frame is kept: the resources before the bucket are unchanged.
proof fn lemma_frame_start(first: Seq<Resource>, mid: Seq<Resource>, b: BucketBuilderView)
    requires
        mid.len() >= first.len(),
        forall|j: int| 0 <= j < first.len() ==> #[trigger] mid[j] == first[j],
    ensures
        frame_kept(first, mid, mid, b),
{
    reveal(frame_kept);
}

/// After the `i`th notification to a function, the resources of those so far still stand, and
/// the frame is kept.
proof fn lemma_lambda_step(
    first: Seq<Resource>,
    mid: Seq<Resource>,
    before: Seq<Resource>,
    now: Seq<Resource>,
    b: BucketBuilderView,
    bucket: crate::shared::RefView,
    n: int,
    w: int,
    i: int,
)
    requires
        0 <= i < b.lambda_destinations.len(),
        n == first.len(),
        0 <= w,
        mid.len() == n + 1 + w,
        before.len() == n + 1 + w + 5 * i,
        frame_kept(first, mid, before, b),
        lambda_blocks_hold(before, b, bucket, n + 1 + w, i),
        now.len() == before.len() + 5,
        now.subrange(0, before.len() as int) == before,
        lambda_block(now, before.len() as int, b.id.0@, bucket, i as nat, b.lambda_destinations[i].0, b.lambda_destinations[i].1),
    ensures
        frame_kept(first, mid, now, b),
        lambda_blocks_hold(now, b, bucket, n + 1 + w, i + 1),
{
    reveal(frame_kept);
    reveal(lambda_blocks_hold);
    assert forall|q: int| 0 <= q < before.len() implies #[trigger] now[q] == before[q] by {
        assert(now.subrange(0, before.len() as int)[q] == now[q]);
    }
    assert forall|k: int|
        #![trigger b.lambda_destinations[k]]
        0 <= k < i + 1 implies lambda_block(
            now,
            n + 1 + w + 5 * k,
            b.id.0@,
            bucket,
            k as nat,
            b.lambda_destinations[k].0,
            b.lambda_destinations[k].1,
        ) by {
        if k < i {
            lemma_lambda_block_kept(now, before, n + 1 + w + 5 * k, b.id.0@, bucket, k as nat, b.lambda_destinations[k].0, b.lambda_destinations[k].1);
        }
    }
}

/// What the notifications to destinations with policies need of the stack before the `i`th:
/// the resources before the bucket keep their ids, and the others have ids the bucket creates.
spec fn ids_kept(first: Seq<Resource>, before: Seq<Resource>, b: BucketBuilderView) -> bool {
    &&& before.len() >= first.len()
    &&& forall|j: int| 0 <= j < first.len() ==> #[trigger] shape_kept(before[j], first[j])
    &&& forall|j: int| first.len() <= j < before.len() ==> #[trigger] bucket_created_id(b, before[j].id_view())
}

/// After the `i`th notification to a topic, the resources of the notifications so far still
/// stand, and the frame is kept.
proof fn lemma_topic_step(
    first: Seq<Resource>,
    mid: Seq<Resource>,
    before: Seq<Resource>,
    now: Seq<Resource>,
    b: BucketBuilderView,
    bucket: crate::shared::RefView,
    n: int,
    w: int,
    i: int,
)
    requires
        0 <= i < b.sns_destinations.len(),
        n == first.len(),
        0 <= w,
        mid.len() == n + 1 + w,
        before.len() == n + 1 + w + 5 * b.lambda_destinations.len() + topic_steps_len(first, b, i as nat),
        frame_kept(first, mid, before, b),
        lambda_blocks_hold(before, b, bucket, n + 1 + w, b.lambda_destinations.len() as int),
        topic_blocks_hold(first, before, b, bucket, n + 1 + w + 5 * b.lambda_destinations.len(), i),
        ids_kept(first, before, b),
        destination_policies_fit(first, b),
        now.len() == before.len() + policy_step_count(has_id(before, b.sns_destinations[i].0 + TOPIC_POLICY_ID_SUFFIX@)),
        topic_block(
            now,
            before.len() as int,
            b.id.0@,
            bucket,
            i as nat,
            !has_id(before, b.sns_destinations[i].0 + TOPIC_POLICY_ID_SUFFIX@),
            b.sns_destinations[i].0 + TOPIC_POLICY_ID_SUFFIX@,
            b.sns_destinations[i].1,
            b.sns_destinations[i].2,
        ),
        forall|k: int| 0 <= k < before.len() && before[k].id_view() != b.sns_destinations[i].0 + TOPIC_POLICY_ID_SUFFIX@ ==> #[trigger] now[k] == before[k],
    ensures
        has_id(before, b.sns_destinations[i].0 + TOPIC_POLICY_ID_SUFFIX@) == topic_has_policy(first, b, i),
        frame_kept(first, mid, now, b),
        now.len() == n + 1 + w + 5 * b.lambda_destinations.len() + topic_steps_len(first, b, (i + 1) as nat),
        lambda_blocks_hold(now, b, bucket, n + 1 + w, b.lambda_destinations.len() as int),
        topic_blocks_hold(first, now, b, bucket, n + 1 + w + 5 * b.lambda_destinations.len(), i + 1),
{
    reveal(frame_kept);
    reveal(topic_blocks_hold);
    let pid = b.sns_destinations[i].0 + TOPIC_POLICY_ID_SUFFIX@;
    lemma_topic_steps_mono(first, b, 0, i as nat);
    assert(!bucket_created_id(b, pid));
    lemma_has_policy_same(first, before, b, pid);
    assert forall|q: int| n <= q < before.len() implies #[trigger] now[q] == before[q] by {
        assert(bucket_created_id(b, before[q].id_view()));
    }
    assert forall|j: int| 0 <= j < n && !destination_policy_id(b, first[j].id_view()) implies #[trigger] now[j] == first[j] by {
        assert(before[j] == first[j]);
        if first[j].id_view() == pid {
            assert(destination_policy_id(b, first[j].id_view()));
        }
    }
    assert forall|q: int| n <= q < mid.len() implies #[trigger] now[q] == mid[q] by {
        assert(before[q] == mid[q]);
        assert(now[q] == before[q]);
    }
    let base = n + 1 + w + 5 * b.lambda_destinations.len();
    lemma_lambda_blocks_kept(now, before, b, bucket, n + 1 + w, b.lambda_destinations.len() as int);
    lemma_topic_blocks_kept(first, now, before, b, bucket, base, i);
    assert(topic_steps_len(first, b, (i + 1) as nat) == topic_steps_len(first, b, i as nat) + policy_step_count(
        topic_has_policy(first, b, i),
    ));
    assert(topic_blocks_hold(first, now, b, bucket, base, i + 1)) by {
        assert forall|k: int|
            #![trigger b.sns_destinations[k]]
            0 <= k < i + 1 implies topic_block(
                now,
                base + topic_steps_len(first, b, k as nat),
                b.id.0@,
                bucket,
                k as nat,
                !topic_has_policy(first, b, k),
                b.sns_destinations[k].0 + TOPIC_POLICY_ID_SUFFIX@,
                b.sns_destinations[k].1,
                b.sns_destinations[k].2,
            ) by {
            if k == i {
                assert(before.len() == base + topic_steps_len(first, b, k as nat));
            }
        }
    }
}

/// After the `i`th notification to a queue, the resources of the notifications so far still
/// stand, and the frame is kept.
proof fn lemma_queue_step(
    first: Seq<Resource>,
    mid: Seq<Resource>,
    before: Seq<Resource>,
    now: Seq<Resource>,
    b: BucketBuilderView,
    bucket: crate::shared::RefView,
    n: int,
    w: int,
    i: int,
)
    requires
        0 <= i < b.sqs_destinations.len(),
        n == first.len(),
        0 <= w,
        mid.len() == n + 1 + w,
        before.len() == n + 1 + w + 5 * b.lambda_destinations.len() + topic_steps_len(first, b, b.sns_destinations.len())
            + queue_steps_len(first, b, i as nat),
        frame_kept(first, mid, before, b),
        lambda_blocks_hold(before, b, bucket, n + 1 + w, b.lambda_destinations.len() as int),
        topic_blocks_hold(first, before, b, bucket, n + 1 + w + 5 * b.lambda_destinations.len(), b.sns_destinations.len() as int),
        queue_blocks_hold(
            first,
            before,
            b,
            bucket,
            n + 1 + w + 5 * b.lambda_destinations.len() + topic_steps_len(first, b, b.sns_destinations.len()),
            i,
        ),
        ids_kept(first, before, b),
        destination_policies_fit(first, b),
        now.len() == before.len() + policy_step_count(has_id(before, b.sqs_destinations[i].0 + QUEUE_POLICY_ID_SUFFIX@)),
        queue_block(
            now,
            before.len() as int,
            b.id.0@,
            bucket,
            i as nat,
            !has_id(before, b.sqs_destinations[i].0 + QUEUE_POLICY_ID_SUFFIX@),
            b.sqs_destinations[i].0 + QUEUE_POLICY_ID_SUFFIX@,
            b.sqs_destinations[i].1,
            b.sqs_destinations[i].2,
            b.sqs_destinations[i].3,
        ),
        forall|k: int| 0 <= k < before.len() && before[k].id_view() != b.sqs_destinations[i].0 + QUEUE_POLICY_ID_SUFFIX@ ==> #[trigger] now[k] == before[k],
    ensures
        has_id(before, b.sqs_destinations[i].0 + QUEUE_POLICY_ID_SUFFIX@) == queue_has_policy(first, b, i),
        frame_kept(first, mid, now, b),
        now.len() == n + 1 + w + 5 * b.lambda_destinations.len() + topic_steps_len(first, b, b.sns_destinations.len())
            + queue_steps_len(first, b, (i + 1) as nat),
        lambda_blocks_hold(now, b, bucket, n + 1 + w, b.lambda_destinations.len() as int),
        topic_blocks_hold(first, now, b, bucket, n + 1 + w + 5 * b.lambda_destinations.len(), b.sns_destinations.len() as int),
        queue_blocks_hold(
            first,
            now,
            b,
            bucket,
            n + 1 + w + 5 * b.lambda_destinations.len() + topic_steps_len(first, b, b.sns_destinations.len()),
            i + 1,
        ),
{
    reveal(frame_kept);
    reveal(queue_blocks_hold);
    let pid = b.sqs_destinations[i].0 + QUEUE_POLICY_ID_SUFFIX@;
    lemma_topic_steps_mono(first, b, 0, b.sns_destinations.len());
    lemma_queue_steps_mono(first, b, 0, i as nat);
    assert(!bucket_created_id(b, pid));
    lemma_has_policy_same(first, before, b, pid);
    assert forall|q: int| n <= q < before.len() implies #[trigger] now[q] == before[q] by {
        assert(bucket_created_id(b, before[q].id_view()));
    }
    assert forall|j: int| 0 <= j < n && !destination_policy_id(b, first[j].id_view()) implies #[trigger] now[j] == first[j] by {
        assert(before[j] == first[j]);
        if first[j].id_view() == pid {
            assert(destination_policy_id(b, first[j].id_view()));
        }
    }
    assert forall|q: int| n <= q < mid.len() implies #[trigger] now[q] == mid[q] by {
        assert(before[q] == mid[q]);
        assert(now[q] == before[q]);
    }
    let tbase = n + 1 + w + 5 * b.lambda_destinations.len();
    let qbase = tbase + topic_steps_len(first, b, b.sns_destinations.len());
    lemma_lambda_blocks_kept(now, before, b, bucket, n + 1 + w, b.lambda_destinations.len() as int);
    lemma_topic_blocks_kept(first, now, before, b, bucket, tbase, b.sns_destinations.len() as int);
    lemma_queue_blocks_kept(first, now, before, b, bucket, qbase, i);
    assert(queue_steps_len(first, b, (i + 1) as nat) == queue_steps_len(first, b, i as nat) + policy_step_count(
        queue_has_policy(first, b, i),
    ));
    assert(queue_blocks_hold(first, now, b, bucket, qbase, i + 1)) by {
        assert forall|k: int|
            #![trigger b.sqs_destinations[k]]
            0 <= k < i + 1 implies queue_block(
                now,
                qbase + queue_steps_len(first, b, k as nat),
                b.id.0@,
                bucket,
                k as nat,
                !queue_has_policy(first, b, k),
                b.sqs_destinations[k].0 + QUEUE_POLICY_ID_SUFFIX@,
                b.sqs_destinations[k].1,
                b.sqs_destinations[k].2,
                b.sqs_destinations[k].3,
            ) by {
            if k == i {
                assert(before.len() == qbase + queue_steps_len(first, b, k as nat));
            }
        }
    }
}

/// Once all notifications are added, the resources stand as [`notifications_added`] says.
proof fn lemma_notifications_done(
    first: Seq<Resource>,
    mid: Seq<Resource>,
    now: Seq<Resource>,
    b: BucketBuilderView,
    bucket: crate::shared::RefView,
    n: int,
    w: int,
)
    requires
        n == first.len(),
        0 <= w,
        mid.len() == n + 1 + w,
        frame_kept(first, mid, now, b),
        now.len() == n + 1 + w + 5 * b.lambda_destinations.len() + topic_steps_len(first, b, b.sns_destinations.len())
            + queue_steps_len(first, b, b.sqs_destinations.len()),
        lambda_blocks_hold(now, b, bucket, n + 1 + w, b.lambda_destinations.len() as int),
        topic_blocks_hold(first, now, b, bucket, n + 1 + w + 5 * b.lambda_destinations.len(), b.sns_destinations.len() as int),
        queue_blocks_hold(
            first,
            now,
            b,
            bucket,
            n + 1 + w + 5 * b.lambda_destinations.len() + topic_steps_len(first, b, b.sns_destinations.len()),
            b.sqs_destinations.len() as int,
        ),
        topic_policies_hold(first, now, b, bucket, b.sns_destinations.len() as int),
        queue_policies_hold(first, now, b, bucket, b.sqs_destinations.len() as int),
    ensures
        notifications_added(first, now, b, n + 1 + w, bucket),
        forall|j: int| 0 <= j < n && !destination_policy_id(b, first[j].id_view()) ==> #[trigger] now[j] == first[j],
        forall|q: int| n <= q < mid.len() ==> #[trigger] now[q] == mid[q],
{
    reveal(topic_policies_hold);
    reveal(queue_policies_hold);
    reveal(frame_kept);
    reveal(lambda_blocks_hold);
    reveal(topic_blocks_hold);
    reveal(queue_blocks_hold);
}

proof fn lemma_shape_kept_trans(a: Resource, b: Resource, c: Resource)
    requires
        shape_kept(a, b),
        shape_kept(b, c),
    ensures
        shape_kept(a, c),
{
}

proof fn lemma_lambda_step_created(b: BucketBuilderView, i: nat, x: Seq<char>)
    requires
        i < b.lambda_destinations.len(),
        lambda_step_id(b.id.0@, i, x),
    ensures
        bucket_created_id(b, x),
{
    let id = b.id.0@;
    let h = "Lambda"@ + "Handler"@ + decimal(i);
    if x == id + ("LambdaDestPerm"@ + decimal(i)) {
        assert(bucket_created_suffix(b, "LambdaDestPerm"@ + decimal(i)));
    } else if x == id + h {
        assert(bucket_created_suffix(b, h));
    } else if x == id + h + "Role"@ {
        assert(x =~= id + (h + "Role"@));
        assert(bucket_created_suffix(b, h + "Role"@));
    } else if x == id + h + "LogGroup"@ {
        assert(x =~= id + (h + "LogGroup"@));
        assert(bucket_created_suffix(b, h + "LogGroup"@));
    } else {
        assert(bucket_created_suffix(b, "LambdaNotification"@ + decimal(i)));
    }
}

proof fn lemma_sns_step_created(b: BucketBuilderView, i: nat, x: Seq<char>)
    requires
        i < b.sns_destinations.len(),
        policy_step_id(b.id.0@, "SNS"@, "SNSDestinationPolicy"@, "SNSNotification"@, i, x),
    ensures
        bucket_created_id(b, x),
{
    let id = b.id.0@;
    let h = "SNS"@ + "Handler"@ + decimal(i);
    if x == id + h {
        assert(bucket_created_suffix(b, h));
    } else if x == id + h + "Role"@ {
        assert(x =~= id + (h + "Role"@));
        assert(bucket_created_suffix(b, h + "Role"@));
    } else if x == id + h + "LogGroup"@ {
        assert(x =~= id + (h + "LogGroup"@));
        assert(bucket_created_suffix(b, h + "LogGroup"@));
    } else if x == id + ("SNSDestinationPolicy"@ + decimal(i)) {
        assert(bucket_created_suffix(b, "SNSDestinationPolicy"@ + decimal(i)));
    } else {
        assert(bucket_created_suffix(b, "SNSNotification"@ + decimal(i)));
    }
}

proof fn lemma_sqs_step_created(b: BucketBuilderView, i: nat, x: Seq<char>)
    requires
        i < b.sqs_destinations.len(),
        policy_step_id(b.id.0@, "SQS"@, "SQSDestinationPolicy"@, "SQSNotification"@, i, x),
    ensures
        bucket_created_id(b, x),
{
    let id = b.id.0@;
    let h = "SQS"@ + "Handler"@ + decimal(i);
    if x == id + h {
        assert(bucket_created_suffix(b, h));
    } else if x == id + h + "Role"@ {
        assert(x =~= id + (h + "Role"@));
        assert(bucket_created_suffix(b, h + "Role"@));
    } else if x == id + h + "LogGroup"@ {
        assert(x =~= id + (h + "LogGroup"@));
        assert(bucket_created_suffix(b, h + "LogGroup"@));
    } else if x == id + ("SQSDestinationPolicy"@ + decimal(i)) {
        assert(bucket_created_suffix(b, "SQSDestinationPolicy"@ + decimal(i)));
    } else {
        assert(bucket_created_suffix(b, "SQSNotification"@ + decimal(i)));
    }
}

/// The resources from `start` on were added by building the bucket `b`, those before it keep
/// their shape from `first`, and the stack's tags and outputs are those of `first`.
pub open spec fn notifications_progress(
    first: StackBuilderView,
    mid: StackBuilderView,
    now: StackBuilderView,
    b: BucketBuilderView,
) -> bool {
    &&& now.tags == first.tags
    &&& now.outputs == first.outputs
    &&& now.resources.len() >= mid.resources.len()
    &&& forall|j: int| 0 <= j < mid.resources.len() ==> #[trigger] shape_kept(now.resources[j], mid.resources[j])
    &&& forall|j: int| first.resources.len() <= j < now.resources.len() ==> #[trigger] bucket_created_id(b, now.resources[j].id_view())
    &&& forall|j: int| 0 <= j < first.resources.len() ==> #[trigger] shape_kept(now.resources[j], first.resources[j])
}

impl BucketBuilder<StartState> {
    pub fn new(id: &str) -> (r: Self)
        ensures
            r@.id.0@ == id@,
            r@.abac_status is None,
            r@.acceleration_status is None,
            r@.name is None,
            r@.access is None,
            r@.intelligent_tiering_configurations is None,
            r@.metadata_configuration is None,
            r@.versioning_configuration is None,
            r@.lifecycle_configuration is None,
            r@.index_document is None,
            r@.error_document is None,
            r@.redirect_all_requests_to is None,
            r@.cors_config is None,
            r@.bucket_encryption is None,
            r@.lambda_destinations.len() == 0,
            r@.sns_destinations.len() == 0,
            r@.sqs_destinations.len() == 0,
            r@.deletion_policy is None,
            r@.update_replace_policy is None,
    {
        Self {
            id: Id(String::from_str(id)),
            phantom_data: PhantomData,
            abac_status: None,
            acceleration_status: None,
            name: None,
            access: None,
            intelligent_tiering_configurations: None,
            metadata_configuration: None,
            versioning_configuration: None,
            lifecycle_configuration: None,
            index_document: None,
            error_document: None,
            redirect_all_requests_to: None,
            cors_config: None,
            bucket_encryption: None,
            bucket_notification_lambda_destinations: Vec::new(),
            bucket_notification_sns_destinations: Vec::new(),
            bucket_notification_sqs_destinations: Vec::new(),
            deletion_policy: None,
            update_replace_policy: None,
        }
    }

    /// Adds the bucket and the resources of its notifications to the stack.
    pub fn build(self, stack_builder: &mut StackBuilder) -> (r: BucketRef)
        requires
            destination_policies_fit(old(stack_builder)@.resources, self@),
        ensures
            bucket_resources_added(old(stack_builder)@, final(stack_builder)@, self@, false, r@, None),
    {
        let (bucket, _) = self.build_internal(false, stack_builder);
        bucket
    }
}

impl<T: BucketBuilderState> BucketBuilder<T> {
    pub fn name(self, name: BucketName) -> (r: Self)
        ensures
            r@ == (BucketBuilderView { name: Some(name.0), ..self@ }),
    {
        Self { name: Some(name.0), ..self }
    }

    pub fn abac_status(self, abac_status: AbacStatus) -> (r: Self)
        ensures
            r@ == (BucketBuilderView { abac_status: r@.abac_status, ..self@ }),
            r@.abac_status matches Some(s) && s@ == crate::s3::abac_status_name(abac_status),
    {
        Self { abac_status: Some(abac_status.into()), ..self }
    }

    pub fn acceleration_status(self, acceleration_status: AccelerationStatus) -> (r: Self)
        ensures
            r@ == (BucketBuilderView { acceleration_status: r@.acceleration_status, ..self@ }),
            r@.acceleration_status matches Some(s) && s@ == crate::s3::acceleration_status_name(acceleration_status),
    {
        Self { acceleration_status: Some(acceleration_status.into()), ..self }
    }

    pub fn metadata_configuration(self, config: MetadataConfiguration) -> (r: Self)
        ensures
            r@ == (BucketBuilderView { metadata_configuration: Some(config), ..self@ }),
    {
        Self { metadata_configuration: Some(config), ..self }
    }

    pub fn versioning_configuration(self, config: VersioningConfiguration) -> (r: Self)
        ensures
            r@ == (BucketBuilderView { versioning_configuration: Some(config), ..self@ }),
    {
        Self { versioning_configuration: Some(config), ..self }
    }

    pub fn lifecycle_configuration(self, config: LifecycleConfiguration) -> (r: Self)
        ensures
            r@ == (BucketBuilderView { lifecycle_configuration: Some(config), ..self@ }),
    {
        Self { lifecycle_configuration: Some(config), ..self }
    }

    pub fn public_access_block_configuration(self, access: PublicAccessBlockConfiguration) -> (r: Self)
        ensures
            r@ == (BucketBuilderView { access: Some(access), ..self@ }),
    {
        Self { access: Some(access), ..self }
    }

    pub fn encryption(self, encryption: Encryption) -> (r: Self)
        ensures
            r@ == (BucketBuilderView { bucket_encryption: Some(encryption), ..self@ }),
    {
        Self { bucket_encryption: Some(encryption), ..self }
    }

    pub fn update_replace_and_deletion_policy(
        self,
        update_replace_policy: UpdateReplacePolicy,
        deletion_policy: DeletionPolicy,
    ) -> (r: Self)
        ensures
            r@ == (BucketBuilderView {
                deletion_policy: r@.deletion_policy,
                update_replace_policy: r@.update_replace_policy,
                ..self@
            }),
            r@.deletion_policy matches Some(d) && d@ == deletion_policy_name(deletion_policy),
            r@.update_replace_policy matches Some(u) && u@ == update_replace_policy_name(update_replace_policy),
    {
        Self { deletion_policy: Some(deletion_policy.into()), update_replace_policy: Some(update_replace_policy.into()), ..self }
    }

    /// Adds an intelligent tiering configuration; the first one starts the list.
    pub fn add_intelligent_tiering(self, tiering: IntelligentTieringConfiguration) -> (r: Self)
        ensures
            r@ == (BucketBuilderView { intelligent_tiering_configurations: r@.intelligent_tiering_configurations, ..self@ }),
            r@.intelligent_tiering_configurations matches Some(v) && v@ == match self@.intelligent_tiering_configurations {
                Some(old) => old@.push(tiering),
                None => seq![tiering],
            },
    {
        let configs = match self.intelligent_tiering_configurations {
            Some(configs) => {
                let mut configs = configs;
                configs.push(tiering);
                configs
            },
            None => {
                let mut configs = Vec::new();
                configs.push(tiering);
                configs
            },
        };
        Self { intelligent_tiering_configurations: Some(configs), ..self }
    }

    /// Sends the bucket's events of a kind to a function, a topic or a queue.
    pub fn add_notification(self, destination: NotificationDestination) -> (r: Self)
        ensures
            match destination {
                NotificationDestination::Lambda(l, e) => r@ == (BucketBuilderView {
                    lambda_destinations: self@.lambda_destinations.push(
                        (crate::shared::arn_json(l@.resource_id, l@.arn_value), notification_event_type_name(e)),
                    ),
                    ..self@
                }),
                NotificationDestination::Sns(t, e) => r@ == (BucketBuilderView {
                    sns_destinations: self@.sns_destinations.push(
                        (t@.id, crate::shared::ref_json(t@.resource_id, t@.ref_name), notification_event_type_name(e)),
                    ),
                    ..self@
                }),
                NotificationDestination::Sqs(q, e) => r@ == (BucketBuilderView {
                    sqs_destinations: self@.sqs_destinations.push(
                        (
                            q@.id,
                            crate::shared::ref_json(q@.resource_id, q@.ref_name),
                            crate::shared::arn_json(q@.resource_id, q@.arn_value),
                            notification_event_type_name(e),
                        ),
                    ),
                    ..self@
                }),
            },
    {
        let mut me = self;
        match destination {
            NotificationDestination::Lambda(l, e) => {
                let ghost before = me.bucket_notification_lambda_destinations@;
                me.bucket_notification_lambda_destinations.push((l.get_arn(), e.into()));
                assert(lambda_destination_views(me.bucket_notification_lambda_destinations@) =~= lambda_destination_views(
                    before,
                ).push(lambda_destination_views(me.bucket_notification_lambda_destinations@).last()));
            },
            NotificationDestination::Sns(s, e) => {
                let ghost before = me.bucket_notification_sns_destinations@;
                me.bucket_notification_sns_destinations.push((s.get_id().clone(), s.get_ref(), e.into()));
                assert(sns_destination_views(me.bucket_notification_sns_destinations@) =~= sns_destination_views(before).push(
                    sns_destination_views(me.bucket_notification_sns_destinations@).last(),
                ));
            },
            NotificationDestination::Sqs(q, e) => {
                let ghost before = me.bucket_notification_sqs_destinations@;
                me.bucket_notification_sqs_destinations.push((q.get_id().clone(), q.get_ref(), q.get_arn(), e.into()));
                assert(sqs_destination_views(me.bucket_notification_sqs_destinations@) =~= sqs_destination_views(before).push(
                    sqs_destination_views(me.bucket_notification_sqs_destinations@).last(),
                ));
            },
        }
        me
    }

    /// Makes the bucket a website with the given index document.
    pub fn website(self, index_document: &str) -> (r: BucketBuilder<WebsiteState>)
        ensures
            r@ == (BucketBuilderView { index_document: r@.index_document, ..self@ }),
            r@.index_document matches Some(d) && d@ == index_document@,
    {
        BucketBuilder {
            phantom_data: PhantomData,
            id: self.id,
            abac_status: self.abac_status,
            acceleration_status: self.acceleration_status,
            name: self.name,
            access: self.access,
            intelligent_tiering_configurations: self.intelligent_tiering_configurations,
            metadata_configuration: self.metadata_configuration,
            versioning_configuration: self.versioning_configuration,
            lifecycle_configuration: self.lifecycle_configuration,
            index_document: Some(String::from_str(index_document)),
            error_document: self.error_document,
            redirect_all_requests_to: self.redirect_all_requests_to,
            cors_config: self.cors_config,
            bucket_encryption: self.bucket_encryption,
            bucket_notification_lambda_destinations: self.bucket_notification_lambda_destinations,
            bucket_notification_sns_destinations: self.bucket_notification_sns_destinations,
            bucket_notification_sqs_destinations: self.bucket_notification_sqs_destinations,
            deletion_policy: self.deletion_policy,
            update_replace_policy: self.update_replace_policy,
        }
    }

    #[verifier::spinoff_prover]
    #[verifier::rlimit(40)]
    fn build_internal(self, website: bool, stack_builder: &mut StackBuilder) -> (r: (BucketRef, Option<BucketPolicyRef>))
        requires
            destination_policies_fit(old(stack_builder)@.resources, self@),
        ensures
            bucket_resources_added(
                old(stack_builder)@,
                final(stack_builder)@,
                self@,
                website,
                r.0@,
                match r.1 {
                    Some(p) => Some(p@),
                    None => None,
                },
            ),
    {
        let ghost b = self@;
        let ghost first = stack_builder@;
        let ghost n = first.resources.len() as int;
        let resource_id = Resource::generate_id("S3Bucket");
        let BucketBuilder {
            phantom_data: _,
            id,
            abac_status,
            acceleration_status,
            name,
            access,
            intelligent_tiering_configurations,
            metadata_configuration,
            versioning_configuration,
            lifecycle_configuration,
            index_document,
            error_document,
            redirect_all_requests_to,
            cors_config,
            bucket_encryption,
            bucket_notification_lambda_destinations,
            bucket_notification_sns_destinations,
            bucket_notification_sqs_destinations,
            deletion_policy,
            update_replace_policy,
        } = self;
        let versioning_configuration = match versioning_configuration {
            Some(c) => Some(VersioningConfig { status: c.into() }),
            None => None,
        };
        let website_configuration = if website {
            let redirect_all_requests_to = match redirect_all_requests_to {
                Some(r) => Some(
                    RedirectAllRequestsTo {
                        host_name: r.0,
                        protocol: match r.1 {
                            Some(p) => Some(p.into()),
                            None => None,
                        },
                    },
                ),
                None => None,
            };
            Some(WebsiteConfiguration { index_document, error_document, redirect_all_requests_to })
        } else {
            None
        };
        let access = if access.is_none() && website {
            Some(
                PublicAccessBlockConfiguration {
                    block_public_policy: Some(false),
                    restrict_public_buckets: Some(false),
                    block_public_acls: Some(true),
                    ignore_public_acls: Some(true),
                },
            )
        } else {
            access
        };
        let encryption = match bucket_encryption {
            Some(v) => {
                let rule = ServerSideEncryptionRule {
                    server_side_encryption_by_default: ServerSideEncryptionByDefault {
                        sse_algorithm: v.into(),
                        kms_master_key_id: None,
                    },
                    bucket_key_enabled: None,
                };
                let mut rules = Vec::new();
                rules.push(rule);
                Some(BucketEncryption { server_side_encryption_configuration: rules })
            },
            None => None,
        };
        let accelerate_configuration = match acceleration_status {
            Some(v) => Some(AccelerateConfiguration { acceleration_status: v }),
            None => None,
        };
        let properties = BucketProperties {
            abac_status,
            accelerate_configuration,
            bucket_name: name,
            cors_configuration: cors_config,
            intelligent_tiering_configurations,
            lifecycle_configuration,
            public_access_block_configuration: access,
            versioning_configuration,
            website_configuration,
            bucket_encryption: encryption,
            metadata_configuration,
        };
        stack_builder.add_resource(
            Resource::Bucket(
                Bucket {
                    id: id.clone(),
                    resource_id: resource_id.clone(),
                    resource_type: String::from_str("AWS::S3::Bucket"),
                    properties,
                    update_delete_policy_dto: UpdateDeletePolicyDTO { deletion_policy, update_replace_policy },
                },
            ),
        );
        let bucket = BucketRef::internal_new(resource_id);
        let policy = if website {
            let mut parts: Vec<Value> = Vec::new();
            parts.push(bucket.get_arn());
            parts.push(string_value("/*"));
            proof {
                reveal_with_fuel(json_views, 3);
                assert(parts@.drop_last().drop_last() =~= Seq::<Value>::empty());
                assert(json_views(parts@) =~= seq![get_arn_json(bucket@.resource_id), JsonView::String("/*"@)]);
            }
            let mut bucket_resource: Vec<Value> = Vec::new();
            bucket_resource.push(join("", parts));
            proof {
                reveal_with_fuel(json_views, 2);
                assert(bucket_resource@.drop_last() =~= Seq::<Value>::empty());
            }
            let mut actions: Vec<IamAction> = Vec::new();
            actions.push(IamAction(String::from_str("s3:GetObject")));
            assert(crate::iam::action_names(actions@) =~= seq!["s3:GetObject"@]);
            let statement = StatementBuilder::new(actions, Effect::Allow).resources(bucket_resource).principal(
                PrincipalBuilder::new().normal("*").build(),
            ).build();
            let mut statements = Vec::new();
            statements.push(statement);
            let policy_doc = PolicyDocumentBuilder::new(statements).build();
            let bucket_policy_id = Id::generate_id(&id, "S3Policy");
            let s3_policy = BucketPolicyBuilder::new(bucket_policy_id.0.as_str(), &bucket, policy_doc).build(stack_builder);
            Some(s3_policy)
        } else {
            None
        };
        let ghost mid = stack_builder@;
        let ghost w: int = if website { 1int } else { 0int };
        proof {
            if website {
                assert(mid.resources.drop_last().drop_last() =~= first.resources);
            } else {
                assert(mid.resources.drop_last() =~= first.resources);
            }
            assert(mid.resources.len() == n + 1 + w);
            assert(bucket@.resource_id == mid.resources[n].resource_id_view());
            assert forall|j: int| 0 <= j < n implies #[trigger] mid.resources[j] == first.resources[j] by {
                if website {
                    assert(mid.resources.drop_last().drop_last()[j] == mid.resources[j]);
                } else {
                    assert(mid.resources.drop_last()[j] == mid.resources[j]);
                }
            }
            assert forall|j: int| n <= j < mid.resources.len() implies #[trigger] bucket_created_id(b, mid.resources[j].id_view()) by {
                if j == n {
                    assert(bucket_created_suffix(b, Seq::<char>::empty()));
                    assert(b.id.0@ + Seq::<char>::empty() =~= b.id.0@);
                } else {
                    assert(bucket_created_suffix(b, "S3Policy"@));
                }
            }
            assert forall|j: int| 0 <= j < n implies #[trigger] shape_kept(mid.resources[j], first.resources[j]) by {
                if website {
                    assert(mid.resources.drop_last().drop_last() =~= first.resources);
                    assert(mid.resources.drop_last()[j] == mid.resources[j]);
                } else {
                    assert(mid.resources.drop_last() =~= first.resources);
                }
                assert(mid.resources[j] == first.resources[j]);
            }
        }
        proof {
            lemma_frame_start(first.resources, mid.resources, b);
            lemma_no_blocks(first.resources, mid.resources, b, bucket@, n + 1 + w);
        }
        let mut lambda_dests = bucket_notification_lambda_destinations;
        let total_l = lambda_dests.len();
        let mut i: usize = 0;
        assert(lambda_destination_views(lambda_dests@) =~= b.lambda_destinations.skip(0));
        while lambda_dests.len() > 0
            invariant
                i + lambda_dests@.len() == total_l,
                total_l == b.lambda_destinations.len(),
                lambda_destination_views(lambda_dests@) == b.lambda_destinations.skip(i as int),
                id == b.id,
                n == first.resources.len(),
                mid.resources.len() >= n,
                destination_policies_fit(first.resources, b),
                notifications_progress(first, mid, stack_builder@, b),
                w == (if website { 1int } else { 0int }),
                mid.resources.len() == n + 1 + w,
                bucket@.resource_id == mid.resources[n].resource_id_view(),
                frame_kept(first.resources, mid.resources, stack_builder@.resources, b),
                stack_builder@.resources.len() == n + 1 + w + 5 * i,
                lambda_blocks_hold(stack_builder@.resources, b, bucket@, n + 1 + w, i as int),
            decreases lambda_dests@.len(),
        {
            let ghost old_dests = lambda_dests@;
            let (arn, event) = lambda_dests.remove(0);
            let ghost arn_view = arn@;
            let ghost event_view = event@;
            proof {
                assert(lambda_destination_views(old_dests)[0] == (old_dests[0].0@, old_dests[0].1@));
                assert(b.lambda_destinations.skip(i as int)[0] == b.lambda_destinations[i as int]);
            }
            proof {
                assert(lambda_destination_views(lambda_dests@) =~= lambda_destination_views(old_dests).skip(1));
            }
            let ghost before = stack_builder@;
            add_lambda_notification(&id, &bucket, i, arn, event, stack_builder);
            proof {
                let now = stack_builder@;
                assert forall|j: int| 0 <= j < mid.resources.len() implies #[trigger] shape_kept(now.resources[j], mid.resources[j]) by {
                    assert(now.resources.subrange(0, before.resources.len() as int)[j] == now.resources[j]);
                    assert(shape_kept(before.resources[j], mid.resources[j]));
                }
                assert forall|j: int| 0 <= j < n implies #[trigger] shape_kept(now.resources[j], first.resources[j]) by {
                    assert(now.resources.subrange(0, before.resources.len() as int)[j] == now.resources[j]);
                    assert(shape_kept(before.resources[j], first.resources[j]));
                }
                assert forall|j: int| n <= j < now.resources.len() implies #[trigger] bucket_created_id(b, now.resources[j].id_view()) by {
                    if j < before.resources.len() {
                        assert(now.resources.subrange(0, before.resources.len() as int)[j] == now.resources[j]);
                        assert(bucket_created_id(b, before.resources[j].id_view()));
                    } else {
                        lemma_lambda_step_created(b, i as nat, now.resources[j].id_view());
                    }
                }
                assert(b.lambda_destinations[i as int] == (arn_view, event_view));
                lemma_lambda_step(first.resources, mid.resources, before.resources, now.resources, b, bucket@, n, w, i as int);
            }
            i = i + 1;
        }
        proof {
            lemma_no_blocks(first.resources, stack_builder@.resources, b, bucket@, n + 1 + w + 5 * b.lambda_destinations.len());
            lemma_no_policies(first.resources, stack_builder@.resources, b, bucket@);
        }
        let mut sns_dests = bucket_notification_sns_destinations;
        let total_s = sns_dests.len();
        let mut i: usize = 0;
        assert(sns_destination_views(sns_dests@) =~= b.sns_destinations.skip(0));
        while sns_dests.len() > 0
            invariant
                i + sns_dests@.len() == total_s,
                total_s == b.sns_destinations.len(),
                sns_destination_views(sns_dests@) == b.sns_destinations.skip(i as int),
                id == b.id,
                n == first.resources.len(),
                mid.resources.len() >= n,
                destination_policies_fit(first.resources, b),
                notifications_progress(first, mid, stack_builder@, b),
                w == (if website { 1int } else { 0int }),
                mid.resources.len() == n + 1 + w,
                bucket@.resource_id == mid.resources[n].resource_id_view(),
                frame_kept(first.resources, mid.resources, stack_builder@.resources, b),
                stack_builder@.resources.len() == n + 1 + w + 5 * b.lambda_destinations.len() + topic_steps_len(first.resources, b, i as nat),
                lambda_blocks_hold(stack_builder@.resources, b, bucket@, n + 1 + w, b.lambda_destinations.len() as int),
                topic_blocks_hold(first.resources, stack_builder@.resources, b, bucket@, n + 1 + w + 5 * b.lambda_destinations.len(), i as int),
                topic_policies_hold(first.resources, stack_builder@.resources, b, bucket@, i as int),
            decreases sns_dests@.len(),
        {
            let ghost old_dests = sns_dests@;
            let (topic_id, reference, event) = sns_dests.remove(0);
            let ghost reference_view = reference@;
            let ghost event_view = event@;
            let ghost target = topic_id.0@ + TOPIC_POLICY_ID_SUFFIX@;
            proof {
                assert(sns_destination_views(sns_dests@) =~= sns_destination_views(old_dests).skip(1));
                assert(b.sns_destinations[i as int] == sns_destination_views(old_dests)[0]);
                let cur = stack_builder@.resources;
                assert forall|j: int| 0 <= j < cur.len() && #[trigger] cur[j].id_view() == target implies cur[j] is TopicPolicy by {
                    if j < n {
                        assert(shape_kept(cur[j], first.resources[j]));
                        assert(first.resources[j].id_view() == b.sns_destinations[i as int].0 + TOPIC_POLICY_ID_SUFFIX@);
                    } else {
                        assert(bucket_created_id(b, cur[j].id_view()));
                        assert(!bucket_created_id(b, b.sns_destinations[i as int].0 + TOPIC_POLICY_ID_SUFFIX@));
                    }
                }
                if policy_step_id(b.id.0@, "SNS"@, "SNSDestinationPolicy"@, "SNSNotification"@, i as nat, target) {
                    lemma_sns_step_created(b, i as nat, target);
                    assert(!bucket_created_id(b, b.sns_destinations[i as int].0 + TOPIC_POLICY_ID_SUFFIX@));
                }
            }
            let ghost before = stack_builder@;
            add_sns_notification(&id, &bucket, i, &topic_id, reference, event, stack_builder);
            proof {
                let now = stack_builder@;
                assert forall|j: int| 0 <= j < mid.resources.len() implies #[trigger] shape_kept(now.resources[j], mid.resources[j]) by {
                    lemma_shape_kept_trans(now.resources[j], before.resources[j], mid.resources[j]);
                }
                assert forall|j: int| 0 <= j < n implies #[trigger] shape_kept(now.resources[j], first.resources[j]) by {
                    lemma_shape_kept_trans(now.resources[j], before.resources[j], first.resources[j]);
                }
                assert forall|j: int| n <= j < now.resources.len() implies #[trigger] bucket_created_id(b, now.resources[j].id_view()) by {
                    if j < before.resources.len() {
                        assert(shape_kept(now.resources[j], before.resources[j]));
                        assert(bucket_created_id(b, before.resources[j].id_view()));
                    } else {
                        lemma_sns_step_created(b, i as nat, now.resources[j].id_view());
                    }
                }
                assert(b.sns_destinations[i as int] == (topic_id.0@, reference_view, event_view));
                lemma_topic_step(first.resources, mid.resources, before.resources, now.resources, b, bucket@, n, w, i as int);
                lemma_topic_step_grows(
                    before.resources,
                    now.resources,
                    b.id.0@,
                    bucket@,
                    i as nat,
                    b.sns_destinations[i as int].0 + TOPIC_POLICY_ID_SUFFIX@,
                    b.sns_destinations[i as int].1,
                    b.sns_destinations[i as int].2,
                );
                lemma_topic_policies_step(first.resources, before.resources, now.resources, b, bucket@, i as int, true);
            }
            i = i + 1;
        }
        proof {
            lemma_no_policies(first.resources, stack_builder@.resources, b, bucket@);
            lemma_no_blocks(
                first.resources,
                stack_builder@.resources,
                b,
                bucket@,
                n + 1 + w + 5 * b.lambda_destinations.len() + topic_steps_len(first.resources, b, b.sns_destinations.len()),
            );
        }
        let mut sqs_dests = bucket_notification_sqs_destinations;
        let total_q = sqs_dests.len();
        let mut i: usize = 0;
        assert(sqs_destination_views(sqs_dests@) =~= b.sqs_destinations.skip(0));
        while sqs_dests.len() > 0
            invariant
                i + sqs_dests@.len() == total_q,
                total_q == b.sqs_destinations.len(),
                sqs_destination_views(sqs_dests@) == b.sqs_destinations.skip(i as int),
                id == b.id,
                n == first.resources.len(),
                mid.resources.len() >= n,
                destination_policies_fit(first.resources, b),
                notifications_progress(first, mid, stack_builder@, b),
                w == (if website { 1int } else { 0int }),
                mid.resources.len() == n + 1 + w,
                bucket@.resource_id == mid.resources[n].resource_id_view(),
                frame_kept(first.resources, mid.resources, stack_builder@.resources, b),
                stack_builder@.resources.len() == n + 1 + w + 5 * b.lambda_destinations.len() + topic_steps_len(first.resources, b, b.sns_destinations.len())
                    + queue_steps_len(first.resources, b, i as nat),
                lambda_blocks_hold(stack_builder@.resources, b, bucket@, n + 1 + w, b.lambda_destinations.len() as int),
                topic_blocks_hold(first.resources, stack_builder@.resources, b, bucket@, n + 1 + w + 5 * b.lambda_destinations.len(), b.sns_destinations.len() as int),
                queue_blocks_hold(
                    first.resources,
                    stack_builder@.resources,
                    b,
                    bucket@,
                    n + 1 + w + 5 * b.lambda_destinations.len() + topic_steps_len(first.resources, b, b.sns_destinations.len()),
                    i as int,
                ),
                topic_policies_hold(first.resources, stack_builder@.resources, b, bucket@, b.sns_destinations.len() as int),
                queue_policies_hold(first.resources, stack_builder@.resources, b, bucket@, i as int),
            decreases sqs_dests@.len(),
        {
            let ghost old_dests = sqs_dests@;
            let (queue_id, reference, arn, event) = sqs_dests.remove(0);
            let ghost reference_view = reference@;
            let ghost arn_view = arn@;
            let ghost event_view = event@;
            let ghost target = queue_id.0@ + QUEUE_POLICY_ID_SUFFIX@;
            proof {
                assert(sqs_destination_views(sqs_dests@) =~= sqs_destination_views(old_dests).skip(1));
                assert(b.sqs_destinations[i as int] == sqs_destination_views(old_dests)[0]);
                let cur = stack_builder@.resources;
                assert forall|j: int| 0 <= j < cur.len() && #[trigger] cur[j].id_view() == target implies cur[j] is QueuePolicy by {
                    if j < n {
                        assert(shape_kept(cur[j], first.resources[j]));
                        assert(first.resources[j].id_view() == b.sqs_destinations[i as int].0 + QUEUE_POLICY_ID_SUFFIX@);
                    } else {
                        assert(bucket_created_id(b, cur[j].id_view()));
                        assert(!bucket_created_id(b, b.sqs_destinations[i as int].0 + QUEUE_POLICY_ID_SUFFIX@));
                    }
                }
                if policy_step_id(b.id.0@, "SQS"@, "SQSDestinationPolicy"@, "SQSNotification"@, i as nat, target) {
                    lemma_sqs_step_created(b, i as nat, target);
                    assert(!bucket_created_id(b, b.sqs_destinations[i as int].0 + QUEUE_POLICY_ID_SUFFIX@));
                }
            }
            let ghost before = stack_builder@;
            add_sqs_notification(&id, &bucket, i, &queue_id, reference, arn, event, stack_builder);
            proof {
                let now = stack_builder@;
                assert forall|j: int| 0 <= j < mid.resources.len() implies #[trigger] shape_kept(now.resources[j], mid.resources[j]) by {
                    lemma_shape_kept_trans(now.resources[j], before.resources[j], mid.resources[j]);
                }
                assert forall|j: int| 0 <= j < n implies #[trigger] shape_kept(now.resources[j], first.resources[j]) by {
                    lemma_shape_kept_trans(now.resources[j], before.resources[j], first.resources[j]);
                }
                assert forall|j: int| n <= j < now.resources.len() implies #[trigger] bucket_created_id(b, now.resources[j].id_view()) by {
                    if j < before.resources.len() {
                        assert(shape_kept(now.resources[j], before.resources[j]));
                        assert(bucket_created_id(b, before.resources[j].id_view()));
                    } else {
                        lemma_sqs_step_created(b, i as nat, now.resources[j].id_view());
                    }
                }
                assert(b.sqs_destinations[i as int] == (queue_id.0@, reference_view, arn_view, event_view));
                lemma_queue_step(first.resources, mid.resources, before.resources, now.resources, b, bucket@, n, w, i as int);
                lemma_queue_step_grows(
                    before.resources,
                    now.resources,
                    b.id.0@,
                    bucket@,
                    i as nat,
                    b.sqs_destinations[i as int].0 + QUEUE_POLICY_ID_SUFFIX@,
                    b.sqs_destinations[i as int].1,
                    b.sqs_destinations[i as int].2,
                    b.sqs_destinations[i as int].3,
                );
                lemma_topic_policies_step(first.resources, before.resources, now.resources, b, bucket@, b.sns_destinations.len() as int, false);
                lemma_queue_policies_step(first.resources, before.resources, now.resources, b, bucket@, i as int, true);
            }
            i = i + 1;
        }
        proof {
            let now = stack_builder@;
            lemma_notifications_done(first.resources, mid.resources, now.resources, b, bucket@, n, w);
            assert(now.resources[n] == mid.resources[n]);
            if website {
                assert(now.resources[n + 1] == mid.resources[n + 1]);
            }
            assert(shape_kept(now.resources[n], mid.resources[n]));
            if website {
                assert(shape_kept(now.resources[n + 1], mid.resources[n + 1]));
            }
        }
        (bucket, policy)
    }
}

impl BucketBuilder<WebsiteState> {
    pub fn error_document(self, error: &str) -> (r: Self)
        ensures
            r@ == (BucketBuilderView { error_document: r@.error_document, ..self@ }),
            r@.error_document matches Some(d) && d@ == error@,
    {
        Self { error_document: Some(String::from_str(error)), ..self }
    }

    /// Redirects all requests to the host, over the protocol where one is given.
    pub fn redirect_all(self, hostname: &str, protocol: Option<Protocol>) -> (r: Self)
        ensures
            r@ == (BucketBuilderView { redirect_all_requests_to: r@.redirect_all_requests_to, ..self@ }),
            r@.redirect_all_requests_to matches Some(x) && x.0@ == hostname@ && x.1 == protocol,
    {
        Self { redirect_all_requests_to: Some((String::from_str(hostname), protocol)), ..self }
    }

    pub fn cors_config(self, config: CorsConfiguration) -> (r: Self)
        ensures
            r@ == (BucketBuilderView { cors_config: Some(config), ..self@ }),
    {
        Self { cors_config: Some(config), ..self }
    }

    /// Adds the website bucket, the policy that lets anyone read it, and the resources of its
    /// notifications to the stack.
    pub fn build(self, stack_builder: &mut StackBuilder) -> (r: (BucketRef, BucketPolicyRef))
        requires
            destination_policies_fit(old(stack_builder)@.resources, self@),
        ensures
            bucket_resources_added(old(stack_builder)@, final(stack_builder)@, self@, true, r.0@, Some(r.1@)),
    {
        let (bucket, policy) = self.build_internal(true, stack_builder);
        match policy {
            Some(p) => (bucket, p),
            None => {
                assert(false);
                (bucket, BucketPolicyRef::internal_new(String::new()))
            },
        }
    }
}

} // verus!
