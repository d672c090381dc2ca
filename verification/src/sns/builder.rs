use crate::iam::{point_statements_at, statements_pointed_at, PolicyDocument, RoleRef};
use crate::intrinsic::{get_arn, get_arn_json, get_ref, get_ref_json, single_member, string_value};
use crate::json::{json_views, JsonView, Value};
use crate::lambda::{FunctionRef, PermissionBuilder};
use crate::shared::{arn_json, opt_view, ref_json, Id, RefWithIdView, TOPIC_POLICY_ID_SUFFIX};
use crate::sns::{
    LoggingConfig, LoggingConfigView, SnsSubscriptionProperties, Subscription, Topic, TopicPolicy, TopicPolicyProperties,
    TopicPolicyRef, TopicProperties, TopicRef,
};
use crate::stack::{is_generated_id, Resource, StackBuilder, StackBuilderView};
use crate::text::{concat2, ends_with, u32_to_string};
use crate::wrappers::{
    ArchivePolicy, LambdaPermissionAction, StringWithOnlyAlphaNumericsUnderscoresAndHyphens, SuccessFeedbackSampleRate,
    TopicDisplayName,
};
use std::marker::PhantomData;
use vstd::prelude::*;

verus! {

/// What the name of a FIFO topic must end with.
pub const FIFO_SUFFIX: &'static str = ".fifo";

/// What the throughput of a FIFO topic is counted over.
#[derive(Debug, Clone)]
pub enum FifoThroughputScope {
    Topic,
    MessageGroup,
}

/// How CloudFormation writes a [`FifoThroughputScope`].
pub open spec fn fifo_throughput_scope_name(v: FifoThroughputScope) -> Seq<char> {
    match v {
        FifoThroughputScope::Topic => "Topic"@,
        FifoThroughputScope::MessageGroup => "MessageGroup"@,
    }
}

impl vstd::std_specs::convert::FromSpecImpl<FifoThroughputScope> for String {
    open spec fn obeys_from_spec() -> bool {
        false
    }

    open spec fn from_spec(v: FifoThroughputScope) -> String {
        vstd::pervasive::arbitrary()
    }
}

impl From<FifoThroughputScope> for String {
    fn from(value: FifoThroughputScope) -> (r: String)
        ensures
            r@ == fifo_throughput_scope_name(value),
    {
        match value {
            FifoThroughputScope::Topic => String::from_str("Topic"),
            FifoThroughputScope::MessageGroup => String::from_str("MessageGroup"),
        }
    }
}

/// Whether a topic traces messages with X-Ray.
#[derive(Debug, Clone)]
pub enum TracingConfig {
    PassThrough,
    Active,
}

/// How CloudFormation writes a [`TracingConfig`].
pub open spec fn tracing_config_name(v: TracingConfig) -> Seq<char> {
    match v {
        TracingConfig::PassThrough => "PassThrough"@,
        TracingConfig::Active => "Active"@,
    }
}

impl vstd::std_specs::convert::FromSpecImpl<TracingConfig> for String {
    open spec fn obeys_from_spec() -> bool {
        false
    }

    open spec fn from_spec(v: TracingConfig) -> String {
        vstd::pervasive::arbitrary()
    }
}

impl From<TracingConfig> for String {
    fn from(value: TracingConfig) -> (r: String)
        ensures
            r@ == tracing_config_name(value),
    {
        match value {
            TracingConfig::PassThrough => String::from_str("PassThrough"),
            TracingConfig::Active => String::from_str("Active"),
        }
    }
}

/// A protocol that a topic delivers over.
pub enum Protocol {
    HTTP,
    SQS,
    Lambda,
    Firehose,
    Application,
}

/// How CloudFormation writes a [`Protocol`].
pub open spec fn protocol_name(v: Protocol) -> Seq<char> {
    match v {
        Protocol::HTTP => "http"@,
        Protocol::SQS => "sqs"@,
        Protocol::Lambda => "lambda"@,
        Protocol::Firehose => "firehose"@,
        Protocol::Application => "application"@,
    }
}

impl vstd::std_specs::convert::FromSpecImpl<Protocol> for String {
    open spec fn obeys_from_spec() -> bool {
        false
    }

    open spec fn from_spec(v: Protocol) -> String {
        vstd::pervasive::arbitrary()
    }
}

impl From<Protocol> for String {
    fn from(value: Protocol) -> (r: String)
        ensures
            r@ == protocol_name(value),
    {
        match value {
            Protocol::HTTP => String::from_str("http"),
            Protocol::SQS => String::from_str("sqs"),
            Protocol::Lambda => String::from_str("lambda"),
            Protocol::Firehose => String::from_str("firehose"),
            Protocol::Application => String::from_str("application"),
        }
    }
}
/// What a topic can deliver to.
pub enum SubscriptionType<'a> {
    Lambda(&'a FunctionRef),
}

/// The states of a [`TopicBuilder`]: standard or FIFO, and whether it has subscriptions.
pub trait TopicBuilderState {}

pub struct StartState {}

pub struct StandardStateWithSubscriptions {}

pub struct FifoState {}

pub struct FifoStateWithSubscriptions {}

impl TopicBuilderState for StartState {}

impl TopicBuilderState for StandardStateWithSubscriptions {}

impl TopicBuilderState for FifoState {}

impl TopicBuilderState for FifoStateWithSubscriptions {}

/// Builder for SNS topics.
///
/// Supports both standard and FIFO topics with Lambda subscriptions.
pub struct TopicBuilder<T: TopicBuilderState> {
    pub(crate) state: PhantomData<T>,
    pub(crate) id: Id,
    pub(crate) topic_name: Option<String>,
    pub(crate) content_based_deduplication: Option<bool>,
    pub(crate) fifo_throughput_scope: Option<FifoThroughputScope>,
    pub(crate) topic_policy_doc: Option<PolicyDocument>,
    pub(crate) lambda_subscription_ids: Vec<(Id, String)>,
    pub(crate) archive_policy: Option<String>,
    pub(crate) display_name: Option<String>,
    pub(crate) kms_master_key_id: Option<Value>,
    pub(crate) tracing_config: Option<String>,
    pub(crate) logging_config: Option<LoggingConfig>,
}

/// What a [`TopicBuilder`] holds.
pub struct TopicBuilderView {
    pub id: Id,
    pub topic_name: Option<String>,
    pub content_based_deduplication: Option<bool>,
    pub fifo_throughput_scope: Option<FifoThroughputScope>,
    pub topic_policy_doc: Option<PolicyDocument>,
    pub lambda_subscription_ids: Vec<(Id, String)>,
    pub archive_policy: Option<String>,
    pub display_name: Option<String>,
    pub kms_master_key_id: Option<Value>,
    pub tracing_config: Option<String>,
    pub logging_config: Option<LoggingConfig>,
}

impl<T: TopicBuilderState> View for TopicBuilder<T> {
    type V = TopicBuilderView;

    open(crate) spec fn view(&self) -> TopicBuilderView {
        TopicBuilderView {
            id: self.id,
            topic_name: self.topic_name,
            content_based_deduplication: self.content_based_deduplication,
            fifo_throughput_scope: self.fifo_throughput_scope,
            topic_policy_doc: self.topic_policy_doc,
            lambda_subscription_ids: self.lambda_subscription_ids,
            archive_policy: self.archive_policy,
            display_name: self.display_name,
            kms_master_key_id: self.kms_master_key_id,
            tracing_config: self.tracing_config,
            logging_config: self.logging_config,
        }
    }
}

/// The ids and logical ids of the functions a topic delivers to, as characters.
pub open spec fn subscription_views(s: Seq<(Id, String)>) -> Seq<(Seq<char>, Seq<char>)> {
    s.map_values(|e: (Id, String)| (e.0.0@, e.1@))
}

/// The builder state `r` is `b` with one more function to deliver to.
pub open spec fn subscription_added(r: TopicBuilderView, b: TopicBuilderView, f: RefWithIdView) -> bool {
    &&& r == (TopicBuilderView { lambda_subscription_ids: r.lambda_subscription_ids, ..b })
    &&& subscription_views(r.lambda_subscription_ids@) == subscription_views(b.lambda_subscription_ids@).push(
        (f.id, f.resource_id),
    )
}

/// The name a FIFO topic gets: the chosen name with `.fifo` added where it does not end with it.
pub open spec fn fifo_topic_name(name: Option<Seq<char>>) -> Option<Seq<char>> {
    match name {
        Some(n) => if FIFO_SUFFIX@.is_suffix_of(n) {
            Some(n)
        } else {
            Some(n + FIFO_SUFFIX@)
        },
        None => None,
    }
}

/// `FIFO_SUFFIX` ends `n + FIFO_SUFFIX`.
proof fn lemma_suffix_of_appended(n: Seq<char>)
    ensures
        FIFO_SUFFIX@.is_suffix_of(n + FIFO_SUFFIX@),
{
    let m = n + FIFO_SUFFIX@;
    assert(m.subrange(m.len() - FIFO_SUFFIX@.len(), m.len() as int) =~= FIFO_SUFFIX@);
}

/// A FIFO topic's name always ends in `.fifo`, and naming it again changes nothing.
pub proof fn fifo_topic_names_end_in_fifo(name: Option<Seq<char>>)
    ensures
        fifo_topic_name(name) matches Some(m) ==> FIFO_SUFFIX@.is_suffix_of(m),
        fifo_topic_name(name) is None <==> name is None,
        fifo_topic_name(fifo_topic_name(name)) == fifo_topic_name(name),
{
    if let Some(n) = name {
        lemma_suffix_of_appended(n);
    }
}

/// `p` is the permission that lets the topic with logical id `topic` invoke the function `sub`.
pub open spec fn subscription_permission_made(p: crate::lambda::Permission, topic_id: Id, sub: (Id, String), topic: Seq<char>) -> bool {
    let props = p@.properties@;
    &&& p@.id.0@ == topic_id.0@ + sub.0.0@ + "Permission"@
    &&& is_generated_id(p@.resource_id@, "LambdaPermission"@)
    &&& p@.resource_type@ == "AWS::Lambda::Permission"@
    &&& props.action@ == "lambda:InvokeFunction"@
    &&& props.function_name@ == get_arn_json(sub.1@)
    &&& props.principal@ == "sns.amazonaws.com"@
    &&& props.source_arn matches Some(a) && a@ == get_ref_json(topic)
    &&& props.source_account is None
}

/// `s` is the subscription of the function `sub` to the topic with logical id `topic`.
pub open spec fn subscription_made(s: Subscription, topic_id: Id, sub: (Id, String), topic: Seq<char>) -> bool {
    let props = s@.properties@;
    &&& s@.id.0@ == topic_id.0@ + sub.0.0@
    &&& is_generated_id(s@.resource_id@, "SnsSubscription"@)
    &&& s@.resource_type@ == "AWS::SNS::Subscription"@
    &&& props.protocol@ == "lambda"@
    &&& props.endpoint@ == get_arn_json(sub.1@)
    &&& props.topic_arn@ == get_ref_json(topic)
}

/// The two resources for the `k`th subscription stand at `start + 2k`: the permission, then the subscription.
pub open spec fn subscription_resources_at(
    res: Seq<Resource>,
    start: int,
    k: int,
    topic_id: Id,
    sub: (Id, String),
    topic: Seq<char>,
) -> bool {
    &&& res[start + 2 * k] matches Resource::Permission(p) && subscription_permission_made(p, topic_id, sub, topic)
    &&& res[start + 2 * k + 1] matches Resource::Subscription(s) && subscription_made(s, topic_id, sub, topic)
}

/// How CloudFormation writes an archive policy that keeps messages for `period` days.
pub open spec fn archive_policy_json(period: Seq<char>) -> JsonView {
    JsonView::Object(seq![("MessageRetentionPeriod"@, JsonView::String(period))])
}

/// `t` is the topic that the builder state `b` describes, named `name`, with logical id `resource_id`.
pub open spec fn topic_made_by(t: Topic, b: TopicBuilderView, fifo: bool, name: Option<Seq<char>>, resource_id: Seq<char>) -> bool {
    let p = t@.properties@;
    &&& t@.id == b.id
    &&& t@.resource_id@ == resource_id
    &&& t@.resource_type@ == "AWS::SNS::Topic"@
    &&& opt_view(p.topic_name) == name
    &&& p.fifo_topic == Some(fifo)
    &&& p.content_based_deduplication == b.content_based_deduplication
    &&& opt_view(p.fifo_throughput_scope) == (match b.fifo_throughput_scope {
        Some(s) => Some(fifo_throughput_scope_name(s)),
        None => None,
    })
    &&& match b.archive_policy {
        Some(a) => p.archive_policy matches Some(v) && v@ == archive_policy_json(a@),
        None => p.archive_policy is None,
    }
    &&& p.display_name == b.display_name
    &&& p.kms_master_key_id == b.kms_master_key_id
    &&& p.tracing_config == b.tracing_config
    &&& p.delivery_status_logging == b.logging_config
}

/// `p` is the policy of topic `topic`, made from the builder state `b`: the document's statements
/// point at the topic, and the policy applies to the topic.
pub open spec fn topic_policy_made_for(p: TopicPolicy, b: TopicBuilderView, topic: RefWithIdView) -> bool {
    let props = p@.properties@;
    let doc = b.topic_policy_doc.unwrap()@;
    &&& p@.id.0@ == b.id.0@ + TOPIC_POLICY_ID_SUFFIX@
    &&& is_generated_id(p@.resource_id@, "TopicPolicy"@)
    &&& p@.resource_type@ == "AWS::SNS::TopicPolicy"@
    &&& props.doc@.version == doc.version
    &&& statements_pointed_at(props.doc@.statements@, doc.statements@, ref_json(topic.resource_id, topic.ref_name))
    &&& json_views(props.topics@) == seq![ref_json(topic.resource_id, topic.ref_name)]
}

/// What building a topic from the builder state `b` does to the stack's resources: for each
/// function to deliver to, a permission and a subscription; then the topic's policy, where one
/// was given; then the topic itself.
pub open spec fn topic_resources_added(
    before: StackBuilderView,
    after: StackBuilderView,
    b: TopicBuilderView,
    fifo: bool,
    name: Option<Seq<char>>,
    r: RefWithIdView,
) -> bool {
    let n = before.resources.len() as int;
    let subs = b.lambda_subscription_ids@;
    let m = n + 2 * subs.len();
    &&& after.tags == before.tags
    &&& after.outputs == before.outputs
    &&& r.id == b.id.0@
    &&& is_generated_id(r.resource_id, "SnsTopic"@)
    &&& r.ref_name is None
    &&& r.arn_value is None
    &&& after.resources.subrange(0, n) == before.resources
    &&& forall|k: int| 0 <= k < subs.len() ==> #[trigger] subscription_resources_at(
        after.resources,
        n,
        k,
        b.id,
        subs[k],
        r.resource_id,
    )
    &&& match b.topic_policy_doc {
        None => after.resources.len() == m + 1,
        Some(_) => {
            &&& after.resources.len() == m + 2
            &&& after.resources[m] matches Resource::TopicPolicy(p) && topic_policy_made_for(p, b, r)
        },
    }
    &&& after.resources.last() matches Resource::Topic(t) && topic_made_by(t, b, fifo, name, r.resource_id)
}

proof fn lemma_two_pushes(before: Seq<Resource>, mid: Seq<Resource>, after: Seq<Resource>)
    requires
        mid.len() == before.len() + 1,
        mid.drop_last() == before,
        after.len() == mid.len() + 1,
        after.drop_last() == mid,
    ensures
        forall|j: int| 0 <= j < before.len() ==> #[trigger] after[j] == before[j],
{
    assert forall|j: int| 0 <= j < before.len() implies #[trigger] after[j] == before[j] by {
        assert(after.drop_last()[j] == after[j]);
        assert(mid.drop_last()[j] == mid[j]);
    }
}

impl TopicBuilder<StartState> {
    /// Creates a new SNS topic builder.
    ///
    /// # Arguments
    /// * `id` - Unique identifier for the topic
    pub fn new(id: &str) -> (r: Self)
        ensures
            r@ == (TopicBuilderView {
                id: r@.id,
                topic_name: None,
                content_based_deduplication: None,
                fifo_throughput_scope: None,
                topic_policy_doc: None,
                lambda_subscription_ids: r@.lambda_subscription_ids,
                archive_policy: None,
                display_name: None,
                kms_master_key_id: None,
                tracing_config: None,
                logging_config: None,
            }),
            r@.id.0@ == id@,
            r@.lambda_subscription_ids@.len() == 0,
    {
        Self {
            state: PhantomData,
            id: Id(String::from_str(id)),
            topic_name: None,
            content_based_deduplication: None,
            fifo_throughput_scope: None,
            topic_policy_doc: None,
            lambda_subscription_ids: Vec::new(),
            archive_policy: None,
            display_name: None,
            kms_master_key_id: None,
            tracing_config: None,
            logging_config: None,
        }
    }

    /// Adds a subscription to the topic.
    pub fn add_subscription(self, subscription: SubscriptionType) -> (r: TopicBuilder<StandardStateWithSubscriptions>)
        ensures
            subscription_added(r@, self@, match subscription {
                SubscriptionType::Lambda(l) => l@,
            }),
    {
        let mut me = self;
        me.add_subscription_internal(subscription);
        TopicBuilder {
            state: PhantomData,
            id: me.id,
            topic_name: me.topic_name,
            content_based_deduplication: me.content_based_deduplication,
            fifo_throughput_scope: me.fifo_throughput_scope,
            topic_policy_doc: me.topic_policy_doc,
            lambda_subscription_ids: me.lambda_subscription_ids,
            archive_policy: me.archive_policy,
            display_name: me.display_name,
            kms_master_key_id: me.kms_master_key_id,
            tracing_config: me.tracing_config,
            logging_config: me.logging_config,
        }
    }

    /// Builds the standard topic and adds it to the stack.
    pub fn build(self, stack_builder: &mut StackBuilder) -> (r: TopicRef)
        ensures
            topic_resources_added(old(stack_builder)@, final(stack_builder)@, self@, false, opt_view(self@.topic_name), r@),
    {
        self.build_internal(false, stack_builder)
    }
}

impl TopicBuilder<StandardStateWithSubscriptions> {
    /// Adds another subscription to the topic.
    pub fn add_subscription(self, subscription: SubscriptionType) -> (r: Self)
        ensures
            subscription_added(r@, self@, match subscription {
                SubscriptionType::Lambda(l) => l@,
            }),
    {
        let mut me = self;
        me.add_subscription_internal(subscription);
        me
    }

    /// Builds the standard topic and its subscriptions and adds them to the stack.
    pub fn build(self, stack_builder: &mut StackBuilder) -> (r: TopicRef)
        ensures
            topic_resources_added(old(stack_builder)@, final(stack_builder)@, self@, false, opt_view(self@.topic_name), r@),
    {
        self.build_internal(false, stack_builder)
    }
}

impl<T: TopicBuilderState> TopicBuilder<T> {
    pub fn display_name(self, display_name: TopicDisplayName) -> (r: Self)
        ensures
            r@ == (TopicBuilderView { display_name: Some(display_name.0), ..self@ }),
    {
        Self { display_name: Some(display_name.0), ..self }
    }

    pub fn logging_config(self, logging_config: LoggingConfig) -> (r: Self)
        ensures
            r@ == (TopicBuilderView { logging_config: Some(logging_config), ..self@ }),
    {
        Self { logging_config: Some(logging_config), ..self }
    }

    /// The KMS key that encrypts the topic's messages, by its `Ref`.
    pub fn kms_master_key(self, kms_key: &crate::kms::KeyRef) -> (r: Self)
        ensures
            r@ == (TopicBuilderView { kms_master_key_id: r@.kms_master_key_id, ..self@ }),
            r@.kms_master_key_id matches Some(k) && k@ == crate::shared::ref_json(kms_key@.resource_id, kms_key@.ref_name),
    {
        Self { kms_master_key_id: Some(kms_key.get_ref()), ..self }
    }

    pub fn tracing_config(self, tracing_config: TracingConfig) -> (r: Self)
        ensures
            r@ == (TopicBuilderView { tracing_config: r@.tracing_config, ..self@ }),
            r@.tracing_config matches Some(t) && t@ == tracing_config_name(tracing_config),
    {
        Self { tracing_config: Some(tracing_config.into()), ..self }
    }

    pub fn topic_name(self, topic_name: StringWithOnlyAlphaNumericsUnderscoresAndHyphens) -> (r: Self)
        ensures
            r@ == (TopicBuilderView { topic_name: Some(topic_name.0), ..self@ }),
    {
        Self { topic_name: Some(topic_name.0), ..self }
    }

    /// Makes the topic a FIFO topic.
    pub fn fifo(self) -> (r: TopicBuilder<FifoState>)
        ensures
            r@ == self@,
    {
        TopicBuilder {
            state: PhantomData,
            id: self.id,
            topic_name: self.topic_name,
            content_based_deduplication: self.content_based_deduplication,
            fifo_throughput_scope: self.fifo_throughput_scope,
            topic_policy_doc: self.topic_policy_doc,
            lambda_subscription_ids: self.lambda_subscription_ids,
            display_name: self.display_name,
            kms_master_key_id: self.kms_master_key_id,
            archive_policy: self.archive_policy,
            tracing_config: self.tracing_config,
            logging_config: self.logging_config,
        }
    }

    /// Adds a policy for the topic; the `resources` of each statement are set to the topic.
    pub fn topic_policy(self, doc: PolicyDocument) -> (r: Self)
        ensures
            r@ == (TopicBuilderView { topic_policy_doc: Some(doc), ..self@ }),
    {
        Self { topic_policy_doc: Some(doc), ..self }
    }

    fn add_subscription_internal(&mut self, subscription: SubscriptionType)
        ensures
            subscription_added(final(self)@, old(self)@, match subscription {
                SubscriptionType::Lambda(l) => l@,
            }),
    {
        match subscription {
            SubscriptionType::Lambda(l) => {
                let ghost before = self.lambda_subscription_ids@;
                self.lambda_subscription_ids.push((l.get_id().clone(), String::from_str(l.get_resource_id())));
                assert(subscription_views(self.lambda_subscription_ids@) =~= subscription_views(before).push(
                    (l@.id, l@.resource_id),
                ));
            },
        }
    }

    fn build_internal(self, fifo: bool, stack_builder: &mut StackBuilder) -> (r: TopicRef)
        ensures
            topic_resources_added(old(stack_builder)@, final(stack_builder)@, self@, fifo, opt_view(self@.topic_name), r@),
    {
        let ghost b = self@;
        let ghost start = stack_builder@;
        let ghost n = start.resources.len() as int;
        let topic_resource_id = Resource::generate_id("SnsTopic");
        let subs = &self.lambda_subscription_ids;
        let mut i: usize = 0;
        assert(stack_builder@.resources.subrange(0, n) =~= start.resources);
        while i < subs.len()
            invariant
                i <= subs@.len(),
                subs@ == b.lambda_subscription_ids@,
                self@ == b,
                n == start.resources.len(),
                stack_builder@.tags == start.tags,
                stack_builder@.outputs == start.outputs,
                stack_builder@.resources.len() == n + 2 * i,
                stack_builder@.resources.subrange(0, n) == start.resources,
                forall|k: int| 0 <= k < i ==> #[trigger] subscription_resources_at(
                    stack_builder@.resources,
                    n,
                    k,
                    b.id,
                    subs@[k],
                    topic_resource_id@,
                ),
            decreases subs@.len() - i,
        {
            let ghost before = stack_builder@.resources;
            let (to_subscribe_id, to_subscribe_resource_id) = &subs[i];
            let subscription_id = Id::combine_ids(&self.id, to_subscribe_id);
            let subscription_resource_id = Resource::generate_id("SnsSubscription");
            let permission_id = Id::generate_id(&subscription_id, "Permission");
            PermissionBuilder::new(
                permission_id.0.as_str(),
                LambdaPermissionAction(String::from_str("lambda:InvokeFunction")),
                get_arn(to_subscribe_resource_id.as_str()),
                "sns.amazonaws.com",
            ).source_arn(get_ref(topic_resource_id.as_str())).build(stack_builder);
            let ghost mid = stack_builder@.resources;
            assert(mid.len() == before.len() + 1);
            assert(mid.drop_last() == before);
            let subscription = Subscription {
                id: subscription_id,
                resource_id: subscription_resource_id,
                resource_type: String::from_str("AWS::SNS::Subscription"),
                properties: SnsSubscriptionProperties {
                    protocol: String::from_str("lambda"),
                    endpoint: get_arn(to_subscribe_resource_id.as_str()),
                    topic_arn: get_ref(topic_resource_id.as_str()),
                },
            };
            let ghost added = Resource::Subscription(subscription);
            let ghost before_add = stack_builder@;
            stack_builder.add_resource(Resource::Subscription(subscription));
            assert(before_add.resources == mid);
            assert(stack_builder@.resources == before_add.resources.push(added));
            proof {
                let after = stack_builder@.resources;
                assert(after.drop_last() =~= mid);
                lemma_two_pushes(before, mid, after);
                assert(after.subrange(0, n) =~= before.subrange(0, n));
                assert forall|k: int| 0 <= k < i + 1 implies #[trigger] subscription_resources_at(
                    after,
                    n,
                    k,
                    b.id,
                    subs@[k],
                    topic_resource_id@,
                ) by {
                    if k < i {
                        assert(subscription_resources_at(before, n, k, b.id, subs@[k], topic_resource_id@));
                        assert(after[n + 2 * k] == before[n + 2 * k]);
                        assert(after[n + 2 * k + 1] == before[n + 2 * k + 1]);
                    }
                }
            }
            i = i + 1;
        }
        let archive_policy = match self.archive_policy {
            Some(policy_retention_time) => Some(
                single_member("MessageRetentionPeriod", Value::String(policy_retention_time)),
            ),
            None => None,
        };
        let fifo_throughput_scope = match self.fifo_throughput_scope {
            Some(s) => Some(s.into()),
            None => None,
        };
        let properties = TopicProperties {
            topic_name: self.topic_name,
            fifo_topic: Some(fifo),
            content_based_deduplication: self.content_based_deduplication,
            fifo_throughput_scope,
            archive_policy,
            display_name: self.display_name,
            kms_master_key_id: self.kms_master_key_id,
            tracing_config: self.tracing_config,
            delivery_status_logging: self.logging_config,
        };
        let topic_ref = TopicRef::internal_new(self.id.clone(), topic_resource_id.clone());
        let ghost m = stack_builder@.resources.len() as int;
        let ghost middle_start = stack_builder@.resources;
        match self.topic_policy_doc {
            Some(policy) => {
                let doc = point_statements_at(policy, &topic_ref.get_ref());
                let mut topics: Vec<&TopicRef> = Vec::new();
                topics.push(&topic_ref);
                assert(topic_refs_json(topics@) =~= seq![ref_json(topic_ref@.resource_id, topic_ref@.ref_name)]);
                TopicPolicyBuilder::new(Id::generate_id(&self.id, TOPIC_POLICY_ID_SUFFIX), doc, topics).build(
                    stack_builder,
                );
            },
            None => {},
        }
        let ghost middle = stack_builder@.resources;
        stack_builder.add_resource(
            Resource::Topic(
                Topic {
                    id: self.id,
                    resource_id: topic_resource_id,
                    resource_type: String::from_str("AWS::SNS::Topic"),
                    properties,
                },
            ),
        );
        proof {
            let after = stack_builder@.resources;
            assert(after.subrange(0, n) =~= start.resources) by {
                assert(after.subrange(0, n) =~= middle_start.subrange(0, n));
            }
            assert forall|k: int| 0 <= k < b.lambda_subscription_ids@.len() implies #[trigger] subscription_resources_at(
                after,
                n,
                k,
                b.id,
                b.lambda_subscription_ids@[k],
                topic_ref@.resource_id,
            ) by {
                assert(subscription_resources_at(middle_start, n, k, b.id, subs@[k], topic_resource_id@));
                assert(after[n + 2 * k] == middle_start[n + 2 * k]);
                assert(after[n + 2 * k + 1] == middle_start[n + 2 * k + 1]);
            }
            if b.topic_policy_doc is Some {
                assert(after[m] == middle[m]);
            }
        }
        topic_ref
    }
}

impl TopicBuilder<FifoState> {
    /// Keeps archived messages for the given number of days.
    pub fn archive_policy(self, archive_policy: ArchivePolicy) -> (r: Self)
        ensures
            r@ == (TopicBuilderView { archive_policy: r@.archive_policy, ..self@ }),
            r@.archive_policy matches Some(a) && a@ == crate::text::decimal(archive_policy.0 as nat),
    {
        Self { archive_policy: Some(u32_to_string(archive_policy.0 as u32)), ..self }
    }

    pub fn fifo_throughput_scope(self, scope: FifoThroughputScope) -> (r: TopicBuilder<FifoState>)
        ensures
            r@ == (TopicBuilderView { fifo_throughput_scope: Some(scope), ..self@ }),
    {
        Self { fifo_throughput_scope: Some(scope), ..self }
    }

    pub fn content_based_deduplication(self, content_based_deduplication: bool) -> (r: TopicBuilder<FifoState>)
        ensures
            r@ == (TopicBuilderView { content_based_deduplication: Some(content_based_deduplication), ..self@ }),
    {
        Self { content_based_deduplication: Some(content_based_deduplication), ..self }
    }

    /// Adds a subscription to the FIFO topic.
    pub fn add_subscription(self, subscription: SubscriptionType) -> (r: TopicBuilder<FifoStateWithSubscriptions>)
        ensures
            subscription_added(r@, self@, match subscription {
                SubscriptionType::Lambda(l) => l@,
            }),
    {
        let mut me = self;
        me.add_subscription_internal(subscription);
        TopicBuilder {
            id: me.id,
            state: PhantomData,
            topic_name: me.topic_name,
            content_based_deduplication: me.content_based_deduplication,
            fifo_throughput_scope: me.fifo_throughput_scope,
            topic_policy_doc: me.topic_policy_doc,
            lambda_subscription_ids: me.lambda_subscription_ids,
            display_name: me.display_name,
            kms_master_key_id: me.kms_master_key_id,
            archive_policy: me.archive_policy,
            tracing_config: me.tracing_config,
            logging_config: me.logging_config,
        }
    }

    /// Builds the FIFO topic and adds it to the stack.
    ///
    /// Appends the required ".fifo" suffix to the topic name if not already present.
    pub fn build(self, stack_builder: &mut StackBuilder) -> (r: TopicRef)
        ensures
            topic_resources_added(
                old(stack_builder)@,
                final(stack_builder)@,
                self@,
                true,
                fifo_topic_name(opt_view(self@.topic_name)),
                r@,
            ),
    {
        let topic_name = fifo_name(self.topic_name);
        TopicBuilder::<FifoState> { topic_name, ..self }.build_internal(true, stack_builder)
    }
}

/// The name with `.fifo` added where it does not already end with it.
fn fifo_name(name: Option<String>) -> (r: Option<String>)
    ensures
        opt_view(r) == fifo_topic_name(opt_view(name)),
{
    match name {
        Some(name) => if ends_with(name.as_str(), FIFO_SUFFIX) {
            Some(name)
        } else {
            Some(concat2(name.as_str(), FIFO_SUFFIX))
        },
        None => None,
    }
}

impl TopicBuilder<FifoStateWithSubscriptions> {
    pub fn fifo_throughput_scope(self, scope: FifoThroughputScope) -> (r: Self)
        ensures
            r@ == (TopicBuilderView { fifo_throughput_scope: Some(scope), ..self@ }),
    {
        Self { fifo_throughput_scope: Some(scope), ..self }
    }

    pub fn content_based_deduplication(self, content_based_deduplication: bool) -> (r: Self)
        ensures
            r@ == (TopicBuilderView { content_based_deduplication: Some(content_based_deduplication), ..self@ }),
    {
        Self { content_based_deduplication: Some(content_based_deduplication), ..self }
    }

    /// Adds another subscription to the FIFO topic.
    pub fn add_subscription(self, subscription: SubscriptionType) -> (r: TopicBuilder<FifoStateWithSubscriptions>)
        ensures
            subscription_added(r@, self@, match subscription {
                SubscriptionType::Lambda(l) => l@,
            }),
    {
        let mut me = self;
        me.add_subscription_internal(subscription);
        me
    }

    /// Builds the FIFO topic and its subscriptions and adds them to the stack.
    ///
    /// Appends the required ".fifo" suffix to the topic name if not already present.
    pub fn build(self, stack_builder: &mut StackBuilder) -> (r: TopicRef)
        ensures
            topic_resources_added(
                old(stack_builder)@,
                final(stack_builder)@,
                self@,
                true,
                fifo_topic_name(opt_view(self@.topic_name)),
                r@,
            ),
    {
        let topic_name = fifo_name(self.topic_name);
        TopicBuilder::<FifoStateWithSubscriptions> { topic_name, ..self }.build_internal(true, stack_builder)
    }
}

/// Builder for the logging of deliveries over a protocol.
pub struct LoggingConfigBuilder {
    pub(crate) protocol: String,
    pub(crate) success_feedback_sample_rate: Option<u8>,
    pub(crate) failure_feedback_role: Option<Value>,
    pub(crate) success_feedback_role: Option<Value>,
}

/// What a [`LoggingConfigBuilder`] holds.
pub struct LoggingConfigBuilderView {
    pub protocol: String,
    pub success_feedback_sample_rate: Option<u8>,
    pub failure_feedback_role: Option<Value>,
    pub success_feedback_role: Option<Value>,
}

impl View for LoggingConfigBuilder {
    type V = LoggingConfigBuilderView;

    open(crate) spec fn view(&self) -> LoggingConfigBuilderView {
        LoggingConfigBuilderView {
            protocol: self.protocol,
            success_feedback_sample_rate: self.success_feedback_sample_rate,
            failure_feedback_role: self.failure_feedback_role,
            success_feedback_role: self.success_feedback_role,
        }
    }
}

impl LoggingConfigBuilder {
    pub fn new(protocol: Protocol) -> (r: Self)
        ensures
            r@.protocol@ == protocol_name(protocol),
            r@.success_feedback_sample_rate is None,
            r@.failure_feedback_role is None,
            r@.success_feedback_role is None,
    {
        Self {
            protocol: protocol.into(),
            success_feedback_sample_rate: None,
            failure_feedback_role: None,
            success_feedback_role: None,
        }
    }

    pub fn success_feedback_role(self, role: &RoleRef) -> (r: Self)
        ensures
            r@ == (LoggingConfigBuilderView { success_feedback_role: r@.success_feedback_role, ..self@ }),
            r@.success_feedback_role matches Some(v) && v@ == arn_json(role@.resource_id, role@.arn_value),
    {
        Self { success_feedback_role: Some(role.get_arn()), ..self }
    }

    pub fn failure_feedback_role(self, role: &RoleRef) -> (r: Self)
        ensures
            r@ == (LoggingConfigBuilderView { failure_feedback_role: r@.failure_feedback_role, ..self@ }),
            r@.failure_feedback_role matches Some(v) && v@ == arn_json(role@.resource_id, role@.arn_value),
    {
        Self { failure_feedback_role: Some(role.get_arn()), ..self }
    }

    pub fn success_feedback_sample_rate(self, success_feedback_sample_rate: SuccessFeedbackSampleRate) -> (r: Self)
        ensures
            r@ == (LoggingConfigBuilderView {
                success_feedback_sample_rate: Some(success_feedback_sample_rate.0),
                ..self@
            }),
    {
        Self { success_feedback_sample_rate: Some(success_feedback_sample_rate.0), ..self }
    }

    pub fn build(self) -> (r: LoggingConfig)
        ensures
            r@ == (LoggingConfigView {
                failure_feedback_role_arn: self@.failure_feedback_role,
                protocol: self@.protocol,
                success_feedback_role_arn: self@.success_feedback_role,
                success_feedback_sample_rate: self@.success_feedback_sample_rate,
            }),
    {
        LoggingConfig {
            failure_feedback_role_arn: self.failure_feedback_role,
            protocol: self.protocol,
            success_feedback_role_arn: self.success_feedback_role,
            success_feedback_sample_rate: self.success_feedback_sample_rate,
        }
    }
}

/// Builder for the policy of one or more topics.
pub(crate) struct TopicPolicyBuilder {
    pub(crate) id: Id,
    pub(crate) doc: PolicyDocument,
    pub(crate) topics: Vec<Value>,
}

/// The values that `Ref` gives for the topics, in order.
pub open spec fn topic_refs_json(topics: Seq<&TopicRef>) -> Seq<JsonView> {
    topics.map_values(|t: &TopicRef| ref_json(t@.resource_id, t@.ref_name))
}

impl TopicPolicyBuilder {
    pub(crate) fn new(id: Id, doc: PolicyDocument, topics: Vec<&TopicRef>) -> (r: Self)
        ensures
            r.id == id,
            r.doc == doc,
            json_views(r.topics@) == topic_refs_json(topics@),
    {
        let mut values: Vec<Value> = Vec::new();
        let mut i: usize = 0;
        while i < topics.len()
            invariant
                i <= topics@.len(),
                json_views(values@) == topic_refs_json(topics@.take(i as int)),
            decreases topics@.len() - i,
        {
            let ghost before = values@;
            values.push(topics[i].get_ref());
            proof {
                assert(values@.drop_last() =~= before);
                assert(topic_refs_json(topics@.take(i + 1)) =~= topic_refs_json(topics@.take(i as int)).push(
                    ref_json(topics@[i as int]@.resource_id, topics@[i as int]@.ref_name),
                ));
            }
            i = i + 1;
        }
        assert(topics@.take(topics@.len() as int) =~= topics@);
        Self::new_with_values(id, doc, values)
    }

    pub(crate) fn new_with_values(id: Id, doc: PolicyDocument, topics: Vec<Value>) -> (r: Self)
        ensures
            r.id == id,
            r.doc == doc,
            r.topics == topics,
    {
        Self { id, doc, topics }
    }

    pub(crate) fn build(self, stack_builder: &mut StackBuilder) -> (r: TopicPolicyRef)
        ensures
            final(stack_builder)@ == (StackBuilderView {
                resources: old(stack_builder)@.resources.push(final(stack_builder)@.resources.last()),
                ..old(stack_builder)@
            }),
            final(stack_builder)@.resources.last() matches Resource::TopicPolicy(p) && {
                &&& p@.id == self.id
                &&& p@.resource_id@ == r@.resource_id
                &&& p@.resource_type@ == "AWS::SNS::TopicPolicy"@
                &&& p@.properties@.doc == self.doc
                &&& p@.properties@.topics == self.topics
            },
            r@.id == self.id.0@,
            is_generated_id(r@.resource_id, "TopicPolicy"@),
            r@.ref_name is None,
            r@.arn_value is None,
    {
        let resource_id = Resource::generate_id("TopicPolicy");
        stack_builder.add_resource(
            Resource::TopicPolicy(
                TopicPolicy {
                    id: self.id.clone(),
                    resource_id: resource_id.clone(),
                    resource_type: String::from_str("AWS::SNS::TopicPolicy"),
                    properties: TopicPolicyProperties { doc: self.doc, topics: self.topics },
                },
            ),
        );
        TopicPolicyRef::internal_new(self.id, resource_id)
    }
}

} // verus!
