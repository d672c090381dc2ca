use crate::iam::{point_statements_at, statements_pointed_at, PolicyDocument};
use crate::json::{json_views, JsonView, Value};
use crate::shared::{arn_json, ref_json, Id, RefWithIdView, QUEUE_POLICY_ID_SUFFIX};
use crate::sqs::{Queue, QueuePolicy, QueuePolicyProperties, QueuePolicyRef, QueueProperties, QueueRef, RedrivePolicy};
use crate::stack::{is_generated_id, Resource, StackBuilder, StackBuilderView};
use crate::wrappers::{
    DelaySeconds, MaximumMessageSize, MessageRetentionPeriod, NonZeroNumber, ReceiveMessageWaitTime,
    StringWithOnlyAlphaNumericsAndUnderscores, VisibilityTimeout,
};
use std::marker::PhantomData;
use vstd::prelude::*;

verus! {

/// What the name of a FIFO queue must end with.
pub const FIFO_SUFFIX: &'static str = ".fifo";

/// The scope in which a FIFO queue drops duplicate messages.
#[derive(Debug, Clone)]
pub enum DeduplicationScope {
    Queue,
    MessageGroup,
}

/// How CloudFormation writes a deduplication scope.
pub open spec fn deduplication_scope_name(s: DeduplicationScope) -> Seq<char> {
    match s {
        DeduplicationScope::Queue => "queue"@,
        DeduplicationScope::MessageGroup => "messageGroup"@,
    }
}

impl vstd::std_specs::convert::FromSpecImpl<DeduplicationScope> for String {
    open spec fn obeys_from_spec() -> bool {
        false
    }

    open spec fn from_spec(v: DeduplicationScope) -> String {
        vstd::pervasive::arbitrary()
    }
}

impl From<DeduplicationScope> for String {
    fn from(value: DeduplicationScope) -> (r: String)
        ensures
            r@ == deduplication_scope_name(value),
    {
        match value {
            DeduplicationScope::Queue => String::from_str("queue"),
            DeduplicationScope::MessageGroup => String::from_str("messageGroup"),
        }
    }
}

/// What the throughput limit of a FIFO queue applies to.
#[derive(Debug, Clone)]
pub enum FifoThroughputLimit {
    PerQueue,
    PerMessageGroupId,
}

/// How CloudFormation writes a throughput limit.
pub open spec fn fifo_throughput_limit_name(l: FifoThroughputLimit) -> Seq<char> {
    match l {
        FifoThroughputLimit::PerQueue => "perQueue"@,
        FifoThroughputLimit::PerMessageGroupId => "perMessageGroupId"@,
    }
}

impl vstd::std_specs::convert::FromSpecImpl<FifoThroughputLimit> for String {
    open spec fn obeys_from_spec() -> bool {
        false
    }

    open spec fn from_spec(v: FifoThroughputLimit) -> String {
        vstd::pervasive::arbitrary()
    }
}

impl From<FifoThroughputLimit> for String {
    fn from(value: FifoThroughputLimit) -> (r: String)
        ensures
            r@ == fifo_throughput_limit_name(value),
    {
        match value {
            FifoThroughputLimit::PerQueue => String::from_str("perQueue"),
            FifoThroughputLimit::PerMessageGroupId => String::from_str("perMessageGroupId"),
        }
    }
}

/// The states of a [`QueueBuilder`]: whether the queue is standard or FIFO.
pub trait QueueBuilderState {}

pub struct StartState {}

pub struct StandardState {}

pub struct FifoState {}

impl QueueBuilderState for StartState {}

impl QueueBuilderState for StandardState {}

impl QueueBuilderState for FifoState {}

/// Builder for SQS queues.
///
/// Supports both standard and FIFO queues. FIFO queues have additional configuration
/// options for deduplication and throughput.
pub struct QueueBuilder<T: QueueBuilderState> {
    pub(crate) state: PhantomData<T>,
    pub(crate) id: Id,
    pub(crate) queue_name: Option<String>,
    pub(crate) delay_seconds: Option<u32>,
    pub(crate) maximum_message_size: Option<u32>,
    pub(crate) message_retention_period: Option<u32>,
    pub(crate) receive_message_wait_time_seconds: Option<u32>,
    pub(crate) visibility_timeout: Option<u32>,
    pub(crate) content_based_deduplication: Option<bool>,
    pub(crate) deduplication_scope: Option<String>,
    pub(crate) fifo_throughput_limit: Option<String>,
    pub(crate) sqs_managed_sse_enabled: Option<bool>,
    pub(crate) redrive_policy: Option<RedrivePolicy>,
    pub(crate) redrive_allow_policy: Option<Value>,
    pub(crate) queue_policy_doc: Option<PolicyDocument>,
}

/// What a [`QueueBuilder`] holds.
pub struct QueueBuilderView {
    pub id: Id,
    pub queue_name: Option<String>,
    pub delay_seconds: Option<u32>,
    pub maximum_message_size: Option<u32>,
    pub message_retention_period: Option<u32>,
    pub receive_message_wait_time_seconds: Option<u32>,
    pub visibility_timeout: Option<u32>,
    pub content_based_deduplication: Option<bool>,
    pub deduplication_scope: Option<String>,
    pub fifo_throughput_limit: Option<String>,
    pub sqs_managed_sse_enabled: Option<bool>,
    pub redrive_policy: Option<RedrivePolicy>,
    pub redrive_allow_policy: Option<Value>,
    pub queue_policy_doc: Option<PolicyDocument>,
}

impl<T: QueueBuilderState> View for QueueBuilder<T> {
    type V = QueueBuilderView;

    open(crate) spec fn view(&self) -> QueueBuilderView {
        QueueBuilderView {
            id: self.id,
            queue_name: self.queue_name,
            delay_seconds: self.delay_seconds,
            maximum_message_size: self.maximum_message_size,
            message_retention_period: self.message_retention_period,
            receive_message_wait_time_seconds: self.receive_message_wait_time_seconds,
            visibility_timeout: self.visibility_timeout,
            content_based_deduplication: self.content_based_deduplication,
            deduplication_scope: self.deduplication_scope,
            fifo_throughput_limit: self.fifo_throughput_limit,
            sqs_managed_sse_enabled: self.sqs_managed_sse_enabled,
            redrive_policy: self.redrive_policy,
            redrive_allow_policy: self.redrive_allow_policy,
            queue_policy_doc: self.queue_policy_doc,
        }
    }
}

/// The name a FIFO queue gets: the chosen name with `.fifo` added where it does not end with it.
pub open spec fn fifo_queue_name(name: Option<Seq<char>>) -> Option<Seq<char>> {
    match name {
        Some(n) => if FIFO_SUFFIX@.is_suffix_of(n) {
            Some(n)
        } else {
            Some(n + FIFO_SUFFIX@)
        },
        None => None,
    }
}

/// `FIFO_SUFFIX` ends `n + FIFO_SUFFIX`.
proof fn lemma_suffix_of_appended(n: Seq<char>)
    ensures
        FIFO_SUFFIX@.is_suffix_of(n + FIFO_SUFFIX@),
{
    let m = n + FIFO_SUFFIX@;
    assert(m.subrange(m.len() - FIFO_SUFFIX@.len(), m.len() as int) =~= FIFO_SUFFIX@);
}

/// A FIFO queue's name always ends in `.fifo`, and naming it again changes nothing.
pub proof fn fifo_queue_names_end_in_fifo(name: Option<Seq<char>>)
    ensures
        fifo_queue_name(name) matches Some(m) ==> FIFO_SUFFIX@.is_suffix_of(m),
        fifo_queue_name(name) is None <==> name is None,
        fifo_queue_name(fifo_queue_name(name)) == fifo_queue_name(name),
{
    if let Some(n) = name {
        lemma_suffix_of_appended(n);
    }
}

/// `q` is the queue that the builder state `b` describes, named `name`, with logical id `resource_id`.
pub open spec fn queue_made_by(q: Queue, b: QueueBuilderView, fifo: bool, name: Option<Seq<char>>, resource_id: Seq<char>) -> bool {
    let p = q@.properties@;
    &&& q@.id == b.id
    &&& q@.resource_id@ == resource_id
    &&& q@.resource_type@ == "AWS::SQS::Queue"@
    &&& crate::shared::opt_view(p.queue_name) == name
    &&& p.delay_seconds == b.delay_seconds
    &&& p.maximum_message_size == b.maximum_message_size
    &&& p.message_retention_period == b.message_retention_period
    &&& p.receive_message_wait_time_seconds == b.receive_message_wait_time_seconds
    &&& p.visibility_timeout == b.visibility_timeout
    &&& p.fifo_queue == (if fifo { Some(true) } else { None::<bool> })
    &&& p.content_based_deduplication == b.content_based_deduplication
    &&& p.deduplication_scope == b.deduplication_scope
    &&& p.fifo_throughput_limit == b.fifo_throughput_limit
    &&& p.sqs_managed_sse_enabled == b.sqs_managed_sse_enabled
    &&& p.redrive_policy == b.redrive_policy
    &&& p.redrive_allow_policy == b.redrive_allow_policy
    &&& p.kms_data_key_reuse_period_seconds is None
    &&& p.kms_master_key_id is None
}

/// `p` is the policy of queue `queue`, made from the builder state `b`: the document's statements
/// point at the queue's ARN, and the policy applies to the queue.
pub open spec fn queue_policy_made_for(p: QueuePolicy, b: QueueBuilderView, queue: RefWithIdView) -> bool {
    let props = p@.properties@;
    let doc = b.queue_policy_doc.unwrap()@;
    &&& p@.id.0@ == b.id.0@ + QUEUE_POLICY_ID_SUFFIX@
    &&& is_generated_id(p@.resource_id@, "QueuePolicy"@)
    &&& p@.resource_type@ == "AWS::SQS::QueuePolicy"@
    &&& props.doc@.version == doc.version
    &&& statements_pointed_at(props.doc@.statements@, doc.statements@, arn_json(queue.resource_id, queue.arn_value))
    &&& json_views(props.queues@) == seq![ref_json(queue.resource_id, queue.ref_name)]
}

/// What building a queue from the builder state `b` does to the stack's resources: a policy
/// for the queue first where one was given, then the queue itself.
pub open spec fn queue_resources_added(
    before: StackBuilderView,
    after: StackBuilderView,
    b: QueueBuilderView,
    fifo: bool,
    name: Option<Seq<char>>,
    r: RefWithIdView,
) -> bool {
    let n = before.resources.len();
    &&& after.tags == before.tags
    &&& after.outputs == before.outputs
    &&& r.id == b.id.0@
    &&& is_generated_id(r.resource_id, "SqsQueue"@)
    &&& r.ref_name is None
    &&& r.arn_value is None
    &&& after.resources.last() matches Resource::Queue(q) && queue_made_by(q, b, fifo, name, r.resource_id)
    &&& match b.queue_policy_doc {
        None => {
            &&& after.resources.len() == n + 1
            &&& after.resources.drop_last() == before.resources
        },
        Some(_) => {
            &&& after.resources.len() == n + 2
            &&& after.resources.subrange(0, n as int) == before.resources
            &&& after.resources[n as int] matches Resource::QueuePolicy(p) && queue_policy_made_for(p, b, r)
        },
    }
}

impl QueueBuilder<StartState> {
    /// Creates a new SQS queue builder.
    ///
    /// # Arguments
    /// * `id` - Unique identifier for the queue
    pub fn new(id: &str) -> (r: Self)
        ensures
            r@ == (QueueBuilderView {
                id: r@.id,
                queue_name: None,
                delay_seconds: None,
                maximum_message_size: None,
                message_retention_period: None,
                receive_message_wait_time_seconds: None,
                visibility_timeout: None,
                content_based_deduplication: None,
                deduplication_scope: None,
                fifo_throughput_limit: None,
                sqs_managed_sse_enabled: None,
                redrive_policy: None,
                redrive_allow_policy: None,
                queue_policy_doc: None,
            }),
            r@.id.0@ == id@,
    {
        Self {
            state: PhantomData,
            id: Id(String::from_str(id)),
            queue_name: None,
            delay_seconds: None,
            maximum_message_size: None,
            message_retention_period: None,
            receive_message_wait_time_seconds: None,
            visibility_timeout: None,
            content_based_deduplication: None,
            deduplication_scope: None,
            fifo_throughput_limit: None,
            sqs_managed_sse_enabled: None,
            redrive_policy: None,
            redrive_allow_policy: None,
            queue_policy_doc: None,
        }
    }

    pub fn standard_queue(self) -> (r: QueueBuilder<StandardState>)
        ensures
            r@ == self@,
    {
        QueueBuilder {
            state: PhantomData,
            id: self.id,
            queue_name: self.queue_name,
            delay_seconds: self.delay_seconds,
            maximum_message_size: self.maximum_message_size,
            message_retention_period: self.message_retention_period,
            receive_message_wait_time_seconds: self.receive_message_wait_time_seconds,
            visibility_timeout: self.visibility_timeout,
            content_based_deduplication: self.content_based_deduplication,
            deduplication_scope: self.deduplication_scope,
            fifo_throughput_limit: self.fifo_throughput_limit,
            sqs_managed_sse_enabled: self.sqs_managed_sse_enabled,
            redrive_policy: self.redrive_policy,
            redrive_allow_policy: self.redrive_allow_policy,
            queue_policy_doc: self.queue_policy_doc,
        }
    }

    pub fn fifo_queue(self) -> (r: QueueBuilder<FifoState>)
        ensures
            r@ == self@,
    {
        QueueBuilder {
            state: PhantomData,
            id: self.id,
            queue_name: self.queue_name,
            delay_seconds: self.delay_seconds,
            maximum_message_size: self.maximum_message_size,
            message_retention_period: self.message_retention_period,
            receive_message_wait_time_seconds: self.receive_message_wait_time_seconds,
            visibility_timeout: self.visibility_timeout,
            content_based_deduplication: self.content_based_deduplication,
            deduplication_scope: self.deduplication_scope,
            fifo_throughput_limit: self.fifo_throughput_limit,
            sqs_managed_sse_enabled: self.sqs_managed_sse_enabled,
            redrive_policy: self.redrive_policy,
            redrive_allow_policy: self.redrive_allow_policy,
            queue_policy_doc: self.queue_policy_doc,
        }
    }
}

impl<T: QueueBuilderState> QueueBuilder<T> {
    pub fn delay_seconds(self, delay: DelaySeconds) -> (r: Self)
        ensures
            r@ == (QueueBuilderView { delay_seconds: Some(delay.0 as u32), ..self@ }),
    {
        Self { delay_seconds: Some(delay.0 as u32), ..self }
    }

    pub fn maximum_message_size(self, size: MaximumMessageSize) -> (r: Self)
        ensures
            r@ == (QueueBuilderView { maximum_message_size: Some(size.0), ..self@ }),
    {
        Self { maximum_message_size: Some(size.0), ..self }
    }

    pub fn message_retention_period(self, period: MessageRetentionPeriod) -> (r: Self)
        ensures
            r@ == (QueueBuilderView { message_retention_period: Some(period.0), ..self@ }),
    {
        Self { message_retention_period: Some(period.0), ..self }
    }

    pub fn receive_message_wait_time_seconds(self, wait_time: ReceiveMessageWaitTime) -> (r: Self)
        ensures
            r@ == (QueueBuilderView { receive_message_wait_time_seconds: Some(wait_time.0 as u32), ..self@ }),
    {
        Self { receive_message_wait_time_seconds: Some(wait_time.0 as u32), ..self }
    }

    pub fn visibility_timeout(self, timeout: VisibilityTimeout) -> (r: Self)
        ensures
            r@ == (QueueBuilderView { visibility_timeout: Some(timeout.0), ..self@ }),
    {
        Self { visibility_timeout: Some(timeout.0), ..self }
    }

    pub fn sqs_managed_sse_enabled(self, enabled: bool) -> (r: Self)
        ensures
            r@ == (QueueBuilderView { sqs_managed_sse_enabled: Some(enabled), ..self@ }),
    {
        Self { sqs_managed_sse_enabled: Some(enabled), ..self }
    }

    pub fn dead_letter_queue(self, dead_letter_target_arn: &str, max_receive_count: NonZeroNumber) -> (r: Self)
        ensures
            r@ == (QueueBuilderView { redrive_policy: r@.redrive_policy, ..self@ }),
            r@.redrive_policy matches Some(p) && p@.dead_letter_target_arn@ == dead_letter_target_arn@
                && p@.max_receive_count == max_receive_count.0,
    {
        Self {
            redrive_policy: Some(
                RedrivePolicy {
                    dead_letter_target_arn: String::from_str(dead_letter_target_arn),
                    max_receive_count: max_receive_count.0,
                },
            ),
            ..self
        }
    }

    pub fn redrive_allow_policy(self, policy: Value) -> (r: Self)
        ensures
            r@ == (QueueBuilderView { redrive_allow_policy: Some(policy), ..self@ }),
    {
        Self { redrive_allow_policy: Some(policy), ..self }
    }

    pub fn queue_name(self, name: StringWithOnlyAlphaNumericsAndUnderscores) -> (r: Self)
        ensures
            r@ == (QueueBuilderView { queue_name: Some(name.0), ..self@ }),
    {
        Self { queue_name: Some(name.0), ..self }
    }

    /// Adds an SQS Queue Policy for this queue.
    /// The `resources` section of each statement of the document is set to the ARN of this queue.
    pub fn queue_policy(self, doc: PolicyDocument) -> (r: Self)
        ensures
            r@ == (QueueBuilderView { queue_policy_doc: Some(doc), ..self@ }),
    {
        Self { queue_policy_doc: Some(doc), ..self }
    }

    fn build_internal(self, fifo: bool, stack_builder: &mut StackBuilder) -> (r: QueueRef)
        ensures
            queue_resources_added(
                old(stack_builder)@,
                final(stack_builder)@,
                self@,
                fifo,
                crate::shared::opt_view(self@.queue_name),
                r@,
            ),
    {
        let ghost b = self@;
        let properties = QueueProperties {
            queue_name: self.queue_name,
            delay_seconds: self.delay_seconds,
            maximum_message_size: self.maximum_message_size,
            message_retention_period: self.message_retention_period,
            receive_message_wait_time_seconds: self.receive_message_wait_time_seconds,
            visibility_timeout: self.visibility_timeout,
            fifo_queue: if fifo {
                Some(true)
            } else {
                None
            },
            content_based_deduplication: self.content_based_deduplication,
            deduplication_scope: self.deduplication_scope,
            fifo_throughput_limit: self.fifo_throughput_limit,
            sqs_managed_sse_enabled: self.sqs_managed_sse_enabled,
            redrive_policy: self.redrive_policy,
            redrive_allow_policy: self.redrive_allow_policy,
            kms_data_key_reuse_period_seconds: None,
            kms_master_key_id: None,
        };
        let resource_id = Resource::generate_id("SqsQueue");
        let queue_ref = QueueRef::internal_new(self.id.clone(), resource_id.clone());
        let ghost start = stack_builder@;
        match self.queue_policy_doc {
            Some(policy) => {
                let doc = point_statements_at(policy, &queue_ref.get_arn());
                let mut queues: Vec<&QueueRef> = Vec::new();
                queues.push(&queue_ref);
                assert(queue_refs_json(queues@) =~= seq![ref_json(queue_ref@.resource_id, queue_ref@.ref_name)]);
                QueuePolicyBuilder::new(Id::generate_id(&self.id, QUEUE_POLICY_ID_SUFFIX), doc, queues).build(
                    stack_builder,
                );
            },
            None => {},
        }
        let ghost middle = stack_builder@;
        stack_builder.add_resource(
            Resource::Queue(
                Queue { id: self.id, resource_id, resource_type: String::from_str("AWS::SQS::Queue"), properties },
            ),
        );
        proof {
            let after = stack_builder@;
            assert(after.resources.drop_last() == middle.resources);
            if b.queue_policy_doc is Some {
                assert(after.resources.subrange(0, start.resources.len() as int) =~= start.resources);
                assert(after.resources[start.resources.len() as int] == middle.resources.last());
            }
        }
        queue_ref
    }
}

impl QueueBuilder<StandardState> {
    /// Builds the standard queue and adds it to the stack.
    pub fn build(self, stack_builder: &mut StackBuilder) -> (r: QueueRef)
        ensures
            queue_resources_added(
                old(stack_builder)@,
                final(stack_builder)@,
                self@,
                false,
                crate::shared::opt_view(self@.queue_name),
                r@,
            ),
    {
        self.build_internal(false, stack_builder)
    }
}

impl QueueBuilder<FifoState> {
    pub fn content_based_deduplication(self, enabled: bool) -> (r: Self)
        ensures
            r@ == (QueueBuilderView { content_based_deduplication: Some(enabled), ..self@ }),
    {
        Self { content_based_deduplication: Some(enabled), ..self }
    }

    /// Enables high throughput mode for FIFO queues.
    ///
    /// Sets deduplication scope to MessageGroup and throughput limit to PerMessageGroupId.
    pub fn high_throughput_fifo(self) -> (r: Self)
        ensures
            r@ == (QueueBuilderView {
                deduplication_scope: r@.deduplication_scope,
                fifo_throughput_limit: r@.fifo_throughput_limit,
                ..self@
            }),
            r@.deduplication_scope matches Some(s) && s@ == "messageGroup"@,
            r@.fifo_throughput_limit matches Some(l) && l@ == "perMessageGroupId"@,
    {
        Self {
            deduplication_scope: Some(DeduplicationScope::MessageGroup.into()),
            fifo_throughput_limit: Some(FifoThroughputLimit::PerMessageGroupId.into()),
            ..self
        }
    }

    pub fn deduplication_scope(self, scope: DeduplicationScope) -> (r: Self)
        ensures
            r@ == (QueueBuilderView { deduplication_scope: r@.deduplication_scope, ..self@ }),
            r@.deduplication_scope matches Some(s) && s@ == deduplication_scope_name(scope),
    {
        Self { deduplication_scope: Some(scope.into()), ..self }
    }

    pub fn fifo_throughput_limit(self, limit: FifoThroughputLimit) -> (r: Self)
        ensures
            r@ == (QueueBuilderView { fifo_throughput_limit: r@.fifo_throughput_limit, ..self@ }),
            r@.fifo_throughput_limit matches Some(l) && l@ == fifo_throughput_limit_name(limit),
    {
        Self { fifo_throughput_limit: Some(limit.into()), ..self }
    }

    /// Builds the FIFO queue and adds it to the stack.
    ///
    /// Appends the required ".fifo" suffix to the queue name if not already present.
    pub fn build(self, stack_builder: &mut StackBuilder) -> (r: QueueRef)
        ensures
            queue_resources_added(
                old(stack_builder)@,
                final(stack_builder)@,
                self@,
                true,
                fifo_queue_name(crate::shared::opt_view(self@.queue_name)),
                r@,
            ),
    {
        let queue_name = match self.queue_name {
            Some(name) => if crate::text::ends_with(name.as_str(), FIFO_SUFFIX) {
                Some(name)
            } else {
                Some(crate::text::concat2(name.as_str(), FIFO_SUFFIX))
            },
            None => None,
        };
        let builder = QueueBuilder::<FifoState> { queue_name, ..self };
        builder.build_internal(true, stack_builder)
    }
}

/// Builder for the policy of one or more queues.
pub(crate) struct QueuePolicyBuilder {
    pub(crate) id: Id,
    pub(crate) doc: PolicyDocument,
    pub(crate) queues: Vec<Value>,
}

/// The values that `Ref` gives for the queues, in order.
pub open spec fn queue_refs_json(queues: Seq<&QueueRef>) -> Seq<JsonView> {
    queues.map_values(|q: &QueueRef| ref_json(q@.resource_id, q@.ref_name))
}

impl QueuePolicyBuilder {
    /// Use the `queue_policy` method of `QueueBuilder` to add a queue policy to a queue.
    pub(crate) fn new(id: Id, doc: PolicyDocument, queues: Vec<&QueueRef>) -> (r: Self)
        ensures
            r.id == id,
            r.doc == doc,
            json_views(r.queues@) == queue_refs_json(queues@),
    {
        let mut values: Vec<Value> = Vec::new();
        let mut i: usize = 0;
        while i < queues.len()
            invariant
                i <= queues@.len(),
                json_views(values@) == queue_refs_json(queues@.take(i as int)),
            decreases queues@.len() - i,
        {
            let ghost before = values@;
            values.push(queues[i].get_ref());
            proof {
                assert(values@.drop_last() =~= before);
                assert(queue_refs_json(queues@.take(i + 1)) =~= queue_refs_json(queues@.take(i as int)).push(
                    ref_json(queues@[i as int]@.resource_id, queues@[i as int]@.ref_name),
                ));
            }
            i = i + 1;
        }
        assert(queues@.take(queues@.len() as int) =~= queues@);
        Self::new_with_values(id, doc, values)
    }

    pub(crate) fn new_with_values(id: Id, doc: PolicyDocument, queues: Vec<Value>) -> (r: Self)
        ensures
            r.id == id,
            r.doc == doc,
            r.queues == queues,
    {
        Self { id, doc, queues }
    }

    pub(crate) fn build(self, stack_builder: &mut StackBuilder) -> (r: QueuePolicyRef)
        ensures
            final(stack_builder)@ == (StackBuilderView {
                resources: old(stack_builder)@.resources.push(final(stack_builder)@.resources.last()),
                ..old(stack_builder)@
            }),
            final(stack_builder)@.resources.last() matches Resource::QueuePolicy(p) && {
                &&& p@.id == self.id
                &&& p@.resource_id@ == r@.resource_id
                &&& p@.resource_type@ == "AWS::SQS::QueuePolicy"@
                &&& p@.properties@.doc == self.doc
                &&& p@.properties@.queues == self.queues
            },
            r@.id == self.id.0@,
            is_generated_id(r@.resource_id, "QueuePolicy"@),
            r@.ref_name is None,
            r@.arn_value is None,
    {
        let resource_id = Resource::generate_id("QueuePolicy");
        stack_builder.add_resource(
            Resource::QueuePolicy(
                QueuePolicy {
                    id: self.id.clone(),
                    resource_id: resource_id.clone(),
                    resource_type: String::from_str("AWS::SQS::QueuePolicy"),
                    properties: QueuePolicyProperties { doc: self.doc, queues: self.queues },
                },
            ),
        );
        QueuePolicyRef::internal_new(self.id, resource_id)
    }
}

} // verus!
