use crate::events::{
    FlexibleTimeWindow, FlexibleTimeWindowView, RetryPolicy, RetryPolicyView, Schedule, ScheduleProperties,
    SchedulePropertiesView, ScheduleRef, Target, TargetView,
};
use crate::iam::RoleRef;
use crate::json::{JsonView, Value};
use crate::lambda::FunctionRef;
use crate::shared::{arn_json, Id};
use crate::sns::{topic_arn_json, TopicRef};
use crate::sqs::QueueRef;
use crate::stack::{is_generated_id, Resource, StackBuilder, StackBuilderView};
use crate::text::{concat3, decimal, u32_to_string};
use crate::wrappers::{
    MaxFlexibleTimeWindow, RetryPolicyEventAge, RetryPolicyRetries, ScheduleAtExpression, ScheduleCronExpression,
    ScheduleName, ScheduleRateExpression,
};
use std::marker::PhantomData;
use vstd::prelude::*;

verus! {

/// The states of a [`ScheduleBuilder`]: whether it runs once or repeatedly.
pub trait ScheduleBuilderState {}

pub struct StartState {}

pub struct OneTimeScheduleState {}

pub struct RepeatedScheduleState {}

impl ScheduleBuilderState for StartState {}

impl ScheduleBuilderState for OneTimeScheduleState {}

impl ScheduleBuilderState for RepeatedScheduleState {}

/// Whether a schedule runs.
#[derive(Debug)]
pub enum State {
    Enabled,
    Disabled,
}

/// How CloudFormation writes a [`State`].
pub open spec fn state_name(v: State) -> Seq<char> {
    match v {
        State::Enabled => "ENABLED"@,
        State::Disabled => "DISABLED"@,
    }
}

impl vstd::std_specs::convert::FromSpecImpl<State> for String {
    open spec fn obeys_from_spec() -> bool {
        false
    }

    open spec fn from_spec(v: State) -> String {
        vstd::pervasive::arbitrary()
    }
}

impl From<State> for String {
    fn from(value: State) -> (r: String)
        ensures
            r@ == state_name(value),
    {
        match value {
            State::Enabled => String::from_str("ENABLED"),
            State::Disabled => String::from_str("DISABLED"),
        }
    }
}

/// Builder for EventBridge Scheduler schedules.
pub struct ScheduleBuilder<T: ScheduleBuilderState> {
    pub(crate) phantom_data: PhantomData<T>,
    pub(crate) id: Id,
    pub(crate) start_date: Option<String>,
    pub(crate) end_date: Option<String>,
    pub(crate) flexible_time_window: FlexibleTimeWindow,
    pub(crate) group_name: Option<String>,
    pub(crate) name: Option<String>,
    pub(crate) state: Option<String>,
    pub(crate) schedule_expression: Option<String>,
    pub(crate) target: Target,
}

/// What a [`ScheduleBuilder`] holds.
pub struct ScheduleBuilderView {
    pub id: Id,
    pub start_date: Option<String>,
    pub end_date: Option<String>,
    pub flexible_time_window: FlexibleTimeWindow,
    pub group_name: Option<String>,
    pub name: Option<String>,
    pub state: Option<String>,
    pub schedule_expression: Option<String>,
    pub target: Target,
}

impl<T: ScheduleBuilderState> View for ScheduleBuilder<T> {
    type V = ScheduleBuilderView;

    open(crate) spec fn view(&self) -> ScheduleBuilderView {
        ScheduleBuilderView {
            id: self.id,
            start_date: self.start_date,
            end_date: self.end_date,
            flexible_time_window: self.flexible_time_window,
            group_name: self.group_name,
            name: self.name,
            state: self.state,
            schedule_expression: self.schedule_expression,
            target: self.target,
        }
    }
}

/// What building a schedule from the builder state `b` adds to the stack: the schedule.
pub open spec fn schedule_added(before: StackBuilderView, after: StackBuilderView, b: ScheduleBuilderView, r: crate::shared::RefView) -> bool {
    &&& after == (StackBuilderView { resources: before.resources.push(after.resources.last()), ..before })
    &&& after.resources.last() matches Resource::Schedule(s) && {
        &&& s@.id == b.id
        &&& s@.resource_id@ == r.resource_id
        &&& s@.resource_type@ == "AWS::Scheduler::Schedule"@
        &&& s@.properties@ == (SchedulePropertiesView {
            start_date: b.start_date,
            end_date: b.end_date,
            flexible_time_window: b.flexible_time_window,
            group_name: b.group_name,
            name: b.name,
            state: b.state,
            schedule_expression: b.schedule_expression.unwrap(),
            target: b.target,
        })
    }
    &&& is_generated_id(r.resource_id, "Schedule"@)
    &&& r.ref_name is None
    &&& r.arn_value is None
}

impl<T: ScheduleBuilderState> ScheduleBuilder<T> {
    pub fn name(self, name: ScheduleName) -> (r: Self)
        ensures
            r@ == (ScheduleBuilderView { name: Some(name.0), ..self@ }),
    {
        Self { name: Some(name.0), ..self }
    }

    pub fn group_name(self, group_name: ScheduleName) -> (r: Self)
        ensures
            r@ == (ScheduleBuilderView { group_name: Some(group_name.0), ..self@ }),
    {
        Self { group_name: Some(group_name.0), ..self }
    }

    pub fn state(self, state: State) -> (r: Self)
        ensures
            r@ == (ScheduleBuilderView { state: r@.state, ..self@ }),
            r@.state matches Some(s) && s@ == state_name(state),
    {
        Self { state: Some(state.into()), ..self }
    }

    fn build_internal(self, stack_builder: &mut StackBuilder) -> (r: ScheduleRef)
        requires
            self@.schedule_expression is Some,
        ensures
            schedule_added(old(stack_builder)@, final(stack_builder)@, self@, r@),
    {
        let resource_id = Resource::generate_id("Schedule");
        let schedule_expression = match self.schedule_expression {
            Some(e) => e,
            None => {
                assert(false);
                String::new()
            },
        };
        stack_builder.add_resource(
            Resource::Schedule(
                Schedule {
                    id: self.id,
                    resource_id: resource_id.clone(),
                    resource_type: String::from_str("AWS::Scheduler::Schedule"),
                    properties: ScheduleProperties {
                        start_date: self.start_date,
                        end_date: self.end_date,
                        flexible_time_window: self.flexible_time_window,
                        group_name: self.group_name,
                        name: self.name,
                        state: self.state,
                        schedule_expression,
                        target: self.target,
                    },
                },
            ),
        );
        ScheduleRef::internal_new(resource_id)
    }
}

impl ScheduleBuilder<StartState> {
    pub fn new(id: &str, target: Target, flexible_time_window: FlexibleTimeWindow) -> (r: ScheduleBuilder<StartState>)
        ensures
            r@.id.0@ == id@,
            r@.target == target,
            r@.flexible_time_window == flexible_time_window,
            r@.start_date is None,
            r@.end_date is None,
            r@.group_name is None,
            r@.name is None,
            r@.state is None,
            r@.schedule_expression is None,
    {
        ScheduleBuilder {
            phantom_data: PhantomData,
            id: Id(String::from_str(id)),
            flexible_time_window,
            target,
            start_date: None,
            end_date: None,
            group_name: None,
            name: None,
            state: None,
            schedule_expression: None,
        }
    }

    /// Runs the schedule once, at the given time: `at(...)`.
    pub fn one_time_schedule(self, expression: ScheduleAtExpression) -> (r: ScheduleBuilder<OneTimeScheduleState>)
        ensures
            r@ == (ScheduleBuilderView { schedule_expression: r@.schedule_expression, start_date: None, end_date: None, ..self@ }),
            r@.schedule_expression matches Some(e) && e@ == "at("@ + expression.0@ + ")"@,
    {
        let one_time_schedule = concat3("at(", expression.0.as_str(), ")");
        ScheduleBuilder {
            phantom_data: PhantomData,
            schedule_expression: Some(one_time_schedule),
            id: self.id,
            flexible_time_window: self.flexible_time_window,
            group_name: self.group_name,
            name: self.name,
            state: self.state,
            target: self.target,
            start_date: None,
            end_date: None,
        }
    }

    /// Runs the schedule at a fixed rate: `rate(<value> <unit>)`.
    pub fn rate_schedule(self, expression: ScheduleRateExpression) -> (r: ScheduleBuilder<RepeatedScheduleState>)
        ensures
            r@ == (ScheduleBuilderView { schedule_expression: r@.schedule_expression, ..self@ }),
            r@.schedule_expression matches Some(e) && e@ == "rate("@ + decimal(expression.0 as nat) + " "@ + expression.1@ + ")"@,
    {
        let mut rate = String::from_str("rate(");
        crate::text::push_decimal(&mut rate, expression.0 as u32);
        rate.append(" ");
        rate.append(expression.1.as_str());
        rate.append(")");
        ScheduleBuilder {
            phantom_data: PhantomData,
            schedule_expression: Some(rate),
            id: self.id,
            flexible_time_window: self.flexible_time_window,
            group_name: self.group_name,
            name: self.name,
            state: self.state,
            target: self.target,
            start_date: self.start_date,
            end_date: self.end_date,
        }
    }

    /// Runs the schedule on a cron expression: `cron(...)`.
    pub fn cron_schedule(self, expression: ScheduleCronExpression) -> (r: ScheduleBuilder<RepeatedScheduleState>)
        ensures
            r@ == (ScheduleBuilderView { schedule_expression: r@.schedule_expression, ..self@ }),
            r@.schedule_expression matches Some(e) && e@ == "cron("@ + expression.0@ + ")"@,
    {
        let schedule = concat3("cron(", expression.0.as_str(), ")");
        ScheduleBuilder {
            phantom_data: PhantomData,
            schedule_expression: Some(schedule),
            id: self.id,
            flexible_time_window: self.flexible_time_window,
            group_name: self.group_name,
            name: self.name,
            state: self.state,
            target: self.target,
            start_date: self.start_date,
            end_date: self.end_date,
        }
    }
}

impl ScheduleBuilder<OneTimeScheduleState> {
    /// Adds the schedule to the stack.
    pub fn build(self, stack_builder: &mut StackBuilder) -> (r: ScheduleRef)
        requires
            self@.schedule_expression is Some,
        ensures
            schedule_added(old(stack_builder)@, final(stack_builder)@, self@, r@),
    {
        self.build_internal(stack_builder)
    }
}

impl ScheduleBuilder<RepeatedScheduleState> {
    pub fn start_date(self, start_date: String) -> (r: Self)
        ensures
            r@ == (ScheduleBuilderView { start_date: Some(start_date), ..self@ }),
    {
        Self { start_date: Some(start_date), ..self }
    }

    pub fn end_date(self, end_date: String) -> (r: Self)
        ensures
            r@ == (ScheduleBuilderView { end_date: Some(end_date), ..self@ }),
    {
        Self { end_date: Some(end_date), ..self }
    }

    /// Adds the schedule to the stack.
    pub fn build(self, stack_builder: &mut StackBuilder) -> (r: ScheduleRef)
        requires
            self@.schedule_expression is Some,
        ensures
            schedule_added(old(stack_builder)@, final(stack_builder)@, self@, r@),
    {
        self.build_internal(stack_builder)
    }
}

/// The states of a [`TargetBuilder`]: whether its input is JSON or plain.
pub trait TargetBuilderState {}

pub struct TargetStartState {}

pub struct JsonTargetState {}

pub struct NormalTargetState {}

impl TargetBuilderState for TargetStartState {}

impl TargetBuilderState for JsonTargetState {}

impl TargetBuilderState for NormalTargetState {}

/// Builder for what a schedule invokes.
pub struct TargetBuilder<T: TargetBuilderState> {
    pub(crate) phantom_data: PhantomData<T>,
    pub(crate) target_arn: Value,
    pub(crate) role_arn: Value,
    pub(crate) input: Option<String>,
    pub(crate) retry_policy: Option<RetryPolicy>,
}

impl<T: TargetBuilderState> View for TargetBuilder<T> {
    type V = TargetView;

    open(crate) spec fn view(&self) -> TargetView {
        TargetView { arn: self.target_arn, role_arn: self.role_arn, input: self.input, retry_policy: self.retry_policy }
    }
}

/// A target that takes JSON input.
pub enum JsonTarget<'a> {
    Lambda(&'a FunctionRef),
}

/// A target that takes plain input.
pub enum NormalTarget<'a> {
    Sqs(&'a QueueRef),
    Sns(&'a TopicRef),
    Other(Value),
}

/// The ARN of a target with plain input.
pub open spec fn normal_target_arn(t: NormalTarget) -> JsonView {
    match t {
        NormalTarget::Sqs(q) => arn_json(q@.resource_id, q@.arn_value),
        NormalTarget::Sns(s) => topic_arn_json(s@),
        NormalTarget::Other(v) => v@,
    }
}

impl TargetBuilder<TargetStartState> {
    pub fn new_normal_target(target: NormalTarget, schedule_role: &RoleRef) -> (r: TargetBuilder<NormalTargetState>)
        ensures
            r@.arn@ == normal_target_arn(target),
            r@.role_arn@ == arn_json(schedule_role@.resource_id, schedule_role@.arn_value),
            r@.input is None,
            r@.retry_policy is None,
    {
        let arn = match target {
            NormalTarget::Sqs(r) => r.get_arn(),
            NormalTarget::Sns(r) => r.get_arn(),
            NormalTarget::Other(r) => r,
        };
        TargetBuilder { phantom_data: PhantomData, target_arn: arn, role_arn: schedule_role.get_arn(), input: None, retry_policy: None }
    }

    pub fn new_json_target(target: JsonTarget, schedule_role: &RoleRef) -> (r: TargetBuilder<JsonTargetState>)
        ensures
            r@.arn@ == match target {
                JsonTarget::Lambda(l) => arn_json(l@.resource_id, l@.arn_value),
            },
            r@.role_arn@ == arn_json(schedule_role@.resource_id, schedule_role@.arn_value),
            r@.input is None,
            r@.retry_policy is None,
    {
        let target_arn = match target {
            JsonTarget::Lambda(l) => l.get_arn(),
        };
        TargetBuilder { phantom_data: PhantomData, target_arn, role_arn: schedule_role.get_arn(), input: None, retry_policy: None }
    }
}

impl<T: TargetBuilderState> TargetBuilder<T> {
    pub fn retry_policy(self, retry_policy: RetryPolicy) -> (r: TargetBuilder<T>)
        ensures
            r@ == (TargetView { retry_policy: Some(retry_policy), ..self@ }),
    {
        TargetBuilder {
            retry_policy: Some(retry_policy),
            phantom_data: PhantomData,
            target_arn: self.target_arn,
            role_arn: self.role_arn,
            input: self.input,
        }
    }

    pub fn build(self) -> (r: Target)
        ensures
            r@ == self@,
    {
        Target { arn: self.target_arn, role_arn: self.role_arn, input: self.input, retry_policy: self.retry_policy }
    }
}

impl TargetBuilder<NormalTargetState> {
    pub fn input(self, input: String) -> (r: Self)
        ensures
            r@ == (TargetView { input: Some(input), ..self@ }),
    {
        Self { input: Some(input), ..self }
    }
}

impl TargetBuilder<JsonTargetState> {
    /// The input, as the JSON text of a value.
    pub fn input(self, input_json_text: String) -> (r: Self)
        ensures
            r@ == (TargetView { input: Some(input_json_text), ..self@ }),
    {
        Self { input: Some(input_json_text), ..self }
    }
}

/// Whether a schedule may run later than its times, and by how much.
pub enum Mode {
    Off,
    Flexible(MaxFlexibleTimeWindow),
}

/// Builder for how far a schedule may drift from its times.
pub struct FlexibleTimeWindowBuilder {
    pub(crate) maximum_window_in_minutes: Option<u16>,
    pub(crate) mode: String,
}

impl View for FlexibleTimeWindowBuilder {
    type V = FlexibleTimeWindowView;

    open(crate) spec fn view(&self) -> FlexibleTimeWindowView {
        FlexibleTimeWindowView { maximum_window_in_minutes: self.maximum_window_in_minutes, mode: self.mode }
    }
}

impl FlexibleTimeWindowBuilder {
    pub fn new(mode: Mode) -> (r: Self)
        ensures
            match mode {
                Mode::Off => r@.maximum_window_in_minutes is None && r@.mode@ == "OFF"@,
                Mode::Flexible(max) => r@.maximum_window_in_minutes == Some(max.0) && r@.mode@ == "FLEXIBLE"@,
            },
    {
        match mode {
            Mode::Off => Self { maximum_window_in_minutes: None, mode: String::from_str("OFF") },
            Mode::Flexible(max) => Self { maximum_window_in_minutes: Some(max.0), mode: String::from_str("FLEXIBLE") },
        }
    }

    pub fn build(self) -> (r: FlexibleTimeWindow)
        ensures
            r@ == self@,
    {
        FlexibleTimeWindow { maximum_window_in_minutes: self.maximum_window_in_minutes, mode: self.mode }
    }
}

/// Builder for how a schedule retries its target.
pub struct RetryPolicyBuilder {
    pub(crate) maximum_event_age_in_seconds: Option<u32>,
    pub(crate) maximum_retry_attempts: Option<u8>,
}

/// What a [`RetryPolicyBuilder`] holds.
pub struct RetryPolicyBuilderView {
    pub maximum_event_age_in_seconds: Option<u32>,
    pub maximum_retry_attempts: Option<u8>,
}

impl View for RetryPolicyBuilder {
    type V = RetryPolicyBuilderView;

    open(crate) spec fn view(&self) -> RetryPolicyBuilderView {
        RetryPolicyBuilderView { maximum_event_age_in_seconds: self.maximum_event_age_in_seconds, maximum_retry_attempts: self.maximum_retry_attempts }
    }
}

impl RetryPolicyBuilder {
    pub fn new() -> (r: Self)
        ensures
            r@.maximum_event_age_in_seconds is None,
            r@.maximum_retry_attempts is None,
    {
        Self {
            maximum_event_age_in_seconds: None,
            maximum_retry_attempts: None,
        }
    }

    pub fn maximum_event_age_in_seconds(self, maximum_event_age_in_seconds: RetryPolicyEventAge) -> (r: Self)
        ensures
            r@ == (RetryPolicyBuilderView { maximum_event_age_in_seconds: Some(maximum_event_age_in_seconds.0), ..self@ }),
    {
        Self { maximum_event_age_in_seconds: Some(maximum_event_age_in_seconds.0), ..self }
    }

    pub fn maximum_retry_attempts(self, maximum_retry_attempts: RetryPolicyRetries) -> (r: Self)
        ensures
            r@ == (RetryPolicyBuilderView { maximum_retry_attempts: Some(maximum_retry_attempts.0), ..self@ }),
    {
        Self { maximum_retry_attempts: Some(maximum_retry_attempts.0), ..self }
    }

    pub fn build(self) -> (r: RetryPolicy)
        ensures
            r@ == (RetryPolicyView { maximum_event_age_in_seconds: self@.maximum_event_age_in_seconds, maximum_retry_attempts: self@.maximum_retry_attempts }),
    {
        RetryPolicy {
            maximum_event_age_in_seconds: self.maximum_event_age_in_seconds,
            maximum_retry_attempts: self.maximum_retry_attempts,
        }
    }
}

} // verus!
