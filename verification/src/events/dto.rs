use crate::json::Value;
use crate::shared::{arn_json, clone_opt, opt_view, ref_json, Id, RefView, RefWithIdView};
use crate::intrinsic::{get_arn, get_att, get_att_json, get_ref, string_value};

use vstd::prelude::*;

verus! {

/// A reference to a resource, which other resources use to depend on it.
pub struct ScheduleRef {
    pub(crate) resource_id: String,
    pub(crate) ref_name: Option<String>,
    pub(crate) arn_value: Option<String>,
}

impl View for ScheduleRef {
    type V = RefView;

    open(crate) spec fn view(&self) -> RefView {
        RefView {
            resource_id: self.resource_id@,
            ref_name: opt_view(self.ref_name),
            arn_value: opt_view(self.arn_value),
        }
    }
}

impl ScheduleRef {
    pub(crate) fn internal_new(resource_id: String) -> (r: Self)
        ensures
            r@ == (RefView { resource_id: resource_id@, ref_name: None, arn_value: None }),
    {
        Self { resource_id, ref_name: None, arn_value: None }
    }

    /// A reference to a resource that exists outside the stack.
    pub fn new(resource_id: &str, ref_name: &str, arn_value: &str) -> (r: Self)
        ensures
            r@ == (RefView { resource_id: resource_id@, ref_name: Some(ref_name@), arn_value: Some(arn_value@) }),
    {
        Self {
            resource_id: String::from_str(resource_id),
            ref_name: Some(String::from_str(ref_name)),
            arn_value: Some(String::from_str(arn_value)),
        }
    }

    pub(crate) fn get_resource_id(&self) -> (r: &str)
        ensures
            r@ == self@.resource_id,
    {
        self.resource_id.as_str()
    }

    /// What `Ref` gives for the resource: the name it was imported with, or the intrinsic function.
    pub fn get_ref(&self) -> (r: Value)
        ensures
            r@ == ref_json(self@.resource_id, self@.ref_name),
    {
        match &self.ref_name {
            Some(val) => string_value(val.as_str()),
            None => get_ref(self.resource_id.as_str()),
        }
    }

    /// The ARN of the resource: the one it was imported with, or the intrinsic function.
    pub fn get_arn(&self) -> (r: Value)
        ensures
            r@ == arn_json(self@.resource_id, self@.arn_value),
    {
        match &self.arn_value {
            Some(val) => string_value(val.as_str()),
            None => get_arn(self.resource_id.as_str()),
        }
    }

    /// An attribute of the resource; not available for an imported resource.
    pub fn get_att(&self, id: &str) -> (r: Value)
        requires
            !(self@.ref_name is Some && self@.arn_value is Some),
        ensures
            r@ == get_att_json(self@.resource_id, id@),
    {
        get_att(self.resource_id.as_str(), id)
    }
}

impl Clone for ScheduleRef {
    fn clone(&self) -> (r: Self)
        ensures
            r@ == self@,
    {
        Self {
            resource_id: self.resource_id.clone(),
            ref_name: clone_opt(&self.ref_name),
            arn_value: clone_opt(&self.arn_value),
        }
    }
}

/// An EventBridge Scheduler schedule resource.
pub struct Schedule {
    pub(crate) id: Id,
    pub(crate) resource_id: String,
    pub(crate) resource_type: String,
    pub(crate) properties: ScheduleProperties,
}

/// What a [`Schedule`] holds.
pub struct ScheduleView {
    pub id: Id,
    pub resource_id: String,
    pub resource_type: String,
    pub properties: ScheduleProperties,
}

impl View for Schedule {
    type V = ScheduleView;

    open(crate) spec fn view(&self) -> ScheduleView {
        ScheduleView {
            id: self.id,
            resource_id: self.resource_id,
            resource_type: self.resource_type,
            properties: self.properties,
        }
    }
}

impl Schedule {
    pub fn get_id(&self) -> (r: &Id)
        ensures
            *r == self@.id,
    {
        &self.id
    }

    pub fn get_resource_id(&self) -> (r: &str)
        ensures
            r@ == self@.resource_id@,
    {
        self.resource_id.as_str()
    }

    pub fn get_type(&self) -> (r: &str)
        ensures
            r@ == self@.resource_type@,
    {
        self.resource_type.as_str()
    }
}

/// The properties of a schedule: when it runs and what it invokes.
pub struct ScheduleProperties {
    pub(crate) start_date: Option<String>,
    pub(crate) end_date: Option<String>,
    pub(crate) flexible_time_window: FlexibleTimeWindow,
    pub(crate) group_name: Option<String>,
    pub(crate) name: Option<String>,
    pub(crate) state: Option<String>,
    pub(crate) schedule_expression: String,
    pub(crate) target: Target,
}

/// What a [`ScheduleProperties`] holds.
pub struct SchedulePropertiesView {
    pub start_date: Option<String>,
    pub end_date: Option<String>,
    pub flexible_time_window: FlexibleTimeWindow,
    pub group_name: Option<String>,
    pub name: Option<String>,
    pub state: Option<String>,
    pub schedule_expression: String,
    pub target: Target,
}

impl View for ScheduleProperties {
    type V = SchedulePropertiesView;

    open(crate) spec fn view(&self) -> SchedulePropertiesView {
        SchedulePropertiesView {
            start_date: self.start_date,
            end_date: self.end_date,
            flexible_time_window: self.flexible_time_window,
            group_name: self.group_name,
            name: self.name,
            state: self.state,
            schedule_expression: self.schedule_expression,
            target: self.target,
        }
    }
}

/// How far a schedule may drift from its times.
pub struct FlexibleTimeWindow {
    pub(crate) maximum_window_in_minutes: Option<u16>,
    pub(crate) mode: String,
}

/// What a [`FlexibleTimeWindow`] holds.
pub struct FlexibleTimeWindowView {
    pub maximum_window_in_minutes: Option<u16>,
    pub mode: String,
}

impl View for FlexibleTimeWindow {
    type V = FlexibleTimeWindowView;

    open(crate) spec fn view(&self) -> FlexibleTimeWindowView {
        FlexibleTimeWindowView {
            maximum_window_in_minutes: self.maximum_window_in_minutes,
            mode: self.mode,
        }
    }
}

/// What a schedule invokes, with the role it uses.
pub struct Target {
    pub(crate) arn: Value,
    pub(crate) role_arn: Value,
    pub(crate) input: Option<String>,
    pub(crate) retry_policy: Option<RetryPolicy>,
}

/// What a [`Target`] holds.
pub struct TargetView {
    pub arn: Value,
    pub role_arn: Value,
    pub input: Option<String>,
    pub retry_policy: Option<RetryPolicy>,
}

impl View for Target {
    type V = TargetView;

    open(crate) spec fn view(&self) -> TargetView {
        TargetView {
            arn: self.arn,
            role_arn: self.role_arn,
            input: self.input,
            retry_policy: self.retry_policy,
        }
    }
}

/// How often and for how long a schedule retries its target.
pub struct RetryPolicy {
    pub(crate) maximum_event_age_in_seconds: Option<u32>,
    pub(crate) maximum_retry_attempts: Option<u8>,
}

/// What a [`RetryPolicy`] holds.
pub struct RetryPolicyView {
    pub maximum_event_age_in_seconds: Option<u32>,
    pub maximum_retry_attempts: Option<u8>,
}

impl View for RetryPolicy {
    type V = RetryPolicyView;

    open(crate) spec fn view(&self) -> RetryPolicyView {
        RetryPolicyView {
            maximum_event_age_in_seconds: self.maximum_event_age_in_seconds,
            maximum_retry_attempts: self.maximum_retry_attempts,
        }
    }
}

} // verus!
