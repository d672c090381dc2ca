//! How the module's resources appear in a CloudFormation template.
use crate::events::{FlexibleTimeWindow, RetryPolicy, Schedule, ScheduleProperties, Target};
use crate::json::{member, opt_member, push_json, push_opt_json, JsonView, ToJson, Value};
use vstd::prelude::*;

verus! {

impl ToJson for Schedule {
    open(crate) spec fn as_json(&self) -> JsonView {
        JsonView::Object(
            Seq::empty()
                + member("Type"@, &self.resource_type)
                + member("Properties"@, &self.properties),
        )
    }

    fn to_json(&self) -> (r: Value) {
        let mut members: Vec<(String, Value)> = Vec::new();
        push_json(&mut members, "Type", &self.resource_type);
        push_json(&mut members, "Properties", &self.properties);
        Value::Object(members)
    }
}

impl ToJson for ScheduleProperties {
    open(crate) spec fn as_json(&self) -> JsonView {
        JsonView::Object(
            Seq::empty()
                + opt_member("StartDate"@, &self.start_date)
                + opt_member("EndDate"@, &self.end_date)
                + member("FlexibleTimeWindow"@, &self.flexible_time_window)
                + opt_member("GroupName"@, &self.group_name)
                + opt_member("Name"@, &self.name)
                + opt_member("State"@, &self.state)
                + member("ScheduleExpression"@, &self.schedule_expression)
                + member("Target"@, &self.target),
        )
    }

    fn to_json(&self) -> (r: Value) {
        let mut members: Vec<(String, Value)> = Vec::new();
        push_opt_json(&mut members, "StartDate", &self.start_date);
        push_opt_json(&mut members, "EndDate", &self.end_date);
        push_json(&mut members, "FlexibleTimeWindow", &self.flexible_time_window);
        push_opt_json(&mut members, "GroupName", &self.group_name);
        push_opt_json(&mut members, "Name", &self.name);
        push_opt_json(&mut members, "State", &self.state);
        push_json(&mut members, "ScheduleExpression", &self.schedule_expression);
        push_json(&mut members, "Target", &self.target);
        Value::Object(members)
    }
}

impl ToJson for FlexibleTimeWindow {
    open(crate) spec fn as_json(&self) -> JsonView {
        JsonView::Object(
            Seq::empty()
                + opt_member("MaximumWindowInMinutes"@, &self.maximum_window_in_minutes)
                + member("Mode"@, &self.mode),
        )
    }

    fn to_json(&self) -> (r: Value) {
        let mut members: Vec<(String, Value)> = Vec::new();
        push_opt_json(&mut members, "MaximumWindowInMinutes", &self.maximum_window_in_minutes);
        push_json(&mut members, "Mode", &self.mode);
        Value::Object(members)
    }
}

impl ToJson for Target {
    open(crate) spec fn as_json(&self) -> JsonView {
        JsonView::Object(
            Seq::empty()
                + member("Arn"@, &self.arn)
                + member("RoleArn"@, &self.role_arn)
                + opt_member("Input"@, &self.input)
                + opt_member("RetryPolicy"@, &self.retry_policy),
        )
    }

    fn to_json(&self) -> (r: Value) {
        let mut members: Vec<(String, Value)> = Vec::new();
        push_json(&mut members, "Arn", &self.arn);
        push_json(&mut members, "RoleArn", &self.role_arn);
        push_opt_json(&mut members, "Input", &self.input);
        push_opt_json(&mut members, "RetryPolicy", &self.retry_policy);
        Value::Object(members)
    }
}

impl ToJson for RetryPolicy {
    open(crate) spec fn as_json(&self) -> JsonView {
        JsonView::Object(
            Seq::empty()
                + opt_member("MaximumEventAgeInSeconds"@, &self.maximum_event_age_in_seconds)
                + opt_member("MaximumRetryAttempts"@, &self.maximum_retry_attempts),
        )
    }

    fn to_json(&self) -> (r: Value) {
        let mut members: Vec<(String, Value)> = Vec::new();
        push_opt_json(&mut members, "MaximumEventAgeInSeconds", &self.maximum_event_age_in_seconds);
        push_opt_json(&mut members, "MaximumRetryAttempts", &self.maximum_retry_attempts);
        Value::Object(members)
    }
}

} // verus!
