//! EventBridge Scheduler: schedules and their targets.
mod dto;
mod builder;
mod template;

pub use dto::{FlexibleTimeWindow, FlexibleTimeWindowView, RetryPolicy, RetryPolicyView, Schedule, ScheduleProperties, SchedulePropertiesView, ScheduleRef, ScheduleView, Target, TargetView};
pub use builder::{FlexibleTimeWindowBuilder, JsonTarget, JsonTargetState, Mode, NormalTarget, NormalTargetState, OneTimeScheduleState, RepeatedScheduleState, RetryPolicyBuilder, RetryPolicyBuilderView, ScheduleBuilder, ScheduleBuilderState, ScheduleBuilderView, StartState, State, TargetBuilder, TargetBuilderState, TargetStartState, normal_target_arn, schedule_added, state_name};
