use crate::intrinsic::{get_arn, get_att, get_att_json, get_ref, string_value};
use crate::json::Value;
use crate::shared::{arn_json, clone_opt, opt_view, ref_json, Id, RefView};
use crate::stack::{is_generated_id, Resource, StackBuilder, StackBuilderView};
use crate::wrappers::{LogGroupName, RetentionInDays};
use vstd::prelude::*;

verus! {

/// A reference to a log group, which other resources use to depend on it.
pub struct LogGroupRef {
    pub(crate) resource_id: String,
    pub(crate) ref_name: Option<String>,
    pub(crate) arn_value: Option<String>,
}

impl View for LogGroupRef {
    type V = RefView;

    open(crate) spec fn view(&self) -> RefView {
        RefView {
            resource_id: self.resource_id@,
            ref_name: opt_view(self.ref_name),
            arn_value: opt_view(self.arn_value),
        }
    }
}

impl LogGroupRef {
    pub(crate) fn internal_new(resource_id: String) -> (r: Self)
        ensures
            r@ == (RefView { resource_id: resource_id@, ref_name: None, arn_value: None }),
    {
        Self { resource_id, ref_name: None, arn_value: None }
    }

    /// A reference to a resource that exists outside the stack.
    pub fn new(resource_id: &str, ref_name: &str, arn_value: &str) -> (r: Self)
        ensures
            r@ == (RefView { resource_id: resource_id@, ref_name: Some(ref_name@), arn_value: Some(arn_value@) }),
    {
        Self {
            resource_id: String::from_str(resource_id),
            ref_name: Some(String::from_str(ref_name)),
            arn_value: Some(String::from_str(arn_value)),
        }
    }

    pub(crate) fn get_resource_id(&self) -> (r: &str)
        ensures
            r@ == self@.resource_id,
    {
        self.resource_id.as_str()
    }

    /// What `Ref` gives for the resource: the name it was imported with, or the intrinsic function.
    pub fn get_ref(&self) -> (r: Value)
        ensures
            r@ == ref_json(self@.resource_id, self@.ref_name),
    {
        match &self.ref_name {
            Some(val) => string_value(val.as_str()),
            None => get_ref(self.resource_id.as_str()),
        }
    }

    /// The ARN of the resource: the one it was imported with, or the intrinsic function.
    pub fn get_arn(&self) -> (r: Value)
        ensures
            r@ == arn_json(self@.resource_id, self@.arn_value),
    {
        match &self.arn_value {
            Some(val) => string_value(val.as_str()),
            None => get_arn(self.resource_id.as_str()),
        }
    }

    /// An attribute of the resource; not available for an imported resource.
    pub fn get_att(&self, id: &str) -> (r: Value)
        requires
            !(self@.ref_name is Some && self@.arn_value is Some),
        ensures
            r@ == get_att_json(self@.resource_id, id@),
    {
        get_att(self.resource_id.as_str(), id)
    }
}

impl Clone for LogGroupRef {
    fn clone(&self) -> (r: Self)
        ensures
            r@ == self@,
    {
        Self {
            resource_id: self.resource_id.clone(),
            ref_name: clone_opt(&self.ref_name),
            arn_value: clone_opt(&self.arn_value),
        }
    }
}

/// A CloudWatch Logs log group resource.
pub struct LogGroup {
    pub(crate) id: Id,
    pub(crate) resource_id: String,
    pub(crate) resource_type: String,
    pub(crate) properties: LogGroupProperties,
}

/// What a [`LogGroup`] holds.
pub struct LogGroupView {
    pub id: Id,
    pub resource_id: String,
    pub resource_type: String,
    pub properties: LogGroupProperties,
}

impl View for LogGroup {
    type V = LogGroupView;

    open(crate) spec fn view(&self) -> LogGroupView {
        LogGroupView {
            id: self.id,
            resource_id: self.resource_id,
            resource_type: self.resource_type,
            properties: self.properties,
        }
    }
}

impl LogGroup {
    pub fn get_id(&self) -> (r: &Id)
        ensures
            *r == self@.id,
    {
        &self.id
    }

    pub fn get_resource_id(&self) -> (r: &str)
        ensures
            r@ == self@.resource_id@,
    {
        self.resource_id.as_str()
    }
}

/// The properties of a log group: its class, its name and how long it keeps events.
pub struct LogGroupProperties {
    pub(crate) log_group_class: Option<String>,
    pub(crate) log_group_name: Option<String>,
    pub(crate) retention_in_days: Option<u16>,
}

/// What a [`LogGroupProperties`] holds.
pub struct LogGroupPropertiesView {
    pub log_group_class: Option<String>,
    pub log_group_name: Option<String>,
    pub retention_in_days: Option<u16>,
}

impl View for LogGroupProperties {
    type V = LogGroupPropertiesView;

    open(crate) spec fn view(&self) -> LogGroupPropertiesView {
        LogGroupPropertiesView {
            log_group_class: self.log_group_class,
            log_group_name: self.log_group_name,
            retention_in_days: self.retention_in_days,
        }
    }
}

/// How a log group stores its events.
#[derive(Debug, Clone)]
pub enum LogGroupClass {
    Standard,
    InfrequentAccess,
}

/// How CloudFormation writes a [`LogGroupClass`].
pub open spec fn log_group_class_name(v: LogGroupClass) -> Seq<char> {
    match v {
        LogGroupClass::Standard => "STANDARD"@,
        LogGroupClass::InfrequentAccess => "INFREQUENT_ACCESS"@,
    }
}

impl vstd::std_specs::convert::FromSpecImpl<LogGroupClass> for String {
    open spec fn obeys_from_spec() -> bool {
        false
    }

    open spec fn from_spec(v: LogGroupClass) -> String {
        vstd::pervasive::arbitrary()
    }
}

impl From<LogGroupClass> for String {
    fn from(value: LogGroupClass) -> (r: String)
        ensures
            r@ == log_group_class_name(value),
    {
        match value {
            LogGroupClass::Standard => String::from_str("STANDARD"),
            LogGroupClass::InfrequentAccess => String::from_str("INFREQUENT_ACCESS"),
        }
    }
}

/// Builder for CloudWatch Logs log groups.
pub struct LogGroupBuilder {
    pub(crate) id: Id,
    pub(crate) log_group_class: Option<String>,
    pub(crate) log_group_name: Option<String>,
    pub(crate) retention_in_days: Option<u16>,
}

/// What a [`LogGroupBuilder`] holds.
pub struct LogGroupBuilderView {
    pub id: Id,
    pub log_group_class: Option<String>,
    pub log_group_name: Option<String>,
    pub retention_in_days: Option<u16>,
}

impl View for LogGroupBuilder {
    type V = LogGroupBuilderView;

    open(crate) spec fn view(&self) -> LogGroupBuilderView {
        LogGroupBuilderView { id: self.id, log_group_class: self.log_group_class, log_group_name: self.log_group_name, retention_in_days: self.retention_in_days }
    }
}

impl LogGroupBuilder {
    pub fn new(id: &str) -> (r: Self)
        ensures
            r@.id.0@ == id@,
            r@.log_group_class is None,
            r@.log_group_name is None,
            r@.retention_in_days is None,
    {
        Self {
            id: Id(String::from_str(id)),
            log_group_class: None,
            log_group_name: None,
            retention_in_days: None,
        }
    }

    pub fn log_group_name_string(self, log_group_name: LogGroupName) -> (r: Self)
        ensures
            r@ == (LogGroupBuilderView { log_group_name: Some(log_group_name.0), ..self@ }),
    {
        Self { log_group_name: Some(log_group_name.0), ..self }
    }

    pub fn log_group_class(self, log_group_class: LogGroupClass) -> (r: Self)
        ensures
            r@ == (LogGroupBuilderView { log_group_class: r@.log_group_class, ..self@ }),
            r@.log_group_class matches Some(c) && c@ == log_group_class_name(log_group_class),
    {
        Self { log_group_class: Some(log_group_class.into()), ..self }
    }

    pub fn log_group_retention(self, retention: RetentionInDays) -> (r: Self)
        ensures
            r@ == (LogGroupBuilderView { retention_in_days: Some(retention.0), ..self@ }),
    {
        Self { retention_in_days: Some(retention.0), ..self }
    }

    /// Adds the resource to the stack.
    pub fn build(self, stack_builder: &mut StackBuilder) -> (r: LogGroupRef)
        ensures
            final(stack_builder)@ == (StackBuilderView {
                resources: old(stack_builder)@.resources.push(final(stack_builder)@.resources.last()),
                ..old(stack_builder)@
            }),
            final(stack_builder)@.resources.last() matches Resource::LogGroup(x) && {
                &&& x@.id == self@.id
                &&& x@.resource_id@ == r@.resource_id
                &&& x@.resource_type@ == "AWS::Logs::LogGroup"@
                &&& x@.properties@ == (LogGroupPropertiesView { log_group_class: self@.log_group_class, log_group_name: self@.log_group_name, retention_in_days: self@.retention_in_days })
            },
            is_generated_id(r@.resource_id, "LogGroup"@),
            r@.ref_name is None,
            r@.arn_value is None,
    {
        let resource_id = Resource::generate_id("LogGroup");
        stack_builder.add_resource(
            Resource::LogGroup(
                LogGroup {
                    id: self.id,
                    resource_id: resource_id.clone(),
                    resource_type: String::from_str("AWS::Logs::LogGroup"),
                    properties: LogGroupProperties {
                        log_group_class: self.log_group_class,
                        log_group_name: self.log_group_name,
                        retention_in_days: self.retention_in_days,
                    },
                },
            ),
        );
        LogGroupRef::internal_new(resource_id)
    }
}

} // verus!
