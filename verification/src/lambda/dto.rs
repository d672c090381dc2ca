use crate::json::Value;
use crate::shared::{arn_json, clone_opt, opt_view, ref_json, Id, RefView, RefWithIdView};
use crate::intrinsic::{get_arn, get_att, get_att_json, get_ref, string_value};
use crate::stack::Asset;
use vstd::prelude::*;

verus! {

/// A reference to a resource, which other resources use to depend on it.
pub struct EventSourceMappingRef {
    pub(crate) resource_id: String,
    pub(crate) ref_name: Option<String>,
    pub(crate) arn_value: Option<String>,
}

impl View for EventSourceMappingRef {
    type V = RefView;

    open(crate) spec fn view(&self) -> RefView {
        RefView {
            resource_id: self.resource_id@,
            ref_name: opt_view(self.ref_name),
            arn_value: opt_view(self.arn_value),
        }
    }
}

impl EventSourceMappingRef {
    pub(crate) fn internal_new(resource_id: String) -> (r: Self)
        ensures
            r@ == (RefView { resource_id: resource_id@, ref_name: None, arn_value: None }),
    {
        Self { resource_id, ref_name: None, arn_value: None }
    }

    /// A reference to a resource that exists outside the stack.
    pub fn new(resource_id: &str, ref_name: &str, arn_value: &str) -> (r: Self)
        ensures
            r@ == (RefView { resource_id: resource_id@, ref_name: Some(ref_name@), arn_value: Some(arn_value@) }),
    {
        Self {
            resource_id: String::from_str(resource_id),
            ref_name: Some(String::from_str(ref_name)),
            arn_value: Some(String::from_str(arn_value)),
        }
    }

    pub(crate) fn get_resource_id(&self) -> (r: &str)
        ensures
            r@ == self@.resource_id,
    {
        self.resource_id.as_str()
    }

    /// What `Ref` gives for the resource: the name it was imported with, or the intrinsic function.
    pub fn get_ref(&self) -> (r: Value)
        ensures
            r@ == ref_json(self@.resource_id, self@.ref_name),
    {
        match &self.ref_name {
            Some(val) => string_value(val.as_str()),
            None => get_ref(self.resource_id.as_str()),
        }
    }

    /// The ARN of the resource: the one it was imported with, or the intrinsic function.
    pub fn get_arn(&self) -> (r: Value)
        ensures
            r@ == arn_json(self@.resource_id, self@.arn_value),
    {
        match &self.arn_value {
            Some(val) => string_value(val.as_str()),
            None => get_arn(self.resource_id.as_str()),
        }
    }

    /// An attribute of the resource; not available for an imported resource.
    pub fn get_att(&self, id: &str) -> (r: Value)
        requires
            !(self@.ref_name is Some && self@.arn_value is Some),
        ensures
            r@ == get_att_json(self@.resource_id, id@),
    {
        get_att(self.resource_id.as_str(), id)
    }
}

impl Clone for EventSourceMappingRef {
    fn clone(&self) -> (r: Self)
        ensures
            r@ == self@,
    {
        Self {
            resource_id: self.resource_id.clone(),
            ref_name: clone_opt(&self.ref_name),
            arn_value: clone_opt(&self.arn_value),
        }
    }
}

/// A reference to a resource, which other resources use to depend on it.
pub struct FunctionRef {
    pub(crate) id: Id,
    pub(crate) resource_id: String,
    pub(crate) ref_name: Option<String>,
    pub(crate) arn_value: Option<String>,
}

impl View for FunctionRef {
    type V = RefWithIdView;

    open(crate) spec fn view(&self) -> RefWithIdView {
        RefWithIdView {
            id: self.id.0@,
            resource_id: self.resource_id@,
            ref_name: opt_view(self.ref_name),
            arn_value: opt_view(self.arn_value),
        }
    }
}

impl FunctionRef {
    pub(crate) fn internal_new(id: Id, resource_id: String) -> (r: Self)
        ensures
            r@ == (RefWithIdView { id: id.0@, resource_id: resource_id@, ref_name: None, arn_value: None }),
    {
        Self { id, resource_id, ref_name: None, arn_value: None }
    }

    /// A reference to a resource that exists outside the stack.
    pub fn new(id: &str, resource_id: &str, ref_name: &str, arn_value: &str) -> (r: Self)
        ensures
            r@ == (RefWithIdView { id: id@, resource_id: resource_id@, ref_name: Some(ref_name@), arn_value: Some(arn_value@) }),
    {
        Self {
            id: Id(String::from_str(id)),
            resource_id: String::from_str(resource_id),
            ref_name: Some(String::from_str(ref_name)),
            arn_value: Some(String::from_str(arn_value)),
        }
    }

    pub(crate) fn get_id(&self) -> (r: &Id)
        ensures
            r.0@ == self@.id,
    {
        &self.id
    }

    pub(crate) fn get_resource_id(&self) -> (r: &str)
        ensures
            r@ == self@.resource_id,
    {
        self.resource_id.as_str()
    }

    /// What `Ref` gives for the resource: the name it was imported with, or the intrinsic function.
    pub fn get_ref(&self) -> (r: Value)
        ensures
            r@ == ref_json(self@.resource_id, self@.ref_name),
    {
        match &self.ref_name {
            Some(val) => string_value(val.as_str()),
            None => get_ref(self.resource_id.as_str()),
        }
    }

    /// The ARN of the resource: the one it was imported with, or the intrinsic function.
    pub fn get_arn(&self) -> (r: Value)
        ensures
            r@ == arn_json(self@.resource_id, self@.arn_value),
    {
        match &self.arn_value {
            Some(val) => string_value(val.as_str()),
            None => get_arn(self.resource_id.as_str()),
        }
    }

    /// An attribute of the resource; not available for an imported resource.
    pub fn get_att(&self, id: &str) -> (r: Value)
        requires
            !(self@.ref_name is Some && self@.arn_value is Some),
        ensures
            r@ == get_att_json(self@.resource_id, id@),
    {
        get_att(self.resource_id.as_str(), id)
    }
}

impl Clone for FunctionRef {
    fn clone(&self) -> (r: Self)
        ensures
            r@ == self@,
    {
        Self {
            id: self.id.clone(),
            resource_id: self.resource_id.clone(),
            ref_name: clone_opt(&self.ref_name),
            arn_value: clone_opt(&self.arn_value),
        }
    }
}

/// A reference to a resource, which other resources use to depend on it.
pub struct PermissionRef {
    pub(crate) id: Id,
    pub(crate) resource_id: String,
    pub(crate) ref_name: Option<String>,
    pub(crate) arn_value: Option<String>,
}

impl View for PermissionRef {
    type V = RefWithIdView;

    open(crate) spec fn view(&self) -> RefWithIdView {
        RefWithIdView {
            id: self.id.0@,
            resource_id: self.resource_id@,
            ref_name: opt_view(self.ref_name),
            arn_value: opt_view(self.arn_value),
        }
    }
}

impl PermissionRef {
    pub(crate) fn internal_new(id: Id, resource_id: String) -> (r: Self)
        ensures
            r@ == (RefWithIdView { id: id.0@, resource_id: resource_id@, ref_name: None, arn_value: None }),
    {
        Self { id, resource_id, ref_name: None, arn_value: None }
    }

    /// A reference to a resource that exists outside the stack.
    pub fn new(id: &str, resource_id: &str, ref_name: &str, arn_value: &str) -> (r: Self)
        ensures
            r@ == (RefWithIdView { id: id@, resource_id: resource_id@, ref_name: Some(ref_name@), arn_value: Some(arn_value@) }),
    {
        Self {
            id: Id(String::from_str(id)),
            resource_id: String::from_str(resource_id),
            ref_name: Some(String::from_str(ref_name)),
            arn_value: Some(String::from_str(arn_value)),
        }
    }

    pub(crate) fn get_id(&self) -> (r: &Id)
        ensures
            r.0@ == self@.id,
    {
        &self.id
    }

    pub(crate) fn get_resource_id(&self) -> (r: &str)
        ensures
            r@ == self@.resource_id,
    {
        self.resource_id.as_str()
    }

    /// What `Ref` gives for the resource: the name it was imported with, or the intrinsic function.
    pub fn get_ref(&self) -> (r: Value)
        ensures
            r@ == ref_json(self@.resource_id, self@.ref_name),
    {
        match &self.ref_name {
            Some(val) => string_value(val.as_str()),
            None => get_ref(self.resource_id.as_str()),
        }
    }

    /// The ARN of the resource: the one it was imported with, or the intrinsic function.
    pub fn get_arn(&self) -> (r: Value)
        ensures
            r@ == arn_json(self@.resource_id, self@.arn_value),
    {
        match &self.arn_value {
            Some(val) => string_value(val.as_str()),
            None => get_arn(self.resource_id.as_str()),
        }
    }

    /// An attribute of the resource; not available for an imported resource.
    pub fn get_att(&self, id: &str) -> (r: Value)
        requires
            !(self@.ref_name is Some && self@.arn_value is Some),
        ensures
            r@ == get_att_json(self@.resource_id, id@),
    {
        get_att(self.resource_id.as_str(), id)
    }
}

impl Clone for PermissionRef {
    fn clone(&self) -> (r: Self)
        ensures
            r@ == self@,
    {
        Self {
            id: self.id.clone(),
            resource_id: self.resource_id.clone(),
            ref_name: clone_opt(&self.ref_name),
            arn_value: clone_opt(&self.arn_value),
        }
    }
}

/// A Lambda function resource.
pub struct Function {
    pub(crate) id: Id,
    pub(crate) resource_id: String,
    pub(crate) asset: Option<Asset>,
    pub(crate) resource_type: String,
    pub(crate) properties: LambdaFunctionProperties,
}

/// What a [`Function`] holds.
pub struct FunctionView {
    pub id: Id,
    pub resource_id: String,
    pub asset: Option<Asset>,
    pub resource_type: String,
    pub properties: LambdaFunctionProperties,
}

impl View for Function {
    type V = FunctionView;

    open(crate) spec fn view(&self) -> FunctionView {
        FunctionView {
            id: self.id,
            resource_id: self.resource_id,
            asset: self.asset,
            resource_type: self.resource_type,
            properties: self.properties,
        }
    }
}

impl Function {
    pub fn get_id(&self) -> (r: &Id)
        ensures
            *r == self@.id,
    {
        &self.id
    }

    pub fn get_resource_id(&self) -> (r: &str)
        ensures
            r@ == self@.resource_id@,
    {
        self.resource_id.as_str()
    }

    pub fn get_type(&self) -> (r: &str)
        ensures
            r@ == self@.resource_type@,
    {
        self.resource_type.as_str()
    }
}

/// The properties of a Lambda function.
pub struct LambdaFunctionProperties {
    pub(crate) code: LambdaCode,
    pub(crate) memory_size: u16,
    pub(crate) timeout: u16,
    pub(crate) architectures: Vec<String>,
    pub(crate) role: Value,
    pub(crate) runtime: Option<String>,
    pub(crate) handler: Option<String>,
    pub(crate) function_name: Option<String>,
    pub(crate) environment: Option<Environment>,
    pub(crate) reserved_concurrent_executions: Option<u32>,
    pub(crate) logging_info: LoggingInfo,
}

/// What a [`LambdaFunctionProperties`] holds.
pub struct LambdaFunctionPropertiesView {
    pub code: LambdaCode,
    pub memory_size: u16,
    pub timeout: u16,
    pub architectures: Vec<String>,
    pub role: Value,
    pub runtime: Option<String>,
    pub handler: Option<String>,
    pub function_name: Option<String>,
    pub environment: Option<Environment>,
    pub reserved_concurrent_executions: Option<u32>,
    pub logging_info: LoggingInfo,
}

impl View for LambdaFunctionProperties {
    type V = LambdaFunctionPropertiesView;

    open(crate) spec fn view(&self) -> LambdaFunctionPropertiesView {
        LambdaFunctionPropertiesView {
            code: self.code,
            memory_size: self.memory_size,
            timeout: self.timeout,
            architectures: self.architectures,
            role: self.role,
            runtime: self.runtime,
            handler: self.handler,
            function_name: self.function_name,
            environment: self.environment,
            reserved_concurrent_executions: self.reserved_concurrent_executions,
            logging_info: self.logging_info,
        }
    }
}

/// Where the code of a function comes from: an object in S3, or inline code.
pub struct LambdaCode {
    pub(crate) s3_bucket: Option<String>,
    pub(crate) s3_key: Option<String>,
    pub(crate) zipfile: Option<String>,
}

/// What a [`LambdaCode`] holds.
pub struct LambdaCodeView {
    pub s3_bucket: Option<String>,
    pub s3_key: Option<String>,
    pub zipfile: Option<String>,
}

impl View for LambdaCode {
    type V = LambdaCodeView;

    open(crate) spec fn view(&self) -> LambdaCodeView {
        LambdaCodeView {
            s3_bucket: self.s3_bucket,
            s3_key: self.s3_key,
            zipfile: self.zipfile,
        }
    }
}

/// The environment variables of a function; each name occurs once.
pub struct Environment {
    pub(crate) variables: Vec<(String, Value)>,
}

/// What a [`Environment`] holds.
pub struct EnvironmentView {
    pub variables: Vec<(String, Value)>,
}

impl View for Environment {
    type V = EnvironmentView;

    open(crate) spec fn view(&self) -> EnvironmentView {
        EnvironmentView {
            variables: self.variables,
        }
    }
}

/// The log group a function writes to.
pub struct LoggingInfo {
    pub(crate) log_group: Option<Value>,
}

/// What a [`LoggingInfo`] holds.
pub struct LoggingInfoView {
    pub log_group: Option<Value>,
}

impl View for LoggingInfo {
    type V = LoggingInfoView;

    open(crate) spec fn view(&self) -> LoggingInfoView {
        LoggingInfoView {
            log_group: self.log_group,
        }
    }
}

/// A Lambda event source mapping resource.
pub struct EventSourceMapping {
    pub(crate) id: Id,
    pub(crate) resource_id: String,
    pub(crate) resource_type: String,
    pub(crate) properties: EventSourceProperties,
}

/// What a [`EventSourceMapping`] holds.
pub struct EventSourceMappingView {
    pub id: Id,
    pub resource_id: String,
    pub resource_type: String,
    pub properties: EventSourceProperties,
}

impl View for EventSourceMapping {
    type V = EventSourceMappingView;

    open(crate) spec fn view(&self) -> EventSourceMappingView {
        EventSourceMappingView {
            id: self.id,
            resource_id: self.resource_id,
            resource_type: self.resource_type,
            properties: self.properties,
        }
    }
}

impl EventSourceMapping {
    pub fn get_id(&self) -> (r: &Id)
        ensures
            *r == self@.id,
    {
        &self.id
    }

    pub fn get_resource_id(&self) -> (r: &str)
        ensures
            r@ == self@.resource_id@,
    {
        self.resource_id.as_str()
    }

    pub fn get_type(&self) -> (r: &str)
        ensures
            r@ == self@.resource_type@,
    {
        self.resource_type.as_str()
    }
}

/// The properties of an event source mapping.
pub struct EventSourceProperties {
    pub(crate) event_source_arn: Option<Value>,
    pub(crate) function_name: Option<Value>,
    pub(crate) scaling_config: Option<ScalingConfig>,
}

/// What a [`EventSourceProperties`] holds.
pub struct EventSourcePropertiesView {
    pub event_source_arn: Option<Value>,
    pub function_name: Option<Value>,
    pub scaling_config: Option<ScalingConfig>,
}

impl View for EventSourceProperties {
    type V = EventSourcePropertiesView;

    open(crate) spec fn view(&self) -> EventSourcePropertiesView {
        EventSourcePropertiesView {
            event_source_arn: self.event_source_arn,
            function_name: self.function_name,
            scaling_config: self.scaling_config,
        }
    }
}

/// How far an event source may scale a function.
pub struct ScalingConfig {
    pub(crate) max_concurrency: u16,
}

/// What a [`ScalingConfig`] holds.
pub struct ScalingConfigView {
    pub max_concurrency: u16,
}

impl View for ScalingConfig {
    type V = ScalingConfigView;

    open(crate) spec fn view(&self) -> ScalingConfigView {
        ScalingConfigView {
            max_concurrency: self.max_concurrency,
        }
    }
}

/// A Lambda permission resource.
pub struct Permission {
    pub(crate) id: Id,
    pub(crate) resource_id: String,
    pub(crate) resource_type: String,
    pub(crate) properties: LambdaPermissionProperties,
}

/// What a [`Permission`] holds.
pub struct PermissionView {
    pub id: Id,
    pub resource_id: String,
    pub resource_type: String,
    pub properties: LambdaPermissionProperties,
}

impl View for Permission {
    type V = PermissionView;

    open(crate) spec fn view(&self) -> PermissionView {
        PermissionView {
            id: self.id,
            resource_id: self.resource_id,
            resource_type: self.resource_type,
            properties: self.properties,
        }
    }
}

impl Permission {
    pub fn get_id(&self) -> (r: &Id)
        ensures
            *r == self@.id,
    {
        &self.id
    }

    pub fn get_resource_id(&self) -> (r: &str)
        ensures
            r@ == self@.resource_id@,
    {
        self.resource_id.as_str()
    }

    pub fn get_type(&self) -> (r: &str)
        ensures
            r@ == self@.resource_type@,
    {
        self.resource_type.as_str()
    }
}

/// The properties of a Lambda permission: who may do what to which function.
pub struct LambdaPermissionProperties {
    pub(crate) action: String,
    pub(crate) function_name: Value,
    pub(crate) principal: String,
    pub(crate) source_arn: Option<Value>,
    pub(crate) source_account: Option<Value>,
}

/// What a [`LambdaPermissionProperties`] holds.
pub struct LambdaPermissionPropertiesView {
    pub action: String,
    pub function_name: Value,
    pub principal: String,
    pub source_arn: Option<Value>,
    pub source_account: Option<Value>,
}

impl View for LambdaPermissionProperties {
    type V = LambdaPermissionPropertiesView;

    open(crate) spec fn view(&self) -> LambdaPermissionPropertiesView {
        LambdaPermissionPropertiesView {
            action: self.action,
            function_name: self.function_name,
            principal: self.principal,
            source_arn: self.source_arn,
            source_account: self.source_account,
        }
    }
}

} // verus!
