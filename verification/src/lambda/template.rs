//! How the module's resources appear in a CloudFormation template.
use crate::lambda::{EventSourceMapping, EventSourceProperties, Function, LambdaCode, LambdaFunctionProperties, LambdaPermissionProperties, LoggingInfo, Permission, ScalingConfig};
use crate::json::{member, opt_member, push_json, push_opt_json, JsonView, ToJson, Value};
use vstd::prelude::*;

verus! {

impl ToJson for Function {
    open(crate) spec fn as_json(&self) -> JsonView {
        JsonView::Object(
            Seq::empty()
                + member("Type"@, &self.resource_type)
                + member("Properties"@, &self.properties),
        )
    }

    fn to_json(&self) -> (r: Value) {
        let mut members: Vec<(String, Value)> = Vec::new();
        push_json(&mut members, "Type", &self.resource_type);
        push_json(&mut members, "Properties", &self.properties);
        Value::Object(members)
    }
}

impl ToJson for LambdaFunctionProperties {
    open(crate) spec fn as_json(&self) -> JsonView {
        JsonView::Object(
            Seq::empty()
                + member("Code"@, &self.code)
                + member("MemorySize"@, &self.memory_size)
                + member("Timeout"@, &self.timeout)
                + member("Architectures"@, &self.architectures)
                + member("Role"@, &self.role)
                + opt_member("Runtime"@, &self.runtime)
                + opt_member("Handler"@, &self.handler)
                + opt_member("FunctionName"@, &self.function_name)
                + opt_member("Environment"@, &self.environment)
                + opt_member("ReservedConcurrentExecutions"@, &self.reserved_concurrent_executions)
                + member("LoggingConfig"@, &self.logging_info),
        )
    }

    fn to_json(&self) -> (r: Value) {
        let mut members: Vec<(String, Value)> = Vec::new();
        push_json(&mut members, "Code", &self.code);
        push_json(&mut members, "MemorySize", &self.memory_size);
        push_json(&mut members, "Timeout", &self.timeout);
        push_json(&mut members, "Architectures", &self.architectures);
        push_json(&mut members, "Role", &self.role);
        push_opt_json(&mut members, "Runtime", &self.runtime);
        push_opt_json(&mut members, "Handler", &self.handler);
        push_opt_json(&mut members, "FunctionName", &self.function_name);
        push_opt_json(&mut members, "Environment", &self.environment);
        push_opt_json(&mut members, "ReservedConcurrentExecutions", &self.reserved_concurrent_executions);
        push_json(&mut members, "LoggingConfig", &self.logging_info);
        Value::Object(members)
    }
}

impl ToJson for LambdaCode {
    open(crate) spec fn as_json(&self) -> JsonView {
        JsonView::Object(
            Seq::empty()
                + opt_member("S3Bucket"@, &self.s3_bucket)
                + opt_member("S3Key"@, &self.s3_key)
                + opt_member("ZipFile"@, &self.zipfile),
        )
    }

    fn to_json(&self) -> (r: Value) {
        let mut members: Vec<(String, Value)> = Vec::new();
        push_opt_json(&mut members, "S3Bucket", &self.s3_bucket);
        push_opt_json(&mut members, "S3Key", &self.s3_key);
        push_opt_json(&mut members, "ZipFile", &self.zipfile);
        Value::Object(members)
    }
}

impl ToJson for LoggingInfo {
    open(crate) spec fn as_json(&self) -> JsonView {
        JsonView::Object(Seq::empty() + member("LogGroup"@, &self.log_group))
    }

    fn to_json(&self) -> (r: Value) {
        let mut members: Vec<(String, Value)> = Vec::new();
        push_json(&mut members, "LogGroup", &self.log_group);
        Value::Object(members)
    }
}

impl ToJson for EventSourceMapping {
    open(crate) spec fn as_json(&self) -> JsonView {
        JsonView::Object(
            Seq::empty()
                + member("Type"@, &self.resource_type)
                + member("Properties"@, &self.properties),
        )
    }

    fn to_json(&self) -> (r: Value) {
        let mut members: Vec<(String, Value)> = Vec::new();
        push_json(&mut members, "Type", &self.resource_type);
        push_json(&mut members, "Properties", &self.properties);
        Value::Object(members)
    }
}

impl ToJson for EventSourceProperties {
    open(crate) spec fn as_json(&self) -> JsonView {
        JsonView::Object(
            Seq::empty()
                + opt_member("EventSourceArn"@, &self.event_source_arn)
                + opt_member("FunctionName"@, &self.function_name)
                + opt_member("ScalingConfig"@, &self.scaling_config),
        )
    }

    fn to_json(&self) -> (r: Value) {
        let mut members: Vec<(String, Value)> = Vec::new();
        push_opt_json(&mut members, "EventSourceArn", &self.event_source_arn);
        push_opt_json(&mut members, "FunctionName", &self.function_name);
        push_opt_json(&mut members, "ScalingConfig", &self.scaling_config);
        Value::Object(members)
    }
}

impl ToJson for ScalingConfig {
    open(crate) spec fn as_json(&self) -> JsonView {
        JsonView::Object(Seq::empty() + member("MaximumConcurrency"@, &self.max_concurrency))
    }

    fn to_json(&self) -> (r: Value) {
        let mut members: Vec<(String, Value)> = Vec::new();
        push_json(&mut members, "MaximumConcurrency", &self.max_concurrency);
        Value::Object(members)
    }
}

impl ToJson for Permission {
    open(crate) spec fn as_json(&self) -> JsonView {
        JsonView::Object(
            Seq::empty()
                + member("Type"@, &self.resource_type)
                + member("Properties"@, &self.properties),
        )
    }

    fn to_json(&self) -> (r: Value) {
        let mut members: Vec<(String, Value)> = Vec::new();
        push_json(&mut members, "Type", &self.resource_type);
        push_json(&mut members, "Properties", &self.properties);
        Value::Object(members)
    }
}

impl ToJson for LambdaPermissionProperties {
    open(crate) spec fn as_json(&self) -> JsonView {
        JsonView::Object(
            Seq::empty()
                + member("Action"@, &self.action)
                + member("FunctionName"@, &self.function_name)
                + member("Principal"@, &self.principal)
                + opt_member("SourceArn"@, &self.source_arn)
                + opt_member("SourceAccount"@, &self.source_account),
        )
    }

    fn to_json(&self) -> (r: Value) {
        let mut members: Vec<(String, Value)> = Vec::new();
        push_json(&mut members, "Action", &self.action);
        push_json(&mut members, "FunctionName", &self.function_name);
        push_json(&mut members, "Principal", &self.principal);
        push_opt_json(&mut members, "SourceArn", &self.source_arn);
        push_opt_json(&mut members, "SourceAccount", &self.source_account);
        Value::Object(members)
    }
}

/// The variables are an object under `Variables`.
impl ToJson for crate::lambda::Environment {
    open(crate) spec fn as_json(&self) -> JsonView {
        JsonView::Object(seq![("Variables"@, JsonView::Object(crate::json::members_as_json(self.variables@)))])
    }

    fn to_json(&self) -> (r: Value) {
        crate::intrinsic::single_member("Variables", crate::json::object_of(&self.variables))
    }
}

} // verus!
