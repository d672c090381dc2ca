//! How the module's resources appear in a CloudFormation template.
use crate::iam::{AWSPrincipal, AssumeRolePolicyDocument, IamRoleProperties, Policy, PolicyDocument, Role, ServicePrincipal, Statement};
use crate::json::{member, opt_member, push_json, push_opt_json, JsonView, ToJson, Value};
use vstd::prelude::*;

verus! {

impl ToJson for Role {
    open(crate) spec fn as_json(&self) -> JsonView {
        JsonView::Object(
            Seq::empty()
                + member("Type"@, &self.resource_type)
                + member("Properties"@, &self.properties),
        )
    }

    fn to_json(&self) -> (r: Value) {
        let mut members: Vec<(String, Value)> = Vec::new();
        push_json(&mut members, "Type", &self.resource_type);
        push_json(&mut members, "Properties", &self.properties);
        Value::Object(members)
    }
}

impl ToJson for IamRoleProperties {
    open(crate) spec fn as_json(&self) -> JsonView {
        JsonView::Object(
            Seq::empty()
                + member("AssumeRolePolicyDocument"@, &self.assumed_role_policy_document)
                + member("ManagedPolicyArns"@, &self.managed_policy_arns)
                + opt_member("Policies"@, &self.policies)
                + opt_member("RoleName"@, &self.role_name),
        )
    }

    fn to_json(&self) -> (r: Value) {
        let mut members: Vec<(String, Value)> = Vec::new();
        push_json(&mut members, "AssumeRolePolicyDocument", &self.assumed_role_policy_document);
        push_json(&mut members, "ManagedPolicyArns", &self.managed_policy_arns);
        push_opt_json(&mut members, "Policies", &self.policies);
        push_opt_json(&mut members, "RoleName", &self.role_name);
        Value::Object(members)
    }
}

impl ToJson for Policy {
    open(crate) spec fn as_json(&self) -> JsonView {
        JsonView::Object(
            Seq::empty()
                + member("PolicyName"@, &self.policy_name)
                + member("PolicyDocument"@, &self.policy_document),
        )
    }

    fn to_json(&self) -> (r: Value) {
        let mut members: Vec<(String, Value)> = Vec::new();
        push_json(&mut members, "PolicyName", &self.policy_name);
        push_json(&mut members, "PolicyDocument", &self.policy_document);
        Value::Object(members)
    }
}

impl ToJson for PolicyDocument {
    open(crate) spec fn as_json(&self) -> JsonView {
        JsonView::Object(
            Seq::empty()
                + member("Version"@, &self.version)
                + member("Statement"@, &self.statements),
        )
    }

    fn to_json(&self) -> (r: Value) {
        let mut members: Vec<(String, Value)> = Vec::new();
        push_json(&mut members, "Version", &self.version);
        push_json(&mut members, "Statement", &self.statements);
        Value::Object(members)
    }
}

impl ToJson for AssumeRolePolicyDocument {
    open(crate) spec fn as_json(&self) -> JsonView {
        JsonView::Object(
            Seq::empty()
                + member("Statement"@, &self.statements)
                + member("Version"@, &self.version),
        )
    }

    fn to_json(&self) -> (r: Value) {
        let mut members: Vec<(String, Value)> = Vec::new();
        push_json(&mut members, "Statement", &self.statements);
        push_json(&mut members, "Version", &self.version);
        Value::Object(members)
    }
}

impl ToJson for Statement {
    open(crate) spec fn as_json(&self) -> JsonView {
        JsonView::Object(
            Seq::empty()
                + member("Action"@, &self.action)
                + member("Effect"@, &self.effect)
                + opt_member("Principal"@, &self.principal)
                + opt_member("Resource"@, &self.resource)
                + opt_member("Condition"@, &self.condition),
        )
    }

    fn to_json(&self) -> (r: Value) {
        let mut members: Vec<(String, Value)> = Vec::new();
        push_json(&mut members, "Action", &self.action);
        push_json(&mut members, "Effect", &self.effect);
        push_opt_json(&mut members, "Principal", &self.principal);
        push_opt_json(&mut members, "Resource", &self.resource);
        push_opt_json(&mut members, "Condition", &self.condition);
        Value::Object(members)
    }
}

impl ToJson for ServicePrincipal {
    open(crate) spec fn as_json(&self) -> JsonView {
        JsonView::Object(Seq::empty() + member("Service"@, &self.service))
    }

    fn to_json(&self) -> (r: Value) {
        let mut members: Vec<(String, Value)> = Vec::new();
        push_json(&mut members, "Service", &self.service);
        Value::Object(members)
    }
}

impl ToJson for AWSPrincipal {
    open(crate) spec fn as_json(&self) -> JsonView {
        JsonView::Object(Seq::empty() + member("AWS"@, &self.aws))
    }

    fn to_json(&self) -> (r: Value) {
        let mut members: Vec<(String, Value)> = Vec::new();
        push_json(&mut members, "AWS", &self.aws);
        Value::Object(members)
    }
}

/// A principal is `{"Service": ..}`, `{"AWS": ..}`, or a plain string.
impl ToJson for crate::iam::Principal {
    open(crate) spec fn as_json(&self) -> JsonView {
        match self {
            crate::iam::Principal::Service(s) => JsonView::Object(seq![("Service"@, JsonView::String(s.service@))]),
            crate::iam::Principal::AWS(a) => JsonView::Object(seq![("AWS"@, JsonView::String(a.aws@))]),
            crate::iam::Principal::Custom(c) => JsonView::String(c@),
        }
    }

    fn to_json(&self) -> (r: Value) {
        match self {
            crate::iam::Principal::Service(s) => crate::intrinsic::single_member("Service", Value::String(s.service.clone())),
            crate::iam::Principal::AWS(a) => crate::intrinsic::single_member("AWS", Value::String(a.aws.clone())),
            crate::iam::Principal::Custom(c) => Value::String(c.clone()),
        }
    }
}

} // verus!
