use crate::json::Value;
use crate::shared::{arn_json, clone_opt, opt_view, ref_json, Id, RefView, RefWithIdView};
use crate::intrinsic::{get_arn, get_att, get_att_json, get_ref, string_value};

use vstd::prelude::*;

verus! {

/// A reference to a resource, which other resources use to depend on it.
pub struct RoleRef {
    pub(crate) resource_id: String,
    pub(crate) ref_name: Option<String>,
    pub(crate) arn_value: Option<String>,
}

impl View for RoleRef {
    type V = RefView;

    open(crate) spec fn view(&self) -> RefView {
        RefView {
            resource_id: self.resource_id@,
            ref_name: opt_view(self.ref_name),
            arn_value: opt_view(self.arn_value),
        }
    }
}

impl RoleRef {
    pub(crate) fn internal_new(resource_id: String) -> (r: Self)
        ensures
            r@ == (RefView { resource_id: resource_id@, ref_name: None, arn_value: None }),
    {
        Self { resource_id, ref_name: None, arn_value: None }
    }

    /// A reference to a resource that exists outside the stack.
    pub fn new(resource_id: &str, ref_name: &str, arn_value: &str) -> (r: Self)
        ensures
            r@ == (RefView { resource_id: resource_id@, ref_name: Some(ref_name@), arn_value: Some(arn_value@) }),
    {
        Self {
            resource_id: String::from_str(resource_id),
            ref_name: Some(String::from_str(ref_name)),
            arn_value: Some(String::from_str(arn_value)),
        }
    }

    pub(crate) fn get_resource_id(&self) -> (r: &str)
        ensures
            r@ == self@.resource_id,
    {
        self.resource_id.as_str()
    }

    /// What `Ref` gives for the resource: the name it was imported with, or the intrinsic function.
    pub fn get_ref(&self) -> (r: Value)
        ensures
            r@ == ref_json(self@.resource_id, self@.ref_name),
    {
        match &self.ref_name {
            Some(val) => string_value(val.as_str()),
            None => get_ref(self.resource_id.as_str()),
        }
    }

    /// The ARN of the resource: the one it was imported with, or the intrinsic function.
    pub fn get_arn(&self) -> (r: Value)
        ensures
            r@ == arn_json(self@.resource_id, self@.arn_value),
    {
        match &self.arn_value {
            Some(val) => string_value(val.as_str()),
            None => get_arn(self.resource_id.as_str()),
        }
    }

    /// An attribute of the resource; not available for an imported resource.
    pub fn get_att(&self, id: &str) -> (r: Value)
        requires
            !(self@.ref_name is Some && self@.arn_value is Some),
        ensures
            r@ == get_att_json(self@.resource_id, id@),
    {
        get_att(self.resource_id.as_str(), id)
    }
}

impl Clone for RoleRef {
    fn clone(&self) -> (r: Self)
        ensures
            r@ == self@,
    {
        Self {
            resource_id: self.resource_id.clone(),
            ref_name: clone_opt(&self.ref_name),
            arn_value: clone_opt(&self.arn_value),
        }
    }
}

/// An IAM role resource.
pub struct Role {
    pub(crate) id: Id,
    pub(crate) resource_id: String,
    pub(crate) potentially_missing_services: Vec<String>,
    pub(crate) resource_type: String,
    pub(crate) properties: IamRoleProperties,
}

/// What a [`Role`] holds.
pub struct RoleView {
    pub id: Id,
    pub resource_id: String,
    pub potentially_missing_services: Vec<String>,
    pub resource_type: String,
    pub properties: IamRoleProperties,
}

impl View for Role {
    type V = RoleView;

    open(crate) spec fn view(&self) -> RoleView {
        RoleView {
            id: self.id,
            resource_id: self.resource_id,
            potentially_missing_services: self.potentially_missing_services,
            resource_type: self.resource_type,
            properties: self.properties,
        }
    }
}

impl Role {
    pub fn get_id(&self) -> (r: &Id)
        ensures
            *r == self@.id,
    {
        &self.id
    }

    pub fn get_resource_id(&self) -> (r: &str)
        ensures
            r@ == self@.resource_id@,
    {
        self.resource_id.as_str()
    }

    pub fn get_type(&self) -> (r: &str)
        ensures
            r@ == self@.resource_type@,
    {
        self.resource_type.as_str()
    }
}

/// The properties of an IAM role.
pub struct IamRoleProperties {
    pub(crate) assumed_role_policy_document: AssumeRolePolicyDocument,
    pub(crate) managed_policy_arns: Vec<Value>,
    pub(crate) policies: Option<Vec<Policy>>,
    pub(crate) role_name: Option<String>,
}

/// What a [`IamRoleProperties`] holds.
pub struct IamRolePropertiesView {
    pub assumed_role_policy_document: AssumeRolePolicyDocument,
    pub managed_policy_arns: Vec<Value>,
    pub policies: Option<Vec<Policy>>,
    pub role_name: Option<String>,
}

impl View for IamRoleProperties {
    type V = IamRolePropertiesView;

    open(crate) spec fn view(&self) -> IamRolePropertiesView {
        IamRolePropertiesView {
            assumed_role_policy_document: self.assumed_role_policy_document,
            managed_policy_arns: self.managed_policy_arns,
            policies: self.policies,
            role_name: self.role_name,
        }
    }
}

/// An inline policy of a role: a name and a policy document.
pub struct Policy {
    pub(crate) policy_name: String,
    pub(crate) policy_document: PolicyDocument,
}

/// What a [`Policy`] holds.
pub struct PolicyView {
    pub policy_name: String,
    pub policy_document: PolicyDocument,
}

impl View for Policy {
    type V = PolicyView;

    open(crate) spec fn view(&self) -> PolicyView {
        PolicyView {
            policy_name: self.policy_name,
            policy_document: self.policy_document,
        }
    }
}

/// A policy document: a version and the statements.
pub struct PolicyDocument {
    pub(crate) version: String,
    pub(crate) statements: Vec<Statement>,
}

/// What a [`PolicyDocument`] holds.
pub struct PolicyDocumentView {
    pub version: String,
    pub statements: Vec<Statement>,
}

impl View for PolicyDocument {
    type V = PolicyDocumentView;

    open(crate) spec fn view(&self) -> PolicyDocumentView {
        PolicyDocumentView {
            version: self.version,
            statements: self.statements,
        }
    }
}

/// The policy document that says who may assume a role.
pub struct AssumeRolePolicyDocument {
    pub(crate) statements: Vec<Statement>,
    pub(crate) version: String,
}

/// What a [`AssumeRolePolicyDocument`] holds.
pub struct AssumeRolePolicyDocumentView {
    pub statements: Vec<Statement>,
    pub version: String,
}

impl View for AssumeRolePolicyDocument {
    type V = AssumeRolePolicyDocumentView;

    open(crate) spec fn view(&self) -> AssumeRolePolicyDocumentView {
        AssumeRolePolicyDocumentView {
            statements: self.statements,
            version: self.version,
        }
    }
}

/// A statement of a policy: the actions it allows or denies, on which resources, for whom.
pub struct Statement {
    pub(crate) action: Vec<String>,
    pub(crate) effect: String,
    pub(crate) principal: Option<Principal>,
    pub(crate) resource: Option<Vec<Value>>,
    pub(crate) condition: Option<Value>,
}

/// What a [`Statement`] holds.
pub struct StatementView {
    pub action: Vec<String>,
    pub effect: String,
    pub principal: Option<Principal>,
    pub resource: Option<Vec<Value>>,
    pub condition: Option<Value>,
}

impl View for Statement {
    type V = StatementView;

    open(crate) spec fn view(&self) -> StatementView {
        StatementView {
            action: self.action,
            effect: self.effect,
            principal: self.principal,
            resource: self.resource,
            condition: self.condition,
        }
    }
}

/// A principal that is an AWS service.
pub struct ServicePrincipal {
    pub(crate) service: String,
}

/// What a [`ServicePrincipal`] holds.
pub struct ServicePrincipalView {
    pub service: String,
}

impl View for ServicePrincipal {
    type V = ServicePrincipalView;

    open(crate) spec fn view(&self) -> ServicePrincipalView {
        ServicePrincipalView {
            service: self.service,
        }
    }
}

/// A principal that is an AWS account or role.
pub struct AWSPrincipal {
    pub(crate) aws: String,
}

/// What a [`AWSPrincipal`] holds.
pub struct AWSPrincipalView {
    pub aws: String,
}

impl View for AWSPrincipal {
    type V = AWSPrincipalView;

    open(crate) spec fn view(&self) -> AWSPrincipalView {
        AWSPrincipalView {
            aws: self.aws,
        }
    }
}

/// Who a statement applies to.
pub enum Principal {
    Service(ServicePrincipal),
    AWS(AWSPrincipal),
    Custom(String),
}

} // verus!
