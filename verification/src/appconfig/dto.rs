use crate::json::Value;
use crate::shared::{arn_json, clone_opt, opt_view, ref_json, Id, RefView, RefWithIdView};
use crate::intrinsic::{get_arn, get_att, get_att_json, get_ref, string_value};

use vstd::prelude::*;

verus! {

/// A reference to a resource, which other resources use to depend on it.
pub struct ApplicationRef {
    pub(crate) resource_id: String,
    pub(crate) ref_name: Option<String>,
    pub(crate) arn_value: Option<String>,
}

impl View for ApplicationRef {
    type V = RefView;

    open(crate) spec fn view(&self) -> RefView {
        RefView {
            resource_id: self.resource_id@,
            ref_name: opt_view(self.ref_name),
            arn_value: opt_view(self.arn_value),
        }
    }
}

impl ApplicationRef {
    pub(crate) fn internal_new(resource_id: String) -> (r: Self)
        ensures
            r@ == (RefView { resource_id: resource_id@, ref_name: None, arn_value: None }),
    {
        Self { resource_id, ref_name: None, arn_value: None }
    }

    /// A reference to a resource that exists outside the stack.
    pub fn new(resource_id: &str, ref_name: &str, arn_value: &str) -> (r: Self)
        ensures
            r@ == (RefView { resource_id: resource_id@, ref_name: Some(ref_name@), arn_value: Some(arn_value@) }),
    {
        Self {
            resource_id: String::from_str(resource_id),
            ref_name: Some(String::from_str(ref_name)),
            arn_value: Some(String::from_str(arn_value)),
        }
    }

    pub(crate) fn get_resource_id(&self) -> (r: &str)
        ensures
            r@ == self@.resource_id,
    {
        self.resource_id.as_str()
    }

    /// What `Ref` gives for the resource: the name it was imported with, or the intrinsic function.
    pub fn get_ref(&self) -> (r: Value)
        ensures
            r@ == ref_json(self@.resource_id, self@.ref_name),
    {
        match &self.ref_name {
            Some(val) => string_value(val.as_str()),
            None => get_ref(self.resource_id.as_str()),
        }
    }

    /// The ARN of the resource: the one it was imported with, or the intrinsic function.
    pub fn get_arn(&self) -> (r: Value)
        ensures
            r@ == arn_json(self@.resource_id, self@.arn_value),
    {
        match &self.arn_value {
            Some(val) => string_value(val.as_str()),
            None => get_arn(self.resource_id.as_str()),
        }
    }

    /// An attribute of the resource; not available for an imported resource.
    pub fn get_att(&self, id: &str) -> (r: Value)
        requires
            !(self@.ref_name is Some && self@.arn_value is Some),
        ensures
            r@ == get_att_json(self@.resource_id, id@),
    {
        get_att(self.resource_id.as_str(), id)
    }
}

impl Clone for ApplicationRef {
    fn clone(&self) -> (r: Self)
        ensures
            r@ == self@,
    {
        Self {
            resource_id: self.resource_id.clone(),
            ref_name: clone_opt(&self.ref_name),
            arn_value: clone_opt(&self.arn_value),
        }
    }
}

/// A reference to a resource, which other resources use to depend on it.
pub struct ConfigurationProfileRef {
    pub(crate) resource_id: String,
    pub(crate) ref_name: Option<String>,
    pub(crate) arn_value: Option<String>,
}

impl View for ConfigurationProfileRef {
    type V = RefView;

    open(crate) spec fn view(&self) -> RefView {
        RefView {
            resource_id: self.resource_id@,
            ref_name: opt_view(self.ref_name),
            arn_value: opt_view(self.arn_value),
        }
    }
}

impl ConfigurationProfileRef {
    pub(crate) fn internal_new(resource_id: String) -> (r: Self)
        ensures
            r@ == (RefView { resource_id: resource_id@, ref_name: None, arn_value: None }),
    {
        Self { resource_id, ref_name: None, arn_value: None }
    }

    /// A reference to a resource that exists outside the stack.
    pub fn new(resource_id: &str, ref_name: &str, arn_value: &str) -> (r: Self)
        ensures
            r@ == (RefView { resource_id: resource_id@, ref_name: Some(ref_name@), arn_value: Some(arn_value@) }),
    {
        Self {
            resource_id: String::from_str(resource_id),
            ref_name: Some(String::from_str(ref_name)),
            arn_value: Some(String::from_str(arn_value)),
        }
    }

    pub(crate) fn get_resource_id(&self) -> (r: &str)
        ensures
            r@ == self@.resource_id,
    {
        self.resource_id.as_str()
    }

    /// What `Ref` gives for the resource: the name it was imported with, or the intrinsic function.
    pub fn get_ref(&self) -> (r: Value)
        ensures
            r@ == ref_json(self@.resource_id, self@.ref_name),
    {
        match &self.ref_name {
            Some(val) => string_value(val.as_str()),
            None => get_ref(self.resource_id.as_str()),
        }
    }

    /// The ARN of the resource: the one it was imported with, or the intrinsic function.
    pub fn get_arn(&self) -> (r: Value)
        ensures
            r@ == arn_json(self@.resource_id, self@.arn_value),
    {
        match &self.arn_value {
            Some(val) => string_value(val.as_str()),
            None => get_arn(self.resource_id.as_str()),
        }
    }

    /// An attribute of the resource; not available for an imported resource.
    pub fn get_att(&self, id: &str) -> (r: Value)
        requires
            !(self@.ref_name is Some && self@.arn_value is Some),
        ensures
            r@ == get_att_json(self@.resource_id, id@),
    {
        get_att(self.resource_id.as_str(), id)
    }
}

impl Clone for ConfigurationProfileRef {
    fn clone(&self) -> (r: Self)
        ensures
            r@ == self@,
    {
        Self {
            resource_id: self.resource_id.clone(),
            ref_name: clone_opt(&self.ref_name),
            arn_value: clone_opt(&self.arn_value),
        }
    }
}

/// A reference to a resource, which other resources use to depend on it.
pub struct DeploymentStrategyRef {
    pub(crate) resource_id: String,
    pub(crate) ref_name: Option<String>,
    pub(crate) arn_value: Option<String>,
}

impl View for DeploymentStrategyRef {
    type V = RefView;

    open(crate) spec fn view(&self) -> RefView {
        RefView {
            resource_id: self.resource_id@,
            ref_name: opt_view(self.ref_name),
            arn_value: opt_view(self.arn_value),
        }
    }
}

impl DeploymentStrategyRef {
    pub(crate) fn internal_new(resource_id: String) -> (r: Self)
        ensures
            r@ == (RefView { resource_id: resource_id@, ref_name: None, arn_value: None }),
    {
        Self { resource_id, ref_name: None, arn_value: None }
    }

    /// A reference to a resource that exists outside the stack.
    pub fn new(resource_id: &str, ref_name: &str, arn_value: &str) -> (r: Self)
        ensures
            r@ == (RefView { resource_id: resource_id@, ref_name: Some(ref_name@), arn_value: Some(arn_value@) }),
    {
        Self {
            resource_id: String::from_str(resource_id),
            ref_name: Some(String::from_str(ref_name)),
            arn_value: Some(String::from_str(arn_value)),
        }
    }

    pub(crate) fn get_resource_id(&self) -> (r: &str)
        ensures
            r@ == self@.resource_id,
    {
        self.resource_id.as_str()
    }

    /// What `Ref` gives for the resource: the name it was imported with, or the intrinsic function.
    pub fn get_ref(&self) -> (r: Value)
        ensures
            r@ == ref_json(self@.resource_id, self@.ref_name),
    {
        match &self.ref_name {
            Some(val) => string_value(val.as_str()),
            None => get_ref(self.resource_id.as_str()),
        }
    }

    /// The ARN of the resource: the one it was imported with, or the intrinsic function.
    pub fn get_arn(&self) -> (r: Value)
        ensures
            r@ == arn_json(self@.resource_id, self@.arn_value),
    {
        match &self.arn_value {
            Some(val) => string_value(val.as_str()),
            None => get_arn(self.resource_id.as_str()),
        }
    }

    /// An attribute of the resource; not available for an imported resource.
    pub fn get_att(&self, id: &str) -> (r: Value)
        requires
            !(self@.ref_name is Some && self@.arn_value is Some),
        ensures
            r@ == get_att_json(self@.resource_id, id@),
    {
        get_att(self.resource_id.as_str(), id)
    }
}

impl Clone for DeploymentStrategyRef {
    fn clone(&self) -> (r: Self)
        ensures
            r@ == self@,
    {
        Self {
            resource_id: self.resource_id.clone(),
            ref_name: clone_opt(&self.ref_name),
            arn_value: clone_opt(&self.arn_value),
        }
    }
}

/// A reference to a resource, which other resources use to depend on it.
pub struct EnvironmentRef {
    pub(crate) resource_id: String,
    pub(crate) ref_name: Option<String>,
    pub(crate) arn_value: Option<String>,
}

impl View for EnvironmentRef {
    type V = RefView;

    open(crate) spec fn view(&self) -> RefView {
        RefView {
            resource_id: self.resource_id@,
            ref_name: opt_view(self.ref_name),
            arn_value: opt_view(self.arn_value),
        }
    }
}

impl EnvironmentRef {
    pub(crate) fn internal_new(resource_id: String) -> (r: Self)
        ensures
            r@ == (RefView { resource_id: resource_id@, ref_name: None, arn_value: None }),
    {
        Self { resource_id, ref_name: None, arn_value: None }
    }

    /// A reference to a resource that exists outside the stack.
    pub fn new(resource_id: &str, ref_name: &str, arn_value: &str) -> (r: Self)
        ensures
            r@ == (RefView { resource_id: resource_id@, ref_name: Some(ref_name@), arn_value: Some(arn_value@) }),
    {
        Self {
            resource_id: String::from_str(resource_id),
            ref_name: Some(String::from_str(ref_name)),
            arn_value: Some(String::from_str(arn_value)),
        }
    }

    pub(crate) fn get_resource_id(&self) -> (r: &str)
        ensures
            r@ == self@.resource_id,
    {
        self.resource_id.as_str()
    }

    /// What `Ref` gives for the resource: the name it was imported with, or the intrinsic function.
    pub fn get_ref(&self) -> (r: Value)
        ensures
            r@ == ref_json(self@.resource_id, self@.ref_name),
    {
        match &self.ref_name {
            Some(val) => string_value(val.as_str()),
            None => get_ref(self.resource_id.as_str()),
        }
    }

    /// The ARN of the resource: the one it was imported with, or the intrinsic function.
    pub fn get_arn(&self) -> (r: Value)
        ensures
            r@ == arn_json(self@.resource_id, self@.arn_value),
    {
        match &self.arn_value {
            Some(val) => string_value(val.as_str()),
            None => get_arn(self.resource_id.as_str()),
        }
    }

    /// An attribute of the resource; not available for an imported resource.
    pub fn get_att(&self, id: &str) -> (r: Value)
        requires
            !(self@.ref_name is Some && self@.arn_value is Some),
        ensures
            r@ == get_att_json(self@.resource_id, id@),
    {
        get_att(self.resource_id.as_str(), id)
    }
}

impl Clone for EnvironmentRef {
    fn clone(&self) -> (r: Self)
        ensures
            r@ == self@,
    {
        Self {
            resource_id: self.resource_id.clone(),
            ref_name: clone_opt(&self.ref_name),
            arn_value: clone_opt(&self.arn_value),
        }
    }
}

/// An AppConfig application resource.
pub struct Application {
    pub(crate) id: Id,
    pub(crate) resource_id: String,
    pub(crate) resource_type: String,
    pub(crate) properties: ApplicationProperties,
}

/// What a [`Application`] holds.
pub struct ApplicationView {
    pub id: Id,
    pub resource_id: String,
    pub resource_type: String,
    pub properties: ApplicationProperties,
}

impl View for Application {
    type V = ApplicationView;

    open(crate) spec fn view(&self) -> ApplicationView {
        ApplicationView {
            id: self.id,
            resource_id: self.resource_id,
            resource_type: self.resource_type,
            properties: self.properties,
        }
    }
}

impl Application {
    pub fn get_id(&self) -> (r: &Id)
        ensures
            *r == self@.id,
    {
        &self.id
    }

    pub fn get_resource_id(&self) -> (r: &str)
        ensures
            r@ == self@.resource_id@,
    {
        self.resource_id.as_str()
    }

    pub fn get_type(&self) -> (r: &str)
        ensures
            r@ == self@.resource_type@,
    {
        self.resource_type.as_str()
    }
}

/// The properties of an application: its name.
pub struct ApplicationProperties {
    pub(crate) name: String,
}

/// What a [`ApplicationProperties`] holds.
pub struct ApplicationPropertiesView {
    pub name: String,
}

impl View for ApplicationProperties {
    type V = ApplicationPropertiesView;

    open(crate) spec fn view(&self) -> ApplicationPropertiesView {
        ApplicationPropertiesView {
            name: self.name,
        }
    }
}

/// An AppConfig configuration profile resource.
pub struct ConfigurationProfile {
    pub(crate) id: Id,
    pub(crate) resource_id: String,
    pub(crate) resource_type: String,
    pub(crate) properties: ConfigurationProfileProperties,
}

/// What a [`ConfigurationProfile`] holds.
pub struct ConfigurationProfileView {
    pub id: Id,
    pub resource_id: String,
    pub resource_type: String,
    pub properties: ConfigurationProfileProperties,
}

impl View for ConfigurationProfile {
    type V = ConfigurationProfileView;

    open(crate) spec fn view(&self) -> ConfigurationProfileView {
        ConfigurationProfileView {
            id: self.id,
            resource_id: self.resource_id,
            resource_type: self.resource_type,
            properties: self.properties,
        }
    }
}

impl ConfigurationProfile {
    pub fn get_id(&self) -> (r: &Id)
        ensures
            *r == self@.id,
    {
        &self.id
    }

    pub fn get_resource_id(&self) -> (r: &str)
        ensures
            r@ == self@.resource_id@,
    {
        self.resource_id.as_str()
    }

    pub fn get_type(&self) -> (r: &str)
        ensures
            r@ == self@.resource_type@,
    {
        self.resource_type.as_str()
    }
}

/// The properties of a configuration profile.
pub struct ConfigurationProfileProperties {
    pub(crate) name: String,
    pub(crate) application_id: Value,
    pub(crate) deletion_protection_check: Option<String>,
    pub(crate) location_uri: String,
    pub(crate) config_type: Option<String>,
    pub(crate) validators: Option<Vec<Validator>>,
}

/// What a [`ConfigurationProfileProperties`] holds.
pub struct ConfigurationProfilePropertiesView {
    pub name: String,
    pub application_id: Value,
    pub deletion_protection_check: Option<String>,
    pub location_uri: String,
    pub config_type: Option<String>,
    pub validators: Option<Vec<Validator>>,
}

impl View for ConfigurationProfileProperties {
    type V = ConfigurationProfilePropertiesView;

    open(crate) spec fn view(&self) -> ConfigurationProfilePropertiesView {
        ConfigurationProfilePropertiesView {
            name: self.name,
            application_id: self.application_id,
            deletion_protection_check: self.deletion_protection_check,
            location_uri: self.location_uri,
            config_type: self.config_type,
            validators: self.validators,
        }
    }
}

/// A check that a configuration must pass: its content and its type.
pub struct Validator {
    pub(crate) content: Value,
    pub(crate) validator_type: String,
}

/// What a [`Validator`] holds.
pub struct ValidatorView {
    pub content: Value,
    pub validator_type: String,
}

impl View for Validator {
    type V = ValidatorView;

    open(crate) spec fn view(&self) -> ValidatorView {
        ValidatorView {
            content: self.content,
            validator_type: self.validator_type,
        }
    }
}

/// An AppConfig deployment strategy resource.
pub struct DeploymentStrategy {
    pub(crate) id: Id,
    pub(crate) resource_id: String,
    pub(crate) resource_type: String,
    pub(crate) properties: DeploymentStrategyProperties,
}

/// What a [`DeploymentStrategy`] holds.
pub struct DeploymentStrategyView {
    pub id: Id,
    pub resource_id: String,
    pub resource_type: String,
    pub properties: DeploymentStrategyProperties,
}

impl View for DeploymentStrategy {
    type V = DeploymentStrategyView;

    open(crate) spec fn view(&self) -> DeploymentStrategyView {
        DeploymentStrategyView {
            id: self.id,
            resource_id: self.resource_id,
            resource_type: self.resource_type,
            properties: self.properties,
        }
    }
}

impl DeploymentStrategy {
    pub fn get_id(&self) -> (r: &Id)
        ensures
            *r == self@.id,
    {
        &self.id
    }

    pub fn get_resource_id(&self) -> (r: &str)
        ensures
            r@ == self@.resource_id@,
    {
        self.resource_id.as_str()
    }

    pub fn get_type(&self) -> (r: &str)
        ensures
            r@ == self@.resource_type@,
    {
        self.resource_type.as_str()
    }
}

/// The properties of a deployment strategy: how fast a configuration rolls out.
pub struct DeploymentStrategyProperties {
    pub(crate) name: String,
    pub(crate) deployment_duration_in_minutes: u16,
    pub(crate) growth_factor: u8,
    pub(crate) replicate_to: String,
    pub(crate) growth_type: Option<String>,
}

/// What a [`DeploymentStrategyProperties`] holds.
pub struct DeploymentStrategyPropertiesView {
    pub name: String,
    pub deployment_duration_in_minutes: u16,
    pub growth_factor: u8,
    pub replicate_to: String,
    pub growth_type: Option<String>,
}

impl View for DeploymentStrategyProperties {
    type V = DeploymentStrategyPropertiesView;

    open(crate) spec fn view(&self) -> DeploymentStrategyPropertiesView {
        DeploymentStrategyPropertiesView {
            name: self.name,
            deployment_duration_in_minutes: self.deployment_duration_in_minutes,
            growth_factor: self.growth_factor,
            replicate_to: self.replicate_to,
            growth_type: self.growth_type,
        }
    }
}

/// An AppConfig environment resource.
pub struct Environment {
    pub(crate) id: Id,
    pub(crate) resource_id: String,
    pub(crate) resource_type: String,
    pub(crate) properties: EnvironmentProperties,
}

/// What a [`Environment`] holds.
pub struct EnvironmentView {
    pub id: Id,
    pub resource_id: String,
    pub resource_type: String,
    pub properties: EnvironmentProperties,
}

impl View for Environment {
    type V = EnvironmentView;

    open(crate) spec fn view(&self) -> EnvironmentView {
        EnvironmentView {
            id: self.id,
            resource_id: self.resource_id,
            resource_type: self.resource_type,
            properties: self.properties,
        }
    }
}

impl Environment {
    pub fn get_id(&self) -> (r: &Id)
        ensures
            *r == self@.id,
    {
        &self.id
    }

    pub fn get_resource_id(&self) -> (r: &str)
        ensures
            r@ == self@.resource_id@,
    {
        self.resource_id.as_str()
    }

    pub fn get_type(&self) -> (r: &str)
        ensures
            r@ == self@.resource_type@,
    {
        self.resource_type.as_str()
    }
}

/// The properties of an environment.
pub struct EnvironmentProperties {
    pub(crate) name: String,
    pub(crate) application_id: Value,
    pub(crate) deletion_protection_check: Option<String>,
}

/// What a [`EnvironmentProperties`] holds.
pub struct EnvironmentPropertiesView {
    pub name: String,
    pub application_id: Value,
    pub deletion_protection_check: Option<String>,
}

impl View for EnvironmentProperties {
    type V = EnvironmentPropertiesView;

    open(crate) spec fn view(&self) -> EnvironmentPropertiesView {
        EnvironmentPropertiesView {
            name: self.name,
            application_id: self.application_id,
            deletion_protection_check: self.deletion_protection_check,
        }
    }
}

} // verus!
