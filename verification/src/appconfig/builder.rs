use crate::appconfig::{
    Application, ApplicationProperties, ApplicationPropertiesView, ApplicationRef, ConfigurationProfile,
    ConfigurationProfileProperties, ConfigurationProfilePropertiesView, ConfigurationProfileRef, DeploymentStrategy,
    DeploymentStrategyProperties, DeploymentStrategyPropertiesView, DeploymentStrategyRef, Environment,
    EnvironmentProperties, EnvironmentPropertiesView, EnvironmentRef, Validator, ValidatorView,
};
use crate::json::{JsonView, Value};
use crate::shared::{ref_json, Id};
use crate::stack::{is_generated_id, Resource, StackBuilder, StackBuilderView};
use crate::wrappers::{AppConfigName, DeploymentDurationInMinutes, GrowthFactor, LocationUri};
use vstd::prelude::*;

verus! {

/// Builder for AppConfig applications.
pub struct ApplicationBuilder {
    pub(crate) id: Id,
    pub(crate) name: String,
}

/// What a [`ApplicationBuilder`] holds.
pub struct ApplicationBuilderView {
    pub id: Id,
    pub name: String,
}

impl View for ApplicationBuilder {
    type V = ApplicationBuilderView;

    open(crate) spec fn view(&self) -> ApplicationBuilderView {
        ApplicationBuilderView { id: self.id, name: self.name }
    }
}

impl ApplicationBuilder {
    pub fn new(id: &str, name: AppConfigName) -> (r: Self)
        ensures
            r@.id.0@ == id@,
            r@.name == name.0,
    {
        Self {
            id: Id(String::from_str(id)),
            name: name.0,
        }
    }

    /// Adds the resource to the stack.
    pub fn build(self, stack_builder: &mut StackBuilder) -> (r: ApplicationRef)
        ensures
            final(stack_builder)@ == (StackBuilderView {
                resources: old(stack_builder)@.resources.push(final(stack_builder)@.resources.last()),
                ..old(stack_builder)@
            }),
            final(stack_builder)@.resources.last() matches Resource::Application(x) && {
                &&& x@.id == self@.id
                &&& x@.resource_id@ == r@.resource_id
                &&& x@.resource_type@ == "AWS::AppConfig::Application"@
                &&& x@.properties@ == (ApplicationPropertiesView { name: self@.name })
            },
            is_generated_id(r@.resource_id, "AppConfigApp"@),
            r@.ref_name is None,
            r@.arn_value is None,
    {
        let resource_id = Resource::generate_id("AppConfigApp");
        stack_builder.add_resource(
            Resource::Application(
                Application {
                    id: self.id,
                    resource_id: resource_id.clone(),
                    resource_type: String::from_str("AWS::AppConfig::Application"),
                    properties: ApplicationProperties {
                        name: self.name,
                    },
                },
            ),
        );
        ApplicationRef::internal_new(resource_id)
    }
}

/// The kind of configuration a profile holds.
pub enum ConfigType {
    FeatureFlags,
    Freeform,
}

/// How CloudFormation writes a [`ConfigType`].
pub open spec fn config_type_name(v: ConfigType) -> Seq<char> {
    match v {
        ConfigType::FeatureFlags => "AWS.AppConfig.FeatureFlags"@,
        ConfigType::Freeform => "AWS.Freeform"@,
    }
}

impl vstd::std_specs::convert::FromSpecImpl<ConfigType> for String {
    open spec fn obeys_from_spec() -> bool {
        false
    }

    open spec fn from_spec(v: ConfigType) -> String {
        vstd::pervasive::arbitrary()
    }
}

impl From<ConfigType> for String {
    fn from(value: ConfigType) -> (r: String)
        ensures
            r@ == config_type_name(value),
    {
        match value {
            ConfigType::FeatureFlags => String::from_str("AWS.AppConfig.FeatureFlags"),
            ConfigType::Freeform => String::from_str("AWS.Freeform"),
        }
    }
}

/// Whether deleting checks that a configuration is no longer used.
pub enum DeletionProtectionCheck {
    AccountDefault,
    Apply,
    Bypass,
}

/// How CloudFormation writes a [`DeletionProtectionCheck`].
pub open spec fn deletion_protection_check_name(v: DeletionProtectionCheck) -> Seq<char> {
    match v {
        DeletionProtectionCheck::AccountDefault => "ACCOUNT_DEFAULT"@,
        DeletionProtectionCheck::Apply => "APPLY"@,
        DeletionProtectionCheck::Bypass => "BYPASS"@,
    }
}

impl vstd::std_specs::convert::FromSpecImpl<DeletionProtectionCheck> for String {
    open spec fn obeys_from_spec() -> bool {
        false
    }

    open spec fn from_spec(v: DeletionProtectionCheck) -> String {
        vstd::pervasive::arbitrary()
    }
}

impl From<DeletionProtectionCheck> for String {
    fn from(value: DeletionProtectionCheck) -> (r: String)
        ensures
            r@ == deletion_protection_check_name(value),
    {
        match value {
            DeletionProtectionCheck::AccountDefault => String::from_str("ACCOUNT_DEFAULT"),
            DeletionProtectionCheck::Apply => String::from_str("APPLY"),
            DeletionProtectionCheck::Bypass => String::from_str("BYPASS"),
        }
    }
}

/// Builder for AppConfig configuration profiles.
pub struct ConfigurationProfileBuilder {
    pub(crate) id: Id,
    pub(crate) name: String,
    pub(crate) application_id: Value,
    pub(crate) location_uri: String,
    pub(crate) deletion_protection_check: Option<String>,
    pub(crate) config_type: Option<String>,
    pub(crate) validators: Option<Vec<Validator>>,
}

/// What a [`ConfigurationProfileBuilder`] holds.
pub struct ConfigurationProfileBuilderView {
    pub id: Id,
    pub name: String,
    pub application_id: Value,
    pub location_uri: String,
    pub deletion_protection_check: Option<String>,
    pub config_type: Option<String>,
    pub validators: Option<Vec<Validator>>,
}

impl View for ConfigurationProfileBuilder {
    type V = ConfigurationProfileBuilderView;

    open(crate) spec fn view(&self) -> ConfigurationProfileBuilderView {
        ConfigurationProfileBuilderView { id: self.id, name: self.name, application_id: self.application_id, location_uri: self.location_uri, deletion_protection_check: self.deletion_protection_check, config_type: self.config_type, validators: self.validators }
    }
}

impl ConfigurationProfileBuilder {
    pub fn new(id: &str, name: AppConfigName, application: &ApplicationRef, location_uri: LocationUri) -> (r: Self)
        ensures
            r@.id.0@ == id@,
            r@.name == name.0,
            r@.application_id@ == ref_json(application@.resource_id, application@.ref_name),
            r@.location_uri == location_uri.0,
            r@.deletion_protection_check is None,
            r@.config_type is None,
            r@.validators is None,
    {
        Self {
            id: Id(String::from_str(id)),
            name: name.0,
            application_id: application.get_ref(),
            location_uri: location_uri.0,
            deletion_protection_check: None,
            config_type: None,
            validators: None,
        }
    }

    pub fn deletion_protection_check(self, deletion_protection_check: DeletionProtectionCheck) -> (r: Self)
        ensures
            r@ == (ConfigurationProfileBuilderView { deletion_protection_check: r@.deletion_protection_check, ..self@ }),
            r@.deletion_protection_check matches Some(d) && d@ == deletion_protection_check_name(deletion_protection_check),
    {
        Self { deletion_protection_check: Some(deletion_protection_check.into()), ..self }
    }

    pub fn config_type(self, config_type: ConfigType) -> (r: Self)
        ensures
            r@ == (ConfigurationProfileBuilderView { config_type: r@.config_type, ..self@ }),
            r@.config_type matches Some(c) && c@ == config_type_name(config_type),
    {
        Self { config_type: Some(config_type.into()), ..self }
    }

    /// Adds the resource to the stack.
    pub fn build(self, stack_builder: &mut StackBuilder) -> (r: ConfigurationProfileRef)
        ensures
            final(stack_builder)@ == (StackBuilderView {
                resources: old(stack_builder)@.resources.push(final(stack_builder)@.resources.last()),
                ..old(stack_builder)@
            }),
            final(stack_builder)@.resources.last() matches Resource::ConfigurationProfile(x) && {
                &&& x@.id == self@.id
                &&& x@.resource_id@ == r@.resource_id
                &&& x@.resource_type@ == "AWS::AppConfig::ConfigurationProfile"@
                &&& x@.properties@ == (ConfigurationProfilePropertiesView { name: self@.name, application_id: self@.application_id, deletion_protection_check: self@.deletion_protection_check, location_uri: self@.location_uri, config_type: self@.config_type, validators: self@.validators })
            },
            is_generated_id(r@.resource_id, "ConfigurationProfile"@),
            r@.ref_name is None,
            r@.arn_value is None,
    {
        let resource_id = Resource::generate_id("ConfigurationProfile");
        stack_builder.add_resource(
            Resource::ConfigurationProfile(
                ConfigurationProfile {
                    id: self.id,
                    resource_id: resource_id.clone(),
                    resource_type: String::from_str("AWS::AppConfig::ConfigurationProfile"),
                    properties: ConfigurationProfileProperties {
                        name: self.name,
                        application_id: self.application_id,
                        deletion_protection_check: self.deletion_protection_check,
                        location_uri: self.location_uri,
                        config_type: self.config_type,
                        validators: self.validators,
                    },
                },
            ),
        );
        ConfigurationProfileRef::internal_new(resource_id)
    }

    /// Adds a validator; the first one starts the list.
    pub fn add_validator(self, validator: Validator) -> (r: Self)
        ensures
            r@ == (ConfigurationProfileBuilderView { validators: r@.validators, ..self@ }),
            r@.validators matches Some(v) && v@ == match self@.validators {
                Some(old) => old@.push(validator),
                None => seq![validator],
            },
    {
        let validators = match self.validators {
            Some(validators) => {
                let mut validators = validators;
                validators.push(validator);
                validators
            },
            None => {
                let mut validators = Vec::new();
                validators.push(validator);
                validators
            },
        };
        Self { validators: Some(validators), ..self }
    }
}

/// Builder for the validators of a configuration profile.
pub struct ValidatorBuilder {
    pub(crate) content: String,
    pub(crate) validator_type: String,
}

/// What a [`ValidatorBuilder`] holds.
pub struct ValidatorBuilderView {
    pub content: String,
    pub validator_type: String,
}

impl View for ValidatorBuilder {
    type V = ValidatorBuilderView;

    open(crate) spec fn view(&self) -> ValidatorBuilderView {
        ValidatorBuilderView { content: self.content, validator_type: self.validator_type }
    }
}

impl ValidatorBuilder {
    pub fn new(content: String, validator_type: ValidatorType) -> (r: Self)
        ensures
            r@.content == content,
            r@.validator_type@ == validator_type_name(validator_type),
    {
        Self {
            content: content,
            validator_type: validator_type.into(),
        }
    }

    /// The validator, with its content as a JSON string.
    pub fn build(self) -> (r: Validator)
        ensures
            r@.content@ == JsonView::String(self@.content@),
            r@.validator_type == self@.validator_type,
    {
        Validator { content: Value::String(self.content), validator_type: self.validator_type }
    }
}

/// How a validator checks a configuration.
pub enum ValidatorType {
    JsonSchema,
    Lambda,
}

/// How CloudFormation writes a [`ValidatorType`].
pub open spec fn validator_type_name(v: ValidatorType) -> Seq<char> {
    match v {
        ValidatorType::JsonSchema => "JSON_SCHEMA"@,
        ValidatorType::Lambda => "LAMBDA"@,
    }
}

impl vstd::std_specs::convert::FromSpecImpl<ValidatorType> for String {
    open spec fn obeys_from_spec() -> bool {
        false
    }

    open spec fn from_spec(v: ValidatorType) -> String {
        vstd::pervasive::arbitrary()
    }
}

impl From<ValidatorType> for String {
    fn from(value: ValidatorType) -> (r: String)
        ensures
            r@ == validator_type_name(value),
    {
        match value {
            ValidatorType::JsonSchema => String::from_str("JSON_SCHEMA"),
            ValidatorType::Lambda => String::from_str("LAMBDA"),
        }
    }
}

/// How a deployment widens its reach over time.
pub enum GrowthType {
    Linear,
    Exponential,
}

/// How CloudFormation writes a [`GrowthType`].
pub open spec fn growth_type_name(v: GrowthType) -> Seq<char> {
    match v {
        GrowthType::Linear => "LINEAR"@,
        GrowthType::Exponential => "EXPONENTIAL"@,
    }
}

impl vstd::std_specs::convert::FromSpecImpl<GrowthType> for String {
    open spec fn obeys_from_spec() -> bool {
        false
    }

    open spec fn from_spec(v: GrowthType) -> String {
        vstd::pervasive::arbitrary()
    }
}

impl From<GrowthType> for String {
    fn from(value: GrowthType) -> (r: String)
        ensures
            r@ == growth_type_name(value),
    {
        match value {
            GrowthType::Linear => String::from_str("LINEAR"),
            GrowthType::Exponential => String::from_str("EXPONENTIAL"),
        }
    }
}

/// Where a deployment strategy is copied to.
pub enum ReplicateTo {
    NoReplication,
    SsmDocument,
}

/// How CloudFormation writes a [`ReplicateTo`].
pub open spec fn replicate_to_name(v: ReplicateTo) -> Seq<char> {
    match v {
        ReplicateTo::NoReplication => "NONE"@,
        ReplicateTo::SsmDocument => "SSM_DOCUMENT"@,
    }
}

impl vstd::std_specs::convert::FromSpecImpl<ReplicateTo> for String {
    open spec fn obeys_from_spec() -> bool {
        false
    }

    open spec fn from_spec(v: ReplicateTo) -> String {
        vstd::pervasive::arbitrary()
    }
}

impl From<ReplicateTo> for String {
    fn from(value: ReplicateTo) -> (r: String)
        ensures
            r@ == replicate_to_name(value),
    {
        match value {
            ReplicateTo::NoReplication => String::from_str("NONE"),
            ReplicateTo::SsmDocument => String::from_str("SSM_DOCUMENT"),
        }
    }
}

/// Builder for AppConfig deployment strategies.
pub struct DeploymentStrategyBuilder {
    pub(crate) id: Id,
    pub(crate) name: String,
    pub(crate) deployment_duration_in_minutes: u16,
    pub(crate) growth_factor: u8,
    pub(crate) growth_type: Option<String>,
    pub(crate) replicate_to: String,
}

/// What a [`DeploymentStrategyBuilder`] holds.
pub struct DeploymentStrategyBuilderView {
    pub id: Id,
    pub name: String,
    pub deployment_duration_in_minutes: u16,
    pub growth_factor: u8,
    pub growth_type: Option<String>,
    pub replicate_to: String,
}

impl View for DeploymentStrategyBuilder {
    type V = DeploymentStrategyBuilderView;

    open(crate) spec fn view(&self) -> DeploymentStrategyBuilderView {
        DeploymentStrategyBuilderView { id: self.id, name: self.name, deployment_duration_in_minutes: self.deployment_duration_in_minutes, growth_factor: self.growth_factor, growth_type: self.growth_type, replicate_to: self.replicate_to }
    }
}

impl DeploymentStrategyBuilder {
    pub fn new(id: &str, name: AppConfigName, deployment_duration_in_minutes: DeploymentDurationInMinutes, growth_factor: GrowthFactor, replicate_to: ReplicateTo) -> (r: Self)
        ensures
            r@.id.0@ == id@,
            r@.name == name.0,
            r@.deployment_duration_in_minutes == deployment_duration_in_minutes.0,
            r@.growth_factor == growth_factor.0,
            r@.growth_type is None,
            r@.replicate_to@ == replicate_to_name(replicate_to),
    {
        Self {
            id: Id(String::from_str(id)),
            name: name.0,
            deployment_duration_in_minutes: deployment_duration_in_minutes.0,
            growth_factor: growth_factor.0,
            growth_type: None,
            replicate_to: replicate_to.into(),
        }
    }

    pub fn growth_type(self, growth_type: GrowthType) -> (r: Self)
        ensures
            r@ == (DeploymentStrategyBuilderView { growth_type: r@.growth_type, ..self@ }),
            r@.growth_type matches Some(g) && g@ == growth_type_name(growth_type),
    {
        Self { growth_type: Some(growth_type.into()), ..self }
    }

    /// Adds the resource to the stack.
    pub fn build(self, stack_builder: &mut StackBuilder) -> (r: DeploymentStrategyRef)
        ensures
            final(stack_builder)@ == (StackBuilderView {
                resources: old(stack_builder)@.resources.push(final(stack_builder)@.resources.last()),
                ..old(stack_builder)@
            }),
            final(stack_builder)@.resources.last() matches Resource::DeploymentStrategy(x) && {
                &&& x@.id == self@.id
                &&& x@.resource_id@ == r@.resource_id
                &&& x@.resource_type@ == "AWS::AppConfig::DeploymentStrategy"@
                &&& x@.properties@ == (DeploymentStrategyPropertiesView { name: self@.name, deployment_duration_in_minutes: self@.deployment_duration_in_minutes, growth_factor: self@.growth_factor, replicate_to: self@.replicate_to, growth_type: self@.growth_type })
            },
            is_generated_id(r@.resource_id, "DeploymentStrategy"@),
            r@.ref_name is None,
            r@.arn_value is None,
    {
        let resource_id = Resource::generate_id("DeploymentStrategy");
        stack_builder.add_resource(
            Resource::DeploymentStrategy(
                DeploymentStrategy {
                    id: self.id,
                    resource_id: resource_id.clone(),
                    resource_type: String::from_str("AWS::AppConfig::DeploymentStrategy"),
                    properties: DeploymentStrategyProperties {
                        name: self.name,
                        deployment_duration_in_minutes: self.deployment_duration_in_minutes,
                        growth_factor: self.growth_factor,
                        replicate_to: self.replicate_to,
                        growth_type: self.growth_type,
                    },
                },
            ),
        );
        DeploymentStrategyRef::internal_new(resource_id)
    }
}

/// Builder for AppConfig environments.
pub struct EnvironmentBuilder {
    pub(crate) id: Id,
    pub(crate) name: String,
    pub(crate) application_id: Value,
    pub(crate) deletion_protection_check: Option<String>,
}

/// What a [`EnvironmentBuilder`] holds.
pub struct EnvironmentBuilderView {
    pub id: Id,
    pub name: String,
    pub application_id: Value,
    pub deletion_protection_check: Option<String>,
}

impl View for EnvironmentBuilder {
    type V = EnvironmentBuilderView;

    open(crate) spec fn view(&self) -> EnvironmentBuilderView {
        EnvironmentBuilderView { id: self.id, name: self.name, application_id: self.application_id, deletion_protection_check: self.deletion_protection_check }
    }
}

impl EnvironmentBuilder {
    pub fn new(id: &str, name: AppConfigName, application: &ApplicationRef) -> (r: Self)
        ensures
            r@.id.0@ == id@,
            r@.name == name.0,
            r@.application_id@ == ref_json(application@.resource_id, application@.ref_name),
            r@.deletion_protection_check is None,
    {
        Self {
            id: Id(String::from_str(id)),
            name: name.0,
            application_id: application.get_ref(),
            deletion_protection_check: None,
        }
    }

    pub fn deletion_protection_check(self, deletion_protection_check: DeletionProtectionCheck) -> (r: Self)
        ensures
            r@ == (EnvironmentBuilderView { deletion_protection_check: r@.deletion_protection_check, ..self@ }),
            r@.deletion_protection_check matches Some(d) && d@ == deletion_protection_check_name(deletion_protection_check),
    {
        Self { deletion_protection_check: Some(deletion_protection_check.into()), ..self }
    }

    /// Adds the resource to the stack.
    pub fn build(self, stack_builder: &mut StackBuilder) -> (r: EnvironmentRef)
        ensures
            final(stack_builder)@ == (StackBuilderView {
                resources: old(stack_builder)@.resources.push(final(stack_builder)@.resources.last()),
                ..old(stack_builder)@
            }),
            final(stack_builder)@.resources.last() matches Resource::Environment(x) && {
                &&& x@.id == self@.id
                &&& x@.resource_id@ == r@.resource_id
                &&& x@.resource_type@ == "AWS::AppConfig::Environment"@
                &&& x@.properties@ == (EnvironmentPropertiesView { name: self@.name, application_id: self@.application_id, deletion_protection_check: self@.deletion_protection_check })
            },
            is_generated_id(r@.resource_id, "Environment"@),
            r@.ref_name is None,
            r@.arn_value is None,
    {
        let resource_id = Resource::generate_id("Environment");
        stack_builder.add_resource(
            Resource::Environment(
                Environment {
                    id: self.id,
                    resource_id: resource_id.clone(),
                    resource_type: String::from_str("AWS::AppConfig::Environment"),
                    properties: EnvironmentProperties {
                        name: self.name,
                        application_id: self.application_id,
                        deletion_protection_check: self.deletion_protection_check,
                    },
                },
            ),
        );
        EnvironmentRef::internal_new(resource_id)
    }
}

} // verus!
