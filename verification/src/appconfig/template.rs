//! How the module's resources appear in a CloudFormation template.
use crate::appconfig::{Application, ApplicationProperties, ConfigurationProfile, ConfigurationProfileProperties, DeploymentStrategy, DeploymentStrategyProperties, Environment, EnvironmentProperties, Validator};
use crate::json::{member, opt_member, push_json, push_opt_json, JsonView, ToJson, Value};
use vstd::prelude::*;

verus! {

impl ToJson for Application {
    open(crate) spec fn as_json(&self) -> JsonView {
        JsonView::Object(
            Seq::empty()
                + member("Type"@, &self.resource_type)
                + member("Properties"@, &self.properties),
        )
    }

    fn to_json(&self) -> (r: Value) {
        let mut members: Vec<(String, Value)> = Vec::new();
        push_json(&mut members, "Type", &self.resource_type);
        push_json(&mut members, "Properties", &self.properties);
        Value::Object(members)
    }
}

impl ToJson for ApplicationProperties {
    open(crate) spec fn as_json(&self) -> JsonView {
        JsonView::Object(Seq::empty() + member("Name"@, &self.name))
    }

    fn to_json(&self) -> (r: Value) {
        let mut members: Vec<(String, Value)> = Vec::new();
        push_json(&mut members, "Name", &self.name);
        Value::Object(members)
    }
}

impl ToJson for ConfigurationProfile {
    open(crate) spec fn as_json(&self) -> JsonView {
        JsonView::Object(
            Seq::empty()
                + member("Type"@, &self.resource_type)
                + member("Properties"@, &self.properties),
        )
    }

    fn to_json(&self) -> (r: Value) {
        let mut members: Vec<(String, Value)> = Vec::new();
        push_json(&mut members, "Type", &self.resource_type);
        push_json(&mut members, "Properties", &self.properties);
        Value::Object(members)
    }
}

impl ToJson for ConfigurationProfileProperties {
    open(crate) spec fn as_json(&self) -> JsonView {
        JsonView::Object(
            Seq::empty()
                + member("Name"@, &self.name)
                + member("ApplicationId"@, &self.application_id)
                + opt_member("DeletionProtectionCheck"@, &self.deletion_protection_check)
                + member("LocationUri"@, &self.location_uri)
                + opt_member("Type"@, &self.config_type)
                + opt_member("Validators"@, &self.validators),
        )
    }

    fn to_json(&self) -> (r: Value) {
        let mut members: Vec<(String, Value)> = Vec::new();
        push_json(&mut members, "Name", &self.name);
        push_json(&mut members, "ApplicationId", &self.application_id);
        push_opt_json(&mut members, "DeletionProtectionCheck", &self.deletion_protection_check);
        push_json(&mut members, "LocationUri", &self.location_uri);
        push_opt_json(&mut members, "Type", &self.config_type);
        push_opt_json(&mut members, "Validators", &self.validators);
        Value::Object(members)
    }
}

impl ToJson for Validator {
    open(crate) spec fn as_json(&self) -> JsonView {
        JsonView::Object(
            Seq::empty()
                + member("Content"@, &self.content)
                + member("Type"@, &self.validator_type),
        )
    }

    fn to_json(&self) -> (r: Value) {
        let mut members: Vec<(String, Value)> = Vec::new();
        push_json(&mut members, "Content", &self.content);
        push_json(&mut members, "Type", &self.validator_type);
        Value::Object(members)
    }
}

impl ToJson for DeploymentStrategy {
    open(crate) spec fn as_json(&self) -> JsonView {
        JsonView::Object(
            Seq::empty()
                + member("Type"@, &self.resource_type)
                + member("Properties"@, &self.properties),
        )
    }

    fn to_json(&self) -> (r: Value) {
        let mut members: Vec<(String, Value)> = Vec::new();
        push_json(&mut members, "Type", &self.resource_type);
        push_json(&mut members, "Properties", &self.properties);
        Value::Object(members)
    }
}

impl ToJson for DeploymentStrategyProperties {
    open(crate) spec fn as_json(&self) -> JsonView {
        JsonView::Object(
            Seq::empty()
                + member("Name"@, &self.name)
                + member("DeploymentDurationInMinutes"@, &self.deployment_duration_in_minutes)
                + member("GrowthFactor"@, &self.growth_factor)
                + member("ReplicateTo"@, &self.replicate_to)
                + opt_member("GrowthType"@, &self.growth_type),
        )
    }

    fn to_json(&self) -> (r: Value) {
        let mut members: Vec<(String, Value)> = Vec::new();
        push_json(&mut members, "Name", &self.name);
        push_json(&mut members, "DeploymentDurationInMinutes", &self.deployment_duration_in_minutes);
        push_json(&mut members, "GrowthFactor", &self.growth_factor);
        push_json(&mut members, "ReplicateTo", &self.replicate_to);
        push_opt_json(&mut members, "GrowthType", &self.growth_type);
        Value::Object(members)
    }
}

impl ToJson for Environment {
    open(crate) spec fn as_json(&self) -> JsonView {
        JsonView::Object(
            Seq::empty()
                + member("Type"@, &self.resource_type)
                + member("Properties"@, &self.properties),
        )
    }

    fn to_json(&self) -> (r: Value) {
        let mut members: Vec<(String, Value)> = Vec::new();
        push_json(&mut members, "Type", &self.resource_type);
        push_json(&mut members, "Properties", &self.properties);
        Value::Object(members)
    }
}

impl ToJson for EnvironmentProperties {
    open(crate) spec fn as_json(&self) -> JsonView {
        JsonView::Object(
            Seq::empty()
                + member("Name"@, &self.name)
                + member("ApplicationId"@, &self.application_id)
                + opt_member("DeletionProtectionCheck"@, &self.deletion_protection_check),
        )
    }

    fn to_json(&self) -> (r: Value) {
        let mut members: Vec<(String, Value)> = Vec::new();
        push_json(&mut members, "Name", &self.name);
        push_json(&mut members, "ApplicationId", &self.application_id);
        push_opt_json(&mut members, "DeletionProtectionCheck", &self.deletion_protection_check);
        Value::Object(members)
    }
}

} // verus!
