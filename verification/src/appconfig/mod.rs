//! AppConfig: applications, environments, configuration profiles and deployment strategies.
mod dto;
mod builder;
mod template;

pub use dto::{Application, ApplicationProperties, ApplicationPropertiesView, ApplicationRef, ApplicationView, ConfigurationProfile, ConfigurationProfileProperties, ConfigurationProfilePropertiesView, ConfigurationProfileRef, ConfigurationProfileView, DeploymentStrategy, DeploymentStrategyProperties, DeploymentStrategyPropertiesView, DeploymentStrategyRef, DeploymentStrategyView, Environment, EnvironmentProperties, EnvironmentPropertiesView, EnvironmentRef, EnvironmentView, Validator, ValidatorView};
pub use builder::{ApplicationBuilder, ApplicationBuilderView, ConfigType, ConfigurationProfileBuilder, ConfigurationProfileBuilderView, DeletionProtectionCheck, DeploymentStrategyBuilder, DeploymentStrategyBuilderView, EnvironmentBuilder, EnvironmentBuilderView, GrowthType, ReplicateTo, ValidatorBuilder, ValidatorBuilderView, ValidatorType, config_type_name, deletion_protection_check_name, growth_type_name, replicate_to_name, validator_type_name};
