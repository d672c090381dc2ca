//! ECR: public and private repositories and the configuration of registries.
mod dto;
mod builder;
mod template;

pub use dto::{EncryptionConfiguration, EncryptionConfigurationView, ImageScanningConfiguration, ImageScanningConfigurationView, ImageTagMutabilityExclusionFilter, ImageTagMutabilityExclusionFilterView, LifecyclePolicy, LifecyclePolicyView, PublicRepository, PublicRepositoryProperties, PublicRepositoryPropertiesView, PublicRepositoryRef, PublicRepositoryView, PullThroughCacheRule, PullThroughCacheRuleProperties, PullThroughCacheRulePropertiesView, PullThroughCacheRuleRef, PullThroughCacheRuleView, PullTimeUpdateExclusion, PullTimeUpdateExclusionProperties, PullTimeUpdateExclusionPropertiesView, PullTimeUpdateExclusionRef, PullTimeUpdateExclusionView, RegistryPolicy, RegistryPolicyProperties, RegistryPolicyPropertiesView, RegistryPolicyRef, RegistryPolicyView, RegistryScanningConfiguration, RegistryScanningConfigurationProperties, RegistryScanningConfigurationPropertiesView, RegistryScanningConfigurationRef, RegistryScanningConfigurationView, ReplicationConfiguration, ReplicationConfigurationProperties, ReplicationConfigurationPropertiesView, ReplicationConfigurationRef, ReplicationConfigurationReplicationConfiguration, ReplicationConfigurationReplicationConfigurationView, ReplicationConfigurationView, ReplicationDestination, ReplicationDestinationView, ReplicationRule, ReplicationRuleView, Repository, RepositoryCatalogData, RepositoryCatalogDataView, RepositoryFilter, RepositoryFilterView, RepositoryProperties, RepositoryPropertiesView, RepositoryRef, RepositoryView, Rule, RuleView, ScanningRule, ScanningRuleView, SigningConfiguration, SigningConfigurationProperties, SigningConfigurationPropertiesView, SigningConfigurationRef, SigningConfigurationView};
pub use builder::{BasicScanFrequency, EncryptionConfigurationBuilder, EncryptionConfigurationType, EnhancedScanFrequency, ImageTagMutability, ImageTagMutabilityExclusionFilterBuilder, ImageTagMutabilityExclusionFilterType, LifecyclePolicyBuilder, PublicRepositoryBuilder, PublicRepositoryBuilderView, PullThroughCacheRuleBuilder, PullThroughCacheRuleBuilderView, PullTimeUpdateExclusionBuilder, PullTimeUpdateExclusionBuilderView, PullTimeUpdateExclusionPrincipals, RegistryPolicyBuilder, RegistryPolicyBuilderView, RegistryScanningConfigurationBasicState, RegistryScanningConfigurationBuilder, RegistryScanningConfigurationBuilderView, RegistryScanningConfigurationEnhancedState, RegistryScanningConfigurationStartState, RegistryScanningConfigurationState, ReplicationConfigurationBuilder, ReplicationConfigurationBuilderView, ReplicationDestinationBuilder, ReplicationRuleBuilder, RepositoryBuilder, RepositoryBuilderView, RepositoryCatalogDataBuilder, RepositoryFilterBuilder, RepositoryFilterType, RuleBuilder, SigningConfigurationBuilder, SigningConfigurationBuilderView, UpstreamRegistry, basic_scan_frequency_name, enhanced_scan_frequency_name, image_tag_mutability_exclusion_filter_type_name, image_tag_mutability_name, registry_policy_text, repository_filter_type_name, scanning_configuration_added, scanning_rule_added, upstream_registry_name, url_without_scheme};
pub(crate) use builder::{ImageScanningConfigurationBuilder, ScanningRuleBuilder};
