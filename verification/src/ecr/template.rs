//! How the module's resources appear in a CloudFormation template.
use crate::ecr::{EncryptionConfiguration, ImageScanningConfiguration, ImageTagMutabilityExclusionFilter, LifecyclePolicy, PublicRepository, PublicRepositoryProperties, PullThroughCacheRule, PullThroughCacheRuleProperties, PullTimeUpdateExclusion, PullTimeUpdateExclusionProperties, RegistryPolicy, RegistryPolicyProperties, RegistryScanningConfiguration, RegistryScanningConfigurationProperties, ReplicationConfiguration, ReplicationConfigurationProperties, ReplicationConfigurationReplicationConfiguration, ReplicationDestination, ReplicationRule, Repository, RepositoryCatalogData, RepositoryFilter, RepositoryProperties, Rule, ScanningRule, SigningConfiguration, SigningConfigurationProperties};
use crate::json::{member, opt_member, push_json, push_opt_json, JsonView, ToJson, Value};
use vstd::prelude::*;

verus! {

impl ToJson for PublicRepository {
    open(crate) spec fn as_json(&self) -> JsonView {
        JsonView::Object(
            Seq::empty()
                + member("Type"@, &self.resource_type)
                + member("Properties"@, &self.properties),
        )
    }

    fn to_json(&self) -> (r: Value) {
        let mut members: Vec<(String, Value)> = Vec::new();
        push_json(&mut members, "Type", &self.resource_type);
        push_json(&mut members, "Properties", &self.properties);
        Value::Object(members)
    }
}

impl ToJson for PublicRepositoryProperties {
    open(crate) spec fn as_json(&self) -> JsonView {
        JsonView::Object(
            Seq::empty()
                + opt_member("RepositoryCatalogData"@, &self.repository_catalog_data)
                + opt_member("RepositoryPolicyText"@, &self.repository_policy_text)
                + opt_member("RepositoryName"@, &self.repository_name),
        )
    }

    fn to_json(&self) -> (r: Value) {
        let mut members: Vec<(String, Value)> = Vec::new();
        push_opt_json(&mut members, "RepositoryCatalogData", &self.repository_catalog_data);
        push_opt_json(&mut members, "RepositoryPolicyText", &self.repository_policy_text);
        push_opt_json(&mut members, "RepositoryName", &self.repository_name);
        Value::Object(members)
    }
}

impl ToJson for RepositoryCatalogData {
    open(crate) spec fn as_json(&self) -> JsonView {
        JsonView::Object(
            Seq::empty()
                + opt_member("AboutText"@, &self.about_text)
                + opt_member("Architectures"@, &self.architectures)
                + opt_member("OperatingSystems"@, &self.operating_systems)
                + opt_member("RepositoryDescription"@, &self.repository_description)
                + opt_member("UsageText"@, &self.usage_text),
        )
    }

    fn to_json(&self) -> (r: Value) {
        let mut members: Vec<(String, Value)> = Vec::new();
        push_opt_json(&mut members, "AboutText", &self.about_text);
        push_opt_json(&mut members, "Architectures", &self.architectures);
        push_opt_json(&mut members, "OperatingSystems", &self.operating_systems);
        push_opt_json(&mut members, "RepositoryDescription", &self.repository_description);
        push_opt_json(&mut members, "UsageText", &self.usage_text);
        Value::Object(members)
    }
}

impl ToJson for PullThroughCacheRule {
    open(crate) spec fn as_json(&self) -> JsonView {
        JsonView::Object(
            Seq::empty()
                + member("Type"@, &self.resource_type)
                + member("Properties"@, &self.properties),
        )
    }

    fn to_json(&self) -> (r: Value) {
        let mut members: Vec<(String, Value)> = Vec::new();
        push_json(&mut members, "Type", &self.resource_type);
        push_json(&mut members, "Properties", &self.properties);
        Value::Object(members)
    }
}

impl ToJson for PullThroughCacheRuleProperties {
    open(crate) spec fn as_json(&self) -> JsonView {
        JsonView::Object(
            Seq::empty()
                + opt_member("UpstreamRepositoryPrefix"@, &self.upstream_repository_prefix)
                + opt_member("CredentialArn"@, &self.credential_arn)
                + opt_member("UpstreamRegistryUrl"@, &self.upstream_registry_url)
                + opt_member("CustomRoleArn"@, &self.custom_role_arn)
                + opt_member("EcrRepositoryPrefix"@, &self.ecr_repository_prefix)
                + opt_member("UpstreamRegistry"@, &self.upstream_registry),
        )
    }

    fn to_json(&self) -> (r: Value) {
        let mut members: Vec<(String, Value)> = Vec::new();
        push_opt_json(&mut members, "UpstreamRepositoryPrefix", &self.upstream_repository_prefix);
        push_opt_json(&mut members, "CredentialArn", &self.credential_arn);
        push_opt_json(&mut members, "UpstreamRegistryUrl", &self.upstream_registry_url);
        push_opt_json(&mut members, "CustomRoleArn", &self.custom_role_arn);
        push_opt_json(&mut members, "EcrRepositoryPrefix", &self.ecr_repository_prefix);
        push_opt_json(&mut members, "UpstreamRegistry", &self.upstream_registry);
        Value::Object(members)
    }
}

impl ToJson for PullTimeUpdateExclusion {
    open(crate) spec fn as_json(&self) -> JsonView {
        JsonView::Object(
            Seq::empty()
                + member("Type"@, &self.resource_type)
                + member("Properties"@, &self.properties),
        )
    }

    fn to_json(&self) -> (r: Value) {
        let mut members: Vec<(String, Value)> = Vec::new();
        push_json(&mut members, "Type", &self.resource_type);
        push_json(&mut members, "Properties", &self.properties);
        Value::Object(members)
    }
}

impl ToJson for PullTimeUpdateExclusionProperties {
    open(crate) spec fn as_json(&self) -> JsonView {
        JsonView::Object(Seq::empty() + member("PrincipalArn"@, &self.principal_arn))
    }

    fn to_json(&self) -> (r: Value) {
        let mut members: Vec<(String, Value)> = Vec::new();
        push_json(&mut members, "PrincipalArn", &self.principal_arn);
        Value::Object(members)
    }
}

impl ToJson for RegistryPolicy {
    open(crate) spec fn as_json(&self) -> JsonView {
        JsonView::Object(
            Seq::empty()
                + member("Type"@, &self.resource_type)
                + member("Properties"@, &self.properties),
        )
    }

    fn to_json(&self) -> (r: Value) {
        let mut members: Vec<(String, Value)> = Vec::new();
        push_json(&mut members, "Type", &self.resource_type);
        push_json(&mut members, "Properties", &self.properties);
        Value::Object(members)
    }
}

impl ToJson for RegistryPolicyProperties {
    open(crate) spec fn as_json(&self) -> JsonView {
        JsonView::Object(Seq::empty() + member("PolicyText"@, &self.policy_text))
    }

    fn to_json(&self) -> (r: Value) {
        let mut members: Vec<(String, Value)> = Vec::new();
        push_json(&mut members, "PolicyText", &self.policy_text);
        Value::Object(members)
    }
}

impl ToJson for RegistryScanningConfiguration {
    open(crate) spec fn as_json(&self) -> JsonView {
        JsonView::Object(
            Seq::empty()
                + member("Type"@, &self.resource_type)
                + member("Properties"@, &self.properties),
        )
    }

    fn to_json(&self) -> (r: Value) {
        let mut members: Vec<(String, Value)> = Vec::new();
        push_json(&mut members, "Type", &self.resource_type);
        push_json(&mut members, "Properties", &self.properties);
        Value::Object(members)
    }
}

impl ToJson for RegistryScanningConfigurationProperties {
    open(crate) spec fn as_json(&self) -> JsonView {
        JsonView::Object(
            Seq::empty()
                + member("ScanType"@, &self.scan_type)
                + member("Rules"@, &self.rules),
        )
    }

    fn to_json(&self) -> (r: Value) {
        let mut members: Vec<(String, Value)> = Vec::new();
        push_json(&mut members, "ScanType", &self.scan_type);
        push_json(&mut members, "Rules", &self.rules);
        Value::Object(members)
    }
}

impl ToJson for ScanningRule {
    open(crate) spec fn as_json(&self) -> JsonView {
        JsonView::Object(
            Seq::empty()
                + member("ScanFrequency"@, &self.scan_frequency)
                + member("RepositoryFilters"@, &self.repository_filters),
        )
    }

    fn to_json(&self) -> (r: Value) {
        let mut members: Vec<(String, Value)> = Vec::new();
        push_json(&mut members, "ScanFrequency", &self.scan_frequency);
        push_json(&mut members, "RepositoryFilters", &self.repository_filters);
        Value::Object(members)
    }
}

impl ToJson for ReplicationConfiguration {
    open(crate) spec fn as_json(&self) -> JsonView {
        JsonView::Object(
            Seq::empty()
                + member("Type"@, &self.resource_type)
                + member("Properties"@, &self.properties),
        )
    }

    fn to_json(&self) -> (r: Value) {
        let mut members: Vec<(String, Value)> = Vec::new();
        push_json(&mut members, "Type", &self.resource_type);
        push_json(&mut members, "Properties", &self.properties);
        Value::Object(members)
    }
}

impl ToJson for ReplicationConfigurationProperties {
    open(crate) spec fn as_json(&self) -> JsonView {
        JsonView::Object(Seq::empty() + member("ReplicationConfiguration"@, &self.replication_configuration))
    }

    fn to_json(&self) -> (r: Value) {
        let mut members: Vec<(String, Value)> = Vec::new();
        push_json(&mut members, "ReplicationConfiguration", &self.replication_configuration);
        Value::Object(members)
    }
}

impl ToJson for ReplicationConfigurationReplicationConfiguration {
    open(crate) spec fn as_json(&self) -> JsonView {
        JsonView::Object(Seq::empty() + member("Rules"@, &self.rules))
    }

    fn to_json(&self) -> (r: Value) {
        let mut members: Vec<(String, Value)> = Vec::new();
        push_json(&mut members, "Rules", &self.rules);
        Value::Object(members)
    }
}

impl ToJson for ReplicationRule {
    open(crate) spec fn as_json(&self) -> JsonView {
        JsonView::Object(
            Seq::empty()
                + member("Destinations"@, &self.destinations)
                + opt_member("RepositoryFilters"@, &self.repository_filters),
        )
    }

    fn to_json(&self) -> (r: Value) {
        let mut members: Vec<(String, Value)> = Vec::new();
        push_json(&mut members, "Destinations", &self.destinations);
        push_opt_json(&mut members, "RepositoryFilters", &self.repository_filters);
        Value::Object(members)
    }
}

impl ToJson for ReplicationDestination {
    open(crate) spec fn as_json(&self) -> JsonView {
        JsonView::Object(
            Seq::empty()
                + member("Region"@, &self.region)
                + member("RegistryId"@, &self.registry_id),
        )
    }

    fn to_json(&self) -> (r: Value) {
        let mut members: Vec<(String, Value)> = Vec::new();
        push_json(&mut members, "Region", &self.region);
        push_json(&mut members, "RegistryId", &self.registry_id);
        Value::Object(members)
    }
}

impl ToJson for Repository {
    open(crate) spec fn as_json(&self) -> JsonView {
        JsonView::Object(
            Seq::empty()
                + member("Type"@, &self.resource_type)
                + member("Properties"@, &self.properties),
        )
    }

    fn to_json(&self) -> (r: Value) {
        let mut members: Vec<(String, Value)> = Vec::new();
        push_json(&mut members, "Type", &self.resource_type);
        push_json(&mut members, "Properties", &self.properties);
        Value::Object(members)
    }
}

impl ToJson for RepositoryProperties {
    open(crate) spec fn as_json(&self) -> JsonView {
        JsonView::Object(
            Seq::empty()
                + opt_member("ImageTagMutability"@, &self.image_tag_mutability)
                + opt_member("RepositoryPolicyText"@, &self.repository_policy_text)
                + opt_member("ImageTagMutabilityExclusionFilters"@, &self.image_tag_mutability_exclusion_filters)
                + opt_member("EncryptionConfiguration"@, &self.encryption_configuration)
                + opt_member("LifecyclePolicy"@, &self.lifecycle_policy)
                + opt_member("EmptyOnDelete"@, &self.empty_on_delete)
                + opt_member("ImageScanningConfiguration"@, &self.image_scanning_configuration)
                + opt_member("RepositoryName"@, &self.repository_name),
        )
    }

    fn to_json(&self) -> (r: Value) {
        let mut members: Vec<(String, Value)> = Vec::new();
        push_opt_json(&mut members, "ImageTagMutability", &self.image_tag_mutability);
        push_opt_json(&mut members, "RepositoryPolicyText", &self.repository_policy_text);
        push_opt_json(&mut members, "ImageTagMutabilityExclusionFilters", &self.image_tag_mutability_exclusion_filters);
        push_opt_json(&mut members, "EncryptionConfiguration", &self.encryption_configuration);
        push_opt_json(&mut members, "LifecyclePolicy", &self.lifecycle_policy);
        push_opt_json(&mut members, "EmptyOnDelete", &self.empty_on_delete);
        push_opt_json(&mut members, "ImageScanningConfiguration", &self.image_scanning_configuration);
        push_opt_json(&mut members, "RepositoryName", &self.repository_name);
        Value::Object(members)
    }
}

impl ToJson for ImageTagMutabilityExclusionFilter {
    open(crate) spec fn as_json(&self) -> JsonView {
        JsonView::Object(
            Seq::empty()
                + member("ImageTagMutabilityExclusionFilterValue"@, &self.image_tag_mutability_exclusion_filter_value)
                + member("ImageTagMutabilityExclusionFilterType"@, &self.image_tag_mutability_exclusion_filter_type),
        )
    }

    fn to_json(&self) -> (r: Value) {
        let mut members: Vec<(String, Value)> = Vec::new();
        push_json(&mut members, "ImageTagMutabilityExclusionFilterValue", &self.image_tag_mutability_exclusion_filter_value);
        push_json(&mut members, "ImageTagMutabilityExclusionFilterType", &self.image_tag_mutability_exclusion_filter_type);
        Value::Object(members)
    }
}

impl ToJson for EncryptionConfiguration {
    open(crate) spec fn as_json(&self) -> JsonView {
        JsonView::Object(
            Seq::empty()
                + member("EncryptionType"@, &self.encryption_type)
                + opt_member("KmsKey"@, &self.kms_key),
        )
    }

    fn to_json(&self) -> (r: Value) {
        let mut members: Vec<(String, Value)> = Vec::new();
        push_json(&mut members, "EncryptionType", &self.encryption_type);
        push_opt_json(&mut members, "KmsKey", &self.kms_key);
        Value::Object(members)
    }
}

impl ToJson for LifecyclePolicy {
    open(crate) spec fn as_json(&self) -> JsonView {
        JsonView::Object(
            Seq::empty()
                + opt_member("RegistryId"@, &self.registry_id)
                + opt_member("LifecyclePolicyText"@, &self.lifecycle_policy_text),
        )
    }

    fn to_json(&self) -> (r: Value) {
        let mut members: Vec<(String, Value)> = Vec::new();
        push_opt_json(&mut members, "RegistryId", &self.registry_id);
        push_opt_json(&mut members, "LifecyclePolicyText", &self.lifecycle_policy_text);
        Value::Object(members)
    }
}

impl ToJson for ImageScanningConfiguration {
    open(crate) spec fn as_json(&self) -> JsonView {
        JsonView::Object(Seq::empty() + opt_member("ScanOnPush"@, &self.scan_on_push))
    }

    fn to_json(&self) -> (r: Value) {
        let mut members: Vec<(String, Value)> = Vec::new();
        push_opt_json(&mut members, "ScanOnPush", &self.scan_on_push);
        Value::Object(members)
    }
}

impl ToJson for SigningConfiguration {
    open(crate) spec fn as_json(&self) -> JsonView {
        JsonView::Object(
            Seq::empty()
                + member("Type"@, &self.resource_type)
                + member("Properties"@, &self.properties),
        )
    }

    fn to_json(&self) -> (r: Value) {
        let mut members: Vec<(String, Value)> = Vec::new();
        push_json(&mut members, "Type", &self.resource_type);
        push_json(&mut members, "Properties", &self.properties);
        Value::Object(members)
    }
}

impl ToJson for SigningConfigurationProperties {
    open(crate) spec fn as_json(&self) -> JsonView {
        JsonView::Object(Seq::empty() + member("Rules"@, &self.rules))
    }

    fn to_json(&self) -> (r: Value) {
        let mut members: Vec<(String, Value)> = Vec::new();
        push_json(&mut members, "Rules", &self.rules);
        Value::Object(members)
    }
}

impl ToJson for Rule {
    open(crate) spec fn as_json(&self) -> JsonView {
        JsonView::Object(
            Seq::empty()
                + member("SigningProfileArn"@, &self.signing_profile_arn)
                + opt_member("RepositoryFilters"@, &self.repository_filters),
        )
    }

    fn to_json(&self) -> (r: Value) {
        let mut members: Vec<(String, Value)> = Vec::new();
        push_json(&mut members, "SigningProfileArn", &self.signing_profile_arn);
        push_opt_json(&mut members, "RepositoryFilters", &self.repository_filters);
        Value::Object(members)
    }
}

impl ToJson for RepositoryFilter {
    open(crate) spec fn as_json(&self) -> JsonView {
        JsonView::Object(
            Seq::empty()
                + member("Filter"@, &self.filter)
                + member("FilterType"@, &self.filter_type),
        )
    }

    fn to_json(&self) -> (r: Value) {
        let mut members: Vec<(String, Value)> = Vec::new();
        push_json(&mut members, "Filter", &self.filter);
        push_json(&mut members, "FilterType", &self.filter_type);
        Value::Object(members)
    }
}

} // verus!
