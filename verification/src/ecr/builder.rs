use crate::ecr::{
    EncryptionConfiguration, EncryptionConfigurationView, ImageScanningConfiguration, ImageScanningConfigurationView,
    ImageTagMutabilityExclusionFilter, ImageTagMutabilityExclusionFilterView, LifecyclePolicy, LifecyclePolicyView,
    PublicRepository, PublicRepositoryProperties, PublicRepositoryPropertiesView, PublicRepositoryRef,
    PullThroughCacheRule, PullThroughCacheRuleProperties, PullThroughCacheRulePropertiesView, PullThroughCacheRuleRef,
    PullTimeUpdateExclusion, PullTimeUpdateExclusionProperties, PullTimeUpdateExclusionPropertiesView,
    PullTimeUpdateExclusionRef, RegistryPolicy, RegistryPolicyProperties, RegistryPolicyRef,
    RegistryScanningConfiguration, RegistryScanningConfigurationProperties, RegistryScanningConfigurationPropertiesView,
    RegistryScanningConfigurationRef, ReplicationConfiguration, ReplicationConfigurationProperties,
    ReplicationConfigurationRef, ReplicationConfigurationReplicationConfiguration, ReplicationDestination,
    ReplicationDestinationView, ReplicationRule, ReplicationRuleView, Repository, RepositoryCatalogData,
    RepositoryCatalogDataView, RepositoryFilter, RepositoryFilterView, RepositoryProperties, RepositoryRef, Rule, RuleView,
    ScanningRule, ScanningRuleView, SigningConfiguration, SigningConfigurationProperties, SigningConfigurationRef,
};
use crate::iam::{RoleRef, Statement};
use crate::json::{as_json_all, member_views, JsonView, ToJson, Value};
use crate::kms::KeyRef;
use crate::secretsmanager::SecretRef;
use crate::shared::{arn_json, Id};
use crate::stack::{is_generated_id, Resource, StackBuilder, StackBuilderView};
use crate::text::{replace_seq, views};
use crate::wrappers::{
    EcrRepositoryName, ImageTagMutabilityExclusionFilterValue, RepoAboutText, RepoDescription, RepoPrefix, URL,
};
use std::marker::PhantomData;
use vstd::prelude::*;

verus! {

/// Builder for public ECR repositories.
pub struct PublicRepositoryBuilder {
    pub(crate) id: Id,
    pub(crate) repository_catalog_data: Option<RepositoryCatalogData>,
    pub(crate) repository_policy_text: Option<Value>,
    pub(crate) repository_name: Option<String>,
}

/// What a [`PublicRepositoryBuilder`] holds.
pub struct PublicRepositoryBuilderView {
    pub id: Id,
    pub repository_catalog_data: Option<RepositoryCatalogData>,
    pub repository_policy_text: Option<Value>,
    pub repository_name: Option<String>,
}

impl View for PublicRepositoryBuilder {
    type V = PublicRepositoryBuilderView;

    open(crate) spec fn view(&self) -> PublicRepositoryBuilderView {
        PublicRepositoryBuilderView { id: self.id, repository_catalog_data: self.repository_catalog_data, repository_policy_text: self.repository_policy_text, repository_name: self.repository_name }
    }
}

impl PublicRepositoryBuilder {
    pub fn new(id: &str) -> (r: Self)
        ensures
            r@.id.0@ == id@,
            r@.repository_catalog_data is None,
            r@.repository_policy_text is None,
            r@.repository_name is None,
    {
        Self {
            id: Id(String::from_str(id)),
            repository_catalog_data: None,
            repository_policy_text: None,
            repository_name: None,
        }
    }

    pub fn repository_catalog_data(self, repository_catalog_data: RepositoryCatalogData) -> (r: Self)
        ensures
            r@ == (PublicRepositoryBuilderView { repository_catalog_data: Some(repository_catalog_data), ..self@ }),
    {
        Self { repository_catalog_data: Some(repository_catalog_data), ..self }
    }

    pub fn repository_policy_text(self, repository_policy_text: Value) -> (r: Self)
        ensures
            r@ == (PublicRepositoryBuilderView { repository_policy_text: Some(repository_policy_text), ..self@ }),
    {
        Self { repository_policy_text: Some(repository_policy_text), ..self }
    }

    pub fn repository_name(self, repository_name: EcrRepositoryName) -> (r: Self)
        ensures
            r@ == (PublicRepositoryBuilderView { repository_name: Some(repository_name.0), ..self@ }),
    {
        Self { repository_name: Some(repository_name.0), ..self }
    }

    /// Adds the repository to the stack.
    pub fn build(self, stack_builder: &mut StackBuilder) -> (r: PublicRepositoryRef)
        ensures
            final(stack_builder)@ == (StackBuilderView {
                resources: old(stack_builder)@.resources.push(final(stack_builder)@.resources.last()),
                ..old(stack_builder)@
            }),
            final(stack_builder)@.resources.last() matches Resource::PublicRepository(x) && {
                &&& x@.id == self@.id
                &&& x@.resource_id@ == r@.resource_id
                &&& x@.resource_type@ == "AWS::ECR::PublicRepository"@
                &&& x@.properties@ == (PublicRepositoryPropertiesView { repository_catalog_data: self@.repository_catalog_data, repository_policy_text: self@.repository_policy_text, repository_name: self@.repository_name })
            },
            is_generated_id(r@.resource_id, "PublicRepository"@),
            r@.ref_name is None,
            r@.arn_value is None,
    {
        let resource_id = Resource::generate_id("PublicRepository");
        stack_builder.add_resource(
            Resource::PublicRepository(
                PublicRepository {
                    id: self.id,
                    resource_id: resource_id.clone(),
                    resource_type: String::from_str("AWS::ECR::PublicRepository"),
                    properties: PublicRepositoryProperties {
                        repository_catalog_data: self.repository_catalog_data,
                        repository_policy_text: self.repository_policy_text,
                        repository_name: self.repository_name,
                    },
                },
            ),
        );
        PublicRepositoryRef::internal_new(resource_id)
    }
}

/// Builder for what a public repository says about itself.
pub struct RepositoryCatalogDataBuilder {
    pub(crate) about_text: Option<String>,
    pub(crate) architectures: Option<Vec<String>>,
    pub(crate) operating_systems: Option<Vec<String>>,
    pub(crate) repository_description: Option<String>,
    pub(crate) usage_text: Option<String>,
}

impl View for RepositoryCatalogDataBuilder {
    type V = RepositoryCatalogDataView;

    open(crate) spec fn view(&self) -> RepositoryCatalogDataView {
        RepositoryCatalogDataView { about_text: self.about_text, architectures: self.architectures, operating_systems: self.operating_systems, repository_description: self.repository_description, usage_text: self.usage_text }
    }
}

impl RepositoryCatalogDataBuilder {
    pub fn new() -> (r: Self)
        ensures
            r@.about_text is None,
            r@.architectures is None,
            r@.operating_systems is None,
            r@.repository_description is None,
            r@.usage_text is None,
    {
        Self {
            about_text: None,
            architectures: None,
            operating_systems: None,
            repository_description: None,
            usage_text: None,
        }
    }

    pub fn about_text(self, about_text: RepoAboutText) -> (r: Self)
        ensures
            r@ == (RepositoryCatalogDataView { about_text: Some(about_text.0), ..self@ }),
    {
        Self { about_text: Some(about_text.0), ..self }
    }

    pub fn architectures(self, architectures: Vec<String>) -> (r: Self)
        ensures
            r@ == (RepositoryCatalogDataView { architectures: Some(architectures), ..self@ }),
    {
        Self { architectures: Some(architectures), ..self }
    }

    pub fn operating_systems(self, operating_systems: Vec<String>) -> (r: Self)
        ensures
            r@ == (RepositoryCatalogDataView { operating_systems: Some(operating_systems), ..self@ }),
    {
        Self { operating_systems: Some(operating_systems), ..self }
    }

    pub fn repository_description(self, repository_description: RepoDescription) -> (r: Self)
        ensures
            r@ == (RepositoryCatalogDataView { repository_description: Some(repository_description.0), ..self@ }),
    {
        Self { repository_description: Some(repository_description.0), ..self }
    }

    pub fn usage_text(self, usage_text: RepoAboutText) -> (r: Self)
        ensures
            r@ == (RepositoryCatalogDataView { usage_text: Some(usage_text.0), ..self@ }),
    {
        Self { usage_text: Some(usage_text.0), ..self }
    }

    pub fn build(self) -> (r: RepositoryCatalogData)
        ensures
            r@ == (RepositoryCatalogDataView { about_text: self@.about_text, architectures: self@.architectures, operating_systems: self@.operating_systems, repository_description: self@.repository_description, usage_text: self@.usage_text }),
    {
        RepositoryCatalogData {
            about_text: self.about_text,
            architectures: self.architectures,
            operating_systems: self.operating_systems,
            repository_description: self.repository_description,
            usage_text: self.usage_text,
        }
    }
}

/// A registry whose images a pull through cache rule caches.
#[derive(Debug, Clone)]
pub enum UpstreamRegistry {
    Ecr,
    EcrPublic,
    Quay,
    K8s,
    DockerHub,
    GithubContainerRegistry,
    AzureContainerRegistry,
    GitlabContainerRegistry,
}

/// How CloudFormation writes a [`UpstreamRegistry`].
pub open spec fn upstream_registry_name(v: UpstreamRegistry) -> Seq<char> {
    match v {
        UpstreamRegistry::Ecr => "ecr"@,
        UpstreamRegistry::EcrPublic => "ecr-public"@,
        UpstreamRegistry::Quay => "quay"@,
        UpstreamRegistry::K8s => "k8s"@,
        UpstreamRegistry::DockerHub => "docker-hub"@,
        UpstreamRegistry::GithubContainerRegistry => "github-container-registry"@,
        UpstreamRegistry::AzureContainerRegistry => "azure-container-registry"@,
        UpstreamRegistry::GitlabContainerRegistry => "gitlab-container-registry"@,
    }
}

impl vstd::std_specs::convert::FromSpecImpl<UpstreamRegistry> for String {
    open spec fn obeys_from_spec() -> bool {
        false
    }

    open spec fn from_spec(v: UpstreamRegistry) -> String {
        vstd::pervasive::arbitrary()
    }
}

impl From<UpstreamRegistry> for String {
    fn from(value: UpstreamRegistry) -> (r: String)
        ensures
            r@ == upstream_registry_name(value),
    {
        match value {
            UpstreamRegistry::Ecr => String::from_str("ecr"),
            UpstreamRegistry::EcrPublic => String::from_str("ecr-public"),
            UpstreamRegistry::Quay => String::from_str("quay"),
            UpstreamRegistry::K8s => String::from_str("k8s"),
            UpstreamRegistry::DockerHub => String::from_str("docker-hub"),
            UpstreamRegistry::GithubContainerRegistry => String::from_str("github-container-registry"),
            UpstreamRegistry::AzureContainerRegistry => String::from_str("azure-container-registry"),
            UpstreamRegistry::GitlabContainerRegistry => String::from_str("gitlab-container-registry"),
        }
    }
}

/// Builder for rules that cache the images of an upstream registry in ECR.
pub struct PullThroughCacheRuleBuilder {
    pub(crate) id: Id,
    pub(crate) upstream_repository_prefix: Option<String>,
    pub(crate) credential_arn: Option<Value>,
    pub(crate) upstream_registry_url: Option<String>,
    pub(crate) custom_role_arn: Option<Value>,
    pub(crate) ecr_repository_prefix: Option<String>,
    pub(crate) upstream_registry: Option<String>,
}

/// What a [`PullThroughCacheRuleBuilder`] holds.
pub struct PullThroughCacheRuleBuilderView {
    pub id: Id,
    pub upstream_repository_prefix: Option<String>,
    pub credential_arn: Option<Value>,
    pub upstream_registry_url: Option<String>,
    pub custom_role_arn: Option<Value>,
    pub ecr_repository_prefix: Option<String>,
    pub upstream_registry: Option<String>,
}

impl View for PullThroughCacheRuleBuilder {
    type V = PullThroughCacheRuleBuilderView;

    open(crate) spec fn view(&self) -> PullThroughCacheRuleBuilderView {
        PullThroughCacheRuleBuilderView { id: self.id, upstream_repository_prefix: self.upstream_repository_prefix, credential_arn: self.credential_arn, upstream_registry_url: self.upstream_registry_url, custom_role_arn: self.custom_role_arn, ecr_repository_prefix: self.ecr_repository_prefix, upstream_registry: self.upstream_registry }
    }
}

impl PullThroughCacheRuleBuilder {
    pub fn new(id: &str) -> (r: Self)
        ensures
            r@.id.0@ == id@,
            r@.upstream_repository_prefix is None,
            r@.credential_arn is None,
            r@.upstream_registry_url is None,
            r@.custom_role_arn is None,
            r@.ecr_repository_prefix is None,
            r@.upstream_registry is None,
    {
        Self {
            id: Id(String::from_str(id)),
            upstream_repository_prefix: None,
            credential_arn: None,
            upstream_registry_url: None,
            custom_role_arn: None,
            ecr_repository_prefix: None,
            upstream_registry: None,
        }
    }

    pub fn upstream_repository_prefix(self, upstream_repository_prefix: RepoPrefix) -> (r: Self)
        ensures
            r@ == (PullThroughCacheRuleBuilderView { upstream_repository_prefix: Some(upstream_repository_prefix.0), ..self@ }),
    {
        Self { upstream_repository_prefix: Some(upstream_repository_prefix.0), ..self }
    }

    /// The secret that holds the credentials for the upstream registry, by its ARN.
    pub fn credential_arn(self, credentials: &SecretRef) -> (r: Self)
        ensures
            r@ == (PullThroughCacheRuleBuilderView { credential_arn: r@.credential_arn, ..self@ }),
            r@.credential_arn matches Some(a) && a@ == arn_json(credentials@.resource_id, credentials@.arn_value),
    {
        Self { credential_arn: Some(credentials.get_arn()), ..self }
    }

    /// The URL of the upstream registry; a leading `https://` or `http://` is left out, as the registry wants it.
    pub fn upstream_registry_url(self, upstream_registry_url: URL) -> (r: Self)
        ensures
            r@ == (PullThroughCacheRuleBuilderView { upstream_registry_url: r@.upstream_registry_url, ..self@ }),
            r@.upstream_registry_url matches Some(u) && u@ == url_without_scheme(upstream_registry_url.0@),
    {
        Self { upstream_registry_url: Some(strip_scheme(upstream_registry_url.0.as_str())), ..self }
    }

    pub fn custom_role_arn(self, custom_role_arn: &RoleRef) -> (r: Self)
        ensures
            r@ == (PullThroughCacheRuleBuilderView { custom_role_arn: r@.custom_role_arn, ..self@ }),
            r@.custom_role_arn matches Some(a) && a@ == arn_json(custom_role_arn@.resource_id, custom_role_arn@.arn_value),
    {
        Self { custom_role_arn: Some(custom_role_arn.get_arn()), ..self }
    }

    pub fn ecr_repository_prefix(self, ecr_repository_prefix: RepoPrefix) -> (r: Self)
        ensures
            r@ == (PullThroughCacheRuleBuilderView { ecr_repository_prefix: Some(ecr_repository_prefix.0), ..self@ }),
    {
        Self { ecr_repository_prefix: Some(ecr_repository_prefix.0), ..self }
    }

    pub fn upstream_registry(self, upstream_registry: UpstreamRegistry) -> (r: Self)
        ensures
            r@ == (PullThroughCacheRuleBuilderView { upstream_registry: r@.upstream_registry, ..self@ }),
            r@.upstream_registry matches Some(u) && u@ == upstream_registry_name(upstream_registry),
    {
        Self { upstream_registry: Some(upstream_registry.into()), ..self }
    }

    /// Adds the rule to the stack.
    pub fn build(self, stack_builder: &mut StackBuilder) -> (r: PullThroughCacheRuleRef)
        ensures
            final(stack_builder)@ == (StackBuilderView {
                resources: old(stack_builder)@.resources.push(final(stack_builder)@.resources.last()),
                ..old(stack_builder)@
            }),
            final(stack_builder)@.resources.last() matches Resource::PullThroughCacheRule(x) && {
                &&& x@.id == self@.id
                &&& x@.resource_id@ == r@.resource_id
                &&& x@.resource_type@ == "AWS::ECR::PullThroughCacheRule"@
                &&& x@.properties@ == (PullThroughCacheRulePropertiesView { upstream_repository_prefix: self@.upstream_repository_prefix, credential_arn: self@.credential_arn, upstream_registry_url: self@.upstream_registry_url, custom_role_arn: self@.custom_role_arn, ecr_repository_prefix: self@.ecr_repository_prefix, upstream_registry: self@.upstream_registry })
            },
            is_generated_id(r@.resource_id, "PullThroughCacheRule"@),
            r@.ref_name is None,
            r@.arn_value is None,
    {
        let resource_id = Resource::generate_id("PullThroughCacheRule");
        stack_builder.add_resource(
            Resource::PullThroughCacheRule(
                PullThroughCacheRule {
                    id: self.id,
                    resource_id: resource_id.clone(),
                    resource_type: String::from_str("AWS::ECR::PullThroughCacheRule"),
                    properties: PullThroughCacheRuleProperties {
                        upstream_repository_prefix: self.upstream_repository_prefix,
                        credential_arn: self.credential_arn,
                        upstream_registry_url: self.upstream_registry_url,
                        custom_role_arn: self.custom_role_arn,
                        ecr_repository_prefix: self.ecr_repository_prefix,
                        upstream_registry: self.upstream_registry,
                    },
                },
            ),
        );
        PullThroughCacheRuleRef::internal_new(resource_id)
    }
}
/// The URL with every `https://`, and then every `http://`, taken out.
pub open spec fn url_without_scheme(url: Seq<char>) -> Seq<char> {
    replace_seq(replace_seq(url, "https://"@, ""@), "http://"@, ""@)
}

fn strip_scheme(url: &str) -> (r: String)
    ensures
        r@ == url_without_scheme(url@),
{
    let without_https = crate::text::replace_all(url, "https://", "");
    crate::text::replace_all(without_https.as_str(), "http://", "")
}

/// Who a pull time update exclusion is for.
pub enum PullTimeUpdateExclusionPrincipals<'a> {
    Role(&'a RoleRef),
}

/// Builder for principals whose image pulls do not update the pull time of images.
pub struct PullTimeUpdateExclusionBuilder {
    pub(crate) id: Id,
    pub(crate) principal_arn: Value,
}

/// What a [`PullTimeUpdateExclusionBuilder`] holds.
pub struct PullTimeUpdateExclusionBuilderView {
    pub id: Id,
    pub principal_arn: Value,
}

impl View for PullTimeUpdateExclusionBuilder {
    type V = PullTimeUpdateExclusionBuilderView;

    open(crate) spec fn view(&self) -> PullTimeUpdateExclusionBuilderView {
        PullTimeUpdateExclusionBuilderView { id: self.id, principal_arn: self.principal_arn }
    }
}

impl PullTimeUpdateExclusionBuilder {
    pub fn new(id: &str, principal: PullTimeUpdateExclusionPrincipals) -> (r: Self)
        ensures
            r@.id.0@ == id@,
            r@.principal_arn@ == match principal {
                PullTimeUpdateExclusionPrincipals::Role(role) => arn_json(role@.resource_id, role@.arn_value),
            },
    {
        Self {
            id: Id(String::from_str(id)),
            principal_arn: match principal {
                PullTimeUpdateExclusionPrincipals::Role(role) => role.get_arn(),
            },
        }
    }

    /// Adds the exclusion to the stack.
    pub fn build(self, stack_builder: &mut StackBuilder) -> (r: PullTimeUpdateExclusionRef)
        ensures
            final(stack_builder)@ == (StackBuilderView {
                resources: old(stack_builder)@.resources.push(final(stack_builder)@.resources.last()),
                ..old(stack_builder)@
            }),
            final(stack_builder)@.resources.last() matches Resource::PullTimeUpdateExclusion(x) && {
                &&& x@.id == self@.id
                &&& x@.resource_id@ == r@.resource_id
                &&& x@.resource_type@ == "AWS::ECR::PullTimeUpdateExclusion"@
                &&& x@.properties@ == (PullTimeUpdateExclusionPropertiesView { principal_arn: self@.principal_arn })
            },
            is_generated_id(r@.resource_id, "PullTimeUpdateExclusion"@),
            r@.ref_name is None,
            r@.arn_value is None,
    {
        let resource_id = Resource::generate_id("PullTimeUpdateExclusion");
        stack_builder.add_resource(
            Resource::PullTimeUpdateExclusion(
                PullTimeUpdateExclusion {
                    id: self.id,
                    resource_id: resource_id.clone(),
                    resource_type: String::from_str("AWS::ECR::PullTimeUpdateExclusion"),
                    properties: PullTimeUpdateExclusionProperties {
                        principal_arn: self.principal_arn,
                    },
                },
            ),
        );
        PullTimeUpdateExclusionRef::internal_new(resource_id)
    }
}

/// The policy text of a registry with the statements `statements`:
/// `{"Version": "2012-10-17", "Statement": [..]}`.
pub open spec fn registry_policy_text(statements: Seq<Statement>) -> JsonView {
    JsonView::Object(
        seq![
            ("Version"@, JsonView::String(crate::iam::policy_version())),
            ("Statement"@, JsonView::Array(as_json_all(statements))),
        ],
    )
}

/// Builder for the policy of an ECR registry.
pub struct RegistryPolicyBuilder {
    pub(crate) id: Id,
    pub(crate) statements: Vec<Statement>,
}

/// What a [`RegistryPolicyBuilder`] holds.
pub struct RegistryPolicyBuilderView {
    pub id: Id,
    pub statements: Vec<Statement>,
}

impl View for RegistryPolicyBuilder {
    type V = RegistryPolicyBuilderView;

    open(crate) spec fn view(&self) -> RegistryPolicyBuilderView {
        RegistryPolicyBuilderView { id: self.id, statements: self.statements }
    }
}

impl RegistryPolicyBuilder {
    pub fn new(id: &str, statements: Vec<Statement>) -> (r: Self)
        ensures
            r@.id.0@ == id@,
            r@.statements == statements,
    {
        Self { id: Id(String::from_str(id)), statements }
    }

    /// Adds the policy to the stack, with its statements as the policy text.
    pub fn build(self, stack_builder: &mut StackBuilder) -> (r: RegistryPolicyRef)
        ensures
            final(stack_builder)@ == (StackBuilderView {
                resources: old(stack_builder)@.resources.push(final(stack_builder)@.resources.last()),
                ..old(stack_builder)@
            }),
            final(stack_builder)@.resources.last() matches Resource::RegistryPolicy(p) && {
                &&& p@.id == self@.id
                &&& p@.resource_id@ == r@.resource_id
                &&& p@.resource_type@ == "AWS::ECR::RegistryPolicy"@
                &&& p@.properties@.policy_text@ == registry_policy_text(self@.statements@)
            },
            is_generated_id(r@.resource_id, "RegistryPolicy"@),
            r@.ref_name is None,
            r@.arn_value is None,
    {
        let resource_id = Resource::generate_id("RegistryPolicy");
        let ghost statements = self.statements@;
        let statement_values = self.statements.to_json();
        let mut members: Vec<(String, Value)> = Vec::new();
        members.push((String::from_str("Version"), Value::String(String::from_str("2012-10-17"))));
        members.push((String::from_str("Statement"), statement_values));
        proof {
            reveal_with_fuel(member_views, 3);
            assert(members@.drop_last().drop_last() =~= Seq::<(String, Value)>::empty());
            assert(member_views(members@) =~= seq![
                ("Version"@, JsonView::String(crate::iam::policy_version())),
                ("Statement"@, JsonView::Array(as_json_all(statements))),
            ]);
        }
        let policy_text = Value::Object(members);
        stack_builder.add_resource(
            Resource::RegistryPolicy(
                RegistryPolicy {
                    id: self.id,
                    resource_id: resource_id.clone(),
                    resource_type: String::from_str("AWS::ECR::RegistryPolicy"),
                    properties: RegistryPolicyProperties { policy_text },
                },
            ),
        );
        RegistryPolicyRef::internal_new(resource_id)
    }
}

/// When a basic scan runs.
#[derive(Debug, Clone)]
pub enum BasicScanFrequency {
    Manual,
    OnPush,
}

/// How CloudFormation writes a [`BasicScanFrequency`].
pub open spec fn basic_scan_frequency_name(v: BasicScanFrequency) -> Seq<char> {
    match v {
        BasicScanFrequency::Manual => "MANUAL"@,
        BasicScanFrequency::OnPush => "SCAN_ON_PUSH"@,
    }
}

impl vstd::std_specs::convert::FromSpecImpl<BasicScanFrequency> for String {
    open spec fn obeys_from_spec() -> bool {
        false
    }

    open spec fn from_spec(v: BasicScanFrequency) -> String {
        vstd::pervasive::arbitrary()
    }
}

impl From<BasicScanFrequency> for String {
    fn from(value: BasicScanFrequency) -> (r: String)
        ensures
            r@ == basic_scan_frequency_name(value),
    {
        match value {
            BasicScanFrequency::Manual => String::from_str("MANUAL"),
            BasicScanFrequency::OnPush => String::from_str("SCAN_ON_PUSH"),
        }
    }
}

/// When an enhanced scan runs.
#[derive(Debug, Clone)]
pub enum EnhancedScanFrequency {
    OnPush,
    Continuous,
}

/// How CloudFormation writes a [`EnhancedScanFrequency`].
pub open spec fn enhanced_scan_frequency_name(v: EnhancedScanFrequency) -> Seq<char> {
    match v {
        EnhancedScanFrequency::OnPush => "SCAN_ON_PUSH"@,
        EnhancedScanFrequency::Continuous => "CONTINUOUS_SCAN"@,
    }
}

impl vstd::std_specs::convert::FromSpecImpl<EnhancedScanFrequency> for String {
    open spec fn obeys_from_spec() -> bool {
        false
    }

    open spec fn from_spec(v: EnhancedScanFrequency) -> String {
        vstd::pervasive::arbitrary()
    }
}

impl From<EnhancedScanFrequency> for String {
    fn from(value: EnhancedScanFrequency) -> (r: String)
        ensures
            r@ == enhanced_scan_frequency_name(value),
    {
        match value {
            EnhancedScanFrequency::OnPush => String::from_str("SCAN_ON_PUSH"),
            EnhancedScanFrequency::Continuous => String::from_str("CONTINUOUS_SCAN"),
        }
    }
}

/// The states of a [`RegistryScanningConfigurationBuilder`]: basic or enhanced scans.
pub trait RegistryScanningConfigurationState {}

pub struct RegistryScanningConfigurationStartState {}

pub struct RegistryScanningConfigurationBasicState {}

pub struct RegistryScanningConfigurationEnhancedState {}

impl RegistryScanningConfigurationState for RegistryScanningConfigurationStartState {}

impl RegistryScanningConfigurationState for RegistryScanningConfigurationBasicState {}

impl RegistryScanningConfigurationState for RegistryScanningConfigurationEnhancedState {}

/// Builder for how the images of an ECR registry are scanned.
pub struct RegistryScanningConfigurationBuilder<T: RegistryScanningConfigurationState> {
    pub(crate) phantom_data: PhantomData<T>,
    pub(crate) id: Id,
    pub(crate) scan_type: String,
    pub(crate) rules: Vec<ScanningRule>,
}

/// What a [`RegistryScanningConfigurationBuilder`] holds.
pub struct RegistryScanningConfigurationBuilderView {
    pub id: Id,
    pub scan_type: String,
    pub rules: Seq<ScanningRule>,
}

impl<T: RegistryScanningConfigurationState> View for RegistryScanningConfigurationBuilder<T> {
    type V = RegistryScanningConfigurationBuilderView;

    open(crate) spec fn view(&self) -> RegistryScanningConfigurationBuilderView {
        RegistryScanningConfigurationBuilderView { id: self.id, scan_type: self.scan_type, rules: self.rules@ }
    }
}

/// `r` is `b` with one more scanning rule, of frequency `frequency` and with the filters `filters`.
pub open spec fn scanning_rule_added(
    r: RegistryScanningConfigurationBuilderView,
    b: RegistryScanningConfigurationBuilderView,
    frequency: Seq<char>,
    filters: Vec<RepositoryFilter>,
) -> bool {
    &&& r.id == b.id
    &&& r.scan_type == b.scan_type
    &&& r.rules.len() == b.rules.len() + 1
    &&& r.rules.drop_last() == b.rules
    &&& r.rules.last()@.scan_frequency@ == frequency
    &&& r.rules.last()@.repository_filters == filters
}

impl RegistryScanningConfigurationBuilder<RegistryScanningConfigurationStartState> {
    /// A configuration with basic scans.
    pub fn new_basic_scan_type(id: &str) -> (r: RegistryScanningConfigurationBuilder<RegistryScanningConfigurationBasicState>)
        ensures
            r@.id.0@ == id@,
            r@.scan_type@ == "BASIC"@,
            r@.rules.len() == 0,
    {
        RegistryScanningConfigurationBuilder {
            phantom_data: PhantomData,
            id: Id(String::from_str(id)),
            scan_type: String::from_str("BASIC"),
            rules: Vec::new(),
        }
    }

    /// A configuration with enhanced scans.
    pub fn new_enhanced_scan_type(id: &str) -> (r: RegistryScanningConfigurationBuilder<RegistryScanningConfigurationEnhancedState>)
        ensures
            r@.id.0@ == id@,
            r@.scan_type@ == "ENHANCED"@,
            r@.rules.len() == 0,
    {
        RegistryScanningConfigurationBuilder {
            phantom_data: PhantomData,
            id: Id(String::from_str(id)),
            scan_type: String::from_str("ENHANCED"),
            rules: Vec::new(),
        }
    }
}

impl RegistryScanningConfigurationBuilder<RegistryScanningConfigurationBasicState> {
    pub fn scanning_rule(self, scan_frequency: BasicScanFrequency, repository_filters: Vec<RepositoryFilter>) -> (r: Self)
        ensures
            scanning_rule_added(r@, self@, basic_scan_frequency_name(scan_frequency), repository_filters),
    {
        let mut me = self;
        let ghost before = me.rules@;
        let scanning_rule = ScanningRuleBuilder::new(String::from(scan_frequency), repository_filters).build();
        me.rules.push(scanning_rule);
        assert(me.rules@.drop_last() =~= before);
        me
    }

    /// Adds the configuration to the stack.
    pub fn build(self, stack_builder: &mut StackBuilder) -> (r: RegistryScanningConfigurationRef)
        ensures
            scanning_configuration_added(old(stack_builder)@, final(stack_builder)@, self@, r@),
    {
        self.build_internal(stack_builder)
    }
}

impl RegistryScanningConfigurationBuilder<RegistryScanningConfigurationEnhancedState> {
    pub fn scanning_rule(self, scan_frequency: EnhancedScanFrequency, repository_filters: Vec<RepositoryFilter>) -> (r: Self)
        ensures
            scanning_rule_added(r@, self@, enhanced_scan_frequency_name(scan_frequency), repository_filters),
    {
        let mut me = self;
        let ghost before = me.rules@;
        let scanning_rule = ScanningRuleBuilder::new(String::from(scan_frequency), repository_filters).build();
        me.rules.push(scanning_rule);
        assert(me.rules@.drop_last() =~= before);
        me
    }

    /// Adds the configuration to the stack.
    pub fn build(self, stack_builder: &mut StackBuilder) -> (r: RegistryScanningConfigurationRef)
        ensures
            scanning_configuration_added(old(stack_builder)@, final(stack_builder)@, self@, r@),
    {
        self.build_internal(stack_builder)
    }
}

/// What building the scanning configuration `b` adds to the stack: the configuration.
pub open spec fn scanning_configuration_added(
    before: StackBuilderView,
    after: StackBuilderView,
    b: RegistryScanningConfigurationBuilderView,
    r: crate::shared::RefView,
) -> bool {
    &&& after == (StackBuilderView { resources: before.resources.push(after.resources.last()), ..before })
    &&& after.resources.last() matches Resource::RegistryScanningConfiguration(c) && {
        &&& c@.id == b.id
        &&& c@.resource_id@ == r.resource_id
        &&& c@.resource_type@ == "AWS::ECR::RegistryScanningConfiguration"@
        &&& c@.properties@.scan_type == b.scan_type
        &&& c@.properties@.rules@ == b.rules
    }
    &&& is_generated_id(r.resource_id, "RegistryScanningConfiguration"@)
    &&& r.ref_name is None
    &&& r.arn_value is None
}

impl<T: RegistryScanningConfigurationState> RegistryScanningConfigurationBuilder<T> {
    /// Adds the configuration to the stack.
    pub fn build_internal(self, stack_builder: &mut StackBuilder) -> (r: RegistryScanningConfigurationRef)
        ensures
            scanning_configuration_added(old(stack_builder)@, final(stack_builder)@, self@, r@),
    {
        let resource_id = Resource::generate_id("RegistryScanningConfiguration");
        stack_builder.add_resource(
            Resource::RegistryScanningConfiguration(
                RegistryScanningConfiguration {
                    id: self.id,
                    resource_id: resource_id.clone(),
                    resource_type: String::from_str("AWS::ECR::RegistryScanningConfiguration"),
                    properties: RegistryScanningConfigurationProperties { scan_type: self.scan_type, rules: self.rules },
                },
            ),
        );
        RegistryScanningConfigurationRef::internal_new(resource_id)
    }
}

/// Builder for the scanning rules of a registry; `scanning_rule` of the registry scanning configuration builder uses it.
pub(crate) struct ScanningRuleBuilder {
    pub(crate) scan_frequency: String,
    pub(crate) repository_filters: Vec<RepositoryFilter>,
}

impl View for ScanningRuleBuilder {
    type V = ScanningRuleView;

    open(crate) spec fn view(&self) -> ScanningRuleView {
        ScanningRuleView { scan_frequency: self.scan_frequency, repository_filters: self.repository_filters }
    }
}

impl ScanningRuleBuilder {
    pub fn new(scan_frequency: String, repository_filters: Vec<RepositoryFilter>) -> (r: Self)
        ensures
            r@.scan_frequency == scan_frequency,
            r@.repository_filters == repository_filters,
    {
        Self {
            scan_frequency: scan_frequency,
            repository_filters: repository_filters,
        }
    }

    pub fn build(self) -> (r: ScanningRule)
        ensures
            r@ == (ScanningRuleView { scan_frequency: self@.scan_frequency, repository_filters: self@.repository_filters }),
    {
        ScanningRule {
            scan_frequency: self.scan_frequency,
            repository_filters: self.repository_filters,
        }
    }
}

/// Builder for how the images of an ECR registry are replicated.
pub struct ReplicationConfigurationBuilder {
    pub(crate) id: Id,
    pub(crate) rules: Vec<ReplicationRule>,
}

/// What a [`ReplicationConfigurationBuilder`] holds.
pub struct ReplicationConfigurationBuilderView {
    pub id: Id,
    pub rules: Vec<ReplicationRule>,
}

impl View for ReplicationConfigurationBuilder {
    type V = ReplicationConfigurationBuilderView;

    open(crate) spec fn view(&self) -> ReplicationConfigurationBuilderView {
        ReplicationConfigurationBuilderView { id: self.id, rules: self.rules }
    }
}

impl ReplicationConfigurationBuilder {
    pub fn new(id: &str) -> (r: Self)
        ensures
            r@.id.0@ == id@,
            r@.rules@.len() == 0,
    {
        Self { id: Id(String::from_str(id)), rules: Vec::new() }
    }

    /// Adds the configuration to the stack.
    pub fn build(self, stack_builder: &mut StackBuilder) -> (r: ReplicationConfigurationRef)
        ensures
            final(stack_builder)@ == (StackBuilderView {
                resources: old(stack_builder)@.resources.push(final(stack_builder)@.resources.last()),
                ..old(stack_builder)@
            }),
            final(stack_builder)@.resources.last() matches Resource::ReplicationConfiguration(c) && {
                &&& c@.id == self@.id
                &&& c@.resource_id@ == r@.resource_id
                &&& c@.resource_type@ == "AWS::ECR::ReplicationConfiguration"@
                &&& c@.properties@.replication_configuration@.rules == self@.rules
            },
            is_generated_id(r@.resource_id, "ReplicationConfiguration"@),
            r@.ref_name is None,
            r@.arn_value is None,
    {
        let resource_id = Resource::generate_id("ReplicationConfiguration");
        stack_builder.add_resource(
            Resource::ReplicationConfiguration(
                ReplicationConfiguration {
                    id: self.id,
                    resource_id: resource_id.clone(),
                    resource_type: String::from_str("AWS::ECR::ReplicationConfiguration"),
                    properties: ReplicationConfigurationProperties {
                        replication_configuration: ReplicationConfigurationReplicationConfiguration { rules: self.rules },
                    },
                },
            ),
        );
        ReplicationConfigurationRef::internal_new(resource_id)
    }
}

/// Builder for the rules of a replication configuration.
pub struct ReplicationRuleBuilder {
    pub(crate) destinations: Vec<ReplicationDestination>,
    pub(crate) repository_filters: Option<Vec<RepositoryFilter>>,
}

impl View for ReplicationRuleBuilder {
    type V = ReplicationRuleView;

    open(crate) spec fn view(&self) -> ReplicationRuleView {
        ReplicationRuleView { destinations: self.destinations, repository_filters: self.repository_filters }
    }
}

impl ReplicationRuleBuilder {
    pub fn new(destination: ReplicationDestination) -> (r: Self)
        ensures
            r@.destinations@ == seq![destination],
            r@.repository_filters is None,
    {
        let mut destinations = Vec::new();
        destinations.push(destination);
        Self { destinations, repository_filters: None }
    }

    pub fn add_destination(self, destination: ReplicationDestination) -> (r: Self)
        ensures
            r@.destinations@ == self@.destinations@.push(destination),
            r@.repository_filters == self@.repository_filters,
    {
        let mut me = self;
        me.destinations.push(destination);
        me
    }

    pub fn add_repository_filter(self, repository_filter: RepositoryFilter) -> (r: Self)
        ensures
            r@.destinations == self@.destinations,
            r@.repository_filters matches Some(v) && v@ == match self@.repository_filters {
                Some(old) => old@.push(repository_filter),
                None => seq![repository_filter],
            },
    {
        let mut filters = match self.repository_filters {
            Some(filters) => filters,
            None => Vec::new(),
        };
        filters.push(repository_filter);
        Self { destinations: self.destinations, repository_filters: Some(filters) }
    }

    pub fn build(self) -> (r: ReplicationRule)
        ensures
            r@ == self@,
    {
        ReplicationRule { destinations: self.destinations, repository_filters: self.repository_filters }
    }
}

/// Builder for where a replication rule copies images to.
pub struct ReplicationDestinationBuilder {
    pub(crate) region: String,
    pub(crate) registry_id: String,
}

impl View for ReplicationDestinationBuilder {
    type V = ReplicationDestinationView;

    open(crate) spec fn view(&self) -> ReplicationDestinationView {
        ReplicationDestinationView { region: self.region, registry_id: self.registry_id }
    }
}

impl ReplicationDestinationBuilder {
    /// A destination in the region `region`, in the registry of the account `registry_id`.
    pub fn new(region: String, registry_id: String) -> (r: Self)
        ensures
            r@.region == region,
            r@.registry_id == registry_id,
    {
        Self { region, registry_id }
    }

    pub fn build(self) -> (r: ReplicationDestination)
        ensures
            r@ == self@,
    {
        ReplicationDestination { region: self.region, registry_id: self.registry_id }
    }
}

/// Whether the tags of a repository's images can be overwritten.
#[derive(Debug, Clone)]
pub enum ImageTagMutability {
    Mutable,
    Immutable,
    MutableWithExclusion,
    ImmutableWithExclusion,
}

/// How CloudFormation writes a [`ImageTagMutability`].
pub open spec fn image_tag_mutability_name(v: ImageTagMutability) -> Seq<char> {
    match v {
        ImageTagMutability::Mutable => "MUTABLE"@,
        ImageTagMutability::Immutable => "IMMUTABLE"@,
        ImageTagMutability::MutableWithExclusion => "MUTABLE_WITH_EXCLUSION"@,
        ImageTagMutability::ImmutableWithExclusion => "IMMUTABLE_WITH_EXCLUSION"@,
    }
}

impl vstd::std_specs::convert::FromSpecImpl<ImageTagMutability> for String {
    open spec fn obeys_from_spec() -> bool {
        false
    }

    open spec fn from_spec(v: ImageTagMutability) -> String {
        vstd::pervasive::arbitrary()
    }
}

impl From<ImageTagMutability> for String {
    fn from(value: ImageTagMutability) -> (r: String)
        ensures
            r@ == image_tag_mutability_name(value),
    {
        match value {
            ImageTagMutability::Mutable => String::from_str("MUTABLE"),
            ImageTagMutability::Immutable => String::from_str("IMMUTABLE"),
            ImageTagMutability::MutableWithExclusion => String::from_str("MUTABLE_WITH_EXCLUSION"),
            ImageTagMutability::ImmutableWithExclusion => String::from_str("IMMUTABLE_WITH_EXCLUSION"),
        }
    }
}
/// Builder for private ECR repositories.
pub struct RepositoryBuilder {
    pub(crate) id: Id,
    pub(crate) image_tag_mutability: Option<String>,
    pub(crate) repository_policy_text: Option<Value>,
    pub(crate) image_tag_mutability_exclusion_filters: Option<Vec<ImageTagMutabilityExclusionFilter>>,
    pub(crate) encryption_configuration: Option<EncryptionConfiguration>,
    pub(crate) lifecycle_policy: Option<LifecyclePolicy>,
    pub(crate) empty_on_delete: Option<bool>,
    pub(crate) image_scanning_configuration: Option<bool>,
    pub(crate) repository_name: Option<String>,
}

/// What a [`RepositoryBuilder`] holds.
pub struct RepositoryBuilderView {
    pub id: Id,
    pub image_tag_mutability: Option<String>,
    pub repository_policy_text: Option<Value>,
    pub image_tag_mutability_exclusion_filters: Option<Vec<ImageTagMutabilityExclusionFilter>>,
    pub encryption_configuration: Option<EncryptionConfiguration>,
    pub lifecycle_policy: Option<LifecyclePolicy>,
    pub empty_on_delete: Option<bool>,
    pub image_scanning_configuration: Option<bool>,
    pub repository_name: Option<String>,
}

impl View for RepositoryBuilder {
    type V = RepositoryBuilderView;

    open(crate) spec fn view(&self) -> RepositoryBuilderView {
        RepositoryBuilderView { id: self.id, image_tag_mutability: self.image_tag_mutability, repository_policy_text: self.repository_policy_text, image_tag_mutability_exclusion_filters: self.image_tag_mutability_exclusion_filters, encryption_configuration: self.encryption_configuration, lifecycle_policy: self.lifecycle_policy, empty_on_delete: self.empty_on_delete, image_scanning_configuration: self.image_scanning_configuration, repository_name: self.repository_name }
    }
}

impl RepositoryBuilder {
    pub fn new(id: &str) -> (r: Self)
        ensures
            r@.id.0@ == id@,
            r@.image_tag_mutability is None,
            r@.repository_policy_text is None,
            r@.image_tag_mutability_exclusion_filters is None,
            r@.encryption_configuration is None,
            r@.lifecycle_policy is None,
            r@.empty_on_delete is None,
            r@.image_scanning_configuration is None,
            r@.repository_name is None,
    {
        Self {
            id: Id(String::from_str(id)),
            image_tag_mutability: None,
            repository_policy_text: None,
            image_tag_mutability_exclusion_filters: None,
            encryption_configuration: None,
            lifecycle_policy: None,
            empty_on_delete: None,
            image_scanning_configuration: None,
            repository_name: None,
        }
    }

    pub fn image_tag_mutability(self, image_tag_mutability: ImageTagMutability) -> (r: Self)
        ensures
            r@ == (RepositoryBuilderView { image_tag_mutability: r@.image_tag_mutability, ..self@ }),
            r@.image_tag_mutability matches Some(m) && m@ == image_tag_mutability_name(image_tag_mutability),
    {
        Self { image_tag_mutability: Some(image_tag_mutability.into()), ..self }
    }

    pub fn repository_policy_text(self, repository_policy_text: Value) -> (r: Self)
        ensures
            r@ == (RepositoryBuilderView { repository_policy_text: Some(repository_policy_text), ..self@ }),
    {
        Self { repository_policy_text: Some(repository_policy_text), ..self }
    }

    pub fn encryption_configuration(self, encryption_configuration: EncryptionConfiguration) -> (r: Self)
        ensures
            r@ == (RepositoryBuilderView { encryption_configuration: Some(encryption_configuration), ..self@ }),
    {
        Self { encryption_configuration: Some(encryption_configuration), ..self }
    }

    pub fn lifecycle_policy(self, lifecycle_policy: LifecyclePolicy) -> (r: Self)
        ensures
            r@ == (RepositoryBuilderView { lifecycle_policy: Some(lifecycle_policy), ..self@ }),
    {
        Self { lifecycle_policy: Some(lifecycle_policy), ..self }
    }

    pub fn empty_on_delete(self, empty_on_delete: bool) -> (r: Self)
        ensures
            r@ == (RepositoryBuilderView { empty_on_delete: Some(empty_on_delete), ..self@ }),
    {
        Self { empty_on_delete: Some(empty_on_delete), ..self }
    }

    /// Whether images are scanned once they are pushed.
    pub fn image_scanning_configuration(self, scan_on_push: bool) -> (r: Self)
        ensures
            r@ == (RepositoryBuilderView { image_scanning_configuration: Some(scan_on_push), ..self@ }),
    {
        Self { image_scanning_configuration: Some(scan_on_push), ..self }
    }

    pub fn repository_name(self, repository_name: EcrRepositoryName) -> (r: Self)
        ensures
            r@ == (RepositoryBuilderView { repository_name: Some(repository_name.0), ..self@ }),
    {
        Self { repository_name: Some(repository_name.0), ..self }
    }

    pub fn add_tag_mutability_exclusion_filter(self, tag_mutability_exclusion_filter: ImageTagMutabilityExclusionFilter) -> (r: Self)
        ensures
            r@ == (RepositoryBuilderView { image_tag_mutability_exclusion_filters: r@.image_tag_mutability_exclusion_filters, ..self@ }),
            r@.image_tag_mutability_exclusion_filters matches Some(v) && v@ == match self@.image_tag_mutability_exclusion_filters {
                Some(old) => old@.push(tag_mutability_exclusion_filter),
                None => seq![tag_mutability_exclusion_filter],
            },
    {
        let values = match self.image_tag_mutability_exclusion_filters {
            Some(values) => {
                let mut values = values;
                values.push(tag_mutability_exclusion_filter);
                values
            },
            None => {
                let mut values = Vec::new();
                values.push(tag_mutability_exclusion_filter);
                values
            },
        };
        Self { image_tag_mutability_exclusion_filters: Some(values), ..self }
    }

    /// Adds the repository to the stack.
    pub fn build(self, stack_builder: &mut StackBuilder) -> (r: RepositoryRef)
        ensures
            final(stack_builder)@ == (StackBuilderView {
                resources: old(stack_builder)@.resources.push(final(stack_builder)@.resources.last()),
                ..old(stack_builder)@
            }),
            final(stack_builder)@.resources.last() matches Resource::Repository(x) && {
                let p = x@.properties@;
                &&& x@.id == self@.id
                &&& x@.resource_id@ == r@.resource_id
                &&& x@.resource_type@ == "AWS::ECR::Repository"@
                &&& p.image_tag_mutability == self@.image_tag_mutability
                &&& p.repository_policy_text == self@.repository_policy_text
                &&& p.image_tag_mutability_exclusion_filters == self@.image_tag_mutability_exclusion_filters
                &&& p.encryption_configuration == self@.encryption_configuration
                &&& p.lifecycle_policy == self@.lifecycle_policy
                &&& p.empty_on_delete == self@.empty_on_delete
                &&& match self@.image_scanning_configuration {
                    Some(scan_on_push) => p.image_scanning_configuration matches Some(c) && c@.scan_on_push == Some(scan_on_push),
                    None => p.image_scanning_configuration is None,
                }
                &&& p.repository_name == self@.repository_name
            },
            is_generated_id(r@.resource_id, "Repository"@),
            r@.ref_name is None,
            r@.arn_value is None,
    {
        let resource_id = Resource::generate_id("Repository");
        let image_scanning_configuration = match self.image_scanning_configuration {
            Some(scan_on_push) => Some(ImageScanningConfigurationBuilder::new().scan_on_push(scan_on_push).build()),
            None => None,
        };
        stack_builder.add_resource(
            Resource::Repository(
                Repository {
                    id: self.id,
                    resource_id: resource_id.clone(),
                    resource_type: String::from_str("AWS::ECR::Repository"),
                    properties: RepositoryProperties {
                        image_tag_mutability: self.image_tag_mutability,
                        repository_policy_text: self.repository_policy_text,
                        image_tag_mutability_exclusion_filters: self.image_tag_mutability_exclusion_filters,
                        encryption_configuration: self.encryption_configuration,
                        lifecycle_policy: self.lifecycle_policy,
                        empty_on_delete: self.empty_on_delete,
                        image_scanning_configuration,
                        repository_name: self.repository_name,
                    },
                },
            ),
        );
        RepositoryRef::internal_new(resource_id)
    }
}

/// How a repository's images are encrypted.
pub enum EncryptionConfigurationType<'a> {
    Aes256,
    Kms(&'a KeyRef),
    KmsDsse(&'a KeyRef),
}

/// Builder for how a repository's images are encrypted.
pub struct EncryptionConfigurationBuilder {
    pub(crate) encryption_type: String,
    pub(crate) kms_key: Option<Value>,
}

impl View for EncryptionConfigurationBuilder {
    type V = EncryptionConfigurationView;

    open(crate) spec fn view(&self) -> EncryptionConfigurationView {
        EncryptionConfigurationView { encryption_type: self.encryption_type, kms_key: self.kms_key }
    }
}

impl EncryptionConfigurationBuilder {
    pub fn new(encryption: EncryptionConfigurationType) -> (r: Self)
        ensures
            match encryption {
                EncryptionConfigurationType::Aes256 => r@.encryption_type@ == "AES256"@ && r@.kms_key is None,
                EncryptionConfigurationType::Kms(key) => r@.encryption_type@ == "KMS"@ && (r@.kms_key matches Some(k)
                    && k@ == arn_json(key@.resource_id, key@.arn_value)),
                EncryptionConfigurationType::KmsDsse(key) => r@.encryption_type@ == "KMS_DSSE"@ && (r@.kms_key matches Some(k)
                    && k@ == arn_json(key@.resource_id, key@.arn_value)),
            },
    {
        match encryption {
            EncryptionConfigurationType::Aes256 => Self { encryption_type: String::from_str("AES256"), kms_key: None },
            EncryptionConfigurationType::Kms(key) => Self { encryption_type: String::from_str("KMS"), kms_key: Some(key.get_arn()) },
            EncryptionConfigurationType::KmsDsse(key) => Self {
                encryption_type: String::from_str("KMS_DSSE"),
                kms_key: Some(key.get_arn()),
            },
        }
    }

    pub fn build(self) -> (r: EncryptionConfiguration)
        ensures
            r@ == self@,
    {
        EncryptionConfiguration { encryption_type: self.encryption_type, kms_key: self.kms_key }
    }
}

/// Builder for the lifecycle policy of a repository.
pub struct LifecyclePolicyBuilder {
    pub(crate) registry_id: Option<String>,
    pub(crate) lifecycle_policy_text: Option<String>,
}

impl View for LifecyclePolicyBuilder {
    type V = LifecyclePolicyView;

    open(crate) spec fn view(&self) -> LifecyclePolicyView {
        LifecyclePolicyView { registry_id: self.registry_id, lifecycle_policy_text: self.lifecycle_policy_text }
    }
}

impl LifecyclePolicyBuilder {
    pub fn new() -> (r: Self)
        ensures
            r@.registry_id is None,
            r@.lifecycle_policy_text is None,
    {
        Self {
            registry_id: None,
            lifecycle_policy_text: None,
        }
    }

    pub fn registry_id(self, registry_id: String) -> (r: Self)
        ensures
            r@ == (LifecyclePolicyView { registry_id: Some(registry_id), ..self@ }),
    {
        Self { registry_id: Some(registry_id), ..self }
    }

    pub fn lifecycle_policy_text(self, lifecycle_policy_text: String) -> (r: Self)
        ensures
            r@ == (LifecyclePolicyView { lifecycle_policy_text: Some(lifecycle_policy_text), ..self@ }),
    {
        Self { lifecycle_policy_text: Some(lifecycle_policy_text), ..self }
    }

    pub fn build(self) -> (r: LifecyclePolicy)
        ensures
            r@ == (LifecyclePolicyView { registry_id: self@.registry_id, lifecycle_policy_text: self@.lifecycle_policy_text }),
    {
        LifecyclePolicy {
            registry_id: self.registry_id,
            lifecycle_policy_text: self.lifecycle_policy_text,
        }
    }
}

/// Builder for whether a repository scans images once they are pushed.
pub(crate) struct ImageScanningConfigurationBuilder {
    pub(crate) scan_on_push: Option<bool>,
}

impl View for ImageScanningConfigurationBuilder {
    type V = ImageScanningConfigurationView;

    open(crate) spec fn view(&self) -> ImageScanningConfigurationView {
        ImageScanningConfigurationView { scan_on_push: self.scan_on_push }
    }
}

impl ImageScanningConfigurationBuilder {
    pub fn new() -> (r: Self)
        ensures
            r@.scan_on_push is None,
    {
        Self {
            scan_on_push: None,
        }
    }

    pub fn scan_on_push(self, scan_on_push: bool) -> (r: Self)
        ensures
            r@ == (ImageScanningConfigurationView { scan_on_push: Some(scan_on_push), ..self@ }),
    {
        Self { scan_on_push: Some(scan_on_push), ..self }
    }

    pub fn build(self) -> (r: ImageScanningConfiguration)
        ensures
            r@ == (ImageScanningConfigurationView { scan_on_push: self@.scan_on_push }),
    {
        ImageScanningConfiguration {
            scan_on_push: self.scan_on_push,
        }
    }
}

/// Builder for how the images of an ECR registry are signed.
pub struct SigningConfigurationBuilder {
    pub(crate) id: Id,
    pub(crate) rules: Vec<Rule>,
}

/// What a [`SigningConfigurationBuilder`] holds.
pub struct SigningConfigurationBuilderView {
    pub id: Id,
    pub rules: Vec<Rule>,
}

impl View for SigningConfigurationBuilder {
    type V = SigningConfigurationBuilderView;

    open(crate) spec fn view(&self) -> SigningConfigurationBuilderView {
        SigningConfigurationBuilderView { id: self.id, rules: self.rules }
    }
}

impl SigningConfigurationBuilder {
    pub fn new(id: &str, rules: Vec<Rule>) -> (r: Self)
        ensures
            r@.id.0@ == id@,
            r@.rules == rules,
    {
        Self { id: Id(String::from_str(id)), rules }
    }

    /// A reference to the configuration. The stack has no place for signing configurations yet, so
    /// the configuration itself is not added to it.
    pub fn build(self, stack_builder: &mut StackBuilder) -> (r: SigningConfigurationRef)
        ensures
            final(stack_builder)@ == old(stack_builder)@,
            is_generated_id(r@.resource_id, "SigningConfiguration"@),
            r@.ref_name is None,
            r@.arn_value is None,
    {
        let resource_id = Resource::generate_id("SigningConfiguration");
        let _configuration = SigningConfiguration {
            id: self.id,
            resource_id: resource_id.clone(),
            resource_type: String::from_str("AWS::ECR::SigningConfiguration"),
            properties: SigningConfigurationProperties { rules: self.rules },
        };
        SigningConfigurationRef::internal_new(resource_id)
    }
}

/// How an exclusion filter matches image tags.
#[derive(Debug, Clone)]
pub enum ImageTagMutabilityExclusionFilterType {
    Wildcard,
}

/// How CloudFormation writes a [`ImageTagMutabilityExclusionFilterType`].
pub open spec fn image_tag_mutability_exclusion_filter_type_name(v: ImageTagMutabilityExclusionFilterType) -> Seq<char> {
    match v {
        ImageTagMutabilityExclusionFilterType::Wildcard => "WILDCARD"@,
    }
}

impl vstd::std_specs::convert::FromSpecImpl<ImageTagMutabilityExclusionFilterType> for String {
    open spec fn obeys_from_spec() -> bool {
        false
    }

    open spec fn from_spec(v: ImageTagMutabilityExclusionFilterType) -> String {
        vstd::pervasive::arbitrary()
    }
}

impl From<ImageTagMutabilityExclusionFilterType> for String {
    fn from(value: ImageTagMutabilityExclusionFilterType) -> (r: String)
        ensures
            r@ == image_tag_mutability_exclusion_filter_type_name(value),
    {
        match value {
            ImageTagMutabilityExclusionFilterType::Wildcard => String::from_str("WILDCARD"),
        }
    }
}

/// Builder for filters that exempt image tags from a repository's tag mutability.
pub struct ImageTagMutabilityExclusionFilterBuilder {
    pub(crate) image_tag_mutability_exclusion_filter_value: String,
    pub(crate) image_tag_mutability_exclusion_filter_type: String,
}

impl View for ImageTagMutabilityExclusionFilterBuilder {
    type V = ImageTagMutabilityExclusionFilterView;

    open(crate) spec fn view(&self) -> ImageTagMutabilityExclusionFilterView {
        ImageTagMutabilityExclusionFilterView { image_tag_mutability_exclusion_filter_value: self.image_tag_mutability_exclusion_filter_value, image_tag_mutability_exclusion_filter_type: self.image_tag_mutability_exclusion_filter_type }
    }
}

impl ImageTagMutabilityExclusionFilterBuilder {
    pub fn new(image_tag_mutability_exclusion_filter_type: ImageTagMutabilityExclusionFilterType, image_tag_mutability_exclusion_filter_value: ImageTagMutabilityExclusionFilterValue) -> (r: Self)
        ensures
            r@.image_tag_mutability_exclusion_filter_value == image_tag_mutability_exclusion_filter_value.0,
            r@.image_tag_mutability_exclusion_filter_type@ == image_tag_mutability_exclusion_filter_type_name(image_tag_mutability_exclusion_filter_type),
    {
        Self {
            image_tag_mutability_exclusion_filter_value: image_tag_mutability_exclusion_filter_value.0,
            image_tag_mutability_exclusion_filter_type: image_tag_mutability_exclusion_filter_type.into(),
        }
    }

    pub fn build(self) -> (r: ImageTagMutabilityExclusionFilter)
        ensures
            r@ == (ImageTagMutabilityExclusionFilterView { image_tag_mutability_exclusion_filter_value: self@.image_tag_mutability_exclusion_filter_value, image_tag_mutability_exclusion_filter_type: self@.image_tag_mutability_exclusion_filter_type }),
    {
        ImageTagMutabilityExclusionFilter {
            image_tag_mutability_exclusion_filter_value: self.image_tag_mutability_exclusion_filter_value,
            image_tag_mutability_exclusion_filter_type: self.image_tag_mutability_exclusion_filter_type,
        }
    }
}

/// Builder for the rules of a signing configuration.
pub struct RuleBuilder {
    pub(crate) signing_profile_arn: String,
    pub(crate) repository_filters: Option<Vec<RepositoryFilter>>,
}

impl View for RuleBuilder {
    type V = RuleView;

    open(crate) spec fn view(&self) -> RuleView {
        RuleView { signing_profile_arn: self.signing_profile_arn, repository_filters: self.repository_filters }
    }
}

impl RuleBuilder {
    pub fn new(signing_profile_arn: String) -> (r: Self)
        ensures
            r@.signing_profile_arn == signing_profile_arn,
            r@.repository_filters is None,
    {
        Self {
            signing_profile_arn: signing_profile_arn,
            repository_filters: None,
        }
    }

    pub fn add_repository_filter(self, repository_filter: RepositoryFilter) -> (r: Self)
        ensures
            r@ == (RuleView { repository_filters: r@.repository_filters, ..self@ }),
            r@.repository_filters matches Some(v) && v@ == match self@.repository_filters {
                Some(old) => old@.push(repository_filter),
                None => seq![repository_filter],
            },
    {
        let values = match self.repository_filters {
            Some(values) => {
                let mut values = values;
                values.push(repository_filter);
                values
            },
            None => {
                let mut values = Vec::new();
                values.push(repository_filter);
                values
            },
        };
        Self { repository_filters: Some(values), ..self }
    }

    pub fn build(self) -> (r: Rule)
        ensures
            r@ == (RuleView { signing_profile_arn: self@.signing_profile_arn, repository_filters: self@.repository_filters }),
    {
        Rule {
            signing_profile_arn: self.signing_profile_arn,
            repository_filters: self.repository_filters,
        }
    }
}

/// How a repository filter matches repository names.
#[derive(Debug, Clone)]
pub enum RepositoryFilterType {
    PrefixMatch,
}

/// How CloudFormation writes a [`RepositoryFilterType`].
pub open spec fn repository_filter_type_name(v: RepositoryFilterType) -> Seq<char> {
    match v {
        RepositoryFilterType::PrefixMatch => "PREFIX_MATCH"@,
    }
}

impl vstd::std_specs::convert::FromSpecImpl<RepositoryFilterType> for String {
    open spec fn obeys_from_spec() -> bool {
        false
    }

    open spec fn from_spec(v: RepositoryFilterType) -> String {
        vstd::pervasive::arbitrary()
    }
}

impl From<RepositoryFilterType> for String {
    fn from(value: RepositoryFilterType) -> (r: String)
        ensures
            r@ == repository_filter_type_name(value),
    {
        match value {
            RepositoryFilterType::PrefixMatch => String::from_str("PREFIX_MATCH"),
        }
    }
}

/// Builder for filters on repository names.
pub struct RepositoryFilterBuilder {
    pub(crate) filter: String,
    pub(crate) filter_type: String,
}

impl View for RepositoryFilterBuilder {
    type V = RepositoryFilterView;

    open(crate) spec fn view(&self) -> RepositoryFilterView {
        RepositoryFilterView { filter: self.filter, filter_type: self.filter_type }
    }
}

impl RepositoryFilterBuilder {
    pub fn new(filter_type: RepositoryFilterType, filter: String) -> (r: Self)
        ensures
            r@.filter == filter,
            r@.filter_type@ == repository_filter_type_name(filter_type),
    {
        Self {
            filter: filter,
            filter_type: filter_type.into(),
        }
    }

    pub fn build(self) -> (r: RepositoryFilter)
        ensures
            r@ == (RepositoryFilterView { filter: self@.filter, filter_type: self@.filter_type }),
    {
        RepositoryFilter {
            filter: self.filter,
            filter_type: self.filter_type,
        }
    }
}

} // verus!
