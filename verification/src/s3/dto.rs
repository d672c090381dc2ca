use crate::json::Value;
use crate::shared::{arn_json, clone_opt, opt_view, ref_json, Id, RefView, RefWithIdView};
use crate::intrinsic::{get_arn, get_att, get_att_json, get_ref, string_value};
use crate::iam::PolicyDocument;
use crate::shared::UpdateDeletePolicyDTO;
use vstd::prelude::*;

verus! {

/// A reference to a resource, which other resources use to depend on it.
pub struct BucketPolicyRef {
    pub(crate) resource_id: String,
    pub(crate) ref_name: Option<String>,
    pub(crate) arn_value: Option<String>,
}

impl View for BucketPolicyRef {
    type V = RefView;

    open(crate) spec fn view(&self) -> RefView {
        RefView {
            resource_id: self.resource_id@,
            ref_name: opt_view(self.ref_name),
            arn_value: opt_view(self.arn_value),
        }
    }
}

impl BucketPolicyRef {
    pub(crate) fn internal_new(resource_id: String) -> (r: Self)
        ensures
            r@ == (RefView { resource_id: resource_id@, ref_name: None, arn_value: None }),
    {
        Self { resource_id, ref_name: None, arn_value: None }
    }

    /// A reference to a resource that exists outside the stack.
    pub fn new(resource_id: &str, ref_name: &str, arn_value: &str) -> (r: Self)
        ensures
            r@ == (RefView { resource_id: resource_id@, ref_name: Some(ref_name@), arn_value: Some(arn_value@) }),
    {
        Self {
            resource_id: String::from_str(resource_id),
            ref_name: Some(String::from_str(ref_name)),
            arn_value: Some(String::from_str(arn_value)),
        }
    }

    pub(crate) fn get_resource_id(&self) -> (r: &str)
        ensures
            r@ == self@.resource_id,
    {
        self.resource_id.as_str()
    }

    /// What `Ref` gives for the resource: the name it was imported with, or the intrinsic function.
    pub fn get_ref(&self) -> (r: Value)
        ensures
            r@ == ref_json(self@.resource_id, self@.ref_name),
    {
        match &self.ref_name {
            Some(val) => string_value(val.as_str()),
            None => get_ref(self.resource_id.as_str()),
        }
    }

    /// The ARN of the resource: the one it was imported with, or the intrinsic function.
    pub fn get_arn(&self) -> (r: Value)
        ensures
            r@ == arn_json(self@.resource_id, self@.arn_value),
    {
        match &self.arn_value {
            Some(val) => string_value(val.as_str()),
            None => get_arn(self.resource_id.as_str()),
        }
    }

    /// An attribute of the resource; not available for an imported resource.
    pub fn get_att(&self, id: &str) -> (r: Value)
        requires
            !(self@.ref_name is Some && self@.arn_value is Some),
        ensures
            r@ == get_att_json(self@.resource_id, id@),
    {
        get_att(self.resource_id.as_str(), id)
    }
}

impl Clone for BucketPolicyRef {
    fn clone(&self) -> (r: Self)
        ensures
            r@ == self@,
    {
        Self {
            resource_id: self.resource_id.clone(),
            ref_name: clone_opt(&self.ref_name),
            arn_value: clone_opt(&self.arn_value),
        }
    }
}

/// A reference to a resource, which other resources use to depend on it.
pub struct BucketRef {
    pub(crate) resource_id: String,
    pub(crate) ref_name: Option<String>,
    pub(crate) arn_value: Option<String>,
}

impl View for BucketRef {
    type V = RefView;

    open(crate) spec fn view(&self) -> RefView {
        RefView {
            resource_id: self.resource_id@,
            ref_name: opt_view(self.ref_name),
            arn_value: opt_view(self.arn_value),
        }
    }
}

impl BucketRef {
    pub(crate) fn internal_new(resource_id: String) -> (r: Self)
        ensures
            r@ == (RefView { resource_id: resource_id@, ref_name: None, arn_value: None }),
    {
        Self { resource_id, ref_name: None, arn_value: None }
    }

    /// A reference to a resource that exists outside the stack.
    pub fn new(resource_id: &str, ref_name: &str, arn_value: &str) -> (r: Self)
        ensures
            r@ == (RefView { resource_id: resource_id@, ref_name: Some(ref_name@), arn_value: Some(arn_value@) }),
    {
        Self {
            resource_id: String::from_str(resource_id),
            ref_name: Some(String::from_str(ref_name)),
            arn_value: Some(String::from_str(arn_value)),
        }
    }

    pub(crate) fn get_resource_id(&self) -> (r: &str)
        ensures
            r@ == self@.resource_id,
    {
        self.resource_id.as_str()
    }

    /// What `Ref` gives for the resource: the name it was imported with, or the intrinsic function.
    pub fn get_ref(&self) -> (r: Value)
        ensures
            r@ == ref_json(self@.resource_id, self@.ref_name),
    {
        match &self.ref_name {
            Some(val) => string_value(val.as_str()),
            None => get_ref(self.resource_id.as_str()),
        }
    }

    /// The ARN of the resource: the one it was imported with, or the intrinsic function.
    pub fn get_arn(&self) -> (r: Value)
        ensures
            r@ == arn_json(self@.resource_id, self@.arn_value),
    {
        match &self.arn_value {
            Some(val) => string_value(val.as_str()),
            None => get_arn(self.resource_id.as_str()),
        }
    }

    /// An attribute of the resource; not available for an imported resource.
    pub fn get_att(&self, id: &str) -> (r: Value)
        requires
            !(self@.ref_name is Some && self@.arn_value is Some),
        ensures
            r@ == get_att_json(self@.resource_id, id@),
    {
        get_att(self.resource_id.as_str(), id)
    }
}

impl Clone for BucketRef {
    fn clone(&self) -> (r: Self)
        ensures
            r@ == self@,
    {
        Self {
            resource_id: self.resource_id.clone(),
            ref_name: clone_opt(&self.ref_name),
            arn_value: clone_opt(&self.arn_value),
        }
    }
}

/// An S3 bucket policy resource.
pub struct BucketPolicy {
    pub(crate) id: Id,
    pub(crate) resource_id: String,
    pub(crate) resource_type: String,
    pub(crate) properties: S3BucketPolicyProperties,
}

/// What a [`BucketPolicy`] holds.
pub struct BucketPolicyView {
    pub id: Id,
    pub resource_id: String,
    pub resource_type: String,
    pub properties: S3BucketPolicyProperties,
}

impl View for BucketPolicy {
    type V = BucketPolicyView;

    open(crate) spec fn view(&self) -> BucketPolicyView {
        BucketPolicyView {
            id: self.id,
            resource_id: self.resource_id,
            resource_type: self.resource_type,
            properties: self.properties,
        }
    }
}

impl BucketPolicy {
    pub fn get_id(&self) -> (r: &Id)
        ensures
            *r == self@.id,
    {
        &self.id
    }

    pub fn get_resource_id(&self) -> (r: &str)
        ensures
            r@ == self@.resource_id@,
    {
        self.resource_id.as_str()
    }

    pub fn get_type(&self) -> (r: &str)
        ensures
            r@ == self@.resource_type@,
    {
        self.resource_type.as_str()
    }
}

/// The properties of a bucket policy: the bucket and the document.
pub struct S3BucketPolicyProperties {
    pub(crate) bucket_name: Value,
    pub(crate) policy_document: PolicyDocument,
}

/// What a [`S3BucketPolicyProperties`] holds.
pub struct S3BucketPolicyPropertiesView {
    pub bucket_name: Value,
    pub policy_document: PolicyDocument,
}

impl View for S3BucketPolicyProperties {
    type V = S3BucketPolicyPropertiesView;

    open(crate) spec fn view(&self) -> S3BucketPolicyPropertiesView {
        S3BucketPolicyPropertiesView {
            bucket_name: self.bucket_name,
            policy_document: self.policy_document,
        }
    }
}

/// An S3 bucket resource.
pub struct Bucket {
    pub(crate) id: Id,
    pub(crate) resource_id: String,
    pub(crate) resource_type: String,
    pub(crate) properties: BucketProperties,
    pub(crate) update_delete_policy_dto: UpdateDeletePolicyDTO,
}

/// What a [`Bucket`] holds.
pub struct BucketView {
    pub id: Id,
    pub resource_id: String,
    pub resource_type: String,
    pub properties: BucketProperties,
    pub update_delete_policy_dto: UpdateDeletePolicyDTO,
}

impl View for Bucket {
    type V = BucketView;

    open(crate) spec fn view(&self) -> BucketView {
        BucketView {
            id: self.id,
            resource_id: self.resource_id,
            resource_type: self.resource_type,
            properties: self.properties,
            update_delete_policy_dto: self.update_delete_policy_dto,
        }
    }
}

impl Bucket {
    pub fn get_id(&self) -> (r: &Id)
        ensures
            *r == self@.id,
    {
        &self.id
    }

    pub fn get_resource_id(&self) -> (r: &str)
        ensures
            r@ == self@.resource_id@,
    {
        self.resource_id.as_str()
    }

    pub fn get_type(&self) -> (r: &str)
        ensures
            r@ == self@.resource_type@,
    {
        self.resource_type.as_str()
    }
}

/// The properties of an S3 bucket.
pub struct BucketProperties {
    pub(crate) abac_status: Option<String>,
    pub(crate) accelerate_configuration: Option<AccelerateConfiguration>,
    pub(crate) bucket_name: Option<String>,
    pub(crate) bucket_encryption: Option<BucketEncryption>,
    pub(crate) cors_configuration: Option<CorsConfiguration>,
    pub(crate) intelligent_tiering_configurations: Option<Vec<IntelligentTieringConfiguration>>,
    pub(crate) lifecycle_configuration: Option<LifecycleConfiguration>,
    pub(crate) metadata_configuration: Option<MetadataConfiguration>,
    pub(crate) public_access_block_configuration: Option<PublicAccessBlockConfiguration>,
    pub(crate) versioning_configuration: Option<VersioningConfig>,
    pub(crate) website_configuration: Option<WebsiteConfiguration>,
}

/// What a [`BucketProperties`] holds.
pub struct BucketPropertiesView {
    pub abac_status: Option<String>,
    pub accelerate_configuration: Option<AccelerateConfiguration>,
    pub bucket_name: Option<String>,
    pub bucket_encryption: Option<BucketEncryption>,
    pub cors_configuration: Option<CorsConfiguration>,
    pub intelligent_tiering_configurations: Option<Vec<IntelligentTieringConfiguration>>,
    pub lifecycle_configuration: Option<LifecycleConfiguration>,
    pub metadata_configuration: Option<MetadataConfiguration>,
    pub public_access_block_configuration: Option<PublicAccessBlockConfiguration>,
    pub versioning_configuration: Option<VersioningConfig>,
    pub website_configuration: Option<WebsiteConfiguration>,
}

impl View for BucketProperties {
    type V = BucketPropertiesView;

    open(crate) spec fn view(&self) -> BucketPropertiesView {
        BucketPropertiesView {
            abac_status: self.abac_status,
            accelerate_configuration: self.accelerate_configuration,
            bucket_name: self.bucket_name,
            bucket_encryption: self.bucket_encryption,
            cors_configuration: self.cors_configuration,
            intelligent_tiering_configurations: self.intelligent_tiering_configurations,
            lifecycle_configuration: self.lifecycle_configuration,
            metadata_configuration: self.metadata_configuration,
            public_access_block_configuration: self.public_access_block_configuration,
            versioning_configuration: self.versioning_configuration,
            website_configuration: self.website_configuration,
        }
    }
}

/// Part of the MetadataConfiguration configuration.
pub struct MetadataConfiguration {
    pub(crate) destination: Option<MetadataDestination>,
    pub(crate) inventory_table_configuration: Option<InventoryTableConfiguration>,
    pub(crate) journal_table_configuration: JournalTableConfiguration,
}

/// What a [`MetadataConfiguration`] holds.
pub struct MetadataConfigurationView {
    pub destination: Option<MetadataDestination>,
    pub inventory_table_configuration: Option<InventoryTableConfiguration>,
    pub journal_table_configuration: JournalTableConfiguration,
}

impl View for MetadataConfiguration {
    type V = MetadataConfigurationView;

    open(crate) spec fn view(&self) -> MetadataConfigurationView {
        MetadataConfigurationView {
            destination: self.destination,
            inventory_table_configuration: self.inventory_table_configuration,
            journal_table_configuration: self.journal_table_configuration,
        }
    }
}

/// Part of the MetadataDestination configuration.
pub struct MetadataDestination {
    pub(crate) table_bucket_arn: Option<Value>,
    pub(crate) table_bucket_type: String,
    pub(crate) table_namespace: Option<String>,
}

/// What a [`MetadataDestination`] holds.
pub struct MetadataDestinationView {
    pub table_bucket_arn: Option<Value>,
    pub table_bucket_type: String,
    pub table_namespace: Option<String>,
}

impl View for MetadataDestination {
    type V = MetadataDestinationView;

    open(crate) spec fn view(&self) -> MetadataDestinationView {
        MetadataDestinationView {
            table_bucket_arn: self.table_bucket_arn,
            table_bucket_type: self.table_bucket_type,
            table_namespace: self.table_namespace,
        }
    }
}

/// Part of the InventoryTableConfiguration configuration.
pub struct InventoryTableConfiguration {
    pub(crate) configuration_state: String,
    pub(crate) table_arn: Option<Value>,
    pub(crate) table_name: Option<String>,
}

/// What a [`InventoryTableConfiguration`] holds.
pub struct InventoryTableConfigurationView {
    pub configuration_state: String,
    pub table_arn: Option<Value>,
    pub table_name: Option<String>,
}

impl View for InventoryTableConfiguration {
    type V = InventoryTableConfigurationView;

    open(crate) spec fn view(&self) -> InventoryTableConfigurationView {
        InventoryTableConfigurationView {
            configuration_state: self.configuration_state,
            table_arn: self.table_arn,
            table_name: self.table_name,
        }
    }
}

/// Part of the JournalTableConfiguration configuration.
pub struct JournalTableConfiguration {
    pub(crate) record_expiration: RecordExpiration,
    pub(crate) table_arn: Option<Value>,
    pub(crate) table_name: Option<String>,
}

/// What a [`JournalTableConfiguration`] holds.
pub struct JournalTableConfigurationView {
    pub record_expiration: RecordExpiration,
    pub table_arn: Option<Value>,
    pub table_name: Option<String>,
}

impl View for JournalTableConfiguration {
    type V = JournalTableConfigurationView;

    open(crate) spec fn view(&self) -> JournalTableConfigurationView {
        JournalTableConfigurationView {
            record_expiration: self.record_expiration,
            table_arn: self.table_arn,
            table_name: self.table_name,
        }
    }
}

/// Part of the RecordExpiration configuration.
pub struct RecordExpiration {
    pub(crate) days: Option<u32>,
    pub(crate) expiration: String,
}

/// What a [`RecordExpiration`] holds.
pub struct RecordExpirationView {
    pub days: Option<u32>,
    pub expiration: String,
}

impl View for RecordExpiration {
    type V = RecordExpirationView;

    open(crate) spec fn view(&self) -> RecordExpirationView {
        RecordExpirationView {
            days: self.days,
            expiration: self.expiration,
        }
    }
}

/// Part of the IntelligentTieringConfiguration configuration.
pub struct IntelligentTieringConfiguration {
    pub(crate) id: String,
    pub(crate) prefix: Option<String>,
    pub(crate) status: String,
    pub(crate) tag_filters: Option<Vec<TagFilter>>,
    pub(crate) tierings: Vec<Tiering>,
}

/// What a [`IntelligentTieringConfiguration`] holds.
pub struct IntelligentTieringConfigurationView {
    pub id: String,
    pub prefix: Option<String>,
    pub status: String,
    pub tag_filters: Option<Vec<TagFilter>>,
    pub tierings: Vec<Tiering>,
}

impl View for IntelligentTieringConfiguration {
    type V = IntelligentTieringConfigurationView;

    open(crate) spec fn view(&self) -> IntelligentTieringConfigurationView {
        IntelligentTieringConfigurationView {
            id: self.id,
            prefix: self.prefix,
            status: self.status,
            tag_filters: self.tag_filters,
            tierings: self.tierings,
        }
    }
}

/// Part of the Tiering configuration.
pub struct Tiering {
    pub(crate) access_tier: String,
    pub(crate) days: u16,
}

/// What a [`Tiering`] holds.
pub struct TieringView {
    pub access_tier: String,
    pub days: u16,
}

impl View for Tiering {
    type V = TieringView;

    open(crate) spec fn view(&self) -> TieringView {
        TieringView {
            access_tier: self.access_tier,
            days: self.days,
        }
    }
}

/// Part of the TagFilter configuration.
pub struct TagFilter {
    pub(crate) key: String,
    pub(crate) value: String,
}

/// What a [`TagFilter`] holds.
pub struct TagFilterView {
    pub key: String,
    pub value: String,
}

impl View for TagFilter {
    type V = TagFilterView;

    open(crate) spec fn view(&self) -> TagFilterView {
        TagFilterView {
            key: self.key,
            value: self.value,
        }
    }
}

/// Part of the AccelerateConfiguration configuration.
pub struct AccelerateConfiguration {
    pub(crate) acceleration_status: String,
}

/// What a [`AccelerateConfiguration`] holds.
pub struct AccelerateConfigurationView {
    pub acceleration_status: String,
}

impl View for AccelerateConfiguration {
    type V = AccelerateConfigurationView;

    open(crate) spec fn view(&self) -> AccelerateConfigurationView {
        AccelerateConfigurationView {
            acceleration_status: self.acceleration_status,
        }
    }
}

/// Part of the BucketEncryption configuration.
pub struct BucketEncryption {
    pub(crate) server_side_encryption_configuration: Vec<ServerSideEncryptionRule>,
}

/// What a [`BucketEncryption`] holds.
pub struct BucketEncryptionView {
    pub server_side_encryption_configuration: Vec<ServerSideEncryptionRule>,
}

impl View for BucketEncryption {
    type V = BucketEncryptionView;

    open(crate) spec fn view(&self) -> BucketEncryptionView {
        BucketEncryptionView {
            server_side_encryption_configuration: self.server_side_encryption_configuration,
        }
    }
}

/// Part of the ServerSideEncryptionRule configuration.
pub struct ServerSideEncryptionRule {
    pub(crate) server_side_encryption_by_default: ServerSideEncryptionByDefault,
    pub(crate) bucket_key_enabled: Option<bool>,
}

/// What a [`ServerSideEncryptionRule`] holds.
pub struct ServerSideEncryptionRuleView {
    pub server_side_encryption_by_default: ServerSideEncryptionByDefault,
    pub bucket_key_enabled: Option<bool>,
}

impl View for ServerSideEncryptionRule {
    type V = ServerSideEncryptionRuleView;

    open(crate) spec fn view(&self) -> ServerSideEncryptionRuleView {
        ServerSideEncryptionRuleView {
            server_side_encryption_by_default: self.server_side_encryption_by_default,
            bucket_key_enabled: self.bucket_key_enabled,
        }
    }
}

/// Part of the ServerSideEncryptionByDefault configuration.
pub struct ServerSideEncryptionByDefault {
    pub(crate) sse_algorithm: String,
    pub(crate) kms_master_key_id: Option<String>,
}

/// What a [`ServerSideEncryptionByDefault`] holds.
pub struct ServerSideEncryptionByDefaultView {
    pub sse_algorithm: String,
    pub kms_master_key_id: Option<String>,
}

impl View for ServerSideEncryptionByDefault {
    type V = ServerSideEncryptionByDefaultView;

    open(crate) spec fn view(&self) -> ServerSideEncryptionByDefaultView {
        ServerSideEncryptionByDefaultView {
            sse_algorithm: self.sse_algorithm,
            kms_master_key_id: self.kms_master_key_id,
        }
    }
}

/// Part of the CorsConfiguration configuration.
pub struct CorsConfiguration {
    pub(crate) cors_rules: Vec<CorsRule>,
}

/// What a [`CorsConfiguration`] holds.
pub struct CorsConfigurationView {
    pub cors_rules: Vec<CorsRule>,
}

impl View for CorsConfiguration {
    type V = CorsConfigurationView;

    open(crate) spec fn view(&self) -> CorsConfigurationView {
        CorsConfigurationView {
            cors_rules: self.cors_rules,
        }
    }
}

/// Part of the CorsRule configuration.
pub struct CorsRule {
    pub(crate) allowed_headers: Option<Vec<String>>,
    pub(crate) allowed_methods: Vec<String>,
    pub(crate) allowed_origins: Vec<String>,
    pub(crate) exposed_headers: Option<Vec<String>>,
    pub(crate) max_age: Option<u64>,
}

/// What a [`CorsRule`] holds.
pub struct CorsRuleView {
    pub allowed_headers: Option<Vec<String>>,
    pub allowed_methods: Vec<String>,
    pub allowed_origins: Vec<String>,
    pub exposed_headers: Option<Vec<String>>,
    pub max_age: Option<u64>,
}

impl View for CorsRule {
    type V = CorsRuleView;

    open(crate) spec fn view(&self) -> CorsRuleView {
        CorsRuleView {
            allowed_headers: self.allowed_headers,
            allowed_methods: self.allowed_methods,
            allowed_origins: self.allowed_origins,
            exposed_headers: self.exposed_headers,
            max_age: self.max_age,
        }
    }
}

/// Part of the LifecycleConfiguration configuration.
pub struct LifecycleConfiguration {
    pub(crate) rules: Vec<LifecycleRule>,
    pub(crate) transition_minimum_size: Option<String>,
}

/// What a [`LifecycleConfiguration`] holds.
pub struct LifecycleConfigurationView {
    pub rules: Vec<LifecycleRule>,
    pub transition_minimum_size: Option<String>,
}

impl View for LifecycleConfiguration {
    type V = LifecycleConfigurationView;

    open(crate) spec fn view(&self) -> LifecycleConfigurationView {
        LifecycleConfigurationView {
            rules: self.rules,
            transition_minimum_size: self.transition_minimum_size,
        }
    }
}

/// Part of the LifecycleRuleTransition configuration.
pub struct LifecycleRuleTransition {
    pub(crate) storage_class: String,
    pub(crate) transition_in_days: u16,
}

/// What a [`LifecycleRuleTransition`] holds.
pub struct LifecycleRuleTransitionView {
    pub storage_class: String,
    pub transition_in_days: u16,
}

impl View for LifecycleRuleTransition {
    type V = LifecycleRuleTransitionView;

    open(crate) spec fn view(&self) -> LifecycleRuleTransitionView {
        LifecycleRuleTransitionView {
            storage_class: self.storage_class,
            transition_in_days: self.transition_in_days,
        }
    }
}

/// Part of the NonCurrentVersionTransition configuration.
pub struct NonCurrentVersionTransition {
    pub(crate) storage_class: String,
    pub(crate) transition_in_days: u32,
    pub(crate) newer_non_current_versions: Option<u32>,
}

/// What a [`NonCurrentVersionTransition`] holds.
pub struct NonCurrentVersionTransitionView {
    pub storage_class: String,
    pub transition_in_days: u32,
    pub newer_non_current_versions: Option<u32>,
}

impl View for NonCurrentVersionTransition {
    type V = NonCurrentVersionTransitionView;

    open(crate) spec fn view(&self) -> NonCurrentVersionTransitionView {
        NonCurrentVersionTransitionView {
            storage_class: self.storage_class,
            transition_in_days: self.transition_in_days,
            newer_non_current_versions: self.newer_non_current_versions,
        }
    }
}

/// Part of the LifecycleRule configuration.
pub struct LifecycleRule {
    pub(crate) id: Option<String>,
    pub(crate) status: String,
    pub(crate) expiration_in_days: Option<u16>,
    pub(crate) prefix: Option<String>,
    pub(crate) object_size_greater_than: Option<u32>,
    pub(crate) object_size_less_than: Option<u32>,
    pub(crate) abort_incomplete_multipart_upload: Option<u16>,
    pub(crate) non_current_version_expiration: Option<u16>,
    pub(crate) transitions: Option<Vec<LifecycleRuleTransition>>,
    pub(crate) non_current_version_transitions: Option<Vec<NonCurrentVersionTransition>>,
}

/// What a [`LifecycleRule`] holds.
pub struct LifecycleRuleView {
    pub id: Option<String>,
    pub status: String,
    pub expiration_in_days: Option<u16>,
    pub prefix: Option<String>,
    pub object_size_greater_than: Option<u32>,
    pub object_size_less_than: Option<u32>,
    pub abort_incomplete_multipart_upload: Option<u16>,
    pub non_current_version_expiration: Option<u16>,
    pub transitions: Option<Vec<LifecycleRuleTransition>>,
    pub non_current_version_transitions: Option<Vec<NonCurrentVersionTransition>>,
}

impl View for LifecycleRule {
    type V = LifecycleRuleView;

    open(crate) spec fn view(&self) -> LifecycleRuleView {
        LifecycleRuleView {
            id: self.id,
            status: self.status,
            expiration_in_days: self.expiration_in_days,
            prefix: self.prefix,
            object_size_greater_than: self.object_size_greater_than,
            object_size_less_than: self.object_size_less_than,
            abort_incomplete_multipart_upload: self.abort_incomplete_multipart_upload,
            non_current_version_expiration: self.non_current_version_expiration,
            transitions: self.transitions,
            non_current_version_transitions: self.non_current_version_transitions,
        }
    }
}

/// Part of the TopicConfiguration configuration.
pub struct TopicConfiguration {
    pub(crate) event: String,
    pub(crate) topic: String,
    pub(crate) filter: Option<NotificationFilter>,
}

/// What a [`TopicConfiguration`] holds.
pub struct TopicConfigurationView {
    pub event: String,
    pub topic: String,
    pub filter: Option<NotificationFilter>,
}

impl View for TopicConfiguration {
    type V = TopicConfigurationView;

    open(crate) spec fn view(&self) -> TopicConfigurationView {
        TopicConfigurationView {
            event: self.event,
            topic: self.topic,
            filter: self.filter,
        }
    }
}

/// Part of the QueueConfiguration configuration.
pub struct QueueConfiguration {
    pub(crate) event: String,
    pub(crate) queue: String,
    pub(crate) filter: Option<NotificationFilter>,
}

/// What a [`QueueConfiguration`] holds.
pub struct QueueConfigurationView {
    pub event: String,
    pub queue: String,
    pub filter: Option<NotificationFilter>,
}

impl View for QueueConfiguration {
    type V = QueueConfigurationView;

    open(crate) spec fn view(&self) -> QueueConfigurationView {
        QueueConfigurationView {
            event: self.event,
            queue: self.queue,
            filter: self.filter,
        }
    }
}

/// Part of the LambdaConfiguration configuration.
pub struct LambdaConfiguration {
    pub(crate) event: String,
    pub(crate) function: String,
    pub(crate) filter: Option<NotificationFilter>,
}

/// What a [`LambdaConfiguration`] holds.
pub struct LambdaConfigurationView {
    pub event: String,
    pub function: String,
    pub filter: Option<NotificationFilter>,
}

impl View for LambdaConfiguration {
    type V = LambdaConfigurationView;

    open(crate) spec fn view(&self) -> LambdaConfigurationView {
        LambdaConfigurationView {
            event: self.event,
            function: self.function,
            filter: self.filter,
        }
    }
}

/// Part of the NotificationFilter configuration.
pub struct NotificationFilter {
    pub(crate) s3_key: Option<S3KeyFilter>,
}

/// What a [`NotificationFilter`] holds.
pub struct NotificationFilterView {
    pub s3_key: Option<S3KeyFilter>,
}

impl View for NotificationFilter {
    type V = NotificationFilterView;

    open(crate) spec fn view(&self) -> NotificationFilterView {
        NotificationFilterView {
            s3_key: self.s3_key,
        }
    }
}

/// Part of the S3KeyFilter configuration.
pub struct S3KeyFilter {
    pub(crate) rules: Vec<FilterRule>,
}

/// What a [`S3KeyFilter`] holds.
pub struct S3KeyFilterView {
    pub rules: Vec<FilterRule>,
}

impl View for S3KeyFilter {
    type V = S3KeyFilterView;

    open(crate) spec fn view(&self) -> S3KeyFilterView {
        S3KeyFilterView {
            rules: self.rules,
        }
    }
}

/// Part of the FilterRule configuration.
pub struct FilterRule {
    pub(crate) name: String,
    pub(crate) value: String,
}

/// What a [`FilterRule`] holds.
pub struct FilterRuleView {
    pub name: String,
    pub value: String,
}

impl View for FilterRule {
    type V = FilterRuleView;

    open(crate) spec fn view(&self) -> FilterRuleView {
        FilterRuleView {
            name: self.name,
            value: self.value,
        }
    }
}

/// Part of the PublicAccessBlockConfiguration configuration.
pub struct PublicAccessBlockConfiguration {
    pub(crate) block_public_acls: Option<bool>,
    pub(crate) block_public_policy: Option<bool>,
    pub(crate) ignore_public_acls: Option<bool>,
    pub(crate) restrict_public_buckets: Option<bool>,
}

/// What a [`PublicAccessBlockConfiguration`] holds.
pub struct PublicAccessBlockConfigurationView {
    pub block_public_acls: Option<bool>,
    pub block_public_policy: Option<bool>,
    pub ignore_public_acls: Option<bool>,
    pub restrict_public_buckets: Option<bool>,
}

impl View for PublicAccessBlockConfiguration {
    type V = PublicAccessBlockConfigurationView;

    open(crate) spec fn view(&self) -> PublicAccessBlockConfigurationView {
        PublicAccessBlockConfigurationView {
            block_public_acls: self.block_public_acls,
            block_public_policy: self.block_public_policy,
            ignore_public_acls: self.ignore_public_acls,
            restrict_public_buckets: self.restrict_public_buckets,
        }
    }
}

/// Part of the VersioningConfig configuration.
pub struct VersioningConfig {
    pub(crate) status: String,
}

/// What a [`VersioningConfig`] holds.
pub struct VersioningConfigView {
    pub status: String,
}

impl View for VersioningConfig {
    type V = VersioningConfigView;

    open(crate) spec fn view(&self) -> VersioningConfigView {
        VersioningConfigView {
            status: self.status,
        }
    }
}

/// Part of the WebsiteConfiguration configuration.
pub struct WebsiteConfiguration {
    pub(crate) index_document: Option<String>,
    pub(crate) error_document: Option<String>,
    pub(crate) redirect_all_requests_to: Option<RedirectAllRequestsTo>,
}

/// What a [`WebsiteConfiguration`] holds.
pub struct WebsiteConfigurationView {
    pub index_document: Option<String>,
    pub error_document: Option<String>,
    pub redirect_all_requests_to: Option<RedirectAllRequestsTo>,
}

impl View for WebsiteConfiguration {
    type V = WebsiteConfigurationView;

    open(crate) spec fn view(&self) -> WebsiteConfigurationView {
        WebsiteConfigurationView {
            index_document: self.index_document,
            error_document: self.error_document,
            redirect_all_requests_to: self.redirect_all_requests_to,
        }
    }
}

/// Part of the RedirectAllRequestsTo configuration.
pub struct RedirectAllRequestsTo {
    pub(crate) host_name: String,
    pub(crate) protocol: Option<String>,
}

/// What a [`RedirectAllRequestsTo`] holds.
pub struct RedirectAllRequestsToView {
    pub host_name: String,
    pub protocol: Option<String>,
}

impl View for RedirectAllRequestsTo {
    type V = RedirectAllRequestsToView;

    open(crate) spec fn view(&self) -> RedirectAllRequestsToView {
        RedirectAllRequestsToView {
            host_name: self.host_name,
            protocol: self.protocol,
        }
    }
}

} // verus!
