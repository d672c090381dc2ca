use crate::json::{JsonView, Value};
use crate::s3::{
    AccelerateConfiguration, BucketPolicy, BucketPolicyRef, BucketRef, CorsConfiguration, CorsConfigurationView, CorsRule,
    CorsRuleView, IntelligentTieringConfiguration, IntelligentTieringConfigurationView, InventoryTableConfiguration,
    InventoryTableConfigurationView, JournalTableConfiguration, JournalTableConfigurationView, LifecycleConfiguration,
    LifecycleConfigurationView, LifecycleRule, LifecycleRuleTransition, LifecycleRuleTransitionView, LifecycleRuleView,
    MetadataConfiguration, MetadataConfigurationView, MetadataDestination, MetadataDestinationView,
    NonCurrentVersionTransition, NonCurrentVersionTransitionView, PublicAccessBlockConfiguration,
    PublicAccessBlockConfigurationView, RecordExpiration, RecordExpirationView, S3BucketPolicyProperties,
    S3BucketPolicyPropertiesView, TagFilter, TagFilterView, Tiering,
};
use crate::iam::PolicyDocument;
use crate::shared::{http_method_name, ref_json, HttpMethod, Id};
use crate::stack::{is_generated_id, Resource, StackBuilder, StackBuilderView};
use crate::text::views;
use crate::wrappers::{BucketTiering, LifecycleTransitionInDays, RecordExpirationDays, S3LifecycleObjectSizes};
use vstd::prelude::*;

verus! {

/// Builder for the policy of a bucket.
pub struct BucketPolicyBuilder {
    pub(crate) id: Id,
    pub(crate) bucket_name: Value,
    pub(crate) policy_document: PolicyDocument,
}

/// What a [`BucketPolicyBuilder`] holds.
pub struct BucketPolicyBuilderView {
    pub id: Id,
    pub bucket_name: Value,
    pub policy_document: PolicyDocument,
}

impl View for BucketPolicyBuilder {
    type V = BucketPolicyBuilderView;

    open(crate) spec fn view(&self) -> BucketPolicyBuilderView {
        BucketPolicyBuilderView { id: self.id, bucket_name: self.bucket_name, policy_document: self.policy_document }
    }
}

impl BucketPolicyBuilder {
    pub fn new(id: &str, bucket: &BucketRef, policy_document: PolicyDocument) -> (r: Self)
        ensures
            r@.id.0@ == id@,
            r@.bucket_name@ == ref_json(bucket@.resource_id, bucket@.ref_name),
            r@.policy_document == policy_document,
    {
        Self {
            id: Id(String::from_str(id)),
            bucket_name: bucket.get_ref(),
            policy_document: policy_document,
        }
    }

    pub(crate) fn new_with_bucket_ref(id: &str, bucket_name: Value, policy_document: PolicyDocument) -> (r: Self)
        ensures
            r@.id.0@ == id@,
            r@.bucket_name == bucket_name,
            r@.policy_document == policy_document,
    {
        Self { id: Id(String::from_str(id)), bucket_name, policy_document }
    }

    /// The policy with a fresh logical id, which it returns beside it.
    pub(crate) fn raw_build(self) -> (r: (String, BucketPolicy))
        ensures
            is_generated_id(r.0@, "S3BucketPolicy"@),
            r.1@.id == self@.id,
            r.1@.resource_id@ == r.0@,
            r.1@.resource_type@ == "AWS::S3::BucketPolicy"@,
            r.1@.properties@ == (S3BucketPolicyPropertiesView { bucket_name: self@.bucket_name, policy_document: self@.policy_document }),
    {
        let resource_id = Resource::generate_id("S3BucketPolicy");
        let policy = BucketPolicy {
            id: self.id,
            resource_id: resource_id.clone(),
            resource_type: String::from_str("AWS::S3::BucketPolicy"),
            properties: S3BucketPolicyProperties { bucket_name: self.bucket_name, policy_document: self.policy_document },
        };
        (resource_id, policy)
    }

    /// Adds the policy to the stack.
    pub fn build(self, stack_builder: &mut StackBuilder) -> (r: BucketPolicyRef)
        ensures
            final(stack_builder)@ == (StackBuilderView {
                resources: old(stack_builder)@.resources.push(final(stack_builder)@.resources.last()),
                ..old(stack_builder)@
            }),
            final(stack_builder)@.resources.last() matches Resource::BucketPolicy(p) && {
                &&& p@.id == self@.id
                &&& p@.resource_id@ == r@.resource_id
                &&& p@.resource_type@ == "AWS::S3::BucketPolicy"@
                &&& p@.properties@ == (S3BucketPolicyPropertiesView { bucket_name: self@.bucket_name, policy_document: self@.policy_document })
            },
            is_generated_id(r@.resource_id, "S3BucketPolicy"@),
            r@.ref_name is None,
            r@.arn_value is None,
    {
        let (resource_id, policy) = self.raw_build();
        stack_builder.add_resource(Resource::BucketPolicy(policy));
        BucketPolicyRef::internal_new(resource_id)
    }
}

/// Whether a bucket keeps the versions of its objects.
#[derive(Debug, Clone)]
pub enum VersioningConfiguration {
    Enabled,
    Suspended,
}

/// How CloudFormation writes a [`VersioningConfiguration`].
pub open spec fn versioning_configuration_name(v: VersioningConfiguration) -> Seq<char> {
    match v {
        VersioningConfiguration::Enabled => "Enabled"@,
        VersioningConfiguration::Suspended => "Suspended"@,
    }
}

impl vstd::std_specs::convert::FromSpecImpl<VersioningConfiguration> for String {
    open spec fn obeys_from_spec() -> bool {
        false
    }

    open spec fn from_spec(v: VersioningConfiguration) -> String {
        vstd::pervasive::arbitrary()
    }
}

impl From<VersioningConfiguration> for String {
    fn from(value: VersioningConfiguration) -> (r: String)
        ensures
            r@ == versioning_configuration_name(value),
    {
        match value {
            VersioningConfiguration::Enabled => String::from_str("Enabled"),
            VersioningConfiguration::Suspended => String::from_str("Suspended"),
        }
    }
}

/// How a bucket encrypts its objects by default.
#[derive(Debug, Clone)]
pub enum Encryption {
    S3Managed,
    KmsManaged,
    DsseManaged,
}

/// How CloudFormation writes a [`Encryption`].
pub open spec fn encryption_name(v: Encryption) -> Seq<char> {
    match v {
        Encryption::S3Managed => "AES256"@,
        Encryption::KmsManaged => "aws:kms"@,
        Encryption::DsseManaged => "aws:kms:dsse"@,
    }
}

impl vstd::std_specs::convert::FromSpecImpl<Encryption> for String {
    open spec fn obeys_from_spec() -> bool {
        false
    }

    open spec fn from_spec(v: Encryption) -> String {
        vstd::pervasive::arbitrary()
    }
}

impl From<Encryption> for String {
    fn from(value: Encryption) -> (r: String)
        ensures
            r@ == encryption_name(value),
    {
        match value {
            Encryption::S3Managed => String::from_str("AES256"),
            Encryption::KmsManaged => String::from_str("aws:kms"),
            Encryption::DsseManaged => String::from_str("aws:kms:dsse"),
        }
    }
}

/// An event of a bucket that a notification can be sent for.
#[derive(Debug, Clone)]
pub enum NotificationEventType {
    ObjectCreated,
    ObjectCreatedPut,
    ObjectCreatedPost,
    ObjectCreatedCopy,
    ObjectCreatedCompleteMultipartUpload,
    ObjectRemoved,
    ObjectRemovedDelete,
    ObjectRemovedDeleteMarkerCreated,
    ObjectRestorePost,
    ObjectRestoreCompleted,
    ObjectRestoreDelete,
    ReducedRedundancyLostObject,
    ReplicationOperationFailedReplication,
    ReplicationOperationMissedThreshold,
    ReplicationOperationReplicatedAfterThreshold,
    ReplicationOperationNotTracked,
    LifecycleExpiration,
    LifecycleExpirationDelete,
    LifecycleExpirationDeleteMarkerCreated,
    LifecycleTransition,
    IntelligentTiering,
    ObjectTagging,
    ObjectTaggingPut,
    ObjectTaggingDelete,
    ObjectAclPut,
    ObjectRestore,
    REPLICATION,
}

/// How CloudFormation writes a [`NotificationEventType`].
pub open spec fn notification_event_type_name(v: NotificationEventType) -> Seq<char> {
    match v {
        NotificationEventType::ObjectCreated => "s3:ObjectCreated:*"@,
        NotificationEventType::ObjectCreatedPut => "s3:ObjectCreated:Put"@,
        NotificationEventType::ObjectCreatedPost => "s3:ObjectCreated:Post"@,
        NotificationEventType::ObjectCreatedCopy => "s3:ObjectCreated:Copy"@,
        NotificationEventType::ObjectCreatedCompleteMultipartUpload => "s3:ObjectCreated:CompleteMultipartUpload"@,
        NotificationEventType::ObjectRemoved => "s3:ObjectRemoved:*"@,
        NotificationEventType::ObjectRemovedDelete => "s3:ObjectRemoved:Delete"@,
        NotificationEventType::ObjectRemovedDeleteMarkerCreated => "s3:ObjectRemoved:DeleteMarkerCreated"@,
        NotificationEventType::ObjectRestorePost => "s3:ObjectRestore:Post"@,
        NotificationEventType::ObjectRestoreCompleted => "s3:ObjectRestore:Completed"@,
        NotificationEventType::ObjectRestoreDelete => "s3:ObjectRestore:Delete"@,
        NotificationEventType::ReducedRedundancyLostObject => "s3:ReducedRedundancyLostObject"@,
        NotificationEventType::ReplicationOperationFailedReplication => "s3:Replication:OperationFailedReplication"@,
        NotificationEventType::ReplicationOperationMissedThreshold => "s3:Replication:OperationMissedThreshold"@,
        NotificationEventType::ReplicationOperationReplicatedAfterThreshold => "s3:Replication:OperationReplicatedAfterThreshold"@,
        NotificationEventType::ReplicationOperationNotTracked => "s3:Replication:OperationNotTracked"@,
        NotificationEventType::LifecycleExpiration => "s3:LifecycleExpiration:*"@,
        NotificationEventType::LifecycleExpirationDelete => "s3:LifecycleExpiration:Delete"@,
        NotificationEventType::LifecycleExpirationDeleteMarkerCreated => "s3:LifecycleExpiration:DeleteMarkerCreated"@,
        NotificationEventType::LifecycleTransition => "s3:LifecycleTransition"@,
        NotificationEventType::IntelligentTiering => "s3:IntelligentTiering"@,
        NotificationEventType::ObjectTagging => "s3:ObjectTagging:*"@,
        NotificationEventType::ObjectTaggingPut => "s3:ObjectTagging:Put"@,
        NotificationEventType::ObjectTaggingDelete => "s3:ObjectTagging:Delete"@,
        NotificationEventType::ObjectAclPut => "s3:ObjectAcl:Put"@,
        NotificationEventType::ObjectRestore => "s3:ObjectRestore:*"@,
        NotificationEventType::REPLICATION => "s3:Replication:*"@,
    }
}

impl vstd::std_specs::convert::FromSpecImpl<NotificationEventType> for String {
    open spec fn obeys_from_spec() -> bool {
        false
    }

    open spec fn from_spec(v: NotificationEventType) -> String {
        vstd::pervasive::arbitrary()
    }
}

impl From<NotificationEventType> for String {
    fn from(value: NotificationEventType) -> (r: String)
        ensures
            r@ == notification_event_type_name(value),
    {
        match value {
            NotificationEventType::ObjectCreated => String::from_str("s3:ObjectCreated:*"),
            NotificationEventType::ObjectCreatedPut => String::from_str("s3:ObjectCreated:Put"),
            NotificationEventType::ObjectCreatedPost => String::from_str("s3:ObjectCreated:Post"),
            NotificationEventType::ObjectCreatedCopy => String::from_str("s3:ObjectCreated:Copy"),
            NotificationEventType::ObjectCreatedCompleteMultipartUpload => String::from_str("s3:ObjectCreated:CompleteMultipartUpload"),
            NotificationEventType::ObjectRemoved => String::from_str("s3:ObjectRemoved:*"),
            NotificationEventType::ObjectRemovedDelete => String::from_str("s3:ObjectRemoved:Delete"),
            NotificationEventType::ObjectRemovedDeleteMarkerCreated => String::from_str("s3:ObjectRemoved:DeleteMarkerCreated"),
            NotificationEventType::ObjectRestorePost => String::from_str("s3:ObjectRestore:Post"),
            NotificationEventType::ObjectRestoreCompleted => String::from_str("s3:ObjectRestore:Completed"),
            NotificationEventType::ObjectRestoreDelete => String::from_str("s3:ObjectRestore:Delete"),
            NotificationEventType::ReducedRedundancyLostObject => String::from_str("s3:ReducedRedundancyLostObject"),
            NotificationEventType::ReplicationOperationFailedReplication => String::from_str("s3:Replication:OperationFailedReplication"),
            NotificationEventType::ReplicationOperationMissedThreshold => String::from_str("s3:Replication:OperationMissedThreshold"),
            NotificationEventType::ReplicationOperationReplicatedAfterThreshold => String::from_str("s3:Replication:OperationReplicatedAfterThreshold"),
            NotificationEventType::ReplicationOperationNotTracked => String::from_str("s3:Replication:OperationNotTracked"),
            NotificationEventType::LifecycleExpiration => String::from_str("s3:LifecycleExpiration:*"),
            NotificationEventType::LifecycleExpirationDelete => String::from_str("s3:LifecycleExpiration:Delete"),
            NotificationEventType::LifecycleExpirationDeleteMarkerCreated => String::from_str("s3:LifecycleExpiration:DeleteMarkerCreated"),
            NotificationEventType::LifecycleTransition => String::from_str("s3:LifecycleTransition"),
            NotificationEventType::IntelligentTiering => String::from_str("s3:IntelligentTiering"),
            NotificationEventType::ObjectTagging => String::from_str("s3:ObjectTagging:*"),
            NotificationEventType::ObjectTaggingPut => String::from_str("s3:ObjectTagging:Put"),
            NotificationEventType::ObjectTaggingDelete => String::from_str("s3:ObjectTagging:Delete"),
            NotificationEventType::ObjectAclPut => String::from_str("s3:ObjectAcl:Put"),
            NotificationEventType::ObjectRestore => String::from_str("s3:ObjectRestore:*"),
            NotificationEventType::REPLICATION => String::from_str("s3:Replication:*"),
        }
    }
}

/// Whether a bucket uses attribute-based access control.
#[derive(Debug, Clone)]
pub enum AbacStatus {
    Enabled,
    Disabled,
}

/// How CloudFormation writes a [`AbacStatus`].
pub open spec fn abac_status_name(v: AbacStatus) -> Seq<char> {
    match v {
        AbacStatus::Enabled => "Enabled"@,
        AbacStatus::Disabled => "Disabled"@,
    }
}

impl vstd::std_specs::convert::FromSpecImpl<AbacStatus> for String {
    open spec fn obeys_from_spec() -> bool {
        false
    }

    open spec fn from_spec(v: AbacStatus) -> String {
        vstd::pervasive::arbitrary()
    }
}

impl From<AbacStatus> for String {
    fn from(value: AbacStatus) -> (r: String)
        ensures
            r@ == abac_status_name(value),
    {
        match value {
            AbacStatus::Enabled => String::from_str("Enabled"),
            AbacStatus::Disabled => String::from_str("Disabled"),
        }
    }
}

/// Whether a bucket uses transfer acceleration.
#[derive(Debug, Clone)]
pub enum AccelerationStatus {
    Enabled,
    Suspended,
}

/// How CloudFormation writes a [`AccelerationStatus`].
pub open spec fn acceleration_status_name(v: AccelerationStatus) -> Seq<char> {
    match v {
        AccelerationStatus::Enabled => "Enabled"@,
        AccelerationStatus::Suspended => "Suspended"@,
    }
}

impl vstd::std_specs::convert::FromSpecImpl<AccelerationStatus> for String {
    open spec fn obeys_from_spec() -> bool {
        false
    }

    open spec fn from_spec(v: AccelerationStatus) -> String {
        vstd::pervasive::arbitrary()
    }
}

impl From<AccelerationStatus> for String {
    fn from(value: AccelerationStatus) -> (r: String)
        ensures
            r@ == acceleration_status_name(value),
    {
        match value {
            AccelerationStatus::Enabled => String::from_str("Enabled"),
            AccelerationStatus::Suspended => String::from_str("Suspended"),
        }
    }
}

/// Builder for the CORS rules of a bucket.
pub struct CorsConfigurationBuilder {
    pub(crate) rules: Vec<CorsRule>,
}

/// What a [`CorsConfigurationBuilder`] holds.
pub struct CorsConfigurationBuilderView {
    pub rules: Vec<CorsRule>,
}

impl View for CorsConfigurationBuilder {
    type V = CorsConfigurationBuilderView;

    open(crate) spec fn view(&self) -> CorsConfigurationBuilderView {
        CorsConfigurationBuilderView { rules: self.rules }
    }
}

impl CorsConfigurationBuilder {
    pub fn new(rules: Vec<CorsRule>) -> (r: Self)
        ensures
            r@.rules == rules,
    {
        Self {
            rules: rules,
        }
    }

    pub fn build(self) -> (r: CorsConfiguration)
        ensures
            r@ == (CorsConfigurationView { cors_rules: self@.rules }),
    {
        CorsConfiguration {
            cors_rules: self.rules,
        }
    }
}

/// Builder for a CORS rule of a bucket.
pub struct CorsRuleBuilder {
    pub(crate) allow_origins: Vec<String>,
    pub(crate) allow_methods: Vec<HttpMethod>,
    pub(crate) allow_headers: Option<Vec<String>>,
    pub(crate) expose_headers: Option<Vec<String>>,
    pub(crate) max_age: Option<u64>,
}

/// What a [`CorsRuleBuilder`] holds.
pub struct CorsRuleBuilderView {
    pub allow_origins: Vec<String>,
    pub allow_methods: Vec<HttpMethod>,
    pub allow_headers: Option<Vec<String>>,
    pub expose_headers: Option<Vec<String>>,
    pub max_age: Option<u64>,
}

impl View for CorsRuleBuilder {
    type V = CorsRuleBuilderView;

    open(crate) spec fn view(&self) -> CorsRuleBuilderView {
        CorsRuleBuilderView { allow_origins: self.allow_origins, allow_methods: self.allow_methods, allow_headers: self.allow_headers, expose_headers: self.expose_headers, max_age: self.max_age }
    }
}

impl CorsRuleBuilder {
    pub fn new(allow_origins: Vec<String>, allow_methods: Vec<HttpMethod>) -> (r: Self)
        ensures
            r@.allow_origins == allow_origins,
            r@.allow_methods == allow_methods,
            r@.allow_headers is None,
            r@.expose_headers is None,
            r@.max_age is None,
    {
        Self {
            allow_origins: allow_origins,
            allow_methods: allow_methods,
            allow_headers: None,
            expose_headers: None,
            max_age: None,
        }
    }

    pub fn allow_headers(self, headers: Vec<String>) -> (r: Self)
        ensures
            r@ == (CorsRuleBuilderView { allow_headers: Some(headers), ..self@ }),
    {
        Self { allow_headers: Some(headers), ..self }
    }

    pub fn expose_headers(self, headers: Vec<String>) -> (r: Self)
        ensures
            r@ == (CorsRuleBuilderView { expose_headers: Some(headers), ..self@ }),
    {
        Self { expose_headers: Some(headers), ..self }
    }

    /// How long browsers may keep the answer to a preflight request, in whole seconds (a
    /// `Duration`'s `as_secs()`).
    pub fn max_age(self, seconds: u64) -> (r: Self)
        ensures
            r@ == (CorsRuleBuilderView { max_age: Some(seconds), ..self@ }),
    {
        Self { max_age: Some(seconds), ..self }
    }

    /// The rule, with its methods by name.
    pub fn build(self) -> (r: CorsRule)
        ensures
            r@.allowed_headers == self@.allow_headers,
            views(r@.allowed_methods@) == self@.allow_methods@.map_values(|m: HttpMethod| http_method_name(m)),
            r@.allowed_origins == self@.allow_origins,
            r@.exposed_headers == self@.expose_headers,
            r@.max_age == self@.max_age,
    {
        let ghost all = self.allow_methods@;
        let mut rest = self.allow_methods;
        let mut names: Vec<String> = Vec::new();
        while rest.len() > 0
            invariant
                names@.len() + rest@.len() == all.len(),
                rest@ == all.skip(names@.len() as int),
                views(names@) == all.take(names@.len() as int).map_values(|m: HttpMethod| http_method_name(m)),
            decreases rest@.len(),
        {
            let ghost k = names@.len() as int;
            let m = rest.remove(0);
            assert(all.skip(k)[0] == all[k]);
            let name: String = m.into();
            let ghost old_names = names@;
            names.push(name);
            assert(rest@ =~= all.skip(names@.len() as int));
            assert(all.take(k + 1) =~= all.take(k).push(all[k]));
            assert(views(names@) =~= views(old_names).push(http_method_name(all[k])));
        }
        assert(all.take(names@.len() as int) =~= all);
        CorsRule {
            allowed_headers: self.allow_headers,
            allowed_methods: names,
            allowed_origins: self.allow_origins,
            exposed_headers: self.expose_headers,
            max_age: self.max_age,
        }
    }
}

/// The smallest objects that lifecycle transitions move by default.
#[derive(Debug, Clone)]
pub enum TransitionDefaultMinimumObjectSize {
    VariesByStorageClass,
    AllStorageClasses128k,
}

/// How CloudFormation writes a [`TransitionDefaultMinimumObjectSize`].
pub open spec fn transition_default_minimum_object_size_name(v: TransitionDefaultMinimumObjectSize) -> Seq<char> {
    match v {
        TransitionDefaultMinimumObjectSize::VariesByStorageClass => "varies_by_storage_class"@,
        TransitionDefaultMinimumObjectSize::AllStorageClasses128k => "all_storage_classes_128K"@,
    }
}

impl vstd::std_specs::convert::FromSpecImpl<TransitionDefaultMinimumObjectSize> for String {
    open spec fn obeys_from_spec() -> bool {
        false
    }

    open spec fn from_spec(v: TransitionDefaultMinimumObjectSize) -> String {
        vstd::pervasive::arbitrary()
    }
}

impl From<TransitionDefaultMinimumObjectSize> for String {
    fn from(value: TransitionDefaultMinimumObjectSize) -> (r: String)
        ensures
            r@ == transition_default_minimum_object_size_name(value),
    {
        match value {
            TransitionDefaultMinimumObjectSize::VariesByStorageClass => String::from_str("varies_by_storage_class"),
            TransitionDefaultMinimumObjectSize::AllStorageClasses128k => String::from_str("all_storage_classes_128K"),
        }
    }
}

/// A storage class that lifecycle rules move objects to.
#[derive(Debug, Clone)]
pub enum LifecycleStorageClass {
    IntelligentTiering,
    OneZoneIA,
    StandardIA,
    GlacierDeepArchive,
    Glacier,
    GlacierInstantRetrieval,
}

/// How CloudFormation writes a [`LifecycleStorageClass`].
pub open spec fn lifecycle_storage_class_name(v: LifecycleStorageClass) -> Seq<char> {
    match v {
        LifecycleStorageClass::IntelligentTiering => "INTELLIGENT_TIERING"@,
        LifecycleStorageClass::OneZoneIA => "ONEZONE_IA"@,
        LifecycleStorageClass::StandardIA => "STANDARD_IA"@,
        LifecycleStorageClass::GlacierDeepArchive => "DEEP_ARCHIVE"@,
        LifecycleStorageClass::Glacier => "GLACIER"@,
        LifecycleStorageClass::GlacierInstantRetrieval => "GLACIER_IR"@,
    }
}

impl vstd::std_specs::convert::FromSpecImpl<LifecycleStorageClass> for String {
    open spec fn obeys_from_spec() -> bool {
        false
    }

    open spec fn from_spec(v: LifecycleStorageClass) -> String {
        vstd::pervasive::arbitrary()
    }
}

impl From<LifecycleStorageClass> for String {
    fn from(value: LifecycleStorageClass) -> (r: String)
        ensures
            r@ == lifecycle_storage_class_name(value),
    {
        match value {
            LifecycleStorageClass::IntelligentTiering => String::from_str("INTELLIGENT_TIERING"),
            LifecycleStorageClass::OneZoneIA => String::from_str("ONEZONE_IA"),
            LifecycleStorageClass::StandardIA => String::from_str("STANDARD_IA"),
            LifecycleStorageClass::GlacierDeepArchive => String::from_str("DEEP_ARCHIVE"),
            LifecycleStorageClass::Glacier => String::from_str("GLACIER"),
            LifecycleStorageClass::GlacierInstantRetrieval => String::from_str("GLACIER_IR"),
        }
    }
}

/// Builder for a transition of a lifecycle rule.
pub struct LifecycleRuleTransitionBuilder {
    pub(crate) storage_class: LifecycleStorageClass,
    pub(crate) transition_in_days: Option<u16>,
}

/// What a [`LifecycleRuleTransitionBuilder`] holds.
pub struct LifecycleRuleTransitionBuilderView {
    pub storage_class: LifecycleStorageClass,
    pub transition_in_days: Option<u16>,
}

impl View for LifecycleRuleTransitionBuilder {
    type V = LifecycleRuleTransitionBuilderView;

    open(crate) spec fn view(&self) -> LifecycleRuleTransitionBuilderView {
        LifecycleRuleTransitionBuilderView { storage_class: self.storage_class, transition_in_days: self.transition_in_days }
    }
}

impl LifecycleRuleTransitionBuilder {
    pub fn new(storage_class: LifecycleStorageClass) -> (r: Self)
        ensures
            r@.storage_class == storage_class,
            r@.transition_in_days is None,
    {
        Self {
            storage_class: storage_class,
            transition_in_days: None,
        }
    }

    pub fn transition_in_days(self, days: LifecycleTransitionInDays) -> (r: Self)
        ensures
            r@ == (LifecycleRuleTransitionBuilderView { transition_in_days: Some(days.0), ..self@ }),
    {
        Self { transition_in_days: Some(days.0), ..self }
    }

    /// The transition; without a number of days it happens at once.
    pub fn build(self) -> (r: LifecycleRuleTransition)
        ensures
            r@.storage_class@ == lifecycle_storage_class_name(self@.storage_class),
            r@.transition_in_days == match self@.transition_in_days {
                Some(d) => d,
                None => 0,
            },
    {
        LifecycleRuleTransition {
            storage_class: self.storage_class.into(),
            transition_in_days: match self.transition_in_days {
                Some(d) => d,
                None => 0,
            },
        }
    }
}

/// Builder for a transition of the noncurrent versions of objects.
pub struct NonCurrentVersionTransitionBuilder {
    pub(crate) storage_class: LifecycleStorageClass,
    pub(crate) transition_in_days: u32,
    pub(crate) newer_non_current_versions: Option<u32>,
}

/// What a [`NonCurrentVersionTransitionBuilder`] holds.
pub struct NonCurrentVersionTransitionBuilderView {
    pub storage_class: LifecycleStorageClass,
    pub transition_in_days: u32,
    pub newer_non_current_versions: Option<u32>,
}

impl View for NonCurrentVersionTransitionBuilder {
    type V = NonCurrentVersionTransitionBuilderView;

    open(crate) spec fn view(&self) -> NonCurrentVersionTransitionBuilderView {
        NonCurrentVersionTransitionBuilderView { storage_class: self.storage_class, transition_in_days: self.transition_in_days, newer_non_current_versions: self.newer_non_current_versions }
    }
}

impl NonCurrentVersionTransitionBuilder {
    pub fn new(storage_class: LifecycleStorageClass, transition_in_days: u32) -> (r: Self)
        ensures
            r@.storage_class == storage_class,
            r@.transition_in_days == transition_in_days,
            r@.newer_non_current_versions is None,
    {
        Self {
            storage_class: storage_class,
            transition_in_days: transition_in_days,
            newer_non_current_versions: None,
        }
    }

    pub fn newer_non_current_versions(self, versions: u32) -> (r: Self)
        ensures
            r@ == (NonCurrentVersionTransitionBuilderView { newer_non_current_versions: Some(versions), ..self@ }),
    {
        Self { newer_non_current_versions: Some(versions), ..self }
    }

    pub fn build(self) -> (r: NonCurrentVersionTransition)
        ensures
            r@.storage_class@ == lifecycle_storage_class_name(self@.storage_class),
            r@.transition_in_days == self@.transition_in_days,
            r@.newer_non_current_versions == self@.newer_non_current_versions,
    {
        NonCurrentVersionTransition {
            storage_class: self.storage_class.into(),
            transition_in_days: self.transition_in_days,
            newer_non_current_versions: self.newer_non_current_versions,
        }
    }
}

/// Whether a lifecycle rule applies.
#[derive(Debug, Clone)]
pub enum LifecycleRuleStatus {
    Enabled,
    Disabled,
}

/// How CloudFormation writes a [`LifecycleRuleStatus`].
pub open spec fn lifecycle_rule_status_name(v: LifecycleRuleStatus) -> Seq<char> {
    match v {
        LifecycleRuleStatus::Enabled => "Enabled"@,
        LifecycleRuleStatus::Disabled => "Disabled"@,
    }
}

impl vstd::std_specs::convert::FromSpecImpl<LifecycleRuleStatus> for String {
    open spec fn obeys_from_spec() -> bool {
        false
    }

    open spec fn from_spec(v: LifecycleRuleStatus) -> String {
        vstd::pervasive::arbitrary()
    }
}

impl From<LifecycleRuleStatus> for String {
    fn from(value: LifecycleRuleStatus) -> (r: String)
        ensures
            r@ == lifecycle_rule_status_name(value),
    {
        match value {
            LifecycleRuleStatus::Enabled => String::from_str("Enabled"),
            LifecycleRuleStatus::Disabled => String::from_str("Disabled"),
        }
    }
}

/// Builder for a lifecycle rule of a bucket.
pub struct LifecycleRuleBuilder {
    pub(crate) id: Option<String>,
    pub(crate) status: LifecycleRuleStatus,
    pub(crate) expiration_in_days: Option<u16>,
    pub(crate) prefix: Option<String>,
    pub(crate) object_size_greater_than: Option<u32>,
    pub(crate) object_size_less_than: Option<u32>,
    pub(crate) abort_incomplete_multipart_upload: Option<u16>,
    pub(crate) non_current_version_expiration: Option<u16>,
    pub(crate) transitions: Option<Vec<LifecycleRuleTransition>>,
    pub(crate) non_current_version_transitions: Option<Vec<NonCurrentVersionTransition>>,
}

/// What a [`LifecycleRuleBuilder`] holds.
pub struct LifecycleRuleBuilderView {
    pub id: Option<String>,
    pub status: LifecycleRuleStatus,
    pub expiration_in_days: Option<u16>,
    pub prefix: Option<String>,
    pub object_size_greater_than: Option<u32>,
    pub object_size_less_than: Option<u32>,
    pub abort_incomplete_multipart_upload: Option<u16>,
    pub non_current_version_expiration: Option<u16>,
    pub transitions: Option<Vec<LifecycleRuleTransition>>,
    pub non_current_version_transitions: Option<Vec<NonCurrentVersionTransition>>,
}

impl View for LifecycleRuleBuilder {
    type V = LifecycleRuleBuilderView;

    open(crate) spec fn view(&self) -> LifecycleRuleBuilderView {
        LifecycleRuleBuilderView { id: self.id, status: self.status, expiration_in_days: self.expiration_in_days, prefix: self.prefix, object_size_greater_than: self.object_size_greater_than, object_size_less_than: self.object_size_less_than, abort_incomplete_multipart_upload: self.abort_incomplete_multipart_upload, non_current_version_expiration: self.non_current_version_expiration, transitions: self.transitions, non_current_version_transitions: self.non_current_version_transitions }
    }
}

impl LifecycleRuleBuilder {
    pub fn new(status: LifecycleRuleStatus) -> (r: Self)
        ensures
            r@.id is None,
            r@.status == status,
            r@.expiration_in_days is None,
            r@.prefix is None,
            r@.object_size_greater_than is None,
            r@.object_size_less_than is None,
            r@.abort_incomplete_multipart_upload is None,
            r@.non_current_version_expiration is None,
            r@.transitions is None,
            r@.non_current_version_transitions is None,
    {
        Self {
            id: None,
            status: status,
            expiration_in_days: None,
            prefix: None,
            object_size_greater_than: None,
            object_size_less_than: None,
            abort_incomplete_multipart_upload: None,
            non_current_version_expiration: None,
            transitions: None,
            non_current_version_transitions: None,
        }
    }

    pub fn id(self, id: &str) -> (r: Self)
        ensures
            r@ == (LifecycleRuleBuilderView { id: r@.id, ..self@ }),
            r@.id matches Some(i) && i@ == id@,
    {
        Self { id: Some(String::from_str(id)), ..self }
    }

    pub fn expiration_in_days(self, days: u16) -> (r: Self)
        ensures
            r@ == (LifecycleRuleBuilderView { expiration_in_days: Some(days), ..self@ }),
    {
        Self { expiration_in_days: Some(days), ..self }
    }

    pub fn prefix(self, prefix: &str) -> (r: Self)
        ensures
            r@ == (LifecycleRuleBuilderView { prefix: r@.prefix, ..self@ }),
            r@.prefix matches Some(p) && p@ == prefix@,
    {
        Self { prefix: Some(String::from_str(prefix)), ..self }
    }

    pub fn abort_incomplete_multipart_upload(self, days: u16) -> (r: Self)
        ensures
            r@ == (LifecycleRuleBuilderView { abort_incomplete_multipart_upload: Some(days), ..self@ }),
    {
        Self { abort_incomplete_multipart_upload: Some(days), ..self }
    }

    pub fn non_current_version_expiration(self, days: u16) -> (r: Self)
        ensures
            r@ == (LifecycleRuleBuilderView { non_current_version_expiration: Some(days), ..self@ }),
    {
        Self { non_current_version_expiration: Some(days), ..self }
    }

    /// Sets the sizes between which objects are affected: the first is the minimum size (objects
    /// must be greater than it), the second the maximum (objects must be less than it).
    pub fn object_size(self, sizes: S3LifecycleObjectSizes) -> (r: Self)
        ensures
            r@ == (LifecycleRuleBuilderView { object_size_greater_than: sizes.0, object_size_less_than: sizes.1, ..self@ }),
    {
        Self { object_size_greater_than: sizes.0, object_size_less_than: sizes.1, ..self }
    }

    pub fn add_transition(self, transition: LifecycleRuleTransition) -> (r: Self)
        ensures
            r@ == (LifecycleRuleBuilderView { transitions: r@.transitions, ..self@ }),
            r@.transitions matches Some(v) && v@ == match self@.transitions {
                Some(old) => old@.push(transition),
                None => seq![transition],
            },
    {
        let values = match self.transitions {
            Some(values) => {
                let mut values = values;
                values.push(transition);
                values
            },
            None => {
                let mut values = Vec::new();
                values.push(transition);
                values
            },
        };
        Self { transitions: Some(values), ..self }
    }

    pub fn add_non_current_version_transitions(self, transition: NonCurrentVersionTransition) -> (r: Self)
        ensures
            r@ == (LifecycleRuleBuilderView { non_current_version_transitions: r@.non_current_version_transitions, ..self@ }),
            r@.non_current_version_transitions matches Some(v) && v@ == match self@.non_current_version_transitions {
                Some(old) => old@.push(transition),
                None => seq![transition],
            },
    {
        let values = match self.non_current_version_transitions {
            Some(values) => {
                let mut values = values;
                values.push(transition);
                values
            },
            None => {
                let mut values = Vec::new();
                values.push(transition);
                values
            },
        };
        Self { non_current_version_transitions: Some(values), ..self }
    }

    pub fn build(self) -> (r: LifecycleRule)
        ensures
            r@.id == self@.id,
            r@.expiration_in_days == self@.expiration_in_days,
            r@.prefix == self@.prefix,
            r@.object_size_greater_than == self@.object_size_greater_than,
            r@.object_size_less_than == self@.object_size_less_than,
            r@.abort_incomplete_multipart_upload == self@.abort_incomplete_multipart_upload,
            r@.non_current_version_expiration == self@.non_current_version_expiration,
            r@.transitions == self@.transitions,
            r@.non_current_version_transitions == self@.non_current_version_transitions,
            r@.status@ == lifecycle_rule_status_name(self@.status),
    {
        LifecycleRule {
            id: self.id,
            status: self.status.into(),
            expiration_in_days: self.expiration_in_days,
            prefix: self.prefix,
            object_size_greater_than: self.object_size_greater_than,
            object_size_less_than: self.object_size_less_than,
            abort_incomplete_multipart_upload: self.abort_incomplete_multipart_upload,
            non_current_version_expiration: self.non_current_version_expiration,
            transitions: self.transitions,
            non_current_version_transitions: self.non_current_version_transitions,
        }
    }
}

/// Builder for the lifecycle rules of a bucket.
pub struct LifecycleConfigurationBuilder {
    pub(crate) rules: Vec<LifecycleRule>,
    pub(crate) transition_minimum_size: Option<TransitionDefaultMinimumObjectSize>,
}

/// What a [`LifecycleConfigurationBuilder`] holds.
pub struct LifecycleConfigurationBuilderView {
    pub rules: Vec<LifecycleRule>,
    pub transition_minimum_size: Option<TransitionDefaultMinimumObjectSize>,
}

impl View for LifecycleConfigurationBuilder {
    type V = LifecycleConfigurationBuilderView;

    open(crate) spec fn view(&self) -> LifecycleConfigurationBuilderView {
        LifecycleConfigurationBuilderView { rules: self.rules, transition_minimum_size: self.transition_minimum_size }
    }
}

impl Default for LifecycleConfigurationBuilder {
    /// A configuration without rules.
    fn default() -> (r: Self)
        ensures
            r@.rules@.len() == 0,
            r@.transition_minimum_size is None,
    {
        Self::new()
    }
}

impl LifecycleConfigurationBuilder {
    pub fn new() -> (r: Self)
        ensures
            r@.rules@.len() == 0,
            r@.transition_minimum_size is None,
    {
        Self {
            rules: Vec::new(),
            transition_minimum_size: None,
        }
    }

    pub fn transition_minimum_size(self, size: TransitionDefaultMinimumObjectSize) -> (r: Self)
        ensures
            r@ == (LifecycleConfigurationBuilderView { transition_minimum_size: Some(size), ..self@ }),
    {
        Self { transition_minimum_size: Some(size), ..self }
    }

    pub fn add_rule(self, rule: LifecycleRule) -> (r: Self)
        ensures
            r@ == (LifecycleConfigurationBuilderView { rules: r@.rules, ..self@ }),
            r@.rules@ == self@.rules@.push(rule),
    {
        let mut me = self;
        me.rules.push(rule);
        me
    }

    pub fn build(self) -> (r: LifecycleConfiguration)
        ensures
            r@.rules == self@.rules,
            crate::shared::opt_view(r@.transition_minimum_size) == match self@.transition_minimum_size {
                Some(s) => Some(transition_default_minimum_object_size_name(s)),
                None => None,
            },
    {
        LifecycleConfiguration {
            rules: self.rules,
            transition_minimum_size: match self.transition_minimum_size {
                Some(v) => Some(v.into()),
                None => None,
            },
        }
    }
}

/// Builder for what a bucket blocks of public access.
pub struct PublicAccessBlockConfigurationBuilder {
    pub(crate) block_public_acls: Option<bool>,
    pub(crate) block_public_policy: Option<bool>,
    pub(crate) ignore_public_acls: Option<bool>,
    pub(crate) restrict_public_buckets: Option<bool>,
}

/// What a [`PublicAccessBlockConfigurationBuilder`] holds.
pub struct PublicAccessBlockConfigurationBuilderView {
    pub block_public_acls: Option<bool>,
    pub block_public_policy: Option<bool>,
    pub ignore_public_acls: Option<bool>,
    pub restrict_public_buckets: Option<bool>,
}

impl View for PublicAccessBlockConfigurationBuilder {
    type V = PublicAccessBlockConfigurationBuilderView;

    open(crate) spec fn view(&self) -> PublicAccessBlockConfigurationBuilderView {
        PublicAccessBlockConfigurationBuilderView { block_public_acls: self.block_public_acls, block_public_policy: self.block_public_policy, ignore_public_acls: self.ignore_public_acls, restrict_public_buckets: self.restrict_public_buckets }
    }
}

impl Default for PublicAccessBlockConfigurationBuilder {
    /// A configuration that blocks nothing explicitly.
    fn default() -> (r: Self)
        ensures
            r@.block_public_acls is None,
            r@.block_public_policy is None,
            r@.ignore_public_acls is None,
            r@.restrict_public_buckets is None,
    {
        Self::new()
    }
}

impl PublicAccessBlockConfigurationBuilder {
    pub fn new() -> (r: Self)
        ensures
            r@.block_public_acls is None,
            r@.block_public_policy is None,
            r@.ignore_public_acls is None,
            r@.restrict_public_buckets is None,
    {
        Self {
            block_public_acls: None,
            block_public_policy: None,
            ignore_public_acls: None,
            restrict_public_buckets: None,
        }
    }

    pub fn block_public_acls(self, config: bool) -> (r: Self)
        ensures
            r@ == (PublicAccessBlockConfigurationBuilderView { block_public_acls: Some(config), ..self@ }),
    {
        Self { block_public_acls: Some(config), ..self }
    }

    pub fn block_public_policy(self, config: bool) -> (r: Self)
        ensures
            r@ == (PublicAccessBlockConfigurationBuilderView { block_public_policy: Some(config), ..self@ }),
    {
        Self { block_public_policy: Some(config), ..self }
    }

    pub fn ignore_public_acls(self, config: bool) -> (r: Self)
        ensures
            r@ == (PublicAccessBlockConfigurationBuilderView { ignore_public_acls: Some(config), ..self@ }),
    {
        Self { ignore_public_acls: Some(config), ..self }
    }

    pub fn restrict_public_buckets(self, config: bool) -> (r: Self)
        ensures
            r@ == (PublicAccessBlockConfigurationBuilderView { restrict_public_buckets: Some(config), ..self@ }),
    {
        Self { restrict_public_buckets: Some(config), ..self }
    }

    pub fn build(self) -> (r: PublicAccessBlockConfiguration)
        ensures
            r@ == (PublicAccessBlockConfigurationView { block_public_acls: self@.block_public_acls, block_public_policy: self@.block_public_policy, ignore_public_acls: self@.ignore_public_acls, restrict_public_buckets: self@.restrict_public_buckets }),
    {
        PublicAccessBlockConfiguration {
            block_public_acls: self.block_public_acls,
            block_public_policy: self.block_public_policy,
            ignore_public_acls: self.ignore_public_acls,
            restrict_public_buckets: self.restrict_public_buckets,
        }
    }
}

/// Whether an intelligent tiering configuration applies.
pub enum IntelligentTieringStatus {
    Enabled,
    Disabled,
}

/// How CloudFormation writes a [`IntelligentTieringStatus`].
pub open spec fn intelligent_tiering_status_name(v: IntelligentTieringStatus) -> Seq<char> {
    match v {
        IntelligentTieringStatus::Enabled => "Enabled"@,
        IntelligentTieringStatus::Disabled => "Disabled"@,
    }
}

impl vstd::std_specs::convert::FromSpecImpl<IntelligentTieringStatus> for String {
    open spec fn obeys_from_spec() -> bool {
        false
    }

    open spec fn from_spec(v: IntelligentTieringStatus) -> String {
        vstd::pervasive::arbitrary()
    }
}

impl From<IntelligentTieringStatus> for String {
    fn from(value: IntelligentTieringStatus) -> (r: String)
        ensures
            r@ == intelligent_tiering_status_name(value),
    {
        match value {
            IntelligentTieringStatus::Enabled => String::from_str("Enabled"),
            IntelligentTieringStatus::Disabled => String::from_str("Disabled"),
        }
    }
}

/// Builder for a filter on the tags of objects.
pub struct TagFilterBuilder {
    pub(crate) key: String,
    pub(crate) value: String,
}

/// What a [`TagFilterBuilder`] holds.
pub struct TagFilterBuilderView {
    pub key: String,
    pub value: String,
}

impl View for TagFilterBuilder {
    type V = TagFilterBuilderView;

    open(crate) spec fn view(&self) -> TagFilterBuilderView {
        TagFilterBuilderView { key: self.key, value: self.value }
    }
}

impl TagFilterBuilder {
    pub fn new(key: &str, value: &str) -> (r: Self)
        ensures
            r@.key@ == key@,
            r@.value@ == value@,
    {
        Self {
            key: String::from_str(key),
            value: String::from_str(value),
        }
    }

    pub fn build(self) -> (r: TagFilter)
        ensures
            r@ == (TagFilterView { key: self@.key, value: self@.value }),
    {
        TagFilter {
            key: self.key,
            value: self.value,
        }
    }
}

/// Builder for an intelligent tiering configuration of a bucket.
pub struct IntelligentTieringConfigurationBuilder {
    pub(crate) id: String,
    pub(crate) status: String,
    pub(crate) prefix: Option<String>,
    pub(crate) tag_filters: Option<Vec<TagFilter>>,
    pub(crate) tierings: Vec<Tiering>,
}

/// What a [`IntelligentTieringConfigurationBuilder`] holds.
pub struct IntelligentTieringConfigurationBuilderView {
    pub id: String,
    pub status: String,
    pub prefix: Option<String>,
    pub tag_filters: Option<Vec<TagFilter>>,
    pub tierings: Vec<Tiering>,
}

impl View for IntelligentTieringConfigurationBuilder {
    type V = IntelligentTieringConfigurationBuilderView;

    open(crate) spec fn view(&self) -> IntelligentTieringConfigurationBuilderView {
        IntelligentTieringConfigurationBuilderView { id: self.id, status: self.status, prefix: self.prefix, tag_filters: self.tag_filters, tierings: self.tierings }
    }
}

impl IntelligentTieringConfigurationBuilder {
    pub fn new(id: &str, status: IntelligentTieringStatus, tierings: Vec<BucketTiering>) -> (r: Self)
        ensures
            r@.id@ == id@,
            r@.status@ == intelligent_tiering_status_name(status),
            r@.prefix is None,
            r@.tag_filters is None,
            r@.tierings@.map_values(|t: Tiering| (t@.access_tier@, t@.days)) == tierings@.map_values(|t: BucketTiering| (t.0@, t.1)),
    {
        Self {
            id: String::from_str(id),
            status: status.into(),
            prefix: None,
            tag_filters: None,
            tierings: to_tierings(tierings),
        }
    }

    pub fn prefix(self, prefix: &str) -> (r: Self)
        ensures
            r@ == (IntelligentTieringConfigurationBuilderView { prefix: r@.prefix, ..self@ }),
            r@.prefix matches Some(p) && p@ == prefix@,
    {
        Self { prefix: Some(String::from_str(prefix)), ..self }
    }

    pub fn add_tag_filter(self, tag_filter: TagFilter) -> (r: Self)
        ensures
            r@ == (IntelligentTieringConfigurationBuilderView { tag_filters: r@.tag_filters, ..self@ }),
            r@.tag_filters matches Some(v) && v@ == match self@.tag_filters {
                Some(old) => old@.push(tag_filter),
                None => seq![tag_filter],
            },
    {
        let values = match self.tag_filters {
            Some(values) => {
                let mut values = values;
                values.push(tag_filter);
                values
            },
            None => {
                let mut values = Vec::new();
                values.push(tag_filter);
                values
            },
        };
        Self { tag_filters: Some(values), ..self }
    }

    pub fn build(self) -> (r: IntelligentTieringConfiguration)
        ensures
            r@ == (IntelligentTieringConfigurationView { id: self@.id, prefix: self@.prefix, status: self@.status, tag_filters: self@.tag_filters, tierings: self@.tierings }),
    {
        IntelligentTieringConfiguration {
            id: self.id,
            prefix: self.prefix,
            status: self.status,
            tag_filters: self.tag_filters,
            tierings: self.tierings,
        }
    }
}

/// The tierings of a configuration: each access tier with its number of days.
fn to_tierings(tierings: Vec<BucketTiering>) -> (r: Vec<Tiering>)
    ensures
        r@.map_values(|t: Tiering| (t@.access_tier@, t@.days)) == tierings@.map_values(|t: BucketTiering| (t.0@, t.1)),
{
    let ghost all = tierings@;
    let mut rest = tierings;
    let mut out: Vec<Tiering> = Vec::new();
    while rest.len() > 0
        invariant
            out@.len() + rest@.len() == all.len(),
            rest@ == all.skip(out@.len() as int),
            out@.map_values(|t: Tiering| (t@.access_tier@, t@.days)) == all.take(out@.len() as int).map_values(
                |t: BucketTiering| (t.0@, t.1),
            ),
        decreases rest@.len(),
    {
        let ghost k = out@.len() as int;
        let t = rest.remove(0);
        assert(all.skip(k)[0] == all[k]);
        let ghost old_out = out@;
        out.push(Tiering { access_tier: t.0, days: t.1 });
        assert(rest@ =~= all.skip(out@.len() as int));
        assert(all.take(k + 1) =~= all.take(k).push(all[k]));
        assert(out@.map_values(|t: Tiering| (t@.access_tier@, t@.days)) =~= old_out.map_values(
            |t: Tiering| (t@.access_tier@, t@.days),
        ).push((all[k].0@, all[k].1)));
        assert(all.take(k + 1).map_values(|t: BucketTiering| (t.0@, t.1)) =~= all.take(k).map_values(
            |t: BucketTiering| (t.0@, t.1),
        ).push((all[k].0@, all[k].1)));
    }
    assert(all.take(out@.len() as int) =~= all);
    out
}

/// Who owns the table bucket of a metadata destination.
pub enum TableBucketType {
    Aws,
    Customer,
}

/// How CloudFormation writes a [`TableBucketType`].
pub open spec fn table_bucket_type_name(v: TableBucketType) -> Seq<char> {
    match v {
        TableBucketType::Aws => "aws"@,
        TableBucketType::Customer => "customer"@,
    }
}

impl vstd::std_specs::convert::FromSpecImpl<TableBucketType> for String {
    open spec fn obeys_from_spec() -> bool {
        false
    }

    open spec fn from_spec(v: TableBucketType) -> String {
        vstd::pervasive::arbitrary()
    }
}

impl From<TableBucketType> for String {
    fn from(value: TableBucketType) -> (r: String)
        ensures
            r@ == table_bucket_type_name(value),
    {
        match value {
            TableBucketType::Aws => String::from_str("aws"),
            TableBucketType::Customer => String::from_str("customer"),
        }
    }
}

/// Whether journal records expire.
pub enum Expiration {
    Enabled,
    Disabled,
}

/// How CloudFormation writes a [`Expiration`].
pub open spec fn expiration_name(v: Expiration) -> Seq<char> {
    match v {
        Expiration::Enabled => "ENABLED"@,
        Expiration::Disabled => "DISABLED"@,
    }
}

impl vstd::std_specs::convert::FromSpecImpl<Expiration> for String {
    open spec fn obeys_from_spec() -> bool {
        false
    }

    open spec fn from_spec(v: Expiration) -> String {
        vstd::pervasive::arbitrary()
    }
}

impl From<Expiration> for String {
    fn from(value: Expiration) -> (r: String)
        ensures
            r@ == expiration_name(value),
    {
        match value {
            Expiration::Enabled => String::from_str("ENABLED"),
            Expiration::Disabled => String::from_str("DISABLED"),
        }
    }
}

/// Builder for when journal records expire.
pub struct RecordExpirationBuilder {
    pub(crate) days: Option<u32>,
    pub(crate) expiration: String,
}

/// What a [`RecordExpirationBuilder`] holds.
pub struct RecordExpirationBuilderView {
    pub days: Option<u32>,
    pub expiration: String,
}

impl View for RecordExpirationBuilder {
    type V = RecordExpirationBuilderView;

    open(crate) spec fn view(&self) -> RecordExpirationBuilderView {
        RecordExpirationBuilderView { days: self.days, expiration: self.expiration }
    }
}

impl RecordExpirationBuilder {
    pub fn new(expiration: Expiration) -> (r: Self)
        ensures
            r@.days is None,
            r@.expiration@ == expiration_name(expiration),
    {
        Self {
            days: None,
            expiration: expiration.into(),
        }
    }

    pub fn days(self, days: RecordExpirationDays) -> (r: Self)
        ensures
            r@ == (RecordExpirationBuilderView { days: Some(days.0), ..self@ }),
    {
        Self { days: Some(days.0), ..self }
    }

    pub fn build(self) -> (r: RecordExpiration)
        ensures
            r@ == (RecordExpirationView { days: self@.days, expiration: self@.expiration }),
    {
        RecordExpiration {
            days: self.days,
            expiration: self.expiration,
        }
    }
}

/// Builder for the journal table of a bucket's metadata.
pub struct JournalTableConfigurationBuilder {
    pub(crate) record_expiration: RecordExpiration,
    pub(crate) table_arn: Option<Value>,
    pub(crate) table_name: Option<String>,
}

/// What a [`JournalTableConfigurationBuilder`] holds.
pub struct JournalTableConfigurationBuilderView {
    pub record_expiration: RecordExpiration,
    pub table_arn: Option<Value>,
    pub table_name: Option<String>,
}

impl View for JournalTableConfigurationBuilder {
    type V = JournalTableConfigurationBuilderView;

    open(crate) spec fn view(&self) -> JournalTableConfigurationBuilderView {
        JournalTableConfigurationBuilderView { record_expiration: self.record_expiration, table_arn: self.table_arn, table_name: self.table_name }
    }
}

impl JournalTableConfigurationBuilder {
    pub fn new(record_expiration: RecordExpiration) -> (r: Self)
        ensures
            r@.record_expiration == record_expiration,
            r@.table_arn is None,
            r@.table_name is None,
    {
        Self {
            record_expiration: record_expiration,
            table_arn: None,
            table_name: None,
        }
    }

    pub fn table_name(self, name: &str) -> (r: Self)
        ensures
            r@ == (JournalTableConfigurationBuilderView { table_name: r@.table_name, ..self@ }),
            r@.table_name matches Some(n) && n@ == name@,
    {
        Self { table_name: Some(String::from_str(name)), ..self }
    }

    pub fn table_arn(self, arn: Value) -> (r: Self)
        ensures
            r@ == (JournalTableConfigurationBuilderView { table_arn: Some(arn), ..self@ }),
    {
        Self { table_arn: Some(arn), ..self }
    }

    pub fn build(self) -> (r: JournalTableConfiguration)
        ensures
            r@ == (JournalTableConfigurationView { record_expiration: self@.record_expiration, table_arn: self@.table_arn, table_name: self@.table_name }),
    {
        JournalTableConfiguration {
            record_expiration: self.record_expiration,
            table_arn: self.table_arn,
            table_name: self.table_name,
        }
    }
}

/// Builder for where a bucket's metadata tables go.
pub struct MetadataDestinationBuilder {
    pub(crate) table_bucket_type: String,
    pub(crate) table_bucket_arn: Option<Value>,
    pub(crate) table_namespace: Option<String>,
}

/// What a [`MetadataDestinationBuilder`] holds.
pub struct MetadataDestinationBuilderView {
    pub table_bucket_type: String,
    pub table_bucket_arn: Option<Value>,
    pub table_namespace: Option<String>,
}

impl View for MetadataDestinationBuilder {
    type V = MetadataDestinationBuilderView;

    open(crate) spec fn view(&self) -> MetadataDestinationBuilderView {
        MetadataDestinationBuilderView { table_bucket_type: self.table_bucket_type, table_bucket_arn: self.table_bucket_arn, table_namespace: self.table_namespace }
    }
}

impl MetadataDestinationBuilder {
    pub fn new(table_bucket_type: TableBucketType) -> (r: Self)
        ensures
            r@.table_bucket_type@ == table_bucket_type_name(table_bucket_type),
            r@.table_bucket_arn is None,
            r@.table_namespace is None,
    {
        Self {
            table_bucket_type: table_bucket_type.into(),
            table_bucket_arn: None,
            table_namespace: None,
        }
    }

    pub fn table_bucket_arn(self, table_bucket_arn: Value) -> (r: Self)
        ensures
            r@ == (MetadataDestinationBuilderView { table_bucket_arn: Some(table_bucket_arn), ..self@ }),
    {
        Self { table_bucket_arn: Some(table_bucket_arn), ..self }
    }

    pub fn table_namespace(self, table_namespace: &str) -> (r: Self)
        ensures
            r@ == (MetadataDestinationBuilderView { table_namespace: r@.table_namespace, ..self@ }),
            r@.table_namespace matches Some(n) && n@ == table_namespace@,
    {
        Self { table_namespace: Some(String::from_str(table_namespace)), ..self }
    }

    pub fn build(self) -> (r: MetadataDestination)
        ensures
            r@ == (MetadataDestinationView { table_bucket_arn: self@.table_bucket_arn, table_bucket_type: self@.table_bucket_type, table_namespace: self@.table_namespace }),
    {
        MetadataDestination {
            table_bucket_arn: self.table_bucket_arn,
            table_bucket_type: self.table_bucket_type,
            table_namespace: self.table_namespace,
        }
    }
}

/// Whether the inventory table of a bucket's metadata is kept.
pub enum ConfigurationState {
    Enabled,
    Disabled,
}

/// How CloudFormation writes a [`ConfigurationState`].
pub open spec fn configuration_state_name(v: ConfigurationState) -> Seq<char> {
    match v {
        ConfigurationState::Enabled => "ENABLED"@,
        ConfigurationState::Disabled => "DISABLED"@,
    }
}

impl vstd::std_specs::convert::FromSpecImpl<ConfigurationState> for String {
    open spec fn obeys_from_spec() -> bool {
        false
    }

    open spec fn from_spec(v: ConfigurationState) -> String {
        vstd::pervasive::arbitrary()
    }
}

impl From<ConfigurationState> for String {
    fn from(value: ConfigurationState) -> (r: String)
        ensures
            r@ == configuration_state_name(value),
    {
        match value {
            ConfigurationState::Enabled => String::from_str("ENABLED"),
            ConfigurationState::Disabled => String::from_str("DISABLED"),
        }
    }
}

/// Builder for the inventory table of a bucket's metadata.
pub struct InventoryTableConfigurationBuilder {
    pub(crate) configuration_state: String,
    pub(crate) table_arn: Option<Value>,
    pub(crate) table_name: Option<String>,
}

/// What a [`InventoryTableConfigurationBuilder`] holds.
pub struct InventoryTableConfigurationBuilderView {
    pub configuration_state: String,
    pub table_arn: Option<Value>,
    pub table_name: Option<String>,
}

impl View for InventoryTableConfigurationBuilder {
    type V = InventoryTableConfigurationBuilderView;

    open(crate) spec fn view(&self) -> InventoryTableConfigurationBuilderView {
        InventoryTableConfigurationBuilderView { configuration_state: self.configuration_state, table_arn: self.table_arn, table_name: self.table_name }
    }
}

impl InventoryTableConfigurationBuilder {
    pub fn new(configuration_state: ConfigurationState) -> (r: Self)
        ensures
            r@.configuration_state@ == configuration_state_name(configuration_state),
            r@.table_arn is None,
            r@.table_name is None,
    {
        Self {
            configuration_state: configuration_state.into(),
            table_arn: None,
            table_name: None,
        }
    }

    pub fn table_arn(self, table_arn: Value) -> (r: Self)
        ensures
            r@ == (InventoryTableConfigurationBuilderView { table_arn: Some(table_arn), ..self@ }),
    {
        Self { table_arn: Some(table_arn), ..self }
    }

    pub fn table_name(self, table_name: &str) -> (r: Self)
        ensures
            r@ == (InventoryTableConfigurationBuilderView { table_name: r@.table_name, ..self@ }),
            r@.table_name matches Some(n) && n@ == table_name@,
    {
        Self { table_name: Some(String::from_str(table_name)), ..self }
    }

    pub fn build(self) -> (r: InventoryTableConfiguration)
        ensures
            r@ == (InventoryTableConfigurationView { configuration_state: self@.configuration_state, table_arn: self@.table_arn, table_name: self@.table_name }),
    {
        InventoryTableConfiguration {
            configuration_state: self.configuration_state,
            table_arn: self.table_arn,
            table_name: self.table_name,
        }
    }
}

/// Builder for the metadata tables of a bucket.
pub struct MetadataConfigurationBuilder {
    pub(crate) destination: Option<MetadataDestination>,
    pub(crate) inventory_table_configuration: Option<InventoryTableConfiguration>,
    pub(crate) journal_table_configuration: JournalTableConfiguration,
}

/// What a [`MetadataConfigurationBuilder`] holds.
pub struct MetadataConfigurationBuilderView {
    pub destination: Option<MetadataDestination>,
    pub inventory_table_configuration: Option<InventoryTableConfiguration>,
    pub journal_table_configuration: JournalTableConfiguration,
}

impl View for MetadataConfigurationBuilder {
    type V = MetadataConfigurationBuilderView;

    open(crate) spec fn view(&self) -> MetadataConfigurationBuilderView {
        MetadataConfigurationBuilderView { destination: self.destination, inventory_table_configuration: self.inventory_table_configuration, journal_table_configuration: self.journal_table_configuration }
    }
}

impl MetadataConfigurationBuilder {
    pub fn new(journal_table_configuration: JournalTableConfiguration) -> (r: Self)
        ensures
            r@.destination is None,
            r@.inventory_table_configuration is None,
            r@.journal_table_configuration == journal_table_configuration,
    {
        Self {
            destination: None,
            inventory_table_configuration: None,
            journal_table_configuration: journal_table_configuration,
        }
    }

    pub fn destination(self, destination: MetadataDestination) -> (r: Self)
        ensures
            r@ == (MetadataConfigurationBuilderView { destination: Some(destination), ..self@ }),
    {
        Self { destination: Some(destination), ..self }
    }

    pub fn inventory_table_configuration(self, inventory_table_configuration: InventoryTableConfiguration) -> (r: Self)
        ensures
            r@ == (MetadataConfigurationBuilderView { inventory_table_configuration: Some(inventory_table_configuration), ..self@ }),
    {
        Self { inventory_table_configuration: Some(inventory_table_configuration), ..self }
    }

    pub fn build(self) -> (r: MetadataConfiguration)
        ensures
            r@ == (MetadataConfigurationView { destination: self@.destination, inventory_table_configuration: self@.inventory_table_configuration, journal_table_configuration: self@.journal_table_configuration }),
    {
        MetadataConfiguration {
            destination: self.destination,
            inventory_table_configuration: self.inventory_table_configuration,
            journal_table_configuration: self.journal_table_configuration,
        }
    }
}


} // verus!
