//! How the module's resources appear in a CloudFormation template.
use crate::s3::{AccelerateConfiguration, Bucket, BucketEncryption, BucketPolicy, BucketProperties, CorsConfiguration, CorsRule, FilterRule, IntelligentTieringConfiguration, InventoryTableConfiguration, JournalTableConfiguration, LambdaConfiguration, LifecycleConfiguration, LifecycleRule, LifecycleRuleTransition, MetadataConfiguration, MetadataDestination, NonCurrentVersionTransition, NotificationFilter, PublicAccessBlockConfiguration, QueueConfiguration, RecordExpiration, RedirectAllRequestsTo, S3BucketPolicyProperties, S3KeyFilter, ServerSideEncryptionByDefault, ServerSideEncryptionRule, TagFilter, Tiering, TopicConfiguration, VersioningConfig, WebsiteConfiguration};
use crate::json::{member, opt_member, push_json, push_opt_json, JsonView, ToJson, Value};
use vstd::prelude::*;

verus! {

impl ToJson for BucketPolicy {
    open(crate) spec fn as_json(&self) -> JsonView {
        JsonView::Object(
            Seq::empty()
                + member("Type"@, &self.resource_type)
                + member("Properties"@, &self.properties),
        )
    }

    fn to_json(&self) -> (r: Value) {
        let mut members: Vec<(String, Value)> = Vec::new();
        push_json(&mut members, "Type", &self.resource_type);
        push_json(&mut members, "Properties", &self.properties);
        Value::Object(members)
    }
}

impl ToJson for S3BucketPolicyProperties {
    open(crate) spec fn as_json(&self) -> JsonView {
        JsonView::Object(
            Seq::empty()
                + member("Bucket"@, &self.bucket_name)
                + member("PolicyDocument"@, &self.policy_document),
        )
    }

    fn to_json(&self) -> (r: Value) {
        let mut members: Vec<(String, Value)> = Vec::new();
        push_json(&mut members, "Bucket", &self.bucket_name);
        push_json(&mut members, "PolicyDocument", &self.policy_document);
        Value::Object(members)
    }
}

impl ToJson for Bucket {
    open(crate) spec fn as_json(&self) -> JsonView {
        JsonView::Object(
            Seq::empty()
                + member("Type"@, &self.resource_type)
                + member("Properties"@, &self.properties)
                + self.update_delete_policy_dto.json_members(),
        )
    }

    fn to_json(&self) -> (r: Value) {
        let mut members: Vec<(String, Value)> = Vec::new();
        push_json(&mut members, "Type", &self.resource_type);
        push_json(&mut members, "Properties", &self.properties);
        self.update_delete_policy_dto.push_json_members(&mut members);
        Value::Object(members)
    }
}

impl ToJson for BucketProperties {
    open(crate) spec fn as_json(&self) -> JsonView {
        JsonView::Object(
            Seq::empty()
                + opt_member("AbacStatus"@, &self.abac_status)
                + opt_member("AccelerateConfiguration"@, &self.accelerate_configuration)
                + opt_member("BucketName"@, &self.bucket_name)
                + opt_member("BucketEncryption"@, &self.bucket_encryption)
                + opt_member("CorsConfiguration"@, &self.cors_configuration)
                + opt_member("IntelligentTieringConfigurations"@, &self.intelligent_tiering_configurations)
                + opt_member("LifecycleConfiguration"@, &self.lifecycle_configuration)
                + opt_member("MetadataConfiguration"@, &self.metadata_configuration)
                + opt_member("PublicAccessBlockConfiguration"@, &self.public_access_block_configuration)
                + opt_member("VersioningConfiguration"@, &self.versioning_configuration)
                + opt_member("WebsiteConfiguration"@, &self.website_configuration),
        )
    }

    fn to_json(&self) -> (r: Value) {
        let mut members: Vec<(String, Value)> = Vec::new();
        push_opt_json(&mut members, "AbacStatus", &self.abac_status);
        push_opt_json(&mut members, "AccelerateConfiguration", &self.accelerate_configuration);
        push_opt_json(&mut members, "BucketName", &self.bucket_name);
        push_opt_json(&mut members, "BucketEncryption", &self.bucket_encryption);
        push_opt_json(&mut members, "CorsConfiguration", &self.cors_configuration);
        push_opt_json(&mut members, "IntelligentTieringConfigurations", &self.intelligent_tiering_configurations);
        push_opt_json(&mut members, "LifecycleConfiguration", &self.lifecycle_configuration);
        push_opt_json(&mut members, "MetadataConfiguration", &self.metadata_configuration);
        push_opt_json(&mut members, "PublicAccessBlockConfiguration", &self.public_access_block_configuration);
        push_opt_json(&mut members, "VersioningConfiguration", &self.versioning_configuration);
        push_opt_json(&mut members, "WebsiteConfiguration", &self.website_configuration);
        Value::Object(members)
    }
}

impl ToJson for MetadataConfiguration {
    open(crate) spec fn as_json(&self) -> JsonView {
        JsonView::Object(
            Seq::empty()
                + member("Destination"@, &self.destination)
                + member("InventoryTableConfiguration"@, &self.inventory_table_configuration)
                + member("JournalTableConfiguration"@, &self.journal_table_configuration),
        )
    }

    fn to_json(&self) -> (r: Value) {
        let mut members: Vec<(String, Value)> = Vec::new();
        push_json(&mut members, "Destination", &self.destination);
        push_json(&mut members, "InventoryTableConfiguration", &self.inventory_table_configuration);
        push_json(&mut members, "JournalTableConfiguration", &self.journal_table_configuration);
        Value::Object(members)
    }
}

impl ToJson for MetadataDestination {
    open(crate) spec fn as_json(&self) -> JsonView {
        JsonView::Object(
            Seq::empty()
                + opt_member("TableBucketArn"@, &self.table_bucket_arn)
                + member("TableBucketType"@, &self.table_bucket_type)
                + opt_member("TableNamespace"@, &self.table_namespace),
        )
    }

    fn to_json(&self) -> (r: Value) {
        let mut members: Vec<(String, Value)> = Vec::new();
        push_opt_json(&mut members, "TableBucketArn", &self.table_bucket_arn);
        push_json(&mut members, "TableBucketType", &self.table_bucket_type);
        push_opt_json(&mut members, "TableNamespace", &self.table_namespace);
        Value::Object(members)
    }
}

impl ToJson for InventoryTableConfiguration {
    open(crate) spec fn as_json(&self) -> JsonView {
        JsonView::Object(
            Seq::empty()
                + member("ConfigurationState"@, &self.configuration_state)
                + opt_member("TableArn"@, &self.table_arn)
                + opt_member("TableName"@, &self.table_name),
        )
    }

    fn to_json(&self) -> (r: Value) {
        let mut members: Vec<(String, Value)> = Vec::new();
        push_json(&mut members, "ConfigurationState", &self.configuration_state);
        push_opt_json(&mut members, "TableArn", &self.table_arn);
        push_opt_json(&mut members, "TableName", &self.table_name);
        Value::Object(members)
    }
}

impl ToJson for JournalTableConfiguration {
    open(crate) spec fn as_json(&self) -> JsonView {
        JsonView::Object(
            Seq::empty()
                + member("RecordExpiration"@, &self.record_expiration)
                + opt_member("TableArn"@, &self.table_arn)
                + opt_member("TableName"@, &self.table_name),
        )
    }

    fn to_json(&self) -> (r: Value) {
        let mut members: Vec<(String, Value)> = Vec::new();
        push_json(&mut members, "RecordExpiration", &self.record_expiration);
        push_opt_json(&mut members, "TableArn", &self.table_arn);
        push_opt_json(&mut members, "TableName", &self.table_name);
        Value::Object(members)
    }
}

impl ToJson for RecordExpiration {
    open(crate) spec fn as_json(&self) -> JsonView {
        JsonView::Object(
            Seq::empty()
                + opt_member("Days"@, &self.days)
                + member("Expiration"@, &self.expiration),
        )
    }

    fn to_json(&self) -> (r: Value) {
        let mut members: Vec<(String, Value)> = Vec::new();
        push_opt_json(&mut members, "Days", &self.days);
        push_json(&mut members, "Expiration", &self.expiration);
        Value::Object(members)
    }
}

impl ToJson for IntelligentTieringConfiguration {
    open(crate) spec fn as_json(&self) -> JsonView {
        JsonView::Object(
            Seq::empty()
                + member("Id"@, &self.id)
                + opt_member("Prefix"@, &self.prefix)
                + member("Status"@, &self.status)
                + opt_member("TagFilters"@, &self.tag_filters)
                + member("Tierings"@, &self.tierings),
        )
    }

    fn to_json(&self) -> (r: Value) {
        let mut members: Vec<(String, Value)> = Vec::new();
        push_json(&mut members, "Id", &self.id);
        push_opt_json(&mut members, "Prefix", &self.prefix);
        push_json(&mut members, "Status", &self.status);
        push_opt_json(&mut members, "TagFilters", &self.tag_filters);
        push_json(&mut members, "Tierings", &self.tierings);
        Value::Object(members)
    }
}

impl ToJson for Tiering {
    open(crate) spec fn as_json(&self) -> JsonView {
        JsonView::Object(
            Seq::empty()
                + member("AccessTier"@, &self.access_tier)
                + member("Days"@, &self.days),
        )
    }

    fn to_json(&self) -> (r: Value) {
        let mut members: Vec<(String, Value)> = Vec::new();
        push_json(&mut members, "AccessTier", &self.access_tier);
        push_json(&mut members, "Days", &self.days);
        Value::Object(members)
    }
}

impl ToJson for TagFilter {
    open(crate) spec fn as_json(&self) -> JsonView {
        JsonView::Object(
            Seq::empty()
                + member("Key"@, &self.key)
                + member("Value"@, &self.value),
        )
    }

    fn to_json(&self) -> (r: Value) {
        let mut members: Vec<(String, Value)> = Vec::new();
        push_json(&mut members, "Key", &self.key);
        push_json(&mut members, "Value", &self.value);
        Value::Object(members)
    }
}

impl ToJson for AccelerateConfiguration {
    open(crate) spec fn as_json(&self) -> JsonView {
        JsonView::Object(Seq::empty() + member("AccelerationStatus"@, &self.acceleration_status))
    }

    fn to_json(&self) -> (r: Value) {
        let mut members: Vec<(String, Value)> = Vec::new();
        push_json(&mut members, "AccelerationStatus", &self.acceleration_status);
        Value::Object(members)
    }
}

impl ToJson for BucketEncryption {
    open(crate) spec fn as_json(&self) -> JsonView {
        JsonView::Object(Seq::empty() + member("ServerSideEncryptionConfiguration"@, &self.server_side_encryption_configuration))
    }

    fn to_json(&self) -> (r: Value) {
        let mut members: Vec<(String, Value)> = Vec::new();
        push_json(&mut members, "ServerSideEncryptionConfiguration", &self.server_side_encryption_configuration);
        Value::Object(members)
    }
}

impl ToJson for ServerSideEncryptionRule {
    open(crate) spec fn as_json(&self) -> JsonView {
        JsonView::Object(
            Seq::empty()
                + member("ServerSideEncryptionByDefault"@, &self.server_side_encryption_by_default)
                + opt_member("BucketKeyEnabled"@, &self.bucket_key_enabled),
        )
    }

    fn to_json(&self) -> (r: Value) {
        let mut members: Vec<(String, Value)> = Vec::new();
        push_json(&mut members, "ServerSideEncryptionByDefault", &self.server_side_encryption_by_default);
        push_opt_json(&mut members, "BucketKeyEnabled", &self.bucket_key_enabled);
        Value::Object(members)
    }
}

impl ToJson for ServerSideEncryptionByDefault {
    open(crate) spec fn as_json(&self) -> JsonView {
        JsonView::Object(
            Seq::empty()
                + member("SSEAlgorithm"@, &self.sse_algorithm)
                + opt_member("KMSMasterKeyID"@, &self.kms_master_key_id),
        )
    }

    fn to_json(&self) -> (r: Value) {
        let mut members: Vec<(String, Value)> = Vec::new();
        push_json(&mut members, "SSEAlgorithm", &self.sse_algorithm);
        push_opt_json(&mut members, "KMSMasterKeyID", &self.kms_master_key_id);
        Value::Object(members)
    }
}

impl ToJson for CorsConfiguration {
    open(crate) spec fn as_json(&self) -> JsonView {
        JsonView::Object(Seq::empty() + member("CorsRules"@, &self.cors_rules))
    }

    fn to_json(&self) -> (r: Value) {
        let mut members: Vec<(String, Value)> = Vec::new();
        push_json(&mut members, "CorsRules", &self.cors_rules);
        Value::Object(members)
    }
}

impl ToJson for CorsRule {
    open(crate) spec fn as_json(&self) -> JsonView {
        JsonView::Object(
            Seq::empty()
                + opt_member("AllowedHeaders"@, &self.allowed_headers)
                + member("AllowedMethods"@, &self.allowed_methods)
                + member("AllowedOrigins"@, &self.allowed_origins)
                + opt_member("ExposedHeaders"@, &self.exposed_headers)
                + opt_member("MaxAge"@, &self.max_age),
        )
    }

    fn to_json(&self) -> (r: Value) {
        let mut members: Vec<(String, Value)> = Vec::new();
        push_opt_json(&mut members, "AllowedHeaders", &self.allowed_headers);
        push_json(&mut members, "AllowedMethods", &self.allowed_methods);
        push_json(&mut members, "AllowedOrigins", &self.allowed_origins);
        push_opt_json(&mut members, "ExposedHeaders", &self.exposed_headers);
        push_opt_json(&mut members, "MaxAge", &self.max_age);
        Value::Object(members)
    }
}

impl ToJson for LifecycleConfiguration {
    open(crate) spec fn as_json(&self) -> JsonView {
        JsonView::Object(
            Seq::empty()
                + member("Rules"@, &self.rules)
                + opt_member("TransitionDefaultMinimumObjectSize"@, &self.transition_minimum_size),
        )
    }

    fn to_json(&self) -> (r: Value) {
        let mut members: Vec<(String, Value)> = Vec::new();
        push_json(&mut members, "Rules", &self.rules);
        push_opt_json(&mut members, "TransitionDefaultMinimumObjectSize", &self.transition_minimum_size);
        Value::Object(members)
    }
}

impl ToJson for LifecycleRuleTransition {
    open(crate) spec fn as_json(&self) -> JsonView {
        JsonView::Object(
            Seq::empty()
                + member("StorageClass"@, &self.storage_class)
                + member("TransitionInDays"@, &self.transition_in_days),
        )
    }

    fn to_json(&self) -> (r: Value) {
        let mut members: Vec<(String, Value)> = Vec::new();
        push_json(&mut members, "StorageClass", &self.storage_class);
        push_json(&mut members, "TransitionInDays", &self.transition_in_days);
        Value::Object(members)
    }
}

impl ToJson for NonCurrentVersionTransition {
    open(crate) spec fn as_json(&self) -> JsonView {
        JsonView::Object(
            Seq::empty()
                + member("StorageClass"@, &self.storage_class)
                + member("TransitionInDays"@, &self.transition_in_days)
                + member("NewerNoncurrentVersions"@, &self.newer_non_current_versions),
        )
    }

    fn to_json(&self) -> (r: Value) {
        let mut members: Vec<(String, Value)> = Vec::new();
        push_json(&mut members, "StorageClass", &self.storage_class);
        push_json(&mut members, "TransitionInDays", &self.transition_in_days);
        push_json(&mut members, "NewerNoncurrentVersions", &self.newer_non_current_versions);
        Value::Object(members)
    }
}

impl ToJson for LifecycleRule {
    open(crate) spec fn as_json(&self) -> JsonView {
        JsonView::Object(
            Seq::empty()
                + opt_member("Id"@, &self.id)
                + member("Status"@, &self.status)
                + opt_member("ExpirationInDays"@, &self.expiration_in_days)
                + opt_member("Prefix"@, &self.prefix)
                + opt_member("ObjectSizeGreaterThan"@, &self.object_size_greater_than)
                + opt_member("ObjectSizeLessThan"@, &self.object_size_less_than)
                + opt_member("AbortIncompleteMultipartUpload"@, &self.abort_incomplete_multipart_upload)
                + opt_member("NoncurrentVersionExpiration"@, &self.non_current_version_expiration)
                + opt_member("Transitions"@, &self.transitions)
                + opt_member("NoncurrentVersionTransitions"@, &self.non_current_version_transitions),
        )
    }

    fn to_json(&self) -> (r: Value) {
        let mut members: Vec<(String, Value)> = Vec::new();
        push_opt_json(&mut members, "Id", &self.id);
        push_json(&mut members, "Status", &self.status);
        push_opt_json(&mut members, "ExpirationInDays", &self.expiration_in_days);
        push_opt_json(&mut members, "Prefix", &self.prefix);
        push_opt_json(&mut members, "ObjectSizeGreaterThan", &self.object_size_greater_than);
        push_opt_json(&mut members, "ObjectSizeLessThan", &self.object_size_less_than);
        push_opt_json(&mut members, "AbortIncompleteMultipartUpload", &self.abort_incomplete_multipart_upload);
        push_opt_json(&mut members, "NoncurrentVersionExpiration", &self.non_current_version_expiration);
        push_opt_json(&mut members, "Transitions", &self.transitions);
        push_opt_json(&mut members, "NoncurrentVersionTransitions", &self.non_current_version_transitions);
        Value::Object(members)
    }
}

impl ToJson for TopicConfiguration {
    open(crate) spec fn as_json(&self) -> JsonView {
        JsonView::Object(
            Seq::empty()
                + member("Event"@, &self.event)
                + member("Topic"@, &self.topic)
                + opt_member("Filter"@, &self.filter),
        )
    }

    fn to_json(&self) -> (r: Value) {
        let mut members: Vec<(String, Value)> = Vec::new();
        push_json(&mut members, "Event", &self.event);
        push_json(&mut members, "Topic", &self.topic);
        push_opt_json(&mut members, "Filter", &self.filter);
        Value::Object(members)
    }
}

impl ToJson for QueueConfiguration {
    open(crate) spec fn as_json(&self) -> JsonView {
        JsonView::Object(
            Seq::empty()
                + member("Event"@, &self.event)
                + member("Queue"@, &self.queue)
                + opt_member("Filter"@, &self.filter),
        )
    }

    fn to_json(&self) -> (r: Value) {
        let mut members: Vec<(String, Value)> = Vec::new();
        push_json(&mut members, "Event", &self.event);
        push_json(&mut members, "Queue", &self.queue);
        push_opt_json(&mut members, "Filter", &self.filter);
        Value::Object(members)
    }
}

impl ToJson for LambdaConfiguration {
    open(crate) spec fn as_json(&self) -> JsonView {
        JsonView::Object(
            Seq::empty()
                + member("Event"@, &self.event)
                + member("Function"@, &self.function)
                + opt_member("Filter"@, &self.filter),
        )
    }

    fn to_json(&self) -> (r: Value) {
        let mut members: Vec<(String, Value)> = Vec::new();
        push_json(&mut members, "Event", &self.event);
        push_json(&mut members, "Function", &self.function);
        push_opt_json(&mut members, "Filter", &self.filter);
        Value::Object(members)
    }
}

impl ToJson for NotificationFilter {
    open(crate) spec fn as_json(&self) -> JsonView {
        JsonView::Object(Seq::empty() + opt_member("S3Key"@, &self.s3_key))
    }

    fn to_json(&self) -> (r: Value) {
        let mut members: Vec<(String, Value)> = Vec::new();
        push_opt_json(&mut members, "S3Key", &self.s3_key);
        Value::Object(members)
    }
}

impl ToJson for S3KeyFilter {
    open(crate) spec fn as_json(&self) -> JsonView {
        JsonView::Object(Seq::empty() + member("Rules"@, &self.rules))
    }

    fn to_json(&self) -> (r: Value) {
        let mut members: Vec<(String, Value)> = Vec::new();
        push_json(&mut members, "Rules", &self.rules);
        Value::Object(members)
    }
}

impl ToJson for FilterRule {
    open(crate) spec fn as_json(&self) -> JsonView {
        JsonView::Object(
            Seq::empty()
                + member("Name"@, &self.name)
                + member("Value"@, &self.value),
        )
    }

    fn to_json(&self) -> (r: Value) {
        let mut members: Vec<(String, Value)> = Vec::new();
        push_json(&mut members, "Name", &self.name);
        push_json(&mut members, "Value", &self.value);
        Value::Object(members)
    }
}

impl ToJson for PublicAccessBlockConfiguration {
    open(crate) spec fn as_json(&self) -> JsonView {
        JsonView::Object(
            Seq::empty()
                + opt_member("BlockPublicAcls"@, &self.block_public_acls)
                + opt_member("BlockPublicPolicy"@, &self.block_public_policy)
                + opt_member("IgnorePublicAcls"@, &self.ignore_public_acls)
                + opt_member("RestrictPublicBuckets"@, &self.restrict_public_buckets),
        )
    }

    fn to_json(&self) -> (r: Value) {
        let mut members: Vec<(String, Value)> = Vec::new();
        push_opt_json(&mut members, "BlockPublicAcls", &self.block_public_acls);
        push_opt_json(&mut members, "BlockPublicPolicy", &self.block_public_policy);
        push_opt_json(&mut members, "IgnorePublicAcls", &self.ignore_public_acls);
        push_opt_json(&mut members, "RestrictPublicBuckets", &self.restrict_public_buckets);
        Value::Object(members)
    }
}

impl ToJson for VersioningConfig {
    open(crate) spec fn as_json(&self) -> JsonView {
        JsonView::Object(Seq::empty() + member("Status"@, &self.status))
    }

    fn to_json(&self) -> (r: Value) {
        let mut members: Vec<(String, Value)> = Vec::new();
        push_json(&mut members, "Status", &self.status);
        Value::Object(members)
    }
}

impl ToJson for WebsiteConfiguration {
    open(crate) spec fn as_json(&self) -> JsonView {
        JsonView::Object(
            Seq::empty()
                + opt_member("IndexDocument"@, &self.index_document)
                + opt_member("ErrorDocument"@, &self.error_document)
                + opt_member("RedirectAllRequestsTo"@, &self.redirect_all_requests_to),
        )
    }

    fn to_json(&self) -> (r: Value) {
        let mut members: Vec<(String, Value)> = Vec::new();
        push_opt_json(&mut members, "IndexDocument", &self.index_document);
        push_opt_json(&mut members, "ErrorDocument", &self.error_document);
        push_opt_json(&mut members, "RedirectAllRequestsTo", &self.redirect_all_requests_to);
        Value::Object(members)
    }
}

impl ToJson for RedirectAllRequestsTo {
    open(crate) spec fn as_json(&self) -> JsonView {
        JsonView::Object(
            Seq::empty()
                + member("HostName"@, &self.host_name)
                + opt_member("Protocol"@, &self.protocol),
        )
    }

    fn to_json(&self) -> (r: Value) {
        let mut members: Vec<(String, Value)> = Vec::new();
        push_json(&mut members, "HostName", &self.host_name);
        push_opt_json(&mut members, "Protocol", &self.protocol);
        Value::Object(members)
    }
}

} // verus!
