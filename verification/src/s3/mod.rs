//! S3: buckets, their policies and configurations.
mod dto;
mod builder;
mod bucket;
mod template;

pub use dto::{AccelerateConfiguration, AccelerateConfigurationView, Bucket, BucketEncryption, BucketEncryptionView, BucketPolicy, BucketPolicyRef, BucketPolicyView, BucketProperties, BucketPropertiesView, BucketRef, BucketView, CorsConfiguration, CorsConfigurationView, CorsRule, CorsRuleView, FilterRule, FilterRuleView, IntelligentTieringConfiguration, IntelligentTieringConfigurationView, InventoryTableConfiguration, InventoryTableConfigurationView, JournalTableConfiguration, JournalTableConfigurationView, LambdaConfiguration, LambdaConfigurationView, LifecycleConfiguration, LifecycleConfigurationView, LifecycleRule, LifecycleRuleTransition, LifecycleRuleTransitionView, LifecycleRuleView, MetadataConfiguration, MetadataConfigurationView, MetadataDestination, MetadataDestinationView, NonCurrentVersionTransition, NonCurrentVersionTransitionView, NotificationFilter, NotificationFilterView, PublicAccessBlockConfiguration, PublicAccessBlockConfigurationView, QueueConfiguration, QueueConfigurationView, RecordExpiration, RecordExpirationView, RedirectAllRequestsTo, RedirectAllRequestsToView, S3BucketPolicyProperties, S3BucketPolicyPropertiesView, S3KeyFilter, S3KeyFilterView, ServerSideEncryptionByDefault, ServerSideEncryptionByDefaultView, ServerSideEncryptionRule, ServerSideEncryptionRuleView, TagFilter, TagFilterView, Tiering, TieringView, TopicConfiguration, TopicConfigurationView, VersioningConfig, VersioningConfigView, WebsiteConfiguration, WebsiteConfigurationView};
pub use builder::{AbacStatus, AccelerationStatus, BucketPolicyBuilder, BucketPolicyBuilderView, ConfigurationState, CorsConfigurationBuilder, CorsConfigurationBuilderView, CorsRuleBuilder, CorsRuleBuilderView, Encryption, Expiration, IntelligentTieringConfigurationBuilder, IntelligentTieringConfigurationBuilderView, IntelligentTieringStatus, InventoryTableConfigurationBuilder, InventoryTableConfigurationBuilderView, JournalTableConfigurationBuilder, JournalTableConfigurationBuilderView, LifecycleConfigurationBuilder, LifecycleConfigurationBuilderView, LifecycleRuleBuilder, LifecycleRuleBuilderView, LifecycleRuleStatus, LifecycleRuleTransitionBuilder, LifecycleRuleTransitionBuilderView, LifecycleStorageClass, MetadataConfigurationBuilder, MetadataConfigurationBuilderView, MetadataDestinationBuilder, MetadataDestinationBuilderView, NonCurrentVersionTransitionBuilder, NonCurrentVersionTransitionBuilderView, NotificationEventType, PublicAccessBlockConfigurationBuilder, PublicAccessBlockConfigurationBuilderView, RecordExpirationBuilder, RecordExpirationBuilderView, TableBucketType, TagFilterBuilder, TagFilterBuilderView, TransitionDefaultMinimumObjectSize, VersioningConfiguration, abac_status_name, acceleration_status_name, configuration_state_name, encryption_name, expiration_name, intelligent_tiering_status_name, lifecycle_rule_status_name, lifecycle_storage_class_name, notification_event_type_name, table_bucket_type_name, transition_default_minimum_object_size_name, versioning_configuration_name};
pub use bucket::{BucketBuilder, BucketBuilderState, BucketBuilderView, NotificationDestination, StartState, WebsiteState, bucket_created_id, bucket_created_suffix, bucket_made_by, bucket_resources_added, destination_policies_fit, lambda_destination_views, lambda_step_id, notification_step, notifications_progress, policy_step_id, shape_kept, sns_destination_views, sqs_destination_views, website_access, website_policy_made};
