//! Type-safe wrapper types
//!
//! Newtypes for configuration values of AWS resources. Each holds a value that is
//! meant to obey the rules in its documentation, so that a value of the wrong kind
//! cannot be passed where another is expected.
use vstd::prelude::*;

verus! {

/// A string wrapper that ensures the content contains only letters, numbers, and underscores.
#[derive(Debug, Clone)]
pub struct StringWithOnlyAlphaNumericsAndUnderscores(pub String);

/// A string wrapper that ensures the content contains only letters, numbers, underscores, and hyphens.
#[derive(Debug, Clone)]
pub struct StringWithOnlyAlphaNumericsUnderscoresAndHyphens(pub String);

/// A string wrapper that ensures the content contains only letters, numbers, and hyphens.
#[derive(Debug, Clone)]
pub struct StringWithOnlyAlphaNumericsAndHyphens(pub String);

/// A string wrapper for AWS Secrets Manager secret names.
#[derive(Debug, Clone)]
pub struct StringForSecret(pub String);

/// A wrapper for positive integers that must be greater than zero.
#[derive(Debug, Copy, Clone)]
pub struct NonZeroNumber(pub u32);

/// Memory allocation configuration for AWS Lambda functions, specified in megabytes.
#[derive(Debug, Copy, Clone)]
pub struct Memory(pub u16);

/// Timeout configuration for AWS Lambda functions, specified in seconds.
#[derive(Debug, Copy, Clone)]
pub struct Timeout(pub u16);

/// Environment variable key wrapper for AWS Lambda function configuration.
#[derive(Debug, Clone)]
pub struct EnvVarKey(pub String);

/// File path wrapper for AWS Lambda deployment package ZIP files.
///
/// # Use Cases
/// - Lambda function deployment packages
/// - Any AWS resource requiring ZIP file uploads
#[derive(Debug, Clone)]
pub struct ZipFile(pub String);

/// Delay seconds wrapper for AWS SQS queue configuration.
#[derive(Debug, Copy, Clone)]
pub struct DelaySeconds(pub u16);

/// Maximum message size wrapper for AWS SQS queue configuration.
#[derive(Debug, Copy, Clone)]
pub struct MaximumMessageSize(pub u32);

/// Message retention period wrapper for AWS SQS queue configuration.
#[derive(Debug, Copy, Clone)]
pub struct MessageRetentionPeriod(pub u32);

/// Visibility timeout wrapper for AWS SQS queue configuration.
/// Determines how long messages remain invisible after being received by a consumer
#[derive(Debug, Copy, Clone)]
pub struct VisibilityTimeout(pub u32);

/// Receive message wait time wrapper for AWS SQS queue configuration.
#[derive(Debug, Copy, Clone)]
pub struct ReceiveMessageWaitTime(pub u8);

/// Maximum concurrency configuration for SQS event sources in AWS Lambda.
#[derive(Debug, Copy, Clone)]
pub struct SqsEventSourceMaxConcurrency(pub u16);

/// A wrapper for referencing existing AWS S3 buckets.
///
/// Use this when you need to reference a bucket that already exists, as opposed to creating a new one (use `BucketName` for new buckets).
#[derive(Debug, Clone)]
pub struct Bucket(pub String);

/// Retention period configuration for AWS CloudWatch Logs log groups, specified in days.
#[derive(Debug, Copy, Clone)]
pub struct RetentionInDays(pub u16);

/// A wrapper for AWS CloudWatch Logs log group names.
#[derive(Debug, Clone)]
pub struct LogGroupName(pub String);

/// A wrapper for creating new AWS S3 bucket names.
#[derive(Debug, Clone)]
pub struct BucketName(pub String);

/// A wrapper for AWS IAM action permissions.
///
/// This wrapper ensures type safety when defining IAM policy actions, helping prevent
/// runtime IAM policy errors by validating permissions at compile time against AWS's
/// official permission list.
#[derive(Debug, Clone)]
pub struct IamAction(pub String);

/// Configuration for object size constraints in S3 lifecycle rules, specified in bytes.
///
/// This wrapper defines minimum and maximum object sizes for S3 lifecycle transitions.
/// It allows you to apply lifecycle rules only to objects within a specific size range.
///
/// # Structure
/// - First value: Minimum object size (optional)
/// - Second value: Maximum object size (optional)
/// - Both values are in bytes
#[derive(Debug, Clone)]
pub struct S3LifecycleObjectSizes(pub Option<u32>, pub Option<u32>);

/// A wrapper for TOML configuration file paths.
///
/// This wrapper ensures type safety when specifying paths to TOML configuration files used in infrastructure definitions.
#[derive(Debug, Clone)]
pub struct TomlFile(pub String);

/// Number of connection attempts for CloudFront origin connections.
#[derive(Debug, Clone)]
pub struct ConnectionAttempts(pub u8);

/// Connection timeout configuration for CloudFront origins, specified in seconds.
///
/// # Structure
/// - First value: Connection timeout in seconds (optional, 1-10 seconds)
/// - Second value: Response completion timeout in seconds (optional, must be >= connection timeout)
#[derive(Debug, Clone)]
pub struct CfConnectionTimeout(pub Option<u16>, pub Option<u16>);

/// Path prefix for CloudFront origin requests.
#[derive(Debug, Clone)]
pub struct OriginPath(pub String);

/// Default root object for CloudFront distributions.
///
/// This wrapper specifies the object that CloudFront returns when a viewer requests
/// the root URL of your distribution (e.g., http://example.com/ instead of http://example.com/index.html).
#[derive(Debug, Clone)]
pub struct DefaultRootObject(pub String);

/// Read timeout for S3 origin in CloudFront, specified in seconds.
#[derive(Debug, Clone)]
pub struct S3OriginReadTimeout(pub u8);

/// Action specification for AWS Lambda resource-based policy permissions.
#[derive(Debug, Clone)]
pub struct LambdaPermissionAction(pub String);

/// Name for AWS AppConfig applications, environments, or configuration profiles.
#[derive(Debug, Clone)]
pub struct AppConfigName(pub String);

/// Deployment duration for AWS AppConfig deployments, specified in minutes.
#[derive(Debug, Clone)]
pub struct DeploymentDurationInMinutes(pub u16);

/// Growth factor percentage for AWS AppConfig deployment strategies.
///
/// This wrapper configures the percentage of targets to receive the configuration
/// during each deployment interval. AppConfig uses this to gradually roll out changes.
#[derive(Debug, Clone)]
pub struct GrowthFactor(pub u8);

/// Number of days before S3 objects transition to a different storage class.
#[derive(Debug, Clone)]
pub struct LifecycleTransitionInDays(pub u16);

/// LocationUri of AppConfig
#[derive(Debug, Clone)]
pub struct LocationUri(pub String);

/// Name of an AppSync Api
#[derive(Debug, Clone)]
pub struct AppSyncApiName(pub String);

/// ChannelNamespace name for AppSync
#[derive(Debug, Clone)]
pub struct ChannelNamespaceName(pub String);

/// Specifies the access tier and the number of days until an object is moved to a specific S3 bucket tier.
#[derive(Debug, Clone)]
pub struct BucketTiering(pub String, pub u16);

/// Specifies the number of days until an S3 table record expires.
#[derive(Debug, Clone)]
pub struct RecordExpirationDays(pub u32);

/// Maximum age of an event in seconds for a retry policy for an EventBridge schedule.
#[derive(Debug, Clone)]
pub struct RetryPolicyEventAge(pub u32);

/// Number of retries for a retry policy for an EventBridge schedule.
#[derive(Debug, Clone)]
pub struct RetryPolicyRetries(pub u8);

/// The maximum time window in minutes for a flexible time window for an EventBridge schedule.
#[derive(Debug, Clone)]
pub struct MaxFlexibleTimeWindow(pub u16);

/// An `at` expression for an EventBridge schedule.
#[derive(Debug, Clone)]
pub struct ScheduleAtExpression(pub String);

/// A `rate` expression for an EventBridge schedule.
#[derive(Debug, Clone)]
pub struct ScheduleRateExpression(pub u16, pub String);

/// A `cron` expression for an EventBridge schedule.
#[derive(Debug, Clone)]
pub struct ScheduleCronExpression(pub String);

/// Name of an EventBridge schedule.
#[derive(Debug, Clone)]
pub struct ScheduleName(pub String);

/// Name of an IAM policy.
#[derive(Debug, Clone)]
pub struct PolicyName(pub String);

/// DisplayName of an SNS topic
#[derive(Debug, Clone)]
pub struct TopicDisplayName(pub String);

/// Archive policy of an SNS topic
#[derive(Debug, Clone)]
pub struct ArchivePolicy(pub u16);

/// KMS Key reuse period (in seconds) for an SQS queue
#[derive(Debug, Clone)]
pub struct KeyReusePeriod(pub u32);

/// Percentage of successful message deliveries to be logged in Amazon CloudWatch, for an SNS topic
#[derive(Debug, Clone)]
pub struct SuccessFeedbackSampleRate(pub u8);

/// Name of a DocumentDB subnet group.
#[derive(Debug, Clone)]
pub struct DocDBSubnetGroupName(pub String);

/// Name of a DocumentDB event subscription.
#[derive(Debug, Clone)]
pub struct DocDBSubscriptionName(pub String);

/// Instance class of a DocumentDB instance, such as `db.r5.large`.
#[derive(Debug, Clone)]
pub struct DocDbInstanceClass(pub String);

/// Password of the master user of a DocumentDB cluster.
#[derive(Debug, Clone)]
pub struct DocDbMasterPassword(pub String);

/// Name of the master user of a DocumentDB cluster.
#[derive(Debug, Clone)]
pub struct DocDbMasterUsername(pub String);

/// Name of an ECR repository.
#[derive(Debug, Clone)]
pub struct EcrRepositoryName(pub String);

/// Value of a filter that exempts image tags from a repository's tag mutability.
#[derive(Debug, Clone)]
pub struct ImageTagMutabilityExclusionFilterValue(pub String);

/// About text or usage text of a public ECR repository.
#[derive(Debug, Clone)]
pub struct RepoAboutText(pub String);

/// Description of a public ECR repository.
#[derive(Debug, Clone)]
pub struct RepoDescription(pub String);

/// Prefix of ECR repository names.
#[derive(Debug, Clone)]
pub struct RepoPrefix(pub String);

/// A URL.
#[derive(Debug, Clone)]
pub struct URL(pub String);

} // verus!
