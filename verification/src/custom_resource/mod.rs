//! The custom resource that sets the notifications of a bucket.
mod dto;
mod builder;
mod template;

pub use dto::{BucketNotification, BucketNotificationProperties, BucketNotificationPropertiesView, BucketNotificationRef, BucketNotificationView, LambdaFunctionConfiguration, LambdaFunctionConfigurationView, NotificationConfiguration, NotificationConfigurationView, QueueConfiguration, QueueConfigurationView, TopicConfiguration, TopicConfigurationView};
pub use builder::{BucketNotificationBuilder, BucketNotificationBuilderView, notification_configured};
pub(crate) use builder::{BUCKET_NOTIFICATION_HANDLER_CODE};
