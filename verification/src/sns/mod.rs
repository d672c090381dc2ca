//! SNS: topics, their policies and their subscriptions.
mod dto;
mod builder;
mod template;

pub use dto::{LoggingConfig, LoggingConfigView, SnsSubscriptionProperties, SnsSubscriptionPropertiesView, Subscription, SubscriptionView, Topic, TopicPolicy, TopicPolicyProperties, TopicPolicyPropertiesView, TopicPolicyRef, TopicPolicyView, TopicProperties, TopicPropertiesView, TopicRef, TopicView, topic_arn_json};
pub use builder::{FIFO_SUFFIX, FifoState, FifoStateWithSubscriptions, FifoThroughputScope, LoggingConfigBuilder, LoggingConfigBuilderView, Protocol, StandardStateWithSubscriptions, StartState, SubscriptionType, TopicBuilder, TopicBuilderState, TopicBuilderView, TracingConfig, archive_policy_json, fifo_throughput_scope_name, fifo_topic_name, fifo_topic_names_end_in_fifo, protocol_name, subscription_added, subscription_made, subscription_permission_made, subscription_resources_at, subscription_views, topic_made_by, topic_policy_made_for, topic_refs_json, topic_resources_added, tracing_config_name};
pub(crate) use builder::{TopicPolicyBuilder};
