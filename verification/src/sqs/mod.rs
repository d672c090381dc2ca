//! SQS: queues and the policies that let others use them.
mod dto;
mod builder;
mod template;

pub use dto::{Queue, QueuePolicy, QueuePolicyProperties, QueuePolicyPropertiesView, QueuePolicyRef, QueuePolicyView, QueueProperties, QueuePropertiesView, QueueRef, QueueView, RedrivePolicy, RedrivePolicyView};
pub use builder::{DeduplicationScope, FIFO_SUFFIX, FifoState, FifoThroughputLimit, QueueBuilder, QueueBuilderState, QueueBuilderView, StandardState, StartState, deduplication_scope_name, fifo_queue_name, fifo_queue_names_end_in_fifo, fifo_throughput_limit_name, queue_made_by, queue_policy_made_for, queue_refs_json, queue_resources_added};
pub(crate) use builder::{QueuePolicyBuilder};
pub use template::queue_properties_json_holds_every_set_property;
