use vstd::prelude::*;

verus! {

/// What the id of a queue's policy adds to the id of the queue.
pub const QUEUE_POLICY_ID_SUFFIX: &'static str = "QueuePolicy";

/// What the id of a topic's policy adds to the id of the topic.
pub const TOPIC_POLICY_ID_SUFFIX: &'static str = "TopicPolicy";

} // verus!
