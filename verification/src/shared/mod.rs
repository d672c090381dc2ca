//! Types that several services share.
mod constants;
mod http;
mod id;
mod refs;
mod update_delete_policy;

pub use http::{http_method_name, protocol_name, HttpMethod, Protocol};
pub use id::Id;
pub use update_delete_policy::{
    deletion_policy_name, deletion_policy_named, deletion_policy_round_trip, update_replace_policy_name,
    DeletionPolicy, UpdateDeletePolicyDTO, UpdateDeletePolicyDTOView, UpdateReplacePolicy,
};
pub use refs::{arn_json, clone_opt, opt_view, ref_json, refs_point_at_their_resource, RefView, RefWithIdView};
pub use constants::{QUEUE_POLICY_ID_SUFFIX, TOPIC_POLICY_ID_SUFFIX};
