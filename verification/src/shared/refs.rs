use crate::intrinsic::{get_arn_json, get_ref_json};
use crate::json::JsonView;
use vstd::prelude::*;

verus! {

/// What a reference to a resource holds: the resource's logical id, and for a resource
/// imported from outside the stack, its name and ARN.
pub struct RefView {
    pub resource_id: Seq<char>,
    pub ref_name: Option<Seq<char>>,
    pub arn_value: Option<Seq<char>>,
}

/// A reference that also holds the user's id of the resource.
pub struct RefWithIdView {
    pub id: Seq<char>,
    pub resource_id: Seq<char>,
    pub ref_name: Option<Seq<char>>,
    pub arn_value: Option<Seq<char>>,
}

/// The characters of an optional string.
pub open spec fn opt_view(s: Option<String>) -> Option<Seq<char>> {
    match s {
        Some(v) => Some(v@),
        None => None,
    }
}

/// What `Ref` gives for a resource: its imported name, or `{"Ref": resource_id}`.
pub open spec fn ref_json(resource_id: Seq<char>, ref_name: Option<Seq<char>>) -> JsonView {
    match ref_name {
        Some(name) => JsonView::String(name),
        None => get_ref_json(resource_id),
    }
}

/// The ARN of a resource: its imported ARN, or `{"Fn::GetAtt": [resource_id, "Arn"]}`.
pub open spec fn arn_json(resource_id: Seq<char>, arn_value: Option<Seq<char>>) -> JsonView {
    match arn_value {
        Some(arn) => JsonView::String(arn),
        None => get_arn_json(resource_id),
    }
}

/// A reference to a resource of the stack gives `{"Ref": ..}` and the `Arn` attribute of the
/// resource's logical id; one to a resource outside the stack gives the name and the ARN it was made with.
pub proof fn refs_point_at_their_resource(r: RefView)
    ensures
        r.ref_name is None ==> ref_json(r.resource_id, r.ref_name) == get_ref_json(r.resource_id),
        r.arn_value is None ==> arn_json(r.resource_id, r.arn_value) == get_arn_json(r.resource_id),
        r.ref_name matches Some(n) ==> ref_json(r.resource_id, r.ref_name) == JsonView::String(n),
        r.arn_value matches Some(a) ==> arn_json(r.resource_id, r.arn_value) == JsonView::String(a),
{
}

/// A copy of an optional string.
pub fn clone_opt(s: &Option<String>) -> (r: Option<String>)
    ensures
        opt_view(r) == opt_view(*s),
        r == *s,
{
    match s {
        Some(v) => Some(v.clone()),
        None => None,
    }
}

} // verus!
