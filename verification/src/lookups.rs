//! What a lookup of a deployed resource through Cloud Control found: the decisions made on the
//! service's reply.
use vstd::prelude::*;

verus! {

/// A resource description is usable when it holds both the resource's identifier and its
/// properties (as JSON text); the pair is returned, else the error.
pub fn internal_resource_of(identifier: Option<String>, properties: Option<String>) -> (r: Result<(String, String), String>)
    ensures
        match (identifier, properties) {
            (Some(i), Some(p)) => r matches Ok((ri, rp)) && ri@ == i@ && rp@ == p@,
            _ => r matches Err(e) && e@ == "missing required resource info"@,
        },
{
    match (identifier, properties) {
        (Some(i), Some(p)) => Ok((i, p)),
        _ => Err(String::from_str("missing required resource info")),
    }
}

/// A resource found with the ARN that its properties hold: the identifier and the ARN, or the
/// error where the properties hold no ARN.
pub fn resource_info_with_arn(identifier: String, arn: Option<String>) -> (r: Result<(String, String), String>)
    ensures
        match arn {
            Some(a) => r matches Ok((ri, ra)) && ri@ == identifier@ && ra@ == a@,
            None => r matches Err(e) && e@ == "missing required resource info: arn"@,
        },
{
    match arn {
        Some(a) => Ok((identifier, a)),
        None => Err(String::from_str("missing required resource info: arn")),
    }
}

} // verus!
