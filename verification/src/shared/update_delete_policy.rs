use crate::json::{member_views, push_member, JsonView, Value};
use vstd::prelude::*;

verus! {

/// What happens to an existing resource when an update replaces it.
pub enum UpdateReplacePolicy {
    /// `Delete` is the default, deleting the resource (if possible)
    Delete,
    /// `Snapshot` deletes it after creating a snapshot
    Snapshot,
    /// `Retain` keeps the resource
    Retain,
}

/// How CloudFormation writes an update-replace policy.
pub open spec fn update_replace_policy_name(p: UpdateReplacePolicy) -> Seq<char> {
    match p {
        UpdateReplacePolicy::Delete => "Delete"@,
        UpdateReplacePolicy::Snapshot => "Snapshot"@,
        UpdateReplacePolicy::Retain => "Retain"@,
    }
}

impl vstd::std_specs::convert::FromSpecImpl<UpdateReplacePolicy> for String {
    open spec fn obeys_from_spec() -> bool {
        false
    }

    open spec fn from_spec(v: UpdateReplacePolicy) -> String {
        vstd::pervasive::arbitrary()
    }
}

impl From<UpdateReplacePolicy> for String {
    fn from(value: UpdateReplacePolicy) -> (r: String)
        ensures
            r@ == update_replace_policy_name(value),
    {
        match value {
            UpdateReplacePolicy::Delete => String::from_str("Delete"),
            UpdateReplacePolicy::Snapshot => String::from_str("Snapshot"),
            UpdateReplacePolicy::Retain => String::from_str("Retain"),
        }
    }
}

/// Determines what happens with an existing resource when it is deleted
pub enum DeletionPolicy {
    /// `Delete` deletes the resource (default)
    Delete,
    /// `Snapshot` deletes it after creating a snapshot (*if snapshots are possible*)
    Snapshot,
    /// `Retain` keeps the resource
    Retain,
    /// `RetainExceptOnCreate` keeps the resource, except when it was just created during this stack operation
    RetainExceptOnCreate,
}

/// How CloudFormation writes a deletion policy.
pub open spec fn deletion_policy_name(p: DeletionPolicy) -> Seq<char> {
    match p {
        DeletionPolicy::Delete => "Delete"@,
        DeletionPolicy::Snapshot => "Snapshot"@,
        DeletionPolicy::Retain => "Retain"@,
        DeletionPolicy::RetainExceptOnCreate => "RetainExceptOnCreate"@,
    }
}

/// The deletion policy that CloudFormation writes as `s`, if any.
pub open spec fn deletion_policy_named(s: Seq<char>) -> Option<DeletionPolicy> {
    if s == "Delete"@ {
        Some(DeletionPolicy::Delete)
    } else if s == "Snapshot"@ {
        Some(DeletionPolicy::Snapshot)
    } else if s == "Retain"@ {
        Some(DeletionPolicy::Retain)
    } else if s == "RetainExceptOnCreate"@ {
        Some(DeletionPolicy::RetainExceptOnCreate)
    } else {
        None
    }
}

impl vstd::std_specs::convert::FromSpecImpl<DeletionPolicy> for String {
    open spec fn obeys_from_spec() -> bool {
        false
    }

    open spec fn from_spec(v: DeletionPolicy) -> String {
        vstd::pervasive::arbitrary()
    }
}

impl From<DeletionPolicy> for String {
    fn from(value: DeletionPolicy) -> (r: String)
        ensures
            r@ == deletion_policy_name(value),
    {
        match value {
            DeletionPolicy::Delete => String::from_str("Delete"),
            DeletionPolicy::Snapshot => String::from_str("Snapshot"),
            DeletionPolicy::Retain => String::from_str("Retain"),
            DeletionPolicy::RetainExceptOnCreate => String::from_str("RetainExceptOnCreate"),
        }
    }
}

impl DeletionPolicy {
    /// Reads a deletion policy back from its CloudFormation name; only the four names are accepted.
    pub fn from_name(value: &String) -> (r: DeletionPolicy)
        requires
            deletion_policy_named(value@) is Some,
        ensures
            Some(r) == deletion_policy_named(value@),
    {
        proof {
            reveal_strlit("Delete");
            reveal_strlit("Snapshot");
            reveal_strlit("Retain");
            reveal_strlit("RetainExceptOnCreate");
        }
        let s = value.as_str();
        if crate::text::str_eq(s, "Delete") {
            DeletionPolicy::Delete
        } else if crate::text::str_eq(s, "Snapshot") {
            DeletionPolicy::Snapshot
        } else if crate::text::str_eq(s, "Retain") {
            DeletionPolicy::Retain
        } else {
            DeletionPolicy::RetainExceptOnCreate
        }
    }
}

/// A deletion policy survives being written out and read back, and a name that
/// denotes a policy is exactly what that policy is written as.
pub proof fn deletion_policy_round_trip(p: DeletionPolicy, s: Seq<char>)
    ensures
        deletion_policy_named(deletion_policy_name(p)) == Some(p),
        deletion_policy_named(s) matches Some(q) ==> deletion_policy_name(q) == s,
{
    reveal_strlit("Delete");
    reveal_strlit("Snapshot");
    reveal_strlit("Retain");
    reveal_strlit("RetainExceptOnCreate");
    assert("Delete"@[0] != "Retain"@[0]);
    assert("Delete"@.len() != "Snapshot"@.len());
    assert("Delete"@.len() != "RetainExceptOnCreate"@.len());
    assert("Snapshot"@.len() != "Retain"@.len());
    assert("Snapshot"@.len() != "RetainExceptOnCreate"@.len());
    assert("Retain"@.len() != "RetainExceptOnCreate"@.len());
}

/// The deletion and update-replace policies of a resource, as CloudFormation names them.
pub struct UpdateDeletePolicyDTO {
    pub(crate) deletion_policy: Option<String>,
    pub(crate) update_replace_policy: Option<String>,
}

/// What an [`UpdateDeletePolicyDTO`] holds.
pub struct UpdateDeletePolicyDTOView {
    pub deletion_policy: Option<String>,
    pub update_replace_policy: Option<String>,
}

impl View for UpdateDeletePolicyDTO {
    type V = UpdateDeletePolicyDTOView;

    open(crate) spec fn view(&self) -> UpdateDeletePolicyDTOView {
        UpdateDeletePolicyDTOView {
            deletion_policy: self.deletion_policy,
            update_replace_policy: self.update_replace_policy,
        }
    }
}

impl UpdateDeletePolicyDTO {
    /// The members that the policies add to the resource that holds them, where they are set.
    pub(crate) open spec fn json_members(&self) -> Seq<(Seq<char>, JsonView)> {
        let deletion = match &self.deletion_policy {
            Some(x) => seq![("DeletionPolicy"@, JsonView::String(x@))],
            None => Seq::empty(),
        };
        let update_replace = match &self.update_replace_policy {
            Some(x) => seq![("UpdateReplacePolicy"@, JsonView::String(x@))],
            None => Seq::empty(),
        };
        deletion + update_replace
    }

    /// Adds the members of the policies to the resource's object.
    pub(crate) fn push_json_members(&self, members: &mut Vec<(String, Value)>)
        ensures
            member_views(final(members)@) == member_views(old(members)@) + self.json_members(),
    {
        let ghost start = member_views(members@);
        match &self.deletion_policy {
            Some(x) => push_member(members, "DeletionPolicy", Value::String(x.clone())),
            None => {},
        }
        let ghost first = match &self.deletion_policy {
            Some(x) => seq![("DeletionPolicy"@, JsonView::String(x@))],
            None => Seq::<(Seq<char>, JsonView)>::empty(),
        };
        assert(member_views(members@) =~= start + first);
        match &self.update_replace_policy {
            Some(x) => push_member(members, "UpdateReplacePolicy", Value::String(x.clone())),
            None => {},
        }
        assert(member_views(members@) =~= start + self.json_members());
    }
}

} // verus!
