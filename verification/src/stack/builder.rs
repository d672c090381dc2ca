use crate::cloudwatch::Alarm;
use crate::iam::Role;
use crate::json::Value;
use crate::shared::Id;
use crate::stack::{Output, Resource, Stack};
use crate::text::{concat3, join, join_seq, vec_contains, views};
use vstd::prelude::*;

verus! {

/// Why a stack could not be built.
#[derive(Debug)]
pub enum StackBuilderError {
    MissingPermissionsForRole(Vec<String>),
    DuplicateIds(Vec<String>),
    DuplicateResourceIds(Vec<String>),
    ResourceSpecificIssues(Vec<String>),
}

impl StackBuilderError {
    /// A description of the error for people.
    pub fn message(&self) -> (r: String)
        ensures
            r@ == match *self {
                StackBuilderError::MissingPermissionsForRole(info) =>
                    "one or more roles seem to be missing permission to access services: `"@ + join_seq(views(info@), ";"@) + "`?"@,
                StackBuilderError::DuplicateIds(info) =>
                    "ids should be unique, but the following duplicates were detected: `"@ + join_seq(views(info@), ";"@) + "`"@,
                StackBuilderError::ResourceSpecificIssues(info) =>
                    "resource specific issues detected: `"@ + join_seq(views(info@), ";"@) + "`"@,
                StackBuilderError::DuplicateResourceIds(info) =>
                    "duplicate resource ids detected (`"@ + join_seq(views(info@), ";"@)
                        + "`), rerunning this command should generate new ones"@,
            },
    {
        match self {
            StackBuilderError::MissingPermissionsForRole(info) => {
                let gathered_info = join(info, ";");
                concat3(
                    "one or more roles seem to be missing permission to access services: `",
                    gathered_info.as_str(),
                    "`?",
                )
            },
            StackBuilderError::DuplicateIds(info) => {
                let gathered_info = join(info, ";");
                concat3(
                    "ids should be unique, but the following duplicates were detected: `",
                    gathered_info.as_str(),
                    "`",
                )
            },
            StackBuilderError::ResourceSpecificIssues(info) => {
                let gathered_info = join(info, ";");
                concat3("resource specific issues detected: `", gathered_info.as_str(), "`")
            },
            StackBuilderError::DuplicateResourceIds(info) => {
                let gathered_info = join(info, ";");
                concat3(
                    "duplicate resource ids detected (`",
                    gathered_info.as_str(),
                    "`), rerunning this command should generate new ones",
                )
            },
        }
    }
}

/// The ids that occur more than once, each once, in the order in which they are first repeated.
pub open spec fn duplicates(ids: Seq<Seq<char>>) -> Seq<Seq<char>>
    decreases ids.len(),
{
    if ids.len() == 0 {
        Seq::empty()
    } else {
        let earlier = ids.drop_last();
        let prev = duplicates(earlier);
        if earlier.contains(ids.last()) && !prev.contains(ids.last()) {
            prev.push(ids.last())
        } else {
            prev
        }
    }
}

/// An id is reported as a duplicate exactly when it occurs at least twice, and it is reported once.
pub proof fn duplicates_are_the_repeated_ids(ids: Seq<Seq<char>>)
    ensures
        forall|x: Seq<char>|
            #![trigger duplicates(ids).contains(x)]
            duplicates(ids).contains(x) <==> (exists|i: int, j: int|
                0 <= i < j < ids.len() && ids[i] == x && ids[j] == x),
        duplicates(ids).no_duplicates(),
    decreases ids.len(),
{
    if ids.len() > 0 {
        let earlier = ids.drop_last();
        let prev = duplicates(earlier);
        let c = ids.last();
        duplicates_are_the_repeated_ids(earlier);
        assert forall|x: Seq<char>|
            #![trigger duplicates(ids).contains(x)]
            duplicates(ids).contains(x) <==> (exists|i: int, j: int|
                0 <= i < j < ids.len() && ids[i] == x && ids[j] == x) by {
            if duplicates(ids).contains(x) {
                if prev.contains(x) {
                    let (i, j) = choose|i: int, j: int| 0 <= i < j < earlier.len() && earlier[i] == x && earlier[j] == x;
                    assert(ids[i] == x && ids[j] == x);
                } else {
                    assert(x == c);
                    let i = choose|i: int| 0 <= i < earlier.len() && earlier[i] == c;
                    assert(ids[i] == x && ids[ids.len() - 1] == x);
                }
            }
            if exists|i: int, j: int| 0 <= i < j < ids.len() && ids[i] == x && ids[j] == x {
                let (i, j) = choose|i: int, j: int| 0 <= i < j < ids.len() && ids[i] == x && ids[j] == x;
                if j < ids.len() - 1 {
                    assert(earlier[i] == x && earlier[j] == x);
                    assert(prev.contains(x));
                    if earlier.contains(c) && !prev.contains(c) {
                        assert(prev.push(c)[prev.push(c).len() - 1] == c);
                        let k = choose|k: int| 0 <= k < prev.len() && prev[k] == x;
                        assert(prev.push(c)[k] == x);
                    }
                } else {
                    assert(x == c);
                    assert(earlier[i] == c);
                    assert(earlier.contains(c));
                    if !prev.contains(c) {
                        assert(prev.push(c)[prev.len() as int] == c);
                    }
                }
            }
        }
        if earlier.contains(c) && !prev.contains(c) {
            assert(prev.push(c).no_duplicates()) by {
                assert forall|a: int, b: int| 0 <= a < b < prev.push(c).len() implies prev.push(c)[a] != prev.push(c)[b] by {
                    if b == prev.len() {
                        assert(prev[a] == prev.push(c)[a]);
                    }
                }
            }
        }
    }
}

/// No id is reported as a duplicate exactly when no id occurs twice: a stack builds only with
/// unique ids and unique logical ids.
pub proof fn unique_exactly_when_no_duplicates_reported(ids: Seq<Seq<char>>)
    ensures
        duplicates(ids).len() == 0 <==> ids.no_duplicates(),
{
    duplicates_are_the_repeated_ids(ids);
    if duplicates(ids).len() == 0 {
        assert forall|i: int, j: int| 0 <= i < ids.len() && 0 <= j < ids.len() && i != j implies ids[i] != ids[j] by {
            if ids[i] == ids[j] {
                if i < j {
                    assert(duplicates(ids).contains(ids[i]));
                } else {
                    assert(duplicates(ids).contains(ids[j]));
                }
            }
        }
    } else {
        let x = duplicates(ids)[0];
        assert(duplicates(ids).contains(x));
        let (i, j) = choose|i: int, j: int| 0 <= i < j < ids.len() && ids[i] == x && ids[j] == x;
        assert(!ids.no_duplicates());
    }
}

/// The resources keyed by their logical ids.
pub open spec fn resource_entries(rs: Seq<Resource>) -> Seq<(Seq<char>, Resource)> {
    rs.map_values(|x: Resource| (x.resource_id_view(), x))
}

/// The logical ids of the resources keyed by the user's ids.
pub open spec fn metadata_entries(rs: Seq<Resource>) -> Seq<(Seq<char>, Seq<char>)> {
    rs.map_values(|x: Resource| (x.id_view(), x.resource_id_view()))
}

/// The user's ids of the resources.
pub open spec fn ids_of(rs: Seq<Resource>) -> Seq<Seq<char>> {
    rs.map_values(|r: Resource| r.id_view())
}

/// The logical ids of the resources.
pub open spec fn resource_ids_of(rs: Seq<Resource>) -> Seq<Seq<char>> {
    rs.map_values(|r: Resource| r.resource_id_view())
}

/// For each role that may miss permissions: its logical id and the services it may miss.
pub open spec fn role_issues(rs: Seq<Resource>) -> Seq<Seq<char>>
    decreases rs.len(),
{
    if rs.len() == 0 {
        Seq::empty()
    } else {
        let prev = role_issues(rs.drop_last());
        match rs.last() {
            Resource::Role(r) => if r@.potentially_missing_services@.len() > 0 {
                prev.push(r@.resource_id@ + ": "@ + join_seq(views(r@.potentially_missing_services@), ","@))
            } else {
                prev
            },
            _ => prev,
        }
    }
}

/// The number of actions in an optional list of actions.
pub open spec fn action_count(actions: Option<Vec<String>>) -> nat {
    match actions {
        Some(v) => v@.len(),
        None => 0,
    }
}

/// The complaints about one alarm: each of its lists of actions may hold at most five.
pub open spec fn issues_of_alarm(a: Alarm) -> Seq<Seq<char>> {
    let props = a@.properties@;
    let id = a@.id.0@;
    let s1 = if action_count(props.alarm_actions) > 5 {
        seq!["alarm with id "@ + id + " has too many alarm actions"@]
    } else {
        Seq::empty()
    };
    let s2 = if action_count(props.ok_actions) > 5 {
        seq!["alarm with id "@ + id + " has too many ok actions"@]
    } else {
        Seq::empty()
    };
    let s3 = if action_count(props.insufficient_data_actions) > 5 {
        seq!["alarm with id "@ + id + " has too many insufficient data actions"@]
    } else {
        Seq::empty()
    };
    s1 + s2 + s3
}

/// The complaints about the alarms among the resources, in order.
pub open spec fn alarm_issues(rs: Seq<Resource>) -> Seq<Seq<char>>
    decreases rs.len(),
{
    if rs.len() == 0 {
        Seq::empty()
    } else {
        let prev = alarm_issues(rs.drop_last());
        match rs.last() {
            Resource::Alarm(a) => prev + issues_of_alarm(a),
            _ => prev,
        }
    }
}

/// The number of actions in an optional list.
fn option_len(actions: &Option<Vec<String>>) -> (r: usize)
    ensures
        r == action_count(*actions),
{
    match actions {
        Some(v) => v.len(),
        None => 0,
    }
}

/// Builder for CloudFormation stacks.
///
/// Collects resources, tags and outputs. Building checks that ids and logical ids are unique,
/// that no role misses permissions for the services it needs, and that no alarm has too many actions.
pub struct StackBuilder {
    pub(crate) resources: Vec<Resource>,
    pub(crate) tags: Vec<(String, String)>,
    pub(crate) outputs: Vec<(String, Value)>,
}

/// What a [`StackBuilder`] holds.
pub struct StackBuilderView {
    pub resources: Seq<Resource>,
    pub tags: Seq<(String, String)>,
    pub outputs: Seq<(String, Value)>,
}

impl View for StackBuilder {
    type V = StackBuilderView;

    open(crate) spec fn view(&self) -> StackBuilderView {
        StackBuilderView { resources: self.resources@, tags: self.tags@, outputs: self.outputs@ }
    }
}

impl Default for StackBuilder {
    /// A builder without resources, tags or outputs.
    fn default() -> (r: Self)
        ensures
            r@.resources.len() == 0,
            r@.tags.len() == 0,
            r@.outputs.len() == 0,
    {
        Self::new()
    }
}

impl StackBuilder {
    pub fn new() -> (r: Self)
        ensures
            r@.resources.len() == 0,
            r@.tags.len() == 0,
            r@.outputs.len() == 0,
    {
        Self { resources: Vec::new(), tags: Vec::new(), outputs: Vec::new() }
    }

    pub fn add_resource(&mut self, resource: Resource)
        ensures
            final(self)@ == (StackBuilderView { resources: old(self)@.resources.push(resource), ..old(self)@ }),
    {
        self.resources.push(resource);
    }

    /// The position of the first resource with the given id.
    pub(crate) fn get_resource(&self, id: &Id) -> (r: Option<usize>)
        ensures
            match r {
                Some(i) => {
                    &&& i < self@.resources.len()
                    &&& self@.resources[i as int].id_view() == id.0@
                    &&& forall|k: int| 0 <= k < i ==> #[trigger] self@.resources[k].id_view() != id.0@
                },
                None => forall|k: int| 0 <= k < self@.resources.len() ==> #[trigger] self@.resources[k].id_view() != id.0@,
            },
    {
        let mut i: usize = 0;
        while i < self.resources.len()
            invariant
                i <= self@.resources.len(),
                forall|k: int| 0 <= k < i ==> #[trigger] self@.resources[k].id_view() != id.0@,
            decreases self@.resources.len() - i,
        {
            let rid = self.resources[i].get_id();
            if rid.same_as(id) {
                return Some(i);
            }
            i = i + 1;
        }
        None
    }

    /// Adds a statement to the document of the topic or queue policy at position `i`.
    pub(crate) fn add_policy_statement(&mut self, i: usize, statement: crate::iam::Statement)
        requires
            i < old(self)@.resources.len(),
            old(self)@.resources[i as int] is TopicPolicy || old(self)@.resources[i as int] is QueuePolicy,
        ensures
            final(self)@.tags == old(self)@.tags,
            final(self)@.outputs == old(self)@.outputs,
            final(self)@.resources.len() == old(self)@.resources.len(),
            forall|k: int| 0 <= k < old(self)@.resources.len() && k != i ==> #[trigger] final(self)@.resources[k] == old(
                self,
            )@.resources[k],
            final(self)@.resources[i as int].id_view() == old(self)@.resources[i as int].id_view(),
            final(self)@.resources[i as int] is TopicPolicy == old(self)@.resources[i as int] is TopicPolicy,
            final(self)@.resources[i as int] is QueuePolicy == old(self)@.resources[i as int] is QueuePolicy,
            match (old(self)@.resources[i as int], final(self)@.resources[i as int]) {
                (Resource::TopicPolicy(a), Resource::TopicPolicy(b)) => {
                    &&& b@.id == a@.id
                    &&& b@.resource_id == a@.resource_id
                    &&& b@.properties@.topics == a@.properties@.topics
                    &&& b@.properties@.doc@.version == a@.properties@.doc@.version
                    &&& b@.properties@.doc@.statements@ == a@.properties@.doc@.statements@.push(statement)
                },
                (Resource::QueuePolicy(a), Resource::QueuePolicy(b)) => {
                    &&& b@.id == a@.id
                    &&& b@.resource_id == a@.resource_id
                    &&& b@.properties@.queues == a@.properties@.queues
                    &&& b@.properties@.doc@.version == a@.properties@.doc@.version
                    &&& b@.properties@.doc@.statements@ == a@.properties@.doc@.statements@.push(statement)
                },
                _ => true,
            },
    {
        let r = self.resources.remove(i);
        let updated = match r {
            Resource::TopicPolicy(p) => {
                let mut p = p;
                p.properties.doc.statements.push(statement);
                Resource::TopicPolicy(p)
            },
            Resource::QueuePolicy(p) => {
                let mut p = p;
                p.properties.doc.statements.push(statement);
                Resource::QueuePolicy(p)
            },
            other => other,
        };
        self.resources.insert(i, updated);
    }

    pub fn add_tag(self, key: &str, value: &str) -> (r: Self)
        ensures
            r@.resources == self@.resources,
            r@.outputs == self@.outputs,
            r@.tags.len() == self@.tags.len() + 1,
            r@.tags.drop_last() == self@.tags,
            r@.tags.last().0@ == key@,
            r@.tags.last().1@ == value@,
    {
        let mut tags = self.tags;
        tags.push((String::from_str(key), String::from_str(value)));
        proof {
            assert(tags@.drop_last() =~= self.tags@);
        }
        Self { tags, ..self }
    }

    pub fn add_output(self, name: &str, value: Value) -> (r: Self)
        ensures
            r@.resources == self@.resources,
            r@.tags == self@.tags,
            r@.outputs.len() == self@.outputs.len() + 1,
            r@.outputs.drop_last() == self@.outputs,
            r@.outputs.last().0@ == name@,
            r@.outputs.last().1 == value,
    {
        let mut outputs = self.outputs;
        outputs.push((String::from_str(name), value));
        proof {
            assert(outputs@.drop_last() =~= self.outputs@);
        }
        Self { outputs, ..self }
    }


    /// For each role that may miss permissions, its logical id and the services it may miss.
    fn check_for_roles_with_missing_permissions(&self) -> (r: Vec<String>)
        ensures
            views(r@) == role_issues(self@.resources),
    {
        let mut out: Vec<String> = Vec::new();
        let mut i: usize = 0;
        while i < self.resources.len()
            invariant
                i <= self@.resources.len(),
                views(out@) == role_issues(self@.resources.take(i as int)),
            decreases self@.resources.len() - i,
        {
            let ghost taken = self@.resources.take(i + 1);
            assert(taken.drop_last() =~= self@.resources.take(i as int));
            let ghost old_out = out@;
            match &self.resources[i] {
                Resource::Role(r) => {
                    if r.potentially_missing_services.len() > 0 {
                        let services = join(&r.potentially_missing_services, ",");
                        let line = concat3(r.resource_id.as_str(), ": ", services.as_str());
                        out.push(line);
                        assert(views(out@) =~= views(old_out).push(line@));
                    }
                },
                _ => {},
            }
            i = i + 1;
        }
        assert(self@.resources.take(self@.resources.len() as int) =~= self@.resources);
        out
    }

    /// The complaints about the alarms of the stack.
    fn resource_specific_checks(&self) -> (r: Vec<String>)
        ensures
            views(r@) == alarm_issues(self@.resources),
    {
        let mut out: Vec<String> = Vec::new();
        let mut i: usize = 0;
        while i < self.resources.len()
            invariant
                i <= self@.resources.len(),
                views(out@) == alarm_issues(self@.resources.take(i as int)),
            decreases self@.resources.len() - i,
        {
            let ghost taken = self@.resources.take(i + 1);
            assert(taken.drop_last() =~= self@.resources.take(i as int));
            let ghost old_out = out@;
            match &self.resources[i] {
                Resource::Alarm(a) => {
                    let props = &a.properties;
                    let id = a.id.0.as_str();
                    if option_len(&props.alarm_actions) > 5 {
                        out.push(concat3("alarm with id ", id, " has too many alarm actions"));
                    }
                    let ghost mid1 = out@;
                    if option_len(&props.ok_actions) > 5 {
                        out.push(concat3("alarm with id ", id, " has too many ok actions"));
                    }
                    let ghost mid2 = out@;
                    if option_len(&props.insufficient_data_actions) > 5 {
                        out.push(concat3("alarm with id ", id, " has too many insufficient data actions"));
                    }
                    assert(views(out@) =~= views(old_out) + issues_of_alarm(*a));
                },
                _ => {},
            }
            i = i + 1;
        }
        assert(self@.resources.take(self@.resources.len() as int) =~= self@.resources);
        out
    }


    /// Builds the stack after checking its resources.
    ///
    /// Returns an error, checked in this order, if:
    /// - two resources have the same id
    /// - two resources have the same logical id
    /// - IAM roles seem to miss permissions for AWS services they need to access
    /// - too many actions are specified for an alarm
    pub fn build(self) -> (r: Result<Stack, StackBuilderError>)
        ensures
            match r {
                Err(StackBuilderError::DuplicateIds(v)) => {
                    &&& duplicates(ids_of(self@.resources)).len() > 0
                    &&& views(v@) == duplicates(ids_of(self@.resources))
                },
                Err(StackBuilderError::DuplicateResourceIds(v)) => {
                    &&& duplicates(ids_of(self@.resources)).len() == 0
                    &&& duplicates(resource_ids_of(self@.resources)).len() > 0
                    &&& views(v@) == duplicates(resource_ids_of(self@.resources))
                },
                Err(StackBuilderError::MissingPermissionsForRole(v)) => {
                    &&& duplicates(ids_of(self@.resources)).len() == 0
                    &&& duplicates(resource_ids_of(self@.resources)).len() == 0
                    &&& role_issues(self@.resources).len() > 0
                    &&& views(v@) == role_issues(self@.resources)
                },
                Err(StackBuilderError::ResourceSpecificIssues(v)) => {
                    &&& duplicates(ids_of(self@.resources)).len() == 0
                    &&& duplicates(resource_ids_of(self@.resources)).len() == 0
                    &&& role_issues(self@.resources).len() == 0
                    &&& alarm_issues(self@.resources).len() > 0
                    &&& views(v@) == alarm_issues(self@.resources)
                },
                Ok(stack) => {
                    &&& duplicates(ids_of(self@.resources)).len() == 0
                    &&& duplicates(resource_ids_of(self@.resources)).len() == 0
                    &&& role_issues(self@.resources).len() == 0
                    &&& alarm_issues(self@.resources).len() == 0
                    &&& stack@.to_replace.len() == 0
                    &&& stack@.tags == self@.tags
                    &&& stack@.resources == resource_entries(self@.resources)
                    &&& stack@.metadata == metadata_entries(self@.resources)
                    &&& stack@.outputs == if self@.outputs.len() == 0 {
                        None
                    } else {
                        Some(self@.outputs)
                    }
                },
            },
    {
        let ghost rs = self@.resources;
        let mut ids: Vec<String> = Vec::new();
        let mut resource_ids: Vec<String> = Vec::new();
        let mut i: usize = 0;
        while i < self.resources.len()
            invariant
                rs == self@.resources,
                i <= rs.len(),
                views(ids@) == ids_of(rs.take(i as int)),
                views(resource_ids@) == resource_ids_of(rs.take(i as int)),
            decreases rs.len() - i,
        {
            let ghost old_ids = ids@;
            let ghost old_rids = resource_ids@;
            let id = self.resources[i].get_id();
            ids.push(id.0);
            resource_ids.push(String::from_str(self.resources[i].get_resource_id()));
            assert(views(ids@) =~= ids_of(rs.take(i + 1))) by {
                assert(views(ids@) =~= views(old_ids).push(rs[i as int].id_view()));
            }
            assert(views(resource_ids@) =~= resource_ids_of(rs.take(i + 1))) by {
                assert(views(resource_ids@) =~= views(old_rids).push(rs[i as int].resource_id_view()));
            }
            i = i + 1;
        }
        assert(rs.take(rs.len() as int) =~= rs);
        let metadata_keys = ids.clone();
        let metadata_values = resource_ids.clone();
        let duplicate_ids = Self::check_for_duplicate_ids(ids);
        let duplicate_resource_ids = Self::check_for_duplicate_ids(resource_ids);
        if duplicate_ids.len() > 0 {
            return Err(StackBuilderError::DuplicateIds(duplicate_ids));
        }
        if duplicate_resource_ids.len() > 0 {
            return Err(StackBuilderError::DuplicateResourceIds(duplicate_resource_ids));
        }
        let roles_with_potentially_missing_services = self.check_for_roles_with_missing_permissions();
        if roles_with_potentially_missing_services.len() > 0 {
            return Err(StackBuilderError::MissingPermissionsForRole(roles_with_potentially_missing_services));
        }
        let resource_specific_issues = self.resource_specific_checks();
        if resource_specific_issues.len() > 0 {
            return Err(StackBuilderError::ResourceSpecificIssues(resource_specific_issues));
        }
        let StackBuilder { resources, tags, outputs } = self;
        let ghost outs = outputs@;
        let stack_outputs = if outputs.len() == 0 {
            None
        } else {
            let mut converted: Vec<(String, Output)> = Vec::new();
            let mut rest = outputs;
            while rest.len() > 0
                invariant
                    rest@ == outs.skip(converted@.len() as int),
                    converted@.len() <= outs.len(),
                    converted@.map_values(|p: (String, Output)| (p.0, p.1.value)) == outs.take(converted@.len() as int),
                decreases rest@.len(),
            {
                let ghost before = converted@;
                let (name, value) = rest.remove(0);
                converted.push((name, Output { value }));
                assert(converted@.map_values(|p: (String, Output)| (p.0, p.1.value)) =~= outs.take(converted@.len() as int)) by {
                    assert(before.map_values(|p: (String, Output)| (p.0, p.1.value)) =~= outs.take(before.len() as int));
                }
                assert(rest@ =~= outs.skip(converted@.len() as int));
            }
            assert(outs.take(outs.len() as int) =~= outs);
            Some(converted)
        };
        let mut metadata: Vec<(String, String)> = Vec::new();
        let mut k: usize = 0;
        assert(metadata_keys@.len() == views(metadata_keys@).len());
        assert(metadata_values@.len() == views(metadata_values@).len());
        while k < metadata_keys.len()
            invariant
                views(metadata_keys@) == ids_of(rs),
                views(metadata_values@) == resource_ids_of(rs),
                metadata_keys@.len() == rs.len(),
                metadata_values@.len() == rs.len(),
                k <= rs.len(),
                metadata@.len() == k,
                crate::stack::dto::pair_views(metadata@) == metadata_entries(rs.take(k as int)),
            decreases rs.len() - k,
        {
            let ghost before = metadata@;
            metadata.push((metadata_keys[k].clone(), metadata_values[k].clone()));
            assert(crate::stack::dto::pair_views(metadata@) =~= metadata_entries(rs.take(k + 1))) by {
                assert(views(metadata_keys@)[k as int] == metadata_keys@[k as int]@);
                assert(views(metadata_values@)[k as int] == metadata_values@[k as int]@);
                assert(ids_of(rs)[k as int] == rs[k as int].id_view());
                assert(resource_ids_of(rs)[k as int] == rs[k as int].resource_id_view());
                assert forall|j: int| 0 <= j < k + 1 implies crate::stack::dto::pair_views(metadata@)[j] == metadata_entries(rs.take(k + 1))[j] by {
                    assert(rs.take(k + 1)[j] == rs[j]);
                    if j < k {
                        assert(metadata@[j] == before[j]);
                        assert(crate::stack::dto::pair_views(before)[j] == metadata_entries(rs.take(k as int))[j]);
                        assert(rs.take(k as int)[j] == rs[j]);
                    }
                }
            }
            k = k + 1;
        }
        let mut keyed: Vec<(String, Resource)> = Vec::new();
        let mut remaining = resources;
        while remaining.len() > 0
            invariant
                remaining@ == rs.skip(keyed@.len() as int),
                keyed@.len() <= rs.len(),
                crate::stack::dto::keyed_views(keyed@) == resource_entries(rs.take(keyed@.len() as int)),
            decreases remaining@.len(),
        {
            let ghost before = keyed@;
            let resource = remaining.remove(0);
            assert(resource == rs[before.len() as int]);
            assert(rs.take(before.len() as int + 1) =~= rs.take(before.len() as int).push(resource));
            let key = String::from_str(resource.get_resource_id());
            keyed.push((key, resource));
            assert(crate::stack::dto::keyed_views(keyed@) =~= resource_entries(rs.take(keyed@.len() as int))) by {
                let n = before.len() as int;
                assert forall|j: int| 0 <= j < n + 1 implies crate::stack::dto::keyed_views(keyed@)[j] == resource_entries(rs.take(n + 1))[j] by {
                    assert(rs.take(n + 1)[j] == rs[j]);
                    if j < n {
                        assert(keyed@[j] == before[j]);
                        assert(crate::stack::dto::keyed_views(before)[j] == resource_entries(rs.take(n))[j]);
                        assert(rs.take(n)[j] == rs[j]);
                    }
                }
            }
            assert(remaining@ =~= rs.skip(keyed@.len() as int));
        }
        assert(rs.take(rs.len() as int) =~= rs);
        proof {
            unique_exactly_when_no_duplicates_reported(ids_of(rs));
            unique_exactly_when_no_duplicates_reported(resource_ids_of(rs));
            assert(crate::stack::keys_of(crate::stack::dto::keyed_views(keyed@)) =~= resource_ids_of(rs));
            assert(crate::stack::keys_of(crate::stack::dto::pair_views(metadata@)) =~= ids_of(rs));
        }
        let stack = Stack { to_replace: Vec::new(), tags, resources: keyed, metadata, outputs: stack_outputs };
        assert(stack@.resources =~= resource_entries(rs));
        assert(stack@.metadata =~= metadata_entries(rs));
        assert(stack@.to_replace =~= Seq::<(Seq<char>, Seq<char>)>::empty());
        Ok(stack)
    }

    /// The ids that occur more than once, in the order in which they are first repeated.
    pub fn check_for_duplicate_ids(ids: Vec<String>) -> (r: Vec<String>)
        ensures
            views(r@) == duplicates(views(ids@)),
    {
        let mut all: Vec<String> = Vec::new();
        let mut dups: Vec<String> = Vec::new();
        let mut i: usize = 0;
        while i < ids.len()
            invariant
                i <= ids@.len(),
                views(all@) == views(ids@).take(i as int),
                views(dups@) == duplicates(views(ids@).take(i as int)),
            decreases ids@.len() - i,
        {
            let curr = &ids[i];
            let ghost taken = views(ids@).take(i + 1);
            assert(taken.drop_last() =~= views(ids@).take(i as int));
            assert(taken.last() == curr@);
            let ghost old_dups = dups@;
            let ghost old_all = all@;
            if vec_contains(&all, curr.as_str()) && !vec_contains(&dups, curr.as_str()) {
                dups.push(curr.clone());
                assert(views(dups@) =~= views(old_dups).push(curr@));
            }
            all.push(curr.clone());
            assert(views(all@) =~= views(old_all).push(curr@));
            assert(views(all@) =~= taken);
            i = i + 1;
        }
        assert(views(ids@).take(ids@.len() as int) =~= views(ids@));
        dups
    }
}

} // verus!
