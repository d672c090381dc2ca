//! The stack as a CloudFormation template.
use crate::json::{member_views, members_as_json, object_of, push_member, JsonView, ToJson, Value};
use crate::stack::{Output, Resource, Stack};
use vstd::prelude::*;

verus! {

/// A resource is the object of what it is.
impl ToJson for Resource {
    open spec fn as_json(&self) -> JsonView {
        match self {
            Resource::Schedule(r) => r.as_json(),
            Resource::BucketNotification(r) => r.as_json(),
            Resource::Bucket(r) => r.as_json(),
            Resource::BucketPolicy(r) => r.as_json(),
            Resource::LogGroup(r) => r.as_json(),
            Resource::Application(r) => r.as_json(),
            Resource::ConfigurationProfile(r) => r.as_json(),
            Resource::DeploymentStrategy(r) => r.as_json(),
            Resource::Environment(r) => r.as_json(),
            Resource::AppSyncApi(r) => r.as_json(),
            Resource::ChannelNamespace(r) => r.as_json(),
            Resource::ApiGatewayV2Api(r) => r.as_json(),
            Resource::ApiGatewayV2Integration(r) => r.as_json(),
            Resource::ApiGatewayV2Route(r) => r.as_json(),
            Resource::ApiGatewayV2Stage(r) => r.as_json(),
            Resource::Alarm(r) => r.as_json(),
            Resource::AnomalyDetector(r) => r.as_json(),
            Resource::CompositeAlarm(r) => r.as_json(),
            Resource::Dashboard(r) => r.as_json(),
            Resource::InsightRule(r) => r.as_json(),
            Resource::MetricStream(r) => r.as_json(),
            Resource::EventSourceMapping(r) => r.as_json(),
            Resource::Function(r) => r.as_json(),
            Resource::Permission(r) => r.as_json(),
            Resource::Queue(r) => r.as_json(),
            Resource::QueuePolicy(r) => r.as_json(),
            Resource::Role(r) => r.as_json(),
            Resource::Subscription(r) => r.as_json(),
            Resource::Table(r) => r.as_json(),
            Resource::Topic(r) => r.as_json(),
            Resource::TopicPolicy(r) => r.as_json(),
            Resource::Distribution(r) => r.as_json(),
            Resource::CachePolicy(r) => r.as_json(),
            Resource::OriginAccessControl(r) => r.as_json(),
            Resource::DBCluster(r) => r.as_json(),
            Resource::DBClusterParameterGroup(r) => r.as_json(),
            Resource::DBSubnetGroup(r) => r.as_json(),
            Resource::GlobalCluster(r) => r.as_json(),
            Resource::PublicRepository(r) => r.as_json(),
            Resource::PullThroughCacheRule(r) => r.as_json(),
            Resource::PullTimeUpdateExclusion(r) => r.as_json(),
            Resource::RegistryPolicy(r) => r.as_json(),
            Resource::RegistryScanningConfiguration(r) => r.as_json(),
            Resource::ReplicationConfiguration(r) => r.as_json(),
            Resource::Repository(r) => r.as_json(),
        }
    }

    fn to_json(&self) -> (r: Value) {
        match self {
            Resource::Schedule(r) => r.to_json(),
            Resource::BucketNotification(r) => r.to_json(),
            Resource::Bucket(r) => r.to_json(),
            Resource::BucketPolicy(r) => r.to_json(),
            Resource::LogGroup(r) => r.to_json(),
            Resource::Application(r) => r.to_json(),
            Resource::ConfigurationProfile(r) => r.to_json(),
            Resource::DeploymentStrategy(r) => r.to_json(),
            Resource::Environment(r) => r.to_json(),
            Resource::AppSyncApi(r) => r.to_json(),
            Resource::ChannelNamespace(r) => r.to_json(),
            Resource::ApiGatewayV2Api(r) => r.to_json(),
            Resource::ApiGatewayV2Integration(r) => r.to_json(),
            Resource::ApiGatewayV2Route(r) => r.to_json(),
            Resource::ApiGatewayV2Stage(r) => r.to_json(),
            Resource::Alarm(r) => r.to_json(),
            Resource::AnomalyDetector(r) => r.to_json(),
            Resource::CompositeAlarm(r) => r.to_json(),
            Resource::Dashboard(r) => r.to_json(),
            Resource::InsightRule(r) => r.to_json(),
            Resource::MetricStream(r) => r.to_json(),
            Resource::EventSourceMapping(r) => r.to_json(),
            Resource::Function(r) => r.to_json(),
            Resource::Permission(r) => r.to_json(),
            Resource::Queue(r) => r.to_json(),
            Resource::QueuePolicy(r) => r.to_json(),
            Resource::Role(r) => r.to_json(),
            Resource::Subscription(r) => r.to_json(),
            Resource::Table(r) => r.to_json(),
            Resource::Topic(r) => r.to_json(),
            Resource::TopicPolicy(r) => r.to_json(),
            Resource::Distribution(r) => r.to_json(),
            Resource::CachePolicy(r) => r.to_json(),
            Resource::OriginAccessControl(r) => r.to_json(),
            Resource::DBCluster(r) => r.to_json(),
            Resource::DBClusterParameterGroup(r) => r.to_json(),
            Resource::DBSubnetGroup(r) => r.to_json(),
            Resource::GlobalCluster(r) => r.to_json(),
            Resource::PublicRepository(r) => r.to_json(),
            Resource::PullThroughCacheRule(r) => r.to_json(),
            Resource::PullTimeUpdateExclusion(r) => r.to_json(),
            Resource::RegistryPolicy(r) => r.to_json(),
            Resource::RegistryScanningConfiguration(r) => r.to_json(),
            Resource::ReplicationConfiguration(r) => r.to_json(),
            Resource::Repository(r) => r.to_json(),
        }
    }
}

/// An output is `{"Value": ..}`.
impl ToJson for Output {
    open(crate) spec fn as_json(&self) -> JsonView {
        JsonView::Object(seq![("Value"@, self.value@)])
    }

    fn to_json(&self) -> (r: Value) {
        crate::intrinsic::single_member("Value", self.value.deep_copy())
    }
}

/// The members of a map from strings to strings, in order.
pub open spec fn string_members(s: Seq<(String, String)>) -> Seq<(Seq<char>, JsonView)> {
    s.map_values(|p: (String, String)| (p.0@, JsonView::String(p.1@)))
}

/// The template: the resources by logical id, the metadata (logical ids by the user's ids), and
/// the outputs where there are any. Tags and the replacements to make are not part of it.
impl ToJson for Stack {
    open(crate) spec fn as_json(&self) -> JsonView {
        JsonView::Object(
            Seq::empty()
                + seq![("Resources"@, JsonView::Object(members_as_json(self.resources@)))]
                + seq![("Metadata"@, JsonView::Object(string_members(self.metadata@)))]
                + match &self.outputs {
                Some(o) => seq![("Outputs"@, JsonView::Object(members_as_json(o@)))],
                None => Seq::empty(),
            },
        )
    }

    fn to_json(&self) -> (r: Value) {
        let mut metadata: Vec<(String, Value)> = Vec::new();
        let mut i: usize = 0;
        while i < self.metadata.len()
            invariant
                i <= self.metadata@.len(),
                member_views(metadata@) == string_members(self.metadata@.take(i as int)),
            decreases self.metadata@.len() - i,
        {
            let ghost before = metadata@;
            let (k, v) = &self.metadata[i];
            let key = k.clone();
            let value = Value::String(v.clone());
            assert(key@ == self.metadata@[i as int].0@ && value@ == JsonView::String(self.metadata@[i as int].1@));
            metadata.push((key, value));
            proof {
                assert(metadata@.drop_last() =~= before);
                assert(member_views(metadata@) =~= member_views(before).push((key@, value@)));
                assert(self.metadata@.take(i + 1).drop_last() =~= self.metadata@.take(i as int));
                assert(string_members(self.metadata@.take(i + 1)) =~= string_members(self.metadata@.take(i as int)).push(
                    (self.metadata@[i as int].0@, JsonView::String(self.metadata@[i as int].1@)),
                ));
            }
            i = i + 1;
        }
        assert(self.metadata@.take(self.metadata@.len() as int) =~= self.metadata@);
        let mut members: Vec<(String, Value)> = Vec::new();
        push_member(&mut members, "Resources", object_of(&self.resources));
        push_member(&mut members, "Metadata", Value::Object(metadata));
        match &self.outputs {
            Some(o) => push_member(&mut members, "Outputs", object_of(o)),
            None => {},
        }
        assert(member_views(members@) =~= Seq::empty()
            + seq![("Resources"@, JsonView::Object(members_as_json(self.resources@)))]
            + seq![("Metadata"@, JsonView::Object(string_members(self.metadata@)))]
            + match &self.outputs {
            Some(o) => seq![("Outputs"@, JsonView::Object(members_as_json(o@)))],
            None => Seq::empty(),
        });
        Value::Object(members)
    }
}

} // verus!
