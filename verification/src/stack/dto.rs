use crate::apigateway::ApiGatewayV2Api;
use crate::apigateway::ApiGatewayV2Integration;
use crate::apigateway::ApiGatewayV2Route;
use crate::apigateway::ApiGatewayV2Stage;
use crate::appconfig::Application;
use crate::appconfig::ConfigurationProfile;
use crate::appconfig::DeploymentStrategy;
use crate::appconfig::Environment;
use crate::appsync::AppSyncApi;
use crate::appsync::ChannelNamespace;
use crate::cloudfront::CachePolicy;
use crate::cloudfront::Distribution;
use crate::cloudfront::OriginAccessControl;
use crate::cloudwatch::{Alarm, AnomalyDetector, CompositeAlarm, Dashboard, InsightRule, MetricStream};
use crate::cloudwatch::LogGroup;
use crate::custom_resource::BucketNotification;
use crate::documentdb::DBCluster;
use crate::documentdb::DBClusterParameterGroup;
use crate::documentdb::DBSubnetGroup;
use crate::documentdb::GlobalCluster;
use crate::dynamodb::Table;
use crate::ecr::PublicRepository;
use crate::ecr::PullThroughCacheRule;
use crate::ecr::PullTimeUpdateExclusion;
use crate::ecr::RegistryPolicy;
use crate::ecr::RegistryScanningConfiguration;
use crate::ecr::ReplicationConfiguration;
use crate::ecr::Repository;
use crate::events::Schedule;
use crate::iam::Role;
use crate::json::Value;
use crate::lambda::EventSourceMapping;
use crate::lambda::Function;
use crate::lambda::Permission;
use crate::s3::Bucket;
use crate::s3::BucketPolicy;
use crate::shared::Id;
use crate::sns::Subscription;
use crate::sns::Topic;
use crate::sns::TopicPolicy;
use crate::sqs::Queue;
use crate::sqs::QueuePolicy;
use crate::text::{
    contains_seq, decimal, lemma_replace_absent, lemma_replace_keeps_ends, lemma_replace_split, lemma_replace_whole,
    replace_all, replace_seq,
};
use vstd::prelude::*;
verus! {

/// The logical id made of a resource's kind and a number: the kind followed by the number in decimal.
pub open spec fn generated_id(resource_name: Seq<char>, suffix: u32) -> Seq<char> {
    resource_name + decimal(suffix as nat)
}

/// `id` is a logical id made for a resource of the kind `resource_name`.
pub open spec fn is_generated_id(id: Seq<char>, resource_name: Seq<char>) -> bool {
    exists|suffix: u32| id == generated_id(resource_name, suffix)
}

/// A decimal number has at least one digit.
proof fn lemma_decimal_nonempty(n: nat)
    ensures
        decimal(n).len() >= 1,
    decreases n,
{
    if n >= 10 {
        lemma_decimal_nonempty(n / 10);
    }
}

/// A logical id made for a resource starts with the resource's kind, and has a number after it.
pub proof fn generated_ids_start_with_the_kind(id: Seq<char>, resource_name: Seq<char>)
    requires
        is_generated_id(id, resource_name),
    ensures
        resource_name.is_prefix_of(id),
        id.len() > resource_name.len(),
{
    let suffix = choose|suffix: u32| id == generated_id(resource_name, suffix);
    lemma_decimal_nonempty(suffix as nat);
    assert(id.subrange(0, resource_name.len() as int) =~= resource_name);
}

/// A number from `rand`'s thread-local generator.
///
/// Calls `rand::random::<u32>()`. Nothing is claimed of the number: any `u32` may come back.
#[verifier::external_body]
fn random_u32() -> (r: u32) {
    rand::random::<u32>()
}

/// A file of the user's that is uploaded to S3, where a resource of the stack finds it.
pub struct Asset {
    pub s3_bucket: String,
    pub s3_key: String,
    pub path: String,
}

impl Clone for Asset {
    fn clone(&self) -> (r: Self)
        ensures
            r == *self,
    {
        Asset { s3_bucket: self.s3_bucket.clone(), s3_key: self.s3_key.clone(), path: self.path.clone() }
    }
}

/// A resource of the stack.
pub enum Resource {
    Schedule(Schedule),
    BucketNotification(BucketNotification),
    Bucket(Bucket),
    BucketPolicy(BucketPolicy),
    LogGroup(LogGroup),
    Application(Application),
    ConfigurationProfile(ConfigurationProfile),
    DeploymentStrategy(DeploymentStrategy),
    Environment(Environment),
    AppSyncApi(AppSyncApi),
    ChannelNamespace(ChannelNamespace),
    ApiGatewayV2Api(ApiGatewayV2Api),
    ApiGatewayV2Integration(ApiGatewayV2Integration),
    ApiGatewayV2Route(ApiGatewayV2Route),
    ApiGatewayV2Stage(ApiGatewayV2Stage),
    Alarm(Alarm),
    AnomalyDetector(AnomalyDetector),
    CompositeAlarm(CompositeAlarm),
    Dashboard(Dashboard),
    InsightRule(InsightRule),
    MetricStream(MetricStream),
    EventSourceMapping(EventSourceMapping),
    Function(Function),
    Permission(Permission),
    Queue(Queue),
    QueuePolicy(QueuePolicy),
    Role(Role),
    Subscription(Subscription),
    Table(Table),
    Topic(Topic),
    TopicPolicy(TopicPolicy),
    Distribution(Distribution),
    CachePolicy(CachePolicy),
    OriginAccessControl(OriginAccessControl),
    DBCluster(DBCluster),
    DBClusterParameterGroup(DBClusterParameterGroup),
    DBSubnetGroup(DBSubnetGroup),
    GlobalCluster(GlobalCluster),
    PublicRepository(PublicRepository),
    PullThroughCacheRule(PullThroughCacheRule),
    PullTimeUpdateExclusion(PullTimeUpdateExclusion),
    RegistryPolicy(RegistryPolicy),
    RegistryScanningConfiguration(RegistryScanningConfiguration),
    ReplicationConfiguration(ReplicationConfiguration),
    Repository(Repository),
}

impl Resource {
    /// The user's id of the resource.
    pub open spec fn id_view(self) -> Seq<char> {
        match self {
            Resource::Schedule(r) => r@.id.0@,
            Resource::BucketNotification(r) => r@.id.0@,
            Resource::Bucket(r) => r@.id.0@,
            Resource::BucketPolicy(r) => r@.id.0@,
            Resource::LogGroup(r) => r@.id.0@,
            Resource::Application(r) => r@.id.0@,
            Resource::ConfigurationProfile(r) => r@.id.0@,
            Resource::DeploymentStrategy(r) => r@.id.0@,
            Resource::Environment(r) => r@.id.0@,
            Resource::AppSyncApi(r) => r@.id.0@,
            Resource::ChannelNamespace(r) => r@.id.0@,
            Resource::ApiGatewayV2Api(r) => r@.id.0@,
            Resource::ApiGatewayV2Integration(r) => r@.id.0@,
            Resource::ApiGatewayV2Route(r) => r@.id.0@,
            Resource::ApiGatewayV2Stage(r) => r@.id.0@,
            Resource::Alarm(r) => r@.id.0@,
            Resource::AnomalyDetector(r) => r@.id.0@,
            Resource::CompositeAlarm(r) => r@.id.0@,
            Resource::Dashboard(r) => r@.id.0@,
            Resource::InsightRule(r) => r@.id.0@,
            Resource::MetricStream(r) => r@.id.0@,
            Resource::EventSourceMapping(r) => r@.id.0@,
            Resource::Function(r) => r@.id.0@,
            Resource::Permission(r) => r@.id.0@,
            Resource::Queue(r) => r@.id.0@,
            Resource::QueuePolicy(r) => r@.id.0@,
            Resource::Role(r) => r@.id.0@,
            Resource::Subscription(r) => r@.id.0@,
            Resource::Table(r) => r@.id.0@,
            Resource::Topic(r) => r@.id.0@,
            Resource::TopicPolicy(r) => r@.id.0@,
            Resource::Distribution(r) => r@.id.0@,
            Resource::CachePolicy(r) => r@.id.0@,
            Resource::OriginAccessControl(r) => r@.id.0@,
            Resource::DBCluster(r) => r@.id.0@,
            Resource::DBClusterParameterGroup(r) => r@.id.0@,
            Resource::DBSubnetGroup(r) => r@.id.0@,
            Resource::GlobalCluster(r) => r@.id.0@,
            Resource::PublicRepository(r) => r@.id.0@,
            Resource::PullThroughCacheRule(r) => r@.id.0@,
            Resource::PullTimeUpdateExclusion(r) => r@.id.0@,
            Resource::RegistryPolicy(r) => r@.id.0@,
            Resource::RegistryScanningConfiguration(r) => r@.id.0@,
            Resource::ReplicationConfiguration(r) => r@.id.0@,
            Resource::Repository(r) => r@.id.0@,
        }
    }

    /// The logical id of the resource in the template.
    pub open spec fn resource_id_view(self) -> Seq<char> {
        match self {
            Resource::Schedule(r) => r@.resource_id@,
            Resource::BucketNotification(r) => r@.resource_id@,
            Resource::Bucket(r) => r@.resource_id@,
            Resource::BucketPolicy(r) => r@.resource_id@,
            Resource::LogGroup(r) => r@.resource_id@,
            Resource::Application(r) => r@.resource_id@,
            Resource::ConfigurationProfile(r) => r@.resource_id@,
            Resource::DeploymentStrategy(r) => r@.resource_id@,
            Resource::Environment(r) => r@.resource_id@,
            Resource::AppSyncApi(r) => r@.resource_id@,
            Resource::ChannelNamespace(r) => r@.resource_id@,
            Resource::ApiGatewayV2Api(r) => r@.resource_id@,
            Resource::ApiGatewayV2Integration(r) => r@.resource_id@,
            Resource::ApiGatewayV2Route(r) => r@.resource_id@,
            Resource::ApiGatewayV2Stage(r) => r@.resource_id@,
            Resource::Alarm(r) => r@.resource_id@,
            Resource::AnomalyDetector(r) => r@.resource_id@,
            Resource::CompositeAlarm(r) => r@.resource_id@,
            Resource::Dashboard(r) => r@.resource_id@,
            Resource::InsightRule(r) => r@.resource_id@,
            Resource::MetricStream(r) => r@.resource_id@,
            Resource::EventSourceMapping(r) => r@.resource_id@,
            Resource::Function(r) => r@.resource_id@,
            Resource::Permission(r) => r@.resource_id@,
            Resource::Queue(r) => r@.resource_id@,
            Resource::QueuePolicy(r) => r@.resource_id@,
            Resource::Role(r) => r@.resource_id@,
            Resource::Subscription(r) => r@.resource_id@,
            Resource::Table(r) => r@.resource_id@,
            Resource::Topic(r) => r@.resource_id@,
            Resource::TopicPolicy(r) => r@.resource_id@,
            Resource::Distribution(r) => r@.resource_id@,
            Resource::CachePolicy(r) => r@.resource_id@,
            Resource::OriginAccessControl(r) => r@.resource_id@,
            Resource::DBCluster(r) => r@.resource_id@,
            Resource::DBClusterParameterGroup(r) => r@.resource_id@,
            Resource::DBSubnetGroup(r) => r@.resource_id@,
            Resource::GlobalCluster(r) => r@.resource_id@,
            Resource::PublicRepository(r) => r@.resource_id@,
            Resource::PullThroughCacheRule(r) => r@.resource_id@,
            Resource::PullTimeUpdateExclusion(r) => r@.resource_id@,
            Resource::RegistryPolicy(r) => r@.resource_id@,
            Resource::RegistryScanningConfiguration(r) => r@.resource_id@,
            Resource::ReplicationConfiguration(r) => r@.resource_id@,
            Resource::Repository(r) => r@.resource_id@,
        }
    }

    pub fn get_id(&self) -> (r: Id)
        ensures
            r.0@ == self.id_view(),
    {
        let id = match self {
            Resource::Schedule(r) => r.get_id(),
            Resource::BucketNotification(r) => r.get_id(),
            Resource::Bucket(r) => r.get_id(),
            Resource::BucketPolicy(r) => r.get_id(),
            Resource::LogGroup(r) => r.get_id(),
            Resource::Application(r) => r.get_id(),
            Resource::ConfigurationProfile(r) => r.get_id(),
            Resource::DeploymentStrategy(r) => r.get_id(),
            Resource::Environment(r) => r.get_id(),
            Resource::AppSyncApi(r) => r.get_id(),
            Resource::ChannelNamespace(r) => r.get_id(),
            Resource::ApiGatewayV2Api(r) => r.get_id(),
            Resource::ApiGatewayV2Integration(r) => r.get_id(),
            Resource::ApiGatewayV2Route(r) => r.get_id(),
            Resource::ApiGatewayV2Stage(r) => r.get_id(),
            Resource::Alarm(r) => r.get_id(),
            Resource::AnomalyDetector(r) => r.get_id(),
            Resource::CompositeAlarm(r) => r.get_id(),
            Resource::Dashboard(r) => r.get_id(),
            Resource::InsightRule(r) => r.get_id(),
            Resource::MetricStream(r) => r.get_id(),
            Resource::EventSourceMapping(r) => r.get_id(),
            Resource::Function(r) => r.get_id(),
            Resource::Permission(r) => r.get_id(),
            Resource::Queue(r) => r.get_id(),
            Resource::QueuePolicy(r) => r.get_id(),
            Resource::Role(r) => r.get_id(),
            Resource::Subscription(r) => r.get_id(),
            Resource::Table(r) => r.get_id(),
            Resource::Topic(r) => r.get_id(),
            Resource::TopicPolicy(r) => r.get_id(),
            Resource::Distribution(r) => r.get_id(),
            Resource::CachePolicy(r) => r.get_id(),
            Resource::OriginAccessControl(r) => r.get_id(),
            Resource::DBCluster(r) => r.get_id(),
            Resource::DBClusterParameterGroup(r) => r.get_id(),
            Resource::DBSubnetGroup(r) => r.get_id(),
            Resource::GlobalCluster(r) => r.get_id(),
            Resource::PublicRepository(r) => r.get_id(),
            Resource::PullThroughCacheRule(r) => r.get_id(),
            Resource::PullTimeUpdateExclusion(r) => r.get_id(),
            Resource::RegistryPolicy(r) => r.get_id(),
            Resource::RegistryScanningConfiguration(r) => r.get_id(),
            Resource::ReplicationConfiguration(r) => r.get_id(),
            Resource::Repository(r) => r.get_id(),
        };
        id.clone()
    }

    pub fn get_resource_id(&self) -> (r: &str)
        ensures
            r@ == self.resource_id_view(),
    {
        match self {
            Resource::Schedule(r) => r.get_resource_id(),
            Resource::BucketNotification(r) => r.get_resource_id(),
            Resource::Bucket(r) => r.get_resource_id(),
            Resource::BucketPolicy(r) => r.get_resource_id(),
            Resource::LogGroup(r) => r.get_resource_id(),
            Resource::Application(r) => r.get_resource_id(),
            Resource::ConfigurationProfile(r) => r.get_resource_id(),
            Resource::DeploymentStrategy(r) => r.get_resource_id(),
            Resource::Environment(r) => r.get_resource_id(),
            Resource::AppSyncApi(r) => r.get_resource_id(),
            Resource::ChannelNamespace(r) => r.get_resource_id(),
            Resource::ApiGatewayV2Api(r) => r.get_resource_id(),
            Resource::ApiGatewayV2Integration(r) => r.get_resource_id(),
            Resource::ApiGatewayV2Route(r) => r.get_resource_id(),
            Resource::ApiGatewayV2Stage(r) => r.get_resource_id(),
            Resource::Alarm(r) => r.get_resource_id(),
            Resource::AnomalyDetector(r) => r.get_resource_id(),
            Resource::CompositeAlarm(r) => r.get_resource_id(),
            Resource::Dashboard(r) => r.get_resource_id(),
            Resource::InsightRule(r) => r.get_resource_id(),
            Resource::MetricStream(r) => r.get_resource_id(),
            Resource::EventSourceMapping(r) => r.get_resource_id(),
            Resource::Function(r) => r.get_resource_id(),
            Resource::Permission(r) => r.get_resource_id(),
            Resource::Queue(r) => r.get_resource_id(),
            Resource::QueuePolicy(r) => r.get_resource_id(),
            Resource::Role(r) => r.get_resource_id(),
            Resource::Subscription(r) => r.get_resource_id(),
            Resource::Table(r) => r.get_resource_id(),
            Resource::Topic(r) => r.get_resource_id(),
            Resource::TopicPolicy(r) => r.get_resource_id(),
            Resource::Distribution(r) => r.get_resource_id(),
            Resource::CachePolicy(r) => r.get_resource_id(),
            Resource::OriginAccessControl(r) => r.get_resource_id(),
            Resource::DBCluster(r) => r.get_resource_id(),
            Resource::DBClusterParameterGroup(r) => r.get_resource_id(),
            Resource::DBSubnetGroup(r) => r.get_resource_id(),
            Resource::GlobalCluster(r) => r.get_resource_id(),
            Resource::PublicRepository(r) => r.get_resource_id(),
            Resource::PullThroughCacheRule(r) => r.get_resource_id(),
            Resource::PullTimeUpdateExclusion(r) => r.get_resource_id(),
            Resource::RegistryPolicy(r) => r.get_resource_id(),
            Resource::RegistryScanningConfiguration(r) => r.get_resource_id(),
            Resource::ReplicationConfiguration(r) => r.get_resource_id(),
            Resource::Repository(r) => r.get_resource_id(),
        }
    }
    /// The logical id for a resource of the kind `resource_name` with the number `suffix`.
    pub fn id_with_suffix(resource_name: &str, suffix: u32) -> (r: String)
        ensures
            r@ == generated_id(resource_name@, suffix),
    {
        let mut s = String::from_str(resource_name);
        crate::text::push_decimal(&mut s, suffix);
        s
    }

    /// A fresh logical id for a resource of the kind `resource_name`: the kind followed by a random number.
    pub(crate) fn generate_id(resource_name: &str) -> (r: String)
        ensures
            is_generated_id(r@, resource_name@),
    {
        let suffix = random_u32();
        Self::id_with_suffix(resource_name, suffix)
    }
}

impl vstd::std_specs::convert::FromSpecImpl<Schedule> for Resource {
    open spec fn obeys_from_spec() -> bool {
        true
    }

    open spec fn from_spec(v: Schedule) -> Resource {
        Resource::Schedule(v)
    }
}

impl From<Schedule> for Resource {
    fn from(value: Schedule) -> Resource {
        Resource::Schedule(value)
    }
}

impl vstd::std_specs::convert::FromSpecImpl<BucketNotification> for Resource {
    open spec fn obeys_from_spec() -> bool {
        true
    }

    open spec fn from_spec(v: BucketNotification) -> Resource {
        Resource::BucketNotification(v)
    }
}

impl From<BucketNotification> for Resource {
    fn from(value: BucketNotification) -> Resource {
        Resource::BucketNotification(value)
    }
}

impl vstd::std_specs::convert::FromSpecImpl<Bucket> for Resource {
    open spec fn obeys_from_spec() -> bool {
        true
    }

    open spec fn from_spec(v: Bucket) -> Resource {
        Resource::Bucket(v)
    }
}

impl From<Bucket> for Resource {
    fn from(value: Bucket) -> Resource {
        Resource::Bucket(value)
    }
}

impl vstd::std_specs::convert::FromSpecImpl<BucketPolicy> for Resource {
    open spec fn obeys_from_spec() -> bool {
        true
    }

    open spec fn from_spec(v: BucketPolicy) -> Resource {
        Resource::BucketPolicy(v)
    }
}

impl From<BucketPolicy> for Resource {
    fn from(value: BucketPolicy) -> Resource {
        Resource::BucketPolicy(value)
    }
}

impl vstd::std_specs::convert::FromSpecImpl<LogGroup> for Resource {
    open spec fn obeys_from_spec() -> bool {
        true
    }

    open spec fn from_spec(v: LogGroup) -> Resource {
        Resource::LogGroup(v)
    }
}

impl From<LogGroup> for Resource {
    fn from(value: LogGroup) -> Resource {
        Resource::LogGroup(value)
    }
}

impl vstd::std_specs::convert::FromSpecImpl<Application> for Resource {
    open spec fn obeys_from_spec() -> bool {
        true
    }

    open spec fn from_spec(v: Application) -> Resource {
        Resource::Application(v)
    }
}

impl From<Application> for Resource {
    fn from(value: Application) -> Resource {
        Resource::Application(value)
    }
}

impl vstd::std_specs::convert::FromSpecImpl<ConfigurationProfile> for Resource {
    open spec fn obeys_from_spec() -> bool {
        true
    }

    open spec fn from_spec(v: ConfigurationProfile) -> Resource {
        Resource::ConfigurationProfile(v)
    }
}

impl From<ConfigurationProfile> for Resource {
    fn from(value: ConfigurationProfile) -> Resource {
        Resource::ConfigurationProfile(value)
    }
}

impl vstd::std_specs::convert::FromSpecImpl<DeploymentStrategy> for Resource {
    open spec fn obeys_from_spec() -> bool {
        true
    }

    open spec fn from_spec(v: DeploymentStrategy) -> Resource {
        Resource::DeploymentStrategy(v)
    }
}

impl From<DeploymentStrategy> for Resource {
    fn from(value: DeploymentStrategy) -> Resource {
        Resource::DeploymentStrategy(value)
    }
}

impl vstd::std_specs::convert::FromSpecImpl<Environment> for Resource {
    open spec fn obeys_from_spec() -> bool {
        true
    }

    open spec fn from_spec(v: Environment) -> Resource {
        Resource::Environment(v)
    }
}

impl From<Environment> for Resource {
    fn from(value: Environment) -> Resource {
        Resource::Environment(value)
    }
}

impl vstd::std_specs::convert::FromSpecImpl<AppSyncApi> for Resource {
    open spec fn obeys_from_spec() -> bool {
        true
    }

    open spec fn from_spec(v: AppSyncApi) -> Resource {
        Resource::AppSyncApi(v)
    }
}

impl From<AppSyncApi> for Resource {
    fn from(value: AppSyncApi) -> Resource {
        Resource::AppSyncApi(value)
    }
}

impl vstd::std_specs::convert::FromSpecImpl<ChannelNamespace> for Resource {
    open spec fn obeys_from_spec() -> bool {
        true
    }

    open spec fn from_spec(v: ChannelNamespace) -> Resource {
        Resource::ChannelNamespace(v)
    }
}

impl From<ChannelNamespace> for Resource {
    fn from(value: ChannelNamespace) -> Resource {
        Resource::ChannelNamespace(value)
    }
}

impl vstd::std_specs::convert::FromSpecImpl<ApiGatewayV2Api> for Resource {
    open spec fn obeys_from_spec() -> bool {
        true
    }

    open spec fn from_spec(v: ApiGatewayV2Api) -> Resource {
        Resource::ApiGatewayV2Api(v)
    }
}

impl From<ApiGatewayV2Api> for Resource {
    fn from(value: ApiGatewayV2Api) -> Resource {
        Resource::ApiGatewayV2Api(value)
    }
}

impl vstd::std_specs::convert::FromSpecImpl<ApiGatewayV2Integration> for Resource {
    open spec fn obeys_from_spec() -> bool {
        true
    }

    open spec fn from_spec(v: ApiGatewayV2Integration) -> Resource {
        Resource::ApiGatewayV2Integration(v)
    }
}

impl From<ApiGatewayV2Integration> for Resource {
    fn from(value: ApiGatewayV2Integration) -> Resource {
        Resource::ApiGatewayV2Integration(value)
    }
}

impl vstd::std_specs::convert::FromSpecImpl<ApiGatewayV2Route> for Resource {
    open spec fn obeys_from_spec() -> bool {
        true
    }

    open spec fn from_spec(v: ApiGatewayV2Route) -> Resource {
        Resource::ApiGatewayV2Route(v)
    }
}

impl From<ApiGatewayV2Route> for Resource {
    fn from(value: ApiGatewayV2Route) -> Resource {
        Resource::ApiGatewayV2Route(value)
    }
}

impl vstd::std_specs::convert::FromSpecImpl<ApiGatewayV2Stage> for Resource {
    open spec fn obeys_from_spec() -> bool {
        true
    }

    open spec fn from_spec(v: ApiGatewayV2Stage) -> Resource {
        Resource::ApiGatewayV2Stage(v)
    }
}

impl From<ApiGatewayV2Stage> for Resource {
    fn from(value: ApiGatewayV2Stage) -> Resource {
        Resource::ApiGatewayV2Stage(value)
    }
}

impl vstd::std_specs::convert::FromSpecImpl<Alarm> for Resource {
    open spec fn obeys_from_spec() -> bool {
        true
    }

    open spec fn from_spec(v: Alarm) -> Resource {
        Resource::Alarm(v)
    }
}

impl From<Alarm> for Resource {
    fn from(value: Alarm) -> Resource {
        Resource::Alarm(value)
    }
}

impl vstd::std_specs::convert::FromSpecImpl<AnomalyDetector> for Resource {
    open spec fn obeys_from_spec() -> bool {
        true
    }

    open spec fn from_spec(v: AnomalyDetector) -> Resource {
        Resource::AnomalyDetector(v)
    }
}

impl From<AnomalyDetector> for Resource {
    fn from(value: AnomalyDetector) -> Resource {
        Resource::AnomalyDetector(value)
    }
}

impl vstd::std_specs::convert::FromSpecImpl<CompositeAlarm> for Resource {
    open spec fn obeys_from_spec() -> bool {
        true
    }

    open spec fn from_spec(v: CompositeAlarm) -> Resource {
        Resource::CompositeAlarm(v)
    }
}

impl From<CompositeAlarm> for Resource {
    fn from(value: CompositeAlarm) -> Resource {
        Resource::CompositeAlarm(value)
    }
}

impl vstd::std_specs::convert::FromSpecImpl<Dashboard> for Resource {
    open spec fn obeys_from_spec() -> bool {
        true
    }

    open spec fn from_spec(v: Dashboard) -> Resource {
        Resource::Dashboard(v)
    }
}

impl From<Dashboard> for Resource {
    fn from(value: Dashboard) -> Resource {
        Resource::Dashboard(value)
    }
}

impl vstd::std_specs::convert::FromSpecImpl<InsightRule> for Resource {
    open spec fn obeys_from_spec() -> bool {
        true
    }

    open spec fn from_spec(v: InsightRule) -> Resource {
        Resource::InsightRule(v)
    }
}

impl From<InsightRule> for Resource {
    fn from(value: InsightRule) -> Resource {
        Resource::InsightRule(value)
    }
}

impl vstd::std_specs::convert::FromSpecImpl<MetricStream> for Resource {
    open spec fn obeys_from_spec() -> bool {
        true
    }

    open spec fn from_spec(v: MetricStream) -> Resource {
        Resource::MetricStream(v)
    }
}

impl From<MetricStream> for Resource {
    fn from(value: MetricStream) -> Resource {
        Resource::MetricStream(value)
    }
}

impl vstd::std_specs::convert::FromSpecImpl<EventSourceMapping> for Resource {
    open spec fn obeys_from_spec() -> bool {
        true
    }

    open spec fn from_spec(v: EventSourceMapping) -> Resource {
        Resource::EventSourceMapping(v)
    }
}

impl From<EventSourceMapping> for Resource {
    fn from(value: EventSourceMapping) -> Resource {
        Resource::EventSourceMapping(value)
    }
}

impl vstd::std_specs::convert::FromSpecImpl<Function> for Resource {
    open spec fn obeys_from_spec() -> bool {
        true
    }

    open spec fn from_spec(v: Function) -> Resource {
        Resource::Function(v)
    }
}

impl From<Function> for Resource {
    fn from(value: Function) -> Resource {
        Resource::Function(value)
    }
}

impl vstd::std_specs::convert::FromSpecImpl<Permission> for Resource {
    open spec fn obeys_from_spec() -> bool {
        true
    }

    open spec fn from_spec(v: Permission) -> Resource {
        Resource::Permission(v)
    }
}

impl From<Permission> for Resource {
    fn from(value: Permission) -> Resource {
        Resource::Permission(value)
    }
}

impl vstd::std_specs::convert::FromSpecImpl<Queue> for Resource {
    open spec fn obeys_from_spec() -> bool {
        true
    }

    open spec fn from_spec(v: Queue) -> Resource {
        Resource::Queue(v)
    }
}

impl From<Queue> for Resource {
    fn from(value: Queue) -> Resource {
        Resource::Queue(value)
    }
}

impl vstd::std_specs::convert::FromSpecImpl<QueuePolicy> for Resource {
    open spec fn obeys_from_spec() -> bool {
        true
    }

    open spec fn from_spec(v: QueuePolicy) -> Resource {
        Resource::QueuePolicy(v)
    }
}

impl From<QueuePolicy> for Resource {
    fn from(value: QueuePolicy) -> Resource {
        Resource::QueuePolicy(value)
    }
}

impl vstd::std_specs::convert::FromSpecImpl<Role> for Resource {
    open spec fn obeys_from_spec() -> bool {
        true
    }

    open spec fn from_spec(v: Role) -> Resource {
        Resource::Role(v)
    }
}

impl From<Role> for Resource {
    fn from(value: Role) -> Resource {
        Resource::Role(value)
    }
}

impl vstd::std_specs::convert::FromSpecImpl<Subscription> for Resource {
    open spec fn obeys_from_spec() -> bool {
        true
    }

    open spec fn from_spec(v: Subscription) -> Resource {
        Resource::Subscription(v)
    }
}

impl From<Subscription> for Resource {
    fn from(value: Subscription) -> Resource {
        Resource::Subscription(value)
    }
}

impl vstd::std_specs::convert::FromSpecImpl<Table> for Resource {
    open spec fn obeys_from_spec() -> bool {
        true
    }

    open spec fn from_spec(v: Table) -> Resource {
        Resource::Table(v)
    }
}

impl From<Table> for Resource {
    fn from(value: Table) -> Resource {
        Resource::Table(value)
    }
}

impl vstd::std_specs::convert::FromSpecImpl<Topic> for Resource {
    open spec fn obeys_from_spec() -> bool {
        true
    }

    open spec fn from_spec(v: Topic) -> Resource {
        Resource::Topic(v)
    }
}

impl From<Topic> for Resource {
    fn from(value: Topic) -> Resource {
        Resource::Topic(value)
    }
}

impl vstd::std_specs::convert::FromSpecImpl<TopicPolicy> for Resource {
    open spec fn obeys_from_spec() -> bool {
        true
    }

    open spec fn from_spec(v: TopicPolicy) -> Resource {
        Resource::TopicPolicy(v)
    }
}

impl From<TopicPolicy> for Resource {
    fn from(value: TopicPolicy) -> Resource {
        Resource::TopicPolicy(value)
    }
}

impl vstd::std_specs::convert::FromSpecImpl<Distribution> for Resource {
    open spec fn obeys_from_spec() -> bool {
        true
    }

    open spec fn from_spec(v: Distribution) -> Resource {
        Resource::Distribution(v)
    }
}

impl From<Distribution> for Resource {
    fn from(value: Distribution) -> Resource {
        Resource::Distribution(value)
    }
}

impl vstd::std_specs::convert::FromSpecImpl<CachePolicy> for Resource {
    open spec fn obeys_from_spec() -> bool {
        true
    }

    open spec fn from_spec(v: CachePolicy) -> Resource {
        Resource::CachePolicy(v)
    }
}

impl From<CachePolicy> for Resource {
    fn from(value: CachePolicy) -> Resource {
        Resource::CachePolicy(value)
    }
}

impl vstd::std_specs::convert::FromSpecImpl<OriginAccessControl> for Resource {
    open spec fn obeys_from_spec() -> bool {
        true
    }

    open spec fn from_spec(v: OriginAccessControl) -> Resource {
        Resource::OriginAccessControl(v)
    }
}

impl From<OriginAccessControl> for Resource {
    fn from(value: OriginAccessControl) -> Resource {
        Resource::OriginAccessControl(value)
    }
}

impl vstd::std_specs::convert::FromSpecImpl<DBCluster> for Resource {
    open spec fn obeys_from_spec() -> bool {
        true
    }

    open spec fn from_spec(v: DBCluster) -> Resource {
        Resource::DBCluster(v)
    }
}

impl From<DBCluster> for Resource {
    fn from(value: DBCluster) -> Resource {
        Resource::DBCluster(value)
    }
}

impl vstd::std_specs::convert::FromSpecImpl<DBClusterParameterGroup> for Resource {
    open spec fn obeys_from_spec() -> bool {
        true
    }

    open spec fn from_spec(v: DBClusterParameterGroup) -> Resource {
        Resource::DBClusterParameterGroup(v)
    }
}

impl From<DBClusterParameterGroup> for Resource {
    fn from(value: DBClusterParameterGroup) -> Resource {
        Resource::DBClusterParameterGroup(value)
    }
}

impl vstd::std_specs::convert::FromSpecImpl<DBSubnetGroup> for Resource {
    open spec fn obeys_from_spec() -> bool {
        true
    }

    open spec fn from_spec(v: DBSubnetGroup) -> Resource {
        Resource::DBSubnetGroup(v)
    }
}

impl From<DBSubnetGroup> for Resource {
    fn from(value: DBSubnetGroup) -> Resource {
        Resource::DBSubnetGroup(value)
    }
}

impl vstd::std_specs::convert::FromSpecImpl<GlobalCluster> for Resource {
    open spec fn obeys_from_spec() -> bool {
        true
    }

    open spec fn from_spec(v: GlobalCluster) -> Resource {
        Resource::GlobalCluster(v)
    }
}

impl From<GlobalCluster> for Resource {
    fn from(value: GlobalCluster) -> Resource {
        Resource::GlobalCluster(value)
    }
}

impl vstd::std_specs::convert::FromSpecImpl<PublicRepository> for Resource {
    open spec fn obeys_from_spec() -> bool {
        true
    }

    open spec fn from_spec(v: PublicRepository) -> Resource {
        Resource::PublicRepository(v)
    }
}

impl From<PublicRepository> for Resource {
    fn from(value: PublicRepository) -> Resource {
        Resource::PublicRepository(value)
    }
}

impl vstd::std_specs::convert::FromSpecImpl<PullThroughCacheRule> for Resource {
    open spec fn obeys_from_spec() -> bool {
        true
    }

    open spec fn from_spec(v: PullThroughCacheRule) -> Resource {
        Resource::PullThroughCacheRule(v)
    }
}

impl From<PullThroughCacheRule> for Resource {
    fn from(value: PullThroughCacheRule) -> Resource {
        Resource::PullThroughCacheRule(value)
    }
}

impl vstd::std_specs::convert::FromSpecImpl<PullTimeUpdateExclusion> for Resource {
    open spec fn obeys_from_spec() -> bool {
        true
    }

    open spec fn from_spec(v: PullTimeUpdateExclusion) -> Resource {
        Resource::PullTimeUpdateExclusion(v)
    }
}

impl From<PullTimeUpdateExclusion> for Resource {
    fn from(value: PullTimeUpdateExclusion) -> Resource {
        Resource::PullTimeUpdateExclusion(value)
    }
}

impl vstd::std_specs::convert::FromSpecImpl<RegistryPolicy> for Resource {
    open spec fn obeys_from_spec() -> bool {
        true
    }

    open spec fn from_spec(v: RegistryPolicy) -> Resource {
        Resource::RegistryPolicy(v)
    }
}

impl From<RegistryPolicy> for Resource {
    fn from(value: RegistryPolicy) -> Resource {
        Resource::RegistryPolicy(value)
    }
}

impl vstd::std_specs::convert::FromSpecImpl<RegistryScanningConfiguration> for Resource {
    open spec fn obeys_from_spec() -> bool {
        true
    }

    open spec fn from_spec(v: RegistryScanningConfiguration) -> Resource {
        Resource::RegistryScanningConfiguration(v)
    }
}

impl From<RegistryScanningConfiguration> for Resource {
    fn from(value: RegistryScanningConfiguration) -> Resource {
        Resource::RegistryScanningConfiguration(value)
    }
}

impl vstd::std_specs::convert::FromSpecImpl<ReplicationConfiguration> for Resource {
    open spec fn obeys_from_spec() -> bool {
        true
    }

    open spec fn from_spec(v: ReplicationConfiguration) -> Resource {
        Resource::ReplicationConfiguration(v)
    }
}

impl From<ReplicationConfiguration> for Resource {
    fn from(value: ReplicationConfiguration) -> Resource {
        Resource::ReplicationConfiguration(value)
    }
}

impl vstd::std_specs::convert::FromSpecImpl<Repository> for Resource {
    open spec fn obeys_from_spec() -> bool {
        true
    }

    open spec fn from_spec(v: Repository) -> Resource {
        Resource::Repository(v)
    }
}

impl From<Repository> for Resource {
    fn from(value: Repository) -> Resource {
        Resource::Repository(value)
    }
}

/// An output of the stack: a value that CloudFormation reports after deployment.
pub struct Output {
    pub(crate) value: Value,
}

/// What an [`Output`] holds.
pub struct OutputView {
    pub value: Value,
}

impl View for Output {
    type V = OutputView;

    open(crate) spec fn view(&self) -> OutputView {
        OutputView { value: self.value }
    }
}

/// A CloudFormation stack: the resources that are deployed together.
///
/// Stacks are made by [`StackBuilder`](crate::stack::StackBuilder), which checks the resources first.
pub struct Stack {
    pub(crate) to_replace: Vec<(String, String)>,
    pub(crate) tags: Vec<(String, String)>,
    pub(crate) resources: Vec<(String, Resource)>,
    pub(crate) metadata: Vec<(String, String)>,
    pub(crate) outputs: Option<Vec<(String, Output)>>,
}

/// What a [`Stack`] holds: logical ids to replace (current, new), tags, resources by logical id,
/// logical ids by the user's id, and outputs.
pub struct StackView {
    pub to_replace: Seq<(Seq<char>, Seq<char>)>,
    pub tags: Seq<(String, String)>,
    pub resources: Seq<(Seq<char>, Resource)>,
    pub metadata: Seq<(Seq<char>, Seq<char>)>,
    pub outputs: Option<Seq<(String, Value)>>,
}

/// The views of pairs of strings.
pub open spec fn pair_views(s: Seq<(String, String)>) -> Seq<(Seq<char>, Seq<char>)> {
    s.map_values(|p: (String, String)| (p.0@, p.1@))
}

/// The keys of the resources, as views.
pub open spec fn keyed_views(s: Seq<(String, Resource)>) -> Seq<(Seq<char>, Resource)> {
    s.map_values(|p: (String, Resource)| (p.0@, p.1))
}

/// The keys of a list of pairs.
pub open spec fn keys_of<V>(s: Seq<(Seq<char>, V)>) -> Seq<Seq<char>> {
    s.map_values(|p: (Seq<char>, V)| p.0)
}

impl Stack {
    /// No two resources share a logical id, and no two ids share an entry in the metadata.
    #[verifier::type_invariant]
    pub(crate) open spec fn keys_unique(&self) -> bool {
        &&& keys_of(keyed_views(self.resources@)).no_duplicates()
        &&& keys_of(pair_views(self.metadata@)).no_duplicates()
    }
}

impl View for Stack {
    type V = StackView;

    open(crate) spec fn view(&self) -> StackView {
        StackView {
            to_replace: pair_views(self.to_replace@),
            tags: self.tags@,
            resources: keyed_views(self.resources@),
            metadata: pair_views(self.metadata@),
            outputs: match self.outputs {
                Some(o) => Some(o@.map_values(|p: (String, Output)| (p.0, p.1.value))),
                None => None,
            },
        }
    }
}

/// `s` after each replacement (current, new) in turn has replaced every occurrence of `current` by `new`.
pub open spec fn apply_replacements(s: Seq<char>, replacements: Seq<(Seq<char>, Seq<char>)>) -> Seq<char>
    decreases replacements.len(),
{
    if replacements.len() == 0 {
        s
    } else {
        let before = apply_replacements(s, replacements.drop_last());
        replace_seq(before, replacements.last().0, replacements.last().1)
    }
}

/// No current id of the replacements holds the character `c`: an occurrence of an id
/// never takes in `c`.
pub open spec fn delimits_ids(c: char, replacements: Seq<(Seq<char>, Seq<char>)>) -> bool {
    forall|j: int| 0 <= j < replacements.len() ==> !(#[trigger] replacements[j].0).contains(c)
}

/// Text that holds none of the current ids is left as it is by the replacements.
pub proof fn replacements_leave_text_without_ids(s: Seq<char>, replacements: Seq<(Seq<char>, Seq<char>)>)
    requires
        forall|j: int| 0 <= j < replacements.len() ==> (#[trigger] replacements[j].0).len() > 0,
        forall|j: int| 0 <= j < replacements.len() ==> !contains_seq(s, #[trigger] replacements[j].0),
    ensures
        apply_replacements(s, replacements) == s,
    decreases replacements.len(),
{
    if replacements.len() > 0 {
        let init = replacements.drop_last();
        assert forall|j: int| 0 <= j < init.len() implies (#[trigger] init[j].0).len() > 0 && !contains_seq(s, init[j].0) by {
            assert(init[j] == replacements[j]);
        }
        replacements_leave_text_without_ids(s, init);
        let last = replacements.last();
        assert(last == replacements[replacements.len() - 1]);
        lemma_replace_absent(s, last.0, last.1);
    }
}

/// Applying a list of replacements is applying its first part and then the rest.
proof fn lemma_apply_concat(
    s: Seq<char>,
    a: Seq<(Seq<char>, Seq<char>)>,
    b: Seq<(Seq<char>, Seq<char>)>,
)
    ensures
        apply_replacements(s, a + b) == apply_replacements(apply_replacements(s, a), b),
    decreases b.len(),
{
    if b.len() == 0 {
        assert(a + b =~= a);
    } else {
        assert((a + b).drop_last() =~= a + b.drop_last());
        assert((a + b).last() == b.last());
        lemma_apply_concat(s, a, b.drop_last());
    }
}

/// A first or last character that no current id holds stays where it is.
proof fn lemma_apply_keeps_ends(s: Seq<char>, replacements: Seq<(Seq<char>, Seq<char>)>)
    requires
        s.len() > 0,
        forall|j: int| 0 <= j < replacements.len() ==> (#[trigger] replacements[j].0).len() > 0,
    ensures
        delimits_ids(s[0], replacements) ==> apply_replacements(s, replacements).len() > 0
            && apply_replacements(s, replacements)[0] == s[0],
        delimits_ids(s.last(), replacements) ==> apply_replacements(s, replacements).len() > 0
            && apply_replacements(s, replacements).last() == s.last(),
    decreases replacements.len(),
{
    if replacements.len() > 0 {
        let init = replacements.drop_last();
        let last = replacements.last();
        assert(last == replacements[replacements.len() - 1]);
        assert forall|j: int| 0 <= j < init.len() implies (#[trigger] init[j].0).len() > 0 by {
            assert(init[j] == replacements[j]);
        }
        assert(delimits_ids(s[0], replacements) ==> delimits_ids(s[0], init)) by {
            assert forall|j: int| 0 <= j < init.len() implies init[j] == replacements[j] by {}
        }
        assert(delimits_ids(s.last(), replacements) ==> delimits_ids(s.last(), init)) by {
            assert forall|j: int| 0 <= j < init.len() implies init[j] == replacements[j] by {}
        }
        lemma_apply_keeps_ends(s, init);
        let mid = apply_replacements(s, init);
        if delimits_ids(s[0], replacements) {
            assert(!last.0.contains(s[0]));
            lemma_replace_keeps_ends(mid, last.0, last.1);
        }
        if delimits_ids(s.last(), replacements) {
            assert(!last.0.contains(s.last()));
            lemma_replace_keeps_ends(mid, last.0, last.1);
        }
    }
}

/// Replacing in `x + y` replaces in `x` and in `y` apart, where the border between them is
/// a character that no current id holds.
proof fn lemma_apply_split(x: Seq<char>, y: Seq<char>, replacements: Seq<(Seq<char>, Seq<char>)>)
    requires
        forall|j: int| 0 <= j < replacements.len() ==> (#[trigger] replacements[j].0).len() > 0,
        x.len() == 0 || y.len() == 0 || delimits_ids(x.last(), replacements) || delimits_ids(y[0], replacements),
    ensures
        apply_replacements(x + y, replacements) == apply_replacements(x, replacements) + apply_replacements(
            y,
            replacements,
        ),
    decreases replacements.len(),
{
    if replacements.len() == 0 {
    } else {
        let init = replacements.drop_last();
        let last = replacements.last();
        assert(last == replacements[replacements.len() - 1]);
        assert forall|j: int| 0 <= j < init.len() implies (#[trigger] init[j].0).len() > 0 by {
            assert(init[j] == replacements[j]);
        }
        assert(x.len() > 0 && delimits_ids(x.last(), replacements) ==> delimits_ids(x.last(), init)) by {
            assert forall|j: int| 0 <= j < init.len() implies init[j] == replacements[j] by {}
        }
        assert(y.len() > 0 && delimits_ids(y[0], replacements) ==> delimits_ids(y[0], init)) by {
            assert forall|j: int| 0 <= j < init.len() implies init[j] == replacements[j] by {}
        }
        lemma_apply_split(x, y, init);
        let x1 = apply_replacements(x, init);
        let y1 = apply_replacements(y, init);
        if x.len() == 0 {
            assert(!contains_seq(x, last.0));
            replacements_leave_text_without_ids(x, init);
            lemma_replace_split(x1, y1, last.0, last.1);
        } else if y.len() == 0 {
            replacements_leave_text_without_ids(y, init);
            lemma_replace_split(x1, y1, last.0, last.1);
        } else if delimits_ids(x.last(), replacements) {
            lemma_apply_keeps_ends(x, init);
            assert(!last.0.contains(x.last()));
            lemma_replace_split(x1, y1, last.0, last.1);
        } else {
            lemma_apply_keeps_ends(y, init);
            assert(!last.0.contains(y[0]));
            lemma_replace_split(x1, y1, last.0, last.1);
        }
    }
}

/// Each recorded replacement is applied to the whole template: where the current id of the
/// replacement `i` stands in the text between characters that no current id holds (as the
/// quotes around a logical id in a template do), it comes out as its new id, and the text on
/// either side is rewritten on its own. The earlier current ids must not occur in the id, nor
/// the later ones in its new id.
pub proof fn replacements_rewrite_each_delimited_id(
    x: Seq<char>,
    y: Seq<char>,
    replacements: Seq<(Seq<char>, Seq<char>)>,
    i: int,
)
    requires
        0 <= i < replacements.len(),
        forall|j: int| 0 <= j < replacements.len() ==> (#[trigger] replacements[j].0).len() > 0,
        forall|j: int| 0 <= j < i ==> !contains_seq(replacements[i].0, #[trigger] replacements[j].0),
        forall|j: int| i < j < replacements.len() ==> !contains_seq(replacements[i].1, #[trigger] replacements[j].0),
        x.len() > 0 ==> delimits_ids(x.last(), replacements),
        y.len() > 0 ==> delimits_ids(y[0], replacements),
    ensures
        apply_replacements(x + replacements[i].0 + y, replacements) == apply_replacements(x, replacements)
            + replacements[i].1 + apply_replacements(y, replacements),
{
    let c = replacements[i].0;
    let n = replacements[i].1;
    lemma_apply_split(x + c, y, replacements);
    lemma_apply_split(x, c, replacements);
    let before = replacements.take(i);
    let this = seq![replacements[i]];
    let after = replacements.skip(i + 1);
    assert(replacements =~= before + this + after);
    lemma_apply_concat(c, before + this, after);
    lemma_apply_concat(c, before, this);
    assert forall|j: int| 0 <= j < before.len() implies (#[trigger] before[j].0).len() > 0 && !contains_seq(c, before[j].0) by {
        assert(before[j] == replacements[j]);
    }
    replacements_leave_text_without_ids(c, before);
    assert(this.drop_last() =~= Seq::<(Seq<char>, Seq<char>)>::empty());
    assert(apply_replacements(c, this.drop_last()) == c);
    assert(this.last() == replacements[i]);
    lemma_replace_whole(c, n);
    assert(apply_replacements(c, this) == n);
    assert forall|j: int| 0 <= j < after.len() implies (#[trigger] after[j].0).len() > 0 && !contains_seq(n, after[j].0) by {
        assert(after[j] == replacements[i + 1 + j]);
    }
    replacements_leave_text_without_ids(n, after);
}

impl Stack {
    /// The tags of the stack.
    pub fn get_tags(&self) -> (r: Vec<(String, String)>)
        ensures
            r@ == self@.tags,
    {
        let mut out: Vec<(String, String)> = Vec::new();
        let mut i: usize = 0;
        while i < self.tags.len()
            invariant
                i <= self.tags@.len(),
                out@ == self.tags@.take(i as int),
            decreases self.tags@.len() - i,
        {
            let (k, v) = &self.tags[i];
            out.push((k.clone(), v.clone()));
            assert(out@ =~= self.tags@.take(i + 1));
            i = i + 1;
        }
        assert(self.tags@.take(self.tags@.len() as int) =~= self.tags@);
        out
    }

    /// Replaces, in a synthesized template, the logical ids that were changed to those of an
    /// existing deployment; the replacements are applied in the order in which they were made.
    pub fn replace_resource_ids(&self, naive_synth: String) -> (r: String)
        ensures
            r@ == apply_replacements(naive_synth@, self@.to_replace),
    {
        let mut synth = naive_synth;
        let mut i: usize = 0;
        while i < self.to_replace.len()
            invariant
                i <= self.to_replace@.len(),
                synth@ == apply_replacements(naive_synth@, self@.to_replace.take(i as int)),
            decreases self.to_replace@.len() - i,
        {
            let (current, new) = &self.to_replace[i];
            assert(self@.to_replace.take(i + 1).drop_last() =~= self@.to_replace.take(i as int));
            assert(self@.to_replace.take(i + 1).last() == (current@, new@));
            synth = replace_all(synth.as_str(), current.as_str(), new.as_str());
            i = i + 1;
        }
        assert(self@.to_replace.take(self@.to_replace.len() as int) =~= self@.to_replace);
        synth
    }

    /// The number of resources in the stack.
    pub fn resource_count(&self) -> (r: usize)
        ensures
            r == self@.resources.len(),
    {
        self.resources.len()
    }

    /// The number of entries in the metadata: ids with their logical ids.
    pub fn metadata_count(&self) -> (r: usize)
        ensures
            r == self@.metadata.len(),
    {
        self.metadata.len()
    }

    /// The number of logical ids that were changed to those of an existing deployment.
    pub fn replacement_count(&self) -> (r: usize)
        ensures
            r == self@.to_replace.len(),
    {
        self.to_replace.len()
    }

    /// The logical id that the metadata holds for the resource with the given id.
    pub fn metadata_for(&self, id: &str) -> (r: Option<String>)
        ensures
            match r {
                Some(v) => exists|k: int| 0 <= k < self@.metadata.len() && self@.metadata[k] == (id@, v@),
                None => forall|k: int| 0 <= k < self@.metadata.len() ==> self@.metadata[k].0 != id@,
            },
    {
        let mut i: usize = 0;
        while i < self.metadata.len()
            invariant
                i <= self.metadata@.len(),
                forall|k: int| 0 <= k < i ==> self@.metadata[k].0 != id@,
            decreases self.metadata@.len() - i,
        {
            let (k, v) = &self.metadata[i];
            assert(self@.metadata[i as int] == (k@, v@));
            if crate::text::str_eq(k.as_str(), id) {
                return Some(v.clone());
            }
            i = i + 1;
        }
        None
    }
}

} // verus!
