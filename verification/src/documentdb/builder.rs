use crate::documentdb::{
    DBCluster, DBClusterParameterGroup, DBClusterParameterGroupProperties, DBClusterParameterGroupPropertiesView,
    DBClusterParameterGroupRef, DBClusterProperties, DBClusterPropertiesView, DBClusterRef, DBInstance,
    DBInstanceProperties, DBInstanceRef, DBSubnetGroup, DBSubnetGroupProperties, DBSubnetGroupPropertiesView,
    DBSubnetGroupRef, EventSubscription, EventSubscriptionProperties, EventSubscriptionRef, GlobalCluster,
    GlobalClusterProperties, GlobalClusterPropertiesView, GlobalClusterRef,
};
use crate::json::{json_views, JsonView, Value};
use crate::kms::KeyRef;
use crate::shared::{arn_json, ref_json, Id, RefView};
use crate::sns::{topic_arn_json, TopicRef};
use crate::stack::{is_generated_id, Resource, StackBuilder, StackBuilderView};
use crate::text::views;
use crate::wrappers::{DocDBSubnetGroupName, DocDBSubscriptionName, DocDbInstanceClass, DocDbMasterPassword, DocDbMasterUsername};
use std::marker::PhantomData;
use vstd::prelude::*;

verus! {

/// Which IP addresses a cluster uses.
#[derive(Debug, Clone)]
pub enum NetworkType {
    IPV4,
    Dual,
}

/// How CloudFormation writes a [`NetworkType`].
pub open spec fn network_type_name(v: NetworkType) -> Seq<char> {
    match v {
        NetworkType::IPV4 => "IPV4"@,
        NetworkType::Dual => "DUAL"@,
    }
}

impl vstd::std_specs::convert::FromSpecImpl<NetworkType> for String {
    open spec fn obeys_from_spec() -> bool {
        false
    }

    open spec fn from_spec(v: NetworkType) -> String {
        vstd::pervasive::arbitrary()
    }
}

impl From<NetworkType> for String {
    fn from(value: NetworkType) -> (r: String)
        ensures
            r@ == network_type_name(value),
    {
        match value {
            NetworkType::IPV4 => String::from_str("IPV4"),
            NetworkType::Dual => String::from_str("DUAL"),
        }
    }
}

/// How the storage of a cluster is billed.
#[derive(Debug, Clone)]
pub enum StorageType {
    Standard,
    Iopt1,
}

/// How CloudFormation writes a [`StorageType`].
pub open spec fn storage_type_name(v: StorageType) -> Seq<char> {
    match v {
        StorageType::Standard => "standard"@,
        StorageType::Iopt1 => "iopt1"@,
    }
}

impl vstd::std_specs::convert::FromSpecImpl<StorageType> for String {
    open spec fn obeys_from_spec() -> bool {
        false
    }

    open spec fn from_spec(v: StorageType) -> String {
        vstd::pervasive::arbitrary()
    }
}

impl From<StorageType> for String {
    fn from(value: StorageType) -> (r: String)
        ensures
            r@ == storage_type_name(value),
    {
        match value {
            StorageType::Standard => String::from_str("standard"),
            StorageType::Iopt1 => String::from_str("iopt1"),
        }
    }
}

/// How a cluster is restored from another.
#[derive(Debug, Clone)]
pub enum RestoreType {
    FullCopy,
    CopyOnWrite,
}

/// How CloudFormation writes a [`RestoreType`].
pub open spec fn restore_type_name(v: RestoreType) -> Seq<char> {
    match v {
        RestoreType::FullCopy => "full-copy"@,
        RestoreType::CopyOnWrite => "copy-on-write"@,
    }
}

impl vstd::std_specs::convert::FromSpecImpl<RestoreType> for String {
    open spec fn obeys_from_spec() -> bool {
        false
    }

    open spec fn from_spec(v: RestoreType) -> String {
        vstd::pervasive::arbitrary()
    }
}

impl From<RestoreType> for String {
    fn from(value: RestoreType) -> (r: String)
        ensures
            r@ == restore_type_name(value),
    {
        match value {
            RestoreType::FullCopy => String::from_str("full-copy"),
            RestoreType::CopyOnWrite => String::from_str("copy-on-write"),
        }
    }
}

/// The version of the DocumentDB engine.
#[derive(Debug, Clone)]
pub enum EngineVersion {
    V4,
    V5,
}

/// How CloudFormation writes a [`EngineVersion`].
pub open spec fn engine_version_name(v: EngineVersion) -> Seq<char> {
    match v {
        EngineVersion::V4 => "Version 4.0"@,
        EngineVersion::V5 => "Version 5.0"@,
    }
}

impl vstd::std_specs::convert::FromSpecImpl<EngineVersion> for String {
    open spec fn obeys_from_spec() -> bool {
        false
    }

    open spec fn from_spec(v: EngineVersion) -> String {
        vstd::pervasive::arbitrary()
    }
}

impl From<EngineVersion> for String {
    fn from(value: EngineVersion) -> (r: String)
        ensures
            r@ == engine_version_name(value),
    {
        match value {
            EngineVersion::V4 => String::from_str("Version 4.0"),
            EngineVersion::V5 => String::from_str("Version 5.0"),
        }
    }
}

/// A log of a cluster that goes to CloudWatch.
#[derive(Debug, Clone)]
pub enum CloudwatchLogExport {
    Audit,
    Profiler,
}

/// How CloudFormation writes a [`CloudwatchLogExport`].
pub open spec fn cloudwatch_log_export_name(v: CloudwatchLogExport) -> Seq<char> {
    match v {
        CloudwatchLogExport::Audit => "audit"@,
        CloudwatchLogExport::Profiler => "profiler"@,
    }
}

impl vstd::std_specs::convert::FromSpecImpl<CloudwatchLogExport> for String {
    open spec fn obeys_from_spec() -> bool {
        false
    }

    open spec fn from_spec(v: CloudwatchLogExport) -> String {
        vstd::pervasive::arbitrary()
    }
}

impl From<CloudwatchLogExport> for String {
    fn from(value: CloudwatchLogExport) -> (r: String)
        ensures
            r@ == cloudwatch_log_export_name(value),
    {
        match value {
            CloudwatchLogExport::Audit => String::from_str("audit"),
            CloudwatchLogExport::Profiler => String::from_str("profiler"),
        }
    }
}

/// A category of the events of an instance.
#[derive(Debug, Clone)]
pub enum InstanceCategory {
    Availability,
    ConfigChange,
    Creation,
    Deletion,
    Failure,
    Notification,
    Recovery,
    SecurityPatching,
}

/// How CloudFormation writes a [`InstanceCategory`].
pub open spec fn instance_category_name(v: InstanceCategory) -> Seq<char> {
    match v {
        InstanceCategory::Availability => "availability"@,
        InstanceCategory::ConfigChange => "configuration change"@,
        InstanceCategory::Creation => "creation"@,
        InstanceCategory::Deletion => "deletion"@,
        InstanceCategory::Failure => "failure"@,
        InstanceCategory::Notification => "notification"@,
        InstanceCategory::Recovery => "recovery"@,
        InstanceCategory::SecurityPatching => "security patching"@,
    }
}

impl vstd::std_specs::convert::FromSpecImpl<InstanceCategory> for String {
    open spec fn obeys_from_spec() -> bool {
        false
    }

    open spec fn from_spec(v: InstanceCategory) -> String {
        vstd::pervasive::arbitrary()
    }
}

impl From<InstanceCategory> for String {
    fn from(value: InstanceCategory) -> (r: String)
        ensures
            r@ == instance_category_name(value),
    {
        match value {
            InstanceCategory::Availability => String::from_str("availability"),
            InstanceCategory::ConfigChange => String::from_str("configuration change"),
            InstanceCategory::Creation => String::from_str("creation"),
            InstanceCategory::Deletion => String::from_str("deletion"),
            InstanceCategory::Failure => String::from_str("failure"),
            InstanceCategory::Notification => String::from_str("notification"),
            InstanceCategory::Recovery => String::from_str("recovery"),
            InstanceCategory::SecurityPatching => String::from_str("security patching"),
        }
    }
}

/// A category of the events of a cluster.
#[derive(Debug, Clone)]
pub enum ClusterCategory {
    Creation,
    Deletion,
    Failover,
    Maintenance,
    Notification,
}

/// How CloudFormation writes a [`ClusterCategory`].
pub open spec fn cluster_category_name(v: ClusterCategory) -> Seq<char> {
    match v {
        ClusterCategory::Creation => "creation"@,
        ClusterCategory::Deletion => "deletion"@,
        ClusterCategory::Failover => "failover"@,
        ClusterCategory::Maintenance => "maintenance"@,
        ClusterCategory::Notification => "notification"@,
    }
}

impl vstd::std_specs::convert::FromSpecImpl<ClusterCategory> for String {
    open spec fn obeys_from_spec() -> bool {
        false
    }

    open spec fn from_spec(v: ClusterCategory) -> String {
        vstd::pervasive::arbitrary()
    }
}

impl From<ClusterCategory> for String {
    fn from(value: ClusterCategory) -> (r: String)
        ensures
            r@ == cluster_category_name(value),
    {
        match value {
            ClusterCategory::Creation => String::from_str("creation"),
            ClusterCategory::Deletion => String::from_str("deletion"),
            ClusterCategory::Failover => String::from_str("failover"),
            ClusterCategory::Maintenance => String::from_str("maintenance"),
            ClusterCategory::Notification => String::from_str("notification"),
        }
    }
}

/// A category of the events of a snapshot.
#[derive(Debug, Clone)]
pub enum SnapshotCategory {
    Backup,
}

/// How CloudFormation writes a [`SnapshotCategory`].
pub open spec fn snapshot_category_name(v: SnapshotCategory) -> Seq<char> {
    match v {
        SnapshotCategory::Backup => "backup"@,
    }
}

impl vstd::std_specs::convert::FromSpecImpl<SnapshotCategory> for String {
    open spec fn obeys_from_spec() -> bool {
        false
    }

    open spec fn from_spec(v: SnapshotCategory) -> String {
        vstd::pervasive::arbitrary()
    }
}

impl From<SnapshotCategory> for String {
    fn from(value: SnapshotCategory) -> (r: String)
        ensures
            r@ == snapshot_category_name(value),
    {
        match value {
            SnapshotCategory::Backup => String::from_str("backup"),
        }
    }
}

/// A category of the events of a parameter group.
#[derive(Debug, Clone)]
pub enum ParameterGroupCategory {
    ConfigChange,
}

/// How CloudFormation writes a [`ParameterGroupCategory`].
pub open spec fn parameter_group_category_name(v: ParameterGroupCategory) -> Seq<char> {
    match v {
        ParameterGroupCategory::ConfigChange => "configuration change"@,
    }
}

impl vstd::std_specs::convert::FromSpecImpl<ParameterGroupCategory> for String {
    open spec fn obeys_from_spec() -> bool {
        false
    }

    open spec fn from_spec(v: ParameterGroupCategory) -> String {
        vstd::pervasive::arbitrary()
    }
}

impl From<ParameterGroupCategory> for String {
    fn from(value: ParameterGroupCategory) -> (r: String)
        ensures
            r@ == parameter_group_category_name(value),
    {
        match value {
            ParameterGroupCategory::ConfigChange => String::from_str("configuration change"),
        }
    }
}

/// The engine of a global cluster.
#[derive(Debug, Clone)]
pub enum GlobalEngine {
    Docdb,
}

/// How CloudFormation writes a [`GlobalEngine`].
pub open spec fn global_engine_name(v: GlobalEngine) -> Seq<char> {
    match v {
        GlobalEngine::Docdb => "docdb"@,
    }
}

impl vstd::std_specs::convert::FromSpecImpl<GlobalEngine> for String {
    open spec fn obeys_from_spec() -> bool {
        false
    }

    open spec fn from_spec(v: GlobalEngine) -> String {
        vstd::pervasive::arbitrary()
    }
}

impl From<GlobalEngine> for String {
    fn from(value: GlobalEngine) -> (r: String)
        ensures
            r@ == global_engine_name(value),
    {
        match value {
            GlobalEngine::Docdb => String::from_str("docdb"),
        }
    }
}

/// The states of a [`DBClusterBuilder`]: how the master user's password is handled.
pub trait DbClusterState {}

pub struct DbClusterStartState {}

pub struct DbClusterManualPasswordState {}

pub struct DbClusterAutomaticPasswordState {}

impl DbClusterState for DbClusterStartState {}

impl DbClusterState for DbClusterManualPasswordState {}

impl DbClusterState for DbClusterAutomaticPasswordState {}

/// Builder for DocumentDB clusters.
pub struct DBClusterBuilder<T: DbClusterState> {
    pub(crate) phantom: PhantomData<T>,
    pub(crate) id: Id,
    pub(crate) availability_zones: Option<Vec<String>>,
    pub(crate) manage_master_user_password: Option<bool>,
    pub(crate) rotate_master_user_password: Option<bool>,
    pub(crate) master_user_secret_kms_key_id: Option<Value>,
    pub(crate) db_subnet_group_name: Option<String>,
    pub(crate) storage_encrypted: Option<bool>,
    pub(crate) restore_to_time: Option<String>,
    pub(crate) use_latest_restorable_time: Option<bool>,
    pub(crate) deletion_protection: Option<bool>,
    pub(crate) vpc_security_group_ids: Option<Vec<String>>,
    pub(crate) snapshot_identifier: Option<String>,
    pub(crate) enable_cloudwatch_logs_exports: Option<Vec<String>>,
    pub(crate) global_cluster_identifier: Option<Value>,
    pub(crate) network_type: Option<String>,
    pub(crate) backup_retention_period: Option<u16>,
    pub(crate) restore_type: Option<String>,
    pub(crate) master_username: Option<String>,
    pub(crate) master_user_password: Option<String>,
    pub(crate) port: Option<u16>,
    pub(crate) storage_type: Option<String>,
    pub(crate) engine_version: Option<String>,
    pub(crate) kms_key_id: Option<Value>,
    pub(crate) source_db_cluster_identifier: Option<Value>,
    pub(crate) db_cluster_identifier: Option<Value>,
    pub(crate) preferred_backup_window: Option<String>,
    pub(crate) preferred_maintenance_window: Option<String>,
    pub(crate) db_cluster_parameter_group_name: Option<Value>,
}

/// What a [`DBClusterBuilder`] holds.
pub struct DBClusterBuilderView {
    pub id: Id,
    pub availability_zones: Option<Vec<String>>,
    pub manage_master_user_password: Option<bool>,
    pub rotate_master_user_password: Option<bool>,
    pub master_user_secret_kms_key_id: Option<Value>,
    pub db_subnet_group_name: Option<String>,
    pub storage_encrypted: Option<bool>,
    pub restore_to_time: Option<String>,
    pub use_latest_restorable_time: Option<bool>,
    pub deletion_protection: Option<bool>,
    pub vpc_security_group_ids: Option<Vec<String>>,
    pub snapshot_identifier: Option<String>,
    pub enable_cloudwatch_logs_exports: Option<Vec<String>>,
    pub global_cluster_identifier: Option<Value>,
    pub network_type: Option<String>,
    pub backup_retention_period: Option<u16>,
    pub restore_type: Option<String>,
    pub master_username: Option<String>,
    pub master_user_password: Option<String>,
    pub port: Option<u16>,
    pub storage_type: Option<String>,
    pub engine_version: Option<String>,
    pub kms_key_id: Option<Value>,
    pub source_db_cluster_identifier: Option<Value>,
    pub db_cluster_identifier: Option<Value>,
    pub preferred_backup_window: Option<String>,
    pub preferred_maintenance_window: Option<String>,
    pub db_cluster_parameter_group_name: Option<Value>,
}

impl<T: DbClusterState> View for DBClusterBuilder<T> {
    type V = DBClusterBuilderView;

    open(crate) spec fn view(&self) -> DBClusterBuilderView {
        DBClusterBuilderView {
            id: self.id,
            availability_zones: self.availability_zones,
            manage_master_user_password: self.manage_master_user_password,
            rotate_master_user_password: self.rotate_master_user_password,
            master_user_secret_kms_key_id: self.master_user_secret_kms_key_id,
            db_subnet_group_name: self.db_subnet_group_name,
            storage_encrypted: self.storage_encrypted,
            restore_to_time: self.restore_to_time,
            use_latest_restorable_time: self.use_latest_restorable_time,
            deletion_protection: self.deletion_protection,
            vpc_security_group_ids: self.vpc_security_group_ids,
            snapshot_identifier: self.snapshot_identifier,
            enable_cloudwatch_logs_exports: self.enable_cloudwatch_logs_exports,
            global_cluster_identifier: self.global_cluster_identifier,
            network_type: self.network_type,
            backup_retention_period: self.backup_retention_period,
            restore_type: self.restore_type,
            master_username: self.master_username,
            master_user_password: self.master_user_password,
            port: self.port,
            storage_type: self.storage_type,
            engine_version: self.engine_version,
            kms_key_id: self.kms_key_id,
            source_db_cluster_identifier: self.source_db_cluster_identifier,
            db_cluster_identifier: self.db_cluster_identifier,
            preferred_backup_window: self.preferred_backup_window,
            preferred_maintenance_window: self.preferred_maintenance_window,
            db_cluster_parameter_group_name: self.db_cluster_parameter_group_name,
        }
    }
}

/// What building the cluster `b` adds to the stack: the cluster, with what `b` holds as its properties.
pub open spec fn db_cluster_added(before: StackBuilderView, after: StackBuilderView, b: DBClusterBuilderView, r: RefView) -> bool {
    &&& after == (StackBuilderView { resources: before.resources.push(after.resources.last()), ..before })
    &&& after.resources.last() matches Resource::DBCluster(c) && {
        &&& c@.id == b.id
        &&& c@.resource_id@ == r.resource_id
        &&& c@.resource_type@ == "AWS::DocDB::DBCluster"@
        &&& c@.properties@ == (DBClusterPropertiesView { availability_zones: b.availability_zones, manage_master_user_password: b.manage_master_user_password, rotate_master_user_password: b.rotate_master_user_password, master_user_secret_kms_key_id: b.master_user_secret_kms_key_id, db_subnet_group_name: b.db_subnet_group_name, storage_encrypted: b.storage_encrypted, restore_to_time: b.restore_to_time, use_latest_restorable_time: b.use_latest_restorable_time, deletion_protection: b.deletion_protection, vpc_security_group_ids: b.vpc_security_group_ids, snapshot_identifier: b.snapshot_identifier, enable_cloudwatch_logs_exports: b.enable_cloudwatch_logs_exports, global_cluster_identifier: b.global_cluster_identifier, network_type: b.network_type, backup_retention_period: b.backup_retention_period, restore_type: b.restore_type, master_username: b.master_username, master_user_password: b.master_user_password, port: b.port, storage_type: b.storage_type, engine_version: b.engine_version, kms_key_id: b.kms_key_id, source_db_cluster_identifier: b.source_db_cluster_identifier, db_cluster_identifier: b.db_cluster_identifier, preferred_backup_window: b.preferred_backup_window, preferred_maintenance_window: b.preferred_maintenance_window, db_cluster_parameter_group_name: b.db_cluster_parameter_group_name })
    }
    &&& is_generated_id(r.resource_id, "DBCluster"@)
    &&& r.ref_name is None
    &&& r.arn_value is None
}

impl DBClusterBuilder<DbClusterStartState> {
    pub fn new(id: &str) -> (r: Self)
        ensures
            r@.id.0@ == id@,
            r@.availability_zones is None,
            r@.manage_master_user_password is None,
            r@.rotate_master_user_password is None,
            r@.master_user_secret_kms_key_id is None,
            r@.db_subnet_group_name is None,
            r@.storage_encrypted is None,
            r@.restore_to_time is None,
            r@.use_latest_restorable_time is None,
            r@.deletion_protection is None,
            r@.vpc_security_group_ids is None,
            r@.snapshot_identifier is None,
            r@.enable_cloudwatch_logs_exports is None,
            r@.global_cluster_identifier is None,
            r@.network_type is None,
            r@.backup_retention_period is None,
            r@.restore_type is None,
            r@.master_username is None,
            r@.master_user_password is None,
            r@.port is None,
            r@.storage_type is None,
            r@.engine_version is None,
            r@.kms_key_id is None,
            r@.source_db_cluster_identifier is None,
            r@.db_cluster_identifier is None,
            r@.preferred_backup_window is None,
            r@.preferred_maintenance_window is None,
            r@.db_cluster_parameter_group_name is None,
    {
        DBClusterBuilder {
            phantom: PhantomData,
            id: Id(String::from_str(id)),
            availability_zones: None,
            manage_master_user_password: None,
            rotate_master_user_password: None,
            master_user_secret_kms_key_id: None,
            db_subnet_group_name: None,
            storage_encrypted: None,
            restore_to_time: None,
            use_latest_restorable_time: None,
            deletion_protection: None,
            vpc_security_group_ids: None,
            snapshot_identifier: None,
            enable_cloudwatch_logs_exports: None,
            global_cluster_identifier: None,
            network_type: None,
            backup_retention_period: None,
            restore_type: None,
            master_username: None,
            master_user_password: None,
            port: None,
            storage_type: None,
            engine_version: None,
            kms_key_id: None,
            source_db_cluster_identifier: None,
            db_cluster_identifier: None,
            preferred_backup_window: None,
            preferred_maintenance_window: None,
            db_cluster_parameter_group_name: None,
        }
    }
}

impl DBClusterBuilder<DbClusterAutomaticPasswordState> {
    pub fn manage_master_user_password(self, manage_master_user_password: bool) -> (r: Self)
        ensures
            r@ == (DBClusterBuilderView { manage_master_user_password: Some(manage_master_user_password), ..self@ }),
    {
        Self {
            manage_master_user_password: Some(manage_master_user_password),
            ..self
        }
    }

    pub fn rotate_master_user_password(self, rotate_master_user_password: bool) -> (r: Self)
        ensures
            r@ == (DBClusterBuilderView { rotate_master_user_password: Some(rotate_master_user_password), ..self@ }),
    {
        Self {
            rotate_master_user_password: Some(rotate_master_user_password),
            ..self
        }
    }

    /// The KMS key that encrypts the secret holding the master user's password, by its ARN.
    pub fn master_user_secret_kms_key_id(self, master_user_secret_kms_key_id: &KeyRef) -> (r: Self)
        ensures
            r@ == (DBClusterBuilderView { master_user_secret_kms_key_id: r@.master_user_secret_kms_key_id, ..self@ }),
            r@.master_user_secret_kms_key_id matches Some(k) && k@ == arn_json(
                master_user_secret_kms_key_id@.resource_id,
                master_user_secret_kms_key_id@.arn_value,
            ),
    {
        Self { master_user_secret_kms_key_id: Some(master_user_secret_kms_key_id.get_arn()), ..self }
    }

    /// Adds the cluster to the stack.
    pub fn build(self, stack_builder: &mut StackBuilder) -> (r: DBClusterRef)
        ensures
            db_cluster_added(old(stack_builder)@, final(stack_builder)@, self@, r@),
    {
        self.build_internal(stack_builder)
    }
}

impl DBClusterBuilder<DbClusterManualPasswordState> {
    pub fn master_user_password(self, master_user_password: DocDbMasterPassword) -> (r: Self)
        ensures
            r@ == (DBClusterBuilderView { master_user_password: Some(master_user_password.0), ..self@ }),
    {
        Self {
            master_user_password: Some(master_user_password.0),
            ..self
        }
    }

    /// Adds the cluster to the stack.
    pub fn build(self, stack_builder: &mut StackBuilder) -> (r: DBClusterRef)
        ensures
            db_cluster_added(old(stack_builder)@, final(stack_builder)@, self@, r@),
    {
        self.build_internal(stack_builder)
    }
}

impl<T: DbClusterState> DBClusterBuilder<T> {
    pub fn availability_zones(self, availability_zones: Vec<String>) -> (r: Self)
        ensures
            r@ == (DBClusterBuilderView { availability_zones: Some(availability_zones), ..self@ }),
    {
        Self {
            availability_zones: Some(availability_zones),
            ..self
        }
    }

    pub fn db_subnet_group_name(self, db_subnet_group_name: String) -> (r: Self)
        ensures
            r@ == (DBClusterBuilderView { db_subnet_group_name: Some(db_subnet_group_name), ..self@ }),
    {
        Self {
            db_subnet_group_name: Some(db_subnet_group_name),
            ..self
        }
    }

    pub fn storage_encrypted(self, storage_encrypted: bool) -> (r: Self)
        ensures
            r@ == (DBClusterBuilderView { storage_encrypted: Some(storage_encrypted), ..self@ }),
    {
        Self {
            storage_encrypted: Some(storage_encrypted),
            ..self
        }
    }

    pub fn restore_to_time(self, restore_to_time: String) -> (r: Self)
        ensures
            r@ == (DBClusterBuilderView { restore_to_time: Some(restore_to_time), ..self@ }),
    {
        Self {
            restore_to_time: Some(restore_to_time),
            ..self
        }
    }

    pub fn deletion_protection(self, deletion_protection: bool) -> (r: Self)
        ensures
            r@ == (DBClusterBuilderView { deletion_protection: Some(deletion_protection), ..self@ }),
    {
        Self {
            deletion_protection: Some(deletion_protection),
            ..self
        }
    }

    pub fn vpc_security_group_ids(self, vpc_security_group_ids: Vec<String>) -> (r: Self)
        ensures
            r@ == (DBClusterBuilderView { vpc_security_group_ids: Some(vpc_security_group_ids), ..self@ }),
    {
        Self {
            vpc_security_group_ids: Some(vpc_security_group_ids),
            ..self
        }
    }

    pub fn snapshot_identifier(self, snapshot_identifier: String) -> (r: Self)
        ensures
            r@ == (DBClusterBuilderView { snapshot_identifier: Some(snapshot_identifier), ..self@ }),
    {
        Self {
            snapshot_identifier: Some(snapshot_identifier),
            ..self
        }
    }

    pub fn use_latest_restorable_time(self, use_latest_restorable_time: bool) -> (r: Self)
        ensures
            r@ == (DBClusterBuilderView { use_latest_restorable_time: Some(use_latest_restorable_time), ..self@ }),
    {
        Self {
            use_latest_restorable_time: Some(use_latest_restorable_time),
            ..self
        }
    }

    pub fn enable_cloudwatch_logs_exports(self, enable_cloudwatch_logs_exports: Vec<CloudwatchLogExport>) -> (r: Self)
        ensures
            r@ == (DBClusterBuilderView { enable_cloudwatch_logs_exports: r@.enable_cloudwatch_logs_exports, ..self@ }),
            r@.enable_cloudwatch_logs_exports matches Some(v) && views(v@) == log_export_name_views(enable_cloudwatch_logs_exports@),
    {
        Self {
            enable_cloudwatch_logs_exports: Some(log_export_names(enable_cloudwatch_logs_exports)),
            ..self
        }
    }

    pub fn global_cluster_identifier(self, global_cluster_identifier: &GlobalClusterRef) -> (r: Self)
        ensures
            r@ == (DBClusterBuilderView { global_cluster_identifier: r@.global_cluster_identifier, ..self@ }),
            r@.global_cluster_identifier matches Some(v) && v@ == ref_json(global_cluster_identifier@.resource_id, global_cluster_identifier@.ref_name),
    {
        Self {
            global_cluster_identifier: Some(global_cluster_identifier.get_ref()),
            ..self
        }
    }

    pub fn network_type(self, network_type: NetworkType) -> (r: Self)
        ensures
            r@ == (DBClusterBuilderView { network_type: r@.network_type, ..self@ }),
            r@.network_type matches Some(v) && v@ == network_type_name(network_type),
    {
        Self {
            network_type: Some(network_type.into()),
            ..self
        }
    }

    pub fn preferred_backup_window(self, preferred_backup_window: String) -> (r: Self)
        ensures
            r@ == (DBClusterBuilderView { preferred_backup_window: Some(preferred_backup_window), ..self@ }),
    {
        Self {
            preferred_backup_window: Some(preferred_backup_window),
            ..self
        }
    }

    pub fn backup_retention_period(self, backup_retention_period: u16) -> (r: Self)
        ensures
            r@ == (DBClusterBuilderView { backup_retention_period: Some(backup_retention_period), ..self@ }),
    {
        Self {
            backup_retention_period: Some(backup_retention_period),
            ..self
        }
    }

    pub fn restore_type(self, restore_type: RestoreType) -> (r: Self)
        ensures
            r@ == (DBClusterBuilderView { restore_type: r@.restore_type, ..self@ }),
            r@.restore_type matches Some(v) && v@ == restore_type_name(restore_type),
    {
        Self {
            restore_type: Some(restore_type.into()),
            ..self
        }
    }

    pub fn port(self, port: u16) -> (r: Self)
        ensures
            r@ == (DBClusterBuilderView { port: Some(port), ..self@ }),
    {
        Self {
            port: Some(port),
            ..self
        }
    }

    pub fn storage_type(self, storage_type: StorageType) -> (r: Self)
        ensures
            r@ == (DBClusterBuilderView { storage_type: r@.storage_type, ..self@ }),
            r@.storage_type matches Some(v) && v@ == storage_type_name(storage_type),
    {
        Self {
            storage_type: Some(storage_type.into()),
            ..self
        }
    }

    pub fn master_username(self, master_username: DocDbMasterUsername) -> (r: Self)
        ensures
            r@ == (DBClusterBuilderView { master_username: Some(master_username.0), ..self@ }),
    {
        Self {
            master_username: Some(master_username.0),
            ..self
        }
    }

    pub fn engine_version(self, engine_version: EngineVersion) -> (r: Self)
        ensures
            r@ == (DBClusterBuilderView { engine_version: r@.engine_version, ..self@ }),
            r@.engine_version matches Some(v) && v@ == engine_version_name(engine_version),
    {
        Self {
            engine_version: Some(engine_version.into()),
            ..self
        }
    }

    /// The KMS key that encrypts the cluster's storage, by its ARN.
    pub fn kms_key_id(self, kms_key_id: &KeyRef) -> (r: Self)
        ensures
            r@ == (DBClusterBuilderView { kms_key_id: r@.kms_key_id, ..self@ }),
            r@.kms_key_id matches Some(k) && k@ == arn_json(kms_key_id@.resource_id, kms_key_id@.arn_value),
    {
        Self { kms_key_id: Some(kms_key_id.get_arn()), ..self }
    }

    pub fn source_db_cluster_identifier(self, source_db_cluster_identifier: &DBClusterRef) -> (r: Self)
        ensures
            r@ == (DBClusterBuilderView { source_db_cluster_identifier: r@.source_db_cluster_identifier, ..self@ }),
            r@.source_db_cluster_identifier matches Some(v) && v@ == ref_json(source_db_cluster_identifier@.resource_id, source_db_cluster_identifier@.ref_name),
    {
        Self {
            source_db_cluster_identifier: Some(source_db_cluster_identifier.get_ref()),
            ..self
        }
    }

    pub fn db_cluster_identifier(self, db_cluster_identifier: &DBClusterRef) -> (r: Self)
        ensures
            r@ == (DBClusterBuilderView { db_cluster_identifier: r@.db_cluster_identifier, ..self@ }),
            r@.db_cluster_identifier matches Some(v) && v@ == ref_json(db_cluster_identifier@.resource_id, db_cluster_identifier@.ref_name),
    {
        Self {
            db_cluster_identifier: Some(db_cluster_identifier.get_ref()),
            ..self
        }
    }

    pub fn preferred_maintenance_window(self, preferred_maintenance_window: String) -> (r: Self)
        ensures
            r@ == (DBClusterBuilderView { preferred_maintenance_window: Some(preferred_maintenance_window), ..self@ }),
    {
        Self {
            preferred_maintenance_window: Some(preferred_maintenance_window),
            ..self
        }
    }

    pub fn db_cluster_parameter_group_name(self, db_cluster_parameter_group_name: &DBClusterParameterGroupRef) -> (r: Self)
        ensures
            r@ == (DBClusterBuilderView { db_cluster_parameter_group_name: r@.db_cluster_parameter_group_name, ..self@ }),
            r@.db_cluster_parameter_group_name matches Some(v) && v@ == ref_json(db_cluster_parameter_group_name@.resource_id, db_cluster_parameter_group_name@.ref_name),
    {
        Self {
            db_cluster_parameter_group_name: Some(db_cluster_parameter_group_name.get_ref()),
            ..self
        }
    }

    fn build_internal(self, stack_builder: &mut StackBuilder) -> (r: DBClusterRef)
        ensures
            db_cluster_added(old(stack_builder)@, final(stack_builder)@, self@, r@),
    {
        let resource_id = Resource::generate_id("DBCluster");
        stack_builder.add_resource(
            Resource::DBCluster(
                DBCluster {
                    id: self.id,
                    resource_id: resource_id.clone(),
                    resource_type: String::from_str("AWS::DocDB::DBCluster"),
                    properties: DBClusterProperties {
                        availability_zones: self.availability_zones,
                        manage_master_user_password: self.manage_master_user_password,
                        rotate_master_user_password: self.rotate_master_user_password,
                        master_user_secret_kms_key_id: self.master_user_secret_kms_key_id,
                        db_subnet_group_name: self.db_subnet_group_name,
                        storage_encrypted: self.storage_encrypted,
                        restore_to_time: self.restore_to_time,
                        use_latest_restorable_time: self.use_latest_restorable_time,
                        deletion_protection: self.deletion_protection,
                        vpc_security_group_ids: self.vpc_security_group_ids,
                        snapshot_identifier: self.snapshot_identifier,
                        enable_cloudwatch_logs_exports: self.enable_cloudwatch_logs_exports,
                        global_cluster_identifier: self.global_cluster_identifier,
                        network_type: self.network_type,
                        backup_retention_period: self.backup_retention_period,
                        restore_type: self.restore_type,
                        master_username: self.master_username,
                        master_user_password: self.master_user_password,
                        port: self.port,
                        storage_type: self.storage_type,
                        engine_version: self.engine_version,
                        kms_key_id: self.kms_key_id,
                        source_db_cluster_identifier: self.source_db_cluster_identifier,
                        db_cluster_identifier: self.db_cluster_identifier,
                        preferred_backup_window: self.preferred_backup_window,
                        preferred_maintenance_window: self.preferred_maintenance_window,
                        db_cluster_parameter_group_name: self.db_cluster_parameter_group_name,
                    },
                },
            ),
        );
        DBClusterRef::internal_new(resource_id)
    }
}

/// The names of the log exports, in order.
pub open spec fn log_export_name_views(s: Seq<CloudwatchLogExport>) -> Seq<Seq<char>> {
    s.map_values(|e: CloudwatchLogExport| cloudwatch_log_export_name(e))
}

/// The names of the log exports, in order.
fn log_export_names(exports: Vec<CloudwatchLogExport>) -> (r: Vec<String>)
    ensures
        views(r@) == log_export_name_views(exports@),
{
    let ghost all = exports@;
    let mut rest = exports;
    let mut out: Vec<String> = Vec::new();
    while rest.len() > 0
        invariant
            out@.len() + rest@.len() == all.len(),
            rest@ == all.skip(out@.len() as int),
            views(out@) == log_export_name_views(all.take(out@.len() as int)),
        decreases rest@.len(),
    {
        let ghost k = out@.len() as int;
        let ghost before = out@;
        let e = rest.remove(0);
        assert(e == all[k]) by {
            assert(all.skip(k)[0] == all[k]);
        }
        let name = String::from(e);
        out.push(name);
        assert(views(out@) =~= views(before).push(name@));
        assert(log_export_name_views(all.take(k + 1)) =~= log_export_name_views(all.take(k)).push(cloudwatch_log_export_name(all[k])));
        assert(rest@ =~= all.skip(out@.len() as int));
    }
    assert(all.take(all.len() as int) =~= all);
    out
}

/// The names of the cluster event categories, in order.
pub open spec fn cluster_category_name_views(s: Seq<ClusterCategory>) -> Seq<Seq<char>> {
    s.map_values(|c: ClusterCategory| cluster_category_name(c))
}

/// The names of the cluster event categories, in order.
fn cluster_category_names(categories: Vec<ClusterCategory>) -> (r: Vec<String>)
    ensures
        views(r@) == cluster_category_name_views(categories@),
{
    let ghost all = categories@;
    let mut rest = categories;
    let mut out: Vec<String> = Vec::new();
    while rest.len() > 0
        invariant
            out@.len() + rest@.len() == all.len(),
            rest@ == all.skip(out@.len() as int),
            views(out@) == cluster_category_name_views(all.take(out@.len() as int)),
        decreases rest@.len(),
    {
        let ghost k = out@.len() as int;
        let ghost before = out@;
        let c = rest.remove(0);
        assert(c == all[k]) by {
            assert(all.skip(k)[0] == all[k]);
        }
        let name = String::from(c);
        out.push(name);
        assert(views(out@) =~= views(before).push(name@));
        assert(cluster_category_name_views(all.take(k + 1)) =~= cluster_category_name_views(all.take(k)).push(cluster_category_name(all[k])));
        assert(rest@ =~= all.skip(out@.len() as int));
    }
    assert(all.take(all.len() as int) =~= all);
    out
}

/// The names of the instance event categories, in order.
pub open spec fn instance_category_name_views(s: Seq<InstanceCategory>) -> Seq<Seq<char>> {
    s.map_values(|c: InstanceCategory| instance_category_name(c))
}

/// The names of the instance event categories, in order.
fn instance_category_names(categories: Vec<InstanceCategory>) -> (r: Vec<String>)
    ensures
        views(r@) == instance_category_name_views(categories@),
{
    let ghost all = categories@;
    let mut rest = categories;
    let mut out: Vec<String> = Vec::new();
    while rest.len() > 0
        invariant
            out@.len() + rest@.len() == all.len(),
            rest@ == all.skip(out@.len() as int),
            views(out@) == instance_category_name_views(all.take(out@.len() as int)),
        decreases rest@.len(),
    {
        let ghost k = out@.len() as int;
        let ghost before = out@;
        let c = rest.remove(0);
        assert(c == all[k]) by {
            assert(all.skip(k)[0] == all[k]);
        }
        let name = String::from(c);
        out.push(name);
        assert(views(out@) =~= views(before).push(name@));
        assert(instance_category_name_views(all.take(k + 1)) =~= instance_category_name_views(all.take(k)).push(instance_category_name(all[k])));
        assert(rest@ =~= all.skip(out@.len() as int));
    }
    assert(all.take(all.len() as int) =~= all);
    out
}

/// What `Ref` gives for each of the references, in order.
pub open spec fn ref_views(s: Seq<RefView>) -> Seq<JsonView> {
    s.map_values(|r: RefView| ref_json(r.resource_id, r.ref_name))
}

/// The views of the cluster references, in order.
pub open spec fn cluster_ref_views(s: Seq<&DBClusterRef>) -> Seq<RefView> {
    s.map_values(|r: &DBClusterRef| r@)
}

/// The views of the instance references, in order.
pub open spec fn instance_ref_views(s: Seq<&DBInstanceRef>) -> Seq<RefView> {
    s.map_values(|r: &DBInstanceRef| r@)
}

/// What `Ref` gives for each of the clusters, in order.
fn cluster_refs(refs: Vec<&DBClusterRef>) -> (r: Vec<Value>)
    ensures
        json_views(r@) == ref_views(cluster_ref_views(refs@)),
{
    let mut out: Vec<Value> = Vec::new();
    let mut i: usize = 0;
    while i < refs.len()
        invariant
            i <= refs@.len(),
            json_views(out@) == ref_views(cluster_ref_views(refs@.take(i as int))),
        decreases refs@.len() - i,
    {
        let ghost before = out@;
        let v = refs[i].get_ref();
        out.push(v);
        proof {
            assert(out@.drop_last() =~= before);
            assert(refs@.take(i + 1).drop_last() =~= refs@.take(i as int));
            assert(ref_views(cluster_ref_views(refs@.take(i + 1))) =~= ref_views(cluster_ref_views(refs@.take(i as int))).push(v@));
        }
        i = i + 1;
    }
    assert(refs@.take(refs@.len() as int) =~= refs@);
    out
}

/// What `Ref` gives for each of the instances, in order.
fn instance_refs(refs: Vec<&DBInstanceRef>) -> (r: Vec<Value>)
    ensures
        json_views(r@) == ref_views(instance_ref_views(refs@)),
{
    let mut out: Vec<Value> = Vec::new();
    let mut i: usize = 0;
    while i < refs.len()
        invariant
            i <= refs@.len(),
            json_views(out@) == ref_views(instance_ref_views(refs@.take(i as int))),
        decreases refs@.len() - i,
    {
        let ghost before = out@;
        let v = refs[i].get_ref();
        out.push(v);
        proof {
            assert(out@.drop_last() =~= before);
            assert(refs@.take(i + 1).drop_last() =~= refs@.take(i as int));
            assert(ref_views(instance_ref_views(refs@.take(i + 1))) =~= ref_views(instance_ref_views(refs@.take(i as int))).push(v@));
        }
        i = i + 1;
    }
    assert(refs@.take(refs@.len() as int) =~= refs@);
    out
}

/// Builder for parameter groups of DocumentDB clusters.
pub struct DBClusterParameterGroupBuilder {
    pub(crate) id: Id,
    pub(crate) description: String,
    pub(crate) family: String,
    pub(crate) parameters: Value,
    pub(crate) name: Option<String>,
}

/// What a [`DBClusterParameterGroupBuilder`] holds.
pub struct DBClusterParameterGroupBuilderView {
    pub id: Id,
    pub description: String,
    pub family: String,
    pub parameters: Value,
    pub name: Option<String>,
}

impl View for DBClusterParameterGroupBuilder {
    type V = DBClusterParameterGroupBuilderView;

    open(crate) spec fn view(&self) -> DBClusterParameterGroupBuilderView {
        DBClusterParameterGroupBuilderView {
            id: self.id,
            description: self.description,
            family: self.family,
            parameters: self.parameters,
            name: self.name,
        }
    }
}

impl DBClusterParameterGroupBuilder {
    pub fn new(id: &str, description: String, family: String, parameters: Value) -> (r: Self)
        ensures
            r@.id.0@ == id@,
            r@.description == description,
            r@.family == family,
            r@.parameters == parameters,
            r@.name is None,
    {
        Self { id: Id(String::from_str(id)), description, family, parameters, name: None }
    }

    pub fn name(self, name: String) -> (r: Self)
        ensures
            r@ == (DBClusterParameterGroupBuilderView { name: Some(name), ..self@ }),
    {
        Self { name: Some(name), ..self }
    }

    /// Adds the parameter group to the stack.
    pub fn build(self, stack_builder: &mut StackBuilder) -> (r: DBClusterParameterGroupRef)
        ensures
            final(stack_builder)@ == (StackBuilderView {
                resources: old(stack_builder)@.resources.push(final(stack_builder)@.resources.last()),
                ..old(stack_builder)@
            }),
            final(stack_builder)@.resources.last() matches Resource::DBClusterParameterGroup(g) && {
                &&& g@.id == self@.id
                &&& g@.resource_id@ == r@.resource_id
                &&& g@.resource_type@ == "AWS::DocDB::DBClusterParameterGroup"@
                &&& g@.properties@ == (DBClusterParameterGroupPropertiesView {
                    description: self@.description,
                    family: self@.family,
                    parameters: self@.parameters,
                    name: self@.name,
                })
            },
            is_generated_id(r@.resource_id, "DBClusterParameterGroup"@),
            r@.ref_name is None,
            r@.arn_value is None,
    {
        let resource_id = Resource::generate_id("DBClusterParameterGroup");
        stack_builder.add_resource(
            Resource::DBClusterParameterGroup(
                DBClusterParameterGroup {
                    id: self.id,
                    resource_id: resource_id.clone(),
                    resource_type: String::from_str("AWS::DocDB::DBClusterParameterGroup"),
                    properties: DBClusterParameterGroupProperties {
                        description: self.description,
                        family: self.family,
                        parameters: self.parameters,
                        name: self.name,
                    },
                },
            ),
        );
        DBClusterParameterGroupRef::internal_new(resource_id)
    }
}

/// Builder for instances of DocumentDB clusters.
pub struct DBInstanceBuilder {
    pub(crate) id: Id,
    pub(crate) certificate_rotation_restart: Option<bool>,
    pub(crate) db_cluster_identifier: Value,
    pub(crate) db_instance_identifier: Option<String>,
    pub(crate) db_instance_class: String,
    pub(crate) ca_certificate_identifier: Option<String>,
    pub(crate) preferred_maintenance_window: Option<String>,
    pub(crate) availability_zone: Option<String>,
    pub(crate) enable_performance_insights: Option<bool>,
}

/// What a [`DBInstanceBuilder`] holds.
pub struct DBInstanceBuilderView {
    pub id: Id,
    pub certificate_rotation_restart: Option<bool>,
    pub db_cluster_identifier: Value,
    pub db_instance_identifier: Option<String>,
    pub db_instance_class: String,
    pub ca_certificate_identifier: Option<String>,
    pub preferred_maintenance_window: Option<String>,
    pub availability_zone: Option<String>,
    pub enable_performance_insights: Option<bool>,
}

impl View for DBInstanceBuilder {
    type V = DBInstanceBuilderView;

    open(crate) spec fn view(&self) -> DBInstanceBuilderView {
        DBInstanceBuilderView {
            id: self.id,
            certificate_rotation_restart: self.certificate_rotation_restart,
            db_cluster_identifier: self.db_cluster_identifier,
            db_instance_identifier: self.db_instance_identifier,
            db_instance_class: self.db_instance_class,
            ca_certificate_identifier: self.ca_certificate_identifier,
            preferred_maintenance_window: self.preferred_maintenance_window,
            availability_zone: self.availability_zone,
            enable_performance_insights: self.enable_performance_insights,
        }
    }
}

impl DBInstanceBuilder {
    pub fn new(id: &str, db_cluster_identifier: &DBClusterRef, db_instance_class: DocDbInstanceClass) -> (r: Self)
        ensures
            r@.id.0@ == id@,
            r@.db_cluster_identifier@ == ref_json(db_cluster_identifier@.resource_id, db_cluster_identifier@.ref_name),
            r@.db_instance_class == db_instance_class.0,
            r@.certificate_rotation_restart is None,
            r@.db_instance_identifier is None,
            r@.ca_certificate_identifier is None,
            r@.preferred_maintenance_window is None,
            r@.availability_zone is None,
            r@.enable_performance_insights is None,
    {
        Self {
            id: Id(String::from_str(id)),
            certificate_rotation_restart: None,
            db_cluster_identifier: db_cluster_identifier.get_ref(),
            db_instance_identifier: None,
            db_instance_class: db_instance_class.0,
            ca_certificate_identifier: None,
            preferred_maintenance_window: None,
            availability_zone: None,
            enable_performance_insights: None,
        }
    }

    pub fn certificate_rotation_restart(self, certificate_rotation_restart: bool) -> (r: Self)
        ensures
            r@ == (DBInstanceBuilderView { certificate_rotation_restart: Some(certificate_rotation_restart), ..self@ }),
    {
        Self { certificate_rotation_restart: Some(certificate_rotation_restart), ..self }
    }

    pub fn db_instance_identifier(self, db_instance_identifier: String) -> (r: Self)
        ensures
            r@ == (DBInstanceBuilderView { db_instance_identifier: Some(db_instance_identifier), ..self@ }),
    {
        Self { db_instance_identifier: Some(db_instance_identifier), ..self }
    }

    pub fn ca_certificate_identifier(self, ca_certificate_identifier: String) -> (r: Self)
        ensures
            r@ == (DBInstanceBuilderView { ca_certificate_identifier: Some(ca_certificate_identifier), ..self@ }),
    {
        Self { ca_certificate_identifier: Some(ca_certificate_identifier), ..self }
    }

    pub fn preferred_maintenance_window(self, preferred_maintenance_window: String) -> (r: Self)
        ensures
            r@ == (DBInstanceBuilderView { preferred_maintenance_window: Some(preferred_maintenance_window), ..self@ }),
    {
        Self { preferred_maintenance_window: Some(preferred_maintenance_window), ..self }
    }

    /// The availability zone, given as its region and the zone's letter: `("eu-west-1", "a")` is `eu-west-1a`.
    pub fn availability_zone(self, availability_zone: (String, String)) -> (r: Self)
        ensures
            r@ == (DBInstanceBuilderView { availability_zone: r@.availability_zone, ..self@ }),
            r@.availability_zone matches Some(z) && z@ == availability_zone.0@ + availability_zone.1@,
    {
        let zone = crate::text::concat2(availability_zone.0.as_str(), availability_zone.1.as_str());
        Self { availability_zone: Some(zone), ..self }
    }

    pub fn enable_performance_insights(self, enable_performance_insights: bool) -> (r: Self)
        ensures
            r@ == (DBInstanceBuilderView { enable_performance_insights: Some(enable_performance_insights), ..self@ }),
    {
        Self { enable_performance_insights: Some(enable_performance_insights), ..self }
    }

    /// A reference to the instance. The stack has no place for DocumentDB instances yet, so the
    /// instance itself is not added to it.
    pub fn build(self, stack_builder: &mut StackBuilder) -> (r: DBInstanceRef)
        ensures
            final(stack_builder)@ == old(stack_builder)@,
            is_generated_id(r@.resource_id, "DBInstance"@),
            r@.ref_name is None,
            r@.arn_value is None,
    {
        let resource_id = Resource::generate_id("DBInstance");
        let _instance = DBInstance {
            id: self.id,
            resource_id: resource_id.clone(),
            resource_type: String::from_str("AWS::DocDB::DBInstance"),
            properties: DBInstanceProperties {
                certificate_rotation_restart: self.certificate_rotation_restart,
                db_cluster_identifier: self.db_cluster_identifier,
                db_instance_identifier: self.db_instance_identifier,
                db_instance_class: self.db_instance_class,
                ca_certificate_identifier: self.ca_certificate_identifier,
                preferred_maintenance_window: self.preferred_maintenance_window,
                availability_zone: self.availability_zone,
                enable_performance_insights: self.enable_performance_insights,
                auto_minor_version_upgrade: None,
            },
        };
        DBInstanceRef::internal_new(resource_id)
    }
}

/// Builder for the subnets that a DocumentDB cluster may use.
pub struct DBSubnetGroupBuilder {
    pub(crate) id: Id,
    pub(crate) db_subnet_group_name: Option<String>,
    pub(crate) subnet_ids: Vec<String>,
    pub(crate) db_subnet_group_description: String,
}

/// What a [`DBSubnetGroupBuilder`] holds.
pub struct DBSubnetGroupBuilderView {
    pub id: Id,
    pub db_subnet_group_name: Option<String>,
    pub subnet_ids: Vec<String>,
    pub db_subnet_group_description: String,
}

impl View for DBSubnetGroupBuilder {
    type V = DBSubnetGroupBuilderView;

    open(crate) spec fn view(&self) -> DBSubnetGroupBuilderView {
        DBSubnetGroupBuilderView {
            id: self.id,
            db_subnet_group_name: self.db_subnet_group_name,
            subnet_ids: self.subnet_ids,
            db_subnet_group_description: self.db_subnet_group_description,
        }
    }
}

impl DBSubnetGroupBuilder {
    pub fn new(id: &str, subnet_ids: Vec<String>, db_subnet_group_description: String) -> (r: Self)
        ensures
            r@.id.0@ == id@,
            r@.db_subnet_group_name is None,
            r@.subnet_ids == subnet_ids,
            r@.db_subnet_group_description == db_subnet_group_description,
    {
        Self { id: Id(String::from_str(id)), db_subnet_group_name: None, subnet_ids, db_subnet_group_description }
    }

    pub fn db_subnet_group_name(self, db_subnet_group_name: DocDBSubnetGroupName) -> (r: Self)
        ensures
            r@ == (DBSubnetGroupBuilderView { db_subnet_group_name: Some(db_subnet_group_name.0), ..self@ }),
    {
        Self { db_subnet_group_name: Some(db_subnet_group_name.0), ..self }
    }

    /// Adds the subnet group to the stack.
    pub fn build(self, stack_builder: &mut StackBuilder) -> (r: DBSubnetGroupRef)
        ensures
            final(stack_builder)@ == (StackBuilderView {
                resources: old(stack_builder)@.resources.push(final(stack_builder)@.resources.last()),
                ..old(stack_builder)@
            }),
            final(stack_builder)@.resources.last() matches Resource::DBSubnetGroup(g) && {
                &&& g@.id == self@.id
                &&& g@.resource_id@ == r@.resource_id
                &&& g@.resource_type@ == "AWS::DocDB::DBSubnetGroup"@
                &&& g@.properties@ == (DBSubnetGroupPropertiesView {
                    db_subnet_group_name: self@.db_subnet_group_name,
                    subnet_ids: self@.subnet_ids,
                    db_subnet_group_description: self@.db_subnet_group_description,
                })
            },
            is_generated_id(r@.resource_id, "DBSubnetGroup"@),
            r@.ref_name is None,
            r@.arn_value is None,
    {
        let resource_id = Resource::generate_id("DBSubnetGroup");
        stack_builder.add_resource(
            Resource::DBSubnetGroup(
                DBSubnetGroup {
                    id: self.id,
                    resource_id: resource_id.clone(),
                    resource_type: String::from_str("AWS::DocDB::DBSubnetGroup"),
                    properties: DBSubnetGroupProperties {
                        db_subnet_group_name: self.db_subnet_group_name,
                        subnet_ids: self.subnet_ids,
                        db_subnet_group_description: self.db_subnet_group_description,
                    },
                },
            ),
        );
        DBSubnetGroupRef::internal_new(resource_id)
    }
}

/// The resources whose events a subscription receives, with the categories of events.
pub enum SourceIdsAndType<'a> {
    Cluster(Option<Vec<&'a DBClusterRef>>, Option<Vec<ClusterCategory>>),
    Instance(Option<Vec<&'a DBInstanceRef>>, Option<Vec<InstanceCategory>>),
}

/// Builder for subscriptions to the events of DocumentDB resources.
pub struct EventSubscriptionBuilder {
    pub(crate) id: Id,
    pub(crate) enabled: Option<bool>,
    pub(crate) sns_topic_arn: Value,
    pub(crate) event_categories: Option<Vec<String>>,
    pub(crate) source_ids: Option<Vec<Value>>,
    pub(crate) source_type: Option<String>,
    pub(crate) subscription_name: Option<String>,
}

/// What an [`EventSubscriptionBuilder`] holds.
pub struct EventSubscriptionBuilderView {
    pub id: Id,
    pub enabled: Option<bool>,
    pub sns_topic_arn: Value,
    pub event_categories: Option<Vec<String>>,
    pub source_ids: Option<Vec<Value>>,
    pub source_type: Option<String>,
    pub subscription_name: Option<String>,
}

impl View for EventSubscriptionBuilder {
    type V = EventSubscriptionBuilderView;

    open(crate) spec fn view(&self) -> EventSubscriptionBuilderView {
        EventSubscriptionBuilderView {
            id: self.id,
            enabled: self.enabled,
            sns_topic_arn: self.sns_topic_arn,
            event_categories: self.event_categories,
            source_ids: self.source_ids,
            source_type: self.source_type,
            subscription_name: self.subscription_name,
        }
    }
}

/// The subscription state `r` holds the sources `sources`: their type, what `Ref` gives for each of
/// them, and the names of the categories, each where given.
pub open spec fn sources_set(r: EventSubscriptionBuilderView, sources: SourceIdsAndType) -> bool {
    match sources {
        SourceIdsAndType::Cluster(refs, categories) => {
            &&& r.source_type matches Some(t) && t@ == "db-cluster"@
            &&& match refs {
                Some(rs) => r.source_ids matches Some(ids) && json_views(ids@) == ref_views(cluster_ref_views(rs@)),
                None => r.source_ids is None,
            }
            &&& match categories {
                Some(cs) => r.event_categories matches Some(names) && views(names@) == cluster_category_name_views(cs@),
                None => r.event_categories is None,
            }
        },
        SourceIdsAndType::Instance(refs, categories) => {
            &&& r.source_type matches Some(t) && t@ == "db-instance"@
            &&& match refs {
                Some(rs) => r.source_ids matches Some(ids) && json_views(ids@) == ref_views(instance_ref_views(rs@)),
                None => r.source_ids is None,
            }
            &&& match categories {
                Some(cs) => r.event_categories matches Some(names) && views(names@) == instance_category_name_views(cs@),
                None => r.event_categories is None,
            }
        },
    }
}

impl EventSubscriptionBuilder {
    pub fn new(id: &str, sns_topic_arn: &TopicRef) -> (r: Self)
        ensures
            r@.id.0@ == id@,
            r@.sns_topic_arn@ == topic_arn_json(sns_topic_arn@),
            r@.enabled is None,
            r@.event_categories is None,
            r@.source_ids is None,
            r@.source_type is None,
            r@.subscription_name is None,
    {
        Self {
            id: Id(String::from_str(id)),
            enabled: None,
            sns_topic_arn: sns_topic_arn.get_arn(),
            event_categories: None,
            source_ids: None,
            source_type: None,
            subscription_name: None,
        }
    }

    pub fn enabled(self, enabled: bool) -> (r: Self)
        ensures
            r@ == (EventSubscriptionBuilderView { enabled: Some(enabled), ..self@ }),
    {
        Self { enabled: Some(enabled), ..self }
    }

    /// The resources whose events the subscription receives.
    pub fn sources(self, sources: SourceIdsAndType) -> (r: Self)
        ensures
            r@ == (EventSubscriptionBuilderView {
                source_type: r@.source_type,
                source_ids: r@.source_ids,
                event_categories: r@.event_categories,
                ..self@
            }),
            sources_set(r@, sources),
    {
        let ghost asked = sources;
        let (source_type, source_ids, categories) = match sources {
            SourceIdsAndType::Cluster(refs, categories) => {
                let ids = match refs {
                    Some(rs) => Some(cluster_refs(rs)),
                    None => None,
                };
                let names = match categories {
                    Some(cs) => Some(cluster_category_names(cs)),
                    None => None,
                };
                (String::from_str("db-cluster"), ids, names)
            },
            SourceIdsAndType::Instance(refs, categories) => {
                let ids = match refs {
                    Some(rs) => Some(instance_refs(rs)),
                    None => None,
                };
                let names = match categories {
                    Some(cs) => Some(instance_category_names(cs)),
                    None => None,
                };
                (String::from_str("db-instance"), ids, names)
            },
        };
        Self { source_type: Some(source_type), source_ids, event_categories: categories, ..self }
    }

    pub fn subscription_name(self, subscription_name: DocDBSubscriptionName) -> (r: Self)
        ensures
            r@ == (EventSubscriptionBuilderView { subscription_name: Some(subscription_name.0), ..self@ }),
    {
        Self { subscription_name: Some(subscription_name.0), ..self }
    }

    /// A reference to the subscription. The stack has no place for DocumentDB event subscriptions
    /// yet, so the subscription itself is not added to it.
    pub fn build(self, stack_builder: &mut StackBuilder) -> (r: EventSubscriptionRef)
        ensures
            final(stack_builder)@ == old(stack_builder)@,
            is_generated_id(r@.resource_id, "EventSubscription"@),
            r@.ref_name is None,
            r@.arn_value is None,
    {
        let resource_id = Resource::generate_id("EventSubscription");
        let _subscription = EventSubscription {
            id: self.id,
            resource_id: resource_id.clone(),
            resource_type: String::from_str("AWS::DocDB::EventSubscription"),
            properties: EventSubscriptionProperties {
                enabled: self.enabled,
                sns_topic_arn: self.sns_topic_arn,
                event_categories: self.event_categories,
                source_ids: self.source_ids,
                source_type: self.source_type,
                subscription_name: self.subscription_name,
            },
        };
        EventSubscriptionRef::internal_new(resource_id)
    }
}

/// Builder for DocumentDB clusters that span regions.
pub struct GlobalClusterBuilder {
    pub(crate) id: Id,
    pub(crate) engine: Option<String>,
    pub(crate) global_cluster_identifier: String,
    pub(crate) source_db_cluster_identifier: Option<Value>,
    pub(crate) storage_encrypted: Option<bool>,
    pub(crate) deletion_protection: Option<bool>,
    pub(crate) engine_version: Option<String>,
}

/// What a [`GlobalClusterBuilder`] holds.
pub struct GlobalClusterBuilderView {
    pub id: Id,
    pub engine: Option<String>,
    pub global_cluster_identifier: String,
    pub source_db_cluster_identifier: Option<Value>,
    pub storage_encrypted: Option<bool>,
    pub deletion_protection: Option<bool>,
    pub engine_version: Option<String>,
}

impl View for GlobalClusterBuilder {
    type V = GlobalClusterBuilderView;

    open(crate) spec fn view(&self) -> GlobalClusterBuilderView {
        GlobalClusterBuilderView {
            id: self.id,
            engine: self.engine,
            global_cluster_identifier: self.global_cluster_identifier,
            source_db_cluster_identifier: self.source_db_cluster_identifier,
            storage_encrypted: self.storage_encrypted,
            deletion_protection: self.deletion_protection,
            engine_version: self.engine_version,
        }
    }
}

impl GlobalClusterBuilder {
    pub fn new(id: &str, global_cluster_identifier: String) -> (r: Self)
        ensures
            r@.id.0@ == id@,
            r@.global_cluster_identifier == global_cluster_identifier,
            r@.engine is None,
            r@.source_db_cluster_identifier is None,
            r@.storage_encrypted is None,
            r@.deletion_protection is None,
            r@.engine_version is None,
    {
        Self {
            id: Id(String::from_str(id)),
            engine: None,
            global_cluster_identifier,
            source_db_cluster_identifier: None,
            storage_encrypted: None,
            deletion_protection: None,
            engine_version: None,
        }
    }

    pub fn engine(self, engine: GlobalEngine) -> (r: Self)
        ensures
            r@ == (GlobalClusterBuilderView { engine: r@.engine, ..self@ }),
            r@.engine matches Some(e) && e@ == global_engine_name(engine),
    {
        Self { engine: Some(engine.into()), ..self }
    }

    pub fn engine_version(self, engine_version: EngineVersion) -> (r: Self)
        ensures
            r@ == (GlobalClusterBuilderView { engine_version: r@.engine_version, ..self@ }),
            r@.engine_version matches Some(e) && e@ == engine_version_name(engine_version),
    {
        Self { engine_version: Some(engine_version.into()), ..self }
    }

    /// The cluster that the global cluster starts from, by its ARN.
    pub fn source_db_cluster_identifier(self, source_db_cluster_identifier: &DBClusterRef) -> (r: Self)
        ensures
            r@ == (GlobalClusterBuilderView { source_db_cluster_identifier: r@.source_db_cluster_identifier, ..self@ }),
            r@.source_db_cluster_identifier matches Some(v) && v@ == arn_json(
                source_db_cluster_identifier@.resource_id,
                source_db_cluster_identifier@.arn_value,
            ),
    {
        Self { source_db_cluster_identifier: Some(source_db_cluster_identifier.get_arn()), ..self }
    }

    pub fn storage_encrypted(self, storage_encrypted: bool) -> (r: Self)
        ensures
            r@ == (GlobalClusterBuilderView { storage_encrypted: Some(storage_encrypted), ..self@ }),
    {
        Self { storage_encrypted: Some(storage_encrypted), ..self }
    }

    pub fn deletion_protection(self, deletion_protection: bool) -> (r: Self)
        ensures
            r@ == (GlobalClusterBuilderView { deletion_protection: Some(deletion_protection), ..self@ }),
    {
        Self { deletion_protection: Some(deletion_protection), ..self }
    }

    /// Adds the global cluster to the stack.
    pub fn build(self, stack_builder: &mut StackBuilder) -> (r: GlobalClusterRef)
        ensures
            final(stack_builder)@ == (StackBuilderView {
                resources: old(stack_builder)@.resources.push(final(stack_builder)@.resources.last()),
                ..old(stack_builder)@
            }),
            final(stack_builder)@.resources.last() matches Resource::GlobalCluster(g) && {
                &&& g@.id == self@.id
                &&& g@.resource_id@ == r@.resource_id
                &&& g@.resource_type@ == "AWS::DocDB::GlobalCluster"@
                &&& g@.properties@ == (GlobalClusterPropertiesView {
                    engine: self@.engine,
                    global_cluster_identifier: self@.global_cluster_identifier,
                    source_db_cluster_identifier: self@.source_db_cluster_identifier,
                    storage_encrypted: self@.storage_encrypted,
                    deletion_protection: self@.deletion_protection,
                    engine_version: self@.engine_version,
                })
            },
            is_generated_id(r@.resource_id, "GlobalCluster"@),
            r@.ref_name is None,
            r@.arn_value is None,
    {
        let resource_id = Resource::generate_id("GlobalCluster");
        stack_builder.add_resource(
            Resource::GlobalCluster(
                GlobalCluster {
                    id: self.id,
                    resource_id: resource_id.clone(),
                    resource_type: String::from_str("AWS::DocDB::GlobalCluster"),
                    properties: GlobalClusterProperties {
                        engine: self.engine,
                        global_cluster_identifier: self.global_cluster_identifier,
                        source_db_cluster_identifier: self.source_db_cluster_identifier,
                        storage_encrypted: self.storage_encrypted,
                        deletion_protection: self.deletion_protection,
                        engine_version: self.engine_version,
                    },
                },
            ),
        );
        GlobalClusterRef::internal_new(resource_id)
    }
}

} // verus!
