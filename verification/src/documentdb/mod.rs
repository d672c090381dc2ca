//! DocumentDB clusters, their instances, subnet and parameter groups, event subscriptions and global clusters.
mod dto;
mod builder;
mod template;

pub use dto::{DBCluster, DBClusterParameterGroup, DBClusterParameterGroupProperties, DBClusterParameterGroupPropertiesView, DBClusterParameterGroupRef, DBClusterParameterGroupView, DBClusterProperties, DBClusterPropertiesView, DBClusterRef, DBClusterView, DBInstance, DBInstanceProperties, DBInstancePropertiesView, DBInstanceRef, DBInstanceView, DBSubnetGroup, DBSubnetGroupProperties, DBSubnetGroupPropertiesView, DBSubnetGroupRef, DBSubnetGroupView, EventSubscription, EventSubscriptionProperties, EventSubscriptionPropertiesView, EventSubscriptionRef, EventSubscriptionView, GlobalCluster, GlobalClusterProperties, GlobalClusterPropertiesView, GlobalClusterRef, GlobalClusterView};
pub use builder::{CloudwatchLogExport, ClusterCategory, DBClusterBuilder, DBClusterBuilderView, DBClusterParameterGroupBuilder, DBClusterParameterGroupBuilderView, DBInstanceBuilder, DBInstanceBuilderView, DBSubnetGroupBuilder, DBSubnetGroupBuilderView, DbClusterAutomaticPasswordState, DbClusterManualPasswordState, DbClusterStartState, DbClusterState, EngineVersion, EventSubscriptionBuilder, EventSubscriptionBuilderView, GlobalClusterBuilder, GlobalClusterBuilderView, GlobalEngine, InstanceCategory, NetworkType, ParameterGroupCategory, RestoreType, SnapshotCategory, SourceIdsAndType, StorageType, cloudwatch_log_export_name, cluster_category_name, cluster_category_name_views, cluster_ref_views, db_cluster_added, engine_version_name, global_engine_name, instance_category_name, instance_category_name_views, instance_ref_views, log_export_name_views, network_type_name, parameter_group_category_name, ref_views, restore_type_name, snapshot_category_name, sources_set, storage_type_name};
