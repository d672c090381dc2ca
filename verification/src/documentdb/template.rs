//! How the module's resources appear in a CloudFormation template.
use crate::documentdb::{DBCluster, DBClusterParameterGroup, DBClusterParameterGroupProperties, DBClusterProperties, DBInstance, DBInstanceProperties, DBSubnetGroup, DBSubnetGroupProperties, EventSubscription, EventSubscriptionProperties, GlobalCluster, GlobalClusterProperties};
use crate::json::{member, opt_member, push_json, push_opt_json, JsonView, ToJson, Value};
use vstd::prelude::*;

verus! {

impl ToJson for DBCluster {
    open(crate) spec fn as_json(&self) -> JsonView {
        JsonView::Object(
            Seq::empty()
                + member("Type"@, &self.resource_type)
                + member("Properties"@, &self.properties),
        )
    }

    fn to_json(&self) -> (r: Value) {
        let mut members: Vec<(String, Value)> = Vec::new();
        push_json(&mut members, "Type", &self.resource_type);
        push_json(&mut members, "Properties", &self.properties);
        Value::Object(members)
    }
}

impl ToJson for DBClusterProperties {
    open(crate) spec fn as_json(&self) -> JsonView {
        JsonView::Object(
            Seq::empty()
                + opt_member("AvailabilityZones"@, &self.availability_zones)
                + opt_member("ManageMasterUserPassword"@, &self.manage_master_user_password)
                + opt_member("DBSubnetGroupName"@, &self.db_subnet_group_name)
                + opt_member("StorageEncrypted"@, &self.storage_encrypted)
                + opt_member("RotateMasterUserPassword"@, &self.rotate_master_user_password)
                + opt_member("RestoreToTime"@, &self.restore_to_time)
                + opt_member("DeletionProtection"@, &self.deletion_protection)
                + opt_member("VpcSecurityGroupIds"@, &self.vpc_security_group_ids)
                + opt_member("SnapshotIdentifier"@, &self.snapshot_identifier)
                + opt_member("UseLatestRestorableTime"@, &self.use_latest_restorable_time)
                + opt_member("EnableCloudwatchLogsExports"@, &self.enable_cloudwatch_logs_exports)
                + opt_member("GlobalClusterIdentifier"@, &self.global_cluster_identifier)
                + opt_member("NetworkType"@, &self.network_type)
                + opt_member("PreferredBackupWindow"@, &self.preferred_backup_window)
                + opt_member("BackupRetentionPeriod"@, &self.backup_retention_period)
                + opt_member("RestoreType"@, &self.restore_type)
                + opt_member("MasterUserSecretKmsKeyId"@, &self.master_user_secret_kms_key_id)
                + opt_member("MasterUserPassword"@, &self.master_user_password)
                + opt_member("Port"@, &self.port)
                + opt_member("StorageType"@, &self.storage_type)
                + opt_member("MasterUsername"@, &self.master_username)
                + opt_member("EngineVersion"@, &self.engine_version)
                + opt_member("KmsKeyId"@, &self.kms_key_id)
                + opt_member("SourceDBClusterIdentifier"@, &self.source_db_cluster_identifier)
                + opt_member("DBClusterIdentifier"@, &self.db_cluster_identifier)
                + opt_member("PreferredMaintenanceWindow"@, &self.preferred_maintenance_window)
                + opt_member("DBClusterParameterGroupName"@, &self.db_cluster_parameter_group_name),
        )
    }

    fn to_json(&self) -> (r: Value) {
        let mut members: Vec<(String, Value)> = Vec::new();
        push_opt_json(&mut members, "AvailabilityZones", &self.availability_zones);
        push_opt_json(&mut members, "ManageMasterUserPassword", &self.manage_master_user_password);
        push_opt_json(&mut members, "DBSubnetGroupName", &self.db_subnet_group_name);
        push_opt_json(&mut members, "StorageEncrypted", &self.storage_encrypted);
        push_opt_json(&mut members, "RotateMasterUserPassword", &self.rotate_master_user_password);
        push_opt_json(&mut members, "RestoreToTime", &self.restore_to_time);
        push_opt_json(&mut members, "DeletionProtection", &self.deletion_protection);
        push_opt_json(&mut members, "VpcSecurityGroupIds", &self.vpc_security_group_ids);
        push_opt_json(&mut members, "SnapshotIdentifier", &self.snapshot_identifier);
        push_opt_json(&mut members, "UseLatestRestorableTime", &self.use_latest_restorable_time);
        push_opt_json(&mut members, "EnableCloudwatchLogsExports", &self.enable_cloudwatch_logs_exports);
        push_opt_json(&mut members, "GlobalClusterIdentifier", &self.global_cluster_identifier);
        push_opt_json(&mut members, "NetworkType", &self.network_type);
        push_opt_json(&mut members, "PreferredBackupWindow", &self.preferred_backup_window);
        push_opt_json(&mut members, "BackupRetentionPeriod", &self.backup_retention_period);
        push_opt_json(&mut members, "RestoreType", &self.restore_type);
        push_opt_json(&mut members, "MasterUserSecretKmsKeyId", &self.master_user_secret_kms_key_id);
        push_opt_json(&mut members, "MasterUserPassword", &self.master_user_password);
        push_opt_json(&mut members, "Port", &self.port);
        push_opt_json(&mut members, "StorageType", &self.storage_type);
        push_opt_json(&mut members, "MasterUsername", &self.master_username);
        push_opt_json(&mut members, "EngineVersion", &self.engine_version);
        push_opt_json(&mut members, "KmsKeyId", &self.kms_key_id);
        push_opt_json(&mut members, "SourceDBClusterIdentifier", &self.source_db_cluster_identifier);
        push_opt_json(&mut members, "DBClusterIdentifier", &self.db_cluster_identifier);
        push_opt_json(&mut members, "PreferredMaintenanceWindow", &self.preferred_maintenance_window);
        push_opt_json(&mut members, "DBClusterParameterGroupName", &self.db_cluster_parameter_group_name);
        Value::Object(members)
    }
}

impl ToJson for DBClusterParameterGroup {
    open(crate) spec fn as_json(&self) -> JsonView {
        JsonView::Object(
            Seq::empty()
                + member("Type"@, &self.resource_type)
                + member("Properties"@, &self.properties),
        )
    }

    fn to_json(&self) -> (r: Value) {
        let mut members: Vec<(String, Value)> = Vec::new();
        push_json(&mut members, "Type", &self.resource_type);
        push_json(&mut members, "Properties", &self.properties);
        Value::Object(members)
    }
}

impl ToJson for DBClusterParameterGroupProperties {
    open(crate) spec fn as_json(&self) -> JsonView {
        JsonView::Object(
            Seq::empty()
                + member("Description"@, &self.description)
                + member("Family"@, &self.family)
                + member("Parameters"@, &self.parameters)
                + opt_member("Name"@, &self.name),
        )
    }

    fn to_json(&self) -> (r: Value) {
        let mut members: Vec<(String, Value)> = Vec::new();
        push_json(&mut members, "Description", &self.description);
        push_json(&mut members, "Family", &self.family);
        push_json(&mut members, "Parameters", &self.parameters);
        push_opt_json(&mut members, "Name", &self.name);
        Value::Object(members)
    }
}

impl ToJson for DBInstance {
    open(crate) spec fn as_json(&self) -> JsonView {
        JsonView::Object(
            Seq::empty()
                + member("Type"@, &self.resource_type)
                + member("Properties"@, &self.properties),
        )
    }

    fn to_json(&self) -> (r: Value) {
        let mut members: Vec<(String, Value)> = Vec::new();
        push_json(&mut members, "Type", &self.resource_type);
        push_json(&mut members, "Properties", &self.properties);
        Value::Object(members)
    }
}

impl ToJson for DBInstanceProperties {
    open(crate) spec fn as_json(&self) -> JsonView {
        JsonView::Object(
            Seq::empty()
                + opt_member("CertificateRotationRestart"@, &self.certificate_rotation_restart)
                + member("DBClusterIdentifier"@, &self.db_cluster_identifier)
                + opt_member("DBInstanceIdentifier"@, &self.db_instance_identifier)
                + member("DBInstanceClass"@, &self.db_instance_class)
                + opt_member("CACertificateIdentifier"@, &self.ca_certificate_identifier)
                + opt_member("PreferredMaintenanceWindow"@, &self.preferred_maintenance_window)
                + opt_member("AutoMinorVersionUpgrade"@, &self.auto_minor_version_upgrade)
                + opt_member("AvailabilityZone"@, &self.availability_zone)
                + opt_member("EnablePerformanceInsights"@, &self.enable_performance_insights),
        )
    }

    fn to_json(&self) -> (r: Value) {
        let mut members: Vec<(String, Value)> = Vec::new();
        push_opt_json(&mut members, "CertificateRotationRestart", &self.certificate_rotation_restart);
        push_json(&mut members, "DBClusterIdentifier", &self.db_cluster_identifier);
        push_opt_json(&mut members, "DBInstanceIdentifier", &self.db_instance_identifier);
        push_json(&mut members, "DBInstanceClass", &self.db_instance_class);
        push_opt_json(&mut members, "CACertificateIdentifier", &self.ca_certificate_identifier);
        push_opt_json(&mut members, "PreferredMaintenanceWindow", &self.preferred_maintenance_window);
        push_opt_json(&mut members, "AutoMinorVersionUpgrade", &self.auto_minor_version_upgrade);
        push_opt_json(&mut members, "AvailabilityZone", &self.availability_zone);
        push_opt_json(&mut members, "EnablePerformanceInsights", &self.enable_performance_insights);
        Value::Object(members)
    }
}

impl ToJson for DBSubnetGroup {
    open(crate) spec fn as_json(&self) -> JsonView {
        JsonView::Object(
            Seq::empty()
                + member("Type"@, &self.resource_type)
                + member("Properties"@, &self.properties),
        )
    }

    fn to_json(&self) -> (r: Value) {
        let mut members: Vec<(String, Value)> = Vec::new();
        push_json(&mut members, "Type", &self.resource_type);
        push_json(&mut members, "Properties", &self.properties);
        Value::Object(members)
    }
}

impl ToJson for DBSubnetGroupProperties {
    open(crate) spec fn as_json(&self) -> JsonView {
        JsonView::Object(
            Seq::empty()
                + opt_member("DBSubnetGroupName"@, &self.db_subnet_group_name)
                + member("SubnetIds"@, &self.subnet_ids)
                + member("DBSubnetGroupDescription"@, &self.db_subnet_group_description),
        )
    }

    fn to_json(&self) -> (r: Value) {
        let mut members: Vec<(String, Value)> = Vec::new();
        push_opt_json(&mut members, "DBSubnetGroupName", &self.db_subnet_group_name);
        push_json(&mut members, "SubnetIds", &self.subnet_ids);
        push_json(&mut members, "DBSubnetGroupDescription", &self.db_subnet_group_description);
        Value::Object(members)
    }
}

impl ToJson for EventSubscription {
    open(crate) spec fn as_json(&self) -> JsonView {
        JsonView::Object(
            Seq::empty()
                + member("Type"@, &self.resource_type)
                + member("Properties"@, &self.properties),
        )
    }

    fn to_json(&self) -> (r: Value) {
        let mut members: Vec<(String, Value)> = Vec::new();
        push_json(&mut members, "Type", &self.resource_type);
        push_json(&mut members, "Properties", &self.properties);
        Value::Object(members)
    }
}

impl ToJson for EventSubscriptionProperties {
    open(crate) spec fn as_json(&self) -> JsonView {
        JsonView::Object(
            Seq::empty()
                + opt_member("Enabled"@, &self.enabled)
                + member("SnsTopicArn"@, &self.sns_topic_arn)
                + opt_member("EventCategories"@, &self.event_categories)
                + opt_member("SourceIds"@, &self.source_ids)
                + opt_member("SourceType"@, &self.source_type)
                + opt_member("SubscriptionName"@, &self.subscription_name),
        )
    }

    fn to_json(&self) -> (r: Value) {
        let mut members: Vec<(String, Value)> = Vec::new();
        push_opt_json(&mut members, "Enabled", &self.enabled);
        push_json(&mut members, "SnsTopicArn", &self.sns_topic_arn);
        push_opt_json(&mut members, "EventCategories", &self.event_categories);
        push_opt_json(&mut members, "SourceIds", &self.source_ids);
        push_opt_json(&mut members, "SourceType", &self.source_type);
        push_opt_json(&mut members, "SubscriptionName", &self.subscription_name);
        Value::Object(members)
    }
}

impl ToJson for GlobalCluster {
    open(crate) spec fn as_json(&self) -> JsonView {
        JsonView::Object(
            Seq::empty()
                + member("Type"@, &self.resource_type)
                + member("Properties"@, &self.properties),
        )
    }

    fn to_json(&self) -> (r: Value) {
        let mut members: Vec<(String, Value)> = Vec::new();
        push_json(&mut members, "Type", &self.resource_type);
        push_json(&mut members, "Properties", &self.properties);
        Value::Object(members)
    }
}

impl ToJson for GlobalClusterProperties {
    open(crate) spec fn as_json(&self) -> JsonView {
        JsonView::Object(
            Seq::empty()
                + opt_member("Engine"@, &self.engine)
                + member("GlobalClusterIdentifier"@, &self.global_cluster_identifier)
                + opt_member("SourceDBClusterIdentifier"@, &self.source_db_cluster_identifier)
                + opt_member("StorageEncrypted"@, &self.storage_encrypted)
                + opt_member("DeletionProtection"@, &self.deletion_protection)
                + opt_member("EngineVersion"@, &self.engine_version),
        )
    }

    fn to_json(&self) -> (r: Value) {
        let mut members: Vec<(String, Value)> = Vec::new();
        push_opt_json(&mut members, "Engine", &self.engine);
        push_json(&mut members, "GlobalClusterIdentifier", &self.global_cluster_identifier);
        push_opt_json(&mut members, "SourceDBClusterIdentifier", &self.source_db_cluster_identifier);
        push_opt_json(&mut members, "StorageEncrypted", &self.storage_encrypted);
        push_opt_json(&mut members, "DeletionProtection", &self.deletion_protection);
        push_opt_json(&mut members, "EngineVersion", &self.engine_version);
        Value::Object(members)
    }
}

} // verus!
