use crate::json::Value;
use crate::shared::{arn_json, clone_opt, opt_view, ref_json, Id, RefView, RefWithIdView};
use crate::intrinsic::{get_arn, get_att, get_att_json, get_ref, string_value};

use vstd::prelude::*;

verus! {

/// A reference to a resource, which other resources use to depend on it.
pub struct DBClusterRef {
    pub(crate) resource_id: String,
    pub(crate) ref_name: Option<String>,
    pub(crate) arn_value: Option<String>,
}

impl View for DBClusterRef {
    type V = RefView;

    open(crate) spec fn view(&self) -> RefView {
        RefView {
            resource_id: self.resource_id@,
            ref_name: opt_view(self.ref_name),
            arn_value: opt_view(self.arn_value),
        }
    }
}

impl DBClusterRef {
    pub(crate) fn internal_new(resource_id: String) -> (r: Self)
        ensures
            r@ == (RefView { resource_id: resource_id@, ref_name: None, arn_value: None }),
    {
        Self { resource_id, ref_name: None, arn_value: None }
    }

    /// A reference to a resource that exists outside the stack.
    pub fn new(resource_id: &str, ref_name: &str, arn_value: &str) -> (r: Self)
        ensures
            r@ == (RefView { resource_id: resource_id@, ref_name: Some(ref_name@), arn_value: Some(arn_value@) }),
    {
        Self {
            resource_id: String::from_str(resource_id),
            ref_name: Some(String::from_str(ref_name)),
            arn_value: Some(String::from_str(arn_value)),
        }
    }

    pub(crate) fn get_resource_id(&self) -> (r: &str)
        ensures
            r@ == self@.resource_id,
    {
        self.resource_id.as_str()
    }

    /// What `Ref` gives for the resource: the name it was imported with, or the intrinsic function.
    pub fn get_ref(&self) -> (r: Value)
        ensures
            r@ == ref_json(self@.resource_id, self@.ref_name),
    {
        match &self.ref_name {
            Some(val) => string_value(val.as_str()),
            None => get_ref(self.resource_id.as_str()),
        }
    }

    /// The ARN of the resource: the one it was imported with, or the intrinsic function.
    pub fn get_arn(&self) -> (r: Value)
        ensures
            r@ == arn_json(self@.resource_id, self@.arn_value),
    {
        match &self.arn_value {
            Some(val) => string_value(val.as_str()),
            None => get_arn(self.resource_id.as_str()),
        }
    }

    /// An attribute of the resource; not available for an imported resource.
    pub fn get_att(&self, id: &str) -> (r: Value)
        requires
            !(self@.ref_name is Some && self@.arn_value is Some),
        ensures
            r@ == get_att_json(self@.resource_id, id@),
    {
        get_att(self.resource_id.as_str(), id)
    }
}

impl Clone for DBClusterRef {
    fn clone(&self) -> (r: Self)
        ensures
            r@ == self@,
    {
        Self {
            resource_id: self.resource_id.clone(),
            ref_name: clone_opt(&self.ref_name),
            arn_value: clone_opt(&self.arn_value),
        }
    }
}

/// A reference to a resource, which other resources use to depend on it.
pub struct DBClusterParameterGroupRef {
    pub(crate) resource_id: String,
    pub(crate) ref_name: Option<String>,
    pub(crate) arn_value: Option<String>,
}

impl View for DBClusterParameterGroupRef {
    type V = RefView;

    open(crate) spec fn view(&self) -> RefView {
        RefView {
            resource_id: self.resource_id@,
            ref_name: opt_view(self.ref_name),
            arn_value: opt_view(self.arn_value),
        }
    }
}

impl DBClusterParameterGroupRef {
    pub(crate) fn internal_new(resource_id: String) -> (r: Self)
        ensures
            r@ == (RefView { resource_id: resource_id@, ref_name: None, arn_value: None }),
    {
        Self { resource_id, ref_name: None, arn_value: None }
    }

    /// A reference to a resource that exists outside the stack.
    pub fn new(resource_id: &str, ref_name: &str, arn_value: &str) -> (r: Self)
        ensures
            r@ == (RefView { resource_id: resource_id@, ref_name: Some(ref_name@), arn_value: Some(arn_value@) }),
    {
        Self {
            resource_id: String::from_str(resource_id),
            ref_name: Some(String::from_str(ref_name)),
            arn_value: Some(String::from_str(arn_value)),
        }
    }

    pub(crate) fn get_resource_id(&self) -> (r: &str)
        ensures
            r@ == self@.resource_id,
    {
        self.resource_id.as_str()
    }

    /// What `Ref` gives for the resource: the name it was imported with, or the intrinsic function.
    pub fn get_ref(&self) -> (r: Value)
        ensures
            r@ == ref_json(self@.resource_id, self@.ref_name),
    {
        match &self.ref_name {
            Some(val) => string_value(val.as_str()),
            None => get_ref(self.resource_id.as_str()),
        }
    }

    /// The ARN of the resource: the one it was imported with, or the intrinsic function.
    pub fn get_arn(&self) -> (r: Value)
        ensures
            r@ == arn_json(self@.resource_id, self@.arn_value),
    {
        match &self.arn_value {
            Some(val) => string_value(val.as_str()),
            None => get_arn(self.resource_id.as_str()),
        }
    }

    /// An attribute of the resource; not available for an imported resource.
    pub fn get_att(&self, id: &str) -> (r: Value)
        requires
            !(self@.ref_name is Some && self@.arn_value is Some),
        ensures
            r@ == get_att_json(self@.resource_id, id@),
    {
        get_att(self.resource_id.as_str(), id)
    }
}

impl Clone for DBClusterParameterGroupRef {
    fn clone(&self) -> (r: Self)
        ensures
            r@ == self@,
    {
        Self {
            resource_id: self.resource_id.clone(),
            ref_name: clone_opt(&self.ref_name),
            arn_value: clone_opt(&self.arn_value),
        }
    }
}

/// A reference to a resource, which other resources use to depend on it.
pub struct DBInstanceRef {
    pub(crate) resource_id: String,
    pub(crate) ref_name: Option<String>,
    pub(crate) arn_value: Option<String>,
}

impl View for DBInstanceRef {
    type V = RefView;

    open(crate) spec fn view(&self) -> RefView {
        RefView {
            resource_id: self.resource_id@,
            ref_name: opt_view(self.ref_name),
            arn_value: opt_view(self.arn_value),
        }
    }
}

impl DBInstanceRef {
    pub(crate) fn internal_new(resource_id: String) -> (r: Self)
        ensures
            r@ == (RefView { resource_id: resource_id@, ref_name: None, arn_value: None }),
    {
        Self { resource_id, ref_name: None, arn_value: None }
    }

    /// A reference to a resource that exists outside the stack.
    pub fn new(resource_id: &str, ref_name: &str, arn_value: &str) -> (r: Self)
        ensures
            r@ == (RefView { resource_id: resource_id@, ref_name: Some(ref_name@), arn_value: Some(arn_value@) }),
    {
        Self {
            resource_id: String::from_str(resource_id),
            ref_name: Some(String::from_str(ref_name)),
            arn_value: Some(String::from_str(arn_value)),
        }
    }

    pub(crate) fn get_resource_id(&self) -> (r: &str)
        ensures
            r@ == self@.resource_id,
    {
        self.resource_id.as_str()
    }

    /// What `Ref` gives for the resource: the name it was imported with, or the intrinsic function.
    pub fn get_ref(&self) -> (r: Value)
        ensures
            r@ == ref_json(self@.resource_id, self@.ref_name),
    {
        match &self.ref_name {
            Some(val) => string_value(val.as_str()),
            None => get_ref(self.resource_id.as_str()),
        }
    }

    /// The ARN of the resource: the one it was imported with, or the intrinsic function.
    pub fn get_arn(&self) -> (r: Value)
        ensures
            r@ == arn_json(self@.resource_id, self@.arn_value),
    {
        match &self.arn_value {
            Some(val) => string_value(val.as_str()),
            None => get_arn(self.resource_id.as_str()),
        }
    }

    /// An attribute of the resource; not available for an imported resource.
    pub fn get_att(&self, id: &str) -> (r: Value)
        requires
            !(self@.ref_name is Some && self@.arn_value is Some),
        ensures
            r@ == get_att_json(self@.resource_id, id@),
    {
        get_att(self.resource_id.as_str(), id)
    }
}

impl Clone for DBInstanceRef {
    fn clone(&self) -> (r: Self)
        ensures
            r@ == self@,
    {
        Self {
            resource_id: self.resource_id.clone(),
            ref_name: clone_opt(&self.ref_name),
            arn_value: clone_opt(&self.arn_value),
        }
    }
}

/// A reference to a resource, which other resources use to depend on it.
pub struct DBSubnetGroupRef {
    pub(crate) resource_id: String,
    pub(crate) ref_name: Option<String>,
    pub(crate) arn_value: Option<String>,
}

impl View for DBSubnetGroupRef {
    type V = RefView;

    open(crate) spec fn view(&self) -> RefView {
        RefView {
            resource_id: self.resource_id@,
            ref_name: opt_view(self.ref_name),
            arn_value: opt_view(self.arn_value),
        }
    }
}

impl DBSubnetGroupRef {
    pub(crate) fn internal_new(resource_id: String) -> (r: Self)
        ensures
            r@ == (RefView { resource_id: resource_id@, ref_name: None, arn_value: None }),
    {
        Self { resource_id, ref_name: None, arn_value: None }
    }

    /// A reference to a resource that exists outside the stack.
    pub fn new(resource_id: &str, ref_name: &str, arn_value: &str) -> (r: Self)
        ensures
            r@ == (RefView { resource_id: resource_id@, ref_name: Some(ref_name@), arn_value: Some(arn_value@) }),
    {
        Self {
            resource_id: String::from_str(resource_id),
            ref_name: Some(String::from_str(ref_name)),
            arn_value: Some(String::from_str(arn_value)),
        }
    }

    pub(crate) fn get_resource_id(&self) -> (r: &str)
        ensures
            r@ == self@.resource_id,
    {
        self.resource_id.as_str()
    }

    /// What `Ref` gives for the resource: the name it was imported with, or the intrinsic function.
    pub fn get_ref(&self) -> (r: Value)
        ensures
            r@ == ref_json(self@.resource_id, self@.ref_name),
    {
        match &self.ref_name {
            Some(val) => string_value(val.as_str()),
            None => get_ref(self.resource_id.as_str()),
        }
    }

    /// The ARN of the resource: the one it was imported with, or the intrinsic function.
    pub fn get_arn(&self) -> (r: Value)
        ensures
            r@ == arn_json(self@.resource_id, self@.arn_value),
    {
        match &self.arn_value {
            Some(val) => string_value(val.as_str()),
            None => get_arn(self.resource_id.as_str()),
        }
    }

    /// An attribute of the resource; not available for an imported resource.
    pub fn get_att(&self, id: &str) -> (r: Value)
        requires
            !(self@.ref_name is Some && self@.arn_value is Some),
        ensures
            r@ == get_att_json(self@.resource_id, id@),
    {
        get_att(self.resource_id.as_str(), id)
    }
}

impl Clone for DBSubnetGroupRef {
    fn clone(&self) -> (r: Self)
        ensures
            r@ == self@,
    {
        Self {
            resource_id: self.resource_id.clone(),
            ref_name: clone_opt(&self.ref_name),
            arn_value: clone_opt(&self.arn_value),
        }
    }
}

/// A reference to a resource, which other resources use to depend on it.
pub struct EventSubscriptionRef {
    pub(crate) resource_id: String,
    pub(crate) ref_name: Option<String>,
    pub(crate) arn_value: Option<String>,
}

impl View for EventSubscriptionRef {
    type V = RefView;

    open(crate) spec fn view(&self) -> RefView {
        RefView {
            resource_id: self.resource_id@,
            ref_name: opt_view(self.ref_name),
            arn_value: opt_view(self.arn_value),
        }
    }
}

impl EventSubscriptionRef {
    pub(crate) fn internal_new(resource_id: String) -> (r: Self)
        ensures
            r@ == (RefView { resource_id: resource_id@, ref_name: None, arn_value: None }),
    {
        Self { resource_id, ref_name: None, arn_value: None }
    }

    /// A reference to a resource that exists outside the stack.
    pub fn new(resource_id: &str, ref_name: &str, arn_value: &str) -> (r: Self)
        ensures
            r@ == (RefView { resource_id: resource_id@, ref_name: Some(ref_name@), arn_value: Some(arn_value@) }),
    {
        Self {
            resource_id: String::from_str(resource_id),
            ref_name: Some(String::from_str(ref_name)),
            arn_value: Some(String::from_str(arn_value)),
        }
    }

    pub(crate) fn get_resource_id(&self) -> (r: &str)
        ensures
            r@ == self@.resource_id,
    {
        self.resource_id.as_str()
    }

    /// What `Ref` gives for the resource: the name it was imported with, or the intrinsic function.
    pub fn get_ref(&self) -> (r: Value)
        ensures
            r@ == ref_json(self@.resource_id, self@.ref_name),
    {
        match &self.ref_name {
            Some(val) => string_value(val.as_str()),
            None => get_ref(self.resource_id.as_str()),
        }
    }

    /// The ARN of the resource: the one it was imported with, or the intrinsic function.
    pub fn get_arn(&self) -> (r: Value)
        ensures
            r@ == arn_json(self@.resource_id, self@.arn_value),
    {
        match &self.arn_value {
            Some(val) => string_value(val.as_str()),
            None => get_arn(self.resource_id.as_str()),
        }
    }

    /// An attribute of the resource; not available for an imported resource.
    pub fn get_att(&self, id: &str) -> (r: Value)
        requires
            !(self@.ref_name is Some && self@.arn_value is Some),
        ensures
            r@ == get_att_json(self@.resource_id, id@),
    {
        get_att(self.resource_id.as_str(), id)
    }
}

impl Clone for EventSubscriptionRef {
    fn clone(&self) -> (r: Self)
        ensures
            r@ == self@,
    {
        Self {
            resource_id: self.resource_id.clone(),
            ref_name: clone_opt(&self.ref_name),
            arn_value: clone_opt(&self.arn_value),
        }
    }
}

/// A reference to a resource, which other resources use to depend on it.
pub struct GlobalClusterRef {
    pub(crate) resource_id: String,
    pub(crate) ref_name: Option<String>,
    pub(crate) arn_value: Option<String>,
}

impl View for GlobalClusterRef {
    type V = RefView;

    open(crate) spec fn view(&self) -> RefView {
        RefView {
            resource_id: self.resource_id@,
            ref_name: opt_view(self.ref_name),
            arn_value: opt_view(self.arn_value),
        }
    }
}

impl GlobalClusterRef {
    pub(crate) fn internal_new(resource_id: String) -> (r: Self)
        ensures
            r@ == (RefView { resource_id: resource_id@, ref_name: None, arn_value: None }),
    {
        Self { resource_id, ref_name: None, arn_value: None }
    }

    /// A reference to a resource that exists outside the stack.
    pub fn new(resource_id: &str, ref_name: &str, arn_value: &str) -> (r: Self)
        ensures
            r@ == (RefView { resource_id: resource_id@, ref_name: Some(ref_name@), arn_value: Some(arn_value@) }),
    {
        Self {
            resource_id: String::from_str(resource_id),
            ref_name: Some(String::from_str(ref_name)),
            arn_value: Some(String::from_str(arn_value)),
        }
    }

    pub(crate) fn get_resource_id(&self) -> (r: &str)
        ensures
            r@ == self@.resource_id,
    {
        self.resource_id.as_str()
    }

    /// What `Ref` gives for the resource: the name it was imported with, or the intrinsic function.
    pub fn get_ref(&self) -> (r: Value)
        ensures
            r@ == ref_json(self@.resource_id, self@.ref_name),
    {
        match &self.ref_name {
            Some(val) => string_value(val.as_str()),
            None => get_ref(self.resource_id.as_str()),
        }
    }

    /// The ARN of the resource: the one it was imported with, or the intrinsic function.
    pub fn get_arn(&self) -> (r: Value)
        ensures
            r@ == arn_json(self@.resource_id, self@.arn_value),
    {
        match &self.arn_value {
            Some(val) => string_value(val.as_str()),
            None => get_arn(self.resource_id.as_str()),
        }
    }

    /// An attribute of the resource; not available for an imported resource.
    pub fn get_att(&self, id: &str) -> (r: Value)
        requires
            !(self@.ref_name is Some && self@.arn_value is Some),
        ensures
            r@ == get_att_json(self@.resource_id, id@),
    {
        get_att(self.resource_id.as_str(), id)
    }
}

impl Clone for GlobalClusterRef {
    fn clone(&self) -> (r: Self)
        ensures
            r@ == self@,
    {
        Self {
            resource_id: self.resource_id.clone(),
            ref_name: clone_opt(&self.ref_name),
            arn_value: clone_opt(&self.arn_value),
        }
    }
}

/// A DocumentDB cluster.
pub struct DBCluster {
    pub(crate) id: Id,
    pub(crate) resource_id: String,
    pub(crate) resource_type: String,
    pub(crate) properties: DBClusterProperties,
}

/// What a [`DBCluster`] holds.
pub struct DBClusterView {
    pub id: Id,
    pub resource_id: String,
    pub resource_type: String,
    pub properties: DBClusterProperties,
}

impl View for DBCluster {
    type V = DBClusterView;

    open(crate) spec fn view(&self) -> DBClusterView {
        DBClusterView {
            id: self.id,
            resource_id: self.resource_id,
            resource_type: self.resource_type,
            properties: self.properties,
        }
    }
}

impl DBCluster {
    pub fn get_id(&self) -> (r: &Id)
        ensures
            *r == self@.id,
    {
        &self.id
    }

    pub fn get_resource_id(&self) -> (r: &str)
        ensures
            r@ == self@.resource_id@,
    {
        self.resource_id.as_str()
    }

    pub fn get_type(&self) -> (r: &str)
        ensures
            r@ == self@.resource_type@,
    {
        self.resource_type.as_str()
    }
}

/// Part of the DBClusterProperties configuration.
pub struct DBClusterProperties {
    pub(crate) availability_zones: Option<Vec<String>>,
    pub(crate) manage_master_user_password: Option<bool>,
    pub(crate) db_subnet_group_name: Option<String>,
    pub(crate) storage_encrypted: Option<bool>,
    pub(crate) rotate_master_user_password: Option<bool>,
    pub(crate) restore_to_time: Option<String>,
    pub(crate) deletion_protection: Option<bool>,
    pub(crate) vpc_security_group_ids: Option<Vec<String>>,
    pub(crate) snapshot_identifier: Option<String>,
    pub(crate) use_latest_restorable_time: Option<bool>,
    pub(crate) enable_cloudwatch_logs_exports: Option<Vec<String>>,
    pub(crate) global_cluster_identifier: Option<Value>,
    pub(crate) network_type: Option<String>,
    pub(crate) preferred_backup_window: Option<String>,
    pub(crate) backup_retention_period: Option<u16>,
    pub(crate) restore_type: Option<String>,
    pub(crate) master_user_secret_kms_key_id: Option<Value>,
    pub(crate) master_user_password: Option<String>,
    pub(crate) port: Option<u16>,
    pub(crate) storage_type: Option<String>,
    pub(crate) master_username: Option<String>,
    pub(crate) engine_version: Option<String>,
    pub(crate) kms_key_id: Option<Value>,
    pub(crate) source_db_cluster_identifier: Option<Value>,
    pub(crate) db_cluster_identifier: Option<Value>,
    pub(crate) preferred_maintenance_window: Option<String>,
    pub(crate) db_cluster_parameter_group_name: Option<Value>,
}

/// What a [`DBClusterProperties`] holds.
pub struct DBClusterPropertiesView {
    pub availability_zones: Option<Vec<String>>,
    pub manage_master_user_password: Option<bool>,
    pub db_subnet_group_name: Option<String>,
    pub storage_encrypted: Option<bool>,
    pub rotate_master_user_password: Option<bool>,
    pub restore_to_time: Option<String>,
    pub deletion_protection: Option<bool>,
    pub vpc_security_group_ids: Option<Vec<String>>,
    pub snapshot_identifier: Option<String>,
    pub use_latest_restorable_time: Option<bool>,
    pub enable_cloudwatch_logs_exports: Option<Vec<String>>,
    pub global_cluster_identifier: Option<Value>,
    pub network_type: Option<String>,
    pub preferred_backup_window: Option<String>,
    pub backup_retention_period: Option<u16>,
    pub restore_type: Option<String>,
    pub master_user_secret_kms_key_id: Option<Value>,
    pub master_user_password: Option<String>,
    pub port: Option<u16>,
    pub storage_type: Option<String>,
    pub master_username: Option<String>,
    pub engine_version: Option<String>,
    pub kms_key_id: Option<Value>,
    pub source_db_cluster_identifier: Option<Value>,
    pub db_cluster_identifier: Option<Value>,
    pub preferred_maintenance_window: Option<String>,
    pub db_cluster_parameter_group_name: Option<Value>,
}

impl View for DBClusterProperties {
    type V = DBClusterPropertiesView;

    open(crate) spec fn view(&self) -> DBClusterPropertiesView {
        DBClusterPropertiesView {
            availability_zones: self.availability_zones,
            manage_master_user_password: self.manage_master_user_password,
            db_subnet_group_name: self.db_subnet_group_name,
            storage_encrypted: self.storage_encrypted,
            rotate_master_user_password: self.rotate_master_user_password,
            restore_to_time: self.restore_to_time,
            deletion_protection: self.deletion_protection,
            vpc_security_group_ids: self.vpc_security_group_ids,
            snapshot_identifier: self.snapshot_identifier,
            use_latest_restorable_time: self.use_latest_restorable_time,
            enable_cloudwatch_logs_exports: self.enable_cloudwatch_logs_exports,
            global_cluster_identifier: self.global_cluster_identifier,
            network_type: self.network_type,
            preferred_backup_window: self.preferred_backup_window,
            backup_retention_period: self.backup_retention_period,
            restore_type: self.restore_type,
            master_user_secret_kms_key_id: self.master_user_secret_kms_key_id,
            master_user_password: self.master_user_password,
            port: self.port,
            storage_type: self.storage_type,
            master_username: self.master_username,
            engine_version: self.engine_version,
            kms_key_id: self.kms_key_id,
            source_db_cluster_identifier: self.source_db_cluster_identifier,
            db_cluster_identifier: self.db_cluster_identifier,
            preferred_maintenance_window: self.preferred_maintenance_window,
            db_cluster_parameter_group_name: self.db_cluster_parameter_group_name,
        }
    }
}

/// A parameter group of DocumentDB clusters.
pub struct DBClusterParameterGroup {
    pub(crate) id: Id,
    pub(crate) resource_id: String,
    pub(crate) resource_type: String,
    pub(crate) properties: DBClusterParameterGroupProperties,
}

/// What a [`DBClusterParameterGroup`] holds.
pub struct DBClusterParameterGroupView {
    pub id: Id,
    pub resource_id: String,
    pub resource_type: String,
    pub properties: DBClusterParameterGroupProperties,
}

impl View for DBClusterParameterGroup {
    type V = DBClusterParameterGroupView;

    open(crate) spec fn view(&self) -> DBClusterParameterGroupView {
        DBClusterParameterGroupView {
            id: self.id,
            resource_id: self.resource_id,
            resource_type: self.resource_type,
            properties: self.properties,
        }
    }
}

impl DBClusterParameterGroup {
    pub fn get_id(&self) -> (r: &Id)
        ensures
            *r == self@.id,
    {
        &self.id
    }

    pub fn get_resource_id(&self) -> (r: &str)
        ensures
            r@ == self@.resource_id@,
    {
        self.resource_id.as_str()
    }

    pub fn get_type(&self) -> (r: &str)
        ensures
            r@ == self@.resource_type@,
    {
        self.resource_type.as_str()
    }
}

/// Part of the DBClusterParameterGroupProperties configuration.
pub struct DBClusterParameterGroupProperties {
    pub(crate) description: String,
    pub(crate) family: String,
    pub(crate) parameters: Value,
    pub(crate) name: Option<String>,
}

/// What a [`DBClusterParameterGroupProperties`] holds.
pub struct DBClusterParameterGroupPropertiesView {
    pub description: String,
    pub family: String,
    pub parameters: Value,
    pub name: Option<String>,
}

impl View for DBClusterParameterGroupProperties {
    type V = DBClusterParameterGroupPropertiesView;

    open(crate) spec fn view(&self) -> DBClusterParameterGroupPropertiesView {
        DBClusterParameterGroupPropertiesView {
            description: self.description,
            family: self.family,
            parameters: self.parameters,
            name: self.name,
        }
    }
}

/// An instance of a DocumentDB cluster.
pub struct DBInstance {
    pub(crate) id: Id,
    pub(crate) resource_id: String,
    pub(crate) resource_type: String,
    pub(crate) properties: DBInstanceProperties,
}

/// What a [`DBInstance`] holds.
pub struct DBInstanceView {
    pub id: Id,
    pub resource_id: String,
    pub resource_type: String,
    pub properties: DBInstanceProperties,
}

impl View for DBInstance {
    type V = DBInstanceView;

    open(crate) spec fn view(&self) -> DBInstanceView {
        DBInstanceView {
            id: self.id,
            resource_id: self.resource_id,
            resource_type: self.resource_type,
            properties: self.properties,
        }
    }
}

impl DBInstance {
    pub fn get_id(&self) -> (r: &Id)
        ensures
            *r == self@.id,
    {
        &self.id
    }

    pub fn get_resource_id(&self) -> (r: &str)
        ensures
            r@ == self@.resource_id@,
    {
        self.resource_id.as_str()
    }

    pub fn get_type(&self) -> (r: &str)
        ensures
            r@ == self@.resource_type@,
    {
        self.resource_type.as_str()
    }
}

/// Part of the DBInstanceProperties configuration.
pub struct DBInstanceProperties {
    pub(crate) certificate_rotation_restart: Option<bool>,
    pub(crate) db_cluster_identifier: Value,
    pub(crate) db_instance_identifier: Option<String>,
    pub(crate) db_instance_class: String,
    pub(crate) ca_certificate_identifier: Option<String>,
    pub(crate) preferred_maintenance_window: Option<String>,
    pub(crate) auto_minor_version_upgrade: Option<bool>,
    pub(crate) availability_zone: Option<String>,
    pub(crate) enable_performance_insights: Option<bool>,
}

/// What a [`DBInstanceProperties`] holds.
pub struct DBInstancePropertiesView {
    pub certificate_rotation_restart: Option<bool>,
    pub db_cluster_identifier: Value,
    pub db_instance_identifier: Option<String>,
    pub db_instance_class: String,
    pub ca_certificate_identifier: Option<String>,
    pub preferred_maintenance_window: Option<String>,
    pub auto_minor_version_upgrade: Option<bool>,
    pub availability_zone: Option<String>,
    pub enable_performance_insights: Option<bool>,
}

impl View for DBInstanceProperties {
    type V = DBInstancePropertiesView;

    open(crate) spec fn view(&self) -> DBInstancePropertiesView {
        DBInstancePropertiesView {
            certificate_rotation_restart: self.certificate_rotation_restart,
            db_cluster_identifier: self.db_cluster_identifier,
            db_instance_identifier: self.db_instance_identifier,
            db_instance_class: self.db_instance_class,
            ca_certificate_identifier: self.ca_certificate_identifier,
            preferred_maintenance_window: self.preferred_maintenance_window,
            auto_minor_version_upgrade: self.auto_minor_version_upgrade,
            availability_zone: self.availability_zone,
            enable_performance_insights: self.enable_performance_insights,
        }
    }
}

/// The subnets that a DocumentDB cluster may use.
pub struct DBSubnetGroup {
    pub(crate) id: Id,
    pub(crate) resource_id: String,
    pub(crate) resource_type: String,
    pub(crate) properties: DBSubnetGroupProperties,
}

/// What a [`DBSubnetGroup`] holds.
pub struct DBSubnetGroupView {
    pub id: Id,
    pub resource_id: String,
    pub resource_type: String,
    pub properties: DBSubnetGroupProperties,
}

impl View for DBSubnetGroup {
    type V = DBSubnetGroupView;

    open(crate) spec fn view(&self) -> DBSubnetGroupView {
        DBSubnetGroupView {
            id: self.id,
            resource_id: self.resource_id,
            resource_type: self.resource_type,
            properties: self.properties,
        }
    }
}

impl DBSubnetGroup {
    pub fn get_id(&self) -> (r: &Id)
        ensures
            *r == self@.id,
    {
        &self.id
    }

    pub fn get_resource_id(&self) -> (r: &str)
        ensures
            r@ == self@.resource_id@,
    {
        self.resource_id.as_str()
    }

    pub fn get_type(&self) -> (r: &str)
        ensures
            r@ == self@.resource_type@,
    {
        self.resource_type.as_str()
    }
}

/// Part of the DBSubnetGroupProperties configuration.
pub struct DBSubnetGroupProperties {
    pub(crate) db_subnet_group_name: Option<String>,
    pub(crate) subnet_ids: Vec<String>,
    pub(crate) db_subnet_group_description: String,
}

/// What a [`DBSubnetGroupProperties`] holds.
pub struct DBSubnetGroupPropertiesView {
    pub db_subnet_group_name: Option<String>,
    pub subnet_ids: Vec<String>,
    pub db_subnet_group_description: String,
}

impl View for DBSubnetGroupProperties {
    type V = DBSubnetGroupPropertiesView;

    open(crate) spec fn view(&self) -> DBSubnetGroupPropertiesView {
        DBSubnetGroupPropertiesView {
            db_subnet_group_name: self.db_subnet_group_name,
            subnet_ids: self.subnet_ids,
            db_subnet_group_description: self.db_subnet_group_description,
        }
    }
}

/// A subscription to the events of DocumentDB resources.
pub struct EventSubscription {
    pub(crate) id: Id,
    pub(crate) resource_id: String,
    pub(crate) resource_type: String,
    pub(crate) properties: EventSubscriptionProperties,
}

/// What a [`EventSubscription`] holds.
pub struct EventSubscriptionView {
    pub id: Id,
    pub resource_id: String,
    pub resource_type: String,
    pub properties: EventSubscriptionProperties,
}

impl View for EventSubscription {
    type V = EventSubscriptionView;

    open(crate) spec fn view(&self) -> EventSubscriptionView {
        EventSubscriptionView {
            id: self.id,
            resource_id: self.resource_id,
            resource_type: self.resource_type,
            properties: self.properties,
        }
    }
}

impl EventSubscription {
    pub fn get_id(&self) -> (r: &Id)
        ensures
            *r == self@.id,
    {
        &self.id
    }

    pub fn get_resource_id(&self) -> (r: &str)
        ensures
            r@ == self@.resource_id@,
    {
        self.resource_id.as_str()
    }

    pub fn get_type(&self) -> (r: &str)
        ensures
            r@ == self@.resource_type@,
    {
        self.resource_type.as_str()
    }
}

/// Part of the EventSubscriptionProperties configuration.
pub struct EventSubscriptionProperties {
    pub(crate) enabled: Option<bool>,
    pub(crate) sns_topic_arn: Value,
    pub(crate) event_categories: Option<Vec<String>>,
    pub(crate) source_ids: Option<Vec<Value>>,
    pub(crate) source_type: Option<String>,
    pub(crate) subscription_name: Option<String>,
}

/// What a [`EventSubscriptionProperties`] holds.
pub struct EventSubscriptionPropertiesView {
    pub enabled: Option<bool>,
    pub sns_topic_arn: Value,
    pub event_categories: Option<Vec<String>>,
    pub source_ids: Option<Vec<Value>>,
    pub source_type: Option<String>,
    pub subscription_name: Option<String>,
}

impl View for EventSubscriptionProperties {
    type V = EventSubscriptionPropertiesView;

    open(crate) spec fn view(&self) -> EventSubscriptionPropertiesView {
        EventSubscriptionPropertiesView {
            enabled: self.enabled,
            sns_topic_arn: self.sns_topic_arn,
            event_categories: self.event_categories,
            source_ids: self.source_ids,
            source_type: self.source_type,
            subscription_name: self.subscription_name,
        }
    }
}

/// A DocumentDB cluster that spans regions.
pub struct GlobalCluster {
    pub(crate) id: Id,
    pub(crate) resource_id: String,
    pub(crate) resource_type: String,
    pub(crate) properties: GlobalClusterProperties,
}

/// What a [`GlobalCluster`] holds.
pub struct GlobalClusterView {
    pub id: Id,
    pub resource_id: String,
    pub resource_type: String,
    pub properties: GlobalClusterProperties,
}

impl View for GlobalCluster {
    type V = GlobalClusterView;

    open(crate) spec fn view(&self) -> GlobalClusterView {
        GlobalClusterView {
            id: self.id,
            resource_id: self.resource_id,
            resource_type: self.resource_type,
            properties: self.properties,
        }
    }
}

impl GlobalCluster {
    pub fn get_id(&self) -> (r: &Id)
        ensures
            *r == self@.id,
    {
        &self.id
    }

    pub fn get_resource_id(&self) -> (r: &str)
        ensures
            r@ == self@.resource_id@,
    {
        self.resource_id.as_str()
    }

    pub fn get_type(&self) -> (r: &str)
        ensures
            r@ == self@.resource_type@,
    {
        self.resource_type.as_str()
    }
}

/// Part of the GlobalClusterProperties configuration.
pub struct GlobalClusterProperties {
    pub(crate) engine: Option<String>,
    pub(crate) global_cluster_identifier: String,
    pub(crate) source_db_cluster_identifier: Option<Value>,
    pub(crate) storage_encrypted: Option<bool>,
    pub(crate) deletion_protection: Option<bool>,
    pub(crate) engine_version: Option<String>,
}

/// What a [`GlobalClusterProperties`] holds.
pub struct GlobalClusterPropertiesView {
    pub engine: Option<String>,
    pub global_cluster_identifier: String,
    pub source_db_cluster_identifier: Option<Value>,
    pub storage_encrypted: Option<bool>,
    pub deletion_protection: Option<bool>,
    pub engine_version: Option<String>,
}

impl View for GlobalClusterProperties {
    type V = GlobalClusterPropertiesView;

    open(crate) spec fn view(&self) -> GlobalClusterPropertiesView {
        GlobalClusterPropertiesView {
            engine: self.engine,
            global_cluster_identifier: self.global_cluster_identifier,
            source_db_cluster_identifier: self.source_db_cluster_identifier,
            storage_encrypted: self.storage_encrypted,
            deletion_protection: self.deletion_protection,
            engine_version: self.engine_version,
        }
    }
}

} // verus!
