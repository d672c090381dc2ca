use crate::json::Value;
use crate::shared::{arn_json, clone_opt, opt_view, ref_json, Id, RefView, RefWithIdView};
use crate::intrinsic::{get_arn, get_att, get_att_json, get_ref, string_value};
use crate::shared::UpdateDeletePolicyDTO;
use vstd::prelude::*;

verus! {

/// A reference to a resource, which other resources use to depend on it.
pub struct TableRef {
    pub(crate) resource_id: String,
    pub(crate) ref_name: Option<String>,
    pub(crate) arn_value: Option<String>,
}

impl View for TableRef {
    type V = RefView;

    open(crate) spec fn view(&self) -> RefView {
        RefView {
            resource_id: self.resource_id@,
            ref_name: opt_view(self.ref_name),
            arn_value: opt_view(self.arn_value),
        }
    }
}

impl TableRef {
    pub(crate) fn internal_new(resource_id: String) -> (r: Self)
        ensures
            r@ == (RefView { resource_id: resource_id@, ref_name: None, arn_value: None }),
    {
        Self { resource_id, ref_name: None, arn_value: None }
    }

    /// A reference to a resource that exists outside the stack.
    pub fn new(resource_id: &str, ref_name: &str, arn_value: &str) -> (r: Self)
        ensures
            r@ == (RefView { resource_id: resource_id@, ref_name: Some(ref_name@), arn_value: Some(arn_value@) }),
    {
        Self {
            resource_id: String::from_str(resource_id),
            ref_name: Some(String::from_str(ref_name)),
            arn_value: Some(String::from_str(arn_value)),
        }
    }

    pub(crate) fn get_resource_id(&self) -> (r: &str)
        ensures
            r@ == self@.resource_id,
    {
        self.resource_id.as_str()
    }

    /// What `Ref` gives for the resource: the name it was imported with, or the intrinsic function.
    pub fn get_ref(&self) -> (r: Value)
        ensures
            r@ == ref_json(self@.resource_id, self@.ref_name),
    {
        match &self.ref_name {
            Some(val) => string_value(val.as_str()),
            None => get_ref(self.resource_id.as_str()),
        }
    }

    /// The ARN of the resource: the one it was imported with, or the intrinsic function.
    pub fn get_arn(&self) -> (r: Value)
        ensures
            r@ == arn_json(self@.resource_id, self@.arn_value),
    {
        match &self.arn_value {
            Some(val) => string_value(val.as_str()),
            None => get_arn(self.resource_id.as_str()),
        }
    }

    /// An attribute of the resource; not available for an imported resource.
    pub fn get_att(&self, id: &str) -> (r: Value)
        requires
            !(self@.ref_name is Some && self@.arn_value is Some),
        ensures
            r@ == get_att_json(self@.resource_id, id@),
    {
        get_att(self.resource_id.as_str(), id)
    }
}

impl Clone for TableRef {
    fn clone(&self) -> (r: Self)
        ensures
            r@ == self@,
    {
        Self {
            resource_id: self.resource_id.clone(),
            ref_name: clone_opt(&self.ref_name),
            arn_value: clone_opt(&self.arn_value),
        }
    }
}

/// A DynamoDB table resource.
pub struct Table {
    pub(crate) id: Id,
    pub(crate) resource_id: String,
    pub(crate) resource_type: String,
    pub(crate) properties: TableProperties,
    pub(crate) update_delete_policy_dto: UpdateDeletePolicyDTO,
}

/// What a [`Table`] holds.
pub struct TableView {
    pub id: Id,
    pub resource_id: String,
    pub resource_type: String,
    pub properties: TableProperties,
    pub update_delete_policy_dto: UpdateDeletePolicyDTO,
}

impl View for Table {
    type V = TableView;

    open(crate) spec fn view(&self) -> TableView {
        TableView {
            id: self.id,
            resource_id: self.resource_id,
            resource_type: self.resource_type,
            properties: self.properties,
            update_delete_policy_dto: self.update_delete_policy_dto,
        }
    }
}

impl Table {
    pub fn get_id(&self) -> (r: &Id)
        ensures
            *r == self@.id,
    {
        &self.id
    }

    pub fn get_resource_id(&self) -> (r: &str)
        ensures
            r@ == self@.resource_id@,
    {
        self.resource_id.as_str()
    }

    pub fn get_type(&self) -> (r: &str)
        ensures
            r@ == self@.resource_type@,
    {
        self.resource_type.as_str()
    }
}

/// The properties of a DynamoDB table.
pub struct TableProperties {
    pub(crate) key_schema: Vec<KeySchema>,
    pub(crate) attribute_definitions: Vec<AttributeDefinition>,
    pub(crate) billing_mode: String,
    pub(crate) provisioned_throughput: Option<ProvisionedThroughput>,
    pub(crate) on_demand_throughput: Option<OnDemandThroughput>,
}

/// What a [`TableProperties`] holds.
pub struct TablePropertiesView {
    pub key_schema: Vec<KeySchema>,
    pub attribute_definitions: Vec<AttributeDefinition>,
    pub billing_mode: String,
    pub provisioned_throughput: Option<ProvisionedThroughput>,
    pub on_demand_throughput: Option<OnDemandThroughput>,
}

impl View for TableProperties {
    type V = TablePropertiesView;

    open(crate) spec fn view(&self) -> TablePropertiesView {
        TablePropertiesView {
            key_schema: self.key_schema,
            attribute_definitions: self.attribute_definitions,
            billing_mode: self.billing_mode,
            provisioned_throughput: self.provisioned_throughput,
            on_demand_throughput: self.on_demand_throughput,
        }
    }
}

/// The name and type of a key attribute.
pub struct AttributeDefinition {
    pub(crate) attribute_name: String,
    pub(crate) attribute_type: String,
}

/// What a [`AttributeDefinition`] holds.
pub struct AttributeDefinitionView {
    pub attribute_name: String,
    pub attribute_type: String,
}

impl View for AttributeDefinition {
    type V = AttributeDefinitionView;

    open(crate) spec fn view(&self) -> AttributeDefinitionView {
        AttributeDefinitionView {
            attribute_name: self.attribute_name,
            attribute_type: self.attribute_type,
        }
    }
}

/// A key attribute and its role in the key (`HASH` or `RANGE`).
pub struct KeySchema {
    pub(crate) attribute_name: String,
    pub(crate) key_type: String,
}

/// What a [`KeySchema`] holds.
pub struct KeySchemaView {
    pub attribute_name: String,
    pub key_type: String,
}

impl View for KeySchema {
    type V = KeySchemaView;

    open(crate) spec fn view(&self) -> KeySchemaView {
        KeySchemaView {
            attribute_name: self.attribute_name,
            key_type: self.key_type,
        }
    }
}

/// The read and write capacity of a table with provisioned billing.
pub struct ProvisionedThroughput {
    pub(crate) read_capacity: u32,
    pub(crate) write_capacity: u32,
}

/// What a [`ProvisionedThroughput`] holds.
pub struct ProvisionedThroughputView {
    pub read_capacity: u32,
    pub write_capacity: u32,
}

impl View for ProvisionedThroughput {
    type V = ProvisionedThroughputView;

    open(crate) spec fn view(&self) -> ProvisionedThroughputView {
        ProvisionedThroughputView {
            read_capacity: self.read_capacity,
            write_capacity: self.write_capacity,
        }
    }
}

/// The optional maximum read and write request units of a table with pay-per-request billing.
pub struct OnDemandThroughput {
    pub(crate) max_read_capacity: Option<u32>,
    pub(crate) max_write_capacity: Option<u32>,
}

/// What a [`OnDemandThroughput`] holds.
pub struct OnDemandThroughputView {
    pub max_read_capacity: Option<u32>,
    pub max_write_capacity: Option<u32>,
}

impl View for OnDemandThroughput {
    type V = OnDemandThroughputView;

    open(crate) spec fn view(&self) -> OnDemandThroughputView {
        OnDemandThroughputView {
            max_read_capacity: self.max_read_capacity,
            max_write_capacity: self.max_write_capacity,
        }
    }
}

} // verus!
