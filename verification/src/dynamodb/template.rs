//! How the module's resources appear in a CloudFormation template.
use crate::dynamodb::{AttributeDefinition, KeySchema, OnDemandThroughput, ProvisionedThroughput, Table, TableProperties};
use crate::json::{member, opt_member, push_json, push_opt_json, JsonView, ToJson, Value};
use vstd::prelude::*;

verus! {

impl ToJson for Table {
    open(crate) spec fn as_json(&self) -> JsonView {
        JsonView::Object(
            Seq::empty()
                + member("Type"@, &self.resource_type)
                + member("Properties"@, &self.properties)
                + self.update_delete_policy_dto.json_members(),
        )
    }

    fn to_json(&self) -> (r: Value) {
        let mut members: Vec<(String, Value)> = Vec::new();
        push_json(&mut members, "Type", &self.resource_type);
        push_json(&mut members, "Properties", &self.properties);
        self.update_delete_policy_dto.push_json_members(&mut members);
        Value::Object(members)
    }
}

impl ToJson for TableProperties {
    open(crate) spec fn as_json(&self) -> JsonView {
        JsonView::Object(
            Seq::empty()
                + member("KeySchema"@, &self.key_schema)
                + member("AttributeDefinitions"@, &self.attribute_definitions)
                + member("BillingMode"@, &self.billing_mode)
                + opt_member("ProvisionedThroughput"@, &self.provisioned_throughput)
                + opt_member("OnDemandThroughput"@, &self.on_demand_throughput),
        )
    }

    fn to_json(&self) -> (r: Value) {
        let mut members: Vec<(String, Value)> = Vec::new();
        push_json(&mut members, "KeySchema", &self.key_schema);
        push_json(&mut members, "AttributeDefinitions", &self.attribute_definitions);
        push_json(&mut members, "BillingMode", &self.billing_mode);
        push_opt_json(&mut members, "ProvisionedThroughput", &self.provisioned_throughput);
        push_opt_json(&mut members, "OnDemandThroughput", &self.on_demand_throughput);
        Value::Object(members)
    }
}

impl ToJson for AttributeDefinition {
    open(crate) spec fn as_json(&self) -> JsonView {
        JsonView::Object(
            Seq::empty()
                + member("AttributeName"@, &self.attribute_name)
                + member("AttributeType"@, &self.attribute_type),
        )
    }

    fn to_json(&self) -> (r: Value) {
        let mut members: Vec<(String, Value)> = Vec::new();
        push_json(&mut members, "AttributeName", &self.attribute_name);
        push_json(&mut members, "AttributeType", &self.attribute_type);
        Value::Object(members)
    }
}

impl ToJson for KeySchema {
    open(crate) spec fn as_json(&self) -> JsonView {
        JsonView::Object(
            Seq::empty()
                + member("AttributeName"@, &self.attribute_name)
                + member("KeyType"@, &self.key_type),
        )
    }

    fn to_json(&self) -> (r: Value) {
        let mut members: Vec<(String, Value)> = Vec::new();
        push_json(&mut members, "AttributeName", &self.attribute_name);
        push_json(&mut members, "KeyType", &self.key_type);
        Value::Object(members)
    }
}

impl ToJson for ProvisionedThroughput {
    open(crate) spec fn as_json(&self) -> JsonView {
        JsonView::Object(
            Seq::empty()
                + member("ReadCapacityUnits"@, &self.read_capacity)
                + member("WriteCapacityUnits"@, &self.write_capacity),
        )
    }

    fn to_json(&self) -> (r: Value) {
        let mut members: Vec<(String, Value)> = Vec::new();
        push_json(&mut members, "ReadCapacityUnits", &self.read_capacity);
        push_json(&mut members, "WriteCapacityUnits", &self.write_capacity);
        Value::Object(members)
    }
}

impl ToJson for OnDemandThroughput {
    open(crate) spec fn as_json(&self) -> JsonView {
        JsonView::Object(
            Seq::empty()
                + opt_member("MaxReadRequestUnits"@, &self.max_read_capacity)
                + opt_member("MaxWriteRequestUnits"@, &self.max_write_capacity),
        )
    }

    fn to_json(&self) -> (r: Value) {
        let mut members: Vec<(String, Value)> = Vec::new();
        push_opt_json(&mut members, "MaxReadRequestUnits", &self.max_read_capacity);
        push_opt_json(&mut members, "MaxWriteRequestUnits", &self.max_write_capacity);
        Value::Object(members)
    }
}

} // verus!
