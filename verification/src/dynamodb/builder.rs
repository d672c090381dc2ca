use crate::dynamodb::{
    AttributeDefinition, KeySchema, OnDemandThroughput, ProvisionedThroughput, Table, TableProperties, TableRef,
};
use crate::shared::{Id, UpdateDeletePolicyDTO};
use crate::stack::{is_generated_id, Resource, StackBuilder};
use crate::wrappers::{NonZeroNumber, StringWithOnlyAlphaNumericsAndUnderscores};
use std::marker::PhantomData;
use vstd::prelude::*;

verus! {

/// How a table is billed.
pub enum BillingMode {
    PayPerRequest,
    Provisioned,
}

/// How CloudFormation writes a billing mode.
pub open spec fn billing_mode_name(m: BillingMode) -> Seq<char> {
    match m {
        BillingMode::PayPerRequest => "PAY_PER_REQUEST"@,
        BillingMode::Provisioned => "PROVISIONED"@,
    }
}

impl vstd::std_specs::convert::FromSpecImpl<BillingMode> for String {
    open spec fn obeys_from_spec() -> bool {
        false
    }

    open spec fn from_spec(v: BillingMode) -> String {
        vstd::pervasive::arbitrary()
    }
}

impl From<BillingMode> for String {
    fn from(value: BillingMode) -> (r: String)
        ensures
            r@ == billing_mode_name(value),
    {
        match value {
            BillingMode::PayPerRequest => String::from_str("PAY_PER_REQUEST"),
            BillingMode::Provisioned => String::from_str("PROVISIONED"),
        }
    }
}

/// The type of a key attribute.
pub enum AttributeType {
    String,
    Number,
    Binary,
}

/// How CloudFormation writes an attribute type.
pub open spec fn attribute_type_name(t: AttributeType) -> Seq<char> {
    match t {
        AttributeType::String => "S"@,
        AttributeType::Number => "N"@,
        AttributeType::Binary => "B"@,
    }
}

impl vstd::std_specs::convert::FromSpecImpl<AttributeType> for String {
    open spec fn obeys_from_spec() -> bool {
        false
    }

    open spec fn from_spec(v: AttributeType) -> String {
        vstd::pervasive::arbitrary()
    }
}

impl From<AttributeType> for String {
    fn from(value: AttributeType) -> (r: String)
        ensures
            r@ == attribute_type_name(value),
    {
        match value {
            AttributeType::String => String::from_str("S"),
            AttributeType::Number => String::from_str("N"),
            AttributeType::Binary => String::from_str("B"),
        }
    }
}

/// A key attribute of a table: its name and type.
pub struct Key {
    pub(crate) key: String,
    pub(crate) key_type: AttributeType,
}

/// What a [`Key`] holds.
pub struct KeyView {
    pub key: String,
    pub key_type: AttributeType,
}

impl View for Key {
    type V = KeyView;

    open(crate) spec fn view(&self) -> KeyView {
        KeyView { key: self.key, key_type: self.key_type }
    }
}

impl Key {
    pub fn new(key: StringWithOnlyAlphaNumericsAndUnderscores, key_type: AttributeType) -> (r: Self)
        ensures
            r@.key == key.0,
            r@.key_type == key_type,
    {
        Self { key: key.0, key_type }
    }
}

/// The states of a [`TableBuilder`]: which billing mode was chosen, and which capacities are set.
pub trait TableBuilderState {}

pub struct StartState {}

pub struct ProvisionedStateStart {}

pub struct ProvisionedStateReadSet {}

pub struct ProvisionedStateWriteSet {}

pub struct PayPerRequestState {}

impl TableBuilderState for StartState {}

impl TableBuilderState for ProvisionedStateStart {}

impl TableBuilderState for ProvisionedStateReadSet {}

impl TableBuilderState for ProvisionedStateWriteSet {}

impl TableBuilderState for PayPerRequestState {}

/// Builder for DynamoDB tables.
///
/// Supports both pay-per-request and provisioned billing modes. The builder enforces
/// correct configuration based on the chosen billing mode.
pub struct TableBuilder<T: TableBuilderState> {
    pub(crate) state: PhantomData<T>,
    pub(crate) id: Id,
    pub(crate) table_name: Option<String>,
    pub(crate) partition_key: Option<Key>,
    pub(crate) sort_key: Option<Key>,
    pub(crate) billing_mode: Option<BillingMode>,
    pub(crate) read_capacity: Option<u32>,
    pub(crate) write_capacity: Option<u32>,
    pub(crate) max_read_capacity: Option<u32>,
    pub(crate) max_write_capacity: Option<u32>,
}

/// What a [`TableBuilder`] holds.
pub struct TableBuilderView {
    pub id: Id,
    pub table_name: Option<String>,
    pub partition_key: Option<Key>,
    pub sort_key: Option<Key>,
    pub billing_mode: Option<BillingMode>,
    pub read_capacity: Option<u32>,
    pub write_capacity: Option<u32>,
    pub max_read_capacity: Option<u32>,
    pub max_write_capacity: Option<u32>,
}

impl<T: TableBuilderState> View for TableBuilder<T> {
    type V = TableBuilderView;

    open(crate) spec fn view(&self) -> TableBuilderView {
        TableBuilderView {
            id: self.id,
            table_name: self.table_name,
            partition_key: self.partition_key,
            sort_key: self.sort_key,
            billing_mode: self.billing_mode,
            read_capacity: self.read_capacity,
            write_capacity: self.write_capacity,
            max_read_capacity: self.max_read_capacity,
            max_write_capacity: self.max_write_capacity,
        }
    }
}

/// The key schema of a table: the partition key as `HASH`, then the sort key, if any, as `RANGE`.
pub open spec fn key_schema_of(partition: KeyView, sort: Option<Key>) -> Seq<(Seq<char>, Seq<char>)> {
    let first = seq![(partition.key@, "HASH"@)];
    match sort {
        Some(k) => first.push((k@.key@, "RANGE"@)),
        None => first,
    }
}

/// The attribute definitions of a table: the names and types of its keys.
pub open spec fn attributes_of(partition: KeyView, sort: Option<Key>) -> Seq<(Seq<char>, Seq<char>)> {
    let first = seq![(partition.key@, attribute_type_name(partition.key_type))];
    match sort {
        Some(k) => first.push((k@.key@, attribute_type_name(k@.key_type))),
        None => first,
    }
}

/// The views of a key schema.
pub open spec fn key_schema_views(s: Seq<KeySchema>) -> Seq<(Seq<char>, Seq<char>)> {
    s.map_values(|k: KeySchema| (k@.attribute_name@, k@.key_type@))
}

/// The views of attribute definitions.
pub open spec fn attribute_views(s: Seq<AttributeDefinition>) -> Seq<(Seq<char>, Seq<char>)> {
    s.map_values(|a: AttributeDefinition| (a@.attribute_name@, a@.attribute_type@))
}

/// The table that a builder in the state `b` makes, with logical id `resource_id`.
pub open spec fn table_made_by(t: Table, b: TableBuilderView, resource_id: Seq<char>) -> bool {
    let props = t@.properties@;
    let billing = b.billing_mode.unwrap();
    &&& t@.id == b.id
    &&& t@.resource_id@ == resource_id
    &&& t@.resource_type@ == "AWS::DynamoDB::Table"@
    &&& key_schema_views(props.key_schema@) == key_schema_of(b.partition_key.unwrap()@, b.sort_key)
    &&& attribute_views(props.attribute_definitions@) == attributes_of(b.partition_key.unwrap()@, b.sort_key)
    &&& props.billing_mode@ == billing_mode_name(billing)
    &&& match billing {
        BillingMode::Provisioned => {
            &&& props.provisioned_throughput matches Some(p) && p@.read_capacity == b.read_capacity.unwrap()
                && p@.write_capacity == b.write_capacity.unwrap()
            &&& props.on_demand_throughput is None
        },
        BillingMode::PayPerRequest => {
            &&& props.provisioned_throughput is None
            &&& props.on_demand_throughput matches Some(o) && o@.max_read_capacity == b.max_read_capacity
                && o@.max_write_capacity == b.max_write_capacity
        },
    }
    &&& t@.update_delete_policy_dto@.deletion_policy is None
    &&& t@.update_delete_policy_dto@.update_replace_policy is None
}

impl TableBuilder<StartState> {
    pub fn new(id: &str, key: Key) -> (r: Self)
        ensures
            r@.id.0@ == id@,
            r@.table_name is None,
            r@.partition_key == Some(key),
            r@.sort_key is None,
            r@.billing_mode is None,
            r@.read_capacity is None,
            r@.write_capacity is None,
            r@.max_read_capacity is None,
            r@.max_write_capacity is None,
    {
        TableBuilder {
            state: PhantomData,
            id: Id(String::from_str(id)),
            table_name: None,
            partition_key: Some(key),
            sort_key: None,
            billing_mode: None,
            read_capacity: None,
            write_capacity: None,
            max_read_capacity: None,
            max_write_capacity: None,
        }
    }
}

impl<T: TableBuilderState> TableBuilder<T> {
    pub fn sort_key(self, key: Key) -> (r: Self)
        ensures
            r@ == (TableBuilderView { sort_key: Some(key), ..self@ }),
    {
        Self { sort_key: Some(key), ..self }
    }

    pub fn table_name(self, name: StringWithOnlyAlphaNumericsAndUnderscores) -> (r: Self)
        ensures
            r@ == (TableBuilderView { table_name: Some(name.0), ..self@ }),
    {
        Self { table_name: Some(name.0), ..self }
    }

    /// Configures the table to use pay-per-request billing.
    ///
    /// With this mode, you pay per request and can optionally set max throughput limits.
    pub fn pay_per_request_billing(self) -> (r: TableBuilder<PayPerRequestState>)
        ensures
            r@ == (TableBuilderView {
                billing_mode: Some(BillingMode::PayPerRequest),
                read_capacity: None,
                write_capacity: None,
                ..self@
            }),
    {
        TableBuilder {
            billing_mode: Some(BillingMode::PayPerRequest),
            state: PhantomData,
            id: self.id,
            table_name: self.table_name,
            partition_key: self.partition_key,
            sort_key: self.sort_key,
            max_read_capacity: self.max_read_capacity,
            max_write_capacity: self.max_write_capacity,
            read_capacity: None,
            write_capacity: None,
        }
    }

    /// Configures the table to use provisioned billing.
    ///
    /// With this mode, you must specify read and write capacity units.
    pub fn provisioned_billing(self) -> (r: TableBuilder<ProvisionedStateStart>)
        ensures
            r@ == (TableBuilderView {
                billing_mode: Some(BillingMode::Provisioned),
                max_read_capacity: None,
                max_write_capacity: None,
                ..self@
            }),
    {
        TableBuilder {
            billing_mode: Some(BillingMode::Provisioned),
            state: PhantomData,
            id: self.id,
            table_name: self.table_name,
            partition_key: self.partition_key,
            sort_key: self.sort_key,
            read_capacity: self.read_capacity,
            write_capacity: self.write_capacity,
            max_read_capacity: None,
            max_write_capacity: None,
        }
    }

    fn build_internal(self, stack_builder: &mut StackBuilder) -> (r: TableRef)
        requires
            self@.partition_key is Some,
            self@.billing_mode is Some,
            self@.billing_mode == Some(BillingMode::Provisioned) ==> self@.read_capacity is Some
                && self@.write_capacity is Some,
        ensures
            is_generated_id(r@.resource_id, "DynamoDBTable"@),
            r@.ref_name is None,
            r@.arn_value is None,
            final(stack_builder)@.tags == old(stack_builder)@.tags,
            final(stack_builder)@.outputs == old(stack_builder)@.outputs,
            final(stack_builder)@.resources.drop_last() == old(stack_builder)@.resources,
            final(stack_builder)@.resources.len() == old(stack_builder)@.resources.len() + 1,
            final(stack_builder)@.resources.last() matches Resource::Table(t) && table_made_by(t, self@, r@.resource_id),
    {
        let ghost b = self@;
        let partition = self.partition_key.unwrap();
        let Key { key, key_type } = partition;
        let mut key_schema: Vec<KeySchema> = Vec::new();
        key_schema.push(KeySchema { attribute_name: key.clone(), key_type: String::from_str("HASH") });
        let mut key_attributes: Vec<AttributeDefinition> = Vec::new();
        key_attributes.push(AttributeDefinition { attribute_name: key, attribute_type: key_type.into() });
        let ghost first_schema = key_schema@;
        let ghost first_attributes = key_attributes@;
        proof {
            assert(key_schema_views(first_schema) =~= seq![(b.partition_key.unwrap()@.key@, "HASH"@)]);
            assert(attribute_views(first_attributes) =~= seq![
                (b.partition_key.unwrap()@.key@, attribute_type_name(b.partition_key.unwrap()@.key_type)),
            ]);
        }
        match self.sort_key {
            Some(sort) => {
                let Key { key, key_type } = sort;
                key_schema.push(KeySchema { attribute_name: key.clone(), key_type: String::from_str("RANGE") });
                key_attributes.push(AttributeDefinition { attribute_name: key, attribute_type: key_type.into() });
                proof {
                    assert(key_schema_views(key_schema@) =~= key_schema_views(first_schema).push(
                        (b.sort_key.unwrap()@.key@, "RANGE"@),
                    ));
                    assert(attribute_views(key_attributes@) =~= attribute_views(first_attributes).push(
                        (b.sort_key.unwrap()@.key@, attribute_type_name(b.sort_key.unwrap()@.key_type)),
                    ));
                }
            },
            None => {},
        }
        let billing_mode = self.billing_mode.unwrap();
        let provisioned_throughput = match billing_mode {
            BillingMode::Provisioned => Some(
                ProvisionedThroughput {
                    read_capacity: self.read_capacity.unwrap(),
                    write_capacity: self.write_capacity.unwrap(),
                },
            ),
            BillingMode::PayPerRequest => None,
        };
        let on_demand_throughput = match billing_mode {
            BillingMode::PayPerRequest => Some(
                OnDemandThroughput {
                    max_read_capacity: self.max_read_capacity,
                    max_write_capacity: self.max_write_capacity,
                },
            ),
            BillingMode::Provisioned => None,
        };
        let properties = TableProperties {
            key_schema,
            attribute_definitions: key_attributes,
            billing_mode: billing_mode.into(),
            provisioned_throughput,
            on_demand_throughput,
        };
        let resource_id = Resource::generate_id("DynamoDBTable");
        let table = Table {
            id: self.id,
            resource_id: resource_id.clone(),
            resource_type: String::from_str("AWS::DynamoDB::Table"),
            properties,
            update_delete_policy_dto: UpdateDeletePolicyDTO { deletion_policy: None, update_replace_policy: None },
        };
        let ghost old_resources = stack_builder@.resources;
        stack_builder.add_resource(Resource::Table(table));
        proof {
            assert(stack_builder@.resources.drop_last() =~= old_resources);
        }
        TableRef::internal_new(resource_id)
    }
}

impl TableBuilder<PayPerRequestState> {
    pub fn max_read_capacity(self, capacity: NonZeroNumber) -> (r: Self)
        ensures
            r@ == (TableBuilderView { max_read_capacity: Some(capacity.0), ..self@ }),
    {
        Self { max_read_capacity: Some(capacity.0), ..self }
    }

    pub fn max_write_capacity(self, capacity: NonZeroNumber) -> (r: Self)
        ensures
            r@ == (TableBuilderView { max_write_capacity: Some(capacity.0), ..self@ }),
    {
        Self { max_write_capacity: Some(capacity.0), ..self }
    }

    /// Adds the table to the stack and returns a reference to it.
    pub fn build(self, stack_builder: &mut StackBuilder) -> (r: TableRef)
        requires
            self@.partition_key is Some,
            self@.billing_mode == Some(BillingMode::PayPerRequest),
        ensures
            is_generated_id(r@.resource_id, "DynamoDBTable"@),
            r@.ref_name is None,
            r@.arn_value is None,
            final(stack_builder)@.tags == old(stack_builder)@.tags,
            final(stack_builder)@.outputs == old(stack_builder)@.outputs,
            final(stack_builder)@.resources.drop_last() == old(stack_builder)@.resources,
            final(stack_builder)@.resources.len() == old(stack_builder)@.resources.len() + 1,
            final(stack_builder)@.resources.last() matches Resource::Table(t) && table_made_by(t, self@, r@.resource_id),
    {
        self.build_internal(stack_builder)
    }
}

impl TableBuilder<ProvisionedStateStart> {
    /// Sets the read capacity. Like the table it builds, it also carries the read capacity over
    /// as the maximum read capacity, which provisioned billing does not use.
    pub fn read_capacity(self, capacity: NonZeroNumber) -> (r: TableBuilder<ProvisionedStateReadSet>)
        ensures
            r@ == (TableBuilderView {
                read_capacity: Some(capacity.0),
                max_read_capacity: self@.read_capacity,
                ..self@
            }),
    {
        TableBuilder {
            read_capacity: Some(capacity.0),
            state: PhantomData,
            id: self.id,
            table_name: self.table_name,
            partition_key: self.partition_key,
            sort_key: self.sort_key,
            billing_mode: self.billing_mode,
            write_capacity: self.write_capacity,
            max_read_capacity: self.read_capacity,
            max_write_capacity: self.max_write_capacity,
        }
    }
}

impl TableBuilder<ProvisionedStateReadSet> {
    pub fn write_capacity(self, capacity: NonZeroNumber) -> (r: TableBuilder<ProvisionedStateWriteSet>)
        ensures
            r@ == (TableBuilderView { write_capacity: Some(capacity.0), ..self@ }),
    {
        TableBuilder {
            write_capacity: Some(capacity.0),
            state: PhantomData,
            id: self.id,
            table_name: self.table_name,
            partition_key: self.partition_key,
            sort_key: self.sort_key,
            billing_mode: self.billing_mode,
            read_capacity: self.read_capacity,
            max_read_capacity: self.max_read_capacity,
            max_write_capacity: self.max_write_capacity,
        }
    }
}

impl TableBuilder<ProvisionedStateWriteSet> {
    /// Adds the table to the stack and returns a reference to it.
    pub fn build(self, stack_builder: &mut StackBuilder) -> (r: TableRef)
        requires
            self@.partition_key is Some,
            self@.billing_mode == Some(BillingMode::Provisioned),
            self@.read_capacity is Some,
            self@.write_capacity is Some,
        ensures
            is_generated_id(r@.resource_id, "DynamoDBTable"@),
            r@.ref_name is None,
            r@.arn_value is None,
            final(stack_builder)@.tags == old(stack_builder)@.tags,
            final(stack_builder)@.outputs == old(stack_builder)@.outputs,
            final(stack_builder)@.resources.drop_last() == old(stack_builder)@.resources,
            final(stack_builder)@.resources.len() == old(stack_builder)@.resources.len() + 1,
            final(stack_builder)@.resources.last() matches Resource::Table(t) && table_made_by(t, self@, r@.resource_id),
    {
        self.build_internal(stack_builder)
    }
}

} // verus!
