//! DynamoDB: tables.
mod builder;
mod dto;
mod template;

pub use builder::{AttributeType, BillingMode, Key, KeyView, PayPerRequestState, ProvisionedStateReadSet, ProvisionedStateStart, ProvisionedStateWriteSet, StartState, TableBuilder, TableBuilderState, TableBuilderView, attribute_type_name, attribute_views, attributes_of, billing_mode_name, key_schema_of, key_schema_views, table_made_by};
pub use dto::{AttributeDefinition, AttributeDefinitionView, KeySchema, KeySchemaView, OnDemandThroughput, OnDemandThroughputView, ProvisionedThroughput, ProvisionedThroughputView, Table, TableProperties, TablePropertiesView, TableRef, TableView};
