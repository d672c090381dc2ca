use rusty_cdk::documentdb::{DBSubnetGroupBuilder, GlobalClusterBuilder};
use rusty_cdk::ecr::RegistryPolicyBuilder;
use rusty_cdk::iam::{Effect, StatementBuilder};
use rusty_cdk::json::{ToJson, Value};
use rusty_cdk::stack::StackBuilder;
use rusty_cdk::wrappers::IamAction;

fn member<'a>(v: &'a Value, key: &str) -> Option<&'a Value> {
    match v {
        Value::Object(members) => members.iter().find(|(k, _)| k == key).map(|(_, v)| v),
        _ => None,
    }
}

fn first_resource(stack_builder: StackBuilder) -> (String, Value) {
    let stack = stack_builder.build().ok().unwrap();
    let template = stack.to_json();
    match member(&template, "Resources").unwrap() {
        Value::Object(members) => {
            assert_eq!(members.len(), 1);
            let (k, v) = &members[0];
            (k.clone(), v.deep_copy())
        },
        _ => panic!("resources should be an object"),
    }
}

fn type_of(resource: &Value) -> String {
    match member(resource, "Type") {
        Some(Value::String(s)) => s.clone(),
        _ => panic!("a resource has a type"),
    }
}

#[test]
fn a_subnet_group_is_a_docdb_subnet_group() {
    let mut stack_builder = StackBuilder::new();
    DBSubnetGroupBuilder::new("subnets", vec!["subnet-1".to_string(), "subnet-2".to_string()], "two subnets".to_string())
        .build(&mut stack_builder);
    let (resource_id, resource) = first_resource(stack_builder);
    assert!(resource_id.starts_with("DBSubnetGroup"));
    assert_eq!(type_of(&resource), "AWS::DocDB::DBSubnetGroup");
}

#[test]
fn a_global_cluster_is_a_docdb_global_cluster() {
    let mut stack_builder = StackBuilder::new();
    GlobalClusterBuilder::new("global", "my-cluster".to_string()).build(&mut stack_builder);
    let (_, resource) = first_resource(stack_builder);
    assert_eq!(type_of(&resource), "AWS::DocDB::GlobalCluster");
}

#[test]
fn a_registry_policy_holds_its_statements_as_policy_text() {
    let mut stack_builder = StackBuilder::new();
    let statement = StatementBuilder::new(vec![IamAction("ecr:ReplicateImage".to_string())], Effect::Allow).build();
    RegistryPolicyBuilder::new("registry", vec![statement]).build(&mut stack_builder);
    let (_, resource) = first_resource(stack_builder);
    assert_eq!(type_of(&resource), "AWS::ECR::RegistryPolicy");
    let properties = member(&resource, "Properties").unwrap();
    let text = member(properties, "PolicyText").unwrap();
    assert!(matches!(member(text, "Version"), Some(Value::String(v)) if v == "2012-10-17"));
    match member(text, "Statement") {
        Some(Value::Array(statements)) => {
            assert_eq!(statements.len(), 1);
            assert!(matches!(member(&statements[0], "Effect"), Some(Value::String(e)) if e == "Allow"));
        },
        _ => panic!("statements should be an array"),
    }
}
