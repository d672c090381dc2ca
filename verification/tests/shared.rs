use rusty_cdk::iam::RoleRef;
use rusty_cdk::json::{ToJson, Value};
use rusty_cdk::shared::DeletionPolicy;
use rusty_cdk::sqs::QueueBuilder;
use rusty_cdk::stack::StackBuilder;

#[test]
fn deletion_policies_read_back_from_their_names() {
    for policy in [DeletionPolicy::Delete, DeletionPolicy::Snapshot, DeletionPolicy::Retain, DeletionPolicy::RetainExceptOnCreate] {
        let name: String = policy.into();
        let back = DeletionPolicy::from_name(&name);
        let again: String = back.into();
        assert_eq!(again, name);
    }
    let name: String = DeletionPolicy::RetainExceptOnCreate.into();
    assert_eq!(name, "RetainExceptOnCreate");
}

#[test]
fn a_looked_up_role_refers_to_its_name_and_arn() {
    let role = RoleRef::new("myRole", "role-name", "arn:aws:iam::123456789012:role/role-name");
    assert!(matches!(role.get_ref(), Value::String(s) if s == "role-name"));
    assert!(matches!(role.get_arn(), Value::String(s) if s == "arn:aws:iam::123456789012:role/role-name"));
}

#[test]
fn a_queue_of_the_stack_is_referred_to_by_its_logical_id() {
    let mut stack_builder = StackBuilder::new();
    let queue = QueueBuilder::new("q").standard_queue().build(&mut stack_builder);
    let template = stack_builder.build().ok().unwrap().to_json();
    let resource_id = match template {
        Value::Object(members) => match &members[0].1 {
            Value::Object(resources) => resources[0].0.clone(),
            _ => panic!("resources should be an object"),
        },
        _ => panic!("a template is an object"),
    };
    match queue.get_ref() {
        Value::Object(members) => {
            assert_eq!(members.len(), 1);
            assert_eq!(members[0].0, "Ref");
            assert!(matches!(&members[0].1, Value::String(s) if *s == resource_id));
        },
        _ => panic!("a reference to a resource of the stack is an object"),
    }
    match queue.get_arn() {
        Value::Object(members) => {
            assert_eq!(members[0].0, "Fn::GetAtt");
        },
        _ => panic!("an ARN of a resource of the stack is an object"),
    }
}
