use rusty_cdk::iam::{find_missing_services, map_string_of_tom_dependencies_to_aws_services, AWS_SERVICES_LIST};

#[test]
fn should_find_services_mentioned_in_dependencies() {
    let services = map_string_of_tom_dependencies_to_aws_services(
        "[package]\nname = \"a-name\"\nversion = \"0.1.0\"\nedition = \"2024\"\n\n[dependencies]\ntokio = { version = \"1\", features = [\"full\"] }\nserde = { version = \"1.0.219\", features = [\"serde_derive\", \"derive\"] }\nserde_json = \"1.0.142\"\naws-config = { version = \"1.1.7\", features = [\"behavior-version-latest\"] }\naws-sdk-cloudformation = \"1.90.0\"\naws-sdk-s3 = \"1.103.0\"\n\n",
    );

    assert_eq!(services, vec!["cloudformation".to_string(), "s3".to_string()])
}

#[test]
fn should_find_services_mentioned_in_dependencies_ignoring_dev_deps() {
    let services = map_string_of_tom_dependencies_to_aws_services(
        "[package]\nname = \"a-name\"\nversion = \"0.1.0\"\nedition = \"2024\"\n\n[dependencies]\ntokio = { version = \"1\", features = [\"full\"] }\nserde = { version = \"1.0.219\", features = [\"serde_derive\", \"derive\"] }\nserde_json = \"1.0.142\"\naws-config = { version = \"1.1.7\", features = [\"behavior-version-latest\"] }\naws-sdk-s3 = \"1.103.0\"\n\n[dev-dependencies]\ninsta = {  version = \"1.43.1\", features = [\"json\", \"filters\"] }\naws-sdk-cloudformation = \"1.90.0\"\nserde_json = \"1.0.142\"",
    );

    assert_eq!(services, vec!["s3".to_string()])
}

#[test]
fn manifest_without_dependencies_section_names_no_service() {
    let services = map_string_of_tom_dependencies_to_aws_services("[package]\nname = \"x\"\naws-sdk-s3 = \"1\"\n");
    assert!(services.is_empty());
}

#[test]
fn unknown_sdk_crates_are_left_out() {
    let services =
        map_string_of_tom_dependencies_to_aws_services("[dependencies]\naws-sdk-notaservice = \"1\"\n  aws-sdk-sqs = \"1\"\n");
    assert_eq!(services, vec!["sqs".to_string()]);
}

#[test]
fn services_list_holds_one_name_per_line() {
    assert!(AWS_SERVICES_LIST.split('\n').any(|s| s == "dynamodb"));
    assert!(!AWS_SERVICES_LIST.contains(' '));
}

#[test]
fn no_policies_leave_every_service_missing() {
    let services = vec!["s3".to_string(), "sqs".to_string()];
    let missing = find_missing_services(&services, &[]);
    assert_eq!(missing, services);
}
