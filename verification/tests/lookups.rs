use rusty_cdk::lookups::{internal_resource_of, resource_info_with_arn};

#[test]
fn a_description_needs_identifier_and_properties() {
    let (id, props) = internal_resource_of(Some("my-role".to_string()), Some("{}".to_string())).ok().unwrap();
    assert_eq!(id, "my-role");
    assert_eq!(props, "{}");
    assert_eq!(internal_resource_of(None, Some("{}".to_string())).err().unwrap(), "missing required resource info");
    assert_eq!(internal_resource_of(Some("x".to_string()), None).err().unwrap(), "missing required resource info");
}

#[test]
fn a_lookup_by_arn_needs_the_arn() {
    let (id, arn) = resource_info_with_arn("my-role".to_string(), Some("arn:aws:iam::1:role/my-role".to_string())).ok().unwrap();
    assert_eq!(id, "my-role");
    assert_eq!(arn, "arn:aws:iam::1:role/my-role");
    assert_eq!(resource_info_with_arn("x".to_string(), None).err().unwrap(), "missing required resource info: arn");
}
