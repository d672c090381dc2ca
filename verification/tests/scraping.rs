use rusty_cdk::resource_scraping::{
    builder, checked_props_info, dto_module_source, find_resource_categories, generate_group, get_specific_resource, group_prop_infos, is_helper, main_struct, props, props_info,
    resource_category_links, resource_line, resource_links, retrieve_resource_props, PropInfo,
};

fn strings(v: &[&str]) -> Vec<String> {
    v.iter().map(|s| s.to_string()).collect()
}

#[test]
fn helper_lines_hold_a_space_in_their_type() {
    assert!(is_helper(Some("AWS::S3::Bucket Tag;Key===Type: String")));
    assert!(!is_helper(Some("AWS::S3::Bucket;BucketName===Type: String")));
    assert!(!is_helper(Some("Tag Key;x")));
    assert!(!is_helper(None));
}

#[test]
fn plain_property_types_are_read() {
    let input = strings(&[
        "BucketName===Required: No###Type: String###The name of the bucket.",
        "Count===Required: Yes###Type: Integer",
        "Enabled===Type: Boolean",
        "Policy===Type: Json",
        "Names===Type: Array of String",
    ]);
    let infos = props_info(&input).ok().unwrap();
    assert_eq!(infos.len(), 5);
    assert_eq!(infos[0].name, "BucketName");
    assert_eq!(infos[0].type_as_string, "String");
    assert!(infos[0].optional);
    assert_eq!(infos[0].comments, strings(&["The name of the bucket."]));
    assert_eq!(infos[1].type_as_string, "u32");
    assert!(!infos[1].optional);
    assert_eq!(infos[1].comments, strings(&["Required: Yes"]));
    assert_eq!(infos[2].type_as_string, "bool");
    assert_eq!(infos[3].type_as_string, "Value");
    assert_eq!(infos[4].type_as_string, "Vec<String>");
}

#[test]
fn custom_property_types_are_read_from_their_link() {
    let input = strings(&[
        "Tags===Type: Array of <a href=\"./aws-properties-s3-bucket-tag.html\">Tag</a>",
        "Cors===Type: <a href=\"./aws-properties-s3-bucket-cors.html\">CorsConfiguration</a>",
        "Labels===Type: Object of <a href=\"./label.html\">Label</a>",
    ]);
    let infos = props_info(&input).ok().unwrap();
    assert_eq!(infos[0].type_as_string, "Vec<Tag>");
    assert_eq!(infos[1].type_as_string, "CorsConfiguration");
    assert_eq!(infos[2].type_as_string, "HashMap<Label, Label>");
}

#[test]
fn a_property_without_info_is_an_error() {
    let input = strings(&["Lonely"]);
    let err = props_info(&input).err().unwrap();
    assert_eq!(err, "prop should have info part, after the = (prop name Lonely)");
}

#[test]
fn an_unreadable_custom_type_is_an_error() {
    let input = strings(&["Odd===Type: Something else"]);
    let err = props_info(&input).err().unwrap();
    assert_eq!(err, "failed to capture custom type information");
}

#[test]
fn an_unknown_type_prefix_stops_the_generator() {
    let input = strings(&["Odd===Type: Map of <a href=\"./x.html\">X</a>"]);
    assert!(checked_props_info(&input).is_none());
    let fine = strings(&["Name===Type: String"]);
    assert!(checked_props_info(&fine).is_some());
}

fn prop(name: &str, type_as_string: &str, optional: bool, comments: &[&str]) -> PropInfo {
    PropInfo { name: name.to_string(), type_as_string: type_as_string.to_string(), optional, comments: strings(comments) }
}

#[test]
fn fields_are_renamed_to_snake_case_with_their_serde_name() {
    let ps = vec![prop("BucketName", "String", true, &[]), prop("MaxAge", "u32", false, &[])];
    let sources = props(&ps);
    assert_eq!(
        sources,
        strings(&[
            "#[serde(rename = \"BucketName\", skip_serializing_if = \"Option::is_none\")]\npub(crate) bucket_name: Option<String>,",
            "#[serde(rename = \"MaxAge\")]\npub(crate) max_age: u32,",
        ])
    );
}

#[test]
fn a_resource_builder_takes_an_id_and_its_required_properties() {
    let ps = vec![prop("BucketName", "String", true, &["a name"]), prop("MaxAge", "u32", false, &["in seconds"])];
    let source = builder("Bucket", &ps, false);
    assert!(source.starts_with("\n        pub struct BucketBuilder {\n            id: Id,\nbucket_name: Option<String>, // a name\nmax_age: u32, // in seconds\n        }"));
    assert!(source.contains("pub fn new(id: &str,max_age: u32) -> Self {"));
    assert!(source.contains("id: Id(id.to_string()),\nbucket_name: None,\nmax_age\n"));
    assert!(source.contains("pub fn bucket_name(self, bucket_name: String) -> Self {"));
    assert!(source.contains("pub fn build(self, stack_builder: &mut StackBuilder) -> BucketRef {"));
    assert!(source.contains("bucket_name: self.bucket_name,\nmax_age: self.max_age"));
}

#[test]
fn a_helper_builder_builds_its_value() {
    let ps = vec![prop("Key", "String", false, &[])];
    let source = builder("Tag", &ps, true);
    assert!(source.starts_with("\n        pub struct TagBuilder {\n            key: String, // \n        }"));
    assert!(source.contains("pub fn new(key: String) -> Self {"));
    assert!(source.contains("pub fn build(self) -> Tag {"));
}

#[test]
fn main_struct_gives_the_type_enum_then_the_struct() {
    let sources = main_struct("Bucket", "AWS::S3::Bucket", "BucketProperties");
    assert_eq!(sources.len(), 2);
    assert_eq!(
        sources[0],
        "\n        #[derive(Debug, Serialize, Deserialize)]\n        pub(crate) enum BucketType {\n            #[serde(rename = \"AWS::S3::Bucket\")]\n            BucketType\n        }\n    "
    );
    assert!(sources[1].contains("ref_struct!(BucketRef);"));
    assert!(sources[1].contains("pub(crate) properties: BucketProperties\n"));
    assert!(sources[1].contains("dto_methods!(Bucket);"));
}

#[test]
fn category_links_skip_the_groups_already_supported() {
    let hrefs = strings(&["./AWS_S3.html", "./AWS_SNS.html", "cfn-reference-shared.html", "./AWS_Lambda.html", "AWS_SQS.html"]);
    assert_eq!(resource_category_links(&hrefs), strings(&["AWS_S3.html", "AWS_Lambda.html"]));
}

#[test]
fn resource_links_are_made_relative() {
    let hrefs = strings(&["./aws-resource-s3-bucket.html", "aws-resource-s3-bucketpolicy.html"]);
    assert_eq!(resource_links(&hrefs), strings(&["aws-resource-s3-bucket.html", "aws-resource-s3-bucketpolicy.html"]));
}

#[test]
fn paragraphs_are_grouped_by_property() {
    let names = strings(&["BucketName", "Tags"]);
    let infos = strings(&[
        "A <em>name</em>.",
        "Required: No",
        "Update requires: Replacement",
        "Some\ntags",
        "Update requires: No interruption",
    ]);
    let groups = group_prop_infos(&names, &infos).ok().unwrap();
    assert_eq!(groups.len(), 2);
    assert_eq!(groups[0].0, "BucketName");
    assert_eq!(groups[0].1, strings(&["A name.", "Required: No"]));
    assert_eq!(groups[1].0, "Tags");
    assert_eq!(groups[1].1, strings(&["Sometags"]));
}

#[test]
fn an_update_paragraph_without_a_property_is_an_error() {
    let names = strings(&["Only"]);
    let infos = strings(&["x", "Update requires: Replacement", "Update requires: Replacement"]);
    assert_eq!(group_prop_infos(&names, &infos).err().unwrap(), "should be a prop name for every collection of info");
}

#[test]
fn a_resource_line_joins_its_properties() {
    let groups = vec![
        ("BucketName".to_string(), strings(&["Type: String", "Required: No"])),
        ("Tags".to_string(), Vec::new()),
    ];
    assert_eq!(resource_line("AWS::S3::Bucket", &groups), "AWS::S3::Bucket;BucketName===Type: String###Required: No;Tags===");
    assert_eq!(resource_line("AWS::S3::Bucket", &Vec::new()), "AWS::S3::Bucket;");
}

#[test]
fn a_group_is_generated_from_its_resources_and_helpers() {
    let contents = "AWS::S3::Bucket;BucketName===Required: No###Type: String\n\nAWS::S3::Bucket Tag;Key===Type: String\n";
    let group = generate_group(contents).unwrap().ok().unwrap().unwrap();
    assert_eq!(group.module_name, "s3");
    assert_eq!(group.module, "mod dto;\nmod builder;\n\npub use dto::*;\npub use builder::*;");
    assert!(group.dto.starts_with("use serde::{Deserialize, Serialize};"));
    assert!(group.dto.contains("pub(crate) enum BucketType {"));
    assert!(group.dto.contains("pub struct BucketProperties {\n                    #[serde(rename = \"BucketName\", skip_serializing_if = \"Option::is_none\")]\npub(crate) bucket_name: Option<String>,\n"));
    assert!(group.dto.contains("pub struct Tag {\n                        #[serde(rename = \"Key\")]\npub(crate) key: String,\n"));
    assert!(group.builder.starts_with(
        "use crate::s3::{ Bucket,BucketRef,BucketType,BucketProperties };\nuse crate::s3::{ Tag };\nuse crate::shared::Id;\nuse serde_json::Value;\nuse crate::stack::{Resource, StackBuilder};\n"
    ));
    assert!(group.builder.contains("pub struct BucketBuilder {"));
    assert!(group.builder.contains("pub struct TagBuilder {"));
}

#[test]
fn a_helper_named_like_a_resource_takes_its_prefix() {
    let contents = "AWS::S3::Bucket;Name===Type: String\nAWS::S3::Bucket Bucket;Key===Type: String";
    let group = generate_group(contents).unwrap().ok().unwrap().unwrap();
    assert!(group.dto.contains("pub struct BucketBucket {"));
    assert!(group.builder.contains("use crate::s3::{ BucketBucket };"));
}

#[test]
fn a_helper_seen_twice_leaves_a_note() {
    let contents = "AWS::S3::Bucket;Name===Type: String\nAWS::S3::Bucket Tag;Key===Type: String\nAWS::S3::Other Tag;Key===Type: String";
    let group = generate_group(contents).unwrap().ok().unwrap().unwrap();
    assert!(group.dto.ends_with("// TODO encountered a helper with name Tag but one already exists - check whether they match"));
    assert!(group.builder.ends_with("// TODO encountered a helper with name Tag but one already exists - check whether they match\n"));
}

#[test]
fn helpers_alone_name_no_group() {
    let contents = "AWS::S3::Bucket Tag;Key===Type: String";
    assert!(generate_group(contents).unwrap().ok().unwrap().is_none());
}

#[test]
fn a_short_first_resource_type_is_an_error() {
    assert_eq!(generate_group("AWS;x===Type: String").unwrap().err().unwrap(), "resource type should have three parts after splitting");
    assert_eq!(generate_group("AWS::S3;x===Type: String").unwrap().err().unwrap(), "resource type should contain a name for the struct");
}

#[test]
fn an_unknown_prefix_stops_the_generation() {
    assert!(generate_group("AWS::S3::Bucket;Odd===Type: Map of <a href=\"./x.html\">X</a>").is_none());
}

#[test]
fn bare_dtos_are_written_for_each_resource() {
    let text = dto_module_source("AWS::S3::Bucket;x\n\nOther;y").ok().unwrap();
    assert!(text.starts_with("use serde::{Deserialize, Serialize};\nuse serde_json::Value;\nuse crate::{dto_methods, ref_struct};\nuse crate::shared::Id;\n\n#[derive(Debug, Serialize, Deserialize)]\npub(crate) enum BucketType {\n#[serde(rename = \"AWS::S3::Bucket\")]\nBucketType }\n"));
    assert!(text.contains("pub(crate) properties: BucketProperties }\n\ndto_methods!(Bucket);"));
    assert!(text.contains("pub(crate) enum OtherType {"));
    assert!(text.ends_with("pub struct OtherProperties {\n}\n"));
    assert_eq!(dto_module_source("AWS::S3;x").err().unwrap(), "resource type should contain a name for the struct");
}

#[test]
fn the_first_list_of_the_types_page_gives_the_categories() {
    let html = "<html><body><ul><li><p><a href=\"./AWS_S3.html\">S3</a></p></li><li><p><a href=\"./AWS_SNS.html\">SNS</a></p></li></ul><ul><li><p><a href=\"./AWS_Lambda.html\">L</a></p></li></ul></body></html>";
    assert_eq!(find_resource_categories(html).unwrap(), strings(&["AWS_S3.html"]));
    assert!(find_resource_categories("<html><body><p>nothing</p></body></html>").is_none());
    assert!(find_resource_categories("<ul><li><p><a>no target</a></p></li></ul>").is_none());
}

#[test]
fn a_group_page_lists_its_resources() {
    let html = "<div id=\"main-col-body\"><div class=\"itemizedlist\"><ul><li><p><a href=\"./aws-resource-s3-bucket.html\">Bucket</a></p></li></ul></div></div>";
    assert_eq!(get_specific_resource(html).ok().unwrap(), strings(&["aws-resource-s3-bucket.html"]));
    let missing = "<div id=\"main-col-body\"><div class=\"itemizedlist\"><ul><li><p><a>Bucket</a></p></li></ul></div></div>";
    assert_eq!(get_specific_resource(missing).err().unwrap(), "a element should have href");
}

#[test]
fn a_resource_page_gives_its_name_and_properties() {
    let html = "<h1>AWS::S3::Bucket</h1><div class=\"variablelist\"><dl><dt><span><code>BucketName</code></span></dt><dd><p>The <em>name</em>.</p><p>Required: No</p><p>Update requires: Replacement</p></dd></dl></div>";
    let (name, groups) = retrieve_resource_props(html).ok().unwrap();
    assert_eq!(name, "AWS::S3::Bucket");
    assert_eq!(groups.len(), 1);
    assert_eq!(groups[0].0, "BucketName");
    assert_eq!(groups[0].1, strings(&["The name.", "Required: No"]));
    assert_eq!(retrieve_resource_props("<p>x</p>").err().unwrap(), "resource should have a name");
    assert_eq!(retrieve_resource_props("<h1>X</h1>").err().unwrap(), "resource should have a list of props");
}
