use rusty_cdk::lambda::{Architecture, Code, FunctionBuilder, Runtime, Zip};
use rusty_cdk::stack::{StackBuilder, StackBuilderError};
use rusty_cdk::wrappers::{Bucket, Memory, Timeout, ZipFile};

fn strings(v: &[&str]) -> Vec<String> {
    v.iter().map(|s| s.to_string()).collect()
}

#[test]
fn each_error_describes_itself() {
    assert_eq!(
        StackBuilderError::MissingPermissionsForRole(strings(&["Role1: s3", "Role2: sqs"])).message(),
        "one or more roles seem to be missing permission to access services: `Role1: s3;Role2: sqs`?"
    );
    assert_eq!(
        StackBuilderError::DuplicateIds(strings(&["bucket"])).message(),
        "ids should be unique, but the following duplicates were detected: `bucket`"
    );
    assert_eq!(
        StackBuilderError::ResourceSpecificIssues(strings(&["a", "b"])).message(),
        "resource specific issues detected: `a;b`"
    );
    assert_eq!(
        StackBuilderError::DuplicateResourceIds(strings(&["Queue1"])).message(),
        "duplicate resource ids detected (`Queue1`), rerunning this command should generate new ones"
    );
}

#[test]
fn a_function_without_the_permissions_its_dependencies_need_is_refused() {
    let mut stack_builder = StackBuilder::new();
    FunctionBuilder::new("fun", Architecture::ARM64, Memory(128), Timeout(30))
        .code(Code::Zip(Zip::new(Bucket("assets".to_string()), ZipFile("fun.zip".to_string()))))
        .handler("bootstrap")
        .runtime(Runtime::ProvidedAl2023)
        .check_permissions_against_dependencies("[package]\nname = \"fun\"\n\n[dependencies]\naws-sdk-s3 = \"1\"\ntokio = \"1\"\n")
        .build(&mut stack_builder);
    match stack_builder.build() {
        Err(StackBuilderError::MissingPermissionsForRole(info)) => {
            assert_eq!(info.len(), 1);
            assert!(info[0].starts_with("LambdaFunctionRole"));
            assert!(info[0].ends_with(": s3"));
        },
        _ => panic!("the role misses the permissions for s3"),
    }
}

#[test]
fn a_function_whose_dependencies_name_no_aws_service_is_accepted() {
    let mut stack_builder = StackBuilder::new();
    FunctionBuilder::new("fun", Architecture::X86_64, Memory(128), Timeout(30))
        .code(Code::Zip(Zip::new(Bucket("assets".to_string()), ZipFile("fun.zip".to_string()))))
        .handler("bootstrap")
        .runtime(Runtime::ProvidedAl2023)
        .check_permissions_against_dependencies("[dependencies]\ntokio = \"1\"\n")
        .build(&mut stack_builder);
    assert!(stack_builder.build().is_ok());
}
