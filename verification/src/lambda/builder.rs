use crate::intrinsic::{get_ref, get_ref_json, AWS_ACCOUNT_PSEUDO_PARAM};
use crate::json::{JsonView, Value};
use crate::lambda::{LambdaPermissionProperties, Permission, PermissionRef};
use crate::shared::Id;
use crate::stack::{is_generated_id, Resource, StackBuilder, StackBuilderView};
use crate::wrappers::{Bucket, LambdaPermissionAction, ZipFile};
use vstd::prelude::*;

verus! {

/// The language runtime of a function.
#[derive(Debug, Clone)]
pub enum Runtime {
    NodeJs22,
    Java21,
    Python313,
    ProvidedAl2023,
}

/// How CloudFormation writes a [`Runtime`].
pub open spec fn runtime_name(v: Runtime) -> Seq<char> {
    match v {
        Runtime::NodeJs22 => "nodejs22.x"@,
        Runtime::Java21 => "java21"@,
        Runtime::Python313 => "python3.13"@,
        Runtime::ProvidedAl2023 => "provided.al2023"@,
    }
}

impl vstd::std_specs::convert::FromSpecImpl<Runtime> for String {
    open spec fn obeys_from_spec() -> bool {
        false
    }

    open spec fn from_spec(v: Runtime) -> String {
        vstd::pervasive::arbitrary()
    }
}

impl From<Runtime> for String {
    fn from(value: Runtime) -> (r: String)
        ensures
            r@ == runtime_name(value),
    {
        match value {
            Runtime::NodeJs22 => String::from_str("nodejs22.x"),
            Runtime::Java21 => String::from_str("java21"),
            Runtime::Python313 => String::from_str("python3.13"),
            Runtime::ProvidedAl2023 => String::from_str("provided.al2023"),
        }
    }
}

/// The instruction set a function runs on.
#[derive(Debug, Clone)]
pub enum Architecture {
    X86_64,
    ARM64,
}

/// How CloudFormation writes a [`Architecture`].
pub open spec fn architecture_name(v: Architecture) -> Seq<char> {
    match v {
        Architecture::X86_64 => "x86_64"@,
        Architecture::ARM64 => "arm64"@,
    }
}

impl vstd::std_specs::convert::FromSpecImpl<Architecture> for String {
    open spec fn obeys_from_spec() -> bool {
        false
    }

    open spec fn from_spec(v: Architecture) -> String {
        vstd::pervasive::arbitrary()
    }
}

impl From<Architecture> for String {
    fn from(value: Architecture) -> (r: String)
        ensures
            r@ == architecture_name(value),
    {
        match value {
            Architecture::X86_64 => String::from_str("x86_64"),
            Architecture::ARM64 => String::from_str("arm64"),
        }
    }
}

/// CloudFormation names the two architectures `arm64` and `x86_64`, and no two
/// architectures are written alike: a function built for ARM64 runs on ARM64.
pub proof fn architecture_names_are_distinct(a: Architecture, b: Architecture)
    ensures
        architecture_name(a) == "arm64"@ <==> a is ARM64,
        architecture_name(a) == "x86_64"@ <==> a is X86_64,
        architecture_name(a) == architecture_name(b) ==> a == b,
{
    reveal_strlit("arm64");
    reveal_strlit("x86_64");
    assert("arm64"@[0] != "x86_64"@[0]);
}

/// How the code of a function is packaged.
#[derive(Debug, Clone)]
pub enum PackageType {
    Image,
    Zip,
}

/// How CloudFormation writes a [`PackageType`].
pub open spec fn package_type_name(v: PackageType) -> Seq<char> {
    match v {
        PackageType::Image => "Image"@,
        PackageType::Zip => "Zip"@,
    }
}

impl vstd::std_specs::convert::FromSpecImpl<PackageType> for String {
    open spec fn obeys_from_spec() -> bool {
        false
    }

    open spec fn from_spec(v: PackageType) -> String {
        vstd::pervasive::arbitrary()
    }
}

impl From<PackageType> for String {
    fn from(value: PackageType) -> (r: String)
        ensures
            r@ == package_type_name(value),
    {
        match value {
            PackageType::Image => String::from_str("Image"),
            PackageType::Zip => String::from_str("Zip"),
        }
    }
}
/// Code of a function in a zip file, uploaded to a bucket.
pub struct Zip {
    pub(crate) bucket: String,
    pub(crate) file: ZipFile,
}

/// What a [`Zip`] holds.
pub struct ZipView {
    pub bucket: String,
    pub file: ZipFile,
}

impl View for Zip {
    type V = ZipView;

    open(crate) spec fn view(&self) -> ZipView {
        ZipView { bucket: self.bucket, file: self.file }
    }
}

impl Clone for Zip {
    fn clone(&self) -> (r: Self)
        ensures
            r@ == self@,
    {
        Zip { bucket: self.bucket.clone(), file: ZipFile(self.file.0.clone()) }
    }
}

impl Zip {
    pub fn new(bucket: Bucket, file: ZipFile) -> (r: Self)
        ensures
            r@ == (ZipView { bucket: bucket.0, file }),
    {
        Zip { bucket: bucket.0, file }
    }
}

/// The code of a function: a zip file, or the code itself.
pub enum Code {
    Zip(Zip),
    Inline(String),
}

/// Builder for a permission that lets a principal act on a function.
pub struct PermissionBuilder {
    pub(crate) id: Id,
    pub(crate) action: String,
    pub(crate) function_name: Value,
    pub(crate) principal: String,
    pub(crate) source_arn: Option<Value>,
    pub(crate) source_account: Option<Value>,
}

/// What a [`PermissionBuilder`] holds.
pub struct PermissionBuilderView {
    pub id: Id,
    pub action: String,
    pub function_name: Value,
    pub principal: String,
    pub source_arn: Option<Value>,
    pub source_account: Option<Value>,
}

impl View for PermissionBuilder {
    type V = PermissionBuilderView;

    open(crate) spec fn view(&self) -> PermissionBuilderView {
        PermissionBuilderView {
            id: self.id,
            action: self.action,
            function_name: self.function_name,
            principal: self.principal,
            source_arn: self.source_arn,
            source_account: self.source_account,
        }
    }
}

/// `p` is the permission that the builder state `b` describes, with logical id `resource_id`.
pub open spec fn permission_made_by(p: Permission, b: PermissionBuilderView, resource_id: Seq<char>) -> bool {
    &&& p@.id == b.id
    &&& p@.resource_id@ == resource_id
    &&& p@.resource_type@ == "AWS::Lambda::Permission"@
    &&& p@.properties@ == (crate::lambda::LambdaPermissionPropertiesView {
        action: b.action,
        function_name: b.function_name,
        principal: b.principal,
        source_arn: b.source_arn,
        source_account: b.source_account,
    })
}

impl PermissionBuilder {
    pub fn new(id: &str, action: LambdaPermissionAction, function_name: Value, principal: &str) -> (r: Self)
        ensures
            r@.id.0@ == id@,
            r@.action == action.0,
            r@.function_name == function_name,
            r@.principal@ == principal@,
            r@.source_arn is None,
            r@.source_account is None,
    {
        Self {
            id: Id(String::from_str(id)),
            action: action.0,
            function_name,
            principal: String::from_str(principal),
            source_arn: None,
            source_account: None,
        }
    }

    pub fn source_arn(self, arn: Value) -> (r: Self)
        ensures
            r@ == (PermissionBuilderView { source_arn: Some(arn), ..self@ }),
    {
        Self { source_arn: Some(arn), ..self }
    }

    /// Restricts the permission to the account the stack is deployed in.
    pub fn current_account(self) -> (r: Self)
        ensures
            r@ == (PermissionBuilderView { source_account: r@.source_account, ..self@ }),
            r@.source_account matches Some(a) && a@ == get_ref_json(AWS_ACCOUNT_PSEUDO_PARAM@),
    {
        Self { source_account: Some(get_ref(AWS_ACCOUNT_PSEUDO_PARAM)), ..self }
    }

    /// Adds the permission to the stack.
    pub fn build(self, stack_builder: &mut StackBuilder) -> (r: PermissionRef)
        ensures
            final(stack_builder)@ == (StackBuilderView {
                resources: old(stack_builder)@.resources.push(final(stack_builder)@.resources.last()),
                ..old(stack_builder)@
            }),
            final(stack_builder)@.resources.last() matches Resource::Permission(p) && permission_made_by(
                p,
                self@,
                r@.resource_id,
            ),
            r@.id == self@.id.0@,
            is_generated_id(r@.resource_id, "LambdaPermission"@),
            r@.ref_name is None,
            r@.arn_value is None,
    {
        let permission_resource_id = Resource::generate_id("LambdaPermission");
        stack_builder.add_resource(
            Resource::Permission(
                Permission {
                    id: self.id.clone(),
                    resource_id: permission_resource_id.clone(),
                    resource_type: String::from_str("AWS::Lambda::Permission"),
                    properties: LambdaPermissionProperties {
                        action: self.action,
                        function_name: self.function_name,
                        principal: self.principal,
                        source_arn: self.source_arn,
                        source_account: self.source_account,
                    },
                },
            ),
        );
        PermissionRef::internal_new(self.id, permission_resource_id)
    }
}

} // verus!
