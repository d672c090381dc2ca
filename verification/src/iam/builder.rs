use crate::appconfig::{ApplicationRef, ConfigurationProfileRef, EnvironmentRef};
use crate::dynamodb::TableRef;
use crate::iam::{
    AWSPrincipal, AssumeRolePolicyDocument, AssumeRolePolicyDocumentView, IamRoleProperties, IamRolePropertiesView, Policy,
    PolicyDocument, PolicyDocumentView, PolicyView, Principal, Role, RoleRef, ServicePrincipal, Statement, StatementView,
};
use crate::intrinsic::{
    get_arn, get_arn_json, get_ref, get_ref_json, join, join_json, string_value, AWS_ACCOUNT_PSEUDO_PARAM,
};
use crate::json::{json_views, JsonView, Value};
use crate::s3::BucketRef;
use crate::secretsmanager::SecretRef;
use crate::shared::{ref_json, Id};
use crate::sqs::QueueRef;
use crate::stack::{is_generated_id, Resource, StackBuilder};
use crate::text::views;
use crate::wrappers::{IamAction, PolicyName};
use std::marker::PhantomData;
use vstd::prelude::*;

verus! {

/// The states of a [`PrincipalBuilder`]: before and after the kind of principal is chosen.
pub trait PrincipalState {}

pub struct StartState {}

pub struct ChosenState {}

impl PrincipalState for StartState {}

impl PrincipalState for ChosenState {}

/// Builder for IAM principals (service, AWS, or custom).
pub struct PrincipalBuilder<T: PrincipalState> {
    pub(crate) phantom_data: PhantomData<T>,
    pub(crate) service: Option<String>,
    pub(crate) aws: Option<String>,
    pub(crate) normal: Option<String>,
}

/// What a [`PrincipalBuilder`] holds.
pub struct PrincipalBuilderView {
    pub service: Option<Seq<char>>,
    pub aws: Option<Seq<char>>,
    pub normal: Option<Seq<char>>,
}

impl<T: PrincipalState> View for PrincipalBuilder<T> {
    type V = PrincipalBuilderView;

    open(crate) spec fn view(&self) -> PrincipalBuilderView {
        PrincipalBuilderView {
            service: crate::shared::opt_view(self.service),
            aws: crate::shared::opt_view(self.aws),
            normal: crate::shared::opt_view(self.normal),
        }
    }
}

/// The principal that a builder in the state `b` makes: an AWS principal first, then a service,
/// then a custom one.
pub open spec fn principal_made_by(p: Principal, b: PrincipalBuilderView) -> bool {
    match p {
        Principal::AWS(a) => b.aws == Some(a@.aws@),
        Principal::Service(s) => b.aws is None && b.service == Some(s@.service@),
        Principal::Custom(c) => b.aws is None && b.service is None && b.normal == Some(c@),
    }
}

impl Default for PrincipalBuilder<StartState> {
    /// A principal with nothing chosen yet.
    fn default() -> (r: Self)
        ensures
            r@ == (PrincipalBuilderView { service: None, aws: None, normal: None }),
    {
        Self::new()
    }
}

impl PrincipalBuilder<StartState> {
    pub fn new() -> (r: PrincipalBuilder<StartState>)
        ensures
            r@ == (PrincipalBuilderView { service: None, aws: None, normal: None }),
    {
        PrincipalBuilder { phantom_data: PhantomData, service: None, aws: None, normal: None }
    }

    pub fn service(self, service: &str) -> (r: PrincipalBuilder<ChosenState>)
        ensures
            r@ == (PrincipalBuilderView { service: Some(service@), ..self@ }),
    {
        PrincipalBuilder {
            phantom_data: PhantomData,
            service: Some(String::from_str(service)),
            aws: self.aws,
            normal: self.normal,
        }
    }

    pub fn aws(self, aws: &str) -> (r: PrincipalBuilder<ChosenState>)
        ensures
            r@ == (PrincipalBuilderView { aws: Some(aws@), ..self@ }),
    {
        PrincipalBuilder {
            phantom_data: PhantomData,
            aws: Some(String::from_str(aws)),
            service: self.service,
            normal: self.normal,
        }
    }

    pub fn normal(self, normal: &str) -> (r: PrincipalBuilder<ChosenState>)
        ensures
            r@ == (PrincipalBuilderView { normal: Some(normal@), ..self@ }),
    {
        PrincipalBuilder {
            phantom_data: PhantomData,
            normal: Some(String::from_str(normal)),
            service: self.service,
            aws: self.aws,
        }
    }
}

impl PrincipalBuilder<ChosenState> {
    pub fn build(self) -> (r: Principal)
        requires
            self@.aws is Some || self@.service is Some || self@.normal is Some,
        ensures
            principal_made_by(r, self@),
    {
        match self.aws {
            Some(aws) => Principal::AWS(AWSPrincipal { aws }),
            None => match self.service {
                Some(service) => Principal::Service(ServicePrincipal { service }),
                None => Principal::Custom(self.normal.unwrap()),
            },
        }
    }
}

/// Builder for IAM roles.
pub struct RoleBuilder {
    pub(crate) id: Id,
    pub(crate) resource_id: Option<String>,
    pub(crate) properties: IamRoleProperties,
    pub(crate) potentially_missing: Vec<String>,
}

/// What a [`RoleBuilder`] holds.
pub struct RoleBuilderView {
    pub id: Id,
    pub resource_id: Option<String>,
    pub properties: IamRoleProperties,
    pub potentially_missing: Vec<String>,
}

impl View for RoleBuilder {
    type V = RoleBuilderView;

    open(crate) spec fn view(&self) -> RoleBuilderView {
        RoleBuilderView {
            id: self.id,
            resource_id: self.resource_id,
            properties: self.properties,
            potentially_missing: self.potentially_missing,
        }
    }
}

impl RoleBuilder {
    /// Creates a new IAM role builder.
    ///
    /// # Arguments
    /// * `id` - Unique identifier for the role
    /// * `properties` - IAM role properties including policies and trust relationships
    pub fn new(id: &str, properties: IamRoleProperties) -> (r: RoleBuilder)
        ensures
            r@.id.0@ == id@,
            r@.resource_id is None,
            r@.properties == properties,
            r@.potentially_missing@.len() == 0,
    {
        RoleBuilder { id: Id(String::from_str(id)), resource_id: None, properties, potentially_missing: Vec::new() }
    }

    pub(crate) fn new_with_info_on_missing(
        id: &str,
        resource_id: &str,
        properties: IamRoleProperties,
        potentially_missing: Vec<String>,
    ) -> (r: RoleBuilder)
        ensures
            r@.id.0@ == id@,
            r@.resource_id matches Some(rid) && rid@ == resource_id@,
            r@.properties == properties,
            r@.potentially_missing == potentially_missing,
    {
        Self {
            id: Id(String::from_str(id)),
            resource_id: Some(String::from_str(resource_id)),
            properties,
            potentially_missing,
        }
    }

    /// Adds the role to the stack, with the logical id it was given or a new one.
    pub fn build(self, stack_builder: &mut StackBuilder) -> (r: RoleRef)
        ensures
            match self@.resource_id {
                Some(rid) => r@.resource_id == rid@,
                None => is_generated_id(r@.resource_id, "Role"@),
            },
            r@.ref_name is None,
            r@.arn_value is None,
            final(stack_builder)@.tags == old(stack_builder)@.tags,
            final(stack_builder)@.outputs == old(stack_builder)@.outputs,
            final(stack_builder)@.resources.drop_last() == old(stack_builder)@.resources,
            final(stack_builder)@.resources.len() == old(stack_builder)@.resources.len() + 1,
            final(stack_builder)@.resources.last() matches Resource::Role(role) && {
                &&& role@.id == self@.id
                &&& role@.resource_id@ == r@.resource_id
                &&& role@.potentially_missing_services == self@.potentially_missing
                &&& role@.resource_type@ == "AWS::IAM::Role"@
                &&& role@.properties == self@.properties
            },
    {
        let resource_id = match self.resource_id {
            Some(rid) => rid,
            None => Resource::generate_id("Role"),
        };
        let ghost old_resources = stack_builder@.resources;
        stack_builder.add_resource(
            Resource::Role(
                Role {
                    id: self.id,
                    resource_id: resource_id.clone(),
                    potentially_missing_services: self.potentially_missing,
                    resource_type: String::from_str("AWS::IAM::Role"),
                    properties: self.properties,
                },
            ),
        );
        assert(stack_builder@.resources.drop_last() =~= old_resources);
        RoleRef::internal_new(resource_id)
    }
}

/// Builder for IAM role properties.
pub struct RolePropertiesBuilder {
    pub(crate) assumed_role_policy_document: AssumeRolePolicyDocument,
    pub(crate) managed_policy_arns: Vec<Value>,
    pub(crate) policies: Option<Vec<Policy>>,
    pub(crate) role_name: Option<String>,
}

/// What a [`RolePropertiesBuilder`] holds.
pub struct RolePropertiesBuilderView {
    pub assumed_role_policy_document: AssumeRolePolicyDocument,
    pub managed_policy_arns: Vec<Value>,
    pub policies: Option<Vec<Policy>>,
    pub role_name: Option<String>,
}

impl View for RolePropertiesBuilder {
    type V = RolePropertiesBuilderView;

    open(crate) spec fn view(&self) -> RolePropertiesBuilderView {
        RolePropertiesBuilderView {
            assumed_role_policy_document: self.assumed_role_policy_document,
            managed_policy_arns: self.managed_policy_arns,
            policies: self.policies,
            role_name: self.role_name,
        }
    }
}

impl RolePropertiesBuilder {
    pub fn new(assumed_role_policy_document: AssumeRolePolicyDocument, managed_policy_arns: Vec<Value>) -> (r:
        RolePropertiesBuilder)
        ensures
            r@ == (RolePropertiesBuilderView {
                assumed_role_policy_document,
                managed_policy_arns,
                policies: None,
                role_name: None,
            }),
    {
        RolePropertiesBuilder { assumed_role_policy_document, managed_policy_arns, policies: None, role_name: None }
    }

    pub fn policies(self, policies: Vec<Policy>) -> (r: RolePropertiesBuilder)
        ensures
            r@ == (RolePropertiesBuilderView { policies: Some(policies), ..self@ }),
    {
        Self { policies: Some(policies), ..self }
    }

    pub fn role_name(self, role_name: &str) -> (r: RolePropertiesBuilder)
        ensures
            r@.role_name matches Some(n) && n@ == role_name@,
            r@.assumed_role_policy_document == self@.assumed_role_policy_document,
            r@.managed_policy_arns == self@.managed_policy_arns,
            r@.policies == self@.policies,
    {
        Self { role_name: Some(String::from_str(role_name)), ..self }
    }

    pub fn build(self) -> (r: IamRoleProperties)
        ensures
            r@ == (IamRolePropertiesView {
                assumed_role_policy_document: self@.assumed_role_policy_document,
                managed_policy_arns: self@.managed_policy_arns,
                policies: self@.policies,
                role_name: self@.role_name,
            }),
    {
        IamRoleProperties {
            assumed_role_policy_document: self.assumed_role_policy_document,
            managed_policy_arns: self.managed_policy_arns,
            policies: self.policies,
            role_name: self.role_name,
        }
    }
}

/// Builder for IAM policies.
pub struct PolicyBuilder {
    pub(crate) policy_name: String,
    pub(crate) policy_document: PolicyDocument,
}

/// What a [`PolicyBuilder`] holds.
pub struct PolicyBuilderView {
    pub policy_name: String,
    pub policy_document: PolicyDocument,
}

impl View for PolicyBuilder {
    type V = PolicyBuilderView;

    open(crate) spec fn view(&self) -> PolicyBuilderView {
        PolicyBuilderView { policy_name: self.policy_name, policy_document: self.policy_document }
    }
}

impl PolicyBuilder {
    pub fn new(policy_name: PolicyName, policy_document: PolicyDocument) -> (r: Self)
        ensures
            r@ == (PolicyBuilderView { policy_name: policy_name.0, policy_document }),
    {
        PolicyBuilder { policy_name: policy_name.0, policy_document }
    }

    pub fn build(self) -> (r: Policy)
        ensures
            r@ == (PolicyView { policy_name: self@.policy_name, policy_document: self@.policy_document }),
    {
        Policy { policy_name: self.policy_name, policy_document: self.policy_document }
    }
}

/// The version of the policy language that policy documents use.
pub open spec fn policy_version() -> Seq<char> {
    "2012-10-17"@
}

/// Builder for IAM policy documents.
pub struct PolicyDocumentBuilder {
    pub(crate) statements: Vec<Statement>,
}

impl View for PolicyDocumentBuilder {
    type V = Seq<Statement>;

    open(crate) spec fn view(&self) -> Seq<Statement> {
        self.statements@
    }
}

impl PolicyDocumentBuilder {
    pub fn new(statements: Vec<Statement>) -> (r: PolicyDocumentBuilder)
        ensures
            r@ == statements@,
    {
        Self { statements }
    }

    pub fn build(self) -> (r: PolicyDocument)
        ensures
            r@.version@ == policy_version(),
            r@.statements@ == self@,
    {
        PolicyDocument { version: String::from_str("2012-10-17"), statements: self.statements }
    }
}

/// Builder for the policy document that says who may assume a role.
pub struct AssumeRolePolicyDocumentBuilder {
    pub(crate) statements: Vec<Statement>,
}

impl View for AssumeRolePolicyDocumentBuilder {
    type V = Seq<Statement>;

    open(crate) spec fn view(&self) -> Seq<Statement> {
        self.statements@
    }
}

impl AssumeRolePolicyDocumentBuilder {
    pub fn new(statements: Vec<Statement>) -> (r: Self)
        ensures
            r@ == statements@,
    {
        Self { statements }
    }

    pub fn build(self) -> (r: AssumeRolePolicyDocument)
        ensures
            r@.version@ == policy_version(),
            r@.statements@ == self@,
    {
        AssumeRolePolicyDocument { version: String::from_str("2012-10-17"), statements: self.statements }
    }
}

/// Whether a statement allows or denies its actions.
pub enum Effect {
    Allow,
    Deny,
}

/// How IAM writes an effect.
pub open spec fn effect_name(e: Effect) -> Seq<char> {
    match e {
        Effect::Allow => "Allow"@,
        Effect::Deny => "Deny"@,
    }
}

impl Clone for Effect {
    fn clone(&self) -> (r: Self)
        ensures
            r == *self,
    {
        match self {
            Effect::Allow => Effect::Allow,
            Effect::Deny => Effect::Deny,
        }
    }
}

impl vstd::std_specs::convert::FromSpecImpl<Effect> for String {
    open spec fn obeys_from_spec() -> bool {
        false
    }

    open spec fn from_spec(v: Effect) -> String {
        vstd::pervasive::arbitrary()
    }
}

impl From<Effect> for String {
    fn from(value: Effect) -> (r: String)
        ensures
            r@ == effect_name(value),
    {
        match value {
            Effect::Allow => String::from_str("Allow"),
            Effect::Deny => String::from_str("Deny"),
        }
    }
}

/// The states of a statement builder.
pub trait StatementState {}

pub struct StatementStartState {}

impl StatementState for StatementStartState {}

/// Builder for IAM policy statements.
pub struct StatementBuilder {
    pub(crate) action: Vec<String>,
    pub(crate) effect: Effect,
    pub(crate) principal: Option<Principal>,
    pub(crate) resource: Option<Vec<Value>>,
    pub(crate) condition: Option<Value>,
}

/// What a [`StatementBuilder`] holds.
pub struct StatementBuilderView {
    pub action: Vec<String>,
    pub effect: Effect,
    pub principal: Option<Principal>,
    pub resource: Option<Vec<Value>>,
    pub condition: Option<Value>,
}

impl View for StatementBuilder {
    type V = StatementBuilderView;

    open(crate) spec fn view(&self) -> StatementBuilderView {
        StatementBuilderView {
            action: self.action,
            effect: self.effect,
            principal: self.principal,
            resource: self.resource,
            condition: self.condition,
        }
    }
}

/// The names of the actions.
pub open spec fn action_names(actions: Seq<IamAction>) -> Seq<Seq<char>> {
    actions.map_values(|a: IamAction| a.0@)
}

impl StatementBuilder {
    pub(crate) fn internal_new(action: Vec<String>, effect: Effect) -> (r: Self)
        ensures
            r@ == (StatementBuilderView { action, effect, principal: None, resource: None, condition: None }),
    {
        Self { action, effect, principal: None, resource: None, condition: None }
    }

    pub fn new(actions: Vec<IamAction>, effect: Effect) -> (r: Self)
        ensures
            views(r@.action@) == action_names(actions@),
            r@.effect == effect,
            r@.principal is None,
            r@.resource is None,
            r@.condition is None,
    {
        let mut names: Vec<String> = Vec::new();
        let mut remaining = actions;
        let ghost all = remaining@;
        while remaining.len() > 0
            invariant
                names@.len() <= all.len(),
                remaining@ == all.skip(names@.len() as int),
                views(names@) == action_names(all.take(names@.len() as int)),
            decreases remaining@.len(),
        {
            let ghost before = names@;
            let a = remaining.remove(0);
            names.push(a.0);
            assert(views(names@) =~= action_names(all.take(names@.len() as int))) by {
                assert(views(names@) =~= views(before).push(all[before.len() as int].0@));
                assert(all.take(names@.len() as int) =~= all.take(before.len() as int).push(all[before.len() as int]));
            }
            assert(remaining@ =~= all.skip(names@.len() as int));
        }
        assert(all.take(all.len() as int) =~= all);
        Self::internal_new(names, effect)
    }

    pub fn principal(self, principal: Principal) -> (r: Self)
        ensures
            r@ == (StatementBuilderView { principal: Some(principal), ..self@ }),
    {
        Self { principal: Some(principal), ..self }
    }

    pub fn condition(self, condition: Value) -> (r: Self)
        ensures
            r@ == (StatementBuilderView { condition: Some(condition), ..self@ }),
    {
        Self { condition: Some(condition), ..self }
    }

    pub fn resources(self, resources: Vec<Value>) -> (r: Self)
        ensures
            r@ == (StatementBuilderView { resource: Some(resources), ..self@ }),
    {
        Self { resource: Some(resources), ..self }
    }

    /// The statement applies to all resources: `"*"`.
    pub fn all_resources(self) -> (r: Self)
        ensures
            r@.resource matches Some(v) && json_views(v@) == seq![JsonView::String("*"@)],
            r@.action == self@.action,
            r@.effect == self@.effect,
            r@.principal == self@.principal,
            r@.condition == self@.condition,
    {
        let mut all: Vec<Value> = Vec::new();
        all.push(string_value("*"));
        proof {
            reveal_with_fuel(json_views, 2);
            assert(all@.drop_last() =~= Seq::<Value>::empty());
        }
        Self { resource: Some(all), ..self }
    }

    pub fn build(self) -> (r: Statement)
        ensures
            r@.action == self@.action,
            r@.effect@ == effect_name(self@.effect),
            r@.principal == self@.principal,
            r@.resource == self@.resource,
            r@.condition == self@.condition,
    {
        Statement {
            action: self.action,
            effect: self.effect.into(),
            principal: self.principal,
            resource: self.resource,
            condition: self.condition,
        }
    }
}

/// A permission made of a policy name and a statement of one's own.
pub struct CustomPermission {
    pub(crate) id: PolicyName,
    pub(crate) statement: Statement,
}

/// What a [`CustomPermission`] holds.
pub struct CustomPermissionView {
    pub id: PolicyName,
    pub statement: Statement,
}

impl View for CustomPermission {
    type V = CustomPermissionView;

    open(crate) spec fn view(&self) -> CustomPermissionView {
        CustomPermissionView { id: self.id, statement: self.statement }
    }
}

impl CustomPermission {
    /// Creates a new custom IAM permission.
    ///
    /// # Arguments
    /// * `id` - Unique name for the permission
    /// * `statement` - IAM policy statement defining the permission
    pub fn new(id: PolicyName, statement: Statement) -> (r: Self)
        ensures
            r@ == (CustomPermissionView { id, statement }),
    {
        Self { id, statement }
    }
}

/// A permission that a role can be given on a resource of the stack.
pub enum Permission<'a> {
    AppConfigRead(&'a ApplicationRef, &'a EnvironmentRef, &'a ConfigurationProfileRef),
    DynamoDBRead(&'a TableRef),
    DynamoDBReadWrite(&'a TableRef),
    SecretsManagerRead(&'a SecretRef),
    SqsRead(&'a QueueRef),
    S3ReadWrite(&'a BucketRef),
    Custom(CustomPermission),
}

/// The actions that reading a DynamoDB table takes.
pub open spec fn dynamodb_read_actions() -> Seq<Seq<char>> {
    seq![
        "dynamodb:Get*"@,
        "dynamodb:DescribeTable"@,
        "dynamodb:BatchGetItem"@,
        "dynamodb:ConditionCheckItem"@,
        "dynamodb:Query"@,
        "dynamodb:Scan"@,
    ]
}

/// The actions that reading and writing a DynamoDB table take.
pub open spec fn dynamodb_read_write_actions() -> Seq<Seq<char>> {
    seq![
        "dynamodb:Get*"@,
        "dynamodb:DescribeTable"@,
        "dynamodb:BatchGetItem"@,
        "dynamodb:BatchWriteItem"@,
        "dynamodb:ConditionCheckItem"@,
        "dynamodb:Query"@,
        "dynamodb:Scan"@,
        "dynamodb:DeleteItem"@,
        "dynamodb:PutItem"@,
        "dynamodb:UpdateItem"@,
    ]
}

/// The actions that reading an SQS queue takes.
pub open spec fn sqs_read_actions() -> Seq<Seq<char>> {
    seq![
        "sqs:ChangeMessageVisibility"@,
        "sqs:DeleteMessage"@,
        "sqs:GetQueueAttributes"@,
        "sqs:GetQueueUrl"@,
        "sqs:ReceiveMessage"@,
    ]
}

/// The actions that reading and writing an S3 bucket take.
pub open spec fn s3_read_write_actions() -> Seq<Seq<char>> {
    seq![
        "s3:Abort*"@,
        "s3:DeleteObject*"@,
        "s3:GetBucket*"@,
        "s3:GetObject*"@,
        "s3:List*"@,
        "s3:PutObject"@,
        "s3:PutObjectLegalHold"@,
        "s3:PutObjectRetention"@,
        "s3:PutObjectTagging"@,
        "s3:PutObjectVersionTagging"@,
    ]
}

/// The actions that reading a secret takes.
pub open spec fn secrets_manager_read_actions() -> Seq<Seq<char>> {
    seq!["secretsmanager:GetSecretValue"@]
}

/// The actions that reading an AppConfig configuration takes.
pub open spec fn appconfig_read_actions() -> Seq<Seq<char>> {
    seq!["appconfig:StartConfigurationSession"@, "appconfig:GetLatestConfiguration"@]
}

/// The ARN pattern of an AppConfig configuration, joined from its parts.
pub open spec fn appconfig_configuration_arn(
    app: crate::shared::RefView,
    env: crate::shared::RefView,
    profile: crate::shared::RefView,
) -> JsonView {
    join_json(
        ""@,
        seq![
            JsonView::String("arn:aws:appconfig:*:"@),
            get_ref_json(AWS_ACCOUNT_PSEUDO_PARAM@),
            JsonView::String(":application/"@),
            ref_json(app.resource_id, app.ref_name),
            JsonView::String("/environment/"@),
            ref_json(env.resource_id, env.ref_name),
            JsonView::String("/configuration/"@),
            ref_json(profile.resource_id, profile.ref_name),
        ],
    )
}

/// `p` is the policy named `name` with one statement that allows `actions` on `resources`.
pub open spec fn is_allow_policy(p: Policy, name: Seq<char>, actions: Seq<Seq<char>>, resources: Seq<JsonView>) -> bool {
    let doc = p@.policy_document@;
    &&& p@.policy_name@ == name
    &&& doc.version@ == policy_version()
    &&& doc.statements@.len() == 1
    &&& {
        let s = doc.statements@[0]@;
        &&& views(s.action@) == actions
        &&& s.effect@ == "Allow"@
        &&& s.principal is None
        &&& s.condition is None
        &&& s.resource matches Some(res) && json_views(res@) == resources
    }
}

/// A list of strings with the given characters.
fn strings(parts: &[&str]) -> (r: Vec<String>)
    ensures
        views(r@) == parts@.map_values(|p: &str| p@),
{
    let mut out: Vec<String> = Vec::new();
    let mut i: usize = 0;
    while i < parts.len()
        invariant
            i <= parts@.len(),
            views(out@) == parts@.take(i as int).map_values(|p: &str| p@),
        decreases parts@.len() - i,
    {
        let ghost before = out@;
        out.push(String::from_str(parts[i]));
        assert(views(out@) =~= parts@.take(i + 1).map_values(|p: &str| p@)) by {
            assert(views(out@) =~= views(before).push(parts@[i as int]@));
        }
        i = i + 1;
    }
    assert(parts@.take(parts@.len() as int) =~= parts@);
    out
}

/// A policy named `name` with one statement that allows `actions` on `resources`.
fn allow_policy(name: String, actions: Vec<String>, resources: Vec<Value>) -> (r: Policy)
    ensures
        is_allow_policy(r, name@, views(actions@), json_views(resources@)),
{
    let statement = StatementBuilder::internal_new(actions, Effect::Allow).resources(resources).build();
    let mut statements: Vec<Statement> = Vec::new();
    statements.push(statement);
    let policy_document = PolicyDocumentBuilder::new(statements).build();
    PolicyBuilder::new(PolicyName(name), policy_document).build()
}

/// A list of one value.
fn one_value(v: Value) -> (r: Vec<Value>)
    ensures
        json_views(r@) == seq![v@],
{
    let mut out: Vec<Value> = Vec::new();
    out.push(v);
    proof {
        reveal_with_fuel(json_views, 2);
        assert(out@.drop_last() =~= Seq::<Value>::empty());
    }
    out
}

/// The policy that lets a role read a DynamoDB table.
fn dynamodb_read_policy(table: &TableRef) -> (r: Policy)
    ensures
        is_allow_policy(r, table@.resource_id + "Read"@, dynamodb_read_actions(), seq![get_arn_json(table@.resource_id)]),
{
    let id = table.get_resource_id();
    let actions = strings(
        &[
            "dynamodb:Get*",
            "dynamodb:DescribeTable",
            "dynamodb:BatchGetItem",
            "dynamodb:ConditionCheckItem",
            "dynamodb:Query",
            "dynamodb:Scan",
        ],
    );
    assert(views(actions@) =~= dynamodb_read_actions());
    allow_policy(crate::text::concat2(id, "Read"), actions, one_value(get_arn(id)))
}

/// `r` is the policy that grants the permission `p`.
pub open spec fn permission_policy(p: Permission, r: Policy) -> bool {
    match p {
        Permission::DynamoDBRead(table) => is_allow_policy(
            r,
            table@.resource_id + "Read"@,
            dynamodb_read_actions(),
            seq![get_arn_json(table@.resource_id)],
        ),
        Permission::DynamoDBReadWrite(table) => is_allow_policy(
            r,
            table@.resource_id + "ReadWrite"@,
            dynamodb_read_write_actions(),
            seq![get_arn_json(table@.resource_id)],
        ),
        Permission::SqsRead(queue) => is_allow_policy(
            r,
            queue@.resource_id + "Read"@,
            sqs_read_actions(),
            seq![get_arn_json(queue@.resource_id)],
        ),
        Permission::S3ReadWrite(bucket) => is_allow_policy(
            r,
            bucket@.resource_id + "ReadWrite"@,
            s3_read_write_actions(),
            seq![
                get_arn_json(bucket@.resource_id),
                join_json("/"@, seq![get_arn_json(bucket@.resource_id), JsonView::String("*"@)]),
            ],
        ),
        Permission::SecretsManagerRead(secret) => is_allow_policy(
            r,
            secret@.resource_id + "Read"@,
            secrets_manager_read_actions(),
            seq![ref_json(secret@.resource_id, secret@.ref_name)],
        ),
        Permission::AppConfigRead(app, env, profile) => is_allow_policy(
            r,
            app@.resource_id + "Read"@,
            appconfig_read_actions(),
            seq![appconfig_configuration_arn(app@, env@, profile@)],
        ),
        Permission::Custom(custom) => {
            &&& r@.policy_name == custom@.id.0
            &&& r@.policy_document@.version@ == policy_version()
            &&& r@.policy_document@.statements@ == seq![custom@.statement]
        },
    }
}

/// The statement `st` allows the action `action`.
pub open spec fn statement_allows(st: Statement, action: Seq<char>) -> bool {
    &&& st@.effect@ == "Allow"@
    &&& views(st@.action@).contains(action)
}

/// Some statement of the policy `r` allows the action `action`.
pub open spec fn policy_allows(r: Policy, action: Seq<char>) -> bool {
    exists|i: int|
        0 <= i < r@.policy_document@.statements@.len()
            && #[trigger] statement_allows(r@.policy_document@.statements@[i], action)
}

/// A permission's policy allows what the permission is named for. Read-write
/// access to a bucket lets the role write objects (`s3:PutObject`) as well as
/// read (`s3:GetObject*`) and delete them (`s3:DeleteObject*`); read-write
/// access to a table lets it put, update and delete items as well as get them;
/// reading a queue lets it receive and delete messages; reading a secret gets its
/// value; reading an AppConfig configuration starts a session and gets the latest
/// configuration. Read access to a table gets and queries items and does not put
/// them. Read-write access to a bucket covers the bucket and the objects in it.
pub proof fn permission_policies_allow_their_actions(p: Permission, r: Policy)
    requires
        permission_policy(p, r),
    ensures
        p is S3ReadWrite ==> {
            &&& policy_allows(r, "s3:PutObject"@)
            &&& policy_allows(r, "s3:GetObject*"@)
            &&& policy_allows(r, "s3:DeleteObject*"@)
        },
        p is DynamoDBReadWrite ==> {
            &&& policy_allows(r, "dynamodb:PutItem"@)
            &&& policy_allows(r, "dynamodb:UpdateItem"@)
            &&& policy_allows(r, "dynamodb:DeleteItem"@)
            &&& policy_allows(r, "dynamodb:Get*"@)
        },
        p is SqsRead ==> {
            &&& policy_allows(r, "sqs:ReceiveMessage"@)
            &&& policy_allows(r, "sqs:DeleteMessage"@)
        },
        p is DynamoDBRead ==> {
            &&& policy_allows(r, "dynamodb:Get*"@)
            &&& policy_allows(r, "dynamodb:Query"@)
            &&& !policy_allows(r, "dynamodb:PutItem"@)
        },
        p is SecretsManagerRead ==> policy_allows(r, "secretsmanager:GetSecretValue"@),
        p is AppConfigRead ==> {
            &&& policy_allows(r, "appconfig:StartConfigurationSession"@)
            &&& policy_allows(r, "appconfig:GetLatestConfiguration"@)
        },
        p matches Permission::S3ReadWrite(bucket) ==> {
            let arn = get_arn_json(bucket@.resource_id);
            &&& r@.policy_document@.statements@[0]@.resource matches Some(res) && json_views(res@).contains(arn)
                && json_views(res@).contains(join_json("/"@, seq![arn, JsonView::String("*"@)]))
        },
{
    let sts = r@.policy_document@.statements@;
    match p {
        Permission::S3ReadWrite(bucket) => {
            let acts = s3_read_write_actions();
            assert(acts[5] == "s3:PutObject"@ && acts[3] == "s3:GetObject*"@ && acts[1] == "s3:DeleteObject*"@);
            assert(statement_allows(sts[0], "s3:PutObject"@));
            assert(statement_allows(sts[0], "s3:GetObject*"@));
            assert(statement_allows(sts[0], "s3:DeleteObject*"@));
            let res = sts[0]@.resource->Some_0;
            assert(json_views(res@)[0] == get_arn_json(bucket@.resource_id));
            assert(json_views(res@)[1] == join_json(
                "/"@,
                seq![get_arn_json(bucket@.resource_id), JsonView::String("*"@)],
            ));
        },
        Permission::DynamoDBReadWrite(_) => {
            let acts = dynamodb_read_write_actions();
            assert(acts[8] == "dynamodb:PutItem"@ && acts[9] == "dynamodb:UpdateItem"@);
            assert(acts[7] == "dynamodb:DeleteItem"@ && acts[0] == "dynamodb:Get*"@);
            assert(statement_allows(sts[0], "dynamodb:PutItem"@));
            assert(statement_allows(sts[0], "dynamodb:UpdateItem"@));
            assert(statement_allows(sts[0], "dynamodb:DeleteItem"@));
            assert(statement_allows(sts[0], "dynamodb:Get*"@));
        },
        Permission::SqsRead(_) => {
            let acts = sqs_read_actions();
            assert(acts[4] == "sqs:ReceiveMessage"@ && acts[1] == "sqs:DeleteMessage"@);
            assert(statement_allows(sts[0], "sqs:ReceiveMessage"@));
            assert(statement_allows(sts[0], "sqs:DeleteMessage"@));
        },
        Permission::DynamoDBRead(_) => {
            let acts = dynamodb_read_actions();
            assert(acts[0] == "dynamodb:Get*"@ && acts[4] == "dynamodb:Query"@);
            assert(statement_allows(sts[0], "dynamodb:Get*"@));
            assert(statement_allows(sts[0], "dynamodb:Query"@));
            reveal_strlit("dynamodb:PutItem");
            reveal_strlit("dynamodb:Get*");
            reveal_strlit("dynamodb:DescribeTable");
            reveal_strlit("dynamodb:BatchGetItem");
            reveal_strlit("dynamodb:ConditionCheckItem");
            reveal_strlit("dynamodb:Query");
            reveal_strlit("dynamodb:Scan");
            assert(!acts.contains("dynamodb:PutItem"@)) by {
                assert forall|i: int| 0 <= i < acts.len() implies acts[i] != "dynamodb:PutItem"@ by {
                    assert(acts[i].len() != "dynamodb:PutItem"@.len());
                }
            }
            assert forall|i: int| 0 <= i < sts.len() implies !#[trigger] statement_allows(sts[i], "dynamodb:PutItem"@) by {
                assert(i == 0);
            }
        },
        Permission::SecretsManagerRead(_) => {
            assert(secrets_manager_read_actions()[0] == "secretsmanager:GetSecretValue"@);
            assert(statement_allows(sts[0], "secretsmanager:GetSecretValue"@));
        },
        Permission::AppConfigRead(_, _, _) => {
            let acts = appconfig_read_actions();
            assert(acts[0] == "appconfig:StartConfigurationSession"@);
            assert(acts[1] == "appconfig:GetLatestConfiguration"@);
            assert(statement_allows(sts[0], "appconfig:StartConfigurationSession"@));
            assert(statement_allows(sts[0], "appconfig:GetLatestConfiguration"@));
        },
        Permission::Custom(_) => {},
    }
}

impl Permission<'_> {
    /// The inline policy that grants the permission.
    pub(crate) fn into_policy(self) -> (r: Policy)
        ensures
            permission_policy(self, r),
    {
        match self {
            Permission::DynamoDBRead(table) => {
                dynamodb_read_policy(table)
            },
            Permission::DynamoDBReadWrite(table) => {
                let id = table.get_resource_id();
                let actions = strings(
                    &[
                        "dynamodb:Get*",
                        "dynamodb:DescribeTable",
                        "dynamodb:BatchGetItem",
                        "dynamodb:BatchWriteItem",
                        "dynamodb:ConditionCheckItem",
                        "dynamodb:Query",
                        "dynamodb:Scan",
                        "dynamodb:DeleteItem",
                        "dynamodb:PutItem",
                        "dynamodb:UpdateItem",
                    ],
                );
                assert(views(actions@) =~= dynamodb_read_write_actions());
                allow_policy(crate::text::concat2(id, "ReadWrite"), actions, one_value(get_arn(id)))
            },
            Permission::SqsRead(queue) => {
                let id = queue.get_resource_id();
                let actions = strings(
                    &[
                        "sqs:ChangeMessageVisibility",
                        "sqs:DeleteMessage",
                        "sqs:GetQueueAttributes",
                        "sqs:GetQueueUrl",
                        "sqs:ReceiveMessage",
                    ],
                );
                assert(views(actions@) =~= sqs_read_actions());
                allow_policy(crate::text::concat2(id, "Read"), actions, one_value(get_arn(id)))
            },
            Permission::S3ReadWrite(bucket) => {
                let id = bucket.get_resource_id();
                let arn = get_arn(id);
                let actions = strings(
                    &[
                        "s3:Abort*",
                        "s3:DeleteObject*",
                        "s3:GetBucket*",
                        "s3:GetObject*",
                        "s3:List*",
                        "s3:PutObject",
                        "s3:PutObjectLegalHold",
                        "s3:PutObjectRetention",
                        "s3:PutObjectTagging",
                        "s3:PutObjectVersionTagging",
                    ],
                );
                assert(views(actions@) =~= s3_read_write_actions());
                let mut parts: Vec<Value> = Vec::new();
                parts.push(arn.clone());
                parts.push(string_value("*"));
                let mut resources: Vec<Value> = Vec::new();
                resources.push(arn);
                let ghost parts_view = json_views(parts@);
                proof {
                    reveal_with_fuel(json_views, 3);
                    assert(parts@.drop_last().drop_last() =~= Seq::<Value>::empty());
                    assert(parts_view =~= seq![get_arn_json(id@), JsonView::String("*"@)]);
                }
                resources.push(join("/", parts));
                proof {
                    reveal_with_fuel(json_views, 3);
                    assert(resources@.drop_last().drop_last() =~= Seq::<Value>::empty());
                    assert(json_views(resources@) =~= seq![
                        get_arn_json(id@),
                        join_json("/"@, seq![get_arn_json(id@), JsonView::String("*"@)]),
                    ]);
                }
                allow_policy(crate::text::concat2(id, "ReadWrite"), actions, resources)
            },
            Permission::SecretsManagerRead(secret) => {
                let id = secret.get_resource_id();
                let actions = strings(&["secretsmanager:GetSecretValue"]);
                assert(views(actions@) =~= secrets_manager_read_actions());
                allow_policy(crate::text::concat2(id, "Read"), actions, one_value(secret.get_ref()))
            },
            Permission::AppConfigRead(app, env, profile) => {
                let id = app.get_resource_id();
                let mut parts: Vec<Value> = Vec::new();
                parts.push(string_value("arn:aws:appconfig:*:"));
                parts.push(get_ref(AWS_ACCOUNT_PSEUDO_PARAM));
                parts.push(string_value(":application/"));
                parts.push(app.get_ref());
                parts.push(string_value("/environment/"));
                parts.push(env.get_ref());
                parts.push(string_value("/configuration/"));
                parts.push(profile.get_ref());
                let ghost parts_view = json_views(parts@);
                proof {
                    reveal_with_fuel(json_views, 9);
                    assert(parts@.drop_last().drop_last().drop_last().drop_last().drop_last().drop_last().drop_last().drop_last()
                        =~= Seq::<Value>::empty());
                    assert(parts_view =~= seq![
                        JsonView::String("arn:aws:appconfig:*:"@),
                        get_ref_json(AWS_ACCOUNT_PSEUDO_PARAM@),
                        JsonView::String(":application/"@),
                        ref_json(app@.resource_id, app@.ref_name),
                        JsonView::String("/environment/"@),
                        ref_json(env@.resource_id, env@.ref_name),
                        JsonView::String("/configuration/"@),
                        ref_json(profile@.resource_id, profile@.ref_name),
                    ]);
                }
                let resource = join("", parts);
                let actions = strings(&["appconfig:StartConfigurationSession", "appconfig:GetLatestConfiguration"]);
                assert(views(actions@) =~= appconfig_read_actions());
                allow_policy(crate::text::concat2(id, "Read"), actions, one_value(resource))
            },
            Permission::Custom(CustomPermission { id, statement }) => {
                let mut statements: Vec<Statement> = Vec::new();
                statements.push(statement);
                let policy_document = PolicyDocumentBuilder::new(statements).build();
                PolicyBuilder::new(id, policy_document).build()
            },
        }
    }
}

/// `new` holds the statements of `old`, in order, each pointed at `target` alone.
pub open spec fn statements_pointed_at(new: Seq<Statement>, old: Seq<Statement>, target: JsonView) -> bool {
    &&& new.len() == old.len()
    &&& forall|k: int| #![trigger new[k]] 0 <= k < new.len() ==> {
        &&& new[k]@.action == old[k]@.action
        &&& new[k]@.effect == old[k]@.effect
        &&& new[k]@.principal == old[k]@.principal
        &&& new[k]@.condition == old[k]@.condition
        &&& new[k]@.resource matches Some(res) && json_views(res@) == seq![target]
    }
}

/// The document with each of its statements pointed at `target` alone.
pub(crate) fn point_statements_at(doc: PolicyDocument, target: &Value) -> (r: PolicyDocument)
    ensures
        r@.version == doc@.version,
        statements_pointed_at(r@.statements@, doc@.statements@, target@),
{
    let PolicyDocument { version, statements } = doc;
    let ghost old_statements = statements@;
    let mut rest = statements;
    let mut out: Vec<Statement> = Vec::new();
    while rest.len() > 0
        invariant
            out@.len() + rest@.len() == old_statements.len(),
            rest@ == old_statements.skip(out@.len() as int),
            statements_pointed_at(out@, old_statements.take(out@.len() as int), target@),
        decreases rest@.len(),
    {
        let ghost k = out@.len() as int;
        let mut st = rest.remove(0);
        let mut resources: Vec<Value> = Vec::new();
        resources.push(target.clone());
        proof {
            reveal_with_fuel(json_views, 2);
            assert(resources@.drop_last() =~= Seq::<Value>::empty());
        }
        st.resource = Some(resources);
        out.push(st);
        proof {
            assert(rest@ =~= old_statements.skip(out@.len() as int));
            assert(old_statements.take(out@.len() as int).drop_last() =~= old_statements.take(k));
            assert(old_statements[k] == old_statements.skip(k)[0]);
        }
    }
    assert(old_statements.take(out@.len() as int) =~= old_statements);
    PolicyDocument { version, statements: out }
}

} // verus!
