use crate::cloudwatch::{LogGroupBuilder, LogGroupRef};
use crate::iam::{
    effect_name, find_missing_services, map_string_of_tom_dependencies_to_aws_services, missing_services,
    AssumeRolePolicyDocumentBuilder, Effect, Permission as IamPermission, Policy, PrincipalBuilder, Principal,
    RoleBuilder, RolePropertiesBuilder, RoleRef, StatementBuilder,
};
use crate::intrinsic::{get_arn, get_arn_json, get_ref, get_ref_json, join, join_json, string_value, AWS_PARTITION_PSEUDO_PARAM};
use crate::json::{json_views, JsonView, Value};
use crate::lambda::{
    architecture_name, runtime_name, Architecture, Code, Environment, EventSourceMapping, EventSourceProperties,
    Function, FunctionRef, LambdaCode, LambdaCodeView, LambdaFunctionProperties, LoggingInfo, Runtime, ScalingConfig,
    ZipView,
};
use crate::shared::{opt_view, ref_json, Id, RefView, RefWithIdView};
use crate::sqs::QueueRef;
use crate::stack::{is_generated_id, keys_of, last_index_of, upsert, Asset, Resource, StackBuilder, StackBuilderView};
use crate::text::{concat2, str_eq, views};
use crate::wrappers::{
    EnvVarKey, LogGroupName, Memory, RetentionInDays, SqsEventSourceMaxConcurrency,
    StringWithOnlyAlphaNumericsUnderscoresAndHyphens, Timeout,
};
use std::marker::PhantomData;
use vstd::prelude::*;

verus! {

/// The states of a [`FunctionBuilder`]: what has been given so far.
pub trait FunctionBuilderState {}

pub struct StartState {}

pub struct CodeState {}

pub struct ZipStateWithHandler {}

pub struct ZipStateWithHandlerAndRuntime {}

pub struct EventSourceMappingState {}

impl FunctionBuilderState for StartState {}

impl FunctionBuilderState for CodeState {}

impl FunctionBuilderState for ZipStateWithHandler {}

impl FunctionBuilderState for ZipStateWithHandlerAndRuntime {}

impl FunctionBuilderState for EventSourceMappingState {}

/// The queue that feeds a function, by logical id, and how far it may scale the function.
pub struct EventSourceMappingInfo {
    pub(crate) id: String,
    pub(crate) max_concurrency: Option<u16>,
}

/// What an [`EventSourceMappingInfo`] holds.
pub struct EventSourceMappingInfoView {
    pub id: Seq<char>,
    pub max_concurrency: Option<u16>,
}

impl View for EventSourceMappingInfo {
    type V = EventSourceMappingInfoView;

    open(crate) spec fn view(&self) -> EventSourceMappingInfoView {
        EventSourceMappingInfoView { id: self.id@, max_concurrency: self.max_concurrency }
    }
}

/// Builder for Lambda functions, with their role and log group.
pub struct FunctionBuilder<T: FunctionBuilderState> {
    pub(crate) state: PhantomData<T>,
    pub(crate) id: Id,
    pub(crate) architecture: Architecture,
    pub(crate) memory: u16,
    pub(crate) timeout: u16,
    pub(crate) code: Option<Code>,
    pub(crate) handler: Option<String>,
    pub(crate) runtime: Option<Runtime>,
    pub(crate) additional_policies: Vec<Policy>,
    pub(crate) aws_services_in_dependencies: Vec<String>,
    pub(crate) env_vars: Vec<(String, Value)>,
    pub(crate) function_name: Option<String>,
    pub(crate) sqs_event_source_mapping: Option<EventSourceMappingInfo>,
    pub(crate) reserved_concurrent_executions: Option<u32>,
    pub(crate) log_group: Option<LogGroupRef>,
}

/// What a [`FunctionBuilder`] holds.
pub struct FunctionBuilderView {
    pub id: Id,
    pub architecture: Architecture,
    pub memory: u16,
    pub timeout: u16,
    pub code: Option<Code>,
    pub handler: Option<String>,
    pub runtime: Option<Runtime>,
    pub additional_policies: Seq<Policy>,
    pub aws_services_in_dependencies: Seq<Seq<char>>,
    pub env_vars: Seq<(Seq<char>, JsonView)>,
    pub function_name: Option<String>,
    pub sqs_event_source_mapping: Option<EventSourceMappingInfoView>,
    pub reserved_concurrent_executions: Option<u32>,
    pub log_group: Option<RefView>,
}

/// The views of environment variables.
pub open spec fn env_views(s: Seq<(String, Value)>) -> Seq<(Seq<char>, JsonView)> {
    s.map_values(|p: (String, Value)| (p.0@, p.1@))
}

impl<T: FunctionBuilderState> View for FunctionBuilder<T> {
    type V = FunctionBuilderView;

    open(crate) spec fn view(&self) -> FunctionBuilderView {
        FunctionBuilderView {
            id: self.id,
            architecture: self.architecture,
            memory: self.memory,
            timeout: self.timeout,
            code: self.code,
            handler: self.handler,
            runtime: self.runtime,
            additional_policies: self.additional_policies@,
            aws_services_in_dependencies: views(self.aws_services_in_dependencies@),
            env_vars: env_views(self.env_vars@),
            function_name: self.function_name,
            sqs_event_source_mapping: match self.sqs_event_source_mapping {
                Some(m) => Some(m@),
                None => None,
            },
            reserved_concurrent_executions: self.reserved_concurrent_executions,
            log_group: match self.log_group {
                Some(l) => Some(l@),
                None => None,
            },
        }
    }
}

/// The environment variables by name, as a map collects them: a later value for a name
/// replaces an earlier one, in the place of the first.
pub open spec fn collect_env(vars: Seq<(Seq<char>, JsonView)>) -> Seq<(Seq<char>, JsonView)>
    decreases vars.len(),
{
    if vars.len() == 0 {
        vars
    } else {
        upsert(collect_env(vars.drop_last()), vars.last().0, vars.last().1)
    }
}

/// `key` is the key of an asset: a generated id for an asset, with `.zip` added.
pub open spec fn is_asset_key(key: Seq<char>) -> bool {
    exists|g: Seq<char>| is_generated_id(g, "Asset"@) && key == g + ".zip"@
}

/// The asset and the code properties that a function's code makes.
pub open spec fn code_parts(code: Code, asset: Option<Asset>, lambda_code: LambdaCodeView) -> bool {
    match code {
        Code::Zip(z) => {
            &&& asset matches Some(a) && {
                &&& a.s3_bucket@ == z@.bucket@
                &&& a.path@ == z@.file.0@
                &&& is_asset_key(a.s3_key@)
                &&& lambda_code.s3_key matches Some(k) && k@ == a.s3_key@
            }
            &&& lambda_code.s3_bucket matches Some(b) && b@ == z@.bucket@
            &&& lambda_code.zipfile is None
        },
        Code::Inline(s) => {
            &&& asset is None
            &&& lambda_code.s3_bucket is None
            &&& lambda_code.s3_key is None
            &&& lambda_code.zipfile == Some(s)
        },
    }
}

/// The managed policy every function's role gets: basic execution, which lets it write logs.
pub open spec fn basic_execution_role_arn() -> JsonView {
    join_json(
        ""@,
        seq![
            JsonView::String("arn:"@),
            get_ref_json(AWS_PARTITION_PSEUDO_PARAM@),
            JsonView::String(":iam::aws:policy/service-role/AWSLambdaBasicExecutionRole"@),
        ],
    )
}

/// `r` is the role that a function with id `id` gets, with the extra policies `policies`, checked
/// against the services `services` it depends on, and with logical id `role_id`.
pub open spec fn function_role_made(
    r: crate::iam::Role,
    id: Id,
    policies: Seq<Policy>,
    services: Seq<Seq<char>>,
    role_id: Seq<char>,
) -> bool {
    let props = r@.properties@;
    let doc = props.assumed_role_policy_document@;
    &&& r@.id.0@ == id.0@ + "Role"@
    &&& r@.resource_id@ == role_id
    &&& is_generated_id(role_id, "LambdaFunctionRole"@)
    &&& r@.resource_type@ == "AWS::IAM::Role"@
    &&& views(r@.potentially_missing_services@) == missing_services(services, policies)
    &&& props.policies matches Some(p) && p@ == policies
    &&& props.role_name is None
    &&& json_views(props.managed_policy_arns@) == seq![basic_execution_role_arn()]
    &&& doc.version@ == crate::iam::policy_version()
    &&& doc.statements@.len() == 1
    &&& {
        let st = doc.statements@[0]@;
        &&& views(st.action@) == seq!["sts:AssumeRole"@]
        &&& st.effect@ == "Allow"@
        &&& st.principal matches Some(Principal::Service(s)) && s@.service@ == "lambda.amazonaws.com"@
        &&& st.resource is None
        &&& st.condition is None
    }
}

/// `f` is the function that the builder state `b` describes, with the given logical ids.
pub open spec fn function_made_by(
    f: Function,
    b: FunctionBuilderView,
    function_id: Seq<char>,
    role_id: Seq<char>,
    log_group: RefView,
) -> bool {
    let p = f@.properties@;
    &&& f@.id == b.id
    &&& f@.resource_id@ == function_id
    &&& f@.resource_type@ == "AWS::Lambda::Function"@
    &&& code_parts(b.code.unwrap(), f@.asset, p.code@)
    &&& views(p.architectures@) == seq![architecture_name(b.architecture)]
    &&& p.memory_size == b.memory
    &&& p.timeout == b.timeout
    &&& p.handler == b.handler
    &&& opt_view(p.runtime) == (match b.runtime {
        Some(r) => Some(runtime_name(r)),
        None => None,
    })
    &&& p.role@ == get_arn_json(role_id)
    &&& p.function_name == b.function_name
    &&& if b.env_vars.len() == 0 {
        p.environment is None
    } else {
        p.environment matches Some(e) && env_views(e@.variables@) == collect_env(b.env_vars)
    }
    &&& p.reserved_concurrent_executions == b.reserved_concurrent_executions
    &&& p.logging_info@.log_group matches Some(g) && g@ == ref_json(log_group.resource_id, log_group.ref_name)
}

/// `e` is the mapping from the queue `m` to the function with logical id `function_id`.
pub open spec fn event_source_mapping_made(e: EventSourceMapping, b: FunctionBuilderView, m: EventSourceMappingInfoView, function_id: Seq<char>) -> bool {
    let p = e@.properties@;
    &&& e@.id.0@ == b.id.0@ + "ESM"@
    &&& e@.resource_id@ == "EventSourceMapping"@ + function_id
    &&& e@.resource_type@ == "AWS::Lambda::EventSourceMapping"@
    &&& p.event_source_arn matches Some(a) && a@ == get_arn_json(m.id)
    &&& p.function_name matches Some(n) && n@ == get_ref_json(function_id)
    &&& match m.max_concurrency {
        Some(c) => p.scaling_config matches Some(s) && s@.max_concurrency == c,
        None => p.scaling_config is None,
    }
}

/// `l` is the log group a function gets where none was given: kept for two years, and named
/// after the function where it has a name.
pub open spec fn default_log_group_made(l: crate::cloudwatch::LogGroup, b: FunctionBuilderView, log_group: RefView) -> bool {
    let p = l@.properties@;
    &&& l@.id.0@ == b.id.0@ + "LogGroup"@
    &&& l@.resource_id@ == log_group.resource_id
    &&& l@.resource_type@ == "AWS::Logs::LogGroup"@
    &&& p.retention_in_days == Some(731u16)
    &&& p.log_group_class is None
    &&& opt_view(p.log_group_name) == (match b.function_name {
        Some(n) => Some("/aws/lambda/"@ + n@),
        None => None,
    })
}

/// What building a function from the builder state `b` does to the stack's resources: the
/// queue mapping where one was given, the role, a log group where none was given, and the
/// function last.
pub open spec fn function_resources_added(
    before: StackBuilderView,
    after: StackBuilderView,
    b: FunctionBuilderView,
    function: RefWithIdView,
    role: RefView,
    log_group: RefView,
) -> bool {
    let n = before.resources.len() as int;
    let k = if b.sqs_event_source_mapping is Some { 1int } else { 0int };
    let l = if b.log_group is Some { 0int } else { 1int };
    &&& after.tags == before.tags
    &&& after.outputs == before.outputs
    &&& function.id == b.id.0@
    &&& is_generated_id(function.resource_id, "LambdaFunction"@)
    &&& function.ref_name is None && function.arn_value is None
    &&& role.ref_name is None && role.arn_value is None
    &&& after.resources.len() == n + k + 1 + l + 1
    &&& after.resources.subrange(0, n) == before.resources
    &&& match b.sqs_event_source_mapping {
        Some(m) => after.resources[n] matches Resource::EventSourceMapping(e) && event_source_mapping_made(
            e,
            b,
            m,
            function.resource_id,
        ),
        None => true,
    }
    &&& after.resources[n + k] matches Resource::Role(r) && function_role_made(
        r,
        b.id,
        b.additional_policies,
        b.aws_services_in_dependencies,
        role.resource_id,
    )
    &&& match b.log_group {
        Some(g) => log_group == g,
        None => {
            &&& after.resources[n + k + 1] matches Resource::LogGroup(g) && default_log_group_made(g, b, log_group)
            &&& is_generated_id(log_group.resource_id, "LogGroup"@)
            &&& log_group.ref_name is None && log_group.arn_value is None
        },
    }
    &&& after.resources.last() matches Resource::Function(f) && function_made_by(
        f,
        b,
        function.resource_id,
        role.resource_id,
        log_group,
    )
}

/// The position of the last variable named `k`.
fn last_env_position(s: &Vec<(String, Value)>, k: &str) -> (r: Option<usize>)
    ensures
        match r {
            Some(i) => i < s@.len() && i as int == last_index_of(keys_of(env_views(s@)), k@),
            None => last_index_of(keys_of(env_views(s@)), k@) < 0,
        },
{
    let mut i: usize = s.len();
    assert(s@.take(s@.len() as int) =~= s@);
    while i > 0
        invariant
            i <= s@.len(),
            last_index_of(keys_of(env_views(s@)), k@) == last_index_of(keys_of(env_views(s@.take(i as int))), k@),
        decreases i,
    {
        let ghost t = env_views(s@.take(i as int));
        assert(keys_of(t).last() == s@[i - 1].0@);
        if str_eq(s[i - 1].0.as_str(), k) {
            return Some(i - 1);
        }
        assert(keys_of(t).drop_last() =~= keys_of(env_views(s@.take(i - 1))));
        i = i - 1;
    }
    assert(keys_of(env_views(s@.take(0))) =~= Seq::<Seq<char>>::empty());
    None
}

/// The variables collected by name; a later value for a name replaces an earlier one.
fn collect_env_vars(vars: Vec<(String, Value)>) -> (r: Vec<(String, Value)>)
    ensures
        env_views(r@) == collect_env(env_views(vars@)),
{
    let ghost all = env_views(vars@);
    let mut rest = vars;
    let mut out: Vec<(String, Value)> = Vec::new();
    let ghost mut done: int = 0;
    assert(all.take(0) =~= Seq::<(Seq<char>, JsonView)>::empty());
    while rest.len() > 0
        invariant
            0 <= done <= all.len(),
            env_views(rest@) == all.skip(done),
            env_views(out@) == collect_env(all.take(done)),
        decreases rest@.len(),
    {
        let ghost old_rest = rest@;
        let (k, v) = rest.remove(0);
        proof {
            assert(env_views(old_rest)[0] == all.skip(done)[0]);
            assert(env_views(rest@) =~= env_views(old_rest).skip(1));
            assert(all.take(done + 1).drop_last() =~= all.take(done));
            assert(all.take(done + 1).last() == all[done]);
        }
        let ghost old_out = env_views(out@);
        match last_env_position(&out, k.as_str()) {
            Some(i) => {
                out.remove(i);
                out.insert(i, (k, v));
                assert(env_views(out@) =~= old_out.update(i as int, (all[done].0, all[done].1)));
            },
            None => {
                out.push((k, v));
                assert(env_views(out@) =~= old_out.push((all[done].0, all[done].1)));
            },
        }
        proof {
            done = done + 1;
            assert(env_views(rest@) =~= all.skip(done));
        }
    }
    assert(all.take(done) =~= all);
    out
}

/// The code's asset, where it is a zip file, and the code properties of the function.
fn function_code(code: Code) -> (r: (Option<Asset>, LambdaCode))
    ensures
        code_parts(code, r.0, r.1@),
{
    match code {
        Code::Zip(z) => {
            let asset_id = Resource::generate_id("Asset");
            let asset_id = concat2(asset_id.as_str(), ".zip");
            let ghost zv = z@;
            let crate::lambda::Zip { bucket, file } = z;
            let asset = Asset { s3_bucket: bucket.clone(), s3_key: asset_id.clone(), path: file.0 };
            let code = LambdaCode { s3_bucket: Some(bucket), s3_key: Some(asset_id), zipfile: None };
            (Some(asset), code)
        },
        Code::Inline(inline_code) => {
            let code = LambdaCode { s3_bucket: None, s3_key: None, zipfile: Some(inline_code) };
            (None, code)
        },
    }
}

/// The role a function gets: Lambda may assume it, it may write logs, and it has the extra policies.
fn function_role(
    id: &Id,
    additional_policies: Vec<Policy>,
    services: &Vec<String>,
    stack_builder: &mut StackBuilder,
) -> (r: RoleRef)
    ensures
        final(stack_builder)@.tags == old(stack_builder)@.tags,
        final(stack_builder)@.outputs == old(stack_builder)@.outputs,
        final(stack_builder)@.resources.drop_last() == old(stack_builder)@.resources,
        final(stack_builder)@.resources.len() == old(stack_builder)@.resources.len() + 1,
        final(stack_builder)@.resources.last() matches Resource::Role(role) && function_role_made(
            role,
            *id,
            additional_policies@,
            views(services@),
            r@.resource_id,
        ),
        r@.ref_name is None,
        r@.arn_value is None,
{
    let mut actions: Vec<String> = Vec::new();
    actions.push(String::from_str("sts:AssumeRole"));
    assert(views(actions@) =~= seq!["sts:AssumeRole"@]);
    let principal = PrincipalBuilder::new().service("lambda.amazonaws.com").build();
    let assume_role_statement = StatementBuilder::internal_new(actions, Effect::Allow).principal(principal).build();
    let mut statements = Vec::new();
    statements.push(assume_role_statement);
    let assumed_role_policy_document = AssumeRolePolicyDocumentBuilder::new(statements).build();
    let mut parts: Vec<Value> = Vec::new();
    parts.push(string_value("arn:"));
    parts.push(get_ref(AWS_PARTITION_PSEUDO_PARAM));
    parts.push(string_value(":iam::aws:policy/service-role/AWSLambdaBasicExecutionRole"));
    proof {
        reveal_with_fuel(json_views, 4);
        assert(parts@.drop_last().drop_last().drop_last() =~= Seq::<Value>::empty());
        assert(json_views(parts@) =~= seq![
            JsonView::String("arn:"@),
            get_ref_json(AWS_PARTITION_PSEUDO_PARAM@),
            JsonView::String(":iam::aws:policy/service-role/AWSLambdaBasicExecutionRole"@),
        ]);
    }
    let mut managed_policy_arns: Vec<Value> = Vec::new();
    managed_policy_arns.push(join("", parts));
    proof {
        reveal_with_fuel(json_views, 2);
        assert(managed_policy_arns@.drop_last() =~= Seq::<Value>::empty());
    }
    let potentially_missing = find_missing_services(services.as_slice(), additional_policies.as_slice());
    let ghost policies = additional_policies@;
    let props = RolePropertiesBuilder::new(assumed_role_policy_document, managed_policy_arns).policies(
        additional_policies,
    ).build();
    let role_id = Id::generate_id(id, "Role");
    let role_resource_id = Resource::generate_id("LambdaFunctionRole");
    let role = RoleBuilder::new_with_info_on_missing(
        role_id.0.as_str(),
        role_resource_id.as_str(),
        props,
        potentially_missing,
    ).build(stack_builder);
    role
}

impl<T: FunctionBuilderState> FunctionBuilder<T> {
    pub fn function_name(self, name: StringWithOnlyAlphaNumericsUnderscoresAndHyphens) -> (r: FunctionBuilder<T>)
        ensures
            r@ == (FunctionBuilderView { function_name: Some(name.0), ..self@ }),
    {
        Self { function_name: Some(name.0), ..self }
    }

    /// Gives the function's role the policy of the permission.
    pub fn add_permission(self, permission: IamPermission) -> (r: FunctionBuilder<T>)
        ensures
            r@ == (FunctionBuilderView { additional_policies: r@.additional_policies, ..self@ }),
            r@.additional_policies.drop_last() == self@.additional_policies,
            r@.additional_policies.len() == self@.additional_policies.len() + 1,
            crate::iam::permission_policy(permission, r@.additional_policies.last()),
    {
        let mut me = self;
        let ghost before = me.additional_policies@;
        me.additional_policies.push(permission.into_policy());
        assert(me.additional_policies@.drop_last() =~= before);
        me
    }

    /// Records the AWS services that a Cargo manifest depends on, given its text, so that the
    /// stack can report those the function's policies leave out.
    pub fn check_permissions_against_dependencies(self, cargo_toml_content: &str) -> (r: Self)
        ensures
            r@ == (FunctionBuilderView {
                aws_services_in_dependencies: crate::iam::toml_services(cargo_toml_content@),
                ..self@
            }),
    {
        let services = map_string_of_tom_dependencies_to_aws_services(cargo_toml_content);
        Self { aws_services_in_dependencies: services, ..self }
    }

    pub fn env_var(self, key: EnvVarKey, value: Value) -> (r: FunctionBuilder<T>)
        ensures
            r@ == (FunctionBuilderView { env_vars: self@.env_vars.push((key.0@, value@)), ..self@ }),
    {
        let mut me = self;
        let ghost before = env_views(me.env_vars@);
        me.env_vars.push((key.0, value));
        assert(env_views(me.env_vars@) =~= before.push((key.0@, value@)));
        me
    }

    pub fn env_var_string(self, key: EnvVarKey, value: &str) -> (r: FunctionBuilder<T>)
        ensures
            r@ == (FunctionBuilderView {
                env_vars: self@.env_vars.push((key.0@, JsonView::String(value@))),
                ..self@
            }),
    {
        self.env_var(key, string_value(value))
    }

    pub fn reserved_concurrent_executions(self, executions: u32) -> (r: FunctionBuilder<T>)
        ensures
            r@ == (FunctionBuilderView { reserved_concurrent_executions: Some(executions), ..self@ }),
    {
        Self { reserved_concurrent_executions: Some(executions), ..self }
    }

    /// Lets the function log to the given log group in place of one of its own.
    pub fn log_group(self, log_group: &LogGroupRef) -> (r: Self)
        ensures
            r@ == (FunctionBuilderView { log_group: Some(log_group@), ..self@ }),
    {
        Self { log_group: Some(log_group.clone()), ..self }
    }

    fn build_internal(self, stack_builder: &mut StackBuilder) -> (r: (FunctionRef, RoleRef, LogGroupRef))
        requires
            self@.code is Some,
        ensures
            function_resources_added(old(stack_builder)@, final(stack_builder)@, self@, r.0@, r.1@, r.2@),
    {
        let ghost b = self@;
        let ghost start = stack_builder@;
        let ghost n = start.resources.len() as int;
        let function_resource_id = Resource::generate_id("LambdaFunction");
        let FunctionBuilder {
            state: _,
            id,
            architecture,
            memory,
            timeout,
            code,
            handler,
            runtime,
            additional_policies,
            aws_services_in_dependencies,
            env_vars,
            function_name,
            sqs_event_source_mapping,
            reserved_concurrent_executions,
            log_group,
        } = self;
        let code = function_code(code.unwrap());
        match sqs_event_source_mapping {
            Some(mapping) => {
                let event_id = Id::generate_id(&id, "ESM");
                let event_resource_id = concat2("EventSourceMapping", function_resource_id.as_str());
                let scaling_config = match mapping.max_concurrency {
                    Some(c) => Some(ScalingConfig { max_concurrency: c }),
                    None => None,
                };
                let event_source_mapping = EventSourceMapping {
                    id: event_id,
                    resource_id: event_resource_id,
                    resource_type: String::from_str("AWS::Lambda::EventSourceMapping"),
                    properties: EventSourceProperties {
                        event_source_arn: Some(get_arn(mapping.id.as_str())),
                        function_name: Some(get_ref(function_resource_id.as_str())),
                        scaling_config,
                    },
                };
                stack_builder.add_resource(Resource::EventSourceMapping(event_source_mapping));
            },
            None => {},
        }
        let ghost after_mapping = stack_builder@;
        let role = function_role(&id, additional_policies, &aws_services_in_dependencies, stack_builder);
        let ghost after_role = stack_builder@;
        let role_arn = get_arn(role.get_resource_id());
        let environment = if env_vars.len() == 0 {
            None
        } else {
            Some(Environment { variables: collect_env_vars(env_vars) })
        };
        let log_group = match log_group {
            Some(log_group) => log_group,
            None => {
                let log_group_id = Id::generate_id(&id, "LogGroup");
                let base_builder = LogGroupBuilder::new(log_group_id.0.as_str()).log_group_retention(RetentionInDays(731));
                match crate::shared::clone_opt(&function_name) {
                    Some(name) => base_builder.log_group_name_string(
                        LogGroupName(concat2("/aws/lambda/", name.as_str())),
                    ).build(stack_builder),
                    None => base_builder.build(stack_builder),
                }
            },
        };
        let ghost after_log_group = stack_builder@;
        let logging_info = LoggingInfo { log_group: Some(log_group.get_ref()) };
        let runtime = match runtime {
            Some(r) => Some(r.into()),
            None => None,
        };
        let mut architectures: Vec<String> = Vec::new();
        architectures.push(architecture.into());
        assert(views(architectures@) =~= seq![architecture_name(b.architecture)]);
        let properties = LambdaFunctionProperties {
            code: code.1,
            architectures,
            memory_size: memory,
            timeout,
            handler,
            runtime,
            role: role_arn,
            function_name,
            environment,
            reserved_concurrent_executions,
            logging_info,
        };
        stack_builder.add_resource(
            Resource::Function(
                Function {
                    id: id.clone(),
                    resource_id: function_resource_id.clone(),
                    asset: code.0,
                    resource_type: String::from_str("AWS::Lambda::Function"),
                    properties,
                },
            ),
        );
        proof {
            let after = stack_builder@.resources;
            assert(after.drop_last() =~= after_log_group.resources);
            assert(after_log_group.resources.subrange(0, after_role.resources.len() as int) =~= after_role.resources);
            assert(after_role.resources.drop_last() =~= after_mapping.resources);
            assert(after_mapping.resources.subrange(0, n) =~= start.resources);
            assert(after.subrange(0, n) =~= start.resources) by {
                assert forall|j: int| 0 <= j < n implies after[j] == start.resources[j] by {
                    assert(after[j] == after_log_group.resources[j]);
                    assert(after_log_group.resources[j] == after_role.resources[j]);
                    assert(after_role.resources[j] == after_mapping.resources[j]);
                    assert(after_mapping.resources[j] == start.resources[j]);
                }
            }
            let k = if b.sqs_event_source_mapping is Some { 1int } else { 0int };
            assert(after[n + k] == after_role.resources.last());
            if b.sqs_event_source_mapping is Some {
                assert(after[n] == after_mapping.resources[n]);
            }
            if b.log_group is None {
                assert(after[n + k + 1] == after_log_group.resources.last());
            }
        }
        let function = FunctionRef::internal_new(id, function_resource_id);
        (function, role, log_group)
    }
}

impl FunctionBuilder<StartState> {
    /// Starts a function with its architecture, memory and timeout.
    pub fn new(id: &str, architecture: Architecture, memory: Memory, timeout: Timeout) -> (r: FunctionBuilder<StartState>)
        ensures
            r@ == (FunctionBuilderView {
                id: r@.id,
                architecture,
                memory: memory.0,
                timeout: timeout.0,
                code: None,
                handler: None,
                runtime: None,
                additional_policies: Seq::empty(),
                aws_services_in_dependencies: Seq::empty(),
                env_vars: Seq::empty(),
                function_name: None,
                sqs_event_source_mapping: None,
                reserved_concurrent_executions: None,
                log_group: None,
            }),
            r@.id.0@ == id@,
    {
        let r = FunctionBuilder {
            state: PhantomData,
            id: Id(String::from_str(id)),
            architecture,
            memory: memory.0,
            timeout: timeout.0,
            code: None,
            handler: None,
            runtime: None,
            additional_policies: Vec::new(),
            aws_services_in_dependencies: Vec::new(),
            env_vars: Vec::new(),
            function_name: None,
            sqs_event_source_mapping: None,
            reserved_concurrent_executions: None,
            log_group: None,
        };
        assert(views(r.aws_services_in_dependencies@) =~= Seq::<Seq<char>>::empty());
        assert(env_views(r.env_vars@) =~= Seq::<(Seq<char>, JsonView)>::empty());
        r
    }

    pub fn code(self, code: Code) -> (r: FunctionBuilder<CodeState>)
        ensures
            r@ == (FunctionBuilderView { code: Some(code), ..self@ }),
    {
        FunctionBuilder {
            code: Some(code),
            state: PhantomData,
            id: self.id,
            architecture: self.architecture,
            memory: self.memory,
            timeout: self.timeout,
            handler: self.handler,
            runtime: self.runtime,
            additional_policies: self.additional_policies,
            aws_services_in_dependencies: self.aws_services_in_dependencies,
            env_vars: self.env_vars,
            function_name: self.function_name,
            sqs_event_source_mapping: self.sqs_event_source_mapping,
            reserved_concurrent_executions: self.reserved_concurrent_executions,
            log_group: self.log_group,
        }
    }
}

impl FunctionBuilder<CodeState> {
    pub fn handler(self, handler: &str) -> (r: FunctionBuilder<ZipStateWithHandler>)
        ensures
            r@ == (FunctionBuilderView { handler: r@.handler, ..self@ }),
            r@.handler matches Some(h) && h@ == handler@,
    {
        FunctionBuilder {
            id: self.id,
            handler: Some(String::from_str(handler)),
            state: PhantomData,
            architecture: self.architecture,
            memory: self.memory,
            timeout: self.timeout,
            code: self.code,
            runtime: self.runtime,
            additional_policies: self.additional_policies,
            aws_services_in_dependencies: self.aws_services_in_dependencies,
            env_vars: self.env_vars,
            function_name: self.function_name,
            sqs_event_source_mapping: self.sqs_event_source_mapping,
            reserved_concurrent_executions: self.reserved_concurrent_executions,
            log_group: self.log_group,
        }
    }
}

impl FunctionBuilder<ZipStateWithHandler> {
    pub fn runtime(self, runtime: Runtime) -> (r: FunctionBuilder<ZipStateWithHandlerAndRuntime>)
        ensures
            r@ == (FunctionBuilderView { runtime: Some(runtime), ..self@ }),
    {
        FunctionBuilder {
            id: self.id,
            runtime: Some(runtime),
            state: PhantomData,
            architecture: self.architecture,
            memory: self.memory,
            timeout: self.timeout,
            code: self.code,
            handler: self.handler,
            additional_policies: self.additional_policies,
            aws_services_in_dependencies: self.aws_services_in_dependencies,
            env_vars: self.env_vars,
            function_name: self.function_name,
            sqs_event_source_mapping: self.sqs_event_source_mapping,
            reserved_concurrent_executions: self.reserved_concurrent_executions,
            log_group: self.log_group,
        }
    }
}

impl FunctionBuilder<ZipStateWithHandlerAndRuntime> {
    /// Feeds the function from the queue, and lets it read the queue.
    pub fn sqs_event_source_mapping(
        self,
        sqs_queue: &QueueRef,
        max_concurrency: Option<SqsEventSourceMaxConcurrency>,
    ) -> (r: FunctionBuilder<EventSourceMappingState>)
        ensures
            r@ == (FunctionBuilderView {
                additional_policies: r@.additional_policies,
                sqs_event_source_mapping: Some(
                    EventSourceMappingInfoView {
                        id: sqs_queue@.resource_id,
                        max_concurrency: match max_concurrency {
                            Some(c) => Some(c.0),
                            None => None,
                        },
                    },
                ),
                ..self@
            }),
            r@.additional_policies.drop_last() == self@.additional_policies,
            r@.additional_policies.len() == self@.additional_policies.len() + 1,
            crate::iam::permission_policy(IamPermission::SqsRead(sqs_queue), r@.additional_policies.last()),
    {
        let mut additional_policies = self.additional_policies;
        let ghost before = additional_policies@;
        additional_policies.push(IamPermission::SqsRead(sqs_queue).into_policy());
        assert(additional_policies@.drop_last() =~= before);
        let mapping = EventSourceMappingInfo {
            id: String::from_str(sqs_queue.get_resource_id()),
            max_concurrency: match max_concurrency {
                Some(c) => Some(c.0),
                None => None,
            },
        };
        FunctionBuilder {
            id: self.id,
            sqs_event_source_mapping: Some(mapping),
            state: PhantomData,
            runtime: self.runtime,
            architecture: self.architecture,
            memory: self.memory,
            timeout: self.timeout,
            code: self.code,
            handler: self.handler,
            additional_policies,
            aws_services_in_dependencies: self.aws_services_in_dependencies,
            env_vars: self.env_vars,
            function_name: self.function_name,
            reserved_concurrent_executions: self.reserved_concurrent_executions,
            log_group: self.log_group,
        }
    }

    /// Adds the function, its role and, where none was given, its log group to the stack.
    pub fn build(self, stack_builder: &mut StackBuilder) -> (r: (FunctionRef, RoleRef, LogGroupRef))
        requires
            self@.code is Some,
        ensures
            function_resources_added(old(stack_builder)@, final(stack_builder)@, self@, r.0@, r.1@, r.2@),
    {
        self.build_internal(stack_builder)
    }
}

impl FunctionBuilder<EventSourceMappingState> {
    /// Adds the function, its queue mapping, its role and, where none was given, its log group.
    pub fn build(self, stack_builder: &mut StackBuilder) -> (r: (FunctionRef, RoleRef, LogGroupRef))
        requires
            self@.code is Some,
        ensures
            function_resources_added(old(stack_builder)@, final(stack_builder)@, self@, r.0@, r.1@, r.2@),
    {
        self.build_internal(stack_builder)
    }
}

} // verus!
