use crate::apigateway::{
    ApiGatewayV2Api, ApiGatewayV2ApiProperties, ApiGatewayV2ApiRef, ApiGatewayV2Integration,
    ApiGatewayV2IntegrationProperties, ApiGatewayV2Route, ApiGatewayV2RouteProperties, ApiGatewayV2Stage,
    ApiGatewayV2StageProperties, ApiGatewayV2StageRef, CorsConfiguration, CorsConfigurationView,
};
use crate::intrinsic::{
    get_arn, get_arn_json, get_ref, get_ref_json, join, join_json, string_value, AWS_ACCOUNT_PSEUDO_PARAM,
    AWS_PARTITION_PSEUDO_PARAM, AWS_REGION_PSEUDO_PARAM,
};
use crate::json::{json_views, JsonView, Value};
use crate::lambda::{FunctionRef, PermissionBuilder};
use crate::shared::{http_method_name, HttpMethod, Id};
use crate::stack::{is_generated_id, Resource, StackBuilder, StackBuilderView};
use crate::text::{concat2, concat3, decimal, digit_char, starts_with, views};
use crate::wrappers::LambdaPermissionAction;
use vstd::prelude::*;

verus! {

/// A route of an HTTP API to a function.
pub struct RouteInfo {
    pub(crate) lambda_id: Id,
    pub(crate) path: String,
    pub(crate) method: Option<HttpMethod>,
    pub(crate) resource_id: String,
}

/// What a [`RouteInfo`] holds: the function's id and logical id, the path and the method, if any.
pub struct RouteInfoView {
    pub lambda_id: Seq<char>,
    pub path: Seq<char>,
    pub method: Option<HttpMethod>,
    pub resource_id: Seq<char>,
}

impl View for RouteInfo {
    type V = RouteInfoView;

    open(crate) spec fn view(&self) -> RouteInfoView {
        RouteInfoView {
            lambda_id: self.lambda_id.0@,
            path: self.path@,
            method: self.method,
            resource_id: self.resource_id@,
        }
    }
}

/// The views of routes.
pub open spec fn route_views(s: Seq<RouteInfo>) -> Seq<RouteInfoView> {
    s.map_values(|r: RouteInfo| r@)
}

/// Builder for HTTP APIs of API Gateway V2, with routes to Lambda functions.
pub struct ApiGatewayV2Builder {
    pub(crate) id: Id,
    pub(crate) name: Option<String>,
    pub(crate) disable_execute_api_endpoint: Option<bool>,
    pub(crate) cors_configuration: Option<CorsConfiguration>,
    pub(crate) route_info: Vec<RouteInfo>,
}

/// What an [`ApiGatewayV2Builder`] holds.
pub struct ApiGatewayV2BuilderView {
    pub id: Id,
    pub name: Option<String>,
    pub disable_execute_api_endpoint: Option<bool>,
    pub cors_configuration: Option<CorsConfiguration>,
    pub routes: Seq<RouteInfoView>,
}

impl View for ApiGatewayV2Builder {
    type V = ApiGatewayV2BuilderView;

    open(crate) spec fn view(&self) -> ApiGatewayV2BuilderView {
        ApiGatewayV2BuilderView {
            id: self.id,
            name: self.name,
            disable_execute_api_endpoint: self.disable_execute_api_endpoint,
            cors_configuration: self.cors_configuration,
            routes: route_views(self.route_info@),
        }
    }
}

/// The path of a route: the given path, with a leading `/` added where it has none.
pub open spec fn route_path(path: Seq<char>) -> Seq<char> {
    if "/"@.is_prefix_of(path) {
        path
    } else {
        "/"@ + path
    }
}

/// The key of a route: its method and path, or its path alone for the default route.
pub open spec fn route_key_of(info: RouteInfoView) -> Seq<char> {
    match info.method {
        Some(m) => http_method_name(m) + " "@ + info.path,
        None => info.path,
    }
}

/// The ARN pattern of the API's invocations on `path`, from which a function may be invoked.
pub open spec fn execute_api_arn(api: Seq<char>, path: Seq<char>) -> JsonView {
    join_json(
        ""@,
        seq![
            JsonView::String("arn:"@),
            get_ref_json(AWS_PARTITION_PSEUDO_PARAM@),
            JsonView::String(":execute-api:"@),
            get_ref_json(AWS_REGION_PSEUDO_PARAM@),
            JsonView::String(":"@),
            get_ref_json(AWS_ACCOUNT_PSEUDO_PARAM@),
            JsonView::String(":"@),
            get_ref_json(api),
            JsonView::String("*/*"@ + path),
        ],
    )
}

/// The three resources of the `k`th route stand at `start + 3k`: the permission for the API to
/// invoke the function, the integration with the function, and the route to the integration,
/// with the ids `<api id>Permission<k>`, `<api id>Integration<k>` and `<api id>Route<k>`.
pub open spec fn route_resources_at(res: Seq<Resource>, start: int, k: int, api_id: Id, info: RouteInfoView, api: Seq<char>) -> bool {
    &&& res[start + 3 * k] matches Resource::Permission(p) && {
        let props = p@.properties@;
        &&& p@.id.0@ == api_id.0@ + ("Permission"@ + decimal(k as nat))
        &&& is_generated_id(p@.resource_id@, "LambdaPermission"@)
        &&& p@.resource_type@ == "AWS::Lambda::Permission"@
        &&& props.action@ == "lambda:InvokeFunction"@
        &&& props.function_name@ == get_arn_json(info.resource_id)
        &&& props.principal@ == "apigateway.amazonaws.com"@
        &&& props.source_arn matches Some(a) && a@ == execute_api_arn(api, info.path)
        &&& props.source_account is None
    }
    &&& res[start + 3 * k + 1] matches Resource::ApiGatewayV2Integration(i) && {
        let props = i@.properties@;
        &&& i@.id.0@ == api_id.0@ + ("Integration"@ + decimal(k as nat))
        &&& is_generated_id(i@.resource_id@, "HttpApiIntegration"@)
        &&& i@.resource_type@ == "AWS::ApiGatewayV2::Integration"@
        &&& props.api_id@ == get_ref_json(api)
        &&& props.integration_type@ == "AWS_PROXY"@
        &&& props.payload_format_version matches Some(v) && v@ == "2.0"@
        &&& props.integration_uri matches Some(u) && u@ == get_arn_json(info.resource_id)
        &&& props.integration_method is None
        &&& props.passthrough_behavior is None
        &&& props.request_parameters is None
        &&& props.request_templates is None
        &&& props.response_parameters is None
        &&& props.timeout_in_millis is None
        &&& res[start + 3 * k + 2] matches Resource::ApiGatewayV2Route(r) && {
            let rp = r@.properties@;
            &&& r@.id.0@ == api_id.0@ + ("Route"@ + decimal(k as nat))
            &&& is_generated_id(r@.resource_id@, "HttpApiRoute"@)
            &&& r@.resource_type@ == "AWS::ApiGatewayV2::Route"@
            &&& rp.api_id@ == get_ref_json(api)
            &&& rp.route_key@ == route_key_of(info)
            &&& rp.target matches Some(t) && t@ == join_json(
                ""@,
                seq![JsonView::String("integrations/"@), get_ref_json(i@.resource_id@)],
            )
        }
    }
}

/// What building the API from the builder state `b` does to the stack's resources: three for
/// each route, then the stage, then the API; no two of the resources added share an id.
pub open spec fn api_resources_added(
    before: StackBuilderView,
    after: StackBuilderView,
    b: ApiGatewayV2BuilderView,
    api: crate::shared::RefView,
    stage: crate::shared::RefView,
) -> bool {
    let n = before.resources.len() as int;
    let m = n + 3 * b.routes.len();
    &&& after.tags == before.tags
    &&& after.outputs == before.outputs
    &&& is_generated_id(api.resource_id, "HttpApiGateway"@)
    &&& api.ref_name is None && api.arn_value is None
    &&& is_generated_id(stage.resource_id, "HttpApiStage"@)
    &&& stage.ref_name is None && stage.arn_value is None
    &&& after.resources.len() == m + 2
    &&& after.resources.subrange(0, n) == before.resources
    &&& forall|k: int| 0 <= k < b.routes.len() ==> #[trigger] route_resources_at(
        after.resources,
        n,
        k,
        b.id,
        b.routes[k],
        api.resource_id,
    )
    &&& after.resources[m] matches Resource::ApiGatewayV2Stage(s) && {
        let props = s@.properties@;
        &&& s@.id.0@ == b.id.0@ + "Stage"@
        &&& s@.resource_id@ == stage.resource_id
        &&& s@.resource_type@ == "AWS::ApiGatewayV2::Stage"@
        &&& props.api_id@ == get_ref_json(api.resource_id)
        &&& props.stage_name@ == "$default"@
        &&& props.auto_deploy
        &&& props.route_settings is None
    }
    &&& after.resources[m + 1] matches Resource::ApiGatewayV2Api(a) && {
        let props = a@.properties@;
        &&& a@.id == b.id
        &&& a@.resource_id@ == api.resource_id
        &&& a@.resource_type@ == "AWS::ApiGatewayV2::Api"@
        &&& props.name == b.name
        &&& props.protocol_type@ == "HTTP"@
        &&& props.disable_execute_api_endpoint == b.disable_execute_api_endpoint
        &&& props.cors_configuration == b.cors_configuration
    }
    &&& forall|i: int, j: int| n <= i < j < after.resources.len() ==> #[trigger] after.resources[i].id_view()
        != #[trigger] after.resources[j].id_view()
}

/// What follows the API's id in the id of the resource at offset `q` of those that building an
/// API with `routes` routes adds: `Permission<k>`, `Integration<k>` and `Route<k>` for the `k`th
/// route, then `Stage`, then nothing (the API itself).
pub open spec fn api_id_suffix(routes: int, q: int) -> Seq<char> {
    if q < 3 * routes {
        let k = (q / 3) as nat;
        if q % 3 == 0 {
            "Permission"@ + decimal(k)
        } else if q % 3 == 1 {
            "Integration"@ + decimal(k)
        } else {
            "Route"@ + decimal(k)
        }
    } else if q == 3 * routes {
        "Stage"@
    } else {
        Seq::empty()
    }
}

/// A digit's character tells the digit.
proof fn lemma_digit_char_injective(a: nat, b: nat)
    requires
        a < 10,
        b < 10,
        digit_char(a) == digit_char(b),
    ensures
        a == b,
{
}

/// Different numbers have different decimal digits.
proof fn lemma_decimal_injective(a: nat, b: nat)
    requires
        decimal(a) == decimal(b),
    ensures
        a == b,
    decreases a + b,
{
    if a >= 10 && b >= 10 {
        assert(decimal(a).drop_last() =~= decimal(a / 10));
        assert(decimal(b).drop_last() =~= decimal(b / 10));
        assert(decimal(a).last() == digit_char(a % 10));
        assert(decimal(b).last() == digit_char(b % 10));
        lemma_decimal_injective(a / 10, b / 10);
        lemma_digit_char_injective(a % 10, b % 10);
        vstd::arithmetic::div_mod::lemma_fundamental_div_mod(a as int, 10);
        vstd::arithmetic::div_mod::lemma_fundamental_div_mod(b as int, 10);
        assert(a as int == 10 * (a as int / 10) + a as int % 10);
        assert(b as int == 10 * (b as int / 10) + b as int % 10);
        assert(a / 10 == b / 10);
        assert(a % 10 == b % 10);
    } else if a >= 10 {
        lemma_decimal_len(a / 10);
        assert(decimal(a).len() >= 2);
        assert(decimal(b).len() == 1);
    } else if b >= 10 {
        lemma_decimal_len(b / 10);
        assert(decimal(b).len() >= 2);
        assert(decimal(a).len() == 1);
    } else {
        assert(decimal(a)[0] == digit_char(a));
        assert(decimal(b)[0] == digit_char(b));
        lemma_digit_char_injective(a, b);
    }
}

/// The decimal digits of a number are at least one.
proof fn lemma_decimal_len(n: nat)
    ensures
        decimal(n).len() >= 1,
    decreases n,
{
    if n >= 10 {
        lemma_decimal_len(n / 10);
    }
}

/// A word followed by the digits of two numbers is the same only for the same number.
proof fn lemma_numbered_distinct(word: Seq<char>, a: nat, b: nat)
    requires
        a != b,
    ensures
        word + decimal(a) != word + decimal(b),
{
    if word + decimal(a) == word + decimal(b) {
        assert((word + decimal(a)).skip(word.len() as int) =~= decimal(a));
        assert((word + decimal(b)).skip(word.len() as int) =~= decimal(b));
        lemma_decimal_injective(a, b);
    }
}

/// Two words that differ in their first character stay different with anything after them.
proof fn lemma_first_char_differs(x: Seq<char>, y: Seq<char>, s: Seq<char>, t: Seq<char>)
    requires
        x.len() > 0,
        y.len() > 0,
        x[0] != y[0],
    ensures
        x + s != y + t,
{
    assert((x + s)[0] == x[0]);
    assert((y + t)[0] == y[0]);
}

/// No two resources that building an API adds have the same suffix after the API's id.
proof fn lemma_api_suffixes_distinct(routes: int, q1: int, q2: int)
    requires
        0 <= routes,
        0 <= q1 < q2 < 3 * routes + 2,
    ensures
        api_id_suffix(routes, q1) != api_id_suffix(routes, q2),
{
    reveal_strlit("Permission");
    reveal_strlit("Integration");
    reveal_strlit("Route");
    reveal_strlit("Stage");
    vstd::arithmetic::div_mod::lemma_fundamental_div_mod(q1, 3);
    vstd::arithmetic::div_mod::lemma_fundamental_div_mod(q2, 3);
    vstd::arithmetic::div_mod::lemma_mod_pos_bound(q1, 3);
    vstd::arithmetic::div_mod::lemma_mod_pos_bound(q2, 3);
    let k1 = (q1 / 3) as nat;
    let k2 = (q2 / 3) as nat;
    lemma_decimal_len(k1);
    lemma_decimal_len(k2);
    if q2 < 3 * routes {
        if q1 % 3 == q2 % 3 {
            assert(k1 != k2);
            if q1 % 3 == 0 {
                lemma_numbered_distinct("Permission"@, k1, k2);
            } else if q1 % 3 == 1 {
                lemma_numbered_distinct("Integration"@, k1, k2);
            } else {
                lemma_numbered_distinct("Route"@, k1, k2);
            }
        } else {
            let w1 = if q1 % 3 == 0 { "Permission"@ } else if q1 % 3 == 1 { "Integration"@ } else { "Route"@ };
            let w2 = if q2 % 3 == 0 { "Permission"@ } else if q2 % 3 == 1 { "Integration"@ } else { "Route"@ };
            lemma_first_char_differs(w1, w2, decimal(k1), decimal(k2));
        }
    } else if q2 == 3 * routes {
        let w1 = if q1 % 3 == 0 { "Permission"@ } else if q1 % 3 == 1 { "Integration"@ } else { "Route"@ };
        lemma_first_char_differs(w1, "Stage"@, decimal(k1), Seq::empty());
        assert("Stage"@ + Seq::<char>::empty() =~= "Stage"@);
    } else {
        assert(api_id_suffix(routes, q2).len() == 0);
        if q1 < 3 * routes {
            assert(api_id_suffix(routes, q1).len() > 0);
        } else {
            assert(api_id_suffix(routes, q1) == "Stage"@);
        }
    }
}

/// Ids that differ after a common prefix differ.
proof fn lemma_prefixed_distinct(prefix: Seq<char>, s: Seq<char>, t: Seq<char>)
    requires
        s != t,
    ensures
        prefix + s != prefix + t,
{
    assert((prefix + s).skip(prefix.len() as int) =~= s);
    assert((prefix + t).skip(prefix.len() as int) =~= t);
}

/// The ARN pattern of the API's invocations on `path`.
fn execute_api_arn_value(api: &str, path: &str) -> (r: Value)
    ensures
        r@ == execute_api_arn(api@, path@),
{
    let mut parts: Vec<Value> = Vec::new();
    parts.push(string_value("arn:"));
    parts.push(get_ref(AWS_PARTITION_PSEUDO_PARAM));
    parts.push(string_value(":execute-api:"));
    parts.push(get_ref(AWS_REGION_PSEUDO_PARAM));
    parts.push(string_value(":"));
    parts.push(get_ref(AWS_ACCOUNT_PSEUDO_PARAM));
    parts.push(string_value(":"));
    parts.push(get_ref(api));
    let last = concat2("*/*", path);
    parts.push(Value::String(last));
    proof {
        reveal_with_fuel(json_views, 10);
        assert(parts@.drop_last().drop_last().drop_last().drop_last().drop_last().drop_last().drop_last().drop_last().drop_last()
            =~= Seq::<Value>::empty());
        assert(json_views(parts@) =~= seq![
            JsonView::String("arn:"@),
            get_ref_json(AWS_PARTITION_PSEUDO_PARAM@),
            JsonView::String(":execute-api:"@),
            get_ref_json(AWS_REGION_PSEUDO_PARAM@),
            JsonView::String(":"@),
            get_ref_json(AWS_ACCOUNT_PSEUDO_PARAM@),
            JsonView::String(":"@),
            get_ref_json(api@),
            JsonView::String("*/*"@ + path@),
        ]);
    }
    join("", parts)
}

/// The target of a route: the integration with the given logical id.
fn integration_target(integration: &str) -> (r: Value)
    ensures
        r@ == join_json(""@, seq![JsonView::String("integrations/"@), get_ref_json(integration@)]),
{
    let mut parts: Vec<Value> = Vec::new();
    parts.push(string_value("integrations/"));
    parts.push(get_ref(integration));
    proof {
        reveal_with_fuel(json_views, 3);
        assert(parts@.drop_last().drop_last() =~= Seq::<Value>::empty());
        assert(json_views(parts@) =~= seq![JsonView::String("integrations/"@), get_ref_json(integration@)]);
    }
    join("", parts)
}

proof fn lemma_three_pushes(before: Seq<Resource>, after: Seq<Resource>)
    requires
        after.len() == before.len() + 3,
        after.drop_last().drop_last().drop_last() == before,
    ensures
        forall|j: int| 0 <= j < before.len() ==> #[trigger] after[j] == before[j],
{
    assert forall|j: int| 0 <= j < before.len() implies #[trigger] after[j] == before[j] by {
        assert(after.drop_last()[j] == after[j]);
        assert(after.drop_last().drop_last()[j] == after.drop_last()[j]);
        assert(after.drop_last().drop_last().drop_last()[j] == after.drop_last().drop_last()[j]);
    }
}

impl ApiGatewayV2Builder {
    pub fn new(id: &str) -> (r: Self)
        ensures
            r@.id.0@ == id@,
            r@.name is None,
            r@.disable_execute_api_endpoint is None,
            r@.cors_configuration is None,
            r@.routes.len() == 0,
    {
        Self {
            id: Id(String::from_str(id)),
            name: None,
            disable_execute_api_endpoint: None,
            cors_configuration: None,
            route_info: Vec::new(),
        }
    }

    pub fn name(self, name: &str) -> (r: Self)
        ensures
            r@ == (ApiGatewayV2BuilderView { name: r@.name, ..self@ }),
            r@.name matches Some(n) && n@ == name@,
    {
        Self { name: Some(String::from_str(name)), ..self }
    }

    pub fn disable_execute_api_endpoint(self, disable_api_endpoint: bool) -> (r: Self)
        ensures
            r@ == (ApiGatewayV2BuilderView { disable_execute_api_endpoint: Some(disable_api_endpoint), ..self@ }),
    {
        Self { disable_execute_api_endpoint: Some(disable_api_endpoint), ..self }
    }

    pub fn cors_configuration(self, config: CorsConfiguration) -> (r: Self)
        ensures
            r@ == (ApiGatewayV2BuilderView { cors_configuration: Some(config), ..self@ }),
    {
        Self { cors_configuration: Some(config), ..self }
    }

    /// Routes the requests that no other route matches to the function.
    pub fn add_default_route_lambda(self, lambda: &FunctionRef) -> (r: Self)
        ensures
            r@ == (ApiGatewayV2BuilderView {
                routes: self@.routes.push(
                    RouteInfoView { lambda_id: lambda@.id, path: "$default"@, method: None, resource_id: lambda@.resource_id },
                ),
                ..self@
            }),
    {
        let mut me = self;
        let ghost before = me.route_info@;
        me.route_info.push(
            RouteInfo {
                lambda_id: lambda.get_id().clone(),
                path: String::from_str("$default"),
                method: None,
                resource_id: String::from_str(lambda.get_resource_id()),
            },
        );
        assert(route_views(me.route_info@) =~= route_views(before).push(me.route_info@.last()@));
        me
    }

    /// Routes requests with the method on the path to the function; the path gets a leading `/`
    /// where it has none.
    pub fn add_route_lambda(self, path: &str, method: HttpMethod, lambda: &FunctionRef) -> (r: Self)
        ensures
            r@ == (ApiGatewayV2BuilderView {
                routes: self@.routes.push(
                    RouteInfoView {
                        lambda_id: lambda@.id,
                        path: route_path(path@),
                        method: Some(method),
                        resource_id: lambda@.resource_id,
                    },
                ),
                ..self@
            }),
    {
        let path = if starts_with(path, "/") {
            String::from_str(path)
        } else {
            concat2("/", path)
        };
        let mut me = self;
        let ghost before = me.route_info@;
        me.route_info.push(
            RouteInfo {
                lambda_id: lambda.get_id().clone(),
                path,
                method: Some(method),
                resource_id: String::from_str(lambda.get_resource_id()),
            },
        );
        assert(route_views(me.route_info@) =~= route_views(before).push(me.route_info@.last()@));
        me
    }

    /// Adds the API, its stage and, for each route, a permission, an integration and the route.
    pub fn build(self, stack_builder: &mut StackBuilder) -> (r: (ApiGatewayV2ApiRef, ApiGatewayV2StageRef))
        ensures
            api_resources_added(old(stack_builder)@, final(stack_builder)@, self@, r.0@, r.1@),
    {
        let ghost b = self@;
        let ghost start = stack_builder@;
        let ghost n = start.resources.len() as int;
        let api_resource_id = Resource::generate_id("HttpApiGateway");
        let stage_resource_id = Resource::generate_id("HttpApiStage");
        let stage_id = Id::generate_id(&self.id, "Stage");
        let ApiGatewayV2Builder { id, name, disable_execute_api_endpoint, cors_configuration, route_info } = self;
        let mut routes = route_info;
        let total = routes.len();
        let mut k: usize = 0;
        assert(stack_builder@.resources.subrange(0, n) =~= start.resources);
        assert(routes@.skip(0) =~= routes@);
        while routes.len() > 0
            invariant
                k + routes@.len() == b.routes.len(),
                b.routes.len() == total,
                route_views(routes@) == b.routes.skip(k as int),
                id == b.id,
                n == start.resources.len(),
                stack_builder@.tags == start.tags,
                stack_builder@.outputs == start.outputs,
                stack_builder@.resources.len() == n + 3 * k,
                stack_builder@.resources.subrange(0, n) == start.resources,
                forall|j: int| 0 <= j < k ==> #[trigger] route_resources_at(
                    stack_builder@.resources,
                    n,
                    j,
                    b.id,
                    b.routes[j],
                    api_resource_id@,
                ),
            decreases routes@.len(),
        {
            let ghost before = stack_builder@.resources;
            let ghost old_routes = routes@;
            let info = routes.remove(0);
            proof {
                assert(routes@ =~= old_routes.skip(1));
                assert(route_views(routes@) =~= route_views(old_routes).skip(1));
                assert(route_views(routes@) =~= b.routes.skip(k + 1));
                assert(info@ == b.routes[k as int]) by {
                    assert(b.routes.skip(k as int)[0] == b.routes[k as int]);
                }
            }
            let route_id = Id::generate_numbered_id(&id, "Route", k);
            let route_permission_id = Id::generate_numbered_id(&id, "Permission", k);
            let route_integration_id = Id::generate_numbered_id(&id, "Integration", k);
            let integration_resource_id = Resource::generate_id("HttpApiIntegration");
            let route_resource_id = Resource::generate_id("HttpApiRoute");
            PermissionBuilder::new(
                route_permission_id.0.as_str(),
                LambdaPermissionAction(String::from_str("lambda:InvokeFunction")),
                get_arn(info.resource_id.as_str()),
                "apigateway.amazonaws.com",
            ).source_arn(execute_api_arn_value(api_resource_id.as_str(), info.path.as_str())).build(stack_builder);
            let ghost after_permission = stack_builder@.resources;
            let integration = ApiGatewayV2Integration {
                id: route_integration_id,
                resource_id: integration_resource_id.clone(),
                resource_type: String::from_str("AWS::ApiGatewayV2::Integration"),
                properties: ApiGatewayV2IntegrationProperties {
                    api_id: get_ref(api_resource_id.as_str()),
                    integration_type: String::from_str("AWS_PROXY"),
                    payload_format_version: Some(String::from_str("2.0")),
                    integration_uri: Some(get_arn(info.resource_id.as_str())),
                    integration_method: None,
                    passthrough_behavior: None,
                    request_parameters: None,
                    request_templates: None,
                    response_parameters: None,
                    timeout_in_millis: None,
                },
            };
            stack_builder.add_resource(Resource::ApiGatewayV2Integration(integration));
            let ghost after_integration = stack_builder@.resources;
            let RouteInfo { lambda_id: _, path, method, resource_id: _ } = info;
            let route_key = match method {
                Some(m) => {
                    let method_name: String = m.into();
                    concat3(method_name.as_str(), " ", path.as_str())
                },
                None => path,
            };
            let route = ApiGatewayV2Route {
                id: route_id,
                resource_id: route_resource_id,
                resource_type: String::from_str("AWS::ApiGatewayV2::Route"),
                properties: ApiGatewayV2RouteProperties {
                    api_id: get_ref(api_resource_id.as_str()),
                    route_key,
                    target: Some(integration_target(integration_resource_id.as_str())),
                },
            };
            stack_builder.add_resource(Resource::ApiGatewayV2Route(route));
            proof {
                let after = stack_builder@.resources;
                assert(after_permission.drop_last() =~= before);
                assert(after_integration.drop_last() =~= after_permission);
                assert(after.drop_last() =~= after_integration);
                assert(after.drop_last().drop_last().drop_last() =~= before);
                lemma_three_pushes(before, after);
                assert(after.subrange(0, n) =~= before.subrange(0, n));
                assert(after[n + 3 * k] == after_permission.last());
                assert(after[n + 3 * k + 1] == after_integration.last());
                assert forall|j: int| 0 <= j < k + 1 implies #[trigger] route_resources_at(
                    after,
                    n,
                    j,
                    b.id,
                    b.routes[j],
                    api_resource_id@,
                ) by {
                    if j < k {
                        assert(route_resources_at(before, n, j, b.id, b.routes[j], api_resource_id@));
                        assert(after[n + 3 * j] == before[n + 3 * j]);
                        assert(after[n + 3 * j + 1] == before[n + 3 * j + 1]);
                        assert(after[n + 3 * j + 2] == before[n + 3 * j + 2]);
                    }
                }
            }
            k = k + 1;
        }
        let ghost before_stage = stack_builder@.resources;
        stack_builder.add_resource(
            Resource::ApiGatewayV2Stage(
                ApiGatewayV2Stage {
                    id: stage_id,
                    resource_id: stage_resource_id.clone(),
                    resource_type: String::from_str("AWS::ApiGatewayV2::Stage"),
                    properties: ApiGatewayV2StageProperties {
                        api_id: get_ref(api_resource_id.as_str()),
                        stage_name: String::from_str("$default"),
                        auto_deploy: true,
                        route_settings: None,
                    },
                },
            ),
        );
        let ghost with_stage = stack_builder@.resources;
        stack_builder.add_resource(
            Resource::ApiGatewayV2Api(
                ApiGatewayV2Api {
                    id,
                    resource_id: api_resource_id.clone(),
                    resource_type: String::from_str("AWS::ApiGatewayV2::Api"),
                    properties: ApiGatewayV2ApiProperties {
                        name,
                        protocol_type: String::from_str("HTTP"),
                        disable_execute_api_endpoint,
                        cors_configuration,
                    },
                },
            ),
        );
        proof {
            let after = stack_builder@.resources;
            assert(with_stage.drop_last() =~= before_stage);
            assert(after.drop_last() =~= with_stage);
            assert forall|j: int| 0 <= j < before_stage.len() implies #[trigger] after[j] == before_stage[j] by {
                assert(after.drop_last()[j] == after[j]);
                assert(with_stage.drop_last()[j] == with_stage[j]);
            }
            assert(after.subrange(0, n) =~= before_stage.subrange(0, n));
            assert forall|j: int| 0 <= j < b.routes.len() implies #[trigger] route_resources_at(
                after,
                n,
                j,
                b.id,
                b.routes[j],
                api_resource_id@,
            ) by {
                assert(route_resources_at(before_stage, n, j, b.id, b.routes[j], api_resource_id@));
                assert(after[n + 3 * j] == before_stage[n + 3 * j]);
                assert(after[n + 3 * j + 1] == before_stage[n + 3 * j + 1]);
                assert(after[n + 3 * j + 2] == before_stage[n + 3 * j + 2]);
            }
            assert(after[n + 3 * b.routes.len()] == with_stage.last());
        }
        proof {
            let after = stack_builder@.resources;
            let rn = b.routes.len() as int;
            let m = n + 3 * rn;
            assert forall|q: int| 0 <= q < 3 * rn + 2 implies #[trigger] after[n + q].id_view() == b.id.0@ + api_id_suffix(rn, q) by {
                if q < 3 * rn {
                    vstd::arithmetic::div_mod::lemma_fundamental_div_mod(q, 3);
                    vstd::arithmetic::div_mod::lemma_mod_pos_bound(q, 3);
                    let k = q / 3;
                    assert(0 <= k < rn);
                    assert(route_resources_at(after, n, k, b.id, b.routes[k], api_resource_id@));
                    assert(n + q == n + 3 * k + q % 3);
                } else if q == 3 * rn {
                    assert(after[m] == with_stage.last());
                } else {
                    assert(b.id.0@ + Seq::<char>::empty() =~= b.id.0@);
                }
            }
            assert forall|i: int, j: int| n <= i < j < after.len() implies #[trigger] after[i].id_view()
                != #[trigger] after[j].id_view() by {
                lemma_api_suffixes_distinct(rn, i - n, j - n);
                lemma_prefixed_distinct(b.id.0@, api_id_suffix(rn, i - n), api_id_suffix(rn, j - n));
                assert(after[n + (i - n)].id_view() == b.id.0@ + api_id_suffix(rn, i - n));
                assert(after[n + (j - n)].id_view() == b.id.0@ + api_id_suffix(rn, j - n));
            }
        }
        let stage = ApiGatewayV2StageRef::internal_new(stage_resource_id);
        let api = ApiGatewayV2ApiRef::internal_new(api_resource_id);
        (api, stage)
    }
}


/// Builder for the CORS rules of an HTTP API.
pub struct CorsConfigurationBuilder {
    pub(crate) allow_credentials: Option<bool>,
    pub(crate) allow_headers: Option<Vec<String>>,
    pub(crate) allow_methods: Option<Vec<String>>,
    pub(crate) allow_origins: Option<Vec<String>>,
    pub(crate) expose_headers: Option<Vec<String>>,
    pub(crate) max_age: Option<u64>,
}

impl View for CorsConfigurationBuilder {
    type V = CorsConfigurationView;

    open(crate) spec fn view(&self) -> CorsConfigurationView {
        CorsConfigurationView {
            allow_credentials: self.allow_credentials,
            allow_headers: self.allow_headers,
            allow_methods: self.allow_methods,
            allow_origins: self.allow_origins,
            expose_headers: self.expose_headers,
            max_age: self.max_age,
        }
    }
}

/// The names of HTTP methods, in order.
pub open spec fn method_names(methods: Seq<HttpMethod>) -> Seq<Seq<char>> {
    methods.map_values(|m: HttpMethod| http_method_name(m))
}

impl Default for CorsConfigurationBuilder {
    /// A configuration that sets nothing.
    fn default() -> (r: Self)
        ensures
            r@ == (CorsConfigurationView {
                allow_credentials: None,
                allow_headers: None,
                allow_methods: None,
                allow_origins: None,
                expose_headers: None,
                max_age: None,
            }),
    {
        Self::new()
    }
}

impl CorsConfigurationBuilder {
    pub fn new() -> (r: Self)
        ensures
            r@ == (CorsConfigurationView {
                allow_credentials: None,
                allow_headers: None,
                allow_methods: None,
                allow_origins: None,
                expose_headers: None,
                max_age: None,
            }),
    {
        Self {
            allow_credentials: None,
            allow_headers: None,
            allow_methods: None,
            allow_origins: None,
            expose_headers: None,
            max_age: None,
        }
    }

    pub fn allow_credentials(self, allow: bool) -> (r: Self)
        ensures
            r@ == (CorsConfigurationView { allow_credentials: Some(allow), ..self@ }),
    {
        Self { allow_credentials: Some(allow), ..self }
    }

    pub fn allow_headers(self, headers: Vec<String>) -> (r: Self)
        ensures
            r@ == (CorsConfigurationView { allow_headers: Some(headers), ..self@ }),
    {
        Self { allow_headers: Some(headers), ..self }
    }

    pub fn allow_methods(self, methods: Vec<HttpMethod>) -> (r: Self)
        ensures
            r@ == (CorsConfigurationView { allow_methods: r@.allow_methods, ..self@ }),
            r@.allow_methods matches Some(m) && views(m@) == method_names(methods@),
    {
        let ghost all = methods@;
        let mut rest = methods;
        let mut names: Vec<String> = Vec::new();
        while rest.len() > 0
            invariant
                names@.len() + rest@.len() == all.len(),
                rest@ == all.skip(names@.len() as int),
                views(names@) == method_names(all.take(names@.len() as int)),
            decreases rest@.len(),
        {
            let ghost k = names@.len() as int;
            let m = rest.remove(0);
            assert(all.skip(k)[0] == all[k]);
            let name: String = m.into();
            let ghost old_names = names@;
            names.push(name);
            assert(all.take(k + 1) =~= all.take(k).push(all[k]));
            assert(views(names@) =~= views(old_names).push(http_method_name(all[k])));
            assert(rest@ =~= all.skip(names@.len() as int));
            assert(views(names@) =~= method_names(all.take(names@.len() as int)));
        }
        assert(all.take(names@.len() as int) =~= all);
        Self { allow_methods: Some(names), ..self }
    }

    pub fn allow_origins(self, origins: Vec<String>) -> (r: Self)
        ensures
            r@ == (CorsConfigurationView { allow_origins: Some(origins), ..self@ }),
    {
        Self { allow_origins: Some(origins), ..self }
    }

    pub fn expose_headers(self, headers: Vec<String>) -> (r: Self)
        ensures
            r@ == (CorsConfigurationView { expose_headers: Some(headers), ..self@ }),
    {
        Self { expose_headers: Some(headers), ..self }
    }

    /// How long browsers may keep the answer to a preflight request, in whole seconds (a
    /// `Duration`'s `as_secs()`).
    pub fn max_age(self, seconds: u64) -> (r: Self)
        ensures
            r@ == (CorsConfigurationView { max_age: Some(seconds), ..self@ }),
    {
        Self { max_age: Some(seconds), ..self }
    }

    pub fn build(self) -> (r: CorsConfiguration)
        ensures
            r@ == self@,
    {
        CorsConfiguration {
            allow_credentials: self.allow_credentials,
            allow_headers: self.allow_headers,
            allow_methods: self.allow_methods,
            allow_origins: self.allow_origins,
            expose_headers: self.expose_headers,
            max_age: self.max_age,
        }
    }
}

} // verus!
