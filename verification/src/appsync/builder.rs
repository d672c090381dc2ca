use crate::appsync::{
    AppSyncApi, AppSyncApiProperties, AppSyncApiRef, AppSyncAuthMode, AuthProvider, AuthProviderView, ChannelNamespace,
    ChannelNamespaceProperties, CognitoConfig, EventConfig, EventConfigView, EventLogConfig, EventLogConfigView,
    LambdaAuthorizerConfig, OpenIDConnectConfig, ChannelNamespaceRef,
};
use crate::intrinsic::get_att_json;
use crate::json::Value;
use crate::shared::{opt_view, Id};
use crate::stack::{is_generated_id, Resource, StackBuilder, StackBuilderView};
use crate::wrappers::{AppSyncApiName, ChannelNamespaceName};
use vstd::prelude::*;

verus! {

/// Builder for AppSync event APIs.
pub struct AppSyncApiBuilder {
    pub(crate) id: Id,
    pub(crate) name: String,
    pub(crate) event_config: Option<EventConfig>,
}

/// What an [`AppSyncApiBuilder`] holds.
pub struct AppSyncApiBuilderView {
    pub id: Id,
    pub name: String,
    pub event_config: Option<EventConfig>,
}

impl View for AppSyncApiBuilder {
    type V = AppSyncApiBuilderView;

    open(crate) spec fn view(&self) -> AppSyncApiBuilderView {
        AppSyncApiBuilderView { id: self.id, name: self.name, event_config: self.event_config }
    }
}

impl AppSyncApiBuilder {
    pub fn new(id: &str, app_sync_api_name: AppSyncApiName) -> (r: Self)
        ensures
            r@.id.0@ == id@,
            r@.name == app_sync_api_name.0,
            r@.event_config is None,
    {
        Self { id: Id(String::from_str(id)), name: app_sync_api_name.0, event_config: None }
    }

    pub fn event_config(self, event_config: EventConfig) -> (r: Self)
        ensures
            r@ == (AppSyncApiBuilderView { event_config: Some(event_config), ..self@ }),
    {
        Self { event_config: Some(event_config), ..self }
    }

    /// Adds the API to the stack.
    pub fn build(self, stack_builder: &mut StackBuilder) -> (r: AppSyncApiRef)
        ensures
            final(stack_builder)@ == (StackBuilderView {
                resources: old(stack_builder)@.resources.push(final(stack_builder)@.resources.last()),
                ..old(stack_builder)@
            }),
            final(stack_builder)@.resources.last() matches Resource::AppSyncApi(a) && {
                &&& a@.id == self@.id
                &&& a@.resource_id@ == r@.resource_id
                &&& a@.resource_type@ == "AWS::AppSync::Api"@
                &&& a@.properties@.name == self@.name
                &&& a@.properties@.event_config == self@.event_config
            },
            is_generated_id(r@.resource_id, "AppSyncApi"@),
            r@.ref_name is None,
            r@.arn_value is None,
    {
        let resource_id = Resource::generate_id("AppSyncApi");
        let api = AppSyncApi {
            id: self.id,
            resource_id: resource_id.clone(),
            resource_type: String::from_str("AWS::AppSync::Api"),
            properties: AppSyncApiProperties { name: self.name, event_config: self.event_config },
        };
        stack_builder.add_resource(Resource::AppSyncApi(api));
        AppSyncApiRef::internal_new(resource_id)
    }
}

/// Builder for the event configuration of an API.
pub struct EventConfigBuilder {
    pub(crate) auth_providers: Vec<AuthProvider>,
    pub(crate) connection_auth_modes: Vec<AppSyncAuthMode>,
    pub(crate) default_auth_modes: Vec<AppSyncAuthMode>,
    pub(crate) default_subscribe_auth_modes: Vec<AppSyncAuthMode>,
    pub(crate) log_config: Option<EventLogConfig>,
}

impl View for EventConfigBuilder {
    type V = EventConfigView;

    open(crate) spec fn view(&self) -> EventConfigView {
        EventConfigView {
            auth_providers: self.auth_providers,
            connection_auth_modes: self.connection_auth_modes,
            default_auth_modes: self.default_auth_modes,
            default_subscribe_auth_modes: self.default_subscribe_auth_modes,
            log_config: self.log_config,
        }
    }
}

/// The types of authorization modes, in order.
pub open spec fn auth_mode_types(s: Seq<AppSyncAuthMode>) -> Seq<Option<Seq<char>>> {
    s.map_values(|m: AppSyncAuthMode| opt_view(m@.auth_type))
}

/// The types that the modes name, in order.
pub open spec fn auth_mode_names(s: Seq<AuthMode>) -> Seq<Option<Seq<char>>> {
    s.map_values(|m: AuthMode| Some(auth_mode_name(m)))
}

/// The authorization modes for the given modes, in order.
fn to_app_sync_auth_modes(modes: Vec<AuthMode>) -> (r: Vec<AppSyncAuthMode>)
    ensures
        auth_mode_types(r@) == auth_mode_names(modes@),
{
    let ghost all = modes@;
    let mut rest = modes;
    let mut out: Vec<AppSyncAuthMode> = Vec::new();
    while rest.len() > 0
        invariant
            out@.len() + rest@.len() == all.len(),
            rest@ == all.skip(out@.len() as int),
            auth_mode_types(out@) == auth_mode_names(all.take(out@.len() as int)),
        decreases rest@.len(),
    {
        let ghost k = out@.len() as int;
        let m = rest.remove(0);
        assert(all.skip(k)[0] == all[k]);
        let ghost old_out = out@;
        out.push(AppSyncAuthMode::from(m));
        assert(rest@ =~= all.skip(out@.len() as int));
        assert(all.take(k + 1) =~= all.take(k).push(all[k]));
        assert(auth_mode_types(out@) =~= auth_mode_types(old_out).push(Some(auth_mode_name(all[k]))));
    }
    assert(all.take(out@.len() as int) =~= all);
    out
}

impl EventConfigBuilder {
    pub fn new(
        auth_providers: Vec<AuthProvider>,
        connection_auth_modes: Vec<AuthMode>,
        default_auth_modes: Vec<AuthMode>,
        default_subscribe_auth_modes: Vec<AuthMode>,
    ) -> (r: Self)
        ensures
            r@.auth_providers == auth_providers,
            auth_mode_types(r@.connection_auth_modes@) == auth_mode_names(connection_auth_modes@),
            auth_mode_types(r@.default_auth_modes@) == auth_mode_names(default_auth_modes@),
            auth_mode_types(r@.default_subscribe_auth_modes@) == auth_mode_names(default_subscribe_auth_modes@),
            r@.log_config is None,
    {
        Self {
            auth_providers,
            connection_auth_modes: to_app_sync_auth_modes(connection_auth_modes),
            default_auth_modes: to_app_sync_auth_modes(default_auth_modes),
            default_subscribe_auth_modes: to_app_sync_auth_modes(default_subscribe_auth_modes),
            log_config: None,
        }
    }

    pub fn log_config(self, config: EventLogConfig) -> (r: Self)
        ensures
            r@ == (EventConfigView { log_config: Some(config), ..self@ }),
    {
        Self { log_config: Some(config), ..self }
    }

    pub fn build(self) -> (r: EventConfig)
        ensures
            r@ == self@,
    {
        EventConfig {
            auth_providers: self.auth_providers,
            connection_auth_modes: self.connection_auth_modes,
            default_auth_modes: self.default_auth_modes,
            default_subscribe_auth_modes: self.default_subscribe_auth_modes,
            log_config: self.log_config,
        }
    }
}

/// A way to authorize requests, with the configuration it needs.
pub enum AuthType {
    AmazonCognitoUserPools(CognitoConfig),
    AwsIam,
    ApiKey,
    OpenidConnect(OpenIDConnectConfig),
    AwsLambda(LambdaAuthorizerConfig),
}

/// An authorization mode of an API.
#[derive(Debug, Clone)]
pub enum AuthMode {
    AmazonCognitoUserPools,
    AwsIam,
    ApiKey,
    OpenidConnect,
    AwsLambda,
}

/// How CloudFormation writes an authorization mode.
pub open spec fn auth_mode_name(m: AuthMode) -> Seq<char> {
    match m {
        AuthMode::AmazonCognitoUserPools => "AMAZON_COGNITO_USER_POOLS"@,
        AuthMode::AwsIam => "AWS_IAM"@,
        AuthMode::ApiKey => "API_KEY"@,
        AuthMode::OpenidConnect => "OPENID_CONNECT"@,
        AuthMode::AwsLambda => "AWS_LAMBDA"@,
    }
}

impl vstd::std_specs::convert::FromSpecImpl<AuthMode> for AppSyncAuthMode {
    open spec fn obeys_from_spec() -> bool {
        false
    }

    open spec fn from_spec(v: AuthMode) -> AppSyncAuthMode {
        vstd::pervasive::arbitrary()
    }
}

impl From<AuthMode> for AppSyncAuthMode {
    fn from(mode: AuthMode) -> (r: AppSyncAuthMode)
        ensures
            opt_view(r@.auth_type) == Some(auth_mode_name(mode)),
    {
        match mode {
            AuthMode::AmazonCognitoUserPools => AppSyncAuthMode {
                auth_type: Some(String::from_str("AMAZON_COGNITO_USER_POOLS")),
            },
            AuthMode::AwsIam => AppSyncAuthMode { auth_type: Some(String::from_str("AWS_IAM")) },
            AuthMode::ApiKey => AppSyncAuthMode { auth_type: Some(String::from_str("API_KEY")) },
            AuthMode::OpenidConnect => AppSyncAuthMode { auth_type: Some(String::from_str("OPENID_CONNECT")) },
            AuthMode::AwsLambda => AppSyncAuthMode { auth_type: Some(String::from_str("AWS_LAMBDA")) },
        }
    }
}

/// Builder for a way an API authorizes requests.
pub struct AuthProviderBuilder {
    pub(crate) auth_type: String,
    pub(crate) cognito_config: Option<CognitoConfig>,
    pub(crate) lambda_auth_config: Option<LambdaAuthorizerConfig>,
    pub(crate) open_id_connect_config: Option<OpenIDConnectConfig>,
}

impl View for AuthProviderBuilder {
    type V = AuthProviderView;

    open(crate) spec fn view(&self) -> AuthProviderView {
        AuthProviderView {
            auth_type: self.auth_type,
            cognito_config: self.cognito_config,
            lambda_auth_config: self.lambda_auth_config,
            open_id_connect_config: self.open_id_connect_config,
        }
    }
}

/// The provider an authorization type makes: the type's name, and its configuration where it has one.
pub open spec fn auth_provider_of(p: AuthProviderView, t: AuthType) -> bool {
    match t {
        AuthType::AmazonCognitoUserPools(c) => p.auth_type@ == "AMAZON_COGNITO_USER_POOLS"@ && p.cognito_config == Some(c)
            && p.lambda_auth_config is None && p.open_id_connect_config is None,
        AuthType::AwsIam => p.auth_type@ == "AWS_IAM"@ && p.cognito_config is None && p.lambda_auth_config is None
            && p.open_id_connect_config is None,
        AuthType::ApiKey => p.auth_type@ == "API_KEY"@ && p.cognito_config is None && p.lambda_auth_config is None
            && p.open_id_connect_config is None,
        AuthType::OpenidConnect(c) => p.auth_type@ == "OPENID_CONNECT"@ && p.open_id_connect_config == Some(c)
            && p.cognito_config is None && p.lambda_auth_config is None,
        AuthType::AwsLambda(c) => p.auth_type@ == "AWS_LAMBDA"@ && p.lambda_auth_config == Some(c)
            && p.cognito_config is None && p.open_id_connect_config is None,
    }
}

impl AuthProviderBuilder {
    pub fn new(auth_type: AuthType) -> (r: Self)
        ensures
            auth_provider_of(r@, auth_type),
    {
        match auth_type {
            AuthType::AmazonCognitoUserPools(c) => Self {
                auth_type: String::from_str("AMAZON_COGNITO_USER_POOLS"),
                cognito_config: Some(c),
                lambda_auth_config: None,
                open_id_connect_config: None,
            },
            AuthType::AwsIam => Self {
                auth_type: String::from_str("AWS_IAM"),
                cognito_config: None,
                lambda_auth_config: None,
                open_id_connect_config: None,
            },
            AuthType::ApiKey => Self {
                auth_type: String::from_str("API_KEY"),
                cognito_config: None,
                lambda_auth_config: None,
                open_id_connect_config: None,
            },
            AuthType::OpenidConnect(c) => Self {
                auth_type: String::from_str("OPENID_CONNECT"),
                open_id_connect_config: Some(c),
                cognito_config: None,
                lambda_auth_config: None,
            },
            AuthType::AwsLambda(c) => Self {
                auth_type: String::from_str("AWS_LAMBDA"),
                lambda_auth_config: Some(c),
                cognito_config: None,
                open_id_connect_config: None,
            },
        }
    }

    pub fn build(self) -> (r: AuthProvider)
        ensures
            r@ == self@,
    {
        AuthProvider {
            auth_type: self.auth_type,
            cognito_config: self.cognito_config,
            lambda_auth_config: self.lambda_auth_config,
            open_id_connect_config: self.open_id_connect_config,
        }
    }
}

/// How much an event API logs.
#[derive(Debug, Clone)]
pub enum AppSyncApiLogLevel {
    NoLogs,
    Error,
    All,
    Info,
    Debug,
}

/// How CloudFormation writes a [`AppSyncApiLogLevel`].
pub open spec fn log_level_name(v: AppSyncApiLogLevel) -> Seq<char> {
    match v {
        AppSyncApiLogLevel::NoLogs => "NONE"@,
        AppSyncApiLogLevel::Error => "ERROR"@,
        AppSyncApiLogLevel::All => "ALL"@,
        AppSyncApiLogLevel::Info => "INFO"@,
        AppSyncApiLogLevel::Debug => "DEBUG"@,
    }
}

impl vstd::std_specs::convert::FromSpecImpl<AppSyncApiLogLevel> for String {
    open spec fn obeys_from_spec() -> bool {
        false
    }

    open spec fn from_spec(v: AppSyncApiLogLevel) -> String {
        vstd::pervasive::arbitrary()
    }
}

impl From<AppSyncApiLogLevel> for String {
    fn from(value: AppSyncApiLogLevel) -> (r: String)
        ensures
            r@ == log_level_name(value),
    {
        match value {
            AppSyncApiLogLevel::NoLogs => String::from_str("NONE"),
            AppSyncApiLogLevel::Error => String::from_str("ERROR"),
            AppSyncApiLogLevel::All => String::from_str("ALL"),
            AppSyncApiLogLevel::Info => String::from_str("INFO"),
            AppSyncApiLogLevel::Debug => String::from_str("DEBUG"),
        }
    }
}
/// Builder for where and how much an event API logs.
pub struct EventLogConfigBuilder {
    pub(crate) cloudwatch_logs_role_arn: String,
    pub(crate) log_level: String,
}

impl View for EventLogConfigBuilder {
    type V = EventLogConfigView;

    open(crate) spec fn view(&self) -> EventLogConfigView {
        EventLogConfigView { cloudwatch_logs_role_arn: self.cloudwatch_logs_role_arn, log_level: self.log_level }
    }
}

impl EventLogConfigBuilder {
    pub fn new(cloudwatch_logs_role_arn: String, log_level: AppSyncApiLogLevel) -> (r: Self)
        ensures
            r@.cloudwatch_logs_role_arn == cloudwatch_logs_role_arn,
            r@.log_level@ == log_level_name(log_level),
    {
        Self { cloudwatch_logs_role_arn, log_level: log_level.into() }
    }

    pub fn build(self) -> (r: EventLogConfig)
        ensures
            r@ == self@,
    {
        EventLogConfig { cloudwatch_logs_role_arn: self.cloudwatch_logs_role_arn, log_level: self.log_level }
    }
}

/// Builder for a channel namespace of an event API.
pub struct ChannelNamespaceBuilder {
    pub(crate) id: Id,
    pub(crate) api_id: Value,
    pub(crate) name: String,
    pub(crate) publish_auth_modes: Option<Vec<AppSyncAuthMode>>,
    pub(crate) subscribe_auth_modes: Option<Vec<AppSyncAuthMode>>,
}

/// What a [`ChannelNamespaceBuilder`] holds.
pub struct ChannelNamespaceBuilderView {
    pub id: Id,
    pub api_id: Value,
    pub name: String,
    pub publish_auth_modes: Option<Vec<AppSyncAuthMode>>,
    pub subscribe_auth_modes: Option<Vec<AppSyncAuthMode>>,
}

impl View for ChannelNamespaceBuilder {
    type V = ChannelNamespaceBuilderView;

    open(crate) spec fn view(&self) -> ChannelNamespaceBuilderView {
        ChannelNamespaceBuilderView {
            id: self.id,
            api_id: self.api_id,
            name: self.name,
            publish_auth_modes: self.publish_auth_modes,
            subscribe_auth_modes: self.subscribe_auth_modes,
        }
    }
}

impl ChannelNamespaceBuilder {
    /// A namespace of the API; its API id is the API's `ApiId` attribute.
    pub fn new(id: &str, api_id: &AppSyncApiRef, name: ChannelNamespaceName) -> (r: Self)
        requires
            !(api_id@.ref_name is Some && api_id@.arn_value is Some),
        ensures
            r@.id.0@ == id@,
            r@.api_id@ == get_att_json(api_id@.resource_id, "ApiId"@),
            r@.name == name.0,
            r@.publish_auth_modes is None,
            r@.subscribe_auth_modes is None,
    {
        Self {
            id: Id(String::from_str(id)),
            api_id: api_id.get_att("ApiId"),
            name: name.0,
            publish_auth_modes: None,
            subscribe_auth_modes: None,
        }
    }

    pub fn publish_auth_modes(self, publish_auth_modes: Vec<AuthMode>) -> (r: Self)
        ensures
            r@ == (ChannelNamespaceBuilderView { publish_auth_modes: r@.publish_auth_modes, ..self@ }),
            r@.publish_auth_modes matches Some(m) && auth_mode_types(m@) == auth_mode_names(publish_auth_modes@),
    {
        Self { publish_auth_modes: Some(to_app_sync_auth_modes(publish_auth_modes)), ..self }
    }

    pub fn subscribe_auth_modes(self, subscribe_auth_modes: Vec<AuthMode>) -> (r: Self)
        ensures
            r@ == (ChannelNamespaceBuilderView { subscribe_auth_modes: r@.subscribe_auth_modes, ..self@ }),
            r@.subscribe_auth_modes matches Some(m) && auth_mode_types(m@) == auth_mode_names(subscribe_auth_modes@),
    {
        Self { subscribe_auth_modes: Some(to_app_sync_auth_modes(subscribe_auth_modes)), ..self }
    }

    /// Adds the namespace to the stack.
    pub fn build(self, stack_builder: &mut StackBuilder) -> (r: ChannelNamespaceRef)
        ensures
            final(stack_builder)@ == (StackBuilderView {
                resources: old(stack_builder)@.resources.push(final(stack_builder)@.resources.last()),
                ..old(stack_builder)@
            }),
            final(stack_builder)@.resources.last() matches Resource::ChannelNamespace(c) && {
                &&& c@.id == self@.id
                &&& c@.resource_id@ == r@.resource_id
                &&& c@.resource_type@ == "AWS::AppSync::ChannelNamespace"@
                &&& c@.properties@.api_id == self@.api_id
                &&& c@.properties@.name == self@.name
                &&& c@.properties@.publish_auth_modes == self@.publish_auth_modes
                &&& c@.properties@.subscribe_auth_modes == self@.subscribe_auth_modes
            },
            is_generated_id(r@.resource_id, "ChannelNamespace"@),
            r@.ref_name is None,
            r@.arn_value is None,
    {
        let resource_id = Resource::generate_id("ChannelNamespace");
        let channel = ChannelNamespace {
            id: self.id,
            resource_id: resource_id.clone(),
            resource_type: String::from_str("AWS::AppSync::ChannelNamespace"),
            properties: ChannelNamespaceProperties {
                api_id: self.api_id,
                name: self.name,
                publish_auth_modes: self.publish_auth_modes,
                subscribe_auth_modes: self.subscribe_auth_modes,
            },
        };
        stack_builder.add_resource(Resource::ChannelNamespace(channel));
        ChannelNamespaceRef::internal_new(resource_id)
    }
}

} // verus!
