use crate::json::Value;
use crate::shared::{arn_json, clone_opt, opt_view, ref_json, Id, RefView, RefWithIdView};
use crate::intrinsic::{get_arn, get_att, get_att_json, get_ref, string_value};

use vstd::prelude::*;

verus! {

/// A reference to a resource, which other resources use to depend on it.
pub struct AppSyncApiRef {
    pub(crate) resource_id: String,
    pub(crate) ref_name: Option<String>,
    pub(crate) arn_value: Option<String>,
}

impl View for AppSyncApiRef {
    type V = RefView;

    open(crate) spec fn view(&self) -> RefView {
        RefView {
            resource_id: self.resource_id@,
            ref_name: opt_view(self.ref_name),
            arn_value: opt_view(self.arn_value),
        }
    }
}

impl AppSyncApiRef {
    pub(crate) fn internal_new(resource_id: String) -> (r: Self)
        ensures
            r@ == (RefView { resource_id: resource_id@, ref_name: None, arn_value: None }),
    {
        Self { resource_id, ref_name: None, arn_value: None }
    }

    /// A reference to a resource that exists outside the stack.
    pub fn new(resource_id: &str, ref_name: &str, arn_value: &str) -> (r: Self)
        ensures
            r@ == (RefView { resource_id: resource_id@, ref_name: Some(ref_name@), arn_value: Some(arn_value@) }),
    {
        Self {
            resource_id: String::from_str(resource_id),
            ref_name: Some(String::from_str(ref_name)),
            arn_value: Some(String::from_str(arn_value)),
        }
    }

    pub(crate) fn get_resource_id(&self) -> (r: &str)
        ensures
            r@ == self@.resource_id,
    {
        self.resource_id.as_str()
    }

    /// What `Ref` gives for the resource: the name it was imported with, or the intrinsic function.
    pub fn get_ref(&self) -> (r: Value)
        ensures
            r@ == ref_json(self@.resource_id, self@.ref_name),
    {
        match &self.ref_name {
            Some(val) => string_value(val.as_str()),
            None => get_ref(self.resource_id.as_str()),
        }
    }

    /// The ARN of the resource: the one it was imported with, or the intrinsic function.
    pub fn get_arn(&self) -> (r: Value)
        ensures
            r@ == arn_json(self@.resource_id, self@.arn_value),
    {
        match &self.arn_value {
            Some(val) => string_value(val.as_str()),
            None => get_arn(self.resource_id.as_str()),
        }
    }

    /// An attribute of the resource; not available for an imported resource.
    pub fn get_att(&self, id: &str) -> (r: Value)
        requires
            !(self@.ref_name is Some && self@.arn_value is Some),
        ensures
            r@ == get_att_json(self@.resource_id, id@),
    {
        get_att(self.resource_id.as_str(), id)
    }
}

impl Clone for AppSyncApiRef {
    fn clone(&self) -> (r: Self)
        ensures
            r@ == self@,
    {
        Self {
            resource_id: self.resource_id.clone(),
            ref_name: clone_opt(&self.ref_name),
            arn_value: clone_opt(&self.arn_value),
        }
    }
}

/// A reference to a resource, which other resources use to depend on it.
pub struct ChannelNamespaceRef {
    pub(crate) resource_id: String,
    pub(crate) ref_name: Option<String>,
    pub(crate) arn_value: Option<String>,
}

impl View for ChannelNamespaceRef {
    type V = RefView;

    open(crate) spec fn view(&self) -> RefView {
        RefView {
            resource_id: self.resource_id@,
            ref_name: opt_view(self.ref_name),
            arn_value: opt_view(self.arn_value),
        }
    }
}

impl ChannelNamespaceRef {
    pub(crate) fn internal_new(resource_id: String) -> (r: Self)
        ensures
            r@ == (RefView { resource_id: resource_id@, ref_name: None, arn_value: None }),
    {
        Self { resource_id, ref_name: None, arn_value: None }
    }

    /// A reference to a resource that exists outside the stack.
    pub fn new(resource_id: &str, ref_name: &str, arn_value: &str) -> (r: Self)
        ensures
            r@ == (RefView { resource_id: resource_id@, ref_name: Some(ref_name@), arn_value: Some(arn_value@) }),
    {
        Self {
            resource_id: String::from_str(resource_id),
            ref_name: Some(String::from_str(ref_name)),
            arn_value: Some(String::from_str(arn_value)),
        }
    }

    pub(crate) fn get_resource_id(&self) -> (r: &str)
        ensures
            r@ == self@.resource_id,
    {
        self.resource_id.as_str()
    }

    /// What `Ref` gives for the resource: the name it was imported with, or the intrinsic function.
    pub fn get_ref(&self) -> (r: Value)
        ensures
            r@ == ref_json(self@.resource_id, self@.ref_name),
    {
        match &self.ref_name {
            Some(val) => string_value(val.as_str()),
            None => get_ref(self.resource_id.as_str()),
        }
    }

    /// The ARN of the resource: the one it was imported with, or the intrinsic function.
    pub fn get_arn(&self) -> (r: Value)
        ensures
            r@ == arn_json(self@.resource_id, self@.arn_value),
    {
        match &self.arn_value {
            Some(val) => string_value(val.as_str()),
            None => get_arn(self.resource_id.as_str()),
        }
    }

    /// An attribute of the resource; not available for an imported resource.
    pub fn get_att(&self, id: &str) -> (r: Value)
        requires
            !(self@.ref_name is Some && self@.arn_value is Some),
        ensures
            r@ == get_att_json(self@.resource_id, id@),
    {
        get_att(self.resource_id.as_str(), id)
    }
}

impl Clone for ChannelNamespaceRef {
    fn clone(&self) -> (r: Self)
        ensures
            r@ == self@,
    {
        Self {
            resource_id: self.resource_id.clone(),
            ref_name: clone_opt(&self.ref_name),
            arn_value: clone_opt(&self.arn_value),
        }
    }
}

/// An AppSync API resource.
pub struct AppSyncApi {
    pub(crate) id: Id,
    pub(crate) resource_id: String,
    pub(crate) resource_type: String,
    pub(crate) properties: AppSyncApiProperties,
}

/// What a [`AppSyncApi`] holds.
pub struct AppSyncApiView {
    pub id: Id,
    pub resource_id: String,
    pub resource_type: String,
    pub properties: AppSyncApiProperties,
}

impl View for AppSyncApi {
    type V = AppSyncApiView;

    open(crate) spec fn view(&self) -> AppSyncApiView {
        AppSyncApiView {
            id: self.id,
            resource_id: self.resource_id,
            resource_type: self.resource_type,
            properties: self.properties,
        }
    }
}

impl AppSyncApi {
    pub fn get_id(&self) -> (r: &Id)
        ensures
            *r == self@.id,
    {
        &self.id
    }

    pub fn get_resource_id(&self) -> (r: &str)
        ensures
            r@ == self@.resource_id@,
    {
        self.resource_id.as_str()
    }

    pub fn get_type(&self) -> (r: &str)
        ensures
            r@ == self@.resource_type@,
    {
        self.resource_type.as_str()
    }
}

/// The properties of an AppSync API: its name and its event configuration.
pub struct AppSyncApiProperties {
    pub(crate) name: String,
    pub(crate) event_config: Option<EventConfig>,
}

/// What a [`AppSyncApiProperties`] holds.
pub struct AppSyncApiPropertiesView {
    pub name: String,
    pub event_config: Option<EventConfig>,
}

impl View for AppSyncApiProperties {
    type V = AppSyncApiPropertiesView;

    open(crate) spec fn view(&self) -> AppSyncApiPropertiesView {
        AppSyncApiPropertiesView {
            name: self.name,
            event_config: self.event_config,
        }
    }
}

/// How an event API authorizes connections, publishing and subscribing, and how it logs.
pub struct EventConfig {
    pub(crate) auth_providers: Vec<AuthProvider>,
    pub(crate) connection_auth_modes: Vec<AppSyncAuthMode>,
    pub(crate) default_auth_modes: Vec<AppSyncAuthMode>,
    pub(crate) default_subscribe_auth_modes: Vec<AppSyncAuthMode>,
    pub(crate) log_config: Option<EventLogConfig>,
}

/// What a [`EventConfig`] holds.
pub struct EventConfigView {
    pub auth_providers: Vec<AuthProvider>,
    pub connection_auth_modes: Vec<AppSyncAuthMode>,
    pub default_auth_modes: Vec<AppSyncAuthMode>,
    pub default_subscribe_auth_modes: Vec<AppSyncAuthMode>,
    pub log_config: Option<EventLogConfig>,
}

impl View for EventConfig {
    type V = EventConfigView;

    open(crate) spec fn view(&self) -> EventConfigView {
        EventConfigView {
            auth_providers: self.auth_providers,
            connection_auth_modes: self.connection_auth_modes,
            default_auth_modes: self.default_auth_modes,
            default_subscribe_auth_modes: self.default_subscribe_auth_modes,
            log_config: self.log_config,
        }
    }
}

/// A way an API can authorize requests, with its configuration.
pub struct AuthProvider {
    pub(crate) auth_type: String,
    pub(crate) cognito_config: Option<CognitoConfig>,
    pub(crate) lambda_auth_config: Option<LambdaAuthorizerConfig>,
    pub(crate) open_id_connect_config: Option<OpenIDConnectConfig>,
}

/// What a [`AuthProvider`] holds.
pub struct AuthProviderView {
    pub auth_type: String,
    pub cognito_config: Option<CognitoConfig>,
    pub lambda_auth_config: Option<LambdaAuthorizerConfig>,
    pub open_id_connect_config: Option<OpenIDConnectConfig>,
}

impl View for AuthProvider {
    type V = AuthProviderView;

    open(crate) spec fn view(&self) -> AuthProviderView {
        AuthProviderView {
            auth_type: self.auth_type,
            cognito_config: self.cognito_config,
            lambda_auth_config: self.lambda_auth_config,
            open_id_connect_config: self.open_id_connect_config,
        }
    }
}

/// The Cognito user pool that authorizes requests.
pub struct CognitoConfig {
    pub(crate) aws_region: String,
    pub(crate) user_pool_id: String,
}

/// What a [`CognitoConfig`] holds.
pub struct CognitoConfigView {
    pub aws_region: String,
    pub user_pool_id: String,
}

impl View for CognitoConfig {
    type V = CognitoConfigView;

    open(crate) spec fn view(&self) -> CognitoConfigView {
        CognitoConfigView {
            aws_region: self.aws_region,
            user_pool_id: self.user_pool_id,
        }
    }
}

/// The function that authorizes requests.
pub struct LambdaAuthorizerConfig {
    pub(crate) authorizer_result_ttl_seconds: Option<u16>,
    pub(crate) authorizer_uri: String,
}

/// What a [`LambdaAuthorizerConfig`] holds.
pub struct LambdaAuthorizerConfigView {
    pub authorizer_result_ttl_seconds: Option<u16>,
    pub authorizer_uri: String,
}

impl View for LambdaAuthorizerConfig {
    type V = LambdaAuthorizerConfigView;

    open(crate) spec fn view(&self) -> LambdaAuthorizerConfigView {
        LambdaAuthorizerConfigView {
            authorizer_result_ttl_seconds: self.authorizer_result_ttl_seconds,
            authorizer_uri: self.authorizer_uri,
        }
    }
}

/// The OpenID Connect provider that authorizes requests.
pub struct OpenIDConnectConfig {
    pub(crate) auth_ttl_millis: Option<u32>,
    pub(crate) client_id: Option<String>,
    pub(crate) iat_ttl_millis: Option<u32>,
    pub(crate) issuer: String,
}

/// What a [`OpenIDConnectConfig`] holds.
pub struct OpenIDConnectConfigView {
    pub auth_ttl_millis: Option<u32>,
    pub client_id: Option<String>,
    pub iat_ttl_millis: Option<u32>,
    pub issuer: String,
}

impl View for OpenIDConnectConfig {
    type V = OpenIDConnectConfigView;

    open(crate) spec fn view(&self) -> OpenIDConnectConfigView {
        OpenIDConnectConfigView {
            auth_ttl_millis: self.auth_ttl_millis,
            client_id: self.client_id,
            iat_ttl_millis: self.iat_ttl_millis,
            issuer: self.issuer,
        }
    }
}

/// An authorization mode, by its type.
pub struct AppSyncAuthMode {
    pub(crate) auth_type: Option<String>,
}

/// What a [`AppSyncAuthMode`] holds.
pub struct AppSyncAuthModeView {
    pub auth_type: Option<String>,
}

impl View for AppSyncAuthMode {
    type V = AppSyncAuthModeView;

    open(crate) spec fn view(&self) -> AppSyncAuthModeView {
        AppSyncAuthModeView {
            auth_type: self.auth_type,
        }
    }
}

/// Where and how much an event API logs.
pub struct EventLogConfig {
    pub(crate) cloudwatch_logs_role_arn: String,
    pub(crate) log_level: String,
}

/// What a [`EventLogConfig`] holds.
pub struct EventLogConfigView {
    pub cloudwatch_logs_role_arn: String,
    pub log_level: String,
}

impl View for EventLogConfig {
    type V = EventLogConfigView;

    open(crate) spec fn view(&self) -> EventLogConfigView {
        EventLogConfigView {
            cloudwatch_logs_role_arn: self.cloudwatch_logs_role_arn,
            log_level: self.log_level,
        }
    }
}

/// An AppSync channel namespace resource.
pub struct ChannelNamespace {
    pub(crate) id: Id,
    pub(crate) resource_id: String,
    pub(crate) resource_type: String,
    pub(crate) properties: ChannelNamespaceProperties,
}

/// What a [`ChannelNamespace`] holds.
pub struct ChannelNamespaceView {
    pub id: Id,
    pub resource_id: String,
    pub resource_type: String,
    pub properties: ChannelNamespaceProperties,
}

impl View for ChannelNamespace {
    type V = ChannelNamespaceView;

    open(crate) spec fn view(&self) -> ChannelNamespaceView {
        ChannelNamespaceView {
            id: self.id,
            resource_id: self.resource_id,
            resource_type: self.resource_type,
            properties: self.properties,
        }
    }
}

impl ChannelNamespace {
    pub fn get_id(&self) -> (r: &Id)
        ensures
            *r == self@.id,
    {
        &self.id
    }

    pub fn get_resource_id(&self) -> (r: &str)
        ensures
            r@ == self@.resource_id@,
    {
        self.resource_id.as_str()
    }

    pub fn get_type(&self) -> (r: &str)
        ensures
            r@ == self@.resource_type@,
    {
        self.resource_type.as_str()
    }
}

/// The properties of a channel namespace.
pub struct ChannelNamespaceProperties {
    pub(crate) api_id: Value,
    pub(crate) name: String,
    pub(crate) publish_auth_modes: Option<Vec<AppSyncAuthMode>>,
    pub(crate) subscribe_auth_modes: Option<Vec<AppSyncAuthMode>>,
}

/// What a [`ChannelNamespaceProperties`] holds.
pub struct ChannelNamespacePropertiesView {
    pub api_id: Value,
    pub name: String,
    pub publish_auth_modes: Option<Vec<AppSyncAuthMode>>,
    pub subscribe_auth_modes: Option<Vec<AppSyncAuthMode>>,
}

impl View for ChannelNamespaceProperties {
    type V = ChannelNamespacePropertiesView;

    open(crate) spec fn view(&self) -> ChannelNamespacePropertiesView {
        ChannelNamespacePropertiesView {
            api_id: self.api_id,
            name: self.name,
            publish_auth_modes: self.publish_auth_modes,
            subscribe_auth_modes: self.subscribe_auth_modes,
        }
    }
}

} // verus!
