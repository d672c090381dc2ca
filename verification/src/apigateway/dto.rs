use crate::json::Value;
use crate::shared::{arn_json, clone_opt, opt_view, ref_json, Id, RefView, RefWithIdView};
use crate::intrinsic::{get_arn, get_att, get_att_json, get_ref, string_value};

use vstd::prelude::*;

verus! {

/// A reference to a resource, which other resources use to depend on it.
pub struct ApiGatewayV2ApiRef {
    pub(crate) resource_id: String,
    pub(crate) ref_name: Option<String>,
    pub(crate) arn_value: Option<String>,
}

impl View for ApiGatewayV2ApiRef {
    type V = RefView;

    open(crate) spec fn view(&self) -> RefView {
        RefView {
            resource_id: self.resource_id@,
            ref_name: opt_view(self.ref_name),
            arn_value: opt_view(self.arn_value),
        }
    }
}

impl ApiGatewayV2ApiRef {
    pub(crate) fn internal_new(resource_id: String) -> (r: Self)
        ensures
            r@ == (RefView { resource_id: resource_id@, ref_name: None, arn_value: None }),
    {
        Self { resource_id, ref_name: None, arn_value: None }
    }

    /// A reference to a resource that exists outside the stack.
    pub fn new(resource_id: &str, ref_name: &str, arn_value: &str) -> (r: Self)
        ensures
            r@ == (RefView { resource_id: resource_id@, ref_name: Some(ref_name@), arn_value: Some(arn_value@) }),
    {
        Self {
            resource_id: String::from_str(resource_id),
            ref_name: Some(String::from_str(ref_name)),
            arn_value: Some(String::from_str(arn_value)),
        }
    }

    pub(crate) fn get_resource_id(&self) -> (r: &str)
        ensures
            r@ == self@.resource_id,
    {
        self.resource_id.as_str()
    }

    /// What `Ref` gives for the resource: the name it was imported with, or the intrinsic function.
    pub fn get_ref(&self) -> (r: Value)
        ensures
            r@ == ref_json(self@.resource_id, self@.ref_name),
    {
        match &self.ref_name {
            Some(val) => string_value(val.as_str()),
            None => get_ref(self.resource_id.as_str()),
        }
    }

    /// The ARN of the resource: the one it was imported with, or the intrinsic function.
    pub fn get_arn(&self) -> (r: Value)
        ensures
            r@ == arn_json(self@.resource_id, self@.arn_value),
    {
        match &self.arn_value {
            Some(val) => string_value(val.as_str()),
            None => get_arn(self.resource_id.as_str()),
        }
    }

    /// An attribute of the resource; not available for an imported resource.
    pub fn get_att(&self, id: &str) -> (r: Value)
        requires
            !(self@.ref_name is Some && self@.arn_value is Some),
        ensures
            r@ == get_att_json(self@.resource_id, id@),
    {
        get_att(self.resource_id.as_str(), id)
    }
}

impl Clone for ApiGatewayV2ApiRef {
    fn clone(&self) -> (r: Self)
        ensures
            r@ == self@,
    {
        Self {
            resource_id: self.resource_id.clone(),
            ref_name: clone_opt(&self.ref_name),
            arn_value: clone_opt(&self.arn_value),
        }
    }
}

/// A reference to a resource, which other resources use to depend on it.
pub struct ApiGatewayV2StageRef {
    pub(crate) resource_id: String,
    pub(crate) ref_name: Option<String>,
    pub(crate) arn_value: Option<String>,
}

impl View for ApiGatewayV2StageRef {
    type V = RefView;

    open(crate) spec fn view(&self) -> RefView {
        RefView {
            resource_id: self.resource_id@,
            ref_name: opt_view(self.ref_name),
            arn_value: opt_view(self.arn_value),
        }
    }
}

impl ApiGatewayV2StageRef {
    pub(crate) fn internal_new(resource_id: String) -> (r: Self)
        ensures
            r@ == (RefView { resource_id: resource_id@, ref_name: None, arn_value: None }),
    {
        Self { resource_id, ref_name: None, arn_value: None }
    }

    /// A reference to a resource that exists outside the stack.
    pub fn new(resource_id: &str, ref_name: &str, arn_value: &str) -> (r: Self)
        ensures
            r@ == (RefView { resource_id: resource_id@, ref_name: Some(ref_name@), arn_value: Some(arn_value@) }),
    {
        Self {
            resource_id: String::from_str(resource_id),
            ref_name: Some(String::from_str(ref_name)),
            arn_value: Some(String::from_str(arn_value)),
        }
    }

    pub(crate) fn get_resource_id(&self) -> (r: &str)
        ensures
            r@ == self@.resource_id,
    {
        self.resource_id.as_str()
    }

    /// What `Ref` gives for the resource: the name it was imported with, or the intrinsic function.
    pub fn get_ref(&self) -> (r: Value)
        ensures
            r@ == ref_json(self@.resource_id, self@.ref_name),
    {
        match &self.ref_name {
            Some(val) => string_value(val.as_str()),
            None => get_ref(self.resource_id.as_str()),
        }
    }

    /// The ARN of the resource: the one it was imported with, or the intrinsic function.
    pub fn get_arn(&self) -> (r: Value)
        ensures
            r@ == arn_json(self@.resource_id, self@.arn_value),
    {
        match &self.arn_value {
            Some(val) => string_value(val.as_str()),
            None => get_arn(self.resource_id.as_str()),
        }
    }

    /// An attribute of the resource; not available for an imported resource.
    pub fn get_att(&self, id: &str) -> (r: Value)
        requires
            !(self@.ref_name is Some && self@.arn_value is Some),
        ensures
            r@ == get_att_json(self@.resource_id, id@),
    {
        get_att(self.resource_id.as_str(), id)
    }
}

impl Clone for ApiGatewayV2StageRef {
    fn clone(&self) -> (r: Self)
        ensures
            r@ == self@,
    {
        Self {
            resource_id: self.resource_id.clone(),
            ref_name: clone_opt(&self.ref_name),
            arn_value: clone_opt(&self.arn_value),
        }
    }
}

/// A reference to a resource, which other resources use to depend on it.
pub struct ApiGatewayV2IntegrationRef {
    pub(crate) resource_id: String,
    pub(crate) ref_name: Option<String>,
    pub(crate) arn_value: Option<String>,
}

impl View for ApiGatewayV2IntegrationRef {
    type V = RefView;

    open(crate) spec fn view(&self) -> RefView {
        RefView {
            resource_id: self.resource_id@,
            ref_name: opt_view(self.ref_name),
            arn_value: opt_view(self.arn_value),
        }
    }
}

impl ApiGatewayV2IntegrationRef {
    pub(crate) fn internal_new(resource_id: String) -> (r: Self)
        ensures
            r@ == (RefView { resource_id: resource_id@, ref_name: None, arn_value: None }),
    {
        Self { resource_id, ref_name: None, arn_value: None }
    }

    /// A reference to a resource that exists outside the stack.
    pub fn new(resource_id: &str, ref_name: &str, arn_value: &str) -> (r: Self)
        ensures
            r@ == (RefView { resource_id: resource_id@, ref_name: Some(ref_name@), arn_value: Some(arn_value@) }),
    {
        Self {
            resource_id: String::from_str(resource_id),
            ref_name: Some(String::from_str(ref_name)),
            arn_value: Some(String::from_str(arn_value)),
        }
    }

    pub(crate) fn get_resource_id(&self) -> (r: &str)
        ensures
            r@ == self@.resource_id,
    {
        self.resource_id.as_str()
    }

    /// What `Ref` gives for the resource: the name it was imported with, or the intrinsic function.
    pub fn get_ref(&self) -> (r: Value)
        ensures
            r@ == ref_json(self@.resource_id, self@.ref_name),
    {
        match &self.ref_name {
            Some(val) => string_value(val.as_str()),
            None => get_ref(self.resource_id.as_str()),
        }
    }

    /// The ARN of the resource: the one it was imported with, or the intrinsic function.
    pub fn get_arn(&self) -> (r: Value)
        ensures
            r@ == arn_json(self@.resource_id, self@.arn_value),
    {
        match &self.arn_value {
            Some(val) => string_value(val.as_str()),
            None => get_arn(self.resource_id.as_str()),
        }
    }

    /// An attribute of the resource; not available for an imported resource.
    pub fn get_att(&self, id: &str) -> (r: Value)
        requires
            !(self@.ref_name is Some && self@.arn_value is Some),
        ensures
            r@ == get_att_json(self@.resource_id, id@),
    {
        get_att(self.resource_id.as_str(), id)
    }
}

impl Clone for ApiGatewayV2IntegrationRef {
    fn clone(&self) -> (r: Self)
        ensures
            r@ == self@,
    {
        Self {
            resource_id: self.resource_id.clone(),
            ref_name: clone_opt(&self.ref_name),
            arn_value: clone_opt(&self.arn_value),
        }
    }
}

/// A reference to a resource, which other resources use to depend on it.
pub struct ApiGatewayV2RouteRef {
    pub(crate) resource_id: String,
    pub(crate) ref_name: Option<String>,
    pub(crate) arn_value: Option<String>,
}

impl View for ApiGatewayV2RouteRef {
    type V = RefView;

    open(crate) spec fn view(&self) -> RefView {
        RefView {
            resource_id: self.resource_id@,
            ref_name: opt_view(self.ref_name),
            arn_value: opt_view(self.arn_value),
        }
    }
}

impl ApiGatewayV2RouteRef {
    pub(crate) fn internal_new(resource_id: String) -> (r: Self)
        ensures
            r@ == (RefView { resource_id: resource_id@, ref_name: None, arn_value: None }),
    {
        Self { resource_id, ref_name: None, arn_value: None }
    }

    /// A reference to a resource that exists outside the stack.
    pub fn new(resource_id: &str, ref_name: &str, arn_value: &str) -> (r: Self)
        ensures
            r@ == (RefView { resource_id: resource_id@, ref_name: Some(ref_name@), arn_value: Some(arn_value@) }),
    {
        Self {
            resource_id: String::from_str(resource_id),
            ref_name: Some(String::from_str(ref_name)),
            arn_value: Some(String::from_str(arn_value)),
        }
    }

    pub(crate) fn get_resource_id(&self) -> (r: &str)
        ensures
            r@ == self@.resource_id,
    {
        self.resource_id.as_str()
    }

    /// What `Ref` gives for the resource: the name it was imported with, or the intrinsic function.
    pub fn get_ref(&self) -> (r: Value)
        ensures
            r@ == ref_json(self@.resource_id, self@.ref_name),
    {
        match &self.ref_name {
            Some(val) => string_value(val.as_str()),
            None => get_ref(self.resource_id.as_str()),
        }
    }

    /// The ARN of the resource: the one it was imported with, or the intrinsic function.
    pub fn get_arn(&self) -> (r: Value)
        ensures
            r@ == arn_json(self@.resource_id, self@.arn_value),
    {
        match &self.arn_value {
            Some(val) => string_value(val.as_str()),
            None => get_arn(self.resource_id.as_str()),
        }
    }

    /// An attribute of the resource; not available for an imported resource.
    pub fn get_att(&self, id: &str) -> (r: Value)
        requires
            !(self@.ref_name is Some && self@.arn_value is Some),
        ensures
            r@ == get_att_json(self@.resource_id, id@),
    {
        get_att(self.resource_id.as_str(), id)
    }
}

impl Clone for ApiGatewayV2RouteRef {
    fn clone(&self) -> (r: Self)
        ensures
            r@ == self@,
    {
        Self {
            resource_id: self.resource_id.clone(),
            ref_name: clone_opt(&self.ref_name),
            arn_value: clone_opt(&self.arn_value),
        }
    }
}

/// An API Gateway V2 API resource.
pub struct ApiGatewayV2Api {
    pub(crate) id: Id,
    pub(crate) resource_id: String,
    pub(crate) resource_type: String,
    pub(crate) properties: ApiGatewayV2ApiProperties,
}

/// What a [`ApiGatewayV2Api`] holds.
pub struct ApiGatewayV2ApiView {
    pub id: Id,
    pub resource_id: String,
    pub resource_type: String,
    pub properties: ApiGatewayV2ApiProperties,
}

impl View for ApiGatewayV2Api {
    type V = ApiGatewayV2ApiView;

    open(crate) spec fn view(&self) -> ApiGatewayV2ApiView {
        ApiGatewayV2ApiView {
            id: self.id,
            resource_id: self.resource_id,
            resource_type: self.resource_type,
            properties: self.properties,
        }
    }
}

impl ApiGatewayV2Api {
    pub fn get_id(&self) -> (r: &Id)
        ensures
            *r == self@.id,
    {
        &self.id
    }

    pub fn get_resource_id(&self) -> (r: &str)
        ensures
            r@ == self@.resource_id@,
    {
        self.resource_id.as_str()
    }

    pub fn get_type(&self) -> (r: &str)
        ensures
            r@ == self@.resource_type@,
    {
        self.resource_type.as_str()
    }
}

/// The properties of an HTTP API.
pub struct ApiGatewayV2ApiProperties {
    pub(crate) name: Option<String>,
    pub(crate) protocol_type: String,
    pub(crate) disable_execute_api_endpoint: Option<bool>,
    pub(crate) cors_configuration: Option<CorsConfiguration>,
}

/// What a [`ApiGatewayV2ApiProperties`] holds.
pub struct ApiGatewayV2ApiPropertiesView {
    pub name: Option<String>,
    pub protocol_type: String,
    pub disable_execute_api_endpoint: Option<bool>,
    pub cors_configuration: Option<CorsConfiguration>,
}

impl View for ApiGatewayV2ApiProperties {
    type V = ApiGatewayV2ApiPropertiesView;

    open(crate) spec fn view(&self) -> ApiGatewayV2ApiPropertiesView {
        ApiGatewayV2ApiPropertiesView {
            name: self.name,
            protocol_type: self.protocol_type,
            disable_execute_api_endpoint: self.disable_execute_api_endpoint,
            cors_configuration: self.cors_configuration,
        }
    }
}

/// The cross-origin resource sharing rules of an HTTP API.
pub struct CorsConfiguration {
    pub(crate) allow_credentials: Option<bool>,
    pub(crate) allow_headers: Option<Vec<String>>,
    pub(crate) allow_methods: Option<Vec<String>>,
    pub(crate) allow_origins: Option<Vec<String>>,
    pub(crate) expose_headers: Option<Vec<String>>,
    pub(crate) max_age: Option<u64>,
}

/// What a [`CorsConfiguration`] holds.
pub struct CorsConfigurationView {
    pub allow_credentials: Option<bool>,
    pub allow_headers: Option<Vec<String>>,
    pub allow_methods: Option<Vec<String>>,
    pub allow_origins: Option<Vec<String>>,
    pub expose_headers: Option<Vec<String>>,
    pub max_age: Option<u64>,
}

impl View for CorsConfiguration {
    type V = CorsConfigurationView;

    open(crate) spec fn view(&self) -> CorsConfigurationView {
        CorsConfigurationView {
            allow_credentials: self.allow_credentials,
            allow_headers: self.allow_headers,
            allow_methods: self.allow_methods,
            allow_origins: self.allow_origins,
            expose_headers: self.expose_headers,
            max_age: self.max_age,
        }
    }
}

/// An API Gateway V2 stage resource.
pub struct ApiGatewayV2Stage {
    pub(crate) id: Id,
    pub(crate) resource_id: String,
    pub(crate) resource_type: String,
    pub(crate) properties: ApiGatewayV2StageProperties,
}

/// What a [`ApiGatewayV2Stage`] holds.
pub struct ApiGatewayV2StageView {
    pub id: Id,
    pub resource_id: String,
    pub resource_type: String,
    pub properties: ApiGatewayV2StageProperties,
}

impl View for ApiGatewayV2Stage {
    type V = ApiGatewayV2StageView;

    open(crate) spec fn view(&self) -> ApiGatewayV2StageView {
        ApiGatewayV2StageView {
            id: self.id,
            resource_id: self.resource_id,
            resource_type: self.resource_type,
            properties: self.properties,
        }
    }
}

impl ApiGatewayV2Stage {
    pub fn get_id(&self) -> (r: &Id)
        ensures
            *r == self@.id,
    {
        &self.id
    }

    pub fn get_resource_id(&self) -> (r: &str)
        ensures
            r@ == self@.resource_id@,
    {
        self.resource_id.as_str()
    }

    pub fn get_type(&self) -> (r: &str)
        ensures
            r@ == self@.resource_type@,
    {
        self.resource_type.as_str()
    }
}

/// The properties of a stage: the API it deploys and its name.
pub struct ApiGatewayV2StageProperties {
    pub(crate) api_id: Value,
    pub(crate) stage_name: String,
    pub(crate) auto_deploy: bool,
    pub(crate) route_settings: Option<Value>,
}

/// What a [`ApiGatewayV2StageProperties`] holds.
pub struct ApiGatewayV2StagePropertiesView {
    pub api_id: Value,
    pub stage_name: String,
    pub auto_deploy: bool,
    pub route_settings: Option<Value>,
}

impl View for ApiGatewayV2StageProperties {
    type V = ApiGatewayV2StagePropertiesView;

    open(crate) spec fn view(&self) -> ApiGatewayV2StagePropertiesView {
        ApiGatewayV2StagePropertiesView {
            api_id: self.api_id,
            stage_name: self.stage_name,
            auto_deploy: self.auto_deploy,
            route_settings: self.route_settings,
        }
    }
}

/// An API Gateway V2 integration resource.
pub struct ApiGatewayV2Integration {
    pub(crate) id: Id,
    pub(crate) resource_id: String,
    pub(crate) resource_type: String,
    pub(crate) properties: ApiGatewayV2IntegrationProperties,
}

/// What a [`ApiGatewayV2Integration`] holds.
pub struct ApiGatewayV2IntegrationView {
    pub id: Id,
    pub resource_id: String,
    pub resource_type: String,
    pub properties: ApiGatewayV2IntegrationProperties,
}

impl View for ApiGatewayV2Integration {
    type V = ApiGatewayV2IntegrationView;

    open(crate) spec fn view(&self) -> ApiGatewayV2IntegrationView {
        ApiGatewayV2IntegrationView {
            id: self.id,
            resource_id: self.resource_id,
            resource_type: self.resource_type,
            properties: self.properties,
        }
    }
}

impl ApiGatewayV2Integration {
    pub fn get_id(&self) -> (r: &Id)
        ensures
            *r == self@.id,
    {
        &self.id
    }

    pub fn get_resource_id(&self) -> (r: &str)
        ensures
            r@ == self@.resource_id@,
    {
        self.resource_id.as_str()
    }

    pub fn get_type(&self) -> (r: &str)
        ensures
            r@ == self@.resource_type@,
    {
        self.resource_type.as_str()
    }
}

/// The properties of an integration: how the API reaches its backend.
pub struct ApiGatewayV2IntegrationProperties {
    pub(crate) api_id: Value,
    pub(crate) integration_type: String,
    pub(crate) integration_method: Option<String>,
    pub(crate) integration_uri: Option<Value>,
    pub(crate) passthrough_behavior: Option<String>,
    pub(crate) payload_format_version: Option<String>,
    pub(crate) request_parameters: Option<Value>,
    pub(crate) request_templates: Option<Value>,
    pub(crate) response_parameters: Option<Value>,
    pub(crate) timeout_in_millis: Option<u32>,
}

/// What a [`ApiGatewayV2IntegrationProperties`] holds.
pub struct ApiGatewayV2IntegrationPropertiesView {
    pub api_id: Value,
    pub integration_type: String,
    pub integration_method: Option<String>,
    pub integration_uri: Option<Value>,
    pub passthrough_behavior: Option<String>,
    pub payload_format_version: Option<String>,
    pub request_parameters: Option<Value>,
    pub request_templates: Option<Value>,
    pub response_parameters: Option<Value>,
    pub timeout_in_millis: Option<u32>,
}

impl View for ApiGatewayV2IntegrationProperties {
    type V = ApiGatewayV2IntegrationPropertiesView;

    open(crate) spec fn view(&self) -> ApiGatewayV2IntegrationPropertiesView {
        ApiGatewayV2IntegrationPropertiesView {
            api_id: self.api_id,
            integration_type: self.integration_type,
            integration_method: self.integration_method,
            integration_uri: self.integration_uri,
            passthrough_behavior: self.passthrough_behavior,
            payload_format_version: self.payload_format_version,
            request_parameters: self.request_parameters,
            request_templates: self.request_templates,
            response_parameters: self.response_parameters,
            timeout_in_millis: self.timeout_in_millis,
        }
    }
}

/// An API Gateway V2 route resource.
pub struct ApiGatewayV2Route {
    pub(crate) id: Id,
    pub(crate) resource_id: String,
    pub(crate) resource_type: String,
    pub(crate) properties: ApiGatewayV2RouteProperties,
}

/// What a [`ApiGatewayV2Route`] holds.
pub struct ApiGatewayV2RouteView {
    pub id: Id,
    pub resource_id: String,
    pub resource_type: String,
    pub properties: ApiGatewayV2RouteProperties,
}

impl View for ApiGatewayV2Route {
    type V = ApiGatewayV2RouteView;

    open(crate) spec fn view(&self) -> ApiGatewayV2RouteView {
        ApiGatewayV2RouteView {
            id: self.id,
            resource_id: self.resource_id,
            resource_type: self.resource_type,
            properties: self.properties,
        }
    }
}

impl ApiGatewayV2Route {
    pub fn get_id(&self) -> (r: &Id)
        ensures
            *r == self@.id,
    {
        &self.id
    }

    pub fn get_resource_id(&self) -> (r: &str)
        ensures
            r@ == self@.resource_id@,
    {
        self.resource_id.as_str()
    }

    pub fn get_type(&self) -> (r: &str)
        ensures
            r@ == self@.resource_type@,
    {
        self.resource_type.as_str()
    }
}

/// The properties of a route: its key and its target.
pub struct ApiGatewayV2RouteProperties {
    pub(crate) api_id: Value,
    pub(crate) route_key: String,
    pub(crate) target: Option<Value>,
}

/// What a [`ApiGatewayV2RouteProperties`] holds.
pub struct ApiGatewayV2RoutePropertiesView {
    pub api_id: Value,
    pub route_key: String,
    pub target: Option<Value>,
}

impl View for ApiGatewayV2RouteProperties {
    type V = ApiGatewayV2RoutePropertiesView;

    open(crate) spec fn view(&self) -> ApiGatewayV2RoutePropertiesView {
        ApiGatewayV2RoutePropertiesView {
            api_id: self.api_id,
            route_key: self.route_key,
            target: self.target,
        }
    }
}

} // verus!
