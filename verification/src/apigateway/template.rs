//! How the module's resources appear in a CloudFormation template.
use crate::apigateway::{ApiGatewayV2Api, ApiGatewayV2ApiProperties, ApiGatewayV2Integration, ApiGatewayV2IntegrationProperties, ApiGatewayV2Route, ApiGatewayV2RouteProperties, ApiGatewayV2Stage, ApiGatewayV2StageProperties, CorsConfiguration};
use crate::json::{member, opt_member, push_json, push_opt_json, JsonView, ToJson, Value};
use vstd::prelude::*;

verus! {

impl ToJson for ApiGatewayV2Api {
    open(crate) spec fn as_json(&self) -> JsonView {
        JsonView::Object(
            Seq::empty()
                + member("Type"@, &self.resource_type)
                + member("Properties"@, &self.properties),
        )
    }

    fn to_json(&self) -> (r: Value) {
        let mut members: Vec<(String, Value)> = Vec::new();
        push_json(&mut members, "Type", &self.resource_type);
        push_json(&mut members, "Properties", &self.properties);
        Value::Object(members)
    }
}

impl ToJson for ApiGatewayV2ApiProperties {
    open(crate) spec fn as_json(&self) -> JsonView {
        JsonView::Object(
            Seq::empty()
                + opt_member("Name"@, &self.name)
                + member("ProtocolType"@, &self.protocol_type)
                + opt_member("DisableExecuteApiEndpoint"@, &self.disable_execute_api_endpoint)
                + opt_member("CorsConfiguration"@, &self.cors_configuration),
        )
    }

    fn to_json(&self) -> (r: Value) {
        let mut members: Vec<(String, Value)> = Vec::new();
        push_opt_json(&mut members, "Name", &self.name);
        push_json(&mut members, "ProtocolType", &self.protocol_type);
        push_opt_json(&mut members, "DisableExecuteApiEndpoint", &self.disable_execute_api_endpoint);
        push_opt_json(&mut members, "CorsConfiguration", &self.cors_configuration);
        Value::Object(members)
    }
}

impl ToJson for CorsConfiguration {
    open(crate) spec fn as_json(&self) -> JsonView {
        JsonView::Object(
            Seq::empty()
                + opt_member("AllowCredentials"@, &self.allow_credentials)
                + opt_member("AllowHeaders"@, &self.allow_headers)
                + opt_member("AllowMethods"@, &self.allow_methods)
                + opt_member("AllowOrigins"@, &self.allow_origins)
                + opt_member("ExposeHeaders"@, &self.expose_headers)
                + opt_member("MaxAge"@, &self.max_age),
        )
    }

    fn to_json(&self) -> (r: Value) {
        let mut members: Vec<(String, Value)> = Vec::new();
        push_opt_json(&mut members, "AllowCredentials", &self.allow_credentials);
        push_opt_json(&mut members, "AllowHeaders", &self.allow_headers);
        push_opt_json(&mut members, "AllowMethods", &self.allow_methods);
        push_opt_json(&mut members, "AllowOrigins", &self.allow_origins);
        push_opt_json(&mut members, "ExposeHeaders", &self.expose_headers);
        push_opt_json(&mut members, "MaxAge", &self.max_age);
        Value::Object(members)
    }
}

impl ToJson for ApiGatewayV2Stage {
    open(crate) spec fn as_json(&self) -> JsonView {
        JsonView::Object(
            Seq::empty()
                + member("Type"@, &self.resource_type)
                + member("Properties"@, &self.properties),
        )
    }

    fn to_json(&self) -> (r: Value) {
        let mut members: Vec<(String, Value)> = Vec::new();
        push_json(&mut members, "Type", &self.resource_type);
        push_json(&mut members, "Properties", &self.properties);
        Value::Object(members)
    }
}

impl ToJson for ApiGatewayV2StageProperties {
    open(crate) spec fn as_json(&self) -> JsonView {
        JsonView::Object(
            Seq::empty()
                + member("ApiId"@, &self.api_id)
                + member("StageName"@, &self.stage_name)
                + member("AutoDeploy"@, &self.auto_deploy)
                + opt_member("RouteSettings"@, &self.route_settings),
        )
    }

    fn to_json(&self) -> (r: Value) {
        let mut members: Vec<(String, Value)> = Vec::new();
        push_json(&mut members, "ApiId", &self.api_id);
        push_json(&mut members, "StageName", &self.stage_name);
        push_json(&mut members, "AutoDeploy", &self.auto_deploy);
        push_opt_json(&mut members, "RouteSettings", &self.route_settings);
        Value::Object(members)
    }
}

impl ToJson for ApiGatewayV2Integration {
    open(crate) spec fn as_json(&self) -> JsonView {
        JsonView::Object(
            Seq::empty()
                + member("Type"@, &self.resource_type)
                + member("Properties"@, &self.properties),
        )
    }

    fn to_json(&self) -> (r: Value) {
        let mut members: Vec<(String, Value)> = Vec::new();
        push_json(&mut members, "Type", &self.resource_type);
        push_json(&mut members, "Properties", &self.properties);
        Value::Object(members)
    }
}

impl ToJson for ApiGatewayV2IntegrationProperties {
    open(crate) spec fn as_json(&self) -> JsonView {
        JsonView::Object(
            Seq::empty()
                + member("ApiId"@, &self.api_id)
                + member("IntegrationType"@, &self.integration_type)
                + opt_member("CredentialsArn"@, &self.integration_method)
                + opt_member("IntegrationUri"@, &self.integration_uri)
                + opt_member("PassthroughBehavior"@, &self.passthrough_behavior)
                + opt_member("PayloadFormatVersion"@, &self.payload_format_version)
                + opt_member("RequestParameters"@, &self.request_parameters)
                + opt_member("RequestTemplates"@, &self.request_templates)
                + opt_member("ResponseParameters"@, &self.response_parameters)
                + opt_member("TimeoutInMillis"@, &self.timeout_in_millis),
        )
    }

    fn to_json(&self) -> (r: Value) {
        let mut members: Vec<(String, Value)> = Vec::new();
        push_json(&mut members, "ApiId", &self.api_id);
        push_json(&mut members, "IntegrationType", &self.integration_type);
        push_opt_json(&mut members, "CredentialsArn", &self.integration_method);
        push_opt_json(&mut members, "IntegrationUri", &self.integration_uri);
        push_opt_json(&mut members, "PassthroughBehavior", &self.passthrough_behavior);
        push_opt_json(&mut members, "PayloadFormatVersion", &self.payload_format_version);
        push_opt_json(&mut members, "RequestParameters", &self.request_parameters);
        push_opt_json(&mut members, "RequestTemplates", &self.request_templates);
        push_opt_json(&mut members, "ResponseParameters", &self.response_parameters);
        push_opt_json(&mut members, "TimeoutInMillis", &self.timeout_in_millis);
        Value::Object(members)
    }
}

impl ToJson for ApiGatewayV2Route {
    open(crate) spec fn as_json(&self) -> JsonView {
        JsonView::Object(
            Seq::empty()
                + member("Type"@, &self.resource_type)
                + member("Properties"@, &self.properties),
        )
    }

    fn to_json(&self) -> (r: Value) {
        let mut members: Vec<(String, Value)> = Vec::new();
        push_json(&mut members, "Type", &self.resource_type);
        push_json(&mut members, "Properties", &self.properties);
        Value::Object(members)
    }
}

impl ToJson for ApiGatewayV2RouteProperties {
    open(crate) spec fn as_json(&self) -> JsonView {
        JsonView::Object(
            Seq::empty()
                + member("ApiId"@, &self.api_id)
                + member("RouteKey"@, &self.route_key)
                + opt_member("Target"@, &self.target),
        )
    }

    fn to_json(&self) -> (r: Value) {
        let mut members: Vec<(String, Value)> = Vec::new();
        push_json(&mut members, "ApiId", &self.api_id);
        push_json(&mut members, "RouteKey", &self.route_key);
        push_opt_json(&mut members, "Target", &self.target);
        Value::Object(members)
    }
}

} // verus!
