//! How the module's resources appear in a CloudFormation template.
use crate::appsync::{AppSyncApi, AppSyncApiProperties, AppSyncAuthMode, AuthProvider, ChannelNamespace, ChannelNamespaceProperties, CognitoConfig, EventConfig, EventLogConfig, LambdaAuthorizerConfig, OpenIDConnectConfig};
use crate::json::{member, opt_member, push_json, push_opt_json, JsonView, ToJson, Value};
use vstd::prelude::*;

verus! {

impl ToJson for AppSyncApi {
    open(crate) spec fn as_json(&self) -> JsonView {
        JsonView::Object(
            Seq::empty()
                + member("Type"@, &self.resource_type)
                + member("Properties"@, &self.properties),
        )
    }

    fn to_json(&self) -> (r: Value) {
        let mut members: Vec<(String, Value)> = Vec::new();
        push_json(&mut members, "Type", &self.resource_type);
        push_json(&mut members, "Properties", &self.properties);
        Value::Object(members)
    }
}

impl ToJson for AppSyncApiProperties {
    open(crate) spec fn as_json(&self) -> JsonView {
        JsonView::Object(
            Seq::empty()
                + member("Name"@, &self.name)
                + opt_member("EventConfig"@, &self.event_config),
        )
    }

    fn to_json(&self) -> (r: Value) {
        let mut members: Vec<(String, Value)> = Vec::new();
        push_json(&mut members, "Name", &self.name);
        push_opt_json(&mut members, "EventConfig", &self.event_config);
        Value::Object(members)
    }
}

impl ToJson for EventConfig {
    open(crate) spec fn as_json(&self) -> JsonView {
        JsonView::Object(
            Seq::empty()
                + member("AuthProviders"@, &self.auth_providers)
                + member("ConnectionAuthModes"@, &self.connection_auth_modes)
                + member("DefaultPublishAuthModes"@, &self.default_auth_modes)
                + member("DefaultSubscribeAuthModes"@, &self.default_subscribe_auth_modes)
                + opt_member("LogConfig"@, &self.log_config),
        )
    }

    fn to_json(&self) -> (r: Value) {
        let mut members: Vec<(String, Value)> = Vec::new();
        push_json(&mut members, "AuthProviders", &self.auth_providers);
        push_json(&mut members, "ConnectionAuthModes", &self.connection_auth_modes);
        push_json(&mut members, "DefaultPublishAuthModes", &self.default_auth_modes);
        push_json(&mut members, "DefaultSubscribeAuthModes", &self.default_subscribe_auth_modes);
        push_opt_json(&mut members, "LogConfig", &self.log_config);
        Value::Object(members)
    }
}

impl ToJson for AuthProvider {
    open(crate) spec fn as_json(&self) -> JsonView {
        JsonView::Object(
            Seq::empty()
                + member("AuthType"@, &self.auth_type)
                + opt_member("CognitoConfig"@, &self.cognito_config)
                + opt_member("LambdaAuthorizerConfig"@, &self.lambda_auth_config)
                + opt_member("OpenIDConnectConfig"@, &self.open_id_connect_config),
        )
    }

    fn to_json(&self) -> (r: Value) {
        let mut members: Vec<(String, Value)> = Vec::new();
        push_json(&mut members, "AuthType", &self.auth_type);
        push_opt_json(&mut members, "CognitoConfig", &self.cognito_config);
        push_opt_json(&mut members, "LambdaAuthorizerConfig", &self.lambda_auth_config);
        push_opt_json(&mut members, "OpenIDConnectConfig", &self.open_id_connect_config);
        Value::Object(members)
    }
}

impl ToJson for CognitoConfig {
    open(crate) spec fn as_json(&self) -> JsonView {
        JsonView::Object(
            Seq::empty()
                + member("AwsRegion"@, &self.aws_region)
                + member("UserPoolId"@, &self.user_pool_id),
        )
    }

    fn to_json(&self) -> (r: Value) {
        let mut members: Vec<(String, Value)> = Vec::new();
        push_json(&mut members, "AwsRegion", &self.aws_region);
        push_json(&mut members, "UserPoolId", &self.user_pool_id);
        Value::Object(members)
    }
}

impl ToJson for LambdaAuthorizerConfig {
    open(crate) spec fn as_json(&self) -> JsonView {
        JsonView::Object(
            Seq::empty()
                + opt_member("AuthorizerResultTtlInSeconds"@, &self.authorizer_result_ttl_seconds)
                + member("AuthorizerUri"@, &self.authorizer_uri),
        )
    }

    fn to_json(&self) -> (r: Value) {
        let mut members: Vec<(String, Value)> = Vec::new();
        push_opt_json(&mut members, "AuthorizerResultTtlInSeconds", &self.authorizer_result_ttl_seconds);
        push_json(&mut members, "AuthorizerUri", &self.authorizer_uri);
        Value::Object(members)
    }
}

impl ToJson for OpenIDConnectConfig {
    open(crate) spec fn as_json(&self) -> JsonView {
        JsonView::Object(
            Seq::empty()
                + opt_member("AuthTTL"@, &self.auth_ttl_millis)
                + opt_member("ClientId"@, &self.client_id)
                + opt_member("IatTTL"@, &self.iat_ttl_millis)
                + member("Issuer"@, &self.issuer),
        )
    }

    fn to_json(&self) -> (r: Value) {
        let mut members: Vec<(String, Value)> = Vec::new();
        push_opt_json(&mut members, "AuthTTL", &self.auth_ttl_millis);
        push_opt_json(&mut members, "ClientId", &self.client_id);
        push_opt_json(&mut members, "IatTTL", &self.iat_ttl_millis);
        push_json(&mut members, "Issuer", &self.issuer);
        Value::Object(members)
    }
}

impl ToJson for AppSyncAuthMode {
    open(crate) spec fn as_json(&self) -> JsonView {
        JsonView::Object(Seq::empty() + opt_member("AuthType"@, &self.auth_type))
    }

    fn to_json(&self) -> (r: Value) {
        let mut members: Vec<(String, Value)> = Vec::new();
        push_opt_json(&mut members, "AuthType", &self.auth_type);
        Value::Object(members)
    }
}

impl ToJson for EventLogConfig {
    open(crate) spec fn as_json(&self) -> JsonView {
        JsonView::Object(
            Seq::empty()
                + member("CloudWatchLogsRoleArn"@, &self.cloudwatch_logs_role_arn)
                + member("LogLevel"@, &self.log_level),
        )
    }

    fn to_json(&self) -> (r: Value) {
        let mut members: Vec<(String, Value)> = Vec::new();
        push_json(&mut members, "CloudWatchLogsRoleArn", &self.cloudwatch_logs_role_arn);
        push_json(&mut members, "LogLevel", &self.log_level);
        Value::Object(members)
    }
}

impl ToJson for ChannelNamespace {
    open(crate) spec fn as_json(&self) -> JsonView {
        JsonView::Object(
            Seq::empty()
                + member("Type"@, &self.resource_type)
                + member("Properties"@, &self.properties),
        )
    }

    fn to_json(&self) -> (r: Value) {
        let mut members: Vec<(String, Value)> = Vec::new();
        push_json(&mut members, "Type", &self.resource_type);
        push_json(&mut members, "Properties", &self.properties);
        Value::Object(members)
    }
}

impl ToJson for ChannelNamespaceProperties {
    open(crate) spec fn as_json(&self) -> JsonView {
        JsonView::Object(
            Seq::empty()
                + member("ApiId"@, &self.api_id)
                + member("Name"@, &self.name)
                + opt_member("PublishAuthModes"@, &self.publish_auth_modes)
                + opt_member("SubscribeAuthModes"@, &self.subscribe_auth_modes),
        )
    }

    fn to_json(&self) -> (r: Value) {
        let mut members: Vec<(String, Value)> = Vec::new();
        push_json(&mut members, "ApiId", &self.api_id);
        push_json(&mut members, "Name", &self.name);
        push_opt_json(&mut members, "PublishAuthModes", &self.publish_auth_modes);
        push_opt_json(&mut members, "SubscribeAuthModes", &self.subscribe_auth_modes);
        Value::Object(members)
    }
}

} // verus!
