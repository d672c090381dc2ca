//! API Gateway V2: HTTP APIs that route requests to Lambda functions.
mod dto;
mod builder;
mod template;

pub use dto::{ApiGatewayV2Api, ApiGatewayV2ApiProperties, ApiGatewayV2ApiPropertiesView, ApiGatewayV2ApiRef, ApiGatewayV2ApiView, ApiGatewayV2Integration, ApiGatewayV2IntegrationProperties, ApiGatewayV2IntegrationPropertiesView, ApiGatewayV2IntegrationRef, ApiGatewayV2IntegrationView, ApiGatewayV2Route, ApiGatewayV2RouteProperties, ApiGatewayV2RoutePropertiesView, ApiGatewayV2RouteRef, ApiGatewayV2RouteView, ApiGatewayV2Stage, ApiGatewayV2StageProperties, ApiGatewayV2StagePropertiesView, ApiGatewayV2StageRef, ApiGatewayV2StageView, CorsConfiguration, CorsConfigurationView};
pub use builder::{ApiGatewayV2Builder, ApiGatewayV2BuilderView, CorsConfigurationBuilder, RouteInfo, RouteInfoView, api_resources_added, execute_api_arn, method_names, route_key_of, route_path, route_resources_at, route_views};
