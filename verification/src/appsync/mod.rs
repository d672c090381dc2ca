//! AppSync: event APIs and their channel namespaces.
mod dto;
mod builder;
mod template;

pub use dto::{AppSyncApi, AppSyncApiProperties, AppSyncApiPropertiesView, AppSyncApiRef, AppSyncApiView, AppSyncAuthMode, AppSyncAuthModeView, AuthProvider, AuthProviderView, ChannelNamespace, ChannelNamespaceProperties, ChannelNamespacePropertiesView, ChannelNamespaceRef, ChannelNamespaceView, CognitoConfig, CognitoConfigView, EventConfig, EventConfigView, EventLogConfig, EventLogConfigView, LambdaAuthorizerConfig, LambdaAuthorizerConfigView, OpenIDConnectConfig, OpenIDConnectConfigView};
pub use builder::{AppSyncApiBuilder, AppSyncApiBuilderView, AppSyncApiLogLevel, AuthMode, AuthProviderBuilder, AuthType, ChannelNamespaceBuilder, ChannelNamespaceBuilderView, EventConfigBuilder, EventLogConfigBuilder, auth_mode_name, auth_mode_names, auth_mode_types, auth_provider_of, log_level_name};
