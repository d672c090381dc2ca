//! Lambda: functions, their roles, permissions and event sources.
mod dto;
mod builder;
mod function;
mod template;

pub use dto::{Environment, EnvironmentView, EventSourceMapping, EventSourceMappingRef, EventSourceMappingView, EventSourceProperties, EventSourcePropertiesView, Function, FunctionRef, FunctionView, LambdaCode, LambdaCodeView, LambdaFunctionProperties, LambdaFunctionPropertiesView, LambdaPermissionProperties, LambdaPermissionPropertiesView, LoggingInfo, LoggingInfoView, Permission, PermissionRef, PermissionView, ScalingConfig, ScalingConfigView};
pub use builder::{Architecture, Code, PackageType, PermissionBuilder, PermissionBuilderView, Runtime, Zip, ZipView, architecture_name, architecture_names_are_distinct, package_type_name, permission_made_by, runtime_name};
pub use function::{CodeState, EventSourceMappingInfo, EventSourceMappingInfoView, EventSourceMappingState, FunctionBuilder, FunctionBuilderState, FunctionBuilderView, StartState, ZipStateWithHandler, ZipStateWithHandlerAndRuntime, basic_execution_role_arn, code_parts, collect_env, default_log_group_made, env_views, event_source_mapping_made, function_made_by, function_resources_added, function_role_made, is_asset_key};
