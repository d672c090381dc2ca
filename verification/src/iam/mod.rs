//! IAM: roles, policies and the statements they are made of.
mod builder;
mod dto;
mod template;
mod permission_mapper;

pub use builder::{AssumeRolePolicyDocumentBuilder, ChosenState, CustomPermission, CustomPermissionView, Effect, Permission, PolicyBuilder, PolicyBuilderView, PolicyDocumentBuilder, PrincipalBuilder, PrincipalBuilderView, PrincipalState, RoleBuilder, RoleBuilderView, RolePropertiesBuilder, RolePropertiesBuilderView, StartState, StatementBuilder, StatementBuilderView, StatementStartState, StatementState, action_names, appconfig_configuration_arn, appconfig_read_actions, dynamodb_read_actions, dynamodb_read_write_actions, effect_name, is_allow_policy, permission_policies_allow_their_actions, permission_policy, policy_allows, policy_version, principal_made_by, s3_read_write_actions, secrets_manager_read_actions, sqs_read_actions, statement_allows, statements_pointed_at};
pub(crate) use builder::point_statements_at;
pub use dto::{AWSPrincipal, AWSPrincipalView, AssumeRolePolicyDocument, AssumeRolePolicyDocumentView, IamRoleProperties, IamRolePropertiesView, Policy, PolicyDocument, PolicyDocumentView, PolicyView, Principal, Role, RoleRef, RoleView, ServicePrincipal, ServicePrincipalView, Statement, StatementView};
pub use permission_mapper::{AWS_SERVICES_LIST, action_service, allowed_action_grants_its_service, after_dependencies_header, aws_service_names, dependency_service, find_missing_services, granted_services_come_from_allowed_actions, map_string_of_tom_dependencies_to_aws_services, missing_services, missing_services_are_the_ungranted_ones, names_service, policies_services, sdk_services, statement_services, statements_services, toml_services, up_to_next_section};
