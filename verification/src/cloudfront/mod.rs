//! CloudFront distributions, their origins, cache policies and origin access controls.
mod dto;
mod builder;
mod template;

pub use dto::{CacheBehavior, CacheBehaviorView, CachePolicy, CachePolicyConfig, CachePolicyConfigView, CachePolicyProperties, CachePolicyPropertiesView, CachePolicyRef, CachePolicyView, CookiesConfig, CookiesConfigView, CustomOriginConfig, CustomOriginConfigView, DefaultCacheBehavior, DefaultCacheBehaviorView, Distribution, DistributionConfig, DistributionConfigView, DistributionProperties, DistributionPropertiesView, DistributionRef, DistributionView, FailOverCriteria, FailOverCriteriaView, HeadersConfig, HeadersConfigView, Origin, OriginAccessControl, OriginAccessControlConfig, OriginAccessControlConfigView, OriginAccessControlRef, OriginAccessControlView, OriginControlProperties, OriginControlPropertiesView, OriginCustomHeader, OriginCustomHeaderView, OriginGroup, OriginGroupMember, OriginGroupMemberView, OriginGroupMembers, OriginGroupMembersView, OriginGroupView, OriginGroups, OriginGroupsView, OriginView, ParametersInCacheKeyAndForwardedToOrigin, ParametersInCacheKeyAndForwardedToOriginView, QueryStringsConfig, QueryStringsConfigView, S3OriginConfig, S3OriginConfigView, StatusCodes, StatusCodesView, ViewerCertificate, ViewerCertificateView, VpcOriginConfig, VpcOriginConfigView};
pub use builder::{CachePolicyBuilder, CachePolicyBuilderView, Cookies, DefaultCacheAllowedMethods, DefaultCacheBehaviorBuilder, DefaultCacheCachedMethods, DistributionBuilder, DistributionBuilderView, DistributionOriginState, DistributionStartState, DistributionState, Headers, HttpVersion, IpAddressType, MinProtocolVersion, OriginAccessControlBuilder, OriginAccessControlBuilderView, OriginAccessControlType, OriginBuilder, OriginBuilderView, OriginCustomOriginState, OriginProtocolPolicy, OriginS3OriginState, OriginStartState, OriginState, ParametersInCacheKeyAndForwardedToOriginBuilder, PriceClass, QueryString, SigningBehavior, SigningProtocol, SslSupportedMethod, ViewerCertificateBuilder, ViewerCertificateState, ViewerCertificateStateAcmOrIamState, ViewerCertificateStateEndState, ViewerCertificateStateStartState, ViewerProtocolPolicy, allowed_method_names, cached_method_names, carried_policies, cookies_config_for, custom_config, distribution_built, distribution_made, headers_config_for, http_version_name, ip_address_type_name, method_name_views, min_protocol_version_name, origin_access_control_type_name, origin_of, origin_policy_made, origin_protocol_policy_name, origins_stripped, policies_conditioned, policy_conditioned, price_class_name, query_strings_config_for, signing_behavior_name, signing_protocol_name, source_arn_condition_json, ssl_supported_method_name, statements_conditioned, viewer_protocol_policy_name};
