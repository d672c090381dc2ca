//! How the module's resources appear in a CloudFormation template.
use crate::cloudfront::{CacheBehavior, CachePolicy, CachePolicyConfig, CachePolicyProperties, CookiesConfig, CustomOriginConfig, DefaultCacheBehavior, Distribution, DistributionConfig, DistributionProperties, FailOverCriteria, HeadersConfig, Origin, OriginAccessControl, OriginAccessControlConfig, OriginControlProperties, OriginCustomHeader, OriginGroup, OriginGroupMember, OriginGroupMembers, OriginGroups, ParametersInCacheKeyAndForwardedToOrigin, QueryStringsConfig, S3OriginConfig, StatusCodes, ViewerCertificate, VpcOriginConfig};
use crate::json::{member, opt_member, push_json, push_opt_json, JsonView, ToJson, Value};
use vstd::prelude::*;

verus! {

impl ToJson for OriginAccessControl {
    open(crate) spec fn as_json(&self) -> JsonView {
        JsonView::Object(
            Seq::empty()
                + member("Type"@, &self.resource_type)
                + member("Properties"@, &self.properties),
        )
    }

    fn to_json(&self) -> (r: Value) {
        let mut members: Vec<(String, Value)> = Vec::new();
        push_json(&mut members, "Type", &self.resource_type);
        push_json(&mut members, "Properties", &self.properties);
        Value::Object(members)
    }
}

impl ToJson for OriginControlProperties {
    open(crate) spec fn as_json(&self) -> JsonView {
        JsonView::Object(Seq::empty() + member("OriginAccessControlConfig"@, &self.config))
    }

    fn to_json(&self) -> (r: Value) {
        let mut members: Vec<(String, Value)> = Vec::new();
        push_json(&mut members, "OriginAccessControlConfig", &self.config);
        Value::Object(members)
    }
}

impl ToJson for OriginAccessControlConfig {
    open(crate) spec fn as_json(&self) -> JsonView {
        JsonView::Object(
            Seq::empty()
                + member("Name"@, &self.name)
                + member("OriginAccessControlOriginType"@, &self.origin_access_control_type)
                + member("SigningBehavior"@, &self.signing_behavior)
                + member("SigningProtocol"@, &self.signing_protocol),
        )
    }

    fn to_json(&self) -> (r: Value) {
        let mut members: Vec<(String, Value)> = Vec::new();
        push_json(&mut members, "Name", &self.name);
        push_json(&mut members, "OriginAccessControlOriginType", &self.origin_access_control_type);
        push_json(&mut members, "SigningBehavior", &self.signing_behavior);
        push_json(&mut members, "SigningProtocol", &self.signing_protocol);
        Value::Object(members)
    }
}

impl ToJson for CachePolicy {
    open(crate) spec fn as_json(&self) -> JsonView {
        JsonView::Object(
            Seq::empty()
                + member("Type"@, &self.resource_type)
                + member("Properties"@, &self.properties),
        )
    }

    fn to_json(&self) -> (r: Value) {
        let mut members: Vec<(String, Value)> = Vec::new();
        push_json(&mut members, "Type", &self.resource_type);
        push_json(&mut members, "Properties", &self.properties);
        Value::Object(members)
    }
}

impl ToJson for CachePolicyProperties {
    open(crate) spec fn as_json(&self) -> JsonView {
        JsonView::Object(Seq::empty() + member("CachePolicyConfig"@, &self.config))
    }

    fn to_json(&self) -> (r: Value) {
        let mut members: Vec<(String, Value)> = Vec::new();
        push_json(&mut members, "CachePolicyConfig", &self.config);
        Value::Object(members)
    }
}

impl ToJson for CachePolicyConfig {
    open(crate) spec fn as_json(&self) -> JsonView {
        JsonView::Object(
            Seq::empty()
                + member("DefaultTTL"@, &self.default_ttl)
                + member("MinTTL"@, &self.min_ttl)
                + member("MaxTTL"@, &self.max_ttl)
                + member("Name"@, &self.name)
                + member("ParametersInCacheKeyAndForwardedToOrigin"@, &self.params_in_cache_key_and_forwarded),
        )
    }

    fn to_json(&self) -> (r: Value) {
        let mut members: Vec<(String, Value)> = Vec::new();
        push_json(&mut members, "DefaultTTL", &self.default_ttl);
        push_json(&mut members, "MinTTL", &self.min_ttl);
        push_json(&mut members, "MaxTTL", &self.max_ttl);
        push_json(&mut members, "Name", &self.name);
        push_json(&mut members, "ParametersInCacheKeyAndForwardedToOrigin", &self.params_in_cache_key_and_forwarded);
        Value::Object(members)
    }
}

impl ToJson for ParametersInCacheKeyAndForwardedToOrigin {
    open(crate) spec fn as_json(&self) -> JsonView {
        JsonView::Object(
            Seq::empty()
                + member("CookiesConfig"@, &self.cookies_config)
                + opt_member("EnableAcceptEncodingBrotli"@, &self.accept_encoding_brotli)
                + member("EnableAcceptEncodingGzip"@, &self.accept_encoding_gzip)
                + member("HeadersConfig"@, &self.headers_config)
                + member("QueryStringsConfig"@, &self.query_strings_config),
        )
    }

    fn to_json(&self) -> (r: Value) {
        let mut members: Vec<(String, Value)> = Vec::new();
        push_json(&mut members, "CookiesConfig", &self.cookies_config);
        push_opt_json(&mut members, "EnableAcceptEncodingBrotli", &self.accept_encoding_brotli);
        push_json(&mut members, "EnableAcceptEncodingGzip", &self.accept_encoding_gzip);
        push_json(&mut members, "HeadersConfig", &self.headers_config);
        push_json(&mut members, "QueryStringsConfig", &self.query_strings_config);
        Value::Object(members)
    }
}

impl ToJson for HeadersConfig {
    open(crate) spec fn as_json(&self) -> JsonView {
        JsonView::Object(
            Seq::empty()
                + member("HeaderBehavior"@, &self.headers_behavior)
                + opt_member("Headers"@, &self.headers),
        )
    }

    fn to_json(&self) -> (r: Value) {
        let mut members: Vec<(String, Value)> = Vec::new();
        push_json(&mut members, "HeaderBehavior", &self.headers_behavior);
        push_opt_json(&mut members, "Headers", &self.headers);
        Value::Object(members)
    }
}

impl ToJson for QueryStringsConfig {
    open(crate) spec fn as_json(&self) -> JsonView {
        JsonView::Object(
            Seq::empty()
                + member("QueryStringBehavior"@, &self.query_strings_behavior)
                + opt_member("QueryStrings"@, &self.query_strings),
        )
    }

    fn to_json(&self) -> (r: Value) {
        let mut members: Vec<(String, Value)> = Vec::new();
        push_json(&mut members, "QueryStringBehavior", &self.query_strings_behavior);
        push_opt_json(&mut members, "QueryStrings", &self.query_strings);
        Value::Object(members)
    }
}

impl ToJson for CookiesConfig {
    open(crate) spec fn as_json(&self) -> JsonView {
        JsonView::Object(
            Seq::empty()
                + member("CookieBehavior"@, &self.cookie_behavior)
                + opt_member("Cookies"@, &self.cookies),
        )
    }

    fn to_json(&self) -> (r: Value) {
        let mut members: Vec<(String, Value)> = Vec::new();
        push_json(&mut members, "CookieBehavior", &self.cookie_behavior);
        push_opt_json(&mut members, "Cookies", &self.cookies);
        Value::Object(members)
    }
}

impl ToJson for Distribution {
    open(crate) spec fn as_json(&self) -> JsonView {
        JsonView::Object(
            Seq::empty()
                + member("Type"@, &self.resource_type)
                + member("Properties"@, &self.properties),
        )
    }

    fn to_json(&self) -> (r: Value) {
        let mut members: Vec<(String, Value)> = Vec::new();
        push_json(&mut members, "Type", &self.resource_type);
        push_json(&mut members, "Properties", &self.properties);
        Value::Object(members)
    }
}

impl ToJson for DistributionProperties {
    open(crate) spec fn as_json(&self) -> JsonView {
        JsonView::Object(Seq::empty() + member("DistributionConfig"@, &self.config))
    }

    fn to_json(&self) -> (r: Value) {
        let mut members: Vec<(String, Value)> = Vec::new();
        push_json(&mut members, "DistributionConfig", &self.config);
        Value::Object(members)
    }
}

impl ToJson for DistributionConfig {
    open(crate) spec fn as_json(&self) -> JsonView {
        JsonView::Object(
            Seq::empty()
                + opt_member("Aliases"@, &self.aliases)
                + opt_member("CacheBehaviors"@, &self.cache_behaviors)
                + opt_member("CNAMEs"@, &self.cnames)
                + member("DefaultCacheBehavior"@, &self.default_cache_behavior)
                + member("DefaultRootObject"@, &self.default_root_object)
                + member("Enabled"@, &self.enabled)
                + opt_member("HttpVersion"@, &self.http_version)
                + opt_member("IPV6Enabled"@, &self.ipv6_enabled)
                + opt_member("OriginGroups"@, &self.origin_groups)
                + opt_member("Origins"@, &self.origins)
                + opt_member("PriceClass"@, &self.price_class)
                + opt_member("ViewerCertificate"@, &self.viewer_certificate),
        )
    }

    fn to_json(&self) -> (r: Value) {
        let mut members: Vec<(String, Value)> = Vec::new();
        push_opt_json(&mut members, "Aliases", &self.aliases);
        push_opt_json(&mut members, "CacheBehaviors", &self.cache_behaviors);
        push_opt_json(&mut members, "CNAMEs", &self.cnames);
        push_json(&mut members, "DefaultCacheBehavior", &self.default_cache_behavior);
        push_json(&mut members, "DefaultRootObject", &self.default_root_object);
        push_json(&mut members, "Enabled", &self.enabled);
        push_opt_json(&mut members, "HttpVersion", &self.http_version);
        push_opt_json(&mut members, "IPV6Enabled", &self.ipv6_enabled);
        push_opt_json(&mut members, "OriginGroups", &self.origin_groups);
        push_opt_json(&mut members, "Origins", &self.origins);
        push_opt_json(&mut members, "PriceClass", &self.price_class);
        push_opt_json(&mut members, "ViewerCertificate", &self.viewer_certificate);
        Value::Object(members)
    }
}

impl ToJson for ViewerCertificate {
    open(crate) spec fn as_json(&self) -> JsonView {
        JsonView::Object(
            Seq::empty()
                + opt_member("AcmCertificateArn"@, &self.acm_cert_arn)
                + opt_member("CloudFrontDefaultCertificate"@, &self.cloudfront_default_cert)
                + opt_member("IamCertificateId"@, &self.iam_cert_id)
                + opt_member("MinimumProtocolVersion"@, &self.min_protocol_version)
                + opt_member("SslSupportMethod"@, &self.ssl_support_method),
        )
    }

    fn to_json(&self) -> (r: Value) {
        let mut members: Vec<(String, Value)> = Vec::new();
        push_opt_json(&mut members, "AcmCertificateArn", &self.acm_cert_arn);
        push_opt_json(&mut members, "CloudFrontDefaultCertificate", &self.cloudfront_default_cert);
        push_opt_json(&mut members, "IamCertificateId", &self.iam_cert_id);
        push_opt_json(&mut members, "MinimumProtocolVersion", &self.min_protocol_version);
        push_opt_json(&mut members, "SslSupportMethod", &self.ssl_support_method);
        Value::Object(members)
    }
}

impl ToJson for OriginGroups {
    open(crate) spec fn as_json(&self) -> JsonView {
        JsonView::Object(
            Seq::empty()
                + member("Items"@, &self.items)
                + member("Quantity"@, &self.quantity),
        )
    }

    fn to_json(&self) -> (r: Value) {
        let mut members: Vec<(String, Value)> = Vec::new();
        push_json(&mut members, "Items", &self.items);
        push_json(&mut members, "Quantity", &self.quantity);
        Value::Object(members)
    }
}

impl ToJson for OriginGroup {
    open(crate) spec fn as_json(&self) -> JsonView {
        JsonView::Object(
            Seq::empty()
                + member("Id"@, &self.id)
                + member("FailoverCriteria"@, &self.fail_over_criteria)
                + member("Members"@, &self.members)
                + opt_member("SelectionCriteria"@, &self.selection_criteria),
        )
    }

    fn to_json(&self) -> (r: Value) {
        let mut members: Vec<(String, Value)> = Vec::new();
        push_json(&mut members, "Id", &self.id);
        push_json(&mut members, "FailoverCriteria", &self.fail_over_criteria);
        push_json(&mut members, "Members", &self.members);
        push_opt_json(&mut members, "SelectionCriteria", &self.selection_criteria);
        Value::Object(members)
    }
}

impl ToJson for OriginGroupMembers {
    open(crate) spec fn as_json(&self) -> JsonView {
        JsonView::Object(
            Seq::empty()
                + member("Items"@, &self.items)
                + member("Quantity"@, &self.quantity),
        )
    }

    fn to_json(&self) -> (r: Value) {
        let mut members: Vec<(String, Value)> = Vec::new();
        push_json(&mut members, "Items", &self.items);
        push_json(&mut members, "Quantity", &self.quantity);
        Value::Object(members)
    }
}

impl ToJson for OriginGroupMember {
    open(crate) spec fn as_json(&self) -> JsonView {
        JsonView::Object(Seq::empty() + member("OriginId"@, &self.origin_id))
    }

    fn to_json(&self) -> (r: Value) {
        let mut members: Vec<(String, Value)> = Vec::new();
        push_json(&mut members, "OriginId", &self.origin_id);
        Value::Object(members)
    }
}

impl ToJson for FailOverCriteria {
    open(crate) spec fn as_json(&self) -> JsonView {
        JsonView::Object(Seq::empty() + member("StatusCodes"@, &self.status_codes))
    }

    fn to_json(&self) -> (r: Value) {
        let mut members: Vec<(String, Value)> = Vec::new();
        push_json(&mut members, "StatusCodes", &self.status_codes);
        Value::Object(members)
    }
}

impl ToJson for StatusCodes {
    open(crate) spec fn as_json(&self) -> JsonView {
        JsonView::Object(
            Seq::empty()
                + member("Items"@, &self.items)
                + member("Quantity"@, &self.quantity),
        )
    }

    fn to_json(&self) -> (r: Value) {
        let mut members: Vec<(String, Value)> = Vec::new();
        push_json(&mut members, "Items", &self.items);
        push_json(&mut members, "Quantity", &self.quantity);
        Value::Object(members)
    }
}

impl ToJson for Origin {
    open(crate) spec fn as_json(&self) -> JsonView {
        JsonView::Object(
            Seq::empty()
                + member("Id"@, &self.id)
                + member("DomainName"@, &self.domain_name)
                + opt_member("ConnectionAttempts"@, &self.connection_attempts)
                + opt_member("ConnectionTimeout"@, &self.connection_timeout)
                + opt_member("OriginAccessControlId"@, &self.origin_access_control_id)
                + opt_member("OriginPath"@, &self.origin_path)
                + opt_member("ResponseCompletionTimeout"@, &self.response_completion_timeout)
                + opt_member("S3OriginConfig"@, &self.s3origin_config)
                + opt_member("OriginCustomHeaders"@, &self.origin_custom_headers)
                + opt_member("VpcOriginConfig"@, &self.vpc_origin_config)
                + opt_member("CustomOriginConfig"@, &self.custom_origin_config),
        )
    }

    fn to_json(&self) -> (r: Value) {
        let mut members: Vec<(String, Value)> = Vec::new();
        push_json(&mut members, "Id", &self.id);
        push_json(&mut members, "DomainName", &self.domain_name);
        push_opt_json(&mut members, "ConnectionAttempts", &self.connection_attempts);
        push_opt_json(&mut members, "ConnectionTimeout", &self.connection_timeout);
        push_opt_json(&mut members, "OriginAccessControlId", &self.origin_access_control_id);
        push_opt_json(&mut members, "OriginPath", &self.origin_path);
        push_opt_json(&mut members, "ResponseCompletionTimeout", &self.response_completion_timeout);
        push_opt_json(&mut members, "S3OriginConfig", &self.s3origin_config);
        push_opt_json(&mut members, "OriginCustomHeaders", &self.origin_custom_headers);
        push_opt_json(&mut members, "VpcOriginConfig", &self.vpc_origin_config);
        push_opt_json(&mut members, "CustomOriginConfig", &self.custom_origin_config);
        Value::Object(members)
    }
}

impl ToJson for OriginCustomHeader {
    open(crate) spec fn as_json(&self) -> JsonView {
        JsonView::Object(
            Seq::empty()
                + member("HeaderName"@, &self.header_name)
                + member("HeaderValue"@, &self.header_value),
        )
    }

    fn to_json(&self) -> (r: Value) {
        let mut members: Vec<(String, Value)> = Vec::new();
        push_json(&mut members, "HeaderName", &self.header_name);
        push_json(&mut members, "HeaderValue", &self.header_value);
        Value::Object(members)
    }
}

impl ToJson for VpcOriginConfig {
    open(crate) spec fn as_json(&self) -> JsonView {
        JsonView::Object(
            Seq::empty()
                + member("VpcOriginId"@, &self.vpc_origin_id)
                + opt_member("OriginKeepaliveTimeout"@, &self.origin_keep_alive_timeout)
                + opt_member("OriginReadTimeout"@, &self.origin_read_timeout)
                + opt_member("OwnerAccountId"@, &self.owner_account_id),
        )
    }

    fn to_json(&self) -> (r: Value) {
        let mut members: Vec<(String, Value)> = Vec::new();
        push_json(&mut members, "VpcOriginId", &self.vpc_origin_id);
        push_opt_json(&mut members, "OriginKeepaliveTimeout", &self.origin_keep_alive_timeout);
        push_opt_json(&mut members, "OriginReadTimeout", &self.origin_read_timeout);
        push_opt_json(&mut members, "OwnerAccountId", &self.owner_account_id);
        Value::Object(members)
    }
}

impl ToJson for CustomOriginConfig {
    open(crate) spec fn as_json(&self) -> JsonView {
        JsonView::Object(
            Seq::empty()
                + member("OriginProtocolPolicy"@, &self.origin_protocol_policy)
                + opt_member("HTTPPort"@, &self.http_port)
                + opt_member("HTTPSPort"@, &self.https_port)
                + opt_member("IpAddressType"@, &self.ip_address_type)
                + opt_member("OriginKeepaliveTimeout"@, &self.origin_keep_alive_timeout)
                + opt_member("OriginReadTimeout"@, &self.origin_read_timeout)
                + opt_member("OriginSSLProtocols"@, &self.origin_ssl_protocols),
        )
    }

    fn to_json(&self) -> (r: Value) {
        let mut members: Vec<(String, Value)> = Vec::new();
        push_json(&mut members, "OriginProtocolPolicy", &self.origin_protocol_policy);
        push_opt_json(&mut members, "HTTPPort", &self.http_port);
        push_opt_json(&mut members, "HTTPSPort", &self.https_port);
        push_opt_json(&mut members, "IpAddressType", &self.ip_address_type);
        push_opt_json(&mut members, "OriginKeepaliveTimeout", &self.origin_keep_alive_timeout);
        push_opt_json(&mut members, "OriginReadTimeout", &self.origin_read_timeout);
        push_opt_json(&mut members, "OriginSSLProtocols", &self.origin_ssl_protocols);
        Value::Object(members)
    }
}

impl ToJson for S3OriginConfig {
    open(crate) spec fn as_json(&self) -> JsonView {
        JsonView::Object(Seq::empty() + opt_member("OriginReadTimeout"@, &self.origin_read_timeout))
    }

    fn to_json(&self) -> (r: Value) {
        let mut members: Vec<(String, Value)> = Vec::new();
        push_opt_json(&mut members, "OriginReadTimeout", &self.origin_read_timeout);
        Value::Object(members)
    }
}

impl ToJson for DefaultCacheBehavior {
    open(crate) spec fn as_json(&self) -> JsonView {
        JsonView::Object(
            Seq::empty()
                + member("TargetOriginId"@, &self.target_origin_id)
                + member("CachePolicyId"@, &self.cache_policy_id)
                + member("ViewerProtocolPolicy"@, &self.viewer_protocol_policy)
                + opt_member("AllowedMethods"@, &self.allowed_methods)
                + opt_member("CachedMethods"@, &self.cached_methods)
                + opt_member("Compress"@, &self.compress),
        )
    }

    fn to_json(&self) -> (r: Value) {
        let mut members: Vec<(String, Value)> = Vec::new();
        push_json(&mut members, "TargetOriginId", &self.target_origin_id);
        push_json(&mut members, "CachePolicyId", &self.cache_policy_id);
        push_json(&mut members, "ViewerProtocolPolicy", &self.viewer_protocol_policy);
        push_opt_json(&mut members, "AllowedMethods", &self.allowed_methods);
        push_opt_json(&mut members, "CachedMethods", &self.cached_methods);
        push_opt_json(&mut members, "Compress", &self.compress);
        Value::Object(members)
    }
}

impl ToJson for CacheBehavior {
    open(crate) spec fn as_json(&self) -> JsonView {
        JsonView::Object(
            Seq::empty()
                + member("PathPattern"@, &self.path_pattern)
                + member("TargetOriginId"@, &self.target_origin_id)
                + member("CachePolicyId"@, &self.cache_policy_id)
                + member("ViewerProtocolPolicy"@, &self.viewer_protocol_policy)
                + opt_member("AllowedMethods"@, &self.allowed_methods)
                + opt_member("CachedMethods"@, &self.cached_methods)
                + opt_member("Compress"@, &self.compress)
                + opt_member("TrustedKeyGroups"@, &self.trusted_key_groups),
        )
    }

    fn to_json(&self) -> (r: Value) {
        let mut members: Vec<(String, Value)> = Vec::new();
        push_json(&mut members, "PathPattern", &self.path_pattern);
        push_json(&mut members, "TargetOriginId", &self.target_origin_id);
        push_json(&mut members, "CachePolicyId", &self.cache_policy_id);
        push_json(&mut members, "ViewerProtocolPolicy", &self.viewer_protocol_policy);
        push_opt_json(&mut members, "AllowedMethods", &self.allowed_methods);
        push_opt_json(&mut members, "CachedMethods", &self.cached_methods);
        push_opt_json(&mut members, "Compress", &self.compress);
        push_opt_json(&mut members, "TrustedKeyGroups", &self.trusted_key_groups);
        Value::Object(members)
    }
}

} // verus!
