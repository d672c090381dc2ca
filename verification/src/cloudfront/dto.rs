use crate::json::Value;
use crate::shared::{arn_json, clone_opt, opt_view, ref_json, Id, RefView, RefWithIdView};
use crate::intrinsic::{get_arn, get_att, get_att_json, get_ref, string_value};
use crate::s3::BucketPolicy;
use vstd::prelude::*;

verus! {

/// A reference to a resource, which other resources use to depend on it.
pub struct OriginAccessControlRef {
    pub(crate) resource_id: String,
    pub(crate) ref_name: Option<String>,
    pub(crate) arn_value: Option<String>,
}

impl View for OriginAccessControlRef {
    type V = RefView;

    open(crate) spec fn view(&self) -> RefView {
        RefView {
            resource_id: self.resource_id@,
            ref_name: opt_view(self.ref_name),
            arn_value: opt_view(self.arn_value),
        }
    }
}

impl OriginAccessControlRef {
    pub(crate) fn internal_new(resource_id: String) -> (r: Self)
        ensures
            r@ == (RefView { resource_id: resource_id@, ref_name: None, arn_value: None }),
    {
        Self { resource_id, ref_name: None, arn_value: None }
    }

    /// A reference to a resource that exists outside the stack.
    pub fn new(resource_id: &str, ref_name: &str, arn_value: &str) -> (r: Self)
        ensures
            r@ == (RefView { resource_id: resource_id@, ref_name: Some(ref_name@), arn_value: Some(arn_value@) }),
    {
        Self {
            resource_id: String::from_str(resource_id),
            ref_name: Some(String::from_str(ref_name)),
            arn_value: Some(String::from_str(arn_value)),
        }
    }

    pub(crate) fn get_resource_id(&self) -> (r: &str)
        ensures
            r@ == self@.resource_id,
    {
        self.resource_id.as_str()
    }

    /// What `Ref` gives for the resource: the name it was imported with, or the intrinsic function.
    pub fn get_ref(&self) -> (r: Value)
        ensures
            r@ == ref_json(self@.resource_id, self@.ref_name),
    {
        match &self.ref_name {
            Some(val) => string_value(val.as_str()),
            None => get_ref(self.resource_id.as_str()),
        }
    }

    /// The ARN of the resource: the one it was imported with, or the intrinsic function.
    pub fn get_arn(&self) -> (r: Value)
        ensures
            r@ == arn_json(self@.resource_id, self@.arn_value),
    {
        match &self.arn_value {
            Some(val) => string_value(val.as_str()),
            None => get_arn(self.resource_id.as_str()),
        }
    }

    /// An attribute of the resource; not available for an imported resource.
    pub fn get_att(&self, id: &str) -> (r: Value)
        requires
            !(self@.ref_name is Some && self@.arn_value is Some),
        ensures
            r@ == get_att_json(self@.resource_id, id@),
    {
        get_att(self.resource_id.as_str(), id)
    }
}

impl Clone for OriginAccessControlRef {
    fn clone(&self) -> (r: Self)
        ensures
            r@ == self@,
    {
        Self {
            resource_id: self.resource_id.clone(),
            ref_name: clone_opt(&self.ref_name),
            arn_value: clone_opt(&self.arn_value),
        }
    }
}

/// A reference to a resource, which other resources use to depend on it.
pub struct CachePolicyRef {
    pub(crate) resource_id: String,
    pub(crate) ref_name: Option<String>,
    pub(crate) arn_value: Option<String>,
}

impl View for CachePolicyRef {
    type V = RefView;

    open(crate) spec fn view(&self) -> RefView {
        RefView {
            resource_id: self.resource_id@,
            ref_name: opt_view(self.ref_name),
            arn_value: opt_view(self.arn_value),
        }
    }
}

impl CachePolicyRef {
    pub(crate) fn internal_new(resource_id: String) -> (r: Self)
        ensures
            r@ == (RefView { resource_id: resource_id@, ref_name: None, arn_value: None }),
    {
        Self { resource_id, ref_name: None, arn_value: None }
    }

    /// A reference to a resource that exists outside the stack.
    pub fn new(resource_id: &str, ref_name: &str, arn_value: &str) -> (r: Self)
        ensures
            r@ == (RefView { resource_id: resource_id@, ref_name: Some(ref_name@), arn_value: Some(arn_value@) }),
    {
        Self {
            resource_id: String::from_str(resource_id),
            ref_name: Some(String::from_str(ref_name)),
            arn_value: Some(String::from_str(arn_value)),
        }
    }

    pub(crate) fn get_resource_id(&self) -> (r: &str)
        ensures
            r@ == self@.resource_id,
    {
        self.resource_id.as_str()
    }

    /// What `Ref` gives for the resource: the name it was imported with, or the intrinsic function.
    pub fn get_ref(&self) -> (r: Value)
        ensures
            r@ == ref_json(self@.resource_id, self@.ref_name),
    {
        match &self.ref_name {
            Some(val) => string_value(val.as_str()),
            None => get_ref(self.resource_id.as_str()),
        }
    }

    /// The ARN of the resource: the one it was imported with, or the intrinsic function.
    pub fn get_arn(&self) -> (r: Value)
        ensures
            r@ == arn_json(self@.resource_id, self@.arn_value),
    {
        match &self.arn_value {
            Some(val) => string_value(val.as_str()),
            None => get_arn(self.resource_id.as_str()),
        }
    }

    /// An attribute of the resource; not available for an imported resource.
    pub fn get_att(&self, id: &str) -> (r: Value)
        requires
            !(self@.ref_name is Some && self@.arn_value is Some),
        ensures
            r@ == get_att_json(self@.resource_id, id@),
    {
        get_att(self.resource_id.as_str(), id)
    }
}

impl Clone for CachePolicyRef {
    fn clone(&self) -> (r: Self)
        ensures
            r@ == self@,
    {
        Self {
            resource_id: self.resource_id.clone(),
            ref_name: clone_opt(&self.ref_name),
            arn_value: clone_opt(&self.arn_value),
        }
    }
}

/// A reference to a resource, which other resources use to depend on it.
pub struct DistributionRef {
    pub(crate) resource_id: String,
    pub(crate) ref_name: Option<String>,
    pub(crate) arn_value: Option<String>,
}

impl View for DistributionRef {
    type V = RefView;

    open(crate) spec fn view(&self) -> RefView {
        RefView {
            resource_id: self.resource_id@,
            ref_name: opt_view(self.ref_name),
            arn_value: opt_view(self.arn_value),
        }
    }
}

impl DistributionRef {
    pub(crate) fn internal_new(resource_id: String) -> (r: Self)
        ensures
            r@ == (RefView { resource_id: resource_id@, ref_name: None, arn_value: None }),
    {
        Self { resource_id, ref_name: None, arn_value: None }
    }

    /// A reference to a resource that exists outside the stack.
    pub fn new(resource_id: &str, ref_name: &str, arn_value: &str) -> (r: Self)
        ensures
            r@ == (RefView { resource_id: resource_id@, ref_name: Some(ref_name@), arn_value: Some(arn_value@) }),
    {
        Self {
            resource_id: String::from_str(resource_id),
            ref_name: Some(String::from_str(ref_name)),
            arn_value: Some(String::from_str(arn_value)),
        }
    }

    pub(crate) fn get_resource_id(&self) -> (r: &str)
        ensures
            r@ == self@.resource_id,
    {
        self.resource_id.as_str()
    }

    /// What `Ref` gives for the resource: the name it was imported with, or the intrinsic function.
    pub fn get_ref(&self) -> (r: Value)
        ensures
            r@ == ref_json(self@.resource_id, self@.ref_name),
    {
        match &self.ref_name {
            Some(val) => string_value(val.as_str()),
            None => get_ref(self.resource_id.as_str()),
        }
    }

    /// The ARN of the resource: the one it was imported with, or the intrinsic function.
    pub fn get_arn(&self) -> (r: Value)
        ensures
            r@ == arn_json(self@.resource_id, self@.arn_value),
    {
        match &self.arn_value {
            Some(val) => string_value(val.as_str()),
            None => get_arn(self.resource_id.as_str()),
        }
    }

    /// An attribute of the resource; not available for an imported resource.
    pub fn get_att(&self, id: &str) -> (r: Value)
        requires
            !(self@.ref_name is Some && self@.arn_value is Some),
        ensures
            r@ == get_att_json(self@.resource_id, id@),
    {
        get_att(self.resource_id.as_str(), id)
    }
}

impl Clone for DistributionRef {
    fn clone(&self) -> (r: Self)
        ensures
            r@ == self@,
    {
        Self {
            resource_id: self.resource_id.clone(),
            ref_name: clone_opt(&self.ref_name),
            arn_value: clone_opt(&self.arn_value),
        }
    }
}

/// An origin access control: how CloudFront signs its requests to an origin.
pub struct OriginAccessControl {
    pub(crate) id: Id,
    pub(crate) resource_id: String,
    pub(crate) resource_type: String,
    pub(crate) properties: OriginControlProperties,
}

/// What a [`OriginAccessControl`] holds.
pub struct OriginAccessControlView {
    pub id: Id,
    pub resource_id: String,
    pub resource_type: String,
    pub properties: OriginControlProperties,
}

impl View for OriginAccessControl {
    type V = OriginAccessControlView;

    open(crate) spec fn view(&self) -> OriginAccessControlView {
        OriginAccessControlView {
            id: self.id,
            resource_id: self.resource_id,
            resource_type: self.resource_type,
            properties: self.properties,
        }
    }
}

impl OriginAccessControl {
    pub fn get_id(&self) -> (r: &Id)
        ensures
            *r == self@.id,
    {
        &self.id
    }

    pub fn get_resource_id(&self) -> (r: &str)
        ensures
            r@ == self@.resource_id@,
    {
        self.resource_id.as_str()
    }

    pub fn get_type(&self) -> (r: &str)
        ensures
            r@ == self@.resource_type@,
    {
        self.resource_type.as_str()
    }
}

/// Part of the OriginControlProperties configuration.
pub struct OriginControlProperties {
    pub(crate) config: OriginAccessControlConfig,
}

/// What a [`OriginControlProperties`] holds.
pub struct OriginControlPropertiesView {
    pub config: OriginAccessControlConfig,
}

impl View for OriginControlProperties {
    type V = OriginControlPropertiesView;

    open(crate) spec fn view(&self) -> OriginControlPropertiesView {
        OriginControlPropertiesView {
            config: self.config,
        }
    }
}

/// Part of the OriginAccessControlConfig configuration.
pub struct OriginAccessControlConfig {
    pub(crate) name: String,
    pub(crate) origin_access_control_type: String,
    pub(crate) signing_behavior: String,
    pub(crate) signing_protocol: String,
}

/// What a [`OriginAccessControlConfig`] holds.
pub struct OriginAccessControlConfigView {
    pub name: String,
    pub origin_access_control_type: String,
    pub signing_behavior: String,
    pub signing_protocol: String,
}

impl View for OriginAccessControlConfig {
    type V = OriginAccessControlConfigView;

    open(crate) spec fn view(&self) -> OriginAccessControlConfigView {
        OriginAccessControlConfigView {
            name: self.name,
            origin_access_control_type: self.origin_access_control_type,
            signing_behavior: self.signing_behavior,
            signing_protocol: self.signing_protocol,
        }
    }
}

/// A cache policy of CloudFront.
pub struct CachePolicy {
    pub(crate) id: Id,
    pub(crate) resource_id: String,
    pub(crate) resource_type: String,
    pub(crate) properties: CachePolicyProperties,
}

/// What a [`CachePolicy`] holds.
pub struct CachePolicyView {
    pub id: Id,
    pub resource_id: String,
    pub resource_type: String,
    pub properties: CachePolicyProperties,
}

impl View for CachePolicy {
    type V = CachePolicyView;

    open(crate) spec fn view(&self) -> CachePolicyView {
        CachePolicyView {
            id: self.id,
            resource_id: self.resource_id,
            resource_type: self.resource_type,
            properties: self.properties,
        }
    }
}

impl CachePolicy {
    pub fn get_id(&self) -> (r: &Id)
        ensures
            *r == self@.id,
    {
        &self.id
    }

    pub fn get_resource_id(&self) -> (r: &str)
        ensures
            r@ == self@.resource_id@,
    {
        self.resource_id.as_str()
    }

    pub fn get_type(&self) -> (r: &str)
        ensures
            r@ == self@.resource_type@,
    {
        self.resource_type.as_str()
    }
}

/// Part of the CachePolicyProperties configuration.
pub struct CachePolicyProperties {
    pub(crate) config: CachePolicyConfig,
}

/// What a [`CachePolicyProperties`] holds.
pub struct CachePolicyPropertiesView {
    pub config: CachePolicyConfig,
}

impl View for CachePolicyProperties {
    type V = CachePolicyPropertiesView;

    open(crate) spec fn view(&self) -> CachePolicyPropertiesView {
        CachePolicyPropertiesView {
            config: self.config,
        }
    }
}

/// Part of the CachePolicyConfig configuration.
pub struct CachePolicyConfig {
    pub(crate) default_ttl: u32,
    pub(crate) min_ttl: u32,
    pub(crate) max_ttl: u32,
    pub(crate) name: String,
    pub(crate) params_in_cache_key_and_forwarded: ParametersInCacheKeyAndForwardedToOrigin,
}

/// What a [`CachePolicyConfig`] holds.
pub struct CachePolicyConfigView {
    pub default_ttl: u32,
    pub min_ttl: u32,
    pub max_ttl: u32,
    pub name: String,
    pub params_in_cache_key_and_forwarded: ParametersInCacheKeyAndForwardedToOrigin,
}

impl View for CachePolicyConfig {
    type V = CachePolicyConfigView;

    open(crate) spec fn view(&self) -> CachePolicyConfigView {
        CachePolicyConfigView {
            default_ttl: self.default_ttl,
            min_ttl: self.min_ttl,
            max_ttl: self.max_ttl,
            name: self.name,
            params_in_cache_key_and_forwarded: self.params_in_cache_key_and_forwarded,
        }
    }
}

/// Part of the ParametersInCacheKeyAndForwardedToOrigin configuration.
pub struct ParametersInCacheKeyAndForwardedToOrigin {
    pub(crate) cookies_config: CookiesConfig,
    pub(crate) accept_encoding_brotli: Option<bool>,
    pub(crate) accept_encoding_gzip: bool,
    pub(crate) headers_config: HeadersConfig,
    pub(crate) query_strings_config: QueryStringsConfig,
}

/// What a [`ParametersInCacheKeyAndForwardedToOrigin`] holds.
pub struct ParametersInCacheKeyAndForwardedToOriginView {
    pub cookies_config: CookiesConfig,
    pub accept_encoding_brotli: Option<bool>,
    pub accept_encoding_gzip: bool,
    pub headers_config: HeadersConfig,
    pub query_strings_config: QueryStringsConfig,
}

impl View for ParametersInCacheKeyAndForwardedToOrigin {
    type V = ParametersInCacheKeyAndForwardedToOriginView;

    open(crate) spec fn view(&self) -> ParametersInCacheKeyAndForwardedToOriginView {
        ParametersInCacheKeyAndForwardedToOriginView {
            cookies_config: self.cookies_config,
            accept_encoding_brotli: self.accept_encoding_brotli,
            accept_encoding_gzip: self.accept_encoding_gzip,
            headers_config: self.headers_config,
            query_strings_config: self.query_strings_config,
        }
    }
}

/// Part of the HeadersConfig configuration.
pub struct HeadersConfig {
    pub(crate) headers_behavior: String,
    pub(crate) headers: Option<Vec<String>>,
}

/// What a [`HeadersConfig`] holds.
pub struct HeadersConfigView {
    pub headers_behavior: String,
    pub headers: Option<Vec<String>>,
}

impl View for HeadersConfig {
    type V = HeadersConfigView;

    open(crate) spec fn view(&self) -> HeadersConfigView {
        HeadersConfigView {
            headers_behavior: self.headers_behavior,
            headers: self.headers,
        }
    }
}

/// Part of the QueryStringsConfig configuration.
pub struct QueryStringsConfig {
    pub(crate) query_strings_behavior: String,
    pub(crate) query_strings: Option<Vec<String>>,
}

/// What a [`QueryStringsConfig`] holds.
pub struct QueryStringsConfigView {
    pub query_strings_behavior: String,
    pub query_strings: Option<Vec<String>>,
}

impl View for QueryStringsConfig {
    type V = QueryStringsConfigView;

    open(crate) spec fn view(&self) -> QueryStringsConfigView {
        QueryStringsConfigView {
            query_strings_behavior: self.query_strings_behavior,
            query_strings: self.query_strings,
        }
    }
}

/// Part of the CookiesConfig configuration.
pub struct CookiesConfig {
    pub(crate) cookie_behavior: String,
    pub(crate) cookies: Option<Vec<String>>,
}

/// What a [`CookiesConfig`] holds.
pub struct CookiesConfigView {
    pub cookie_behavior: String,
    pub cookies: Option<Vec<String>>,
}

impl View for CookiesConfig {
    type V = CookiesConfigView;

    open(crate) spec fn view(&self) -> CookiesConfigView {
        CookiesConfigView {
            cookie_behavior: self.cookie_behavior,
            cookies: self.cookies,
        }
    }
}

/// A CloudFront distribution.
pub struct Distribution {
    pub(crate) id: Id,
    pub(crate) resource_id: String,
    pub(crate) resource_type: String,
    pub(crate) properties: DistributionProperties,
}

/// What a [`Distribution`] holds.
pub struct DistributionView {
    pub id: Id,
    pub resource_id: String,
    pub resource_type: String,
    pub properties: DistributionProperties,
}

impl View for Distribution {
    type V = DistributionView;

    open(crate) spec fn view(&self) -> DistributionView {
        DistributionView {
            id: self.id,
            resource_id: self.resource_id,
            resource_type: self.resource_type,
            properties: self.properties,
        }
    }
}

impl Distribution {
    pub fn get_id(&self) -> (r: &Id)
        ensures
            *r == self@.id,
    {
        &self.id
    }

    pub fn get_resource_id(&self) -> (r: &str)
        ensures
            r@ == self@.resource_id@,
    {
        self.resource_id.as_str()
    }

    pub fn get_type(&self) -> (r: &str)
        ensures
            r@ == self@.resource_type@,
    {
        self.resource_type.as_str()
    }
}

/// Part of the DistributionProperties configuration.
pub struct DistributionProperties {
    pub(crate) config: DistributionConfig,
}

/// What a [`DistributionProperties`] holds.
pub struct DistributionPropertiesView {
    pub config: DistributionConfig,
}

impl View for DistributionProperties {
    type V = DistributionPropertiesView;

    open(crate) spec fn view(&self) -> DistributionPropertiesView {
        DistributionPropertiesView {
            config: self.config,
        }
    }
}

/// Part of the DistributionConfig configuration.
pub struct DistributionConfig {
    pub(crate) aliases: Option<Vec<String>>,
    pub(crate) cache_behaviors: Option<Vec<CacheBehavior>>,
    pub(crate) cnames: Option<Vec<String>>,
    pub(crate) default_cache_behavior: DefaultCacheBehavior,
    pub(crate) default_root_object: String,
    pub(crate) enabled: bool,
    pub(crate) http_version: Option<String>,
    pub(crate) ipv6_enabled: Option<bool>,
    pub(crate) origin_groups: Option<OriginGroups>,
    pub(crate) origins: Option<Vec<Origin>>,
    pub(crate) price_class: Option<String>,
    pub(crate) viewer_certificate: Option<ViewerCertificate>,
}

/// What a [`DistributionConfig`] holds.
pub struct DistributionConfigView {
    pub aliases: Option<Vec<String>>,
    pub cache_behaviors: Option<Vec<CacheBehavior>>,
    pub cnames: Option<Vec<String>>,
    pub default_cache_behavior: DefaultCacheBehavior,
    pub default_root_object: String,
    pub enabled: bool,
    pub http_version: Option<String>,
    pub ipv6_enabled: Option<bool>,
    pub origin_groups: Option<OriginGroups>,
    pub origins: Option<Vec<Origin>>,
    pub price_class: Option<String>,
    pub viewer_certificate: Option<ViewerCertificate>,
}

impl View for DistributionConfig {
    type V = DistributionConfigView;

    open(crate) spec fn view(&self) -> DistributionConfigView {
        DistributionConfigView {
            aliases: self.aliases,
            cache_behaviors: self.cache_behaviors,
            cnames: self.cnames,
            default_cache_behavior: self.default_cache_behavior,
            default_root_object: self.default_root_object,
            enabled: self.enabled,
            http_version: self.http_version,
            ipv6_enabled: self.ipv6_enabled,
            origin_groups: self.origin_groups,
            origins: self.origins,
            price_class: self.price_class,
            viewer_certificate: self.viewer_certificate,
        }
    }
}

/// Part of the ViewerCertificate configuration.
pub struct ViewerCertificate {
    pub(crate) acm_cert_arn: Option<String>,
    pub(crate) cloudfront_default_cert: Option<bool>,
    pub(crate) iam_cert_id: Option<String>,
    pub(crate) min_protocol_version: Option<String>,
    pub(crate) ssl_support_method: Option<String>,
}

/// What a [`ViewerCertificate`] holds.
pub struct ViewerCertificateView {
    pub acm_cert_arn: Option<String>,
    pub cloudfront_default_cert: Option<bool>,
    pub iam_cert_id: Option<String>,
    pub min_protocol_version: Option<String>,
    pub ssl_support_method: Option<String>,
}

impl View for ViewerCertificate {
    type V = ViewerCertificateView;

    open(crate) spec fn view(&self) -> ViewerCertificateView {
        ViewerCertificateView {
            acm_cert_arn: self.acm_cert_arn,
            cloudfront_default_cert: self.cloudfront_default_cert,
            iam_cert_id: self.iam_cert_id,
            min_protocol_version: self.min_protocol_version,
            ssl_support_method: self.ssl_support_method,
        }
    }
}

/// Part of the OriginGroups configuration.
pub struct OriginGroups {
    pub(crate) items: Vec<OriginGroup>,
    pub(crate) quantity: u32,
}

/// What a [`OriginGroups`] holds.
pub struct OriginGroupsView {
    pub items: Vec<OriginGroup>,
    pub quantity: u32,
}

impl View for OriginGroups {
    type V = OriginGroupsView;

    open(crate) spec fn view(&self) -> OriginGroupsView {
        OriginGroupsView {
            items: self.items,
            quantity: self.quantity,
        }
    }
}

/// Part of the OriginGroup configuration.
pub struct OriginGroup {
    pub(crate) id: String,
    pub(crate) fail_over_criteria: FailOverCriteria,
    pub(crate) members: OriginGroupMembers,
    pub(crate) selection_criteria: Option<String>,
}

/// What a [`OriginGroup`] holds.
pub struct OriginGroupView {
    pub id: String,
    pub fail_over_criteria: FailOverCriteria,
    pub members: OriginGroupMembers,
    pub selection_criteria: Option<String>,
}

impl View for OriginGroup {
    type V = OriginGroupView;

    open(crate) spec fn view(&self) -> OriginGroupView {
        OriginGroupView {
            id: self.id,
            fail_over_criteria: self.fail_over_criteria,
            members: self.members,
            selection_criteria: self.selection_criteria,
        }
    }
}

/// Part of the OriginGroupMembers configuration.
pub struct OriginGroupMembers {
    pub(crate) items: Vec<u32>,
    pub(crate) quantity: u32,
}

/// What a [`OriginGroupMembers`] holds.
pub struct OriginGroupMembersView {
    pub items: Vec<u32>,
    pub quantity: u32,
}

impl View for OriginGroupMembers {
    type V = OriginGroupMembersView;

    open(crate) spec fn view(&self) -> OriginGroupMembersView {
        OriginGroupMembersView {
            items: self.items,
            quantity: self.quantity,
        }
    }
}

/// Part of the OriginGroupMember configuration.
pub struct OriginGroupMember {
    pub(crate) origin_id: String,
}

/// What a [`OriginGroupMember`] holds.
pub struct OriginGroupMemberView {
    pub origin_id: String,
}

impl View for OriginGroupMember {
    type V = OriginGroupMemberView;

    open(crate) spec fn view(&self) -> OriginGroupMemberView {
        OriginGroupMemberView {
            origin_id: self.origin_id,
        }
    }
}

/// Part of the FailOverCriteria configuration.
pub struct FailOverCriteria {
    pub(crate) status_codes: StatusCodes,
}

/// What a [`FailOverCriteria`] holds.
pub struct FailOverCriteriaView {
    pub status_codes: StatusCodes,
}

impl View for FailOverCriteria {
    type V = FailOverCriteriaView;

    open(crate) spec fn view(&self) -> FailOverCriteriaView {
        FailOverCriteriaView {
            status_codes: self.status_codes,
        }
    }
}

/// Part of the StatusCodes configuration.
pub struct StatusCodes {
    pub(crate) items: Vec<u32>,
    pub(crate) quantity: u32,
}

/// What a [`StatusCodes`] holds.
pub struct StatusCodesView {
    pub items: Vec<u32>,
    pub quantity: u32,
}

impl View for StatusCodes {
    type V = StatusCodesView;

    open(crate) spec fn view(&self) -> StatusCodesView {
        StatusCodesView {
            items: self.items,
            quantity: self.quantity,
        }
    }
}

/// An origin that a distribution fetches content from.
pub struct Origin {
    pub(crate) id: String,
    pub(crate) s3_bucket_policy: Option<BucketPolicy>,
    pub(crate) domain_name: Value,
    pub(crate) connection_attempts: Option<u8>,
    pub(crate) connection_timeout: Option<u16>,
    pub(crate) origin_access_control_id: Option<Value>,
    pub(crate) origin_path: Option<String>,
    pub(crate) response_completion_timeout: Option<u16>,
    pub(crate) s3origin_config: Option<S3OriginConfig>,
    pub(crate) origin_custom_headers: Option<Vec<OriginCustomHeader>>,
    pub(crate) vpc_origin_config: Option<VpcOriginConfig>,
    pub(crate) custom_origin_config: Option<CustomOriginConfig>,
}

/// What a [`Origin`] holds.
pub struct OriginView {
    pub id: String,
    pub s3_bucket_policy: Option<BucketPolicy>,
    pub domain_name: Value,
    pub connection_attempts: Option<u8>,
    pub connection_timeout: Option<u16>,
    pub origin_access_control_id: Option<Value>,
    pub origin_path: Option<String>,
    pub response_completion_timeout: Option<u16>,
    pub s3origin_config: Option<S3OriginConfig>,
    pub origin_custom_headers: Option<Vec<OriginCustomHeader>>,
    pub vpc_origin_config: Option<VpcOriginConfig>,
    pub custom_origin_config: Option<CustomOriginConfig>,
}

impl View for Origin {
    type V = OriginView;

    open(crate) spec fn view(&self) -> OriginView {
        OriginView {
            id: self.id,
            s3_bucket_policy: self.s3_bucket_policy,
            domain_name: self.domain_name,
            connection_attempts: self.connection_attempts,
            connection_timeout: self.connection_timeout,
            origin_access_control_id: self.origin_access_control_id,
            origin_path: self.origin_path,
            response_completion_timeout: self.response_completion_timeout,
            s3origin_config: self.s3origin_config,
            origin_custom_headers: self.origin_custom_headers,
            vpc_origin_config: self.vpc_origin_config,
            custom_origin_config: self.custom_origin_config,
        }
    }
}

impl Origin {
    pub fn get_origin_id(&self) -> (r: &str)
        ensures
            r@ == self@.id@,
    {
        self.id.as_str()
    }
}

/// Part of the OriginCustomHeader configuration.
pub struct OriginCustomHeader {
    pub(crate) header_name: String,
    pub(crate) header_value: String,
}

/// What a [`OriginCustomHeader`] holds.
pub struct OriginCustomHeaderView {
    pub header_name: String,
    pub header_value: String,
}

impl View for OriginCustomHeader {
    type V = OriginCustomHeaderView;

    open(crate) spec fn view(&self) -> OriginCustomHeaderView {
        OriginCustomHeaderView {
            header_name: self.header_name,
            header_value: self.header_value,
        }
    }
}

/// Part of the VpcOriginConfig configuration.
pub struct VpcOriginConfig {
    pub(crate) vpc_origin_id: String,
    pub(crate) origin_keep_alive_timeout: Option<u32>,
    pub(crate) origin_read_timeout: Option<u32>,
    pub(crate) owner_account_id: Option<String>,
}

/// What a [`VpcOriginConfig`] holds.
pub struct VpcOriginConfigView {
    pub vpc_origin_id: String,
    pub origin_keep_alive_timeout: Option<u32>,
    pub origin_read_timeout: Option<u32>,
    pub owner_account_id: Option<String>,
}

impl View for VpcOriginConfig {
    type V = VpcOriginConfigView;

    open(crate) spec fn view(&self) -> VpcOriginConfigView {
        VpcOriginConfigView {
            vpc_origin_id: self.vpc_origin_id,
            origin_keep_alive_timeout: self.origin_keep_alive_timeout,
            origin_read_timeout: self.origin_read_timeout,
            owner_account_id: self.owner_account_id,
        }
    }
}

/// Part of the CustomOriginConfig configuration.
pub struct CustomOriginConfig {
    pub(crate) origin_protocol_policy: String,
    pub(crate) http_port: Option<u16>,
    pub(crate) https_port: Option<u16>,
    pub(crate) ip_address_type: Option<String>,
    pub(crate) origin_keep_alive_timeout: Option<u8>,
    pub(crate) origin_read_timeout: Option<u8>,
    pub(crate) origin_ssl_protocols: Option<Vec<String>>,
}

/// What a [`CustomOriginConfig`] holds.
pub struct CustomOriginConfigView {
    pub origin_protocol_policy: String,
    pub http_port: Option<u16>,
    pub https_port: Option<u16>,
    pub ip_address_type: Option<String>,
    pub origin_keep_alive_timeout: Option<u8>,
    pub origin_read_timeout: Option<u8>,
    pub origin_ssl_protocols: Option<Vec<String>>,
}

impl View for CustomOriginConfig {
    type V = CustomOriginConfigView;

    open(crate) spec fn view(&self) -> CustomOriginConfigView {
        CustomOriginConfigView {
            origin_protocol_policy: self.origin_protocol_policy,
            http_port: self.http_port,
            https_port: self.https_port,
            ip_address_type: self.ip_address_type,
            origin_keep_alive_timeout: self.origin_keep_alive_timeout,
            origin_read_timeout: self.origin_read_timeout,
            origin_ssl_protocols: self.origin_ssl_protocols,
        }
    }
}

/// Part of the S3OriginConfig configuration.
pub struct S3OriginConfig {
    pub(crate) origin_read_timeout: Option<u8>,
}

/// What a [`S3OriginConfig`] holds.
pub struct S3OriginConfigView {
    pub origin_read_timeout: Option<u8>,
}

impl View for S3OriginConfig {
    type V = S3OriginConfigView;

    open(crate) spec fn view(&self) -> S3OriginConfigView {
        S3OriginConfigView {
            origin_read_timeout: self.origin_read_timeout,
        }
    }
}

/// Part of the DefaultCacheBehavior configuration.
pub struct DefaultCacheBehavior {
    pub(crate) target_origin_id: String,
    pub(crate) cache_policy_id: Value,
    pub(crate) viewer_protocol_policy: String,
    pub(crate) allowed_methods: Option<Vec<String>>,
    pub(crate) cached_methods: Option<Vec<String>>,
    pub(crate) compress: Option<bool>,
}

/// What a [`DefaultCacheBehavior`] holds.
pub struct DefaultCacheBehaviorView {
    pub target_origin_id: String,
    pub cache_policy_id: Value,
    pub viewer_protocol_policy: String,
    pub allowed_methods: Option<Vec<String>>,
    pub cached_methods: Option<Vec<String>>,
    pub compress: Option<bool>,
}

impl View for DefaultCacheBehavior {
    type V = DefaultCacheBehaviorView;

    open(crate) spec fn view(&self) -> DefaultCacheBehaviorView {
        DefaultCacheBehaviorView {
            target_origin_id: self.target_origin_id,
            cache_policy_id: self.cache_policy_id,
            viewer_protocol_policy: self.viewer_protocol_policy,
            allowed_methods: self.allowed_methods,
            cached_methods: self.cached_methods,
            compress: self.compress,
        }
    }
}

/// Part of the CacheBehavior configuration.
pub struct CacheBehavior {
    pub(crate) path_pattern: String,
    pub(crate) target_origin_id: String,
    pub(crate) cache_policy_id: String,
    pub(crate) viewer_protocol_policy: String,
    pub(crate) allowed_methods: Option<Vec<String>>,
    pub(crate) cached_methods: Option<Vec<String>>,
    pub(crate) compress: Option<bool>,
    pub(crate) trusted_key_groups: Option<Vec<String>>,
}

/// What a [`CacheBehavior`] holds.
pub struct CacheBehaviorView {
    pub path_pattern: String,
    pub target_origin_id: String,
    pub cache_policy_id: String,
    pub viewer_protocol_policy: String,
    pub allowed_methods: Option<Vec<String>>,
    pub cached_methods: Option<Vec<String>>,
    pub compress: Option<bool>,
    pub trusted_key_groups: Option<Vec<String>>,
}

impl View for CacheBehavior {
    type V = CacheBehaviorView;

    open(crate) spec fn view(&self) -> CacheBehaviorView {
        CacheBehaviorView {
            path_pattern: self.path_pattern,
            target_origin_id: self.target_origin_id,
            cache_policy_id: self.cache_policy_id,
            viewer_protocol_policy: self.viewer_protocol_policy,
            allowed_methods: self.allowed_methods,
            cached_methods: self.cached_methods,
            compress: self.compress,
            trusted_key_groups: self.trusted_key_groups,
        }
    }
}

} // verus!
