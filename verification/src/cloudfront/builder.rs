use crate::cloudfront::{
    CacheBehavior, CachePolicy, CachePolicyConfig, CachePolicyProperties, CachePolicyRef, CookiesConfig,
    CustomOriginConfig, CustomOriginConfigView, DefaultCacheBehavior, DefaultCacheBehaviorView, Distribution,
    DistributionConfig, DistributionProperties, DistributionRef, HeadersConfig, Origin, OriginAccessControl,
    OriginAccessControlConfig, OriginAccessControlRef, OriginControlProperties, OriginCustomHeader,
    ParametersInCacheKeyAndForwardedToOrigin, ParametersInCacheKeyAndForwardedToOriginView, QueryStringsConfig,
    S3OriginConfig, ViewerCertificate, ViewerCertificateView, VpcOriginConfig,
};
use crate::iam::{Effect, PolicyDocumentBuilder, Principal, ServicePrincipal, Statement, StatementBuilder};
use crate::intrinsic::{get_att, get_att_json, get_ref, get_ref_json, join, join_json, single_member, string_value};
use crate::json::{json_views, JsonView, Value};
use crate::s3::{BucketPolicy, BucketPolicyBuilder, BucketRef};
use crate::shared::{http_method_name, HttpMethod, Id};
use crate::stack::{is_generated_id, Resource, StackBuilder, StackBuilderView};
use crate::wrappers::{CfConnectionTimeout, ConnectionAttempts, DefaultRootObject, IamAction, OriginPath, S3OriginReadTimeout};
use std::marker::PhantomData;
use vstd::prelude::*;

verus! {

/// How a distribution serves HTTPS requests.
#[derive(Debug, Clone)]
pub enum SslSupportedMethod {
    SniOnly,
    Vip,
    StaticIp,
}

/// How CloudFormation writes a [`SslSupportedMethod`].
pub open spec fn ssl_supported_method_name(v: SslSupportedMethod) -> Seq<char> {
    match v {
        SslSupportedMethod::SniOnly => "sni-only"@,
        SslSupportedMethod::Vip => "vip"@,
        SslSupportedMethod::StaticIp => "static-ip"@,
    }
}

impl vstd::std_specs::convert::FromSpecImpl<SslSupportedMethod> for String {
    open spec fn obeys_from_spec() -> bool {
        false
    }

    open spec fn from_spec(v: SslSupportedMethod) -> String {
        vstd::pervasive::arbitrary()
    }
}

impl From<SslSupportedMethod> for String {
    fn from(value: SslSupportedMethod) -> (r: String)
        ensures
            r@ == ssl_supported_method_name(value),
    {
        match value {
            SslSupportedMethod::SniOnly => String::from_str("sni-only"),
            SslSupportedMethod::Vip => String::from_str("vip"),
            SslSupportedMethod::StaticIp => String::from_str("static-ip"),
        }
    }
}

/// The oldest security policy a distribution accepts from viewers.
#[derive(Debug, Clone)]
pub enum MinProtocolVersion {
    SSLV3,
    TLSv1,
    TLSv1_1,
    TLSv1_2_2018,
    TLSv1_2_2019,
    TLSv1_2_2021,
    TLSv1_2_2025,
    TLSv1_3,
}

/// How CloudFormation writes a [`MinProtocolVersion`].
pub open spec fn min_protocol_version_name(v: MinProtocolVersion) -> Seq<char> {
    match v {
        MinProtocolVersion::SSLV3 => "SSLv3"@,
        MinProtocolVersion::TLSv1 => "TLSv1"@,
        MinProtocolVersion::TLSv1_1 => "TLSv1.1_2016"@,
        MinProtocolVersion::TLSv1_2_2018 => "TLSv1.2_2018"@,
        MinProtocolVersion::TLSv1_2_2019 => "TLSv1.2_2019"@,
        MinProtocolVersion::TLSv1_2_2021 => "TLSv1.2_2021"@,
        MinProtocolVersion::TLSv1_2_2025 => "TLSv1.2_2025"@,
        MinProtocolVersion::TLSv1_3 => "TLSv1.3_2025"@,
    }
}

impl vstd::std_specs::convert::FromSpecImpl<MinProtocolVersion> for String {
    open spec fn obeys_from_spec() -> bool {
        false
    }

    open spec fn from_spec(v: MinProtocolVersion) -> String {
        vstd::pervasive::arbitrary()
    }
}

impl From<MinProtocolVersion> for String {
    fn from(value: MinProtocolVersion) -> (r: String)
        ensures
            r@ == min_protocol_version_name(value),
    {
        match value {
            MinProtocolVersion::SSLV3 => String::from_str("SSLv3"),
            MinProtocolVersion::TLSv1 => String::from_str("TLSv1"),
            MinProtocolVersion::TLSv1_1 => String::from_str("TLSv1.1_2016"),
            MinProtocolVersion::TLSv1_2_2018 => String::from_str("TLSv1.2_2018"),
            MinProtocolVersion::TLSv1_2_2019 => String::from_str("TLSv1.2_2019"),
            MinProtocolVersion::TLSv1_2_2021 => String::from_str("TLSv1.2_2021"),
            MinProtocolVersion::TLSv1_2_2025 => String::from_str("TLSv1.2_2025"),
            MinProtocolVersion::TLSv1_3 => String::from_str("TLSv1.3_2025"),
        }
    }
}

/// The highest HTTP version a distribution speaks with viewers.
#[derive(Debug, Clone)]
pub enum HttpVersion {
    Http1,
    Http2,
    Http3,
    Http2And3,
}

/// How CloudFormation writes a [`HttpVersion`].
pub open spec fn http_version_name(v: HttpVersion) -> Seq<char> {
    match v {
        HttpVersion::Http1 => "http1.1"@,
        HttpVersion::Http2 => "http2"@,
        HttpVersion::Http3 => "http3"@,
        HttpVersion::Http2And3 => "http2and3"@,
    }
}

impl vstd::std_specs::convert::FromSpecImpl<HttpVersion> for String {
    open spec fn obeys_from_spec() -> bool {
        false
    }

    open spec fn from_spec(v: HttpVersion) -> String {
        vstd::pervasive::arbitrary()
    }
}

impl From<HttpVersion> for String {
    fn from(value: HttpVersion) -> (r: String)
        ensures
            r@ == http_version_name(value),
    {
        match value {
            HttpVersion::Http1 => String::from_str("http1.1"),
            HttpVersion::Http2 => String::from_str("http2"),
            HttpVersion::Http3 => String::from_str("http3"),
            HttpVersion::Http2And3 => String::from_str("http2and3"),
        }
    }
}

/// Which edge locations serve a distribution.
#[derive(Debug, Clone)]
pub enum PriceClass {
    PriceClass100,
    PriceClass200,
    PriceClassAll,
    PriceClassNone,
}

/// How CloudFormation writes a [`PriceClass`].
pub open spec fn price_class_name(v: PriceClass) -> Seq<char> {
    match v {
        PriceClass::PriceClass100 => "PriceClass_100"@,
        PriceClass::PriceClass200 => "PriceClass_200"@,
        PriceClass::PriceClassAll => "PriceClass_All"@,
        PriceClass::PriceClassNone => "None"@,
    }
}

impl vstd::std_specs::convert::FromSpecImpl<PriceClass> for String {
    open spec fn obeys_from_spec() -> bool {
        false
    }

    open spec fn from_spec(v: PriceClass) -> String {
        vstd::pervasive::arbitrary()
    }
}

impl From<PriceClass> for String {
    fn from(value: PriceClass) -> (r: String)
        ensures
            r@ == price_class_name(value),
    {
        match value {
            PriceClass::PriceClass100 => String::from_str("PriceClass_100"),
            PriceClass::PriceClass200 => String::from_str("PriceClass_200"),
            PriceClass::PriceClassAll => String::from_str("PriceClass_All"),
            PriceClass::PriceClassNone => String::from_str("None"),
        }
    }
}

/// How CloudFront connects to a custom origin.
#[derive(Debug, Clone)]
pub enum OriginProtocolPolicy {
    HttpOnly,
    MatchViewer,
    HttpsOnly,
}

/// How CloudFormation writes a [`OriginProtocolPolicy`].
pub open spec fn origin_protocol_policy_name(v: OriginProtocolPolicy) -> Seq<char> {
    match v {
        OriginProtocolPolicy::HttpOnly => "http-only"@,
        OriginProtocolPolicy::MatchViewer => "match-viewer"@,
        OriginProtocolPolicy::HttpsOnly => "https-only"@,
    }
}

impl vstd::std_specs::convert::FromSpecImpl<OriginProtocolPolicy> for String {
    open spec fn obeys_from_spec() -> bool {
        false
    }

    open spec fn from_spec(v: OriginProtocolPolicy) -> String {
        vstd::pervasive::arbitrary()
    }
}

impl From<OriginProtocolPolicy> for String {
    fn from(value: OriginProtocolPolicy) -> (r: String)
        ensures
            r@ == origin_protocol_policy_name(value),
    {
        match value {
            OriginProtocolPolicy::HttpOnly => String::from_str("http-only"),
            OriginProtocolPolicy::MatchViewer => String::from_str("match-viewer"),
            OriginProtocolPolicy::HttpsOnly => String::from_str("https-only"),
        }
    }
}

/// Which IP addresses CloudFront uses to reach a custom origin.
#[derive(Debug, Clone)]
pub enum IpAddressType {
    IPv4,
    IPv6,
    Dualstack,
}

/// How CloudFormation writes a [`IpAddressType`].
pub open spec fn ip_address_type_name(v: IpAddressType) -> Seq<char> {
    match v {
        IpAddressType::IPv4 => "ipv4"@,
        IpAddressType::IPv6 => "ipv6"@,
        IpAddressType::Dualstack => "dualstack"@,
    }
}

impl vstd::std_specs::convert::FromSpecImpl<IpAddressType> for String {
    open spec fn obeys_from_spec() -> bool {
        false
    }

    open spec fn from_spec(v: IpAddressType) -> String {
        vstd::pervasive::arbitrary()
    }
}

impl From<IpAddressType> for String {
    fn from(value: IpAddressType) -> (r: String)
        ensures
            r@ == ip_address_type_name(value),
    {
        match value {
            IpAddressType::IPv4 => String::from_str("ipv4"),
            IpAddressType::IPv6 => String::from_str("ipv6"),
            IpAddressType::Dualstack => String::from_str("dualstack"),
        }
    }
}

/// Which protocols viewers may use.
#[derive(Debug, Clone)]
pub enum ViewerProtocolPolicy {
    AllowAll,
    RedirectToHttps,
    HttpsOnly,
}

/// How CloudFormation writes a [`ViewerProtocolPolicy`].
pub open spec fn viewer_protocol_policy_name(v: ViewerProtocolPolicy) -> Seq<char> {
    match v {
        ViewerProtocolPolicy::AllowAll => "allow-all"@,
        ViewerProtocolPolicy::RedirectToHttps => "redirect-to-https"@,
        ViewerProtocolPolicy::HttpsOnly => "https-only"@,
    }
}

impl vstd::std_specs::convert::FromSpecImpl<ViewerProtocolPolicy> for String {
    open spec fn obeys_from_spec() -> bool {
        false
    }

    open spec fn from_spec(v: ViewerProtocolPolicy) -> String {
        vstd::pervasive::arbitrary()
    }
}

impl From<ViewerProtocolPolicy> for String {
    fn from(value: ViewerProtocolPolicy) -> (r: String)
        ensures
            r@ == viewer_protocol_policy_name(value),
    {
        match value {
            ViewerProtocolPolicy::AllowAll => String::from_str("allow-all"),
            ViewerProtocolPolicy::RedirectToHttps => String::from_str("redirect-to-https"),
            ViewerProtocolPolicy::HttpsOnly => String::from_str("https-only"),
        }
    }
}

/// When CloudFront signs its requests to an origin.
#[derive(Debug, Clone)]
pub enum SigningBehavior {
    Never,
    NoOverride,
    Always,
}

/// How CloudFormation writes a [`SigningBehavior`].
pub open spec fn signing_behavior_name(v: SigningBehavior) -> Seq<char> {
    match v {
        SigningBehavior::Never => "never"@,
        SigningBehavior::NoOverride => "no-override"@,
        SigningBehavior::Always => "always"@,
    }
}

impl vstd::std_specs::convert::FromSpecImpl<SigningBehavior> for String {
    open spec fn obeys_from_spec() -> bool {
        false
    }

    open spec fn from_spec(v: SigningBehavior) -> String {
        vstd::pervasive::arbitrary()
    }
}

impl From<SigningBehavior> for String {
    fn from(value: SigningBehavior) -> (r: String)
        ensures
            r@ == signing_behavior_name(value),
    {
        match value {
            SigningBehavior::Never => String::from_str("never"),
            SigningBehavior::NoOverride => String::from_str("no-override"),
            SigningBehavior::Always => String::from_str("always"),
        }
    }
}

/// How CloudFront signs its requests to an origin.
#[derive(Debug, Clone)]
pub enum SigningProtocol {
    SigV4,
}

/// How CloudFormation writes a [`SigningProtocol`].
pub open spec fn signing_protocol_name(v: SigningProtocol) -> Seq<char> {
    match v {
        SigningProtocol::SigV4 => "sigv4"@,
    }
}

impl vstd::std_specs::convert::FromSpecImpl<SigningProtocol> for String {
    open spec fn obeys_from_spec() -> bool {
        false
    }

    open spec fn from_spec(v: SigningProtocol) -> String {
        vstd::pervasive::arbitrary()
    }
}

impl From<SigningProtocol> for String {
    fn from(value: SigningProtocol) -> (r: String)
        ensures
            r@ == signing_protocol_name(value),
    {
        match value {
            SigningProtocol::SigV4 => String::from_str("sigv4"),
        }
    }
}

/// The kind of origin an origin access control is for.
#[derive(Debug, Clone)]
pub enum OriginAccessControlType {
    S3,
    MediaStore,
    Lambda,
    MediaPackageV2,
}

/// How CloudFormation writes a [`OriginAccessControlType`].
pub open spec fn origin_access_control_type_name(v: OriginAccessControlType) -> Seq<char> {
    match v {
        OriginAccessControlType::S3 => "s3"@,
        OriginAccessControlType::MediaStore => "mediastore"@,
        OriginAccessControlType::Lambda => "lambda"@,
        OriginAccessControlType::MediaPackageV2 => "mediapackagev2"@,
    }
}

impl vstd::std_specs::convert::FromSpecImpl<OriginAccessControlType> for String {
    open spec fn obeys_from_spec() -> bool {
        false
    }

    open spec fn from_spec(v: OriginAccessControlType) -> String {
        vstd::pervasive::arbitrary()
    }
}

impl From<OriginAccessControlType> for String {
    fn from(value: OriginAccessControlType) -> (r: String)
        ensures
            r@ == origin_access_control_type_name(value),
    {
        match value {
            OriginAccessControlType::S3 => String::from_str("s3"),
            OriginAccessControlType::MediaStore => String::from_str("mediastore"),
            OriginAccessControlType::Lambda => String::from_str("lambda"),
            OriginAccessControlType::MediaPackageV2 => String::from_str("mediapackagev2"),
        }
    }
}

/// The states of a [`ViewerCertificateBuilder`]: nothing chosen yet, an ACM or IAM certificate, or
/// CloudFront's default certificate.
pub trait ViewerCertificateState {}

pub struct ViewerCertificateStateStartState {}

pub struct ViewerCertificateStateAcmOrIamState {}

pub struct ViewerCertificateStateEndState {}

impl ViewerCertificateState for ViewerCertificateStateStartState {}

impl ViewerCertificateState for ViewerCertificateStateAcmOrIamState {}

impl ViewerCertificateState for ViewerCertificateStateEndState {}

/// Builder for CloudFront viewer certificates.
pub struct ViewerCertificateBuilder<T: ViewerCertificateState> {
    pub(crate) phantom_data: PhantomData<T>,
    pub(crate) cloudfront_default_cert: Option<bool>,
    pub(crate) acm_cert_arn: Option<String>,
    pub(crate) iam_cert_id: Option<String>,
    pub(crate) min_protocol_version: Option<String>,
    pub(crate) ssl_support_method: Option<String>,
}

impl<T: ViewerCertificateState> View for ViewerCertificateBuilder<T> {
    type V = ViewerCertificateView;

    open(crate) spec fn view(&self) -> ViewerCertificateView {
        ViewerCertificateView {
            acm_cert_arn: self.acm_cert_arn,
            cloudfront_default_cert: self.cloudfront_default_cert,
            iam_cert_id: self.iam_cert_id,
            min_protocol_version: self.min_protocol_version,
            ssl_support_method: self.ssl_support_method,
        }
    }
}

impl ViewerCertificateBuilder<ViewerCertificateStateStartState> {
    pub fn new() -> (r: ViewerCertificateBuilder<ViewerCertificateStateStartState>)
        ensures
            r@.acm_cert_arn is None,
            r@.cloudfront_default_cert is None,
            r@.iam_cert_id is None,
            r@.min_protocol_version is None,
            r@.ssl_support_method is None,
    {
        ViewerCertificateBuilder {
            phantom_data: PhantomData,
            acm_cert_arn: None,
            cloudfront_default_cert: None,
            iam_cert_id: None,
            min_protocol_version: None,
            ssl_support_method: None,
        }
    }

    /// Uses CloudFront's own certificate.
    pub fn cloudfront_default_cert(self) -> (r: ViewerCertificateBuilder<ViewerCertificateStateEndState>)
        ensures
            r@ == (ViewerCertificateView { cloudfront_default_cert: Some(true), ..self@ }),
    {
        ViewerCertificateBuilder {
            phantom_data: PhantomData,
            cloudfront_default_cert: Some(true),
            acm_cert_arn: self.acm_cert_arn,
            iam_cert_id: self.iam_cert_id,
            min_protocol_version: self.min_protocol_version,
            ssl_support_method: self.ssl_support_method,
        }
    }

    /// Uses a certificate stored in IAM.
    pub fn iam_cert_id(self, id: String) -> (r: ViewerCertificateBuilder<ViewerCertificateStateAcmOrIamState>)
        ensures
            r@ == (ViewerCertificateView { cloudfront_default_cert: Some(true), iam_cert_id: Some(id), ..self@ }),
    {
        ViewerCertificateBuilder {
            phantom_data: PhantomData,
            cloudfront_default_cert: Some(true),
            acm_cert_arn: self.acm_cert_arn,
            iam_cert_id: Some(id),
            min_protocol_version: self.min_protocol_version,
            ssl_support_method: self.ssl_support_method,
        }
    }

    /// Uses a certificate from ACM.
    pub fn acm_cert_arn(self, id: String) -> (r: ViewerCertificateBuilder<ViewerCertificateStateAcmOrIamState>)
        ensures
            r@ == (ViewerCertificateView { cloudfront_default_cert: Some(true), acm_cert_arn: Some(id), ..self@ }),
    {
        ViewerCertificateBuilder {
            phantom_data: PhantomData,
            cloudfront_default_cert: Some(true),
            acm_cert_arn: Some(id),
            iam_cert_id: self.iam_cert_id,
            min_protocol_version: self.min_protocol_version,
            ssl_support_method: self.ssl_support_method,
        }
    }
}

impl<T: ViewerCertificateState> ViewerCertificateBuilder<T> {
    fn build_internal(self) -> (r: ViewerCertificate)
        ensures
            r@ == self@,
    {
        ViewerCertificate {
            cloudfront_default_cert: self.cloudfront_default_cert,
            acm_cert_arn: self.acm_cert_arn,
            iam_cert_id: self.iam_cert_id,
            min_protocol_version: self.min_protocol_version,
            ssl_support_method: self.ssl_support_method,
        }
    }
}

impl ViewerCertificateBuilder<ViewerCertificateStateAcmOrIamState> {
    pub fn min_protocol_version(self, protocol_version: MinProtocolVersion) -> (r: Self)
        ensures
            r@ == (ViewerCertificateView { min_protocol_version: r@.min_protocol_version, ..self@ }),
            r@.min_protocol_version matches Some(v) && v@ == min_protocol_version_name(protocol_version),
    {
        Self {
            phantom_data: PhantomData,
            min_protocol_version: Some(protocol_version.into()),
            cloudfront_default_cert: self.cloudfront_default_cert,
            acm_cert_arn: self.acm_cert_arn,
            iam_cert_id: self.iam_cert_id,
            ssl_support_method: self.ssl_support_method,
        }
    }

    pub fn ssl_support_method(self, ssl_support: SslSupportedMethod) -> (r: Self)
        ensures
            r@ == (ViewerCertificateView { ssl_support_method: r@.ssl_support_method, ..self@ }),
            r@.ssl_support_method matches Some(v) && v@ == ssl_supported_method_name(ssl_support),
    {
        Self {
            phantom_data: PhantomData,
            ssl_support_method: Some(ssl_support.into()),
            min_protocol_version: self.min_protocol_version,
            cloudfront_default_cert: self.cloudfront_default_cert,
            acm_cert_arn: self.acm_cert_arn,
            iam_cert_id: self.iam_cert_id,
        }
    }

    pub fn build(self) -> (r: ViewerCertificate)
        ensures
            r@ == self@,
    {
        self.build_internal()
    }
}

impl ViewerCertificateBuilder<ViewerCertificateStateEndState> {
    pub fn build(self) -> (r: ViewerCertificate)
        ensures
            r@ == self@,
    {
        self.build_internal()
    }
}

/// Which cookies are part of the cache key and are forwarded to the origin.
pub enum Cookies {
    NoneIncluded,
    Whitelist(Vec<String>),
    AllExcept(Vec<String>),
    All,
}

/// Which query strings are part of the cache key and are forwarded to the origin.
pub enum QueryString {
    NoneIncluded,
    Whitelist(Vec<String>),
    AllExcept(Vec<String>),
    All,
}

/// Which headers are part of the cache key and are forwarded to the origin.
pub enum Headers {
    NoneIncluded,
    Whitelist(Vec<String>),
}

/// `c` is the cookie configuration that `cookies` asks for.
pub open spec fn cookies_config_for(c: CookiesConfig, cookies: Cookies) -> bool {
    match cookies {
        Cookies::NoneIncluded => c@.cookie_behavior@ == "none"@ && c@.cookies is None,
        Cookies::Whitelist(list) => c@.cookie_behavior@ == "whitelist"@ && c@.cookies == Some(list),
        Cookies::AllExcept(list) => c@.cookie_behavior@ == "allExcept"@ && c@.cookies == Some(list),
        Cookies::All => c@.cookie_behavior@ == "all"@ && c@.cookies is None,
    }
}

/// `c` is the query string configuration that `query_string` asks for.
pub open spec fn query_strings_config_for(c: QueryStringsConfig, query_string: QueryString) -> bool {
    match query_string {
        QueryString::NoneIncluded => c@.query_strings_behavior@ == "none"@ && c@.query_strings is None,
        QueryString::Whitelist(list) => c@.query_strings_behavior@ == "whitelist"@ && c@.query_strings == Some(list),
        QueryString::AllExcept(list) => c@.query_strings_behavior@ == "allExcept"@ && c@.query_strings == Some(list),
        QueryString::All => c@.query_strings_behavior@ == "all"@ && c@.query_strings is None,
    }
}

/// `c` is the header configuration that `headers` asks for.
pub open spec fn headers_config_for(c: HeadersConfig, headers: Headers) -> bool {
    match headers {
        Headers::NoneIncluded => c@.headers_behavior@ == "none"@ && c@.headers is None,
        Headers::Whitelist(list) => c@.headers_behavior@ == "whitelist"@ && c@.headers == Some(list),
    }
}

/// Builder for cache key and forwarding parameters.
///
/// Configures which request parameters (cookies, headers, query strings) are included in the cache key and forwarded to the origin.
pub struct ParametersInCacheKeyAndForwardedToOriginBuilder {
    pub(crate) cookies_config: CookiesConfig,
    pub(crate) headers_config: HeadersConfig,
    pub(crate) query_strings_config: QueryStringsConfig,
    pub(crate) accept_encoding_gzip: bool,
    pub(crate) accept_encoding_brotli: Option<bool>,
}

impl View for ParametersInCacheKeyAndForwardedToOriginBuilder {
    type V = ParametersInCacheKeyAndForwardedToOriginView;

    open(crate) spec fn view(&self) -> ParametersInCacheKeyAndForwardedToOriginView {
        ParametersInCacheKeyAndForwardedToOriginView {
            cookies_config: self.cookies_config,
            accept_encoding_brotli: self.accept_encoding_brotli,
            accept_encoding_gzip: self.accept_encoding_gzip,
            headers_config: self.headers_config,
            query_strings_config: self.query_strings_config,
        }
    }
}

impl ParametersInCacheKeyAndForwardedToOriginBuilder {
    pub fn new(accept_encoding_gzip: bool, cookies: Cookies, query_string: QueryString, headers: Headers) -> (r: Self)
        ensures
            cookies_config_for(r@.cookies_config, cookies),
            query_strings_config_for(r@.query_strings_config, query_string),
            headers_config_for(r@.headers_config, headers),
            r@.accept_encoding_gzip == accept_encoding_gzip,
            r@.accept_encoding_brotli is None,
    {
        let ghost cookies_asked = cookies;
        let ghost query_asked = query_string;
        let ghost headers_asked = headers;
        let cookies_config = match cookies {
            Cookies::NoneIncluded => CookiesConfig { cookie_behavior: String::from_str("none"), cookies: None },
            Cookies::Whitelist(list) => CookiesConfig { cookie_behavior: String::from_str("whitelist"), cookies: Some(list) },
            Cookies::AllExcept(list) => CookiesConfig { cookie_behavior: String::from_str("allExcept"), cookies: Some(list) },
            Cookies::All => CookiesConfig { cookie_behavior: String::from_str("all"), cookies: None },
        };
        let query_strings_config = match query_string {
            QueryString::NoneIncluded => QueryStringsConfig {
                query_strings_behavior: String::from_str("none"),
                query_strings: None,
            },
            QueryString::Whitelist(list) => QueryStringsConfig {
                query_strings_behavior: String::from_str("whitelist"),
                query_strings: Some(list),
            },
            QueryString::AllExcept(list) => QueryStringsConfig {
                query_strings_behavior: String::from_str("allExcept"),
                query_strings: Some(list),
            },
            QueryString::All => QueryStringsConfig { query_strings_behavior: String::from_str("all"), query_strings: None },
        };
        let headers_config = match headers {
            Headers::NoneIncluded => HeadersConfig { headers_behavior: String::from_str("none"), headers: None },
            Headers::Whitelist(list) => HeadersConfig { headers_behavior: String::from_str("whitelist"), headers: Some(list) },
        };
        proof {
            reveal_strlit("none");
            reveal_strlit("whitelist");
            reveal_strlit("allExcept");
            reveal_strlit("all");
        }
        Self { cookies_config, headers_config, query_strings_config, accept_encoding_gzip, accept_encoding_brotli: None }
    }

    pub fn accept_encoding_brotli(self, accept: bool) -> (r: Self)
        ensures
            r@ == (ParametersInCacheKeyAndForwardedToOriginView { accept_encoding_brotli: Some(accept), ..self@ }),
    {
        Self { accept_encoding_brotli: Some(accept), ..self }
    }

    pub fn build(self) -> (r: ParametersInCacheKeyAndForwardedToOrigin)
        ensures
            r@ == self@,
    {
        ParametersInCacheKeyAndForwardedToOrigin {
            cookies_config: self.cookies_config,
            accept_encoding_brotli: self.accept_encoding_brotli,
            accept_encoding_gzip: self.accept_encoding_gzip,
            headers_config: self.headers_config,
            query_strings_config: self.query_strings_config,
        }
    }
}

/// Builder for CloudFront cache policies.
pub struct CachePolicyBuilder {
    pub(crate) id: Id,
    pub(crate) name: String,
    pub(crate) default_ttl: u32,
    pub(crate) min_ttl: u32,
    pub(crate) max_ttl: u32,
    pub(crate) cache_params: ParametersInCacheKeyAndForwardedToOrigin,
}

/// What a [`CachePolicyBuilder`] holds.
pub struct CachePolicyBuilderView {
    pub id: Id,
    pub name: String,
    pub default_ttl: u32,
    pub min_ttl: u32,
    pub max_ttl: u32,
    pub cache_params: ParametersInCacheKeyAndForwardedToOrigin,
}

impl View for CachePolicyBuilder {
    type V = CachePolicyBuilderView;

    open(crate) spec fn view(&self) -> CachePolicyBuilderView {
        CachePolicyBuilderView {
            id: self.id,
            name: self.name,
            default_ttl: self.default_ttl,
            min_ttl: self.min_ttl,
            max_ttl: self.max_ttl,
            cache_params: self.cache_params,
        }
    }
}

impl CachePolicyBuilder {
    /// Creates a new CloudFront cache policy builder.
    ///
    /// # Arguments
    /// * `id` - Unique identifier for the cache policy
    /// * `unique_name` - Name for the cache policy (must be unique)
    /// * `default_ttl` - Default time to live in seconds
    /// * `min_ttl` - Minimum time to live in seconds
    /// * `max_ttl` - Maximum time to live in seconds
    /// * `cache_params` - Parameters for cache key and origin forwarding
    pub fn new(
        id: &str,
        unique_name: &str,
        default_ttl: u32,
        min_ttl: u32,
        max_ttl: u32,
        cache_params: ParametersInCacheKeyAndForwardedToOrigin,
    ) -> (r: Self)
        ensures
            r@.id.0@ == id@,
            r@.name@ == unique_name@,
            r@.default_ttl == default_ttl,
            r@.min_ttl == min_ttl,
            r@.max_ttl == max_ttl,
            r@.cache_params == cache_params,
    {
        Self {
            id: Id(String::from_str(id)),
            name: String::from_str(unique_name),
            default_ttl,
            min_ttl,
            max_ttl,
            cache_params,
        }
    }

    /// Adds the cache policy to the stack.
    pub fn build(self, stack_builder: &mut StackBuilder) -> (r: CachePolicyRef)
        ensures
            final(stack_builder)@ == (StackBuilderView {
                resources: old(stack_builder)@.resources.push(final(stack_builder)@.resources.last()),
                ..old(stack_builder)@
            }),
            final(stack_builder)@.resources.last() matches Resource::CachePolicy(p) && {
                &&& p@.id == self@.id
                &&& p@.resource_id@ == r@.resource_id
                &&& p@.resource_type@ == "AWS::CloudFront::CachePolicy"@
                &&& p@.properties@.config@ == (crate::cloudfront::CachePolicyConfigView {
                    default_ttl: self@.default_ttl,
                    min_ttl: self@.min_ttl,
                    max_ttl: self@.max_ttl,
                    name: self@.name,
                    params_in_cache_key_and_forwarded: self@.cache_params,
                })
            },
            is_generated_id(r@.resource_id, "CachePolicy"@),
            r@.ref_name is None,
            r@.arn_value is None,
    {
        let resource_id = Resource::generate_id("CachePolicy");
        stack_builder.add_resource(
            Resource::CachePolicy(
                CachePolicy {
                    id: self.id,
                    resource_id: resource_id.clone(),
                    resource_type: String::from_str("AWS::CloudFront::CachePolicy"),
                    properties: CachePolicyProperties {
                        config: CachePolicyConfig {
                            default_ttl: self.default_ttl,
                            min_ttl: self.min_ttl,
                            max_ttl: self.max_ttl,
                            name: self.name,
                            params_in_cache_key_and_forwarded: self.cache_params,
                        },
                    },
                },
            ),
        );
        CachePolicyRef::internal_new(resource_id)
    }
}

/// Builder for CloudFront Origin Access Control.
///
/// Controls access from CloudFront to origins like S3 buckets.
pub struct OriginAccessControlBuilder {
    pub(crate) id: Id,
    pub(crate) name: String,
    pub(crate) origin_access_control_type: OriginAccessControlType,
    pub(crate) signing_behavior: SigningBehavior,
    pub(crate) signing_protocol: SigningProtocol,
}

/// What an [`OriginAccessControlBuilder`] holds.
pub struct OriginAccessControlBuilderView {
    pub id: Id,
    pub name: String,
    pub origin_access_control_type: OriginAccessControlType,
    pub signing_behavior: SigningBehavior,
    pub signing_protocol: SigningProtocol,
}

impl View for OriginAccessControlBuilder {
    type V = OriginAccessControlBuilderView;

    open(crate) spec fn view(&self) -> OriginAccessControlBuilderView {
        OriginAccessControlBuilderView {
            id: self.id,
            name: self.name,
            origin_access_control_type: self.origin_access_control_type,
            signing_behavior: self.signing_behavior,
            signing_protocol: self.signing_protocol,
        }
    }
}

impl OriginAccessControlBuilder {
    /// Creates a new CloudFront Origin Access Control builder.
    ///
    /// # Arguments
    /// * `id` - Unique identifier for the origin access control
    /// * `name` - Name of the origin access control
    /// * `origin_access_control_type` - Type of origin (S3, MediaStore, Lambda, etc.)
    /// * `signing_behavior` - When to sign requests (Never, NoOverride, Always)
    /// * `signing_protocol` - Protocol for signing requests
    pub fn new(
        id: &str,
        name: &str,
        origin_access_control_type: OriginAccessControlType,
        signing_behavior: SigningBehavior,
        signing_protocol: SigningProtocol,
    ) -> (r: Self)
        ensures
            r@.id.0@ == id@,
            r@.name@ == name@,
            r@.origin_access_control_type == origin_access_control_type,
            r@.signing_behavior == signing_behavior,
            r@.signing_protocol == signing_protocol,
    {
        Self {
            id: Id(String::from_str(id)),
            name: String::from_str(name),
            origin_access_control_type,
            signing_behavior,
            signing_protocol,
        }
    }

    /// Adds the origin access control to the stack.
    pub fn build(self, stack_builder: &mut StackBuilder) -> (r: OriginAccessControlRef)
        ensures
            final(stack_builder)@ == (StackBuilderView {
                resources: old(stack_builder)@.resources.push(final(stack_builder)@.resources.last()),
                ..old(stack_builder)@
            }),
            final(stack_builder)@.resources.last() matches Resource::OriginAccessControl(o) && {
                let c = o@.properties@.config@;
                &&& o@.id == self@.id
                &&& o@.resource_id@ == r@.resource_id
                &&& o@.resource_type@ == "AWS::CloudFront::OriginAccessControl"@
                &&& c.name == self@.name
                &&& c.origin_access_control_type@ == origin_access_control_type_name(self@.origin_access_control_type)
                &&& c.signing_behavior@ == signing_behavior_name(self@.signing_behavior)
                &&& c.signing_protocol@ == signing_protocol_name(self@.signing_protocol)
            },
            is_generated_id(r@.resource_id, "OAC"@),
            r@.ref_name is None,
            r@.arn_value is None,
    {
        let resource_id = Resource::generate_id("OAC");
        stack_builder.add_resource(
            Resource::OriginAccessControl(
                OriginAccessControl {
                    id: self.id,
                    resource_id: resource_id.clone(),
                    resource_type: String::from_str("AWS::CloudFront::OriginAccessControl"),
                    properties: OriginControlProperties {
                        config: OriginAccessControlConfig {
                            name: self.name,
                            origin_access_control_type: self.origin_access_control_type.into(),
                            signing_behavior: self.signing_behavior.into(),
                            signing_protocol: self.signing_protocol.into(),
                        },
                    },
                },
            ),
        );
        OriginAccessControlRef::internal_new(resource_id)
    }

}

/// The states of an [`OriginBuilder`]: no kind of origin chosen yet, an S3 bucket, or a custom origin.
pub trait OriginState {}

pub struct OriginStartState {}

pub struct OriginS3OriginState {}

pub struct OriginCustomOriginState {}

impl OriginState for OriginStartState {}

impl OriginState for OriginS3OriginState {}

impl OriginState for OriginCustomOriginState {}

/// Builder for CloudFront distribution origins.
pub struct OriginBuilder<T: OriginState> {
    pub(crate) phantom_data: PhantomData<T>,
    pub(crate) id: String,
    pub(crate) bucket_arn: Option<Value>,
    pub(crate) bucket_ref: Option<Value>,
    pub(crate) domain_name: Option<Value>,
    pub(crate) connection_attempts: Option<u8>,
    pub(crate) connection_timeout: Option<u16>,
    pub(crate) response_completion_timeout: Option<u16>,
    pub(crate) origin_access_control_id: Option<Value>,
    pub(crate) origin_path: Option<String>,
    pub(crate) s3origin_config: Option<S3OriginConfig>,
    pub(crate) origin_custom_headers: Option<Vec<OriginCustomHeader>>,
    pub(crate) vpc_origin_config: Option<VpcOriginConfig>,
    pub(crate) custom_origin_config: Option<CustomOriginConfig>,
}

/// What an [`OriginBuilder`] holds.
pub struct OriginBuilderView {
    pub id: String,
    pub bucket_arn: Option<Value>,
    pub bucket_ref: Option<Value>,
    pub domain_name: Option<Value>,
    pub connection_attempts: Option<u8>,
    pub connection_timeout: Option<u16>,
    pub response_completion_timeout: Option<u16>,
    pub origin_access_control_id: Option<Value>,
    pub origin_path: Option<String>,
    pub s3origin_config: Option<S3OriginConfig>,
    pub origin_custom_headers: Option<Vec<OriginCustomHeader>>,
    pub vpc_origin_config: Option<VpcOriginConfig>,
    pub custom_origin_config: Option<CustomOriginConfig>,
}

impl<T: OriginState> View for OriginBuilder<T> {
    type V = OriginBuilderView;

    open(crate) spec fn view(&self) -> OriginBuilderView {
        OriginBuilderView {
            id: self.id,
            bucket_arn: self.bucket_arn,
            bucket_ref: self.bucket_ref,
            domain_name: self.domain_name,
            connection_attempts: self.connection_attempts,
            connection_timeout: self.connection_timeout,
            response_completion_timeout: self.response_completion_timeout,
            origin_access_control_id: self.origin_access_control_id,
            origin_path: self.origin_path,
            s3origin_config: self.s3origin_config,
            origin_custom_headers: self.origin_custom_headers,
            vpc_origin_config: self.vpc_origin_config,
            custom_origin_config: self.custom_origin_config,
        }
    }
}

/// The origin that the builder state `b` describes, without a bucket policy.
pub open spec fn origin_of(b: OriginBuilderView) -> crate::cloudfront::OriginView {
    crate::cloudfront::OriginView {
        id: b.id,
        s3_bucket_policy: None,
        domain_name: b.domain_name.unwrap(),
        connection_attempts: b.connection_attempts,
        connection_timeout: b.connection_timeout,
        origin_access_control_id: b.origin_access_control_id,
        origin_path: b.origin_path,
        response_completion_timeout: b.response_completion_timeout,
        s3origin_config: b.s3origin_config,
        origin_custom_headers: b.origin_custom_headers,
        vpc_origin_config: b.vpc_origin_config,
        custom_origin_config: b.custom_origin_config,
    }
}

/// `p` is the bucket policy that lets CloudFront read the objects of the bucket of the S3 origin `b`.
pub open spec fn origin_policy_made(p: BucketPolicy, b: OriginBuilderView) -> bool {
    let props = p@.properties@;
    let doc = props.policy_document@;
    &&& p@.id.0@ == b.id@ + "-website-s3-policy"@
    &&& is_generated_id(p@.resource_id@, "S3BucketPolicy"@)
    &&& p@.resource_type@ == "AWS::S3::BucketPolicy"@
    &&& props.bucket_name@ == b.bucket_ref.unwrap()@
    &&& doc.version@ == crate::iam::policy_version()
    &&& doc.statements@.len() == 1
    &&& {
        let st = doc.statements@[0]@;
        &&& crate::text::views(st.action@) == seq!["s3:GetObject"@]
        &&& st.effect@ == "Allow"@
        &&& st.principal matches Some(Principal::Service(sp)) && sp@.service@ == "cloudfront.amazonaws.com"@
        &&& st.resource matches Some(res) && json_views(res@) == seq![
            join_json(""@, seq![b.bucket_arn.unwrap()@, JsonView::String("/*"@)]),
        ]
        &&& st.condition is None
    }
}

impl OriginBuilder<OriginStartState> {
    pub fn new(origin_id: &str) -> (r: Self)
        ensures
            r@.id@ == origin_id@,
            r@.bucket_arn is None,
            r@.bucket_ref is None,
            r@.domain_name is None,
            r@.connection_attempts is None,
            r@.connection_timeout is None,
            r@.response_completion_timeout is None,
            r@.origin_access_control_id is None,
            r@.origin_path is None,
            r@.s3origin_config is None,
            r@.origin_custom_headers is None,
            r@.vpc_origin_config is None,
            r@.custom_origin_config is None,
    {
        Self {
            phantom_data: PhantomData,
            id: String::from_str(origin_id),
            bucket_arn: None,
            bucket_ref: None,
            domain_name: None,
            connection_attempts: None,
            connection_timeout: None,
            origin_access_control_id: None,
            origin_path: None,
            response_completion_timeout: None,
            s3origin_config: None,
            origin_custom_headers: None,
            vpc_origin_config: None,
            custom_origin_config: None,
        }
    }

    /// Configures an S3 bucket as the origin.
    ///
    /// Building the origin then creates a bucket policy allowing CloudFront access via Origin Access Control.
    pub fn s3_origin(
        self,
        bucket: &BucketRef,
        oac: &OriginAccessControlRef,
        origin_read_timeout: Option<S3OriginReadTimeout>,
    ) -> (r: OriginBuilder<OriginS3OriginState>)
        requires
            !(bucket@.ref_name is Some && bucket@.arn_value is Some),
            !(oac@.ref_name is Some && oac@.arn_value is Some),
        ensures
            r@ == (OriginBuilderView {
                bucket_arn: r@.bucket_arn,
                bucket_ref: r@.bucket_ref,
                domain_name: r@.domain_name,
                origin_access_control_id: r@.origin_access_control_id,
                s3origin_config: r@.s3origin_config,
                vpc_origin_config: None,
                custom_origin_config: None,
                ..self@
            }),
            r@.bucket_arn matches Some(a) && a@ == crate::shared::arn_json(bucket@.resource_id, bucket@.arn_value),
            r@.bucket_ref matches Some(a) && a@ == crate::shared::ref_json(bucket@.resource_id, bucket@.ref_name),
            r@.domain_name matches Some(d) && d@ == get_att_json(bucket@.resource_id, "RegionalDomainName"@),
            r@.origin_access_control_id matches Some(o) && o@ == get_att_json(oac@.resource_id, "Id"@),
            r@.s3origin_config matches Some(c) && c@.origin_read_timeout == match origin_read_timeout {
                Some(t) => Some(t.0),
                None => None,
            },
    {
        let timeout = match origin_read_timeout {
            Some(t) => Some(t.0),
            None => None,
        };
        let s3origin_config = S3OriginConfig { origin_read_timeout: timeout };
        let domain = bucket.get_att("RegionalDomainName");
        OriginBuilder {
            phantom_data: PhantomData,
            id: self.id,
            bucket_arn: Some(bucket.get_arn()),
            bucket_ref: Some(bucket.get_ref()),
            domain_name: Some(domain),
            connection_attempts: self.connection_attempts,
            connection_timeout: self.connection_timeout,
            origin_access_control_id: Some(oac.get_att("Id")),
            origin_path: self.origin_path,
            response_completion_timeout: self.response_completion_timeout,
            origin_custom_headers: self.origin_custom_headers,
            s3origin_config: Some(s3origin_config),
            vpc_origin_config: None,
            custom_origin_config: None,
        }
    }

    /// Configures a custom origin.
    pub fn custom_origin(self, domain: &str, policy: OriginProtocolPolicy) -> (r: OriginBuilder<OriginCustomOriginState>)
        ensures
            r@ == (OriginBuilderView {
                domain_name: r@.domain_name,
                custom_origin_config: r@.custom_origin_config,
                vpc_origin_config: None,
                origin_access_control_id: None,
                s3origin_config: None,
                bucket_arn: None,
                bucket_ref: None,
                ..self@
            }),
            r@.domain_name matches Some(d) && d@ == JsonView::String(domain@),
            r@.custom_origin_config matches Some(c) && {
                &&& c@.origin_protocol_policy@ == origin_protocol_policy_name(policy)
                &&& c@.http_port is None
                &&& c@.https_port is None
                &&& c@.ip_address_type is None
                &&& c@.origin_keep_alive_timeout is None
                &&& c@.origin_read_timeout is None
                &&& c@.origin_ssl_protocols is None
            },
    {
        let custom_origin_config = CustomOriginConfig {
            origin_protocol_policy: policy.into(),
            http_port: None,
            https_port: None,
            ip_address_type: None,
            origin_keep_alive_timeout: None,
            origin_read_timeout: None,
            origin_ssl_protocols: None,
        };
        OriginBuilder {
            phantom_data: PhantomData,
            id: self.id,
            domain_name: Some(string_value(domain)),
            connection_attempts: self.connection_attempts,
            connection_timeout: self.connection_timeout,
            origin_path: self.origin_path,
            response_completion_timeout: self.response_completion_timeout,
            origin_custom_headers: self.origin_custom_headers,
            custom_origin_config: Some(custom_origin_config),
            vpc_origin_config: None,
            origin_access_control_id: None,
            s3origin_config: None,
            bucket_arn: None,
            bucket_ref: None,
        }
    }
}

impl<T: OriginState> OriginBuilder<T> {
    pub fn connection_attempts(self, attempts: ConnectionAttempts) -> (r: Self)
        ensures
            r@ == (OriginBuilderView { connection_attempts: Some(attempts.0), ..self@ }),
    {
        Self { connection_attempts: Some(attempts.0), ..self }
    }

    pub fn timeouts(self, timeouts: CfConnectionTimeout) -> (r: Self)
        ensures
            r@ == (OriginBuilderView {
                connection_timeout: timeouts.0,
                response_completion_timeout: timeouts.1,
                ..self@
            }),
    {
        Self { connection_timeout: timeouts.0, response_completion_timeout: timeouts.1, ..self }
    }

    pub fn origin_path(self, path: OriginPath) -> (r: Self)
        ensures
            r@ == (OriginBuilderView { origin_path: Some(path.0), ..self@ }),
    {
        Self { origin_path: Some(path.0), ..self }
    }

    fn build_internal(self) -> (r: Origin)
        requires
            self@.domain_name is Some,
        ensures
            r@ == origin_of(self@),
    {
        let domain_name = match self.domain_name {
            Some(d) => d,
            None => {
                assert(false);
                Value::Null
            },
        };
        Origin {
            id: self.id,
            s3_bucket_policy: None,
            domain_name,
            connection_attempts: self.connection_attempts,
            connection_timeout: self.connection_timeout,
            origin_access_control_id: self.origin_access_control_id,
            origin_path: self.origin_path,
            response_completion_timeout: self.response_completion_timeout,
            s3origin_config: self.s3origin_config,
            origin_custom_headers: self.origin_custom_headers,
            vpc_origin_config: self.vpc_origin_config,
            custom_origin_config: self.custom_origin_config,
        }
    }
}

/// The custom origin configuration of the builder state `b`, which a custom origin always has.
pub open spec fn custom_config(b: OriginBuilderView) -> CustomOriginConfigView {
    b.custom_origin_config.unwrap()@
}

impl OriginBuilder<OriginCustomOriginState> {
    fn take_config(self) -> (r: (CustomOriginConfig, Self))
        requires
            self@.custom_origin_config is Some,
        ensures
            r.0@ == custom_config(self@),
            r.1@ == (OriginBuilderView { custom_origin_config: None, ..self@ }),
    {
        match self.custom_origin_config {
            Some(c) => (c, OriginBuilder { custom_origin_config: None, ..self }),
            None => {
                assert(false);
                (
                    CustomOriginConfig {
                        origin_protocol_policy: String::new(),
                        http_port: None,
                        https_port: None,
                        ip_address_type: None,
                        origin_keep_alive_timeout: None,
                        origin_read_timeout: None,
                        origin_ssl_protocols: None,
                    },
                    OriginBuilder { custom_origin_config: None, ..self },
                )
            },
        }
    }

    pub fn ip_address_type(self, address_type: IpAddressType) -> (r: Self)
        requires
            self@.custom_origin_config is Some,
        ensures
            r@ == (OriginBuilderView { custom_origin_config: r@.custom_origin_config, ..self@ }),
            r@.custom_origin_config matches Some(c) && c@ == (CustomOriginConfigView {
                ip_address_type: c@.ip_address_type,
                ..custom_config(self@)
            }),
            custom_config(r@).ip_address_type matches Some(t) && t@ == ip_address_type_name(address_type),
    {
        let (mut config, rest) = self.take_config();
        config.ip_address_type = Some(address_type.into());
        OriginBuilder { custom_origin_config: Some(config), ..rest }
    }

    pub fn http_port(self, port: u16) -> (r: Self)
        requires
            self@.custom_origin_config is Some,
        ensures
            r@ == (OriginBuilderView { custom_origin_config: r@.custom_origin_config, ..self@ }),
            r@.custom_origin_config matches Some(c) && c@ == (CustomOriginConfigView {
                http_port: Some(port),
                ..custom_config(self@)
            }),
    {
        let (mut config, rest) = self.take_config();
        config.http_port = Some(port);
        OriginBuilder { custom_origin_config: Some(config), ..rest }
    }

    pub fn https_port(self, port: u16) -> (r: Self)
        requires
            self@.custom_origin_config is Some,
        ensures
            r@ == (OriginBuilderView { custom_origin_config: r@.custom_origin_config, ..self@ }),
            r@.custom_origin_config matches Some(c) && c@ == (CustomOriginConfigView {
                https_port: Some(port),
                ..custom_config(self@)
            }),
    {
        let (mut config, rest) = self.take_config();
        config.https_port = Some(port);
        OriginBuilder { custom_origin_config: Some(config), ..rest }
    }

    pub fn origin_keep_alive_timeout(self, timeout: u8) -> (r: Self)
        requires
            self@.custom_origin_config is Some,
        ensures
            r@ == (OriginBuilderView { custom_origin_config: r@.custom_origin_config, ..self@ }),
            r@.custom_origin_config matches Some(c) && c@ == (CustomOriginConfigView {
                origin_keep_alive_timeout: Some(timeout),
                ..custom_config(self@)
            }),
    {
        let (mut config, rest) = self.take_config();
        config.origin_keep_alive_timeout = Some(timeout);
        OriginBuilder { custom_origin_config: Some(config), ..rest }
    }

    pub fn origin_read_timeout(self, timeout: u8) -> (r: Self)
        requires
            self@.custom_origin_config is Some,
        ensures
            r@ == (OriginBuilderView { custom_origin_config: r@.custom_origin_config, ..self@ }),
            r@.custom_origin_config matches Some(c) && c@ == (CustomOriginConfigView {
                origin_read_timeout: Some(timeout),
                ..custom_config(self@)
            }),
    {
        let (mut config, rest) = self.take_config();
        config.origin_read_timeout = Some(timeout);
        OriginBuilder { custom_origin_config: Some(config), ..rest }
    }

    pub fn add_origin_ssl_protocol(self, protocol: String) -> (r: Self)
        requires
            self@.custom_origin_config is Some,
        ensures
            r@ == (OriginBuilderView { custom_origin_config: r@.custom_origin_config, ..self@ }),
            r@.custom_origin_config matches Some(c) && c@ == (CustomOriginConfigView {
                origin_ssl_protocols: c@.origin_ssl_protocols,
                ..custom_config(self@)
            }),
            custom_config(r@).origin_ssl_protocols matches Some(v) && v@ == match custom_config(self@).origin_ssl_protocols {
                Some(old) => old@.push(protocol),
                None => seq![protocol],
            },
    {
        let (mut config, rest) = self.take_config();
        let protocols = match config.origin_ssl_protocols {
            Some(protocols) => {
                let mut protocols = protocols;
                protocols.push(protocol);
                protocols
            },
            None => {
                let mut protocols = Vec::new();
                protocols.push(protocol);
                protocols
            },
        };
        config.origin_ssl_protocols = Some(protocols);
        OriginBuilder { custom_origin_config: Some(config), ..rest }
    }

    pub fn build(self) -> (r: Origin)
        requires
            self@.domain_name is Some,
        ensures
            r@ == origin_of(self@),
    {
        self.build_internal()
    }
}

impl OriginBuilder<OriginS3OriginState> {
    /// The origin, carrying the bucket policy that lets CloudFront read the bucket; the distribution
    /// that uses the origin adds the policy to the stack.
    pub fn build(self) -> (r: Origin)
        requires
            self@.bucket_ref is Some,
            self@.bucket_arn is Some,
            self@.domain_name is Some,
        ensures
            r@ == (crate::cloudfront::OriginView { s3_bucket_policy: r@.s3_bucket_policy, ..origin_of(self@) }),
            r@.s3_bucket_policy matches Some(p) && origin_policy_made(p, self@),
    {
        let ghost b = self@;
        let bucket_ref = match &self.bucket_ref {
            Some(v) => v.deep_copy(),
            None => {
                assert(false);
                Value::Null
            },
        };
        let bucket_arn = match &self.bucket_arn {
            Some(v) => v.deep_copy(),
            None => {
                assert(false);
                Value::Null
            },
        };
        let mut parts: Vec<Value> = Vec::new();
        parts.push(bucket_arn);
        parts.push(string_value("/*"));
        proof {
            reveal_with_fuel(json_views, 3);
            assert(parts@.drop_last().drop_last() =~= Seq::<Value>::empty());
            assert(parts@.drop_last() =~= seq![parts@[0]]);
        }
        assert(json_views(parts@) =~= seq![b.bucket_arn.unwrap()@, JsonView::String("/*"@)]);
        let mut bucket_items: Vec<Value> = Vec::new();
        bucket_items.push(join("", parts));
        proof {
            reveal_with_fuel(json_views, 2);
            assert(bucket_items@.drop_last() =~= Seq::<Value>::empty());
        }
        assert(json_views(bucket_items@) =~= seq![join_json(""@, seq![b.bucket_arn.unwrap()@, JsonView::String("/*"@)])]);
        let mut actions: Vec<IamAction> = Vec::new();
        actions.push(IamAction(String::from_str("s3:GetObject")));
        assert(crate::iam::action_names(actions@) =~= seq!["s3:GetObject"@]);
        let statement = StatementBuilder::new(actions, Effect::Allow)
            .resources(bucket_items)
            .principal(Principal::Service(ServicePrincipal { service: String::from_str("cloudfront.amazonaws.com") }))
            .build();
        let mut statements: Vec<Statement> = Vec::new();
        statements.push(statement);
        let doc = PolicyDocumentBuilder::new(statements).build();
        let bucket_policy_id = crate::text::concat2(self.id.as_str(), "-website-s3-policy");
        let (_, s3_policy) = BucketPolicyBuilder::new_with_bucket_ref(bucket_policy_id.as_str(), bucket_ref, doc).raw_build();
        let mut origin = self.build_internal();
        origin.s3_bucket_policy = Some(s3_policy);
        origin
    }
}

/// Which HTTP methods a default cache behavior lets through.
pub enum DefaultCacheAllowedMethods {
    GetHead,
    GetHeadOptions,
    All,
}

/// The methods that a [`DefaultCacheAllowedMethods`] lets through, as CloudFormation writes them.
pub open spec fn allowed_method_names(v: DefaultCacheAllowedMethods) -> Seq<Seq<char>> {
    match v {
        DefaultCacheAllowedMethods::GetHead => seq![http_method_name(HttpMethod::Get), http_method_name(HttpMethod::Head)],
        DefaultCacheAllowedMethods::GetHeadOptions => seq![
            http_method_name(HttpMethod::Get),
            http_method_name(HttpMethod::Head),
            http_method_name(HttpMethod::Options),
        ],
        DefaultCacheAllowedMethods::All => seq![
            http_method_name(HttpMethod::Get),
            http_method_name(HttpMethod::Head),
            http_method_name(HttpMethod::Options),
            http_method_name(HttpMethod::Put),
            http_method_name(HttpMethod::Patch),
            http_method_name(HttpMethod::Post),
            http_method_name(HttpMethod::Delete),
        ],
    }
}

/// The methods whose responses a default cache behavior caches.
pub enum DefaultCacheCachedMethods {
    GetHead,
    GetHeadOptions,
}

/// The methods that a [`DefaultCacheCachedMethods`] caches, as CloudFormation writes them.
pub open spec fn cached_method_names(v: DefaultCacheCachedMethods) -> Seq<Seq<char>> {
    match v {
        DefaultCacheCachedMethods::GetHead => seq![http_method_name(HttpMethod::Get), http_method_name(HttpMethod::Head)],
        DefaultCacheCachedMethods::GetHeadOptions => seq![
            http_method_name(HttpMethod::Get),
            http_method_name(HttpMethod::Head),
            http_method_name(HttpMethod::Options),
        ],
    }
}

/// The names of the methods, in order.
pub open spec fn method_name_views(s: Seq<HttpMethod>) -> Seq<Seq<char>> {
    s.map_values(|m: HttpMethod| http_method_name(m))
}

/// The names of the methods, in order.
fn method_names(methods: Vec<HttpMethod>) -> (r: Vec<String>)
    ensures
        crate::text::views(r@) == method_name_views(methods@),
{
    let ghost all = methods@;
    let mut rest = methods;
    let mut out: Vec<String> = Vec::new();
    while rest.len() > 0
        invariant
            out@.len() + rest@.len() == all.len(),
            rest@ == all.skip(out@.len() as int),
            crate::text::views(out@) == method_name_views(all.take(out@.len() as int)),
        decreases rest@.len(),
    {
        let ghost k = out@.len() as int;
        let ghost before = out@;
        let m = rest.remove(0);
        assert(m == all[k]) by {
            assert(all.skip(k)[0] == all[k]);
        }
        let name = String::from(m);
        out.push(name);
        assert(crate::text::views(out@) =~= crate::text::views(before).push(name@));
        assert(method_name_views(all.take(k + 1)) =~= method_name_views(all.take(k)).push(http_method_name(all[k])));
        assert(rest@ =~= all.skip(out@.len() as int));
    }
    assert(all.take(all.len() as int) =~= all);
    out
}

impl vstd::std_specs::convert::FromSpecImpl<DefaultCacheAllowedMethods> for Vec<String> {
    open spec fn obeys_from_spec() -> bool {
        false
    }

    open spec fn from_spec(v: DefaultCacheAllowedMethods) -> Vec<String> {
        vstd::pervasive::arbitrary()
    }
}

impl From<DefaultCacheAllowedMethods> for Vec<String> {
    fn from(value: DefaultCacheAllowedMethods) -> (r: Vec<String>)
        ensures
            crate::text::views(r@) == allowed_method_names(value),
    {
        let mut methods: Vec<HttpMethod> = Vec::new();
        match value {
            DefaultCacheAllowedMethods::GetHead => {
                methods.push(HttpMethod::Get);
                methods.push(HttpMethod::Head);
            },
            DefaultCacheAllowedMethods::GetHeadOptions => {
                methods.push(HttpMethod::Get);
                methods.push(HttpMethod::Head);
                methods.push(HttpMethod::Options);
            },
            DefaultCacheAllowedMethods::All => {
                methods.push(HttpMethod::Get);
                methods.push(HttpMethod::Head);
                methods.push(HttpMethod::Options);
                methods.push(HttpMethod::Put);
                methods.push(HttpMethod::Patch);
                methods.push(HttpMethod::Post);
                methods.push(HttpMethod::Delete);
            },
        }
        let ghost ms = methods@;
        let r = method_names(methods);
        assert(method_name_views(ms) =~= allowed_method_names(value));
        r
    }
}

impl vstd::std_specs::convert::FromSpecImpl<DefaultCacheCachedMethods> for Vec<String> {
    open spec fn obeys_from_spec() -> bool {
        false
    }

    open spec fn from_spec(v: DefaultCacheCachedMethods) -> Vec<String> {
        vstd::pervasive::arbitrary()
    }
}

impl From<DefaultCacheCachedMethods> for Vec<String> {
    fn from(value: DefaultCacheCachedMethods) -> (r: Vec<String>)
        ensures
            crate::text::views(r@) == cached_method_names(value),
    {
        let mut methods: Vec<HttpMethod> = Vec::new();
        match value {
            DefaultCacheCachedMethods::GetHead => {
                methods.push(HttpMethod::Get);
                methods.push(HttpMethod::Head);
            },
            DefaultCacheCachedMethods::GetHeadOptions => {
                methods.push(HttpMethod::Get);
                methods.push(HttpMethod::Head);
                methods.push(HttpMethod::Options);
            },
        }
        let ghost ms = methods@;
        let r = method_names(methods);
        assert(method_name_views(ms) =~= cached_method_names(value));
        r
    }
}

/// Builder for CloudFront default cache behavior.
pub struct DefaultCacheBehaviorBuilder {
    pub(crate) target_origin_id: String,
    pub(crate) cache_policy_id: Value,
    pub(crate) viewer_protocol_policy: String,
    pub(crate) allowed_methods: Option<Vec<String>>,
    pub(crate) cached_methods: Option<Vec<String>>,
    pub(crate) compress: Option<bool>,
}

impl View for DefaultCacheBehaviorBuilder {
    type V = DefaultCacheBehaviorView;

    open(crate) spec fn view(&self) -> DefaultCacheBehaviorView {
        DefaultCacheBehaviorView {
            target_origin_id: self.target_origin_id,
            cache_policy_id: self.cache_policy_id,
            viewer_protocol_policy: self.viewer_protocol_policy,
            allowed_methods: self.allowed_methods,
            cached_methods: self.cached_methods,
            compress: self.compress,
        }
    }
}

impl DefaultCacheBehaviorBuilder {
    pub fn new(origin: &Origin, policy: &CachePolicyRef, viewer_protocol_policy: ViewerProtocolPolicy) -> (r: Self)
        requires
            !(policy@.ref_name is Some && policy@.arn_value is Some),
        ensures
            r@.target_origin_id@ == origin@.id@,
            r@.cache_policy_id@ == get_att_json(policy@.resource_id, "Id"@),
            r@.viewer_protocol_policy@ == viewer_protocol_policy_name(viewer_protocol_policy),
            r@.allowed_methods is None,
            r@.cached_methods is None,
            r@.compress is None,
    {
        Self {
            target_origin_id: String::from_str(origin.get_origin_id()),
            cache_policy_id: policy.get_att("Id"),
            viewer_protocol_policy: viewer_protocol_policy.into(),
            allowed_methods: None,
            cached_methods: None,
            compress: None,
        }
    }

    pub fn allowed_methods(self, methods: DefaultCacheAllowedMethods) -> (r: Self)
        ensures
            r@ == (DefaultCacheBehaviorView { allowed_methods: r@.allowed_methods, ..self@ }),
            r@.allowed_methods matches Some(v) && crate::text::views(v@) == allowed_method_names(methods),
    {
        Self { allowed_methods: Some(methods.into()), ..self }
    }

    pub fn cached_methods(self, methods: DefaultCacheCachedMethods) -> (r: Self)
        ensures
            r@ == (DefaultCacheBehaviorView { cached_methods: r@.cached_methods, ..self@ }),
            r@.cached_methods matches Some(v) && crate::text::views(v@) == cached_method_names(methods),
    {
        Self { cached_methods: Some(methods.into()), ..self }
    }

    pub fn compress(self, compress: bool) -> (r: Self)
        ensures
            r@ == (DefaultCacheBehaviorView { compress: Some(compress), ..self@ }),
    {
        Self { compress: Some(compress), ..self }
    }

    pub fn build(self) -> (r: DefaultCacheBehavior)
        ensures
            r@ == self@,
    {
        DefaultCacheBehavior {
            target_origin_id: self.target_origin_id,
            cache_policy_id: self.cache_policy_id,
            viewer_protocol_policy: self.viewer_protocol_policy,
            allowed_methods: self.allowed_methods,
            cached_methods: self.cached_methods,
            compress: self.compress,
        }
    }
}

/// The states of a [`DistributionBuilder`]: without origins, and with them.
pub trait DistributionState {}

pub struct DistributionStartState {}

pub struct DistributionOriginState {}

impl DistributionState for DistributionStartState {}

impl DistributionState for DistributionOriginState {}

/// Builder for CloudFront distributions.
///
/// Creates a CloudFront distribution with origins, cache behaviors, and other configuration.
pub struct DistributionBuilder<T: DistributionState> {
    pub(crate) phantom_data: PhantomData<T>,
    pub(crate) id: Id,
    pub(crate) enabled: bool,
    pub(crate) default_cache_behavior: DefaultCacheBehavior,
    pub(crate) price_class: Option<String>,
    pub(crate) http_version: Option<String>,
    pub(crate) aliases: Option<Vec<String>>,
    pub(crate) cnames: Option<Vec<String>>,
    pub(crate) ipv6_enabled: Option<bool>,
    pub(crate) viewer_certificate: Option<ViewerCertificate>,
    pub(crate) cache_behaviors: Option<Vec<CacheBehavior>>,
    pub(crate) default_root_object: Option<String>,
    pub(crate) origins: Option<Vec<Origin>>,
}

/// What a [`DistributionBuilder`] holds.
pub struct DistributionBuilderView {
    pub id: Id,
    pub enabled: bool,
    pub default_cache_behavior: DefaultCacheBehavior,
    pub price_class: Option<String>,
    pub http_version: Option<String>,
    pub aliases: Option<Vec<String>>,
    pub cnames: Option<Vec<String>>,
    pub ipv6_enabled: Option<bool>,
    pub viewer_certificate: Option<ViewerCertificate>,
    pub cache_behaviors: Option<Vec<CacheBehavior>>,
    pub default_root_object: Option<String>,
    pub origins: Option<Vec<Origin>>,
}

impl<T: DistributionState> View for DistributionBuilder<T> {
    type V = DistributionBuilderView;

    open(crate) spec fn view(&self) -> DistributionBuilderView {
        DistributionBuilderView {
            id: self.id,
            enabled: self.enabled,
            default_cache_behavior: self.default_cache_behavior,
            price_class: self.price_class,
            http_version: self.http_version,
            aliases: self.aliases,
            cnames: self.cnames,
            ipv6_enabled: self.ipv6_enabled,
            viewer_certificate: self.viewer_certificate,
            cache_behaviors: self.cache_behaviors,
            default_root_object: self.default_root_object,
            origins: self.origins,
        }
    }
}

/// `d` is the distribution with logical id `resource_id` that the builder state `b` describes,
/// apart from its origins.
pub open spec fn distribution_made(d: Distribution, b: DistributionBuilderView, resource_id: Seq<char>) -> bool {
    let c = d@.properties@.config@;
    &&& d@.id == b.id
    &&& d@.resource_id@ == resource_id
    &&& d@.resource_type@ == "AWS::CloudFront::Distribution"@
    &&& c.enabled == b.enabled
    &&& c.default_cache_behavior == b.default_cache_behavior
    &&& c.aliases == b.aliases
    &&& c.cache_behaviors == b.cache_behaviors
    &&& c.cnames == b.cnames
    &&& c.default_root_object@ == match b.default_root_object {
        Some(o) => o@,
        None => Seq::empty(),
    }
    &&& c.http_version == b.http_version
    &&& c.ipv6_enabled == b.ipv6_enabled
    &&& c.price_class == b.price_class
    &&& c.viewer_certificate == b.viewer_certificate
    &&& c.origin_groups is None
}

/// The condition that lets only the distribution with logical id `resource_id` use a bucket policy:
/// `{"StringEquals": {"AWS:SourceArn": "arn:aws:cloudfront::<account>:distribution/<id>"}}`.
pub open spec fn source_arn_condition_json(resource_id: Seq<char>) -> JsonView {
    JsonView::Object(
        seq![
            ("StringEquals"@, JsonView::Object(
                seq![
                    ("AWS:SourceArn"@, join_json(
                        ""@,
                        seq![
                            JsonView::String("arn:aws:cloudfront::"@),
                            get_ref_json("AWS::AccountId"@),
                            JsonView::String(":distribution/"@),
                            get_att_json(resource_id, "Id"@),
                        ],
                    )),
                ],
            )),
        ],
    )
}

/// The bucket policies that the origins carry, in the order of the origins.
pub open spec fn carried_policies(origins: Seq<Origin>) -> Seq<BucketPolicy>
    decreases origins.len(),
{
    if origins.len() == 0 {
        Seq::empty()
    } else {
        let rest = carried_policies(origins.drop_last());
        match origins.last()@.s3_bucket_policy {
            Some(p) => rest.push(p),
            None => rest,
        }
    }
}

/// `new` holds the statements of `old`, in order, each with the condition `condition` alone.
pub open spec fn statements_conditioned(new: Seq<Statement>, old: Seq<Statement>, condition: JsonView) -> bool {
    &&& new.len() == old.len()
    &&& forall|k: int| #![trigger new[k]] 0 <= k < new.len() ==> {
        &&& new[k]@.action == old[k]@.action
        &&& new[k]@.effect == old[k]@.effect
        &&& new[k]@.principal == old[k]@.principal
        &&& new[k]@.resource == old[k]@.resource
        &&& new[k]@.condition matches Some(c) && c@ == condition
    }
}

/// `new` is the bucket policy `old` with each of its statements under the condition `condition`.
pub open spec fn policy_conditioned(new: BucketPolicy, old: BucketPolicy, condition: JsonView) -> bool {
    &&& new@.id == old@.id
    &&& new@.resource_id == old@.resource_id
    &&& new@.resource_type == old@.resource_type
    &&& new@.properties@.bucket_name == old@.properties@.bucket_name
    &&& new@.properties@.policy_document@.version == old@.properties@.policy_document@.version
    &&& statements_conditioned(
        new@.properties@.policy_document@.statements@,
        old@.properties@.policy_document@.statements@,
        condition,
    )
}

/// `added` holds, in order, the bucket policies `policies`, each under the condition `condition`.
pub open spec fn policies_conditioned(added: Seq<Resource>, policies: Seq<BucketPolicy>, condition: JsonView) -> bool {
    &&& added.len() == policies.len()
    &&& forall|j: int| #![trigger added[j]] 0 <= j < added.len() ==> (added[j] matches Resource::BucketPolicy(p)
        && policy_conditioned(p, policies[j], condition))
}

/// `new` are the origins `old`, in order, without the bucket policies they carried.
pub open spec fn origins_stripped(new: Seq<Origin>, old: Seq<Origin>) -> bool {
    &&& new.len() == old.len()
    &&& forall|k: int| #![trigger new[k]] 0 <= k < new.len() ==> new[k]@ == (crate::cloudfront::OriginView {
        s3_bucket_policy: None,
        ..old[k]@
    })
}

/// What building the distribution `b` with origins does to the stack: after what it held come the
/// bucket policies that the origins carried, in order and each limited to this distribution, and
/// then the distribution, whose origins no longer carry them.
pub open spec fn distribution_built(before: StackBuilderView, after: StackBuilderView, b: DistributionBuilderView, r: crate::shared::RefView) -> bool {
    let origins = b.origins.unwrap()@;
    let policies = carried_policies(origins);
    let n = before.resources.len();
    &&& after.tags == before.tags
    &&& after.outputs == before.outputs
    &&& after.resources.len() == n + policies.len() + 1
    &&& after.resources.take(n as int) == before.resources
    &&& policies_conditioned(
        after.resources.subrange(n as int, (n + policies.len()) as int),
        policies,
        source_arn_condition_json(r.resource_id),
    )
    &&& after.resources.last() matches Resource::Distribution(d) && {
        &&& distribution_made(d, b, r.resource_id)
        &&& d@.properties@.config@.origins matches Some(os) && origins_stripped(os@, origins)
    }
    &&& is_generated_id(r.resource_id, "CloudFrontDistribution"@)
    &&& r.ref_name is None
    &&& r.arn_value is None
}

/// The condition under which only the distribution with logical id `resource_id` may use a bucket policy.
fn source_arn_condition(resource_id: &str) -> (r: Value)
    ensures
        r@ == source_arn_condition_json(resource_id@),
{
    let a = string_value("arn:aws:cloudfront::");
    let b = get_ref("AWS::AccountId");
    let c = string_value(":distribution/");
    let d = get_att(resource_id, "Id");
    let ghost views = seq![a@, b@, c@, d@];
    let mut parts: Vec<Value> = Vec::new();
    parts.push(a);
    parts.push(b);
    parts.push(c);
    parts.push(d);
    proof {
        let p = parts@;
        assert(p.drop_last().drop_last().drop_last().drop_last() =~= Seq::<Value>::empty());
        assert(json_views(p.drop_last().drop_last().drop_last()) =~= seq![views[0]]) by {
            reveal_with_fuel(json_views, 2);
        }
        assert(json_views(p.drop_last().drop_last()) =~= seq![views[0], views[1]]);
        assert(json_views(p.drop_last()) =~= seq![views[0], views[1], views[2]]);
        assert(json_views(p) =~= views);
    }
    let source_arn = join("", parts);
    single_member("StringEquals", single_member("AWS:SourceArn", source_arn))
}

/// The statements, in order, each with the condition `condition` alone.
fn condition_statements(statements: Vec<Statement>, condition: &Value) -> (r: Vec<Statement>)
    ensures
        statements_conditioned(r@, statements@, condition@),
{
    let ghost all = statements@;
    let mut rest = statements;
    let mut out: Vec<Statement> = Vec::new();
    while rest.len() > 0
        invariant
            out@.len() + rest@.len() == all.len(),
            rest@ == all.skip(out@.len() as int),
            statements_conditioned(out@, all.take(out@.len() as int), condition@),
        decreases rest@.len(),
    {
        let ghost k = out@.len() as int;
        let st = rest.remove(0);
        assert(st == all[k]) by {
            assert(all.skip(k)[0] == all[k]);
        }
        let Statement { action, effect, principal, resource, condition: _ } = st;
        out.push(Statement { action, effect, principal, resource, condition: Some(condition.deep_copy()) });
        assert(all.take(k + 1).drop_last() =~= all.take(k));
        assert(rest@ =~= all.skip(out@.len() as int));
    }
    assert(all.take(all.len() as int) =~= all);
    out
}

/// The bucket policy with each of its statements under the condition `condition`.
fn condition_policy(policy: BucketPolicy, condition: &Value) -> (r: BucketPolicy)
    ensures
        policy_conditioned(r, policy, condition@),
{
    let BucketPolicy { id, resource_id, resource_type, properties } = policy;
    let crate::s3::S3BucketPolicyProperties { bucket_name, policy_document } = properties;
    let crate::iam::PolicyDocument { version, statements } = policy_document;
    let statements = condition_statements(statements, condition);
    BucketPolicy {
        id,
        resource_id,
        resource_type,
        properties: crate::s3::S3BucketPolicyProperties {
            bucket_name,
            policy_document: crate::iam::PolicyDocument { version, statements },
        },
    }
}

proof fn lemma_carried_step(all: Seq<Origin>, k: int)
    requires
        0 <= k < all.len(),
    ensures
        carried_policies(all.take(k + 1)) == match all[k]@.s3_bucket_policy {
            Some(p) => carried_policies(all.take(k)).push(p),
            None => carried_policies(all.take(k)),
        },
{
    assert(all.take(k + 1).drop_last() =~= all.take(k));
    assert(all.take(k + 1).last() == all[k]);
}

impl DistributionBuilder<DistributionStartState> {
    /// Creates a new CloudFront distribution builder.
    ///
    /// # Arguments
    /// * `id` - Unique identifier for the distribution
    /// * `default_cache_behavior` - Default cache behavior for all requests
    pub fn new(id: &str, default_cache_behavior: DefaultCacheBehavior) -> (r: Self)
        ensures
            r@.id.0@ == id@,
            r@.enabled,
            r@.default_cache_behavior == default_cache_behavior,
            r@.aliases is None,
            r@.cache_behaviors is None,
            r@.cnames is None,
            r@.default_root_object is None,
            r@.http_version is None,
            r@.ipv6_enabled is None,
            r@.origins is None,
            r@.price_class is None,
            r@.viewer_certificate is None,
    {
        Self {
            phantom_data: PhantomData,
            id: Id(String::from_str(id)),
            enabled: true,
            default_cache_behavior,
            aliases: None,
            cache_behaviors: None,
            cnames: None,
            default_root_object: None,
            http_version: None,
            ipv6_enabled: None,
            origins: None,
            price_class: None,
            viewer_certificate: None,
        }
    }

    pub fn origins(self, origins: Vec<Origin>) -> (r: DistributionBuilder<DistributionOriginState>)
        ensures
            r@ == (DistributionBuilderView { origins: Some(origins), ..self@ }),
    {
        DistributionBuilder {
            phantom_data: PhantomData,
            origins: Some(origins),
            id: self.id,
            enabled: self.enabled,
            default_cache_behavior: self.default_cache_behavior,
            price_class: self.price_class,
            http_version: self.http_version,
            aliases: self.aliases,
            cnames: self.cnames,
            ipv6_enabled: self.ipv6_enabled,
            viewer_certificate: self.viewer_certificate,
            cache_behaviors: self.cache_behaviors,
            default_root_object: self.default_root_object,
        }
    }
}

impl DistributionBuilder<DistributionOriginState> {
    /// Adds the distribution to the stack, with, before it, the bucket policies that its S3 origins
    /// carry, each limited to requests from this distribution.
    pub fn build(self, stack_builder: &mut StackBuilder) -> (r: DistributionRef)
        requires
            self@.origins is Some,
        ensures
            distribution_built(old(stack_builder)@, final(stack_builder)@, self@, r@),
    {
        let ghost b = self@;
        let ghost start = stack_builder@;
        let DistributionBuilder {
            phantom_data,
            id,
            enabled,
            default_cache_behavior,
            price_class,
            http_version,
            aliases,
            cnames,
            ipv6_enabled,
            viewer_certificate,
            cache_behaviors,
            default_root_object,
            origins,
        } = self;
        let origins = match origins {
            Some(o) => o,
            None => {
                assert(false);
                Vec::new()
            },
        };
        let ghost all = origins@;
        let resource_id = Resource::generate_id("CloudFrontDistribution");
        let condition = source_arn_condition(resource_id.as_str());
        let mut rest = origins;
        let mut kept: Vec<Origin> = Vec::new();
        let ghost mut added: Seq<Resource> = Seq::empty();
        while rest.len() > 0
            invariant
                kept@.len() + rest@.len() == all.len(),
                rest@ == all.skip(kept@.len() as int),
                origins_stripped(kept@, all.take(kept@.len() as int)),
                policies_conditioned(added, carried_policies(all.take(kept@.len() as int)), condition@),
                stack_builder@ == (StackBuilderView { resources: start.resources + added, ..start }),
            decreases rest@.len(),
        {
            let ghost k = kept@.len() as int;
            let origin = rest.remove(0);
            assert(origin == all[k]) by {
                assert(all.skip(k)[0] == all[k]);
            }
            proof {
                lemma_carried_step(all, k);
            }
            let Origin {
                id: origin_id,
                s3_bucket_policy,
                domain_name,
                connection_attempts,
                connection_timeout,
                origin_access_control_id,
                origin_path,
                response_completion_timeout,
                s3origin_config,
                origin_custom_headers,
                vpc_origin_config,
                custom_origin_config,
            } = origin;
            match s3_bucket_policy {
                Some(policy) => {
                    let conditioned = condition_policy(policy, &condition);
                    let ghost resource = Resource::BucketPolicy(conditioned);
                    stack_builder.add_resource(Resource::BucketPolicy(conditioned));
                    proof {
                        added = added.push(resource);
                    }
                },
                None => {},
            }
            kept.push(
                Origin {
                    id: origin_id,
                    s3_bucket_policy: None,
                    domain_name,
                    connection_attempts,
                    connection_timeout,
                    origin_access_control_id,
                    origin_path,
                    response_completion_timeout,
                    s3origin_config,
                    origin_custom_headers,
                    vpc_origin_config,
                    custom_origin_config,
                },
            );
            assert(all.take(k + 1).drop_last() =~= all.take(k));
            assert(kept@.drop_last() =~= kept@.take(k));
            assert(rest@ =~= all.skip(kept@.len() as int));
            assert(stack_builder@.resources =~= start.resources + added);
        }
        assert(all.take(all.len() as int) =~= all);
        let ghost mid = stack_builder@;
        let rebuilt = DistributionBuilder {
            phantom_data,
            id,
            enabled,
            default_cache_behavior,
            price_class,
            http_version,
            aliases,
            cnames,
            ipv6_enabled,
            viewer_certificate,
            cache_behaviors,
            default_root_object,
            origins: Some(kept),
        };
        let r = rebuilt.build_internal(resource_id, stack_builder);
        proof {
            let n = start.resources.len();
            assert(stack_builder@.resources.take(n as int) =~= start.resources);
            assert(stack_builder@.resources.subrange(n as int, (n + added.len()) as int) =~= added);
        }
        r
    }
}

impl<T: DistributionState> DistributionBuilder<T> {
    pub fn add_cache_behavior(self, behavior: CacheBehavior) -> (r: Self)
        ensures
            r@ == (DistributionBuilderView { cache_behaviors: r@.cache_behaviors, ..self@ }),
            r@.cache_behaviors matches Some(v) && v@ == match self@.cache_behaviors {
                Some(old) => old@.push(behavior),
                None => seq![behavior],
            },
    {
        let behaviors = match self.cache_behaviors {
            Some(behaviors) => {
                let mut behaviors = behaviors;
                behaviors.push(behavior);
                behaviors
            },
            None => {
                let mut behaviors = Vec::new();
                behaviors.push(behavior);
                behaviors
            },
        };
        Self { cache_behaviors: Some(behaviors), ..self }
    }

    pub fn aliases(self, aliases: Vec<String>) -> (r: Self)
        ensures
            r@ == (DistributionBuilderView { aliases: Some(aliases), ..self@ }),
    {
        Self { aliases: Some(aliases), ..self }
    }

    pub fn cnames(self, cnames: Vec<String>) -> (r: Self)
        ensures
            r@ == (DistributionBuilderView { cnames: Some(cnames), ..self@ }),
    {
        Self { cnames: Some(cnames), ..self }
    }

    pub fn price_class(self, price_class: PriceClass) -> (r: Self)
        ensures
            r@ == (DistributionBuilderView { price_class: r@.price_class, ..self@ }),
            r@.price_class matches Some(p) && p@ == price_class_name(price_class),
    {
        Self { price_class: Some(price_class.into()), ..self }
    }

    pub fn http_version(self, http_version: HttpVersion) -> (r: Self)
        ensures
            r@ == (DistributionBuilderView { http_version: r@.http_version, ..self@ }),
            r@.http_version matches Some(h) && h@ == http_version_name(http_version),
    {
        Self { http_version: Some(http_version.into()), ..self }
    }

    pub fn ipv6_enabled(self, enabled: bool) -> (r: Self)
        ensures
            r@ == (DistributionBuilderView { ipv6_enabled: Some(enabled), ..self@ }),
    {
        Self { ipv6_enabled: Some(enabled), ..self }
    }

    pub fn viewer_certificate(self, viewer_certificate: ViewerCertificate) -> (r: Self)
        ensures
            r@ == (DistributionBuilderView { viewer_certificate: Some(viewer_certificate), ..self@ }),
    {
        Self { viewer_certificate: Some(viewer_certificate), ..self }
    }

    pub fn enabled(self, enabled: bool) -> (r: Self)
        ensures
            r@ == (DistributionBuilderView { enabled, ..self@ }),
    {
        Self { enabled, ..self }
    }

    pub fn default_root_object(self, default: DefaultRootObject) -> (r: Self)
        ensures
            r@ == (DistributionBuilderView { default_root_object: Some(default.0), ..self@ }),
    {
        Self { default_root_object: Some(default.0), ..self }
    }

    fn build_internal(self, resource_id: String, stack_builder: &mut StackBuilder) -> (r: DistributionRef)
        ensures
            final(stack_builder)@ == (StackBuilderView {
                resources: old(stack_builder)@.resources.push(final(stack_builder)@.resources.last()),
                ..old(stack_builder)@
            }),
            final(stack_builder)@.resources.last() matches Resource::Distribution(d) && {
                &&& distribution_made(d, self@, resource_id@)
                &&& d@.properties@.config@.origins == self@.origins
            },
            r@ == (crate::shared::RefView { resource_id: resource_id@, ref_name: None, arn_value: None }),
    {
        let default_root_object = match self.default_root_object {
            Some(o) => o,
            None => String::new(),
        };
        let config = DistributionConfig {
            enabled: self.enabled,
            default_cache_behavior: self.default_cache_behavior,
            aliases: self.aliases,
            cache_behaviors: self.cache_behaviors,
            cnames: self.cnames,
            default_root_object,
            http_version: self.http_version,
            ipv6_enabled: self.ipv6_enabled,
            price_class: self.price_class,
            viewer_certificate: self.viewer_certificate,
            origins: self.origins,
            origin_groups: None,
        };
        stack_builder.add_resource(
            Resource::Distribution(
                Distribution {
                    id: self.id,
                    resource_id: resource_id.clone(),
                    resource_type: String::from_str("AWS::CloudFront::Distribution"),
                    properties: DistributionProperties { config },
                },
            ),
        );
        DistributionRef::internal_new(resource_id)
    }
}

} // verus!
