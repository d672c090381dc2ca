use vstd::prelude::*;

verus! {

/// The HTTP methods that routes and CORS rules can name.
pub enum HttpMethod {
    Any,
    Get,
    Head,
    Options,
    Patch,
    Post,
    Put,
    Delete,
}

/// How CloudFormation writes an HTTP method.
pub open spec fn http_method_name(m: HttpMethod) -> Seq<char> {
    match m {
        HttpMethod::Any => "*"@,
        HttpMethod::Get => "GET"@,
        HttpMethod::Head => "HEAD"@,
        HttpMethod::Options => "OPTIONS"@,
        HttpMethod::Patch => "PATCH"@,
        HttpMethod::Post => "POST"@,
        HttpMethod::Put => "PUT"@,
        HttpMethod::Delete => "DELETE"@,
    }
}

impl vstd::std_specs::convert::FromSpecImpl<HttpMethod> for String {
    open spec fn obeys_from_spec() -> bool {
        false
    }

    open spec fn from_spec(v: HttpMethod) -> String {
        vstd::pervasive::arbitrary()
    }
}

impl From<HttpMethod> for String {
    fn from(value: HttpMethod) -> (r: String)
        ensures
            r@ == http_method_name(value),
    {
        match value {
            HttpMethod::Any => String::from_str("*"),
            HttpMethod::Get => String::from_str("GET"),
            HttpMethod::Head => String::from_str("HEAD"),
            HttpMethod::Options => String::from_str("OPTIONS"),
            HttpMethod::Patch => String::from_str("PATCH"),
            HttpMethod::Post => String::from_str("POST"),
            HttpMethod::Put => String::from_str("PUT"),
            HttpMethod::Delete => String::from_str("DELETE"),
        }
    }
}

/// Whether a CloudFront origin is reached over HTTP or HTTPS.
pub enum Protocol {
    Http,
    Https,
}

/// How CloudFormation writes a protocol.
pub open spec fn protocol_name(p: Protocol) -> Seq<char> {
    match p {
        Protocol::Http => "http"@,
        Protocol::Https => "https"@,
    }
}

impl vstd::std_specs::convert::FromSpecImpl<Protocol> for String {
    open spec fn obeys_from_spec() -> bool {
        false
    }

    open spec fn from_spec(v: Protocol) -> String {
        vstd::pervasive::arbitrary()
    }
}

impl From<Protocol> for String {
    fn from(value: Protocol) -> (r: String)
        ensures
            r@ == protocol_name(value),
    {
        match value {
            Protocol::Http => String::from_str("http"),
            Protocol::Https => String::from_str("https"),
        }
    }
}

} // verus!
