//! How the account service is addressed: where it lives, how a request is
//! authorised, and through which proxy it goes.

use crate::text::append_decimal;
use crate::text::decimal;
use vstd::prelude::*;
use vstd::string::StringExecFns;

verus! {

/// The address of the account service.
pub const ENDPOINT: &'static str = "https://ai.gitee.com/v1";

/// How the application names itself to the account service.
pub const USER_AGENT: &'static str = "Hyprnote/1.0 (+https://ai.gitee.com/apps/hyprnote)";

/// The identifier of the application at the account service.
pub const APP_ID: &'static str = "";

/// The token that stands in where no user is logged in. It is also the
/// allowance of the free trial.
pub const DEVELOPER_ACCESS_TOKEN: &'static str = "";

/// The media type of every request body.
pub const CONTENT_TYPE: &'static str = "application/json";

/// A proxy server for the requests to the account service.
#[derive(Debug, Clone, PartialEq, Eq)]
pub struct Proxy {
    /// Whether the proxy is to be used.
    pub enabled: bool,
    /// The protocol of the proxy, `http` or `https`.
    pub protocol: String,
    /// The host of the proxy.
    pub host: String,
    /// The port of the proxy.
    pub port: u16,
}

/// What a [`Proxy`] holds.
pub struct ProxyView {
    pub enabled: bool,
    pub protocol: Seq<char>,
    pub host: Seq<char>,
    pub port: u16,
}

impl View for Proxy {
    type V = ProxyView;

    open spec fn view(&self) -> ProxyView {
        ProxyView {
            enabled: self.enabled,
            protocol: self.protocol@,
            host: self.host@,
            port: self.port,
        }
    }
}

impl ProxyView {
    /// The address of the proxy: protocol, host and port in the usual
    /// notation.
    pub open spec fn url(self) -> Seq<char> {
        self.protocol + "://"@ + self.host + ":"@ + decimal(self.port as nat)
    }
}

impl Proxy {
    /// The address of the proxy: protocol, host and port in the usual
    /// notation.
    pub fn url(&self) -> (url: String)
        ensures
            url@ == self@.url(),
    {
        let mut url = self.protocol.clone();
        url.append("://");
        url.append(self.host.as_str());
        url.append(":");
        append_decimal(&mut url, self.port as u64);
        assert(url@ =~= self@.url());
        url
    }
}

/// The address of the proxy that the requests go through: that of the given
/// proxy where there is one and it is enabled.
pub open spec fn proxy_in_use(proxy: Option<ProxyView>) -> Option<Seq<char>> {
    match proxy {
        Some(proxy) => if proxy.enabled {
            Some(proxy.url())
        } else {
            None
        },
        None => None,
    }
}

/// The address of the proxy that the requests go through, if any.
pub fn proxy_url(proxy: Option<Proxy>) -> (url: Option<String>)
    ensures
        match url {
            Some(url) => proxy_in_use(
                match proxy {
                    Some(proxy) => Some(proxy@),
                    None => None,
                },
            ) == Some(url@),
            None => proxy_in_use(
                match proxy {
                    Some(proxy) => Some(proxy@),
                    None => None,
                },
            ) is None,
        },
{
    match proxy {
        Some(proxy) => if proxy.enabled {
            Some(proxy.url())
        } else {
            None
        },
        None => None,
    }
}

/// Where a request to the account service goes and how it is authorised.
#[derive(Debug, Clone, PartialEq, Eq)]
pub struct ApiRequest {
    /// The address of the request.
    pub url: String,
    /// The value of the `Authorization` header.
    pub authorization: String,
}

/// What an [`ApiRequest`] holds.
pub struct ApiRequestView {
    pub url: Seq<char>,
    pub authorization: Seq<char>,
}

impl View for ApiRequest {
    type V = ApiRequestView;

    open spec fn view(&self) -> ApiRequestView {
        ApiRequestView { url: self.url@, authorization: self.authorization@ }
    }
}

/// The request for the resource `uri` of the account service, authorised by
/// `token`, or by the developer's token where there is none.
pub open spec fn api_request_for(uri: Seq<char>, token: Option<Seq<char>>) -> ApiRequestView {
    ApiRequestView {
        url: ENDPOINT@ + uri,
        authorization: "Bearer "@ + match token {
            Some(token) => token,
            None => DEVELOPER_ACCESS_TOKEN@,
        },
    }
}

/// The request for the resource `uri` of the account service, authorised by
/// `token`, or by the developer's token where there is none.
pub fn api_request(uri: &str, token: Option<&str>) -> (request: ApiRequest)
    ensures
        request@ == api_request_for(
            uri@,
            match token {
                Some(token) => Some(token@),
                None => None,
            },
        ),
{
    let url = String::from_str(ENDPOINT).concat(uri);
    let bearer = match token {
        Some(token) => token,
        None => DEVELOPER_ACCESS_TOKEN,
    };
    let authorization = String::from_str("Bearer ").concat(bearer);
    ApiRequest { url, authorization }
}

} // verus!
