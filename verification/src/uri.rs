//! The parts of an absolute URI that the proxy reads, taken from the `url` crate.

use vstd::prelude::*;

verus! {

/// The error that `url::Url::parse` returns. Nothing of it is read.
#[verifier::external_type_specification]
#[verifier::external_body]
pub struct ExUrlParseError(url::ParseError);

/// Scheme, host and explicit port of a parsed URI.
pub struct UrlParts {
    /// The scheme, in lower case, without the colon.
    pub scheme: String,
    /// The host as written in the URI, if it has one.
    pub host: Option<String>,
    /// The port, if the URI names one that is not the scheme's default.
    pub port: Option<u16>,
}

/// Mathematical value of [`UrlParts`].
pub struct UrlPartsView {
    pub scheme: Seq<char>,
    pub host: Option<Seq<char>>,
    pub port: Option<u16>,
}

impl View for UrlParts {
    type V = UrlPartsView;

    open spec fn view(&self) -> UrlPartsView {
        UrlPartsView {
            scheme: self.scheme@,
            host: match self.host {
                Some(h) => Some(h@),
                None => None,
            },
            port: self.port,
        }
    }
}

/// What the `url` crate makes of `target`: `None` where it rejects the text,
/// else the scheme, host and port of the URI it parsed.
pub uninterp spec fn url_parse(target: Seq<char>) -> Option<UrlPartsView>;

/// Calls `url::Url::parse` on `target` and, where that succeeds, reads
/// `scheme()`, `host_str()` and `port()` from the result.
///
/// Trusted: the outcome depends on `target` alone, so it is `url_parse` of
/// it. Nothing more is claimed of what the crate accepts or returns.
#[verifier::external_body]
pub(crate) fn parse_url(target: &str) -> (r: Result<UrlParts, url::ParseError>)
    ensures
        r is Ok <==> url_parse(target@) is Some,
        r matches Ok(parts) ==> url_parse(target@) == Some(parts@),
{
    let parsed = url::Url::parse(target)?;
    Ok(
        UrlParts {
            scheme: String::from(parsed.scheme()),
            host: parsed.host_str().map(String::from),
            port: parsed.port(),
        },
    )
}

} // verus!
