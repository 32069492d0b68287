//! Reading the text of a connect or transfer error for signs of a TLS or
//! certificate problem. What is found is only ever logged.

use vstd::prelude::*;
use crate::decimal::{decimal, format_u64};
use crate::text::{chars_of, contains, has_substring};

verus! {

/// What lowering the case of every character of `text` gives, by the Unicode
/// rules for lower case.
pub uninterp spec fn lowercase(text: Seq<char>) -> Seq<char>;

/// Calls `str::to_lowercase`.
///
/// Trusted: the result depends on `text` alone, so it is `lowercase` of it.
#[verifier::external_body]
pub(crate) fn to_lowercase(text: &str) -> (lowered: String)
    ensures
        lowered@ == lowercase(text@),
{
    text.to_lowercase()
}

/// The likely cause of a certificate problem.
#[derive(Clone, Copy, Debug, PartialEq, Eq, Structural)]
pub enum SslCause {
    Expired,
    Untrusted,
    Handshake,
    Verification,
    Revoked,
    Unknown,
}

/// The words that mark an error text as TLS related.
pub open spec fn indicators() -> Seq<Seq<char>> {
    seq![
        "certificate"@,
        "cert"@,
        "tls"@,
        "ssl"@,
        "handshake"@,
        "verification"@,
        "expired"@,
        "self-signed"@,
        "untrusted"@,
        "certificate chain"@,
        "certificate verify"@,
        "certificate has expired"@,
        "certificate not yet valid"@,
        "certificate revoked"@,
        "certificate signature"@,
        "certificate authority"@,
        "ca"@,
        "unknown ca"@,
        "unable to get local issuer"@,
        "issuer certificate"@,
        "root certificate"@,
    ]
}

/// `text` holds one of `needles`.
pub open spec fn holds_any(text: Seq<char>, needles: Seq<Seq<char>>) -> bool {
    exists|i: int| 0 <= i < needles.len() && has_substring(text, #[trigger] needles[i])
}

/// A lower-case error text is TLS related: it holds one of the indicators.
pub open spec fn is_ssl_related(lowered: Seq<char>) -> bool {
    holds_any(lowered, indicators())
}

/// The cause that a lower-case error text points to; the first that fits.
pub open spec fn ssl_cause(lowered: Seq<char>) -> SslCause {
    if has_substring(lowered, "expired"@) {
        SslCause::Expired
    } else if has_substring(lowered, "self-signed"@) || has_substring(lowered, "untrusted"@) {
        SslCause::Untrusted
    } else if has_substring(lowered, "handshake"@) {
        SslCause::Handshake
    } else if has_substring(lowered, "verify"@) {
        SslCause::Verification
    } else if has_substring(lowered, "revoked"@) {
        SslCause::Revoked
    } else {
        SslCause::Unknown
    }
}

/// What a cause is called in the log.
pub open spec fn cause_text(cause: SslCause) -> Seq<char> {
    match cause {
        SslCause::Expired => "Certificate has expired"@,
        SslCause::Untrusted => "Certificate is self-signed or untrusted"@,
        SslCause::Handshake => "TLS handshake failed"@,
        SslCause::Verification => "Certificate verification failed"@,
        SslCause::Revoked => "Certificate has been revoked"@,
        SslCause::Unknown => "Unknown SSL/TLS certificate issue"@,
    }
}

/// What the log advises for a cause.
pub open spec fn action_text(cause: SslCause) -> Seq<char> {
    match cause {
        SslCause::Expired => "Update certificate on target server"@,
        SslCause::Untrusted => "Add certificate to trust store or use valid certificate"@,
        SslCause::Handshake => "Check certificate compatibility and TLS version"@,
        SslCause::Verification => "Check certificate chain and CA trust"@,
        SslCause::Revoked => "Renew certificate with new signing"@,
        SslCause::Unknown => "Investigate certificate validity and trust"@,
    }
}

/// The warning logged for a TLS-related connect error.
pub open spec fn warning_lines(
    host: Seq<char>,
    port: u16,
    error_text: Seq<char>,
    cause: SslCause,
) -> Seq<Seq<char>> {
    seq![
        "SSL/TLS Certificate Issue Detected"@,
        "   Target: "@ + host + ":"@ + decimal(port as nat),
        "   Error: "@ + error_text,
        "   Cause: "@ + cause_text(cause),
        "   Action: "@ + action_text(cause),
    ]
}

/// The diagnosis of a connect error, given its text in lower case: nothing
/// where the text is not TLS related.
pub open spec fn diagnosis(
    host: Seq<char>,
    port: u16,
    error_text: Seq<char>,
    lowered: Seq<char>,
) -> Option<(SslCause, Seq<Seq<char>>)> {
    if is_ssl_related(lowered) {
        Some((ssl_cause(lowered), warning_lines(host, port, error_text, ssl_cause(lowered))))
    } else {
        None
    }
}

/// A diagnosis: the likely cause and the lines to log.
pub struct SslDiagnosis {
    pub cause: SslCause,
    pub lines: Vec<String>,
}

impl View for SslDiagnosis {
    type V = (SslCause, Seq<Seq<char>>);

    open spec fn view(&self) -> (SslCause, Seq<Seq<char>>) {
        (self.cause, self.lines.deep_view())
    }
}

/// Tells whether `text` holds `needle`.
pub fn holds(text: &Vec<char>, needle: &str) -> (r: bool)
    ensures
        r == has_substring(text@, needle@),
{
    let n = chars_of(needle);
    contains(text, &n)
}

/// The indicators, in order.
fn indicator_list() -> (list: Vec<&'static str>)
    ensures
        list.deep_view() == indicators(),
{
    let list = vec![
        "certificate",
        "cert",
        "tls",
        "ssl",
        "handshake",
        "verification",
        "expired",
        "self-signed",
        "untrusted",
        "certificate chain",
        "certificate verify",
        "certificate has expired",
        "certificate not yet valid",
        "certificate revoked",
        "certificate signature",
        "certificate authority",
        "ca",
        "unknown ca",
        "unable to get local issuer",
        "issuer certificate",
        "root certificate",
    ];
    list
}

/// Tells whether `text` holds one of `needles`.
pub fn holds_one_of(text: &Vec<char>, needles: &Vec<&'static str>) -> (r: bool)
    ensures
        r == holds_any(text@, needles.deep_view()),
{
    let mut i: usize = 0;
    while i < needles.len()
        invariant
            i <= needles@.len(),
            forall|j: int| 0 <= j < i ==> !has_substring(text@, #[trigger] needles.deep_view()[j]),
        decreases needles@.len() - i,
    {
        assert(needles.deep_view()[i as int] == needles@[i as int]@);
        if holds(text, needles[i]) {
            return true;
        }
        i += 1;
    }
    false
}

/// The cause that a lower-case error text points to.
pub fn find_cause(lowered: &Vec<char>) -> (cause: SslCause)
    ensures
        cause == ssl_cause(lowered@),
{
    if holds(lowered, "expired") {
        SslCause::Expired
    } else if holds(lowered, "self-signed") || holds(lowered, "untrusted") {
        SslCause::Untrusted
    } else if holds(lowered, "handshake") {
        SslCause::Handshake
    } else if holds(lowered, "verify") {
        SslCause::Verification
    } else if holds(lowered, "revoked") {
        SslCause::Revoked
    } else {
        SslCause::Unknown
    }
}

/// `a` followed by `b`.
pub fn joined(a: &str, b: &str) -> (s: String)
    ensures
        s@ == a@ + b@,
{
    let mut s = String::from_str(a);
    s.append(b);
    s
}

fn cause_label(cause: SslCause) -> (s: &'static str)
    ensures
        s@ == cause_text(cause),
{
    match cause {
        SslCause::Expired => "Certificate has expired",
        SslCause::Untrusted => "Certificate is self-signed or untrusted",
        SslCause::Handshake => "TLS handshake failed",
        SslCause::Verification => "Certificate verification failed",
        SslCause::Revoked => "Certificate has been revoked",
        SslCause::Unknown => "Unknown SSL/TLS certificate issue",
    }
}

fn action_label(cause: SslCause) -> (s: &'static str)
    ensures
        s@ == action_text(cause),
{
    match cause {
        SslCause::Expired => "Update certificate on target server",
        SslCause::Untrusted => "Add certificate to trust store or use valid certificate",
        SslCause::Handshake => "Check certificate compatibility and TLS version",
        SslCause::Verification => "Check certificate chain and CA trust",
        SslCause::Revoked => "Renew certificate with new signing",
        SslCause::Unknown => "Investigate certificate validity and trust",
    }
}

/// Diagnoses a connect error from its text and the same text in lower case.
pub fn diagnose(host: &str, port: u16, error_text: &str, lowered: &str) -> (r: Option<SslDiagnosis>)
    ensures
        r is Some == is_ssl_related(lowered@),
        r matches Some(d) ==> Some(d@) == diagnosis(host@, port, error_text@, lowered@),
{
    let text = chars_of(lowered);
    let list = indicator_list();
    if !holds_one_of(&text, &list) {
        return None;
    }
    let cause = find_cause(&text);
    let mut target = joined("   Target: ", host);
    target.append(":");
    let digits = format_u64(port as u64);
    target.append(digits.as_str());
    let mut lines: Vec<String> = Vec::new();
    lines.push(String::from_str("SSL/TLS Certificate Issue Detected"));
    lines.push(target);
    lines.push(joined("   Error: ", error_text));
    lines.push(joined("   Cause: ", cause_label(cause)));
    lines.push(joined("   Action: ", action_label(cause)));
    Some(SslDiagnosis { cause, lines })
}

/// Diagnoses the error of a failed connect to `host:port` from its text.
pub fn analyze_ssl_error(host: &str, port: u16, error_text: &str) -> (r: Option<SslDiagnosis>)
    ensures
        r is Some == is_ssl_related(lowercase(error_text@)),
        r matches Some(d) ==> Some(d@) == diagnosis(
            host@,
            port,
            error_text@,
            lowercase(error_text@),
        ),
{
    let lowered = to_lowercase(error_text);
    diagnose(host, port, error_text, lowered.as_str())
}

/// The words that mark the text of a failed read as TLS related.
pub open spec fn transfer_indicators() -> Seq<Seq<char>> {
    seq!["tls"@, "ssl"@, "handshake"@, "certificate"@]
}

/// A lower-case read error is TLS related.
pub open spec fn mentions_tls(lowered: Seq<char>) -> bool {
    holds_any(lowered, transfer_indicators())
}

/// The line that names an address, if the address is known.
pub open spec fn address_line(label: Seq<char>, address: Option<Seq<char>>) -> Seq<Seq<char>> {
    match address {
        Some(a) => seq![label + a],
        None => Seq::empty(),
    }
}

/// The warning logged for a TLS-related read error inside a tunnel.
pub open spec fn transfer_warning(
    src_addr: Option<Seq<char>>,
    dst_addr: Option<Seq<char>>,
    direction: Seq<char>,
    error_text: Seq<char>,
) -> Seq<Seq<char>> {
    seq!["SSL/TLS Error During Data Transfer"@] + address_line("   Source: "@, src_addr)
        + address_line("   Destination: "@, dst_addr) + seq![
        "   Direction: "@ + direction,
        "   Error: "@ + error_text,
        "   Note: This may indicate certificate validation issues during TLS handshake"@,
    ]
}

/// The view of an optional text.
pub open spec fn opt_view(text: Option<&str>) -> Option<Seq<char>> {
    match text {
        Some(t) => Some(t@),
        None => None,
    }
}

/// The warning for a failed read, given its text and the same text in lower
/// case: nothing where the text is not TLS related.
pub fn diagnose_transfer(
    src_addr: Option<&str>,
    dst_addr: Option<&str>,
    direction: &str,
    error_text: &str,
    lowered: &str,
) -> (r: Option<Vec<String>>)
    ensures
        r is Some == mentions_tls(lowered@),
        r matches Some(lines) ==> lines.deep_view() == transfer_warning(
            opt_view(src_addr),
            opt_view(dst_addr),
            direction@,
            error_text@,
        ),
{
    let text = chars_of(lowered);
    let list = vec!["tls", "ssl", "handshake", "certificate"];
    proof {
        assert(list.deep_view() =~= transfer_indicators());
    }
    if !holds_one_of(&text, &list) {
        return None;
    }
    let mut lines: Vec<String> = Vec::new();
    lines.push(String::from_str("SSL/TLS Error During Data Transfer"));
    if let Some(src) = src_addr {
        lines.push(joined("   Source: ", src));
    }
    if let Some(dst) = dst_addr {
        lines.push(joined("   Destination: ", dst));
    }
    lines.push(joined("   Direction: ", direction));
    lines.push(joined("   Error: ", error_text));
    lines.push(
        String::from_str(
            "   Note: This may indicate certificate validation issues during TLS handshake",
        ),
    );
    Some(lines)
}

/// The warning for a failed read inside a tunnel, from its text.
pub fn analyze_transfer_error(
    src_addr: Option<&str>,
    dst_addr: Option<&str>,
    direction: &str,
    error_text: &str,
) -> (r: Option<Vec<String>>)
    ensures
        r is Some == mentions_tls(lowercase(error_text@)),
        r matches Some(lines) ==> lines.deep_view() == transfer_warning(
            opt_view(src_addr),
            opt_view(dst_addr),
            direction@,
            error_text@,
        ),
{
    let lowered = to_lowercase(error_text);
    diagnose_transfer(src_addr, dst_addr, direction, error_text, lowered.as_str())
}

} // verus!
