use rust_proxy::diagnostics::{
    analyze_transfer_error, diagnose, diagnose_transfer, find_cause, holds, holds_one_of, joined,
};
use rust_proxy::{analyze_ssl_error, SslCause};

fn chars(s: &str) -> Vec<char> {
    s.chars().collect()
}

fn cause_of(text: &str) -> Option<SslCause> {
    analyze_ssl_error("example.com", 443, text).map(|d| d.cause)
}

#[test]
fn an_error_without_indicator_is_not_diagnosed() {
    assert!(analyze_ssl_error("h", 1, "timed out").is_none());
    assert!(analyze_ssl_error("h", 1, "").is_none());
    assert!(analyze_ssl_error("h", 1, "host unreachable").is_none());
}

#[test]
fn the_first_cause_that_fits_is_named() {
    assert_eq!(cause_of("certificate has expired"), Some(SslCause::Expired));
    assert_eq!(cause_of("self-signed certificate"), Some(SslCause::Untrusted));
    assert_eq!(cause_of("untrusted root"), Some(SslCause::Untrusted));
    assert_eq!(cause_of("tls handshake failure"), Some(SslCause::Handshake));
    assert_eq!(cause_of("certificate verify failed"), Some(SslCause::Verification));
    assert_eq!(cause_of("certificate revoked"), Some(SslCause::Revoked));
    assert_eq!(cause_of("ssl error"), Some(SslCause::Unknown));
    // expired wins over handshake, handshake over verify, verify over revoked
    assert_eq!(cause_of("handshake: certificate expired"), Some(SslCause::Expired));
    assert_eq!(cause_of("verify failed during handshake"), Some(SslCause::Handshake));
    assert_eq!(cause_of("revoked; tls verify failed"), Some(SslCause::Verification));
}

#[test]
fn every_indicator_marks_an_error() {
    // "ca" is among the indicators, so "cannot" marks an error too
    assert_eq!(cause_of("cannot assign requested address"), Some(SslCause::Unknown));
    assert_eq!(cause_of("verification"), Some(SslCause::Unknown));
    assert_eq!(cause_of("unable to get local issuer"), Some(SslCause::Unknown));
    // a bare cause word is no indicator
    assert_eq!(cause_of("revoked"), None);
    assert_eq!(cause_of("verify"), None);
}

#[test]
fn the_text_is_read_in_lower_case() {
    assert_eq!(cause_of("TLS HANDSHAKE FAILED"), Some(SslCause::Handshake));
    assert_eq!(cause_of("The Token Has EXPIRED: SSL"), Some(SslCause::Expired));
    // given as lower case already, upper case is not folded again
    assert!(diagnose("h", 1, "x", "TLS HANDSHAKE FAILED").is_none());
    assert!(diagnose_transfer(None, None, "d", "x", "TLS").is_none());
    assert!(analyze_transfer_error(None, None, "d", "TLS").is_some());
}

#[test]
fn the_warning_names_target_error_cause_and_action() {
    let d = analyze_ssl_error("secure.example", 65535, "Certificate Has Expired").unwrap();
    assert_eq!(d.cause, SslCause::Expired);
    assert_eq!(
        d.lines,
        vec![
            "SSL/TLS Certificate Issue Detected",
            "   Target: secure.example:65535",
            "   Error: Certificate Has Expired",
            "   Cause: Certificate has expired",
            "   Action: Update certificate on target server",
        ]
    );
    let line = |text: &str, i: usize| analyze_ssl_error("h", 0, text).unwrap().lines[i].clone();
    assert_eq!(line("tls", 1), "   Target: h:0");
    assert_eq!(line("untrusted ssl", 3), "   Cause: Certificate is self-signed or untrusted");
    assert_eq!(
        line("untrusted ssl", 4),
        "   Action: Add certificate to trust store or use valid certificate"
    );
    assert_eq!(line("tls verify", 3), "   Cause: Certificate verification failed");
    assert_eq!(line("tls verify", 4), "   Action: Check certificate chain and CA trust");
    assert_eq!(line("cert revoked", 3), "   Cause: Certificate has been revoked");
    assert_eq!(line("cert revoked", 4), "   Action: Renew certificate with new signing");
    assert_eq!(line("ssl", 3), "   Cause: Unknown SSL/TLS certificate issue");
    assert_eq!(line("ssl", 4), "   Action: Investigate certificate validity and trust");
}

#[test]
fn holds_finds_a_text_inside_another() {
    assert!(holds(&chars("handshake"), "hand"));
    assert!(holds(&chars("handshake"), "shake"));
    assert!(holds(&chars("handshake"), "dsh"));
    assert!(holds(&chars("handshake"), "handshake"));
    assert!(holds(&chars("handshake"), ""));
    assert!(holds(&chars(""), ""));
    assert!(!holds(&chars("handshake"), "handshakes"));
    assert!(!holds(&chars("handshake"), "hd"));
    assert!(!holds(&chars(""), "a"));
    assert!(holds(&chars("aaab"), "aab"));
    assert!(holds(&chars("z\u{fc}rich"), "\u{fc}r"));
}

#[test]
fn holds_one_of_tries_every_needle() {
    let needles = vec!["x", "yy", "b"];
    assert!(holds_one_of(&chars("abc"), &needles));
    assert!(!holds_one_of(&chars("ayc"), &needles));
    assert!(!holds_one_of(&chars("abc"), &Vec::new()));
    assert_eq!(find_cause(&chars("nothing of note")), SslCause::Unknown);
    assert_eq!(joined("ab", "cd"), "abcd");
}
