use mail_autodiscover::config::{default_config, resolve_domain, DomainConfig, DomainConfiguration};
use mail_autodiscover::resources::{
    AutoDiscoverXmlPayload, AutoDiscoverXmlRequest, PageTemplate, APPLE_PROFILE_CONTENT_TYPE,
    DNS_ZONE_CONTENT_TYPE, XML_CONTENT_TYPE,
};
use mail_autodiscover::routes::autoconfig::{
    autodiscover_error, autodiscover_microsoft, complete_email, handle_mail_config_v11, mail_autodiscover_apple_mobileconfig,
    mail_autodiscover_microsoft, mail_autodiscover_microsoft_camel_case,
    mail_autodiscover_microsoft_case, mail_config_v11, post_mail_autodiscover_microsoft,
    post_mail_autodiscover_microsoft_camel_case, post_mail_autodiscover_microsoft_case,
    post_mail_autodiscover_microsoft_json, post_mail_autodiscover_microsoft_json_legacy,
    v11_mail_config_v11, well_known_mail_config_v11,
};
use mail_autodiscover::routes::dns::dns_txt_zone;
use mail_autodiscover::routes::tech::{apple, index, robots};

static EMPTY: phf::Map<&'static str, DomainConfig> = phf::Map::new();

const OUTLOOK: &str = "http://schemas.microsoft.com/exchange/autodiscover/outlook/responseschema/2006a";

fn host() -> DomainConfiguration {
    let config = Box::leak(Box::new(default_config(&EMPTY)));
    resolve_domain(config, None)
}

fn payload(email: Option<&str>, schema: &str) -> AutoDiscoverXmlPayload {
    AutoDiscoverXmlPayload {
        Request: AutoDiscoverXmlRequest {
            EMailAddress: email.map(|e| e.to_string()),
            AcceptableResponseSchema: schema.to_string(),
        },
    }
}

fn mail_config_email(t: &PageTemplate) -> String {
    match t {
        PageTemplate::MailConfig { email, .. } => email.clone(),
        other => panic!("not a mail config page: {:?}", other),
    }
}

fn autodiscover_email(t: &PageTemplate) -> String {
    match t {
        PageTemplate::Autodiscover { email_address, .. } => email_address.clone(),
        other => panic!("not an autodiscover page: {:?}", other),
    }
}

#[test]
fn user_name_is_completed_with_domain() {
    assert_eq!(complete_email("alice", "example.org"), "alice@example.org");
}

#[test]
fn full_address_is_kept() {
    assert_eq!(complete_email("alice@other.net", "example.org"), "alice@other.net");
    assert_eq!(complete_email("@", "example.org"), "@");
}

#[test]
fn completion_is_idempotent() {
    let once = complete_email("bob", "example.org");
    assert_eq!(complete_email(&once, "example.org"), once);
}

#[test]
fn empty_user_name_is_completed() {
    assert_eq!(complete_email("", "example.org"), "@example.org");
}

#[test]
fn mail_config_without_address_shows_placeholder() {
    let r = mail_config_v11(host(), None);
    assert_eq!(r.domain, "c0d3m4513r.com");
    assert_eq!(r.template.template_name(), "xml/config-v1.1");
    assert_eq!(mail_config_email(&r.template), "%EMAILADDRESS%");
    match r.template {
        PageTemplate::MailConfig { domain, display_name, imap, pop, smtp, .. } => {
            assert_eq!(domain, "c0d3m4513r.com");
            assert_eq!(display_name, "C0D3 M4513R Mail");
            assert_eq!(imap.hostname, "mail.c0d3m4513r.com");
            assert_eq!(pop.instances[0].port, 995);
            assert_eq!(smtp.instances.len(), 3);
        }
        _ => panic!("wrong page"),
    }
}

#[test]
fn mail_config_routes_agree() {
    for e in [None, Some("carol"), Some("carol@x.test")] {
        let a = mail_config_email(&mail_config_v11(host(), e).template);
        let b = mail_config_email(&v11_mail_config_v11(host(), e).template);
        let c = mail_config_email(&well_known_mail_config_v11(host(), e).template);
        assert_eq!(a, b);
        assert_eq!(a, c);
    }
    assert_eq!(mail_config_email(&mail_config_v11(host(), Some("carol")).template), "carol@c0d3m4513r.com");
    assert_eq!(mail_config_email(&mail_config_v11(host(), Some("carol@x.test")).template), "carol@x.test");
}

#[test]
fn json_autodiscover_v1_points_at_xml_service() {
    for p in ["AutodiscoverV1", "Autodiscoverv1"] {
        let r = post_mail_autodiscover_microsoft_json(host(), Some("a@b.c"), Some(p), Some("1")).unwrap();
        assert_eq!(r.Protocol, p);
        assert_eq!(r.Url, "https://c0d3m4513r.com/Autodiscover/Autodiscover.xml");
    }
}

#[test]
fn json_autodiscover_rejects_other_protocols() {
    for p in [None, Some("ActiveSync"), Some("autodiscoverv1"), Some("")] {
        let e = post_mail_autodiscover_microsoft_json(host(), None, p, None).unwrap_err();
        assert_eq!(e.ErrorCode, "InvalidProtocol");
        assert_eq!(
            e.ErrorMessage,
            "The given protocol value is invalid. Supported values are \"AutodiscoverV1\" or \"Autodiscoverv1\"."
        );
    }
}

#[test]
fn json_legacy_answers_as_json() {
    for p in [None, Some("AutodiscoverV1"), Some("Autodiscoverv1"), Some("ActiveSync")] {
        let a = post_mail_autodiscover_microsoft_json(host(), None, p, None);
        let b = post_mail_autodiscover_microsoft_json_legacy(host(), None, p, None);
        match (a, b) {
            (Ok(a), Ok(b)) => {
                assert_eq!(a.Protocol, b.Protocol);
                assert_eq!(a.Url, b.Url);
            }
            (Err(a), Err(b)) => {
                assert_eq!(a.ErrorCode, b.ErrorCode);
                assert_eq!(a.ErrorMessage, b.ErrorMessage);
            }
            _ => panic!("the two JSON endpoints disagree"),
        }
    }
}

#[test]
fn get_autodiscover_never_fails() {
    for r in [
        mail_autodiscover_microsoft(host()),
        mail_autodiscover_microsoft_case(host()),
        mail_autodiscover_microsoft_camel_case(host()),
    ] {
        let x = r.unwrap();
        assert_eq!(x.domain, "c0d3m4513r.com");
        assert_eq!(x.template.template_name(), "xml/autodiscover");
        assert_eq!(autodiscover_email(&x.template), "");
    }
}

#[test]
fn post_autodiscover_with_outlook_schema() {
    let r = post_mail_autodiscover_microsoft(host(), payload(Some("dave"), OUTLOOK)).unwrap();
    assert_eq!(autodiscover_email(&r.template), "dave@c0d3m4513r.com");
    let r = post_mail_autodiscover_microsoft_case(host(), payload(Some("dave@x.test"), OUTLOOK)).unwrap();
    assert_eq!(autodiscover_email(&r.template), "dave@x.test");
    let r = post_mail_autodiscover_microsoft_camel_case(host(), payload(None, OUTLOOK)).unwrap();
    assert_eq!(autodiscover_email(&r.template), "");
}

fn is_clock_time(s: &str) -> bool {
    let b = s.as_bytes();
    b.len() == 8
        && b[2] == b':'
        && b[5] == b':'
        && b.iter().enumerate().all(|(i, c)| i == 2 || i == 5 || c.is_ascii_digit())
}

#[test]
fn post_autodiscover_with_other_schema_is_stamped_error() {
    let schemas = [
        "http://schemas.microsoft.com/exchange/autodiscover/mobilesync/responseschema/2006",
        "",
    ];
    for s in schemas {
        let e = post_mail_autodiscover_microsoft(host(), payload(Some("dave"), s)).unwrap_err();
        assert_eq!(e.template.template_name(), "xml/autodiscover-error");
        match e.template {
            PageTemplate::AutodiscoverError { time, id } => {
                assert!(is_clock_time(&time), "{}", time);
                assert!(!id.is_empty());
                assert!(id.chars().all(|c| c.is_ascii_digit()), "{}", id);
            }
            _ => panic!("wrong page"),
        }
    }
}

#[test]
fn error_document_shows_given_stamp() {
    let e = autodiscover_error("12:34:56".to_string(), "1700000000".to_string());
    match e.template {
        PageTemplate::AutodiscoverError { time, id } => {
            assert_eq!(time, "12:34:56");
            assert_eq!(id, "1700000000");
        }
        _ => panic!("wrong page"),
    }
}

#[test]
fn mobileconfig_completes_user_name() {
    let r = mail_autodiscover_apple_mobileconfig(host(), "erin");
    assert_eq!(r.domain, "c0d3m4513r.com");
    assert_eq!(r.template.template_name(), "xml/email_mobileconfig");
    match r.template {
        PageTemplate::AppleMobileconfig { email_address, mail_uuid, profile_uuid, .. } => {
            assert_eq!(email_address, "erin@c0d3m4513r.com");
            assert_eq!(mail_uuid, "f812f625-8e98-4181-a634-738fc72e763b");
            assert_eq!(profile_uuid, "84641856-9840-48ae-be21-023ff4e750a7");
        }
        _ => panic!("wrong page"),
    }
    let r = mail_autodiscover_apple_mobileconfig(host(), "erin@x.test");
    match r.template {
        PageTemplate::AppleMobileconfig { email_address, .. } => assert_eq!(email_address, "erin@x.test"),
        _ => panic!("wrong page"),
    }
}

#[test]
fn dns_zone_names_service_hosts() {
    let r = dns_txt_zone(host());
    assert_eq!(r.domain, "c0d3m4513r.com");
    assert_eq!(r.template.template_name(), "dns/zone");
    match r.template {
        PageTemplate::DnsZone { imap_hostname, pop_hostname, smtp_hostname } => {
            assert_eq!(imap_hostname, "mail.c0d3m4513r.com");
            assert_eq!(pop_hostname, "mail.c0d3m4513r.com");
            assert_eq!(smtp_hostname, "mail.c0d3m4513r.com");
        }
        _ => panic!("wrong page"),
    }
}

#[test]
fn dns_zone_download_headers() {
    let r = dns_txt_zone(host());
    assert_eq!(r.content_disposition(), "attachment; filename=\"c0d3m4513r.com-dns-zone.txt\"");
    assert_eq!(DNS_ZONE_CONTENT_TYPE, "text/plain; charset=utf-8");
}

#[test]
fn pages_name_the_domain() {
    match index(host()) {
        PageTemplate::Index { name } => assert_eq!(name, "c0d3m4513r.com"),
        _ => panic!("wrong page"),
    }
    assert_eq!(index(host()).template_name(), "index");
    match apple(host()) {
        PageTemplate::Apple { name } => assert_eq!(name, "c0d3m4513r.com"),
        _ => panic!("wrong page"),
    }
    assert_eq!(apple(host()).template_name(), "apple");
}

#[test]
fn robots_disallows_everything() {
    assert_eq!(robots(), "User-agent: *\nDisallow: /\n");
}

#[test]
fn content_types() {
    assert_eq!(XML_CONTENT_TYPE, "text/xml; charset=utf-8");
    assert_eq!(APPLE_PROFILE_CONTENT_TYPE, "application/x-apple-aspen-config; charset=utf-8");
}

#[test]
fn addressless_outlook_body_answers_as_get() {
    let a = autodiscover_microsoft(host(), Some(payload(None, OUTLOOK))).unwrap();
    let b = autodiscover_microsoft(host(), None).unwrap();
    assert_eq!(a.domain, b.domain);
    assert_eq!(a.template.template_name(), b.template.template_name());
    assert_eq!(autodiscover_email(&a.template), autodiscover_email(&b.template));
    assert_eq!(autodiscover_email(&a.template), "");
}

#[test]
fn accepted_answer_is_repeatable() {
    let a = autodiscover_microsoft(host(), Some(payload(Some("fay"), OUTLOOK))).unwrap();
    let b = autodiscover_microsoft(host(), Some(payload(Some("fay"), OUTLOOK))).unwrap();
    assert_eq!(autodiscover_email(&a.template), autodiscover_email(&b.template));
    assert_eq!(autodiscover_email(&a.template), "fay@c0d3m4513r.com");
}

#[test]
fn mail_config_address_is_stable() {
    let first = mail_config_email(&handle_mail_config_v11(host(), Some("gus")).template);
    let second = mail_config_email(&handle_mail_config_v11(host(), Some(&first)).template);
    assert_eq!(first, "gus@c0d3m4513r.com");
    assert_eq!(first, second);
}
