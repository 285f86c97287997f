//! Mail client autoconfiguration: the Thunderbird `config-v1.1.xml`
//! document, the Microsoft autodiscover protocol (JSON and XML) and the
//! Apple configuration profile.

use vstd::prelude::*;
use vstd::string::*;
use crate::clock::is_clock_time;
use crate::clock::is_decimal_seconds;
use crate::clock::local_time_and_timestamp;
use crate::config::DomainConfiguration;
use crate::resources::AppleResponse;
use crate::resources::AutoDiscoverJson;
use crate::resources::AutoDiscoverJsonError;
use crate::resources::AutoDiscoverXml;
use crate::resources::AutoDiscoverXmlError;
use crate::resources::AutoDiscoverXmlPayload;
use crate::resources::PageTemplate;
use crate::resources::PageView;
use crate::text::contains_char;
use crate::text::opt_chars;
use crate::text::str_equal;

verus! {

// ---------------------------------------------------------------------
// E-mail addresses

/// The e-mail address a client is configured with when it sent `e`: `e`
/// itself where it names a host (holds an `@`), otherwise `e` as a user
/// name at `domain`.
pub open spec fn completed_email(e: Seq<char>, domain: Seq<char>) -> Seq<char> {
    if e.contains('@') {
        e
    } else {
        e + seq!['@'] + domain
    }
}

/// Completes a user name to an e-mail address at `domain`; an address that
/// already holds an `@` is kept as it is.
pub fn complete_email(e: &str, domain: &str) -> (r: String)
    ensures
        r@ == completed_email(e@, domain@),
{
    if contains_char(e, '@') {
        e.to_owned()
    } else {
        let mut r = String::from_str(e);
        r.append("@");
        r.append(domain);
        proof {
            reveal_strlit("@");
        }
        r
    }
}

/// A completed address always names a host: it holds an `@`.
pub proof fn lemma_completed_email_has_at(e: Seq<char>, domain: Seq<char>)
    ensures
        completed_email(e, domain).contains('@'),
{
    if !e.contains('@') {
        let c = completed_email(e, domain);
        assert(c[e.len() as int] == '@');
    }
}

/// Completing is idempotent: a completed address is kept as it is.
pub proof fn lemma_completed_email_idempotent(e: Seq<char>, domain: Seq<char>)
    ensures
        completed_email(completed_email(e, domain), domain) == completed_email(e, domain),
{
    lemma_completed_email_has_at(e, domain);
}

/// A completed address begins with what the client sent.
pub proof fn lemma_completed_email_extends(e: Seq<char>, domain: Seq<char>)
    ensures
        e.is_prefix_of(completed_email(e, domain)),
{
    assert(completed_email(e, domain).subrange(0, e.len() as int) =~= e);
}

// ---------------------------------------------------------------------
// Thunderbird-style autoconfig

/// The address shown in `config-v1.1.xml`: the placeholder the client fills
/// in itself when it sent none, the completed address otherwise.
pub open spec fn mail_config_email(e: Option<Seq<char>>, domain: Seq<char>) -> Seq<char> {
    match e {
        Some(e) => completed_email(e, domain),
        None => "%EMAILADDRESS%"@,
    }
}

/// The `config-v1.1.xml` answer for `host` to a request that sent the
/// address (or user name) `e`, if any.
pub open spec fn mail_config_answer(host: DomainConfiguration, e: Option<Seq<char>>) -> (Seq<char>, PageView) {
    (
        host.domain@,
        PageView::MailConfig {
            domain: host.domain@,
            display_name: host.config.display_name@,
            email: mail_config_email(e, host.domain@),
            imap: host.config.imap,
            pop: host.config.pop,
            smtp: host.config.smtp,
        },
    )
}

/// Sending back the address that a `config-v1.1.xml` answer shows gets the
/// same answer again.
pub proof fn lemma_mail_config_answer_stable(host: DomainConfiguration, e: Seq<char>)
    ensures
        mail_config_answer(host, Some(mail_config_email(Some(e), host.domain@))) == mail_config_answer(host, Some(e)),
{
    lemma_completed_email_idempotent(e, host.domain@);
}

/// The `config-v1.1.xml` answer shared by its three endpoints.
pub fn handle_mail_config_v11(config: DomainConfiguration, emailaddress: Option<&str>) -> (r: AutoDiscoverXml)
    ensures
        r@ == mail_config_answer(config, opt_chars(emailaddress)),
{
    let email = match emailaddress {
        None => String::from_str("%EMAILADDRESS%"),
        Some(e) => complete_email(e, config.domain),
    };
    AutoDiscoverXml {
        domain: config.domain,
        template: PageTemplate::MailConfig {
            domain: config.domain,
            display_name: config.config.display_name,
            email,
            imap: config.config.imap,
            pop: config.config.pop,
            smtp: config.config.smtp,
        },
    }
}

/// `GET /mail/config-v1.1.xml?emailaddress=..`
pub fn mail_config_v11(host: DomainConfiguration, emailaddress: Option<&str>) -> (r: AutoDiscoverXml)
    ensures
        r@ == mail_config_answer(host, opt_chars(emailaddress)),
{
    handle_mail_config_v11(host, emailaddress)
}

/// `GET /v1.1/mail/config-v1.1.xml?emailaddress=..`
pub fn v11_mail_config_v11(host: DomainConfiguration, emailaddress: Option<&str>) -> (r: AutoDiscoverXml)
    ensures
        r@ == mail_config_answer(host, opt_chars(emailaddress)),
{
    handle_mail_config_v11(host, emailaddress)
}

/// `GET /.well-known/autoconfig/mail/config-v1.1.xml?emailaddress=..`
pub fn well_known_mail_config_v11(host: DomainConfiguration, emailaddress: Option<&str>) -> (r: AutoDiscoverXml)
    ensures
        r@ == mail_config_answer(host, opt_chars(emailaddress)),
{
    handle_mail_config_v11(host, emailaddress)
}

// ---------------------------------------------------------------------
// Microsoft autodiscover, JSON

/// The protocols that the JSON autodiscover endpoint knows (both spellings
/// that clients send for version 1 of the XML protocol).
pub open spec fn is_supported_protocol(p: Seq<char>) -> bool {
    p == "AutodiscoverV1"@ || p == "Autodiscoverv1"@
}

/// Where a mail domain's XML autodiscover service is.
pub open spec fn autodiscover_xml_url(domain: Seq<char>) -> Seq<char> {
    "https://"@ + domain + "/Autodiscover/Autodiscover.xml"@
}

/// The message of the JSON error for an unknown protocol.
pub open spec fn invalid_protocol_message() -> Seq<char> {
    "The given protocol value is invalid. Supported values are \"AutodiscoverV1\" or \"Autodiscoverv1\"."@
}

/// `r` is the JSON autodiscover answer for `domain` and the requested
/// `protocol`: the XML service's URL for a supported protocol (named as it
/// was asked for), the `InvalidProtocol` error for any other or none.
pub open spec fn is_json_answer(
    r: Result<AutoDiscoverJson, AutoDiscoverJsonError>,
    domain: Seq<char>,
    protocol: Option<Seq<char>>,
) -> bool {
    match r {
        Ok(j) => {
            &&& protocol matches Some(p) && is_supported_protocol(p)
            &&& j.Protocol@ == protocol.unwrap()
            &&& j.Url@ == autodiscover_xml_url(domain)
        },
        Err(e) => {
            &&& !(protocol matches Some(p) && is_supported_protocol(p))
            &&& e.ErrorCode@ == "InvalidProtocol"@
            &&& e.ErrorMessage@ == invalid_protocol_message()
        },
    }
}

fn autodiscover_xml_url_of(domain: &str) -> (r: String)
    ensures
        r@ == autodiscover_xml_url(domain@),
{
    let mut url = String::from_str("https://");
    url.append(domain);
    url.append("/Autodiscover/Autodiscover.xml");
    url
}

fn autodiscover_json(host: DomainConfiguration, protocol: Option<&str>) -> (r: Result<AutoDiscoverJson, AutoDiscoverJsonError>)
    ensures
        is_json_answer(r, host.domain@, opt_chars(protocol)),
{
    if let Some(p) = protocol {
        if str_equal(p, "AutodiscoverV1") {
            return Ok(AutoDiscoverJson {
                Protocol: String::from_str("AutodiscoverV1"),
                Url: autodiscover_xml_url_of(host.domain),
            });
        }
        if str_equal(p, "Autodiscoverv1") {
            return Ok(AutoDiscoverJson {
                Protocol: String::from_str("Autodiscoverv1"),
                Url: autodiscover_xml_url_of(host.domain),
            });
        }
    }
    Err(AutoDiscoverJsonError {
        ErrorCode: String::from_str("InvalidProtocol"),
        ErrorMessage: String::from_str(
            "The given protocol value is invalid. Supported values are \"AutodiscoverV1\" or \"Autodiscoverv1\".",
        ),
    })
}

/// `GET /autodiscover/autodiscover.json?Email=..&Protocol=..&RedirectCount=..`
pub fn post_mail_autodiscover_microsoft_json(
    host: DomainConfiguration,
    Email: Option<&str>,
    Protocol: Option<&str>,
    RedirectCount: Option<&str>,
) -> (r: Result<AutoDiscoverJson, AutoDiscoverJsonError>)
    ensures
        is_json_answer(r, host.domain@, opt_chars(Protocol)),
{
    autodiscover_json(host, Protocol)
}

/// `GET /autodiscover/autodiscover.json/v1.0/infos?Email=..&Protocol=..&RedirectCount=..`
pub fn post_mail_autodiscover_microsoft_json_legacy(
    host: DomainConfiguration,
    Email: Option<&str>,
    Protocol: Option<&str>,
    RedirectCount: Option<&str>,
) -> (r: Result<AutoDiscoverJson, AutoDiscoverJsonError>)
    ensures
        is_json_answer(r, host.domain@, opt_chars(Protocol)),
{
    autodiscover_json(host, Protocol)
}

/// The JSON answer is determined by the domain and the requested protocol
/// alone: two answers that both meet `is_json_answer` for the same inputs
/// (as those of the two JSON endpoints do) say the same.
pub proof fn lemma_json_answer_unique(
    r1: Result<AutoDiscoverJson, AutoDiscoverJsonError>,
    r2: Result<AutoDiscoverJson, AutoDiscoverJsonError>,
    domain: Seq<char>,
    protocol: Option<Seq<char>>,
)
    requires
        is_json_answer(r1, domain, protocol),
        is_json_answer(r2, domain, protocol),
    ensures
        r1 is Ok <==> r2 is Ok,
        r1 matches Ok(a) ==> r2 matches Ok(b) && a.Protocol@ == b.Protocol@ && a.Url@ == b.Url@,
        r1 matches Err(a) ==> r2 matches Err(b) && a.ErrorCode@ == b.ErrorCode@ && a.ErrorMessage@ == b.ErrorMessage@,
{
}

/// A JSON answer is a success exactly for the two supported protocol names.
pub proof fn lemma_json_answer_success(
    r: Result<AutoDiscoverJson, AutoDiscoverJsonError>,
    domain: Seq<char>,
    protocol: Option<Seq<char>>,
)
    requires
        is_json_answer(r, domain, protocol),
    ensures
        r is Ok <==> (protocol == Some("AutodiscoverV1"@) || protocol == Some("Autodiscoverv1"@)),
{
}

// ---------------------------------------------------------------------
// Microsoft autodiscover, XML

/// The response schema of Outlook's autodiscover protocol, the only one
/// answered.
pub open spec fn outlook_schema() -> Seq<char> {
    "http://schemas.microsoft.com/exchange/autodiscover/outlook/responseschema/2006a"@
}

/// Whether a request (with its body, where it has one) is answered with the
/// autodiscover document: a bare request is, a body only where it asks for
/// Outlook's response schema.
pub open spec fn accepts_payload(payload: Option<AutoDiscoverXmlPayload>) -> bool {
    match payload {
        Some(p) => p.Request.AcceptableResponseSchema@ == outlook_schema(),
        None => true,
    }
}

/// The address shown in the autodiscover document: the completed address
/// of the body where it names one, empty otherwise.
pub open spec fn autodiscover_email(payload: Option<AutoDiscoverXmlPayload>, domain: Seq<char>) -> Seq<char> {
    match payload {
        Some(p) => match p.Request.EMailAddress {
            Some(e) => completed_email(e@, domain),
            None => Seq::empty(),
        },
        None => Seq::empty(),
    }
}

/// Where the body names an address, the document shows an address that
/// names a host.
pub proof fn lemma_autodiscover_email_has_at(p: AutoDiscoverXmlPayload, domain: Seq<char>)
    requires
        p.Request.EMailAddress is Some,
    ensures
        autodiscover_email(Some(p), domain).contains('@'),
{
    lemma_completed_email_has_at(p.Request.EMailAddress.unwrap()@, domain);
}

/// The autodiscover document for `host` answering `payload`.
pub open spec fn autodiscover_answer(host: DomainConfiguration, payload: Option<AutoDiscoverXmlPayload>) -> (Seq<char>, PageView) {
    (
        host.domain@,
        PageView::Autodiscover {
            email_address: autodiscover_email(payload, host.domain@),
            domain: host.domain@,
            display_name: host.config.display_name@,
            imap: host.config.imap,
            pop: host.config.pop,
            smtp: host.config.smtp,
        },
    )
}

/// `e` is an autodiscover error document stamped with a wall clock time
/// and a UNIX timestamp.
pub open spec fn is_stamped_autodiscover_error(e: AutoDiscoverXmlError) -> bool {
    &&& e@ matches PageView::AutodiscoverError { time, id }
    &&& is_clock_time(time)
    &&& is_decimal_seconds(id)
}

/// `r` answers `payload` for `host`: the autodiscover document exactly when
/// the payload is accepted, a stamped error document otherwise.
pub open spec fn is_autodiscover_outcome(
    r: Result<AutoDiscoverXml, AutoDiscoverXmlError>,
    host: DomainConfiguration,
    payload: Option<AutoDiscoverXmlPayload>,
) -> bool {
    match r {
        Ok(x) => accepts_payload(payload) && x@ == autodiscover_answer(host, payload),
        Err(e) => !accepts_payload(payload) && is_stamped_autodiscover_error(e),
    }
}

/// Two answers to the same request succeed or fail together, and where
/// they succeed they are the same document: an accepted request is answered
/// from the host and body alone, whatever the clock shows.
pub proof fn lemma_autodiscover_outcome_unique(
    r1: Result<AutoDiscoverXml, AutoDiscoverXmlError>,
    r2: Result<AutoDiscoverXml, AutoDiscoverXmlError>,
    host: DomainConfiguration,
    payload: Option<AutoDiscoverXmlPayload>,
)
    requires
        is_autodiscover_outcome(r1, host, payload),
        is_autodiscover_outcome(r2, host, payload),
    ensures
        r1 is Ok <==> r2 is Ok,
        r1 is Ok <==> accepts_payload(payload),
        r1 matches Ok(a) ==> r2 matches Ok(b) && a@ == b@,
        r1 matches Err(a) ==> r2 matches Err(b) && is_stamped_autodiscover_error(a)
            && is_stamped_autodiscover_error(b),
{
}

/// A body that asks for Outlook's schema and names no address gets the
/// same document as a bare request (the `GET` endpoints).
pub proof fn lemma_addressless_body_gets_get_answer(
    r1: Result<AutoDiscoverXml, AutoDiscoverXmlError>,
    r2: Result<AutoDiscoverXml, AutoDiscoverXmlError>,
    host: DomainConfiguration,
    p: AutoDiscoverXmlPayload,
)
    requires
        p.Request.AcceptableResponseSchema@ == outlook_schema(),
        p.Request.EMailAddress is None,
        is_autodiscover_outcome(r1, host, Some(p)),
        is_autodiscover_outcome(r2, host, None),
    ensures
        r1 matches Ok(a) && r2 matches Ok(b) && a@ == b@,
{
}

/// The autodiscover error document for a request refused at local time
/// `time` (`HH:MM:SS`), identified by the UNIX timestamp `id`.
pub fn autodiscover_error(time: String, id: String) -> (r: AutoDiscoverXmlError)
    ensures
        r.template == (PageTemplate::AutodiscoverError { time, id }),
{
    AutoDiscoverXmlError { template: PageTemplate::AutodiscoverError { time, id } }
}

/// The Microsoft autodiscover answer shared by its `GET` and `POST`
/// endpoints, for a bare request (`None`) or one with a body.
pub fn autodiscover_microsoft(host: DomainConfiguration, payload: Option<AutoDiscoverXmlPayload>) -> (r: Result<AutoDiscoverXml, AutoDiscoverXmlError>)
    ensures
        is_autodiscover_outcome(r, host, payload),
{
    let email_address = match &payload {
        Some(p) => match &p.Request.EMailAddress {
            Some(v) => complete_email(v.as_str(), host.domain),
            None => String::new(),
        },
        None => String::new(),
    };
    let accepted = match &payload {
        Some(p) => str_equal(
            p.Request.AcceptableResponseSchema.as_str(),
            "http://schemas.microsoft.com/exchange/autodiscover/outlook/responseschema/2006a",
        ),
        None => true,
    };
    if accepted {
        Ok(AutoDiscoverXml {
            domain: host.domain,
            template: PageTemplate::Autodiscover {
                email_address,
                domain: host.domain,
                display_name: host.config.display_name,
                imap: host.config.imap,
                pop: host.config.pop,
                smtp: host.config.smtp,
            },
        })
    } else {
        let (time, id) = local_time_and_timestamp();
        Err(autodiscover_error(time, id))
    }
}

/// `GET /autodiscover/autodiscover.xml`: always the autodiscover document,
/// with no address.
pub fn mail_autodiscover_microsoft(host: DomainConfiguration) -> (r: Result<AutoDiscoverXml, AutoDiscoverXmlError>)
    ensures
        r matches Ok(x) && x@ == autodiscover_answer(host, None),
{
    autodiscover_microsoft(host, None)
}

/// `GET /Autodiscover/Autodiscover.xml`: as `mail_autodiscover_microsoft`.
pub fn mail_autodiscover_microsoft_case(host: DomainConfiguration) -> (r: Result<AutoDiscoverXml, AutoDiscoverXmlError>)
    ensures
        r matches Ok(x) && x@ == autodiscover_answer(host, None),
{
    autodiscover_microsoft(host, None)
}

/// `GET /AutoDiscover/AutoDiscover.xml`: as `mail_autodiscover_microsoft`.
pub fn mail_autodiscover_microsoft_camel_case(host: DomainConfiguration) -> (r: Result<AutoDiscoverXml, AutoDiscoverXmlError>)
    ensures
        r matches Ok(x) && x@ == autodiscover_answer(host, None),
{
    autodiscover_microsoft(host, None)
}

/// `POST /autodiscover/autodiscover.xml`: the autodiscover document for a
/// body that asks for Outlook's schema, the stamped error document otherwise.
pub fn post_mail_autodiscover_microsoft(host: DomainConfiguration, payload: AutoDiscoverXmlPayload) -> (r: Result<AutoDiscoverXml, AutoDiscoverXmlError>)
    ensures
        is_autodiscover_outcome(r, host, Some(payload)),
{
    autodiscover_microsoft(host, Some(payload))
}

/// `POST /Autodiscover/Autodiscover.xml`: as `post_mail_autodiscover_microsoft`.
pub fn post_mail_autodiscover_microsoft_case(host: DomainConfiguration, payload: AutoDiscoverXmlPayload) -> (r: Result<AutoDiscoverXml, AutoDiscoverXmlError>)
    ensures
        is_autodiscover_outcome(r, host, Some(payload)),
{
    autodiscover_microsoft(host, Some(payload))
}

/// `POST /AutoDiscover/AutoDiscover.xml`: as `post_mail_autodiscover_microsoft`.
pub fn post_mail_autodiscover_microsoft_camel_case(host: DomainConfiguration, payload: AutoDiscoverXmlPayload) -> (r: Result<AutoDiscoverXml, AutoDiscoverXmlError>)
    ensures
        is_autodiscover_outcome(r, host, Some(payload)),
{
    autodiscover_microsoft(host, Some(payload))
}

// ---------------------------------------------------------------------
// Apple configuration profile

/// The configuration profile for `host` that configures `email`.
pub open spec fn mobileconfig_answer(host: DomainConfiguration, email: Seq<char>) -> (Seq<char>, PageView) {
    (
        host.domain@,
        PageView::AppleMobileconfig {
            domain: host.domain@,
            display_name: host.config.display_name@,
            imap: host.config.imap,
            pop: host.config.pop,
            smtp: host.config.smtp,
            email_address: email,
            mail_uuid: host.config.mail_uuid@,
            profile_uuid: host.config.profile_uuid@,
        },
    )
}

/// `GET /email.mobileconfig?email=..`: the configuration profile for the
/// given address, or for the given user name at the request's domain.
pub fn mail_autodiscover_apple_mobileconfig(host: DomainConfiguration, email: &str) -> (r: AppleResponse)
    ensures
        r@ == mobileconfig_answer(host, completed_email(email@, host.domain@)),
{
    let email_address = complete_email(email, host.domain);
    AppleResponse {
        domain: host.domain,
        template: PageTemplate::AppleMobileconfig {
            domain: host.domain,
            display_name: host.config.display_name,
            imap: host.config.imap,
            pop: host.config.pop,
            smtp: host.config.smtp,
            email_address,
            mail_uuid: host.config.mail_uuid,
            profile_uuid: host.config.profile_uuid,
        },
    }
}

// ---------------------------------------------------------------------
// What the answers hold, field by field

/// An address that names no host is completed to exactly the user name,
/// one `@` and the whole domain; one that names a host is kept unchanged.
pub proof fn lemma_completed_email_parts(e: Seq<char>, domain: Seq<char>)
    ensures
        e.contains('@') ==> completed_email(e, domain) == e,
        !e.contains('@') ==> {
            let c = completed_email(e, domain);
            &&& c.len() == e.len() + 1 + domain.len()
            &&& c.subrange(0, e.len() as int) == e
            &&& c[e.len() as int] == '@'
            &&& c.subrange(e.len() + 1int, c.len() as int) == domain
        },
{
    if !e.contains('@') {
        let c = completed_email(e, domain);
        assert(c.subrange(0, e.len() as int) =~= e);
        assert(c.subrange(e.len() + 1int, c.len() as int) =~= domain);
    }
}

/// A `config-v1.1.xml` answer is for the request's domain, shows its name
/// and exactly its IMAP, POP and SMTP services, and shows the placeholder
/// `%EMAILADDRESS%` when no address was sent, the completed address
/// otherwise.
pub proof fn lemma_mail_config_page(r: AutoDiscoverXml, host: DomainConfiguration, e: Option<Seq<char>>)
    requires
        r@ == mail_config_answer(host, e),
    ensures
        r.domain@ == host.domain@,
        r.template matches PageTemplate::MailConfig { domain, display_name, email, imap, pop, smtp } && domain@
            == host.domain@ && display_name@ == host.config.display_name@ && imap == host.config.imap && pop
            == host.config.pop && smtp == host.config.smtp && (e is None ==> email@ == "%EMAILADDRESS%"@)
            && (e matches Some(x) ==> email@ == completed_email(x, host.domain@)),
{
}

/// An autodiscover answer is a document exactly for a bare request or a
/// body that asks for Outlook's schema. The document is for the request's
/// domain, shows its name and exactly its IMAP, POP and SMTP services, and
/// the completed address of the body (empty where there is none). Any other
/// request gets an error document with the time as `HH:MM:SS` and a decimal
/// timestamp.
pub proof fn lemma_autodiscover_page(
    r: Result<AutoDiscoverXml, AutoDiscoverXmlError>,
    host: DomainConfiguration,
    payload: Option<AutoDiscoverXmlPayload>,
)
    requires
        is_autodiscover_outcome(r, host, payload),
    ensures
        r is Ok <==> (payload is None || payload->0.Request.AcceptableResponseSchema@
            == "http://schemas.microsoft.com/exchange/autodiscover/outlook/responseschema/2006a"@),
        r matches Ok(x) ==> x.domain@ == host.domain@,
        r matches Ok(x) ==> (x.template matches PageTemplate::Autodiscover {
            email_address,
            domain,
            display_name,
            imap,
            pop,
            smtp,
        } && domain@ == host.domain@ && display_name@ == host.config.display_name@ && imap
            == host.config.imap && pop == host.config.pop && smtp == host.config.smtp && email_address@ == (
        match payload {
            Some(p) => match p.Request.EMailAddress {
                Some(a) => completed_email(a@, host.domain@),
                None => Seq::<char>::empty(),
            },
            None => Seq::<char>::empty(),
        })),
        r matches Err(x) ==> (x.template matches PageTemplate::AutodiscoverError { time, id } && is_clock_time(
            time@,
        ) && is_decimal_seconds(id@)),
{
}

/// A configuration profile is for the request's domain, shows its name,
/// exactly its IMAP, POP and SMTP services and its two UUIDs, and
/// configures the completed address.
pub proof fn lemma_mobileconfig_page(r: AppleResponse, host: DomainConfiguration, email: Seq<char>)
    requires
        r@ == mobileconfig_answer(host, completed_email(email, host.domain@)),
    ensures
        r.domain@ == host.domain@,
        r.template matches PageTemplate::AppleMobileconfig {
            domain,
            display_name,
            imap,
            pop,
            smtp,
            email_address,
            mail_uuid,
            profile_uuid,
        } && domain@ == host.domain@ && display_name@ == host.config.display_name@ && imap == host.config.imap
            && pop == host.config.pop && smtp == host.config.smtp && email_address@ == completed_email(
            email,
            host.domain@,
        ) && mail_uuid@ == host.config.mail_uuid@ && profile_uuid@ == host.config.profile_uuid@,
{
}

/// A successful JSON answer names the protocol asked for, and its URL is
/// `https://`, then the whole domain, then `/Autodiscover/Autodiscover.xml`;
/// a failed one is the `InvalidProtocol` error with its fixed message.
pub proof fn lemma_json_answer_shape(
    r: Result<AutoDiscoverJson, AutoDiscoverJsonError>,
    domain: Seq<char>,
    protocol: Option<Seq<char>>,
)
    requires
        is_json_answer(r, domain, protocol),
    ensures
        r matches Ok(j) ==> {
            &&& j.Protocol@ == protocol->0
            &&& j.Url@.len() == domain.len() + 38
            &&& j.Url@.subrange(0, 8) == "https://"@
            &&& j.Url@.subrange(8, 8 + domain.len() as int) == domain
            &&& j.Url@.subrange(8 + domain.len() as int, j.Url@.len() as int) == "/Autodiscover/Autodiscover.xml"@
        },
        r matches Err(x) ==> {
            &&& x.ErrorCode@ == "InvalidProtocol"@
            &&& x.ErrorMessage@
                == "The given protocol value is invalid. Supported values are \"AutodiscoverV1\" or \"Autodiscoverv1\"."@
        },
{
    if r is Ok {
        let u = r->Ok_0.Url@;
        reveal_strlit("https://");
        reveal_strlit("/Autodiscover/Autodiscover.xml");
        assert(u.subrange(0, 8) =~= "https://"@);
        assert(u.subrange(8, 8 + domain.len() as int) =~= domain);
        assert(u.subrange(8 + domain.len() as int, u.len() as int) =~= "/Autodiscover/Autodiscover.xml"@);
    }
}

/// Whether a request is answered with the autodiscover document depends on
/// the schema alone: a bare request is, a body exactly where it asks for
/// Outlook's schema.
pub proof fn lemma_accepted_schemas(payload: Option<AutoDiscoverXmlPayload>)
    ensures
        accepts_payload(payload) <==> (payload is None || payload->0.Request.AcceptableResponseSchema@
            == "http://schemas.microsoft.com/exchange/autodiscover/outlook/responseschema/2006a"@),
{
}

} // verus!
