//! What the endpoints answer with: the page templates with the values they
//! are filled with, and the JSON and XML bodies of the Microsoft protocol.

use vstd::prelude::*;
use crate::config::Service;

verus! {

/// A page template together with the values it is rendered with.
#[derive(Debug, Clone)]
pub enum PageTemplate {
    /// The Thunderbird-style `config-v1.1.xml` document.
    MailConfig {
        domain: &'static str,
        display_name: &'static str,
        email: String,
        imap: Service,
        pop: Service,
        smtp: Service,
    },
    /// The Microsoft (Outlook) autodiscover XML document.
    Autodiscover {
        email_address: String,
        domain: &'static str,
        display_name: &'static str,
        imap: Service,
        pop: Service,
        smtp: Service,
    },
    /// The Microsoft autodiscover error document.
    AutodiscoverError { time: String, id: String },
    /// The Apple configuration profile (`.mobileconfig`).
    AppleMobileconfig {
        domain: &'static str,
        display_name: &'static str,
        imap: Service,
        pop: Service,
        smtp: Service,
        email_address: String,
        mail_uuid: &'static str,
        profile_uuid: &'static str,
    },
    /// The DNS zone records that announce the mail services.
    DnsZone {
        imap_hostname: &'static str,
        pop_hostname: &'static str,
        smtp_hostname: &'static str,
    },
    /// The landing page.
    Index { name: &'static str },
    /// The page that explains the Apple profile.
    Apple { name: &'static str },
}

/// A page template with its values, strings taken by their characters.
pub enum PageView {
    MailConfig {
        domain: Seq<char>,
        display_name: Seq<char>,
        email: Seq<char>,
        imap: Service,
        pop: Service,
        smtp: Service,
    },
    Autodiscover {
        email_address: Seq<char>,
        domain: Seq<char>,
        display_name: Seq<char>,
        imap: Service,
        pop: Service,
        smtp: Service,
    },
    AutodiscoverError { time: Seq<char>, id: Seq<char> },
    AppleMobileconfig {
        domain: Seq<char>,
        display_name: Seq<char>,
        imap: Service,
        pop: Service,
        smtp: Service,
        email_address: Seq<char>,
        mail_uuid: Seq<char>,
        profile_uuid: Seq<char>,
    },
    DnsZone { imap_hostname: Seq<char>, pop_hostname: Seq<char>, smtp_hostname: Seq<char> },
    Index { name: Seq<char> },
    Apple { name: Seq<char> },
}

impl View for PageTemplate {
    type V = PageView;

    open spec fn view(&self) -> PageView {
        match *self {
            PageTemplate::MailConfig { domain, display_name, email, imap, pop, smtp } => PageView::MailConfig {
                domain: domain@,
                display_name: display_name@,
                email: email@,
                imap,
                pop,
                smtp,
            },
            PageTemplate::Autodiscover { email_address, domain, display_name, imap, pop, smtp } =>
                PageView::Autodiscover {
                email_address: email_address@,
                domain: domain@,
                display_name: display_name@,
                imap,
                pop,
                smtp,
            },
            PageTemplate::AutodiscoverError { time, id } => PageView::AutodiscoverError { time: time@, id: id@ },
            PageTemplate::AppleMobileconfig {
                domain,
                display_name,
                imap,
                pop,
                smtp,
                email_address,
                mail_uuid,
                profile_uuid,
            } => PageView::AppleMobileconfig {
                domain: domain@,
                display_name: display_name@,
                imap,
                pop,
                smtp,
                email_address: email_address@,
                mail_uuid: mail_uuid@,
                profile_uuid: profile_uuid@,
            },
            PageTemplate::DnsZone { imap_hostname, pop_hostname, smtp_hostname } => PageView::DnsZone {
                imap_hostname: imap_hostname@,
                pop_hostname: pop_hostname@,
                smtp_hostname: smtp_hostname@,
            },
            PageTemplate::Index { name } => PageView::Index { name: name@ },
            PageTemplate::Apple { name } => PageView::Apple { name: name@ },
        }
    }
}

/// The name under which each kind of page template is stored.
pub open spec fn template_name_of(t: PageTemplate) -> Seq<char> {
    match t {
        PageTemplate::MailConfig { .. } => "xml/config-v1.1"@,
        PageTemplate::Autodiscover { .. } => "xml/autodiscover"@,
        PageTemplate::AutodiscoverError { .. } => "xml/autodiscover-error"@,
        PageTemplate::AppleMobileconfig { .. } => "xml/email_mobileconfig"@,
        PageTemplate::DnsZone { .. } => "dns/zone"@,
        PageTemplate::Index { .. } => "index"@,
        PageTemplate::Apple { .. } => "apple"@,
    }
}

/// The template file of each kind of page.
pub proof fn lemma_template_names(t: PageTemplate)
    ensures
        t is MailConfig ==> template_name_of(t) == "xml/config-v1.1"@,
        t is Autodiscover ==> template_name_of(t) == "xml/autodiscover"@,
        t is AutodiscoverError ==> template_name_of(t) == "xml/autodiscover-error"@,
        t is AppleMobileconfig ==> template_name_of(t) == "xml/email_mobileconfig"@,
        t is DnsZone ==> template_name_of(t) == "dns/zone"@,
        t is Index ==> template_name_of(t) == "index"@,
        t is Apple ==> template_name_of(t) == "apple"@,
{
}

impl PageTemplate {
    /// The name of the template file this page is rendered from.
    pub fn template_name(&self) -> (r: &'static str)
        ensures
            r@ == template_name_of(*self),
    {
        match self {
            PageTemplate::MailConfig { .. } => "xml/config-v1.1",
            PageTemplate::Autodiscover { .. } => "xml/autodiscover",
            PageTemplate::AutodiscoverError { .. } => "xml/autodiscover-error",
            PageTemplate::AppleMobileconfig { .. } => "xml/email_mobileconfig",
            PageTemplate::DnsZone { .. } => "dns/zone",
            PageTemplate::Index { .. } => "index",
            PageTemplate::Apple { .. } => "apple",
        }
    }
}

/// An XML answer for a mail domain.
#[derive(Debug, Clone)]
pub struct AutoDiscoverXml {
    pub domain: &'static str,
    pub template: PageTemplate,
}

impl View for AutoDiscoverXml {
    type V = (Seq<char>, PageView);

    open spec fn view(&self) -> (Seq<char>, PageView) {
        (self.domain@, self.template@)
    }
}

/// The XML error answer of the Microsoft autodiscover protocol.
#[derive(Debug, Clone)]
pub struct AutoDiscoverXmlError {
    pub template: PageTemplate,
}

impl View for AutoDiscoverXmlError {
    type V = PageView;

    open spec fn view(&self) -> PageView {
        self.template@
    }
}

/// The `Request` element of a Microsoft autodiscover POST body.
#[derive(Debug, Clone)]
pub struct AutoDiscoverXmlRequest {
    pub EMailAddress: Option<String>,
    pub AcceptableResponseSchema: String,
}

/// A Microsoft autodiscover POST body.
#[derive(Debug, Clone)]
pub struct AutoDiscoverXmlPayload {
    pub Request: AutoDiscoverXmlRequest,
}

/// The JSON answer of the Microsoft autodiscover protocol: where the XML
/// autodiscover service is.
#[derive(Debug, Clone)]
pub struct AutoDiscoverJson {
    pub Protocol: String,
    pub Url: String,
}

/// The JSON error answer of the Microsoft autodiscover protocol.
#[derive(Debug, Clone)]
pub struct AutoDiscoverJsonError {
    pub ErrorCode: String,
    pub ErrorMessage: String,
}

/// The Apple configuration profile answer.
#[derive(Debug, Clone)]
pub struct AppleResponse {
    pub domain: &'static str,
    pub template: PageTemplate,
}

impl View for AppleResponse {
    type V = (Seq<char>, PageView);

    open spec fn view(&self) -> (Seq<char>, PageView) {
        (self.domain@, self.template@)
    }
}

/// The DNS zone answer, offered as a file download.
#[derive(Debug, Clone)]
pub struct DnsTxtResponse {
    pub template: PageTemplate,
    pub domain: &'static str,
}

impl View for DnsTxtResponse {
    type V = (Seq<char>, PageView);

    open spec fn view(&self) -> (Seq<char>, PageView) {
        (self.domain@, self.template@)
    }
}

/// The media type of the XML documents.
pub const XML_CONTENT_TYPE: &'static str = "text/xml; charset=utf-8";

/// The media type of the Apple configuration profile.
pub const APPLE_PROFILE_CONTENT_TYPE: &'static str = "application/x-apple-aspen-config; charset=utf-8";

/// The media type of the DNS zone download.
pub const DNS_ZONE_CONTENT_TYPE: &'static str = "text/plain; charset=utf-8";

/// The `Content-Disposition` header value of the DNS zone download of `domain`.
pub open spec fn dns_zone_disposition(domain: Seq<char>) -> Seq<char> {
    "attachment; filename=\""@ + domain + "-dns-zone.txt\""@
}

/// The zone download is offered as an attachment named after the whole
/// domain: `attachment; filename="`, the domain, then `-dns-zone.txt"`.
pub proof fn lemma_dns_zone_disposition_shape(domain: Seq<char>)
    ensures
        dns_zone_disposition(domain).len() == domain.len() + 36,
        dns_zone_disposition(domain).subrange(0, 22) == "attachment; filename=\""@,
        dns_zone_disposition(domain).subrange(22, 22 + domain.len() as int) == domain,
        dns_zone_disposition(domain).subrange(22 + domain.len() as int, domain.len() + 36int) == "-dns-zone.txt\""@,
{
    let d = dns_zone_disposition(domain);
    reveal_strlit("attachment; filename=\"");
    reveal_strlit("-dns-zone.txt\"");
    assert(d.subrange(0, 22) =~= "attachment; filename=\""@);
    assert(d.subrange(22, 22 + domain.len() as int) =~= domain);
    assert(d.subrange(22 + domain.len() as int, domain.len() + 36int) =~= "-dns-zone.txt\""@);
}

impl DnsTxtResponse {
    /// The `Content-Disposition` header that offers the zone as the file
    /// `<domain>-dns-zone.txt`.
    pub fn content_disposition(&self) -> (r: String)
        ensures
            r@ == dns_zone_disposition(self.domain@),
    {
        let mut r = String::from_str("attachment; filename=\"");
        r.append(self.domain);
        r.append("-dns-zone.txt\"");
        r
    }
}

} // verus!
