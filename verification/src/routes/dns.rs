//! The DNS zone records that announce a mail domain's services.

use vstd::prelude::*;
use crate::config::DomainConfiguration;
use crate::resources::DnsTxtResponse;
use crate::resources::PageTemplate;

verus! {

/// `GET /dns-zone`: the zone file download for the request's domain,
/// naming the hosts of its IMAP, POP and SMTP services.
pub fn dns_txt_zone(host: DomainConfiguration) -> (r: DnsTxtResponse)
    ensures
        r.domain == host.domain,
        r.template == (PageTemplate::DnsZone {
            imap_hostname: host.config.imap.hostname,
            pop_hostname: host.config.pop.hostname,
            smtp_hostname: host.config.smtp.hostname,
        }),
{
    DnsTxtResponse {
        domain: host.domain,
        template: PageTemplate::DnsZone {
            imap_hostname: host.config.imap.hostname,
            pop_hostname: host.config.pop.hostname,
            smtp_hostname: host.config.smtp.hostname,
        },
    }
}

} // verus!
