//! The mail domains this service answers for, and how a request's host
//! picks one of them.

use vstd::prelude::*;
use crate::text::lowercase;
use crate::text::to_lowercase;
use crate::text::opt_chars;

verus! {

/// How a client secures its connection to a service port.
#[derive(Debug, Clone, Copy, PartialEq, Eq, Structural)]
pub enum SSLType {
    /// No transport security (named `None` where the type is serialized).
    Plain,
    SSL,
    StartTls,
}

/// One port of a mail service and the transport security it expects.
#[derive(Debug, Clone, Copy, PartialEq, Eq, Structural)]
pub struct ServiceInstance {
    pub port: u16,
    pub ssl: SSLType,
}

/// A mail service (IMAP, POP or SMTP): its host and the ports it listens on.
#[derive(Debug, Clone, Copy)]
pub struct Service {
    pub hostname: &'static str,
    pub instances: &'static [ServiceInstance],
}

/// Everything a mail client is told about one mail domain.
#[derive(Debug, Clone, Copy)]
pub struct DomainConfig {
    pub display_name: &'static str,
    pub imap: Service,
    pub pop: Service,
    pub smtp: Service,
    pub profile_uuid: &'static str,
    pub mail_uuid: &'static str,
}

/// The mail domain a request is answered for, with its configuration.
#[derive(Debug, Clone, Copy)]
pub struct DomainConfiguration {
    pub domain: &'static str,
    pub config: &'static DomainConfig,
}

/// The domains this service knows: a default one, and a table of further
/// domains keyed by their lower-case name.
#[derive(Debug, Clone, Copy)]
pub struct Config {
    pub default_config: DomainConfig,
    pub default_domain: &'static str,
    pub domains: &'static phf::Map<&'static str, DomainConfig>,
}

#[verifier::external_type_specification]
#[verifier::external_body]
#[verifier::reject_recursive_types(K)]
#[verifier::reject_recursive_types(V)]
pub struct ExPhfMap<K: 'static, V: 'static>(phf::Map<K, V>);

/// The domain table of a `phf::Map`: the keys (by their characters) for
/// which `phf::Map::get_entry` answers `Some`, each with the configuration
/// it answers with.
pub uninterp spec fn domain_table(m: phf::Map<&'static str, DomainConfig>) -> Map<Seq<char>, DomainConfig>;

/// The number of entries a `phf::Map` stores (what `phf::Map::len` gives).
pub uninterp spec fn entry_count(m: phf::Map<&'static str, DomainConfig>) -> nat;

/// The number of rows of a `phf::Map`'s displacement table (its `disps`).
pub uninterp spec fn displacement_count(m: phf::Map<&'static str, DomainConfig>) -> nat;

/// Whether `phf::Map::get_entry` can be asked of `m` without panicking:
/// it reduces hashes modulo both counts taken as `u32`, so neither may be
/// zero or beyond `u32::MAX` (an empty displacement table is answered
/// with `None` before any reduction; such a map is not looked into here).
pub open spec fn searchable(m: phf::Map<&'static str, DomainConfig>) -> bool {
    &&& 0 < entry_count(m) <= u32::MAX
    &&& 0 < displacement_count(m) <= u32::MAX
}

/// Counts a domain table's entries with `phf::Map::len`. Claimed of it: it
/// gives `entry_count`.
#[verifier::external_body]
fn entry_count_of(domains: &'static phf::Map<&'static str, DomainConfig>) -> (r: usize)
    ensures
        r == entry_count(*domains),
{
    domains.len()
}

/// Reads the length of a domain table's displacement table (the public
/// field `disps` of `phf::Map`). Claimed of it: it gives
/// `displacement_count`.
#[verifier::external_body]
fn displacement_count_of(domains: &'static phf::Map<&'static str, DomainConfig>) -> (r: usize)
    ensures
        r == displacement_count(*domains),
{
    domains.disps.len()
}

/// Looks a domain up with `phf::Map::get_entry`. Claimed of it: it answers
/// `Some` exactly for the keys of `domain_table` (which names those keys),
/// with the stored key, equal to the one asked for, and the configuration
/// stored under it.
#[verifier::external_body]
fn domain_entry(domains: &'static phf::Map<&'static str, DomainConfig>, key: &str) -> (r: Option<(&'static str, &'static DomainConfig)>)
    requires
        searchable(*domains),
    ensures
        r is Some <==> domain_table(*domains).dom().contains(key@),
        r matches Some(e) ==> e.0@ == key@ && *e.1 == domain_table(*domains)[key@],
{
    match domains.get_entry(key) {
        Some((k, v)) => Some((*k, v)),
        None => None,
    }
}

/// The table that holds no domain, `phf::Map::new()`. Claimed of it: it has
/// no entries and no displacement rows, so every lookup answers `None`.
#[verifier::external_body]
fn empty_domain_table() -> (r: &'static phf::Map<&'static str, DomainConfig>)
    ensures
        domain_table(*r).dom() == Set::<Seq<char>>::empty(),
        entry_count(*r) == 0,
        displacement_count(*r) == 0,
{
    Box::leak(Box::new(phf::Map::new()))
}

/// The domain name and configuration that a request for `host` is answered
/// with: the table's entry for the lower-cased host where there is one, the
/// default domain otherwise (also when the request names no host). A table
/// whose counts do not fit a `u32` is not looked into.
pub open spec fn resolution(config: Config, host: Option<Seq<char>>) -> (Seq<char>, DomainConfig) {
    match host {
        Some(h) if searchable(*config.domains) && domain_table(*config.domains).dom().contains(lowercase(h)) =>
            (lowercase(h), domain_table(*config.domains)[lowercase(h)]),
        _ => (config.default_domain@, config.default_config),
    }
}

/// Every request is answered for a configured domain: the default one, or a
/// key of the domain table with the configuration stored under it.
pub proof fn lemma_resolution_is_configured(config: Config, host: Option<Seq<char>>)
    ensures
        ({
            let (d, c) = resolution(config, host);
            (d == config.default_domain@ && c == config.default_config) || (domain_table(
                *config.domains,
            ).dom().contains(d) && c == domain_table(*config.domains)[d])
        }),
{
}

/// A request that names no host, or a host the table does not hold once
/// lower-cased, is answered for the default domain.
pub proof fn lemma_unknown_host_gets_default(config: Config, host: Option<Seq<char>>)
    requires
        host matches Some(h) ==> !domain_table(*config.domains).dom().contains(lowercase(h)),
    ensures
        resolution(config, host) == (config.default_domain@, config.default_config),
{
}

/// With an empty domain table (as the shipped configuration has), every
/// request is answered for the default domain, whatever host it names.
pub proof fn lemma_empty_table_answers_default(config: Config, host: Option<Seq<char>>)
    requires
        domain_table(*config.domains) == Map::<Seq<char>, DomainConfig>::empty(),
    ensures
        resolution(config, host) == (config.default_domain@, config.default_config),
{
}

/// A host whose lower-cased name is a key of a usable domain table (its
/// entry and displacement counts between 1 and `u32::MAX`) is answered for
/// that key, with the configuration stored under it.
pub proof fn lemma_known_host_gets_its_domain(config: Config, h: Seq<char>)
    requires
        0 < entry_count(*config.domains) <= u32::MAX,
        0 < displacement_count(*config.domains) <= u32::MAX,
        domain_table(*config.domains).dom().contains(lowercase(h)),
    ensures
        resolution(config, Some(h)).0 == lowercase(h),
        resolution(config, Some(h)).1 == domain_table(*config.domains)[lowercase(h)],
{
}

/// A request that names no host is answered for the default domain.
pub proof fn lemma_no_host_gets_default(config: Config)
    ensures
        resolution(config, None) == (config.default_domain@, config.default_config),
{
}

/// The shipped domain's services: IMAP on 993 (SSL) and 143 (STARTTLS),
/// POP on 995 (SSL) and 110 (STARTTLS), SMTP on 465 (SSL), 25 and 587
/// (STARTTLS), all on `mail.c0d3m4513r.com`.
pub proof fn lemma_shipped_services(c: DomainConfig)
    requires
        is_shipped_domain_config(c),
    ensures
        c.display_name@ == "C0D3 M4513R Mail"@,
        c.imap.hostname@ == "mail.c0d3m4513r.com"@,
        c.pop.hostname@ == "mail.c0d3m4513r.com"@,
        c.smtp.hostname@ == "mail.c0d3m4513r.com"@,
        c.imap.instances@ == seq![
            ServiceInstance { port: 993, ssl: SSLType::SSL },
            ServiceInstance { port: 143, ssl: SSLType::StartTls },
        ],
        c.pop.instances@ == seq![
            ServiceInstance { port: 995, ssl: SSLType::SSL },
            ServiceInstance { port: 110, ssl: SSLType::StartTls },
        ],
        c.smtp.instances@ == seq![
            ServiceInstance { port: 465, ssl: SSLType::SSL },
            ServiceInstance { port: 25, ssl: SSLType::StartTls },
            ServiceInstance { port: 587, ssl: SSLType::StartTls },
        ],
        c.profile_uuid@ == "84641856-9840-48ae-be21-023ff4e750a7"@,
        c.mail_uuid@ == "f812f625-8e98-4181-a634-738fc72e763b"@,
{
}

/// Picks the mail domain that a request for `host` is answered for.
pub fn resolve_domain(config: &'static Config, host: Option<&str>) -> (r: DomainConfiguration)
    ensures
        (r.domain@, *r.config) == resolution(*config, opt_chars(host)),
{
    let entry = match host {
        Some(h) => {
            let lower = to_lowercase(h);
            let entries = entry_count_of(config.domains);
            let rows = displacement_count_of(config.domains);
            if 0 < entries && entries as u64 <= 0xFFFF_FFFFu64 && 0 < rows && rows as u64 <= 0xFFFF_FFFFu64 {
                domain_entry(config.domains, lower.as_str())
            } else {
                None
            }
        },
        None => None,
    };
    match entry {
        Some((domain, dc)) => DomainConfiguration { domain, config: dc },
        None => DomainConfiguration { domain: config.default_domain, config: &config.default_config },
    }
}

/// The ports and security of the IMAP service of the shipped domain.
pub open spec fn shipped_imap_instances() -> Seq<ServiceInstance> {
    seq![
        ServiceInstance { port: 993, ssl: SSLType::SSL },
        ServiceInstance { port: 143, ssl: SSLType::StartTls },
    ]
}

/// The ports and security of the POP service of the shipped domain.
pub open spec fn shipped_pop_instances() -> Seq<ServiceInstance> {
    seq![
        ServiceInstance { port: 995, ssl: SSLType::SSL },
        ServiceInstance { port: 110, ssl: SSLType::StartTls },
    ]
}

/// The ports and security of the SMTP service of the shipped domain.
pub open spec fn shipped_smtp_instances() -> Seq<ServiceInstance> {
    seq![
        ServiceInstance { port: 465, ssl: SSLType::SSL },
        ServiceInstance { port: 25, ssl: SSLType::StartTls },
        ServiceInstance { port: 587, ssl: SSLType::StartTls },
    ]
}

/// Whether `c` is the configuration of the shipped domain `c0d3m4513r.com`.
pub open spec fn is_shipped_domain_config(c: DomainConfig) -> bool {
    &&& c.display_name@ == "C0D3 M4513R Mail"@
    &&& c.imap.hostname@ == "mail.c0d3m4513r.com"@
    &&& c.pop.hostname@ == "mail.c0d3m4513r.com"@
    &&& c.smtp.hostname@ == "mail.c0d3m4513r.com"@
    &&& c.imap.instances@ == shipped_imap_instances()
    &&& c.pop.instances@ == shipped_pop_instances()
    &&& c.smtp.instances@ == shipped_smtp_instances()
    &&& c.profile_uuid@ == "84641856-9840-48ae-be21-023ff4e750a7"@
    &&& c.mail_uuid@ == "f812f625-8e98-4181-a634-738fc72e763b"@
}

/// The configuration this service ships with: the domain `c0d3m4513r.com`
/// as default, and `domains` as the table of further domains.
pub fn default_config(domains: &'static phf::Map<&'static str, DomainConfig>) -> (r: Config)
    ensures
        r.domains == domains,
        r.default_domain@ == "c0d3m4513r.com"@,
        is_shipped_domain_config(r.default_config),
{
    let imap: &'static [ServiceInstance] = &[
        ServiceInstance { port: 993, ssl: SSLType::SSL },
        ServiceInstance { port: 143, ssl: SSLType::StartTls },
    ];
    let pop: &'static [ServiceInstance] = &[
        ServiceInstance { port: 995, ssl: SSLType::SSL },
        ServiceInstance { port: 110, ssl: SSLType::StartTls },
    ];
    let smtp: &'static [ServiceInstance] = &[
        ServiceInstance { port: 465, ssl: SSLType::SSL },
        ServiceInstance { port: 25, ssl: SSLType::StartTls },
        ServiceInstance { port: 587, ssl: SSLType::StartTls },
    ];
    assert(imap@ =~= shipped_imap_instances());
    assert(pop@ =~= shipped_pop_instances());
    assert(smtp@ =~= shipped_smtp_instances());
    Config {
        default_domain: "c0d3m4513r.com",
        default_config: DomainConfig {
            display_name: "C0D3 M4513R Mail",
            imap: Service { hostname: "mail.c0d3m4513r.com", instances: imap },
            pop: Service { hostname: "mail.c0d3m4513r.com", instances: pop },
            smtp: Service { hostname: "mail.c0d3m4513r.com", instances: smtp },
            profile_uuid: "84641856-9840-48ae-be21-023ff4e750a7",
            mail_uuid: "f812f625-8e98-4181-a634-738fc72e763b",
        },
        domains,
    }
}

/// The configuration this service ships with: the domain `c0d3m4513r.com`,
/// and no further domains, so that every request is answered for it.
pub fn shipped_config() -> (r: Config)
    ensures
        r.default_domain@ == "c0d3m4513r.com"@,
        is_shipped_domain_config(r.default_config),
        domain_table(*r.domains) == Map::<Seq<char>, DomainConfig>::empty(),
{
    default_config(empty_domain_table())
}

} // verus!
