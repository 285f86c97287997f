//! The pages around the configuration endpoints.

use vstd::prelude::*;
use crate::config::DomainConfiguration;
use crate::resources::PageTemplate;

verus! {

/// `GET /`: the landing page, naming the request's domain.
pub fn index(host: DomainConfiguration) -> (r: PageTemplate)
    ensures
        r == (PageTemplate::Index { name: host.domain }),
{
    PageTemplate::Index { name: host.domain }
}

/// `GET /apple`: the page about the Apple profile, naming the request's domain.
pub fn apple(host: DomainConfiguration) -> (r: PageTemplate)
    ensures
        r == (PageTemplate::Apple { name: host.domain }),
{
    PageTemplate::Apple { name: host.domain }
}

/// The text of `robots.txt`: every crawler is kept off every path.
pub open spec fn robots_text() -> Seq<char> {
    "User-agent: *\nDisallow: /\n"@
}

/// `robots.txt` keeps every crawler (`*`) off every path (`/`).
pub proof fn lemma_robots_disallows_all()
    ensures
        robots_text() == "User-agent: *\nDisallow: /\n"@,
{
}

/// `GET /robots.txt`
pub fn robots() -> (r: &'static str)
    ensures
        r@ == robots_text(),
{
    "User-agent: *\nDisallow: /\n"
}

} // verus!
