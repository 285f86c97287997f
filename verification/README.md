# mail_autodiscover

Mail client autoconfiguration for a set of mail domains: which domain a
request is answered for, and what the Thunderbird `config-v1.1.xml`, the
Microsoft autodiscover (JSON and XML), the Apple configuration profile and
the DNS zone endpoints answer.

- `src/` is the library, verified with Verus: `config` (domains and how a
  request's host picks one), `routes` (each endpoint's answer), `resources`
  (the answers and the page templates with their values), `text` and
  `clock` (string helpers, lower-casing and the wall clock).
- `app/` is the Rocket server around it: request guards, the XML body
  parser, responders and template rendering.
- `tests/` runs the library on concrete values.
