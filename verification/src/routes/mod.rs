//! The endpoints: what each answers for a mail domain.

pub mod autoconfig;
pub mod dns;
pub mod tech;
