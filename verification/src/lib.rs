//! Account bookkeeping for a desktop switcher of Codex (ChatGPT) logins:
//! reading the credentials file, decoding the identity token, keeping the
//! account store, and turning usage reports into the 5-hour / 1-week view.

pub mod json;
pub mod text;
pub mod auth;
pub mod clock;
pub mod usage;
pub mod accounts;
pub mod session;
pub mod laws;
