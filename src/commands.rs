use crate::reply::{Payload, Reply};
use vstd::prelude::*;

verus! {

/// The text that `ping` answers with.
pub const PONG: &'static str = "🏓 pong 🏓";

/// The markdown link that `faq` answers with.
pub const FAQ_LINK: &'static str =
    "**Community Updates FaQ**: https://am2r-community-developers.github.io/DistributionCenter/faq";

/// The markdown link that `changelog` answers with.
pub const CHANGELOG_LINK: &'static str =
    "**Cumulative AM2R Changelog**: https://am2r-community-developers.github.io/DistributionCenter/changelog";

/// Answers `ping` with a fixed text.
pub struct Ping {}

impl Ping {
    pub fn get_command_name() -> (r: String)
        ensures
            r@ == "ping"@,
    {
        "ping".to_owned()
    }

    /// The argument is ignored.
    pub fn handle_message(_data: &str) -> (r: Reply)
        ensures
            r@ == Payload::Text(PONG@),
    {
        Reply::text(PONG)
    }
}

/// The fallback for every command that is not registered: it does nothing.
pub struct Unknown {}

impl Unknown {
    pub fn get_command_name() -> (r: String)
        ensures
            r@ == "unknown"@,
    {
        "unknown".to_owned()
    }

    pub fn handle_message(_data: &str) -> (r: Reply)
        ensures
            r@ == Payload::Silent,
    {
        Reply::Silent
    }
}

/// Answers `faq` with a fixed markdown link.
pub struct FAQ {}

impl FAQ {
    pub fn get_command_name() -> (r: String)
        ensures
            r@ == "faq"@,
    {
        "faq".to_owned()
    }

    /// The argument is ignored.
    pub fn handle_message(_data: &str) -> (r: Reply)
        ensures
            r@ == Payload::Markdown(FAQ_LINK@),
    {
        Reply::markdown(FAQ_LINK)
    }
}

/// Answers `changelog` with a fixed markdown link.
pub struct Changelog {}

impl Changelog {
    pub fn get_command_name() -> (r: String)
        ensures
            r@ == "changelog"@,
    {
        "changelog".to_owned()
    }

    /// The argument is ignored.
    pub fn handle_message(_data: &str) -> (r: Reply)
        ensures
            r@ == Payload::Markdown(CHANGELOG_LINK@),
    {
        Reply::markdown(CHANGELOG_LINK)
    }
}

} // verus!
