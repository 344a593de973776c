//! The error type. Domain errors travel in-band as a `{"error":..,"ok":false}`
//! reply, so every variant has a fixed textual rendering.

use vstd::prelude::*;

verus! {

/// An error of the environment core.
#[derive(Debug, Clone)]
pub enum Error {
    /// A spec, candle payload or command envelope failed to parse.
    Parse(String),
    /// A feature references an indicator the registry does not know.
    UnknownIndicator(String),
    /// The spec is structurally invalid (bad field, out-of-range parameter).
    BadSpec(String),
    /// An action is outside the declared action space.
    BadAction(String),
    /// The candle data is malformed or missing a required column.
    Data(String),
    /// An indicator needs a feed that no bar of the dataset carries.
    MissingFeed { indicator: String, feed: String, why: String },
    /// A `reset` or `step` was issued before any data was loaded.
    NoData,
    /// A `step` was issued before the first `reset`.
    NotReset,
    /// A `step` was issued after the episode terminated or truncated.
    EpisodeDone,
}

impl Error {
    /// The rendering of the error, as its message text.
    pub open spec fn spec_message(&self) -> Seq<char> {
        match self {
            Error::Parse(s) => "parse: "@ + s@,
            Error::UnknownIndicator(s) => "unknown indicator: "@ + s@,
            Error::BadSpec(s) => "bad spec: "@ + s@,
            Error::BadAction(s) => "bad action: "@ + s@,
            Error::Data(s) => "data: "@ + s@,
            Error::MissingFeed { indicator, feed, why } =>
                indicator@ + " needs the "@ + feed@ + " feed: "@ + why@,
            Error::NoData => "no data loaded"@,
            Error::NotReset => "not reset"@,
            Error::EpisodeDone => "episode done"@,
        }
    }

    /// The message text of the error (what `Display` shows for it).
    pub fn message(&self) -> (m: String)
        ensures
            m@ == self.spec_message(),
    {
        match self {
            Error::Parse(s) => prefixed("parse: ", s),
            Error::UnknownIndicator(s) => prefixed("unknown indicator: ", s),
            Error::BadSpec(s) => prefixed("bad spec: ", s),
            Error::BadAction(s) => prefixed("bad action: ", s),
            Error::Data(s) => prefixed("data: ", s),
            Error::MissingFeed { indicator, feed, why } => {
                let mut m = indicator.clone();
                m.append(" needs the ");
                m.append(feed.as_str());
                m.append(" feed: ");
                m.append(why.as_str());
                m
            },
            Error::NoData => String::from_str("no data loaded"),
            Error::NotReset => String::from_str("not reset"),
            Error::EpisodeDone => String::from_str("episode done"),
        }
    }
}

/// `head` followed by `tail`.
fn prefixed(head: &str, tail: &String) -> (m: String)
    ensures
        m@ == head@ + tail@,
{
    let mut m = String::from_str(head);
    m.append(tail.as_str());
    m
}

} // verus!
