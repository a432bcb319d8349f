//! The host's own windows: which addresses it opens, what it says of itself.
use crate::text::same_text;
use vstd::prelude::*;

verus! {

/// What the `url` crate makes of `raw`: none when it does not parse; otherwise its
/// serialization, its scheme, and whether it has a host.
pub uninterp spec fn url_parts(raw: Seq<char>) -> Option<(Seq<char>, Seq<char>, bool)>;

/// A parsed address: its serialization, its scheme, whether it has a host.
pub struct ParsedUrl {
    pub text: String,
    pub scheme: String,
    pub has_host: bool,
}

/// The application's name and version, as the settings window shows them.
#[derive(Clone, PartialEq, Eq, Debug)]
pub struct AppInfoDto {
    pub version: String,
    pub name: String,
}

/// Calls `url::Url::parse` on `raw`, then `Url::as_str`, `Url::scheme` and `Url::host_str`
/// on the result. The contract claims only that the parts are those the `url` crate gives
/// `raw`; nothing is claimed of how it parses.
#[verifier::external_body]
fn parse_url(raw: &str) -> (parsed: Option<ParsedUrl>)
    ensures
        match parsed {
            Some(p) => url_parts(raw@) == Some((p.text@, p.scheme@, p.has_host)),
            None => url_parts(raw@) is None,
        },
{
    match url::Url::parse(raw) {
        Ok(url) => Some(ParsedUrl {
            text: url.as_str().to_owned(),
            scheme: url.scheme().to_owned(),
            has_host: url.host_str().is_some(),
        }),
        Err(_) => None,
    }
}

/// The addresses the host opens in the browser: secure web addresses only (scheme
/// `https`, with a host), given back as the `url` crate serializes them.
pub open spec fn web_address_text(raw: Seq<char>) -> Option<Seq<char>> {
    match url_parts(raw) {
        Some((text, scheme, has_host)) => if scheme == "https"@ && has_host { Some(text) } else { None },
        None => None,
    }
}

/// The address to open from a parse result: its serialization when its scheme is `https`
/// and it has a host; none otherwise.
pub fn secure_address(parsed: Option<ParsedUrl>) -> (address: Option<String>)
    ensures
        match parsed {
            Some(p) => if p.scheme@ == "https"@ && p.has_host {
                address matches Some(a) && a@ == p.text@
            } else {
                address is None
            },
            None => address is None,
        },
{
    match parsed {
        Some(p) => if same_text(p.scheme.as_str(), "https") && p.has_host {
            Some(p.text)
        } else {
            None
        },
        None => None,
    }
}

/// The address to open for `raw`; none for any other scheme, a missing host, or text that
/// is no address.
pub fn web_address(raw: &str) -> (address: Option<String>)
    ensures
        match address {
            Some(a) => web_address_text(raw@) == Some(a@),
            None => web_address_text(raw@) is None,
        },
{
    secure_address(parse_url(raw))
}

/// Whether finishing onboarding is its first completion, which starts the first cycle
/// afresh: when the store cannot tell, it is taken as already done.
pub fn first_run(done: Result<bool, crate::ports::PersistenceError>) -> (first: bool)
    ensures
        first == (match done {
            Ok(v) => !v,
            Err(_) => false,
        }),
{
    match done {
        Ok(v) => !v,
        Err(_) => false,
    }
}

} // verus!
