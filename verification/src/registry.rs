//! The Windows registry key that points a browser to a manifest.

use crate::browser::Browser;
use vstd::prelude::*;

verus! {

/// The registry key under which `browser` looks up native messaging hosts,
/// for the browsers that have one. Firefox and LibreWolf read the same key.
pub open spec fn regkey_path(browser: Browser) -> Option<Seq<char>> {
    match browser {
        Browser::Chrome => Some("Software\\Google\\Chrome\\NativeMessagingHosts"@),
        Browser::Firefox | Browser::LibreWolf => Some("Software\\Mozilla\\NativeMessagingHosts"@),
        Browser::Edge => Some("Software\\Microsoft\\Edge\\NativeMessagingHosts"@),
        Browser::Chromium | Browser::Brave | Browser::Vivaldi => None,
    }
}

/// What a lookup of a key returned, with the key as a sequence of
/// characters.
pub open spec fn key_outcome(r: Option<&'static str>) -> Option<Seq<char>> {
    match r {
        Some(key) => Some(key@),
        None => None,
    }
}

/// Looks up the registry key under which the path of a manifest has to be
/// recorded for `browser`. `None` is no failure: it says that no key is
/// defined for the browser.
///
/// The key means something on Windows only.
pub fn get_regkey_path(browser: &Browser) -> (r: Option<&'static str>)
    ensures
        key_outcome(r) == regkey_path(*browser),
{
    match browser {
        Browser::Chrome => Some("Software\\Google\\Chrome\\NativeMessagingHosts"),
        Browser::Firefox | Browser::LibreWolf => Some("Software\\Mozilla\\NativeMessagingHosts"),
        Browser::Edge => Some("Software\\Microsoft\\Edge\\NativeMessagingHosts"),
        Browser::Chromium | Browser::Brave | Browser::Vivaldi => None,
    }
}

} // verus!
