//! The browsers whose manifest locations are known.

use vstd::prelude::*;

verus! {

/// A browser that can host a native messaging extension.
#[derive(Debug, Clone, Copy, PartialEq, Eq, Hash, Structural)]
pub enum Browser {
    Chrome,
    Chromium,
    Brave,
    Firefox,
    LibreWolf,
    Vivaldi,
    Edge,
}

impl Browser {
    /// The name under which the browser appears in messages: the name of
    /// its variant.
    pub open spec fn name_spec(self) -> Seq<char> {
        match self {
            Browser::Chrome => "Chrome"@,
            Browser::Chromium => "Chromium"@,
            Browser::Brave => "Brave"@,
            Browser::Firefox => "Firefox"@,
            Browser::LibreWolf => "LibreWolf"@,
            Browser::Vivaldi => "Vivaldi"@,
            Browser::Edge => "Edge"@,
        }
    }

    /// The browser's name as text.
    pub fn name(&self) -> (s: &'static str)
        ensures
            s@ == self.name_spec(),
    {
        match self {
            Browser::Chrome => "Chrome",
            Browser::Chromium => "Chromium",
            Browser::Brave => "Brave",
            Browser::Firefox => "Firefox",
            Browser::LibreWolf => "LibreWolf",
            Browser::Vivaldi => "Vivaldi",
            Browser::Edge => "Edge",
        }
    }
}

} // verus!
