//! What holds of the two lookups, proved from their tables.

use crate::browser::Browser;
use crate::manifest::{
    dir_from_home, home_unavailable, linux_bsd_dir, macos_dir, path_outcome, resolved,
    unsupported_on_windows, unsupported_platform, windows_dir,
};
use crate::path::joined;
use crate::platform::{OperatingSystem, OsFamily};
use crate::registry::regkey_path;
use std::path::PathBuf;
use vstd::prelude::*;

verus! {

/// Whether `part` occurs in `text` as a run of consecutive characters.
pub open spec fn mentions(text: Seq<char>, part: Seq<char>) -> bool {
    exists|at: int|
        0 <= at <= text.len() - part.len() && #[trigger] text.subrange(at, at + part.len())
            == part
}

/// Whether `text` begins with `part`.
pub open spec fn begins_with(text: Seq<char>, part: Seq<char>) -> bool {
    part.len() <= text.len() && text.subrange(0, part.len() as int) == part
}

/// Whether `text` ends with `part`.
pub open spec fn ends_with(text: Seq<char>, part: Seq<char>) -> bool {
    part.len() <= text.len() && text.subrange(text.len() - part.len(), text.len() as int) == part
}

/// On Linux, OpenBSD and FreeBSD every browser has a manifest directory:
/// with a home directory at hand, resolution succeeds for each of them, with
/// the browser's entry of the table for these systems joined onto the home
/// directory.
pub proof fn lemma_linux_bsd_resolves_every_browser(
    home: PathBuf,
    os: OperatingSystem,
    browser: Browser,
)
    requires
        os.family_spec() == OsFamily::LinuxBsd,
    ensures
        dir_from_home(os, browser) == Ok::<Seq<char>, Seq<char>>(linux_bsd_dir(browser)),
        resolved(Some(home), os, browser) == Ok::<PathBuf, Seq<char>>(
            joined(home, linux_bsd_dir(browser)),
        ),
{
}

/// On macOS every browser has a manifest directory: with a home directory at
/// hand, resolution succeeds for each of them, with the browser's entry of
/// the table for macOS joined onto the home directory.
pub proof fn lemma_macos_resolves_every_browser(
    home: PathBuf,
    os: OperatingSystem,
    browser: Browser,
)
    requires
        os.family_spec() == OsFamily::MacOs,
    ensures
        dir_from_home(os, browser) == Ok::<Seq<char>, Seq<char>>(macos_dir(browser)),
        resolved(Some(home), os, browser) == Ok::<PathBuf, Seq<char>>(
            joined(home, macos_dir(browser)),
        ),
{
}

/// On macOS every browser's manifest directory lies in the user's
/// `Application Support` tree and is a directory named
/// `NativeMessagingHosts`: it begins with `Library/Application Support/` and
/// ends with `/NativeMessagingHosts/`.
pub proof fn lemma_macos_dirs_lie_in_application_support(browser: Browser)
    ensures
        begins_with(macos_dir(browser), "Library/Application Support/"@),
        ends_with(macos_dir(browser), "/NativeMessagingHosts/"@),
{
    reveal_strlit("Library/Application Support/");
    reveal_strlit("/NativeMessagingHosts/");
    reveal_strlit("Library/Application Support/Google/Chrome/NativeMessagingHosts/");
    reveal_strlit("Library/Application Support/Chromium/NativeMessagingHosts/");
    reveal_strlit("Library/Application Support/Mozilla/NativeMessagingHosts/");
    reveal_strlit("Library/Application Support/LibreWolf/NativeMessagingHosts/");
    reveal_strlit("Library/Application Support/Vivaldi/NativeMessagingHosts/");
    reveal_strlit("Library/Application Support/Microsoft/Edge/NativeMessagingHosts/");
    let dir = macos_dir(browser);
    assert(dir.subrange(0, 28) =~= "Library/Application Support/"@);
    assert(dir.subrange(dir.len() - 22, dir.len() as int) =~= "/NativeMessagingHosts/"@);
}

/// On macOS Brave is resolved exactly as Chrome is, whatever the home
/// directory: Brave reads Chrome's directory there.
pub proof fn lemma_macos_brave_resolves_as_chrome(home: Option<PathBuf>, os: OperatingSystem)
    requires
        os.family_spec() == OsFamily::MacOs,
    ensures
        resolved(home, os, Browser::Brave) == resolved(home, os, Browser::Chrome),
{
}

/// On Windows, with a home directory at hand, resolution succeeds for
/// Chrome, Firefox, LibreWolf and Edge and for no other browser. Where it
/// fails, the message is the browser's name followed by
/// ` is not yet supported on Windows.`, so it mentions both the browser and
/// Windows.
pub proof fn lemma_windows_resolves_four_browsers(
    home: PathBuf,
    os: OperatingSystem,
    browser: Browser,
)
    requires
        os.family_spec() == OsFamily::Windows,
    ensures
        resolved(Some(home), os, browser) is Ok <==> browser == Browser::Chrome || browser
            == Browser::Firefox || browser == Browser::LibreWolf || browser == Browser::Edge,
        resolved(Some(home), os, browser) is Err ==> resolved(Some(home), os, browser) == Err::<
            PathBuf,
            Seq<char>,
        >(unsupported_on_windows(browser)),
        mentions(unsupported_on_windows(browser), browser.name_spec()),
        mentions(unsupported_on_windows(browser), "Windows"@),
{
    let name = browser.name_spec();
    let message = unsupported_on_windows(browser);
    reveal_strlit(" is not yet supported on Windows.");
    reveal_strlit("Windows");
    let len: int = name.len() as int;
    assert(message.subrange(0, 0 + len) == name);
    assert(message.subrange(len + 25, len + 25 + 7) == "Windows"@);
}

/// On Windows Firefox and LibreWolf are resolved alike, whatever the home
/// directory: the two share one directory.
pub proof fn lemma_windows_librewolf_resolves_as_firefox(
    home: Option<PathBuf>,
    os: OperatingSystem,
)
    requires
        os.family_spec() == OsFamily::Windows,
    ensures
        resolved(home, os, Browser::LibreWolf) == resolved(home, os, Browser::Firefox),
{
}

/// On a system outside the three supported families no browser is resolved:
/// with a home directory at hand, the result is the error whose message is
/// the system's name between `Platform "` and `" is not yet supported.`, so
/// it mentions the system.
pub proof fn lemma_other_system_resolves_no_browser(
    home: PathBuf,
    os: OperatingSystem,
    browser: Browser,
)
    requires
        os.family_spec() == OsFamily::Other,
    ensures
        resolved(Some(home), os, browser) == Err::<PathBuf, Seq<char>>(
            unsupported_platform(os->Other_0@),
        ),
        mentions(unsupported_platform(os->Other_0@), os->Other_0@),
{
    let name = os->Other_0@;
    let message = unsupported_platform(name);
    reveal_strlit("Platform \"");
    let len: int = name.len() as int;
    assert(message.subrange(10, 10 + len) == name);
}

/// Without a home directory resolution fails with the message for that,
/// whatever the system and the browser are, also where the system or the
/// browser is not supported.
pub proof fn lemma_unknown_home_is_reported_first(os: OperatingSystem, browser: Browser)
    ensures
        resolved(None, os, browser) == Err::<PathBuf, Seq<char>>(home_unavailable()),
{
}

/// Resolution goes by the family of the system and, outside the three
/// supported families, by its name: two systems that agree in these are
/// resolved alike.
pub proof fn lemma_resolution_goes_by_family(
    home: Option<PathBuf>,
    a: OperatingSystem,
    b: OperatingSystem,
    browser: Browser,
)
    requires
        a.family_spec() == b.family_spec(),
        a.family_spec() == OsFamily::Other ==> a->Other_0@ == b->Other_0@,
    ensures
        dir_from_home(a, browser) == dir_from_home(b, browser),
        resolved(home, a, browser) == resolved(home, b, browser),
{
}

/// Resolution has no state: two results of [`resolve_manifest_path`] for the
/// same home directory, system and browser are the same path, or errors
/// with the same message.
pub proof fn lemma_resolution_is_repeatable(
    home: Option<PathBuf>,
    os: OperatingSystem,
    browser: Browser,
    first: Result<PathBuf, String>,
    second: Result<PathBuf, String>,
)
    requires
        path_outcome(first) == resolved(home, os, browser),
        path_outcome(second) == resolved(home, os, browser),
    ensures
        path_outcome(first) == path_outcome(second),
{
}

/// On Linux, OpenBSD and FreeBSD no two browsers share a manifest directory.
pub proof fn lemma_linux_bsd_dirs_differ(a: Browser, b: Browser)
    ensures
        linux_bsd_dir(a) == linux_bsd_dir(b) <==> a == b,
{
    reveal_strlit(".config/google-chrome/NativeMessagingHosts/");
    reveal_strlit(".config/chromium/NativeMessagingHosts/");
    reveal_strlit(".config/BraveSoftware/Brave-Browser/NativeMessagingHosts/");
    reveal_strlit(".mozilla/native-messaging-hosts/");
    reveal_strlit(".librewolf/native-messaging-hosts/");
    reveal_strlit(".config/vivaldi/NativeMessagingHosts/");
    reveal_strlit(".config/microsoft-edge-dev/NativeMessagingHosts/");
    assert(linux_bsd_dir(a).len() == linux_bsd_dir(b).len() ==> a == b);
}

/// On macOS Chrome and Brave share a manifest directory, and no other two
/// browsers do.
pub proof fn lemma_macos_dirs_differ_but_for_brave(a: Browser, b: Browser)
    ensures
        macos_dir(a) == macos_dir(b) <==> a == b || (a == Browser::Chrome && b == Browser::Brave)
            || (a == Browser::Brave && b == Browser::Chrome),
{
    reveal_strlit("Library/Application Support/Google/Chrome/NativeMessagingHosts/");
    reveal_strlit("Library/Application Support/Chromium/NativeMessagingHosts/");
    reveal_strlit("Library/Application Support/Mozilla/NativeMessagingHosts/");
    reveal_strlit("Library/Application Support/LibreWolf/NativeMessagingHosts/");
    reveal_strlit("Library/Application Support/Vivaldi/NativeMessagingHosts/");
    reveal_strlit("Library/Application Support/Microsoft/Edge/NativeMessagingHosts/");
    if macos_dir(a) == macos_dir(b) {
        assert(macos_dir(a).len() == macos_dir(b).len());
        assert(macos_dir(a)[28] == macos_dir(b)[28]);
    }
}

/// On Windows Firefox and LibreWolf share a manifest directory, and no other
/// two browsers do.
pub proof fn lemma_windows_dirs_differ_but_for_librewolf(a: Browser, b: Browser)
    requires
        windows_dir(a) is Some,
        windows_dir(b) is Some,
    ensures
        windows_dir(a) == windows_dir(b) <==> a == b || (a == Browser::Firefox && b
            == Browser::LibreWolf) || (a == Browser::LibreWolf && b == Browser::Firefox),
{
    reveal_strlit("AppData\\Local\\Google\\Chrome\\NativeMessagingHosts\\");
    reveal_strlit("AppData\\Roaming\\Mozilla\\NativeMessagingHosts\\");
    reveal_strlit("AppData\\Local\\Microsoft\\Edge\\NativeMessagingHosts\\");
    if windows_dir(a) == windows_dir(b) {
        assert(windows_dir(a)->Some_0.len() == windows_dir(b)->Some_0.len());
    }
}

/// A key is defined for Chrome, Firefox, LibreWolf and Edge and for no other
/// browser.
pub proof fn lemma_key_is_defined_for_four_browsers(browser: Browser)
    ensures
        regkey_path(browser) is Some <==> browser == Browser::Chrome || browser
            == Browser::Firefox || browser == Browser::LibreWolf || browser == Browser::Edge,
{
}

/// Firefox and LibreWolf share a key, and no other two browsers with a key
/// do.
pub proof fn lemma_keys_differ_but_for_librewolf(a: Browser, b: Browser)
    requires
        regkey_path(a) is Some,
        regkey_path(b) is Some,
    ensures
        regkey_path(a) == regkey_path(b) <==> a == b || (a == Browser::Firefox && b
            == Browser::LibreWolf) || (a == Browser::LibreWolf && b == Browser::Firefox),
{
    reveal_strlit("Software\\Google\\Chrome\\NativeMessagingHosts");
    reveal_strlit("Software\\Mozilla\\NativeMessagingHosts");
    reveal_strlit("Software\\Microsoft\\Edge\\NativeMessagingHosts");
    if regkey_path(a) == regkey_path(b) {
        assert(regkey_path(a)->Some_0.len() == regkey_path(b)->Some_0.len());
    }
}

/// The registry and the table of directories for Windows agree: a browser
/// has a key exactly if it has a manifest directory on Windows, and two
/// such browsers share a key exactly if they share the directory.
pub proof fn lemma_keys_follow_windows_dirs(a: Browser, b: Browser)
    ensures
        regkey_path(a) is Some <==> windows_dir(a) is Some,
        regkey_path(a) is Some && regkey_path(b) is Some ==> (regkey_path(a) == regkey_path(b)
            <==> windows_dir(a) == windows_dir(b)),
{
    if regkey_path(a) is Some && regkey_path(b) is Some {
        lemma_keys_differ_but_for_librewolf(a, b);
        lemma_windows_dirs_differ_but_for_librewolf(a, b);
    }
}

} // verus!
