//! The directory in which a browser looks for native messaging manifests.

use crate::browser::Browser;
use crate::path::{join, joined};
use crate::platform::{target_os, OperatingSystem};
use std::path::PathBuf;
use vstd::prelude::*;

verus! {

/// The manifest directory on Linux, OpenBSD and FreeBSD, relative to the
/// home directory. Every browser has one.
pub open spec fn linux_bsd_dir(browser: Browser) -> Seq<char> {
    match browser {
        Browser::Chrome => ".config/google-chrome/NativeMessagingHosts/"@,
        Browser::Chromium => ".config/chromium/NativeMessagingHosts/"@,
        Browser::Brave => ".config/BraveSoftware/Brave-Browser/NativeMessagingHosts/"@,
        Browser::Firefox => ".mozilla/native-messaging-hosts/"@,
        Browser::LibreWolf => ".librewolf/native-messaging-hosts/"@,
        Browser::Vivaldi => ".config/vivaldi/NativeMessagingHosts/"@,
        Browser::Edge => ".config/microsoft-edge-dev/NativeMessagingHosts/"@,
    }
}

/// The manifest directory on macOS, relative to the home directory. Every
/// browser has one, and each lies in the user's `Application Support` tree,
/// below the directories of the browser's vendor and product; Brave reads
/// Chrome's.
///
/// For Edge that is `Library/Application Support/Microsoft/Edge/`, the
/// vendor and product directories that Edge has on this system, placed in
/// the same tree as those of every other browser.
pub open spec fn macos_dir(browser: Browser) -> Seq<char> {
    match browser {
        Browser::Chrome | Browser::Brave => {
            "Library/Application Support/Google/Chrome/NativeMessagingHosts/"@
        },
        Browser::Chromium => "Library/Application Support/Chromium/NativeMessagingHosts/"@,
        Browser::Firefox => "Library/Application Support/Mozilla/NativeMessagingHosts/"@,
        Browser::LibreWolf => "Library/Application Support/LibreWolf/NativeMessagingHosts/"@,
        Browser::Vivaldi => "Library/Application Support/Vivaldi/NativeMessagingHosts/"@,
        Browser::Edge => "Library/Application Support/Microsoft/Edge/NativeMessagingHosts/"@,
    }
}

/// The manifest directory on Windows, relative to the home directory, for
/// the browsers that have one. Only the registry key matters there, so the
/// directories are the usual ones under `AppData`; Firefox and LibreWolf
/// share a registry key and therefore a directory.
pub open spec fn windows_dir(browser: Browser) -> Option<Seq<char>> {
    match browser {
        Browser::Chrome => Some("AppData\\Local\\Google\\Chrome\\NativeMessagingHosts\\"@),
        Browser::Firefox | Browser::LibreWolf => {
            Some("AppData\\Roaming\\Mozilla\\NativeMessagingHosts\\"@)
        },
        Browser::Edge => Some("AppData\\Local\\Microsoft\\Edge\\NativeMessagingHosts\\"@),
        Browser::Chromium | Browser::Brave | Browser::Vivaldi => None,
    }
}

/// The message for a user whose home directory is not known.
pub open spec fn home_unavailable() -> Seq<char> {
    "Failed to determine path to home directory."@
}

/// The message for a browser that has no manifest directory on Windows.
pub open spec fn unsupported_on_windows(browser: Browser) -> Seq<char> {
    browser.name_spec() + " is not yet supported on Windows."@
}

/// The message for an operating system without a known convention.
pub open spec fn unsupported_platform(name: Seq<char>) -> Seq<char> {
    "Platform \""@ + name + "\" is not yet supported."@
}

/// The manifest directory of `browser` on `os`, relative to the home
/// directory, or the message that says why there is none.
pub open spec fn dir_from_home(os: OperatingSystem, browser: Browser) -> Result<
    Seq<char>,
    Seq<char>,
> {
    match os {
        OperatingSystem::Linux | OperatingSystem::OpenBsd | OperatingSystem::FreeBsd => Ok(
            linux_bsd_dir(browser),
        ),
        OperatingSystem::MacOs => Ok(macos_dir(browser)),
        OperatingSystem::Windows => match windows_dir(browser) {
            Some(dir) => Ok(dir),
            None => Err(unsupported_on_windows(browser)),
        },
        OperatingSystem::Other(name) => Err(unsupported_platform(name@)),
    }
}

/// The manifest directory of `browser` on `os` for a user with the home
/// directory `home`, or the message that says why there is none. An unknown
/// home directory is reported before anything else.
pub open spec fn resolved(home: Option<PathBuf>, os: OperatingSystem, browser: Browser) -> Result<
    PathBuf,
    Seq<char>,
> {
    match home {
        None => Err(home_unavailable()),
        Some(base) => match dir_from_home(os, browser) {
            Ok(dir) => Ok(joined(base, dir)),
            Err(message) => Err(message),
        },
    }
}

/// What a relative lookup returned, with its texts as sequences of
/// characters.
pub open spec fn dir_outcome(r: Result<&'static str, String>) -> Result<Seq<char>, Seq<char>> {
    match r {
        Ok(dir) => Ok(dir@),
        Err(message) => Err(message@),
    }
}

/// What a resolution returned, with the message as a sequence of characters.
pub open spec fn path_outcome(r: Result<PathBuf, String>) -> Result<PathBuf, Seq<char>> {
    match r {
        Ok(path) => Ok(path),
        Err(message) => Err(message@),
    }
}

fn linux_bsd_dir_of(browser: &Browser) -> (dir: &'static str)
    ensures
        dir@ == linux_bsd_dir(*browser),
{
    match browser {
        Browser::Chrome => ".config/google-chrome/NativeMessagingHosts/",
        Browser::Chromium => ".config/chromium/NativeMessagingHosts/",
        Browser::Brave => ".config/BraveSoftware/Brave-Browser/NativeMessagingHosts/",
        Browser::Firefox => ".mozilla/native-messaging-hosts/",
        Browser::LibreWolf => ".librewolf/native-messaging-hosts/",
        Browser::Vivaldi => ".config/vivaldi/NativeMessagingHosts/",
        Browser::Edge => ".config/microsoft-edge-dev/NativeMessagingHosts/",
    }
}

fn macos_dir_of(browser: &Browser) -> (dir: &'static str)
    ensures
        dir@ == macos_dir(*browser),
{
    match browser {
        Browser::Chrome => "Library/Application Support/Google/Chrome/NativeMessagingHosts/",
        Browser::Chromium => "Library/Application Support/Chromium/NativeMessagingHosts/",
        Browser::Brave => "Library/Application Support/Google/Chrome/NativeMessagingHosts/",
        Browser::Firefox => "Library/Application Support/Mozilla/NativeMessagingHosts/",
        Browser::LibreWolf => "Library/Application Support/LibreWolf/NativeMessagingHosts/",
        Browser::Vivaldi => "Library/Application Support/Vivaldi/NativeMessagingHosts/",
        Browser::Edge => "Library/Application Support/Microsoft/Edge/NativeMessagingHosts/",
    }
}

fn windows_dir_of(browser: &Browser) -> (dir: Option<&'static str>)
    ensures
        match windows_dir(*browser) {
            Some(text) => dir is Some && dir->Some_0@ == text,
            None => dir is None,
        },
{
    match browser {
        Browser::Chrome => Some("AppData\\Local\\Google\\Chrome\\NativeMessagingHosts\\"),
        Browser::Firefox | Browser::LibreWolf => Some(
            "AppData\\Roaming\\Mozilla\\NativeMessagingHosts\\",
        ),
        Browser::Edge => Some("AppData\\Local\\Microsoft\\Edge\\NativeMessagingHosts\\"),
        Browser::Chromium | Browser::Brave | Browser::Vivaldi => None,
    }
}

fn unsupported_on_windows_message(browser: &Browser) -> (message: String)
    ensures
        message@ == unsupported_on_windows(*browser),
{
    let mut message = browser.name().to_owned();
    message.append(" is not yet supported on Windows.");
    message
}

fn unsupported_platform_message(name: &str) -> (message: String)
    ensures
        message@ == unsupported_platform(name@),
{
    let mut message = "Platform \"".to_owned();
    message.append(name);
    message.append("\" is not yet supported.");
    message
}

/// Looks up the manifest directory of `browser` on `os`, relative to the
/// user's home directory.
///
/// Fails, with a message that names what is not supported, for a browser
/// without a directory on Windows and for every browser on a system without
/// a known convention. No directory is ever guessed.
pub fn manifest_dir_from_home(os: &OperatingSystem, browser: &Browser) -> (r: Result<
    &'static str,
    String,
>)
    ensures
        dir_outcome(r) == dir_from_home(*os, *browser),
{
    match os {
        OperatingSystem::Linux | OperatingSystem::OpenBsd | OperatingSystem::FreeBsd => Ok(
            linux_bsd_dir_of(browser),
        ),
        OperatingSystem::MacOs => Ok(macos_dir_of(browser)),
        OperatingSystem::Windows => match windows_dir_of(browser) {
            Some(dir) => Ok(dir),
            None => Err(unsupported_on_windows_message(browser)),
        },
        OperatingSystem::Other(name) => Err(unsupported_platform_message(name.as_str())),
    }
}

/// Resolves the manifest directory of `browser` on `os` for a user whose
/// home directory is `home`.
///
/// An unknown home directory is an error whatever the system and the
/// browser are. Otherwise the directory is the one that
/// [`manifest_dir_from_home`] finds, joined onto the home directory, and its
/// errors are handed on.
pub fn resolve_manifest_path(home: Option<PathBuf>, os: &OperatingSystem, browser: &Browser) -> (r:
    Result<PathBuf, String>)
    ensures
        path_outcome(r) == resolved(home, *os, *browser),
{
    match home {
        None => Err("Failed to determine path to home directory.".to_owned()),
        Some(base) => match manifest_dir_from_home(os, browser) {
            Ok(dir) => Ok(join(&base, dir)),
            Err(message) => Err(message),
        },
    }
}

/// Resolves the manifest directory of `browser` for the current user on the
/// system that this crate was built for.
///
/// The home directory and the system are read from the outside, so the
/// contract says that the result is a resolution for some home directory
/// and some system.
pub fn get_manifest_path(browser: &Browser) -> (r: Result<PathBuf, String>)
    ensures
        exists|home: Option<PathBuf>, os: OperatingSystem|
            path_outcome(r) == #[trigger] resolved(home, os, *browser),
{
    let home = dirs::home_dir();
    let os = target_os();
    let ghost asked = home;
    let r = resolve_manifest_path(home, &os, browser);
    assert(path_outcome(r) == resolved(asked, os, *browser));
    r
}

} // verus!
