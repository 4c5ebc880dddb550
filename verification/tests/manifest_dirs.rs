use manifest_paths::{manifest_dir_from_home, resolve_manifest_path, Browser, OperatingSystem};
use std::path::{PathBuf, MAIN_SEPARATOR};

const BROWSERS: [Browser; 7] = [
    Browser::Chrome,
    Browser::Chromium,
    Browser::Brave,
    Browser::Firefox,
    Browser::LibreWolf,
    Browser::Vivaldi,
    Browser::Edge,
];

fn home() -> Option<PathBuf> {
    Some(PathBuf::from("/home/alice"))
}

fn under_home(dir: &str) -> String {
    format!("/home/alice{}{}", MAIN_SEPARATOR, dir)
}

fn resolved_text(os: &OperatingSystem, browser: &Browser) -> Result<String, String> {
    resolve_manifest_path(home(), os, browser).map(|path| path.to_str().unwrap().to_string())
}

fn linux_family() -> [OperatingSystem; 3] {
    [OperatingSystem::Linux, OperatingSystem::OpenBsd, OperatingSystem::FreeBsd]
}

#[test]
fn linux_family_dirs_are_the_dotfile_dirs() {
    let expected = [
        (Browser::Chrome, ".config/google-chrome/NativeMessagingHosts/"),
        (Browser::Chromium, ".config/chromium/NativeMessagingHosts/"),
        (Browser::Brave, ".config/BraveSoftware/Brave-Browser/NativeMessagingHosts/"),
        (Browser::Firefox, ".mozilla/native-messaging-hosts/"),
        (Browser::LibreWolf, ".librewolf/native-messaging-hosts/"),
        (Browser::Vivaldi, ".config/vivaldi/NativeMessagingHosts/"),
        (Browser::Edge, ".config/microsoft-edge-dev/NativeMessagingHosts/"),
    ];
    for os in linux_family() {
        for (browser, dir) in expected {
            assert_eq!(manifest_dir_from_home(&os, &browser), Ok(dir));
        }
    }
}

#[test]
fn linux_family_paths_lie_under_home() {
    for os in linux_family() {
        assert_eq!(
            resolved_text(&os, &Browser::Chrome),
            Ok(under_home(".config/google-chrome/NativeMessagingHosts/"))
        );
        assert_eq!(
            resolved_text(&os, &Browser::Chromium),
            Ok(under_home(".config/chromium/NativeMessagingHosts/"))
        );
        assert_eq!(
            resolved_text(&os, &Browser::Brave),
            Ok(under_home(".config/BraveSoftware/Brave-Browser/NativeMessagingHosts/"))
        );
        assert_eq!(
            resolved_text(&os, &Browser::Firefox),
            Ok(under_home(".mozilla/native-messaging-hosts/"))
        );
        assert_eq!(
            resolved_text(&os, &Browser::LibreWolf),
            Ok(under_home(".librewolf/native-messaging-hosts/"))
        );
        assert_eq!(
            resolved_text(&os, &Browser::Vivaldi),
            Ok(under_home(".config/vivaldi/NativeMessagingHosts/"))
        );
        assert_eq!(
            resolved_text(&os, &Browser::Edge),
            Ok(under_home(".config/microsoft-edge-dev/NativeMessagingHosts/"))
        );
    }
}

#[test]
fn linux_family_dirs_are_all_different() {
    for a in BROWSERS {
        for b in BROWSERS {
            let same = manifest_dir_from_home(&OperatingSystem::Linux, &a)
                == manifest_dir_from_home(&OperatingSystem::Linux, &b);
            assert_eq!(same, a == b);
        }
    }
}

#[test]
fn macos_dirs_are_the_library_dirs() {
    let expected = [
        (Browser::Chrome, "Library/Application Support/Google/Chrome/NativeMessagingHosts/"),
        (Browser::Chromium, "Library/Application Support/Chromium/NativeMessagingHosts/"),
        (Browser::Brave, "Library/Application Support/Google/Chrome/NativeMessagingHosts/"),
        (Browser::Firefox, "Library/Application Support/Mozilla/NativeMessagingHosts/"),
        (Browser::LibreWolf, "Library/Application Support/LibreWolf/NativeMessagingHosts/"),
        (Browser::Vivaldi, "Library/Application Support/Vivaldi/NativeMessagingHosts/"),
        (
            Browser::Edge,
            "Library/Application Support/Microsoft/Edge/NativeMessagingHosts/",
        ),
    ];
    for (browser, dir) in expected {
        assert_eq!(manifest_dir_from_home(&OperatingSystem::MacOs, &browser), Ok(dir));
        assert_eq!(resolved_text(&OperatingSystem::MacOs, &browser), Ok(under_home(dir)));
    }
}

#[test]
fn macos_dirs_lie_in_the_application_support_tree() {
    for browser in BROWSERS {
        let dir = manifest_dir_from_home(&OperatingSystem::MacOs, &browser).unwrap();
        assert!(dir.starts_with("Library/Application Support/"));
        assert!(dir.ends_with("/NativeMessagingHosts/"));
        let path = resolved_text(&OperatingSystem::MacOs, &browser).unwrap();
        assert!(path.starts_with(&under_home("Library/Application Support/")));
        assert!(path.ends_with("/NativeMessagingHosts/"));
    }
}

#[test]
fn macos_brave_reads_the_dir_of_chrome() {
    let brave = resolve_manifest_path(home(), &OperatingSystem::MacOs, &Browser::Brave);
    let chrome = resolve_manifest_path(home(), &OperatingSystem::MacOs, &Browser::Chrome);
    assert!(brave.is_ok());
    assert_eq!(brave, chrome);
    assert_eq!(
        brave.unwrap().to_str(),
        Some(under_home("Library/Application Support/Google/Chrome/NativeMessagingHosts/").as_str())
    );
}

#[test]
fn macos_dirs_are_shared_by_chrome_and_brave_only() {
    for a in BROWSERS {
        for b in BROWSERS {
            let same = manifest_dir_from_home(&OperatingSystem::MacOs, &a)
                == manifest_dir_from_home(&OperatingSystem::MacOs, &b);
            let alias = matches!(
                (a, b),
                (Browser::Chrome, Browser::Brave) | (Browser::Brave, Browser::Chrome)
            );
            assert_eq!(same, a == b || alias);
        }
    }
}

#[test]
fn windows_dirs_are_the_appdata_dirs() {
    let expected = [
        (Browser::Chrome, "AppData\\Local\\Google\\Chrome\\NativeMessagingHosts\\"),
        (Browser::Firefox, "AppData\\Roaming\\Mozilla\\NativeMessagingHosts\\"),
        (Browser::LibreWolf, "AppData\\Roaming\\Mozilla\\NativeMessagingHosts\\"),
        (Browser::Edge, "AppData\\Local\\Microsoft\\Edge\\NativeMessagingHosts\\"),
    ];
    for (browser, dir) in expected {
        assert_eq!(manifest_dir_from_home(&OperatingSystem::Windows, &browser), Ok(dir));
        assert_eq!(resolved_text(&OperatingSystem::Windows, &browser), Ok(under_home(dir)));
    }
}

#[test]
fn windows_librewolf_shares_the_dir_of_firefox() {
    let firefox = resolve_manifest_path(home(), &OperatingSystem::Windows, &Browser::Firefox);
    let librewolf = resolve_manifest_path(home(), &OperatingSystem::Windows, &Browser::LibreWolf);
    assert!(firefox.is_ok());
    assert_eq!(firefox, librewolf);
}

#[test]
fn windows_names_the_browser_it_does_not_support() {
    assert_eq!(
        resolved_text(&OperatingSystem::Windows, &Browser::Chromium),
        Err("Chromium is not yet supported on Windows.".to_string())
    );
    assert_eq!(
        resolved_text(&OperatingSystem::Windows, &Browser::Brave),
        Err("Brave is not yet supported on Windows.".to_string())
    );
    assert_eq!(
        resolved_text(&OperatingSystem::Windows, &Browser::Vivaldi),
        Err("Vivaldi is not yet supported on Windows.".to_string())
    );
    assert_eq!(
        manifest_dir_from_home(&OperatingSystem::Windows, &Browser::Vivaldi),
        Err("Vivaldi is not yet supported on Windows.".to_string())
    );
}

#[test]
fn other_systems_are_named_and_refused() {
    for browser in BROWSERS {
        let android = OperatingSystem::Other("android".to_string());
        assert_eq!(
            manifest_dir_from_home(&android, &browser),
            Err("Platform \"android\" is not yet supported.".to_string())
        );
        assert_eq!(
            resolved_text(&android, &browser),
            Err("Platform \"android\" is not yet supported.".to_string())
        );
        let unknown = OperatingSystem::Other("unknown".to_string());
        assert_eq!(
            resolved_text(&unknown, &browser),
            Err("Platform \"unknown\" is not yet supported.".to_string())
        );
    }
}

#[test]
fn other_system_without_a_name_is_refused_too() {
    let nameless = OperatingSystem::Other(String::new());
    assert_eq!(
        resolved_text(&nameless, &Browser::Firefox),
        Err("Platform \"\" is not yet supported.".to_string())
    );
}

#[test]
fn unknown_home_is_reported_whatever_the_system() {
    let systems = [
        OperatingSystem::Linux,
        OperatingSystem::OpenBsd,
        OperatingSystem::FreeBsd,
        OperatingSystem::MacOs,
        OperatingSystem::Windows,
        OperatingSystem::Other("redox".to_string()),
    ];
    for os in systems {
        for browser in BROWSERS {
            assert_eq!(
                resolve_manifest_path(None, &os, &browser),
                Err("Failed to determine path to home directory.".to_string())
            );
        }
    }
}

#[test]
fn resolving_twice_gives_the_same_result() {
    let systems = [
        OperatingSystem::Linux,
        OperatingSystem::MacOs,
        OperatingSystem::Windows,
        OperatingSystem::Other("haiku".to_string()),
    ];
    for os in systems {
        for browser in BROWSERS {
            let first = resolved_text(&os, &browser);
            let second = resolved_text(&os, &browser);
            assert_eq!(first, second);
            assert_eq!(
                resolve_manifest_path(None, &os, &browser),
                resolve_manifest_path(None, &os, &browser)
            );
        }
    }
}

#[test]
fn home_with_a_trailing_separator_gets_no_second_one() {
    let home = Some(PathBuf::from(format!("/home/alice{}", MAIN_SEPARATOR)));
    let path = resolve_manifest_path(home, &OperatingSystem::Linux, &Browser::Firefox).unwrap();
    assert_eq!(path.to_str(), Some(under_home(".mozilla/native-messaging-hosts/").as_str()));
}
