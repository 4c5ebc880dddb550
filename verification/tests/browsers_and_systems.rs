use manifest_paths::{Browser, OperatingSystem, OsFamily};

#[test]
fn systems_fall_into_four_families() {
    assert_eq!(OperatingSystem::Linux.family(), OsFamily::LinuxBsd);
    assert_eq!(OperatingSystem::OpenBsd.family(), OsFamily::LinuxBsd);
    assert_eq!(OperatingSystem::FreeBsd.family(), OsFamily::LinuxBsd);
    assert_eq!(OperatingSystem::MacOs.family(), OsFamily::MacOs);
    assert_eq!(OperatingSystem::Windows.family(), OsFamily::Windows);
    assert_eq!(OperatingSystem::Other("netbsd".to_string()).family(), OsFamily::Other);
    assert_eq!(OperatingSystem::Other("linux".to_string()).family(), OsFamily::Other);
}

#[test]
fn browsers_go_by_the_names_of_their_variants() {
    assert_eq!(Browser::Chrome.name(), "Chrome");
    assert_eq!(Browser::Chromium.name(), "Chromium");
    assert_eq!(Browser::Brave.name(), "Brave");
    assert_eq!(Browser::Firefox.name(), "Firefox");
    assert_eq!(Browser::LibreWolf.name(), "LibreWolf");
    assert_eq!(Browser::Vivaldi.name(), "Vivaldi");
    assert_eq!(Browser::Edge.name(), "Edge");
}

#[test]
fn browsers_are_printed_by_their_names() {
    let browsers = [
        Browser::Chrome,
        Browser::Chromium,
        Browser::Brave,
        Browser::Firefox,
        Browser::LibreWolf,
        Browser::Vivaldi,
        Browser::Edge,
    ];
    for browser in browsers {
        assert_eq!(browser.name(), format!("{:?}", browser));
    }
}
