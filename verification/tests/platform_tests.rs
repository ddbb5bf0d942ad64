use fetch_open::platform::OpenCommand;
use fetch_open::platform::Platform;
use fetch_open::platform::open_command;

#[test]
fn platform_identifiers_map_to_fixed_set() {
    assert_eq!(Platform::from_os("windows"), Platform::Windows);
    assert_eq!(Platform::from_os("macos"), Platform::MacOs);
    assert_eq!(Platform::from_os("linux"), Platform::Linux);
    assert_eq!(Platform::from_os("freebsd"), Platform::Other);
    assert_eq!(Platform::from_os("android"), Platform::Other);
    assert_eq!(Platform::from_os(""), Platform::Other);
}

#[test]
fn platform_query_is_stable_across_calls() {
    let identifiers = ["windows", "macos", "linux", "netbsd", ""];
    for os in identifiers {
        let first = Platform::from_os(os);
        let second = Platform::from_os(os);
        assert_eq!(first, second);
        assert!(matches!(
            first,
            Platform::Windows | Platform::MacOs | Platform::Linux | Platform::Other
        ));
    }
}

#[test]
fn windows_open_command() {
    let OpenCommand { program, args } =
        open_command(Platform::Windows, "C:/tmp/a.txt").expect("windows is supported");
    assert_eq!(program, "cmd");
    assert_eq!(args, vec!["/c", "start", "\"\"", "C:/tmp/a.txt"]);
}

#[test]
fn macos_open_command() {
    let OpenCommand { program, args } =
        open_command(Platform::MacOs, "/tmp/a.txt").expect("macos is supported");
    assert_eq!(program, "open");
    assert_eq!(args, vec!["/tmp/a.txt"]);
}

#[test]
fn linux_open_command() {
    let OpenCommand { program, args } =
        open_command(Platform::Linux, "/tmp/a.txt").expect("linux is supported");
    assert_eq!(program, "xdg-open");
    assert_eq!(args, vec!["/tmp/a.txt"]);
}

#[test]
fn unsupported_platform_open_is_silent_noop() {
    assert!(open_command(Platform::Other, "/tmp/a.txt").is_none());
}
