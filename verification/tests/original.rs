use update_bin::classify::normalize_path;
use update_bin::command::get_update_command;

#[test]
fn test_path_normalization() {
    let windows_path = "C:\\Users\\Test\\.cargo\\bin\\update-bin.exe";
    let normalized = normalize_path(windows_path);
    assert_eq!(normalized, "C:/Users/Test/.cargo/bin/update-bin.exe");

    let unix_path = "/home/user/.cargo/bin/update-bin";
    let normalized = normalize_path(unix_path);
    assert_eq!(normalized, "/home/user/.cargo/bin/update-bin");
}

#[test]
fn test_cargo_path_detection() {
    let unix_cargo_path = "/home/user/.cargo/bin/some-binary";
    let windows_cargo_path = "C:\\Users\\User\\.cargo\\bin\\some-binary.exe";

    let normalized_unix = normalize_path(unix_cargo_path);
    assert!(normalized_unix.contains("/.cargo/bin/"));

    let normalized_windows = normalize_path(windows_cargo_path);
    assert!(normalized_windows.contains("/.cargo/bin/"));

    assert!(windows_cargo_path.to_lowercase().contains("\\.cargo\\bin\\"));
}

#[test]
fn test_bun_path_detection() {
    let unix_bun_path = "/home/user/.bun/bin/some-binary";
    let windows_bun_path = "C:\\Users\\User\\AppData\\Roaming\\bun\\bin\\some-binary.exe";

    let normalized_unix = normalize_path(unix_bun_path);
    assert!(normalized_unix.contains("/.bun/"));

    let normalized_windows = normalize_path(windows_bun_path);
    assert!(normalized_windows.to_lowercase().contains("appdata/roaming/bun"));
}

#[test]
fn test_get_update_command() {
    let test_cases = vec![
        ("homebrew", "test-package", ("brew", vec!["upgrade", "test-package"])),
        ("npm", "test-package", ("npm", vec!["update", "-g", "test-package"])),
        ("pnpm", "test-package", ("pnpm", vec!["update", "-g", "test-package"])),
        ("yarn", "test-package", ("yarn", vec!["global", "upgrade", "test-package"])),
        ("cargo", "test-package", ("cargo", vec!["install", "test-package"])),
        ("bun", "test-package", ("bun", vec!["update", "-g", "test-package"])),
    ];

    for (pm_name, package_name, expected) in test_cases {
        let result = get_update_command(pm_name, package_name);
        assert!(result.is_ok());

        let (command, args) = result.unwrap();
        assert_eq!(command, expected.0);
        assert_eq!(args, expected.1.iter().map(|s| s.to_string()).collect::<Vec<String>>());
    }

    let result = get_update_command("unsupported", "test");
    assert!(result.is_err());
    assert!(result.unwrap_err().contains("Unsupported package manager"));
}
