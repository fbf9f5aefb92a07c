use update_bin::classify::{
    cargo_detection, classify_path, manager_label, normalize_path, undetected_message,
    ManagerKind, PackageManager,
};
use update_bin::command::{
    get_update_command, launch_failure_message, update_failure_message, wait_failure_message,
};
use update_bin::manifest::{
    bun_global_dir, manifest_path_in, node_modules_manifest_paths, npm_manifest_paths,
    pnpm_manifest_paths,
};
use update_bin::resolve::{map_bin_name_to_homebrew_package_name, resolve_package_name};
use update_bin::version::{
    first_listed_path, get_version, not_found_message, parse_binary_version, parse_cargo_version,
    parse_homebrew_version, parse_node_package_version, update_summary, version_flags,
    version_listing_command, version_probe_failure_message, ListingResult, VersionOutcome,
};

fn no_dirs() -> Option<String> {
    None
}

#[test]
fn classify_cargo_both_conventions() {
    let r = classify_path("/home/user/.cargo/bin/tool", false, &no_dirs(), &no_dirs(), &no_dirs());
    assert_eq!(r, Some(ManagerKind::Cargo));

    let r = classify_path(
        "C:\\Users\\User\\.cargo\\bin\\tool.exe",
        true,
        &no_dirs(),
        &no_dirs(),
        &no_dirs(),
    );
    assert_eq!(r, Some(ManagerKind::Cargo));

    let pm = cargo_detection("tool");
    assert_eq!(pm.name, "cargo");
    assert_eq!(pm.package_name, "tool");
}

#[test]
fn classify_homebrew_markers() {
    let r = classify_path("/opt/homebrew/bin/wget", false, &no_dirs(), &no_dirs(), &no_dirs());
    assert_eq!(r, Some(ManagerKind::Homebrew));

    let r = classify_path("/usr/local/bin/wget", false, &no_dirs(), &no_dirs(), &no_dirs());
    assert_eq!(r, Some(ManagerKind::Homebrew));

    // The Homebrew markers are not consulted on Windows.
    let r = classify_path("/usr/local/bin/wget", true, &no_dirs(), &no_dirs(), &no_dirs());
    assert_eq!(r, None);
}

#[test]
fn classify_bun_markers() {
    let r = classify_path("/home/user/.bun/bin/tool", false, &no_dirs(), &no_dirs(), &no_dirs());
    assert_eq!(r, Some(ManagerKind::Bun));

    let r = classify_path(
        "C:\\Users\\User\\AppData\\Roaming\\bun\\bin\\tool.exe",
        true,
        &no_dirs(),
        &no_dirs(),
        &no_dirs(),
    );
    assert_eq!(r, Some(ManagerKind::Bun));
}

#[test]
fn classify_order_homebrew_before_cargo() {
    let both = "/usr/local/opt/.cargo/bin/tool";
    let r = classify_path(both, false, &no_dirs(), &no_dirs(), &no_dirs());
    assert_eq!(r, Some(ManagerKind::Homebrew));
}

#[test]
fn classify_probed_directories() {
    let pnpm = Some("/home/u/.local/share/pnpm\n".to_string());
    let r = classify_path("/home/u/.local/share/pnpm/tool", false, &pnpm, &no_dirs(), &no_dirs());
    assert_eq!(r, Some(ManagerKind::Pnpm));

    let npm = Some("/usr/lib/nodejs/bin".to_string());
    let r = classify_path("/usr/lib/nodejs/bin/tool", false, &no_dirs(), &npm, &no_dirs());
    assert_eq!(r, Some(ManagerKind::Npm));

    let yarn = Some("/home/u/.yarn/bin\n".to_string());
    let r = classify_path("/home/u/.yarn/bin/tool", false, &no_dirs(), &no_dirs(), &yarn);
    assert_eq!(r, Some(ManagerKind::Yarn));

    // An empty probe output matches nothing.
    let empty = Some("   \n".to_string());
    let r = classify_path("/somewhere/tool", false, &empty, &empty, &empty);
    assert_eq!(r, None);
}

#[test]
fn classify_nothing_matches() {
    let r = classify_path("/bin/ls", false, &no_dirs(), &no_dirs(), &no_dirs());
    assert_eq!(r, None);
    assert_eq!(
        undetected_message("ls"),
        "Could not detect package manager for 'ls'"
    );
}

#[test]
fn manager_labels() {
    assert_eq!(manager_label(ManagerKind::Homebrew), "homebrew");
    assert_eq!(manager_label(ManagerKind::Bun), "bun");
    assert_eq!(manager_label(ManagerKind::Cargo), "cargo");
    assert_eq!(manager_label(ManagerKind::Pnpm), "pnpm");
    assert_eq!(manager_label(ManagerKind::Npm), "npm");
    assert_eq!(manager_label(ManagerKind::Yarn), "yarn");
}

#[test]
fn normalization_is_idempotent() {
    let once = normalize_path("C:\\Users\\Test\\.cargo\\bin\\update-bin.exe");
    let twice = normalize_path(&once);
    assert_eq!(once, twice);
}

#[test]
fn unsupported_manager_message_is_exact() {
    let err = get_update_command("weird", "pkg").unwrap_err();
    assert_eq!(err, "Unsupported package manager: weird");
}

#[test]
fn node_version_extractor_exact() {
    let listing = "/usr/lib\n├── some-tool@0.1.0\n├── foo@1.2.3\n";
    assert_eq!(parse_node_package_version(listing, "foo"), Some("1.2.3".to_string()));
}

#[test]
fn node_version_extractor_misses() {
    assert_eq!(parse_node_package_version("", "foo"), None);
    assert_eq!(parse_node_package_version("bar@2.0.0\n", "foo"), None);
}

#[test]
fn cargo_version_extractor_exact() {
    let listing = "foo v1.2.3:\n    foo\n";
    assert_eq!(parse_cargo_version(listing, "foo"), Some("1.2.3".to_string()));
}

#[test]
fn cargo_version_extractor_odd_tokens() {
    // The leading `v` is stripped only when present; the token survives
    // without it.
    assert_eq!(parse_cargo_version("foo 1.2.3:\n", "foo"), Some("1.2.3".to_string()));
    // A matching line with no second token reads as unknown.
    assert_eq!(parse_cargo_version("foo\n", "foo"), None);
    assert_eq!(parse_cargo_version("foo \n", "foo"), Some("unknown".to_string()));
    // No matching line at all.
    assert_eq!(parse_cargo_version("bar v1.0.0:\n    bar\n", "foo"), None);
}

#[test]
fn homebrew_version_second_token() {
    assert_eq!(parse_homebrew_version("wget 2.1.0\n"), "2.1.0");
    assert_eq!(parse_homebrew_version("wget\n"), "unknown");
    assert_eq!(parse_homebrew_version(""), "unknown");
}

#[test]
fn binary_version_first_line() {
    assert_eq!(parse_binary_version("tool 1.0.0\nextra line\n"), "tool 1.0.0");
    assert_eq!(parse_binary_version(""), "unknown");
}

#[test]
fn version_flags_fixed_order() {
    let flags = version_flags();
    assert_eq!(flags, vec!["--version", "-v", "-V", "version"]);
}

#[test]
fn version_dispatch_homebrew() {
    let pm = PackageManager { name: "homebrew".to_string(), package_name: "wget".to_string() };
    match get_version("wget", &pm, ListingResult::Captured("wget 2.1.0\n".to_string())) {
        VersionOutcome::Found(v) => assert_eq!(v, "2.1.0"),
        other => panic!("unexpected outcome: {:?}", other),
    }
    match get_version("wget", &pm, ListingResult::ExitFailure) {
        VersionOutcome::Failed(e) => assert_eq!(e, "Package not found in homebrew"),
        other => panic!("unexpected outcome: {:?}", other),
    }
}

#[test]
fn version_dispatch_node_and_cargo() {
    let pm = PackageManager { name: "npm".to_string(), package_name: "foo".to_string() };
    match get_version("foo", &pm, ListingResult::Captured("├── foo@1.2.3\n".to_string())) {
        VersionOutcome::Found(v) => assert_eq!(v, "1.2.3"),
        other => panic!("unexpected outcome: {:?}", other),
    }
    assert!(matches!(
        get_version("foo", &pm, ListingResult::ExitFailure),
        VersionOutcome::NeedFallback
    ));

    let pm = PackageManager { name: "cargo".to_string(), package_name: "foo".to_string() };
    match get_version("foo", &pm, ListingResult::Captured("foo v1.2.3:\n".to_string())) {
        VersionOutcome::Found(v) => assert_eq!(v, "1.2.3"),
        other => panic!("unexpected outcome: {:?}", other),
    }

    let pm = PackageManager { name: "yarn".to_string(), package_name: "foo".to_string() };
    assert!(matches!(
        get_version("foo", &pm, ListingResult::Captured("anything".to_string())),
        VersionOutcome::NeedFallback
    ));
}

#[test]
fn listing_commands_per_manager() {
    let pm = PackageManager { name: "homebrew".to_string(), package_name: "wget".to_string() };
    let (cmd, args) = version_listing_command("wget", &pm).unwrap();
    assert_eq!(cmd, "brew");
    assert_eq!(args, vec!["list", "--versions", "wget"]);

    let pm = PackageManager { name: "pnpm".to_string(), package_name: "foo".to_string() };
    let (cmd, args) = version_listing_command("foo", &pm).unwrap();
    assert_eq!(cmd, "pnpm");
    assert_eq!(args, vec!["list", "-g", "--depth=0"]);

    let pm = PackageManager { name: "cargo".to_string(), package_name: "foo".to_string() };
    let (cmd, args) = version_listing_command("foo", &pm).unwrap();
    assert_eq!(cmd, "cargo");
    assert_eq!(args, vec!["install", "--list"]);

    let pm = PackageManager { name: "yarn".to_string(), package_name: "foo".to_string() };
    assert!(version_listing_command("foo", &pm).is_none());
}

#[test]
fn locator_output_handling() {
    assert_eq!(first_listed_path("  /usr/bin/tool\n/alt/tool\n"), "/usr/bin/tool");
    assert_eq!(first_listed_path("/usr/bin/tool\n"), "/usr/bin/tool");
    assert_eq!(first_listed_path("   \n"), "");
    let msg = not_found_message("ghost-tool");
    assert_eq!(msg, "Binary 'ghost-tool' not found");
    assert!(msg.contains("not found"));
}

#[test]
fn update_flow_failure_messages() {
    assert_eq!(
        launch_failure_message("brew", "No such file or directory (os error 2)"),
        "Failed to run brew: No such file or directory (os error 2)"
    );
    assert_eq!(
        wait_failure_message("brew", "interrupted"),
        "Failed to wait for brew: interrupted"
    );
    assert_eq!(
        update_failure_message("wget", "homebrew"),
        "Failed to update wget with homebrew"
    );
    assert_eq!(
        version_probe_failure_message("brew", "spawn failed"),
        "Failed to get brew version: spawn failed"
    );
}

#[test]
fn update_summary_lines() {
    assert_eq!(
        update_summary("wget", "2.1.0", "2.2.0"),
        "✅ Successfully updated wget from 2.1.0 to 2.2.0"
    );
    assert_eq!(
        update_summary("wget", "2.1.0", "2.1.0"),
        "ℹ️  wget is already up to date (2.1.0)"
    );
}

#[test]
fn resolver_bin_map_form() {
    let entries = vec![
        ("pkg-plain".to_string(), "{\"name\": \"pkg-plain\"}".to_string()),
        (
            "pkg-a".to_string(),
            "{\"bin\": {\"mybin\": \"./cli.js\", \"other\": \"./o.js\"}}".to_string(),
        ),
    ];
    assert_eq!(resolve_package_name("mybin", &entries), "pkg-a");
    assert_eq!(resolve_package_name("other", &entries), "pkg-a");
}

#[test]
fn resolver_bin_string_form() {
    let entries = vec![("pkg-b".to_string(), "{\"bin\": \"toolx\"}".to_string())];
    assert_eq!(resolve_package_name("toolx", &entries), "pkg-b");
}

#[test]
fn resolver_falls_back_to_binary_name() {
    let entries = vec![
        ("pkg-a".to_string(), "{\"bin\": {\"somethingelse\": \"./x\"}}".to_string()),
        ("pkg-b".to_string(), "not json at all".to_string()),
    ];
    assert_eq!(resolve_package_name("mybin", &entries), "mybin");
    assert_eq!(resolve_package_name("anything", &vec![]), "anything");
}

#[test]
fn resolver_first_match_wins() {
    let entries = vec![
        ("first".to_string(), "{\"bin\": {\"shared\": \"./a\"}}".to_string()),
        ("second".to_string(), "{\"bin\": {\"shared\": \"./b\"}}".to_string()),
    ];
    assert_eq!(resolve_package_name("shared", &entries), "first");
}

#[test]
fn npm_paths_from_listing() {
    let listing = "{\"dependencies\": {\"alpha\": {}, \"beta\": {}}}";
    let paths = npm_manifest_paths(listing, "/usr/lib/node_modules", false);
    assert_eq!(
        paths,
        vec![
            ("alpha".to_string(), "/usr/lib/node_modules/alpha/package.json".to_string()),
            ("beta".to_string(), "/usr/lib/node_modules/beta/package.json".to_string()),
        ]
    );

    let paths = npm_manifest_paths("not json", "/d", false);
    assert!(paths.is_empty());
}

#[test]
fn pnpm_paths_from_listing() {
    let listing = "[{\"dependencies\": {\"foo\": {\"path\": \"/p/foo\"}, \"bar\": {\"path\": \"/p/bar\"}}}]";
    let paths = pnpm_manifest_paths(listing, false);
    assert_eq!(
        paths,
        vec![
            ("bar".to_string(), "/p/bar/package.json".to_string()),
            ("foo".to_string(), "/p/foo/package.json".to_string()),
        ]
    );
}

#[test]
fn node_modules_paths_from_global_manifest() {
    let manifest = "{\"dependencies\": {\"gamma\": \"^1.0.0\"}}";
    let paths = node_modules_manifest_paths(manifest, "/home/u/.config/yarn/global", false);
    assert_eq!(
        paths,
        vec![(
            "gamma".to_string(),
            "/home/u/.config/yarn/global/node_modules/gamma/package.json".to_string()
        )]
    );
}

#[test]
fn bun_directories() {
    assert_eq!(
        bun_global_dir(&Some("/home/u".to_string()), false),
        "/home/u/.bun/install/global"
    );
    assert_eq!(bun_global_dir(&None, false), "~/.bun/install/global");
    assert_eq!(
        bun_global_dir(&Some("C:\\Users\\U\\AppData\\Roaming".to_string()), true),
        "C:\\Users\\U\\AppData\\Roaming\\bun"
    );
    assert_eq!(bun_global_dir(&None, true), "~\\AppData\\Roaming\\bun");
    assert_eq!(manifest_path_in("/g", false), "/g/package.json");
    assert_eq!(manifest_path_in("C:\\g", true), "C:\\g\\package.json");
}

#[test]
fn homebrew_resolver_first_installed() {
    let installed = Some("wget\ncurl\n".to_string());
    let candidates = Some("wget2\nwget\n".to_string());
    assert_eq!(
        map_bin_name_to_homebrew_package_name("wget", &installed, &candidates),
        "wget"
    );

    let candidates = Some("wget2\n".to_string());
    assert_eq!(
        map_bin_name_to_homebrew_package_name("wget", &installed, &candidates),
        "wget"
    );

    let installed = Some("hub\nwget2\n".to_string());
    let candidates = Some("wget2\nwget\n".to_string());
    assert_eq!(
        map_bin_name_to_homebrew_package_name("wget", &installed, &candidates),
        "wget2"
    );
}

#[test]
fn scenario_homebrew_update_flow() {
    // A binary under a Homebrew prefix: classification, the old version from
    // the listing, the update command, the new version, and the final line.
    let kind = classify_path("/usr/local/bin/wget", false, &no_dirs(), &no_dirs(), &no_dirs());
    assert_eq!(kind, Some(ManagerKind::Homebrew));

    let pm = PackageManager {
        name: manager_label(ManagerKind::Homebrew),
        package_name: "wget".to_string(),
    };

    let (cmd, args) = version_listing_command("wget", &pm).unwrap();
    assert_eq!((cmd.as_str(), args.clone()), ("brew", vec!["list".to_string(), "--versions".to_string(), "wget".to_string()]));

    let old = match get_version("wget", &pm, ListingResult::Captured("wget 2.1.0\n".to_string())) {
        VersionOutcome::Found(v) => v,
        other => panic!("unexpected outcome: {:?}", other),
    };
    assert_eq!(old, "2.1.0");

    let (update_cmd, update_args) = get_update_command(&pm.name, &pm.package_name).unwrap();
    assert_eq!(update_cmd, "brew");
    assert_eq!(update_args, vec!["upgrade", "wget"]);

    let new = match get_version("wget", &pm, ListingResult::Captured("wget 2.2.0\n".to_string())) {
        VersionOutcome::Found(v) => v,
        other => panic!("unexpected outcome: {:?}", other),
    };
    assert_eq!(new, "2.2.0");

    let line = update_summary(&pm.package_name, &old, &new);
    assert!(line.contains("2.1.0") && line.contains("2.2.0") && line.contains("wget"));
}

#[test]
fn homebrew_resolver_fallbacks() {
    let installed = Some("wget\n".to_string());
    assert_eq!(
        map_bin_name_to_homebrew_package_name(
            "wget",
            &installed,
            &Some("Error: not found\n".to_string())
        ),
        "wget"
    );
    assert_eq!(
        map_bin_name_to_homebrew_package_name("wget", &installed, &Some("   ".to_string())),
        "wget"
    );
    assert_eq!(map_bin_name_to_homebrew_package_name("wget", &None, &None), "wget");
}
