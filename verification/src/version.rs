//! Extracting a package's version from the captured output of the managers'
//! listing commands, with the generic binary fallback, and the dispatch that
//! picks the extractor for a detection result.

use vstd::prelude::*;

use crate::classify::PackageManager;
use crate::lines::{split_lines, split_lines_spec};
use crate::text::{
    chars_of, drop_trailing, drop_trailing_of, find_in_chars, find_sub, has_substring, is_prefix,
    second_word, second_word_of, starts_with_chars, str_eq, trim_spec, trimmed,
};

verus! {

/// The version Homebrew's `list --versions` output reports: the second
/// whitespace-separated token, or "unknown" when there is none.
pub open spec fn homebrew_version_spec(out: Seq<char>) -> Seq<char> {
    let w = second_word(trim_spec(out));
    if w.len() > 0 {
        w
    } else {
        "unknown"@
    }
}

/// [`homebrew_version_spec`] as an owned string.
pub fn parse_homebrew_version(output: &str) -> (r: String)
    ensures
        r@ == homebrew_version_spec(output@),
{
    let t = trimmed(output);
    let w = second_word_of(t.as_str());
    if w.as_str().unicode_len() > 0 {
        w
    } else {
        String::from_str("unknown")
    }
}

/// The suffix of `l` after the first occurrence of `pat`; meaningful only
/// when `pat` occurs in `l`.
pub open spec fn after_first(l: Seq<char>, pat: Seq<char>) -> Seq<char> {
    let k = find_sub(l, pat);
    l.subrange(k + pat.len(), l.len() as int)
}

/// What stands after the first occurrence of `pat` in `l` and before its
/// next occurrence, if any (`split(pat).nth(1)`).
pub open spec fn between_occurrences(l: Seq<char>, pat: Seq<char>) -> Seq<char> {
    let rest = after_first(l, pat);
    let k2 = find_sub(rest, pat);
    if 0 <= k2 && k2 <= rest.len() {
        rest.subrange(0, k2)
    } else {
        rest
    }
}

/// The node-package version found in the listing's lines: on the first line
/// holding `pat` (the package name followed by `@`), the trimmed text
/// between that marker and any next occurrence of it.
pub open spec fn node_version_lines(ls: Seq<Seq<char>>, pat: Seq<char>) -> Option<Seq<char>>
    decreases ls.len(),
{
    if ls.len() == 0 {
        None
    } else if has_substring(ls[0], pat) {
        Some(trim_spec(between_occurrences(ls[0], pat)))
    } else {
        node_version_lines(ls.drop_first(), pat)
    }
}

/// The version that a node-style manager's global listing reports for
/// `pkg`, if any line mentions `pkg@`.
pub open spec fn node_version_spec(out: Seq<char>, pkg: Seq<char>) -> Option<Seq<char>> {
    node_version_lines(split_lines_spec(out), pkg + "@"@)
}

/// [`node_version_spec`] as an owned string.
pub fn parse_node_package_version(list_output: &str, package_name: &str) -> (r: Option<String>)
    ensures
        match r {
            Some(v) => node_version_spec(list_output@, package_name@) == Some(v@),
            None => node_version_spec(list_output@, package_name@) is None,
        },
{
    let pat = String::from_str(package_name).concat("@");
    let m = pat.as_str().unicode_len();
    let pv = chars_of(pat.as_str());
    let lines = split_lines(list_output);
    let n = lines.len();
    let ghost full = lines.deep_view();
    let mut i: usize = 0;
    proof {
        assert(full.subrange(0, n as int) =~= full);
    }
    while i < n
        invariant
            i <= n,
            n == full.len(),
            full == lines.deep_view(),
            full == split_lines_spec(list_output@),
            pv@ == pat@,
            pat@ == package_name@ + "@"@,
            m == pat@.len(),
            node_version_lines(full, pat@) == node_version_lines(
                full.subrange(i as int, n as int),
                pat@,
            ),
        decreases n - i,
    {
        let line: &String = &lines[i];
        let lv = chars_of(line.as_str());
        let ghost suffix = full.subrange(i as int, n as int);
        proof {
            assert(suffix[0] == full[i as int]);
            assert(full[i as int] == line@);
        }
        match find_in_chars(&lv, &pv) {
            Some(k) => {
                let ll = line.as_str().unicode_len();
                let rest = line.as_str().substring_char(k + m, ll);
                let rv = chars_of(rest);
                let seg: &str = match find_in_chars(&rv, &pv) {
                    Some(k2) => rest.substring_char(0, k2),
                    None => rest,
                };
                proof {
                    assert(rest@ == after_first(line@, pat@));
                    assert(seg@ == between_occurrences(line@, pat@));
                    assert(node_version_lines(suffix, pat@) == Some(
                        trim_spec(between_occurrences(line@, pat@)),
                    ));
                }
                return Some(trimmed(seg));
            },
            None => {},
        }
        proof {
            assert(suffix.drop_first() =~= full.subrange(i + 1, n as int));
            assert(node_version_lines(suffix, pat@) == node_version_lines(
                suffix.drop_first(),
                pat@,
            ));
        }
        i += 1;
    }
    proof {
        assert(full.subrange(i as int, n as int).len() == 0);
    }
    None
}

/// The version token of a matching `cargo install --list` line: the second
/// whitespace-separated token, with a leading `v` stripped when present and
/// trailing colons dropped; "unknown" only when the line has no second
/// token.
pub open spec fn cargo_token_version(l: Seq<char>) -> Seq<char> {
    let tok = second_word(l);
    if tok.len() > 0 {
        let core = if tok[0] == 'v' {
            tok.drop_first()
        } else {
            tok
        };
        drop_trailing(core, ':')
    } else {
        "unknown"@
    }
}

/// The cargo version found in the listing's lines: taken from the first
/// line that starts with the binary name and a space.
pub open spec fn cargo_version_lines(ls: Seq<Seq<char>>, pre: Seq<char>) -> Option<Seq<char>>
    decreases ls.len(),
{
    if ls.len() == 0 {
        None
    } else if is_prefix(pre, ls[0]) {
        Some(cargo_token_version(ls[0]))
    } else {
        cargo_version_lines(ls.drop_first(), pre)
    }
}

/// The version that `cargo install --list` reports for `bin`, if any line
/// starts with `bin` followed by a space.
pub open spec fn cargo_version_spec(out: Seq<char>, bin: Seq<char>) -> Option<Seq<char>> {
    cargo_version_lines(split_lines_spec(out), bin + " "@)
}

/// [`cargo_version_spec`] as an owned string.
pub fn parse_cargo_version(list_output: &str, bin_name: &str) -> (r: Option<String>)
    ensures
        match r {
            Some(v) => cargo_version_spec(list_output@, bin_name@) == Some(v@),
            None => cargo_version_spec(list_output@, bin_name@) is None,
        },
{
    let pre = String::from_str(bin_name).concat(" ");
    let pv = chars_of(pre.as_str());
    let lines = split_lines(list_output);
    let n = lines.len();
    let ghost full = lines.deep_view();
    let mut i: usize = 0;
    proof {
        assert(full.subrange(0, n as int) =~= full);
    }
    while i < n
        invariant
            i <= n,
            n == full.len(),
            full == lines.deep_view(),
            full == split_lines_spec(list_output@),
            pv@ == pre@,
            pre@ == bin_name@ + " "@,
            cargo_version_lines(full, pre@) == cargo_version_lines(
                full.subrange(i as int, n as int),
                pre@,
            ),
        decreases n - i,
    {
        let line: &String = &lines[i];
        let lv = chars_of(line.as_str());
        let ghost suffix = full.subrange(i as int, n as int);
        proof {
            assert(suffix[0] == full[i as int]);
            assert(full[i as int] == line@);
        }
        if starts_with_chars(&lv, &pv) {
            let tok = second_word_of(line.as_str());
            let tl = tok.as_str().unicode_len();
            let r: String = if tl > 0 {
                let core: &str = if tok.as_str().get_char(0) == 'v' {
                    let stripped = tok.as_str().substring_char(1, tl);
                    proof {
                        assert(stripped@ =~= second_word(line@).drop_first());
                    }
                    stripped
                } else {
                    tok.as_str()
                };
                drop_trailing_of(core, ':')
            } else {
                String::from_str("unknown")
            };
            proof {
                assert(cargo_version_lines(suffix, pre@) == Some(cargo_token_version(line@)));
            }
            return Some(r);
        }
        proof {
            assert(suffix.drop_first() =~= full.subrange(i + 1, n as int));
            assert(cargo_version_lines(suffix, pre@) == cargo_version_lines(
                suffix.drop_first(),
                pre@,
            ));
        }
        i += 1;
    }
    proof {
        assert(full.subrange(i as int, n as int).len() == 0);
    }
    None
}

/// What the binary's own output stands for as a version: the first line,
/// trimmed, or "unknown" when the output has no line.
pub open spec fn binary_version_spec(out: Seq<char>) -> Seq<char> {
    let ls = split_lines_spec(out);
    if ls.len() > 0 {
        trim_spec(ls[0])
    } else {
        "unknown"@
    }
}

/// [`binary_version_spec`] as an owned string.
pub fn parse_binary_version(output: &str) -> (r: String)
    ensures
        r@ == binary_version_spec(output@),
{
    let lines = split_lines(output);
    if lines.len() > 0 {
        let line: &String = &lines[0];
        proof {
            assert(lines.deep_view()[0] == line@);
        }
        trimmed(line.as_str())
    } else {
        String::from_str("unknown")
    }
}

/// The flags tried against the binary itself, in their fixed order.
pub fn version_flags() -> (r: Vec<String>)
    ensures
        r.deep_view() =~= seq!["--version"@, "-v"@, "-V"@, "version"@],
{
    let mut r: Vec<String> = Vec::new();
    r.push(String::from_str("--version"));
    r.push(String::from_str("-v"));
    r.push(String::from_str("-V"));
    r.push(String::from_str("version"));
    proof {
        assert(r.deep_view() =~= seq!["--version"@, "-v"@, "-V"@, "version"@]);
    }
    r
}

/// How running a manager's listing command went: the spawn failed (with the
/// caller's message), the command exited unsuccessfully, or its standard
/// output was captured.
pub enum ListingResult {
    LaunchFailed(String),
    ExitFailure,
    Captured(String),
}

/// What the version reporter concludes: a version string, a fall back to
/// asking the binary itself, or a final failure with a message.
#[derive(Debug)]
pub enum VersionOutcome {
    Found(String),
    NeedFallback,
    Failed(String),
}

/// The dispatch of the version reporter on a detection result and the
/// listing outcome: Homebrew parses or fails outright; the node managers
/// and Cargo parse and otherwise fall back; every other manager falls back
/// directly.
pub open spec fn version_outcome_spec(
    bin: Seq<char>,
    name: Seq<char>,
    pkg: Seq<char>,
    listing: ListingResult,
    r: VersionOutcome,
) -> bool {
    if name == "homebrew"@ {
        match listing {
            ListingResult::LaunchFailed(m) => r matches VersionOutcome::Failed(e) && e@ == m@,
            ListingResult::ExitFailure => r matches VersionOutcome::Failed(e) && e@
                == "Package not found in homebrew"@,
            ListingResult::Captured(out) => r matches VersionOutcome::Found(v) && v@
                == homebrew_version_spec(out@),
        }
    } else if name == "bun"@ || name == "npm"@ || name == "pnpm"@ {
        match listing {
            ListingResult::LaunchFailed(m) => r matches VersionOutcome::Failed(e) && e@ == m@,
            ListingResult::ExitFailure => r is NeedFallback,
            ListingResult::Captured(out) => match node_version_spec(out@, pkg) {
                Some(v) => r matches VersionOutcome::Found(x) && x@ == v,
                None => r is NeedFallback,
            },
        }
    } else if name == "cargo"@ {
        match listing {
            ListingResult::LaunchFailed(m) => r matches VersionOutcome::Failed(e) && e@ == m@,
            ListingResult::ExitFailure => r is NeedFallback,
            ListingResult::Captured(out) => match cargo_version_spec(out@, bin) {
                Some(v) => r matches VersionOutcome::Found(x) && x@ == v,
                None => r is NeedFallback,
            },
        }
    } else {
        r is NeedFallback
    }
}

/// The version of `bin_name`'s package, as `package_manager`'s listing
/// output reports it; `listing` is how running [`version_listing_command`]
/// went. A `NeedFallback` result asks the caller to query the binary itself
/// and finish with [`parse_binary_version`].
pub fn get_version(bin_name: &str, package_manager: &PackageManager, listing: ListingResult) -> (r:
    VersionOutcome)
    ensures
        version_outcome_spec(
            bin_name@,
            package_manager.name@,
            package_manager.package_name@,
            listing,
            r,
        ),
{
    if str_eq(package_manager.name.as_str(), "homebrew") {
        match listing {
            ListingResult::LaunchFailed(m) => VersionOutcome::Failed(m),
            ListingResult::ExitFailure => VersionOutcome::Failed(
                String::from_str("Package not found in homebrew"),
            ),
            ListingResult::Captured(out) => VersionOutcome::Found(
                parse_homebrew_version(out.as_str()),
            ),
        }
    } else if str_eq(package_manager.name.as_str(), "bun") || str_eq(
        package_manager.name.as_str(),
        "npm",
    ) || str_eq(package_manager.name.as_str(), "pnpm") {
        match listing {
            ListingResult::LaunchFailed(m) => VersionOutcome::Failed(m),
            ListingResult::ExitFailure => VersionOutcome::NeedFallback,
            ListingResult::Captured(out) => match parse_node_package_version(
                out.as_str(),
                package_manager.package_name.as_str(),
            ) {
                Some(v) => VersionOutcome::Found(v),
                None => VersionOutcome::NeedFallback,
            },
        }
    } else if str_eq(package_manager.name.as_str(), "cargo") {
        match listing {
            ListingResult::LaunchFailed(m) => VersionOutcome::Failed(m),
            ListingResult::ExitFailure => VersionOutcome::NeedFallback,
            ListingResult::Captured(out) => match parse_cargo_version(out.as_str(), bin_name) {
                Some(v) => VersionOutcome::Found(v),
                None => VersionOutcome::NeedFallback,
            },
        }
    } else {
        VersionOutcome::NeedFallback
    }
}

/// The listing command the version reporter wants run for a manager, if
/// any: Homebrew lists the one package with versions, the node managers
/// list their global installs, Cargo lists its installed binaries.
pub open spec fn listing_command_spec(name: Seq<char>, bin: Seq<char>) -> Option<
    (Seq<char>, Seq<Seq<char>>),
> {
    if name == "homebrew"@ {
        Some(("brew"@, seq!["list"@, "--versions"@, bin]))
    } else if name == "bun"@ || name == "npm"@ || name == "pnpm"@ {
        Some((name, seq!["list"@, "-g"@, "--depth=0"@]))
    } else if name == "cargo"@ {
        Some(("cargo"@, seq!["install"@, "--list"@]))
    } else {
        None
    }
}

/// [`listing_command_spec`] as owned values.
pub fn version_listing_command(bin_name: &str, package_manager: &PackageManager) -> (r: Option<
    (String, Vec<String>),
>)
    ensures
        match r {
            Some(c) => listing_command_spec(package_manager.name@, bin_name@) == Some(
                (c.0@, c.1.deep_view()),
            ),
            None => listing_command_spec(package_manager.name@, bin_name@) is None,
        },
{
    if str_eq(package_manager.name.as_str(), "homebrew") {
        Some((String::from_str("brew"), crate::command::args3("list", "--versions", bin_name)))
    } else if str_eq(package_manager.name.as_str(), "bun") || str_eq(
        package_manager.name.as_str(),
        "npm",
    ) || str_eq(package_manager.name.as_str(), "pnpm") {
        Some((package_manager.name.clone(), crate::command::args3("list", "-g", "--depth=0")))
    } else if str_eq(package_manager.name.as_str(), "cargo") {
        Some((String::from_str("cargo"), crate::command::args2("install", "--list")))
    } else {
        None
    }
}

/// The first path of the locator's captured output: the whole output
/// trimmed, then cut at its first line break, since the locator may report
/// several candidates.
pub open spec fn first_listed_path_spec(out: Seq<char>) -> Seq<char> {
    let t = trim_spec(out);
    let ls = split_lines_spec(t);
    if ls.len() > 0 {
        ls[0]
    } else {
        t
    }
}

/// [`first_listed_path_spec`] as an owned string.
pub fn first_listed_path(output: &str) -> (r: String)
    ensures
        r@ == first_listed_path_spec(output@),
{
    let t = trimmed(output);
    let lines = split_lines(t.as_str());
    if lines.len() > 0 {
        let line: &String = &lines[0];
        proof {
            assert(lines.deep_view()[0] == line@);
        }
        line.clone()
    } else {
        t
    }
}

/// The error recorded when a manager's listing command cannot be started;
/// `error` is the operating system's description of the failure. The
/// version flow swallows it, so it is never printed.
pub fn version_probe_failure_message(command: &str, error: &str) -> (r: String)
    ensures
        r@ == "Failed to get "@ + command@ + " version: "@ + error@,
{
    String::from_str("Failed to get ").concat(command).concat(" version: ").concat(error)
}

/// The error reported when the binary is not on the search path.
pub fn not_found_message(bin_name: &str) -> (r: String)
    ensures
        r@ == "Binary '"@ + bin_name@ + "' not found"@,
{
    String::from_str("Binary '").concat(bin_name).concat("' not found")
}

/// The line reported after an update: success naming both versions when
/// they differ, the up-to-date notice otherwise.
pub fn update_summary(package_name: &str, old_version: &str, new_version: &str) -> (r: String)
    ensures
        old_version@ != new_version@ ==> r@ == "✅ Successfully updated "@ + package_name@
            + " from "@ + old_version@ + " to "@ + new_version@,
        old_version@ == new_version@ ==> r@ == "ℹ️  "@ + package_name@
            + " is already up to date ("@ + old_version@ + ")"@,
{
    if !str_eq(old_version, new_version) {
        String::from_str("✅ Successfully updated ").concat(package_name).concat(
            " from ",
        ).concat(old_version).concat(" to ").concat(new_version)
    } else {
        String::from_str("ℹ️  ").concat(package_name).concat(" is already up to date (").concat(
            old_version,
        ).concat(")")
    }
}

} // verus!
