//! Classifying a binary's install path to the package manager that put it
//! there, and the detection result that the rest of the tool consumes.

use vstd::prelude::*;

use crate::text::{chars_of, contains_str, has_substring, matches_at, trim_spec, trimmed};

verus! {

/// A detection result: the manager identifier and the resolved package name.
pub struct PackageManager {
    pub name: String,
    pub package_name: String,
}

/// The six supported package managers.
#[derive(Clone, Copy, PartialEq, Eq, Structural, Debug)]
pub enum ManagerKind {
    Homebrew,
    Bun,
    Cargo,
    Pnpm,
    Npm,
    Yarn,
}

/// One character of path normalization: a backslash becomes a forward slash.
pub open spec fn norm_char(c: char) -> char {
    if c == '\\' {
        '/'
    } else {
        c
    }
}

/// Path normalization: every backslash replaced by a forward slash, so that
/// both separator conventions compare alike.
pub open spec fn normalize_spec(s: Seq<char>) -> Seq<char> {
    Seq::new(s.len(), |i: int| norm_char(s[i]))
}

/// ASCII lowercasing of one character.
pub open spec fn lower_char(c: char) -> char {
    if 65 <= c as u32 && c as u32 <= 90 {
        (((c as u32 + 32) as u8) as char)
    } else {
        c
    }
}

/// ASCII lowercasing of a sequence, for case-insensitive path markers.
pub open spec fn lower_seq(s: Seq<char>) -> Seq<char> {
    Seq::new(s.len(), |i: int| lower_char(s[i]))
}

/// Relies on `String::push`: appends the given character to the end of the
/// string.
#[verifier::external_body]
fn push_char(s: &mut String, c: char)
    ensures
        final(s)@ == old(s)@.push(c),
{
    s.push(c);
}

/// [`normalize_spec`] as an owned string.
pub fn normalize_path(path: &str) -> (r: String)
    ensures
        r@ == normalize_spec(path@),
{
    let v = chars_of(path);
    let n = v.len();
    let mut out = String::new();
    let mut i: usize = 0;
    while i < n
        invariant
            n == v@.len(),
            v@ == path@,
            i <= n,
            out@ == normalize_spec(path@).subrange(0, i as int),
        decreases n - i,
    {
        let c = v[i];
        let d = if c == '\\' {
            '/'
        } else {
            c
        };
        push_char(&mut out, d);
        proof {
            assert(out@ =~= normalize_spec(path@).subrange(0, i + 1));
        }
        i += 1;
    }
    proof {
        assert(normalize_spec(path@).subrange(0, n as int) =~= normalize_spec(path@));
    }
    out
}

/// [`lower_seq`] as an owned string.
pub fn ascii_lower(s: &str) -> (r: String)
    ensures
        r@ == lower_seq(s@),
{
    let v = chars_of(s);
    let n = v.len();
    let mut out = String::new();
    let mut i: usize = 0;
    while i < n
        invariant
            n == v@.len(),
            v@ == s@,
            i <= n,
            out@ == lower_seq(s@).subrange(0, i as int),
        decreases n - i,
    {
        let c = v[i];
        let u = c as u32;
        let d = if 65 <= u && u <= 90 {
            ((u + 32) as u8) as char
        } else {
            c
        };
        push_char(&mut out, d);
        proof {
            assert(out@ =~= lower_seq(s@).subrange(0, i + 1));
        }
        i += 1;
    }
    proof {
        assert(lower_seq(s@).subrange(0, n as int) =~= lower_seq(s@));
    }
    out
}

/// A probed global bin directory matches when it was reported, is not empty,
/// and occurs in the path.
pub open spec fn dir_matches(path: Seq<char>, dir: Option<Seq<char>>) -> bool {
    match dir {
        Some(d) => d.len() > 0 && has_substring(path, d),
        None => false,
    }
}

/// The trimmed, normalized view of a probed directory.
pub open spec fn dir_view(dir: Option<Seq<char>>) -> Option<Seq<char>> {
    match dir {
        Some(d) => Some(normalize_spec(trim_spec(d))),
        None => None,
    }
}

/// The ordered classification of a normalized binary path: Homebrew, Bun and
/// Cargo by fixed path markers, then pnpm, npm and yarn by their probed
/// global bin directories; first match wins.
pub open spec fn classify_spec(
    path: Seq<char>,
    windows: bool,
    pnpm_dir: Option<Seq<char>>,
    npm_dir: Option<Seq<char>>,
    yarn_dir: Option<Seq<char>>,
) -> Option<ManagerKind> {
    if !windows && (has_substring(path, "/opt/homebrew/"@) || has_substring(
        path,
        "/usr/local/"@,
    )) {
        Some(ManagerKind::Homebrew)
    } else if has_substring(path, "/.bun/"@) || (windows && has_substring(
        lower_seq(path),
        "/appdata/roaming/bun/"@,
    )) {
        Some(ManagerKind::Bun)
    } else if has_substring(path, "/.cargo/bin/"@) {
        Some(ManagerKind::Cargo)
    } else if dir_matches(path, pnpm_dir) {
        Some(ManagerKind::Pnpm)
    } else if dir_matches(path, npm_dir) {
        Some(ManagerKind::Npm)
    } else if dir_matches(path, yarn_dir) {
        Some(ManagerKind::Yarn)
    } else {
        None
    }
}

/// Classifies the raw path of a binary. The probed directories are the raw
/// captured outputs of `pnpm bin -g` and `yarn global bin`, and the
/// directory holding the `npm` binary, where each probe succeeded; they are
/// trimmed and normalized here, as the path itself is.
pub fn classify_path(
    bin_path: &str,
    windows: bool,
    pnpm_dir: &Option<String>,
    npm_dir: &Option<String>,
    yarn_dir: &Option<String>,
) -> (r: Option<ManagerKind>)
    ensures
        r == classify_spec(
            normalize_spec(bin_path@),
            windows,
            dir_view(match pnpm_dir {
                Some(d) => Some(d@),
                None => None,
            }),
            dir_view(match npm_dir {
                Some(d) => Some(d@),
                None => None,
            }),
            dir_view(match yarn_dir {
                Some(d) => Some(d@),
                None => None,
            }),
        ),
{
    let norm = normalize_path(bin_path);
    if !windows && (contains_str(norm.as_str(), "/opt/homebrew/") || contains_str(
        norm.as_str(),
        "/usr/local/",
    )) {
        return Some(ManagerKind::Homebrew);
    }
    let lowered = ascii_lower(norm.as_str());
    if contains_str(norm.as_str(), "/.bun/") || (windows && contains_str(
        lowered.as_str(),
        "/appdata/roaming/bun/",
    )) {
        return Some(ManagerKind::Bun);
    }
    if contains_str(norm.as_str(), "/.cargo/bin/") {
        return Some(ManagerKind::Cargo);
    }
    if probed_dir_matches(&norm, pnpm_dir) {
        return Some(ManagerKind::Pnpm);
    }
    if probed_dir_matches(&norm, npm_dir) {
        return Some(ManagerKind::Npm);
    }
    if probed_dir_matches(&norm, yarn_dir) {
        return Some(ManagerKind::Yarn);
    }
    None
}

/// [`dir_matches`] against the trimmed, normalized view of a probe.
fn probed_dir_matches(norm_path: &String, dir: &Option<String>) -> (r: bool)
    ensures
        r == dir_matches(
            norm_path@,
            dir_view(match dir {
                Some(d) => Some(d@),
                None => None,
            }),
        ),
{
    match dir {
        Some(d) => {
            let t = trimmed(d.as_str());
            let nd = normalize_path(t.as_str());
            nd.as_str().unicode_len() > 0 && contains_str(norm_path.as_str(), nd.as_str())
        },
        None => false,
    }
}

/// The identifier of a manager, as the update-command table and the version
/// reporter expect it.
pub open spec fn manager_label_spec(kind: ManagerKind) -> Seq<char> {
    match kind {
        ManagerKind::Homebrew => "homebrew"@,
        ManagerKind::Bun => "bun"@,
        ManagerKind::Cargo => "cargo"@,
        ManagerKind::Pnpm => "pnpm"@,
        ManagerKind::Npm => "npm"@,
        ManagerKind::Yarn => "yarn"@,
    }
}

/// [`manager_label_spec`] as an owned string.
pub fn manager_label(kind: ManagerKind) -> (r: String)
    ensures
        r@ == manager_label_spec(kind),
{
    match kind {
        ManagerKind::Homebrew => String::from_str("homebrew"),
        ManagerKind::Bun => String::from_str("bun"),
        ManagerKind::Cargo => String::from_str("cargo"),
        ManagerKind::Pnpm => String::from_str("pnpm"),
        ManagerKind::Npm => String::from_str("npm"),
        ManagerKind::Yarn => String::from_str("yarn"),
    }
}

/// The detection result for a binary installed by Cargo: the package name is
/// the binary name itself.
pub fn cargo_detection(bin_name: &str) -> (r: PackageManager)
    ensures
        r.name@ == "cargo"@,
        r.package_name@ == bin_name@,
{
    PackageManager { name: String::from_str("cargo"), package_name: String::from_str(bin_name) }
}

/// The error reported when no manager matched the binary's path.
pub fn undetected_message(bin_name: &str) -> (r: String)
    ensures
        r@ == "Could not detect package manager for '"@ + bin_name@ + "'"@,
{
    String::from_str("Could not detect package manager for '").concat(bin_name).concat("'")
}

/// Path normalization is idempotent: normalizing an already-normalized path
/// returns the same path.
pub proof fn lemma_normalize_idempotent(s: Seq<char>)
    ensures
        normalize_spec(normalize_spec(s)) == normalize_spec(s),
{
    assert(normalize_spec(normalize_spec(s)) =~= normalize_spec(s));
}

/// Normalization carries an occurrence of `sub` in `s` to an occurrence of
/// the normalized `sub`: a marker written with backslashes is found in the
/// normalized path as its forward-slash form.
pub proof fn lemma_normalize_preserves_substring(s: Seq<char>, sub: Seq<char>)
    requires
        has_substring(s, sub),
    ensures
        has_substring(normalize_spec(s), normalize_spec(sub)),
{
    let i = choose|i: int| matches_at(s, sub, i);
    assert(normalize_spec(s).subrange(i, i + sub.len() as int) =~= normalize_spec(sub));
    assert(matches_at(normalize_spec(s), normalize_spec(sub), i));
}

/// The backslash-written Cargo marker survives normalization as the
/// forward-slash one: a path carrying `\.cargo\bin\` carries
/// `/.cargo/bin/` once normalized, so both separator conventions reach
/// [`lemma_cargo_path_classification`].
pub proof fn lemma_cargo_marker_both_conventions(path: Seq<char>)
    requires
        has_substring(path, "\\.cargo\\bin\\"@),
    ensures
        has_substring(normalize_spec(path), "/.cargo/bin/"@),
{
    reveal_strlit("\\.cargo\\bin\\");
    reveal_strlit("/.cargo/bin/");
    lemma_normalize_preserves_substring(path, "\\.cargo\\bin\\"@);
    assert(normalize_spec("\\.cargo\\bin\\"@) =~= "/.cargo/bin/"@);
}

/// A binary path carrying the Cargo bin marker classifies as Cargo, under
/// either path-separator convention (the marker check runs on the normalized
/// path), provided no Homebrew or Bun marker precedes it in the match order.
/// The Cargo detection result then carries the binary name unchanged as the
/// package name, as [`cargo_detection`] states.
pub proof fn lemma_cargo_path_classification(
    path: Seq<char>,
    windows: bool,
    pnpm_dir: Option<Seq<char>>,
    npm_dir: Option<Seq<char>>,
    yarn_dir: Option<Seq<char>>,
)
    requires
        has_substring(normalize_spec(path), "/.cargo/bin/"@),
        !windows ==> !has_substring(normalize_spec(path), "/opt/homebrew/"@),
        !windows ==> !has_substring(normalize_spec(path), "/usr/local/"@),
        !has_substring(normalize_spec(path), "/.bun/"@),
        windows ==> !has_substring(lower_seq(normalize_spec(path)), "/appdata/roaming/bun/"@),
    ensures
        classify_spec(normalize_spec(path), windows, pnpm_dir, npm_dir, yarn_dir) == Some(
            ManagerKind::Cargo,
        ),
{
}

} // verus!
