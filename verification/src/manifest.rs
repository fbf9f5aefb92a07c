//! Reading package manifests and global listings: the JSON fields the tool
//! consumes, parsed by serde_json behind trusted wrappers, and the manifest
//! paths built from them. Callers read the files; only captured text comes
//! in here.

use vstd::prelude::*;

verus! {

/// The binary names that a package manifest text declares under its `bin`
/// field: the field's one string, or the keys of its map.
pub uninterp spec fn bin_names_in(text: Seq<char>) -> Seq<Seq<char>>;

/// Relies on `serde_json::from_str`: parses the manifest text (malformed or
/// empty text parses as null) and hands out the `bin` field's names, one
/// arm per shape of the field.
#[verifier::external_body]
pub(crate) fn manifest_bin_names(text: &str) -> (r: Vec<String>)
    ensures
        r.deep_view() == bin_names_in(text@),
{
    let v: serde_json::Value = serde_json::from_str(text).unwrap_or_default();
    match v.get("bin") {
        Some(serde_json::Value::String(s)) => vec![s.clone()],
        Some(serde_json::Value::Object(m)) => m.keys().cloned().collect(),
        _ => Vec::new(),
    }
}

/// The package names that a manifest or global-listing text declares under
/// its `dependencies` field.
pub uninterp spec fn dependency_names_in(text: Seq<char>) -> Seq<Seq<char>>;

/// Relies on `serde_json::from_str`: parses the text (malformed or empty
/// text parses as null) and hands out the keys of its `dependencies` map.
#[verifier::external_body]
pub(crate) fn dependency_names(text: &str) -> (r: Vec<String>)
    ensures
        r.deep_view() == dependency_names_in(text@),
{
    let v: serde_json::Value = serde_json::from_str(text).unwrap_or_default();
    match v.get("dependencies") {
        Some(serde_json::Value::Object(m)) => m.keys().cloned().collect(),
        _ => Vec::new(),
    }
}

/// The (package name, package path) pairs that pnpm's global JSON listing
/// reports: for each element of the top-level array, the keys of its
/// `dependencies` map paired with each entry's string `path` field.
pub uninterp spec fn pnpm_entries_in(text: Seq<char>) -> Seq<(Seq<char>, Seq<char>)>;

/// Relies on `serde_json::from_str`: parses the listing (malformed or empty
/// text parses as null) and hands out each dependency's name and `path`
/// field, skipping entries without a string path, as the tool does.
#[verifier::external_body]
pub(crate) fn pnpm_entries(text: &str) -> (r: Vec<(String, String)>)
    ensures
        r.deep_view() == pnpm_entries_in(text@),
{
    let v: serde_json::Value = serde_json::from_str(text).unwrap_or_default();
    match v {
        serde_json::Value::Array(items) => items
            .iter()
            .filter_map(|o| o.get("dependencies"))
            .filter_map(|d| d.as_object())
            .flat_map(|deps| deps.iter())
            .filter_map(|(name, info)| {
                info.get("path").and_then(|p| p.as_str()).map(|p| (name.clone(), p.to_string()))
            })
            .collect(),
        _ => Vec::new(),
    }
}

/// The path separator of the platform convention in use.
pub open spec fn sep_seq(windows: bool) -> Seq<char> {
    if windows {
        "\\"@
    } else {
        "/"@
    }
}

/// Where a package named `name` keeps its manifest under the directory
/// `dir`.
pub open spec fn package_manifest_path(dir: Seq<char>, name: Seq<char>, windows: bool) -> Seq<
    char,
> {
    dir + sep_seq(windows) + name + sep_seq(windows) + "package.json"@
}

/// Where the manifest directly inside the directory `dir` lies.
pub open spec fn manifest_path_spec(dir: Seq<char>, windows: bool) -> Seq<char> {
    dir + sep_seq(windows) + "package.json"@
}

/// [`manifest_path_spec`] as an owned string.
pub fn manifest_path_in(dir: &str, windows: bool) -> (r: String)
    ensures
        r@ == manifest_path_spec(dir@, windows),
{
    let sep: &str = if windows {
        "\\"
    } else {
        "/"
    };
    String::from_str(dir).concat(sep).concat("package.json")
}

/// Pairs each package name with its manifest path under `dir`.
fn paths_for_packages(names: Vec<String>, dir: &str, windows: bool) -> (r: Vec<(String, String)>)
    ensures
        r.deep_view() == names.deep_view().map_values(
            |n: Seq<char>| (n, package_manifest_path(dir@, n, windows)),
        ),
{
    let ghost target = names.deep_view().map_values(
        |n: Seq<char>| (n, package_manifest_path(dir@, n, windows)),
    );
    let sep: &str = if windows {
        "\\"
    } else {
        "/"
    };
    let n = names.len();
    let mut out: Vec<(String, String)> = Vec::new();
    let mut i: usize = 0;
    proof {
        assert(out.deep_view() =~~= target.subrange(0, 0));
    }
    while i < n
        invariant
            i <= n,
            n == names@.len(),
            target == names.deep_view().map_values(
                |nm: Seq<char>| (nm, package_manifest_path(dir@, nm, windows)),
            ),
            target.len() == n,
            sep@ == sep_seq(windows),
            out@.len() == i,
            out.deep_view() == target.subrange(0, i as int),
        decreases n - i,
    {
        let name: &String = &names[i];
        let path = String::from_str(dir).concat(sep).concat(name.as_str()).concat(sep).concat(
            "package.json",
        );
        proof {
            assert(names.deep_view()[i as int] == name@);
            assert(path@ == package_manifest_path(dir@, name@, windows));
        }
        let ghost prev = out.deep_view();
        out.push((name.clone(), path));
        proof {
            let nd = out.deep_view();
            assert(out@.len() == i + 1);
            assert(nd[i as int] == out@[i as int].deep_view());
            assert(out@[i as int].deep_view() == (name@, package_manifest_path(
                dir@,
                name@,
                windows,
            )));
            assert(nd[i as int] == target[i as int]);
            assert forall|j: int| 0 <= j < i implies nd[j] == target[j] by {
                assert(nd[j] == out@[j].deep_view());
                assert(nd[j] == prev[j]);
                assert(prev[j] == target.subrange(0, i as int)[j]);
            }
            assert(nd =~= target.subrange(0, i + 1));
        }
        i += 1;
    }
    proof {
        assert(target.subrange(0, n as int) =~= target);
    }
    out
}

/// The manifest paths to read for npm's global packages: each dependency
/// name of the global listing, under the global `node_modules` directory.
pub fn npm_manifest_paths(listing: &str, modules_dir: &str, windows: bool) -> (r: Vec<
    (String, String),
>)
    ensures
        r.deep_view() == dependency_names_in(listing@).map_values(
            |n: Seq<char>| (n, package_manifest_path(modules_dir@, n, windows)),
        ),
{
    let names = dependency_names(listing);
    paths_for_packages(names, modules_dir, windows)
}

/// The manifest paths to read for the packages a global manifest declares
/// (yarn's and Bun's layout): each dependency name of that manifest, under
/// the `node_modules` directory beside it.
pub fn node_modules_manifest_paths(global_manifest: &str, global_dir: &str, windows: bool) -> (r:
    Vec<(String, String)>)
    ensures
        r.deep_view() == dependency_names_in(global_manifest@).map_values(
            |n: Seq<char>| (
                n,
                package_manifest_path(
                    global_dir@ + sep_seq(windows) + "node_modules"@,
                    n,
                    windows,
                ),
            ),
        ),
{
    let sep: &str = if windows {
        "\\"
    } else {
        "/"
    };
    let modules_dir = String::from_str(global_dir).concat(sep).concat("node_modules");
    let names = dependency_names(global_manifest);
    paths_for_packages(names, modules_dir.as_str(), windows)
}

/// The manifest paths to read for pnpm's global packages: each (name, path)
/// pair of the global listing, with the manifest directly under the
/// reported path.
pub fn pnpm_manifest_paths(listing: &str, windows: bool) -> (r: Vec<(String, String)>)
    ensures
        r.deep_view() == pnpm_entries_in(listing@).map_values(
            |e: (Seq<char>, Seq<char>)| (e.0, manifest_path_spec(e.1, windows)),
        ),
{
    let entries = pnpm_entries(listing);
    let ghost target = pnpm_entries_in(listing@).map_values(
        |e: (Seq<char>, Seq<char>)| (e.0, manifest_path_spec(e.1, windows)),
    );
    let n = entries.len();
    let mut out: Vec<(String, String)> = Vec::new();
    let mut i: usize = 0;
    proof {
        assert(entries.deep_view().len() == n);
        assert(out.deep_view() =~~= target.subrange(0, 0));
    }
    while i < n
        invariant
            i <= n,
            n == entries@.len(),
            entries.deep_view() == pnpm_entries_in(listing@),
            target == pnpm_entries_in(listing@).map_values(
                |e: (Seq<char>, Seq<char>)| (e.0, manifest_path_spec(e.1, windows)),
            ),
            target.len() == n,
            out@.len() == i,
            out.deep_view() == target.subrange(0, i as int),
        decreases n - i,
    {
        let entry: &(String, String) = &entries[i];
        let path = manifest_path_in(entry.1.as_str(), windows);
        proof {
            assert(entries.deep_view()[i as int] == (entry.0@, entry.1@));
        }
        let ghost prev = out.deep_view();
        out.push((entry.0.clone(), path));
        proof {
            let nd = out.deep_view();
            assert(out@.len() == i + 1);
            assert(nd[i as int] == out@[i as int].deep_view());
            assert(out@[i as int].deep_view() == (entry.0@, manifest_path_spec(
                entry.1@,
                windows,
            )));
            assert(nd[i as int] == target[i as int]);
            assert forall|j: int| 0 <= j < i implies nd[j] == target[j] by {
                assert(nd[j] == out@[j].deep_view());
                assert(nd[j] == prev[j]);
                assert(prev[j] == target.subrange(0, i as int)[j]);
            }
            assert(nd =~= target.subrange(0, i + 1));
        }
        i += 1;
    }
    proof {
        assert(target.subrange(0, n as int) =~= target);
    }
    out
}

/// Bun's global package directory: under the roaming application data on
/// Windows, under the home directory otherwise, with a tilde placeholder
/// when the base directory is unknown.
pub open spec fn bun_global_dir_spec(base: Option<Seq<char>>, windows: bool) -> Seq<char> {
    if windows {
        match base {
            Some(a) => a + "\\bun"@,
            None => "~\\AppData\\Roaming\\bun"@,
        }
    } else {
        match base {
            Some(h) => h + "/.bun/install/global"@,
            None => "~/.bun/install/global"@,
        }
    }
}

/// [`bun_global_dir_spec`] as an owned string. `base` is the roaming
/// application-data directory on Windows and the home directory otherwise,
/// where the environment reports one.
pub fn bun_global_dir(base: &Option<String>, windows: bool) -> (r: String)
    ensures
        r@ == bun_global_dir_spec(
            match base {
                Some(b) => Some(b@),
                None => None,
            },
            windows,
        ),
{
    if windows {
        match base {
            Some(a) => String::from_str(a.as_str()).concat("\\bun"),
            None => String::from_str("~\\AppData\\Roaming\\bun"),
        }
    } else {
        match base {
            Some(h) => String::from_str(h.as_str()).concat("/.bun/install/global"),
            None => String::from_str("~/.bun/install/global"),
        }
    }
}

} // verus!
