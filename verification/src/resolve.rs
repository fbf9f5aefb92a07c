//! Resolving a binary name to the package that provides it: through the
//! `bin` declarations of the node-style managers' manifests, and through
//! Homebrew's formula listing.

use vstd::prelude::*;

use crate::lines::{split_lines, split_lines_spec};
use crate::manifest::bin_names_in;
use crate::manifest::manifest_bin_names;
use crate::text::{contains_str, has_substring, str_eq, trim_spec, trimmed};

verus! {

/// Whether one of the names equals `target`.
fn contains_string(names: &Vec<String>, target: &str) -> (r: bool)
    ensures
        r == names.deep_view().contains(target@),
{
    let n = names.len();
    let mut i: usize = 0;
    while i < n
        invariant
            i <= n,
            n == names@.len(),
            forall|j: int| 0 <= j < i ==> names.deep_view()[j] != target@,
        decreases n - i,
    {
        let name: &String = &names[i];
        if str_eq(name.as_str(), target) {
            proof {
                assert(names.deep_view()[i as int] == target@);
            }
            return true;
        }
        proof {
            assert(names.deep_view()[i as int] == name@);
        }
        i += 1;
    }
    false
}

/// The package owning `bin` among `entries`, each a package name with its
/// manifest text in listing order: the first whose manifest declares `bin`,
/// or `bin` itself when none does.
pub open spec fn resolve_spec(bin: Seq<char>, entries: Seq<(Seq<char>, Seq<char>)>) -> Seq<char>
    decreases entries.len(),
{
    if entries.len() == 0 {
        bin
    } else if bin_names_in(entries[0].1).contains(bin) {
        entries[0].0
    } else {
        resolve_spec(bin, entries.drop_first())
    }
}

/// [`resolve_spec`] as an owned string. Every node-style manager resolves
/// this way; only how the (package name, manifest text) entries were
/// gathered differs.
pub fn resolve_package_name(bin_name: &str, entries: &Vec<(String, String)>) -> (r: String)
    ensures
        r@ == resolve_spec(bin_name@, entries.deep_view()),
{
    let ghost full = entries.deep_view();
    let n = entries.len();
    let mut i: usize = 0;
    proof {
        assert(full.subrange(0, n as int) =~= full);
    }
    while i < n
        invariant
            i <= n,
            n == full.len(),
            full == entries.deep_view(),
            resolve_spec(bin_name@, full) == resolve_spec(
                bin_name@,
                full.subrange(i as int, n as int),
            ),
        decreases n - i,
    {
        let entry: &(String, String) = &entries[i];
        let ghost suffix = full.subrange(i as int, n as int);
        proof {
            assert(suffix[0] == full[i as int]);
            assert(full[i as int] == (entry.0@, entry.1@));
        }
        let names = manifest_bin_names(entry.1.as_str());
        if contains_string(&names, bin_name) {
            proof {
                assert(resolve_spec(bin_name@, suffix) == entry.0@);
            }
            return entry.0.clone();
        }
        proof {
            assert(suffix.drop_first() =~= full.subrange(i + 1, n as int));
        }
        i += 1;
    }
    proof {
        assert(full.subrange(i as int, n as int).len() == 0);
    }
    String::from_str(bin_name)
}

/// The lines of a captured listing, the whole and each line trimmed.
pub open spec fn trimmed_lines(s: Seq<char>) -> Seq<Seq<char>> {
    split_lines_spec(trim_spec(s)).map_values(|l: Seq<char>| trim_spec(l))
}

/// The first candidate formula that is installed: each candidate line
/// trimmed, empty ones skipped, and `bin` itself when none is installed.
pub open spec fn first_installed_candidate(
    cands: Seq<Seq<char>>,
    installed: Seq<Seq<char>>,
    bin: Seq<char>,
) -> Seq<char>
    decreases cands.len(),
{
    if cands.len() == 0 {
        bin
    } else {
        let c = trim_spec(cands[0]);
        if c.len() > 0 && installed.contains(c) {
            c
        } else {
            first_installed_candidate(cands.drop_first(), installed, bin)
        }
    }
}

/// [`first_installed_candidate`] as an owned string.
fn first_installed(cands: &Vec<String>, inst: &Vec<String>, bin_name: &str) -> (r: String)
    ensures
        r@ == first_installed_candidate(cands.deep_view(), inst.deep_view(), bin_name@),
{
    let ghost full = cands.deep_view();
    let n = cands.len();
    let mut i: usize = 0;
    proof {
        assert(full.subrange(0, n as int) =~= full);
    }
    while i < n
        invariant
            i <= n,
            n == full.len(),
            full == cands.deep_view(),
            first_installed_candidate(full, inst.deep_view(), bin_name@)
                == first_installed_candidate(
                full.subrange(i as int, n as int),
                inst.deep_view(),
                bin_name@,
            ),
        decreases n - i,
    {
        let cand: &String = &cands[i];
        let ghost suffix = full.subrange(i as int, n as int);
        proof {
            assert(suffix[0] == full[i as int]);
            assert(full[i as int] == cand@);
        }
        let c = trimmed(cand.as_str());
        if c.as_str().unicode_len() > 0 && contains_string(inst, c.as_str()) {
            proof {
                assert(first_installed_candidate(suffix, inst.deep_view(), bin_name@) == c@);
            }
            return c;
        }
        proof {
            assert(suffix.drop_first() =~= full.subrange(i + 1, n as int));
        }
        i += 1;
    }
    proof {
        assert(full.subrange(i as int, n as int).len() == 0);
    }
    String::from_str(bin_name)
}

/// The Homebrew package name for `bin`: among the formulas that Homebrew
/// names as providing the binary, the first installed one; `bin` itself
/// when either listing is missing, the candidate output is empty or
/// reports an error, or no candidate is installed.
pub open spec fn homebrew_resolve_spec(
    bin: Seq<char>,
    installed: Option<Seq<char>>,
    candidates: Option<Seq<char>>,
) -> Seq<char> {
    match (installed, candidates) {
        (Some(il), Some(cl)) => {
            let clt = trim_spec(cl);
            if clt.len() > 0 && !has_substring(clt, "Error"@) {
                first_installed_candidate(split_lines_spec(clt), trimmed_lines(il), bin)
            } else {
                bin
            }
        },
        _ => bin,
    }
}

/// [`homebrew_resolve_spec`] as an owned string. `installed` is the
/// captured output of Homebrew's formula listing and `candidates` that of
/// its lookup of which formulas provide the binary, where each command ran.
pub fn map_bin_name_to_homebrew_package_name(
    bin_name: &str,
    installed: &Option<String>,
    candidates: &Option<String>,
) -> (r: String)
    ensures
        r@ == homebrew_resolve_spec(
            bin_name@,
            match installed {
                Some(il) => Some(il@),
                None => None,
            },
            match candidates {
                Some(cl) => Some(cl@),
                None => None,
            },
        ),
{
    match (installed, candidates) {
        (Some(il), Some(cl)) => {
            let clt = trimmed(cl.as_str());
            if clt.as_str().unicode_len() > 0 && !contains_str(clt.as_str(), "Error") {
                let cands = split_lines(clt.as_str());
                let ilt = trimmed(il.as_str());
                let raw_inst = split_lines(ilt.as_str());
                let m = raw_inst.len();
                let mut inst: Vec<String> = Vec::new();
                let ghost inst_target = trimmed_lines(il@);
                let mut j: usize = 0;
                proof {
                    assert(inst.deep_view() =~= inst_target.subrange(0, 0));
                }
                while j < m
                    invariant
                        j <= m,
                        m == raw_inst@.len(),
                        raw_inst.deep_view() == split_lines_spec(trim_spec(il@)),
                        inst_target == trimmed_lines(il@),
                        inst_target.len() == m,
                        inst@.len() == j,
                        inst.deep_view() == inst_target.subrange(0, j as int),
                    decreases m - j,
                {
                    let line: &String = &raw_inst[j];
                    proof {
                        assert(raw_inst.deep_view()[j as int] == line@);
                    }
                    let ghost prev = inst.deep_view();
                    inst.push(trimmed(line.as_str()));
                    proof {
                        let nd = inst.deep_view();
                        assert(nd[j as int] == inst@[j as int].deep_view());
                        assert(nd[j as int] == inst_target[j as int]);
                        assert forall|k: int| 0 <= k < j implies nd[k] == inst_target[k] by {
                            assert(nd[k] == inst@[k].deep_view());
                            assert(nd[k] == prev[k]);
                            assert(prev[k] == inst_target.subrange(0, j as int)[k]);
                        }
                        assert(nd =~= inst_target.subrange(0, j + 1));
                    }
                    j += 1;
                }
                proof {
                    assert(inst_target.subrange(0, m as int) =~= inst_target);
                }
                first_installed(&cands, &inst, bin_name)
            } else {
                String::from_str(bin_name)
            }
        },
        _ => String::from_str(bin_name),
    }
}

} // verus!
