//! Path resolver: derives the embedded runtime's executable and entry-script
//! locations from the installation directory (the directory holding the
//! running shell executable).
//!
//! The two relative subpaths are a build-time contract with the packaging
//! step.  Resolution is pure: it joins those fixed subpaths onto the
//! installation directory and never produces a path that escapes it.

use vstd::prelude::*;

verus! {

/// The resolved locations of the embedded runtime: the interpreter
/// executable and the entry-point script it is started with.
#[derive(Debug, PartialEq, Eq)]
pub struct EmbeddedRuntimeReference {
    /// Path of the runtime interpreter executable.
    pub runtime_exe: String,
    /// Path of the embedded application's entry script, passed to the
    /// interpreter as its sole argument.
    pub entry_script: String,
}

/// Relative location of the runtime interpreter under the installation
/// directory.
pub open spec fn runtime_exe_rel() -> Seq<char> {
    "bin/node/node.exe"@
}

/// Relative location of the entry script under the installation directory.
pub open spec fn entry_script_rel() -> Seq<char> {
    "bin/next/server.js"@
}

/// The text of `base` extended with the separator and the relative path
/// `rel`: what joining `rel` onto the directory `base` yields.
pub open spec fn join_under(base: Seq<char>, rel: Seq<char>) -> Seq<char> {
    base + "/"@ + rel
}

/// Whether the path text `p` holds a `..` component at position `i` or
/// later: a scan that looks, at each position, for two dots delimited by
/// separators (or the ends of the text).
pub open spec fn parent_ref_from(p: Seq<char>, i: int) -> bool
    decreases p.len() - i,
{
    if i < 0 || i + 2 > p.len() {
        false
    } else {
        ((i == 0 || p[i - 1] == '/') && p[i] == '.' && p[i + 1] == '.' && (i + 2 == p.len()
            || p[i + 2] == '/')) || parent_ref_from(p, i + 1)
    }
}

/// Whether the path text `p` holds a `..` component anywhere.
pub open spec fn has_parent_ref(p: Seq<char>) -> bool {
    parent_ref_from(p, 0)
}

/// Whether the path text `p` stays within the directory `base`: it extends
/// `base` at a separator boundary, and the part below `base` holds no `..`
/// component, so it can only name something under `base`.
pub open spec fn stays_within(p: Seq<char>, base: Seq<char>) -> bool {
    &&& p.len() > base.len()
    &&& p.subrange(0, base.len() as int) == base
    &&& p[base.len() as int] == '/'
    &&& !has_parent_ref(p.subrange(base.len() as int + 1, p.len() as int))
}

/// A path text without two adjacent dots cannot hold a `..` component.
proof fn lemma_no_double_dot_no_parent_ref(p: Seq<char>, i: int)
    requires
        forall|k: int| 0 <= k && k + 1 < p.len() ==> !((#[trigger] p[k]) == '.' && p[k + 1] == '.'),
    ensures
        !parent_ref_from(p, i),
    decreases p.len() - i,
{
    if i < 0 || i + 2 > p.len() {
    } else {
        assert(!(p[i] == '.' && p[i + 1] == '.'));
        lemma_no_double_dot_no_parent_ref(p, i + 1);
    }
}

/// Law: joining either fixed relative subpath onto an installation
/// directory yields a path that stays within that directory — it has the
/// directory as a prefix up to a separator, and the part below it holds no
/// `..` component, so resolution never escapes the installation directory.
pub proof fn lemma_resolution_stays_within(install_dir: Seq<char>)
    ensures
        stays_within(join_under(install_dir, runtime_exe_rel()), install_dir),
        stays_within(join_under(install_dir, entry_script_rel()), install_dir),
{
    reveal_strlit("/");
    reveal_strlit("bin/node/node.exe");
    reveal_strlit("bin/next/server.js");
    let p1 = join_under(install_dir, runtime_exe_rel());
    let p2 = join_under(install_dir, entry_script_rel());
    assert(p1.subrange(0, install_dir.len() as int) =~= install_dir);
    assert(p2.subrange(0, install_dir.len() as int) =~= install_dir);
    assert(p1.subrange(install_dir.len() as int + 1, p1.len() as int) =~= runtime_exe_rel());
    assert(p2.subrange(install_dir.len() as int + 1, p2.len() as int) =~= entry_script_rel());
    assert forall|k: int|
        0 <= k && k + 1 < runtime_exe_rel().len() implies !((#[trigger] runtime_exe_rel()[k])
        == '.' && runtime_exe_rel()[k + 1] == '.') by {
        reveal_strlit("bin/node/node.exe");
    }
    assert forall|k: int|
        0 <= k && k + 1 < entry_script_rel().len() implies !((#[trigger] entry_script_rel()[k])
        == '.' && entry_script_rel()[k + 1] == '.') by {
        reveal_strlit("bin/next/server.js");
    }
    lemma_no_double_dot_no_parent_ref(runtime_exe_rel(), 0);
    lemma_no_double_dot_no_parent_ref(entry_script_rel(), 0);
}

/// Derives the embedded runtime's two locations from the installation
/// directory by joining the fixed relative subpaths onto it.
pub fn resolve_runtime_paths(install_dir: &str) -> (r: EmbeddedRuntimeReference)
    ensures
        r.runtime_exe@ == join_under(install_dir@, runtime_exe_rel()),
        r.entry_script@ == join_under(install_dir@, entry_script_rel()),
{
    let mut exe = String::from_str(install_dir);
    exe.append("/");
    exe.append("bin/node/node.exe");
    let mut script = String::from_str(install_dir);
    script.append("/");
    script.append("bin/next/server.js");
    EmbeddedRuntimeReference { runtime_exe: exe, entry_script: script }
}

} // verus!
