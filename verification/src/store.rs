use vstd::prelude::*;

use crate::tool::{spec_name, Tool};

verus! {

/// The directory that holds every downloaded version of one tool:
/// `<root>/<tool>-versions`.
pub open spec fn versions_dir_chars(root: Seq<char>, name: Seq<char>) -> Seq<char> {
    root + "/"@ + name + "-versions"@
}

/// The deterministic on-disk location of one tool at one version:
/// `<root>/<tool>-versions/<tool>-<version>`.
pub open spec fn versioned_path_chars(root: Seq<char>, name: Seq<char>, version: Seq<char>) -> Seq<
    char,
> {
    versions_dir_chars(root, name) + "/"@ + name + "-"@ + version
}

/// The stable launcher location of one tool: `<root>/<tool>`.
pub open spec fn launcher_path_chars(root: Seq<char>, name: Seq<char>) -> Seq<char> {
    root + "/"@ + name
}

/// The versioned binary path for `tool` at `version` under `root`. Pure: the
/// result is a function of the three arguments alone.
pub fn versioned_path(root: &str, tool: &Tool, version: &str) -> (r: String)
    ensures
        r@ == versioned_path_chars(root@, spec_name(*tool), version@),
{
    let name = tool.name();
    let mut out = String::from_str(root);
    out.append("/");
    out.append(name);
    out.append("-versions");
    out.append("/");
    out.append(name);
    out.append("-");
    out.append(version);
    out
}

/// The versions directory for `tool` under `root`.
pub fn versions_dir(root: &str, tool: &Tool) -> (r: String)
    ensures
        r@ == versions_dir_chars(root@, spec_name(*tool)),
{
    let name = tool.name();
    let mut out = String::from_str(root);
    out.append("/");
    out.append(name);
    out.append("-versions");
    out
}

/// The launcher path for `tool` under `root`.
pub fn launcher_path(root: &str, tool: &Tool) -> (r: String)
    ensures
        r@ == launcher_path_chars(root@, spec_name(*tool)),
{
    let name = tool.name();
    let mut out = String::from_str(root);
    out.append("/");
    out.append(name);
    out
}

/// The versioned path is injective in the version: under one root, two
/// differing versions of the same tool always get differing paths. (That
/// identical inputs give identical paths is the `ensures` of
/// `versioned_path`: the path is a function of root, tool and version.)
pub proof fn lemma_versioned_path_injective(
    root: Seq<char>,
    name: Seq<char>,
    v1: Seq<char>,
    v2: Seq<char>,
)
    requires
        v1 != v2,
    ensures
        versioned_path_chars(root, name, v1) != versioned_path_chars(root, name, v2),
{
    let p = versions_dir_chars(root, name) + "/"@ + name + "-"@;
    let a = versioned_path_chars(root, name, v1);
    let b = versioned_path_chars(root, name, v2);
    assert(a =~= p + v1);
    assert(b =~= p + v2);
    if a == b {
        assert(v1.len() == v2.len());
        assert(forall|i: int| 0 <= i < v1.len() ==> v1[i] == #[trigger] v2[i]) by {
            assert(forall|i: int|
                0 <= i < v1.len() ==> (p + v1)[p.len() + i] == #[trigger] v1[i]);
            assert(forall|i: int|
                0 <= i < v2.len() ==> (p + v2)[p.len() + i] == #[trigger] v2[i]);
        }
        assert(v1 =~= v2);
    }
}

/// The launcher path is never a versioned path: the launcher of one tool and
/// a versioned binary of any tool under the same root differ.
pub proof fn lemma_launcher_is_not_versioned(
    root: Seq<char>,
    name1: Seq<char>,
    name2: Seq<char>,
    version: Seq<char>,
)
    requires
        name1.len() == name2.len(),
    ensures
        launcher_path_chars(root, name1) != versioned_path_chars(root, name2, version),
{
    reveal_strlit("/");
    reveal_strlit("-");
    reveal_strlit("-versions");
    assert(launcher_path_chars(root, name1).len() == root.len() + 1 + name1.len());
    assert(versioned_path_chars(root, name2, version).len() == root.len() + 1 + name2.len() + 9 + 1
        + name2.len() + 1 + version.len());
}

} // verus!
