use vstd::prelude::*;

use crate::tool::Tool;

verus! {

/// The release repository consulted for a tool's latest version.
pub open spec fn repo_of(t: Tool) -> Seq<char> {
    match t {
        Tool::Terraform => "hashicorp/terraform"@,
        Tool::Kops => "kubernetes/kops"@,
        Tool::Kubectl => "kubernetes/kubernetes"@,
    }
}

/// The release-listing address asked for a tool's latest version. The call
/// itself, and reading the answer, are the caller's concern.
pub fn latest_release_url(tool: &Tool) -> (r: String)
    ensures
        r@ == "https://api.github.com/repos/"@ + repo_of(*tool) + "/releases/latest"@,
{
    let repo: &str = match tool {
        Tool::Terraform => "hashicorp/terraform",
        Tool::Kops => "kubernetes/kops",
        Tool::Kubectl => "kubernetes/kubernetes",
    };
    let mut out = String::from_str("https://api.github.com/repos/");
    out.append(repo);
    out.append("/releases/latest");
    out
}

/// A release tag with every leading `v` removed.
pub open spec fn strip_leading_v(s: Seq<char>) -> Seq<char>
    decreases s.len(),
{
    if s.len() > 0 && s[0] == 'v' {
        strip_leading_v(s.skip(1))
    } else {
        s
    }
}

/// The version string a release tag names: the tag with every leading `v`
/// removed, as tags are commonly written `v1.2.3`.
pub fn version_from_tag(tag: &str) -> (r: String)
    ensures
        r@ == strip_leading_v(tag@),
{
    let n: usize = tag.unicode_len();
    let mut k: usize = 0;
    proof {
        assert(tag@.skip(0) =~= tag@);
    }
    while k < n && tag.get_char(k) == 'v'
        invariant
            k <= n,
            n == tag@.len(),
            strip_leading_v(tag@) == strip_leading_v(tag@.skip(k as int)),
        decreases n - k,
    {
        proof {
            assert(tag@.skip(k as int)[0] == tag@[k as int]);
            assert(tag@.skip(k as int).skip(1) =~= tag@.skip(k + 1));
        }
        k = k + 1;
    }
    proof {
        if k < n {
            assert(tag@.skip(k as int)[0] == tag@[k as int]);
        } else {
            assert(tag@.skip(k as int).len() == 0);
        }
        assert(strip_leading_v(tag@.skip(k as int)) == tag@.skip(k as int));
    }
    let rest = tag.substring_char(k, n);
    proof {
        assert(rest@ =~= tag@.skip(k as int));
    }
    String::from_str(rest)
}

} // verus!
