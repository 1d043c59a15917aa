use vstd::prelude::*;

use crate::error::Error;
use crate::strutil::str_eq;
use crate::version::{is_valid_version, parse_version, spec_version_of, triple_exceeds, Version};

verus! {

/// A tool the catalog knows how to install.
#[derive(Clone, Copy, Debug, PartialEq, Eq, Structural)]
pub enum Tool {
    Kops,
    Kubectl,
    Terraform,
}

pub open spec fn spec_name(t: Tool) -> Seq<char> {
    match t {
        Tool::Kops => "kops"@,
        Tool::Kubectl => "kubectl"@,
        Tool::Terraform => "terraform"@,
    }
}

impl Tool {
    pub fn name(&self) -> (r: &'static str)
        ensures
            r@ == spec_name(*self),
    {
        match self {
            Tool::Kops => "kops",
            Tool::Kubectl => "kubectl",
            Tool::Terraform => "terraform",
        }
    }

    /// Parses a tool identifier; exactly the catalog's identifiers are
    /// accepted.
    pub fn from_str(s: &str) -> (r: Result<Tool, Error>)
        ensures
            match r {
                Result::Ok(t) => s@ == spec_name(t),
                Result::Err(e) => e == Error::UnknownTool && (forall|t: Tool| s@ != spec_name(t)),
            },
    {
        if str_eq(s, "kops") {
            Result::Ok(Tool::Kops)
        } else if str_eq(s, "kubectl") {
            Result::Ok(Tool::Kubectl)
        } else if str_eq(s, "terraform") {
            Result::Ok(Tool::Terraform)
        } else {
            Result::Err(Error::UnknownTool)
        }
    }
}

/// How the downloaded artifact is packaged.
#[derive(Clone, Copy, Debug, PartialEq, Eq, Structural)]
pub enum BodyKind {
    Raw,
    Zip,
}

/// Whether and when a `v` is put before the version in the download URL.
/// `PrefixedAbove(a, b, c)` prefixes only versions strictly above the
/// release `a.b.c`.
#[derive(Clone, Copy, Debug, PartialEq, Eq, Structural)]
pub enum PrefixRule {
    Bare,
    Prefixed,
    PrefixedAbove(u64, u64, u64),
}

/// One piece of a URL template: literal text, or a slot filled with the
/// (possibly prefixed) version, the operating system, or the architecture.
pub enum UrlPiece {
    Lit(String),
    VersionSlot,
    OsSlot,
    ArchSlot,
}

/// The spec-level shape of a template piece.
pub enum TemplatePiece {
    Lit(Seq<char>),
    VersionSlot,
    OsSlot,
    ArchSlot,
}

/// One catalog record: a tool, its URL template, how its artifact is
/// packaged, and its version-prefix quirk.
pub struct ToolSpec {
    pub tool: Tool,
    pub template: Vec<UrlPiece>,
    pub body: BodyKind,
    pub prefix: PrefixRule,
}

pub open spec fn body_of(t: Tool) -> BodyKind {
    match t {
        Tool::Terraform => BodyKind::Zip,
        Tool::Kops => BodyKind::Raw,
        Tool::Kubectl => BodyKind::Raw,
    }
}

pub open spec fn rule_of(t: Tool) -> PrefixRule {
    match t {
        Tool::Terraform => PrefixRule::Bare,
        Tool::Kops => PrefixRule::PrefixedAbove(1, 15, 0),
        Tool::Kubectl => PrefixRule::Prefixed,
    }
}

pub open spec fn spec_template(t: Tool) -> Seq<TemplatePiece> {
    match t {
        Tool::Terraform => seq![
            TemplatePiece::Lit("https://releases.hashicorp.com/terraform/"@),
            TemplatePiece::VersionSlot,
            TemplatePiece::Lit("/terraform_"@),
            TemplatePiece::VersionSlot,
            TemplatePiece::Lit("_"@),
            TemplatePiece::OsSlot,
            TemplatePiece::Lit("_"@),
            TemplatePiece::ArchSlot,
            TemplatePiece::Lit(".zip"@),
        ],
        Tool::Kops => seq![
            TemplatePiece::Lit("https://github.com/kubernetes/kops/releases/download/"@),
            TemplatePiece::VersionSlot,
            TemplatePiece::Lit("/kops-"@),
            TemplatePiece::OsSlot,
            TemplatePiece::Lit("-"@),
            TemplatePiece::ArchSlot,
        ],
        Tool::Kubectl => seq![
            TemplatePiece::Lit("https://storage.googleapis.com/kubernetes-release/release/"@),
            TemplatePiece::VersionSlot,
            TemplatePiece::Lit("/bin/"@),
            TemplatePiece::OsSlot,
            TemplatePiece::Lit("/"@),
            TemplatePiece::ArchSlot,
            TemplatePiece::Lit("/kubectl"@),
        ],
    }
}

/// The version text as substituted into a URL: prefixed with `v` when the
/// rule says so for this parsed version.
pub open spec fn prefixed_version(
    rule: PrefixRule,
    v: (u64, u64, u64, Option<Seq<char>>),
    vtext: Seq<char>,
) -> Seq<char> {
    match rule {
        PrefixRule::Bare => vtext,
        PrefixRule::Prefixed => "v"@ + vtext,
        PrefixRule::PrefixedAbove(a, b, c) => if triple_exceeds(v.0, v.1, v.2, a, b, c) {
            "v"@ + vtext
        } else {
            vtext
        },
    }
}

pub open spec fn piece_chars(
    p: TemplatePiece,
    vtext: Seq<char>,
    os: Seq<char>,
    arch: Seq<char>,
) -> Seq<char> {
    match p {
        TemplatePiece::Lit(s) => s,
        TemplatePiece::VersionSlot => vtext,
        TemplatePiece::OsSlot => os,
        TemplatePiece::ArchSlot => arch,
    }
}

pub open spec fn render_from(
    ps: Seq<TemplatePiece>,
    vtext: Seq<char>,
    os: Seq<char>,
    arch: Seq<char>,
) -> Seq<char>
    decreases ps.len(),
{
    if ps.len() == 0 {
        Seq::empty()
    } else {
        render_from(ps.drop_last(), vtext, os, arch) + piece_chars(ps.last(), vtext, os, arch)
    }
}

/// The download URL for a valid version string: the tool's template with the
/// version (under its prefix rule), OS and architecture substituted in.
pub open spec fn url_chars(t: Tool, version: Seq<char>, os: Seq<char>, arch: Seq<char>) -> Seq<
    char,
> {
    render_from(
        spec_template(t),
        prefixed_version(rule_of(t), spec_version_of(version)->Some_0, version),
        os,
        arch,
    )
}

pub open spec fn piece_matches(p: UrlPiece, q: TemplatePiece) -> bool {
    match (p, q) {
        (UrlPiece::Lit(s), TemplatePiece::Lit(cs)) => s@ == cs,
        (UrlPiece::VersionSlot, TemplatePiece::VersionSlot) => true,
        (UrlPiece::OsSlot, TemplatePiece::OsSlot) => true,
        (UrlPiece::ArchSlot, TemplatePiece::ArchSlot) => true,
        _ => false,
    }
}

impl ToolSpec {
    /// The record carries exactly the catalog's data for its tool.
    pub open spec fn wf(self) -> bool {
        &&& self.body == body_of(self.tool)
        &&& self.prefix == rule_of(self.tool)
        &&& self.template@.len() == spec_template(self.tool).len()
        &&& forall|k: int|
            0 <= k < self.template@.len() ==> piece_matches(
                #[trigger] self.template@[k],
                spec_template(self.tool)[k],
            )
    }
}

fn lit(s: &str) -> (r: UrlPiece)
    ensures
        piece_matches(r, TemplatePiece::Lit(s@)),
{
    UrlPiece::Lit(String::from_str(s))
}

/// The catalog record for one tool.
pub fn entry_for(t: Tool) -> (r: ToolSpec)
    ensures
        r.wf(),
        r.tool == t,
{
    let mut template: Vec<UrlPiece> = Vec::new();
    match t {
        Tool::Terraform => {
            template.push(lit("https://releases.hashicorp.com/terraform/"));
            template.push(UrlPiece::VersionSlot);
            template.push(lit("/terraform_"));
            template.push(UrlPiece::VersionSlot);
            template.push(lit("_"));
            template.push(UrlPiece::OsSlot);
            template.push(lit("_"));
            template.push(UrlPiece::ArchSlot);
            template.push(lit(".zip"));
        },
        Tool::Kops => {
            template.push(lit("https://github.com/kubernetes/kops/releases/download/"));
            template.push(UrlPiece::VersionSlot);
            template.push(lit("/kops-"));
            template.push(UrlPiece::OsSlot);
            template.push(lit("-"));
            template.push(UrlPiece::ArchSlot);
        },
        Tool::Kubectl => {
            template.push(lit("https://storage.googleapis.com/kubernetes-release/release/"));
            template.push(UrlPiece::VersionSlot);
            template.push(lit("/bin/"));
            template.push(UrlPiece::OsSlot);
            template.push(lit("/"));
            template.push(UrlPiece::ArchSlot);
            template.push(lit("/kubectl"));
        },
    }
    let (body, prefix) = match t {
        Tool::Terraform => (BodyKind::Zip, PrefixRule::Bare),
        Tool::Kops => (BodyKind::Raw, PrefixRule::PrefixedAbove(1, 15, 0)),
        Tool::Kubectl => (BodyKind::Raw, PrefixRule::Prefixed),
    };
    ToolSpec { tool: t, template, body, prefix }
}

/// Looks an identifier up in the catalog; unknown identifiers are refused.
pub fn resolve(identifier: &str) -> (r: Result<ToolSpec, Error>)
    ensures
        match r {
            Result::Ok(ts) => ts.wf() && identifier@ == spec_name(ts.tool),
            Result::Err(e) => e == Error::UnknownTool && (forall|t: Tool|
                identifier@ != spec_name(t)),
        },
{
    match Tool::from_str(identifier) {
        Result::Ok(t) => Result::Ok(entry_for(t)),
        Result::Err(e) => Result::Err(e),
    }
}

pub uninterp spec fn url_accepted(s: Seq<char>) -> bool;

/// Relies on `url::Url::parse`: whether a string is a URL the `url` crate
/// accepts is a function of the string alone.
#[verifier::external_body]
fn url_is_valid(s: &str) -> (r: bool)
    ensures
        r == url_accepted(s@),
{
    url::Url::parse(s).is_ok()
}

fn apply_prefix(rule: &PrefixRule, v: &Version, vtext: &str) -> (r: String)
    ensures
        r@ == prefixed_version(*rule, v@, vtext@),
{
    match rule {
        PrefixRule::Bare => String::from_str(vtext),
        PrefixRule::Prefixed => {
            let mut s = String::from_str("v");
            s.append(vtext);
            s
        },
        PrefixRule::PrefixedAbove(a, b, c) => {
            if v.exceeds(*a, *b, *c) {
                let mut s = String::from_str("v");
                s.append(vtext);
                s
            } else {
                String::from_str(vtext)
            }
        },
    }
}

/// Substitutes the version, OS and architecture into the record's template.
/// Fails with `InvalidVersion` before any substitution when the version is
/// not a valid semantic version, and with `ConfigError` when the substituted
/// template is not a well-formed URL.
pub fn build_url(ts: &ToolSpec, version: &str, os: &str, arch: &str) -> (r: Result<String, Error>)
    requires
        ts.wf(),
    ensures
        match r {
            Result::Ok(u) => is_valid_version(version@) && url_accepted(
                url_chars(ts.tool, version@, os@, arch@),
            ) && u@ == url_chars(ts.tool, version@, os@, arch@),
            Result::Err(e) => (e == Error::InvalidVersion && !is_valid_version(version@)) || (e
                == Error::ConfigError && is_valid_version(version@) && !url_accepted(
                url_chars(ts.tool, version@, os@, arch@),
            )),
        },
{
    let parsed: Version = match parse_version(version) {
        Option::Some(v) => v,
        Option::None => {
            return Result::Err(Error::InvalidVersion);
        },
    };
    let vtext = apply_prefix(&ts.prefix, &parsed, version);
    let ghost pieces = spec_template(ts.tool);
    let mut url = String::new();
    let mut k: usize = 0;
    while k < ts.template.len()
        invariant
            ts.wf(),
            k <= ts.template@.len(),
            pieces == spec_template(ts.tool),
            vtext@ == prefixed_version(rule_of(ts.tool), spec_version_of(version@)->Some_0, version@),
            url@ == render_from(pieces.take(k as int), vtext@, os@, arch@),
        decreases ts.template@.len() - k,
    {
        proof {
            assert(pieces.take(k + 1).drop_last() =~= pieces.take(k as int));
            assert(pieces.take(k + 1).last() == pieces[k as int]);
            assert(piece_matches(ts.template@[k as int], pieces[k as int]));
        }
        match &ts.template[k] {
            UrlPiece::Lit(s) => url.append(s.as_str()),
            UrlPiece::VersionSlot => url.append(vtext.as_str()),
            UrlPiece::OsSlot => url.append(os),
            UrlPiece::ArchSlot => url.append(arch),
        }
        k = k + 1;
    }
    proof {
        assert(pieces.take(ts.template@.len() as int) =~= pieces);
    }
    if url_is_valid(url.as_str()) {
        Result::Ok(url)
    } else {
        Result::Err(Error::ConfigError)
    }
}

impl Tool {
    /// The download URL for this tool at the given version, OS and
    /// architecture, built from the catalog record.
    pub fn url(&self, version: &str, os: &str, arch: &str) -> (r: Result<String, Error>)
        ensures
            match r {
                Result::Ok(u) => is_valid_version(version@) && url_accepted(
                    url_chars(*self, version@, os@, arch@),
                ) && u@ == url_chars(*self, version@, os@, arch@),
                Result::Err(e) => (e == Error::InvalidVersion && !is_valid_version(version@)) || (
                e == Error::ConfigError && is_valid_version(version@) && !url_accepted(
                    url_chars(*self, version@, os@, arch@),
                )),
            },
    {
        let ts = entry_for(*self);
        build_url(&ts, version, os, arch)
    }
}

} // verus!
