use vstd::prelude::*;

use crate::archive::{normalize, normalize_spec};
use crate::disk::{Disk, EntryView};
use crate::error::Error;
use crate::fetch::{classify_response, classify_spec, opt_chars};
use crate::store::{
    lemma_launcher_is_not_versioned, launcher_path, launcher_path_chars, versioned_path,
    versioned_path_chars,
};
use crate::tool::{spec_name, url_accepted, url_chars, Tool};
use crate::version::{is_valid_version, parse_version};

verus! {

/// What one HTTP GET of the download URL came back with: the status code,
/// the two headers the pipeline reads, and the body bytes.
pub struct FetchReply {
    pub status: u16,
    pub content_length: Option<String>,
    pub content_type: Option<String>,
    pub body: Vec<u8>,
}

/// What a successful invocation reports: whether the artifact was fetched
/// (rather than found on disk), and the URL it was fetched from.
pub struct RunReport {
    pub fetched: bool,
    pub url: Option<String>,
}

/// The whole pipeline as a function of the starting disk and the fetch
/// reply: the final disk and whether a fetch happened, or the error that
/// aborted the run. A fetch happens exactly when the versioned path is
/// absent or force is set; every error leaves the disk as it was.
pub open spec fn pipeline_spec(
    d0: Map<Seq<char>, EntryView>,
    root: Seq<char>,
    tool: Tool,
    version: Seq<char>,
    os: Seq<char>,
    arch: Seq<char>,
    force: bool,
    reply: FetchReply,
) -> Result<(Map<Seq<char>, EntryView>, bool), Error> {
    if !is_valid_version(version) {
        Result::Err(Error::InvalidVersion)
    } else {
        let path = versioned_path_chars(root, spec_name(tool), version);
        let link = launcher_path_chars(root, spec_name(tool));
        if force || !d0.contains_key(path) {
            if !url_accepted(url_chars(tool, version, os, arch)) {
                Result::Err(Error::ConfigError)
            } else {
                match classify_spec(
                    reply.status,
                    opt_chars(reply.content_length),
                    opt_chars(reply.content_type),
                ) {
                    Result::Err(e) => Result::Err(e),
                    Result::Ok(meta) => match normalize_spec(reply.body@, meta.kind) {
                        Result::Err(e) => Result::Err(e),
                        Result::Ok(bytes) => Result::Ok(
                            (
                                d0.insert(path, EntryView::File { bytes, executable: true }).insert(
                                    link,
                                    EntryView::Link { target: path },
                                ),
                                true,
                            ),
                        ),
                    },
                }
            }
        } else {
            Result::Ok(
                (
                    crate::disk::spec_set_exec(d0, path).insert(
                        link,
                        EntryView::Link { target: path },
                    ),
                    false,
                ),
            )
        }
    }
}

/// Runs one invocation against the disk model. The version is validated
/// before anything else; the presence check, the fetch decision, response
/// classification, archive normalization, persisting, the permission bit and
/// the launcher swap all follow `pipeline_spec` exactly. On an error the
/// disk is untouched. On success the report says whether a fetch happened
/// and, if so, from which URL.
pub fn run_pipeline(
    disk: &mut Disk,
    root: &str,
    tool: Tool,
    version: &str,
    os: &str,
    arch: &str,
    force: bool,
    reply: FetchReply,
) -> (r: Result<RunReport, Error>)
    ensures
        match r {
            Result::Ok(rep) => {
                &&& pipeline_spec(old(disk)@, root@, tool, version@, os@, arch@, force, reply)
                    == Result::<_, Error>::Ok((final(disk)@, rep.fetched))
                &&& rep.fetched == (force || !old(disk)@.contains_key(
                    versioned_path_chars(root@, spec_name(tool), version@),
                ))
                &&& rep.fetched ==> (rep.url matches Option::Some(u) && u@ == url_chars(
                    tool,
                    version@,
                    os@,
                    arch@,
                ))
                &&& !rep.fetched ==> rep.url is None
            },
            Result::Err(e) => {
                &&& pipeline_spec(old(disk)@, root@, tool, version@, os@, arch@, force, reply)
                    == Result::<(Map<Seq<char>, EntryView>, bool), Error>::Err(e)
                &&& final(disk)@ == old(disk)@
            },
        },
{
    let ghost d0 = disk@;
    if parse_version(version).is_none() {
        return Result::Err(Error::InvalidVersion);
    }
    let path = versioned_path(root, &tool, version);
    let link = launcher_path(root, &tool);
    let present = disk.contains(path.as_str());
    if !force && present {
        let set_res = disk.set_exec_bit(path.as_str());
        match set_res {
            Result::Err(_) => {
                proof {
                    assert(false);
                }
                return Result::Err(Error::Io);
            },
            Result::Ok(()) => {},
        }
        disk.relink(link.as_str(), path.as_str());
        return Result::Ok(RunReport { fetched: false, url: Option::None });
    }
    let url = match tool.url(version, os, arch) {
        Result::Ok(u) => u,
        Result::Err(e) => {
            return Result::Err(e);
        },
    };
    let meta = match classify_response(reply.status, &reply.content_length, &reply.content_type) {
        Result::Ok(m) => m,
        Result::Err(e) => {
            return Result::Err(e);
        },
    };
    let bytes = match normalize(reply.body, meta.kind) {
        Result::Ok(b) => b,
        Result::Err(e) => {
            return Result::Err(e);
        },
    };
    let ghost bb = bytes@;
    disk.write_file(path.as_str(), bytes);
    let set_res = disk.set_exec_bit(path.as_str());
    match set_res {
        Result::Err(_) => {
            proof {
                assert(false);
            }
            return Result::Err(Error::Io);
        },
        Result::Ok(()) => {},
    }
    disk.relink(link.as_str(), path.as_str());
    proof {
        assert(disk@ =~= d0.insert(path@, EntryView::File { bytes: bb, executable: true }).insert(
            link@,
            EntryView::Link { target: path@ },
        ));
    }
    Result::Ok(RunReport { fetched: true, url: Option::Some(url) })
}

/// Idempotence: after one successful run, running again for the same tool
/// and version without force fetches nothing and leaves the disk exactly as
/// the first run left it, whatever the second reply would have been.
pub proof fn lemma_pipeline_idempotent(
    d0: Map<Seq<char>, EntryView>,
    root: Seq<char>,
    tool: Tool,
    version: Seq<char>,
    os: Seq<char>,
    arch: Seq<char>,
    force: bool,
    reply1: FetchReply,
    reply2: FetchReply,
    d1: Map<Seq<char>, EntryView>,
    f1: bool,
)
    requires
        pipeline_spec(d0, root, tool, version, os, arch, force, reply1) == Result::<
            _,
            Error,
        >::Ok((d1, f1)),
    ensures
        pipeline_spec(d1, root, tool, version, os, arch, false, reply2) == Result::<
            (Map<Seq<char>, EntryView>, bool),
            Error,
        >::Ok((d1, false)),
{
    let name = spec_name(tool);
    let path = versioned_path_chars(root, name, version);
    let link = launcher_path_chars(root, name);
    lemma_launcher_is_not_versioned(root, name, name, version);
    assert(d1.contains_key(path));
    assert(d1[link] == EntryView::Link { target: path });
    let d2 = crate::disk::spec_set_exec(d1, path).insert(link, EntryView::Link { target: path });
    if force || !d0.contains_key(path) {
        assert(d1[path] is File && d1[path]->File_executable == true);
        assert(d2 =~= d1);
    } else {
        if d0[path] is File {
            assert(d1[path] == EntryView::File {
                bytes: d0[path]->File_bytes,
                executable: true,
            });
            assert(d2 =~= d1);
        } else {
            assert(d1[path] == d0[path]);
            assert(d2 =~= d1);
        }
    }
}

/// Force refresh: a run with force set fetches even when the versioned path
/// is already present, and afterwards the launcher points at that same
/// versioned path.
pub proof fn lemma_force_refetches(
    d0: Map<Seq<char>, EntryView>,
    root: Seq<char>,
    tool: Tool,
    version: Seq<char>,
    os: Seq<char>,
    arch: Seq<char>,
    reply: FetchReply,
    d1: Map<Seq<char>, EntryView>,
    f1: bool,
)
    requires
        pipeline_spec(d0, root, tool, version, os, arch, true, reply) == Result::<
            _,
            Error,
        >::Ok((d1, f1)),
    ensures
        f1 == true,
        d1[launcher_path_chars(root, spec_name(tool))] == (EntryView::Link {
            target: versioned_path_chars(root, spec_name(tool), version),
        }),
{
}

/// Relinking: when the requested version is already on disk, a run without
/// force swaps the launcher to its versioned path and touches nothing else
/// — in particular, the versioned binary of any other version is left
/// exactly as it was.
pub proof fn lemma_relink_leaves_others(
    d0: Map<Seq<char>, EntryView>,
    root: Seq<char>,
    tool: Tool,
    version_b: Seq<char>,
    version_a: Seq<char>,
    os: Seq<char>,
    arch: Seq<char>,
    reply: FetchReply,
    d1: Map<Seq<char>, EntryView>,
    f1: bool,
)
    requires
        pipeline_spec(d0, root, tool, version_b, os, arch, false, reply) == Result::<
            _,
            Error,
        >::Ok((d1, f1)),
        d0.contains_key(versioned_path_chars(root, spec_name(tool), version_b)),
        version_a != version_b,
    ensures
        f1 == false,
        d1[launcher_path_chars(root, spec_name(tool))] == (EntryView::Link {
            target: versioned_path_chars(root, spec_name(tool), version_b),
        }),
        d1.contains_key(versioned_path_chars(root, spec_name(tool), version_a))
            == d0.contains_key(versioned_path_chars(root, spec_name(tool), version_a)),
        d0.contains_key(versioned_path_chars(root, spec_name(tool), version_a)) ==> d1[
            versioned_path_chars(root, spec_name(tool), version_a)
        ] == d0[versioned_path_chars(root, spec_name(tool), version_a)],
{
    let name = spec_name(tool);
    let path_a = versioned_path_chars(root, name, version_a);
    let path_b = versioned_path_chars(root, name, version_b);
    let link = launcher_path_chars(root, name);
    crate::store::lemma_versioned_path_injective(root, name, version_a, version_b);
    lemma_launcher_is_not_versioned(root, name, name, version_a);
}

} // verus!
