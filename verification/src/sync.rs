use vstd::prelude::*;

use crate::Config;
use crate::paths;

verus! {

// The mirror operation itself is an external command; this module fixes the
// exact argument vector handed to it (the wire-level contract) and models
// its per-file effect: archive-preserving and update-only, so that the
// destination is only ever brought forward, never rolled back.

/// A single relative path destined for the mirror command.  An empty path
/// means the entire source tree (used only by the bootstrap sync).
#[derive(Debug)]
pub struct SyncRequest {
    pub rel_path: String,
}

impl SyncRequest {
    /// The request covers the whole source tree rather than one file.
    pub open spec fn is_whole_tree(&self) -> bool {
        self.rel_path@.len() == 0
    }
}

/// The source item handed to the mirror command: the source root, a `.`
/// marker fixing where relative-to-root resolution starts, and the relative
/// path, joined by separators.
pub open spec fn source_arg(src: Seq<char>, rel: Seq<char>) -> Seq<char> {
    if src[src.len() - 1] == '/' {
        src + "./"@ + rel
    } else {
        src + "/./"@ + rel
    }
}

/// The full argument vector of one mirror invocation: archive-preserve,
/// update-only, relative-to-root, then the source item and the destination
/// root.
pub open spec fn rsync_argv(src: Seq<char>, dest: Seq<char>, rel: Seq<char>) -> Seq<Seq<char>> {
    seq!["--archive"@, "--update"@, "--relative"@, source_arg(src, rel), dest]
}

/// Builds the argument vector for mirroring `rel` from the source root into
/// the destination root.
pub fn rsync_args(config: &Config, rel: &str) -> (args: Vec<String>)
    requires
        config.src@.len() > 0,
    ensures
        args.deep_view() == rsync_argv(config.src@, config.dest@, rel@),
{
    let mut src_arg = config.src.clone();
    let n = src_arg.as_str().unicode_len();
    if src_arg.as_str().get_char(n - 1) == '/' {
        src_arg.append("./");
    } else {
        src_arg.append("/./");
    }
    src_arg.append(rel);
    let mut args: Vec<String> = Vec::new();
    args.push(String::from_str("--archive"));
    args.push(String::from_str("--update"));
    args.push(String::from_str("--relative"));
    args.push(src_arg);
    args.push(config.dest.clone());
    proof {
        assert(args.deep_view() =~= rsync_argv(config.src@, config.dest@, rel@));
    }
    args
}

/// The whole-tree sync that primes the destination before watching begins:
/// one mirror invocation with an empty relative path.
pub fn bootstrap(config: &Config) -> (args: Vec<String>)
    requires
        config.src@.len() > 0,
    ensures
        args.deep_view() == rsync_argv(config.src@, config.dest@, Seq::<char>::empty()),
{
    let args = rsync_args(config, "");
    proof {
        reveal_strlit("");
        assert(""@ =~= Seq::<char>::empty());
    }
    args
}

/// What one accepted event leads to: nothing (a directory), a mirror
/// request for the translated path, or a fatal path-translation violation.
#[derive(Debug)]
pub enum CopyPlan {
    Skip,
    Sync(SyncRequest),
    PathViolation,
}

/// Decides what to mirror for one changed path.  Directories are skipped
/// (the mirror command's own recursion handles directory metadata); a file
/// strictly under the source root is mirrored under its relative path; a
/// path outside the root is a contract violation the caller must treat as
/// fatal.
pub fn copy_to_dest(config: &Config, path: &str, is_dir: bool) -> (r: CopyPlan)
    ensures
        is_dir ==> r is Skip,
        !is_dir && paths::is_strictly_under(config.src@, path@) ==> (r matches CopyPlan::Sync(q)
            && q.rel_path@ == paths::rel_suffix(config.src@, path@)),
        !is_dir && !paths::is_strictly_under(config.src@, path@) ==> r is PathViolation,
{
    if is_dir {
        return CopyPlan::Skip;
    }
    match paths::relativize(config.src.as_str(), path) {
        Some(rel) => CopyPlan::Sync(SyncRequest { rel_path: rel }),
        None => CopyPlan::PathViolation,
    }
}

/// A file as the mirror model sees it: a modification time and contents.
pub struct FileState {
    pub mtime: u64,
    pub data: Vec<u8>,
}

/// The mathematical shape of a modelled file.
pub struct FileStateView {
    pub mtime: u64,
    pub data: Seq<u8>,
}

impl View for FileState {
    type V = FileStateView;

    open spec fn view(&self) -> FileStateView {
        FileStateView { mtime: self.mtime, data: self.data@ }
    }
}

/// Whether the update-only mirror copies the source entry over the
/// destination entry: yes when the destination lacks the file, when the
/// source is strictly newer, or when the times tie but the sizes differ.
pub open spec fn should_copy(src: FileStateView, dst: Option<FileStateView>) -> bool {
    match dst {
        Option::None => true,
        Option::Some(d) => src.mtime > d.mtime || (src.mtime == d.mtime && src.data.len()
            != d.data.len()),
    }
}

/// The destination entry after one update-only mirror of `src` over `dst`.
pub open spec fn mirror_effect(src: FileStateView, dst: Option<FileStateView>) -> FileStateView {
    if should_copy(src, dst) {
        src
    } else {
        dst.unwrap()
    }
}

/// The view of an optional destination entry.
pub open spec fn opt_file_view(o: Option<FileState>) -> Option<FileStateView> {
    match o {
        Option::None => Option::None,
        Option::Some(f) => Option::Some(f@),
    }
}

/// One update-only mirror step for a single file: returns the destination
/// entry after the operation.
pub fn mirror_file(src: FileState, dst: Option<FileState>) -> (r: FileState)
    ensures
        r@ == mirror_effect(src@, opt_file_view(dst)),
{
    match dst {
        Option::None => src,
        Option::Some(d) => {
            if src.mtime > d.mtime {
                src
            } else if src.mtime == d.mtime && src.data.len() != d.data.len() {
                src
            } else {
                d
            }
        },
    }
}

/// Law: mirroring is idempotent.  Mirroring an unchanged source file a
/// second time leaves the destination entry — content and modification time
/// — exactly as the first mirror left it.
pub proof fn lemma_mirror_idempotent(src: FileStateView, dst: Option<FileStateView>)
    ensures
        mirror_effect(src, Option::Some(mirror_effect(src, dst))) == mirror_effect(src, dst),
{
}

/// Law: update-only.  A destination file strictly newer than the source
/// file is never overwritten by a mirror.
pub proof fn lemma_mirror_update_only(src: FileStateView, d: FileStateView)
    requires
        d.mtime > src.mtime,
    ensures
        mirror_effect(src, Option::Some(d)) == d,
{
}

} // verus!
