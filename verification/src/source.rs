//! The source resolver: which kind of stream a track is read from, and
//! what is tried next when a stream cannot be opened.

use crate::track::Track;
use vstd::prelude::*;

verus! {

/// The ways of reading a track's audio.
#[derive(Debug, Clone, Copy, PartialEq, Eq, Structural)]
pub enum SourceKind {
    /// Open the audio file directly on the local file system.
    LocalFile,
    /// Stream the audio from the server.
    RemoteStream,
}

/// The source to try first: the local file when local mode is on and the
/// track names one, the remote stream otherwise.
pub open spec fn first_choice(use_local: bool, has_local: bool) -> SourceKind {
    if use_local && has_local {
        SourceKind::LocalFile
    } else {
        SourceKind::RemoteStream
    }
}

/// The source to try after `failed` could not be opened: the remote stream
/// after the local file, and nothing after the remote stream.
pub open spec fn next_choice(failed: SourceKind) -> Option<SourceKind> {
    match failed {
        SourceKind::LocalFile => Some(SourceKind::RemoteStream),
        SourceKind::RemoteStream => None,
    }
}

/// How many choices are left after a source of the given kind.
pub open spec fn choices_left(kind: SourceKind) -> nat {
    match kind {
        SourceKind::LocalFile => 1,
        SourceKind::RemoteStream => 0,
    }
}

/// Whether a source of the given kind opens, given what each kind does.
pub open spec fn opens(kind: SourceKind, local_opens: bool, remote_opens: bool) -> bool {
    match kind {
        SourceKind::LocalFile => local_opens,
        SourceKind::RemoteStream => remote_opens,
    }
}

/// The source that is read in the end when the resolver starts with
/// `kind` and moves on to the next choice after every failure. `None` when
/// no source could be opened.
pub open spec fn settle(kind: SourceKind, local_opens: bool, remote_opens: bool) -> Option<
    SourceKind,
>
    decreases choices_left(kind),
{
    if opens(kind, local_opens, remote_opens) {
        Some(kind)
    } else {
        match next_choice(kind) {
            Some(next) => settle(next, local_opens, remote_opens),
            None => None,
        }
    }
}

/// The source to try first for a track.
pub fn first_source(use_local: bool, track: &Track) -> (kind: SourceKind)
    ensures
        kind == first_choice(use_local, track.local_path is Some),
{
    if use_local && track.local_path.is_some() {
        SourceKind::LocalFile
    } else {
        SourceKind::RemoteStream
    }
}

/// The source to try after `failed` could not be opened. `None` means that
/// the track's source is unavailable.
pub fn fallback(failed: SourceKind) -> (next: Option<SourceKind>)
    ensures
        next == next_choice(failed),
{
    match failed {
        SourceKind::LocalFile => Some(SourceKind::RemoteStream),
        SourceKind::RemoteStream => None,
    }
}

/// Following the resolver from its first choice reads the local file
/// exactly when local mode is on, the track names a file and the file
/// opens; otherwise it reads the remote stream when that opens; otherwise
/// the source is unavailable. A failure of the local file never surfaces.
pub proof fn lemma_resolution(
    use_local: bool,
    has_local: bool,
    local_opens: bool,
    remote_opens: bool,
)
    ensures
        settle(first_choice(use_local, has_local), local_opens, remote_opens) == if use_local
            && has_local && local_opens {
            Some(SourceKind::LocalFile)
        } else if remote_opens {
            Some(SourceKind::RemoteStream)
        } else {
            None
        },
{
    reveal_with_fuel(settle, 3);
}

} // verus!
