//! The in-memory unit of work for one post: once the related rows are
//! resolved, build the canonical record, resolve the author's local
//! followers, and build every timeline copy owed. The canonical record
//! is fully constructed before any write is issued; the copies are
//! derived from it in memory, never re-fetched.

use vstd::prelude::*;

use crate::denorm::{denormalize, spec_denormalized};
use crate::fanout::{fan_out, local_followers, spec_fan_out, spec_local_followers};
use crate::model::{FileRef, FollowEdge, PostRow};
use crate::records::{EditHistoryEntry, PollSnapshot, PostRecord, TimelineEntry};

verus! {

/// Builds everything one post's unit of work writes: the canonical
/// record first, then one timeline copy per local follower of the
/// author, each copy identical to the record except for its feed owner.
pub fn post_unit_of_work(
    row: PostRow,
    reply: Option<PostRow>,
    renote: Option<PostRow>,
    files: Vec<FileRef>,
    reply_files: Vec<FileRef>,
    renote_files: Vec<FileRef>,
    poll: Option<PollSnapshot>,
    edits: Vec<EditHistoryEntry>,
    edges: &Vec<FollowEdge>,
) -> (out: (PostRecord, Vec<TimelineEntry>))
    ensures
        ({
            let rec = spec_denormalized(
                row@,
                reply.deep_view(),
                renote.deep_view(),
                files.deep_view(),
                reply_files.deep_view(),
                renote_files.deep_view(),
                poll.deep_view(),
                edits.deep_view(),
            );
            &&& out.0@ == rec
            &&& out.1.deep_view() == spec_fan_out(rec, spec_local_followers(edges.deep_view()))
        }),
{
    let rec = denormalize(row, reply, renote, files, reply_files, renote_files, poll, edits);
    let owners = local_followers(edges);
    let copies = fan_out(&rec, &owners);
    (rec, copies)
}

} // verus!
