//! Record-level properties of the pipeline, stated once over the spec
//! functions the builders are proved against.

use vstd::prelude::*;

use crate::denorm::spec_denormalized;
use crate::fanout::spec_fan_out;
use crate::model::{FileRefV, PostRowV};
use crate::records::{EditHistoryEntryV, PollSnapshotV, PostRecord, PostRecordV};

verus! {

/// All reply-context fields of a record are empty together.
pub open spec fn reply_context_empty(r: PostRecordV) -> bool {
    &&& r.reply_id is None
    &&& r.reply_user_id is None
    &&& r.reply_user_host is None
    &&& r.reply_content is None
    &&& r.reply_cw is None
    &&& r.reply_files.len() == 0
}

/// All repost-context fields of a record are empty together.
pub open spec fn repost_context_empty(r: PostRecordV) -> bool {
    &&& r.renote_id is None
    &&& r.renote_user_id is None
    &&& r.renote_user_host is None
    &&& r.renote_content is None
    &&& r.renote_cw is None
    &&& r.renote_files.len() == 0
}

/// A post whose reply (or repost) target is absent — because the post
/// has none, or because the target could not be resolved, a deleted
/// target included — denormalizes with that context uniformly empty,
/// and the record is still built.
pub proof fn lemma_unresolved_target_empty_context(
    row: PostRowV,
    reply: Option<PostRowV>,
    renote: Option<PostRowV>,
    files: Seq<FileRefV>,
    reply_files: Seq<FileRefV>,
    renote_files: Seq<FileRefV>,
    poll: Option<PollSnapshotV>,
    edits: Seq<EditHistoryEntryV>,
)
    ensures
        reply is None ==> reply_context_empty(
            spec_denormalized(row, reply, renote, files, reply_files, renote_files, poll, edits),
        ),
        renote is None ==> repost_context_empty(
            spec_denormalized(row, reply, renote, files, reply_files, renote_files, poll, edits),
        ),
{
}

/// A resolved reply (or repost) target fills its context: a record
/// built with the target row present, for a post that names that
/// target, does not have the context empty — together with
/// `lemma_unresolved_target_empty_context`, the context fields are
/// all-null together exactly when the post has no target or the target
/// could not be resolved.
pub proof fn lemma_resolved_target_fills_context(
    row: PostRowV,
    reply: Option<PostRowV>,
    renote: Option<PostRowV>,
    files: Seq<FileRefV>,
    reply_files: Seq<FileRefV>,
    renote_files: Seq<FileRefV>,
    poll: Option<PollSnapshotV>,
    edits: Seq<EditHistoryEntryV>,
)
    ensures
        reply is Some && row.reply_id is Some ==> !reply_context_empty(
            spec_denormalized(row, reply, renote, files, reply_files, renote_files, poll, edits),
        ),
        renote is Some && row.renote_id is Some ==> !repost_context_empty(
            spec_denormalized(row, reply, renote, files, reply_files, renote_files, poll, edits),
        ),
{
}

/// Every record produced carries `has_poll` true exactly when its poll
/// snapshot is present — the canonical record, and so every timeline
/// copy, whose payload is the canonical record unchanged.
pub proof fn lemma_has_poll_iff_poll(
    row: PostRowV,
    reply: Option<PostRowV>,
    renote: Option<PostRowV>,
    files: Seq<FileRefV>,
    reply_files: Seq<FileRefV>,
    renote_files: Seq<FileRefV>,
    poll: Option<PollSnapshotV>,
    edits: Seq<EditHistoryEntryV>,
    owners: Seq<Seq<char>>,
)
    ensures
        ({
            let r = spec_denormalized(row, reply, renote, files, reply_files, renote_files, poll, edits);
            let copies = spec_fan_out(r, owners);
            &&& (r.has_poll <==> r.poll is Some)
            &&& forall|i: int|
                0 <= i < copies.len() ==> (copies[i].payload.has_poll <==> copies[i].payload.poll is Some)
        }),
{
}

/// Re-running the migration over the same unchanged source produces
/// identical records: two records built from the same resolved inputs
/// carry identical content, and so do their timeline copies.
pub proof fn lemma_rerun_identical(
    r1: PostRecord,
    r2: PostRecord,
    row: PostRowV,
    reply: Option<PostRowV>,
    renote: Option<PostRowV>,
    files: Seq<FileRefV>,
    reply_files: Seq<FileRefV>,
    renote_files: Seq<FileRefV>,
    poll: Option<PollSnapshotV>,
    edits: Seq<EditHistoryEntryV>,
    owners: Seq<Seq<char>>,
)
    requires
        r1@ == spec_denormalized(row, reply, renote, files, reply_files, renote_files, poll, edits),
        r2@ == spec_denormalized(row, reply, renote, files, reply_files, renote_files, poll, edits),
    ensures
        r1@ == r2@,
        spec_fan_out(r1@, owners) == spec_fan_out(r2@, owners),
{
}

} // verus!
