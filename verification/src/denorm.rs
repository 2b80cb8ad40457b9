//! The denormalizer: builds one self-contained wide record per source
//! post by merging the post row with its resolved reply and repost
//! context, attachments, poll snapshot, edit history and inline
//! reaction tally. Data-shape anomalies (a missing related row, a
//! non-integer stored count, an empty attachment list) are resolved to
//! null, zero or empty — they are never errors.

use vstd::prelude::*;

use vstd::string::StringExecFns;

use crate::model::{
    clone_opt_string, EditRow, EditRowV, FileRow, FileRowV, FileRef, FileRefV, PollRow, PollRowV,
    PostRow, PostRowV, ReactionRow, StoredEntry, StoredEntryV, StoredReactions, StoredReactionsV,
    StoredValue,
};
use crate::records::{
    EditHistoryEntry, EditHistoryEntryV, PollChoice, PollChoiceV, PollSnapshot, PollSnapshotV,
    PostRecord, PostRecordV, ReactionCount, ReactionCountV, ReactionRecord, ReactionRecordV,
};

verus! {

/// Milliseconds in one calendar day (UTC).
pub const MILLIS_PER_DAY: i64 = 86_400_000;

/// The creation instant truncated to calendar-day resolution (UTC),
/// counted in days since the Unix epoch; instants before the epoch
/// round toward earlier days.
pub open spec fn spec_day_of(ms: i64) -> int {
    ms as int / 86_400_000
}

/// Derives the partitioning date from a creation instant.
pub fn day_of_millis(ms: i64) -> (d: i64)
    ensures
        d == spec_day_of(ms),
{
    proof {
        assert(i64::MIN <= ms as int / 86_400_000 <= i64::MAX) by (nonlinear_arith);
    }
    match ms.checked_div_euclid(MILLIS_PER_DAY) {
        Option::Some(d) => d,
        Option::None => {
            proof {
                assert(false);
            }
            0
        },
    }
}

/// A stored reaction count coerced to an integer: an integer value is
/// taken as it stands (truncated to 32 bits), anything else counts as
/// zero.
pub open spec fn coerced_count(v: StoredValue) -> i32 {
    match v {
        StoredValue::Int(n) => n as i32,
        StoredValue::Other => 0,
    }
}

/// The reaction tally a record carries, derived from the reaction data
/// stored inline on the post row: one entry per stored key, in stored
/// order, with the count coerced to an integer.
pub open spec fn spec_tally(stored: StoredReactionsV) -> Seq<ReactionCountV> {
    match stored {
        StoredReactionsV::NotAnObject => Seq::empty(),
        StoredReactionsV::Object(entries) => Seq::new(
            entries.len(),
            |i: int| ReactionCountV { key: entries[i].key, count: coerced_count(entries[i].value) },
        ),
    }
}

/// Builds the inline reaction tally of one post.
pub fn reaction_tally(stored: &StoredReactions) -> (r: Vec<ReactionCount>)
    ensures
        r.deep_view() == spec_tally(stored@),
{
    match stored {
        StoredReactions::NotAnObject => {
            let empty: Vec<ReactionCount> = Vec::new();
            proof {
                assert(empty.deep_view() =~= spec_tally(stored@));
            }
            empty
        },
        StoredReactions::Object(entries) => {
            let mut out: Vec<ReactionCount> = Vec::new();
            let mut i: usize = 0;
            while i < entries.len()
                invariant
                    i <= entries.len(),
                    out.deep_view() == spec_tally(StoredReactionsV::Object(entries.deep_view())).subrange(0, i as int),
                decreases entries.len() - i,
            {
                let count: i32 = match &entries[i].value {
                    StoredValue::Int(n) => #[verifier::truncate] (*n as i32),
                    StoredValue::Other => 0,
                };
                let ghost pre = out.deep_view();
                out.push(ReactionCount { key: entries[i].key.clone(), count });
                proof {
                    let full = spec_tally(StoredReactionsV::Object(entries.deep_view()));
                    assert(out.deep_view() =~= pre.push(full[i as int]));
                    assert(out.deep_view() =~= full.subrange(0, i + 1 as int));
                }
                i = i + 1;
            }
            proof {
                assert(out.deep_view() =~= spec_tally(stored@));
            }
            out
        },
    }
}

/// Looks a key up in an opaque stored bag: the first entry under that
/// key, if any.
pub open spec fn prop_lookup(props: Seq<StoredEntryV>, key: Seq<char>) -> Option<StoredValue>
    decreases props.len(),
{
    if props.len() == 0 {
        None
    } else if props[0].key == key {
        Some(props[0].value)
    } else {
        prop_lookup(props.drop_first(), key)
    }
}

/// A dimension parsed out of the properties bag: present iff the key is
/// stored with an integer value (truncated to 32 bits); absent or
/// non-integer resolves to `None`, never to an error.
pub open spec fn dimension_of(props: Seq<StoredEntryV>, key: Seq<char>) -> Option<i32> {
    match prop_lookup(props, key) {
        Some(StoredValue::Int(n)) => Some(n as i32),
        _ => None,
    }
}

/// Finds a named dimension in an attachment row's properties bag.
pub fn find_dimension(props: &Vec<StoredEntry>, key: &String) -> (r: Option<i32>)
    ensures
        r == dimension_of(props.deep_view(), key@),
{
    let mut i: usize = 0;
    proof {
        assert(props.deep_view().skip(0) =~= props.deep_view());
    }
    while i < props.len()
        invariant
            i <= props.len(),
            prop_lookup(props.deep_view(), key@) == prop_lookup(props.deep_view().skip(i as int), key@),
        decreases props.len() - i,
    {
        let ghost suffix = props.deep_view().skip(i as int);
        proof {
            assert(suffix[0] == props.deep_view()[i as int]);
            assert(suffix.drop_first() =~= props.deep_view().skip(i + 1 as int));
        }
        if props[i].key == *key {
            match &props[i].value {
                StoredValue::Int(n) => {
                    return Option::Some(#[verifier::truncate] (*n as i32));
                },
                StoredValue::Other => {
                    return Option::None;
                },
            }
        }
        i = i + 1;
    }
    proof {
        assert(props.deep_view().skip(props@.len() as int).len() == 0);
    }
    Option::None
}

/// The denormalized attachment built from one source attachment row:
/// every stored column carried over, width and height parsed out of the
/// opaque properties bag.
pub open spec fn spec_file_ref(f: FileRowV) -> FileRefV {
    FileRefV {
        id: f.id,
        media_type: f.media_type,
        created_at: f.created_at,
        name: f.name,
        comment: f.comment,
        blurhash: f.blurhash,
        url: f.url,
        thumbnail_url: f.thumbnail_url,
        is_sensitive: f.is_sensitive,
        is_link: f.is_link,
        md5: f.md5,
        size: f.size,
        width: dimension_of(f.properties, "width"@),
        height: dimension_of(f.properties, "height"@),
    }
}

/// Builds the denormalized attachment for one source attachment row.
pub fn map_drive_file(file: &FileRow) -> (r: FileRef)
    ensures
        r@ == spec_file_ref(file@),
{
    let width_key: String = String::from_str("width");
    let height_key: String = String::from_str("height");
    let width = find_dimension(&file.properties, &width_key);
    let height = find_dimension(&file.properties, &height_key);
    let r = FileRef {
        id: file.id.clone(),
        media_type: file.media_type.clone(),
        created_at: file.created_at,
        name: file.name.clone(),
        comment: clone_opt_string(&file.comment),
        blurhash: clone_opt_string(&file.blurhash),
        url: file.url.clone(),
        thumbnail_url: clone_opt_string(&file.thumbnail_url),
        is_sensitive: file.is_sensitive,
        is_link: file.is_link,
        md5: file.md5.clone(),
        size: file.size,
        width,
        height,
    };
    proof {
        assert(r@ =~= spec_file_ref(file@));
    }
    r
}

/// The attachments found for an id list, in the order the store returned
/// them: exactly the rows found, each denormalized — fewer rows than ids
/// is valid domain state, never an error.
pub open spec fn spec_file_refs(rows: Seq<FileRowV>) -> Seq<FileRefV> {
    rows.map_values(|f: FileRowV| spec_file_ref(f))
}

/// Denormalizes every attachment row found for one id list.
pub fn map_drive_files(rows: &Vec<FileRow>) -> (r: Vec<FileRef>)
    ensures
        r.deep_view() == spec_file_refs(rows.deep_view()),
{
    let mut out: Vec<FileRef> = Vec::new();
    let mut i: usize = 0;
    while i < rows.len()
        invariant
            i <= rows.len(),
            out.deep_view() == spec_file_refs(rows.deep_view()).subrange(0, i as int),
        decreases rows.len() - i,
    {
        let ghost pre = out.deep_view();
        out.push(map_drive_file(&rows[i]));
        proof {
            assert(out.deep_view() =~= pre.push(spec_file_refs(rows.deep_view())[i as int]));
            assert(out.deep_view() =~= spec_file_refs(rows.deep_view()).subrange(0, i + 1 as int));
        }
        i = i + 1;
    }
    proof {
        assert(out.deep_view() =~= spec_file_refs(rows.deep_view()));
    }
    out
}

/// Says whether resolving an id list needs a store lookup at all: an
/// empty list yields an empty attachment list with no query issued.
pub fn file_lookup_needed(file_ids: &Vec<String>) -> (r: bool)
    ensures
        r <==> file_ids@.len() != 0,
{
    file_ids.len() != 0
}

/// The poll snapshot inlined into a record: the poll row's expiry and
/// multiple-choice flag, with the stored choice labels keyed by 1-based
/// index.
pub open spec fn spec_poll_snapshot(p: Option<PollRowV>) -> Option<PollSnapshotV> {
    match p {
        None => None,
        Some(row) => Some(
            PollSnapshotV {
                expires_at: row.expires_at,
                multiple: row.multiple,
                choices: Seq::new(
                    row.choices.len(),
                    |i: int| PollChoiceV { index: (i + 1) as i32, label: row.choices[i] },
                ),
            },
        ),
    }
}

/// Builds the poll snapshot for one post, if the post has a poll row.
/// The choice count is bounded so that 1-based indices fit the stored
/// 32-bit key.
pub fn poll_snapshot_of(p: Option<PollRow>) -> (r: Option<PollSnapshot>)
    requires
        p is Some ==> p->Some_0.choices@.len() < 0x7fff_ffff,
    ensures
        r.deep_view() == spec_poll_snapshot(p.deep_view()),
{
    match p {
        Option::None => Option::None,
        Option::Some(row) => {
            let ghost rowv = row.deep_view();
            let ghost choicesv = spec_poll_snapshot(Some(rowv))->Some_0.choices;
            let mut choices: Vec<PollChoice> = Vec::new();
            let mut i: usize = 0;
            while i < row.choices.len()
                invariant
                    i <= row.choices.len(),
                    row.choices@.len() < 0x7fff_ffff,
                    rowv == row.deep_view(),
                    choicesv == spec_poll_snapshot(Some(rowv))->Some_0.choices,
                    choices.deep_view() == choicesv.subrange(0, i as int),
                decreases row.choices.len() - i,
            {
                let ghost pre = choices.deep_view();
                let index: i32 = (i as i32) + 1;
                choices.push(PollChoice { index, label: row.choices[i].clone() });
                proof {
                    assert(choices.deep_view() =~= pre.push(choicesv[i as int]));
                    assert(choices.deep_view() =~= choicesv.subrange(0, i + 1 as int));
                }
                i = i + 1;
            }
            let snapshot = PollSnapshot {
                expires_at: row.expires_at,
                multiple: row.multiple,
                choices,
            };
            proof {
                assert(snapshot@ =~= spec_poll_snapshot(Some(rowv))->Some_0);
            }
            Option::Some(snapshot)
        },
    }
}

/// The edit-history entry built from one edit row and its resolved
/// attachments.
pub open spec fn spec_edit_entry(row: EditRowV, files: Seq<FileRefV>) -> EditHistoryEntryV {
    EditHistoryEntryV { content: row.text, cw: row.cw, files, updated_at: row.updated_at }
}

/// Builds one edit-history entry from an edit row and the attachments
/// resolved for it.
pub fn edit_entry(row: EditRow, files: Vec<FileRef>) -> (r: EditHistoryEntry)
    ensures
        r@ == spec_edit_entry(row@, files.deep_view()),
{
    let r = EditHistoryEntry {
        content: row.text,
        cw: row.cw,
        files,
        updated_at: row.updated_at,
    };
    proof {
        assert(r@ =~= spec_edit_entry(row@, r.files.deep_view()));
    }
    r
}

/// The edit history a record keeps: every entry whose sub-resolution
/// succeeded, in order, with the failed ones silently dropped — partial
/// failure of a sub-fetch does not fail the whole record.
pub open spec fn spec_collected_edits(found: Seq<Option<EditHistoryEntryV>>) -> Seq<EditHistoryEntryV>
    decreases found.len(),
{
    if found.len() == 0 {
        Seq::empty()
    } else {
        spec_collected_edits(found.drop_last()) + (match found.last() {
            Some(e) => seq![e],
            None => Seq::empty(),
        })
    }
}

/// Keeps the edit-history entries that resolved, dropping the failed
/// ones, in order.
pub fn collect_edits(found: &Vec<Option<EditHistoryEntry>>) -> (r: Vec<EditHistoryEntry>)
    ensures
        r.deep_view() == spec_collected_edits(found.deep_view()),
{
    let mut out: Vec<EditHistoryEntry> = Vec::new();
    let mut i: usize = 0;
    while i < found.len()
        invariant
            i <= found.len(),
            out.deep_view() == spec_collected_edits(found.deep_view().subrange(0, i as int)),
        decreases found.len() - i,
    {
        let ghost pre = out.deep_view();
        let ghost prefix = found.deep_view().subrange(0, i + 1 as int);
        proof {
            assert(prefix.drop_last() =~= found.deep_view().subrange(0, i as int));
            assert(prefix.last() == found.deep_view()[i as int]);
        }
        match &found[i] {
            Option::Some(entry) => {
                out.push(entry.clone());
                proof {
                    assert(out.deep_view() =~= pre.push(found.deep_view()[i as int]->Some_0));
                    assert(out.deep_view() =~= spec_collected_edits(prefix));
                }
            },
            Option::None => {
                proof {
                    assert(out.deep_view() =~= spec_collected_edits(prefix));
                }
            },
        }
        i = i + 1;
    }
    proof {
        assert(found.deep_view().subrange(0, found@.len() as int) =~= found.deep_view());
    }
    out
}

/// The canonical wide record denormalized from a post row and its
/// resolved context.
///
/// The reply and repost context is all-empty together exactly when the
/// post has no such target or the target could not be resolved; when the
/// target resolved, its text and content warning are snapshotted as the
/// target stored them (an absent text stays an absent text, never an
/// empty string). `has_poll` holds iff a poll snapshot is present. The
/// partitioning date is derived from the creation instant here, once.
pub open spec fn spec_denormalized(
    row: PostRowV,
    reply: Option<PostRowV>,
    renote: Option<PostRowV>,
    files: Seq<FileRefV>,
    reply_files: Seq<FileRefV>,
    renote_files: Seq<FileRefV>,
    poll: Option<PollSnapshotV>,
    edits: Seq<EditHistoryEntryV>,
) -> PostRecordV {
    PostRecordV {
        created_at_date: spec_day_of(row.created_at) as i64,
        created_at: row.created_at,
        id: row.id,
        visibility: row.visibility,
        content: row.text,
        name: row.name,
        cw: row.cw,
        local_only: row.local_only,
        renote_count: row.renote_count,
        replies_count: row.replies_count,
        uri: row.uri,
        url: row.url,
        score: row.score,
        files,
        visible_user_ids: row.visible_user_ids,
        mentions: row.mentions,
        mentioned_remote_users: row.mentioned_remote_users,
        emojis: row.emojis,
        tags: row.tags,
        has_poll: poll is Some,
        poll,
        thread_id: row.thread_id,
        channel_id: row.channel_id,
        user_id: row.user_id,
        user_host: row.user_host,
        reply_id: if reply is Some { row.reply_id } else { None },
        reply_user_id: if reply is Some { row.reply_user_id } else { None },
        reply_user_host: if reply is Some { row.reply_user_host } else { None },
        reply_content: match reply { Some(t) => t.text, None => None },
        reply_cw: match reply { Some(t) => t.cw, None => None },
        reply_files: if reply is Some { reply_files } else { Seq::empty() },
        renote_id: if renote is Some { row.renote_id } else { None },
        renote_user_id: if renote is Some { row.renote_user_id } else { None },
        renote_user_host: if renote is Some { row.renote_user_host } else { None },
        renote_content: match renote { Some(t) => t.text, None => None },
        renote_cw: match renote { Some(t) => t.cw, None => None },
        renote_files: if renote is Some { renote_files } else { Seq::empty() },
        reactions: spec_tally(row.reactions),
        note_edit: edits,
        updated_at: row.updated_at,
    }
}

/// Builds the canonical wide record for one post. Pure merge: the post
/// row, the resolved reply and repost rows (absent when the post has no
/// target or the target is gone), the attachments resolved for all
/// three, the poll snapshot and the collected edit history.
pub fn denormalize(
    row: PostRow,
    reply: Option<PostRow>,
    renote: Option<PostRow>,
    files: Vec<FileRef>,
    reply_files: Vec<FileRef>,
    renote_files: Vec<FileRef>,
    poll: Option<PollSnapshot>,
    edits: Vec<EditHistoryEntry>,
) -> (r: PostRecord)
    ensures
        r@ == spec_denormalized(
            row@,
            reply.deep_view(),
            renote.deep_view(),
            files.deep_view(),
            reply_files.deep_view(),
            renote_files.deep_view(),
            poll.deep_view(),
            edits.deep_view(),
        ),
{
    let ghost spec_result = spec_denormalized(
        row@,
        reply.deep_view(),
        renote.deep_view(),
        files.deep_view(),
        reply_files.deep_view(),
        renote_files.deep_view(),
        poll.deep_view(),
        edits.deep_view(),
    );
    let created_at_date = day_of_millis(row.created_at);
    let reactions = reaction_tally(&row.reactions);
    let has_poll = poll.is_some();

    let (reply_id, reply_user_id, reply_user_host, reply_content, reply_cw, reply_files) =
        match reply {
            Option::Some(target) => (
                row.reply_id,
                row.reply_user_id,
                row.reply_user_host,
                target.text,
                target.cw,
                reply_files,
            ),
            Option::None => (
                Option::None,
                Option::None,
                Option::None,
                Option::None,
                Option::None,
                Vec::new(),
            ),
        };
    let (renote_id, renote_user_id, renote_user_host, renote_content, renote_cw, renote_files) =
        match renote {
            Option::Some(target) => (
                row.renote_id,
                row.renote_user_id,
                row.renote_user_host,
                target.text,
                target.cw,
                renote_files,
            ),
            Option::None => (
                Option::None,
                Option::None,
                Option::None,
                Option::None,
                Option::None,
                Vec::new(),
            ),
        };

    let r = PostRecord {
        created_at_date,
        created_at: row.created_at,
        id: row.id,
        visibility: row.visibility,
        content: row.text,
        name: row.name,
        cw: row.cw,
        local_only: row.local_only,
        renote_count: row.renote_count,
        replies_count: row.replies_count,
        uri: row.uri,
        url: row.url,
        score: row.score,
        files,
        visible_user_ids: row.visible_user_ids,
        mentions: row.mentions,
        mentioned_remote_users: row.mentioned_remote_users,
        emojis: row.emojis,
        tags: row.tags,
        has_poll,
        poll,
        thread_id: row.thread_id,
        channel_id: row.channel_id,
        user_id: row.user_id,
        user_host: row.user_host,
        reply_id,
        reply_user_id,
        reply_user_host,
        reply_content,
        reply_cw,
        reply_files,
        renote_id,
        renote_user_id,
        renote_user_host,
        renote_content,
        renote_cw,
        renote_files,
        reactions,
        note_edit: edits,
        updated_at: row.updated_at,
    };
    proof {
        assert(r@ =~= spec_result);
    }
    r
}

/// Builds the denormalized reaction record for one source reaction row:
/// every field carried over as it stands.
pub fn reaction_record(row: ReactionRow) -> (r: ReactionRecord)
    ensures
        r@ == (ReactionRecordV {
            id: row@.id,
            note_id: row@.note_id,
            user_id: row@.user_id,
            reaction: row@.reaction,
            created_at: row@.created_at,
        }),
{
    let r = ReactionRecord {
        id: row.id,
        note_id: row.note_id,
        user_id: row.user_id,
        reaction: row.reaction,
        created_at: row.created_at,
    };
    proof {
        assert(r@ =~= ReactionRecordV {
            id: r.id@,
            note_id: r.note_id@,
            user_id: r.user_id@,
            reaction: r.reaction@,
            created_at: r.created_at,
        });
    }
    r
}

} // verus!
