//! The denormalized wide records the migration writes: the canonical
//! post record, its per-follower timeline copy, and the reaction record.

use vstd::prelude::*;

use crate::model::{clone_files, clone_opt_string, FileRef, FileRefV};

verus! {

/// One entry of a record's inline reaction tally: a raw reaction key
/// and its count, already coerced to an integer.
#[derive(Clone, Debug, PartialEq)]
pub struct ReactionCount {
    pub key: String,
    pub count: i32,
}

#[verifier::ext_equal]
pub struct ReactionCountV {
    pub key: Seq<char>,
    pub count: i32,
}

impl View for ReactionCount {
    type V = ReactionCountV;

    open spec fn view(&self) -> ReactionCountV {
        ReactionCountV { key: self.key@, count: self.count }
    }
}

impl DeepView for ReactionCount {
    type V = ReactionCountV;

    open spec fn deep_view(&self) -> ReactionCountV {
        self.view()
    }
}

/// One choice of a poll snapshot: a 1-based index and its label.
#[derive(Clone, Debug, PartialEq)]
pub struct PollChoice {
    pub index: i32,
    pub label: String,
}

#[verifier::ext_equal]
pub struct PollChoiceV {
    pub index: i32,
    pub label: Seq<char>,
}

impl View for PollChoice {
    type V = PollChoiceV;

    open spec fn view(&self) -> PollChoiceV {
        PollChoiceV { index: self.index, label: self.label@ }
    }
}

impl DeepView for PollChoice {
    type V = PollChoiceV;

    open spec fn deep_view(&self) -> PollChoiceV {
        self.view()
    }
}

/// The poll snapshot inlined into a record; present iff the source post
/// has a poll row.
#[derive(Debug, PartialEq)]
pub struct PollSnapshot {
    pub expires_at: Option<i64>,
    pub multiple: bool,
    pub choices: Vec<PollChoice>,
}

#[verifier::ext_equal]
pub struct PollSnapshotV {
    pub expires_at: Option<i64>,
    pub multiple: bool,
    pub choices: Seq<PollChoiceV>,
}

impl View for PollSnapshot {
    type V = PollSnapshotV;

    open spec fn view(&self) -> PollSnapshotV {
        PollSnapshotV {
            expires_at: self.expires_at,
            multiple: self.multiple,
            choices: self.choices.deep_view(),
        }
    }
}

impl DeepView for PollSnapshot {
    type V = PollSnapshotV;

    open spec fn deep_view(&self) -> PollSnapshotV {
        self.view()
    }
}

impl Clone for PollSnapshot {
    fn clone(&self) -> (res: Self)
        ensures
            res@ == self@,
    {
        let res = PollSnapshot {
            expires_at: self.expires_at,
            multiple: self.multiple,
            choices: clone_choices(&self.choices),
        };
        proof {
            assert(res@ =~= self@);
        }
        res
    }
}

/// Clones a poll's choice list; the copy carries the same content.
pub fn clone_choices(v: &Vec<PollChoice>) -> (res: Vec<PollChoice>)
    ensures
        res.deep_view() == v.deep_view(),
{
    let mut out: Vec<PollChoice> = Vec::new();
    let mut i: usize = 0;
    while i < v.len()
        invariant
            i <= v.len(),
            out.deep_view() == v.deep_view().subrange(0, i as int),
        decreases v.len() - i,
    {
        let ghost pre = out.deep_view();
        out.push(PollChoice { index: v[i].index, label: v[i].label.clone() });
        proof {
            assert(out.deep_view() =~= pre.push(v.deep_view()[i as int]));
            assert(out.deep_view() =~= v.deep_view().subrange(0, i + 1 as int));
        }
        i = i + 1;
    }
    proof {
        assert(out.deep_view() =~= v.deep_view());
    }
    out
}

/// Clones a record's reaction tally; the copy carries the same content.
pub fn clone_reactions(v: &Vec<ReactionCount>) -> (res: Vec<ReactionCount>)
    ensures
        res.deep_view() == v.deep_view(),
{
    let mut out: Vec<ReactionCount> = Vec::new();
    let mut i: usize = 0;
    while i < v.len()
        invariant
            i <= v.len(),
            out.deep_view() == v.deep_view().subrange(0, i as int),
        decreases v.len() - i,
    {
        let ghost pre = out.deep_view();
        out.push(ReactionCount { key: v[i].key.clone(), count: v[i].count });
        proof {
            assert(out.deep_view() =~= pre.push(v.deep_view()[i as int]));
            assert(out.deep_view() =~= v.deep_view().subrange(0, i + 1 as int));
        }
        i = i + 1;
    }
    proof {
        assert(out.deep_view() =~= v.deep_view());
    }
    out
}

/// Clones an optional poll snapshot; the copy carries the same content.
pub fn clone_opt_poll(p: &Option<PollSnapshot>) -> (res: Option<PollSnapshot>)
    ensures
        res.deep_view() == p.deep_view(),
{
    match p {
        Option::None => Option::None,
        Option::Some(snapshot) => Option::Some(snapshot.clone()),
    }
}

/// One entry of a record's inlined edit history.
#[derive(Debug, PartialEq)]
pub struct EditHistoryEntry {
    pub content: Option<String>,
    pub cw: Option<String>,
    pub files: Vec<FileRef>,
    pub updated_at: i64,
}

#[verifier::ext_equal]
pub struct EditHistoryEntryV {
    pub content: Option<Seq<char>>,
    pub cw: Option<Seq<char>>,
    pub files: Seq<FileRefV>,
    pub updated_at: i64,
}

impl View for EditHistoryEntry {
    type V = EditHistoryEntryV;

    open spec fn view(&self) -> EditHistoryEntryV {
        EditHistoryEntryV {
            content: self.content.deep_view(),
            cw: self.cw.deep_view(),
            files: self.files.deep_view(),
            updated_at: self.updated_at,
        }
    }
}

impl DeepView for EditHistoryEntry {
    type V = EditHistoryEntryV;

    open spec fn deep_view(&self) -> EditHistoryEntryV {
        self.view()
    }
}

impl Clone for EditHistoryEntry {
    fn clone(&self) -> (res: Self)
        ensures
            res@ == self@,
    {
        let res = EditHistoryEntry {
            content: clone_opt_string(&self.content),
            cw: clone_opt_string(&self.cw),
            files: clone_files(&self.files),
            updated_at: self.updated_at,
        };
        proof {
            assert(res@ =~= self@);
        }
        res
    }
}

/// Clones a record's edit-history list; the copy carries the same content.
pub fn clone_edits(v: &Vec<EditHistoryEntry>) -> (res: Vec<EditHistoryEntry>)
    ensures
        res.deep_view() == v.deep_view(),
{
    let mut out: Vec<EditHistoryEntry> = Vec::new();
    let mut i: usize = 0;
    while i < v.len()
        invariant
            i <= v.len(),
            out.deep_view() == v.deep_view().subrange(0, i as int),
        decreases v.len() - i,
    {
        let ghost pre = out.deep_view();
        out.push(v[i].clone());
        proof {
            assert(out.deep_view() =~= pre.push(v.deep_view()[i as int]));
            assert(out.deep_view() =~= v.deep_view().subrange(0, i + 1 as int));
        }
        i = i + 1;
    }
    proof {
        assert(out.deep_view() =~= v.deep_view());
    }
    out
}

/// The canonical wide post record: one self-contained row per source
/// post, with reply and repost context, attachments, poll snapshot,
/// reaction tally and edit history inlined at build time.
///
/// `created_at_date` is the creation instant truncated to calendar-day
/// resolution in UTC, counted in days since the Unix epoch; the
/// destination partitions time-keyed tables by it.
#[derive(Clone, Debug, PartialEq)]
pub struct PostRecord {
    pub created_at_date: i64,
    pub created_at: i64,
    pub id: String,
    pub visibility: String,
    pub content: Option<String>,
    pub name: Option<String>,
    pub cw: Option<String>,
    pub local_only: bool,
    pub renote_count: i32,
    pub replies_count: i32,
    pub uri: Option<String>,
    pub url: Option<String>,
    pub score: i32,
    pub files: Vec<FileRef>,
    pub visible_user_ids: Vec<String>,
    pub mentions: Vec<String>,
    pub mentioned_remote_users: String,
    pub emojis: Vec<String>,
    pub tags: Vec<String>,
    pub has_poll: bool,
    pub poll: Option<PollSnapshot>,
    pub thread_id: Option<String>,
    pub channel_id: Option<String>,
    pub user_id: String,
    pub user_host: Option<String>,
    pub reply_id: Option<String>,
    pub reply_user_id: Option<String>,
    pub reply_user_host: Option<String>,
    pub reply_content: Option<String>,
    pub reply_cw: Option<String>,
    pub reply_files: Vec<FileRef>,
    pub renote_id: Option<String>,
    pub renote_user_id: Option<String>,
    pub renote_user_host: Option<String>,
    pub renote_content: Option<String>,
    pub renote_cw: Option<String>,
    pub renote_files: Vec<FileRef>,
    pub reactions: Vec<ReactionCount>,
    pub note_edit: Vec<EditHistoryEntry>,
    pub updated_at: Option<i64>,
}

#[verifier::ext_equal]
pub struct PostRecordV {
    pub created_at_date: i64,
    pub created_at: i64,
    pub id: Seq<char>,
    pub visibility: Seq<char>,
    pub content: Option<Seq<char>>,
    pub name: Option<Seq<char>>,
    pub cw: Option<Seq<char>>,
    pub local_only: bool,
    pub renote_count: i32,
    pub replies_count: i32,
    pub uri: Option<Seq<char>>,
    pub url: Option<Seq<char>>,
    pub score: i32,
    pub files: Seq<FileRefV>,
    pub visible_user_ids: Seq<Seq<char>>,
    pub mentions: Seq<Seq<char>>,
    pub mentioned_remote_users: Seq<char>,
    pub emojis: Seq<Seq<char>>,
    pub tags: Seq<Seq<char>>,
    pub has_poll: bool,
    pub poll: Option<PollSnapshotV>,
    pub thread_id: Option<Seq<char>>,
    pub channel_id: Option<Seq<char>>,
    pub user_id: Seq<char>,
    pub user_host: Option<Seq<char>>,
    pub reply_id: Option<Seq<char>>,
    pub reply_user_id: Option<Seq<char>>,
    pub reply_user_host: Option<Seq<char>>,
    pub reply_content: Option<Seq<char>>,
    pub reply_cw: Option<Seq<char>>,
    pub reply_files: Seq<FileRefV>,
    pub renote_id: Option<Seq<char>>,
    pub renote_user_id: Option<Seq<char>>,
    pub renote_user_host: Option<Seq<char>>,
    pub renote_content: Option<Seq<char>>,
    pub renote_cw: Option<Seq<char>>,
    pub renote_files: Seq<FileRefV>,
    pub reactions: Seq<ReactionCountV>,
    pub note_edit: Seq<EditHistoryEntryV>,
    pub updated_at: Option<i64>,
}

impl View for PostRecord {
    type V = PostRecordV;

    open spec fn view(&self) -> PostRecordV {
        PostRecordV {
            created_at_date: self.created_at_date,
            created_at: self.created_at,
            id: self.id@,
            visibility: self.visibility@,
            content: self.content.deep_view(),
            name: self.name.deep_view(),
            cw: self.cw.deep_view(),
            local_only: self.local_only,
            renote_count: self.renote_count,
            replies_count: self.replies_count,
            uri: self.uri.deep_view(),
            url: self.url.deep_view(),
            score: self.score,
            files: self.files.deep_view(),
            visible_user_ids: self.visible_user_ids.deep_view(),
            mentions: self.mentions.deep_view(),
            mentioned_remote_users: self.mentioned_remote_users@,
            emojis: self.emojis.deep_view(),
            tags: self.tags.deep_view(),
            has_poll: self.has_poll,
            poll: self.poll.deep_view(),
            thread_id: self.thread_id.deep_view(),
            channel_id: self.channel_id.deep_view(),
            user_id: self.user_id@,
            user_host: self.user_host.deep_view(),
            reply_id: self.reply_id.deep_view(),
            reply_user_id: self.reply_user_id.deep_view(),
            reply_user_host: self.reply_user_host.deep_view(),
            reply_content: self.reply_content.deep_view(),
            reply_cw: self.reply_cw.deep_view(),
            reply_files: self.reply_files.deep_view(),
            renote_id: self.renote_id.deep_view(),
            renote_user_id: self.renote_user_id.deep_view(),
            renote_user_host: self.renote_user_host.deep_view(),
            renote_content: self.renote_content.deep_view(),
            renote_cw: self.renote_cw.deep_view(),
            renote_files: self.renote_files.deep_view(),
            reactions: self.reactions.deep_view(),
            note_edit: self.note_edit.deep_view(),
            updated_at: self.updated_at,
        }
    }
}

impl DeepView for PostRecord {
    type V = PostRecordV;

    open spec fn deep_view(&self) -> PostRecordV {
        self.view()
    }
}

/// A per-follower home-timeline copy: the canonical record's full field
/// set, preceded by the feed owner the copy belongs to. The payload is
/// copied from the canonical record at build time, the derived partition
/// date included — nothing is recomputed, so the two can never drift.
#[derive(Clone, Debug, PartialEq)]
pub struct TimelineEntry {
    pub feed_user_id: String,
    pub created_at_date: i64,
    pub created_at: i64,
    pub id: String,
    pub visibility: String,
    pub content: Option<String>,
    pub name: Option<String>,
    pub cw: Option<String>,
    pub local_only: bool,
    pub renote_count: i32,
    pub replies_count: i32,
    pub uri: Option<String>,
    pub url: Option<String>,
    pub score: i32,
    pub files: Vec<FileRef>,
    pub visible_user_ids: Vec<String>,
    pub mentions: Vec<String>,
    pub mentioned_remote_users: String,
    pub emojis: Vec<String>,
    pub tags: Vec<String>,
    pub has_poll: bool,
    pub poll: Option<PollSnapshot>,
    pub thread_id: Option<String>,
    pub channel_id: Option<String>,
    pub user_id: String,
    pub user_host: Option<String>,
    pub reply_id: Option<String>,
    pub reply_user_id: Option<String>,
    pub reply_user_host: Option<String>,
    pub reply_content: Option<String>,
    pub reply_cw: Option<String>,
    pub reply_files: Vec<FileRef>,
    pub renote_id: Option<String>,
    pub renote_user_id: Option<String>,
    pub renote_user_host: Option<String>,
    pub renote_content: Option<String>,
    pub renote_cw: Option<String>,
    pub renote_files: Vec<FileRef>,
    pub reactions: Vec<ReactionCount>,
    pub note_edit: Vec<EditHistoryEntry>,
    pub updated_at: Option<i64>,
}

#[verifier::ext_equal]
pub struct TimelineEntryV {
    pub feed_user_id: Seq<char>,
    pub payload: PostRecordV,
}

impl View for TimelineEntry {
    type V = TimelineEntryV;

    open spec fn view(&self) -> TimelineEntryV {
        TimelineEntryV {
            feed_user_id: self.feed_user_id@,
            payload: PostRecordV {
                created_at_date: self.created_at_date,
                created_at: self.created_at,
                id: self.id@,
                visibility: self.visibility@,
                content: self.content.deep_view(),
                name: self.name.deep_view(),
                cw: self.cw.deep_view(),
                local_only: self.local_only,
                renote_count: self.renote_count,
                replies_count: self.replies_count,
                uri: self.uri.deep_view(),
                url: self.url.deep_view(),
                score: self.score,
                files: self.files.deep_view(),
                visible_user_ids: self.visible_user_ids.deep_view(),
                mentions: self.mentions.deep_view(),
                mentioned_remote_users: self.mentioned_remote_users@,
                emojis: self.emojis.deep_view(),
                tags: self.tags.deep_view(),
                has_poll: self.has_poll,
                poll: self.poll.deep_view(),
                thread_id: self.thread_id.deep_view(),
                channel_id: self.channel_id.deep_view(),
                user_id: self.user_id@,
                user_host: self.user_host.deep_view(),
                reply_id: self.reply_id.deep_view(),
                reply_user_id: self.reply_user_id.deep_view(),
                reply_user_host: self.reply_user_host.deep_view(),
                reply_content: self.reply_content.deep_view(),
                reply_cw: self.reply_cw.deep_view(),
                reply_files: self.reply_files.deep_view(),
                renote_id: self.renote_id.deep_view(),
                renote_user_id: self.renote_user_id.deep_view(),
                renote_user_host: self.renote_user_host.deep_view(),
                renote_content: self.renote_content.deep_view(),
                renote_cw: self.renote_cw.deep_view(),
                renote_files: self.renote_files.deep_view(),
                reactions: self.reactions.deep_view(),
                note_edit: self.note_edit.deep_view(),
                updated_at: self.updated_at,
            },
        }
    }
}

impl DeepView for TimelineEntry {
    type V = TimelineEntryV;

    open spec fn deep_view(&self) -> TimelineEntryV {
        self.view()
    }
}

/// The denormalized reaction record; its fields come straight from the
/// source reaction row.
#[derive(Clone, Debug, PartialEq)]
pub struct ReactionRecord {
    pub id: String,
    pub note_id: String,
    pub user_id: String,
    pub reaction: String,
    pub created_at: i64,
}

#[verifier::ext_equal]
pub struct ReactionRecordV {
    pub id: Seq<char>,
    pub note_id: Seq<char>,
    pub user_id: Seq<char>,
    pub reaction: Seq<char>,
    pub created_at: i64,
}

impl View for ReactionRecord {
    type V = ReactionRecordV;

    open spec fn view(&self) -> ReactionRecordV {
        ReactionRecordV {
            id: self.id@,
            note_id: self.note_id@,
            user_id: self.user_id@,
            reaction: self.reaction@,
            created_at: self.created_at,
        }
    }
}

impl DeepView for ReactionRecord {
    type V = ReactionRecordV;

    open spec fn deep_view(&self) -> ReactionRecordV {
        self.view()
    }
}

} // verus!
