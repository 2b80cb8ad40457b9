//! Data model of the migration: source rows as the relational store hands
//! them over, and the denormalized wide records the column-family store
//! receives. Every type has a spec-level view describing its full content,
//! so that contracts can pin records down field by field.

use vstd::prelude::*;

verus! {

/// A scalar taken from an opaque stored document (a JSON-like bag):
/// either an integer, or any other shape (text, boolean, fraction,
/// null, nested value). The migration never fails on a non-integer;
/// it resolves it to an absent or zero value instead.
#[derive(Clone, Copy, Debug, PartialEq, Eq, Structural)]
pub enum StoredValue {
    Int(i64),
    Other,
}

/// One key/value entry of an opaque stored document.
#[derive(Clone, Debug, PartialEq)]
pub struct StoredEntry {
    pub key: String,
    pub value: StoredValue,
}

#[verifier::ext_equal]
pub struct StoredEntryV {
    pub key: Seq<char>,
    pub value: StoredValue,
}

impl View for StoredEntry {
    type V = StoredEntryV;

    open spec fn view(&self) -> StoredEntryV {
        StoredEntryV { key: self.key@, value: self.value }
    }
}

impl DeepView for StoredEntry {
    type V = StoredEntryV;

    open spec fn deep_view(&self) -> StoredEntryV {
        self.view()
    }
}

/// The reaction data stored inline on a post row: either not an object
/// at all (resolved to an empty tally), or a list of key/count entries.
#[derive(Clone, Debug, PartialEq)]
pub enum StoredReactions {
    NotAnObject,
    Object(Vec<StoredEntry>),
}

#[verifier::ext_equal]
pub enum StoredReactionsV {
    NotAnObject,
    Object(Seq<StoredEntryV>),
}

impl View for StoredReactions {
    type V = StoredReactionsV;

    open spec fn view(&self) -> StoredReactionsV {
        match self {
            StoredReactions::NotAnObject => StoredReactionsV::NotAnObject,
            StoredReactions::Object(entries) => StoredReactionsV::Object(entries.deep_view()),
        }
    }
}

impl DeepView for StoredReactions {
    type V = StoredReactionsV;

    open spec fn deep_view(&self) -> StoredReactionsV {
        self.view()
    }
}

/// A source post row, as the relational store yields it. Instants are
/// milliseconds since the Unix epoch, UTC.
#[derive(Clone, Debug, PartialEq)]
pub struct PostRow {
    pub id: String,
    pub created_at: i64,
    pub user_id: String,
    pub user_host: Option<String>,
    pub visibility: String,
    pub text: Option<String>,
    pub name: Option<String>,
    pub cw: Option<String>,
    pub local_only: bool,
    pub renote_count: i32,
    pub replies_count: i32,
    pub uri: Option<String>,
    pub url: Option<String>,
    pub score: i32,
    pub file_ids: Vec<String>,
    pub visible_user_ids: Vec<String>,
    pub mentions: Vec<String>,
    pub mentioned_remote_users: String,
    pub emojis: Vec<String>,
    pub tags: Vec<String>,
    pub thread_id: Option<String>,
    pub channel_id: Option<String>,
    pub reply_id: Option<String>,
    pub reply_user_id: Option<String>,
    pub reply_user_host: Option<String>,
    pub renote_id: Option<String>,
    pub renote_user_id: Option<String>,
    pub renote_user_host: Option<String>,
    pub reactions: StoredReactions,
    pub updated_at: Option<i64>,
}

#[verifier::ext_equal]
pub struct PostRowV {
    pub id: Seq<char>,
    pub created_at: i64,
    pub user_id: Seq<char>,
    pub user_host: Option<Seq<char>>,
    pub visibility: Seq<char>,
    pub text: Option<Seq<char>>,
    pub name: Option<Seq<char>>,
    pub cw: Option<Seq<char>>,
    pub local_only: bool,
    pub renote_count: i32,
    pub replies_count: i32,
    pub uri: Option<Seq<char>>,
    pub url: Option<Seq<char>>,
    pub score: i32,
    pub file_ids: Seq<Seq<char>>,
    pub visible_user_ids: Seq<Seq<char>>,
    pub mentions: Seq<Seq<char>>,
    pub mentioned_remote_users: Seq<char>,
    pub emojis: Seq<Seq<char>>,
    pub tags: Seq<Seq<char>>,
    pub thread_id: Option<Seq<char>>,
    pub channel_id: Option<Seq<char>>,
    pub reply_id: Option<Seq<char>>,
    pub reply_user_id: Option<Seq<char>>,
    pub reply_user_host: Option<Seq<char>>,
    pub renote_id: Option<Seq<char>>,
    pub renote_user_id: Option<Seq<char>>,
    pub renote_user_host: Option<Seq<char>>,
    pub reactions: StoredReactionsV,
    pub updated_at: Option<i64>,
}

impl View for PostRow {
    type V = PostRowV;

    open spec fn view(&self) -> PostRowV {
        PostRowV {
            id: self.id@,
            created_at: self.created_at,
            user_id: self.user_id@,
            user_host: self.user_host.deep_view(),
            visibility: self.visibility@,
            text: self.text.deep_view(),
            name: self.name.deep_view(),
            cw: self.cw.deep_view(),
            local_only: self.local_only,
            renote_count: self.renote_count,
            replies_count: self.replies_count,
            uri: self.uri.deep_view(),
            url: self.url.deep_view(),
            score: self.score,
            file_ids: self.file_ids.deep_view(),
            visible_user_ids: self.visible_user_ids.deep_view(),
            mentions: self.mentions.deep_view(),
            mentioned_remote_users: self.mentioned_remote_users@,
            emojis: self.emojis.deep_view(),
            tags: self.tags.deep_view(),
            thread_id: self.thread_id.deep_view(),
            channel_id: self.channel_id.deep_view(),
            reply_id: self.reply_id.deep_view(),
            reply_user_id: self.reply_user_id.deep_view(),
            reply_user_host: self.reply_user_host.deep_view(),
            renote_id: self.renote_id.deep_view(),
            renote_user_id: self.renote_user_id.deep_view(),
            renote_user_host: self.renote_user_host.deep_view(),
            reactions: self.reactions@,
            updated_at: self.updated_at,
        }
    }
}

impl DeepView for PostRow {
    type V = PostRowV;

    open spec fn deep_view(&self) -> PostRowV {
        self.view()
    }
}

/// A source attachment row, with its opaque properties bag still unparsed.
#[derive(Clone, Debug, PartialEq)]
pub struct FileRow {
    pub id: String,
    pub media_type: String,
    pub created_at: i64,
    pub name: String,
    pub comment: Option<String>,
    pub blurhash: Option<String>,
    pub url: String,
    pub thumbnail_url: Option<String>,
    pub is_sensitive: bool,
    pub is_link: bool,
    pub md5: String,
    pub size: i32,
    pub properties: Vec<StoredEntry>,
}

#[verifier::ext_equal]
pub struct FileRowV {
    pub id: Seq<char>,
    pub media_type: Seq<char>,
    pub created_at: i64,
    pub name: Seq<char>,
    pub comment: Option<Seq<char>>,
    pub blurhash: Option<Seq<char>>,
    pub url: Seq<char>,
    pub thumbnail_url: Option<Seq<char>>,
    pub is_sensitive: bool,
    pub is_link: bool,
    pub md5: Seq<char>,
    pub size: i32,
    pub properties: Seq<StoredEntryV>,
}

impl View for FileRow {
    type V = FileRowV;

    open spec fn view(&self) -> FileRowV {
        FileRowV {
            id: self.id@,
            media_type: self.media_type@,
            created_at: self.created_at,
            name: self.name@,
            comment: self.comment.deep_view(),
            blurhash: self.blurhash.deep_view(),
            url: self.url@,
            thumbnail_url: self.thumbnail_url.deep_view(),
            is_sensitive: self.is_sensitive,
            is_link: self.is_link,
            md5: self.md5@,
            size: self.size,
            properties: self.properties.deep_view(),
        }
    }
}

impl DeepView for FileRow {
    type V = FileRowV;

    open spec fn deep_view(&self) -> FileRowV {
        self.view()
    }
}

/// A source poll row related to one post. Choice labels are listed in
/// stored order; the expiry instant is milliseconds since the Unix epoch.
#[derive(Clone, Debug, PartialEq)]
pub struct PollRow {
    pub expires_at: Option<i64>,
    pub multiple: bool,
    pub choices: Vec<String>,
}

#[verifier::ext_equal]
pub struct PollRowV {
    pub expires_at: Option<i64>,
    pub multiple: bool,
    pub choices: Seq<Seq<char>>,
}

impl View for PollRow {
    type V = PollRowV;

    open spec fn view(&self) -> PollRowV {
        PollRowV {
            expires_at: self.expires_at,
            multiple: self.multiple,
            choices: self.choices.deep_view(),
        }
    }
}

impl DeepView for PollRow {
    type V = PollRowV;

    open spec fn deep_view(&self) -> PollRowV {
        self.view()
    }
}

/// A source edit-history row related to one post.
#[derive(Clone, Debug, PartialEq)]
pub struct EditRow {
    pub text: Option<String>,
    pub cw: Option<String>,
    pub file_ids: Vec<String>,
    pub updated_at: i64,
}

#[verifier::ext_equal]
pub struct EditRowV {
    pub text: Option<Seq<char>>,
    pub cw: Option<Seq<char>>,
    pub file_ids: Seq<Seq<char>>,
    pub updated_at: i64,
}

impl View for EditRow {
    type V = EditRowV;

    open spec fn view(&self) -> EditRowV {
        EditRowV {
            text: self.text.deep_view(),
            cw: self.cw.deep_view(),
            file_ids: self.file_ids.deep_view(),
            updated_at: self.updated_at,
        }
    }
}

impl DeepView for EditRow {
    type V = EditRowV;

    open spec fn deep_view(&self) -> EditRowV {
        self.view()
    }
}

/// One follow edge of a post's author: who follows, and from which host.
/// A null host means the follower is local to the migration target.
#[derive(Clone, Debug, PartialEq)]
pub struct FollowEdge {
    pub follower_id: String,
    pub follower_host: Option<String>,
}

#[verifier::ext_equal]
pub struct FollowEdgeV {
    pub follower_id: Seq<char>,
    pub follower_host: Option<Seq<char>>,
}

impl View for FollowEdge {
    type V = FollowEdgeV;

    open spec fn view(&self) -> FollowEdgeV {
        FollowEdgeV {
            follower_id: self.follower_id@,
            follower_host: self.follower_host.deep_view(),
        }
    }
}

impl DeepView for FollowEdge {
    type V = FollowEdgeV;

    open spec fn deep_view(&self) -> FollowEdgeV {
        self.view()
    }
}

/// A source reaction row; independent of the post stream.
#[derive(Clone, Debug, PartialEq)]
pub struct ReactionRow {
    pub id: String,
    pub note_id: String,
    pub user_id: String,
    pub reaction: String,
    pub created_at: i64,
}

#[verifier::ext_equal]
pub struct ReactionRowV {
    pub id: Seq<char>,
    pub note_id: Seq<char>,
    pub user_id: Seq<char>,
    pub reaction: Seq<char>,
    pub created_at: i64,
}

impl View for ReactionRow {
    type V = ReactionRowV;

    open spec fn view(&self) -> ReactionRowV {
        ReactionRowV {
            id: self.id@,
            note_id: self.note_id@,
            user_id: self.user_id@,
            reaction: self.reaction@,
            created_at: self.created_at,
        }
    }
}

impl DeepView for ReactionRow {
    type V = ReactionRowV;

    open spec fn deep_view(&self) -> ReactionRowV {
        self.view()
    }
}

/// A denormalized attachment, as the wide records carry it. Width and
/// height are parsed out of the source row's properties bag; absent or
/// non-integer entries resolve to `None`, never to an error.
#[derive(Debug, PartialEq)]
pub struct FileRef {
    pub id: String,
    pub media_type: String,
    pub created_at: i64,
    pub name: String,
    pub comment: Option<String>,
    pub blurhash: Option<String>,
    pub url: String,
    pub thumbnail_url: Option<String>,
    pub is_sensitive: bool,
    pub is_link: bool,
    pub md5: String,
    pub size: i32,
    pub width: Option<i32>,
    pub height: Option<i32>,
}

#[verifier::ext_equal]
pub struct FileRefV {
    pub id: Seq<char>,
    pub media_type: Seq<char>,
    pub created_at: i64,
    pub name: Seq<char>,
    pub comment: Option<Seq<char>>,
    pub blurhash: Option<Seq<char>>,
    pub url: Seq<char>,
    pub thumbnail_url: Option<Seq<char>>,
    pub is_sensitive: bool,
    pub is_link: bool,
    pub md5: Seq<char>,
    pub size: i32,
    pub width: Option<i32>,
    pub height: Option<i32>,
}

impl View for FileRef {
    type V = FileRefV;

    open spec fn view(&self) -> FileRefV {
        FileRefV {
            id: self.id@,
            media_type: self.media_type@,
            created_at: self.created_at,
            name: self.name@,
            comment: self.comment.deep_view(),
            blurhash: self.blurhash.deep_view(),
            url: self.url@,
            thumbnail_url: self.thumbnail_url.deep_view(),
            is_sensitive: self.is_sensitive,
            is_link: self.is_link,
            md5: self.md5@,
            size: self.size,
            width: self.width,
            height: self.height,
        }
    }
}

impl DeepView for FileRef {
    type V = FileRefV;

    open spec fn deep_view(&self) -> FileRefV {
        self.view()
    }
}

impl Clone for FileRef {
    fn clone(&self) -> (res: Self)
        ensures
            res@ == self@,
    {
        FileRef {
            id: self.id.clone(),
            media_type: self.media_type.clone(),
            created_at: self.created_at,
            name: self.name.clone(),
            comment: clone_opt_string(&self.comment),
            blurhash: clone_opt_string(&self.blurhash),
            url: self.url.clone(),
            thumbnail_url: clone_opt_string(&self.thumbnail_url),
            is_sensitive: self.is_sensitive,
            is_link: self.is_link,
            md5: self.md5.clone(),
            size: self.size,
            width: self.width,
            height: self.height,
        }
    }
}

/// Clones an optional string; the copy has the very same content.
pub fn clone_opt_string(s: &Option<String>) -> (res: Option<String>)
    ensures
        res == *s,
{
    match s {
        Option::None => Option::None,
        Option::Some(v) => Option::Some(v.clone()),
    }
}

/// Clones a list of strings; the copy holds the very same elements.
pub fn clone_strings(v: &Vec<String>) -> (res: Vec<String>)
    ensures
        res@ == v@,
{
    let mut out: Vec<String> = Vec::new();
    let mut i: usize = 0;
    while i < v.len()
        invariant
            i <= v.len(),
            out@ == v@.subrange(0, i as int),
        decreases v.len() - i,
    {
        out.push(v[i].clone());
        proof {
            assert(out@ =~= v@.subrange(0, i + 1 as int));
        }
        i = i + 1;
    }
    proof {
        assert(out@ =~= v@);
    }
    out
}

/// Clones a list of attachments; the copies carry the same content.
pub fn clone_files(v: &Vec<FileRef>) -> (res: Vec<FileRef>)
    ensures
        res.deep_view() == v.deep_view(),
{
    let mut out: Vec<FileRef> = Vec::new();
    let mut i: usize = 0;
    while i < v.len()
        invariant
            i <= v.len(),
            out.deep_view() == v.deep_view().subrange(0, i as int),
        decreases v.len() - i,
    {
        let ghost pre = out.deep_view();
        out.push(v[i].clone());
        proof {
            assert(out.deep_view() =~= pre.push(v.deep_view()[i as int]));
            assert(out.deep_view() =~= v.deep_view().subrange(0, i + 1 as int));
        }
        i = i + 1;
    }
    proof {
        assert(out.deep_view() =~= v.deep_view());
    }
    out
}

} // verus!
