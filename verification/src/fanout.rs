//! Follower resolution and timeline fan-out: the set of local followers
//! of a post's author, and one home-timeline copy of the canonical
//! record per local follower. Remote followers (a non-null follower
//! host) never receive a copy.

use vstd::prelude::*;

use crate::model::{clone_opt_string, clone_strings, clone_files, FollowEdge, FollowEdgeV};
use crate::records::{
    clone_edits, clone_opt_poll, clone_reactions, PostRecord, PostRecordV, TimelineEntry,
    TimelineEntryV,
};

verus! {

/// The local followers drawn from a post author's follow edges: the
/// follower ids of exactly those edges whose follower host is null, in
/// edge order. Duplicate edges are passed through as they stand; the
/// destination writes are idempotent overwrites, so duplicates are
/// harmless.
pub open spec fn spec_local_followers(edges: Seq<FollowEdgeV>) -> Seq<Seq<char>>
    decreases edges.len(),
{
    if edges.len() == 0 {
        Seq::empty()
    } else {
        spec_local_followers(edges.drop_last()) + (if edges.last().follower_host is None {
            seq![edges.last().follower_id]
        } else {
            Seq::empty()
        })
    }
}

/// Resolves the local followers of a post's author from the author's
/// follow edges.
pub fn local_followers(edges: &Vec<FollowEdge>) -> (r: Vec<String>)
    ensures
        r.deep_view() == spec_local_followers(edges.deep_view()),
{
    let mut out: Vec<String> = Vec::new();
    let mut i: usize = 0;
    proof {
        assert(edges.deep_view().subrange(0, 0) =~= Seq::<FollowEdgeV>::empty());
    }
    while i < edges.len()
        invariant
            i <= edges.len(),
            out.deep_view() == spec_local_followers(edges.deep_view().subrange(0, i as int)),
        decreases edges.len() - i,
    {
        let ghost prefix = edges.deep_view().subrange(0, i + 1 as int);
        proof {
            assert(prefix.drop_last() =~= edges.deep_view().subrange(0, i as int));
            assert(prefix.last() == edges.deep_view()[i as int]);
        }
        let ghost pre = out.deep_view();
        match &edges[i].follower_host {
            Option::None => {
                out.push(edges[i].follower_id.clone());
                proof {
                    assert(out.deep_view() =~= pre + seq![edges.deep_view()[i as int].follower_id]);
                    assert(out.deep_view() =~= spec_local_followers(prefix));
                }
            },
            Option::Some(_) => {
                proof {
                    assert(out.deep_view() =~= spec_local_followers(prefix));
                }
            },
        }
        i = i + 1;
    }
    proof {
        assert(edges.deep_view().subrange(0, edges@.len() as int) =~= edges.deep_view());
    }
    out
}

/// The timeline copy owed to one feed owner: the canonical record's
/// payload, byte for byte — the derived partition date included, copied
/// rather than recomputed — under the owner's feed key.
pub open spec fn spec_timeline(owner: Seq<char>, payload: PostRecordV) -> TimelineEntryV {
    TimelineEntryV { feed_user_id: owner, payload }
}

/// Builds the home-timeline copy of a canonical record for one feed
/// owner. Every payload field is copied from the record as it stands.
pub fn timeline_entry(rec: &PostRecord, owner: String) -> (t: TimelineEntry)
    ensures
        t@ == spec_timeline(owner@, rec@),
{
    let t = TimelineEntry {
        feed_user_id: owner,
        created_at_date: rec.created_at_date,
        created_at: rec.created_at,
        id: rec.id.clone(),
        visibility: rec.visibility.clone(),
        content: clone_opt_string(&rec.content),
        name: clone_opt_string(&rec.name),
        cw: clone_opt_string(&rec.cw),
        local_only: rec.local_only,
        renote_count: rec.renote_count,
        replies_count: rec.replies_count,
        uri: clone_opt_string(&rec.uri),
        url: clone_opt_string(&rec.url),
        score: rec.score,
        files: clone_files(&rec.files),
        visible_user_ids: clone_strings(&rec.visible_user_ids),
        mentions: clone_strings(&rec.mentions),
        mentioned_remote_users: rec.mentioned_remote_users.clone(),
        emojis: clone_strings(&rec.emojis),
        tags: clone_strings(&rec.tags),
        has_poll: rec.has_poll,
        poll: clone_opt_poll(&rec.poll),
        thread_id: clone_opt_string(&rec.thread_id),
        channel_id: clone_opt_string(&rec.channel_id),
        user_id: rec.user_id.clone(),
        user_host: clone_opt_string(&rec.user_host),
        reply_id: clone_opt_string(&rec.reply_id),
        reply_user_id: clone_opt_string(&rec.reply_user_id),
        reply_user_host: clone_opt_string(&rec.reply_user_host),
        reply_content: clone_opt_string(&rec.reply_content),
        reply_cw: clone_opt_string(&rec.reply_cw),
        reply_files: clone_files(&rec.reply_files),
        renote_id: clone_opt_string(&rec.renote_id),
        renote_user_id: clone_opt_string(&rec.renote_user_id),
        renote_user_host: clone_opt_string(&rec.renote_user_host),
        renote_content: clone_opt_string(&rec.renote_content),
        renote_cw: clone_opt_string(&rec.renote_cw),
        renote_files: clone_files(&rec.renote_files),
        reactions: clone_reactions(&rec.reactions),
        note_edit: clone_edits(&rec.note_edit),
        updated_at: rec.updated_at,
    };
    proof {
        assert(t@.payload =~= rec@);
        assert(t@ =~= spec_timeline(t.feed_user_id@, rec@));
    }
    t
}

/// The full fan-out of one canonical record: one timeline copy per
/// resolved feed owner, in owner order, each carrying the record's
/// payload unchanged.
pub open spec fn spec_fan_out(payload: PostRecordV, owners: Seq<Seq<char>>) -> Seq<TimelineEntryV> {
    Seq::new(owners.len(), |i: int| TimelineEntryV { feed_user_id: owners[i], payload })
}

/// Builds every timeline copy owed for one canonical record, one per
/// feed owner.
pub fn fan_out(rec: &PostRecord, owners: &Vec<String>) -> (r: Vec<TimelineEntry>)
    ensures
        r.deep_view() == spec_fan_out(rec@, owners.deep_view()),
{
    let mut out: Vec<TimelineEntry> = Vec::new();
    let mut i: usize = 0;
    while i < owners.len()
        invariant
            i <= owners.len(),
            out.deep_view() == spec_fan_out(rec@, owners.deep_view()).subrange(0, i as int),
        decreases owners.len() - i,
    {
        let ghost pre = out.deep_view();
        out.push(timeline_entry(rec, owners[i].clone()));
        proof {
            assert(out.deep_view() =~= pre.push(spec_fan_out(rec@, owners.deep_view())[i as int]));
            assert(out.deep_view() =~= spec_fan_out(rec@, owners.deep_view()).subrange(0, i + 1 as int));
        }
        i = i + 1;
    }
    proof {
        assert(out.deep_view() =~= spec_fan_out(rec@, owners.deep_view()));
    }
    out
}

/// An id is a resolved feed owner exactly when some follow edge carries
/// it with a null follower host.
pub proof fn lemma_local_followers_membership(edges: Seq<FollowEdgeV>, f: Seq<char>)
    ensures
        spec_local_followers(edges).contains(f) <==> exists|k: int|
            0 <= k < edges.len() && edges[k].follower_host is None && edges[k].follower_id == f,
    decreases edges.len(),
{
    if edges.len() == 0 {
    } else {
        let rest = edges.drop_last();
        let own_rest = spec_local_followers(rest);
        let own = spec_local_followers(edges);
        lemma_local_followers_membership(rest, f);
        if own.contains(f) {
            let i = choose|i: int| 0 <= i < own.len() && own[i] == f;
            if i < own_rest.len() {
                assert(own_rest[i] == f);
                assert(own_rest.contains(f));
                let k = choose|k: int|
                    0 <= k < rest.len() && rest[k].follower_host is None && rest[k].follower_id == f;
                assert(edges[k] == rest[k]);
            } else {
                assert(edges.last().follower_host is None && edges.last().follower_id == f);
                assert(edges[edges.len() - 1].follower_host is None
                    && edges[edges.len() - 1].follower_id == f);
            }
        }
        if exists|k: int|
            0 <= k < edges.len() && edges[k].follower_host is None && edges[k].follower_id == f {
            let k = choose|k: int|
                0 <= k < edges.len() && edges[k].follower_host is None && edges[k].follower_id == f;
            if k < edges.len() - 1 {
                assert(rest[k] == edges[k]);
                assert(own_rest.contains(f));
                let i = choose|i: int| 0 <= i < own_rest.len() && own_rest[i] == f;
                assert(own[i] == f);
                assert(own.contains(f));
            } else {
                assert(own.last() == f);
                assert(own.contains(f));
            }
        }
    }
}

/// When follow edges are unique per follower, no feed owner appears
/// twice in the resolved follower list.
pub proof fn lemma_local_followers_distinct(edges: Seq<FollowEdgeV>)
    requires
        forall|i: int, j: int|
            0 <= i < j < edges.len() ==> edges[i].follower_id != edges[j].follower_id,
    ensures
        ({
            let owners = spec_local_followers(edges);
            forall|i: int, j: int| 0 <= i < j < owners.len() ==> owners[i] != owners[j]
        }),
    decreases edges.len(),
{
    if edges.len() == 0 {
    } else {
        let rest = edges.drop_last();
        let own_rest = spec_local_followers(rest);
        let own = spec_local_followers(edges);
        assert(forall|i: int, j: int|
            0 <= i < j < rest.len() ==> rest[i].follower_id != rest[j].follower_id) by {
            assert(forall|i: int| 0 <= i < rest.len() ==> rest[i] == edges[i]);
        }
        lemma_local_followers_distinct(rest);
        if edges.last().follower_host is None {
            let last_id = edges.last().follower_id;
            assert(!own_rest.contains(last_id)) by {
                lemma_local_followers_membership(rest, last_id);
                if exists|k: int|
                    0 <= k < rest.len() && rest[k].follower_host is None
                    && rest[k].follower_id == last_id {
                    let k = choose|k: int|
                        0 <= k < rest.len() && rest[k].follower_host is None
                        && rest[k].follower_id == last_id;
                    assert(edges[k].follower_id == edges[edges.len() - 1].follower_id);
                    assert(false);
                }
            }
            assert forall|i: int, j: int| 0 <= i < j < own.len() implies own[i] != own[j] by {
                if j < own_rest.len() {
                    assert(own[i] == own_rest[i] && own[j] == own_rest[j]);
                } else {
                    assert(own[j] == last_id);
                    assert(own[i] == own_rest[i]);
                    assert(own_rest.contains(own_rest[i]));
                }
            }
        } else {
            assert(own =~= own_rest);
        }
    }
}

/// For every post and every local follower of its author, exactly one
/// timeline copy exists for that follower, and it is field-for-field
/// identical to the canonical record except for the feed owner.
pub proof fn lemma_fanout_exactly_one(rec: PostRecordV, edges: Seq<FollowEdgeV>, f: Seq<char>)
    requires
        forall|i: int, j: int|
            0 <= i < j < edges.len() ==> edges[i].follower_id != edges[j].follower_id,
        exists|k: int|
            0 <= k < edges.len() && edges[k].follower_host is None && edges[k].follower_id == f,
    ensures
        ({
            let entries = spec_fan_out(rec, spec_local_followers(edges));
            &&& exists|i: int| 0 <= i < entries.len() && entries[i].feed_user_id == f
            &&& forall|i: int, j: int|
                0 <= i < entries.len() && 0 <= j < entries.len() && entries[i].feed_user_id == f
                    && entries[j].feed_user_id == f ==> i == j
            &&& forall|i: int| 0 <= i < entries.len() ==> entries[i].payload == rec
        }),
{
    let owners = spec_local_followers(edges);
    let entries = spec_fan_out(rec, owners);
    lemma_local_followers_membership(edges, f);
    assert(owners.contains(f));
    let i = choose|i: int| 0 <= i < owners.len() && owners[i] == f;
    assert(entries[i].feed_user_id == f);
    lemma_local_followers_distinct(edges);
}

/// A remote follower — one whose every follow edge carries a non-null
/// host — never receives a timeline copy.
pub proof fn lemma_remote_never_copied(rec: PostRecordV, edges: Seq<FollowEdgeV>, f: Seq<char>)
    requires
        forall|k: int|
            0 <= k < edges.len() && edges[k].follower_id == f ==> edges[k].follower_host is Some,
    ensures
        ({
            let entries = spec_fan_out(rec, spec_local_followers(edges));
            forall|i: int| 0 <= i < entries.len() ==> entries[i].feed_user_id != f
        }),
{
    let owners = spec_local_followers(edges);
    let entries = spec_fan_out(rec, owners);
    lemma_local_followers_membership(edges, f);
    assert forall|i: int| 0 <= i < entries.len() implies entries[i].feed_user_id != f by {
        if entries[i].feed_user_id == f {
            assert(owners[i] == f);
            assert(owners.contains(f));
        }
    }
}

} // verus!
