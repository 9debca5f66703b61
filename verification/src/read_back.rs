//! Reading back what was written: a save stored as one chain of lines is
//! read in its stored order, also after an incremental synchronisation.

use vstd::prelude::*;
use crate::lines::{LineRecord, GameLine};
use crate::save_repo::{
    ids_distinct, has_id, line_with_id, chain_cursor, chain_walk, message_chain, chain_ends, SyncPlan,
    is_sync_plan, lemma_walk_stopped, weak_matches, id_matches, content_differs, same_line,
};

verus! {

/// The lines are stored as one chain in this order: the first has no
/// parent and each other line's parent is the line before it.
pub open spec fn is_chain_order(s: Seq<LineRecord>) -> bool {
    forall|i: int| 0 <= i < s.len() ==> #[trigger] s[i].parent_line_id == (if i == 0 {
        None
    } else {
        Some(s[i - 1].id)
    })
}

/// The id of the last line, if any.
pub open spec fn last_id(s: Seq<LineRecord>) -> Option<i32> {
    if s.len() > 0 { Some(s.last().id) } else { None }
}

proof fn lemma_line_with_own_id(s: Seq<LineRecord>, j: int)
    requires
        ids_distinct(s),
        0 <= j < s.len(),
    ensures
        has_id(s, s[j].id),
        line_with_id(s, s[j].id) == s[j],
{
    assert(0 <= j < s.len() && s[j].id == s[j].id);
    let w = choose|i: int| 0 <= i < s.len() && s[i].id == s[j].id;
    if w < j {
        assert(s[w].id != s[j].id);
    } else if w > j {
        assert(s[j].id != s[w].id);
    }
}

proof fn lemma_chain_walk_steps(s: Seq<LineRecord>, k: nat)
    requires
        ids_distinct(s),
        is_chain_order(s),
        k <= s.len(),
    ensures
        chain_cursor(s, last_id(s), k) == (if k < s.len() { Some(s[s.len() - 1 - k].id) } else { None::<i32> }),
        chain_walk(s, last_id(s), k) == s.subrange(s.len() - k, s.len() as int).reverse(),
    decreases k,
{
    let n = s.len() as int;
    let last = last_id(s);
    if k > 0 {
        lemma_chain_walk_steps(s, (k - 1) as nat);
        let j = n - k;
        let c = chain_cursor(s, last, (k - 1) as nat);
        assert(c == Some(s[j].id));
        lemma_line_with_own_id(s, j);
        assert(s[j].parent_line_id == (if j == 0 { None } else { Some(s[j - 1].id) }));
        assert(chain_cursor(s, last, k) == line_with_id(s, c->0).parent_line_id);
        let prev = chain_walk(s, last, (k - 1) as nat);
        assert(chain_walk(s, last, k) == prev.push(s[j]));
        assert(prev.push(s[j]) =~= s.subrange(n - k, n).reverse());
    } else {
        assert(s.subrange(n, n).reverse() =~= Seq::<LineRecord>::empty());
    }
}

/// A save stored as one chain is read back in exactly its stored order:
/// the walk from its last line ends, covers every line, and reversed gives
/// the lines as stored.
pub proof fn law_chain_reads_back(s: Seq<LineRecord>)
    requires
        ids_distinct(s),
        is_chain_order(s),
    ensures
        chain_ends(s, last_id(s)),
        message_chain(s, last_id(s)).len() == s.len(),
        message_chain(s, last_id(s)).reverse() == s,
{
    let n = s.len() as nat;
    lemma_chain_walk_steps(s, n);
    lemma_walk_stopped(s, last_id(s), n, n + 1);
    assert(s.subrange(0, s.len() as int) =~= s);
    assert(s.reverse().reverse() =~= s);
}

/// The stored row holds what the write copies from the in-memory line:
/// content, attribute, sender, shown name, emotions, translation, action,
/// thinking, tool call and audio file.
pub open spec fn written_from(r: LineRecord, l: GameLine) -> bool {
    &&& r.content == l.base.content
    &&& r.attribute == l.base.attribute
    &&& r.sender_role_id == l.base.sender_role_id
    &&& r.display_name == l.base.display_name
    &&& r.original_emotion == l.base.original_emotion
    &&& r.predicted_emotion == l.base.predicted_emotion
    &&& r.tts_content == l.base.tts_content
    &&& r.action_content == l.base.action_content
    &&& r.thinking == l.base.thinking
    &&& r.tool_call == l.base.tool_call
    &&& r.audio_file == l.base.audio_file
}

/// `kept` and `inserted` are what the save holds after the plan is carried
/// out: the stored lines before the divergence point, with the same ids and
/// parents, rewritten from the in-memory line where the plan says so and
/// untouched otherwise; then a new row for each in-memory line from the
/// divergence point on, written from that line, each hanging from the one
/// before it and the first from the plan's kept tail; all ids distinct.
pub open spec fn sync_written(
    db: Seq<LineRecord>,
    input: Seq<GameLine>,
    plan: SyncPlan,
    kept: Seq<LineRecord>,
    inserted: Seq<LineRecord>,
) -> bool {
    &&& kept.len() == plan.diverge
    &&& forall|i: int| 0 <= i < kept.len() ==> {
        &&& (#[trigger] kept[i]).id == db[i].id
        &&& kept[i].parent_line_id == db[i].parent_line_id
        &&& if plan.updates@.contains(i as usize) { written_from(kept[i], input[i]) } else { kept[i] == db[i] }
    }
    &&& inserted.len() + plan.diverge == input.len()
    &&& forall|j: int| 0 <= j < inserted.len() ==> written_from(#[trigger] inserted[j], input[plan.diverge + j])
    &&& (inserted.len() > 0 ==> inserted[0].parent_line_id == plan.keep_tail)
    &&& forall|j: int| 0 < j < inserted.len() ==> #[trigger] inserted[j].parent_line_id == Some(inserted[j - 1].id)
    &&& ids_distinct(kept + inserted)
}

proof fn lemma_rows_agree(
    db: Seq<LineRecord>,
    input: Seq<GameLine>,
    plan: SyncPlan,
    kept: Seq<LineRecord>,
    inserted: Seq<LineRecord>,
    i: int,
)
    requires
        is_sync_plan(db, input, plan),
        sync_written(db, input, plan, kept, inserted),
        0 <= i < input.len(),
    ensures
        weak_matches((kept + inserted)[i], input[i]),
        id_matches((kept + inserted)[i], input[i]) ==> !content_differs((kept + inserted)[i], input[i]),
{
    let st = kept + inserted;
    let d = kept.len() as int;
    if i < d {
        assert(st[i] == kept[i]);
        assert(same_line(db[i], input[i]));
        if !plan.updates@.contains(i as usize) {
            assert(kept[i] == db[i]);
            if id_matches(db[i], input[i]) && content_differs(db[i], input[i]) {
                assert(plan.updates@.contains(i as usize));
            }
        }
    } else {
        assert(st[i] == inserted[i - d]);
        assert(written_from(inserted[i - d], input[plan.diverge + (i - d)]));
    }
}

/// Writing an in-memory history into a save that is stored as one chain,
/// and reading the save back, gives the written history: the walk from the
/// new last message ends, covers every stored line, and in reading order the
/// lines are the kept lines followed by the inserted ones, one for each
/// in-memory line, each with that line's content, attribute, sender, action
/// and tool call. The save's last message is the last inserted line, or the
/// kept tail when nothing was inserted.
pub proof fn law_sync_then_read_back(
    db: Seq<LineRecord>,
    input: Seq<GameLine>,
    plan: SyncPlan,
    kept: Seq<LineRecord>,
    inserted: Seq<LineRecord>,
)
    requires
        ids_distinct(db),
        is_chain_order(db),
        is_sync_plan(db, input, plan),
        sync_written(db, input, plan, kept, inserted),
    ensures
        (kept + inserted).len() == input.len(),
        forall|i: int| 0 <= i < input.len() ==> weak_matches(#[trigger] (kept + inserted)[i], input[i]),
        chain_ends(kept + inserted, last_id(kept + inserted)),
        message_chain(kept + inserted, last_id(kept + inserted)).len() == (kept + inserted).len(),
        message_chain(kept + inserted, last_id(kept + inserted)).reverse() == kept + inserted,
        last_id(kept + inserted) == (if inserted.len() > 0 { Some(inserted.last().id) } else { plan.keep_tail }),
{
    let st = kept + inserted;
    let d = kept.len() as int;
    assert forall|i: int| 0 <= i < input.len() implies weak_matches(#[trigger] (kept + inserted)[i], input[i]) by {
        lemma_rows_agree(db, input, plan, kept, inserted, i);
    }
    assert forall|i: int| 0 <= i < st.len() implies #[trigger] st[i].parent_line_id == (if i == 0 {
        None
    } else {
        Some(st[i - 1].id)
    }) by {
        if i < d {
            assert(st[i] == kept[i]);
            assert(db[i].parent_line_id == (if i == 0 { None } else { Some(db[i - 1].id) }));
            if i > 0 {
                assert(st[i - 1] == kept[i - 1]);
            }
        } else if i == d {
            assert(st[i] == inserted[0]);
            if d > 0 {
                assert(st[i - 1] == kept[d - 1]);
            }
        } else {
            assert(st[i] == inserted[i - d]);
            assert(st[i - 1] == inserted[i - d - 1]);
        }
    }
    law_chain_reads_back(st);
    if inserted.len() == 0 {
        assert(st =~= kept);
        if d > 0 {
            assert(kept[d - 1].id == db[d - 1].id);
        }
    } else {
        assert(st.last() == inserted.last());
    }
}

/// Writing the same history a second time, with no write in between,
/// changes nothing: every line is kept, none is rewritten or deleted,
/// nothing is inserted, and the save's last message stays where the first
/// write left it.
pub proof fn law_second_sync_is_noop(
    db: Seq<LineRecord>,
    input: Seq<GameLine>,
    plan: SyncPlan,
    kept: Seq<LineRecord>,
    inserted: Seq<LineRecord>,
    second: SyncPlan,
)
    requires
        ids_distinct(db),
        is_chain_order(db),
        is_sync_plan(db, input, plan),
        sync_written(db, input, plan, kept, inserted),
        is_sync_plan(kept + inserted, input, second),
    ensures
        second.diverge == input.len(),
        second.updates@.len() == 0,
        second.stale_ids@.len() == 0,
        second.keep_tail == last_id(kept + inserted),
{
    let st = kept + inserted;
    if second.diverge < input.len() {
        lemma_rows_agree(db, input, plan, kept, inserted, second.diverge as int);
    }
    if second.updates@.len() > 0 {
        let u = second.updates@[0] as int;
        lemma_rows_agree(db, input, plan, kept, inserted, u);
    }
}

/// A save just created holds no line. Writing the dialogue into it and
/// reading it back gives the dialogue: the walk from the save's last
/// message ends, covers every stored line, and in reading order there is one
/// line per in-memory line, each with that line's content, attribute,
/// sender, action and tool call.
pub proof fn law_created_save_reads_back(input: Seq<GameLine>, plan: SyncPlan, inserted: Seq<LineRecord>)
    requires
        is_sync_plan(Seq::<LineRecord>::empty(), input, plan),
        sync_written(Seq::<LineRecord>::empty(), input, plan, Seq::<LineRecord>::empty(), inserted),
    ensures
        inserted.len() == input.len(),
        forall|i: int| 0 <= i < input.len() ==> weak_matches(#[trigger] inserted[i], input[i]),
        chain_ends(inserted, last_id(inserted)),
        message_chain(inserted, last_id(inserted)).reverse() == inserted,
{
    let none = Seq::<LineRecord>::empty();
    assert(none + inserted =~= inserted);
    law_sync_then_read_back(none, input, plan, none, inserted);
}

} // verus!
