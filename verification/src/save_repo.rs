//! The computations of the save repository: putting a save's stored lines
//! back in dialogue order, turning them into in-memory lines, and planning
//! the incremental write of an in-memory history into a save.
//!
//! The database reads and writes themselves are made by the caller, which
//! hands these functions the rows it read and performs the plan they return.

use vstd::prelude::*;
use crate::game::{LocalTime};
use crate::saves::{SaveRecord, SaveTimestamp};
use crate::text::{push_str, push_pad2, push_min4, push_char, pad2, min4_digits};
use crate::lines::{LineRecord, LineBase, GameLine, LinePerception, copy_opt_string, opt_view, opt_string_eq};

verus! {

broadcast use vstd::seq_lib::group_to_multiset_ensures;

/// The repository of saves and their lines.
pub struct SaveRepo;

/// No two stored lines share an id (the id is the table's primary key).
pub open spec fn ids_distinct(s: Seq<LineRecord>) -> bool {
    forall|i: int, j: int| 0 <= i < j < s.len() ==> s[i].id != s[j].id
}

/// Some stored line has the id.
pub open spec fn has_id(s: Seq<LineRecord>, id: i32) -> bool {
    exists|i: int| 0 <= i < s.len() && s[i].id == id
}

/// The stored line with the id.
pub open spec fn line_with_id(s: Seq<LineRecord>, id: i32) -> LineRecord {
    s[choose|i: int| 0 <= i < s.len() && s[i].id == id]
}

/// Where the walk back along `parent_line_id`, started at `last`, stands
/// after `k` steps; `None` once it has stopped (no id, or no line with it).
pub open spec fn chain_cursor(s: Seq<LineRecord>, last: Option<i32>, k: nat) -> Option<i32>
    decreases k,
{
    if k == 0 {
        last
    } else {
        let c = chain_cursor(s, last, (k - 1) as nat);
        if c is Some && has_id(s, c->0) {
            line_with_id(s, c->0).parent_line_id
        } else {
            None
        }
    }
}

/// The lines met in the first `k` steps of the walk back from `last`.
pub open spec fn chain_walk(s: Seq<LineRecord>, last: Option<i32>, k: nat) -> Seq<LineRecord>
    decreases k,
{
    if k == 0 {
        seq![]
    } else {
        let c = chain_cursor(s, last, (k - 1) as nat);
        let prev = chain_walk(s, last, (k - 1) as nat);
        if c is Some && has_id(s, c->0) {
            prev.push(line_with_id(s, c->0))
        } else {
            prev
        }
    }
}

/// The message chain of a save: the lines reached from its last message by
/// following `parent_line_id`, newest first, until an id is missing.
pub open spec fn message_chain(s: Seq<LineRecord>, last: Option<i32>) -> Seq<LineRecord> {
    chain_walk(s, last, s.len() + 1)
}

/// The walk back from `last` ends: it does not run into a cycle. (A walk
/// that ends meets each line at most once, so it is no longer than `s`.)
pub open spec fn chain_ends(s: Seq<LineRecord>, last: Option<i32>) -> bool {
    message_chain(s, last).len() <= s.len()
}

/// The lines ordered by strictly increasing id.
pub open spec fn sorted_by_id(s: Seq<LineRecord>) -> bool {
    forall|i: int, j: int| 0 <= i < j < s.len() ==> s[i].id < s[j].id
}

pub(crate) proof fn lemma_walk_stopped(s: Seq<LineRecord>, last: Option<i32>, k: nat, j: nat)
    requires
        k <= j,
        !(chain_cursor(s, last, k) is Some && has_id(s, chain_cursor(s, last, k)->0)),
    ensures
        chain_walk(s, last, j) == chain_walk(s, last, k),
        j > k ==> chain_cursor(s, last, j) is None,
    decreases j,
{
    if j > k {
        lemma_walk_stopped(s, last, k, (j - 1) as nat);
    }
}

proof fn lemma_walk_in_lines(s: Seq<LineRecord>, last: Option<i32>, k: nat)
    ensures
        forall|i: int| 0 <= i < chain_walk(s, last, k).len() ==> s.contains(#[trigger] chain_walk(s, last, k)[i]),
    decreases k,
{
    if k > 0 {
        lemma_walk_in_lines(s, last, (k - 1) as nat);
        let c = chain_cursor(s, last, (k - 1) as nat);
        if c is Some && has_id(s, c->0) {
            let w = choose|i: int| 0 <= i < s.len() && s[i].id == c->0;
            assert(s[w] == line_with_id(s, c->0));
            let prev = chain_walk(s, last, (k - 1) as nat);
            assert forall|i: int| 0 <= i < chain_walk(s, last, k).len() implies s.contains(
                #[trigger] chain_walk(s, last, k)[i],
            ) by {
                if i < prev.len() {
                    assert(chain_walk(s, last, k)[i] == prev[i]);
                } else {
                    assert(chain_walk(s, last, k)[i] == s[w]);
                }
            }
        } else {
            assert(chain_walk(s, last, k) == chain_walk(s, last, (k - 1) as nat));
        }
    }
}

/// Walks from equal positions go on alike.
proof fn lemma_cursor_shift(s: Seq<LineRecord>, last: Option<i32>, a: nat, b: nat, t: nat)
    requires
        chain_cursor(s, last, a) == chain_cursor(s, last, b),
    ensures
        chain_cursor(s, last, a + t) == chain_cursor(s, last, b + t),
    decreases t,
{
    if t > 0 {
        lemma_cursor_shift(s, last, a, b, (t - 1) as nat);
        assert(chain_cursor(s, last, a + t) == {
            let c = chain_cursor(s, last, (a + t - 1) as nat);
            if c is Some && has_id(s, c->0) { line_with_id(s, c->0).parent_line_id } else { None }
        });
        assert(chain_cursor(s, last, b + t) == {
            let c = chain_cursor(s, last, (b + t - 1) as nat);
            if c is Some && has_id(s, c->0) { line_with_id(s, c->0).parent_line_id } else { None }
        });
    }
}

/// A walk of `k` steps that met a line at every step: each step's cursor
/// found its line, and the walk holds those lines in order.
proof fn lemma_full_walk(s: Seq<LineRecord>, last: Option<i32>, k: nat)
    requires
        chain_walk(s, last, k).len() == k,
    ensures
        forall|m: int| 0 <= m < k ==> {
            let c = #[trigger] chain_cursor(s, last, m as nat);
            &&& c is Some
            &&& has_id(s, c->0)
            &&& chain_walk(s, last, k)[m] == line_with_id(s, c->0)
        },
    decreases k,
{
    if k > 0 {
        lemma_walk_len_monotone(s, last, 0, (k - 1) as nat);
        let c = chain_cursor(s, last, (k - 1) as nat);
        if !(c is Some && has_id(s, c->0)) {
            assert(chain_walk(s, last, k) == chain_walk(s, last, (k - 1) as nat));
        }
        lemma_full_walk(s, last, (k - 1) as nat);
        assert forall|m: int| 0 <= m < k implies {
            let c = #[trigger] chain_cursor(s, last, m as nat);
            &&& c is Some
            &&& has_id(s, c->0)
            &&& chain_walk(s, last, k)[m] == line_with_id(s, c->0)
        } by {
            if m < k - 1 {
                assert(chain_walk(s, last, k)[m] == chain_walk(s, last, (k - 1) as nat)[m]);
            }
        }
    }
}

/// A walk that stops meets no line twice.
proof fn lemma_stopped_walk_no_duplicates(s: Seq<LineRecord>, last: Option<i32>, k: nat)
    requires
        chain_walk(s, last, k).len() == k,
        !(chain_cursor(s, last, k) is Some && has_id(s, chain_cursor(s, last, k)->0)),
    ensures
        chain_walk(s, last, k).no_duplicates(),
{
    lemma_full_walk(s, last, k);
    let w = chain_walk(s, last, k);
    assert forall|i: int, j: int| 0 <= i < w.len() && 0 <= j < w.len() && i != j implies w[i] != w[j] by {
        let (a, b) = if i < j { (i, j) } else { (j, i) };
        let ca = chain_cursor(s, last, a as nat);
        let cb = chain_cursor(s, last, b as nat);
        if w[a] == w[b] {
            assert(line_with_id(s, ca->0).id == ca->0);
            assert(line_with_id(s, cb->0).id == cb->0);
            assert(ca == cb);
            lemma_cursor_shift(s, last, a as nat, b as nat, (k - b) as nat);
            let m = (a + (k - b)) as nat;
            assert(chain_cursor(s, last, m) == chain_cursor(s, last, k));
            assert(m < k);
            assert(chain_cursor(s, last, m) is Some && has_id(s, chain_cursor(s, last, m)->0));
        }
    }
}

/// The index of the line with the id, if any.
fn find_line(lines: &Vec<LineRecord>, id: i32) -> (r: Option<usize>)
    requires
        ids_distinct(lines@),
    ensures
        r is Some <==> has_id(lines@, id),
        r matches Some(p) ==> p < lines.len() && lines@[p as int] == line_with_id(lines@, id),
{
    for i in 0..lines.len()
        invariant
            ids_distinct(lines@),
            forall|j: int| 0 <= j < i ==> lines@[j].id != id,
    {
        if lines[i].id == id {
            proof {
                assert(has_id(lines@, id)) by {
                    assert(0 <= i < lines@.len() && lines@[i as int].id == id);
                }
                let w = choose|j: int| 0 <= j < lines@.len() && lines@[j].id == id;
                if w < i {
                    assert(lines@[w].id != lines@[i as int].id);
                } else if w > i {
                    assert(lines@[i as int].id != lines@[w].id);
                }
            }
            return Some(i);
        }
    }
    None
}

/// The lines ordered by increasing id.
fn sort_by_id(lines: &Vec<LineRecord>) -> (r: Vec<LineRecord>)
    requires
        ids_distinct(lines@),
    ensures
        sorted_by_id(r@),
        r@.to_multiset() == lines@.to_multiset(),
{

    let mut r: Vec<LineRecord> = Vec::new();
    for i in 0..lines.len()
        invariant
            ids_distinct(lines@),
            sorted_by_id(r@),
            r@.to_multiset() == lines@.take(i as int).to_multiset(),
            forall|k: int| 0 <= k < r@.len() ==> lines@.take(i as int).contains(#[trigger] r@[k]),
    {
        let x = lines[i].duplicate();
        let mut p: usize = 0;
        while p < r.len() && r[p].id < x.id
            invariant
                p <= r.len(),
                forall|k: int| 0 <= k < p ==> r@[k].id < x.id,
            decreases r.len() - p,
        {
            p = p + 1;
        }
        proof {
            // x's id is not yet in r, so every later element has a larger id.
            assert forall|k: int| p <= k < r@.len() implies x.id < #[trigger] r@[k].id by {
                assert(lines@.take(i as int).contains(r@[k]));
                let w = choose|w: int| 0 <= w < i && lines@.take(i as int)[w] == r@[k];
                assert(lines@[w] == r@[k]);
                assert(lines@[i as int] == x);
                if k > p {
                    assert(r@[p as int].id < r@[k].id);
                }
                assert(r@[k].id != x.id);
            }
        }
        let ghost old_r = r@;
        r.insert(p, x);
        proof {
            assert(lines@.take(i + 1) =~= lines@.take(i as int).push(x));
            assert(r@ =~= old_r.insert(p as int, x));
            assert forall|a: int, b: int| 0 <= a < b < r@.len() implies r@[a].id < r@[b].id by {
                if b < p {
                } else if a < p && b == p {
                } else if a < p {
                    assert(r@[b] == old_r[b - 1]);
                } else if a == p {
                    assert(r@[b] == old_r[b - 1]);
                } else {
                    assert(r@[a] == old_r[a - 1]);
                    assert(r@[b] == old_r[b - 1]);
                }
            }
            assert forall|k: int| 0 <= k < r@.len() implies lines@.take(i + 1).contains(#[trigger] r@[k]) by {
                if k < p {
                    assert(old_r[k] == r@[k]);
                    assert(lines@.take(i as int).contains(old_r[k]));
                    let w = choose|w: int| 0 <= w < i && lines@.take(i as int)[w] == old_r[k];
                    assert(lines@.take(i + 1)[w] == r@[k]);
                } else if k == p {
                    assert(lines@.take(i + 1)[i as int] == r@[k]);
                } else {
                    assert(old_r[k - 1] == r@[k]);
                    assert(lines@.take(i as int).contains(old_r[k - 1]));
                    let w = choose|w: int| 0 <= w < i && lines@.take(i as int)[w] == old_r[k - 1];
                    assert(lines@.take(i + 1)[w] == r@[k]);
                }
            }
        }
    }
    assert(lines@.take(lines.len() as int) =~= lines@);
    r
}

impl SaveRepo {
    /// Puts the stored lines of a save in dialogue order: walks the chain
    /// from the save's last message (`last_message_id`) back along
    /// `parent_line_id` and reverses it. Where that chain does not reach every
    /// line of the save (a damaged save), all lines are returned by
    /// increasing id instead, so that no line is silently dropped.
    pub fn get_line_list(all_lines: &Vec<LineRecord>, last_message_id: Option<i32>) -> (history: Vec<LineRecord>)
        requires
            ids_distinct(all_lines@),
            chain_ends(all_lines@, last_message_id),
        ensures
            message_chain(all_lines@, last_message_id).len() == all_lines@.len()
                ==> history@ == message_chain(all_lines@, last_message_id).reverse(),
            message_chain(all_lines@, last_message_id).len() != all_lines@.len() ==> {
                &&& sorted_by_id(history@)
                &&& history@.to_multiset() == all_lines@.to_multiset()
            },
            history@.len() == all_lines@.len(),
            forall|i: int| 0 <= i < history@.len() ==> all_lines@.contains(#[trigger] history@[i]),
            history@.no_duplicates(),
    {

        let ghost s = all_lines@;
        let n = all_lines.len();
        let mut chain: Vec<LineRecord> = Vec::new();
        let mut current_id = last_message_id;
        let ghost mut k: nat = 0;
        loop
            invariant
                s == all_lines@,
                n == s.len(),
                ids_distinct(s),
                chain_ends(s, last_message_id),
                k <= n,
                chain@ == chain_walk(s, last_message_id, k),
                chain@.len() == k,
                current_id == chain_cursor(s, last_message_id, k),
            ensures
                k <= n,
                chain@ == chain_walk(s, last_message_id, k),
                !(chain_cursor(s, last_message_id, k) is Some
                    && has_id(s, chain_cursor(s, last_message_id, k)->0)),
            decreases n - k,
        {
            match current_id {
                None => break,
                Some(id) => match find_line(all_lines, id) {
                    None => break,
                    Some(p) => {
                        chain.push(all_lines[p].duplicate());
                        current_id = all_lines[p].parent_line_id;
                        proof {
                            k = k + 1;
                            if k > n {
                                lemma_walk_stopped_or_long(s, last_message_id, k);
                            }
                        }
                    },
                },
            }
        }
        proof {
            lemma_walk_stopped(s, last_message_id, k, (n + 1) as nat);
            lemma_walk_in_lines(s, last_message_id, k);
            lemma_stopped_walk_no_duplicates(s, last_message_id, k);
        }
        if chain.len() != n {
            let sorted = sort_by_id(all_lines);
            proof {
                assert(sorted@.to_multiset().len() == s.to_multiset().len());
                assert forall|i: int| 0 <= i < sorted@.len() implies s.contains(#[trigger] sorted@[i]) by {
                    assert(sorted@.to_multiset().count(sorted@[i]) > 0);
                }
                assert forall|i: int, j: int| 0 <= i < sorted@.len() && 0 <= j < sorted@.len() && i != j
                    implies sorted@[i] != sorted@[j] by {
                    if i < j {
                        assert(sorted@[i].id < sorted@[j].id);
                    } else {
                        assert(sorted@[j].id < sorted@[i].id);
                    }
                }
            }
            sorted
        } else {
            let mut history: Vec<LineRecord> = Vec::new();
            let ghost full = chain@;
            while chain.len() > 0
                invariant
                    history@ == full.subrange(chain@.len() as int, full.len() as int).reverse(),
                    chain@ == full.subrange(0, chain@.len() as int),
                    chain@.len() <= full.len(),
                decreases chain.len(),
            {
                let ghost before = chain@.len();
                let x = chain.pop().unwrap();
                history.push(x);
                assert(history@ =~= full.subrange(chain@.len() as int, full.len() as int).reverse());
            }
            assert(full.subrange(0, full.len() as int) =~= full);
            proof {
                assert forall|i: int| 0 <= i < history@.len() implies s.contains(#[trigger] history@[i]) by {
                    assert(history@[i] == full[full.len() - 1 - i]);
                }
                assert forall|i: int, j: int| 0 <= i < history@.len() && 0 <= j < history@.len() && i != j
                    implies history@[i] != history@[j] by {
                    assert(history@[i] == full[full.len() - 1 - i]);
                    assert(history@[j] == full[full.len() - 1 - j]);
                }
            }
            history
        }
    }
}

/// The roles recorded as having perceived the line `line_id`, in the order
/// of the perception rows.
pub open spec fn perceived_by(ps: Seq<LinePerception>, line_id: i32) -> Seq<i32>
    decreases ps.len(),
{
    if ps.len() == 0 {
        seq![]
    } else {
        let rest = perceived_by(ps.drop_last(), line_id);
        if ps.last().line_id == line_id {
            rest.push(ps.last().role_id)
        } else {
            rest
        }
    }
}

/// The in-memory content of a stored line: its id becomes the line's id and
/// every other field is carried over.
pub open spec fn record_to_base(r: LineRecord) -> LineBase {
    LineBase {
        id: Some(r.id),
        content: r.content,
        original_emotion: r.original_emotion,
        predicted_emotion: r.predicted_emotion,
        tts_content: r.tts_content,
        action_content: r.action_content,
        thinking: r.thinking,
        tool_call: r.tool_call,
        audio_file: r.audio_file,
        attribute: r.attribute,
        sender_role_id: r.sender_role_id,
        display_name: r.display_name,
    }
}

/// A stored line becomes an in-memory line with every field unchanged and
/// its id kept.
pub proof fn law_loaded_line_keeps_fields(r: LineRecord)
    ensures
        record_to_base(r).id == Some(r.id),
        record_to_base(r).content == r.content,
        record_to_base(r).original_emotion == r.original_emotion,
        record_to_base(r).predicted_emotion == r.predicted_emotion,
        record_to_base(r).tts_content == r.tts_content,
        record_to_base(r).action_content == r.action_content,
        record_to_base(r).thinking == r.thinking,
        record_to_base(r).tool_call == r.tool_call,
        record_to_base(r).audio_file == r.audio_file,
        record_to_base(r).attribute == r.attribute,
        record_to_base(r).sender_role_id == r.sender_role_id,
        record_to_base(r).display_name == r.display_name,
{
}

/// The roles that perceived a line are those of the perception rows of
/// that line, in the rows' order, each row giving one role.
pub proof fn law_perceived_by_rows(ps: Seq<LinePerception>, line_id: i32)
    ensures
        perceived_by(ps, line_id) == ps.filter(|p: LinePerception| p.line_id == line_id).map_values(
            |p: LinePerception| p.role_id,
        ),
    decreases ps.len(),
{
    reveal(Seq::filter);
    if ps.len() > 0 {
        law_perceived_by_rows(ps.drop_last(), line_id);
        let f = ps.drop_last().filter(|p: LinePerception| p.line_id == line_id);
        if ps.last().line_id == line_id {
            assert(f.push(ps.last()).map_values(|p: LinePerception| p.role_id) =~= f.map_values(
                |p: LinePerception| p.role_id,
            ).push(ps.last().role_id));
        }
    }
}

fn perceived_roles(perceptions: &Vec<LinePerception>, line_id: i32) -> (roles: Vec<i32>)
    ensures
        roles@ == perceived_by(perceptions@, line_id),
{
    let mut roles: Vec<i32> = Vec::new();
    for j in 0..perceptions.len()
        invariant
            roles@ == perceived_by(perceptions@.take(j as int), line_id),
    {
        assert(perceptions@.take(j + 1).drop_last() =~= perceptions@.take(j as int));
        if perceptions[j].line_id == line_id {
            roles.push(perceptions[j].role_id);
        }
    }
    assert(perceptions@.take(perceptions.len() as int) =~= perceptions@);
    roles
}

fn record_base(r: &LineRecord) -> (base: LineBase)
    ensures
        base == record_to_base(*r),
{
    LineBase {
        id: Some(r.id),
        content: r.content.clone(),
        original_emotion: copy_opt_string(&r.original_emotion),
        predicted_emotion: copy_opt_string(&r.predicted_emotion),
        tts_content: copy_opt_string(&r.tts_content),
        action_content: copy_opt_string(&r.action_content),
        thinking: copy_opt_string(&r.thinking),
        tool_call: copy_opt_string(&r.tool_call),
        audio_file: copy_opt_string(&r.audio_file),
        attribute: r.attribute,
        sender_role_id: r.sender_role_id,
        display_name: copy_opt_string(&r.display_name),
    }
}

impl SaveRepo {
    /// Turns a save's stored lines, already in dialogue order, into in-memory
    /// lines, each carrying the roles that the perception rows record for it.
    pub fn get_gameline_list(lines: &Vec<LineRecord>, perceptions: &Vec<LinePerception>) -> (game_lines: Vec<GameLine>)
        ensures
            game_lines@.len() == lines@.len(),
            forall|i: int| 0 <= i < lines@.len() ==> {
                &&& (#[trigger] game_lines@[i]).base == record_to_base(lines@[i])
                &&& game_lines@[i].perceived_role_ids@ == perceived_by(perceptions@, lines@[i].id)
            },
            forall|i: int| 0 <= i < lines@.len() ==> {
                let b = (#[trigger] game_lines@[i]).base;
                let r = lines@[i];
                &&& b.id == Some(r.id)
                &&& b.content == r.content
                &&& b.original_emotion == r.original_emotion
                &&& b.predicted_emotion == r.predicted_emotion
                &&& b.tts_content == r.tts_content
                &&& b.action_content == r.action_content
                &&& b.thinking == r.thinking
                &&& b.tool_call == r.tool_call
                &&& b.audio_file == r.audio_file
                &&& b.attribute == r.attribute
                &&& b.sender_role_id == r.sender_role_id
                &&& b.display_name == r.display_name
                &&& game_lines@[i].perceived_role_ids@ == perceptions@.filter(|p: LinePerception| p.line_id == r.id).map_values(
                    |p: LinePerception| p.role_id,
                )
            },
    {
        let mut game_lines: Vec<GameLine> = Vec::new();
        for i in 0..lines.len()
            invariant
                game_lines@.len() == i,
                forall|k: int| 0 <= k < i ==> {
                    &&& (#[trigger] game_lines@[k]).base == record_to_base(lines@[k])
                    &&& game_lines@[k].perceived_role_ids@ == perceived_by(perceptions@, lines@[k].id)
                },
        {
            let base = record_base(&lines[i]);
            let perceived = perceived_roles(perceptions, lines[i].id);
            game_lines.push(GameLine::from_base(base, perceived));
        }
        proof {
            assert forall|i: int| 0 <= i < lines@.len() implies (#[trigger] game_lines@[i]).perceived_role_ids@
                == perceptions@.filter(|p: LinePerception| p.line_id == lines@[i].id).map_values(
                |p: LinePerception| p.role_id,
            ) by {
                law_perceived_by_rows(perceptions@, lines@[i].id);
            }
        }
        game_lines
    }
}

/// The in-memory line carries the stored line's id.
pub open spec fn id_matches(db: LineRecord, input: GameLine) -> bool {
    input.base.id == Some(db.id)
}

/// The in-memory line differs from the stored one in a field that the
/// synchronisation compares for a line with the same id.
pub open spec fn content_differs(db: LineRecord, input: GameLine) -> bool {
    ||| db.content@ != input.base.content@
    ||| db.attribute != input.base.attribute
    ||| db.sender_role_id != input.base.sender_role_id
    ||| opt_view(db.thinking) != opt_view(input.base.thinking)
    ||| opt_view(db.action_content) != opt_view(input.base.action_content)
    ||| opt_view(db.tool_call) != opt_view(input.base.tool_call)
}

/// The in-memory line is the same logical line as the stored one by content:
/// same text, attribute, sender, action and tool call.
pub open spec fn weak_matches(db: LineRecord, input: GameLine) -> bool {
    &&& db.content@ == input.base.content@
    &&& db.attribute == input.base.attribute
    &&& db.sender_role_id == input.base.sender_role_id
    &&& opt_view(db.action_content) == opt_view(input.base.action_content)
    &&& opt_view(db.tool_call) == opt_view(input.base.tool_call)
}

/// The stored line and the in-memory line at the same position are kept as
/// one line by the synchronisation.
pub open spec fn same_line(db: LineRecord, input: GameLine) -> bool {
    id_matches(db, input) || weak_matches(db, input)
}

/// What writing an in-memory history into a save takes, given the save's
/// stored lines in dialogue order.
pub struct SyncPlan {
    /// The positions, in increasing order, of kept lines whose stored row is
    /// rewritten from the in-memory line (same id, changed content).
    pub updates: Vec<usize>,
    /// The first position at which the two histories part; every line before
    /// it is kept.
    pub diverge: usize,
    /// The ids of the stored lines from the divergence point on, which are
    /// deleted together with their perception rows.
    pub stale_ids: Vec<i32>,
    /// The id of the last kept stored line: the parent of the first inserted
    /// line, and the save's last message if nothing is inserted.
    pub keep_tail: Option<i32>,
}

impl SyncPlan {
    /// The line that the next inserted line hangs from, given the ids of the
    /// lines inserted so far; once every in-memory line from the divergence
    /// point on is inserted, this is the save's new last message.
    pub fn chain_tail(&self, inserted_ids: &Vec<i32>) -> (tail: Option<i32>)
        ensures
            inserted_ids@.len() == 0 ==> tail == self.keep_tail,
            inserted_ids@.len() > 0 ==> tail == Some(inserted_ids@.last()),
    {
        if inserted_ids.len() == 0 {
            self.keep_tail
        } else {
            Some(inserted_ids[inserted_ids.len() - 1])
        }
    }
}

fn differs_exec(db: &LineRecord, input: &GameLine) -> (r: bool)
    ensures
        r == content_differs(*db, *input),
{
    db.content != input.base.content || db.attribute != input.base.attribute
        || db.sender_role_id != input.base.sender_role_id
        || !opt_string_eq(&db.thinking, &input.base.thinking)
        || !opt_string_eq(&db.action_content, &input.base.action_content)
        || !opt_string_eq(&db.tool_call, &input.base.tool_call)
}

fn weak_matches_exec(db: &LineRecord, input: &GameLine) -> (r: bool)
    ensures
        r == weak_matches(*db, *input),
{
    db.content == input.base.content && db.attribute == input.base.attribute
        && db.sender_role_id == input.base.sender_role_id
        && opt_string_eq(&db.action_content, &input.base.action_content)
        && opt_string_eq(&db.tool_call, &input.base.tool_call)
}

/// `plan` is the synchronisation plan of the in-memory history `input` into a
/// save whose stored lines, in dialogue order, are `db`.
pub open spec fn is_sync_plan(db: Seq<LineRecord>, input: Seq<GameLine>, plan: SyncPlan) -> bool {
    &&& plan.diverge <= db.len()
    &&& plan.diverge <= input.len()
    &&& forall|i: int| 0 <= i < plan.diverge ==> same_line(#[trigger] db[i], input[i])
    &&& (plan.diverge < db.len() && plan.diverge < input.len()
        ==> !same_line(db[plan.diverge as int], input[plan.diverge as int]))
    &&& forall|k: int| 0 <= k < plan.updates@.len() ==> {
        &&& (#[trigger] plan.updates@[k]) < plan.diverge
        &&& id_matches(db[plan.updates@[k] as int], input[plan.updates@[k] as int])
        &&& content_differs(db[plan.updates@[k] as int], input[plan.updates@[k] as int])
    }
    &&& forall|a: int, b: int| 0 <= a < b < plan.updates@.len() ==> plan.updates@[a] < plan.updates@[b]
    &&& forall|i: int| 0 <= i < plan.diverge && id_matches(#[trigger] db[i], input[i])
        && content_differs(db[i], input[i]) ==> plan.updates@.contains(i as usize)
    &&& plan.stale_ids@ == db.subrange(plan.diverge as int, db.len() as int).map_values(|l: LineRecord| l.id)
    &&& plan.keep_tail == (if plan.diverge > 0 { Some(db[plan.diverge - 1].id) } else { None })
}

impl SaveRepo {
    /// Plans the write of an in-memory history into a save whose stored lines,
    /// in dialogue order, are `db_lines`. Both histories are walked in step:
    /// a position is kept while the lines there share an id (the stored row is
    /// then rewritten if its content changed) or agree by content; at the
    /// first other position the histories part. Stored lines from there on
    /// are stale; in-memory lines from there on are inserted, chained after
    /// the last kept line.
    pub fn sync_lines(db_lines: &Vec<LineRecord>, input_lines: &Vec<GameLine>) -> (plan: SyncPlan)
        ensures
            is_sync_plan(db_lines@, input_lines@, plan),
    {
        let max_check = if db_lines.len() < input_lines.len() { db_lines.len() } else { input_lines.len() };
        let mut diverge = max_check;
        let mut updates: Vec<usize> = Vec::new();
        let mut i: usize = 0;
        while i < max_check
            invariant_except_break
                diverge == max_check,
            invariant
                max_check <= db_lines@.len(),
                max_check <= input_lines@.len(),
                max_check == db_lines@.len() || max_check == input_lines@.len(),
                i <= max_check,
                forall|j: int| 0 <= j < i ==> same_line(#[trigger] db_lines@[j], input_lines@[j]),
                forall|k: int| 0 <= k < updates@.len() ==> {
                    &&& (#[trigger] updates@[k]) < i
                    &&& id_matches(db_lines@[updates@[k] as int], input_lines@[updates@[k] as int])
                    &&& content_differs(db_lines@[updates@[k] as int], input_lines@[updates@[k] as int])
                },
                forall|a: int, b: int| 0 <= a < b < updates@.len() ==> updates@[a] < updates@[b],
                forall|j: int| 0 <= j < i && id_matches(#[trigger] db_lines@[j], input_lines@[j])
                    && content_differs(db_lines@[j], input_lines@[j]) ==> updates@.contains(j as usize),
            ensures
                diverge <= max_check,
                forall|j: int| 0 <= j < diverge ==> same_line(#[trigger] db_lines@[j], input_lines@[j]),
                diverge < max_check ==> !same_line(db_lines@[diverge as int], input_lines@[diverge as int]),
                forall|k: int| 0 <= k < updates@.len() ==> {
                    &&& (#[trigger] updates@[k]) < diverge
                    &&& id_matches(db_lines@[updates@[k] as int], input_lines@[updates@[k] as int])
                    &&& content_differs(db_lines@[updates@[k] as int], input_lines@[updates@[k] as int])
                },
                forall|a: int, b: int| 0 <= a < b < updates@.len() ==> updates@[a] < updates@[b],
                forall|j: int| 0 <= j < diverge && id_matches(#[trigger] db_lines@[j], input_lines@[j])
                    && content_differs(db_lines@[j], input_lines@[j]) ==> updates@.contains(j as usize),
            decreases max_check - i,
        {
            let db_line = &db_lines[i];
            let input_line = &input_lines[i];
            let id_match = match input_line.base.id {
                Some(input_id) => input_id == db_line.id,
                None => false,
            };
            if id_match {
                if differs_exec(db_line, input_line) {
                    let ghost old_updates = updates@;
                    updates.push(i);
                    proof {
                        assert forall|j: int| 0 <= j < i + 1 && id_matches(#[trigger] db_lines@[j], input_lines@[j])
                            && content_differs(db_lines@[j], input_lines@[j]) implies updates@.contains(j as usize) by {
                            if j < i {
                                assert(old_updates.contains(j as usize));
                                let w = choose|w: int| 0 <= w < old_updates.len() && old_updates[w] == j as usize;
                                assert(updates@[w] == j as usize);
                            } else {
                                assert(updates@[old_updates.len() as int] == i);
                            }
                        }
                    }
                }
                i = i + 1;
                continue;
            }
            if weak_matches_exec(db_line, input_line) {
                i = i + 1;
                continue;
            }
            diverge = i;
            break;
        }
        let mut stale_ids: Vec<i32> = Vec::new();
        let mut j: usize = diverge;
        while j < db_lines.len()
            invariant
                diverge <= j <= db_lines@.len(),
                stale_ids@ == db_lines@.subrange(diverge as int, j as int).map_values(|l: LineRecord| l.id),
            decreases db_lines.len() - j,
        {
            stale_ids.push(db_lines[j].id);
            assert(stale_ids@ =~= db_lines@.subrange(diverge as int, j + 1).map_values(|l: LineRecord| l.id));
            j = j + 1;
        }
        let keep_tail = if diverge > 0 { Some(db_lines[diverge - 1].id) } else { None };
        SyncPlan { updates, diverge, stale_ids, keep_tail }
    }
}

/// Writing back, unchanged, the history that was read from a save keeps
/// every stored line, rewrites none, deletes none, and leaves the save's last
/// message where it was.
pub proof fn law_sync_of_loaded_history_is_noop(db: Seq<LineRecord>, input: Seq<GameLine>, plan: SyncPlan)
    requires
        input.len() == db.len(),
        forall|i: int| 0 <= i < db.len() ==> (#[trigger] input[i]).base == record_to_base(db[i]),
        is_sync_plan(db, input, plan),
    ensures
        plan.diverge == db.len(),
        plan.updates@.len() == 0,
        plan.stale_ids@.len() == 0,
        plan.keep_tail == (if db.len() > 0 { Some(db.last().id) } else { None }),
{
    if plan.diverge < db.len() {
        assert(input[plan.diverge as int].base == record_to_base(db[plan.diverge as int]));
    }
    if plan.updates@.len() > 0 {
        let u = plan.updates@[0] as int;
        assert(input[u].base == record_to_base(db[u]));
    }
}

/// A walk that has taken more steps than there are lines is longer than the
/// message chain allows.
pub(crate) proof fn lemma_walk_stopped_or_long(s: Seq<LineRecord>, last: Option<i32>, k: nat)
    requires
        chain_ends(s, last),
        k > s.len(),
    ensures
        chain_walk(s, last, k).len() < k,
    decreases k,
{
    let n1 = (s.len() + 1) as nat;
    lemma_walk_len_monotone(s, last, n1, k);
}

/// A walk only grows, by at most one line a step.
proof fn lemma_walk_len_monotone(s: Seq<LineRecord>, last: Option<i32>, a: nat, b: nat)
    requires
        a <= b,
    ensures
        chain_walk(s, last, b).len() <= chain_walk(s, last, a).len() + (b - a),
    decreases b,
{
    if b > a {
        lemma_walk_len_monotone(s, last, a, (b - 1) as nat);
    }
}

/// The title prefix of auto-save slots.
pub const AUTO_SAVE_PREFIX: &'static str = "自动存档";

/// The year as chrono's `%Y` writes it: four digits, zero-padded, for years
/// 0 to 9999; otherwise a sign and at least four digits.
pub open spec fn year_text(y: int) -> Seq<char> {
    if 0 <= y <= 9999 {
        min4_digits(y as nat)
    } else if y > 9999 {
        seq!['+'] + min4_digits(y as nat)
    } else {
        seq!['-'] + min4_digits((-y) as nat)
    }
}

/// A local time as `%Y-%m-%d %H:%M:%S`.
pub open spec fn stamp_text(t: LocalTime) -> Seq<char> {
    year_text(t.year as int) + "-"@ + pad2(t.month as nat) + "-"@ + pad2(t.day as nat) + " "@ + pad2(t.hour as nat)
        + ":"@ + pad2(t.minute as nat) + ":"@ + pad2(t.second as nat)
}

/// What an upsert of a save's running script does.
#[derive(Clone, Copy, Debug, PartialEq, Eq, Structural)]
pub enum RunningScriptWrite {
    /// Update the script row the save already links to.
    Update(i32),
    /// Insert a new script row and link the save to it.
    Insert,
}

impl SaveRepo {
    /// The title of a new auto-save slot: the prefix, a space, and the local
    /// time as `%Y-%m-%d %H:%M:%S`.
    pub fn auto_save_slot_title(now: &LocalTime) -> (title: String)
        requires
            now.wf(),
        ensures
            title@ == AUTO_SAVE_PREFIX@ + " "@ + stamp_text(*now),
    {
        let mut title = String::from_str(AUTO_SAVE_PREFIX);
        push_str(&mut title, " ");
        let y = now.year;
        if 0 <= y && y <= 9999 {
            push_min4(&mut title, y as u32);
        } else if y > 9999 {
            push_char(&mut title, '+');
            push_min4(&mut title, y as u32);
        } else {
            push_char(&mut title, '-');
            let magnitude: u32 = (-(y as i64)) as u32;
            push_min4(&mut title, magnitude);
        }
        push_str(&mut title, "-");
        push_pad2(&mut title, now.month);
        push_str(&mut title, "-");
        push_pad2(&mut title, now.day);
        push_str(&mut title, " ");
        push_pad2(&mut title, now.hour);
        push_str(&mut title, ":");
        push_pad2(&mut title, now.minute);
        push_str(&mut title, ":");
        push_pad2(&mut title, now.second);
        assert(title@ =~= AUTO_SAVE_PREFIX@ + " "@ + stamp_text(*now));
        title
    }

    /// How to write a save's running script: update the row the save links
    /// to when that row exists, insert a new one otherwise.
    pub fn running_script_write(linked_id: Option<i32>, linked_row_found: bool) -> (w: RunningScriptWrite)
        ensures
            w == (match linked_id {
                Some(id) => if linked_row_found { RunningScriptWrite::Update(id) } else { RunningScriptWrite::Insert },
                None => RunningScriptWrite::Insert,
            }),
    {
        match linked_id {
            Some(id) => if linked_row_found { RunningScriptWrite::Update(id) } else { RunningScriptWrite::Insert },
            None => RunningScriptWrite::Insert,
        }
    }
}


/// `t` is no earlier than `u`.
pub open spec fn not_earlier(t: SaveTimestamp, u: SaveTimestamp) -> bool {
    t.unix_secs > u.unix_secs || (t.unix_secs == u.unix_secs && t.nanos >= u.nanos)
}

/// The save is an auto-save slot of the protagonist `main_role_id` (of no
/// protagonist for `None`): its title starts with the auto-save prefix.
pub open spec fn is_auto_slot_of(s: SaveRecord, main_role_id: Option<i32>) -> bool {
    &&& AUTO_SAVE_PREFIX@.is_prefix_of(s.title@)
    &&& s.main_role_id == main_role_id
}

/// Every save whose title starts with the auto-save prefix (as the slots
/// that a new game creates, `自动存档 <time>`, and the plain `自动存档` do) and
/// whose protagonist is the role is an auto-save slot of the role, and only
/// those are.
pub proof fn law_auto_slot_by_title(s: SaveRecord, main_role_id: Option<i32>, now: LocalTime)
    ensures
        is_auto_slot_of(s, main_role_id) <==> (AUTO_SAVE_PREFIX@.is_prefix_of(s.title@) && s.main_role_id
            == main_role_id),
        s.main_role_id == main_role_id && s.title@ == AUTO_SAVE_PREFIX@ + " "@ + stamp_text(now)
            ==> is_auto_slot_of(s, main_role_id),
        s.main_role_id == main_role_id && s.title@ == AUTO_SAVE_PREFIX@ ==> is_auto_slot_of(s, main_role_id),
{
    if s.title@ == AUTO_SAVE_PREFIX@ + " "@ + stamp_text(now) {
        assert(s.title@.subrange(0, AUTO_SAVE_PREFIX@.len() as int) =~= AUTO_SAVE_PREFIX@);
    }
    if s.title@ == AUTO_SAVE_PREFIX@ {
        assert(s.title@.subrange(0, AUTO_SAVE_PREFIX@.len() as int) =~= AUTO_SAVE_PREFIX@);
    }
}

fn has_prefix(s: &str, p: &str) -> (r: bool)
    ensures
        r == p@.is_prefix_of(s@),
{
    let n = s.unicode_len();
    let m = p.unicode_len();
    if m > n {
        return false;
    }
    for i in 0..m
        invariant
            m == p@.len(),
            n == s@.len(),
            m <= n,
            forall|k: int| 0 <= k < i ==> p@[k] == s@[k],
    {
        if p.get_char(i) != s.get_char(i) {
            assert(p@[i as int] != s@.subrange(0, m as int)[i as int]);
            return false;
        }
    }
    assert(p@ =~= s@.subrange(0, m as int));
    true
}

fn later_than(t: &SaveTimestamp, u: &SaveTimestamp) -> (r: bool)
    ensures
        r == !not_earlier(*u, *t),
{
    t.unix_secs > u.unix_secs || (t.unix_secs == u.unix_secs && t.nanos > u.nanos)
}

impl SaveRepo {
    /// The auto-save slot of the protagonist `main_role_id` among `saves`:
    /// of the saves whose title starts with the auto-save prefix and whose
    /// protagonist is `main_role_id` (none for `None`), one with the latest
    /// update date; `None` when there is no such save.
    pub fn find_auto_save_slot(saves: &Vec<SaveRecord>, main_role_id: Option<i32>) -> (slot: Option<i32>)
        ensures
            slot is None <==> !(exists|i: int| 0 <= i < saves@.len() && is_auto_slot_of(saves@[i], main_role_id)),
            slot matches Some(id) ==> exists|i: int|
                0 <= i < saves@.len() && is_auto_slot_of(saves@[i], main_role_id) && saves@[i].id == id && forall|
                    j: int,
                | 0 <= j < saves@.len() && is_auto_slot_of(saves@[j], main_role_id) ==> not_earlier(
                    saves@[i].update_date,
                    #[trigger] saves@[j].update_date,
                ),
            (exists|i: int|
                0 <= i < saves@.len() && AUTO_SAVE_PREFIX@.is_prefix_of(#[trigger] saves@[i].title@)
                    && saves@[i].main_role_id == main_role_id) ==> slot is Some,
            slot matches Some(id) ==> exists|i: int|
                0 <= i < saves@.len() && AUTO_SAVE_PREFIX@.is_prefix_of(#[trigger] saves@[i].title@)
                    && saves@[i].main_role_id == main_role_id && saves@[i].id == id,
    {
        let mut best: Option<usize> = None;
        for i in 0..saves.len()
            invariant
                best is None <==> !(exists|k: int| 0 <= k < i && is_auto_slot_of(saves@[k], main_role_id)),
                best matches Some(b) ==> b < i && is_auto_slot_of(saves@[b as int], main_role_id) && forall|
                    j: int,
                | 0 <= j < i && is_auto_slot_of(saves@[j], main_role_id) ==> not_earlier(
                    saves@[b as int].update_date,
                    #[trigger] saves@[j].update_date,
                ),
        {
            let s = &saves[i];
            if s.main_role_id == main_role_id && has_prefix(s.title.as_str(), AUTO_SAVE_PREFIX) {
                match best {
                    None => {
                        best = Some(i);
                    },
                    Some(b) => {
                        if later_than(&s.update_date, &saves[b].update_date) {
                            best = Some(i);
                        }
                    },
                }
            }
        }
        match best {
            None => None,
            Some(b) => {
                assert(is_auto_slot_of(saves@[b as int], main_role_id));
                Some(saves[b].id)
            },
        }
    }

    /// The parent of a line appended to save `save_id`: the line of that save
    /// with the greatest id, `None` when the save has no line.
    pub fn append_parent(lines: &Vec<LineRecord>, save_id: i32) -> (parent: Option<i32>)
        ensures
            parent is None <==> !(exists|i: int| 0 <= i < lines@.len() && lines@[i].save_id == save_id),
            parent matches Some(id) ==> (exists|i: int|
                0 <= i < lines@.len() && lines@[i].save_id == save_id && lines@[i].id == id) && forall|j: int|
                0 <= j < lines@.len() && lines@[j].save_id == save_id ==> #[trigger] lines@[j].id <= id,
    {
        let mut parent: Option<i32> = None;
        for i in 0..lines.len()
            invariant
                parent is None <==> !(exists|k: int| 0 <= k < i && lines@[k].save_id == save_id),
                parent matches Some(id) ==> (exists|k: int|
                    0 <= k < i && lines@[k].save_id == save_id && lines@[k].id == id) && forall|j: int|
                    0 <= j < i && lines@[j].save_id == save_id ==> #[trigger] lines@[j].id <= id,
        {
            if lines[i].save_id == save_id {
                match parent {
                    None => {
                        parent = Some(lines[i].id);
                    },
                    Some(p) => {
                        if lines[i].id > p {
                            parent = Some(lines[i].id);
                        }
                    },
                }
            }
        }
        parent
    }
}

/// The ids of the lines of save `save_id`, in the order given.
pub open spec fn line_ids_of(lines: Seq<LineRecord>, save_id: i32) -> Seq<i32>
    decreases lines.len(),
{
    if lines.len() == 0 {
        seq![]
    } else {
        let front = line_ids_of(lines.drop_last(), save_id);
        if lines.last().save_id == save_id {
            front.push(lines.last().id)
        } else {
            front
        }
    }
}

impl SaveRepo {
    /// The ids of the lines of save `save_id`: the lines whose perception
    /// rows go, with them, when the save is deleted.
    pub fn save_line_ids(lines: &Vec<LineRecord>, save_id: i32) -> (ids: Vec<i32>)
        ensures
            ids@ == line_ids_of(lines@, save_id),
    {
        let mut ids: Vec<i32> = Vec::new();
        for i in 0..lines.len()
            invariant
                ids@ == line_ids_of(lines@.take(i as int), save_id),
        {
            assert(lines@.take(i + 1).drop_last() =~= lines@.take(i as int));
            if lines[i].save_id == save_id {
                ids.push(lines[i].id);
            }
        }
        assert(lines@.take(lines.len() as int) =~= lines@);
        ids
    }
}

/// How a stored line and the in-memory line at the same position are
/// compared, field by field: they are one line when the in-memory line
/// carries the stored id, or when text, attribute, sender, action and tool
/// call agree; a line with the same id is rewritten when its text,
/// attribute, sender, thinking, action or tool call changed.
pub proof fn law_line_comparison(db: LineRecord, input: GameLine)
    ensures
        id_matches(db, input) <==> input.base.id == Some(db.id),
        weak_matches(db, input) <==> (db.content@ == input.base.content@ && db.attribute == input.base.attribute
            && db.sender_role_id == input.base.sender_role_id && opt_view(db.action_content) == opt_view(
            input.base.action_content,
        ) && opt_view(db.tool_call) == opt_view(input.base.tool_call)),
        !content_differs(db, input) <==> (db.content@ == input.base.content@ && db.attribute == input.base.attribute
            && db.sender_role_id == input.base.sender_role_id && opt_view(db.thinking) == opt_view(
            input.base.thinking,
        ) && opt_view(db.action_content) == opt_view(input.base.action_content) && opt_view(db.tool_call)
            == opt_view(input.base.tool_call)),
        same_line(db, input) <==> (input.base.id == Some(db.id) || weak_matches(db, input)),
{
}

/// The lines a deleted save takes with it are its own lines, in order.
pub proof fn law_save_lines_are_its_own(lines: Seq<LineRecord>, save_id: i32)
    ensures
        line_ids_of(lines, save_id) == lines.filter(|l: LineRecord| l.save_id == save_id).map_values(
            |l: LineRecord| l.id,
        ),
    decreases lines.len(),
{
    reveal(Seq::filter);
    if lines.len() > 0 {
        law_save_lines_are_its_own(lines.drop_last(), save_id);
        let g = lines.drop_last().filter(|l: LineRecord| l.save_id == save_id);
        assert(g.push(lines.last()).map_values(|l: LineRecord| l.id) =~= g.map_values(|l: LineRecord| l.id).push(
            lines.last().id,
        ));
    }
}

/// Lines in id order have strictly increasing ids from first to last.
pub proof fn law_id_order(s: Seq<LineRecord>)
    ensures
        sorted_by_id(s) <==> forall|i: int, j: int| 0 <= i < j < s.len() ==> s[i].id < s[j].id,
{
}

} // verus!
