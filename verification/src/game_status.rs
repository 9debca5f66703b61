//! The runtime game status: the dialogue so far, who is on stage, the
//! scene, script variables, and the snapshot of it kept in a save.

use vstd::prelude::*;
use std::collections::HashSet;
use crate::lines::{GameLine, LineBase, LineAttribute, copy_ids, copy_opt_string, opt_view};
use crate::clock::{DialogTime, dialog_time_text, parse_dialog_time, rfc3339_text, rfc3339_instant};

verus! {

broadcast use vstd::std_specs::hash::group_hash_axioms;

/// `v` lists the ids of `s`, each once, in some order.
pub open spec fn lists_ids(v: Seq<i32>, s: Set<i32>) -> bool {
    &&& v.to_set() == s
    &&& v.no_duplicates()
}

/// The player as the game status knows them.
pub struct Player {
    pub user_name: String,
}

/// The running script of script mode: which script, where in it, and its
/// variables (kept as JSON text).
pub struct ScriptStatus {
    pub folder_key: String,
    pub current_chapter_key: String,
    pub current_event_process: i32,
    pub vars_json: String,
}

/// A global script variable.
pub struct GlobalVariable {
    pub key: String,
    pub value: serde_json::Value,
}

impl GlobalVariable {
    pub fn duplicate(&self) -> (r: GlobalVariable)
        ensures
            r == *self,
    {
        GlobalVariable { key: self.key.clone(), value: self.value.clone() }
    }
}

/// No two variables share a key.
pub open spec fn keys_distinct(v: Seq<GlobalVariable>) -> bool {
    forall|i: int, j: int| 0 <= i < j < v.len() ==> v[i].key@ != v[j].key@
}

/// The value of the variable named `key`, if one is set.
pub open spec fn var_lookup(v: Seq<GlobalVariable>, key: Seq<char>) -> Option<serde_json::Value> {
    if exists|i: int| 0 <= i < v.len() && v[i].key@ == key {
        Some(v[choose|i: int| 0 <= i < v.len() && v[i].key@ == key].value)
    } else {
        None
    }
}

/// No two strings hold the same text.
pub open spec fn texts_distinct(s: Seq<String>) -> bool {
    forall|i: int, j: int| 0 <= i < j < s.len() ==> s[i]@ != s[j]@
}

/// Some string of `s` holds the text.
pub open spec fn has_text(s: Seq<String>, t: Seq<char>) -> bool {
    exists|i: int| 0 <= i < s.len() && s[i]@ == t
}

/// The strings in order of first occurrence of their text, each text once.
pub open spec fn dedup_texts(s: Seq<String>) -> Seq<String>
    decreases s.len(),
{
    if s.len() == 0 {
        s
    } else {
        let d = dedup_texts(s.drop_last());
        if has_text(d, s.last()@) {
            d
        } else {
            d.push(s.last())
        }
    }
}

/// The ids other than `r`, in order.
pub open spec fn without(s: Seq<i32>, r: i32) -> Seq<i32>
    decreases s.len(),
{
    if s.len() == 0 {
        s
    } else {
        let w = without(s.drop_last(), r);
        if s.last() != r {
            w.push(s.last())
        } else {
            w
        }
    }
}

/// The number of lines that are not persona (system) lines.
pub open spec fn chat_count(s: Seq<GameLine>) -> nat
    decreases s.len(),
{
    if s.len() == 0 {
        0
    } else {
        chat_count(s.drop_last()) + if s.last().base.attribute == LineAttribute::System { 0nat } else { 1nat }
    }
}

/// `after` is `before` with the role put on stage (at the end, unless it is
/// there already) and made present.
pub open spec fn onstage_step(before: GameStatus, role_id: i32, after: GameStatus) -> bool {
    &&& after.onstage_role_ids@ == (if before.onstage_role_ids@.contains(role_id) {
        before.onstage_role_ids@
    } else {
        before.onstage_role_ids@.push(role_id)
    })
    &&& after.present_role_ids@ == before.present_role_ids@.insert(role_id)
    &&& after == (GameStatus {
        onstage_role_ids: after.onstage_role_ids,
        present_role_ids: after.present_role_ids,
        ..before
    })
}

/// `after` is `before` with the role taken off stage and out of the present
/// roles.
pub open spec fn offstage_step(before: GameStatus, role_id: i32, after: GameStatus) -> bool {
    &&& after.onstage_role_ids@ == without(before.onstage_role_ids@, role_id)
    &&& after.present_role_ids@ == before.present_role_ids@.remove(role_id)
    &&& after == (GameStatus {
        onstage_role_ids: after.onstage_role_ids,
        present_role_ids: after.present_role_ids,
        ..before
    })
}

/// Taking a role out of a list keeps every other entry in its order: the
/// result is the list filtered to the entries that are not the role.
pub proof fn law_without_keeps_order(s: Seq<i32>, r: i32)
    ensures
        without(s, r) == s.filter(|x: i32| x != r),
    decreases s.len(),
{
    reveal(Seq::filter);
    if s.len() > 0 {
        law_without_keeps_order(s.drop_last(), r);
    }
}

/// An id is in `without(s, r)` exactly when it is in `s` and is not `r`.
pub proof fn lemma_without_contains(s: Seq<i32>, r: i32, x: i32)
    ensures
        without(s, r).contains(x) <==> (s.contains(x) && x != r),
    decreases s.len(),
{
    if s.len() > 0 {
        lemma_without_contains(s.drop_last(), r, x);
        let w = without(s.drop_last(), r);
        if s.contains(x) {
            let i = choose|i: int| 0 <= i < s.len() && s[i] == x;
            if i < s.len() - 1 {
                assert(s.drop_last()[i] == x);
            }
        }
        if s.drop_last().contains(x) {
            let i = choose|i: int| 0 <= i < s.drop_last().len() && s.drop_last()[i] == x;
            assert(s[i] == x);
        }
        if s.last() != r {
            if w.push(s.last()).contains(x) {
                let i = choose|i: int| 0 <= i < w.push(s.last()).len() && w.push(s.last())[i] == x;
                if i < w.len() {
                    assert(w[i] == x);
                } else {
                    assert(s[s.len() - 1] == x);
                }
            }
            if w.contains(x) {
                let i = choose|i: int| 0 <= i < w.len() && w[i] == x;
                assert(w.push(s.last())[i] == x);
            }
            if x == s.last() && x != r {
                assert(w.push(s.last())[w.len() as int] == x);
            }
        }
    }
}

/// Putting a role on stage twice is putting it on stage once.
pub proof fn law_onstage_idempotent(s0: GameStatus, role_id: i32, s1: GameStatus, s2: GameStatus)
    requires
        onstage_step(s0, role_id, s1),
        onstage_step(s1, role_id, s2),
    ensures
        s2.onstage_role_ids@ == s1.onstage_role_ids@,
        s2.present_role_ids@ == s1.present_role_ids@,
{
    if !s0.onstage_role_ids@.contains(role_id) {
        assert(s1.onstage_role_ids@[s0.onstage_role_ids@.len() as int] == role_id);
    }
    assert(s1.present_role_ids@.insert(role_id) =~= s1.present_role_ids@);
}

/// A role put on stage and then taken off is neither on stage nor present,
/// and every other role is present afterwards exactly when it was before.
pub proof fn law_offstage_undoes_onstage(s0: GameStatus, role_id: i32, s1: GameStatus, s2: GameStatus)
    requires
        onstage_step(s0, role_id, s1),
        offstage_step(s1, role_id, s2),
    ensures
        !s2.present_role_ids@.contains(role_id),
        !s2.onstage_role_ids@.contains(role_id),
        forall|x: i32| x != role_id ==> (s2.present_role_ids@.contains(x) <==> s0.present_role_ids@.contains(x)),
        forall|x: i32| x != role_id ==> (s2.onstage_role_ids@.contains(x) <==> s0.onstage_role_ids@.contains(x)),
{
    lemma_without_contains(s1.onstage_role_ids@, role_id, role_id);
    assert forall|x: i32| x != role_id implies (s2.onstage_role_ids@.contains(x) <==> s0.onstage_role_ids@.contains(x)) by {
        lemma_without_contains(s1.onstage_role_ids@, role_id, x);
        if !s0.onstage_role_ids@.contains(role_id) {
            let p = s0.onstage_role_ids@;
            if p.push(role_id).contains(x) {
                let i = choose|i: int| 0 <= i < p.push(role_id).len() && p.push(role_id)[i] == x;
                assert(p[i] == x);
            }
            if p.contains(x) {
                let i = choose|i: int| 0 <= i < p.len() && p[i] == x;
                assert(p.push(role_id)[i] == x);
            }
        }
    }
}

/// Where a line just added to the dialogue is written.
#[derive(Clone, Copy, Debug, PartialEq, Eq, Structural)]
pub enum LinePersistence {
    /// Not written: it is the persona line that opens every dialogue.
    Skip,
    /// Appended to the active save.
    AppendTo(i32),
    /// Appended to the main role's auto-save slot, which becomes the active save.
    AppendToAutoSlot,
}

/// Where a line appended to `before` is written, `len` being the number of
/// lines once it is added.
pub open spec fn persistence_for(before: GameStatus, len: nat) -> LinePersistence {
    if len <= 1 {
        LinePersistence::Skip
    } else {
        match before.active_save_id {
            Some(id) => LinePersistence::AppendTo(id),
            None => LinePersistence::AppendToAutoSlot,
        }
    }
}

/// All state shared at run time by the game.
pub struct GameStatus {
    pub player: Player,
    /// The lines of the dialogue, which the roles' memories are built from.
    pub line_list: Vec<GameLine>,
    /// The role currently spoken to.
    pub current_role_id: Option<i32>,
    /// The roles shown on stage, in order.
    pub onstage_role_ids: Vec<i32>,
    /// The roles present in the scene; only they perceive new lines.
    pub present_role_ids: HashSet<i32>,
    /// The protagonist of the game.
    pub main_role_id: Option<i32>,
    pub background: String,
    pub present_pic: String,
    pub background_music: String,
    pub background_effect: String,
    /// The scene chosen by the player.
    pub current_scene_id: Option<String>,
    /// The scene that the last processed message was in.
    pub last_processed_scene_id: Option<String>,
    pub global_variables: Vec<GlobalVariable>,
    pub completed_scripts: Vec<String>,
    pub last_dialog_time: Option<DialogTime>,
    pub script_status: Option<ScriptStatus>,
    /// The save that new lines are written to.
    pub active_save_id: Option<i32>,
    /// Counts trial sessions; a generation that started under another value
    /// is stale.
    pub preview_generation: u64,
    /// The player has entered during this session.
    pub player_entered: bool,
    /// Changing the scene produces narration.
    pub scene_awareness_enabled: bool,
}

/// The fields of the game status that are kept in a save.
pub struct GameStatusSnapshot {
    pub present_role_ids: Vec<i32>,
    pub current_role_id: Option<i32>,
    pub background: String,
    pub background_music: String,
    pub background_effect: String,
    pub current_scene_id: Option<String>,
    pub global_variables: Vec<GlobalVariable>,
    pub completed_scripts: Vec<String>,
    /// The last dialogue time as RFC 3339 text.
    pub last_dialog_time: Option<String>,
    pub scene_awareness_enabled: bool,
}

/// The default of a missing `scene_awareness_enabled` in a stored snapshot.
pub fn default_true() -> (b: bool)
    ensures
        b,
{
    true
}

/// The default of a missing `background_music` in a stored snapshot.
pub fn default_background_music() -> (s: String)
    ensures
        s@ == "none"@,
{
    String::from_str("none")
}

/// The default of a missing `background_effect` in a stored snapshot.
pub fn default_background_effect() -> (s: String)
    ensures
        s@ == "none"@,
{
    String::from_str("none")
}

impl GameStatusSnapshot {
    /// The snapshot has no variable twice (it is a map).
    pub open spec fn wf(&self) -> bool {
        keys_distinct(self.global_variables@)
    }

    /// The empty snapshot, used when a save's stored status cannot be read:
    /// every field empty or false.
    pub fn empty() -> (s: GameStatusSnapshot)
        ensures
            s.wf(),
            s.present_role_ids@.len() == 0,
            s.current_role_id is None,
            s.background@.len() == 0,
            s.background_music@.len() == 0,
            s.background_effect@.len() == 0,
            s.current_scene_id is None,
            s.global_variables@.len() == 0,
            s.completed_scripts@.len() == 0,
            s.last_dialog_time is None,
            !s.scene_awareness_enabled,
    {
        GameStatusSnapshot {
            present_role_ids: Vec::new(),
            current_role_id: None,
            background: String::new(),
            background_music: String::new(),
            background_effect: String::new(),
            current_scene_id: None,
            global_variables: Vec::new(),
            completed_scripts: Vec::new(),
            last_dialog_time: None,
            scene_awareness_enabled: false,
        }
    }
}

/// `snap` is the snapshot of `gs`.
pub open spec fn is_snapshot_of(gs: GameStatus, snap: GameStatusSnapshot) -> bool {
    &&& lists_ids(snap.present_role_ids@, gs.present_role_ids@)
    &&& snap.current_role_id == gs.current_role_id
    &&& snap.background == gs.background
    &&& snap.background_music == gs.background_music
    &&& snap.background_effect == gs.background_effect
    &&& snap.current_scene_id == gs.current_scene_id
    &&& snap.global_variables@ == gs.global_variables@
    &&& snap.completed_scripts@ == gs.completed_scripts@
    &&& opt_view(snap.last_dialog_time) == (match gs.last_dialog_time {
        Some(t) => rfc3339_text(t.unix_secs, t.nanos, t.utc_offset_secs),
        None => None,
    })
    &&& snap.scene_awareness_enabled == gs.scene_awareness_enabled
}

/// `after` is `before` with the scene restored from `snap`.
pub open spec fn is_snapshot_applied(before: GameStatus, snap: GameStatusSnapshot, after: GameStatus) -> bool {
    &&& after.background == snap.background
    &&& after.background_music == snap.background_music
    &&& after.background_effect == snap.background_effect
    &&& after.current_scene_id == snap.current_scene_id
    &&& after.global_variables@ == snap.global_variables@
    &&& after.completed_scripts@ == dedup_texts(snap.completed_scripts@)
    &&& (after.last_dialog_time is Some <==> (snap.last_dialog_time is Some
        && rfc3339_instant(snap.last_dialog_time->0@) is Some))
    &&& (after.last_dialog_time matches Some(t) ==> rfc3339_instant(snap.last_dialog_time->0@) == Some(
        (t.unix_secs, t.nanos),
    ))
    &&& after.current_role_id == snap.current_role_id
    &&& after.present_role_ids@ == snap.present_role_ids@.to_set()
    &&& after.onstage_role_ids@ == snap.present_role_ids@
    &&& after.scene_awareness_enabled == snap.scene_awareness_enabled
    &&& after.player == before.player
    &&& after.line_list == before.line_list
    &&& after.main_role_id == before.main_role_id
    &&& after.present_pic == before.present_pic
    &&& after.last_processed_scene_id == before.last_processed_scene_id
    &&& after.script_status == before.script_status
    &&& after.active_save_id == before.active_save_id
    &&& after.preview_generation == before.preview_generation
    &&& after.player_entered == before.player_entered
}

proof fn lemma_dedup_texts(s: Seq<String>)
    ensures
        texts_distinct(dedup_texts(s)),
        forall|t: Seq<char>| has_text(dedup_texts(s), t) <==> has_text(s, t),
        texts_distinct(s) ==> dedup_texts(s) == s,
    decreases s.len(),
{
    if s.len() > 0 {
        lemma_dedup_texts(s.drop_last());
        let d = dedup_texts(s.drop_last());
        assert forall|t: Seq<char>| has_text(s, t) <==> (has_text(s.drop_last(), t) || t == s.last()@) by {
            if has_text(s, t) {
                let i = choose|i: int| 0 <= i < s.len() && s[i]@ == t;
                if i < s.len() - 1 {
                    assert(s.drop_last()[i]@ == t);
                }
            }
            if has_text(s.drop_last(), t) {
                let i = choose|i: int| 0 <= i < s.drop_last().len() && s.drop_last()[i]@ == t;
                assert(s[i]@ == t);
            }
            if t == s.last()@ {
                assert(s[s.len() - 1]@ == t);
            }
        }
        if !has_text(d, s.last()@) {
            assert forall|t: Seq<char>| has_text(d.push(s.last()), t) <==> (has_text(d, t) || t == s.last()@) by {
                if has_text(d.push(s.last()), t) {
                    let i = choose|i: int| 0 <= i < d.push(s.last()).len() && d.push(s.last())[i]@ == t;
                    if i < d.len() {
                        assert(d[i]@ == t);
                    }
                }
                if has_text(d, t) {
                    let i = choose|i: int| 0 <= i < d.len() && d[i]@ == t;
                    assert(d.push(s.last())[i]@ == t);
                }
                if t == s.last()@ {
                    assert(d.push(s.last())[d.len() as int]@ == t);
                }
            }
            assert forall|i: int, j: int| 0 <= i < j < d.push(s.last()).len() implies
                d.push(s.last())[i]@ != d.push(s.last())[j]@ by {
                if j == d.len() {
                    if d[i]@ == s.last()@ {
                        assert(has_text(d, s.last()@));
                    }
                }
            }
        }
        if texts_distinct(s) {
            assert(texts_distinct(s.drop_last()));
            assert(!has_text(s.drop_last(), s.last()@)) by {
                if has_text(s.drop_last(), s.last()@) {
                    let i = choose|i: int| 0 <= i < s.drop_last().len() && s.drop_last()[i]@ == s.last()@;
                    assert(s[i]@ == s[s.len() - 1]@);
                }
            }
            assert(s.drop_last().push(s.last()) =~= s);
        }
    }
}

pub(crate) fn contains_id(v: &Vec<i32>, x: i32) -> (r: bool)
    ensures
        r == v@.contains(x),
{
    for i in 0..v.len()
        invariant
            forall|k: int| 0 <= k < i ==> v@[k] != x,
    {
        if v[i] == x {
            assert(v@[i as int] == x);
            return true;
        }
    }
    false
}

fn contains_text(v: &Vec<String>, t: &String) -> (r: bool)
    ensures
        r == has_text(v@, t@),
{
    for i in 0..v.len()
        invariant
            forall|k: int| 0 <= k < i ==> v@[k]@ != t@,
    {
        if v[i] == *t {
            assert(v@[i as int]@ == t@);
            return true;
        }
    }
    false
}

/// The set of the ids.
fn ids_set(v: &Vec<i32>) -> (s: HashSet<i32>)
    ensures
        s@ == v@.to_set(),
{
    let mut s: HashSet<i32> = HashSet::new();
    for i in 0..v.len()
        invariant
            s@ == v@.take(i as int).to_set(),
    {
        assert(v@.take(i + 1) =~= v@.take(i as int).push(v@[i as int]));
        proof {
            v@.take(i as int).lemma_push_to_set_commute(v@[i as int]);
        }
        s.insert(v[i]);
    }
    assert(v@.take(v.len() as int) =~= v@);
    s
}

/// The ids of the set, each once, in the order the set hands them out.
pub(crate) fn set_ids(s: &HashSet<i32>) -> (v: Vec<i32>)
    ensures
        lists_ids(v@, s@),
{
    let mut v: Vec<i32> = Vec::new();
    for x in it: s.iter()
        invariant
            v@ == it.seq().take(it.index() as int).map_values(|r: &i32| *r),
    {
        v.push(*x);
    }
    proof {
        let keys = vstd::std_specs::iter::IteratorSpec::remaining(&vstd::std_specs::hash::spec_hash_keys_iter(s));
        assert(v@ =~= keys.unref());
    }
    v
}

fn collect_texts(s: &Vec<String>) -> (r: Vec<String>)
    ensures
        r@ == dedup_texts(s@),
{
    let mut r: Vec<String> = Vec::new();
    for i in 0..s.len()
        invariant
            r@ == dedup_texts(s@.take(i as int)),
    {
        assert(s@.take(i + 1).drop_last() =~= s@.take(i as int));
        if !contains_text(&r, &s[i]) {
            r.push(s[i].clone());
        }
    }
    assert(s@.take(s.len() as int) =~= s@);
    r
}

fn copy_texts(s: &Vec<String>) -> (r: Vec<String>)
    ensures
        r@ == s@,
{
    let mut r: Vec<String> = Vec::new();
    for i in 0..s.len()
        invariant
            r@ == s@.take(i as int),
    {
        r.push(s[i].clone());
        assert(r@ =~= s@.take(i + 1));
    }
    assert(s@.take(s.len() as int) =~= s@);
    r
}

fn copy_variables(s: &Vec<GlobalVariable>) -> (r: Vec<GlobalVariable>)
    ensures
        r@ == s@,
{
    let mut r: Vec<GlobalVariable> = Vec::new();
    for i in 0..s.len()
        invariant
            r@ == s@.take(i as int),
    {
        r.push(s[i].duplicate());
        assert(r@ =~= s@.take(i + 1));
    }
    assert(s@.take(s.len() as int) =~= s@);
    r
}

impl GameStatus {
    /// Well-formed: the completed scripts and the variable names are sets.
    pub open spec fn wf(&self) -> bool {
        &&& texts_distinct(self.completed_scripts@)
        &&& keys_distinct(self.global_variables@)
    }

    /// The status at the start of a game: no lines, nobody on stage, no
    /// scene, no variables, scene awareness on.
    pub fn new() -> (gs: GameStatus)
        ensures
            gs.wf(),
            gs.player.user_name@.len() == 0,
            gs.line_list@.len() == 0,
            gs.current_role_id is None,
            gs.onstage_role_ids@.len() == 0,
            gs.present_role_ids@ == Set::<i32>::empty(),
            gs.main_role_id is None,
            gs.background@.len() == 0,
            gs.present_pic@.len() == 0,
            gs.background_music@.len() == 0,
            gs.background_effect@.len() == 0,
            gs.current_scene_id is None,
            gs.last_processed_scene_id is None,
            gs.global_variables@.len() == 0,
            gs.completed_scripts@.len() == 0,
            gs.last_dialog_time is None,
            gs.script_status is None,
            gs.active_save_id is None,
            gs.preview_generation == 0,
            !gs.player_entered,
            gs.scene_awareness_enabled,
    {
        GameStatus {
            player: Player { user_name: String::new() },
            line_list: Vec::new(),
            current_role_id: None,
            onstage_role_ids: Vec::new(),
            present_role_ids: HashSet::new(),
            main_role_id: None,
            background: String::new(),
            present_pic: String::new(),
            background_music: String::new(),
            background_effect: String::new(),
            current_scene_id: None,
            last_processed_scene_id: None,
            global_variables: Vec::new(),
            completed_scripts: Vec::new(),
            last_dialog_time: None,
            script_status: None,
            active_save_id: None,
            preview_generation: 0,
            player_entered: false,
            scene_awareness_enabled: true,
        }
    }

    /// The fields kept in a save.
    pub fn to_snapshot(&self) -> (snap: GameStatusSnapshot)
        ensures
            is_snapshot_of(*self, snap),
    {
        let last_dialog_time = match &self.last_dialog_time {
            Some(t) => dialog_time_text(t),
            None => None,
        };
        GameStatusSnapshot {
            present_role_ids: set_ids(&self.present_role_ids),
            current_role_id: self.current_role_id,
            background: self.background.clone(),
            background_music: self.background_music.clone(),
            background_effect: self.background_effect.clone(),
            current_scene_id: copy_opt_string(&self.current_scene_id),
            global_variables: copy_variables(&self.global_variables),
            completed_scripts: copy_texts(&self.completed_scripts),
            last_dialog_time,
            scene_awareness_enabled: self.scene_awareness_enabled,
        }
    }

    /// Restores the scene from a snapshot: background, music, effect, scene,
    /// variables, completed scripts, last dialogue time, the role spoken to,
    /// the present roles (also put on stage) and scene awareness. The
    /// dialogue and everything else stay as they are.
    pub fn apply_snapshot(&mut self, snapshot: &GameStatusSnapshot)
        requires
            snapshot.wf(),
        ensures
            is_snapshot_applied(*old(self), *snapshot, *final(self)),
            final(self).wf(),
    {
        self.background = snapshot.background.clone();
        self.background_music = snapshot.background_music.clone();
        self.background_effect = snapshot.background_effect.clone();
        self.current_scene_id = copy_opt_string(&snapshot.current_scene_id);
        self.global_variables = copy_variables(&snapshot.global_variables);
        self.completed_scripts = collect_texts(&snapshot.completed_scripts);
        self.last_dialog_time = match &snapshot.last_dialog_time {
            Some(text) => parse_dialog_time(text.as_str()),
            None => None,
        };
        self.current_role_id = snapshot.current_role_id;
        self.present_role_ids = ids_set(&snapshot.present_role_ids);
        self.onstage_role_ids = copy_ids(&snapshot.present_role_ids);
        self.scene_awareness_enabled = snapshot.scene_awareness_enabled;
        proof {
            lemma_dedup_texts(snapshot.completed_scripts@);
        }
    }
}

impl GameStatus {
    /// Adds a line to the dialogue; the roles present now are recorded as
    /// having perceived it. Returns where the new line is to be written: the
    /// first line (the persona line every dialogue opens with) is not
    /// written; later lines go to the active save or, without one, to the
    /// main role's auto-save slot.
    pub fn add_line(&mut self, line: LineBase) -> (persist: LinePersistence)
        ensures
            final(self).line_list@.len() == old(self).line_list@.len() + 1,
            final(self).line_list@.take(old(self).line_list@.len() as int) == old(self).line_list@,
            final(self).line_list@.last().base == line,
            lists_ids(final(self).line_list@.last().perceived_role_ids@, old(self).present_role_ids@),
            *final(self) == (GameStatus { line_list: final(self).line_list, ..*old(self) }),
            persist == persistence_for(*old(self), final(self).line_list@.len()),
    {
        let perceived = set_ids(&self.present_role_ids);
        let game_line = GameLine::from_base(line, perceived);
        self.line_list.push(game_line);
        assert(self.line_list@.take(old(self).line_list@.len() as int) =~= old(self).line_list@);
        if self.line_list.len() > 1 {
            match self.active_save_id {
                Some(id) => LinePersistence::AppendTo(id),
                None => LinePersistence::AppendToAutoSlot,
            }
        } else {
            LinePersistence::Skip
        }
    }

    /// Records the save that new lines are written to; after a line was
    /// appended to the main role's auto-save slot, that slot becomes the
    /// active save.
    pub fn record_active_save(&mut self, save_id: i32)
        ensures
            final(self).active_save_id == Some(save_id),
            *final(self) == (GameStatus { active_save_id: Some(save_id), ..*old(self) }),
    {
        self.active_save_id = Some(save_id);
    }

    /// The number of lines that are not persona (system) lines.
    pub fn chat_message_count(&self) -> (n: usize)
        ensures
            n == chat_count(self.line_list@),
    {
        let mut n: usize = 0;
        for i in 0..self.line_list.len()
            invariant
                n == chat_count(self.line_list@.take(i as int)),
                n <= i,
        {
            assert(self.line_list@.take(i + 1).drop_last() =~= self.line_list@.take(i as int));
            if self.line_list[i].attribute() != LineAttribute::System {
                n = n + 1;
            }
        }
        assert(self.line_list@.take(self.line_list.len() as int) =~= self.line_list@);
        n
    }

    /// Puts a role on stage (at the end, unless it is there already) and
    /// makes it present.
    pub fn onstage_role(&mut self, role_id: i32)
        requires
            old(self).wf(),
        ensures
            final(self).wf(),
            onstage_step(*old(self), role_id, *final(self)),
    {
        if !contains_id(&self.onstage_role_ids, role_id) {
            self.onstage_role_ids.push(role_id);
        }
        self.present_role_ids.insert(role_id);
    }

    /// Takes a role off stage and out of the present roles.
    pub fn offstage_role(&mut self, role_id: i32)
        requires
            old(self).wf(),
        ensures
            final(self).wf(),
            offstage_step(*old(self), role_id, *final(self)),
            !final(self).present_role_ids@.contains(role_id),
            !final(self).onstage_role_ids@.contains(role_id),
            final(self).onstage_role_ids@ == old(self).onstage_role_ids@.filter(|x: i32| x != role_id),
    {
        proof {
            law_without_keeps_order(self.onstage_role_ids@, role_id);
        }
        let onstage = remove_id(&self.onstage_role_ids, role_id);
        self.onstage_role_ids = onstage;
        self.present_role_ids.remove(&role_id);
    }

    /// Sets a global variable, replacing its value if it is set already.
    pub fn set_variable(&mut self, key: String, value: serde_json::Value)
        requires
            old(self).wf(),
        ensures
            final(self).wf(),
            forall|k: Seq<char>| #[trigger] var_lookup(final(self).global_variables@, k) == (if k == key@ {
                Some(value)
            } else {
                var_lookup(old(self).global_variables@, k)
            }),
            *final(self) == (GameStatus { global_variables: final(self).global_variables, ..*old(self) }),
    {
        let ghost old_vars = self.global_variables@;
        let mut i: usize = 0;
        while i < self.global_variables.len()
            invariant
                self.global_variables@ == old_vars,
                i <= old_vars.len(),
                forall|j: int| 0 <= j < i ==> old_vars[j].key@ != key@,
            ensures
                self.global_variables@ == old_vars,
                i <= old_vars.len(),
                forall|j: int| 0 <= j < i ==> old_vars[j].key@ != key@,
                i < old_vars.len() ==> old_vars[i as int].key@ == key@,
            decreases old_vars.len() - i,
        {
            if self.global_variables[i].key == key {
                break;
            }
            i = i + 1;
        }
        if i < self.global_variables.len() {
            let ghost k_old = self.global_variables@[i as int].key;
            self.global_variables.set(i, GlobalVariable { key, value });
            proof {
                let nv = self.global_variables@;
                assert forall|a: int, b: int| 0 <= a < b < nv.len() implies nv[a].key@ != nv[b].key@ by {
                    if a != i && b != i {
                        assert(nv[a] == old_vars[a] && nv[b] == old_vars[b]);
                    } else if a == i {
                        assert(nv[b] == old_vars[b]);
                        assert(old_vars[i as int].key@ != old_vars[b].key@);
                    } else {
                        assert(nv[a] == old_vars[a]);
                        assert(old_vars[a].key@ != old_vars[i as int].key@);
                    }
                }
                assert forall|k: Seq<char>| #[trigger] var_lookup(nv, k) == (if k == key@ {
                    Some(value)
                } else {
                    var_lookup(old_vars, k)
                }) by {
                    if k == key@ {
                        assert(nv[i as int].key@ == k);
                        let c = choose|c: int| 0 <= c < nv.len() && nv[c].key@ == k;
                        if c != i {
                            if c < i {
                                assert(nv[c].key@ != nv[i as int].key@);
                            } else {
                                assert(nv[i as int].key@ != nv[c].key@);
                            }
                        }
                    } else {
                        if exists|c: int| 0 <= c < nv.len() && nv[c].key@ == k {
                            let c = choose|c: int| 0 <= c < nv.len() && nv[c].key@ == k;
                            assert(c != i);
                            assert(old_vars[c] == nv[c]);
                            let c2 = choose|c2: int| 0 <= c2 < old_vars.len() && old_vars[c2].key@ == k;
                            if c2 != c {
                                if c2 == i {
                                    assert(old_vars[c2].key@ == key@);
                                } else if c2 < c {
                                    assert(old_vars[c2].key@ != old_vars[c].key@);
                                } else {
                                    assert(old_vars[c].key@ != old_vars[c2].key@);
                                }
                            }
                        } else {
                            if exists|c: int| 0 <= c < old_vars.len() && old_vars[c].key@ == k {
                                let c = choose|c: int| 0 <= c < old_vars.len() && old_vars[c].key@ == k;
                                if c == i {
                                    assert(old_vars[c].key@ == key@);
                                } else {
                                    assert(nv[c] == old_vars[c]);
                                }
                            }
                        }
                    }
                }
            }
        } else {
            self.global_variables.push(GlobalVariable { key, value });
            proof {
                let nv = self.global_variables@;
                assert forall|a: int, b: int| 0 <= a < b < nv.len() implies nv[a].key@ != nv[b].key@ by {
                    if b == old_vars.len() {
                        assert(nv[a] == old_vars[a]);
                    } else {
                        assert(nv[a] == old_vars[a] && nv[b] == old_vars[b]);
                    }
                }
                assert forall|k: Seq<char>| #[trigger] var_lookup(nv, k) == (if k == key@ {
                    Some(value)
                } else {
                    var_lookup(old_vars, k)
                }) by {
                    let n = old_vars.len() as int;
                    if k == key@ {
                        assert(nv[n].key@ == k);
                        let c = choose|c: int| 0 <= c < nv.len() && nv[c].key@ == k;
                        if c != n {
                            assert(nv[c] == old_vars[c]);
                        }
                    } else {
                        if exists|c: int| 0 <= c < nv.len() && nv[c].key@ == k {
                            let c = choose|c: int| 0 <= c < nv.len() && nv[c].key@ == k;
                            assert(nv[c] == old_vars[c]);
                            let c2 = choose|c2: int| 0 <= c2 < old_vars.len() && old_vars[c2].key@ == k;
                            if c2 != c {
                                if c2 < c {
                                    assert(old_vars[c2].key@ != old_vars[c].key@);
                                } else {
                                    assert(old_vars[c].key@ != old_vars[c2].key@);
                                }
                            }
                        } else {
                            if exists|c: int| 0 <= c < old_vars.len() && old_vars[c].key@ == k {
                                let c = choose|c: int| 0 <= c < old_vars.len() && old_vars[c].key@ == k;
                                assert(nv[c] == old_vars[c]);
                            }
                        }
                    }
                }
            }
        }
    }

    /// The value of a global variable, if it is set.
    pub fn get_variable(&self, key: &str) -> (value: Option<&serde_json::Value>)
        requires
            self.wf(),
        ensures
            match value {
                Some(v) => var_lookup(self.global_variables@, key@) == Some(*v),
                None => var_lookup(self.global_variables@, key@) is None,
            },
    {
        let wanted = String::from_str(key);
        let vars = &self.global_variables;
        for i in 0..vars.len()
            invariant
                vars@ == self.global_variables@,
                keys_distinct(vars@),
                wanted@ == key@,
                forall|j: int| 0 <= j < i ==> vars@[j].key@ != key@,
        {
            if vars[i].key == wanted {
                proof {
                    let c = choose|c: int| 0 <= c < vars@.len() && vars@[c].key@ == key@;
                    if c != i {
                        if c < i {
                            assert(vars@[c].key@ != key@);
                        } else {
                            assert(vars@[i as int].key@ != vars@[c].key@);
                        }
                    }
                }
                return Some(&vars[i].value);
            }
        }
        None
    }
}

fn remove_id(v: &Vec<i32>, r: i32) -> (out: Vec<i32>)
    ensures
        out@ == without(v@, r),
        !out@.contains(r),
        v@.no_duplicates() ==> out@.no_duplicates(),
{
    let mut out: Vec<i32> = Vec::new();
    for i in 0..v.len()
        invariant
            out@ == without(v@.take(i as int), r),
            !out@.contains(r),
            forall|k: int| 0 <= k < out@.len() ==> v@.take(i as int).contains(#[trigger] out@[k]),
            v@.no_duplicates() ==> out@.no_duplicates(),
    {
        assert(v@.take(i + 1).drop_last() =~= v@.take(i as int));
        assert(v@.take(i + 1).last() == v@[i as int]);
        assert(without(v@.take(i + 1), r) == (if v@[i as int] != r {
            without(v@.take(i as int), r).push(v@[i as int])
        } else {
            without(v@.take(i as int), r)
        }));
        let ghost before = out@;
        if v[i] != r {
            proof {
                if v@.no_duplicates() {
                    assert forall|k: int| 0 <= k < before.len() implies before[k] != v@[i as int] by {
                        assert(v@.take(i as int).contains(before[k]));
                        let w = choose|w: int| 0 <= w < i && v@.take(i as int)[w] == before[k];
                        assert(v@[w] == before[k]);
                    }
                }
            }
            out.push(v[i]);
            proof {
                assert forall|k: int| 0 <= k < out@.len() implies v@.take(i + 1).contains(#[trigger] out@[k]) by {
                    if k < before.len() {
                        let w = choose|w: int| 0 <= w < i && v@.take(i as int)[w] == before[k];
                        assert(v@.take(i + 1)[w] == out@[k]);
                    } else {
                        assert(v@.take(i + 1)[i as int] == out@[k]);
                    }
                }
            }
        } else {
            proof {
                assert forall|k: int| 0 <= k < out@.len() implies v@.take(i + 1).contains(#[trigger] out@[k]) by {
                    let w = choose|w: int| 0 <= w < i && v@.take(i as int)[w] == before[k];
                    assert(v@.take(i + 1)[w] == out@[k]);
                }
            }
        }
    }
    assert(v@.take(v.len() as int) =~= v@);
    out
}

/// Once the auto-save slot a line went to is recorded as the active save,
/// every later line (past the persona line) is written to that save, not to
/// the auto-save slot again.
pub proof fn law_recorded_slot_takes_later_lines(s0: GameStatus, s1: GameStatus, slot: i32, s2: GameStatus, len: nat)
    requires
        persistence_for(s0, s0.line_list@.len() + 1) == LinePersistence::AppendToAutoSlot,
        s1 == (GameStatus { active_save_id: Some(slot), ..s0 }),
        s2.active_save_id == s1.active_save_id,
        len > 1,
    ensures
        persistence_for(s2, len) == LinePersistence::AppendTo(slot),
{
}

/// Putting a role on or off stage keeps the stage and the present roles in
/// step: when the stage held exactly the present roles, it still does.
pub proof fn law_stage_kept_in_step(s0: GameStatus, role_id: i32, s1: GameStatus)
    requires
        s0.onstage_role_ids@.to_set() == s0.present_role_ids@,
        onstage_step(s0, role_id, s1) || offstage_step(s0, role_id, s1),
    ensures
        s1.onstage_role_ids@.to_set() == s1.present_role_ids@,
{
    if onstage_step(s0, role_id, s1) {
        if !s0.onstage_role_ids@.contains(role_id) {
            s0.onstage_role_ids@.lemma_push_to_set_commute(role_id);
        } else {
            assert(s0.present_role_ids@.insert(role_id) =~= s0.present_role_ids@);
        }
    } else {
        assert forall|x: i32| s1.onstage_role_ids@.to_set().contains(x) <==> s1.present_role_ids@.contains(x) by {
            lemma_without_contains(s0.onstage_role_ids@, role_id, x);
        }
        assert(s1.onstage_role_ids@.to_set() =~= s1.present_role_ids@);
    }
}

/// Restoring a snapshot taken of a well-formed status gives back exactly
/// the scene that was saved: background, music, effect, scene, variables,
/// completed scripts, the role spoken to, the present roles and scene
/// awareness. The roles on stage become the present roles, each once; where
/// stage and present roles were kept in step (as putting roles on and off
/// stage does), they are the roles of the saved stage. The dialogue, the
/// protagonist, the active save and the player stay as they were.
pub proof fn law_snapshot_round_trip(
    saved: GameStatus,
    snap: GameStatusSnapshot,
    before: GameStatus,
    after: GameStatus,
)
    requires
        saved.wf(),
        is_snapshot_of(saved, snap),
        is_snapshot_applied(before, snap, after),
    ensures
        after.background == saved.background,
        after.background_music == saved.background_music,
        after.background_effect == saved.background_effect,
        after.current_scene_id == saved.current_scene_id,
        after.global_variables@ == saved.global_variables@,
        after.completed_scripts@ == saved.completed_scripts@,
        after.current_role_id == saved.current_role_id,
        after.present_role_ids@ == saved.present_role_ids@,
        lists_ids(after.onstage_role_ids@, saved.present_role_ids@),
        saved.onstage_role_ids@.to_set() == saved.present_role_ids@ ==> after.onstage_role_ids@.to_set()
            == saved.onstage_role_ids@.to_set(),
        after.scene_awareness_enabled == saved.scene_awareness_enabled,
        after.line_list == before.line_list,
        after.main_role_id == before.main_role_id,
        after.active_save_id == before.active_save_id,
        after.player == before.player,
{
    lemma_dedup_texts(saved.completed_scripts@);
}

/// The chat messages are the lines that are not persona (system) lines.
pub proof fn law_chat_messages_are_non_system_lines(s: Seq<GameLine>)
    ensures
        chat_count(s) == s.filter(|l: GameLine| l.base.attribute != LineAttribute::System).len(),
    decreases s.len(),
{
    reveal(Seq::filter);
    if s.len() > 0 {
        law_chat_messages_are_non_system_lines(s.drop_last());
    }
}

/// A variable set under a key is found under that key with its value, and
/// a key that no variable has finds nothing.
pub proof fn law_variable_lookup(v: Seq<GlobalVariable>, key: Seq<char>, i: int)
    requires
        keys_distinct(v),
    ensures
        0 <= i < v.len() && v[i].key@ == key ==> var_lookup(v, key) == Some(v[i].value),
        (forall|k: int| 0 <= k < v.len() ==> v[k].key@ != key) ==> var_lookup(v, key) is None,
{
    if 0 <= i < v.len() && v[i].key@ == key {
        let c = choose|c: int| 0 <= c < v.len() && v[c].key@ == key;
        if c != i {
            if c < i {
                assert(v[c].key@ != v[i].key@);
            } else {
                assert(v[i].key@ != v[c].key@);
            }
        }
    }
}

/// Collecting texts keeps each text once: the result holds exactly the
/// texts of the input, none twice.
pub proof fn law_collected_texts_are_a_set(s: Seq<String>)
    ensures
        texts_distinct(dedup_texts(s)),
        forall|i: int| 0 <= i < s.len() ==> exists|j: int|
            0 <= j < dedup_texts(s).len() && dedup_texts(s)[j]@ == (#[trigger] s[i])@,
        forall|j: int| 0 <= j < dedup_texts(s).len() ==> exists|i: int|
            0 <= i < s.len() && s[i]@ == (#[trigger] dedup_texts(s)[j])@,
{
    lemma_dedup_texts(s);
    assert forall|i: int| 0 <= i < s.len() implies exists|j: int|
        0 <= j < dedup_texts(s).len() && dedup_texts(s)[j]@ == (#[trigger] s[i])@ by {
        assert(has_text(s, s[i]@));
        assert(has_text(dedup_texts(s), s[i]@));
    }
    assert forall|j: int| 0 <= j < dedup_texts(s).len() implies exists|i: int|
        0 <= i < s.len() && s[i]@ == (#[trigger] dedup_texts(s)[j])@ by {
        assert(has_text(dedup_texts(s), dedup_texts(s)[j]@));
        assert(has_text(s, dedup_texts(s)[j]@));
    }
}

/// Where an added line is written: nowhere for the first line of a dialogue
/// (its persona line), else the active save, else the protagonist's
/// auto-save slot.
pub proof fn law_line_persistence(before: GameStatus, len: nat)
    ensures
        len <= 1 ==> persistence_for(before, len) == LinePersistence::Skip,
        len > 1 && before.active_save_id is Some ==> persistence_for(before, len) == LinePersistence::AppendTo(
            before.active_save_id->0,
        ),
        len > 1 && before.active_save_id is None ==> persistence_for(before, len)
            == LinePersistence::AppendToAutoSlot,
{
}

/// A snapshot holds the status's scene field for field: the present roles
/// (each once), the role spoken to, background, music, effect, scene,
/// variables, completed scripts and scene awareness, and the last dialogue
/// time as its RFC 3339 text.
pub proof fn law_snapshot_holds_scene(gs: GameStatus, snap: GameStatusSnapshot)
    requires
        is_snapshot_of(gs, snap),
    ensures
        snap.present_role_ids@.to_set() == gs.present_role_ids@,
        snap.present_role_ids@.no_duplicates(),
        snap.current_role_id == gs.current_role_id,
        snap.background == gs.background,
        snap.background_music == gs.background_music,
        snap.background_effect == gs.background_effect,
        snap.current_scene_id == gs.current_scene_id,
        snap.global_variables@ == gs.global_variables@,
        snap.completed_scripts@ == gs.completed_scripts@,
        snap.scene_awareness_enabled == gs.scene_awareness_enabled,
        gs.last_dialog_time is None ==> snap.last_dialog_time is None,
{
}

/// Restoring a snapshot sets the scene fields from it, field for field, puts
/// its present roles on stage in its order, and leaves the dialogue, the
/// protagonist, the active save and the rest as they were.
pub proof fn law_snapshot_sets_scene(before: GameStatus, snap: GameStatusSnapshot, after: GameStatus)
    requires
        is_snapshot_applied(before, snap, after),
    ensures
        after.background == snap.background,
        after.background_music == snap.background_music,
        after.background_effect == snap.background_effect,
        after.current_scene_id == snap.current_scene_id,
        after.global_variables@ == snap.global_variables@,
        after.current_role_id == snap.current_role_id,
        after.present_role_ids@ == snap.present_role_ids@.to_set(),
        after.onstage_role_ids@ == snap.present_role_ids@,
        after.scene_awareness_enabled == snap.scene_awareness_enabled,
        snap.last_dialog_time is None ==> after.last_dialog_time is None,
        after.line_list == before.line_list,
        after.main_role_id == before.main_role_id,
        after.active_save_id == before.active_save_id,
        after.player == before.player,
        after.script_status == before.script_status,
        after.player_entered == before.player_entered,
{
}

/// Putting a role on stage adds it at the end of the stage when it is not
/// there yet, keeping the others in their order, and makes it present.
pub proof fn law_onstage_appends(s0: GameStatus, role_id: i32, s1: GameStatus)
    requires
        onstage_step(s0, role_id, s1),
    ensures
        !s0.onstage_role_ids@.contains(role_id) ==> s1.onstage_role_ids@ == s0.onstage_role_ids@ + seq![role_id],
        s0.onstage_role_ids@.contains(role_id) ==> s1.onstage_role_ids@ == s0.onstage_role_ids@,
        s1.present_role_ids@.contains(role_id),
        forall|x: i32| x != role_id ==> (s1.present_role_ids@.contains(x) <==> s0.present_role_ids@.contains(x)),
{
    assert(s0.onstage_role_ids@.push(role_id) =~= s0.onstage_role_ids@ + seq![role_id]);
}

} // verus!
