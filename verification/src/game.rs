//! The decisions of the game commands: numbering the player's messages,
//! the lines sent to the front end, which scene to show, and who may join or
//! leave the stage, with the narration that goes with it.

use vstd::prelude::*;
use crate::lines::{GameLine, LineBase, LineAttribute, copy_ids, copy_opt_string, opt_view};
use crate::game_status::{GameStatus, LinePersistence, lists_ids, persistence_for, without};
use crate::text::{int_decimal, push_decimal, push_str, push_pad2, pad2, nat_digits};

verus! {

/// A message typed by the player: sent by role 0 on the player's side.
pub open spec fn is_player_message(l: GameLine) -> bool {
    l.base.sender_role_id == Some(0i32) && l.base.attribute == LineAttribute::User
}

/// The number of player messages among the lines.
pub open spec fn player_message_count(s: Seq<GameLine>) -> nat
    decreases s.len(),
{
    if s.len() == 0 {
        0
    } else {
        player_message_count(s.drop_last()) + if is_player_message(s.last()) { 1nat } else { 0nat }
    }
}

/// Numbers the player's messages from 1 in dialogue order; every other line
/// gets no number.
pub fn compute_user_message_seqs(line_list: &[GameLine]) -> (seqs: Vec<Option<u32>>)
    requires
        line_list@.len() <= u32::MAX,
    ensures
        seqs@.len() == line_list@.len(),
        forall|i: int| 0 <= i < line_list@.len() ==> (#[trigger] seqs@[i]) == (if is_player_message(line_list@[i]) {
            Some(player_message_count(line_list@.take(i + 1)) as u32)
        } else {
            None
        }),
{
    let mut count: u32 = 0;
    let mut seqs: Vec<Option<u32>> = Vec::new();
    for i in 0..line_list.len()
        invariant
            line_list@.len() <= u32::MAX,
            count == player_message_count(line_list@.take(i as int)),
            count <= i,
            seqs@.len() == i,
            forall|k: int| 0 <= k < i ==> (#[trigger] seqs@[k]) == (if is_player_message(line_list@[k]) {
                Some(player_message_count(line_list@.take(k + 1)) as u32)
            } else {
                None
            }),
    {
        assert(line_list@.take(i + 1).drop_last() =~= line_list@.take(i as int));
        let gl = &line_list[i];
        if gl.base.sender_role_id == Some(0i32) && gl.attribute() == LineAttribute::User {
            count = count + 1;
            seqs.push(Some(count));
        } else {
            seqs.push(None);
        }
    }
    seqs
}

/// A dialogue line as the front end receives it.
pub struct GameLineInit {
    pub content: String,
    pub attribute: String,
    pub sender_role_id: Option<i32>,
    pub display_name: Option<String>,
    pub original_emotion: Option<String>,
    pub predicted_emotion: Option<String>,
    pub action_content: Option<String>,
    pub audio_file: Option<String>,
    pub perceived_role_ids: Vec<i32>,
    /// The number of the player's message (from 1), for player messages only.
    pub user_message_seq: Option<u32>,
    pub thinking: Option<String>,
    pub tts_content: Option<String>,
}

/// `init` is the front-end form of `line` with message number `seq`.
pub open spec fn is_line_init(line: GameLine, seq: Option<u32>, init: GameLineInit) -> bool {
    &&& init.content == line.base.content
    &&& init.attribute@ == line.base.attribute.name_spec()
    &&& init.sender_role_id == line.base.sender_role_id
    &&& init.display_name == line.base.display_name
    &&& init.original_emotion == line.base.original_emotion
    &&& init.predicted_emotion == line.base.predicted_emotion
    &&& init.action_content == line.base.action_content
    &&& init.audio_file == line.base.audio_file
    &&& init.perceived_role_ids@ == line.perceived_role_ids@
    &&& init.user_message_seq == seq
    &&& init.thinking == line.base.thinking
    &&& init.tts_content == line.base.tts_content
}

/// The front-end form of a line carries the line unchanged: its text,
/// sender, shown name, emotions, action, voice file, perceiving roles,
/// thinking and translation, and the message number it is given.
pub proof fn law_line_init_keeps_line(line: GameLine, seq: Option<u32>, init: GameLineInit)
    requires
        is_line_init(line, seq, init),
    ensures
        init.content == line.base.content,
        init.sender_role_id == line.base.sender_role_id,
        init.display_name == line.base.display_name,
        init.original_emotion == line.base.original_emotion,
        init.predicted_emotion == line.base.predicted_emotion,
        init.action_content == line.base.action_content,
        init.audio_file == line.base.audio_file,
        init.perceived_role_ids@ == line.perceived_role_ids@,
        init.thinking == line.base.thinking,
        init.tts_content == line.base.tts_content,
        init.user_message_seq == seq,
{
}

/// The dialogue as the front end receives it, player messages numbered.
pub fn build_game_line_inits(line_list: &Vec<GameLine>) -> (inits: Vec<GameLineInit>)
    requires
        line_list@.len() <= u32::MAX,
    ensures
        inits@.len() == line_list@.len(),
        forall|i: int| 0 <= i < line_list@.len() ==> is_line_init(line_list@[i], (if is_player_message(
            line_list@[i],
        ) {
            Some(player_message_count(line_list@.take(i + 1)) as u32)
        } else {
            None
        }), #[trigger] inits@[i]),
        forall|i: int| 0 <= i < line_list@.len() ==> {
            &&& (#[trigger] inits@[i]).content == line_list@[i].base.content
            &&& inits@[i].sender_role_id == line_list@[i].base.sender_role_id
            &&& inits@[i].display_name == line_list@[i].base.display_name
            &&& inits@[i].original_emotion == line_list@[i].base.original_emotion
            &&& inits@[i].predicted_emotion == line_list@[i].base.predicted_emotion
            &&& inits@[i].action_content == line_list@[i].base.action_content
            &&& inits@[i].audio_file == line_list@[i].base.audio_file
            &&& inits@[i].perceived_role_ids@ == line_list@[i].perceived_role_ids@
            &&& inits@[i].thinking == line_list@[i].base.thinking
            &&& inits@[i].tts_content == line_list@[i].base.tts_content
            &&& (inits@[i].user_message_seq is Some <==> (line_list@[i].base.sender_role_id == Some(0i32)
                && line_list@[i].base.attribute == LineAttribute::User))
        },
{
    let seqs = compute_user_message_seqs(line_list.as_slice());
    let mut inits: Vec<GameLineInit> = Vec::new();
    for i in 0..line_list.len()
        invariant
            seqs@.len() == line_list@.len(),
            forall|k: int| 0 <= k < line_list@.len() ==> (#[trigger] seqs@[k]) == (if is_player_message(line_list@[k]) {
                Some(player_message_count(line_list@.take(k + 1)) as u32)
            } else {
                None
            }),
            inits@.len() == i,
            forall|k: int| 0 <= k < i ==> is_line_init(line_list@[k], seqs@[k], #[trigger] inits@[k]),
    {
        let gl = &line_list[i];
        let init = GameLineInit {
            content: gl.base.content.clone(),
            attribute: String::from_str(gl.base.attribute.as_str()),
            sender_role_id: gl.base.sender_role_id,
            display_name: copy_opt_string(&gl.base.display_name),
            original_emotion: copy_opt_string(&gl.base.original_emotion),
            predicted_emotion: copy_opt_string(&gl.base.predicted_emotion),
            action_content: copy_opt_string(&gl.base.action_content),
            audio_file: copy_opt_string(&gl.base.audio_file),
            perceived_role_ids: copy_ids(&gl.perceived_role_ids),
            user_message_seq: seqs[i],
            thinking: copy_opt_string(&gl.base.thinking),
            tts_content: copy_opt_string(&gl.base.tts_content),
        };
        inits.push(init);
    }
    inits
}

/// The scene to show: the current one; without it, the one last chosen
/// (read from the settings); without that, one picked from the known scenes
/// by the clock's sub-second nanoseconds.
pub fn choose_scene_id(
    current: &Option<String>,
    last_chosen: Option<String>,
    scene_ids: &Vec<String>,
    nanos: u32,
) -> (sid: Option<String>)
    ensures
        sid == (if current is Some {
            *current
        } else if last_chosen is Some {
            last_chosen
        } else if scene_ids@.len() > 0 {
            Some(scene_ids@[(nanos as int) % (scene_ids@.len() as int)])
        } else {
            None
        }),
{
    match current {
        Some(id) => Some(id.clone()),
        None => match last_chosen {
            Some(id) => Some(id),
            None => {
                if scene_ids.len() > 0 {
                    let idx: usize = (nanos as usize) % scene_ids.len();
                    Some(scene_ids[idx].clone())
                } else {
                    None
                }
            },
        },
    }
}

impl GameStatus {
    /// Brings the status in line with what is shown when the game screen
    /// opens: `scene_id` becomes the current scene if it differs, and then
    /// that scene's background (`scene_background`, when the scene is found
    /// and its background is not empty) becomes the background; a stored
    /// scene-awareness setting (`Some(v)` when the key is present, with `v`
    /// its boolean value if it is one) replaces the current one, `true` where
    /// the stored value is not a boolean.
    pub fn restore_scene(&mut self, scene_id: Option<String>, scene_background: Option<String>, stored_awareness: Option<Option<bool>>)
        ensures
            opt_view(scene_id) != opt_view(old(self).current_scene_id) ==> {
                &&& final(self).current_scene_id == scene_id
                &&& final(self).background == (match scene_background {
                    Some(bg) => if bg@.len() > 0 { bg } else { old(self).background },
                    None => old(self).background,
                })
            },
            opt_view(scene_id) == opt_view(old(self).current_scene_id) ==> {
                &&& final(self).current_scene_id == old(self).current_scene_id
                &&& final(self).background == old(self).background
            },
            final(self).scene_awareness_enabled == (match stored_awareness {
                Some(Some(b)) => b,
                Some(None) => true,
                None => old(self).scene_awareness_enabled,
            }),
            *final(self) == (GameStatus {
                current_scene_id: final(self).current_scene_id,
                background: final(self).background,
                scene_awareness_enabled: final(self).scene_awareness_enabled,
                ..*old(self)
            }),
    {
        if !crate::lines::opt_string_eq(&scene_id, &self.current_scene_id) {
            self.current_scene_id = scene_id;
            if let Some(bg) = scene_background {
                if !bg.as_str().is_empty() {
                    self.background = bg;
                }
            }
        }
        match stored_awareness {
            Some(v) => {
                self.scene_awareness_enabled = match v {
                    Some(b) => b,
                    None => true,
                };
            },
            None => {},
        }
    }
}

/// The answer to a request to put a role on stage or take it off.
pub enum StageRequest {
    /// Refused with this error.
    Refused(String),
    /// Nothing to do; answered with `success: false` and this message.
    Unchanged(String),
    /// Go ahead.
    Proceed,
}

/// The request is refused with this error.
pub open spec fn is_refusal(r: StageRequest, message: Seq<char>) -> bool {
    match r {
        StageRequest::Refused(m) => m@ == message,
        _ => false,
    }
}

/// The request needs nothing done and is answered with this message.
pub open spec fn is_unchanged(r: StageRequest, message: Seq<char>) -> bool {
    match r {
        StageRequest::Unchanged(m) => m@ == message,
        _ => false,
    }
}

/// Whether a role may be added to the scene: never the player (role 0),
/// not in script mode, and not a role already present.
pub fn check_add_role(gs: &GameStatus, role_id: i32) -> (r: StageRequest)
    ensures
        role_id == 0 ==> is_refusal(r, "无法添加玩家角色 (role_id=0)"@),
        role_id != 0 && gs.script_status is Some ==> is_refusal(r, "剧本模式下无法手动添加角色到场景"@),
        role_id != 0 && gs.script_status is None && gs.present_role_ids@.contains(role_id) ==> is_unchanged(r, "角色已在场景中"@),
        role_id != 0 && gs.script_status is None && !gs.present_role_ids@.contains(role_id) ==> r is Proceed,
{
    if role_id == 0 {
        return StageRequest::Refused(String::from_str("无法添加玩家角色 (role_id=0)"));
    }
    if gs.script_status.is_some() {
        return StageRequest::Refused(String::from_str("剧本模式下无法手动添加角色到场景"));
    }
    if gs.present_role_ids.contains(&role_id) {
        return StageRequest::Unchanged(String::from_str("角色已在场景中"));
    }
    StageRequest::Proceed
}

/// Whether a role may be removed from the scene: never the player (role 0),
/// not in script mode, never the protagonist, and only a role present.
pub fn check_remove_role(gs: &GameStatus, role_id: i32) -> (r: StageRequest)
    ensures
        role_id == 0 ==> is_refusal(r, "无法移除玩家角色 (role_id=0)"@),
        role_id != 0 && gs.script_status is Some ==> is_refusal(r, "剧本模式下无法手动让角色退场"@),
        role_id != 0 && gs.script_status is None && gs.main_role_id == Some(role_id) ==> is_refusal(r, "无法移除主角"@),
        role_id != 0 && gs.script_status is None && gs.main_role_id != Some(role_id)
            && !gs.present_role_ids@.contains(role_id) ==> is_unchanged(r, "角色不在场景中"@),
        role_id != 0 && gs.script_status is None && gs.main_role_id != Some(role_id)
            && gs.present_role_ids@.contains(role_id) ==> r is Proceed,
{
    if role_id == 0 {
        return StageRequest::Refused(String::from_str("无法移除玩家角色 (role_id=0)"));
    }
    if gs.script_status.is_some() {
        return StageRequest::Refused(String::from_str("剧本模式下无法手动让角色退场"));
    }
    if gs.main_role_id == Some(role_id) {
        return StageRequest::Refused(String::from_str("无法移除主角"));
    }
    if !gs.present_role_ids.contains(&role_id) {
        return StageRequest::Unchanged(String::from_str("角色不在场景中"));
    }
    StageRequest::Proceed
}

/// The name shown for a role: its display name, or `角色<id>` without one.
pub open spec fn role_name_text(display_name: Option<String>, role_id: i32) -> Seq<char> {
    match display_name {
        Some(n) => n@,
        None => "角色"@ + int_decimal(role_id as int),
    }
}

/// The name shown for a role.
pub fn role_display_name(display_name: Option<String>, role_id: i32) -> (name: String)
    ensures
        name@ == role_name_text(display_name, role_id),
{
    match display_name {
        Some(n) => n,
        None => {
            let mut name = String::from_str("角色");
            push_decimal(&mut name, role_id);
            name
        },
    }
}

/// Some persona (system) line of the dialogue was spoken by the role.
pub open spec fn has_persona_line_spec(lines: Seq<GameLine>, role_id: i32) -> bool {
    exists|i: int| 0 <= i < lines.len() && lines[i].base.attribute == LineAttribute::System
        && lines[i].base.sender_role_id == Some(role_id)
}

/// Whether the dialogue already holds the role's persona line (so that a
/// role that comes back does not get it twice).
pub fn has_persona_line(lines: &Vec<GameLine>, role_id: i32) -> (r: bool)
    ensures
        r == has_persona_line_spec(lines@, role_id),
{
    for i in 0..lines.len()
        invariant
            forall|k: int| 0 <= k < i ==> !(lines@[k].base.attribute == LineAttribute::System
                && lines@[k].base.sender_role_id == Some(role_id)),
    {
        if lines[i].attribute() == LineAttribute::System && lines[i].base.sender_role_id == Some(role_id) {
            return true;
        }
    }
    false
}

/// The persona line of a role joining the scene.
pub fn persona_line(system_prompt: String, role_id: i32, name: String) -> (line: LineBase)
    ensures
        line.content == system_prompt,
        line.attribute == LineAttribute::System,
        line.sender_role_id == Some(role_id),
        line.display_name == Some(name),
        line.id is None,
        line.original_emotion is None,
        line.predicted_emotion is None,
        line.tts_content is None,
        line.action_content is None,
        line.thinking is None,
        line.tool_call is None,
        line.audio_file is None,
{
    let mut line = LineBase::new(system_prompt, LineAttribute::System);
    line.sender_role_id = Some(role_id);
    line.display_name = Some(name);
    line
}

/// A narration line on the player's side, shown under `display_name`.
pub fn narration_line(content: String, display_name: String) -> (line: LineBase)
    ensures
        line.content == content,
        line.attribute == LineAttribute::User,
        line.display_name == Some(display_name),
        line.sender_role_id is None,
        line.id is None,
        line.original_emotion is None,
        line.predicted_emotion is None,
        line.tts_content is None,
        line.action_content is None,
        line.thinking is None,
        line.tool_call is None,
        line.audio_file is None,
{
    let mut line = LineBase::new(content, LineAttribute::User);
    line.display_name = Some(display_name);
    line
}

/// The narration when a role joins (`<name>加入了对话`) or leaves
/// (`<name>离开了对话`) the dialogue.
pub fn stage_narration(name: &String, joined: bool) -> (text: String)
    ensures
        text@ == name@ + (if joined { "加入了对话"@ } else { "离开了对话"@ }),
{
    let mut text = name.clone();
    if joined {
        push_str(&mut text, "加入了对话");
    } else {
        push_str(&mut text, "离开了对话");
    }
    text
}

/// The answer when a role has joined (`<name> 已加入对话`) or left
/// (`<name> 已离开对话`) the dialogue.
pub fn stage_reply(name: &String, joined: bool) -> (text: String)
    ensures
        text@ == name@ + (if joined { " 已加入对话"@ } else { " 已离开对话"@ }),
{
    let mut text = name.clone();
    if joined {
        push_str(&mut text, " 已加入对话");
    } else {
        push_str(&mut text, " 已离开对话");
    }
    text
}

impl GameStatus {
    /// Takes a role off the stage; if it was the role spoken to, the
    /// protagonist becomes the role spoken to. Returns the protagonist's id
    /// when the role spoken to was switched to it.
    pub fn remove_role(&mut self, role_id: i32) -> (switched_to: Option<i32>)
        requires
            old(self).wf(),
        ensures
            final(self).wf(),
            final(self).onstage_role_ids@ == without(old(self).onstage_role_ids@, role_id),
            final(self).onstage_role_ids@ == old(self).onstage_role_ids@.filter(|x: i32| x != role_id),
            final(self).present_role_ids@ == old(self).present_role_ids@.remove(role_id),
            final(self).current_role_id == (if old(self).current_role_id == Some(role_id) {
                old(self).main_role_id
            } else {
                old(self).current_role_id
            }),
            switched_to == (if old(self).current_role_id == Some(role_id) {
                old(self).main_role_id
            } else {
                None
            }),
            *final(self) == (GameStatus {
                onstage_role_ids: final(self).onstage_role_ids,
                present_role_ids: final(self).present_role_ids,
                current_role_id: final(self).current_role_id,
                ..*old(self)
            }),
    {
        self.offstage_role(role_id);
        if self.current_role_id == Some(role_id) {
            self.current_role_id = self.main_role_id;
            self.main_role_id
        } else {
            None
        }
    }

    /// Marks the player's entry, once per session. Returns the role spoken
    /// to when an entry greeting is due: not when the player had already
    /// entered, nor when no role is spoken to.
    pub fn begin_player_entry(&mut self) -> (greet_role: Option<i32>)
        ensures
            entry_step(*old(self), *final(self), greet_role),
    {
        if self.player_entered {
            return None;
        }
        self.player_entered = true;
        self.current_role_id
    }
}

/// `after` is `before` once the player's entry is marked, and `greet_role`
/// the role that greets the player, if any.
pub open spec fn entry_step(before: GameStatus, after: GameStatus, greet_role: Option<i32>) -> bool {
    &&& after.player_entered
    &&& greet_role == (if before.player_entered { None } else { before.current_role_id })
    &&& after == (GameStatus { player_entered: true, ..before })
}

/// The player is greeted at most once per session: after one entry, a
/// second entry greets nobody and changes nothing.
pub proof fn law_player_greeted_once(s0: GameStatus, s1: GameStatus, g1: Option<i32>, s2: GameStatus, g2: Option<i32>)
    requires
        entry_step(s0, s1, g1),
        entry_step(s1, s2, g2),
    ensures
        g2 is None,
        s2 == s1,
{
}

/// The game's start-up data needs the role settings the AI service was
/// given: without them it is the error `AI 服务尚未初始化角色设定`.
pub fn require_role_settings<T>(settings: Option<T>) -> (r: Result<T, String>)
    ensures
        settings matches Some(s) ==> r == Ok::<T, String>(s),
        settings is None ==> (r matches Err(m) && m@ == "AI 服务尚未初始化角色设定"@),
{
    match settings {
        Some(s) => Ok(s),
        None => Err(String::from_str("AI 服务尚未初始化角色设定")),
    }
}

/// A local date and time as the clock gives it.
#[derive(Clone, Copy, Debug, PartialEq, Eq, Structural)]
pub struct LocalTime {
    pub year: i32,
    pub month: u32,
    pub day: u32,
    pub hour: u32,
    pub minute: u32,
    pub second: u32,
}

impl LocalTime {
    /// The fields are in their calendar ranges.
    pub open spec fn wf(&self) -> bool {
        &&& 1 <= self.month <= 12
        &&& 1 <= self.day <= 31
        &&& self.hour < 24
        &&& self.minute < 60
        &&& self.second < 61
    }
}

/// The entry greeting: `<player>回来了` when a save is being played,
/// `<ai>看到<player>过来了` otherwise, the player being called `玩家` when
/// they have no name.
pub open spec fn greeting_text(user_name: Seq<char>, ai_name: Seq<char>, has_save: bool) -> Seq<char> {
    let player = if user_name.len() == 0 { "玩家"@ } else { user_name };
    if has_save {
        player + "回来了"@
    } else {
        ai_name + "看到"@ + player + "过来了"@
    }
}

/// The entry greeting names the player, `玩家` when they have no name:
/// with a save being played it is the player's name followed by `回来了`,
/// otherwise the role's name, `看到`, the player's name and `过来了`.
pub proof fn law_greeting_names_player(user_name: Seq<char>, ai_name: Seq<char>)
    ensures
        user_name.len() == 0 ==> greeting_text(user_name, ai_name, true) == "玩家"@ + "回来了"@,
        user_name.len() == 0 ==> greeting_text(user_name, ai_name, false) == ai_name + "看到"@ + "玩家"@ + "过来了"@,
        user_name.len() > 0 ==> greeting_text(user_name, ai_name, true) == user_name + "回来了"@,
        user_name.len() > 0 ==> greeting_text(user_name, ai_name, false) == ai_name + "看到"@ + user_name + "过来了"@,
{
}

/// The time note of the entry greeting, `（现在是<M>月<D>日，<HH>:<MM>）`.
pub open spec fn time_note_text(t: LocalTime) -> Seq<char> {
    "（现在是"@ + nat_digits(t.month as nat) + "月"@ + nat_digits(t.day as nat) + "日，"@ + pad2(t.hour as nat)
        + ":"@ + pad2(t.minute as nat) + "）"@
}

/// The narration of the player's entry: the greeting, then `，` and the time
/// note.
pub fn entry_greeting(user_name: &String, ai_name: &String, has_active_save: bool, now: &LocalTime) -> (text: String)
    requires
        now.wf(),
    ensures
        text@ == greeting_text(user_name@, ai_name@, has_active_save) + "，"@ + time_note_text(*now),
        user_name@.len() == 0 && has_active_save ==> text@ == "玩家"@ + "回来了"@ + "，"@ + time_note_text(*now),
        user_name@.len() == 0 && !has_active_save ==> text@ == ai_name@ + "看到"@ + "玩家"@ + "过来了"@ + "，"@
            + time_note_text(*now),
        user_name@.len() > 0 && has_active_save ==> text@ == user_name@ + "回来了"@ + "，"@ + time_note_text(*now),
        user_name@.len() > 0 && !has_active_save ==> text@ == ai_name@ + "看到"@ + user_name@ + "过来了"@ + "，"@
            + time_note_text(*now),
{
    let mut text = String::new();
    if has_active_save {
        if user_name.as_str().is_empty() {
            push_str(&mut text, "玩家");
        } else {
            push_str(&mut text, user_name.as_str());
        }
        push_str(&mut text, "回来了");
    } else {
        push_str(&mut text, ai_name.as_str());
        push_str(&mut text, "看到");
        if user_name.as_str().is_empty() {
            push_str(&mut text, "玩家");
        } else {
            push_str(&mut text, user_name.as_str());
        }
        push_str(&mut text, "过来了");
    }
    push_str(&mut text, "，");
    push_str(&mut text, "（现在是");
    push_decimal(&mut text, now.month as i32);
    push_str(&mut text, "月");
    push_decimal(&mut text, now.day as i32);
    push_str(&mut text, "日，");
    push_pad2(&mut text, now.hour);
    push_str(&mut text, ":");
    push_pad2(&mut text, now.minute);
    push_str(&mut text, "）");
    proof {
        assert(int_decimal(now.month as i32 as int) == nat_digits(now.month as nat));
        assert(int_decimal(now.day as i32 as int) == nat_digits(now.day as nat));
    }
    assert(text@ =~= greeting_text(user_name@, ai_name@, has_active_save) + "，"@ + time_note_text(*now));
    text
}

/// One outfit of a character: the `name` and `prompt` entries of its
/// description, where present.
pub struct ClothesEntry {
    pub name: Option<String>,
    pub prompt: Option<String>,
}

/// The prompt of the outfit named `clothes_name`: that of the first outfit
/// with this name and a prompt; empty where there is none.
pub open spec fn clothes_prompt_text(clothes: Seq<ClothesEntry>, clothes_name: Seq<char>) -> Seq<char>
    decreases clothes.len(),
{
    if clothes.len() == 0 {
        seq![]
    } else if opt_view(clothes[0].name) == Some(clothes_name) && clothes[0].prompt is Some {
        clothes[0].prompt->0@
    } else {
        clothes_prompt_text(clothes.drop_first(), clothes_name)
    }
}

/// The prompt of the outfit named `clothes_name` among a character's
/// outfits (none when the character has no outfit list).
pub fn clothes_prompt(clothes: &Option<Vec<ClothesEntry>>, clothes_name: &str) -> (prompt: String)
    ensures
        prompt@ == (match clothes {
            Some(list) => clothes_prompt_text(list@, clothes_name@),
            None => seq![],
        }),
{
    match clothes {
        None => String::new(),
        Some(list) => {
            let wanted = String::from_str(clothes_name);
            let mut i: usize = 0;
            assert(list@.skip(0) =~= list@);
            while i < list.len()
                invariant
                    *clothes == Some(*list),
                    i <= list@.len(),
                    wanted@ == clothes_name@,
                    clothes_prompt_text(list@, clothes_name@) == clothes_prompt_text(list@.skip(i as int), clothes_name@),
                decreases list.len() - i,
            {
                let e = &list[i];
                assert(list@.skip(i as int)[0] == list@[i as int]);
                assert(list@.skip(i as int).drop_first() =~= list@.skip(i + 1));
                let target = Some(wanted.clone());
                assert(opt_view(target) == Some(clothes_name@));
                if crate::lines::opt_string_eq(&e.name, &target) {
                    if let Some(p) = &e.prompt {
                        assert(clothes_prompt_text(list@.skip(i as int), clothes_name@) == p@);
                        return p.clone();
                    }
                }
                i = i + 1;
            }
            assert(list@.skip(i as int).len() == 0);
            String::new()
        },
    }
}

/// The narration of a change of clothes: `<ai>换上了新服装：<clothes>，<prompt>`.
pub fn clothes_change_text(ai_name: &String, clothes_name: &str, prompt: &String) -> (text: String)
    ensures
        text@ == ai_name@ + "换上了新服装："@ + clothes_name@ + "，"@ + prompt@,
{
    let mut text = ai_name.clone();
    push_str(&mut text, "换上了新服装：");
    push_str(&mut text, clothes_name);
    push_str(&mut text, "，");
    push_str(&mut text, prompt.as_str());
    text
}

/// Changing clothes does something only when the character is not already
/// wearing the outfit.
pub fn clothes_change_needed(current_clothes: &String, clothes_name: &str) -> (needed: bool)
    ensures
        needed == (current_clothes@ != clothes_name@),
{
    let wanted = String::from_str(clothes_name);
    !(*current_clothes == wanted)
}

/// The error for a role that is not loaded: `角色 <id> 未加载`.
pub fn role_not_loaded_error(role_id: i32) -> (message: String)
    ensures
        message@ == "角色 "@ + int_decimal(role_id as int) + " 未加载"@,
{
    let mut message = String::from_str("角色 ");
    push_decimal(&mut message, role_id);
    push_str(&mut message, " 未加载");
    message
}

/// A role loaded for the game, as the game's role manager holds it: its
/// id, shown name, character name, the outfit it wears, and its outfits.
pub struct LoadedRole {
    pub role_id: i32,
    pub display_name: Option<String>,
    pub ai_name: String,
    pub current_clothes: String,
    pub clothes: Option<Vec<ClothesEntry>>,
}

/// A role with the id is loaded.
pub open spec fn role_loaded(roles: Seq<LoadedRole>, id: i32) -> bool {
    exists|i: int| 0 <= i < roles.len() && roles[i].role_id == id
}

/// `i` is the first loaded role with the id.
pub open spec fn is_first_role(roles: Seq<LoadedRole>, id: i32, i: int) -> bool {
    &&& 0 <= i < roles.len()
    &&& roles[i].role_id == id
    &&& forall|j: int| 0 <= j < i ==> roles[j].role_id != id
}

/// The position of the loaded role with the id.
pub open spec fn first_role(roles: Seq<LoadedRole>, id: i32) -> int {
    choose|i: int| is_first_role(roles, id, i)
}

/// The shown name of the role with the id, if it is loaded and has one.
pub open spec fn loaded_display_name(roles: Seq<LoadedRole>, id: i32) -> Option<String> {
    if role_loaded(roles, id) { roles[first_role(roles, id)].display_name } else { None }
}

/// Finds the loaded role with the id.
pub fn find_role(roles: &Vec<LoadedRole>, id: i32) -> (r: Option<usize>)
    ensures
        r is None <==> !role_loaded(roles@, id),
        r matches Some(i) ==> is_first_role(roles@, id, i as int) && first_role(roles@, id) == i,
{
    for i in 0..roles.len()
        invariant
            forall|j: int| 0 <= j < i ==> roles@[j].role_id != id,
    {
        if roles[i].role_id == id {
            proof {
                assert(is_first_role(roles@, id, i as int));
                let c = first_role(roles@, id);
                if c < i {
                    assert(roles@[c].role_id != id);
                } else if c > i {
                    assert(roles@[i as int].role_id != id);
                }
            }
            return Some(i);
        }
    }
    None
}

/// The shown name of the role with the id, if it is loaded and has one.
pub fn role_display_of(roles: &Vec<LoadedRole>, id: i32) -> (name: Option<String>)
    ensures
        name == loaded_display_name(roles@, id),
{
    match find_role(roles, id) {
        Some(i) => copy_opt_string(&roles[i].display_name),
        None => None,
    }
}

/// The narration of the role putting on the outfit.
pub open spec fn clothes_change_text_spec(role: LoadedRole, clothes_name: Seq<char>) -> Seq<char> {
    role.ai_name@ + "换上了新服装："@ + clothes_name + "，"@ + (match role.clothes {
        Some(list) => clothes_prompt_text(list@, clothes_name),
        None => seq![],
    })
}

/// `after` is `before` with one narration line appended: on the player's
/// side, shown under `display`, perceived by the roles present, its content
/// the narrator's prompt for `text`.
pub open spec fn narration_appended<F: Fn(String) -> String>(
    before: GameStatus,
    after: GameStatus,
    display: Seq<char>,
    narrator: F,
    text: Seq<char>,
) -> bool {
    let l = after.line_list@.last();
    &&& after.line_list@.len() == before.line_list@.len() + 1
    &&& after.line_list@.take(before.line_list@.len() as int) == before.line_list@
    &&& l.base.attribute == LineAttribute::User
    &&& opt_view(l.base.display_name) == Some(display)
    &&& l.base.id is None
    &&& l.base.sender_role_id is None
    &&& l.base.original_emotion is None
    &&& l.base.predicted_emotion is None
    &&& l.base.tts_content is None
    &&& l.base.action_content is None
    &&& l.base.thinking is None
    &&& l.base.tool_call is None
    &&& l.base.audio_file is None
    &&& lists_ids(l.perceived_role_ids@, before.present_role_ids@)
    &&& (exists|t: String| t@ == text && #[trigger] narrator.ensures((t,), l.base.content))
    &&& after == (GameStatus { line_list: after.line_list, ..before })
}

/// The error of a clothes change is the text.
pub open spec fn is_error(r: Result<LinePersistence, String>, message: Seq<char>) -> bool {
    match r {
        Err(m) => m@ == message,
        Ok(_) => false,
    }
}

impl GameStatus {
    fn add_narration<F: Fn(String) -> String>(&mut self, text: String, display: &str, narrator: &F) -> (persist: LinePersistence)
        requires
            forall|t: String| narrator.requires((t,)),
        ensures
            narration_appended(*old(self), *final(self), display@, *narrator, text@),
            persist == persistence_for(*old(self), final(self).line_list@.len()),
    {
        let ghost t0 = text;
        let content = narrator(text);
        assert(narrator.ensures((t0,), content));
        let line = narration_line(content, String::from_str(display));
        let persist = self.add_line(line);
        assert(self.line_list@.last().base.content == content);
        persist
    }

    /// Changes a loaded role's outfit and narrates it: the role's current
    /// clothes become `clothes_name`, and a narration line on the player's
    /// side, shown under `旁白`, is added, its content the narrator's prompt
    /// for `<ai>换上了新服装：<clothes>，<prompt>` with the outfit's prompt.
    /// A role that is not loaded is an error, `角色 <id> 未加载`, and nothing
    /// changes. Returns where the new line is to be written.
    pub fn add_character_clothes_change_line<F: Fn(String) -> String>(
        &mut self,
        roles: &mut Vec<LoadedRole>,
        role_id: i32,
        clothes_name: &str,
        narrator: F,
    ) -> (r: Result<LinePersistence, String>)
        requires
            forall|t: String| narrator.requires((t,)),
        ensures
            !role_loaded(old(roles)@, role_id) ==> {
                &&& is_error(r, "角色 "@ + int_decimal(role_id as int) + " 未加载"@)
                &&& final(roles)@ == old(roles)@
                &&& *final(self) == *old(self)
            },
            role_loaded(old(roles)@, role_id) ==> {
                let i = first_role(old(roles)@, role_id);
                let role = old(roles)@[i];
                &&& final(roles)@ == old(roles)@.update(i, final(roles)@[i])
                &&& final(roles)@[i].current_clothes@ == clothes_name@
                &&& final(roles)@[i] == (LoadedRole { current_clothes: final(roles)@[i].current_clothes, ..role })
                &&& narration_appended(*old(self), *final(self), "旁白"@, narrator, clothes_change_text_spec(role, clothes_name@))
                &&& r == Ok::<LinePersistence, String>(persistence_for(*old(self), final(self).line_list@.len()))
            },
    {
        match find_role(roles, role_id) {
            None => Err(role_not_loaded_error(role_id)),
            Some(i) => {
                let mut role = roles.remove(i);
                let ghost old_role = role;
                role.current_clothes = String::from_str(clothes_name);
                let prompt = clothes_prompt(&role.clothes, clothes_name);
                let text = clothes_change_text(&role.ai_name, clothes_name, &prompt);
                roles.insert(i, role);
                assert(roles@ =~= old(roles)@.update(i as int, roles@[i as int]));
                let persist = self.add_narration(text, "旁白", &narrator);
                Ok(persist)
            },
        }
    }

    /// Puts a loaded role into the outfit unless it already wears it.
    /// Returns `Ok(None)` when nothing changed, `Ok(Some(..))` with where the
    /// narration line is to be written when the outfit was changed (as
    /// `add_character_clothes_change_line`), and the same error for a role
    /// that is not loaded.
    pub fn on_character_change_clothes<F: Fn(String) -> String>(
        &mut self,
        roles: &mut Vec<LoadedRole>,
        role_id: i32,
        clothes_name: &str,
        narrator: F,
    ) -> (r: Result<Option<LinePersistence>, String>)
        requires
            forall|t: String| narrator.requires((t,)),
        ensures
            !role_loaded(old(roles)@, role_id) ==> {
                &&& (r matches Err(m) && m@ == "角色 "@ + int_decimal(role_id as int) + " 未加载"@)
                &&& final(roles)@ == old(roles)@
                &&& *final(self) == *old(self)
            },
            role_loaded(old(roles)@, role_id) && old(roles)@[first_role(old(roles)@, role_id)].current_clothes@
                == clothes_name@ ==> {
                &&& r == Ok::<Option<LinePersistence>, String>(None)
                &&& final(roles)@ == old(roles)@
                &&& *final(self) == *old(self)
            },
            role_loaded(old(roles)@, role_id) && old(roles)@[first_role(old(roles)@, role_id)].current_clothes@
                != clothes_name@ ==> {
                let i = first_role(old(roles)@, role_id);
                let role = old(roles)@[i];
                &&& final(roles)@ == old(roles)@.update(i, final(roles)@[i])
                &&& final(roles)@[i].current_clothes@ == clothes_name@
                &&& final(roles)@[i] == (LoadedRole { current_clothes: final(roles)@[i].current_clothes, ..role })
                &&& narration_appended(*old(self), *final(self), "旁白"@, narrator, clothes_change_text_spec(role, clothes_name@))
                &&& r == Ok::<Option<LinePersistence>, String>(Some(persistence_for(*old(self), final(self).line_list@.len())))
            },
    {
        match find_role(roles, role_id) {
            None => Err(role_not_loaded_error(role_id)),
            Some(i) => {
                if !clothes_change_needed(&roles[i].current_clothes, clothes_name) {
                    return Ok(None);
                }
                match self.add_character_clothes_change_line(roles, role_id, clothes_name, narrator) {
                    Ok(p) => Ok(Some(p)),
                    Err(e) => Err(e),
                }
            },
        }
    }
}

/// What a scene command did.
pub struct SceneDone {
    /// The answer shown to the player.
    pub reply: String,
    /// Where the persona line of a joining role is to be written, when one
    /// was added.
    pub persona_write: Option<LinePersistence>,
    /// Where the narration line is to be written.
    pub narration_write: LinePersistence,
    /// The protagonist, when the role spoken to was switched to it.
    pub switched_to: Option<i32>,
}

/// The outcome of a request to put a role on stage or take it off.
pub enum SceneOutcome {
    /// Refused with this error; nothing changed.
    Refused(String),
    /// Nothing to do, answered with this message; nothing changed.
    Unchanged(String),
    /// Done.
    Done(SceneDone),
}

/// The outcome is a refusal with this error.
pub open spec fn scene_refused(o: SceneOutcome, message: Seq<char>) -> bool {
    match o {
        SceneOutcome::Refused(m) => m@ == message,
        _ => false,
    }
}

/// The outcome needs nothing done and answers with this message.
pub open spec fn scene_unchanged(o: SceneOutcome, message: Seq<char>) -> bool {
    match o {
        SceneOutcome::Unchanged(m) => m@ == message,
        _ => false,
    }
}

/// `line` is the persona line of the role, shown under `name`, perceived by
/// `perceived`.
pub open spec fn is_persona_line(line: GameLine, system_prompt: String, role_id: i32, name: Seq<char>, perceived: Set<i32>) -> bool {
    &&& line.base.content == system_prompt
    &&& line.base.attribute == LineAttribute::System
    &&& line.base.sender_role_id == Some(role_id)
    &&& opt_view(line.base.display_name) == Some(name)
    &&& line.base.id is None
    &&& line.base.original_emotion is None
    &&& line.base.predicted_emotion is None
    &&& line.base.tts_content is None
    &&& line.base.action_content is None
    &&& line.base.thinking is None
    &&& line.base.tool_call is None
    &&& line.base.audio_file is None
    &&& lists_ids(line.perceived_role_ids@, perceived)
}

impl GameStatus {
    /// Puts a loaded role into the scene. Refused for the player (role 0),
    /// in script mode, and for a role that is not loaded; nothing to do for a
    /// role already present. Otherwise, in this order: unless the dialogue
    /// already holds the role's persona line, that line (`system_prompt`,
    /// shown under the role's name) is added while the role is not yet
    /// present; the role goes on stage and becomes present; then a narration
    /// line, shown under `系统`, says `<name>加入了对话`, and the answer is
    /// `<name> 已加入对话`.
    pub fn join_scene<F: Fn(String) -> String>(
        &mut self,
        roles: &Vec<LoadedRole>,
        role_id: i32,
        system_prompt: String,
        narrator: F,
    ) -> (outcome: SceneOutcome)
        requires
            old(self).wf(),
            forall|t: String| narrator.requires((t,)),
        ensures
            final(self).wf(),
            role_id == 0 ==> scene_refused(outcome, "无法添加玩家角色 (role_id=0)"@) && *final(self) == *old(self),
            role_id != 0 && old(self).script_status is Some ==> scene_refused(outcome, "剧本模式下无法手动添加角色到场景"@)
                && *final(self) == *old(self),
            role_id != 0 && old(self).script_status is None && old(self).present_role_ids@.contains(role_id)
                ==> scene_unchanged(outcome, "角色已在场景中"@) && *final(self) == *old(self),
            role_id != 0 && old(self).script_status is None && !old(self).present_role_ids@.contains(role_id)
                && !role_loaded(roles@, role_id) ==> scene_refused(outcome, "角色未加载"@) && *final(self) == *old(self),
            role_id != 0 && old(self).script_status is None && !old(self).present_role_ids@.contains(role_id)
                && role_loaded(roles@, role_id) ==> {
                let name = role_name_text(loaded_display_name(roles@, role_id), role_id);
                let had = has_persona_line_spec(old(self).line_list@, role_id);
                let n = old(self).line_list@.len();
                let lines = final(self).line_list@;
                &&& outcome matches SceneOutcome::Done(d) && {
                    &&& d.reply@ == name + " 已加入对话"@
                    &&& d.persona_write == (if had { None } else { Some(persistence_for(*old(self), n + 1)) })
                    &&& d.narration_write == persistence_for(*old(self), lines.len())
                    &&& d.switched_to is None
                }
                &&& lines.len() == n + (if had { 1nat } else { 2nat })
                &&& lines.take(n as int) == old(self).line_list@
                &&& (!had ==> is_persona_line(lines[n as int], system_prompt, role_id, name, old(self).present_role_ids@))
                &&& lines.last().base.attribute == LineAttribute::User
                &&& opt_view(lines.last().base.display_name) == Some("系统"@)
                &&& lists_ids(lines.last().perceived_role_ids@, old(self).present_role_ids@.insert(role_id))
                &&& (exists|t: String| t@ == name + "加入了对话"@ && #[trigger] narrator.ensures((t,), lines.last().base.content))
                &&& final(self).present_role_ids@ == old(self).present_role_ids@.insert(role_id)
                &&& final(self).onstage_role_ids@ == (if old(self).onstage_role_ids@.contains(role_id) {
                    old(self).onstage_role_ids@
                } else {
                    old(self).onstage_role_ids@.push(role_id)
                })
                &&& *final(self) == (GameStatus {
                    line_list: final(self).line_list,
                    onstage_role_ids: final(self).onstage_role_ids,
                    present_role_ids: final(self).present_role_ids,
                    ..*old(self)
                })
            },
    {
        match check_add_role(self, role_id) {
            StageRequest::Refused(m) => return SceneOutcome::Refused(m),
            StageRequest::Unchanged(m) => return SceneOutcome::Unchanged(m),
            StageRequest::Proceed => {},
        }
        if find_role(roles, role_id).is_none() {
            return SceneOutcome::Refused(String::from_str("角色未加载"));
        }
        let name = role_display_name(role_display_of(roles, role_id), role_id);
        let ghost g0 = *self;
        let had = has_persona_line(&self.line_list, role_id);
        let persona_write = if !had {
            let line = persona_line(system_prompt, role_id, name.clone());
            Some(self.add_line(line))
        } else {
            None
        };
        let ghost g1 = *self;
        assert(g1.wf());
        self.onstage_role(role_id);
        let ghost g2 = *self;
        let text = stage_narration(&name, true);
        let narration_write = self.add_narration(text, "系统", &narrator);
        proof {
            let n = g0.line_list@.len();
            assert(self.line_list@.take(n as int) =~= g0.line_list@) by {
                assert(self.line_list@.take(g2.line_list@.len() as int) == g2.line_list@);
                assert(g2.line_list@ == g1.line_list@);
                if !had {
                    assert(g1.line_list@.take(n as int) == g0.line_list@);
                }
            }
            if !had {
                assert(self.line_list@[n as int] == g1.line_list@[n as int]);
            }
        }
        let reply = stage_reply(&name, true);
        SceneOutcome::Done(SceneDone { reply, persona_write, narration_write, switched_to: None })
    }
}

impl GameStatus {
    /// Takes a role out of the scene. Refused for the player (role 0), in
    /// script mode and for the protagonist; nothing to do for a role not
    /// present. Otherwise the role goes off stage and stops being present;
    /// if it was the role spoken to, the protagonist becomes the role spoken
    /// to; then a narration line, shown under `系统`, says
    /// `<name>离开了对话`, and the answer is `<name> 已离开对话`.
    pub fn leave_scene<F: Fn(String) -> String>(
        &mut self,
        roles: &Vec<LoadedRole>,
        role_id: i32,
        narrator: F,
    ) -> (outcome: SceneOutcome)
        requires
            old(self).wf(),
            forall|t: String| narrator.requires((t,)),
        ensures
            final(self).wf(),
            role_id == 0 ==> scene_refused(outcome, "无法移除玩家角色 (role_id=0)"@) && *final(self) == *old(self),
            role_id != 0 && old(self).script_status is Some ==> scene_refused(outcome, "剧本模式下无法手动让角色退场"@)
                && *final(self) == *old(self),
            role_id != 0 && old(self).script_status is None && old(self).main_role_id == Some(role_id)
                ==> scene_refused(outcome, "无法移除主角"@) && *final(self) == *old(self),
            role_id != 0 && old(self).script_status is None && old(self).main_role_id != Some(role_id)
                && !old(self).present_role_ids@.contains(role_id) ==> scene_unchanged(outcome, "角色不在场景中"@)
                && *final(self) == *old(self),
            role_id != 0 && old(self).script_status is None && old(self).main_role_id != Some(role_id)
                && old(self).present_role_ids@.contains(role_id) ==> {
                let name = role_name_text(loaded_display_name(roles@, role_id), role_id);
                let switched = old(self).current_role_id == Some(role_id);
                let n = old(self).line_list@.len();
                let lines = final(self).line_list@;
                &&& outcome matches SceneOutcome::Done(d) && {
                    &&& d.reply@ == name + " 已离开对话"@
                    &&& d.persona_write is None
                    &&& d.narration_write == persistence_for(*old(self), lines.len())
                    &&& d.switched_to == (if switched { old(self).main_role_id } else { None })
                }
                &&& lines.len() == n + 1
                &&& lines.take(n as int) == old(self).line_list@
                &&& lines.last().base.attribute == LineAttribute::User
                &&& opt_view(lines.last().base.display_name) == Some("系统"@)
                &&& lists_ids(lines.last().perceived_role_ids@, old(self).present_role_ids@.remove(role_id))
                &&& (exists|t: String| t@ == name + "离开了对话"@ && #[trigger] narrator.ensures((t,), lines.last().base.content))
                &&& final(self).present_role_ids@ == old(self).present_role_ids@.remove(role_id)
                &&& final(self).onstage_role_ids@ == without(old(self).onstage_role_ids@, role_id)
                &&& final(self).onstage_role_ids@ == old(self).onstage_role_ids@.filter(|x: i32| x != role_id)
                &&& final(self).current_role_id == (if switched { old(self).main_role_id } else { old(self).current_role_id })
                &&& *final(self) == (GameStatus {
                    line_list: final(self).line_list,
                    onstage_role_ids: final(self).onstage_role_ids,
                    present_role_ids: final(self).present_role_ids,
                    current_role_id: final(self).current_role_id,
                    ..*old(self)
                })
            },
    {
        match check_remove_role(self, role_id) {
            StageRequest::Refused(m) => return SceneOutcome::Refused(m),
            StageRequest::Unchanged(m) => return SceneOutcome::Unchanged(m),
            StageRequest::Proceed => {},
        }
        let name = role_display_name(role_display_of(roles, role_id), role_id);
        let switched_to = self.remove_role(role_id);
        let text = stage_narration(&name, false);
        let narration_write = self.add_narration(text, "系统", &narrator);
        let reply = stage_reply(&name, false);
        SceneOutcome::Done(SceneDone { reply, persona_write: None, narration_write, switched_to })
    }

    /// The player's entry, once per session: marks the player as entered and,
    /// when this is the first entry and a role is spoken to, adds the entry
    /// greeting (as `entry_greeting`, with that role's shown name) as a
    /// narration line shown under `旁白`. Returns where that line is to be
    /// written, when one was added.
    pub fn player_entry<F: Fn(String) -> String>(
        &mut self,
        roles: &Vec<LoadedRole>,
        now: &LocalTime,
        narrator: F,
    ) -> (persist: Option<LinePersistence>)
        requires
            now.wf(),
            forall|t: String| narrator.requires((t,)),
        ensures
            final(self).player_entered,
            old(self).player_entered || old(self).current_role_id is None ==> {
                &&& persist is None
                &&& *final(self) == (GameStatus { player_entered: true, ..*old(self) })
            },
            !old(self).player_entered && old(self).current_role_id is Some ==> {
                let id = old(self).current_role_id->0;
                let ai = role_name_text(loaded_display_name(roles@, id), id);
                let text = greeting_text(old(self).player.user_name@, ai, old(self).active_save_id is Some) + "，"@
                    + time_note_text(*now);
                &&& narration_appended(
                    GameStatus { player_entered: true, ..*old(self) },
                    *final(self),
                    "旁白"@,
                    narrator,
                    text,
                )
                &&& persist == Some(persistence_for(*old(self), final(self).line_list@.len()))
            },
    {
        match self.begin_player_entry() {
            None => None,
            Some(id) => {
                let ai = role_display_name(role_display_of(roles, id), id);
                let text = entry_greeting(&self.player.user_name, &ai, self.active_save_id.is_some(), now);
                Some(self.add_narration(text, "旁白", &narrator))
            },
        }
    }
}

/// The player's messages, which get numbers, are exactly the lines that
/// role 0 sent on the player's side; numbering counts them.
pub proof fn law_player_messages_counted(s: Seq<GameLine>)
    ensures
        player_message_count(s) == s.filter(
            |l: GameLine| l.base.sender_role_id == Some(0i32) && l.base.attribute == LineAttribute::User,
        ).len(),
    decreases s.len(),
{
    reveal(Seq::filter);
    if s.len() > 0 {
        law_player_messages_counted(s.drop_last());
    }
}

/// A role is shown by its display name, or as `角色<id>` without one.
pub proof fn law_role_name(display_name: Option<String>, role_id: i32)
    ensures
        display_name matches Some(n) ==> role_name_text(display_name, role_id) == n@,
        display_name is None ==> role_name_text(display_name, role_id) == "角色"@ + int_decimal(role_id as int),
{
}

/// The prompt of an outfit is that of the first outfit with the name and a
/// prompt, and empty when there is none.
pub proof fn law_outfit_prompt(clothes: Seq<ClothesEntry>, clothes_name: Seq<char>, i: int)
    ensures
        (forall|k: int| 0 <= k < clothes.len() ==> !(opt_view(clothes[k].name) == Some(clothes_name)
            && clothes[k].prompt is Some)) ==> clothes_prompt_text(clothes, clothes_name) == Seq::<char>::empty(),
        0 <= i < clothes.len() && opt_view(clothes[i].name) == Some(clothes_name) && clothes[i].prompt is Some && (
        forall|k: int| 0 <= k < i ==> !(opt_view(clothes[k].name) == Some(clothes_name) && clothes[k].prompt is Some))
            ==> clothes_prompt_text(clothes, clothes_name) == clothes[i].prompt->0@,
    decreases clothes.len(),
{
    if clothes.len() > 0 {
        law_outfit_prompt(clothes.drop_first(), clothes_name, i - 1);
        if (forall|k: int| 0 <= k < clothes.len() ==> !(opt_view(clothes[k].name) == Some(clothes_name)
            && clothes[k].prompt is Some)) {
            assert forall|k: int| 0 <= k < clothes.drop_first().len() implies !(opt_view(
                clothes.drop_first()[k].name,
            ) == Some(clothes_name) && clothes.drop_first()[k].prompt is Some) by {
                assert(clothes.drop_first()[k] == clothes[k + 1]);
            }
        }
        if 0 < i < clothes.len() && opt_view(clothes[i].name) == Some(clothes_name) && clothes[i].prompt is Some && (
        forall|k: int| 0 <= k < i ==> !(opt_view(clothes[k].name) == Some(clothes_name) && clothes[k].prompt is Some)) {
            assert(clothes.drop_first()[i - 1] == clothes[i]);
            assert forall|k: int| 0 <= k < i - 1 implies !(opt_view(clothes.drop_first()[k].name) == Some(clothes_name)
                && clothes.drop_first()[k].prompt is Some) by {
                assert(clothes.drop_first()[k] == clothes[k + 1]);
            }
        }
    }
}

/// The narration of a change of clothes: the character's name,
/// `换上了新服装：`, the outfit, `，` and the outfit's prompt.
pub proof fn law_clothes_change_text(role: LoadedRole, clothes_name: Seq<char>)
    ensures
        role.clothes is None ==> clothes_change_text_spec(role, clothes_name) == role.ai_name@ + "换上了新服装："@
            + clothes_name + "，"@,
        role.clothes matches Some(list) ==> clothes_change_text_spec(role, clothes_name) == role.ai_name@
            + "换上了新服装："@ + clothes_name + "，"@ + clothes_prompt_text(list@, clothes_name),
{
    if role.clothes is None {
        let t = role.ai_name@ + "换上了新服装："@ + clothes_name + "，"@;
        assert(t + Seq::<char>::empty() =~= t);
    }
}

/// A refusal carries exactly its error, and an answer with nothing to do
/// exactly its message; neither is the other or a go-ahead.
pub proof fn law_answers_carry_their_text(r: StageRequest, o: SceneOutcome, p: Result<LinePersistence, String>, message: Seq<char>)
    ensures
        is_refusal(r, message) <==> (r matches StageRequest::Refused(m) && m@ == message),
        is_unchanged(r, message) <==> (r matches StageRequest::Unchanged(m) && m@ == message),
        scene_refused(o, message) <==> (o matches SceneOutcome::Refused(m) && m@ == message),
        scene_unchanged(o, message) <==> (o matches SceneOutcome::Unchanged(m) && m@ == message),
        is_error(p, message) <==> (p matches Err(m) && m@ == message),
{
}

/// The loaded role used for an id is the first one with that id.
pub proof fn law_first_loaded_role(roles: Seq<LoadedRole>, id: i32, i: int)
    ensures
        is_first_role(roles, id, i) <==> (0 <= i < roles.len() && roles[i].role_id == id && forall|j: int|
            0 <= j < i ==> roles[j].role_id != id),
        role_loaded(roles, id) <==> exists|k: int| 0 <= k < roles.len() && roles[k].role_id == id,
{
}

} // verus!
