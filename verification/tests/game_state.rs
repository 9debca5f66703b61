use lingchat_core::clock::DialogTime;
use lingchat_core::game_status::{
    default_background_effect, default_background_music, default_true, GameStatus, GameStatusSnapshot,
    GlobalVariable, LinePersistence, ScriptStatus,
};
use lingchat_core::lines::{LineAttribute, LineBase};

fn line(content: &str, attribute: LineAttribute) -> LineBase {
    LineBase::new(content.to_string(), attribute)
}

#[test]
fn new_status_is_empty() {
    let gs = GameStatus::new();
    assert!(gs.line_list.is_empty());
    assert!(gs.onstage_role_ids.is_empty());
    assert!(gs.present_role_ids.is_empty());
    assert!(gs.scene_awareness_enabled);
    assert!(!gs.player_entered);
    assert_eq!(gs.preview_generation, 0);
    assert_eq!(gs.active_save_id, None);
}

#[test]
fn add_line_records_present_roles_and_persistence() {
    let mut gs = GameStatus::new();
    gs.onstage_role(3);
    gs.onstage_role(5);
    // the persona line is not written
    assert_eq!(gs.add_line(line("persona", LineAttribute::System)), LinePersistence::Skip);
    assert_eq!(sorted_ids(&gs.line_list[0].perceived_role_ids), vec![3, 5]);
    // later lines go to the auto slot while no save is active
    assert_eq!(gs.add_line(line("hi", LineAttribute::User)), LinePersistence::AppendToAutoSlot);
    gs.active_save_id = Some(8);
    assert_eq!(gs.add_line(line("yo", LineAttribute::Assistant)), LinePersistence::AppendTo(8));
    assert_eq!(gs.line_list.len(), 3);
    assert_eq!(gs.line_list[2].base.content, "yo");
}

#[test]
fn chat_message_count_skips_persona_lines() {
    let mut gs = GameStatus::new();
    gs.add_line(line("persona", LineAttribute::System));
    gs.add_line(line("a", LineAttribute::User));
    gs.add_line(line("persona 2", LineAttribute::System));
    gs.add_line(line("b", LineAttribute::Assistant));
    assert_eq!(gs.chat_message_count(), 2);
    let added = gs.add_line(line("c", LineAttribute::User));
    assert_eq!(added, LinePersistence::AppendToAutoSlot);
    assert_eq!(gs.chat_message_count(), 3);
}

#[test]
fn onstage_is_idempotent_and_offstage_undoes_it() {
    let mut gs = GameStatus::new();
    gs.onstage_role(2);
    gs.onstage_role(4);
    gs.onstage_role(2);
    assert_eq!(gs.onstage_role_ids, vec![2, 4]);
    assert_eq!(gs.present_role_ids, id_set(&[2, 4]));
    gs.offstage_role(2);
    assert_eq!(gs.onstage_role_ids, vec![4]);
    assert_eq!(gs.present_role_ids, id_set(&[4]));
    gs.offstage_role(7);
    assert_eq!(gs.onstage_role_ids, vec![4]);
}

#[test]
fn variables_set_replace_and_read() {
    let mut gs = GameStatus::new();
    assert!(gs.get_variable("hp").is_none());
    gs.set_variable("hp".to_string(), serde_json::Value::from(10));
    gs.set_variable("name".to_string(), serde_json::Value::String("x".to_string()));
    gs.set_variable("hp".to_string(), serde_json::Value::Bool(true));
    assert_eq!(gs.global_variables.len(), 2);
    assert_eq!(gs.get_variable("hp"), Some(&serde_json::Value::Bool(true)));
    assert_eq!(gs.get_variable("name"), Some(&serde_json::Value::String("x".to_string())));
}

fn sample_status() -> GameStatus {
    let mut gs = GameStatus::new();
    gs.onstage_role(1);
    gs.onstage_role(6);
    gs.current_role_id = Some(6);
    gs.background = "bg.png".to_string();
    gs.background_music = "song".to_string();
    gs.background_effect = "rain".to_string();
    gs.current_scene_id = Some("park".to_string());
    gs.set_variable("k".to_string(), serde_json::Value::Bool(false));
    gs.completed_scripts = vec!["s1".to_string(), "s2".to_string()];
    gs.last_dialog_time = Some(DialogTime { unix_secs: 1_700_000_000, nanos: 0, utc_offset_secs: 28_800 });
    gs.scene_awareness_enabled = false;
    gs
}

#[test]
fn snapshot_holds_scene_fields() {
    let gs = sample_status();
    let snap = gs.to_snapshot();
    assert_eq!(sorted_ids(&snap.present_role_ids), vec![1, 6]);
    assert_eq!(snap.current_role_id, Some(6));
    assert_eq!(snap.background, "bg.png");
    assert_eq!(snap.current_scene_id.as_deref(), Some("park"));
    assert_eq!(snap.completed_scripts, vec!["s1".to_string(), "s2".to_string()]);
    assert_eq!(snap.last_dialog_time.as_deref(), Some("2023-11-15T06:13:20+08:00"));
    assert!(!snap.scene_awareness_enabled);
}

#[test]
fn snapshot_round_trip_restores_scene() {
    let saved = sample_status();
    let snap = saved.to_snapshot();
    let mut other = GameStatus::new();
    other.main_role_id = Some(9);
    other.add_line(line("kept", LineAttribute::System));
    other.apply_snapshot(&snap);
    assert_eq!(other.background, saved.background);
    assert_eq!(other.background_music, saved.background_music);
    assert_eq!(other.background_effect, saved.background_effect);
    assert_eq!(other.current_scene_id, saved.current_scene_id);
    assert_eq!(other.current_role_id, saved.current_role_id);
    assert_eq!(other.present_role_ids, saved.present_role_ids);
    assert_eq!(other.onstage_role_ids, snap.present_role_ids);
    assert_eq!(id_set(&other.onstage_role_ids), saved.present_role_ids);
    assert_eq!(other.completed_scripts, saved.completed_scripts);
    assert_eq!(other.global_variables.len(), 1);
    assert_eq!(other.scene_awareness_enabled, saved.scene_awareness_enabled);
    let t = other.last_dialog_time.unwrap();
    assert_eq!((t.unix_secs, t.nanos), (1_700_000_000, 0));
    // the dialogue and the protagonist are untouched
    assert_eq!(other.line_list.len(), 1);
    assert_eq!(other.main_role_id, Some(9));
}

#[test]
fn apply_snapshot_collects_sets() {
    let mut snap = GameStatusSnapshot::empty();
    snap.present_role_ids = vec![3, 3, 4];
    snap.completed_scripts = vec!["a".to_string(), "a".to_string(), "b".to_string()];
    snap.last_dialog_time = Some("not a time".to_string());
    let mut gs = GameStatus::new();
    gs.apply_snapshot(&snap);
    assert_eq!(gs.present_role_ids, id_set(&[3, 4]));
    assert_eq!(gs.onstage_role_ids, vec![3, 3, 4]);
    assert_eq!(gs.completed_scripts, vec!["a".to_string(), "b".to_string()]);
    assert_eq!(gs.last_dialog_time, None);
}

#[test]
fn empty_snapshot_and_defaults() {
    let snap = GameStatusSnapshot::empty();
    assert!(snap.background_music.is_empty());
    assert!(!snap.scene_awareness_enabled);
    assert!(default_true());
    assert_eq!(default_background_music(), "none");
    assert_eq!(default_background_effect(), "none");
}

#[test]
fn script_status_is_kept() {
    let mut gs = GameStatus::new();
    gs.script_status = Some(ScriptStatus {
        folder_key: "f".to_string(),
        current_chapter_key: "c".to_string(),
        current_event_process: 2,
        vars_json: "{}".to_string(),
    });
    let snap = gs.to_snapshot();
    gs.apply_snapshot(&snap);
    assert!(gs.script_status.is_some());
    let _ = GlobalVariable { key: "x".to_string(), value: serde_json::Value::Null };
}

fn id_set(v: &[i32]) -> std::collections::HashSet<i32> {
    v.iter().copied().collect()
}

fn sorted_ids(v: &[i32]) -> Vec<i32> {
    let mut w = v.to_vec();
    w.sort();
    w
}
