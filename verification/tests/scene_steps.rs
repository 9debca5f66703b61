use lingchat_core::config::{recovery_decision, RecoveryAction};
use lingchat_core::game::{ClothesEntry, LoadedRole, LocalTime, SceneOutcome};
use lingchat_core::game_status::{GameStatus, LinePersistence, ScriptStatus};
use lingchat_core::lines::{LineAttribute, LineBase};

fn narrate(t: String) -> String {
    format!("[N]{}", t)
}

fn role(id: i32, name: Option<&str>, ai: &str, wearing: &str) -> LoadedRole {
    LoadedRole {
        role_id: id,
        display_name: name.map(|n| n.to_string()),
        ai_name: ai.to_string(),
        current_clothes: wearing.to_string(),
        clothes: Some(vec![
            ClothesEntry { name: Some("red".to_string()), prompt: Some("a red coat".to_string()) },
            ClothesEntry { name: Some("blue".to_string()), prompt: None },
        ]),
    }
}

#[test]
fn auto_slot_becomes_the_active_save() {
    let mut gs = GameStatus::new();
    assert_eq!(gs.add_line(LineBase::new("persona".to_string(), LineAttribute::System)), LinePersistence::Skip);
    assert_eq!(gs.add_line(LineBase::new("hi".to_string(), LineAttribute::User)), LinePersistence::AppendToAutoSlot);
    gs.record_active_save(17);
    assert_eq!(gs.active_save_id, Some(17));
    assert_eq!(gs.add_line(LineBase::new("again".to_string(), LineAttribute::User)), LinePersistence::AppendTo(17));
    assert_eq!(gs.line_list.len(), 3);
}

#[test]
fn clothes_change_sets_outfit_and_narrates() {
    let mut gs = GameStatus::new();
    gs.onstage_role(3);
    gs.add_line(LineBase::new("persona".to_string(), LineAttribute::System));
    let mut roles = vec![role(2, None, "Mia", "red"), role(3, Some("Ling"), "LingAI", "blue")];
    let r = gs.add_character_clothes_change_line(&mut roles, 3, "red", narrate);
    assert_eq!(r, Ok(LinePersistence::AppendToAutoSlot));
    assert_eq!(roles[1].current_clothes, "red");
    assert_eq!(roles[0].current_clothes, "red");
    let last = gs.line_list.last().unwrap();
    assert_eq!(last.base.content, "[N]LingAI换上了新服装：red，a red coat");
    assert_eq!(last.base.attribute, LineAttribute::User);
    assert_eq!(last.base.display_name.as_deref(), Some("旁白"));
    assert_eq!(last.perceived_role_ids, vec![3]);
    // an outfit without a prompt leaves the prompt empty
    let r = gs.add_character_clothes_change_line(&mut roles, 2, "blue", narrate);
    assert_eq!(r, Ok(LinePersistence::AppendToAutoSlot));
    assert_eq!(gs.line_list.last().unwrap().base.content, "[N]Mia换上了新服装：blue，");
}

#[test]
fn clothes_change_of_unloaded_role_is_an_error() {
    let mut gs = GameStatus::new();
    let mut roles = vec![role(2, None, "Mia", "red")];
    let r = gs.add_character_clothes_change_line(&mut roles, 5, "red", narrate);
    assert_eq!(r, Err("角色 5 未加载".to_string()));
    assert!(gs.line_list.is_empty());
    let r = gs.on_character_change_clothes(&mut roles, -7, "red", narrate);
    assert_eq!(r, Err("角色 -7 未加载".to_string()));
}

#[test]
fn clothes_change_only_when_not_worn() {
    let mut gs = GameStatus::new();
    let mut roles = vec![role(2, None, "Mia", "red")];
    assert_eq!(gs.on_character_change_clothes(&mut roles, 2, "red", narrate), Ok(None));
    assert!(gs.line_list.is_empty());
    assert_eq!(gs.on_character_change_clothes(&mut roles, 2, "blue", narrate), Ok(Some(LinePersistence::Skip)));
    assert_eq!(roles[0].current_clothes, "blue");
    assert_eq!(gs.line_list.len(), 1);
}

#[test]
fn joining_adds_persona_before_narration() {
    let mut gs = GameStatus::new();
    gs.main_role_id = Some(1);
    gs.onstage_role(1);
    gs.add_line(LineBase::new("main persona".to_string(), LineAttribute::System));
    gs.record_active_save(8);
    let roles = vec![role(1, Some("Main"), "M", "red"), role(4, Some("Ling"), "L", "red")];
    match gs.join_scene(&roles, 4, "ling persona".to_string(), narrate) {
        SceneOutcome::Done(d) => {
            assert_eq!(d.reply, "Ling 已加入对话");
            assert_eq!(d.persona_write, Some(LinePersistence::AppendTo(8)));
            assert_eq!(d.narration_write, LinePersistence::AppendTo(8));
            assert_eq!(d.switched_to, None);
        },
        _ => panic!("join refused"),
    }
    assert_eq!(gs.line_list.len(), 3);
    let persona = &gs.line_list[1];
    assert_eq!(persona.base.content, "ling persona");
    assert_eq!(persona.base.attribute, LineAttribute::System);
    assert_eq!(persona.base.sender_role_id, Some(4));
    assert_eq!(persona.base.display_name.as_deref(), Some("Ling"));
    assert_eq!(persona.perceived_role_ids, vec![1]);
    let narration = &gs.line_list[2];
    assert_eq!(narration.base.content, "[N]Ling加入了对话");
    assert_eq!(narration.base.display_name.as_deref(), Some("系统"));
    assert_eq!(in_order(&narration.perceived_role_ids), vec![1, 4]);
    assert_eq!(gs.present_role_ids, role_set(&[1, 4]));
    assert_eq!(gs.onstage_role_ids, vec![1, 4]);
    // joining again changes nothing
    assert!(matches!(gs.join_scene(&roles, 4, "x".to_string(), narrate), SceneOutcome::Unchanged(m) if m == "角色已在场景中"));
    assert_eq!(gs.line_list.len(), 3);
}

#[test]
fn rejoining_keeps_the_persona_line_once() {
    let mut gs = GameStatus::new();
    gs.main_role_id = Some(1);
    let roles = vec![role(4, None, "L", "red")];
    assert!(matches!(gs.join_scene(&roles, 4, "p".to_string(), narrate), SceneOutcome::Done(_)));
    assert!(matches!(gs.leave_scene(&roles, 4, narrate), SceneOutcome::Done(_)));
    assert!(matches!(gs.join_scene(&roles, 4, "p".to_string(), narrate), SceneOutcome::Done(d) if d.persona_write.is_none()));
    let personas = gs.line_list.iter().filter(|l| l.base.attribute == LineAttribute::System).count();
    assert_eq!(personas, 1);
    assert_eq!(gs.line_list.last().unwrap().base.content, "[N]角色4加入了对话");
}

#[test]
fn join_refusals() {
    let mut gs = GameStatus::new();
    let roles = vec![role(4, None, "L", "red")];
    assert!(matches!(gs.join_scene(&roles, 0, "p".to_string(), narrate), SceneOutcome::Refused(m) if m == "无法添加玩家角色 (role_id=0)"));
    assert!(matches!(gs.join_scene(&roles, 9, "p".to_string(), narrate), SceneOutcome::Refused(m) if m == "角色未加载"));
    gs.script_status = Some(ScriptStatus {
        folder_key: String::new(),
        current_chapter_key: String::new(),
        current_event_process: 0,
        vars_json: String::new(),
    });
    assert!(matches!(gs.join_scene(&roles, 4, "p".to_string(), narrate), SceneOutcome::Refused(m) if m == "剧本模式下无法手动添加角色到场景"));
    assert!(gs.line_list.is_empty());
    assert!(gs.present_role_ids.is_empty());
}

#[test]
fn leaving_switches_to_protagonist() {
    let mut gs = GameStatus::new();
    gs.main_role_id = Some(1);
    gs.onstage_role(1);
    gs.onstage_role(4);
    gs.current_role_id = Some(4);
    let roles = vec![role(4, Some("Ling"), "L", "red")];
    match gs.leave_scene(&roles, 4, narrate) {
        SceneOutcome::Done(d) => {
            assert_eq!(d.reply, "Ling 已离开对话");
            assert_eq!(d.switched_to, Some(1));
            assert_eq!(d.persona_write, None);
            assert_eq!(d.narration_write, LinePersistence::Skip);
        },
        _ => panic!("leave refused"),
    }
    assert_eq!(gs.current_role_id, Some(1));
    assert_eq!(gs.present_role_ids, role_set(&[1]));
    assert_eq!(gs.onstage_role_ids, vec![1]);
    let last = gs.line_list.last().unwrap();
    assert_eq!(last.base.content, "[N]Ling离开了对话");
    assert_eq!(last.perceived_role_ids, vec![1]);
    assert!(matches!(gs.leave_scene(&roles, 4, narrate), SceneOutcome::Unchanged(m) if m == "角色不在场景中"));
    assert!(matches!(gs.leave_scene(&roles, 1, narrate), SceneOutcome::Refused(m) if m == "无法移除主角"));
    assert!(matches!(gs.leave_scene(&roles, 0, narrate), SceneOutcome::Refused(m) if m == "无法移除玩家角色 (role_id=0)"));
}

#[test]
fn player_entry_greets_once() {
    let mut gs = GameStatus::new();
    gs.current_role_id = Some(4);
    gs.player.user_name = "Ann".to_string();
    gs.add_line(LineBase::new("persona".to_string(), LineAttribute::System));
    let roles = vec![role(4, Some("Ling"), "L", "red")];
    let now = LocalTime { year: 2024, month: 5, day: 9, hour: 8, minute: 3, second: 0 };
    assert_eq!(gs.player_entry(&roles, &now, narrate), Some(LinePersistence::AppendToAutoSlot));
    assert_eq!(gs.line_list.last().unwrap().base.content, "[N]Ling看到Ann过来了，（现在是5月9日，08:03）");
    assert_eq!(gs.line_list.last().unwrap().base.display_name.as_deref(), Some("旁白"));
    assert_eq!(gs.player_entry(&roles, &now, narrate), None);
    assert_eq!(gs.line_list.len(), 2);
    let mut nobody = GameStatus::new();
    assert_eq!(nobody.player_entry(&roles, &now, narrate), None);
    assert!(nobody.player_entered);
    assert!(nobody.line_list.is_empty());
}

#[test]
fn recovery_decision_table() {
    assert_eq!(recovery_decision(false, true, false, true), RecoveryAction::Nothing);
    assert_eq!(recovery_decision(true, false, false, true), RecoveryAction::Nothing);
    assert_eq!(recovery_decision(true, true, true, false), RecoveryAction::Nothing);
    assert_eq!(recovery_decision(true, true, false, true), RecoveryAction::RestoreFromBackup);
    assert_eq!(recovery_decision(true, true, false, false), RecoveryAction::BackupAlsoDamaged);
}

fn role_set(v: &[i32]) -> std::collections::HashSet<i32> {
    v.iter().copied().collect()
}

fn in_order(v: &[i32]) -> Vec<i32> {
    let mut w = v.to_vec();
    w.sort();
    w
}
