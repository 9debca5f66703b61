use lingchat_core::game::{
    require_role_settings,
    build_game_line_inits, check_add_role, check_remove_role, choose_scene_id, clothes_change_needed,
    clothes_change_text, clothes_prompt, compute_user_message_seqs, entry_greeting, has_persona_line,
    narration_line, persona_line, role_display_name, stage_narration, stage_reply, ClothesEntry, LocalTime,
    StageRequest,
};
use lingchat_core::game_status::{GameStatus, ScriptStatus};
use lingchat_core::lines::{GameLine, LineAttribute, LineBase};

fn gl(sender: Option<i32>, attribute: LineAttribute) -> GameLine {
    let mut base = LineBase::new("t".to_string(), attribute);
    base.sender_role_id = sender;
    GameLine::from_base(base, vec![1])
}

#[test]
fn user_message_seqs_number_player_messages() {
    let lines = vec![
        gl(None, LineAttribute::System),
        gl(Some(0), LineAttribute::User),
        gl(Some(3), LineAttribute::Assistant),
        gl(None, LineAttribute::User),
        gl(Some(0), LineAttribute::User),
        gl(Some(0), LineAttribute::Assistant),
    ];
    assert_eq!(compute_user_message_seqs(&lines), vec![None, Some(1), None, None, Some(2), None]);
    assert!(compute_user_message_seqs(&[]).is_empty());
}

#[test]
fn line_inits_for_front_end() {
    let lines = vec![gl(None, LineAttribute::System), gl(Some(0), LineAttribute::User)];
    let inits = build_game_line_inits(&lines);
    assert_eq!(inits.len(), 2);
    assert_eq!(inits[0].attribute, "system");
    assert_eq!(inits[0].user_message_seq, None);
    assert_eq!(inits[1].attribute, "user");
    assert_eq!(inits[1].user_message_seq, Some(1));
    assert_eq!(inits[1].perceived_role_ids, vec![1]);
    assert_eq!(LineAttribute::Assistant.as_str(), "assistant");
}

#[test]
fn scene_choice_prefers_current_then_stored_then_clock() {
    let scenes = vec!["a".to_string(), "b".to_string(), "c".to_string()];
    assert_eq!(choose_scene_id(&Some("x".to_string()), Some("y".to_string()), &scenes, 5), Some("x".to_string()));
    assert_eq!(choose_scene_id(&None, Some("y".to_string()), &scenes, 5), Some("y".to_string()));
    assert_eq!(choose_scene_id(&None, None, &scenes, 5), Some("c".to_string()));
    assert_eq!(choose_scene_id(&None, None, &vec![], 5), None);
}

#[test]
fn restore_scene_updates_background_and_awareness() {
    let mut gs = GameStatus::new();
    gs.background = "old".to_string();
    gs.restore_scene(Some("park".to_string()), Some("park.png".to_string()), Some(Some(false)));
    assert_eq!(gs.current_scene_id.as_deref(), Some("park"));
    assert_eq!(gs.background, "park.png");
    assert!(!gs.scene_awareness_enabled);
    gs.restore_scene(Some("park".to_string()), Some("other.png".to_string()), Some(None));
    assert_eq!(gs.background, "park.png");
    assert!(gs.scene_awareness_enabled);
    gs.restore_scene(Some("lake".to_string()), Some(String::new()), None);
    assert_eq!(gs.current_scene_id.as_deref(), Some("lake"));
    assert_eq!(gs.background, "park.png");
}

#[test]
fn add_role_checks() {
    let mut gs = GameStatus::new();
    gs.onstage_role(4);
    assert!(matches!(check_add_role(&gs, 0), StageRequest::Refused(m) if m == "无法添加玩家角色 (role_id=0)"));
    assert!(matches!(check_add_role(&gs, 4), StageRequest::Unchanged(m) if m == "角色已在场景中"));
    assert!(matches!(check_add_role(&gs, 5), StageRequest::Proceed));
    gs.script_status = Some(ScriptStatus {
        folder_key: String::new(),
        current_chapter_key: String::new(),
        current_event_process: 0,
        vars_json: String::new(),
    });
    assert!(matches!(check_add_role(&gs, 5), StageRequest::Refused(m) if m == "剧本模式下无法手动添加角色到场景"));
}

#[test]
fn remove_role_checks() {
    let mut gs = GameStatus::new();
    gs.main_role_id = Some(1);
    gs.onstage_role(1);
    gs.onstage_role(4);
    assert!(matches!(check_remove_role(&gs, 0), StageRequest::Refused(m) if m == "无法移除玩家角色 (role_id=0)"));
    assert!(matches!(check_remove_role(&gs, 1), StageRequest::Refused(m) if m == "无法移除主角"));
    assert!(matches!(check_remove_role(&gs, 9), StageRequest::Unchanged(m) if m == "角色不在场景中"));
    assert!(matches!(check_remove_role(&gs, 4), StageRequest::Proceed));
}

#[test]
fn removing_the_role_spoken_to_switches_to_protagonist() {
    let mut gs = GameStatus::new();
    gs.main_role_id = Some(1);
    gs.onstage_role(1);
    gs.onstage_role(4);
    gs.current_role_id = Some(4);
    assert_eq!(gs.remove_role(4), Some(1));
    assert_eq!(gs.current_role_id, Some(1));
    assert_eq!(gs.present_role_ids, [1].into_iter().collect());
    gs.onstage_role(5);
    assert_eq!(gs.remove_role(5), None);
    assert_eq!(gs.current_role_id, Some(1));
}

#[test]
fn names_and_narration() {
    assert_eq!(role_display_name(Some("Ling".to_string()), 3), "Ling");
    assert_eq!(role_display_name(None, 3), "角色3");
    assert_eq!(stage_narration(&"Ling".to_string(), true), "Ling加入了对话");
    assert_eq!(stage_narration(&"Ling".to_string(), false), "Ling离开了对话");
    assert_eq!(stage_reply(&"Ling".to_string(), true), "Ling 已加入对话");
    assert_eq!(stage_reply(&"Ling".to_string(), false), "Ling 已离开对话");
    let p = persona_line("prompt".to_string(), 3, "Ling".to_string());
    assert_eq!(p.attribute, LineAttribute::System);
    assert_eq!(p.sender_role_id, Some(3));
    let n = narration_line("x".to_string(), "系统".to_string());
    assert_eq!(n.attribute, LineAttribute::User);
    assert_eq!(n.display_name.as_deref(), Some("系统"));
}

#[test]
fn persona_line_detection() {
    let lines = vec![gl(Some(3), LineAttribute::System), gl(Some(4), LineAttribute::User)];
    assert!(has_persona_line(&lines, 3));
    assert!(!has_persona_line(&lines, 4));
    assert!(!has_persona_line(&lines, 5));
}

#[test]
fn player_is_greeted_once() {
    let mut gs = GameStatus::new();
    gs.current_role_id = Some(2);
    assert_eq!(gs.begin_player_entry(), Some(2));
    assert!(gs.player_entered);
    assert_eq!(gs.begin_player_entry(), None);
    let mut nobody = GameStatus::new();
    assert_eq!(nobody.begin_player_entry(), None);
    assert!(nobody.player_entered);
}

#[test]
fn entry_greeting_text() {
    let t = LocalTime { year: 2024, month: 5, day: 9, hour: 8, minute: 3, second: 0 };
    assert_eq!(
        entry_greeting(&"".to_string(), &"Ling".to_string(), false, &t),
        "Ling看到玩家过来了，（现在是5月9日，08:03）"
    );
    assert_eq!(
        entry_greeting(&"Ann".to_string(), &"Ling".to_string(), true, &t),
        "Ann回来了，（现在是5月9日，08:03）"
    );
    let t = LocalTime { year: 2024, month: 12, day: 31, hour: 23, minute: 59, second: 0 };
    assert_eq!(
        entry_greeting(&"Ann".to_string(), &"Ling".to_string(), false, &t),
        "Ling看到Ann过来了，（现在是12月31日，23:59）"
    );
}

#[test]
fn entry_time_note_matches_chrono_format() {
    use_chrono_format();
}

fn use_chrono_format() {
    let dt = chrono::NaiveDate::from_ymd_opt(2024, 3, 4).unwrap().and_hms_opt(7, 6, 0).unwrap();
    let expected = dt.format("（现在是%_m月%_d日，%H:%M）").to_string().replace(' ', "");
    let t = LocalTime { year: 2024, month: 3, day: 4, hour: 7, minute: 6, second: 0 };
    let text = entry_greeting(&"A".to_string(), &"B".to_string(), true, &t);
    assert_eq!(text, format!("A回来了，{}", expected));
}

#[test]
fn clothes_prompt_lookup() {
    let clothes = Some(vec![
        ClothesEntry { name: Some("red".to_string()), prompt: None },
        ClothesEntry { name: Some("blue".to_string()), prompt: Some("a blue dress".to_string()) },
        ClothesEntry { name: Some("red".to_string()), prompt: Some("a red coat".to_string()) },
    ]);
    assert_eq!(clothes_prompt(&clothes, "blue"), "a blue dress");
    assert_eq!(clothes_prompt(&clothes, "red"), "a red coat");
    assert_eq!(clothes_prompt(&clothes, "green"), "");
    assert_eq!(clothes_prompt(&None, "red"), "");
    assert_eq!(
        clothes_change_text(&"Ling".to_string(), "blue", &"a blue dress".to_string()),
        "Ling换上了新服装：blue，a blue dress"
    );
    assert!(!clothes_change_needed(&"blue".to_string(), "blue"));
    assert!(clothes_change_needed(&"blue".to_string(), "red"));
}

#[test]
fn start_up_data_needs_role_settings() {
    assert_eq!(require_role_settings(Some(5)), Ok(5));
    assert_eq!(require_role_settings::<i32>(None), Err("AI 服务尚未初始化角色设定".to_string()));
}
