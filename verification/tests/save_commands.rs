use lingchat_core::game_status::GameStatus;
use lingchat_core::saves::{
    build_save_list, continue_role, continue_save, format_datetime, last_message_ids, missing_save_error,
    load_save_role, page_offset, page_request, require_main_role, resume_save, screenshot_path, CreateSaveResponse,
    SaveRecord, SaveTimestamp, SaveListResponse,
};
use lingchat_core::lines::{LineAttribute, LineBase, LineRecord};
use lingchat_core::save_repo::SaveRepo;
use lingchat_core::tts_cache::{
    tally_deletions, CleanupTally,
    cache_info, cleanup_message, count_orphan_files, orphan_file_names, referenced_voice_files, VoiceFile,
};

fn save(id: i32, last: Option<i32>) -> SaveRecord {
    SaveRecord {
        id,
        title: format!("save {}", id),
        status: "{}".to_string(),
        create_date: SaveTimestamp { unix_secs: 0, nanos: 0 },
        update_date: SaveTimestamp { unix_secs: 86_400, nanos: 500_000_000 },
        last_message_id: last,
        main_role_id: Some(1),
        running_script_id: None,
    }
}

#[test]
fn datetime_is_rfc3339_utc() {
    assert_eq!(format_datetime(&SaveTimestamp { unix_secs: 0, nanos: 0 }), "1970-01-01T00:00:00+00:00");
    assert_eq!(
        format_datetime(&SaveTimestamp { unix_secs: 86_400, nanos: 500_000_000 }),
        "1970-01-02T00:00:00.500+00:00"
    );
    let naive = chrono::DateTime::from_timestamp(1_234_567_890, 0).unwrap().naive_utc();
    assert_eq!(
        format_datetime(&SaveTimestamp { unix_secs: 1_234_567_890, nanos: 0 }),
        naive.and_utc().to_rfc3339()
    );
}

#[test]
fn save_list_items() {
    let saves = vec![save(1, Some(10)), save(2, None), save(3, Some(99))];
    assert_eq!(last_message_ids(&saves), vec![10, 99]);
    let messages = vec![(10, "hello".to_string()), (11, "other".to_string())];
    let items = build_save_list(&saves, &messages, &vec![true, false, false], "/d", '/');
    assert_eq!(items.len(), 3);
    assert_eq!(items[0].last_message.as_deref(), Some("hello"));
    assert_eq!(items[0].screenshot.as_deref(), Some("/d/screenshots/1.png"));
    assert_eq!(items[0].create_date, "1970-01-01T00:00:00+00:00");
    assert_eq!(items[1].last_message, None);
    assert_eq!(items[1].screenshot, None);
    assert_eq!(items[2].last_message, None);
    assert_eq!(items[2].title, "save 3");
    let response = SaveListResponse { saves: items, total: 3 };
    assert_eq!(response.total, 3);
}

#[test]
fn screenshot_location() {
    assert_eq!(screenshot_path("/data", 42, '/'), "/data/screenshots/42.png");
    assert_eq!(screenshot_path("/data/", 7, '/'), "/data/screenshots/7.png");
    assert_eq!(screenshot_path("C:\\g", 7, '\\'), "C:\\g\\screenshots\\7.png");
    assert_eq!(screenshot_path("C:", 7, '\\'), "C:screenshots\\7.png");
    assert_eq!(screenshot_path(r"\\?\C:\g\", 7, '\\'), r"\\?\C:\g\screenshots\7.png");
}

#[test]
fn paging() {
    assert_eq!(page_request(None, None), (1, 50));
    assert_eq!(page_request(Some(3), Some(10)), (3, 10));
    assert_eq!(page_offset(3, 10), 20);
    assert_eq!(page_offset(1, 50), 0);
    assert_eq!(page_offset(0, 50), 0);
}

#[test]
fn save_command_answers() {
    let r = CreateSaveResponse::created(5);
    assert_eq!(r.save_id, 5);
    assert_eq!(r.message, "存档创建成功");
    assert_eq!(missing_save_error(12), "存档 12 不存在");
    assert_eq!(require_main_role(Some(3)), Ok(3));
    assert_eq!(require_main_role(None), Err("存档中未记录主角信息".to_string()));
}

#[test]
fn continue_and_resume() {
    assert_eq!(continue_role(Some(2), Some(5)), Some(2));
    assert_eq!(continue_role(None, Some(5)), Some(5));
    assert_eq!(continue_role(None, None), None);
    assert_eq!(resume_save(Some(8), Some(9)), Some(8));
    assert_eq!(resume_save(None, Some(9)), Some(9));
    assert_eq!(continue_save(Some(8), true), Some(8));
    assert_eq!(continue_save(Some(8), false), None);
}

#[test]
fn deleting_active_save_forgets_it() {
    let mut gs = GameStatus::new();
    gs.active_save_id = Some(4);
    assert_eq!(gs.forget_deleted_save(3, Some(1)), None);
    assert_eq!(gs.active_save_id, Some(4));
    assert_eq!(gs.forget_deleted_save(4, Some(1)), Some("game.last_save_id_1".to_string()));
    assert_eq!(gs.active_save_id, None);
    gs.active_save_id = Some(6);
    assert_eq!(gs.forget_deleted_save(6, None), None);
    assert_eq!(gs.active_save_id, None);
}

fn vf(name: &str, is_file: bool, size: u64) -> VoiceFile {
    VoiceFile { name: name.to_string(), is_file, size }
}

#[test]
fn voice_cache_statistics() {
    let files = vec![vf("a.wav", true, 100), vf("b.wav", true, 50), vf("dir", false, 4096), vf("c.wav", true, 7)];
    let referenced = vec!["b.wav".to_string()];
    let info = cache_info(&files, &referenced);
    assert_eq!(info.total_size, 157);
    assert_eq!(info.file_count, 3);
    assert_eq!(info.orphan_files, 2);
    assert_eq!(info.orphan_size, 107);
    assert_eq!(count_orphan_files(&files, &referenced), (2, 107));
    assert_eq!(orphan_file_names(&files, &referenced), vec!["a.wav".to_string(), "c.wav".to_string()]);
    assert_eq!(cleanup_message(2), "已清理 2 个孤立 TTS 缓存文件");
    assert_eq!(
        referenced_voice_files(vec![Some("x.wav".to_string()), None, Some("y.wav".to_string())]),
        vec!["x.wav".to_string(), "y.wav".to_string()]
    );
}

fn stored(id: i32, parent: Option<i32>, content: &str) -> LineRecord {
    LineRecord {
        id,
        content: content.to_string(),
        original_emotion: None,
        predicted_emotion: None,
        tts_content: None,
        action_content: None,
        thinking: None,
        tool_call: None,
        audio_file: None,
        attribute: LineAttribute::User,
        sender_role_id: None,
        display_name: None,
        save_id: 3,
        parent_line_id: parent,
    }
}

#[test]
fn new_save_writes_dialogue_protagonist_and_scene() {
    let mut gs = GameStatus::new();
    gs.main_role_id = Some(2);
    gs.background = "park.png".to_string();
    let empty = gs.new_save_write();
    assert!(empty.lines.is_none());
    assert_eq!(empty.main_role_id, Some(2));
    assert_eq!(empty.snapshot.background, "park.png");
    gs.add_line(LineBase::new("a".to_string(), LineAttribute::User));
    gs.add_line(LineBase::new("b".to_string(), LineAttribute::User));
    let w = gs.new_save_write();
    let plan = w.lines.unwrap();
    assert_eq!(plan.diverge, 0);
    assert!(plan.stale_ids.is_empty());
    assert_eq!(plan.keep_tail, None);
}

#[test]
fn update_of_missing_save_is_refused() {
    let gs = GameStatus::new();
    assert_eq!(gs.save_update_write(12, false, &vec![]).err(), Some("存档 12 不存在".to_string()));
}

#[test]
fn update_plans_against_stored_lines() {
    let mut gs = GameStatus::new();
    gs.main_role_id = Some(2);
    gs.add_line(LineBase::new("a".to_string(), LineAttribute::User));
    gs.add_line(LineBase::new("c".to_string(), LineAttribute::User));
    let rows = vec![stored(5, None, "a"), stored(6, Some(5), "b")];
    let w = gs.save_update_write(3, true, &rows).ok().unwrap();
    let plan = w.lines.unwrap();
    assert_eq!(plan.diverge, 1);
    assert_eq!(plan.stale_ids, vec![6]);
    assert_eq!(plan.keep_tail, Some(5));
    assert_eq!(w.main_role_id, None);
}

#[test]
fn load_needs_save_and_protagonist() {
    assert_eq!(load_save_role(4, &None), Err("存档 4 不存在".to_string()));
    assert_eq!(load_save_role(4, &Some(save(4, None))), Ok(1));
    let mut headless = save(4, None);
    headless.main_role_id = None;
    assert_eq!(load_save_role(4, &Some(headless)), Err("存档中未记录主角信息".to_string()));
}

fn slot(id: i32, title: &str, role: Option<i32>, updated: i64, nanos: u32) -> SaveRecord {
    let mut s = save(id, None);
    s.title = title.to_string();
    s.main_role_id = role;
    s.update_date = SaveTimestamp { unix_secs: updated, nanos };
    s
}

#[test]
fn auto_save_slot_is_the_latest_of_the_role() {
    let saves = vec![
        slot(1, "自动存档", Some(2), 100, 0),
        slot(2, "自动存档 2024-01-01 10:00:00", Some(2), 300, 0),
        slot(3, "我的存档", Some(2), 900, 0),
        slot(4, "自动存档", Some(5), 950, 0),
        slot(5, "自动存档", None, 50, 0),
        slot(6, "自动存档", Some(2), 300, 5),
    ];
    assert_eq!(SaveRepo::find_auto_save_slot(&saves, Some(2)), Some(6));
    assert_eq!(SaveRepo::find_auto_save_slot(&saves, Some(5)), Some(4));
    assert_eq!(SaveRepo::find_auto_save_slot(&saves, None), Some(5));
    assert_eq!(SaveRepo::find_auto_save_slot(&saves, Some(9)), None);
    assert_eq!(SaveRepo::find_auto_save_slot(&vec![], Some(2)), None);
}

#[test]
fn appended_line_hangs_from_the_latest_line_of_its_save() {
    let mut other = stored(50, None, "x");
    other.save_id = 8;
    let rows = vec![stored(5, None, "a"), stored(9, Some(5), "b"), other, stored(7, Some(9), "c")];
    assert_eq!(SaveRepo::append_parent(&rows, 3), Some(9));
    assert_eq!(SaveRepo::append_parent(&rows, 8), Some(50));
    assert_eq!(SaveRepo::append_parent(&rows, 4), None);
}

#[test]
fn deletion_tally() {
    let t = tally_deletions(&vec![true, false, true]);
    assert_eq!(t, CleanupTally { deleted: 2, failed: 1, success: false });
    assert_eq!(tally_deletions(&vec![true, true]), CleanupTally { deleted: 2, failed: 0, success: true });
    assert_eq!(tally_deletions(&vec![]), CleanupTally { deleted: 0, failed: 0, success: true });
}

#[test]
fn deleting_a_save_takes_its_lines() {
    let mut other = stored(50, None, "x");
    other.save_id = 8;
    let rows = vec![stored(5, None, "a"), other, stored(9, Some(5), "b")];
    assert_eq!(SaveRepo::save_line_ids(&rows, 3), vec![5, 9]);
    assert_eq!(SaveRepo::save_line_ids(&rows, 8), vec![50]);
    assert!(SaveRepo::save_line_ids(&rows, 1).is_empty());
}
