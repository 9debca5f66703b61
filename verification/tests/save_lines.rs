use chrono::{Datelike, NaiveDate, Timelike};
use lingchat_core::lines::{GameLine, LineAttribute, LineBase, LinePerception, LineRecord};
use lingchat_core::save_repo::{RunningScriptWrite, SaveRepo};
use lingchat_core::game::LocalTime;

fn record(id: i32, parent: Option<i32>, content: &str) -> LineRecord {
    LineRecord {
        id,
        content: content.to_string(),
        original_emotion: None,
        predicted_emotion: None,
        tts_content: None,
        action_content: None,
        thinking: None,
        tool_call: None,
        audio_file: None,
        attribute: LineAttribute::User,
        sender_role_id: Some(0),
        display_name: None,
        save_id: 1,
        parent_line_id: parent,
    }
}

fn input(id: Option<i32>, content: &str) -> GameLine {
    let mut base = LineBase::new(content.to_string(), LineAttribute::User);
    base.id = id;
    base.sender_role_id = Some(0);
    GameLine::from_base(base, vec![])
}

fn ids(v: &[LineRecord]) -> Vec<i32> {
    v.iter().map(|l| l.id).collect()
}

#[test]
fn line_list_follows_parent_chain() {
    // stored out of order; chain 5 -> 9 -> 2 (2 is the newest)
    let lines = vec![record(9, Some(5), "b"), record(2, Some(9), "c"), record(5, None, "a")];
    let history = SaveRepo::get_line_list(&lines, Some(2));
    assert_eq!(ids(&history), vec![5, 9, 2]);
    assert_eq!(history[0].content, "a");
}

#[test]
fn broken_chain_falls_back_to_id_order() {
    // the chain from 2 reaches 9, whose parent 4 is missing: 5 would be lost
    let lines = vec![record(9, Some(4), "b"), record(2, Some(9), "c"), record(5, None, "a")];
    let history = SaveRepo::get_line_list(&lines, Some(2));
    assert_eq!(ids(&history), vec![2, 5, 9]);
}

#[test]
fn no_last_message_reads_by_id() {
    let lines = vec![record(3, None, "x"), record(1, None, "y")];
    assert_eq!(ids(&SaveRepo::get_line_list(&lines, None)), vec![1, 3]);
    assert!(SaveRepo::get_line_list(&vec![], None).is_empty());
}

#[test]
fn game_lines_carry_perceptions() {
    let lines = vec![record(5, None, "a"), record(9, Some(5), "b")];
    let perceptions = vec![
        LinePerception { line_id: 9, role_id: 2 },
        LinePerception { line_id: 5, role_id: 1 },
        LinePerception { line_id: 9, role_id: 3 },
    ];
    let gl = SaveRepo::get_gameline_list(&lines, &perceptions);
    assert_eq!(gl.len(), 2);
    assert_eq!(gl[0].base.id, Some(5));
    assert_eq!(gl[0].perceived_role_ids, vec![1]);
    assert_eq!(gl[1].perceived_role_ids, vec![2, 3]);
    assert_eq!(gl[1].base.content, "b");
}

#[test]
fn sync_of_unchanged_history_is_a_no_op() {
    let lines = vec![record(5, None, "a"), record(9, Some(5), "b")];
    let loaded = SaveRepo::get_gameline_list(&lines, &vec![]);
    let plan = SaveRepo::sync_lines(&lines, &loaded);
    assert_eq!(plan.diverge, 2);
    assert!(plan.updates.is_empty());
    assert!(plan.stale_ids.is_empty());
    assert_eq!(plan.keep_tail, Some(9));
    assert_eq!(plan.chain_tail(&vec![]), Some(9));
}

#[test]
fn sync_appends_new_lines() {
    let lines = vec![record(5, None, "a")];
    let inputs = vec![input(Some(5), "a"), input(None, "b"), input(None, "c")];
    let plan = SaveRepo::sync_lines(&lines, &inputs);
    assert_eq!(plan.diverge, 1);
    assert!(plan.stale_ids.is_empty());
    assert_eq!(plan.keep_tail, Some(5));
    assert_eq!(plan.chain_tail(&vec![11]), Some(11));
    assert_eq!(plan.chain_tail(&vec![11, 12]), Some(12));
}

#[test]
fn sync_rewrites_edited_line_with_same_id() {
    let lines = vec![record(5, None, "a"), record(9, Some(5), "b")];
    let inputs = vec![input(Some(5), "a"), input(Some(9), "b edited")];
    let plan = SaveRepo::sync_lines(&lines, &inputs);
    assert_eq!(plan.diverge, 2);
    assert_eq!(plan.updates, vec![1]);
    assert!(plan.stale_ids.is_empty());
}

#[test]
fn sync_matches_by_content_without_id() {
    let lines = vec![record(5, None, "a")];
    let inputs = vec![input(None, "a")];
    let plan = SaveRepo::sync_lines(&lines, &inputs);
    assert_eq!(plan.diverge, 1);
    assert!(plan.updates.is_empty());
}

#[test]
fn sync_drops_diverged_tail() {
    let lines = vec![record(5, None, "a"), record(9, Some(5), "b"), record(12, Some(9), "c")];
    let inputs = vec![input(Some(5), "a"), input(None, "other")];
    let plan = SaveRepo::sync_lines(&lines, &inputs);
    assert_eq!(plan.diverge, 1);
    assert_eq!(plan.stale_ids, vec![9, 12]);
    assert_eq!(plan.keep_tail, Some(5));
}

#[test]
fn sync_into_empty_save() {
    let plan = SaveRepo::sync_lines(&vec![], &vec![input(None, "a")]);
    assert_eq!(plan.diverge, 0);
    assert_eq!(plan.keep_tail, None);
    assert_eq!(plan.chain_tail(&vec![]), None);
}

#[test]
fn sync_of_empty_history_clears_save() {
    let lines = vec![record(5, None, "a")];
    let plan = SaveRepo::sync_lines(&lines, &vec![]);
    assert_eq!(plan.diverge, 0);
    assert_eq!(plan.stale_ids, vec![5]);
    assert_eq!(plan.keep_tail, None);
}

#[test]
fn auto_save_slot_title_format() {
    let t = LocalTime { year: 2024, month: 3, day: 7, hour: 9, minute: 5, second: 0 };
    assert_eq!(SaveRepo::auto_save_slot_title(&t), "自动存档 2024-03-07 09:05:00");
    let t = LocalTime { year: 812, month: 12, day: 31, hour: 23, minute: 59, second: 59 };
    assert_eq!(SaveRepo::auto_save_slot_title(&t), "自动存档 0812-12-31 23:59:59");
    let t = LocalTime { year: 12345, month: 1, day: 1, hour: 0, minute: 0, second: 0 };
    assert_eq!(SaveRepo::auto_save_slot_title(&t), "自动存档 +12345-01-01 00:00:00");
    let t = LocalTime { year: -1, month: 1, day: 1, hour: 0, minute: 0, second: 0 };
    assert_eq!(SaveRepo::auto_save_slot_title(&t), "自动存档 -0001-01-01 00:00:00");
}

#[test]
fn auto_save_slot_title_matches_chrono() {
    let dt = NaiveDate::from_ymd_opt(2031, 11, 2).unwrap().and_hms_opt(4, 3, 9).unwrap();
    let t = LocalTime {
        year: dt.year(),
        month: dt.month(),
        day: dt.day(),
        hour: dt.hour(),
        minute: dt.minute(),
        second: dt.second(),
    };
    assert_eq!(
        SaveRepo::auto_save_slot_title(&t),
        format!("{} {}", "自动存档", dt.format("%Y-%m-%d %H:%M:%S"))
    );
}

#[test]
fn running_script_write_decision() {
    assert_eq!(SaveRepo::running_script_write(Some(4), true), RunningScriptWrite::Update(4));
    assert_eq!(SaveRepo::running_script_write(Some(4), false), RunningScriptWrite::Insert);
    assert_eq!(SaveRepo::running_script_write(None, true), RunningScriptWrite::Insert);
}

#[test]
fn written_sync_reads_back_in_order() {
    // a save stored as a chain: 5 <- 9 <- 12
    let db = vec![record(5, None, "a"), record(9, Some(5), "b"), record(12, Some(9), "c")];
    let history = SaveRepo::get_line_list(&db, Some(12));
    // the player edits the history after the second line and adds two lines
    let inputs = vec![input(Some(5), "a"), input(Some(9), "b"), input(None, "x"), input(None, "y")];
    let plan = SaveRepo::sync_lines(&history, &inputs);
    assert_eq!(plan.diverge, 2);
    assert_eq!(plan.stale_ids, vec![12]);
    // perform the plan: drop the stale rows, insert the new lines in a chain
    let mut stored: Vec<LineRecord> =
        db.into_iter().filter(|l| !plan.stale_ids.contains(&l.id)).collect();
    let mut inserted_ids: Vec<i32> = Vec::new();
    for (k, line) in inputs[plan.diverge..].iter().enumerate() {
        let id = 100 + k as i32;
        let mut r = record(id, plan.chain_tail(&inserted_ids), &line.base.content);
        r.attribute = line.base.attribute;
        stored.push(r);
        inserted_ids.push(id);
    }
    let last = plan.chain_tail(&inserted_ids);
    assert_eq!(last, Some(101));
    let read = SaveRepo::get_line_list(&stored, last);
    assert_eq!(ids(&read), vec![5, 9, 100, 101]);
    let contents: Vec<&str> = read.iter().map(|l| l.content.as_str()).collect();
    assert_eq!(contents, vec!["a", "b", "x", "y"]);
}

#[test]
fn second_sync_of_written_history_changes_nothing() {
    let db = vec![record(5, None, "a"), record(9, Some(5), "b")];
    let history = SaveRepo::get_line_list(&db, Some(9));
    // the in-memory lines carry no ids yet: they are inserted the first time
    let inputs = vec![input(Some(5), "a"), input(Some(9), "b"), input(None, "x")];
    let plan = SaveRepo::sync_lines(&history, &inputs);
    assert_eq!(plan.diverge, 2);
    let mut stored = db;
    let new_row = record(40, plan.chain_tail(&vec![]), "x");
    stored.push(new_row);
    let last = plan.chain_tail(&vec![40]);
    // the same history written again: every line is kept, nothing rewritten
    let again = SaveRepo::get_line_list(&stored, last);
    let second = SaveRepo::sync_lines(&again, &inputs);
    assert_eq!(second.diverge, 3);
    assert!(second.updates.is_empty());
    assert!(second.stale_ids.is_empty());
    assert_eq!(second.keep_tail, Some(40));
    assert_eq!(second.chain_tail(&vec![]), last);
}
