//! The save commands' computations: the save list shown to the player, the
//! answers of the save commands, and what deleting a save does to the
//! record of the save being played.

use vstd::prelude::*;
use crate::lines::opt_view;
use crate::clock::{DialogTime, dialog_time_text, rfc3339_text};
use crate::config::{path_join, last_save_key, is_main_separator};
use crate::keys::LAST_SAVE_ID_PREFIX;
use crate::game_status::{GameStatus, GameStatusSnapshot, is_snapshot_of};
use crate::lines::LineRecord;
use crate::save_repo::{SaveRepo, SyncPlan, is_sync_plan};
use crate::text::{int_decimal, push_decimal, push_str};

verus! {

/// A stored date-time, read as UTC: seconds and nanoseconds since the epoch.
#[derive(Clone, Copy, Debug, PartialEq, Eq, Structural)]
pub struct SaveTimestamp {
    pub unix_secs: i64,
    pub nanos: u32,
}

/// A save as stored.
pub struct SaveRecord {
    pub id: i32,
    pub title: String,
    /// The game-status snapshot as JSON text.
    pub status: String,
    pub create_date: SaveTimestamp,
    pub update_date: SaveTimestamp,
    pub last_message_id: Option<i32>,
    pub main_role_id: Option<i32>,
    pub running_script_id: Option<i32>,
}

/// A save as the save list shows it.
pub struct SaveListItem {
    pub id: i32,
    pub title: String,
    pub create_date: String,
    pub update_date: String,
    pub last_message: Option<String>,
    pub screenshot: Option<String>,
}

/// A page of the save list and the number of saves in all.
pub struct SaveListResponse {
    pub saves: Vec<SaveListItem>,
    pub total: u64,
}

/// The answer to creating a save.
pub struct CreateSaveResponse {
    pub save_id: i32,
    pub message: String,
}

impl CreateSaveResponse {
    /// The answer for a save just created.
    pub fn created(save_id: i32) -> (r: CreateSaveResponse)
        ensures
            r.save_id == save_id,
            r.message@ == "存档创建成功"@,
    {
        CreateSaveResponse { save_id, message: String::from_str("存档创建成功") }
    }
}

/// The RFC 3339 text of a stored date-time read as UTC (empty where chrono
/// has no such instant).
pub open spec fn datetime_text(t: SaveTimestamp) -> Seq<char> {
    match rfc3339_text(t.unix_secs, t.nanos, 0) {
        Some(text) => text,
        None => seq![],
    }
}

/// The stored date-time as RFC 3339 text in UTC.
pub fn format_datetime(t: &SaveTimestamp) -> (text: String)
    ensures
        text@ == datetime_text(*t),
{
    match dialog_time_text(&DialogTime { unix_secs: t.unix_secs, nanos: t.nanos, utc_offset_secs: 0 }) {
        Some(text) => text,
        None => String::new(),
    }
}

/// Where a save's screenshot is kept: `screenshots/<save_id>.png` in the
/// data directory.
pub open spec fn screenshot_path_text(data_dir: Seq<char>, save_id: i32, sep: char) -> Seq<char> {
    path_join(path_join(data_dir, "screenshots"@, sep), int_decimal(save_id as int) + ".png"@, sep)
}

/// Where a save's screenshot is kept.
pub fn screenshot_path(data_dir: &str, save_id: i32, sep: char) -> (path: String)
    requires
        is_main_separator(sep),
    ensures
        path@ == screenshot_path_text(data_dir@, save_id, sep),
{
    let dir = crate::config::join_path(data_dir, "screenshots", sep);
    let mut name = String::new();
    push_decimal(&mut name, save_id);
    push_str(&mut name, ".png");
    crate::config::join_path(dir.as_str(), name.as_str(), sep)
}

/// The text of the line `id` among the fetched lines; where an id occurs
/// more than once the later line wins, as when they are collected into a map.
pub open spec fn message_text(lines: Seq<(i32, String)>, id: i32) -> Option<String>
    decreases lines.len(),
{
    if lines.len() == 0 {
        None
    } else if lines.last().0 == id {
        Some(lines.last().1)
    } else {
        message_text(lines.drop_last(), id)
    }
}

fn find_message(lines: &Vec<(i32, String)>, id: i32) -> (text: Option<String>)
    ensures
        text == message_text(lines@, id),
{
    let mut i: usize = lines.len();
    assert(lines@.take(lines.len() as int) =~= lines@);
    while i > 0
        invariant
            i <= lines@.len(),
            message_text(lines@, id) == message_text(lines@.take(i as int), id),
        decreases i,
    {
        assert(lines@.take(i as int).drop_last() =~= lines@.take(i - 1));
        if lines[i - 1].0 == id {
            return Some(lines[i - 1].1.clone());
        }
        i = i - 1;
    }
    None
}

/// The ids of the saves' last messages, in order, for the saves that have one.
pub open spec fn last_message_id_list(saves: Seq<SaveRecord>) -> Seq<i32>
    decreases saves.len(),
{
    if saves.len() == 0 {
        seq![]
    } else {
        let rest = last_message_id_list(saves.drop_last());
        match saves.last().last_message_id {
            Some(id) => rest.push(id),
            None => rest,
        }
    }
}

/// The ids of the saves' last messages, whose texts the save list shows.
pub fn last_message_ids(saves: &Vec<SaveRecord>) -> (ids: Vec<i32>)
    ensures
        ids@ == last_message_id_list(saves@),
{
    let mut ids: Vec<i32> = Vec::new();
    for i in 0..saves.len()
        invariant
            ids@ == last_message_id_list(saves@.take(i as int)),
    {
        assert(saves@.take(i + 1).drop_last() =~= saves@.take(i as int));
        if let Some(id) = saves[i].last_message_id {
            ids.push(id);
        }
    }
    assert(saves@.take(saves.len() as int) =~= saves@);
    ids
}

/// `item` shows `save`: its dates as RFC 3339 text, the text of its last
/// message if that line was found, and the screenshot's path if the file
/// exists.
pub open spec fn is_list_item(
    save: SaveRecord,
    messages: Seq<(i32, String)>,
    has_screenshot: bool,
    data_dir: Seq<char>,
    sep: char,
    item: SaveListItem,
) -> bool {
    &&& item.id == save.id
    &&& item.title == save.title
    &&& item.create_date@ == datetime_text(save.create_date)
    &&& item.update_date@ == datetime_text(save.update_date)
    &&& item.last_message == (match save.last_message_id {
        Some(id) => message_text(messages, id),
        None => None,
    })
    &&& opt_view(item.screenshot) == (if has_screenshot {
        Some(screenshot_path_text(data_dir, save.id, sep))
    } else {
        None
    })
}

/// The save list: for each save (in the order given), its id, title, dates,
/// the text of its last message among `messages` (the fetched last-message
/// lines as id and text) and, where `has_screenshot` says the file exists,
/// its screenshot's path.
pub fn build_save_list(
    saves: &Vec<SaveRecord>,
    messages: &Vec<(i32, String)>,
    has_screenshot: &Vec<bool>,
    data_dir: &str,
    sep: char,
) -> (items: Vec<SaveListItem>)
    requires
        has_screenshot@.len() == saves@.len(),
        is_main_separator(sep),
    ensures
        items@.len() == saves@.len(),
        forall|i: int| 0 <= i < saves@.len() ==> is_list_item(saves@[i], messages@, has_screenshot@[i], data_dir@, sep,
            #[trigger] items@[i]),
{
    let mut items: Vec<SaveListItem> = Vec::new();
    for i in 0..saves.len()
        invariant
            has_screenshot@.len() == saves@.len(),
            is_main_separator(sep),
            items@.len() == i,
            forall|k: int| 0 <= k < i ==> is_list_item(saves@[k], messages@, has_screenshot@[k], data_dir@, sep,
                #[trigger] items@[k]),
    {
        let s = &saves[i];
        let last_message = match s.last_message_id {
            Some(id) => find_message(messages, id),
            None => None,
        };
        let screenshot = if has_screenshot[i] { Some(screenshot_path(data_dir, s.id, sep)) } else { None };
        items.push(SaveListItem {
            id: s.id,
            title: s.title.clone(),
            create_date: format_datetime(&s.create_date),
            update_date: format_datetime(&s.update_date),
            last_message,
            screenshot,
        });
    }
    items
}

/// The page asked for, defaulting to page 1 of 50 saves.
pub fn page_request(page: Option<u64>, page_size: Option<u64>) -> (r: (u64, u64))
    ensures
        r.0 == (match page { Some(p) => p, None => 1 }),
        r.1 == (match page_size { Some(n) => n, None => 50 }),
{
    let p = match page { Some(p) => p, None => 1 };
    let n = match page_size { Some(n) => n, None => 50 };
    (p, n)
}

/// How many saves come before the page: `(page - 1) * page_size`, page 0
/// counting as page 1.
pub fn page_offset(page: u64, page_size: u64) -> (offset: u64)
    requires
        (if page > 0 { page - 1 } else { 0 }) * page_size <= u64::MAX,
    ensures
        offset == (if page > 0 { page - 1 } else { 0 }) * page_size,
{
    let before: u64 = if page > 0 { page - 1 } else { 0 };
    before * page_size
}

/// The error for a save that does not exist: `存档 <id> 不存在`.
pub fn missing_save_error(save_id: i32) -> (message: String)
    ensures
        message@ == "存档 "@ + int_decimal(save_id as int) + " 不存在"@,
{
    let mut message = String::from_str("存档 ");
    push_decimal(&mut message, save_id);
    push_str(&mut message, " 不存在");
    message
}

/// A save can only be loaded with its protagonist recorded.
pub fn require_main_role(main_role_id: Option<i32>) -> (r: Result<i32, String>)
    ensures
        main_role_id matches Some(id) ==> r == Ok::<i32, String>(id),
        main_role_id is None ==> (r matches Err(m) && m@ == "存档中未记录主角信息"@),
{
    match main_role_id {
        Some(id) => Ok(id),
        None => Err(String::from_str("存档中未记录主角信息")),
    }
}

/// The role whose save "continue" resumes: the last role played (from the
/// settings), else the protagonist of the current game.
pub fn continue_role(last_character_id: Option<i32>, main_role_id: Option<i32>) -> (role: Option<i32>)
    ensures
        role == (if last_character_id is Some { last_character_id } else { main_role_id }),
{
    match last_character_id {
        Some(r) => Some(r),
        None => main_role_id,
    }
}

/// The save that the start of the game resumes for a role: the one
/// recorded as being played, else the role's auto-save slot.
pub fn resume_save(recorded: Option<i32>, auto_slot: Option<i32>) -> (save_id: Option<i32>)
    ensures
        save_id == (if recorded is Some { recorded } else { auto_slot }),
{
    match recorded {
        Some(id) => Some(id),
        None => auto_slot,
    }
}

/// The save that "continue" offers: the recorded one, if it still exists.
pub fn continue_save(recorded: Option<i32>, still_exists: bool) -> (save_id: Option<i32>)
    ensures
        save_id == (if still_exists { recorded } else { None }),
{
    if still_exists { recorded } else { None }
}

impl GameStatus {
    /// After save `save_id` was deleted: if it was the active save, there is
    /// no active save any more and the settings record of the save being
    /// played by its protagonist (`deleted_role`) is to be removed; the key
    /// to remove is returned.
    pub fn forget_deleted_save(&mut self, save_id: i32, deleted_role: Option<i32>) -> (remove_key: Option<String>)
        ensures
            old(self).active_save_id == Some(save_id) ==> {
                &&& final(self).active_save_id is None
                &&& opt_view(remove_key) == (match deleted_role {
                    Some(r) => Some(LAST_SAVE_ID_PREFIX@ + int_decimal(r as int)),
                    None => None,
                })
            },
            old(self).active_save_id != Some(save_id) ==> {
                &&& final(self).active_save_id == old(self).active_save_id
                &&& remove_key is None
            },
            *final(self) == (GameStatus { active_save_id: final(self).active_save_id, ..*old(self) }),
    {
        if self.active_save_id == Some(save_id) {
            self.active_save_id = None;
            match deleted_role {
                Some(r) => Some(last_save_key(r)),
                None => None,
            }
        } else {
            None
        }
    }
}


/// What writing the game into a save takes: the plan for the save's lines
/// (none when no line is written), the protagonist to record, and the
/// snapshot of the scene.
pub struct SaveWrite {
    pub lines: Option<SyncPlan>,
    pub main_role_id: Option<i32>,
    pub snapshot: GameStatusSnapshot,
}

impl GameStatus {
    /// Writing the game into a new save: the save has no lines yet, so the
    /// plan is that of the whole dialogue into an empty save, and there is
    /// none for an empty dialogue; the protagonist is recorded where there is
    /// one; the snapshot is that of the status.
    pub fn new_save_write(&self) -> (w: SaveWrite)
        ensures
            self.line_list@.len() == 0 ==> w.lines is None,
            self.line_list@.len() > 0 ==> (w.lines matches Some(p) && is_sync_plan(
                Seq::<LineRecord>::empty(),
                self.line_list@,
                p,
            )),
            w.main_role_id == self.main_role_id,
            is_snapshot_of(*self, w.snapshot),
    {
        let lines = if self.line_list.len() == 0 {
            None
        } else {
            let none: Vec<LineRecord> = Vec::new();
            Some(SaveRepo::sync_lines(&none, &self.line_list))
        };
        SaveWrite { lines, main_role_id: self.main_role_id, snapshot: self.to_snapshot() }
    }

    /// Writing the game over save `save_id`, whose stored lines in dialogue
    /// order are `stored` (`save_found` false when there is no such save):
    /// the error `存档 <id> 不存在` for a missing save; otherwise the plan of
    /// the dialogue into the stored lines and the snapshot, the protagonist
    /// being left as recorded.
    pub fn save_update_write(&self, save_id: i32, save_found: bool, stored: &Vec<LineRecord>) -> (r: Result<
        SaveWrite,
        String,
    >)
        ensures
            !save_found ==> (r matches Err(m) && m@ == "存档 "@ + int_decimal(save_id as int) + " 不存在"@),
            save_found ==> (r matches Ok(w) && {
                &&& w.lines matches Some(p) && is_sync_plan(stored@, self.line_list@, p)
                &&& w.main_role_id is None
                &&& is_snapshot_of(*self, w.snapshot)
            }),
    {
        if !save_found {
            return Err(missing_save_error(save_id));
        }
        let plan = SaveRepo::sync_lines(stored, &self.line_list);
        Ok(SaveWrite { lines: Some(plan), main_role_id: None, snapshot: self.to_snapshot() })
    }
}

/// Loading save `save_id`, once it was looked up: the error `存档 <id>
/// 不存在` when it is missing, the error for a save without a recorded
/// protagonist, else the protagonist whose game is restored.
pub fn load_save_role(save_id: i32, save: &Option<SaveRecord>) -> (r: Result<i32, String>)
    ensures
        save is None ==> (r matches Err(m) && m@ == "存档 "@ + int_decimal(save_id as int) + " 不存在"@),
        save matches Some(rec) ==> (match rec.main_role_id {
            Some(id) => r == Ok::<i32, String>(id),
            None => r matches Err(m) && m@ == "存档中未记录主角信息"@,
        }),
{
    match save {
        None => Err(missing_save_error(save_id)),
        Some(rec) => require_main_role(rec.main_role_id),
    }
}

/// The text shown for a save's last message is that of the last fetched
/// line with its id, and there is none when no fetched line has it.
pub proof fn law_message_text_is_last_match(lines: Seq<(i32, String)>, id: i32, i: int)
    ensures
        !(exists|k: int| 0 <= k < lines.len() && lines[k].0 == id) ==> message_text(lines, id) is None,
        0 <= i < lines.len() && lines[i].0 == id && (forall|k: int| i < k < lines.len() ==> lines[k].0 != id)
            ==> message_text(lines, id) == Some(lines[i].1),
    decreases lines.len(),
{
    if lines.len() > 0 {
        law_message_text_is_last_match(lines.drop_last(), id, i);
        if !(exists|k: int| 0 <= k < lines.len() && lines[k].0 == id) {
            assert forall|k: int| 0 <= k < lines.drop_last().len() implies lines.drop_last()[k].0 != id by {
                assert(lines[k].0 != id);
            }
        }
        if 0 <= i < lines.len() && lines[i].0 == id && (forall|k: int| i < k < lines.len() ==> lines[k].0 != id) {
            if i < lines.len() - 1 {
                assert(lines.last().0 != id);
                assert(lines.drop_last()[i] == lines[i]);
                assert forall|k: int| i < k < lines.drop_last().len() implies lines.drop_last()[k].0 != id by {
                    assert(lines[k].0 != id);
                }
            }
        }
    }
}

/// The last messages whose texts the list shows are those of the saves
/// that have one, in the saves' order.
pub proof fn law_last_message_ids_of_saves(saves: Seq<SaveRecord>)
    ensures
        last_message_id_list(saves) == saves.filter(|s: SaveRecord| s.last_message_id is Some).map_values(
            |s: SaveRecord| s.last_message_id->0,
        ),
    decreases saves.len(),
{
    reveal(Seq::filter);
    if saves.len() > 0 {
        law_last_message_ids_of_saves(saves.drop_last());
        let g = saves.drop_last().filter(|s: SaveRecord| s.last_message_id is Some);
        assert(g.push(saves.last()).map_values(|s: SaveRecord| s.last_message_id->0) =~= g.map_values(
            |s: SaveRecord| s.last_message_id->0,
        ).push(saves.last().last_message_id->0));
    }
}

/// A save-list entry shows its save: the same id and title, the dates as
/// RFC 3339 text, the last message's text when the save has a last message,
/// and the screenshot's path `<data dir>/screenshots/<id>.png` exactly when
/// the screenshot exists.
pub proof fn law_list_item_shows_save(
    save: SaveRecord,
    messages: Seq<(i32, String)>,
    has_screenshot: bool,
    data_dir: Seq<char>,
    sep: char,
    item: SaveListItem,
)
    requires
        is_list_item(save, messages, has_screenshot, data_dir, sep, item),
    ensures
        item.id == save.id,
        item.title == save.title,
        item.create_date@ == datetime_text(save.create_date),
        item.update_date@ == datetime_text(save.update_date),
        save.last_message_id is None ==> item.last_message is None,
        item.screenshot is Some <==> has_screenshot,
        has_screenshot ==> item.screenshot->0@ == path_join(
            path_join(data_dir, "screenshots"@, sep),
            int_decimal(save.id as int) + ".png"@,
            sep,
        ),
{
}

} // verus!
