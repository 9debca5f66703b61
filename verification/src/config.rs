//! Settings-store keys and file locations, and the decisions around the
//! settings file: when to record the save being played, and how to recover a
//! damaged settings file from its backup.

use vstd::prelude::*;
use crate::text::{int_decimal, push_decimal, push_str};
use crate::json::{is_json, json_parses};
use crate::keys::LAST_SAVE_ID_PREFIX;

verus! {

/// The name of the settings file.
pub const STORE_FILE: &'static str = "settings.json";

/// The platform's main path separator is `/` (Unix) or `\` (Windows).
pub open spec fn is_main_separator(sep: char) -> bool {
    sep == '/' || sep == '\\'
}

/// `c` separates path components: `/` everywhere, and `\` too on Windows
/// (where the main separator is `\`).
pub open spec fn is_separator(c: char, sep: char) -> bool {
    c == '/' || (sep == '\\' && c == '\\')
}

/// An ASCII letter.
pub open spec fn is_ascii_letter(c: char) -> bool {
    ('a' <= c && c <= 'z') || ('A' <= c && c <= 'Z')
}

/// On Windows, the path is a bare drive such as `C:`.
pub open spec fn is_drive_only(dir: Seq<char>, sep: char) -> bool {
    sep == '\\' && dir.len() == 2 && is_ascii_letter(dir[0]) && dir[1] == ':'
}

/// On Windows, the path starts with the verbatim prefix `\\?\`, which
/// turns off the normalisation of the path (only `\` separates its parts).
pub open spec fn starts_verbatim(dir: Seq<char>, sep: char) -> bool {
    sep == '\\' && dir.len() >= 4 && dir[0] == '\\' && dir[1] == '\\' && dir[2] == '?' && dir[3] == '\\'
}

/// The length of the first piece of `s`: up to its first `\`, or all of
/// `s` when it has none.
pub open spec fn first_piece_len(s: Seq<char>) -> nat
    decreases s.len(),
{
    if s.len() == 0 || s[0] == '\\' {
        0
    } else {
        1 + first_piece_len(s.drop_first())
    }
}

/// The length of the prefix of a verbatim path (one starting with `\\?\`):
/// `\\?\UNC\<server>\<share>` (the `\` after `UNC` may also be written
/// `/`; the share, when empty, is left out), `\\?\<letter>:` when the
/// drive is followed by `\` or nothing, else `\\?\` and the first piece.
pub open spec fn verbatim_prefix_len(dir: Seq<char>) -> nat {
    let r = dir.subrange(4, dir.len() as int);
    if r.len() >= 4 && r[0] == 'U' && r[1] == 'N' && r[2] == 'C' && (r[3] == '\\' || r[3] == '/') {
        let u = dir.subrange(8, dir.len() as int);
        let server = first_piece_len(u);
        if server < u.len() {
            let share = first_piece_len(u.subrange(server + 1int, u.len() as int));
            if share > 0 {
                8 + server + 1 + share
            } else {
                8 + server
            }
        } else {
            8 + server
        }
    } else if r.len() >= 2 && is_ascii_letter(r[0]) && r[1] == ':' && (r.len() == 2 || r[2] == '\\') {
        6
    } else {
        4 + first_piece_len(r)
    }
}

/// The pieces of `s` between `\` separators, empty ones dropped, each
/// written after a `\`: how the parts of a verbatim path are written back.
pub open spec fn pieces_text(s: Seq<char>) -> Seq<char>
    decreases s.len(),
{
    if s.len() == 0 {
        s
    } else {
        let c = s.last();
        let front = pieces_text(s.drop_last());
        if c == '\\' {
            front
        } else if s.len() == 1 || s[s.len() - 2] == '\\' {
            front + seq!['\\', c]
        } else {
            front.push(c)
        }
    }
}

/// `dir` joined with `name`, a relative file name that is one plain path
/// component (no separator, not `.` or `..`), as `Path::join` does on a
/// platform whose main separator is `sep`. A verbatim directory is written
/// back from its prefix and its non-empty parts, each after a `\`, and the
/// name after one more `\`. Otherwise the separator is put between them
/// unless `dir` is empty, already ends with a separator, or is a bare drive
/// on Windows.
pub open spec fn path_join(dir: Seq<char>, name: Seq<char>, sep: char) -> Seq<char> {
    if starts_verbatim(dir, sep) {
        let p = verbatim_prefix_len(dir) as int;
        dir.subrange(0, p) + pieces_text(dir.subrange(p, dir.len() as int)) + seq!['\\'] + name
    } else if dir.len() == 0 || is_separator(dir.last(), sep) || is_drive_only(dir, sep) {
        dir + name
    } else {
        dir + seq![sep] + name
    }
}

proof fn lemma_first_piece(s: Seq<char>, k: int)
    requires
        0 <= k <= s.len(),
        forall|j: int| 0 <= j < k ==> s[j] != '\\',
        k == s.len() || s[k] == '\\',
    ensures
        first_piece_len(s) == k,
    decreases k,
{
    if k > 0 {
        lemma_first_piece(s.drop_first(), k - 1);
    }
}

/// The end of the piece of `dir` that starts at `from`: the position of the
/// next `\`, or the end.
fn piece_end(dir: &str, from: usize, n: usize) -> (e: usize)
    requires
        n == dir@.len(),
        from <= n,
    ensures
        from <= e <= n,
        e - from == first_piece_len(dir@.subrange(from as int, n as int)),
{
    let mut e = from;
    while e < n
        invariant
            n == dir@.len(),
            from <= e <= n,
            forall|j: int| from <= j < e ==> dir@[j] != '\\',
        ensures
            from <= e <= n,
            forall|j: int| from <= j < e ==> dir@[j] != '\\',
            e == n || dir@[e as int] == '\\',
        decreases n - e,
    {
        if dir.get_char(e) == '\\' {
            break;
        }
        e = e + 1;
    }
    proof {
        lemma_first_piece(dir@.subrange(from as int, n as int), e - from);
    }
    e
}

fn verbatim_prefix_end(dir: &str, n: usize) -> (p: usize)
    requires
        n == dir@.len(),
        starts_verbatim(dir@, '\\'),
    ensures
        p == verbatim_prefix_len(dir@),
        4 <= p <= n,
{
    let ghost r = dir@.subrange(4, n as int);
    let ghost u = dir@.subrange(8, n as int);
    if n >= 8 && dir.get_char(4) == 'U' && dir.get_char(5) == 'N' && dir.get_char(6) == 'C' && (dir.get_char(7)
        == '\\' || dir.get_char(7) == '/') {
        let s_end = piece_end(dir, 8, n);
        if s_end < n {
            let sh_end = piece_end(dir, s_end + 1, n);
            assert(u.subrange(s_end - 8 + 1, u.len() as int) =~= dir@.subrange(s_end + 1, n as int));
            if sh_end > s_end + 1 {
                sh_end
            } else {
                s_end
            }
        } else {
            s_end
        }
    } else {
        let drive = if n >= 6 {
            let c = dir.get_char(4);
            let letter = ('a' <= c && c <= 'z') || ('A' <= c && c <= 'Z');
            letter && dir.get_char(5) == ':' && (n == 6 || dir.get_char(6) == '\\')
        } else {
            false
        };
        if drive {
            6
        } else {
            piece_end(dir, 4, n)
        }
    }
}

pub(crate) fn join_path(dir: &str, name: &str, sep: char) -> (p: String)
    requires
        is_main_separator(sep),
    ensures
        p@ == path_join(dir@, name@, sep),
{
    let n = dir.unicode_len();
    if sep == '\\' && n >= 4 && dir.get_char(0) == '\\' && dir.get_char(1) == '\\' && dir.get_char(2) == '?'
        && dir.get_char(3) == '\\' {
        let pre = verbatim_prefix_end(dir, n);
        let mut p = String::new();
        let mut i: usize = 0;
        while i < pre
            invariant
                n == dir@.len(),
                pre <= n,
                i <= pre,
                p@ == dir@.subrange(0, i as int),
            decreases pre - i,
        {
            crate::text::push_char(&mut p, dir.get_char(i));
            assert(p@ =~= dir@.subrange(0, i + 1));
            i = i + 1;
        }
        while i < n
            invariant
                n == dir@.len(),
                pre <= i <= n,
                p@ == dir@.subrange(0, pre as int) + pieces_text(dir@.subrange(pre as int, i as int)),
            decreases n - i,
        {
            let c = dir.get_char(i);
            let ghost before = p@;
            let ghost t = dir@.subrange(pre as int, i + 1);
            assert(t.drop_last() =~= dir@.subrange(pre as int, i as int));
            assert(t.last() == c);
            if c != '\\' {
                if i == pre || dir.get_char(i - 1) == '\\' {
                    assert(i > pre ==> t[t.len() - 2] == dir@[i - 1]);
                    crate::text::push_char(&mut p, '\\');
                    crate::text::push_char(&mut p, c);
                    assert(p@ =~= before + seq!['\\', c]);
                } else {
                    assert(t[t.len() - 2] == dir@[i - 1]);
                    crate::text::push_char(&mut p, c);
                }
            }
            i = i + 1;
        }
        assert(dir@.subrange(pre as int, n as int) =~= dir@.subrange(pre as int, dir@.len() as int));
        crate::text::push_char(&mut p, '\\');
        push_str(&mut p, name);
        assert(p@ =~= path_join(dir@, name@, sep));
        return p;
    }
    let mut p = String::from_str(dir);
    let need_sep = if n == 0 {
        false
    } else {
        let last = dir.get_char(n - 1);
        if last == '/' || (sep == '\\' && last == '\\') {
            false
        } else if sep == '\\' && n == 2 {
            let first = dir.get_char(0);
            let letter = ('a' <= first && first <= 'z') || ('A' <= first && first <= 'Z');
            !(letter && last == ':')
        } else {
            true
        }
    };
    if need_sep {
        crate::text::push_char(&mut p, sep);
    }
    push_str(&mut p, name);
    assert(p@ =~= path_join(dir@, name@, sep));
    p
}

/// The location of the settings file: `settings.json` in the data directory,
/// on a platform whose main separator is `sep` (`std::path::MAIN_SEPARATOR`).
pub fn store_path(data_dir: &str, sep: char) -> (path: String)
    requires
        is_main_separator(sep),
    ensures
        path@ == path_join(data_dir@, STORE_FILE@, sep),
{
    join_path(data_dir, STORE_FILE, sep)
}

/// The location of the settings backup: the settings path with its
/// extension set to `json.bak` (`settings.json.bak`).
pub fn settings_backup_path(data_dir: &str, sep: char) -> (path: String)
    requires
        is_main_separator(sep),
    ensures
        path@ == path_join(data_dir@, STORE_FILE@, sep) + ".bak"@,
{
    let mut path = store_path(data_dir, sep);
    push_str(&mut path, ".bak");
    path
}

/// The settings key `game.last_save_id_<role_id>` under which the save slot
/// currently played with `role_id` is recorded.
pub fn last_save_key(role_id: i32) -> (key: String)
    ensures
        key@ == LAST_SAVE_ID_PREFIX@ + int_decimal(role_id as int),
{
    let mut key = String::from_str(LAST_SAVE_ID_PREFIX);
    push_decimal(&mut key, role_id);
    key
}

/// A role or save id read back from the settings: the stored integer, when
/// there is one, cut to 32 bits (`as i32`).
pub open spec fn stored_id_spec(value: Option<i64>) -> Option<i32> {
    match value {
        Some(n) => Some(n as i32),
        None => None,
    }
}

/// Recording `save_id` over the stored value needs a write.
pub open spec fn write_needed(stored: Option<i64>, save_id: i32) -> bool {
    stored_id_spec(stored) != Some(save_id)
}

/// A role or save id read back from the settings.
pub fn stored_id(value: Option<i64>) -> (id: Option<i32>)
    ensures
        id == stored_id_spec(value),
{
    match value {
        Some(n) => Some(n as i32),
        None => None,
    }
}

/// Whether recording `save_id` as the save being played needs a write: only
/// when the stored value (read as an integer, when it is one) differs.
pub fn last_save_write_needed(stored: Option<i64>, save_id: i32) -> (needed: bool)
    ensures
        needed == write_needed(stored, save_id),
{
    match stored {
        Some(n) => n as i32 != save_id,
        None => true,
    }
}

/// What to do about the settings file at start-up.
#[derive(Clone, Copy, Debug, PartialEq, Eq, Structural)]
pub enum RecoveryAction {
    /// Nothing: a file is missing, or the settings file reads as JSON.
    Nothing,
    /// The settings file is damaged and the backup is good: copy it back.
    RestoreFromBackup,
    /// Both are damaged: leave them.
    BackupAlsoDamaged,
}

/// A file's content reads as JSON; an unreadable file (`None`) does not.
pub open spec fn readable_json(text: Option<String>) -> bool {
    match text {
        Some(t) => json_parses(t@),
        None => false,
    }
}

/// Decides whether a damaged settings file is recovered from its backup:
/// only when both files exist, the settings file does not read as JSON
/// (`settings_valid` false) and the backup does (`backup_valid` true).
pub fn recovery_decision(
    settings_exists: bool,
    backup_exists: bool,
    settings_valid: bool,
    backup_valid: bool,
) -> (action: RecoveryAction)
    ensures
        action == (if !settings_exists || !backup_exists || settings_valid {
            RecoveryAction::Nothing
        } else if backup_valid {
            RecoveryAction::RestoreFromBackup
        } else {
            RecoveryAction::BackupAlsoDamaged
        }),
{
    if !settings_exists || !backup_exists || settings_valid {
        RecoveryAction::Nothing
    } else if backup_valid {
        RecoveryAction::RestoreFromBackup
    } else {
        RecoveryAction::BackupAlsoDamaged
    }
}

/// What to do about the settings file at start-up, from the files' contents
/// (`None` where a file cannot be read): a file reads as JSON where serde_json
/// parses it.
pub fn recovery_action(
    settings_exists: bool,
    backup_exists: bool,
    settings_text: &Option<String>,
    backup_text: &Option<String>,
) -> (action: RecoveryAction)
    ensures
        !settings_exists || !backup_exists ==> action == RecoveryAction::Nothing,
        settings_exists && backup_exists && readable_json(*settings_text) ==> action == RecoveryAction::Nothing,
        settings_exists && backup_exists && !readable_json(*settings_text) && readable_json(*backup_text)
            ==> action == RecoveryAction::RestoreFromBackup,
        settings_exists && backup_exists && !readable_json(*settings_text) && !readable_json(*backup_text)
            ==> action == RecoveryAction::BackupAlsoDamaged,
{
    if !settings_exists || !backup_exists {
        return RecoveryAction::Nothing;
    }
    let settings_valid = match settings_text {
        Some(t) => is_json(t.as_str()),
        None => false,
    };
    let backup_valid = match backup_text {
        Some(t) => is_json(t.as_str()),
        None => false,
    };
    recovery_decision(settings_exists, backup_exists, settings_valid, backup_valid)
}

/// Once a save id is recorded (stored as a 64-bit integer), recording the
/// same id again writes nothing.
pub proof fn law_recorded_save_needs_no_write(save_id: i32)
    ensures
        !write_needed(Some(save_id as i64), save_id),
{
}

} // verus!

verus! {

/// Different roles have different last-save keys, so one role's record never
/// overwrites another's.
pub proof fn law_last_save_keys_distinct(a: i32, b: i32)
    requires
        a != b,
    ensures
        LAST_SAVE_ID_PREFIX@ + int_decimal(a as int) != LAST_SAVE_ID_PREFIX@ + int_decimal(b as int),
{
    let p = LAST_SAVE_ID_PREFIX@;
    if p + int_decimal(a as int) == p + int_decimal(b as int) {
        assert((p + int_decimal(a as int)).subrange(p.len() as int, (p + int_decimal(a as int)).len() as int)
            =~= int_decimal(a as int));
        assert((p + int_decimal(b as int)).subrange(p.len() as int, (p + int_decimal(b as int)).len() as int)
            =~= int_decimal(b as int));
        crate::text::lemma_int_decimal_injective(a as int, b as int);
    }
}

/// Joining puts the name last: the joined path ends with the name; outside
/// a verbatim directory it starts with the directory, and is the directory
/// and the name with at most the separator between them.
pub proof fn law_join_ends_with_name(dir: Seq<char>, name: Seq<char>, sep: char)
    ensures
        path_join(dir, name, sep).len() >= name.len(),
        path_join(dir, name, sep).subrange(
            path_join(dir, name, sep).len() - name.len(),
            path_join(dir, name, sep).len() as int,
        ) == name,
        !starts_verbatim(dir, sep) ==> path_join(dir, name, sep).subrange(0, dir.len() as int) == dir,
        !starts_verbatim(dir, sep) ==> (path_join(dir, name, sep) == dir + name || path_join(dir, name, sep) == dir
            + seq![sep] + name),
        !starts_verbatim(dir, sep) && dir.len() > 0 && !is_separator(dir.last(), sep) && !is_drive_only(dir, sep)
            ==> path_join(dir, name, sep) == dir + seq![sep] + name,
{
    let j = path_join(dir, name, sep);
    assert(j.subrange(j.len() - name.len(), j.len() as int) =~= name);
    if !starts_verbatim(dir, sep) {
        assert(j.subrange(0, dir.len() as int) =~= dir);
    }
}

} // verus!
