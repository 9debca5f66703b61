//! The voice cache: which voice files no saved line refers to, and how much
//! space the cache and its orphans take.

use vstd::prelude::*;
use crate::game_status::has_text;

verus! {

/// An entry of the voice directory.
pub struct VoiceFile {
    pub name: String,
    /// The entry is a regular file.
    pub is_file: bool,
    /// Its size in bytes (0 where it cannot be read).
    pub size: u64,
}

/// A regular file that no saved line refers to.
pub open spec fn is_orphan(f: VoiceFile, referenced: Seq<String>) -> bool {
    f.is_file && !has_text(referenced, f.name@)
}

/// The number of regular files.
pub open spec fn file_count(fs: Seq<VoiceFile>) -> nat
    decreases fs.len(),
{
    if fs.len() == 0 { 0 } else { file_count(fs.drop_last()) + if fs.last().is_file { 1nat } else { 0nat } }
}

/// The total size of the regular files.
pub open spec fn total_size(fs: Seq<VoiceFile>) -> nat
    decreases fs.len(),
{
    if fs.len() == 0 { 0 } else { total_size(fs.drop_last()) + if fs.last().is_file { fs.last().size as nat } else { 0nat } }
}

/// The number of orphan files.
pub open spec fn orphan_count(fs: Seq<VoiceFile>, referenced: Seq<String>) -> nat
    decreases fs.len(),
{
    if fs.len() == 0 {
        0
    } else {
        orphan_count(fs.drop_last(), referenced) + if is_orphan(fs.last(), referenced) { 1nat } else { 0nat }
    }
}

/// The total size of the orphan files.
pub open spec fn orphan_size(fs: Seq<VoiceFile>, referenced: Seq<String>) -> nat
    decreases fs.len(),
{
    if fs.len() == 0 {
        0
    } else {
        orphan_size(fs.drop_last(), referenced) + if is_orphan(fs.last(), referenced) { fs.last().size as nat } else { 0nat }
    }
}

/// The names of the orphan files, in directory order.
pub open spec fn orphan_names(fs: Seq<VoiceFile>, referenced: Seq<String>) -> Seq<Seq<char>>
    decreases fs.len(),
{
    if fs.len() == 0 {
        seq![]
    } else {
        let rest = orphan_names(fs.drop_last(), referenced);
        if is_orphan(fs.last(), referenced) { rest.push(fs.last().name@) } else { rest }
    }
}

/// What the voice cache holds.
pub struct CacheInfo {
    pub total_size: u64,
    pub file_count: usize,
    pub orphan_size: u64,
    pub orphan_files: usize,
}

proof fn lemma_orphans_within(fs: Seq<VoiceFile>, referenced: Seq<String>)
    ensures
        orphan_count(fs, referenced) <= file_count(fs),
        orphan_size(fs, referenced) <= total_size(fs),
        file_count(fs) <= fs.len(),
    decreases fs.len(),
{
    if fs.len() > 0 {
        lemma_orphans_within(fs.drop_last(), referenced);
    }
}

fn is_referenced(referenced: &Vec<String>, name: &String) -> (r: bool)
    ensures
        r == has_text(referenced@, name@),
{
    for i in 0..referenced.len()
        invariant
            forall|k: int| 0 <= k < i ==> referenced@[k]@ != name@,
    {
        if referenced[i] == *name {
            assert(referenced@[i as int]@ == name@);
            return true;
        }
    }
    false
}

/// Sizes and counts of the voice cache: all regular files, and the orphans
/// among them (files that no saved line refers to). The orphans never
/// exceed the whole.
pub fn cache_info(files: &Vec<VoiceFile>, referenced: &Vec<String>) -> (info: CacheInfo)
    requires
        total_size(files@) <= u64::MAX,
    ensures
        info.total_size == total_size(files@),
        info.file_count == file_count(files@),
        info.orphan_size == orphan_size(files@, referenced@),
        info.orphan_files == orphan_count(files@, referenced@),
        info.orphan_files <= info.file_count,
        info.orphan_size <= info.total_size,
{
    let mut info = CacheInfo { total_size: 0, file_count: 0, orphan_size: 0, orphan_files: 0 };
    proof {
        lemma_orphans_within(files@, referenced@);
    }
    for i in 0..files.len()
        invariant
            total_size(files@) <= u64::MAX,
            info.total_size == total_size(files@.take(i as int)),
            info.file_count == file_count(files@.take(i as int)),
            info.orphan_size == orphan_size(files@.take(i as int), referenced@),
            info.orphan_files == orphan_count(files@.take(i as int), referenced@),
            info.file_count <= i,
            info.orphan_files <= info.file_count,
            info.orphan_size <= info.total_size,
    {
        assert(files@.take(i + 1).drop_last() =~= files@.take(i as int));
        proof {
            lemma_prefix_total(files@, i + 1);
            lemma_orphans_within(files@.take(i + 1), referenced@);
        }
        let f = &files[i];
        if f.is_file {
            info.file_count = info.file_count + 1;
            info.total_size = info.total_size + f.size;
            if !is_referenced(referenced, &f.name) {
                info.orphan_files = info.orphan_files + 1;
                info.orphan_size = info.orphan_size + f.size;
            }
        }
    }
    assert(files@.take(files.len() as int) =~= files@);
    info
}

proof fn lemma_prefix_total(fs: Seq<VoiceFile>, k: int)
    requires
        0 <= k <= fs.len(),
    ensures
        total_size(fs.take(k)) <= total_size(fs),
    decreases fs.len() - k,
{
    if k < fs.len() {
        lemma_prefix_total(fs, k + 1);
        assert(fs.take(k + 1).drop_last() =~= fs.take(k));
    } else {
        assert(fs.take(k) =~= fs);
    }
}

/// The number and total size of the orphan files.
pub fn count_orphan_files(files: &Vec<VoiceFile>, referenced: &Vec<String>) -> (r: (usize, u64))
    requires
        orphan_size(files@, referenced@) <= u64::MAX,
    ensures
        r.0 == orphan_count(files@, referenced@),
        r.1 == orphan_size(files@, referenced@),
{
    let mut count: usize = 0;
    let mut size: u64 = 0;
    for i in 0..files.len()
        invariant
            orphan_size(files@, referenced@) <= u64::MAX,
            count == orphan_count(files@.take(i as int), referenced@),
            size == orphan_size(files@.take(i as int), referenced@),
            count <= i,
    {
        assert(files@.take(i + 1).drop_last() =~= files@.take(i as int));
        proof {
            lemma_prefix_orphans(files@, referenced@, i + 1);
            lemma_orphans_within(files@.take(i + 1), referenced@);
        }
        let f = &files[i];
        if f.is_file && !is_referenced(referenced, &f.name) {
            count = count + 1;
            size = size + f.size;
        }
    }
    assert(files@.take(files.len() as int) =~= files@);
    (count, size)
}

proof fn lemma_prefix_orphans(fs: Seq<VoiceFile>, referenced: Seq<String>, k: int)
    requires
        0 <= k <= fs.len(),
    ensures
        orphan_size(fs.take(k), referenced) <= orphan_size(fs, referenced),
    decreases fs.len() - k,
{
    if k < fs.len() {
        lemma_prefix_orphans(fs, referenced, k + 1);
        assert(fs.take(k + 1).drop_last() =~= fs.take(k));
    } else {
        assert(fs.take(k) =~= fs);
    }
}

/// The names of the orphan files, which clearing the cache deletes.
pub fn orphan_file_names(files: &Vec<VoiceFile>, referenced: &Vec<String>) -> (names: Vec<String>)
    ensures
        names@.map_values(|n: String| n@) == orphan_names(files@, referenced@),
{
    let mut names: Vec<String> = Vec::new();
    for i in 0..files.len()
        invariant
            names@.map_values(|n: String| n@) == orphan_names(files@.take(i as int), referenced@),
    {
        assert(files@.take(i + 1).drop_last() =~= files@.take(i as int));
        let f = &files[i];
        if f.is_file && !is_referenced(referenced, &f.name) {
            let ghost before = names@;
            names.push(f.name.clone());
            assert(names@.map_values(|n: String| n@) =~= before.map_values(|n: String| n@).push(f.name@));
        }
    }
    assert(files@.take(files.len() as int) =~= files@);
    names
}

/// The voice files that saved lines refer to, in order, from the lines'
/// audio-file fields (lines without one refer to none).
pub open spec fn referenced_list(audio_files: Seq<Option<String>>) -> Seq<String>
    decreases audio_files.len(),
{
    if audio_files.len() == 0 {
        seq![]
    } else {
        let rest = referenced_list(audio_files.drop_last());
        match audio_files.last() {
            Some(f) => rest.push(f),
            None => rest,
        }
    }
}

/// The voice files that saved lines refer to.
pub fn referenced_voice_files(audio_files: Vec<Option<String>>) -> (names: Vec<String>)
    ensures
        names@ == referenced_list(audio_files@),
{
    let mut names: Vec<String> = Vec::new();
    let rest = audio_files;
    let ghost all = rest@;
    for i in 0..rest.len()
        invariant
            rest@ == all,
            names@ == referenced_list(all.take(i as int)),
    {
        assert(all.take(i + 1).drop_last() =~= all.take(i as int));
        match &rest[i] {
            Some(f) => names.push(f.clone()),
            None => {},
        }
    }
    assert(all.take(all.len() as int) =~= all);
    names
}

/// The message after clearing the cache: `已清理 <n> 个孤立 TTS 缓存文件`.
pub fn cleanup_message(deleted: u64) -> (message: String)
    ensures
        message@ == "已清理 "@ + crate::text::nat_digits(deleted as nat) + " 个孤立 TTS 缓存文件"@,
{
    let mut message = String::from_str("已清理 ");
    crate::text::push_nat_digits(&mut message, deleted);
    crate::text::push_str(&mut message, " 个孤立 TTS 缓存文件");
    message
}


/// The number of deletions that succeeded.
pub open spec fn count_deleted(outcomes: Seq<bool>) -> nat
    decreases outcomes.len(),
{
    if outcomes.len() == 0 {
        0
    } else {
        count_deleted(outcomes.drop_last()) + if outcomes.last() { 1nat } else { 0nat }
    }
}

/// The tally of a cache clearing.
#[derive(Clone, Copy, Debug, PartialEq, Eq, Structural)]
pub struct CleanupTally {
    /// Orphan files deleted.
    pub deleted: u64,
    /// Orphan files that could not be deleted.
    pub failed: usize,
    /// Every orphan file was deleted.
    pub success: bool,
}

/// Tallies the outcomes of deleting the orphan files, one per file (`true`
/// where it was deleted): the deleted and the failed ones add up to the
/// orphan files, and the clearing succeeded when none failed.
pub fn tally_deletions(outcomes: &Vec<bool>) -> (t: CleanupTally)
    ensures
        t.deleted == count_deleted(outcomes@),
        t.deleted + t.failed == outcomes@.len(),
        t.success == (t.failed == 0),
{
    let mut deleted: u64 = 0;
    let mut failed: usize = 0;
    for i in 0..outcomes.len()
        invariant
            deleted == count_deleted(outcomes@.take(i as int)),
            deleted + failed == i,
            i <= outcomes@.len(),
    {
        assert(outcomes@.take(i + 1).drop_last() =~= outcomes@.take(i as int));
        if outcomes[i] {
            deleted = deleted + 1;
        } else {
            failed = failed + 1;
        }
    }
    assert(outcomes@.take(outcomes.len() as int) =~= outcomes@);
    CleanupTally { deleted, failed, success: failed == 0 }
}

/// The orphan files are exactly the regular files whose name no saved line
/// refers to, in directory order; counting them gives the orphan count.
pub proof fn law_orphans_are_unreferenced_files(fs: Seq<VoiceFile>, referenced: Seq<String>)
    ensures
        orphan_names(fs, referenced) == fs.filter(
            |f: VoiceFile| f.is_file && !(exists|i: int| 0 <= i < referenced.len() && referenced[i]@ == f.name@),
        ).map_values(|f: VoiceFile| f.name@),
        orphan_count(fs, referenced) == orphan_names(fs, referenced).len(),
    decreases fs.len(),
{
    reveal(Seq::filter);
    if fs.len() > 0 {
        law_orphans_are_unreferenced_files(fs.drop_last(), referenced);
        let p = |f: VoiceFile| f.is_file && !(exists|i: int| 0 <= i < referenced.len() && referenced[i]@ == f.name@);
        let g = fs.drop_last().filter(p);
        assert(g.push(fs.last()).map_values(|f: VoiceFile| f.name@) =~= g.map_values(|f: VoiceFile| f.name@).push(
            fs.last().name@,
        ));
    }
}

/// The cache's files are its regular files.
pub proof fn law_files_are_regular_files(fs: Seq<VoiceFile>)
    ensures
        file_count(fs) == fs.filter(|f: VoiceFile| f.is_file).len(),
    decreases fs.len(),
{
    reveal(Seq::filter);
    if fs.len() > 0 {
        law_files_are_regular_files(fs.drop_last());
    }
}

/// The referenced voice files are the lines' audio files, in order, for the
/// lines that have one.
pub proof fn law_referenced_are_audio_files(audio_files: Seq<Option<String>>)
    ensures
        referenced_list(audio_files) == audio_files.filter(|o: Option<String>| o is Some).map_values(
            |o: Option<String>| o->0,
        ),
    decreases audio_files.len(),
{
    reveal(Seq::filter);
    if audio_files.len() > 0 {
        law_referenced_are_audio_files(audio_files.drop_last());
        let g = audio_files.drop_last().filter(|o: Option<String>| o is Some);
        assert(g.push(audio_files.last()).map_values(|o: Option<String>| o->0) =~= g.map_values(
            |o: Option<String>| o->0,
        ).push(audio_files.last()->0));
    }
}

/// The deleted files are the deletions that succeeded.
pub proof fn law_deleted_are_successes(outcomes: Seq<bool>)
    ensures
        count_deleted(outcomes) == outcomes.filter(|b: bool| b).len(),
    decreases outcomes.len(),
{
    reveal(Seq::filter);
    if outcomes.len() > 0 {
        law_deleted_are_successes(outcomes.drop_last());
    }
}

/// The sum of the sizes of the entries.
pub open spec fn sizes_sum(fs: Seq<VoiceFile>) -> nat
    decreases fs.len(),
{
    if fs.len() == 0 { 0 } else { sizes_sum(fs.drop_last()) + fs.last().size as nat }
}

/// The cache's size is the sum of its regular files' sizes, and the
/// orphans' size the sum of the sizes of the regular files that no saved
/// line refers to.
pub proof fn law_sizes_are_sums(fs: Seq<VoiceFile>, referenced: Seq<String>)
    ensures
        total_size(fs) == sizes_sum(fs.filter(|f: VoiceFile| f.is_file)),
        orphan_size(fs, referenced) == sizes_sum(fs.filter(
            |f: VoiceFile| f.is_file && !(exists|i: int| 0 <= i < referenced.len() && referenced[i]@ == f.name@),
        )),
    decreases fs.len(),
{
    reveal(Seq::filter);
    if fs.len() > 0 {
        law_sizes_are_sums(fs.drop_last(), referenced);
        let p = |f: VoiceFile| f.is_file && !(exists|i: int| 0 <= i < referenced.len() && referenced[i]@ == f.name@);
        let g = fs.drop_last().filter(p);
        assert(g.push(fs.last()).drop_last() =~= g);
        let h = fs.drop_last().filter(|f: VoiceFile| f.is_file);
        assert(h.push(fs.last()).drop_last() =~= h);
    }
}

} // verus!
