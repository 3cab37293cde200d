//! The process file system backend: parsing of `stat` records and the
//! selection of PIDs from the entries of the process directory.

use vstd::prelude::*;
use crate::text::{lemma_parse_unsigned_bounds, is_ascii_space, is_ascii_space_char, parse_unsigned, parse_unsigned_range, chars_of};
use crate::processes::ProcFilter;

verus! {

/// The fields of a `stat` record that the filters read.
#[derive(Copy, Clone, Debug, PartialEq, Eq)]
pub enum ProcStatField {
    /// Parent process id
    Ppid,
    /// Process group id
    Pgrp,
    /// Device number of the controlling terminal
    TtyNr,
}

impl ProcStatField {
    /// Position among the fields that follow the command, the state being
    /// the first of them.
    pub open spec fn spec_index(self) -> nat {
        match self {
            ProcStatField::Ppid => 1,
            ProcStatField::Pgrp => 2,
            ProcStatField::TtyNr => 4,
        }
    }

    pub fn index(self) -> (r: usize)
        ensures
            r == self.spec_index(),
    {
        match self {
            ProcStatField::Ppid => 1,
            ProcStatField::Pgrp => 2,
            ProcStatField::TtyNr => 4,
        }
    }
}

/// Index of the last `c` in `s`, or -1 when there is none.
pub open spec fn last_index_of(s: Seq<char>, c: char) -> int
    decreases s.len(),
{
    if s.len() == 0 {
        -1
    } else if s.last() == c {
        s.len() - 1
    } else {
        last_index_of(s.drop_last(), c)
    }
}

/// A word starts at `k`: a character that is not ASCII whitespace, first or
/// after whitespace.
pub open spec fn word_start(s: Seq<char>, k: int) -> bool {
    0 <= k < s.len() && !is_ascii_space(s[k]) && (k == 0 || is_ascii_space(s[k - 1]))
}

/// How many words start before index `k`.
pub open spec fn words_before(s: Seq<char>, k: int) -> nat
    decreases k,
{
    if k <= 0 {
        0
    } else {
        words_before(s, k - 1) + if word_start(s, k - 1) {
            1nat
        } else {
            0nat
        }
    }
}

/// End of the run of non-whitespace characters from `a`.
pub open spec fn word_end(s: Seq<char>, a: int) -> int
    decreases s.len() - a,
{
    if 0 <= a < s.len() && !is_ascii_space(s[a]) {
        word_end(s, a + 1)
    } else {
        a
    }
}

/// `split_ascii_whitespace().nth(n)`: the `n`-th word of `s`, counting from 0.
pub open spec fn nth_word(s: Seq<char>, n: nat) -> Option<Seq<char>> {
    if exists|a: int| word_start(s, a) && words_before(s, a) == n {
        let a = choose|a: int| word_start(s, a) && words_before(s, a) == n;
        Some(s.subrange(a, word_end(s, a)))
    } else {
        None
    }
}

/// The value of `field` in a `stat` record: the command is wrapped in
/// parentheses and may hold spaces and digits, so the fields are counted
/// from the last `)` of the line.
pub open spec fn stat_field_spec(line: Seq<char>, field: ProcStatField) -> Option<int> {
    let p = last_index_of(line, ')');
    if p < 0 {
        None
    } else {
        match nth_word(line.subrange(p + 1, line.len() as int), field.spec_index()) {
            Some(w) => parse_unsigned(w, u32::MAX as int),
            None => None,
        }
    }
}

proof fn lemma_words_after_start(s: Seq<char>, a: int, b: int)
    requires
        0 <= a < b,
        word_start(s, a),
    ensures
        words_before(s, b) >= words_before(s, a) + 1,
    decreases b - a,
{
    if b > a + 1 {
        lemma_words_after_start(s, a, b - 1);
    }
}

fn last_index_in(s: &Vec<char>, c: char) -> (r: Option<usize>)
    ensures
        match r {
            Some(p) => p < s@.len() && p as int == last_index_of(s@, c),
            None => last_index_of(s@, c) == -1,
        },
{
    let mut j = s.len();
    assert(s@.subrange(0, j as int) =~= s@);
    while j > 0
        invariant
            j <= s@.len(),
            last_index_of(s@, c) == last_index_of(s@.subrange(0, j as int), c),
        decreases j,
    {
        let ghost p = s@.subrange(0, j as int);
        assert(p.last() == s@[j - 1]);
        if s[j - 1] == c {
            return Some(j - 1);
        }
        assert(p.drop_last() =~= s@.subrange(0, j - 1));
        j = j - 1;
    }
    None
}

/// The bounds of `nth_word(s, n)` inside `s`.
fn nth_word_range(s: &Vec<char>, n: usize) -> (r: Option<(usize, usize)>)
    ensures
        match nth_word(s@, n as nat) {
            Some(w) => match r {
                Some((a, b)) => a <= b <= s@.len() && s@.subrange(a as int, b as int) == w,
                None => false,
            },
            None => r is None,
        },
{
    let mut i: usize = 0;
    let mut count: usize = 0;
    while i < s.len()
        invariant
            i <= s@.len(),
            count <= n,
            count == words_before(s@, i as int),
            forall|a: int| 0 <= a < i && word_start(s@, a) ==> words_before(s@, a) < n,
        decreases s@.len() - i,
    {
        let starts = !is_ascii_space_char(s[i]) && (i == 0 || is_ascii_space_char(s[i - 1]));
        assert(starts == word_start(s@, i as int));
        if starts {
            if count == n {
                let mut j = i;
                while j < s.len() && !is_ascii_space_char(s[j])
                    invariant
                        i <= j <= s@.len(),
                        word_end(s@, i as int) == word_end(s@, j as int),
                    decreases s@.len() - j,
                {
                    j = j + 1;
                }
                proof {
                    assert(word_start(s@, i as int) && words_before(s@, i as int) == n);
                    let a = choose|a: int| word_start(s@, a) && words_before(s@, a) == n;
                    if a > i {
                        lemma_words_after_start(s@, i as int, a);
                    }
                    assert(a == i);
                }
                return Some((i, j));
            }
            count = count + 1;
        }
        i = i + 1;
    }
    assert(!exists|a: int| word_start(s@, a) && words_before(s@, a) == n);
    None
}

/// Reads `field` from the first line of a process's `stat` record.
pub fn proc_stat_field(stat_line: &str, field: ProcStatField) -> (r: Option<u32>)
    ensures
        stat_field_spec(stat_line@, field) == match r {
            Some(v) => Some(v as int),
            None => None,
        },
{
    let line = chars_of(stat_line);
    match last_index_in(&line, ')') {
        None => None,
        Some(p) => {
            let n = line.len();
            assert(p < n);
            let mut rest: Vec<char> = Vec::new();
            let mut i = p + 1;
            while i < line.len()
                invariant
                    p < i <= line@.len(),
                    rest@ == line@.subrange(p + 1, i as int),
                decreases line@.len() - i,
            {
                rest.push(line[i]);
                i = i + 1;
                assert(rest@ =~= line@.subrange(p + 1, i as int));
            }
            match nth_word_range(&rest, field.index()) {
                None => None,
                Some((a, b)) => {
                    match parse_unsigned_range(&rest, a, b, u32::MAX as u64) {
                        Some(v) => Some(v as u32),
                        None => None,
                    }
                },
            }
        },
    }
}

/// An entry of the process directory, with what the filters may read of it.
/// A record that could not be read, or that the filter does not need, is
/// `None`: the process may have exited since the directory was listed.
pub struct ProcEntry {
    /// File name of the entry; a process's entry is named by its PID
    pub name: String,
    /// First line of the entry's `stat` record
    pub stat: Option<String>,
    /// User that owns the entry: the process's effective user
    pub owner_uid: Option<u32>,
    /// User that owns the entry's `stat` record: the process's real user
    pub stat_owner_uid: Option<u32>,
}

/// What the backend must read of each entry to apply a filter.
#[derive(Copy, Clone, Debug, PartialEq, Eq)]
pub enum ProcRecord {
    /// The entry's name alone
    NameOnly,
    /// The first line of the entry's `stat` record
    Stat,
    /// The user that owns the entry
    Owner,
    /// The user that owns the entry's `stat` record
    StatOwner,
}

pub open spec fn spec_record_needed(filter: ProcFilter) -> ProcRecord {
    match filter {
        ProcFilter::All => ProcRecord::NameOnly,
        ProcFilter::ByProgramGroup { .. } => ProcRecord::Stat,
        ProcFilter::ByTTY { .. } => ProcRecord::Stat,
        ProcFilter::ByUID { .. } => ProcRecord::Owner,
        ProcFilter::ByRealUID { .. } => ProcRecord::StatOwner,
        ProcFilter::ByParentProcess { .. } => ProcRecord::Stat,
    }
}

/// Which record of each entry `filter` reads.
pub fn record_needed(filter: ProcFilter) -> (r: ProcRecord)
    ensures
        r == spec_record_needed(filter),
{
    match filter {
        ProcFilter::All => ProcRecord::NameOnly,
        ProcFilter::ByProgramGroup { .. } => ProcRecord::Stat,
        ProcFilter::ByTTY { .. } => ProcRecord::Stat,
        ProcFilter::ByUID { .. } => ProcRecord::Owner,
        ProcFilter::ByRealUID { .. } => ProcRecord::StatOwner,
        ProcFilter::ByParentProcess { .. } => ProcRecord::Stat,
    }
}

pub open spec fn stat_matches(stat: Option<String>, field: ProcStatField, value: u32) -> bool {
    match stat {
        Some(line) => stat_field_spec(line@, field) == Some(value as int),
        None => false,
    }
}

/// Whether the process of entry `e` passes `filter`.
pub open spec fn entry_matches(filter: ProcFilter, e: ProcEntry) -> bool {
    match filter {
        ProcFilter::All => true,
        ProcFilter::ByProgramGroup { pgrpid } => stat_matches(e.stat, ProcStatField::Pgrp, pgrpid),
        ProcFilter::ByTTY { tty } => stat_matches(e.stat, ProcStatField::TtyNr, tty),
        ProcFilter::ByUID { uid } => e.owner_uid == Some(uid),
        ProcFilter::ByRealUID { ruid } => e.stat_owner_uid == Some(ruid),
        ProcFilter::ByParentProcess { ppid } => stat_matches(e.stat, ProcStatField::Ppid, ppid),
    }
}

/// The PID that an entry's name writes; other entries are no process.
pub open spec fn entry_pid(e: ProcEntry) -> Option<int> {
    parse_unsigned(e.name@, u32::MAX as int)
}

/// The PIDs of the process entries that pass `filter`, in directory order.
pub open spec fn selected_pids(filter: ProcFilter, entries: Seq<ProcEntry>) -> Seq<u32>
    decreases entries.len(),
{
    if entries.len() == 0 {
        Seq::empty()
    } else {
        let rest = selected_pids(filter, entries.drop_last());
        let e = entries.last();
        match entry_pid(e) {
            Some(p) => if entry_matches(filter, e) {
                rest.push(p as u32)
            } else {
                rest
            },
            None => rest,
        }
    }
}

fn stat_field_is(stat: &Option<String>, field: ProcStatField, value: u32) -> (r: bool)
    ensures
        r == stat_matches(*stat, field, value),
{
    match stat {
        Some(line) => match proc_stat_field(line.as_str(), field) {
            Some(v) => v == value,
            None => false,
        },
        None => false,
    }
}

fn passes(filter: ProcFilter, e: &ProcEntry) -> (r: bool)
    ensures
        r == entry_matches(filter, *e),
{
    match filter {
        ProcFilter::All => true,
        ProcFilter::ByProgramGroup { pgrpid } => stat_field_is(&e.stat, ProcStatField::Pgrp, pgrpid),
        ProcFilter::ByTTY { tty } => stat_field_is(&e.stat, ProcStatField::TtyNr, tty),
        ProcFilter::ByUID { uid } => match e.owner_uid {
            Some(owner) => owner == uid,
            None => false,
        },
        ProcFilter::ByRealUID { ruid } => match e.stat_owner_uid {
            Some(owner) => owner == ruid,
            None => false,
        },
        ProcFilter::ByParentProcess { ppid } => stat_field_is(&e.stat, ProcStatField::Ppid, ppid),
    }
}

/// The PID that an entry's name writes, if it is a process entry.
pub fn entry_pid_of(e: &ProcEntry) -> (r: Option<u32>)
    ensures
        entry_pid(*e) == match r {
            Some(p) => Some(p as int),
            None => None,
        },
{
    let name = chars_of(e.name.as_str());
    assert(name@.subrange(0, name@.len() as int) =~= name@);
    match parse_unsigned_range(&name, 0, name.len(), u32::MAX as u64) {
        Some(v) => Some(v as u32),
        None => None,
    }
}

/// Selects, in order, the PIDs of the process entries that pass `filter`.
/// Entries whose names are not PIDs are skipped, and so are those whose
/// needed record is missing.
pub fn select_pids(filter: ProcFilter, entries: &Vec<ProcEntry>) -> (r: Vec<u32>)
    ensures
        r@ == selected_pids(filter, entries@),
{
    let mut r: Vec<u32> = Vec::new();
    let mut k: usize = 0;
    while k < entries.len()
        invariant
            k <= entries@.len(),
            r@ == selected_pids(filter, entries@.subrange(0, k as int)),
        decreases entries@.len() - k,
    {
        let ghost p = entries@.subrange(0, k + 1);
        assert(p.drop_last() =~= entries@.subrange(0, k as int));
        assert(p.last() == entries@[k as int]);
        let e = &entries[k];
        match entry_pid_of(e) {
            Some(pid) => {
                if passes(filter, e) {
                    r.push(pid);
                }
            },
            None => {},
        }
        k = k + 1;
    }
    assert(entries@.subrange(0, k as int) =~= entries@);
    r
}

/// Every PID that the selection keeps names an entry of the directory that
/// passes the filter.
pub proof fn lemma_selected_pass(filter: ProcFilter, entries: Seq<ProcEntry>)
    ensures
        forall|i: int|
            0 <= i < selected_pids(filter, entries).len() ==> exists|k: int|
                0 <= k < entries.len() && entry_pid(#[trigger] entries[k]) == Some(
                    #[trigger] selected_pids(filter, entries)[i] as int,
                ) && entry_matches(filter, entries[k]),
    decreases entries.len(),
{
    if entries.len() > 0 {
        let rest = entries.drop_last();
        lemma_selected_pass(filter, rest);
        let sel = selected_pids(filter, entries);
        let sr = selected_pids(filter, rest);
        assert forall|i: int| 0 <= i < sel.len() implies exists|k: int|
            0 <= k < entries.len() && entry_pid(#[trigger] entries[k]) == Some(#[trigger] sel[i] as int)
                && entry_matches(filter, entries[k]) by {
            if i < sr.len() {
                assert(sel[i] == sr[i]);
                let k = choose|k: int|
                    0 <= k < rest.len() && entry_pid(#[trigger] rest[k]) == Some(sr[i] as int)
                        && entry_matches(filter, rest[k]);
                assert(entries[k] == rest[k]);
            } else {
                let k = entries.len() - 1;
                assert(entries[k] == entries.last());
                lemma_parse_unsigned_bounds(entries.last().name@, u32::MAX as int);
            }
        }
    }
}

/// Listing the children of `ppid` keeps only processes whose `stat` record
/// names `ppid` as their parent.
pub proof fn lemma_parent_filter_consistent(ppid: u32, entries: Seq<ProcEntry>)
    ensures
        forall|i: int|
            0 <= i < selected_pids(ProcFilter::ByParentProcess { ppid }, entries).len() ==> exists|
                k: int,
            |
                0 <= k < entries.len() && entry_pid(#[trigger] entries[k]) == Some(
                    #[trigger] selected_pids(ProcFilter::ByParentProcess { ppid }, entries)[i] as int,
                ) && stat_matches(entries[k].stat, ProcStatField::Ppid, ppid),
{
    lemma_selected_pass(ProcFilter::ByParentProcess { ppid }, entries);
}

} // verus!
