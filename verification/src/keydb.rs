//! The public-key log: tab-separated entries mapping a process id to an
//! observed public key, with parsing and latest-entry selection.  Reading
//! and rewriting the log file itself is the caller's business.
use vstd::prelude::*;
use vstd::string::StringExecFns;

verus! {

/// One log line: process id, window id, public key, timestamp.
#[derive(Debug)]
pub struct DbEntry {
    pub pid: u32,
    pub window_id: String,
    pub pubkey: String,
    pub timestamp: u64,
}

/// First index at or after `i` holding a tab, or the length.
pub open spec fn spec_find_tab(s: Seq<char>, i: int) -> int
    decreases s.len() - i,
{
    if 0 <= i < s.len() && s[i] != '\t' {
        spec_find_tab(s, i + 1)
    } else {
        i
    }
}

/// The value of an all-digit run as a timestamp, or zero when it does not
/// parse or does not fit.
pub open spec fn spec_parse_u64_or_zero(t: Seq<char>) -> u64 {
    if t.len() > 0 && crate::json::spec_all_digits(t) && crate::json::spec_digits_val(t)
        < 0x10000000000000000 {
        crate::json::spec_digits_val(t) as u64
    } else {
        0
    }
}

/// What parsing one log line yields: the line must have at least three
/// tab-separated fields, the first a process id; a fourth field is the
/// timestamp, zero when absent or unparseable.
pub open spec fn spec_parse_db_entry(s: Seq<char>) -> Option<(u32, Seq<char>, Seq<char>, u64)> {
    let t1 = spec_find_tab(s, 0);
    let t2 = spec_find_tab(s, t1 + 1);
    if t1 >= s.len() || t2 >= s.len() {
        None
    } else {
        match crate::client::spec_parse_u32(s.take(t1)) {
            None => None,
            Some(pid) => {
                let t3 = spec_find_tab(s, t2 + 1);
                let window_id = s.subrange(t1 + 1, t2);
                let pubkey = s.subrange(t2 + 1, t3);
                let ts = if t3 >= s.len() {
                    0u64
                } else {
                    spec_parse_u64_or_zero(s.subrange(t3 + 1, spec_find_tab(s, t3 + 1)))
                };
                Some((pid, window_id, pubkey, ts))
            },
        }
    }
}

/// Finds the first tab at or after `i`.
fn find_tab(s: &Vec<char>, i: usize) -> (r: usize)
    requires
        i <= s@.len(),
    ensures
        r == spec_find_tab(s@, i as int),
        i <= r <= s@.len(),
    decreases s@.len() - i,
{
    let mut j = i;
    while j < s.len() && s[j] != '\t'
        invariant
            i <= j <= s@.len(),
            spec_find_tab(s@, i as int) == spec_find_tab(s@, j as int),
        decreases s@.len() - j,
    {
        j = j + 1;
    }
    j
}

/// Copies a character range into a string.
fn range_string(s: &Vec<char>, from: usize, to: usize) -> (r: String)
    requires
        from <= to <= s@.len(),
    ensures
        r@ == s@.subrange(from as int, to as int),
{
    let mut out = String::new();
    let mut i = from;
    while i < to
        invariant
            from <= i <= to,
            to <= s@.len(),
            out@ == s@.subrange(from as int, i as int),
        decreases to - i,
    {
        crate::json::string_push_char(&mut out, s[i]);
        i = i + 1;
        assert(out@ =~= s@.subrange(from as int, i as int));
    }
    out
}

/// Parses an all-digit run; out-of-range or malformed text yields zero.
#[verifier::loop_isolation(false)]
fn parse_u64_or_zero(s: &Vec<char>, from: usize, to: usize) -> (r: u64)
    requires
        from <= to <= s@.len(),
    ensures
        r == spec_parse_u64_or_zero(s@.subrange(from as int, to as int)),
{
    let ghost t = s@.subrange(from as int, to as int);
    if from == to {
        return 0;
    }
    let mut val: u64 = 0;
    let mut i = from;
    while i < to
        invariant
            from <= i <= to,
            forall|k: int| 0 <= k < i - from ==> crate::json::is_digit(t[k]),
            val as int == crate::json::spec_digits_val(t.take(i - from)),
            (val as int) < 0x10000000000000000,
        decreases to - i,
    {
        let c = s[i];
        let u = c as u32;
        if !(48 <= u && u <= 57) {
            proof {
                assert(t[i - from] == s@[i as int]);
                assert(!crate::json::spec_all_digits(t));
            }
            return 0;
        }
        let d = (u - 48) as u64;
        proof {
            crate::json::lemma_digits_val_step(t, i - from);
            crate::json::lemma_mul10_cmp(val as int, d as int, 0xFFFFFFFFFFFFFFFF);
        }
        if val > (0xFFFFFFFFFFFFFFFFu64 - d) / 10 {
            proof {
                assert(t[i - from] == s@[i as int]);
                assert(crate::json::spec_digits_val(t.take(i - from + 1)) >= 0x10000000000000000);
                assert(crate::json::spec_all_digits(t.take(i - from + 1)));
                crate::json::lemma_digits_val_mono(t.take(i - from + 1), 0);
                if crate::json::spec_all_digits(t) {
                    crate::json::lemma_digits_val_mono(t, i - from + 1);
                }
            }
            return 0;
        }
        proof {
            assert(t[i - from] == s@[i as int]);
        }
        val = val * 10 + d;
        i = i + 1;
    }
    proof {
        assert(t.take(to - from) =~= t);
        assert(crate::json::spec_all_digits(t));
    }
    val
}

/// Parses an all-digit run as a process id.
#[verifier::loop_isolation(false)]
fn parse_u32_range(s: &Vec<char>, from: usize, to: usize) -> (r: Option<u32>)
    requires
        from <= to <= s@.len(),
    ensures
        r == crate::client::spec_parse_u32(s@.subrange(from as int, to as int)),
{
    let ghost t = s@.subrange(from as int, to as int);
    if from == to {
        return None;
    }
    let mut val: u64 = 0;
    let mut i = from;
    while i < to
        invariant
            from <= i <= to,
            forall|k: int| 0 <= k < i - from ==> crate::json::is_digit(t[k]),
            val as int == crate::json::spec_digits_val(t.take(i - from)),
            val < 0x100000000,
        decreases to - i,
    {
        let c = s[i];
        let u = c as u32;
        if !(48 <= u && u <= 57) {
            proof {
                assert(t[i - from] == s@[i as int]);
                assert(!crate::json::spec_all_digits(t));
            }
            return None;
        }
        let d = (u - 48) as u64;
        proof {
            crate::json::lemma_digits_val_step(t, i - from);
            crate::json::lemma_mul10_cmp(val as int, d as int, 0xFFFFFFFF);
        }
        if val > (0xFFFFFFFFu64 - d) / 10 {
            proof {
                assert(t[i - from] == s@[i as int]);
                assert(crate::json::spec_digits_val(t.take(i - from + 1)) >= 0x100000000);
                assert(crate::json::spec_all_digits(t.take(i - from + 1)));
                crate::json::lemma_digits_val_mono(t.take(i - from + 1), 0);
                if crate::json::spec_all_digits(t) {
                    crate::json::lemma_digits_val_mono(t, i - from + 1);
                }
            }
            return None;
        }
        proof {
            assert(t[i - from] == s@[i as int]);
        }
        val = val * 10 + d;
        i = i + 1;
    }
    proof {
        assert(t.take(to - from) =~= t);
        assert(crate::json::spec_all_digits(t));
    }
    Some(val as u32)
}

/// Parses one tab-separated log line into an entry, if it has at least a
/// process id, a window id and a public key field.
#[verifier::loop_isolation(false)]
pub fn parse_db_entry(line: &str) -> (r: Option<DbEntry>)
    ensures
        r matches Some(e) ==> spec_parse_db_entry(line@) == Some(
            (e.pid, e.window_id@, e.pubkey@, e.timestamp),
        ),
        r is None ==> spec_parse_db_entry(line@) is None,
{
    let s = crate::json::str_chars(line);
    let n = s.len();
    let t1 = find_tab(&s, 0);
    if t1 >= n {
        return None;
    }
    let t2 = find_tab(&s, t1 + 1);
    if t2 >= n {
        return None;
    }
    let pid = match parse_u32_range(&s, 0, t1) {
        Some(p) => p,
        None => {
            proof {
                assert(s@.subrange(0, t1 as int) =~= s@.take(t1 as int));
            }
            return None;
        },
    };
    proof {
        assert(s@.subrange(0, t1 as int) =~= s@.take(t1 as int));
    }
    let t3 = find_tab(&s, t2 + 1);
    let window_id = range_string(&s, t1 + 1, t2);
    let pubkey = range_string(&s, t2 + 1, t3);
    let timestamp: u64 = if t3 >= n {
        0
    } else {
        let t4 = find_tab(&s, t3 + 1);
        parse_u64_or_zero(&s, t3 + 1, t4)
    };
    Some(DbEntry { pid, window_id, pubkey, timestamp })
}

impl DbEntry {
    /// The tab-separated text of this entry, as the log stores it.
    pub fn to_line(&self) -> (r: String)
        ensures
            r@ == crate::json::spec_digits(self.pid as int) + seq!['\t'] + self.window_id@ + seq![
                '\t',
            ] + self.pubkey@ + seq!['\t'] + crate::json::spec_digits(self.timestamp as int),
    {
        let mut out = crate::json::u64_to_string(self.pid as u64);
        crate::json::string_push_char(&mut out, '\t');
        out.append(self.window_id.as_str());
        crate::json::string_push_char(&mut out, '\t');
        out.append(self.pubkey.as_str());
        crate::json::string_push_char(&mut out, '\t');
        let ts = crate::json::u64_to_string(self.timestamp);
        out.append(ts.as_str());
        proof {
            assert(out@ =~= crate::json::spec_digits(self.pid as int) + seq!['\t']
                + self.window_id@ + seq!['\t'] + self.pubkey@ + seq!['\t']
                + crate::json::spec_digits(self.timestamp as int));
        }
        out
    }
}

/// The public key of the newest entry for a process id: the entry with
/// the greatest timestamp among those whose id matches, if any.
pub fn latest_pubkey<'a>(entries: &'a Vec<DbEntry>, pid: u32) -> (r: Option<&'a String>)
    ensures
        r is Some ==> exists|i: int|
            0 <= i < entries@.len() && entries@[i].pid == pid && r->0@ == entries@[i].pubkey@
                && (forall|j: int|
                0 <= j < entries@.len() && entries@[j].pid == pid ==> entries@[j].timestamp
                    <= entries@[i].timestamp),
        r is None ==> forall|i: int| 0 <= i < entries@.len() ==> entries@[i].pid != pid,
{
    let mut best: Option<usize> = None;
    let mut i: usize = 0;
    while i < entries.len()
        invariant
            i <= entries@.len(),
            best matches Some(b) ==> b < i && entries@[b as int].pid == pid && (forall|j: int|
                0 <= j < i && entries@[j].pid == pid ==> entries@[j].timestamp
                    <= entries@[b as int].timestamp),
            best is None ==> forall|j: int| 0 <= j < i ==> entries@[j].pid != pid,
        decreases entries@.len() - i,
    {
        if entries[i].pid == pid {
            let take_it = match best {
                None => true,
                Some(b) => entries[b].timestamp <= entries[i].timestamp,
            };
            if take_it {
                best = Some(i);
            }
        }
        i = i + 1;
    }
    match best {
        Some(b) => Some(&entries[b].pubkey),
        None => None,
    }
}

} // verus!
