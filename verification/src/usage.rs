//! Usage samples and the countdown text shown for budget resets.

use vstd::prelude::*;
use crate::text::{
    chars_of, decimal, decimal_writes_the_number, digits_value, push_char, push_decimal, trim, trimmed_ends_are_not_white_space,
    trimmed_slice, white_space,
};

verus! {

/// One record of the usage history. The budget fractions (`session`, `weekly`)
/// are carried as they were read; every decision made here rests on the
/// timestamps alone.
#[derive(Clone, Copy, Debug)]
pub struct UsageSample<F> {
    /// Fraction of the 5-hour session budget used.
    pub session: F,
    /// Fraction of the 7-day weekly budget used.
    pub weekly: F,
    /// Unix time at which the session budget resets.
    pub session_reset: i64,
    /// Unix time at which the weekly budget resets.
    pub weekly_reset: i64,
    /// Unix time at which the record was written.
    pub ts: i64,
}

impl<F> UsageSample<F> {
    /// The record is stale at `now` when it is older than `stale_after` seconds;
    /// exactly `stale_after` seconds old is still fresh.
    pub open spec fn stale_at(&self, now: int, stale_after: u64) -> bool {
        now - self.ts > stale_after
    }

    pub fn is_stale(&self, now: i64, stale_after: u64) -> (stale: bool)
        requires
            i64::MIN <= now - self.ts <= i64::MAX,
        ensures
            stale == self.stale_at(now as int, stale_after),
    {
        let age = now - self.ts;
        if stale_after > i64::MAX as u64 {
            false
        } else {
            age > stale_after as i64
        }
    }
}

/// A record turns stale one second after it is exactly `stale_after` seconds
/// old, and a longer limit never makes a record stale that a shorter one
/// leaves fresh.
pub proof fn staleness_boundary_and_limits<F>(sample: UsageSample<F>, stale_after: u64, longer: u64, now: int)
    requires
        stale_after <= longer,
    ensures
        !sample.stale_at(sample.ts + stale_after, stale_after),
        sample.stale_at(sample.ts + stale_after + 1, stale_after),
        now <= sample.ts ==> !sample.stale_at(now, stale_after),
        sample.stale_at(now, longer) ==> sample.stale_at(now, stale_after),
{
}

/// Once stale, a record stays stale as time moves on.
pub proof fn staleness_persists<F>(sample: UsageSample<F>, now: int, later: int, stale_after: u64)
    requires
        now <= later,
        sample.stale_at(now, stale_after),
    ensures
        sample.stale_at(later, stale_after),
{
}

/// Seconds in a minute.
pub const MINUTE: i64 = 60;

/// Seconds in an hour.
pub const HOUR: i64 = 3_600;

/// Seconds in a day.
pub const DAY: i64 = 86_400;

/// Human countdown for `secs` seconds remaining: `"now"` when nothing is left,
/// otherwise the two most significant units among days, hours and minutes
/// (`"4d 3h"`, `"2h 14m"`), or just the minutes below an hour (`"45m"`).
pub open spec fn countdown_text(secs: int) -> Seq<char> {
    let s = if secs < 0 { 0 } else { secs };
    let days = s / DAY as int;
    let hours = (s % DAY as int) / HOUR as int;
    let mins = (s % HOUR as int) / MINUTE as int;
    if s == 0 {
        seq!['n', 'o', 'w']
    } else if days > 0 {
        decimal(days as nat) + seq!['d', ' '] + decimal(hours as nat) + seq!['h']
    } else if hours > 0 {
        decimal(hours as nat) + seq!['h', ' '] + decimal(mins as nat) + seq!['m']
    } else {
        decimal(mins as nat) + seq!['m']
    }
}

/// The countdown says `"now"` exactly when no time is left; otherwise it ends
/// with a unit, minutes or hours.
pub proof fn countdown_now_exactly_when_due(secs: int)
    ensures
        (countdown_text(secs) == seq!['n', 'o', 'w']) <==> secs <= 0,
        secs > 0 ==> countdown_text(secs).last() == 'm' || countdown_text(secs).last() == 'h',
{
    if secs > 0 {
        let t = countdown_text(secs);
        assert(t.last() == 'm' || t.last() == 'h');
        if t == seq!['n', 'o', 'w'] {
            assert(seq!['n', 'o', 'w'].last() == 'w');
        }
    }
}

/// The countdown writes the whole units left: below an hour the minutes; below
/// a day the hours, then the minutes past the last whole hour; from a day on
/// the days, then the hours past the last whole day.
pub proof fn countdown_counts_whole_units(secs: int)
    requires
        secs > 0,
    ensures
        secs < HOUR ==> {
            let t = countdown_text(secs);
            &&& t.last() == 'm'
            &&& digits_value(t.drop_last()) == secs / MINUTE as int
        },
        HOUR <= secs < DAY ==> exists|h: Seq<char>, m: Seq<char>|
            countdown_text(secs) == h + seq!['h', ' '] + m + seq!['m'] && digits_value(h) == secs
                / HOUR as int && digits_value(m) == (secs % HOUR as int) / MINUTE as int,
        secs >= DAY ==> exists|d: Seq<char>, h: Seq<char>|
            countdown_text(secs) == d + seq!['d', ' '] + h + seq!['h'] && digits_value(d) == secs
                / DAY as int && digits_value(h) == (secs % DAY as int) / HOUR as int,
{
    let days = secs / DAY as int;
    let hours = (secs % DAY as int) / HOUR as int;
    let mins = (secs % HOUR as int) / MINUTE as int;
    decimal_writes_the_number(days as nat);
    decimal_writes_the_number(hours as nat);
    decimal_writes_the_number(mins as nat);
    if secs < HOUR {
        assert(countdown_text(secs).drop_last() =~= decimal(mins as nat));
        assert(mins == secs / MINUTE as int);
    } else if secs < DAY {
        assert(hours == secs / HOUR as int);
        assert(countdown_text(secs) == decimal(hours as nat) + seq!['h', ' '] + decimal(mins as nat) + seq!['m']);
    } else {
        assert(countdown_text(secs) == decimal(days as nat) + seq!['d', ' '] + decimal(hours as nat) + seq!['h']);
    }
}

/// Human countdown: "now", "45m", "2h 14m", "4d 3h".
pub fn format_countdown(secs_remaining: i64) -> (text: String)
    ensures
        text@ == countdown_text(secs_remaining as int),
{
    let s: i64 = if secs_remaining < 0 { 0 } else { secs_remaining };
    let mut out = String::new();
    if s == 0 {
        push_char(&mut out, 'n');
        push_char(&mut out, 'o');
        push_char(&mut out, 'w');
        assert(out@ =~= countdown_text(secs_remaining as int));
        return out;
    }
    let days = s / DAY;
    let hours = (s % DAY) / HOUR;
    let mins = (s % HOUR) / MINUTE;
    if days > 0 {
        push_decimal(&mut out, days as u64);
        push_char(&mut out, 'd');
        push_char(&mut out, ' ');
        push_decimal(&mut out, hours as u64);
        push_char(&mut out, 'h');
    } else if hours > 0 {
        push_decimal(&mut out, hours as u64);
        push_char(&mut out, 'h');
        push_char(&mut out, ' ');
        push_decimal(&mut out, mins as u64);
        push_char(&mut out, 'm');
    } else {
        push_decimal(&mut out, mins as u64);
        push_char(&mut out, 'm');
    }
    assert(out@ =~= countdown_text(secs_remaining as int));
    out
}

/// The segments of `s` between newline characters, in order. A text with `k`
/// newlines has `k + 1` segments; the newlines themselves belong to none.
pub open spec fn split_lines(s: Seq<char>) -> Seq<Seq<char>>
    decreases s.len(),
{
    if s.len() == 0 {
        seq![Seq::<char>::empty()]
    } else {
        let before = split_lines(s.drop_last());
        if s.last() == '\n' {
            before.push(Seq::<char>::empty())
        } else {
            before.update(before.len() - 1, before.last().push(s.last()))
        }
    }
}

/// The trimmed segments that are not blank, the last segment first.
pub open spec fn latest_first(segments: Seq<Seq<char>>) -> Seq<Seq<char>>
    decreases segments.len(),
{
    if segments.len() == 0 {
        Seq::empty()
    } else {
        let line = trim(segments.last());
        let older = latest_first(segments.drop_last());
        if line.len() == 0 {
            older
        } else {
            seq![line] + older
        }
    }
}

/// The lines of a usage history, trimmed, blank ones left out, newest first:
/// the order in which they are tried when looking for the latest valid record.
pub open spec fn history_lines(content: Seq<char>) -> Seq<Seq<char>> {
    latest_first(split_lines(content))
}

/// A text always has at least one segment.
pub proof fn split_lines_not_empty(s: Seq<char>)
    ensures
        split_lines(s).len() >= 1,
    decreases s.len(),
{
    if s.len() > 0 {
        split_lines_not_empty(s.drop_last());
    }
}

/// Blank lines are never offered as records: every history line is non-empty
/// and neither starts nor ends with white space.
pub proof fn history_lines_are_trimmed(content: Seq<char>)
    ensures
        forall|k: int|
            0 <= k < history_lines(content).len() ==> {
                let line = #[trigger] history_lines(content)[k];
                &&& line.len() > 0
                &&& !white_space(line[0])
                &&& !white_space(line.last())
            },
{
    latest_first_trimmed(split_lines(content));
}

proof fn latest_first_trimmed(segments: Seq<Seq<char>>)
    ensures
        forall|k: int|
            0 <= k < latest_first(segments).len() ==> {
                let line = #[trigger] latest_first(segments)[k];
                &&& line.len() > 0
                &&& !white_space(line[0])
                &&& !white_space(line.last())
            },
    decreases segments.len(),
{
    if segments.len() > 0 {
        latest_first_trimmed(segments.drop_last());
        trimmed_ends_are_not_white_space(segments.last());
        let line = trim(segments.last());
        let older = latest_first(segments.drop_last());
        if line.len() > 0 {
            assert forall|k: int| 0 < k < latest_first(segments).len() implies #[trigger] latest_first(segments)[k] == older[k - 1] by {
            }
        }
    }
}

/// Joins segments back into one text, a newline between each two.
pub open spec fn join_lines(segments: Seq<Seq<char>>) -> Seq<char>
    decreases segments.len(),
{
    if segments.len() <= 1 {
        if segments.len() == 0 {
            Seq::empty()
        } else {
            segments[0]
        }
    } else {
        join_lines(segments.drop_last()) + seq!['\n'] + segments.last()
    }
}

/// Splitting into lines loses nothing and cuts at every newline: no segment
/// holds a newline, and joining the segments with newlines gives the text back.
pub proof fn split_lines_rejoin(s: Seq<char>)
    ensures
        split_lines(s).len() >= 1,
        forall|k: int| 0 <= k < split_lines(s).len() ==> !(#[trigger] split_lines(s)[k]).contains('\n'),
        join_lines(split_lines(s)) == s,
    decreases s.len(),
{
    if s.len() > 0 {
        let t = s.drop_last();
        split_lines_rejoin(t);
        let p = split_lines(t);
        let c = s.last();
        assert(t.push(c) =~= s);
        if c == '\n' {
            let q = p.push(Seq::<char>::empty());
            assert(q.drop_last() =~= p);
            assert(join_lines(q) =~= join_lines(p) + seq!['\n'] + Seq::<char>::empty());
            assert(join_lines(q) =~= s);
            assert forall|k: int| 0 <= k < q.len() implies !(#[trigger] q[k]).contains('\n') by {
                if k < p.len() {
                    assert(q[k] == p[k]);
                }
            }
        } else {
            let q = p.update(p.len() - 1, p.last().push(c));
            assert forall|k: int| 0 <= k < q.len() implies !(#[trigger] q[k]).contains('\n') by {
                if k < p.len() - 1 {
                    assert(q[k] == p[k]);
                } else {
                    assert(q[k] == p.last().push(c));
                    if q[k].contains('\n') {
                        let w = choose|w: int| 0 <= w < q[k].len() && q[k][w] == '\n';
                        if w < p.last().len() {
                            assert(p.last()[w] == '\n');
                            assert(p[p.len() - 1].contains('\n'));
                        }
                    }
                }
            }
            if p.len() == 1 {
                assert(join_lines(p) == p[0]);
                assert(join_lines(q) == q[0]);
                assert(join_lines(q) =~= s);
            } else {
                assert(q.drop_last() =~= p.drop_last());
                assert(join_lines(q) == join_lines(p.drop_last()) + seq!['\n'] + p.last().push(c));
                assert(join_lines(p) == join_lines(p.drop_last()) + seq!['\n'] + p.last());
                assert(join_lines(q) =~= join_lines(p).push(c));
            }
        }
    }
}

/// The candidates are exactly the trimmed segments whose trimmed text is not
/// blank, newest first: none is dropped for any other reason (whatever its
/// length) and none is added.
pub proof fn history_lines_are_all_nonblank_lines(content: Seq<char>)
    ensures
        history_lines(content) == split_lines(content).map_values(|seg: Seq<char>| trim(seg)).filter(
            |line: Seq<char>| line.len() > 0,
        ).reverse(),
{
    latest_first_is_filtered_reverse(split_lines(content));
}

proof fn latest_first_is_filtered_reverse(segments: Seq<Seq<char>>)
    ensures
        latest_first(segments) == segments.map_values(|seg: Seq<char>| trim(seg)).filter(
            |line: Seq<char>| line.len() > 0,
        ).reverse(),
    decreases segments.len(),
{
    reveal(Seq::filter);
    let tf = |seg: Seq<char>| trim(seg);
    let nb = |line: Seq<char>| line.len() > 0;
    let m = segments.map_values(tf);
    if segments.len() == 0 {
        assert(m.filter(nb) =~= Seq::<Seq<char>>::empty());
        assert(m.filter(nb).reverse() =~= Seq::<Seq<char>>::empty());
    } else {
        latest_first_is_filtered_reverse(segments.drop_last());
        let older = segments.drop_last().map_values(tf);
        assert(m.drop_last() =~= older);
        assert(m.last() == trim(segments.last()));
        let f = older.filter(nb);
        if trim(segments.last()).len() > 0 {
            assert(m.filter(nb) == f.push(m.last()));
            assert(f.push(m.last()).reverse() =~= seq![m.last()] + f.reverse());
        } else {
            assert(m.filter(nb) == f);
        }
    }
}

/// The record of the first line that `decode` accepts, trying `lines` in
/// order; `None` when it accepts none. Given the lines newest first, this is
/// the latest valid record: undecodable lines are passed over.
pub fn first_decoded<T, D: Fn(&String) -> Option<T>>(lines: &Vec<String>, decode: D) -> (found: Option<T>)
    requires
        forall|i: int| 0 <= i < lines@.len() ==> decode.requires((&lines@[i],)),
    ensures
        match found {
            Some(record) => exists|i: int|
                0 <= i < lines@.len() && decode.ensures((&lines@[i],), Some(record)) && forall|j: int|
                    0 <= j < i ==> decode.ensures((#[trigger] &lines@[j],), None),
            None => forall|j: int| 0 <= j < lines@.len() ==> decode.ensures((#[trigger] &lines@[j],), None),
        },
{
    let mut i: usize = 0;
    while i < lines.len()
        invariant
            i <= lines@.len(),
            forall|k: int| 0 <= k < lines@.len() ==> decode.requires((&lines@[k],)),
            forall|j: int| 0 <= j < i ==> decode.ensures((#[trigger] &lines@[j],), None),
        decreases lines@.len() - i,
    {
        let decoded = decode(&lines[i]);
        match decoded {
            Some(record) => {
                return Some(record);
            },
            None => {},
        }
        i = i + 1;
    }
    None
}

/// The trimmed, non-blank lines of `content`, newest (last) first.
pub fn latest_lines(content: &str) -> (lines: Vec<String>)
    ensures
        lines.deep_view() == history_lines(content@),
{
    let chars = chars_of(content);
    let n = chars.len();
    let mut lines: Vec<String> = Vec::new();
    let ghost mut found: Seq<Seq<char>> = Seq::empty();
    let mut start: usize = 0;
    let mut i: usize = 0;
    proof {
        assert(chars@.take(0) =~= Seq::<char>::empty());
        assert(chars@.subrange(0, 0) =~= Seq::<char>::empty());
    }
    while i < n
        invariant
            n == chars@.len(),
            start <= i <= n,
            split_lines(chars@.take(i as int)).len() >= 1,
            split_lines(chars@.take(i as int)).last() == chars@.subrange(start as int, i as int),
            found == latest_first(split_lines(chars@.take(i as int)).drop_last()),
            lines@.len() == found.len(),
            forall|k: int| 0 <= k < found.len() ==> #[trigger] lines@[k]@ == found[k],
        decreases n - i,
    {
        let ghost before = split_lines(chars@.take(i as int));
        proof {
            split_lines_not_empty(chars@.take(i + 1));
            assert(chars@.take(i + 1).drop_last() =~= chars@.take(i as int));
            assert(chars@.take(i + 1).last() == chars@[i as int]);
        }
        if chars[i] == '\n' {
            let line = trimmed_slice(&chars, start, i);
            proof {
                let after = split_lines(chars@.take(i + 1));
                assert(after == before.push(Seq::<char>::empty()));
                assert(after.drop_last() =~= before);
            }
            if !line.as_str().is_empty() {
                proof {
                    found = seq![line@] + found;
                }
                lines.insert(0, line);
            }
            start = i + 1;
            proof {
                assert(chars@.subrange(start as int, i + 1) =~= Seq::<char>::empty());
            }
        } else {
            proof {
                let after = split_lines(chars@.take(i + 1));
                assert(after == before.update(before.len() - 1, before.last().push(chars@[i as int])));
                assert(after.drop_last() =~= before.drop_last());
                assert(after.last() =~= chars@.subrange(start as int, i + 1));
            }
        }
        i = i + 1;
    }
    let last = trimmed_slice(&chars, start, n);
    proof {
        assert(chars@.take(n as int) =~= chars@);
        assert(content@ == chars@);
    }
    if !last.as_str().is_empty() {
        proof {
            found = seq![last@] + found;
        }
        lines.insert(0, last);
    }
    proof {
        assert(lines.deep_view() =~= found);
    }
    lines
}

} // verus!
