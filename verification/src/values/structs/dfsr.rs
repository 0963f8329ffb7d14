//! The schedule of the replication of files.

use crate::text::{
    decimal, hex_byte_upper, opt, opt_str, push_decimal, push_hex_byte_upper, texts,
};
use vstd::prelude::*;
use vstd::string::StringExecFns;

verus! {

/// The heads of the first `k` columns: each hour of the day between two
/// corners, in two places.
pub open spec fn hours_upto(k: int) -> Seq<char>
    decreases k,
{
    if k <= 0 {
        "  |"@
    } else {
        hours_upto(k - 1) + "\u{250C}"@ + opt(k - 1 < 10, " "@) + decimal((k - 1) as nat)
            + "\u{2510}"@
    }
}

/// The second line of the head up to column `k`: four bars of growing
/// height for the quarters of each hour.
pub open spec fn quarters_upto(k: int) -> Seq<char>
    decreases k,
{
    if k <= 0 {
        "  |"@
    } else {
        quarters_upto(k - 1) + "\u{2582}\u{2584}\u{2586}\u{2588}"@
    }
}

/// The two letters that stand for day `d` of the week, which starts on
/// Sunday.
pub open spec fn weekday(d: int) -> Seq<char> {
    if d == 0 {
        "Su"@
    } else if d == 1 {
        "Mo"@
    } else if d == 2 {
        "Tu"@
    } else if d == 3 {
        "We"@
    } else if d == 4 {
        "Th"@
    } else if d == 5 {
        "Fr"@
    } else if d == 6 {
        "Sa"@
    } else {
        "  "@
    }
}

fn weekday_str(d: usize) -> (r: &'static str)
    ensures
        r@ == weekday(d as int),
{
    if d == 0 {
        "Su"
    } else if d == 1 {
        "Mo"
    } else if d == 2 {
        "Tu"
    } else if d == 3 {
        "We"
    } else if d == 4 {
        "Th"
    } else if d == 5 {
        "Fr"
    } else if d == 6 {
        "Sa"
    } else {
        "  "
    }
}

/// The line of day `d` up to its byte `k`: the letters of the day, a bar,
/// and the bytes of the day in upper-case hexadecimal digits.
pub open spec fn day_upto(schedule: Seq<u8>, d: int, k: int) -> Seq<char>
    decreases k,
{
    if k <= 0 {
        weekday(d) + "|"@
    } else {
        day_upto(schedule, d, k - 1) + hex_byte_upper(schedule[48 * d + k - 1])
    }
}

/// Line `i` of the text of a schedule: two lines of head, and a line for
/// each day of the week with the 48 bytes of the day.
pub open spec fn schedule_line(schedule: Seq<u8>, i: int) -> Seq<char> {
    if i == 0 {
        hours_upto(24)
    } else if i == 1 {
        quarters_upto(24)
    } else {
        day_upto(schedule, i - 2, 48)
    }
}

/// The nine lines of the text of a schedule.
pub open spec fn schedule_lines(schedule: Seq<u8>) -> Seq<Seq<char>> {
    Seq::new(9, |i: int| schedule_line(schedule, i))
}

/// The first `k` of the lines `lines`, with a line feed between them.
pub open spec fn joined_upto(lines: Seq<Seq<char>>, k: int) -> Seq<char>
    decreases k,
{
    if k <= 1 {
        lines[0]
    } else {
        joined_upto(lines, k - 1) + "\n"@ + lines[k - 1]
    }
}

/// The text of a schedule of 336 bytes: its nine lines with a line feed
/// between them.
pub open spec fn schedule_text(schedule: Seq<u8>) -> Seq<char> {
    joined_upto(schedule_lines(schedule), 9)
}

/// Renders the lines of a schedule: a grid of seven days by 24 hours
/// under a head of two lines. A schedule has 336 bytes; there are no
/// lines for a buffer of another length.
pub fn dfsr_schedule_lines(schedule: &[u8]) -> (r: Option<Vec<String>>)
    ensures
        r is Some <==> schedule@.len() == 336,
        r matches Some(l) ==> texts(l@) == schedule_lines(schedule@),
{
    if schedule.len() != 336 {
        return None;
    }
    let mut hours: String = "  |".to_owned();
    let mut n: usize = 0;
    while n < 24
        invariant
            n <= 24,
            hours@ == hours_upto(n as int),
        decreases 24 - n,
    {
        hours.append("\u{250C}");
        hours.append(opt_str(n < 10, " "));
        push_decimal(&mut hours, n as u64);
        hours.append("\u{2510}");
        n += 1;
    }
    let mut quarters: String = "  |".to_owned();
    let mut n: usize = 0;
    while n < 24
        invariant
            n <= 24,
            quarters@ == quarters_upto(n as int),
        decreases 24 - n,
    {
        quarters.append("\u{2582}\u{2584}\u{2586}\u{2588}");
        n += 1;
    }
    let mut lines: Vec<String> = Vec::new();
    lines.push(hours);
    lines.push(quarters);
    let mut weekday_index: usize = 0;
    while weekday_index < 7
        invariant
            schedule.len() == 336,
            weekday_index <= 7,
            lines@.len() == weekday_index + 2,
            forall|i: int|
                0 <= i < lines@.len() ==> (#[trigger] lines@[i])@ == schedule_line(schedule@, i),
        decreases 7 - weekday_index,
    {
        let mut line: String = weekday_str(weekday_index).to_owned();
        line.append("|");
        let mut k: usize = 0;
        while k < 48
            invariant
                schedule.len() == 336,
                weekday_index < 7,
                k <= 48,
                line@ == day_upto(schedule@, weekday_index as int, k as int),
            decreases 48 - k,
        {
            push_hex_byte_upper(&mut line, schedule[48 * weekday_index + k]);
            k += 1;
        }
        lines.push(line);
        weekday_index += 1;
    }
    assert(texts(lines@) =~= schedule_lines(schedule@));
    Some(lines)
}

/// Renders a schedule as a grid of seven days by 24 hours. A schedule has
/// 336 bytes; there is no text for a buffer of another length.
pub fn dfsr_schedule_to_string(schedule: &[u8]) -> (r: Option<String>)
    ensures
        r is Some <==> schedule@.len() == 336,
        r matches Some(t) ==> t@ == schedule_text(schedule@),
{
    let lines: Vec<String> = match dfsr_schedule_lines(schedule) {
        Some(l) => l,
        None => {
            return None;
        },
    };
    assert(texts(lines@).len() == lines@.len());
    assert(texts(lines@)[0] == lines@[0]@);
    let mut ret: String = lines[0].clone();
    let mut i: usize = 1;
    while i < 9
        invariant
            1 <= i <= 9,
            lines@.len() == 9,
            texts(lines@) == schedule_lines(schedule@),
            ret@ == joined_upto(schedule_lines(schedule@), i as int),
        decreases 9 - i,
    {
        assert(texts(lines@)[i as int] == lines@[i as int]@);
        ret.append("\n");
        ret.append(lines[i].as_str());
        i += 1;
    }
    Some(ret)
}

} // verus!
