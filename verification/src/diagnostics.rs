//! Reading the diagnostic output of the transcoding program.
//!
//! When a run fails, its diagnostic text is searched for the marks of known
//! faults. Where none is found, the last line that says anything is taken
//! as the cause.

use vstd::prelude::*;
use vstd::string::*;

verus! {

/// Whether `c` is white space: one of the characters that Unicode gives the
/// property White_Space.
pub open spec fn is_white_space(c: char) -> bool {
    let n = c as u32;
    ||| 0x09 <= n <= 0x0d
    ||| n == 0x20
    ||| n == 0x85
    ||| n == 0xa0
    ||| n == 0x1680
    ||| 0x2000 <= n <= 0x200a
    ||| n == 0x2028
    ||| n == 0x2029
    ||| n == 0x202f
    ||| n == 0x205f
    ||| n == 0x3000
}

/// Whether `text` holds nothing but white space.
pub open spec fn is_blank(text: Seq<char>) -> bool {
    forall|i: int| 0 <= i < text.len() ==> is_white_space(#[trigger] text[i])
}

/// Whether `needle` occurs in `text` at position `at`.
pub open spec fn occurs_at(text: Seq<char>, needle: Seq<char>, at: int) -> bool {
    0 <= at && at + needle.len() <= text.len() && text.subrange(at, at + needle.len()) == needle
}

/// Whether `needle` occurs somewhere in `text`.
pub open spec fn contains(text: Seq<char>, needle: Seq<char>) -> bool {
    exists|at: int| occurs_at(text, needle, at)
}

/// Where the line begins that reaches up to position `pos`: the nearest
/// position at or before `pos` that is the start of the text or follows a
/// line feed.
pub open spec fn line_start(text: Seq<char>, pos: int) -> int
    decreases pos,
{
    if pos <= 0 || text[pos - 1] == '\n' {
        pos
    } else {
        line_start(text, pos - 1)
    }
}

/// The last line with anything but white space among the lines that end at
/// or before `end`, where `end` is the end of the text or the position of a
/// line feed. A line ends before its line feed, and before the carriage
/// return in front of that if there is one.
pub open spec fn last_line_before(text: Seq<char>, end: int) -> Option<Seq<char>>
    decreases end,
{
    let start = line_start(text, end);
    let stop = if end < text.len() && start < end && text[end - 1] == '\r' {
        end - 1
    } else {
        end
    };
    let line = text.subrange(start, stop);
    if 0 <= start <= end && !is_blank(line) {
        Some(line)
    } else if start <= 0 || start > end {
        None
    } else {
        last_line_before(text, start - 1)
    }
}

/// The last line of `text` with anything but white space, if there is one.
pub open spec fn last_line(text: Seq<char>) -> Option<Seq<char>> {
    last_line_before(text, text.len() as int)
}

/// The cause that the diagnostic text `stderr` points to: the first known
/// fault whose mark it bears, else its last line that says anything, else
/// that the fault is unknown.
pub open spec fn diagnosis(stderr: Seq<char>) -> Seq<char> {
    if contains(stderr, "Invalid data found when processing input"@) {
        "Invalid or corrupted video file"@
    } else if contains(stderr, "No such file or directory"@) {
        "File not found"@
    } else if contains(stderr, "Permission denied"@) {
        "Permission denied accessing file"@
    } else if contains(stderr, "Codec"@) && contains(stderr, "not found"@) {
        "Required codec not available"@
    } else if contains(stderr, "Invalid argument"@) {
        "Invalid FFmpeg arguments"@
    } else if contains(stderr, "Conversion failed"@) {
        "Video conversion failed"@
    } else if contains(stderr, "Invalid duration"@) {
        "Invalid duration specification"@
    } else {
        match last_line(stderr) {
            Some(line) => line,
            None => "Unknown FFmpeg error"@,
        }
    }
}

/// Whether `c` is white space.
pub fn is_white_space_char(c: char) -> (r: bool)
    ensures
        r == is_white_space(c),
{
    let n = c as u32;
    (0x09 <= n && n <= 0x0d) || n == 0x20 || n == 0x85 || n == 0xa0 || n == 0x1680 || (0x2000 <= n
        && n <= 0x200a) || n == 0x2028 || n == 0x2029 || n == 0x202f || n == 0x205f || n
        == 0x3000
}

/// The characters of `text`.
pub fn chars_of(text: &str) -> (chars: Vec<char>)
    ensures
        chars@ == text@,
{
    let mut chars: Vec<char> = Vec::new();
    for c in it: text.chars()
        invariant
            chars@ == it.seq().take(it.index() as int),
    {
        chars.push(c);
    }
    chars
}

fn matches_at(text: &Vec<char>, needle: &Vec<char>, at: usize) -> (r: bool)
    requires
        at + needle.len() <= text.len(),
    ensures
        r == occurs_at(text@, needle@, at as int),
{
    let mut k: usize = 0;
    while k < needle.len()
        invariant
            k <= needle.len(),
            at + needle.len() <= text.len(),
            forall|j: int| 0 <= j < k ==> text@[at + j] == needle@[j],
        decreases needle.len() - k,
    {
        if text[at + k] != needle[k] {
            proof {
                let part = text@.subrange(at as int, at + needle.len());
                assert(part[k as int] == text@[at + k]);
            }
            return false;
        }
        k += 1;
    }
    assert(text@.subrange(at as int, at + needle.len()) =~= needle@);
    true
}

/// Whether `needle` occurs somewhere in `text`.
pub fn contains_text(text: &Vec<char>, needle: &str) -> (r: bool)
    ensures
        r == contains(text@, needle@),
{
    let pattern = chars_of(needle);
    if pattern.len() > text.len() {
        return false;
    }
    if pattern.len() == 0 {
        assert(text@.subrange(0, 0) =~= needle@);
        assert(occurs_at(text@, needle@, 0));
        return true;
    }
    let last: usize = text.len() - pattern.len();
    let mut at: usize = 0;
    while at <= last
        invariant
            at <= last + 1,
            last == text.len() - pattern.len(),
            pattern.len() > 0,
            pattern@ == needle@,
            forall|j: int| 0 <= j < at ==> !occurs_at(text@, needle@, j),
        decreases last + 1 - at,
    {
        if matches_at(text, &pattern, at) {
            return true;
        }
        at += 1;
    }
    false
}

fn start_of_line(text: &Vec<char>, pos: usize) -> (start: usize)
    requires
        pos <= text.len(),
    ensures
        start == line_start(text@, pos as int),
        start <= pos,
{
    let mut p: usize = pos;
    while p > 0 && text[p - 1] != '\n'
        invariant
            p <= pos <= text.len(),
            line_start(text@, pos as int) == line_start(text@, p as int),
        decreases p,
    {
        p -= 1;
    }
    p
}

fn is_blank_range(text: &Vec<char>, start: usize, stop: usize) -> (r: bool)
    requires
        start <= stop <= text.len(),
    ensures
        r == is_blank(text@.subrange(start as int, stop as int)),
{
    let ghost part = text@.subrange(start as int, stop as int);
    let mut i: usize = start;
    while i < stop
        invariant
            start <= i <= stop <= text.len(),
            part == text@.subrange(start as int, stop as int),
            forall|j: int| 0 <= j < i - start ==> is_white_space(#[trigger] part[j]),
        decreases stop - i,
    {
        assert(part[i - start] == text@[i as int]);
        if !is_white_space_char(text[i]) {
            return false;
        }
        i += 1;
    }
    true
}

/// The cause that the diagnostic text of a failed run points to.
pub fn parse_ffmpeg_error(stderr: &str) -> (cause: String)
    ensures
        cause@ == diagnosis(stderr@),
{
    let text = chars_of(stderr);
    if contains_text(&text, "Invalid data found when processing input") {
        return String::from_str("Invalid or corrupted video file");
    }
    if contains_text(&text, "No such file or directory") {
        return String::from_str("File not found");
    }
    if contains_text(&text, "Permission denied") {
        return String::from_str("Permission denied accessing file");
    }
    if contains_text(&text, "Codec") && contains_text(&text, "not found") {
        return String::from_str("Required codec not available");
    }
    if contains_text(&text, "Invalid argument") {
        return String::from_str("Invalid FFmpeg arguments");
    }
    if contains_text(&text, "Conversion failed") {
        return String::from_str("Video conversion failed");
    }
    if contains_text(&text, "Invalid duration") {
        return String::from_str("Invalid duration specification");
    }
    let mut end: usize = text.len();
    loop
        invariant
            end <= text.len(),
            text@ == stderr@,
            last_line(stderr@) == last_line_before(stderr@, end as int),
            !contains(stderr@, "Invalid data found when processing input"@),
            !contains(stderr@, "No such file or directory"@),
            !contains(stderr@, "Permission denied"@),
            !(contains(stderr@, "Codec"@) && contains(stderr@, "not found"@)),
            !contains(stderr@, "Invalid argument"@),
            !contains(stderr@, "Conversion failed"@),
            !contains(stderr@, "Invalid duration"@),
        decreases end,
    {
        let start = start_of_line(&text, end);
        let stop = if end < text.len() && start < end && text[end - 1] == '\r' {
            end - 1
        } else {
            end
        };
        if !is_blank_range(&text, start, stop) {
            let line = stderr.substring_char(start, stop);
            return String::from_str(line);
        }
        if start == 0 {
            return String::from_str("Unknown FFmpeg error");
        }
        end = start - 1;
    }
}

} // verus!
