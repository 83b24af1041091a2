//! Recovering the output frame size from the decoder's log.
use vstd::prelude::*;

verus! {

/// The decoder log line that declares the output frame size, such as
/// `  Stream #0:0: Video: rawvideo (RGB[24] / 0x18424752), rgb24, 1920x1080, q=2-31`.
pub const OUTPUT_SIZE_PATTERN: &'static str = "  Stream .* Video: .* (\\d+)x(\\d+),? ";

/// The start of the decoder log's output section.
pub const OUTPUT_SECTION_PREFIX: &'static str = "Output #";

/// The text of capture groups 1 and 2 of the first match of the regular
/// expression `pattern` in `text`; `None` when the pattern does not compile,
/// nothing matches, or a group takes no part in the match.
pub uninterp spec fn regex_two_groups(pattern: Seq<char>, text: Seq<char>) -> Option<(Seq<char>, Seq<char>)>;

/// Relies on `regex::Regex::new` and `Regex::captures`: compiles `pattern` and
/// returns the text of groups 1 and 2 of its first match in `text`.
#[verifier::external_body]
fn capture_two_groups(pattern: &str, text: &str) -> (r: Option<(String, String)>)
    ensures
        r is None <==> regex_two_groups(pattern@, text@) is None,
        r matches Some(groups) ==> regex_two_groups(pattern@, text@) == Some((groups.0@, groups.1@)),
{
    let re = regex::Regex::new(pattern).ok()?;
    let caps = re.captures(text)?;
    Some((caps.get(1)?.as_str().to_string(), caps.get(2)?.as_str().to_string()))
}

/// The value of an ASCII decimal digit; `None` for any other character.
pub open spec fn digit_value(c: char) -> Option<nat> {
    if c == '0' {
        Some(0)
    } else if c == '1' {
        Some(1)
    } else if c == '2' {
        Some(2)
    } else if c == '3' {
        Some(3)
    } else if c == '4' {
        Some(4)
    } else if c == '5' {
        Some(5)
    } else if c == '6' {
        Some(6)
    } else if c == '7' {
        Some(7)
    } else if c == '8' {
        Some(8)
    } else if c == '9' {
        Some(9)
    } else {
        None
    }
}

pub open spec fn is_ascii_digit(c: char) -> bool {
    digit_value(c) is Some
}

/// The value of an ASCII decimal digit.
fn digit(c: char) -> (r: Option<u64>)
    ensures
        r matches Some(d) ==> digit_value(c) == Some(d as nat),
        r is None ==> digit_value(c) is None,
{
    match c {
        '0' => Some(0),
        '1' => Some(1),
        '2' => Some(2),
        '3' => Some(3),
        '4' => Some(4),
        '5' => Some(5),
        '6' => Some(6),
        '7' => Some(7),
        '8' => Some(8),
        '9' => Some(9),
        _ => None,
    }
}

/// The value of a string of ASCII decimal digits.
pub open spec fn digits_value(s: Seq<char>) -> nat
    decreases s.len(),
{
    if s.len() == 0 {
        0
    } else {
        digits_value(s.drop_last()) * 10 + match digit_value(s.last()) {
            Some(d) => d,
            None => 0,
        }
    }
}

/// The `u32` that a non-empty string of ASCII decimal digits spells, or
/// `None` for any other string and for a value above `u32::MAX`.
pub open spec fn decimal_u32(s: Seq<char>) -> Option<u32> {
    if s.len() > 0 && (forall|i: int| 0 <= i < s.len() ==> is_ascii_digit(#[trigger] s[i]))
        && digits_value(s) <= u32::MAX {
        Some(digits_value(s) as u32)
    } else {
        None
    }
}

/// Reads a decimal number made of ASCII digits only.
pub fn parse_decimal_u32(s: &str) -> (r: Option<u32>)
    ensures
        r == decimal_u32(s@),
{
    let n: usize = s.unicode_len();
    if n == 0 {
        return None;
    }
    let mut value: u64 = 0;
    let mut i: usize = 0;
    while i < n
        invariant
            n == s@.len(),
            i <= n,
            value == digits_value(s@.subrange(0, i as int)),
            value <= u32::MAX,
            forall|j: int| 0 <= j < i ==> is_ascii_digit(#[trigger] s@[j]),
        decreases n - i,
    {
        let c = s.get_char(i);
        assert(s@.subrange(0, i + 1).drop_last() =~= s@.subrange(0, i as int));
        let d: u64 = match digit(c) {
            Some(d) => d,
            None => {
                return None;
            },
        };
        value = value * 10 + d;
        if value > 0xffff_ffff {
            proof {
                assert(value == digits_value(s@.subrange(0, i + 1)));
                if forall|j: int| 0 <= j < s@.len() ==> is_ascii_digit(#[trigger] s@[j]) {
                    lemma_digits_value_monotone(s@, i as int + 1);
                }
            }
            return None;
        }
        i = i + 1;
    }
    assert(s@.subrange(0, n as int) =~= s@);
    Some(value as u32)
}

/// Extending a digit string never makes its value smaller.
proof fn lemma_digits_value_monotone(s: Seq<char>, k: int)
    requires
        0 <= k <= s.len(),
        forall|j: int| 0 <= j < s.len() ==> is_ascii_digit(#[trigger] s[j]),
    ensures
        digits_value(s) >= digits_value(s.subrange(0, k)),
    decreases s.len() - k,
{
    if k < s.len() {
        lemma_digits_value_monotone(s, k + 1);
        assert(s.subrange(0, k + 1).drop_last() =~= s.subrange(0, k));
    } else {
        assert(s.subrange(0, k) =~= s);
    }
}

/// The size that two captured strings spell, when both are decimal `u32`s.
pub open spec fn size_of_groups(width: Seq<char>, height: Seq<char>) -> Option<(u32, u32)> {
    match (decimal_u32(width), decimal_u32(height)) {
        (Some(w), Some(h)) => Some((w, h)),
        _ => None,
    }
}

/// The output size that a decoder log line declares, if it declares one.
pub open spec fn output_size_of_line(line: Seq<char>) -> Option<(u32, u32)> {
    match regex_two_groups(OUTPUT_SIZE_PATTERN@, line) {
        Some((w, h)) => size_of_groups(w, h),
        None => None,
    }
}

/// Turns the width and height captured from a size declaration into numbers.
pub fn parse_size_groups(width: &str, height: &str) -> (r: Option<(u32, u32)>)
    ensures
        r == size_of_groups(width@, height@),
{
    match (parse_decimal_u32(width), parse_decimal_u32(height)) {
        (Some(w), Some(h)) => Some((w, h)),
        _ => None,
    }
}

/// Parses a line of decoder log output, looking for the output video size.
pub fn parse_ffmpeg_output_size(text: &str) -> (r: Option<(u32, u32)>)
    ensures
        r == output_size_of_line(text@),
{
    match capture_two_groups(OUTPUT_SIZE_PATTERN, text) {
        Some((w, h)) => parse_size_groups(w.as_str(), h.as_str()),
        None => None,
    }
}

/// `s` begins with `prefix`.
pub open spec fn has_prefix(s: Seq<char>, prefix: Seq<char>) -> bool {
    prefix.len() <= s.len() && s.subrange(0, prefix.len() as int) == prefix
}

/// Whether `s` begins with `prefix`.
pub fn starts_with(s: &str, prefix: &str) -> (r: bool)
    ensures
        r == has_prefix(s@, prefix@),
{
    let n: usize = prefix.unicode_len();
    let m: usize = s.unicode_len();
    if n > m {
        return false;
    }
    let mut i: usize = 0;
    while i < n
        invariant
            n == prefix@.len(),
            m == s@.len(),
            n <= m,
            i <= n,
            forall|j: int| 0 <= j < i ==> s@[j] == prefix@[j],
        decreases n - i,
    {
        if s.get_char(i) != prefix.get_char(i) {
            assert(s@.subrange(0, n as int)[i as int] != prefix@[i as int]);
            return false;
        }
        i = i + 1;
    }
    assert(s@.subrange(0, n as int) =~= prefix@);
    true
}

/// Where the reader of the decoder log stands.
#[derive(Clone, Copy, Debug, PartialEq, Eq, Structural)]
pub enum LogSection {
    /// Before the output section.
    Prelude,
    /// Inside the output section, looking for the size declaration.
    InsideOutputSection,
    /// The size has been found; later lines are only passed on.
    Done,
}

/// The section after `line`, read in `section`.
pub open spec fn next_section(section: LogSection, line: Seq<char>) -> LogSection {
    match section {
        LogSection::Prelude => if has_prefix(line, OUTPUT_SECTION_PREFIX@) {
            LogSection::InsideOutputSection
        } else {
            LogSection::Prelude
        },
        LogSection::InsideOutputSection => if output_size_of_line(line) is Some {
            LogSection::Done
        } else {
            LogSection::InsideOutputSection
        },
        LogSection::Done => LogSection::Done,
    }
}

/// The size that `line`, read in `section`, publishes.
pub open spec fn published_size(section: LogSection, line: Seq<char>) -> Option<(u32, u32)> {
    match section {
        LogSection::InsideOutputSection => output_size_of_line(line),
        _ => None,
    }
}

/// Reads the decoder's log line by line and recovers the output frame size
/// before any pixels arrive.
#[derive(Clone, Copy, Debug)]
pub struct OutputSizeParser {
    pub section: LogSection,
    pub size: Option<(u32, u32)>,
}

impl OutputSizeParser {
    pub fn new() -> (r: OutputSizeParser)
        ensures
            r.section == LogSection::Prelude,
            r.size is None,
    {
        OutputSizeParser { section: LogSection::Prelude, size: None }
    }

    /// Takes one log line; returns the size when this line publishes it.
    pub fn on_line(&mut self, line: &str) -> (r: Option<(u32, u32)>)
        ensures
            r == published_size(old(self).section, line@),
            final(self).section == next_section(old(self).section, line@),
            final(self).size == (if r is Some { r } else { old(self).size }),
    {
        match self.section {
            LogSection::Prelude => {
                if starts_with(line, OUTPUT_SECTION_PREFIX) {
                    self.section = LogSection::InsideOutputSection;
                }
                None
            },
            LogSection::InsideOutputSection => {
                let size = parse_ffmpeg_output_size(line);
                if size.is_some() {
                    self.section = LogSection::Done;
                    self.size = size;
                }
                size
            },
            LogSection::Done => None,
        }
    }
}

} // verus!
