//! Detection of the number of usable cores, from either of two host sources:
//! the lines of the CPU-info file, or the text of a hardware-report utility.
use vstd::prelude::*;
use vstd::utf8::{decode_utf8, valid_utf8};

use crate::handler::decode_text;
use crate::DEFAULT_WORKER_NUM;

verus! {

#[verifier::external_type_specification]
#[verifier::external_body]
pub struct ExRegex(regex::Regex);

#[verifier::external_type_specification]
#[verifier::external_body]
pub struct ExRegexError(regex::Error);

/// Why the core count could not be detected.
#[derive(Clone, Copy, PartialEq, Eq, Structural, Debug)]
pub enum DetectionError {
    /// The source could not be opened, run or read.
    Unreadable,
    /// The hardware report is not valid UTF-8.
    NotText,
    /// The hardware report has no core-count field.
    FieldMissing,
    /// The core-count field does not hold a number that fits a `usize`.
    BadNumber,
    /// The source reports no cores at all.
    NoCores,
    /// The line pattern could not be compiled.
    BadPattern,
}

impl DetectionError {
    /// A short description for diagnostics.
    pub fn message(&self) -> &'static str {
        match self {
            DetectionError::Unreadable => "the core-count source could not be read",
            DetectionError::NotText => "the hardware report is not UTF-8 text",
            DetectionError::FieldMissing => "couldn't find a CPU core number in the hardware report",
            DetectionError::BadNumber => "the reported CPU core number is not a valid count",
            DetectionError::NoCores => "no CPU cores were reported",
            DetectionError::BadPattern => "the core pattern could not be compiled",
        }
    }
}

/// A line of the CPU-info file that describes one processor.
pub const PROCESSOR_PATTERN: &'static str = r"^processor\s+.+$";

/// The core-count field of the hardware report; its first group holds the number.
pub const CORES_PATTERN: &'static str = r"\s*Number of Cores:\s*(\d+)\s*";

/// A character of Unicode's `White_Space` property, which `\s` stands for.
pub open spec fn is_white_space(c: char) -> bool {
    ||| '\t' <= c <= '\r'
    ||| c == ' '
    ||| c == '\u{85}'
    ||| c == '\u{a0}'
    ||| c == '\u{1680}'
    ||| '\u{2000}' <= c <= '\u{200a}'
    ||| '\u{2028}' <= c <= '\u{2029}'
    ||| c == '\u{202f}'
    ||| c == '\u{205f}'
    ||| c == '\u{3000}'
}

/// Whether `line` after `processor` is whitespace up to `k`, then at least one
/// character to the end with no newline among them.
pub open spec fn processor_split(line: Seq<char>, k: int) -> bool {
    &&& 9 < k < line.len()
    &&& forall|i: int| 9 <= i < k ==> is_white_space(#[trigger] line[i])
    &&& forall|i: int| k <= i < line.len() ==> #[trigger] line[i] != '\n'
}

/// Whether `PROCESSOR_PATTERN` matches the line: it starts with `processor`,
/// then one or more whitespace characters, then one or more characters up to
/// the end, none of them a newline.
pub open spec fn processor_line(line: Seq<char>) -> bool {
    &&& line.len() > 9
    &&& line.take(9) == seq!['p', 'r', 'o', 'c', 'e', 's', 's', 'o', 'r']
    &&& exists|k: int| #[trigger] processor_split(line, k)
}

/// The text of the first group of the first match of `CORES_PATTERN` in the report, if any.
pub uninterp spec fn reported_cores_field(report: Seq<char>) -> Option<Seq<char>>;

/// Whether `regex::Regex::new` accepts the pattern.
pub uninterp spec fn pattern_compiles(pattern: Seq<char>) -> bool;

/// Number of `true` entries.
pub open spec fn count_true(flags: Seq<bool>) -> nat
    decreases flags.len(),
{
    if flags.len() == 0 {
        0
    } else {
        count_true(flags.drop_last()) + if flags.last() { 1nat } else { 0nat }
    }
}

/// The core count given which lines describe a processor.
pub open spec fn processor_tally(flags: Seq<bool>) -> Result<usize, DetectionError> {
    if count_true(flags) == 0 {
        Err(DetectionError::NoCores)
    } else {
        Ok(count_true(flags) as usize)
    }
}

pub open spec fn is_ascii_digit(c: char) -> bool {
    '0' <= c <= '9'
}

/// Value of a string of decimal digits.
pub open spec fn digits_value(d: Seq<char>) -> int
    decreases d.len(),
{
    if d.len() == 0 {
        0
    } else {
        digits_value(d.drop_last()) * 10 + ((d.last() as u32) - ('0' as u32))
    }
}

/// An unsigned decimal number: an optional `+`, then one or more ASCII digits,
/// whose value fits a `usize`.
pub open spec fn decimal_usize(s: Seq<char>) -> Option<usize> {
    let d = if s.len() > 0 && s[0] == '+' { s.drop_first() } else { s };
    if d.len() > 0 && (forall|i: int| 0 <= i < d.len() ==> is_ascii_digit(#[trigger] d[i]))
        && digits_value(d) <= usize::MAX {
        Some(digits_value(d) as usize)
    } else {
        None
    }
}

/// The core count given the core-count field found in the report.
pub open spec fn field_count(field: Option<Seq<char>>) -> Result<usize, DetectionError> {
    match field {
        None => Err(DetectionError::FieldMissing),
        Some(f) => match decimal_usize(f) {
            None => Err(DetectionError::BadNumber),
            Some(n) => if n == 0 {
                Err(DetectionError::NoCores)
            } else {
                Ok(n)
            },
        },
    }
}

/// The core count given the raw output of the hardware report.
pub open spec fn report_count(report: Seq<u8>) -> Result<usize, DetectionError> {
    if !valid_utf8(report) {
        Err(DetectionError::NotText)
    } else {
        field_count(reported_cores_field(decode_utf8(report)))
    }
}

/// Relies on `regex::Regex::new`, which compiles a pattern or reports why it cannot.
#[verifier::external_body]
fn compile(pattern: &str) -> (r: Result<regex::Regex, regex::Error>)
    ensures
        r is Ok <==> pattern_compiles(pattern@),
{
    regex::Regex::new(pattern)
}

/// Relies on `regex::Regex::is_match` with the matcher that `CpuInfoCounter::new`
/// compiles from `PROCESSOR_PATTERN`, the only way its field is set: `^` and `$`
/// anchor the whole line, `\s` is Unicode whitespace and `.` is any character
/// but a newline.
#[verifier::external_body]
fn is_processor_line(m: &CpuInfoCounter, line: &str) -> (r: bool)
    ensures
        r == processor_line(line@),
{
    m.re.is_match(line)
}

/// Relies on `regex::Regex::captures` and `Captures::get(1)` with the matcher
/// that `HardwareReportCounter::new` compiles from `CORES_PATTERN`, the only way
/// its field is set.
#[verifier::external_body]
fn find_cores_field(m: &HardwareReportCounter, report: &str) -> (r: Option<String>)
    ensures
        match r {
            Some(f) => reported_cores_field(report@) == Some(f@),
            None => reported_cores_field(report@) == None::<Seq<char>>,
        },
{
    m.re.captures(report).and_then(|c| c.get(1)).map(|g| g.as_str().to_string())
}

/// Relies on `str::parse::<usize>`, which accepts an optional `+` followed by
/// ASCII digits whose value fits the type, and nothing else.
#[verifier::external_body]
fn parse_count(s: &str) -> (r: Option<usize>)
    ensures
        r == decimal_usize(s@),
{
    s.parse::<usize>().ok()
}

/// Counts the processors given, for each line of the CPU-info file, whether it
/// describes one; no processor at all is an error.
pub fn tally_processor_lines(flags: &Vec<bool>) -> (r: Result<usize, DetectionError>)
    ensures
        r == processor_tally(flags@),
{
    let mut count: usize = 0;
    let mut i: usize = 0;
    while i < flags.len()
        invariant
            i <= flags@.len(),
            count == count_true(flags@.take(i as int)),
            count <= i,
        decreases flags@.len() - i,
    {
        proof {
            assert(flags@.take(i + 1).drop_last() =~= flags@.take(i as int));
        }
        if flags[i] {
            count = count + 1;
        }
        i = i + 1;
    }
    proof {
        assert(flags@.take(i as int) =~= flags@);
    }
    if count == 0 {
        Err(DetectionError::NoCores)
    } else {
        Ok(count)
    }
}

/// Turns the core-count field found in the hardware report into a count.
pub fn cores_from_field(field: Option<String>) -> (r: Result<usize, DetectionError>)
    ensures
        r == field_count(match field {
            Some(f) => Some(f@),
            None => None,
        }),
{
    match field {
        None => Err(DetectionError::FieldMissing),
        Some(f) => match parse_count(f.as_str()) {
            None => Err(DetectionError::BadNumber),
            Some(n) => if n == 0 {
                Err(DetectionError::NoCores)
            } else {
                Ok(n)
            },
        },
    }
}

/// Counts cores by scanning the lines of the CPU-info file.
pub struct CpuInfoCounter {
    re: regex::Regex,
}

impl CpuInfoCounter {
    /// Compiles `PROCESSOR_PATTERN`.
    pub fn new() -> (r: Result<CpuInfoCounter, DetectionError>)
        ensures
            r is Err ==> r == Err::<CpuInfoCounter, DetectionError>(DetectionError::BadPattern),
            r is Ok <==> pattern_compiles(PROCESSOR_PATTERN@),
    {
        match compile(PROCESSOR_PATTERN) {
            Ok(re) => Ok(CpuInfoCounter { re }),
            Err(_) => Err(DetectionError::BadPattern),
        }
    }

    /// The number of lines that describe a processor.
    pub fn count_cores(&self, lines: &Vec<String>) -> (r: Result<usize, DetectionError>)
        ensures
            r == processor_tally(lines@.map_values(|l: String| processor_line(l@))),
    {
        let mut flags: Vec<bool> = Vec::new();
        let mut i: usize = 0;
        while i < lines.len()
            invariant
                i <= lines@.len(),
                flags@.len() == i,
                forall|j: int| 0 <= j < i ==> flags@[j] == processor_line(#[trigger] lines@[j]@),
            decreases lines@.len() - i,
        {
            let m = is_processor_line(self, lines[i].as_str());
            flags.push(m);
            i = i + 1;
        }
        proof {
            assert(flags@ =~= lines@.map_values(|l: String| processor_line(l@)));
        }
        tally_processor_lines(&flags)
    }
}

/// Counts cores from the text of the hardware report.
pub struct HardwareReportCounter {
    re: regex::Regex,
}

impl HardwareReportCounter {
    /// Compiles `CORES_PATTERN`.
    pub fn new() -> (r: Result<HardwareReportCounter, DetectionError>)
        ensures
            r is Err ==> r == Err::<HardwareReportCounter, DetectionError>(DetectionError::BadPattern),
            r is Ok <==> pattern_compiles(CORES_PATTERN@),
    {
        match compile(CORES_PATTERN) {
            Ok(re) => Ok(HardwareReportCounter { re }),
            Err(_) => Err(DetectionError::BadPattern),
        }
    }

    /// The core count stated in the report's output.
    pub fn count_cores(&self, report: &[u8]) -> (r: Result<usize, DetectionError>)
        ensures
            r == report_count(report@),
    {
        match decode_text(report) {
            None => Err(DetectionError::NotText),
            Some(text) => {
                let field = find_cores_field(self, text.as_str());
                cores_from_field(field)
            },
        }
    }
}

/// The pool size: the detected count, or `DEFAULT_WORKER_NUM` when detection failed.
pub fn worker_count(detected: &Result<usize, DetectionError>) -> (r: usize)
    ensures
        r >= 1,
        match detected {
            Ok(n) => r == if *n == 0 { DEFAULT_WORKER_NUM } else { *n },
            Err(_) => r == DEFAULT_WORKER_NUM,
        },
{
    match detected {
        Ok(n) => if *n == 0 {
            DEFAULT_WORKER_NUM
        } else {
            *n
        },
        Err(_) => DEFAULT_WORKER_NUM,
    }
}

} // verus!
