//! Classification of the sidecar's output events into log levels and
//! human-readable messages.
//!
//! A line on standard output is informational. A line on standard error is an
//! error when it contains the text "error" in any letter case, otherwise a
//! warning. A termination event is informational for a clean exit, an error
//! for a non-zero exit code, and a warning when no exit code is available.

use vstd::prelude::*;

verus! {

use vstd::string::StringExecFns;
use vstd::utf8::valid_utf8;
use vstd::utf8::decode_utf8;

/// Severity of one log entry, for the host's logging sink.
#[derive(Clone, Copy, PartialEq, Eq, Structural, Debug)]
pub enum Level {
    Debug,
    Info,
    Warn,
    Error,
}

/// One event observed on a running child's output channel.
pub enum OutputEvent {
    /// A line of bytes on the child's standard output.
    StdoutLine(Vec<u8>),
    /// A line of bytes on the child's standard error.
    StderrLine(Vec<u8>),
    /// The child terminated, with its exit code when one is available.
    Terminated(Option<i32>),
    /// The process layer reported a failure in words.
    ProcessError(String),
}

/// A classified event: what to log, and at which severity.
pub struct LogEntry {
    pub level: Level,
    pub message: String,
}

/// An upper-case ASCII letter mapped to lower case; any other byte unchanged.
pub open spec fn ascii_lower(b: u8) -> u8 {
    if 'A' as u8 <= b && b <= 'Z' as u8 {
        (b + 32) as u8
    } else {
        b
    }
}

/// The five bytes of `s` starting at `i` spell "error", ignoring ASCII case.
pub open spec fn error_marker_at(s: Seq<u8>, i: int) -> bool {
    &&& 0 <= i
    &&& i + 5 <= s.len()
    &&& ascii_lower(s[i]) == 'e' as u8
    &&& ascii_lower(s[i + 1]) == 'r' as u8
    &&& ascii_lower(s[i + 2]) == 'r' as u8
    &&& ascii_lower(s[i + 3]) == 'o' as u8
    &&& ascii_lower(s[i + 4]) == 'r' as u8
}

/// `s` contains the text "error" somewhere, ignoring ASCII case.
pub open spec fn contains_error_marker(s: Seq<u8>) -> bool {
    exists|i: int| error_marker_at(s, i)
}

/// The text that lossy UTF-8 decoding yields for a sequence of bytes.
pub uninterp spec fn lossy_text_of(bytes: Seq<u8>) -> Seq<char>;

/// The decimal digits of `n`, most significant first.
pub open spec fn spec_digit_char(d: int) -> char {
    if d == 0 {
        '0'
    } else if d == 1 {
        '1'
    } else if d == 2 {
        '2'
    } else if d == 3 {
        '3'
    } else if d == 4 {
        '4'
    } else if d == 5 {
        '5'
    } else if d == 6 {
        '6'
    } else if d == 7 {
        '7'
    } else if d == 8 {
        '8'
    } else {
        '9'
    }
}

/// Decimal rendering of a natural number, without sign or leading zeros.
pub open spec fn spec_udecimal(n: nat) -> Seq<char>
    decreases n,
{
    if n < 10 {
        seq![spec_digit_char(n as int)]
    } else {
        spec_udecimal(n / 10) + seq![spec_digit_char((n % 10) as int)]
    }
}

/// Decimal rendering of an integer: a minus sign for negative values.
pub open spec fn spec_decimal(v: int) -> Seq<char> {
    if v < 0 {
        seq!['-'] + spec_udecimal((-v) as nat)
    } else {
        spec_udecimal(v as nat)
    }
}

/// The severity an output event is classified at.
pub open spec fn spec_level(e: OutputEvent) -> Level {
    match e {
        OutputEvent::StdoutLine(_) => Level::Info,
        OutputEvent::StderrLine(line) => if contains_error_marker(line@) {
            Level::Error
        } else {
            Level::Warn
        },
        OutputEvent::Terminated(code) => match code {
            Option::Some(c) => if c == 0 {
                Level::Info
            } else {
                Level::Error
            },
            Option::None => Level::Warn,
        },
        OutputEvent::ProcessError(_) => Level::Error,
    }
}

/// The message an output event is classified to.
pub open spec fn spec_message(e: OutputEvent) -> Seq<char> {
    match e {
        OutputEvent::StdoutLine(line) => lossy_text_of(line@),
        OutputEvent::StderrLine(line) => lossy_text_of(line@),
        OutputEvent::Terminated(code) => match code {
            Option::Some(c) => if c == 0 {
                "terminated cleanly"@
            } else {
                "terminated with error (exit code: "@ + spec_decimal(c as int) + ")"@
            },
            Option::None => "terminated (no exit code)"@,
        },
        OutputEvent::ProcessError(m) => m@,
    }
}

/// Only a termination event ends the output pump.
pub open spec fn spec_ends_pump(e: OutputEvent) -> bool {
    e matches OutputEvent::Terminated(_)
}

/// Relies on `String::from_utf8_lossy`: the decoded text is a function of
/// the bytes alone, and valid UTF-8 decodes to exactly its own characters.
#[verifier::external_body]
fn lossy_decode(line: &[u8]) -> (r: String)
    ensures
        r@ == lossy_text_of(line@),
        valid_utf8(line@) ==> r@ == decode_utf8(line@),
{
    String::from_utf8_lossy(line).into_owned()
}

fn lower_byte(b: u8) -> (r: u8)
    ensures
        r == ascii_lower(b),
{
    if b >= 'A' as u8 && b <= 'Z' as u8 {
        b + 32
    } else {
        b
    }
}

/// Whether a raw line contains the text "error", ignoring ASCII case.
pub fn contains_error(line: &[u8]) -> (r: bool)
    ensures
        r == contains_error_marker(line@),
{
    if line.len() < 5 {
        return false;
    }
    let mut i: usize = 0;
    while i <= line.len() - 5
        invariant
            line@.len() >= 5,
            i <= line@.len() - 4,
            forall|j: int| 0 <= j < i ==> !error_marker_at(line@, j),
        decreases line.len() - i,
    {
        if lower_byte(line[i]) == 'e' as u8 && lower_byte(line[i + 1]) == 'r' as u8 && lower_byte(
            line[i + 2],
        ) == 'r' as u8 && lower_byte(line[i + 3]) == 'o' as u8 && lower_byte(line[i + 4]) == 'r'
            as u8 {
            assert(error_marker_at(line@, i as int));
            return true;
        }
        i = i + 1;
    }
    assert(forall|j: int| error_marker_at(line@, j) ==> 0 <= j < i);
    false
}

fn digit_str(d: u64) -> (r: &'static str)
    requires
        d < 10,
    ensures
        r@ == seq![spec_digit_char(d as int)],
{
    proof {
        reveal_strlit("0");
        reveal_strlit("1");
        reveal_strlit("2");
        reveal_strlit("3");
        reveal_strlit("4");
        reveal_strlit("5");
        reveal_strlit("6");
        reveal_strlit("7");
        reveal_strlit("8");
        reveal_strlit("9");
    }
    let r: &'static str = if d == 0 {
        "0"
    } else if d == 1 {
        "1"
    } else if d == 2 {
        "2"
    } else if d == 3 {
        "3"
    } else if d == 4 {
        "4"
    } else if d == 5 {
        "5"
    } else if d == 6 {
        "6"
    } else if d == 7 {
        "7"
    } else if d == 8 {
        "8"
    } else {
        "9"
    };
    proof {
        assert(r@ =~= seq![spec_digit_char(d as int)]);
    }
    r
}

/// Decimal rendering of an unsigned value, proved against `spec_udecimal`.
pub fn u64_to_decimal(n: u64) -> (s: String)
    ensures
        s@ == spec_udecimal(n as nat),
    decreases n,
{
    if n < 10 {
        String::from_str(digit_str(n))
    } else {
        let mut s = u64_to_decimal(n / 10);
        s.append(digit_str(n % 10));
        s
    }
}

/// Decimal rendering of a signed value, proved against `spec_decimal`.
pub fn i32_to_decimal(v: i32) -> (s: String)
    ensures
        s@ == spec_decimal(v as int),
{
    if v < 0 {
        let mag: u64 = (-(v as i64)) as u64;
        let mut s = String::from_str("-");
        s.append(u64_to_decimal(mag).as_str());
        proof {
            reveal_strlit("-");
            assert(s@ =~= spec_decimal(v as int));
        }
        s
    } else {
        u64_to_decimal(v as u64)
    }
}

/// Maps one output event to the severity and message to hand to the logging
/// sink. Classification has no side effect: it only computes the pair.
pub fn classify(event: &OutputEvent) -> (r: LogEntry)
    ensures
        r.level == spec_level(*event),
        r.message@ == spec_message(*event),
{
    match event {
        OutputEvent::StdoutLine(line) => LogEntry {
            level: Level::Info,
            message: lossy_decode(line.as_slice()),
        },
        OutputEvent::StderrLine(line) => {
            let level = if contains_error(line.as_slice()) {
                Level::Error
            } else {
                Level::Warn
            };
            LogEntry { level, message: lossy_decode(line.as_slice()) }
        },
        OutputEvent::Terminated(code) => match code {
            Option::Some(c) => if *c == 0 {
                LogEntry { level: Level::Info, message: String::from_str("terminated cleanly") }
            } else {
                let mut m = String::from_str("terminated with error (exit code: ");
                m.append(i32_to_decimal(*c).as_str());
                m.append(")");
                proof {
                    assert(m@ =~= spec_message(*event));
                }
                LogEntry { level: Level::Error, message: m }
            },
            Option::None => LogEntry {
                level: Level::Warn,
                message: String::from_str("terminated (no exit code)"),
            },
        },
        OutputEvent::ProcessError(m) => LogEntry { level: Level::Error, message: m.clone() },
    }
}

/// Whether the output pump stops after this event: exactly the termination
/// event ends the pump; every other event leaves it waiting for the next one.
pub fn ends_pump(event: &OutputEvent) -> (r: bool)
    ensures
        r == spec_ends_pump(*event),
{
    match event {
        OutputEvent::Terminated(_) => true,
        _ => false,
    }
}

} // verus!
