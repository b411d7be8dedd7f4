//! The diagnostic sink: formats one timestamped diagnostic line and writes
//! it to the console stream. Verified code cannot open files, so the line
//! is also returned to the caller; an embedding program that wants the
//! durable log appends the returned line to its log file.

use std::io::Write;
use vstd::prelude::*;
use vstd::string::StringExecFns;

verus! {

/// The character standing for one decimal digit.
pub open spec fn dec_digit(d: nat) -> char {
    if d == 0 {
        '0'
    } else if d == 1 {
        '1'
    } else if d == 2 {
        '2'
    } else if d == 3 {
        '3'
    } else if d == 4 {
        '4'
    } else if d == 5 {
        '5'
    } else if d == 6 {
        '6'
    } else if d == 7 {
        '7'
    } else if d == 8 {
        '8'
    } else {
        '9'
    }
}

/// The decimal rendering of `n`, most significant digit first, with no
/// leading zero except for `n == 0` itself.
pub open spec fn dec_str(n: nat) -> Seq<char>
    decreases n,
{
    if n < 10 {
        seq![dec_digit(n)]
    } else {
        dec_str(n / 10).push(dec_digit(n % 10))
    }
}

/// The call-site part of a diagnostic body: the module (or file) name in
/// backquotes and the line number.
pub open spec fn caller_tag(module: Seq<char>, line: nat) -> Seq<char> {
    " : Caller: `"@ + module + "` Line "@ + dec_str(line)
}

/// The diagnostic body for an absent value: the message and the call site.
pub open spec fn absence_body(msg: Seq<char>, module: Seq<char>, line: nat) -> Seq<char> {
    msg + caller_tag(module, line)
}

/// The diagnostic body for a failed result: the message, the cause's text,
/// and the call site.
pub open spec fn failure_body(msg: Seq<char>, cause: Seq<char>, module: Seq<char>, line: nat) -> Seq<char> {
    msg + ": "@ + cause + caller_tag(module, line)
}

/// One full diagnostic line: the timestamp in brackets, the word `Error:`,
/// the body, and a terminating newline.
pub open spec fn sink_line(stamp: Seq<char>, body: Seq<char>) -> Seq<char> {
    "["@ + stamp + "] Error: "@ + body + "\n"@
}

/// `needle` appears verbatim in `hay` starting at index `i`.
pub open spec fn occurs_at(hay: Seq<char>, needle: Seq<char>, i: int) -> bool {
    0 <= i && i + needle.len() <= hay.len() && hay.subrange(i, i + needle.len()) == needle
}

fn dec_digit_str(d: u32) -> (r: &'static str)
    requires
        d < 10,
    ensures
        r@ == seq![dec_digit(d as nat)],
{
    proof {
        reveal_strlit("0");
        reveal_strlit("1");
        reveal_strlit("2");
        reveal_strlit("3");
        reveal_strlit("4");
        reveal_strlit("5");
        reveal_strlit("6");
        reveal_strlit("7");
        reveal_strlit("8");
        reveal_strlit("9");
        assert("0"@ =~= seq![dec_digit(0)]);
        assert("1"@ =~= seq![dec_digit(1)]);
        assert("2"@ =~= seq![dec_digit(2)]);
        assert("3"@ =~= seq![dec_digit(3)]);
        assert("4"@ =~= seq![dec_digit(4)]);
        assert("5"@ =~= seq![dec_digit(5)]);
        assert("6"@ =~= seq![dec_digit(6)]);
        assert("7"@ =~= seq![dec_digit(7)]);
        assert("8"@ =~= seq![dec_digit(8)]);
        assert("9"@ =~= seq![dec_digit(9)]);
    }
    match d {
        0 => "0",
        1 => "1",
        2 => "2",
        3 => "3",
        4 => "4",
        5 => "5",
        6 => "6",
        7 => "7",
        8 => "8",
        _ => "9",
    }
}

/// Renders `n` in decimal.
pub fn u32_decimal(n: u32) -> (r: String)
    ensures
        r@ == dec_str(n as nat),
    decreases n,
{
    if n < 10 {
        dec_digit_str(n).to_owned()
    } else {
        proof {
            assert(n / 10 < n) by (nonlinear_arith)
                requires
                    n >= 10,
            ;
        }
        let mut s = u32_decimal(n / 10);
        s.append(dec_digit_str(n % 10));
        proof {
            assert(s@ =~= dec_str(n as nat));
        }
        s
    }
}

/// Renders the diagnostic body for an absent value.
pub fn render_absence_body(msg: &str, module: &str, line: u32) -> (r: String)
    ensures
        r@ == absence_body(msg@, module@, line as nat),
{
    let mut s = msg.to_owned();
    s.append(" : Caller: `");
    s.append(module);
    s.append("` Line ");
    let digits = u32_decimal(line);
    s.append(digits.as_str());
    proof {
        assert(s@ =~= absence_body(msg@, module@, line as nat));
    }
    s
}

/// Renders the diagnostic body for a failed result.
pub fn render_failure_body(msg: &str, cause: &str, module: &str, line: u32) -> (r: String)
    ensures
        r@ == failure_body(msg@, cause@, module@, line as nat),
{
    let mut s = msg.to_owned();
    s.append(": ");
    s.append(cause);
    s.append(" : Caller: `");
    s.append(module);
    s.append("` Line ");
    let digits = u32_decimal(line);
    s.append(digits.as_str());
    proof {
        assert(s@ =~= failure_body(msg@, cause@, module@, line as nat));
    }
    s
}

/// Renders one full diagnostic line from a timestamp and a body.
pub fn render_line(stamp: &str, body: &str) -> (r: String)
    ensures
        r@ == sink_line(stamp@, body@),
{
    let mut s = "[".to_owned();
    s.append(stamp);
    s.append("] Error: ");
    s.append(body);
    s.append("\n");
    proof {
        assert(s@ =~= sink_line(stamp@, body@));
    }
    s
}

/// Relies on `chrono::Local::now`: the current local date and time,
/// rendered `YYYY-MM-DD HH:MM:SS`. The clock decides the digits, so only
/// the shape is stated: every component is zero-padded, the year to at
/// least four digits, so at least 19 characters come back.
#[verifier::external_body]
fn local_timestamp() -> (r: String)
    ensures
        r@.len() >= 19,
{
    chrono::Local::now().format("%Y-%m-%d %H:%M:%S").to_string()
}

/// Relies on `std::io::stderr`: writes `line` to the process's standard
/// error stream. A write failure is ignored, so this never panics.
#[verifier::external_body]
fn console_write(line: &str) {
    let _ = write!(std::io::stderr(), "{}", line);
}

/// Formats one diagnostic line around `body` — the current timestamp in
/// brackets, the word `Error:`, a trailing newline — and writes it to the
/// console stream. The finished line is returned so that a durable sink
/// around the library can append the very same line to the log file.
pub fn log_handle(body: &str) -> (line: String)
    ensures
        exists|stamp: Seq<char>| line@ == sink_line(stamp, body@),
{
    let stamp = local_timestamp();
    let line = render_line(stamp.as_str(), body);
    console_write(line.as_str());
    line
}

/// In the diagnostic body for a failed result, the cause's text appears
/// verbatim, beginning right after the message and its separator.
pub proof fn lemma_failure_body_contains_cause(
    msg: Seq<char>,
    cause: Seq<char>,
    module: Seq<char>,
    line: nat,
)
    ensures
        exists|i: int| occurs_at(failure_body(msg, cause, module, line), cause, i),
{
    reveal_strlit(": ");
    let body = failure_body(msg, cause, module, line);
    let start: int = msg.len() as int + 2;
    assert(body.subrange(start, start + cause.len()) =~= cause);
    assert(occurs_at(body, cause, start));
}

} // verus!
