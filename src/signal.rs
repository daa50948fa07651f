//! The stop-signal protocol: what the coordinator tells the watcher once the
//! worker has exited, and the text that carries it.
use vstd::prelude::*;
use vstd::string::*;

verus! {

/// Why the worker finished, as the watcher is told.
#[derive(Clone, Copy, Debug, PartialEq, Eq, Structural)]
pub enum StopPhase {
    Completed,
    Failed,
}

/// How waiting on the worker ended.
#[derive(Clone, Copy, Debug, PartialEq, Eq, Structural)]
pub enum WorkerExit {
    /// The worker exited; `None` where it reported no code (ended by a signal).
    Exited(Option<i32>),
    /// The operating system could not report the worker's exit.
    WaitFailed,
}

/// The record that the stop-signal file carries.
pub struct StopSignal {
    pub phase: StopPhase,
    pub message: String,
}

/// The code recorded for a worker that gave none, or could not be waited on.
pub const FALLBACK_EXIT_CODE: i32 = 1;

/// The decimal digits, by value.
pub open spec fn digit_chars() -> Seq<char> {
    seq!['0', '1', '2', '3', '4', '5', '6', '7', '8', '9']
}

/// The decimal digits of `n`, most significant first, without leading zeros.
pub open spec fn nat_digits(n: nat) -> Seq<char>
    decreases n,
{
    if n < 10 {
        seq![digit_chars()[n as int]]
    } else {
        nat_digits(n / 10).push(digit_chars()[(n % 10) as int])
    }
}

/// The decimal text of `n`, with a leading minus sign when negative.
pub open spec fn decimal_of(n: int) -> Seq<char> {
    if n < 0 {
        seq!['-'] + nat_digits((-n) as nat)
    } else {
        nat_digits(n as nat)
    }
}

/// The name of a phase in the stop-signal file.
pub open spec fn phase_text(p: StopPhase) -> Seq<char> {
    match p {
        StopPhase::Completed => seq!['c', 'o', 'm', 'p', 'l', 'e', 't', 'e', 'd'],
        StopPhase::Failed => seq!['f', 'a', 'i', 'l', 'e', 'd'],
    }
}

/// What precedes the exit code in the message of a failed worker.
pub open spec fn exit_code_prefix() -> Seq<char> {
    seq!['r', 'u', 'n', 'n', 'e', 'r', '_', 'e', 'x', 'i', 't', '_', 'c', 'o', 'd', 'e', '=']
}

/// The message for a worker that could not be waited on.
pub open spec fn wait_failed_text() -> Seq<char> {
    seq!['r', 'u', 'n', 'n', 'e', 'r', '_', 'w', 'a', 'i', 't', '_', 'f', 'a', 'i', 'l', 'e', 'd']
}

/// The exit codes that the worker uses for a clean stop: success, and a stop
/// that was asked for.
pub open spec fn is_clean_stop(code: i32) -> bool {
    code == 0 || code == 2
}

/// The code that the registry records for how the worker ended.
pub open spec fn recorded_code_of(e: WorkerExit) -> i32 {
    match e {
        WorkerExit::Exited(Some(code)) => code,
        _ => FALLBACK_EXIT_CODE,
    }
}

/// The phase that the watcher is told for how the worker ended.
pub open spec fn phase_of(e: WorkerExit) -> StopPhase {
    match e {
        WorkerExit::WaitFailed => StopPhase::Failed,
        _ => if is_clean_stop(recorded_code_of(e)) {
            StopPhase::Completed
        } else {
            StopPhase::Failed
        },
    }
}

/// The message that goes with the phase: none after a clean stop.
pub open spec fn message_of(e: WorkerExit) -> Seq<char> {
    match e {
        WorkerExit::WaitFailed => wait_failed_text(),
        _ => if is_clean_stop(recorded_code_of(e)) {
            Seq::empty()
        } else {
            exit_code_prefix() + decimal_of(recorded_code_of(e) as int)
        },
    }
}

/// The characters that `char::is_whitespace` accepts: those with the Unicode
/// property White_Space.
pub open spec fn is_white(c: char) -> bool {
    ||| ('\t' <= c && c <= '\r')
    ||| c == ' '
    ||| c == '\u{85}'
    ||| c == '\u{a0}'
    ||| c == '\u{1680}'
    ||| ('\u{2000}' <= c && c <= '\u{200a}')
    ||| c == '\u{2028}'
    ||| c == '\u{2029}'
    ||| c == '\u{202f}'
    ||| c == '\u{205f}'
    ||| c == '\u{3000}'
}

/// A text with nothing but white space in it.
pub open spec fn is_blank(s: Seq<char>) -> bool {
    forall|i: int| 0 <= i < s.len() ==> is_white(#[trigger] s[i])
}

/// The file's content: the phase alone when the message is blank, else the
/// phase and the message joined by `|`.
pub open spec fn payload_of(phase: Seq<char>, message: Seq<char>) -> Seq<char> {
    if is_blank(message) {
        phase
    } else {
        phase + seq!['|'] + message
    }
}

/// Whether `c` is white space.
pub fn white_char_of(c: char) -> (r: bool)
    ensures
        r == is_white(c),
{
    ('\t' <= c && c <= '\r') || c == ' ' || c == '\u{85}' || c == '\u{a0}' || c == '\u{1680}'
        || ('\u{2000}' <= c && c <= '\u{200a}') || c == '\u{2028}' || c == '\u{2029}'
        || c == '\u{202f}' || c == '\u{205f}' || c == '\u{3000}'
}

/// Whether `s` holds white space alone (the empty text included).
pub fn blank(s: &str) -> (r: bool)
    ensures
        r == is_blank(s@),
{
    let n = s.unicode_len();
    let mut i: usize = 0;
    while i < n
        invariant
            n == s@.len(),
            i <= n,
            forall|j: int| 0 <= j < i ==> is_white(#[trigger] s@[j]),
        decreases n - i,
    {
        if !white_char_of(s.get_char(i)) {
            return false;
        }
        i = i + 1;
    }
    true
}

/// Appends the decimal digits of `n` to `out`.
pub fn push_digits(n: u64, out: &mut String)
    ensures
        final(out)@ == old(out)@ + nat_digits(n as nat),
    decreases n,
{
    let d = n % 10;
    if n >= 10 {
        push_digits(n / 10, out);
    }
    proof {
        reveal_strlit("0123456789");
    }
    let digit = "0123456789".substring_char(d as usize, d as usize + 1);
    assert(digit@ =~= seq![digit_chars()[d as int]]);
    out.append(digit);
    proof {
        if n >= 10 {
            assert(n as nat / 10 == (n / 10) as nat);
        }
    }
    assert(final(out)@ =~= old(out)@ + nat_digits(n as nat));
}

/// The decimal text of `n`.
pub fn decimal_text(n: i32) -> (r: String)
    ensures
        r@ == decimal_of(n as int),
{
    let mut out = String::new();
    if n < 0 {
        out.append("-");
        let magnitude: u64 = (-(n as i64)) as u64;
        push_digits(magnitude, &mut out);
        proof {
            reveal_strlit("-");
        }
        assert(out@ =~= decimal_of(n as int));
    } else {
        push_digits(n as u64, &mut out);
        assert(out@ =~= decimal_of(n as int));
    }
    out
}

/// The text that names `phase` in the stop-signal file.
pub fn phase_name(phase: StopPhase) -> (r: &'static str)
    ensures
        r@ == phase_text(phase),
{
    match phase {
        StopPhase::Completed => {
            proof {
                reveal_strlit("completed");
            }
            "completed"
        },
        StopPhase::Failed => {
            proof {
                reveal_strlit("failed");
            }
            "failed"
        },
    }
}

/// The exit code that the registry records for how the worker ended: the
/// worker's own code, or the fallback where it gave none or could not be
/// waited on.
pub fn recorded_exit_code(exit: WorkerExit) -> (r: i32)
    ensures
        r == recorded_code_of(exit),
{
    match exit {
        WorkerExit::Exited(Some(code)) => code,
        _ => FALLBACK_EXIT_CODE,
    }
}

/// The stop signal that tells the watcher how the worker ended: completed
/// for a clean stop; else failed, with the exit code, or with the note that
/// the wait failed.
pub fn stop_signal_for(exit: WorkerExit) -> (r: StopSignal)
    ensures
        r.phase == phase_of(exit),
        r.message@ == message_of(exit),
{
    match exit {
        WorkerExit::WaitFailed => {
            proof {
                reveal_strlit("runner_wait_failed");
            }
            StopSignal { phase: StopPhase::Failed, message: String::from_str("runner_wait_failed") }
        },
        WorkerExit::Exited(_) => {
            let code = recorded_exit_code(exit);
            if code == 0 || code == 2 {
                StopSignal { phase: StopPhase::Completed, message: String::new() }
            } else {
                proof {
                    reveal_strlit("runner_exit_code=");
                }
                let mut message = String::from_str("runner_exit_code=");
                let digits = decimal_text(code);
                message.append(digits.as_str());
                StopSignal { phase: StopPhase::Failed, message }
            }
        },
    }
}

/// The content of the stop-signal file for `phase` and `message`.
pub fn stop_signal_payload(phase: &str, message: &str) -> (r: String)
    ensures
        r@ == payload_of(phase@, message@),
{
    let mut out = String::from_str(phase);
    if !blank(message) {
        proof {
            reveal_strlit("|");
        }
        out.append("|");
        out.append(message);
    }
    out
}

impl StopSignal {
    /// The content of the stop-signal file that carries this signal.
    pub fn encode(&self) -> (r: String)
        ensures
            r@ == payload_of(phase_text(self.phase), self.message@),
    {
        stop_signal_payload(phase_name(self.phase), self.message.as_str())
    }
}

} // verus!
