//! Names of the rotated log files and the texts shown after a crash.
use vstd::prelude::*;

verus! {

/// How many old logs are kept beside the current one.
pub const MAX_ROTATED_LOGS: u32 = 3u32;

/// The character of a decimal digit.
pub open spec fn digit_char(d: nat) -> char {
    if d == 0 {
        '0'
    } else if d == 1 {
        '1'
    } else if d == 2 {
        '2'
    } else if d == 3 {
        '3'
    } else if d == 4 {
        '4'
    } else if d == 5 {
        '5'
    } else if d == 6 {
        '6'
    } else if d == 7 {
        '7'
    } else if d == 8 {
        '8'
    } else {
        '9'
    }
}

/// The decimal notation of `n`, without leading zeros.
pub open spec fn decimal_text(n: nat) -> Seq<char>
    decreases n,
{
    if n < 10 {
        seq![digit_char(n)]
    } else {
        decimal_text(n / 10) + seq![digit_char(n % 10)]
    }
}

fn digit_str(d: u32) -> (r: &'static str)
    requires
        d < 10,
    ensures
        r@ == seq![digit_char(d as nat)],
{
    proof {
        reveal_strlit("0");
        reveal_strlit("1");
        reveal_strlit("2");
        reveal_strlit("3");
        reveal_strlit("4");
        reveal_strlit("5");
        reveal_strlit("6");
        reveal_strlit("7");
        reveal_strlit("8");
        reveal_strlit("9");
    }
    if d == 0 {
        "0"
    } else if d == 1 {
        "1"
    } else if d == 2 {
        "2"
    } else if d == 3 {
        "3"
    } else if d == 4 {
        "4"
    } else if d == 5 {
        "5"
    } else if d == 6 {
        "6"
    } else if d == 7 {
        "7"
    } else if d == 8 {
        "8"
    } else {
        "9"
    }
}

/// The decimal notation of `n`.
pub fn decimal(n: u32) -> (r: String)
    ensures
        r@ == decimal_text(n as nat),
    decreases n,
{
    if n < 10 {
        String::from_str(digit_str(n))
    } else {
        let high = decimal(n / 10);
        high.concat(digit_str(n % 10))
    }
}

/// The file name of log number `n`: the current log is `app.log`, older
/// ones are `app.log.1`, `app.log.2`, ...
pub open spec fn log_file_text(n: nat) -> Seq<char> {
    if n == 0 {
        "app.log"@
    } else {
        "app.log."@ + decimal_text(n)
    }
}

/// The file name of log number `n` (see `log_file_text`).
pub fn log_file_name(n: u32) -> (r: String)
    ensures
        r@ == log_file_text(n as nat),
{
    if n == 0 {
        String::from_str("app.log")
    } else {
        String::from_str("app.log.").concat(decimal(n).as_str())
    }
}

/// The renames that rotate the logs once the oldest (number `max`) is
/// removed: `max - 1` becomes `max`, ..., `0` becomes `1` (none for `max == 0`). Each rename
/// targets the oldest name or a name that an earlier rename has freed, so
/// no kept log is overwritten.
pub fn rotation_steps(max: u32) -> (r: Vec<(u32, u32)>)
    ensures
        r@.len() == max,
        forall|k: int| 0 <= k < r@.len() ==> #[trigger] r@[k] == (
            (max - 1 - k) as u32,
            (max - k) as u32,
        ),
        max > 0 ==> r@[0].1 == max,
        forall|k: int| 0 < k < r@.len() ==> #[trigger] r@[k].1 == r@[k - 1].0,
{
    let mut r: Vec<(u32, u32)> = Vec::new();
    let mut n: u32 = max;
    while n > 0
        invariant
            n <= max,
            r@.len() == max - n,
            forall|k: int| 0 <= k < r@.len() ==> #[trigger] r@[k] == (
                (max - 1 - k) as u32,
                (max - k) as u32,
            ),
        decreases n,
    {
        r.push((n - 1, n));
        n -= 1;
    }
    r
}

/// The first line of the crash dialog.
pub open spec fn crash_intro() -> Seq<char> {
    "The application crashed unexpectedly and needs to close.\n\n"@
}

/// The last line of the crash dialog.
pub open spec fn crash_outro() -> Seq<char> {
    "\n\nA log file has been saved and may help diagnose the issue."@
}

/// The text of the crash dialog around the panic message.
pub fn crash_notice(message: &str) -> (r: String)
    ensures
        r@ == crash_intro() + message@ + crash_outro(),
{
    String::from_str("The application crashed unexpectedly and needs to close.\n\n").concat(
        message,
    ).concat("\n\nA log file has been saved and may help diagnose the issue.")
}

/// Where a panic happened: `file:line`, or a fixed text when unknown.
pub fn panic_location_text(location: Option<(&str, u32)>) -> (r: String)
    ensures
        location matches Some((file, line)) ==> r@ == file@ + ":"@ + decimal_text(line as nat),
        location is None ==> r@ == "unknown location"@,
{
    match location {
        Some((file, line)) => String::from_str(file).concat(":").concat(decimal(line).as_str()),
        None => String::from_str("unknown location"),
    }
}

/// The panic message, or a fixed text when the payload held none.
pub fn panic_message_text(payload: Option<String>) -> (r: String)
    ensures
        payload matches Some(m) ==> r@ == m@,
        payload is None ==> r@ == "no panic message available"@,
{
    match payload {
        Some(m) => m,
        None => String::from_str("no panic message available"),
    }
}

} // verus!
