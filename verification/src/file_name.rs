//! Names for event files.
//!
//! TensorBoard takes any file whose name contains `tfevents` for an event
//! file. The rest of the name makes it unique and tells where the file came
//! from: when it was created, on which host, by which process, and as which
//! of the files of that process.

use vstd::prelude::*;
use vstd::string::*;
use std::time::SystemTime;
use crate::clock::{creation_seconds, seconds_since_epoch};

verus! {

/// The width to which the creation time is padded with zeros.
pub const TIME_WIDTH: usize = 10;

/// The character for a single decimal digit.
pub open spec fn digit(d: nat) -> char
    recommends
        d < 10,
{
    if d == 0 {
        '0'
    } else if d == 1 {
        '1'
    } else if d == 2 {
        '2'
    } else if d == 3 {
        '3'
    } else if d == 4 {
        '4'
    } else if d == 5 {
        '5'
    } else if d == 6 {
        '6'
    } else if d == 7 {
        '7'
    } else if d == 8 {
        '8'
    } else {
        '9'
    }
}

/// A number in decimal, without leading zeros.
pub open spec fn decimal(n: nat) -> Seq<char>
    decreases n,
{
    if n < 10 {
        seq![digit(n)]
    } else {
        decimal(n / 10).push(digit(n % 10))
    }
}

/// A number in decimal, with zeros in front to make it at least `width`
/// characters long.
pub open spec fn zero_padded(n: nat, width: nat) -> Seq<char> {
    let digits = decimal(n);
    if digits.len() < width {
        Seq::new((width - digits.len()) as nat, |i: int| '0') + digits
    } else {
        digits
    }
}

/// The name of an event file created `now` seconds after the Unix epoch on
/// the host `hostname`, as file number `uid` of the process `pid`.
pub open spec fn file_name(now: u64, hostname: Seq<char>, pid: u32, uid: u64) -> Seq<char> {
    "events.out.tfevents."@ + zero_padded(now as nat, TIME_WIDTH as nat) + "."@ + hostname + "."@
        + decimal(pid as nat) + "."@ + decimal(uid as nat)
}

fn digit_str(d: u64) -> (s: &'static str)
    requires
        d < 10,
    ensures
        s@ == seq![digit(d as nat)],
{
    proof {
        reveal_strlit("0");
        reveal_strlit("1");
        reveal_strlit("2");
        reveal_strlit("3");
        reveal_strlit("4");
        reveal_strlit("5");
        reveal_strlit("6");
        reveal_strlit("7");
        reveal_strlit("8");
        reveal_strlit("9");
    }
    let s = if d == 0 {
        "0"
    } else if d == 1 {
        "1"
    } else if d == 2 {
        "2"
    } else if d == 3 {
        "3"
    } else if d == 4 {
        "4"
    } else if d == 5 {
        "5"
    } else if d == 6 {
        "6"
    } else if d == 7 {
        "7"
    } else if d == 8 {
        "8"
    } else {
        "9"
    };
    assert(s@ =~= seq![digit(d as nat)]);
    s
}

/// Appends `n` in decimal to `text` and returns the number of digits.
fn push_decimal(text: &mut String, n: u64) -> (digits: usize)
    ensures
        final(text)@ == old(text)@ + decimal(n as nat),
        digits == decimal(n as nat).len(),
        1 <= digits <= 20,
    decreases n,
{
    if n < 10 {
        text.append(digit_str(n));
        1
    } else {
        let digits = push_decimal(text, n / 10);
        text.append(digit_str(n % 10));
        assert(text@ =~= old(text)@ + decimal(n as nat));
        proof {
            lemma_decimal_len(n as nat);
        }
        digits + 1
    }
}

/// A number below 2^64 has at most twenty digits.
proof fn lemma_decimal_len(n: nat)
    ensures
        n < 10 ==> decimal(n).len() == 1,
        n < 10_000_000_000_000_000_000 ==> decimal(n).len() <= 19,
        n <= u64::MAX ==> decimal(n).len() <= 20,
{
    reveal_with_fuel(decimal, 21);
}

/// Writes `n` in decimal, without leading zeros.
pub fn decimal_string(n: u64) -> (text: String)
    ensures
        text@ == decimal(n as nat),
{
    let mut text = String::new();
    push_decimal(&mut text, n);
    assert(text@ =~= decimal(n as nat));
    text
}

/// Creates the name of an event file from what makes it unique: the time of
/// its creation in seconds since the Unix epoch, the name of the host, the
/// ID of the process, and a number that the process uses only once.
pub fn event_file_name(now: u64, hostname: &str, pid: u32, uid: u64) -> (name: String)
    ensures
        name@ == file_name(now, hostname@, pid, uid),
{
    let mut stamp = String::new();
    let digits = push_decimal(&mut stamp, now);
    let mut name = String::from_str("events.out.tfevents.");
    let mut missing: usize = if digits < TIME_WIDTH {
        TIME_WIDTH - digits
    } else {
        0
    };
    let ghost zeros = missing;
    let ghost prefix = name@;
    proof {
        reveal_strlit("0");
    }
    while missing > 0
        invariant
            missing <= zeros,
            "0"@ == seq!['0'],
            name@ == prefix + Seq::new((zeros - missing) as nat, |i: int| '0'),
        decreases missing,
    {
        name.append("0");
        missing -= 1;
        assert(name@ =~= prefix + Seq::new((zeros - missing) as nat, |i: int| '0'));
    }
    name.append(stamp.as_str());
    name.append(".");
    name.append(hostname);
    name.append(".");
    push_decimal(&mut name, pid as u64);
    name.append(".");
    push_decimal(&mut name, uid);
    assert(name@ =~= file_name(now, hostname@, pid, uid));
    name
}

/// The name of this host by `hostname::get`, or `None` if the system does
/// not tell. Bytes of the name that are not UTF-8 are replaced.
#[verifier::external_body]
fn host_name() -> (name: Option<String>) {
    match hostname::get() {
        Ok(name) => Some(name.to_string_lossy().into_owned()),
        Err(_) => None,
    }
}

/// Creates the name of a new event file of the process `pid`, its file
/// number `uid`. This reads the system clock and asks for the host name. A
/// clock that stands before the Unix epoch counts as zero, and a host name
/// that cannot be had as the empty name.
pub fn fresh_event_file_name(pid: u32, uid: u64) -> (name: String)
    ensures
        exists|now: SystemTime, hostname: Seq<char>|
            name@ == #[trigger] file_name(creation_seconds(now), hostname, pid, uid),
{
    let now = seconds_since_epoch();
    let hostname = match host_name() {
        Some(name) => name,
        None => String::new(),
    };
    event_file_name(now, hostname.as_str(), pid, uid)
}

} // verus!
