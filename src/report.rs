//! Text that a session writes: elapsed times, output file paths, the test
//! tool's arguments, and the checks on command-line values.
use vstd::prelude::*;
use vstd::string::*;
use crate::text::{decimal, digit_char, int_value, parse_int, push_decimal};

verus! {

/// `secs` in hundredths of `unit` seconds, rounded half up.
pub open spec fn hundredths(secs: nat, unit: nat) -> nat {
    ((secs * 200 + unit) / (2 * unit)) as nat
}

/// A count of hundredths written with two decimals.
pub open spec fn fixed2(h: nat) -> Seq<char> {
    decimal(h / 100) + seq!['.', digit_char((h % 100) / 10), digit_char(h % 10)]
}

/// A duration written in seconds under a minute, in minutes under an hour,
/// and in hours from there on, with two decimals.
pub open spec fn elapsed_text(secs: nat) -> Seq<char> {
    if secs < 60 {
        fixed2(hundredths(secs, 1)) + seq!['s']
    } else if secs < 3600 {
        fixed2(hundredths(secs, 60)) + seq!['m']
    } else {
        fixed2(hundredths(secs, 3600)) + seq!['h']
    }
}

/// Writes a duration of `secs` seconds: `45.00s`, `2.08m`, `2.00h`.
pub fn time_to_string(secs: u64) -> (r: String)
    ensures
        r@ == elapsed_text(secs as nat),
{
    let (unit, suffix): (u128, &str) = if secs < 60 {
        (1, "s")
    } else if secs < 3600 {
        (60, "m")
    } else {
        (3600, "h")
    };
    proof {
        reveal_strlit("s");
        reveal_strlit("m");
        reveal_strlit("h");
        reveal_strlit(".");
    }
    let h: u128 = (secs as u128 * 200 + unit) / (2 * unit);
    let mut r = String::new();
    push_decimal(&mut r, h / 100);
    r.append(".");
    push_decimal(&mut r, (h % 100) / 10);
    push_decimal(&mut r, h % 10);
    r.append(suffix);
    proof {
        assert(decimal(((h % 100) / 10) as nat) == seq![digit_char(((h % 100) / 10) as nat)]);
        assert(decimal((h % 10) as nat) == seq![digit_char((h % 10) as nat)]);
        assert(suffix@ == seq![if secs < 60 { 's' } else if secs < 3600 { 'm' } else { 'h' }]);
    }
    assert(r@ =~= elapsed_text(secs as nat));
    r
}

/// The path of the file that keeps the output of test number `n`.
pub open spec fn output_path_text(out_dir: Seq<char>, n: nat, test: Seq<char>, ip: Seq<char>) -> Seq<char> {
    out_dir + "/test_no_"@ + decimal(n) + "__"@ + test + "__"@ + ip
}

/// The path `<out_dir>/test_no_<n>__<test>__<ip>` of the file that keeps the
/// output of test number `n`.
pub fn output_path(out_dir: &str, n: u64, test: &str, ip: &str) -> (r: String)
    ensures
        r@ == output_path_text(out_dir@, n as nat, test@, ip@),
{
    let mut r = String::from_str(out_dir);
    r.append("/test_no_");
    push_decimal(&mut r, n as u128);
    r.append("__");
    r.append(test);
    r.append("__");
    r.append(ip);
    assert(r@ =~= output_path_text(out_dir@, n as nat, test@, ip@));
    r
}

/// The arguments with which the test tool runs `test` on the device at `ip`:
/// `--board=<board>`, `--autotest_dir=<dir>`, the address, the test name.
pub fn run_test(board: &str, autotest_dir: &str, ip: &str, test: &str) -> (r: Vec<String>)
    ensures
        r@.len() == 4,
        r@[0]@ == "--board="@ + board@,
        r@[1]@ == "--autotest_dir="@ + autotest_dir@,
        r@[2]@ == ip@,
        r@[3]@ == test@,
{
    let mut b = String::from_str("--board=");
    b.append(board);
    let mut d = String::from_str("--autotest_dir=");
    d.append(autotest_dir);
    let mut r: Vec<String> = Vec::new();
    r.push(b);
    r.push(d);
    r.push(String::from_str(ip));
    r.push(String::from_str(test));
    r
}

/// Whether a command-line value is a battery percentage.
pub open spec fn is_percent_text(s: Seq<char>) -> bool {
    int_value(s) matches Some(n) && 0 <= n <= 100
}

/// Accepts an integer from 0 to 100.
pub fn battery_validator(arg: String) -> (r: Result<(), String>)
    ensures
        r is Ok <==> is_percent_text(arg@),
        r matches Err(e) ==> e@ == "not an integer between 0 and 100"@,
{
    let err_msg = String::from_str("not an integer between 0 and 100");
    match parse_int(arg.as_str()) {
        None => Err(err_msg),
        Some(n) => if n > 100 || n < 0 {
            Err(err_msg)
        } else {
            Ok(())
        },
    }
}

/// Accepts a path that was found to exist.
pub fn path_validator(exists: bool) -> (r: Result<(), String>)
    ensures
        r is Ok <==> exists,
        r matches Err(e) ==> e@ == "invalid path"@,
{
    if exists {
        Ok(())
    } else {
        Err(String::from_str("invalid path"))
    }
}

} // verus!
