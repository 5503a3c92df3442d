//! Rendering of check results into the health endpoint's response body:
//! one line per check, `<name>: <status> (<latency>ms)[ - <detail>]`, each
//! line terminated by a newline; an empty result set renders as "no checks".

use vstd::prelude::*;
use vstd::string::StringExecFns;
use crate::status::{CheckResult, CheckStatus};

verus! {

/// The character for one decimal digit.
pub open spec fn spec_digit_char(d: nat) -> char {
    if d == 0 {
        '0'
    } else if d == 1 {
        '1'
    } else if d == 2 {
        '2'
    } else if d == 3 {
        '3'
    } else if d == 4 {
        '4'
    } else if d == 5 {
        '5'
    } else if d == 6 {
        '6'
    } else if d == 7 {
        '7'
    } else if d == 8 {
        '8'
    } else {
        '9'
    }
}

/// The decimal digits of a number, most significant first, no leading
/// zeros (a single '0' for zero).
pub open spec fn spec_decimal(n: nat) -> Seq<char>
    decreases n,
{
    if n < 10 {
        seq![spec_digit_char(n)]
    } else {
        spec_decimal(n / 10).push(spec_digit_char(n % 10))
    }
}

/// The label a status is rendered as.
pub open spec fn spec_status_label(s: CheckStatus) -> Seq<char> {
    match s {
        CheckStatus::Healthy => "Healthy"@,
        CheckStatus::Unhealthy => "Unhealthy"@,
        CheckStatus::TimedOut => "TimedOut"@,
    }
}

/// The summary line of one check result.
pub open spec fn spec_line(r: CheckResult) -> Seq<char> {
    r.name@ + ": "@ + spec_status_label(r.status) + " ("@ + spec_decimal(r.latency_ms as nat)
        + "ms)"@ + (match r.detail {
        Some(d) => " - "@ + d@,
        None => Seq::<char>::empty(),
    })
}

/// All summary lines in order, each terminated by a newline.
pub open spec fn spec_lines(rs: Seq<CheckResult>) -> Seq<char>
    decreases rs.len(),
{
    if rs.len() == 0 {
        Seq::<char>::empty()
    } else {
        spec_lines(rs.drop_last()) + spec_line(rs.last()) + "\n"@
    }
}

/// The whole response body for a result set.
pub open spec fn spec_body(rs: Seq<CheckResult>) -> Seq<char> {
    if rs.len() == 0 {
        "no checks"@
    } else {
        spec_lines(rs)
    }
}

/// The one-character string for a decimal digit.
fn digit_label(d: u64) -> (r: &'static str)
    requires
        d < 10,
    ensures
        r@ == seq![spec_digit_char(d as nat)],
{
    proof {
        reveal_strlit("0");
        reveal_strlit("1");
        reveal_strlit("2");
        reveal_strlit("3");
        reveal_strlit("4");
        reveal_strlit("5");
        reveal_strlit("6");
        reveal_strlit("7");
        reveal_strlit("8");
        reveal_strlit("9");
    }
    let r: &'static str = if d == 0 {
        "0"
    } else if d == 1 {
        "1"
    } else if d == 2 {
        "2"
    } else if d == 3 {
        "3"
    } else if d == 4 {
        "4"
    } else if d == 5 {
        "5"
    } else if d == 6 {
        "6"
    } else if d == 7 {
        "7"
    } else if d == 8 {
        "8"
    } else {
        "9"
    };
    proof {
        assert(r@ =~= seq![spec_digit_char(d as nat)]);
    }
    r
}

/// A number in decimal notation.
pub fn u64_to_string(n: u64) -> (s: String)
    ensures
        s@ == spec_decimal(n as nat),
    decreases n,
{
    if n < 10 {
        digit_label(n).to_owned()
    } else {
        let mut s = u64_to_string(n / 10);
        s.append(digit_label(n % 10));
        proof {
            assert(s@ =~= spec_decimal(n as nat));
        }
        s
    }
}

/// The label a status is rendered as.
pub fn status_label(s: CheckStatus) -> (r: &'static str)
    ensures
        r@ == spec_status_label(s),
{
    match s {
        CheckStatus::Healthy => "Healthy",
        CheckStatus::Unhealthy => "Unhealthy",
        CheckStatus::TimedOut => "TimedOut",
    }
}

/// Render the summary line of one check result.
pub fn render_line(r: &CheckResult) -> (s: String)
    ensures
        s@ == spec_line(*r),
{
    let mut s = r.name.clone();
    s.append(": ");
    s.append(status_label(r.status));
    s.append(" (");
    let digits = u64_to_string(r.latency_ms);
    s.append(digits.as_str());
    s.append("ms)");
    match &r.detail {
        Some(d) => {
            s.append(" - ");
            s.append(d.as_str());
        },
        None => {},
    }
    proof {
        assert(s@ =~= spec_line(*r));
    }
    s
}

/// Render the whole response body, one line per result in order.
pub fn render_body(results: &Vec<CheckResult>) -> (s: String)
    ensures
        s@ == spec_body(results@),
{
    let n: usize = results.len();
    if n == 0 {
        return "no checks".to_owned();
    }
    let mut s = String::new();
    let mut i: usize = 0;
    while i < n
        invariant
            n == results@.len(),
            i <= n,
            s@ == spec_lines(results@.take(i as int)),
        decreases n - i,
    {
        let line = render_line(&results[i]);
        s.append(line.as_str());
        s.append("\n");
        proof {
            let pre = results@.take(i as int + 1);
            assert(pre.drop_last() =~= results@.take(i as int));
            assert(pre.last() == results@[i as int]);
            assert(s@ =~= spec_lines(pre));
        }
        i = i + 1;
    }
    proof {
        assert(results@.take(n as int) =~= results@);
    }
    s
}

} // verus!
