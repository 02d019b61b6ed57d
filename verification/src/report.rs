//! Rendering of the liveness report: one line per tracked process in the
//! form `name(id) -- alive: <bool>`, framed by a header delimiter and a
//! trailing blank line. The lines are built here as plain strings; emitting
//! them to the observability sink is the runtime's choice.

use vstd::prelude::*;
use vstd::string::StringExecFns;

use crate::liveness::ProcessStatus;

verus! {

/// The character for one decimal digit value.
pub open spec fn decimal_digit(d: nat) -> char {
    if d == 0 {
        '0'
    } else if d == 1 {
        '1'
    } else if d == 2 {
        '2'
    } else if d == 3 {
        '3'
    } else if d == 4 {
        '4'
    } else if d == 5 {
        '5'
    } else if d == 6 {
        '6'
    } else if d == 7 {
        '7'
    } else if d == 8 {
        '8'
    } else {
        '9'
    }
}

/// The decimal rendering of a natural number: no sign, no leading zeros,
/// most significant digit first.
pub open spec fn decimal_of(n: nat) -> Seq<char>
    decreases n,
{
    if n < 10 {
        seq![decimal_digit(n)]
    } else {
        decimal_of(n / 10).push(decimal_digit(n % 10))
    }
}

/// The text std prints for a bool.
pub open spec fn bool_text(b: bool) -> Seq<char> {
    if b {
        "true"@
    } else {
        "false"@
    }
}

/// One report line for a tracked process.
pub open spec fn status_line_of(name: Seq<char>, id: nat, alive: bool) -> Seq<char> {
    name + "("@ + decimal_of(id) + ") -- alive: "@ + bool_text(alive)
}

/// Relies on u32's std Display implementation, through `format!`: an
/// unsigned integer is rendered as its decimal digits, without sign,
/// padding or leading zeros.
#[verifier::external_body]
fn u32_decimal(n: u32) -> (r: String)
    ensures
        r@ == decimal_of(n as nat),
{
    format!("{}", n)
}

/// Builds the report line for one assessed process.
pub fn render_status_line(status: &ProcessStatus) -> (r: String)
    ensures
        r@ == status_line_of(status.process@.name, status.process@.id as nat, status.alive),
{
    let mut line = status.process.name.clone();
    line.append("(");
    let digits = u32_decimal(status.process.id);
    line.append(digits.as_str());
    line.append(") -- alive: ");
    if status.alive {
        line.append("true");
    } else {
        line.append("false");
    }
    line
}

/// Builds the full report for one poll cycle: the `--` header, one line per
/// assessed process in registry order, and a trailing blank line.
pub fn render_report(status: &Vec<ProcessStatus>) -> (r: Vec<String>)
    ensures
        r@.len() == status@.len() + 2,
        r@[0]@ == "--"@,
        r@[r@.len() - 1]@ == Seq::<char>::empty(),
        forall|i: int|
            0 <= i < status@.len() ==> r@[i + 1]@ == status_line_of(
                status@[i].process@.name,
                status@[i].process@.id as nat,
                status@[i].alive,
            ),
{
    let mut out: Vec<String> = Vec::new();
    out.push(String::from_str("--"));
    let mut i: usize = 0;
    while i < status.len()
        invariant
            i <= status@.len(),
            out@.len() == i + 1,
            out@[0]@ == "--"@,
            forall|j: int|
                0 <= j < i ==> out@[j + 1]@ == status_line_of(
                    status@[j].process@.name,
                    status@[j].process@.id as nat,
                    status@[j].alive,
                ),
        decreases status@.len() - i,
    {
        out.push(render_status_line(&status[i]));
        i = i + 1;
    }
    out.push(String::new());
    out
}

} // verus!
