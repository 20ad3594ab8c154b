//! Verification-matrix gate results and their compact JSON rendering.

use vstd::prelude::*;
use crate::bytes::{concat_items, push_str, txt};

verus! {

/// One verification-matrix gate result; the measured value arrives printed.
#[derive(Clone, Copy, Debug)]
pub struct GateResult<'a> {
    pub id: &'a str,
    pub domain: &'a str,
    pub metric: &'a str,
    pub limit: &'a str,
    pub measured: &'a str,
    pub passed: bool,
}

/// ASCII decimal digit.
pub open spec fn is_digit(b: u8) -> bool {
    48 <= b <= 57
}

/// End of the run of digits in `s` that starts at `i`.
pub open spec fn digits_end(s: Seq<u8>, i: int) -> int
    decreases s.len() - i,
{
    if 0 <= i < s.len() && is_digit(s[i]) {
        digits_end(s, i + 1)
    } else {
        i
    }
}

/// End of an optional fraction `.digits` at `i`; -1 when a `.` has no digits.
pub open spec fn fraction_end(s: Seq<u8>, i: int) -> int {
    if 0 <= i < s.len() && s[i] == 46u8 {
        if digits_end(s, i + 1) > i + 1 { digits_end(s, i + 1) } else { -1 }
    } else {
        i
    }
}

/// Start of the exponent digits after `e`/`E` at `i`, past an optional sign.
pub open spec fn exponent_digits(s: Seq<u8>, i: int) -> int {
    if i + 1 < s.len() && (s[i + 1] == 43u8 || s[i + 1] == 45u8) { i + 2 } else { i + 1 }
}

/// End of an optional exponent `(e|E)[+|-]digits` at `i`; -1 when it has no digits.
pub open spec fn exponent_end(s: Seq<u8>, i: int) -> int {
    if 0 <= i < s.len() && (s[i] == 101u8 || s[i] == 69u8) {
        if digits_end(s, exponent_digits(s, i)) > exponent_digits(s, i) {
            digits_end(s, exponent_digits(s, i))
        } else {
            -1
        }
    } else {
        i
    }
}

/// `s` is a JSON number: `-?(0|[1-9][0-9]*)(.[0-9]+)?([eE][+-]?[0-9]+)?`.
#[verifier::opaque]
pub open spec fn is_json_number(s: Seq<u8>) -> bool {
    let a: int = if s.len() > 0 && s[0] == 45u8 { 1 } else { 0 };
    let b = digits_end(s, a);
    let c = fraction_end(s, b);
    &&& b > a
    &&& (s[a] == 48u8 ==> b == a + 1)
    &&& c >= 0
    &&& exponent_end(s, c) == s.len()
}

/// The measured value as emitted: its text when that is a JSON number,
/// `null` otherwise (such as `NaN` or `inf`).
pub open spec fn measured_json(m: Seq<u8>) -> Seq<u8> {
    if is_json_number(m) { m } else { txt("null") }
}

/// JSON object of one gate (the text fields are emitted verbatim, unescaped).
pub open spec fn gate_json(g: GateResult) -> Seq<u8> {
    txt("{\"id\":\"") + txt(g.id) + txt("\",\"domain\":\"") + txt(g.domain) + txt("\",\"metric\":\"") + txt(g.metric)
        + txt("\",\"limit\":\"") + txt(g.limit) + txt("\",\"measured\":") + measured_json(txt(g.measured)) + txt(",\"passed\":")
        + (if g.passed { txt("true") } else { txt("false") }) + txt("}")
}

/// The `i`-th array element, preceded by a comma unless it is the first.
pub open spec fn gate_item(gs: Seq<GateResult>, i: nat) -> Seq<u8> {
    (if i == 0 { seq![] } else { txt(",") }) + gate_json(gs[i as int])
}

/// All gates, comma-separated between square brackets.
pub open spec fn gates_json(gs: Seq<GateResult>) -> Seq<u8> {
    txt("[") + concat_items(gs.len(), |i: nat| gate_item(gs, i)) + txt("]")
}

fn scan_digits(s: &[u8], i: usize) -> (r: usize)
    requires
        i <= s@.len(),
    ensures
        r == digits_end(s@, i as int),
{
    let mut j = i;
    while j < s.len() && 48 <= s[j] && s[j] <= 57
        invariant
            i <= j <= s@.len(),
            digits_end(s@, i as int) == digits_end(s@, j as int),
        decreases s@.len() - j,
    {
        j = j + 1;
    }
    j
}

/// True when `s` is a JSON number.
pub fn json_number(s: &[u8]) -> (r: bool)
    ensures
        r == is_json_number(s@),
{
    reveal(is_json_number);
    let n = s.len();
    let a: usize = if n > 0 && s[0] == 45u8 { 1 } else { 0 };
    let b = scan_digits(s, a);
    if b <= a {
        return false;
    }
    if s[a] == 48u8 && b != a + 1 {
        return false;
    }
    let c = if b < n && s[b] == 46u8 {
        let d = scan_digits(s, b + 1);
        if d <= b + 1 {
            return false;
        }
        d
    } else {
        b
    };
    assert(fraction_end(s@, b as int) == c as int);
    if c < n && (s[c] == 101u8 || s[c] == 69u8) {
        let k = if c + 1 < n && (s[c + 1] == 43u8 || s[c + 1] == 45u8) { c + 2 } else { c + 1 };
        assert(k as int == exponent_digits(s@, c as int));
        if k > n {
            return false;
        }
        let e = scan_digits(s, k);
        e > k && e == n
    } else {
        c == n
    }
}

fn write_measured(out: &mut Vec<u8>, m: &str)
    ensures
        final(out)@ == old(out)@ + measured_json(txt(m)),
{
    if json_number(m.as_bytes()) {
        push_str(out, m);
    } else {
        push_str(out, "null");
    }
}

fn write_gate(out: &mut Vec<u8>, g: &GateResult)
    ensures
        final(out)@ == old(out)@ + gate_json(*g),
{
    push_str(out, "{\"id\":\"");
    push_str(out, g.id);
    push_str(out, "\",\"domain\":\"");
    push_str(out, g.domain);
    push_str(out, "\",\"metric\":\"");
    push_str(out, g.metric);
    push_str(out, "\",\"limit\":\"");
    push_str(out, g.limit);
    push_str(out, "\",\"measured\":");
    write_measured(out, g.measured);
    push_str(out, ",\"passed\":");
    if g.passed {
        push_str(out, "true");
    } else {
        push_str(out, "false");
    }
    push_str(out, "}");
    assert(out@ =~= old(out)@ + gate_json(*g));
}

/// Render the gates, as UTF-8 bytes of their JSON list.
pub fn gates_to_json(gates: &[GateResult]) -> (out: Vec<u8>)
    ensures
        out@ == gates_json(gates@),
{
    let ghost gs = gates@;
    let ghost items = |i: nat| gate_item(gs, i);
    let mut out: Vec<u8> = Vec::new();
    push_str(&mut out, "[");
    let mut i: usize = 0;
    while i < gates.len()
        invariant
            i <= gates@.len(),
            gs == gates@,
            items == (|i: nat| gate_item(gs, i)),
            out@ == txt("[") + concat_items(i as nat, items),
        decreases gates@.len() - i,
    {
        let ghost before = out@;
        if i > 0 {
            push_str(&mut out, ",");
        }
        write_gate(&mut out, &gates[i]);
        assert(out@ =~= before + gate_item(gs, i as nat));
        assert(concat_items((i + 1) as nat, items) == concat_items(i as nat, items) + items(i as nat));
        i = i + 1;
    }
    push_str(&mut out, "]");
    out
}

} // verus!
