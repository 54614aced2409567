//! Circuit-analysis reports and their canonical textual serialization.
//!
//! The report is rendered as a structured JSON document whose field order is
//! part of the external contract, with the per-constraint statistics omitted
//! when empty.  The rendering is pinned exactly by [`analyse_json`].

use vstd::prelude::*;
use vstd::string::StrSliceExecFns;

verus! {

/// Per-constraint gate statistics, as reported by the transpilation step.
#[derive(Clone, Debug)]
pub struct ConstraintStat {
    pub name: String,
    pub num_gates: usize,
}

/// The counts that the rank-1 constraint structure of a circuit exposes.
#[derive(Clone, Copy, Debug, PartialEq, Eq, Structural)]
pub struct R1csStats {
    pub num_inputs: usize,
    pub num_aux: usize,
    pub num_variables: usize,
    pub num_constraints: usize,
}

/// The result of analysing a circuit.
#[derive(Clone, Debug)]
pub struct AnalyseResult {
    pub num_inputs: usize,
    pub num_aux: usize,
    pub num_variables: usize,
    pub num_constraints: usize,
    pub num_nontrivial_constraints: usize,
    pub num_gates: usize,
    pub num_hints: usize,
    pub constraint_stats: Vec<ConstraintStat>,
}

pub open spec fn digit_char(d: nat) -> char {
    if d == 0 { '0' }
    else if d == 1 { '1' }
    else if d == 2 { '2' }
    else if d == 3 { '3' }
    else if d == 4 { '4' }
    else if d == 5 { '5' }
    else if d == 6 { '6' }
    else if d == 7 { '7' }
    else if d == 8 { '8' }
    else { '9' }
}

/// The decimal rendering of a number, most significant digit first.
pub open spec fn dec_spec(n: nat) -> Seq<char>
    decreases n,
{
    if n < 10 {
        seq![digit_char(n)]
    } else {
        dec_spec(n / 10).push(digit_char(n % 10))
    }
}

/// The rendering of one per-constraint statistic; the name is emitted
/// verbatim between the quotes.
pub open spec fn stat_json(s: ConstraintStat) -> Seq<char> {
    "{\"name\":\""@ + s.name@ + "\",\"num_gates\":"@ + dec_spec(s.num_gates as nat) + "}"@
}

/// The rendering of the first `k` statistics, comma-separated.
pub open spec fn stats_json(ss: Seq<ConstraintStat>, k: int) -> Seq<char>
    decreases k,
{
    if k <= 0 {
        Seq::empty()
    } else if k == 1 {
        stat_json(ss[0])
    } else {
        stats_json(ss, k - 1) + ","@ + stat_json(ss[k - 1])
    }
}

/// The canonical rendering of a report: fixed field order, and the
/// `constraint_stats` field omitted when the list is empty.
pub open spec fn analyse_json(a: AnalyseResult) -> Seq<char> {
    "{\"num_inputs\":"@ + dec_spec(a.num_inputs as nat)
        + ",\"num_aux\":"@ + dec_spec(a.num_aux as nat)
        + ",\"num_variables\":"@ + dec_spec(a.num_variables as nat)
        + ",\"num_constraints\":"@ + dec_spec(a.num_constraints as nat)
        + ",\"num_nontrivial_constraints\":"@ + dec_spec(a.num_nontrivial_constraints as nat)
        + ",\"num_gates\":"@ + dec_spec(a.num_gates as nat)
        + ",\"num_hints\":"@ + dec_spec(a.num_hints as nat)
        + (if a.constraint_stats@.len() == 0 {
            "}"@
        } else {
            ",\"constraint_stats\":["@
                + stats_json(a.constraint_stats@, a.constraint_stats@.len() as int) + "]}"@
        })
}

fn digit_of(d: usize) -> (c: char)
    requires
        d < 10,
    ensures
        c == digit_char(d as nat),
{
    match d {
        0 => '0',
        1 => '1',
        2 => '2',
        3 => '3',
        4 => '4',
        5 => '5',
        6 => '6',
        7 => '7',
        8 => '8',
        _ => '9',
    }
}

/// Append the decimal rendering of `n`.
fn push_dec(out: &mut Vec<char>, n: usize) -> (r: ())
    ensures
        final(out)@ == old(out)@ + dec_spec(n as nat),
    decreases n,
{
    if n < 10 {
        out.push(digit_of(n));
        proof {
            assert(old(out)@ + dec_spec(n as nat) =~= old(out)@.push(digit_char(n as nat)));
        }
    } else {
        push_dec(out, n / 10);
        out.push(digit_of(n % 10));
        proof {
            assert(old(out)@ + dec_spec(n as nat) =~= (old(out)@ + dec_spec((n / 10) as nat)).push(
                digit_char((n % 10) as nat)));
        }
    }
}

/// Append every character of `s`.
fn push_lit(out: &mut Vec<char>, s: &str) -> (r: ())
    ensures
        final(out)@ == old(out)@ + s@,
{
    let len: usize = s.unicode_len();
    let mut i: usize = 0;
    proof {
        assert(out@ =~= old(out)@ + s@.take(0));
    }
    while i < len
        invariant
            i <= len,
            len == s@.len(),
            out@ == old(out)@ + s@.take(i as int),
        decreases len - i,
    {
        out.push(s.get_char(i));
        i += 1;
        proof {
            assert(out@ =~= old(out)@ + s@.take(i as int));
        }
    }
    proof {
        assert(old(out)@ + s@.take(len as int) =~= old(out)@ + s@);
    }
}

/// Append the rendering of one statistic.
fn push_stat(out: &mut Vec<char>, s: &ConstraintStat) -> (r: ())
    ensures
        final(out)@ == old(out)@ + stat_json(*s),
{
    push_lit(out, "{\"name\":\"");
    push_lit(out, s.name.as_str());
    push_lit(out, "\",\"num_gates\":");
    push_dec(out, s.num_gates);
    push_lit(out, "}");
    proof {
        assert(out@ =~= old(out)@ + stat_json(*s));
    }
}

/// Relies on std's `FromIterator` for `String`: collecting characters yields
/// the string of exactly those characters, in order.
#[verifier::external_body]
fn chars_to_string(v: &Vec<char>) -> (r: String)
    ensures
        r@ == v@,
{
    v.iter().collect()
}

impl AnalyseResult {
    /// The canonical textual form of the report.
    pub fn to_json(&self) -> (r: String)
        ensures
            r@ == analyse_json(*self),
    {
        let mut out: Vec<char> = Vec::new();
        push_lit(&mut out, "{\"num_inputs\":");
        push_dec(&mut out, self.num_inputs);
        push_lit(&mut out, ",\"num_aux\":");
        push_dec(&mut out, self.num_aux);
        push_lit(&mut out, ",\"num_variables\":");
        push_dec(&mut out, self.num_variables);
        push_lit(&mut out, ",\"num_constraints\":");
        push_dec(&mut out, self.num_constraints);
        push_lit(&mut out, ",\"num_nontrivial_constraints\":");
        push_dec(&mut out, self.num_nontrivial_constraints);
        push_lit(&mut out, ",\"num_gates\":");
        push_dec(&mut out, self.num_gates);
        push_lit(&mut out, ",\"num_hints\":");
        push_dec(&mut out, self.num_hints);
        if self.constraint_stats.len() == 0 {
            push_lit(&mut out, "}");
        } else {
            push_lit(&mut out, ",\"constraint_stats\":[");
            let ghost open_part = out@;
            let ghost ss = self.constraint_stats@;
            let mut i: usize = 0;
            proof {
                assert(out@ =~= open_part + stats_json(ss, 0));
            }
            while i < self.constraint_stats.len()
                invariant
                    i <= self.constraint_stats@.len(),
                    ss == self.constraint_stats@,
                    out@ == open_part + stats_json(ss, i as int),
                decreases self.constraint_stats@.len() - i,
            {
                if i > 0 {
                    push_lit(&mut out, ",");
                }
                push_stat(&mut out, &self.constraint_stats[i]);
                i += 1;
                proof {
                    assert(out@ =~= open_part + stats_json(ss, i as int));
                }
            }
            push_lit(&mut out, "]}");
        }
        proof {
            assert(out@ =~= analyse_json(*self));
        }
        chars_to_string(&out)
    }
}

/// Build a report.  The first four fields repeat `r1cs`, the two integers
/// land in the fields of the same name, and the statistics list is stored
/// as handed in, its length becoming `num_nontrivial_constraints`.
pub fn assemble_analyse_result(
    r1cs: R1csStats,
    num_gates: usize,
    num_hints: usize,
    constraint_stats: Vec<ConstraintStat>,
) -> (a: AnalyseResult)
    ensures
        a.num_inputs == r1cs.num_inputs,
        a.num_aux == r1cs.num_aux,
        a.num_variables == r1cs.num_variables,
        a.num_constraints == r1cs.num_constraints,
        a.num_nontrivial_constraints == constraint_stats@.len(),
        a.num_gates == num_gates,
        a.num_hints == num_hints,
        a.constraint_stats@ == constraint_stats@,
{
    let n_stats: usize = constraint_stats.len();
    AnalyseResult {
        num_inputs: r1cs.num_inputs,
        num_aux: r1cs.num_aux,
        num_variables: r1cs.num_variables,
        num_constraints: r1cs.num_constraints,
        num_nontrivial_constraints: n_stats,
        num_gates,
        num_hints,
        constraint_stats,
    }
}

} // verus!
