use vstd::prelude::*;

verus! {

/// The largest port number; anything above it is not a port.
pub const MAX_PORT: u32 = 65535;

/// Value at which the running number of a digit run stops growing: every run whose
/// value reaches it is too large to be a port, whatever digits follow.
pub const VALUE_CAP: u32 = 65536;

pub open spec fn is_digit(c: char) -> bool {
    '0' <= c && c <= '9'
}

pub open spec fn digit_value(c: char) -> nat {
    (c as u32 - '0' as u32) as nat
}

/// The number that a run of decimal digits writes, most significant digit first.
pub open spec fn run_value(r: Seq<char>) -> nat
    decreases r.len(),
{
    if r.len() == 0 {
        0
    } else {
        run_value(r.drop_last()) * 10 + digit_value(r.last())
    }
}

/// Index of the first digit at or after `i`, or the length of `s` when there is none.
pub open spec fn first_digit_from(s: Seq<char>, i: int) -> int
    decreases s.len() - i,
{
    if i >= s.len() {
        s.len() as int
    } else if is_digit(s[i]) {
        i
    } else {
        first_digit_from(s, i + 1)
    }
}

/// Index of the first non-digit at or after `i`, or the length of `s` when there is none.
pub open spec fn run_end_from(s: Seq<char>, i: int) -> int
    decreases s.len() - i,
{
    if i >= s.len() {
        s.len() as int
    } else if !is_digit(s[i]) {
        i
    } else {
        run_end_from(s, i + 1)
    }
}

/// The first maximal run of decimal digits in `s` (empty when `s` holds no digit).
pub open spec fn first_digit_run(s: Seq<char>) -> Seq<char> {
    let start = first_digit_from(s, 0);
    s.subrange(start, run_end_from(s, start))
}

/// The port that a line of output announces: the first run of digits, when it is a
/// positive number of at most 16 bits.
pub open spec fn port_in_text(s: Seq<char>) -> Option<u16> {
    let run = first_digit_run(s);
    if run.len() > 0 && 0 < run_value(run) && run_value(run) <= MAX_PORT {
        Some(run_value(run) as u16)
    } else {
        None
    }
}

pub open spec fn capped(v: nat) -> nat {
    if v < VALUE_CAP {
        v
    } else {
        VALUE_CAP as nat
    }
}

fn is_ascii_digit(c: char) -> (r: bool)
    ensures
        r == is_digit(c),
{
    '0' <= c && c <= '9'
}

proof fn lemma_capped_step(v: nat, d: nat)
    requires
        d < 10,
    ensures
        capped(v * 10 + d) == capped(capped(v) * 10 + d),
{
    if v >= VALUE_CAP {
        assert(v * 10 + d >= VALUE_CAP) by (nonlinear_arith)
            requires
                v >= VALUE_CAP,
        ;
        assert(VALUE_CAP * 10 + d >= VALUE_CAP);
    }
}

/// Finds the port that a line of output announces: the first maximal run of decimal
/// digits, read as a number, when that number lies in `1..=65535`.
pub fn find_port_in_text(s: &str) -> (r: Option<u16>)
    ensures
        r == port_in_text(s@),
{
    let n = s.unicode_len();
    let mut i: usize = 0;
    while i < n && !is_ascii_digit(s.get_char(i))
        invariant
            n == s@.len(),
            i <= n,
            first_digit_from(s@, 0) == first_digit_from(s@, i as int),
        decreases n - i,
    {
        i = i + 1;
    }
    let start: usize = i;
    assert(first_digit_from(s@, 0) == start);
    let mut acc: u32 = 0;
    while i < n && is_ascii_digit(s.get_char(i))
        invariant
            n == s@.len(),
            start <= i <= n,
            run_end_from(s@, start as int) == run_end_from(s@, i as int),
            acc as nat == capped(run_value(s@.subrange(start as int, i as int))),
        decreases n - i,
    {
        let c = s.get_char(i);
        let d: u32 = c as u32 - '0' as u32;
        proof {
            let p = s@.subrange(start as int, i as int);
            let q = s@.subrange(start as int, i as int + 1);
            assert(q.drop_last() =~= p);
            assert(q.last() == c);
            lemma_capped_step(run_value(p), d as nat);
        }
        let next: u32 = acc * 10 + d;
        acc = if next < VALUE_CAP {
            next
        } else {
            VALUE_CAP
        };
        i = i + 1;
    }
    assert(run_end_from(s@, start as int) == i);
    if i > start && 0 < acc && acc <= MAX_PORT {
        Some(acc as u16)
    } else {
        None
    }
}

} // verus!
