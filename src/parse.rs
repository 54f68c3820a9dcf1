use vstd::prelude::*;

use vstd::slice::slice_subrange;
use vstd::utf8::valid_utf8;

use crate::text::{contains_bytes, decimal, decimal_bytes, is_space, is_space_byte, is_utf8, occurs_in};

verus! {

/// Index of the first byte at or after `i` that is not whitespace.
pub open spec fn lead(s: Seq<u8>, i: int) -> int
    decreases s.len() - i,
{
    if 0 <= i < s.len() && is_space(s[i]) {
        lead(s, i + 1)
    } else {
        i
    }
}

/// End of `s` after dropping trailing whitespace, not going below `a`.
pub open spec fn trail(s: Seq<u8>, a: int, j: int) -> int
    decreases j - a,
{
    if a < j && j <= s.len() && is_space(s[j - 1]) {
        trail(s, a, j - 1)
    } else {
        j
    }
}

/// `s` without leading and trailing whitespace.
pub open spec fn trim(s: Seq<u8>) -> Seq<u8> {
    let a = lead(s, 0);
    s.subrange(a, trail(s, a, s.len() as int))
}

pub open spec fn is_digit(b: u8) -> bool {
    48 <= b <= 57
}

/// The value of a run of decimal digits.
pub open spec fn digits_value(s: Seq<u8>) -> nat
    decreases s.len(),
{
    if s.len() == 0 {
        0
    } else {
        digits_value(s.drop_last()) * 10 + (if is_digit(s.last()) { (s.last() - 48) as nat } else { 0 })
    }
}

/// `s` without a leading `+`.
pub open spec fn unsigned_part(s: Seq<u8>) -> Seq<u8> {
    if s.len() > 0 && s[0] == 43u8 { s.drop_first() } else { s }
}

pub open spec fn all_digits(d: Seq<u8>) -> bool {
    forall|i: int| 0 <= i < d.len() ==> is_digit(#[trigger] d[i])
}

/// The unsigned 32-bit number written in `s`: an optional `+`, then one or more
/// decimal digits, with a value that fits.
pub open spec fn number_of(s: Seq<u8>) -> Option<u32> {
    let d = unsigned_part(s);
    if d.len() > 0 && all_digits(d) && digits_value(d) <= u32::MAX {
        Some(digits_value(d) as u32)
    } else {
        None
    }
}

/// The pid that one line of a listing names, if it names one.
pub open spec fn line_pid(line: Seq<u8>) -> Seq<u32> {
    match number_of(trim(line)) {
        Some(v) => seq![v],
        None => seq![],
    }
}

/// How a listing names pids.
#[derive(Debug, PartialEq, Eq, Structural, Clone, Copy)]
pub enum ListingFormat {
    /// One pid per line, surrounded by whitespace or nothing.
    PidPerLine,
    /// A table of TCP connections with the owning pid last on each line; only the
    /// listening entries for the given port count.
    Listening(u16),
}

/// The bytes ":" followed by the decimal port.
pub open spec fn port_suffix(port: u16) -> Seq<u8> {
    seq![58u8] + decimal(port as nat)
}

/// The state keyword of a listening socket in the connection table.
pub open spec fn listening_word() -> Seq<u8> {
    seq![76u8, 73u8, 83u8, 84u8, 69u8, 78u8, 73u8, 78u8, 71u8]
}

/// Start of the whitespace-free run of bytes that ends at `j`.
pub open spec fn token_start(s: Seq<u8>, j: int) -> int
    decreases j,
{
    if 0 < j <= s.len() && !is_space(s[j - 1]) {
        token_start(s, j - 1)
    } else {
        j
    }
}

/// The last whitespace-separated word of `s`, empty when there is none.
pub open spec fn last_word(s: Seq<u8>) -> Seq<u8> {
    let e = trail(s, 0, s.len() as int);
    s.subrange(token_start(s, e), e)
}

/// The pid of a listening entry for `port`, if `line` is one.
pub open spec fn listening_pid(line: Seq<u8>, port: u16) -> Seq<u32> {
    if occurs_in(line, port_suffix(port)) && occurs_in(line, listening_word()) {
        match number_of(last_word(line)) {
            Some(v) => seq![v],
            None => seq![],
        }
    } else {
        seq![]
    }
}

/// The pids that one line of a listing in `format` names.
pub open spec fn line_pids(format: ListingFormat, line: Seq<u8>) -> Seq<u32> {
    match format {
        ListingFormat::PidPerLine => line_pid(line),
        ListingFormat::Listening(port) => listening_pid(line, port),
    }
}

/// Reading `s` byte by byte: the pids of the finished lines, and the line under way.
pub open spec fn scan(format: ListingFormat, s: Seq<u8>) -> (Seq<u32>, Seq<u8>)
    decreases s.len(),
{
    if s.len() == 0 {
        (seq![], seq![])
    } else {
        let (ps, cur) = scan(format, s.drop_last());
        if s.last() == 10u8 {
            (ps + line_pids(format, cur), seq![])
        } else {
            (ps, cur.push(s.last()))
        }
    }
}

/// The pids that a listing in `format` names, line by line in order; a listing
/// that is not well-formed UTF-8 names none.
pub open spec fn listed_pids(format: ListingFormat, s: Seq<u8>) -> Seq<u32> {
    if valid_utf8(s) {
        scan(format, s).0 + line_pids(format, scan(format, s).1)
    } else {
        seq![]
    }
}

proof fn lemma_prefix_value(s: Seq<u8>, k: int)
    requires
        0 <= k <= s.len(),
    ensures
        digits_value(s.take(k)) <= digits_value(s),
    decreases s.len(),
{
    if k < s.len() {
        lemma_prefix_value(s.drop_last(), k);
        assert(s.drop_last().take(k) =~= s.take(k));
    } else {
        assert(s.take(k) =~= s);
    }
}

/// The bounds of `s` without its surrounding whitespace.
fn trim_bounds(s: &[u8]) -> (r: (usize, usize))
    ensures
        r.0 as int == lead(s@, 0),
        r.1 as int == trail(s@, lead(s@, 0), s@.len() as int),
        r.0 <= r.1 <= s@.len(),
{
    let n: usize = s.len();
    let mut a: usize = 0;
    while a < n && is_space_at(s, a)
        invariant
            n == s@.len(),
            a <= n,
            lead(s@, a as int) == lead(s@, 0),
        decreases n - a,
    {
        a = a + 1;
    }
    let mut b: usize = n;
    while a < b && is_space_at(s, b - 1)
        invariant
            n == s@.len(),
            a <= b <= n,
            lead(s@, a as int) == a,
            trail(s@, a as int, b as int) == trail(s@, a as int, n as int),
        decreases b - a,
    {
        b = b - 1;
    }
    (a, b)
}

fn is_space_at(s: &[u8], i: usize) -> (r: bool)
    requires
        i < s@.len(),
    ensures
        r == is_space(s@[i as int]),
{
    is_space_byte(s[i])
}

/// Reads the number written in `s[start..end]`, as `number_of` does.
fn parse_number(s: &[u8], start: usize, end: usize) -> (r: Option<u32>)
    requires
        start <= end <= s@.len(),
    ensures
        r == number_of(s@.subrange(start as int, end as int)),
{
    let ghost whole = s@.subrange(start as int, end as int);
    let mut i: usize = start;
    if i < end && s[i] == 43u8 {
        i = i + 1;
    }
    let ghost d = s@.subrange(i as int, end as int);
    assert(d =~= unsigned_part(whole));
    if i == end {
        return None;
    }
    let mut acc: u32 = 0;
    let mut k: usize = i;
    while k < end
        invariant
            i <= k <= end <= s@.len(),
            i < end,
            d == s@.subrange(i as int, end as int),
            whole == s@.subrange(start as int, end as int),
            d == unsigned_part(whole),
            forall|j: int| 0 <= j < k - i ==> is_digit(#[trigger] d[j]),
            acc as nat == digits_value(d.take(k - i)),
        decreases end - k,
    {
        let b = s[k];
        if b < 48u8 || b > 57u8 {
            assert(d[k - i] == s@[k as int]);
            assert(!is_digit(d[k - i]));
            assert(!all_digits(d));
            return None;
        }
        let digit: u32 = (b - 48u8) as u32;
        assert(d.take(k - i + 1).drop_last() =~= d.take(k - i));
        assert(d.take(k - i + 1).last() == b);
        assert(digits_value(d.take(k - i + 1)) == acc as nat * 10 + digit as nat);
        if acc > (u32::MAX - digit) / 10 {
            proof {
                lemma_prefix_value(d, k - i + 1);
                assert(acc as nat * 10 + digit as nat > u32::MAX) by (nonlinear_arith)
                    requires
                        acc > (u32::MAX - digit) / 10,
                        digit <= 9;
            }
            return None;
        }
        acc = acc * 10 + digit;
        k = k + 1;
    }
    assert(d.take(k - i) =~= d);
    Some(acc)
}

fn listening_word_bytes() -> (r: Vec<u8>)
    ensures
        r@ == listening_word(),
{
    let r = vec![76u8, 73u8, 83u8, 84u8, 69u8, 78u8, 73u8, 78u8, 71u8];
    assert(r@ =~= listening_word());
    r
}

/// The pid named by one line of a listing in `format`.
fn pid_of_line(line: &[u8], format: ListingFormat) -> (r: Option<u32>)
    ensures
        line_pids(format, line@) == (match r {
            Some(v) => seq![v],
            None => Seq::<u32>::empty(),
        }),
{
    match format {
        ListingFormat::PidPerLine => {
            let (a, b) = trim_bounds(line);
            assert(trim(line@) == line@.subrange(a as int, b as int));
            parse_number(line, a, b)
        },
        ListingFormat::Listening(port) => {
            let mut suffix: Vec<u8> = vec![58u8];
            let mut digits = decimal_bytes(port as u32);
            suffix.append(&mut digits);
            assert(suffix@ =~= port_suffix(port));
            let word = listening_word_bytes();
            if !contains_bytes(line, suffix.as_slice()) || !contains_bytes(line, word.as_slice()) {
                return None;
            }
            let n: usize = line.len();
            let mut e: usize = n;
            while 0 < e && is_space_at(line, e - 1)
                invariant
                    n == line@.len(),
                    e <= n,
                    trail(line@, 0, e as int) == trail(line@, 0, n as int),
                decreases e,
            {
                e = e - 1;
            }
            let mut t: usize = e;
            while 0 < t && !is_space_at(line, t - 1)
                invariant
                    n == line@.len(),
                    t <= e <= n,
                    e as int == trail(line@, 0, n as int),
                    token_start(line@, t as int) == token_start(line@, e as int),
                decreases t,
            {
                t = t - 1;
            }
            parse_number(line, t, e)
        },
    }
}

/// Reads the pids that a listing in `format` names, line by line in order, as
/// `listed_pids` describes.
pub fn parse_listing(s: &[u8], format: ListingFormat) -> (r: Vec<u32>)
    ensures
        r@ == listed_pids(format, s@),
{
    if !is_utf8(s) {
        return Vec::new();
    }
    let n: usize = s.len();
    let mut ps: Vec<u32> = Vec::new();
    let mut start: usize = 0;
    let mut i: usize = 0;
    while i < n
        invariant
            n == s@.len(),
            start <= i <= n,
            scan(format, s@.take(i as int)) == (ps@, s@.subrange(start as int, i as int)),
        decreases n - i,
    {
        assert(s@.take(i + 1).drop_last() =~= s@.take(i as int));
        if s[i] == 10u8 {
            let line_bytes = slice_subrange(s, start, i);
            let v = pid_of_line(line_bytes, format);
            if let Some(p) = v {
                ps.push(p);
            }
            assert(ps@ =~= scan(format, s@.take(i + 1)).0);
            start = i + 1;
        } else {
            assert(s@.subrange(start as int, i + 1) =~= s@.subrange(start as int, i as int).push(s@[i as int]));
        }
        i = i + 1;
        assert(s@.subrange(start as int, i as int) =~= scan(format, s@.take(i as int)).1);
    }
    assert(s@.take(n as int) =~= s@);
    let line_bytes = slice_subrange(s, start, n);
    let v = pid_of_line(line_bytes, format);
    if let Some(p) = v {
        ps.push(p);
    }
    assert(ps@ =~= listed_pids(format, s@));
    ps
}

/// Reads a listing with one pid per line: each line is trimmed and read as a
/// number; lines that hold none are skipped.
pub fn parse_pid_lines(s: &[u8]) -> (r: Vec<u32>)
    ensures
        r@ == listed_pids(ListingFormat::PidPerLine, s@),
{
    parse_listing(s, ListingFormat::PidPerLine)
}

/// Reads the pids of the processes listening on `port` from a connection table:
/// lines that name the port and the listening state, whose last word is a number.
pub fn listening_pids(s: &[u8], port: u16) -> (r: Vec<u32>)
    ensures
        r@ == listed_pids(ListingFormat::Listening(port), s@),
{
    parse_listing(s, ListingFormat::Listening(port))
}

} // verus!
