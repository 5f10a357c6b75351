//! Reading back the tail of the service's log.

use vstd::prelude::*;

verus! {

/// Lines returned when the request names no count.
pub const DEFAULT_LOG_LINES: usize = 100;

/// The most lines one request may ask for.
pub const MAX_LOG_LINES: usize = 1000;

/// How many lines to return: the requested count, else 100, at most 1000.
pub fn line_limit(requested: Option<usize>) -> (r: usize)
    ensures
        r == match requested {
            Some(n) => if n < 1000 { n } else { 1000 },
            None => 100,
        },
{
    let n = match requested {
        Some(n) => n,
        None => DEFAULT_LOG_LINES,
    };
    if n < MAX_LOG_LINES {
        n
    } else {
        MAX_LOG_LINES
    }
}

/// Whether a requested log file is a bare file name, with no directory part.
pub fn is_plain_file_name(name: &str) -> (r: bool)
    ensures
        r == !name@.contains('/'),
{
    let n = name.unicode_len();
    let mut i: usize = 0;
    while i < n
        invariant
            n == name@.len(),
            i <= n,
            forall|k: int| 0 <= k < i ==> name@[k] != '/',
        decreases n - i,
    {
        if name.get_char(i) == '/' {
            return false;
        }
        i = i + 1;
    }
    true
}

/// The last `n` lines (all of them when there are fewer), in order.
pub fn last_lines(lines: &Vec<String>, n: usize) -> (r: Vec<String>)
    ensures
        r@ == if lines@.len() > n {
            lines@.subrange(lines@.len() - n, lines@.len() as int)
        } else {
            lines@
        },
{
    let start: usize = if lines.len() > n {
        lines.len() - n
    } else {
        0
    };
    let mut r: Vec<String> = Vec::new();
    let mut i: usize = start;
    while i < lines.len()
        invariant
            start <= i <= lines@.len(),
            r@ == lines@.subrange(start as int, i as int),
        decreases lines@.len() - i,
    {
        r.push(lines[i].clone());
        assert(r@ =~= lines@.subrange(start as int, i + 1));
        i = i + 1;
    }
    assert(lines@.subrange(0, lines@.len() as int) =~= lines@);
    r
}

} // verus!
