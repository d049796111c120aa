//! The page query of the post list: `?page=N`, 1-based.

use vstd::prelude::*;

verus! {

/// The page query of the list; pages are numbered from 1.
#[derive(Debug, Clone, Copy, PartialEq, Eq, Structural)]
pub struct PaginationQuery {
    /// The requested page, from 1; 1 when not given.
    pub page: u32,
}

/// The page shown when none is asked for: the first.
pub fn default_page() -> (p: u32)
    ensures
        p == 1,
{
    1
}

/// Whether `c` is an ASCII decimal digit.
pub open spec fn is_digit(c: char) -> bool {
    '0' <= c <= '9'
}

/// The value of a run of decimal digits.
pub open spec fn digits_value(s: Seq<char>) -> nat
    decreases s.len(),
{
    if s.len() == 0 {
        0
    } else {
        digits_value(s.drop_last()) * 10 + ((s.last() as u32) - ('0' as u32)) as nat
    }
}

/// The digits of a raw `page` value: the value with one leading `+`, if
/// any, taken off.
pub open spec fn page_digits(s: Seq<char>) -> Seq<char> {
    if s.len() > 0 && s[0] == '+' {
        s.drop_first()
    } else {
        s
    }
}

/// Whether a raw `page` value reads as a `u32` in decimal: an optional `+`,
/// then one or more decimal digits whose value fits in `u32` (leading zeros
/// allowed), as `u32::from_str` reads it.
pub open spec fn is_page_number(s: Seq<char>) -> bool {
    let d = page_digits(s);
    &&& d.len() > 0
    &&& forall|i: int| 0 <= i < d.len() ==> is_digit(#[trigger] d[i])
    &&& digits_value(d) <= u32::MAX
}

/// The page that a raw `page` value names: its number where it reads as a
/// `u32`, and the first page where it is absent or does not (empty,
/// negative, not a number, too large).
pub open spec fn spec_page_from_raw(raw: Option<Seq<char>>) -> u32 {
    match raw {
        Some(s) => if is_page_number(s) {
            digits_value(page_digits(s)) as u32
        } else {
            1
        },
        None => 1,
    }
}

/// A longer run of digits is worth at least as much as its prefix.
proof fn lemma_digits_value_prefix(s: Seq<char>, k: int)
    requires
        0 <= k <= s.len(),
        forall|i: int| 0 <= i < s.len() ==> is_digit(#[trigger] s[i]),
    ensures
        digits_value(s.subrange(0, k)) <= digits_value(s),
    decreases s.len() - k,
{
    if k < s.len() {
        let t = s.subrange(0, k + 1);
        assert(t.drop_last() =~= s.subrange(0, k));
        lemma_digits_value_prefix(s, k + 1);
    } else {
        assert(s.subrange(0, k) =~= s);
    }
}

impl PaginationQuery {
    /// Reads the page query from the raw `page` parameter, if any. A value
    /// that reads as a `u32` gives that page; an absent value, or one that
    /// is not a number (empty, negative, not a number, too large), falls
    /// back to the first page.
    pub fn from_raw(raw: Option<&str>) -> (q: PaginationQuery)
        ensures
            q.page == spec_page_from_raw(
                match raw {
                    Some(s) => Some(s@),
                    None => None,
                },
            ),
            raw is None ==> q.page == 1,
            raw matches Some(s) ==> ((s@.len() > 0 && (forall|i: int|
                0 <= i < s@.len() ==> '0' <= #[trigger] s@[i] <= '9') && digits_value(s@)
                <= u32::MAX) ==> q.page == digits_value(s@)),
    {
        match raw {
            None => PaginationQuery { page: default_page() },
            Some(s) => {
                let n = s.unicode_len();
                let start: usize = if n > 0 && s.get_char(0) == '+' { 1 } else { 0 };
                let ghost d = page_digits(s@);
                assert(d =~= s@.subrange(start as int, n as int));
                let mut acc: u64 = 0;
                let mut i: usize = start;
                let mut valid = start < n;
                assert(d.subrange(0, d.len() as int) =~= d);
                while i < n
                    invariant_except_break
                        n == s@.len(),
                        start <= i <= n,
                        d == s@.subrange(start as int, n as int),
                        d == page_digits(s@),
                        d.len() == n - start,
                        d.subrange(0, d.len() as int) == d,
                        valid == (start < n),
                        forall|j: int| 0 <= j < i - start ==> is_digit(#[trigger] d[j]),
                        acc == digits_value(d.subrange(0, i - start)),
                        acc <= u32::MAX,
                    ensures
                        valid ==> (is_page_number(s@) && acc == digits_value(d)),
                        !valid ==> !is_page_number(s@),
                    decreases n - i,
                {
                    let c = s.get_char(i);
                    assert(c == d[i - start]);
                    if !('0' <= c && c <= '9') {
                        assert(!is_digit(d[i - start]));
                        valid = false;
                        break;
                    }
                    let dv: u64 = ((c as u32) - ('0' as u32)) as u64;
                    let next: u64 = acc * 10 + dv;
                    assert(d.subrange(0, i - start + 1).drop_last() =~= d.subrange(0, i - start));
                    if next > 4294967295 {
                        proof {
                            if forall|j: int| 0 <= j < d.len() ==> is_digit(#[trigger] d[j]) {
                                lemma_digits_value_prefix(d, i - start + 1);
                            }
                        }
                        valid = false;
                        break;
                    }
                    acc = next;
                    i = i + 1;
                }
                if valid {
                    PaginationQuery { page: acc as u32 }
                } else {
                    PaginationQuery { page: default_page() }
                }
            },
        }
    }
}

} // verus!
