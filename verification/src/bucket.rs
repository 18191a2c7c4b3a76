//! Bucket labels: decimal numbers as the data set spells them.
use vstd::prelude::*;
use vstd::string::StringSliceAdditionalSpecFns;

verus! {

/// Whether a byte is an ASCII decimal digit.
pub open spec fn is_digit(b: u8) -> bool {
    48 <= b <= 57
}

/// Whether every byte is an ASCII decimal digit.
pub open spec fn all_digits(b: Seq<u8>) -> bool {
    forall|i: int| 0 <= i < b.len() ==> is_digit(#[trigger] b[i])
}

/// Value of a string of decimal digits, most significant first.
pub open spec fn digits_value(b: Seq<u8>) -> nat
    decreases b.len(),
{
    if b.len() == 0 {
        0
    } else {
        digits_value(b.drop_last()) * 10 + (b.last() - 48) as nat
    }
}

/// The number that `usize`'s `from_str` reads from a byte string: an
/// optional `+`, then one or more decimal digits whose value fits in a
/// `usize`; `None` for anything else.
pub open spec fn parse_usize_spec(b: Seq<u8>) -> Option<nat> {
    let d = if b.len() > 0 && b[0] == 43u8 { b.drop_first() } else { b };
    if d.len() > 0 && all_digits(d) && digits_value(d) <= usize::MAX {
        Some(digits_value(d))
    } else {
        None
    }
}

/// A longer string of digits is worth at least as much as its prefix.
proof fn lemma_digits_value_prefix(d: Seq<u8>, k: int)
    requires
        0 <= k <= d.len(),
        all_digits(d),
    ensures
        digits_value(d.take(k)) <= digits_value(d),
    decreases d.len() - k,
{
    if k < d.len() {
        lemma_digits_value_prefix(d, k + 1);
        let p = d.take(k + 1);
        assert(p.drop_last() =~= d.take(k));
        assert(is_digit(d[k]));
    } else {
        assert(d.take(k) =~= d);
    }
}

/// `s.parse::<usize>().ok()`.
pub fn parse_usize(s: &str) -> (r: Option<usize>)
    ensures
        r matches Some(v) ==> parse_usize_spec(s.spec_bytes()) == Some(v as nat),
        r is None ==> parse_usize_spec(s.spec_bytes()) is None,
{
    let b = s.as_bytes();
    let ghost bs = b@;
    let n = b.len();
    let start: usize = if n > 0 && b[0] == 43u8 { 1 } else { 0 };
    let ghost d = if bs.len() > 0 && bs[0] == 43u8 { bs.drop_first() } else { bs };
    assert(d =~= bs.subrange(start as int, n as int));
    if start == n {
        return None;
    }
    let mut acc: usize = 0;
    let mut i: usize = start;
    while i < n
        invariant
            start <= i <= n,
            n == b@.len(),
            b@ == bs,
            bs == s.spec_bytes(),
            d == (if bs.len() > 0 && bs[0] == 43u8 { bs.drop_first() } else { bs }),
            d =~= bs.subrange(start as int, n as int),
            all_digits(d.take(i - start)),
            acc as nat == digits_value(d.take(i - start)),
        decreases n - i,
    {
        let c = b[i];
        let ghost k: int = i - start;
        assert(d.take(k + 1).drop_last() =~= d.take(k));
        assert(d[k] == c);
        assert(d.take(k + 1).last() == c);
        if c < 48u8 || c > 57u8 {
            assert(!is_digit(d[k]));
            return None;
        }
        let digit = (c - 48u8) as usize;
        match acc.checked_mul(10) {
            None => {
                proof {
                    if all_digits(d) {
                        lemma_digits_value_prefix(d, k + 1);
                    }
                }
                return None;
            },
            Some(m) => match m.checked_add(digit) {
                None => {
                    proof {
                        if all_digits(d) {
                            lemma_digits_value_prefix(d, k + 1);
                        }
                    }
                    return None;
                },
                Some(v) => {
                    acc = v;
                },
            },
        }
        assert(all_digits(d.take(k + 1)));
        i = i + 1;
    }
    assert(d.take(n - start) =~= d);
    Some(acc)
}

/// Number of commodity buckets.
pub const COMMODITY_BUCKETS: usize = 11;

/// Bucket number of a bucket label: its decimal value, or 1 where the label
/// is not a decimal number that fits in a `usize`.
pub open spec fn commodity_bucket_number_spec(bucket: Seq<u8>) -> nat {
    match parse_usize_spec(bucket) {
        Some(v) => v,
        None => 1,
    }
}

/// Bucket number that the commodity delta charge reads from a bucket label:
/// the label's decimal value, or 1 where the label is not a decimal number
/// that fits in a `usize`.
pub fn commodity_bucket_number(bucket: &str) -> (n: usize)
    ensures
        n as nat == commodity_bucket_number_spec(bucket.spec_bytes()),
{
    match parse_usize(bucket) {
        Some(v) => v,
        None => 1,
    }
}

/// Slot of a bucket label in the per-bucket arrays of the commodity delta
/// charge: its bucket number less one, where that number is one of the
/// eleven buckets; `None` for any other number.
pub fn commodity_bucket_slot(bucket: &str) -> (slot: Option<usize>)
    ensures
        ({
            let n = commodity_bucket_number_spec(bucket.spec_bytes());
            match slot {
                Some(i) => 1 <= n <= COMMODITY_BUCKETS && i == n - 1,
                None => n < 1 || n > COMMODITY_BUCKETS,
            }
        }),
{
    let n = commodity_bucket_number(bucket);
    if n >= 1 && n <= COMMODITY_BUCKETS {
        Some(n - 1)
    } else {
        None
    }
}

} // verus!
