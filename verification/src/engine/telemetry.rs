//! Request identifiers for the trace.

use crate::text::{all_digits, digits_value, is_digit};
use vstd::prelude::*;
use vstd::string::StringExecFns;

verus! {

/// The decimal digit that stands for `d`.
pub open spec fn digit_char(d: nat) -> char {
    if d == 0 {
        '0'
    } else if d == 1 {
        '1'
    } else if d == 2 {
        '2'
    } else if d == 3 {
        '3'
    } else if d == 4 {
        '4'
    } else if d == 5 {
        '5'
    } else if d == 6 {
        '6'
    } else if d == 7 {
        '7'
    } else if d == 8 {
        '8'
    } else {
        '9'
    }
}

/// The decimal numeral of `n`, without leading zeros.
pub open spec fn decimal(n: nat) -> Seq<char>
    decreases n,
{
    if n < 10 {
        seq![digit_char(n)]
    } else {
        decimal(n / 10).push(digit_char(n % 10))
    }
}

/// The identifier of the request that was the `counter`-th to arrive, at
/// `timestamp_ms` milliseconds since the epoch.
pub open spec fn request_id(timestamp_ms: u128, counter: u64) -> Seq<char> {
    "req_"@ + decimal(timestamp_ms as nat) + seq!['_'] + decimal(counter as nat)
}

/// A numeral reads back as the number it was written for.
pub proof fn lemma_decimal_reads_back(n: nat)
    ensures
        all_digits(decimal(n)),
        digits_value(decimal(n)) == n,
        decimal(n).len() >= 1,
    decreases n,
{
    if n >= 10 {
        lemma_decimal_reads_back(n / 10);
        let d = decimal(n);
        assert(d.drop_last() =~= decimal(n / 10));
        assert(d.last() == digit_char(n % 10));
        assert(d.last() as u32 - '0' as u32 == n % 10);
        assert forall|i: int| 0 <= i < d.len() implies is_digit(#[trigger] d[i]) by {
            if i < d.len() - 1 {
                assert(d[i] == decimal(n / 10)[i]);
            }
        }
    } else {
        let d = decimal(n);
        assert(d.drop_last() =~= Seq::<char>::empty());
        assert(digits_value(d.drop_last()) == 0);
        assert(d.last() == digit_char(n));
    }
}

/// Requests that arrived at different times or with different counts have
/// different identifiers.
pub proof fn lemma_request_ids_differ(t1: u128, c1: u64, t2: u128, c2: u64)
    requires
        request_id(t1, c1) == request_id(t2, c2),
    ensures
        t1 == t2,
        c1 == c2,
{
    let prefix = "req_"@;
    let d1 = decimal(t1 as nat);
    let d2 = decimal(t2 as nat);
    let e1 = decimal(c1 as nat);
    let e2 = decimal(c2 as nat);
    lemma_decimal_reads_back(t1 as nat);
    lemma_decimal_reads_back(t2 as nat);
    lemma_decimal_reads_back(c1 as nat);
    lemma_decimal_reads_back(c2 as nat);
    let x = d1 + seq!['_'] + e1;
    let y = d2 + seq!['_'] + e2;
    assert(x =~= request_id(t1, c1).skip(prefix.len() as int));
    assert(y =~= request_id(t2, c2).skip(prefix.len() as int));
    assert(x == y);
    assert(!is_digit('_'));
    if d1.len() < d2.len() {
        assert(x[d1.len() as int] == '_');
        assert(y[d1.len() as int] == d2[d1.len() as int]);
        assert(is_digit(d2[d1.len() as int]));
    } else if d2.len() < d1.len() {
        assert(y[d2.len() as int] == '_');
        assert(x[d2.len() as int] == d1[d2.len() as int]);
        assert(is_digit(d1[d2.len() as int]));
    }
    assert(d1 =~= x.take(d1.len() as int));
    assert(d2 =~= y.take(d2.len() as int));
    assert(e1 =~= x.skip(d1.len() as int + 1));
    assert(e2 =~= y.skip(d2.len() as int + 1));
}

fn digit(d: u8) -> (c: char)
    requires
        d < 10,
    ensures
        c == digit_char(d as nat),
{
    if d == 0 {
        '0'
    } else if d == 1 {
        '1'
    } else if d == 2 {
        '2'
    } else if d == 3 {
        '3'
    } else if d == 4 {
        '4'
    } else if d == 5 {
        '5'
    } else if d == 6 {
        '6'
    } else if d == 7 {
        '7'
    } else if d == 8 {
        '8'
    } else {
        '9'
    }
}

/// Append the decimal numeral of `n` to `s`.
pub fn push_decimal(s: &mut String, n: u128)
    ensures
        final(s)@ == old(s)@ + decimal(n as nat),
    decreases n,
{
    if n >= 10 {
        push_decimal(s, n / 10);
    }
    s.push(digit((n % 10) as u8));
    assert(s@ =~= old(s)@ + decimal(n as nat));
}

/// The identifier of a request: `req_`, the arrival time in milliseconds, an
/// underscore and the arrival count. Identifiers of different counts differ.
pub fn new_request_id(timestamp_ms: u128, counter: u64) -> (id: String)
    ensures
        id@ == request_id(timestamp_ms, counter),
{
    let mut id = String::from_str("req_");
    push_decimal(&mut id, timestamp_ms);
    id.push('_');
    push_decimal(&mut id, counter as u128);
    assert(id@ =~= request_id(timestamp_ms, counter));
    id
}

} // verus!
