use crate::util::decimal::{decimal_text, decimal_to_string};
use crate::util::symbol::Symbol;
use crate::util::text::{chars_of, decimal, digit_char, push_char, u64_to_decimal};
use crate::util::types::order::OrderId;
use vstd::prelude::*;

verus! {

/// The id the simulator gives an order placed at the price version
/// `version` for a size written `size`: the version, a comma, the size.
pub open spec fn order_id_of(version: u64, size: Seq<char>) -> Seq<char> {
    decimal(version as nat) + seq![','] + size
}

/// The position of the first comma of `s` at or after `from`, or the
/// length of `s` when there is none.
pub open spec fn comma_index(s: Seq<char>, from: int) -> int
    decreases s.len() - from,
{
    if from < 0 || from >= s.len() {
        s.len() as int
    } else if s[from] == ',' {
        from
    } else {
        comma_index(s, from + 1)
    }
}

/// Whether a character is a decimal digit.
pub open spec fn is_digit(c: char) -> bool {
    '0' <= c <= '9'
}

/// Whether a text is one or more decimal digits.
pub open spec fn all_digits(s: Seq<char>) -> bool {
    s.len() > 0 && forall|i: int| 0 <= i < s.len() ==> is_digit(#[trigger] s[i])
}

/// The number a text of decimal digits stands for.
pub open spec fn digits_value(s: Seq<char>) -> nat
    decreases s.len(),
{
    if s.len() == 0 {
        0
    } else {
        digits_value(s.drop_last()) * 10 + ((s.last() as nat) - 48) as nat
    }
}

/// Whether `str::parse::<u64>` reads a number from the text: digits, with
/// at most a `+` before them, standing for a number that fits in 64 bits.
pub open spec fn u64_text(s: Seq<char>) -> bool {
    let d = if s.len() > 0 && s[0] == '+' { s.drop_first() } else { s };
    all_digits(d) && digits_value(d) <= u64::MAX
}

/// The number `str::parse::<u64>` reads from a text it accepts.
pub open spec fn u64_text_value(s: Seq<char>) -> nat {
    if s.len() > 0 && s[0] == '+' {
        digits_value(s.drop_first())
    } else {
        digits_value(s)
    }
}

/// The text of an order id before its first comma.
pub open spec fn version_part(s: Seq<char>) -> Seq<char> {
    s.subrange(0, comma_index(s, 0))
}

/// The text of an order id after its first comma, up to the next one.
pub open spec fn size_part(s: Seq<char>) -> Seq<char> {
    s.subrange(comma_index(s, 0) + 1, comma_index(s, comma_index(s, 0) + 1))
}

/// Whether the simulator can read an order id: it holds a comma, and the
/// text before the first one is a version number.
pub open spec fn readable_order_id(s: Seq<char>) -> bool {
    comma_index(s, 0) < s.len() && u64_text(version_part(s))
}

/// Places an order in the simulator: every order is taken at once, and its
/// id records the price version `version` it was placed at and its size.
pub fn place_order(symbol: Symbol, version: u64, size: &rust_decimal::Decimal) -> (r: OrderId)
    ensures
        r.symbol == symbol,
        r.order_id matches Some(id) && id@ == order_id_of(version, decimal_text(*size)),
        r.order_id matches Some(id) && readable_order_id(id@) && u64_text_value(version_part(id@)) == version
            && size_part(id@) == decimal_text(*size),
        r.custom_order_id is None,
{
    let mut id = OrderId::new(symbol);
    let mut text = u64_to_decimal(version);
    push_char(&mut text, ',');
    let size_text = decimal_to_string(size);
    let chars = chars_of(size_text.as_str());
    let ghost head = text@;
    let mut i: usize = 0;
    while i < chars.len()
        invariant
            i <= chars.len(),
            chars@ == decimal_text(*size),
            text@ == head + chars@.take(i as int),
        decreases chars.len() - i,
    {
        push_char(&mut text, chars[i]);
        assert(chars@.take(i as int + 1) =~= chars@.take(i as int).push(chars@[i as int]));
        i = i + 1;
    }
    assert(chars@.take(chars.len() as int) =~= chars@);
    assert(text@ =~= order_id_of(version, decimal_text(*size)));
    proof {
        order_id_round_trip(version, decimal_text(*size));
    }
    id.order_id = Some(text);
    id
}

/// Reading digits one by one does not make a number smaller.
proof fn digits_value_grows(s: Seq<char>, i: int)
    requires
        0 <= i <= s.len(),
    ensures
        digits_value(s.take(i)) <= digits_value(s),
    decreases s.len() - i,
{
    if i < s.len() {
        digits_value_grows(s, i + 1);
        assert(s.take(i + 1).drop_last() =~= s.take(i));
    } else {
        assert(s.take(i) =~= s);
    }
}

/// Skips the characters before the next comma.
proof fn comma_index_step(s: Seq<char>, i: int)
    requires
        0 <= i < s.len(),
        s[i] != ',',
    ensures
        comma_index(s, i) == comma_index(s, i + 1),
{
}

/// The first comma at or after `from` lies between `from` and the end.
proof fn comma_index_bounds(s: Seq<char>, from: int)
    requires
        0 <= from,
    ensures
        from <= comma_index(s, from) <= s.len() || (from > s.len() && comma_index(s, from) == s.len()),
        comma_index(s, from) < s.len() ==> s[comma_index(s, from)] == ',',
        forall|j: int| from <= j < comma_index(s, from) ==> s[j] != ',',
    decreases s.len() - from,
{
    if from < s.len() && s[from] != ',' {
        comma_index_bounds(s, from + 1);
    }
}

/// The version and the size text of a simulator order id: the number
/// before the first comma, and the text after it up to the next comma.
pub fn read_order_id(id: &str) -> (r: (u64, String))
    requires
        readable_order_id(id@),
    ensures
        r.0 == u64_text_value(version_part(id@)),
        r.1@ == size_part(id@),
{
    let s = chars_of(id);
    let ghost t = id@;
    proof {
        comma_index_bounds(t, 0);
    }
    let mut k: usize = 0;
    while s[k] != ','
        invariant
            s@ == t,
            k <= comma_index(t, 0),
            comma_index(t, 0) < t.len(),
            comma_index(t, k as int) == comma_index(t, 0),
            forall|j: int| 0 <= j < comma_index(t, 0) ==> t[j] != ',',
            t[comma_index(t, 0)] == ',',
        decreases comma_index(t, 0) - k,
    {
        proof {
            comma_index_step(t, k as int);
        }
        k = k + 1;
    }
    assert(k == comma_index(t, 0));
    let ghost v = version_part(t);
    let mut start: usize = 0;
    if k > 0 && s[0] == '+' {
        start = 1;
    }
    let ghost d = if v.len() > 0 && v[0] == '+' { v.drop_first() } else { v };
    assert(d =~= t.subrange(start as int, k as int));
    let mut value: u64 = 0;
    let mut i: usize = start;
    while i < k
        invariant
            s@ == t,
            start <= i <= k,
            k < t.len(),
            d == t.subrange(start as int, k as int),
            all_digits(d),
            digits_value(d) <= u64::MAX,
            value == digits_value(d.take(i - start)),
        decreases k - i,
    {
        proof {
            digits_value_grows(d, i - start + 1);
            assert(d.take(i - start + 1).drop_last() =~= d.take(i - start));
            assert(d.take(i - start + 1).last() == s@[i as int]);
            assert(is_digit(d[i - start]));
        }
        let c = s[i];
        let digit: u64 = (c as u32 - 48) as u64;
        value = value * 10 + digit;
        i = i + 1;
    }
    assert(d.take(k - start) =~= d);
    let mut size = String::new();
    assert(k < s.len());
    let mut j: usize = k + 1;
    proof {
        comma_index_bounds(t, k + 1);
    }
    while j < s.len() && s[j] != ','
        invariant
            s@ == t,
            k < t.len(),
            k + 1 <= j <= comma_index(t, k + 1),
            comma_index(t, k + 1) <= t.len(),
            comma_index(t, j as int) == comma_index(t, k + 1),
            size@ == t.subrange(k + 1, j as int),
        decreases t.len() - j,
    {
        proof {
            comma_index_step(t, j as int);
            comma_index_bounds(t, j + 1);
        }
        push_char(&mut size, s[j]);
        assert(t.subrange(k + 1, j + 1) =~= t.subrange(k + 1, j as int).push(t[j as int]));
        j = j + 1;
    }
    assert(j == comma_index(t, k + 1));
    (value, size)
}

/// The decimal text of a number is digits that stand for the number.
pub proof fn decimal_reads_back(n: nat)
    ensures
        all_digits(decimal(n)),
        digits_value(decimal(n)) == n,
    decreases n,
{
    let c = digit_char(n % 10);
    assert(c as nat == n % 10 + 48);
    if n >= 10 {
        decimal_reads_back(n / 10);
        let d = decimal(n);
        assert(d == decimal(n / 10).push(c));
        assert(d.drop_last() =~= decimal(n / 10));
        assert forall|i: int| 0 <= i < d.len() implies is_digit(#[trigger] d[i]) by {
            if i < d.len() - 1 {
                assert(d[i] == decimal(n / 10)[i]);
            }
        }
        assert(d.last() == c);
        assert(digits_value(d) == digits_value(decimal(n / 10)) * 10 + n % 10);
        assert((n / 10) * 10 + n % 10 == n) by (nonlinear_arith);
    } else {
        assert(decimal(n).drop_last() =~= Seq::<char>::empty());
        assert(decimal(n).last() == c);
        assert(n % 10 == n);
        assert(digits_value(Seq::<char>::empty()) == 0);
        assert(digits_value(decimal(n)) == digits_value(decimal(n).drop_last()) * 10 + n % 10);
    }
}

/// The first comma from `from` on is at `k` when none comes before it.
proof fn comma_found(s: Seq<char>, from: int, k: int)
    requires
        0 <= from <= k <= s.len(),
        k < s.len() ==> s[k] == ',',
        forall|j: int| from <= j < k ==> s[j] != ',',
    ensures
        comma_index(s, from) == k,
    decreases k - from,
{
    if from < k {
        comma_found(s, from + 1, k);
    }
}

/// What the simulator writes as an order id, it reads back: the version
/// and the size text come out as they went in, for a size text without a
/// comma.
pub proof fn order_id_round_trip(version: u64, size: Seq<char>)
    requires
        !size.contains(','),
    ensures
        readable_order_id(order_id_of(version, size)),
        u64_text_value(version_part(order_id_of(version, size))) == version,
        size_part(order_id_of(version, size)) == size,
{
    let d = decimal(version as nat);
    let s = order_id_of(version, size);
    decimal_reads_back(version as nat);
    assert(s.len() == d.len() + 1 + size.len());
    assert forall|j: int| 0 <= j < d.len() implies s[j] != ',' by {
        assert(s[j] == d[j]);
        assert(is_digit(d[j]));
    }
    assert(s[d.len() as int] == ',');
    comma_found(s, 0, d.len() as int);
    assert forall|j: int| d.len() + 1 <= j < s.len() implies s[j] != ',' by {
        assert(s[j] == size[j - d.len() - 1]);
        if s[j] == ',' {
            assert(size.contains(','));
        }
    }
    comma_found(s, d.len() as int + 1, s.len() as int);
    assert(version_part(s) =~= d);
    assert(size_part(s) =~= size);
    assert(is_digit(d[0]));
}

} // verus!
