use vstd::prelude::*;

verus! {

/// ASCII upper case of one character: `a`..=`z` become `A`..=`Z`, every
/// other character stays as it is.
pub open spec fn upper_char(c: char) -> char {
    if 'a' <= c <= 'z' {
        ((c as u32) - 32) as char
    } else {
        c
    }
}

/// ASCII lower case of one character: `A`..=`Z` become `a`..=`z`, every
/// other character stays as it is.
pub open spec fn lower_char(c: char) -> char {
    if 'A' <= c <= 'Z' {
        ((c as u32) + 32) as char
    } else {
        c
    }
}

/// ASCII upper case of a text, character by character.
pub open spec fn upper(s: Seq<char>) -> Seq<char> {
    Seq::new(s.len(), |i: int| upper_char(s[i]))
}

/// ASCII lower case of a text, character by character.
pub open spec fn lower(s: Seq<char>) -> Seq<char> {
    Seq::new(s.len(), |i: int| lower_char(s[i]))
}

/// Whether two texts are equal when ASCII case is ignored.
pub open spec fn eq_ignore_case(a: Seq<char>, b: Seq<char>) -> bool {
    lower(a) == lower(b)
}

/// ASCII upper case turns each letter `a`..=`z` into the letter 32 code
/// points below, `A`..=`Z`, and leaves every other character alone; its
/// result is never a lower-case ASCII letter. ASCII lower case does the
/// reverse, and never gives an upper-case ASCII letter.
pub proof fn ascii_case_law(c: char)
    ensures
        'a' <= c <= 'z' ==> upper_char(c) as u32 + 32 == c as u32 && 'A' <= upper_char(c) <= 'Z',
        !('a' <= c <= 'z') ==> upper_char(c) == c,
        !('a' <= upper_char(c) <= 'z'),
        'A' <= c <= 'Z' ==> lower_char(c) as u32 == c as u32 + 32 && 'a' <= lower_char(c) <= 'z',
        !('A' <= c <= 'Z') ==> lower_char(c) == c,
        !('A' <= lower_char(c) <= 'Z'),
        lower_char(upper_char(c)) == lower_char(c),
        upper_char(lower_char(c)) == upper_char(c),
{
}

/// ASCII upper and lower case of a text keep its length and change it
/// character by character, and leave no lower-case (respectively
/// upper-case) ASCII letter in it.
pub proof fn ascii_text_case_law(s: Seq<char>)
    ensures
        upper(s).len() == s.len(),
        lower(s).len() == s.len(),
        forall|i: int| 0 <= i < s.len() ==> #[trigger] upper(s)[i] == upper_char(s[i]) && !('a' <= upper(s)[i] <= 'z'),
        forall|i: int| 0 <= i < s.len() ==> #[trigger] lower(s)[i] == lower_char(s[i]) && !('A' <= lower(s)[i] <= 'Z'),
{
    assert forall|i: int| 0 <= i < s.len() implies #[trigger] upper(s)[i] == upper_char(s[i]) && !('a' <= upper(s)[i]
        <= 'z') by {
        ascii_case_law(s[i]);
    }
    assert forall|i: int| 0 <= i < s.len() implies #[trigger] lower(s)[i] == lower_char(s[i]) && !('A' <= lower(s)[i]
        <= 'Z') by {
        ascii_case_law(s[i]);
    }
}

/// Appends a character to a string (`String::push`).
#[verifier::external_body]
pub(crate) fn push_char(s: &mut String, c: char)
    ensures
        final(s)@ == old(s)@.push(c),
{
    s.push(c)
}

/// The characters of a text, in order.
pub fn chars_of(s: &str) -> (v: Vec<char>)
    ensures
        v@ == s@,
{
    broadcast use vstd::string::group_string_axioms;

    let mut v: Vec<char> = Vec::new();
    for c in it: s.chars()
        invariant
            it.seq() == s@,
            v@ == s@.take(it.index() as int),
    {
        v.push(c);
    }
    v
}

/// Whether a text holds the character `c`.
pub fn contains_char(s: &str, c: char) -> (b: bool)
    ensures
        b == s@.contains(c),
{
    let v = chars_of(s);
    let mut i: usize = 0;
    while i < v.len()
        invariant
            i <= v.len(),
            v@ == s@,
            forall|j: int| 0 <= j < i ==> v@[j] != c,
        decreases v.len() - i,
    {
        if v[i] == c {
            assert(s@[i as int] == c);
            return true;
        }
        i = i + 1;
    }
    false
}

/// ASCII upper case of one character (`char::to_ascii_uppercase`).
pub fn ascii_upper_char(c: char) -> (r: char)
    ensures
        r == upper_char(c),
{
    if 'a' <= c && c <= 'z' {
        let n: u8 = (c as u32 - 32) as u8;
        n as char
    } else {
        c
    }
}

/// ASCII lower case of one character (`char::to_ascii_lowercase`).
pub fn ascii_lower_char(c: char) -> (r: char)
    ensures
        r == lower_char(c),
{
    if 'A' <= c && c <= 'Z' {
        let n: u8 = (c as u32 + 32) as u8;
        n as char
    } else {
        c
    }
}

/// A copy of the text in ASCII upper case (`str::to_ascii_uppercase`).
pub fn to_ascii_uppercase(s: &str) -> (r: String)
    ensures
        r@ == upper(s@),
{
    let v = chars_of(s);
    let mut r = String::new();
    let mut i: usize = 0;
    while i < v.len()
        invariant
            v@ == s@,
            i <= v.len(),
            r@ == upper(s@.take(i as int)),
        decreases v.len() - i,
    {
        let c = ascii_upper_char(v[i]);
        push_char(&mut r, c);
        i = i + 1;
        assert(r@ =~= upper(s@.take(i as int)));
    }
    assert(s@.take(v.len() as int) =~= s@);
    r
}

/// A copy of the text in ASCII lower case (`str::to_ascii_lowercase`).
pub fn to_ascii_lowercase(s: &str) -> (r: String)
    ensures
        r@ == lower(s@),
{
    let v = chars_of(s);
    let mut r = String::new();
    let mut i: usize = 0;
    while i < v.len()
        invariant
            v@ == s@,
            i <= v.len(),
            r@ == lower(s@.take(i as int)),
        decreases v.len() - i,
    {
        let c = ascii_lower_char(v[i]);
        push_char(&mut r, c);
        i = i + 1;
        assert(r@ =~= lower(s@.take(i as int)));
    }
    assert(s@.take(v.len() as int) =~= s@);
    r
}

/// Whether two texts are equal ignoring ASCII case
/// (`str::eq_ignore_ascii_case`).
pub fn eq_ignore_ascii_case(a: &str, b: &str) -> (r: bool)
    ensures
        r == eq_ignore_case(a@, b@),
{
    let va = chars_of(a);
    let vb = chars_of(b);
    if va.len() != vb.len() {
        assert(lower(a@).len() != lower(b@).len());
        return false;
    }
    let mut i: usize = 0;
    while i < va.len()
        invariant
            va@ == a@,
            vb@ == b@,
            va.len() == vb.len(),
            i <= va.len(),
            forall|j: int| 0 <= j < i ==> lower_char(a@[j]) == lower_char(b@[j]),
        decreases va.len() - i,
    {
        if ascii_lower_char(va[i]) != ascii_lower_char(vb[i]) {
            assert(lower(a@)[i as int] != lower(b@)[i as int]);
            return false;
        }
        i = i + 1;
    }
    assert(lower(a@) =~= lower(b@));
    true
}

/// What `str::to_lowercase` gives for a text: its lower case by the rules
/// of Unicode.
pub uninterp spec fn unicode_lowercase(s: Seq<char>) -> Seq<char>;

/// A copy of the text in lower case by the rules of Unicode
/// (`str::to_lowercase`). The result is named; on ASCII text it is the
/// ASCII lower case, as every ASCII letter's Unicode lower case is its
/// ASCII one and other ASCII characters have none.
#[verifier::external_body]
pub(crate) fn to_lowercase(s: &str) -> (r: String)
    ensures
        r@ == unicode_lowercase(s@),
        vstd::utf8::is_ascii_chars(s@) ==> r@ == lower(s@),
{
    s.to_lowercase()
}

/// What `str::to_uppercase` gives for a text: its upper case by the rules
/// of Unicode.
pub uninterp spec fn unicode_uppercase(s: Seq<char>) -> Seq<char>;

/// A copy of the text in upper case by the rules of Unicode
/// (`str::to_uppercase`). The result is named; on ASCII text it is the
/// ASCII upper case, as every ASCII letter's Unicode upper case is its
/// ASCII one and other ASCII characters have none.
#[verifier::external_body]
pub(crate) fn to_uppercase(s: &str) -> (r: String)
    ensures
        r@ == unicode_uppercase(s@),
        vstd::utf8::is_ascii_chars(s@) ==> r@ == upper(s@),
{
    s.to_uppercase()
}

/// The decimal digit for `d < 10`.
pub open spec fn digit_char(d: nat) -> char {
    ((d + 48) as u32) as char
}

/// The decimal text of a natural number, as `Display` writes it.
pub open spec fn decimal(n: nat) -> Seq<char>
    decreases n,
{
    if n < 10 {
        seq![digit_char(n)]
    } else {
        decimal(n / 10).push(digit_char(n % 10))
    }
}

/// The decimal text of a number, as `Display` writes it.
pub fn u64_to_decimal(n: u64) -> (s: String)
    ensures
        s@ == decimal(n as nat),
    decreases n,
{
    let d: u8 = (n % 10) as u8 + 48;
    let c = d as char;
    if n < 10 {
        let mut s = String::new();
        push_char(&mut s, c);
        assert(s@ =~= decimal(n as nat));
        s
    } else {
        let mut s = u64_to_decimal(n / 10);
        push_char(&mut s, c);
        s
    }
}

/// The decimal text of an integer, as `Display` writes it: a `-` before
/// the digits of a negative number.
pub open spec fn signed_decimal(n: int) -> Seq<char> {
    if n < 0 {
        "-"@ + decimal((-n) as nat)
    } else {
        decimal(n as nat)
    }
}

/// The decimal text of a negative number is a `-` before the text of its
/// magnitude, and that of any other number is its digits alone.
pub proof fn signed_decimal_law(n: int)
    ensures
        n < 0 ==> signed_decimal(n)[0] == '-' && signed_decimal(n).subrange(1, signed_decimal(n).len() as int)
            == decimal((-n) as nat),
        n >= 0 ==> signed_decimal(n) == decimal(n as nat) && '0' <= signed_decimal(n)[0] <= '9',
{
    reveal_strlit("-");
    if n < 0 {
        assert(signed_decimal(n).subrange(1, signed_decimal(n).len() as int) =~= decimal((-n) as nat));
    } else {
        decimal_first_digit(n as nat);
    }
}

/// The decimal text of a number starts with a digit.
proof fn decimal_first_digit(n: nat)
    ensures
        decimal(n).len() > 0,
        '0' <= decimal(n)[0] <= '9',
    decreases n,
{
    if n >= 10 {
        decimal_first_digit(n / 10);
        assert(decimal(n)[0] == decimal(n / 10)[0]);
    } else {
        assert(digit_char(n) as u32 == n + 48);
    }
}

/// The decimal text of a signed number, as `Display` writes it.
pub fn i64_to_decimal(n: i64) -> (s: String)
    ensures
        s@ == signed_decimal(n as int),
{
    if n < 0 {
        let magnitude: u64 = (-(n as i128)) as u64;
        let mut s = String::from_str("-");
        s.append(u64_to_decimal(magnitude).as_str());
        s
    } else {
        u64_to_decimal(n as u64)
    }
}

/// What `Debug` writes for a text: the text in double quotes, with quotes,
/// backslashes and control characters escaped.
pub uninterp spec fn debug_text(s: Seq<char>) -> Seq<char>;

/// The debug text of a text (`format!("{:?}", s)`): in double quotes, with
/// the escapes of `str`'s `Debug`. The contract names the result and says
/// no more of it.
#[verifier::external_body]
pub(crate) fn debug_string(s: &str) -> (r: String)
    ensures
        r@ == debug_text(s@),
{
    format!("{:?}", s)
}

} // verus!
