use crate::util::text::{contains_char, eq_ignore_ascii_case, to_ascii_uppercase};
use vstd::prelude::*;

verus! {

/// Parse asset error.
#[derive(Debug, Clone, Copy, PartialEq, Eq, Structural)]
pub enum ParseAssetError {
    /// Contains the asset delimiter.
    ContainsSep,
    /// Empty str.
    Empty,
    /// Contains non-ascii characters.
    NonAscii,
}

/// A text that names an asset: not empty, ASCII, without the asset
/// delimiter `-`, in upper case.
pub open spec fn is_asset_text(s: Seq<char>) -> bool {
    &&& s.len() > 0
    &&& vstd::utf8::is_ascii_chars(s)
    &&& !s.contains('-')
    &&& crate::util::text::upper(s) == s
}

/// What parsing a text as an asset gives: an error for the empty text,
/// for a text with a non-ASCII character and for a text holding the asset
/// delimiter `-`, else the text in upper case.
pub open spec fn parse_asset(s: Seq<char>) -> Result<Seq<char>, ParseAssetError> {
    if s.len() == 0 {
        Err(ParseAssetError::Empty)
    } else if !vstd::utf8::is_ascii_chars(s) {
        Err(ParseAssetError::NonAscii)
    } else if s.contains('-') {
        Err(ParseAssetError::ContainsSep)
    } else {
        Ok(crate::util::text::upper(s))
    }
}

/// Asset: the upper-case ASCII name of a coin or currency.
#[derive(Debug)]
pub struct Asset {
    inner: String,
}

impl View for Asset {
    type V = Seq<char>;

    closed spec fn view(&self) -> Seq<char> {
        self.inner@
    }
}

impl Clone for Asset {
    fn clone(&self) -> (r: Self)
        ensures
            r@ == self@,
    {
        proof {
            use_type_invariant(self);
        }
        Asset { inner: self.inner.clone() }
    }
}

impl Asset {
    #[verifier::type_invariant]
    spec fn well_formed(self) -> bool {
        is_asset_text(self.inner@)
    }

    /// The delimiter of assets in the spot format.
    pub fn sep() -> (c: char)
        ensures
            c == '-',
    {
        '-'
    }

    /// Parses an asset from a text: the empty text, a text with a non-ASCII
    /// character and a text holding the delimiter `-` are refused, any other
    /// is upper-cased.
    pub fn try_from(value: &str) -> (r: Result<Asset, ParseAssetError>)
        ensures
            match r {
                Ok(a) => parse_asset(value@) == Ok::<Seq<char>, ParseAssetError>(a@),
                Err(e) => parse_asset(value@) == Err::<Seq<char>, ParseAssetError>(e),
            },
    {
        if value.is_empty() {
            Err(ParseAssetError::Empty)
        } else if !value.is_ascii() {
            Err(ParseAssetError::NonAscii)
        } else if contains_char(value, '-') {
            Err(ParseAssetError::ContainsSep)
        } else {
            let inner = to_ascii_uppercase(value);
            proof {
                assert(crate::util::text::upper(inner@) =~= inner@);
                assert(!inner@.contains('-')) by {
                    if inner@.contains('-') {
                        let i = choose|i: int| 0 <= i < inner@.len() && inner@[i] == '-';
                        assert(inner@[i] == crate::util::text::upper_char(value@[i]));
                        assert(value@[i] == '-');
                    }
                }
                assert(vstd::utf8::is_ascii_chars(inner@)) by {
                    assert forall|i: int| 0 <= i < inner@.len() implies '\0' <= #[trigger] inner@[i] <= '\u{7f}' by {
                        assert(inner@[i] == crate::util::text::upper_char(value@[i]));
                    }
                }
            }
            Ok(Asset { inner })
        }
    }

    /// Parses an asset from a text, as [`Asset::try_from`].
    pub fn from_str(s: &str) -> (r: Result<Asset, ParseAssetError>)
        ensures
            match r {
                Ok(a) => parse_asset(s@) == Ok::<Seq<char>, ParseAssetError>(a@),
                Err(e) => parse_asset(s@) == Err::<Seq<char>, ParseAssetError>(e),
            },
    {
        Self::try_from(s)
    }

    /// Convert to [`&str`]
    pub fn as_str(&self) -> (s: &str)
        ensures
            s@ == self@,
            is_asset_text(s@),
    {
        proof {
            use_type_invariant(self);
        }
        self.inner.as_str()
    }

    /// Whether the asset has the given name, ignoring ASCII case.
    pub fn eq_str(&self, other: &str) -> (b: bool)
        ensures
            b == crate::util::text::eq_ignore_case(self@, other@),
    {
        eq_ignore_ascii_case(self.inner.as_str(), other)
    }

    /// Usdt.
    pub fn usdt() -> (a: Asset)
        ensures
            a@ == "USDT"@,
    {
        proof {
            reveal_strlit("USDT");
            assert(crate::util::text::upper("USDT"@) =~= "USDT"@);
        }
        Asset { inner: String::from_str("USDT") }
    }

    /// Usdc.
    pub fn usdc() -> (a: Asset)
        ensures
            a@ == "USDC"@,
    {
        proof {
            reveal_strlit("USDC");
            assert(crate::util::text::upper("USDC"@) =~= "USDC"@);
        }
        Asset { inner: String::from_str("USDC") }
    }

    /// Usd.
    pub fn usd() -> (a: Asset)
        ensures
            a@ == "USD"@,
    {
        proof {
            reveal_strlit("USD");
            assert(crate::util::text::upper("USD"@) =~= "USD"@);
        }
        Asset { inner: String::from_str("USD") }
    }

    /// Btc.
    pub fn btc() -> (a: Asset)
        ensures
            a@ == "BTC"@,
    {
        proof {
            reveal_strlit("BTC");
            assert(crate::util::text::upper("BTC"@) =~= "BTC"@);
        }
        Asset { inner: String::from_str("BTC") }
    }

    /// Eth.
    pub fn eth() -> (a: Asset)
        ensures
            a@ == "ETH"@,
    {
        proof {
            reveal_strlit("ETH");
            assert(crate::util::text::upper("ETH"@) =~= "ETH"@);
        }
        Asset { inner: String::from_str("ETH") }
    }
}

/// ASCII upper case keeps every character ASCII and does nothing the
/// second time.
pub proof fn upper_is_ascii_idempotent(s: Seq<char>)
    ensures
        vstd::utf8::is_ascii_chars(s) ==> vstd::utf8::is_ascii_chars(crate::util::text::upper(s)),
        crate::util::text::upper(crate::util::text::upper(s)) == crate::util::text::upper(s),
{
    assert(crate::util::text::upper(crate::util::text::upper(s)) =~= crate::util::text::upper(s));
    if vstd::utf8::is_ascii_chars(s) {
        let u = crate::util::text::upper(s);
        assert forall|i: int| 0 <= i < u.len() implies '\0' <= #[trigger] u[i] <= '\u{7f}' by {
            assert(u[i] == crate::util::text::upper_char(s[i]));
        }
    }
}

/// Whatever parsing accepts is a valid asset name.
pub proof fn parsed_asset_is_valid(s: Seq<char>)
    ensures
        parse_asset(s) matches Ok(t) ==> is_asset_text(t),
{
    upper_is_ascii_idempotent(s);
    let u = crate::util::text::upper(s);
    if !s.contains('-') && u.contains('-') {
        let i = choose|i: int| 0 <= i < u.len() && u[i] == '-';
        assert(u[i] == crate::util::text::upper_char(s[i]));
        assert(s[i] == '-');
    }
}

/// A valid asset name parses to itself: parsing is a normal form.
pub proof fn asset_text_parses_to_itself(t: Seq<char>)
    requires
        is_asset_text(t),
    ensures
        parse_asset(t) == Ok::<Seq<char>, ParseAssetError>(t),
{
}

/// Two characters have the same ASCII lower case exactly when they have
/// the same ASCII upper case.
pub proof fn lower_eq_iff_upper_eq(x: char, y: char)
    ensures
        (crate::util::text::lower_char(x) == crate::util::text::lower_char(y))
            <==> (crate::util::text::upper_char(x) == crate::util::text::upper_char(y)),
{
}

/// An asset matches a text, ignoring case, exactly when the text parses to
/// that asset.
pub proof fn eq_str_iff_parses_to(a: Seq<char>, s: Seq<char>)
    requires
        is_asset_text(a),
    ensures
        crate::util::text::eq_ignore_case(a, s) <==> parse_asset(s) == Ok::<Seq<char>, ParseAssetError>(a),
{
    let la = crate::util::text::lower(a);
    let ls = crate::util::text::lower(s);
    if la == ls {
        assert(la.len() == a.len() && ls.len() == s.len());
        assert(a.len() == s.len());
        assert forall|i: int| 0 <= i < s.len() implies '\0' <= #[trigger] s[i] <= '\u{7f}' by {
            assert(la[i] == ls[i]);
            assert(a[i] <= '\u{7f}');
        }
        assert forall|i: int| 0 <= i < s.len() implies crate::util::text::upper(s)[i] == a[i] by {
            assert(la[i] == ls[i]);
            lower_eq_iff_upper_eq(a[i], s[i]);
            assert(crate::util::text::upper(a)[i] == a[i]);
        }
        assert(crate::util::text::upper(s) =~= a);
        if s.contains('-') {
            let i = choose|i: int| 0 <= i < s.len() && s[i] == '-';
            assert(la[i] == ls[i]);
            assert(a[i] == '-');
        }
    }
    if parse_asset(s) == Ok::<Seq<char>, ParseAssetError>(a) {
        assert forall|i: int| 0 <= i < s.len() implies la[i] == ls[i] by {
            assert(crate::util::text::upper(s)[i] == a[i]);
            assert(crate::util::text::upper(a)[i] == a[i]);
            lower_eq_iff_upper_eq(a[i], s[i]);
        }
        assert(la =~= ls);
    }
}

/// Parsing refuses exactly the empty text, texts with a non-ASCII
/// character and texts holding the delimiter `-`, in that order; what it
/// accepts keeps its length, holds no lower-case ASCII letter, and equals
/// the text but for ASCII case.
pub proof fn parse_asset_law(s: Seq<char>)
    ensures
        parse_asset(s) == Err::<Seq<char>, ParseAssetError>(ParseAssetError::Empty) <==> s.len() == 0,
        parse_asset(s) == Err::<Seq<char>, ParseAssetError>(ParseAssetError::NonAscii) <==> (s.len() > 0
            && !vstd::utf8::is_ascii_chars(s)),
        parse_asset(s) == Err::<Seq<char>, ParseAssetError>(ParseAssetError::ContainsSep) <==> (s.len() > 0
            && vstd::utf8::is_ascii_chars(s) && s.contains('-')),
        parse_asset(s) is Ok <==> (s.len() > 0 && vstd::utf8::is_ascii_chars(s) && !s.contains('-')),
        parse_asset(s) matches Ok(t) ==> t.len() == s.len() && crate::util::text::eq_ignore_case(t, s) && forall|
            i: int,
        |
            0 <= i < t.len() ==> !('a' <= #[trigger] t[i] <= 'z'),
{
    crate::util::text::ascii_text_case_law(s);
    if parse_asset(s) is Ok {
        let t = crate::util::text::upper(s);
        assert(crate::util::text::lower(t) =~= crate::util::text::lower(s)) by {
            assert forall|i: int| 0 <= i < s.len() implies crate::util::text::lower(t)[i]
                == crate::util::text::lower(s)[i] by {
                crate::util::text::ascii_case_law(s[i]);
            }
        }
    }
}

} // verus!
