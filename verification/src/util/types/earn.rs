use crate::util::text::{to_uppercase, unicode_uppercase, upper};
use vstd::prelude::*;

verus! {

/// The wrapped or staked tokens whose exchange rate to the underlying
/// asset is known.
#[derive(Debug, Clone, Copy, PartialEq, Eq, Structural)]
pub enum StToken {
    /// Crude oil tokens: CL, WTI, XTI, USOIL.
    Oil,
    /// The USO fund.
    Uso,
    /// Tether gold: XAUT, XAUT0.
    Xaut,
    /// Pax gold.
    Paxg,
    /// The IAU gold fund: IAU, IAUON.
    Iau,
    /// The SLV silver fund: SLV, SLVON.
    Slv,
}

/// The known token named by an upper-case symbol.
pub open spec fn st_token_of(upper: Seq<char>) -> Option<StToken> {
    if upper == "CL"@ || upper == "WTI"@ || upper == "XTI"@ || upper == "USOIL"@ {
        Some(StToken::Oil)
    } else if upper == "USO"@ {
        Some(StToken::Uso)
    } else if upper == "XAUT"@ || upper == "XAUT0"@ {
        Some(StToken::Xaut)
    } else if upper == "PAXG"@ {
        Some(StToken::Paxg)
    } else if upper == "IAU"@ || upper == "IAUON"@ {
        Some(StToken::Iau)
    } else if upper == "SLV"@ || upper == "SLVON"@ {
        Some(StToken::Slv)
    } else {
        None
    }
}

impl StToken {
    /// When the rate of the token starts to drift by its yearly rate
    /// (milliseconds; 0 for tokens whose rate stays put).
    pub open spec fn spec_start_time(self) -> u64 {
        match self {
            StToken::Uso | StToken::Iau | StToken::Slv => 1776412800000,
            _ => 0,
        }
    }

    /// When the rate of the token starts to drift by its yearly rate
    /// (milliseconds; 0 for tokens whose rate stays put).
    pub fn start_time(self) -> (t: u64)
        ensures
            t == self.spec_start_time(),
    {
        match self {
            StToken::Uso | StToken::Iau | StToken::Slv => 1776412800000,
            _ => 0,
        }
    }
}

/// Whether a text is one of the candidates.
fn is_one_of(s: &String, names: &Vec<String>) -> (r: bool)
    ensures
        r == exists|i: int| 0 <= i < names.len() && s@ == (#[trigger] names@[i])@,
{
    let mut i: usize = 0;
    while i < names.len()
        invariant
            i <= names.len(),
            forall|j: int| 0 <= j < i ==> s@ != (#[trigger] names@[j])@,
        decreases names.len() - i,
    {
        if *s == names[i] {
            return true;
        }
        i = i + 1;
    }
    false
}

/// The known token named by an upper-case symbol.
pub fn st_token_of_upper(upper: &String) -> (r: Option<StToken>)
    ensures
        r == st_token_of(upper@),
{
    let oil = vec![
        String::from_str("CL"),
        String::from_str("WTI"),
        String::from_str("XTI"),
        String::from_str("USOIL"),
    ];
    if is_one_of(upper, &oil) {
        return Some(StToken::Oil);
    }
    if *upper == String::from_str("USO") {
        return Some(StToken::Uso);
    }
    let xaut = vec![String::from_str("XAUT"), String::from_str("XAUT0")];
    if is_one_of(upper, &xaut) {
        return Some(StToken::Xaut);
    }
    if *upper == String::from_str("PAXG") {
        return Some(StToken::Paxg);
    }
    let iau = vec![String::from_str("IAU"), String::from_str("IAUON")];
    if is_one_of(upper, &iau) {
        return Some(StToken::Iau);
    }
    let slv = vec![String::from_str("SLV"), String::from_str("SLVON")];
    if is_one_of(upper, &slv) {
        return Some(StToken::Slv);
    }
    None
}

/// The known token a symbol names, in any case: the token of its upper
/// case, which for an ASCII symbol is its ASCII upper case.
pub fn st_token(symbol: &str) -> (r: Option<StToken>)
    ensures
        r == st_token_of(unicode_uppercase(symbol@)),
        vstd::utf8::is_ascii_chars(symbol@) ==> r == st_token_of(upper(symbol@)),
{
    let upper = to_uppercase(symbol);
    st_token_of_upper(&upper)
}

/// Looking a token up ignores case: a symbol's ASCII upper case names the
/// same token as the symbol, and two ASCII symbols that agree but for case name
/// the same token.
pub proof fn st_token_ignores_case(a: Seq<char>, b: Seq<char>)
    ensures
        st_token_of(upper(upper(a))) == st_token_of(upper(a)),
        upper(a) == upper(b) ==> st_token_of(upper(a)) == st_token_of(upper(b)),
{
    crate::util::asset::upper_is_ascii_idempotent(a);
}

/// Every listed name of a token is recognised as that token, in upper
/// case: CL, WTI, XTI and USOIL are oil; USO is the oil fund; XAUT and
/// XAUT0 are Tether gold; PAXG is Pax gold; IAU and IAUON the gold fund;
/// SLV and SLVON the silver fund. An empty name is none.
pub proof fn st_token_names()
    ensures
        st_token_of("CL"@) == Some(StToken::Oil),
        st_token_of("WTI"@) == Some(StToken::Oil),
        st_token_of("XTI"@) == Some(StToken::Oil),
        st_token_of("USOIL"@) == Some(StToken::Oil),
        st_token_of("USO"@) == Some(StToken::Uso),
        st_token_of("XAUT"@) == Some(StToken::Xaut),
        st_token_of("XAUT0"@) == Some(StToken::Xaut),
        st_token_of("PAXG"@) == Some(StToken::Paxg),
        st_token_of("IAU"@) == Some(StToken::Iau),
        st_token_of("IAUON"@) == Some(StToken::Iau),
        st_token_of("SLV"@) == Some(StToken::Slv),
        st_token_of("SLVON"@) == Some(StToken::Slv),
        st_token_of(Seq::<char>::empty()) is None,
{
    reveal_strlit("CL");
    reveal_strlit("WTI");
    reveal_strlit("XTI");
    reveal_strlit("USOIL");
    reveal_strlit("USO");
    reveal_strlit("XAUT");
    reveal_strlit("XAUT0");
    reveal_strlit("PAXG");
    reveal_strlit("IAU");
    reveal_strlit("IAUON");
    reveal_strlit("SLV");
    reveal_strlit("SLVON");
    assert("WTI"@.len() != "CL"@.len());
    assert("XTI"@.len() != "CL"@.len());
    assert("XTI"@[0] != "WTI"@[0]);
    assert("USOIL"@.len() != "CL"@.len());
    assert("USOIL"@.len() != "WTI"@.len());
    assert("USOIL"@.len() != "XTI"@.len());
    assert("USO"@.len() != "CL"@.len());
    assert("USO"@[0] != "WTI"@[0]);
    assert("USO"@[0] != "XTI"@[0]);
    assert("USO"@.len() != "USOIL"@.len());
    assert("XAUT"@.len() != "CL"@.len());
    assert("XAUT"@.len() != "WTI"@.len());
    assert("XAUT"@.len() != "XTI"@.len());
    assert("XAUT"@.len() != "USOIL"@.len());
    assert("XAUT"@.len() != "USO"@.len());
    assert("XAUT0"@.len() != "CL"@.len());
    assert("XAUT0"@.len() != "WTI"@.len());
    assert("XAUT0"@.len() != "XTI"@.len());
    assert("XAUT0"@[0] != "USOIL"@[0]);
    assert("XAUT0"@.len() != "USO"@.len());
    assert("XAUT0"@.len() != "XAUT"@.len());
    assert("PAXG"@.len() != "CL"@.len());
    assert("PAXG"@.len() != "WTI"@.len());
    assert("PAXG"@.len() != "XTI"@.len());
    assert("PAXG"@.len() != "USOIL"@.len());
    assert("PAXG"@.len() != "USO"@.len());
    assert("PAXG"@[0] != "XAUT"@[0]);
    assert("PAXG"@.len() != "XAUT0"@.len());
    assert("IAU"@.len() != "CL"@.len());
    assert("IAU"@[0] != "WTI"@[0]);
    assert("IAU"@[0] != "XTI"@[0]);
    assert("IAU"@.len() != "USOIL"@.len());
    assert("IAU"@[0] != "USO"@[0]);
    assert("IAU"@.len() != "XAUT"@.len());
    assert("IAU"@.len() != "XAUT0"@.len());
    assert("IAU"@.len() != "PAXG"@.len());
    assert("IAUON"@.len() != "CL"@.len());
    assert("IAUON"@.len() != "WTI"@.len());
    assert("IAUON"@.len() != "XTI"@.len());
    assert("IAUON"@[0] != "USOIL"@[0]);
    assert("IAUON"@.len() != "USO"@.len());
    assert("IAUON"@.len() != "XAUT"@.len());
    assert("IAUON"@[0] != "XAUT0"@[0]);
    assert("IAUON"@.len() != "PAXG"@.len());
    assert("IAUON"@.len() != "IAU"@.len());
    assert("SLV"@.len() != "CL"@.len());
    assert("SLV"@[0] != "WTI"@[0]);
    assert("SLV"@[0] != "XTI"@[0]);
    assert("SLV"@.len() != "USOIL"@.len());
    assert("SLV"@[0] != "USO"@[0]);
    assert("SLV"@.len() != "XAUT"@.len());
    assert("SLV"@.len() != "XAUT0"@.len());
    assert("SLV"@.len() != "PAXG"@.len());
    assert("SLV"@[0] != "IAU"@[0]);
    assert("SLV"@.len() != "IAUON"@.len());
    assert("SLVON"@.len() != "CL"@.len());
    assert("SLVON"@.len() != "WTI"@.len());
    assert("SLVON"@.len() != "XTI"@.len());
    assert("SLVON"@[0] != "USOIL"@[0]);
    assert("SLVON"@.len() != "USO"@.len());
    assert("SLVON"@.len() != "XAUT"@.len());
    assert("SLVON"@[0] != "XAUT0"@[0]);
    assert("SLVON"@.len() != "PAXG"@.len());
    assert("SLVON"@.len() != "IAU"@.len());
    assert("SLVON"@[0] != "IAUON"@[0]);
    assert("SLVON"@.len() != "SLV"@.len());
}

/// A recognised name is one of at most five upper-case ASCII letters and
/// digits, so a name in lower case is never recognised by itself: a
/// symbol is looked up by its upper case.
pub proof fn st_token_names_are_upper(s: Seq<char>)
    ensures
        st_token_of(s) is Some ==> 2 <= s.len() <= 5 && forall|i: int| 0 <= i < s.len() ==> ('A' <= #[trigger] s[i] <= 'Z'
            || '0' <= s[i] <= '9'),
{
    reveal_strlit("CL");
    reveal_strlit("WTI");
    reveal_strlit("XTI");
    reveal_strlit("USOIL");
    reveal_strlit("USO");
    reveal_strlit("XAUT");
    reveal_strlit("XAUT0");
    reveal_strlit("PAXG");
    reveal_strlit("IAU");
    reveal_strlit("IAUON");
    reveal_strlit("SLV");
    reveal_strlit("SLVON");
}

} // verus!
