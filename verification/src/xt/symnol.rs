use crate::util::symbol::Symbol;
use crate::util::text::to_lowercase;
use vstd::prelude::*;

verus! {

/// The XT name of a market: prefix, base, suffix, an underscore and the
/// quote, all in lower case.
pub open spec fn xt_symbol_id(s: Symbol) -> Seq<char> {
    crate::util::text::unicode_lowercase(s.prefix@ + s.base@ + s.suffix@ + "_"@ + s.quote@)
}

/// The XT name of a market; for a market whose prefix and suffix are
/// ASCII, the ASCII lower case of prefix, base, suffix, `_` and quote.
pub fn symbol_id(symbol: &Symbol) -> (s: String)
    ensures
        s@ == xt_symbol_id(*symbol),
        vstd::utf8::is_ascii_chars(symbol.prefix@) && vstd::utf8::is_ascii_chars(symbol.suffix@) ==> s@
            == crate::util::text::lower(symbol.prefix@ + symbol.base@ + symbol.suffix@ + "_"@ + symbol.quote@),
{
    let mut s = String::from_str(symbol.prefix.as_str());
    s.append(symbol.base.as_str());
    s.append(symbol.suffix.as_str());
    s.append("_");
    s.append(symbol.quote.as_str());
    proof {
        reveal_strlit("_");
        let parts = symbol.prefix@ + symbol.base@ + symbol.suffix@ + "_"@ + symbol.quote@;
        assert(s@ =~= parts);
        if vstd::utf8::is_ascii_chars(symbol.prefix@) && vstd::utf8::is_ascii_chars(symbol.suffix@) {
            assert(vstd::utf8::is_ascii_chars(parts)) by {
                assert forall|i: int| 0 <= i < parts.len() implies '\0' <= #[trigger] parts[i] <= '\u{7f}' by {
                    let a = symbol.prefix@.len();
                    let b = a + symbol.base@.len();
                    let c = b + symbol.suffix@.len();
                    if i < a {
                        assert(parts[i] == symbol.prefix@[i]);
                    } else if i < b {
                        assert(parts[i] == symbol.base@[i - a]);
                    } else if i < c {
                        assert(parts[i] == symbol.suffix@[i - b]);
                    } else if i == c {
                        assert(parts[i] == '_');
                    } else {
                        assert(parts[i] == symbol.quote@[i - c - 1]);
                    }
                }
            }
        }
    }
    to_lowercase(s.as_str())
}

} // verus!
