use crate::util::symbol::Symbol;
use crate::util::text::to_ascii_lowercase;
use vstd::prelude::*;

verus! {

/// The Weex name of a market: for spot, base and quote followed by
/// `_SPBL`; otherwise `cmt_`, the prefix, the base in lower case, the
/// suffix and the quote in lower case.
pub open spec fn weex_symbol_id(s: Symbol) -> Seq<char> {
    if s.kind == crate::util::symbol::SymbolKind::Spot {
        s.base@ + s.quote@ + "_SPBL"@
    } else {
        "cmt_"@ + s.prefix@ + crate::util::text::lower(s.base@) + s.suffix@ + crate::util::text::lower(s.quote@)
    }
}

/// A Weex spot name is the base and the quote followed by `_SPBL`; any
/// other name starts with `cmt_` and the prefix, and its base and quote
/// hold no upper-case ASCII letter, so a name whose prefix and suffix hold
/// none holds none at all.
pub proof fn weex_symbol_id_law(s: Symbol)
    ensures
        s.kind == crate::util::symbol::SymbolKind::Spot ==> weex_symbol_id(s).subrange(0, s.base@.len() as int)
            == s.base@ && weex_symbol_id(s).subrange(
            weex_symbol_id(s).len() - 5,
            weex_symbol_id(s).len() as int,
        ) == "_SPBL"@,
        s.kind != crate::util::symbol::SymbolKind::Spot ==> weex_symbol_id(s).subrange(0, 4) == "cmt_"@
            && weex_symbol_id(s).subrange(4, 4 + s.prefix@.len() as int) == s.prefix@,
        s.kind != crate::util::symbol::SymbolKind::Spot && (forall|i: int|
            0 <= i < s.prefix@.len() ==> !('A' <= #[trigger] s.prefix@[i] <= 'Z')) && (forall|i: int|
            0 <= i < s.suffix@.len() ==> !('A' <= #[trigger] s.suffix@[i] <= 'Z')) ==> forall|i: int|
            0 <= i < weex_symbol_id(s).len() ==> !('A' <= #[trigger] weex_symbol_id(s)[i] <= 'Z'),
{
    reveal_strlit("_SPBL");
    reveal_strlit("cmt_");
    let id = weex_symbol_id(s);
    crate::util::text::ascii_text_case_law(s.base@);
    crate::util::text::ascii_text_case_law(s.quote@);
    if s.kind == crate::util::symbol::SymbolKind::Spot {
        assert(id.subrange(0, s.base@.len() as int) =~= s.base@);
        assert(id.subrange(id.len() - 5, id.len() as int) =~= "_SPBL"@);
    } else {
        let lb = crate::util::text::lower(s.base@);
        let lq = crate::util::text::lower(s.quote@);
        assert(id =~= "cmt_"@ + s.prefix@ + lb + s.suffix@ + lq);
        assert(id.subrange(0, 4) =~= "cmt_"@);
        assert(id.subrange(4, 4 + s.prefix@.len() as int) =~= s.prefix@);
        if (forall|i: int| 0 <= i < s.prefix@.len() ==> !('A' <= #[trigger] s.prefix@[i] <= 'Z')) && (forall|i: int|
            0 <= i < s.suffix@.len() ==> !('A' <= #[trigger] s.suffix@[i] <= 'Z')) {
            let a = 4 + s.prefix@.len();
            let b = a + lb.len();
            let c = b + s.suffix@.len();
            assert forall|i: int| 0 <= i < id.len() implies !('A' <= #[trigger] id[i] <= 'Z') by {
                if i < 4 {
                    assert(id[i] == "cmt_"@[i]);
                } else if i < a {
                    assert(id[i] == s.prefix@[i - 4]);
                } else if i < b {
                    assert(id[i] == lb[i - a]);
                } else if i < c {
                    assert(id[i] == s.suffix@[i - b]);
                } else {
                    assert(id[i] == lq[i - c]);
                }
            }
        }
    }
}

/// The Weex name of a market.
pub fn symbol_id(symbol: &Symbol) -> (s: String)
    ensures
        s@ == weex_symbol_id(*symbol),
{
    if symbol.is_spot() {
        let mut s = String::from_str(symbol.base.as_str());
        s.append(symbol.quote.as_str());
        s.append("_SPBL");
        s
    } else {
        let mut s = String::from_str("cmt_");
        s.append(symbol.prefix.as_str());
        s.append(to_ascii_lowercase(symbol.base.as_str()).as_str());
        s.append(symbol.suffix.as_str());
        s.append(to_ascii_lowercase(symbol.quote.as_str()).as_str());
        s
    }
}

} // verus!
