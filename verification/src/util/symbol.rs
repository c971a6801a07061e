use crate::util::asset::Asset;
use vstd::prelude::*;

verus! {

/// Kind of a market.
#[derive(Debug, Clone, Copy, PartialEq, Eq, Structural)]
pub enum SymbolKind {
    /// Unknown.
    Unknown,
    /// Spot.
    Spot,
    /// Linear perpetual.
    Linear,
    /// Inverse perpetual.
    Inverse,
    /// Dated option.
    Option,
}

impl SymbolKind {
    /// The one-letter tag of the kind in the display form of a symbol.
    pub open spec fn tag(self) -> Seq<char> {
        match self {
            SymbolKind::Unknown => "U"@,
            SymbolKind::Spot => "S"@,
            SymbolKind::Linear => "F"@,
            SymbolKind::Inverse => "-F"@,
            SymbolKind::Option => "Q"@,
        }
    }
}

/// A market: its kind, its assets, how the exchange names it, and its
/// precisions. The prices and sizes that scale its contracts are kept with
/// it by the caller.
#[derive(Debug, Clone)]
pub struct Symbol {
    pub kind: SymbolKind,
    pub base: Asset,
    pub base_id: String,
    pub quote: Asset,
    pub quote_id: String,
    pub prefix: String,
    pub suffix: String,
    /// Decimals of a size.
    pub precision: i8,
    /// Decimals of a price.
    pub precision_price: i8,
    /// Whether positions may be opened.
    pub can_open: bool,
}

/// The defaults of a fresh symbol of the given kind and assets.
pub open spec fn fresh_symbol(s: Symbol, kind: SymbolKind, base: Seq<char>, quote: Seq<char>) -> bool {
    &&& s.kind == kind
    &&& s.base@ == base
    &&& s.quote@ == quote
    &&& s.base_id@ == Seq::<char>::empty()
    &&& s.quote_id@ == Seq::<char>::empty()
    &&& s.prefix@ == Seq::<char>::empty()
    &&& s.suffix@ == Seq::<char>::empty()
    &&& s.precision == 0
    &&& s.precision_price == 2
    &&& s.can_open
}

/// The display form of a symbol: kind tag, a dot, base, a dash, quote.
pub open spec fn symbol_display(kind: SymbolKind, base: Seq<char>, quote: Seq<char>) -> Seq<char> {
    kind.tag() + "."@ + base + "-"@ + quote
}

impl Symbol {
    pub fn unknown(base: Asset, quote: Asset) -> (s: Symbol)
        ensures
            fresh_symbol(s, SymbolKind::Unknown, base@, quote@),
    {
        Symbol {
            kind: SymbolKind::Unknown,
            base,
            base_id: String::new(),
            quote,
            quote_id: String::new(),
            prefix: String::new(),
            suffix: String::new(),
            precision: 0,
            precision_price: 2,
            can_open: true,
        }
    }

    pub fn spot(base: Asset, quote: Asset) -> (s: Symbol)
        ensures
            fresh_symbol(s, SymbolKind::Spot, base@, quote@),
    {
        let mut ret = Self::unknown(base, quote);
        ret.kind = SymbolKind::Spot;
        ret
    }

    pub fn derivative(base: Asset, quote: Asset) -> (s: Symbol)
        ensures
            fresh_symbol(s, SymbolKind::Linear, base@, quote@),
    {
        let mut ret = Self::unknown(base, quote);
        ret.kind = SymbolKind::Linear;
        ret
    }

    pub fn option(base: Asset, quote: Asset) -> (s: Symbol)
        ensures
            fresh_symbol(s, SymbolKind::Option, base@, quote@),
    {
        let mut ret = Self::unknown(base, quote);
        ret.kind = SymbolKind::Option;
        ret
    }

    pub fn is_spot(&self) -> (b: bool)
        ensures
            b <==> self.kind == SymbolKind::Spot,
    {
        match self.kind {
            SymbolKind::Spot => true,
            _ => false,
        }
    }

    pub fn is_derivative(&self) -> (b: bool)
        ensures
            b <==> self.kind == SymbolKind::Linear,
    {
        match self.kind {
            SymbolKind::Linear => true,
            _ => false,
        }
    }

    /// The display form, such as `F.BTC-USDT`.
    pub fn to_string(&self) -> (s: String)
        ensures
            s@ == symbol_display(self.kind, self.base@, self.quote@),
    {
        let mut s = match self.kind {
            SymbolKind::Unknown => String::from_str("U"),
            SymbolKind::Spot => String::from_str("S"),
            SymbolKind::Linear => String::from_str("F"),
            SymbolKind::Inverse => String::from_str("-F"),
            SymbolKind::Option => String::from_str("Q"),
        };
        s.append(".");
        s.append(self.base.as_str());
        s.append("-");
        s.append(self.quote.as_str());
        s
    }
}

/// The display form of a symbol starts with the tag of its kind (U, S, F,
/// -F, Q; distinct kinds have distinct tags), then a dot, the base, a dash
/// and the quote.
pub proof fn symbol_display_law(kind: SymbolKind, other: SymbolKind, base: Seq<char>, quote: Seq<char>)
    ensures
        SymbolKind::Unknown.tag() == "U"@ && SymbolKind::Spot.tag() == "S"@ && SymbolKind::Linear.tag() == "F"@
            && SymbolKind::Inverse.tag() == "-F"@ && SymbolKind::Option.tag() == "Q"@,
        kind.tag() == other.tag() ==> kind == other,
        symbol_display(kind, base, quote).subrange(0, kind.tag().len() as int) == kind.tag(),
        symbol_display(kind, base, quote).len() == kind.tag().len() + base.len() + quote.len() + 2,
        symbol_display(kind, base, quote)[kind.tag().len() as int] == '.',
        symbol_display(kind, base, quote).subrange(kind.tag().len() as int + 1, kind.tag().len() + 1 + base.len() as int)
            == base,
        symbol_display(kind, base, quote).subrange(
            kind.tag().len() as int + 2 + base.len(),
            symbol_display(kind, base, quote).len() as int,
        ) == quote,
{
    reveal_strlit("U");
    reveal_strlit("S");
    reveal_strlit("F");
    reveal_strlit("-F");
    reveal_strlit("Q");
    reveal_strlit(".");
    reveal_strlit("-");
    let d = symbol_display(kind, base, quote);
    let t = kind.tag();
    assert(d =~= t + "."@ + base + "-"@ + quote);
    assert(d.subrange(0, t.len() as int) =~= t);
    assert(d.subrange(t.len() as int + 1, t.len() + 1 + base.len() as int) =~= base);
    assert(d.subrange(t.len() as int + 2 + base.len(), d.len() as int) =~= quote);
    if kind.tag() == other.tag() {
        assert(kind.tag().len() == other.tag().len());
        assert(kind.tag()[0] == other.tag()[0]);
    }
}

} // verus!
