//! [`Feature`]: one scalar observation column (an indicator, a raw price field
//! or a microstructure field), and its canonical [`Feature::key`], the stable
//! name used in the observation layout.

use vstd::prelude::*;
use crate::text::{decimal, push_decimal, push_signed, signed_decimal};

verus! {

/// A raw price / volume field of a candle.
#[derive(Clone, Copy, Debug, PartialEq, Eq, Structural)]
pub enum PriceField {
    Open,
    High,
    Low,
    Close,
    Volume,
}

impl PriceField {
    /// The canonical lowercase name of the field.
    pub open spec fn spec_name(self) -> Seq<char> {
        match self {
            PriceField::Open => "open"@,
            PriceField::High => "high"@,
            PriceField::Low => "low"@,
            PriceField::Close => "close"@,
            PriceField::Volume => "volume"@,
        }
    }

    /// The canonical lowercase field name.
    pub fn as_str(self) -> (s: &'static str)
        ensures
            s@ == self.spec_name(),
    {
        match self {
            PriceField::Open => "open",
            PriceField::High => "high",
            PriceField::Low => "low",
            PriceField::Close => "close",
            PriceField::Volume => "volume",
        }
    }
}

/// A microstructure field. Level fields (`BidPx`/`BidSz`/`AskPx`/`AskSz`) take a
/// `level`; the aggregate fields (`Spread`/`Imbalance`/`Funding`/`Oi`) do not.
#[derive(Clone, Copy, Debug, PartialEq, Eq, Structural)]
pub enum MicroField {
    BidPx,
    BidSz,
    AskPx,
    AskSz,
    Spread,
    Imbalance,
    Funding,
    Oi,
}

impl MicroField {
    /// The canonical lowercase name of the field.
    pub open spec fn spec_name(self) -> Seq<char> {
        match self {
            MicroField::BidPx => "bid_px"@,
            MicroField::BidSz => "bid_sz"@,
            MicroField::AskPx => "ask_px"@,
            MicroField::AskSz => "ask_sz"@,
            MicroField::Spread => "spread"@,
            MicroField::Imbalance => "imbalance"@,
            MicroField::Funding => "funding"@,
            MicroField::Oi => "oi"@,
        }
    }

    /// Whether the field is addressed by an orderbook level.
    pub open spec fn spec_is_leveled(self) -> bool {
        match self {
            MicroField::BidPx | MicroField::BidSz | MicroField::AskPx | MicroField::AskSz => true,
            _ => false,
        }
    }

    /// The canonical lowercase field name.
    pub fn as_str(self) -> (s: &'static str)
        ensures
            s@ == self.spec_name(),
    {
        match self {
            MicroField::BidPx => "bid_px",
            MicroField::BidSz => "bid_sz",
            MicroField::AskPx => "ask_px",
            MicroField::AskSz => "ask_sz",
            MicroField::Spread => "spread",
            MicroField::Imbalance => "imbalance",
            MicroField::Funding => "funding",
            MicroField::Oi => "oi",
        }
    }

    /// Whether this field is addressed by an orderbook `level`.
    pub fn is_leveled(self) -> (b: bool)
        ensures
            b == self.spec_is_leveled(),
    {
        match self {
            MicroField::BidPx | MicroField::BidSz | MicroField::AskPx | MicroField::AskSz => true,
            _ => false,
        }
    }
}

/// An indicator parameter, held by its canonical rendering: a whole number of
/// magnitude below `1e15` by its integer value, any other value (a fraction,
/// a huge or a non-finite number) by its shortest round-trip text.
#[derive(Clone, Debug, PartialEq)]
pub enum Param {
    Whole(i64),
    Real(String),
}

impl Param {
    /// The text a parameter renders to inside a key.
    pub open spec fn spec_text(&self) -> Seq<char> {
        match self {
            Param::Whole(i) => signed_decimal(*i as int),
            Param::Real(s) => s@,
        }
    }

    /// Append the rendering of the parameter to `out`.
    pub fn push_text(&self, out: &mut String)
        ensures
            final(out)@ == old(out)@ + self.spec_text(),
    {
        match self {
            Param::Whole(i) => push_signed(out, *i),
            Param::Real(s) => out.append(s.as_str()),
        }
    }
}

/// The parameters joined by `,`.
pub open spec fn joined_params(params: Seq<Param>) -> Seq<char>
    decreases params.len(),
{
    if params.len() == 0 {
        Seq::empty()
    } else if params.len() == 1 {
        params[0].spec_text()
    } else {
        joined_params(params.drop_last()) + seq![','] + params.last().spec_text()
    }
}

/// A single scalar observation column.
#[derive(Clone, Debug, PartialEq)]
#[allow(inconsistent_fields)]
pub enum Feature {
    /// An indicator resolved by name + params; `field` selects a sub-output
    /// for multi-output indicators (primary output when absent).
    Indicator { name: String, params: Vec<Param>, field: Option<String> },
    /// A raw OHLCV price field.
    Price { field: PriceField },
    /// A microstructure field; `level` selects an orderbook level for the level
    /// fields (ignored for the aggregate fields).
    Microstructure { field: MicroField, level: Option<u32> },
}

impl Feature {
    /// The canonical key: `name(p1,p2,..)` with an optional `.field` for an
    /// indicator, `price.<field>`, `micro.<field>.<level>` for a level field
    /// (level `0` when absent) and `micro.<field>` for an aggregate one.
    pub open spec fn spec_key(&self) -> Seq<char> {
        match self {
            Feature::Indicator { name, params, field } => {
                let base = name@ + seq!['('] + joined_params(params@) + seq![')'];
                match field {
                    Some(f) => base + seq!['.'] + f@,
                    None => base,
                }
            },
            Feature::Price { field } => "price."@ + field.spec_name(),
            Feature::Microstructure { field, level } => {
                if field.spec_is_leveled() {
                    "micro."@ + field.spec_name() + seq!['.'] + decimal(
                        match level {
                            Some(l) => *l as nat,
                            None => 0,
                        },
                    )
                } else {
                    "micro."@ + field.spec_name()
                }
            },
        }
    }

    /// The canonical key for this feature, e.g. `Rsi(14)`, `Macd(12,26,9).hist`,
    /// `price.close`, `micro.bid_sz.0`, `micro.funding`.
    pub fn key(&self) -> (k: String)
        ensures
            k@ == self.spec_key(),
    {
        match self {
            Feature::Indicator { name, params, field } => {
                let mut k = name.clone();
                k.push('(');
                let ghost start = k@;
                let mut i: usize = 0;
                while i < params.len()
                    invariant
                        i <= params.len(),
                        k@ == start + joined_params(params@.take(i as int)),
                    decreases params.len() - i,
                {
                    proof {
                        assert(params@.take(i as int + 1).drop_last() =~= params@.take(i as int));
                    }
                    if i > 0 {
                        k.push(',');
                    }
                    params[i].push_text(&mut k);
                    i = i + 1;
                }
                proof {
                    assert(params@.take(params.len() as int) =~= params@);
                }
                k.push(')');
                match field {
                    Some(f) => {
                        k.push('.');
                        k.append(f.as_str());
                    },
                    None => {},
                }
                k
            },
            Feature::Price { field } => {
                let mut k = String::from_str("price.");
                k.append(field.as_str());
                k
            },
            Feature::Microstructure { field, level } => {
                let mut k = String::from_str("micro.");
                k.append(field.as_str());
                if field.is_leveled() {
                    k.push('.');
                    let l: u32 = match level {
                        Some(l) => *l,
                        None => 0,
                    };
                    push_decimal(&mut k, l as u64);
                }
                k
            },
        }
    }
}

/// Distinct price fields have distinct names.
proof fn lemma_price_names_distinct(a: PriceField, b: PriceField)
    ensures
        a != b ==> a.spec_name() != b.spec_name(),
{
    reveal_strlit("open");
    reveal_strlit("high");
    reveal_strlit("low");
    reveal_strlit("close");
    reveal_strlit("volume");
    if a != b && a.spec_name() == b.spec_name() {
        assert(a.spec_name()[0] == b.spec_name()[0]);
        assert(a.spec_name().len() == b.spec_name().len());
    }
}

/// The key of a price feature is `price.` followed by the name of that very
/// field, so two price features share a key only when they read the same
/// field, and each key names its own field.
pub proof fn law_price_key(a: PriceField, b: PriceField)
    ensures
        (Feature::Price { field: a }).spec_key() == "price."@ + a.spec_name(),
        (Feature::Price { field: a }).spec_key() == (Feature::Price { field: b }).spec_key() <==> a == b,
{
    reveal_strlit("price.");
    lemma_price_names_distinct(a, b);
    let ka = (Feature::Price { field: a }).spec_key();
    let kb = (Feature::Price { field: b }).spec_key();
    if ka == kb {
        assert(ka.subrange(6, ka.len() as int) =~= a.spec_name());
        assert(kb.subrange(6, kb.len() as int) =~= b.spec_name());
    }
}

} // verus!
