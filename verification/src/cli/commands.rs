//! The command line's rules: the trading mode a name selects, the symbols
//! of a comma-separated list, the synthetic prices of a simulation and the
//! verdict on its combined signal.
use crate::decimal::{dadd, dint, dlit, dlt, Dec};
use crate::market::{Signal, TradingMode};
use crate::text::{chars_of, str_eq, text_of_chars, text_trimmed, trim_text};
use vstd::prelude::*;

verus! {

/// The trading mode of a name: `live`, `sim` or `simulation`; paper
/// otherwise.
pub open spec fn mode_of(name: Seq<char>) -> TradingMode {
    if name == "live"@ {
        TradingMode::Live
    } else if name == "sim"@ || name == "simulation"@ {
        TradingMode::Simulation
    } else {
        TradingMode::Paper
    }
}

/// The trading mode a name selects (see `mode_of`).
pub fn parse_mode(name: &str) -> (r: TradingMode)
    ensures
        r == mode_of(name@),
{
    if str_eq(name, "live") {
        TradingMode::Live
    } else if str_eq(name, "sim") || str_eq(name, "simulation") {
        TradingMode::Simulation
    } else {
        TradingMode::Paper
    }
}

/// The pieces of a text between commas (an empty text is one empty piece).
pub open spec fn comma_pieces(s: Seq<char>) -> Seq<Seq<char>>
    decreases s.len(),
{
    if s.len() == 0 {
        seq![Seq::empty()]
    } else {
        let p = comma_pieces(s.drop_last());
        if s.last() == ',' {
            p.push(Seq::empty())
        } else {
            p.update(p.len() - 1, p.last().push(s.last()))
        }
    }
}

proof fn lemma_comma_pieces_len(s: Seq<char>)
    ensures
        comma_pieces(s).len() >= 1,
    decreases s.len(),
{
    if s.len() > 0 {
        lemma_comma_pieces_len(s.drop_last());
    }
}

/// The symbols of a comma-separated list, each trimmed of white space.
pub fn parse_symbols(list: &str) -> (r: Vec<String>)
    ensures
        r@.map_values(|s: String| s@) == comma_pieces(list@).map_values(|p: Seq<char>| text_trimmed(p)),
{
    let cs = chars_of(list);
    let mut pieces: Vec<Vec<char>> = Vec::new();
    pieces.push(Vec::new());
    let mut i: usize = 0;
    while i < cs.len()
        invariant
            i <= cs.len(),
            cs@ == list@,
            pieces@.len() >= 1,
            pieces@.map_values(|p: Vec<char>| p@) == comma_pieces(list@.take(i as int)),
        decreases cs.len() - i,
    {
        proof {
            assert(list@.take(i + 1).drop_last() =~= list@.take(i as int));
            assert(list@.take(i + 1).last() == cs@[i as int]);
        }
        let ghost before = pieces@.map_values(|p: Vec<char>| p@);
        if cs[i] == ',' {
            pieces.push(Vec::new());
            proof {
                assert(pieces@.map_values(|p: Vec<char>| p@) =~= before.push(Seq::empty()));
            }
        } else {
            let last = pieces.len() - 1;
            let mut piece = pieces.remove(last);
            piece.push(cs[i]);
            pieces.push(piece);
            proof {
                assert(pieces@.map_values(|p: Vec<char>| p@) =~= before.update(
                    before.len() - 1,
                    before.last().push(cs@[i as int]),
                ));
            }
        }
        i = i + 1;
    }
    proof {
        assert(list@.take(i as int) =~= list@);
    }
    let mut r: Vec<String> = Vec::new();
    let mut k: usize = 0;
    while k < pieces.len()
        invariant
            k <= pieces.len(),
            r@.len() == k,
            forall|j: int| 0 <= j < k ==> (#[trigger] r@[j])@ == text_trimmed(pieces@[j]@),
        decreases pieces.len() - k,
    {
        let t = text_of_chars(&pieces[k]);
        r.push(trim_text(t.as_str()));
        k = k + 1;
    }
    proof {
        assert(r@.map_values(|s: String| s@) =~= pieces@.map_values(|p: Vec<char>| p@).map_values(
            |p: Seq<char>| text_trimmed(p),
        ));
    }
    r
}

/// The state of the simulation's generator after one step.
pub open spec fn lcg_next(state: u64) -> u64 {
    ((state as int * 1103515245 + 12345) % 18446744073709551616) as u64
}

/// The price change a generator state gives: between -100 and 99.
pub open spec fn lcg_change(state: u64) -> int {
    (state % 200) as int - 100
}

/// The generator states after each of `n` steps from a seed.
pub open spec fn lcg_state(seed: u64, n: nat) -> u64
    decreases n,
{
    if n == 0 {
        seed
    } else {
        lcg_next(lcg_state(seed, (n - 1) as nat))
    }
}

/// The synthetic prices: the start, then each moved by the change of the
/// generator's next state.
pub open spec fn synthetic_of(start: (int, int), seed: u64, n: nat) -> Seq<(int, int)>
    decreases n,
{
    if n == 0 {
        seq![start]
    } else {
        let p = synthetic_of(start, seed, (n - 1) as nat);
        p.push(dadd(p.last(), dint(lcg_change(lcg_state(seed, n)))))
    }
}

/// `steps` synthetic prices after `start`, from a linear congruential
/// generator seeded with `seed`.
pub fn synthetic_prices(start: Dec, seed: u64, steps: usize) -> (r: Vec<Dec>)
    ensures
        r@.map_values(|d: Dec| d@) == synthetic_of(start@, seed, steps as nat),
{
    let mut prices: Vec<Dec> = Vec::new();
    prices.push(start);
    let mut state: u64 = seed;
    let mut i: usize = 0;
    proof {
        assert(prices@.map_values(|d: Dec| d@) =~= seq![start@]);
    }
    while i < steps
        invariant
            i <= steps,
            state == lcg_state(seed, i as nat),
            prices@.len() == i + 1,
            prices@.map_values(|d: Dec| d@) == synthetic_of(start@, seed, i as nat),
        decreases steps - i,
    {
        let next = state.wrapping_mul(1103515245).wrapping_add(12345);
        proof {
            assert(next == lcg_next(state)) by {
                assert((state as int * 1103515245) % 18446744073709551616 + 12345 < 2 * 18446744073709551616);
                vstd::arithmetic::div_mod::lemma_add_mod_noop(state as int * 1103515245, 12345, 18446744073709551616);
            }
        }
        state = next;
        let change: i64 = (state % 200) as i64 - 100;
        let last = prices[prices.len() - 1];
        let ghost before = prices@.map_values(|d: Dec| d@);
        prices.push(last.add(Dec::from_i64(change)));
        proof {
            assert(prices@.map_values(|d: Dec| d@) =~= before.push(dadd(before.last(), dint(lcg_change(state)))));
        }
        i = i + 1;
    }
    prices
}

/// Verdict of a simulation on its combined signal.
#[derive(Debug, Clone, Copy, PartialEq, Eq, Structural)]
pub enum SimVerdict {
    OpenLong,
    OpenShort,
    NoTrade,
}

/// A bullish signal above 60% confidence opens a long, a bearish one a
/// short; anything else trades nothing.
pub fn simulation_verdict(signal: Signal, confidence: Dec) -> (r: SimVerdict)
    ensures
        r == if crate::market::signal_numeric(signal) > 0 && dlt(dlit(6, 1), confidence@) {
            SimVerdict::OpenLong
        } else if crate::market::signal_numeric(signal) < 0 && dlt(dlit(6, 1), confidence@) {
            SimVerdict::OpenShort
        } else {
            SimVerdict::NoTrade
        },
{
    let strong = confidence.gt(&Dec::new(6, 1));
    if signal.is_bullish() && strong {
        SimVerdict::OpenLong
    } else if signal.is_bearish() && strong {
        SimVerdict::OpenShort
    } else {
        SimVerdict::NoTrade
    }
}

/// The message of a verdict.
pub fn verdict_text(v: SimVerdict) -> (r: &'static str)
    ensures
        r@ == match v {
            SimVerdict::OpenLong => "Would open LONG position"@,
            SimVerdict::OpenShort => "Would open SHORT position"@,
            SimVerdict::NoTrade => "No trade - insufficient signal strength"@,
        },
{
    match v {
        SimVerdict::OpenLong => "Would open LONG position",
        SimVerdict::OpenShort => "Would open SHORT position",
        SimVerdict::NoTrade => "No trade - insufficient signal strength",
    }
}

} // verus!
