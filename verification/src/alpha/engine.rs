//! Unified alpha engine combining momentum, mean reversion, regime and
//! arbitrage signals.
use crate::alpha::arbitrage::{is_default_arbitrage, ArbitrageEngine};
use crate::alpha::mean_reversion::{is_default_mean_reversion, reversion_signal_of, MeanReversionEngine};
use crate::alpha::momentum::{is_default_momentum, momentum_signal_of, MomentumEngine};
use crate::alpha::regime::{detect_of, is_default_regime_detector, RegimeDetector};
use crate::decimal::{
    dadd, ddiv, dint, dle, dlit, dlt, dmin, dmul, dsub, lemma_pow10_table, pow10, units, Dec,
};
use crate::market::{opt_signal_view, signal_view, ArbOpportunity, Regime, Signal, StrategySignal};
use crate::series::vals;
use vstd::prelude::*;

verus! {

/// Unified alpha engine.
#[derive(Debug, Clone)]
pub struct AlphaEngine {
    pub momentum: MomentumEngine,
    pub mean_reversion: MeanReversionEngine,
    pub regime_detector: RegimeDetector,
    pub arbitrage: ArbitrageEngine,
    /// Minimum confidence for a strategy signal to be kept.
    pub min_confidence: Dec,
}

/// The parts of a strategy signal.
pub type SignalParts = (Seq<char>, Signal, (int, int), Seq<char>);

/// Confidence multiplier of a signal in a regime: trend-following signals
/// gain, contrarian and choppy or volatile conditions lose.
pub open spec fn regime_multiplier(regime: Regime, signal: Signal) -> (int, int) {
    match (regime, signal) {
        (Regime::TrendingUp, Signal::Buy) | (Regime::TrendingUp, Signal::StrongBuy) => dlit(12, 1),
        (Regime::TrendingDown, Signal::Sell) | (Regime::TrendingDown, Signal::StrongSell) => dlit(
            12,
            1,
        ),
        (Regime::MeanReverting, _) => dlit(11, 1),
        (Regime::Choppy, _) => dlit(6, 1),
        (Regime::HighVolatility, _) => dlit(8, 1),
        (Regime::TrendingUp, Signal::Sell) | (Regime::TrendingUp, Signal::StrongSell) => dlit(7, 1),
        (Regime::TrendingDown, Signal::Buy) | (Regime::TrendingDown, Signal::StrongBuy) => dlit(
            7,
            1,
        ),
        _ => dlit(10, 1),
    }
}

/// Confidence adjusted for the regime, capped at 0.95.
pub open spec fn adjusted_confidence(c: (int, int), signal: Signal, regime: Regime) -> (int, int) {
    dmin(dmul(c, regime_multiplier(regime, signal)), dlit(95, 2))
}

/// The signal that expresses a regime on its own.
pub open spec fn regime_signal_of(regime: Regime) -> SignalParts {
    match regime {
        Regime::TrendingUp => ("regime"@, Signal::Buy, dlit(6, 1), "Bullish regime detected"@),
        Regime::TrendingDown => ("regime"@, Signal::Sell, dlit(6, 1), "Bearish regime detected"@),
        Regime::MeanReverting => ("regime"@, Signal::Hold, dlit(5, 1), "Range-bound market"@),
        Regime::HighVolatility => (
            "regime"@,
            Signal::Hold,
            dlit(4, 1),
            "High volatility - caution"@,
        ),
        Regime::LowVolatility => (
            "regime"@,
            Signal::Hold,
            dlit(5, 1),
            "Low volatility - watch for breakout"@,
        ),
        Regime::Choppy => ("regime"@, Signal::Hold, dlit(3, 1), "Choppy market - avoid trading"@),
    }
}

/// A strategy signal after the regime adjustment, kept only when its
/// confidence reaches the minimum.
pub open spec fn kept(o: Option<SignalParts>, regime: Regime, min_conf: (int, int)) -> Seq<
    SignalParts,
> {
    match o {
        Some((n, s, c, reason)) => {
            let c2 = adjusted_confidence(c, s, regime);
            if dle(min_conf, c2) {
                seq![(n, s, c2, reason)]
            } else {
                Seq::empty()
            }
        },
        None => Seq::empty(),
    }
}

/// All signals for a price series: the kept momentum and mean reversion
/// signals, then the regime signal.
pub open spec fn signals_of(e: AlphaEngine, p: Seq<(int, int)>) -> Seq<SignalParts> {
    let regime = detect_of(e.regime_detector, p);
    kept(momentum_signal_of(e.momentum, p), regime, e.min_confidence@) + kept(
        reversion_signal_of(e.mean_reversion, p),
        regime,
        e.min_confidence@,
    ) + seq![regime_signal_of(regime)]
}

/// Buy score, sell score and total weight of a list of signals, each
/// weighted by its confidence (strong signals count double).
pub open spec fn scores(s: Seq<SignalParts>) -> ((int, int), (int, int), (int, int))
    decreases s.len(),
{
    if s.len() == 0 {
        (dint(0), dint(0), dint(0))
    } else {
        let (b, sl, t) = scores(s.drop_last());
        let w = s.last().2;
        let t2 = dadd(t, w);
        match s.last().1 {
            Signal::StrongBuy => (dadd(b, dmul(w, dint(2))), sl, t2),
            Signal::Buy => (dadd(b, w), sl, t2),
            Signal::StrongSell => (b, dadd(sl, dmul(w, dint(2))), t2),
            Signal::Sell => (b, dadd(sl, w), t2),
            Signal::Hold => (b, sl, t2),
        }
    }
}

/// Overall signal and confidence of a list of signals.
pub open spec fn combined_of(s: Seq<SignalParts>) -> (Signal, (int, int)) {
    if s.len() == 0 {
        (Signal::Hold, dlit(0, 1))
    } else {
        let (b, sl, t) = scores(s);
        if units(t) == 0 {
            (Signal::Hold, dlit(0, 1))
        } else {
            let net = ddiv(dsub(b, sl), t);
            let conf = ddiv(ddiv(dadd(b, sl), t), dint(2));
            let sig = if dlt(dlit(5, 1), net) {
                Signal::StrongBuy
            } else if dlt(dlit(2, 1), net) {
                Signal::Buy
            } else if dlt(net, dlit(-5, 1)) {
                Signal::StrongSell
            } else if dlt(net, dlit(-2, 1)) {
                Signal::Sell
            } else {
                Signal::Hold
            };
            (sig, dmin(conf, dlit(95, 2)))
        }
    }
}

/// The engine's parameters for which its signal generators do not fail.
pub open spec fn engine_ok(e: AlphaEngine) -> bool {
    &&& e.momentum.lookback > 0
    &&& e.momentum.lookback < usize::MAX
    &&& e.momentum.rsi_period > 0
    &&& e.momentum.rsi_period < usize::MAX
    &&& e.mean_reversion.lookback > 0
    &&& e.regime_detector.vol_lookback < usize::MAX
    &&& e.regime_detector.trend_lookback > 0
}

impl Default for AlphaEngine {
    fn default() -> (r: AlphaEngine)
        ensures
            engine_ok(r),
            is_default_momentum(r.momentum),
            is_default_mean_reversion(r.mean_reversion),
            is_default_regime_detector(r.regime_detector),
            is_default_arbitrage(r.arbitrage),
            r.min_confidence@ == dlit(5, 1),
    {
        AlphaEngine {
            momentum: MomentumEngine::default(),
            mean_reversion: MeanReversionEngine::default(),
            regime_detector: RegimeDetector::default(),
            arbitrage: ArbitrageEngine::default(),
            min_confidence: Dec::new(5, 1),
        }
    }
}

impl AlphaEngine {
    pub fn new(
        momentum: MomentumEngine,
        mean_reversion: MeanReversionEngine,
        regime_detector: RegimeDetector,
        arbitrage: ArbitrageEngine,
    ) -> (r: AlphaEngine)
        ensures
            r.momentum == momentum,
            r.mean_reversion == mean_reversion,
            r.regime_detector == regime_detector,
            r.arbitrage == arbitrage,
            r.min_confidence@ == dlit(5, 1),
    {
        AlphaEngine {
            momentum,
            mean_reversion,
            regime_detector,
            arbitrage,
            min_confidence: Dec::new(5, 1),
        }
    }

    /// Current market regime.
    pub fn detect_regime(&self, prices: &Vec<Dec>) -> (r: Regime)
        requires
            engine_ok(*self),
        ensures
            r == detect_of(self.regime_detector, vals(prices@)),
    {
        self.regime_detector.detect(prices)
    }

    /// All signals for a symbol: momentum and mean reversion signals whose
    /// regime-adjusted confidence reaches `min_confidence`, then the regime signal.
    pub fn generate_signals(&self, symbol: &str, prices: &Vec<Dec>) -> (r: Vec<StrategySignal>)
        requires
            engine_ok(*self),
        ensures
            r@.map_values(|s: StrategySignal| signal_view(s)) == signals_of(*self, vals(prices@)),
    {
        let mut signals: Vec<StrategySignal> = Vec::new();
        let regime = self.detect_regime(prices);
        let ghost p = vals(prices@);
        let ghost mom = kept(momentum_signal_of(self.momentum, p), regime, self.min_confidence@);
        let ghost rev = kept(
            reversion_signal_of(self.mean_reversion, p),
            regime,
            self.min_confidence@,
        );
        match self.momentum.generate_signal(prices) {
            Some(sig) => {
                let conf = self.adjust_for_regime(sig.confidence, &sig.signal, regime);
                if conf.ge(&self.min_confidence) {
                    signals.push(
                        StrategySignal {
                            strategy: sig.strategy,
                            signal: sig.signal,
                            confidence: conf,
                            reason: sig.reason,
                        },
                    );
                }
            },
            None => {},
        }
        assert(signals@.map_values(|s: StrategySignal| signal_view(s)) =~= mom);
        match self.mean_reversion.generate_signal(prices) {
            Some(sig) => {
                let conf = self.adjust_for_regime(sig.confidence, &sig.signal, regime);
                if conf.ge(&self.min_confidence) {
                    signals.push(
                        StrategySignal {
                            strategy: sig.strategy,
                            signal: sig.signal,
                            confidence: conf,
                            reason: sig.reason,
                        },
                    );
                }
            },
            None => {},
        }
        assert(signals@.map_values(|s: StrategySignal| signal_view(s)) =~= mom + rev);
        signals.push(self.regime_to_signal(regime, prices));
        assert(signals@.map_values(|s: StrategySignal| signal_view(s)) =~= mom + rev + seq![
            regime_signal_of(regime),
        ]);
        signals
    }

    /// Confidence adjusted for the regime, capped at 0.95.
    pub fn adjust_for_regime(&self, confidence: Dec, signal: &Signal, regime: Regime) -> (r: Dec)
        ensures
            r@ == adjusted_confidence(confidence@, *signal, regime),
            dle(r@, dlit(95, 2)),
    {
        let multiplier = match (regime, signal) {
            (Regime::TrendingUp, Signal::Buy) | (Regime::TrendingUp, Signal::StrongBuy) => Dec::new(
                12,
                1,
            ),
            (Regime::TrendingDown, Signal::Sell) | (Regime::TrendingDown, Signal::StrongSell) => {
                Dec::new(12, 1)
            },
            (Regime::MeanReverting, _) => Dec::new(11, 1),
            (Regime::Choppy, _) => Dec::new(6, 1),
            (Regime::HighVolatility, _) => Dec::new(8, 1),
            (Regime::TrendingUp, Signal::Sell) | (Regime::TrendingUp, Signal::StrongSell) => {
                Dec::new(7, 1)
            },
            (Regime::TrendingDown, Signal::Buy) | (Regime::TrendingDown, Signal::StrongBuy) => {
                Dec::new(7, 1)
            },
            _ => Dec::new(10, 1),
        };
        confidence.mul(multiplier).min(Dec::new(95, 2))
    }

    /// The signal that expresses a regime.
    pub fn regime_to_signal(&self, regime: Regime, prices: &Vec<Dec>) -> (r: StrategySignal)
        ensures
            signal_view(r) == regime_signal_of(regime),
    {
        let (signal, confidence, reason) = match regime {
            Regime::TrendingUp => (Signal::Buy, Dec::new(6, 1), "Bullish regime detected"),
            Regime::TrendingDown => (Signal::Sell, Dec::new(6, 1), "Bearish regime detected"),
            Regime::MeanReverting => (Signal::Hold, Dec::new(5, 1), "Range-bound market"),
            Regime::HighVolatility => (Signal::Hold, Dec::new(4, 1), "High volatility - caution"),
            Regime::LowVolatility => (
                Signal::Hold,
                Dec::new(5, 1),
                "Low volatility - watch for breakout",
            ),
            Regime::Choppy => (Signal::Hold, Dec::new(3, 1), "Choppy market - avoid trading"),
        };
        StrategySignal {
            strategy: "regime".to_owned(),
            signal,
            confidence,
            reason: reason.to_owned(),
        }
    }

    /// Overall recommendation: confidence-weighted buy and sell scores, with
    /// thresholds 0.2 and 0.5 on the net score for a signal and a strong one.
    /// With confidences that are not negative, buy and sell signals only
    /// ever count for their own side: without buy signals the result is no
    /// buy, without sell signals no sell; a list of Sell signals alone (one of
    /// them with a positive confidence) is a StrongSell, and of Buy signals
    /// alone a StrongBuy.
    #[verifier::spinoff_prover]
    pub fn combine_signals(&self, signals: &Vec<StrategySignal>) -> (r: (Signal, Dec))
        ensures
            (r.0, r.1@) == combined_of(signals@.map_values(|s: StrategySignal| signal_view(s))),
            (forall|i: int| 0 <= i < signals@.len() ==> units(#[trigger] signals@[i].confidence@) >= 0) ==> {
                &&& (forall|i: int| 0 <= i < signals@.len() ==> #[trigger] signals@[i].signal != Signal::Buy
                    && signals@[i].signal != Signal::StrongBuy) ==> r.0 != Signal::Buy && r.0 != Signal::StrongBuy
                &&& (forall|i: int| 0 <= i < signals@.len() ==> #[trigger] signals@[i].signal != Signal::Sell
                    && signals@[i].signal != Signal::StrongSell) ==> r.0 != Signal::Sell && r.0
                    != Signal::StrongSell
                &&& (forall|i: int| 0 <= i < signals@.len() ==> #[trigger] signals@[i].signal == Signal::Sell)
                    && (exists|i: int| 0 <= i < signals@.len() && units(#[trigger] signals@[i].confidence@) > 0)
                    ==> r.0 == Signal::StrongSell
                &&& (forall|i: int| 0 <= i < signals@.len() ==> #[trigger] signals@[i].signal == Signal::Buy)
                    && (exists|i: int| 0 <= i < signals@.len() && units(#[trigger] signals@[i].confidence@) > 0)
                    ==> r.0 == Signal::StrongBuy
            },
    {
        let ghost sv = signals@.map_values(|s: StrategySignal| signal_view(s));
        let ghost nn = forall|i: int| 0 <= i < signals@.len() ==> units(#[trigger] signals@[i].confidence@) >= 0;
        let ghost no_buys = forall|i: int| 0 <= i < signals@.len() ==> #[trigger] signals@[i].signal != Signal::Buy
            && signals@[i].signal != Signal::StrongBuy;
        let ghost no_sells = forall|i: int| 0 <= i < signals@.len() ==> #[trigger] signals@[i].signal != Signal::Sell
            && signals@[i].signal != Signal::StrongSell;
        let ghost all_sell = forall|i: int| 0 <= i < signals@.len() ==> #[trigger] signals@[i].signal == Signal::Sell;
        let ghost all_buy = forall|i: int| 0 <= i < signals@.len() ==> #[trigger] signals@[i].signal == Signal::Buy;
        let ghost some_pos = exists|i: int| 0 <= i < signals@.len() && units(#[trigger] signals@[i].confidence@) > 0;
        proof {
            crate::decimal::lemma_pow10_pos(27);
            crate::decimal::lemma_pow10_pos(28);
            lemma_pow10_table();
            assert(pow10(28) == 10 * pow10(27));
            if no_buys {
                assert forall|i: int| 0 <= i < sv.len() implies #[trigger] sv[i].1 != Signal::Buy && sv[i].1
                    != Signal::StrongBuy by {
                    assert(sv[i].1 == signals@[i].signal);
                }
                lemma_scores_no_buys(sv);
            }
            if no_sells {
                assert forall|i: int| 0 <= i < sv.len() implies #[trigger] sv[i].1 != Signal::Sell && sv[i].1
                    != Signal::StrongSell by {
                    assert(sv[i].1 == signals@[i].signal);
                }
                lemma_scores_no_sells(sv);
            }
            if all_sell {
                assert forall|i: int| 0 <= i < sv.len() implies #[trigger] sv[i].1 == Signal::Sell by {
                    assert(sv[i].1 == signals@[i].signal);
                }
                lemma_scores_all_sell(sv);
            }
            if all_buy {
                assert forall|i: int| 0 <= i < sv.len() implies #[trigger] sv[i].1 == Signal::Buy by {
                    assert(sv[i].1 == signals@[i].signal);
                }
                lemma_scores_all_buy(sv);
            }
        }
        if signals.len() == 0 {
            return (Signal::Hold, Dec::new(0, 1));
        }
        let mut buy_score = Dec::zero();
        let mut sell_score = Dec::zero();
        let mut total_weight = Dec::zero();
        let two = Dec::from_u64(2);
        let mut i: usize = 0;
        while i < signals.len()
            invariant
                i <= signals.len(),
                two@ == dint(2),
                units(two@) > 0,
                sv == signals@.map_values(|s: StrategySignal| signal_view(s)),
                (buy_score@, sell_score@, total_weight@) == scores(sv.take(i as int)),
                nn == (forall|i: int| 0 <= i < signals@.len() ==> units(#[trigger] signals@[i].confidence@) >= 0),
                nn ==> units(buy_score@) >= 0 && units(sell_score@) >= 0 && units(total_weight@) >= 0,
                nn ==> (units(total_weight@) > 0 <==> exists|j: int| 0 <= j < i && units(
                    #[trigger] signals@[j].confidence@,
                ) > 0),
            decreases signals.len() - i,
        {
            proof {
                assert(sv.take(i + 1).drop_last() == sv.take(i as int));
            }
            let weight = signals[i].confidence;
            let ghost t0 = total_weight@;
            total_weight = total_weight.add(weight);
            match signals[i].signal {
                Signal::StrongBuy => buy_score = buy_score.add(weight.mul(two)),
                Signal::Buy => buy_score = buy_score.add(weight),
                Signal::StrongSell => sell_score = sell_score.add(weight.mul(two)),
                Signal::Sell => sell_score = sell_score.add(weight),
                Signal::Hold => {},
            }
            proof {
                if nn {
                    assert(units(signals@[i as int].confidence@) >= 0);
                    if units(total_weight@) > 0 {
                        if units(t0) > 0 {
                            let j = choose|j: int| 0 <= j < i && units(#[trigger] signals@[j].confidence@) > 0;
                            assert(0 <= j < i + 1 && units(signals@[j].confidence@) > 0);
                        } else {
                            assert(0 <= i < i + 1 && units(signals@[i as int].confidence@) > 0);
                        }
                    } else {
                        assert forall|j: int| 0 <= j < i + 1 implies !(units(
                            #[trigger] signals@[j].confidence@,
                        ) > 0) by {
                            if j < i {
                                if units(signals@[j].confidence@) > 0 {
                                    assert(units(t0) > 0);
                                }
                            }
                        }
                    }
                }
            }
            i = i + 1;
        }
        proof {
            assert(sv.take(i as int) == sv);
            if nn && some_pos {
                let j = choose|j: int| 0 <= j < signals@.len() && units(#[trigger] signals@[j].confidence@) > 0;
                assert(0 <= j < i && units(signals@[j].confidence@) > 0);
            }
        }
        if total_weight.is_zero() {
            return (Signal::Hold, Dec::new(0, 1));
        }
        proof {
            use_type_invariant(&total_weight);
            total_weight.lemma_wf_in_range();
        }
        let diff = buy_score.sub(sell_score);
        let net_score = diff.div(total_weight);
        proof {
            crate::decimal::lemma_units_sign(diff@);
            if nn && all_sell {
                assert(buy_score@ == dint(0));
                assert(sell_score@ == total_weight@);
                assert(crate::decimal::in_range(total_weight@));
                assert(crate::decimal::at_scale(buy_score@, total_weight@.1) == 0);
                assert(crate::decimal::at_scale(total_weight@, total_weight@.1) == total_weight@.0);
                assert(crate::decimal::add_exact(buy_score@, sell_score@, false));
                assert(units(diff@) == -units(total_weight@));
                assert(crate::decimal::div_exact(diff@, total_weight@, -1, 0));
                assert(units(net_score@) == -pow10(28));
            }
            if nn && no_buys {
                assert(units(buy_score@) == 0);
                assert(units(diff@) <= 0);
                assert(units(net_score@) <= 0);
            }
            if nn && no_sells {
                assert(units(sell_score@) == 0);
                assert(diff@ == buy_score@);
                assert(units(net_score@) >= 0);
            }
            if nn && all_buy {
                assert(diff@ == total_weight@);
                assert(crate::decimal::div_exact(diff@, total_weight@, 1, 0));
                assert(units(net_score@) == pow10(28));
            }
        }
        let confidence = buy_score.add(sell_score).div(total_weight).div(two);
        let signal = if Dec::new(5, 1).lt(&net_score) {
            Signal::StrongBuy
        } else if Dec::new(2, 1).lt(&net_score) {
            Signal::Buy
        } else if net_score.lt(&Dec::new(-5, 1)) {
            Signal::StrongSell
        } else if net_score.lt(&Dec::new(-2, 1)) {
            Signal::Sell
        } else {
            Signal::Hold
        };
        proof {
            assert(nn && no_buys ==> signal != Signal::Buy && signal != Signal::StrongBuy);
            assert(nn && no_sells ==> signal != Signal::Sell && signal != Signal::StrongSell);
            assert(nn && all_sell && some_pos ==> signal == Signal::StrongSell);
            if nn && all_buy && some_pos {
                assert(units(net_score@) == pow10(28));
                assert(units(dlit(5, 1)) == 5 * pow10(27));
                assert(signal == Signal::StrongBuy);
            }
        }
        (signal, confidence.min(Dec::new(95, 2)))
    }

    /// CeDeFi arbitrage opportunities, when a DEX price is known.
    pub fn check_arbitrage(
        &self,
        symbol: &str,
        cex_price: Dec,
        dex_price: Option<Dec>,
        capital: Dec,
    ) -> (r: Vec<ArbOpportunity>)
        ensures
            dex_price is None ==> r@.len() == 0,
            r@.len() <= 1,
            dex_price matches Some(dex) ==> (r@.len() == 1 <==> (units(cex_price@) != 0 && units(
                dex@,
            ) != 0 && !dlt(
                crate::alpha::arbitrage::cedefi_net(self.arbitrage, cex_price@, dex@),
                self.arbitrage.min_spread_bps@,
            ))),
    {
        let mut opportunities: Vec<ArbOpportunity> = Vec::new();
        match dex_price {
            Some(dex) => match self.arbitrage.check_cedefi_arb(symbol, cex_price, dex, capital) {
                Some(arb) => opportunities.push(arb),
                None => {},
            },
            None => {},
        }
        opportunities
    }
}

/// Every signal that `generate_signals` returns has a confidence of at most
/// 0.95; all but the last reach the engine's minimum confidence, and the last
/// is the regime signal.
pub proof fn lemma_signals_confidence(e: AlphaEngine, p: Seq<(int, int)>)
    ensures
        signals_of(e, p).len() >= 1,
        signals_of(e, p).last().0 == "regime"@,
        forall|i: int|
            0 <= i < signals_of(e, p).len() ==> dle(#[trigger] signals_of(e, p)[i].2, dlit(95, 2)),
        forall|i: int|
            0 <= i < signals_of(e, p).len() - 1 ==> dle(e.min_confidence@, #[trigger] signals_of(
                e,
                p,
            )[i].2),
{
    lemma_pow10_table();
    let regime = detect_of(e.regime_detector, p);
    let mom = kept(momentum_signal_of(e.momentum, p), regime, e.min_confidence@);
    let rev = kept(reversion_signal_of(e.mean_reversion, p), regime, e.min_confidence@);
    let s = signals_of(e, p);
    assert(s == mom + rev + seq![regime_signal_of(regime)]);
    assert forall|i: int| 0 <= i < s.len() implies dle(#[trigger] s[i].2, dlit(95, 2)) by {
        if i < mom.len() {
            assert(s[i] == mom[i]);
        } else if i < mom.len() + rev.len() {
            assert(s[i] == rev[i - mom.len()]);
        } else {
            assert(s[i] == regime_signal_of(regime));
        }
    }
    assert forall|i: int| 0 <= i < s.len() - 1 implies dle(e.min_confidence@, #[trigger] s[i].2) by {
        if i < mom.len() {
            assert(s[i] == mom[i]);
        } else {
            assert(s[i] == rev[i - mom.len()]);
        }
    }
}

/// The combined confidence never exceeds 0.95, and no signals or no weight
/// give a zero-confidence hold.
pub proof fn lemma_combined_confidence(s: Seq<SignalParts>)
    ensures
        dle(combined_of(s).1, dlit(95, 2)),
        s.len() == 0 ==> combined_of(s) == (Signal::Hold, dlit(0, 1)),
{
    lemma_pow10_table();
}

/// Without buy signals the buy score stays zero.
proof fn lemma_scores_no_buys(s: Seq<SignalParts>)
    requires
        forall|i: int| 0 <= i < s.len() ==> #[trigger] s[i].1 != Signal::Buy && s[i].1 != Signal::StrongBuy,
    ensures
        scores(s).0 == dint(0),
    decreases s.len(),
{
    if s.len() > 0 {
        lemma_scores_no_buys(s.drop_last());
    }
}

/// Without sell signals the sell score stays zero.
proof fn lemma_scores_no_sells(s: Seq<SignalParts>)
    requires
        forall|i: int| 0 <= i < s.len() ==> #[trigger] s[i].1 != Signal::Sell && s[i].1 != Signal::StrongSell,
    ensures
        scores(s).1 == dint(0),
    decreases s.len(),
{
    if s.len() > 0 {
        lemma_scores_no_sells(s.drop_last());
    }
}

/// With Sell signals only, the sell score is the total weight and the buy
/// score stays zero.
proof fn lemma_scores_all_sell(s: Seq<SignalParts>)
    requires
        forall|i: int| 0 <= i < s.len() ==> #[trigger] s[i].1 == Signal::Sell,
    ensures
        scores(s).0 == dint(0),
        scores(s).1 == scores(s).2,
    decreases s.len(),
{
    if s.len() > 0 {
        lemma_scores_all_sell(s.drop_last());
    }
}

/// With Buy signals only, the buy score is the total weight and the sell
/// score stays zero.
proof fn lemma_scores_all_buy(s: Seq<SignalParts>)
    requires
        forall|i: int| 0 <= i < s.len() ==> #[trigger] s[i].1 == Signal::Buy,
    ensures
        scores(s).1 == dint(0),
        scores(s).0 == scores(s).2,
    decreases s.len(),
{
    if s.len() > 0 {
        lemma_scores_all_buy(s.drop_last());
    }
}

} // verus!
