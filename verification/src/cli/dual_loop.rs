//! The dual-brain loop: both brains analyse each symbol, the consensus
//! merges them, and the best opportunity is picked.  Fetching market and
//! on-chain data, the timer and writing the context file are left to the
//! caller.
use crate::brain::consensus::{
    is_default_consensus_config, merged_from, summary_of, consensus_action_name, ConsensusAction, ConsensusEngine, MergedContext,
};
use crate::brain::fund_brain::{
    fund_output_from, is_default_fund_config, same_fund_config, FundBrain, FundBrainConfig, FundBrainOutput, SecurityAssessment, SourceWeights,
    TwitterSentiment, WhaleAction, WhaleSignal,
};
use crate::brain::ta_brain::{is_default_ta_config, same_ta_config, ta_output_from, TABrain, TABrainConfig, TABrainOutput};
use crate::brain::reflect::strs;
use crate::clock::now_secs;
use crate::decimal::{dabs, ddiv, dint, dlit, dlt, dmul, dsub, dtrunc, units, decimal_text_dp, Dec};
use crate::market::{Regime, TradingMode};
use crate::series::{sum_of, sum_range, sum_sq_devs, sq_devs, vals};
use crate::alpha::forecaster::{returns_of, returns_defined};
use crate::text::{str_eq, text_uppercase, uppercase};
use vstd::prelude::*;

verus! {

/// Dual-brain loop configuration.
#[derive(Debug, Clone)]
pub struct DualBrainConfig {
    pub mode: TradingMode,
    /// Chains followed.
    pub chains: Vec<String>,
    pub capital_usd: Dec,
    pub symbols: Vec<String>,
    pub ta_config: TABrainConfig,
    pub fund_config: FundBrainConfig,
    pub update_interval_secs: u64,
    /// Directory of the context file.
    pub data_dir: String,
    /// Whether the orchestrating brain is invoked automatically.
    pub auto_invoke: bool,
}

impl Default for DualBrainConfig {
    fn default() -> (r: DualBrainConfig)
        ensures
            r.mode == TradingMode::Paper,
            strs(r.chains@) == seq!["ethereum"@, "solana"@, "base"@],
            r.capital_usd@ == dint(1000),
            strs(r.symbols@) == seq!["BTC-USDT"@, "ETH-USDT"@, "SOL-USDT"@],
            is_default_ta_config(r.ta_config),
            is_default_fund_config(r.fund_config),
            r.update_interval_secs == 30,
            r.data_dir@ == "data"@,
            !r.auto_invoke,
    {
        let chains = vec!["ethereum".to_owned(), "solana".to_owned(), "base".to_owned()];
        let symbols = vec!["BTC-USDT".to_owned(), "ETH-USDT".to_owned(), "SOL-USDT".to_owned()];
        proof {
            assert(strs(chains@) =~= seq!["ethereum"@, "solana"@, "base"@]);
            assert(strs(symbols@) =~= seq!["BTC-USDT"@, "ETH-USDT"@, "SOL-USDT"@]);
        }
        DualBrainConfig {
            mode: TradingMode::Paper,
            chains,
            capital_usd: Dec::from_u64(1000),
            symbols,
            ta_config: TABrainConfig::default(),
            fund_config: FundBrainConfig::default(),
            update_interval_secs: 30,
            data_dir: "data".to_owned(),
            auto_invoke: false,
        }
    }
}

/// Shared state of the loop; the time is in seconds since the Unix epoch.
#[derive(Debug, Clone)]
pub struct DualBrainState {
    /// Latest merged views, by symbol.
    pub contexts: Vec<(String, MergedContext)>,
    /// Symbol of the best opportunity.
    pub best_opportunity: Option<String>,
    pub running: bool,
    pub last_update: i64,
    pub error_count: u32,
}

impl Default for DualBrainState {
    fn default() -> (r: DualBrainState)
        ensures
            r.contexts@.len() == 0,
            r.best_opportunity is None,
            !r.running,
            r.last_update == 0,
            r.error_count == 0,
    {
        DualBrainState {
            contexts: Vec::new(),
            best_opportunity: None,
            running: false,
            last_update: 0,
            error_count: 0,
        }
    }
}

/// After a failed cycle: the error is counted; at ten errors the count
/// restarts and the loop pauses.  Returns whether to pause.
pub fn on_cycle_error(state: &mut DualBrainState) -> (pause: bool)
    requires
        old(state).error_count < u32::MAX,
    ensures
        pause == (old(state).error_count + 1 >= 10),
        final(state).error_count == if pause {
            0
        } else {
            old(state).error_count + 1
        },
        final(state).contexts == old(state).contexts,
        final(state).best_opportunity == old(state).best_opportunity,
        final(state).running == old(state).running,
        final(state).last_update == old(state).last_update,
{
    state.error_count = state.error_count + 1;
    if state.error_count >= 10 {
        state.error_count = 0;
        true
    } else {
        false
    }
}

/// A smart-money signal as the on-chain feed reports it.
#[derive(Debug, Clone)]
pub struct SmartMoneySignal {
    pub token_symbol: Option<String>,
    pub wallet_address: Option<String>,
    pub action: String,
    pub amount_usd: Option<Dec>,
    pub signal_type: String,
}

/// A security check as the on-chain feed reports it.
#[derive(Debug, Clone)]
pub struct SecurityCheck {
    pub is_honeypot: bool,
    pub buy_tax: Option<Dec>,
    pub sell_tax: Option<Dec>,
    pub is_mintable: bool,
    pub risk_score: u8,
}

/// A character in lower case, for ASCII letters.
pub open spec fn ascii_lower(c: char) -> char {
    if 'A' <= c <= 'Z' {
        ((c as u32) + 32) as char
    } else {
        c
    }
}

/// Two texts are equal ignoring the case of ASCII letters.
pub open spec fn eq_ignore_ascii_case(a: Seq<char>, b: Seq<char>) -> bool {
    a.len() == b.len() && forall|i: int| 0 <= i < a.len() ==> ascii_lower(#[trigger] a[i]) == ascii_lower(b[i])
}

fn char_eq_ignore_case(x: char, y: char) -> (r: bool)
    ensures
        r == (ascii_lower(x) == ascii_lower(y)),
{
    let a = x as u32;
    let b = y as u32;
    let la = if 65 <= a && a <= 90 { a + 32 } else { a };
    let lb = if 65 <= b && b <= 90 { b + 32 } else { b };
    proof {
        assert(ascii_lower(x) as u32 == la);
        assert(ascii_lower(y) as u32 == lb);
    }
    la == lb
}

/// Whether two texts are equal ignoring the case of ASCII letters.
pub fn str_eq_ignore_ascii_case(a: &str, b: &str) -> (r: bool)
    ensures
        r == eq_ignore_ascii_case(a@, b@),
{
    let n = a.unicode_len();
    if n != b.unicode_len() {
        return false;
    }
    let mut i: usize = 0;
    while i < n
        invariant
            n == a@.len() == b@.len(),
            i <= n,
            forall|j: int| 0 <= j < i ==> ascii_lower(#[trigger] a@[j]) == ascii_lower(b@[j]),
        decreases n - i,
    {
        if !char_eq_ignore_case(a.get_char(i), b.get_char(i)) {
            return false;
        }
        i = i + 1;
    }
    true
}

/// The whale action a reported action names.
pub open spec fn whale_action_named(s: Seq<char>) -> WhaleAction {
    if s == "buy"@ {
        WhaleAction::Buy
    } else if s == "sell"@ {
        WhaleAction::Sell
    } else {
        WhaleAction::Transfer
    }
}

/// `w` is the whale signal for `token` on `chain` made from report `s`.
pub open spec fn whale_from(s: SmartMoneySignal, token: Seq<char>, chain: Seq<char>, w: WhaleSignal) -> bool {
    &&& w.address@ == match s.wallet_address {
        Some(a) => a@,
        None => Seq::<char>::empty(),
    }
    &&& w.action == whale_action_named(s.action@)
    &&& w.token@ == token
    &&& w.chain@ == chain
    &&& w.value_usd@ == match s.amount_usd {
        Some(v) => v@,
        None => dint(0),
    }
    &&& w.is_smart_money == (s.signal_type@ == "smart_money"@)
}

/// Whether a report is about a token (by symbol, ignoring ASCII case).
pub open spec fn is_about(x: SmartMoneySignal, token: Seq<char>) -> bool {
    x.token_symbol matches Some(t) && eq_ignore_ascii_case(t@, token)
}

/// The reports about a token, in order.
pub open spec fn about_token(s: Seq<SmartMoneySignal>, token: Seq<char>) -> Seq<SmartMoneySignal>
    decreases s.len(),
{
    if s.len() == 0 {
        Seq::empty()
    } else if is_about(s.last(), token) {
        about_token(s.drop_last(), token).push(s.last())
    } else {
        about_token(s.drop_last(), token)
    }
}

/// `t` is the prefix of `s` before its first `-` (all of `s` without one).
pub open spec fn is_before_dash(s: Seq<char>, t: Seq<char>) -> bool {
    &&& t.len() <= s.len()
    &&& t == s.take(t.len() as int)
    &&& forall|j: int| 0 <= j < t.len() ==> s[j] != '-'
    &&& (t.len() == s.len() || s[t.len() as int] == '-')
}

/// The part of a symbol before its first `-`.
pub fn before_dash(s: &str) -> (r: String)
    ensures
        is_before_dash(s@, r@),
{
    let n = s.unicode_len();
    let mut i: usize = 0;
    while i < n
        invariant
            n == s@.len(),
            i <= n,
            forall|j: int| 0 <= j < i ==> s@[j] != '-',
        ensures
            i <= n,
            forall|j: int| 0 <= j < i ==> s@[j] != '-',
            i == n || s@[i as int] == '-',
        decreases n - i,
    {
        if s.get_char(i) == '-' {
            break;
        }
        i = i + 1;
    }
    s.substring_char(0, i).to_owned()
}

/// Chain of a token: Solana for `SOL`, Ethereum otherwise.
pub open spec fn chain_of(token: Seq<char>) -> Seq<char> {
    if text_uppercase(token) == "SOL"@ {
        "solana"@
    } else {
        "ethereum"@
    }
}

/// Points of a consensus action in the ranking of opportunities.
pub open spec fn action_points(a: ConsensusAction) -> int {
    match a {
        ConsensusAction::Long | ConsensusAction::Short => 100,
        ConsensusAction::Close => 50,
        ConsensusAction::Hold => 0,
        ConsensusAction::Wait => -50,
        ConsensusAction::Debate => -25,
        ConsensusAction::Blocked => -1000,
    }
}

/// A decimal scaled by 50, truncated to an integer (zero beyond `i64`) and
/// then taken modulo 2^16 as a signed 16-bit number.
pub open spec fn points_of(x: (int, int)) -> i16 {
    let t = dtrunc(dmul(x, dint(50)));
    if i64::MIN <= t <= i64::MAX {
        (t as i64) as i16
    } else {
        0i16
    }
}

/// A RADAR score as a signed 16-bit number, divided by 4 rounding toward zero.
pub open spec fn radar_points(score: u16) -> int {
    let s = score as i16;
    if s >= 0 {
        s / 4
    } else {
        -((-s) / 4)
    }
}

/// The partial sums of an opportunity's score: action, sentiment strength,
/// confidence, conflict penalty, RADAR contribution.
pub open spec fn score_steps(ctx: MergedContext) -> (int, int, int, int, int) {
    let a = action_points(ctx.consensus_action);
    let b = a + points_of(dabs(ctx.merged_sentiment@));
    let c = b + points_of(ctx.merged_confidence@);
    let d = if ctx.is_conflict {
        c - 30
    } else {
        c
    };
    let e = d + radar_points(ctx.ta.radar_score.score);
    (a, b, c, d, e)
}

/// Every partial sum of the score fits in an `i16`.
pub open spec fn score_fits(ctx: MergedContext) -> bool {
    let (a, b, c, d, e) = score_steps(ctx);
    &&& i16::MIN <= b <= i16::MAX
    &&& i16::MIN <= c <= i16::MAX
    &&& i16::MIN <= d <= i16::MAX
    &&& i16::MIN <= e <= i16::MAX
}

/// Classification of the dual loop: from the variance of the returns, then
/// from the deviation of the price from its 20-period average. A series that
/// rises by 0.1% or more per step on average is not low-volatility, however
/// steady the rise: a steady uptrend is classified by its deviation instead
/// (trending up, or mean reverting within 3%). The bound is the
/// high-volatility threshold applied to the mean return.
pub open spec fn dual_regime_of(p: Seq<(int, int)>) -> Regime {
    if p.len() < 20 {
        Regime::MeanReverting
    } else {
        let sma = ddiv(sum_of(p.subrange(p.len() - 20, p.len() as int).reverse()), dint(20));
        let current = p.last();
        let r = returns_of(p);
        let avg = ddiv(sum_of(r), dint(r.len() as int));
        let variance = ddiv(sum_of(sq_devs(r, avg)), dint(r.len() as int));
        let deviation = ddiv(dsub(current, sma), sma);
        if dlt(dlit(1, 3), variance) {
            Regime::HighVolatility
        } else if dlt(variance, dlit(1, 4)) && dlt(avg, dlit(1, 3)) {
            Regime::LowVolatility
        } else if dlt(dlit(3, 2), deviation) {
            Regime::TrendingUp
        } else if dlt(deviation, dlit(-3, 2)) {
            Regime::TrendingDown
        } else if dlt(dlit(5, 4), variance) {
            Regime::Choppy
        } else {
            Regime::MeanReverting
        }
    }
}

/// The 20-period average of the dual loop's classification, added from the
/// latest price back.
pub open spec fn sma20_of(p: Seq<(int, int)>) -> (int, int) {
    ddiv(sum_of(p.subrange(p.len() - 20, p.len() as int).reverse()), dint(20))
}

/// The classification is defined: every return is, and the average is not zero.
pub open spec fn dual_regime_ok(p: Seq<(int, int)>) -> bool {
    p.len() >= 20 ==> returns_defined(p) && units(sma20_of(p)) != 0
}

/// Sum of `v[lo..hi]` added from the last element back.
fn sum_back(v: &Vec<Dec>, lo: usize, hi: usize) -> (r: Dec)
    requires
        lo <= hi <= v.len(),
    ensures
        r@ == sum_of(vals(v@).subrange(lo as int, hi as int).reverse()),
{
    let ghost s = vals(v@);
    let mut acc = Dec::zero();
    let mut k = hi;
    while k > lo
        invariant
            lo <= k <= hi <= v.len(),
            s == vals(v@),
            acc@ == sum_of(s.subrange(k as int, hi as int).reverse()),
        decreases k - lo,
    {
        proof {
            assert(s.subrange(k - 1, hi as int).reverse().drop_last() =~= s.subrange(
                k as int,
                hi as int,
            ).reverse());
            assert(s.subrange(k - 1, hi as int).reverse().last() == s[k - 1]);
        }
        acc = acc.add(v[k - 1]);
        k = k - 1;
    }
    acc
}

/// The dual-brain loop: both brains and their consensus.
pub struct DualBrainLoop {
    config: DualBrainConfig,
    ta_brain: TABrain,
    fund_brain: FundBrain,
    consensus: ConsensusEngine,
}

impl DualBrainLoop {
    /// The configuration.
    pub closed spec fn config_spec(&self) -> DualBrainConfig {
        self.config
    }

    /// The consensus engine.
    pub closed spec fn consensus_spec(&self) -> ConsensusEngine {
        self.consensus
    }

    /// The TA brain.
    pub closed spec fn ta_spec(&self) -> TABrain {
        self.ta_brain
    }

    /// The fundamental brain.
    pub closed spec fn fund_spec(&self) -> FundBrain {
        self.fund_brain
    }

    pub fn new(config: DualBrainConfig) -> (r: DualBrainLoop)
        ensures
            r.config_spec() == config,
            is_default_consensus_config(r.consensus_spec().config_spec()),
            r.consensus_spec().weights() == (dlit(6, 1), dlit(4, 1)),
            r.ta_spec().guard_states()@.len() == 0,
            same_ta_config(r.ta_spec().config(), config.ta_config),
            same_fund_config(r.fund_spec().config_spec(), config.fund_config),
            r.fund_spec().wf(),
            forall|k: Seq<char>| r.fund_spec().whales(k) is None && r.fund_spec().twitter(k) is None
                && r.fund_spec().news(k) is None && r.fund_spec().security(k) is None,
    {
        let ta_brain = TABrain::new(config.ta_config.duplicate());
        let fund_brain = FundBrain::new(config.fund_config.duplicate());
        DualBrainLoop { config, ta_brain, fund_brain, consensus: ConsensusEngine::with_defaults() }
    }

    /// The configuration.
    pub fn config(&self) -> (r: &DualBrainConfig)
        ensures
            *r == self.config_spec(),
    {
        &self.config
    }

    /// Token and chain of a symbol: the token is the part before the first
    /// `-`; the chain is Solana for `SOL` and Ethereum otherwise.
    pub fn parse_symbol(&self, symbol: &str) -> (r: (String, String))
        ensures
            is_before_dash(symbol@, r.0@),
            r.1@ == chain_of(r.0@),
    {
        let token = before_dash(symbol);
        let upper = uppercase(token.as_str());
        let chain = if str_eq(upper.as_str(), "SOL") {
            "solana".to_owned()
        } else {
            "ethereum".to_owned()
        };
        (token, chain)
    }

    /// Classify the market of a price series (see `dual_regime_of`); fewer
    /// than 20 prices give the default regime.
    pub fn detect_regime(&self, prices: &Vec<Dec>) -> (r: Regime)
        requires
            dual_regime_ok(vals(prices@)),
        ensures
            r == dual_regime_of(vals(prices@)),
    {
        let n = prices.len();
        if n < 20 {
            return Regime::MeanReverting;
        }
        let ghost p = vals(prices@);
        let sma20 = sum_back(prices, n - 20, n).div(Dec::from_u64(20));
        let current = prices[n - 1];
        let mut rets: Vec<Dec> = Vec::new();
        let mut i: usize = 0;
        while i + 1 < n
            invariant
                n == prices.len(),
                n >= 20,
                i + 1 <= n,
                p == vals(prices@),
                returns_defined(p),
                vals(rets@) == returns_of(p).take(i as int),
            decreases n - i,
        {
            assert(units(p[i as int]) != 0);
            let r = prices[i + 1].sub(prices[i]).div(prices[i]);
            proof {
                assert(returns_of(p).take(i + 1) =~= returns_of(p).take(i as int).push(r@));
                assert(vals(rets@.push(r)) =~= vals(rets@).push(r@));
            }
            rets.push(r);
            i = i + 1;
        }
        proof {
            assert(returns_of(p).take(i as int) =~= returns_of(p));
        }
        let k = rets.len();
        let kd = Dec::from_usize(k);
        let avg = sum_range(&rets, 0, k).div(kd);
        let variance = sum_sq_devs(&rets, 0, k, avg).div(kd);
        proof {
            assert(vals(rets@).subrange(0, k as int) =~= vals(rets@));
        }
        let deviation = current.sub(sma20).div(sma20);
        if Dec::new(1, 3).lt(&variance) {
            Regime::HighVolatility
        } else if variance.lt(&Dec::new(1, 4)) && avg.lt(&Dec::new(1, 3)) {
            Regime::LowVolatility
        } else if Dec::new(3, 2).lt(&deviation) {
            Regime::TrendingUp
        } else if deviation.lt(&Dec::new(-3, 2)) {
            Regime::TrendingDown
        } else if Dec::new(5, 4).lt(&variance) {
            Regime::Choppy
        } else {
            Regime::MeanReverting
        }
    }

    /// Whether `detect_regime` is defined on these prices.
    pub fn regime_defined(prices: &Vec<Dec>) -> (r: bool)
        ensures
            r == dual_regime_ok(vals(prices@)),
    {
        let n = prices.len();
        if n < 20 {
            return true;
        }
        let mut i: usize = 0;
        while i + 1 < n
            invariant
                n == prices.len(),
                n >= 20,
                i + 1 <= n,
                forall|j: int| 0 <= j < i ==> units(#[trigger] vals(prices@)[j]) != 0,
            decreases n - i,
        {
            if prices[i].is_zero() {
                proof {
                    assert(units(vals(prices@)[i as int]) == 0);
                    assert(!returns_defined(vals(prices@)));
                }
                return false;
            }
            i = i + 1;
        }
        proof {
            assert(returns_defined(vals(prices@)));
        }
        !sum_back(prices, n - 20, n).div(Dec::from_u64(20)).is_zero()
    }

    /// `detect_regime` for any prices: `None` where it divides by zero.
    pub fn try_detect_regime(&self, prices: &Vec<Dec>) -> (r: Option<Regime>)
        ensures
            r == if dual_regime_ok(vals(prices@)) {
                Some(dual_regime_of(vals(prices@)))
            } else {
                None::<Regime>
            },
    {
        if Self::regime_defined(prices) {
            Some(self.detect_regime(prices))
        } else {
            None
        }
    }

    /// Score of an opportunity for ranking: points of the consensus action,
    /// plus sentiment strength and confidence (each scaled by 50), less 30
    /// for a conflict, plus a quarter of the RADAR score.
    pub fn calculate_opportunity_score(&self, ctx: &MergedContext) -> (r: i16)
        requires
            score_fits(*ctx),
        ensures
            r == score_steps(*ctx).4,
    {
        let mut score: i16 = match ctx.consensus_action {
            ConsensusAction::Long | ConsensusAction::Short => 100,
            ConsensusAction::Close => 50,
            ConsensusAction::Hold => 0,
            ConsensusAction::Wait => -50,
            ConsensusAction::Debate => -25,
            ConsensusAction::Blocked => -1000,
        };
        let fifty = Dec::from_u64(50);
        let s = match ctx.merged_sentiment.abs().mul(fifty).to_i64() {
            Some(v) => v as i16,
            None => 0,
        };
        score = score + s;
        let c = match ctx.merged_confidence.mul(fifty).to_i64() {
            Some(v) => v as i16,
            None => 0,
        };
        score = score + c;
        if ctx.is_conflict {
            score = score - 30;
        }
        let radar = ctx.ta.radar_score.score;
        let rp: i16 = if radar <= 32767 {
            (radar / 4) as i16
        } else {
            -(((65536 - radar as u32) / 4) as i16)
        };
        proof {
            assert(radar <= 32767 ==> (radar as i16) == radar) by (bit_vector);
            assert(radar > 32767 ==> (radar as i16) == radar - 65536) by (bit_vector);
        }
        score + rp
    }

    /// The whale signals about a token among smart-money reports.
    pub fn whale_signals_from(reports: &Vec<SmartMoneySignal>, token: &str, chain: &str) -> (r: Vec<WhaleSignal>)
        ensures
            r@.len() == about_token(reports@, token@).len(),
            forall|i: int|
                0 <= i < r@.len() ==> whale_from(
                    #[trigger] about_token(reports@, token@)[i],
                    token@,
                    chain@,
                    r@[i],
                ),
    {
        let mut out: Vec<WhaleSignal> = Vec::new();
        let mut i: usize = 0;
        while i < reports.len()
            invariant
                i <= reports.len(),
                out@.len() == about_token(reports@.take(i as int), token@).len(),
                forall|j: int|
                    0 <= j < out@.len() ==> whale_from(
                        #[trigger] about_token(reports@.take(i as int), token@)[j],
                        token@,
                        chain@,
                        out@[j],
                    ),
            decreases reports.len() - i,
        {
            proof {
                assert(reports@.take(i + 1).drop_last() =~= reports@.take(i as int));
            }
            let s = &reports[i];
            let about = match &s.token_symbol {
                Some(t) => str_eq_ignore_ascii_case(t.as_str(), token),
                None => false,
            };
            if about {
                let action = if str_eq(s.action.as_str(), "buy") {
                    WhaleAction::Buy
                } else if str_eq(s.action.as_str(), "sell") {
                    WhaleAction::Sell
                } else {
                    WhaleAction::Transfer
                };
                let w = WhaleSignal {
                    address: match &s.wallet_address {
                        Some(a) => a.clone(),
                        None => String::new(),
                    },
                    action,
                    token: token.to_owned(),
                    chain: chain.to_owned(),
                    value_usd: match s.amount_usd {
                        Some(v) => v,
                        None => Dec::zero(),
                    },
                    is_smart_money: str_eq(s.signal_type.as_str(), "smart_money"),
                    timestamp: now_secs(),
                };
                out.push(w);
            }
            i = i + 1;
        }
        proof {
            assert(reports@.take(i as int) =~= reports@);
        }
        out
    }

    /// The security assessment of a token from a feed's check; ownership,
    /// balance and liquidity facts are not reported by the check.
    pub fn security_from(check: &SecurityCheck, token: &str, chain: &str) -> (r: SecurityAssessment)
        ensures
            assessed_from(*check, token@, chain@, r),
            r.token@ == token@,
            r.chain@ == chain@,
            r.is_honeypot == check.is_honeypot,
            r.buy_tax == check.buy_tax,
            r.sell_tax == check.sell_tax,
            !r.can_take_ownership,
            !r.can_change_balance,
            r.is_mintable == check.is_mintable,
            r.liquidity_usd is None,
            r.risk_score == check.risk_score,
            r.red_flags@.len() == 0,
    {
        SecurityAssessment {
            token: token.to_owned(),
            chain: chain.to_owned(),
            is_honeypot: check.is_honeypot,
            buy_tax: check.buy_tax,
            sell_tax: check.sell_tax,
            can_take_ownership: false,
            can_change_balance: false,
            is_mintable: check.is_mintable,
            liquidity_usd: None,
            risk_score: check.risk_score,
            red_flags: Vec::new(),
            timestamp: now_secs(),
        }
    }

    /// Fundamental analysis of a token from the feeds' reports: the whale
    /// signals about it, the social sentiment, and the security check.
    pub fn analyze_fundamentals(
        &self,
        token: &str,
        chain: &str,
        reports: &Vec<SmartMoneySignal>,
        twitter: Option<TwitterSentiment>,
        security: Option<SecurityCheck>,
    ) -> (r: FundBrainOutput)
        ensures
            fundamentals_from(self.fund_spec().config_spec().weights, token@, chain@, reports@, twitter, security, r),
            r.symbol@ == token@,
            r.chain@ == chain@,
            r.whale_signals@.len() == about_token(reports@, token@).len(),
            forall|i: int|
                0 <= i < r.whale_signals@.len() ==> whale_from(
                    #[trigger] about_token(reports@, token@)[i],
                    token@,
                    chain@,
                    r.whale_signals@[i],
                ),
            r.twitter_sentiment@ == match twitter {
                Some(t) => t.sentiment_score@,
                None => dint(0),
            },
            r.news_sentiment@ == dint(0),
    {
        let whales = Self::whale_signals_from(reports, token, chain);
        let sec = match &security {
            Some(c) => Some(Self::security_from(c, token, chain)),
            None => None,
        };
        self.fund_brain.analyze_with_data(token, chain, whales, twitter, None, sec)
    }
}

/// `r` is the security assessment of `token` on `chain` made from a feed's
/// check (what `DualBrainLoop::security_from` gives).
pub open spec fn assessed_from(check: SecurityCheck, token: Seq<char>, chain: Seq<char>, r: SecurityAssessment) -> bool {
    &&& r.token@ == token
    &&& r.chain@ == chain
    &&& r.is_honeypot == check.is_honeypot
    &&& r.buy_tax == check.buy_tax
    &&& r.sell_tax == check.sell_tax
    &&& !r.can_take_ownership
    &&& !r.can_change_balance
    &&& r.is_mintable == check.is_mintable
    &&& r.liquidity_usd is None
    &&& r.risk_score == check.risk_score
    &&& r.red_flags@.len() == 0
}

/// `r` is the fundamental analysis of `token` on `chain` from the feeds'
/// reports, the social sentiment and the security check, with these source
/// weights (what `DualBrainLoop::analyze_fundamentals` gives).
pub open spec fn fundamentals_from(
    weights: SourceWeights,
    token: Seq<char>,
    chain: Seq<char>,
    reports: Seq<SmartMoneySignal>,
    twitter: Option<TwitterSentiment>,
    security: Option<SecurityCheck>,
    r: FundBrainOutput,
) -> bool {
    &&& r.whale_signals@.len() == about_token(reports, token).len()
    &&& forall|i: int|
        0 <= i < r.whale_signals@.len() ==> whale_from(
            #[trigger] about_token(reports, token)[i],
            token,
            chain,
            r.whale_signals@[i],
        )
    &&& match security {
        Some(c) => r.security matches Some(a) && assessed_from(c, token, chain, a),
        None => r.security is None,
    }
    &&& fund_output_from(weights, token, chain, r.whale_signals@, twitter, None, r.security, r)
}

/// The 24-hour volume assumed for every price of a symbol.
pub open spec fn assumed_volumes(n: nat) -> Seq<(int, int)> {
    Seq::new(n, |i: int| dint(1000000))
}

/// `r` is the merged analysis of `symbol` from its prices, the feeds'
/// reports, the social sentiment and the security check, by a loop with
/// these brains (what `DualBrainLoop::analyze_symbol` gives for 20 prices
/// or more): the TA brain reads the prices with a volume of 1,000,000 each,
/// a 24-hour volume of 50,000,000, an open interest of 100,000,000 and a
/// funding rate of 0.0001, in the loop's regime; the fundamental brain reads
/// the token before the dash on its chain; the consensus merges the two.
pub open spec fn symbol_analysis_from(
    l: DualBrainLoop,
    symbol: Seq<char>,
    prices: Seq<(int, int)>,
    reports: Seq<SmartMoneySignal>,
    twitter: Option<TwitterSentiment>,
    security: Option<SecurityCheck>,
    r: MergedContext,
) -> bool {
    exists|ta: TABrainOutput, fund: FundBrainOutput, token: Seq<char>|
        #![trigger ta_output_from(l.ta_spec().config().enabled_strategies@, l.ta_spec().guard_states()@, symbol, prices, assumed_volumes(prices.len()), dual_regime_of(prices), dint(50000000), Some(dint(100000000)), Some(dlit(1, 4)), ta), fundamentals_from(l.fund_spec().config_spec().weights, token, chain_of(token), reports, twitter, security, fund)]
        {
            &&& is_before_dash(symbol, token)
            &&& ta_output_from(
                l.ta_spec().config().enabled_strategies@,
                l.ta_spec().guard_states()@,
                symbol,
                prices,
                assumed_volumes(prices.len()),
                dual_regime_of(prices),
                dint(50000000),
                Some(dint(100000000)),
                Some(dlit(1, 4)),
                ta,
            )
            &&& fundamentals_from(
                l.fund_spec().config_spec().weights,
                token,
                chain_of(token),
                reports,
                twitter,
                security,
                fund,
            )
            &&& merged_from(l.consensus_spec(), ta, fund, r)
        }
}

/// `analyze_symbol` is defined on these prices: at least 20 of them, on
/// which the regime and the technical analysis are defined.
pub open spec fn symbol_analysis_ok(p: Seq<(int, int)>) -> bool {
    p.len() >= 20 ==> dual_regime_ok(p) && crate::brain::ta_brain::radar_ok(p)
        && crate::brain::ta_brain::pulse_ok(p)
}

impl DualBrainLoop {
    /// Analyse a symbol with both brains and merge them; fewer than 20
    /// prices is an error.
    pub fn analyze_symbol(
        &mut self,
        symbol: &str,
        prices: &Vec<Dec>,
        reports: &Vec<SmartMoneySignal>,
        twitter: Option<TwitterSentiment>,
        security: Option<SecurityCheck>,
    ) -> (r: Result<MergedContext, String>)
        requires
            symbol_analysis_ok(vals(prices@)),
        ensures
            prices.len() < 20 ==> (r matches Err(e) && e@ == "Not enough price data for "@ + symbol@),
            prices.len() >= 20 ==> (r matches Ok(ctx) && symbol_analysis_from(
                *old(self),
                symbol@,
                vals(prices@),
                reports@,
                twitter,
                security,
                ctx,
            )),
            prices.len() >= 20 ==> (r matches Ok(ctx) && ctx.symbol@ == symbol@ && ctx.regime
                == dual_regime_of(vals(prices@)) && exists|t: Seq<char>|
                is_before_dash(symbol@, t) && ctx.chain@ == chain_of(t)),
            final(self).config_spec() == old(self).config_spec(),
    {
        if prices.len() < 20 {
            let mut e = "Not enough price data for ".to_owned();
            e.append(symbol);
            return Err(e);
        }
        let ghost tw = twitter;
        let ghost sec = security;
        let regime = self.detect_regime(prices);
        let volumes = vec_of(Dec::from_u64(1000000), prices.len());
        proof {
            assert(vals(volumes@) =~= assumed_volumes(prices@.len()));
        }
        let ta_output = self.ta_brain.analyze(
            symbol,
            prices,
            &volumes,
            regime,
            Dec::from_u64(50000000),
            Some(Dec::from_u64(100000000)),
            Some(Dec::new(1, 4)),
        );
        let (token, chain) = self.parse_symbol(symbol);
        assert(is_before_dash(symbol@, token@) && chain@ == chain_of(token@));
        let fund_output = self.analyze_fundamentals(
            token.as_str(),
            chain.as_str(),
            reports,
            twitter,
            security,
        );
        let ctx = self.consensus.merge(&ta_output, &fund_output);
        proof {
            let l = *old(self);
            assert(ta_output_from(
                l.ta_spec().config().enabled_strategies@,
                l.ta_spec().guard_states()@,
                symbol@,
                vals(prices@),
                assumed_volumes(vals(prices@).len()),
                dual_regime_of(vals(prices@)),
                dint(50000000),
                Some(dint(100000000)),
                Some(dlit(1, 4)),
                ta_output,
            ));
            assert(fundamentals_from(
                l.fund_spec().config_spec().weights,
                token@,
                chain_of(token@),
                reports@,
                tw,
                sec,
                fund_output,
            ));
            assert(merged_from(l.consensus_spec(), ta_output, fund_output, ctx));
        }
        Ok(ctx)
    }

    /// `analyze_symbol` for any prices: `None` where the regime or the
    /// technical analysis would divide by zero.
    pub fn try_analyze_symbol(
        &mut self,
        symbol: &str,
        prices: &Vec<Dec>,
        reports: &Vec<SmartMoneySignal>,
        twitter: Option<TwitterSentiment>,
        security: Option<SecurityCheck>,
    ) -> (r: Option<Result<MergedContext, String>>)
        ensures
            r is None <==> !symbol_analysis_ok(vals(prices@)),
            r is Some && prices.len() < 20 ==> (r matches Some(Err(e)) && e@ == "Not enough price data for "@
                + symbol@),
            r is Some && prices.len() >= 20 ==> (r matches Some(Ok(ctx)) && symbol_analysis_from(
                *old(self),
                symbol@,
                vals(prices@),
                reports@,
                twitter,
                security,
                ctx,
            )),
            final(self).config_spec() == old(self).config_spec(),
    {
        if prices.len() >= 20 {
            if !Self::regime_defined(prices) || !TABrain::analysis_defined(prices) {
                return None;
            }
        }
        Some(self.analyze_symbol(symbol, prices, reports, twitter, security))
    }
}

/// A list of `n` copies of a value.
fn vec_of(x: Dec, n: usize) -> (r: Vec<Dec>)
    ensures
        r@.len() == n,
        forall|i: int| 0 <= i < n ==> r@[i] == x,
{
    let mut v: Vec<Dec> = Vec::new();
    while v.len() < n
        invariant
            v@.len() <= n,
            forall|i: int| 0 <= i < v@.len() ==> v@[i] == x,
        decreases n - v.len(),
    {
        v.push(x);
    }
    v
}

/// The best of a cycle's scored symbols: the first with the highest score,
/// which must exceed -1000.
pub open spec fn best_of(s: Seq<(Seq<char>, i16)>) -> Option<(Seq<char>, i16)>
    decreases s.len(),
{
    if s.len() == 0 {
        None
    } else {
        let prev = best_of(s.drop_last());
        let last = s.last();
        let bar: int = match prev {
            Some(b) => b.1 as int,
            None => -1000,
        };
        if last.1 > bar {
            Some(last)
        } else {
            prev
        }
    }
}

/// The symbol with the best score (see `best_of`).
pub fn pick_best(scored: &Vec<(String, i16)>) -> (r: Option<String>)
    ensures
        match (r, best_of(scored@.map_values(|p: (String, i16)| (p.0@, p.1)))) {
            (Some(a), Some(b)) => a@ == b.0,
            (None, None) => true,
            _ => false,
        },
{
    let ghost s = scored@.map_values(|p: (String, i16)| (p.0@, p.1));
    let mut best: Option<String> = None;
    let mut best_score: i16 = -1000;
    let mut i: usize = 0;
    while i < scored.len()
        invariant
            i <= scored.len(),
            s == scored@.map_values(|p: (String, i16)| (p.0@, p.1)),
            match (best, best_of(s.take(i as int))) {
                (Some(a), Some(b)) => a@ == b.0 && best_score == b.1,
                (None, None) => best_score == -1000,
                _ => false,
            },
        decreases scored.len() - i,
    {
        proof {
            assert(s.take(i + 1).drop_last() =~= s.take(i as int));
            assert(s.take(i + 1).last() == s[i as int]);
        }
        if scored[i].1 > best_score {
            best_score = scored[i].1;
            best = Some(scored[i].0.clone());
        }
        i = i + 1;
    }
    proof {
        assert(s.take(i as int) =~= s);
    }
    best
}

/// Line of a symbol in the loop's summary.
pub open spec fn symbol_line(symbol: Seq<char>, ctx: MergedContext) -> Seq<char> {
    "- **"@ + symbol + "**: "@ + consensus_action_name(ctx.consensus_action) + " | Sentiment "@
        + decimal_text_dp(ctx.merged_sentiment@, 2) + " | Confidence "@ + decimal_text_dp(
        dmul(ctx.merged_confidence@, dint(100)),
        0,
    ) + "%\n"@
}

/// Lines of all symbols in the loop's summary.
pub open spec fn symbol_lines(c: Seq<(String, MergedContext)>) -> Seq<char>
    decreases c.len(),
{
    if c.len() == 0 {
        Seq::empty()
    } else {
        symbol_lines(c.drop_last()) + symbol_line(c.last().0@, c.last().1)
    }
}

/// Index of the first context of a symbol.
pub open spec fn find_context(c: Seq<(String, MergedContext)>, symbol: Seq<char>) -> Option<int> {
    if exists|i: int| 0 <= i < c.len() && (#[trigger] c[i]).0@ == symbol {
        Some(
            choose|i: int|
                0 <= i < c.len() && (#[trigger] c[i]).0@ == symbol && forall|j: int|
                    0 <= j < i ==> (#[trigger] c[j]).0@ != symbol,
        )
    } else {
        None
    }
}

/// The loop's summary: the best opportunity's summary when it has a
/// context, then a line for each symbol.
pub open spec fn loop_summary(c: Seq<(String, MergedContext)>, best: Option<Seq<char>>) -> Seq<char> {
    "# Dual Brain Summary\n\n"@ + match best {
        Some(b) => match find_context(c, b) {
            Some(i) => "## Best Opportunity: "@ + b + "\n\n"@ + summary_of(c[i].1),
            None => Seq::empty(),
        },
        None => Seq::empty(),
    } + "\n## All Symbols\n\n"@ + symbol_lines(c)
}

/// The loop's summary (see `loop_summary`).
pub fn generate_summary(contexts: &Vec<(String, MergedContext)>, best_symbol: Option<&str>) -> (r: String)
    ensures
        r@ == loop_summary(
            contexts@,
            match best_symbol {
                Some(b) => Some(b@),
                None => None,
            },
        ),
{
    let mut summary = "# Dual Brain Summary\n\n".to_owned();
    let ghost head = summary@;
    match best_symbol {
        Some(symbol) => {
            let mut k: usize = 0;
            while k < contexts.len()
                invariant
                    k <= contexts.len(),
                    forall|j: int| 0 <= j < k ==> (#[trigger] contexts@[j]).0@ != symbol@,
                ensures
                    k <= contexts.len(),
                    forall|j: int| 0 <= j < k ==> (#[trigger] contexts@[j]).0@ != symbol@,
                    k < contexts.len() ==> contexts@[k as int].0@ == symbol@,
                decreases contexts.len() - k,
            {
                if str_eq(contexts[k].0.as_str(), symbol) {
                    break;
                }
                k = k + 1;
            }
            if k < contexts.len() {
                proof {
                    let i = find_context(contexts@, symbol@)->0;
                    assert(find_context(contexts@, symbol@) is Some);
                    assert(i == k) by {
                        if i < k {
                            assert(contexts@[i].0@ != symbol@);
                        }
                        if k < i {
                            assert(contexts@[k as int].0@ != symbol@);
                        }
                    }
                }
                summary.append("## Best Opportunity: ");
                summary.append(symbol);
                summary.append("\n\n");
                summary.append(contexts[k].1.summary().as_str());
            } else {
                proof {
                    assert(find_context(contexts@, symbol@) is None);
                    assert(summary@ =~= head + Seq::<char>::empty());
                }
            }
        },
        None => {
            proof {
                assert(summary@ =~= head + Seq::<char>::empty());
            }
        },
    }
    summary.append("\n## All Symbols\n\n");
    let ghost mid = summary@;
    let mut i: usize = 0;
    let hundred = Dec::from_u64(100);
    while i < contexts.len()
        invariant
            i <= contexts.len(),
            hundred@ == dint(100),
            summary@ == mid + symbol_lines(contexts@.take(i as int)),
        decreases contexts.len() - i,
    {
        proof {
            assert(contexts@.take(i + 1).drop_last() =~= contexts@.take(i as int));
            assert(contexts@.take(i + 1).last() == contexts@[i as int]);
        }
        let (symbol, ctx) = (&contexts[i].0, &contexts[i].1);
        let name = match ctx.consensus_action {
            ConsensusAction::Long => "Long",
            ConsensusAction::Short => "Short",
            ConsensusAction::Hold => "Hold",
            ConsensusAction::Wait => "Wait",
            ConsensusAction::Close => "Close",
            ConsensusAction::Blocked => "Blocked",
            ConsensusAction::Debate => "Debate",
        };
        let mut line = "- **".to_owned();
        line.append(symbol.as_str());
        line.append("**: ");
        line.append(name);
        line.append(" | Sentiment ");
        line.append(ctx.merged_sentiment.to_text_dp(2).as_str());
        line.append(" | Confidence ");
        line.append(ctx.merged_confidence.mul(hundred).to_text_dp(0).as_str());
        line.append("%\n");
        summary.append(line.as_str());
        proof {
            assert(summary@ =~= mid + symbol_lines(contexts@.take(i + 1)));
        }
        i = i + 1;
    }
    proof {
        assert(contexts@.take(i as int) =~= contexts@);
    }
    summary
}

} // verus!
