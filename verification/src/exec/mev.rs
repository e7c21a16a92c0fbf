//! MEV protection: risk analysis of an order (size, order type, mempool
//! congestion, sandwich exposure), the protection chosen for each risk
//! level, atomic bundles and their submission to a private pool.
use crate::brain::reflect::{opt, strs};
use crate::clock::now_secs;
use crate::decimal::{ddiv, dint, dlit, dlt, dmul, opt_view, units, Dec};
use crate::market::{Order, OrderType, Side};
use crate::series::sum_of;
use vstd::prelude::*;

verus! {

/// The plain values of an order.
pub open spec fn order_view(o: Order) -> (Seq<char>, Side, (int, int), OrderType, Option<(int, int)>, Option<(int, int)>, Option<(int, int)>) {
    (o.symbol@, o.side, o.size@, o.order_type, opt_view(o.limit_price), opt_view(o.stop_loss), opt_view(o.take_profit))
}

/// A copy of an order.
pub fn order_copy(o: &Order) -> (r: Order)
    ensures
        order_view(r) == order_view(*o),
{
    Order {
        symbol: o.symbol.clone(),
        side: o.side,
        size: o.size,
        order_type: o.order_type,
        limit_price: o.limit_price,
        stop_loss: o.stop_loss,
        take_profit: o.take_profit,
    }
}

/// An optional decimal, or a default.
pub open spec fn value_or(o: Option<Dec>, d: (int, int)) -> (int, int) {
    match o {
        Some(x) => x@,
        None => d,
    }
}

/// An optional text as plain characters.
pub open spec fn opt_text(o: Option<String>) -> Option<Seq<char>> {
    match o {
        Some(s) => Some(s@),
        None => None,
    }
}

/// Private pool configuration.
#[derive(Debug, Clone)]
pub struct PrivatePoolConfig {
    pub name: String,
    pub endpoint: String,
    pub chain_ids: Vec<u64>,
    pub enabled: bool,
}

/// MEV protection configuration.
#[derive(Debug, Clone)]
pub struct MevShieldConfig {
    /// Send through private transaction pools.
    pub private_tx_enabled: bool,
    /// Send decoy transactions.
    pub decoys_enabled: bool,
    /// Largest priority fee (gwei).
    pub max_priority_fee: Dec,
    /// Least delay between related transactions (ms).
    pub min_tx_delay_ms: u64,
    /// Batch transactions.
    pub batch_enabled: bool,
    pub private_pools: Vec<PrivatePoolConfig>,
}

/// The default shield configuration: private transactions, no decoys, a
/// priority fee of at most 2 gwei, 100 ms between related transactions,
/// batching, and the Flashbots (chain 1) and X Layer (chain 196) private
/// pools, both enabled.
pub open spec fn is_default_mev_config(c: MevShieldConfig) -> bool {
    &&& c.private_tx_enabled
    &&& !c.decoys_enabled
    &&& c.max_priority_fee@ == dint(2)
    &&& c.min_tx_delay_ms == 100
    &&& c.batch_enabled
    &&& c.private_pools@.len() == 2
    &&& c.private_pools@[0].name@ == "flashbots"@
    &&& c.private_pools@[0].endpoint@ == "https://relay.flashbots.net"@
    &&& c.private_pools@[0].chain_ids@ == seq![1u64]
    &&& c.private_pools@[0].enabled
    &&& c.private_pools@[1].name@ == "xlayer_private"@
    &&& c.private_pools@[1].endpoint@ == "https://private.xlayer.tech"@
    &&& c.private_pools@[1].chain_ids@ == seq![196u64]
    &&& c.private_pools@[1].enabled
}

impl Default for MevShieldConfig {
    fn default() -> (r: MevShieldConfig)
        ensures
            is_default_mev_config(r),
    {
        let flashbots = PrivatePoolConfig {
            name: "flashbots".to_owned(),
            endpoint: "https://relay.flashbots.net".to_owned(),
            chain_ids: vec![1u64],
            enabled: true,
        };
        let xlayer = PrivatePoolConfig {
            name: "xlayer_private".to_owned(),
            endpoint: "https://private.xlayer.tech".to_owned(),
            chain_ids: vec![196u64],
            enabled: true,
        };
        proof {
            assert(flashbots.chain_ids@ =~= seq![1u64]);
            assert(xlayer.chain_ids@ =~= seq![196u64]);
        }
        let mut pools: Vec<PrivatePoolConfig> = Vec::new();
        pools.push(flashbots);
        pools.push(xlayer);
        MevShieldConfig {
            private_tx_enabled: true,
            decoys_enabled: false,
            max_priority_fee: Dec::from_u64(2),
            min_tx_delay_ms: 100,
            batch_enabled: true,
            private_pools: pools,
        }
    }
}

/// MEV risk level.
#[derive(Debug, Clone, Copy, PartialEq, Eq, Structural)]
pub enum MevRisk {
    Low,
    Medium,
    High,
}

/// Rank of a risk level: the higher, the worse.
pub open spec fn risk_rank(r: MevRisk) -> int {
    match r {
        MevRisk::High => 3,
        MevRisk::Medium => 2,
        MevRisk::Low => 1,
    }
}

/// The worse of two risks (the second on a tie).
pub open spec fn worse(a: MevRisk, b: MevRisk) -> MevRisk {
    if risk_rank(b) >= risk_rank(a) {
        b
    } else {
        a
    }
}

/// The worst of a list of risks, `Low` for none.
pub open spec fn worst_of(s: Seq<MevRisk>) -> MevRisk
    decreases s.len(),
{
    if s.len() == 0 {
        MevRisk::Low
    } else {
        worse(worst_of(s.drop_last()), s.last())
    }
}

fn worse_of(a: MevRisk, b: MevRisk) -> (r: MevRisk)
    ensures
        r == worse(a, b),
{
    let ra: u8 = match a {
        MevRisk::High => 3,
        MevRisk::Medium => 2,
        MevRisk::Low => 1,
    };
    let rb: u8 = match b {
        MevRisk::High => 3,
        MevRisk::Medium => 2,
        MevRisk::Low => 1,
    };
    if rb >= ra {
        b
    } else {
        a
    }
}

/// Searcher activity level.
#[derive(Debug, Clone, Copy, PartialEq, Eq, Structural)]
pub enum SearcherActivity {
    Low,
    Normal,
    High,
    Aggressive,
}

impl Default for SearcherActivity {
    fn default() -> (r: SearcherActivity)
        ensures
            r == SearcherActivity::Low,
    {
        SearcherActivity::Low
    }
}

/// Mempool context of an analysis.
#[derive(Debug, Clone, Copy)]
pub struct MevContext {
    pub mempool_tx_count: usize,
    pub gas_price: Dec,
    pub recent_sandwiches: u32,
    pub block_utilization: Dec,
    pub searcher_activity: SearcherActivity,
}

impl Default for MevContext {
    fn default() -> (r: MevContext)
        ensures
            r.mempool_tx_count == 0,
            r.gas_price@ == dint(0),
            r.recent_sandwiches == 0,
            r.block_utilization@ == dint(0),
            r.searcher_activity == SearcherActivity::Low,
    {
        MevContext {
            mempool_tx_count: 0,
            gas_price: Dec::zero(),
            recent_sandwiches: 0,
            block_utilization: Dec::zero(),
            searcher_activity: SearcherActivity::Low,
        }
    }
}

/// The context behind an optional reference.
pub open spec fn ctx_of(c: Option<&MevContext>) -> Option<MevContext> {
    match c {
        Some(x) => Some(*x),
        None => None,
    }
}

/// Risk from the order's size: above 1.0 high, above 0.1 medium.
pub open spec fn size_risk_of(size: (int, int)) -> MevRisk {
    if dlt(dlit(10, 1), size) {
        MevRisk::High
    } else if dlt(dlit(1, 1), size) {
        MevRisk::Medium
    } else {
        MevRisk::Low
    }
}

/// Risk from the order's type: market orders are high.
pub open spec fn type_risk_of(t: OrderType) -> MevRisk {
    match t {
        OrderType::Market => MevRisk::High,
        OrderType::Limit => MevRisk::Low,
    }
}

/// Risk from mempool congestion; medium without context.
pub open spec fn mempool_risk_of(ctx: Option<MevContext>) -> MevRisk {
    match ctx {
        Some(c) => if c.mempool_tx_count > 10000 {
            MevRisk::High
        } else if c.mempool_tx_count > 5000 {
            MevRisk::Medium
        } else {
            MevRisk::Low
        },
        None => MevRisk::Medium,
    }
}

/// Score of the signs of sandwich exposure: a market order above 0.5 (3),
/// gas above 50 gwei (2), recent sandwiches (2), no limit price (1).
pub open spec fn sandwich_score(order: Order, ctx: Option<MevContext>) -> int {
    (if order.order_type == OrderType::Market && dlt(dlit(5, 1), order.size@) {
        3int
    } else {
        0int
    }) + match ctx {
        Some(c) => (if dlt(dint(50), c.gas_price@) {
            2int
        } else {
            0int
        }) + (if c.recent_sandwiches > 0 {
            2int
        } else {
            0int
        }),
        None => 0int,
    } + (if order.limit_price is None {
        1int
    } else {
        0int
    })
}

/// Risk from a sandwich score: up to 2 low, up to 4 medium.
pub open spec fn sandwich_risk_of(score: int) -> MevRisk {
    if score <= 2 {
        MevRisk::Low
    } else if score <= 4 {
        MevRisk::Medium
    } else {
        MevRisk::High
    }
}

/// The overall risk of an order: the worst of its four risks.
pub open spec fn overall_of(order: Order, ctx: Option<MevContext>) -> MevRisk {
    worse(
        worse(worse(size_risk_of(order.size@), type_risk_of(order.order_type)), mempool_risk_of(ctx)),
        sandwich_risk_of(sandwich_score(order, ctx)),
    )
}

/// Recommendations for an order at a medium or high overall risk.
pub open spec fn recommendations_of(config: MevShieldConfig, order: Order, ctx: Option<MevContext>) -> Seq<Seq<char>> {
    let overall = overall_of(order, ctx);
    if overall == MevRisk::High || overall == MevRisk::Medium {
        opt(config.private_tx_enabled, "Use private transaction pool"@) + opt(
            order.order_type == OrderType::Market,
            "Consider limit order instead of market"@,
        ) + opt(size_risk_of(order.size@) == MevRisk::High, "Split into smaller orders"@) + opt(
            config.batch_enabled,
            "Batch with other transactions"@,
        )
    } else {
        Seq::empty()
    }
}

/// Share of the order's value that MEV may take at a risk level, in percent.
pub open spec fn mev_pct_of(r: MevRisk) -> (int, int) {
    match r {
        MevRisk::High => dlit(5, 1),
        MevRisk::Medium => dlit(2, 1),
        MevRisk::Low => dlit(5, 2),
    }
}

/// Estimated MEV loss: the order's value (size times limit price, 1000
/// without one) times the risk's percentage.
pub open spec fn mev_loss_of(order: Order, r: MevRisk) -> (int, int) {
    ddiv(dmul(dmul(order.size@, value_or(order.limit_price, dint(1000))), mev_pct_of(r)), dint(100))
}

/// MEV risk analysis.
#[derive(Debug, Clone)]
pub struct MevRiskAnalysis {
    pub size_risk: MevRisk,
    pub type_risk: MevRisk,
    pub mempool_risk: MevRisk,
    pub sandwich_risk: MevRisk,
    pub overall: MevRisk,
    pub recommendations: Vec<String>,
    pub estimated_mev_loss: Dec,
}

/// An analysis as plain values.
pub open spec fn analysis_view(a: MevRiskAnalysis) -> (MevRisk, MevRisk, MevRisk, MevRisk, MevRisk, Seq<Seq<char>>, (int, int)) {
    (a.size_risk, a.type_risk, a.mempool_risk, a.sandwich_risk, a.overall, strs(a.recommendations@), a.estimated_mev_loss@)
}

/// The analysis of an order in a context.
pub open spec fn analysis_of(config: MevShieldConfig, order: Order, ctx: Option<MevContext>) -> (MevRisk, MevRisk, MevRisk, MevRisk, MevRisk, Seq<Seq<char>>, (int, int)) {
    (
        size_risk_of(order.size@),
        type_risk_of(order.order_type),
        mempool_risk_of(ctx),
        sandwich_risk_of(sandwich_score(order, ctx)),
        overall_of(order, ctx),
        recommendations_of(config, order, ctx),
        mev_loss_of(order, overall_of(order, ctx)),
    )
}

/// The name of the first enabled private pool.
pub open spec fn first_enabled(pools: Seq<PrivatePoolConfig>) -> Option<Seq<char>>
    decreases pools.len(),
{
    if pools.len() == 0 {
        None
    } else if pools[0].enabled {
        Some(pools[0].name@)
    } else {
        first_enabled(pools.drop_first())
    }
}

/// Protection for a risk level: private pool, pool name, priority fee,
/// slippage bound (bps), batching, decoys.
pub open spec fn protection_of(config: MevShieldConfig, r: MevRisk) -> (bool, Option<Seq<char>>, (int, int), (int, int), bool, u8) {
    match r {
        MevRisk::High => (
            config.private_tx_enabled,
            first_enabled(config.private_pools@),
            config.max_priority_fee@,
            dint(50),
            config.batch_enabled,
            if config.decoys_enabled {
                2u8
            } else {
                0u8
            },
        ),
        MevRisk::Medium => (
            config.private_tx_enabled,
            first_enabled(config.private_pools@),
            dmul(config.max_priority_fee@, dlit(7, 1)),
            dint(100),
            false,
            0u8,
        ),
        MevRisk::Low => (false, None, dmul(config.max_priority_fee@, dlit(5, 1)), dint(200), false, 0u8),
    }
}

/// Order wrapped with MEV protection.
#[derive(Debug, Clone)]
pub struct ProtectedOrder {
    pub order: Order,
    pub use_private_pool: bool,
    pub private_pool_name: Option<String>,
    pub priority_fee: Dec,
    pub max_slippage_bps: Dec,
    pub use_batching: bool,
    pub decoy_count: u8,
    pub analysis: MevRiskAnalysis,
}

/// The protection of a protected order as plain values.
pub open spec fn protection_view(p: ProtectedOrder) -> (bool, Option<Seq<char>>, (int, int), (int, int), bool, u8) {
    (p.use_private_pool, opt_text(p.private_pool_name), p.priority_fee@, p.max_slippage_bps@, p.use_batching, p.decoy_count)
}

/// What `protect` makes of an order.
pub open spec fn protected_as(p: ProtectedOrder, config: MevShieldConfig, order: Order) -> bool {
    &&& order_view(p.order) == order_view(order)
    &&& analysis_view(p.analysis) == analysis_of(config, order, None)
    &&& protection_view(p) == protection_of(config, overall_of(order, None))
}

/// Transaction bundle for atomic execution.
#[derive(Debug, Clone)]
pub struct TransactionBundle {
    pub transactions: Vec<ProtectedOrder>,
    pub total_value: Dec,
    pub overall_risk: MevRisk,
    pub use_private_pool: bool,
    pub pool_name: Option<String>,
    pub atomic: bool,
}

/// Status of a private submission.
#[derive(Debug, Clone, Copy, PartialEq, Eq, Structural)]
pub enum SubmissionStatus {
    Pending,
    Included,
    Failed,
    Expired,
}

/// Result of a private submission.
#[derive(Debug, Clone)]
pub struct PrivateSubmission {
    pub bundle_hash: String,
    pub pool_name: String,
    pub submitted_at: i64,
    pub estimated_inclusion_block: u64,
    pub status: SubmissionStatus,
}

/// The last (at most 100) mempool contexts seen.
struct MempoolMonitor {
    recent_contexts: Vec<MevContext>,
    sandwich_detections: u32,
}

/// The contexts kept after one more: the oldest leaves beyond 100.
pub open spec fn contexts_push(s: Seq<MevContext>, c: MevContext) -> Seq<MevContext> {
    if s.len() + 1 > 100 {
        s.push(c).drop_first()
    } else {
        s.push(c)
    }
}

impl MempoolMonitor {
    fn new() -> (r: MempoolMonitor)
        ensures
            r.recent_contexts@.len() == 0,
            r.sandwich_detections == 0,
    {
        MempoolMonitor { recent_contexts: Vec::new(), sandwich_detections: 0 }
    }

    fn update(&mut self, context: MevContext)
        ensures
            final(self).recent_contexts@ == contexts_push(old(self).recent_contexts@, context),
            final(self).sandwich_detections == old(self).sandwich_detections,
    {
        self.recent_contexts.push(context);
        if self.recent_contexts.len() > 100 {
            self.recent_contexts.remove(0);
        }
    }
}

/// MEV protection shield.
pub struct MevShield {
    config: MevShieldConfig,
    pending_batch: Vec<ProtectedOrder>,
    mempool_monitor: MempoolMonitor,
}

impl MevShield {
    pub closed spec fn config_spec(&self) -> MevShieldConfig {
        self.config
    }

    /// The mempool contexts seen, oldest first (at most 100).
    pub closed spec fn contexts(&self) -> Seq<MevContext> {
        self.mempool_monitor.recent_contexts@
    }

    pub fn new(config: MevShieldConfig) -> (r: MevShield)
        ensures
            r.config_spec() == config,
            r.contexts().len() == 0,
    {
        MevShield { config, pending_batch: Vec::new(), mempool_monitor: MempoolMonitor::new() }
    }

    pub fn with_defaults() -> (r: MevShield)
        ensures
            is_default_mev_config(r.config_spec()),
            first_enabled(r.config_spec().private_pools@) == Some("flashbots"@),
            r.contexts().len() == 0,
    {
        let config = MevShieldConfig::default();
        proof {
            assert(config.private_pools@[0].enabled);
        }
        MevShield::new(config)
    }

    /// The shield of the earlier interface.
    pub fn legacy(private_tx: bool) -> (r: LegacyMevShield)
        ensures
            r.private_tx == private_tx,
            !r.decoys,
            r.max_priority_fee@ == dint(2),
    {
        LegacyMevShield { private_tx, decoys: false, max_priority_fee: Dec::from_u64(2) }
    }

    /// Sandwich exposure of an order (see `sandwich_score`).
    fn detect_sandwich_potential(&self, order: &Order, context: Option<&MevContext>) -> (r: MevRisk)
        ensures
            r == sandwich_risk_of(sandwich_score(*order, ctx_of(context))),
    {
        let mut risk_score: u32 = 0;
        if order.order_type == OrderType::Market && order.size.gt(&Dec::new(5, 1)) {
            risk_score = risk_score + 3;
        }
        match context {
            Some(ctx) => {
                if ctx.gas_price.gt(&Dec::from_u64(50)) {
                    risk_score = risk_score + 2;
                }
                if ctx.recent_sandwiches > 0 {
                    risk_score = risk_score + 2;
                }
            },
            None => {},
        }
        if order.limit_price.is_none() {
            risk_score = risk_score + 1;
        }
        if risk_score <= 2 {
            MevRisk::Low
        } else if risk_score <= 4 {
            MevRisk::Medium
        } else {
            MevRisk::High
        }
    }

    /// Estimated MEV loss of an order at a risk level.
    fn estimate_mev_loss(&self, order: &Order, risk: &MevRisk) -> (r: Dec)
        ensures
            r@ == mev_loss_of(*order, *risk),
    {
        let price = match order.limit_price {
            Some(p) => p,
            None => Dec::from_u64(1000),
        };
        let order_value = order.size.mul(price);
        let mev_pct = match risk {
            MevRisk::High => Dec::new(5, 1),
            MevRisk::Medium => Dec::new(2, 1),
            MevRisk::Low => Dec::new(5, 2),
        };
        order_value.mul(mev_pct).div(Dec::from_u64(100))
    }

    /// The MEV risk of an order: its size, type, mempool and sandwich
    /// risks, the worst of them, recommendations and the estimated loss.
    pub fn analyze_risk(&self, order: &Order, context: Option<&MevContext>) -> (r: MevRiskAnalysis)
        ensures
            analysis_view(r) == analysis_of(self.config_spec(), *order, ctx_of(context)),
    {
        let size_risk = if order.size.gt(&Dec::new(10, 1)) {
            MevRisk::High
        } else if order.size.gt(&Dec::new(1, 1)) {
            MevRisk::Medium
        } else {
            MevRisk::Low
        };
        let type_risk = match order.order_type {
            OrderType::Market => MevRisk::High,
            OrderType::Limit => MevRisk::Low,
        };
        let mempool_risk = match context {
            Some(ctx) => if ctx.mempool_tx_count > 10000 {
                MevRisk::High
            } else if ctx.mempool_tx_count > 5000 {
                MevRisk::Medium
            } else {
                MevRisk::Low
            },
            None => MevRisk::Medium,
        };
        let sandwich_risk = self.detect_sandwich_potential(order, context);
        let overall = worse_of(worse_of(worse_of(size_risk, type_risk), mempool_risk), sandwich_risk);
        let mut recommendations: Vec<String> = Vec::new();
        if overall == MevRisk::High || overall == MevRisk::Medium {
            if self.config.private_tx_enabled {
                recommendations.push("Use private transaction pool".to_owned());
            }
            if order.order_type == OrderType::Market {
                recommendations.push("Consider limit order instead of market".to_owned());
            }
            if size_risk == MevRisk::High {
                recommendations.push("Split into smaller orders".to_owned());
            }
            if self.config.batch_enabled {
                recommendations.push("Batch with other transactions".to_owned());
            }
        }
        proof {
            let c = self.config;
            let o = *order;
            let ctx = ctx_of(context);
            if overall == MevRisk::High || overall == MevRisk::Medium {
                assert(strs(recommendations@) =~= recommendations_of(c, o, ctx));
            } else {
                assert(strs(recommendations@) =~= recommendations_of(c, o, ctx));
            }
        }
        let estimated_mev_loss = self.estimate_mev_loss(order, &overall);
        MevRiskAnalysis {
            size_risk,
            type_risk,
            mempool_risk,
            sandwich_risk,
            overall,
            recommendations,
            estimated_mev_loss,
        }
    }

    /// The name of the first enabled private pool.
    fn select_private_pool(&self) -> (r: Option<String>)
        ensures
            opt_text(r) == first_enabled(self.config_spec().private_pools@),
    {
        let pools = &self.config.private_pools;
        let mut i: usize = 0;
        proof {
            assert(pools@.skip(0) =~= pools@);
        }
        while i < pools.len()
            invariant
                i <= pools.len(),
                first_enabled(pools@.skip(i as int)) == first_enabled(pools@),
                pools@ == self.config.private_pools@,
            decreases pools.len() - i,
        {
            proof {
                assert(pools@.skip(i as int).drop_first() =~= pools@.skip(i + 1));
                assert(pools@.skip(i as int)[0] == pools@[i as int]);
            }
            if pools[i].enabled {
                let name = pools[i].name.clone();
                proof {
                    assert(first_enabled(pools@.skip(i as int)) == Some(pools@[i as int].name@));
                    assert(name@ == pools@[i as int].name@);
                }
                return Some(name);
            }
            i = i + 1;
        }
        None
    }

    /// An order wrapped with the protection its risk calls for.
    pub fn protect(&self, order: &Order) -> (r: ProtectedOrder)
        ensures
            protected_as(r, self.config_spec(), *order),
    {
        let analysis = self.analyze_risk(order, None);
        let (use_private_pool, pool_name, priority_fee, max_slippage_bps, use_batching, decoy_count) =
            match analysis.overall {
            MevRisk::High => (
                self.config.private_tx_enabled,
                self.select_private_pool(),
                self.config.max_priority_fee,
                Dec::from_u64(50),
                self.config.batch_enabled,
                if self.config.decoys_enabled {
                    2u8
                } else {
                    0u8
                },
            ),
            MevRisk::Medium => (
                self.config.private_tx_enabled,
                self.select_private_pool(),
                self.config.max_priority_fee.mul(Dec::new(7, 1)),
                Dec::from_u64(100),
                false,
                0u8,
            ),
            MevRisk::Low => (
                false,
                None,
                self.config.max_priority_fee.mul(Dec::new(5, 1)),
                Dec::from_u64(200),
                false,
                0u8,
            ),
        };
        ProtectedOrder {
            order: order_copy(order),
            use_private_pool,
            private_pool_name: pool_name,
            priority_fee,
            max_slippage_bps,
            use_batching,
            decoy_count,
            analysis,
        }
    }

    /// A bundle of protected orders, sent together.
    pub fn create_bundle(&self, orders: Vec<&Order>) -> (r: TransactionBundle)
        ensures
            r.transactions@.len() == orders@.len(),
            forall|i: int|
                0 <= i < orders@.len() ==> protected_as(
                    #[trigger] r.transactions@[i],
                    self.config_spec(),
                    *orders@[i],
                ),
            r.total_value@ == sum_of(bundle_values(orders@)),
            r.overall_risk == worst_of(bundle_risks(self.config_spec(), orders@)),
            r.use_private_pool == self.config_spec().private_tx_enabled,
            opt_text(r.pool_name) == first_enabled(self.config_spec().private_pools@),
            r.atomic,
    {
        let mut protected: Vec<ProtectedOrder> = Vec::new();
        let mut total_value = Dec::zero();
        let mut overall_risk = MevRisk::Low;
        let mut i: usize = 0;
        while i < orders.len()
            invariant
                i <= orders.len(),
                protected@.len() == i,
                forall|j: int|
                    0 <= j < i ==> protected_as(#[trigger] protected@[j], self.config_spec(), *orders@[j]),
                total_value@ == sum_of(bundle_values(orders@.take(i as int))),
                overall_risk == worst_of(bundle_risks(self.config_spec(), orders@.take(i as int))),
            decreases orders.len() - i,
        {
            proof {
                assert(orders@.take(i + 1).drop_last() =~= orders@.take(i as int));
                assert(bundle_values(orders@.take(i + 1)).drop_last() =~= bundle_values(orders@.take(i as int)));
                assert(bundle_risks(self.config_spec(), orders@.take(i + 1)).drop_last() =~= bundle_risks(
                    self.config_spec(),
                    orders@.take(i as int),
                ));
            }
            let p = self.protect(orders[i]);
            let price = match p.order.limit_price {
                Some(x) => x,
                None => Dec::zero(),
            };
            total_value = total_value.add(p.order.size.mul(price));
            overall_risk = worse_of(overall_risk, p.analysis.overall);
            protected.push(p);
            i = i + 1;
        }
        proof {
            assert(orders@.take(i as int) =~= orders@);
        }
        TransactionBundle {
            transactions: protected,
            total_value,
            overall_risk,
            use_private_pool: self.config.private_tx_enabled,
            pool_name: self.select_private_pool(),
            atomic: true,
        }
    }

    /// Submits a bundle to its private pool: refused without a pool name,
    /// or when no configured pool has that name; the submission is then
    /// pending, stamped with the current time.
    pub fn submit_private(&self, bundle: &TransactionBundle) -> (r: Result<PrivateSubmission, String>)
        ensures
            bundle.pool_name is None ==> (r matches Err(e) && e@ == "No private pool configured"@),
            bundle.pool_name matches Some(n) ==> (!pool_named(self.config_spec().private_pools@, n@) ==> (
            r matches Err(e) && e@ == "Private pool not found"@)),
            bundle.pool_name matches Some(n) ==> (pool_named(self.config_spec().private_pools@, n@) ==> (
            r matches Ok(s) && s.pool_name@ == n@ && s.bundle_hash@ == BUNDLE_HASH@
                && s.estimated_inclusion_block == 0 && s.status == SubmissionStatus::Pending)),
    {
        let pool_name = match &bundle.pool_name {
            Some(n) => n,
            None => {
                return Err("No private pool configured".to_owned());
            },
        };
        let pools = &self.config.private_pools;
        let mut i: usize = 0;
        let mut found = false;
        while i < pools.len()
            invariant_except_break
                !found,
            invariant
                i <= pools.len(),
                forall|j: int| 0 <= j < i ==> (#[trigger] pools@[j]).name@ != pool_name@,
            ensures
                found ==> pool_named(pools@, pool_name@),
                !found ==> forall|j: int| 0 <= j < pools@.len() ==> (#[trigger] pools@[j]).name@ != pool_name@,
            decreases pools.len() - i,
        {
            if pools[i].name == *pool_name {
                found = true;
                proof {
                    assert(pools@[i as int].name@ == pool_name@);
                }
                break;
            }
            i = i + 1;
        }
        if !found {
            return Err("Private pool not found".to_owned());
        }
        Ok(PrivateSubmission {
            bundle_hash: BUNDLE_HASH.to_owned(),
            pool_name: pool_name.clone(),
            submitted_at: now_secs(),
            estimated_inclusion_block: 0,
            status: SubmissionStatus::Pending,
        })
    }

    /// Records a mempool context (the last 100 are kept).
    pub fn update_mempool_context(&mut self, context: MevContext)
        ensures
            final(self).config_spec() == old(self).config_spec(),
            final(self).contexts() == contexts_push(old(self).contexts(), context),
    {
        self.mempool_monitor.update(context);
    }
}

/// The hash given to a private submission.
pub const BUNDLE_HASH: &'static str = "0xaaaaaaaaaaaaaaaaaaaaaaaaaaaaaaaaaaaaaaaaaaaaaaaaaaaaaaaaaaaaaaaa";

/// Whether a pool of that name is configured.
pub open spec fn pool_named(pools: Seq<PrivatePoolConfig>, name: Seq<char>) -> bool {
    exists|j: int| 0 <= j < pools.len() && (#[trigger] pools[j]).name@ == name
}

/// The value of each order of a bundle: size times limit price (zero without one).
pub open spec fn bundle_values(orders: Seq<&Order>) -> Seq<(int, int)> {
    orders.map_values(|o: &Order| dmul(o.size@, value_or(o.limit_price, dint(0))))
}

/// The overall risk of each order of a bundle, analysed without context.
pub open spec fn bundle_risks(config: MevShieldConfig, orders: Seq<&Order>) -> Seq<MevRisk> {
    orders.map_values(|o: &Order| overall_of(*o, None))
}

/// Risk analysis of the earlier interface.
#[derive(Debug, Clone)]
pub struct LegacyMevRiskAnalysis {
    pub size_risk: MevRisk,
    pub type_risk: MevRisk,
    pub overall: MevRisk,
    pub recommendations: Vec<String>,
}

/// Protected order of the earlier interface.
#[derive(Debug, Clone)]
pub struct LegacyProtectedOrder {
    pub order: Order,
    pub use_private_pool: bool,
    pub priority_fee: Dec,
    pub analysis: LegacyMevRiskAnalysis,
}

/// Shield of the earlier interface.
pub struct LegacyMevShield {
    pub private_tx: bool,
    pub decoys: bool,
    pub max_priority_fee: Dec,
}

impl Default for LegacyMevShield {
    fn default() -> (r: LegacyMevShield)
        ensures
            r.private_tx,
            !r.decoys,
            r.max_priority_fee@ == dint(2),
    {
        LegacyMevShield { private_tx: true, decoys: false, max_priority_fee: Dec::from_u64(2) }
    }
}

/// The earlier overall risk: the worse of size and type risks.
pub open spec fn legacy_overall_of(order: Order) -> MevRisk {
    worse(size_risk_of(order.size@), type_risk_of(order.order_type))
}

/// The earlier recommendations for an overall risk.
pub open spec fn legacy_recommendations_of(r: MevRisk) -> Seq<Seq<char>> {
    match r {
        MevRisk::High => seq![
            "Use private transaction pool"@,
            "Consider splitting into smaller orders"@,
            "Use limit order instead of market"@,
        ],
        MevRisk::Medium => seq!["Consider private transaction pool"@, "Set tight slippage tolerance"@],
        MevRisk::Low => Seq::empty(),
    }
}

impl LegacyMevShield {
    pub fn new(private_tx: bool) -> (r: LegacyMevShield)
        ensures
            r.private_tx == private_tx,
            !r.decoys,
            r.max_priority_fee@ == dint(2),
    {
        let d = LegacyMevShield::default();
        LegacyMevShield { private_tx, decoys: d.decoys, max_priority_fee: d.max_priority_fee }
    }

    /// Size and type risks of an order, the worse of them, and advice.
    pub fn analyze_risk(&self, order: &Order) -> (r: LegacyMevRiskAnalysis)
        ensures
            r.size_risk == size_risk_of(order.size@),
            r.type_risk == type_risk_of(order.order_type),
            r.overall == legacy_overall_of(*order),
            strs(r.recommendations@) == legacy_recommendations_of(r.overall),
    {
        let size_risk = if order.size.gt(&Dec::new(10, 1)) {
            MevRisk::High
        } else if order.size.gt(&Dec::new(1, 1)) {
            MevRisk::Medium
        } else {
            MevRisk::Low
        };
        let type_risk = match order.order_type {
            OrderType::Market => MevRisk::High,
            OrderType::Limit => MevRisk::Low,
        };
        let overall = if size_risk == MevRisk::High || type_risk == MevRisk::High {
            MevRisk::High
        } else if size_risk == MevRisk::Medium || type_risk == MevRisk::Medium {
            MevRisk::Medium
        } else {
            MevRisk::Low
        };
        let mut recommendations: Vec<String> = Vec::new();
        match overall {
            MevRisk::High => {
                recommendations.push("Use private transaction pool".to_owned());
                recommendations.push("Consider splitting into smaller orders".to_owned());
                recommendations.push("Use limit order instead of market".to_owned());
            },
            MevRisk::Medium => {
                recommendations.push("Consider private transaction pool".to_owned());
                recommendations.push("Set tight slippage tolerance".to_owned());
            },
            MevRisk::Low => {},
        }
        proof {
            assert(strs(recommendations@) =~= legacy_recommendations_of(overall));
        }
        LegacyMevRiskAnalysis { size_risk, type_risk, overall, recommendations }
    }

    /// An order with the earlier protection: the private pool where allowed
    /// and the risk is medium or high.
    pub fn protect(&self, order: &Order) -> (r: LegacyProtectedOrder)
        ensures
            order_view(r.order) == order_view(*order),
            r.analysis.overall == legacy_overall_of(*order),
            r.use_private_pool == (self.private_tx && (legacy_overall_of(*order) == MevRisk::High
                || legacy_overall_of(*order) == MevRisk::Medium)),
            r.priority_fee@ == self.max_priority_fee@,
    {
        let analysis = self.analyze_risk(order);
        let use_private_pool = self.private_tx && (analysis.overall == MevRisk::High || analysis.overall
            == MevRisk::Medium);
        LegacyProtectedOrder {
            order: order_copy(order),
            use_private_pool,
            priority_fee: self.max_priority_fee,
            analysis,
        }
    }
}


/// The overall risk of an order is at least each of its four risks.
pub proof fn lemma_overall_dominates(order: Order, ctx: Option<MevContext>)
    ensures
        risk_rank(overall_of(order, ctx)) >= risk_rank(size_risk_of(order.size@)),
        risk_rank(overall_of(order, ctx)) >= risk_rank(type_risk_of(order.order_type)),
        risk_rank(overall_of(order, ctx)) >= risk_rank(mempool_risk_of(ctx)),
        risk_rank(overall_of(order, ctx)) >= risk_rank(sandwich_risk_of(sandwich_score(order, ctx))),
{
}

/// The mempool monitor never keeps more than 100 contexts.
pub proof fn lemma_contexts_bounded(s: Seq<MevContext>, c: MevContext)
    requires
        s.len() <= 100,
    ensures
        contexts_push(s, c).len() <= 100,
        contexts_push(s, c).last() == c,
{
}

/// A low risk asks for no private pool, no batching and no decoys.
pub proof fn lemma_low_risk_unprotected(config: MevShieldConfig)
    ensures
        !protection_of(config, MevRisk::Low).0,
        protection_of(config, MevRisk::Low).1 is None,
        !protection_of(config, MevRisk::Low).4,
        protection_of(config, MevRisk::Low).5 == 0,
{
}

} // verus!
