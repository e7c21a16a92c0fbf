//! The execution engine's decisions: which executor an order goes to in
//! each trading mode, and when live execution is ready.  The orders
//! themselves are sent by the caller through the executor chosen here.
use crate::config::ExecutionConfig;
use crate::exec::live::LiveExecutor;
use crate::exec::mev::{is_default_mev_config, MevShield, MevShieldConfig};
use crate::exec::paper::PaperTrader;
use crate::exec::router::{is_default_router_config, RouterConfig, SmartOrderRouter};
use crate::decimal::dint;
use crate::market::TradingMode;
use vstd::prelude::*;

verus! {

/// Where an order is executed.
#[derive(Debug, Clone, Copy, PartialEq, Eq, Structural)]
pub enum ExecutionPath {
    /// The engine's paper trader.
    Paper,
    /// The live executor.
    Live,
    /// A fresh paper trader, live execution not being set up.
    PaperFallback,
}

/// Message of a live executor that is not ready.
pub open spec fn not_ready_text() -> Seq<char> {
    "Live executor not ready. Check environment variables:\n- OKX_API_KEY, OKX_API_SECRET, OKX_PASSPHRASE (for CEX)\n- XLAYER_PRIVATE_KEY (for DEX)"@
}

/// Unified execution engine.
pub struct ExecutionEngine {
    mode: TradingMode,
    router: SmartOrderRouter,
    mev_shield: MevShield,
    paper_trader: Option<PaperTrader>,
    live_executor: Option<LiveExecutor>,
}

impl ExecutionEngine {
    pub closed spec fn mode_spec(&self) -> TradingMode {
        self.mode
    }

    pub closed spec fn has_paper(&self) -> bool {
        self.paper_trader is Some
    }

    /// The paper trader, where there is one.
    pub closed spec fn paper_spec(&self) -> Option<PaperTrader> {
        self.paper_trader
    }

    pub closed spec fn live_spec(&self) -> Option<LiveExecutor> {
        self.live_executor
    }

    /// The router.
    pub closed spec fn router_spec(&self) -> SmartOrderRouter {
        self.router
    }

    /// The MEV shield.
    pub closed spec fn mev_spec(&self) -> MevShield {
        self.mev_shield
    }

    /// An engine for a mode: with a paper trader in paper and simulation
    /// modes, without a live executor.
    pub fn new(mode: TradingMode, _config: ExecutionConfig) -> (r: ExecutionEngine)
        ensures
            r.mode_spec() == mode,
            r.has_paper() == (mode != TradingMode::Live),
            r.paper_spec() matches Some(p) ==> p.slippage_spec() == dint(5) && p.fee_spec() == dint(10)
                && p.next_id_spec() == 1,
            r.live_spec() is None,
            is_default_router_config(r.router_spec().config_spec()),
            r.router_spec().quotes().len() == 0,
            is_default_mev_config(r.mev_spec().config_spec()),
            r.mev_spec().contexts().len() == 0,
    {
        let router = SmartOrderRouter::new(RouterConfig::default());
        let mev_shield = MevShield::new(MevShieldConfig::default());
        let paper_trader = match mode {
            TradingMode::Paper | TradingMode::Simulation => Some(PaperTrader::new()),
            TradingMode::Live => None,
        };
        ExecutionEngine { mode, router, mev_shield, paper_trader, live_executor: None }
    }

    /// Sets up live execution in live mode: the executor must be ready.
    /// In other modes the engine is kept as it is.
    pub fn with_live_executor(self, executor: LiveExecutor) -> (r: Result<ExecutionEngine, String>)
        ensures
            self.mode_spec() != TradingMode::Live ==> (r matches Ok(e) && e.mode_spec() == self.mode_spec()
                && e.has_paper() == self.has_paper() && e.live_spec() == self.live_spec()),
            self.mode_spec() == TradingMode::Live ==> if (executor.config_spec().okx_enabled
                && executor.okx_ready()) || (executor.config_spec().dex_enabled && executor.signer_spec()) {
                r matches Ok(e) && e.mode_spec() == self.mode_spec() && e.has_paper() == self.has_paper()
                    && e.live_spec() == Some(executor)
            } else {
                r matches Err(m) && m@ == not_ready_text()
            },
    {
        let mut s = self;
        if s.mode == TradingMode::Live {
            if !executor.is_ready() {
                return Err(
                    "Live executor not ready. Check environment variables:\n- OKX_API_KEY, OKX_API_SECRET, OKX_PASSPHRASE (for CEX)\n- XLAYER_PRIVATE_KEY (for DEX)".to_owned(),
                );
            }
            s.live_executor = Some(executor);
        }
        Ok(s)
    }

    /// Whether a live executor is set up and ready.
    pub fn is_live_ready(&self) -> (r: bool)
        ensures
            r == match self.live_spec() {
                Some(e) => (e.config_spec().okx_enabled && e.okx_ready()) || (e.config_spec().dex_enabled
                    && e.signer_spec()),
                None => false,
            },
    {
        match &self.live_executor {
            Some(e) => e.is_ready(),
            None => false,
        }
    }

    /// Where orders go: paper and simulation to the paper trader, live to
    /// the live executor, or to a fresh paper trader without one.
    pub fn execution_path(&self) -> (r: ExecutionPath)
        ensures
            r == match self.mode_spec() {
                TradingMode::Paper | TradingMode::Simulation => ExecutionPath::Paper,
                TradingMode::Live => if self.live_spec() is Some {
                    ExecutionPath::Live
                } else {
                    ExecutionPath::PaperFallback
                },
            },
    {
        match self.mode {
            TradingMode::Paper | TradingMode::Simulation => ExecutionPath::Paper,
            TradingMode::Live => if self.live_executor.is_some() {
                ExecutionPath::Live
            } else {
                ExecutionPath::PaperFallback
            },
        }
    }

    pub fn mode(&self) -> (r: TradingMode)
        ensures
            r == self.mode_spec(),
    {
        self.mode
    }

    /// The live executor, if set up.
    pub fn live_executor(&self) -> (r: Option<&LiveExecutor>)
        ensures
            r is Some == self.live_spec() is Some,
    {
        match &self.live_executor {
            Some(e) => Some(e),
            None => None,
        }
    }

    /// The live executor, to record pending orders.
    pub fn live_executor_mut(&mut self) -> (r: Option<&mut LiveExecutor>)
        ensures
            r is Some == old(self).live_spec() is Some,
    {
        match &mut self.live_executor {
            Some(e) => Some(e),
            None => None,
        }
    }

    /// The paper trader, if the mode has one.
    pub fn paper_trader_mut(&mut self) -> (r: Option<&mut PaperTrader>)
        ensures
            r is Some == old(self).has_paper(),
    {
        match &mut self.paper_trader {
            Some(t) => Some(t),
            None => None,
        }
    }

    /// The router.
    pub fn router(&self) -> (r: &SmartOrderRouter)
        ensures
            *r == self.router_spec(),
    {
        &self.router
    }

    /// The MEV shield.
    pub fn mev_shield(&self) -> (r: &MevShield)
        ensures
            *r == self.mev_spec(),
    {
        &self.mev_shield
    }

    /// Whether an order of the symbol waits for a live fill.
    pub fn has_pending_order(&self, symbol: &str) -> (r: bool)
        ensures
            r == match self.live_spec() {
                Some(e) => crate::exec::live::pending_index(e.pending(), symbol@) is Some,
                None => false,
            },
    {
        match &self.live_executor {
            Some(e) => e.has_pending_order(symbol),
            None => false,
        }
    }
}

} // verus!
