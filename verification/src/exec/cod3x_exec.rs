//! Lending on the Cod3x protocol: validation of requests, safe borrow and
//! repayment sizes, strategy plans and liquidation targets.
use crate::decimal::{
    dadd, ddiv, dint, dle, dlit, dlt, dmax, dmul, dsub, units, decimal_text, lemma_add_exact_small, lemma_pow10_table, pow10,
    Dec,
};
use vstd::prelude::*;

verus! {

/// Lending operation.
#[derive(Debug, Clone, Copy, PartialEq, Eq, Structural)]
pub enum LendingOperation {
    Deposit,
    Withdraw,
    Borrow,
    Repay,
    Liquidate,
}

/// Interest rate mode.
#[derive(Debug, Clone, Copy, PartialEq, Eq, Structural)]
pub enum InterestRateMode {
    Stable,
    Variable,
}

impl InterestRateMode {
    /// Protocol code of the mode.
    pub fn to_u8(&self) -> (r: u8)
        ensures
            r == match *self {
                InterestRateMode::Stable => 1u8,
                InterestRateMode::Variable => 2u8,
            },
    {
        match self {
            InterestRateMode::Stable => 1,
            InterestRateMode::Variable => 2,
        }
    }
}

/// Lending request.
#[derive(Debug, Clone)]
pub struct LendingRequest {
    pub operation: LendingOperation,
    pub asset: String,
    pub amount: Dec,
    pub interest_rate_mode: Option<InterestRateMode>,
    pub on_behalf_of: Option<String>,
    pub max_slippage_bps: Dec,
    pub deadline_secs: u64,
}

/// The parts of a lending request.
pub open spec fn req_view(r: LendingRequest) -> (
    LendingOperation,
    Seq<char>,
    (int, int),
    Option<InterestRateMode>,
    Option<Seq<char>>,
    (int, int),
    u64,
) {
    (
        r.operation,
        r.asset@,
        r.amount@,
        r.interest_rate_mode,
        match r.on_behalf_of {
            Some(s) => Some(s@),
            None => None,
        },
        r.max_slippage_bps@,
        r.deadline_secs,
    )
}

/// Lending execution result.
#[derive(Debug, Clone)]
pub struct LendingResult {
    pub request: LendingRequest,
    pub success: bool,
    pub tx_hash: Option<String>,
    pub actual_amount: Dec,
    pub gas_used: u64,
    pub gas_price_gwei: Dec,
    pub execution_time_ms: u64,
    pub new_health_factor: Option<Dec>,
    pub error: Option<String>,
}

/// Liquidation target.
#[derive(Debug, Clone)]
pub struct LiquidationTarget {
    pub user: String,
    pub collateral_asset: String,
    pub debt_asset: String,
    pub health_factor: Dec,
    pub max_liquidatable_debt: Dec,
    pub liquidation_bonus_bps: u32,
    pub estimated_profit_usd: Dec,
}

/// Executor configuration.
#[derive(Debug, Clone, Copy)]
pub struct Cod3xExecutorConfig {
    /// Minimum health factor to keep.
    pub min_health_factor: Dec,
    /// Health factor to reach after operations.
    pub target_health_factor: Dec,
    /// Highest gas price accepted (gwei).
    pub max_gas_gwei: Dec,
    /// Minimum profit of a liquidation (USD).
    pub min_liquidation_profit_usd: Dec,
    /// Whether a low health factor triggers repayment.
    pub auto_repay_enabled: bool,
    pub default_rate_mode: InterestRateMode,
}

/// The default executor configuration: keep a health factor of 1.2, aim
/// for 1.5, at most 50 gwei, liquidations from $10 profit, automatic
/// repayment, variable rate.
pub open spec fn is_default_cod3x_config(c: Cod3xExecutorConfig) -> bool {
    &&& c.min_health_factor@ == dlit(12, 1)
    &&& c.target_health_factor@ == dlit(15, 1)
    &&& c.max_gas_gwei@ == dint(50)
    &&& c.min_liquidation_profit_usd@ == dint(10)
    &&& c.auto_repay_enabled
    &&& c.default_rate_mode == InterestRateMode::Variable
}

impl Default for Cod3xExecutorConfig {
    fn default() -> (r: Cod3xExecutorConfig)
        ensures
            is_default_cod3x_config(r),
    {
        Cod3xExecutorConfig {
            min_health_factor: Dec::new(12, 1),
            target_health_factor: Dec::new(15, 1),
            max_gas_gwei: Dec::from_u64(50),
            min_liquidation_profit_usd: Dec::from_u64(10),
            auto_repay_enabled: true,
            default_rate_mode: InterestRateMode::Variable,
        }
    }
}

/// A submitted operation awaiting confirmation; the time is in seconds
/// since the Unix epoch.
#[derive(Debug, Clone)]
pub struct PendingOperation {
    pub request: LendingRequest,
    pub submitted_at: i64,
    pub tx_hash: Option<String>,
}

/// Lending strategy.
#[derive(Debug, Clone)]
pub enum LendingStrategy {
    /// Deposit for yield.
    DepositOnly { asset: String },
    /// Leveraged long position.
    LeveragedLong { collateral_asset: String, borrow_asset: String, target_leverage: Dec },
    /// Long one asset and short another through a borrow.
    DeltaNeutral { long_asset: String, short_asset: String, size: Dec },
    /// Close every position.
    Unwind,
}

/// Current lending position.
#[derive(Debug, Clone)]
pub struct PositionSnapshot {
    pub collaterals: Vec<CollateralItem>,
    pub debts: Vec<DebtItem>,
    pub health_factor: Dec,
    pub net_apy: Dec,
}

#[derive(Debug, Clone)]
pub struct CollateralItem {
    pub asset: String,
    pub amount: Dec,
    pub value_usd: Dec,
    pub apy: Dec,
}

#[derive(Debug, Clone)]
pub struct DebtItem {
    pub asset: String,
    pub amount: Dec,
    pub value_usd: Dec,
    pub apy: Dec,
    pub rate_mode: InterestRateMode,
}

/// Position open to liquidation.
#[derive(Debug, Clone)]
pub struct UnhealthyPosition {
    pub user: String,
    pub collateral_asset: String,
    pub debt_asset: String,
    pub total_collateral_usd: Dec,
    pub total_debt_usd: Dec,
    pub health_factor: Dec,
    pub liquidation_bonus_bps: u32,
}

/// Why a request is refused, checked in order; `None` when it may go ahead.
pub open spec fn validation_error(
    c: Cod3xExecutorConfig,
    r: LendingRequest,
    hf: (int, int),
    balance: (int, int),
) -> Option<Seq<char>> {
    if dle(r.amount@, dint(0)) {
        Some("Amount must be positive"@)
    } else if r.deadline_secs == 0 {
        Some("Deadline must be set"@)
    } else {
        match r.operation {
            LendingOperation::Deposit => if dlt(balance, r.amount@) {
                Some(
                    "Insufficient balance: "@ + decimal_text(r.amount@) + " > "@ + decimal_text(
                        balance,
                    ),
                )
            } else {
                None
            },
            LendingOperation::Withdraw => if dlt(hf, dadd(c.min_health_factor@, dlit(2, 1))) {
                Some("Health factor too low for withdrawal: "@ + decimal_text(hf))
            } else {
                None
            },
            LendingOperation::Borrow => if dlt(hf, c.target_health_factor@) {
                Some(
                    "Health factor would drop below target: "@ + decimal_text(hf) + " < "@
                        + decimal_text(c.target_health_factor@),
                )
            } else {
                None
            },
            LendingOperation::Repay => if dlt(balance, r.amount@) {
                Some("Insufficient balance for repayment"@)
            } else {
                None
            },
            LendingOperation::Liquidate => None,
        }
    }
}

/// Request views of a plan.
pub open spec fn plan_view(v: Seq<LendingRequest>) -> Seq<
    (LendingOperation, Seq<char>, (int, int), Option<InterestRateMode>, Option<Seq<char>>, (int, int), u64),
> {
    v.map_values(|r: LendingRequest| req_view(r))
}

/// The request that repays a debt.
pub open spec fn repay_view(d: DebtItem) -> (LendingOperation, Seq<char>, (int, int), Option<InterestRateMode>, Option<Seq<char>>, (int, int), u64) {
    (LendingOperation::Repay, d.asset@, d.amount@, Some(d.rate_mode), None, dint(100), 300u64)
}

/// The request that withdraws a collateral.
pub open spec fn withdraw_view(k: CollateralItem) -> (LendingOperation, Seq<char>, (int, int), Option<InterestRateMode>, Option<Seq<char>>, (int, int), u64) {
    (LendingOperation::Withdraw, k.asset@, k.amount@, None, None, dint(100), 300u64)
}

/// The requests that carry out a strategy with some capital: a deposit; for
/// a leveraged long also a borrow of `capital * (leverage - 1)`; for a
/// delta-neutral position a deposit of the size and a borrow of 70% of it;
/// to unwind, repay every debt and then withdraw every collateral.
pub open spec fn plan_of(
    c: Cod3xExecutorConfig,
    s: LendingStrategy,
    capital: (int, int),
    pos: Option<PositionSnapshot>,
) -> Seq<(LendingOperation, Seq<char>, (int, int), Option<InterestRateMode>, Option<Seq<char>>, (int, int), u64)> {
    match s {
        LendingStrategy::DepositOnly { asset } => seq![
            (LendingOperation::Deposit, asset@, capital, None, None, dint(50), 300u64),
        ],
        LendingStrategy::LeveragedLong { collateral_asset, borrow_asset, target_leverage } => seq![
            (LendingOperation::Deposit, collateral_asset@, capital, None, None, dint(50), 300u64),
            (
                LendingOperation::Borrow,
                borrow_asset@,
                dmul(capital, dsub(target_leverage@, dint(1))),
                Some(c.default_rate_mode),
                None,
                dint(50),
                300u64,
            ),
        ],
        LendingStrategy::DeltaNeutral { long_asset, short_asset, size } => seq![
            (LendingOperation::Deposit, long_asset@, size@, None, None, dint(50), 300u64),
            (
                LendingOperation::Borrow,
                short_asset@,
                dmul(size@, dlit(7, 1)),
                Some(InterestRateMode::Variable),
                None,
                dint(50),
                300u64,
            ),
        ],
        LendingStrategy::Unwind => match pos {
            Some(p) => p.debts@.map_values(|d: DebtItem| repay_view(d)) + p.collaterals@.map_values(
                |k: CollateralItem| withdraw_view(k),
            ),
            None => Seq::empty(),
        },
    }
}

/// The parts of a liquidation target.
pub open spec fn target_view(t: LiquidationTarget) -> (Seq<char>, Seq<char>, Seq<char>, (int, int), (int, int), u32, (int, int)) {
    (
        t.user@,
        t.collateral_asset@,
        t.debt_asset@,
        t.health_factor@,
        t.max_liquidatable_debt@,
        t.liquidation_bonus_bps,
        t.estimated_profit_usd@,
    )
}

/// Net profit of liquidating half the debt of a position, with its bonus,
/// less an estimated $5 of gas.
pub open spec fn liquidation_profit(p: UnhealthyPosition) -> (int, int) {
    let max_liq = dmul(p.total_debt_usd@, dlit(5, 1));
    let bonus = ddiv(dint(p.liquidation_bonus_bps as int), dint(10000));
    dsub(dmul(max_liq, bonus), dint(5))
}

/// The liquidation targets among positions, in order: those with a health
/// factor under 1 whose net profit reaches the minimum.
pub open spec fn targets_of(s: Seq<UnhealthyPosition>, min_profit: (int, int)) -> Seq<
    (Seq<char>, Seq<char>, Seq<char>, (int, int), (int, int), u32, (int, int)),
>
    decreases s.len(),
{
    if s.len() == 0 {
        Seq::empty()
    } else {
        let p = s.last();
        let rest = targets_of(s.drop_last(), min_profit);
        if dlt(p.health_factor@, dint(1)) && !dlt(liquidation_profit(p), min_profit) {
            rest.push(
                (
                    p.user@,
                    p.collateral_asset@,
                    p.debt_asset@,
                    p.health_factor@,
                    dmul(p.total_debt_usd@, dlit(5, 1)),
                    p.liquidation_bonus_bps,
                    liquidation_profit(p),
                ),
            )
        } else {
            rest
        }
    }
}

fn request(
    operation: LendingOperation,
    asset: String,
    amount: Dec,
    interest_rate_mode: Option<InterestRateMode>,
    slippage: u64,
    deadline_secs: u64,
) -> (r: LendingRequest)
    ensures
        req_view(r) == (operation, asset@, amount@, interest_rate_mode, None::<Seq<char>>, dint(
            slippage as int,
        ), deadline_secs),
{
    LendingRequest {
        operation,
        asset,
        amount,
        interest_rate_mode,
        on_behalf_of: None,
        max_slippage_bps: Dec::from_u64(slippage),
        deadline_secs,
    }
}

/// Cod3x lending executor.
pub struct Cod3xExecutor {
    config: Cod3xExecutorConfig,
    pending_operations: Vec<PendingOperation>,
}

impl Cod3xExecutor {
    /// The configuration.
    pub closed spec fn config_spec(&self) -> Cod3xExecutorConfig {
        self.config
    }

    pub fn new(config: Cod3xExecutorConfig) -> (r: Cod3xExecutor)
        ensures
            r.config_spec() == config,
    {
        Cod3xExecutor { config, pending_operations: Vec::new() }
    }

    pub fn with_defaults() -> (r: Cod3xExecutor)
        ensures
            is_default_cod3x_config(r.config_spec()),
    {
        Cod3xExecutor::new(Cod3xExecutorConfig::default())
    }

    /// The configuration.
    pub fn config(&self) -> (r: &Cod3xExecutorConfig)
        ensures
            *r == self.config_spec(),
    {
        &self.config
    }

    /// Check a request before execution (see `validation_error`).
    pub fn validate_request(&self, request: &LendingRequest, current_health_factor: Dec, available_balance: Dec) -> (r: Result<(), String>)
        ensures
            match validation_error(self.config_spec(), *request, current_health_factor@, available_balance@) {
                None => r is Ok,
                Some(e) => r matches Err(m) && m@ == e,
            },
            request.operation == LendingOperation::Withdraw && dlt(dint(0), request.amount@)
                && request.deadline_secs != 0 && -7 * pow10(28) <= units(
                self.config_spec().min_health_factor@,
            ) <= 7 * pow10(28) ==> (r is Err <==> units(current_health_factor@) < units(
                self.config_spec().min_health_factor@,
            ) + 2 * pow10(27)),
    {
        proof {
            lemma_pow10_table();
        }
        if request.amount.le(&Dec::zero()) {
            return Err("Amount must be positive".to_owned());
        }
        if request.deadline_secs == 0 {
            return Err("Deadline must be set".to_owned());
        }
        match request.operation {
            LendingOperation::Deposit => {
                if available_balance.lt(&request.amount) {
                    let mut e = "Insufficient balance: ".to_owned();
                    e.append(request.amount.to_text().as_str());
                    e.append(" > ");
                    e.append(available_balance.to_text().as_str());
                    return Err(e);
                }
            },
            LendingOperation::Withdraw => {
                let margin = Dec::new(2, 1);
                let min_hf = self.config.min_health_factor;
                proof {
                    let m = min_hf;
                    use_type_invariant(&min_hf);
                    min_hf.lemma_wf_in_range();
                    use_type_invariant(&margin);
                    margin.lemma_wf_in_range();
                    if -7 * pow10(28) <= units(m@) <= 7 * pow10(28) {
                        lemma_add_exact_small(m@, margin@, true);
                    }
                }
                if current_health_factor.lt(&min_hf.add(margin)) {
                    let mut e = "Health factor too low for withdrawal: ".to_owned();
                    e.append(current_health_factor.to_text().as_str());
                    return Err(e);
                }
            },
            LendingOperation::Borrow => {
                if current_health_factor.lt(&self.config.target_health_factor) {
                    let mut e = "Health factor would drop below target: ".to_owned();
                    e.append(current_health_factor.to_text().as_str());
                    e.append(" < ");
                    e.append(self.config.target_health_factor.to_text().as_str());
                    return Err(e);
                }
            },
            LendingOperation::Repay => {
                if available_balance.lt(&request.amount) {
                    return Err("Insufficient balance for repayment".to_owned());
                }
            },
            LendingOperation::Liquidate => {},
        }
        Ok(())
    }

    /// Largest borrow that keeps the health factor at the target (the
    /// configured one by default): `collateral * ltv / target - debt`, not
    /// below zero; zero without collateral.
    pub fn calculate_safe_borrow(
        &self,
        current_collateral_usd: Dec,
        current_debt_usd: Dec,
        collateral_ltv: Dec,
        target_hf: Option<Dec>,
    ) -> (r: Dec)
        requires
            units(current_collateral_usd@) != 0 ==> units(
                match target_hf {
                    Some(t) => t@,
                    None => self.config_spec().target_health_factor@,
                },
            ) != 0,
        ensures
            ({
                let target = match target_hf {
                    Some(t) => t@,
                    None => self.config_spec().target_health_factor@,
                };
                r@ == if units(current_collateral_usd@) == 0 {
                    dint(0)
                } else {
                    dmax(
                        dsub(
                            ddiv(dmul(current_collateral_usd@, collateral_ltv@), target),
                            current_debt_usd@,
                        ),
                        dint(0),
                    )
                }
            }),
    {
        let target = match target_hf {
            Some(t) => t,
            None => self.config.target_health_factor,
        };
        if current_collateral_usd.is_zero() {
            return Dec::zero();
        }
        let max_total_debt = current_collateral_usd.mul(collateral_ltv).div(target);
        max_total_debt.sub(current_debt_usd).max(Dec::zero())
    }

    /// Repayment that restores the target health factor (the configured one
    /// by default): `debt - collateral * ltv / target`, not below zero; zero
    /// when the health factor already reaches the target.
    pub fn calculate_required_repayment(
        &self,
        current_collateral_usd: Dec,
        current_debt_usd: Dec,
        collateral_ltv: Dec,
        current_hf: Dec,
        target_hf: Option<Dec>,
    ) -> (r: Dec)
        requires
            ({
                let target = match target_hf {
                    Some(t) => t@,
                    None => self.config_spec().target_health_factor@,
                };
                dlt(current_hf@, target) ==> units(target) != 0
            }),
        ensures
            ({
                let target = match target_hf {
                    Some(t) => t@,
                    None => self.config_spec().target_health_factor@,
                };
                r@ == if !dlt(current_hf@, target) {
                    dint(0)
                } else {
                    dmax(
                        dsub(
                            current_debt_usd@,
                            ddiv(dmul(current_collateral_usd@, collateral_ltv@), target),
                        ),
                        dint(0),
                    )
                }
            }),
    {
        let target = match target_hf {
            Some(t) => t,
            None => self.config.target_health_factor,
        };
        if !current_hf.lt(&target) {
            return Dec::zero();
        }
        let max_debt_for_target = current_collateral_usd.mul(collateral_ltv).div(target);
        current_debt_usd.sub(max_debt_for_target).max(Dec::zero())
    }

    /// The requests that carry out a strategy (see `plan_of`).
    pub fn build_strategy_plan(
        &self,
        strategy: LendingStrategy,
        capital: Dec,
        current_position: Option<&PositionSnapshot>,
    ) -> (r: Vec<LendingRequest>)
        ensures
            plan_view(r@) == plan_of(
                self.config_spec(),
                strategy,
                capital@,
                match current_position {
                    Some(p) => Some(*p),
                    None => None,
                },
            ),
    {
        let ghost s = strategy;
        let mut requests: Vec<LendingRequest> = Vec::new();
        match strategy {
            LendingStrategy::DepositOnly { asset } => {
                requests.push(request(LendingOperation::Deposit, asset, capital, None, 50, 300));
                proof {
                    assert(plan_view(requests@) =~= plan_of(self.config_spec(), s, capital@, None));
                    assert(plan_view(requests@) =~= plan_of(
                        self.config_spec(),
                        s,
                        capital@,
                        match current_position {
                            Some(p) => Some(*p),
                            None => None,
                        },
                    ));
                }
            },
            LendingStrategy::LeveragedLong { collateral_asset, borrow_asset, target_leverage } => {
                requests.push(
                    request(LendingOperation::Deposit, collateral_asset, capital, None, 50, 300),
                );
                let borrow_amount = capital.mul(target_leverage.sub(Dec::one()));
                requests.push(
                    request(
                        LendingOperation::Borrow,
                        borrow_asset,
                        borrow_amount,
                        Some(self.config.default_rate_mode),
                        50,
                        300,
                    ),
                );
                proof {
                    assert(plan_view(requests@) =~= plan_of(
                        self.config_spec(),
                        s,
                        capital@,
                        match current_position {
                            Some(p) => Some(*p),
                            None => None,
                        },
                    ));
                }
            },
            LendingStrategy::DeltaNeutral { long_asset, short_asset, size } => {
                requests.push(request(LendingOperation::Deposit, long_asset, size, None, 50, 300));
                requests.push(
                    request(
                        LendingOperation::Borrow,
                        short_asset,
                        size.mul(Dec::new(7, 1)),
                        Some(InterestRateMode::Variable),
                        50,
                        300,
                    ),
                );
                proof {
                    assert(plan_view(requests@) =~= plan_of(
                        self.config_spec(),
                        s,
                        capital@,
                        match current_position {
                            Some(p) => Some(*p),
                            None => None,
                        },
                    ));
                }
            },
            LendingStrategy::Unwind => {
                match current_position {
                    Some(pos) => {
                        let ghost debts = pos.debts@.map_values(|d: DebtItem| repay_view(d));
                        let ghost cols = pos.collaterals@.map_values(
                            |k: CollateralItem| withdraw_view(k),
                        );
                        let mut i: usize = 0;
                        while i < pos.debts.len()
                            invariant
                                i <= pos.debts.len(),
                                debts == pos.debts@.map_values(|d: DebtItem| repay_view(d)),
                                plan_view(requests@) == debts.take(i as int),
                            decreases pos.debts.len() - i,
                        {
                            let d = &pos.debts[i];
                            let q = request(
                                LendingOperation::Repay,
                                d.asset.clone(),
                                d.amount,
                                Some(d.rate_mode),
                                100,
                                300,
                            );
                            let ghost before = requests@;
                            requests.push(q);
                            proof {
                                assert(plan_view(requests@) =~= plan_view(before).push(req_view(q)));
                                assert(debts.take(i + 1) =~= debts.take(i as int).push(debts[i as int]));
                            }
                            i = i + 1;
                        }
                        proof {
                            assert(debts.take(i as int) =~= debts);
                        }
                        let mut j: usize = 0;
                        while j < pos.collaterals.len()
                            invariant
                                j <= pos.collaterals.len(),
                                cols == pos.collaterals@.map_values(|k: CollateralItem| withdraw_view(k)),
                                plan_view(requests@) == debts + cols.take(j as int),
                            decreases pos.collaterals.len() - j,
                        {
                            let k = &pos.collaterals[j];
                            let q = request(
                                LendingOperation::Withdraw,
                                k.asset.clone(),
                                k.amount,
                                None,
                                100,
                                300,
                            );
                            let ghost before = requests@;
                            requests.push(q);
                            proof {
                                assert(plan_view(requests@) =~= plan_view(before).push(req_view(q)));
                                assert(cols.take(j + 1) =~= cols.take(j as int).push(cols[j as int]));
                                assert(debts + cols.take(j + 1) =~= (debts + cols.take(j as int)).push(
                                    cols[j as int],
                                ));
                            }
                            j = j + 1;
                        }
                        proof {
                            assert(cols.take(j as int) =~= cols);
                        }
                    },
                    None => {
                        proof {
                            assert(plan_view(requests@) =~= Seq::empty());
                        }
                    },
                }
            },
        }
        requests
    }

    /// Profitable liquidation targets among unhealthy positions, with the
    /// configured minimum profit by default (see `targets_of`).
    pub fn find_liquidation_targets(&self, unhealthy_positions: &Vec<UnhealthyPosition>, min_profit_usd: Option<Dec>) -> (r: Vec<LiquidationTarget>)
        ensures
            r@.map_values(|t: LiquidationTarget| target_view(t)) == targets_of(
                unhealthy_positions@,
                match min_profit_usd {
                    Some(m) => m@,
                    None => self.config_spec().min_liquidation_profit_usd@,
                },
            ),
    {
        proof {
            lemma_pow10_table();
        }
        let min_profit = match min_profit_usd {
            Some(m) => m,
            None => self.config.min_liquidation_profit_usd,
        };
        let mut out: Vec<LiquidationTarget> = Vec::new();
        let mut i: usize = 0;
        while i < unhealthy_positions.len()
            invariant
                i <= unhealthy_positions.len(),
                out@.map_values(|t: LiquidationTarget| target_view(t)) == targets_of(
                    unhealthy_positions@.take(i as int),
                    min_profit@,
                ),
            decreases unhealthy_positions.len() - i,
        {
            proof {
                assert(unhealthy_positions@.take(i + 1).drop_last() =~= unhealthy_positions@.take(
                    i as int,
                ));
            }
            let pos = &unhealthy_positions[i];
            if pos.health_factor.lt(&Dec::one()) {
                let max_liquidatable = pos.total_debt_usd.mul(Dec::new(5, 1));
                let bonus_pct = Dec::from_u64(pos.liquidation_bonus_bps as u64).div(
                    Dec::from_u64(10000),
                );
                let net_profit = max_liquidatable.mul(bonus_pct).sub(Dec::from_u64(5));
                if !net_profit.lt(&min_profit) {
                    let t = LiquidationTarget {
                        user: pos.user.clone(),
                        collateral_asset: pos.collateral_asset.clone(),
                        debt_asset: pos.debt_asset.clone(),
                        health_factor: pos.health_factor,
                        max_liquidatable_debt: max_liquidatable,
                        liquidation_bonus_bps: pos.liquidation_bonus_bps,
                        estimated_profit_usd: net_profit,
                    };
                    let ghost before = out@;
                    out.push(t);
                    proof {
                        assert(out@.map_values(|t: LiquidationTarget| target_view(t)) =~= before.map_values(
                            |t: LiquidationTarget| target_view(t),
                        ).push(target_view(t)));
                    }
                }
            }
            i = i + 1;
        }
        proof {
            assert(unhealthy_positions@.take(i as int) =~= unhealthy_positions@);
        }
        out
    }

    /// Request to liquidate part of a target's debt.
    pub fn build_liquidation_request(&self, target: &LiquidationTarget, amount_to_liquidate: Dec) -> (r: LendingRequest)
        ensures
            req_view(r) == (
                LendingOperation::Liquidate,
                target.debt_asset@,
                amount_to_liquidate@,
                None::<InterestRateMode>,
                Some(target.user@),
                dint(100),
                60u64,
            ),
    {
        LendingRequest {
            operation: LendingOperation::Liquidate,
            asset: target.debt_asset.clone(),
            amount: amount_to_liquidate,
            interest_rate_mode: None,
            on_behalf_of: Some(target.user.clone()),
            max_slippage_bps: Dec::from_u64(100),
            deadline_secs: 60,
        }
    }

    /// Whether a health factor triggers automatic repayment.
    pub fn should_auto_repay(&self, health_factor: Dec) -> (r: bool)
        ensures
            r == (self.config_spec().auto_repay_enabled && dlt(
                health_factor@,
                self.config_spec().min_health_factor@,
            )),
    {
        self.config.auto_repay_enabled && health_factor.lt(&self.config.min_health_factor)
    }
}

} // verus!
