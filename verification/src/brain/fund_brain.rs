//! Fundamental brain: whale activity, social and news sentiment, and
//! security screening of tokens.
use crate::brain::reflect::{copy_strings, strs};
use crate::clock::now_secs;
use crate::decimal::{
    dadd, ddiv, dint, dle, dlit, dlt, dmax, dmin, dmul, dsub, lemma_add_exact_small, lemma_pow10_table, opt_view, pow10, units,
    Dec,
};
use crate::text::{join, join_sep, joined_sep, lowercase, text_lowercase};
use vstd::prelude::*;

verus! {

/// Whale action types.
#[derive(Debug, Clone, Copy, PartialEq, Eq, Structural)]
pub enum WhaleAction {
    Buy,
    Sell,
    Transfer,
    Mint,
    Burn,
    AddLiquidity,
    RemoveLiquidity,
}

/// Buying, adding liquidity and minting are bullish.
pub open spec fn whale_bullish(a: WhaleAction) -> bool {
    a == WhaleAction::Buy || a == WhaleAction::AddLiquidity || a == WhaleAction::Mint
}

/// Selling, removing liquidity and burning are bearish.
pub open spec fn whale_bearish(a: WhaleAction) -> bool {
    a == WhaleAction::Sell || a == WhaleAction::RemoveLiquidity || a == WhaleAction::Burn
}

impl WhaleAction {
    pub fn is_bullish(&self) -> (r: bool)
        ensures
            r == whale_bullish(*self),
    {
        match self {
            WhaleAction::Buy | WhaleAction::AddLiquidity | WhaleAction::Mint => true,
            _ => false,
        }
    }

    pub fn is_bearish(&self) -> (r: bool)
        ensures
            r == whale_bearish(*self),
    {
        match self {
            WhaleAction::Sell | WhaleAction::RemoveLiquidity | WhaleAction::Burn => true,
            _ => false,
        }
    }
}

/// Whale activity signal; the time is in seconds since the Unix epoch.
#[derive(Debug)]
pub struct WhaleSignal {
    pub address: String,
    pub action: WhaleAction,
    pub token: String,
    pub chain: String,
    /// USD value of the transaction.
    pub value_usd: Dec,
    /// A known smart money wallet?
    pub is_smart_money: bool,
    pub timestamp: i64,
}

impl Clone for WhaleSignal {
    fn clone(&self) -> (r: WhaleSignal)
        ensures
            r == *self,
    {
        WhaleSignal {
            address: self.address.clone(),
            action: self.action,
            token: self.token.clone(),
            chain: self.chain.clone(),
            value_usd: self.value_usd,
            is_smart_money: self.is_smart_money,
            timestamp: self.timestamp,
        }
    }
}

/// Mention sentiment.
#[derive(Debug, Clone, Copy, PartialEq, Eq, Structural)]
pub enum MentionSentiment {
    Positive,
    Neutral,
    Negative,
}

/// Mention by an influential account; the time is in seconds since the Unix epoch.
#[derive(Debug)]
pub struct KolMention {
    pub handle: String,
    pub followers: u64,
    pub sentiment: MentionSentiment,
    pub text: String,
    pub timestamp: i64,
}

impl Clone for KolMention {
    fn clone(&self) -> (r: KolMention)
        ensures
            r == *self,
    {
        KolMention {
            handle: self.handle.clone(),
            followers: self.followers,
            sentiment: self.sentiment,
            text: self.text.clone(),
            timestamp: self.timestamp,
        }
    }
}

/// Social sentiment of a token; the time is in seconds since the Unix epoch.
#[derive(Debug)]
pub struct TwitterSentiment {
    pub token: String,
    /// Overall sentiment (-1 to +1).
    pub sentiment_score: Dec,
    pub mention_count: u32,
    pub kol_mentions: Vec<KolMention>,
    /// Trending score (0-100).
    pub trending_score: u8,
    pub window_hours: u32,
    pub timestamp: i64,
}

/// A copy of a list whose elements have exact copies.
fn copy_vec<T: Clone>(v: &Vec<T>) -> (r: Vec<T>)
    requires
        forall|a: T, b: T| call_ensures(T::clone, (&a,), b) ==> a == b,
    ensures
        r@ == v@,
{
    let mut out: Vec<T> = Vec::new();
    let mut i: usize = 0;
    while i < v.len()
        invariant
            i <= v.len(),
            forall|a: T, b: T| call_ensures(T::clone, (&a,), b) ==> a == b,
            out@ == v@.take(i as int),
        decreases v.len() - i,
    {
        let x = v[i].clone();
        proof {
            assert(v@.take(i + 1) == v@.take(i as int).push(v@[i as int]));
        }
        out.push(x);
        i = i + 1;
    }
    proof {
        assert(v@.take(i as int) == v@);
    }
    out
}

impl Clone for TwitterSentiment {
    fn clone(&self) -> (r: TwitterSentiment)
        ensures
            same_twitter(r, *self),
            r.token == self.token,
            r.sentiment_score == self.sentiment_score,
            r.mention_count == self.mention_count,
            r.kol_mentions@ == self.kol_mentions@,
            r.trending_score == self.trending_score,
            r.window_hours == self.window_hours,
            r.timestamp == self.timestamp,
    {
        TwitterSentiment {
            token: self.token.clone(),
            sentiment_score: self.sentiment_score,
            mention_count: self.mention_count,
            kol_mentions: copy_vec(&self.kol_mentions),
            trending_score: self.trending_score,
            window_hours: self.window_hours,
            timestamp: self.timestamp,
        }
    }
}

/// News headline; the time is in seconds since the Unix epoch.
#[derive(Debug)]
pub struct NewsHeadline {
    pub title: String,
    pub source: String,
    pub url: String,
    /// Sentiment (-1 to +1).
    pub sentiment: Dec,
    /// Relevance (0-1).
    pub relevance: Dec,
    pub tokens: Vec<String>,
    pub published_at: i64,
}

impl Clone for NewsHeadline {
    fn clone(&self) -> (r: NewsHeadline)
        ensures
            same_headline(r, *self),
            r.title == self.title,
            r.source == self.source,
            r.url == self.url,
            r.sentiment == self.sentiment,
            r.relevance == self.relevance,
            r.tokens@ == self.tokens@,
            r.published_at == self.published_at,
    {
        NewsHeadline {
            title: self.title.clone(),
            source: self.source.clone(),
            url: self.url.clone(),
            sentiment: self.sentiment,
            relevance: self.relevance,
            tokens: copy_vec(&self.tokens),
            published_at: self.published_at,
        }
    }
}

/// News sentiment of a token; the time is in seconds since the Unix epoch.
#[derive(Debug)]
pub struct NewsSentiment {
    pub token: String,
    /// Overall sentiment (-1 to +1).
    pub sentiment_score: Dec,
    pub headline_count: u32,
    pub headlines: Vec<NewsHeadline>,
    pub timestamp: i64,
}

impl Clone for NewsSentiment {
    fn clone(&self) -> (r: NewsSentiment)
        ensures
            same_news(r, *self),
    {
        NewsSentiment {
            token: self.token.clone(),
            sentiment_score: self.sentiment_score,
            headline_count: self.headline_count,
            headlines: copy_headlines(&self.headlines),
            timestamp: self.timestamp,
        }
    }
}

/// Two headlines hold the same data.
pub open spec fn same_headline(a: NewsHeadline, b: NewsHeadline) -> bool {
    &&& a.title == b.title
    &&& a.source == b.source
    &&& a.url == b.url
    &&& a.sentiment == b.sentiment
    &&& a.relevance == b.relevance
    &&& a.tokens@ == b.tokens@
    &&& a.published_at == b.published_at
}

/// Two lists of headlines hold the same data, in order.
pub open spec fn same_headlines(a: Seq<NewsHeadline>, b: Seq<NewsHeadline>) -> bool {
    a.len() == b.len() && forall|i: int| 0 <= i < a.len() ==> same_headline(#[trigger] a[i], b[i])
}

/// A copy of a list of headlines.
fn copy_headlines(v: &Vec<NewsHeadline>) -> (r: Vec<NewsHeadline>)
    ensures
        same_headlines(r@, v@),
{
    let mut out: Vec<NewsHeadline> = Vec::new();
    let mut i: usize = 0;
    while i < v.len()
        invariant
            i <= v.len(),
            out@.len() == i,
            forall|j: int| 0 <= j < i ==> same_headline(#[trigger] out@[j], v@[j]),
        decreases v.len() - i,
    {
        out.push(v[i].clone());
        i = i + 1;
    }
    out
}

/// Two social sentiments hold the same data.
pub open spec fn same_twitter(a: TwitterSentiment, b: TwitterSentiment) -> bool {
    &&& a.token == b.token
    &&& a.sentiment_score == b.sentiment_score
    &&& a.mention_count == b.mention_count
    &&& a.kol_mentions@ == b.kol_mentions@
    &&& a.trending_score == b.trending_score
    &&& a.window_hours == b.window_hours
    &&& a.timestamp == b.timestamp
}

/// Two news sentiments hold the same data.
pub open spec fn same_news(a: NewsSentiment, b: NewsSentiment) -> bool {
    &&& a.token == b.token
    &&& a.sentiment_score == b.sentiment_score
    &&& a.headline_count == b.headline_count
    &&& same_headlines(a.headlines@, b.headlines@)
    &&& a.timestamp == b.timestamp
}

/// Two security assessments hold the same data.
pub open spec fn same_security(a: SecurityAssessment, b: SecurityAssessment) -> bool {
    &&& a.token == b.token
    &&& a.chain == b.chain
    &&& a.is_honeypot == b.is_honeypot
    &&& a.buy_tax == b.buy_tax
    &&& a.sell_tax == b.sell_tax
    &&& a.can_take_ownership == b.can_take_ownership
    &&& a.can_change_balance == b.can_change_balance
    &&& a.is_mintable == b.is_mintable
    &&& a.liquidity_usd == b.liquidity_usd
    &&& a.risk_score == b.risk_score
    &&& a.red_flags@ == b.red_flags@
    &&& a.timestamp == b.timestamp
}

/// Two optional social sentiments hold the same data.
pub open spec fn same_opt_twitter(a: Option<TwitterSentiment>, b: Option<TwitterSentiment>) -> bool {
    match (a, b) {
        (Some(x), Some(y)) => same_twitter(x, y),
        (None, None) => true,
        _ => false,
    }
}

/// Two optional news sentiments hold the same data.
pub open spec fn same_opt_news(a: Option<NewsSentiment>, b: Option<NewsSentiment>) -> bool {
    match (a, b) {
        (Some(x), Some(y)) => same_news(x, y),
        (None, None) => true,
        _ => false,
    }
}

/// Two optional security assessments hold the same data.
pub open spec fn same_opt_security(a: Option<SecurityAssessment>, b: Option<SecurityAssessment>) -> bool {
    match (a, b) {
        (Some(x), Some(y)) => same_security(x, y),
        (None, None) => true,
        _ => false,
    }
}

/// Security assessment of a token; the time is in seconds since the Unix epoch.
#[derive(Debug)]
pub struct SecurityAssessment {
    pub token: String,
    pub chain: String,
    pub is_honeypot: bool,
    /// Buy tax in percent.
    pub buy_tax: Option<Dec>,
    /// Sell tax in percent.
    pub sell_tax: Option<Dec>,
    pub can_take_ownership: bool,
    pub can_change_balance: bool,
    pub is_mintable: bool,
    pub liquidity_usd: Option<Dec>,
    /// Risk score (0-100, higher is riskier).
    pub risk_score: u8,
    pub red_flags: Vec<String>,
    pub timestamp: i64,
}

impl Clone for SecurityAssessment {
    fn clone(&self) -> (r: SecurityAssessment)
        ensures
            same_security(r, *self),
            r.token == self.token,
            r.chain == self.chain,
            r.is_honeypot == self.is_honeypot,
            r.buy_tax == self.buy_tax,
            r.sell_tax == self.sell_tax,
            r.can_take_ownership == self.can_take_ownership,
            r.can_change_balance == self.can_change_balance,
            r.is_mintable == self.is_mintable,
            r.liquidity_usd == self.liquidity_usd,
            r.risk_score == self.risk_score,
            r.red_flags@ == self.red_flags@,
            r.timestamp == self.timestamp,
    {
        SecurityAssessment {
            token: self.token.clone(),
            chain: self.chain.clone(),
            is_honeypot: self.is_honeypot,
            buy_tax: self.buy_tax,
            sell_tax: self.sell_tax,
            can_take_ownership: self.can_take_ownership,
            can_change_balance: self.can_change_balance,
            is_mintable: self.is_mintable,
            liquidity_usd: self.liquidity_usd,
            risk_score: self.risk_score,
            red_flags: copy_vec(&self.red_flags),
            timestamp: self.timestamp,
        }
    }
}

/// A tax above `limit` percent.
pub open spec fn tax_above(t: Option<Dec>, limit: int) -> bool {
    match t {
        Some(x) => dlt(dint(limit), x@),
        None => false,
    }
}

/// Trading must be blocked: honeypot, owner powers, a tax above 20% or a risk of 80 and up.
pub open spec fn blocks(s: SecurityAssessment) -> bool {
    s.is_honeypot || s.can_take_ownership || s.can_change_balance || tax_above(s.buy_tax, 20)
        || tax_above(s.sell_tax, 20) || s.risk_score >= 80
}

/// Trading is allowed with a warning: not blocked, but a tax above 5%, mintable or a risk of 50 and up.
pub open spec fn warns(s: SecurityAssessment) -> bool {
    !blocks(s) && (tax_above(s.buy_tax, 5) || tax_above(s.sell_tax, 5) || s.is_mintable
        || s.risk_score >= 50)
}

fn tax_over(t: Option<Dec>, limit: u64) -> (r: bool)
    ensures
        r == tax_above(t, limit as int),
{
    match t {
        Some(x) => Dec::from_u64(limit).lt(&x),
        None => false,
    }
}

impl SecurityAssessment {
    /// Should trading be blocked?
    pub fn should_block(&self) -> (r: bool)
        ensures
            r == blocks(*self),
    {
        self.is_honeypot || self.can_take_ownership || self.can_change_balance || tax_over(
            self.buy_tax,
            20,
        ) || tax_over(self.sell_tax, 20) || self.risk_score >= 80
    }

    /// Should trading warn but go on?
    pub fn should_warn(&self) -> (r: bool)
        ensures
            r == warns(*self),
    {
        !self.should_block() && (tax_over(self.buy_tax, 5) || tax_over(self.sell_tax, 5)
            || self.is_mintable || self.risk_score >= 50)
    }

    /// Is the token safe to trade?
    pub fn is_safe(&self) -> (r: bool)
        ensures
            r == (!blocks(*self) && !warns(*self)),
    {
        !self.should_block() && !self.should_warn()
    }
}

/// An assessment is exactly one of safe, warning and blocked.
pub proof fn lemma_security_classes(s: SecurityAssessment)
    ensures
        !(blocks(s) && warns(s)),
        (!blocks(s) && !warns(s)) || blocks(s) || warns(s),
{
}

/// Fundamental action types.
#[derive(Debug, Clone, Copy, PartialEq, Eq, Structural)]
pub enum FundAction {
    Bullish,
    Bearish,
    Neutral,
    Block,
}

/// Fundamental brain recommendation.
#[derive(Debug, Clone)]
pub struct FundRecommendation {
    pub action: FundAction,
    /// Confidence (0-1).
    pub confidence: Dec,
    /// Size modifier (0-1).
    pub size_modifier: Dec,
    pub reasoning: String,
    pub security_warnings: Vec<String>,
}

/// Fundamental brain output; the time is in seconds since the Unix epoch.
#[derive(Debug, Clone)]
pub struct FundBrainOutput {
    pub symbol: String,
    pub chain: String,
    /// Whale sentiment (-1 to +1).
    pub whale_sentiment: Dec,
    pub whale_signals: Vec<WhaleSignal>,
    /// Social sentiment (-1 to +1).
    pub twitter_sentiment: Dec,
    pub twitter_data: Option<TwitterSentiment>,
    /// News sentiment (-1 to +1).
    pub news_sentiment: Dec,
    pub news_data: Option<NewsSentiment>,
    pub security: Option<SecurityAssessment>,
    /// Overall fundamental sentiment (-1 to +1).
    pub overall_sentiment: Dec,
    /// Overall confidence (0-1).
    pub overall_confidence: Dec,
    pub recommendation: FundRecommendation,
    pub timestamp: i64,
}

/// Source weights for sentiment aggregation.
#[derive(Debug, Clone, Copy)]
pub struct SourceWeights {
    pub whale: Dec,
    pub twitter: Dec,
    pub news: Dec,
}

/// The default source weights: whales 0.5, social 0.3, news 0.2.
pub open spec fn is_default_source_weights(w: SourceWeights) -> bool {
    &&& w.whale@ == dlit(5, 1)
    &&& w.twitter@ == dlit(3, 1)
    &&& w.news@ == dlit(2, 1)
}

impl Default for SourceWeights {
    fn default() -> (r: SourceWeights)
        ensures
            is_default_source_weights(r),
    {
        SourceWeights { whale: Dec::new(5, 1), twitter: Dec::new(3, 1), news: Dec::new(2, 1) }
    }
}

/// Fundamental brain configuration.
#[derive(Debug, Clone)]
pub struct FundBrainConfig {
    pub update_interval_secs: u64,
    pub weights: SourceWeights,
    /// Minimum whale trade size in USD.
    pub min_whale_trade_usd: Dec,
    pub whale_lookback_hours: u32,
    pub twitter_window_hours: u32,
    pub tracked_accounts: Vec<String>,
    pub news_feeds: Vec<String>,
    /// Maximum tax before blocking, in percent.
    pub max_tax_pct: Dec,
    pub block_honeypot: bool,
    pub min_liquidity_usd: Dec,
}

/// The default fundamental brain configuration: the default source weights,
/// whale trades from $100k over 24 hours, a 4-hour social window, five
/// tracked accounts and three news feeds, block above 10% tax, honeypots and
/// under $50k liquidity.
pub open spec fn is_default_fund_config(c: FundBrainConfig) -> bool {
    &&& c.update_interval_secs == 30
    &&& is_default_source_weights(c.weights)
    &&& c.min_whale_trade_usd@ == dint(100_000)
    &&& c.whale_lookback_hours == 24
    &&& c.twitter_window_hours == 4
    &&& strs(c.tracked_accounts@) == seq![
        "@solana"@,
        "@base"@,
        "@coinbase"@,
        "@binance"@,
        "@ethereum"@,
    ]
    &&& strs(c.news_feeds@) == seq![
        "https://www.coindesk.com/arc/outboundfeeds/rss/"@,
        "https://www.theblock.co/rss.xml"@,
        "https://decrypt.co/feed"@,
    ]
    &&& c.max_tax_pct@ == dint(10)
    &&& c.block_honeypot
    &&& c.min_liquidity_usd@ == dint(50_000)
}

/// Two fundamental brain configurations hold the same settings.
pub open spec fn same_fund_config(a: FundBrainConfig, b: FundBrainConfig) -> bool {
    &&& a.update_interval_secs == b.update_interval_secs
    &&& a.weights == b.weights
    &&& a.min_whale_trade_usd == b.min_whale_trade_usd
    &&& a.whale_lookback_hours == b.whale_lookback_hours
    &&& a.twitter_window_hours == b.twitter_window_hours
    &&& strs(a.tracked_accounts@) == strs(b.tracked_accounts@)
    &&& strs(a.news_feeds@) == strs(b.news_feeds@)
    &&& a.max_tax_pct == b.max_tax_pct
    &&& a.block_honeypot == b.block_honeypot
    &&& a.min_liquidity_usd == b.min_liquidity_usd
}

impl FundBrainConfig {
    /// A copy of this configuration.
    pub(crate) fn duplicate(&self) -> (r: FundBrainConfig)
        ensures
            same_fund_config(r, *self),
    {
        FundBrainConfig {
            update_interval_secs: self.update_interval_secs,
            weights: self.weights,
            min_whale_trade_usd: self.min_whale_trade_usd,
            whale_lookback_hours: self.whale_lookback_hours,
            twitter_window_hours: self.twitter_window_hours,
            tracked_accounts: copy_strings(&self.tracked_accounts),
            news_feeds: copy_strings(&self.news_feeds),
            max_tax_pct: self.max_tax_pct,
            block_honeypot: self.block_honeypot,
            min_liquidity_usd: self.min_liquidity_usd,
        }
    }
}

impl Default for FundBrainConfig {
    fn default() -> (r: FundBrainConfig)
        ensures
            is_default_fund_config(r),
    {
        let tracked_accounts = vec![
            "@solana".to_owned(),
            "@base".to_owned(),
            "@coinbase".to_owned(),
            "@binance".to_owned(),
            "@ethereum".to_owned(),
        ];
        let news_feeds = vec![
            "https://www.coindesk.com/arc/outboundfeeds/rss/".to_owned(),
            "https://www.theblock.co/rss.xml".to_owned(),
            "https://decrypt.co/feed".to_owned(),
        ];
        proof {
            assert(strs(tracked_accounts@) =~= seq![
                "@solana"@,
                "@base"@,
                "@coinbase"@,
                "@binance"@,
                "@ethereum"@,
            ]);
            assert(strs(news_feeds@) =~= seq![
                "https://www.coindesk.com/arc/outboundfeeds/rss/"@,
                "https://www.theblock.co/rss.xml"@,
                "https://decrypt.co/feed"@,
            ]);
        }
        FundBrainConfig {
            update_interval_secs: 30,
            weights: SourceWeights::default(),
            min_whale_trade_usd: Dec::from_u64(100_000),
            whale_lookback_hours: 24,
            twitter_window_hours: 4,
            tracked_accounts,
            news_feeds,
            max_tax_pct: Dec::from_u64(10),
            block_honeypot: true,
            min_liquidity_usd: Dec::from_u64(50_000),
        }
    }
}

/// Bullish and bearish value of whale signals, smart money counting 1.5 times.
pub open spec fn whale_values(s: Seq<WhaleSignal>) -> ((int, int), (int, int))
    decreases s.len(),
{
    if s.len() == 0 {
        (dint(0), dint(0))
    } else {
        let (bull, bear) = whale_values(s.drop_last());
        let x = s.last();
        let w = if x.is_smart_money {
            dlit(15, 1)
        } else {
            dint(1)
        };
        if whale_bullish(x.action) {
            (dadd(bull, dmul(x.value_usd@, w)), bear)
        } else if whale_bearish(x.action) {
            (bull, dadd(bear, dmul(x.value_usd@, w)))
        } else {
            (bull, bear)
        }
    }
}

/// Whale sentiment: net bullish share of the value, clamped to [-1, 1].
pub open spec fn whale_sentiment_of(s: Seq<WhaleSignal>) -> (int, int) {
    if s.len() == 0 {
        dint(0)
    } else {
        let (bull, bear) = whale_values(s);
        let total = dadd(bull, bear);
        let sentiment = if units(total) == 0 {
            dint(0)
        } else {
            ddiv(dsub(bull, bear), total)
        };
        dmax(dmin(sentiment, dint(1)), dint(-1))
    }
}

/// Weighted overall sentiment, clamped to [-1, 1].
pub open spec fn overall_of(w: SourceWeights, whale: (int, int), twitter: (int, int), news: (int, int)) -> (
    int,
    int,
) {
    dmax(
        dmin(
            dadd(dadd(dmul(whale, w.whale@), dmul(twitter, w.twitter@)), dmul(news, w.news@)),
            dint(1),
        ),
        dint(-1),
    )
}

/// The confidence of `confidence_of`, in hundredths: 30, plus 25 for whale
/// data (35 for five signals or more), 20 for social data and 15 for news,
/// at most 100.
pub open spec fn confidence_hundredths(has_whale: bool, has_twitter: bool, has_news: bool, whale_count: int) -> int {
    let c = 30 + (if has_whale {
        if whale_count >= 5 {
            35int
        } else {
            25int
        }
    } else {
        0int
    }) + (if has_twitter {
        20int
    } else {
        0int
    }) + (if has_news {
        15int
    } else {
        0int
    });
    if c < 100 {
        c
    } else {
        100
    }
}

/// Confidence from which sources have data (capped at 1).
pub open spec fn confidence_of(has_whale: bool, has_twitter: bool, has_news: bool, whale_count: int) -> (
    int,
    int,
) {
    let c0 = dlit(3, 1);
    let c1 = if has_whale {
        if whale_count >= 5 {
            dadd(dadd(c0, dlit(25, 2)), dlit(1, 1))
        } else {
            dadd(c0, dlit(25, 2))
        }
    } else {
        c0
    };
    let c2 = if has_twitter {
        dadd(c1, dlit(2, 1))
    } else {
        c1
    };
    let c3 = if has_news {
        dadd(c2, dlit(15, 2))
    } else {
        c2
    };
    dmin(c3, dint(1))
}

/// Action from the sentiment: beyond ±0.3 it is bullish or bearish.
pub open spec fn fund_action_of(sentiment: (int, int)) -> FundAction {
    if dlt(dlit(3, 1), sentiment) {
        FundAction::Bullish
    } else if dlt(sentiment, dlit(-3, 1)) {
        FundAction::Bearish
    } else {
        FundAction::Neutral
    }
}

/// Explanation of a fundamental action.
pub open spec fn fund_reason_of(sentiment: (int, int)) -> Seq<char> {
    let t = crate::decimal::decimal_text_dp(sentiment, 2);
    if dlt(dlit(3, 1), sentiment) {
        "Bullish fundamentals: sentiment "@ + t
    } else if dlt(sentiment, dlit(-3, 1)) {
        "Bearish fundamentals: sentiment "@ + t
    } else {
        "Neutral fundamentals: sentiment "@ + t
    }
}

/// A list of named entries whose names are all different.
pub open spec fn keys_unique<T>(m: Seq<(String, T)>) -> bool {
    forall|i: int, j: int| 0 <= i < j < m.len() ==> m[i].0@ != m[j].0@
}

/// The entry under a name, if any.
pub open spec fn lookup<T>(m: Seq<(String, T)>, key: Seq<char>) -> Option<T>
    decreases m.len(),
{
    if m.len() == 0 {
        None
    } else if m.last().0@ == key {
        Some(m.last().1)
    } else {
        lookup(m.drop_last(), key)
    }
}

/// Index of the entry under a name.
pub fn find_key<T>(m: &Vec<(String, T)>, key: &str) -> (r: Option<usize>)
    ensures
        r matches Some(i) ==> i < m@.len() && m@[i as int].0@ == key@,
        r is None ==> forall|i: int| 0 <= i < m@.len() ==> m@[i].0@ != key@,
{
    let mut i: usize = 0;
    while i < m.len()
        invariant
            i <= m@.len(),
            forall|j: int| 0 <= j < i ==> m@[j].0@ != key@,
        decreases m.len() - i,
    {
        if crate::text::str_eq(m[i].0.as_str(), key) {
            return Some(i);
        }
        i = i + 1;
    }
    None
}

/// With unique names, the entry found at an index is the one under its name.
pub proof fn lemma_lookup_at<T>(m: Seq<(String, T)>, i: int)
    requires
        keys_unique(m),
        0 <= i < m.len(),
    ensures
        lookup(m, m[i].0@) == Some(m[i].1),
    decreases m.len(),
{
    if i < m.len() - 1 {
        assert(m.drop_last()[i] == m[i]);
        lemma_lookup_at(m.drop_last(), i);
    }
}

/// A name that no entry has is not found.
pub proof fn lemma_lookup_absent<T>(m: Seq<(String, T)>, key: Seq<char>)
    requires
        forall|i: int| 0 <= i < m.len() ==> m[i].0@ != key,
    ensures
        lookup(m, key) is None,
    decreases m.len(),
{
    if m.len() > 0 {
        lemma_lookup_absent(m.drop_last(), key);
    }
}

/// Put an entry under a name, replacing the entry already there.
pub fn put<T>(m: &mut Vec<(String, T)>, key: String, value: T)
    requires
        keys_unique(old(m)@),
    ensures
        keys_unique(final(m)@),
        lookup(final(m)@, key@) == Some(value),
        forall|k: Seq<char>| k != key@ ==> lookup(#[trigger] final(m)@, k) == lookup(old(m)@, k),
{
    match find_key(m, key.as_str()) {
        Some(i) => {
            let ghost old_m = m@;
            m.set(i, (key, value));
            proof {
                lemma_lookup_at(m@, i as int);
                assert forall|k: Seq<char>| k != key@ implies lookup(m@, k) == lookup(old_m, k) by {
                    lemma_lookup_update(old_m, i as int, m@[i as int], k);
                }
            }
        },
        None => {
            let ghost old_m = m@;
            m.push((key, value));
            proof {
                assert(m@.drop_last() == old_m);
            }
        },
    }
}

/// Updating the entry of one name leaves the others' entries as they were.
pub proof fn lemma_lookup_update<T>(m: Seq<(String, T)>, i: int, e: (String, T), k: Seq<char>)
    requires
        0 <= i < m.len(),
        m[i].0@ == e.0@,
        k != e.0@,
    ensures
        lookup(m.update(i, e), k) == lookup(m, k),
    decreases m.len(),
{
    if m.len() > 0 && i < m.len() - 1 {
        assert(m.update(i, e).drop_last() == m.drop_last().update(i, e));
        lemma_lookup_update(m.drop_last(), i, e, k);
    } else if m.len() > 0 {
        assert(m.update(i, e).drop_last() == m.drop_last());
    }
}

/// Fundamental analysis brain, with caches keyed by lower-cased token
/// (security by `chain:token`).
pub struct FundBrain {
    config: FundBrainConfig,
    whale_cache: Vec<(String, Vec<WhaleSignal>)>,
    twitter_cache: Vec<(String, TwitterSentiment)>,
    news_cache: Vec<(String, NewsSentiment)>,
    security_cache: Vec<(String, SecurityAssessment)>,
}

/// Signals recent enough (after `cutoff`) and large enough to count.
pub open spec fn whale_kept(s: Seq<WhaleSignal>, cutoff: int, min_value: (int, int)) -> Seq<WhaleSignal>
    decreases s.len(),
{
    if s.len() == 0 {
        Seq::empty()
    } else {
        let rest = whale_kept(s.drop_last(), cutoff, min_value);
        let x = s.last();
        if x.timestamp > cutoff && dle(min_value, x.value_usd@) {
            rest.push(x)
        } else {
            rest
        }
    }
}

/// Key of a security assessment.
pub open spec fn security_key(token: Seq<char>, chain: Seq<char>) -> Seq<char> {
    text_lowercase(chain) + ":"@ + text_lowercase(token)
}

/// `r` is the fundamental recommendation from an overall sentiment and
/// confidence and a security assessment (what
/// `FundBrain::generate_recommendation` gives): a block on security grounds,
/// else an action from the sentiment sized by the confidence, with the red
/// flags of a risky but allowed token as warnings.
pub open spec fn fund_recommendation_from(
    sentiment: (int, int),
    confidence: Dec,
    security: Option<SecurityAssessment>,
    r: FundRecommendation,
) -> bool {
    match security {
        Some(s) => if blocks(s) {
            &&& r.action == FundAction::Block
            &&& r.confidence@ == dlit(10, 1)
            &&& r.size_modifier@ == dint(0)
            &&& r.reasoning@ == "Security block: "@ + joined_sep(s.red_flags@, ", "@)
            &&& r.security_warnings@ == s.red_flags@
        } else {
            &&& r.action == fund_action_of(sentiment)
            &&& r.confidence == confidence
            &&& r.size_modifier == confidence
            &&& r.reasoning@ == fund_reason_of(sentiment)
            &&& r.security_warnings@ == if warns(s) {
                s.red_flags@
            } else {
                Seq::empty()
            }
        },
        None => {
            &&& r.action == fund_action_of(sentiment)
            &&& r.confidence == confidence
            &&& r.size_modifier == confidence
            &&& r.reasoning@ == fund_reason_of(sentiment)
            &&& r.security_warnings@.len() == 0
        },
    }
}

/// `r` is the fundamental analysis of a token on a chain from whale signals,
/// social and news sentiment and a security assessment, with these source
/// weights (what `FundBrain::analyze_with_data` gives).
pub open spec fn fund_output_from(
    weights: SourceWeights,
    symbol: Seq<char>,
    chain: Seq<char>,
    whale_signals: Seq<WhaleSignal>,
    twitter: Option<TwitterSentiment>,
    news: Option<NewsSentiment>,
    security: Option<SecurityAssessment>,
    r: FundBrainOutput,
) -> bool {
    &&& r.symbol@ == symbol
    &&& r.chain@ == chain
    &&& r.whale_signals@ == whale_signals
    &&& r.whale_sentiment@ == whale_sentiment_of(whale_signals)
    &&& r.twitter_sentiment@ == match twitter {
        Some(t) => t.sentiment_score@,
        None => dint(0),
    }
    &&& r.news_sentiment@ == match news {
        Some(n) => n.sentiment_score@,
        None => dint(0),
    }
    &&& r.overall_sentiment@ == overall_of(weights, r.whale_sentiment@, r.twitter_sentiment@, r.news_sentiment@)
    &&& r.overall_confidence@ == confidence_of(
        whale_signals.len() > 0,
        twitter is Some,
        news is Some,
        whale_signals.len() as int,
    )
    &&& units(r.overall_confidence@) == confidence_hundredths(
        whale_signals.len() > 0,
        twitter is Some,
        news is Some,
        whale_signals.len() as int,
    ) * pow10(26)
    &&& fund_recommendation_from(r.overall_sentiment@, r.overall_confidence, r.security, r.recommendation)
    &&& same_opt_twitter(r.twitter_data, twitter)
    &&& same_opt_news(r.news_data, news)
    &&& same_opt_security(r.security, security)
}

impl FundBrain {
    pub closed spec fn wf(&self) -> bool {
        &&& keys_unique(self.whale_cache@)
        &&& keys_unique(self.twitter_cache@)
        &&& keys_unique(self.news_cache@)
        &&& keys_unique(self.security_cache@)
    }

    /// The whale signals cached under a lower-cased token.
    pub closed spec fn whales(&self, key: Seq<char>) -> Option<Vec<WhaleSignal>> {
        lookup(self.whale_cache@, key)
    }

    /// The social sentiment cached under a lower-cased token.
    pub closed spec fn twitter(&self, key: Seq<char>) -> Option<TwitterSentiment> {
        lookup(self.twitter_cache@, key)
    }

    /// The news sentiment cached under a lower-cased token.
    pub closed spec fn news(&self, key: Seq<char>) -> Option<NewsSentiment> {
        lookup(self.news_cache@, key)
    }

    /// The security assessment cached under a `chain:token` key.
    pub closed spec fn security(&self, key: Seq<char>) -> Option<SecurityAssessment> {
        lookup(self.security_cache@, key)
    }

    /// The configuration.
    pub closed spec fn config_spec(&self) -> FundBrainConfig {
        self.config
    }

    /// Fundamental brain with a configuration and empty caches.
    pub fn new(config: FundBrainConfig) -> (r: FundBrain)
        ensures
            r.wf(),
            r.config_spec() == config,
            forall|k: Seq<char>| r.whales(k) is None && r.twitter(k) is None && r.news(k) is None
                && r.security(k) is None,
    {
        FundBrain {
            config,
            whale_cache: Vec::new(),
            twitter_cache: Vec::new(),
            news_cache: Vec::new(),
            security_cache: Vec::new(),
        }
    }

    pub fn with_defaults() -> (r: FundBrain)
        ensures
            r.wf(),
            is_default_fund_config(r.config_spec()),
            forall|k: Seq<char>| r.whales(k) is None && r.twitter(k) is None && r.news(k) is None
                && r.security(k) is None,
    {
        FundBrain::new(FundBrainConfig::default())
    }

    /// The configuration.
    pub fn config(&self) -> (r: &FundBrainConfig)
        ensures
            *r == self.config_spec(),
    {
        &self.config
    }

    /// Cache the whale signals of a token that are recent (within the
    /// lookback before `now`) and large enough.
    pub fn update_whale_signals_at(&mut self, token: &str, signals: Vec<WhaleSignal>, now: i64)
        requires
            old(self).wf(),
        ensures
            final(self).wf(),
            (final(self).whales(text_lowercase(token@)) matches Some(v) && v@ == whale_kept(
                signals@,
                now - old(self).config_spec().whale_lookback_hours * 3600,
                old(self).config_spec().min_whale_trade_usd@,
            )),
            forall|k: Seq<char>|
                k != text_lowercase(token@) ==> #[trigger] final(self).whales(k) == old(self).whales(k),
            final(self).config_spec() == old(self).config_spec(),
    {
        let key = lowercase(token);
        let cutoff: i128 = (now as i128) - (self.config.whale_lookback_hours as i128) * 3600;
        let mut filtered: Vec<WhaleSignal> = Vec::new();
        let mut i: usize = 0;
        while i < signals.len()
            invariant
                i <= signals@.len(),
                cutoff == now - self.config.whale_lookback_hours * 3600,
                filtered@ == whale_kept(
                    signals@.take(i as int),
                    cutoff as int,
                    self.config.min_whale_trade_usd@,
                ),
            decreases signals.len() - i,
        {
            proof {
                assert(signals@.take(i + 1).drop_last() == signals@.take(i as int));
            }
            let s = &signals[i];
            if (s.timestamp as i128) > cutoff && s.value_usd.ge(&self.config.min_whale_trade_usd) {
                filtered.push(s.clone());
            }
            i = i + 1;
        }
        proof {
            assert(signals@.take(i as int) == signals@);
        }
        put(&mut self.whale_cache, key, filtered);
    }

    /// Cache the whale signals of a token, as of the current time.
    pub fn update_whale_signals(&mut self, token: &str, signals: Vec<WhaleSignal>)
        requires
            old(self).wf(),
        ensures
            final(self).wf(),
            final(self).whales(text_lowercase(token@)) is Some,
            forall|k: Seq<char>|
                k != text_lowercase(token@) ==> #[trigger] final(self).whales(k) == old(self).whales(k),
    {
        let now = now_secs();
        self.update_whale_signals_at(token, signals, now);
    }

    /// Cache the social sentiment of a token.
    pub fn update_twitter_sentiment(&mut self, token: &str, sentiment: TwitterSentiment)
        requires
            old(self).wf(),
        ensures
            final(self).wf(),
            final(self).twitter(text_lowercase(token@)) == Some(sentiment),
            forall|k: Seq<char>|
                k != text_lowercase(token@) ==> #[trigger] final(self).twitter(k) == old(self).twitter(k),
    {
        put(&mut self.twitter_cache, lowercase(token), sentiment);
    }

    /// Cache the news sentiment of a token.
    pub fn update_news_sentiment(&mut self, token: &str, sentiment: NewsSentiment)
        requires
            old(self).wf(),
        ensures
            final(self).wf(),
            final(self).news(text_lowercase(token@)) == Some(sentiment),
            forall|k: Seq<char>|
                k != text_lowercase(token@) ==> #[trigger] final(self).news(k) == old(self).news(k),
    {
        put(&mut self.news_cache, lowercase(token), sentiment);
    }

    fn security_key_text(token: &str, chain: &str) -> (r: String)
        ensures
            r@ == security_key(token@, chain@),
    {
        let mut key = lowercase(chain);
        key.append(":");
        key.append(lowercase(token).as_str());
        key
    }

    /// Cache the security assessment of a token on a chain.
    pub fn update_security(&mut self, token: &str, chain: &str, assessment: SecurityAssessment)
        requires
            old(self).wf(),
        ensures
            final(self).wf(),
            final(self).security(security_key(token@, chain@)) == Some(assessment),
            forall|k: Seq<char>|
                k != security_key(token@, chain@) ==> #[trigger] final(self).security(k) == old(
                    self,
                ).security(k),
    {
        let key = Self::security_key_text(token, chain);
        put(&mut self.security_cache, key, assessment);
    }

    /// Whale sentiment of a token and the cached signals it rests on.
    pub fn calculate_whale_sentiment(&self, token: &str) -> (r: (Dec, Vec<WhaleSignal>))
        requires
            self.wf(),
        ensures
            r.1@ == match self.whales(text_lowercase(token@)) {
                Some(v) => v@,
                None => Seq::empty(),
            },
            r.0@ == whale_sentiment_of(r.1@),
            dle(dint(-1), r.0@),
            dle(r.0@, dint(1)),
    {
        let key = lowercase(token);
        let signals = match find_key(&self.whale_cache, key.as_str()) {
            Some(i) => {
                proof {
                    lemma_lookup_at(self.whale_cache@, i as int);
                }
                copy_vec(&self.whale_cache[i].1)
            },
            None => {
                proof {
                    lemma_lookup_absent(self.whale_cache@, key@);
                }
                Vec::new()
            },
        };
        let sentiment = whale_sentiment(&signals);
        (sentiment, signals)
    }

    /// Social sentiment of a token (zero when none is cached).
    pub fn get_twitter_sentiment(&self, token: &str) -> (r: (Dec, Option<TwitterSentiment>))
        requires
            self.wf(),
        ensures
            match self.twitter(text_lowercase(token@)) {
                Some(d) => r.0 == d.sentiment_score && (r.1 matches Some(c) && same_twitter(c, d)),
                None => r.0@ == dint(0) && r.1 is None,
            },
    {
        let key = lowercase(token);
        match find_key(&self.twitter_cache, key.as_str()) {
            Some(i) => {
                proof {
                    lemma_lookup_at(self.twitter_cache@, i as int);
                }
                let d = &self.twitter_cache[i].1;
                (d.sentiment_score, Some(d.clone()))
            },
            None => {
                proof {
                    lemma_lookup_absent(self.twitter_cache@, key@);
                }
                (Dec::zero(), None)
            },
        }
    }

    /// News sentiment of a token (zero when none is cached).
    pub fn get_news_sentiment(&self, token: &str) -> (r: (Dec, Option<NewsSentiment>))
        requires
            self.wf(),
        ensures
            match self.news(text_lowercase(token@)) {
                Some(d) => r.0 == d.sentiment_score && (r.1 matches Some(c) && same_news(c, d)),
                None => r.0@ == dint(0) && r.1 is None,
            },
    {
        let key = lowercase(token);
        match find_key(&self.news_cache, key.as_str()) {
            Some(i) => {
                proof {
                    lemma_lookup_at(self.news_cache@, i as int);
                }
                let d = &self.news_cache[i].1;
                (d.sentiment_score, Some(d.clone()))
            },
            None => {
                proof {
                    lemma_lookup_absent(self.news_cache@, key@);
                }
                (Dec::zero(), None)
            },
        }
    }

    /// Cached security assessment of a token on a chain.
    pub fn get_security(&self, token: &str, chain: &str) -> (r: Option<SecurityAssessment>)
        requires
            self.wf(),
        ensures
            match self.security(security_key(token@, chain@)) {
                Some(d) => (r matches Some(c) && same_security(c, d) && blocks(c) == blocks(d) && warns(c)
                    == warns(d)),
                None => r is None,
            },
    {
        let key = Self::security_key_text(token, chain);
        match find_key(&self.security_cache, key.as_str()) {
            Some(i) => {
                proof {
                    lemma_lookup_at(self.security_cache@, i as int);
                }
                Some(self.security_cache[i].1.clone())
            },
            None => {
                proof {
                    lemma_lookup_absent(self.security_cache@, key@);
                }
                None
            },
        }
    }

    /// Weighted overall sentiment, clamped to [-1, 1].
    pub fn calculate_overall_sentiment(&self, whale: Dec, twitter: Dec, news: Dec) -> (r: Dec)
        ensures
            r@ == overall_of(self.config_spec().weights, whale@, twitter@, news@),
            dle(dint(-1), r@),
            dle(r@, dint(1)),
    {
        let w = &self.config.weights;
        let weighted = whale.mul(w.whale).add(twitter.mul(w.twitter)).add(news.mul(w.news));
        let r = weighted.min(Dec::one()).max(Dec::from_i64(-1));
        proof {
            crate::decimal::lemma_pow10_table();
        }
        r
    }

    /// Confidence from the sources that have data (capped at 1).
    pub fn calculate_confidence(
        &self,
        has_whale: bool,
        has_twitter: bool,
        has_news: bool,
        whale_count: usize,
    ) -> (r: Dec)
        ensures
            r@ == confidence_of(has_whale, has_twitter, has_news, whale_count as int),
            dle(r@, dint(1)),
            units(r@) == confidence_hundredths(has_whale, has_twitter, has_news, whale_count as int) * pow10(26),
    {
        proof {
            lemma_pow10_table();
        }
        let ghost h: int = 30;
        let mut confidence = Dec::new(3, 1);
        if has_whale {
            confidence = Self::add_points(confidence, Dec::new(25, 2), Ghost(h), Ghost(25));
            proof {
                h = h + 25;
            }
            if whale_count >= 5 {
                confidence = Self::add_points(confidence, Dec::new(1, 1), Ghost(h), Ghost(10));
                proof {
                    h = h + 10;
                }
            }
        }
        if has_twitter {
            confidence = Self::add_points(confidence, Dec::new(2, 1), Ghost(h), Ghost(20));
            proof {
                h = h + 20;
            }
        }
        if has_news {
            confidence = Self::add_points(confidence, Dec::new(15, 2), Ghost(h), Ghost(15));
            proof {
                h = h + 15;
            }
        }
        confidence.min(Dec::one())
    }

    /// Adds `p` hundredths to a confidence of `h` hundredths, exactly.
    fn add_points(c: Dec, x: Dec, Ghost(h): Ghost<int>, Ghost(p): Ghost<int>) -> (r: Dec)
        requires
            0 <= h <= 100,
            0 <= p <= 25,
            units(c@) == h * pow10(26),
            units(x@) == p * pow10(26),
            pow10(26) == 100000000000000000000000000,
        ensures
            r@ == dadd(c@, x@),
            units(r@) == (h + p) * pow10(26),
    {
        proof {
            use_type_invariant(&c);
            use_type_invariant(&x);
            c.lemma_wf_in_range();
            x.lemma_wf_in_range();
            lemma_add_exact_small(c@, x@, true);
        }
        c.add(x)
    }

    /// Recommendation: a block on security grounds first, else an action
    /// from the sentiment, sized by the confidence, with the warnings of a
    /// risky but allowed token.
    pub fn generate_recommendation(
        &self,
        sentiment: Dec,
        confidence: Dec,
        security: &Option<SecurityAssessment>,
    ) -> (r: FundRecommendation)
        ensures
            fund_recommendation_from(sentiment@, confidence, *security, r),
    {
        match security {
            Some(sec) => {
                if sec.should_block() {
                    let mut reasoning = "Security block: ".to_owned();
                    reasoning.append(join_sep(&sec.red_flags, ", ").as_str());
                    return FundRecommendation {
                        action: FundAction::Block,
                        confidence: Dec::new(10, 1),
                        size_modifier: Dec::zero(),
                        reasoning,
                        security_warnings: copy_vec(&sec.red_flags),
                    };
                }
            },
            None => {},
        }
        let t = sentiment.to_text_dp(2);
        let (action, head) = if Dec::new(3, 1).lt(&sentiment) {
            (FundAction::Bullish, "Bullish fundamentals: sentiment ")
        } else if sentiment.lt(&Dec::new(-3, 1)) {
            (FundAction::Bearish, "Bearish fundamentals: sentiment ")
        } else {
            (FundAction::Neutral, "Neutral fundamentals: sentiment ")
        };
        let mut reasoning = head.to_owned();
        reasoning.append(t.as_str());
        let security_warnings = match security {
            Some(sec) => if sec.should_warn() {
                copy_vec(&sec.red_flags)
            } else {
                Vec::new()
            },
            None => Vec::new(),
        };
        FundRecommendation {
            action,
            confidence,
            size_modifier: confidence,
            reasoning,
            security_warnings,
        }
    }

    /// Full analysis of a token from the cached data.
    pub fn analyze(&self, symbol: &str, chain: &str) -> (r: FundBrainOutput)
        requires
            self.wf(),
        ensures
            fund_output_from(
                self.config_spec().weights,
                symbol@,
                chain@,
                match self.whales(text_lowercase(symbol@)) {
                    Some(v) => v@,
                    None => Seq::empty(),
                },
                self.twitter(text_lowercase(symbol@)),
                self.news(text_lowercase(symbol@)),
                self.security(security_key(symbol@, chain@)),
                r,
            ),
            r.symbol@ == symbol@,
            r.chain@ == chain@,
            r.whale_sentiment@ == whale_sentiment_of(r.whale_signals@),
            r.overall_sentiment@ == overall_of(
                self.config_spec().weights,
                r.whale_sentiment@,
                r.twitter_sentiment@,
                r.news_sentiment@,
            ),
            r.overall_confidence@ == confidence_of(
                r.whale_signals@.len() > 0,
                r.twitter_data is Some,
                r.news_data is Some,
                r.whale_signals@.len() as int,
            ),
            dle(dint(-1), r.overall_sentiment@) && dle(r.overall_sentiment@, dint(1)),
    {
        let (whale_sentiment, whale_signals) = self.calculate_whale_sentiment(symbol);
        let (twitter_sentiment, twitter_data) = self.get_twitter_sentiment(symbol);
        let (news_sentiment, news_data) = self.get_news_sentiment(symbol);
        let security = self.get_security(symbol, chain);
        let overall_sentiment = self.calculate_overall_sentiment(
            whale_sentiment,
            twitter_sentiment,
            news_sentiment,
        );
        let overall_confidence = self.calculate_confidence(
            whale_signals.len() > 0,
            twitter_data.is_some(),
            news_data.is_some(),
            whale_signals.len(),
        );
        let recommendation = self.generate_recommendation(
            overall_sentiment,
            overall_confidence,
            &security,
        );
        FundBrainOutput {
            symbol: symbol.to_owned(),
            chain: chain.to_owned(),
            whale_sentiment,
            whale_signals,
            twitter_sentiment,
            twitter_data,
            news_sentiment,
            news_data,
            security,
            overall_sentiment,
            overall_confidence,
            recommendation,
            timestamp: now_secs(),
        }
    }

    /// Full analysis from data handed in rather than cached.
    pub fn analyze_with_data(
        &self,
        symbol: &str,
        chain: &str,
        whale_signals: Vec<WhaleSignal>,
        twitter: Option<TwitterSentiment>,
        news: Option<NewsSentiment>,
        security: Option<SecurityAssessment>,
    ) -> (r: FundBrainOutput)
        ensures
            fund_output_from(
                self.config_spec().weights,
                symbol@,
                chain@,
                whale_signals@,
                twitter,
                news,
                security,
                r,
            ),
            r.symbol@ == symbol@,
            r.chain@ == chain@,
            r.whale_signals@ == whale_signals@,
            r.whale_sentiment@ == whale_sentiment_of(whale_signals@),
            r.twitter_sentiment@ == match twitter {
                Some(t) => t.sentiment_score@,
                None => dint(0),
            },
            r.news_sentiment@ == match news {
                Some(n) => n.sentiment_score@,
                None => dint(0),
            },
            r.overall_sentiment@ == overall_of(
                self.config_spec().weights,
                r.whale_sentiment@,
                r.twitter_sentiment@,
                r.news_sentiment@,
            ),
            r.overall_confidence@ == confidence_of(
                whale_signals@.len() > 0,
                twitter is Some,
                news is Some,
                whale_signals@.len() as int,
            ),
            r.recommendation.action == match security {
                Some(s) => if blocks(s) {
                    FundAction::Block
                } else {
                    fund_action_of(r.overall_sentiment@)
                },
                None => fund_action_of(r.overall_sentiment@),
            },
            r.twitter_data == twitter,
            r.news_data == news,
            r.security == security,
    {
        let whale_sentiment = whale_sentiment(&whale_signals);
        let twitter_sentiment = match &twitter {
            Some(t) => t.sentiment_score,
            None => Dec::zero(),
        };
        let news_sentiment = match &news {
            Some(n) => n.sentiment_score,
            None => Dec::zero(),
        };
        let overall_sentiment = self.calculate_overall_sentiment(
            whale_sentiment,
            twitter_sentiment,
            news_sentiment,
        );
        let overall_confidence = self.calculate_confidence(
            whale_signals.len() > 0,
            twitter.is_some(),
            news.is_some(),
            whale_signals.len(),
        );
        let recommendation = self.generate_recommendation(
            overall_sentiment,
            overall_confidence,
            &security,
        );
        FundBrainOutput {
            symbol: symbol.to_owned(),
            chain: chain.to_owned(),
            whale_sentiment,
            whale_signals,
            twitter_sentiment,
            twitter_data: twitter,
            news_sentiment,
            news_data: news,
            security,
            overall_sentiment,
            overall_confidence,
            recommendation,
            timestamp: now_secs(),
        }
    }

    /// The block message of a token whose cached assessment blocks trading.
    pub fn should_block(&self, token: &str, chain: &str) -> (r: Option<String>)
        requires
            self.wf(),
        ensures
            match self.security(security_key(token@, chain@)) {
                Some(d) => if blocks(d) {
                    (r matches Some(m) && m@ == "Security block: "@ + joined_sep(
                        d.red_flags@,
                        ", "@,
                    ))
                } else {
                    r is None
                },
                None => r is None,
            },
    {
        match self.get_security(token, chain) {
            Some(security) => {
                if security.should_block() {
                    let mut m = "Security block: ".to_owned();
                    m.append(join_sep(&security.red_flags, ", ").as_str());
                    return Some(m);
                }
                None
            },
            None => None,
        }
    }
}

/// Whale sentiment of a list of signals.
fn whale_sentiment(signals: &Vec<WhaleSignal>) -> (r: Dec)
    ensures
        r@ == whale_sentiment_of(signals@),
        dle(dint(-1), r@),
        dle(r@, dint(1)),
{
    proof {
        crate::decimal::lemma_pow10_table();
    }
    if signals.len() == 0 {
        proof {
            crate::decimal::lemma_units_sign(dint(-1));
            crate::decimal::lemma_units_sign(dint(1));
        }
        return Dec::zero();
    }
    let mut bullish_value = Dec::zero();
    let mut bearish_value = Dec::zero();
    let mut i: usize = 0;
    while i < signals.len()
        invariant
            i <= signals@.len(),
            (bullish_value@, bearish_value@) == whale_values(signals@.take(i as int)),
        decreases signals.len() - i,
    {
        proof {
            assert(signals@.take(i + 1).drop_last() == signals@.take(i as int));
        }
        let s = &signals[i];
        let weight = if s.is_smart_money {
            Dec::new(15, 1)
        } else {
            Dec::one()
        };
        if s.action.is_bullish() {
            bullish_value = bullish_value.add(s.value_usd.mul(weight));
        } else if s.action.is_bearish() {
            bearish_value = bearish_value.add(s.value_usd.mul(weight));
        }
        i = i + 1;
    }
    proof {
        assert(signals@.take(i as int) == signals@);
    }
    let total = bullish_value.add(bearish_value);
    let sentiment = if total.is_zero() {
        Dec::zero()
    } else {
        bullish_value.sub(bearish_value).div(total)
    };
    sentiment.min(Dec::one()).max(Dec::from_i64(-1))
}

/// Average sentiment and confidence of several fundamental outputs (zero without any).
pub fn aggregate_fund_outputs(outputs: &Vec<FundBrainOutput>) -> (r: (Dec, Dec))
    ensures
        outputs@.len() == 0 ==> r.0@ == dint(0) && r.1@ == dint(0),
        outputs@.len() > 0 ==> r.0@ == ddiv(
            crate::series::sum_of(outputs@.map_values(|o: FundBrainOutput| o.overall_sentiment@)),
            dint(outputs@.len() as int),
        ) && r.1@ == ddiv(
            crate::series::sum_of(outputs@.map_values(|o: FundBrainOutput| o.overall_confidence@)),
            dint(outputs@.len() as int),
        ),
{
    if outputs.len() == 0 {
        return (Dec::zero(), Dec::zero());
    }
    let ghost ss = outputs@.map_values(|o: FundBrainOutput| o.overall_sentiment@);
    let ghost cs = outputs@.map_values(|o: FundBrainOutput| o.overall_confidence@);
    let mut sentiment_sum = Dec::zero();
    let mut confidence_sum = Dec::zero();
    let mut i: usize = 0;
    while i < outputs.len()
        invariant
            i <= outputs@.len(),
            ss == outputs@.map_values(|o: FundBrainOutput| o.overall_sentiment@),
            cs == outputs@.map_values(|o: FundBrainOutput| o.overall_confidence@),
            sentiment_sum@ == crate::series::sum_of(ss.take(i as int)),
            confidence_sum@ == crate::series::sum_of(cs.take(i as int)),
        decreases outputs.len() - i,
    {
        proof {
            assert(ss.take(i + 1).drop_last() == ss.take(i as int));
            assert(cs.take(i + 1).drop_last() == cs.take(i as int));
        }
        sentiment_sum = sentiment_sum.add(outputs[i].overall_sentiment);
        confidence_sum = confidence_sum.add(outputs[i].overall_confidence);
        i = i + 1;
    }
    proof {
        assert(ss.take(i as int) == ss);
        assert(cs.take(i as int) == cs);
    }
    let count = Dec::from_usize(outputs.len());
    (sentiment_sum.div(count), confidence_sum.div(count))
}

/// The fundamental action follows the sentiment: with a security block it
/// is Block; otherwise a sentiment above 0.3 gives Bullish, one below -0.3
/// gives Bearish and one in between Neutral. Conversely Bullish is only ever
/// given for a sentiment above 0.3 and Bearish only for one below -0.3.
pub proof fn lemma_fund_action_follows_sentiment(
    sentiment: (int, int),
    confidence: Dec,
    security: Option<SecurityAssessment>,
    r: FundRecommendation,
)
    requires
        fund_recommendation_from(sentiment, confidence, security, r),
    ensures
        (security matches Some(s) && blocks(s)) ==> r.action == FundAction::Block && units(r.size_modifier@)
            == 0,
        !(security matches Some(s) && blocks(s)) ==> r.size_modifier == confidence && r.confidence == confidence,
        !(security matches Some(s) && blocks(s)) ==> {
            &&& units(sentiment) > units(dlit(3, 1)) ==> r.action == FundAction::Bullish
            &&& units(sentiment) < units(dlit(-3, 1)) ==> r.action == FundAction::Bearish
            &&& units(dlit(-3, 1)) <= units(sentiment) <= units(dlit(3, 1)) ==> r.action
                == FundAction::Neutral
        },
        r.action == FundAction::Bullish ==> units(sentiment) > units(dlit(3, 1)),
        r.action == FundAction::Bearish ==> units(sentiment) < units(dlit(-3, 1)),
{
    crate::decimal::lemma_pow10_pos(27);
}

} // verus!
