//! Trading-account configuration and the rows shown for each account.
//!
//! A price or amount is carried as the bit pattern of its IEEE-754 double
//! (`f64::to_bits`), since the library does no arithmetic on it.
use vstd::prelude::*;
use crate::text::{colon_join2, colon_join3, decimal, i32_to_decimal, join2, join3};
use crate::trader::CtaStatus;

verus! {

/// One configured account as listed by the front end.
#[derive(Debug, Clone)]
pub struct TradingAccountRow {
    pub broker_id: String,
    pub account: String,
    /// Bit pattern of the account equity.
    pub equity_bits: u64,
    pub status: CtaStatus,
    pub status_description: String,
}

impl Default for TradingAccountRow {
    fn default() -> (r: Self)
        ensures
            r.broker_id@ == Seq::<char>::empty(),
            r.account@ == Seq::<char>::empty(),
            r.equity_bits == 0,
            r.status == CtaStatus::UnKown,
            r.status_description@ == Seq::<char>::empty(),
    {
        TradingAccountRow {
            broker_id: String::new(),
            account: String::new(),
            equity_bits: 0,
            status: CtaStatus::UnKown,
            status_description: String::new(),
        }
    }
}

/// A trade (fill) of an account.
#[derive(Debug, Clone, Default)]
pub struct TradeRow {
    pub broker_id: String,
    pub account: String,
    pub trade_id: String,
    pub exchange: String,
    pub symbol: String,
    pub direction: i32,
    pub offset: i32,
    /// Bit pattern of the trade price.
    pub price_bits: u64,
    pub volume: i32,
}

impl TradeRow {
    /// `exchange:symbol:trade_id`.
    pub open spec fn key_text(&self) -> Seq<char> {
        join3(self.exchange@, self.symbol@, self.trade_id@)
    }

    /// The key a trade is filed under: `exchange:symbol:trade_id`.
    pub fn key(&self) -> (k: String)
        ensures
            k@ == self.key_text(),
    {
        colon_join3(self.exchange.as_str(), self.symbol.as_str(), self.trade_id.as_str())
    }
}

/// An order of an account.
#[derive(Debug, Clone, Default)]
pub struct OrderRow {
    pub front_id: i32,
    pub session_id: i32,
    pub order_ref: String,
    pub broker_id: String,
    pub account: String,
    pub order_sys_id: String,
    pub symbol: String,
    pub direction: i32,
    pub offset: i32,
    /// Bit pattern of the limit price.
    pub limit_price_bits: u64,
    pub volume_total: i32,
    pub volume_total_original: i32,
    pub volume_traded: i32,
    pub status: i32,
    pub status_description: String,
    pub insert_time: String,
}

impl OrderRow {
    /// `front_id:session_id:order_ref`, the numbers in decimal.
    pub open spec fn key_text(&self) -> Seq<char> {
        join3(decimal(self.front_id as int), decimal(self.session_id as int), self.order_ref@)
    }

    /// The key an order is filed under: `front_id:session_id:order_ref`.
    pub fn key(&self) -> (k: String)
        ensures
            k@ == self.key_text(),
    {
        let front = i32_to_decimal(self.front_id);
        let session = i32_to_decimal(self.session_id);
        colon_join3(front.as_str(), session.as_str(), self.order_ref.as_str())
    }
}

/// A tradable instrument, as seen by one account.
#[derive(Debug, Clone, Default)]
pub struct InstrumentRow {
    pub broker_id: String,
    pub account: String,
    pub exchange: String,
    pub symbol: String,
    pub name: String,
}

impl InstrumentRow {
    /// `exchange:symbol`.
    pub open spec fn key_text(&self) -> Seq<char> {
        join2(self.exchange@, self.symbol@)
    }

    /// The key an instrument is filed under: `exchange:symbol`.
    pub fn key(&self) -> (k: String)
        ensures
            k@ == self.key_text(),
    {
        colon_join2(self.exchange.as_str(), self.symbol.as_str())
    }
}

/// Market data (no fields yet).
#[derive(Debug, Clone, Default)]
pub struct MarketDataRow {}

/// One open lot of a position.
#[derive(Debug, Clone, Default)]
pub struct PositionDetailRow {
    pub exchange: String,
    pub symbol: String,
    pub direction: i32,
    pub volume: i32,
    pub volume_closed: i32,
    pub trade_id: String,
}

impl PositionDetailRow {
    /// `exchange:symbol:trade_id`.
    pub open spec fn key_text(&self) -> Seq<char> {
        join3(self.exchange@, self.symbol@, self.trade_id@)
    }

    /// The key a position lot is filed under: `exchange:symbol:trade_id`.
    pub fn key(&self) -> (k: String)
        ensures
            k@ == self.key_text(),
    {
        colon_join3(self.exchange.as_str(), self.symbol.as_str(), self.trade_id.as_str())
    }
}

/// A position of an account in one instrument and direction.
#[derive(Debug, Clone, Default)]
pub struct PositionRow {
    pub broker_id: String,
    pub account: String,
    pub exchange: String,
    pub symbol: String,
    pub position: i32,
    pub direction: i32,
    /// Bit pattern of the opening cost.
    pub open_cost_bits: u64,
    /// Bit pattern of the opening amount.
    pub open_amount_bits: u64,
    pub open_volume: i32,
}

impl PositionRow {
    /// `exchange:symbol:direction`, the direction in decimal.
    pub open spec fn key_text(&self) -> Seq<char> {
        join3(self.exchange@, self.symbol@, decimal(self.direction as int))
    }

    /// The key a position is filed under: `exchange:symbol:direction`.
    pub fn key(&self) -> (k: String)
        ensures
            k@ == self.key_text(),
    {
        let direction = i32_to_decimal(self.direction);
        colon_join3(self.exchange.as_str(), self.symbol.as_str(), direction.as_str())
    }
}

/// The settings of one trading account at a broker.
#[derive(Debug)]
pub struct TradingAccount {
    pub broker_id: String,
    pub account: String,
    pub password: String,
    pub md_front: String,
    pub trade_front: String,
    pub query_front: String,
    pub user_product_info: String,
    pub auth_code: String,
    pub app_id: String,
    pub route_type: String,
    pub money_password: String,
    pub fens_trade_front: String,
    pub fens_md_front: String,
    pub terminal_info: String,
    pub hd_serial: String,
    pub inner_ip_address: String,
    pub mac_address: String,
}

impl TradingAccount {
    /// Every setting is empty.
    pub open spec fn is_blank(&self) -> bool {
        &&& self.broker_id@.len() == 0
        &&& self.account@.len() == 0
        &&& self.password@.len() == 0
        &&& self.md_front@.len() == 0
        &&& self.trade_front@.len() == 0
        &&& self.query_front@.len() == 0
        &&& self.user_product_info@.len() == 0
        &&& self.auth_code@.len() == 0
        &&& self.app_id@.len() == 0
        &&& self.route_type@.len() == 0
        &&& self.money_password@.len() == 0
        &&& self.fens_trade_front@.len() == 0
        &&& self.fens_md_front@.len() == 0
        &&& self.terminal_info@.len() == 0
        &&& self.hd_serial@.len() == 0
        &&& self.inner_ip_address@.len() == 0
        &&& self.mac_address@.len() == 0
    }

    /// The key of the account: `broker_id:account`.
    pub open spec fn key_text(&self) -> Seq<char> {
        join2(self.broker_id@, self.account@)
    }

    /// A copy of the account, equal to it.
    pub fn duplicate(&self) -> (r: Self)
        ensures
            r == *self,
    {
        TradingAccount {
            broker_id: self.broker_id.clone(),
            account: self.account.clone(),
            password: self.password.clone(),
            md_front: self.md_front.clone(),
            trade_front: self.trade_front.clone(),
            query_front: self.query_front.clone(),
            user_product_info: self.user_product_info.clone(),
            auth_code: self.auth_code.clone(),
            app_id: self.app_id.clone(),
            route_type: self.route_type.clone(),
            money_password: self.money_password.clone(),
            fens_trade_front: self.fens_trade_front.clone(),
            fens_md_front: self.fens_md_front.clone(),
            terminal_info: self.terminal_info.clone(),
            hd_serial: self.hd_serial.clone(),
            inner_ip_address: self.inner_ip_address.clone(),
            mac_address: self.mac_address.clone(),
        }
    }
}

impl Default for TradingAccount {
    fn default() -> (r: Self)
        ensures
            r.is_blank(),
    {
        TradingAccount {
            broker_id: String::new(),
            account: String::new(),
            password: String::new(),
            md_front: String::new(),
            trade_front: String::new(),
            query_front: String::new(),
            user_product_info: String::new(),
            auth_code: String::new(),
            app_id: String::new(),
            route_type: String::new(),
            money_password: String::new(),
            fens_trade_front: String::new(),
            fens_md_front: String::new(),
            terminal_info: String::new(),
            hd_serial: String::new(),
            inner_ip_address: String::new(),
            mac_address: String::new(),
        }
    }
}

/// The whole configuration: the configured trading accounts, in order.
#[derive(Debug)]
pub struct G3Config {
    pub accounts: Vec<TradingAccount>,
}

impl Default for G3Config {
    fn default() -> (r: Self)
        ensures
            r.accounts@ == Seq::<TradingAccount>::empty(),
    {
        G3Config { accounts: Vec::new() }
    }
}

impl G3Config {
    /// Where the configuration is kept: `.cache/g3config.json`.
    pub fn default_path() -> (p: &'static str)
        ensures
            p@ == ".cache/g3config.json"@,
    {
        ".cache/g3config.json"
    }
}

/// The keys, written out: a trade and a position lot under `exchange:symbol:trade_id`, an
/// order under `front_id:session_id:order_ref`, an instrument under `exchange:symbol`, a
/// position under `exchange:symbol:direction` and an account under `broker_id:account`.
pub proof fn law_keys(
    t: TradeRow,
    o: OrderRow,
    i: InstrumentRow,
    d: PositionDetailRow,
    p: PositionRow,
    a: TradingAccount,
)
    ensures
        t.key_text() == t.exchange@ + seq![':'] + t.symbol@ + seq![':'] + t.trade_id@,
        o.key_text() == decimal(o.front_id as int) + seq![':'] + decimal(o.session_id as int) + seq![':'] + o.order_ref@,
        i.key_text() == i.exchange@ + seq![':'] + i.symbol@,
        d.key_text() == d.exchange@ + seq![':'] + d.symbol@ + seq![':'] + d.trade_id@,
        p.key_text() == p.exchange@ + seq![':'] + p.symbol@ + seq![':'] + decimal(p.direction as int),
        a.key_text() == a.broker_id@ + seq![':'] + a.account@,
{
}

} // verus!
