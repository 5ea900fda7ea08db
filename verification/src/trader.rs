//! The trader of one account: its connection status, the rows it has received, and the
//! login and query sequence it drives against the broker's trading front.
use vstd::prelude::*;
use vstd::string::*;
use crate::config::{InstrumentRow, OrderRow, PositionDetailRow, PositionRow, TradeRow, TradingAccount};
use crate::table::RowTable;
use crate::text::{colon_join2, decimal};

verus! {

/// Where a trader stands in connecting and logging in.
#[derive(Debug, Clone, Copy, PartialEq, Eq, Structural)]
pub enum CtaStatus {
    UnKown,
    Connected,
    Disconnected,
    AuthenticateFailed,
    AuthenticateSucceeded,
    LoginFailed,
    LoginSucceeded,
}

impl Default for CtaStatus {
    fn default() -> (r: Self)
        ensures
            r == CtaStatus::UnKown,
    {
        CtaStatus::UnKown
    }
}

/// A notice to the front end: what happened (`tp`), to which broker (`b`) and account (`a`),
/// and the key of the row concerned (empty when none is).
#[derive(Debug, Clone)]
pub struct CtaEvent {
    pub tp: String,
    pub b: String,
    pub a: String,
    pub key: String,
}

/// What one account holds: its status and its rows, each kind in a table by key.
#[derive(Debug)]
pub struct CtpTradingAccount {
    pub status: CtaStatus,
    pub status_description: String,
    pub orders: RowTable<OrderRow>,
    pub trades: RowTable<TradeRow>,
    pub positions: RowTable<PositionRow>,
    pub position_details: RowTable<PositionDetailRow>,
    pub instruments: RowTable<InstrumentRow>,
}

impl CtpTradingAccount {
    /// Nothing received yet: unknown status, no description, every table empty.
    pub open spec fn is_fresh(&self) -> bool {
        &&& self.status == CtaStatus::UnKown
        &&& self.status_description@ == Seq::<char>::empty()
        &&& self.orders.as_map() == Map::<Seq<char>, OrderRow>::empty()
        &&& self.trades.as_map() == Map::<Seq<char>, TradeRow>::empty()
        &&& self.positions.as_map() == Map::<Seq<char>, PositionRow>::empty()
        &&& self.position_details.as_map() == Map::<Seq<char>, PositionDetailRow>::empty()
        &&& self.instruments.as_map() == Map::<Seq<char>, InstrumentRow>::empty()
    }
}

impl Default for CtpTradingAccount {
    fn default() -> (r: Self)
        ensures
            r.is_fresh(),
    {
        CtpTradingAccount {
            status: CtaStatus::UnKown,
            status_description: String::new(),
            orders: RowTable::new(),
            trades: RowTable::new(),
            positions: RowTable::new(),
            position_details: RowTable::new(),
            instruments: RowTable::new(),
        }
    }
}

/// The error part of a response from the trading front.
#[derive(Debug)]
pub struct RspInfo {
    pub error_id: i32,
    /// The error message, decoded.
    pub error_msg: String,
}

/// A message from the trading front, its records already turned into rows.
#[derive(Debug)]
pub enum SpiMessage {
    FrontConnected,
    FrontDisconnected { reason: i32 },
    RspAuthenticate { rsp_info: Option<RspInfo> },
    RspUserLogin { rsp_info: Option<RspInfo>, has_user_login: bool },
    RspSettlementInfoConfirm,
    RspQryTradingAccount { is_last: bool },
    RspQryInvestorPositionDetail { detail: Option<PositionDetailRow>, is_last: bool },
    RspQryInvestorPosition { position: Option<PositionRow>, is_last: bool },
    RspQryInstrument { instrument: Option<InstrumentRow>, is_last: bool },
    RspQryDepthMarketData { is_last: bool },
    RspQryOrder { order: Option<OrderRow>, is_last: bool },
    RspQryTrade { trade: Option<TradeRow>, is_last: bool },
    RspQryInstrumentCommissionRate { is_last: bool },
    RtnOrder { order: Option<OrderRow> },
    RtnTrade { trade: Option<TradeRow> },
    Other,
}

/// Something the trader asks to be done: a request to the trading front, or a notice
/// to the front end.
#[derive(Debug)]
pub enum TraderAction {
    ReqAuthenticate {
        broker_id: String,
        user_id: String,
        auth_code: String,
        user_product_info: String,
        app_id: String,
        request_id: i32,
    },
    ReqUserLogin { broker_id: String, user_id: String, password: String, request_id: i32 },
    ReqSettlementInfoConfirm { broker_id: String, investor_id: String, request_id: i32 },
    ReqQryTradingAccount { broker_id: String, investor_id: String, request_id: i32 },
    ReqQryInvestorPositionDetail { broker_id: String, investor_id: String, request_id: i32 },
    ReqQryInvestorPosition { broker_id: String, investor_id: String, request_id: i32 },
    ReqQryInstrument { request_id: i32 },
    ReqQryDepthMarketData { request_id: i32 },
    ReqQryOrder { broker_id: String, investor_id: String, request_id: i32 },
    ReqQryTrade { broker_id: String, investor_id: String, request_id: i32 },
    Emit(CtaEvent),
}

/// How the trading front is reached: through a name server, or at a front address.
#[derive(Debug)]
pub enum FrontRegistration {
    NameServer(String),
    Front(String),
}

/// The request id an action carries, if it is a request.
pub open spec fn request_id_of(a: TraderAction) -> Option<i32> {
    match a {
        TraderAction::ReqAuthenticate { request_id, .. } => Some(request_id),
        TraderAction::ReqUserLogin { request_id, .. } => Some(request_id),
        TraderAction::ReqSettlementInfoConfirm { request_id, .. } => Some(request_id),
        TraderAction::ReqQryTradingAccount { request_id, .. } => Some(request_id),
        TraderAction::ReqQryInvestorPositionDetail { request_id, .. } => Some(request_id),
        TraderAction::ReqQryInvestorPosition { request_id, .. } => Some(request_id),
        TraderAction::ReqQryInstrument { request_id } => Some(request_id),
        TraderAction::ReqQryDepthMarketData { request_id } => Some(request_id),
        TraderAction::ReqQryOrder { request_id, .. } => Some(request_id),
        TraderAction::ReqQryTrade { request_id, .. } => Some(request_id),
        TraderAction::Emit(_) => None,
    }
}

/// Whether handling `msg` sends a request to the trading front.
pub open spec fn sends_request(msg: SpiMessage) -> bool {
    match msg {
        SpiMessage::FrontConnected => true,
        SpiMessage::RspAuthenticate { rsp_info } => rsp_info matches Some(i) && i.error_id == 0,
        SpiMessage::RspUserLogin { .. } => true,
        SpiMessage::RspSettlementInfoConfirm => true,
        SpiMessage::RspQryTradingAccount { is_last } => is_last,
        SpiMessage::RspQryInvestorPositionDetail { is_last, .. } => is_last,
        SpiMessage::RspQryInvestorPosition { is_last, .. } => is_last,
        SpiMessage::RspQryInstrument { is_last, .. } => is_last,
        SpiMessage::RspQryDepthMarketData { is_last } => is_last,
        SpiMessage::RspQryOrder { is_last, .. } => is_last,
        _ => false,
    }
}

/// The messages a trader can take: a response to authentication or login carries its
/// error part, and a successful login carries the login record.
pub open spec fn well_formed_message(msg: SpiMessage) -> bool {
    match msg {
        SpiMessage::RspAuthenticate { rsp_info } => rsp_info is Some,
        SpiMessage::RspUserLogin { rsp_info, has_user_login } =>
            rsp_info matches Some(i) && (i.error_id == 0 ==> has_user_login),
        _ => true,
    }
}

/// Whether handling `msg` sends a request to the trading front.
pub fn makes_request(msg: &SpiMessage) -> (b: bool)
    ensures
        b == sends_request(*msg),
{
    match msg {
        SpiMessage::FrontConnected => true,
        SpiMessage::RspAuthenticate { rsp_info } => match rsp_info {
            Some(i) => i.error_id == 0,
            None => false,
        },
        SpiMessage::RspUserLogin { .. } => true,
        SpiMessage::RspSettlementInfoConfirm => true,
        SpiMessage::RspQryTradingAccount { is_last } => *is_last,
        SpiMessage::RspQryInvestorPositionDetail { is_last, .. } => *is_last,
        SpiMessage::RspQryInvestorPosition { is_last, .. } => *is_last,
        SpiMessage::RspQryInstrument { is_last, .. } => *is_last,
        SpiMessage::RspQryDepthMarketData { is_last } => *is_last,
        SpiMessage::RspQryOrder { is_last, .. } => *is_last,
        _ => false,
    }
}

/// Whether a trader can take `msg` (see `well_formed_message`).
pub fn is_well_formed(msg: &SpiMessage) -> (b: bool)
    ensures
        b == well_formed_message(*msg),
{
    match msg {
        SpiMessage::RspAuthenticate { rsp_info } => rsp_info.is_some(),
        SpiMessage::RspUserLogin { rsp_info, has_user_login } => match rsp_info {
            Some(i) => i.error_id != 0 || *has_user_login,
            None => false,
        },
        _ => true,
    }
}

/// The status after `msg`: only connection, authentication and login messages move it.
pub open spec fn next_status(status: CtaStatus, msg: SpiMessage) -> CtaStatus {
    match msg {
        SpiMessage::FrontConnected => CtaStatus::Connected,
        SpiMessage::FrontDisconnected { .. } => CtaStatus::Disconnected,
        SpiMessage::RspAuthenticate { rsp_info } =>
            if rsp_info.unwrap().error_id == 0 { CtaStatus::AuthenticateSucceeded }
            else { CtaStatus::AuthenticateFailed },
        SpiMessage::RspUserLogin { rsp_info, .. } =>
            if rsp_info.unwrap().error_id == 0 { CtaStatus::LoginSucceeded }
            else { CtaStatus::LoginFailed },
        _ => status,
    }
}

/// The status description after `msg`: a failed authentication or login leaves its message.
pub open spec fn next_description(description: String, msg: SpiMessage) -> String {
    match msg {
        SpiMessage::RspAuthenticate { rsp_info } =>
            if rsp_info.unwrap().error_id != 0 { rsp_info.unwrap().error_msg } else { description },
        SpiMessage::RspUserLogin { rsp_info, .. } =>
            if rsp_info.unwrap().error_id != 0 { rsp_info.unwrap().error_msg } else { description },
        _ => description,
    }
}

/// The orders after `msg`: an order in a query answer or an order notice is filed by its key.
pub open spec fn next_orders(m: Map<Seq<char>, OrderRow>, msg: SpiMessage) -> Map<Seq<char>, OrderRow> {
    match msg {
        SpiMessage::RspQryOrder { order: Some(o), .. } => m.insert(o.key_text(), o),
        SpiMessage::RtnOrder { order: Some(o) } => m.insert(o.key_text(), o),
        _ => m,
    }
}

/// The trades after `msg`: a trade in a query answer or a trade notice is filed by its key.
pub open spec fn next_trades(m: Map<Seq<char>, TradeRow>, msg: SpiMessage) -> Map<Seq<char>, TradeRow> {
    match msg {
        SpiMessage::RspQryTrade { trade: Some(t), .. } => m.insert(t.key_text(), t),
        SpiMessage::RtnTrade { trade: Some(t) } => m.insert(t.key_text(), t),
        _ => m,
    }
}

/// The positions after `msg`.
pub open spec fn next_positions(m: Map<Seq<char>, PositionRow>, msg: SpiMessage) -> Map<Seq<char>, PositionRow> {
    match msg {
        SpiMessage::RspQryInvestorPosition { position: Some(p), .. } => m.insert(p.key_text(), p),
        _ => m,
    }
}

/// The position lots after `msg`.
pub open spec fn next_position_details(m: Map<Seq<char>, PositionDetailRow>, msg: SpiMessage) -> Map<Seq<char>, PositionDetailRow> {
    match msg {
        SpiMessage::RspQryInvestorPositionDetail { detail: Some(d), .. } => m.insert(d.key_text(), d),
        _ => m,
    }
}

/// An instrument as filed by the trader of `conf`: with that account's broker and account.
pub open spec fn owned_instrument(conf: TradingAccount, i: InstrumentRow) -> InstrumentRow {
    InstrumentRow {
        broker_id: conf.broker_id,
        account: conf.account,
        exchange: i.exchange,
        symbol: i.symbol,
        name: i.name,
    }
}

/// The instruments after `msg`.
pub open spec fn next_instruments(
    m: Map<Seq<char>, InstrumentRow>,
    conf: TradingAccount,
    msg: SpiMessage,
) -> Map<Seq<char>, InstrumentRow> {
    match msg {
        SpiMessage::RspQryInstrument { instrument: Some(i), .. } => m.insert(i.key_text(), owned_instrument(conf, i)),
        _ => m,
    }
}

/// `a` is the notice `tp` about the account of `conf` and the row keyed `key`.
pub open spec fn is_event(a: TraderAction, conf: TradingAccount, tp: Seq<char>, key: Seq<char>) -> bool {
    &&& a matches TraderAction::Emit(e)
    &&& e.tp@ == tp
    &&& e.b == conf.broker_id
    &&& e.a == conf.account
    &&& e.key@ == key
}

/// What the trader of `conf`, whose last request id was `id`, does on `msg`: the requests
/// (all carrying id `id + 1`) and notices, in order.
pub open spec fn expected_actions(conf: TradingAccount, id: int, msg: SpiMessage, acts: Seq<TraderAction>) -> bool {
    let next = (id + 1) as i32;
    let none = Seq::<char>::empty();
    match msg {
        SpiMessage::FrontConnected => {
            &&& acts.len() == 2
            &&& acts[0] == TraderAction::ReqAuthenticate {
                broker_id: conf.broker_id,
                user_id: conf.account,
                auth_code: conf.auth_code,
                user_product_info: conf.user_product_info,
                app_id: conf.app_id,
                request_id: next,
            }
            &&& is_event(acts[1], conf, "OnFrontConnected"@, none)
        },
        SpiMessage::FrontDisconnected { .. } => {
            &&& acts.len() == 1
            &&& is_event(acts[0], conf, "OnFrontDisconnected"@, none)
        },
        SpiMessage::RspAuthenticate { rsp_info } =>
            if rsp_info.unwrap().error_id == 0 {
                &&& acts.len() == 2
                &&& acts[0] == TraderAction::ReqUserLogin {
                    broker_id: conf.broker_id,
                    user_id: conf.account,
                    password: conf.password,
                    request_id: next,
                }
                &&& is_event(acts[1], conf, "OnRspAuthenticate"@, none)
            } else {
                &&& acts.len() == 1
                &&& is_event(acts[0], conf, "OnRspAuthenticate"@, none)
            },
        SpiMessage::RspUserLogin { .. } => {
            &&& acts.len() == 2
            &&& is_event(acts[0], conf, "OnRspUserLogin"@, none)
            &&& acts[1] == TraderAction::ReqSettlementInfoConfirm {
                broker_id: conf.broker_id,
                investor_id: conf.account,
                request_id: next,
            }
        },
        SpiMessage::RspSettlementInfoConfirm => acts.len() == 1 && acts[0] == TraderAction::ReqQryTradingAccount {
            broker_id: conf.broker_id,
            investor_id: conf.account,
            request_id: next,
        },
        SpiMessage::RspQryTradingAccount { is_last } =>
            if is_last {
                acts.len() == 1 && acts[0] == TraderAction::ReqQryInvestorPositionDetail {
                    broker_id: conf.broker_id,
                    investor_id: conf.account,
                    request_id: next,
                }
            } else {
                acts.len() == 0
            },
        SpiMessage::RspQryInvestorPositionDetail { is_last, .. } =>
            if is_last {
                acts.len() == 1 && acts[0] == TraderAction::ReqQryInvestorPosition {
                    broker_id: conf.broker_id,
                    investor_id: conf.account,
                    request_id: next,
                }
            } else {
                acts.len() == 0
            },
        SpiMessage::RspQryInvestorPosition { is_last, .. } =>
            if is_last {
                acts.len() == 1 && acts[0] == TraderAction::ReqQryInstrument { request_id: next }
            } else {
                acts.len() == 0
            },
        SpiMessage::RspQryInstrument { is_last, .. } =>
            if is_last {
                acts.len() == 1 && acts[0] == TraderAction::ReqQryDepthMarketData { request_id: next }
            } else {
                acts.len() == 0
            },
        SpiMessage::RspQryDepthMarketData { is_last } =>
            if is_last {
                acts.len() == 1 && acts[0] == TraderAction::ReqQryOrder {
                    broker_id: conf.broker_id,
                    investor_id: conf.account,
                    request_id: next,
                }
            } else {
                acts.len() == 0
            },
        SpiMessage::RspQryOrder { is_last, .. } =>
            if is_last {
                acts.len() == 1 && acts[0] == TraderAction::ReqQryTrade {
                    broker_id: conf.broker_id,
                    investor_id: conf.account,
                    request_id: next,
                }
            } else {
                acts.len() == 0
            },
        SpiMessage::RspQryTrade { is_last, .. } =>
            if is_last {
                &&& acts.len() == 1
                &&& is_event(acts[0], conf, "LoginCompleted"@, none)
            } else {
                acts.len() == 0
            },
        SpiMessage::RtnOrder { order } => match order {
            Some(o) => acts.len() == 1 && is_event(acts[0], conf, "Order"@, o.key_text()),
            None => acts.len() == 0,
        },
        SpiMessage::RtnTrade { trade } => match trade {
            Some(t) => acts.len() == 1 && is_event(acts[0], conf, "Trade"@, t.key_text()),
            None => acts.len() == 0,
        },
        _ => acts.len() == 0,
    }
}

/// The trader of one account: its settings, what it holds, and the last request id used.
#[derive(Debug)]
pub struct Trader {
    pub conf: TradingAccount,
    pub cta: CtpTradingAccount,
    pub request_id: i32,
}

/// The directory where the trading front keeps its flow files for an account:
/// `.cache/ctp_futures_trade_flow_{broker_id}_{account}//`.
pub fn flow_path(broker_id: &str, account: &str) -> (p: String)
    ensures
        p@ == ".cache/ctp_futures_trade_flow_"@ + broker_id@ + "_"@ + account@ + "//"@,
{
    let mut p = String::from_str(".cache/ctp_futures_trade_flow_");
    p.append(broker_id);
    p.append("_");
    p.append(account);
    p.append("//");
    p
}

/// How the trader of `conf` reaches the trading front: through the name server when one is
/// configured, else at the trade front address.
pub fn front_registration(conf: &TradingAccount) -> (r: FrontRegistration)
    ensures
        conf.fens_trade_front@.len() > 0 ==> r == FrontRegistration::NameServer(conf.fens_trade_front),
        conf.fens_trade_front@.len() == 0 ==> r == FrontRegistration::Front(conf.trade_front),
{
    if conf.fens_trade_front.as_str().is_empty() {
        FrontRegistration::Front(conf.trade_front.clone())
    } else {
        FrontRegistration::NameServer(conf.fens_trade_front.clone())
    }
}

impl Trader {
    /// A trader for `conf` that has received nothing; its first request will carry id 11.
    pub fn new(conf: TradingAccount) -> (t: Trader)
        ensures
            t.conf == conf,
            t.cta.is_fresh(),
            t.request_id == 10,
    {
        Trader { conf, cta: CtpTradingAccount::default(), request_id: 10 }
    }

    /// `broker_id:account`: the key the registry files this trader under.
    pub fn key(&self) -> (k: String)
        ensures
            k@ == self.conf.key_text(),
    {
        colon_join2(self.conf.broker_id.as_str(), self.conf.account.as_str())
    }

    /// The next request id.
    pub fn get_request_id(&mut self) -> (id: i32)
        requires
            old(self).request_id < i32::MAX,
        ensures
            id == old(self).request_id + 1,
            final(self).request_id == id,
            final(self).conf == old(self).conf,
            final(self).cta == old(self).cta,
    {
        self.request_id = self.request_id + 1;
        self.request_id
    }

    /// The connection status.
    pub fn status(&self) -> (s: CtaStatus)
        ensures
            s == self.cta.status,
    {
        self.cta.status
    }

    /// The description of the last failure.
    pub fn status_description(&self) -> (s: String)
        ensures
            s == self.cta.status_description,
    {
        self.cta.status_description.clone()
    }

    /// The notice `tp` about this trader's account and the row keyed `key`.
    pub fn make_event(&self, tp: &str, key: &str) -> (e: CtaEvent)
        ensures
            e.tp@ == tp@,
            e.b == self.conf.broker_id,
            e.a == self.conf.account,
            e.key@ == key@,
    {
        CtaEvent {
            tp: String::from_str(tp),
            b: self.conf.broker_id.clone(),
            a: self.conf.account.clone(),
            key: String::from_str(key),
        }
    }
    /// Takes one message from the trading front: updates the status and the tables and
    /// returns what is to be sent, in order. Requests go out one per message, in the login
    /// sequence authenticate, log in, confirm settlement, then query the trading account,
    /// position lots, positions, instruments, market data, orders and trades; the last
    /// trade answer completes the login.
    pub fn handle_spi_msg(&mut self, msg: SpiMessage) -> (acts: Vec<TraderAction>)
        requires
            well_formed_message(msg),
            sends_request(msg) ==> old(self).request_id < i32::MAX,
        ensures
            final(self).conf == old(self).conf,
            final(self).request_id == old(self).request_id + if sends_request(msg) { 1int } else { 0int },
            final(self).cta.status == next_status(old(self).cta.status, msg),
            final(self).cta.status_description == next_description(old(self).cta.status_description, msg),
            final(self).cta.orders.as_map() == next_orders(old(self).cta.orders.as_map(), msg),
            final(self).cta.trades.as_map() == next_trades(old(self).cta.trades.as_map(), msg),
            final(self).cta.positions.as_map() == next_positions(old(self).cta.positions.as_map(), msg),
            final(self).cta.position_details.as_map() == next_position_details(old(self).cta.position_details.as_map(), msg),
            final(self).cta.instruments.as_map() == next_instruments(old(self).cta.instruments.as_map(), old(self).conf, msg),
            expected_actions(old(self).conf, old(self).request_id as int, msg, acts@),
    {
        let mut acts: Vec<TraderAction> = Vec::new();
        proof {
            reveal_strlit("");
            assert(""@ =~= Seq::<char>::empty());
        }
        match msg {
            SpiMessage::FrontConnected => {
                let request_id = self.get_request_id();
                acts.push(TraderAction::ReqAuthenticate {
                    broker_id: self.conf.broker_id.clone(),
                    user_id: self.conf.account.clone(),
                    auth_code: self.conf.auth_code.clone(),
                    user_product_info: self.conf.user_product_info.clone(),
                    app_id: self.conf.app_id.clone(),
                    request_id,
                });
                self.cta.status = CtaStatus::Connected;
                acts.push(TraderAction::Emit(self.make_event("OnFrontConnected", "")));
            },
            SpiMessage::FrontDisconnected { .. } => {
                self.cta.status = CtaStatus::Disconnected;
                acts.push(TraderAction::Emit(self.make_event("OnFrontDisconnected", "")));
            },
            SpiMessage::RspAuthenticate { rsp_info } => {
                let info = rsp_info.unwrap();
                if info.error_id == 0 {
                    let request_id = self.get_request_id();
                    acts.push(TraderAction::ReqUserLogin {
                        broker_id: self.conf.broker_id.clone(),
                        user_id: self.conf.account.clone(),
                        password: self.conf.password.clone(),
                        request_id,
                    });
                    self.cta.status = CtaStatus::AuthenticateSucceeded;
                    acts.push(TraderAction::Emit(self.make_event("OnRspAuthenticate", "")));
                } else {
                    self.cta.status = CtaStatus::AuthenticateFailed;
                    self.cta.status_description = info.error_msg;
                    acts.push(TraderAction::Emit(self.make_event("OnRspAuthenticate", "")));
                }
            },
            SpiMessage::RspUserLogin { rsp_info, .. } => {
                let info = rsp_info.unwrap();
                if info.error_id == 0 {
                    self.cta.status = CtaStatus::LoginSucceeded;
                } else {
                    self.cta.status = CtaStatus::LoginFailed;
                    self.cta.status_description = info.error_msg;
                }
                acts.push(TraderAction::Emit(self.make_event("OnRspUserLogin", "")));
                let request_id = self.get_request_id();
                acts.push(TraderAction::ReqSettlementInfoConfirm {
                    broker_id: self.conf.broker_id.clone(),
                    investor_id: self.conf.account.clone(),
                    request_id,
                });
            },
            SpiMessage::RspSettlementInfoConfirm => {
                let request_id = self.get_request_id();
                acts.push(TraderAction::ReqQryTradingAccount {
                    broker_id: self.conf.broker_id.clone(),
                    investor_id: self.conf.account.clone(),
                    request_id,
                });
            },
            SpiMessage::RspQryTradingAccount { is_last } => {
                if is_last {
                    let request_id = self.get_request_id();
                    acts.push(TraderAction::ReqQryInvestorPositionDetail {
                        broker_id: self.conf.broker_id.clone(),
                        investor_id: self.conf.account.clone(),
                        request_id,
                    });
                }
            },
            SpiMessage::RspQryInvestorPositionDetail { detail, is_last } => {
                if let Some(d) = detail {
                    let k = d.key();
                    self.cta.position_details.insert(k, d);
                }
                if is_last {
                    let request_id = self.get_request_id();
                    acts.push(TraderAction::ReqQryInvestorPosition {
                        broker_id: self.conf.broker_id.clone(),
                        investor_id: self.conf.account.clone(),
                        request_id,
                    });
                }
            },
            SpiMessage::RspQryInvestorPosition { position, is_last } => {
                if let Some(p) = position {
                    let k = p.key();
                    self.cta.positions.insert(k, p);
                }
                if is_last {
                    let request_id = self.get_request_id();
                    acts.push(TraderAction::ReqQryInstrument { request_id });
                }
            },
            SpiMessage::RspQryInstrument { instrument, is_last } => {
                if let Some(i) = instrument {
                    let mut i = i;
                    i.broker_id = self.conf.broker_id.clone();
                    i.account = self.conf.account.clone();
                    let k = i.key();
                    self.cta.instruments.insert(k, i);
                }
                if is_last {
                    let request_id = self.get_request_id();
                    acts.push(TraderAction::ReqQryDepthMarketData { request_id });
                }
            },
            SpiMessage::RspQryDepthMarketData { is_last } => {
                if is_last {
                    let request_id = self.get_request_id();
                    acts.push(TraderAction::ReqQryOrder {
                        broker_id: self.conf.broker_id.clone(),
                        investor_id: self.conf.account.clone(),
                        request_id,
                    });
                }
            },
            SpiMessage::RspQryOrder { order, is_last } => {
                if let Some(o) = order {
                    let k = o.key();
                    self.cta.orders.insert(k, o);
                }
                if is_last {
                    let request_id = self.get_request_id();
                    acts.push(TraderAction::ReqQryTrade {
                        broker_id: self.conf.broker_id.clone(),
                        investor_id: self.conf.account.clone(),
                        request_id,
                    });
                }
            },
            SpiMessage::RspQryTrade { trade, is_last } => {
                if let Some(t) = trade {
                    let k = t.key();
                    self.cta.trades.insert(k, t);
                }
                if is_last {
                    acts.push(TraderAction::Emit(self.make_event("LoginCompleted", "")));
                }
            },
            SpiMessage::RtnOrder { order } => {
                if let Some(o) = order {
                    let k = o.key();
                    let e = self.make_event("Order", k.as_str());
                    self.cta.orders.insert(k, o);
                    acts.push(TraderAction::Emit(e));
                }
            },
            SpiMessage::RtnTrade { trade } => {
                if let Some(t) = trade {
                    let k = t.key();
                    let e = self.make_event("Trade", k.as_str());
                    self.cta.trades.insert(k, t);
                    acts.push(TraderAction::Emit(e));
                }
            },
            SpiMessage::RspQryInstrumentCommissionRate { .. } => {},
            SpiMessage::Other => {},
        }
        acts
    }
}

/// A message sends at most one request, and it carries the next id, one more than the last
/// id used; it sends one exactly when `sends_request` says so. Notices carry no id.
pub proof fn law_request_ids(conf: TradingAccount, id: int, msg: SpiMessage, acts: Seq<TraderAction>)
    requires
        well_formed_message(msg),
        expected_actions(conf, id, msg, acts),
    ensures
        forall|x: int| 0 <= x < acts.len() && (#[trigger] request_id_of(acts[x])) is Some
            ==> request_id_of(acts[x]) == Some((id + 1) as i32),
        forall|x: int, y: int| 0 <= x < acts.len() && 0 <= y < acts.len() && x != y
            && (#[trigger] request_id_of(acts[x])) is Some ==> (#[trigger] request_id_of(acts[y])) is None,
        (exists|x: int| 0 <= x < acts.len() && (#[trigger] request_id_of(acts[x])) is Some) <==> sends_request(msg),
{
    match msg {
        SpiMessage::FrontConnected => {
            assert(request_id_of(acts[0]) is Some);
        },
        SpiMessage::RspAuthenticate { rsp_info } => {
            if rsp_info.unwrap().error_id == 0 {
                assert(request_id_of(acts[0]) is Some);
            }
        },
        SpiMessage::RspUserLogin { .. } => {
            assert(request_id_of(acts[1]) is Some);
        },
        SpiMessage::RspSettlementInfoConfirm => {
            assert(request_id_of(acts[0]) is Some);
        },
        SpiMessage::RspQryTradingAccount { is_last } => {
            if is_last {
                assert(request_id_of(acts[0]) is Some);
            }
        },
        SpiMessage::RspQryInvestorPositionDetail { is_last, .. } => {
            if is_last {
                assert(request_id_of(acts[0]) is Some);
            }
        },
        SpiMessage::RspQryInvestorPosition { is_last, .. } => {
            if is_last {
                assert(request_id_of(acts[0]) is Some);
            }
        },
        SpiMessage::RspQryInstrument { is_last, .. } => {
            if is_last {
                assert(request_id_of(acts[0]) is Some);
            }
        },
        SpiMessage::RspQryDepthMarketData { is_last } => {
            if is_last {
                assert(request_id_of(acts[0]) is Some);
            }
        },
        SpiMessage::RspQryOrder { is_last, .. } => {
            if is_last {
                assert(request_id_of(acts[0]) is Some);
            }
        },
        _ => {},
    }
}

/// Answers to queries and the order and trade notices leave the status and its description
/// as they were; only connecting, disconnecting, authenticating and logging in move them.
pub proof fn law_status_moved_only_by_session(status: CtaStatus, description: String, msg: SpiMessage)
    requires
        !(msg is FrontConnected || msg is FrontDisconnected || msg is RspAuthenticate || msg is RspUserLogin),
    ensures
        next_status(status, msg) == status,
        next_description(description, msg) == description,
{
}

/// A row that arrives in a query answer or a notice can be read back under its key, and
/// every other key reads as before.
pub proof fn law_rows_read_back(
    orders: Map<Seq<char>, OrderRow>,
    trades: Map<Seq<char>, TradeRow>,
    msg: SpiMessage,
    k: Seq<char>,
)
    ensures
        msg matches SpiMessage::RtnOrder { order: Some(o) } ==> next_orders(orders, msg)[o.key_text()] == o,
        msg matches SpiMessage::RspQryOrder { order: Some(o), .. } ==> next_orders(orders, msg)[o.key_text()] == o,
        msg matches SpiMessage::RtnTrade { trade: Some(t) } ==> next_trades(trades, msg)[t.key_text()] == t,
        msg matches SpiMessage::RspQryTrade { trade: Some(t), .. } ==> next_trades(trades, msg)[t.key_text()] == t,
        msg matches SpiMessage::RtnOrder { order: Some(o) } && k != o.key_text()
            ==> next_orders(orders, msg).contains_key(k) == orders.contains_key(k)
            && next_orders(orders, msg)[k] == orders[k],
        msg matches SpiMessage::RtnTrade { trade: Some(t) } && k != t.key_text()
            ==> next_trades(trades, msg).contains_key(k) == trades.contains_key(k)
            && next_trades(trades, msg)[k] == trades[k],
{
}

/// Every row a trader holds is filed under its own key, and every instrument it holds carries
/// its account's broker and account: true of a fresh trader, and kept by every message.
pub proof fn law_rows_filed_under_own_keys(
    conf: TradingAccount,
    orders: Map<Seq<char>, OrderRow>,
    trades: Map<Seq<char>, TradeRow>,
    instruments: Map<Seq<char>, InstrumentRow>,
    msg: SpiMessage,
)
    requires
        forall|k: Seq<char>| #[trigger] orders.contains_key(k) ==> orders[k].key_text() == k,
        forall|k: Seq<char>| #[trigger] trades.contains_key(k) ==> trades[k].key_text() == k,
        forall|k: Seq<char>| #[trigger] instruments.contains_key(k) ==> {
            &&& instruments[k].key_text() == k
            &&& instruments[k].broker_id == conf.broker_id
            &&& instruments[k].account == conf.account
        },
    ensures
        forall|k: Seq<char>| #[trigger] next_orders(orders, msg).contains_key(k)
            ==> next_orders(orders, msg)[k].key_text() == k,
        forall|k: Seq<char>| #[trigger] next_trades(trades, msg).contains_key(k)
            ==> next_trades(trades, msg)[k].key_text() == k,
        forall|k: Seq<char>| #[trigger] next_instruments(instruments, conf, msg).contains_key(k) ==> {
            &&& next_instruments(instruments, conf, msg)[k].key_text() == k
            &&& next_instruments(instruments, conf, msg)[k].broker_id == conf.broker_id
            &&& next_instruments(instruments, conf, msg)[k].account == conf.account
        },
{
}

/// Connecting, disconnecting, authenticating and logging in set the status whatever it was
/// before: connected, disconnected, then succeeded or failed by the answer's error id being
/// zero or not. A failure leaves the answer's error message as the description; a success
/// keeps the description.
pub proof fn law_session_status(
    status: CtaStatus,
    description: String,
    info: RspInfo,
    reason: i32,
    has_user_login: bool,
)
    ensures
        next_status(status, SpiMessage::FrontConnected) == CtaStatus::Connected,
        next_status(status, SpiMessage::FrontDisconnected { reason }) == CtaStatus::Disconnected,
        next_description(description, SpiMessage::FrontConnected) == description,
        next_description(description, SpiMessage::FrontDisconnected { reason }) == description,
        info.error_id == 0 ==> next_status(status, SpiMessage::RspAuthenticate { rsp_info: Some(info) })
            == CtaStatus::AuthenticateSucceeded,
        info.error_id != 0 ==> next_status(status, SpiMessage::RspAuthenticate { rsp_info: Some(info) })
            == CtaStatus::AuthenticateFailed,
        info.error_id == 0 ==> next_description(description, SpiMessage::RspAuthenticate { rsp_info: Some(info) })
            == description,
        info.error_id != 0 ==> next_description(description, SpiMessage::RspAuthenticate { rsp_info: Some(info) })
            == info.error_msg,
        info.error_id == 0 ==> next_status(
            status,
            SpiMessage::RspUserLogin { rsp_info: Some(info), has_user_login },
        ) == CtaStatus::LoginSucceeded,
        info.error_id != 0 ==> next_status(
            status,
            SpiMessage::RspUserLogin { rsp_info: Some(info), has_user_login },
        ) == CtaStatus::LoginFailed,
        info.error_id == 0 ==> next_description(
            description,
            SpiMessage::RspUserLogin { rsp_info: Some(info), has_user_login },
        ) == description,
        info.error_id != 0 ==> next_description(
            description,
            SpiMessage::RspUserLogin { rsp_info: Some(info), has_user_login },
        ) == info.error_msg,
{
}

/// A position, position lot or instrument in a query answer can be read back under its key
/// (`exchange:symbol:direction`, `exchange:symbol:trade_id`, `exchange:symbol`), an
/// instrument stamped with the account's broker and account; every other key reads as
/// before, and other messages leave these tables as they were.
pub proof fn law_holdings_read_back(
    positions: Map<Seq<char>, PositionRow>,
    details: Map<Seq<char>, PositionDetailRow>,
    instruments: Map<Seq<char>, InstrumentRow>,
    conf: TradingAccount,
    msg: SpiMessage,
    k: Seq<char>,
)
    ensures
        msg matches SpiMessage::RspQryInvestorPosition { position: Some(p), .. } ==> {
            let key = p.exchange@ + seq![':'] + p.symbol@ + seq![':'] + decimal(p.direction as int);
            &&& next_positions(positions, msg).contains_key(key)
            &&& next_positions(positions, msg)[key] == p
            &&& (k != key ==> next_positions(positions, msg).contains_key(k) == positions.contains_key(k)
                && next_positions(positions, msg)[k] == positions[k])
        },
        !(msg matches SpiMessage::RspQryInvestorPosition { position: Some(_), .. })
            ==> next_positions(positions, msg) == positions,
        msg matches SpiMessage::RspQryInvestorPositionDetail { detail: Some(d), .. } ==> {
            let key = d.exchange@ + seq![':'] + d.symbol@ + seq![':'] + d.trade_id@;
            &&& next_position_details(details, msg).contains_key(key)
            &&& next_position_details(details, msg)[key] == d
            &&& (k != key ==> next_position_details(details, msg).contains_key(k) == details.contains_key(k)
                && next_position_details(details, msg)[k] == details[k])
        },
        !(msg matches SpiMessage::RspQryInvestorPositionDetail { detail: Some(_), .. })
            ==> next_position_details(details, msg) == details,
        msg matches SpiMessage::RspQryInstrument { instrument: Some(i), .. } ==> {
            let key = i.exchange@ + seq![':'] + i.symbol@;
            let got = next_instruments(instruments, conf, msg)[key];
            &&& next_instruments(instruments, conf, msg).contains_key(key)
            &&& got.broker_id == conf.broker_id
            &&& got.account == conf.account
            &&& got.exchange == i.exchange
            &&& got.symbol == i.symbol
            &&& got.name == i.name
            &&& (k != key ==> next_instruments(instruments, conf, msg).contains_key(k) == instruments.contains_key(k)
                && next_instruments(instruments, conf, msg)[k] == instruments[k])
        },
        !(msg matches SpiMessage::RspQryInstrument { instrument: Some(_), .. })
            ==> next_instruments(instruments, conf, msg) == instruments,
{
}

/// Orders and trades change only on an order or trade in a query answer or a notice.
pub proof fn law_orders_trades_change_only_on_their_rows(
    orders: Map<Seq<char>, OrderRow>,
    trades: Map<Seq<char>, TradeRow>,
    msg: SpiMessage,
)
    ensures
        !(msg matches SpiMessage::RspQryOrder { order: Some(_), .. })
            && !(msg matches SpiMessage::RtnOrder { order: Some(_) }) ==> next_orders(orders, msg) == orders,
        !(msg matches SpiMessage::RspQryTrade { trade: Some(_), .. })
            && !(msg matches SpiMessage::RtnTrade { trade: Some(_) }) ==> next_trades(trades, msg) == trades,
{
}

/// `a` is the request `r` with id `id + 1`, to the broker and account of `conf` where it names them.
pub open spec fn is_query(a: TraderAction, conf: TradingAccount, id: int, kind: int) -> bool {
    let next = (id + 1) as i32;
    let b = conf.broker_id;
    let inv = conf.account;
    if kind == 0 {
        a == TraderAction::ReqQryTradingAccount { broker_id: b, investor_id: inv, request_id: next }
    } else if kind == 1 {
        a == TraderAction::ReqQryInvestorPositionDetail { broker_id: b, investor_id: inv, request_id: next }
    } else if kind == 2 {
        a == TraderAction::ReqQryInvestorPosition { broker_id: b, investor_id: inv, request_id: next }
    } else if kind == 3 {
        a == TraderAction::ReqQryInstrument { request_id: next }
    } else if kind == 4 {
        a == TraderAction::ReqQryDepthMarketData { request_id: next }
    } else if kind == 5 {
        a == TraderAction::ReqQryOrder { broker_id: b, investor_id: inv, request_id: next }
    } else {
        a == TraderAction::ReqQryTrade { broker_id: b, investor_id: inv, request_id: next }
    }
}

/// The start-up queries wait for the last answer: an answer that is not the last one sends
/// nothing and uses no request id; the last answer to each query sends the next query of the
/// sequence (trading account, position lots, positions, instruments, market data, orders,
/// trades) with a fresh id, and the last trade answer completes the login.
pub proof fn law_start_up_queries(conf: TradingAccount, id: int, msg: SpiMessage, acts: Seq<TraderAction>)
    requires
        expected_actions(conf, id, msg, acts),
    ensures
        msg is RspSettlementInfoConfirm ==> sends_request(msg) && acts.len() == 1 && is_query(acts[0], conf, id, 0),
        msg matches SpiMessage::RspQryTradingAccount { is_last } ==> {
            &&& !is_last ==> acts.len() == 0 && !sends_request(msg)
            &&& is_last ==> acts.len() == 1 && sends_request(msg) && is_query(acts[0], conf, id, 1)
        },
        msg matches SpiMessage::RspQryInvestorPositionDetail { is_last, .. } ==> {
            &&& !is_last ==> acts.len() == 0 && !sends_request(msg)
            &&& is_last ==> acts.len() == 1 && sends_request(msg) && is_query(acts[0], conf, id, 2)
        },
        msg matches SpiMessage::RspQryInvestorPosition { is_last, .. } ==> {
            &&& !is_last ==> acts.len() == 0 && !sends_request(msg)
            &&& is_last ==> acts.len() == 1 && sends_request(msg) && is_query(acts[0], conf, id, 3)
        },
        msg matches SpiMessage::RspQryInstrument { is_last, .. } ==> {
            &&& !is_last ==> acts.len() == 0 && !sends_request(msg)
            &&& is_last ==> acts.len() == 1 && sends_request(msg) && is_query(acts[0], conf, id, 4)
        },
        msg matches SpiMessage::RspQryDepthMarketData { is_last } ==> {
            &&& !is_last ==> acts.len() == 0 && !sends_request(msg)
            &&& is_last ==> acts.len() == 1 && sends_request(msg) && is_query(acts[0], conf, id, 5)
        },
        msg matches SpiMessage::RspQryOrder { is_last, .. } ==> {
            &&& !is_last ==> acts.len() == 0 && !sends_request(msg)
            &&& is_last ==> acts.len() == 1 && sends_request(msg) && is_query(acts[0], conf, id, 6)
        },
        msg matches SpiMessage::RspQryTrade { is_last, .. } ==> {
            &&& !sends_request(msg)
            &&& !is_last ==> acts.len() == 0
            &&& is_last ==> acts.len() == 1 && (acts[0] matches TraderAction::Emit(e)
                && e.tp@ == "LoginCompleted"@ && e.b == conf.broker_id && e.a == conf.account && e.key@.len() == 0)
        },
{
}

/// Connecting asks to authenticate with the account's settings; a successful authentication
/// asks to log in with its password; a failed one asks nothing more; any login answer asks to
/// confirm the settlement. Each request carries the next id, and each of these messages is
/// announced to the front end under its own name.
pub proof fn law_session_requests(conf: TradingAccount, id: int, msg: SpiMessage, acts: Seq<TraderAction>)
    requires
        well_formed_message(msg),
        expected_actions(conf, id, msg, acts),
    ensures
        msg is FrontConnected ==> sends_request(msg) && acts.len() == 2 && acts[0] == (TraderAction::ReqAuthenticate {
            broker_id: conf.broker_id,
            user_id: conf.account,
            auth_code: conf.auth_code,
            user_product_info: conf.user_product_info,
            app_id: conf.app_id,
            request_id: (id + 1) as i32,
        }) && is_event(acts[1], conf, "OnFrontConnected"@, Seq::empty()),
        msg is FrontDisconnected ==> !sends_request(msg) && acts.len() == 1
            && is_event(acts[0], conf, "OnFrontDisconnected"@, Seq::empty()),
        msg is RspAuthenticate && msg->RspAuthenticate_rsp_info.unwrap().error_id == 0 ==> sends_request(msg) && acts.len() == 2
            && acts[0] == (TraderAction::ReqUserLogin {
                broker_id: conf.broker_id,
                user_id: conf.account,
                password: conf.password,
                request_id: (id + 1) as i32,
            }) && is_event(acts[1], conf, "OnRspAuthenticate"@, Seq::empty()),
        msg is RspAuthenticate && msg->RspAuthenticate_rsp_info.unwrap().error_id != 0 ==> !sends_request(msg) && acts.len() == 1
            && is_event(acts[0], conf, "OnRspAuthenticate"@, Seq::empty()),
        msg is RspUserLogin ==> sends_request(msg) && acts.len() == 2
            && is_event(acts[0], conf, "OnRspUserLogin"@, Seq::empty())
            && acts[1] == (TraderAction::ReqSettlementInfoConfirm {
                broker_id: conf.broker_id,
                investor_id: conf.account,
                request_id: (id + 1) as i32,
            }),
        msg is RtnOrder && msg->RtnOrder_order is Some ==> !sends_request(msg) && acts.len() == 1
            && is_event(acts[0], conf, "Order"@, order_key_of(msg->RtnOrder_order.unwrap())),
        msg is RtnTrade && msg->RtnTrade_trade is Some ==> !sends_request(msg) && acts.len() == 1
            && is_event(acts[0], conf, "Trade"@, trade_key_of(msg->RtnTrade_trade.unwrap())),
        msg is Other ==> !sends_request(msg) && acts.len() == 0,
        msg is RspQryInstrumentCommissionRate ==> !sends_request(msg) && acts.len() == 0,
        msg is RtnOrder && msg->RtnOrder_order is None ==> !sends_request(msg) && acts.len() == 0,
        msg is RtnTrade && msg->RtnTrade_trade is None ==> !sends_request(msg) && acts.len() == 0,
{
}

/// `front_id:session_id:order_ref`, written out.
pub open spec fn order_key_of(o: OrderRow) -> Seq<char> {
    decimal(o.front_id as int) + seq![':'] + decimal(o.session_id as int) + seq![':'] + o.order_ref@
}

/// `exchange:symbol:trade_id`, written out.
pub open spec fn trade_key_of(t: TradeRow) -> Seq<char> {
    t.exchange@ + seq![':'] + t.symbol@ + seq![':'] + t.trade_id@
}

/// A notice names what happened, the account's broker and account, and the row's key.
pub proof fn law_event_fields(a: TraderAction, conf: TradingAccount, tp: Seq<char>, key: Seq<char>)
    requires
        is_event(a, conf, tp, key),
    ensures
        a is Emit,
        a->0.tp@ == tp,
        a->0.b == conf.broker_id,
        a->0.a == conf.account,
        a->0.key@ == key,
{
}

/// A fresh account holds nothing: unknown status, no description, and no order, trade,
/// position, position lot or instrument under any key.
pub proof fn law_fresh_holds_nothing(cta: CtpTradingAccount, k: Seq<char>)
    requires
        cta.is_fresh(),
    ensures
        cta.status == CtaStatus::UnKown,
        cta.status_description@.len() == 0,
        !cta.orders.as_map().contains_key(k),
        !cta.trades.as_map().contains_key(k),
        !cta.positions.as_map().contains_key(k),
        !cta.position_details.as_map().contains_key(k),
        !cta.instruments.as_map().contains_key(k),
{
}

} // verus!
