use g3_trader::command::default_account;
use g3_trader::config::{InstrumentRow, OrderRow, TradeRow, TradingAccount};
use g3_trader::trader::{CtaStatus, RspInfo, SpiMessage, Trader, TraderAction};

fn account() -> TradingAccount {
    let mut a = default_account();
    a.broker_id = "9999".to_string();
    a.account = "001".to_string();
    a.password = "pw".to_string();
    a.auth_code = "AC".to_string();
    a.app_id = "app".to_string();
    a.user_product_info = "upi".to_string();
    a.trade_front = "tcp://127.0.0.1:1".to_string();
    a
}

fn event(a: &TraderAction) -> (String, String, String, String) {
    match a {
        TraderAction::Emit(e) => (e.tp.clone(), e.b.clone(), e.a.clone(), e.key.clone()),
        other => panic!("not an event: {:?}", other),
    }
}

fn ok() -> Option<RspInfo> {
    Some(RspInfo { error_id: 0, error_msg: String::new() })
}

#[test]
fn new_trader_is_fresh() {
    let t = Trader::new(account());
    assert_eq!(t.request_id, 10);
    assert_eq!(t.status(), CtaStatus::UnKown);
    assert_eq!(t.status_description(), "");
    assert_eq!(t.cta.orders.len(), 0);
}

#[test]
fn front_connected_authenticates() {
    let mut t = Trader::new(account());
    let acts = t.handle_spi_msg(SpiMessage::FrontConnected);
    assert_eq!(acts.len(), 2);
    match &acts[0] {
        TraderAction::ReqAuthenticate { broker_id, user_id, auth_code, user_product_info, app_id, request_id } => {
            assert_eq!(broker_id, "9999");
            assert_eq!(user_id, "001");
            assert_eq!(auth_code, "AC");
            assert_eq!(user_product_info, "upi");
            assert_eq!(app_id, "app");
            assert_eq!(*request_id, 11);
        }
        other => panic!("unexpected {:?}", other),
    }
    assert_eq!(event(&acts[1]), ("OnFrontConnected".to_string(), "9999".to_string(), "001".to_string(), String::new()));
    assert_eq!(t.status(), CtaStatus::Connected);
    assert_eq!(t.request_id, 11);
}

#[test]
fn full_login_sequence() {
    let mut t = Trader::new(account());
    t.handle_spi_msg(SpiMessage::FrontConnected);
    let acts = t.handle_spi_msg(SpiMessage::RspAuthenticate { rsp_info: ok() });
    assert!(matches!(&acts[0], TraderAction::ReqUserLogin { password, request_id: 12, .. } if password == "pw"));
    assert_eq!(event(&acts[1]).0, "OnRspAuthenticate");
    assert_eq!(t.status(), CtaStatus::AuthenticateSucceeded);

    let acts = t.handle_spi_msg(SpiMessage::RspUserLogin { rsp_info: ok(), has_user_login: true });
    assert_eq!(event(&acts[0]).0, "OnRspUserLogin");
    assert!(matches!(&acts[1], TraderAction::ReqSettlementInfoConfirm { request_id: 13, .. }));
    assert_eq!(t.status(), CtaStatus::LoginSucceeded);

    let acts = t.handle_spi_msg(SpiMessage::RspSettlementInfoConfirm);
    assert!(matches!(&acts[..], [TraderAction::ReqQryTradingAccount { request_id: 14, .. }]));
    let acts = t.handle_spi_msg(SpiMessage::RspQryTradingAccount { is_last: false });
    assert!(acts.is_empty());
    let acts = t.handle_spi_msg(SpiMessage::RspQryTradingAccount { is_last: true });
    assert!(matches!(&acts[..], [TraderAction::ReqQryInvestorPositionDetail { request_id: 15, .. }]));
    let acts = t.handle_spi_msg(SpiMessage::RspQryInvestorPositionDetail { detail: None, is_last: true });
    assert!(matches!(&acts[..], [TraderAction::ReqQryInvestorPosition { request_id: 16, .. }]));
    let acts = t.handle_spi_msg(SpiMessage::RspQryInvestorPosition { position: None, is_last: true });
    assert!(matches!(&acts[..], [TraderAction::ReqQryInstrument { request_id: 17 }]));
    let acts = t.handle_spi_msg(SpiMessage::RspQryInstrument { instrument: None, is_last: true });
    assert!(matches!(&acts[..], [TraderAction::ReqQryDepthMarketData { request_id: 18 }]));
    let acts = t.handle_spi_msg(SpiMessage::RspQryDepthMarketData { is_last: true });
    assert!(matches!(&acts[..], [TraderAction::ReqQryOrder { request_id: 19, .. }]));
    let acts = t.handle_spi_msg(SpiMessage::RspQryOrder { order: None, is_last: true });
    assert!(matches!(&acts[..], [TraderAction::ReqQryTrade { request_id: 20, .. }]));
    let acts = t.handle_spi_msg(SpiMessage::RspQryTrade { trade: None, is_last: true });
    assert_eq!(acts.len(), 1);
    assert_eq!(event(&acts[0]).0, "LoginCompleted");
    assert_eq!(t.request_id, 20);
    assert_eq!(t.status(), CtaStatus::LoginSucceeded);
}

#[test]
fn failed_authentication_keeps_message_and_stops() {
    let mut t = Trader::new(account());
    let acts = t.handle_spi_msg(SpiMessage::RspAuthenticate {
        rsp_info: Some(RspInfo { error_id: 63, error_msg: "客户端认证失败".to_string() }),
    });
    assert_eq!(acts.len(), 1);
    assert_eq!(event(&acts[0]).0, "OnRspAuthenticate");
    assert_eq!(t.status(), CtaStatus::AuthenticateFailed);
    assert_eq!(t.status_description(), "客户端认证失败");
    assert_eq!(t.request_id, 10);
}

#[test]
fn failed_login_still_confirms_settlement() {
    let mut t = Trader::new(account());
    let acts = t.handle_spi_msg(SpiMessage::RspUserLogin {
        rsp_info: Some(RspInfo { error_id: 3, error_msg: "不合法的登录".to_string() }),
        has_user_login: false,
    });
    assert_eq!(t.status(), CtaStatus::LoginFailed);
    assert_eq!(t.status_description(), "不合法的登录");
    assert!(matches!(&acts[1], TraderAction::ReqSettlementInfoConfirm { request_id: 11, .. }));
}

#[test]
fn disconnect_sets_status() {
    let mut t = Trader::new(account());
    let acts = t.handle_spi_msg(SpiMessage::FrontDisconnected { reason: 4097 });
    assert_eq!(event(&acts[0]).0, "OnFrontDisconnected");
    assert_eq!(t.status(), CtaStatus::Disconnected);
    assert_eq!(t.request_id, 10);
}

#[test]
fn order_notice_is_filed_and_announced() {
    let mut t = Trader::new(account());
    let o = OrderRow { front_id: 1, session_id: 2, order_ref: "3".to_string(), volume_traded: 0, ..Default::default() };
    let acts = t.handle_spi_msg(SpiMessage::RtnOrder { order: Some(o) });
    assert_eq!(event(&acts[0]), ("Order".to_string(), "9999".to_string(), "001".to_string(), "1:2:3".to_string()));
    assert_eq!(t.cta.orders.get("1:2:3").unwrap().volume_traded, 0);
    let o2 = OrderRow { front_id: 1, session_id: 2, order_ref: "3".to_string(), volume_traded: 5, ..Default::default() };
    t.handle_spi_msg(SpiMessage::RtnOrder { order: Some(o2) });
    assert_eq!(t.cta.orders.len(), 1);
    assert_eq!(t.cta.orders.get("1:2:3").unwrap().volume_traded, 5);
    assert!(t.handle_spi_msg(SpiMessage::RtnOrder { order: None }).is_empty());
}

#[test]
fn trade_notice_is_filed_and_announced() {
    let mut t = Trader::new(account());
    let tr = TradeRow { exchange: "SHFE".to_string(), symbol: "cu2405".to_string(), trade_id: "9".to_string(), volume: 2, ..Default::default() };
    let acts = t.handle_spi_msg(SpiMessage::RtnTrade { trade: Some(tr) });
    assert_eq!(event(&acts[0]).3, "SHFE:cu2405:9");
    assert_eq!(t.cta.trades.get("SHFE:cu2405:9").unwrap().volume, 2);
    assert!(t.cta.trades.get("SHFE:cu2405:10").is_none());
}

#[test]
fn instruments_are_stamped_with_the_account() {
    let mut t = Trader::new(account());
    let i = InstrumentRow { exchange: "DCE".to_string(), symbol: "i2409".to_string(), name: "铁矿石".to_string(), ..Default::default() };
    let acts = t.handle_spi_msg(SpiMessage::RspQryInstrument { instrument: Some(i), is_last: false });
    assert!(acts.is_empty());
    let got = t.cta.instruments.get("DCE:i2409").unwrap();
    assert_eq!(got.broker_id, "9999");
    assert_eq!(got.account, "001");
    assert_eq!(got.name, "铁矿石");
    assert_eq!(t.request_id, 10);
}

#[test]
fn query_answers_leave_status() {
    let mut t = Trader::new(account());
    t.handle_spi_msg(SpiMessage::FrontConnected);
    t.handle_spi_msg(SpiMessage::RspQryOrder { order: None, is_last: false });
    t.handle_spi_msg(SpiMessage::RspQryInstrumentCommissionRate { is_last: true });
    t.handle_spi_msg(SpiMessage::Other);
    assert_eq!(t.status(), CtaStatus::Connected);
    assert_eq!(t.request_id, 11);
}

#[test]
fn request_ids_are_fresh_per_message() {
    let mut t = Trader::new(account());
    let mut seen = vec![];
    let msgs = vec![
        SpiMessage::FrontConnected,
        SpiMessage::RspAuthenticate { rsp_info: ok() },
        SpiMessage::RspUserLogin { rsp_info: ok(), has_user_login: true },
        SpiMessage::RspSettlementInfoConfirm,
        SpiMessage::RtnTrade { trade: None },
        SpiMessage::RspQryTradingAccount { is_last: true },
    ];
    for m in msgs {
        let before = t.request_id;
        for a in t.handle_spi_msg(m) {
            let id = match a {
                TraderAction::ReqAuthenticate { request_id, .. }
                | TraderAction::ReqUserLogin { request_id, .. }
                | TraderAction::ReqSettlementInfoConfirm { request_id, .. }
                | TraderAction::ReqQryTradingAccount { request_id, .. }
                | TraderAction::ReqQryInvestorPositionDetail { request_id, .. } => request_id,
                _ => continue,
            };
            assert_eq!(id, before + 1);
            seen.push(id);
        }
    }
    assert_eq!(seen, vec![11, 12, 13, 14, 15]);
}

#[test]
fn held_rows_sit_under_their_own_keys() {
    let mut t = Trader::new(account());
    for (ex, sym) in [("DCE", "i2409"), ("SHFE", "rb2410"), ("DCE", "i2409")] {
        let i = InstrumentRow { exchange: ex.to_string(), symbol: sym.to_string(), ..Default::default() };
        t.handle_spi_msg(SpiMessage::RspQryInstrument { instrument: Some(i), is_last: false });
    }
    for (n, id) in ["1", "2", "1"].iter().enumerate() {
        let o = OrderRow { front_id: 1, session_id: 1, order_ref: id.to_string(), volume_total: n as i32, ..Default::default() };
        t.handle_spi_msg(SpiMessage::RspQryOrder { order: Some(o), is_last: false });
    }
    assert_eq!(t.cta.instruments.len(), 2);
    for k in t.cta.instruments.keys() {
        let i = t.cta.instruments.get(&k).unwrap();
        assert_eq!(i.key(), k);
        assert_eq!(i.broker_id, "9999");
        assert_eq!(i.account, "001");
    }
    assert_eq!(t.cta.orders.keys(), vec!["1:1:1".to_string(), "1:1:2".to_string()]);
    assert_eq!(t.cta.orders.get("1:1:1").unwrap().volume_total, 2);
}
