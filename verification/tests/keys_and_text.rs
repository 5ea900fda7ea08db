use g3_trader::config::{G3Config, InstrumentRow, OrderRow, PositionDetailRow, PositionRow, TradeRow};
use g3_trader::db::ta_key;
use g3_trader::text::{colon_join2, colon_join3, i32_to_decimal};
use g3_trader::trader::{flow_path, front_registration, FrontRegistration, Trader};
use g3_trader::command::default_account;

#[test]
fn decimal_of_zero_and_small() {
    assert_eq!(i32_to_decimal(0), "0");
    assert_eq!(i32_to_decimal(7), "7");
    assert_eq!(i32_to_decimal(10), "10");
    assert_eq!(i32_to_decimal(1234567), "1234567");
}

#[test]
fn decimal_of_negatives_and_extremes() {
    assert_eq!(i32_to_decimal(-1), "-1");
    assert_eq!(i32_to_decimal(-305), "-305");
    assert_eq!(i32_to_decimal(i32::MAX), "2147483647");
    assert_eq!(i32_to_decimal(i32::MIN), "-2147483648");
}

#[test]
fn decimal_matches_display() {
    for i in [-100000, -99, -10, -9, 0, 9, 99, 100, 65535, 1 << 30] {
        assert_eq!(i32_to_decimal(i), format!("{}", i));
    }
}

#[test]
fn colon_joins() {
    assert_eq!(colon_join2("a", "b"), "a:b");
    assert_eq!(colon_join2("", ""), ":");
    assert_eq!(colon_join3("x", "", "z"), "x::z");
}

#[test]
fn ta_key_joins_broker_and_account() {
    assert_eq!(ta_key("9999", "123456"), "9999:123456");
    assert_eq!(ta_key("", "a"), ":a");
}

#[test]
fn trade_key() {
    let t = TradeRow {
        exchange: "SHFE".to_string(),
        symbol: "rb2405".to_string(),
        trade_id: "  1234".to_string(),
        ..Default::default()
    };
    assert_eq!(t.key(), "SHFE:rb2405:  1234");
}

#[test]
fn order_key_uses_decimal_ids() {
    let o = OrderRow {
        front_id: 3,
        session_id: -1420,
        order_ref: "17".to_string(),
        ..Default::default()
    };
    assert_eq!(o.key(), "3:-1420:17");
}

#[test]
fn instrument_key() {
    let i = InstrumentRow {
        exchange: "DCE".to_string(),
        symbol: "m2409".to_string(),
        name: "豆粕2409".to_string(),
        ..Default::default()
    };
    assert_eq!(i.key(), "DCE:m2409");
}

#[test]
fn position_detail_key() {
    let d = PositionDetailRow {
        exchange: "CZCE".to_string(),
        symbol: "SR405".to_string(),
        trade_id: "88".to_string(),
        ..Default::default()
    };
    assert_eq!(d.key(), "CZCE:SR405:88");
}

#[test]
fn position_key_uses_direction() {
    let p = PositionRow {
        exchange: "INE".to_string(),
        symbol: "sc2406".to_string(),
        direction: 50,
        ..Default::default()
    };
    assert_eq!(p.key(), "INE:sc2406:50");
}

#[test]
fn default_path_is_in_cache() {
    assert_eq!(G3Config::default_path(), ".cache/g3config.json");
}

#[test]
fn flow_path_of_account() {
    assert_eq!(flow_path("9999", "001"), ".cache/ctp_futures_trade_flow_9999_001//");
}

#[test]
fn front_registration_prefers_name_server() {
    let mut a = default_account();
    a.trade_front = "tcp://1.2.3.4:1".to_string();
    match front_registration(&a) {
        FrontRegistration::Front(f) => assert_eq!(f, "tcp://1.2.3.4:1"),
        FrontRegistration::NameServer(_) => panic!("no name server configured"),
    }
    a.fens_trade_front = "tcp://5.6.7.8:2".to_string();
    match front_registration(&a) {
        FrontRegistration::NameServer(f) => assert_eq!(f, "tcp://5.6.7.8:2"),
        FrontRegistration::Front(_) => panic!("name server configured"),
    }
}

#[test]
fn trader_key_equals_registry_key() {
    let mut a = default_account();
    a.broker_id = "4040".to_string();
    a.account = "77".to_string();
    let t = Trader::new(a);
    assert_eq!(t.key(), ta_key("4040", "77"));
}
