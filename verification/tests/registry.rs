use g3_trader::command::{add_account, default_account, delete_account, AddAccountError, custom_response, some_other_function};
use g3_trader::config::{G3Config, TradingAccount};
use g3_trader::db::{fill_account_status, Database};
use g3_trader::table::RowTable;
use g3_trader::trader::{CtaStatus, RspInfo, SpiMessage, Trader};

fn acct(broker: &str, account: &str, front: &str) -> TradingAccount {
    let mut a = default_account();
    a.broker_id = broker.to_string();
    a.account = account.to_string();
    a.trade_front = front.to_string();
    a
}

fn keys_of(start: &[TradingAccount]) -> Vec<String> {
    start.iter().map(|a| format!("{}:{}", a.broker_id, a.account)).collect()
}

#[test]
fn table_insert_get_remove() {
    let mut t: RowTable<i32> = RowTable::new();
    assert_eq!(t.len(), 0);
    t.insert("a".to_string(), 1);
    t.insert("b".to_string(), 2);
    t.insert("a".to_string(), 3);
    assert_eq!(t.len(), 2);
    assert_eq!(t.get("a"), Some(&3));
    assert_eq!(t.get("b"), Some(&2));
    assert_eq!(t.get("c"), None);
    assert_eq!(t.keys(), vec!["a".to_string(), "b".to_string()]);
    assert_eq!(t.rows(), vec![&3, &2]);
    assert_eq!(t.remove("a"), Some(3));
    assert_eq!(t.remove("a"), None);
    assert!(!t.contains_key("a"));
    assert!(t.contains_key("b"));
    assert_eq!(t.len(), 1);
}

#[test]
fn sync_starts_accounts_that_can_trade() {
    let conf = G3Config {
        accounts: vec![
            acct("b1", "a1", "tcp://x"),
            acct("b1", "", "tcp://x"),
            acct("b2", "a2", ""),
            acct("b3", "a3", "tcp://y"),
            acct("b1", "a1", "tcp://z"),
        ],
    };
    let mut db: Database<u32> = Database::new(conf);
    let plan = db.sync_traders();
    assert_eq!(keys_of(&plan.start), vec!["b1:a1", "b3:a3"]);
    assert_eq!(plan.start[0].trade_front, "tcp://x");
    assert!(plan.stopped.is_empty());
    for (n, a) in plan.start.iter().enumerate() {
        db.add_trader(a, n as u32);
    }
    assert_eq!(db.trader("b3", "a3"), Some(&1));
    assert!(db.trader("b2", "a2").is_none());
    let again = db.sync_traders();
    assert!(again.start.is_empty());
    assert!(again.stopped.is_empty());
}

#[test]
fn sync_stops_traders_of_removed_accounts_only() {
    let conf = G3Config { accounts: vec![acct("b1", "a1", "tcp://x"), acct("b2", "a2", "tcp://x")] };
    let mut db: Database<&str> = Database::new(conf);
    let plan = db.sync_traders();
    for a in plan.start.iter() {
        db.add_trader(a, if a.account == "a1" { "one" } else { "two" });
    }
    // a2 can no longer trade but is still configured: its trader stays.
    db.conf.accounts[1].trade_front = String::new();
    let removed = db.conf.accounts.remove(0);
    assert_eq!(removed.account, "a1");
    let plan = db.sync_traders();
    assert!(plan.start.is_empty());
    assert_eq!(plan.stopped, vec!["one"]);
    assert!(db.trader("b1", "a1").is_none());
    assert_eq!(db.trader("b2", "a2"), Some(&"two"));
}

#[test]
fn account_rows_list_configuration_with_status() {
    let conf = G3Config { accounts: vec![acct("b1", "a1", "tcp://x"), acct("b2", "a2", "")] };
    let mut db: Database<Trader> = Database::new(conf);
    let plan = db.sync_traders();
    assert_eq!(plan.start.len(), 1);
    let mut trader = Trader::new(plan.start[0].duplicate());
    trader.handle_spi_msg(SpiMessage::RspAuthenticate {
        rsp_info: Some(RspInfo { error_id: 1, error_msg: "bad".to_string() }),
    });
    db.add_trader(&plan.start[0], trader);
    let rows = db.account_rows();
    assert_eq!(rows.len(), 2);
    let mut out = vec![];
    for (mut row, t) in rows {
        if let Some(t) = t {
            fill_account_status(&mut row, t);
        }
        out.push(row);
    }
    assert_eq!(out[0].broker_id, "b1");
    assert_eq!(out[0].status, CtaStatus::AuthenticateFailed);
    assert_eq!(out[0].status_description, "bad");
    assert_eq!(out[1].account, "a2");
    assert_eq!(out[1].status, CtaStatus::UnKown);
    assert_eq!(out[1].equity_bits, 0);
}

#[test]
fn add_account_checks_and_appends() {
    let mut conf = G3Config::default();
    assert_eq!(add_account(&mut conf, acct("b", "", "f")), Err(AddAccountError::EmptyAccount));
    assert_eq!(add_account(&mut conf, acct("", "a", "f")), Err(AddAccountError::EmptyBrokerId));
    assert_eq!(add_account(&mut conf, acct("b", "a", "f")), Ok(()));
    assert_eq!(add_account(&mut conf, acct("other", "a", "f")), Err(AddAccountError::AlreadyExists));
    assert_eq!(conf.accounts.len(), 1);
    assert_eq!(AddAccountError::EmptyAccount.message(), "账号不能为空");
    assert_eq!(AddAccountError::EmptyBrokerId.message(), "broker_id不能为空");
    assert_eq!(AddAccountError::AlreadyExists.message(), "账号已存在");
}

#[test]
fn delete_account_removes_matching_only() {
    let mut conf = G3Config {
        accounts: vec![acct("b", "a", "1"), acct("c", "a", "2"), acct("b", "x", "3"), acct("b", "a", "4")],
    };
    delete_account(&mut conf, "b", "a");
    let fronts: Vec<&str> = conf.accounts.iter().map(|a| a.trade_front.as_str()).collect();
    assert_eq!(fronts, vec!["2", "3"]);
}

#[test]
fn add_then_delete_restores() {
    let mut conf = G3Config { accounts: vec![acct("b", "a", "1"), acct("c", "d", "2")] };
    assert_eq!(add_account(&mut conf, acct("e", "f", "3")), Ok(()));
    delete_account(&mut conf, "e", "f");
    let names: Vec<&str> = conf.accounts.iter().map(|a| a.account.as_str()).collect();
    assert_eq!(names, vec!["a", "d"]);
}

#[test]
fn custom_command_reply() {
    let r = custom_response(some_other_function(), 8).unwrap();
    assert_eq!(r.message, "response");
    assert_eq!(r.other_val, 50);
    assert_eq!(custom_response(None, 1).unwrap_err(), "No result");
}
