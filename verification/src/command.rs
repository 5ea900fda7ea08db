//! What the front end's commands decide: adding and deleting configured accounts, the blank
//! account offered for a new entry, and the sample command's reply.
use vstd::prelude::*;
use vstd::string::*;
use crate::config::{G3Config, TradingAccount};

verus! {

/// Why an account is not added.
#[derive(Debug, Clone, Copy, PartialEq, Eq, Structural)]
pub enum AddAccountError {
    /// The account name is empty.
    EmptyAccount,
    /// The broker id is empty.
    EmptyBrokerId,
    /// An account of that name is configured already.
    AlreadyExists,
}

impl AddAccountError {
    /// The message shown for the error.
    pub fn message(&self) -> (m: String)
        ensures
            *self == AddAccountError::EmptyAccount ==> m@ == "账号不能为空"@,
            *self == AddAccountError::EmptyBrokerId ==> m@ == "broker_id不能为空"@,
            *self == AddAccountError::AlreadyExists ==> m@ == "账号已存在"@,
    {
        match self {
            AddAccountError::EmptyAccount => String::from_str("账号不能为空"),
            AddAccountError::EmptyBrokerId => String::from_str("broker_id不能为空"),
            AddAccountError::AlreadyExists => String::from_str("账号已存在"),
        }
    }
}

/// Some configured account has the account name `name`.
pub open spec fn has_account(accounts: Seq<TradingAccount>, name: Seq<char>) -> bool {
    exists|i: int| 0 <= i < accounts.len() && #[trigger] accounts[i].account@ == name
}

/// An account is kept by a deletion of `broker_id:account` unless it has both.
pub open spec fn kept_by_delete(broker_id: Seq<char>, account: Seq<char>) -> spec_fn(TradingAccount) -> bool {
    |ta: TradingAccount| !(ta.account@ == account && ta.broker_id@ == broker_id)
}

/// A blank account, offered for a new entry.
pub fn default_account() -> (a: TradingAccount)
    ensures
        a.is_blank(),
{
    TradingAccount::default()
}

/// Adds `account` at the end of the configuration, unless its account name or broker id is
/// empty, or an account of that name is configured already (whatever its broker).
pub fn add_account(conf: &mut G3Config, account: TradingAccount) -> (r: Result<(), AddAccountError>)
    ensures
        account.account@.len() == 0 ==> r == Err::<(), AddAccountError>(AddAccountError::EmptyAccount),
        account.account@.len() > 0 && account.broker_id@.len() == 0
            ==> r == Err::<(), AddAccountError>(AddAccountError::EmptyBrokerId),
        account.account@.len() > 0 && account.broker_id@.len() > 0 && has_account(old(conf).accounts@, account.account@)
            ==> r == Err::<(), AddAccountError>(AddAccountError::AlreadyExists),
        r is Ok <==> (account.account@.len() > 0 && account.broker_id@.len() > 0
            && !has_account(old(conf).accounts@, account.account@)),
        r is Ok ==> final(conf).accounts@ == old(conf).accounts@.push(account),
        r is Err ==> final(conf).accounts@ == old(conf).accounts@,
{
    if account.account.as_str().is_empty() {
        return Err(AddAccountError::EmptyAccount);
    } else if account.broker_id.as_str().is_empty() {
        return Err(AddAccountError::EmptyBrokerId);
    }
    let mut i: usize = 0;
    while i < conf.accounts.len()
        invariant
            i <= conf.accounts@.len(),
            conf.accounts@ == old(conf).accounts@,
            account.account@.len() > 0,
            account.broker_id@.len() > 0,
            forall|j: int| 0 <= j < i ==> #[trigger] conf.accounts@[j].account@ != account.account@,
        decreases conf.accounts@.len() - i,
    {
        if conf.accounts[i].account.eq(&account.account) {
            assert(conf.accounts@[i as int].account@ == account.account@);
            return Err(AddAccountError::AlreadyExists);
        }
        i = i + 1;
    }
    conf.accounts.push(account);
    Ok(())
}

/// Removes every configured account with both this broker id and this account name,
/// keeping the others in order.
pub fn delete_account(conf: &mut G3Config, broker_id: &str, account: &str)
    ensures
        final(conf).accounts@ == old(conf).accounts@.filter(kept_by_delete(broker_id@, account@)),
{
    let broker = String::from_str(broker_id);
    let name = String::from_str(account);
    let ghost pred = kept_by_delete(broker_id@, account@);
    let ghost all = conf.accounts@;
    let mut kept: Vec<TradingAccount> = Vec::new();
    let mut i: usize = 0;
    while i < conf.accounts.len()
        invariant
            i <= all.len(),
            conf.accounts@ == all,
            broker@ == broker_id@,
            name@ == account@,
            pred == kept_by_delete(broker_id@, account@),
            kept@ == all.take(i as int).filter(pred),
        decreases all.len() - i,
    {
        let ta = &conf.accounts[i];
        proof {
            let t1 = all.take(i + 1);
            assert(t1.drop_last() =~= all.take(i as int));
            assert(t1.last() == all[i as int]);
            reveal(Seq::filter);
        }
        if !(ta.account.eq(&name) && ta.broker_id.eq(&broker)) {
            kept.push(ta.duplicate());
        }
        i = i + 1;
    }
    proof {
        assert(all.take(all.len() as int) =~= all);
    }
    conf.accounts = kept;
}

/// Adding an account and then deleting it by its broker id and account name gives back the
/// accounts there were before.
pub proof fn law_add_then_delete(accounts: Seq<TradingAccount>, a: TradingAccount)
    requires
        !has_account(accounts, a.account@),
    ensures
        accounts.push(a).filter(kept_by_delete(a.broker_id@, a.account@)) == accounts,
    decreases accounts.len(),
{
    let pred = kept_by_delete(a.broker_id@, a.account@);
    lemma_filter_keeps_all(accounts, pred);
    reveal(Seq::filter);
    assert(accounts.push(a).drop_last() =~= accounts);
}

proof fn lemma_filter_keeps_all(s: Seq<TradingAccount>, pred: spec_fn(TradingAccount) -> bool)
    requires
        forall|i: int| 0 <= i < s.len() ==> pred(#[trigger] s[i]),
    ensures
        s.filter(pred) == s,
    decreases s.len(),
{
    reveal(Seq::filter);
    if s.len() > 0 {
        let p = s.drop_last();
        assert forall|i: int| 0 <= i < p.len() implies pred(#[trigger] p[i]) by {
            assert(p[i] == s[i]);
        }
        lemma_filter_keeps_all(p, pred);
        assert(pred(s[s.len() - 1]));
        assert(p.push(s.last()) =~= s);
    }
}

/// An account is refused as a duplicate exactly when some configured account's name equals
/// its name; a name that differs from every configured name is no duplicate.
pub proof fn law_duplicate_means_equal_name(accounts: Seq<TradingAccount>, name: Seq<char>)
    ensures
        has_account(accounts, name) <==> exists|i: int| 0 <= i < accounts.len() && #[trigger] accounts[i].account@ == name,
        (forall|i: int| 0 <= i < accounts.len() ==> #[trigger] accounts[i].account@ != name) ==> !has_account(accounts, name),
{
}

/// A deletion keeps an account exactly when its account name or its broker id differs from
/// the ones given.
pub proof fn law_delete_keeps(broker_id: Seq<char>, account: Seq<char>, ta: TradingAccount)
    ensures
        kept_by_delete(broker_id, account)(ta) <==> (ta.account@ != account || ta.broker_id@ != broker_id),
{
}

/// After a deletion no account has both the given broker id and account name, and every
/// account that lacks one of them is still there.
pub proof fn law_delete_removes_exactly(accounts: Seq<TradingAccount>, broker_id: Seq<char>, account: Seq<char>)
    ensures
        forall|j: int| 0 <= j < accounts.filter(kept_by_delete(broker_id, account)).len()
            ==> !((#[trigger] accounts.filter(kept_by_delete(broker_id, account))[j]).account@ == account
                && accounts.filter(kept_by_delete(broker_id, account))[j].broker_id@ == broker_id),
        forall|i: int| 0 <= i < accounts.len() && !(accounts[i].account@ == account && accounts[i].broker_id@ == broker_id)
            ==> accounts.filter(kept_by_delete(broker_id, account)).contains(#[trigger] accounts[i]),
{
    let pred = kept_by_delete(broker_id, account);
    assert forall|j: int| 0 <= j < accounts.filter(pred).len()
        implies pred(#[trigger] accounts.filter(pred)[j]) by {
        accounts.lemma_filter_pred(pred, j);
    }
    assert forall|i: int| 0 <= i < accounts.len() && pred(accounts[i])
        implies accounts.filter(pred).contains(#[trigger] accounts[i]) by {
        accounts.lemma_filter_contains(pred, i);
    }
}

/// The reply of the sample command.
#[derive(Debug, Clone)]
pub struct CustomResponse {
    pub message: String,
    pub other_val: usize,
}

/// A message pushed to the front end.
#[derive(Debug, Clone)]
pub struct Payload {
    pub message: String,
}

/// The sample command's data source: always the text `response`.
pub fn some_other_function() -> (r: Option<String>)
    ensures
        r matches Some(s) && s@ == "response"@,
{
    Some(String::from_str("response"))
}

/// The sample command's reply: the message with `42 + number`, or `No result` when
/// there is no message.
pub fn custom_response(result: Option<String>, number: usize) -> (r: Result<CustomResponse, String>)
    requires
        number + 42 <= usize::MAX,
    ensures
        match result {
            Some(m) => r matches Ok(c) && c.message == m && c.other_val == 42 + number,
            None => r matches Err(e) && e@ == "No result"@,
        },
{
    match result {
        Some(message) => Ok(CustomResponse { message, other_val: 42 + number }),
        None => Err(String::from_str("No result")),
    }
}

} // verus!
