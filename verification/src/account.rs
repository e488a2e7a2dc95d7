//! A platform account as the engine knows it.

use vstd::prelude::*;

verus! {

#[derive(Debug)]
pub struct Account {
    pub uid: i64,
    pub name: String,
    pub level: String,
    pub cookie: String,
    pub csrf: String,
    pub is_login: bool,
    pub account_status: String,
    pub vip_label: String,
    pub vip_type: i32,
    pub vip_status: i32,
    /// Whether the account takes part in ticket acquisition.
    pub is_active: bool,
    pub avatar_url: Option<String>,
}

impl Clone for Account {
    fn clone(&self) -> (copy: Self)
        ensures
            copy == *self,
    {
        Account {
            uid: self.uid,
            name: self.name.clone(),
            level: self.level.clone(),
            cookie: self.cookie.clone(),
            csrf: self.csrf.clone(),
            is_login: self.is_login,
            account_status: self.account_status.clone(),
            vip_label: self.vip_label.clone(),
            vip_type: self.vip_type,
            vip_status: self.vip_status,
            is_active: self.is_active,
            avatar_url: match &self.avatar_url {
                Some(url) => Some(url.clone()),
                None => None,
            },
        }
    }
}

/// Whether an account holds an active premium membership.
pub open spec fn is_vip_spec(account: Account) -> bool {
    account.vip_status == 1
}

impl Account {
    /// Whether the account holds an active premium membership.
    pub fn is_vip(&self) -> (vip: bool)
        ensures
            vip == is_vip_spec(*self),
    {
        self.vip_status == 1
    }
}

/// Whether some account has the given user id.
pub open spec fn has_uid(accounts: Seq<Account>, uid: i64) -> bool {
    exists|i: int| 0 <= i < accounts.len() && accounts[i].uid == uid
}

/// Finds the first account with the given user id.
pub fn find_account(accounts: &Vec<Account>, uid: i64) -> (found: Option<usize>)
    ensures
        found is Some <==> has_uid(accounts@, uid),
        found matches Some(i) ==> i < accounts.len() && accounts[i as int].uid == uid && forall|
            j: int,
        | 0 <= j < i ==> accounts[j].uid != uid,
{
    let mut i: usize = 0;
    while i < accounts.len()
        invariant
            i <= accounts.len(),
            forall|j: int| 0 <= j < i ==> accounts[j].uid != uid,
        decreases accounts.len() - i,
    {
        if accounts[i].uid == uid {
            return Some(i);
        }
        i += 1;
    }
    None
}

} // verus!
