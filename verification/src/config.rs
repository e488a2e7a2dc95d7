//! Settings: projects on the watch list, notification channels, the user's
//! choices for the engine, and the accounts kept with them.

use vstd::prelude::*;
use vstd::string::StringExecFns;
use crate::account::{find_account, has_uid, Account};
use crate::machine::RetryBudget;

verus! {

#[derive(Clone, Debug)]
pub struct Project {
    pub id: String,
    pub name: String,
    pub url: String,
    pub created_at: u64,
    pub updated_at: u64,
}

#[derive(Clone, Debug)]
pub struct GotifyConfig {
    pub gotify_url: String,
    pub gotify_token: String,
}

impl Default for GotifyConfig {
    fn default() -> (config: Self)
        ensures
            config.gotify_url@.len() == 0,
            config.gotify_token@.len() == 0,
    {
        GotifyConfig { gotify_url: String::new(), gotify_token: String::new() }
    }
}

#[derive(Clone, Debug)]
pub struct SmtpConfig {
    pub smtp_server: String,
    pub smtp_port: String,
    pub smtp_username: String,
    pub smtp_password: String,
    pub smtp_from: String,
    pub smtp_to: String,
}

impl Default for SmtpConfig {
    fn default() -> (config: Self)
        ensures
            config.smtp_server@.len() == 0,
            config.smtp_port@.len() == 0,
            config.smtp_username@.len() == 0,
            config.smtp_password@.len() == 0,
            config.smtp_from@.len() == 0,
            config.smtp_to@.len() == 0,
    {
        SmtpConfig {
            smtp_server: String::new(),
            smtp_port: String::new(),
            smtp_username: String::new(),
            smtp_password: String::new(),
            smtp_from: String::new(),
            smtp_to: String::new(),
        }
    }
}

/// Notification channels and their credentials.
#[derive(Clone, Debug)]
pub struct PushConfig {
    pub enabled: bool,
    pub enabled_methods: Vec<String>,
    pub bark_token: String,
    pub pushplus_token: String,
    pub fangtang_token: String,
    pub dingtalk_token: String,
    pub wechat_token: String,
    pub gotify_config: GotifyConfig,
    pub smtp_config: SmtpConfig,
}

/// The channels that are switched on in a fresh configuration.
pub open spec fn default_methods() -> Seq<Seq<char>> {
    seq!["bark"@, "pushplus"@, "fangtang"@, "dingtalk"@, "wechat"@, "smtp"@, "gotify"@]
}

impl Default for PushConfig {
    fn default() -> (config: Self)
        ensures
            !config.enabled,
            config.enabled_methods@.len() == 7,
            forall|i: int| 0 <= i < 7 ==> (#[trigger] config.enabled_methods@[i])@ == default_methods()[i],
            config.bark_token@.len() == 0,
            config.pushplus_token@.len() == 0,
            config.fangtang_token@.len() == 0,
            config.dingtalk_token@.len() == 0,
            config.wechat_token@.len() == 0,
            config.gotify_config.gotify_url@.len() == 0,
            config.gotify_config.gotify_token@.len() == 0,
            config.smtp_config.smtp_server@.len() == 0,
            config.smtp_config.smtp_port@.len() == 0,
            config.smtp_config.smtp_username@.len() == 0,
            config.smtp_config.smtp_password@.len() == 0,
            config.smtp_config.smtp_from@.len() == 0,
            config.smtp_config.smtp_to@.len() == 0,
    {
        let mut methods: Vec<String> = Vec::new();
        methods.push(String::from_str("bark"));
        methods.push(String::from_str("pushplus"));
        methods.push(String::from_str("fangtang"));
        methods.push(String::from_str("dingtalk"));
        methods.push(String::from_str("wechat"));
        methods.push(String::from_str("smtp"));
        methods.push(String::from_str("gotify"));
        PushConfig {
            enabled: false,
            enabled_methods: methods,
            bark_token: String::new(),
            pushplus_token: String::new(),
            fangtang_token: String::new(),
            dingtalk_token: String::new(),
            wechat_token: String::new(),
            gotify_config: GotifyConfig::default(),
            smtp_config: SmtpConfig::default(),
        }
    }
}

/// The user's choices for the engine.
#[derive(Clone, Debug)]
pub struct CustomConfig {
    pub open_custom_ua: bool,
    pub custom_ua: String,
    pub captcha_mode: usize,
    pub ttocr_key: String,
    pub preinput_phone1: String,
    pub preinput_phone2: String,
    pub max_token_retry: u8,
    pub max_confirm_retry: u8,
    pub max_fake_check_retry: u32,
    pub max_order_retry: u32,
    pub retry_interval_ms: u64,
}

pub const DEFAULT_MAX_TOKEN_RETRY: u8 = 5;

pub const DEFAULT_MAX_CONFIRM_RETRY: u8 = 4;

pub const DEFAULT_MAX_FAKE_CHECK_RETRY: u32 = 3;

pub const DEFAULT_MAX_ORDER_RETRY: u32 = 30;

pub const DEFAULT_RETRY_INTERVAL_MS: u64 = 400;

/// The user agent of a fresh configuration.
pub open spec fn default_custom_ua() -> Seq<char> {
    "Mozilla/5.0 (Linux; Android 6.0; Nexus 5 Build/MRA58N) AppleWebKit/537.36 (KHTML, like Gecko) Chrome/134.0.0.0 Mobile Safari/537.36"@
}

/// The retry budgets that a configuration asks for.
pub open spec fn retry_budget_spec(config: CustomConfig) -> RetryBudget {
    RetryBudget {
        max_token_retry: config.max_token_retry as u32,
        max_confirm_retry: config.max_confirm_retry as u32,
        max_order_retry: config.max_order_retry,
        max_fake_check_retry: config.max_fake_check_retry,
        retry_interval_ms: config.retry_interval_ms,
    }
}

impl Default for CustomConfig {
    fn default() -> (config: Self)
        ensures
            config.open_custom_ua,
            config.custom_ua@ == default_custom_ua(),
            config.captcha_mode == 0,
            config.ttocr_key@.len() == 0,
            config.preinput_phone1@.len() == 0,
            config.preinput_phone2@.len() == 0,
            retry_budget_spec(config) == (RetryBudget {
                max_token_retry: 5,
                max_confirm_retry: 4,
                max_order_retry: 30,
                max_fake_check_retry: 3,
                retry_interval_ms: 400,
            }),
    {
        CustomConfig {
            open_custom_ua: true,
            custom_ua: String::from_str(
                "Mozilla/5.0 (Linux; Android 6.0; Nexus 5 Build/MRA58N) AppleWebKit/537.36 (KHTML, like Gecko) Chrome/134.0.0.0 Mobile Safari/537.36",
            ),
            captcha_mode: 0,
            ttocr_key: String::new(),
            preinput_phone1: String::new(),
            preinput_phone2: String::new(),
            max_token_retry: DEFAULT_MAX_TOKEN_RETRY,
            max_confirm_retry: DEFAULT_MAX_CONFIRM_RETRY,
            max_fake_check_retry: DEFAULT_MAX_FAKE_CHECK_RETRY,
            max_order_retry: DEFAULT_MAX_ORDER_RETRY,
            retry_interval_ms: DEFAULT_RETRY_INTERVAL_MS,
        }
    }
}

impl CustomConfig {
    /// The retry budgets that this configuration asks for.
    pub fn retry_budget(&self) -> (budget: RetryBudget)
        ensures
            budget == retry_budget_spec(*self),
    {
        RetryBudget {
            max_token_retry: self.max_token_retry as u32,
            max_confirm_retry: self.max_confirm_retry as u32,
            max_order_retry: self.max_order_retry,
            max_fake_check_retry: self.max_fake_check_retry,
            retry_interval_ms: self.retry_interval_ms,
        }
    }
}

pub open spec fn default_delay_time_spec() -> u64 {
    2
}

pub open spec fn default_max_attempts_spec() -> u64 {
    100
}

/// Seconds between two status refreshes unless the user says otherwise.
pub fn default_delay_time() -> (seconds: u64)
    ensures
        seconds == default_delay_time_spec(),
{
    2
}

/// Attempts per job unless the user says otherwise.
pub fn default_max_attempts() -> (attempts: u64)
    ensures
        attempts == default_max_attempts_spec(),
{
    100
}

/// Everything that is kept between runs.
#[derive(Clone, Debug)]
pub struct BtrConfig {
    pub accounts: Vec<Account>,
    pub projects: Vec<Project>,
    pub push_config: PushConfig,
    pub custom_config: CustomConfig,
    pub grab_mode: u8,
    pub delay_time: u64,
    pub max_attempts: u64,
    /// Granted permissions, as JSON text.
    pub permissions: String,
    pub skip_words: Option<Vec<String>>,
}

impl Default for BtrConfig {
    fn default() -> (config: Self)
        ensures
            config.accounts@.len() == 0,
            config.projects@.len() == 0,
            config.grab_mode == 0,
            config.delay_time == default_delay_time_spec(),
            config.max_attempts == default_max_attempts_spec(),
            config.permissions@ == "null"@,
            config.skip_words is None,
            !config.push_config.enabled,
            config.push_config.enabled_methods@.len() == 7,
            config.custom_config.open_custom_ua,
            config.custom_config.custom_ua@ == default_custom_ua(),
            retry_budget_spec(config.custom_config) == (RetryBudget {
                max_token_retry: 5,
                max_confirm_retry: 4,
                max_order_retry: 30,
                max_fake_check_retry: 3,
                retry_interval_ms: 400,
            }),
    {
        BtrConfig {
            accounts: Vec::new(),
            projects: Vec::new(),
            push_config: PushConfig::default(),
            custom_config: CustomConfig::default(),
            grab_mode: 0,
            delay_time: default_delay_time(),
            max_attempts: default_max_attempts(),
            permissions: String::from_str("null"),
            skip_words: None,
        }
    }
}

/// Whether two configurations differ in their accounts at most.
pub open spec fn same_but_accounts(before: BtrConfig, after: BtrConfig) -> bool {
    &&& after.projects == before.projects
    &&& after.push_config == before.push_config
    &&& after.custom_config == before.custom_config
    &&& after.grab_mode == before.grab_mode
    &&& after.delay_time == before.delay_time
    &&& after.max_attempts == before.max_attempts
    &&& after.permissions == before.permissions
    &&& after.skip_words == before.skip_words
}

/// The accounts without those of the given user id, in their old order.
pub open spec fn without_uid(accounts: Seq<Account>, uid: i64) -> Seq<Account> {
    accounts.filter(|a: Account| a.uid != uid)
}

impl BtrConfig {
    /// Adds an account unless one with its user id is there already.
    pub fn add_account(&mut self, account: Account)
        ensures
            has_uid(old(self).accounts@, account.uid) ==> final(self).accounts@ == old(self).accounts@,
            !has_uid(old(self).accounts@, account.uid) ==> final(self).accounts@ == old(
                self,
            ).accounts@.push(account),
            same_but_accounts(*old(self), *final(self)),
    {
        if find_account(&self.accounts, account.uid).is_none() {
            self.accounts.push(account);
        }
    }

    /// The accounts on file.
    pub fn load_accounts(&self) -> (accounts: &Vec<Account>)
        ensures
            accounts == &self.accounts,
    {
        &self.accounts
    }

    /// Replaces the first account that has the given account's user id.
    /// Answers whether there was one.
    pub fn update_account(&mut self, account: &Account) -> (updated: bool)
        ensures
            updated == has_uid(old(self).accounts@, account.uid),
            !updated ==> final(self).accounts@ == old(self).accounts@,
            updated ==> exists|i: int|
                0 <= i < old(self).accounts@.len() && old(self).accounts@[i].uid == account.uid && (
                forall|j: int| 0 <= j < i ==> old(self).accounts@[j].uid != account.uid)
                    && final(self).accounts@ == old(self).accounts@.update(i, *account),
            same_but_accounts(*old(self), *final(self)),
    {
        match find_account(&self.accounts, account.uid) {
            Some(i) => {
                self.accounts.set(i, account.clone());
                true
            },
            None => false,
        }
    }

    /// Removes every account with the given user id and answers whether any
    /// was removed. Saving the change is left to the caller.
    pub fn delete_account(&mut self, uid: i64) -> (removed: bool)
        ensures
            final(self).accounts@ == without_uid(old(self).accounts@, uid),
            removed == has_uid(old(self).accounts@, uid),
            same_but_accounts(*old(self), *final(self)),
    {
        let mut kept: Vec<Account> = Vec::new();
        let mut removed = false;
        let mut i: usize = 0;
        while i < self.accounts.len()
            invariant
                i <= self.accounts.len(),
                *self == *old(self),
                kept@ == without_uid(self.accounts@.subrange(0, i as int), uid),
                removed == has_uid(self.accounts@.subrange(0, i as int), uid),
            decreases self.accounts.len() - i,
        {
            proof {
                let before = self.accounts@.subrange(0, i as int);
                let after = self.accounts@.subrange(0, i + 1);
                assert(after.drop_last() =~= before);
                assert(after.last() == self.accounts@[i as int]);
                reveal(Seq::filter);
                if has_uid(before, uid) {
                    let k = choose|k: int| 0 <= k < before.len() && before[k].uid == uid;
                    assert(after[k].uid == uid);
                }
                if self.accounts@[i as int].uid == uid {
                    assert(after[i as int].uid == uid);
                }
                if has_uid(after, uid) && self.accounts@[i as int].uid != uid {
                    let k = choose|k: int| 0 <= k < after.len() && after[k].uid == uid;
                    assert(before[k].uid == uid);
                }
            }
            if self.accounts[i].uid == uid {
                removed = true;
            } else {
                kept.push(self.accounts[i].clone());
            }
            i += 1;
        }
        proof {
            assert(self.accounts@.subrange(0, i as int) =~= self.accounts@);
        }
        self.accounts = kept;
        removed
    }
}

} // verus!
