//! Notification channels: which are in use, and how the outcome of a round
//! over all of them is summed up.

use vstd::prelude::*;
use vstd::string::StringExecFns;
use crate::config::PushConfig;
use crate::text::{decimal_spec, decimal_u64, join, joined, joined_with, views_of};

verus! {

/// Whether a channel is switched on by name.
pub open spec fn is_enabled_spec(methods: Seq<String>, name: Seq<char>) -> bool {
    exists|i: int| 0 <= i < methods.len() && (#[trigger] methods[i])@ == name
}

/// Whether a channel is used: it is switched on and has its credential.
pub open spec fn is_channel_used(config: PushConfig, name: Seq<char>, credential: Seq<char>) -> bool {
    is_enabled_spec(config.enabled_methods@, name) && credential.len() > 0
}

/// The summary of a round: a success if any channel got through, else a
/// failure that lists what went wrong.
pub open spec fn summary_spec(succeeded: u64, failed: u64, failures: Seq<String>) -> (bool, Seq<char>) {
    if succeeded == 0 {
        (
            false,
            decimal_spec(succeeded as int) + " 成功 / "@ + decimal_spec(failed as int)
                + " 失败。失败详情: "@ + joined_with(views_of(failures), "; "@),
        )
    } else {
        (true, decimal_spec(succeeded as int) + " 个渠道推送成功"@)
    }
}

impl PushConfig {
    /// Says whether a channel is switched on by name.
    pub fn is_enabled(&self, name: &str) -> (enabled: bool)
        ensures
            enabled == is_enabled_spec(self.enabled_methods@, name@),
    {
        let mut i: usize = 0;
        while i < self.enabled_methods.len()
            invariant
                i <= self.enabled_methods.len(),
                forall|j: int| 0 <= j < i ==> (#[trigger] self.enabled_methods@[j])@ != name@,
            decreases self.enabled_methods.len() - i,
        {
            if *self.enabled_methods[i].as_str() == *name {
                return true;
            }
            i += 1;
        }
        false
    }

    /// Says whether a channel is used.
    pub fn uses_channel(&self, name: &str, credential: &str) -> (used: bool)
        ensures
            used == is_channel_used(*self, name@, credential@),
    {
        self.is_enabled(name) && credential.unicode_len() > 0
    }
}

/// Sums up a round over all channels.
pub fn push_summary(succeeded: u64, failed: u64, failures: &Vec<String>) -> (summary: (bool, String))
    ensures
        summary.0 == summary_spec(succeeded, failed, failures@).0,
        summary.1@ == summary_spec(succeeded, failed, failures@).1,
{
    if succeeded == 0 {
        let a = joined(decimal_u64(succeeded), " 成功 / ");
        let count = decimal_u64(failed);
        let b = joined(a, count.as_str());
        let c = joined(b, " 失败。失败详情: ");
        let list = join(failures, "; ");
        (false, joined(c, list.as_str()))
    } else {
        (true, joined(decimal_u64(succeeded), " 个渠道推送成功"))
    }
}

} // verus!
