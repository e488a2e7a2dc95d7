//! Log collectors: bounded buffers of log lines that a reader empties from
//! time to time.

use vstd::prelude::*;
use crate::text::{occurs_in, str_contains};

verus! {

/// A collector never holds more lines than this.
pub const LOG_CAPACITY: usize = 5000;

/// A full collector drops this many of its oldest lines to make room.
pub const LOG_DROP: usize = 1000;

/// The lines after one more was added: a full buffer first drops its oldest
/// lines.
pub open spec fn logs_after_add(logs: Seq<String>, message: String) -> Seq<String> {
    if logs.len() >= LOG_CAPACITY {
        logs.subrange(LOG_DROP as int, logs.len() as int).push(message)
    } else {
        logs.push(message)
    }
}

fn add_line(logs: &mut Vec<String>, message: String)
    ensures
        final(logs)@ == logs_after_add(old(logs)@, message),
{
    if logs.len() >= LOG_CAPACITY {
        let kept = logs.split_off(LOG_DROP);
        *logs = kept;
    }
    logs.push(message);
}

fn take_lines(logs: &mut Vec<String>) -> (taken: Option<Vec<String>>)
    ensures
        final(logs)@.len() == 0,
        old(logs)@.len() == 0 <==> taken is None,
        taken matches Some(lines) ==> lines@ == old(logs)@,
{
    if logs.len() == 0 {
        return None;
    }
    let mut lines: Vec<String> = Vec::new();
    std::mem::swap(logs, &mut lines);
    Some(lines)
}

/// Collects the lines of the system log.
pub struct LogCollector {
    pub logs: Vec<String>,
}

impl LogCollector {
    pub fn new() -> (collector: Self)
        ensures
            collector.logs@.len() == 0,
    {
        LogCollector { logs: Vec::new() }
    }

    /// Adds a line. A collector that holds 5000 lines drops its oldest 1000
    /// first.
    pub fn add(&mut self, message: String)
        ensures
            final(self).logs@ == logs_after_add(old(self).logs@, message),
    {
        add_line(&mut self.logs, message);
    }

    /// Hands out all lines, oldest first, and empties the collector. There
    /// is nothing to hand out from an empty collector.
    pub fn get_logs(&mut self) -> (taken: Option<Vec<String>>)
        ensures
            final(self).logs@.len() == 0,
            old(self).logs@.len() == 0 <==> taken is None,
            taken matches Some(lines) ==> lines@ == old(self).logs@,
    {
        take_lines(&mut self.logs)
    }

    /// Empties the collector.
    pub fn clear_logs(&mut self)
        ensures
            final(self).logs@.len() == 0,
    {
        self.logs.clear();
    }
}

/// Collects the lines of the log that concern ticket acquisition.
pub struct GrabLogCollector {
    pub logs: Vec<String>,
}

impl GrabLogCollector {
    pub fn new() -> (collector: Self)
        ensures
            collector.logs@.len() == 0,
    {
        GrabLogCollector { logs: Vec::new() }
    }

    /// Adds a line. A collector that holds 5000 lines drops its oldest 1000
    /// first.
    pub fn add(&mut self, message: String)
        ensures
            final(self).logs@ == logs_after_add(old(self).logs@, message),
    {
        add_line(&mut self.logs, message);
    }

    /// Hands out all lines, oldest first, and empties the collector. There
    /// is nothing to hand out from an empty collector.
    pub fn get_logs(&mut self) -> (taken: Option<Vec<String>>)
        ensures
            final(self).logs@.len() == 0,
            old(self).logs@.len() == 0 <==> taken is None,
            taken matches Some(lines) ==> lines@ == old(self).logs@,
    {
        take_lines(&mut self.logs)
    }

    /// Empties the collector.
    pub fn clear_logs(&mut self)
        ensures
            final(self).logs@.len() == 0,
    {
        self.logs.clear();
    }
}

/// A collector stays within its capacity: adding to one that holds at most
/// 5000 lines leaves it with at most 5000.
pub proof fn collector_stays_bounded(logs: Seq<String>, message: String)
    requires
        logs.len() <= LOG_CAPACITY,
    ensures
        logs_after_add(logs, message).len() <= LOG_CAPACITY,
        logs_after_add(logs, message).last() == message,
        logs.len() < LOG_CAPACITY ==> logs_after_add(logs, message).drop_last() == logs,
{
    if logs.len() < LOG_CAPACITY {
        assert(logs.push(message).drop_last() =~= logs);
    }
}

/// Whether a log line concerns ticket acquisition: it holds one of the words
/// by which such lines are known.
pub open spec fn is_grab_related_spec(line: Seq<char>) -> bool {
    ||| occurs_in("抢票"@, line)
    ||| occurs_in("token"@, line)
    ||| occurs_in("订单"@, line)
    ||| occurs_in("验证码"@, line)
    ||| occurs_in("倒计时"@, line)
    ||| occurs_in("项目"@, line)
    ||| occurs_in("场次"@, line)
    ||| occurs_in("购票人"@, line)
    ||| occurs_in("下单"@, line)
    ||| occurs_in("重试"@, line)
    ||| occurs_in("失败"@, line)
    ||| occurs_in("成功"@, line)
    ||| occurs_in("二维码"@, line)
    ||| occurs_in("短信"@, line)
    ||| occurs_in("登录"@, line)
}

/// Says whether a log line concerns ticket acquisition.
pub fn is_grab_related(line: &str) -> (related: bool)
    ensures
        related == is_grab_related_spec(line@),
{
    str_contains(line, "抢票") || str_contains(line, "token") || str_contains(line, "订单")
        || str_contains(line, "验证码") || str_contains(line, "倒计时") || str_contains(line, "项目")
        || str_contains(line, "场次") || str_contains(line, "购票人") || str_contains(line, "下单")
        || str_contains(line, "重试") || str_contains(line, "失败") || str_contains(line, "成功")
        || str_contains(line, "二维码") || str_contains(line, "短信") || str_contains(line, "登录")
}

} // verus!
