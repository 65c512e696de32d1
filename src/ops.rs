use vstd::prelude::*;
use crate::context::{BuildArch, BuildOs, Context, LogLevel};
use crate::metrics::{Metrics, MetricsSnapshot};

verus! {

/// Result of the `start` op.
pub struct StartInfo {
    pub cwd: String,
    pub pid: u32,
    pub args: Vec<String>,
    pub repl: bool,
    pub location: String,
    pub debug_flag: bool,
    pub version_flag: bool,
    pub v8_version: String,
    pub deno_version: String,
    pub ts_version: String,
    pub no_color: bool,
    pub os: BuildOs,
    pub arch: BuildArch,
}

/// What a handler hands back to the calling script.
pub enum OpOutput {
    Start(StartInfo),
    Metrics(MetricsSnapshot),
}

/// `s` is what `start` reports for `ctx`.
pub open spec fn start_matches(s: StartInfo, ctx: Context) -> bool {
    &&& s.cwd@ == ctx.host.cwd@
    &&& s.pid == ctx.host.pid
    &&& s.args@ == ctx.flags.argv@
    &&& s.repl == ctx.flags.repl
    &&& s.location@ == ctx.main_module@
    &&& s.debug_flag == (ctx.flags.log_level == Some(LogLevel::Debug))
    &&& s.version_flag == ctx.flags.version
    &&& s.v8_version@ == ctx.host.v8_version@
    &&& s.deno_version@ == ctx.host.deno_version@
    &&& s.ts_version@ == ctx.host.ts_version@
    &&& s.no_color == !ctx.host.use_color
    &&& s.os == ctx.host.os
    &&& s.arch == ctx.host.arch
}

/// Reports the host process, its flags and its build platform.
pub fn op_start(ctx: &Context) -> (r: StartInfo)
    ensures
        start_matches(r, *ctx),
{
    let debug_flag = match ctx.flags.log_level {
        Some(LogLevel::Debug) => true,
        _ => false,
    };
    let args = ctx.flags.argv.clone();
    assert(args@ =~= ctx.flags.argv@);
    StartInfo {
        cwd: ctx.host.cwd.clone(),
        pid: ctx.host.pid,
        args,
        repl: ctx.flags.repl,
        location: ctx.main_module.clone(),
        debug_flag,
        version_flag: ctx.flags.version,
        v8_version: ctx.host.v8_version.clone(),
        deno_version: ctx.host.deno_version.clone(),
        ts_version: ctx.host.ts_version.clone(),
        no_color: !ctx.host.use_color,
        os: ctx.host.os,
        arch: ctx.host.arch,
    }
}

/// Reports the five counters.
pub fn op_metrics(m: &Metrics) -> (r: MetricsSnapshot)
    requires
        m.wf(),
    ensures
        r == m@,
        r.ops_completed <= r.ops_dispatched,
{
    m.snapshot()
}

} // verus!
