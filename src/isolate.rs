use vstd::prelude::*;
use crate::context::Context;
use crate::metrics::{after_completion, after_dispatch, counters_le, sat_add, Metrics, MetricsSnapshot};
use crate::ops::{op_metrics, op_start, start_matches, OpOutput};
use crate::registry::{
    register_model, resolve_model, DispatchError, OpHandler, OpMode, OpRegistry, RegistryError,
};

verus! {

/// Whether the bytes hold one well-formed JSON value.
pub uninterp spec fn json_well_formed(b: Seq<u8>) -> bool;

/// Relies on `serde_json::from_slice`: it succeeds exactly when the bytes
/// parse as a single JSON value, and depends on the bytes alone.
#[verifier::external_body]
fn control_is_json(b: &[u8]) -> (r: bool)
    ensures
        r == json_well_formed(b@),
{
    serde_json::from_slice::<serde_json::Value>(b).is_ok()
}

/// Length of the optional raw buffer, zero when there is none.
pub open spec fn data_len(zero_copy: Option<&[u8]>) -> u64 {
    match zero_copy {
        Some(b) => b@.len() as u64,
        None => 0,
    }
}

/// `o` is what handler `h` produces on context `ctx` while the counters
/// read `m`.
pub open spec fn output_matches(o: OpOutput, h: OpHandler, ctx: Context, m: MetricsSnapshot) -> bool {
    match (h, o) {
        (OpHandler::Start, OpOutput::Start(s)) => start_matches(s, ctx),
        (OpHandler::Metrics, OpOutput::Metrics(s)) => s == m,
        _ => false,
    }
}

/// One embedded script environment: its op registry, the context its
/// handlers read, its counters, and the dispatch awaiting completion.
pub struct Isolate {
    pub registry: OpRegistry,
    pub context: Context,
    pub metrics: Metrics,
    /// Request and raw-buffer byte counts of the dispatch whose response has
    /// not yet been handed back.
    pub pending: Option<(u64, u64)>,
}

/// The effect of one dispatch of `name` from `a` to `b`, returning `r`, where
/// `control_ok` tells whether the request bytes were well-formed JSON.
/// A rejected call (unknown name, malformed request) reaches its terminal
/// state at once and moves no byte counter; an accepted one runs its handler
/// and waits for `complete` with its byte counts.
pub open spec fn dispatch_post(
    a: Isolate,
    b: Isolate,
    name: Seq<char>,
    control_ok: bool,
    control: Seq<u8>,
    zero_copy: Option<&[u8]>,
    r: Result<OpOutput, DispatchError>,
) -> bool {
    let started = after_dispatch(a.metrics@);
    &&& b.registry == a.registry
    &&& b.context == a.context
    &&& match resolve_model(a.registry@, name) {
        Err(e) => {
            &&& r == Err::<OpOutput, DispatchError>(e)
            &&& b.metrics@ == after_completion(started, 0, 0, 0)
            &&& b.pending is None
        },
        Ok((h, _)) => if !control_ok {
            &&& r == Err::<OpOutput, DispatchError>(DispatchError::EncodingError)
            &&& b.metrics@ == after_completion(started, 0, 0, 0)
            &&& b.pending is None
        } else {
            &&& r matches Ok(o) && output_matches(o, h, a.context, started)
            &&& b.metrics@ == started
            &&& b.pending == Some((control.len() as u64, data_len(zero_copy)))
        },
    }
}

/// The effect of handing back a response of `received` bytes, from `a` to
/// `b`, returning `r`.
pub open spec fn complete_post(a: Isolate, b: Isolate, received: u64, r: bool) -> bool {
    &&& b.registry == a.registry
    &&& b.context == a.context
    &&& b.pending is None
    &&& match a.pending {
        Some((control, data)) => {
            &&& b.metrics@ == after_completion(a.metrics@, control, data, received)
            &&& r == (a.metrics@.ops_completed < a.metrics@.ops_dispatched)
        },
        None => {
            &&& b.metrics@ == a.metrics@
            &&& !r
        },
    }
}

impl Isolate {
    pub open spec fn wf(&self) -> bool {
        self.registry.wf() && self.metrics.wf()
    }

    /// A fresh isolate with no ops and all counters at zero.
    pub fn new(context: Context) -> (r: Isolate)
        ensures
            r.wf(),
            r.registry@ == Map::<Seq<char>, (OpHandler, OpMode)>::empty(),
            r.context == context,
            r.pending is None,
            r.metrics@ == (MetricsSnapshot {
                ops_dispatched: 0,
                ops_completed: 0,
                bytes_sent_control: 0,
                bytes_sent_data: 0,
                bytes_received: 0,
            }),
    {
        Isolate { registry: OpRegistry::new(), context, metrics: Metrics::new(), pending: None }
    }

    /// Reads the counters; safe to call between any two dispatches.
    pub fn metrics(&self) -> (r: MetricsSnapshot)
        requires
            self.wf(),
        ensures
            r == self.metrics@,
            r.ops_completed <= r.ops_dispatched,
    {
        self.metrics.snapshot()
    }

    /// Dispatches `name` given whether its request bytes `control` were
    /// well-formed JSON, with an optional raw buffer.
    pub fn dispatch_parsed(
        &mut self,
        name: &str,
        control_ok: bool,
        control: &[u8],
        zero_copy: Option<&[u8]>,
    ) -> (r: Result<OpOutput, DispatchError>)
        requires
            old(self).wf(),
        ensures
            final(self).wf(),
            counters_le(old(self).metrics@, final(self).metrics@),
            dispatch_post(*old(self), *final(self), name@, control_ok, control@, zero_copy, r),
    {
        self.metrics.op_dispatched();
        let (handler, _mode) = match self.registry.resolve(name) {
            Ok(found) => found,
            Err(e) => {
                self.metrics.op_completed(0, 0, 0);
                self.pending = None;
                return Err(e);
            },
        };
        if !control_ok {
            self.metrics.op_completed(0, 0, 0);
            self.pending = None;
            return Err(DispatchError::EncodingError);
        }
        let out = match handler {
            OpHandler::Start => OpOutput::Start(op_start(&self.context)),
            OpHandler::Metrics => OpOutput::Metrics(op_metrics(&self.metrics)),
        };
        let data: u64 = match zero_copy {
            Some(b) => b.len() as u64,
            None => 0,
        };
        self.pending = Some((control.len() as u64, data));
        Ok(out)
    }

    /// Dispatches `name` with JSON request bytes `control` and an optional raw
    /// buffer.
    pub fn dispatch(&mut self, name: &str, control: &[u8], zero_copy: Option<&[u8]>) -> (r: Result<
        OpOutput,
        DispatchError,
    >)
        requires
            old(self).wf(),
        ensures
            final(self).wf(),
            counters_le(old(self).metrics@, final(self).metrics@),
            dispatch_post(
                *old(self),
                *final(self),
                name@,
                json_well_formed(control@),
                control@,
                zero_copy,
                r,
            ),
    {
        let control_ok = control_is_json(control);
        self.dispatch_parsed(name, control_ok, control, zero_copy)
    }

    /// Records the terminal outcome of the pending dispatch, whose response
    /// took `response_len` bytes. Returns whether a completion was recorded.
    pub fn complete(&mut self, response_len: u64) -> (r: bool)
        requires
            old(self).wf(),
        ensures
            final(self).wf(),
            counters_le(old(self).metrics@, final(self).metrics@),
            complete_post(*old(self), *final(self), response_len, r),
    {
        match self.pending {
            Some((control, data)) => {
                self.pending = None;
                self.metrics.op_completed(control, data, response_len)
            },
            None => false,
        }
    }
}

/// Registers `start` and `metrics` as synchronous ops.
pub fn init(i: &mut Isolate) -> (r: Result<(), RegistryError>)
    requires
        old(i).wf(),
    ensures
        final(i).wf(),
        final(i).context == old(i).context,
        final(i).metrics@ == old(i).metrics@,
        final(i).pending == old(i).pending,
        !old(i).registry@.contains_key("start"@) && !old(i).registry@.contains_key("metrics"@) ==> {
            &&& r == Ok::<(), RegistryError>(())
            &&& final(i).registry@ == old(i).registry@.insert("start"@, (OpHandler::Start, OpMode::Sync)).insert(
                "metrics"@,
                (OpHandler::Metrics, OpMode::Sync),
            )
        },
        ({
            let (r1, a) = register_model(old(i).registry@, "start"@, OpHandler::Start, OpMode::Sync);
            let (r2, b) = register_model(a, "metrics"@, OpHandler::Metrics, OpMode::Sync);
            if r1 is Err {
                r == r1 && final(i).registry@ == a
            } else {
                r == r2 && final(i).registry@ == b
            }
        }),
{
    proof {
        reveal_strlit("start");
        reveal_strlit("metrics");
        assert("start"@.len() != "metrics"@.len());
    }
    match i.registry.register("start", OpHandler::Start, OpMode::Sync) {
        Ok(()) => i.registry.register("metrics", OpHandler::Metrics, OpMode::Sync),
        Err(e) => Err(e),
    }
}

/// Dispatching a name that no op is registered under is rejected with
/// `UnknownOp`; it leaves the registry, the context and every byte counter
/// as they were, and only adds one to the dispatched and completed counts.
pub proof fn lemma_unknown_op_rejected(
    a: Isolate,
    b: Isolate,
    name: Seq<char>,
    control_ok: bool,
    control: Seq<u8>,
    zero_copy: Option<&[u8]>,
    r: Result<OpOutput, DispatchError>,
)
    requires
        a.wf(),
        !a.registry@.contains_key(name),
        a.metrics@.ops_dispatched < u64::MAX,
        dispatch_post(a, b, name, control_ok, control, zero_copy, r),
    ensures
        r == Err::<OpOutput, DispatchError>(DispatchError::UnknownOp),
        b.registry == a.registry,
        b.context == a.context,
        b.pending is None,
        b.metrics@ == (MetricsSnapshot {
            ops_dispatched: (a.metrics@.ops_dispatched + 1) as u64,
            ops_completed: (a.metrics@.ops_completed + 1) as u64,
            ..a.metrics@
        }),
{
}

/// A call carrying a raw buffer, once dispatched and completed, adds exactly
/// the buffer's length to the raw-buffer byte count, and no counter goes
/// down.
pub proof fn lemma_raw_buffer_counted(
    a: Isolate,
    b: Isolate,
    c: Isolate,
    name: Seq<char>,
    control: Seq<u8>,
    zero_copy: Option<&[u8]>,
    out: Result<OpOutput, DispatchError>,
    received: u64,
    done: bool,
)
    requires
        a.wf(),
        a.registry@.contains_key(name),
        a.metrics@.ops_dispatched < u64::MAX,
        a.metrics@.bytes_sent_data + data_len(zero_copy) <= u64::MAX,
        dispatch_post(a, b, name, true, control, zero_copy, out),
        complete_post(b, c, received, done),
    ensures
        done,
        c.metrics@.bytes_sent_data == a.metrics@.bytes_sent_data + data_len(zero_copy),
        counters_le(a.metrics@, c.metrics@),
{
}

} // verus!
