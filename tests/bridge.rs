use op_bridge::context::{BuildArch, BuildOs, Context, Flags, HostInfo, LogLevel};
use op_bridge::isolate::{init, Isolate};
use op_bridge::metrics::{Metrics, MetricsSnapshot};
use op_bridge::ops::{op_start, OpOutput};
use op_bridge::registry::{DispatchError, OpHandler, OpMode, OpRegistry, RegistryError};

fn context(log_level: Option<LogLevel>, use_color: bool) -> Context {
    Context {
        flags: Flags {
            argv: vec!["main.ts".to_string(), "--quiet".to_string()],
            repl: false,
            log_level,
            version: true,
        },
        main_module: "file:///home/user/main.ts".to_string(),
        host: HostInfo {
            cwd: "/home/user".to_string(),
            pid: 4242,
            v8_version: "8.1.310".to_string(),
            deno_version: "0.36.0".to_string(),
            ts_version: "3.8.3".to_string(),
            use_color,
            os: BuildOs::Linux,
            arch: BuildArch::X64,
        },
    }
}

fn ready() -> Isolate {
    let mut i = Isolate::new(context(None, true));
    assert_eq!(init(&mut i), Ok(()));
    i
}

fn counters(i: &Isolate) -> MetricsSnapshot {
    i.metrics()
}

#[test]
fn start_then_metrics_counts_only_finished_calls() {
    let mut i = ready();
    let r = i.dispatch("start", b"{}", None);
    assert!(matches!(r, Ok(OpOutput::Start(_))));
    assert!(i.complete(120));
    match i.dispatch("metrics", b"{}", None) {
        Ok(OpOutput::Metrics(m)) => {
            assert_eq!(m.ops_dispatched, 2);
            assert_eq!(m.ops_completed, 1);
            assert_eq!(m.bytes_sent_control, 2);
            assert_eq!(m.bytes_sent_data, 0);
            assert_eq!(m.bytes_received, 120);
        }
        _ => panic!("metrics op did not answer with counters"),
    }
    assert!(i.complete(90));
    let m = counters(&i);
    assert_eq!(m.ops_dispatched, 2);
    assert_eq!(m.ops_completed, 2);
    assert_eq!(m.bytes_sent_control, 4);
    assert_eq!(m.bytes_received, 210);
}

#[test]
fn start_reports_context() {
    let mut i = Isolate::new(context(Some(LogLevel::Debug), false));
    init(&mut i).unwrap();
    match i.dispatch("start", b"{}", None) {
        Ok(OpOutput::Start(s)) => {
            assert_eq!(s.cwd, "/home/user");
            assert_eq!(s.pid, 4242);
            assert_eq!(s.args, vec!["main.ts".to_string(), "--quiet".to_string()]);
            assert!(!s.repl);
            assert_eq!(s.location, "file:///home/user/main.ts");
            assert!(s.debug_flag);
            assert!(s.version_flag);
            assert_eq!(s.v8_version, "8.1.310");
            assert_eq!(s.deno_version, "0.36.0");
            assert_eq!(s.ts_version, "3.8.3");
            assert!(s.no_color);
            assert_eq!(s.os.name(), "linux");
            assert_eq!(s.arch.name(), "x64");
        }
        _ => panic!("start op did not answer with its report"),
    }
}

#[test]
fn debug_flag_only_at_debug_level() {
    for (level, expected) in [
        (None, false),
        (Some(LogLevel::Info), false),
        (Some(LogLevel::Trace), false),
        (Some(LogLevel::Debug), true),
    ] {
        let s = op_start(&context(level, true));
        assert_eq!(s.debug_flag, expected);
        assert!(!s.no_color);
    }
}

#[test]
fn platform_names_are_fixed() {
    assert_eq!(BuildOs::Mac.name(), "mac");
    assert_eq!(BuildOs::Linux.name(), "linux");
    assert_eq!(BuildOs::Win.name(), "win");
    assert_eq!(BuildArch::X64.name(), "x64");
}

#[test]
fn duplicate_registration_keeps_first() {
    let mut r = OpRegistry::new();
    assert_eq!(r.register("start", OpHandler::Start, OpMode::Sync), Ok(()));
    assert_eq!(
        r.register("start", OpHandler::Metrics, OpMode::Async),
        Err(RegistryError::DuplicateOp)
    );
    assert_eq!(r.resolve("start"), Ok((OpHandler::Start, OpMode::Sync)));
    assert_eq!(r.resolve("metrics"), Err(DispatchError::UnknownOp));
}

#[test]
fn init_twice_is_duplicate() {
    let mut i = ready();
    assert_eq!(init(&mut i), Err(RegistryError::DuplicateOp));
    assert_eq!(i.registry.resolve("start"), Ok((OpHandler::Start, OpMode::Sync)));
    assert_eq!(i.registry.resolve("metrics"), Ok((OpHandler::Metrics, OpMode::Sync)));
}

#[test]
fn unknown_op_is_rejected_repeatably() {
    let mut i = ready();
    for n in 1..=3u64 {
        assert_eq!(i.dispatch("bogus", b"{}", Some(&[1, 2, 3])).err(), Some(DispatchError::UnknownOp));
        assert!(!i.complete(50));
        assert_eq!(
            counters(&i),
            MetricsSnapshot {
                ops_dispatched: n,
                ops_completed: n,
                bytes_sent_control: 0,
                bytes_sent_data: 0,
                bytes_received: 0,
            }
        );
    }
}

#[test]
fn malformed_request_is_encoding_error() {
    let mut i = ready();
    assert_eq!(i.dispatch("start", b"{", None).err(), Some(DispatchError::EncodingError));
    assert_eq!(i.dispatch("metrics", b"", None).err(), Some(DispatchError::EncodingError));
    let m = counters(&i);
    assert_eq!(m.ops_dispatched, 2);
    assert_eq!(m.ops_completed, 2);
    assert_eq!(m.bytes_sent_control, 0);
    assert!(i.dispatch("metrics", b"null", None).is_ok());
}

#[test]
fn raw_buffer_adds_its_length() {
    let mut i = ready();
    let buf = [7u8; 300];
    assert!(i.dispatch("start", b"{\"a\":1}", Some(&buf)).is_ok());
    assert!(i.complete(64));
    let m = counters(&i);
    assert_eq!(m.bytes_sent_data, 300);
    assert_eq!(m.bytes_sent_control, 7);
    assert!(i.dispatch("start", b"{}", Some(&buf[..5])).is_ok());
    assert!(i.complete(64));
    assert_eq!(counters(&i).bytes_sent_data, 305);
}

#[test]
fn snapshots_never_decrease() {
    let mut i = ready();
    let mut last = counters(&i);
    let calls: [(&str, &[u8]); 5] = [
        ("start", b"{}"),
        ("bogus", b"{}"),
        ("metrics", b"["),
        ("metrics", b"[]"),
        ("start", b"{}"),
    ];
    for (name, control) in calls {
        let _ = i.dispatch(name, control, Some(&[0, 1]));
        let now = counters(&i);
        assert!(now.ops_completed <= now.ops_dispatched);
        i.complete(10);
        let after = counters(&i);
        for (x, y) in [(last, now), (now, after)] {
            assert!(x.ops_dispatched <= y.ops_dispatched);
            assert!(x.ops_completed <= y.ops_completed);
            assert!(x.bytes_sent_control <= y.bytes_sent_control);
            assert!(x.bytes_sent_data <= y.bytes_sent_data);
            assert!(x.bytes_received <= y.bytes_received);
        }
        assert!(after.ops_completed <= after.ops_dispatched);
        last = after;
    }
    assert_eq!(last.ops_dispatched, 5);
    assert_eq!(last.ops_completed, 5);
}

#[test]
fn completion_without_dispatch_is_ignored() {
    let mut i = ready();
    assert!(!i.complete(10));
    assert_eq!(counters(&i).ops_completed, 0);
    let mut m = Metrics::new();
    assert!(!m.op_completed(1, 2, 3));
    m.op_dispatched();
    assert!(m.op_completed(1, 2, 3));
    assert_eq!(
        m.snapshot(),
        MetricsSnapshot {
            ops_dispatched: 1,
            ops_completed: 1,
            bytes_sent_control: 1,
            bytes_sent_data: 2,
            bytes_received: 3,
        }
    );
}
