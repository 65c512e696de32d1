use vstd::prelude::*;

verus! {

/// Severity threshold of the host's logger.
#[derive(Clone, Copy, Debug, PartialEq, Eq, Structural)]
pub enum LogLevel {
    Error,
    Warn,
    Info,
    Debug,
    Trace,
}

/// Operating system the host was built for.
#[derive(Clone, Copy, Debug, PartialEq, Eq, Structural)]
pub enum BuildOs {
    Mac,
    Linux,
    Win,
}

/// Processor architecture the host was built for.
#[derive(Clone, Copy, Debug, PartialEq, Eq, Structural)]
pub enum BuildArch {
    X64,
}

pub open spec fn os_name(os: BuildOs) -> Seq<char> {
    match os {
        BuildOs::Mac => "mac"@,
        BuildOs::Linux => "linux"@,
        BuildOs::Win => "win"@,
    }
}

pub open spec fn arch_name(arch: BuildArch) -> Seq<char> {
    match arch {
        BuildArch::X64 => "x64"@,
    }
}

impl BuildOs {
    /// The name scripts see: one of `mac`, `linux`, `win`.
    pub fn name(&self) -> (r: &'static str)
        ensures
            r@ == os_name(*self),
            r@ == "mac"@ || r@ == "linux"@ || r@ == "win"@,
    {
        match self {
            BuildOs::Mac => "mac",
            BuildOs::Linux => "linux",
            BuildOs::Win => "win",
        }
    }
}

impl BuildArch {
    /// The name scripts see: `x64`.
    pub fn name(&self) -> (r: &'static str)
        ensures
            r@ == arch_name(*self),
            r@ == "x64"@,
    {
        match self {
            BuildArch::X64 => "x64",
        }
    }
}

/// Command-line settings the host was started with.
pub struct Flags {
    pub argv: Vec<String>,
    pub repl: bool,
    pub log_level: Option<LogLevel>,
    pub version: bool,
}

/// Facts about the host process and build, gathered by the embedder.
pub struct HostInfo {
    /// Normalized absolute working directory.
    pub cwd: String,
    pub pid: u32,
    pub v8_version: String,
    pub deno_version: String,
    pub ts_version: String,
    pub use_color: bool,
    pub os: BuildOs,
    pub arch: BuildArch,
}

/// Per-isolate data that handlers read.
pub struct Context {
    pub flags: Flags,
    pub main_module: String,
    pub host: HostInfo,
}

} // verus!
