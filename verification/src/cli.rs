use vstd::prelude::*;

verus! {

/// The command line: the monitor's network diagnostics.
#[derive(Debug, Clone, PartialEq, Eq)]
pub struct Cli {
    pub command: Command,
}

/// What the monitor is asked to do.
#[derive(Debug, Clone, PartialEq, Eq)]
pub enum Command {
    /// Run the monitor with the configuration file `config`.
    Start { config: String },
    /// Write the default configuration to `output`, overwriting it when
    /// `force`, or only print it when `show`.
    GenerateConfig { output: String, force: bool, show: bool },
    /// Read the log `log` and write it out in `format`.
    ProcessLog { log: String, format: OutputFormat },
}

/// How a processed log is written out.
#[derive(Debug, Clone, Copy, PartialEq, Eq, Structural)]
pub enum OutputFormat {
    Csv,
    Console,
}

} // verus!
