//! The records that travel between a client and the service.

use vstd::prelude::*;

verus! {

/// A compiler or interpreter that the service offers.
#[derive(Debug, PartialEq)]
pub struct Language {
    pub id: usize,
    pub name: String,
    pub is_archived: Option<bool>,
    pub source_file: Option<String>,
    pub compile_cmd: Option<String>,
    pub run_cmd: Option<String>,
}

/// The state of a submission, as the service names it. The identifiers are
/// the service's own and are passed through as they come.
#[derive(Debug, PartialEq)]
pub struct Status {
    pub id: usize,
    pub description: String,
}

/// What the service says of itself.
#[derive(Debug, PartialEq)]
pub struct About {
    pub version: String,
    pub homepage: String,
    pub source_code: String,
    pub maintainer: String,
}

/// The load of one execution queue at one moment.
#[derive(Debug, PartialEq)]
pub struct Worker {
    pub queue: String,
    pub size: usize,
    pub available: usize,
    pub idle: usize,
    pub working: usize,
    pub paused: usize,
    pub failed: usize,
}

/// A quantity with a fractional part (seconds, kilobytes), held as the 64
/// bits of its IEEE 754 double-precision form. The library carries such a
/// quantity and never computes with it.
#[derive(Clone, Copy, Debug, PartialEq, Eq)]
pub struct Decimal {
    pub bits: u64,
}

impl Decimal {
    /// The quantity with the given bits.
    pub fn from_bits(bits: u64) -> (quantity: Decimal)
        ensures
            quantity.bits == bits,
    {
        Decimal { bits }
    }

    /// The bits of the quantity.
    pub fn to_bits(&self) -> (bits: u64)
        ensures
            bits == self.bits,
    {
        self.bits
    }
}

/// A moment in universal time: the whole seconds since the start of 1970 and
/// the nanoseconds beyond them.
#[derive(Clone, Copy, Debug, PartialEq, Eq)]
pub struct Timestamp {
    pub seconds: i64,
    pub nanoseconds: u32,
}

/// A program handed to the service, with the limits under which it is to run
/// and, once the service has run it, the outcome.
///
/// Only the source and the language are always there. A client sets the
/// fields down to `callback_url`; the service fills in the rest when a
/// submission is read back.
#[derive(Debug, PartialEq)]
pub struct Submission {
    /// The program's source code.
    pub source_code: String,
    /// The identifier of the language the program is written in.
    pub language_id: usize,
    /// Options for the compiler.
    pub compiler_options: Option<String>,
    /// Command line arguments for the program.
    pub command_line_arguments: Option<String>,
    /// Standard input for the program.
    pub stdin: Option<String>,
    /// What the program should print, to compare its output with.
    pub expected_output: Option<String>,
    /// Limit on the processor time, in seconds.
    pub cpu_time_limit: Option<Decimal>,
    /// Time granted beyond the limit before the program is killed, in seconds.
    pub cpu_extra_time: Option<Decimal>,
    /// Limit on the wall-clock time, in seconds.
    pub wall_time_limit: Option<Decimal>,
    /// Limit on the address space, in kilobytes.
    pub memory_limit: Option<Decimal>,
    /// Limit on the process stack, in kilobytes.
    pub stack_limit: Option<usize>,
    /// How many processes and threads the program may create.
    pub max_processes_and_or_threads: Option<usize>,
    /// Whether the time limit holds for each process and thread by itself.
    pub enable_per_process_and_thread_time_limit: Option<bool>,
    /// Whether the memory limit holds for each process and thread by itself.
    pub enable_per_process_and_thread_memory_limit: Option<bool>,
    /// Limit on the size of a file the program writes, in kilobytes.
    pub max_file_size: Option<usize>,
    /// Whether standard error is sent to standard output.
    pub redirect_stderr_to_stdout: Option<bool>,
    /// Whether the program may use the network.
    pub enable_network: Option<bool>,
    /// How often the program is run, time and memory being averaged.
    pub number_of_runs: Option<usize>,
    /// The content of a zip archive with files to put beside the source.
    pub additional_files: Option<String>,
    /// Address that the service calls once the submission is done.
    pub callback_url: Option<String>,
    /// What the program wrote to standard output.
    pub stdout: Option<String>,
    /// What the program wrote to standard error.
    pub stderr: Option<String>,
    /// What the compiler wrote.
    pub compile_output: Option<String>,
    /// A message of the service or of its sandbox.
    pub message: Option<String>,
    /// The program's exit code.
    pub exit_code: Option<i64>,
    /// The signal that ended the program.
    pub exit_signal: Option<i64>,
    /// The state of the submission.
    pub status: Option<Status>,
    /// When the submission was created.
    pub created_at: Option<Timestamp>,
    /// When the submission was done.
    pub finished_at: Option<Timestamp>,
    /// The token under which the service knows the submission.
    pub token: Option<String>,
    /// The program's run time, in seconds.
    pub time: Option<Decimal>,
    /// The program's wall-clock time, in seconds.
    pub wall_time: Option<Decimal>,
    /// The memory the program used, in kilobytes.
    pub memory: Option<Decimal>,
}

impl Submission {
    /// The submission without what only the service fills in: the fields
    /// that a client sets are kept, the others are not set.
    pub open spec fn inputs(self) -> Submission {
        Submission {
            stdout: None,
            stderr: None,
            compile_output: None,
            message: None,
            exit_code: None,
            exit_signal: None,
            status: None,
            created_at: None,
            finished_at: None,
            token: None,
            time: None,
            wall_time: None,
            memory: None,
            ..self
        }
    }

    /// Whether, of the fields that a client sets, only the source and the
    /// language are set.
    pub open spec fn is_minimal(self) -> bool {
        &&& self.compiler_options is None
        &&& self.command_line_arguments is None
        &&& self.stdin is None
        &&& self.expected_output is None
        &&& self.cpu_time_limit is None
        &&& self.cpu_extra_time is None
        &&& self.wall_time_limit is None
        &&& self.memory_limit is None
        &&& self.stack_limit is None
        &&& self.max_processes_and_or_threads is None
        &&& self.enable_per_process_and_thread_time_limit is None
        &&& self.enable_per_process_and_thread_memory_limit is None
        &&& self.max_file_size is None
        &&& self.redirect_stderr_to_stdout is None
        &&& self.enable_network is None
        &&& self.number_of_runs is None
        &&& self.additional_files is None
        &&& self.callback_url is None
    }

    /// Whether nothing beyond the source and the language is set.
    pub open spec fn is_bare(self) -> bool {
        self.is_minimal() && self.inputs() == self
    }
}

impl Default for Status {
    fn default() -> (status: Status)
        ensures
            status.id == 0,
            status.description@.len() == 0,
    {
        Status { id: 0, description: String::new() }
    }
}

impl Default for About {
    fn default() -> (about: About)
        ensures
            about.version@.len() == 0,
            about.homepage@.len() == 0,
            about.source_code@.len() == 0,
            about.maintainer@.len() == 0,
    {
        About {
            version: String::new(),
            homepage: String::new(),
            source_code: String::new(),
            maintainer: String::new(),
        }
    }
}

impl Default for Worker {
    fn default() -> (worker: Worker)
        ensures
            worker.queue@.len() == 0,
            worker.size == 0,
            worker.available == 0,
            worker.idle == 0,
            worker.working == 0,
            worker.paused == 0,
            worker.failed == 0,
    {
        Worker {
            queue: String::new(),
            size: 0,
            available: 0,
            idle: 0,
            working: 0,
            paused: 0,
            failed: 0,
        }
    }
}

impl Default for Submission {
    fn default() -> (submission: Submission)
        ensures
            submission.source_code@.len() == 0,
            submission.language_id == 0,
            submission.is_bare(),
    {
        Submission {
            source_code: String::new(),
            language_id: 0,
            compiler_options: None,
            command_line_arguments: None,
            stdin: None,
            expected_output: None,
            cpu_time_limit: None,
            cpu_extra_time: None,
            wall_time_limit: None,
            memory_limit: None,
            stack_limit: None,
            max_processes_and_or_threads: None,
            enable_per_process_and_thread_time_limit: None,
            enable_per_process_and_thread_memory_limit: None,
            max_file_size: None,
            redirect_stderr_to_stdout: None,
            enable_network: None,
            number_of_runs: None,
            additional_files: None,
            callback_url: None,
            stdout: None,
            stderr: None,
            compile_output: None,
            message: None,
            exit_code: None,
            exit_signal: None,
            status: None,
            created_at: None,
            finished_at: None,
            token: None,
            time: None,
            wall_time: None,
            memory: None,
        }
    }
}

} // verus!
