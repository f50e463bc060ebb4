use vstd::prelude::*;

verus! {

/// The three descriptor numbers that a launched process uses as its
/// standard input, output and error.
#[derive(Debug, Clone, Copy, PartialEq, Eq, Structural)]
pub struct Stdio {
    stdin: i32,
    stdout: i32,
    stderr: i32,
}

/// The descriptor structure that the native process-creation call reads:
/// standard input, output and error, in this order.
#[derive(Debug, Clone, Copy, PartialEq, Eq, Structural)]
pub struct StdioFds {
    pub stdin_fd: i32,
    pub stdout_fd: i32,
    pub stderr_fd: i32,
}

/// The native descriptor structure that carries the descriptors of `s`.
pub open spec fn fds_of(s: Stdio) -> StdioFds {
    StdioFds { stdin_fd: s.input(), stdout_fd: s.output(), stderr_fd: s.error() }
}

impl Stdio {
    /// The standard input descriptor.
    pub closed spec fn input(&self) -> i32 {
        self.stdin
    }

    /// The standard output descriptor.
    pub closed spec fn output(&self) -> i32 {
        self.stdout
    }

    /// The standard error descriptor.
    pub closed spec fn error(&self) -> i32 {
        self.stderr
    }

    /// Redirects the standard streams of a process to existing descriptors.
    pub fn new(stdin: i32, stdout: i32, stderr: i32) -> (r: Stdio)
        ensures
            r.input() == stdin,
            r.output() == stdout,
            r.error() == stderr,
    {
        Stdio { stdin, stdout, stderr }
    }

    /// The native descriptor structure for these descriptors.
    pub fn to_api(&self) -> (r: StdioFds)
        ensures
            r == fds_of(*self),
    {
        StdioFds { stdin_fd: self.stdin, stdout_fd: self.stdout, stderr_fd: self.stderr }
    }

    /// The standard input descriptor.
    pub fn stdin(&self) -> (r: i32)
        ensures
            r == self.input(),
    {
        self.stdin
    }

    /// The standard output descriptor.
    pub fn stdout(&self) -> (r: i32)
        ensures
            r == self.output(),
    {
        self.stdout
    }

    /// The standard error descriptor.
    pub fn stderr(&self) -> (r: i32)
        ensures
            r == self.error(),
    {
        self.stderr
    }
}

impl Default for Stdio {
    /// The process's own standard streams: 0, 1 and 2.
    fn default() -> (r: Stdio)
        ensures
            r.input() == 0,
            r.output() == 1,
            r.error() == 2,
    {
        Stdio { stdin: 0, stdout: 1, stderr: 2 }
    }
}

/// Building descriptors with `new(a, b, c)` and turning them into the native
/// structure gives back `a`, `b` and `c` in their fields, in order.
pub proof fn lemma_stdio_round_trip(a: i32, b: i32, c: i32, s: Stdio)
    requires
        s.input() == a && s.output() == b && s.error() == c,
    ensures
        fds_of(s).stdin_fd == a,
        fds_of(s).stdout_fd == b,
        fds_of(s).stderr_fd == c,
{
}

} // verus!
