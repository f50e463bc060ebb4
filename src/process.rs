use vstd::prelude::*;
use vstd::string::StringSliceAdditionalSpecFns;
use crate::error::Error;
use crate::marshal::CStringsVec;
use crate::path::{base_name, file_name};
use crate::stdio::{fds_of, StdioFds, Stdio};
use crate::text::{any_has_nul, has_nul, strings_bytes, texts_view, validate_all, CText};

verus! {

/// The exit status of a process.
pub type ExitCode = i32;

/// The signal number that `kill` sends: unconditional termination.
pub const KILL_SIGNAL: i32 = 9;

/// The signal number that `terminate` sends.
pub const TERMINATE_SIGNAL: i32 = 16;

/// The UTF-8 bytes of each element of an optional list of strings.
pub open spec fn opt_strings(v: Option<&[String]>) -> Option<Seq<Seq<u8>>> {
    match v {
        Some(a) => Some(strings_bytes(a@)),
        None => None,
    }
}

/// The argument list of a process specification: the given one, or else a
/// single entry holding the file name of the path.
pub open spec fn effective_argv(path: Seq<u8>, argv: Option<Seq<Seq<u8>>>) -> Seq<Seq<u8>> {
    match argv {
        Some(a) => a,
        None => seq![file_name(path)],
    }
}

/// The environment of a process specification: the given one, or else empty.
pub open spec fn effective_env(env: Option<Seq<Seq<u8>>>) -> Seq<Seq<u8>> {
    match env {
        Some(e) => e,
        None => Seq::empty(),
    }
}

/// The error that validating a process specification gives, in the order in
/// which the parts are checked: the path, the arguments, their count, the
/// environment. `None` when the specification is valid.
pub open spec fn builder_error(
    path: Seq<u8>,
    argv: Option<Seq<Seq<u8>>>,
    env: Option<Seq<Seq<u8>>>,
) -> Option<Error> {
    if has_nul(path) {
        Some(Error::CStringError)
    } else if argv matches Some(a) && any_has_nul(a) {
        Some(Error::CStringError)
    } else if argv matches Some(a) && a.len() == 0 {
        Some(Error::ArgumentsError)
    } else if env matches Some(e) && any_has_nul(e) {
        Some(Error::CStringError)
    } else {
        None
    }
}

/// A specification whose path, arguments or environment holds a null byte is
/// rejected with `CStringError`; the one exception is an explicit empty
/// argument list, whose `ArgumentsError` is found before the environment is
/// looked at.
pub proof fn lemma_null_byte_rejected(
    path: Seq<u8>,
    argv: Option<Seq<Seq<u8>>>,
    env: Option<Seq<Seq<u8>>>,
)
    requires
        has_nul(path) || (argv matches Some(a) && any_has_nul(a)) || (env matches Some(e)
            && any_has_nul(e) && !(argv matches Some(a) && a.len() == 0)),
    ensures
        builder_error(path, argv, env) == Some(Error::CStringError),
{
}

/// An explicit empty argument list is rejected with `ArgumentsError`,
/// whatever the environment, for any path that holds no null byte.
pub proof fn lemma_empty_argv_rejected(path: Seq<u8>, env: Option<Seq<Seq<u8>>>)
    requires
        !has_nul(path),
    ensures
        builder_error(path, Some(Seq::empty()), env) == Some(Error::ArgumentsError),
{
}

/// Without an explicit argument list, a valid path gives a valid
/// specification whose single argument is the file name of the path.
pub proof fn lemma_default_argv(path: Seq<u8>, env: Option<Seq<Seq<u8>>>)
    requires
        !has_nul(path),
        !(env matches Some(e) && any_has_nul(e)),
    ensures
        builder_error(path, None, env) is None,
        effective_argv(path, None) == seq![file_name(path)],
{
}

/// A validated process specification: executable path, arguments (at least
/// one), environment and optional descriptor redirection.
#[derive(Debug, PartialEq, Eq)]
pub struct ProcessBuilder {
    path: CText,
    argv: Vec<CText>,
    env: Vec<CText>,
    stdio: Option<Stdio>,
}

/// Everything the native process-creation call reads, in owned storage: the
/// null-terminated path, the marshaled arguments and environment, and the
/// descriptor structure.
#[derive(Debug)]
pub struct ProcessApi {
    pub path: Vec<u8>,
    pub argv: CStringsVec,
    pub env: CStringsVec,
    pub stdio: StdioFds,
}

impl ProcessBuilder {
    #[verifier::type_invariant]
    closed spec fn inv(&self) -> bool {
        self.argv@.len() >= 1
    }

    /// The bytes of the executable path.
    pub closed spec fn path_view(&self) -> Seq<u8> {
        self.path@
    }

    /// The bytes of each argument.
    pub closed spec fn argv_view(&self) -> Seq<Seq<u8>> {
        texts_view(self.argv@)
    }

    /// The bytes of each environment entry.
    pub closed spec fn env_view(&self) -> Seq<Seq<u8>> {
        texts_view(self.env@)
    }

    /// The descriptor redirection, if any.
    pub closed spec fn stdio_view(&self) -> Option<Stdio> {
        self.stdio
    }

    /// Validates a process specification. Without `argv`, the arguments are
    /// the file name of `path` alone; without `env`, the environment is
    /// empty. Fails as `builder_error` states.
    pub fn new(
        path: &str,
        argv: Option<&[String]>,
        env: Option<&[String]>,
        stdio: Option<Stdio>,
    ) -> (r: Result<ProcessBuilder, Error>)
        ensures
            r matches Err(e) ==> builder_error(path.spec_bytes(), opt_strings(argv), opt_strings(env))
                == Some(e),
            r matches Ok(b) ==> {
                &&& builder_error(path.spec_bytes(), opt_strings(argv), opt_strings(env)) is None
                &&& b.path_view() == path.spec_bytes()
                &&& b.argv_view().len() >= 1
                &&& b.argv_view() == effective_argv(path.spec_bytes(), opt_strings(argv))
                &&& b.env_view() == effective_env(opt_strings(env))
                &&& b.stdio_view() == stdio
            },
    {
        let path_text = CText::new(path)?;
        let argv_texts: Vec<CText> = match argv {
            None => {
                let name = base_name(path.as_bytes());
                let prog = match CText::from_bytes(name.as_slice()) {
                    Ok(t) => t,
                    Err(_) => {
                        proof {
                            assert(false);
                        }
                        CText::empty()
                    },
                };
                let v = vec![prog];
                assert(texts_view(v@) =~= seq![file_name(path.spec_bytes())]);
                v
            },
            Some(a) => validate_all(a)?,
        };
        if argv_texts.len() == 0 {
            return Err(Error::ArgumentsError);
        }
        let env_texts: Vec<CText> = match env {
            None => {
                let v: Vec<CText> = Vec::new();
                assert(texts_view(v@) =~= Seq::<Seq<u8>>::empty());
                v
            },
            Some(e) => validate_all(e)?,
        };
        Ok(ProcessBuilder { path: path_text, argv: argv_texts, env: env_texts, stdio })
    }

    /// The executable path.
    pub fn path(&self) -> (r: &CText)
        ensures
            r@ == self.path_view(),
    {
        &self.path
    }

    /// The arguments; there is at least one.
    pub fn argv(&self) -> (r: &Vec<CText>)
        ensures
            texts_view(r@) == self.argv_view(),
            r@.len() >= 1,
    {
        proof {
            use_type_invariant(self);
        }
        &self.argv
    }

    /// The environment entries.
    pub fn env(&self) -> (r: &Vec<CText>)
        ensures
            texts_view(r@) == self.env_view(),
    {
        &self.env
    }

    /// The descriptor redirection, if any.
    pub fn stdio(&self) -> (r: Option<Stdio>)
        ensures
            r == self.stdio_view(),
    {
        self.stdio
    }

    /// Marshals the specification for the native process-creation call; the
    /// descriptors default to the process's own standard streams.
    pub fn to_api(self) -> (r: ProcessApi)
        ensures
            self.argv_view().len() >= 1,
            r.path@ == self.path_view().push(0u8),
            r.argv.marshals(self.argv_view()),
            r.env.marshals(self.env_view()),
            r.stdio == match self.stdio_view() {
                Some(s) => fds_of(s),
                None => StdioFds { stdin_fd: 0, stdout_fd: 1, stderr_fd: 2 },
            },
    {
        proof {
            use_type_invariant(&self);
        }
        let stdio = match self.stdio {
            Some(s) => s.to_api(),
            None => Stdio::default().to_api(),
        };
        let path = self.path.to_bytes_with_nul();
        let argv = CStringsVec::from_texts(self.argv);
        let env = CStringsVec::from_texts(self.env);
        ProcessApi { path, argv, env, stdio }
    }
}

/// A lightweight handle on a launched process, used to send it signals.
/// Dropping it has no effect on the process.
#[derive(Debug, Clone, Copy, PartialEq, Eq, Hash, Structural)]
pub struct ProcessId {
    pid: i32,
}

impl ProcessId {
    /// The native process identifier.
    pub closed spec fn id(&self) -> i32 {
        self.pid
    }

    /// The native process identifier.
    pub fn pid(&self) -> (r: i32)
        ensures
            r == self.id(),
    {
        self.pid
    }

    /// The target and signal number of a kill request.
    pub fn kill_request(self) -> (r: (i32, i32))
        ensures
            r == (self.id(), KILL_SIGNAL),
    {
        (self.pid, KILL_SIGNAL)
    }

    /// The target and signal number of a terminate request.
    pub fn terminate_request(self) -> (r: (i32, i32))
        ensures
            r == (self.id(), TERMINATE_SIGNAL),
    {
        (self.pid, TERMINATE_SIGNAL)
    }
}

/// The result of the native process-creation call: the process identifier
/// it wrote when it returned zero, `CreateError` otherwise.
pub fn create_outcome(code: i32, pid: i32) -> (r: Result<ProcessId, Error>)
    ensures
        code == 0 <==> r is Ok,
        r matches Ok(p) ==> p.id() == pid,
        r matches Err(e) ==> e == Error::CreateError,
{
    if code == 0 {
        Ok(ProcessId { pid })
    } else {
        Err(Error::CreateError)
    }
}

/// The result of the native execution call: the exit value it wrote when it
/// returned zero, `CreateError` otherwise.
pub fn exec_outcome(code: i32, exit_value: i32) -> (r: Result<ExitCode, Error>)
    ensures
        code == 0 ==> r == Ok::<ExitCode, Error>(exit_value),
        code != 0 ==> r == Err::<ExitCode, Error>(Error::CreateError),
{
    if code == 0 {
        Ok(exit_value)
    } else {
        Err(Error::CreateError)
    }
}

/// The result of the native signal call: `SignalError` unless it returned zero.
pub fn signal_outcome(code: i32) -> (r: Result<(), Error>)
    ensures
        code == 0 ==> r == Ok::<(), Error>(()),
        code != 0 ==> r == Err::<(), Error>(Error::SignalError),
{
    if code == 0 {
        Ok(())
    } else {
        Err(Error::SignalError)
    }
}

} // verus!
