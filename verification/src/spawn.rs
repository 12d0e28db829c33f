//! Checking a host's request to spawn a program on a new PTY.

use vstd::prelude::*;
use crate::session::{to_pty_size, wezterm_kit_size_t};

verus! {

/// One environment variable of a spawn request; `None` stands for a NULL
/// string.
#[derive(Debug, Clone, PartialEq, Eq)]
pub struct EnvVar {
    pub key: Option<String>,
    pub value: Option<String>,
}

/// A host's spawn request as it arrives. `None` stands for a NULL pointer;
/// `argv` and `env`, where present, hold `argc` and `env_count` entries.
#[derive(Debug, Clone)]
pub struct SpawnConfig {
    pub program: Option<String>,
    pub argv: Option<Vec<Option<String>>>,
    pub argc: usize,
    pub env: Option<Vec<EnvVar>>,
    pub env_count: usize,
    pub cwd: Option<String>,
    pub size: wezterm_kit_size_t,
    pub clear_environment: bool,
    pub controlling_tty: bool,
}

impl SpawnConfig {
    /// Whether the arrays hold as many entries as their counts say.
    pub open spec fn wf(&self) -> bool {
        &&& (self.argv matches Some(v) ==> v@.len() == self.argc)
        &&& (self.env matches Some(e) ==> e@.len() == self.env_count)
    }
}

impl Default for SpawnConfig {
    /// No program, arguments, environment or directory; 24 rows of 80
    /// columns; the environment kept; a controlling terminal.
    fn default() -> (c: Self)
        ensures
            c.program is None,
            c.argv is None,
            c.argc == 0,
            c.env is None,
            c.env_count == 0,
            c.cwd is None,
            c.size == (wezterm_kit_size_t { rows: 24, cols: 80, pixel_width: 0, pixel_height: 0 }),
            !c.clear_environment,
            c.controlling_tty,
    {
        SpawnConfig {
            program: None,
            argv: None,
            argc: 0,
            env: None,
            env_count: 0,
            cwd: None,
            size: wezterm_kit_size_t { rows: 24, cols: 80, pixel_width: 0, pixel_height: 0 },
            clear_environment: false,
            controlling_tty: true,
        }
    }
}

/// Why a spawn request is refused.
#[derive(Debug, Clone, Copy, PartialEq, Eq, Structural)]
pub enum SpawnError {
    ProgramRequired,
    ArgvNull,
    ArgvNullEntry,
    EnvNull,
    EnvKeyNull,
    EnvValueNull,
}

impl SpawnError {
    /// The message logged for the refusal.
    pub fn message(&self) -> (m: &'static str)
        ensures
            *self == SpawnError::ProgramRequired ==> m@ == "program is required"@,
            *self == SpawnError::ArgvNull ==> m@ == "argv is null while argc > 0"@,
            *self == SpawnError::ArgvNullEntry ==> m@ == "argv contains null entry"@,
            *self == SpawnError::EnvNull ==> m@ == "env is null while env_count > 0"@,
            *self == SpawnError::EnvKeyNull ==> m@ == "env key is null"@,
            *self == SpawnError::EnvValueNull ==> m@ == "env value is null"@,
    {
        match self {
            SpawnError::ProgramRequired => "program is required",
            SpawnError::ArgvNull => "argv is null while argc > 0",
            SpawnError::ArgvNullEntry => "argv contains null entry",
            SpawnError::EnvNull => "env is null while env_count > 0",
            SpawnError::EnvKeyNull => "env key is null",
            SpawnError::EnvValueNull => "env value is null",
        }
    }
}

/// The program of a spawn request; refused where it is missing.
pub fn spawn_program(cfg: &SpawnConfig) -> (r: Result<String, SpawnError>)
    ensures
        cfg.program is None ==> r == Err::<String, SpawnError>(SpawnError::ProgramRequired),
        cfg.program matches Some(p) ==> r == Ok::<String, SpawnError>(p),
{
    match &cfg.program {
        Some(p) => Ok(p.clone()),
        None => Err(SpawnError::ProgramRequired),
    }
}

/// The arguments of a spawn request: none where `argc` is zero; refused
/// where the array is missing or holds a missing string; otherwise its
/// strings in order.
pub fn cstr_array_to_strings(argv: &Option<Vec<Option<String>>>, argc: usize) -> (r: Result<
    Vec<String>,
    SpawnError,
>)
    requires
        argv matches Some(v) ==> v@.len() == argc,
    ensures
        argc == 0 ==> (r matches Ok(a) && a@.len() == 0),
        argc > 0 && argv is None ==> r == Err::<Vec<String>, SpawnError>(SpawnError::ArgvNull),
        argc > 0 && argv is Some ==> match r {
            Ok(a) => a@.len() == argc && forall|i: int|
                0 <= i < argc ==> argv.unwrap()@[i] == Some(#[trigger] a@[i]),
            Err(e) => e == SpawnError::ArgvNullEntry && exists|i: int|
                0 <= i < argc && (#[trigger] argv.unwrap()@[i]) is None,
        },
{
    if argc == 0 {
        return Ok(Vec::new());
    }
    let v = match argv {
        Some(v) => v,
        None => {
            return Err(SpawnError::ArgvNull);
        },
    };
    let mut out: Vec<String> = Vec::new();
    let mut i: usize = 0;
    while i < v.len()
        invariant
            *argv == Some(*v),
            argc > 0,
            v@.len() == argc,
            i <= argc,
            out@.len() == i,
            forall|j: int| 0 <= j < i ==> v@[j] == Some(#[trigger] out@[j]),
        decreases argc - i,
    {
        match &v[i] {
            Some(s) => {
                out.push(s.clone());
            },
            None => {
                proof {
                    assert(argv.unwrap()@[i as int] is None);
                }
                return Err(SpawnError::ArgvNullEntry);
            },
        }
        i = i + 1;
    }
    Ok(out)
}

/// The refusal, if any, of the environment entries from `i` on: the first
/// entry with a missing key or value decides, a missing key before a
/// missing value.
pub open spec fn env_refusal(entries: Seq<EnvVar>, i: int) -> Option<SpawnError>
    decreases entries.len() - i,
{
    if i < 0 || i >= entries.len() {
        None
    } else if entries[i].key is None {
        Some(SpawnError::EnvKeyNull)
    } else if entries[i].value is None {
        Some(SpawnError::EnvValueNull)
    } else {
        env_refusal(entries, i + 1)
    }
}

/// The environment of a spawn request: none where `env_count` is zero;
/// refused where the array is missing, or at the first entry with a missing
/// key or value; otherwise its key/value pairs in order.
pub fn env_pairs(env: &Option<Vec<EnvVar>>, env_count: usize) -> (r: Result<
    Vec<(String, String)>,
    SpawnError,
>)
    requires
        env matches Some(e) ==> e@.len() == env_count,
    ensures
        env_count == 0 ==> (r matches Ok(p) && p@.len() == 0),
        env_count > 0 && env is None ==> r == Err::<Vec<(String, String)>, SpawnError>(
            SpawnError::EnvNull,
        ),
        env_count > 0 && env is Some ==> match env_refusal(env.unwrap()@, 0) {
            Some(e) => r == Err::<Vec<(String, String)>, SpawnError>(e),
            None => r matches Ok(p) && p@.len() == env_count && forall|i: int|
                0 <= i < env_count ==> env.unwrap()@[i].key == Some((#[trigger] p@[i]).0)
                    && env.unwrap()@[i].value == Some(p@[i].1),
        },
{
    if env_count == 0 {
        return Ok(Vec::new());
    }
    let e = match env {
        Some(e) => e,
        None => {
            return Err(SpawnError::EnvNull);
        },
    };
    let mut out: Vec<(String, String)> = Vec::new();
    let mut i: usize = 0;
    while i < e.len()
        invariant
            *env == Some(*e),
            env_count > 0,
            e@.len() == env_count,
            i <= env_count,
            out@.len() == i,
            env_refusal(e@, i as int) == env_refusal(e@, 0),
            forall|j: int|
                0 <= j < i ==> e@[j].key == Some((#[trigger] out@[j]).0) && e@[j].value == Some(
                    out@[j].1,
                ),
        decreases env_count - i,
    {
        let key = match &e[i].key {
            Some(k) => k.clone(),
            None => {
                return Err(SpawnError::EnvKeyNull);
            },
        };
        let value = match &e[i].value {
            Some(v) => v.clone(),
            None => {
                return Err(SpawnError::EnvValueNull);
            },
        };
        out.push((key, value));
        i = i + 1;
    }
    Ok(out)
}

/// A checked spawn request, ready to be carried out: the program and its
/// arguments, whether to start from an empty environment, the variables to
/// set (in order), the working directory, the PTY size and whether the
/// program gets a controlling terminal.
#[derive(Debug)]
pub struct SpawnPlan {
    pub program: String,
    pub args: Vec<String>,
    pub clear_environment: bool,
    pub env: Vec<(String, String)>,
    pub cwd: Option<String>,
    pub size: wezterm_kit_size_t,
    pub controlling_tty: bool,
}

/// Checks the arguments and the environment of a spawn request whose
/// program was already taken (see `spawn_program`): refused as
/// `cstr_array_to_strings` and then `env_pairs` refuse; otherwise the plan
/// carries what the request asks for, with the PTY size as `to_pty_size`
/// makes it.
pub fn spawn_plan(cfg: &SpawnConfig, program: String) -> (r: Result<SpawnPlan, SpawnError>)
    requires
        cfg.wf(),
    ensures
        match cstr_array_to_strings_outcome(cfg) {
            Err(e) => r == Err::<SpawnPlan, SpawnError>(e),
            Ok(()) => match env_outcome(cfg) {
                Err(e) => r == Err::<SpawnPlan, SpawnError>(e),
                Ok(()) => r matches Ok(plan) && {
                    &&& plan.program == program
                    &&& plan.args@.len() == cfg.argc
                    &&& forall|i: int|
                        0 <= i < cfg.argc ==> cfg.argv.unwrap()@[i] == Some(#[trigger] plan.args@[i])
                    &&& plan.clear_environment == cfg.clear_environment
                    &&& plan.env@.len() == cfg.env_count
                    &&& forall|i: int|
                        0 <= i < cfg.env_count ==> cfg.env.unwrap()@[i].key == Some(
                            (#[trigger] plan.env@[i]).0,
                        ) && cfg.env.unwrap()@[i].value == Some(plan.env@[i].1)
                    &&& plan.cwd == cfg.cwd
                    &&& plan.size == (wezterm_kit_size_t {
                        rows: if cfg.size.rows == 0 { 24 } else { cfg.size.rows },
                        cols: if cfg.size.cols == 0 { 80 } else { cfg.size.cols },
                        pixel_width: cfg.size.pixel_width,
                        pixel_height: cfg.size.pixel_height,
                    })
                    &&& plan.controlling_tty == cfg.controlling_tty
                },
            },
        },
{
    let args = match cstr_array_to_strings(&cfg.argv, cfg.argc) {
        Ok(a) => a,
        Err(e) => {
            return Err(e);
        },
    };
    proof {
        if cfg.argc > 0 {
            assert forall|i: int| 0 <= i < cfg.argc implies !(#[trigger] cfg.argv.unwrap()@[i] is None) by {
                assert(cfg.argv.unwrap()@[i] == Some(args@[i]));
            }
        }
    }
    let env = match env_pairs(&cfg.env, cfg.env_count) {
        Ok(p) => p,
        Err(e) => {
            return Err(e);
        },
    };
    let cwd = match &cfg.cwd {
        Some(c) => Some(c.clone()),
        None => None,
    };
    Ok(
        SpawnPlan {
            program,
            args,
            clear_environment: cfg.clear_environment,
            env,
            cwd,
            size: to_pty_size(cfg.size),
            controlling_tty: cfg.controlling_tty,
        },
    )
}

/// Whether the arguments of a request are refused, and why.
pub open spec fn cstr_array_to_strings_outcome(cfg: &SpawnConfig) -> Result<(), SpawnError> {
    if cfg.argc == 0 {
        Ok(())
    } else if cfg.argv is None {
        Err(SpawnError::ArgvNull)
    } else if exists|i: int| 0 <= i < cfg.argc && (#[trigger] cfg.argv.unwrap()@[i]) is None {
        Err(SpawnError::ArgvNullEntry)
    } else {
        Ok(())
    }
}

/// Whether the environment of a request is refused, and why.
pub open spec fn env_outcome(cfg: &SpawnConfig) -> Result<(), SpawnError> {
    if cfg.env_count == 0 {
        Ok(())
    } else if cfg.env is None {
        Err(SpawnError::EnvNull)
    } else {
        match env_refusal(cfg.env.unwrap()@, 0) {
            Some(e) => Err(e),
            None => Ok(()),
        }
    }
}

} // verus!
