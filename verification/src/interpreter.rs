//! High level interpreter of the R code.
//!
//! The interpreter handle keeps the addresses of the runtime symbols that
//! calls are built from, and of the global environment. The runtime itself
//! is reached by the program around this library; what stands here is what
//! is decided on what the runtime reports back.
use vstd::prelude::*;
use crate::internal::ParseStatus;
use crate::sexp::SEXP;

verus! {

/// Interpreter structure
pub struct Interpreter {
    /// `.Call` symbol from R runtime
    pub sexp_call: usize,
    /// `function` symbol from R runtime
    pub sexp_function: usize,
    /// `native` symbol from R runtime
    pub sexp_nativesym: usize,
    /// The runtime's global environment
    pub global_env: usize,
}

/// The command line with which the embedded runtime is started.
pub fn startup_args() -> (args: Vec<&'static str>)
    ensures
        args@.len() == 3,
        args@[0]@ == "example"@,
        args@[1]@ == "--slave"@,
        args@[2]@ == "--vanilla"@,
{
    let mut args: Vec<&'static str> = Vec::new();
    args.push("example");
    args.push("--slave");
    args.push("--vanilla");
    args
}

/// The handle of a started runtime, made from the addresses that the
/// runtime gave for the names of [startup_symbols], in that order (`.Call`,
/// `function`, `native symbol`), and the address of its global environment.
/// `Some` exactly when one address is given for each of the three names.
pub fn new(installed: Vec<usize>, global_env: usize) -> (r: Option<Interpreter>)
    ensures
        r is Some <==> installed@.len() == 3,
        r matches Some(i) ==> {
            &&& i.sexp_call == installed@[0]
            &&& i.sexp_function == installed@[1]
            &&& i.sexp_nativesym == installed@[2]
            &&& i.global_env == global_env
            &&& i.spec_call() == installed@[0]
            &&& i.spec_function() == installed@[1]
            &&& i.spec_nativesym() == installed@[2]
            &&& i.spec_global_env() == global_env
        },
{
    if installed.len() != 3 {
        return None;
    }
    Some(Interpreter {
        sexp_call: installed[0],
        sexp_function: installed[1],
        sexp_nativesym: installed[2],
        global_env: global_env,
    })
}

/// The handle's views of its addresses are its public fields, one for one:
/// the `.Call`, `function` and `native symbol` addresses and the global
/// environment are never exchanged for one another.
pub proof fn interpreter_views_are_its_fields(i: Interpreter)
    ensures
        i.spec_call() == i.sexp_call,
        i.spec_function() == i.sexp_function,
        i.spec_nativesym() == i.sexp_nativesym,
        i.spec_global_env() == i.global_env,
{
}

/// The names of the runtime symbols that an interpreter handle keeps, in
/// the order of its fields: `.Call`, `function`, `native symbol`.
pub fn startup_symbols() -> (names: Vec<&'static str>)
    ensures
        names@.len() == 3,
        names@[0]@ == ".Call"@,
        names@[1]@ == "function"@,
        names@[2]@ == "native symbol"@,
{
    let mut names: Vec<&'static str> = Vec::new();
    names.push(".Call");
    names.push("function");
    names.push("native symbol");
    names
}

impl Interpreter {
    /// The address of the runtime's global environment, as this handle
    /// was made with.
    pub open spec fn spec_global_env(self) -> usize {
        self.global_env
    }

    /// The address of the `.Call` symbol.
    pub open spec fn spec_call(self) -> usize {
        self.sexp_call
    }

    /// The address of the `function` symbol.
    pub open spec fn spec_function(self) -> usize {
        self.sexp_function
    }

    /// The address of the `native symbol` symbol.
    pub open spec fn spec_nativesym(self) -> usize {
        self.sexp_nativesym
    }

    /// The address of the `.Call` symbol.
    pub fn sexp_call(&self) -> (a: usize)
        ensures
            a == self.spec_call(),
            a == self.sexp_call,
    {
        self.sexp_call
    }

    /// The address of the `function` symbol.
    pub fn sexp_function(&self) -> (a: usize)
        ensures
            a == self.spec_function(),
            a == self.sexp_function,
    {
        self.sexp_function
    }

    /// The address of the `native symbol` symbol.
    pub fn sexp_nativesym(&self) -> (a: usize)
        ensures
            a == self.spec_nativesym(),
            a == self.sexp_nativesym,
    {
        self.sexp_nativesym
    }

    /// The address of the runtime's global environment.
    pub fn global_env(&self) -> (e: usize)
        ensures
            e == self.spec_global_env(),
            e == self.global_env,
    {
        self.global_env
    }

    /// The outcome of a parse, given the vector that the runtime gave back
    /// and the status it reported: the parsed expressions where the status
    /// is `PARSE_OK`, the status otherwise.
    pub fn parse_result(&self, parsed: SEXP, status: ParseStatus) -> (r: Result<SEXP, ParseStatus>)
        ensures
            status == ParseStatus::PARSE_OK ==> r == Ok::<SEXP, ParseStatus>(parsed),
            status != ParseStatus::PARSE_OK ==> r == Err::<SEXP, ParseStatus>(status),
    {
        match status {
            ParseStatus::PARSE_OK => Ok(parsed),
            _ => Err(status),
        }
    }

    /// The outcome of an evaluation, given the address of the value that
    /// the runtime gave back and the error flag it set: the value, to be
    /// kept, where the flag is `0`; `None` where evaluation failed.
    pub fn try_eval_result(&self, value: usize, error_flag: i32) -> (r: Option<usize>)
        ensures
            r == (if error_flag == 0 { Some(value) } else { None::<usize> }),
    {
        match error_flag {
            0 => Some(value),
            _ => None,
        }
    }
}

} // verus!
