//! The deployment-time configuration of the bridge: which interpreter runs
//! the processing program, where that program's entry point lies, and which
//! execution mode the deployment chose. Resolved once at startup, so that an
//! unresolved interpreter fails fast there instead of deep inside a call.

use vstd::prelude::*;

use crate::invocation::ExecMode;

verus! {

/// A validated bridge configuration. Its two paths are fixed for the whole
/// deployment; only the file path to process varies per call.
#[derive(Debug)]
pub struct ParserConfig {
    interpreter: String,
    entry_point: String,
    mode: ExecMode,
}

impl ParserConfig {
    /// The path of the command interpreter that runs the processing program.
    pub closed spec fn spec_interpreter(&self) -> Seq<char> {
        self.interpreter@
    }

    /// The path of the processing program's entry point, handed to the
    /// interpreter as its first argument.
    pub closed spec fn spec_entry_point(&self) -> Seq<char> {
        self.entry_point@
    }

    /// The execution mode this deployment chose.
    pub closed spec fn spec_mode(&self) -> ExecMode {
        self.mode
    }

    /// A configuration is well formed when both of its paths are resolved,
    /// that is, nonempty.
    pub open spec fn well_formed(&self) -> bool {
        self.spec_interpreter().len() > 0 && self.spec_entry_point().len() > 0
    }

    /// Builds a configuration, validating it: an unresolved interpreter or
    /// entry point is rejected here, at startup, and exactly then.
    pub fn new(interpreter: String, entry_point: String, mode: ExecMode) -> (config: Option<
        ParserConfig,
    >)
        ensures
            config is Some <==> interpreter@.len() > 0 && entry_point@.len() > 0,
            config matches Some(c) ==> {
                &&& c.spec_interpreter() == interpreter@
                &&& c.spec_entry_point() == entry_point@
                &&& c.spec_mode() == mode
                &&& c.well_formed()
            },
    {
        if interpreter.as_str().is_empty() || entry_point.as_str().is_empty() {
            None
        } else {
            Some(ParserConfig { interpreter, entry_point, mode })
        }
    }

    /// The interpreter path, for the host program to start the process with.
    pub fn interpreter(&self) -> (path: &str)
        ensures
            path@ == self.spec_interpreter(),
    {
        self.interpreter.as_str()
    }

    /// The execution mode, for the host program to dispatch on.
    pub fn mode(&self) -> (mode: ExecMode)
        ensures
            mode == self.spec_mode(),
    {
        self.mode
    }

    /// The argument list for one invocation: the entry point first, then the
    /// caller's file path, in that fixed order and nothing else. The file
    /// path is passed along unexamined; judging it is the external
    /// processor's business.
    pub fn command_args(&self, file_path: &str) -> (args: Vec<String>)
        ensures
            args@.len() == 2,
            args@[0]@ == self.spec_entry_point(),
            args@[1]@ == file_path@,
    {
        let mut args: Vec<String> = Vec::new();
        args.push(self.entry_point.clone());
        args.push(String::from_str(file_path));
        args
    }
}

} // verus!
