//! What running an external command yields: its exit status and captured
//! output streams.  A non-zero exit is a normal, representable result here;
//! each caller decides what it means.

use vstd::prelude::*;

verus! {

/// Captured outcome of one external command invocation.
pub struct CmdOutput {
    pub exit_success: bool,
    pub stdout: String,
    pub stderr: String,
}

/// Mathematical view of [`CmdOutput`].
pub struct CmdOutputView {
    pub exit_success: bool,
    pub stdout: Seq<char>,
    pub stderr: Seq<char>,
}

impl View for CmdOutput {
    type V = CmdOutputView;

    open spec fn view(&self) -> CmdOutputView {
        CmdOutputView {
            exit_success: self.exit_success,
            stdout: self.stdout@,
            stderr: self.stderr@,
        }
    }
}

} // verus!
