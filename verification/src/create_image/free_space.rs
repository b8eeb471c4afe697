//! Conflict checking and free-space zeroing outcomes.  Zero-filling a
//! filesystem until the device reports it is full is the intended terminal
//! condition of the fill stage, so that failure is reclassified as success.

use vstd::prelude::*;

use crate::command::CmdOutput;
use crate::create_image::error::{PipelineError, PipelineErrorView};
use crate::strings::{contains_substr, has_substr};

verus! {

/// The substring of a write error that marks the device running full.
pub open spec fn no_space_marker() -> Seq<char> {
    "No space left on device"@
}

/// The fill stage succeeded: either the writer finished normally, or it
/// stopped because the device is full, which is the goal of the stage.
pub open spec fn fill_succeeded(output: crate::command::CmdOutputView) -> bool {
    output.exit_success || contains_substr(output.stderr, no_space_marker())
}

/// Fail when a file with the target image's name already exists in the
/// target directory.  The caller reports whether such a file exists; the
/// returned error names the offending file and directory.
pub fn check_conflict(dir: &str, file_name: &str, file_exists: bool) -> (r: Result<
    (),
    PipelineError,
>)
    ensures
        r is Err <==> file_exists,
        r matches Err(e) ==> e@ == (PipelineErrorView::Conflict {
            file_name: file_name@,
            dir: dir@,
        }),
{
    if file_exists {
        Err(
            PipelineError::Conflict {
                file_name: file_name.to_owned(),
                dir: dir.to_owned(),
            },
        )
    } else {
        Ok(())
    }
}

/// Classify the outcome of the zero-fill writer: a failure whose diagnostic
/// text reports the device running full counts as success; any other failure
/// is fatal and surfaces the diagnostic text.
pub fn fill_outcome(output: &CmdOutput) -> (r: Result<(), PipelineError>)
    ensures
        r is Ok <==> fill_succeeded(output@),
        r matches Err(e) ==> e@ == (PipelineErrorView::FillFailed { message: output.stderr@ }),
{
    if output.exit_success {
        Ok(())
    } else if has_substr(output.stderr.as_str(), "No space left on device") {
        Ok(())
    } else {
        Err(PipelineError::FillFailed { message: output.stderr.clone() })
    }
}

/// Classify the outcome of removing the temporary zero-fill file.
pub fn erase_outcome(output: &CmdOutput) -> (r: Result<(), PipelineError>)
    ensures
        r is Ok <==> output.exit_success,
        r matches Err(e) ==> e@ == (PipelineErrorView::EraseFailed { message: output.stderr@ }),
{
    if output.exit_success {
        Ok(())
    } else {
        Err(PipelineError::EraseFailed { message: output.stderr.clone() })
    }
}

} // verus!
