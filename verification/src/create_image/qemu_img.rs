//! Outcomes of the conversion-tool stages: installing the tool, converting
//! the source device into a compressed image, and checking that image.

use vstd::prelude::*;
use vstd::string::*;

use crate::command::CmdOutput;
use crate::create_image::error::{PipelineError, PipelineErrorView};

verus! {

/// The image file produced by the conversion stage and consumed by the
/// verification stage.
pub struct ImageDetails {
    pub filepath: String,
}

/// Mathematical view of [`ImageDetails`].
pub struct ImageDetailsView {
    pub filepath: Seq<char>,
}

impl View for ImageDetails {
    type V = ImageDetailsView;

    open spec fn view(&self) -> ImageDetailsView {
        ImageDetailsView { filepath: self.filepath@ }
    }
}

/// Where the image for `image_name` is created below `dir`.
pub open spec fn image_path_spec(dir: Seq<char>, image_name: Seq<char>) -> Seq<char> {
    dir + "/"@ + image_name + ".qcow2"@
}

/// Build the output path `<dir>/<image_name>.qcow2`.
pub fn image_file_path(dir: &str, image_name: &str) -> (r: String)
    ensures
        r@ == image_path_spec(dir@, image_name@),
{
    let mut r = dir.to_owned();
    r.append("/");
    r.append(image_name);
    r.append(".qcow2");
    r
}

/// Classify the outcome of updating the package index before installing the
/// conversion tool.
pub fn update_index_outcome(output: &CmdOutput) -> (r: Result<(), PipelineError>)
    ensures
        r is Ok <==> output.exit_success,
        r matches Err(e) ==> e@ == PipelineErrorView::UpdateIndexFailed,
{
    if output.exit_success {
        Ok(())
    } else {
        Err(PipelineError::UpdateIndexFailed)
    }
}

/// Classify the outcome of installing the conversion tool.
pub fn install_outcome(output: &CmdOutput) -> (r: Result<(), PipelineError>)
    ensures
        r is Ok <==> output.exit_success,
        r matches Err(e) ==> e@ == PipelineErrorView::InstallFailed,
{
    if output.exit_success {
        Ok(())
    } else {
        Err(PipelineError::InstallFailed)
    }
}

/// Classify the outcome of the conversion run: on success the image stands
/// at `<dir>/<image_name>.qcow2`; on failure the tool's diagnostic text is
/// surfaced.
pub fn convert_outcome(output: &CmdOutput, dir: &str, image_name: &str) -> (r: Result<
    ImageDetails,
    PipelineError,
>)
    ensures
        r is Ok <==> output.exit_success,
        r matches Ok(image) ==> image.filepath@ == image_path_spec(dir@, image_name@),
        r matches Err(e) ==> e@ == (PipelineErrorView::CreateImageFailed {
            message: output.stderr@,
        }),
{
    if output.exit_success {
        Ok(ImageDetails { filepath: image_file_path(dir, image_name) })
    } else {
        Err(PipelineError::CreateImageFailed { message: output.stderr.clone() })
    }
}

/// Classify the outcome of the integrity check on the produced image.
pub fn check_image_outcome(output: &CmdOutput) -> (r: Result<(), PipelineError>)
    ensures
        r is Ok <==> output.exit_success,
        r matches Err(e) ==> e@ == (PipelineErrorView::CheckImageFailed {
            message: output.stderr@,
        }),
{
    if output.exit_success {
        Ok(())
    } else {
        Err(PipelineError::CheckImageFailed { message: output.stderr.clone() })
    }
}

} // verus!
