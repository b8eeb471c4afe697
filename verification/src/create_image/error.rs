//! The failures the image-creation pipeline can report.  Each variant keeps
//! the data it was built from; `message` renders the human-readable text.

use vstd::prelude::*;
use vstd::string::*;

verus! {

/// A failure of one image-pipeline stage.
pub enum PipelineError {
    /// The target directory does not exist or is not a directory.
    InvalidDirectory { dir: String },
    /// Updating the package index failed while installing the conversion
    /// tool.
    UpdateIndexFailed,
    /// Installing the conversion tool failed.
    InstallFailed,
    /// A file with the target image's name already exists in the target
    /// directory.
    Conflict { file_name: String, dir: String },
    /// Zero-filling free space failed for a reason other than the device
    /// running full.
    FillFailed { message: String },
    /// Removing the temporary zero-fill file failed.
    EraseFailed { message: String },
    /// The conversion tool failed to produce the image.
    CreateImageFailed { message: String },
    /// The produced image failed the integrity check.
    CheckImageFailed { message: String },
}

/// Mathematical view of [`PipelineError`].
pub enum PipelineErrorView {
    InvalidDirectory { dir: Seq<char> },
    UpdateIndexFailed,
    InstallFailed,
    Conflict { file_name: Seq<char>, dir: Seq<char> },
    FillFailed { message: Seq<char> },
    EraseFailed { message: Seq<char> },
    CreateImageFailed { message: Seq<char> },
    CheckImageFailed { message: Seq<char> },
}

impl View for PipelineError {
    type V = PipelineErrorView;

    open spec fn view(&self) -> PipelineErrorView {
        match self {
            PipelineError::InvalidDirectory { dir } => (PipelineErrorView::InvalidDirectory {
                dir: dir@,
            }),
            PipelineError::UpdateIndexFailed => PipelineErrorView::UpdateIndexFailed,
            PipelineError::InstallFailed => PipelineErrorView::InstallFailed,
            PipelineError::Conflict { file_name, dir } => (PipelineErrorView::Conflict {
                file_name: file_name@,
                dir: dir@,
            }),
            PipelineError::FillFailed { message } => (PipelineErrorView::FillFailed {
                message: message@,
            }),
            PipelineError::EraseFailed { message } => (PipelineErrorView::EraseFailed {
                message: message@,
            }),
            PipelineError::CreateImageFailed { message } => (PipelineErrorView::CreateImageFailed {
                message: message@,
            }),
            PipelineError::CheckImageFailed { message } => (PipelineErrorView::CheckImageFailed {
                message: message@,
            }),
        }
    }
}

/// The human-readable text of each failure.
pub open spec fn message_spec(e: PipelineErrorView) -> Seq<char> {
    match e {
        PipelineErrorView::InvalidDirectory { dir } => "Invalid directory: "@ + dir,
        PipelineErrorView::UpdateIndexFailed => "Failed to update apt-get"@,
        PipelineErrorView::InstallFailed => "Failed to install qemu-utils"@,
        PipelineErrorView::Conflict { file_name, dir } => "Conflict: a file named "@ + file_name
            + " already exists in "@ + dir,
        PipelineErrorView::FillFailed { message } => "Failed to create empty file: "@ + message,
        PipelineErrorView::EraseFailed { message } => "Failed to erase empty file: "@ + message,
        PipelineErrorView::CreateImageFailed { message } => "Failed to create image: "@ + message,
        PipelineErrorView::CheckImageFailed { message } => "Failed to check image: "@ + message,
    }
}

impl PipelineError {
    /// Render the failure as the human-readable message the pipeline logs.
    pub fn message(&self) -> (r: String)
        ensures
            r@ == message_spec(self@),
    {
        match self {
            PipelineError::InvalidDirectory { dir } => {
                let mut m = ("Invalid directory: ").to_owned();
                m.append(dir.as_str());
                m
            },
            PipelineError::UpdateIndexFailed => ("Failed to update apt-get").to_owned(),
            PipelineError::InstallFailed => ("Failed to install qemu-utils").to_owned(),
            PipelineError::Conflict { file_name, dir } => {
                let mut m = ("Conflict: a file named ").to_owned();
                m.append(file_name.as_str());
                m.append(" already exists in ");
                m.append(dir.as_str());
                m
            },
            PipelineError::FillFailed { message } => {
                let mut m = ("Failed to create empty file: ").to_owned();
                m.append(message.as_str());
                m
            },
            PipelineError::EraseFailed { message } => {
                let mut m = ("Failed to erase empty file: ").to_owned();
                m.append(message.as_str());
                m
            },
            PipelineError::CreateImageFailed { message } => {
                let mut m = ("Failed to create image: ").to_owned();
                m.append(message.as_str());
                m
            },
            PipelineError::CheckImageFailed { message } => {
                let mut m = ("Failed to check image: ").to_owned();
                m.append(message.as_str());
                m
            },
        }
    }
}

} // verus!
