//! The image-creation pipeline: a strictly sequential, fail-fast state
//! machine.  The pipeline decides; the surrounding program performs each
//! requested action (a directory probe, an external command) and hands the
//! outcome back as an event.

use vstd::prelude::*;
use vstd::string::*;

use crate::command::{CmdOutput, CmdOutputView};
use crate::create_image::error::{PipelineError, PipelineErrorView};
use crate::create_image::free_space;
use crate::create_image::free_space::fill_succeeded;
use crate::create_image::qemu_img;
use crate::create_image::qemu_img::{image_path_spec, ImageDetails, ImageDetailsView};

verus! {

/// What one pipeline run was asked to do.
pub struct Options {
    pub skip_free_space: Option<bool>,
    pub image_name: String,
    pub dir: String,
    pub device: String,
}

/// Mathematical view of [`Options`].
pub struct OptionsView {
    pub skip_free_space: Option<bool>,
    pub image_name: Seq<char>,
    pub dir: Seq<char>,
    pub device: Seq<char>,
}

impl View for Options {
    type V = OptionsView;

    open spec fn view(&self) -> OptionsView {
        OptionsView {
            skip_free_space: self.skip_free_space,
            image_name: self.image_name@,
            dir: self.dir@,
            device: self.device@,
        }
    }
}

/// Where a pipeline run stands.  The stages run in the order of the
/// variants; the two last variants are terminal.
pub enum PipelineState {
    ValidateDirectory,
    ProbeTool,
    UpdateIndex,
    InstallTool,
    ConflictCheck,
    FillFreeSpace,
    EraseFillFile,
    Convert,
    Verify { image: ImageDetails },
    Succeeded { image: ImageDetails },
    Failed { error: PipelineError },
}

/// Mathematical view of [`PipelineState`].
pub enum PipelineStateView {
    ValidateDirectory,
    ProbeTool,
    UpdateIndex,
    InstallTool,
    ConflictCheck,
    FillFreeSpace,
    EraseFillFile,
    Convert,
    Verify { image: ImageDetailsView },
    Succeeded { image: ImageDetailsView },
    Failed { error: PipelineErrorView },
}

impl View for PipelineState {
    type V = PipelineStateView;

    open spec fn view(&self) -> PipelineStateView {
        match self {
            PipelineState::ValidateDirectory => PipelineStateView::ValidateDirectory,
            PipelineState::ProbeTool => PipelineStateView::ProbeTool,
            PipelineState::UpdateIndex => PipelineStateView::UpdateIndex,
            PipelineState::InstallTool => PipelineStateView::InstallTool,
            PipelineState::ConflictCheck => PipelineStateView::ConflictCheck,
            PipelineState::FillFreeSpace => PipelineStateView::FillFreeSpace,
            PipelineState::EraseFillFile => PipelineStateView::EraseFillFile,
            PipelineState::Convert => PipelineStateView::Convert,
            PipelineState::Verify { image } => (PipelineStateView::Verify { image: image@ }),
            PipelineState::Succeeded { image } => (PipelineStateView::Succeeded { image: image@ }),
            PipelineState::Failed { error } => (PipelineStateView::Failed { error: error@ }),
        }
    }
}

/// The outcome of the outside work one stage asked for.
pub enum PipelineEvent {
    /// Whether the target exists and is a directory.
    DirectoryChecked { is_dir: bool },
    /// Whether the conversion tool answered its version probe.
    ToolProbed { installed: bool },
    /// Whether the conflicting file exists.
    FileChecked { exists: bool },
    /// An external command ran to completion.
    CommandFinished { output: CmdOutput },
}

/// Mathematical view of [`PipelineEvent`].
pub enum PipelineEventView {
    DirectoryChecked { is_dir: bool },
    ToolProbed { installed: bool },
    FileChecked { exists: bool },
    CommandFinished { output: CmdOutputView },
}

impl View for PipelineEvent {
    type V = PipelineEventView;

    open spec fn view(&self) -> PipelineEventView {
        match self {
            PipelineEvent::DirectoryChecked { is_dir } => (PipelineEventView::DirectoryChecked {
                is_dir: *is_dir,
            }),
            PipelineEvent::ToolProbed { installed } => (PipelineEventView::ToolProbed {
                installed: *installed,
            }),
            PipelineEvent::FileChecked { exists } => (PipelineEventView::FileChecked {
                exists: *exists,
            }),
            PipelineEvent::CommandFinished { output } => (PipelineEventView::CommandFinished {
                output: output@,
            }),
        }
    }
}

/// The outside work the pipeline asks for next.
pub enum PipelineAction {
    StatDirectory { dir: String },
    ProbeTool,
    RunUpdateIndex,
    RunInstallTool,
    StatFile { dir: String, file_name: String },
    RunFill { path: String },
    RunErase { path: String },
    RunConvert { device: String, filepath: String },
    RunVerify { filepath: String },
    Stop,
}

/// Mathematical view of [`PipelineAction`].
pub enum PipelineActionView {
    StatDirectory { dir: Seq<char> },
    ProbeTool,
    RunUpdateIndex,
    RunInstallTool,
    StatFile { dir: Seq<char>, file_name: Seq<char> },
    RunFill { path: Seq<char> },
    RunErase { path: Seq<char> },
    RunConvert { device: Seq<char>, filepath: Seq<char> },
    RunVerify { filepath: Seq<char> },
    Stop,
}

impl View for PipelineAction {
    type V = PipelineActionView;

    open spec fn view(&self) -> PipelineActionView {
        match self {
            PipelineAction::StatDirectory { dir } => (PipelineActionView::StatDirectory {
                dir: dir@,
            }),
            PipelineAction::ProbeTool => PipelineActionView::ProbeTool,
            PipelineAction::RunUpdateIndex => PipelineActionView::RunUpdateIndex,
            PipelineAction::RunInstallTool => PipelineActionView::RunInstallTool,
            PipelineAction::StatFile { dir, file_name } => (PipelineActionView::StatFile {
                dir: dir@,
                file_name: file_name@,
            }),
            PipelineAction::RunFill { path } => (PipelineActionView::RunFill { path: path@ }),
            PipelineAction::RunErase { path } => (PipelineActionView::RunErase { path: path@ }),
            PipelineAction::RunConvert { device, filepath } => (PipelineActionView::RunConvert {
                device: device@,
                filepath: filepath@,
            }),
            PipelineAction::RunVerify { filepath } => (PipelineActionView::RunVerify {
                filepath: filepath@,
            }),
            PipelineAction::Stop => PipelineActionView::Stop,
        }
    }
}

/// Which event kind the pipeline awaits in each state.  Terminal states
/// await nothing.
pub open spec fn awaits(state: PipelineStateView, event: PipelineEventView) -> bool {
    match state {
        PipelineStateView::ValidateDirectory => event is DirectoryChecked,
        PipelineStateView::ProbeTool => event is ToolProbed,
        PipelineStateView::UpdateIndex => event is CommandFinished,
        PipelineStateView::InstallTool => event is CommandFinished,
        PipelineStateView::ConflictCheck => event is FileChecked,
        PipelineStateView::FillFreeSpace => event is CommandFinished,
        PipelineStateView::EraseFillFile => event is CommandFinished,
        PipelineStateView::Convert => event is CommandFinished,
        PipelineStateView::Verify { .. } => event is CommandFinished,
        PipelineStateView::Succeeded { .. } => false,
        PipelineStateView::Failed { .. } => false,
    }
}

/// The transition relation of the pipeline, stage by stage, fail-fast.
pub open spec fn spec_step(
    state: PipelineStateView,
    options: OptionsView,
    event: PipelineEventView,
) -> PipelineStateView {
    match (state, event) {
        (
            PipelineStateView::ValidateDirectory,
            PipelineEventView::DirectoryChecked { is_dir },
        ) => if is_dir {
            PipelineStateView::ProbeTool
        } else {
            PipelineStateView::Failed {
                error: PipelineErrorView::InvalidDirectory { dir: options.dir },
            }
        },
        (PipelineStateView::ProbeTool, PipelineEventView::ToolProbed { installed }) => if installed {
            PipelineStateView::ConflictCheck
        } else {
            PipelineStateView::UpdateIndex
        },
        (
            PipelineStateView::UpdateIndex,
            PipelineEventView::CommandFinished { output },
        ) => if output.exit_success {
            PipelineStateView::InstallTool
        } else {
            PipelineStateView::Failed { error: PipelineErrorView::UpdateIndexFailed }
        },
        (
            PipelineStateView::InstallTool,
            PipelineEventView::CommandFinished { output },
        ) => if output.exit_success {
            PipelineStateView::ConflictCheck
        } else {
            PipelineStateView::Failed { error: PipelineErrorView::InstallFailed }
        },
        (PipelineStateView::ConflictCheck, PipelineEventView::FileChecked { exists }) => if exists {
            PipelineStateView::Failed {
                error: PipelineErrorView::Conflict {
                    file_name: options.image_name,
                    dir: options.dir,
                },
            }
        } else if options.skip_free_space == Some(true) {
            PipelineStateView::Convert
        } else {
            PipelineStateView::FillFreeSpace
        },
        (
            PipelineStateView::FillFreeSpace,
            PipelineEventView::CommandFinished { output },
        ) => if fill_succeeded(output) {
            PipelineStateView::EraseFillFile
        } else {
            PipelineStateView::Failed {
                error: PipelineErrorView::FillFailed { message: output.stderr },
            }
        },
        (
            PipelineStateView::EraseFillFile,
            PipelineEventView::CommandFinished { output },
        ) => if output.exit_success {
            PipelineStateView::Convert
        } else {
            PipelineStateView::Failed {
                error: PipelineErrorView::EraseFailed { message: output.stderr },
            }
        },
        (
            PipelineStateView::Convert,
            PipelineEventView::CommandFinished { output },
        ) => if output.exit_success {
            PipelineStateView::Verify {
                image: ImageDetailsView {
                    filepath: image_path_spec(options.dir, options.image_name),
                },
            }
        } else {
            PipelineStateView::Failed {
                error: PipelineErrorView::CreateImageFailed { message: output.stderr },
            }
        },
        (
            PipelineStateView::Verify { image },
            PipelineEventView::CommandFinished { output },
        ) => if output.exit_success {
            PipelineStateView::Succeeded { image }
        } else {
            PipelineStateView::Failed {
                error: PipelineErrorView::CheckImageFailed { message: output.stderr },
            }
        },
        _ => state,
    }
}

/// The outside work each state asks for.
pub open spec fn spec_next_action(
    state: PipelineStateView,
    options: OptionsView,
) -> PipelineActionView {
    match state {
        PipelineStateView::ValidateDirectory => (PipelineActionView::StatDirectory {
            dir: options.dir,
        }),
        PipelineStateView::ProbeTool => PipelineActionView::ProbeTool,
        PipelineStateView::UpdateIndex => PipelineActionView::RunUpdateIndex,
        PipelineStateView::InstallTool => PipelineActionView::RunInstallTool,
        PipelineStateView::ConflictCheck => (PipelineActionView::StatFile {
            dir: options.dir,
            file_name: options.image_name,
        }),
        PipelineStateView::FillFreeSpace => (PipelineActionView::RunFill {
            path: "/tmp/emptyfile"@,
        }),
        PipelineStateView::EraseFillFile => (PipelineActionView::RunErase {
            path: "/tmp/emptyfile"@,
        }),
        PipelineStateView::Convert => (PipelineActionView::RunConvert {
            device: options.device,
            filepath: image_path_spec(options.dir, options.image_name),
        }),
        PipelineStateView::Verify { image } => (PipelineActionView::RunVerify {
            filepath: image.filepath,
        }),
        PipelineStateView::Succeeded { .. } => PipelineActionView::Stop,
        PipelineStateView::Failed { .. } => PipelineActionView::Stop,
    }
}

/// One pipeline run: the options it was started with and where it stands.
pub struct Pipeline {
    pub options: Options,
    pub state: PipelineState,
}

impl Pipeline {
    /// Start a run at the first stage.
    pub fn new(options: Options) -> (p: Pipeline)
        ensures
            p.options == options,
            p.state == PipelineState::ValidateDirectory,
    {
        Pipeline { options, state: PipelineState::ValidateDirectory }
    }

    /// The run has finished, successfully or not.
    pub fn is_terminal(&self) -> (r: bool)
        ensures
            r == (self.state@ is Succeeded || self.state@ is Failed),
    {
        match &self.state {
            PipelineState::Succeeded { .. } => true,
            PipelineState::Failed { .. } => true,
            _ => false,
        }
    }

    /// The outside work to perform next.
    pub fn next_action(&self) -> (a: PipelineAction)
        ensures
            a@ == spec_next_action(self.state@, self.options@),
    {
        match &self.state {
            PipelineState::ValidateDirectory => (PipelineAction::StatDirectory {
                dir: self.options.dir.clone(),
            }),
            PipelineState::ProbeTool => PipelineAction::ProbeTool,
            PipelineState::UpdateIndex => PipelineAction::RunUpdateIndex,
            PipelineState::InstallTool => PipelineAction::RunInstallTool,
            PipelineState::ConflictCheck => (PipelineAction::StatFile {
                dir: self.options.dir.clone(),
                file_name: self.options.image_name.clone(),
            }),
            PipelineState::FillFreeSpace => (PipelineAction::RunFill {
                path: ("/tmp/emptyfile").to_owned(),
            }),
            PipelineState::EraseFillFile => (PipelineAction::RunErase {
                path: ("/tmp/emptyfile").to_owned(),
            }),
            PipelineState::Convert => (PipelineAction::RunConvert {
                device: self.options.device.clone(),
                filepath: qemu_img::image_file_path(
                    self.options.dir.as_str(),
                    self.options.image_name.as_str(),
                ),
            }),
            PipelineState::Verify { image } => (PipelineAction::RunVerify {
                filepath: image.filepath.clone(),
            }),
            PipelineState::Succeeded { .. } => PipelineAction::Stop,
            PipelineState::Failed { .. } => PipelineAction::Stop,
        }
    }

    /// Whether this event answers the action the current state asked for.
    pub fn matches_next(&self, event: &PipelineEvent) -> (r: bool)
        ensures
            r == awaits(self.state@, event@),
    {
        match (&self.state, event) {
            (PipelineState::ValidateDirectory, PipelineEvent::DirectoryChecked { .. }) => true,
            (PipelineState::ProbeTool, PipelineEvent::ToolProbed { .. }) => true,
            (PipelineState::UpdateIndex, PipelineEvent::CommandFinished { .. }) => true,
            (PipelineState::InstallTool, PipelineEvent::CommandFinished { .. }) => true,
            (PipelineState::ConflictCheck, PipelineEvent::FileChecked { .. }) => true,
            (PipelineState::FillFreeSpace, PipelineEvent::CommandFinished { .. }) => true,
            (PipelineState::EraseFillFile, PipelineEvent::CommandFinished { .. }) => true,
            (PipelineState::Convert, PipelineEvent::CommandFinished { .. }) => true,
            (PipelineState::Verify { .. }, PipelineEvent::CommandFinished { .. }) => true,
            _ => false,
        }
    }

    /// Advance the run by the outcome of the stage it was waiting on.
    pub fn step(self, event: &PipelineEvent) -> (r: Pipeline)
        requires
            awaits(self.state@, event@),
        ensures
            r.options == self.options,
            r.state@ == spec_step(self.state@, self.options@, event@),
    {
        let Pipeline { options, state } = self;
        let next: PipelineState = match (state, event) {
            (PipelineState::ValidateDirectory, PipelineEvent::DirectoryChecked { is_dir }) => {
                if *is_dir {
                    PipelineState::ProbeTool
                } else {
                    PipelineState::Failed {
                        error: PipelineError::InvalidDirectory { dir: options.dir.clone() },
                    }
                }
            },
            (PipelineState::ProbeTool, PipelineEvent::ToolProbed { installed }) => {
                if *installed {
                    PipelineState::ConflictCheck
                } else {
                    PipelineState::UpdateIndex
                }
            },
            (PipelineState::UpdateIndex, PipelineEvent::CommandFinished { output }) => {
                match qemu_img::update_index_outcome(output) {
                    Ok(_) => PipelineState::InstallTool,
                    Err(error) => PipelineState::Failed { error },
                }
            },
            (PipelineState::InstallTool, PipelineEvent::CommandFinished { output }) => {
                match qemu_img::install_outcome(output) {
                    Ok(_) => PipelineState::ConflictCheck,
                    Err(error) => PipelineState::Failed { error },
                }
            },
            (PipelineState::ConflictCheck, PipelineEvent::FileChecked { exists }) => {
                match free_space::check_conflict(
                    options.dir.as_str(),
                    options.image_name.as_str(),
                    *exists,
                ) {
                    Err(error) => PipelineState::Failed { error },
                    Ok(_) => {
                        match options.skip_free_space {
                            Some(true) => PipelineState::Convert,
                            _ => PipelineState::FillFreeSpace,
                        }
                    },
                }
            },
            (PipelineState::FillFreeSpace, PipelineEvent::CommandFinished { output }) => {
                match free_space::fill_outcome(output) {
                    Ok(_) => PipelineState::EraseFillFile,
                    Err(error) => PipelineState::Failed { error },
                }
            },
            (PipelineState::EraseFillFile, PipelineEvent::CommandFinished { output }) => {
                match free_space::erase_outcome(output) {
                    Ok(_) => PipelineState::Convert,
                    Err(error) => PipelineState::Failed { error },
                }
            },
            (PipelineState::Convert, PipelineEvent::CommandFinished { output }) => {
                match qemu_img::convert_outcome(
                    output,
                    options.dir.as_str(),
                    options.image_name.as_str(),
                ) {
                    Ok(image) => PipelineState::Verify { image },
                    Err(error) => PipelineState::Failed { error },
                }
            },
            (PipelineState::Verify { image }, PipelineEvent::CommandFinished { output }) => {
                match qemu_img::check_image_outcome(output) {
                    Ok(_) => PipelineState::Succeeded { image },
                    Err(error) => PipelineState::Failed { error },
                }
            },
            (other, _) => {
                // excluded by the precondition: every awaited pairing is
                // covered above
                proof {
                    assert(false);
                }
                other
            },
        };
        Pipeline { options, state: next }
    }
}

/// The views of a sequence of events.
pub open spec fn event_views(events: Seq<PipelineEvent>) -> Seq<PipelineEventView> {
    events.map_values(|e: PipelineEvent| e@)
}

/// Where a run started in `state` stands after consuming `events` in order,
/// stopping at a terminal state or at the first event that does not answer
/// the awaited action.
pub open spec fn spec_run_from(
    state: PipelineStateView,
    options: OptionsView,
    events: Seq<PipelineEventView>,
) -> PipelineStateView
    decreases events.len(),
{
    if events.len() == 0 || !awaits(state, events[0]) {
        state
    } else {
        spec_run_from(spec_step(state, options, events[0]), options, events.drop_first())
    }
}

/// Law: with a valid directory, the tool present, no name conflict, the
/// free-space fill skipped, and both conversion and verification succeeding,
/// the pipeline succeeds and the image stands at `<dir>/<image_name>.qcow2`.
pub proof fn lemma_pipeline_happy_path(
    options: OptionsView,
    convert_out: CmdOutputView,
    verify_out: CmdOutputView,
)
    requires
        options.skip_free_space == Some(true),
        convert_out.exit_success,
        verify_out.exit_success,
    ensures
        spec_run_from(
            PipelineStateView::ValidateDirectory,
            options,
            seq![
                PipelineEventView::DirectoryChecked { is_dir: true },
                PipelineEventView::ToolProbed { installed: true },
                PipelineEventView::FileChecked { exists: false },
                PipelineEventView::CommandFinished { output: convert_out },
                PipelineEventView::CommandFinished { output: verify_out },
            ],
        ) == (PipelineStateView::Succeeded {
            image: ImageDetailsView {
                filepath: image_path_spec(options.dir, options.image_name),
            },
        }),
{
    let e0 = PipelineEventView::DirectoryChecked { is_dir: true };
    let e1 = PipelineEventView::ToolProbed { installed: true };
    let e2 = PipelineEventView::FileChecked { exists: false };
    let e3 = PipelineEventView::CommandFinished { output: convert_out };
    let e4 = PipelineEventView::CommandFinished { output: verify_out };
    let verifying = PipelineStateView::Verify {
        image: ImageDetailsView { filepath: image_path_spec(options.dir, options.image_name) },
    };
    assert(seq![e0, e1, e2, e3, e4].drop_first() =~= seq![e1, e2, e3, e4]);
    assert(seq![e1, e2, e3, e4].drop_first() =~= seq![e2, e3, e4]);
    assert(seq![e2, e3, e4].drop_first() =~= seq![e3, e4]);
    assert(seq![e3, e4].drop_first() =~= seq![e4]);
    assert(seq![e4].drop_first() =~= Seq::<PipelineEventView>::empty());
    let done = PipelineStateView::Succeeded {
        image: ImageDetailsView { filepath: image_path_spec(options.dir, options.image_name) },
    };
    assert(spec_run_from(PipelineStateView::ValidateDirectory, options, seq![e0, e1, e2, e3, e4])
        == spec_run_from(PipelineStateView::ProbeTool, options, seq![e1, e2, e3, e4]));
    assert(spec_run_from(PipelineStateView::ProbeTool, options, seq![e1, e2, e3, e4])
        == spec_run_from(PipelineStateView::ConflictCheck, options, seq![e2, e3, e4]));
    assert(spec_run_from(PipelineStateView::ConflictCheck, options, seq![e2, e3, e4])
        == spec_run_from(PipelineStateView::Convert, options, seq![e3, e4]));
    assert(spec_run_from(PipelineStateView::Convert, options, seq![e3, e4]) == spec_run_from(
        verifying,
        options,
        seq![e4],
    ));
    assert(spec_run_from(verifying, options, seq![e4]) == spec_run_from(
        done,
        options,
        Seq::<PipelineEventView>::empty(),
    ));
    assert(spec_run_from(done, options, Seq::<PipelineEventView>::empty()) == done);
}

/// Law: when a file with the target image's name already exists, the
/// pipeline aborts at the conflict check, before any stage that writes, with
/// an error naming the offending file and directory; further events change
/// nothing.
pub proof fn lemma_pipeline_conflict_aborts(
    options: OptionsView,
    rest: Seq<PipelineEventView>,
)
    ensures
        spec_run_from(
            PipelineStateView::ValidateDirectory,
            options,
            seq![
                PipelineEventView::DirectoryChecked { is_dir: true },
                PipelineEventView::ToolProbed { installed: true },
                PipelineEventView::FileChecked { exists: true },
            ] + rest,
        ) == (PipelineStateView::Failed {
            error: PipelineErrorView::Conflict {
                file_name: options.image_name,
                dir: options.dir,
            },
        }),
{
    let e0 = PipelineEventView::DirectoryChecked { is_dir: true };
    let e1 = PipelineEventView::ToolProbed { installed: true };
    let e2 = PipelineEventView::FileChecked { exists: true };
    let failed = PipelineStateView::Failed {
        error: PipelineErrorView::Conflict { file_name: options.image_name, dir: options.dir },
    };
    let events = seq![e0, e1, e2] + rest;
    assert(events[0] == e0);
    assert(events.drop_first() =~= seq![e1, e2] + rest);
    assert((seq![e1, e2] + rest).drop_first() =~= seq![e2] + rest);
    assert((seq![e2] + rest)[0] == e2);
    assert((seq![e2] + rest).drop_first() =~= rest);
    assert(spec_run_from(PipelineStateView::ValidateDirectory, options, events) == spec_run_from(
        PipelineStateView::ProbeTool,
        options,
        seq![e1, e2] + rest,
    ));
    assert((seq![e1, e2] + rest)[0] == e1);
    assert(spec_run_from(PipelineStateView::ProbeTool, options, seq![e1, e2] + rest)
        == spec_run_from(PipelineStateView::ConflictCheck, options, seq![e2] + rest));
    assert(spec_run_from(PipelineStateView::ConflictCheck, options, seq![e2] + rest)
        == spec_run_from(failed, options, rest));
    if rest.len() == 0 {
        assert(spec_run_from(failed, options, rest) == failed);
    } else {
        assert(!awaits(failed, rest[0]));
        assert(spec_run_from(failed, options, rest) == failed);
    }
}

/// Run the pipeline over a sequence of stage outcomes: start at the first
/// stage and step once per event, stopping when the run is terminal or an
/// event does not answer the awaited action.
pub fn run(options: Options, events: &Vec<PipelineEvent>) -> (p: Pipeline)
    ensures
        p.options == options,
        p.state@ == spec_run_from(
            PipelineStateView::ValidateDirectory,
            options@,
            event_views(events@),
        ),
{
    let ghost ev = event_views(events@);
    let mut p = Pipeline::new(options);
    let n = events.len();
    let mut i: usize = 0;
    proof {
        assert(ev.skip(0) =~= ev);
    }
    while i < n
        invariant
            n == events.len(),
            event_views(events@) == ev,
            p.options == options,
            0 <= i <= n,
            spec_run_from(PipelineStateView::ValidateDirectory, options@, ev) == spec_run_from(
                p.state@,
                options@,
                ev.skip(i as int),
            ),
        decreases n - i,
    {
        proof {
            assert(ev.skip(i as int).drop_first() =~= ev.skip(i + 1));
            assert(ev.skip(i as int)[0] == ev[i as int]);
            assert(ev[i as int] == events@[i as int]@);
        }
        if !p.matches_next(&events[i]) {
            return p;
        }
        p = p.step(&events[i]);
        i += 1;
    }
    proof {
        assert(ev.skip(n as int) =~= Seq::<PipelineEventView>::empty());
    }
    p
}

} // verus!
