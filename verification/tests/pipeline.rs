use vpc_migration_tools::command::CmdOutput;
use vpc_migration_tools::create_image::error::PipelineError;
use vpc_migration_tools::create_image::free_space::{check_conflict, erase_outcome, fill_outcome};
use vpc_migration_tools::create_image::partitions::parse_device_list;
use vpc_migration_tools::create_image::qemu_img::{
    check_image_outcome, convert_outcome, image_file_path, install_outcome, update_index_outcome,
};
use vpc_migration_tools::create_image::run_process::{
    run, Options, Pipeline, PipelineAction, PipelineEvent, PipelineState,
};
use vpc_migration_tools::utils::DeviceEntry;

fn out(ok: bool, stderr: &str) -> CmdOutput {
    CmdOutput { exit_success: ok, stdout: String::new(), stderr: stderr.to_string() }
}

fn options(skip: Option<bool>) -> Options {
    Options {
        skip_free_space: skip,
        image_name: "myimage".to_string(),
        dir: "/tmp".to_string(),
        device: "/dev/sda".to_string(),
    }
}

#[test]
fn test_check_conflict_reports_file_and_directory() {
    match check_conflict("/tmp", "myimage", true) {
        Err(PipelineError::Conflict { file_name, dir }) => {
            assert_eq!(file_name, "myimage");
            assert_eq!(dir, "/tmp");
        }
        _ => panic!("expected a conflict error"),
    }
    assert!(check_conflict("/tmp", "myimage", false).is_ok());
}

#[test]
fn test_fill_outcome_no_space_is_success() {
    let result = fill_outcome(&out(false, "dd: writing: No space left on device"));
    assert!(result.is_ok());
}

#[test]
fn test_fill_outcome_other_failure_is_fatal() {
    match fill_outcome(&out(false, "dd: permission denied")) {
        Err(PipelineError::FillFailed { message }) => {
            assert_eq!(message, "dd: permission denied");
        }
        _ => panic!("expected a fill failure"),
    }
    assert!(fill_outcome(&out(true, "")).is_ok());
}

#[test]
fn test_erase_outcome() {
    assert!(erase_outcome(&out(true, "")).is_ok());
    match erase_outcome(&out(false, "rm: not found")) {
        Err(PipelineError::EraseFailed { message }) => assert_eq!(message, "rm: not found"),
        _ => panic!("expected an erase failure"),
    }
}

#[test]
fn test_image_file_path() {
    assert_eq!(image_file_path("/tmp", "myimage"), "/tmp/myimage.qcow2");
}

#[test]
fn test_convert_outcome() {
    match convert_outcome(&out(true, ""), "/tmp", "myimage") {
        Ok(image) => assert_eq!(image.filepath, "/tmp/myimage.qcow2"),
        Err(_) => panic!("expected success"),
    }
    match convert_outcome(&out(false, "bad device"), "/tmp", "myimage") {
        Err(PipelineError::CreateImageFailed { message }) => assert_eq!(message, "bad device"),
        _ => panic!("expected a conversion failure"),
    }
}

#[test]
fn test_install_outcomes() {
    assert!(update_index_outcome(&out(true, "")).is_ok());
    assert!(matches!(
        update_index_outcome(&out(false, "")),
        Err(PipelineError::UpdateIndexFailed)
    ));
    assert!(install_outcome(&out(true, "")).is_ok());
    assert!(matches!(install_outcome(&out(false, "")), Err(PipelineError::InstallFailed)));
}

#[test]
fn test_check_image_outcome() {
    assert!(check_image_outcome(&out(true, "")).is_ok());
    match check_image_outcome(&out(false, "corrupt")) {
        Err(PipelineError::CheckImageFailed { message }) => assert_eq!(message, "corrupt"),
        _ => panic!("expected a check failure"),
    }
}

#[test]
fn test_error_messages() {
    assert_eq!(
        PipelineError::InvalidDirectory { dir: "/nope".to_string() }.message(),
        "Invalid directory: /nope"
    );
    assert_eq!(PipelineError::UpdateIndexFailed.message(), "Failed to update apt-get");
    assert_eq!(PipelineError::InstallFailed.message(), "Failed to install qemu-utils");
    assert_eq!(
        PipelineError::Conflict { file_name: "img".to_string(), dir: "/tmp".to_string() }
            .message(),
        "Conflict: a file named img already exists in /tmp"
    );
    assert_eq!(
        PipelineError::FillFailed { message: "x".to_string() }.message(),
        "Failed to create empty file: x"
    );
    assert_eq!(
        PipelineError::EraseFailed { message: "x".to_string() }.message(),
        "Failed to erase empty file: x"
    );
    assert_eq!(
        PipelineError::CreateImageFailed { message: "x".to_string() }.message(),
        "Failed to create image: x"
    );
    assert_eq!(
        PipelineError::CheckImageFailed { message: "x".to_string() }.message(),
        "Failed to check image: x"
    );
}

#[test]
fn test_pipeline_end_to_end_skip_free_space() {
    let p = Pipeline::new(options(Some(true)));
    match p.next_action() {
        PipelineAction::StatDirectory { dir } => assert_eq!(dir, "/tmp"),
        _ => panic!("expected a directory probe"),
    }
    let p = p.step(&PipelineEvent::DirectoryChecked { is_dir: true });
    assert!(matches!(p.next_action(), PipelineAction::ProbeTool));
    let p = p.step(&PipelineEvent::ToolProbed { installed: true });
    match p.next_action() {
        PipelineAction::StatFile { dir, file_name } => {
            assert_eq!(dir, "/tmp");
            assert_eq!(file_name, "myimage");
        }
        _ => panic!("expected a conflict probe"),
    }
    let p = p.step(&PipelineEvent::FileChecked { exists: false });
    match p.next_action() {
        PipelineAction::RunConvert { device, filepath } => {
            assert_eq!(device, "/dev/sda");
            assert_eq!(filepath, "/tmp/myimage.qcow2");
        }
        _ => panic!("expected the conversion to be invoked"),
    }
    let p = p.step(&PipelineEvent::CommandFinished { output: out(true, "") });
    match p.next_action() {
        PipelineAction::RunVerify { filepath } => assert_eq!(filepath, "/tmp/myimage.qcow2"),
        _ => panic!("expected the verification to be invoked"),
    }
    let p = p.step(&PipelineEvent::CommandFinished { output: out(true, "") });
    assert!(p.is_terminal());
    match p.state {
        PipelineState::Succeeded { image } => assert_eq!(image.filepath, "/tmp/myimage.qcow2"),
        _ => panic!("expected overall success"),
    }
}

#[test]
fn test_pipeline_conflict_aborts_before_any_write() {
    let events = vec![
        PipelineEvent::DirectoryChecked { is_dir: true },
        PipelineEvent::ToolProbed { installed: true },
        PipelineEvent::FileChecked { exists: true },
    ];
    let p = run(options(Some(false)), &events);
    assert!(p.is_terminal());
    assert!(matches!(p.next_action(), PipelineAction::Stop));
    match p.state {
        PipelineState::Failed { error: PipelineError::Conflict { file_name, dir } } => {
            assert_eq!(file_name, "myimage");
            assert_eq!(dir, "/tmp");
        }
        _ => panic!("expected a conflict failure"),
    }
}

#[test]
fn test_pipeline_full_run_with_fill() {
    let events = vec![
        PipelineEvent::DirectoryChecked { is_dir: true },
        PipelineEvent::ToolProbed { installed: true },
        PipelineEvent::FileChecked { exists: false },
        PipelineEvent::CommandFinished { output: out(false, "No space left on device") },
        PipelineEvent::CommandFinished { output: out(true, "") },
        PipelineEvent::CommandFinished { output: out(true, "") },
        PipelineEvent::CommandFinished { output: out(true, "") },
    ];
    let p = run(options(None), &events);
    match p.state {
        PipelineState::Succeeded { image } => assert_eq!(image.filepath, "/tmp/myimage.qcow2"),
        _ => panic!("expected overall success"),
    }
}

#[test]
fn test_pipeline_fill_requested_unless_skipped() {
    let p = Pipeline::new(options(None))
        .step(&PipelineEvent::DirectoryChecked { is_dir: true })
        .step(&PipelineEvent::ToolProbed { installed: true })
        .step(&PipelineEvent::FileChecked { exists: false });
    match p.next_action() {
        PipelineAction::RunFill { path } => assert_eq!(path, "/tmp/emptyfile"),
        _ => panic!("expected the fill stage"),
    }
    let p = p.step(&PipelineEvent::CommandFinished { output: out(false, "disk on fire") });
    match p.state {
        PipelineState::Failed { error: PipelineError::FillFailed { message } } => {
            assert_eq!(message, "disk on fire");
        }
        _ => panic!("expected a fill failure"),
    }
}

#[test]
fn test_pipeline_invalid_directory() {
    let p = run(options(Some(true)), &vec![PipelineEvent::DirectoryChecked { is_dir: false }]);
    match p.state {
        PipelineState::Failed { error: PipelineError::InvalidDirectory { dir } } => {
            assert_eq!(dir, "/tmp");
        }
        _ => panic!("expected an invalid-directory failure"),
    }
}

#[test]
fn test_pipeline_installs_missing_tool() {
    let p = Pipeline::new(options(Some(true)))
        .step(&PipelineEvent::DirectoryChecked { is_dir: true })
        .step(&PipelineEvent::ToolProbed { installed: false });
    assert!(matches!(p.next_action(), PipelineAction::RunUpdateIndex));
    let p = p.step(&PipelineEvent::CommandFinished { output: out(true, "") });
    assert!(matches!(p.next_action(), PipelineAction::RunInstallTool));
    let p = p.step(&PipelineEvent::CommandFinished { output: out(false, "") });
    assert!(matches!(
        p.state,
        PipelineState::Failed { error: PipelineError::InstallFailed }
    ));
}

#[test]
fn test_pipeline_verify_failure_reports_overall_failure() {
    let events = vec![
        PipelineEvent::DirectoryChecked { is_dir: true },
        PipelineEvent::ToolProbed { installed: true },
        PipelineEvent::FileChecked { exists: false },
        PipelineEvent::CommandFinished { output: out(true, "") },
        PipelineEvent::CommandFinished { output: out(false, "leaked clusters") },
    ];
    let p = run(options(Some(true)), &events);
    match p.state {
        PipelineState::Failed { error: PipelineError::CheckImageFailed { message } } => {
            assert_eq!(message, "leaked clusters");
        }
        _ => panic!("expected a verification failure"),
    }
}

#[test]
fn test_parse_device_list() {
    let stdout = "NAME TYPE\nsda  disk\nsr0  rom\nnvme0n1 disk\n";
    let devices = parse_device_list(stdout);
    assert_eq!(devices.len(), 2);
    assert_eq!(devices[0].label, "sda");
    assert_eq!(devices[0].value, "/dev/sda");
    assert_eq!(devices[1].label, "nvme0n1");
    assert_eq!(devices[1].value, "/dev/nvme0n1");
}

#[test]
fn test_parse_device_list_empty() {
    assert_eq!(parse_device_list("").len(), 0);
    assert_eq!(parse_device_list("NAME TYPE\n").len(), 0);
}

#[test]
fn test_device_entry_describe() {
    let entry = DeviceEntry { label: "sda".to_string(), value: "/dev/sda".to_string() };
    assert_eq!(entry.describe(), "sda (/dev/sda)");
}
