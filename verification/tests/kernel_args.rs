use vpc_migration_tools::checks::kernel_args::{
    add_missing_args, add_required_args_to_kernel, check_kernel_args, required_args_line,
};

#[test]
fn test_add_missing_args() {
    let current_value = "console=ttyS0 vga=normal nofb";
    let required_args = "console=ttyS0 vga=normal nofb nomodeset";

    let new_value = add_missing_args(current_value, required_args);

    assert_eq!(new_value, required_args);
}

#[test]
fn test_add_to_empty() {
    let current_value = "";
    let required_args = "console=ttyS0 vga=normal nofb nomodeset";

    let new_value = add_missing_args(current_value, required_args);

    assert_eq!(new_value, required_args);
}

#[test]
fn test_add_missing_args_idempotent() {
    let current_value = "console=ttyS0 vga=normal nofb nomodeset";
    let required_args = "console=ttyS0 vga=normal nofb nomodeset";

    let new_value = add_missing_args(current_value, required_args);

    assert_eq!(new_value, current_value);
}

#[test]
fn test_add_missing_args_keeps_existing_order() {
    let new_value = add_missing_args("quiet splash", "console=ttyS0 vga=normal nofb nomodeset");
    assert_eq!(new_value, "quiet splash console=ttyS0 vga=normal nofb nomodeset");
}

#[test]
fn test_add_missing_args_trims_whitespace() {
    let new_value = add_missing_args("  quiet  ", "nomodeset");
    assert_eq!(new_value, "quiet nomodeset");
}

#[test]
fn test_check_kernel_args_all_present() {
    let result = check_kernel_args("ro quiet console=ttyS0 vga=normal nofb nomodeset");
    assert!(result.is_supported);
    assert_eq!(result.missing_args.len(), 0);
}

#[test]
fn test_check_kernel_args_one_missing() {
    let result = check_kernel_args("ro quiet console=ttyS0 vga=normal nofb");
    assert!(!result.is_supported);
    assert_eq!(result.missing_args, vec!["nomodeset".to_string()]);
}

#[test]
fn test_check_kernel_args_all_missing_in_order() {
    let result = check_kernel_args("ro quiet");
    assert!(!result.is_supported);
    assert_eq!(
        result.missing_args,
        vec![
            "nomodeset".to_string(),
            "nofb".to_string(),
            "vga=normal".to_string(),
            "console=ttyS0".to_string()
        ]
    );
}

#[test]
fn test_required_args_line() {
    assert_eq!(required_args_line(), "console=ttyS0 vga=normal nofb nomodeset");
}

#[test]
fn test_rewrite_grub_line() {
    let content = "GRUB_DEFAULT=0\nGRUB_CMDLINE_LINUX=\"quiet splash\"\n".to_string();
    let rewritten = add_required_args_to_kernel("console=ttyS0 vga=normal nofb nomodeset", content);
    assert_eq!(
        rewritten,
        "GRUB_DEFAULT=0\nGRUB_CMDLINE_LINUX=\"quiet splash console=ttyS0 vga=normal nofb nomodeset\""
    );
}

#[test]
fn test_rewrite_grub_line_already_complete() {
    let content = "GRUB_CMDLINE_LINUX=\"console=ttyS0 vga=normal nofb nomodeset\"".to_string();
    let rewritten = add_required_args_to_kernel("console=ttyS0 vga=normal nofb nomodeset", content);
    assert_eq!(rewritten, "GRUB_CMDLINE_LINUX=\"console=ttyS0 vga=normal nofb nomodeset\"");
}

#[test]
fn test_rewrite_grub_keeps_other_lines() {
    let content = "GRUB_TIMEOUT=5\nGRUB_DISTRIBUTOR=x".to_string();
    let rewritten = add_required_args_to_kernel("nomodeset", content);
    assert_eq!(rewritten, "GRUB_TIMEOUT=5\nGRUB_DISTRIBUTOR=x");
}

#[test]
fn test_rewrite_grub_value_with_equals_signs() {
    let content = "GRUB_CMDLINE_LINUX=\"console=ttyS0 quiet\"".to_string();
    let rewritten = add_required_args_to_kernel("console=ttyS0 vga=normal nofb nomodeset", content);
    assert_eq!(
        rewritten,
        "GRUB_CMDLINE_LINUX=\"console=ttyS0 quiet vga=normal nofb nomodeset\""
    );
}

#[test]
fn test_check_kernel_args_matches_substrings() {
    let result = check_kernel_args("console=ttyS0,115200 vga=normal nofb nomodeset");
    assert!(result.is_supported);
}

#[test]
fn test_rewrite_grub_empty_value() {
    let content = "GRUB_CMDLINE_LINUX=\"\"".to_string();
    let rewritten = add_required_args_to_kernel("nofb nomodeset", content);
    assert_eq!(rewritten, "GRUB_CMDLINE_LINUX=\"nofb nomodeset\"");
}
