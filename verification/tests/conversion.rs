use media_convert::engine::interpret_engine_outcome;
use media_convert::error::{engine_launch_failure, io_failure, scratch_dir_failure, ErrorKind};
use media_convert::mime::mime_label;
use media_convert::paths::resolve_output_path;
use media_convert::pipeline::{plan_conversion, PlannedAction};
use media_convert::text::{lower_ascii, u32_to_dec};

const SCALE_FILTER: &str = "scale='min(256,iw)':'min(256,ih)':force_original_aspect_ratio=decrease";

#[test]
fn resolves_stem_and_lowercases_format() {
    let r = resolve_output_path("/tmp/photo.png", "WEBP", "/tmp").unwrap();
    assert_eq!(r, "/tmp/photo.webp");
}

#[test]
fn resolves_inside_scratch_with_trailing_separator() {
    let r = resolve_output_path("/home/u/pics/archive.tar.gz", "ICO", "/scratch/").unwrap();
    assert_eq!(r, "/scratch/archive.tar.ico");
}

#[test]
fn hidden_file_name_is_all_stem() {
    let r = resolve_output_path(".bashrc", "png", "/tmp").unwrap();
    assert_eq!(r, "/tmp/.bashrc.png");
}

#[test]
fn path_without_file_name_is_invalid_input() {
    let e = resolve_output_path("/tmp/dir/", "png", "/tmp").unwrap_err();
    assert_eq!(e.kind, ErrorKind::InvalidInput);
    let e = resolve_output_path("", "png", "/tmp").unwrap_err();
    assert_eq!(e.kind, ErrorKind::InvalidInput);
    let e = plan_conversion("/tmp/dir/", "png", "/tmp").unwrap_err();
    assert_eq!(e.kind, ErrorKind::InvalidInput);
}

#[test]
fn default_strategy_args_exact() {
    let plan = plan_conversion("/tmp/a.png", "webp", "/tmp").unwrap();
    assert_eq!(plan.output_path, "/tmp/a.webp");
    match plan.action {
        PlannedAction::RunEngine { args } => {
            assert_eq!(args, vec!["-i", "/tmp/a.png", "-y", "/tmp/a.webp"]);
        }
        _ => panic!("expected an engine invocation"),
    }
}

#[test]
fn ico_strategy_adds_scale_filter() {
    let plan = plan_conversion("/tmp/photo.png", "ico", "/tmp").unwrap();
    assert_eq!(plan.output_path, "/tmp/photo.ico");
    match plan.action {
        PlannedAction::RunEngine { args } => {
            assert_eq!(
                args,
                vec!["-i", "/tmp/photo.png", "-y", "-vf", SCALE_FILTER, "/tmp/photo.ico"]
            );
        }
        _ => panic!("expected an engine invocation"),
    }
}

#[test]
fn svg_strategy_plans_embedding() {
    let plan = plan_conversion("/tmp/photo.png", "SVG", "/tmp").unwrap();
    assert_eq!(plan.output_path, "/tmp/photo.svg");
    assert!(matches!(plan.action, PlannedAction::VectorEmbed));
}

#[test]
fn engine_failure_carries_stderr() {
    let e = interpret_engine_outcome(false, "boom: no such codec", "/tmp/a.webp".to_string())
        .unwrap_err();
    assert_eq!(e.kind, ErrorKind::EngineExecutionError);
    assert_eq!(e.message, "engine failed: boom: no such codec");
    assert!(e.message.contains("boom: no such codec"));
}

#[test]
fn engine_success_returns_path() {
    let r = interpret_engine_outcome(true, "", "/tmp/a.webp".to_string()).unwrap();
    assert_eq!(r, "/tmp/a.webp");
}

#[test]
fn engine_launch_error_kind() {
    let e = engine_launch_failure("No such file or directory (os error 2)");
    assert_eq!(e.kind, ErrorKind::EngineLaunchError);
    assert_eq!(
        e.message,
        "engine launch failed: No such file or directory (os error 2)"
    );
}

#[test]
fn remaining_failure_kinds() {
    let e = scratch_dir_failure("no temp dir");
    assert_eq!(e.kind, ErrorKind::ScratchDirUnavailable);
    assert_eq!(e.message, "scratch directory unavailable: no temp dir");
    let e = io_failure("disk full");
    assert_eq!(e.kind, ErrorKind::IOError);
    assert_eq!(e.message, "i/o failed: disk full");
}

#[test]
fn mime_table() {
    assert_eq!(mime_label(&Some("png".to_string())), "image/png");
    assert_eq!(mime_label(&Some("jpg".to_string())), "image/jpeg");
    assert_eq!(mime_label(&Some("jpeg".to_string())), "image/jpeg");
    assert_eq!(mime_label(&Some("webp".to_string())), "image/webp");
    assert_eq!(mime_label(&Some("gif".to_string())), "image/gif");
    assert_eq!(mime_label(&Some("bmp".to_string())), "image/png");
    assert_eq!(mime_label(&None), "image/png");
}

#[test]
fn lowercasing_and_decimal_rendering() {
    assert_eq!(lower_ascii("SvG"), "svg");
    assert_eq!(lower_ascii("ICO"), "ico");
    assert_eq!(lower_ascii("already_lower.123"), "already_lower.123");
    assert_eq!(u32_to_dec(0), "0");
    assert_eq!(u32_to_dec(7), "7");
    assert_eq!(u32_to_dec(1024), "1024");
    assert_eq!(u32_to_dec(4294967295), "4294967295");
}
