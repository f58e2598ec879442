use lume_core::CompileError;
use lume_core::WorkspaceErrorKind;
use lume_core::evaluate_compile_outcome;
use lume_core::plan_compile;

#[test]
fn empty_source_is_rejected_before_any_work() {
    let r = plan_compile("");
    match r {
        Err(CompileError::Workspace(kind, m)) => {
            assert_eq!(kind, WorkspaceErrorKind::EmptyInput);
            assert_eq!(m, "Latex content is empty. Please add some code and try again.");
        }
        _ => panic!("expected an empty-input workspace error"),
    }
}

#[test]
fn whitespace_source_is_rejected() {
    let r = plan_compile("  \n\t  \r\n ");
    assert!(matches!(
        r,
        Err(CompileError::Workspace(WorkspaceErrorKind::EmptyInput, _))
    ));
}

#[test]
fn plan_fixes_names_and_arguments() {
    let plan = plan_compile("\\documentclass{article}").unwrap();
    assert_eq!(plan.source_name, "main.tex");
    assert_eq!(plan.output_name, "main.pdf");
    assert_eq!(plan.args, vec!["-X", "compile", "main.tex", "--synctex"]);
    assert_eq!(plan.source, "\\documentclass{article}");
}

#[test]
fn nonzero_exit_reports_full_transcript() {
    let stdout = b"building...\n".to_vec();
    let stderr = b"error: undefined control sequence".to_vec();
    let r = evaluate_compile_outcome(false, &stdout, &stderr, None, &Vec::new());
    match r {
        Err(CompileError::NonZeroExit(m)) => {
            assert_eq!(m, "STDOUT: building...\n\nSTDERR: error: undefined control sequence");
        }
        _ => panic!("expected a nonzero-exit error"),
    }
}

#[test]
fn missing_output_lists_workspace_files() {
    let files = vec![
        String::from("main.tex"),
        String::from("main.log"),
        String::from("main.aux"),
    ];
    let r = evaluate_compile_outcome(true, &Vec::new(), &Vec::new(), None, &files);
    match r {
        Err(CompileError::MissingOutput(m)) => {
            assert_eq!(
                m,
                "PDF not generated. Files in temp: [\"main.tex\", \"main.log\", \"main.aux\"]"
            );
        }
        _ => panic!("expected a missing-output error"),
    }
}

#[test]
fn missing_output_with_empty_workspace_lists_nothing() {
    let r = evaluate_compile_outcome(true, &Vec::new(), &Vec::new(), None, &Vec::new());
    match r {
        Err(CompileError::MissingOutput(m)) => {
            assert_eq!(m, "PDF not generated. Files in temp: []");
        }
        _ => panic!("expected a missing-output error"),
    }
}

#[test]
fn invalid_signature_is_rejected_despite_zero_exit() {
    let bogus = b"<!DOCTYPE html><p>not a pdf</p>".to_vec();
    let r = evaluate_compile_outcome(true, &Vec::new(), &Vec::new(), Some(bogus), &Vec::new());
    match r {
        Err(CompileError::InvalidOutput(m)) => {
            assert_eq!(
                m,
                "Generated file is not a valid PDF. Output starts with: <!DOCTYPE html><p>not a pdf</p>"
            );
        }
        _ => panic!("expected an invalid-output error"),
    }
}

#[test]
fn invalid_output_preview_is_truncated_to_fifty_bytes() {
    let mut bogus = Vec::new();
    for _ in 0..80 {
        bogus.push(b'x');
    }
    let r = evaluate_compile_outcome(true, &Vec::new(), &Vec::new(), Some(bogus), &Vec::new());
    match r {
        Err(CompileError::InvalidOutput(m)) => {
            let prefix = "Generated file is not a valid PDF. Output starts with: ";
            assert!(m.starts_with(prefix));
            assert_eq!(m.len() - prefix.len(), 50);
        }
        _ => panic!("expected an invalid-output error"),
    }
}

#[test]
fn invalid_output_with_non_utf8_bytes_is_decoded_lossily() {
    let bogus = vec![0xff, 0xfe, b'A', b'B'];
    let r = evaluate_compile_outcome(true, &Vec::new(), &Vec::new(), Some(bogus), &Vec::new());
    match r {
        Err(CompileError::InvalidOutput(m)) => {
            assert_eq!(
                m,
                "Generated file is not a valid PDF. Output starts with: \u{FFFD}\u{FFFD}AB"
            );
        }
        _ => panic!("expected an invalid-output error"),
    }
}

#[test]
fn short_output_is_invalid() {
    let r = evaluate_compile_outcome(true, &Vec::new(), &Vec::new(), Some(b"%PD".to_vec()), &Vec::new());
    assert!(matches!(r, Err(CompileError::InvalidOutput(_))));
}

#[test]
fn valid_pdf_round_trips_byte_for_byte() {
    let mut written = b"%PDF-1.7\n".to_vec();
    written.extend_from_slice(&[0x00, 0x01, 0xfe, 0xff]);
    let r = evaluate_compile_outcome(
        true,
        &b"ok".to_vec(),
        &Vec::new(),
        Some(written.clone()),
        &Vec::new(),
    );
    assert_eq!(r.unwrap(), written);
}

#[test]
fn exactly_signature_is_valid() {
    let written = b"%PDF".to_vec();
    let r = evaluate_compile_outcome(true, &Vec::new(), &Vec::new(), Some(written.clone()), &Vec::new());
    assert_eq!(r.unwrap(), written);
}

#[test]
fn compile_error_message_accessor() {
    let e = CompileError::ProcessSpawn(String::from("no such file"));
    assert_eq!(e.message(), "no such file");
}
