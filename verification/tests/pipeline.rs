use xcb_errors::pipeline::{
    after, generator_command, judge_script, metadata, Outcome, Progress, ScriptRun, Step,
};

#[test]
fn the_build_starts_with_the_generator() {
    assert_eq!(Step::first(), Step::GenerateExtensions);
}

#[test]
fn the_steps_follow_each_other() {
    assert_eq!(Step::GenerateExtensions.next(), Some(Step::CompileArchive));
    assert_eq!(Step::CompileArchive.next(), Some(Step::GenerateBindings));
    assert_eq!(Step::GenerateBindings.next(), Some(Step::EmitMetadata));
    assert_eq!(Step::EmitMetadata.next(), None);
}

#[test]
fn a_build_without_failure_takes_each_step_once() {
    let mut taken = vec![Step::first()];
    loop {
        let step = taken[taken.len() - 1];
        match after(step, Outcome::Done) {
            Progress::Run(next) => taken.push(next),
            Progress::Finished => break,
            Progress::Aborted(failure) => panic!("no step failed, yet: {:?}", failure),
        }
        assert!(taken.len() <= 4);
    }
    assert_eq!(
        taken,
        vec![
            Step::GenerateExtensions,
            Step::CompileArchive,
            Step::GenerateBindings,
            Step::EmitMetadata
        ]
    );
}

#[test]
fn a_failed_step_ends_the_build() {
    for step in [
        Step::GenerateExtensions,
        Step::CompileArchive,
        Step::GenerateBindings,
        Step::EmitMetadata,
    ] {
        match after(step, Outcome::Failed(String::from("no such file"))) {
            Progress::Aborted(failure) => {
                assert_eq!(failure.step, step);
                assert_eq!(failure.log, "no such file");
            },
            other => panic!("the build went on: {:?}", other),
        }
    }
}

#[test]
fn a_script_that_exits_with_zero_is_done() {
    let run = ScriptRun::Exited { success: true, stderr: String::from("warning: skipped") };
    assert!(matches!(judge_script(run), Outcome::Done));
}

#[test]
fn a_script_that_exits_with_another_status_failed() {
    let run = ScriptRun::Exited { success: false, stderr: String::from("Traceback") };
    match judge_script(run) {
        Outcome::Failed(log) => assert_eq!(log, "Traceback"),
        Outcome::Done => panic!("a failed run was taken for a success"),
    }
}

#[test]
fn a_script_that_did_not_start_failed() {
    match judge_script(ScriptRun::NotStarted(String::from("No such file or directory"))) {
        Outcome::Failed(log) => assert_eq!(log, "No such file or directory"),
        Outcome::Done => panic!("a run that never started was taken for a success"),
    }
}

#[test]
fn the_generator_command_names_output_and_descriptions() {
    assert_eq!(
        generator_command("/tmp/out/extensions.c"),
        "external/src/extensions.py /tmp/out/extensions.c /usr/share/xcb/*.xml"
    );
    assert_eq!(generator_command(""), "external/src/extensions.py  /usr/share/xcb/*.xml");
}

#[test]
fn the_metadata_names_library_and_inputs() {
    assert_eq!(
        metadata(),
        vec![
            "cargo:rustc-link-lib=xcb_errors",
            "cargo:rerun-if-changed=external/src/xcb_errors.c",
            "cargo:rerun-if-changed=external/src/xcb_errors.h",
            "cargo:rerun-if-changed=external/src/errors.h",
        ]
    );
}
