use code_marker::admission::{Admission, MAX_OPEN_SANDBOXES};
use code_marker::marking::{result_label, MarkQuestionFormBody, UNAVAILABLE_MESSAGE};
use code_marker::outcome::{InternalError, RunFailure, Stage};
use code_marker::question_bank::{find_question, get_questions, DODO_EAGLE_ID};
use code_marker::sandbox::{
    idle_entrypoint, stage_command, SANDBOX_IMAGE, SANDBOX_MOUNT_PATH, SOURCE_FILE_NAME,
};

#[test]
fn catalogue_holds_one_question() {
    let questions = get_questions();
    assert_eq!(questions.len(), 1);
    let q = &questions[&1];
    assert_eq!(q.name, "Dodo the Eagle [Medium]");
    assert!(q.text.contains("record Eagle(double speed) implements Bird{}"));
    assert!(q.text.starts_with("//7 there is record"));
    assert!(q.description.is_none());
    assert!(q.help.is_none());
    assert!(q.hints.is_empty());
}

#[test]
fn lookup_by_id() {
    let questions = get_questions();
    assert_eq!(DODO_EAGLE_ID, 1);
    assert_eq!(find_question(&questions, 1).unwrap().name, "Dodo the Eagle [Medium]");
    assert!(find_question(&questions, 2).is_none());
    assert!(find_question(&questions, -1).is_none());
}

#[test]
fn stage_commands() {
    let compile = stage_command(Stage::Compile);
    assert_eq!(compile.cmd, vec!["javac", "-Xlint", "Exercise.java"]);
    assert_eq!(compile.working_dir, "/workspace");
    assert!(compile.attach_stdout && compile.attach_stderr);
    let run = stage_command(Stage::Run);
    assert_eq!(run.cmd, vec!["java", "-ea", "Exercise"]);
    assert_eq!(run.working_dir, SANDBOX_MOUNT_PATH);
    assert_eq!(idle_entrypoint(), vec!["tail", "-F", "/dev/null"]);
    assert_eq!(SOURCE_FILE_NAME, "Exercise.java");
    assert_eq!(SANDBOX_IMAGE, "eclipse-temurin:17.0.3_7-jdk-jammy");
}

#[test]
fn admission_bounds_open_sandboxes() {
    let mut admission = Admission::new(2);
    assert!(admission.try_admit());
    assert!(admission.try_admit());
    assert!(!admission.try_admit());
    assert_eq!(admission.open_sandboxes(), 2);
    admission.release();
    assert_eq!(admission.open_sandboxes(), 1);
    assert!(admission.try_admit());
    admission.release();
    admission.release();
    admission.release();
    assert_eq!(admission.open_sandboxes(), 0);
    let mut none = Admission::new(0);
    assert!(!none.try_admit());
    assert_eq!(MAX_OPEN_SANDBOXES, 4);
}

#[test]
fn labels_of_results() {
    assert_eq!(result_label(&Ok(vec![])), "success");
    assert_eq!(
        result_label(&Err(RunFailure::Internal(InternalError::ImageUnavailable))),
        "internal_error"
    );
    assert_eq!(
        result_label(&Err(RunFailure::CompilationError { output: vec![], exit_code: 1 })),
        "compile_failure"
    );
    assert_eq!(
        result_label(&Err(RunFailure::RuntimeError { output: vec![], exit_code: 1 })),
        "runtime_failure"
    );
    assert_eq!(UNAVAILABLE_MESSAGE, "The marking service is currently unavailable.");
    let form = MarkQuestionFormBody { answer: "class A {}".to_string() };
    assert_eq!(form.answer, "class A {}");
}
