//! The sandbox's fixed configuration, and the stages as data.
use crate::outcome::Stage;
use vstd::prelude::*;

verus! {

/// Image every sandbox is created from; provisioned once at startup.
pub const SANDBOX_IMAGE: &'static str = "eclipse-temurin:17.0.3_7-jdk-jammy";

/// Name of the single file the workspace holds: the submission.
pub const SOURCE_FILE_NAME: &'static str = "Exercise.java";

/// Where the workspace is mounted inside the sandbox, read-write.
pub const SANDBOX_MOUNT_PATH: &'static str = "/workspace";

/// One stage as data: the command line, where it runs, and which streams are
/// attached.
pub struct StageCommand {
    pub cmd: Vec<&'static str>,
    pub working_dir: &'static str,
    pub attach_stdout: bool,
    pub attach_stderr: bool,
}

pub open spec fn command_line(stage: Stage) -> Seq<&'static str> {
    match stage {
        Stage::Compile => seq!["javac", "-Xlint", SOURCE_FILE_NAME],
        Stage::Run => seq!["java", "-ea", "Exercise"],
    }
}

/// The command of a stage: compile the submission, or run its entry point with
/// assertions enabled. Both run in the mounted workspace with stdout and
/// stderr attached.
pub fn stage_command(stage: Stage) -> (r: StageCommand)
    ensures
        r.cmd@ == command_line(stage),
        r.working_dir == SANDBOX_MOUNT_PATH,
        r.attach_stdout,
        r.attach_stderr,
{
    let mut cmd: Vec<&'static str> = Vec::new();
    match stage {
        Stage::Compile => {
            cmd.push("javac");
            cmd.push("-Xlint");
            cmd.push(SOURCE_FILE_NAME);
        },
        Stage::Run => {
            cmd.push("java");
            cmd.push("-ea");
            cmd.push("Exercise");
        },
    }
    assert(cmd@ =~= command_line(stage));
    StageCommand { cmd, working_dir: SANDBOX_MOUNT_PATH, attach_stdout: true, attach_stderr: true }
}

pub open spec fn idle_command() -> Seq<&'static str> {
    seq!["tail", "-F", "/dev/null"]
}

/// Entrypoint of a sandbox: idles, so that the stages can run in it one after
/// the other.
pub fn idle_entrypoint() -> (r: Vec<&'static str>)
    ensures
        r@ == idle_command(),
{
    let mut cmd: Vec<&'static str> = Vec::new();
    cmd.push("tail");
    cmd.push("-F");
    cmd.push("/dev/null");
    assert(cmd@ =~= idle_command());
    cmd
}

} // verus!
