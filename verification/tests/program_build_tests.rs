use chromaticity::program_build::{ProgramAction, ProgramBuild, ProgramError, ShaderStage};

fn run(outcomes: &[bool]) -> (Vec<ProgramAction>, ProgramBuild) {
    let mut build = ProgramBuild::new();
    let mut actions = Vec::new();
    for &ok in outcomes {
        actions.push(build.next_action());
        build.report(ok);
    }
    (actions, build)
}

#[test]
fn successful_build_follows_the_plan() {
    let (actions, build) = run(&[true; 10]);
    assert_eq!(
        actions,
        vec![
            ProgramAction::CreateProgram,
            ProgramAction::CreateShader(ShaderStage::Vertex),
            ProgramAction::CompileShader(ShaderStage::Vertex),
            ProgramAction::AttachShader(ShaderStage::Vertex),
            ProgramAction::CreateShader(ShaderStage::Fragment),
            ProgramAction::CompileShader(ShaderStage::Fragment),
            ProgramAction::AttachShader(ShaderStage::Fragment),
            ProgramAction::LinkProgram,
            ProgramAction::ReleaseShader(ShaderStage::Vertex),
            ProgramAction::ReleaseShader(ShaderStage::Fragment),
        ]
    );
    assert_eq!(build.next_action(), ProgramAction::Done);
}

#[test]
fn done_stays_done() {
    let (_, mut build) = run(&[true; 10]);
    build.report(false);
    build.report(true);
    assert_eq!(build.next_action(), ProgramAction::Done);
}

#[test]
fn program_creation_failure_stops_the_build() {
    let (_, mut build) = run(&[false]);
    assert_eq!(build.next_action(), ProgramAction::Fail(ProgramError::CannotCreateProgram));
    build.report(true);
    assert_eq!(build.next_action(), ProgramAction::Fail(ProgramError::CannotCreateProgram));
}

#[test]
fn shader_creation_failure_names_the_stage() {
    let (_, build) = run(&[true, true, true, true, false]);
    assert_eq!(
        build.next_action(),
        ProgramAction::Fail(ProgramError::CannotCreateShader(ShaderStage::Fragment))
    );
}

#[test]
fn compile_failure_names_the_stage() {
    let (_, build) = run(&[true, true, false]);
    assert_eq!(build.next_action(), ProgramAction::Fail(ProgramError::CompileFailed(ShaderStage::Vertex)));
    let (_, build) = run(&[true, true, true, true, true, false]);
    assert_eq!(build.next_action(), ProgramAction::Fail(ProgramError::CompileFailed(ShaderStage::Fragment)));
}

#[test]
fn link_failure_stops_before_release() {
    let (_, build) = run(&[true, true, true, true, true, true, true, false]);
    assert_eq!(build.next_action(), ProgramAction::Fail(ProgramError::LinkFailed));
}

#[test]
fn attach_and_release_cannot_fail() {
    // A `false` reported for an attachment or a release does not stop the build.
    let (_, build) = run(&[true, true, true, false, true, true, false, true, false, false]);
    assert_eq!(build.next_action(), ProgramAction::Done);
}
