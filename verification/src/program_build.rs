//! The order in which a shader program is built from a vertex and a
//! fragment shader, and what becomes of a failure on the way.
//!
//! Building a program alternates calls into OpenGL with decisions: create
//! the program, then for each shader create it, compile it and attach it,
//! link the program, and finally detach and delete the shaders. A failed
//! creation, compilation or link ends the build. The caller performs the
//! action that `next_action` names and reports with `report` whether it
//! succeeded.

use vstd::prelude::*;

verus! {

/// The two shader stages of a program, in the order in which they are built.
#[derive(Clone, Copy, Debug, PartialEq, Eq)]
pub enum ShaderStage {
    Vertex,
    Fragment,
}

/// Why building a program stopped.
#[derive(Clone, Copy, Debug, PartialEq, Eq)]
pub enum ProgramError {
    /// No program object could be created.
    CannotCreateProgram,
    /// No shader object could be created for the stage.
    CannotCreateShader(ShaderStage),
    /// The shader of the stage did not compile.
    CompileFailed(ShaderStage),
    /// The program did not link.
    LinkFailed,
}

/// The next thing to do while building a program.
#[derive(Clone, Copy, Debug, PartialEq, Eq)]
pub enum ProgramAction {
    /// Create the program object. May fail.
    CreateProgram,
    /// Create the shader object of the stage. May fail.
    CreateShader(ShaderStage),
    /// Hand the source to the shader of the stage, compile it and query its
    /// compile status. May fail.
    CompileShader(ShaderStage),
    /// Attach the shader of the stage to the program.
    AttachShader(ShaderStage),
    /// Link the program and query its link status. May fail.
    LinkProgram,
    /// Detach the shader of the stage from the program and delete it.
    ReleaseShader(ShaderStage),
    /// The program is built.
    Done,
    /// The build stopped.
    Fail(ProgramError),
}

/// The steps of a build in which nothing fails.
pub open spec fn build_plan() -> Seq<ProgramAction> {
    seq![
        ProgramAction::CreateProgram,
        ProgramAction::CreateShader(ShaderStage::Vertex),
        ProgramAction::CompileShader(ShaderStage::Vertex),
        ProgramAction::AttachShader(ShaderStage::Vertex),
        ProgramAction::CreateShader(ShaderStage::Fragment),
        ProgramAction::CompileShader(ShaderStage::Fragment),
        ProgramAction::AttachShader(ShaderStage::Fragment),
        ProgramAction::LinkProgram,
        ProgramAction::ReleaseShader(ShaderStage::Vertex),
        ProgramAction::ReleaseShader(ShaderStage::Fragment),
    ]
}

/// The error that ends the build when `action` fails, for the actions that
/// can fail.
pub open spec fn failure_of(action: ProgramAction) -> Option<ProgramError> {
    match action {
        ProgramAction::CreateProgram => Some(ProgramError::CannotCreateProgram),
        ProgramAction::CreateShader(stage) => Some(ProgramError::CannotCreateShader(stage)),
        ProgramAction::CompileShader(stage) => Some(ProgramError::CompileFailed(stage)),
        ProgramAction::LinkProgram => Some(ProgramError::LinkFailed),
        _ => None,
    }
}

/// Where a build stands, as a value: how many steps of the plan have been
/// done, and the error that stopped the build, if one did.
pub struct BuildState {
    pub steps_done: nat,
    pub failure: Option<ProgramError>,
}

/// The state of a build that has done nothing yet.
pub open spec fn initial_build() -> BuildState {
    BuildState { steps_done: 0, failure: None }
}

/// The action a build asks for in state `s`.
pub open spec fn action_in(s: BuildState) -> ProgramAction {
    match s.failure {
        Some(e) => ProgramAction::Fail(e),
        None => if s.steps_done < build_plan().len() {
            build_plan()[s.steps_done as int]
        } else {
            ProgramAction::Done
        },
    }
}

/// Where a build in state `s` stands after its current action was reported
/// with the outcome `succeeded`: a failed step that can fail stops the
/// build, any other outcome moves to the next step of the plan; a finished
/// or stopped build stays as it is.
pub open spec fn after_report(s: BuildState, succeeded: bool) -> BuildState {
    match action_in(s) {
        ProgramAction::Done => s,
        ProgramAction::Fail(_) => s,
        action => if !succeeded && failure_of(action) is Some {
            BuildState { steps_done: s.steps_done, failure: failure_of(action) }
        } else {
            BuildState { steps_done: s.steps_done + 1, failure: None }
        },
    }
}

/// Where a build in state `s` stands after the outcomes `outcomes` were
/// reported one after the other.
pub open spec fn after_reports(s: BuildState, outcomes: Seq<bool>) -> BuildState
    decreases outcomes.len(),
{
    if outcomes.len() == 0 {
        s
    } else {
        after_reports(after_report(s, outcomes[0]), outcomes.drop_first())
    }
}

/// The state of a build in progress.
#[derive(Clone, Copy, Debug, PartialEq, Eq)]
pub struct ProgramBuild {
    step: usize,
    failure: Option<ProgramError>,
}

impl View for ProgramBuild {
    type V = BuildState;

    closed spec fn view(&self) -> BuildState {
        BuildState { steps_done: self.step as nat, failure: self.failure }
    }
}

impl ProgramBuild {
    pub closed spec fn well_formed(self) -> bool {
        self.step <= build_plan().len()
    }

    /// A build that has done nothing yet.
    pub fn new() -> (build: Self)
        ensures
            build.well_formed(),
            build@ == initial_build(),
    {
        ProgramBuild { step: 0, failure: None }
    }

    /// The action to perform next.
    pub fn next_action(&self) -> (action: ProgramAction)
        requires
            self.well_formed(),
        ensures
            action == action_in(self@),
    {
        match self.failure {
            Some(e) => ProgramAction::Fail(e),
            None => match self.step {
                0 => ProgramAction::CreateProgram,
                1 => ProgramAction::CreateShader(ShaderStage::Vertex),
                2 => ProgramAction::CompileShader(ShaderStage::Vertex),
                3 => ProgramAction::AttachShader(ShaderStage::Vertex),
                4 => ProgramAction::CreateShader(ShaderStage::Fragment),
                5 => ProgramAction::CompileShader(ShaderStage::Fragment),
                6 => ProgramAction::AttachShader(ShaderStage::Fragment),
                7 => ProgramAction::LinkProgram,
                8 => ProgramAction::ReleaseShader(ShaderStage::Vertex),
                9 => ProgramAction::ReleaseShader(ShaderStage::Fragment),
                _ => ProgramAction::Done,
            },
        }
    }

    /// Records the outcome of the action that `next_action` named.
    /// `succeeded` matters only for the actions that can fail.
    pub fn report(&mut self, succeeded: bool)
        requires
            old(self).well_formed(),
        ensures
            final(self).well_formed(),
            final(self)@ == after_report(old(self)@, succeeded),
    {
        let action = self.next_action();
        match action {
            ProgramAction::Done => {},
            ProgramAction::Fail(_) => {},
            ProgramAction::CreateProgram => {
                if succeeded {
                    self.step = self.step + 1;
                } else {
                    self.failure = Some(ProgramError::CannotCreateProgram);
                }
            },
            ProgramAction::CreateShader(stage) => {
                if succeeded {
                    self.step = self.step + 1;
                } else {
                    self.failure = Some(ProgramError::CannotCreateShader(stage));
                }
            },
            ProgramAction::CompileShader(stage) => {
                if succeeded {
                    self.step = self.step + 1;
                } else {
                    self.failure = Some(ProgramError::CompileFailed(stage));
                }
            },
            ProgramAction::LinkProgram => {
                if succeeded {
                    self.step = self.step + 1;
                } else {
                    self.failure = Some(ProgramError::LinkFailed);
                }
            },
            ProgramAction::AttachShader(_) => {
                self.step = self.step + 1;
            },
            ProgramAction::ReleaseShader(_) => {
                self.step = self.step + 1;
            },
        }
    }
}

/// A sequence of `n` successful outcomes.
pub open spec fn all_succeeded(n: nat) -> Seq<bool> {
    Seq::new(n, |i: int| true)
}

/// When every action succeeds, the build performs the plan step by step:
/// after `k` reports it asks for step `k` of the plan, and after all steps
/// it is done.
pub proof fn lemma_successful_build_follows_plan(k: nat)
    requires
        k <= build_plan().len(),
    ensures
        after_reports(initial_build(), all_succeeded(k)) == (BuildState { steps_done: k, failure: None }),
        k < build_plan().len() ==> action_in(after_reports(initial_build(), all_succeeded(k)))
            == build_plan()[k as int],
        k == build_plan().len() ==> action_in(after_reports(initial_build(), all_succeeded(k)))
            == ProgramAction::Done,
{
    lemma_reports_from(initial_build(), k);
}

/// From any unstopped state before the end of the plan, `k` successes move
/// the build `k` steps on.
proof fn lemma_reports_from(s: BuildState, k: nat)
    requires
        s.failure is None,
        s.steps_done + k <= build_plan().len(),
    ensures
        after_reports(s, all_succeeded(k)) == (BuildState { steps_done: s.steps_done + k, failure: None }),
    decreases k,
{
    if k > 0 {
        let next = after_report(s, true);
        assert(next == BuildState { steps_done: s.steps_done + 1, failure: None });
        assert(all_succeeded(k).drop_first() =~= all_succeeded((k - 1) as nat));
        lemma_reports_from(next, (k - 1) as nat);
    }
}

/// A stopped build stays stopped: whatever is reported afterwards, its
/// state, and so the failure it reports, no longer change.
pub proof fn lemma_failure_is_final(s: BuildState, outcomes: Seq<bool>)
    requires
        s.failure is Some,
    ensures
        after_reports(s, outcomes) == s,
    decreases outcomes.len(),
{
    if outcomes.len() > 0 {
        assert(after_report(s, outcomes[0]) == s);
        lemma_failure_is_final(s, outcomes.drop_first());
    }
}

/// A finished build stays finished, whatever is reported afterwards.
pub proof fn lemma_done_is_final(s: BuildState, outcomes: Seq<bool>)
    requires
        action_in(s) == ProgramAction::Done,
    ensures
        after_reports(s, outcomes) == s,
    decreases outcomes.len(),
{
    if outcomes.len() > 0 {
        assert(after_report(s, outcomes[0]) == s);
        lemma_done_is_final(s, outcomes.drop_first());
    }
}

/// A build is done only when each action that can fail succeeded: the
/// program was created, both shaders were created and compiled, and the
/// program linked.
pub proof fn lemma_done_only_after_every_success(outcomes: Seq<bool>)
    requires
        action_in(after_reports(initial_build(), outcomes)) == ProgramAction::Done,
    ensures
        outcomes.len() >= build_plan().len(),
        forall|i: int|
            0 <= i < build_plan().len() && #[trigger] failure_of(build_plan()[i]) is Some
                ==> outcomes[i],
{
    lemma_done_only_after_every_success_from(initial_build(), outcomes);
}

proof fn lemma_done_only_after_every_success_from(s: BuildState, outcomes: Seq<bool>)
    requires
        s.failure is None,
        s.steps_done <= build_plan().len(),
        action_in(after_reports(s, outcomes)) == ProgramAction::Done,
    ensures
        s.steps_done + outcomes.len() >= build_plan().len(),
        forall|i: int|
            s.steps_done <= i < build_plan().len() && #[trigger] failure_of(build_plan()[i]) is Some
                ==> outcomes[i - s.steps_done],
    decreases outcomes.len(),
{
    if s.steps_done < build_plan().len() {
        if outcomes.len() == 0 {
            assert(action_in(s) == build_plan()[s.steps_done as int]);
        } else {
            let action = build_plan()[s.steps_done as int];
            let next = after_report(s, outcomes[0]);
            if !outcomes[0] && failure_of(action) is Some {
                lemma_failure_is_final(next, outcomes.drop_first());
                assert(action_in(next) is Fail);
            } else {
                lemma_done_only_after_every_success_from(next, outcomes.drop_first());
                assert forall|i: int|
                    s.steps_done <= i < build_plan().len() && #[trigger] failure_of(build_plan()[i]) is Some
                        implies outcomes[i - s.steps_done] by {
                    if i > s.steps_done {
                        assert(outcomes.drop_first()[i - next.steps_done] == outcomes[i - s.steps_done]);
                    }
                }
            }
        }
    }
}

/// Positions in the plan of the creation, compilation, attachment and
/// release of the shader of `stage`.
pub open spec fn shader_steps(stage: ShaderStage) -> (int, int, int, int) {
    match stage {
        ShaderStage::Vertex => (1, 2, 3, 8),
        ShaderStage::Fragment => (4, 5, 6, 9),
    }
}

/// Position in the plan of the link.
pub open spec fn link_step() -> int {
    7
}

/// Every shader the plan creates is compiled and attached before the link,
/// and is detached and deleted after it.
pub proof fn lemma_plan_releases_every_shader(stage: ShaderStage)
    ensures
        ({
            let (c, p, a, r) = shader_steps(stage);
            &&& 0 <= c < p < a < link_step() < r < build_plan().len()
            &&& build_plan()[c] == ProgramAction::CreateShader(stage)
            &&& build_plan()[p] == ProgramAction::CompileShader(stage)
            &&& build_plan()[a] == ProgramAction::AttachShader(stage)
            &&& build_plan()[link_step()] == ProgramAction::LinkProgram
            &&& build_plan()[r] == ProgramAction::ReleaseShader(stage)
        }),
{
}

} // verus!
