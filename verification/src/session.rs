//! One run of the wrapper, from its arguments to the start of the build
//! driver.
//!
//! A run reads the arguments for a target, makes sure that the build driver is
//! named, and, where the target is an Android target, finds the toolchain and
//! the variables that go with it. It ends in a [`Launch`], which says what to
//! start and with which variables added to the environment, or in a
//! [`Failure`]. On the way it may ask about the file system.

use vstd::prelude::*;
use vstd::string::*;
use crate::args::{find_target, forwarded, forwarded_of, target_of};
use crate::environment::{Environment, EnvironmentView};
use crate::failure::{Failure, FailureView};
use crate::host::HostFamily;
use crate::probe::{Query, QueryView, Reply, ReplyView};
use crate::resolver::{start, started, Progress, ProgressView, Resolver, ResolverView};
use crate::text::{copy_bytes, native, natives};
use crate::triple::{is_android, is_android_triple};
use crate::variables::{variables, variables_of, views, Variable, VariableView};

verus! {

/// What to start, and how.
#[derive(Debug, PartialEq, Eq)]
pub struct Launch {
    /// The build driver.
    pub program: Vec<u8>,
    /// Its arguments: those of the run without the wrapper's own, unchanged.
    pub arguments: Vec<Vec<u8>>,
    /// The variables to add to the environment that it inherits. A variable
    /// of the same name that is already set is replaced; every other one
    /// stays as it is.
    pub variables: Vec<Variable>,
}

/// A [`Launch`] as contracts see it.
pub struct LaunchView {
    pub program: Seq<u8>,
    pub arguments: Seq<Seq<u8>>,
    pub variables: Seq<VariableView>,
}

impl View for Launch {
    type V = LaunchView;

    open spec fn view(&self) -> LaunchView {
        LaunchView {
            program: self.program@,
            arguments: natives(self.arguments@),
            variables: views(self.variables@),
        }
    }
}

/// An environment after some variables were set in it one after the other:
/// each takes the place of what was set under its name, and everything else
/// stays.
pub open spec fn applied(
    inherited: Map<Seq<u8>, Seq<u8>>,
    variables: Seq<VariableView>,
) -> Map<Seq<u8>, Seq<u8>>
    decreases variables.len(),
{
    if variables.len() == 0 {
        inherited
    } else {
        applied(inherited, variables.drop_last()).insert(
            native(variables.last().name),
            variables.last().value,
        )
    }
}

impl LaunchView {
    /// The environment in which the build driver runs, given the one that it
    /// inherits: native strings by the names, as native strings, under which
    /// they are set.
    pub open spec fn environment(self, inherited: Map<Seq<u8>, Seq<u8>>) -> Map<
        Seq<u8>,
        Seq<u8>,
    > {
        applied(inherited, self.variables)
    }
}

/// A run that waits for an answer about the file system.
#[derive(Debug)]
pub struct Session {
    program: Vec<u8>,
    arguments: Vec<Vec<u8>>,
    resolver: Resolver,
}

/// A [`Session`] as contracts see it.
pub struct SessionView {
    pub program: Seq<u8>,
    pub arguments: Seq<Seq<u8>>,
    pub resolver: ResolverView,
}

impl View for Session {
    type V = SessionView;

    closed spec fn view(&self) -> SessionView {
        SessionView {
            program: self.program@,
            arguments: natives(self.arguments@),
            resolver: self.resolver@,
        }
    }
}

/// Where a run stands after a step.
#[derive(Debug)]
pub enum Step {
    /// The caller looks the query up and hands the answer to
    /// [`Session::answer`].
    Ask(Session, Query),
    /// The caller starts the build driver.
    Launch(Launch),
    /// The run has failed, and nothing is started.
    Fail(Failure),
}

/// A [`Step`] as contracts see it.
pub enum StepView {
    Ask(SessionView, QueryView),
    Launch(LaunchView),
    Fail(FailureView),
}

impl View for Step {
    type V = StepView;

    open spec fn view(&self) -> StepView {
        match *self {
            Step::Ask(session, query) => StepView::Ask(session@, query@),
            Step::Launch(launch) => StepView::Launch(launch@),
            Step::Fail(failure) => StepView::Fail(failure@),
        }
    }
}

/// What a step of the resolution means for the run: a question is passed on,
/// a toolchain gives the launch with its variables, a failure ends the run.
pub open spec fn followed(
    program: Seq<u8>,
    arguments: Seq<Seq<u8>>,
    target: Seq<char>,
    progress: ProgressView,
) -> StepView {
    match progress {
        ProgressView::Ask(resolver, query) => StepView::Ask(
            SessionView { program, arguments, resolver },
            query,
        ),
        ProgressView::Done(Ok(toolchain)) => StepView::Launch(
            LaunchView { program, arguments, variables: variables_of(target, toolchain) },
        ),
        ProgressView::Done(Err(failure)) => StepView::Fail(failure),
    }
}

/// How a run begins.
///
/// The arguments are read first, then the build driver is looked for, and
/// only then the toolchain: the first of these to fail decides the failure.
/// A run without a target, or with one that is no Android target, launches
/// with no variables added.
pub open spec fn begun(argv: Seq<Seq<u8>>, env: EnvironmentView, host: HostFamily) -> StepView {
    let arguments = forwarded_of(argv);
    match target_of(arguments) {
        Err(failure) => StepView::Fail(failure),
        Ok(target) => match env.driver {
            None => StepView::Fail(FailureView::DriverNotSet),
            Some(program) => match target {
                Some(t) if is_android_triple(t) => followed(
                    program,
                    arguments,
                    t,
                    started(t, host, env),
                ),
                _ => StepView::Launch(
                    LaunchView { program, arguments, variables: Seq::empty() },
                ),
            },
        },
    }
}

impl SessionView {
    /// How a run goes on after a reply.
    pub open spec fn answered(self, reply: ReplyView) -> StepView {
        followed(
            self.program,
            self.arguments,
            self.resolver.target,
            self.resolver.advanced(reply),
        )
    }
}

/// Says what a step of the resolution means for the run.
fn follow(
    program: Vec<u8>,
    arguments: Vec<Vec<u8>>,
    target: &str,
    progress: Progress,
) -> (step: Step)
    ensures
        step@ == followed(program@, natives(arguments@), target@, progress@),
{
    match progress {
        Progress::Ask(resolver, query) => {
            Step::Ask(Session { program, arguments, resolver }, query)
        },
        Progress::Done(Ok(toolchain)) => {
            let list = variables(target, &toolchain);
            Step::Launch(Launch { program, arguments, variables: list })
        },
        Progress::Done(Err(failure)) => Step::Fail(failure),
    }
}

/// The launch of a build that needs no toolchain from here.
fn launch_as_is(program: Vec<u8>, arguments: Vec<Vec<u8>>) -> (step: Step)
    ensures
        step@ == StepView::Launch(
            LaunchView {
                program: program@,
                arguments: natives(arguments@),
                variables: Seq::empty(),
            },
        ),
{
    let list: Vec<Variable> = Vec::new();
    assert(views(list@) =~= Seq::empty());
    Step::Launch(Launch { program, arguments, variables: list })
}

/// Begins a run.
///
/// `argv` holds all the arguments that the wrapper was called with, its own
/// included; `env` what the environment holds; `host` the family of the
/// platform that the wrapper runs on.
pub fn begin(argv: &Vec<Vec<u8>>, env: &Environment, host: HostFamily) -> (step: Step)
    ensures
        step@ == begun(natives(argv@), env@, host),
{
    let arguments = forwarded(argv);
    let target = match find_target(&arguments) {
        Err(failure) => {
            return Step::Fail(failure);
        },
        Ok(target) => target,
    };
    let program = match &env.driver {
        None => {
            return Step::Fail(Failure::DriverNotSet);
        },
        Some(program) => copy_bytes(program),
    };
    match target {
        Some(t) => {
            if is_android(t.as_str()) {
                let progress = start(t.as_str(), host, env);
                follow(program, arguments, t.as_str(), progress)
            } else {
                launch_as_is(program, arguments)
            }
        },
        None => launch_as_is(program, arguments),
    }
}

impl Session {
    /// Takes the answer to the question that was asked, and says what comes
    /// next.
    pub fn answer(self, reply: Reply) -> (step: Step)
        ensures
            step@ == self@.answered(reply@),
    {
        let target = String::from_str(self.resolver.target());
        let progress = self.resolver.advance(reply);
        follow(self.program, self.arguments, target.as_str(), progress)
    }
}

} // verus!
