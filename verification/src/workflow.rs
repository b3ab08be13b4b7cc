//! The conversion as a machine: it is told what happened outside and answers
//! with what to do next. A conversion goes from idle through validating,
//! scaffolding, presenting and building to success or failure, never back,
//! and every failure ends it.

use vstd::prelude::*;
use crate::address::{validate_url, validated_view, validation, parsed_url, UrlView, ValidatedUrl};
use crate::error::{kind_of, ConvertError, ConvertErrorView, ErrorKind};
use crate::naming::{host_name, host_or_unknown};
use crate::package::{
    build_command, build_command_of, build_outcome, build_outcome_of, report_view, BuildCommand,
    BuildCommandView, BuildOutput, BuildOutputView,
};
use crate::scaffold::{
    app_directory, app_directory_of, plan_of, scaffold_plan, ScaffoldConfig, ScaffoldPlan,
    ScaffoldPlanView,
};
use crate::window::{preview_of, preview_window, WindowPlan, WindowPlanView};

verus! {

/// What the caller asks for: the address of the page to convert.
#[derive(Clone, Debug, PartialEq, Eq)]
pub struct ConvertRequest {
    pub url: String,
}

/// Where a conversion stands. From scaffolding to building it carries the
/// URL it works on.
#[derive(Clone, Debug, PartialEq, Eq)]
pub enum Stage {
    /// Nothing was asked yet.
    Idle,
    /// A request came in; its address awaits validation.
    Validating,
    /// The project is being laid out on disk.
    Scaffolding(ValidatedUrl),
    /// The preview window is being opened.
    Presenting(ValidatedUrl),
    /// The toolchain is running.
    Building(ValidatedUrl),
    /// The installer was built.
    Succeeded,
    /// The conversion failed, in the way given.
    Failed(ErrorKind),
}

/// The mathematical content of a [`Stage`].
pub enum StageView {
    Idle,
    Validating,
    Scaffolding(UrlView),
    Presenting(UrlView),
    Building(UrlView),
    Succeeded,
    Failed(ErrorKind),
}

impl View for Stage {
    type V = StageView;

    open spec fn view(&self) -> StageView {
        match self {
            Stage::Idle => StageView::Idle,
            Stage::Validating => StageView::Validating,
            Stage::Scaffolding(url) => StageView::Scaffolding(url@),
            Stage::Presenting(url) => StageView::Presenting(url@),
            Stage::Building(url) => StageView::Building(url@),
            Stage::Succeeded => StageView::Succeeded,
            Stage::Failed(kind) => StageView::Failed(*kind),
        }
    }
}

/// One conversion: its settings, the label of the window it was asked from,
/// and where it stands.
#[derive(Clone, Debug, PartialEq, Eq)]
pub struct Conversion {
    pub config: ScaffoldConfig,
    pub origin_label: String,
    pub stage: Stage,
}

/// The mathematical content of a [`Conversion`].
pub struct ConversionView {
    pub base: Seq<char>,
    pub origin_label: Seq<char>,
    pub stage: StageView,
}

impl View for Conversion {
    type V = ConversionView;

    open spec fn view(&self) -> ConversionView {
        ConversionView {
            base: self.config.base_output_dir@,
            origin_label: self.origin_label@,
            stage: self.stage@,
        }
    }
}

/// What happened outside.
#[derive(Debug, PartialEq, Eq)]
pub enum Event {
    /// The caller asked for a conversion.
    Requested(ConvertRequest),
    /// The address was validated, or turned down.
    Validated(Result<ValidatedUrl, ConvertError>),
    /// The project was laid out, or the file system failed for the reason
    /// given.
    Scaffolded(Result<(), String>),
    /// The preview window was opened, or the window system refused for the
    /// reason given.
    Presented(Result<(), String>),
    /// The toolchain ran to its end, or could not be started for the reason
    /// given.
    Built(Result<BuildOutput, String>),
}

/// The mathematical content of an [`Event`].
pub enum EventView {
    Requested(Seq<char>),
    Validated(Result<UrlView, ConvertErrorView>),
    Scaffolded(Result<(), Seq<char>>),
    Presented(Result<(), Seq<char>>),
    Built(Result<BuildOutputView, Seq<char>>),
}

impl View for Event {
    type V = EventView;

    open spec fn view(&self) -> EventView {
        match self {
            Event::Requested(request) => EventView::Requested(request.url@),
            Event::Validated(outcome) => EventView::Validated(validated_view(*outcome)),
            Event::Scaffolded(outcome) => EventView::Scaffolded(
                match outcome {
                    Ok(_) => Ok(()),
                    Err(reason) => Err(reason@),
                },
            ),
            Event::Presented(outcome) => EventView::Presented(
                match outcome {
                    Ok(_) => Ok(()),
                    Err(reason) => Err(reason@),
                },
            ),
            Event::Built(outcome) => EventView::Built(
                match outcome {
                    Ok(output) => Ok(output@),
                    Err(reason) => Err(reason@),
                },
            ),
        }
    }
}

/// What is to be done outside next.
#[derive(Debug, PartialEq, Eq)]
pub enum Action {
    /// Validate this address and report the outcome.
    Validate(String),
    /// Lay the project out on disk.
    Scaffold(ScaffoldPlan),
    /// Open the preview window.
    Present(WindowPlan),
    /// Run the toolchain to its end.
    Build(BuildCommand),
    /// Hand this to the caller: the conversion is over.
    Finish(Result<String, ConvertError>),
    /// Nothing: the event was not one the conversion was waiting for.
    Ignore,
}

/// The mathematical content of an [`Action`].
pub enum ActionView {
    Validate(Seq<char>),
    Scaffold(ScaffoldPlanView),
    Present(WindowPlanView),
    Build(BuildCommandView),
    Finish(Result<Seq<char>, ConvertErrorView>),
    Ignore,
}

impl View for Action {
    type V = ActionView;

    open spec fn view(&self) -> ActionView {
        match self {
            Action::Validate(text) => ActionView::Validate(text@),
            Action::Scaffold(plan) => ActionView::Scaffold(plan@),
            Action::Present(plan) => ActionView::Present(plan@),
            Action::Build(command) => ActionView::Build(command@),
            Action::Finish(outcome) => ActionView::Finish(report_view(*outcome)),
            Action::Ignore => ActionView::Ignore,
        }
    }
}

/// The conversion in another stage, with nothing else changed.
pub open spec fn at_stage(c: ConversionView, stage: StageView) -> ConversionView {
    ConversionView { base: c.base, origin_label: c.origin_label, stage }
}

/// The root of the project that a conversion lays out for a URL.
pub open spec fn project_root_of(c: ConversionView, url: UrlView) -> Seq<char> {
    app_directory_of(c.base, host_or_unknown(url))
}

/// A conversion that ends in failure, and the report of it.
pub open spec fn failing(c: ConversionView, e: ConvertErrorView) -> (ConversionView, ActionView) {
    (at_stage(c, StageView::Failed(kind_of(e))), ActionView::Finish(Err(e)))
}

/// A conversion that does not move.
pub open spec fn ignoring(c: ConversionView) -> (ConversionView, ActionView) {
    (c, ActionView::Ignore)
}

/// What a conversion becomes when it is told of an event, and what is to be
/// done next.
pub open spec fn next_of(c: ConversionView, event: EventView) -> (ConversionView, ActionView) {
    match c.stage {
        StageView::Idle => match event {
            EventView::Requested(text) => (
                at_stage(c, StageView::Validating),
                ActionView::Validate(text),
            ),
            _ => ignoring(c),
        },
        StageView::Validating => match event {
            EventView::Validated(Ok(url)) => (
                at_stage(c, StageView::Scaffolding(url)),
                ActionView::Scaffold(plan_of(c.base, url)),
            ),
            EventView::Validated(Err(e)) => failing(c, e),
            _ => ignoring(c),
        },
        StageView::Scaffolding(url) => match event {
            EventView::Scaffolded(Ok(_)) => (
                at_stage(c, StageView::Presenting(url)),
                ActionView::Present(preview_of(url, c.origin_label)),
            ),
            EventView::Scaffolded(Err(reason)) => failing(c, ConvertErrorView::Io(reason)),
            _ => ignoring(c),
        },
        StageView::Presenting(url) => match event {
            EventView::Presented(Ok(_)) => (
                at_stage(c, StageView::Building(url)),
                ActionView::Build(build_command_of(project_root_of(c, url))),
            ),
            EventView::Presented(Err(reason)) => failing(c, ConvertErrorView::Window(reason)),
            _ => ignoring(c),
        },
        StageView::Building(url) => match event {
            EventView::Built(Ok(output)) => match build_outcome_of(
                output,
                project_root_of(c, url),
                host_or_unknown(url),
            ) {
                Ok(text) => (at_stage(c, StageView::Succeeded), ActionView::Finish(Ok(text))),
                Err(e) => failing(c, e),
            },
            EventView::Built(Err(reason)) => failing(c, ConvertErrorView::Io(reason)),
            _ => ignoring(c),
        },
        StageView::Succeeded => ignoring(c),
        StageView::Failed(_) => ignoring(c),
    }
}

/// What a conversion becomes when validation is done within the step: where
/// the step asks for an address to be validated, the conversion is told at
/// once what the parser made of it.
pub open spec fn advanced_of(c: ConversionView, event: EventView) -> (ConversionView, ActionView) {
    let step = next_of(c, event);
    match step.1 {
        ActionView::Validate(text) => next_of(
            step.0,
            EventView::Validated(validation(parsed_url(text), text)),
        ),
        _ => step,
    }
}

/// How far a conversion has come.
pub open spec fn rank(stage: StageView) -> nat {
    match stage {
        StageView::Idle => 0,
        StageView::Validating => 1,
        StageView::Scaffolding(_) => 2,
        StageView::Presenting(_) => 3,
        StageView::Building(_) => 4,
        StageView::Succeeded => 5,
        StageView::Failed(_) => 5,
    }
}

/// Whether a conversion is over.
pub open spec fn is_over(stage: StageView) -> bool {
    stage is Succeeded || stage is Failed
}

impl Conversion {
    /// A conversion that was not asked for anything yet.
    pub fn new(config: ScaffoldConfig, origin_label: String) -> (c: Conversion)
        ensures
            c@ == (ConversionView {
                base: config.base_output_dir@,
                origin_label: origin_label@,
                stage: StageView::Idle,
            }),
    {
        Conversion { config, origin_label, stage: Stage::Idle }
    }

    /// Whether the conversion is over.
    pub fn is_finished(&self) -> (over: bool)
        ensures
            over == is_over(self@.stage),
    {
        match &self.stage {
            Stage::Succeeded => true,
            Stage::Failed(_) => true,
            _ => false,
        }
    }

    fn fail(self, e: ConvertError) -> (r: (Conversion, Action))
        ensures
            (r.0@, r.1@) == failing(self@, e@),
    {
        let kind = e.kind();
        (
            Conversion {
                config: self.config,
                origin_label: self.origin_label,
                stage: Stage::Failed(kind),
            },
            Action::Finish(Err(e)),
        )
    }

    /// Tells the conversion of an event. It answers with the stage it is in
    /// now and with what is to be done next; an event it was not waiting for
    /// leaves it where it was.
    pub fn step(self, event: Event) -> (r: (Conversion, Action))
        ensures
            (r.0@, r.1@) == next_of(self@, event@),
    {
        let Conversion { config, origin_label, stage } = self;
        match stage {
            Stage::Idle => match event {
                Event::Requested(request) => (
                    Conversion { config, origin_label, stage: Stage::Validating },
                    Action::Validate(request.url),
                ),
                _ => (Conversion { config, origin_label, stage: Stage::Idle }, Action::Ignore),
            },
            Stage::Validating => match event {
                Event::Validated(Ok(url)) => {
                    let plan = scaffold_plan(&config, &url);
                    (
                        Conversion { config, origin_label, stage: Stage::Scaffolding(url) },
                        Action::Scaffold(plan),
                    )
                },
                Event::Validated(Err(e)) => {
                    (Conversion { config, origin_label, stage: Stage::Validating }).fail(e)
                },
                _ => (
                    Conversion { config, origin_label, stage: Stage::Validating },
                    Action::Ignore,
                ),
            },
            Stage::Scaffolding(url) => match event {
                Event::Scaffolded(Ok(_)) => {
                    let plan = preview_window(&url, origin_label.as_str());
                    (
                        Conversion { config, origin_label, stage: Stage::Presenting(url) },
                        Action::Present(plan),
                    )
                },
                Event::Scaffolded(Err(reason)) => {
                    (Conversion { config, origin_label, stage: Stage::Scaffolding(url) }).fail(
                        ConvertError::Io(reason),
                    )
                },
                _ => (
                    Conversion { config, origin_label, stage: Stage::Scaffolding(url) },
                    Action::Ignore,
                ),
            },
            Stage::Presenting(url) => match event {
                Event::Presented(Ok(_)) => {
                    let host = host_name(&url);
                    let root = app_directory(&config, host.as_str());
                    let command = build_command(root.as_str());
                    (
                        Conversion { config, origin_label, stage: Stage::Building(url) },
                        Action::Build(command),
                    )
                },
                Event::Presented(Err(reason)) => {
                    (Conversion { config, origin_label, stage: Stage::Presenting(url) }).fail(
                        ConvertError::Window(reason),
                    )
                },
                _ => (
                    Conversion { config, origin_label, stage: Stage::Presenting(url) },
                    Action::Ignore,
                ),
            },
            Stage::Building(url) => match event {
                Event::Built(Ok(output)) => {
                    let host = host_name(&url);
                    let root = app_directory(&config, host.as_str());
                    match build_outcome(&output, root.as_str(), host.as_str()) {
                        Ok(text) => (
                            Conversion { config, origin_label, stage: Stage::Succeeded },
                            Action::Finish(Ok(text)),
                        ),
                        Err(e) => (Conversion {
                            config,
                            origin_label,
                            stage: Stage::Building(url),
                        }).fail(e),
                    }
                },
                Event::Built(Err(reason)) => {
                    (Conversion { config, origin_label, stage: Stage::Building(url) }).fail(
                        ConvertError::Io(reason),
                    )
                },
                _ => (
                    Conversion { config, origin_label, stage: Stage::Building(url) },
                    Action::Ignore,
                ),
            },
            Stage::Succeeded => (
                Conversion { config, origin_label, stage: Stage::Succeeded },
                Action::Ignore,
            ),
            Stage::Failed(kind) => (
                Conversion { config, origin_label, stage: Stage::Failed(kind) },
                Action::Ignore,
            ),
        }
    }

    /// Tells the conversion of an event, as [`Conversion::step`] does, and
    /// validates the address itself where the step asks for it: the answer
    /// is never [`Action::Validate`].
    pub fn advance(self, event: Event) -> (r: (Conversion, Action))
        ensures
            (r.0@, r.1@) == advanced_of(self@, event@),
            !(r.1 is Validate),
    {
        let (conversion, action) = self.step(event);
        match action {
            Action::Validate(text) => {
                let outcome = validate_url(text.as_str());
                let r = conversion.step(Event::Validated(outcome));
                proof {
                    lemma_validated_is_answered(conversion@, validated_view(outcome));
                }
                r
            },
            other => (conversion, other),
        }
    }
}

/// A conversion that is told the outcome of a validation never asks for
/// another.
pub proof fn lemma_validated_is_answered(
    c: ConversionView,
    outcome: Result<UrlView, ConvertErrorView>,
)
    ensures
        !(next_of(c, EventView::Validated(outcome)).1 is Validate),
{
}

/// No step takes a conversion back: the stage it is in afterwards is the
/// same or a later one, and its settings and the label it was asked from
/// stay as they were.
pub proof fn lemma_never_back(c: ConversionView, event: EventView)
    ensures
        rank(next_of(c, event).0.stage) >= rank(c.stage),
        next_of(c, event).0.base == c.base,
        next_of(c, event).0.origin_label == c.origin_label,
{
}

/// A conversion that is over stays as it is, whatever it is told.
pub proof fn lemma_over_is_final(c: ConversionView, event: EventView)
    requires
        is_over(c.stage),
    ensures
        next_of(c, event) == ignoring(c),
{
}

/// A step hands a result to the caller exactly when it ends the conversion:
/// a success where it succeeded, and a failure of the kind it failed with.
pub proof fn lemma_finish_ends(c: ConversionView, event: EventView)
    ensures
        next_of(c, event).1 is Finish <==> !is_over(c.stage) && is_over(next_of(c, event).0.stage),
        next_of(c, event).1 matches ActionView::Finish(Ok(_)) <==> !is_over(c.stage) && next_of(
            c,
            event,
        ).0.stage is Succeeded,
        next_of(c, event).1 matches ActionView::Finish(Err(e)) ==> next_of(c, event).0.stage
            == StageView::Failed(kind_of(e)),
{
}

/// An event the conversion was not waiting for leaves it where it was; one
/// it was waiting for takes it exactly one stage on, or ends it.
pub proof fn lemma_one_stage_at_a_time(c: ConversionView, event: EventView)
    ensures
        next_of(c, event).1 is Ignore ==> next_of(c, event).0 == c,
        !(next_of(c, event).1 is Ignore) ==> rank(next_of(c, event).0.stage) == rank(c.stage) + 1
            || is_over(next_of(c, event).0.stage),
{
}

/// An address that is no absolute URL, or whose scheme is not allowed, ends
/// a fresh conversion at once as an invalid URL: nothing is laid out, shown
/// or built for it.
pub proof fn lemma_bad_address_ends_conversion(c: ConversionView, text: Seq<char>)
    requires
        c.stage is Idle,
        validation(parsed_url(text), text) is Err,
    ensures
        advanced_of(c, EventView::Requested(text)).0.stage == StageView::Failed(
            ErrorKind::InvalidUrl,
        ),
        advanced_of(c, EventView::Requested(text)).1 == ActionView::Finish(
            Err(validation(parsed_url(text), text)->Err_0),
        ),
{
}

} // verus!
