//! Handling one message for one hook: admission, rendering, processing and
//! dispatch.
//!
//! The executor decides; reading the template, running the processor and
//! delivering the response are effects that it hands to its caller, who
//! reports back what they gave. One execution goes through
//! `Received`, `Admitted`, `Rendered` and `Processed` and ends in
//! `Dispatched` or in the stage that names what stopped it.

use crate::config::env::{Config, ConfigView};
use crate::error::{DiscliError, ErrorView};
use crate::hooks::config::{
    ActionView, CompiledHookConfig, CompiledHookView, HookAction, ProcessingConfig, ProcessingView,
    RateLimitConfig,
};
use crate::hooks::rate_limit::{admits, after_check, Admission, Limits};
use crate::json::{field_views, json_object, json_shown, json_text, object_value, show, string_value};
use crate::processing::command::{
    command_request, command_result, response_view, CommandOutcome, CommandProcessor,
    CommandRequest, CommandRequestView,
};
use crate::processing::http::{
    http_result, prompt_payload, HttpOutcome, HttpProcessor, HttpRequest, HttpRequestView,
};
use crate::prompt::loader::{
    cache_after_load, load_outcome, read_view, resolved_path, TemplateView,
};
use crate::prompt::registry::{render_outcome, render_view, PromptRegistry};
use crate::prompt::variables::{rendered, MessageVariables, VariablesView};
use crate::text::{equal, views};
use vstd::prelude::*;
use vstd::string::StringExecFns;

pub use crate::hooks::rate_limit::RateLimiter;

verus! {

/// How an execution ended.
#[derive(Debug)]
pub struct HookResult {
    /// Whether the hook ran to the end.
    pub executed: bool,
    /// The processor's response, where the hook ran to the end.
    pub response: Option<String>,
    /// What stopped the execution, where something did.
    pub error: Option<String>,
}

/// Mathematical image of a [`HookResult`].
pub struct HookResultView {
    pub executed: bool,
    pub response: Option<Seq<char>>,
    pub error: Option<Seq<char>>,
}

impl View for HookResult {
    type V = HookResultView;

    open spec fn view(&self) -> HookResultView {
        HookResultView {
            executed: self.executed,
            response: crate::text::optional(self.response),
            error: crate::text::optional(self.error),
        }
    }
}

/// Where an execution stands.
#[derive(Debug)]
pub enum Stage {
    /// A message matched the hook; nothing was done yet.
    Received,
    /// User and channel were admitted; the template's file is being read.
    Admitted,
    /// The prompt is rendered; the processor is at work.
    Rendered,
    /// The processor answered; the response is being delivered.
    Processed { response: String },
    /// Ended: the user or the channel was over its limit.
    RateLimited,
    /// Ended: the template could not be read.
    RenderFailed,
    /// Ended: the processor failed or is not configured.
    ProcessFailed,
    /// Ended: the response was delivered.
    Dispatched,
    /// Ended: the response could not be delivered.
    DispatchFailed,
}

/// Mathematical image of a [`Stage`].
pub enum StageView {
    Received,
    Admitted,
    Rendered,
    Processed(Seq<char>),
    RateLimited,
    RenderFailed,
    ProcessFailed,
    Dispatched,
    DispatchFailed,
}

impl View for Stage {
    type V = StageView;

    open spec fn view(&self) -> StageView {
        match self {
            Stage::Received => StageView::Received,
            Stage::Admitted => StageView::Admitted,
            Stage::Rendered => StageView::Rendered,
            Stage::Processed { response } => StageView::Processed(response@),
            Stage::RateLimited => StageView::RateLimited,
            Stage::RenderFailed => StageView::RenderFailed,
            Stage::ProcessFailed => StageView::ProcessFailed,
            Stage::Dispatched => StageView::Dispatched,
            Stage::DispatchFailed => StageView::DispatchFailed,
        }
    }
}

/// What the caller has to do next.
#[derive(Debug)]
pub enum Effect {
    /// Read the template file and report its text.
    ReadTemplate { file: String },
    /// Run the command and report how it ended.
    RunCommand(CommandRequest),
    /// Make the POST and report how it ended.
    Post(HttpRequest),
    /// Send `content` to the channel and report whether that worked.
    Send { channel_id: String, content: String },
    /// Note that `content` would go to the author as a direct message.
    LogDm { content: String },
    /// Post `body` to the webhook; whether that worked does not matter.
    PostWebhook { url: String, body: String },
    /// Nothing: the execution is over, with this result.
    Finish(HookResult),
}

/// Mathematical image of an [`Effect`].
pub enum EffectView {
    ReadTemplate(Seq<char>),
    RunCommand(CommandRequestView),
    Post(HttpRequestView),
    Send { channel_id: Seq<char>, content: Seq<char> },
    LogDm(Seq<char>),
    PostWebhook { url: Seq<char>, body: Seq<char> },
    Finish(HookResultView),
}

impl View for Effect {
    type V = EffectView;

    open spec fn view(&self) -> EffectView {
        match self {
            Effect::ReadTemplate { file } => EffectView::ReadTemplate(file@),
            Effect::RunCommand(request) => EffectView::RunCommand(request@),
            Effect::Post(request) => EffectView::Post(request@),
            Effect::Send { channel_id, content } => EffectView::Send {
                channel_id: channel_id@,
                content: content@,
            },
            Effect::LogDm { content } => EffectView::LogDm(content@),
            Effect::PostWebhook { url, body } => EffectView::PostWebhook { url: url@, body: body@ },
            Effect::Finish(result) => EffectView::Finish(result@),
        }
    }
}

/// What the caller reports back.
#[derive(Debug)]
pub enum Event {
    /// A message matched the hook.
    Start,
    /// The template file was read, or could not be.
    TemplateRead(Result<String, String>),
    /// The command ended.
    CommandFinished(CommandOutcome),
    /// The POST ended.
    PostFinished(HttpOutcome),
    /// The response was delivered, or could not be.
    Delivered(Result<(), DiscliError>),
}

/// Mathematical image of an [`Event`].
pub enum EventView {
    Start,
    TemplateRead(Result<Seq<char>, Seq<char>>),
    CommandFinished(CommandOutcome),
    PostFinished(HttpOutcome),
    Delivered(Result<(), ErrorView>),
}

impl View for Event {
    type V = EventView;

    open spec fn view(&self) -> EventView {
        match self {
            Event::Start => EventView::Start,
            Event::TemplateRead(read) => EventView::TemplateRead(read_view(*read)),
            Event::CommandFinished(outcome) => EventView::CommandFinished(*outcome),
            Event::PostFinished(outcome) => EventView::PostFinished(*outcome),
            Event::Delivered(report) => EventView::Delivered(delivery_view(*report)),
        }
    }
}

/// One step of an execution: the stage reached and what to do there.
#[derive(Debug)]
pub struct Step {
    pub stage: Stage,
    pub effect: Effect,
}

/// Mathematical image of a [`Step`].
pub struct StepView {
    pub stage: StageView,
    pub effect: EffectView,
}

impl View for Step {
    type V = StepView;

    open spec fn view(&self) -> StepView {
        StepView { stage: self.stage@, effect: self.effect@ }
    }
}

/// The result of an execution that stopped for `error`.
pub open spec fn stopped(error: Seq<char>) -> HookResultView {
    HookResultView { executed: false, response: None, error: Some(error) }
}

/// The result of an execution that delivered `response`.
pub open spec fn completed(response: Seq<char>) -> HookResultView {
    HookResultView { executed: true, response: Some(response), error: None }
}

/// The step that ends an execution in `stage` for `error`.
pub open spec fn ended(stage: StageView, error: Seq<char>) -> StepView {
    StepView { stage, effect: EffectView::Finish(stopped(error)) }
}

/// What a hook's processing configuration asks to be run for a prompt, or
/// the configuration error where it asks for nothing that can be run.
pub open spec fn processor_plan(processing: ProcessingView, prompt: Seq<char>) -> Result<
    EffectView,
    ErrorView,
> {
    if processing.processor_type == "command"@ {
        if processing.cmd.len() == 0 {
            Err(ErrorView::Config("No command configured"@))
        } else {
            match command_request(processing.cmd, prompt, processing.timeout_seconds) {
                Ok(request) => Ok(EffectView::RunCommand(request)),
                Err(e) => Err(e),
            }
        }
    } else if processing.processor_type == "http"@ {
        if processing.url.len() == 0 {
            Err(ErrorView::Config("No URL configured"@))
        } else {
            Ok(
                EffectView::Post(
                    HttpRequestView {
                        url: processing.url,
                        body: json_shown(prompt_payload(prompt, None)),
                        timeout_secs: processing.timeout_seconds,
                    },
                ),
            )
        }
    } else {
        Err(ErrorView::Config("Unknown processor type: "@ + processing.processor_type))
    }
}

/// The step after rendering: the processor's run for a prompt, or the end
/// for a template that could not be read or a processor that is not
/// configured.
pub open spec fn after_render(hook: CompiledHookView, prompt: Result<Seq<char>, ErrorView>) -> StepView {
    match prompt {
        Err(e) => ended(StageView::RenderFailed, "Failed to load prompt: "@ + e.message()),
        Ok(text) => match processor_plan(hook.processing, text) {
            Ok(effect) => StepView { stage: StageView::Rendered, effect },
            Err(e) => ended(StageView::ProcessFailed, e.message()),
        },
    }
}

/// The JSON text posted to a webhook for a response.
pub open spec fn webhook_body(response: Seq<char>) -> Seq<char> {
    json_shown(json_object(seq![("content"@, json_text(response))]))
}

/// How a response is delivered for an action: a reply goes to the channel
/// of the message, a forward to the configured channel, a webhook gets a
/// POST, and a direct message is only noted.
pub open spec fn dispatch_effect(action: ActionView, response: Seq<char>, message: VariablesView) -> EffectView {
    match action {
        ActionView::Reply => EffectView::Send { channel_id: message.channel_id, content: response },
        ActionView::SendDm => EffectView::LogDm(response),
        ActionView::Forward(channel_id) => EffectView::Send { channel_id, content: response },
        ActionView::Webhook(url) => EffectView::PostWebhook { url, body: webhook_body(response) },
    }
}

/// The step after the processor ended: delivery of its response, or the
/// end for a processor that failed.
pub open spec fn after_processor(
    hook: CompiledHookView,
    message: VariablesView,
    result: Result<Seq<char>, ErrorView>,
) -> StepView {
    match result {
        Ok(response) => StepView {
            stage: StageView::Processed(response),
            effect: dispatch_effect(hook.action, response, message),
        },
        Err(e) => ended(StageView::ProcessFailed, e.message()),
    }
}

/// Whether a failed delivery fails the execution: it does for a reply and
/// a forward, and not for a webhook or a direct message.
pub open spec fn delivery_counts(action: ActionView) -> bool {
    action is Reply || action is Forward
}

/// The views of a delivery report.
pub open spec fn delivery_view(report: Result<(), DiscliError>) -> Result<(), ErrorView> {
    match report {
        Ok(_) => Ok(()),
        Err(e) => Err(e@),
    }
}

/// The last step: the result of the execution.
pub open spec fn after_delivery(
    action: ActionView,
    response: Seq<char>,
    report: Result<(), ErrorView>,
) -> StepView {
    match report {
        Err(e) if delivery_counts(action) => ended(StageView::DispatchFailed, e.message()),
        _ => StepView {
            stage: StageView::Dispatched,
            effect: EffectView::Finish(completed(response)),
        },
    }
}

/// The step after admission: rendering at once where the template is at
/// hand, else the request to read its file.
pub open spec fn after_admission(
    hook: CompiledHookView,
    message: VariablesView,
    cache: Map<Seq<char>, TemplateView>,
    dir: Seq<char>,
) -> StepView {
    let file = resolved_path(dir, hook.prompt_file);
    if cache.contains_key(file) {
        after_render(hook, Ok(rendered(cache[file].content, message)))
    } else {
        StepView { stage: StageView::Admitted, effect: EffectView::ReadTemplate(file) }
    }
}

/// The first step: the user is checked in, then the channel; the first
/// that is over its limit ends the execution.
pub open spec fn begun(
    hook: CompiledHookView,
    message: VariablesView,
    users: Seq<Admission>,
    channels: Seq<Admission>,
    limits: Limits,
    now: nat,
    cache: Map<Seq<char>, TemplateView>,
    dir: Seq<char>,
) -> StepView {
    if !admits(users, message.author_id, now, limits.window, limits.per_user) {
        ended(StageView::RateLimited, "Rate limited (user)"@)
    } else if !admits(channels, message.channel_id, now, limits.window, limits.per_channel) {
        ended(StageView::RateLimited, "Rate limited (channel)"@)
    } else {
        after_admission(hook, message, cache, dir)
    }
}

/// The channel window after the first step: the channel is checked in only
/// where the user was admitted.
pub open spec fn channels_after_begin(
    message: VariablesView,
    users: Seq<Admission>,
    channels: Seq<Admission>,
    limits: Limits,
    now: nat,
) -> Seq<Admission> {
    if admits(users, message.author_id, now, limits.window, limits.per_user) {
        after_check(channels, message.channel_id, now, limits.window, limits.per_channel)
    } else {
        channels
    }
}

/// Whether an event answers what a stage waits for.
pub open spec fn answers(stage: StageView, event: EventView) -> bool {
    match stage {
        StageView::Received => event is Start,
        StageView::Admitted => event is TemplateRead,
        StageView::Rendered => event is CommandFinished || event is PostFinished,
        StageView::Processed(_) => event is Delivered,
        _ => false,
    }
}

/// The step that a stage and an event give, but for the first step, which
/// also depends on the time: see [`begun`]. An event that does not answer
/// the stage ends the execution where it stands.
pub open spec fn stepped(
    hook: CompiledHookView,
    message: VariablesView,
    stage: StageView,
    event: EventView,
    cache: Map<Seq<char>, TemplateView>,
    dir: Seq<char>,
) -> StepView {
    match (stage, event) {
        (StageView::Admitted, EventView::TemplateRead(read)) => after_render(
            hook,
            render_outcome(load_outcome(cache, dir, hook.prompt_file, read), message),
        ),
        (StageView::Rendered, EventView::CommandFinished(outcome)) => after_processor(
            hook,
            message,
            command_result(outcome),
        ),
        (StageView::Rendered, EventView::PostFinished(outcome)) => after_processor(
            hook,
            message,
            http_result(outcome),
        ),
        (StageView::Processed(response), EventView::Delivered(report)) => after_delivery(
            hook.action,
            response,
            report,
        ),
        _ => ended(stage, "Unexpected event"@),
    }
}

/// The templates held after a step: a template that was read is kept.
pub open spec fn cache_after_step(
    hook: CompiledHookView,
    stage: StageView,
    event: EventView,
    cache: Map<Seq<char>, TemplateView>,
    dir: Seq<char>,
) -> Map<Seq<char>, TemplateView> {
    match (stage, event) {
        (StageView::Admitted, EventView::TemplateRead(read)) => cache_after_load(
            cache,
            dir,
            hook.prompt_file,
            read,
        ),
        _ => cache,
    }
}

/// A result says that the hook ran to the end exactly where it holds a
/// response, and exactly where it holds no error.
pub open spec fn consistent(result: HookResultView) -> bool {
    &&& result.executed <==> result.response is Some
    &&& result.executed <==> result.error is None
}

/// Whatever the stage, the event and the state of the executor, a step
/// that ends an execution ends it with a consistent result: executed with
/// a response, or not executed with an error.
pub proof fn results_are_consistent(
    hook: CompiledHookView,
    message: VariablesView,
    stage: StageView,
    event: EventView,
    users: Seq<Admission>,
    channels: Seq<Admission>,
    limits: Limits,
    now: nat,
    cache: Map<Seq<char>, TemplateView>,
    dir: Seq<char>,
)
    ensures
        begun(hook, message, users, channels, limits, now, cache, dir).effect matches EffectView::Finish(
            result,
        ) ==> consistent(result),
        stepped(hook, message, stage, event, cache, dir).effect matches EffectView::Finish(result)
            ==> consistent(result),
{
}

/// The limits that a configuration asks for, the window in nanoseconds.
pub open spec fn limits_of(config: RateLimitConfig) -> Limits {
    Limits {
        per_user: config.per_user as nat,
        per_channel: config.per_channel as nat,
        window: (config.window_seconds * 1_000_000_000) as nat,
    }
}

fn stop(stage: Stage, error: String) -> (out: Step)
    ensures
        out@ == ended(stage@, error@),
{
    Step {
        stage,
        effect: Effect::Finish(HookResult { executed: false, response: None, error: Some(error) }),
    }
}

/// What to run for `prompt` under a hook's processing configuration.
pub fn plan_processor(processing: &ProcessingConfig, prompt: &str) -> (out: Result<
    Effect,
    DiscliError,
>)
    ensures
        match out {
            Ok(effect) => processor_plan(processing@, prompt@) == Ok::<EffectView, ErrorView>(
                effect@,
            ),
            Err(e) => processor_plan(processing@, prompt@) == Err::<EffectView, ErrorView>(e@),
        },
{
    if equal(processing.processor_type.as_str(), "command") {
        if processing.cmd.len() == 0 {
            return Err(DiscliError::Config(String::from_str("No command configured")));
        }
        let processor = CommandProcessor::new(processing.timeout_seconds);
        match processor.prepare(processing.cmd.as_slice(), prompt) {
            Ok(request) => Ok(Effect::RunCommand(request)),
            Err(e) => Err(e),
        }
    } else if equal(processing.processor_type.as_str(), "http") {
        if processing.url.as_str().is_empty() {
            return Err(DiscliError::Config(String::from_str("No URL configured")));
        }
        let processor = HttpProcessor::new(processing.timeout_seconds);
        Ok(Effect::Post(processor.prepare(processing.url.as_str(), prompt, None)))
    } else {
        Err(
            DiscliError::Config(
                String::from_str("Unknown processor type: ").concat(
                    processing.processor_type.as_str(),
                ),
            ),
        )
    }
}

/// How to deliver `response` for `action`.
pub fn plan_dispatch(action: &HookAction, response: &str, message: &MessageVariables) -> (out:
    Effect)
    ensures
        out@ == dispatch_effect(action@, response@, message@),
{
    match action {
        HookAction::Reply => Effect::Send {
            channel_id: message.channel_id.clone(),
            content: String::from_str(response),
        },
        HookAction::SendDm => Effect::LogDm { content: String::from_str(response) },
        HookAction::Forward { channel_id } => Effect::Send {
            channel_id: channel_id.clone(),
            content: String::from_str(response),
        },
        HookAction::Webhook { url } => {
            let mut fields: Vec<(String, serde_json::Value)> = Vec::new();
            fields.push((String::from_str("content"), string_value(response)));
            assert(field_views(fields@) =~= seq![("content"@, json_text(response@))]);
            Effect::PostWebhook { url: url.clone(), body: show(&object_value(fields)) }
        },
    }
}

fn prompt_step(hook: &CompiledHookConfig, prompt: Result<String, DiscliError>) -> (out: Step)
    ensures
        out@ == after_render(hook@, render_view(prompt)),
{
    match prompt {
        Err(e) => stop(
            Stage::RenderFailed,
            String::from_str("Failed to load prompt: ").concat(e.message().as_str()),
        ),
        Ok(text) => match plan_processor(&hook.processing, text.as_str()) {
            Ok(effect) => Step { stage: Stage::Rendered, effect },
            Err(e) => stop(Stage::ProcessFailed, e.message()),
        },
    }
}

fn response_step(
    hook: &CompiledHookConfig,
    message: &MessageVariables,
    result: Result<String, DiscliError>,
) -> (out: Step)
    ensures
        out@ == after_processor(hook@, message@, response_view(result)),
{
    match result {
        Ok(response) => {
            let effect = plan_dispatch(&hook.action, response.as_str(), message);
            Step { stage: Stage::Processed { response }, effect }
        },
        Err(e) => stop(Stage::ProcessFailed, e.message()),
    }
}

/// Runs hooks: holds the limiter and the templates that executions share.
pub struct HookExecutor {
    config: Config,
    prompt_registry: PromptRegistry,
    rate_limiter: RateLimiter,
}

impl HookExecutor {
    /// The process configuration.
    pub closed spec fn settings(&self) -> ConfigView {
        self.config@
    }

    /// The limiter.
    pub closed spec fn limiter(&self) -> RateLimiter {
        self.rate_limiter
    }

    /// The prompt registry.
    pub closed spec fn registry(&self) -> PromptRegistry {
        self.prompt_registry
    }

    /// The limiter's windows are well formed.
    pub open spec fn wf(&self) -> bool {
        self.limiter().wf()
    }

    /// An executor that has admitted and read nothing yet, with the default
    /// limits: 5 admissions per user and 10 per channel within 60 seconds.
    pub fn new(config: Config) -> (out: Self)
        ensures
            out.wf(),
            out.settings() == config@,
            out.limiter().limits() == (Limits {
                per_user: 5,
                per_channel: 10,
                window: 60_000_000_000,
            }),
            out.limiter().latest() == 0,
            out.limiter().user_history() == Seq::<Admission>::empty(),
            out.limiter().channel_history() == Seq::<Admission>::empty(),
            out.registry().dir() == config@.prompts_dir,
            out.registry().cached() == Map::<Seq<char>, TemplateView>::empty(),
    {
        HookExecutor::with_limits(config, RateLimitConfig::default())
    }

    /// An executor that has admitted and read nothing yet, with the given
    /// limits.
    pub fn with_limits(config: Config, limits: RateLimitConfig) -> (out: Self)
        ensures
            out.wf(),
            out.settings() == config@,
            out.limiter().limits() == limits_of(limits),
            out.limiter().latest() == 0,
            out.limiter().user_history() == Seq::<Admission>::empty(),
            out.limiter().channel_history() == Seq::<Admission>::empty(),
            out.registry().dir() == config@.prompts_dir,
            out.registry().cached() == Map::<Seq<char>, TemplateView>::empty(),
    {
        let prompts_dir = config.prompts_dir.clone();
        HookExecutor {
            config,
            prompt_registry: PromptRegistry::new(prompts_dir),
            rate_limiter: RateLimiter::new(
                limits.per_user,
                limits.per_channel,
                limits.window_seconds,
            ),
        }
    }

    /// The process configuration.
    pub fn config(&self) -> (out: &Config)
        ensures
            out@ == self.settings(),
    {
        &self.config
    }

    /// The time of the next step, on the limiter's clock.
    pub fn now(&self) -> (now: u128)
        ensures
            now >= self.limiter().latest(),
    {
        self.rate_limiter.now()
    }

    /// The first step of an execution, at time `now`.
    pub fn begin_at(&mut self, hook: &CompiledHookConfig, message: &MessageVariables, now: u128) -> (out:
        Step)
        requires
            now >= old(self).limiter().latest(),
        ensures
            final(self).wf(),
            final(self).settings() == old(self).settings(),
            final(self).limiter().limits() == old(self).limiter().limits(),
            final(self).limiter().latest() == now,
            final(self).registry().dir() == old(self).registry().dir(),
            final(self).registry().cached() == old(self).registry().cached(),
            out@ == begun(
                hook@,
                message@,
                old(self).limiter().user_history(),
                old(self).limiter().channel_history(),
                old(self).limiter().limits(),
                now as nat,
                old(self).registry().cached(),
                old(self).registry().dir(),
            ),
            final(self).limiter().user_history() == after_check(
                old(self).limiter().user_history(),
                message@.author_id,
                now as nat,
                old(self).limiter().limits().window,
                old(self).limiter().limits().per_user,
            ),
            final(self).limiter().channel_history() == channels_after_begin(
                message@,
                old(self).limiter().user_history(),
                old(self).limiter().channel_history(),
                old(self).limiter().limits(),
                now as nat,
            ),
    {
        if !self.rate_limiter.check_user_at(message.author_id.as_str(), now) {
            return stop(Stage::RateLimited, String::from_str("Rate limited (user)"));
        }
        if !self.rate_limiter.check_channel_at(message.channel_id.as_str(), now) {
            return stop(Stage::RateLimited, String::from_str("Rate limited (channel)"));
        }
        match self.prompt_registry.needs_read(hook.prompt_file.as_str()) {
            Some(file) => Step { stage: Stage::Admitted, effect: Effect::ReadTemplate { file } },
            None => {
                let prompt = self.prompt_registry.render(
                    hook.prompt_file.as_str(),
                    Err(String::new()),
                    message,
                );
                prompt_step(hook, prompt)
            },
        }
    }

    /// The first step of an execution, now.
    pub fn begin(&mut self, hook: &CompiledHookConfig, message: &MessageVariables) -> (out: Step)
        ensures
            final(self).wf(),
            final(self).settings() == old(self).settings(),
            final(self).limiter().limits() == old(self).limiter().limits(),
            final(self).limiter().latest() >= old(self).limiter().latest(),
            final(self).registry().dir() == old(self).registry().dir(),
            final(self).registry().cached() == old(self).registry().cached(),
            out@ == begun(
                hook@,
                message@,
                old(self).limiter().user_history(),
                old(self).limiter().channel_history(),
                old(self).limiter().limits(),
                final(self).limiter().latest(),
                old(self).registry().cached(),
                old(self).registry().dir(),
            ),
            final(self).limiter().user_history() == after_check(
                old(self).limiter().user_history(),
                message@.author_id,
                final(self).limiter().latest(),
                old(self).limiter().limits().window,
                old(self).limiter().limits().per_user,
            ),
            final(self).limiter().channel_history() == channels_after_begin(
                message@,
                old(self).limiter().user_history(),
                old(self).limiter().channel_history(),
                old(self).limiter().limits(),
                final(self).limiter().latest(),
            ),
    {
        let now = self.now();
        self.begin_at(hook, message, now)
    }

    /// The step after the template's file was read, or could not be.
    pub fn template_read(
        &mut self,
        hook: &CompiledHookConfig,
        message: &MessageVariables,
        read: Result<String, String>,
    ) -> (out: Step)
        ensures
            final(self).settings() == old(self).settings(),
            final(self).limiter() == old(self).limiter(),
            final(self).registry().dir() == old(self).registry().dir(),
            final(self).registry().cached() == cache_after_load(
                old(self).registry().cached(),
                old(self).registry().dir(),
                hook@.prompt_file,
                read_view(read),
            ),
            out@ == after_render(
                hook@,
                render_outcome(
                    load_outcome(
                        old(self).registry().cached(),
                        old(self).registry().dir(),
                        hook@.prompt_file,
                        read_view(read),
                    ),
                    message@,
                ),
            ),
    {
        let prompt = self.prompt_registry.render(hook.prompt_file.as_str(), read, message);
        prompt_step(hook, prompt)
    }

    /// The step after the command ended.
    pub fn command_finished(
        &self,
        hook: &CompiledHookConfig,
        message: &MessageVariables,
        outcome: CommandOutcome,
    ) -> (out: Step)
        ensures
            out@ == after_processor(hook@, message@, command_result(outcome)),
    {
        let processor = CommandProcessor::new(hook.processing.timeout_seconds);
        response_step(hook, message, processor.conclude(outcome))
    }

    /// The step after the POST ended.
    pub fn post_finished(
        &self,
        hook: &CompiledHookConfig,
        message: &MessageVariables,
        outcome: HttpOutcome,
    ) -> (out: Step)
        ensures
            out@ == after_processor(hook@, message@, http_result(outcome)),
    {
        let processor = HttpProcessor::new(hook.processing.timeout_seconds);
        response_step(hook, message, processor.conclude(outcome))
    }

    /// The last step: the result, once delivery was tried.
    pub fn delivered(
        &self,
        hook: &CompiledHookConfig,
        response: String,
        report: Result<(), DiscliError>,
    ) -> (out: Step)
        ensures
            out@ == after_delivery(hook@.action, response@, delivery_view(report)),
    {
        let counts = match &hook.action {
            HookAction::Reply => true,
            HookAction::Forward { .. } => true,
            _ => false,
        };
        match report {
            Err(e) => {
                if counts {
                    return stop(Stage::DispatchFailed, e.message());
                }
            },
            Ok(_) => {},
        }
        Step {
            stage: Stage::Dispatched,
            effect: Effect::Finish(
                HookResult { executed: true, response: Some(response), error: None },
            ),
        }
    }

    /// One step of an execution: what `event` means at `stage`.
    pub fn step(
        &mut self,
        hook: &CompiledHookConfig,
        message: &MessageVariables,
        stage: Stage,
        event: Event,
    ) -> (out: Step)
        ensures
            final(self).wf(),
            final(self).settings() == old(self).settings(),
            final(self).limiter().limits() == old(self).limiter().limits(),
            final(self).limiter().latest() >= old(self).limiter().latest(),
            final(self).registry().dir() == old(self).registry().dir(),
            final(self).registry().cached() == cache_after_step(
                hook@,
                stage@,
                event@,
                old(self).registry().cached(),
                old(self).registry().dir(),
            ),
            stage@ is Received && event@ is Start ==> {
                &&& out@ == begun(
                    hook@,
                    message@,
                    old(self).limiter().user_history(),
                    old(self).limiter().channel_history(),
                    old(self).limiter().limits(),
                    final(self).limiter().latest(),
                    old(self).registry().cached(),
                    old(self).registry().dir(),
                )
                &&& final(self).limiter().user_history() == after_check(
                    old(self).limiter().user_history(),
                    message@.author_id,
                    final(self).limiter().latest(),
                    old(self).limiter().limits().window,
                    old(self).limiter().limits().per_user,
                )
                &&& final(self).limiter().channel_history() == channels_after_begin(
                    message@,
                    old(self).limiter().user_history(),
                    old(self).limiter().channel_history(),
                    old(self).limiter().limits(),
                    final(self).limiter().latest(),
                )
            },
            !(stage@ is Received && event@ is Start) ==> {
                &&& out@ == stepped(
                    hook@,
                    message@,
                    stage@,
                    event@,
                    old(self).registry().cached(),
                    old(self).registry().dir(),
                )
                &&& final(self).limiter() == old(self).limiter()
            },
    {
        proof {
            use_type_invariant(&self.rate_limiter);
        }
        match stage {
            Stage::Received => match event {
                Event::Start => self.begin(hook, message),
                _ => stop(Stage::Received, String::from_str("Unexpected event")),
            },
            Stage::Admitted => match event {
                Event::TemplateRead(read) => self.template_read(hook, message, read),
                _ => stop(Stage::Admitted, String::from_str("Unexpected event")),
            },
            Stage::Rendered => match event {
                Event::CommandFinished(outcome) => self.command_finished(hook, message, outcome),
                Event::PostFinished(outcome) => self.post_finished(hook, message, outcome),
                _ => stop(Stage::Rendered, String::from_str("Unexpected event")),
            },
            Stage::Processed { response } => match event {
                Event::Delivered(report) => self.delivered(hook, response, report),
                _ => stop(Stage::Processed { response }, String::from_str("Unexpected event")),
            },
            other => stop(other, String::from_str("Unexpected event")),
        }
    }
}

} // verus!
