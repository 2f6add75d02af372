//! Hook definitions as they are configured, and their compiled form.

use crate::error::{DiscliError, ErrorView};
use crate::text::{clone_list, equal, optional, optional_views, views};
use vstd::prelude::*;
use vstd::string::StringExecFns;

verus! {

/// `regex::Regex`, a compiled regular expression. Nothing is known of its
/// inside.
#[verifier::external_type_specification]
#[verifier::external_body]
pub struct ExRegex(regex::Regex);

/// `regex::Error`, why a pattern was refused. Nothing is known of its
/// inside.
#[verifier::external_type_specification]
#[verifier::external_body]
pub struct ExRegexError(regex::Error);

/// What `regex::Regex::new` returns for a pattern.
pub uninterp spec fn regex_compiled(pattern: Seq<char>) -> Result<regex::Regex, regex::Error>;

/// Whether `regex::Regex::is_match` finds a match of `re` anywhere in `haystack`.
pub uninterp spec fn regex_found(re: regex::Regex, haystack: Seq<char>) -> bool;

/// The text that the `Display` impl of `regex::Error` writes for `e`.
pub uninterp spec fn regex_error_text(e: regex::Error) -> Seq<char>;

/// `regex::Regex::new` parses and compiles a pattern. Its outcome depends on
/// the pattern alone.
pub assume_specification[ regex::Regex::new ](re: &str) -> (out: Result<regex::Regex, regex::Error>)
    ensures
        out == regex_compiled(re@),
;

/// `regex::Regex::is_match` searches the whole haystack. Its answer depends
/// on the compiled pattern and the haystack alone.
pub assume_specification[ regex::Regex::is_match ](re: &regex::Regex, haystack: &str) -> (found: bool)
    ensures
        found == regex_found(*re, haystack@),
;

/// `format!("{}", e)` for a `regex::Error`: the text of its `Display` impl.
#[verifier::external_body]
fn describe_regex_error(e: &regex::Error) -> (out: String)
    ensures
        out@ == regex_error_text(*e),
{
    format!("{}", e)
}

/// What to do when a hook fails.
#[derive(Debug, Clone, Copy, PartialEq, Eq, Structural)]
pub enum ErrorStrategy {
    Log,
    Ignore,
    Notify,
}

impl Default for ErrorStrategy {
    fn default() -> (out: Self)
        ensures
            out == ErrorStrategy::Log,
    {
        ErrorStrategy::Log
    }
}

/// Admission limits of the sliding window.
#[derive(Debug, Clone, Copy, PartialEq, Eq, Structural)]
pub struct RateLimitConfig {
    /// Most admissions per user within the window.
    pub per_user: u32,
    /// Most admissions per channel within the window.
    pub per_channel: u32,
    /// Length of the window in seconds.
    pub window_seconds: u64,
}

impl Default for RateLimitConfig {
    fn default() -> (out: Self)
        ensures
            out == (RateLimitConfig { per_user: 5, per_channel: 10, window_seconds: 60 }),
    {
        RateLimitConfig { per_user: 5, per_channel: 10, window_seconds: 60 }
    }
}

/// Settings that apply to every hook.
#[derive(Debug, Clone, Copy, PartialEq, Eq, Structural)]
pub struct Settings {
    pub on_error: ErrorStrategy,
    pub rate_limit: RateLimitConfig,
}

impl Default for Settings {
    fn default() -> (out: Self)
        ensures
            out.on_error == ErrorStrategy::Log,
            out.rate_limit == (RateLimitConfig { per_user: 5, per_channel: 10, window_seconds: 60 }),
    {
        Settings { on_error: ErrorStrategy::Log, rate_limit: RateLimitConfig::default() }
    }
}

/// The prompts directory used when the configuration names none.
pub fn default_prompts_dir() -> (out: String)
    ensures
        out@ == "./prompts"@,
{
    String::from_str("./prompts")
}

/// The admission limit used for a dimension that configures none.
pub fn default_rate_limit() -> (out: u32)
    ensures
        out == 5,
{
    5
}

/// The window length, in seconds, used when none is configured.
pub fn default_window() -> (out: u64)
    ensures
        out == 60,
{
    60
}

/// Hooks are enabled unless they say otherwise.
pub fn default_enabled() -> (out: bool)
    ensures
        out,
{
    true
}

/// The processor timeout, in seconds, used when a hook configures none.
pub fn default_timeout() -> (out: u64)
    ensures
        out == 30,
{
    30
}

/// The condition on a message's content that makes a hook consider it.
#[derive(Debug)]
pub enum TriggerConfig {
    /// Every message.
    Any,
    /// Content starts with `prefix`.
    Prefix { prefix: String },
    /// Content contains `substring`.
    Contains { substring: String },
    /// Content matches the regular expression `pattern`.
    Regex { pattern: String },
    /// The bot is mentioned.
    Mention,
}

/// Mathematical image of a [`TriggerConfig`].
pub enum TriggerView {
    Any,
    Prefix(Seq<char>),
    Contains(Seq<char>),
    Regex(Seq<char>),
    Mention,
}

impl View for TriggerConfig {
    type V = TriggerView;

    open spec fn view(&self) -> TriggerView {
        match self {
            TriggerConfig::Any => TriggerView::Any,
            TriggerConfig::Prefix { prefix } => TriggerView::Prefix(prefix@),
            TriggerConfig::Contains { substring } => TriggerView::Contains(substring@),
            TriggerConfig::Regex { pattern } => TriggerView::Regex(pattern@),
            TriggerConfig::Mention => TriggerView::Mention,
        }
    }
}

impl Clone for TriggerConfig {
    fn clone(&self) -> (out: Self)
        ensures
            out@ == self@,
    {
        match self {
            TriggerConfig::Any => TriggerConfig::Any,
            TriggerConfig::Prefix { prefix } => TriggerConfig::Prefix { prefix: prefix.clone() },
            TriggerConfig::Contains { substring } => TriggerConfig::Contains {
                substring: substring.clone(),
            },
            TriggerConfig::Regex { pattern } => TriggerConfig::Regex { pattern: pattern.clone() },
            TriggerConfig::Mention => TriggerConfig::Mention,
        }
    }
}

/// Restricts a hook to some authors.
#[derive(Debug)]
pub struct FilterConfig {
    /// Author ids that may trigger the hook; empty means everyone.
    pub users: Vec<String>,
    /// Role ids; accepted, and without effect.
    pub roles: Vec<String>,
}

/// Mathematical image of a [`FilterConfig`].
pub struct FilterView {
    pub users: Seq<Seq<char>>,
    pub roles: Seq<Seq<char>>,
}

impl View for FilterConfig {
    type V = FilterView;

    open spec fn view(&self) -> FilterView {
        FilterView { users: views(self.users@), roles: views(self.roles@) }
    }
}

impl Clone for FilterConfig {
    fn clone(&self) -> (out: Self)
        ensures
            out@ == self@,
    {
        FilterConfig { users: clone_list(&self.users), roles: clone_list(&self.roles) }
    }
}

/// Where a hook's response goes.
#[derive(Debug)]
pub enum HookAction {
    /// Back to the channel the message came from.
    Reply,
    /// To the author, as a direct message.
    SendDm,
    /// To another channel.
    Forward { channel_id: String },
    /// To a webhook URL.
    Webhook { url: String },
}

/// Mathematical image of a [`HookAction`].
pub enum ActionView {
    Reply,
    SendDm,
    Forward(Seq<char>),
    Webhook(Seq<char>),
}

impl View for HookAction {
    type V = ActionView;

    open spec fn view(&self) -> ActionView {
        match self {
            HookAction::Reply => ActionView::Reply,
            HookAction::SendDm => ActionView::SendDm,
            HookAction::Forward { channel_id } => ActionView::Forward(channel_id@),
            HookAction::Webhook { url } => ActionView::Webhook(url@),
        }
    }
}

impl Clone for HookAction {
    fn clone(&self) -> (out: Self)
        ensures
            out@ == self@,
    {
        match self {
            HookAction::Reply => HookAction::Reply,
            HookAction::SendDm => HookAction::SendDm,
            HookAction::Forward { channel_id } => HookAction::Forward {
                channel_id: channel_id.clone(),
            },
            HookAction::Webhook { url } => HookAction::Webhook { url: url.clone() },
        }
    }
}

/// How a hook turns its prompt into a response.
#[derive(Debug)]
pub struct ProcessingConfig {
    /// Bound on one invocation, in seconds.
    pub timeout_seconds: u64,
    /// `"command"` or `"http"`.
    pub processor_type: String,
    /// Program and arguments of the command backend.
    pub cmd: Vec<String>,
    /// Endpoint of the HTTP backend.
    pub url: String,
}

/// Mathematical image of a [`ProcessingConfig`].
pub struct ProcessingView {
    pub timeout_seconds: u64,
    pub processor_type: Seq<char>,
    pub cmd: Seq<Seq<char>>,
    pub url: Seq<char>,
}

impl View for ProcessingConfig {
    type V = ProcessingView;

    open spec fn view(&self) -> ProcessingView {
        ProcessingView {
            timeout_seconds: self.timeout_seconds,
            processor_type: self.processor_type@,
            cmd: views(self.cmd@),
            url: self.url@,
        }
    }
}

impl Clone for ProcessingConfig {
    fn clone(&self) -> (out: Self)
        ensures
            out@ == self@,
    {
        ProcessingConfig {
            timeout_seconds: self.timeout_seconds,
            processor_type: self.processor_type.clone(),
            cmd: clone_list(&self.cmd),
            url: self.url.clone(),
        }
    }
}

impl Default for ProcessingConfig {
    fn default() -> (out: Self)
        ensures
            out@ == (ProcessingView {
                timeout_seconds: 30,
                processor_type: "command"@,
                cmd: Seq::empty(),
                url: Seq::empty(),
            }),
    {
        let out = ProcessingConfig {
            timeout_seconds: 30,
            processor_type: String::from_str("command"),
            cmd: Vec::new(),
            url: String::new(),
        };
        assert(views(out.cmd@) =~= Seq::<Seq<char>>::empty());
        out
    }
}

/// A processor backend.
#[derive(Debug)]
pub enum Processor {
    /// Runs a command with the prompt on its standard input.
    Command { cmd: Vec<String> },
    /// Posts the prompt to an HTTP endpoint.
    Http { url: String },
}

/// Mathematical image of a [`Processor`].
pub enum ProcessorView {
    Command(Seq<Seq<char>>),
    Http(Seq<char>),
}

impl View for Processor {
    type V = ProcessorView;

    open spec fn view(&self) -> ProcessorView {
        match self {
            Processor::Command { cmd } => ProcessorView::Command(views(cmd@)),
            Processor::Http { url } => ProcessorView::Http(url@),
        }
    }
}

impl Clone for Processor {
    fn clone(&self) -> (out: Self)
        ensures
            out@ == self@,
    {
        match self {
            Processor::Command { cmd } => Processor::Command { cmd: clone_list(cmd) },
            Processor::Http { url } => Processor::Http { url: url.clone() },
        }
    }
}

impl Default for Processor {
    fn default() -> (out: Self)
        ensures
            out@ == ProcessorView::Command(Seq::empty()),
    {
        let out = Processor::Command { cmd: Vec::new() };
        assert(views(Seq::<String>::empty()) =~= Seq::<Seq<char>>::empty());
        out
    }
}

/// The backend that a kind and the values found under `cmd` and `url` select.
pub open spec fn processor_for(
    kind: Seq<char>,
    cmd: Option<Seq<Seq<char>>>,
    url: Option<Seq<char>>,
) -> ProcessorView {
    if kind == "http"@ {
        ProcessorView::Http(
            match url {
                Some(u) => u,
                None => Seq::empty(),
            },
        )
    } else if kind == "command"@ {
        ProcessorView::Command(
            match cmd {
                Some(c) => c,
                None => Seq::empty(),
            },
        )
    } else {
        ProcessorView::Command(Seq::empty())
    }
}

impl Processor {
    /// Builds the backend of kind `type_str` from the values that a
    /// configuration mapping holds under `cmd` and `url`; a value that is
    /// absent, or not of the expected shape, is `None`. An unknown kind is a
    /// command backend without a command.
    pub fn from_yaml(type_str: &str, cmd: Option<Vec<String>>, url: Option<String>) -> (out: Self)
        ensures
            out@ == processor_for(type_str@, optional_views(cmd), optional(url)),
    {
        proof {
            assert(views(Seq::<String>::empty()) =~= Seq::<Seq<char>>::empty());
        }
        if equal(type_str, "http") {
            match url {
                Some(u) => Processor::Http { url: u },
                None => Processor::Http { url: String::new() },
            }
        } else if equal(type_str, "command") {
            match cmd {
                Some(c) => Processor::Command { cmd: c },
                None => Processor::Command { cmd: Vec::new() },
            }
        } else {
            Processor::Command { cmd: Vec::new() }
        }
    }
}

/// One hook as it is configured.
#[derive(Debug)]
pub struct HookConfig {
    /// Identifier, unique within one configuration.
    pub id: String,
    /// Name for people.
    pub name: String,
    /// Whether the hook takes part at all.
    pub enabled: bool,
    /// Channels the hook listens on.
    pub channels: Vec<String>,
    /// Condition on the message's content.
    pub trigger: TriggerConfig,
    /// Prompt template, relative to the prompts directory unless absolute.
    pub prompt_file: String,
    /// Optional restriction on authors.
    pub filter: Option<FilterConfig>,
    /// Where the response goes.
    pub action: HookAction,
    /// How the response is produced.
    pub processing: ProcessingConfig,
}

/// Mathematical image of a [`HookConfig`].
pub struct HookView {
    pub id: Seq<char>,
    pub name: Seq<char>,
    pub enabled: bool,
    pub channels: Seq<Seq<char>>,
    pub trigger: TriggerView,
    pub prompt_file: Seq<char>,
    pub filter: Option<FilterView>,
    pub action: ActionView,
    pub processing: ProcessingView,
}

/// The view of an optional filter.
pub open spec fn filter_view(filter: Option<FilterConfig>) -> Option<FilterView> {
    match filter {
        Some(f) => Some(f@),
        None => None,
    }
}

impl View for HookConfig {
    type V = HookView;

    open spec fn view(&self) -> HookView {
        HookView {
            id: self.id@,
            name: self.name@,
            enabled: self.enabled,
            channels: views(self.channels@),
            trigger: self.trigger@,
            prompt_file: self.prompt_file@,
            filter: filter_view(self.filter),
            action: self.action@,
            processing: self.processing@,
        }
    }
}

fn clone_filter(filter: &Option<FilterConfig>) -> (out: Option<FilterConfig>)
    ensures
        filter_view(out) == filter_view(*filter),
{
    match filter {
        Some(f) => Some(f.clone()),
        None => None,
    }
}

impl Clone for HookConfig {
    fn clone(&self) -> (out: Self)
        ensures
            out@ == self@,
    {
        HookConfig {
            id: self.id.clone(),
            name: self.name.clone(),
            enabled: self.enabled,
            channels: clone_list(&self.channels),
            trigger: self.trigger.clone(),
            prompt_file: self.prompt_file.clone(),
            filter: clone_filter(&self.filter),
            action: self.action.clone(),
            processing: self.processing.clone(),
        }
    }
}

/// A trigger whose regular expression, if it has one, is compiled.
#[derive(Debug)]
pub enum CompiledTrigger {
    Any,
    Prefix(String),
    Contains(String),
    Regex(regex::Regex),
    Mention,
}

/// Mathematical image of a [`CompiledTrigger`].
pub enum CompiledTriggerView {
    Any,
    Prefix(Seq<char>),
    Contains(Seq<char>),
    Regex(regex::Regex),
    Mention,
}

impl View for CompiledTrigger {
    type V = CompiledTriggerView;

    open spec fn view(&self) -> CompiledTriggerView {
        match self {
            CompiledTrigger::Any => CompiledTriggerView::Any,
            CompiledTrigger::Prefix(p) => CompiledTriggerView::Prefix(p@),
            CompiledTrigger::Contains(s) => CompiledTriggerView::Contains(s@),
            CompiledTrigger::Regex(re) => CompiledTriggerView::Regex(*re),
            CompiledTrigger::Mention => CompiledTriggerView::Mention,
        }
    }
}

/// Whether a trigger can be compiled: every trigger can, but a regular
/// expression that `regex` refuses.
pub open spec fn compiles(trigger: TriggerView) -> bool {
    trigger matches TriggerView::Regex(pattern) ==> regex_compiled(pattern) is Ok
}

/// The compiled form of a trigger that compiles.
pub open spec fn compiled_trigger(trigger: TriggerView) -> CompiledTriggerView {
    match trigger {
        TriggerView::Any => CompiledTriggerView::Any,
        TriggerView::Prefix(p) => CompiledTriggerView::Prefix(p),
        TriggerView::Contains(s) => CompiledTriggerView::Contains(s),
        TriggerView::Regex(pattern) => CompiledTriggerView::Regex(regex_compiled(pattern)->Ok_0),
        TriggerView::Mention => CompiledTriggerView::Mention,
    }
}

impl CompiledTrigger {
    /// Compiles a trigger configuration that is known to compile.
    pub fn from(config: TriggerConfig) -> (out: CompiledTrigger)
        requires
            compiles(config@),
        ensures
            out@ == compiled_trigger(config@),
    {
        match config {
            TriggerConfig::Any => CompiledTrigger::Any,
            TriggerConfig::Prefix { prefix } => CompiledTrigger::Prefix(prefix),
            TriggerConfig::Contains { substring } => CompiledTrigger::Contains(substring),
            TriggerConfig::Regex { pattern } => {
                match regex::Regex::new(pattern.as_str()) {
                    Ok(re) => CompiledTrigger::Regex(re),
                    Err(_) => {
                        assert(false);
                        CompiledTrigger::Mention
                    },
                }
            },
            TriggerConfig::Mention => CompiledTrigger::Mention,
        }
    }
}

/// A hook ready to be matched against messages.
#[derive(Debug)]
pub struct CompiledHookConfig {
    pub id: String,
    pub name: String,
    pub channels: Vec<String>,
    pub trigger: CompiledTrigger,
    pub prompt_file: String,
    pub filter: Option<FilterConfig>,
    pub action: HookAction,
    pub processing: ProcessingConfig,
}

/// Mathematical image of a [`CompiledHookConfig`].
pub struct CompiledHookView {
    pub id: Seq<char>,
    pub name: Seq<char>,
    pub channels: Seq<Seq<char>>,
    pub trigger: CompiledTriggerView,
    pub prompt_file: Seq<char>,
    pub filter: Option<FilterView>,
    pub action: ActionView,
    pub processing: ProcessingView,
}

impl View for CompiledHookConfig {
    type V = CompiledHookView;

    open spec fn view(&self) -> CompiledHookView {
        CompiledHookView {
            id: self.id@,
            name: self.name@,
            channels: views(self.channels@),
            trigger: self.trigger@,
            prompt_file: self.prompt_file@,
            filter: filter_view(self.filter),
            action: self.action@,
            processing: self.processing@,
        }
    }
}

/// What compiling a hook yields: the hook with its trigger compiled, or the
/// configuration error that names what `regex` said of the pattern.
pub open spec fn compile_outcome(hook: HookView) -> Result<CompiledHookView, ErrorView> {
    if compiles(hook.trigger) {
        Ok(
            CompiledHookView {
                id: hook.id,
                name: hook.name,
                channels: hook.channels,
                trigger: compiled_trigger(hook.trigger),
                prompt_file: hook.prompt_file,
                filter: hook.filter,
                action: hook.action,
                processing: hook.processing,
            },
        )
    } else {
        Err(
            ErrorView::Config(
                "Invalid regex: "@ + regex_error_text(
                    regex_compiled(hook.trigger->Regex_0)->Err_0,
                ),
            ),
        )
    }
}

/// The views of a compilation result.
pub open spec fn outcome_view(out: Result<CompiledHookConfig, DiscliError>) -> Result<
    CompiledHookView,
    ErrorView,
> {
    match out {
        Ok(hook) => Ok(hook@),
        Err(e) => Err(e@),
    }
}

impl HookConfig {
    /// Compiles the hook's trigger. Fails only for a regular expression that
    /// `regex` refuses.
    pub fn compile(&self) -> (out: Result<CompiledHookConfig, DiscliError>)
        ensures
            outcome_view(out) == compile_outcome(self@),
    {
        let trigger = match &self.trigger {
            TriggerConfig::Regex { pattern } => {
                match regex::Regex::new(pattern.as_str()) {
                    Ok(re) => CompiledTrigger::Regex(re),
                    Err(e) => {
                        let text = describe_regex_error(&e);
                        return Err(
                            DiscliError::Config(
                                String::from_str("Invalid regex: ").concat(text.as_str()),
                            ),
                        );
                    },
                }
            },
            other => CompiledTrigger::from(other.clone()),
        };
        Ok(
            CompiledHookConfig {
                id: self.id.clone(),
                name: self.name.clone(),
                channels: clone_list(&self.channels),
                trigger,
                prompt_file: self.prompt_file.clone(),
                filter: clone_filter(&self.filter),
                action: self.action.clone(),
                processing: self.processing.clone(),
            },
        )
    }
}

/// A whole hooks file.
#[derive(Debug)]
pub struct HooksConfig {
    /// Version of the file format.
    pub version: String,
    /// Settings for all hooks.
    pub settings: Settings,
    /// The hooks, in file order.
    pub hooks: Vec<HookConfig>,
    /// Directory of the prompt templates.
    pub prompts_dir: String,
}

/// Index of the first hook at or after `from` that names no channel, or the
/// number of hooks if there is none.
pub open spec fn first_without_channels(hooks: Seq<HookConfig>, from: int) -> int
    decreases hooks.len() - from,
{
    if from < 0 || from >= hooks.len() {
        hooks.len() as int
    } else if hooks[from].channels@.len() == 0 {
        from
    } else {
        first_without_channels(hooks, from + 1)
    }
}

/// What validation says of a list of hooks: the error for an empty list,
/// else the error for the first hook without channels, else nothing.
pub open spec fn validation_error(hooks: Seq<HookConfig>) -> Option<ErrorView> {
    if hooks.len() == 0 {
        Some(ErrorView::Config("No hooks defined"@))
    } else {
        let at = first_without_channels(hooks, 0);
        if at < hooks.len() {
            Some(
                ErrorView::Config("Hook '"@ + hooks[at].id@ + "' has no channels defined"@),
            )
        } else {
            None
        }
    }
}

/// The enabled hooks of a list, in their order.
pub open spec fn enabled_of(hooks: Seq<HookConfig>) -> Seq<HookConfig> {
    hooks.filter(|h: HookConfig| h.enabled)
}

impl HooksConfig {
    /// The hooks that are enabled, in file order.
    pub fn enabled_hooks(&self) -> (out: Vec<&HookConfig>)
        ensures
            out@.map_values(|h: &HookConfig| *h) == enabled_of(self.hooks@),
    {
        let mut out: Vec<&HookConfig> = Vec::new();
        let mut i: usize = 0;
        proof {
            assert(self.hooks@.take(0) =~= Seq::<HookConfig>::empty());
            assert(out@.map_values(|h: &HookConfig| *h) =~= Seq::<HookConfig>::empty());
        }
        while i < self.hooks.len()
            invariant
                i <= self.hooks.len(),
                out@.map_values(|h: &HookConfig| *h) == enabled_of(self.hooks@.take(i as int)),
            decreases self.hooks.len() - i,
        {
            let ghost before = out@;
            let hook = &self.hooks[i];
            if hook.enabled {
                out.push(hook);
            }
            proof {
                let prefix = self.hooks@.take(i as int);
                assert(self.hooks@.take(i + 1) =~= prefix.push(self.hooks@[i as int]));
                prefix.lemma_filter_push(self.hooks@[i as int], |h: HookConfig| h.enabled);
                if hook.enabled {
                    assert(out@.map_values(|h: &HookConfig| *h) =~= before.map_values(
                        |h: &HookConfig| *h,
                    ).push(*hook));
                }
            }
            i += 1;
        }
        assert(self.hooks@.take(self.hooks@.len() as int) =~= self.hooks@);
        out
    }

    /// Checks that there is at least one hook and that every hook names at
    /// least one channel.
    pub fn validate(&self) -> (out: Result<(), DiscliError>)
        ensures
            match out {
                Ok(_) => validation_error(self.hooks@) is None,
                Err(e) => validation_error(self.hooks@) == Some(e@),
            },
            out is Ok <==> self.hooks@.len() > 0 && forall|i: int|
                0 <= i < self.hooks@.len() ==> (#[trigger] self.hooks@[i]).channels@.len() > 0,
    {
        if self.hooks.len() == 0 {
            return Err(DiscliError::Config(String::from_str("No hooks defined")));
        }
        let mut i: usize = 0;
        while i < self.hooks.len()
            invariant
                i <= self.hooks.len(),
                first_without_channels(self.hooks@, 0) == first_without_channels(
                    self.hooks@,
                    i as int,
                ),
                forall|j: int| 0 <= j < i ==> (#[trigger] self.hooks@[j]).channels@.len() > 0,
            decreases self.hooks.len() - i,
        {
            let hook = &self.hooks[i];
            if hook.channels.len() == 0 {
                let message = String::from_str("Hook '").concat(hook.id.as_str()).concat(
                    "' has no channels defined",
                );
                return Err(DiscliError::Config(message));
            }
            i += 1;
        }
        Ok(())
    }
}

} // verus!
