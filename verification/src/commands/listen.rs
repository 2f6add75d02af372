//! The listener: which hooks take part, and which of them a message fires.

use crate::config::env::{Config, ConfigView};
use crate::error::{DiscliError, ErrorView};
use crate::hooks::config::{
    compile_outcome, compiles, enabled_of, CompiledHookConfig, CompiledHookView,
    HookConfig, HooksConfig,
};
use crate::hooks::executor::{limits_of, HookExecutor};
use crate::hooks::rate_limit::Admission;
use crate::hooks::trigger::{fires, should_trigger};
use crate::prompt::loader::TemplateView;
use crate::prompt::variables::{MessageVariables, VariablesView};
use crate::text::optional;
use vstd::prelude::*;
use vstd::string::StringExecFns;

verus! {

/// A hook that was left out because its trigger does not compile.
#[derive(Debug)]
pub struct CompileFailure {
    /// The hook's id.
    pub id: String,
    /// What was wrong with it.
    pub error: DiscliError,
}

/// What compiling the hooks of a configuration gave.
#[derive(Debug)]
pub struct Compilation {
    /// The hooks that take part, in file order.
    pub hooks: Vec<CompiledHookConfig>,
    /// The hooks that were left out, in file order.
    pub failures: Vec<CompileFailure>,
}

/// The views of a list of compiled hooks.
pub open spec fn hook_views(hooks: Seq<CompiledHookConfig>) -> Seq<CompiledHookView> {
    Seq::new(hooks.len(), |i: int| hooks[i]@)
}

/// The views of a list of failures: the hook's id and the error.
pub open spec fn failure_views(failures: Seq<CompileFailure>) -> Seq<(Seq<char>, ErrorView)> {
    Seq::new(failures.len(), |i: int| (failures[i].id@, failures[i].error@))
}

/// The hooks that take part: those that are enabled and compile, compiled,
/// in file order.
pub open spec fn active_hooks(hooks: Seq<HookConfig>) -> Seq<CompiledHookView> {
    enabled_of(hooks).filter(|h: HookConfig| compiles(h@.trigger)).map_values(
        |h: HookConfig| compile_outcome(h@)->Ok_0,
    )
}

/// The hooks that are left out though enabled: those that do not compile,
/// each with its error, in file order.
pub open spec fn failed_hooks(hooks: Seq<HookConfig>) -> Seq<(Seq<char>, ErrorView)> {
    enabled_of(hooks).filter(|h: HookConfig| !compiles(h@.trigger)).map_values(
        |h: HookConfig| (h.id@, compile_outcome(h@)->Err_0),
    )
}

/// Compiles the enabled hooks of a configuration. A hook that does not
/// compile is left out and reported; the others are not affected.
pub fn compile_hooks(config: &HooksConfig) -> (out: Compilation)
    ensures
        hook_views(out.hooks@) == active_hooks(config.hooks@),
        failure_views(out.failures@) == failed_hooks(config.hooks@),
{
    let enabled = config.enabled_hooks();
    let ghost all = enabled_of(config.hooks@);
    let mut hooks: Vec<CompiledHookConfig> = Vec::new();
    let mut failures: Vec<CompileFailure> = Vec::new();
    let ghost good = |h: HookConfig| compiles(h@.trigger);
    let ghost bad = |h: HookConfig| !compiles(h@.trigger);
    let ghost compiled = |h: HookConfig| compile_outcome(h@)->Ok_0;
    let ghost refused = |h: HookConfig| (h.id@, compile_outcome(h@)->Err_0);
    let mut i: usize = 0;
    proof {
        assert(enabled@.len() == all.len()) by {
            assert(enabled@.map_values(|h: &HookConfig| *h).len() == enabled@.len());
        }
        assert(all.take(0) =~= Seq::<HookConfig>::empty());
        assert(hook_views(hooks@) =~= all.take(0).filter(good).map_values(compiled));
        assert(failure_views(failures@) =~= all.take(0).filter(bad).map_values(refused));
    }
    while i < enabled.len()
        invariant
            i <= enabled.len(),
            enabled@.len() == all.len(),
            enabled@.map_values(|h: &HookConfig| *h) == all,
            good == |h: HookConfig| compiles(h@.trigger),
            bad == |h: HookConfig| !compiles(h@.trigger),
            compiled == |h: HookConfig| compile_outcome(h@)->Ok_0,
            refused == |h: HookConfig| (h.id@, compile_outcome(h@)->Err_0),
            hook_views(hooks@) == all.take(i as int).filter(good).map_values(compiled),
            failure_views(failures@) == all.take(i as int).filter(bad).map_values(refused),
        decreases enabled.len() - i,
    {
        let hook: &HookConfig = enabled[i];
        let ghost seen = all.take(i as int);
        let ghost found = hook_views(hooks@);
        let ghost lost = failure_views(failures@);
        proof {
            assert(enabled@.map_values(|h: &HookConfig| *h)[i as int] == *hook);
            assert(all[i as int] == *hook);
            assert(all.take(i + 1) =~= seen.push(*hook));
            seen.lemma_filter_push(*hook, good);
            seen.lemma_filter_push(*hook, bad);
        }
        match hook.compile() {
            Ok(ready) => {
                hooks.push(ready);
                proof {
                    assert(hook_views(hooks@) =~= found.push(compiled(*hook)));
                    assert(seen.filter(good).push(*hook).map_values(compiled) =~= seen.filter(
                        good,
                    ).map_values(compiled).push(compiled(*hook)));
                }
            },
            Err(error) => {
                failures.push(CompileFailure { id: hook.id.clone(), error });
                proof {
                    assert(failure_views(failures@) =~= lost.push(refused(*hook)));
                    assert(seen.filter(bad).push(*hook).map_values(refused) =~= seen.filter(
                        bad,
                    ).map_values(refused).push(refused(*hook)));
                }
            },
        }
        i += 1;
    }
    proof {
        assert(all.take(all.len() as int) =~= all);
    }
    Compilation { hooks, failures }
}

/// A hook whose regular expression does not compile takes no part, and
/// every enabled hook that compiles does, whatever stands beside it.
pub proof fn failed_hook_is_left_out(hooks: Seq<HookConfig>, at: int)
    requires
        0 <= at < hooks.len(),
        hooks[at].enabled,
    ensures
        compiles(hooks[at]@.trigger) ==> active_hooks(hooks).contains(
            compile_outcome(hooks[at]@)->Ok_0,
        ),
        !compiles(hooks[at]@.trigger) ==> failed_hooks(hooks).contains(
            (hooks[at].id@, compile_outcome(hooks[at]@)->Err_0),
        ),
        active_hooks(hooks).len() + failed_hooks(hooks).len() == enabled_of(hooks).len(),
{
    let on = |h: HookConfig| h.enabled;
    let good = |h: HookConfig| compiles(h@.trigger);
    let bad = |h: HookConfig| !compiles(h@.trigger);
    let all = enabled_of(hooks);
    hooks.lemma_filter_contains(on, at);
    assert(all.contains(hooks[at]));
    let j = choose|j: int| 0 <= j < all.len() && all[j] == hooks[at];
    if compiles(hooks[at]@.trigger) {
        all.lemma_filter_contains(good, j);
        let kept = all.filter(good);
        let i = choose|i: int| 0 <= i < kept.len() && kept[i] == hooks[at];
        let mapped = kept.map_values(|h: HookConfig| compile_outcome(h@)->Ok_0);
        assert(mapped[i] == compile_outcome(hooks[at]@)->Ok_0);
    } else {
        all.lemma_filter_contains(bad, j);
        let kept = all.filter(bad);
        let i = choose|i: int| 0 <= i < kept.len() && kept[i] == hooks[at];
        let mapped = kept.map_values(|h: HookConfig| (h.id@, compile_outcome(h@)->Err_0));
        assert(mapped[i] == (hooks[at].id@, compile_outcome(hooks[at]@)->Err_0));
    }
    lemma_filter_partition(all);
}

proof fn lemma_filter_partition(all: Seq<HookConfig>)
    ensures
        all.filter(|h: HookConfig| compiles(h@.trigger)).len() + all.filter(
            |h: HookConfig| !compiles(h@.trigger),
        ).len() == all.len(),
    decreases all.len(),
{
    let good = |h: HookConfig| compiles(h@.trigger);
    let bad = |h: HookConfig| !compiles(h@.trigger);
    if all.len() > 0 {
        let shorter = all.drop_last();
        lemma_filter_partition(shorter);
        assert(all =~= shorter.push(all.last()));
        shorter.lemma_filter_push(all.last(), good);
        shorter.lemma_filter_push(all.last(), bad);
    }
}

/// The hooks file to use: the one asked for, else the configured one.
pub fn hooks_path(config: &Config, hooks_file: Option<String>) -> (out: String)
    ensures
        out@ == match optional(hooks_file) {
            Some(path) => path,
            None => config@.hooks_file,
        },
{
    match hooks_file {
        Some(path) => path,
        None => config.hooks_file.clone(),
    }
}

/// Refuses to start without a hooks file.
pub fn require_hooks_file(path: &str, exists: bool) -> (out: Result<(), DiscliError>)
    ensures
        exists ==> out is Ok,
        !exists ==> (out matches Err(e) && e@ == ErrorView::Config(
            "Hooks file not found: "@ + path@ + " (use --hooks-file or create hooks.yaml)"@,
        )),
{
    if exists {
        Ok(())
    } else {
        Err(
            DiscliError::Config(
                String::from_str("Hooks file not found: ").concat(path).concat(
                    " (use --hooks-file or create hooks.yaml)",
                ),
            ),
        )
    }
}

/// A running listener: the hooks that take part and the executor they
/// share.
pub struct Listener {
    /// The hooks, in file order.
    pub hooks: Vec<CompiledHookConfig>,
    /// Hooks that were left out at startup.
    pub failures: Vec<CompileFailure>,
    /// The executor.
    pub executor: HookExecutor,
}

/// The indices of the hooks among the first `count` that `message` fires,
/// ascending.
pub open spec fn firing(hooks: Seq<CompiledHookView>, message: VariablesView, count: nat) -> Seq<
    usize,
>
    decreases count,
{
    if count == 0 || count > hooks.len() {
        Seq::empty()
    } else {
        let before = firing(hooks, message, (count - 1) as nat);
        if fires(hooks[count - 1], message) {
            before.push((count - 1) as usize)
        } else {
            before
        }
    }
}

/// Sets a listener up: validates the hooks, compiles them and makes the
/// executor with the configured rate limits, and with `prompts_dir` in the place of the configured directory
/// where one is given. Fails where the configuration is invalid or no hook
/// is left to run.
pub fn execute(config: &Config, hooks_config: &HooksConfig, prompts_dir: Option<String>) -> (out:
    Result<Listener, DiscliError>)
    ensures
        match out {
            Ok(listener) => {
                &&& crate::hooks::config::validation_error(hooks_config.hooks@) is None
                &&& active_hooks(hooks_config.hooks@).len() > 0
                &&& hook_views(listener.hooks@) == active_hooks(hooks_config.hooks@)
                &&& failure_views(listener.failures@) == failed_hooks(hooks_config.hooks@)
                &&& listener.executor.wf()
                &&& listener.executor.settings() == (ConfigView {
                    prompts_dir: match optional(prompts_dir) {
                        Some(dir) => dir,
                        None => config@.prompts_dir,
                    },
                    ..config@
                })
                &&& listener.executor.limiter().limits() == limits_of(
                    hooks_config.settings.rate_limit,
                )
                &&& listener.executor.registry().dir() == listener.executor.settings().prompts_dir
                &&& listener.executor.registry().cached() == Map::<
                    Seq<char>,
                    TemplateView,
                >::empty()
                &&& listener.executor.limiter().user_history() == Seq::<Admission>::empty()
                &&& listener.executor.limiter().channel_history() == Seq::<Admission>::empty()
            },
            Err(e) => match crate::hooks::config::validation_error(hooks_config.hooks@) {
                Some(invalid) => e@ == invalid,
                None => active_hooks(hooks_config.hooks@).len() == 0 && e@ == ErrorView::Config(
                    "No valid hooks to execute"@,
                ),
            },
        },
{
    match hooks_config.validate() {
        Err(e) => {
            return Err(e);
        },
        Ok(_) => {},
    }
    let Compilation { hooks, failures } = compile_hooks(hooks_config);
    assert(hook_views(hooks@).len() == hooks@.len());
    if hooks.len() == 0 {
        return Err(DiscliError::Config(String::from_str("No valid hooks to execute")));
    }
    let mut settings = config.clone();
    match prompts_dir {
        Some(dir) => {
            settings.prompts_dir = dir;
        },
        None => {},
    }
    let executor = HookExecutor::with_limits(settings, hooks_config.settings.rate_limit);
    Ok(Listener { hooks, failures, executor })
}

impl Listener {
    /// The hooks that `message` fires, by index, in file order. Each is to
    /// be executed on its own.
    pub fn matching(&self, message: &MessageVariables) -> (out: Vec<usize>)
        ensures
            out@ == firing(hook_views(self.hooks@), message@, self.hooks@.len()),
    {
        let mut out: Vec<usize> = Vec::new();
        let mut i: usize = 0;
        while i < self.hooks.len()
            invariant
                i <= self.hooks.len(),
                out@ == firing(hook_views(self.hooks@), message@, i as nat),
            decreases self.hooks.len() - i,
        {
            assert(hook_views(self.hooks@)[i as int] == self.hooks@[i as int]@);
            if should_trigger(&self.hooks[i], message) {
                out.push(i);
            }
            i += 1;
        }
        out
    }
}

} // verus!
