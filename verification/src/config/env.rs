//! Configuration taken from the process environment.
//!
//! Reading the environment is the caller's business; what the variables
//! mean is decided here.

use crate::error::{DiscliError, ErrorView};
use crate::text::optional;
use crate::text::equal;
use vstd::prelude::*;
use vstd::string::StringExecFns;

verus! {

/// The values of the environment variables that the configuration reads,
/// `None` for a variable that is not set.
#[derive(Debug)]
pub struct Environment {
    /// `DISCORD_TOKEN`
    pub discord_token: Option<String>,
    /// `DISCORD_CHANNEL_ID`
    pub channel_id: Option<String>,
    /// `HOOK_ENABLED`
    pub hook_enabled: Option<String>,
    /// `HOOKS_FILE`
    pub hooks_file: Option<String>,
    /// `PROMPTS_DIR`
    pub prompts_dir: Option<String>,
    /// `LOG_LEVEL`
    pub log_level: Option<String>,
}

/// Mathematical image of an [`Environment`].
pub struct EnvironmentView {
    pub discord_token: Option<Seq<char>>,
    pub channel_id: Option<Seq<char>>,
    pub hook_enabled: Option<Seq<char>>,
    pub hooks_file: Option<Seq<char>>,
    pub prompts_dir: Option<Seq<char>>,
    pub log_level: Option<Seq<char>>,
}

impl View for Environment {
    type V = EnvironmentView;

    open spec fn view(&self) -> EnvironmentView {
        EnvironmentView {
            discord_token: optional(self.discord_token),
            channel_id: optional(self.channel_id),
            hook_enabled: optional(self.hook_enabled),
            hooks_file: optional(self.hooks_file),
            prompts_dir: optional(self.prompts_dir),
            log_level: optional(self.log_level),
        }
    }
}

/// The configuration of the process.
#[derive(Debug)]
pub struct Config {
    /// Bot token.
    pub discord_token: String,
    /// Channel that messages are sent to.
    pub channel_id: String,
    /// Whether the hook system is on.
    pub hook_enabled: bool,
    /// The hooks file.
    pub hooks_file: String,
    /// Directory of the prompt templates.
    pub prompts_dir: String,
    /// Logging level.
    pub log_level: String,
}

/// Mathematical image of a [`Config`].
pub struct ConfigView {
    pub discord_token: Seq<char>,
    pub channel_id: Seq<char>,
    pub hook_enabled: bool,
    pub hooks_file: Seq<char>,
    pub prompts_dir: Seq<char>,
    pub log_level: Seq<char>,
}

impl View for Config {
    type V = ConfigView;

    open spec fn view(&self) -> ConfigView {
        ConfigView {
            discord_token: self.discord_token@,
            channel_id: self.channel_id@,
            hook_enabled: self.hook_enabled,
            hooks_file: self.hooks_file@,
            prompts_dir: self.prompts_dir@,
            log_level: self.log_level@,
        }
    }
}

impl Clone for Config {
    fn clone(&self) -> (out: Self)
        ensures
            out@ == self@,
    {
        Config {
            discord_token: self.discord_token.clone(),
            channel_id: self.channel_id.clone(),
            hook_enabled: self.hook_enabled,
            hooks_file: self.hooks_file.clone(),
            prompts_dir: self.prompts_dir.clone(),
            log_level: self.log_level.clone(),
        }
    }
}

/// A value, or `fallback` where there is none.
pub open spec fn or_default(value: Option<Seq<char>>, fallback: Seq<char>) -> Seq<char> {
    match value {
        Some(v) => v,
        None => fallback,
    }
}

/// The configuration that an environment gives: token and channel are
/// required, in this order; the hook system is on for `true` and `1`; the
/// rest has defaults.
pub open spec fn configured(env: EnvironmentView) -> Result<ConfigView, ErrorView> {
    if env.discord_token is None {
        Err(ErrorView::Config("DISCORD_TOKEN not set"@))
    } else if env.channel_id is None {
        Err(ErrorView::Config("DISCORD_CHANNEL_ID not set"@))
    } else {
        Ok(
            ConfigView {
                discord_token: env.discord_token->Some_0,
                channel_id: env.channel_id->Some_0,
                hook_enabled: env.hook_enabled == Some("true"@) || env.hook_enabled == Some("1"@),
                hooks_file: or_default(env.hooks_file, "./hooks.yaml"@),
                prompts_dir: or_default(env.prompts_dir, "./prompts"@),
                log_level: or_default(env.log_level, "info"@),
            },
        )
    }
}

/// The views of a loaded configuration.
pub open spec fn loaded_view(out: Result<Config, DiscliError>) -> Result<ConfigView, ErrorView> {
    match out {
        Ok(config) => Ok(config@),
        Err(e) => Err(e@),
    }
}

fn value_or(value: Option<String>, fallback: &str) -> (out: String)
    ensures
        out@ == or_default(optional(value), fallback@),
{
    match value {
        Some(v) => v,
        None => String::from_str(fallback),
    }
}

impl Config {
    /// The configuration that the environment's values give.
    pub fn load(env: Environment) -> (out: Result<Config, DiscliError>)
        ensures
            loaded_view(out) == configured(env@),
    {
        let Environment { discord_token, channel_id, hook_enabled, hooks_file, prompts_dir, log_level } =
            env;
        let discord_token = match discord_token {
            Some(token) => token,
            None => {
                return Err(DiscliError::Config(String::from_str("DISCORD_TOKEN not set")));
            },
        };
        let channel_id = match channel_id {
            Some(id) => id,
            None => {
                return Err(DiscliError::Config(String::from_str("DISCORD_CHANNEL_ID not set")));
            },
        };
        let hook_enabled = match hook_enabled {
            Some(v) => equal(v.as_str(), "true") || equal(v.as_str(), "1"),
            None => false,
        };
        Ok(
            Config {
                discord_token,
                channel_id,
                hook_enabled,
                hooks_file: value_or(hooks_file, "./hooks.yaml"),
                prompts_dir: value_or(prompts_dir, "./prompts"),
                log_level: value_or(log_level, "info"),
            },
        )
    }
}

} // verus!
