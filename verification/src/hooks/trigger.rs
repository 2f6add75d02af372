//! Matching an inbound message against a hook: channel, trigger, filter.

use crate::hooks::config::{
    filter_view, regex_found, CompiledHookConfig, CompiledHookView, CompiledTrigger,
    CompiledTriggerView, FilterConfig, FilterView,
};
use crate::prompt::variables::{MessageVariables, VariablesView};
use crate::text::{contains, is_substring, list_contains, starts_with, views};
use vstd::prelude::*;

verus! {

/// Whether a message's content satisfies a trigger. A mention trigger is
/// satisfied by no message.
pub open spec fn trigger_matches(trigger: CompiledTriggerView, content: Seq<char>) -> bool {
    match trigger {
        CompiledTriggerView::Any => true,
        CompiledTriggerView::Prefix(prefix) => prefix.is_prefix_of(content),
        CompiledTriggerView::Contains(part) => is_substring(part, content),
        CompiledTriggerView::Regex(re) => regex_found(re, content),
        CompiledTriggerView::Mention => false,
    }
}

/// Whether a filter lets an author through: no filter and an empty user
/// list let everyone through; roles are not looked at.
pub open spec fn filter_allows(filter: Option<FilterView>, author: Seq<char>) -> bool {
    match filter {
        Some(f) => f.users.len() == 0 || f.users.contains(author),
        None => true,
    }
}

/// Whether a hook fires for a message: the message's channel is one of the
/// hook's, its content satisfies the trigger, and its author passes the
/// filter.
pub open spec fn fires(hook: CompiledHookView, message: VariablesView) -> bool {
    &&& hook.channels.contains(message.channel_id)
    &&& trigger_matches(hook.trigger, message.content)
    &&& filter_allows(hook.filter, message.author_id)
}

/// Something that a message can be matched against.
pub trait TriggerMatcher {
    /// Whether `message` matches.
    spec fn matches_spec(&self, message: VariablesView) -> bool;

    /// Decides whether `message` matches.
    fn matches(&self, message: &MessageVariables) -> (matched: bool)
        ensures
            matched == self.matches_spec(message@),
    ;
}

impl TriggerMatcher for CompiledTrigger {
    open spec fn matches_spec(&self, message: VariablesView) -> bool {
        trigger_matches(self@, message.content)
    }

    fn matches(&self, message: &MessageVariables) -> (matched: bool) {
        match self {
            CompiledTrigger::Any => true,
            CompiledTrigger::Prefix(prefix) => starts_with(
                message.content.as_str(),
                prefix.as_str(),
            ),
            CompiledTrigger::Contains(part) => contains(message.content.as_str(), part.as_str()),
            CompiledTrigger::Regex(re) => re.is_match(message.content.as_str()),
            CompiledTrigger::Mention => false,
        }
    }
}

/// Whether the message's author passes the filter.
pub fn matches_filter(message: &MessageVariables, filter: &Option<FilterConfig>) -> (allowed: bool)
    ensures
        allowed == filter_allows(filter_view(*filter), message@.author_id),
{
    match filter {
        Some(f) => {
            if f.users.len() > 0 {
                if !list_contains(f.users.as_slice(), message.author_id.as_str()) {
                    return false;
                }
            }
            true
        },
        None => true,
    }
}

/// Whether the message arrived on one of `channels`.
pub fn matches_channels(message: &MessageVariables, channels: &[String]) -> (listed: bool)
    ensures
        listed == views(channels@).contains(message@.channel_id),
{
    list_contains(channels, message.channel_id.as_str())
}

/// Whether `hook` fires for `message`. A message on a channel that the hook
/// does not list never fires it, whatever its content and author.
pub fn should_trigger(hook: &CompiledHookConfig, message: &MessageVariables) -> (fire: bool)
    ensures
        fire == fires(hook@, message@),
        !hook@.channels.contains(message@.channel_id) ==> !fire,
{
    if !matches_channels(message, hook.channels.as_slice()) {
        return false;
    }
    if !hook.trigger.matches(message) {
        return false;
    }
    if !matches_filter(message, &hook.filter) {
        return false;
    }
    true
}

} // verus!
