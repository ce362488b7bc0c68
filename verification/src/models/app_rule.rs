//! Per-application routing rules.
use vstd::prelude::*;
use crate::text::{
    chars_of, concat, ends_with, ends_with_exec, eq_ignore_ascii_case, eq_ignore_case, str_to_string,
    to_lowercase, unicode_lowercase,
};

verus! {

/// Where traffic of a matched application is sent.
#[derive(Debug, Clone, Copy, PartialEq, Eq, Structural)]
pub enum RouteDestination {
    Direct,
    SecondaryProxy,
    Aether,
}

impl Default for RouteDestination {
    /// Unassigned traffic goes through Aether.
    fn default() -> (r: Self)
        ensures
            r == RouteDestination::Aether,
    {
        RouteDestination::Aether
    }
}

/// Whether a rule was seeded as a preset or created by the user.
#[derive(Debug, Clone, Copy, PartialEq, Eq, Structural)]
pub enum RuleSource {
    Preset,
    User,
}

impl Default for RuleSource {
    /// Rules are user rules unless stated otherwise.
    fn default() -> (r: Self)
        ensures
            r == RuleSource::User,
    {
        RuleSource::User
    }
}

/// Normal rules yield to the global compatibility fallback; high rules precede it.
#[derive(Debug, Clone, Copy, PartialEq, Eq, Structural)]
pub enum RulePriority {
    Normal,
    High,
}

impl Default for RulePriority {
    /// Rules have normal priority unless promoted.
    fn default() -> (r: Self)
        ensures
            r == RulePriority::Normal,
    {
        RulePriority::Normal
    }
}

/// A routing rule for one executable.
#[derive(Debug, Clone)]
pub struct ApplicationRule {
    pub id: String,
    pub display_name: String,
    pub executable_path: Option<String>,
    pub process_name: String,
    pub destination: RouteDestination,
    pub enabled: bool,
    pub source: RuleSource,
    pub priority: RulePriority,
    pub icon_base64: Option<String>,
}

/// The process name stored for a rule: the given name, with `.exe` appended unless its
/// lower-case form already ends with `.exe`.
pub open spec fn normalized_process_name(p: Seq<char>) -> Seq<char> {
    if ends_with(unicode_lowercase(p), ".exe"@) {
        p
    } else {
        p + ".exe"@
    }
}

/// `uuid::Uuid::new_v4().to_string()`: a fresh random identifier. Its value comes from a
/// random number generator; every outcome is a UUID in the 36-character hyphenated form.
#[verifier::external_body]
fn new_random_id() -> (r: String)
    ensures
        r@.len() == 36,
{
    uuid::Uuid::new_v4().to_string()
}

impl ApplicationRule {
    /// Creates an enabled rule with a fresh identifier and a normalized process name.
    pub fn new(
        display_name: &str,
        process_name: &str,
        destination: RouteDestination,
        executable_path: Option<String>,
        source: RuleSource,
        priority: RulePriority,
        icon_base64: Option<String>,
    ) -> (r: Self)
        ensures
            r.display_name@ == display_name@,
            r.process_name@ == normalized_process_name(process_name@),
            r.executable_path == executable_path,
            r.destination == destination,
            r.enabled,
            r.source == source,
            r.priority == priority,
            r.icon_base64 == icon_base64,
            r.id@.len() == 36,
    {
        let lower = to_lowercase(process_name);
        let lower_chars = chars_of(lower.as_str());
        let exe = chars_of(".exe");
        let normalized = if ends_with_exec(&lower_chars, &exe) {
            str_to_string(process_name)
        } else {
            concat(process_name, ".exe")
        };
        ApplicationRule {
            id: new_random_id(),
            display_name: str_to_string(display_name),
            executable_path,
            process_name: normalized,
            destination,
            enabled: true,
            source,
            priority,
            icon_base64,
        }
    }

    /// Normal-priority preset rule.
    pub fn preset(display_name: &str, process_name: &str, destination: RouteDestination) -> (r:
        Self)
        ensures
            r.display_name@ == display_name@,
            r.process_name@ == normalized_process_name(process_name@),
            r.executable_path is None,
            r.destination == destination,
            r.enabled,
            r.source == RuleSource::Preset,
            r.priority == RulePriority::Normal,
            r.icon_base64 is None,
            r.id@.len() == 36,
    {
        Self::new(
            display_name,
            process_name,
            destination,
            None,
            RuleSource::Preset,
            RulePriority::Normal,
            None,
        )
    }

    /// High-priority preset rule (overrides the global compatibility fallback).
    pub fn preset_high(display_name: &str, process_name: &str, destination: RouteDestination) -> (r:
        Self)
        ensures
            r.display_name@ == display_name@,
            r.process_name@ == normalized_process_name(process_name@),
            r.executable_path is None,
            r.destination == destination,
            r.enabled,
            r.source == RuleSource::Preset,
            r.priority == RulePriority::High,
            r.icon_base64 is None,
            r.id@.len() == 36,
    {
        Self::new(
            display_name,
            process_name,
            destination,
            None,
            RuleSource::Preset,
            RulePriority::High,
            None,
        )
    }

    /// The rule matches a process name, ignoring ASCII case.
    pub fn matches_process(&self, query_proc: &str) -> (r: bool)
        ensures
            r == eq_ignore_ascii_case(self.process_name@, query_proc@),
    {
        eq_ignore_case(self.process_name.as_str(), query_proc)
    }
}

} // verus!
