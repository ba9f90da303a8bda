//! The event filter: combines classification and the exclusion rule into
//! the trigger decision.

use vstd::prelude::*;

use crate::event::{classify_spec, classified_path, ChangeEvent, RawNotification};
use crate::matcher::CompiledMatcher;

verus! {

/// The trigger decision: a notification triggers the command exactly when
/// the classifier keeps it and its reported path — the new name, for a
/// rename — is not excluded.
pub open spec fn triggers(n: RawNotification, matcher: CompiledMatcher) -> bool {
    &&& classify_spec(n) is Some
    &&& !matcher.excludes(classified_path(n))
}

/// Decide whether an already-classified event triggers the command.
///
/// Exclusion is checked against the event's `path` field only — for a
/// rename, the new name — never against `origin_path`.
pub fn should_trigger(event: &ChangeEvent, matcher: &CompiledMatcher) -> (r: bool)
    ensures
        r == !matcher.excludes(event.path@),
{
    !matcher.matches(event.path.as_str())
}

/// Decide, from the raw notification, whether the command should run:
/// classification and exclusion in one step.
pub fn should_run_command(n: &RawNotification, matcher: &CompiledMatcher) -> (r: bool)
    ensures
        r == triggers(*n, *matcher),
{
    match n {
        RawNotification::NoticeWrite(path) => !matcher.matches(path.as_str()),
        RawNotification::Write(path) => !matcher.matches(path.as_str()),
        RawNotification::Chmod(path) => !matcher.matches(path.as_str()),
        RawNotification::Create(path) => !matcher.matches(path.as_str()),
        RawNotification::NoticeRemove(path) => !matcher.matches(path.as_str()),
        RawNotification::Remove(path) => !matcher.matches(path.as_str()),
        RawNotification::Rename(_, path) => !matcher.matches(path.as_str()),
        _ => false,
    }
}

/// A notification outside the classified set never triggers, whatever the
/// exclusion configuration.
pub proof fn lemma_unclassified_never_triggers(n: RawNotification, matcher: CompiledMatcher)
    requires
        classify_spec(n) is None,
    ensures
        !triggers(n, matcher),
{
}

/// Exclusion asymmetry for renames: only the destination path is
/// consulted.  Two renames with the same new name trigger alike whatever
/// their prior names, and a rename triggers exactly when its new name is
/// not excluded — a rename out of an excluded name is kept, a rename into
/// an excluded name is suppressed.
pub proof fn lemma_rename_checks_destination_only(
    origin_a: String,
    origin_b: String,
    path: String,
    matcher: CompiledMatcher,
)
    ensures
        triggers(RawNotification::Rename(origin_a, path), matcher) == !matcher.excludes(path@),
        triggers(RawNotification::Rename(origin_a, path), matcher) == triggers(
            RawNotification::Rename(origin_b, path),
            matcher,
        ),
{
}

/// With no exclusion pattern configured, every classified notification
/// triggers.
pub proof fn lemma_no_rule_triggers_all(n: RawNotification, matcher: CompiledMatcher)
    requires
        matcher.pattern_view() is None,
        classify_spec(n) is Some,
    ensures
        triggers(n, matcher),
{
}

} // verus!
