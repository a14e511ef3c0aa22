//! The module rule that registers the transform with the pipeline.

use crate::invoker::NextServerActions;
use crate::target::ActionsTransform;
use vstd::prelude::*;

verus! {

/// The files a rule applies to. The predicate itself belongs to the
/// pipeline; a rule names the one it asks for.
#[derive(Clone, Copy, Debug, PartialEq, Eq, Structural)]
pub enum FileSelector {
    /// Modules that hold script source and are not referred to by URL.
    JsNoUrl,
}

/// A rule of the pipeline: the files it selects, and the transforms that run
/// on each selected file, in order.
#[derive(Debug, PartialEq, Eq)]
pub struct ModuleRule {
    selector: FileSelector,
    effects: Vec<NextServerActions>,
}

/// What a rule holds.
pub struct ModuleRuleView {
    /// The files the rule selects.
    pub selector: FileSelector,
    /// The transforms of the rule, in the order in which they run.
    pub effects: Seq<NextServerActions>,
}

impl View for ModuleRule {
    type V = ModuleRuleView;

    closed spec fn view(&self) -> ModuleRuleView {
        ModuleRuleView { selector: self.selector, effects: self.effects@ }
    }
}

impl ModuleRule {
    /// A rule that runs `effects`, in order, on the files of `selector`.
    pub fn new(selector: FileSelector, effects: Vec<NextServerActions>) -> (rule: Self)
        ensures
            rule@ == (ModuleRuleView { selector, effects: effects@ }),
    {
        ModuleRule { selector, effects }
    }

    /// The files the rule selects.
    pub fn selector(&self) -> (selector: FileSelector)
        ensures
            selector == self@.selector,
    {
        self.selector
    }

    /// The transforms of the rule, in the order in which they run.
    pub fn effects(&self) -> (effects: &Vec<NextServerActions>)
        ensures
            effects@ == self@.effects,
    {
        &self.effects
    }
}

/// The rule of the server-actions transform for `transform`: script modules
/// that are not referred to by URL, and one invoker, bound to `transform`.
pub open spec fn server_actions_rule(transform: ActionsTransform) -> ModuleRuleView {
    ModuleRuleView {
        selector: FileSelector::JsNoUrl,
        effects: seq![NextServerActions { transform }],
    }
}

/// Returns a rule which applies the server-actions transform for `transform`.
///
/// The rule depends on the target alone, so two rules built for one target
/// hold the same selector and the same invoker.
pub fn get_server_actions_transform_rule(transform: ActionsTransform) -> (rule: ModuleRule)
    ensures
        rule@ == server_actions_rule(transform),
{
    let transformer = NextServerActions::new(transform);
    let mut effects: Vec<NextServerActions> = Vec::new();
    effects.push(transformer);
    assert(effects@ =~= seq![NextServerActions { transform }]);
    ModuleRule::new(FileSelector::JsNoUrl, effects)
}

/// The rule for a target holds exactly one invoker, and that invoker starts
/// the engine enabled, and privileged exactly when the target is the server.
pub proof fn lemma_rule_privilege(transform: ActionsTransform)
    ensures
        server_actions_rule(transform).effects.len() == 1,
        server_actions_rule(transform).effects[0].transform == transform,
        server_actions_rule(transform).effects[0].config_spec().enabled,
        server_actions_rule(transform).effects[0].config_spec().is_react_server_layer == (
        transform == ActionsTransform::Server),
{
}

} // verus!
