//! Actions proposed by policies and mediated by the gateway.

use vstd::prelude::*;
use crate::json::{Json, copy_json};
use crate::verification::{copy_strings, strs};

verus! {

/// How far an action's effects reach.
#[derive(Clone, Copy, Debug, PartialEq, Eq, Structural)]
pub enum SideEffectClass {
    /// The action only reads.
    ReadOnly,
    /// The action changes something outside the runtime.
    External,
}

/// An action proposed for execution.
#[derive(Debug)]
pub struct Action {
    pub name: String,
    pub params: Json,
    pub side_effect_class: SideEffectClass,
    pub required_permissions: Vec<String>,
    pub preconditions: Vec<String>,
    pub postconditions: Vec<String>,
}

impl Action {
    /// Copies this action.
    pub fn duplicate(&self) -> (r: Action)
        ensures
            r.name@ == self.name@,
            crate::json::json_same(r.params, self.params),
            r.side_effect_class == self.side_effect_class,
            strs(r.required_permissions@) == strs(self.required_permissions@),
            strs(r.preconditions@) == strs(self.preconditions@),
            strs(r.postconditions@) == strs(self.postconditions@),
    {
        Action {
            name: self.name.clone(),
            params: copy_json(&self.params),
            side_effect_class: self.side_effect_class,
            required_permissions: copy_strings(&self.required_permissions),
            preconditions: copy_strings(&self.preconditions),
            postconditions: copy_strings(&self.postconditions),
        }
    }
}

impl Clone for Action {
    fn clone(&self) -> (r: Self)
        ensures
            r.name@ == self.name@,
            crate::json::json_same(r.params, self.params),
            r.side_effect_class == self.side_effect_class,
            strs(r.required_permissions@) == strs(self.required_permissions@),
            strs(r.preconditions@) == strs(self.preconditions@),
            strs(r.postconditions@) == strs(self.postconditions@),
    {
        self.duplicate()
    }
}

} // verus!
