//! A small object/component registry kept alongside the viewport: named
//! objects own numbered components, each with an activity status.
//!
//! Components are numbered from one in the order they are added, so the
//! registry's keys are always exactly `1..=n` — which is why adding a
//! component can never collide with an existing number.

use std::collections::HashMap;
use vstd::prelude::*;

verus! {

/// How a component takes part in event propagation: `Active` captures
/// and interacts, `Inactive` captures without interacting, `Disabled`
/// captures nothing.
#[derive(Clone, Copy, Debug, PartialEq, Eq, Structural)]
pub enum ComponentStatus {
    Active,
    Inactive,
    Disabled,
}

/// Failures of the registry.
#[derive(Clone, Debug, PartialEq, Eq)]
pub enum ComponentError {
    InvalidName(String),
    NameTaken(String),
    FailedToCreateComponent(String),
}

/// A named event carrying an arbitrary payload.
pub struct Event<T> {
    pub name: String,
    pub data: T,
}

/// One component: a name and an activity status.
#[derive(Debug)]
pub struct Component {
    pub name: String,
    pub status: ComponentStatus,
}

/// A named object owning its components, numbered from one in the order
/// they were added.
#[derive(Debug)]
pub struct Object {
    pub name: String,
    pub components: HashMap<usize, Box<Component>>,
}

impl ComponentStatus {
    /// Returns the status a caller asked to set. The stored status
    /// itself is left untouched; the caller decides what to do with the
    /// returned value.
    pub fn set(&mut self, new_status: ComponentStatus) -> (r: ComponentStatus)
        ensures
            *final (self) == *old(self),
            r == new_status,
    {
        match new_status {
            ComponentStatus::Active => ComponentStatus::Active,
            ComponentStatus::Inactive => ComponentStatus::Inactive,
            ComponentStatus::Disabled => ComponentStatus::Disabled,
        }
    }

    /// A copy of the status.
    pub fn get(&self) -> (r: ComponentStatus)
        ensures
            r == *self,
    {
        match self {
            ComponentStatus::Active => ComponentStatus::Active,
            ComponentStatus::Inactive => ComponentStatus::Inactive,
            ComponentStatus::Disabled => ComponentStatus::Disabled,
        }
    }

    /// Whether events reaching this component are interacted with.
    pub fn is_active(&self) -> (r: bool)
        ensures
            r == (*self is Active),
    {
        match self {
            ComponentStatus::Active => true,
            _ => false,
        }
    }
}

impl Component {
    /// A fresh component under the given name, active from the start.
    pub fn new(name: &str) -> (r: Component)
        ensures
            r.status is Active,
            r.name@ == name@,
    {
        Component { status: ComponentStatus::Active, name: name.to_string() }
    }

    /// Per-frame work of the component; none is defined yet, so the
    /// component is left exactly as it is.
    pub fn process(&mut self)
        ensures
            *final (self) == *old(self),
    {
    }

    /// Reaction to a propagated event; none is defined yet, so the
    /// component is left exactly as it is.
    pub fn on_event<T>(&mut self, event: &Event<T>)
        ensures
            *final (self) == *old(self),
    {
        let _ = event;
    }
}

impl Default for Object {
    /// An unnamed object with no components.
    fn default() -> (r: Object)
        ensures
            r.wf(),
            r.name@ == Seq::<char>::empty(),
            r.components@ == Map::<usize, Box<Component>>::empty(),
    {
        Object { name: String::new(), components: HashMap::new() }
    }
}

impl Object {
    /// The registry's numbering invariant: the component numbers are
    /// exactly `1..=n` for its current size `n`.
    pub open spec fn wf(self) -> bool {
        forall|k: usize|
            #[trigger] self.components@.dom().contains(k) <==> 1 <= k <= self.components@.len()
    }

    /// Registers a component under the next free number and returns that
    /// number. Numbers are handed out densely from one, so the insertion
    /// can never displace an existing component — the error branch is
    /// provably unreachable and the result is always `Ok`.
    pub fn add_component(&mut self, new_component: Component) -> (r: Result<usize, ComponentError>)
        requires
            old(self).wf(),
            old(self).components@.len() < usize::MAX,
        ensures
            final (self).wf(),
            final (self).name == old(self).name,
            r matches Ok(id),
            r matches Ok(id) ==> {
                &&& id == old(self).components@.len() + 1
                &&& final (self).components@.dom() == old(self).components@.dom().insert(id)
                &&& final (self).components@[id] == new_component
                &&& forall|k: usize|
                    k != id && old(self).components@.dom().contains(k)
                        ==> final (self).components@[k] == #[trigger] old(self).components@[k]
                &&& final (self).components@.len() == old(self).components@.len() + 1
            },
    {
        let id = self.components.len() + 1;
        let ghost old_map = self.components@;
        match self.components.insert(id, Box::new(new_component)) {
            None => {
                proof {
                    assert(self.components@.dom() =~= old_map.dom().insert(id));
                    vstd::set::axiom_set_insert_len(old_map.dom(), id);
                    assert(self.components@.len() == old_map.len() + 1);
                    assert forall|k: usize| #[trigger]
                        self.components@.dom().contains(k) implies 1 <= k
                        <= self.components@.len() by {
                        if k != id {
                            assert(old_map.dom().contains(k));
                        }
                    }
                    assert forall|k: usize|
                        1 <= k <= self.components@.len() implies #[trigger]
                        self.components@.dom().contains(k) by {
                        if k != id {
                            assert(old_map.dom().contains(k));
                        }
                    }
                }
                Ok(id)
            },
            Some(displaced) => {
                Err(ComponentError::FailedToCreateComponent(displaced.name))
            },
        }
    }

    /// Placeholder for a factory of components; nothing is created yet.
    pub fn create_component() {
    }

    /// How many components the object owns.
    pub fn component_count(&self) -> (r: usize)
        ensures
            r == self.components@.len(),
    {
        self.components.len()
    }

    /// Whether a component is registered under the given number.
    pub fn has_component(&self, id: usize) -> (r: bool)
        ensures
            r == self.components@.dom().contains(id),
    {
        self.components.contains_key(&id)
    }
}

} // verus!
