//! The explicit window-class registry.
//!
//! Each control kind registers a native window class once per process
//! instance; repeated attempts are benign.  The registry is an explicit
//! object owned by the application root — no hidden process-wide singleton
//! — keyed by the instance handle's value and the class.  The host performs
//! the native registration exactly when the registry says the class is new.

use vstd::prelude::*;

use crate::error::Error;

verus! {

/// The window classes the library's controls register.
#[derive(Clone, Copy, Debug, PartialEq, Eq, Structural)]
pub enum ComponentClass {
    Button,
    ToggleButton,
    TabBar,
    Window,
}

/// Outcome of [`ComponentRegistry::register_once`].
#[derive(Clone, Copy, Debug, PartialEq, Eq, Structural)]
pub enum RegisterOutcome {
    /// The class was new for this instance; the host must now perform the
    /// native registration.
    Registered,
    /// The class was registered before; nothing to do.
    AlreadyRegistered,
}

/// A record of which (instance, class) pairs were registered.
pub struct ComponentRegistry {
    entries: Vec<(isize, ComponentClass)>,
}

impl ComponentRegistry {
    /// Whether the class was recorded for the instance.
    pub closed spec fn spec_contains(self, instance: isize, class: ComponentClass) -> bool {
        exists|i: int|
            0 <= i < self.entries@.len() && self.entries@[i] == (instance, class)
    }

    /// An empty registry.
    pub fn new() -> (r: ComponentRegistry)
        ensures
            forall|h: isize, c: ComponentClass| !r.spec_contains(h, c),
    {
        ComponentRegistry { entries: Vec::new() }
    }

    /// Linear search for the pair.
    fn contains_entry(&self, instance: isize, class: ComponentClass) -> (found: bool)
        ensures
            found == self.spec_contains(instance, class),
    {
        let mut i: usize = 0;
        while i < self.entries.len()
            invariant
                i <= self.entries@.len(),
                forall|j: int| 0 <= j < i ==> self.entries@[j] != (instance, class),
            decreases self.entries@.len() - i,
        {
            let e = self.entries[i];
            if e.0 == instance && e.1 == class {
                proof {
                    assert(self.entries@[i as int] == (instance, class));
                }
                return true;
            }
            i += 1;
        }
        proof {
            if self.spec_contains(instance, class) {
                let k = choose|k: int|
                    0 <= k < self.entries@.len() && self.entries@[k] == (instance, class);
                assert(false);
            }
        }
        false
    }

    /// Records the class for the instance.  Succeeds exactly when the pair
    /// is new; a pair recorded before comes back as
    /// [`Error::ComponentAlreadyRegistered`] and leaves the registry as it
    /// was.
    pub fn set_registered(&mut self, instance: isize, class: ComponentClass) -> (r: Result<
        (),
        Error,
    >)
        ensures
            r is Ok <==> !old(self).spec_contains(instance, class),
            r is Err ==> *final(self) == *old(self) && r == Result::<(), Error>::Err(
                Error::ComponentAlreadyRegistered,
            ),
            forall|h: isize, c: ComponentClass| #![auto]
                final(self).spec_contains(h, c) <==> (old(self).spec_contains(h, c) || (h
                    == instance && c == class)),
    {
        if self.contains_entry(instance, class) {
            return Err(Error::ComponentAlreadyRegistered);
        }
        let ghost pre = self.entries@;
        self.entries.push((instance, class));
        proof {
            assert forall|h: isize, c: ComponentClass| #![auto]
                self.spec_contains(h, c) <==> (old(self).spec_contains(h, c) || (h == instance && c
                    == class)) by {
                if old(self).spec_contains(h, c) {
                    let k = choose|k: int| 0 <= k < pre.len() && pre[k] == (h, c);
                    assert(self.entries@[k] == (h, c));
                }
                if h == instance && c == class {
                    assert(self.entries@[pre.len() as int] == (h, c));
                }
                if self.spec_contains(h, c) {
                    let k = choose|k: int|
                        0 <= k < self.entries@.len() && self.entries@[k] == (h, c);
                    if k < pre.len() {
                        assert(pre[k] == (h, c));
                    } else {
                        assert(self.entries@[k] == (instance, class));
                    }
                }
            }
        }
        Ok(())
    }

    /// Records the class unless it was recorded before; either way the pair
    /// is recorded afterwards.  The host performs the native class
    /// registration exactly on [`RegisterOutcome::Registered`].
    pub fn register_once(&mut self, instance: isize, class: ComponentClass) -> (r: RegisterOutcome)
        ensures
            r == RegisterOutcome::Registered <==> !old(self).spec_contains(instance, class),
            final(self).spec_contains(instance, class),
            forall|h: isize, c: ComponentClass| #![auto]
                final(self).spec_contains(h, c) <==> (old(self).spec_contains(h, c) || (h
                    == instance && c == class)),
    {
        match self.set_registered(instance, class) {
            Ok(_) => RegisterOutcome::Registered,
            Err(_) => RegisterOutcome::AlreadyRegistered,
        }
    }
}

} // verus!
