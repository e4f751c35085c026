use vstd::prelude::*;

verus! {

/// Which lifetime an entity belongs to: the whole program, or the running
/// game scene (freed when the scene ends).
#[derive(Debug, Clone, Copy, PartialEq, Eq, Structural)]
pub enum EntityScope {
    Global,
    Running,
}

/// An arena of engine-instance handles, one list per scope. Entities get
/// small one-based ids; a removed entity leaves a hole so that the ids of
/// the others stay valid.
#[derive(Debug)]
pub struct EntityManager {
    global: Vec<Option<u64>>,
    running: Vec<Option<u64>>,
}

impl EntityManager {
    /// The list of one scope: entry i holds the instance handle of the
    /// entity with id i + 1, or nothing once it was removed.
    pub closed spec fn spec_list(&self, scope: EntityScope) -> Seq<Option<u64>> {
        match scope {
            EntityScope::Global => self.global@,
            EntityScope::Running => self.running@,
        }
    }

    /// An arena with no entities in either scope.
    pub fn new() -> (r: EntityManager)
        ensures
            r.spec_list(EntityScope::Global).len() == 0,
            r.spec_list(EntityScope::Running).len() == 0,
    {
        EntityManager { global: Vec::new(), running: Vec::new() }
    }

    /// Files an instance handle under the given scope and hands back the
    /// entity id it is now known by (ids count from 1).
    pub fn register(&mut self, instance_id: u64, scope: EntityScope) -> (id: u64)
        ensures
            final(self).spec_list(scope) == old(self).spec_list(scope).push(
                Some(instance_id),
            ),
            id == final(self).spec_list(scope).len(),
            id >= 1,
            forall|other: EntityScope|
                other != scope ==> #[trigger] final(self).spec_list(other) == old(
                    self,
                ).spec_list(other),
    {
        match scope {
            EntityScope::Global => {
                self.global.push(Some(instance_id));
                self.global.len() as u64
            },
            EntityScope::Running => {
                self.running.push(Some(instance_id));
                self.running.len() as u64
            },
        }
    }

    /// The instance handle filed under an id, if the id is known in the
    /// scope and the entity was not removed.
    pub fn get(&self, id: u64, scope: EntityScope) -> (r: Option<u64>)
        ensures
            1 <= id <= self.spec_list(scope).len() ==> r == self.spec_list(scope)[id - 1],
            !(1 <= id <= self.spec_list(scope).len()) ==> r is None,
    {
        let list = match scope {
            EntityScope::Global => &self.global,
            EntityScope::Running => &self.running,
        };
        if id >= 1 && id <= list.len() as u64 {
            list[(id - 1) as usize]
        } else {
            None
        }
    }

    /// Takes the entity with the given id out of its scope, leaving a
    /// hole; an unknown or already removed id is reported instead.
    pub fn remove(&mut self, id: u64, scope: EntityScope) -> (r: Result<(), &'static str>)
        ensures
            1 <= id <= old(self).spec_list(scope).len() && old(self).spec_list(scope)[id - 1]
                is Some ==> r is Ok && final(self).spec_list(scope) == old(self).spec_list(
                scope,
            ).update(id - 1, None::<u64>),
            !(1 <= id <= old(self).spec_list(scope).len() && old(self).spec_list(scope)[id
                - 1] is Some) ==> r is Err && final(self).spec_list(scope) == old(
                self,
            ).spec_list(scope),
            forall|other: EntityScope|
                other != scope ==> #[trigger] final(self).spec_list(other) == old(
                    self,
                ).spec_list(other),
    {
        let list = match scope {
            EntityScope::Global => &mut self.global,
            EntityScope::Running => &mut self.running,
        };
        if id >= 1 && id <= list.len() as u64 {
            let idx = (id - 1) as usize;
            if list[idx].is_some() {
                list[idx] = None;
                Ok(())
            } else {
                Err("Attempted to remove Entity that is already set to None")
            }
        } else {
            Err("Attempted to remove Entity with an id that was never given out")
        }
    }

    /// Empties one scope; ids of the other scope stay valid.
    pub fn clear(&mut self, scope: EntityScope)
        ensures
            final(self).spec_list(scope).len() == 0,
            forall|other: EntityScope|
                other != scope ==> #[trigger] final(self).spec_list(other) == old(
                    self,
                ).spec_list(other),
    {
        match scope {
            EntityScope::Global => self.global.clear(),
            EntityScope::Running => self.running.clear(),
        }
    }
}

} // verus!
