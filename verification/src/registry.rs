//! The session registry: which process lives under which session identifier.
//!
//! The registry holds at most one process per identifier. It never starts or
//! ends a process itself: it says when one is to be started, takes it in, and
//! hands it back when it is to be ended. `H` is the handle of a process.

use vstd::prelude::*;
use vstd::string::*;

verus! {

/// The processes of a registry and their identifiers, side by side.
struct Table<H> {
    ids: Vec<String>,
    handles: Vec<H>,
}

/// The table of live processes, keyed by session identifier.
pub struct SessionRegistry<H> {
    table: Table<H>,
}

/// The identifiers of a registry as texts.
pub open spec fn id_texts(ids: Seq<String>) -> Seq<Seq<char>> {
    Seq::new(ids.len(), |i: int| ids[i]@)
}

/// The message for a command that is no longer registered when it completes.
pub open spec fn not_found_message() -> Seq<char> {
    "Process not found"@
}

/// The table after `process` was offered under `id`: a session that exists
/// keeps its process.
pub open spec fn attached<H>(table: Map<Seq<char>, H>, id: Seq<char>, process: H) -> Map<
    Seq<char>,
    H,
> {
    if table.contains_key(id) {
        table
    } else {
        table.insert(id, process)
    }
}

/// What the completion of the command under `id` finds: its process, or the
/// message that there is none.
pub open spec fn completion<H>(table: Map<Seq<char>, H>, id: Seq<char>) -> Result<H, Seq<char>> {
    if table.contains_key(id) {
        Ok(table[id])
    } else {
        Err(not_found_message())
    }
}

/// Creating a session twice under one identifier leaves exactly what creating
/// it once leaves: the identifier is a key of the table, and its process is
/// the one that the first creation brought, unless the session was there
/// before.
pub proof fn create_is_idempotent<H>(table: Map<Seq<char>, H>, id: Seq<char>, first: H, second: H)
    ensures
        attached(attached(table, id, first), id, second) == attached(table, id, first),
        attached(table, id, first).contains_key(id),
        !table.contains_key(id) ==> attached(attached(table, id, first), id, second)[id] == first,
{
}

/// Creating a session touches no other session.
pub proof fn create_keeps_other_sessions<H>(
    table: Map<Seq<char>, H>,
    id: Seq<char>,
    process: H,
    other: Seq<char>,
)
    requires
        other != id,
    ensures
        attached(table, id, process).contains_key(other) == table.contains_key(other),
        table.contains_key(other) ==> attached(table, id, process)[other] == table[other],
{
}

/// A command that was stopped is not found when it completes.
pub proof fn stopped_command_is_not_found<H>(table: Map<Seq<char>, H>, id: Seq<char>)
    ensures
        completion(table.remove(id), id) == Err::<H, Seq<char>>(not_found_message()),
{
}

/// A command that is registered and was not stopped completes with the
/// process that was registered last under its identifier.
pub proof fn registered_command_completes<H>(table: Map<Seq<char>, H>, id: Seq<char>, child: H)
    ensures
        completion(table.insert(id, child), id) == Ok::<H, Seq<char>>(child),
{
}

impl<H> Table<H> {
    /// No identifier occurs twice, and every identifier has its process.
    spec fn wf(&self) -> bool {
        &&& self.ids.len() == self.handles.len()
        &&& id_texts(self.ids@).no_duplicates()
    }

    /// The position of `id` among the identifiers.
    spec fn position(&self, id: Seq<char>) -> int {
        choose|i: int| 0 <= i < self.ids.len() && self.ids[i]@ == id
    }

    /// Whether `id` is among the identifiers.
    spec fn holds(&self, id: Seq<char>) -> bool {
        exists|i: int| 0 <= i < self.ids.len() && self.ids[i]@ == id
    }

    /// The number of processes.
    spec fn count(&self) -> nat {
        self.ids.len() as nat
    }

    /// The table as a map from identifiers to processes.
    spec fn map(&self) -> Map<Seq<char>, H> {
        Map::new(|k: Seq<char>| self.holds(k), |k: Seq<char>| self.handles[self.position(k)])
    }

    /// A table without processes.
    fn new() -> (r: Table<H>)
        ensures
            r.wf(),
            r.map() == Map::<Seq<char>, H>::empty(),
            r.count() == 0,
    {
        let r = Table { ids: Vec::new(), handles: Vec::new() };
        proof {
            assert(r.map() =~= Map::<Seq<char>, H>::empty());
        }
        r
    }

    /// Where `id` stands among the identifiers, if it does.
    fn find(&self, id: &str) -> (r: Option<usize>)
        requires
            self.wf(),
        ensures
            match r {
                Some(i) => i < self.ids.len() && self.ids[i as int]@ == id@ && self.holds(id@)
                    && self.position(id@) == i,
                None => !self.holds(id@),
            },
    {
        let wanted = id.to_owned();
        let mut i: usize = 0;
        while i < self.ids.len()
            invariant
                i <= self.ids.len(),
                self.wf(),
                wanted@ == id@,
                forall|j: int| 0 <= j < i ==> self.ids[j]@ != id@,
            decreases self.ids.len() - i,
        {
            if self.ids[i] == wanted {
                proof {
                    assert(self.ids[i as int]@ == id@);
                    assert(self.holds(id@));
                    let p = self.position(id@);
                    assert(id_texts(self.ids@)[p] == id_texts(self.ids@)[i as int]);
                }
                return Some(i);
            }
            i += 1;
        }
        None
    }

    /// Puts `process` under `id`. A process that lived there is displaced and
    /// handed back.
    fn insert(&mut self, id: String, process: H) -> (displaced: Option<H>)
        requires
            old(self).wf(),
        ensures
            final(self).wf(),
            final(self).map() == old(self).map().insert(id@, process),
            displaced == (if old(self).map().contains_key(id@) {
                Some(old(self).map()[id@])
            } else {
                None
            }),
            final(self).count() == old(self).count() + (if old(self).map().contains_key(id@) {
                0nat
            } else {
                1nat
            }),
    {
        let ghost before = *self;
        match self.find(id.as_str()) {
            Some(i) => {
                self.handles.push(process);
                let displaced = self.handles.swap_remove(i);
                proof {
                    assert(self.ids@ == before.ids@);
                    assert forall|k: Seq<char>| #[trigger]
                        self.map().contains_key(k) == before.map().insert(id@, process).contains_key(k) by {
                        if before.holds(k) {
                            assert(self.holds(k));
                        }
                    }
                    assert forall|k: Seq<char>| #[trigger] self.map().contains_key(k) implies self.map()[k]
                        == before.map().insert(id@, process)[k] by {
                        let p = self.position(k);
                        assert(p == before.position(k));
                        if k == id@ {
                            assert(p == i);
                        } else {
                            assert(p != i);
                        }
                    }
                    assert(self.map() =~= before.map().insert(id@, process));
                }
                Some(displaced)
            },
            None => {
                proof {
                    let texts = id_texts(before.ids@).push(id@);
                    assert(id_texts(before.ids@.push(id)) =~= texts);
                    assert forall|a: int, b: int|
                        0 <= a < texts.len() && 0 <= b < texts.len() && a != b implies texts[a]
                        != texts[b] by {
                        if a < before.ids.len() {
                            assert(texts[a] == before.ids[a]@);
                        }
                        if b < before.ids.len() {
                            assert(texts[b] == before.ids[b]@);
                        }
                        if a < before.ids.len() && b < before.ids.len() {
                            assert(id_texts(before.ids@)[a] != id_texts(before.ids@)[b]);
                        }
                    }
                }
                self.ids.push(id);
                self.handles.push(process);
                proof {
                    let n = before.ids.len() as int;
                    assert(self.ids[n]@ == id@);
                    assert forall|k: Seq<char>| #[trigger]
                        self.map().contains_key(k) == before.map().insert(id@, process).contains_key(k) by {
                        if before.holds(k) {
                            let p = before.position(k);
                            assert(self.ids[p]@ == k);
                        }
                        if k == id@ {
                            assert(self.holds(k));
                        }
                    }
                    assert forall|k: Seq<char>| #[trigger] self.map().contains_key(k) implies self.map()[k]
                        == before.map().insert(id@, process)[k] by {
                        let p = self.position(k);
                        if k == id@ {
                            assert(id_texts(self.ids@)[p] == id_texts(self.ids@)[n]);
                        } else {
                            let q = before.position(k);
                            assert(id_texts(self.ids@)[p] == id_texts(self.ids@)[q]);
                        }
                    }
                    assert(self.map() =~= before.map().insert(id@, process));
                }
                None
            },
        }
    }

    /// Takes out the process that lives under `id`, if there is one.
    fn remove(&mut self, id: &str) -> (removed: Option<H>)
        requires
            old(self).wf(),
        ensures
            final(self).wf(),
            final(self).map() == old(self).map().remove(id@),
            removed == (if old(self).map().contains_key(id@) {
                Some(old(self).map()[id@])
            } else {
                None
            }),
            final(self).count() == old(self).count() - (if old(self).map().contains_key(id@) {
                1int
            } else {
                0int
            }),
    {
        let ghost before = *self;
        match self.find(id) {
            None => {
                proof {
                    assert(self.map() =~= before.map().remove(id@));
                }
                None
            },
            Some(i) => {
                proof {
                    let texts = id_texts(before.ids@);
                    let after = texts.remove(i as int);
                    assert(id_texts(before.ids@.remove(i as int)) =~= after);
                    assert forall|a: int, b: int|
                        0 <= a < after.len() && 0 <= b < after.len() && a != b implies after[a]
                        != after[b] by {
                        let a0 = if a < i { a } else { a + 1 };
                        let b0 = if b < i { b } else { b + 1 };
                        assert(after[a] == texts[a0]);
                        assert(after[b] == texts[b0]);
                    }
                }
                let _ = self.ids.remove(i);
                let removed = self.handles.remove(i);
                proof {
                    let texts = id_texts(before.ids@);
                    assert forall|k: Seq<char>| #[trigger]
                        self.map().contains_key(k) == before.map().remove(id@).contains_key(k) by {
                        if self.holds(k) {
                            let p = self.position(k);
                            let p0 = if p < i { p } else { p + 1 };
                            assert(before.ids[p0]@ == k);
                            assert(texts[p0] == k);
                            assert(texts[i as int] == id@);
                        }
                        if before.holds(k) && k != id@ {
                            let q = before.position(k);
                            let q1 = if q < i { q } else { q - 1 };
                            assert(self.ids[q1]@ == k);
                        }
                    }
                    assert forall|k: Seq<char>| #[trigger] self.map().contains_key(k) implies self.map()[k]
                        == before.map().remove(id@)[k] by {
                        let p = self.position(k);
                        let p0 = if p < i { p } else { p + 1 };
                        let q = before.position(k);
                        assert(before.ids[p0]@ == k);
                        assert(texts[p0] == texts[q]);
                    }
                    assert(self.map() =~= before.map().remove(id@));
                }
                Some(removed)
            },
        }
    }
}

impl<H> View for SessionRegistry<H> {
    type V = Map<Seq<char>, H>;

    closed spec fn view(&self) -> Map<Seq<char>, H> {
        self.table.map()
    }
}

impl<H> SessionRegistry<H> {
    #[verifier::type_invariant]
    spec fn well_formed(&self) -> bool {
        self.table.wf()
    }

    /// The number of live processes.
    pub closed spec fn count(&self) -> nat {
        self.table.count()
    }

    /// A registry without sessions.
    pub fn new() -> (r: SessionRegistry<H>)
        ensures
            r@ == Map::<Seq<char>, H>::empty(),
            r.count() == 0,
    {
        SessionRegistry { table: Table::new() }
    }

    /// The number of live processes.
    pub fn len(&self) -> (n: usize)
        ensures
            n == self.count(),
    {
        self.table.ids.len()
    }

    /// Whether a process lives under `id`.
    pub fn contains(&self, id: &str) -> (b: bool)
        ensures
            b == self@.contains_key(id@),
    {
        proof {
            use_type_invariant(self);
        }
        self.table.find(id).is_some()
    }

    /// The process that lives under `id`, if there is one.
    pub fn get(&self, id: &str) -> (process: Option<&H>)
        ensures
            process == (if self@.contains_key(id@) {
                Some(&self@[id@])
            } else {
                None
            }),
    {
        proof {
            use_type_invariant(self);
        }
        match self.table.find(id) {
            Some(i) => Some(&self.table.handles[i]),
            None => None,
        }
    }

    /// Puts `process` under `id`. A process that lived there is displaced and
    /// handed back.
    pub fn insert(&mut self, id: String, process: H) -> (displaced: Option<H>)
        ensures
            final(self)@ == old(self)@.insert(id@, process),
            displaced == (if old(self)@.contains_key(id@) {
                Some(old(self)@[id@])
            } else {
                None
            }),
            final(self).count() == old(self).count() + (if old(self)@.contains_key(id@) {
                0nat
            } else {
                1nat
            }),
    {
        proof {
            use_type_invariant(&*self);
        }
        let mut table = Table::new();
        core::mem::swap(&mut self.table, &mut table);
        let displaced = table.insert(id, process);
        core::mem::swap(&mut self.table, &mut table);
        displaced
    }

    /// Takes out the process that lives under `id`, if there is one.
    pub fn remove(&mut self, id: &str) -> (removed: Option<H>)
        ensures
            final(self)@ == old(self)@.remove(id@),
            removed == (if old(self)@.contains_key(id@) {
                Some(old(self)@[id@])
            } else {
                None
            }),
            final(self).count() == old(self).count() - (if old(self)@.contains_key(id@) {
                1int
            } else {
                0int
            }),
    {
        proof {
            use_type_invariant(&*self);
        }
        let mut table = Table::new();
        core::mem::swap(&mut self.table, &mut table);
        let removed = table.remove(id);
        core::mem::swap(&mut self.table, &mut table);
        removed
    }
}

/// What the creation of a session asks of the caller.
#[derive(Clone, Copy, Debug, PartialEq, Eq, Structural)]
pub enum CreateStep {
    /// The session exists: nothing is to be started.
    Reuse,
    /// There is no such session: a shell is to be started and attached.
    Spawn,
}

/// The first step of creating the session `id`: whether a shell is to be
/// started for it.
pub fn create_terminal<H>(sessions: &SessionRegistry<H>, id: &str) -> (step: CreateStep)
    ensures
        step == (if sessions@.contains_key(id@) {
            CreateStep::Reuse
        } else {
            CreateStep::Spawn
        }),
{
    if sessions.contains(id) {
        CreateStep::Reuse
    } else {
        CreateStep::Spawn
    }
}

/// The second step of creating the session `id`: takes in the shell that was
/// started for it. Where the session exists by now, the table stays as it is
/// and the shell is handed back to be ended.
pub fn attach_terminal<H>(sessions: &mut SessionRegistry<H>, id: String, process: H) -> (rejected:
    Option<H>)
    ensures
        final(sessions)@ == attached(old(sessions)@, id@, process),
        rejected == (if old(sessions)@.contains_key(id@) {
            Some(process)
        } else {
            None
        }),
        final(sessions).count() == old(sessions).count() + (if old(sessions)@.contains_key(id@) {
            0nat
        } else {
            1nat
        }),
{
    if sessions.contains(id.as_str()) {
        Some(process)
    } else {
        let _ = sessions.insert(id, process);
        None
    }
}

/// Closes the session `id`: forgets it and hands out its process to be
/// ended. Nothing happens where there is no such session.
pub fn close_terminal<H>(sessions: &mut SessionRegistry<H>, id: &str) -> (process: Option<H>)
    ensures
        final(sessions)@ == old(sessions)@.remove(id@),
        process == (if old(sessions)@.contains_key(id@) {
            Some(old(sessions)@[id@])
        } else {
            None
        }),
{
    sessions.remove(id)
}

/// Registers the process of a streamed command under `id`, so that it can be
/// stopped. A process that was registered under `id` before is displaced
/// and handed back.
pub fn register_command<H>(running: &mut SessionRegistry<H>, id: String, child: H) -> (displaced:
    Option<H>)
    ensures
        final(running)@ == old(running)@.insert(id@, child),
        displaced == (if old(running)@.contains_key(id@) {
            Some(old(running)@[id@])
        } else {
            None
        }),
{
    running.insert(id, child)
}

/// Stops the command that runs under `id`: forgets it and hands out its
/// process to be ended. Nothing happens where none runs.
pub fn stop_command<H>(running: &mut SessionRegistry<H>, id: &str) -> (child: Option<H>)
    ensures
        final(running)@ == old(running)@.remove(id@),
        child == (if old(running)@.contains_key(id@) {
            Some(old(running)@[id@])
        } else {
            None
        }),
{
    running.remove(id)
}

/// Completes the command that runs under `id`: forgets it and hands out its
/// process to be waited for. A command that is no longer registered, because
/// it was stopped, is reported as not found.
pub fn complete_command<H>(running: &mut SessionRegistry<H>, id: &str) -> (r: Result<H, String>)
    ensures
        final(running)@ == old(running)@.remove(id@),
        completion(old(running)@, id@) == (match r {
            Ok(child) => Ok(child),
            Err(message) => Err(message@),
        }),
{
    match running.remove(id) {
        Some(child) => Ok(child),
        None => Err(String::from_str("Process not found")),
    }
}

} // verus!
