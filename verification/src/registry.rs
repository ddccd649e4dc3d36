use vstd::prelude::*;
use crate::idgen::fresh_uuid;
use crate::workflow::{Status, Workflow, WorkflowView, PROGRESS_SCALE};

verus! {

/// Why a registry operation failed. Every internal fault is surfaced
/// through this channel rather than aborting the invocation.
#[derive(Clone, Copy, Debug, PartialEq, Eq, Structural)]
pub enum RegistryError {
    /// The identifier chosen for a new workflow is already taken.
    DuplicateId,
    /// No workflow with the given identifier is registered.
    NotFound,
}

impl RegistryError {
    pub open spec fn message_spec(self) -> Seq<char> {
        match self {
            RegistryError::DuplicateId => "workflow id is already taken"@,
            RegistryError::NotFound => "workflow not found"@,
        }
    }

    /// The error as the plain message handed to the front end.
    pub fn message(&self) -> (r: String)
        ensures
            r@ == self.message_spec(),
    {
        match self {
            RegistryError::DuplicateId => "workflow id is already taken".to_owned(),
            RegistryError::NotFound => "workflow not found".to_owned(),
        }
    }
}

/// The authoritative in-memory mapping from workflow identifier to
/// workflow record. Identifiers are unique for the life of the registry.
pub struct Registry {
    entries: Vec<Workflow>,
}

impl Registry {
    /// How many workflows are registered.
    pub closed spec fn len_spec(self) -> nat {
        self.entries@.len()
    }

    /// Whether some registered workflow carries this identifier.
    pub closed spec fn contains_id(self, id: Seq<char>) -> bool {
        exists|i: int| 0 <= i < self.entries@.len() && self.entries@[i]@.id == id
    }

    /// Whether some registered identifier has exactly this length. Only
    /// such an identifier can collide with a freshly drawn one.
    pub closed spec fn has_id_of_len(self, n: nat) -> bool {
        exists|i: int| 0 <= i < self.entries@.len() && self.entries@[i]@.id.len() == n
    }

    spec fn index_of(self, id: Seq<char>) -> int {
        choose|i: int| 0 <= i < self.entries@.len() && self.entries@[i]@.id == id
    }

    /// The record registered under this identifier, if any.
    pub closed spec fn spec_get(self, id: Seq<char>) -> Option<WorkflowView> {
        if self.contains_id(id) {
            Some(self.entries@[self.index_of(id)]@)
        } else {
            None
        }
    }

    /// Identifiers are unique and every record is well formed.
    pub closed spec fn wf(self) -> bool {
        &&& forall|i: int, j: int|
            0 <= i < j < self.entries@.len() ==> (#[trigger] self.entries@[i]@.id) != (
            #[trigger] self.entries@[j]@.id)
        &&& forall|i: int|
            0 <= i < self.entries@.len() ==> (#[trigger] self.entries@[i]@).valid()
    }

    /// In a well-formed registry, the record at any index is exactly what
    /// lookup by its identifier yields.
    proof fn lemma_get_at(self, i: int)
        requires
            self.wf(),
            0 <= i < self.entries@.len(),
        ensures
            self.contains_id(self.entries@[i]@.id),
            self.spec_get(self.entries@[i]@.id) == Some(self.entries@[i]@),
    {
        assert(self.contains_id(self.entries@[i]@.id));
        let j = self.index_of(self.entries@[i]@.id);
        assert(0 <= j < self.entries@.len() && self.entries@[j]@.id == self.entries@[i]@.id);
        if i != j {
            assert(false);
        }
    }

    /// An empty registry.
    pub fn new() -> (r: Registry)
        ensures
            r.wf(),
            r.len_spec() == 0,
            forall|id: Seq<char>| !r.contains_id(id),
    {
        Registry { entries: Vec::new() }
    }

    /// How many workflows are registered.
    pub fn len(&self) -> (r: usize)
        ensures
            r == self.len_spec(),
    {
        self.entries.len()
    }

    /// The position of the record with this identifier, if any.
    fn find_index(&self, id: &String) -> (r: Option<usize>)
        ensures
            match r {
                Some(i) => i < self.entries@.len() && self.entries@[i as int]@.id == id@,
                None => !self.contains_id(id@),
            },
            r is Some <==> self.contains_id(id@),
    {
        let n = self.entries.len();
        let mut i: usize = 0;
        while i < n
            invariant
                n == self.entries@.len(),
                i <= n,
                forall|k: int| 0 <= k < i ==> (#[trigger] self.entries@[k]@.id) != id@,
            decreases n - i,
        {
            if self.entries[i].id == *id {
                return Some(i);
            }
            i = i + 1;
        }
        None
    }

    /// One record with this name was added under `w.id`, fresh as of
    /// `r0`, starting at status `Created` with zero progress and no
    /// steps; every earlier record is unchanged.
    pub closed spec fn created_entry(r0: Registry, r1: Registry, name: Seq<char>, w: WorkflowView) -> bool {
        &&& w.name == name
        &&& w.status == Status::Created
        &&& w.progress == 0
        &&& w.steps.len() == 0
        &&& !r0.contains_id(w.id)
        &&& r1.entries@.len() == r0.entries@.len() + 1
        &&& forall|i: int| 0 <= i < r0.entries@.len() ==> r1.entries@[i] == r0.entries@[i]
        &&& r1.entries@[r0.entries@.len() as int]@ == w
    }

    /// Registers a workflow under a caller-chosen identifier. Succeeds if
    /// and only if the identifier is not yet taken; on success the
    /// returned copy is the record now stored under `id`.
    pub fn register_workflow(&mut self, id: String, name: String) -> (r: Result<
        Workflow,
        RegistryError,
    >)
        requires
            old(self).wf(),
        ensures
            final(self).wf(),
            r is Ok <==> !old(self).contains_id(id@),
            r matches Ok(w) ==> w@.id == id@ && Self::created_entry(
                *old(self),
                *final(self),
                name@,
                w@,
            ),
            r is Err ==> *final(self) == *old(self) && r == Err::<Workflow, RegistryError>(
                RegistryError::DuplicateId,
            ),
    {
        match self.find_index(&id) {
            Some(_) => Err(RegistryError::DuplicateId),
            None => {
                let w = Workflow {
                    id,
                    name,
                    status: Status::Created,
                    progress: 0,
                    steps: Vec::new(),
                };
                let out = w.clone();
                let ghost r0 = *self;
                self.entries.push(w);
                proof {
                    assert forall|i: int, j: int|
                        0 <= i < j < self.entries@.len() implies (
                    #[trigger] self.entries@[i]@.id) != (#[trigger] self.entries@[j]@.id) by {
                        if j < r0.entries@.len() {
                        } else {
                            assert(self.entries@[i] == r0.entries@[i]);
                        }
                    }
                    assert forall|i: int|
                        0 <= i < self.entries@.len() implies (
                    #[trigger] self.entries@[i]@).valid() by {
                        if i < r0.entries@.len() {
                            assert(self.entries@[i] == r0.entries@[i]);
                        }
                    }
                    assert(Self::created_entry(r0, *self, out@.name, out@));
                }
                Ok(out)
            },
        }
    }

    /// Creates a workflow under a freshly drawn identifier: status
    /// `Created`, zero progress, no steps, and a copy returned to the
    /// caller. Fails only if the drawn identifier is already taken, which
    /// cannot happen while no registered identifier is 36 characters
    /// long — in particular, never on an empty registry.
    pub fn create_workflow(&mut self, name: String) -> (r: Result<Workflow, RegistryError>)
        requires
            old(self).wf(),
        ensures
            final(self).wf(),
            old(self).len_spec() == 0 ==> r is Ok,
            !old(self).has_id_of_len(36) ==> r is Ok,
            r matches Ok(w) ==> w@.id.len() == 36 && Self::created_entry(
                *old(self),
                *final(self),
                name@,
                w@,
            ),
            r is Err ==> *final(self) == *old(self) && r == Err::<Workflow, RegistryError>(
                RegistryError::DuplicateId,
            ),
    {
        let id = fresh_uuid();
        proof {
            if self.contains_id(id@) {
                let i = choose|i: int|
                    0 <= i < self.entries@.len() && self.entries@[i]@.id == id@;
                assert(self.entries@[i]@.id.len() == 36);
                assert(self.has_id_of_len(36));
            }
        }
        self.register_workflow(id, name)
    }

    /// Pure lookup: a copy of the stored workflow if the identifier is
    /// registered, and absence — not an error — otherwise.
    pub fn get_workflow_status(&self, workflow_id: &String) -> (r: Option<Workflow>)
        requires
            self.wf(),
        ensures
            match r {
                Some(w) => self.spec_get(workflow_id@) == Some(w@),
                None => self.spec_get(workflow_id@) is None,
            },
            r is Some <==> self.contains_id(workflow_id@),
    {
        match self.find_index(workflow_id) {
            Some(i) => {
                let w = self.entries[i].clone();
                proof {
                    self.lemma_get_at(i as int);
                }
                Some(w)
            },
            None => None,
        }
    }

    /// Replaces the progress and status of the workflow under
    /// `workflow_id`, atomically with respect to the borrow of the
    /// registry. Succeeds if and only if the identifier is registered;
    /// every other record is untouched.
    pub fn update_progress(
        &mut self,
        workflow_id: &String,
        progress: u32,
        status: Status,
    ) -> (r: Result<(), RegistryError>)
        requires
            old(self).wf(),
            progress <= PROGRESS_SCALE,
        ensures
            final(self).wf(),
            r is Ok <==> old(self).contains_id(workflow_id@),
            r is Ok ==> (old(self).spec_get(workflow_id@) matches Some(prev)
                && final(self).spec_get(workflow_id@) == Some(
                prev.with_progress(progress as int, status),
            )),
            r is Ok ==> final(self).len_spec() == old(self).len_spec(),
            r is Ok ==> forall|other: Seq<char>|
                other != workflow_id@ ==> final(self).spec_get(other) == old(self).spec_get(other),
            r is Err ==> *final(self) == *old(self) && r == Err::<(), RegistryError>(
                RegistryError::NotFound,
            ),
    {
        match self.find_index(workflow_id) {
            Some(i) => {
                proof {
                    old(self).lemma_get_at(i as int);
                }
                let ghost e0 = self.entries@;
                let mut w = self.entries.remove(i);
                let ghost prev = w@;
                w.progress = progress;
                w.status = status;
                let ghost nw = w@;
                self.entries.insert(i, w);
                proof {
                    assert(self.entries@.len() == e0.len());
                    assert(self.entries@[i as int]@ == nw);
                    assert forall|k: int|
                        0 <= k < e0.len() && k != i implies self.entries@[k] == e0[k] by {}
                    assert forall|k: int|
                        0 <= k < e0.len() implies (#[trigger] self.entries@[k]@.id)
                        == e0[k]@.id by {}
                    assert forall|a: int, b: int|
                        0 <= a < b < self.entries@.len() implies (
                    #[trigger] self.entries@[a]@.id) != (#[trigger] self.entries@[b]@.id) by {
                        assert(e0[a]@.id != e0[b]@.id);
                    }
                    assert forall|k: int|
                        0 <= k < self.entries@.len() implies (
                    #[trigger] self.entries@[k]@).valid() by {
                        if k != i {
                            assert(self.entries@[k] == e0[k]);
                            assert(e0[k]@.valid());
                        }
                    }
                    self.lemma_get_at(i as int);
                    assert(nw == prev.with_progress(progress as int, status));
                    lemma_replace_preserves(*old(self), *self, i as int);
                }
                Ok(())
            },
            None => Err(RegistryError::NotFound),
        }
    }
}

/// Two registries that differ in at most the record at index `i`, and
/// agree on that record's identifier, yield the same lookup result for
/// every other identifier.
proof fn lemma_replace_preserves(r0: Registry, r1: Registry, i: int)
    requires
        r0.wf(),
        r1.wf(),
        0 <= i < r0.entries@.len(),
        r1.entries@.len() == r0.entries@.len(),
        forall|k: int| 0 <= k < r0.entries@.len() && k != i ==> r1.entries@[k] == r0.entries@[k],
        r1.entries@[i]@.id == r0.entries@[i]@.id,
    ensures
        forall|other: Seq<char>|
            other != r0.entries@[i]@.id ==> r1.spec_get(other) == r0.spec_get(other),
{
    assert forall|other: Seq<char>|
        other != r0.entries@[i]@.id implies r1.spec_get(other) == r0.spec_get(other) by {
        if r0.contains_id(other) {
            let k = r0.index_of(other);
            assert(0 <= k < r0.entries@.len() && r0.entries@[k]@.id == other);
            assert(k != i);
            assert(r1.entries@[k] == r0.entries@[k]);
            r0.lemma_get_at(k);
            r1.lemma_get_at(k);
        } else if r1.contains_id(other) {
            let k = r1.index_of(other);
            assert(0 <= k < r1.entries@.len() && r1.entries@[k]@.id == other);
            assert(k != i);
            assert(r0.entries@[k] == r1.entries@[k]);
            assert(r0.contains_id(other));
            assert(false);
        }
    }
}

/// Law: a workflow just created is registered under its identifier, and
/// looking it up yields, field for field, the record that creation
/// returned.
pub proof fn lemma_created_workflow_is_retrievable(
    r0: Registry,
    r1: Registry,
    name: Seq<char>,
    w: WorkflowView,
)
    requires
        Registry::created_entry(r0, r1, name, w),
        r0.wf(),
        r1.wf(),
    ensures
        r1.contains_id(w.id),
        r1.spec_get(w.id) == Some(w),
{
    let n = r0.entries@.len() as int;
    assert(r1.entries@[n]@ == w);
    r1.lemma_get_at(n);
}

/// Law: a newly created workflow carries the requested name, starts at
/// status `Created` with zero progress and an empty step sequence, and
/// its identifier was not registered before.
pub proof fn lemma_created_workflow_shape(
    r0: Registry,
    r1: Registry,
    name: Seq<char>,
    w: WorkflowView,
)
    requires
        Registry::created_entry(r0, r1, name, w),
    ensures
        w.name == name,
        w.status == Status::Created,
        w.progress == 0,
        w.steps.len() == 0,
        !r0.contains_id(w.id),
{
}

/// Law: creation adds exactly one record. The registry grows by one, the
/// new identifier was free beforehand, and every other identifier maps to
/// exactly what it mapped to before — no insertion is lost.
pub proof fn lemma_create_adds_exactly_one(
    r0: Registry,
    r1: Registry,
    name: Seq<char>,
    w: WorkflowView,
)
    requires
        Registry::created_entry(r0, r1, name, w),
        r0.wf(),
        r1.wf(),
    ensures
        r1.len_spec() == r0.len_spec() + 1,
        !r0.contains_id(w.id),
        r1.contains_id(w.id),
        forall|other: Seq<char>| other != w.id ==> r1.spec_get(other) == r0.spec_get(other),
{
    let n = r0.entries@.len() as int;
    assert(r1.entries@[n]@ == w);
    r1.lemma_get_at(n);
    assert forall|other: Seq<char>|
        other != w.id implies r1.spec_get(other) == r0.spec_get(other) by {
        if r0.contains_id(other) {
            let k = r0.index_of(other);
            assert(0 <= k < r0.entries@.len() && r0.entries@[k]@.id == other);
            assert(r1.entries@[k] == r0.entries@[k]);
            r0.lemma_get_at(k);
            r1.lemma_get_at(k);
        } else if r1.contains_id(other) {
            let k = r1.index_of(other);
            assert(0 <= k < r1.entries@.len() && r1.entries@[k]@.id == other);
            if k < n {
                assert(r0.entries@[k] == r1.entries@[k]);
                assert(r0.contains_id(other));
            } else {
                assert(r1.entries@[k]@ == w);
            }
            assert(false);
        }
    }
}

/// Law: successful creations accumulate, however many run. After a run
/// of creations in sequence, each step a creation as `created_entry`
/// records it, the registry has grown by exactly the number of steps,
/// the created identifiers are pairwise distinct, and every created
/// workflow is still registered, unchanged, under its identifier — no
/// insertion is lost.
pub proof fn lemma_creates_accumulate(
    regs: Seq<Registry>,
    names: Seq<Seq<char>>,
    ws: Seq<WorkflowView>,
)
    requires
        regs.len() == ws.len() + 1,
        names.len() == ws.len(),
        forall|i: int| 0 <= i < regs.len() ==> (#[trigger] regs[i]).wf(),
        forall|i: int|
            0 <= i < ws.len() ==> Registry::created_entry(
                regs[i],
                regs[i + 1],
                names[i],
                #[trigger] ws[i],
            ),
    ensures
        regs.last().len_spec() == regs[0].len_spec() + ws.len(),
        forall|i: int, j: int|
            0 <= i < j < ws.len() ==> (#[trigger] ws[i]).id != (#[trigger] ws[j]).id,
        forall|i: int|
            0 <= i < ws.len() ==> regs.last().spec_get((#[trigger] ws[i]).id) == Some(ws[i]),
    decreases ws.len(),
{
    if ws.len() == 0 {
        assert(regs.last() == regs[0]);
    } else {
        let n = ws.len() - 1;
        let prefix_regs = regs.drop_last();
        let prefix_names = names.drop_last();
        let prefix_ws = ws.drop_last();
        assert forall|i: int| 0 <= i < prefix_regs.len() implies (
        #[trigger] prefix_regs[i]).wf() by {
            assert(prefix_regs[i] == regs[i]);
        }
        assert forall|i: int|
            0 <= i < prefix_ws.len() implies Registry::created_entry(
            prefix_regs[i],
            prefix_regs[i + 1],
            prefix_names[i],
            #[trigger] prefix_ws[i],
        ) by {
            assert(prefix_regs[i] == regs[i]);
            assert(prefix_regs[i + 1] == regs[i + 1]);
            assert(prefix_names[i] == names[i]);
            assert(prefix_ws[i] == ws[i]);
        }
        lemma_creates_accumulate(prefix_regs, prefix_names, prefix_ws);
        let rn = regs[n as int];
        let rlast = regs[n as int + 1];
        assert(prefix_regs.last() == rn);
        assert(regs.last() == rlast);
        lemma_created_workflow_is_retrievable(rn, rlast, names[n as int], ws[n as int]);
        lemma_create_adds_exactly_one(rn, rlast, names[n as int], ws[n as int]);
        assert forall|i: int|
            0 <= i < n implies regs.last().spec_get((#[trigger] ws[i]).id) == Some(ws[i]) && ws[i].id
            != ws[n as int].id by {
            assert(prefix_ws[i] == ws[i]);
            assert(rn.spec_get(ws[i].id) == Some(ws[i]));
            assert(rn.contains_id(ws[i].id));
            assert(ws[i].id != ws[n as int].id);
        }
        assert forall|i: int, j: int|
            0 <= i < j < ws.len() implies (#[trigger] ws[i]).id != (#[trigger] ws[j]).id by {
            if j < n {
                assert(prefix_ws[i] == ws[i]);
                assert(prefix_ws[j] == ws[j]);
            }
        }
    }
}

} // verus!
