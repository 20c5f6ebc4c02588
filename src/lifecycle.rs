use vstd::prelude::*;

verus! {

/// The identifying address of a proof-context record (a ledger public key).
pub type Address = [u8; 32];

/// What a proof-context record proves.
#[derive(Debug, Clone, Copy, PartialEq, Eq, Structural)]
pub enum ProofKind {
    /// Two ciphertexts encrypt the same value.
    Equality,
    /// A ciphertext is well formed under the given public keys.
    CiphertextValidity,
    /// An encrypted value lies in the non-negative range.
    Range,
}

/// Where one proof-context record stands.
#[derive(Debug, Clone, Copy, PartialEq, Eq, Structural)]
pub enum ContextStatus {
    /// Not yet asked for.
    Planned,
    /// Created and verified on the ledger; its storage is still held.
    Created,
    /// Its creation was refused; nothing of it is on the ledger.
    CreateFailed,
    /// Closed after use; its storage was reclaimed.
    Closed,
    /// Closing it was refused: the record is leaked until someone closes it.
    CloseFailed,
}

/// How far the consuming instruction (the withdraw or transfer itself) got.
#[derive(Debug, Clone, Copy, PartialEq, Eq, Structural)]
pub enum Consumption {
    NotSubmitted,
    Confirmed,
    Failed,
}

/// The step an operation attempt is in.
#[derive(Debug, Clone, Copy, PartialEq, Eq, Structural)]
pub enum Phase {
    /// Records are being created, one transaction each, in order.
    Creating,
    /// Every record exists; the consuming instruction is next.
    Consuming,
    /// Records that exist are being closed, in order.
    Closing,
    /// Nothing is left to do.
    Done,
}

/// What the driver of an operation should do next.
#[derive(Debug, Clone, Copy, PartialEq, Eq, Structural)]
pub enum Action {
    /// Create and verify the record at this index.
    CreateContext(usize),
    /// Submit the consuming instruction, referencing every record.
    SubmitConsuming,
    /// Close the record at this index, reclaiming its storage.
    CloseContext(usize),
    /// The attempt is over.
    Finish,
}

/// Why a lifecycle could not be set up or advanced.
#[derive(Debug, Clone, Copy, PartialEq, Eq, Structural)]
pub enum LifecycleError {
    /// An operation needs at least one proof.
    NoContexts,
    /// Two records were given the same address; each must be fresh.
    DuplicateAddress,
    /// An outcome was reported after the attempt was over.
    AlreadyDone,
}

/// How an operation attempt ended.
#[derive(Debug, Clone, Copy, PartialEq, Eq, Structural)]
pub enum Outcome {
    /// Not over yet.
    InProgress,
    /// The consuming instruction confirmed: the balance change is committed.
    Committed,
    /// The consuming instruction failed: no balance changed.
    ConsumingFailed,
    /// A record could not be created, so nothing was consumed.
    CreationFailed,
}

/// The operation a record was created for.
#[derive(Debug, Clone, Copy, PartialEq, Eq, Structural)]
pub enum OperationKind {
    Withdraw,
    Transfer,
}

/// One proof-context record of an operation: enough to find and close it
/// again after a crash.
#[derive(Debug, Clone, Copy)]
pub struct ProofContext {
    pub operation: OperationKind,
    pub kind: ProofKind,
    pub address: Address,
    pub status: ContextStatus,
}

/// The create / consume / close protocol for the proof-context records of
/// one operation attempt, as a state machine: the driver asks `next_action`,
/// performs it on the ledger, and reports the result with `record`.
pub struct ProofLifecycle {
    contexts: Vec<ProofContext>,
    phase: Phase,
    /// How many records (a prefix of `contexts`) were created.
    created: usize,
    /// The index the current phase works on.
    cursor: usize,
    consumption: Consumption,
}

/// The mathematical state of a `ProofLifecycle`.
pub struct LifecycleState {
    pub contexts: Seq<ProofContext>,
    pub phase: Phase,
    pub created: int,
    pub cursor: int,
    pub consumption: Consumption,
}

pub open spec fn settled(s: ContextStatus) -> bool {
    s == ContextStatus::Closed || s == ContextStatus::CloseFailed
}

/// The records of an operation as planned: operation, kind and address,
/// nothing asked yet.
pub open spec fn planned(operation: OperationKind, items: Seq<(ProofKind, Address)>) -> Seq<ProofContext> {
    Seq::new(
        items.len(),
        |i: int| ProofContext { operation, kind: items[i].0, address: items[i].1, status: ContextStatus::Planned },
    )
}

/// No two planned records share an address.
pub open spec fn fresh_addresses(items: Seq<(ProofKind, Address)>) -> bool {
    forall|i: int, j: int| 0 <= i < j < items.len() ==> items[i].1@ != items[j].1@
}

/// No two records share an address.
pub open spec fn distinct_addresses(cs: Seq<ProofContext>) -> bool {
    forall|i: int, j: int| 0 <= i < j < cs.len() ==> cs[i].address@ != cs[j].address@
}

/// Two context lists hold the same records, whatever their status.
pub open spec fn same_records(a: Seq<ProofContext>, b: Seq<ProofContext>) -> bool {
    &&& a.len() == b.len()
    &&& forall|i: int|
        0 <= i < a.len() ==> a[i].operation == b[i].operation && a[i].kind == b[i].kind && a[i].address
            == b[i].address
}

/// The kinds of a list of records, in order.
pub open spec fn kinds(cs: Seq<ProofContext>) -> Seq<ProofKind> {
    cs.map_values(|c: ProofContext| c.kind)
}

/// Every record of the list belongs to `operation`.
pub open spec fn all_for(cs: Seq<ProofContext>, operation: OperationKind) -> bool {
    forall|i: int| 0 <= i < cs.len() ==> #[trigger] cs[i].operation == operation
}

impl LifecycleState {
    pub open spec fn len(self) -> int {
        self.contexts.len() as int
    }

    pub open spec fn status(self, i: int) -> ContextStatus {
        self.contexts[i].status
    }

    /// Records past `created` were never created: the first of them failed,
    /// the rest were not tried; and that happens exactly when nothing was
    /// consumed.
    pub open spec fn tail_wf(self) -> bool {
        &&& (self.created < self.len()) == (self.consumption == Consumption::NotSubmitted)
        &&& self.created < self.len() ==> self.status(self.created) == ContextStatus::CreateFailed
        &&& forall|i: int| self.created < i < self.len() ==> self.status(i) == ContextStatus::Planned
    }

    pub open spec fn wf(self) -> bool {
        &&& self.len() >= 1
        &&& distinct_addresses(self.contexts)
        &&& 0 <= self.cursor <= self.created <= self.len()
        &&& match self.phase {
            Phase::Creating => {
                &&& self.consumption == Consumption::NotSubmitted
                &&& self.cursor == self.created
                &&& self.created < self.len()
                &&& forall|i: int| 0 <= i < self.created ==> self.status(i) == ContextStatus::Created
                &&& forall|i: int| self.created <= i < self.len() ==> self.status(i) == ContextStatus::Planned
            },
            Phase::Consuming => {
                &&& self.consumption == Consumption::NotSubmitted
                &&& self.created == self.len()
                &&& self.cursor == self.created
                &&& forall|i: int| 0 <= i < self.len() ==> self.status(i) == ContextStatus::Created
            },
            Phase::Closing => {
                &&& self.cursor < self.created
                &&& forall|i: int| 0 <= i < self.cursor ==> settled(self.status(i))
                &&& forall|i: int| self.cursor <= i < self.created ==> self.status(i) == ContextStatus::Created
                &&& self.tail_wf()
            },
            Phase::Done => {
                &&& self.cursor == self.created
                &&& forall|i: int| 0 <= i < self.created ==> settled(self.status(i))
                &&& self.tail_wf()
            },
        }
    }

    /// The action that the driver owes in this state.
    pub open spec fn action(self) -> Action {
        match self.phase {
            Phase::Creating => Action::CreateContext(self.cursor as usize),
            Phase::Consuming => Action::SubmitConsuming,
            Phase::Closing => Action::CloseContext(self.cursor as usize),
            Phase::Done => Action::Finish,
        }
    }

    /// The outcome that this state reports.
    pub open spec fn outcome(self) -> Outcome {
        if self.phase != Phase::Done {
            Outcome::InProgress
        } else {
            match self.consumption {
                Consumption::Confirmed => Outcome::Committed,
                Consumption::Failed => Outcome::ConsumingFailed,
                Consumption::NotSubmitted => Outcome::CreationFailed,
            }
        }
    }

    pub open spec fn with_status(self, s: ContextStatus) -> Seq<ProofContext> {
        self.contexts.update(self.cursor, ProofContext { status: s, ..self.contexts[self.cursor] })
    }

    /// The next state, once the driver reports that the owed action
    /// succeeded (`ok`) or failed. `Done` has no next state.
    pub open spec fn step(self, ok: bool) -> LifecycleState {
        match self.phase {
            Phase::Creating => if ok {
                LifecycleState {
                    contexts: self.with_status(ContextStatus::Created),
                    phase: if self.created + 1 == self.len() { Phase::Consuming } else { Phase::Creating },
                    created: self.created + 1,
                    cursor: self.cursor + 1,
                    consumption: self.consumption,
                }
            } else {
                LifecycleState {
                    contexts: self.with_status(ContextStatus::CreateFailed),
                    phase: if self.created == 0 { Phase::Done } else { Phase::Closing },
                    created: self.created,
                    cursor: 0,
                    consumption: self.consumption,
                }
            },
            Phase::Consuming => LifecycleState {
                contexts: self.contexts,
                phase: Phase::Closing,
                created: self.created,
                cursor: 0,
                consumption: if ok { Consumption::Confirmed } else { Consumption::Failed },
            },
            Phase::Closing => LifecycleState {
                contexts: self.with_status(if ok { ContextStatus::Closed } else { ContextStatus::CloseFailed }),
                phase: if self.cursor + 1 == self.created { Phase::Done } else { Phase::Closing },
                created: self.created,
                cursor: self.cursor + 1,
                consumption: self.consumption,
            },
            Phase::Done => self,
        }
    }
}

impl ProofLifecycle {
    pub closed spec fn view(&self) -> LifecycleState {
        LifecycleState {
            contexts: self.contexts@,
            phase: self.phase,
            created: self.created as int,
            cursor: self.cursor as int,
            consumption: self.consumption,
        }
    }

    pub open spec fn wf(&self) -> bool {
        self@.wf()
    }
}

/// Whether two addresses are the same.
pub fn same_address(a: &Address, b: &Address) -> (r: bool)
    ensures
        r == (a@ == b@),
{
    let mut i: usize = 0;
    while i < 32
        invariant
            0 <= i <= 32,
            a@.len() == 32,
            b@.len() == 32,
            forall|j: int| 0 <= j < i ==> a@[j] == b@[j],
        decreases 32 - i,
    {
        if a[i] != b[i] {
            return false;
        }
        i = i + 1;
    }
    assert(a@ =~= b@);
    true
}

impl ProofLifecycle {
    /// Plans the records of one operation attempt, each with its kind and a
    /// freshly generated address. Nothing is asked of the ledger yet.
    pub fn new(operation: OperationKind, items: &Vec<(ProofKind, Address)>) -> (r: Result<ProofLifecycle, LifecycleError>)
        ensures
            items@.len() == 0 <==> r == Err::<ProofLifecycle, LifecycleError>(LifecycleError::NoContexts),
            (items@.len() > 0 && !fresh_addresses(items@)) <==> r == Err::<ProofLifecycle, LifecycleError>(
                LifecycleError::DuplicateAddress,
            ),
            r is Ok <==> (items@.len() > 0 && fresh_addresses(items@)),
            r is Ok ==> {
                let m = r->Ok_0;
                &&& m.wf()
                &&& m@.contexts == planned(operation, items@)
                &&& m@.phase == Phase::Creating
                &&& m@.created == 0
            },
    {
        let n = items.len();
        if n == 0 {
            return Err(LifecycleError::NoContexts);
        }
        let mut i: usize = 0;
        while i < n
            invariant
                n == items@.len(),
                0 <= i <= n,
                forall|a: int, b: int| 0 <= a < b < n && a < i ==> items@[a].1@ != items@[b].1@,
            decreases n - i,
        {
            let mut j: usize = i + 1;
            while j < n
                invariant
                    n == items@.len(),
                    0 <= i < j <= n,
                    forall|a: int, b: int| 0 <= a < b < n && a < i ==> items@[a].1@ != items@[b].1@,
                    forall|b: int| i < b < j ==> items@[i as int].1@ != items@[b].1@,
                decreases n - j,
            {
                if same_address(&items[i].1, &items[j].1) {
                    assert(!fresh_addresses(items@)) by {
                        assert(items@[i as int].1@ == items@[j as int].1@);
                    }
                    return Err(LifecycleError::DuplicateAddress);
                }
                j = j + 1;
            }
            i = i + 1;
        }
        let mut contexts: Vec<ProofContext> = Vec::new();
        let mut k: usize = 0;
        while k < n
            invariant
                n == items@.len(),
                0 <= k <= n,
                contexts@ == planned(operation, items@).take(k as int),
            decreases n - k,
        {
            contexts.push(ProofContext { operation, kind: items[k].0, address: items[k].1, status: ContextStatus::Planned });
            assert(contexts@ =~= planned(operation, items@).take(k + 1));
            k = k + 1;
        }
        assert(contexts@ =~= planned(operation, items@));
        Ok(ProofLifecycle { contexts, phase: Phase::Creating, created: 0, cursor: 0, consumption: Consumption::NotSubmitted })
    }

    /// The step the attempt is in.
    pub fn phase(&self) -> (r: Phase)
        ensures
            r == self@.phase,
    {
        self.phase
    }

    /// How many records the operation has.
    pub fn num_contexts(&self) -> (r: usize)
        ensures
            r == self@.contexts.len(),
    {
        self.contexts.len()
    }

    /// The record at index `i`, with its current status.
    pub fn context(&self, i: usize) -> (r: ProofContext)
        requires
            i < self@.contexts.len(),
        ensures
            r == self@.contexts[i as int],
    {
        self.contexts[i]
    }

    /// What the driver should do next.
    pub fn next_action(&self) -> (r: Action)
        requires
            self.wf(),
        ensures
            r == self@.action(),
    {
        match self.phase {
            Phase::Creating => Action::CreateContext(self.cursor),
            Phase::Consuming => Action::SubmitConsuming,
            Phase::Closing => Action::CloseContext(self.cursor),
            Phase::Done => Action::Finish,
        }
    }

    /// Takes the driver's report on the owed action: `ok` when its
    /// transaction confirmed. After `Done` every report is refused.
    pub fn record(&mut self, ok: bool) -> (r: Result<(), LifecycleError>)
        requires
            old(self).wf(),
        ensures
            final(self).wf(),
            same_records(final(self)@.contexts, old(self)@.contexts),
            old(self)@.phase == Phase::Done ==> r == Err::<(), LifecycleError>(LifecycleError::AlreadyDone)
                && final(self)@ == old(self)@,
            old(self)@.phase != Phase::Done ==> r == Ok::<(), LifecycleError>(()) && final(self)@ == old(self)@.step(ok),
    {
        let ghost pre = self@;
        let n = self.contexts.len();
        match self.phase {
            Phase::Creating => {
                let i = self.cursor;
                let mut c = self.contexts[i];
                if ok {
                    c.status = ContextStatus::Created;
                    self.contexts.set(i, c);
                    self.created = self.created + 1;
                    self.cursor = self.cursor + 1;
                    if self.created == n {
                        self.phase = Phase::Consuming;
                    }
                    assert forall|k: int| 0 <= k < self.created implies self@.status(k) == ContextStatus::Created by {
                        if k < i {
                            assert(pre.status(k) == ContextStatus::Created);
                        }
                    }
                    assert forall|k: int| self.created <= k < n implies self@.status(k) == ContextStatus::Planned by {
                        assert(pre.status(k) == ContextStatus::Planned);
                    }
                } else {
                    c.status = ContextStatus::CreateFailed;
                    self.contexts.set(i, c);
                    self.cursor = 0;
                    if self.created == 0 {
                        self.phase = Phase::Done;
                    } else {
                        self.phase = Phase::Closing;
                    }
                    assert forall|k: int| 0 <= k < self.created implies self@.status(k) == ContextStatus::Created by {
                        assert(pre.status(k) == ContextStatus::Created);
                    }
                    assert forall|k: int| self.created < k < n implies self@.status(k) == ContextStatus::Planned by {
                        assert(pre.status(k) == ContextStatus::Planned);
                    }
                }
                assert(self@.contexts =~= pre.step(ok).contexts);
                assert(same_records(self@.contexts, pre.contexts));
                Ok(())
            },
            Phase::Consuming => {
                self.consumption = if ok { Consumption::Confirmed } else { Consumption::Failed };
                self.cursor = 0;
                self.phase = Phase::Closing;
                assert forall|k: int| 0 <= k < n implies self@.status(k) == ContextStatus::Created by {
                    assert(pre.status(k) == ContextStatus::Created);
                }
                Ok(())
            },
            Phase::Closing => {
                let i = self.cursor;
                let mut c = self.contexts[i];
                c.status = if ok { ContextStatus::Closed } else { ContextStatus::CloseFailed };
                self.contexts.set(i, c);
                self.cursor = self.cursor + 1;
                if self.cursor == self.created {
                    self.phase = Phase::Done;
                }
                assert forall|k: int| 0 <= k < self.cursor implies settled(self@.status(k)) by {
                    if k < i {
                        assert(settled(pre.status(k)));
                    }
                }
                assert forall|k: int| self.cursor <= k < self.created implies self@.status(k)
                    == ContextStatus::Created by {
                    assert(pre.status(k) == ContextStatus::Created);
                }
                assert forall|k: int| self.created < k < n implies self@.status(k) == ContextStatus::Planned by {
                    assert(pre.status(k) == ContextStatus::Planned);
                }
                assert(self.created < n ==> self@.status(self.created as int) == pre.status(self.created as int));
                assert(self@.contexts =~= pre.step(ok).contexts);
                assert(same_records(self@.contexts, pre.contexts));
                Ok(())
            },
            Phase::Done => Err(LifecycleError::AlreadyDone),
        }
    }

    /// How the attempt ended, or that it has not.
    pub fn outcome(&self) -> (r: Outcome)
        requires
            self.wf(),
        ensures
            r == self@.outcome(),
    {
        match self.phase {
            Phase::Done => match self.consumption {
                Consumption::Confirmed => Outcome::Committed,
                Consumption::Failed => Outcome::ConsumingFailed,
                Consumption::NotSubmitted => Outcome::CreationFailed,
            },
            _ => Outcome::InProgress,
        }
    }

    /// The addresses of the records whose status is `s`, in order.
    pub fn addresses_with(&self, s: ContextStatus) -> (r: Vec<Address>)
        ensures
            r@ == self@.contexts.filter(|c: ProofContext| c.status == s).map_values(|c: ProofContext| c.address),
    {
        let mut r: Vec<Address> = Vec::new();
        let mut i: usize = 0;
        while i < self.contexts.len()
            invariant
                0 <= i <= self.contexts@.len(),
                r@ == self@.contexts.take(i as int).filter(|c: ProofContext| c.status == s).map_values(
                    |c: ProofContext| c.address,
                ),
            decreases self.contexts@.len() - i,
        {
            let c = self.contexts[i];
            proof {
                let cs = self@.contexts.take(i + 1);
                assert(cs.drop_last() =~= self@.contexts.take(i as int));
                reveal(Seq::filter);
            }
            if c.status == s {
                r.push(c.address);
            }
            proof {
                let f = |c: ProofContext| c.status == s;
                let g = |c: ProofContext| c.address;
                assert(r@ =~= self@.contexts.take(i + 1).filter(f).map_values(g));
            }
            i = i + 1;
        }
        assert(self@.contexts.take(self.contexts@.len() as int) =~= self@.contexts);
        r
    }

    /// The records that exist on the ledger and are still to be closed.
    pub fn pending_closure(&self) -> (r: Vec<Address>)
        ensures
            r@ == self@.contexts.filter(|c: ProofContext| c.status == ContextStatus::Created).map_values(
                |c: ProofContext| c.address,
            ),
    {
        self.addresses_with(ContextStatus::Created)
    }

    /// The records whose closing was refused: storage that stays held until
    /// someone closes them.
    pub fn leaked(&self) -> (r: Vec<Address>)
        ensures
            r@ == self@.contexts.filter(|c: ProofContext| c.status == ContextStatus::CloseFailed).map_values(
                |c: ProofContext| c.address,
            ),
    {
        self.addresses_with(ContextStatus::CloseFailed)
    }

    /// The addresses of all records, in order: what the consuming
    /// instruction references.
    pub fn context_addresses(&self) -> (r: Vec<Address>)
        ensures
            r@ == self@.contexts.map_values(|c: ProofContext| c.address),
    {
        let mut r: Vec<Address> = Vec::new();
        let mut i: usize = 0;
        while i < self.contexts.len()
            invariant
                0 <= i <= self.contexts@.len(),
                r@ == self@.contexts.take(i as int).map_values(|c: ProofContext| c.address),
            decreases self.contexts@.len() - i,
        {
            r.push(self.contexts[i].address);
            assert(r@ =~= self@.contexts.take(i + 1).map_values(|c: ProofContext| c.address));
            i = i + 1;
        }
        assert(self@.contexts.take(self.contexts@.len() as int) =~= self@.contexts);
        r
    }
}

} // verus!
