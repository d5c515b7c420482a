//! The transaction lifecycle: read-only snapshots, a single read-write
//! transaction per environment, nesting, and commit/abort semantics.
//!
//! An [`Env`] holds the committed contents of one store. A [`RoTxn`] is a
//! consistent read-only snapshot fixed at its begin time. A [`RwTxn`] is a
//! snapshot plus a write set; committing it publishes its map to the
//! environment, aborting discards it. A nested [`RwTxn`] folds its writes
//! into its parent on commit and discards only its own writes on abort.
//! A nested [`RoTxn`] is a child of a write transaction: it observes the
//! parent's uncommitted writes, and the parent refuses writes and its own
//! end until the child has ended.
//!
//! Commit and abort consume the transaction value, so a transaction can
//! never be used, committed or released twice, and a transaction that is
//! simply dropped has written nothing to the environment. A read-write
//! transaction must still end by `commit` or `abort`: that is what frees
//! the environment's writer slot, and a writer dropped without either
//! leaves the slot held.
//!
//! Each environment carries a ghost identity, and every transaction
//! records the identity of the environment it was begun on; commit and
//! abort require the identities to match, so a verified caller cannot
//! end a transaction against a foreign environment.

use vstd::prelude::*;

use crate::errors::EngineError;
use crate::store::Store;

verus! {

/// One open store instance. All transactions are begun against an
/// environment; committed read-write transactions replace its contents.
pub struct Env {
    data: Store,
    write_open: bool,
    nested_read: bool,
    id: Ghost<int>,
}

impl View for Env {
    type V = Map<Seq<u8>, Seq<u8>>;

    /// The committed contents: key bytes mapped to value bytes.
    closed spec fn view(&self) -> Map<Seq<u8>, Seq<u8>> {
        self.data@
    }
}

impl Env {
    /// The environment's contents are well-formed.
    pub closed spec fn wf(&self) -> bool {
        self.data.wf()
    }

    /// Whether a read-write transaction is currently open.
    pub closed spec fn writer_active(&self) -> bool {
        self.write_open
    }

    /// Whether the environment was configured to allow read-only
    /// transactions nested inside a write transaction.
    pub closed spec fn nested_read_enabled(&self) -> bool {
        self.nested_read
    }

    /// The environment's ghost identity; transactions record it so that
    /// ending a transaction against a different environment is a
    /// verification error.
    pub closed spec fn env_id(&self) -> int {
        self.id@
    }

    /// Open a fresh, empty environment. `nested_read` opts in to nested
    /// read-only transactions; that mode is only safe when the engine does
    /// not bind transactions to the calling thread, so it is an explicit
    /// configuration choice, off by default.
    pub fn new(nested_read: bool) -> (r: Env)
        ensures
            r.wf(),
            r@ == Map::<Seq<u8>, Seq<u8>>::empty(),
            !r.writer_active(),
            r.nested_read_enabled() == nested_read,
    {
        Env { data: Store::new(), write_open: false, nested_read, id: Ghost(arbitrary()) }
    }
}

/// A read-only transaction: a consistent snapshot of contents, fixed when
/// the transaction is begun. Writers committing later are invisible to an
/// already-open read transaction.
pub struct RoTxn {
    snapshot: Store,
    nested: Ghost<bool>,
    env_id: Ghost<int>,
}

impl View for RoTxn {
    type V = Map<Seq<u8>, Seq<u8>>;

    /// The contents this transaction observes.
    closed spec fn view(&self) -> Map<Seq<u8>, Seq<u8>> {
        self.snapshot@
    }
}

impl RoTxn {
    /// The transaction's snapshot is well-formed.
    pub closed spec fn wf(&self) -> bool {
        self.snapshot.wf()
    }

    /// Whether this transaction was begun as the child of a write
    /// transaction. A nested read transaction ends through
    /// [`RoTxn::commit_nested`], which releases its parent; a top-level
    /// one ends through [`RoTxn::commit`] or by being dropped.
    pub closed spec fn is_nested(&self) -> bool {
        self.nested@
    }

    /// The ghost identity of the environment this transaction was begun
    /// on (for a nested one, its parent's).
    pub closed spec fn env_id(&self) -> int {
        self.env_id@
    }

    /// Begin a read-only transaction against the environment. It observes
    /// exactly the contents committed at this instant.
    pub fn new(env: &Env) -> (r: Result<RoTxn, EngineError>)
        requires
            env.wf(),
        ensures
            r matches Ok(t) && t.wf() && t@ == env@ && !t.is_nested() && t.env_id() == env.env_id(),
    {
        Ok(RoTxn { snapshot: env.data.duplicate(), nested: Ghost(false), env_id: Ghost(env.env_id()) })
    }

    /// Begin a read-only transaction that takes the environment over
    /// entirely, so the transaction owns its backing and may be moved
    /// across scopes without borrowing.
    pub fn static_read_txn(env: Env) -> (r: Result<RoTxn, EngineError>)
        requires
            env.wf(),
        ensures
            r matches Ok(t) && t.wf() && t@ == env@ && !t.is_nested() && t.env_id() == env.env_id(),
    {
        let ghost gid = env.env_id();
        Ok(RoTxn { snapshot: env.data, nested: Ghost(false), env_id: Ghost(gid) })
    }

    /// Begin a read-only child of the given write transaction, so a
    /// single logical write transaction can read its own uncommitted
    /// state through a handle that cannot mutate. While the child lives
    /// the parent refuses writes, further children, and its own end, so
    /// the child observes all of the parent's writes the whole time; it
    /// ends through [`RoTxn::commit_nested`], which releases the parent.
    /// Valid only when the environment was configured for nested reads;
    /// otherwise it fails with `NestedReadUnsupported`.
    pub fn nested(env: &Env, parent: &mut RwTxn) -> (r: Result<RoTxn, EngineError>)
        requires
            old(parent).wf(),
            old(parent).env_id() == env.env_id(),
        ensures
            final(parent).wf() == old(parent).wf(),
            final(parent)@ == old(parent)@,
            final(parent).is_nested() == old(parent).is_nested(),
            final(parent).env_id() == old(parent).env_id(),
            !env.nested_read_enabled() ==> final(parent).child_open() == old(parent).child_open()
                && (r matches Err(e) && e == EngineError::NestedReadUnsupported),
            env.nested_read_enabled() && old(parent).child_open() ==> final(parent).child_open()
                && (r matches Err(e) && e == EngineError::ChildActive),
            env.nested_read_enabled() && !old(parent).child_open() ==> final(parent).child_open()
                && (r matches Ok(t) && t.wf() && t@ == old(parent)@ && t.is_nested() && t.env_id()
                == old(parent).env_id()),
    {
        if !env.nested_read {
            return Err(EngineError::NestedReadUnsupported);
        }
        if parent.child {
            return Err(EngineError::ChildActive);
        }
        parent.child = true;
        Ok(RoTxn {
            snapshot: parent.txn.snapshot.duplicate(),
            nested: Ghost(true),
            env_id: Ghost(parent.env_id()),
        })
    }

    /// Look the given key up in the snapshot.
    pub fn get(&self, key: &[u8]) -> (r: Option<&Vec<u8>>)
        requires
            self.wf(),
        ensures
            match r {
                Some(v) => self@.contains_key(key@) && v@ == self@[key@],
                None => !self@.contains_key(key@),
            },
    {
        self.snapshot.get(key)
    }

    /// Commit a top-level read transaction. Reads are never buffered for
    /// write-back, so no data moves; this finalizes the engine's
    /// bookkeeping for the snapshot and consumes the transaction, after
    /// which no further operation on it exists.
    pub fn commit(self) -> (r: Result<(), EngineError>)
        requires
            !self.is_nested(),
        ensures
            r is Ok,
    {
        Ok(())
    }

    /// End a nested read transaction, releasing its parent for use
    /// again; the parent's own contents are untouched. Consumes the
    /// child.
    pub fn commit_nested(self, parent: &mut RwTxn) -> (r: Result<(), EngineError>)
        requires
            self.is_nested(),
            self.env_id() == old(parent).env_id(),
            old(parent).child_open(),
        ensures
            r is Ok,
            final(parent).wf() == old(parent).wf(),
            final(parent)@ == old(parent)@,
            !final(parent).child_open(),
            final(parent).is_nested() == old(parent).is_nested(),
            final(parent).env_id() == old(parent).env_id(),
    {
        parent.child = false;
        Ok(())
    }
}

/// A read-write transaction: the snapshot it was begun from plus all of
/// its writes so far. Only one may be open per environment at a time;
/// beginning a second fails with `WriterBusy` rather than silently
/// admitting two writers.
pub struct RwTxn {
    txn: RoTxn,
    child: bool,
    nested: Ghost<bool>,
}

impl View for RwTxn {
    type V = Map<Seq<u8>, Seq<u8>>;

    /// The contents this transaction observes: its begin-time snapshot
    /// with all of its own writes applied.
    closed spec fn view(&self) -> Map<Seq<u8>, Seq<u8>> {
        self.txn.snapshot@
    }
}

impl RwTxn {
    /// The transaction's working contents are well-formed.
    pub closed spec fn wf(&self) -> bool {
        self.txn.snapshot.wf()
    }

    /// Whether this transaction has a live child transaction (a nested
    /// write transaction or a nested read transaction). While it does,
    /// the transaction refuses writes, and it may not commit or abort
    /// until the child has ended.
    pub closed spec fn child_open(&self) -> bool {
        self.child
    }

    /// Whether this transaction was begun as the child of another
    /// read-write transaction. A nested transaction commits into its
    /// parent, never directly into the environment.
    pub closed spec fn is_nested(&self) -> bool {
        self.nested@
    }

    /// The ghost identity of the environment this transaction was begun
    /// on (for a nested one, its parent's).
    pub closed spec fn env_id(&self) -> int {
        self.txn.env_id@
    }

    /// Begin a read-write transaction against the environment. At most
    /// one may be open at a time: while one is, beginning another fails
    /// with `WriterBusy` (the native engine enforces the same exclusion
    /// by blocking the second caller).
    pub fn new(env: &mut Env) -> (r: Result<RwTxn, EngineError>)
        requires
            old(env).wf(),
        ensures
            final(env).wf(),
            final(env)@ == old(env)@,
            final(env).nested_read_enabled() == old(env).nested_read_enabled(),
            final(env).env_id() == old(env).env_id(),
            old(env).writer_active() ==> final(env).writer_active() && (r matches Err(e) && e
                == EngineError::WriterBusy),
            !old(env).writer_active() ==> final(env).writer_active() && (r matches Ok(t) && t.wf()
                && t@ == old(env)@ && !t.child_open() && !t.is_nested() && t.env_id() == old(
                env,
            ).env_id()),
    {
        if env.write_open {
            return Err(EngineError::WriterBusy);
        }
        env.write_open = true;
        Ok(RwTxn {
            txn: RoTxn {
                snapshot: env.data.duplicate(),
                nested: Ghost(false),
                env_id: Ghost(env.env_id()),
            },
            child: false,
            nested: Ghost(false),
        })
    }

    /// Begin a child read-write transaction of the given parent. The
    /// child observes all of the parent's writes so far; on commit it
    /// folds its writes into the parent, on abort only the child's writes
    /// are discarded. While the child is live the parent refuses writes
    /// and a second child.
    pub fn nested(env: &Env, parent: &mut RwTxn) -> (r: Result<RwTxn, EngineError>)
        requires
            old(parent).wf(),
            old(parent).env_id() == env.env_id(),
        ensures
            final(parent).wf(),
            final(parent)@ == old(parent)@,
            final(parent).is_nested() == old(parent).is_nested(),
            final(parent).env_id() == old(parent).env_id(),
            old(parent).child_open() ==> final(parent).child_open() && (r matches Err(e) && e
                == EngineError::ChildActive),
            !old(parent).child_open() ==> final(parent).child_open() && (r matches Ok(t) && t.wf()
                && t@ == old(parent)@ && !t.child_open() && t.is_nested() && t.env_id() == old(
                parent,
            ).env_id()),
    {
        if parent.child {
            return Err(EngineError::ChildActive);
        }
        parent.child = true;
        Ok(RwTxn {
            txn: RoTxn {
                snapshot: parent.txn.snapshot.duplicate(),
                nested: Ghost(false),
                env_id: Ghost(parent.env_id()),
            },
            child: false,
            nested: Ghost(true),
        })
    }

    /// Look the given key up in the transaction's working contents: a
    /// write transaction observes its own uncommitted writes immediately.
    pub fn get(&self, key: &[u8]) -> (r: Option<&Vec<u8>>)
        requires
            self.wf(),
        ensures
            match r {
                Some(v) => self@.contains_key(key@) && v@ == self@[key@],
                None => !self@.contains_key(key@),
            },
    {
        self.txn.snapshot.get(key)
    }

    /// Map the given key to the given value in this transaction. Fails
    /// with `ChildActive`, changing nothing, while a child is live.
    pub fn put(&mut self, key: &[u8], value: &[u8]) -> (r: Result<(), EngineError>)
        requires
            old(self).wf(),
        ensures
            final(self).wf(),
            final(self).child_open() == old(self).child_open(),
            final(self).is_nested() == old(self).is_nested(),
            final(self).env_id() == old(self).env_id(),
            old(self).child_open() ==> (r matches Err(e) && e == EngineError::ChildActive)
                && final(self)@ == old(self)@,
            !old(self).child_open() ==> r is Ok && final(self)@ == old(self)@.insert(key@, value@),
    {
        if self.child {
            return Err(EngineError::ChildActive);
        }
        self.txn.snapshot.put(key, value);
        Ok(())
    }

    /// Remove the given key from this transaction; returns whether it was
    /// present. Fails with `ChildActive`, changing nothing, while a child
    /// is live.
    pub fn del(&mut self, key: &[u8]) -> (r: Result<bool, EngineError>)
        requires
            old(self).wf(),
        ensures
            final(self).wf(),
            final(self).child_open() == old(self).child_open(),
            final(self).is_nested() == old(self).is_nested(),
            final(self).env_id() == old(self).env_id(),
            old(self).child_open() ==> (r matches Err(e) && e == EngineError::ChildActive)
                && final(self)@ == old(self)@,
            !old(self).child_open() ==> final(self)@ == old(self)@.remove(key@) && (r matches Ok(found)
                && (found <==> old(self)@.contains_key(key@))),
    {
        if self.child {
            return Err(EngineError::ChildActive);
        }
        Ok(self.txn.snapshot.del(key))
    }

    /// Commit all the operations of the transaction into the environment
    /// it was begun on: afterwards the committed contents are exactly
    /// this transaction's map, and the environment accepts a new writer.
    /// Consumes the transaction. Only a top-level transaction whose
    /// children have all ended may commit.
    pub fn commit(self, env: &mut Env) -> (r: Result<(), EngineError>)
        requires
            self.wf(),
            !self.is_nested(),
            !self.child_open(),
            self.env_id() == old(env).env_id(),
        ensures
            r is Ok,
            final(env).wf(),
            final(env)@ == self@,
            !final(env).writer_active(),
            final(env).nested_read_enabled() == old(env).nested_read_enabled(),
            final(env).env_id() == old(env).env_id(),
    {
        let RwTxn { txn, .. } = self;
        env.data = txn.snapshot;
        env.write_open = false;
        Ok(())
    }

    /// Abandon all the operations of the transaction instead of saving
    /// them: the committed contents are untouched and the environment it
    /// was begun on accepts a new writer. Consumes the transaction. Only
    /// a top-level transaction whose children have all ended may abort.
    pub fn abort(self, env: &mut Env)
        requires
            !self.is_nested(),
            !self.child_open(),
            self.env_id() == old(env).env_id(),
        ensures
            final(env).wf() == old(env).wf(),
            final(env)@ == old(env)@,
            !final(env).writer_active(),
            final(env).nested_read_enabled() == old(env).nested_read_enabled(),
            final(env).env_id() == old(env).env_id(),
    {
        env.write_open = false;
    }

    /// Commit a nested transaction: fold its writes into the parent,
    /// which afterwards observes exactly the child's map. The writes are
    /// not yet durable; they become so when the top-level ancestor
    /// commits. Consumes the child and releases the parent for use.
    pub fn commit_nested(self, parent: &mut RwTxn) -> (r: Result<(), EngineError>)
        requires
            self.wf(),
            self.is_nested(),
            !self.child_open(),
            self.env_id() == old(parent).env_id(),
            old(parent).child_open(),
        ensures
            r is Ok,
            final(parent).wf(),
            final(parent)@ == self@,
            !final(parent).child_open(),
            final(parent).is_nested() == old(parent).is_nested(),
            final(parent).env_id() == old(parent).env_id(),
    {
        let RwTxn { txn, .. } = self;
        parent.txn.snapshot = txn.snapshot;
        parent.child = false;
        Ok(())
    }

    /// Abort a nested transaction: every write made through the child is
    /// discarded and the parent, released for use, observes exactly what
    /// it observed before the child began. Consumes the child.
    pub fn abort_nested(self, parent: &mut RwTxn)
        requires
            self.is_nested(),
            !self.child_open(),
            self.env_id() == old(parent).env_id(),
            old(parent).child_open(),
        ensures
            final(parent).wf() == old(parent).wf(),
            final(parent)@ == old(parent)@,
            !final(parent).child_open(),
            final(parent).is_nested() == old(parent).is_nested(),
            final(parent).env_id() == old(parent).env_id(),
    {
        parent.child = false;
    }
}

} // verus!
