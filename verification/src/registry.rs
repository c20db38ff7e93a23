use vstd::prelude::*;
use vstd::string::StringExecFns;

verus! {

/// The four native subsystems, named in their fixed registration order.
#[derive(Clone, Copy, PartialEq, Eq, Structural, Debug)]
pub enum Subsystem {
    Ai,
    Worker,
    Store,
    Kv,
}

/// One operation as a subsystem declares it: the name it wants in the
/// shared namespace, and an identifier for the host-side handler that
/// implements it.
#[derive(Debug)]
pub struct OperationDecl {
    pub name: String,
    pub handler: u64,
}

/// One installed operation: a name unique across the namespace, the
/// subsystem that owns it, and its handler identifier. Immutable once
/// installed.
#[derive(Debug)]
pub struct ExportedOperation {
    pub name: String,
    pub subsystem: Subsystem,
    pub handler: u64,
}

/// A fatal registration collision: `name` was already installed when
/// `subsystem` tried to claim it.
#[derive(Debug)]
pub struct RegistrationError {
    pub name: String,
    pub subsystem: Subsystem,
}

impl RegistrationError {
    /// The message text this error renders to at the boundary.
    pub open spec fn message_view(self) -> Seq<char> {
        "duplicate operation name: "@ + self.name@
    }

    /// Render the error as the boundary's message string.
    pub fn message(&self) -> (m: String)
        ensures
            m@ == self.message_view(),
    {
        let mut m = String::from_str("duplicate operation name: ");
        m.append(self.name.as_str());
        m
    }
}

/// Whether some installed operation already carries `name`.
pub open spec fn has_name(ops: Seq<ExportedOperation>, name: Seq<char>) -> bool {
    exists|i: int| 0 <= i < ops.len() && ops[i].name@ == name
}

/// No two installed operations share a name.
pub open spec fn unique_names(ops: Seq<ExportedOperation>) -> bool {
    forall|i: int, j: int| 0 <= i < j < ops.len() ==> ops[i].name@ != ops[j].name@
}

/// The operation that installing `decl` for `subsystem` creates.
pub open spec fn exported(subsystem: Subsystem, decl: OperationDecl) -> ExportedOperation {
    ExportedOperation { name: decl.name, subsystem: subsystem, handler: decl.handler }
}

/// The outcome of installing `decls` for one subsystem onto `ops`, in
/// declared order and stopping at the first collision: the resulting
/// operations, and the colliding declaration if there was one. Operations
/// installed before a collision stay installed: there is no rollback.
pub open spec fn install_outcome(
    ops: Seq<ExportedOperation>,
    subsystem: Subsystem,
    decls: Seq<OperationDecl>,
) -> (Seq<ExportedOperation>, Option<OperationDecl>)
    decreases decls.len(),
{
    if decls.len() == 0 {
        (ops, None)
    } else if has_name(ops, decls[0].name@) {
        (ops, Some(decls[0]))
    } else {
        install_outcome(ops.push(exported(subsystem, decls[0])), subsystem, decls.skip(1))
    }
}

/// The shared host-visible namespace: every installed operation, in
/// installation order, with names unique throughout.
#[derive(Debug)]
pub struct Registry {
    pub ops: Vec<ExportedOperation>,
}

impl Registry {
    /// The namespace invariant: no two operations share a name.
    pub open spec fn wf(self) -> bool {
        unique_names(self.ops@)
    }

    pub fn new() -> (r: Registry)
        ensures
            r.ops@ == Seq::<ExportedOperation>::empty(),
            r.wf(),
    {
        Registry { ops: Vec::new() }
    }

    /// Whether `name` is already taken in the namespace.
    pub fn contains_name(&self, name: &String) -> (r: bool)
        ensures
            r == has_name(self.ops@, name@),
    {
        let mut i: usize = 0;
        while i < self.ops.len()
            invariant
                0 <= i <= self.ops@.len(),
                forall|k: int| 0 <= k < i ==> self.ops@[k].name@ != name@,
            decreases self.ops@.len() - i,
        {
            if self.ops[i].name == *name {
                return true;
            }
            i += 1;
        }
        false
    }

    /// Install one operation for `subsystem`. A name collision is a fatal
    /// error that leaves the registry unchanged: the first registrant keeps
    /// the name, never a silent overwrite.
    pub fn register(&mut self, subsystem: Subsystem, decl: OperationDecl) -> (r: Result<
        (),
        RegistrationError,
    >)
        requires
            old(self).wf(),
        ensures
            final(self).wf(),
            has_name(old(self).ops@, decl.name@) ==> {
                &&& r matches Err(e) && e.name@ == decl.name@ && e.subsystem == subsystem
                &&& final(self).ops@ == old(self).ops@
            },
            !has_name(old(self).ops@, decl.name@) ==> {
                &&& r is Ok
                &&& final(self).ops@ == old(self).ops@.push(exported(subsystem, decl))
            },
    {
        if self.contains_name(&decl.name) {
            Err(RegistrationError { name: decl.name, subsystem: subsystem })
        } else {
            let ghost old_ops = self.ops@;
            let op = ExportedOperation {
                name: decl.name,
                subsystem: subsystem,
                handler: decl.handler,
            };
            self.ops.push(op);
            proof {
                assert forall|i: int, j: int|
                    0 <= i < j < self.ops@.len() implies self.ops@[i].name@
                    != self.ops@[j].name@ by {
                    if j < old_ops.len() {
                        assert(self.ops@[i] == old_ops[i]);
                        assert(self.ops@[j] == old_ops[j]);
                    } else {
                        assert(self.ops@[i] == old_ops[i]);
                        assert(!has_name(old_ops, self.ops@[j].name@));
                    }
                }
            }
            Ok(())
        }
    }

    /// Install every declared operation of one subsystem, in declared
    /// order, stopping at the first collision. Operations installed before
    /// the failure stay installed: there is no rollback.
    pub fn register_subsystem(&mut self, subsystem: Subsystem, decls: Vec<OperationDecl>) -> (r:
        Result<(), RegistrationError>)
        requires
            old(self).wf(),
        ensures
            final(self).wf(),
            final(self).ops@ == install_outcome(old(self).ops@, subsystem, decls@).0,
            match install_outcome(old(self).ops@, subsystem, decls@).1 {
                None => r is Ok,
                Some(d) => r matches Err(e) && e.name@ == d.name@ && e.subsystem == subsystem,
            },
    {
        proof {
            assert(decls@.skip(0) =~= decls@);
        }
        let mut i: usize = 0;
        while i < decls.len()
            invariant
                self.wf(),
                0 <= i <= decls@.len(),
                install_outcome(old(self).ops@, subsystem, decls@) == install_outcome(
                    self.ops@,
                    subsystem,
                    decls@.skip(i as int),
                ),
            decreases decls@.len() - i,
        {
            let d = OperationDecl { name: decls[i].name.clone(), handler: decls[i].handler };
            proof {
                let rest = decls@.skip(i as int);
                assert(rest[0] == decls@[i as int]);
                assert(rest.skip(1) =~= decls@.skip(i as int + 1));
            }
            match self.register(subsystem, d) {
                Ok(()) => {
                    i += 1;
                },
                Err(e) => {
                    return Err(e);
                },
            }
        }
        proof {
            assert(decls@.skip(i as int) =~= Seq::<OperationDecl>::empty());
        }
        Ok(())
    }
}

/// The outcome of installing the four subsystems' declarations onto `ops`
/// in the fixed order AI, Worker, Store, KV, failing fast: the resulting
/// operations, and the first colliding declaration with its claimant, if
/// any. Operations installed before a failure stay installed.
pub open spec fn coordinate_outcome(
    ops: Seq<ExportedOperation>,
    ai: Seq<OperationDecl>,
    worker: Seq<OperationDecl>,
    store: Seq<OperationDecl>,
    kv: Seq<OperationDecl>,
) -> (Seq<ExportedOperation>, Option<(Subsystem, OperationDecl)>) {
    let r1 = install_outcome(ops, Subsystem::Ai, ai);
    match r1.1 {
        Some(d) => (r1.0, Some((Subsystem::Ai, d))),
        None => {
            let r2 = install_outcome(r1.0, Subsystem::Worker, worker);
            match r2.1 {
                Some(d) => (r2.0, Some((Subsystem::Worker, d))),
                None => {
                    let r3 = install_outcome(r2.0, Subsystem::Store, store);
                    match r3.1 {
                        Some(d) => (r3.0, Some((Subsystem::Store, d))),
                        None => {
                            let r4 = install_outcome(r3.0, Subsystem::Kv, kv);
                            match r4.1 {
                                Some(d) => (r4.0, Some((Subsystem::Kv, d))),
                                None => (r4.0, None),
                            }
                        },
                    }
                },
            }
        },
    }
}

/// Install all four subsystems' declared operations into `registry`, in the
/// fixed order AI, Worker, Store, KV, stopping at the first name collision
/// and propagating it as a fatal error. Operations installed before the
/// failure are not rolled back: a failed registration aborts module
/// initialization as a whole.
pub fn register_exported_functions(
    registry: &mut Registry,
    ai: Vec<OperationDecl>,
    worker: Vec<OperationDecl>,
    store: Vec<OperationDecl>,
    kv: Vec<OperationDecl>,
) -> (r: Result<(), RegistrationError>)
    requires
        old(registry).wf(),
    ensures
        final(registry).wf(),
        final(registry).ops@ == coordinate_outcome(old(registry).ops@, ai@, worker@, store@, kv@).0,
        match coordinate_outcome(old(registry).ops@, ai@, worker@, store@, kv@).1 {
            None => r is Ok,
            Some(c) => r matches Err(e) && e.subsystem == c.0 && e.name@ == c.1.name@,
        },
{
    registry.register_subsystem(Subsystem::Ai, ai)?;
    registry.register_subsystem(Subsystem::Worker, worker)?;
    registry.register_subsystem(Subsystem::Store, store)?;
    registry.register_subsystem(Subsystem::Kv, kv)?;
    Ok(())
}

/// The names of the installed operations, in installation order.
pub open spec fn op_names(ops: Seq<ExportedOperation>) -> Seq<Seq<char>> {
    ops.map_values(|o: ExportedOperation| o.name@)
}

/// The names of the declared operations, in declared order.
pub open spec fn decl_names(decls: Seq<OperationDecl>) -> Seq<Seq<char>> {
    decls.map_values(|d: OperationDecl| d.name@)
}

/// No two entries of `names` are equal.
pub open spec fn distinct(names: Seq<Seq<char>>) -> bool {
    forall|i: int, j: int| 0 <= i < j < names.len() ==> names[i] != names[j]
}

/// Every name in play when the four subsystems register onto `ops`: the
/// already-installed ones, then each subsystem's declared ones, in the
/// fixed registration order.
pub open spec fn all_names(
    ops: Seq<ExportedOperation>,
    ai: Seq<OperationDecl>,
    worker: Seq<OperationDecl>,
    store: Seq<OperationDecl>,
    kv: Seq<OperationDecl>,
) -> Seq<Seq<char>> {
    op_names(ops) + decl_names(ai) + decl_names(worker) + decl_names(store) + decl_names(kv)
}

proof fn lemma_unique_names_distinct(ops: Seq<ExportedOperation>)
    ensures
        unique_names(ops) <==> distinct(op_names(ops)),
{
    if unique_names(ops) {
        assert forall|i: int, j: int|
            0 <= i < j < op_names(ops).len() implies op_names(ops)[i] != op_names(ops)[j] by {
            assert(ops[i].name@ != ops[j].name@);
        }
    }
    if distinct(op_names(ops)) {
        assert forall|i: int, j: int| 0 <= i < j < ops.len() implies ops[i].name@
            != ops[j].name@ by {
            assert(op_names(ops)[i] != op_names(ops)[j]);
        }
    }
}

proof fn lemma_distinct_prefix(a: Seq<Seq<char>>, b: Seq<Seq<char>>)
    ensures
        distinct(a + b) ==> distinct(a),
{
    if distinct(a + b) {
        assert forall|i: int, j: int| 0 <= i < j < a.len() implies a[i] != a[j] by {
            assert((a + b)[i] == a[i]);
            assert((a + b)[j] == a[j]);
        }
    }
}

proof fn lemma_install_detects(
    ops: Seq<ExportedOperation>,
    subsystem: Subsystem,
    decls: Seq<OperationDecl>,
)
    requires
        unique_names(ops),
    ensures
        unique_names(install_outcome(ops, subsystem, decls).0),
        install_outcome(ops, subsystem, decls).1 is None <==> distinct(
            op_names(ops) + decl_names(decls),
        ),
        install_outcome(ops, subsystem, decls).1 is None ==> op_names(
            install_outcome(ops, subsystem, decls).0,
        ) == op_names(ops) + decl_names(decls),
    decreases decls.len(),
{
    lemma_unique_names_distinct(ops);
    if decls.len() == 0 {
        assert(op_names(ops) + decl_names(decls) =~= op_names(ops));
    } else if has_name(ops, decls[0].name@) {
        let full = op_names(ops) + decl_names(decls);
        let i = choose|i: int| 0 <= i < ops.len() && ops[i].name@ == decls[0].name@;
        assert(full[i] == ops[i].name@);
        assert(full[ops.len() as int] == decls[0].name@);
        assert(!distinct(full));
    } else {
        let ops2 = ops.push(exported(subsystem, decls[0]));
        assert forall|i: int, j: int| 0 <= i < j < ops2.len() implies ops2[i].name@
            != ops2[j].name@ by {
            if j < ops.len() {
                assert(ops2[i] == ops[i]);
                assert(ops2[j] == ops[j]);
            } else {
                assert(ops2[i] == ops[i]);
                assert(!has_name(ops, ops2[j].name@));
            }
        }
        lemma_install_detects(ops2, subsystem, decls.skip(1));
        assert(op_names(ops2) + decl_names(decls.skip(1)) =~= op_names(ops) + decl_names(decls));
    }
}

/// Name collisions are always detected, and a taken name is never silently
/// overwritten: coordinating the four subsystems' declarations onto a
/// well-formed namespace succeeds exactly when every name in play — the
/// already-installed ones and those declared by AI, Worker, Store and KV
/// together — is distinct; on success the namespace carries exactly those
/// names, in installation order; and the namespace's names stay unique
/// whether coordination succeeds or fails.
pub proof fn lemma_collisions_detected(
    ops: Seq<ExportedOperation>,
    ai: Seq<OperationDecl>,
    worker: Seq<OperationDecl>,
    store: Seq<OperationDecl>,
    kv: Seq<OperationDecl>,
)
    requires
        unique_names(ops),
    ensures
        unique_names(coordinate_outcome(ops, ai, worker, store, kv).0),
        coordinate_outcome(ops, ai, worker, store, kv).1 is None <==> distinct(
            all_names(ops, ai, worker, store, kv),
        ),
        coordinate_outcome(ops, ai, worker, store, kv).1 is None ==> op_names(
            coordinate_outcome(ops, ai, worker, store, kv).0,
        ) == all_names(ops, ai, worker, store, kv),
{
    let p1 = op_names(ops) + decl_names(ai);
    let p2 = p1 + decl_names(worker);
    let p3 = p2 + decl_names(store);
    let p4 = p3 + decl_names(kv);
    assert(all_names(ops, ai, worker, store, kv) == p4);
    lemma_distinct_prefix(p3, decl_names(kv));
    lemma_distinct_prefix(p2, decl_names(store));
    lemma_distinct_prefix(p1, decl_names(worker));

    let r1 = install_outcome(ops, Subsystem::Ai, ai);
    lemma_install_detects(ops, Subsystem::Ai, ai);
    if r1.1 is Some {
        assert(!distinct(p1));
    } else {
        let r2 = install_outcome(r1.0, Subsystem::Worker, worker);
        lemma_install_detects(r1.0, Subsystem::Worker, worker);
        assert(op_names(r1.0) + decl_names(worker) == p2);
        if r2.1 is Some {
            assert(!distinct(p2));
        } else {
            let r3 = install_outcome(r2.0, Subsystem::Store, store);
            lemma_install_detects(r2.0, Subsystem::Store, store);
            assert(op_names(r2.0) + decl_names(store) == p3);
            if r3.1 is Some {
                assert(!distinct(p3));
            } else {
                let r4 = install_outcome(r3.0, Subsystem::Kv, kv);
                lemma_install_detects(r3.0, Subsystem::Kv, kv);
                assert(op_names(r3.0) + decl_names(kv) == p4);
            }
        }
    }
}

} // verus!
