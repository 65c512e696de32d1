use vstd::prelude::*;

verus! {

/// The host functions an op name can be bound to.
#[derive(Clone, Copy, Debug, PartialEq, Eq, Structural)]
pub enum OpHandler {
    Start,
    Metrics,
}

/// Whether an op answers within the call or later through a completion.
#[derive(Clone, Copy, Debug, PartialEq, Eq, Structural)]
pub enum OpMode {
    Sync,
    Async,
}

#[derive(Clone, Copy, Debug, PartialEq, Eq, Structural)]
pub enum RegistryError {
    DuplicateOp,
}

/// Why a dispatched call was rejected.
#[derive(Clone, Copy, Debug, PartialEq, Eq, Structural)]
pub enum DispatchError {
    UnknownOp,
    EncodingError,
}

pub struct Operation {
    pub name: String,
    pub handler: OpHandler,
    pub mode: OpMode,
}

/// Registry after a call of `register`, with its result.
pub open spec fn register_model(
    m: Map<Seq<char>, (OpHandler, OpMode)>,
    name: Seq<char>,
    handler: OpHandler,
    mode: OpMode,
) -> (Result<(), RegistryError>, Map<Seq<char>, (OpHandler, OpMode)>) {
    if m.contains_key(name) {
        (Err(RegistryError::DuplicateOp), m)
    } else {
        (Ok(()), m.insert(name, (handler, mode)))
    }
}

/// What `resolve` returns for a name.
pub open spec fn resolve_model(
    m: Map<Seq<char>, (OpHandler, OpMode)>,
    name: Seq<char>,
) -> Result<(OpHandler, OpMode), DispatchError> {
    if m.contains_key(name) {
        Ok(m[name])
    } else {
        Err(DispatchError::UnknownOp)
    }
}

/// Maps op names to handlers; a name is bound at most once.
pub struct OpRegistry {
    ops: Vec<Operation>,
}

impl OpRegistry {
    pub closed spec fn has(&self, name: Seq<char>) -> bool {
        exists|i: int| 0 <= i < self.ops@.len() && #[trigger] self.ops@[i].name@ == name
    }

    closed spec fn entry(&self, name: Seq<char>) -> (OpHandler, OpMode) {
        let i = choose|i: int| 0 <= i < self.ops@.len() && #[trigger] self.ops@[i].name@ == name;
        (self.ops@[i].handler, self.ops@[i].mode)
    }

    pub closed spec fn wf(&self) -> bool {
        forall|i: int, j: int|
            0 <= i < j < self.ops@.len() ==> #[trigger] self.ops@[i].name@ != #[trigger] self.ops@[j].name@
    }

    proof fn lemma_entry_at(&self, i: int)
        requires
            self.wf(),
            0 <= i < self.ops@.len(),
        ensures
            self.has(self.ops@[i].name@),
            self.entry(self.ops@[i].name@) == (self.ops@[i].handler, self.ops@[i].mode),
    {
        let name = self.ops@[i].name@;
        assert(self.ops@[i].name@ == name);
        let k = choose|k: int| 0 <= k < self.ops@.len() && #[trigger] self.ops@[k].name@ == name;
        if k < i {
            assert(self.ops@[k].name@ != self.ops@[i].name@);
        } else if i < k {
            assert(self.ops@[i].name@ != self.ops@[k].name@);
        }
    }

    pub fn new() -> (r: OpRegistry)
        ensures
            r.wf(),
            r@ == Map::<Seq<char>, (OpHandler, OpMode)>::empty(),
    {
        let r = OpRegistry { ops: Vec::new() };
        assert(r@ =~= Map::<Seq<char>, (OpHandler, OpMode)>::empty());
        r
    }

    fn find(&self, name: &String) -> (r: Option<usize>)
        requires
            self.wf(),
        ensures
            r is None ==> !self.has(name@),
            r matches Some(i) ==> i < self.ops@.len() && self.ops@[i as int].name@ == name@,
    {
        let mut i: usize = 0;
        while i < self.ops.len()
            invariant
                i <= self.ops@.len(),
                forall|k: int| 0 <= k < i ==> #[trigger] self.ops@[k].name@ != name@,
            decreases self.ops@.len() - i,
        {
            if self.ops[i].name == *name {
                return Some(i);
            }
            i = i + 1;
        }
        None
    }

    /// Binds `name` to `handler`. Fails with `DuplicateOp`, leaving the
    /// registry as it was, when the name is already bound.
    pub fn register(&mut self, name: &str, handler: OpHandler, mode: OpMode) -> (r: Result<(), RegistryError>)
        requires
            old(self).wf(),
        ensures
            final(self).wf(),
            (r, final(self)@) == register_model(old(self)@, name@, handler, mode),
    {
        let key = name.to_owned();
        match self.find(&key) {
            Some(i) => {
                proof {
                    self.lemma_entry_at(i as int);
                }
                Err(RegistryError::DuplicateOp)
            },
            None => {
                let ghost prev = *self;
                self.ops.push(Operation { name: key, handler, mode });
                proof {
                    let n = self.ops@.len() - 1;
                    assert forall|i: int, j: int|
                        0 <= i < j < self.ops@.len() implies #[trigger] self.ops@[i].name@
                            != #[trigger] self.ops@[j].name@ by {
                        if j == n {
                            assert(prev.ops@[i] == self.ops@[i]);
                        } else {
                            assert(prev.ops@[i] == self.ops@[i]);
                            assert(prev.ops@[j] == self.ops@[j]);
                        }
                    }
                    assert forall|m: Seq<char>| #[trigger] self.has(m) == (prev.has(m) || m == name@) by {
                        if prev.has(m) {
                            let k = choose|k: int| 0 <= k < prev.ops@.len() && #[trigger] prev.ops@[k].name@ == m;
                            assert(self.ops@[k] == prev.ops@[k]);
                        }
                        if m == name@ {
                            assert(self.ops@[n].name@ == m);
                        }
                        if self.has(m) && m != name@ {
                            let k = choose|k: int| 0 <= k < self.ops@.len() && #[trigger] self.ops@[k].name@ == m;
                            assert(prev.ops@[k] == self.ops@[k]);
                        }
                    }
                    self.lemma_entry_at(n);
                    assert forall|m: Seq<char>| prev.has(m) implies #[trigger] self.entry(m) == prev.entry(m) by {
                        let k = choose|k: int| 0 <= k < prev.ops@.len() && #[trigger] prev.ops@[k].name@ == m;
                        prev.lemma_entry_at(k);
                        assert(self.ops@[k] == prev.ops@[k]);
                        self.lemma_entry_at(k);
                    }
                    assert(self@ =~= prev@.insert(name@, (handler, mode)));
                }
                Ok(())
            },
        }
    }

    /// Looks up the handler bound to `name`; `UnknownOp` when none is.
    pub fn resolve(&self, name: &str) -> (r: Result<(OpHandler, OpMode), DispatchError>)
        requires
            self.wf(),
        ensures
            r == resolve_model(self@, name@),
    {
        let key = name.to_owned();
        match self.find(&key) {
            Some(i) => {
                proof {
                    self.lemma_entry_at(i as int);
                }
                Ok((self.ops[i].handler, self.ops[i].mode))
            },
            None => Err(DispatchError::UnknownOp),
        }
    }
}

impl View for OpRegistry {
    type V = Map<Seq<char>, (OpHandler, OpMode)>;

    closed spec fn view(&self) -> Map<Seq<char>, (OpHandler, OpMode)> {
        Map::new(|n: Seq<char>| self.has(n), |n: Seq<char>| self.entry(n))
    }
}

/// Registering a name a second time fails with `DuplicateOp`, changes
/// nothing, and the name still resolves to what was bound first.
pub proof fn lemma_duplicate_registration(
    m: Map<Seq<char>, (OpHandler, OpMode)>,
    name: Seq<char>,
    h1: OpHandler,
    m1: OpMode,
    h2: OpHandler,
    m2: OpMode,
)
    requires
        !m.contains_key(name),
    ensures
        ({
            let (r1, a) = register_model(m, name, h1, m1);
            let (r2, b) = register_model(a, name, h2, m2);
            &&& r1 == Ok::<(), RegistryError>(())
            &&& r2 == Err::<(), RegistryError>(RegistryError::DuplicateOp)
            &&& b == a
            &&& resolve_model(b, name) == Ok::<(OpHandler, OpMode), DispatchError>((h1, m1))
        }),
{
}

} // verus!
