//! The statement registry and its bootstrap. At startup the process runs
//! each declared schema script in order, then compiles each declared query
//! in order, failing fast on the first error with the name of the
//! offending script. Only a bootstrap that completed every step yields a
//! registry; a failed bootstrap leaves no partial statement set usable.
//! The registry owns the single store connection and the mapping from
//! statement name to compiled statement for the life of the process.
//!
//! The connection handle, the compiled statement handles and the calls
//! that drive them belong to the store driver; the surrounding process
//! performs those calls and feeds their outcomes back into this state
//! machine as events.

use vstd::prelude::*;

verus! {

/// One declared script: a name for error reporting and the source text the
/// store is given.
pub struct ScriptSpec {
    pub name: String,
    pub source: String,
}

/// A startup failure: the name of the script that failed and the message
/// the store reported. Fatal — the process exits before any request is
/// served.
pub struct BootstrapError {
    script: String,
    detail: String,
}

impl BootstrapError {
    /// The spec view: the failing script's name and the reported detail.
    pub closed spec fn view(&self) -> (Seq<char>, Seq<char>) {
        (self.script@, self.detail@)
    }

    /// The name of the offending script.
    pub fn script(&self) -> (r: &String)
        ensures
            r@ == self@.0,
    {
        &self.script
    }

    /// The message the store reported.
    pub fn detail(&self) -> (r: &String)
        ensures
            r@ == self@.1,
    {
        &self.detail
    }
}

/// The bootstrap state machine, generic in the compiled statement handle
/// `S`. It walks the declared schema scripts first, then the declared
/// queries; the process reports each outcome, and the machine decides what
/// comes next and when the whole bootstrap has failed.
pub struct Bootstrap<S> {
    schemas: Vec<ScriptSpec>,
    queries: Vec<ScriptSpec>,
    schemas_done: usize,
    compiled: Vec<S>,
    failed: bool,
}

impl<S> Bootstrap<S> {
    /// The declared schema scripts, in order.
    pub closed spec fn schemas(&self) -> Seq<ScriptSpec> {
        self.schemas@
    }

    /// The declared queries, in order.
    pub closed spec fn queries(&self) -> Seq<ScriptSpec> {
        self.queries@
    }

    /// How many schema scripts have run successfully.
    pub closed spec fn schemas_done(&self) -> int {
        self.schemas_done as int
    }

    /// The statements compiled so far, parallel to the first queries.
    pub closed spec fn compiled(&self) -> Seq<S> {
        self.compiled@
    }

    /// Whether some script has failed: the bootstrap is over and no
    /// registry can come of it.
    pub closed spec fn has_failed(&self) -> bool {
        self.failed
    }

    /// Schema scripts run strictly before queries compile, and progress
    /// never passes the declared lists.
    pub open spec fn wf(&self) -> bool {
        &&& 0 <= self.schemas_done() <= self.schemas().len()
        &&& self.compiled().len() <= self.queries().len()
        &&& self.compiled().len() > 0 ==> self.schemas_done() == self.schemas().len()
    }

    /// Every declared step has succeeded: all schema scripts ran and every
    /// query compiled.
    pub open spec fn complete(&self) -> bool {
        &&& !self.has_failed()
        &&& self.schemas_done() == self.schemas().len()
        &&& self.compiled().len() == self.queries().len()
    }

    /// A bootstrap about to run: nothing done, nothing failed.
    pub fn new(schemas: Vec<ScriptSpec>, queries: Vec<ScriptSpec>) -> (r: Bootstrap<S>)
        ensures
            r.wf(),
            r.schemas() == schemas@,
            r.queries() == queries@,
            r.schemas_done() == 0,
            r.compiled() == Seq::<S>::empty(),
            !r.has_failed(),
    {
        let r = Bootstrap { schemas, queries, schemas_done: 0, compiled: Vec::new(), failed: false };
        proof {
            assert(r.compiled() =~= Seq::<S>::empty());
        }
        r
    }

    /// Whether a schema script is still owed to the store.
    pub fn schema_pending(&self) -> (r: bool)
        requires
            self.wf(),
        ensures
            r == (!self.has_failed() && self.schemas_done() < self.schemas().len()),
    {
        !self.failed && self.schemas_done < self.schemas.len()
    }

    /// The next schema script to run.
    pub fn next_schema(&self) -> (r: &ScriptSpec)
        requires
            self.wf(),
            !self.has_failed(),
            self.schemas_done() < self.schemas().len(),
        ensures
            *r == self.schemas()[self.schemas_done()],
    {
        &self.schemas[self.schemas_done]
    }

    /// The store ran the pending schema script without error.
    pub fn schema_ok(&mut self)
        requires
            old(self).wf(),
            !old(self).has_failed(),
            old(self).schemas_done() < old(self).schemas().len(),
        ensures
            final (self).wf(),
            final (self).schemas() == old(self).schemas(),
            final (self).queries() == old(self).queries(),
            final (self).schemas_done() == old(self).schemas_done() + 1,
            final (self).compiled() == old(self).compiled(),
            !final (self).has_failed(),
    {
        let n = self.schemas.len();
        assert(self.schemas_done < n);
        self.schemas_done = self.schemas_done + 1;
    }

    /// The store rejected the pending schema script: the bootstrap fails
    /// fast, naming the offending script.
    pub fn fail_schema(&mut self, detail: String) -> (e: BootstrapError)
        requires
            old(self).wf(),
            !old(self).has_failed(),
            old(self).schemas_done() < old(self).schemas().len(),
        ensures
            final (self).wf(),
            final (self).has_failed(),
            e@.0 == old(self).schemas()[old(self).schemas_done()].name@,
            e@.1 == detail@,
    {
        self.failed = true;
        let script = self.schemas[self.schemas_done].name.clone();
        BootstrapError { script, detail }
    }

    /// Whether a query is still owed its compilation. Queries only compile
    /// once every schema script has run.
    pub fn query_pending(&self) -> (r: bool)
        requires
            self.wf(),
        ensures
            r == (!self.has_failed() && self.schemas_done() == self.schemas().len()
                && self.compiled().len() < self.queries().len()),
    {
        !self.failed && self.schemas_done == self.schemas.len() && self.compiled.len()
            < self.queries.len()
    }

    /// The next query to compile.
    pub fn next_query(&self) -> (r: &ScriptSpec)
        requires
            self.wf(),
            !self.has_failed(),
            self.schemas_done() == self.schemas().len(),
            self.compiled().len() < self.queries().len(),
        ensures
            *r == self.queries()[self.compiled().len() as int],
    {
        &self.queries[self.compiled.len()]
    }

    /// The store compiled the pending query; the machine takes ownership
    /// of the statement handle.
    pub fn query_ok(&mut self, statement: S)
        requires
            old(self).wf(),
            !old(self).has_failed(),
            old(self).schemas_done() == old(self).schemas().len(),
            old(self).compiled().len() < old(self).queries().len(),
        ensures
            final (self).wf(),
            final (self).schemas() == old(self).schemas(),
            final (self).queries() == old(self).queries(),
            final (self).schemas_done() == old(self).schemas_done(),
            final (self).compiled() == old(self).compiled().push(statement),
            !final (self).has_failed(),
    {
        self.compiled.push(statement);
    }

    /// The store rejected the pending query: the bootstrap fails fast,
    /// naming the offending script.
    pub fn fail_query(&mut self, detail: String) -> (e: BootstrapError)
        requires
            old(self).wf(),
            !old(self).has_failed(),
            old(self).schemas_done() == old(self).schemas().len(),
            old(self).compiled().len() < old(self).queries().len(),
        ensures
            final (self).wf(),
            final (self).has_failed(),
            e@.0 == old(self).queries()[old(self).compiled().len() as int].name@,
            e@.1 == detail@,
    {
        self.failed = true;
        let script = self.queries[self.compiled.len()].name.clone();
        BootstrapError { script, detail }
    }

    /// Whether every declared step has succeeded.
    pub fn is_complete(&self) -> (r: bool)
        requires
            self.wf(),
        ensures
            r == self.complete(),
    {
        !self.failed && self.schemas_done == self.schemas.len() && self.compiled.len()
            == self.queries.len()
    }

    /// Seals a completed bootstrap into the registry, handing it the one
    /// store connection. This is the only way to obtain a registry, and it
    /// demands completeness: a bootstrap that failed — or skipped a step —
    /// yields nothing, so no partial statement set is ever usable.
    pub fn finish<C>(self, connection: C) -> (r: Registry<C, S>)
        requires
            self.wf(),
            self.complete(),
        ensures
            r.wf(),
            r.names().len() == self.queries().len(),
            forall|i: int|
                0 <= i < self.queries().len() ==> #[trigger] r.names()[i]
                    == self.queries()[i].name@,
            r.statements() == self.compiled(),
    {
        let mut names: Vec<String> = Vec::new();
        let n = self.queries.len();
        let queries = self.queries;
        let mut i: usize = 0;
        while i < n
            invariant
                i <= n,
                n == queries@.len(),
                names@.len() == i,
                forall|j: int| 0 <= j < i ==> #[trigger] names@[j]@ == queries@[j].name@,
            decreases n - i,
        {
            names.push(queries[i].name.clone());
            i += 1;
        }
        Registry { connection, names, statements: self.compiled }
    }
}

/// Bootstrap is all-or-nothing: once any declared script has failed, the
/// bootstrap can never count as complete, and since only a complete
/// bootstrap seals into a registry, no partial statement set is ever
/// served. Likewise nothing is complete while a schema script or a query
/// compilation is still owed.
pub proof fn lemma_bootstrap_all_or_nothing<S>(b: Bootstrap<S>)
    requires
        b.wf(),
        b.has_failed() || b.schemas_done() < b.schemas().len() || b.compiled().len()
            < b.queries().len(),
    ensures
        !b.complete(),
{
}

/// The index of the first name equal to `name`, or the length of the list
/// when none matches.
pub open spec fn spec_name_index(names: Seq<Seq<char>>, name: Seq<char>) -> int
    decreases names.len(),
{
    if names.len() == 0 {
        0
    } else if names[0] == name {
        0
    } else {
        1 + spec_name_index(names.drop_first(), name)
    }
}

/// A scan that rejected every name below `i` and stopped at `i` found the
/// first match.
proof fn lemma_name_index_from_scan(names: Seq<Seq<char>>, name: Seq<char>, i: int)
    requires
        0 <= i <= names.len(),
        forall|j: int| 0 <= j < i ==> #[trigger] names[j] != name,
        i < names.len() ==> names[i] == name,
    ensures
        spec_name_index(names, name) == i,
    decreases i,
{
    if i > 0 {
        lemma_name_index_from_scan(names.drop_first(), name, i - 1);
    }
}

/// A name taken from the list itself is always found, at its own position
/// or an earlier one.
proof fn lemma_own_name_found(names: Seq<Seq<char>>, i: int)
    requires
        0 <= i < names.len(),
    ensures
        spec_name_index(names, names[i]) <= i,
    decreases i,
{
    if names[0] != names[i] {
        lemma_own_name_found(names.drop_first(), i - 1);
    }
}

/// After a completed bootstrap every declared statement name resolves:
/// a handler that uses a declared name can never find it absent, so
/// absence at request time is a programming error, not a runtime
/// condition.
pub proof fn lemma_registry_serves_every_declared_name<C, S>(r: &Registry<C, S>)
    requires
        r.wf(),
    ensures
        forall|i: int| 0 <= i < r.names().len() ==> r.spec_has(#[trigger] r.names()[i]),
{
    assert forall|i: int| 0 <= i < r.names().len() implies r.spec_has(#[trigger] r.names()[i]) by {
        lemma_own_name_found(r.names(), i);
    }
}

/// The registry: the single store connection the process owns, and the
/// mapping from statement name to compiled statement built by a completed
/// bootstrap. Immutable for the life of the process.
pub struct Registry<C, S> {
    connection: C,
    names: Vec<String>,
    statements: Vec<S>,
}

impl<C, S> Registry<C, S> {
    /// The statement names, in declared order.
    pub closed spec fn names(&self) -> Seq<Seq<char>> {
        self.names@.map(|i: int, s: String| s@)
    }

    /// The compiled statements, parallel to the names.
    pub closed spec fn statements(&self) -> Seq<S> {
        self.statements@
    }

    /// One statement per name.
    pub open spec fn wf(&self) -> bool {
        self.names().len() == self.statements().len()
    }

    /// Whether `name` is declared at all.
    pub open spec fn spec_has(&self, name: Seq<char>) -> bool {
        spec_name_index(self.names(), name) < self.names().len()
    }

    /// The connection the registry owns; every statement executes over it.
    pub fn connection(&self) -> &C {
        &self.connection
    }

    /// Looks the compiled statement up by name: the statement of the first
    /// declared query of that name, or nothing when the name was never
    /// declared. After a completed bootstrap every name a handler uses is
    /// declared, so absence is a programming error, not a runtime
    /// condition.
    pub fn statement(&self, name: &String) -> (r: Option<&S>)
        requires
            self.wf(),
        ensures
            self.spec_has(name@) ==> (r matches Some(s) && *s == self.statements()[
                spec_name_index(self.names(), name@)
            ]),
            !self.spec_has(name@) ==> r is None,
    {
        let n = self.names.len();
        let mut i: usize = 0;
        while i < n
            invariant
                i <= n,
                n == self.names@.len(),
                self.wf(),
                forall|j: int| 0 <= j < i ==> #[trigger] self.names()[j] != name@,
            decreases n - i,
        {
            if self.names[i] == *name {
                proof {
                    lemma_name_index_from_scan(self.names(), name@, i as int);
                }
                return Some(&self.statements[i]);
            }
            proof {
                assert(self.names()[i as int] == self.names@[i as int]@);
            }
            i += 1;
        }
        proof {
            lemma_name_index_from_scan(self.names(), name@, n as int);
        }
        None
    }
}

} // verus!
