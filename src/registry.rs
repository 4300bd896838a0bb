//! The handle registry: environments own connections, connections own
//! statements. Handles are indices into per-kind arenas that only grow, so a
//! freed handle's value never names another live object; every call checks it.
use vstd::prelude::*;
use vstd::string::*;
use crate::diag::{DiagRecord, Diagnostics, SqlReturn, SqlState};
use crate::conn_string::{join, opt_view, parse_spec, ConnAttributes};
use crate::connection::{
    config_error_state, options_agree, resolve_connection, resolve_error, ConnectOptions, ResolvedConnection,
};
use crate::statement::{
    backend_error_becomes, first_field, statement_error_state, value_text, BackendError, ColumnSpec, MongoQuery,
    MongoStatement, Row, StatementError, Value,
};
use crate::types::MongoColMetadata;
use crate::wide::{marshalled, truncates, write_to_buffer, Len, SQL_NO_TOTAL, SQL_NULL_DATA};
use crate::types::TypeMode;
use crate::wide::WideChar;

verus! {

/// The kinds of handle.
#[derive(Clone, Copy, Debug, PartialEq, Eq, Structural)]
pub enum HandleKind {
    Env,
    Conn,
    Stmt,
}

/// An opaque handle value: its kind and its place in that kind's arena.
#[derive(Clone, Copy, Debug, PartialEq, Eq, Structural)]
pub struct Handle {
    pub kind: HandleKind,
    pub index: usize,
}

/// What a value retrieval wrote and reported.
#[derive(Debug)]
pub struct DataResult {
    pub ret: SqlReturn,
    /// The units written into the caller's buffer, terminator included.
    pub written: Vec<WideChar>,
    /// The full length of the value, `SQL_NULL_DATA` for no value, or
    /// `SQL_NO_TOTAL` where the length cannot be reported.
    pub indicator: Len,
}

/// The indicator reported for a value of `n` units.
pub open spec fn length_indicator(n: nat) -> int {
    if n <= isize::MAX { n as int } else { SQL_NO_TOTAL as int }
}

#[derive(Debug)]
struct EnvSlot {
    live: bool,
    odbc_version: i32,
    diag: Diagnostics,
}

#[derive(Debug)]
struct ConnSlot {
    live: bool,
    env: usize,
    connected: bool,
    database: Option<Vec<WideChar>>,
    login_timeout: Option<u32>,
    type_mode: TypeMode,
    diag: Diagnostics,
}

#[derive(Debug)]
struct StmtSlot {
    live: bool,
    conn: usize,
    query_timeout: Option<u32>,
    statement: Option<MongoStatement>,
    diag: Diagnostics,
}

/// Every environment, connection and statement ever allocated.
#[derive(Debug)]
pub struct Registry {
    envs: Vec<EnvSlot>,
    conns: Vec<ConnSlot>,
    stmts: Vec<StmtSlot>,
}

impl Registry {
    /// Whether `h` names an object that was allocated and not freed.
    pub closed spec fn is_live(&self, h: Handle) -> bool {
        match h.kind {
            HandleKind::Env => h.index < self.envs@.len() && self.envs@[h.index as int].live,
            HandleKind::Conn => h.index < self.conns@.len() && self.conns@[h.index as int].live,
            HandleKind::Stmt => h.index < self.stmts@.len() && self.stmts@[h.index as int].live,
        }
    }

    /// Whether `h` was ever allocated.
    pub closed spec fn was_allocated(&self, h: Handle) -> bool {
        match h.kind {
            HandleKind::Env => h.index < self.envs@.len(),
            HandleKind::Conn => h.index < self.conns@.len(),
            HandleKind::Stmt => h.index < self.stmts@.len(),
        }
    }

    /// Whether `h` was allocated and then freed.
    pub open spec fn is_freed(&self, h: Handle) -> bool {
        self.was_allocated(h) && !self.is_live(h)
    }

    /// The arena index of the object that owns `h`: an environment for a
    /// connection, a connection for a statement.
    pub closed spec fn parent(&self, h: Handle) -> usize {
        match h.kind {
            HandleKind::Env => 0,
            HandleKind::Conn => self.conns@[h.index as int].env,
            HandleKind::Stmt => self.stmts@[h.index as int].conn,
        }
    }

    /// Whether `g` is owned by `h`, directly or through a connection.
    pub open spec fn owned_by(&self, g: Handle, h: Handle) -> bool {
        ||| (h.kind == HandleKind::Env && g.kind == HandleKind::Conn && self.parent(g) == h.index)
        ||| (h.kind == HandleKind::Env && g.kind == HandleKind::Stmt
            && self.parent(Handle { kind: HandleKind::Conn, index: self.parent(g) }) == h.index)
        ||| (h.kind == HandleKind::Conn && g.kind == HandleKind::Stmt && self.parent(g) == h.index)
    }

    /// The diagnostic records of `h`.
    pub closed spec fn diag(&self, h: Handle) -> Seq<DiagRecord> {
        match h.kind {
            HandleKind::Env => self.envs@[h.index as int].diag@,
            HandleKind::Conn => self.conns@[h.index as int].diag@,
            HandleKind::Stmt => self.stmts@[h.index as int].diag@,
        }
    }

    /// Whether connection `h` has a backend session.
    pub closed spec fn is_connected(&self, h: Handle) -> bool {
        h.kind == HandleKind::Conn && self.is_live(h) && self.conns@[h.index as int].connected
    }

    /// The executed statement of statement handle `h`, if any.
    pub closed spec fn statement(&self, h: Handle) -> Option<MongoStatement> {
        if h.kind == HandleKind::Stmt { self.stmts@[h.index as int].statement } else { None }
    }

    /// The login timeout of connection `h`, in seconds.
    pub closed spec fn login_timeout(&self, h: Handle) -> Option<u32> {
        if h.kind == HandleKind::Conn { self.conns@[h.index as int].login_timeout } else { None }
    }

    /// The query timeout of statement `h`, in seconds.
    pub closed spec fn query_timeout(&self, h: Handle) -> Option<u32> {
        if h.kind == HandleKind::Stmt { self.stmts@[h.index as int].query_timeout } else { None }
    }

    /// The type mode of connection `h`.
    pub closed spec fn type_mode(&self, h: Handle) -> TypeMode {
        if h.kind == HandleKind::Conn { self.conns@[h.index as int].type_mode } else { TypeMode::Standard }
    }

    /// The default database of connection `h`.
    pub closed spec fn database(&self, h: Handle) -> Option<Seq<WideChar>> {
        if h.kind == HandleKind::Conn { opt_view(self.conns@[h.index as int].database) } else { None }
    }

    /// The protocol version of environment `h`.
    pub closed spec fn odbc_version(&self, h: Handle) -> i32 {
        if h.kind == HandleKind::Env { self.envs@[h.index as int].odbc_version } else { 0 }
    }

    /// The registry's invariant: owners are allocated, live objects have live
    /// owners, statements belong to connected connections, and only live
    /// statements hold a result.
    pub closed spec fn wf(&self) -> bool {
        &&& forall|i: int| 0 <= i < self.conns@.len() ==> {
            &&& (#[trigger] self.conns@[i]).env < self.envs@.len()
            &&& self.conns@[i].live ==> self.envs@[self.conns@[i].env as int].live
            &&& !self.conns@[i].live ==> !self.conns@[i].connected
        }
        &&& forall|i: int| 0 <= i < self.stmts@.len() ==> {
            &&& (#[trigger] self.stmts@[i]).conn < self.conns@.len()
            &&& self.stmts@[i].live ==> self.conns@[self.stmts@[i].conn as int].connected
            &&& !self.stmts@[i].live ==> self.stmts@[i].statement is None
        }
    }

    /// An empty registry.
    pub fn new() -> (r: Registry)
        ensures
            r.wf(),
            forall|h: Handle| !r.was_allocated(h),
    {
        Registry { envs: Vec::new(), conns: Vec::new(), stmts: Vec::new() }
    }

    /// The diagnostic record number `n` of `h`, counting from 1; `None` for a
    /// handle that is not live or past the last record.
    pub fn get_diag_rec(&self, h: Handle, n: usize) -> (r: Option<&DiagRecord>)
        ensures
            self.is_live(h) && 1 <= n <= self.diag(h).len() ==> r == Some(&self.diag(h)[n - 1]),
            !(self.is_live(h) && 1 <= n <= self.diag(h).len()) ==> r is None,
    {
        if !self.check_live(h) {
            return None;
        }
        match h.kind {
            HandleKind::Env => self.envs[h.index].diag.get(n),
            HandleKind::Conn => self.conns[h.index].diag.get(n),
            HandleKind::Stmt => self.stmts[h.index].diag.get(n),
        }
    }

    /// Whether `h` names a live object.
    pub fn check_live(&self, h: Handle) -> (r: bool)
        ensures
            r == self.is_live(h),
    {
        match h.kind {
            HandleKind::Env => h.index < self.envs.len() && self.envs[h.index].live,
            HandleKind::Conn => h.index < self.conns.len() && self.conns[h.index].live,
            HandleKind::Stmt => h.index < self.stmts.len() && self.stmts[h.index].live,
        }
    }
    /// Whether `h` stands in `self` as it stood in `o`.
    pub open spec fn same_object(&self, o: &Registry, h: Handle) -> bool {
        &&& self.was_allocated(h) == o.was_allocated(h)
        &&& self.is_live(h) == o.is_live(h)
        &&& self.parent(h) == o.parent(h)
        &&& self.diag(h) == o.diag(h)
        &&& self.is_connected(h) == o.is_connected(h)
        &&& self.statement(h) == o.statement(h)
        &&& self.login_timeout(h) == o.login_timeout(h)
        &&& self.query_timeout(h) == o.query_timeout(h)
        &&& self.type_mode(h) == o.type_mode(h)
        &&& self.odbc_version(h) == o.odbc_version(h)
        &&& self.database(h) == o.database(h)
    }

    /// Allocates an environment.
    pub fn alloc_env(&mut self) -> (r: Handle)
        requires
            old(self).wf(),
        ensures
            final(self).wf(),
            r.kind == HandleKind::Env,
            !old(self).was_allocated(r),
            final(self).was_allocated(r),
            final(self).is_live(r),
            final(self).diag(r) == Seq::<DiagRecord>::empty(),
            final(self).odbc_version(r) == 3,
            forall|g: Handle| #![trigger final(self).same_object(&*old(self), g)] #![trigger final(self).is_live(g)] #![trigger final(self).diag(g)] #![trigger final(self).statement(g)] #![trigger final(self).is_connected(g)] #![trigger final(self).parent(g)] #![trigger final(self).database(g)]
                    old(self).was_allocated(g) ==> final(self).same_object(&*old(self), g),
            forall|g: Handle| g != r ==> (#[trigger] final(self).was_allocated(g) == old(self).was_allocated(g)),
    {
        let r = Handle { kind: HandleKind::Env, index: self.envs.len() };
        self.envs.push(EnvSlot { live: true, odbc_version: 3, diag: Diagnostics::new() });
        proof {
            assert forall|g: Handle| old(self).was_allocated(g) implies #[trigger] self.same_object(&*old(self), g) by {
                if g.kind == HandleKind::Env {
                    assert(self.envs@[g.index as int] == old(self).envs@[g.index as int]);
                }
            }
        }
        r
    }

    /// Whether the records of `h` are exactly one, of condition `state`.
    pub open spec fn reports(&self, h: Handle, state: SqlState) -> bool {
        self.diag(h).len() == 1 && self.diag(h)[0].state == state
    }

    /// Whether every object but `h` stands as in `o`, and `h` as in `o` but
    /// for its records.
    pub open spec fn only_diag_changed(&self, o: &Registry, h: Handle) -> bool {
        &&& forall|g: Handle| #![trigger self.same_object(o, g)] #![trigger self.is_live(g)] #![trigger self.diag(g)] #![trigger self.statement(g)] #![trigger self.is_connected(g)] #![trigger self.parent(g)] #![trigger self.database(g)]
            o.was_allocated(g) && g != h ==> self.same_object(o, g)
        &&& forall|g: Handle| (#[trigger] self.was_allocated(g)) == o.was_allocated(g)
        &&& self.same_but_diag(o, h)
    }

    /// Whether `h` stands in `self` as in `o` but for its records.
    pub open spec fn same_but_diag(&self, o: &Registry, h: Handle) -> bool {
        &&& self.was_allocated(h)
        &&& self.is_live(h) == o.is_live(h)
        &&& self.parent(h) == o.parent(h)
        &&& self.is_connected(h) == o.is_connected(h)
        &&& self.statement(h) == o.statement(h)
        &&& self.login_timeout(h) == o.login_timeout(h)
        &&& self.query_timeout(h) == o.query_timeout(h)
        &&& self.type_mode(h) == o.type_mode(h)
        &&& self.odbc_version(h) == o.odbc_version(h)
        &&& self.database(h) == o.database(h)
    }

    /// Replaces the records of `h` with `record`.
    fn post(&mut self, h: Handle, record: DiagRecord)
        requires
            old(self).wf(),
            old(self).was_allocated(h),
        ensures
            final(self).wf(),
            final(self).only_diag_changed(&*old(self), h),
            final(self).diag(h) == seq![record],
    {
        match h.kind {
            HandleKind::Env => {
                self.envs[h.index].diag.clear();
                self.envs[h.index].diag.push(record);
            },
            HandleKind::Conn => {
                self.conns[h.index].diag.clear();
                self.conns[h.index].diag.push(record);
            },
            HandleKind::Stmt => {
                self.stmts[h.index].diag.clear();
                self.stmts[h.index].diag.push(record);
            },
        }
        proof {
            assert(self.diag(h) =~= seq![record]);
            assert forall|g: Handle| old(self).was_allocated(g) && g != h implies #[trigger] self.same_object(&*old(self), g) by {
                if g.kind == h.kind {
                    assert(g.index != h.index);
                }
            }
        }
    }

    /// Removes the records of `h`.
    fn clear_diag(&mut self, h: Handle)
        requires
            old(self).wf(),
            old(self).was_allocated(h),
        ensures
            final(self).wf(),
            final(self).only_diag_changed(&*old(self), h),
            final(self).diag(h) == Seq::<DiagRecord>::empty(),
    {
        match h.kind {
            HandleKind::Env => self.envs[h.index].diag.clear(),
            HandleKind::Conn => self.conns[h.index].diag.clear(),
            HandleKind::Stmt => self.stmts[h.index].diag.clear(),
        }
        proof {
            assert forall|g: Handle| old(self).was_allocated(g) && g != h implies #[trigger] self.same_object(&*old(self), g) by {
                if g.kind == h.kind {
                    assert(g.index != h.index);
                }
            }
        }
    }

    /// Allocates a connection owned by environment `env`.
    pub fn alloc_conn(&mut self, env: Handle) -> (r: Result<Handle, SqlReturn>)
        requires
            old(self).wf(),
        ensures
            final(self).wf(),
            !(env.kind == HandleKind::Env && old(self).is_live(env)) ==> r == Err::<Handle, SqlReturn>(
                SqlReturn::InvalidHandle,
            ) && *final(self) == *old(self),
            env.kind == HandleKind::Env && old(self).is_live(env) ==> match r {
                Ok(h) => {
                    &&& h.kind == HandleKind::Conn
                    &&& !old(self).was_allocated(h)
                    &&& final(self).was_allocated(h)
                    &&& final(self).is_live(h)
                    &&& !final(self).is_connected(h)
                    &&& final(self).parent(h) == env.index
                    &&& final(self).diag(h) == Seq::<DiagRecord>::empty()
                    &&& final(self).login_timeout(h) is None
                    &&& final(self).diag(env) == Seq::<DiagRecord>::empty()
                    &&& final(self).same_but_diag(&*old(self), env)
                    &&& forall|g: Handle| #![trigger final(self).same_object(&*old(self), g)] #![trigger final(self).is_live(g)] #![trigger final(self).diag(g)] #![trigger final(self).statement(g)] #![trigger final(self).is_connected(g)] #![trigger final(self).parent(g)] #![trigger final(self).database(g)]
                    old(self).was_allocated(g) && g != env ==> final(self).same_object(&*old(self), g)
                    &&& forall|g: Handle| g != h ==> (#[trigger] final(self).was_allocated(g) == old(self).was_allocated(g))
                },
                Err(_) => false,
            },
    {
        if env.kind != HandleKind::Env || !self.check_live(env) {
            return Err(SqlReturn::InvalidHandle);
        }
        self.clear_diag(env);
        let ghost mid = *self;
        let h = Handle { kind: HandleKind::Conn, index: self.conns.len() };
        self.conns.push(ConnSlot {
            live: true,
            env: env.index,
            connected: false,
            database: None,
            login_timeout: None,
            type_mode: TypeMode::Standard,
            diag: Diagnostics::new(),
        });
        proof {
            assert forall|g: Handle| mid.was_allocated(g) implies #[trigger] self.same_object(&mid, g) by {
                if g.kind == HandleKind::Conn {
                    assert(self.conns@[g.index as int] == mid.conns@[g.index as int]);
                }
            }
            assert forall|i: int| 0 <= i < self.conns@.len() implies {
                &&& (#[trigger] self.conns@[i]).env < self.envs@.len()
                &&& self.conns@[i].live ==> self.envs@[self.conns@[i].env as int].live
                &&& !self.conns@[i].live ==> !self.conns@[i].connected
            } by {
                if i < mid.conns@.len() {
                    assert(self.conns@[i] == mid.conns@[i]);
                }
            }
            assert forall|g: Handle| old(self).was_allocated(g) && g != env implies #[trigger] self.same_object(&*old(self), g) by {
                assert(mid.same_object(&*old(self), g));
                assert(self.same_object(&mid, g));
            }
            assert(self.same_object(&mid, env));
            assert forall|g: Handle| g != h implies (#[trigger] self.was_allocated(g) == old(self).was_allocated(g)) by {
                assert(mid.was_allocated(g) == old(self).was_allocated(g));
            }
            assert(mid.was_allocated(h) == old(self).was_allocated(h));
        }
        Ok(h)
    }

    /// Allocates a statement owned by connection `conn`, which must be connected.
    pub fn alloc_stmt(&mut self, conn: Handle) -> (r: Result<Handle, SqlReturn>)
        requires
            old(self).wf(),
        ensures
            final(self).wf(),
            !(conn.kind == HandleKind::Conn && old(self).is_live(conn)) ==> r == Err::<Handle, SqlReturn>(
                SqlReturn::InvalidHandle,
            ) && *final(self) == *old(self),
            conn.kind == HandleKind::Conn && old(self).is_live(conn) && !old(self).is_connected(conn) ==> r
                == Err::<Handle, SqlReturn>(SqlReturn::Error) && final(self).reports(conn, SqlState::ConnectionNotOpen)
                && final(self).only_diag_changed(&*old(self), conn),
            old(self).is_connected(conn) ==> match r {
                Ok(h) => {
                    &&& h.kind == HandleKind::Stmt
                    &&& !old(self).was_allocated(h)
                    &&& final(self).was_allocated(h)
                    &&& final(self).is_live(h)
                    &&& final(self).parent(h) == conn.index
                    &&& final(self).statement(h) is None
                    &&& final(self).diag(h) == Seq::<DiagRecord>::empty()
                    &&& final(self).diag(conn) == Seq::<DiagRecord>::empty()
                    &&& final(self).same_but_diag(&*old(self), conn)
                    &&& forall|g: Handle| #![trigger final(self).same_object(&*old(self), g)] #![trigger final(self).is_live(g)] #![trigger final(self).diag(g)] #![trigger final(self).statement(g)] #![trigger final(self).is_connected(g)] #![trigger final(self).parent(g)] #![trigger final(self).database(g)]
                    old(self).was_allocated(g) && g != conn ==> final(self).same_object(&*old(self), g)
                    &&& forall|g: Handle| g != h ==> (#[trigger] final(self).was_allocated(g) == old(self).was_allocated(g))
                },
                Err(_) => false,
            },
    {
        if conn.kind != HandleKind::Conn || !self.check_live(conn) {
            return Err(SqlReturn::InvalidHandle);
        }
        if !self.conns[conn.index].connected {
            self.post(conn, DiagRecord::new(SqlState::ConnectionNotOpen, String::from_str("Connection not open")));
            return Err(SqlReturn::Error);
        }
        self.clear_diag(conn);
        let ghost mid = *self;
        let h = Handle { kind: HandleKind::Stmt, index: self.stmts.len() };
        self.stmts.push(StmtSlot {
            live: true,
            conn: conn.index,
            query_timeout: None,
            statement: None,
            diag: Diagnostics::new(),
        });
        proof {
            assert forall|g: Handle| mid.was_allocated(g) implies #[trigger] self.same_object(&mid, g) by {
                if g.kind == HandleKind::Stmt {
                    assert(self.stmts@[g.index as int] == mid.stmts@[g.index as int]);
                }
            }
            assert forall|i: int| 0 <= i < self.stmts@.len() implies {
                &&& (#[trigger] self.stmts@[i]).conn < self.conns@.len()
                &&& self.stmts@[i].live ==> self.conns@[self.stmts@[i].conn as int].connected
                &&& !self.stmts@[i].live ==> self.stmts@[i].statement is None
            } by {
                if i < mid.stmts@.len() {
                    assert(self.stmts@[i] == mid.stmts@[i]);
                }
            }
            assert forall|g: Handle| old(self).was_allocated(g) && g != conn implies #[trigger] self.same_object(&*old(self), g) by {
                assert(mid.same_object(&*old(self), g));
                assert(self.same_object(&mid, g));
            }
            assert(self.same_object(&mid, conn));
            assert forall|g: Handle| g != h implies (#[trigger] self.was_allocated(g) == old(self).was_allocated(g)) by {
                assert(mid.was_allocated(g) == old(self).was_allocated(g));
            }
            assert(mid.was_allocated(h) == old(self).was_allocated(h));
        }
        Ok(h)
    }

    /// Whether statement slot `j` is owned by connection `idx` (when
    /// `by_conn`) or by environment `idx` (otherwise).
    spec fn stmt_selected(&self, j: int, by_conn: bool, idx: usize) -> bool {
        if by_conn {
            self.stmts@[j].conn == idx
        } else {
            self.conns@[self.stmts@[j].conn as int].env == idx
        }
    }

    /// Frees every statement owned by connection `idx` (when `by_conn`) or by
    /// environment `idx` (otherwise), closing their cursors.
    fn close_stmts(&mut self, by_conn: bool, idx: usize)
        requires
            old(self).wf(),
        ensures
            final(self).wf(),
            final(self).envs == old(self).envs,
            final(self).conns == old(self).conns,
            final(self).stmts@.len() == old(self).stmts@.len(),
            forall|j: int| 0 <= j < old(self).stmts@.len() ==> if old(self).stmt_selected(j, by_conn, idx) {
                !(#[trigger] final(self).stmts@[j]).live && final(self).stmts@[j].statement is None
                    && final(self).stmts@[j].conn == old(self).stmts@[j].conn
            } else {
                final(self).stmts@[j] == old(self).stmts@[j]
            },
    {
        let mut k: usize = 0;
        while k < self.stmts.len()
            invariant
                self.wf(),
                self.envs == old(self).envs,
                self.conns == old(self).conns,
                self.stmts@.len() == old(self).stmts@.len(),
                k <= self.stmts@.len(),
                forall|j: int| k <= j < self.stmts@.len() ==> #[trigger] self.stmts@[j] == old(self).stmts@[j],
                forall|j: int| 0 <= j < k ==> if old(self).stmt_selected(j, by_conn, idx) {
                    !(#[trigger] self.stmts@[j]).live && self.stmts@[j].statement is None
                        && self.stmts@[j].conn == old(self).stmts@[j].conn
                } else {
                    self.stmts@[j] == old(self).stmts@[j]
                },
            decreases self.stmts@.len() - k,
        {
            let c = self.stmts[k].conn;
            let selected = if by_conn { c == idx } else { self.conns[c].env == idx };
            if selected {
                self.stmts[k].live = false;
                self.stmts[k].statement = None;
                self.stmts[k].diag.clear();
            }
            k = k + 1;
        }
    }

    /// Marks connection slot `i` freed.
    fn close_conn_slot(&mut self, i: usize)
        requires
            old(self).wf(),
            i < old(self).conns@.len(),
            forall|j: int| 0 <= j < old(self).stmts@.len() ==> (#[trigger] old(self).stmts@[j]).conn == i ==> !old(self).stmts@[j].live,
        ensures
            final(self).wf(),
            final(self).envs == old(self).envs,
            final(self).stmts == old(self).stmts,
            final(self).conns@.len() == old(self).conns@.len(),
            !final(self).conns@[i as int].live,
            final(self).conns@[i as int].env == old(self).conns@[i as int].env,
            forall|j: int| 0 <= j < old(self).conns@.len() && j != i ==> #[trigger] final(self).conns@[j] == old(self).conns@[j],
    {
        self.conns[i].live = false;
        self.conns[i].connected = false;
        self.conns[i].database = None;
        self.conns[i].diag.clear();
    }

    /// Frees `h` and everything it owns. Freeing a connection frees its
    /// statements and closes their cursors; freeing an environment frees its
    /// connections and their statements. A live handle is always freed.
    pub fn free_handle(&mut self, h: Handle) -> (r: SqlReturn)
        requires
            old(self).wf(),
        ensures
            final(self).wf(),
            !old(self).is_live(h) ==> r == SqlReturn::InvalidHandle && *final(self) == *old(self),
            old(self).is_live(h) ==> {
                &&& r == SqlReturn::Success
                &&& forall|g: Handle| (#[trigger] final(self).was_allocated(g)) == old(self).was_allocated(g)
                &&& forall|g: Handle| old(self).was_allocated(g) ==> (#[trigger] final(self).is_live(g)
                    == (old(self).is_live(g) && g != h && !old(self).owned_by(g, h)))
                &&& forall|g: Handle| old(self).was_allocated(g) ==> #[trigger] final(self).parent(g) == old(self).parent(g)
                &&& forall|g: Handle| old(self).was_allocated(g) && g != h && !old(self).owned_by(g, h)
                    ==> #[trigger] final(self).same_object(&*old(self), g)
            },
    {
        if !self.check_live(h) {
            return SqlReturn::InvalidHandle;
        }
        let ghost o = *self;
        match h.kind {
            HandleKind::Stmt => {
                self.stmts[h.index].live = false;
                self.stmts[h.index].statement = None;
                self.stmts[h.index].diag.clear();
                proof {
                    assert forall|g: Handle| o.was_allocated(g) && g != h && !o.owned_by(g, h) implies #[trigger] self.same_object(&o, g) by {
                        if g.kind == HandleKind::Stmt {
                            assert(g.index != h.index);
                        }
                    }
                }
            },
            HandleKind::Conn => {
                self.close_stmts(true, h.index);
                self.close_conn_slot(h.index);
                proof {
                    assert forall|g: Handle| o.was_allocated(g) implies (#[trigger] self.is_live(g) == (o.is_live(g) && g != h && !o.owned_by(g, h))) by {
                        if g.kind == HandleKind::Stmt {
                            assert(o.stmt_selected(g.index as int, true, h.index) == o.owned_by(g, h));
                        }
                    }
                    assert forall|g: Handle| o.was_allocated(g) && g != h && !o.owned_by(g, h) implies #[trigger] self.same_object(&o, g) by {
                        if g.kind == HandleKind::Stmt {
                            assert(!o.stmt_selected(g.index as int, true, h.index));
                        }
                    }
                    assert forall|g: Handle| o.was_allocated(g) implies #[trigger] self.parent(g) == o.parent(g) by {
                        if g.kind == HandleKind::Stmt {
                            assert(self.stmts@[g.index as int].conn == o.stmts@[g.index as int].conn);
                        }
                    }
                }
            },
            HandleKind::Env => {
                self.close_stmts(false, h.index);
                let ghost mid = *self;
                let mut k: usize = 0;
                while k < self.conns.len()
                    invariant
                        self.wf(),
                        h.index < self.envs@.len(),
                        self.envs == mid.envs,
                        self.stmts == mid.stmts,
                        self.conns@.len() == mid.conns@.len(),
                        mid.conns == o.conns,
                        mid.stmts@.len() == o.stmts@.len(),
                        k <= self.conns@.len(),
                        forall|j: int| 0 <= j < mid.stmts@.len() ==> (#[trigger] mid.stmts@[j]).conn < mid.conns@.len()
                            && (mid.conns@[mid.stmts@[j].conn as int].env == h.index ==> !mid.stmts@[j].live),
                        forall|j: int| k <= j < self.conns@.len() ==> #[trigger] self.conns@[j] == mid.conns@[j],
                        forall|j: int| 0 <= j < k ==> if mid.conns@[j].env == h.index {
                            !(#[trigger] self.conns@[j]).live && self.conns@[j].env == mid.conns@[j].env
                        } else {
                            self.conns@[j] == mid.conns@[j]
                        },
                    decreases self.conns@.len() - k,
                {
                    if self.conns[k].env == h.index {
                        proof {
                            assert forall|j: int| 0 <= j < self.stmts@.len() && (#[trigger] self.stmts@[j]).conn == k implies !self.stmts@[j].live by {
                                assert(mid.stmts@[j].conn < mid.conns@.len());
                                if mid.stmts@[j].conn == k {
                                    assert(self.conns@[k as int] == mid.conns@[k as int]);
                                }
                            }
                        }
                        self.close_conn_slot(k);
                    }
                    k = k + 1;
                }
                self.envs[h.index].live = false;
                self.envs[h.index].diag.clear();
                proof {
                    assert forall|i: int| 0 <= i < self.conns@.len() implies {
                        &&& (#[trigger] self.conns@[i]).env < self.envs@.len()
                        &&& self.conns@[i].live ==> self.envs@[self.conns@[i].env as int].live
                        &&& !self.conns@[i].live ==> !self.conns@[i].connected
                    } by {
                        assert(mid.conns@[i] == o.conns@[i]);
                    }
                    assert forall|g: Handle| o.was_allocated(g) implies (#[trigger] self.is_live(g) == (o.is_live(g) && g != h && !o.owned_by(g, h))) by {
                        if g.kind == HandleKind::Stmt {
                            assert(o.stmt_selected(g.index as int, false, h.index) == o.owned_by(g, h));
                        }
                    }
                    assert forall|g: Handle| o.was_allocated(g) && g != h && !o.owned_by(g, h) implies #[trigger] self.same_object(&o, g) by {
                        if g.kind == HandleKind::Stmt {
                            assert(!o.stmt_selected(g.index as int, false, h.index));
                        }
                    }
                    assert forall|g: Handle| o.was_allocated(g) implies #[trigger] self.parent(g) == o.parent(g) by {
                        if g.kind == HandleKind::Stmt {
                            assert(self.stmts@[g.index as int].conn == o.stmts@[g.index as int].conn);
                        }
                    }
                }
            },
        }
        SqlReturn::Success
    }

    /// Sets the protocol version of environment `env`: 2, 3 or 380.
    pub fn set_env_odbc_version(&mut self, env: Handle, version: i32) -> (r: SqlReturn)
        requires
            old(self).wf(),
        ensures
            final(self).wf(),
            !(env.kind == HandleKind::Env && old(self).is_live(env)) ==> r == SqlReturn::InvalidHandle
                && *final(self) == *old(self),
            env.kind == HandleKind::Env && old(self).is_live(env) ==> {
                let valid = version == 2 || version == 3 || version == 380;
                &&& forall|g: Handle| #![trigger final(self).same_object(&*old(self), g)] #![trigger final(self).is_live(g)] #![trigger final(self).diag(g)] #![trigger final(self).statement(g)] #![trigger final(self).is_connected(g)] #![trigger final(self).parent(g)] #![trigger final(self).database(g)]
                    old(self).was_allocated(g) && g != env ==> final(self).same_object(&*old(self), g)
                &&& forall|g: Handle| (#[trigger] final(self).was_allocated(g)) == old(self).was_allocated(g)
                &&& final(self).is_live(env)
                &&& valid ==> r == SqlReturn::Success && final(self).odbc_version(env) == version
                    && final(self).diag(env) == Seq::<DiagRecord>::empty()
                &&& !valid ==> r == SqlReturn::Error && final(self).odbc_version(env) == old(self).odbc_version(env)
                    && final(self).reports(env, SqlState::InvalidAttrValue)
            },
    {
        if env.kind != HandleKind::Env || !self.check_live(env) {
            return SqlReturn::InvalidHandle;
        }
        if version != 2 && version != 3 && version != 380 {
            self.post(env, DiagRecord::new(SqlState::InvalidAttrValue, String::from_str("Invalid attribute value")));
            return SqlReturn::Error;
        }
        self.envs[env.index].odbc_version = version;
        self.envs[env.index].diag.clear();
        proof {
            assert forall|g: Handle| old(self).was_allocated(g) && g != env implies #[trigger] self.same_object(&*old(self), g) by {
                if g.kind == env.kind {
                    assert(g.index != env.index);
                }
            }
        }
        SqlReturn::Success
    }

    /// Sets the login timeout of connection `conn`, in seconds; 0 means none.
    pub fn set_login_timeout(&mut self, conn: Handle, seconds: u32) -> (r: SqlReturn)
        requires
            old(self).wf(),
        ensures
            final(self).wf(),
            !(conn.kind == HandleKind::Conn && old(self).is_live(conn)) ==> r == SqlReturn::InvalidHandle
                && *final(self) == *old(self),
            conn.kind == HandleKind::Conn && old(self).is_live(conn) ==> {
                &&& r == SqlReturn::Success
                &&& forall|g: Handle| #![trigger final(self).same_object(&*old(self), g)] #![trigger final(self).is_live(g)] #![trigger final(self).diag(g)] #![trigger final(self).statement(g)] #![trigger final(self).is_connected(g)] #![trigger final(self).parent(g)] #![trigger final(self).database(g)]
                    old(self).was_allocated(g) && g != conn ==> final(self).same_object(&*old(self), g)
                &&& forall|g: Handle| (#[trigger] final(self).was_allocated(g)) == old(self).was_allocated(g)
                &&& final(self).is_live(conn)
                &&& final(self).is_connected(conn) == old(self).is_connected(conn)
                &&& final(self).login_timeout(conn) == if seconds == 0 { None } else { Some(seconds) }
                &&& final(self).diag(conn) == Seq::<DiagRecord>::empty()
            },
    {
        if conn.kind != HandleKind::Conn || !self.check_live(conn) {
            return SqlReturn::InvalidHandle;
        }
        self.conns[conn.index].login_timeout = if seconds == 0 { None } else { Some(seconds) };
        self.conns[conn.index].diag.clear();
        proof {
            assert forall|g: Handle| old(self).was_allocated(g) && g != conn implies #[trigger] self.same_object(&*old(self), g) by {
                if g.kind == conn.kind {
                    assert(g.index != conn.index);
                }
            }
        }
        SqlReturn::Success
    }

    /// The login timeout of connection `conn`, in seconds, which bounds the
    /// handshake; `None` where the handle is not a live connection.
    pub fn get_login_timeout(&self, conn: Handle) -> (r: Option<u32>)
        ensures
            conn.kind == HandleKind::Conn && self.is_live(conn) ==> r == self.login_timeout(conn),
            !(conn.kind == HandleKind::Conn && self.is_live(conn)) ==> r is None,
    {
        if conn.kind != HandleKind::Conn || !self.check_live(conn) {
            return None;
        }
        self.conns[conn.index].login_timeout
    }

    /// The bound on the handshake of `conn`, in seconds: its login timeout
    /// attribute where set, else the one its connection string gives.
    pub fn handshake_timeout(&self, conn: Handle, options: &ConnectOptions) -> (r: Option<u32>)
        ensures
            r == if conn.kind == HandleKind::Conn && self.is_live(conn) && self.login_timeout(conn) is Some {
                self.login_timeout(conn)
            } else {
                options.login_timeout
            },
    {
        match self.get_login_timeout(conn) {
            Some(t) => Some(t),
            None => options.login_timeout,
        }
    }

    /// First step of connecting `conn`: resolves the connection string
    /// against the pairs of its DSN into the options of the handshake, which
    /// the caller then performs. On a configuration error the connection
    /// stays allocated and reports the condition.
    pub fn begin_connect(&mut self, conn: Handle, text: &[WideChar], dsn: ConnAttributes) -> (r: Result<ResolvedConnection, SqlReturn>)
        requires
            old(self).wf(),
        ensures
            final(self).wf(),
            !(conn.kind == HandleKind::Conn && old(self).is_live(conn)) ==> (r matches Err(e) && e == SqlReturn::InvalidHandle)
                && *final(self) == *old(self),
            conn.kind == HandleKind::Conn && old(self).is_live(conn) ==> {
                &&& final(self).only_diag_changed(&*old(self), conn)
                &&& old(self).is_connected(conn) ==> (r matches Err(e) && e == SqlReturn::Error)
                    && final(self).reports(conn, SqlState::ConnectionInUse)
                &&& !old(self).is_connected(conn) ==> match parse_spec(text@) {
                    None => (r matches Err(e) && e == SqlReturn::Error) && final(self).reports(conn, SqlState::GeneralError),
                    Some(p) => match resolve_error(dsn@, p) {
                        Some(ce) => (r matches Err(e) && e == SqlReturn::Error) && final(self).reports(conn, config_error_state(ce)),
                        None => (r matches Ok(c) && options_agree(c.options, dsn@, p)
                            && c.out_connection_string@ == join(p)) && final(self).diag(conn) == Seq::<DiagRecord>::empty(),
                    },
                }
            },
    {
        if conn.kind != HandleKind::Conn || !self.check_live(conn) {
            return Err(SqlReturn::InvalidHandle);
        }
        if self.conns[conn.index].connected {
            self.post(conn, DiagRecord::new(SqlState::ConnectionInUse, String::from_str("Connection already in use")));
            return Err(SqlReturn::Error);
        }
        match resolve_connection(text, dsn) {
            Ok(c) => {
                self.clear_diag(conn);
                Ok(c)
            },
            Err(e) => {
                self.post(conn, DiagRecord::new(e.sql_state(), String::from_str(e.message())));
                Err(SqlReturn::Error)
            },
        }
    }

    /// Last step of connecting `conn`: takes the outcome of the handshake. On
    /// success the connection is connected, with the default database and
    /// the type mode given; on a timeout or any other failure it stays
    /// allocated and reports the condition, with the backend's message.
    pub fn finish_connect(
        &mut self,
        conn: Handle,
        database: Option<Vec<WideChar>>,
        mode: TypeMode,
        outcome: Result<(), BackendError>,
    ) -> (r: SqlReturn)
        requires
            old(self).wf(),
        ensures
            final(self).wf(),
            !(conn.kind == HandleKind::Conn && old(self).is_live(conn)) ==> r == SqlReturn::InvalidHandle
                && *final(self) == *old(self),
            conn.kind == HandleKind::Conn && old(self).is_live(conn) && old(self).is_connected(conn) ==> r == SqlReturn::Error
                && final(self).reports(conn, SqlState::ConnectionInUse) && final(self).only_diag_changed(&*old(self), conn),
            conn.kind == HandleKind::Conn && old(self).is_live(conn) && !old(self).is_connected(conn) ==> match outcome {
                Ok(_) => {
                    &&& r == SqlReturn::Success
                    &&& forall|g: Handle| #![trigger final(self).same_object(&*old(self), g)] #![trigger final(self).is_live(g)] #![trigger final(self).diag(g)] #![trigger final(self).statement(g)] #![trigger final(self).is_connected(g)] #![trigger final(self).parent(g)] #![trigger final(self).database(g)]
                    old(self).was_allocated(g) && g != conn ==> final(self).same_object(&*old(self), g)
                    &&& forall|g: Handle| (#[trigger] final(self).was_allocated(g)) == old(self).was_allocated(g)
                    &&& final(self).is_connected(conn)
                    &&& final(self).database(conn) == opt_view(database)
                    &&& final(self).type_mode(conn) == mode
                    &&& final(self).login_timeout(conn) == old(self).login_timeout(conn)
                    &&& final(self).diag(conn) == Seq::<DiagRecord>::empty()
                },
                Err(BackendError::TimedOut) => r == SqlReturn::Error && final(self).reports(conn, SqlState::TimeoutExpired)
                    && final(self).only_diag_changed(&*old(self), conn),
                Err(BackendError::Failed(m)) => r == SqlReturn::Error && final(self).reports(conn, SqlState::UnableToConnect)
                    && final(self).diag(conn)[0].message@ == m@ && final(self).only_diag_changed(&*old(self), conn),
            },
    {
        if conn.kind != HandleKind::Conn || !self.check_live(conn) {
            return SqlReturn::InvalidHandle;
        }
        if self.conns[conn.index].connected {
            self.post(conn, DiagRecord::new(SqlState::ConnectionInUse, String::from_str("Connection already in use")));
            return SqlReturn::Error;
        }
        match outcome {
            Ok(_) => {
                self.conns[conn.index].connected = true;
                self.conns[conn.index].database = database;
                self.conns[conn.index].type_mode = mode;
                self.conns[conn.index].diag.clear();
                proof {
                    assert forall|g: Handle| old(self).was_allocated(g) && g != conn implies #[trigger] self.same_object(&*old(self), g) by {
                        if g.kind == conn.kind {
                            assert(g.index != conn.index);
                        }
                    }
                    assert forall|i: int| 0 <= i < self.stmts@.len() implies {
                        &&& (#[trigger] self.stmts@[i]).conn < self.conns@.len()
                        &&& self.stmts@[i].live ==> self.conns@[self.stmts@[i].conn as int].connected
                        &&& !self.stmts@[i].live ==> self.stmts@[i].statement is None
                    } by {
                        assert(old(self).stmts@[i] == self.stmts@[i]);
                    }
                }
                SqlReturn::Success
            },
            Err(BackendError::TimedOut) => {
                self.post(conn, DiagRecord::new(SqlState::TimeoutExpired, String::from_str("Login timeout expired")));
                SqlReturn::Error
            },
            Err(BackendError::Failed(m)) => {
                self.post(conn, DiagRecord::new(SqlState::UnableToConnect, m));
                SqlReturn::Error
            },
        }
    }

    /// The connection that owns statement `h`.
    pub open spec fn conn_of(&self, h: Handle) -> Handle {
        Handle { kind: HandleKind::Conn, index: self.parent(h) }
    }

    /// Whether `h` is a live statement.
    pub open spec fn is_live_stmt(&self, h: Handle) -> bool {
        h.kind == HandleKind::Stmt && self.is_live(h)
    }

    /// Whether every object but statement `h` stands as in `o`, and `h` is
    /// still live under the same connection.
    pub open spec fn only_stmt_changed(&self, o: &Registry, h: Handle) -> bool {
        &&& forall|g: Handle| #![trigger self.same_object(o, g)] #![trigger self.is_live(g)] #![trigger self.diag(g)] #![trigger self.statement(g)] #![trigger self.is_connected(g)] #![trigger self.parent(g)] #![trigger self.database(g)]
            o.was_allocated(g) && g != h ==> self.same_object(o, g)
        &&& forall|g: Handle| (#[trigger] self.was_allocated(g)) == o.was_allocated(g)
        &&& self.is_live(h)
        &&& self.parent(h) == o.parent(h)
    }

    /// Stores `st` as the executed statement of slot `i`, with no records.
    fn store_statement(&mut self, h: Handle, st: Option<MongoStatement>)
        requires
            old(self).wf(),
            old(self).is_live_stmt(h),
        ensures
            final(self).wf(),
            final(self).only_stmt_changed(&*old(self), h),
            final(self).statement(h) == st,
            final(self).diag(h) == Seq::<DiagRecord>::empty(),
    {
        self.stmts[h.index].statement = st;
        self.stmts[h.index].diag.clear();
        proof {
            assert forall|g: Handle| old(self).was_allocated(g) && g != h implies #[trigger] self.same_object(&*old(self), g) by {
                if g.kind == h.kind {
                    assert(g.index != h.index);
                }
            }
        }
    }

    /// Closes the cursor of statement `h` and reports `state`.
    fn fail_statement(&mut self, h: Handle, state: SqlState, message: String)
        requires
            old(self).wf(),
            old(self).is_live_stmt(h),
        ensures
            final(self).wf(),
            final(self).only_stmt_changed(&*old(self), h),
            final(self).statement(h) is None,
            final(self).reports(h, state),
    {
        self.stmts[h.index].statement = None;
        self.stmts[h.index].diag.clear();
        self.stmts[h.index].diag.push(DiagRecord::new(state, message));
        proof {
            assert forall|g: Handle| old(self).was_allocated(g) && g != h implies #[trigger] self.same_object(&*old(self), g) by {
                if g.kind == h.kind {
                    assert(g.index != h.index);
                }
            }
        }
    }

    /// The message of a statement error.
    fn error_message(e: StatementError) -> (r: String) {
        match e {
            StatementError::FunctionSequence => String::from_str("Function sequence error"),
            StatementError::InvalidColumn => String::from_str("Invalid descriptor index"),
            StatementError::Timeout => String::from_str("Timeout expired"),
            StatementError::Backend(m) => m,
        }
    }

    /// Executes a query on statement `h`, given the result shape the backend
    /// reported. Any previous cursor is closed. On failure the statement has
    /// no cursor and reports the condition.
    pub fn execute_query(&mut self, h: Handle, opened: Result<Vec<ColumnSpec>, BackendError>) -> (r: SqlReturn)
        requires
            old(self).wf(),
        ensures
            final(self).wf(),
            !old(self).is_live_stmt(h) ==> r == SqlReturn::InvalidHandle && *final(self) == *old(self),
            old(self).is_live_stmt(h) ==> final(self).only_stmt_changed(&*old(self), h) && match opened {
                Ok(cols) => {
                    &&& r == SqlReturn::Success
                    &&& final(self).statement(h) matches Some(st) && st is Query
                        && st.spec_cursor().opened_on(cols@, old(self).type_mode(old(self).conn_of(h)))
                    &&& final(self).diag(h) == Seq::<DiagRecord>::empty()
                },
                Err(b) => {
                    &&& r == SqlReturn::Error
                    &&& final(self).statement(h) is None
                    &&& final(self).reports(h, match b {
                        BackendError::TimedOut => SqlState::TimeoutExpired,
                        BackendError::Failed(_) => SqlState::GeneralError,
                    })
                },
            },
    {
        if h.kind != HandleKind::Stmt || !self.check_live(h) {
            return SqlReturn::InvalidHandle;
        }
        let mode = self.conns[self.stmts[h.index].conn].type_mode;
        match MongoQuery::execute(opened, mode) {
            Ok(q) => {
                self.store_statement(h, Some(MongoStatement::Query(q)));
                SqlReturn::Success
            },
            Err(e) => {
                let state = e.sql_state();
                self.fail_statement(h, state, Self::error_message(e));
                SqlReturn::Error
            },
        }
    }

    /// Executes a table listing on statement `h`. Any previous cursor is
    /// closed. On failure the statement has no cursor and reports the
    /// condition.
    pub fn execute_tables(&mut self, h: Handle, opened: Result<(), BackendError>) -> (r: SqlReturn)
        requires
            old(self).wf(),
        ensures
            final(self).wf(),
            !old(self).is_live_stmt(h) ==> r == SqlReturn::InvalidHandle && *final(self) == *old(self),
            old(self).is_live_stmt(h) ==> final(self).only_stmt_changed(&*old(self), h) && match opened {
                Ok(_) => {
                    &&& r == SqlReturn::Success
                    &&& final(self).statement(h) matches Some(st) && st is Tables && st.spec_cursor().opened_on_tables()
                    &&& final(self).diag(h) == Seq::<DiagRecord>::empty()
                },
                Err(b) => {
                    &&& r == SqlReturn::Error
                    &&& final(self).statement(h) is None
                    &&& final(self).reports(h, match b {
                        BackendError::TimedOut => SqlState::TimeoutExpired,
                        BackendError::Failed(_) => SqlState::GeneralError,
                    })
                },
            },
    {
        if h.kind != HandleKind::Stmt || !self.check_live(h) {
            return SqlReturn::InvalidHandle;
        }
        match MongoQuery::tables(opened) {
            Ok(q) => {
                self.store_statement(h, Some(MongoStatement::Tables(q)));
                SqlReturn::Success
            },
            Err(e) => {
                let state = e.sql_state();
                self.fail_statement(h, state, Self::error_message(e));
                SqlReturn::Error
            },
        }
    }

    /// Whether statement `h` has a cursor whose rows have not run out, so
    /// that the backend is to be asked for the next row.
    pub fn needs_fetch(&self, h: Handle) -> (r: bool)
        ensures
            r == (self.is_live_stmt(h) && self.statement(h) is Some
                && !self.statement(h).unwrap().spec_cursor().is_exhausted()),
    {
        if h.kind != HandleKind::Stmt || !self.check_live(h) {
            return false;
        }
        match &self.stmts[h.index].statement {
            Some(st) => st.cursor().needs_fetch(),
            None => false,
        }
    }

    /// Advances the cursor of statement `h` to the row the backend fetched.
    /// `NoData` reports that no rows remain; a backend failure leaves the
    /// cursor as it was and reports the condition.
    pub fn fetch(&mut self, h: Handle, fetched: Result<Option<Row>, BackendError>) -> (r: SqlReturn)
        requires
            old(self).wf(),
        ensures
            final(self).wf(),
            !old(self).is_live_stmt(h) ==> r == SqlReturn::InvalidHandle && *final(self) == *old(self),
            old(self).is_live_stmt(h) && old(self).statement(h) is None ==> r == SqlReturn::Error
                && final(self).reports(h, SqlState::FunctionSequenceError) && final(self).only_diag_changed(&*old(self), h),
            old(self).is_live_stmt(h) && old(self).statement(h) is Some ==> {
                let q = old(self).statement(h).unwrap().spec_cursor();
                &&& final(self).only_stmt_changed(&*old(self), h)
                &&& final(self).statement(h) is Some
                &&& (final(self).statement(h).unwrap() is Query) == (old(self).statement(h).unwrap() is Query)
                &&& final(self).statement(h).unwrap().spec_cursor().metadata() == q.metadata()
                &&& {
                    let q2 = final(self).statement(h).unwrap().spec_cursor();
                    &&& q.is_exhausted() ==> r == SqlReturn::NoData && q2.row() is None && q2.is_exhausted()
                        && final(self).diag(h) == Seq::<DiagRecord>::empty()
                    &&& !q.is_exhausted() ==> match fetched {
                        Ok(Some(row)) => r == SqlReturn::Success && q2.row() == Some(row) && !q2.is_exhausted()
                            && final(self).diag(h) == Seq::<DiagRecord>::empty(),
                        Ok(None) => r == SqlReturn::NoData && q2.row() is None && q2.is_exhausted()
                            && final(self).diag(h) == Seq::<DiagRecord>::empty(),
                        Err(b) => r == SqlReturn::Error && q2.row() == q.row() && q2.is_exhausted() == q.is_exhausted()
                            && final(self).reports(h, match b {
                                BackendError::TimedOut => SqlState::TimeoutExpired,
                                BackendError::Failed(_) => SqlState::GeneralError,
                            }),
                    }
                }
            },
    {
        if h.kind != HandleKind::Stmt || !self.check_live(h) {
            return SqlReturn::InvalidHandle;
        }
        let mut taken: Option<MongoStatement> = None;
        std::mem::swap(&mut taken, &mut self.stmts[h.index].statement);
        match taken {
            None => {
                proof {
                    assert(self.stmts@[h.index as int] == old(self).stmts@[h.index as int]);
                    assert forall|g: Handle| old(self).was_allocated(g) implies #[trigger] self.same_object(&*old(self), g) by {
                        if g.kind == h.kind && g.index != h.index {
                            assert(self.stmts@[g.index as int] == old(self).stmts@[g.index as int]);
                        }
                    }
                }
                let ghost mid = *self;
                self.post(h, DiagRecord::new(SqlState::FunctionSequenceError, String::from_str("Function sequence error")));
                proof {
                    assert(mid.same_object(&*old(self), h));
                    assert forall|g: Handle| old(self).was_allocated(g) && g != h implies #[trigger] self.same_object(&*old(self), g) by {
                        assert(mid.same_object(&*old(self), g));
                        assert(self.same_object(&mid, g));
                    }
                    assert forall|g: Handle| (#[trigger] self.was_allocated(g)) == old(self).was_allocated(g) by {
                        assert(mid.was_allocated(g) == old(self).was_allocated(g));
                    }
                }
                SqlReturn::Error
            },
            Some(mut st) => {
                let moved = st.next(fetched);
                self.stmts[h.index].statement = Some(st);
                self.stmts[h.index].diag.clear();
                let r = match moved {
                    Ok(true) => SqlReturn::Success,
                    Ok(false) => SqlReturn::NoData,
                    Err(e) => {
                        let state = e.sql_state();
                        self.stmts[h.index].diag.push(DiagRecord::new(state, Self::error_message(e)));
                        SqlReturn::Error
                    },
                };
                proof {
                    assert forall|g: Handle| old(self).was_allocated(g) && g != h implies #[trigger] self.same_object(&*old(self), g) by {
                        if g.kind == h.kind {
                            assert(g.index != h.index);
                        }
                    }
                }
                r
            },
        }
    }

    /// The number of result columns of statement `h`: 0 where nothing was
    /// executed; `None` where `h` is not a live statement.
    pub fn num_result_cols(&self, h: Handle) -> (r: Option<usize>)
        ensures
            !self.is_live_stmt(h) ==> r is None,
            self.is_live_stmt(h) ==> r == Some(match self.statement(h) {
                Some(st) => st.spec_cursor().metadata().len() as usize,
                None => 0usize,
            }),
    {
        if h.kind != HandleKind::Stmt || !self.check_live(h) {
            return None;
        }
        match &self.stmts[h.index].statement {
            Some(st) => Some(st.cursor().get_col_count()),
            None => Some(0),
        }
    }

    /// The metadata of column `col` of statement `h`, counting from 1.
    pub fn column_metadata(&self, h: Handle, col: usize) -> (r: Option<&MongoColMetadata>)
        ensures
            self.is_live_stmt(h) && self.statement(h) is Some && 1 <= col <= self.statement(h).unwrap().spec_cursor().metadata().len()
                ==> r == Some(&self.statement(h).unwrap().spec_cursor().metadata()[col - 1]),
            !(self.is_live_stmt(h) && self.statement(h) is Some && 1 <= col <= self.statement(h).unwrap().spec_cursor().metadata().len())
                ==> r is None,
    {
        if h.kind != HandleKind::Stmt || !self.check_live(h) {
            return None;
        }
        match &self.stmts[h.index].statement {
            Some(st) => match st.cursor().get_col_attribute(col) {
                Ok(m) => Some(m),
                Err(_) => None,
            },
            None => None,
        }
    }

    /// Checks that column `col` of statement `h` can be described, recording
    /// the condition where it cannot: a sequencing error where nothing was
    /// executed, an invalid index outside `1..=column_count`.
    pub fn describe_col(&mut self, h: Handle, col: usize) -> (r: SqlReturn)
        requires
            old(self).wf(),
        ensures
            final(self).wf(),
            !old(self).is_live_stmt(h) ==> r == SqlReturn::InvalidHandle && *final(self) == *old(self),
            old(self).is_live_stmt(h) ==> final(self).only_diag_changed(&*old(self), h) && match old(self).statement(h) {
                None => r == SqlReturn::Error && final(self).reports(h, SqlState::FunctionSequenceError),
                Some(st) => if 1 <= col <= st.spec_cursor().metadata().len() {
                    r == SqlReturn::Success && final(self).diag(h) == Seq::<DiagRecord>::empty()
                } else {
                    r == SqlReturn::Error && final(self).reports(h, SqlState::InvalidDescriptorIndex)
                },
            },
    {
        if h.kind != HandleKind::Stmt || !self.check_live(h) {
            return SqlReturn::InvalidHandle;
        }
        let n = match &self.stmts[h.index].statement {
            Some(st) => st.cursor().get_col_count(),
            None => {
                self.post(h, DiagRecord::new(SqlState::FunctionSequenceError, String::from_str("Function sequence error")));
                return SqlReturn::Error;
            },
        };
        if col < 1 || col > n {
            self.post(h, DiagRecord::new(SqlState::InvalidDescriptorIndex, String::from_str("Invalid descriptor index")));
            return SqlReturn::Error;
        }
        self.clear_diag(h);
        SqlReturn::Success
    }

    /// Retrieves column `col` of the current row of statement `h` into a
    /// buffer of `capacity` units. A null or absent value reports
    /// `SQL_NULL_DATA` and writes nothing; a value that does not fit with its
    /// terminator is cut short and reports a right-truncation warning beside
    /// success. Retrieval before the first advance, or after the rows have
    /// run out, is a sequencing error.
    pub fn get_data(&mut self, h: Handle, col: u16, capacity: usize) -> (r: DataResult)
        requires
            old(self).wf(),
        ensures
            final(self).wf(),
            !old(self).is_live_stmt(h) ==> r.ret == SqlReturn::InvalidHandle && *final(self) == *old(self),
            old(self).is_live_stmt(h) ==> final(self).only_diag_changed(&*old(self), h) && match old(self).statement(h) {
                None => r.ret == SqlReturn::Error && final(self).reports(h, SqlState::FunctionSequenceError),
                Some(st) => {
                    let q = st.spec_cursor();
                    if q.row() is None {
                        r.ret == SqlReturn::Error && final(self).reports(h, SqlState::FunctionSequenceError)
                    } else if !(1 <= col <= q.metadata().len()) {
                        r.ret == SqlReturn::Error && final(self).reports(h, SqlState::InvalidDescriptorIndex)
                    } else {
                        match q.cell_text(col as int) {
                            None => r.ret == SqlReturn::Success && r.written@ == Seq::<WideChar>::empty()
                                && r.indicator == SQL_NULL_DATA && final(self).diag(h) == Seq::<DiagRecord>::empty(),
                            Some(t) => {
                                &&& r.written@ == marshalled(t, capacity as nat)
                                &&& r.indicator as int == length_indicator(t.len())
                                &&& truncates(t, capacity as nat) ==> r.ret == SqlReturn::SuccessWithInfo
                                    && final(self).reports(h, SqlState::RightTruncated)
                                &&& !truncates(t, capacity as nat) ==> r.ret == SqlReturn::Success
                                    && final(self).diag(h) == Seq::<DiagRecord>::empty()
                            },
                        }
                    }
                },
            },
    {
        if h.kind != HandleKind::Stmt || !self.check_live(h) {
            return DataResult { ret: SqlReturn::InvalidHandle, written: Vec::new(), indicator: 0 };
        }
        let text = match &self.stmts[h.index].statement {
            None => Err(StatementError::FunctionSequence),
            Some(st) => st.cursor().get_text(col),
        };
        match text {
            Err(e) => {
                let state = e.sql_state();
                self.post(h, DiagRecord::new(state, Self::error_message(e)));
                DataResult { ret: SqlReturn::Error, written: Vec::new(), indicator: 0 }
            },
            Ok(None) => {
                self.clear_diag(h);
                DataResult { ret: SqlReturn::Success, written: Vec::new(), indicator: SQL_NULL_DATA }
            },
            Ok(Some(t)) => {
                let m = write_to_buffer(t.as_slice(), capacity);
                let indicator: Len = if m.full_len <= isize::MAX as usize { m.full_len as isize } else { SQL_NO_TOTAL };
                if m.truncated {
                    self.post(h, DiagRecord::new(SqlState::RightTruncated, String::from_str("String data, right truncated")));
                    DataResult { ret: SqlReturn::SuccessWithInfo, written: m.written, indicator }
                } else {
                    self.clear_diag(h);
                    DataResult { ret: SqlReturn::Success, written: m.written, indicator }
                }
            },
        }
    }

    /// Sets the query timeout of statement `h`, in seconds; 0 means none.
    pub fn set_query_timeout(&mut self, h: Handle, seconds: u32) -> (r: SqlReturn)
        requires
            old(self).wf(),
        ensures
            final(self).wf(),
            !old(self).is_live_stmt(h) ==> r == SqlReturn::InvalidHandle && *final(self) == *old(self),
            old(self).is_live_stmt(h) ==> {
                &&& r == SqlReturn::Success
                &&& final(self).only_stmt_changed(&*old(self), h)
                &&& final(self).statement(h) == old(self).statement(h)
                &&& final(self).query_timeout(h) == if seconds == 0 { None } else { Some(seconds) }
                &&& final(self).diag(h) == Seq::<DiagRecord>::empty()
            },
    {
        if h.kind != HandleKind::Stmt || !self.check_live(h) {
            return SqlReturn::InvalidHandle;
        }
        self.stmts[h.index].query_timeout = if seconds == 0 { None } else { Some(seconds) };
        self.stmts[h.index].diag.clear();
        proof {
            assert forall|g: Handle| old(self).was_allocated(g) && g != h implies #[trigger] self.same_object(&*old(self), g) by {
                if g.kind == h.kind {
                    assert(g.index != h.index);
                }
            }
        }
        SqlReturn::Success
    }

    /// The query timeout of statement `h`, in seconds, which bounds each
    /// backend call made for it; `None` where the handle is not a live statement.
    pub fn get_query_timeout(&self, h: Handle) -> (r: Option<u32>)
        ensures
            self.is_live_stmt(h) ==> r == self.query_timeout(h),
            !self.is_live_stmt(h) ==> r is None,
    {
        if h.kind != HandleKind::Stmt || !self.check_live(h) {
            return None;
        }
        self.stmts[h.index].query_timeout
    }

    /// The connection that owns statement `h`; `None` where `h` is not a
    /// live statement.
    pub fn connection_of(&self, h: Handle) -> (r: Option<Handle>)
        ensures
            self.is_live_stmt(h) ==> r == Some(self.conn_of(h)),
            !self.is_live_stmt(h) ==> r is None,
    {
        if h.kind != HandleKind::Stmt || !self.check_live(h) {
            return None;
        }
        Some(Handle { kind: HandleKind::Conn, index: self.stmts[h.index].conn })
    }

}

} // verus!
