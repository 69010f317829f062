//! The reentrant connection stack and the per-frame execution client.
//!
//! A caller asks the [`ConnectionStack`] for a scope by handing
//! [`ConnectionStack::connect`] a body; the stack pushes a frame, runs the
//! body with an [`ExecutionClient`] bound to that frame, and pops the frame
//! again on every exit path, returning the body's own result unchanged.
//! Nesting is unlimited and is the normal case: the client's own
//! [`ExecutionClient::connect`] opens an inner frame in the same way.
//!
//! Frames are read-only by default and reject schema or data mutation with
//! [`Error::ReadOnlyViolation`]. [`ExecutionClient::update`] escalates the
//! current frame to read-write; by explicit policy choice the escalation
//! persists for the remainder of that frame (sibling statements run
//! read-write too), while a newly pushed nested frame always starts
//! read-only again.

use vstd::prelude::*;

use crate::cursor::{lemma_cursor_parts, Cursor, CursorModel};
use crate::datum::Datum;
use crate::engine::{spec_apply, Engine, TableModel};
use crate::error::{Error, ErrorModel};
use crate::prepared::{lemma_ps_parts, Ownership, PreparedStatement};
use crate::result_set::{ResultSet, RsModel};
use crate::sql::{parse, spec_parse, Stmt, StmtModel};
use crate::text::{decimal_string, spec_decimal, str_eq};

verus! {

/// One pushed activation of the connection stack.
#[derive(Clone, Copy, PartialEq, Eq, Structural, Debug)]
pub struct Frame {
    /// The generation tag frame-scoped resources are checked against.
    pub gen: u64,
    /// Whether the frame has been escalated to read-write.
    pub read_write: bool,
}

/// Spec-level image of a whole session: engine tables, frame stack,
/// detached cursors, and the two generation counters.
#[verifier::ext_equal]
pub struct SessionModel {
    /// The engine's table store.
    pub tables: Seq<TableModel>,
    /// The stack of activation frames, innermost last.
    pub frames: Seq<Frame>,
    /// The cursors detached by name, discoverable from any frame.
    pub detached: Seq<CursorModel>,
    /// The tag the next pushed frame receives.
    pub next_gen: u64,
    /// The number the next opened cursor's name is built from.
    pub next_cursor: u64,
}

/// A counter's next value; it pins at the top instead of wrapping.
pub open spec fn counter_next(c: u64) -> u64 {
    if c < u64::MAX {
        (c + 1) as u64
    } else {
        c
    }
}

/// The session as the body of a `connect` first sees it: one fresh
/// read-only frame pushed, tagged with the generation counter.
pub open spec fn push_frame_model(m: SessionModel) -> SessionModel {
    SessionModel {
        frames: m.frames.push(Frame { gen: m.next_gen, read_write: false }),
        next_gen: counter_next(m.next_gen),
        ..m
    }
}

/// The session after a `connect` returns: the frames the body left are cut
/// back to the caller's depth, and everything else is as the body left it.
pub open spec fn restored(m0: SessionModel, m1: SessionModel) -> SessionModel {
    SessionModel {
        frames: if m0.frames.len() <= m1.frames.len() {
            m1.frames.subrange(0, m0.frames.len() as int)
        } else {
            m1.frames
        },
        ..m1
    }
}

/// Whether a frame with the given generation tag is still on the stack.
pub open spec fn spec_frame_live(frames: Seq<Frame>, gen: u64) -> bool {
    exists|i: int| 0 <= i < frames.len() && frames[i].gen == gen
}

/// Whether a prepared statement may still be executed: kept statements
/// always, borrowed ones only while their frame is alive.
pub open spec fn ps_live(ps: crate::prepared::PsModel, frames: Seq<Frame>) -> bool {
    match ps.mode {
        Ownership::Kept => true,
        Ownership::Borrowed(g) => spec_frame_live(frames, g),
    }
}

/// The first detached cursor at or after `from` with the given name.
pub open spec fn spec_find_cursor(ds: Seq<CursorModel>, name: Seq<char>, from: int) -> Option<int>
    decreases ds.len() - from,
{
    if from < 0 || from >= ds.len() {
        None
    } else if ds[from].name == name {
        Some(from)
    } else {
        spec_find_cursor(ds, name, from + 1)
    }
}

/// A frame's read/write flag after escalation.
pub open spec fn escalated(f: Frame) -> Frame {
    Frame { gen: f.gen, read_write: true }
}

/// The frame stack after `run_statement`: unchanged, or its top escalated.
pub open spec fn frames_after(frames: Seq<Frame>, escalate: bool) -> Seq<Frame> {
    if escalate {
        frames.update(frames.len() - 1, escalated(frames.last()))
    } else {
        frames
    }
}

/// Spec-level image of a [`Plan`].
#[verifier::ext_equal]
pub struct PlanModel {
    /// The plan's top node kind.
    pub operation: Seq<char>,
    /// The table the plan touches, if any.
    pub target: Option<Seq<char>>,
}

/// A structured description of how a statement would run, rather than its
/// row data.
pub struct Plan {
    /// The plan's top node kind.
    operation: String,
    /// The table the plan touches, if any.
    target: Option<String>,
}

impl View for Plan {
    type V = PlanModel;

    closed spec fn view(&self) -> PlanModel {
        PlanModel {
            operation: self.operation@,
            target: match self.target {
                None => None,
                Some(t) => Some(t@),
            },
        }
    }
}

impl Plan {
    /// The plan's top node kind.
    pub fn operation(&self) -> (r: &String)
        ensures
            r@ == self@.operation,
    {
        &self.operation
    }

    /// The table the plan touches, if any.
    pub fn target(&self) -> (r: &Option<String>)
        ensures
            match r {
                None => self@.target is None,
                Some(t) => self@.target == Some(t@),
            },
    {
        &self.target
    }
}

/// The plan description of one statement. The described shape depends on
/// the statement alone, never on bound argument values.
pub open spec fn spec_plan(st: StmtModel) -> PlanModel {
    match st {
        StmtModel::SelectValues(_) => PlanModel { operation: "Result"@, target: None },
        StmtModel::SelectAll(t) => PlanModel { operation: "Seq Scan"@, target: Some(t) },
        StmtModel::CreateTable(t) => PlanModel { operation: "Create Table"@, target: Some(t) },
        StmtModel::Insert(t, _) => PlanModel { operation: "Insert"@, target: Some(t) },
    }
}

/// The privilege to issue queries within exactly one stack frame; handed
/// out by `connect`, and itself able to open nested frames.
pub struct ExecutionClient {
    /// The engine's table store.
    engine: Engine,
    /// The stack of activation frames, innermost last.
    frames: Vec<Frame>,
    /// The cursors detached by name.
    detached: Vec<Cursor>,
    /// The tag the next pushed frame receives.
    next_gen: u64,
    /// The number the next opened cursor's name is built from.
    next_cursor: u64,
}

impl View for ExecutionClient {
    type V = SessionModel;

    closed spec fn view(&self) -> SessionModel {
        SessionModel {
            tables: self.engine@,
            frames: self.frames@,
            detached: self.detached@.map_values(|c: Cursor| c@),
            next_gen: self.next_gen,
            next_cursor: self.next_cursor,
        }
    }
}

impl ExecutionClient {
    /// Parse and run one statement against the engine, optionally
    /// escalating the current frame to read-write first.
    fn run_statement(&mut self, sql: &str, args: &Vec<Datum>, limit: Option<usize>, escalate:
        bool) -> (r: Result<ResultSet, Error>)
        requires
            old(self)@.frames.len() >= 1,
        ensures
            final(self)@.frames == frames_after(old(self)@.frames, escalate),
            final(self)@.detached == old(self)@.detached,
            final(self)@.next_gen == old(self)@.next_gen,
            final(self)@.next_cursor == old(self)@.next_cursor,
            spec_parse(sql@) is None ==> (r matches Err(e) && e@ is SyntaxError && final(self)@.tables
                == old(self)@.tables),
            spec_parse(sql@) matches Some(st) ==> match spec_apply(
                old(self)@.tables,
                st,
                args@,
                escalate || old(self)@.frames.last().read_write,
                limit,
            ) {
                Ok((ts2, rsm)) => r matches Ok(rs) && rs@ == rsm && final(self)@.tables == ts2,
                Err(em) => r matches Err(e) && e@ == em && final(self)@.tables == old(self)@.tables,
            },
    {
        let st = match parse(sql) {
            Ok(st) => st,
            Err(e) => {
                proof {
                    assert(self@ =~~= old(self)@);
                    assert(frames_after(old(self)@.frames, false) == old(self)@.frames);
                }
                if escalate {
                    self.escalate_top();
                }
                return Err(e);
            },
        };
        if escalate {
            self.escalate_top();
        }
        let n = self.frames.len();
        let rw = self.frames[n - 1].read_write;
        let r = self.engine.apply(&st, args, rw, limit);
        r
    }

    /// Mark the current frame read-write.
    fn escalate_top(&mut self)
        requires
            old(self)@.frames.len() >= 1,
        ensures
            final(self)@ == (SessionModel {
                frames: frames_after(old(self)@.frames, true),
                ..old(self)@
            }),
    {
        let n = self.frames.len();
        let f = self.frames[n - 1];
        self.frames.truncate(n - 1);
        self.frames.push(Frame { gen: f.gen, read_write: true });
        proof {
            assert(self.frames@ =~= frames_after(old(self)@.frames, true));
            assert(self@ =~~= (SessionModel {
                frames: frames_after(old(self)@.frames, true),
                ..old(self)@
            }));
        }
    }

    /// Run a read path: parse `sql`, bind `args`, and produce up to `limit`
    /// rows. Fails with [`Error::SyntaxError`] on malformed SQL and with
    /// [`Error::ReadOnlyViolation`] if the statement would mutate state in a
    /// frame not escalated to read-write.
    pub fn select(&mut self, sql: &str, limit: Option<usize>, args: &Vec<Datum>) -> (r: Result<
        ResultSet,
        Error,
    >)
        requires
            old(self)@.frames.len() >= 1,
        ensures
            final(self)@.frames == old(self)@.frames,
            final(self)@.detached == old(self)@.detached,
            final(self)@.next_gen == old(self)@.next_gen,
            final(self)@.next_cursor == old(self)@.next_cursor,
            spec_parse(sql@) is None ==> (r matches Err(e) && e@ is SyntaxError && final(self)@.tables
                == old(self)@.tables),
            spec_parse(sql@) matches Some(st) ==> match spec_apply(
                old(self)@.tables,
                st,
                args@,
                old(self)@.frames.last().read_write,
                limit,
            ) {
                Ok((ts2, rsm)) => r matches Ok(rs) && rs@ == rsm && final(self)@.tables == ts2,
                Err(em) => r matches Err(e) && e@ == em && final(self)@.tables == old(self)@.tables,
            },
    {
        self.run_statement(sql, args, limit, false)
    }

    /// Like [`ExecutionClient::select`], but escalate the current frame to
    /// read-write first, so statements that mutate state succeed. The
    /// escalation persists for the remainder of the frame.
    pub fn update(&mut self, sql: &str, limit: Option<usize>, args: &Vec<Datum>) -> (r: Result<
        ResultSet,
        Error,
    >)
        requires
            old(self)@.frames.len() >= 1,
        ensures
            final(self)@.frames == frames_after(old(self)@.frames, true),
            final(self)@.detached == old(self)@.detached,
            final(self)@.next_gen == old(self)@.next_gen,
            final(self)@.next_cursor == old(self)@.next_cursor,
            spec_parse(sql@) is None ==> (r matches Err(e) && e@ is SyntaxError && final(self)@.tables
                == old(self)@.tables),
            spec_parse(sql@) matches Some(st) ==> match spec_apply(
                old(self)@.tables,
                st,
                args@,
                true,
                limit,
            ) {
                Ok((ts2, rsm)) => r matches Ok(rs) && rs@ == rsm && final(self)@.tables == ts2,
                Err(em) => r matches Err(e) && e@ == em && final(self)@.tables == old(self)@.tables,
            },
    {
        self.run_statement(sql, args, limit, true)
    }

    /// Run one statement for its effect alone, escalating as `update` does
    /// and discarding the result set.
    pub fn run(&mut self, sql: &str) -> (r: Result<(), Error>)
        requires
            old(self)@.frames.len() >= 1,
        ensures
            final(self)@.frames == frames_after(old(self)@.frames, true),
            final(self)@.detached == old(self)@.detached,
            final(self)@.next_gen == old(self)@.next_gen,
            final(self)@.next_cursor == old(self)@.next_cursor,
            spec_parse(sql@) is None ==> (r matches Err(e) && e@ is SyntaxError && final(self)@.tables
                == old(self)@.tables),
            spec_parse(sql@) matches Some(st) ==> match spec_apply(
                old(self)@.tables,
                st,
                Seq::<Datum>::empty(),
                true,
                None,
            ) {
                Ok((ts2, _)) => r is Ok && final(self)@.tables == ts2,
                Err(em) => r matches Err(e) && e@ == em && final(self)@.tables == old(self)@.tables,
            },
    {
        let args: Vec<Datum> = Vec::new();
        proof {
            assert(args@ =~= Seq::<Datum>::empty());
        }
        match self.run_statement(sql, &args, None, true) {
            Ok(_) => Ok(()),
            Err(e) => Err(e),
        }
    }

    /// Like [`ExecutionClient::run`], with `(type, value)` arguments bound
    /// positionally to `$1, $2, ...`.
    pub fn run_with_args(&mut self, sql: &str, args: &Vec<Datum>) -> (r: Result<(), Error>)
        requires
            old(self)@.frames.len() >= 1,
        ensures
            final(self)@.frames == frames_after(old(self)@.frames, true),
            final(self)@.detached == old(self)@.detached,
            final(self)@.next_gen == old(self)@.next_gen,
            final(self)@.next_cursor == old(self)@.next_cursor,
            spec_parse(sql@) is None ==> (r matches Err(e) && e@ is SyntaxError && final(self)@.tables
                == old(self)@.tables),
            spec_parse(sql@) matches Some(st) ==> match spec_apply(
                old(self)@.tables,
                st,
                args@,
                true,
                None,
            ) {
                Ok((ts2, _)) => r is Ok && final(self)@.tables == ts2,
                Err(em) => r matches Err(e) && e@ == em && final(self)@.tables == old(self)@.tables,
            },
    {
        match self.run_statement(sql, args, None, true) {
            Ok(_) => Ok(()),
            Err(e) => Err(e),
        }
    }

    /// Describe how `sql` would run, as a structured plan rather than row
    /// data. Nothing is executed and no state changes.
    pub fn explain(&self, sql: &str) -> (r: Result<Plan, Error>)
        ensures
            match r {
                Ok(p) => spec_parse(sql@) matches Some(st) && p@ == spec_plan(st),
                Err(e) => spec_parse(sql@) is None && e@ is SyntaxError,
            },
    {
        proof {
            reveal_strlit("Result");
            reveal_strlit("Seq Scan");
            reveal_strlit("Create Table");
            reveal_strlit("Insert");
        }
        match parse(sql) {
            Err(e) => Err(e),
            Ok(st) => match st {
                Stmt::SelectValues(_) => Ok(
                    Plan { operation: String::from_str("Result"), target: None },
                ),
                Stmt::SelectAll(t) => Ok(
                    Plan { operation: String::from_str("Seq Scan"), target: Some(t) },
                ),
                Stmt::CreateTable(t) => Ok(
                    Plan { operation: String::from_str("Create Table"), target: Some(t) },
                ),
                Stmt::Insert(t, _) => Ok(
                    Plan { operation: String::from_str("Insert"), target: Some(t) },
                ),
            },
        }
    }

    /// Like [`ExecutionClient::explain`]; the described shape depends on
    /// the statement alone, so bound argument values do not change it.
    pub fn explain_with_args(&self, sql: &str, args: &Vec<Datum>) -> (r: Result<Plan, Error>)
        ensures
            match r {
                Ok(p) => spec_parse(sql@) matches Some(st) && p@ == spec_plan(st),
                Err(e) => spec_parse(sql@) is None && e@ is SyntaxError,
            },
    {
        let _ = args.len();
        self.explain(sql)
    }

    /// Parse `sql` once into a reusable statement with the given declared
    /// parameter types, borrowed by the current frame.
    pub fn prepare(&self, sql: &str, param_types: Vec<u32>) -> (r: Result<PreparedStatement, Error>)
        requires
            self@.frames.len() >= 1,
        ensures
            match r {
                Ok(ps) => spec_parse(sql@) matches Some(st) && ps@.stmt == st && ps@.param_types
                    == param_types@ && ps@.mode == Ownership::Borrowed(self@.frames.last().gen),
                Err(e) => spec_parse(sql@) is None && e@ is SyntaxError,
            },
    {
        let st = match parse(sql) {
            Ok(st) => st,
            Err(e) => {
                return Err(e);
            },
        };
        let n = self.frames.len();
        let gen = self.frames[n - 1].gen;
        let ps = PreparedStatement { stmt: st, param_types, mode: Ownership::Borrowed(gen) };
        proof {
            lemma_ps_parts(&ps);
        }
        Ok(ps)
    }

    /// Open a cursor over an already parsed row-producing statement.
    pub(crate) fn open_cursor_stmt(&mut self, st: &Stmt, args: &Vec<Datum>) -> (r: Result<
        Cursor,
        Error,
    >)
        requires
            old(self)@.frames.len() >= 1,
        ensures
            final(self)@.frames == old(self)@.frames,
            final(self)@.detached == old(self)@.detached,
            final(self)@.next_gen == old(self)@.next_gen,
            !st@.produces_rows() ==> (r matches Err(e) && e@ is SyntaxError && final(self)@ == old(self)@),
            st@.produces_rows() ==> match spec_apply(
                old(self)@.tables,
                st@,
                args@,
                old(self)@.frames.last().read_write,
                None,
            ) {
                Ok((ts2, rsm)) => r matches Ok(cur) && final(self)@.tables == ts2 && cur@.rows
                    == rsm.rows && Some(cur@.columns) == rsm.columns && cur@.pos == 0 && cur@.name
                    == "c"@ + spec_decimal(old(self)@.next_cursor as nat) && final(self)@.next_cursor == counter_next(old(self)@.next_cursor),
                Err(em) => r matches Err(e) && e@ == em && final(self)@ == old(self)@,
            },
    {
        proof {
            reveal_strlit("c");
        }
        if !st.produces_rows() {
            proof {
                assert(self@ =~~= old(self)@);
            }
            return Err(Error::SyntaxError(String::from_str(
                "statement produces no rows; cannot open a cursor over it",
            )));
        }
        let n = self.frames.len();
        let rw = self.frames[n - 1].read_write;
        let rs = match self.engine.apply(st, args, rw, None) {
            Ok(rs) => rs,
            Err(e) => {
                proof {
                    assert(self@ =~~= old(self)@);
                }
                return Err(e);
            },
        };
        let (copt, rows, _count) = rs.into_parts();
        let cols = match copt {
            Some(cols) => cols,
            None => {
                proof {
                    assert(false);
                }
                return Err(Error::NoTupleTable);
            },
        };
        let digits = decimal_string(self.next_cursor);
        let mut name = String::from_str("c");
        name.append(digits.as_str());
        if self.next_cursor < u64::MAX {
            self.next_cursor = self.next_cursor + 1;
        }
        let cur = Cursor { name, columns: cols, rows, pos: 0 };
        proof {
            lemma_cursor_parts(&cur);
        }
        Ok(cur)
    }

    /// Begin a named, positioned iterator over `sql`'s rows. Fails with
    /// [`Error::SyntaxError`] on malformed or non-row-producing SQL.
    pub fn open_cursor(&mut self, sql: &str, args: &Vec<Datum>) -> (r: Result<Cursor, Error>)
        requires
            old(self)@.frames.len() >= 1,
        ensures
            final(self)@.frames == old(self)@.frames,
            final(self)@.detached == old(self)@.detached,
            final(self)@.next_gen == old(self)@.next_gen,
            spec_parse(sql@) is None ==> (r matches Err(e) && e@ is SyntaxError && final(self)@
                == old(self)@),
            spec_parse(sql@) matches Some(st) ==> {
                &&& !st.produces_rows() ==> (r matches Err(e) && e@ is SyntaxError && final(self)@
                    == old(self)@)
                &&& st.produces_rows() ==> match spec_apply(
                    old(self)@.tables,
                    st,
                    args@,
                    old(self)@.frames.last().read_write,
                    None,
                ) {
                    Ok((ts2, rsm)) => r matches Ok(cur) && final(self)@.tables == ts2 && cur@.rows
                        == rsm.rows && Some(cur@.columns) == rsm.columns && cur@.pos == 0
                        && cur@.name == "c"@ + spec_decimal(old(self)@.next_cursor as nat) && final(self)@.next_cursor == counter_next(old(self)@.next_cursor),
                    Err(em) => r matches Err(e) && e@ == em && final(self)@ == old(self)@,
                }
            },
    {
        let st = match parse(sql) {
            Ok(st) => st,
            Err(e) => {
                proof {
                    assert(self@ =~~= old(self)@);
                }
                return Err(e);
            },
        };
        self.open_cursor_stmt(&st, args)
    }

    /// The index of the first detached cursor at or after `from` with the
    /// given name.
    fn find_detached(&self, name: &str, from: usize) -> (r: Option<usize>)
        requires
            from <= self@.detached.len(),
        ensures
            match r {
                Some(i) => spec_find_cursor(self@.detached, name@, from as int) == Some(i as int)
                    && i < self@.detached.len(),
                None => spec_find_cursor(self@.detached, name@, from as int) is None,
            },
        decreases self@.detached.len() - from,
    {
        if from >= self.detached.len() {
            None
        } else if str_eq(self.detached[from].name().as_str(), name) {
            Some(from)
        } else {
            self.find_detached(name, from + 1)
        }
    }

    /// Resolve a previously detached cursor by name, removing it from the
    /// detached registry and resuming it at its saved position. Fails with
    /// [`Error::CursorNotFound`] if no such name was detached, or if it was
    /// already consumed.
    pub fn find_cursor(&mut self, name: &str) -> (r: Result<Cursor, Error>)
        requires
            old(self)@.frames.len() >= 1,
        ensures
            final(self)@.frames == old(self)@.frames,
            final(self)@.tables == old(self)@.tables,
            final(self)@.next_gen == old(self)@.next_gen,
            final(self)@.next_cursor == old(self)@.next_cursor,
            match spec_find_cursor(old(self)@.detached, name@, 0) {
                Some(i) => r matches Ok(cur) && cur@ == old(self)@.detached[i] && final(self)@.detached == old(self)@.detached.remove(i),
                None => r matches Err(e) && e@ == ErrorModel::CursorNotFound(name@) && final(self)@
                    == old(self)@,
            },
    {
        match self.find_detached(name, 0) {
            Some(i) => {
                let cur = self.detached.remove(i);
                proof {
                    assert(self@.detached =~= old(self)@.detached.remove(i as int));
                }
                Ok(cur)
            },
            None => {
                proof {
                    assert(self@ =~~= old(self)@);
                }
                Err(Error::CursorNotFound(String::from_str(name)))
            },
        }
    }

    /// Whether a frame with the given generation tag is still on the stack.
    pub(crate) fn frame_live(&self, gen: u64) -> (r: bool)
        ensures
            r == spec_frame_live(self@.frames, gen),
    {
        let mut i: usize = 0;
        while i < self.frames.len()
            invariant
                0 <= i <= self.frames@.len(),
                forall|j: int| 0 <= j < i ==> self.frames@[j].gen != gen,
            decreases self.frames@.len() - i,
        {
            if self.frames[i].gen == gen {
                return true;
            }
            i += 1;
        }
        false
    }

    /// Run one already parsed statement; prepared execution's engine path.
    pub(crate) fn apply_prepared(&mut self, st: &Stmt, args: &Vec<Datum>, limit: Option<
        usize,
    >) -> (r: Result<ResultSet, Error>)
        requires
            old(self)@.frames.len() >= 1,
        ensures
            final(self)@.frames == old(self)@.frames,
            final(self)@.detached == old(self)@.detached,
            final(self)@.next_gen == old(self)@.next_gen,
            final(self)@.next_cursor == old(self)@.next_cursor,
            match spec_apply(
                old(self)@.tables,
                st@,
                args@,
                old(self)@.frames.last().read_write,
                limit,
            ) {
                Ok((ts2, rsm)) => r matches Ok(rs) && rs@ == rsm && final(self)@.tables == ts2,
                Err(em) => r matches Err(e) && e@ == em && final(self)@.tables == old(self)@.tables,
            },
    {
        let n = self.frames.len();
        let rw = self.frames[n - 1].read_write;
        self.engine.apply(st, args, rw, limit)
    }

    /// Register a detached cursor; `Cursor::detach_into_name`'s registry
    /// path.
    pub(crate) fn push_detached(&mut self, cur: Cursor)
        ensures
            final(self)@ == (SessionModel {
                detached: old(self)@.detached.push(cur@),
                ..old(self)@
            }),
    {
        let ghost c0 = self.detached@;
        let ghost cv = cur;
        self.detached.push(cur);
        proof {
            let f = |c: Cursor| c@;
            crate::engine::lemma_map_push(c0, f, cv);
            assert(self@.detached =~~= old(self)@.detached.push(cv@));
            assert(self@ =~~= (SessionModel {
                detached: old(self)@.detached.push(cv@),
                ..old(self)@
            }));
        }
    }

    /// Open a nested frame: push a fresh read-only frame, run `body` with
    /// this client now bound to it, and pop back to the caller's depth on
    /// the way out, whatever `body` did. The body's own result is returned
    /// unchanged.
    pub fn connect<T, F: FnOnce(&mut ExecutionClient) -> Result<T, Error>>(&mut self, body: F) -> (r:
        Result<T, Error>)
        requires
            forall|c: &mut ExecutionClient|
                c@ == push_frame_model(old(self)@) ==> call_requires(body, (c,)),
        ensures
            final(self)@.frames.len() <= old(self)@.frames.len(),
            exists|c: &mut ExecutionClient|
                c@ == push_frame_model(old(self)@) && #[trigger] call_ensures(body, (c,), r)
                    && final(self)@ == restored(old(self)@, final(c)@),
    {
        let ghost m0 = self@;
        let depth = self.frames.len();
        let gen = self.next_gen;
        if self.next_gen < u64::MAX {
            self.next_gen = self.next_gen + 1;
        }
        self.frames.push(Frame { gen, read_write: false });
        proof {
            assert(self@ =~~= push_frame_model(m0));
        }
        let r = body(self);
        let ghost m1 = self@;
        self.frames.truncate(depth);
        proof {
            if m0.frames.len() <= m1.frames.len() {
                assert(self.frames@ =~= m1.frames.subrange(0, m0.frames.len() as int));
            } else {
                assert(self.frames@ =~= m1.frames);
            }
            assert(self@ =~~= restored(m0, m1));
        }
        r
    }
}

impl PreparedStatement {
    /// Execute the statement in the client's current frame.
    ///
    /// The argument count is checked against the declared parameter types
    /// before any engine call: on a mismatch the failure is
    /// [`Error::ArgumentMismatch`] with the declared and the handed count,
    /// and the session is left exactly as it was. A borrowed statement
    /// whose creating frame has been popped fails with
    /// [`Error::InvalidPosition`].
    pub fn execute(&self, client: &mut ExecutionClient, limit: Option<usize>, args: &Vec<
        Datum,
    >) -> (r: Result<ResultSet, Error>)
        requires
            old(client)@.frames.len() >= 1,
        ensures
            final(client)@.frames == old(client)@.frames,
            final(client)@.detached == old(client)@.detached,
            final(client)@.next_gen == old(client)@.next_gen,
            final(client)@.next_cursor == old(client)@.next_cursor,
            !ps_live(self@, old(client)@.frames) ==> (r matches Err(e) && e@
                == ErrorModel::InvalidPosition && final(client)@ == old(client)@),
            ps_live(self@, old(client)@.frames) && args@.len() != self@.param_types.len()
                ==> (r matches Err(e) && e@ == (ErrorModel::ArgumentMismatch {
                expected: self@.param_types.len(),
                got: args@.len(),
            }) && final(client)@ == old(client)@),
            ps_live(self@, old(client)@.frames) && args@.len() == self@.param_types.len()
                ==> match spec_apply(
                old(client)@.tables,
                self@.stmt,
                args@,
                old(client)@.frames.last().read_write,
                limit,
            ) {
                Ok((ts2, rsm)) => r matches Ok(rs) && rs@ == rsm && final(client)@.tables == ts2,
                Err(em) => r matches Err(e) && e@ == em && final(client)@.tables == old(client)@.tables,
            },
    {
        proof {
            lemma_ps_parts(self);
        }
        match self.mode {
            Ownership::Borrowed(g) => {
                if !client.frame_live(g) {
                    proof {
                        assert(client@ =~~= old(client)@);
                    }
                    return Err(Error::InvalidPosition);
                }
            },
            Ownership::Kept => {},
        }
        if args.len() != self.param_types.len() {
            proof {
                assert(client@ =~~= old(client)@);
            }
            return Err(Error::ArgumentMismatch {
                expected: self.param_types.len(),
                got: args.len(),
            });
        }
        client.apply_prepared(&self.stmt, args, limit)
    }

    /// Begin a cursor over the prepared statement's rows, with the same
    /// liveness and argument-count checks as `execute`.
    pub fn open_cursor(&self, client: &mut ExecutionClient, args: &Vec<Datum>) -> (r: Result<
        Cursor,
        Error,
    >)
        requires
            old(client)@.frames.len() >= 1,
        ensures
            final(client)@.frames == old(client)@.frames,
            final(client)@.detached == old(client)@.detached,
            final(client)@.next_gen == old(client)@.next_gen,
            !ps_live(self@, old(client)@.frames) ==> (r matches Err(e) && e@
                == ErrorModel::InvalidPosition && final(client)@ == old(client)@),
            ps_live(self@, old(client)@.frames) && args@.len() != self@.param_types.len()
                ==> (r matches Err(e) && e@ == (ErrorModel::ArgumentMismatch {
                expected: self@.param_types.len(),
                got: args@.len(),
            }) && final(client)@ == old(client)@),
            ps_live(self@, old(client)@.frames) && args@.len() == self@.param_types.len() ==> {
                &&& !self@.stmt.produces_rows() ==> (r matches Err(e) && e@ is SyntaxError
                    && final(client)@ == old(client)@)
                &&& self@.stmt.produces_rows() ==> match spec_apply(
                    old(client)@.tables,
                    self@.stmt,
                    args@,
                    old(client)@.frames.last().read_write,
                    None,
                ) {
                    Ok((ts2, rsm)) => r matches Ok(cur) && final(client)@.tables == ts2
                        && cur@.rows == rsm.rows && Some(cur@.columns) == rsm.columns && cur@.pos
                        == 0 && cur@.name == "c"@ + spec_decimal(
                        old(client)@.next_cursor as nat,
                    ) && final(client)@.next_cursor == counter_next(old(client)@.next_cursor),
                    Err(em) => r matches Err(e) && e@ == em && final(client)@ == old(client)@,
                }
            },
    {
        proof {
            lemma_ps_parts(self);
        }
        match self.mode {
            Ownership::Borrowed(g) => {
                if !client.frame_live(g) {
                    proof {
                        assert(client@ =~~= old(client)@);
                    }
                    return Err(Error::InvalidPosition);
                }
            },
            Ownership::Kept => {},
        }
        if args.len() != self.param_types.len() {
            proof {
                assert(client@ =~~= old(client)@);
            }
            return Err(Error::ArgumentMismatch {
                expected: self.param_types.len(),
                got: args.len(),
            });
        }
        client.open_cursor_stmt(&self.stmt, args)
    }
}

impl Cursor {
    /// Mark the cursor discoverable by name beyond the current frame and
    /// hand the name back, consuming the in-frame handle. The cursor keeps
    /// its position: a later `find_cursor` resumes where it stopped.
    pub fn detach_into_name(self, client: &mut ExecutionClient) -> (r: String)
        ensures
            r@ == self@.name,
            final(client)@ == (SessionModel {
                detached: old(client)@.detached.push(self@),
                ..old(client)@
            }),
    {
        proof {
            lemma_cursor_parts(&self);
        }
        let name = self.name.clone();
        client.push_detached(self);
        name
    }
}

/// The process-wide, reentrant scope manager: it owns the session state and
/// hands out an [`ExecutionClient`] per pushed frame.
pub struct ConnectionStack {
    /// The session state, at rest between scopes.
    client: ExecutionClient,
}

impl View for ConnectionStack {
    type V = SessionModel;

    closed spec fn view(&self) -> SessionModel {
        self.client@
    }
}

impl ConnectionStack {
    /// A fresh stack: no tables, no frames, no detached cursors.
    pub fn new() -> (r: ConnectionStack)
        ensures
            r@ == (SessionModel {
                tables: Seq::<TableModel>::empty(),
                frames: Seq::<Frame>::empty(),
                detached: Seq::<CursorModel>::empty(),
                next_gen: 0,
                next_cursor: 0,
            }),
    {
        let client = ExecutionClient {
            engine: Engine::new(),
            frames: Vec::new(),
            detached: Vec::new(),
            next_gen: 0,
            next_cursor: 0,
        };
        proof {
            assert(client@ =~~= (SessionModel {
                tables: Seq::<TableModel>::empty(),
                frames: Seq::<Frame>::empty(),
                detached: Seq::<CursorModel>::empty(),
                next_gen: 0,
                next_cursor: 0,
            }));
        }
        ConnectionStack { client }
    }

    /// Open a scope: push a frame, run `body` with a client bound to it,
    /// pop the frame on every exit path, and return the body's result
    /// unchanged.
    pub fn connect<T, F: FnOnce(&mut ExecutionClient) -> Result<T, Error>>(&mut self, body: F) -> (r:
        Result<T, Error>)
        requires
            forall|c: &mut ExecutionClient|
                c@ == push_frame_model(old(self)@) ==> call_requires(body, (c,)),
        ensures
            final(self)@.frames.len() <= old(self)@.frames.len(),
            exists|c: &mut ExecutionClient|
                c@ == push_frame_model(old(self)@) && #[trigger] call_ensures(body, (c,), r)
                    && final(self)@ == restored(old(self)@, final(c)@),
    {
        self.client.connect(body)
    }
}

} // verus!
