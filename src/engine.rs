//! The query engine: translates a query, picks the driver function that
//! runs it, and turns the host's settled outcome into a query result.
use vstd::prelude::*;
use wasm_bindgen::JsValue;
use crate::bridge::{begin_async_fn, decoded_outcome, unmarshal_u32, BridgeFault, Step};
use crate::host::{decode_u32, host_string};
use crate::query::{command_of, translate, Query};

verus! {

/// The two host functions a storage backend supplies.
pub struct Driver {
    /// `(sql: string) => Promise<rows>`
    pub query_raw: JsValue,
    /// `(sql: string) => Promise<u32>`
    pub execute_raw: JsValue,
}

/// Why a driver could not be put together.
#[derive(PartialEq, Eq, Structural, Clone, Copy, Debug)]
pub enum ConfigFault {
    MissingQueryRaw,
    MissingExecuteRaw,
}

/// The description of a configuration fault.
pub open spec fn config_message(f: ConfigFault) -> Seq<char> {
    match f {
        ConfigFault::MissingQueryRaw => "driver has no function `query_raw`"@,
        ConfigFault::MissingExecuteRaw => "driver has no function `execute_raw`"@,
    }
}

impl ConfigFault {
    /// A description of the fault for the host.
    pub fn message(&self) -> (r: String)
        ensures
            r@ == config_message(*self),
    {
        match self {
            ConfigFault::MissingQueryRaw => String::from_str("driver has no function `query_raw`"),
            ConfigFault::MissingExecuteRaw => String::from_str("driver has no function `execute_raw`"),
        }
    }
}

impl Driver {
    /// A driver from the two host functions, where both are present.
    pub fn from_members(query_raw: Option<JsValue>, execute_raw: Option<JsValue>) -> (r: Result<Driver, ConfigFault>)
        ensures
            query_raw is None ==> r == Err::<Driver, ConfigFault>(ConfigFault::MissingQueryRaw),
            query_raw is Some && execute_raw is None ==> r == Err::<Driver, ConfigFault>(ConfigFault::MissingExecuteRaw),
            query_raw is Some && execute_raw is Some ==> r == Ok::<Driver, ConfigFault>(
                Driver { query_raw: query_raw->Some_0, execute_raw: execute_raw->Some_0 },
            ),
    {
        match query_raw {
            None => Err(ConfigFault::MissingQueryRaw),
            Some(q) => match execute_raw {
                None => Err(ConfigFault::MissingExecuteRaw),
                Some(e) => Ok(Driver { query_raw: q, execute_raw: e }),
            },
        }
    }
}

/// Which of the driver's functions runs a command.
#[derive(PartialEq, Eq, Structural, Clone, Copy, Debug)]
pub enum DriverMember {
    QueryRaw,
    ExecuteRaw,
}

/// The kind of a query, which decides how its result is read.
#[derive(PartialEq, Eq, Structural, Clone, Copy, Debug)]
pub enum QueryKind {
    Insert,
    Select,
}

/// What the engine hands to the driver for one query.
pub struct Dispatch {
    pub kind: QueryKind,
    pub member: DriverMember,
    pub command: String,
}

/// The result of a query: the number of rows an insert wrote, or the rows
/// a select read, as the host gave them.
pub enum QueryResult {
    Insert(u32),
    Select(JsValue),
}

pub open spec fn kind_of(q: &Query) -> QueryKind {
    match q {
        Query::Insert(_) => QueryKind::Insert,
        Query::Select(_) => QueryKind::Select,
    }
}

/// Inserts run through `execute_raw`, selects through `query_raw`.
pub open spec fn member_for(kind: QueryKind) -> DriverMember {
    match kind {
        QueryKind::Insert => DriverMember::ExecuteRaw,
        QueryKind::Select => DriverMember::QueryRaw,
    }
}

/// Whether `d` is the dispatch of query `q`: it depends on the query alone.
pub open spec fn dispatches(q: &Query, d: Dispatch) -> bool {
    &&& d.kind == kind_of(q)
    &&& d.member == member_for(kind_of(q))
    &&& d.command@ == command_of(q)
}

/// Whether `r` is a possible result of a query of kind `kind` whose driver
/// call ended with `host`: a failure passes through unchanged, the rows of
/// a select are handed on as they are, and the value an insert delivered
/// is read as a row count or reported as unreadable.
pub open spec fn finishes(kind: QueryKind, host: Result<JsValue, JsValue>, r: Result<QueryResult, BridgeFault>) -> bool {
    match host {
        Err(e) => r == Err::<QueryResult, BridgeFault>(BridgeFault::Boundary(e)),
        Ok(v) => match kind {
            QueryKind::Select => r == Ok::<QueryResult, BridgeFault>(QueryResult::Select(v)),
            QueryKind::Insert => exists|d: Result<u32, serde_wasm_bindgen::Error>|
                r == insert_outcome(decoded_outcome(d)),
        },
    }
}

/// The result of an insert, given what reading its row count gave.
pub open spec fn insert_outcome(count: Result<u32, BridgeFault>) -> Result<QueryResult, BridgeFault> {
    match count {
        Ok(n) => Ok(QueryResult::Insert(n)),
        Err(f) => Err(f),
    }
}

/// Runs queries through a driver. It keeps nothing between queries.
pub struct QueryEngine {
    driver: Driver,
}

impl QueryEngine {
    pub closed spec fn driver(&self) -> &Driver {
        &self.driver
    }

    pub fn new(driver: Driver) -> (r: QueryEngine)
        ensures
            *r.driver() == driver,
    {
        QueryEngine { driver }
    }

    /// The driver function that runs commands of the given member.
    pub fn member(&self, m: DriverMember) -> (r: &JsValue)
        ensures
            m == DriverMember::QueryRaw ==> *r == self.driver().query_raw,
            m == DriverMember::ExecuteRaw ==> *r == self.driver().execute_raw,
    {
        match m {
            DriverMember::QueryRaw => &self.driver.query_raw,
            DriverMember::ExecuteRaw => &self.driver.execute_raw,
        }
    }

    /// What to hand to the driver for `q`: the translated command and the
    /// function that runs it.
    pub fn plan(q: &Query) -> (r: Dispatch)
        ensures
            dispatches(q, r),
    {
        let command = translate(q);
        match q {
            Query::Insert(_) => Dispatch { kind: QueryKind::Insert, member: DriverMember::ExecuteRaw, command },
            Query::Select(_) => Dispatch { kind: QueryKind::Select, member: DriverMember::QueryRaw, command },
        }
    }

    /// Starts `q`: calls the driver function that runs it with its command.
    /// The step is over at once only where the host threw; otherwise the
    /// promise is handed back, and its outcome goes to `finish`.
    pub fn start(&self, q: &Query) -> (r: (QueryKind, Step<JsValue>))
        ensures
            r.0 == kind_of(q),
            r.1 is Await || exists|e: JsValue| r.1 == Step::<JsValue>::Settled(Err(BridgeFault::Boundary(e))),
    {
        let d = QueryEngine::plan(q);
        let f = self.member(d.member);
        let arg = host_string(d.command);
        (d.kind, begin_async_fn(f, &arg))
    }

    /// The result of a query of kind `kind` whose driver call ended with
    /// `host`.
    pub fn finish(kind: QueryKind, host: Result<JsValue, JsValue>) -> (r: Result<QueryResult, BridgeFault>)
        ensures
            finishes(kind, host, r),
    {
        match host {
            Err(e) => Err(BridgeFault::Boundary(e)),
            Ok(v) => match kind {
                QueryKind::Select => Ok(QueryResult::Select(v)),
                QueryKind::Insert => {
                    let decoded = decode_u32(v);
                    QueryEngine::finish_insert(decoded)
                },
            },
        }
    }

    /// The result of an insert, given what reading the value the driver
    /// delivered as a row count gave.
    pub fn finish_insert(decoded: Result<u32, serde_wasm_bindgen::Error>) -> (r: Result<QueryResult, BridgeFault>)
        ensures
            r == insert_outcome(decoded_outcome(decoded)),
    {
        match unmarshal_u32(decoded) {
            Ok(n) => Ok(QueryResult::Insert(n)),
            Err(f) => Err(f),
        }
    }
}


/// A driver call that fails makes the query fail with a boundary fault that
/// carries the host's value unchanged, for either kind of query: it never
/// succeeds.
pub proof fn lemma_fault_propagation(kind: QueryKind, e: JsValue, r: Result<QueryResult, BridgeFault>)
    requires
        finishes(kind, Err(e), r),
    ensures
        r == Err::<QueryResult, BridgeFault>(BridgeFault::Boundary(e)),
        r is Err,
{
}

/// The engine keeps no state: the dispatch of a query depends on the query
/// alone, so two dispatches of equal queries agree, whatever came before.
pub proof fn lemma_dispatch_stateless(q1: &Query, q2: &Query, d1: Dispatch, d2: Dispatch)
    requires
        q1 == q2,
        dispatches(q1, d1),
        dispatches(q2, d2),
    ensures
        d1.kind == d2.kind,
        d1.member == d2.member,
        d1.command@ == d2.command@,
{
}

} // verus!
