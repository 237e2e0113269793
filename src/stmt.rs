use vstd::prelude::*;
use vstd::string::StringSliceAdditionalSpecFns;

use crate::error::{EncodingError, Error, SerializationError};
use crate::name::{cached_name, cached_statement_name, has_nul, is_first_nul};
use crate::result::{check_result, failure_of, is_success, ResultInfo};
use crate::types::{is_string_type, string_type, PgTypeMetadata};

verus! {

/// The wire-format marker of a binary parameter or result.
pub const BINARY_FORMAT: i32 = 1;

/// The largest count or length that the native integer width holds.
pub const NATIVE_INT_MAX: usize = 2147483647;

/// Whether a statement is to be kept on the server under a name.
#[derive(Debug, Clone, Copy, PartialEq, Eq)]
pub enum PrepareForCache {
    /// Keep it, under the name made from `counter`.
    Yes { counter: u64 },
    /// Use it once, unnamed.
    No,
}

/// The server-side name that a cache directive gives a statement: empty for an unnamed one.
pub open spec fn name_for(is_cached: PrepareForCache) -> Seq<u8> {
    match is_cached {
        PrepareForCache::Yes { counter } => cached_name(counter),
        PrepareForCache::No => Seq::empty(),
    }
}

pub open spec fn is_resolved(t: PgTypeMetadata) -> bool {
    t is Resolved
}

pub open spec fn oid_of(t: PgTypeMetadata) -> u32 {
    match t {
        PgTypeMetadata::Resolved { oid, .. } => oid,
        PgTypeMetadata::Unresolved { .. } => 0,
    }
}

pub open spec fn all_resolved(ts: Seq<PgTypeMetadata>) -> bool {
    forall|i: int| 0 <= i < ts.len() ==> is_resolved(#[trigger] ts[i])
}

/// `k` is the place of the first type that has no identifier.
pub open spec fn is_first_unresolved(ts: Seq<PgTypeMetadata>, k: int) -> bool {
    &&& 0 <= k < ts.len()
    &&& !is_resolved(ts[k])
    &&& forall|j: int| 0 <= j < k ==> is_resolved(#[trigger] ts[j])
}

pub open spec fn oids(ts: Seq<PgTypeMetadata>) -> Seq<u32> {
    ts.map_values(|t: PgTypeMetadata| oid_of(t))
}

/// A format list of `n` entries, each binary.
pub open spec fn binary_formats(n: nat) -> Seq<i32> {
    Seq::new(n, |i: int| BINARY_FORMAT)
}

/// The inputs on which preparing reaches the server.
pub open spec fn prepare_admissible(sql: Seq<u8>, ts: Seq<PgTypeMetadata>) -> bool {
    &&& !has_nul(sql)
    &&& all_resolved(ts)
    &&& ts.len() <= NATIVE_INT_MAX
}

/// What the native prepare call is handed.
pub struct PrepareCallView {
    pub name: Seq<u8>,
    pub sql: Seq<u8>,
    pub param_types: Seq<u32>,
}

/// The native prepare call for `sql` with parameters of types `ts`.
pub open spec fn prepare_call_for(sql: Seq<u8>, is_cached: PrepareForCache, ts: Seq<PgTypeMetadata>) -> PrepareCallView {
    PrepareCallView { name: name_for(is_cached), sql, param_types: oids(ts) }
}

/// A native prepare call that passed every check made before the network.
#[derive(Debug)]
pub struct PrepareCall {
    name: Vec<u8>,
    sql: Vec<u8>,
    param_types: Vec<u32>,
}

impl View for PrepareCall {
    type V = PrepareCallView;

    closed spec fn view(&self) -> PrepareCallView {
        PrepareCallView { name: self.name@, sql: self.sql@, param_types: self.param_types@ }
    }
}

impl PrepareCall {
    /// Names and text are terminated strings, and the count fits the native width.
    pub open spec fn wf(&self) -> bool {
        &&& !has_nul(self@.name)
        &&& !has_nul(self@.sql)
        &&& self@.param_types.len() <= NATIVE_INT_MAX
    }

    /// The statement's server-side name; empty for an unnamed statement.
    pub fn name(&self) -> (r: &[u8])
        ensures
            r@ == self@.name,
    {
        self.name.as_slice()
    }

    /// The SQL text.
    pub fn sql(&self) -> (r: &[u8])
        ensures
            r@ == self@.sql,
    {
        self.sql.as_slice()
    }

    /// The type identifier of each parameter, in order.
    pub fn param_types(&self) -> (r: &[u32])
        ensures
            r@ == self@.param_types,
    {
        self.param_types.as_slice()
    }

    /// The number of parameters, in the native integer width.
    pub fn param_count(&self) -> (r: i32)
        requires
            self.wf(),
        ensures
            r as int == self@.param_types.len(),
    {
        self.param_types.len() as i32
    }
}

/// What a statement holds.
pub struct StatementView {
    pub name: Seq<u8>,
    pub sql: Seq<u8>,
    pub param_types: Seq<u32>,
    pub param_formats: Seq<i32>,
}

/// The statement that a successful native prepare call creates.
pub open spec fn statement_for(call: PrepareCallView) -> StatementView {
    StatementView {
        name: call.name,
        sql: call.sql,
        param_types: call.param_types,
        param_formats: binary_formats(call.param_types.len()),
    }
}

/// A statement prepared on the server, unnamed when its name is empty.
#[derive(Debug)]
pub struct Statement {
    name: Vec<u8>,
    sql: Vec<u8>,
    param_types: Vec<u32>,
    param_formats: Vec<i32>,
}

impl View for Statement {
    type V = StatementView;

    closed spec fn view(&self) -> StatementView {
        StatementView {
            name: self.name@,
            sql: self.sql@,
            param_types: self.param_types@,
            param_formats: self.param_formats@,
        }
    }
}

/// Where the first zero byte of `s` stands, if any.
pub fn find_nul(s: &[u8]) -> (r: Option<usize>)
    ensures
        match r {
            Some(p) => is_first_nul(s@, p as int),
            None => !has_nul(s@),
        },
{
    let mut i: usize = 0;
    while i < s.len()
        invariant
            i <= s@.len(),
            forall|j: int| 0 <= j < i ==> s@[j] != 0,
        decreases s@.len() - i,
    {
        if s[i] == 0 {
            return Some(i);
        }
        i = i + 1;
    }
    None
}

/// A copy of `s` that the caller owns.
fn copy_bytes(s: &[u8]) -> (r: Vec<u8>)
    ensures
        r@ == s@,
{
    let mut r: Vec<u8> = Vec::new();
    let mut i: usize = 0;
    while i < s.len()
        invariant
            i <= s@.len(),
            r@ == s@.take(i as int),
        decreases s@.len() - i,
    {
        r.push(s[i]);
        i = i + 1;
        proof {
            assert(r@ =~= s@.take(i as int));
        }
    }
    assert(r@ =~= s@);
    r
}

/// The number of bytes sent for a parameter: none for an absent one.
pub open spec fn param_length(v: Option<Vec<u8>>) -> int {
    match v {
        Some(d) => d@.len() as int,
        None => 0,
    }
}

/// A present parameter longer than the native integer width can state.
pub open spec fn too_long(v: Option<Vec<u8>>) -> bool {
    param_length(v) > NATIVE_INT_MAX
}

/// A present parameter of a string type that holds a zero byte.
pub open spec fn nul_in_string(oid: u32, v: Option<Vec<u8>>) -> bool {
    match v {
        Some(d) => is_string_type(oid) && has_nul(d@),
        None => false,
    }
}

pub open spec fn param_faulty(oid: u32, v: Option<Vec<u8>>) -> bool {
    too_long(v) || nul_in_string(oid, v)
}

/// `k` is the place of the first parameter that cannot be put on the wire.
pub open spec fn is_first_faulty(st: StatementView, ps: Seq<Option<Vec<u8>>>, k: int) -> bool {
    &&& 0 <= k < ps.len()
    &&& param_faulty(st.param_types[k], ps[k])
    &&& forall|j: int| 0 <= j < k ==> !param_faulty(st.param_types[j], #[trigger] ps[j])
}

/// The parameter values on which executing `st` reaches the server.
pub open spec fn execute_admissible(st: StatementView, ps: Seq<Option<Vec<u8>>>) -> bool {
    &&& ps.len() == st.param_formats.len()
    &&& forall|i: int| 0 <= i < ps.len() ==> !param_faulty(st.param_types[i], #[trigger] ps[i])
}

/// Which native call sends a request, and what identifies the statement in it.
#[derive(Debug, PartialEq, Eq)]
pub enum Dispatch {
    /// The one-shot call, which carries the SQL text itself.
    Unnamed { sql: Vec<u8> },
    /// The call that runs a statement kept on the server, which carries only its name.
    Named { name: Vec<u8> },
}

/// The native call that executes a statement, with its parallel parameter arrays.
#[derive(Debug, PartialEq, Eq)]
pub struct ExecuteCall {
    pub dispatch: Dispatch,
    pub param_count: i32,
    /// Whether each parameter is present; an absent one is sent as a null pointer.
    pub param_present: Vec<bool>,
    pub param_lengths: Vec<i32>,
    pub param_formats: Vec<i32>,
    pub result_format: i32,
    /// Deliver the results one row at a time.
    pub row_by_row: bool,
}

/// The call sends `st` by name when it has one, and its SQL text otherwise.
pub open spec fn dispatch_matches(d: Dispatch, st: StatementView) -> bool {
    match d {
        Dispatch::Unnamed { sql } => st.name.len() == 0 && sql@ == st.sql,
        Dispatch::Named { name } => st.name.len() > 0 && name@ == st.name,
    }
}

/// `call` executes `st` with the parameters `ps`.
pub open spec fn execute_call_matches(
    call: ExecuteCall,
    st: StatementView,
    ps: Seq<Option<Vec<u8>>>,
    row_by_row: bool,
) -> bool {
    &&& dispatch_matches(call.dispatch, st)
    &&& call.param_count == ps.len()
    &&& call.param_present@.len() == ps.len()
    &&& call.param_lengths@.len() == ps.len()
    &&& forall|i: int| 0 <= i < ps.len() ==> (#[trigger] call.param_present@[i] <==> ps[i] is Some)
    &&& forall|i: int| 0 <= i < ps.len() ==> #[trigger] call.param_lengths@[i] == param_length(ps[i])
    &&& call.param_formats@ == binary_formats(ps.len())
    &&& call.result_format == BINARY_FORMAT
    &&& call.row_by_row == row_by_row
}

impl Statement {
    /// One parameter count and one binary format per declared type; terminated strings.
    pub open spec fn wf(&self) -> bool {
        &&& !has_nul(self@.name)
        &&& !has_nul(self@.sql)
        &&& self@.param_types.len() <= NATIVE_INT_MAX
        &&& self@.param_formats == binary_formats(self@.param_types.len())
    }

    /// The statement's server-side name; empty for an unnamed statement.
    pub fn name(&self) -> (r: &[u8])
        ensures
            r@ == self@.name,
    {
        self.name.as_slice()
    }

    /// The SQL text.
    pub fn sql(&self) -> (r: &[u8])
        ensures
            r@ == self@.sql,
    {
        self.sql.as_slice()
    }

    /// The type identifier of each parameter, in order.
    pub fn param_types(&self) -> (r: &[u32])
        ensures
            r@ == self@.param_types,
    {
        self.param_types.as_slice()
    }

    /// The wire-format marker of each parameter.
    pub fn param_formats(&self) -> (r: &[i32])
        ensures
            r@ == self@.param_formats,
    {
        self.param_formats.as_slice()
    }

    /// Checks `sql`, the cache directive and the parameter types, and gives the native prepare
    /// call to make: nothing reaches the network when a check fails.
    pub fn prepare(sql: &str, is_cached: PrepareForCache, param_types: &[PgTypeMetadata]) -> (r: Result<
        PrepareCall,
        Error,
    >)
        ensures
            match r {
                Ok(call) => {
                    &&& prepare_admissible(sql.spec_bytes(), param_types@)
                    &&& call@ == prepare_call_for(sql.spec_bytes(), is_cached, param_types@)
                    &&& call.wf()
                },
                Err(Error::Encoding(EncodingError::NulInSql { position })) => is_first_nul(
                    sql.spec_bytes(),
                    position as int,
                ),
                Err(Error::Serialization(SerializationError::UnknownType { index, sql_type })) => {
                    &&& !has_nul(sql.spec_bytes())
                    &&& is_first_unresolved(param_types@, index as int)
                    &&& match param_types@[index as int] {
                        PgTypeMetadata::Unresolved { sql_type: t } => t@ == sql_type@,
                        _ => false,
                    }
                },
                Err(Error::Serialization(SerializationError::TooManyParameters { count })) => {
                    &&& !has_nul(sql.spec_bytes())
                    &&& all_resolved(param_types@)
                    &&& count == param_types@.len()
                    &&& count > NATIVE_INT_MAX
                },
                Err(_) => false,
            },
    {
        let name: Vec<u8> = match is_cached {
            PrepareForCache::Yes { counter } => cached_statement_name(counter),
            PrepareForCache::No => Vec::new(),
        };
        let bytes = sql.as_bytes();
        if let Some(position) = find_nul(bytes) {
            return Err(Error::Encoding(EncodingError::NulInSql { position }));
        }
        let sql_bytes = copy_bytes(bytes);
        let mut oids_vec: Vec<u32> = Vec::new();
        let mut k: usize = 0;
        while k < param_types.len()
            invariant
                k <= param_types@.len(),
                oids_vec@ == oids(param_types@.take(k as int)),
                sql_bytes@ == sql.spec_bytes(),
                !has_nul(sql_bytes@),
                forall|j: int| 0 <= j < k ==> is_resolved(#[trigger] param_types@[j]),
            decreases param_types@.len() - k,
        {
            match param_types[k].oid(k) {
                Ok(oid) => {
                    oids_vec.push(oid);
                },
                Err(e) => {
                    return Err(e);
                },
            }
            k = k + 1;
            proof {
                assert(oids_vec@ =~= oids(param_types@.take(k as int)));
            }
        }
        assert(param_types@.take(k as int) =~= param_types@);
        if param_types.len() > NATIVE_INT_MAX {
            return Err(
                Error::Serialization(SerializationError::TooManyParameters { count: param_types.len() }),
            );
        }
        proof {
            if is_cached is No {
                assert(!has_nul(name@));
            }
        }
        Ok(PrepareCall { name, sql: sql_bytes, param_types: oids_vec })
    }

    /// The statement that the native prepare call `call` created, given what it returned:
    /// a connection error when it returned nothing, else the checked status of its response.
    pub fn from_prepared(call: PrepareCall, outcome: Result<ResultInfo, String>) -> (r: Result<
        Statement,
        Error,
    >)
        requires
            call.wf(),
        ensures
            match outcome {
                Err(message) => r == Err::<Statement, Error>(Error::Connection(message)),
                Ok(info) => if is_success(info.status) {
                    &&& r is Ok
                    &&& r->Ok_0@ == statement_for(call@)
                    &&& r->Ok_0.wf()
                } else {
                    r == Err::<Statement, Error>(failure_of(info))
                },
            },
    {
        match outcome {
            Err(message) => Err(Error::Connection(message)),
            Ok(info) => match check_result(info) {
                Err(e) => Err(e),
                Ok(()) => {
                    let n = call.param_types.len();
                    let mut param_formats: Vec<i32> = Vec::new();
                    let mut i: usize = 0;
                    while i < n
                        invariant
                            i <= n,
                            param_formats@ == binary_formats(i as nat),
                        decreases n - i,
                    {
                        param_formats.push(BINARY_FORMAT);
                        i = i + 1;
                        proof {
                            assert(param_formats@ =~= binary_formats(i as nat));
                        }
                    }
                    let st = Statement {
                        name: call.name,
                        sql: call.sql,
                        param_types: call.param_types,
                        param_formats,
                    };
                    assert(st@ =~= statement_for(call@));
                    Ok(st)
                },
            },
        }
    }

    /// Checks the parameter values against the statement and gives the native call that
    /// executes it: by name when the statement has one, with its SQL text when it has none.
    /// Every parameter is sent in binary, an absent one as a null pointer of length zero.
    pub fn execute(&self, param_data: &[Option<Vec<u8>>], row_by_row: bool) -> (r: Result<
        ExecuteCall,
        Error,
    >)
        requires
            self.wf(),
        ensures
            match r {
                Ok(call) => {
                    &&& execute_admissible(self@, param_data@)
                    &&& execute_call_matches(call, self@, param_data@, row_by_row)
                },
                Err(Error::Serialization(SerializationError::ParameterCountMismatch { expected, given })) => {
                    &&& expected == self@.param_formats.len()
                    &&& given == param_data@.len()
                    &&& expected != given
                },
                Err(Error::Serialization(SerializationError::ParameterTooLong { index, length })) => {
                    &&& param_data@.len() == self@.param_formats.len()
                    &&& is_first_faulty(self@, param_data@, index as int)
                    &&& too_long(param_data@[index as int])
                    &&& length == param_length(param_data@[index as int])
                },
                Err(Error::Encoding(EncodingError::NulInParameter { index, position })) => {
                    &&& param_data@.len() == self@.param_formats.len()
                    &&& is_first_faulty(self@, param_data@, index as int)
                    &&& !too_long(param_data@[index as int])
                    &&& match param_data@[index as int] {
                        Some(d) => is_string_type(self@.param_types[index as int]) && is_first_nul(
                            d@,
                            position as int,
                        ),
                        None => false,
                    }
                },
                Err(_) => false,
            },
    {
        let n = self.param_formats.len();
        if param_data.len() != n {
            return Err(
                Error::Serialization(
                    SerializationError::ParameterCountMismatch { expected: n, given: param_data.len() },
                ),
            );
        }
        let mut param_present: Vec<bool> = Vec::new();
        let mut param_lengths: Vec<i32> = Vec::new();
        let mut param_formats: Vec<i32> = Vec::new();
        let mut i: usize = 0;
        while i < n
            invariant
                self.wf(),
                n == self@.param_formats.len(),
                n == param_data@.len(),
                i <= n,
                param_present@.len() == i,
                param_lengths@.len() == i,
                param_formats@ == binary_formats(i as nat),
                forall|j: int| 0 <= j < i ==> (#[trigger] param_present@[j] <==> param_data@[j] is Some),
                forall|j: int| 0 <= j < i ==> #[trigger] param_lengths@[j] == param_length(param_data@[j]),
                forall|j: int| 0 <= j < i ==> !param_faulty(self@.param_types[j], #[trigger] param_data@[j]),
            decreases n - i,
        {
            match &param_data[i] {
                Some(d) => {
                    if d.len() > NATIVE_INT_MAX {
                        return Err(
                            Error::Serialization(
                                SerializationError::ParameterTooLong { index: i, length: d.len() },
                            ),
                        );
                    }
                    if string_type(self.param_types[i]) {
                        if let Some(position) = find_nul(d.as_slice()) {
                            return Err(
                                Error::Encoding(EncodingError::NulInParameter { index: i, position }),
                            );
                        }
                    }
                    param_present.push(true);
                    param_lengths.push(d.len() as i32);
                },
                None => {
                    param_present.push(false);
                    param_lengths.push(0);
                },
            }
            param_formats.push(BINARY_FORMAT);
            i = i + 1;
            proof {
                assert(param_formats@ =~= binary_formats(i as nat));
            }
        }
        let dispatch = if self.name.len() == 0 {
            Dispatch::Unnamed { sql: copy_bytes(self.sql.as_slice()) }
        } else {
            Dispatch::Named { name: copy_bytes(self.name.as_slice()) }
        };
        Ok(ExecuteCall {
            dispatch,
            param_count: n as i32,
            param_present,
            param_lengths,
            param_formats,
            result_format: BINARY_FORMAT,
            row_by_row,
        })
    }
}

/// A statement prepared without a cache directive is unnamed, and every call that executes
/// it is the one-shot call, which carries its SQL text again.
pub proof fn lemma_uncached_is_unnamed(sql: Seq<u8>, ts: Seq<PgTypeMetadata>, d: Dispatch)
    requires
        dispatch_matches(d, statement_for(prepare_call_for(sql, PrepareForCache::No, ts))),
    ensures
        statement_for(prepare_call_for(sql, PrepareForCache::No, ts)).name.len() == 0,
        d is Unnamed,
        d->Unnamed_sql@ == sql,
{
}

/// A statement prepared for the cache is named by the fixed prefix and its counter, and two
/// statements prepared with different counters never share a name.
pub proof fn lemma_cached_names_never_collide(
    sql1: Seq<u8>,
    ts1: Seq<PgTypeMetadata>,
    c1: u64,
    sql2: Seq<u8>,
    ts2: Seq<PgTypeMetadata>,
    c2: u64,
)
    requires
        c1 != c2,
    ensures
        statement_for(prepare_call_for(sql1, PrepareForCache::Yes { counter: c1 }, ts1)).name
            == cached_name(c1),
        statement_for(prepare_call_for(sql1, PrepareForCache::Yes { counter: c1 }, ts1)).name
            != statement_for(prepare_call_for(sql2, PrepareForCache::Yes { counter: c2 }, ts2)).name,
{
    crate::name::lemma_cached_names_distinct(c1, c2);
}

/// Executing a named statement sends only its name: the call carries no SQL text.
pub proof fn lemma_named_sends_no_sql(st: StatementView, d: Dispatch)
    requires
        st.name.len() > 0,
        dispatch_matches(d, st),
    ensures
        d is Named,
        d->Named_name@ == st.name,
{
}

} // verus!
