//! Which query a run is for.

use vstd::prelude::*;

verus! {

/// A query that the engine can run.
#[derive(Clone, Copy, Debug, PartialEq, Eq, Structural)]
pub enum Query {
    Q1,
    Q14,
}

/// What to start for a run: the query, and the tables to load for it.
#[derive(Debug)]
pub struct QueryService {
    pub query: Query,
    pub scale: usize,
    pub data_directory: String,
}

/// The query that is called `name`, if there is one: `q1` or `q14`.
pub open spec fn query_named(name: Seq<char>) -> Option<Query> {
    if name == seq!['q', '1'] {
        Some(Query::Q1)
    } else if name == seq!['q', '1', '4'] {
        Some(Query::Q14)
    } else {
        None
    }
}

/// The query that is called `query_no`, if there is one.
pub fn find_query(query_no: &str) -> (found: Option<Query>)
    ensures
        found == query_named(query_no@),
{
    let len = query_no.unicode_len();
    if len < 2 || len > 3 {
        return None;
    }
    if query_no.get_char(0) != 'q' || query_no.get_char(1) != '1' {
        return None;
    }
    if len == 2 {
        assert(query_no@ =~= seq!['q', '1']);
        Some(Query::Q1)
    } else if query_no.get_char(2) == '4' {
        assert(query_no@ =~= seq!['q', '1', '4']);
        Some(Query::Q14)
    } else {
        None
    }
}

/// The service to start for the query `query_no` on the tables of
/// `data_directory` at `scale`.
///
/// `query_no` names a query; `find_query` says whether it does.
pub fn get_query_service(query_no: &str, scale: usize, data_directory: &str) -> (service:
    QueryService)
    requires
        query_named(query_no@) is Some,
    ensures
        Some(service.query) == query_named(query_no@),
        service.scale == scale,
        service.data_directory@ == data_directory@,
{
    let query = match find_query(query_no) {
        Some(query) => query,
        None => Query::Q1,
    };
    QueryService { query, scale, data_directory: data_directory.to_owned() }
}

} // verus!
