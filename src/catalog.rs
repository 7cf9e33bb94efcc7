//! The resource catalog: tables as `postgres:///<table>` identities, and back.

use vstd::prelude::*;
use crate::error::{ErrorKind, GatewayError};
use crate::text::{has_prefix, starts_with, owned, suffix_from};

verus! {

/// How many rows a resource read scans at most.
pub const DEFAULT_ROW_LIMIT: usize = 100;

/// The scheme prefix of every table identity.
pub open spec fn uri_prefix() -> Seq<char> {
    "postgres:///"@
}

/// The table that an identity names: what follows the prefix, when the prefix is
/// there and something follows it.
pub open spec fn table_of_uri(uri: Seq<char>) -> Option<Seq<char>> {
    if has_prefix(uri, uri_prefix()) && uri.len() > uri_prefix().len() {
        Some(uri.skip(uri_prefix().len() as int))
    } else {
        None
    }
}

/// The bounded scan that reads a table.
pub open spec fn scan_query(table: Seq<char>) -> Seq<char> {
    "SELECT * FROM "@ + table + " LIMIT 100"@
}

/// A table exposed as an addressable, read-only resource.
#[derive(Debug)]
pub struct TableResource {
    pub uri: String,
    pub name: String,
    pub description: String,
    pub mime_type: String,
}

/// The resource that stands for the table `name`.
pub open spec fn is_resource_of(r: TableResource, name: Seq<char>) -> bool {
    &&& r.uri@ == uri_prefix() + name
    &&& r.name@ == name
    &&& r.description@ == "PostgreSQL table: "@ + name
    &&& r.mime_type@ == "application/json"@
}

/// The identity of the table `name`.
pub fn table_uri(name: &str) -> (r: String)
    ensures
        r@ == uri_prefix() + name@,
{
    let mut u = owned("postgres:///");
    u.append(name);
    u
}

/// The resource descriptor of the table `name`.
pub fn table_resource(name: &str) -> (r: TableResource)
    ensures
        is_resource_of(r, name@),
{
    let mut description = owned("PostgreSQL table: ");
    description.append(name);
    TableResource {
        uri: table_uri(name),
        name: owned(name),
        description,
        mime_type: owned("application/json"),
    }
}

/// One resource per table name, in the catalog's order.
pub fn list_table_resources(tables: &Vec<String>) -> (r: Vec<TableResource>)
    ensures
        r@.len() == tables@.len(),
        forall|i: int| 0 <= i < r@.len() ==> is_resource_of(#[trigger] r@[i], tables@[i]@),
{
    let mut out: Vec<TableResource> = Vec::new();
    let mut i: usize = 0;
    while i < tables.len()
        invariant
            i <= tables@.len(),
            out@.len() == i,
            forall|k: int| 0 <= k < i ==> is_resource_of(#[trigger] out@[k], tables@[k]@),
        decreases tables@.len() - i,
    {
        out.push(table_resource(tables[i].as_str()));
        i += 1;
    }
    out
}

/// The table named by an identity, or `None` when the prefix is missing or
/// nothing follows it.
pub fn parse_table_uri(uri: &str) -> (r: Option<String>)
    ensures
        r is Some <==> table_of_uri(uri@) is Some,
        r is Some ==> r->0@ == table_of_uri(uri@)->0,
{
    let prefix = "postgres:///";
    if !starts_with(uri, prefix) {
        return None;
    }
    let n = prefix.unicode_len();
    if uri.unicode_len() <= n {
        return None;
    }
    Some(suffix_from(uri, n))
}

/// The bounded scan query for the table `table`; the name goes in as it is.
pub fn read_table_query(table: &str) -> (r: String)
    ensures
        r@ == scan_query(table@),
{
    let mut q = owned("SELECT * FROM ");
    q.append(table);
    q.append(" LIMIT 100");
    q
}

/// Resolves an identity to the scan query of its table.
pub fn read_table_resource(uri: &str) -> (r: Result<String, GatewayError>)
    ensures
        r is Ok <==> table_of_uri(uri@) is Some,
        r is Ok ==> r->Ok_0@ == scan_query(table_of_uri(uri@)->0),
        r is Err ==> r->Err_0.kind == ErrorKind::InvalidParams && r->Err_0.message@
            == "Invalid table URI: "@ + uri@,
{
    match parse_table_uri(uri) {
        Some(table) => Ok(read_table_query(table.as_str())),
        None => {
            let mut message = owned("Invalid table URI: ");
            message.append(uri);
            Err(GatewayError::new(ErrorKind::InvalidParams, message))
        },
    }
}

/// Every listed resource resolves back to a bounded scan of its own table: for a
/// non-empty table name, the identity in its descriptor parses to that name, and
/// reading it scans that table with the row cap.
pub proof fn lemma_listed_identity_resolves(r: TableResource, name: Seq<char>)
    requires
        is_resource_of(r, name),
        name.len() > 0,
    ensures
        table_of_uri(r.uri@) == Some(name),
        scan_query(table_of_uri(r.uri@)->0) == scan_query(name),
{
    let u = r.uri@;
    assert(u.subrange(0, uri_prefix().len() as int) =~= uri_prefix());
    assert(u.skip(uri_prefix().len() as int) =~= name);
}

} // verus!
