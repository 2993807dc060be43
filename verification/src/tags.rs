//! The type tags of the command envelope.
//!
//! Every message of the Flight SQL protocol is identified inside the
//! generic envelope by a URL-shaped tag: a common prefix followed by the
//! message name.  The tags are built here from their name pieces, and
//! [`lemma_tags_distinct`] shows that no two messages share a tag, which
//! is what lets a decoder probe an envelope without ambiguity.

use crate::wire::push_bytes;
use vstd::prelude::*;

verus! {

/// The closed set of message types the protocol defines.
#[derive(Clone, Copy, PartialEq, Eq, Structural, Debug)]
pub enum MessageType {
    StatementQuery,
    StatementUpdate,
    GetCatalogs,
    GetTableTypes,
    GetDbSchemas,
    GetTables,
    GetPrimaryKeys,
    GetExportedKeys,
    GetImportedKeys,
    GetCrossReference,
    GetSqlInfo,
    PreparedStatementQuery,
    PreparedStatementUpdate,
    CreatePreparedStatementRequest,
    ClosePreparedStatementRequest,
    CreatePreparedStatementResult,
    DoPutUpdateResult,
}

/// The bytes of `"type.googleapis.com/arrow.flight.protocol.sql."`.
pub open spec fn piece_prefix() -> Seq<u8> {
    seq!['t' as u8, 'y' as u8, 'p' as u8, 'e' as u8, '.' as u8, 'g' as u8, 'o' as u8, 'o' as u8, 'g' as u8, 'l' as u8, 'e' as u8, 'a' as u8, 'p' as u8, 'i' as u8, 's' as u8, '.' as u8, 'c' as u8, 'o' as u8, 'm' as u8, '/' as u8, 'a' as u8, 'r' as u8, 'r' as u8, 'o' as u8, 'w' as u8, '.' as u8, 'f' as u8, 'l' as u8, 'i' as u8, 'g' as u8, 'h' as u8, 't' as u8, '.' as u8, 'p' as u8, 'r' as u8, 'o' as u8, 't' as u8, 'o' as u8, 'c' as u8, 'o' as u8, 'l' as u8, '.' as u8, 's' as u8, 'q' as u8, 'l' as u8, '.' as u8]
}

fn push_prefix(out: &mut Vec<u8>)
    ensures
        final(out)@ == old(out)@ + piece_prefix(),
{
    let arr: [u8; 46] = ['t' as u8, 'y' as u8, 'p' as u8, 'e' as u8, '.' as u8, 'g' as u8, 'o' as u8, 'o' as u8, 'g' as u8, 'l' as u8, 'e' as u8, 'a' as u8, 'p' as u8, 'i' as u8, 's' as u8, '.' as u8, 'c' as u8, 'o' as u8, 'm' as u8, '/' as u8, 'a' as u8, 'r' as u8, 'r' as u8, 'o' as u8, 'w' as u8, '.' as u8, 'f' as u8, 'l' as u8, 'i' as u8, 'g' as u8, 'h' as u8, 't' as u8, '.' as u8, 'p' as u8, 'r' as u8, 'o' as u8, 't' as u8, 'o' as u8, 'c' as u8, 'o' as u8, 'l' as u8, '.' as u8, 's' as u8, 'q' as u8, 'l' as u8, '.' as u8];
    assert(arr@ =~= piece_prefix());
    push_bytes(out, arr.as_slice());
}

/// The bytes of `"Command"`.
pub open spec fn piece_command() -> Seq<u8> {
    seq!['C' as u8, 'o' as u8, 'm' as u8, 'm' as u8, 'a' as u8, 'n' as u8, 'd' as u8]
}

fn push_command(out: &mut Vec<u8>)
    ensures
        final(out)@ == old(out)@ + piece_command(),
{
    let arr: [u8; 7] = ['C' as u8, 'o' as u8, 'm' as u8, 'm' as u8, 'a' as u8, 'n' as u8, 'd' as u8];
    assert(arr@ =~= piece_command());
    push_bytes(out, arr.as_slice());
}

/// The bytes of `"Action"`.
pub open spec fn piece_action() -> Seq<u8> {
    seq!['A' as u8, 'c' as u8, 't' as u8, 'i' as u8, 'o' as u8, 'n' as u8]
}

fn push_action(out: &mut Vec<u8>)
    ensures
        final(out)@ == old(out)@ + piece_action(),
{
    let arr: [u8; 6] = ['A' as u8, 'c' as u8, 't' as u8, 'i' as u8, 'o' as u8, 'n' as u8];
    assert(arr@ =~= piece_action());
    push_bytes(out, arr.as_slice());
}

/// The bytes of `"Get"`.
pub open spec fn piece_get() -> Seq<u8> {
    seq!['G' as u8, 'e' as u8, 't' as u8]
}

fn push_get(out: &mut Vec<u8>)
    ensures
        final(out)@ == old(out)@ + piece_get(),
{
    let arr: [u8; 3] = ['G' as u8, 'e' as u8, 't' as u8];
    assert(arr@ =~= piece_get());
    push_bytes(out, arr.as_slice());
}

/// The bytes of `"Statement"`.
pub open spec fn piece_statement() -> Seq<u8> {
    seq!['S' as u8, 't' as u8, 'a' as u8, 't' as u8, 'e' as u8, 'm' as u8, 'e' as u8, 'n' as u8, 't' as u8]
}

fn push_statement(out: &mut Vec<u8>)
    ensures
        final(out)@ == old(out)@ + piece_statement(),
{
    let arr: [u8; 9] = ['S' as u8, 't' as u8, 'a' as u8, 't' as u8, 'e' as u8, 'm' as u8, 'e' as u8, 'n' as u8, 't' as u8];
    assert(arr@ =~= piece_statement());
    push_bytes(out, arr.as_slice());
}

/// The bytes of `"Prepared"`.
pub open spec fn piece_prepared() -> Seq<u8> {
    seq!['P' as u8, 'r' as u8, 'e' as u8, 'p' as u8, 'a' as u8, 'r' as u8, 'e' as u8, 'd' as u8]
}

fn push_prepared(out: &mut Vec<u8>)
    ensures
        final(out)@ == old(out)@ + piece_prepared(),
{
    let arr: [u8; 8] = ['P' as u8, 'r' as u8, 'e' as u8, 'p' as u8, 'a' as u8, 'r' as u8, 'e' as u8, 'd' as u8];
    assert(arr@ =~= piece_prepared());
    push_bytes(out, arr.as_slice());
}

/// The bytes of `"Query"`.
pub open spec fn piece_query() -> Seq<u8> {
    seq!['Q' as u8, 'u' as u8, 'e' as u8, 'r' as u8, 'y' as u8]
}

fn push_query(out: &mut Vec<u8>)
    ensures
        final(out)@ == old(out)@ + piece_query(),
{
    let arr: [u8; 5] = ['Q' as u8, 'u' as u8, 'e' as u8, 'r' as u8, 'y' as u8];
    assert(arr@ =~= piece_query());
    push_bytes(out, arr.as_slice());
}

/// The bytes of `"Update"`.
pub open spec fn piece_update() -> Seq<u8> {
    seq!['U' as u8, 'p' as u8, 'd' as u8, 'a' as u8, 't' as u8, 'e' as u8]
}

fn push_update(out: &mut Vec<u8>)
    ensures
        final(out)@ == old(out)@ + piece_update(),
{
    let arr: [u8; 6] = ['U' as u8, 'p' as u8, 'd' as u8, 'a' as u8, 't' as u8, 'e' as u8];
    assert(arr@ =~= piece_update());
    push_bytes(out, arr.as_slice());
}

/// The bytes of `"Create"`.
pub open spec fn piece_create() -> Seq<u8> {
    seq!['C' as u8, 'r' as u8, 'e' as u8, 'a' as u8, 't' as u8, 'e' as u8]
}

fn push_create(out: &mut Vec<u8>)
    ensures
        final(out)@ == old(out)@ + piece_create(),
{
    let arr: [u8; 6] = ['C' as u8, 'r' as u8, 'e' as u8, 'a' as u8, 't' as u8, 'e' as u8];
    assert(arr@ =~= piece_create());
    push_bytes(out, arr.as_slice());
}

/// The bytes of `"Close"`.
pub open spec fn piece_close() -> Seq<u8> {
    seq!['C' as u8, 'l' as u8, 'o' as u8, 's' as u8, 'e' as u8]
}

fn push_close(out: &mut Vec<u8>)
    ensures
        final(out)@ == old(out)@ + piece_close(),
{
    let arr: [u8; 5] = ['C' as u8, 'l' as u8, 'o' as u8, 's' as u8, 'e' as u8];
    assert(arr@ =~= piece_close());
    push_bytes(out, arr.as_slice());
}

/// The bytes of `"Request"`.
pub open spec fn piece_request() -> Seq<u8> {
    seq!['R' as u8, 'e' as u8, 'q' as u8, 'u' as u8, 'e' as u8, 's' as u8, 't' as u8]
}

fn push_request(out: &mut Vec<u8>)
    ensures
        final(out)@ == old(out)@ + piece_request(),
{
    let arr: [u8; 7] = ['R' as u8, 'e' as u8, 'q' as u8, 'u' as u8, 'e' as u8, 's' as u8, 't' as u8];
    assert(arr@ =~= piece_request());
    push_bytes(out, arr.as_slice());
}

/// The bytes of `"Result"`.
pub open spec fn piece_result() -> Seq<u8> {
    seq!['R' as u8, 'e' as u8, 's' as u8, 'u' as u8, 'l' as u8, 't' as u8]
}

fn push_result(out: &mut Vec<u8>)
    ensures
        final(out)@ == old(out)@ + piece_result(),
{
    let arr: [u8; 6] = ['R' as u8, 'e' as u8, 's' as u8, 'u' as u8, 'l' as u8, 't' as u8];
    assert(arr@ =~= piece_result());
    push_bytes(out, arr.as_slice());
}

/// The bytes of `"Catalogs"`.
pub open spec fn piece_catalogs() -> Seq<u8> {
    seq!['C' as u8, 'a' as u8, 't' as u8, 'a' as u8, 'l' as u8, 'o' as u8, 'g' as u8, 's' as u8]
}

fn push_catalogs(out: &mut Vec<u8>)
    ensures
        final(out)@ == old(out)@ + piece_catalogs(),
{
    let arr: [u8; 8] = ['C' as u8, 'a' as u8, 't' as u8, 'a' as u8, 'l' as u8, 'o' as u8, 'g' as u8, 's' as u8];
    assert(arr@ =~= piece_catalogs());
    push_bytes(out, arr.as_slice());
}

/// The bytes of `"TableTypes"`.
pub open spec fn piece_table_types() -> Seq<u8> {
    seq!['T' as u8, 'a' as u8, 'b' as u8, 'l' as u8, 'e' as u8, 'T' as u8, 'y' as u8, 'p' as u8, 'e' as u8, 's' as u8]
}

fn push_table_types(out: &mut Vec<u8>)
    ensures
        final(out)@ == old(out)@ + piece_table_types(),
{
    let arr: [u8; 10] = ['T' as u8, 'a' as u8, 'b' as u8, 'l' as u8, 'e' as u8, 'T' as u8, 'y' as u8, 'p' as u8, 'e' as u8, 's' as u8];
    assert(arr@ =~= piece_table_types());
    push_bytes(out, arr.as_slice());
}

/// The bytes of `"DbSchemas"`.
pub open spec fn piece_db_schemas() -> Seq<u8> {
    seq!['D' as u8, 'b' as u8, 'S' as u8, 'c' as u8, 'h' as u8, 'e' as u8, 'm' as u8, 'a' as u8, 's' as u8]
}

fn push_db_schemas(out: &mut Vec<u8>)
    ensures
        final(out)@ == old(out)@ + piece_db_schemas(),
{
    let arr: [u8; 9] = ['D' as u8, 'b' as u8, 'S' as u8, 'c' as u8, 'h' as u8, 'e' as u8, 'm' as u8, 'a' as u8, 's' as u8];
    assert(arr@ =~= piece_db_schemas());
    push_bytes(out, arr.as_slice());
}

/// The bytes of `"Tables"`.
pub open spec fn piece_tables() -> Seq<u8> {
    seq!['T' as u8, 'a' as u8, 'b' as u8, 'l' as u8, 'e' as u8, 's' as u8]
}

fn push_tables(out: &mut Vec<u8>)
    ensures
        final(out)@ == old(out)@ + piece_tables(),
{
    let arr: [u8; 6] = ['T' as u8, 'a' as u8, 'b' as u8, 'l' as u8, 'e' as u8, 's' as u8];
    assert(arr@ =~= piece_tables());
    push_bytes(out, arr.as_slice());
}

/// The bytes of `"PrimaryKeys"`.
pub open spec fn piece_primary_keys() -> Seq<u8> {
    seq!['P' as u8, 'r' as u8, 'i' as u8, 'm' as u8, 'a' as u8, 'r' as u8, 'y' as u8, 'K' as u8, 'e' as u8, 'y' as u8, 's' as u8]
}

fn push_primary_keys(out: &mut Vec<u8>)
    ensures
        final(out)@ == old(out)@ + piece_primary_keys(),
{
    let arr: [u8; 11] = ['P' as u8, 'r' as u8, 'i' as u8, 'm' as u8, 'a' as u8, 'r' as u8, 'y' as u8, 'K' as u8, 'e' as u8, 'y' as u8, 's' as u8];
    assert(arr@ =~= piece_primary_keys());
    push_bytes(out, arr.as_slice());
}

/// The bytes of `"ExportedKeys"`.
pub open spec fn piece_exported_keys() -> Seq<u8> {
    seq!['E' as u8, 'x' as u8, 'p' as u8, 'o' as u8, 'r' as u8, 't' as u8, 'e' as u8, 'd' as u8, 'K' as u8, 'e' as u8, 'y' as u8, 's' as u8]
}

fn push_exported_keys(out: &mut Vec<u8>)
    ensures
        final(out)@ == old(out)@ + piece_exported_keys(),
{
    let arr: [u8; 12] = ['E' as u8, 'x' as u8, 'p' as u8, 'o' as u8, 'r' as u8, 't' as u8, 'e' as u8, 'd' as u8, 'K' as u8, 'e' as u8, 'y' as u8, 's' as u8];
    assert(arr@ =~= piece_exported_keys());
    push_bytes(out, arr.as_slice());
}

/// The bytes of `"ImportedKeys"`.
pub open spec fn piece_imported_keys() -> Seq<u8> {
    seq!['I' as u8, 'm' as u8, 'p' as u8, 'o' as u8, 'r' as u8, 't' as u8, 'e' as u8, 'd' as u8, 'K' as u8, 'e' as u8, 'y' as u8, 's' as u8]
}

fn push_imported_keys(out: &mut Vec<u8>)
    ensures
        final(out)@ == old(out)@ + piece_imported_keys(),
{
    let arr: [u8; 12] = ['I' as u8, 'm' as u8, 'p' as u8, 'o' as u8, 'r' as u8, 't' as u8, 'e' as u8, 'd' as u8, 'K' as u8, 'e' as u8, 'y' as u8, 's' as u8];
    assert(arr@ =~= piece_imported_keys());
    push_bytes(out, arr.as_slice());
}

/// The bytes of `"CrossReference"`.
pub open spec fn piece_cross_reference() -> Seq<u8> {
    seq!['C' as u8, 'r' as u8, 'o' as u8, 's' as u8, 's' as u8, 'R' as u8, 'e' as u8, 'f' as u8, 'e' as u8, 'r' as u8, 'e' as u8, 'n' as u8, 'c' as u8, 'e' as u8]
}

fn push_cross_reference(out: &mut Vec<u8>)
    ensures
        final(out)@ == old(out)@ + piece_cross_reference(),
{
    let arr: [u8; 14] = ['C' as u8, 'r' as u8, 'o' as u8, 's' as u8, 's' as u8, 'R' as u8, 'e' as u8, 'f' as u8, 'e' as u8, 'r' as u8, 'e' as u8, 'n' as u8, 'c' as u8, 'e' as u8];
    assert(arr@ =~= piece_cross_reference());
    push_bytes(out, arr.as_slice());
}

/// The bytes of `"SqlInfo"`.
pub open spec fn piece_sql_info() -> Seq<u8> {
    seq!['S' as u8, 'q' as u8, 'l' as u8, 'I' as u8, 'n' as u8, 'f' as u8, 'o' as u8]
}

fn push_sql_info(out: &mut Vec<u8>)
    ensures
        final(out)@ == old(out)@ + piece_sql_info(),
{
    let arr: [u8; 7] = ['S' as u8, 'q' as u8, 'l' as u8, 'I' as u8, 'n' as u8, 'f' as u8, 'o' as u8];
    assert(arr@ =~= piece_sql_info());
    push_bytes(out, arr.as_slice());
}

/// The bytes of `"DoPut"`.
pub open spec fn piece_do_put() -> Seq<u8> {
    seq!['D' as u8, 'o' as u8, 'P' as u8, 'u' as u8, 't' as u8]
}

fn push_do_put(out: &mut Vec<u8>)
    ensures
        final(out)@ == old(out)@ + piece_do_put(),
{
    let arr: [u8; 5] = ['D' as u8, 'o' as u8, 'P' as u8, 'u' as u8, 't' as u8];
    assert(arr@ =~= piece_do_put());
    push_bytes(out, arr.as_slice());
}

/// The full tag of a message type: the common prefix, then its name.
pub open spec fn spec_tag(t: MessageType) -> Seq<u8> {
    match t {
        MessageType::StatementQuery => piece_prefix() + piece_command() + piece_statement() + piece_query(),
        MessageType::StatementUpdate => piece_prefix() + piece_command() + piece_statement() + piece_update(),
        MessageType::GetCatalogs => piece_prefix() + piece_command() + piece_get() + piece_catalogs(),
        MessageType::GetTableTypes => piece_prefix() + piece_command() + piece_get() + piece_table_types(),
        MessageType::GetDbSchemas => piece_prefix() + piece_command() + piece_get() + piece_db_schemas(),
        MessageType::GetTables => piece_prefix() + piece_command() + piece_get() + piece_tables(),
        MessageType::GetPrimaryKeys => piece_prefix() + piece_command() + piece_get() + piece_primary_keys(),
        MessageType::GetExportedKeys => piece_prefix() + piece_command() + piece_get() + piece_exported_keys(),
        MessageType::GetImportedKeys => piece_prefix() + piece_command() + piece_get() + piece_imported_keys(),
        MessageType::GetCrossReference => piece_prefix() + piece_command() + piece_get() + piece_cross_reference(),
        MessageType::GetSqlInfo => piece_prefix() + piece_command() + piece_get() + piece_sql_info(),
        MessageType::PreparedStatementQuery => piece_prefix() + piece_command() + piece_prepared() + piece_statement() + piece_query(),
        MessageType::PreparedStatementUpdate => piece_prefix() + piece_command() + piece_prepared() + piece_statement() + piece_update(),
        MessageType::CreatePreparedStatementRequest => piece_prefix() + piece_action() + piece_create() + piece_prepared() + piece_statement() + piece_request(),
        MessageType::ClosePreparedStatementRequest => piece_prefix() + piece_action() + piece_close() + piece_prepared() + piece_statement() + piece_request(),
        MessageType::CreatePreparedStatementResult => piece_prefix() + piece_action() + piece_create() + piece_prepared() + piece_statement() + piece_result(),
        MessageType::DoPutUpdateResult => piece_prefix() + piece_do_put() + piece_update() + piece_result(),
    }
}

/// The length of each tag, spelled out; lengths alone separate most tags.
pub open spec fn spec_tag_len(t: MessageType) -> int {
    match t {
        MessageType::StatementQuery => 67,
        MessageType::StatementUpdate => 68,
        MessageType::GetCatalogs => 64,
        MessageType::GetTableTypes => 66,
        MessageType::GetDbSchemas => 65,
        MessageType::GetTables => 62,
        MessageType::GetPrimaryKeys => 67,
        MessageType::GetExportedKeys => 68,
        MessageType::GetImportedKeys => 68,
        MessageType::GetCrossReference => 70,
        MessageType::GetSqlInfo => 63,
        MessageType::PreparedStatementQuery => 75,
        MessageType::PreparedStatementUpdate => 76,
        MessageType::CreatePreparedStatementRequest => 82,
        MessageType::ClosePreparedStatementRequest => 81,
        MessageType::CreatePreparedStatementResult => 81,
        MessageType::DoPutUpdateResult => 63,
    }
}

proof fn lemma_tag_len(t: MessageType)
    ensures
        spec_tag(t).len() == spec_tag_len(t),
{
}

impl MessageType {
    /// The tag bytes this message type carries in an envelope.
    pub fn tag_bytes(self) -> (r: Vec<u8>)
        ensures
            r@ == spec_tag(self),
    {
        let mut r: Vec<u8> = Vec::new();
        push_prefix(&mut r);
        match self {
            MessageType::StatementQuery => {
                push_command(&mut r);
                push_statement(&mut r);
                push_query(&mut r);
            },
            MessageType::StatementUpdate => {
                push_command(&mut r);
                push_statement(&mut r);
                push_update(&mut r);
            },
            MessageType::GetCatalogs => {
                push_command(&mut r);
                push_get(&mut r);
                push_catalogs(&mut r);
            },
            MessageType::GetTableTypes => {
                push_command(&mut r);
                push_get(&mut r);
                push_table_types(&mut r);
            },
            MessageType::GetDbSchemas => {
                push_command(&mut r);
                push_get(&mut r);
                push_db_schemas(&mut r);
            },
            MessageType::GetTables => {
                push_command(&mut r);
                push_get(&mut r);
                push_tables(&mut r);
            },
            MessageType::GetPrimaryKeys => {
                push_command(&mut r);
                push_get(&mut r);
                push_primary_keys(&mut r);
            },
            MessageType::GetExportedKeys => {
                push_command(&mut r);
                push_get(&mut r);
                push_exported_keys(&mut r);
            },
            MessageType::GetImportedKeys => {
                push_command(&mut r);
                push_get(&mut r);
                push_imported_keys(&mut r);
            },
            MessageType::GetCrossReference => {
                push_command(&mut r);
                push_get(&mut r);
                push_cross_reference(&mut r);
            },
            MessageType::GetSqlInfo => {
                push_command(&mut r);
                push_get(&mut r);
                push_sql_info(&mut r);
            },
            MessageType::PreparedStatementQuery => {
                push_command(&mut r);
                push_prepared(&mut r);
                push_statement(&mut r);
                push_query(&mut r);
            },
            MessageType::PreparedStatementUpdate => {
                push_command(&mut r);
                push_prepared(&mut r);
                push_statement(&mut r);
                push_update(&mut r);
            },
            MessageType::CreatePreparedStatementRequest => {
                push_action(&mut r);
                push_create(&mut r);
                push_prepared(&mut r);
                push_statement(&mut r);
                push_request(&mut r);
            },
            MessageType::ClosePreparedStatementRequest => {
                push_action(&mut r);
                push_close(&mut r);
                push_prepared(&mut r);
                push_statement(&mut r);
                push_request(&mut r);
            },
            MessageType::CreatePreparedStatementResult => {
                push_action(&mut r);
                push_create(&mut r);
                push_prepared(&mut r);
                push_statement(&mut r);
                push_result(&mut r);
            },
            MessageType::DoPutUpdateResult => {
                push_do_put(&mut r);
                push_update(&mut r);
                push_result(&mut r);
            },
        }
        r
    }
}

/// Every tag is short: it fits any wire-format length field.
pub proof fn lemma_tag_fits(t: MessageType)
    ensures
        spec_tag(t).len() <= 100,
{
    lemma_tag_len(t);
}

/// No two message types share a tag.
#[verifier::rlimit(100)]
pub proof fn lemma_tags_distinct(t1: MessageType, t2: MessageType)
    requires
        t1 != t2,
    ensures
        spec_tag(t1) != spec_tag(t2),
{
    lemma_tag_len(t1);
    lemma_tag_len(t2);
    if spec_tag_len(t1) == spec_tag_len(t2) {
        // Equal lengths only happen for a handful of pairs, and for each of
        // those a single byte tells the two tags apart.
        assert(spec_tag(MessageType::StatementQuery)[53] == 'S' as u8);
        assert(spec_tag(MessageType::GetPrimaryKeys)[53] == 'G' as u8);
        assert(spec_tag(MessageType::StatementUpdate)[53] == 'S' as u8);
        assert(spec_tag(MessageType::GetExportedKeys)[53] == 'G' as u8);
        assert(spec_tag(MessageType::StatementUpdate)[53] == 'S' as u8);
        assert(spec_tag(MessageType::GetImportedKeys)[53] == 'G' as u8);
        assert(spec_tag(MessageType::GetExportedKeys)[56] == 'E' as u8);
        assert(spec_tag(MessageType::GetImportedKeys)[56] == 'I' as u8);
        assert(spec_tag(MessageType::GetSqlInfo)[46] == 'C' as u8);
        assert(spec_tag(MessageType::DoPutUpdateResult)[46] == 'D' as u8);
        assert(spec_tag(MessageType::ClosePreparedStatementRequest)[53] == 'l' as u8);
        assert(spec_tag(MessageType::CreatePreparedStatementResult)[53] == 'r' as u8);
    }
}

} // verus!
