//! The typed messages of the Flight SQL protocol and their canonical binary
//! encoding.
//!
//! [`Command`] is the closed set of requests a client can issue; the two
//! result structs carry what a server hands back.  Each message encodes to
//! a fixed schema of numbered fields (strings, byte strings, booleans and
//! integer lists), written out through the wire layer.  The spec-level
//! shadow of a message is its view; [`spec_fields_of`] gives the field
//! list a message encodes to, and [`spec_body`] the bytes.

use crate::tags::MessageType;
use crate::wire::{
    encode_bytes_field, encode_int_field, encode_varint, spec_enc_field, spec_enc_fields,
    spec_varint, SpecField,
};
use vstd::prelude::*;

verus! {

// ---------------------------------------------------------------------------
// the messages
// ---------------------------------------------------------------------------

/// A typed Flight SQL command.  Text (queries, names, patterns) is carried
/// as its UTF-8 bytes; handles are opaque bytes from the server.
#[derive(Debug, Clone, PartialEq, Eq)]
pub enum Command {
    StatementQuery { query: Vec<u8> },
    StatementUpdate { query: Vec<u8> },
    GetCatalogs,
    GetTableTypes,
    GetDbSchemas { catalog: Option<Vec<u8>>, db_schema_filter_pattern: Option<Vec<u8>> },
    GetTables {
        catalog: Option<Vec<u8>>,
        db_schema_filter_pattern: Option<Vec<u8>>,
        table_name_filter_pattern: Option<Vec<u8>>,
        table_types: Vec<Vec<u8>>,
        include_schema: bool,
    },
    GetPrimaryKeys { catalog: Option<Vec<u8>>, db_schema: Option<Vec<u8>>, table: Vec<u8> },
    GetExportedKeys { catalog: Option<Vec<u8>>, db_schema: Option<Vec<u8>>, table: Vec<u8> },
    GetImportedKeys { catalog: Option<Vec<u8>>, db_schema: Option<Vec<u8>>, table: Vec<u8> },
    GetCrossReference {
        pk_catalog: Option<Vec<u8>>,
        pk_db_schema: Option<Vec<u8>>,
        pk_table: Vec<u8>,
        fk_catalog: Option<Vec<u8>>,
        fk_db_schema: Option<Vec<u8>>,
        fk_table: Vec<u8>,
    },
    GetSqlInfo { info: Vec<u32> },
    PreparedStatementQuery { prepared_statement_handle: Vec<u8> },
    PreparedStatementUpdate { prepared_statement_handle: Vec<u8> },
    CreatePreparedStatement { query: Vec<u8> },
    ClosePreparedStatement { prepared_statement_handle: Vec<u8> },
}

/// The mathematical shadow of [`Command`].
#[verifier::ext_equal]
pub enum SpecCommand {
    StatementQuery { query: Seq<u8> },
    StatementUpdate { query: Seq<u8> },
    GetCatalogs,
    GetTableTypes,
    GetDbSchemas { catalog: Option<Seq<u8>>, db_schema_filter_pattern: Option<Seq<u8>> },
    GetTables {
        catalog: Option<Seq<u8>>,
        db_schema_filter_pattern: Option<Seq<u8>>,
        table_name_filter_pattern: Option<Seq<u8>>,
        table_types: Seq<Seq<u8>>,
        include_schema: bool,
    },
    GetPrimaryKeys { catalog: Option<Seq<u8>>, db_schema: Option<Seq<u8>>, table: Seq<u8> },
    GetExportedKeys { catalog: Option<Seq<u8>>, db_schema: Option<Seq<u8>>, table: Seq<u8> },
    GetImportedKeys { catalog: Option<Seq<u8>>, db_schema: Option<Seq<u8>>, table: Seq<u8> },
    GetCrossReference {
        pk_catalog: Option<Seq<u8>>,
        pk_db_schema: Option<Seq<u8>>,
        pk_table: Seq<u8>,
        fk_catalog: Option<Seq<u8>>,
        fk_db_schema: Option<Seq<u8>>,
        fk_table: Seq<u8>,
    },
    GetSqlInfo { info: Seq<u32> },
    PreparedStatementQuery { prepared_statement_handle: Seq<u8> },
    PreparedStatementUpdate { prepared_statement_handle: Seq<u8> },
    CreatePreparedStatement { query: Seq<u8> },
    ClosePreparedStatement { prepared_statement_handle: Seq<u8> },
}

/// The view of an optional byte string.
pub open spec fn opt_view(o: Option<Vec<u8>>) -> Option<Seq<u8>> {
    match o {
        Option::None => Option::None,
        Option::Some(v) => Option::Some(v@),
    }
}

/// The view of a list of byte strings.
pub open spec fn vecs_view(s: Seq<Vec<u8>>) -> Seq<Seq<u8>> {
    s.map_values(|v: Vec<u8>| v@)
}

impl View for Command {
    type V = SpecCommand;

    open spec fn view(&self) -> SpecCommand {
        match self {
            Command::StatementQuery { query } => SpecCommand::StatementQuery { query: query@ },
            Command::StatementUpdate { query } => SpecCommand::StatementUpdate { query: query@ },
            Command::GetCatalogs => SpecCommand::GetCatalogs,
            Command::GetTableTypes => SpecCommand::GetTableTypes,
            Command::GetDbSchemas { catalog, db_schema_filter_pattern } => {
                SpecCommand::GetDbSchemas {
                    catalog: opt_view(*catalog),
                    db_schema_filter_pattern: opt_view(*db_schema_filter_pattern),
                }
            },
            Command::GetTables {
                catalog,
                db_schema_filter_pattern,
                table_name_filter_pattern,
                table_types,
                include_schema,
            } => SpecCommand::GetTables {
                catalog: opt_view(*catalog),
                db_schema_filter_pattern: opt_view(*db_schema_filter_pattern),
                table_name_filter_pattern: opt_view(*table_name_filter_pattern),
                table_types: vecs_view(table_types@),
                include_schema: *include_schema,
            },
            Command::GetPrimaryKeys { catalog, db_schema, table } => SpecCommand::GetPrimaryKeys {
                catalog: opt_view(*catalog),
                db_schema: opt_view(*db_schema),
                table: table@,
            },
            Command::GetExportedKeys { catalog, db_schema, table } => {
                SpecCommand::GetExportedKeys {
                    catalog: opt_view(*catalog),
                    db_schema: opt_view(*db_schema),
                    table: table@,
                }
            },
            Command::GetImportedKeys { catalog, db_schema, table } => {
                SpecCommand::GetImportedKeys {
                    catalog: opt_view(*catalog),
                    db_schema: opt_view(*db_schema),
                    table: table@,
                }
            },
            Command::GetCrossReference {
                pk_catalog,
                pk_db_schema,
                pk_table,
                fk_catalog,
                fk_db_schema,
                fk_table,
            } => SpecCommand::GetCrossReference {
                pk_catalog: opt_view(*pk_catalog),
                pk_db_schema: opt_view(*pk_db_schema),
                pk_table: pk_table@,
                fk_catalog: opt_view(*fk_catalog),
                fk_db_schema: opt_view(*fk_db_schema),
                fk_table: fk_table@,
            },
            Command::GetSqlInfo { info } => SpecCommand::GetSqlInfo { info: info@ },
            Command::PreparedStatementQuery { prepared_statement_handle } => {
                SpecCommand::PreparedStatementQuery {
                    prepared_statement_handle: prepared_statement_handle@,
                }
            },
            Command::PreparedStatementUpdate { prepared_statement_handle } => {
                SpecCommand::PreparedStatementUpdate {
                    prepared_statement_handle: prepared_statement_handle@,
                }
            },
            Command::CreatePreparedStatement { query } => SpecCommand::CreatePreparedStatement {
                query: query@,
            },
            Command::ClosePreparedStatement { prepared_statement_handle } => {
                SpecCommand::ClosePreparedStatement {
                    prepared_statement_handle: prepared_statement_handle@,
                }
            },
        }
    }
}

/// The message type a command encodes as.
pub open spec fn spec_msg_type(c: SpecCommand) -> MessageType {
    match c {
        SpecCommand::StatementQuery { .. } => MessageType::StatementQuery,
        SpecCommand::StatementUpdate { .. } => MessageType::StatementUpdate,
        SpecCommand::GetCatalogs => MessageType::GetCatalogs,
        SpecCommand::GetTableTypes => MessageType::GetTableTypes,
        SpecCommand::GetDbSchemas { .. } => MessageType::GetDbSchemas,
        SpecCommand::GetTables { .. } => MessageType::GetTables,
        SpecCommand::GetPrimaryKeys { .. } => MessageType::GetPrimaryKeys,
        SpecCommand::GetExportedKeys { .. } => MessageType::GetExportedKeys,
        SpecCommand::GetImportedKeys { .. } => MessageType::GetImportedKeys,
        SpecCommand::GetCrossReference { .. } => MessageType::GetCrossReference,
        SpecCommand::GetSqlInfo { .. } => MessageType::GetSqlInfo,
        SpecCommand::PreparedStatementQuery { .. } => MessageType::PreparedStatementQuery,
        SpecCommand::PreparedStatementUpdate { .. } => MessageType::PreparedStatementUpdate,
        SpecCommand::CreatePreparedStatement { .. } => MessageType::CreatePreparedStatementRequest,
        SpecCommand::ClosePreparedStatement { .. } => MessageType::ClosePreparedStatementRequest,
    }
}

/// Whether a byte string fits the wire format's 64-bit length.
pub open spec fn bytes_fit(s: Seq<u8>) -> bool {
    s.len() <= u64::MAX
}

/// Whether an optional byte string fits.
pub open spec fn opt_fits(o: Option<Seq<u8>>) -> bool {
    match o {
        Option::None => true,
        Option::Some(b) => bytes_fit(b),
    }
}

/// Machine-limit bounds under which a command can be encoded: every byte
/// string must fit a 64-bit length.  Any value built from in-memory
/// vectors satisfies these.
pub open spec fn spec_wf(c: SpecCommand) -> bool {
    match c {
        SpecCommand::StatementQuery { query } => bytes_fit(query),
        SpecCommand::StatementUpdate { query } => bytes_fit(query),
        SpecCommand::GetCatalogs => true,
        SpecCommand::GetTableTypes => true,
        SpecCommand::GetDbSchemas { catalog, db_schema_filter_pattern } => opt_fits(catalog)
            && opt_fits(db_schema_filter_pattern),
        SpecCommand::GetTables {
            catalog,
            db_schema_filter_pattern,
            table_name_filter_pattern,
            table_types,
            ..
        } => opt_fits(catalog) && opt_fits(db_schema_filter_pattern) && opt_fits(
            table_name_filter_pattern,
        ) && forall|i: int| 0 <= i < table_types.len() ==> bytes_fit(#[trigger] table_types[i]),
        SpecCommand::GetPrimaryKeys { catalog, db_schema, table } => opt_fits(catalog) && opt_fits(
            db_schema,
        ) && bytes_fit(table),
        SpecCommand::GetExportedKeys { catalog, db_schema, table } => opt_fits(catalog)
            && opt_fits(db_schema) && bytes_fit(table),
        SpecCommand::GetImportedKeys { catalog, db_schema, table } => opt_fits(catalog)
            && opt_fits(db_schema) && bytes_fit(table),
        SpecCommand::GetCrossReference {
            pk_catalog,
            pk_db_schema,
            pk_table,
            fk_catalog,
            fk_db_schema,
            fk_table,
        } => opt_fits(pk_catalog) && opt_fits(pk_db_schema) && bytes_fit(pk_table) && opt_fits(
            fk_catalog,
        ) && opt_fits(fk_db_schema) && bytes_fit(fk_table),
        SpecCommand::GetSqlInfo { info } => info.len() <= u64::MAX / 16,
        SpecCommand::PreparedStatementQuery { prepared_statement_handle } => bytes_fit(
            prepared_statement_handle,
        ),
        SpecCommand::PreparedStatementUpdate { prepared_statement_handle } => bytes_fit(
            prepared_statement_handle,
        ),
        SpecCommand::CreatePreparedStatement { query } => bytes_fit(query),
        SpecCommand::ClosePreparedStatement { prepared_statement_handle } => bytes_fit(
            prepared_statement_handle,
        ),
    }
}

// ---------------------------------------------------------------------------
// field lists
// ---------------------------------------------------------------------------

/// An optional byte-string field: present exactly when the option is.
pub open spec fn opt_fields(tag: u64, o: Option<Seq<u8>>) -> Seq<(u64, SpecField)> {
    match o {
        Option::None => Seq::empty(),
        Option::Some(b) => seq![(tag, SpecField::Bytes(b))],
    }
}

/// A plain string or byte-string field: omitted when empty.
pub open spec fn str_fields(tag: u64, s: Seq<u8>) -> Seq<(u64, SpecField)> {
    if s.len() == 0 {
        Seq::empty()
    } else {
        seq![(tag, SpecField::Bytes(s))]
    }
}

/// A boolean field: omitted when false.
pub open spec fn bool_fields(tag: u64, b: bool) -> Seq<(u64, SpecField)> {
    if b {
        seq![(tag, SpecField::Int(1))]
    } else {
        Seq::empty()
    }
}

/// A 64-bit integer field: omitted when zero, else its two's-complement
/// value as a varint.
pub open spec fn i64_fields(tag: u64, v: i64) -> Seq<(u64, SpecField)> {
    if v == 0 {
        Seq::empty()
    } else {
        seq![(tag, SpecField::Int(v as u64))]
    }
}

/// A repeated byte-string field: one field per element, in order.
pub open spec fn rep_fields(tag: u64, items: Seq<Seq<u8>>) -> Seq<(u64, SpecField)> {
    Seq::new(items.len(), |i: int| (tag, SpecField::Bytes(items[i])))
}

/// The packed payload of a repeated 32-bit integer field: the values'
/// varints, concatenated.
pub open spec fn spec_packed_u32(vs: Seq<u32>) -> Seq<u8>
    decreases vs.len(),
{
    if vs.len() == 0 {
        Seq::empty()
    } else {
        spec_varint(vs[0] as u64) + spec_packed_u32(vs.drop_first())
    }
}

/// A packed repeated 32-bit integer field: omitted when empty.
pub open spec fn packed_fields(tag: u64, vs: Seq<u32>) -> Seq<(u64, SpecField)> {
    if vs.len() == 0 {
        Seq::empty()
    } else {
        seq![(tag, SpecField::Bytes(spec_packed_u32(vs)))]
    }
}

/// The field list a command encodes to, in field-number order.
pub open spec fn spec_fields_of(c: SpecCommand) -> Seq<(u64, SpecField)> {
    match c {
        SpecCommand::StatementQuery { query } => str_fields(1, query),
        SpecCommand::StatementUpdate { query } => str_fields(1, query),
        SpecCommand::GetCatalogs => Seq::empty(),
        SpecCommand::GetTableTypes => Seq::empty(),
        SpecCommand::GetDbSchemas { catalog, db_schema_filter_pattern } => opt_fields(1, catalog)
            + opt_fields(2, db_schema_filter_pattern),
        SpecCommand::GetTables {
            catalog,
            db_schema_filter_pattern,
            table_name_filter_pattern,
            table_types,
            include_schema,
        } => opt_fields(1, catalog) + opt_fields(2, db_schema_filter_pattern) + opt_fields(
            3,
            table_name_filter_pattern,
        ) + rep_fields(4, table_types) + bool_fields(5, include_schema),
        SpecCommand::GetPrimaryKeys { catalog, db_schema, table } => opt_fields(1, catalog)
            + opt_fields(2, db_schema) + str_fields(3, table),
        SpecCommand::GetExportedKeys { catalog, db_schema, table } => opt_fields(1, catalog)
            + opt_fields(2, db_schema) + str_fields(3, table),
        SpecCommand::GetImportedKeys { catalog, db_schema, table } => opt_fields(1, catalog)
            + opt_fields(2, db_schema) + str_fields(3, table),
        SpecCommand::GetCrossReference {
            pk_catalog,
            pk_db_schema,
            pk_table,
            fk_catalog,
            fk_db_schema,
            fk_table,
        } => opt_fields(1, pk_catalog) + opt_fields(2, pk_db_schema) + str_fields(3, pk_table)
            + opt_fields(4, fk_catalog) + opt_fields(5, fk_db_schema) + str_fields(6, fk_table),
        SpecCommand::GetSqlInfo { info } => packed_fields(1, info),
        SpecCommand::PreparedStatementQuery { prepared_statement_handle } => str_fields(
            1,
            prepared_statement_handle,
        ),
        SpecCommand::PreparedStatementUpdate { prepared_statement_handle } => str_fields(
            1,
            prepared_statement_handle,
        ),
        SpecCommand::CreatePreparedStatement { query } => str_fields(1, query),
        SpecCommand::ClosePreparedStatement { prepared_statement_handle } => str_fields(
            1,
            prepared_statement_handle,
        ),
    }
}

/// The canonical body bytes of a command.
pub open spec fn spec_body(c: SpecCommand) -> Seq<u8> {
    spec_enc_fields(spec_fields_of(c))
}

// ---------------------------------------------------------------------------
// encoding helpers
// ---------------------------------------------------------------------------

/// `spec_enc_fields` splits over concatenation.
pub proof fn lemma_enc_fields_app(a: Seq<(u64, SpecField)>, b: Seq<(u64, SpecField)>)
    ensures
        spec_enc_fields(a + b) == spec_enc_fields(a) + spec_enc_fields(b),
    decreases a.len(),
{
    if a.len() == 0 {
        assert(a + b =~= b);
        assert(spec_enc_fields(a) + spec_enc_fields(b) =~= spec_enc_fields(b));
    } else {
        lemma_enc_fields_app(a.drop_first(), b);
        assert((a + b).drop_first() =~= a.drop_first() + b);
        assert((a + b)[0] == a[0]);
        assert(spec_enc_field(a[0]) + (spec_enc_fields(a.drop_first()) + spec_enc_fields(b))
            =~= (spec_enc_field(a[0]) + spec_enc_fields(a.drop_first())) + spec_enc_fields(b));
    }
}

/// A one-field list encodes to that field's bytes.
pub proof fn lemma_enc_fields_one(f: (u64, SpecField))
    ensures
        spec_enc_fields(seq![f]) == spec_enc_field(f),
{
    assert(seq![f].len() == 1);
    assert(seq![f][0] == f);
    assert(seq![f].drop_first() =~= Seq::<(u64, SpecField)>::empty());
    assert(spec_enc_fields(Seq::<(u64, SpecField)>::empty()) == Seq::<u8>::empty());
    assert(spec_enc_fields(seq![f]) == spec_enc_field(f) + Seq::<u8>::empty());
    assert(spec_enc_field(f) + Seq::<u8>::empty() =~= spec_enc_field(f));
}

/// Appending one value extends a packed payload on the right.
pub proof fn lemma_packed_push(vs: Seq<u32>, x: u32)
    ensures
        spec_packed_u32(vs.push(x)) == spec_packed_u32(vs) + spec_varint(x as u64),
    decreases vs.len(),
{
    if vs.len() == 0 {
        assert(vs.push(x)[0] == x);
        assert(vs.push(x).drop_first() =~= Seq::<u32>::empty());
        assert(spec_packed_u32(Seq::<u32>::empty()) == Seq::<u8>::empty());
        assert(spec_packed_u32(vs.push(x)) == spec_varint(x as u64) + Seq::<u8>::empty());
        assert(spec_varint(x as u64) + Seq::<u8>::empty() =~= spec_varint(x as u64));
        assert(spec_packed_u32(vs) + spec_varint(x as u64) =~= spec_varint(x as u64));
    } else {
        lemma_packed_push(vs.drop_first(), x);
        assert(vs.push(x).drop_first() =~= vs.drop_first().push(x));
        assert(vs.push(x)[0] == vs[0]);
        assert(spec_varint(vs[0] as u64) + (spec_packed_u32(vs.drop_first()) + spec_varint(
            x as u64,
        )) =~= (spec_varint(vs[0] as u64) + spec_packed_u32(vs.drop_first())) + spec_varint(
            x as u64,
        ));
    }
}

/// Emits an optional byte-string field.
fn emit_opt(out: &mut Vec<u8>, tag: u64, o: &Option<Vec<u8>>)
    requires
        1 <= tag <= 0x1000_0000,
    ensures
        final(out)@ == old(out)@ + spec_enc_fields(opt_fields(tag, opt_view(*o))),
{
    match o {
        Option::None => {
            assert(old(out)@ + spec_enc_fields(opt_fields(tag, opt_view(*o))) =~= out@);
        },
        Option::Some(v) => {
            encode_bytes_field(out, tag, v.as_slice());
            proof {
                lemma_enc_fields_one((tag, SpecField::Bytes(v@)));
            }
        },
    }
}

/// Emits a plain string or byte-string field, omitted when empty.
pub fn emit_str(out: &mut Vec<u8>, tag: u64, s: &Vec<u8>)
    requires
        1 <= tag <= 0x1000_0000,
    ensures
        final(out)@ == old(out)@ + spec_enc_fields(str_fields(tag, s@)),
{
    if s.len() > 0 {
        encode_bytes_field(out, tag, s.as_slice());
        proof {
            lemma_enc_fields_one((tag, SpecField::Bytes(s@)));
        }
    } else {
        assert(old(out)@ + spec_enc_fields(str_fields(tag, s@)) =~= out@);
    }
}

/// Emits a boolean field, omitted when false.
fn emit_bool(out: &mut Vec<u8>, tag: u64, b: bool)
    requires
        1 <= tag <= 0x1000_0000,
    ensures
        final(out)@ == old(out)@ + spec_enc_fields(bool_fields(tag, b)),
{
    if b {
        encode_int_field(out, tag, 1);
        proof {
            lemma_enc_fields_one((tag, SpecField::Int(1)));
        }
    } else {
        assert(old(out)@ + spec_enc_fields(bool_fields(tag, b)) =~= out@);
    }
}

/// Emits a 64-bit integer field, omitted when zero.
fn emit_i64(out: &mut Vec<u8>, tag: u64, v: i64)
    requires
        1 <= tag <= 0x1000_0000,
    ensures
        final(out)@ == old(out)@ + spec_enc_fields(i64_fields(tag, v)),
{
    if v != 0 {
        encode_int_field(out, tag, v as u64);
        proof {
            lemma_enc_fields_one((tag, SpecField::Int(v as u64)));
        }
    } else {
        assert(old(out)@ + spec_enc_fields(i64_fields(tag, v)) =~= out@);
    }
}

/// Emits a repeated byte-string field, one element at a time.
fn emit_rep(out: &mut Vec<u8>, tag: u64, items: &Vec<Vec<u8>>)
    requires
        1 <= tag <= 0x1000_0000,
    ensures
        final(out)@ == old(out)@ + spec_enc_fields(rep_fields(tag, vecs_view(items@))),
{
    let ghost all = vecs_view(items@);
    let mut k: usize = 0;
    proof {
        assert(rep_fields(tag, all.take(0)) =~= Seq::<(u64, SpecField)>::empty());
        assert(out@ + spec_enc_fields(rep_fields(tag, all.take(0))) =~= out@);
    }
    while k < items.len()
        invariant
            1 <= tag <= 0x1000_0000,
            k <= items@.len(),
            all == vecs_view(items@),
            out@ =~= old(out)@ + spec_enc_fields(rep_fields(tag, all.take(k as int))),
        decreases items@.len() - k,
    {
        let ghost pre = out@;
        encode_bytes_field(out, tag, items[k].as_slice());
        proof {
            let f = (tag, SpecField::Bytes(items@[k as int]@));
            assert(rep_fields(tag, all.take(k as int + 1)) =~= rep_fields(
                tag,
                all.take(k as int),
            ).push(f));
            assert(rep_fields(tag, all.take(k as int)).push(f) =~= rep_fields(
                tag,
                all.take(k as int),
            ) + seq![f]);
            lemma_enc_fields_app(rep_fields(tag, all.take(k as int)), seq![f]);
            lemma_enc_fields_one(f);
            assert(out@ =~= old(out)@ + spec_enc_fields(rep_fields(tag, all.take(k as int + 1))));
        }
        k = k + 1;
    }
    assert(all.take(items@.len() as int) =~= all);
}

/// Emits a packed repeated 32-bit integer field, omitted when empty.
fn emit_packed(out: &mut Vec<u8>, tag: u64, vs: &Vec<u32>)
    requires
        1 <= tag <= 0x1000_0000,
    ensures
        final(out)@ == old(out)@ + spec_enc_fields(packed_fields(tag, vs@)),
{
    if vs.len() == 0 {
        assert(old(out)@ + spec_enc_fields(packed_fields(tag, vs@)) =~= out@);
        return ;
    }
    let mut payload: Vec<u8> = Vec::new();
    let mut k: usize = 0;
    proof {
        assert(spec_packed_u32(vs@.take(0)) =~= Seq::<u8>::empty());
    }
    while k < vs.len()
        invariant
            k <= vs@.len(),
            payload@ =~= spec_packed_u32(vs@.take(k as int)),
        decreases vs@.len() - k,
    {
        encode_varint(&mut payload, vs[k] as u64);
        proof {
            assert(vs@.take(k as int + 1) =~= vs@.take(k as int).push(vs@[k as int]));
            lemma_packed_push(vs@.take(k as int), vs@[k as int]);
        }
        k = k + 1;
    }
    assert(vs@.take(vs@.len() as int) =~= vs@);
    encode_bytes_field(out, tag, payload.as_slice());
    proof {
        lemma_enc_fields_one((tag, SpecField::Bytes(spec_packed_u32(vs@))));
    }
}

// ---------------------------------------------------------------------------
// command encoding
// ---------------------------------------------------------------------------

impl Command {
    /// The message type this command encodes as.
    pub fn msg_type(&self) -> (t: MessageType)
        ensures
            t == spec_msg_type(self@),
    {
        match self {
            Command::StatementQuery { .. } => MessageType::StatementQuery,
            Command::StatementUpdate { .. } => MessageType::StatementUpdate,
            Command::GetCatalogs => MessageType::GetCatalogs,
            Command::GetTableTypes => MessageType::GetTableTypes,
            Command::GetDbSchemas { .. } => MessageType::GetDbSchemas,
            Command::GetTables { .. } => MessageType::GetTables,
            Command::GetPrimaryKeys { .. } => MessageType::GetPrimaryKeys,
            Command::GetExportedKeys { .. } => MessageType::GetExportedKeys,
            Command::GetImportedKeys { .. } => MessageType::GetImportedKeys,
            Command::GetCrossReference { .. } => MessageType::GetCrossReference,
            Command::GetSqlInfo { .. } => MessageType::GetSqlInfo,
            Command::PreparedStatementQuery { .. } => MessageType::PreparedStatementQuery,
            Command::PreparedStatementUpdate { .. } => MessageType::PreparedStatementUpdate,
            Command::CreatePreparedStatement { .. } => MessageType::CreatePreparedStatementRequest,
            Command::ClosePreparedStatement { .. } => MessageType::ClosePreparedStatementRequest,
        }
    }

    /// The canonical binary body of this command.
    pub fn encode_body(&self) -> (r: Vec<u8>)
        ensures
            r@ == spec_body(self@),
    {
        let mut out: Vec<u8> = Vec::new();
        match self {
            Command::StatementQuery { query } => {
                emit_str(&mut out, 1, query);
            },
            Command::StatementUpdate { query } => {
                emit_str(&mut out, 1, query);
            },
            Command::GetCatalogs => {
            },
            Command::GetTableTypes => {
            },
            Command::GetDbSchemas { catalog, db_schema_filter_pattern } => {
                emit_opt(&mut out, 1, catalog);
                emit_opt(&mut out, 2, db_schema_filter_pattern);
                proof {
                    let a = opt_fields(1, opt_view(*catalog));
                    let b = opt_fields(2, opt_view(*db_schema_filter_pattern));
                    lemma_enc_fields_app(a, b);
                }
            },
            Command::GetTables {
                catalog,
                db_schema_filter_pattern,
                table_name_filter_pattern,
                table_types,
                include_schema,
            } => {
                emit_opt(&mut out, 1, catalog);
                emit_opt(&mut out, 2, db_schema_filter_pattern);
                emit_opt(&mut out, 3, table_name_filter_pattern);
                emit_rep(&mut out, 4, table_types);
                emit_bool(&mut out, 5, *include_schema);
                proof {
                    let a = opt_fields(1, opt_view(*catalog));
                    let b = opt_fields(2, opt_view(*db_schema_filter_pattern));
                    let c = opt_fields(3, opt_view(*table_name_filter_pattern));
                    let d = rep_fields(4, vecs_view(table_types@));
                    let e = bool_fields(5, *include_schema);
                    lemma_enc_fields_app(a, b);
                    lemma_enc_fields_app(a + b, c);
                    lemma_enc_fields_app(a + b + c, d);
                    lemma_enc_fields_app(a + b + c + d, e);
                }
            },
            Command::GetPrimaryKeys { catalog, db_schema, table } => {
                emit_opt(&mut out, 1, catalog);
                emit_opt(&mut out, 2, db_schema);
                emit_str(&mut out, 3, table);
                proof {
                    let a = opt_fields(1, opt_view(*catalog));
                    let b = opt_fields(2, opt_view(*db_schema));
                    let c = str_fields(3, table@);
                    lemma_enc_fields_app(a, b);
                    lemma_enc_fields_app(a + b, c);
                }
            },
            Command::GetExportedKeys { catalog, db_schema, table } => {
                emit_opt(&mut out, 1, catalog);
                emit_opt(&mut out, 2, db_schema);
                emit_str(&mut out, 3, table);
                proof {
                    let a = opt_fields(1, opt_view(*catalog));
                    let b = opt_fields(2, opt_view(*db_schema));
                    let c = str_fields(3, table@);
                    lemma_enc_fields_app(a, b);
                    lemma_enc_fields_app(a + b, c);
                }
            },
            Command::GetImportedKeys { catalog, db_schema, table } => {
                emit_opt(&mut out, 1, catalog);
                emit_opt(&mut out, 2, db_schema);
                emit_str(&mut out, 3, table);
                proof {
                    let a = opt_fields(1, opt_view(*catalog));
                    let b = opt_fields(2, opt_view(*db_schema));
                    let c = str_fields(3, table@);
                    lemma_enc_fields_app(a, b);
                    lemma_enc_fields_app(a + b, c);
                }
            },
            Command::GetCrossReference {
                pk_catalog,
                pk_db_schema,
                pk_table,
                fk_catalog,
                fk_db_schema,
                fk_table,
            } => {
                emit_opt(&mut out, 1, pk_catalog);
                emit_opt(&mut out, 2, pk_db_schema);
                emit_str(&mut out, 3, pk_table);
                emit_opt(&mut out, 4, fk_catalog);
                emit_opt(&mut out, 5, fk_db_schema);
                emit_str(&mut out, 6, fk_table);
                proof {
                    let a = opt_fields(1, opt_view(*pk_catalog));
                    let b = opt_fields(2, opt_view(*pk_db_schema));
                    let c = str_fields(3, pk_table@);
                    let d = opt_fields(4, opt_view(*fk_catalog));
                    let e = opt_fields(5, opt_view(*fk_db_schema));
                    let f = str_fields(6, fk_table@);
                    lemma_enc_fields_app(a, b);
                    lemma_enc_fields_app(a + b, c);
                    lemma_enc_fields_app(a + b + c, d);
                    lemma_enc_fields_app(a + b + c + d, e);
                    lemma_enc_fields_app(a + b + c + d + e, f);
                }
            },
            Command::GetSqlInfo { info } => {
                emit_packed(&mut out, 1, info);
            },
            Command::PreparedStatementQuery { prepared_statement_handle } => {
                emit_str(&mut out, 1, prepared_statement_handle);
            },
            Command::PreparedStatementUpdate { prepared_statement_handle } => {
                emit_str(&mut out, 1, prepared_statement_handle);
            },
            Command::CreatePreparedStatement { query } => {
                emit_str(&mut out, 1, query);
            },
            Command::ClosePreparedStatement { prepared_statement_handle } => {
                emit_str(&mut out, 1, prepared_statement_handle);
            },
        }
        out
    }
}

// ---------------------------------------------------------------------------
// server results
// ---------------------------------------------------------------------------

/// The result envelope of an update execution: how many rows changed.
#[derive(Debug, Clone, Copy, PartialEq, Eq, Structural)]
pub struct DoPutUpdateResult {
    pub record_count: i64,
}

/// The field list of an update result.
pub open spec fn spec_update_result_fields(r: DoPutUpdateResult) -> Seq<(u64, SpecField)> {
    i64_fields(1, r.record_count)
}

/// The canonical body bytes of an update result.
pub open spec fn spec_update_result_body(r: DoPutUpdateResult) -> Seq<u8> {
    spec_enc_fields(spec_update_result_fields(r))
}

impl DoPutUpdateResult {
    /// The canonical binary body of this result.
    pub fn encode_body(&self) -> (r: Vec<u8>)
        ensures
            r@ == spec_update_result_body(*self),
    {
        let mut out: Vec<u8> = Vec::new();
        emit_i64(&mut out, 1, self.record_count);
        out
    }
}

/// The result of creating a prepared statement: the server-assigned handle
/// and the two schema blobs that come with it.
#[derive(Debug, Clone, PartialEq, Eq)]
pub struct CreatePreparedStatementResult {
    pub prepared_statement_handle: Vec<u8>,
    pub dataset_schema: Vec<u8>,
    pub parameter_schema: Vec<u8>,
}

/// The mathematical shadow of [`CreatePreparedStatementResult`].
#[verifier::ext_equal]
pub struct SpecPreparedResult {
    pub prepared_statement_handle: Seq<u8>,
    pub dataset_schema: Seq<u8>,
    pub parameter_schema: Seq<u8>,
}

impl View for CreatePreparedStatementResult {
    type V = SpecPreparedResult;

    open spec fn view(&self) -> SpecPreparedResult {
        SpecPreparedResult {
            prepared_statement_handle: self.prepared_statement_handle@,
            dataset_schema: self.dataset_schema@,
            parameter_schema: self.parameter_schema@,
        }
    }
}

/// Machine-limit bounds under which the result can be encoded.
pub open spec fn spec_prepared_result_wf(r: SpecPreparedResult) -> bool {
    bytes_fit(r.prepared_statement_handle) && bytes_fit(r.dataset_schema) && bytes_fit(
        r.parameter_schema,
    )
}

/// The field list of a prepared-statement creation result.
pub open spec fn spec_prepared_result_fields(r: SpecPreparedResult) -> Seq<(u64, SpecField)> {
    str_fields(1, r.prepared_statement_handle) + str_fields(2, r.dataset_schema) + str_fields(
        3,
        r.parameter_schema,
    )
}

/// The canonical body bytes of a prepared-statement creation result.
pub open spec fn spec_prepared_result_body(r: SpecPreparedResult) -> Seq<u8> {
    spec_enc_fields(spec_prepared_result_fields(r))
}

impl CreatePreparedStatementResult {
    /// The canonical binary body of this result.
    pub fn encode_body(&self) -> (r: Vec<u8>)
        ensures
            r@ == spec_prepared_result_body(self@),
    {
        let mut out: Vec<u8> = Vec::new();
        emit_str(&mut out, 1, &self.prepared_statement_handle);
        emit_str(&mut out, 2, &self.dataset_schema);
        emit_str(&mut out, 3, &self.parameter_schema);
        proof {
            let a = str_fields(1, self.prepared_statement_handle@);
            let b = str_fields(2, self.dataset_schema@);
            let c = str_fields(3, self.parameter_schema@);
            lemma_enc_fields_app(a, b);
            lemma_enc_fields_app(a + b, c);
        }
        out
    }
}

} // verus!
