//! Decoding the typed messages back out of their binary bodies.
//!
//! A body is parsed into its field list by the wire layer; the fields are
//! then folded, in order, into the message being rebuilt, later
//! occurrences of a field overriding earlier ones as the wire format
//! prescribes.  An unknown field number or a field of the wrong shape is
//! a hard decode failure.  [`lemma_command_round_trip`] proves that
//! decoding a command's canonical body recovers the command.

use crate::messages::{
    bool_fields, i64_fields, opt_fields, packed_fields, rep_fields, spec_body, spec_fields_of,
    spec_msg_type, spec_packed_u32, spec_prepared_result_body,
    spec_prepared_result_wf, spec_update_result_body, spec_update_result_fields, spec_wf,
    str_fields, Command, CreatePreparedStatementResult, DoPutUpdateResult, SpecCommand,
    SpecPreparedResult,
};
use crate::tags::MessageType;
use crate::wire::{
    bytes_of_range, fields_view, lemma_dec_varint_suffix, lemma_varint_round_trip, parse_fields,
    spec_dec_fields, spec_dec_varint, FieldData, SpecField,
};
use vstd::prelude::*;

verus! {

/// Copies a byte vector.
pub fn clone_bytes(v: &Vec<u8>) -> (r: Vec<u8>)
    ensures
        r@ == v@,
{
    let r = bytes_of_range(v.as_slice(), 0, v.len());
    assert(v@.subrange(0, v@.len() as int) =~= v@);
    r
}

// ---------------------------------------------------------------------------
// packed integer payloads
// ---------------------------------------------------------------------------

/// Parses a whole buffer as consecutive 32-bit varints.
pub open spec fn spec_dec_u32s(s: Seq<u8>) -> Option<Seq<u32>>
    decreases s.len(),
    via spec_dec_u32s_decreases
{
    if s.len() == 0 {
        Some(Seq::empty())
    } else {
        match spec_dec_varint(s) {
            None => None,
            Some((v, rest)) => {
                if v <= u32::MAX {
                    match spec_dec_u32s(rest) {
                        None => None,
                        Some(vs) => Some(seq![v as u32] + vs),
                    }
                } else {
                    None
                }
            },
        }
    }
}

#[via_fn]
proof fn spec_dec_u32s_decreases(s: Seq<u8>) {
    lemma_dec_varint_suffix(s);
}

/// Parses a whole buffer as consecutive 32-bit varints; mirrors
/// [`spec_dec_u32s`].
pub fn decode_u32s(s: &[u8]) -> (r: Option<Vec<u32>>)
    ensures
        match r {
            Some(v) => spec_dec_u32s(s@) == Some(v@),
            None => spec_dec_u32s(s@) is None,
        },
{
    let mut acc: Vec<u32> = Vec::new();
    let mut i: usize = 0;
    proof {
        assert(s@.skip(0) =~= s@);
        if let Some(vs) = spec_dec_u32s(s@) {
            assert(acc@ + vs =~= vs);
        }
    }
    loop
        invariant
            i <= s@.len(),
            spec_dec_u32s(s@) == match spec_dec_u32s(s@.skip(i as int)) {
                Some(vs) => Some(acc@ + vs),
                None => None::<Seq<u32>>,
            },
        decreases s@.len() - i,
    {
        let ghost suf = s@.skip(i as int);
        if i == s.len() {
            assert(acc@ + Seq::<u32>::empty() =~= acc@);
            return Some(acc);
        }
        let (v, j) = match crate::wire::decode_varint(s, i) {
            None => {
                return None;
            },
            Some(vj) => vj,
        };
        if v > u32::MAX as u64 {
            return None;
        }
        let ghost pre = acc@;
        acc.push(v as u32);
        proof {
            if let Some(vs) = spec_dec_u32s(s@.skip(j as int)) {
                assert(spec_dec_u32s(suf) == Some(seq![v as u32] + vs));
                assert(pre + (seq![v as u32] + vs) =~= acc@ + vs);
            }
        }
        i = j;
    }
}

// ---------------------------------------------------------------------------
// folding fields into a command
// ---------------------------------------------------------------------------

/// The command a body of no fields decodes to: every field at its protocol
/// default.  `None` for the message types that are not commands.
pub open spec fn spec_empty_command(t: MessageType) -> Option<SpecCommand> {
    match t {
        MessageType::StatementQuery => Some(SpecCommand::StatementQuery { query: Seq::empty() }),
        MessageType::StatementUpdate => Some(SpecCommand::StatementUpdate { query: Seq::empty() }),
        MessageType::GetCatalogs => Some(SpecCommand::GetCatalogs),
        MessageType::GetTableTypes => Some(SpecCommand::GetTableTypes),
        MessageType::GetDbSchemas => Some(
            SpecCommand::GetDbSchemas {
                catalog: Option::None,
                db_schema_filter_pattern: Option::None,
            },
        ),
        MessageType::GetTables => Some(
            SpecCommand::GetTables {
                catalog: Option::None,
                db_schema_filter_pattern: Option::None,
                table_name_filter_pattern: Option::None,
                table_types: Seq::empty(),
                include_schema: false,
            },
        ),
        MessageType::GetPrimaryKeys => Some(
            SpecCommand::GetPrimaryKeys {
                catalog: Option::None,
                db_schema: Option::None,
                table: Seq::empty(),
            },
        ),
        MessageType::GetExportedKeys => Some(
            SpecCommand::GetExportedKeys {
                catalog: Option::None,
                db_schema: Option::None,
                table: Seq::empty(),
            },
        ),
        MessageType::GetImportedKeys => Some(
            SpecCommand::GetImportedKeys {
                catalog: Option::None,
                db_schema: Option::None,
                table: Seq::empty(),
            },
        ),
        MessageType::GetCrossReference => Some(
            SpecCommand::GetCrossReference {
                pk_catalog: Option::None,
                pk_db_schema: Option::None,
                pk_table: Seq::empty(),
                fk_catalog: Option::None,
                fk_db_schema: Option::None,
                fk_table: Seq::empty(),
            },
        ),
        MessageType::GetSqlInfo => Some(SpecCommand::GetSqlInfo { info: Seq::empty() }),
        MessageType::PreparedStatementQuery => Some(
            SpecCommand::PreparedStatementQuery { prepared_statement_handle: Seq::empty() },
        ),
        MessageType::PreparedStatementUpdate => Some(
            SpecCommand::PreparedStatementUpdate { prepared_statement_handle: Seq::empty() },
        ),
        MessageType::CreatePreparedStatementRequest => Some(
            SpecCommand::CreatePreparedStatement { query: Seq::empty() },
        ),
        MessageType::ClosePreparedStatementRequest => Some(
            SpecCommand::ClosePreparedStatement { prepared_statement_handle: Seq::empty() },
        ),
        MessageType::CreatePreparedStatementResult => None,
        MessageType::DoPutUpdateResult => None,
    }
}

/// Applies one field to the command being rebuilt.  A field number the
/// message does not define is skipped, as the wire format asks of a
/// decoder; a defined field of the wrong wire shape is a hard failure.
pub open spec fn spec_apply_command(acc: SpecCommand, f: (u64, SpecField)) -> Option<SpecCommand> {
    match acc {
        SpecCommand::StatementQuery { .. } => {
            if f.0 == 1 {
                match f.1 {
                    SpecField::Bytes(b) => Some(SpecCommand::StatementQuery { query: b }),
                    _ => None,
                }
            } else {
                Some(acc)
            }
        },
        SpecCommand::StatementUpdate { .. } => {
            if f.0 == 1 {
                match f.1 {
                    SpecField::Bytes(b) => Some(SpecCommand::StatementUpdate { query: b }),
                    _ => None,
                }
            } else {
                Some(acc)
            }
        },
        SpecCommand::GetCatalogs => Some(acc),
        SpecCommand::GetTableTypes => Some(acc),
        SpecCommand::GetDbSchemas { catalog, db_schema_filter_pattern } => {
            if f.0 == 1 {
                match f.1 {
                    SpecField::Bytes(b) => Some(
                        SpecCommand::GetDbSchemas {
                            catalog: Some(b),
                            db_schema_filter_pattern,
                        },
                    ),
                    _ => None,
                }
            } else if f.0 == 2 {
                match f.1 {
                    SpecField::Bytes(b) => Some(
                        SpecCommand::GetDbSchemas {
                            catalog,
                            db_schema_filter_pattern: Some(b),
                        },
                    ),
                    _ => None,
                }
            } else {
                Some(acc)
            }
        },
        SpecCommand::GetTables {
            catalog,
            db_schema_filter_pattern,
            table_name_filter_pattern,
            table_types,
            include_schema,
        } => {
            if f.0 == 1 {
                match f.1 {
                    SpecField::Bytes(b) => Some(
                        SpecCommand::GetTables {
                            catalog: Some(b),
                            db_schema_filter_pattern,
                            table_name_filter_pattern,
                            table_types,
                            include_schema,
                        },
                    ),
                    _ => None,
                }
            } else if f.0 == 2 {
                match f.1 {
                    SpecField::Bytes(b) => Some(
                        SpecCommand::GetTables {
                            catalog,
                            db_schema_filter_pattern: Some(b),
                            table_name_filter_pattern,
                            table_types,
                            include_schema,
                        },
                    ),
                    _ => None,
                }
            } else if f.0 == 3 {
                match f.1 {
                    SpecField::Bytes(b) => Some(
                        SpecCommand::GetTables {
                            catalog,
                            db_schema_filter_pattern,
                            table_name_filter_pattern: Some(b),
                            table_types,
                            include_schema,
                        },
                    ),
                    _ => None,
                }
            } else if f.0 == 4 {
                match f.1 {
                    SpecField::Bytes(b) => Some(
                        SpecCommand::GetTables {
                            catalog,
                            db_schema_filter_pattern,
                            table_name_filter_pattern,
                            table_types: table_types.push(b),
                            include_schema,
                        },
                    ),
                    _ => None,
                }
            } else if f.0 == 5 {
                match f.1 {
                    SpecField::Int(v) => Some(
                        SpecCommand::GetTables {
                            catalog,
                            db_schema_filter_pattern,
                            table_name_filter_pattern,
                            table_types,
                            include_schema: v != 0,
                        },
                    ),
                    _ => None,
                }
            } else {
                Some(acc)
            }
        },
        SpecCommand::GetPrimaryKeys { catalog, db_schema, table } => {
            if f.0 == 1 {
                match f.1 {
                    SpecField::Bytes(b) => Some(
                        SpecCommand::GetPrimaryKeys { catalog: Some(b), db_schema, table },
                    ),
                    _ => None,
                }
            } else if f.0 == 2 {
                match f.1 {
                    SpecField::Bytes(b) => Some(
                        SpecCommand::GetPrimaryKeys { catalog, db_schema: Some(b), table },
                    ),
                    _ => None,
                }
            } else if f.0 == 3 {
                match f.1 {
                    SpecField::Bytes(b) => Some(
                        SpecCommand::GetPrimaryKeys { catalog, db_schema, table: b },
                    ),
                    _ => None,
                }
            } else {
                Some(acc)
            }
        },
        SpecCommand::GetExportedKeys { catalog, db_schema, table } => {
            if f.0 == 1 {
                match f.1 {
                    SpecField::Bytes(b) => Some(
                        SpecCommand::GetExportedKeys { catalog: Some(b), db_schema, table },
                    ),
                    _ => None,
                }
            } else if f.0 == 2 {
                match f.1 {
                    SpecField::Bytes(b) => Some(
                        SpecCommand::GetExportedKeys { catalog, db_schema: Some(b), table },
                    ),
                    _ => None,
                }
            } else if f.0 == 3 {
                match f.1 {
                    SpecField::Bytes(b) => Some(
                        SpecCommand::GetExportedKeys { catalog, db_schema, table: b },
                    ),
                    _ => None,
                }
            } else {
                Some(acc)
            }
        },
        SpecCommand::GetImportedKeys { catalog, db_schema, table } => {
            if f.0 == 1 {
                match f.1 {
                    SpecField::Bytes(b) => Some(
                        SpecCommand::GetImportedKeys { catalog: Some(b), db_schema, table },
                    ),
                    _ => None,
                }
            } else if f.0 == 2 {
                match f.1 {
                    SpecField::Bytes(b) => Some(
                        SpecCommand::GetImportedKeys { catalog, db_schema: Some(b), table },
                    ),
                    _ => None,
                }
            } else if f.0 == 3 {
                match f.1 {
                    SpecField::Bytes(b) => Some(
                        SpecCommand::GetImportedKeys { catalog, db_schema, table: b },
                    ),
                    _ => None,
                }
            } else {
                Some(acc)
            }
        },
        SpecCommand::GetCrossReference {
            pk_catalog,
            pk_db_schema,
            pk_table,
            fk_catalog,
            fk_db_schema,
            fk_table,
        } => {
            if f.0 == 1 {
                match f.1 {
                    SpecField::Bytes(b) => Some(
                        SpecCommand::GetCrossReference {
                            pk_catalog: Some(b),
                            pk_db_schema,
                            pk_table,
                            fk_catalog,
                            fk_db_schema,
                            fk_table,
                        },
                    ),
                    _ => None,
                }
            } else if f.0 == 2 {
                match f.1 {
                    SpecField::Bytes(b) => Some(
                        SpecCommand::GetCrossReference {
                            pk_catalog,
                            pk_db_schema: Some(b),
                            pk_table,
                            fk_catalog,
                            fk_db_schema,
                            fk_table,
                        },
                    ),
                    _ => None,
                }
            } else if f.0 == 3 {
                match f.1 {
                    SpecField::Bytes(b) => Some(
                        SpecCommand::GetCrossReference {
                            pk_catalog,
                            pk_db_schema,
                            pk_table: b,
                            fk_catalog,
                            fk_db_schema,
                            fk_table,
                        },
                    ),
                    _ => None,
                }
            } else if f.0 == 4 {
                match f.1 {
                    SpecField::Bytes(b) => Some(
                        SpecCommand::GetCrossReference {
                            pk_catalog,
                            pk_db_schema,
                            pk_table,
                            fk_catalog: Some(b),
                            fk_db_schema,
                            fk_table,
                        },
                    ),
                    _ => None,
                }
            } else if f.0 == 5 {
                match f.1 {
                    SpecField::Bytes(b) => Some(
                        SpecCommand::GetCrossReference {
                            pk_catalog,
                            pk_db_schema,
                            pk_table,
                            fk_catalog,
                            fk_db_schema: Some(b),
                            fk_table,
                        },
                    ),
                    _ => None,
                }
            } else if f.0 == 6 {
                match f.1 {
                    SpecField::Bytes(b) => Some(
                        SpecCommand::GetCrossReference {
                            pk_catalog,
                            pk_db_schema,
                            pk_table,
                            fk_catalog,
                            fk_db_schema,
                            fk_table: b,
                        },
                    ),
                    _ => None,
                }
            } else {
                Some(acc)
            }
        },
        SpecCommand::GetSqlInfo { info } => {
            if f.0 == 1 {
                match f.1 {
                    SpecField::Int(v) => {
                        if v <= u32::MAX {
                            Some(SpecCommand::GetSqlInfo { info: info.push(v as u32) })
                        } else {
                            None
                        }
                    },
                    SpecField::Bytes(b) => {
                        match spec_dec_u32s(b) {
                            None => None,
                            Some(vs) => Some(SpecCommand::GetSqlInfo { info: info + vs }),
                        }
                    },
                    _ => None,
                }
            } else {
                Some(acc)
            }
        },
        SpecCommand::PreparedStatementQuery { .. } => {
            if f.0 == 1 {
                match f.1 {
                    SpecField::Bytes(b) => Some(
                        SpecCommand::PreparedStatementQuery { prepared_statement_handle: b },
                    ),
                    _ => None,
                }
            } else {
                Some(acc)
            }
        },
        SpecCommand::PreparedStatementUpdate { .. } => {
            if f.0 == 1 {
                match f.1 {
                    SpecField::Bytes(b) => Some(
                        SpecCommand::PreparedStatementUpdate { prepared_statement_handle: b },
                    ),
                    _ => None,
                }
            } else {
                Some(acc)
            }
        },
        SpecCommand::CreatePreparedStatement { .. } => {
            if f.0 == 1 {
                match f.1 {
                    SpecField::Bytes(b) => Some(SpecCommand::CreatePreparedStatement { query: b }),
                    _ => None,
                }
            } else {
                Some(acc)
            }
        },
        SpecCommand::ClosePreparedStatement { .. } => {
            if f.0 == 1 {
                match f.1 {
                    SpecField::Bytes(b) => Some(
                        SpecCommand::ClosePreparedStatement { prepared_statement_handle: b },
                    ),
                    _ => None,
                }
            } else {
                Some(acc)
            }
        },
    }
}

/// Folds a field list into the command being rebuilt, left to right.
pub open spec fn spec_fold_command(acc: SpecCommand, fs: Seq<(u64, SpecField)>) -> Option<
    SpecCommand,
>
    decreases fs.len(),
{
    if fs.len() == 0 {
        Some(acc)
    } else {
        match spec_apply_command(acc, fs[0]) {
            None => None,
            Some(a2) => spec_fold_command(a2, fs.drop_first()),
        }
    }
}

/// What a body decodes to as a command of type `t`: `None` both when the
/// bytes are malformed and when `t` is not a command type.
pub open spec fn spec_dec_command(t: MessageType, s: Seq<u8>) -> Option<SpecCommand> {
    match spec_empty_command(t) {
        None => None,
        Some(e) => match spec_dec_fields(s) {
            None => None,
            Some(fs) => spec_fold_command(e, fs),
        },
    }
}

/// Applying a field never changes which command is being rebuilt.
pub proof fn lemma_apply_preserves_type(acc: SpecCommand, f: (u64, SpecField))
    ensures
        match spec_apply_command(acc, f) {
            Some(c2) => spec_msg_type(c2) == spec_msg_type(acc),
            None => true,
        },
{
}

// ---------------------------------------------------------------------------
// executable decoding
// ---------------------------------------------------------------------------

/// The command a body of no fields decodes to; mirrors
/// [`spec_empty_command`].
fn empty_command(t: MessageType) -> (r: Option<Command>)
    ensures
        match r {
            Some(c) => spec_empty_command(t) == Some(c@),
            None => spec_empty_command(t) is None,
        },
{
    match t {
        MessageType::StatementQuery => {
            let c = Command::StatementQuery { query: Vec::new() };
            assert(c@ =~= SpecCommand::StatementQuery { query: Seq::empty() });
            Some(c)
        },
        MessageType::StatementUpdate => {
            let c = Command::StatementUpdate { query: Vec::new() };
            assert(c@ =~= SpecCommand::StatementUpdate { query: Seq::empty() });
            Some(c)
        },
        MessageType::GetCatalogs => Some(Command::GetCatalogs),
        MessageType::GetTableTypes => Some(Command::GetTableTypes),
        MessageType::GetDbSchemas => {
            let c = Command::GetDbSchemas { catalog: None, db_schema_filter_pattern: None };
            Some(c)
        },
        MessageType::GetTables => {
            let c = Command::GetTables {
                catalog: None,
                db_schema_filter_pattern: None,
                table_name_filter_pattern: None,
                table_types: Vec::new(),
                include_schema: false,
            };
            assert(c@ =~= SpecCommand::GetTables {
                catalog: Option::None,
                db_schema_filter_pattern: Option::None,
                table_name_filter_pattern: Option::None,
                table_types: Seq::empty(),
                include_schema: false,
            });
            Some(c)
        },
        MessageType::GetPrimaryKeys => {
            let c = Command::GetPrimaryKeys {
                catalog: None,
                db_schema: None,
                table: Vec::new(),
            };
            assert(c@ =~= SpecCommand::GetPrimaryKeys {
                catalog: Option::None,
                db_schema: Option::None,
                table: Seq::empty(),
            });
            Some(c)
        },
        MessageType::GetExportedKeys => {
            let c = Command::GetExportedKeys {
                catalog: None,
                db_schema: None,
                table: Vec::new(),
            };
            assert(c@ =~= SpecCommand::GetExportedKeys {
                catalog: Option::None,
                db_schema: Option::None,
                table: Seq::empty(),
            });
            Some(c)
        },
        MessageType::GetImportedKeys => {
            let c = Command::GetImportedKeys {
                catalog: None,
                db_schema: None,
                table: Vec::new(),
            };
            assert(c@ =~= SpecCommand::GetImportedKeys {
                catalog: Option::None,
                db_schema: Option::None,
                table: Seq::empty(),
            });
            Some(c)
        },
        MessageType::GetCrossReference => {
            let c = Command::GetCrossReference {
                pk_catalog: None,
                pk_db_schema: None,
                pk_table: Vec::new(),
                fk_catalog: None,
                fk_db_schema: None,
                fk_table: Vec::new(),
            };
            assert(c@ =~= SpecCommand::GetCrossReference {
                pk_catalog: Option::None,
                pk_db_schema: Option::None,
                pk_table: Seq::empty(),
                fk_catalog: Option::None,
                fk_db_schema: Option::None,
                fk_table: Seq::empty(),
            });
            Some(c)
        },
        MessageType::GetSqlInfo => {
            let c = Command::GetSqlInfo { info: Vec::new() };
            assert(c@ =~= SpecCommand::GetSqlInfo { info: Seq::empty() });
            Some(c)
        },
        MessageType::PreparedStatementQuery => {
            let c = Command::PreparedStatementQuery { prepared_statement_handle: Vec::new() };
            assert(c@ =~= SpecCommand::PreparedStatementQuery {
                prepared_statement_handle: Seq::empty(),
            });
            Some(c)
        },
        MessageType::PreparedStatementUpdate => {
            let c = Command::PreparedStatementUpdate { prepared_statement_handle: Vec::new() };
            assert(c@ =~= SpecCommand::PreparedStatementUpdate {
                prepared_statement_handle: Seq::empty(),
            });
            Some(c)
        },
        MessageType::CreatePreparedStatementRequest => {
            let c = Command::CreatePreparedStatement { query: Vec::new() };
            assert(c@ =~= SpecCommand::CreatePreparedStatement { query: Seq::empty() });
            Some(c)
        },
        MessageType::ClosePreparedStatementRequest => {
            let c = Command::ClosePreparedStatement { prepared_statement_handle: Vec::new() };
            assert(c@ =~= SpecCommand::ClosePreparedStatement {
                prepared_statement_handle: Seq::empty(),
            });
            Some(c)
        },
        MessageType::CreatePreparedStatementResult => None,
        MessageType::DoPutUpdateResult => None,
    }
}

/// Applies one field to the command being rebuilt; mirrors
/// [`spec_apply_command`].  A field number the message does not define
/// hands the command back unchanged.
fn apply_command(acc: Command, tag: u64, data: &FieldData) -> (r: Option<Command>)
    ensures
        match r {
            Some(c2) => spec_apply_command(acc@, (tag, data@)) == Some(c2@),
            None => spec_apply_command(acc@, (tag, data@)) is None,
        },
{
    match acc {
        Command::StatementQuery { query } => {
            if tag == 1 {
                match data {
                    FieldData::Bytes(b) => Some(Command::StatementQuery { query: clone_bytes(b) }),
                    _ => None,
                }
            } else {
                Some(Command::StatementQuery { query })
            }
        },
        Command::StatementUpdate { query } => {
            if tag == 1 {
                match data {
                    FieldData::Bytes(b) => Some(Command::StatementUpdate { query: clone_bytes(b) }),
                    _ => None,
                }
            } else {
                Some(Command::StatementUpdate { query })
            }
        },
        Command::GetCatalogs => Some(Command::GetCatalogs),
        Command::GetTableTypes => Some(Command::GetTableTypes),
        Command::GetDbSchemas { catalog, db_schema_filter_pattern } => {
            if tag == 1 {
                match data {
                    FieldData::Bytes(b) => Some(Command::GetDbSchemas {
                        catalog: Some(clone_bytes(b)),
                        db_schema_filter_pattern,
                    }),
                    _ => None,
                }
            } else if tag == 2 {
                match data {
                    FieldData::Bytes(b) => Some(Command::GetDbSchemas {
                        catalog,
                        db_schema_filter_pattern: Some(clone_bytes(b)),
                    }),
                    _ => None,
                }
            } else {
                Some(Command::GetDbSchemas { catalog, db_schema_filter_pattern })
            }
        },
        Command::GetTables {
            catalog,
            db_schema_filter_pattern,
            table_name_filter_pattern,
            table_types,
            include_schema,
        } => {
            if tag == 1 {
                match data {
                    FieldData::Bytes(b) => Some(Command::GetTables {
                        catalog: Some(clone_bytes(b)),
                        db_schema_filter_pattern,
                        table_name_filter_pattern,
                        table_types,
                        include_schema,
                    }),
                    _ => None,
                }
            } else if tag == 2 {
                match data {
                    FieldData::Bytes(b) => Some(Command::GetTables {
                        catalog,
                        db_schema_filter_pattern: Some(clone_bytes(b)),
                        table_name_filter_pattern,
                        table_types,
                        include_schema,
                    }),
                    _ => None,
                }
            } else if tag == 3 {
                match data {
                    FieldData::Bytes(b) => Some(Command::GetTables {
                        catalog,
                        db_schema_filter_pattern,
                        table_name_filter_pattern: Some(clone_bytes(b)),
                        table_types,
                        include_schema,
                    }),
                    _ => None,
                }
            } else if tag == 4 {
                match data {
                    FieldData::Bytes(b) => {
                        let ghost tt0 = crate::messages::vecs_view(table_types@);
                        let mut table_types = table_types;
                        table_types.push(clone_bytes(b));
                        proof {
                            assert(crate::messages::vecs_view(table_types@) =~= tt0.push(b@));
                        }
                        Some(Command::GetTables {
                            catalog,
                            db_schema_filter_pattern,
                            table_name_filter_pattern,
                            table_types,
                            include_schema,
                        })
                    },
                    _ => None,
                }
            } else if tag == 5 {
                match data {
                    FieldData::Int(v) => Some(Command::GetTables {
                        catalog,
                        db_schema_filter_pattern,
                        table_name_filter_pattern,
                        table_types,
                        include_schema: *v != 0,
                    }),
                    _ => None,
                }
            } else {
                Some(Command::GetTables {
                    catalog,
                    db_schema_filter_pattern,
                    table_name_filter_pattern,
                    table_types,
                    include_schema,
                })
            }
        },
        Command::GetPrimaryKeys { catalog, db_schema, table } => {
            if tag == 1 {
                match data {
                    FieldData::Bytes(b) => Some(Command::GetPrimaryKeys {
                        catalog: Some(clone_bytes(b)),
                        db_schema,
                        table,
                    }),
                    _ => None,
                }
            } else if tag == 2 {
                match data {
                    FieldData::Bytes(b) => Some(Command::GetPrimaryKeys {
                        catalog,
                        db_schema: Some(clone_bytes(b)),
                        table,
                    }),
                    _ => None,
                }
            } else if tag == 3 {
                match data {
                    FieldData::Bytes(b) => Some(Command::GetPrimaryKeys {
                        catalog,
                        db_schema,
                        table: clone_bytes(b),
                    }),
                    _ => None,
                }
            } else {
                Some(Command::GetPrimaryKeys { catalog, db_schema, table })
            }
        },
        Command::GetExportedKeys { catalog, db_schema, table } => {
            if tag == 1 {
                match data {
                    FieldData::Bytes(b) => Some(Command::GetExportedKeys {
                        catalog: Some(clone_bytes(b)),
                        db_schema,
                        table,
                    }),
                    _ => None,
                }
            } else if tag == 2 {
                match data {
                    FieldData::Bytes(b) => Some(Command::GetExportedKeys {
                        catalog,
                        db_schema: Some(clone_bytes(b)),
                        table,
                    }),
                    _ => None,
                }
            } else if tag == 3 {
                match data {
                    FieldData::Bytes(b) => Some(Command::GetExportedKeys {
                        catalog,
                        db_schema,
                        table: clone_bytes(b),
                    }),
                    _ => None,
                }
            } else {
                Some(Command::GetExportedKeys { catalog, db_schema, table })
            }
        },
        Command::GetImportedKeys { catalog, db_schema, table } => {
            if tag == 1 {
                match data {
                    FieldData::Bytes(b) => Some(Command::GetImportedKeys {
                        catalog: Some(clone_bytes(b)),
                        db_schema,
                        table,
                    }),
                    _ => None,
                }
            } else if tag == 2 {
                match data {
                    FieldData::Bytes(b) => Some(Command::GetImportedKeys {
                        catalog,
                        db_schema: Some(clone_bytes(b)),
                        table,
                    }),
                    _ => None,
                }
            } else if tag == 3 {
                match data {
                    FieldData::Bytes(b) => Some(Command::GetImportedKeys {
                        catalog,
                        db_schema,
                        table: clone_bytes(b),
                    }),
                    _ => None,
                }
            } else {
                Some(Command::GetImportedKeys { catalog, db_schema, table })
            }
        },
        Command::GetCrossReference {
            pk_catalog,
            pk_db_schema,
            pk_table,
            fk_catalog,
            fk_db_schema,
            fk_table,
        } => {
            if tag == 1 {
                match data {
                    FieldData::Bytes(b) => Some(Command::GetCrossReference {
                        pk_catalog: Some(clone_bytes(b)),
                        pk_db_schema,
                        pk_table,
                        fk_catalog,
                        fk_db_schema,
                        fk_table,
                    }),
                    _ => None,
                }
            } else if tag == 2 {
                match data {
                    FieldData::Bytes(b) => Some(Command::GetCrossReference {
                        pk_catalog,
                        pk_db_schema: Some(clone_bytes(b)),
                        pk_table,
                        fk_catalog,
                        fk_db_schema,
                        fk_table,
                    }),
                    _ => None,
                }
            } else if tag == 3 {
                match data {
                    FieldData::Bytes(b) => Some(Command::GetCrossReference {
                        pk_catalog,
                        pk_db_schema,
                        pk_table: clone_bytes(b),
                        fk_catalog,
                        fk_db_schema,
                        fk_table,
                    }),
                    _ => None,
                }
            } else if tag == 4 {
                match data {
                    FieldData::Bytes(b) => Some(Command::GetCrossReference {
                        pk_catalog,
                        pk_db_schema,
                        pk_table,
                        fk_catalog: Some(clone_bytes(b)),
                        fk_db_schema,
                        fk_table,
                    }),
                    _ => None,
                }
            } else if tag == 5 {
                match data {
                    FieldData::Bytes(b) => Some(Command::GetCrossReference {
                        pk_catalog,
                        pk_db_schema,
                        pk_table,
                        fk_catalog,
                        fk_db_schema: Some(clone_bytes(b)),
                        fk_table,
                    }),
                    _ => None,
                }
            } else if tag == 6 {
                match data {
                    FieldData::Bytes(b) => Some(Command::GetCrossReference {
                        pk_catalog,
                        pk_db_schema,
                        pk_table,
                        fk_catalog,
                        fk_db_schema,
                        fk_table: clone_bytes(b),
                    }),
                    _ => None,
                }
            } else {
                Some(Command::GetCrossReference {
                    pk_catalog,
                    pk_db_schema,
                    pk_table,
                    fk_catalog,
                    fk_db_schema,
                    fk_table,
                })
            }
        },
        Command::GetSqlInfo { info } => {
            if tag == 1 {
                match data {
                    FieldData::Int(v) => {
                        if *v <= u32::MAX as u64 {
                            let ghost i0 = info@;
                            let mut info = info;
                            info.push(*v as u32);
                            proof {
                                assert(info@ =~= i0.push((*v) as u32));
                            }
                            Some(Command::GetSqlInfo { info })
                        } else {
                            None
                        }
                    },
                    FieldData::Bytes(b) => {
                        match decode_u32s(b.as_slice()) {
                            None => None,
                            Some(mut vs) => {
                                let ghost i0 = info@;
                                let ghost v0 = vs@;
                                let mut info = info;
                                info.append(&mut vs);
                                proof {
                                    assert(info@ =~= i0 + v0);
                                }
                                Some(Command::GetSqlInfo { info })
                            },
                        }
                    },
                    _ => None,
                }
            } else {
                Some(Command::GetSqlInfo { info })
            }
        },
        Command::PreparedStatementQuery { prepared_statement_handle } => {
            if tag == 1 {
                match data {
                    FieldData::Bytes(b) => Some(Command::PreparedStatementQuery {
                        prepared_statement_handle: clone_bytes(b),
                    }),
                    _ => None,
                }
            } else {
                Some(Command::PreparedStatementQuery { prepared_statement_handle })
            }
        },
        Command::PreparedStatementUpdate { prepared_statement_handle } => {
            if tag == 1 {
                match data {
                    FieldData::Bytes(b) => Some(Command::PreparedStatementUpdate {
                        prepared_statement_handle: clone_bytes(b),
                    }),
                    _ => None,
                }
            } else {
                Some(Command::PreparedStatementUpdate { prepared_statement_handle })
            }
        },
        Command::CreatePreparedStatement { query } => {
            if tag == 1 {
                match data {
                    FieldData::Bytes(b) => Some(Command::CreatePreparedStatement {
                        query: clone_bytes(b),
                    }),
                    _ => None,
                }
            } else {
                Some(Command::CreatePreparedStatement { query })
            }
        },
        Command::ClosePreparedStatement { prepared_statement_handle } => {
            if tag == 1 {
                match data {
                    FieldData::Bytes(b) => Some(Command::ClosePreparedStatement {
                        prepared_statement_handle: clone_bytes(b),
                    }),
                    _ => None,
                }
            } else {
                Some(Command::ClosePreparedStatement { prepared_statement_handle })
            }
        },
    }
}

/// Decodes a body as a command of type `t`; mirrors [`spec_dec_command`].
pub fn decode_command(t: MessageType, s: &[u8]) -> (r: Option<Command>)
    ensures
        match r {
            Some(c) => spec_dec_command(t, s@) == Some(c@) && spec_msg_type(c@) == t,
            None => spec_dec_command(t, s@) is None,
        },
{
    let fields = match parse_fields(s) {
        None => {
            return None;
        },
        Some(f) => f,
    };
    let mut acc = match empty_command(t) {
        None => {
            return None;
        },
        Some(c) => c,
    };
    let ghost e = acc@;
    let ghost all = fields_view(fields@);
    let mut k: usize = 0;
    proof {
        assert(fields_view(fields@.skip(0)) =~= all);
    }
    while k < fields.len()
        invariant
            k <= fields@.len(),
            spec_msg_type(acc@) == spec_msg_type(e),
            spec_empty_command(t) == Some(e),
            spec_dec_fields(s@) == Some(all),
            all == fields_view(fields@),
            spec_fold_command(e, all) == spec_fold_command(
                acc@,
                fields_view(fields@.skip(k as int)),
            ),
        decreases fields@.len() - k,
    {
        let ghost pre = acc@;
        let ghost suf = fields_view(fields@.skip(k as int));
        proof {
            assert(suf[0] == (fields@[k as int].0, fields@[k as int].1@));
            assert(suf.drop_first() =~= fields_view(fields@.skip(k as int + 1)));
        }
        let tag = fields[k].0;
        acc = match apply_command(acc, tag, &fields[k].1) {
            None => {
                return None;
            },
            Some(a) => a,
        };
        proof {
            lemma_apply_preserves_type(pre, suf[0]);
        }
        k = k + 1;
    }
    proof {
        assert(fields_view(fields@.skip(k as int)) =~= Seq::<(u64, SpecField)>::empty());
        assert(spec_msg_type(e) == t);
    }
    Some(acc)
}

// ---------------------------------------------------------------------------
// the two result messages
// ---------------------------------------------------------------------------

/// Applies one field to the update result being rebuilt; unknown field
/// numbers are skipped.
pub open spec fn spec_apply_update(acc: DoPutUpdateResult, f: (u64, SpecField)) -> Option<
    DoPutUpdateResult,
> {
    if f.0 == 1 {
        match f.1 {
            SpecField::Int(v) => Some(DoPutUpdateResult { record_count: v as i64 }),
            _ => None,
        }
    } else {
        Some(acc)
    }
}

/// Folds a field list into the update result being rebuilt.
pub open spec fn spec_fold_update(acc: DoPutUpdateResult, fs: Seq<(u64, SpecField)>) -> Option<
    DoPutUpdateResult,
>
    decreases fs.len(),
{
    if fs.len() == 0 {
        Some(acc)
    } else {
        match spec_apply_update(acc, fs[0]) {
            None => None,
            Some(a2) => spec_fold_update(a2, fs.drop_first()),
        }
    }
}

/// What a body decodes to as an update result.
pub open spec fn spec_dec_update_result(s: Seq<u8>) -> Option<DoPutUpdateResult> {
    match spec_dec_fields(s) {
        None => None,
        Some(fs) => spec_fold_update(DoPutUpdateResult { record_count: 0 }, fs),
    }
}

/// Decodes a body as an update result; mirrors [`spec_dec_update_result`].
#[verifier::rlimit(60)]
pub fn decode_update_result(s: &[u8]) -> (r: Option<DoPutUpdateResult>)
    ensures
        match r {
            Some(u) => spec_dec_update_result(s@) == Some(u),
            None => spec_dec_update_result(s@) is None,
        },
{
    let fields = match parse_fields(s) {
        None => {
            return None;
        },
        Some(f) => f,
    };
    let mut acc = DoPutUpdateResult { record_count: 0 };
    let ghost e = acc;
    let ghost all = fields_view(fields@);
    let mut k: usize = 0;
    proof {
        assert(fields_view(fields@.skip(0)) =~= all);
    }
    while k < fields.len()
        invariant
            k <= fields@.len(),
            spec_dec_fields(s@) == Some(all),
            all == fields_view(fields@),
            e == (DoPutUpdateResult { record_count: 0 }),
            spec_fold_update(e, all) == spec_fold_update(
                acc,
                fields_view(fields@.skip(k as int)),
            ),
        decreases fields@.len() - k,
    {
        let ghost suf = fields_view(fields@.skip(k as int));
        proof {
            assert(suf[0] == (fields@[k as int].0, fields@[k as int].1@));
            assert(suf.drop_first() =~= fields_view(fields@.skip(k as int + 1)));
        }
        let tag = fields[k].0;
        if tag == 1 {
            match &fields[k].1 {
                FieldData::Int(v) => {
                    acc = DoPutUpdateResult { record_count: *v as i64 };
                },
                _ => {
                    return None;
                },
            }
        }
        k = k + 1;
    }
    proof {
        assert(fields_view(fields@.skip(k as int)) =~= Seq::<(u64, SpecField)>::empty());
    }
    Some(acc)
}

/// Applies one field to the prepared-statement result being rebuilt;
/// unknown field numbers are skipped.
pub open spec fn spec_apply_prepared(acc: SpecPreparedResult, f: (u64, SpecField)) -> Option<
    SpecPreparedResult,
> {
    if f.0 == 1 {
        match f.1 {
            SpecField::Bytes(b) => Some(SpecPreparedResult { prepared_statement_handle: b, ..acc }),
            _ => None,
        }
    } else if f.0 == 2 {
        match f.1 {
            SpecField::Bytes(b) => Some(SpecPreparedResult { dataset_schema: b, ..acc }),
            _ => None,
        }
    } else if f.0 == 3 {
        match f.1 {
            SpecField::Bytes(b) => Some(SpecPreparedResult { parameter_schema: b, ..acc }),
            _ => None,
        }
    } else {
        Some(acc)
    }
}

/// Folds a field list into the prepared-statement result being rebuilt.
pub open spec fn spec_fold_prepared(acc: SpecPreparedResult, fs: Seq<(u64, SpecField)>) -> Option<
    SpecPreparedResult,
>
    decreases fs.len(),
{
    if fs.len() == 0 {
        Some(acc)
    } else {
        match spec_apply_prepared(acc, fs[0]) {
            None => None,
            Some(a2) => spec_fold_prepared(a2, fs.drop_first()),
        }
    }
}

/// What a body decodes to as a prepared-statement creation result.
pub open spec fn spec_dec_prepared_result(s: Seq<u8>) -> Option<SpecPreparedResult> {
    match spec_dec_fields(s) {
        None => None,
        Some(fs) => spec_fold_prepared(
            SpecPreparedResult {
                prepared_statement_handle: Seq::empty(),
                dataset_schema: Seq::empty(),
                parameter_schema: Seq::empty(),
            },
            fs,
        ),
    }
}

/// Decodes a body as a prepared-statement creation result; mirrors
/// [`spec_dec_prepared_result`].
pub fn decode_prepared_result(s: &[u8]) -> (r: Option<CreatePreparedStatementResult>)
    ensures
        match r {
            Some(p) => spec_dec_prepared_result(s@) == Some(p@),
            None => spec_dec_prepared_result(s@) is None,
        },
{
    let fields = match parse_fields(s) {
        None => {
            return None;
        },
        Some(f) => f,
    };
    let mut acc = CreatePreparedStatementResult {
        prepared_statement_handle: Vec::new(),
        dataset_schema: Vec::new(),
        parameter_schema: Vec::new(),
    };
    let ghost e = acc@;
    let ghost all = fields_view(fields@);
    let mut k: usize = 0;
    proof {
        assert(e =~= SpecPreparedResult {
            prepared_statement_handle: Seq::empty(),
            dataset_schema: Seq::empty(),
            parameter_schema: Seq::empty(),
        });
        assert(fields_view(fields@.skip(0)) =~= all);
    }
    while k < fields.len()
        invariant
            k <= fields@.len(),
            spec_dec_fields(s@) == Some(all),
            all == fields_view(fields@),
            e == (SpecPreparedResult {
                prepared_statement_handle: Seq::empty(),
                dataset_schema: Seq::empty(),
                parameter_schema: Seq::empty(),
            }),
            spec_fold_prepared(e, all) == spec_fold_prepared(
                acc@,
                fields_view(fields@.skip(k as int)),
            ),
        decreases fields@.len() - k,
    {
        let ghost suf = fields_view(fields@.skip(k as int));
        proof {
            assert(suf[0] == (fields@[k as int].0, fields@[k as int].1@));
            assert(suf.drop_first() =~= fields_view(fields@.skip(k as int + 1)));
        }
        let tag = fields[k].0;
        if tag >= 1 && tag <= 3 {
            match &fields[k].1 {
                FieldData::Bytes(b) => {
                    let bs = clone_bytes(b);
                    if tag == 1 {
                        acc = CreatePreparedStatementResult {
                            prepared_statement_handle: bs,
                            ..acc
                        };
                    } else if tag == 2 {
                        acc = CreatePreparedStatementResult { dataset_schema: bs, ..acc };
                    } else {
                        acc = CreatePreparedStatementResult { parameter_schema: bs, ..acc };
                    }
                },
                _ => {
                    return None;
                },
            }
        }
        k = k + 1;
    }
    proof {
        assert(fields_view(fields@.skip(k as int)) =~= Seq::<(u64, SpecField)>::empty());
    }
    Some(acc)
}

// ---------------------------------------------------------------------------
// the round trip
// ---------------------------------------------------------------------------

/// Every field of a list fits the wire format.
pub open spec fn fields_ok(fs: Seq<(u64, SpecField)>) -> bool {
    forall|i: int| 0 <= i < fs.len() ==> crate::wire::field_valid(#[trigger] fs[i])
}

proof fn lemma_ok_app(a: Seq<(u64, SpecField)>, b: Seq<(u64, SpecField)>)
    requires
        fields_ok(a),
        fields_ok(b),
    ensures
        fields_ok(a + b),
{
    assert forall|i: int| 0 <= i < (a + b).len() implies crate::wire::field_valid(
        #[trigger] (a + b)[i],
    ) by {
        if i < a.len() {
            assert(crate::wire::field_valid(a[i]));
        } else {
            assert(crate::wire::field_valid(b[i - a.len()]));
        }
    }
}

proof fn lemma_ok_opt(tag: u64, o: Option<Seq<u8>>)
    requires
        1 <= tag <= 0x1000_0000,
        crate::messages::opt_fits(o),
    ensures
        fields_ok(opt_fields(tag, o)),
{
}

proof fn lemma_ok_str(tag: u64, s: Seq<u8>)
    requires
        1 <= tag <= 0x1000_0000,
        s.len() <= u64::MAX,
    ensures
        fields_ok(str_fields(tag, s)),
{
}

proof fn lemma_ok_int(tag: u64, v: u64)
    requires
        1 <= tag <= 0x1000_0000,
    ensures
        fields_ok(bool_fields(tag, v != 0)),
        fields_ok(i64_fields(tag, v as i64)),
{
}

proof fn lemma_ok_rep(tag: u64, items: Seq<Seq<u8>>)
    requires
        1 <= tag <= 0x1000_0000,
        forall|i: int|
            0 <= i < items.len() ==> crate::messages::bytes_fit(#[trigger] items[i]),
    ensures
        fields_ok(rep_fields(tag, items)),
{
}

/// The varint of a 32-bit value takes at most five bytes.
proof fn lemma_varint_u32_len(n: u64)
    requires
        n <= u32::MAX,
    ensures
        crate::wire::spec_varint(n).len() <= 5,
{
    reveal_with_fuel(crate::wire::spec_varint, 6);
    if n >= 128 {
        if n / 128 >= 128 {
            if n / 128 / 128 >= 128 {
                if n / 128 / 128 / 128 >= 128 {
                    assert(n / 128 / 128 / 128 / 128 < 128);
                }
            }
        }
    }
}

/// A packed payload of 32-bit values takes at most five bytes per value.
proof fn lemma_packed_len(vs: Seq<u32>)
    ensures
        spec_packed_u32(vs).len() <= 5 * vs.len(),
    decreases vs.len(),
{
    if vs.len() != 0 {
        lemma_varint_u32_len(vs[0] as u64);
        lemma_packed_len(vs.drop_first());
    }
}

proof fn lemma_ok_packed(tag: u64, vs: Seq<u32>)
    requires
        1 <= tag <= 0x1000_0000,
        vs.len() <= u64::MAX / 16,
    ensures
        fields_ok(packed_fields(tag, vs)),
{
    lemma_packed_len(vs);
}

/// Parsing a packed payload of 32-bit values recovers the values.
proof fn lemma_packed_round_trip(vs: Seq<u32>)
    ensures
        spec_dec_u32s(spec_packed_u32(vs)) == Some(vs),
    decreases vs.len(),
{
    if vs.len() == 0 {
        assert(spec_packed_u32(vs) =~= Seq::<u8>::empty());
    } else {
        lemma_packed_round_trip(vs.drop_first());
        lemma_varint_round_trip(vs[0] as u64, spec_packed_u32(vs.drop_first()));
        assert(seq![vs[0]] + vs.drop_first() =~= vs);
    }
}

/// Folding over a concatenation folds over each part in turn.
pub proof fn lemma_fold_app(acc: SpecCommand, a: Seq<(u64, SpecField)>, b: Seq<(u64, SpecField)>)
    ensures
        spec_fold_command(acc, a + b) == match spec_fold_command(acc, a) {
            None => None::<SpecCommand>,
            Some(m) => spec_fold_command(m, b),
        },
    decreases a.len(),
{
    if a.len() == 0 {
        assert(a + b =~= b);
    } else {
        assert((a + b)[0] == a[0]);
        assert((a + b).drop_first() =~= a.drop_first() + b);
        match spec_apply_command(acc, a[0]) {
            None => {},
            Some(a2) => {
                lemma_fold_app(a2, a.drop_first(), b);
            },
        }
    }
}

/// Folding a single field is one application.
pub proof fn lemma_fold_one(acc: SpecCommand, f: (u64, SpecField))
    ensures
        spec_fold_command(acc, seq![f]) == spec_apply_command(acc, f),
{
    assert(seq![f].len() == 1);
    assert(seq![f][0] == f);
    assert(seq![f].drop_first() =~= Seq::<(u64, SpecField)>::empty());
    match spec_apply_command(acc, f) {
        None => {},
        Some(a2) => {
            assert(spec_fold_command(a2, Seq::<(u64, SpecField)>::empty()) == Some(a2));
        },
    }
}

/// Folding an optional byte-string field.
proof fn lemma_fold_opt(acc: SpecCommand, tag: u64, o: Option<Seq<u8>>)
    ensures
        spec_fold_command(acc, opt_fields(tag, o)) == match o {
            Option::None => Some(acc),
            Option::Some(b) => spec_apply_command(acc, (tag, SpecField::Bytes(b))),
        },
{
    match o {
        Option::None => {},
        Option::Some(b) => {
            lemma_fold_one(acc, (tag, SpecField::Bytes(b)));
        },
    }
}

/// Folding a plain string or byte-string field.
proof fn lemma_fold_str(acc: SpecCommand, tag: u64, s: Seq<u8>)
    ensures
        spec_fold_command(acc, str_fields(tag, s)) == if s.len() == 0 {
            Some(acc)
        } else {
            spec_apply_command(acc, (tag, SpecField::Bytes(s)))
        },
{
    if s.len() != 0 {
        lemma_fold_one(acc, (tag, SpecField::Bytes(s)));
    }
}

/// Folding a boolean field.
proof fn lemma_fold_bool(acc: SpecCommand, tag: u64, b: bool)
    ensures
        spec_fold_command(acc, bool_fields(tag, b)) == if b {
            spec_apply_command(acc, (tag, SpecField::Int(1)))
        } else {
            Some(acc)
        },
{
    if b {
        lemma_fold_one(acc, (tag, SpecField::Int(1)));
    }
}

/// Folding the repeated table-type field appends every element in order.
proof fn lemma_fold_rep_tables(
    c: Option<Seq<u8>>,
    d: Option<Seq<u8>>,
    tn: Option<Seq<u8>>,
    tt: Seq<Seq<u8>>,
    inc: bool,
    items: Seq<Seq<u8>>,
)
    ensures
        spec_fold_command(
            SpecCommand::GetTables {
                catalog: c,
                db_schema_filter_pattern: d,
                table_name_filter_pattern: tn,
                table_types: tt,
                include_schema: inc,
            },
            rep_fields(4, items),
        ) == Some(
            SpecCommand::GetTables {
                catalog: c,
                db_schema_filter_pattern: d,
                table_name_filter_pattern: tn,
                table_types: tt + items,
                include_schema: inc,
            },
        ),
    decreases items.len(),
{
    let acc = SpecCommand::GetTables {
        catalog: c,
        db_schema_filter_pattern: d,
        table_name_filter_pattern: tn,
        table_types: tt,
        include_schema: inc,
    };
    if items.len() == 0 {
        assert(rep_fields(4, items).len() == 0);
        assert(tt + items =~= tt);
        assert(SpecCommand::GetTables {
            catalog: c,
            db_schema_filter_pattern: d,
            table_name_filter_pattern: tn,
            table_types: tt + items,
            include_schema: inc,
        } =~= acc);
    } else {
        let fs = rep_fields(4, items);
        assert(fs[0] == (4u64, SpecField::Bytes(items[0])));
        assert(fs.drop_first() =~= rep_fields(4, items.drop_first()));
        lemma_fold_rep_tables(c, d, tn, tt.push(items[0]), inc, items.drop_first());
        assert(tt.push(items[0]) + items.drop_first() =~= tt + items);
    }
}

proof fn lemma_rt_statement_query(query: Seq<u8>)
    requires
        query.len() <= u64::MAX,
    ensures
        spec_dec_command(
            spec_msg_type(SpecCommand::StatementQuery { query }),
            spec_body(SpecCommand::StatementQuery { query }),
        ) == Some(SpecCommand::StatementQuery { query }),
{
    let c = SpecCommand::StatementQuery { query };
    let t = spec_msg_type(c);
    let e = spec_empty_command(t)->Some_0;
    lemma_ok_str(1, query);
    crate::wire::lemma_fields_round_trip(spec_fields_of(c));
    lemma_fold_str(e, 1, query);
    if query.len() == 0 {
        assert(e =~= c);
    }
}

proof fn lemma_rt_statement_update(query: Seq<u8>)
    requires
        query.len() <= u64::MAX,
    ensures
        spec_dec_command(
            spec_msg_type(SpecCommand::StatementUpdate { query }),
            spec_body(SpecCommand::StatementUpdate { query }),
        ) == Some(SpecCommand::StatementUpdate { query }),
{
    let c = SpecCommand::StatementUpdate { query };
    let t = spec_msg_type(c);
    let e = spec_empty_command(t)->Some_0;
    lemma_ok_str(1, query);
    crate::wire::lemma_fields_round_trip(spec_fields_of(c));
    lemma_fold_str(e, 1, query);
    if query.len() == 0 {
        assert(e =~= c);
    }
}

proof fn lemma_rt_prepared_query(prepared_statement_handle: Seq<u8>)
    requires
        prepared_statement_handle.len() <= u64::MAX,
    ensures
        spec_dec_command(
            spec_msg_type(SpecCommand::PreparedStatementQuery { prepared_statement_handle }),
            spec_body(SpecCommand::PreparedStatementQuery { prepared_statement_handle }),
        ) == Some(SpecCommand::PreparedStatementQuery { prepared_statement_handle }),
{
    let c = SpecCommand::PreparedStatementQuery { prepared_statement_handle };
    let t = spec_msg_type(c);
    let e = spec_empty_command(t)->Some_0;
    lemma_ok_str(1, prepared_statement_handle);
    crate::wire::lemma_fields_round_trip(spec_fields_of(c));
    lemma_fold_str(e, 1, prepared_statement_handle);
    if prepared_statement_handle.len() == 0 {
        assert(e =~= c);
    }
}

proof fn lemma_rt_prepared_update(prepared_statement_handle: Seq<u8>)
    requires
        prepared_statement_handle.len() <= u64::MAX,
    ensures
        spec_dec_command(
            spec_msg_type(SpecCommand::PreparedStatementUpdate { prepared_statement_handle }),
            spec_body(SpecCommand::PreparedStatementUpdate { prepared_statement_handle }),
        ) == Some(SpecCommand::PreparedStatementUpdate { prepared_statement_handle }),
{
    let c = SpecCommand::PreparedStatementUpdate { prepared_statement_handle };
    let t = spec_msg_type(c);
    let e = spec_empty_command(t)->Some_0;
    lemma_ok_str(1, prepared_statement_handle);
    crate::wire::lemma_fields_round_trip(spec_fields_of(c));
    lemma_fold_str(e, 1, prepared_statement_handle);
    if prepared_statement_handle.len() == 0 {
        assert(e =~= c);
    }
}

proof fn lemma_rt_create_prepared(query: Seq<u8>)
    requires
        query.len() <= u64::MAX,
    ensures
        spec_dec_command(
            spec_msg_type(SpecCommand::CreatePreparedStatement { query }),
            spec_body(SpecCommand::CreatePreparedStatement { query }),
        ) == Some(SpecCommand::CreatePreparedStatement { query }),
{
    let c = SpecCommand::CreatePreparedStatement { query };
    let t = spec_msg_type(c);
    let e = spec_empty_command(t)->Some_0;
    lemma_ok_str(1, query);
    crate::wire::lemma_fields_round_trip(spec_fields_of(c));
    lemma_fold_str(e, 1, query);
    if query.len() == 0 {
        assert(e =~= c);
    }
}

proof fn lemma_rt_close_prepared(prepared_statement_handle: Seq<u8>)
    requires
        prepared_statement_handle.len() <= u64::MAX,
    ensures
        spec_dec_command(
            spec_msg_type(SpecCommand::ClosePreparedStatement { prepared_statement_handle }),
            spec_body(SpecCommand::ClosePreparedStatement { prepared_statement_handle }),
        ) == Some(SpecCommand::ClosePreparedStatement { prepared_statement_handle }),
{
    let c = SpecCommand::ClosePreparedStatement { prepared_statement_handle };
    let t = spec_msg_type(c);
    let e = spec_empty_command(t)->Some_0;
    lemma_ok_str(1, prepared_statement_handle);
    crate::wire::lemma_fields_round_trip(spec_fields_of(c));
    lemma_fold_str(e, 1, prepared_statement_handle);
    if prepared_statement_handle.len() == 0 {
        assert(e =~= c);
    }
}

proof fn lemma_rt_primary_keys(catalog: Option<Seq<u8>>, db_schema: Option<Seq<u8>>, table: Seq<u8>)
    requires
        crate::messages::opt_fits(catalog),
        crate::messages::opt_fits(db_schema),
        table.len() <= u64::MAX,
    ensures
        spec_dec_command(
            spec_msg_type(SpecCommand::GetPrimaryKeys { catalog, db_schema, table }),
            spec_body(SpecCommand::GetPrimaryKeys { catalog, db_schema, table }),
        ) == Some(SpecCommand::GetPrimaryKeys { catalog, db_schema, table }),
{
    let c = SpecCommand::GetPrimaryKeys { catalog, db_schema, table };
    let t = spec_msg_type(c);
    let e = spec_empty_command(t)->Some_0;
    let a = opt_fields(1, catalog);
    let b = opt_fields(2, db_schema);
    let cc = str_fields(3, table);
    lemma_ok_opt(1, catalog);
    lemma_ok_opt(2, db_schema);
    lemma_ok_str(3, table);
    lemma_ok_app(a, b);
    lemma_ok_app(a + b, cc);
    crate::wire::lemma_fields_round_trip(a + b + cc);
    lemma_fold_app(e, a, b);
    lemma_fold_app(e, a + b, cc);
    lemma_fold_opt(e, 1, catalog);
    let m1 = spec_fold_command(e, a)->Some_0;
    lemma_fold_opt(m1, 2, db_schema);
    let m2 = spec_fold_command(m1, b)->Some_0;
    lemma_fold_str(m2, 3, table);
    if table.len() == 0 {
        assert(m2 =~= c);
    }
}

proof fn lemma_rt_exported_keys(catalog: Option<Seq<u8>>, db_schema: Option<Seq<u8>>, table: Seq<u8>)
    requires
        crate::messages::opt_fits(catalog),
        crate::messages::opt_fits(db_schema),
        table.len() <= u64::MAX,
    ensures
        spec_dec_command(
            spec_msg_type(SpecCommand::GetExportedKeys { catalog, db_schema, table }),
            spec_body(SpecCommand::GetExportedKeys { catalog, db_schema, table }),
        ) == Some(SpecCommand::GetExportedKeys { catalog, db_schema, table }),
{
    let c = SpecCommand::GetExportedKeys { catalog, db_schema, table };
    let t = spec_msg_type(c);
    let e = spec_empty_command(t)->Some_0;
    let a = opt_fields(1, catalog);
    let b = opt_fields(2, db_schema);
    let cc = str_fields(3, table);
    lemma_ok_opt(1, catalog);
    lemma_ok_opt(2, db_schema);
    lemma_ok_str(3, table);
    lemma_ok_app(a, b);
    lemma_ok_app(a + b, cc);
    crate::wire::lemma_fields_round_trip(a + b + cc);
    lemma_fold_app(e, a, b);
    lemma_fold_app(e, a + b, cc);
    lemma_fold_opt(e, 1, catalog);
    let m1 = spec_fold_command(e, a)->Some_0;
    lemma_fold_opt(m1, 2, db_schema);
    let m2 = spec_fold_command(m1, b)->Some_0;
    lemma_fold_str(m2, 3, table);
    if table.len() == 0 {
        assert(m2 =~= c);
    }
}

proof fn lemma_rt_imported_keys(catalog: Option<Seq<u8>>, db_schema: Option<Seq<u8>>, table: Seq<u8>)
    requires
        crate::messages::opt_fits(catalog),
        crate::messages::opt_fits(db_schema),
        table.len() <= u64::MAX,
    ensures
        spec_dec_command(
            spec_msg_type(SpecCommand::GetImportedKeys { catalog, db_schema, table }),
            spec_body(SpecCommand::GetImportedKeys { catalog, db_schema, table }),
        ) == Some(SpecCommand::GetImportedKeys { catalog, db_schema, table }),
{
    let c = SpecCommand::GetImportedKeys { catalog, db_schema, table };
    let t = spec_msg_type(c);
    let e = spec_empty_command(t)->Some_0;
    let a = opt_fields(1, catalog);
    let b = opt_fields(2, db_schema);
    let cc = str_fields(3, table);
    lemma_ok_opt(1, catalog);
    lemma_ok_opt(2, db_schema);
    lemma_ok_str(3, table);
    lemma_ok_app(a, b);
    lemma_ok_app(a + b, cc);
    crate::wire::lemma_fields_round_trip(a + b + cc);
    lemma_fold_app(e, a, b);
    lemma_fold_app(e, a + b, cc);
    lemma_fold_opt(e, 1, catalog);
    let m1 = spec_fold_command(e, a)->Some_0;
    lemma_fold_opt(m1, 2, db_schema);
    let m2 = spec_fold_command(m1, b)->Some_0;
    lemma_fold_str(m2, 3, table);
    if table.len() == 0 {
        assert(m2 =~= c);
    }
}

proof fn lemma_rt_db_schemas(catalog: Option<Seq<u8>>, pat: Option<Seq<u8>>)
    requires
        crate::messages::opt_fits(catalog),
        crate::messages::opt_fits(pat),
    ensures
        spec_dec_command(
            spec_msg_type(SpecCommand::GetDbSchemas { catalog, db_schema_filter_pattern: pat }),
            spec_body(SpecCommand::GetDbSchemas { catalog, db_schema_filter_pattern: pat }),
        ) == Some(SpecCommand::GetDbSchemas { catalog, db_schema_filter_pattern: pat }),
{
    let c = SpecCommand::GetDbSchemas { catalog, db_schema_filter_pattern: pat };
    let t = spec_msg_type(c);
    let e = spec_empty_command(t)->Some_0;
    let a = opt_fields(1, catalog);
    let b = opt_fields(2, pat);
    lemma_ok_opt(1, catalog);
    lemma_ok_opt(2, pat);
    lemma_ok_app(a, b);
    crate::wire::lemma_fields_round_trip(a + b);
    lemma_fold_app(e, a, b);
    lemma_fold_opt(e, 1, catalog);
    let m1 = spec_fold_command(e, a)->Some_0;
    lemma_fold_opt(m1, 2, pat);
    assert(spec_fold_command(e, a + b) == Some(c)) by {
        assert(spec_fold_command(m1, b) == Some(c));
    }
}

#[verifier::rlimit(60)]
proof fn lemma_rt_get_tables(
    catalog: Option<Seq<u8>>,
    pat: Option<Seq<u8>>,
    tn: Option<Seq<u8>>,
    table_types: Seq<Seq<u8>>,
    include_schema: bool,
)
    requires
        crate::messages::opt_fits(catalog),
        crate::messages::opt_fits(pat),
        crate::messages::opt_fits(tn),
        forall|i: int|
            0 <= i < table_types.len() ==> crate::messages::bytes_fit(#[trigger] table_types[i]),
    ensures
        spec_dec_command(
            spec_msg_type(
                SpecCommand::GetTables {
                    catalog,
                    db_schema_filter_pattern: pat,
                    table_name_filter_pattern: tn,
                    table_types,
                    include_schema,
                },
            ),
            spec_body(
                SpecCommand::GetTables {
                    catalog,
                    db_schema_filter_pattern: pat,
                    table_name_filter_pattern: tn,
                    table_types,
                    include_schema,
                },
            ),
        ) == Some(
            SpecCommand::GetTables {
                catalog,
                db_schema_filter_pattern: pat,
                table_name_filter_pattern: tn,
                table_types,
                include_schema,
            },
        ),
{
    let c = SpecCommand::GetTables {
        catalog,
        db_schema_filter_pattern: pat,
        table_name_filter_pattern: tn,
        table_types,
        include_schema,
    };
    let t = spec_msg_type(c);
    let e = spec_empty_command(t)->Some_0;
    let a = opt_fields(1, catalog);
    let b = opt_fields(2, pat);
    let cc = opt_fields(3, tn);
    let d = rep_fields(4, table_types);
    let ee = bool_fields(5, include_schema);
    lemma_ok_opt(1, catalog);
    lemma_ok_opt(2, pat);
    lemma_ok_opt(3, tn);
    lemma_ok_rep(4, table_types);
    lemma_ok_int(5, if include_schema { 1 } else { 0 });
    lemma_ok_app(a, b);
    lemma_ok_app(a + b, cc);
    lemma_ok_app(a + b + cc, d);
    lemma_ok_app(a + b + cc + d, ee);
    crate::wire::lemma_fields_round_trip(a + b + cc + d + ee);
    lemma_fold_app(e, a, b);
    lemma_fold_app(e, a + b, cc);
    lemma_fold_app(e, a + b + cc, d);
    lemma_fold_app(e, a + b + cc + d, ee);
    lemma_fold_opt(e, 1, catalog);
    let m1 = spec_fold_command(e, a)->Some_0;
    lemma_fold_opt(m1, 2, pat);
    let m2 = spec_fold_command(m1, b)->Some_0;
    lemma_fold_opt(m2, 3, tn);
    let m3 = spec_fold_command(m2, cc)->Some_0;
    assert(m3 == SpecCommand::GetTables {
        catalog,
        db_schema_filter_pattern: pat,
        table_name_filter_pattern: tn,
        table_types: Seq::empty(),
        include_schema: false,
    });
    lemma_fold_rep_tables(catalog, pat, tn, Seq::empty(), false, table_types);
    let m4 = spec_fold_command(m3, d)->Some_0;
    assert(Seq::<Seq<u8>>::empty() + table_types =~= table_types);
    lemma_fold_bool(m4, 5, include_schema);
    if !include_schema {
        assert(m4 =~= c);
    }
}

#[verifier::rlimit(60)]
proof fn lemma_rt_cross_reference(
    pk_catalog: Option<Seq<u8>>,
    pk_db_schema: Option<Seq<u8>>,
    pk_table: Seq<u8>,
    fk_catalog: Option<Seq<u8>>,
    fk_db_schema: Option<Seq<u8>>,
    fk_table: Seq<u8>,
)
    requires
        crate::messages::opt_fits(pk_catalog),
        crate::messages::opt_fits(pk_db_schema),
        pk_table.len() <= u64::MAX,
        crate::messages::opt_fits(fk_catalog),
        crate::messages::opt_fits(fk_db_schema),
        fk_table.len() <= u64::MAX,
    ensures
        spec_dec_command(
            spec_msg_type(
                SpecCommand::GetCrossReference {
                    pk_catalog,
                    pk_db_schema,
                    pk_table,
                    fk_catalog,
                    fk_db_schema,
                    fk_table,
                },
            ),
            spec_body(
                SpecCommand::GetCrossReference {
                    pk_catalog,
                    pk_db_schema,
                    pk_table,
                    fk_catalog,
                    fk_db_schema,
                    fk_table,
                },
            ),
        ) == Some(
            SpecCommand::GetCrossReference {
                pk_catalog,
                pk_db_schema,
                pk_table,
                fk_catalog,
                fk_db_schema,
                fk_table,
            },
        ),
{
    let c = SpecCommand::GetCrossReference {
        pk_catalog,
        pk_db_schema,
        pk_table,
        fk_catalog,
        fk_db_schema,
        fk_table,
    };
    let t = spec_msg_type(c);
    let e = spec_empty_command(t)->Some_0;
    let a = opt_fields(1, pk_catalog);
    let b = opt_fields(2, pk_db_schema);
    let cc = str_fields(3, pk_table);
    let d = opt_fields(4, fk_catalog);
    let ee = opt_fields(5, fk_db_schema);
    let ff = str_fields(6, fk_table);
    lemma_ok_opt(1, pk_catalog);
    lemma_ok_opt(2, pk_db_schema);
    lemma_ok_str(3, pk_table);
    lemma_ok_opt(4, fk_catalog);
    lemma_ok_opt(5, fk_db_schema);
    lemma_ok_str(6, fk_table);
    lemma_ok_app(a, b);
    lemma_ok_app(a + b, cc);
    lemma_ok_app(a + b + cc, d);
    lemma_ok_app(a + b + cc + d, ee);
    lemma_ok_app(a + b + cc + d + ee, ff);
    crate::wire::lemma_fields_round_trip(a + b + cc + d + ee + ff);
    lemma_fold_app(e, a, b);
    lemma_fold_app(e, a + b, cc);
    lemma_fold_app(e, a + b + cc, d);
    lemma_fold_app(e, a + b + cc + d, ee);
    lemma_fold_app(e, a + b + cc + d + ee, ff);
    lemma_fold_opt(e, 1, pk_catalog);
    let m1 = spec_fold_command(e, a)->Some_0;
    lemma_fold_opt(m1, 2, pk_db_schema);
    let m2 = spec_fold_command(m1, b)->Some_0;
    lemma_fold_str(m2, 3, pk_table);
    let m3 = spec_fold_command(m2, cc)->Some_0;
    lemma_fold_opt(m3, 4, fk_catalog);
    let m4 = spec_fold_command(m3, d)->Some_0;
    lemma_fold_opt(m4, 5, fk_db_schema);
    let m5 = spec_fold_command(m4, ee)->Some_0;
    lemma_fold_str(m5, 6, fk_table);
    assert(spec_fold_command(m5, ff) == Some(c)) by {
        if fk_table.len() == 0 {
            assert(m5 =~= c);
        }
    }
}

proof fn lemma_rt_sql_info(info: Seq<u32>)
    requires
        info.len() <= u64::MAX / 16,
    ensures
        spec_dec_command(
            spec_msg_type(SpecCommand::GetSqlInfo { info }),
            spec_body(SpecCommand::GetSqlInfo { info }),
        ) == Some(SpecCommand::GetSqlInfo { info }),
{
    let c = SpecCommand::GetSqlInfo { info };
    let t = spec_msg_type(c);
    let e = spec_empty_command(t)->Some_0;
    lemma_ok_packed(1, info);
    crate::wire::lemma_fields_round_trip(spec_fields_of(c));
    if info.len() == 0 {
        assert(e =~= c);
    } else {
        lemma_fold_one(e, (1, SpecField::Bytes(spec_packed_u32(info))));
        lemma_packed_round_trip(info);
        assert(Seq::<u32>::empty() + info =~= info);
    }
}

/// Decoding a command's canonical body with its own type recovers the
/// command: the round-trip law of the codec.
pub proof fn lemma_command_round_trip(c: SpecCommand)
    requires
        spec_wf(c),
    ensures
        spec_dec_command(spec_msg_type(c), spec_body(c)) == Some(c),
{
    match c {
        SpecCommand::StatementQuery { query } => {
            lemma_rt_statement_query(query);
        },
        SpecCommand::StatementUpdate { query } => {
            lemma_rt_statement_update(query);
        },
        SpecCommand::GetCatalogs => {
            crate::wire::lemma_fields_round_trip(spec_fields_of(c));
        },
        SpecCommand::GetTableTypes => {
            crate::wire::lemma_fields_round_trip(spec_fields_of(c));
        },
        SpecCommand::GetDbSchemas { catalog, db_schema_filter_pattern } => {
            lemma_rt_db_schemas(catalog, db_schema_filter_pattern);
        },
        SpecCommand::GetTables {
            catalog,
            db_schema_filter_pattern,
            table_name_filter_pattern,
            table_types,
            include_schema,
        } => {
            lemma_rt_get_tables(
                catalog,
                db_schema_filter_pattern,
                table_name_filter_pattern,
                table_types,
                include_schema,
            );
        },
        SpecCommand::GetPrimaryKeys { catalog, db_schema, table } => {
            lemma_rt_primary_keys(catalog, db_schema, table);
        },
        SpecCommand::GetExportedKeys { catalog, db_schema, table } => {
            lemma_rt_exported_keys(catalog, db_schema, table);
        },
        SpecCommand::GetImportedKeys { catalog, db_schema, table } => {
            lemma_rt_imported_keys(catalog, db_schema, table);
        },
        SpecCommand::GetCrossReference {
            pk_catalog,
            pk_db_schema,
            pk_table,
            fk_catalog,
            fk_db_schema,
            fk_table,
        } => {
            lemma_rt_cross_reference(
                pk_catalog,
                pk_db_schema,
                pk_table,
                fk_catalog,
                fk_db_schema,
                fk_table,
            );
        },
        SpecCommand::GetSqlInfo { info } => {
            lemma_rt_sql_info(info);
        },
        SpecCommand::PreparedStatementQuery { prepared_statement_handle } => {
            lemma_rt_prepared_query(prepared_statement_handle);
        },
        SpecCommand::PreparedStatementUpdate { prepared_statement_handle } => {
            lemma_rt_prepared_update(prepared_statement_handle);
        },
        SpecCommand::CreatePreparedStatement { query } => {
            lemma_rt_create_prepared(query);
        },
        SpecCommand::ClosePreparedStatement { prepared_statement_handle } => {
            lemma_rt_close_prepared(prepared_statement_handle);
        },
    }
}

/// The round-trip law for the update result.
pub proof fn lemma_update_result_round_trip(r: DoPutUpdateResult)
    ensures
        spec_dec_update_result(spec_update_result_body(r)) == Some(r),
{
    let fs = spec_update_result_fields(r);
    assert(fields_ok(fs)) by {
        if r.record_count != 0 {
            assert(fs =~= seq![(1u64, SpecField::Int(r.record_count as u64))]);
        }
    }
    crate::wire::lemma_fields_round_trip(fs);
    let z = DoPutUpdateResult { record_count: 0 };
    if r.record_count == 0 {
        assert(fs.len() == 0);
    } else {
        assert(fs[0] == (1u64, SpecField::Int(r.record_count as u64)));
        assert(fs.drop_first() =~= Seq::<(u64, SpecField)>::empty());
        let v = r.record_count;
        assert(v as u64 as i64 == v) by (bit_vector);
        let a2 = DoPutUpdateResult { record_count: v as u64 as i64 };
        assert(spec_apply_update(z, fs[0]) == Some(a2));
        assert(spec_fold_update(a2, Seq::<(u64, SpecField)>::empty()) == Some(a2));
        assert(a2 == r);
    }
}

/// The round-trip law for the prepared-statement creation result.
pub proof fn lemma_prepared_result_round_trip(r: SpecPreparedResult)
    requires
        spec_prepared_result_wf(r),
    ensures
        spec_dec_prepared_result(spec_prepared_result_body(r)) == Some(r),
{
    let a = str_fields(1, r.prepared_statement_handle);
    let b = str_fields(2, r.dataset_schema);
    let cc = str_fields(3, r.parameter_schema);
    let e = SpecPreparedResult {
        prepared_statement_handle: Seq::empty(),
        dataset_schema: Seq::empty(),
        parameter_schema: Seq::empty(),
    };
    assert(fields_ok(a)) by {
        if r.prepared_statement_handle.len() != 0 {
            assert(a =~= seq![(1u64, SpecField::Bytes(r.prepared_statement_handle))]);
        }
    }
    assert(fields_ok(b)) by {
        if r.dataset_schema.len() != 0 {
            assert(b =~= seq![(2u64, SpecField::Bytes(r.dataset_schema))]);
        }
    }
    assert(fields_ok(cc)) by {
        if r.parameter_schema.len() != 0 {
            assert(cc =~= seq![(3u64, SpecField::Bytes(r.parameter_schema))]);
        }
    }
    lemma_ok_app(a, b);
    lemma_ok_app(a + b, cc);
    crate::wire::lemma_fields_round_trip(a + b + cc);
    lemma_fold_prepared_app(e, a, b);
    lemma_fold_prepared_app(e, a + b, cc);
    lemma_fold_prepared_str(e, 1, r.prepared_statement_handle);
    let m1 = spec_fold_prepared(e, a)->Some_0;
    lemma_fold_prepared_str(m1, 2, r.dataset_schema);
    let m2 = spec_fold_prepared(m1, b)->Some_0;
    lemma_fold_prepared_str(m2, 3, r.parameter_schema);
    assert(spec_fold_prepared(m2, cc) == Some(r)) by {
        if r.parameter_schema.len() == 0 {
            assert(m2 =~= r);
        }
    }
}

/// Folding over a concatenation, for the prepared-statement result.
proof fn lemma_fold_prepared_app(
    acc: SpecPreparedResult,
    a: Seq<(u64, SpecField)>,
    b: Seq<(u64, SpecField)>,
)
    ensures
        spec_fold_prepared(acc, a + b) == match spec_fold_prepared(acc, a) {
            None => None::<SpecPreparedResult>,
            Some(m) => spec_fold_prepared(m, b),
        },
    decreases a.len(),
{
    if a.len() == 0 {
        assert(a + b =~= b);
    } else {
        assert((a + b)[0] == a[0]);
        assert((a + b).drop_first() =~= a.drop_first() + b);
        match spec_apply_prepared(acc, a[0]) {
            None => {},
            Some(a2) => {
                lemma_fold_prepared_app(a2, a.drop_first(), b);
            },
        }
    }
}

/// Folding one string field of the prepared-statement result.
proof fn lemma_fold_prepared_str(acc: SpecPreparedResult, tag: u64, s: Seq<u8>)
    ensures
        spec_fold_prepared(acc, str_fields(tag, s)) == if s.len() == 0 {
            Some(acc)
        } else {
            spec_apply_prepared(acc, (tag, SpecField::Bytes(s)))
        },
{
    if s.len() != 0 {
        let f = (tag, SpecField::Bytes(s));
        assert(str_fields(tag, s).len() == 1);
        assert(str_fields(tag, s)[0] == f);
        assert(str_fields(tag, s).drop_first() =~= Seq::<(u64, SpecField)>::empty());
        match spec_apply_prepared(acc, f) {
            None => {},
            Some(a2) => {
                assert(spec_fold_prepared(a2, Seq::<(u64, SpecField)>::empty()) == Some(a2));
            },
        }
    }
}

} // verus!
