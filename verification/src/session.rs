//! The request and response halves of each Flight SQL session operation.
//!
//! The transport is not owned here: for every operation the session layer
//! builds the exact request value the caller's transport must send, and
//! decodes the plain bytes the transport got back.  A read-oriented
//! command becomes a command-form descriptor for the describe call; an
//! update becomes a descriptor-only put frame whose single response frame
//! carries the row count; the prepared-statement lifecycle runs over
//! actions.

use crate::envelope::{spec_dec_any, spec_enc_any, spec_pack, Envelope};
use crate::errors::FlightError;
use crate::flight::{Action, FlightDescriptor};
use crate::messages::{Command, CreatePreparedStatementResult, SpecCommand};
use crate::tags::{spec_tag, MessageType};
use vstd::prelude::*;

verus! {

/// The name of the action that creates a prepared statement.
pub fn action_type_create_prepared_statement() -> (r: String)
    ensures
        r@ == "CreatePreparedStatement"@,
{
    "CreatePreparedStatement".to_owned()
}

/// The name of the action that closes a prepared statement.
pub fn action_type_close_prepared_statement() -> (r: String)
    ensures
        r@ == "ClosePreparedStatement"@,
{
    "ClosePreparedStatement".to_owned()
}

/// The wire bytes a command is sent as: its envelope, encoded.
pub open spec fn spec_command_bytes(c: SpecCommand) -> Seq<u8> {
    spec_enc_any(spec_pack(c))
}

/// The command-form descriptor that asks the server to describe the
/// result of `cmd`: the request half of every read-oriented operation.
pub fn get_flight_info_request(cmd: &Command) -> (r: FlightDescriptor)
    ensures
        r.descriptor_type is Cmd,
        r.cmd@ == spec_command_bytes(cmd@),
        r.path@.len() == 0,
{
    FlightDescriptor::new_cmd(Envelope::pack(cmd).encode())
}

/// The request half of executing a query.
pub fn execute_request(query: Vec<u8>) -> (r: FlightDescriptor)
    ensures
        r.descriptor_type is Cmd,
        r.cmd@ == spec_command_bytes(SpecCommand::StatementQuery { query: query@ }),
{
    get_flight_info_request(&Command::StatementQuery { query })
}

/// The request half of executing an update: the descriptor of the single
/// put frame.
pub fn execute_update_request(query: Vec<u8>) -> (r: FlightDescriptor)
    ensures
        r.descriptor_type is Cmd,
        r.cmd@ == spec_command_bytes(SpecCommand::StatementUpdate { query: query@ }),
{
    get_flight_info_request(&Command::StatementUpdate { query })
}

/// The request half of listing catalogs.
pub fn get_catalogs_request() -> (r: FlightDescriptor)
    ensures
        r.descriptor_type is Cmd,
        r.cmd@ == spec_command_bytes(SpecCommand::GetCatalogs),
{
    get_flight_info_request(&Command::GetCatalogs)
}

/// The request half of listing table types.
pub fn get_table_types_request() -> (r: FlightDescriptor)
    ensures
        r.descriptor_type is Cmd,
        r.cmd@ == spec_command_bytes(SpecCommand::GetTableTypes),
{
    get_flight_info_request(&Command::GetTableTypes)
}

/// The request half of the SQL-information lookup.
pub fn get_sql_info_request(info: Vec<u32>) -> (r: FlightDescriptor)
    ensures
        r.descriptor_type is Cmd,
        r.cmd@ == spec_command_bytes(SpecCommand::GetSqlInfo { info: info@ }),
{
    get_flight_info_request(&Command::GetSqlInfo { info })
}

/// The request half of creating a prepared statement.
pub fn prepare_request(query: Vec<u8>) -> (r: Action)
    ensures
        r.action_type@ == "CreatePreparedStatement"@,
        r.body@ == spec_command_bytes(SpecCommand::CreatePreparedStatement { query: query@ }),
{
    Action {
        action_type: action_type_create_prepared_statement(),
        body: Envelope::pack(&Command::CreatePreparedStatement { query }).encode(),
    }
}

/// What an update's single response frame must decode to for the
/// operation to succeed, and the exact error when it does not.
pub open spec fn spec_update_result_outcome(app_metadata: Option<Seq<u8>>, r: Result<
    i64,
    FlightError,
>) -> bool {
    match app_metadata {
        None => r matches Err(e) && e is Malformed,
        Some(bytes) => match spec_dec_any(bytes) {
            None => r matches Err(e) && e is Decode,
            Some(env) => {
                if env.type_url != spec_tag(MessageType::DoPutUpdateResult) {
                    r matches Err(e) && e is Malformed
                } else {
                    match crate::decode::spec_dec_update_result(env.value) {
                        None => r matches Err(e) && e is Decode,
                        Some(u) => r == Ok::<i64, FlightError>(u.record_count),
                    }
                }
            },
        },
    }
}

/// The response half of an update execution.  The transport hands in the
/// application metadata of the first response frame, or `None` when the
/// server sent no frame at all, which is a protocol violation.  On
/// success the result is exactly the row count the server reported.
pub fn execute_update_response(app_metadata: Option<&Vec<u8>>) -> (r: Result<i64, FlightError>)
    ensures
        spec_update_result_outcome(
            match app_metadata {
                None => None,
                Some(m) => Some(m@),
            },
            r,
        ),
{
    let metadata = match app_metadata {
        None => {
            return Err(
                FlightError::Malformed("No response frame for the update request".to_owned()),
            );
        },
        Some(m) => m,
    };
    let env = match Envelope::decode(metadata.as_slice()) {
        None => {
            return Err(FlightError::Decode("Unable to decode response metadata".to_owned()));
        },
        Some(e) => e,
    };
    match env.unpack_update_result() {
        Err(e) => Err(e),
        Ok(None) => Err(
            FlightError::Malformed("Response metadata is not an update result".to_owned()),
        ),
        Ok(Some(u)) => Ok(u.record_count),
    }
}

/// What a create-prepared-statement action's response body must decode to
/// for the operation to succeed.
pub open spec fn spec_prepare_outcome(body: Option<Seq<u8>>, r: Result<
    CreatePreparedStatementResult,
    FlightError,
>) -> bool {
    match body {
        None => r matches Err(e) && e is Malformed,
        Some(bytes) => match spec_dec_any(bytes) {
            None => r matches Err(e) && e is Decode,
            Some(env) => {
                if env.type_url != spec_tag(MessageType::CreatePreparedStatementResult) {
                    r matches Err(e) && e is Malformed
                } else {
                    match crate::decode::spec_dec_prepared_result(env.value) {
                        None => r matches Err(e) && e is Decode,
                        Some(p) => r matches Ok(got) && got@ == p,
                    }
                }
            },
        },
    }
}

/// The response half of creating a prepared statement: decodes the action
/// result's body into the server-assigned handle and the two schema
/// blobs.  The transport hands in the first response body, or `None` when
/// the server sent none.
pub fn prepare_response(body: Option<&Vec<u8>>) -> (r: Result<
    CreatePreparedStatementResult,
    FlightError,
>)
    ensures
        spec_prepare_outcome(
            match body {
                None => None,
                Some(b) => Some(b@),
            },
            r,
        ),
{
    let bytes = match body {
        None => {
            return Err(
                FlightError::Malformed("No response for the prepared statement action".to_owned()),
            );
        },
        Some(b) => b,
    };
    let env = match Envelope::decode(bytes.as_slice()) {
        None => {
            return Err(FlightError::Decode("Unable to decode action result".to_owned()));
        },
        Some(e) => e,
    };
    match env.unpack_prepared_result() {
        Err(e) => Err(e),
        Ok(None) => Err(
            FlightError::Malformed(
                "Action result is not a prepared statement result".to_owned(),
            ),
        ),
        Ok(Some(p)) => Ok(p),
    }
}

} // verus!
