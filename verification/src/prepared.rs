//! The prepared-statement lifecycle: a server-assigned handle with its
//! dataset and parameter schemas, an optional bound parameter batch, and
//! one terminal transition, closing.
//!
//! A statement starts open.  While open, execute and execute-update
//! requests may be issued any number of times; a close request may be
//! issued once, and only after the transport acknowledges it does the
//! statement become closed.  Once closed, every request — execute,
//! execute-update, or a second close — is refused with an illegal-state
//! error; nothing reopens a statement.

use crate::envelope::{spec_dec_any, Envelope};
use crate::errors::{FlightError, UnsupportedFeature};
use crate::flight::{Action, FlightDescriptor, FlightInfo};
use crate::ipc::{schema_from_ipc_bytes, schema_matches_codes, parsed_sized_schema, RecordBatchData, SchemaDesc};
use crate::messages::{Command, SpecCommand};
use crate::session::{
    execute_update_response, get_flight_info_request, prepare_response, spec_command_bytes,
    spec_update_result_outcome,
};
use crate::tags::{spec_tag, MessageType};
use vstd::prelude::*;

verus! {

/// A prepared statement: the server's opaque handle, the schemas that
/// came with it, the parameters bound so far, and whether it was closed.
#[derive(Debug, Clone, PartialEq, Eq)]
pub struct PreparedStatement {
    pub handle: Vec<u8>,
    pub dataset_schema: SchemaDesc,
    pub parameter_schema: SchemaDesc,
    pub parameter_binding: Option<RecordBatchData>,
    pub closed: bool,
}

/// What building a prepared statement out of an action result's body
/// must yield: the decoded handle with both schemas decoded out of their
/// prefixed wire form, open and with nothing bound; or the first error
/// the chain hits.
pub open spec fn spec_statement_outcome(body: Option<Seq<u8>>, r: Result<
    PreparedStatement,
    FlightError,
>) -> bool {
    match body {
        None => r matches Err(e) && e is Malformed,
        Some(bytes) => match spec_dec_any(bytes) {
            None => r matches Err(e) && e is Decode,
            Some(env) => {
                if env.type_url != spec_tag(MessageType::CreatePreparedStatementResult) {
                    r matches Err(e) && e is Malformed
                } else {
                    match crate::decode::spec_dec_prepared_result(env.value) {
                        None => r matches Err(e) && e is Decode,
                        Some(p) => {
                            if p.dataset_schema.len() < 4 {
                                r matches Err(e) && e is Decode
                            } else {
                                match parsed_sized_schema(p.dataset_schema.skip(4)) {
                                    None => r matches Err(e) && e is Decode,
                                    Some(dcodes) => {
                                        if p.parameter_schema.len() < 4 {
                                            r matches Err(e) && e is Decode
                                        } else {
                                            match parsed_sized_schema(
                                                p.parameter_schema.skip(4),
                                            ) {
                                                None => r matches Err(e) && e is Decode,
                                                Some(pcodes) => r matches Ok(ps)
                                                    && ps.handle@
                                                    == p.prepared_statement_handle
                                                    && schema_matches_codes(
                                                    ps.dataset_schema,
                                                    dcodes,
                                                ) && schema_matches_codes(
                                                    ps.parameter_schema,
                                                    pcodes,
                                                ) && !ps.closed && ps.parameter_binding is None,
                                            }
                                        }
                                    },
                                }
                            }
                        },
                    }
                }
            },
        },
    }
}

impl PreparedStatement {
    /// A freshly created statement: open, nothing bound.
    pub fn new(handle: Vec<u8>, dataset_schema: SchemaDesc, parameter_schema: SchemaDesc) -> (r:
        PreparedStatement)
        ensures
            r.handle == handle,
            r.dataset_schema == dataset_schema,
            r.parameter_schema == parameter_schema,
            r.parameter_binding is None,
            !r.closed,
    {
        PreparedStatement {
            handle,
            dataset_schema,
            parameter_schema,
            parameter_binding: None,
            closed: false,
        }
    }

    /// Builds a statement from the body of the create action's response:
    /// decodes the result envelope, then both schema blobs.
    pub fn from_action_result(body: Option<&Vec<u8>>) -> (r: Result<
        PreparedStatement,
        FlightError,
    >)
        ensures
            spec_statement_outcome(
                match body {
                    None => None,
                    Some(b) => Some(b@),
                },
                r,
            ),
    {
        let p = match prepare_response(body) {
            Err(e) => {
                return Err(e);
            },
            Ok(p) => p,
        };
        let dataset_schema = match schema_from_ipc_bytes(&p.dataset_schema) {
            Err(e) => {
                return Err(e);
            },
            Ok(sd) => sd,
        };
        let parameter_schema = match schema_from_ipc_bytes(&p.parameter_schema) {
            Err(e) => {
                return Err(e);
            },
            Ok(sd) => sd,
        };
        Ok(PreparedStatement::new(p.prepared_statement_handle, dataset_schema, parameter_schema))
    }

    /// The request half of executing this statement's query: a
    /// descriptor-only put frame.  Refused once the statement is closed.
    pub fn execute_request(&self) -> (r: Result<FlightDescriptor, FlightError>)
        ensures
            self.closed ==> (r matches Err(e) && e is IllegalState),
            !self.closed ==> (r matches Ok(d) && d.descriptor_type is Cmd && d.cmd@
                == spec_command_bytes(
                SpecCommand::PreparedStatementQuery { prepared_statement_handle: self.handle@ },
            )),
    {
        if self.closed {
            return Err(FlightError::IllegalState);
        }
        Ok(
            get_flight_info_request(
                &Command::PreparedStatementQuery {
                    prepared_statement_handle: crate::decode::clone_bytes(&self.handle),
                },
            ),
        )
    }

    /// The response half of executing the query.  The metadata envelope
    /// is decoded, but materializing the result set of a prepared query
    /// is deliberately unfinished: after a well-formed response this
    /// always reports the unsupported feature, so a caller can tell
    /// "this will never work" from a malformed response.
    pub fn execute_response(&self, app_metadata: Option<&Vec<u8>>) -> (r: Result<
        FlightInfo,
        FlightError,
    >)
        ensures
            r is Err,
            match app_metadata {
                None => r matches Err(e) && e is Malformed,
                Some(m) => match spec_dec_any(m@) {
                    None => r matches Err(e) && e is Decode,
                    Some(env) => r == Err::<FlightInfo, FlightError>(
                        FlightError::Unsupported(UnsupportedFeature::PreparedQueryResults),
                    ),
                },
            },
    {
        let metadata = match app_metadata {
            None => {
                return Err(
                    FlightError::Malformed("No response frame for the put request".to_owned()),
                );
            },
            Some(m) => m,
        };
        match Envelope::decode(metadata.as_slice()) {
            None => Err(FlightError::Decode("Unable to decode response metadata".to_owned())),
            Some(_) => Err(FlightError::Unsupported(UnsupportedFeature::PreparedQueryResults)),
        }
    }

    /// The request half of executing this statement as an update: the
    /// prepared-statement update command over this statement's handle.
    /// Refused once the statement is closed.
    pub fn execute_update_request(&self) -> (r: Result<FlightDescriptor, FlightError>)
        ensures
            self.closed ==> (r matches Err(e) && e is IllegalState),
            !self.closed ==> (r matches Ok(d) && d.descriptor_type is Cmd && d.cmd@
                == spec_command_bytes(
                SpecCommand::PreparedStatementUpdate { prepared_statement_handle: self.handle@ },
            )),
    {
        if self.closed {
            return Err(FlightError::IllegalState);
        }
        Ok(
            get_flight_info_request(
                &Command::PreparedStatementUpdate {
                    prepared_statement_handle: crate::decode::clone_bytes(&self.handle),
                },
            ),
        )
    }

    /// The response half of executing an update: decodes the single
    /// response frame's metadata into the row count.
    pub fn execute_update_response(&self, app_metadata: Option<&Vec<u8>>) -> (r: Result<
        i64,
        FlightError,
    >)
        ensures
            spec_update_result_outcome(
                match app_metadata {
                    None => None,
                    Some(m) => Some(m@),
                },
                r,
            ),
    {
        execute_update_response(app_metadata)
    }

    /// The request half of closing this statement.  Refused once the
    /// statement is already closed: a double close is an error, never a
    /// silent no-op.
    pub fn close_request(&self) -> (r: Result<Action, FlightError>)
        ensures
            self.closed ==> (r matches Err(e) && e is IllegalState),
            !self.closed ==> (r matches Ok(a) && a.action_type@ == "ClosePreparedStatement"@
                && a.body@ == spec_command_bytes(
                SpecCommand::ClosePreparedStatement { prepared_statement_handle: self.handle@ },
            )),
    {
        if self.closed {
            return Err(FlightError::IllegalState);
        }
        Ok(
            Action {
                action_type: crate::session::action_type_close_prepared_statement(),
                body: Envelope::pack(
                    &Command::ClosePreparedStatement {
                        prepared_statement_handle: crate::decode::clone_bytes(&self.handle),
                    },
                ).encode(),
            },
        )
    }

    /// Records that the transport acknowledged the close action: the
    /// statement becomes closed, irrevocably, and nothing else changes.
    pub fn mark_closed(&mut self)
        ensures
            final(self).closed,
            final(self).handle == old(self).handle,
            final(self).dataset_schema == old(self).dataset_schema,
            final(self).parameter_schema == old(self).parameter_schema,
            final(self).parameter_binding == old(self).parameter_binding,
    {
        self.closed = true;
    }

    /// Binds a parameter batch, to be carried by the next execute.  No
    /// validation against the parameter schema happens here; the contract
    /// is purely "hold this until then".
    pub fn set_parameters(&mut self, parameter_binding: RecordBatchData)
        ensures
            final(self).parameter_binding == Some(parameter_binding),
            final(self).handle == old(self).handle,
            final(self).dataset_schema == old(self).dataset_schema,
            final(self).parameter_schema == old(self).parameter_schema,
            final(self).closed == old(self).closed,
    {
        self.parameter_binding = Some(parameter_binding);
    }

    /// The schema of the statement's result set.
    pub fn dataset_schema(&self) -> (r: &SchemaDesc)
        ensures
            r == &self.dataset_schema,
    {
        &self.dataset_schema
    }

    /// The schema of the statement's parameters.
    pub fn parameter_schema(&self) -> (r: &SchemaDesc)
        ensures
            r == &self.parameter_schema,
    {
        &self.parameter_schema
    }

    /// Whether this statement was closed.
    pub fn is_closed(&self) -> (r: bool)
        ensures
            r == self.closed,
    {
        self.closed
    }
}

} // verus!
