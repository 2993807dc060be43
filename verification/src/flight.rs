//! The transport-level data model of the Flight protocol, as far as the
//! client core reads it: descriptors, flight info with its endpoints and
//! tickets, data frames, and actions.  The caller's transport exchanges
//! these as plain values.

use crate::errors::FlightError;
use vstd::prelude::*;

verus! {

/// An opaque, single-use token identifying a server-side result cursor.
#[derive(Debug, Clone, PartialEq, Eq)]
pub struct Ticket {
    pub ticket: Vec<u8>,
}

/// One place a result can be fetched from: its ticket, if the server
/// supplied one.  Location hints are not used by this client.
#[derive(Debug, Clone, PartialEq, Eq)]
pub struct FlightEndpoint {
    pub ticket: Option<Ticket>,
}

/// The response describing where and how to fetch a described request's
/// result: the dataset's serialized schema and the endpoints serving it.
#[derive(Debug, Clone, PartialEq, Eq)]
pub struct FlightInfo {
    pub schema: Vec<u8>,
    pub endpoint: Vec<FlightEndpoint>,
}

/// Which form a descriptor takes.
#[derive(Debug, Clone, Copy, PartialEq, Eq, Structural)]
pub enum DescriptorType {
    Cmd,
    Path,
}

/// A request envelope identifying either an opaque command or a path.
/// This client only ever sends the command form.
#[derive(Debug, Clone, PartialEq, Eq)]
pub struct FlightDescriptor {
    pub descriptor_type: DescriptorType,
    pub cmd: Vec<u8>,
    pub path: Vec<String>,
}

/// One unit of a Flight data stream.
#[derive(Debug, Clone, PartialEq, Eq)]
pub struct FlightData {
    pub flight_descriptor: Option<FlightDescriptor>,
    pub data_header: Vec<u8>,
    pub data_body: Vec<u8>,
    pub app_metadata: Vec<u8>,
}

/// A remote procedure outside the data plane: a type tag and an opaque
/// body, used for the prepared-statement lifecycle.
#[derive(Debug, Clone, PartialEq, Eq)]
pub struct Action {
    pub action_type: String,
    pub body: Vec<u8>,
}

impl FlightDescriptor {
    /// A command-form descriptor over the given opaque command bytes.
    pub fn new_cmd(cmd: Vec<u8>) -> (r: FlightDescriptor)
        ensures
            r.descriptor_type is Cmd,
            r.cmd@ == cmd@,
            r.path@.len() == 0,
    {
        FlightDescriptor { descriptor_type: DescriptorType::Cmd, cmd, path: Vec::new() }
    }

    /// A path-form descriptor over the given path segments.
    pub fn new_path(path: Vec<String>) -> (r: FlightDescriptor)
        ensures
            r.descriptor_type is Path,
            r.cmd@.len() == 0,
            r.path == path,
    {
        FlightDescriptor { descriptor_type: DescriptorType::Path, cmd: Vec::new(), path }
    }
}

impl FlightData {
    /// A frame holding only a descriptor, as sent to open a put operation.
    pub fn descriptor_only(descriptor: FlightDescriptor) -> (r: FlightData)
        ensures
            r.flight_descriptor == Some(descriptor),
            r.data_header@.len() == 0,
            r.data_body@.len() == 0,
            r.app_metadata@.len() == 0,
    {
        FlightData {
            flight_descriptor: Some(descriptor),
            data_header: Vec::new(),
            data_body: Vec::new(),
            app_metadata: Vec::new(),
        }
    }
}

impl FlightInfo {
    /// The ticket of the first endpoint: the one this client always
    /// fetches from.  A response with no endpoint, or whose first endpoint
    /// carries no ticket, is malformed relative to the protocol and is a
    /// hard error, never a panic and never an empty result.
    pub fn first_endpoint_ticket(&self) -> (r: Result<Ticket, FlightError>)
        ensures
            self.endpoint@.len() == 0 ==> (r matches Err(e) && e matches FlightError::Malformed(m)
                && m@ == "Failed to get first endpoint"@),
            self.endpoint@.len() > 0 && self.endpoint@[0].ticket is None ==> (r matches Err(e)
                && e matches FlightError::Malformed(m) && m@ == "Failed to get first ticket"@),
            self.endpoint@.len() > 0 && self.endpoint@[0].ticket is Some ==> (r matches Ok(t)
                && t.ticket@ == self.endpoint@[0].ticket->Some_0.ticket@),
    {
        if self.endpoint.len() == 0 {
            return Err(FlightError::Malformed("Failed to get first endpoint".to_owned()));
        }
        match &self.endpoint[0].ticket {
            None => Err(FlightError::Malformed("Failed to get first ticket".to_owned())),
            Some(t) => Ok(Ticket { ticket: crate::decode::clone_bytes(&t.ticket) }),
        }
    }
}

} // verus!
