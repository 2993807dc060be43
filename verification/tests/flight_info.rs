//! Endpoint and ticket handling: a flight info without an endpoint, or
//! without a ticket on its first endpoint, is a malformed response; a
//! ticket is handed through unchanged, and single-use enforcement is the
//! transport's, not the client's.

use arrow_flight_sql_client::errors::FlightError;
use arrow_flight_sql_client::flight::{FlightEndpoint, FlightInfo, Ticket};

#[test]
fn zero_endpoints_is_malformed() {
    let fi = FlightInfo { schema: Vec::new(), endpoint: Vec::new() };
    let r = fi.first_endpoint_ticket();
    match r {
        Err(FlightError::Malformed(m)) => assert_eq!(m, "Failed to get first endpoint"),
        _ => panic!("zero endpoints must be a malformed-response error"),
    }
}

#[test]
fn missing_ticket_is_malformed() {
    let fi = FlightInfo { schema: Vec::new(), endpoint: vec![FlightEndpoint { ticket: None }] };
    let r = fi.first_endpoint_ticket();
    match r {
        Err(FlightError::Malformed(m)) => assert_eq!(m, "Failed to get first ticket"),
        _ => panic!("a first endpoint without a ticket must be a malformed-response error"),
    }
}

#[test]
fn first_ticket_is_returned() {
    let fi = FlightInfo {
        schema: Vec::new(),
        endpoint: vec![
            FlightEndpoint { ticket: Some(Ticket { ticket: b"t-1".to_vec() }) },
            FlightEndpoint { ticket: Some(Ticket { ticket: b"t-2".to_vec() }) },
        ],
    };
    let t = fi.first_endpoint_ticket().unwrap();
    assert_eq!(t.ticket, b"t-1".to_vec());
}

/// A stand-in for the transport: it remembers which tickets were
/// consumed and rejects a reuse, as a Flight server does.
struct FakeTransport {
    consumed: Vec<Vec<u8>>,
}

impl FakeTransport {
    fn new() -> FakeTransport {
        FakeTransport { consumed: Vec::new() }
    }

    fn do_get(&mut self, ticket: &Ticket) -> Result<Vec<u8>, FlightError> {
        if self.consumed.iter().any(|t| t == &ticket.ticket) {
            return Err(FlightError::Transport("ticket already consumed".to_string()));
        }
        self.consumed.push(ticket.ticket.clone());
        Ok(b"stream".to_vec())
    }
}

#[test]
fn ticket_reuse_is_rejected_by_the_transport() {
    let fi = FlightInfo {
        schema: Vec::new(),
        endpoint: vec![FlightEndpoint { ticket: Some(Ticket { ticket: b"once".to_vec() }) }],
    };
    let mut transport = FakeTransport::new();

    let first = fi.first_endpoint_ticket().unwrap();
    assert!(transport.do_get(&first).is_ok());

    // The client performs no reuse prevention of its own: asking again
    // hands back the very same ticket, and the transport's rejection
    // comes through unchanged.
    let second = fi.first_endpoint_ticket().unwrap();
    assert_eq!(second.ticket, first.ticket);
    match transport.do_get(&second) {
        Err(FlightError::Transport(m)) => assert_eq!(m, "ticket already consumed"),
        _ => panic!("a consumed ticket must be rejected by the transport"),
    }
}
