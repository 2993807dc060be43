//! The generic type-tagged envelope a Flight SQL server exchanges
//! commands in: a pair of a tag naming the message type and the message's
//! opaque body bytes, itself carried on the wire as a two-field message.
//!
//! Decoding an envelope as a given type is a probe: a tag that is not the
//! asked-for type is "not for me" and never an error, while a malformed
//! body under a matching tag is a hard decode failure.  Callers rely on
//! the distinction to try several candidate result types in sequence.

use crate::decode::{
    decode_command, decode_prepared_result, decode_update_result, spec_dec_command,
    spec_dec_prepared_result, spec_dec_update_result,
};
use crate::errors::FlightError;
use crate::messages::{
    spec_body, spec_msg_type, spec_wf, str_fields, Command, CreatePreparedStatementResult,
    DoPutUpdateResult, SpecCommand,
};
use crate::tags::{lemma_tags_distinct, spec_tag, MessageType};
use crate::wire::{
    bytes_eq, fields_view, parse_fields, spec_dec_fields, spec_enc_fields, FieldData, SpecField,
};
use vstd::prelude::*;

verus! {

/// A type-tagged envelope: a message's tag and its body bytes.
#[derive(Debug, Clone, PartialEq, Eq)]
pub struct Envelope {
    pub type_url: Vec<u8>,
    pub value: Vec<u8>,
}

/// The mathematical shadow of [`Envelope`].
#[verifier::ext_equal]
pub struct SpecEnvelope {
    pub type_url: Seq<u8>,
    pub value: Seq<u8>,
}

impl View for Envelope {
    type V = SpecEnvelope;

    open spec fn view(&self) -> SpecEnvelope {
        SpecEnvelope { type_url: self.type_url@, value: self.value@ }
    }
}

/// Machine-limit bounds under which an envelope can be encoded.
pub open spec fn spec_envelope_wf(e: SpecEnvelope) -> bool {
    e.type_url.len() <= u64::MAX && e.value.len() <= u64::MAX
}

/// The field list of an envelope: the tag, then the body, both omitted
/// when empty.
pub open spec fn spec_any_fields(e: SpecEnvelope) -> Seq<(u64, SpecField)> {
    str_fields(1, e.type_url) + str_fields(2, e.value)
}

/// The wire bytes of an envelope.
pub open spec fn spec_enc_any(e: SpecEnvelope) -> Seq<u8> {
    spec_enc_fields(spec_any_fields(e))
}

/// Applies one field to the envelope being rebuilt; unknown field
/// numbers are skipped.
pub open spec fn spec_apply_any(acc: SpecEnvelope, f: (u64, SpecField)) -> Option<SpecEnvelope> {
    if f.0 == 1 {
        match f.1 {
            SpecField::Bytes(b) => Some(SpecEnvelope { type_url: b, ..acc }),
            _ => None,
        }
    } else if f.0 == 2 {
        match f.1 {
            SpecField::Bytes(b) => Some(SpecEnvelope { value: b, ..acc }),
            _ => None,
        }
    } else {
        Some(acc)
    }
}

/// Folds a field list into the envelope being rebuilt.
pub open spec fn spec_fold_any(acc: SpecEnvelope, fs: Seq<(u64, SpecField)>) -> Option<SpecEnvelope>
    decreases fs.len(),
{
    if fs.len() == 0 {
        Some(acc)
    } else {
        match spec_apply_any(acc, fs[0]) {
            None => None,
            Some(a2) => spec_fold_any(a2, fs.drop_first()),
        }
    }
}

/// What wire bytes decode to as an envelope.
pub open spec fn spec_dec_any(s: Seq<u8>) -> Option<SpecEnvelope> {
    match spec_dec_fields(s) {
        None => None,
        Some(fs) => spec_fold_any(
            SpecEnvelope { type_url: Seq::empty(), value: Seq::empty() },
            fs,
        ),
    }
}

/// The envelope a command packs into: its type's tag over its body.
pub open spec fn spec_pack(c: SpecCommand) -> SpecEnvelope {
    SpecEnvelope { type_url: spec_tag(spec_msg_type(c)), value: spec_body(c) }
}

impl Envelope {
    /// Packs a command into an envelope under its type's tag.
    pub fn pack(c: &Command) -> (r: Envelope)
        ensures
            r@ == spec_pack(c@),
    {
        let r = Envelope { type_url: c.msg_type().tag_bytes(), value: c.encode_body() };
        assert(r@ =~= spec_pack(c@));
        r
    }

    /// The wire bytes of this envelope.
    pub fn encode(&self) -> (r: Vec<u8>)
        ensures
            r@ == spec_enc_any(self@),
    {
        let mut out: Vec<u8> = Vec::new();
        crate::messages::emit_str(&mut out, 1, &self.type_url);
        crate::messages::emit_str(&mut out, 2, &self.value);
        proof {
            crate::messages::lemma_enc_fields_app(
                str_fields(1, self.type_url@),
                str_fields(2, self.value@),
            );
        }
        out
    }

    /// Decodes wire bytes as an envelope; mirrors [`spec_dec_any`].
    pub fn decode(s: &[u8]) -> (r: Option<Envelope>)
        ensures
            match r {
                Some(e) => spec_dec_any(s@) == Some(e@),
                None => spec_dec_any(s@) is None,
            },
    {
        let fields = match parse_fields(s) {
            None => {
                return None;
            },
            Some(f) => f,
        };
        let mut acc = Envelope { type_url: Vec::new(), value: Vec::new() };
        let ghost e0 = acc@;
        let ghost all = fields_view(fields@);
        let mut k: usize = 0;
        proof {
            assert(e0 =~= SpecEnvelope { type_url: Seq::empty(), value: Seq::empty() });
            assert(fields_view(fields@.skip(0)) =~= all);
        }
        while k < fields.len()
            invariant
                k <= fields@.len(),
                spec_dec_fields(s@) == Some(all),
                all == fields_view(fields@),
                e0 == (SpecEnvelope { type_url: Seq::empty(), value: Seq::empty() }),
                spec_fold_any(e0, all) == spec_fold_any(
                    acc@,
                    fields_view(fields@.skip(k as int)),
                ),
            decreases fields@.len() - k,
        {
            let ghost suf = fields_view(fields@.skip(k as int));
            proof {
                assert(suf[0] == (fields@[k as int].0, fields@[k as int].1@));
                assert(suf.drop_first() =~= fields_view(fields@.skip(k as int + 1)));
            }
            let tag = fields[k].0;
            if tag == 1 || tag == 2 {
                match &fields[k].1 {
                    FieldData::Bytes(b) => {
                        let bs = crate::decode::clone_bytes(b);
                        if tag == 1 {
                            acc = Envelope { type_url: bs, value: acc.value };
                        } else {
                            acc = Envelope { type_url: acc.type_url, value: bs };
                        }
                    },
                    _ => {
                        return None;
                    },
                }
            }
            k = k + 1;
        }
        proof {
            assert(fields_view(fields@.skip(k as int)) =~= Seq::<(u64, SpecField)>::empty());
        }
        Some(acc)
    }

    /// Whether this envelope carries a message of the given type.
    pub fn is_type(&self, t: MessageType) -> (r: bool)
        ensures
            r <==> self@.type_url == spec_tag(t),
    {
        let tag = t.tag_bytes();
        bytes_eq(self.type_url.as_slice(), tag.as_slice())
    }

    /// Probes this envelope for a command of type `t`: `Ok(None)` when the
    /// tag is some other type's, `Ok(Some(..))` when the tag matches and
    /// the body decodes, and a hard decode error when the tag matches but
    /// the body does not parse.
    pub fn unpack_command(&self, t: MessageType) -> (r: Result<Option<Command>, FlightError>)
        ensures
            match r {
                Ok(None) => self@.type_url != spec_tag(t),
                Ok(Some(c)) => self@.type_url == spec_tag(t) && spec_dec_command(t, self@.value)
                    == Some(c@) && spec_msg_type(c@) == t,
                Err(e) => self@.type_url == spec_tag(t) && spec_dec_command(t, self@.value)
                    is None && e is Decode,
            },
    {
        if !self.is_type(t) {
            return Ok(None);
        }
        match decode_command(t, self.value.as_slice()) {
            Some(c) => Ok(Some(c)),
            None => Err(FlightError::Decode("Unable to decode Any value".to_owned())),
        }
    }

    /// Probes this envelope for an update result.
    pub fn unpack_update_result(&self) -> (r: Result<Option<DoPutUpdateResult>, FlightError>)
        ensures
            match r {
                Ok(None) => self@.type_url != spec_tag(MessageType::DoPutUpdateResult),
                Ok(Some(u)) => self@.type_url == spec_tag(MessageType::DoPutUpdateResult)
                    && spec_dec_update_result(self@.value) == Some(u),
                Err(e) => self@.type_url == spec_tag(MessageType::DoPutUpdateResult)
                    && spec_dec_update_result(self@.value) is None && e is Decode,
            },
    {
        if !self.is_type(MessageType::DoPutUpdateResult) {
            return Ok(None);
        }
        match decode_update_result(self.value.as_slice()) {
            Some(u) => Ok(Some(u)),
            None => Err(FlightError::Decode("Unable to decode Any value".to_owned())),
        }
    }

    /// Probes this envelope for a prepared-statement creation result.
    pub fn unpack_prepared_result(&self) -> (r: Result<
        Option<CreatePreparedStatementResult>,
        FlightError,
    >)
        ensures
            match r {
                Ok(None) => self@.type_url != spec_tag(
                    MessageType::CreatePreparedStatementResult,
                ),
                Ok(Some(p)) => self@.type_url == spec_tag(
                    MessageType::CreatePreparedStatementResult,
                ) && spec_dec_prepared_result(self@.value) == Some(p@),
                Err(e) => self@.type_url == spec_tag(MessageType::CreatePreparedStatementResult)
                    && spec_dec_prepared_result(self@.value) is None && e is Decode,
            },
    {
        if !self.is_type(MessageType::CreatePreparedStatementResult) {
            return Ok(None);
        }
        match decode_prepared_result(self.value.as_slice()) {
            Some(p) => Ok(Some(p)),
            None => Err(FlightError::Decode("Unable to decode Any value".to_owned())),
        }
    }
}

// ---------------------------------------------------------------------------
// the envelope round trip
// ---------------------------------------------------------------------------

proof fn lemma_fold_any_app(acc: SpecEnvelope, a: Seq<(u64, SpecField)>, b: Seq<(u64, SpecField)>)
    ensures
        spec_fold_any(acc, a + b) == match spec_fold_any(acc, a) {
            None => None::<SpecEnvelope>,
            Some(m) => spec_fold_any(m, b),
        },
    decreases a.len(),
{
    if a.len() == 0 {
        assert(a + b =~= b);
    } else {
        assert((a + b)[0] == a[0]);
        assert((a + b).drop_first() =~= a.drop_first() + b);
        match spec_apply_any(acc, a[0]) {
            None => {},
            Some(a2) => {
                lemma_fold_any_app(a2, a.drop_first(), b);
            },
        }
    }
}

proof fn lemma_fold_any_str(acc: SpecEnvelope, tag: u64, s: Seq<u8>)
    ensures
        spec_fold_any(acc, str_fields(tag, s)) == if s.len() == 0 {
            Some(acc)
        } else {
            spec_apply_any(acc, (tag, SpecField::Bytes(s)))
        },
{
    if s.len() != 0 {
        let f = (tag, SpecField::Bytes(s));
        assert(str_fields(tag, s).len() == 1);
        assert(str_fields(tag, s)[0] == f);
        assert(str_fields(tag, s).drop_first() =~= Seq::<(u64, SpecField)>::empty());
        match spec_apply_any(acc, f) {
            None => {},
            Some(a2) => {
                assert(spec_fold_any(a2, Seq::<(u64, SpecField)>::empty()) == Some(a2));
            },
        }
    }
}

/// Decoding an envelope's wire bytes recovers the envelope.
pub proof fn lemma_any_round_trip(e: SpecEnvelope)
    requires
        spec_envelope_wf(e),
    ensures
        spec_dec_any(spec_enc_any(e)) == Some(e),
{
    let a = str_fields(1, e.type_url);
    let b = str_fields(2, e.value);
    let z = SpecEnvelope { type_url: Seq::empty(), value: Seq::empty() };
    assert(crate::decode::fields_ok(a)) by {
        if e.type_url.len() != 0 {
            assert(a =~= seq![(1u64, SpecField::Bytes(e.type_url))]);
        }
    }
    assert(crate::decode::fields_ok(b)) by {
        if e.value.len() != 0 {
            assert(b =~= seq![(2u64, SpecField::Bytes(e.value))]);
        }
    }
    assert(crate::decode::fields_ok(a + b)) by {
        assert forall|i: int| 0 <= i < (a + b).len() implies crate::wire::field_valid(
            #[trigger] (a + b)[i],
        ) by {
            if i < a.len() {
                assert(crate::wire::field_valid(a[i]));
            } else {
                assert(crate::wire::field_valid(b[i - a.len()]));
            }
        }
    }
    crate::wire::lemma_fields_round_trip(a + b);
    lemma_fold_any_app(z, a, b);
    lemma_fold_any_str(z, 1, e.type_url);
    let m1 = spec_fold_any(z, a)->Some_0;
    lemma_fold_any_str(m1, 2, e.value);
    assert(spec_fold_any(m1, b) == Some(e)) by {
        if e.value.len() == 0 {
            assert(m1 =~= e);
        }
    }
}

/// The envelope round-trip law: packing a command and decoding the wire
/// bytes recovers the same envelope; probing it with the command's own
/// type recovers the command; probing it with any other type is a tag
/// mismatch, never an error.
pub proof fn lemma_envelope_round_trip(c: SpecCommand, t: MessageType)
    requires
        spec_wf(c),
        spec_body(c).len() <= u64::MAX,
    ensures
        spec_dec_any(spec_enc_any(spec_pack(c))) == Some(spec_pack(c)),
        t == spec_msg_type(c) ==> spec_dec_command(t, spec_pack(c).value) == Some(c),
        t != spec_msg_type(c) ==> spec_pack(c).type_url != spec_tag(t),
{
    crate::tags::lemma_tag_fits(spec_msg_type(c));
    lemma_any_round_trip(spec_pack(c));
    if t == spec_msg_type(c) {
        crate::decode::lemma_command_round_trip(c);
    } else {
        lemma_tags_distinct(t, spec_msg_type(c));
    }
}

} // verus!
