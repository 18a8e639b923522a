//! The decisions of the relay and of its verification: which evidence
//! goes to the hub, and what each outcome is answered.
use vstd::prelude::*;
use crate::hex::{
    decode_hex, hex, hex_error_message, lemma_decode_hex_inverts_hex, spec_decode_hex, spec_hex,
};
use crate::text::{is_white_space, spec_trim, trim, trim_end, trim_start};

verus! {

/// What a relay or relay-verification request is answered.
#[derive(Debug, Clone)]
pub enum Reply {
    /// The request's `evidence_hex` is not hex: nothing reaches the hub.
    BadRequest { error: String },
    /// The evidence is relayed; the trimmed evidence text is echoed.
    Relayed { evidence_hex: String },
    /// The relay is refused, for the reason the hub states.
    Refused { error: String },
    /// The relay verifies; the evidence digest is stated in hexadecimal.
    Verified { evidence_digest_hex: String },
    /// The relay does not verify, for the reason stated.
    NotVerified { error: String },
}

/// The HTTP status each answer carries.
pub open spec fn reply_status(r: Reply) -> u16 {
    match r {
        Reply::BadRequest { .. } => 400,
        Reply::Relayed { .. } => 200,
        Reply::Refused { .. } => 422,
        Reply::Verified { .. } => 200,
        Reply::NotVerified { .. } => 200,
    }
}

impl Reply {
    /// The HTTP status of this answer.
    pub fn status(&self) -> (code: u16)
        ensures
            code == reply_status(*self),
    {
        match self {
            Reply::BadRequest { .. } => 400,
            Reply::Relayed { .. } => 200,
            Reply::Refused { .. } => 422,
            Reply::Verified { .. } => 200,
            Reply::NotVerified { .. } => 200,
        }
    }

    /// The body of this answer: its keys, in order, and their values.
    pub fn body(&self) -> (fields: Vec<(&'static str, Field)>)
        ensures
            fields@ == reply_body(*self),
    {
        let fields = match self {
            Reply::BadRequest { error } => vec![("error", Field::Text(error.clone()))],
            Reply::Relayed { evidence_hex } => vec![
                ("relay", Field::SignedRelay),
                ("evidence_hex", Field::Text(evidence_hex.clone())),
            ],
            Reply::Refused { error } => vec![
                ("error", Field::Text(error.clone())),
                ("refused", Field::Flag(true)),
            ],
            Reply::Verified { evidence_digest_hex } => vec![
                ("verified", Field::Flag(true)),
                ("evidence_digest", Field::Text(evidence_digest_hex.clone())),
            ],
            Reply::NotVerified { error } => vec![
                ("verified", Field::Flag(false)),
                ("error", Field::Text(error.clone())),
            ],
        };
        assert(fields@ =~= reply_body(*self));
        fields
    }

    /// Whether this answer is a refusal of the relay.
    pub fn refused(&self) -> (b: bool)
        ensures
            b <==> *self is Refused,
    {
        match self {
            Reply::Refused { .. } => true,
            _ => false,
        }
    }
}

/// A value in the body of an answer.
#[derive(Debug, Clone)]
pub enum Field {
    /// A text.
    Text(String),
    /// A flag.
    Flag(bool),
    /// The signed relay the hub returned.
    SignedRelay,
}

/// The body of each answer: its keys, in order, and their values.
pub open spec fn reply_body(r: Reply) -> Seq<(&'static str, Field)> {
    match r {
        Reply::BadRequest { error } => seq![("error", Field::Text(error))],
        Reply::Relayed { evidence_hex } => seq![
            ("relay", Field::SignedRelay),
            ("evidence_hex", Field::Text(evidence_hex)),
        ],
        Reply::Refused { error } => seq![("error", Field::Text(error)), ("refused", Field::Flag(true))],
        Reply::Verified { evidence_digest_hex } => seq![
            ("verified", Field::Flag(true)),
            ("evidence_digest", Field::Text(evidence_digest_hex)),
        ],
        Reply::NotVerified { error } => seq![
            ("verified", Field::Flag(false)),
            ("error", Field::Text(error)),
        ],
    }
}

/// Evidence read from a request: its trimmed hexadecimal text and the
/// bytes it encodes.
#[derive(Debug, Clone)]
pub struct Evidence {
    pub hex: String,
    pub bytes: Vec<u8>,
}

/// The message a request whose evidence is not hex is answered with.
pub open spec fn bad_evidence_message(detail: Seq<char>) -> Seq<char> {
    "`evidence_hex`: "@ + detail
}

/// Reads the `evidence_hex` of a request: the text is trimmed of
/// surrounding whitespace and decoded; text that is not hex is answered
/// 400 with the reason, and never reaches the hub.
pub fn read_evidence(evidence_hex: &str) -> (res: Result<Evidence, Reply>)
    ensures
        match spec_decode_hex(vstd::utf8::encode_utf8(spec_trim(evidence_hex@))) {
            Ok(bytes) => res matches Ok(ev) && ev.hex@ == spec_trim(evidence_hex@) && ev.bytes@
                == bytes,
            Err(e) => res matches Err(Reply::BadRequest { error }) && error@ == bad_evidence_message(
                hex_error_message(e),
            ),
        },
{
    let trimmed = trim(evidence_hex);
    match decode_hex(trimmed.as_str()) {
        Ok(bytes) => Ok(Evidence { hex: trimmed, bytes }),
        Err(detail) => {
            let mut error = "`evidence_hex`: ".to_owned();
            error.push_str(detail.as_str());
            Err(Reply::BadRequest { error })
        },
    }
}

/// What a relay is answered, given the hub's outcome for the evidence:
/// a relayed evidence is answered 200 with the evidence text echoed; a
/// refusal is answered 422 with the hub's reason, unchanged.
pub fn relay_reply(evidence: Evidence, outcome: Result<(), String>) -> (reply: Reply)
    ensures
        match outcome {
            Ok(()) => reply == Reply::Relayed { evidence_hex: evidence.hex },
            Err(reason) => reply == Reply::Refused { error: reason },
        },
        reply_status(reply) == if outcome is Ok { 200u16 } else { 422u16 },
{
    match outcome {
        Ok(()) => Reply::Relayed { evidence_hex: evidence.hex },
        Err(reason) => Reply::Refused { error: reason },
    }
}

/// What a relay verification is answered, given the outcome of checking
/// the relay's signature: both outcomes are answered 200; a verified
/// relay states its evidence digest in hexadecimal, a failed one the
/// reason.
pub fn verify_reply(evidence_digest: &[u8], outcome: Result<(), String>) -> (reply: Reply)
    ensures
        match outcome {
            Ok(()) => reply matches Reply::Verified { evidence_digest_hex } && evidence_digest_hex@
                == spec_hex(evidence_digest@),
            Err(reason) => reply == Reply::NotVerified { error: reason },
        },
        reply_status(reply) == 200,
{
    match outcome {
        Ok(()) => Reply::Verified { evidence_digest_hex: hex(evidence_digest) },
        Err(reason) => Reply::NotVerified { error: reason },
    }
}

proof fn lemma_hex_has_no_white_space(bytes: Seq<u8>)
    ensures
        forall|k: int|
            0 <= k < spec_hex(bytes).len() ==> !is_white_space(#[trigger] spec_hex(bytes)[k]),
    decreases bytes.len(),
{
    if bytes.len() > 0 {
        lemma_hex_has_no_white_space(bytes.drop_last());
        let h = spec_hex(bytes);
        let p = spec_hex(bytes.drop_last());
        assert forall|k: int| 0 <= k < h.len() implies !is_white_space(#[trigger] h[k]) by {
            if k < p.len() {
                assert(h[k] == p[k]);
            }
        }
    }
}

/// Evidence the hub renders as hexadecimal is read back by the relay as
/// it was: the text is left as it is by the trim and decodes to the same
/// bytes.
pub proof fn lemma_rendered_evidence_is_read_back(bytes: Seq<u8>)
    ensures
        spec_trim(spec_hex(bytes)) == spec_hex(bytes),
        spec_decode_hex(vstd::utf8::encode_utf8(spec_trim(spec_hex(bytes)))) == Ok::<
            Seq<u8>,
            crate::hex::HexError,
        >(bytes),
{
    let h = spec_hex(bytes);
    lemma_hex_has_no_white_space(bytes);
    if h.len() > 0 {
        assert(!is_white_space(h[0]));
        assert(trim_start(h) == h);
        assert(!is_white_space(h.last()));
        assert(trim_end(h) == h);
    } else {
        assert(trim_start(h) == h);
        assert(trim_end(h) == h);
    }
    lemma_decode_hex_inverts_hex(bytes);
}

/// The status each answer carries: a relayed evidence and both outcomes
/// of a verification are 200, a refusal is 422, and evidence that is not
/// hex is 400.
pub proof fn lemma_reply_statuses()
    ensures
        forall|r: Reply|
            (#[trigger] reply_status(r) == 200) <==> (r is Relayed || r is Verified
                || r is NotVerified),
        forall|r: Reply| (#[trigger] reply_status(r) == 422) <==> r is Refused,
        forall|r: Reply| (#[trigger] reply_status(r) == 400) <==> r is BadRequest,
{
}

/// The body of each answer states what the answer carries: the error of a
/// bad request; the signed relay and the echoed evidence text of a relay;
/// the reason and `refused: true` of a refusal; `verified: true` and the
/// evidence digest of a verified relay; `verified: false` and the reason
/// of one that does not verify. Only a relayed evidence carries the
/// signed relay, and no body carries a key twice.
pub proof fn lemma_reply_bodies_carry_their_fields()
    ensures
        forall|e: String| #[trigger]
            reply_body(Reply::BadRequest { error: e }).contains(("error", Field::Text(e))),
        forall|h: String|
            #![trigger reply_body(Reply::Relayed { evidence_hex: h })]
            reply_body(Reply::Relayed { evidence_hex: h }).contains(("relay", Field::SignedRelay))
                && reply_body(Reply::Relayed { evidence_hex: h }).contains(
                ("evidence_hex", Field::Text(h)),
            ),
        forall|e: String|
            #![trigger reply_body(Reply::Refused { error: e })]
            reply_body(Reply::Refused { error: e }).contains(("error", Field::Text(e)))
                && reply_body(Reply::Refused { error: e }).contains(("refused", Field::Flag(true))),
        forall|d: String|
            #![trigger reply_body(Reply::Verified { evidence_digest_hex: d })]
            reply_body(Reply::Verified { evidence_digest_hex: d }).contains(
                ("verified", Field::Flag(true)),
            ) && reply_body(Reply::Verified { evidence_digest_hex: d }).contains(
                ("evidence_digest", Field::Text(d)),
            ),
        forall|e: String|
            #![trigger reply_body(Reply::NotVerified { error: e })]
            reply_body(Reply::NotVerified { error: e }).contains(("verified", Field::Flag(false)))
                && reply_body(Reply::NotVerified { error: e }).contains(("error", Field::Text(e))),
        forall|r: Reply, i: int|
            0 <= i < reply_body(r).len() && (#[trigger] reply_body(r)[i]).1 is SignedRelay ==> r is Relayed,
        forall|r: Reply, i: int, j: int|
            0 <= i < j < reply_body(r).len() ==> (#[trigger] reply_body(r)[i]).0@ != (
            #[trigger] reply_body(r)[j]).0@,
{
    assert forall|e: String| #[trigger]
        reply_body(Reply::BadRequest { error: e }).contains(("error", Field::Text(e))) by {
        assert(reply_body(Reply::BadRequest { error: e })[0] == ("error", Field::Text(e)));
    }
    assert forall|h: String|
        #![trigger reply_body(Reply::Relayed { evidence_hex: h })]
        reply_body(Reply::Relayed { evidence_hex: h }).contains(("relay", Field::SignedRelay))
            && reply_body(Reply::Relayed { evidence_hex: h }).contains(
            ("evidence_hex", Field::Text(h)),
        ) by {
        let b = reply_body(Reply::Relayed { evidence_hex: h });
        assert(b[0] == ("relay", Field::SignedRelay));
        assert(b[1] == ("evidence_hex", Field::Text(h)));
    }
    assert forall|e: String|
        #![trigger reply_body(Reply::Refused { error: e })]
        reply_body(Reply::Refused { error: e }).contains(("error", Field::Text(e)))
            && reply_body(Reply::Refused { error: e }).contains(("refused", Field::Flag(true))) by {
        let b = reply_body(Reply::Refused { error: e });
        assert(b[0] == ("error", Field::Text(e)));
        assert(b[1] == ("refused", Field::Flag(true)));
    }
    assert forall|d: String|
        #![trigger reply_body(Reply::Verified { evidence_digest_hex: d })]
        reply_body(Reply::Verified { evidence_digest_hex: d }).contains(
            ("verified", Field::Flag(true)),
        ) && reply_body(Reply::Verified { evidence_digest_hex: d }).contains(
            ("evidence_digest", Field::Text(d)),
        ) by {
        let b = reply_body(Reply::Verified { evidence_digest_hex: d });
        assert(b[0] == ("verified", Field::Flag(true)));
        assert(b[1] == ("evidence_digest", Field::Text(d)));
    }
    assert forall|e: String|
        #![trigger reply_body(Reply::NotVerified { error: e })]
        reply_body(Reply::NotVerified { error: e }).contains(("verified", Field::Flag(false)))
            && reply_body(Reply::NotVerified { error: e }).contains(("error", Field::Text(e))) by {
        let b = reply_body(Reply::NotVerified { error: e });
        assert(b[0] == ("verified", Field::Flag(false)));
        assert(b[1] == ("error", Field::Text(e)));
    }
    reveal_strlit("error");
    reveal_strlit("relay");
    reveal_strlit("evidence_hex");
    reveal_strlit("refused");
    reveal_strlit("verified");
    reveal_strlit("evidence_digest");
    assert forall|r: Reply, i: int, j: int|
        0 <= i < j < reply_body(r).len() implies (#[trigger] reply_body(r)[i]).0@ != (
        #[trigger] reply_body(r)[j]).0@ by {
        let a = reply_body(r)[i].0@;
        let b = reply_body(r)[j].0@;
        assert(a[0] != b[0] || a[1] != b[1] || a.len() != b.len());
    }
}

/// A refusal states the hub's reason: the message of evidence that is not
/// hex ends with the reason the decoding gave.
pub proof fn lemma_bad_evidence_message_states_the_reason(detail: Seq<char>)
    ensures
        bad_evidence_message(detail).len() >= detail.len(),
        bad_evidence_message(detail).subrange(
            bad_evidence_message(detail).len() - detail.len(),
            bad_evidence_message(detail).len() as int,
        ) == detail,
{
    let m = bad_evidence_message(detail);
    assert(m.subrange(m.len() - detail.len(), m.len() as int) =~= detail);
}

} // verus!
