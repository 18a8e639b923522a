//! The documents the hub serves: the discovery document (service
//! identity, hub id, endpoint map and contract statements) and the
//! keyring.
use vstd::prelude::*;
use crate::config::{spec_keyring_mode, Config};
use crate::hex::{hex, spec_hex};
use crate::routes::{endpoint_method, endpoint_path, is_documented, Endpoint, Method};

verus! {

/// The service's name.
pub const SERVICE: &'static str = "unidpp-hub";

/// The service's one-line description.
pub const DESCRIPTION: &'static str = "UniDPP translation hub: a stateless signed relay between willing pairs divided by protocols (the SI-3 hub contract)";

/// What follows `GET /keyring` in the endpoint map.
pub const KEYRING_NOTE: &'static str = " — the hub's public key (relay signatures verify under it)";

/// What follows `POST /relay` in the endpoint map.
pub const RELAY_NOTE: &'static str = " {from, to, data_class, evidence_hex, declarations: [..]} — both sides' published declarations ride the request; willingness is checked both ways, the forwarded bytes are signed in the HUB-RELAY domain, nothing is retained";

/// What follows `POST /relay/verify` in the endpoint map.
pub const RELAY_VERIFY_NOTE: &'static str = " {evidence_hex, relay: {..}} — verify a relay under this hub's key";

/// The contract statement on statelessness.
pub const STATELESS: &'static str = "stateless: no storage, no journals, no posture state — the caller carries the declarations";

/// The contract statement on willingness.
pub const WILLINGNESS: &'static str = "willingness both ways: a scheme that declines interop is never brokered around (the WILL gap is not the hub's to bridge)";

/// The contract statement on signatures.
pub const SIGNED: &'static str = "signed: every relay is signed in the HUB-RELAY domain over the forwarded bytes plus the relay metadata";

/// The contract statement on masters.
pub const NO_MASTER: &'static str = "no master: a pair that speaks directly has no need of the hub; no message of the protocol names one";

/// The suite of the relay role's key.
pub const RELAY_SUITE: &'static str = "ed25519";

/// The word that names a method.
pub open spec fn method_word(m: Method) -> Seq<char> {
    match m {
        Method::Get => "GET"@,
        Method::Post => "POST"@,
    }
}

/// How an operation is named: its method, a space, its path.
pub open spec fn operation_text(e: Endpoint) -> Seq<char> {
    method_word(endpoint_method(e)) + seq![' '] + endpoint_path(e)@
}

/// A text that names the operation: it starts with the operation's name,
/// which ends there or is followed by a space.
pub open spec fn names_operation(text: Seq<char>, e: Endpoint) -> bool {
    let op = operation_text(e);
    &&& op.len() <= text.len()
    &&& text.subrange(0, op.len() as int) == op
    &&& (text.len() == op.len() || text[op.len() as int] == ' ')
}

/// A text that names some documented operation of the contract.
pub open spec fn names_documented_operation(text: Seq<char>) -> bool {
    exists|e: Endpoint| is_documented(e) && #[trigger] names_operation(text, e)
}

/// The endpoint map of the discovery document: name and description of
/// each entry.
pub open spec fn discovery_endpoints() -> Seq<(Seq<char>, Seq<char>)> {
    seq![
        ("health"@, operation_text(Endpoint::Healthz)),
        ("keyring"@, operation_text(Endpoint::Keyring) + KEYRING_NOTE@),
        ("relay"@, operation_text(Endpoint::Relay) + RELAY_NOTE@),
        ("relay_verify"@, operation_text(Endpoint::RelayVerify) + RELAY_VERIFY_NOTE@),
    ]
}

/// The contract statements of the discovery document.
pub open spec fn contract_statements() -> Seq<Seq<char>> {
    seq![STATELESS@, WILLINGNESS@, SIGNED@, NO_MASTER@]
}

/// One entry of the endpoint map.
#[derive(Debug, Clone)]
pub struct EndpointEntry {
    pub name: String,
    pub description: String,
}

/// The discovery document (the family convention).
#[derive(Debug, Clone)]
pub struct DiscoveryDocument {
    pub service: String,
    pub description: String,
    pub hub_id: String,
    pub endpoints: Vec<EndpointEntry>,
    pub contract: Vec<String>,
}

/// The keyring: the relay role's suite and public key, under which every
/// relay signature verifies, and the keyring mode.
#[derive(Debug, Clone)]
pub struct KeyringDocument {
    pub mode: String,
    pub relay_suite: String,
    pub relay_public_hex: String,
}

impl Method {
    /// The word that names this method.
    pub fn word(&self) -> (w: &'static str)
        ensures
            w@ == method_word(*self),
    {
        match self {
            Method::Get => "GET",
            Method::Post => "POST",
        }
    }
}

/// How an operation is named, followed by a note.
pub fn operation_summary(e: Endpoint, note: &str) -> (text: String)
    ensures
        text@ == operation_text(e) + note@,
{
    let mut text = e.method().word().to_owned();
    text.push(' ');
    text.push_str(e.path());
    text.push_str(note);
    text
}

fn entry(name: &str, description: String) -> (e: EndpointEntry)
    ensures
        e.name@ == name@,
        e.description == description,
{
    EndpointEntry { name: name.to_owned(), description }
}

/// The discovery document: service identity, hub id, endpoint map and
/// the contract statements.
pub fn discovery_document(config: &Config) -> (doc: DiscoveryDocument)
    ensures
        doc.service@ == SERVICE@,
        doc.description@ == DESCRIPTION@,
        doc.hub_id@ == config.hub_id@,
        doc.endpoints@.len() == discovery_endpoints().len(),
        forall|i: int|
            0 <= i < doc.endpoints@.len() ==> (#[trigger] doc.endpoints@[i].name@,
            doc.endpoints@[i].description@) == discovery_endpoints()[i],
        doc.contract@.len() == contract_statements().len(),
        forall|i: int| 0 <= i < doc.contract@.len() ==> #[trigger] doc.contract@[i]@
            == contract_statements()[i],
{
    let endpoints = vec![
        entry("health", operation_summary(Endpoint::Healthz, "")),
        entry("keyring", operation_summary(Endpoint::Keyring, KEYRING_NOTE)),
        entry("relay", operation_summary(Endpoint::Relay, RELAY_NOTE)),
        entry("relay_verify", operation_summary(Endpoint::RelayVerify, RELAY_VERIFY_NOTE)),
    ];
    let contract = vec![
        STATELESS.to_owned(),
        WILLINGNESS.to_owned(),
        SIGNED.to_owned(),
        NO_MASTER.to_owned(),
    ];
    proof {
        reveal_strlit("");
        assert(""@ =~= Seq::<char>::empty());
        assert(operation_text(Endpoint::Healthz) + ""@ =~= operation_text(Endpoint::Healthz));
    }
    DiscoveryDocument {
        service: SERVICE.to_owned(),
        description: DESCRIPTION.to_owned(),
        hub_id: config.hub_id.clone(),
        endpoints,
        contract,
    }
}

/// The keyring document for the hub's configuration and the relay key's
/// public bytes.
pub fn keyring_document(config: &Config, relay_public_key: &[u8]) -> (doc: KeyringDocument)
    ensures
        doc.mode@ == spec_keyring_mode(config.seed),
        doc.relay_suite@ == RELAY_SUITE@,
        doc.relay_public_hex@ == spec_hex(relay_public_key@),
{
    KeyringDocument {
        mode: config.keyring_mode().to_owned(),
        relay_suite: RELAY_SUITE.to_owned(),
        relay_public_hex: hex(relay_public_key),
    }
}

/// Every entry of the discovery document's endpoint map names a
/// documented operation of the contract, by its method and path.
pub proof fn lemma_discovery_names_only_contracted_operations()
    ensures
        forall|i: int|
            0 <= i < discovery_endpoints().len() ==> names_documented_operation(
                #[trigger] discovery_endpoints()[i].1,
            ),
{
    reveal_strlit("GET");
    reveal_strlit("POST");
    reveal_strlit(" — the hub's public key (relay signatures verify under it)");
    reveal_strlit(" {from, to, data_class, evidence_hex, declarations: [..]} — both sides' published declarations ride the request; willingness is checked both ways, the forwarded bytes are signed in the HUB-RELAY domain, nothing is retained");
    reveal_strlit(" {evidence_hex, relay: {..}} — verify a relay under this hub's key");
    let d = discovery_endpoints();
    let ops = seq![Endpoint::Healthz, Endpoint::Keyring, Endpoint::Relay, Endpoint::RelayVerify];
    let notes = seq![Seq::<char>::empty(), KEYRING_NOTE@, RELAY_NOTE@, RELAY_VERIFY_NOTE@];
    assert forall|i: int| 0 <= i < d.len() implies names_documented_operation(#[trigger] d[i].1) by {
        let e = ops[i];
        let op = operation_text(e);
        assert(d[i].1 =~= op + notes[i]);
        assert((op + notes[i]).subrange(0, op.len() as int) =~= op);
        assert(notes[i].len() == 0 || notes[i][0] == ' ');
        assert(is_documented(e) && names_operation(d[i].1, e));
    }
}

} // verus!
