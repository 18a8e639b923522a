//! The hub's contract as the library states it: routes by constant, the
//! discovery document, the keyring and the relay's answers.

use unidpp_hub::paths;
use unidpp_hub::routes::Method;
use unidpp_hub::{discovery_document, keyring_document, routes, Config, Endpoint};

fn test_config() -> Config {
    Config {
        bind: "127.0.0.1:0".into(),
        hub_id: "hub-test".into(),
        seed: Some("hub-test-seed".into()),
    }
}

const VERBS: [&str; 5] = ["get", "post", "put", "delete", "patch"];

/// The documented operations' paths, from the route table.
fn documented() -> Vec<String> {
    routes()
        .iter()
        .filter(|e| e.documented())
        .map(|e| e.path().to_string())
        .collect()
}

#[test]
fn routes_are_declared_by_constant_not_literal() {
    let constants = [
        paths::ROOT,
        paths::HEALTHZ,
        paths::KEYRING,
        paths::RELAY,
        paths::RELAY_VERIFY,
        paths::CONTRACT_YAML,
    ];
    let literal_routes = routes()
        .iter()
        .filter(|e| !constants.contains(&e.path()))
        .count();
    assert_eq!(
        literal_routes, 0,
        "route paths come from the paths:: constants"
    );
}

#[test]
fn discovery_names_only_contracted_endpoints() {
    let doc = discovery_document(&Config {
        bind: "127.0.0.1:0".into(),
        hub_id: "hub-test".into(),
        seed: Some("hub-test-seed".into()),
    });
    let mut discovery = String::new();
    discovery.push_str(&doc.service);
    discovery.push_str(&doc.description);
    discovery.push_str(&doc.hub_id);
    for entry in &doc.endpoints {
        discovery.push('"');
        discovery.push_str(&entry.name);
        discovery.push('"');
        discovery.push_str(&entry.description);
        discovery.push('"');
    }
    for statement in &doc.contract {
        discovery.push_str(statement);
        discovery.push('"');
    }
    let documented = documented();
    let mut named = 0;
    for verb in VERBS.map(str::to_uppercase) {
        let mut rest = discovery.as_str();
        while let Some(pos) = rest.find(&verb) {
            let after = &rest[pos + verb.len()..];
            rest = after;
            let Some(path) = after.strip_prefix(" /") else {
                continue;
            };
            let taken: String = path
                .chars()
                .take_while(|c| !matches!(c, ' ' | '"' | '{' | '<'))
                .collect();
            let path = taken.split('?').next().unwrap_or("").to_string();
            if path.is_empty() {
                continue;
            }
            named += 1;
            assert!(
                documented.contains(&format!("/{path}")),
                "discovery names `{verb} /{path}` — no such operation in the contract"
            );
        }
    }
    assert_eq!(named, 4);
}

#[test]
fn the_discovery_document_states_the_contract() {
    let doc = discovery_document(&test_config());
    assert_eq!(doc.service, "unidpp-hub");
    assert_eq!(doc.hub_id, "hub-test");
    assert!(
        doc.contract.len() >= 4,
        "stateless, willingness, signed, no-master — the contract is the discovery document's core"
    );
    assert!(doc.contract[0].starts_with("stateless:"));
    assert!(doc.contract[1].starts_with("willingness both ways:"));
    assert!(doc.contract[2].starts_with("signed:"));
    assert!(doc.contract[3].starts_with("no master:"));
}

#[test]
fn discovery_endpoint_map_is_exact() {
    let doc = discovery_document(&test_config());
    let names: Vec<&str> = doc.endpoints.iter().map(|e| e.name.as_str()).collect();
    assert_eq!(names, vec!["health", "keyring", "relay", "relay_verify"]);
    assert_eq!(doc.endpoints[0].description, "GET /healthz");
    assert_eq!(
        doc.endpoints[1].description,
        "GET /keyring — the hub's public key (relay signatures verify under it)"
    );
    assert_eq!(
        doc.endpoints[2].description,
        "POST /relay {from, to, data_class, evidence_hex, declarations: [..]} — both sides' \
         published declarations ride the request; willingness is checked both ways, the \
         forwarded bytes are signed in the HUB-RELAY domain, nothing is retained"
    );
    assert_eq!(
        doc.endpoints[3].description,
        "POST /relay/verify {evidence_hex, relay: {..}} — verify a relay under this hub's key"
    );
    assert_eq!(
        doc.description,
        "UniDPP translation hub: a stateless signed relay between willing pairs divided by \
         protocols (the SI-3 hub contract)"
    );
}

#[test]
fn every_route_has_its_own_path_and_method() {
    let table = routes();
    assert_eq!(table.len(), 6);
    for (i, a) in table.iter().enumerate() {
        for b in table.iter().skip(i + 1) {
            assert_ne!(a.path(), b.path());
        }
    }
    assert_eq!(Endpoint::Discovery.path(), "/");
    assert_eq!(Endpoint::RelayVerify.path(), "/relay/verify");
    assert_eq!(Endpoint::Relay.method(), Method::Post);
    assert_eq!(Endpoint::RelayVerify.method(), Method::Post);
    assert_eq!(Endpoint::Keyring.method(), Method::Get);
    assert!(!Endpoint::ContractYaml.documented());
    assert_eq!(documented().len(), 5);
}

#[test]
fn keyring_states_mode_suite_and_public_hex() {
    let declared = keyring_document(&test_config(), &[0xde, 0xad, 0x01]);
    assert_eq!(declared.mode, "declared-seed");
    assert_eq!(declared.relay_suite, "ed25519");
    assert_eq!(declared.relay_public_hex, "dead01");
    let dev = keyring_document(
        &Config {
            bind: "127.0.0.1:0".into(),
            hub_id: "hub-test".into(),
            seed: None,
        },
        &[],
    );
    assert_eq!(dev.mode, "seeded-dev");
    assert_eq!(dev.relay_public_hex, "");
}
