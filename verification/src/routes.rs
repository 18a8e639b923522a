//! The route table: which operation answers on which method and path.
use vstd::prelude::*;
use crate::paths;

verus! {

/// The HTTP methods the hub answers.
#[derive(Clone, Copy, PartialEq, Eq, Debug, Structural)]
pub enum Method {
    Get,
    Post,
}

/// The operations the hub serves.
#[derive(Clone, Copy, PartialEq, Eq, Debug, Structural)]
pub enum Endpoint {
    /// The discovery document.
    Discovery,
    /// The liveness probe.
    Healthz,
    /// The hub's public key.
    Keyring,
    /// The relay between two willing schemes.
    Relay,
    /// The verification of a relay under the hub's key.
    RelayVerify,
    /// The contract document (served, but not an operation of the contract).
    ContractYaml,
}

/// The path an operation is routed on.
pub open spec fn endpoint_path(e: Endpoint) -> &'static str {
    match e {
        Endpoint::Discovery => paths::ROOT,
        Endpoint::Healthz => paths::HEALTHZ,
        Endpoint::Keyring => paths::KEYRING,
        Endpoint::Relay => paths::RELAY,
        Endpoint::RelayVerify => paths::RELAY_VERIFY,
        Endpoint::ContractYaml => paths::CONTRACT_YAML,
    }
}

/// The method an operation answers.
pub open spec fn endpoint_method(e: Endpoint) -> Method {
    match e {
        Endpoint::Relay | Endpoint::RelayVerify => Method::Post,
        _ => Method::Get,
    }
}

/// Whether an operation belongs to the documented contract (all but the
/// contract document's own route).
pub open spec fn is_documented(e: Endpoint) -> bool {
    e != Endpoint::ContractYaml
}

/// The route table, in the order the router declares it.
pub open spec fn route_table() -> Seq<Endpoint> {
    seq![
        Endpoint::Discovery,
        Endpoint::Healthz,
        Endpoint::Keyring,
        Endpoint::Relay,
        Endpoint::RelayVerify,
        Endpoint::ContractYaml,
    ]
}

impl Endpoint {
    /// The path this operation is routed on (one of the `paths` constants).
    pub fn path(&self) -> (p: &'static str)
        ensures
            p == endpoint_path(*self),
    {
        match self {
            Endpoint::Discovery => paths::ROOT,
            Endpoint::Healthz => paths::HEALTHZ,
            Endpoint::Keyring => paths::KEYRING,
            Endpoint::Relay => paths::RELAY,
            Endpoint::RelayVerify => paths::RELAY_VERIFY,
            Endpoint::ContractYaml => paths::CONTRACT_YAML,
        }
    }

    /// The method this operation answers.
    pub fn method(&self) -> (m: Method)
        ensures
            m == endpoint_method(*self),
    {
        match self {
            Endpoint::Relay | Endpoint::RelayVerify => Method::Post,
            _ => Method::Get,
        }
    }

    /// Whether this operation belongs to the documented contract.
    pub fn documented(&self) -> (b: bool)
        ensures
            b == is_documented(*self),
    {
        match self {
            Endpoint::ContractYaml => false,
            _ => true,
        }
    }
}

/// The route table: every operation, each once, in router order.
pub fn routes() -> (table: Vec<Endpoint>)
    ensures
        table@ == route_table(),
{
    let table = vec![
        Endpoint::Discovery,
        Endpoint::Healthz,
        Endpoint::Keyring,
        Endpoint::Relay,
        Endpoint::RelayVerify,
        Endpoint::ContractYaml,
    ];
    assert(table@ =~= route_table());
    table
}

/// Every operation stands in the route table, and no two entries of the
/// table share a path: each path is routed once, to one operation.
pub proof fn lemma_routes_are_distinct()
    ensures
        forall|e: Endpoint| #[trigger] route_table().contains(e),
        forall|i: int, j: int|
            0 <= i < j < route_table().len() ==> endpoint_path(route_table()[i])@
                != endpoint_path(route_table()[j])@,
{
    let t = route_table();
    assert forall|e: Endpoint| #[trigger] t.contains(e) by {
        match e {
            Endpoint::Discovery => assert(t[0] == e),
            Endpoint::Healthz => assert(t[1] == e),
            Endpoint::Keyring => assert(t[2] == e),
            Endpoint::Relay => assert(t[3] == e),
            Endpoint::RelayVerify => assert(t[4] == e),
            Endpoint::ContractYaml => assert(t[5] == e),
        }
    }
    reveal_strlit("/");
    reveal_strlit("/healthz");
    reveal_strlit("/keyring");
    reveal_strlit("/relay");
    reveal_strlit("/relay/verify");
    reveal_strlit("/openapi.yaml");
    assert forall|i: int, j: int| 0 <= i < j < t.len() implies endpoint_path(t[i])@
        != endpoint_path(t[j])@ by {
        let a = endpoint_path(t[i])@;
        let b = endpoint_path(t[j])@;
        if a.len() == b.len() {
            assert(a[1] != b[1] || a[a.len() - 1] != b[b.len() - 1]);
        }
    }
}

/// Only the relay and its verification are answered on POST; every
/// other operation (the discovery document, the liveness probe, the
/// keyring, the contract document) is answered on GET. Every operation
/// but the contract document's own route is documented.
pub proof fn lemma_only_relay_operations_are_posts()
    ensures
        forall|e: Endpoint|
            (#[trigger] endpoint_method(e) == Method::Post) <==> (e == Endpoint::Relay || e
                == Endpoint::RelayVerify),
        forall|e: Endpoint|
            (#[trigger] endpoint_method(e) == Method::Get) <==> (e == Endpoint::Discovery || e
                == Endpoint::Healthz || e == Endpoint::Keyring || e == Endpoint::ContractYaml),
        forall|e: Endpoint| #[trigger] is_documented(e) <==> e != Endpoint::ContractYaml,
{
}

/// The paths each operation is routed on.
pub proof fn lemma_route_paths()
    ensures
        endpoint_path(Endpoint::Discovery)@ == seq!['/'],
        endpoint_path(Endpoint::Relay)@ == seq!['/', 'r', 'e', 'l', 'a', 'y'],
        endpoint_path(Endpoint::RelayVerify)@ == endpoint_path(Endpoint::Relay)@ + seq![
            '/',
            'v',
            'e',
            'r',
            'i',
            'f',
            'y',
        ],
        endpoint_path(Endpoint::Healthz)@ == seq!['/', 'h', 'e', 'a', 'l', 't', 'h', 'z'],
        endpoint_path(Endpoint::Keyring)@ == seq!['/', 'k', 'e', 'y', 'r', 'i', 'n', 'g'],
        endpoint_path(Endpoint::ContractYaml)@ == seq![
            '/',
            'o',
            'p',
            'e',
            'n',
            'a',
            'p',
            'i',
            '.',
            'y',
            'a',
            'm',
            'l',
        ],
{
    reveal_strlit("/");
    reveal_strlit("/healthz");
    reveal_strlit("/keyring");
    reveal_strlit("/relay");
    reveal_strlit("/relay/verify");
    reveal_strlit("/openapi.yaml");
    assert(endpoint_path(Endpoint::RelayVerify)@ =~= endpoint_path(Endpoint::Relay)@ + seq![
        '/',
        'v',
        'e',
        'r',
        'i',
        'f',
        'y',
    ]);
}

} // verus!
