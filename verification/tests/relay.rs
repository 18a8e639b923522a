//! The relay's and the verification's answers.

use unidpp_hub::{read_evidence, relay_reply, verify_reply, Field, Reply};

#[test]
fn evidence_is_trimmed_then_decoded() {
    let evidence = read_evidence("  deadbeef01\n").expect("hex evidence");
    assert_eq!(evidence.hex, "deadbeef01");
    assert_eq!(evidence.bytes, vec![0xde, 0xad, 0xbe, 0xef, 0x01]);
}

#[test]
fn evidence_that_is_not_hex_is_answered_400() {
    let reply = read_evidence("abc").unwrap_err();
    assert_eq!(reply.status(), 400);
    match reply {
        Reply::BadRequest { error } => assert_eq!(error, "`evidence_hex`: not hex (odd length)"),
        other => panic!("unexpected {other:?}"),
    }
    let reply = read_evidence("zz").unwrap_err();
    match reply {
        Reply::BadRequest { error } => assert_eq!(error, "`evidence_hex`: not hex"),
        other => panic!("unexpected {other:?}"),
    }
}

#[test]
fn a_relayed_evidence_is_answered_200_with_the_text_echoed() {
    let evidence = read_evidence(" 00 ").unwrap();
    let reply = relay_reply(evidence, Ok(()));
    assert_eq!(reply.status(), 200);
    assert!(!reply.refused());
    match reply {
        Reply::Relayed { evidence_hex } => assert_eq!(evidence_hex, "00"),
        other => panic!("unexpected {other:?}"),
    }
}

#[test]
fn a_refusal_is_answered_422_with_the_reason() {
    let evidence = read_evidence("00").unwrap();
    let reason = "cn-scheme declines battery.dynamic-state (WILL gap)".to_string();
    let reply = relay_reply(evidence, Err(reason.clone()));
    assert_eq!(reply.status(), 422);
    assert!(reply.refused());
    match reply {
        Reply::Refused { error } => assert_eq!(error, reason),
        other => panic!("unexpected {other:?}"),
    }
}

#[test]
fn both_verification_outcomes_are_answered_200() {
    let verified = verify_reply(&[0xab, 0x01], Ok(()));
    assert_eq!(verified.status(), 200);
    match verified {
        Reply::Verified { evidence_digest_hex } => assert_eq!(evidence_digest_hex, "ab01"),
        other => panic!("unexpected {other:?}"),
    }
    let failed = verify_reply(&[0xab], Err("signature does not verify".into()));
    assert_eq!(failed.status(), 200);
    assert!(!failed.refused());
    match failed {
        Reply::NotVerified { error } => assert_eq!(error, "signature does not verify"),
        other => panic!("unexpected {other:?}"),
    }
}

fn keys(reply: &Reply) -> Vec<&'static str> {
    reply.body().into_iter().map(|(k, _)| k).collect()
}

#[test]
fn answer_bodies_carry_the_contracted_keys() {
    let refused = relay_reply(read_evidence("00").unwrap(), Err("no interop declaration".into()));
    assert_eq!(keys(&refused), vec!["error", "refused"]);
    assert!(matches!(refused.body()[1].1, Field::Flag(true)));

    let relayed = relay_reply(read_evidence("deadbeef01").unwrap(), Ok(()));
    assert_eq!(keys(&relayed), vec!["relay", "evidence_hex"]);
    assert!(matches!(relayed.body()[0].1, Field::SignedRelay));
    match &relayed.body()[1].1 {
        Field::Text(text) => assert_eq!(text, "deadbeef01"),
        other => panic!("unexpected {other:?}"),
    }

    let verified = verify_reply(&[1], Ok(()));
    assert_eq!(keys(&verified), vec!["verified", "evidence_digest"]);
    assert!(matches!(verified.body()[0].1, Field::Flag(true)));

    let tampered = verify_reply(&[1], Err("bad signature".into()));
    assert_eq!(keys(&tampered), vec!["verified", "error"]);
    assert!(matches!(tampered.body()[0].1, Field::Flag(false)));

    let bad = read_evidence("0x").unwrap_err();
    assert_eq!(keys(&bad), vec!["error"]);
}

#[test]
fn rendered_evidence_is_read_back() {
    let bytes: Vec<u8> = vec![0, 1, 0x7f, 0x80, 0xfe, 0xff];
    let evidence = read_evidence(&unidpp_hub::hex(&bytes)).expect("rendered hex reads back");
    assert_eq!(evidence.bytes, bytes);
    assert_eq!(evidence.hex, "00017f80feff");
}
