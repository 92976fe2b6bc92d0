use tofnd::config::{
    is_behaviour, match_string_to_behaviour, parse_config, parse_port, parse_unsigned,
    parse_victim, KeygenBehaviour, SignBehaviour, DEFAULT_PORT,
};
use tofnd::error::TofndError;

#[test]
fn bad_mta_carries_victim() {
    assert_eq!(
        match_string_to_behaviour("R2BadMta", 3),
        SignBehaviour::R2BadMta { victim: 3 }
    );
}

#[test]
fn honest_has_no_victim() {
    assert_eq!(match_string_to_behaviour("Honest", 5), SignBehaviour::Honest);
}

#[test]
fn stage_deviations_ignore_victim() {
    assert_eq!(match_string_to_behaviour("R3BadProof", 2), SignBehaviour::R3BadProof);
    assert_eq!(match_string_to_behaviour("R4BadReveal", 2), SignBehaviour::R4BadReveal);
    assert_eq!(match_string_to_behaviour("R6BadProof", 2), SignBehaviour::R6BadProof);
    assert_eq!(match_string_to_behaviour("R7BadSigSummand", 2), SignBehaviour::R7BadSI);
}

#[test]
fn victim_deviations_carry_victim() {
    assert_eq!(
        match_string_to_behaviour("R1BadProof", 1),
        SignBehaviour::R1BadProof { victim: 1 }
    );
    assert_eq!(
        match_string_to_behaviour("R3FalseAccusationMtaWc", 4),
        SignBehaviour::R3FalseAccusationMtaWc { victim: 4 }
    );
    assert_eq!(
        match_string_to_behaviour("R6FalseAccusation", 0),
        SignBehaviour::R6FalseAccusation { victim: 0 }
    );
}

#[test]
fn unlisted_names_are_not_behaviours() {
    assert!(is_behaviour("R2BadMta"));
    assert!(!is_behaviour("R2BadMt"));
    assert!(!is_behaviour("honest"));
    assert!(!is_behaviour(""));
}

#[test]
fn config_defaults_to_honest_on_default_port() {
    assert_eq!(
        parse_config(None, None),
        Ok((DEFAULT_PORT, KeygenBehaviour::R1BadCommit, SignBehaviour::Honest))
    );
    assert_eq!(DEFAULT_PORT, 50051);
}

#[test]
fn config_maps_malicious_arguments() {
    assert_eq!(
        parse_config(Some("8080"), Some(("R2BadMta", "3"))),
        Ok((8080, KeygenBehaviour::R1BadCommit, SignBehaviour::R2BadMta { victim: 3 }))
    );
}

#[test]
fn config_rejects_unlisted_name() {
    assert_eq!(
        parse_config(None, Some(("R9Nothing", "3"))),
        Err(TofndError::Parse)
    );
}

#[test]
fn config_rejects_bad_port_and_victim() {
    assert_eq!(parse_config(Some("70000"), None), Err(TofndError::Parse));
    assert_eq!(
        parse_config(None, Some(("Honest", "-1"))),
        Err(TofndError::Parse)
    );
}

#[test]
fn port_parsing_follows_std() {
    assert_eq!(parse_port("50051"), Ok(50051));
    assert_eq!(parse_port("+80"), Ok(80));
    assert_eq!(parse_port("65535"), Ok(65535));
    assert_eq!(parse_port("65536"), Err(TofndError::Parse));
    assert_eq!(parse_port(""), Err(TofndError::Parse));
    assert_eq!(parse_port("+"), Err(TofndError::Parse));
    assert_eq!(parse_port("-1"), Err(TofndError::Parse));
    assert_eq!(parse_port("8a"), Err(TofndError::Parse));
    for s in ["0", "1", "443", "007", "+65535", "65536", "99999999999999999999", " 1"] {
        assert_eq!(parse_port(s).ok(), s.parse::<u16>().ok());
    }
}

#[test]
fn victim_parsing_follows_std() {
    assert_eq!(parse_victim("3"), Ok(3));
    assert_eq!(parse_victim("18446744073709551615"), Ok(18446744073709551615));
    assert_eq!(parse_victim("18446744073709551616"), Err(TofndError::Parse));
    assert_eq!(parse_unsigned(b"255", 255), Some(255));
    assert_eq!(parse_unsigned(b"256", 255), None);
}
