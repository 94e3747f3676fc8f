use route53_util::change::{
    parse_change_action, parse_record_type, ChangeAction, ChangeRequest, RecordType, RequestError,
    UpdateRecordParams,
};

fn params() -> UpdateRecordParams {
    UpdateRecordParams {
        hosted_zone_id: "Z123".to_string(),
        dns_name: "www.example.com.".to_string(),
        record_type: "A".to_string(),
        action: "UPSERT".to_string(),
        value: vec!["1.2.3.4".to_string()],
        ttl: 300,
        comment: None,
        no_wait: false,
        sleep_time: 5,
        max_wait: 120,
    }
}

#[test]
fn valid_params_build_a_request() {
    let request = ChangeRequest::from_params(params()).expect("valid parameters");
    assert_eq!(request.hosted_zone_id, "Z123");
    assert_eq!(request.dns_name, "www.example.com.");
    assert_eq!(request.record_type, RecordType::A);
    assert_eq!(request.action, ChangeAction::Upsert);
    assert_eq!(request.values, vec!["1.2.3.4".to_string()]);
    assert_eq!(request.ttl, 300);
    assert_eq!(request.comment, None);
}

#[test]
fn comment_is_kept() {
    let mut p = params();
    p.comment = Some("rotating web frontends".to_string());
    let request = ChangeRequest::from_params(p).expect("valid parameters");
    assert_eq!(request.comment, Some("rotating web frontends".to_string()));
}

#[test]
fn empty_zone_rejected() {
    let mut p = params();
    p.hosted_zone_id = String::new();
    assert!(matches!(
        ChangeRequest::from_params(p),
        Err(RequestError::EmptyZoneId)
    ));
}

#[test]
fn empty_name_rejected() {
    let mut p = params();
    p.dns_name = String::new();
    assert!(matches!(
        ChangeRequest::from_params(p),
        Err(RequestError::EmptyDnsName)
    ));
}

#[test]
fn empty_values_rejected() {
    let mut p = params();
    p.value = Vec::new();
    assert!(matches!(
        ChangeRequest::from_params(p),
        Err(RequestError::EmptyValues)
    ));
}

#[test]
fn negative_ttl_rejected() {
    let mut p = params();
    p.ttl = -1;
    assert!(matches!(
        ChangeRequest::from_params(p),
        Err(RequestError::NegativeTtl)
    ));
}

#[test]
fn zero_ttl_accepted() {
    let mut p = params();
    p.ttl = 0;
    assert!(ChangeRequest::from_params(p).is_ok());
}

#[test]
fn unknown_action_rejected() {
    let mut p = params();
    p.action = "PATCH".to_string();
    assert!(matches!(
        ChangeRequest::from_params(p),
        Err(RequestError::UnknownAction)
    ));
}

#[test]
fn unknown_record_type_rejected() {
    let mut p = params();
    p.record_type = "BOGUS".to_string();
    assert!(matches!(
        ChangeRequest::from_params(p),
        Err(RequestError::UnknownRecordType)
    ));
}

#[test]
fn action_words_parse() {
    assert_eq!(parse_change_action("CREATE"), Some(ChangeAction::Create));
    assert_eq!(parse_change_action("UPSERT"), Some(ChangeAction::Upsert));
    assert_eq!(parse_change_action("DELETE"), Some(ChangeAction::Delete));
    assert_eq!(parse_change_action("upsert"), None);
    assert_eq!(parse_change_action(""), None);
}

#[test]
fn action_names_round_trip() {
    for action in [
        ChangeAction::Create,
        ChangeAction::Upsert,
        ChangeAction::Delete,
    ] {
        assert_eq!(parse_change_action(&action.name()), Some(action));
    }
}

#[test]
fn record_type_words_parse() {
    assert_eq!(parse_record_type("A"), Some(RecordType::A));
    assert_eq!(parse_record_type("CNAME"), Some(RecordType::Cname));
    assert_eq!(parse_record_type("TXT"), Some(RecordType::Txt));
    assert_eq!(parse_record_type("a"), None);
    assert_eq!(parse_record_type(""), None);
}

#[test]
fn record_type_names_round_trip() {
    for record_type in [
        RecordType::A,
        RecordType::Aaaa,
        RecordType::Caa,
        RecordType::Cname,
        RecordType::Ds,
        RecordType::Https,
        RecordType::Mx,
        RecordType::Naptr,
        RecordType::Ns,
        RecordType::Ptr,
        RecordType::Soa,
        RecordType::Spf,
        RecordType::Srv,
        RecordType::Sshfp,
        RecordType::Svcb,
        RecordType::Tlsa,
        RecordType::Txt,
    ] {
        assert_eq!(parse_record_type(&record_type.name()), Some(record_type));
    }
}
