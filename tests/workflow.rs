use nordigen2fireflyiii::link::{authorization_url, status_error};
use nordigen2fireflyiii::model::{Bank, LinkedAccount, Profile, Requisition, WorkflowError};
use nordigen2fireflyiii::requisition::{ensure_requisition, RequisitionPlan, APP_REFERENCE, REDIRECT_URL};
use nordigen2fireflyiii::selection::{bank_listing, choose_bank};
use nordigen2fireflyiii::workflow::{AccountLinking, Action, Event, Phase};

fn bank(id: &str, name: &str) -> Bank {
    Bank {
        identifier: id.to_string(),
        display_name: name.to_string(),
        bank_identifier_code: format!("{}XXX", id),
    }
}

fn three_banks() -> Vec<Bank> {
    vec![bank("ALPHA", "Alpha Bank"), bank("BETA", "Beta Bank"), bank("GAMMA", "Gamma Bank")]
}

fn profile_with_token() -> Profile {
    let mut p = Profile::new();
    p.set_token("tok-1\n");
    p
}

fn is_v4_hyphenated(s: &str) -> bool {
    let c: Vec<char> = s.chars().collect();
    if c.len() != 36 {
        return false;
    }
    for (i, ch) in c.iter().enumerate() {
        let ok = if i == 8 || i == 13 || i == 18 || i == 23 {
            *ch == '-'
        } else {
            ch.is_ascii_digit() || ('a'..='f').contains(ch)
        };
        if !ok {
            return false;
        }
    }
    c[14] == '4' && "89ab".contains(c[19])
}

#[test]
fn set_token_trims_pasted_input() {
    let mut p = Profile::new();
    p.set_token("abc123\n");
    assert_eq!(p.api_token.as_deref(), Some("abc123"));
    p.set_token("  abc123 \r\n");
    assert_eq!(p.api_token.as_deref(), Some("abc123"));
    assert!(p.client_identifier.is_none());
}

#[test]
fn new_profile_is_empty() {
    let p = Profile::default();
    assert!(p.api_token.is_none());
    assert!(p.client_identifier.is_none());
    assert!(p.accounts.is_empty());
}

#[test]
fn record_requisition_keeps_first() {
    let mut p = profile_with_token();
    p.record_requisition("req-1".to_string());
    p.record_requisition("req-2".to_string());
    assert_eq!(p.client_identifier.as_deref(), Some("req-1"));
}

#[test]
fn link_account_appends() {
    let mut p = Profile::new();
    p.link_account(LinkedAccount { display_name: "Main".to_string(), identifier: "a1".to_string() });
    p.link_account(LinkedAccount { display_name: "Savings".to_string(), identifier: "a2".to_string() });
    assert_eq!(p.accounts.len(), 2);
    assert_eq!(p.accounts[1].identifier, "a2");
}

#[test]
fn listing_numbers_banks_in_order() {
    let lines = bank_listing(&three_banks());
    assert_eq!(lines, vec![" 1 - Alpha Bank", " 2 - Beta Bank", " 3 - Gamma Bank"]);
    let many: Vec<Bank> = (0..10).map(|i| bank(&format!("B{}", i), &format!("Bank {}", i))).collect();
    let lines = bank_listing(&many);
    assert_eq!(lines[9], "10 - Bank 9");
    assert!(bank_listing(&Vec::new()).is_empty());
}

#[test]
fn selection_resolves_position_in_order() {
    let banks = three_banks();
    for i in 1..=3usize {
        let idx = choose_bank(&banks, &format!("{}\n", i)).unwrap();
        assert_eq!(idx, i - 1);
    }
    assert_eq!(banks[choose_bank(&banks, " 2 ").unwrap()].identifier, "BETA");
    assert_eq!(choose_bank(&banks, "+3"), Ok(2));
}

#[test]
fn selection_boundaries_rejected() {
    let banks = three_banks();
    for input in ["0", "-1", "abc", "4", "", "2.0", "1 2"] {
        assert_eq!(choose_bank(&banks, input), Err(WorkflowError::ValidationError), "{}", input);
    }
}

#[test]
fn missing_token_aborts_before_any_request() {
    let mut run = AccountLinking::new("PT".to_string(), Profile::new());
    let action = run.step(Event::Begin);
    assert!(matches!(action, Action::Abort(WorkflowError::ConfigError)));
    assert_eq!(run.phase, Phase::Failed);
}

#[test]
fn empty_bank_list_rejects_selection() {
    let mut run = AccountLinking::new("PT".to_string(), profile_with_token());
    match run.step(Event::Begin) {
        Action::FetchBanks { country, token } => {
            assert_eq!(country, "PT");
            assert_eq!(token, "tok-1");
        }
        _ => panic!("expected a bank request"),
    }
    match run.step(Event::BanksListed(Vec::new())) {
        Action::AskSelection { lines } => assert!(lines.is_empty()),
        _ => panic!("expected a prompt"),
    }
    let action = run.step(Event::SelectionEntered("1\n".to_string()));
    assert!(matches!(action, Action::Abort(WorkflowError::ValidationError)));
    assert_eq!(run.phase, Phase::Failed);
}

#[test]
fn invalid_selection_makes_no_request() {
    for input in ["0", "-1", "x", "4"] {
        let mut run = AccountLinking::new("PT".to_string(), profile_with_token());
        run.step(Event::Begin);
        run.step(Event::BanksListed(three_banks()));
        let action = run.step(Event::SelectionEntered(input.to_string()));
        assert!(matches!(action, Action::Abort(WorkflowError::ValidationError)));
    }
}

#[test]
fn first_link_creates_and_saves_requisition_before_link() {
    let mut run = AccountLinking::new("PT".to_string(), profile_with_token());
    run.step(Event::Begin);
    run.step(Event::BanksListed(three_banks()));
    match run.step(Event::SelectionEntered("2\n".to_string())) {
        Action::CreateRequisition { payload, token } => {
            assert!(is_v4_hyphenated(&payload.enduser_id), "{}", payload.enduser_id);
            assert_eq!(payload.reference, "nordigen2fireflyiii");
            assert_eq!(payload.redirect, REDIRECT_URL);
            assert!(payload.agreements.is_empty());
            assert_eq!(token, "tok-1");
        }
        _ => panic!("expected a requisition to be created"),
    }
    let req = Requisition {
        identifier: "req-42".to_string(),
        account_identifiers: Vec::new(),
        status: "CR".to_string(),
    };
    assert!(matches!(run.step(Event::RequisitionCreated(req)), Action::SaveProfile));
    assert_eq!(run.profile.client_identifier.as_deref(), Some("req-42"));
    match run.step(Event::ProfileSaved) {
        Action::ResolveLink { requisition_id, bank_id, token } => {
            assert_eq!(requisition_id, "req-42");
            assert_eq!(bank_id, "BETA");
            assert_eq!(token, "tok-1");
        }
        _ => panic!("expected a link request"),
    }
    let fields = vec![
        ("id".to_string(), "x".to_string()),
        ("initiate".to_string(), "https://bank.example/auth".to_string()),
    ];
    match run.step(Event::LinkReceived(fields)) {
        Action::ShowLink { url } => assert_eq!(url, "https://bank.example/auth"),
        _ => panic!("expected the link"),
    }
    assert_eq!(run.phase, Phase::Finished);
}

#[test]
fn requisition_on_record_is_reused() {
    let mut p = profile_with_token();
    p.record_requisition("req-7".to_string());
    for _ in 0..2 {
        match ensure_requisition(&p) {
            RequisitionPlan::Reuse(id) => assert_eq!(id, "req-7"),
            RequisitionPlan::Create(_) => panic!("a second requisition was planned"),
        }
    }
    let mut run = AccountLinking::new("PT".to_string(), p);
    run.step(Event::Begin);
    run.step(Event::BanksListed(three_banks()));
    match run.step(Event::SelectionEntered("1".to_string())) {
        Action::ResolveLink { requisition_id, bank_id, .. } => {
            assert_eq!(requisition_id, "req-7");
            assert_eq!(bank_id, "ALPHA");
        }
        _ => panic!("expected a link request"),
    }
}

#[test]
fn create_then_reuse_after_recording() {
    let mut p = profile_with_token();
    let first = ensure_requisition(&p);
    assert!(matches!(first, RequisitionPlan::Create(_)));
    p.record_requisition("req-9".to_string());
    assert!(matches!(ensure_requisition(&p), RequisitionPlan::Reuse(ref id) if id == "req-9"));
    assert_eq!(APP_REFERENCE, "nordigen2fireflyiii");
}

#[test]
fn fresh_identifiers_differ() {
    let p = profile_with_token();
    let a = match ensure_requisition(&p) {
        RequisitionPlan::Create(payload) => payload.enduser_id,
        _ => panic!(),
    };
    let b = match ensure_requisition(&p) {
        RequisitionPlan::Create(payload) => payload.enduser_id,
        _ => panic!(),
    };
    assert!(is_v4_hyphenated(&a) && is_v4_hyphenated(&b));
    assert_ne!(a, b);
}

#[test]
fn missing_initiate_field_is_reported() {
    let fields = vec![("link".to_string(), "https://x".to_string())];
    assert_eq!(authorization_url(&fields), Err(WorkflowError::MissingFieldError));
    assert_eq!(authorization_url(&Vec::new()), Err(WorkflowError::MissingFieldError));
    let dup = vec![
        ("initiate".to_string(), "first".to_string()),
        ("initiate".to_string(), "second".to_string()),
    ];
    assert_eq!(authorization_url(&dup), Ok("first".to_string()));
}

#[test]
fn link_response_without_url_aborts() {
    let mut p = profile_with_token();
    p.record_requisition("req-1".to_string());
    let mut run = AccountLinking::new("PT".to_string(), p);
    run.step(Event::Begin);
    run.step(Event::BanksListed(three_banks()));
    run.step(Event::SelectionEntered("3".to_string()));
    let action = run.step(Event::LinkReceived(Vec::new()));
    assert!(matches!(action, Action::Abort(WorkflowError::MissingFieldError)));
    assert_eq!(run.phase, Phase::Failed);
}

#[test]
fn status_codes_are_classified() {
    assert_eq!(status_error(200), None);
    assert_eq!(status_error(201), None);
    assert_eq!(status_error(401), Some(WorkflowError::AuthError));
    assert_eq!(status_error(403), Some(WorkflowError::AuthError));
    assert_eq!(status_error(404), Some(WorkflowError::NetworkError));
    assert_eq!(status_error(500), Some(WorkflowError::NetworkError));
}

#[test]
fn failed_action_aborts_run() {
    let mut run = AccountLinking::new("PT".to_string(), profile_with_token());
    run.step(Event::Begin);
    assert!(run.accepts(&Event::BanksListed(Vec::new())));
    assert!(!run.accepts(&Event::ProfileSaved));
    let action = run.step(Event::Failed(WorkflowError::DecodeError));
    assert!(matches!(action, Action::Abort(WorkflowError::DecodeError)));
    assert!(!run.accepts(&Event::Failed(WorkflowError::NetworkError)));
}

#[test]
fn error_messages_are_short_text() {
    assert_eq!(WorkflowError::ValidationError.message(), "Invalid bank ID");
    assert!(!WorkflowError::ConfigError.message().is_empty());
}
