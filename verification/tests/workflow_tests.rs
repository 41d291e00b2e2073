use letsencrypt_inwx::config::{Account, Config, Options};
use letsencrypt_inwx::dns::{
    add_trailing_dot, check_txt_answers, poll_start, poll_step, remove_trailing_dot, CnameChase,
    PollStep, TxtAnswer,
};
use letsencrypt_inwx::inwx::InwxError;
use letsencrypt_inwx::orchestrator::{
    account_matches, AttemptOutcome, OrchestrationError, Orchestrator, StepOutcome,
};

fn account(name: &str, scopes: &[&str], ote: bool) -> Account {
    Account {
        username: name.to_owned(),
        password: "pw".to_owned(),
        domains: scopes.iter().map(|s| (*s).to_owned()).collect(),
        ote,
    }
}

#[test]
fn trailing_dot_is_added_once() {
    assert_eq!(add_trailing_dot("example.com"), "example.com.");
    assert_eq!(add_trailing_dot("example.com."), "example.com.");
    assert_eq!(add_trailing_dot(""), ".");
}

#[test]
fn trailing_dot_is_removed_once() {
    assert_eq!(remove_trailing_dot("example.com."), "example.com");
    assert_eq!(remove_trailing_dot("example.com"), "example.com");
    assert_eq!(remove_trailing_dot("."), "");
    assert_eq!(remove_trailing_dot(""), "");
}

#[test]
fn chase_without_alias_returns_the_input_unchanged() {
    let mut chase = CnameChase::new("a.example.com");
    assert!(chase.step(None));
    assert_eq!(chase.current, "a.example.com");
    assert_eq!(chase.hops, 0);
}

#[test]
fn chase_follows_a_chain_of_three_to_its_end() {
    let mut chase = CnameChase::new("a.example.com");
    assert!(!chase.step(Some("b.example.com".to_owned())));
    assert!(!chase.step(Some("c.example.com".to_owned())));
    assert!(!chase.step(Some("d.example.com".to_owned())));
    assert!(chase.step(None));
    assert_eq!(chase.current, "d.example.com");
    assert_eq!(chase.hops, 3);
}

#[test]
fn chase_truncates_at_ten_hops_without_an_error() {
    let mut chase = CnameChase::new("n0");
    let mut hop = 1;
    loop {
        let done = chase.step(Some(format!("n{}", hop)));
        if done {
            break;
        }
        hop += 1;
    }
    // The chain kept resolving, yet the chase stopped at the tenth hop.
    assert_eq!(hop, 10);
    assert_eq!(chase.current, "n10");
    assert_eq!(chase.hops, 10);
}

#[test]
fn backoff_doubles_from_five_seconds_until_the_ceiling() {
    let mut state = poll_start();
    let mut sleeps = Vec::new();
    loop {
        match poll_step(&mut state, false) {
            PollStep::Sleep(secs) => sleeps.push(secs),
            PollStep::Timeout => break,
            PollStep::Done => panic!("the record was never found"),
        }
    }
    assert_eq!(sleeps, vec![5, 10, 20, 40, 80, 160, 320]);
    // 5 + 10 + ... + 320 = 635 > 600: the next attempt is refused.
    assert_eq!(state.elapsed, 635);
}

#[test]
fn poll_stops_at_the_first_sighting() {
    let mut state = poll_start();
    assert!(matches!(poll_step(&mut state, true), PollStep::Done));
    assert_eq!(state.elapsed, 0);
}

#[test]
fn poll_sleeps_once_before_a_second_sighting() {
    let mut state = poll_start();
    assert!(matches!(poll_step(&mut state, false), PollStep::Sleep(5)));
    assert!(matches!(poll_step(&mut state, true), PollStep::Done));
}

#[test]
fn txt_answers_match_exactly() {
    let answers = vec![
        TxtAnswer { name: "other.example.com".to_owned(), values: vec!["token".to_owned()] },
        TxtAnswer {
            name: "x.example.com".to_owned(),
            values: vec!["first".to_owned(), "token".to_owned()],
        },
    ];
    assert!(check_txt_answers(&answers, "x.example.com", "token"));
    assert!(!check_txt_answers(&answers, "x.example.com", "absent"));
    assert!(!check_txt_answers(&answers, "y.example.com", "token"));
}

#[test]
fn txt_comparison_is_case_sensitive() {
    let answers = vec![TxtAnswer { name: "x".to_owned(), values: vec!["AbC".to_owned()] }];
    assert!(check_txt_answers(&answers, "x", "AbC"));
    assert!(!check_txt_answers(&answers, "x", "abc"));
}

#[test]
fn scope_matching_covers_equality_and_dot_suffix() {
    let acc = account("a", &["example.com"], false);
    assert!(account_matches(&acc, "example.com"));
    assert!(account_matches(&acc, "sub.example.com"));
    assert!(!account_matches(&acc, "badexample.com"));
    assert!(!account_matches(&acc, "example.org"));
}

#[test]
fn no_accounts_is_an_immediate_hard_error() {
    assert!(matches!(
        Orchestrator::new(Vec::new(), "example.com"),
        Err(OrchestrationError::NoAccounts)
    ));
}

#[test]
fn scoped_credential_excludes_the_rest() {
    // A carries a matching scope, B none: only A is a candidate, and A's
    // domain-not-found is terminal rather than a reason to try B.
    let accounts = vec![account("A", &["example.com"], false), account("B", &[], false)];
    let mut orch = Orchestrator::new(accounts, "sub.example.com").expect("candidates exist");
    assert_eq!(orch.current_index(), Some(0));
    let outcome = AttemptOutcome::Completed {
        op: Err(InwxError::DomainNotFound),
        close: Ok(()),
    };
    match orch.step(outcome) {
        StepOutcome::Fail(OrchestrationError::Operation(InwxError::DomainNotFound)) => {},
        other => panic!("expected a terminal domain-not-found, got {:?}", other),
    }
}

#[test]
fn unscoped_credentials_fall_back_in_order() {
    // Neither credential is scoped: A is tried, reports domain-not-found and
    // is closed; B is tried next and succeeds, so the run ends with B's
    // sandbox flag.
    let accounts = vec![account("A", &[], false), account("B", &[], true)];
    let mut orch = Orchestrator::new(accounts, "x.com").expect("candidates exist");
    assert_eq!(orch.current_index(), Some(0));
    let first = AttemptOutcome::Completed {
        op: Err(InwxError::DomainNotFound),
        close: Ok(()),
    };
    assert!(matches!(orch.step(first), StepOutcome::Continue));
    assert_eq!(orch.current_index(), Some(1));
    let second = AttemptOutcome::Completed { op: Ok(()), close: Ok(()) };
    match orch.step(second) {
        StepOutcome::Done(ote) => assert!(ote),
        other => panic!("expected success with the sandbox flag, got {:?}", other),
    }
}

#[test]
fn operation_error_stops_the_run() {
    let accounts = vec![account("A", &[], false), account("B", &[], false)];
    let mut orch = Orchestrator::new(accounts, "x.com").expect("candidates exist");
    let outcome = AttemptOutcome::Completed {
        op: Err(InwxError::RecordNotFound),
        close: Ok(()),
    };
    assert!(matches!(
        orch.step(outcome),
        StepOutcome::Fail(OrchestrationError::Operation(InwxError::RecordNotFound))
    ));
}

#[test]
fn operation_error_wins_over_close_error() {
    let accounts = vec![account("A", &[], false)];
    let mut orch = Orchestrator::new(accounts, "x.com").expect("candidates exist");
    let outcome = AttemptOutcome::Completed {
        op: Err(InwxError::RecordNotFound),
        close: Err(InwxError::DomainNotFound),
    };
    assert!(matches!(
        orch.step(outcome),
        StepOutcome::Fail(OrchestrationError::Operation(InwxError::RecordNotFound))
    ));
}

#[test]
fn close_failure_alone_is_a_hard_error() {
    let accounts = vec![account("A", &[], false), account("B", &[], false)];
    let mut orch = Orchestrator::new(accounts, "x.com").expect("candidates exist");
    let outcome = AttemptOutcome::Completed {
        op: Err(InwxError::DomainNotFound),
        close: Err(InwxError::RecordNotFound),
    };
    assert!(matches!(
        orch.step(outcome),
        StepOutcome::Fail(OrchestrationError::Operation(InwxError::RecordNotFound))
    ));
}

#[test]
fn login_failure_stops_the_run() {
    let accounts = vec![account("A", &[], false), account("B", &[], false)];
    let mut orch = Orchestrator::new(accounts, "x.com").expect("candidates exist");
    let outcome = AttemptOutcome::LoginFailed(InwxError::RpcError(
        letsencrypt_inwx::rpc::RpcError::InvalidResponse,
    ));
    assert!(matches!(
        orch.step(outcome),
        StepOutcome::Fail(OrchestrationError::Operation(InwxError::RpcError(_)))
    ));
}

#[test]
fn exhausting_all_candidates_is_domain_not_found() {
    let accounts = vec![account("A", &[], false), account("B", &[], false)];
    let mut orch = Orchestrator::new(accounts, "x.com").expect("candidates exist");
    let miss = AttemptOutcome::Completed { op: Err(InwxError::DomainNotFound), close: Ok(()) };
    assert!(matches!(orch.step(miss), StepOutcome::Continue));
    let miss = AttemptOutcome::Completed { op: Err(InwxError::DomainNotFound), close: Ok(()) };
    assert!(matches!(
        orch.step(miss),
        StepOutcome::Fail(OrchestrationError::Operation(InwxError::DomainNotFound))
    ));
}

#[test]
fn default_configuration_matches_the_documented_values() {
    let config = Config::default();
    assert!(config.accounts.is_empty());
    assert!(!config.options.no_dns_check);
    assert_eq!(config.options.wait_interval, 5);
    assert_eq!(config.options.dns_server, "8.8.8.8");
    let options = Options::default();
    assert_eq!(options.dns_server, "8.8.8.8");
}
