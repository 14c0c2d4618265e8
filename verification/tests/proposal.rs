use crowdfund::Proposal;
use crowdfund::ProposalError;

/// 10^24 of the smallest currency unit: one whole token.
const YOCTO: u128 = 1_000_000_000_000_000_000_000_000;

fn yocto(n: u128) -> u128 {
    n * YOCTO
}

#[test]
fn test_initialize() {
    let mut proposal = Proposal::new();
    let res = proposal.initialize(String::from("proposal"));
    assert!(res.is_ok());
}

#[test]
fn test_factory() {
    let mut proposal = Proposal::new();
    let res = proposal.initialize(String::from("root"));
    assert!(res.is_ok());
    assert!(proposal.get_factory().eq("root"));
}

#[test]
fn test_add_supporter() {
    let mut proposal = Proposal::new();
    proposal.initialize(String::from("root")).unwrap();
    proposal
        .configure(
            &String::from("root"),
            String::from("some proposal"),
            String::from("really tho"),
            yocto(10),
            yocto(3),
        )
        .unwrap();
    proposal
        .add_supporter(&String::from("root"), yocto(5))
        .unwrap();
    let added = proposal.add_supporter(&String::from("root"), yocto(6));
    assert!(added.is_ok());
    let total = proposal.get_funding_total();
    assert_eq!(total, yocto(11));
}

#[test]
fn uninitialized_rejects_mutating_calls() {
    let mut proposal = Proposal::new();
    let configure = proposal.configure(
        &String::from("root"),
        String::from("t"),
        String::from("d"),
        10,
        3,
    );
    assert_eq!(configure, Err(ProposalError::NotAuthorized));
    let add = proposal.add_supporter(&String::from("alice"), 5);
    assert_eq!(add, Err(ProposalError::NotConfigured));
    assert_eq!(proposal.get_funding_total(), 0);
    assert!(!proposal.is_configured());
}

#[test]
fn initialize_succeeds_exactly_once() {
    let mut proposal = Proposal::new();
    assert!(proposal.initialize(String::from("root")).is_ok());
    let again = proposal.initialize(String::from("root"));
    assert_eq!(again, Err(ProposalError::AlreadyInitialized));
    let other = proposal.initialize(String::from("someone_else"));
    assert_eq!(other, Err(ProposalError::AlreadyInitialized));
    assert!(proposal.get_factory().eq("root"));
}

#[test]
fn configure_requires_factory() {
    let mut proposal = Proposal::new();
    proposal.initialize(String::from("root")).unwrap();
    let res = proposal.configure(
        &String::from("eve"),
        String::from("t"),
        String::from("d"),
        10,
        3,
    );
    assert_eq!(res, Err(ProposalError::NotAuthorized));
    assert!(!proposal.is_configured());
}

#[test]
fn configure_rejects_invalid_terms() {
    let mut proposal = Proposal::new();
    proposal.initialize(String::from("root")).unwrap();
    let zero_goal = proposal.configure(
        &String::from("root"),
        String::from("t"),
        String::from("d"),
        0,
        1,
    );
    assert_eq!(zero_goal, Err(ProposalError::InvalidTerms));
    let deposit_over_goal = proposal.configure(
        &String::from("root"),
        String::from("t"),
        String::from("d"),
        5,
        6,
    );
    assert_eq!(deposit_over_goal, Err(ProposalError::InvalidTerms));
    let zero_deposit = proposal.configure(
        &String::from("root"),
        String::from("t"),
        String::from("d"),
        5,
        0,
    );
    assert_eq!(zero_deposit, Err(ProposalError::InvalidTerms));
    assert!(!proposal.is_configured());
}

#[test]
fn configure_succeeds_exactly_once() {
    let mut proposal = Proposal::new();
    proposal.initialize(String::from("root")).unwrap();
    let first = proposal.configure(
        &String::from("root"),
        String::from("t"),
        String::from("d"),
        10,
        3,
    );
    assert_eq!(first, Ok(()));
    assert!(proposal.is_configured());
    let second = proposal.configure(
        &String::from("root"),
        String::from("t2"),
        String::from("d2"),
        20,
        4,
    );
    assert_eq!(second, Err(ProposalError::AlreadyConfigured));
}

#[test]
fn add_supporter_before_configure_fails() {
    let mut proposal = Proposal::new();
    proposal.initialize(String::from("root")).unwrap();
    let res = proposal.add_supporter(&String::from("alice"), 100);
    assert_eq!(res, Err(ProposalError::NotConfigured));
    assert_eq!(proposal.get_funding_total(), 0);
}

#[test]
fn add_supporter_enforces_min_deposit() {
    let mut proposal = Proposal::new();
    proposal.initialize(String::from("root")).unwrap();
    proposal
        .configure(
            &String::from("root"),
            String::from("t"),
            String::from("d"),
            100,
            10,
        )
        .unwrap();
    let too_small = proposal.add_supporter(&String::from("alice"), 9);
    assert_eq!(too_small, Err(ProposalError::DepositTooSmall));
    assert_eq!(proposal.get_funding_total(), 0);
    assert_eq!(proposal.get_supporter(&String::from("alice")), None);
    let enough = proposal.add_supporter(&String::from("alice"), 10);
    assert_eq!(enough, Ok(()));
    assert_eq!(proposal.get_funding_total(), 10);
}

#[test]
fn funding_total_is_sum_of_accepted_amounts() {
    let mut proposal = Proposal::new();
    proposal.initialize(String::from("root")).unwrap();
    proposal
        .configure(
            &String::from("root"),
            String::from("t"),
            String::from("d"),
            1000,
            5,
        )
        .unwrap();
    let deposits: [(&str, u128); 5] = [
        ("alice", 7),
        ("bob", 5),
        ("alice", 11),
        ("carol", 30),
        ("bob", 6),
    ];
    let mut expected: u128 = 0;
    for (who, amount) in deposits {
        proposal
            .add_supporter(&String::from(who), amount)
            .unwrap();
        expected += amount;
        assert_eq!(proposal.get_funding_total(), expected);
    }
    assert_eq!(proposal.get_funding_total(), 59);
    assert_eq!(proposal.get_supporter(&String::from("alice")), Some(18));
    assert_eq!(proposal.get_supporter(&String::from("bob")), Some(11));
    assert_eq!(proposal.get_supporter(&String::from("carol")), Some(30));
    assert_eq!(proposal.supporter_count(), 3);
}

#[test]
fn scenario_build_a_well() {
    let mut proposal = Proposal::new();
    proposal.initialize(String::from("root")).unwrap();
    proposal
        .configure(
            &String::from("root"),
            String::from("Build a well"),
            String::from("for a village"),
            yocto(10),
            yocto(3),
        )
        .unwrap();
    proposal
        .add_supporter(&String::from("alice"), yocto(5))
        .unwrap();
    proposal
        .add_supporter(&String::from("bob"), yocto(6))
        .unwrap();
    assert_eq!(proposal.get_funding_total(), yocto(11));
    assert!(proposal.get_factory().eq("root"));
}

#[test]
fn two_supporters_have_separate_entries() {
    let mut proposal = Proposal::new();
    proposal.initialize(String::from("root")).unwrap();
    proposal
        .configure(
            &String::from("root"),
            String::from("t"),
            String::from("d"),
            yocto(10),
            yocto(3),
        )
        .unwrap();
    proposal
        .add_supporter(&String::from("alice"), yocto(3))
        .unwrap();
    proposal
        .add_supporter(&String::from("bob"), yocto(3))
        .unwrap();
    assert_eq!(proposal.supporter_count(), 2);
    assert_eq!(
        proposal.get_supporter(&String::from("alice")),
        Some(yocto(3))
    );
    assert_eq!(proposal.get_supporter(&String::from("bob")), Some(yocto(3)));
    assert_eq!(proposal.get_supporter(&String::from("carol")), None);
}

#[test]
fn to_string_renders_terms_and_totals() {
    let mut proposal = Proposal::new();
    assert_eq!(
        proposal.toString(),
        "Proposal { title: , description: , goal: 0, min_deposit: 0, \
         funding_total: 0, configured: false }"
    );
    proposal.initialize(String::from("root")).unwrap();
    proposal
        .configure(
            &String::from("root"),
            String::from("Build a well"),
            String::from("for a village"),
            107,
            3,
        )
        .unwrap();
    proposal.add_supporter(&String::from("alice"), 42).unwrap();
    assert_eq!(
        proposal.toString(),
        "Proposal { title: Build a well, description: for a village, goal: 107, \
         min_deposit: 3, funding_total: 42, configured: true }"
    );
}
