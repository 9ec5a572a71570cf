use rust_decimal::Decimal;
use stake_ledger::amount::{Amount, LEDGER_BALANCE_SCALE};
use stake_ledger::error::LedgerError;
use stake_ledger::ledger::{Ledger, LedgerAccount, ProposalVersion, VotedSet};

fn decimal(amount: Amount) -> Decimal {
    Decimal::from_i128_with_scale(amount.mantissa, amount.scale)
}

fn account(pk: &str, balance: &str, delegate: Option<&str>) -> LedgerAccount {
    LedgerAccount::new(pk.to_string(), balance.to_string(), delegate.map(|d| d.to_string()))
}

fn get_accounts() -> (LedgerAccount, LedgerAccount, LedgerAccount, LedgerAccount, LedgerAccount) {
    (
        LedgerAccount::new("A".to_string(), "1".to_string(), None),
        LedgerAccount::new("B".to_string(), "1".to_string(), None),
        LedgerAccount::new("C".to_string(), "1".to_string(), Some("A".to_string())),
        LedgerAccount::new("D".to_string(), "1".to_string(), Some("A".to_string())),
        LedgerAccount::new("E".to_string(), "1".to_string(), Some("B".to_string())),
    )
}

fn get_votes() -> VotedSet {
    let mut voted = VotedSet::new();
    voted.insert("B".to_string());
    voted.insert("C".to_string());
    voted
}

fn voted_of(keys: &[&str]) -> VotedSet {
    let mut voted = VotedSet::new();
    for key in keys {
        voted.insert(key.to_string());
    }
    voted
}

#[test]
fn test_stake_weight_v1() {
    let (a, b, c, d, _) = get_accounts();
    let map = get_votes();

    // No account found - throw err.
    let error = Ledger::get_stake_weight(
        &Ledger(vec![a.clone(), b.clone(), c.clone(), d.clone()]),
        &map,
        &ProposalVersion::V1,
        "E",
    );
    assert!(error.is_err());

    // Delegated stake away - returns 0.000000000.
    let d_weight = Ledger::get_stake_weight(
        &Ledger(vec![a.clone(), b.clone(), c.clone(), d.clone()]),
        &map,
        &ProposalVersion::V1,
        "D",
    );
    assert_eq!(decimal(d_weight.unwrap()), Decimal::new(0, LEDGER_BALANCE_SCALE));

    // No delegators & delegated to self - returns balance.
    let b_weight = Ledger::get_stake_weight(
        &Ledger(vec![a.clone(), b.clone(), c.clone(), d.clone()]),
        &map,
        &ProposalVersion::V1,
        "B",
    );

    assert_eq!(decimal(b_weight.unwrap()), Decimal::new(1000000000, LEDGER_BALANCE_SCALE));

    // Delegated to self & has delegators - returns balance + delegators.
    let a_weight = Ledger::get_stake_weight(
        &Ledger(vec![a.clone(), b.clone(), c.clone(), d.clone()]),
        &map,
        &ProposalVersion::V1,
        "A",
    );
    assert_eq!(decimal(a_weight.unwrap()), Decimal::new(3000000000, LEDGER_BALANCE_SCALE));
}

#[test]
fn test_stake_weight_v2() {
    let (a, b, c, d, e) = get_accounts();
    let map = get_votes();

    // No account found - throw err.
    let error = Ledger::get_stake_weight(
        &Ledger(vec![a.clone(), b.clone(), c.clone(), d.clone(), e.clone()]),
        &map,
        &ProposalVersion::V2,
        "F",
    );
    assert!(error.is_err());

    let a_weight = Ledger::get_stake_weight(
        &Ledger(vec![a.clone(), b.clone(), c.clone(), d.clone(), e.clone()]),
        &map,
        &ProposalVersion::V2,
        "A",
    );
    assert_eq!(decimal(a_weight.unwrap()), Decimal::new(2000000000, LEDGER_BALANCE_SCALE));

    let b_weight = Ledger::get_stake_weight(
        &Ledger(vec![a.clone(), b.clone(), c.clone(), d.clone(), e.clone()]),
        &map,
        &ProposalVersion::V2,
        "B",
    );

    assert_eq!(decimal(b_weight.unwrap()), Decimal::new(2000000000, LEDGER_BALANCE_SCALE));
}

#[test]
fn unknown_key_is_account_not_found_under_both_versions() {
    let (a, b, c, d, e) = get_accounts();
    let ledger = Ledger(vec![a, b, c, d, e]);
    let voted = get_votes();
    assert_eq!(
        ledger.get_stake_weight(&voted, &ProposalVersion::V1, "Z"),
        Err(LedgerError::AccountNotFound)
    );
    assert_eq!(
        ledger.get_stake_weight(&voted, &ProposalVersion::V2, "Z"),
        Err(LedgerError::AccountNotFound)
    );
    assert_eq!(ledger.get_stake_weight_mep(&voted, "Z"), Err(LedgerError::AccountNotFound));
    assert_eq!(
        ledger.checked_stake_weight(&voted, &ProposalVersion::V1, "Z"),
        Some(Err(LedgerError::AccountNotFound))
    );
    assert_eq!(
        Ledger(vec![]).get_stake_weight(&voted, &ProposalVersion::V2, "A"),
        Err(LedgerError::AccountNotFound)
    );
}

#[test]
fn v1_delegated_away_is_zero_at_balance_scale() {
    let (a, b, c, d, _) = get_accounts();
    let ledger = Ledger(vec![a, b, c, d]);
    let weight = ledger.get_stake_weight(&VotedSet::new(), &ProposalVersion::V1, "D").unwrap();
    assert_eq!(weight, Amount { mantissa: 0, scale: 9 });
    assert_eq!(weight, Amount::zero());
}

#[test]
fn v1_without_delegators_is_the_parsed_balance() {
    let ledger = Ledger(vec![
        account("A", "12.345678901", None),
        account("B", "7.000000001", Some("B")),
        account("C", "3", Some("A")),
    ]);
    let weight = ledger.get_stake_weight(&VotedSet::new(), &ProposalVersion::V1, "B").unwrap();
    assert_eq!(weight, Amount { mantissa: 7000000001, scale: 9 });
}

#[test]
fn v1_counts_delegators_that_voted() {
    let ledger = Ledger(vec![
        account("A", "1.500000000", None),
        account("B", "2.250000000", Some("A")),
        account("C", "0.250000000", Some("A")),
        account("D", "100", Some("C")),
    ]);
    let nobody = VotedSet::new();
    let both = voted_of(&["B", "C"]);
    let expected = Amount { mantissa: 4000000000, scale: 9 };
    assert_eq!(ledger.get_stake_weight(&nobody, &ProposalVersion::V1, "A"), Ok(expected));
    assert_eq!(ledger.get_stake_weight(&both, &ProposalVersion::V1, "A"), Ok(expected));
}

#[test]
fn v2_leaves_out_delegators_that_voted() {
    let ledger = Ledger(vec![
        account("A", "1.500000000", None),
        account("B", "2.250000000", Some("A")),
        account("C", "0.250000000", Some("A")),
    ]);
    let version = ProposalVersion::V2;
    assert_eq!(
        ledger.get_stake_weight(&voted_of(&[]), &version, "A"),
        Ok(Amount { mantissa: 4000000000, scale: 9 })
    );
    assert_eq!(
        ledger.get_stake_weight(&voted_of(&["B"]), &version, "A"),
        Ok(Amount { mantissa: 1750000000, scale: 9 })
    );
    assert_eq!(
        ledger.get_stake_weight(&voted_of(&["C"]), &version, "A"),
        Ok(Amount { mantissa: 3750000000, scale: 9 })
    );
    assert_eq!(
        ledger.get_stake_weight(&voted_of(&["B", "C"]), &version, "A"),
        Ok(Amount { mantissa: 1500000000, scale: 9 })
    );
    // The account's own vote does not take its own balance away.
    assert_eq!(
        ledger.get_stake_weight(&voted_of(&["A", "B", "C"]), &version, "A"),
        Ok(Amount { mantissa: 1500000000, scale: 9 })
    );
}

#[test]
fn v2_does_not_gate_on_own_delegation() {
    let ledger = Ledger(vec![
        account("A", "1.000000000", None),
        account("D", "2.000000000", Some("A")),
        account("E", "4.000000000", Some("D")),
    ]);
    let nobody = VotedSet::new();
    assert_eq!(
        ledger.get_stake_weight(&nobody, &ProposalVersion::V1, "D"),
        Ok(Amount { mantissa: 0, scale: 9 })
    );
    assert_eq!(
        ledger.get_stake_weight(&nobody, &ProposalVersion::V2, "D"),
        Ok(Amount { mantissa: 6000000000, scale: 9 })
    );
}

#[test]
fn mep_weight_is_the_v1_weight_whoever_voted() {
    let (a, b, c, d, e) = get_accounts();
    let ledger = Ledger(vec![a, b, c, d, e]);
    let voted = get_votes();
    let nobody = VotedSet::new();
    for pk in ["A", "B", "C", "D", "E"] {
        let v1 = ledger.get_stake_weight(&nobody, &ProposalVersion::V1, pk);
        assert_eq!(ledger.get_stake_weight_mep(&voted, pk), v1);
        assert_eq!(ledger.get_stake_weight_mep(&nobody, pk), v1);
        assert_eq!(ledger.checked_stake_weight_mep(&voted, pk), Some(v1));
    }
    assert_eq!(decimal(ledger.get_stake_weight_mep(&voted, "A").unwrap()), Decimal::new(3, 0));
    assert_eq!(decimal(ledger.get_stake_weight_mep(&voted, "D").unwrap()), Decimal::new(0, 9));
}

#[test]
fn unparseable_balance_counts_as_zero() {
    let ledger = Ledger(vec![
        account("A", "not a number", None),
        account("B", "", Some("A")),
        account("C", "2.5", Some("A")),
    ]);
    let nobody = VotedSet::new();
    assert_eq!(
        decimal(ledger.get_stake_weight(&nobody, &ProposalVersion::V1, "A").unwrap()),
        Decimal::new(25, 1)
    );
    let alone = Ledger(vec![account("A", "1,5", None)]);
    assert_eq!(
        alone.get_stake_weight(&nobody, &ProposalVersion::V1, "A"),
        Ok(Amount { mantissa: 0, scale: 9 })
    );
}

#[test]
fn first_account_with_the_key_is_weighed() {
    let ledger = Ledger(vec![
        account("A", "1.000000000", None),
        account("A", "5.000000000", None),
    ]);
    assert_eq!(ledger.find_account("A"), Some(0));
    assert_eq!(ledger.find_account("B"), None);
    assert_eq!(
        ledger.get_stake_weight(&VotedSet::new(), &ProposalVersion::V2, "A"),
        Ok(Amount { mantissa: 1000000000, scale: 9 })
    );
}

#[test]
fn effective_delegate_defaults_to_own_key() {
    assert!(account("A", "1", None).delegates_to("A"));
    assert!(account("A", "1", Some("A")).delegates_to("A"));
    assert!(!account("A", "1", Some("B")).delegates_to("A"));
    assert!(account("A", "1", Some("B")).delegates_to("B"));
    assert!(!account("A", "1", None).delegates_to("B"));
}

#[test]
fn parse_balance_reads_mantissa_and_scale() {
    assert_eq!(Amount::parse_balance("1.500000000"), Amount { mantissa: 1500000000, scale: 9 });
    assert_eq!(Amount::parse_balance("1"), Amount { mantissa: 1, scale: 0 });
    assert_eq!(Amount::parse_balance("-0.25"), Amount { mantissa: -25, scale: 2 });
    assert_eq!(Amount::parse_balance("x"), Amount { mantissa: 0, scale: 9 });
    assert_eq!(Amount::from_parsed(None), Amount { mantissa: 0, scale: LEDGER_BALANCE_SCALE });
    assert_eq!(Amount::from_parsed(Some((42, 3))), Amount { mantissa: 42, scale: 3 });
}

#[test]
fn checked_add_adds_decimals() {
    let a = Amount { mantissa: 1500000000, scale: 9 };
    let b = Amount { mantissa: 2250000000, scale: 9 };
    assert_eq!(a.checked_add(b), Some(Amount { mantissa: 3750000000, scale: 9 }));
    let c = Amount { mantissa: 25, scale: 1 };
    assert_eq!(decimal(a.checked_add(c).unwrap()), Decimal::new(4, 0));
    assert_eq!(a.checked_add(c), Some(Amount { mantissa: 4000000000, scale: 9 }));
}

#[test]
fn sums_that_overflow_are_reported() {
    let max = "79228162514264337593543950335";
    let big = Amount::parse_balance(max);
    assert_eq!(big, Amount { mantissa: 79228162514264337593543950335, scale: 0 });
    assert_eq!(big.checked_add(Amount { mantissa: 1, scale: 0 }), None);
    assert_eq!(Amount { mantissa: 1, scale: 29 }.checked_add(Amount::zero()), None);

    let ledger = Ledger(vec![account("A", max, None), account("B", "1", Some("A"))]);
    let nobody = VotedSet::new();
    assert!(!ledger.stake_weight_fits(&nobody, &ProposalVersion::V1, "A"));
    assert_eq!(ledger.checked_stake_weight(&nobody, &ProposalVersion::V1, "A"), None);
    assert_eq!(ledger.checked_stake_weight_mep(&nobody, "A"), None);
    // With B's vote counted, nothing is added any more.
    let voted = voted_of(&["B"]);
    assert!(ledger.stake_weight_fits(&voted, &ProposalVersion::V2, "A"));
    assert_eq!(ledger.checked_stake_weight(&voted, &ProposalVersion::V2, "A"), Some(Ok(big)));
}

#[test]
fn voted_set_holds_what_was_inserted() {
    let mut voted = VotedSet::new();
    assert!(!voted.contains("A"));
    voted.insert("A".to_string());
    assert!(voted.contains("A"));
    assert!(!voted.contains("B"));
}

#[test]
fn delegators_are_told_apart_by_version() {
    let (a, b, c, d, e) = get_accounts();
    let ledger = Ledger(vec![a, b, c, d, e]);
    let voted = get_votes();
    let v1: Vec<bool> =
        (0..5).map(|i| ledger.is_delegator_at(i, &voted, &ProposalVersion::V1, "A")).collect();
    assert_eq!(v1, vec![false, false, true, true, false]);
    let v2: Vec<bool> =
        (0..5).map(|i| ledger.is_delegator_at(i, &voted, &ProposalVersion::V2, "A")).collect();
    assert_eq!(v2, vec![false, false, false, true, false]);
    let of_b: Vec<bool> =
        (0..5).map(|i| ledger.is_delegator_at(i, &voted, &ProposalVersion::V2, "B")).collect();
    assert_eq!(of_b, vec![false, false, false, false, true]);
}
