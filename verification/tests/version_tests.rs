use bragi::version::{
    parse_requirement, parse_version, Comparator, ComparatorOp, Version, VersionRequirement,
};

#[test]
fn parses_three_component_version() {
    assert_eq!(parse_version("7.10.2"), Some(Version::new(7, 10, 2)));
}

#[test]
fn missing_components_read_as_zero() {
    assert_eq!(parse_version("7.10"), Some(Version::new(7, 10, 0)));
    assert_eq!(parse_version("7"), Some(Version::new(7, 0, 0)));
    assert_eq!(parse_version("0"), Some(Version::new(0, 0, 0)));
}

#[test]
fn malformed_version_texts_are_rejected() {
    assert_eq!(parse_version(""), None);
    assert_eq!(parse_version("7."), None);
    assert_eq!(parse_version(".7"), None);
    assert_eq!(parse_version("7..2"), None);
    assert_eq!(parse_version("7.10.2.4"), None);
    assert_eq!(parse_version("7.x"), None);
    assert_eq!(parse_version(" 7.10"), None);
    assert_eq!(parse_version("7.10 "), None);
    assert_eq!(parse_version("-7"), None);
}

#[test]
fn component_length_is_capped_at_nineteen_digits() {
    assert_eq!(
        parse_version("9999999999999999999"),
        Some(Version::new(9_999_999_999_999_999_999, 0, 0))
    );
    assert_eq!(parse_version("99999999999999999999"), None);
}

#[test]
fn comparator_operators_behave_each_their_own_way() {
    let v7 = Version::new(7, 10, 2);
    let ge = Comparator { op: ComparatorOp::GreaterEq, version: Version::new(7, 10, 2) };
    let gt = Comparator { op: ComparatorOp::Greater, version: Version::new(7, 10, 2) };
    let le = Comparator { op: ComparatorOp::LessEq, version: Version::new(7, 10, 2) };
    let lt = Comparator { op: ComparatorOp::Less, version: Version::new(7, 10, 2) };
    let eq = Comparator { op: ComparatorOp::Exact, version: Version::new(7, 10, 2) };
    assert!(ge.holds_for(&v7));
    assert!(!gt.holds_for(&v7));
    assert!(le.holds_for(&v7));
    assert!(!lt.holds_for(&v7));
    assert!(eq.holds_for(&v7));

    let v8 = Version::new(8, 0, 0);
    assert!(ge.holds_for(&v8));
    assert!(gt.holds_for(&v8));
    assert!(!le.holds_for(&v8));
    assert!(!lt.holds_for(&v8));
    assert!(!eq.holds_for(&v8));
}

#[test]
fn requirement_is_the_conjunction_of_its_comparators() {
    let req = VersionRequirement {
        comparators: vec![
            Comparator { op: ComparatorOp::GreaterEq, version: Version::new(7, 0, 0) },
            Comparator { op: ComparatorOp::Less, version: Version::new(8, 0, 0) },
        ],
    };
    assert!(req.matches(&Version::new(7, 10, 2)));
    assert!(req.matches(&Version::new(7, 0, 0)));
    assert!(!req.matches(&Version::new(8, 0, 0)));
    assert!(!req.matches(&Version::new(6, 9, 9)));
}

#[test]
fn empty_requirement_accepts_everything() {
    let req = VersionRequirement { comparators: Vec::new() };
    assert!(req.matches(&Version::new(0, 0, 1)));
    assert!(req.matches(&Version::new(99, 0, 0)));
}

#[test]
fn parses_requirement_with_two_comparators() {
    let req = parse_requirement(">=7.0, <8.0").expect("well-formed requirement");
    assert_eq!(
        req.comparators,
        vec![
            Comparator { op: ComparatorOp::GreaterEq, version: Version::new(7, 0, 0) },
            Comparator { op: ComparatorOp::Less, version: Version::new(8, 0, 0) },
        ]
    );
}

#[test]
fn parses_each_operator() {
    let req = parse_requirement(">7,>=7,<8,<=8,=7.10.2").expect("well-formed requirement");
    assert_eq!(
        req.comparators,
        vec![
            Comparator { op: ComparatorOp::Greater, version: Version::new(7, 0, 0) },
            Comparator { op: ComparatorOp::GreaterEq, version: Version::new(7, 0, 0) },
            Comparator { op: ComparatorOp::Less, version: Version::new(8, 0, 0) },
            Comparator { op: ComparatorOp::LessEq, version: Version::new(8, 0, 0) },
            Comparator { op: ComparatorOp::Exact, version: Version::new(7, 10, 2) },
        ]
    );
}

#[test]
fn requirement_allows_spaces_around_comparators() {
    let req = parse_requirement("  >=7.13.0  ").expect("well-formed requirement");
    assert_eq!(
        req.comparators,
        vec![Comparator { op: ComparatorOp::GreaterEq, version: Version::new(7, 13, 0) }]
    );
}

#[test]
fn malformed_requirement_texts_are_rejected() {
    assert_eq!(parse_requirement(""), None);
    assert_eq!(parse_requirement("   "), None);
    assert_eq!(parse_requirement("7.0"), None);
    assert_eq!(parse_requirement(">="), None);
    assert_eq!(parse_requirement(">=7.0,"), None);
    assert_eq!(parse_requirement(">= 7.0"), None);
    assert_eq!(parse_requirement(">=7.0 <8.0"), None);
    assert_eq!(parse_requirement("~7.0"), None);
}
