use forged_flash::version::{Precedence, Version};

#[test]
fn parse_reads_every_part() {
    let v = Version::parse("1.20.300-alpha.1+build.5").unwrap();
    assert_eq!(v.major(), 1);
    assert_eq!(v.minor(), 20);
    assert_eq!(v.patch(), 300);
    assert_eq!(v.pre(), "alpha.1");
    assert_eq!(v.build(), "build.5");
    assert_eq!(v.text(), "1.20.300-alpha.1+build.5");
}

#[test]
fn parse_of_a_release_has_empty_identifiers() {
    let v = Version::parse("0.0.7").unwrap();
    assert_eq!((v.major(), v.minor(), v.patch()), (0, 0, 7));
    assert_eq!(v.pre(), "");
    assert_eq!(v.build(), "");
}

#[test]
fn parse_refuses_what_is_no_version() {
    for text in ["", "1", "1.0", "01.0.0", "1.0.0-", "1.0.0+", "1.0.0-alpha_1", "x.y.z"] {
        let failure = Version::parse(text).unwrap_err();
        assert!(!failure.reason.is_empty(), "no reason for {text:?}");
    }
    assert!(Version::parse("23456789999999999999.0.0").is_err());
}

#[test]
fn compare_follows_the_numbers() {
    let low = Version::parse("1.5.0").unwrap();
    let high = Version::parse("1.19.0").unwrap();
    assert_eq!(low.compare(&high), Precedence::Lower);
    assert_eq!(high.compare(&low), Precedence::Higher);
    assert_eq!(low.compare(&low), Precedence::Same);
}

#[test]
fn compare_orders_pre_releases() {
    let chain = [
        "1.0.0-alpha",
        "1.0.0-alpha.1",
        "1.0.0-alpha.beta",
        "1.0.0-beta",
        "1.0.0-beta.2",
        "1.0.0-beta.11",
        "1.0.0-rc.1",
        "1.0.0",
    ];
    for i in 0..chain.len() {
        for j in 0..chain.len() {
            let a = Version::parse(chain[i]).unwrap();
            let b = Version::parse(chain[j]).unwrap();
            let expected = if i < j {
                Precedence::Lower
            } else if i == j {
                Precedence::Same
            } else {
                Precedence::Higher
            };
            assert_eq!(a.compare(&b), expected, "{} against {}", chain[i], chain[j]);
        }
    }
}

#[test]
fn same_agrees_with_compare() {
    let texts = ["1.0.0", "1.0.0-rc.1", "1.0.0+a", "1.0.0+b", "2.0.0"];
    for a in texts {
        for b in texts {
            let x = Version::parse(a).unwrap();
            let y = Version::parse(b).unwrap();
            assert_eq!(x.same(&y), a == b);
            assert_eq!(x.compare(&y) == Precedence::Same, a == b);
        }
    }
}

#[test]
fn duplicate_keeps_the_version() {
    let v = Version::parse("3.1.4-pre+meta").unwrap();
    let copy = v.duplicate();
    assert!(v.same(&copy));
    assert_eq!(copy.text(), "3.1.4-pre+meta");
    assert_eq!(copy.compare(&v), Precedence::Same);
}
