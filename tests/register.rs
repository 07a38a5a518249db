use std::str::FromStr;

use mips_parser::defs::register::{
    Register, RegisterName, RegisterParseError, RegisterPrefixedName,
};

#[test]
fn register_prefixed_name() {
    let valids = [
        ("s7", 's', 7),
        ("v1", 'v', 1),
        ("a3", 'a', 3),
        ("k0", 'k', 0),
        ("t9", 't', 9),
    ];
    for (s, prefix, index) in valids {
        assert_eq!(
            RegisterPrefixedName::try_from(s.chars().collect::<Vec<char>>().as_slice()),
            Ok(RegisterPrefixedName { prefix, index })
        );
    }
    let out_of_range = [("s8", 8), ("k2", 2), ("a4", 4), ("v2", 2)];
    for (s, idx) in out_of_range {
        assert_eq!(
            RegisterPrefixedName::try_from(s.chars().collect::<Vec<char>>().as_slice()),
            Err(RegisterParseError::OutOfRange(idx))
        );
    }
    let more_errs = ["s9", "r3", "g3", "s12"];
    for s in more_errs {
        assert!(
            RegisterPrefixedName::try_from(s.chars().collect::<Vec<char>>().as_slice()).is_err()
        )
    }
}

#[test]
fn prefixed_name() {
    let valids = [
        ("s7", 's', 7),
        ("v1", 'v', 1),
        ("a3", 'a', 3),
        ("k0", 'k', 0),
        ("t9", 't', 9),
    ];
    for (s, prefix, index) in valids {
        assert_eq!(
            RegisterPrefixedName::try_from(s.chars().collect::<Vec<char>>().as_slice()),
            Ok(RegisterPrefixedName { prefix, index })
        );
    }
    let out_of_range = [("s8", 8), ("k2", 2), ("a4", 4), ("v2", 2)];
    for (s, idx) in out_of_range {
        assert_eq!(
            RegisterPrefixedName::try_from(s.chars().collect::<Vec<char>>().as_slice()),
            Err(RegisterParseError::OutOfRange(idx))
        );
    }
    let more_errs = ["s9", "r3", "g3", "s12"];
    for s in more_errs {
        assert!(
            RegisterPrefixedName::try_from(s.chars().collect::<Vec<char>>().as_slice()).is_err()
        )
    }
}

#[test]
fn register_name() {
    let valids = [
        ("at", RegisterName::At),
        ("gp", RegisterName::Gp),
        ("sp", RegisterName::Sp),
        ("fp", RegisterName::Fp),
        ("ra", RegisterName::Ra),
    ];
    for (s, res) in valids {
        assert_eq!(RegisterName::from_str(s), Ok(res))
    }
    let errs = ["At", "aT", "re", "FP"];
    for s in errs {
        assert!(RegisterName::from_str(s).is_err())
    }
}

#[test]
fn name() {
    let valids = [
        ("at", RegisterName::At),
        ("gp", RegisterName::Gp),
        ("sp", RegisterName::Sp),
        ("fp", RegisterName::Fp),
        ("ra", RegisterName::Ra),
    ];
    for (s, res) in valids {
        assert_eq!(RegisterName::from_str(s), Ok(res))
    }
    let errs = ["At", "aT", "re", "FP"];
    for s in errs {
        assert!(RegisterName::from_str(s).is_err())
    }
}

#[test]
fn register_all_kinds() {
    let valids = [
        (
            "t8",
            Register::PrefixedNumber(RegisterPrefixedName {
                prefix: 't',
                index: 8,
            }),
        ),
        ("8", Register::Number(8)),
        ("1", Register::Number(1)),
        ("31", Register::Number(31)),
        ("at", Register::Name(RegisterName::At)),
        ("sp", Register::Name(RegisterName::Sp)),
    ];
    for (s, res) in valids {
        assert_eq!(
            Register::try_from(s.chars().collect::<Vec<_>>().as_slice()),
            Ok(res)
        );
    }
    let errs = ["s9", "sd", "Ra", "t12", "32", "-1"];
    for s in errs {
        assert!(Register::try_from(s.chars().collect::<Vec<_>>().as_slice()).is_err());
    }
}

#[test]
fn all_kinds() {
    let valids = [
        (
            "t8",
            Register::PrefixedNumber(RegisterPrefixedName {
                prefix: 't',
                index: 8,
            }),
        ),
        ("8", Register::Number(8)),
        ("1", Register::Number(1)),
        ("31", Register::Number(31)),
        ("at", Register::Name(RegisterName::At)),
        ("sp", Register::Name(RegisterName::Sp)),
    ];
    for (s, res) in valids {
        assert_eq!(
            Register::try_from(s.chars().collect::<Vec<_>>().as_slice()),
            Ok(res)
        );
    }
    let errs = ["s9", "sd", "Ra", "t12", "32", "-1"];
    for s in errs {
        assert!(Register::try_from(s.chars().collect::<Vec<_>>().as_slice()).is_err());
    }
}

#[test]
fn register_error_kinds() {
    let parse = |s: &str| Register::try_from(s.chars().collect::<Vec<_>>().as_slice());
    assert_eq!(parse("32"), Err(RegisterParseError::OutOfRange(32)));
    assert_eq!(parse("255"), Err(RegisterParseError::OutOfRange(255)));
    assert_eq!(parse("256"), Err(RegisterParseError::Other));
    assert_eq!(parse("x1"), Err(RegisterParseError::InvalidPrefix('x')));
    assert_eq!(parse("sd"), Err(RegisterParseError::Other));
    assert_eq!(parse(""), Err(RegisterParseError::Other));
    assert_eq!(parse("t12"), Err(RegisterParseError::Other));
    assert_eq!(parse("07"), Ok(Register::Number(7)));
    assert_eq!(parse("+5"), Ok(Register::Number(5)));
}
