use wordexp::{
    WordexpError, WordexpErrorType, WRDE_BADCHAR, WRDE_BADVAL, WRDE_CMDSUB, WRDE_NOSPACE,
    WRDE_SYNTAX,
};

#[test]
fn from_maps_documented_codes() {
    assert_eq!(WordexpErrorType::from(WRDE_BADCHAR), WordexpErrorType::BadChar);
    assert_eq!(WordexpErrorType::from(WRDE_BADVAL), WordexpErrorType::BadVal);
    assert_eq!(WordexpErrorType::from(WRDE_CMDSUB), WordexpErrorType::CmdSub);
    assert_eq!(WordexpErrorType::from(WRDE_NOSPACE), WordexpErrorType::NoSpace);
    assert_eq!(WordexpErrorType::from(WRDE_SYNTAX), WordexpErrorType::Syntax);
}

#[test]
fn from_maps_literal_codes() {
    assert_eq!(WordexpErrorType::from(1), WordexpErrorType::NoSpace);
    assert_eq!(WordexpErrorType::from(2), WordexpErrorType::BadChar);
    assert_eq!(WordexpErrorType::from(3), WordexpErrorType::BadVal);
    assert_eq!(WordexpErrorType::from(4), WordexpErrorType::CmdSub);
    assert_eq!(WordexpErrorType::from(5), WordexpErrorType::Syntax);
}

#[test]
fn from_maps_other_codes_to_unknown() {
    assert_eq!(WordexpErrorType::from(0), WordexpErrorType::Unknown);
    assert_eq!(WordexpErrorType::from(6), WordexpErrorType::Unknown);
    assert_eq!(WordexpErrorType::from(-1), WordexpErrorType::Unknown);
    assert_eq!(WordexpErrorType::from(i32::MAX), WordexpErrorType::Unknown);
    assert_eq!(WordexpErrorType::from(i32::MIN), WordexpErrorType::Unknown);
}

#[test]
fn error_new_keeps_kind() {
    let e = WordexpError::new(WordexpErrorType::Syntax);
    assert_eq!(e.error_type, WordexpErrorType::Syntax);
    let e = WordexpError::new(WordexpErrorType::InvalidInput);
    assert_eq!(e.error_type, WordexpErrorType::InvalidInput);
}
