use datavir::bits::{i32_to_u32, i64_to_u64, u32_to_i32, u64_to_i64};
use datavir::errors::{DVError, Errno, IoFailure};
use datavir::file_type::{file_type2string, parse_file_type, FileType};
use datavir::node_type::NodeType;
use datavir::object_type::ObjectType;
use datavir::sql::{is_sql_not_found, SqlFailure};
use std::str::FromStr;

#[test]
fn bit_patterns_survive_the_boundary() {
    assert_eq!(u64_to_i64(u64::MAX), -1);
    assert_eq!(i64_to_u64(-1), u64::MAX);
    assert_eq!(i64_to_u64(u64_to_i64(1u64 << 63)), 1u64 << 63);
    assert_eq!(u64_to_i64(1u64 << 63), i64::MIN);
    assert_eq!(i64_to_u64(i64::MAX), (1u64 << 63) - 1);
    assert_eq!(u64_to_i64(42), 42);
}

#[test]
fn round_trip_over_sampled_unsigned_range() {
    let mut value: u64 = 1;
    for _ in 0..64 {
        assert_eq!(i64_to_u64(u64_to_i64(value)), value);
        assert_eq!(i64_to_u64(u64_to_i64(value.wrapping_sub(1))), value.wrapping_sub(1));
        assert_eq!(i64_to_u64(u64_to_i64(!value)), !value);
        value = value.wrapping_mul(2);
    }
    assert_eq!(i64_to_u64(u64_to_i64(0)), 0);
}

#[test]
fn thirty_two_bit_patterns() {
    assert_eq!(u32_to_i32(u32::MAX), -1);
    assert_eq!(i32_to_u32(-1), u32::MAX);
    assert_eq!(i32_to_u32(i32::MIN), 1u32 << 31);
    assert_eq!(u32_to_i32(7), 7);
}

#[test]
fn file_type_codes() {
    let all = [
        (FileType::RegularFile, "F"),
        (FileType::Directory, "D"),
        (FileType::CharDevice, "C"),
        (FileType::NamedPipe, "P"),
        (FileType::BlockDevice, "B"),
        (FileType::Socket, "S"),
        (FileType::Symlink, "L"),
    ];
    for (kind, code) in all {
        assert_eq!(file_type2string(kind), code);
        assert_eq!(parse_file_type(code), Some(kind));
    }
    assert_eq!(parse_file_type("X"), None);
    assert_eq!(parse_file_type(""), None);
    assert_eq!(parse_file_type("f"), None);
    assert_eq!(parse_file_type("FD"), None);
}

#[test]
fn object_type_codes() {
    let all = [
        (ObjectType::Reserved, "R"),
        (ObjectType::Filter, "F"),
        (ObjectType::BundleRoot, "BR"),
        (ObjectType::BundleElement, "BE"),
        (ObjectType::OrgDir, "O"),
    ];
    for (kind, code) in all {
        assert_eq!(kind.as_str(), code);
        assert_eq!(kind.to_string(), code);
        assert_eq!(ObjectType::from_code(code).unwrap(), kind);
        assert_eq!(ObjectType::from_str(code).unwrap(), kind);
    }
    let err = ObjectType::from_code("ZZ").unwrap_err();
    assert_eq!(err.got(), "ZZ");
    assert_eq!(err.to_string(), "invalid ObjectType: ZZ");
}

#[test]
fn node_type_codes() {
    let all = [
        (NodeType::Special, "S"),
        (NodeType::FilterDir, "FD"),
        (NodeType::FilterSpecFile, "FF"),
        (NodeType::FilterBundleLink, "FL"),
        (NodeType::BundleRoot, "BR"),
        (NodeType::BundleElement, "BE"),
        (NodeType::OrgDir, "OD"),
    ];
    for (kind, code) in all {
        assert_eq!(kind.as_str(), code);
        assert_eq!(kind.to_string(), code);
        assert_eq!(NodeType::from_code(code).unwrap(), kind);
    }
    let err = NodeType::from_str("R").unwrap_err();
    assert_eq!(err.to_string(), "invalid NodeType: R");
}

#[test]
fn errors_map_to_posix_conditions() {
    assert_eq!(DVError::SQLError(SqlFailure::NotFound).errno(), Errno::NotFound);
    assert_eq!(DVError::SQLError(SqlFailure::Other("x".to_string())).errno(), Errno::Io);
    assert_eq!(DVError::SQLError(SqlFailure::InvalidColumn(3)).errno(), Errno::Io);
    assert_eq!(DVError::IOError(IoFailure::NotFound).errno(), Errno::NotFound);
    assert_eq!(DVError::IOError(IoFailure::PermissionDenied).errno(), Errno::PermissionDenied);
    assert_eq!(DVError::IOError(IoFailure::AlreadyExists).errno(), Errno::FileExists);
    assert_eq!(DVError::IOError(IoFailure::Other).errno(), Errno::Io);
    assert_eq!(DVError::DirNotClean("/mnt".to_string()).errno(), Errno::Io);
    assert_eq!(DVError::TimeConversionErrorFromSecs(1).errno(), Errno::Io);
    assert_eq!(DVError::FuseTypeParseError("?".to_string()).errno(), Errno::Io);
    assert_eq!(DVError::ObjectTypeParseError("?".to_string()).errno(), Errno::Io);
    assert_eq!(DVError::NodeNoNum.errno(), Errno::Io);
    assert_eq!(DVError::UuidParseError("?".to_string()).errno(), Errno::Io);
    assert_eq!(DVError::NotImplemented.errno(), Errno::Io);
    assert_eq!(DVError::NoMoreResults.errno(), Errno::Io);
    assert_eq!(DVError::ReservedRangeViolated(1).errno(), Errno::Io);
    assert_eq!(DVError::SchemaUpgradeStuck.errno(), Errno::Io);
    assert_eq!(DVError::InodesExhausted.errno(), Errno::Io);
}

#[test]
fn posix_numbers_are_those_of_libc() {
    assert_eq!(Errno::NotFound.code(), libc::ENOENT);
    assert_eq!(Errno::PermissionDenied.code(), libc::EACCES);
    assert_eq!(Errno::FileExists.code(), libc::EEXIST);
    assert_eq!(Errno::Io.code(), libc::EIO);
    assert_eq!(Errno::NotImplemented.code(), libc::ENOSYS);
    assert_eq!(Errno::NotADirectory.code(), libc::ENOTDIR);
    assert_eq!(DVError::IOError(IoFailure::PermissionDenied).posix_code(), libc::EACCES);
    assert_eq!(DVError::NodeNoNum.posix_code(), libc::EIO);
}

#[test]
fn not_found_and_fatal_are_told_apart() {
    assert!(DVError::SQLError(SqlFailure::NotFound).is_not_found());
    assert!(DVError::IOError(IoFailure::NotFound).is_not_found());
    assert!(!DVError::IOError(IoFailure::Other).is_not_found());
    assert!(!DVError::NoMoreResults.is_not_found());
    assert!(DVError::ReservedRangeViolated(2).is_fatal());
    assert!(DVError::SchemaUpgradeStuck.is_fatal());
    assert!(!DVError::SQLError(SqlFailure::NotFound).is_fatal());
    assert!(is_sql_not_found(&SqlFailure::NotFound));
    assert!(!is_sql_not_found(&SqlFailure::Other("busy".to_string())));
    assert!(!is_sql_not_found(&SqlFailure::InvalidColumn(0)));
}
