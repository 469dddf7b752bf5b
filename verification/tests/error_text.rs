//! Errors and text.

use fusecraft::error::{ConfigError, FsError, FusecraftError};
use fusecraft::op::FsOp;
use fusecraft::text::{push_decimal, push_padded, push_signed, read_digits, same_text};

#[test]
fn errors_map_to_errnos() {
    assert_eq!(FsError::Errno(libc::ESTALE).as_errno(), libc::ESTALE);
    assert_eq!(
        FsError::Config("bad".to_string()).as_errno(),
        libc::EINVAL
    );
    assert_eq!(FsError::Io(Some(libc::ENOENT)).as_errno(), libc::ENOENT);
    assert_eq!(FsError::Io(None).as_errno(), libc::EIO);
}

#[test]
fn error_messages() {
    let parse = ConfigError::Parse("line 3".to_string());
    assert_eq!(parse.message(), "TOML parse error: line 3");
    let validation = ConfigError::Validation {
        field: "seed".to_string(),
        reason: "odd".to_string(),
    };
    assert_eq!(validation.message(), "validation error: seed: odd");
    let missing = ConfigError::MissingField("ops".to_string());
    assert_eq!(missing.message(), "missing required field: ops");
    assert_eq!(
        FusecraftError::from(missing).message(),
        "config error: missing required field: ops"
    );
    assert_eq!(
        FusecraftError::Io("broken pipe".to_string()).message(),
        "I/O error: broken pipe"
    );
    assert_eq!(
        FusecraftError::InodeNotFound(u64::MAX).message(),
        "inode not found: 18446744073709551615"
    );
    assert_eq!(
        FusecraftError::ConcurrencyLimitExceeded { max: 4, current: 10 }.message(),
        "concurrency limit exceeded: max 4, current 10"
    );
    assert_eq!(
        FusecraftError::BandwidthLimitExceeded.message(),
        "bandwidth limit exceeded"
    );
    assert_eq!(
        FusecraftError::InjectedFault { errno: -5 }.message(),
        "injected fault: errno -5"
    );
}

#[test]
fn numbers_as_text() {
    for n in [0, 7, 10, 99, 100, 65536, u64::MAX] {
        let mut out = String::from("n=");
        push_decimal(&mut out, n);
        assert_eq!(out, format!("n={n}"));
        let mut out = String::new();
        push_padded(&mut out, n, 6);
        assert_eq!(out, format!("{n:06}"));
    }
    for n in [0, 1, -1, i32::MAX, i32::MIN] {
        let mut out = String::new();
        push_signed(&mut out, n);
        assert_eq!(out, format!("{n}"));
    }
}

#[test]
fn text_as_numbers() {
    assert_eq!(read_digits("000042"), Some(42));
    assert_eq!(read_digits("999999999999999999"), Some(999_999_999_999_999_999));
    assert_eq!(read_digits(""), Some(0));
    assert_eq!(read_digits("12a"), None);
    assert_eq!(read_digits("-1"), None);
    assert!(same_text("objects", "objects"));
    assert!(!same_text("objects", "object"));
    assert!(!same_text("objects", "objectz"));
}

#[test]
fn op_names_and_positions() {
    let names = [
        "lookup", "getattr", "open", "read", "write", "flush", "release", "fsync", "readdir",
        "statfs", "access",
    ];
    for (i, op) in FsOp::ALL.iter().enumerate() {
        assert_eq!(op.as_str(), names[i]);
        assert_eq!(op.index(), i);
        assert_eq!(op.is_data(), *op == FsOp::Read || *op == FsOp::Write);
    }
}
