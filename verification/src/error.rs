//! The error taxonomy the driver exposes to the host, and the translation of
//! engine status codes into stable symbolic names.
//!
//! Engine failures carry a numeric status code from the engine's fixed set;
//! the translator maps each known code to its symbolic name and degrades an
//! unrecognized code to a synthesized `UNKNOWN_SQLITE_ERROR_<code>` symbol.
//! Non-engine failures (closed handles, binding faults, mode misuse) surface
//! with an empty symbolic code and a plain message.

use vstd::prelude::*;

verus! {

pub const SQLITE_OK: i32 = 0;

pub const SQLITE_ERROR: i32 = 1;

pub const SQLITE_INTERNAL: i32 = 2;

pub const SQLITE_PERM: i32 = 3;

pub const SQLITE_ABORT: i32 = 4;

pub const SQLITE_BUSY: i32 = 5;

pub const SQLITE_LOCKED: i32 = 6;

pub const SQLITE_NOMEM: i32 = 7;

pub const SQLITE_READONLY: i32 = 8;

pub const SQLITE_INTERRUPT: i32 = 9;

pub const SQLITE_IOERR: i32 = 10;

pub const SQLITE_CORRUPT: i32 = 11;

pub const SQLITE_NOTFOUND: i32 = 12;

pub const SQLITE_FULL: i32 = 13;

pub const SQLITE_CANTOPEN: i32 = 14;

pub const SQLITE_PROTOCOL: i32 = 15;

pub const SQLITE_EMPTY: i32 = 16;

pub const SQLITE_SCHEMA: i32 = 17;

pub const SQLITE_TOOBIG: i32 = 18;

pub const SQLITE_CONSTRAINT: i32 = 19;

pub const SQLITE_MISMATCH: i32 = 20;

pub const SQLITE_MISUSE: i32 = 21;

pub const SQLITE_NOLFS: i32 = 22;

pub const SQLITE_AUTH: i32 = 23;

pub const SQLITE_FORMAT: i32 = 24;

pub const SQLITE_RANGE: i32 = 25;

pub const SQLITE_NOTADB: i32 = 26;

pub const SQLITE_NOTICE: i32 = 27;

pub const SQLITE_WARNING: i32 = 28;

pub const SQLITE_ROW: i32 = 100;

pub const SQLITE_DONE: i32 = 101;

pub const SQLITE_IOERR_READ: i32 = 266;

pub const SQLITE_IOERR_SHORT_READ: i32 = 522;

pub const SQLITE_IOERR_WRITE: i32 = 778;

pub const SQLITE_IOERR_FSYNC: i32 = 1034;

pub const SQLITE_IOERR_DIR_FSYNC: i32 = 1290;

pub const SQLITE_IOERR_TRUNCATE: i32 = 1546;

pub const SQLITE_IOERR_FSTAT: i32 = 1802;

pub const SQLITE_IOERR_UNLOCK: i32 = 2058;

pub const SQLITE_IOERR_RDLOCK: i32 = 2314;

pub const SQLITE_IOERR_DELETE: i32 = 2570;

pub const SQLITE_IOERR_BLOCKED: i32 = 2826;

pub const SQLITE_IOERR_NOMEM: i32 = 3082;

pub const SQLITE_IOERR_ACCESS: i32 = 3338;

pub const SQLITE_IOERR_CHECKRESERVEDLOCK: i32 = 3594;

pub const SQLITE_IOERR_LOCK: i32 = 3850;

pub const SQLITE_IOERR_CLOSE: i32 = 4106;

pub const SQLITE_IOERR_DIR_CLOSE: i32 = 4362;

pub const SQLITE_IOERR_SHMOPEN: i32 = 4618;

pub const SQLITE_IOERR_SHMSIZE: i32 = 4874;

pub const SQLITE_IOERR_SHMLOCK: i32 = 5130;

pub const SQLITE_IOERR_SHMMAP: i32 = 5386;

pub const SQLITE_IOERR_SEEK: i32 = 5642;

pub const SQLITE_IOERR_DELETE_NOENT: i32 = 5898;

pub const SQLITE_IOERR_MMAP: i32 = 6154;

pub const SQLITE_IOERR_GETTEMPPATH: i32 = 6410;

pub const SQLITE_IOERR_CONVPATH: i32 = 6666;

pub const SQLITE_IOERR_VNODE: i32 = 6922;

pub const SQLITE_IOERR_AUTH: i32 = 7178;

pub const SQLITE_LOCKED_SHAREDCACHE: i32 = 262;

pub const SQLITE_BUSY_RECOVERY: i32 = 261;

pub const SQLITE_BUSY_SNAPSHOT: i32 = 517;

pub const SQLITE_CANTOPEN_NOTEMPDIR: i32 = 270;

pub const SQLITE_CANTOPEN_ISDIR: i32 = 526;

pub const SQLITE_CANTOPEN_FULLPATH: i32 = 782;

pub const SQLITE_CANTOPEN_CONVPATH: i32 = 1038;

pub const SQLITE_CORRUPT_VTAB: i32 = 267;

pub const SQLITE_READONLY_RECOVERY: i32 = 264;

pub const SQLITE_READONLY_CANTLOCK: i32 = 520;

pub const SQLITE_READONLY_ROLLBACK: i32 = 776;

pub const SQLITE_READONLY_DBMOVED: i32 = 1032;

pub const SQLITE_ABORT_ROLLBACK: i32 = 516;

pub const SQLITE_CONSTRAINT_CHECK: i32 = 275;

pub const SQLITE_CONSTRAINT_COMMITHOOK: i32 = 531;

pub const SQLITE_CONSTRAINT_FOREIGNKEY: i32 = 787;

pub const SQLITE_CONSTRAINT_FUNCTION: i32 = 1043;

pub const SQLITE_CONSTRAINT_NOTNULL: i32 = 1299;

pub const SQLITE_CONSTRAINT_PRIMARYKEY: i32 = 1555;

pub const SQLITE_CONSTRAINT_TRIGGER: i32 = 1811;

pub const SQLITE_CONSTRAINT_UNIQUE: i32 = 2067;

pub const SQLITE_CONSTRAINT_VTAB: i32 = 2323;

pub const SQLITE_CONSTRAINT_ROWID: i32 = 2579;

pub const SQLITE_NOTICE_RECOVER_WAL: i32 = 283;

pub const SQLITE_NOTICE_RECOVER_ROLLBACK: i32 = 539;

pub const SQLITE_WARNING_AUTOINDEX: i32 = 284;

pub const SQLITE_AUTH_USER: i32 = 279;

pub const SQLITE_OK_LOAD_PERMANENTLY: i32 = 256;

/// The decimal digit character for `d`.
pub open spec fn digit_char(d: int) -> char
    recommends
        0 <= d < 10,
{
    if d == 0 {
        '0'
    } else if d == 1 {
        '1'
    } else if d == 2 {
        '2'
    } else if d == 3 {
        '3'
    } else if d == 4 {
        '4'
    } else if d == 5 {
        '5'
    } else if d == 6 {
        '6'
    } else if d == 7 {
        '7'
    } else if d == 8 {
        '8'
    } else {
        '9'
    }
}

/// The decimal digits of a nonnegative number, most significant first.
pub open spec fn spec_udecimal(n: nat) -> Seq<char>
    decreases n,
{
    if n < 10 {
        seq![digit_char(n as int)]
    } else {
        spec_udecimal(n / 10).push(digit_char((n % 10) as int))
    }
}

/// The decimal rendering of an integer, with a leading minus sign when
/// negative.
pub open spec fn spec_decimal(n: int) -> Seq<char> {
    if n < 0 {
        seq!['-'] + spec_udecimal((-n) as nat)
    } else {
        spec_udecimal(n as nat)
    }
}

fn push_digit(s: &mut String, d: u64)
    requires
        d < 10,
    ensures
        final(s)@ == old(s)@ + seq![digit_char(d as int)],
{
    proof {
        reveal_strlit("0");
        reveal_strlit("1");
        reveal_strlit("2");
        reveal_strlit("3");
        reveal_strlit("4");
        reveal_strlit("5");
        reveal_strlit("6");
        reveal_strlit("7");
        reveal_strlit("8");
        reveal_strlit("9");
    }
    if d == 0 {
        s.append("0");
        assert(seq![digit_char(d as int)] =~= "0"@);
    } else if d == 1 {
        s.append("1");
        assert(seq![digit_char(d as int)] =~= "1"@);
    } else if d == 2 {
        s.append("2");
        assert(seq![digit_char(d as int)] =~= "2"@);
    } else if d == 3 {
        s.append("3");
        assert(seq![digit_char(d as int)] =~= "3"@);
    } else if d == 4 {
        s.append("4");
        assert(seq![digit_char(d as int)] =~= "4"@);
    } else if d == 5 {
        s.append("5");
        assert(seq![digit_char(d as int)] =~= "5"@);
    } else if d == 6 {
        s.append("6");
        assert(seq![digit_char(d as int)] =~= "6"@);
    } else if d == 7 {
        s.append("7");
        assert(seq![digit_char(d as int)] =~= "7"@);
    } else if d == 8 {
        s.append("8");
        assert(seq![digit_char(d as int)] =~= "8"@);
    } else {
        s.append("9");
        assert(seq![digit_char(d as int)] =~= "9"@);
    }
}

fn push_udecimal(s: &mut String, n: u64)
    ensures
        final(s)@ == old(s)@ + spec_udecimal(n as nat),
    decreases n,
{
    if n < 10 {
        push_digit(s, n);
    } else {
        push_udecimal(s, n / 10);
        push_digit(s, n % 10);
        assert(old(s)@ + spec_udecimal((n / 10) as nat) + seq![digit_char((n % 10) as int)]
            =~= old(s)@ + spec_udecimal(n as nat));
    }
}

fn push_decimal(s: &mut String, n: i32)
    ensures
        final(s)@ == old(s)@ + spec_decimal(n as int),
{
    if n < 0 {
        proof {
            reveal_strlit("-");
        }
        s.append("-");
        let wide: i64 = n as i64;
        let m: u64 = (-wide) as u64;
        push_udecimal(s, m);
        proof {
            assert("-"@ =~= seq!['-']);
            assert(s@ =~= old(s)@ + spec_decimal(n as int));
        }
    } else {
        push_udecimal(s, n as u64);
    }
}

/// The symbolic name of an engine status code; an unrecognized code gets a
/// synthesized name that carries the numeric code itself.
pub open spec fn spec_sqlite_code_name(code: i32) -> Seq<char> {
    if code == SQLITE_OK {
        "SQLITE_OK"@
    } else if code == SQLITE_ERROR {
        "SQLITE_ERROR"@
    } else if code == SQLITE_INTERNAL {
        "SQLITE_INTERNAL"@
    } else if code == SQLITE_PERM {
        "SQLITE_PERM"@
    } else if code == SQLITE_ABORT {
        "SQLITE_ABORT"@
    } else if code == SQLITE_BUSY {
        "SQLITE_BUSY"@
    } else if code == SQLITE_LOCKED {
        "SQLITE_LOCKED"@
    } else if code == SQLITE_NOMEM {
        "SQLITE_NOMEM"@
    } else if code == SQLITE_READONLY {
        "SQLITE_READONLY"@
    } else if code == SQLITE_INTERRUPT {
        "SQLITE_INTERRUPT"@
    } else if code == SQLITE_IOERR {
        "SQLITE_IOERR"@
    } else if code == SQLITE_CORRUPT {
        "SQLITE_CORRUPT"@
    } else if code == SQLITE_NOTFOUND {
        "SQLITE_NOTFOUND"@
    } else if code == SQLITE_FULL {
        "SQLITE_FULL"@
    } else if code == SQLITE_CANTOPEN {
        "SQLITE_CANTOPEN"@
    } else if code == SQLITE_PROTOCOL {
        "SQLITE_PROTOCOL"@
    } else if code == SQLITE_EMPTY {
        "SQLITE_EMPTY"@
    } else if code == SQLITE_SCHEMA {
        "SQLITE_SCHEMA"@
    } else if code == SQLITE_TOOBIG {
        "SQLITE_TOOBIG"@
    } else if code == SQLITE_CONSTRAINT {
        "SQLITE_CONSTRAINT"@
    } else if code == SQLITE_MISMATCH {
        "SQLITE_MISMATCH"@
    } else if code == SQLITE_MISUSE {
        "SQLITE_MISUSE"@
    } else if code == SQLITE_NOLFS {
        "SQLITE_NOLFS"@
    } else if code == SQLITE_AUTH {
        "SQLITE_AUTH"@
    } else if code == SQLITE_FORMAT {
        "SQLITE_FORMAT"@
    } else if code == SQLITE_RANGE {
        "SQLITE_RANGE"@
    } else if code == SQLITE_NOTADB {
        "SQLITE_NOTADB"@
    } else if code == SQLITE_NOTICE {
        "SQLITE_NOTICE"@
    } else if code == SQLITE_WARNING {
        "SQLITE_WARNING"@
    } else if code == SQLITE_ROW {
        "SQLITE_ROW"@
    } else if code == SQLITE_DONE {
        "SQLITE_DONE"@
    } else if code == SQLITE_IOERR_READ {
        "SQLITE_IOERR_READ"@
    } else if code == SQLITE_IOERR_SHORT_READ {
        "SQLITE_IOERR_SHORT_READ"@
    } else if code == SQLITE_IOERR_WRITE {
        "SQLITE_IOERR_WRITE"@
    } else if code == SQLITE_IOERR_FSYNC {
        "SQLITE_IOERR_FSYNC"@
    } else if code == SQLITE_IOERR_DIR_FSYNC {
        "SQLITE_IOERR_DIR_FSYNC"@
    } else if code == SQLITE_IOERR_TRUNCATE {
        "SQLITE_IOERR_TRUNCATE"@
    } else if code == SQLITE_IOERR_FSTAT {
        "SQLITE_IOERR_FSTAT"@
    } else if code == SQLITE_IOERR_UNLOCK {
        "SQLITE_IOERR_UNLOCK"@
    } else if code == SQLITE_IOERR_RDLOCK {
        "SQLITE_IOERR_RDLOCK"@
    } else if code == SQLITE_IOERR_DELETE {
        "SQLITE_IOERR_DELETE"@
    } else if code == SQLITE_IOERR_BLOCKED {
        "SQLITE_IOERR_BLOCKED"@
    } else if code == SQLITE_IOERR_NOMEM {
        "SQLITE_IOERR_NOMEM"@
    } else if code == SQLITE_IOERR_ACCESS {
        "SQLITE_IOERR_ACCESS"@
    } else if code == SQLITE_IOERR_CHECKRESERVEDLOCK {
        "SQLITE_IOERR_CHECKRESERVEDLOCK"@
    } else if code == SQLITE_IOERR_LOCK {
        "SQLITE_IOERR_LOCK"@
    } else if code == SQLITE_IOERR_CLOSE {
        "SQLITE_IOERR_CLOSE"@
    } else if code == SQLITE_IOERR_DIR_CLOSE {
        "SQLITE_IOERR_DIR_CLOSE"@
    } else if code == SQLITE_IOERR_SHMOPEN {
        "SQLITE_IOERR_SHMOPEN"@
    } else if code == SQLITE_IOERR_SHMSIZE {
        "SQLITE_IOERR_SHMSIZE"@
    } else if code == SQLITE_IOERR_SHMLOCK {
        "SQLITE_IOERR_SHMLOCK"@
    } else if code == SQLITE_IOERR_SHMMAP {
        "SQLITE_IOERR_SHMMAP"@
    } else if code == SQLITE_IOERR_SEEK {
        "SQLITE_IOERR_SEEK"@
    } else if code == SQLITE_IOERR_DELETE_NOENT {
        "SQLITE_IOERR_DELETE_NOENT"@
    } else if code == SQLITE_IOERR_MMAP {
        "SQLITE_IOERR_MMAP"@
    } else if code == SQLITE_IOERR_GETTEMPPATH {
        "SQLITE_IOERR_GETTEMPPATH"@
    } else if code == SQLITE_IOERR_CONVPATH {
        "SQLITE_IOERR_CONVPATH"@
    } else if code == SQLITE_IOERR_VNODE {
        "SQLITE_IOERR_VNODE"@
    } else if code == SQLITE_IOERR_AUTH {
        "SQLITE_IOERR_AUTH"@
    } else if code == SQLITE_LOCKED_SHAREDCACHE {
        "SQLITE_LOCKED_SHAREDCACHE"@
    } else if code == SQLITE_BUSY_RECOVERY {
        "SQLITE_BUSY_RECOVERY"@
    } else if code == SQLITE_BUSY_SNAPSHOT {
        "SQLITE_BUSY_SNAPSHOT"@
    } else if code == SQLITE_CANTOPEN_NOTEMPDIR {
        "SQLITE_CANTOPEN_NOTEMPDIR"@
    } else if code == SQLITE_CANTOPEN_ISDIR {
        "SQLITE_CANTOPEN_ISDIR"@
    } else if code == SQLITE_CANTOPEN_FULLPATH {
        "SQLITE_CANTOPEN_FULLPATH"@
    } else if code == SQLITE_CANTOPEN_CONVPATH {
        "SQLITE_CANTOPEN_CONVPATH"@
    } else if code == SQLITE_CORRUPT_VTAB {
        "SQLITE_CORRUPT_VTAB"@
    } else if code == SQLITE_READONLY_RECOVERY {
        "SQLITE_READONLY_RECOVERY"@
    } else if code == SQLITE_READONLY_CANTLOCK {
        "SQLITE_READONLY_CANTLOCK"@
    } else if code == SQLITE_READONLY_ROLLBACK {
        "SQLITE_READONLY_ROLLBACK"@
    } else if code == SQLITE_READONLY_DBMOVED {
        "SQLITE_READONLY_DBMOVED"@
    } else if code == SQLITE_ABORT_ROLLBACK {
        "SQLITE_ABORT_ROLLBACK"@
    } else if code == SQLITE_CONSTRAINT_CHECK {
        "SQLITE_CONSTRAINT_CHECK"@
    } else if code == SQLITE_CONSTRAINT_COMMITHOOK {
        "SQLITE_CONSTRAINT_COMMITHOOK"@
    } else if code == SQLITE_CONSTRAINT_FOREIGNKEY {
        "SQLITE_CONSTRAINT_FOREIGNKEY"@
    } else if code == SQLITE_CONSTRAINT_FUNCTION {
        "SQLITE_CONSTRAINT_FUNCTION"@
    } else if code == SQLITE_CONSTRAINT_NOTNULL {
        "SQLITE_CONSTRAINT_NOTNULL"@
    } else if code == SQLITE_CONSTRAINT_PRIMARYKEY {
        "SQLITE_CONSTRAINT_PRIMARYKEY"@
    } else if code == SQLITE_CONSTRAINT_TRIGGER {
        "SQLITE_CONSTRAINT_TRIGGER"@
    } else if code == SQLITE_CONSTRAINT_UNIQUE {
        "SQLITE_CONSTRAINT_UNIQUE"@
    } else if code == SQLITE_CONSTRAINT_VTAB {
        "SQLITE_CONSTRAINT_VTAB"@
    } else if code == SQLITE_CONSTRAINT_ROWID {
        "SQLITE_CONSTRAINT_ROWID"@
    } else if code == SQLITE_NOTICE_RECOVER_WAL {
        "SQLITE_NOTICE_RECOVER_WAL"@
    } else if code == SQLITE_NOTICE_RECOVER_ROLLBACK {
        "SQLITE_NOTICE_RECOVER_ROLLBACK"@
    } else if code == SQLITE_WARNING_AUTOINDEX {
        "SQLITE_WARNING_AUTOINDEX"@
    } else if code == SQLITE_AUTH_USER {
        "SQLITE_AUTH_USER"@
    } else if code == SQLITE_OK_LOAD_PERMANENTLY {
        "SQLITE_OK_LOAD_PERMANENTLY"@
    } else {
        "UNKNOWN_SQLITE_ERROR_"@ + spec_decimal(code as int)
    }
}

/// The symbolic name of an engine status code, as delivered to the host.
#[verifier::rlimit(60)]
pub fn convert_sqlite_code(code: i32) -> (r: String)
    ensures
        r@ == spec_sqlite_code_name(code),
{
    if code == SQLITE_OK {
        "SQLITE_OK".to_owned()
    } else if code == SQLITE_ERROR {
        "SQLITE_ERROR".to_owned()
    } else if code == SQLITE_INTERNAL {
        "SQLITE_INTERNAL".to_owned()
    } else if code == SQLITE_PERM {
        "SQLITE_PERM".to_owned()
    } else if code == SQLITE_ABORT {
        "SQLITE_ABORT".to_owned()
    } else if code == SQLITE_BUSY {
        "SQLITE_BUSY".to_owned()
    } else if code == SQLITE_LOCKED {
        "SQLITE_LOCKED".to_owned()
    } else if code == SQLITE_NOMEM {
        "SQLITE_NOMEM".to_owned()
    } else if code == SQLITE_READONLY {
        "SQLITE_READONLY".to_owned()
    } else if code == SQLITE_INTERRUPT {
        "SQLITE_INTERRUPT".to_owned()
    } else if code == SQLITE_IOERR {
        "SQLITE_IOERR".to_owned()
    } else if code == SQLITE_CORRUPT {
        "SQLITE_CORRUPT".to_owned()
    } else if code == SQLITE_NOTFOUND {
        "SQLITE_NOTFOUND".to_owned()
    } else if code == SQLITE_FULL {
        "SQLITE_FULL".to_owned()
    } else if code == SQLITE_CANTOPEN {
        "SQLITE_CANTOPEN".to_owned()
    } else if code == SQLITE_PROTOCOL {
        "SQLITE_PROTOCOL".to_owned()
    } else if code == SQLITE_EMPTY {
        "SQLITE_EMPTY".to_owned()
    } else if code == SQLITE_SCHEMA {
        "SQLITE_SCHEMA".to_owned()
    } else if code == SQLITE_TOOBIG {
        "SQLITE_TOOBIG".to_owned()
    } else if code == SQLITE_CONSTRAINT {
        "SQLITE_CONSTRAINT".to_owned()
    } else if code == SQLITE_MISMATCH {
        "SQLITE_MISMATCH".to_owned()
    } else if code == SQLITE_MISUSE {
        "SQLITE_MISUSE".to_owned()
    } else if code == SQLITE_NOLFS {
        "SQLITE_NOLFS".to_owned()
    } else if code == SQLITE_AUTH {
        "SQLITE_AUTH".to_owned()
    } else if code == SQLITE_FORMAT {
        "SQLITE_FORMAT".to_owned()
    } else if code == SQLITE_RANGE {
        "SQLITE_RANGE".to_owned()
    } else if code == SQLITE_NOTADB {
        "SQLITE_NOTADB".to_owned()
    } else if code == SQLITE_NOTICE {
        "SQLITE_NOTICE".to_owned()
    } else if code == SQLITE_WARNING {
        "SQLITE_WARNING".to_owned()
    } else if code == SQLITE_ROW {
        "SQLITE_ROW".to_owned()
    } else if code == SQLITE_DONE {
        "SQLITE_DONE".to_owned()
    } else if code == SQLITE_IOERR_READ {
        "SQLITE_IOERR_READ".to_owned()
    } else if code == SQLITE_IOERR_SHORT_READ {
        "SQLITE_IOERR_SHORT_READ".to_owned()
    } else if code == SQLITE_IOERR_WRITE {
        "SQLITE_IOERR_WRITE".to_owned()
    } else if code == SQLITE_IOERR_FSYNC {
        "SQLITE_IOERR_FSYNC".to_owned()
    } else if code == SQLITE_IOERR_DIR_FSYNC {
        "SQLITE_IOERR_DIR_FSYNC".to_owned()
    } else if code == SQLITE_IOERR_TRUNCATE {
        "SQLITE_IOERR_TRUNCATE".to_owned()
    } else if code == SQLITE_IOERR_FSTAT {
        "SQLITE_IOERR_FSTAT".to_owned()
    } else if code == SQLITE_IOERR_UNLOCK {
        "SQLITE_IOERR_UNLOCK".to_owned()
    } else if code == SQLITE_IOERR_RDLOCK {
        "SQLITE_IOERR_RDLOCK".to_owned()
    } else if code == SQLITE_IOERR_DELETE {
        "SQLITE_IOERR_DELETE".to_owned()
    } else if code == SQLITE_IOERR_BLOCKED {
        "SQLITE_IOERR_BLOCKED".to_owned()
    } else if code == SQLITE_IOERR_NOMEM {
        "SQLITE_IOERR_NOMEM".to_owned()
    } else if code == SQLITE_IOERR_ACCESS {
        "SQLITE_IOERR_ACCESS".to_owned()
    } else if code == SQLITE_IOERR_CHECKRESERVEDLOCK {
        "SQLITE_IOERR_CHECKRESERVEDLOCK".to_owned()
    } else if code == SQLITE_IOERR_LOCK {
        "SQLITE_IOERR_LOCK".to_owned()
    } else if code == SQLITE_IOERR_CLOSE {
        "SQLITE_IOERR_CLOSE".to_owned()
    } else if code == SQLITE_IOERR_DIR_CLOSE {
        "SQLITE_IOERR_DIR_CLOSE".to_owned()
    } else if code == SQLITE_IOERR_SHMOPEN {
        "SQLITE_IOERR_SHMOPEN".to_owned()
    } else if code == SQLITE_IOERR_SHMSIZE {
        "SQLITE_IOERR_SHMSIZE".to_owned()
    } else if code == SQLITE_IOERR_SHMLOCK {
        "SQLITE_IOERR_SHMLOCK".to_owned()
    } else if code == SQLITE_IOERR_SHMMAP {
        "SQLITE_IOERR_SHMMAP".to_owned()
    } else if code == SQLITE_IOERR_SEEK {
        "SQLITE_IOERR_SEEK".to_owned()
    } else if code == SQLITE_IOERR_DELETE_NOENT {
        "SQLITE_IOERR_DELETE_NOENT".to_owned()
    } else if code == SQLITE_IOERR_MMAP {
        "SQLITE_IOERR_MMAP".to_owned()
    } else if code == SQLITE_IOERR_GETTEMPPATH {
        "SQLITE_IOERR_GETTEMPPATH".to_owned()
    } else if code == SQLITE_IOERR_CONVPATH {
        "SQLITE_IOERR_CONVPATH".to_owned()
    } else if code == SQLITE_IOERR_VNODE {
        "SQLITE_IOERR_VNODE".to_owned()
    } else if code == SQLITE_IOERR_AUTH {
        "SQLITE_IOERR_AUTH".to_owned()
    } else if code == SQLITE_LOCKED_SHAREDCACHE {
        "SQLITE_LOCKED_SHAREDCACHE".to_owned()
    } else if code == SQLITE_BUSY_RECOVERY {
        "SQLITE_BUSY_RECOVERY".to_owned()
    } else if code == SQLITE_BUSY_SNAPSHOT {
        "SQLITE_BUSY_SNAPSHOT".to_owned()
    } else if code == SQLITE_CANTOPEN_NOTEMPDIR {
        "SQLITE_CANTOPEN_NOTEMPDIR".to_owned()
    } else if code == SQLITE_CANTOPEN_ISDIR {
        "SQLITE_CANTOPEN_ISDIR".to_owned()
    } else if code == SQLITE_CANTOPEN_FULLPATH {
        "SQLITE_CANTOPEN_FULLPATH".to_owned()
    } else if code == SQLITE_CANTOPEN_CONVPATH {
        "SQLITE_CANTOPEN_CONVPATH".to_owned()
    } else if code == SQLITE_CORRUPT_VTAB {
        "SQLITE_CORRUPT_VTAB".to_owned()
    } else if code == SQLITE_READONLY_RECOVERY {
        "SQLITE_READONLY_RECOVERY".to_owned()
    } else if code == SQLITE_READONLY_CANTLOCK {
        "SQLITE_READONLY_CANTLOCK".to_owned()
    } else if code == SQLITE_READONLY_ROLLBACK {
        "SQLITE_READONLY_ROLLBACK".to_owned()
    } else if code == SQLITE_READONLY_DBMOVED {
        "SQLITE_READONLY_DBMOVED".to_owned()
    } else if code == SQLITE_ABORT_ROLLBACK {
        "SQLITE_ABORT_ROLLBACK".to_owned()
    } else if code == SQLITE_CONSTRAINT_CHECK {
        "SQLITE_CONSTRAINT_CHECK".to_owned()
    } else if code == SQLITE_CONSTRAINT_COMMITHOOK {
        "SQLITE_CONSTRAINT_COMMITHOOK".to_owned()
    } else if code == SQLITE_CONSTRAINT_FOREIGNKEY {
        "SQLITE_CONSTRAINT_FOREIGNKEY".to_owned()
    } else if code == SQLITE_CONSTRAINT_FUNCTION {
        "SQLITE_CONSTRAINT_FUNCTION".to_owned()
    } else if code == SQLITE_CONSTRAINT_NOTNULL {
        "SQLITE_CONSTRAINT_NOTNULL".to_owned()
    } else if code == SQLITE_CONSTRAINT_PRIMARYKEY {
        "SQLITE_CONSTRAINT_PRIMARYKEY".to_owned()
    } else if code == SQLITE_CONSTRAINT_TRIGGER {
        "SQLITE_CONSTRAINT_TRIGGER".to_owned()
    } else if code == SQLITE_CONSTRAINT_UNIQUE {
        "SQLITE_CONSTRAINT_UNIQUE".to_owned()
    } else if code == SQLITE_CONSTRAINT_VTAB {
        "SQLITE_CONSTRAINT_VTAB".to_owned()
    } else if code == SQLITE_CONSTRAINT_ROWID {
        "SQLITE_CONSTRAINT_ROWID".to_owned()
    } else if code == SQLITE_NOTICE_RECOVER_WAL {
        "SQLITE_NOTICE_RECOVER_WAL".to_owned()
    } else if code == SQLITE_NOTICE_RECOVER_ROLLBACK {
        "SQLITE_NOTICE_RECOVER_ROLLBACK".to_owned()
    } else if code == SQLITE_WARNING_AUTOINDEX {
        "SQLITE_WARNING_AUTOINDEX".to_owned()
    } else if code == SQLITE_AUTH_USER {
        "SQLITE_AUTH_USER".to_owned()
    } else if code == SQLITE_OK_LOAD_PERMANENTLY {
        "SQLITE_OK_LOAD_PERMANENTLY".to_owned()
    } else {
        let mut name = String::from_str("UNKNOWN_SQLITE_ERROR_");
        push_decimal(&mut name, code);
        name
    }
}

/// A failure reported by the engine: a numeric status code when the engine
/// gave one, and the engine's own message.
#[derive(Debug, PartialEq)]
pub struct EngineError {
    /// The engine's native status code, when the failure carried one.
    pub raw_code: Option<i32>,
    /// The engine's message text.
    pub message: String,
}

/// The host-visible shape of a failure: a plain message, a symbolic code
/// (empty for non-engine failures), and the engine's numeric code when there
/// was one.
#[derive(Debug, PartialEq)]
pub struct ErrorInfo {
    pub message: String,
    pub code: String,
    pub raw_code: Option<i32>,
}

/// `info` is the faithful host-visible translation of engine failure `e`.
pub open spec fn translated(e: EngineError, info: ErrorInfo) -> bool {
    &&& info.message@ == e.message@
    &&& info.raw_code == e.raw_code
    &&& match e.raw_code {
        Some(c) => info.code@ == spec_sqlite_code_name(c),
        None => info.code@ == Seq::<char>::empty(),
    }
}

/// Turns an engine failure into its host-visible shape.  A failure with a
/// status code gets the code's symbolic name; any other engine failure keeps
/// its message and an empty symbolic code.  Translation never loses a
/// failure: every `EngineError` yields an `ErrorInfo`.
pub fn translate_engine_error(e: EngineError) -> (info: ErrorInfo)
    ensures
        translated(e, info),
{
    match e.raw_code {
        Some(c) => ErrorInfo { message: e.message, code: convert_sqlite_code(c), raw_code: Some(c) },
        None => ErrorInfo { message: e.message, code: String::new(), raw_code: None },
    }
}

/// A fault found while binding host parameters to a statement.
#[derive(Debug, PartialEq)]
pub enum BindingFault {
    /// A declared parameter name (carried here with its binding sigil) was
    /// missing from the supplied mapping.
    MissingNamedParameter(String),
    /// The host value has a type the value model does not support for
    /// binding (booleans and composites are a documented gap).
    UnsupportedType,
    /// A host big-integer value does not fit in a 64-bit signed integer.
    IntegerOutOfRange,
}

/// Everything that can go wrong in the driver, by taxonomy.
#[derive(Debug, PartialEq)]
pub enum DriverError {
    /// An operation was issued after the owning database handle was closed.
    Closed,
    /// Raw output mode was requested on a statement with no output columns.
    RawModeWithoutColumns,
    /// Parameter binding failed.
    Binding(BindingFault),
    /// Opening the database failed.
    Open(ErrorInfo),
    /// Compiling a statement failed.
    Prepare(ErrorInfo),
    /// Executing a statement or fetching a row failed.
    Execution(ErrorInfo),
    /// A replication round-trip with the remote primary failed.
    Sync(ErrorInfo),
}

/// Wraps an engine failure seen while opening a database.
pub fn open_error(e: EngineError) -> (r: DriverError)
    ensures
        r matches DriverError::Open(info) && translated(e, info),
{
    DriverError::Open(translate_engine_error(e))
}

/// Wraps an engine failure seen while compiling a statement.
pub fn prepare_error(e: EngineError) -> (r: DriverError)
    ensures
        r matches DriverError::Prepare(info) && translated(e, info),
{
    DriverError::Prepare(translate_engine_error(e))
}

/// Wraps an engine failure seen while executing a statement or fetching.
pub fn execution_error(e: EngineError) -> (r: DriverError)
    ensures
        r matches DriverError::Execution(info) && translated(e, info),
{
    DriverError::Execution(translate_engine_error(e))
}

/// Wraps an engine failure seen during a replication round-trip.
pub fn sync_error(e: EngineError) -> (r: DriverError)
    ensures
        r matches DriverError::Sync(info) && translated(e, info),
{
    DriverError::Sync(translate_engine_error(e))
}

impl DriverError {
    /// The host-visible shape of this failure.  Engine-born failures keep
    /// their translated info; every other failure carries a plain message
    /// and an empty symbolic code.  No failure is swallowed: every variant
    /// yields an `ErrorInfo`.
    pub fn into_info(self) -> (info: ErrorInfo)
        ensures
            match self {
                DriverError::Closed => {
                    &&& info.message@ == "database is closed"@
                    &&& info.code@ == Seq::<char>::empty()
                    &&& info.raw_code is None
                },
                DriverError::RawModeWithoutColumns => {
                    &&& info.message@
                        == "The raw() method is only for statements that return data"@
                    &&& info.code@ == Seq::<char>::empty()
                    &&& info.raw_code is None
                },
                DriverError::Binding(fault) => {
                    &&& match fault {
                        BindingFault::MissingNamedParameter(name) => info.message@
                            == "missing named parameter "@ + name@,
                        BindingFault::UnsupportedType => info.message@
                            == "unsupported type of value for binding"@,
                        BindingFault::IntegerOutOfRange => info.message@
                            == "bigint does not fit in a 64-bit signed integer"@,
                    }
                    &&& info.code@ == Seq::<char>::empty()
                    &&& info.raw_code is None
                },
                DriverError::Open(i) => info == i,
                DriverError::Prepare(i) => info == i,
                DriverError::Execution(i) => info == i,
                DriverError::Sync(i) => info == i,
            },
    {
        match self {
            DriverError::Closed => ErrorInfo {
                message: String::from_str("database is closed"),
                code: String::new(),
                raw_code: None,
            },
            DriverError::RawModeWithoutColumns => ErrorInfo {
                message: String::from_str(
                    "The raw() method is only for statements that return data",
                ),
                code: String::new(),
                raw_code: None,
            },
            DriverError::Binding(fault) => {
                let message = match fault {
                    BindingFault::MissingNamedParameter(name) => String::from_str(
                        "missing named parameter ",
                    ).concat(name.as_str()),
                    BindingFault::UnsupportedType => String::from_str(
                        "unsupported type of value for binding",
                    ),
                    BindingFault::IntegerOutOfRange => String::from_str(
                        "bigint does not fit in a 64-bit signed integer",
                    ),
                };
                ErrorInfo { message, code: String::new(), raw_code: None }
            },
            DriverError::Open(i) => i,
            DriverError::Prepare(i) => i,
            DriverError::Execution(i) => i,
            DriverError::Sync(i) => i,
        }
    }
}

} // verus!
