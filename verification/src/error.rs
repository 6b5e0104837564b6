//! The query-error taxonomy: every failure the database layer can report is
//! folded into a small set of variants the pages can act on.
use vstd::prelude::*;
use sqlx::Error as SqlError;

verus! {

/// The application's view of a failed query.
#[derive(Debug, Clone, PartialEq)]
pub enum QueryError {
    NoResultFound,
    WrongQueryFormat,
    PoolProblem,
    DataBaseError,
    DecodingProblem,
    ConnectionProblem,
    WrongType(String),
    ColumnIndexOutOfBounds(usize, usize),
    OtherProblem,
}

/// The variants of `sqlx::Error`, one for one, carrying the plain payloads
/// the taxonomy reads; boxed error sources are left behind. The missing-type
/// variant carries the error's rendered text, `type named {..} not found`;
/// the classification recovers the bare name from that frame.
#[derive(Debug)]
pub enum SqlErrorKind {
    Configuration,
    Database,
    Io,
    Tls,
    Protocol,
    RowNotFound,
    TypeNotFound(String),
    ColumnIndexOutOfBounds(usize, usize),
    ColumnNotFound(String),
    ColumnDecode,
    Decode,
    AnyDriverError,
    PoolTimedOut,
    PoolClosed,
    WorkerCrashed,
    Other,
}

#[verifier::external_type_specification]
#[verifier::external_body]
pub struct ExSqlxError(SqlError);

/// Relies on `sqlx::Error`: reads which variant the value is, one match arm
/// per variant, moving the plain payload fields and dropping boxed sources;
/// the missing-type arm hands over the error's rendered text, which sqlx
/// writes as `type named {..} not found`.
#[verifier::external_body]
fn sql_error_kind(err: SqlError) -> SqlErrorKind {
    match err {
        SqlError::Configuration(_) => SqlErrorKind::Configuration,
        SqlError::Database(_) => SqlErrorKind::Database,
        SqlError::Io(_) => SqlErrorKind::Io, SqlError::Tls(_) => SqlErrorKind::Tls,
        SqlError::Protocol(_) => SqlErrorKind::Protocol,
        SqlError::RowNotFound => SqlErrorKind::RowNotFound,
        SqlError::TypeNotFound { .. } => SqlErrorKind::TypeNotFound(err.to_string()),
        SqlError::ColumnIndexOutOfBounds { index, len } => SqlErrorKind::ColumnIndexOutOfBounds(index, len),
        SqlError::ColumnNotFound(c) => SqlErrorKind::ColumnNotFound(c),
        SqlError::ColumnDecode { .. } => SqlErrorKind::ColumnDecode,
        SqlError::Decode(_) => SqlErrorKind::Decode,
        SqlError::AnyDriverError(_) => SqlErrorKind::AnyDriverError,
        SqlError::PoolTimedOut => SqlErrorKind::PoolTimedOut, SqlError::PoolClosed => SqlErrorKind::PoolClosed,
        SqlError::WorkerCrashed => SqlErrorKind::WorkerCrashed, _ => SqlErrorKind::Other,
    }
}

/// What stripping the rendered frame of a missing-type failure leaves: the
/// bare name when both fixed pieces are present, the text unchanged
/// otherwise.
pub open spec fn spec_missing_type_name(s: Seq<char>) -> Seq<char> {
    let prefix = "type named "@;
    let suffix = " not found"@;
    if s.len() >= prefix.len() + suffix.len() && s.subrange(0, prefix.len() as int) == prefix
        && s.subrange(s.len() as int - suffix.len() as int, s.len() as int) == suffix {
        s.subrange(prefix.len() as int, s.len() as int - suffix.len() as int)
    } else {
        s
    }
}

/// Recover the bare type name from a missing-type failure's rendered text.
pub fn missing_type_name(text: &str) -> (r: String)
    ensures
        r@ == spec_missing_type_name(text@),
{
    proof {
        reveal_strlit("type named ");
        reveal_strlit(" not found");
    }
    let n = text.unicode_len();
    if n >= 21 {
        let prefix = text.substring_char(0, 11).to_owned();
        let suffix = text.substring_char(n - 10, n).to_owned();
        if prefix == "type named ".to_owned() && suffix == " not found".to_owned() {
            return text.substring_char(11, n - 10).to_owned();
        }
    }
    text.to_owned()
}

/// How each database-layer failure is classified; the missing-type variant's
/// payload is the bare name recovered from the rendered text.
pub open spec fn spec_classified(k: SqlErrorKind, r: QueryError) -> bool {
    match k {
        SqlErrorKind::RowNotFound => r == QueryError::NoResultFound,
        SqlErrorKind::ColumnNotFound(_) => r == QueryError::NoResultFound,
        SqlErrorKind::PoolClosed => r == QueryError::PoolProblem,
        SqlErrorKind::PoolTimedOut => r == QueryError::PoolProblem,
        SqlErrorKind::TypeNotFound(text) => (r matches QueryError::WrongType(name) && name@
            == spec_missing_type_name(text@)),
        SqlErrorKind::ColumnIndexOutOfBounds(index, len) => r == QueryError::ColumnIndexOutOfBounds(
            index,
            len,
        ),
        SqlErrorKind::Decode => r == QueryError::DecodingProblem,
        SqlErrorKind::Tls => r == QueryError::ConnectionProblem,
        SqlErrorKind::Database => r == QueryError::DataBaseError,
        SqlErrorKind::Io => r == QueryError::DataBaseError,
        SqlErrorKind::Protocol => r == QueryError::DataBaseError,
        _ => r == QueryError::OtherProblem,
    }
}

impl QueryError {
    /// Classify one database-layer failure variant.
    pub fn classify(kind: SqlErrorKind) -> (r: Self)
        ensures
            spec_classified(kind, r),
    {
        match kind {
            SqlErrorKind::RowNotFound | SqlErrorKind::ColumnNotFound(_) => QueryError::NoResultFound,
            SqlErrorKind::PoolClosed | SqlErrorKind::PoolTimedOut => QueryError::PoolProblem,
            SqlErrorKind::TypeNotFound(text) => QueryError::WrongType(
                missing_type_name(text.as_str()),
            ),
            SqlErrorKind::ColumnIndexOutOfBounds(index, len) => QueryError::ColumnIndexOutOfBounds(
                index,
                len,
            ),
            SqlErrorKind::Decode => QueryError::DecodingProblem,
            SqlErrorKind::Tls => QueryError::ConnectionProblem,
            SqlErrorKind::Database | SqlErrorKind::Io | SqlErrorKind::Protocol => QueryError::DataBaseError,
            _ => QueryError::OtherProblem,
        }
    }

    /// Fold a raw `sqlx` error into the taxonomy. Every result is the
    /// classification of some variant; in particular `WrongQueryFormat` is
    /// never produced here.
    pub fn match_sqlx_error(err: SqlError) -> (r: Self)
        ensures
            exists|k: SqlErrorKind| spec_classified(k, r),
            !(r is WrongQueryFormat),
    {
        let kind = sql_error_kind(err);
        let ghost k = kind;
        let r = Self::classify(kind);
        proof {
            assert(spec_classified(k, r));
        }
        r
    }
}

} // verus!
