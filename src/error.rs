use vstd::prelude::*;

verus! {

/// ldap3's error type, carried through unchanged.
#[verifier::external_type_specification]
#[verifier::external_body]
pub struct ExLdapError(ldap3::LdapError);

/// sqlx's error type, carried through unchanged.
#[verifier::external_type_specification]
#[verifier::external_body]
pub struct ExSqlError(sqlx::Error);

/// mail-send's error type, carried through unchanged.
#[verifier::external_type_specification]
#[verifier::external_body]
pub struct ExSmtpError(mail_send::Error);

/// bb8's error of a pooled operation, read by its two public variants: an
/// error of the connection manager, or a timeout while waiting for a
/// connection.
#[verifier::external_type_specification]
#[verifier::reject_recursive_types(E)]
pub struct ExRunError<E>(bb8::RunError<E>);

/// Failure of an IMAP-backed directory.
#[derive(Debug)]
pub enum ImapError {
    Io(String),
    Timeout,
    InvalidResponse(String),
    InvalidChallenge(String),
    AuthenticationFailed,
    TLSInvalidName,
    Disconnected,
}

/// The one error space that every directory operation reports in.
#[derive(Debug)]
pub enum DirectoryError {
    Ldap(ldap3::LdapError),
    Sql(sqlx::Error),
    Imap(ImapError),
    Smtp(mail_send::Error),
    /// The pool produced no connection within its checkout timeout.
    TimedOut,
    /// The backend does not implement the operation.
    Unsupported,
}

pub type Result<T> = core::result::Result<T, DirectoryError>;

/// The structured record left behind each time an operation is refused as
/// unsupported.
#[derive(Debug)]
pub struct Diagnostic {
    pub context: String,
    pub event: String,
    pub protocol: String,
    pub method: String,
}

impl Diagnostic {
    /// This record reports that `method` is not supported by the backend
    /// speaking `protocol`.
    pub open spec fn reports_unsupported(&self, protocol: Seq<char>, method: Seq<char>) -> bool {
        &&& self.context@ == "remote"@
        &&& self.event@ == "error"@
        &&& self.protocol@ == protocol
        &&& self.method@ == method
    }
}

impl DirectoryError {
    /// The error a backend returns for an operation it does not implement.
    /// Exactly one diagnostic record naming the protocol and the method is
    /// appended to `log`.
    pub fn unsupported(protocol: &str, method: &str, log: &mut Vec<Diagnostic>) -> (r: Self)
        ensures
            r is Unsupported,
            final(log)@.len() == old(log)@.len() + 1,
            final(log)@.drop_last() == old(log)@,
            final(log)@.last().reports_unsupported(protocol@, method@),
    {
        let record = Diagnostic {
            context: "remote".to_owned(),
            event: "error".to_owned(),
            protocol: protocol.to_owned(),
            method: method.to_owned(),
        };
        proof {
            reveal_strlit("remote");
            reveal_strlit("error");
        }
        log.push(record);
        proof {
            assert(log@.drop_last() =~= old(log)@);
        }
        DirectoryError::Unsupported
    }
}

impl From<ldap3::LdapError> for DirectoryError {
    fn from(error: ldap3::LdapError) -> Self {
        DirectoryError::Ldap(error)
    }
}

impl vstd::std_specs::convert::FromSpecImpl<ldap3::LdapError> for DirectoryError {
    open spec fn obeys_from_spec() -> bool {
        true
    }

    open spec fn from_spec(v: ldap3::LdapError) -> Self {
        DirectoryError::Ldap(v)
    }
}

impl From<bb8::RunError<ldap3::LdapError>> for DirectoryError {
    fn from(error: bb8::RunError<ldap3::LdapError>) -> Self {
        match error {
            bb8::RunError::User(error) => DirectoryError::Ldap(error),
            bb8::RunError::TimedOut => DirectoryError::TimedOut,
        }
    }
}

impl vstd::std_specs::convert::FromSpecImpl<bb8::RunError<ldap3::LdapError>> for DirectoryError {
    open spec fn obeys_from_spec() -> bool {
        true
    }

    open spec fn from_spec(v: bb8::RunError<ldap3::LdapError>) -> Self {
        match v {
            bb8::RunError::User(error) => DirectoryError::Ldap(error),
            bb8::RunError::TimedOut => DirectoryError::TimedOut,
        }
    }
}

impl From<bb8::RunError<ImapError>> for DirectoryError {
    fn from(error: bb8::RunError<ImapError>) -> Self {
        match error {
            bb8::RunError::User(error) => DirectoryError::Imap(error),
            bb8::RunError::TimedOut => DirectoryError::TimedOut,
        }
    }
}

impl vstd::std_specs::convert::FromSpecImpl<bb8::RunError<ImapError>> for DirectoryError {
    open spec fn obeys_from_spec() -> bool {
        true
    }

    open spec fn from_spec(v: bb8::RunError<ImapError>) -> Self {
        match v {
            bb8::RunError::User(error) => DirectoryError::Imap(error),
            bb8::RunError::TimedOut => DirectoryError::TimedOut,
        }
    }
}

impl From<bb8::RunError<mail_send::Error>> for DirectoryError {
    fn from(error: bb8::RunError<mail_send::Error>) -> Self {
        match error {
            bb8::RunError::User(error) => DirectoryError::Smtp(error),
            bb8::RunError::TimedOut => DirectoryError::TimedOut,
        }
    }
}

impl vstd::std_specs::convert::FromSpecImpl<bb8::RunError<mail_send::Error>> for DirectoryError {
    open spec fn obeys_from_spec() -> bool {
        true
    }

    open spec fn from_spec(v: bb8::RunError<mail_send::Error>) -> Self {
        match v {
            bb8::RunError::User(error) => DirectoryError::Smtp(error),
            bb8::RunError::TimedOut => DirectoryError::TimedOut,
        }
    }
}

impl From<sqlx::Error> for DirectoryError {
    fn from(error: sqlx::Error) -> Self {
        DirectoryError::Sql(error)
    }
}

impl vstd::std_specs::convert::FromSpecImpl<sqlx::Error> for DirectoryError {
    open spec fn obeys_from_spec() -> bool {
        true
    }

    open spec fn from_spec(v: sqlx::Error) -> Self {
        DirectoryError::Sql(v)
    }
}

impl From<ImapError> for DirectoryError {
    fn from(error: ImapError) -> Self {
        DirectoryError::Imap(error)
    }
}

impl vstd::std_specs::convert::FromSpecImpl<ImapError> for DirectoryError {
    open spec fn obeys_from_spec() -> bool {
        true
    }

    open spec fn from_spec(v: ImapError) -> Self {
        DirectoryError::Imap(v)
    }
}

impl From<mail_send::Error> for DirectoryError {
    fn from(error: mail_send::Error) -> Self {
        DirectoryError::Smtp(error)
    }
}

impl vstd::std_specs::convert::FromSpecImpl<mail_send::Error> for DirectoryError {
    open spec fn obeys_from_spec() -> bool {
        true
    }

    open spec fn from_spec(v: mail_send::Error) -> Self {
        DirectoryError::Smtp(v)
    }
}

/// The error that `DirectoryError::from` makes of a pooled LDAP operation's.
pub open spec fn from_ldap_run(e: bb8::RunError<ldap3::LdapError>) -> DirectoryError {
    <DirectoryError as vstd::std_specs::convert::FromSpec<bb8::RunError<ldap3::LdapError>>>::from_spec(e)
}

/// The error that `DirectoryError::from` makes of a pooled IMAP operation's.
pub open spec fn from_imap_run(e: bb8::RunError<ImapError>) -> DirectoryError {
    <DirectoryError as vstd::std_specs::convert::FromSpec<bb8::RunError<ImapError>>>::from_spec(e)
}

/// The error that `DirectoryError::from` makes of a pooled SMTP operation's.
pub open spec fn from_smtp_run(e: bb8::RunError<mail_send::Error>) -> DirectoryError {
    <DirectoryError as vstd::std_specs::convert::FromSpec<bb8::RunError<mail_send::Error>>>::from_spec(e)
}

/// A pool that gave up waiting for a connection is reported as `TimedOut`,
/// and a failure of the backend itself is passed on unchanged as that
/// backend's error, never as `TimedOut`.
pub proof fn lemma_pool_timeout_kept_apart(
    l: bb8::RunError<ldap3::LdapError>,
    i: bb8::RunError<ImapError>,
    s: bb8::RunError<mail_send::Error>,
)
    ensures
        from_ldap_run(l) is TimedOut <==> l is TimedOut,
        from_imap_run(i) is TimedOut <==> i is TimedOut,
        from_smtp_run(s) is TimedOut <==> s is TimedOut,
        l matches bb8::RunError::User(e) ==> from_ldap_run(l) == DirectoryError::Ldap(e),
        i matches bb8::RunError::User(e) ==> from_imap_run(i) == DirectoryError::Imap(e),
        s matches bb8::RunError::User(e) ==> from_smtp_run(s) == DirectoryError::Smtp(e),
{
}

} // verus!

