//! Login input checks and the per-account session directory name.
use vstd::prelude::*;
use vstd::string::*;

use crate::error::{InputProblem, SessionError};
use crate::text::{has_prefix, is_blank, trim, trimmed};

verus! {

/// What one character of an account name becomes in a directory name.
pub open spec fn sanitized_char(c: char) -> Seq<char> {
    if c == '@' {
        seq![]
    } else if c == ':' || c == '/' || c == '\\' {
        seq!['_']
    } else {
        seq![c]
    }
}

/// The directory name for an account: `@` dropped, and `:`, `/` and `\`
/// each turned into `_`.
pub open spec fn sanitized(s: Seq<char>) -> Seq<char>
    decreases s.len(),
{
    if s.len() == 0 {
        seq![]
    } else {
        sanitized(s.drop_last()) + sanitized_char(s.last())
    }
}

/// A filesystem-safe directory name for the account `user_id`.
pub fn sanitize_user_id(user_id: &str) -> (r: String)
    ensures
        r@ == sanitized(user_id@),
{
    let n = user_id.unicode_len();
    let mut out = String::new();
    let mut i: usize = 0;
    while i < n
        invariant
            n == user_id@.len(),
            i <= n,
            out@ == sanitized(user_id@.subrange(0, i as int)),
        decreases n - i,
    {
        let c = user_id.get_char(i);
        if c == '@' {
        } else if c == ':' || c == '/' || c == '\\' {
            proof { reveal_strlit("_"); }
            out.append("_");
        } else {
            out.append(user_id.substring_char(i, i + 1));
        }
        assert(user_id@.subrange(0, i + 1).drop_last() =~= user_id@.subrange(0, i as int));
        assert(out@ =~= sanitized(user_id@.subrange(0, i + 1)));
        i = i + 1;
    }
    assert(user_id@.subrange(0, n as int) =~= user_id@);
    out
}

} // verus!

verus! {

pub open spec fn http_prefix() -> Seq<char> {
    seq!['h', 't', 't', 'p', ':', '/', '/']
}

pub open spec fn https_prefix() -> Seq<char> {
    seq!['h', 't', 't', 'p', 's', ':', '/', '/']
}

/// Whether `url` starts with `http://` or `https://`.
pub open spec fn has_http_scheme(url: Seq<char>) -> bool {
    http_prefix().is_prefix_of(url) || https_prefix().is_prefix_of(url)
}

/// The fault in a set of login fields, if any. Missing fields are reported
/// before a missing scheme.
pub open spec fn login_input_problem(
    homeserver: Seq<char>,
    username: Seq<char>,
    password: Seq<char>,
) -> Option<InputProblem> {
    if is_blank(homeserver) || is_blank(username) || password.len() == 0 {
        Some(InputProblem::MissingField)
    } else if !has_http_scheme(homeserver) {
        Some(InputProblem::MissingScheme)
    } else {
        None
    }
}

/// What a login asks of the protocol engine and of the disk once its
/// input has been accepted.
pub struct LoginPlan {
    /// The homeserver URL, trimmed.
    pub homeserver: String,
    /// The user name, trimmed.
    pub username: String,
    pub password: String,
    /// Name of the account's session directory under the data root. Any
    /// directory of that name is removed before a fresh one is made.
    pub session_dir: String,
}

/// Checks the login fields and says what the login will use.
pub fn plan_login(homeserver: &str, username: &str, password: &str) -> (r: Result<
    LoginPlan,
    SessionError,
>)
    ensures
        match r {
            Ok(plan) => {
                &&& login_input_problem(homeserver@, username@, password@) is None
                &&& plan.homeserver@ == trim(homeserver@)
                &&& plan.username@ == trim(username@)
                &&& plan.password@ == password@
                &&& plan.session_dir@ == sanitized(username@)
            },
            Err(e) => login_input_problem(homeserver@, username@, password@) == Some(
                e->InvalidInput_0,
            ) && e is InvalidInput,
        },
{
    let h = trimmed(homeserver);
    let u = trimmed(username);
    if h.is_empty() || u.is_empty() || password.is_empty() {
        return Err(SessionError::InvalidInput(InputProblem::MissingField));
    }
    proof {
        reveal_strlit("http://");
        reveal_strlit("https://");
    }
    if !has_prefix(homeserver, "http://") && !has_prefix(homeserver, "https://") {
        return Err(SessionError::InvalidInput(InputProblem::MissingScheme));
    }
    Ok(
        LoginPlan {
            homeserver: h.to_owned(),
            username: u.to_owned(),
            password: password.to_owned(),
            session_dir: sanitize_user_id(username),
        },
    )
}

/// A refused recovery key: one that is blank.
pub fn check_recovery_key(recovery_key: &str) -> (r: Result<(), SessionError>)
    ensures
        r is Ok <==> !is_blank(recovery_key@),
        r matches Err(e) ==> e == SessionError::InvalidInput(InputProblem::MissingField),
{
    if trimmed(recovery_key).is_empty() {
        Err(SessionError::InvalidInput(InputProblem::MissingField))
    } else {
        Ok(())
    }
}

} // verus!

verus! {

/// A scheme-less homeserver URL is refused as invalid input, whatever the
/// other fields hold; so no login plan, and no session directory, comes of
/// it.
pub proof fn scheme_less_url_is_refused(homeserver: Seq<char>, username: Seq<char>, password: Seq<char>)
    requires
        !has_http_scheme(homeserver),
    ensures
        login_input_problem(homeserver, username, password) is Some,
{
}

/// The answer to a successful login.
pub struct LoginResponse {
    pub success: bool,
    pub user_id: String,
    pub device_id: String,
    pub message: String,
}

impl LoginResponse {
    pub fn logged_in(user_id: String, device_id: String) -> (r: LoginResponse)
        ensures
            r.success,
            r.user_id == user_id,
            r.device_id == device_id,
            r.message@ == "Login successful - encryption enabled"@,
    {
        LoginResponse {
            success: true,
            user_id,
            device_id,
            message: "Login successful - encryption enabled".to_owned(),
        }
    }
}

/// The result of a logout whose local state is already cleared, given how
/// the server-side logout and the removal of the session directory went.
/// A failed server-side logout is reported first: a session left valid on
/// the server is the graver fault.
pub fn logout_result(server: Result<(), String>, cleanup: Result<(), String>) -> (r: Result<
    (),
    SessionError,
>)
    ensures
        match (server, cleanup) {
            (Err(m), _) => r == Err::<(), SessionError>(SessionError::LogoutFailed(m)),
            (Ok(()), Err(m)) => r == Err::<(), SessionError>(SessionError::StorageFailed(m)),
            (Ok(()), Ok(())) => r is Ok,
        },
{
    match server {
        Err(m) => Err(SessionError::LogoutFailed(m)),
        Ok(()) => match cleanup {
            Err(m) => Err(SessionError::StorageFailed(m)),
            Ok(()) => Ok(()),
        },
    }
}

} // verus!
