//! Why an unlock did not produce a key.

use vstd::prelude::*;
use vstd::string::to_string_from_display_ensures;
use vstd::string::StringExecFns;

verus! {

/// The error domain of `LAError`.
pub const LOCAL_AUTHENTICATION_ERROR_DOMAIN: &'static str = "com.apple.LocalAuthentication";

/// The error domain of raw `OSStatus` codes.
pub const OS_STATUS_ERROR_DOMAIN: &'static str = "NSOSStatusErrorDomain";

/// Why no key came out of an unlock.
#[derive(Debug)]
pub enum UnlockError {
    /// The user dismissed the Touch ID prompt.
    Canceled,
    /// The user asked to type the master password instead.
    PasswordRequested,
    /// Touch ID could not be used; the text says why.
    Unavailable(String),
}

/// The mathematical counterpart of [`UnlockError`].
pub enum Reason {
    Canceled,
    PasswordRequested,
    Unavailable(Seq<char>),
}

impl Reason {
    /// The message shown for this reason.
    pub open spec fn message(self) -> Seq<char> {
        match self {
            Reason::Canceled => "Touch ID was canceled"@,
            Reason::PasswordRequested => "master password requested"@,
            Reason::Unavailable(text) => "Touch ID is unavailable: "@ + text,
        }
    }
}

impl View for UnlockError {
    type V = Reason;

    open spec fn view(&self) -> Reason {
        match self {
            UnlockError::Canceled => Reason::Canceled,
            UnlockError::PasswordRequested => Reason::PasswordRequested,
            UnlockError::Unavailable(text) => Reason::Unavailable(text@),
        }
    }
}

impl UnlockError {
    /// The message shown for this error.
    pub fn message(&self) -> (text: String)
        ensures
            text@ == self@.message(),
    {
        match self {
            UnlockError::Canceled => "Touch ID was canceled".to_owned(),
            UnlockError::PasswordRequested => "master password requested".to_owned(),
            UnlockError::Unavailable(text) => "Touch ID is unavailable: ".to_owned().concat(
                text.as_str(),
            ),
        }
    }
}

/// Turns any displayable failure into "Touch ID is unavailable", keeping its text.
///
/// For a `str` the relation in the contract is equality of the characters.
pub fn unavailable<T: std::fmt::Display + ?Sized>(error: &T) -> (reason: UnlockError)
    ensures
        reason matches UnlockError::Unavailable(text) && to_string_from_display_ensures::<T>(
            error,
            text,
        ),
{
    UnlockError::Unavailable(error.to_string())
}

/// The user dismissed the prompt: `LAError.userCancel`, or `errSecUserCanceled`.
pub open spec fn user_canceled(domain: Seq<char>, code: int) -> bool {
    ||| domain == LOCAL_AUTHENTICATION_ERROR_DOMAIN@ && code == -2
    ||| domain == OS_STATUS_ERROR_DOMAIN@ && code == -128
}

/// The user chose the password button: `LAError.userFallback`.
pub open spec fn user_chose_password(domain: Seq<char>, code: int) -> bool {
    domain == LOCAL_AUTHENTICATION_ERROR_DOMAIN@ && code == -3
}

/// What a failed authentication says about the user's intent.
pub open spec fn classified(domain: Seq<char>, code: int, description: Seq<char>) -> Reason {
    if user_canceled(domain, code) {
        Reason::Canceled
    } else if user_chose_password(domain, code) {
        Reason::PasswordRequested
    } else {
        Reason::Unavailable(description)
    }
}

fn same_text(a: &str, b: &str) -> (same: bool)
    ensures
        same == (a@ == b@),
{
    a.to_owned() == b.to_owned()
}

/// Reads the user's intent out of an authentication error.
///
/// The numbers overlap between the two domains. Only explicit user choices
/// suppress the master-password fallback; cancellation by the system or by the
/// application is an environmental failure and falls back.
pub fn classify_authentication_error(
    domain: &str,
    code: isize,
    description: String,
) -> (reason: UnlockError)
    ensures
        reason@ == classified(domain@, code as int, description@),
        reason is Canceled <==> {
            ||| domain@ == "com.apple.LocalAuthentication"@ && code == -2
            ||| domain@ == "NSOSStatusErrorDomain"@ && code == -128
        },
        reason is PasswordRequested <==> domain@ == "com.apple.LocalAuthentication"@ && code == -3,
        reason matches UnlockError::Unavailable(text) ==> text@ == description@,
{
    let local_authentication = same_text(domain, LOCAL_AUTHENTICATION_ERROR_DOMAIN);
    let os_status = same_text(domain, OS_STATUS_ERROR_DOMAIN);
    if (local_authentication && code == -2) || (os_status && code == -128) {
        UnlockError::Canceled
    } else if local_authentication && code == -3 {
        UnlockError::PasswordRequested
    } else {
        UnlockError::Unavailable(description)
    }
}

/// The two domains have different names, so no error belongs to both.
pub proof fn error_domains_differ()
    ensures
        LOCAL_AUTHENTICATION_ERROR_DOMAIN@ != OS_STATUS_ERROR_DOMAIN@,
{
    reveal_strlit("com.apple.LocalAuthentication");
    reveal_strlit("NSOSStatusErrorDomain");
    assert(LOCAL_AUTHENTICATION_ERROR_DOMAIN@[0] == 'c');
    assert(OS_STATUS_ERROR_DOMAIN@[0] == 'N');
}

/// The fallback to the master password is suppressed by nothing but the three
/// errors in which the user spoke, and every other error keeps its description.
pub proof fn only_user_choices_suppress_fallback(
    domain: Seq<char>,
    code: int,
    description: Seq<char>,
)
    ensures
        classified(domain, code, description) == Reason::Unavailable(description) <==> !({
            ||| domain == LOCAL_AUTHENTICATION_ERROR_DOMAIN@ && (code == -2 || code == -3)
            ||| domain == OS_STATUS_ERROR_DOMAIN@ && code == -128
        }),
        classified(domain, code, description) is Unavailable ==> classified(
            domain,
            code,
            description,
        ) == Reason::Unavailable(description),
{
}

/// A number is a user choice in at most one of the two domains.
pub proof fn error_numbers_belong_to_their_domain(code: int, description: Seq<char>)
    ensures
        classified(LOCAL_AUTHENTICATION_ERROR_DOMAIN@, code, description) is Unavailable
            || classified(OS_STATUS_ERROR_DOMAIN@, code, description) is Unavailable,
{
    error_domains_differ();
}

/// Of all errors, the user has canceled in two and asked for the password in one;
/// every other one says that Touch ID is unavailable, in its own words.
pub proof fn user_intent_is_read(domain: Seq<char>, code: int, description: Seq<char>)
    ensures
        classified(domain, code, description) == Reason::Canceled <==> {
            ||| domain == "com.apple.LocalAuthentication"@ && code == -2
            ||| domain == "NSOSStatusErrorDomain"@ && code == -128
        },
        classified(domain, code, description) == Reason::PasswordRequested <==> domain
            == "com.apple.LocalAuthentication"@ && code == -3,
        classified(domain, code, description) matches Reason::Unavailable(text) ==> text
            == description,
{
}

/// An error and what is said of it in the mathematics are the same thing.
pub proof fn reasons_are_faithful(error: UnlockError)
    ensures
        error is Canceled <==> error@ == Reason::Canceled,
        error is PasswordRequested <==> error@ == Reason::PasswordRequested,
        error matches UnlockError::Unavailable(text) ==> error@ == Reason::Unavailable(text@),
{
}

/// What is shown tells the reasons apart, and keeps the text of a failure whole.
pub proof fn messages_keep_the_reason(reason: Reason)
    ensures
        reason.message() == match reason {
            Reason::Canceled => "Touch ID was canceled"@,
            Reason::PasswordRequested => "master password requested"@,
            Reason::Unavailable(text) => "Touch ID is unavailable: "@ + text,
        },
        forall|other: Reason| #[trigger] other.message() == reason.message() ==> other == reason,
{
    reveal_strlit("Touch ID was canceled");
    reveal_strlit("master password requested");
    reveal_strlit("Touch ID is unavailable: ");
    let prefix = "Touch ID is unavailable: "@;
    assert forall|other: Reason| #[trigger] other.message() == reason.message() implies other
        == reason by {
        match (reason, other) {
            (Reason::Unavailable(a), Reason::Unavailable(b)) => {
                assert((prefix + a).skip(prefix.len() as int) =~= a);
                assert((prefix + b).skip(prefix.len() as int) =~= b);
            },
            (Reason::Unavailable(a), _) => {
                assert((prefix + a)[9] == 'i');
                assert("Touch ID was canceled"@[9] == 'w');
                assert((prefix + a)[0] == 'T');
                assert("master password requested"@[0] == 'm');
            },
            (_, Reason::Unavailable(b)) => {
                assert((prefix + b)[9] == 'i');
                assert("Touch ID was canceled"@[9] == 'w');
                assert((prefix + b)[0] == 'T');
                assert("master password requested"@[0] == 'm');
            },
            _ => {
                assert("Touch ID was canceled"@[0] == 'T');
                assert("master password requested"@[0] == 'm');
            },
        }
    }
}

} // verus!
