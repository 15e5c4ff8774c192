//! The privilege context: whether commands run for the invoking user or, with
//! elevated privilege, on behalf of another login user, and the policy that a
//! user name must pass before it is placed in a command.

use crate::error::Failure;
use crate::error::ProcessError;
use vstd::prelude::*;
use vstd::string::*;

verus! {

broadcast use vstd::string::group_string_axioms;

/// The characters a login name may hold: ASCII letters, digits, `_` and `-`.
pub open spec fn is_username_char(c: char) -> bool {
    ||| 'a' <= c <= 'z'
    ||| 'A' <= c <= 'Z'
    ||| '0' <= c <= '9'
    ||| c == '_'
    ||| c == '-'
}

/// Every character of `s` is a username character.
pub open spec fn username_charset(s: Seq<char>) -> bool {
    forall|i: int| 0 <= i < s.len() ==> is_username_char(#[trigger] s[i])
}

/// The username policy: one to 32 characters, all of them username characters.
pub open spec fn valid_username(s: Seq<char>) -> bool {
    &&& 1 <= s.len() <= 32
    &&& username_charset(s)
}

/// What the policy makes of `raw`: the name itself where it is valid, else the
/// reason why it is refused. A foreign character is reported before a bad
/// length.
pub open spec fn checked_username(raw: Seq<char>) -> Result<Seq<char>, Failure> {
    if !username_charset(raw) {
        Err(Failure::Validation { message: "Invalid username format: "@ + raw })
    } else if raw.len() == 0 || raw.len() > 32 {
        Err(Failure::Validation { message: "Username length invalid: "@ + raw })
    } else {
        Ok(raw)
    }
}

/// A login name that passed the username policy. No other value of this type
/// exists, so a name taken from one is safe to place in a shell line.
#[derive(Debug, PartialEq, Eq)]
pub struct ValidatedUsername {
    name: String,
}

impl View for ValidatedUsername {
    type V = Seq<char>;

    closed spec fn view(&self) -> Seq<char> {
        self.name@
    }
}

impl ValidatedUsername {
    #[verifier::type_invariant]
    spec fn passed_policy(self) -> bool {
        valid_username(self.name@)
    }

    /// The name, which is valid.
    pub fn as_str(&self) -> (name: &str)
        ensures
            name@ == self@,
            valid_username(name@),
    {
        proof {
            use_type_invariant(self);
        }
        self.name.as_str()
    }
}

/// On whose behalf commands run.
#[derive(Debug, PartialEq, Eq)]
pub enum PrivilegeContext {
    /// As the invoking user.
    Direct,
    /// With elevated privilege, on behalf of the login user named.
    Elevated(ValidatedUsername),
}

/// The mathematical content of a [`PrivilegeContext`].
pub enum Context {
    Direct,
    Elevated(Seq<char>),
}

impl View for PrivilegeContext {
    type V = Context;

    open spec fn view(&self) -> Context {
        match self {
            PrivilegeContext::Direct => Context::Direct,
            PrivilegeContext::Elevated(user) => Context::Elevated(user@),
        }
    }
}

/// The context that an elevation signal stands for: `Direct` without one,
/// `Elevated` with a valid name, and a failure with any other name.
pub open spec fn resolved(signal: Option<Seq<char>>) -> Result<Context, Failure> {
    match signal {
        None => Ok(Context::Direct),
        Some(raw) => match checked_username(raw) {
            Ok(name) => Ok(Context::Elevated(name)),
            Err(e) => Err(e),
        },
    }
}

fn username_char(c: char) -> (ok: bool)
    ensures
        ok == is_username_char(c),
{
    (c >= 'a' && c <= 'z') || (c >= 'A' && c <= 'Z') || (c >= '0' && c <= '9') || c == '_' || c
        == '-'
}

fn all_username_chars(raw: &str) -> (ok: bool)
    ensures
        ok == username_charset(raw@),
{
    let mut ok = true;
    for c in it: raw.chars()
        invariant
            it.seq() == raw@,
            ok == username_charset(raw@.take(it.index() as int)),
    {
        proof {
            let n = it.index() as int;
            let head = raw@.take(n);
            let next = raw@.take(n + 1);
            assert(next[n] == c);
            assert forall|i: int| 0 <= i < n implies head[i] == next[i] by {}
            if !username_charset(head) {
                let j = choose|j: int| 0 <= j < n && !is_username_char(#[trigger] head[j]);
                assert(next[j] == head[j]);
            }
        }
        ok = ok && username_char(c);
    }
    proof {
        assert(raw@.take(raw@.len() as int) == raw@);
    }
    ok
}

/// Checks `raw` against the username policy and hands it back unchanged if it
/// passes. Nothing is trimmed, escaped or repaired: a name that does not pass
/// is refused.
pub fn validate_username(raw: &str) -> (r: Result<ValidatedUsername, ProcessError>)
    ensures
        match r {
            Ok(user) => checked_username(raw@) == Ok::<Seq<char>, Failure>(user@),
            Err(e) => checked_username(raw@) == Err::<Seq<char>, Failure>(e@),
        },
{
    if !all_username_chars(raw) {
        let message = "Invalid username format: ".to_string().concat(raw);
        return Err(ProcessError::Validation { message });
    }
    let length = raw.unicode_len();
    if length == 0 || length > 32 {
        let message = "Username length invalid: ".to_string().concat(raw);
        return Err(ProcessError::Validation { message });
    }
    Ok(ValidatedUsername { name: raw.to_string() })
}

/// Settles the privilege context from the elevation signal: the name of the
/// login user on whose behalf the process runs elevated, if there is one.
/// A signal with a name that breaks the policy is an error, never `Direct`.
pub fn resolve(signal: Option<&str>) -> (r: Result<PrivilegeContext, ProcessError>)
    ensures
        match r {
            Ok(ctx) => resolved(signal_text(signal)) == Ok::<Context, Failure>(ctx@),
            Err(e) => resolved(signal_text(signal)) == Err::<Context, Failure>(e@),
        },
{
    match signal {
        None => Ok(PrivilegeContext::Direct),
        Some(raw) => match validate_username(raw) {
            Ok(user) => Ok(PrivilegeContext::Elevated(user)),
            Err(e) => Err(e),
        },
    }
}

/// The characters of an optional string.
pub open spec fn signal_text(signal: Option<&str>) -> Option<Seq<char>> {
    match signal {
        Some(raw) => Some(raw@),
        None => None,
    }
}

/// The policy accepts exactly the names of one to 32 username characters,
/// and hands each of them back unchanged. Every other text is refused: the
/// empty one, one of more than 32 characters, and one that holds a character
/// outside the letters, digits, `_` and `-`.
pub proof fn law_username_policy(raw: Seq<char>)
    ensures
        valid_username(raw) ==> checked_username(raw) == Ok::<Seq<char>, Failure>(raw),
        !valid_username(raw) ==> (checked_username(raw) matches Err(e) && e is Validation),
        raw.len() == 0 ==> checked_username(raw) is Err,
        raw.len() > 32 ==> checked_username(raw) is Err,
        forall|i: int|
            0 <= i < raw.len() && !is_username_char(#[trigger] raw[i]) ==> checked_username(raw)
                is Err,
{
}

/// Without a signal the context is `Direct`; with a signal that names a valid
/// user it is `Elevated` with that very name; with any other signal there is
/// no context, and never a silent `Direct`.
pub proof fn law_resolved_context(name: Seq<char>)
    ensures
        resolved(None) == Ok::<Context, Failure>(Context::Direct),
        valid_username(name) ==> resolved(Some(name)) == Ok::<Context, Failure>(
            Context::Elevated(name),
        ),
        !valid_username(name) ==> (resolved(Some(name)) matches Err(e) && e is Validation),
{
}

} // verus!
