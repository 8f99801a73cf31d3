//! What the operator supplies: the access credential, the repository
//! identifier, and the identifier of the remote grade endpoint.

use vstd::prelude::*;
use vstd::string::*;

verus! {

/// Why the operator's input was refused.
#[derive(Clone, Copy, Debug, PartialEq, Eq, Structural)]
pub enum InputError {
    /// Neither the flag nor the environment gave a credential.
    MissingCredential,
    /// The repository identifier holds no `/`.
    MalformedRepository,
}

/// The identifier of the grade endpoint that is used where none is
/// configured.
pub open spec fn default_endpoint_id() -> Seq<char> {
    "uxrrr-q7777-77774-qaaaq-cai"@
}

/// `i` is the place of the first `/` in `s`.
pub open spec fn is_first_slash(s: Seq<char>, i: int) -> bool {
    &&& 0 <= i < s.len()
    &&& s[i] == '/'
    &&& forall|j: int| 0 <= j < i ==> s[j] != '/'
}

/// The credential: the one given by flag, else the one of the environment.
/// With neither, the input is refused.
pub fn resolve_credential(flag: Option<String>, environment: Option<String>) -> (r: Result<
    String,
    InputError,
>)
    ensures
        flag.is_some() ==> r == Ok::<String, InputError>(flag.unwrap()),
        flag.is_none() && environment.is_some() ==> r == Ok::<String, InputError>(
            environment.unwrap(),
        ),
        flag.is_none() && environment.is_none() ==> r == Err::<String, InputError>(
            InputError::MissingCredential,
        ),
{
    match flag {
        Some(token) => Ok(token),
        None => match environment {
            Some(token) => Ok(token),
            None => Err(InputError::MissingCredential),
        },
    }
}

/// The identifier of the grade endpoint: the configured one, else the
/// default.
pub fn endpoint_id(configured: Option<String>) -> (id: String)
    ensures
        configured.is_some() ==> id == configured.unwrap(),
        configured.is_none() ==> id@ == default_endpoint_id(),
{
    match configured {
        Some(id) => id,
        None => String::from_str("uxrrr-q7777-77774-qaaaq-cai"),
    }
}

/// Splits `owner/repository` at its first `/` into the owner and the
/// repository's name. An identifier without `/` is refused.
pub fn split_repository(repository: &str) -> (r: Result<(String, String), InputError>)
    ensures
        match r {
            Ok((owner, name)) => exists|i: int|
                {
                    &&& is_first_slash(repository@, i)
                    &&& owner@ == repository@.subrange(0, i)
                    &&& name@ == repository@.subrange(i + 1, repository@.len() as int)
                },
            Err(e) => e == InputError::MalformedRepository && forall|j: int|
                0 <= j < repository@.len() ==> repository@[j] != '/',
        },
{
    let n: usize = repository.unicode_len();
    let mut i: usize = 0;
    while i < n
        invariant
            n == repository@.len(),
            i <= n,
            forall|j: int| 0 <= j < i ==> repository@[j] != '/',
        decreases n - i,
    {
        if repository.get_char(i) == '/' {
            let owner = String::from_str(repository.substring_char(0, i));
            let name = String::from_str(repository.substring_char(i + 1, n));
            assert(is_first_slash(repository@, i as int));
            return Ok((owner, name));
        }
        i = i + 1;
    }
    Err(InputError::MalformedRepository)
}

} // verus!
