//! Choosing the credentials to sign in with.
//!
//! A credential set comes from a username and password given by the
//! operator, from the credential cache, or from a password typed at a
//! prompt. The choice among them is made here; asking the question is left
//! to the caller.

use crate::text::text_view;
use vstd::prelude::*;
use vstd::string::StrSliceExecFns;

verus! {

/// How the bytes of a credential set are to be understood by the service.
#[derive(Clone, Copy, Debug, PartialEq, Eq, Structural)]
pub enum AuthenticationType {
    UserPass,
    StoredSpotifyCredentials,
    StoredFacebookCredentials,
    SpotifyToken,
    FacebookToken,
}

/// A username with the data that authenticates it.
#[derive(Debug)]
pub struct Credentials {
    pub username: String,
    pub auth_type: AuthenticationType,
    pub auth_data: Vec<u8>,
}

/// What a credential set holds.
pub struct CredentialsView {
    pub username: Seq<char>,
    pub auth_type: AuthenticationType,
    pub auth_data: Seq<u8>,
}

impl View for Credentials {
    type V = CredentialsView;

    open spec fn view(&self) -> CredentialsView {
        CredentialsView {
            username: self.username@,
            auth_type: self.auth_type,
            auth_data: self.auth_data@,
        }
    }
}

/// What an optional credential set holds.
pub open spec fn credentials_view(c: Option<Credentials>) -> Option<CredentialsView> {
    match c {
        Some(c) => Some(c@),
        None => None,
    }
}

/// The credential set made of a username and a password: the password's
/// bytes, to be checked as a password.
pub open spec fn password_credentials(username: Seq<char>, password: Seq<char>) -> CredentialsView {
    CredentialsView {
        username,
        auth_type: AuthenticationType::UserPass,
        auth_data: vstd::utf8::encode_utf8(password),
    }
}

/// Whether the password has to be asked for: a username is given, no
/// password, and the cache holds nothing for that username.
pub open spec fn prompt_needed(
    username: Option<Seq<char>>,
    password: Option<Seq<char>>,
    cached: Option<CredentialsView>,
) -> bool {
    username is Some && password is None && !(cached is Some && cached->0.username
        == username->0)
}

/// The credentials that the given values resolve to, where `answer` is
/// what the prompt gave; it is read only where the prompt is needed.
pub open spec fn resolved_credentials(
    username: Option<Seq<char>>,
    password: Option<Seq<char>>,
    cached: Option<CredentialsView>,
    answer: Option<Seq<char>>,
) -> Option<CredentialsView> {
    match username {
        None => cached,
        Some(u) => match password {
            Some(p) => Some(password_credentials(u, p)),
            None => if prompt_needed(username, password, cached) {
                match answer {
                    Some(p) => Some(password_credentials(u, p)),
                    None => None,
                }
            } else {
                cached
            },
        },
    }
}

/// With a username and a password the result is made of those two: the
/// prompt is not needed, and neither the cache nor an answer changes it.
pub proof fn law_explicit_password_wins(
    username: Seq<char>,
    password: Seq<char>,
    cached: Option<CredentialsView>,
    answer: Option<Seq<char>>,
)
    ensures
        !prompt_needed(Some(username), Some(password), cached),
        resolved_credentials(Some(username), Some(password), cached, answer) == Some(
            password_credentials(username, password),
        ),
{
}

/// With a username alone and a cache entry for another username the prompt
/// is needed and its answer decides: the cached entry is not reused.
pub proof fn law_mismatched_cache_prompts(
    username: Seq<char>,
    cached: CredentialsView,
    answer: Option<Seq<char>>,
)
    requires
        cached.username != username,
    ensures
        prompt_needed(Some(username), None, Some(cached)),
        resolved_credentials(Some(username), None, Some(cached), answer) == match answer {
            Some(p) => Some(password_credentials(username, p)),
            None => None,
        },
{
}

/// With a username alone and a cache entry for that username the cached
/// entry is reused and the prompt is not needed; without a username the
/// cache is returned as it is.
pub proof fn law_cache_reused(
    username: Option<Seq<char>>,
    cached: Option<CredentialsView>,
    answer: Option<Seq<char>>,
)
    requires
        username is Some ==> cached is Some && cached->0.username == username->0,
    ensures
        !prompt_needed(username, None, cached),
        resolved_credentials(username, None, cached, answer) == cached,
{
}

impl Credentials {
    /// Credentials of a username and its password.
    pub fn with_password(username: String, password: String) -> (c: Credentials)
        ensures
            c@ == password_credentials(username@, password@),
    {
        let auth_data = password.as_str().as_bytes_vec();
        Credentials { username, auth_type: AuthenticationType::UserPass, auth_data }
    }

    /// A copy of these credentials.
    pub fn duplicate(&self) -> (c: Credentials)
        ensures
            c@ == self@,
    {
        Credentials {
            username: self.username.clone(),
            auth_type: self.auth_type,
            auth_data: self.auth_data.clone(),
        }
    }
}

/// Whether resolving these values needs a password from the prompt.
pub fn needs_prompt(
    username: &Option<String>,
    password: &Option<String>,
    cached: &Option<Credentials>,
) -> (ask: bool)
    ensures
        ask == prompt_needed(text_view(*username), text_view(*password), credentials_view(*cached)),
{
    match username {
        None => false,
        Some(u) => match password {
            Some(_) => false,
            None => match cached {
                Some(c) => !(*u == c.username),
                None => true,
            },
        },
    }
}

/// The credentials made of a username and what the prompt gave: none where
/// it gave nothing.
pub fn credentials_from_answer(username: String, answer: Option<String>) -> (c: Option<
    Credentials,
>)
    ensures
        credentials_view(c) == match answer {
            Some(p) => Some(password_credentials(username@, p@)),
            None => None,
        },
{
    match answer {
        Some(password) => Some(Credentials::with_password(username, password)),
        None => None,
    }
}

/// Resolves the credentials to sign in with.
///
/// With a username and a password, those are used and the cache is not
/// looked at. With a username alone, the cached credentials are reused if
/// they are for that username; otherwise `prompt` is asked for the
/// password, and nothing is returned if it gives none. Without a username
/// the cached credentials are returned as they are.
pub fn get_credentials<F: FnOnce(&String) -> Option<String>>(
    username: Option<String>,
    password: Option<String>,
    cached_credentials: Option<Credentials>,
    prompt: F,
) -> (c: Option<Credentials>)
    requires
        username is Some ==> call_requires(prompt, (&username->0,)),
    ensures
        !prompt_needed(text_view(username), text_view(password), credentials_view(cached_credentials))
            ==> credentials_view(c) == resolved_credentials(
            text_view(username),
            text_view(password),
            credentials_view(cached_credentials),
            None,
        ),
        prompt_needed(text_view(username), text_view(password), credentials_view(cached_credentials))
            ==> exists|answer: Option<String>|
            #[trigger] call_ensures(prompt, (&username->0,), answer) && credentials_view(c)
                == resolved_credentials(
                text_view(username),
                text_view(password),
                credentials_view(cached_credentials),
                text_view(answer),
            ),
{
    if needs_prompt(&username, &password, &cached_credentials) {
        match username {
            Some(u) => {
                let answer = prompt(&u);
                let ghost given = answer;
                let c = credentials_from_answer(u, answer);
                assert(call_ensures(prompt, (&u,), given));
                assert(credentials_view(c) == resolved_credentials(
                    text_view(username),
                    text_view(password),
                    credentials_view(cached_credentials),
                    text_view(given),
                ));
                c
            },
            None => None,
        }
    } else {
        match username {
            Some(u) => match password {
                Some(p) => Some(Credentials::with_password(u, p)),
                None => cached_credentials,
            },
            None => cached_credentials,
        }
    }
}

} // verus!
