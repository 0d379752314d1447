//! Logging in: the data of a login, the claims of a token, and reading the
//! token out of an authorization header.

use crate::api::responses::{ApiResponse, Payload};
use crate::utilities::text::{
    chars_of, integer_of, is_whitespace, char_is_whitespace, parse_integer, signed_decimal,
    signed_decimal_string, string_of,
};
use vstd::prelude::*;

verus! {

/// How long a token stays valid: one day, in seconds.
pub const TOKEN_LIFETIME: i64 = 86400;

#[derive(Debug)]
pub struct Claims {
    pub exp: usize,
    pub iat: usize,
    pub email: String,
    pub sub: String,
}

#[derive(Debug)]
pub struct LoginResult {
    pub token: String,
    pub status: u16,
    pub message: String,
}

#[derive(Debug)]
pub struct LogInData {
    pub email: String,
    pub password: String,
}

#[derive(Debug)]
pub struct NewUserResult {
    pub user_id: i64,
    pub email: String,
}

#[derive(Debug)]
pub struct NewUserData {
    pub username: String,
    pub password: String,
    pub email: String,
    pub full_name: String,
}

#[derive(Clone)]
pub struct CurrentUser {
    pub id: i64,
    pub email: String,
    pub full_name: String,
    pub password_hash: String,
}

/// True when a token issued at `now` can be given its two times.
pub open spec fn can_issue_at(now: int) -> bool {
    0 <= now && now + TOKEN_LIFETIME <= usize::MAX && now + TOKEN_LIFETIME <= i64::MAX
}

/// The claims of a token issued to `current_user` at `now`, in seconds since
/// the Unix epoch: it expires a day later, and its subject is the numeral of
/// the user's identifier. `None` where the times cannot be held.
pub fn claims_for(current_user: CurrentUser, now: i64) -> (r: Option<Claims>)
    ensures
        r is Some <==> can_issue_at(now as int),
        r matches Some(claims) ==> claims.iat == now && claims.exp == now + TOKEN_LIFETIME
            && claims.email == current_user.email && claims.sub@ == signed_decimal(
            current_user.id as int,
        ),
{
    if now < 0 || now > i64::MAX - TOKEN_LIFETIME {
        return None;
    }
    let expires: i64 = now + TOKEN_LIFETIME;
    if expires as u64 > usize::MAX as u64 {
        return None;
    }
    Some(
        Claims {
            exp: expires as usize,
            iat: now as usize,
            email: current_user.email,
            sub: signed_decimal_string(current_user.id),
        },
    )
}

/// The user that the claims of a token speak of: the identifier is read from
/// the subject, name and password hash are left empty. `None` where the
/// subject is no numeral.
pub fn user_of_claims(claims: Claims) -> (r: Option<CurrentUser>)
    ensures
        r is Some <==> integer_of(claims.sub@) is Some,
        r matches Some(user) ==> integer_of(claims.sub@) == Some(user.id as int) && user.email
            == claims.email && user.full_name@.len() == 0 && user.password_hash@.len() == 0,
{
    match parse_integer(claims.sub.as_str()) {
        Some(id) => Some(
            CurrentUser {
                id,
                email: claims.email,
                full_name: String::new(),
                password_hash: String::new(),
            },
        ),
        None => None,
    }
}

/// The index of the first character at or after `from` that is whitespace,
/// or the length of the text.
pub open spec fn word_end(text: Seq<char>, from: int) -> int
    decreases text.len() - from,
{
    if 0 <= from < text.len() && !is_whitespace(text[from]) {
        word_end(text, from + 1)
    } else {
        from
    }
}

/// The index of the first character at or after `from` that is no
/// whitespace, or the length of the text.
pub open spec fn word_start(text: Seq<char>, from: int) -> int
    decreases text.len() - from,
{
    if 0 <= from < text.len() && is_whitespace(text[from]) {
        word_start(text, from + 1)
    } else {
        from
    }
}

/// The second of the words of `header`, words being what whitespace
/// separates: in `Bearer abc` it is `abc`. `None` where there are fewer than
/// two words.
pub open spec fn second_word(header: Seq<char>) -> Option<Seq<char>> {
    let first = word_start(header, 0);
    let first_end = word_end(header, first);
    let second = word_start(header, first_end);
    let second_end = word_end(header, second);
    if second < header.len() {
        Some(header.subrange(second, second_end))
    } else {
        None
    }
}

proof fn lemma_word_bounds(text: Seq<char>, from: int)
    requires
        0 <= from <= text.len(),
    ensures
        from <= word_end(text, from) <= text.len(),
        from <= word_start(text, from) <= text.len(),
    decreases text.len() - from,
{
    if from < text.len() {
        lemma_word_bounds(text, from + 1);
    }
}

proof fn lemma_word_end_found(text: Seq<char>, from: int, end: int)
    requires
        0 <= from <= end <= text.len(),
        forall|i: int| from <= i < end ==> !is_whitespace(#[trigger] text[i]),
        end < text.len() ==> is_whitespace(text[end]),
    ensures
        word_end(text, from) == end,
    decreases end - from,
{
    if from < end {
        lemma_word_end_found(text, from + 1, end);
    }
}

proof fn lemma_word_start_found(text: Seq<char>, from: int, start: int)
    requires
        0 <= from <= start <= text.len(),
        forall|i: int| from <= i < start ==> is_whitespace(#[trigger] text[i]),
        start < text.len() ==> !is_whitespace(text[start]),
    ensures
        word_start(text, from) == start,
    decreases start - from,
{
    if from < start {
        lemma_word_start_found(text, from + 1, start);
    }
}

fn skip_whitespace(chars: &Vec<char>, from: usize) -> (at: usize)
    requires
        from <= chars.len(),
    ensures
        at == word_start(chars@, from as int),
        from <= at <= chars.len(),
{
    let mut i: usize = from;
    while i < chars.len() && char_is_whitespace(chars[i])
        invariant
            from <= i <= chars.len(),
            forall|k: int| from <= k < i ==> is_whitespace(#[trigger] chars@[k]),
        decreases chars.len() - i,
    {
        i += 1;
    }
    proof {
        lemma_word_start_found(chars@, from as int, i as int);
    }
    i
}

fn skip_word(chars: &Vec<char>, from: usize) -> (at: usize)
    requires
        from <= chars.len(),
    ensures
        at == word_end(chars@, from as int),
        from <= at <= chars.len(),
{
    let mut i: usize = from;
    while i < chars.len() && !char_is_whitespace(chars[i])
        invariant
            from <= i <= chars.len(),
            forall|k: int| from <= k < i ==> !is_whitespace(#[trigger] chars@[k]),
        decreases chars.len() - i,
    {
        i += 1;
    }
    proof {
        lemma_word_end_found(chars@, from as int, i as int);
    }
    i
}

/// The token of an authorization header: its second word, whatever its first
/// word is.
pub fn token_of_header(header: &str) -> (r: Option<String>)
    ensures
        match r {
            Some(token) => second_word(header@) == Some(token@),
            None => second_word(header@) is None,
        },
{
    let chars = chars_of(header);
    let first = skip_whitespace(&chars, 0);
    let first_end = skip_word(&chars, first);
    let second = skip_whitespace(&chars, first_end);
    let second_end = skip_word(&chars, second);
    if second < chars.len() {
        Some(string_of(&chars, second, second_end))
    } else {
        None
    }
}

/// How the transaction of a registration ended.
pub enum Registration {
    /// The user was stored.
    Created(NewUserResult),
    /// The transaction was rolled back: the email is taken, or the user
    /// could not be stored.
    RolledBack,
    /// The transaction itself failed.
    Failed,
}

/// The answer to a registration.
pub fn registration_answer(outcome: Registration) -> (r: ApiResponse<NewUserResult>)
    ensures
        match outcome {
            Registration::Created(user) => r == ApiResponse::Created(Payload { data: user }),
            Registration::RolledBack => r matches ApiResponse::BadRequest(reasons)
                && reasons@.len() == 1 && reasons@[0]@ == "User already exists"@,
            Registration::Failed => r matches ApiResponse::Error(message) && message@
                == "Failed to create user"@,
        },
{
    match outcome {
        Registration::Created(user) => ApiResponse::Created(Payload { data: user }),
        Registration::RolledBack => {
            let mut reasons: Vec<String> = Vec::new();
            reasons.push("User already exists".to_owned());
            ApiResponse::BadRequest(reasons)
        },
        Registration::Failed => ApiResponse::Error("Failed to create user".to_owned()),
    }
}

/// The text of the answer to a login that succeeded.
pub open spec fn login_message() -> Seq<char> {
    "Login successful"@
}

/// The answer to a login whose password was checked: `None` where the
/// password is right and the login goes on, and otherwise the answer that
/// ends it. `verified` is `None` where the check itself failed.
pub fn password_answer(verified: Option<bool>) -> (r: Option<ApiResponse<LoginResult>>)
    ensures
        match verified {
            Some(true) => r is None,
            Some(false) => r matches Some(ApiResponse::Unauthorized(message)) && message@
                == "invalid Credentials"@,
            None => r matches Some(ApiResponse::Error(message)) && message@
                == "Failed to verify password"@,
        },
{
    match verified {
        Some(true) => None,
        Some(false) => Some(ApiResponse::Unauthorized("invalid Credentials".to_owned())),
        None => Some(ApiResponse::Error("Failed to verify password".to_owned())),
    }
}

/// The answer to a login for which a token was made, or could not be made.
pub fn login_answer(token: Option<String>) -> (r: ApiResponse<LoginResult>)
    ensures
        match token {
            Some(token) => r matches ApiResponse::JsonData(payload) && payload.data.token == token
                && payload.data.status == 200 && payload.data.message@ == login_message(),
            None => r matches ApiResponse::Error(message) && message@ == "Failed to create token"@,
        },
{
    match token {
        Some(token) => ApiResponse::JsonData(
            Payload {
                data: LoginResult { token, status: 200, message: "Login successful".to_owned() },
            },
        ),
        None => ApiResponse::Error("Failed to create token".to_owned()),
    }
}

} // verus!
