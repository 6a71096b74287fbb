use vstd::prelude::*;

use super::decimal::{
    digit_char, int_to_decimal, lemma_parse_decimal_round_trip, parse_i32, parse_i32_text,
    parse_int_error_debug, push_decimal_digits, push_int_decimal, push_parse_int_error_debug,
};
use super::user::{Email, Password, User, UserModel};

verus! {

//  ──────────────────────────────── User store ────────────────────────────────

/// Why a user store refused a request.
#[derive(Debug, PartialEq, Eq, Structural)]
pub enum UserStoreError {
    UserAlreadyExists,
    UserNotFound,
    InvalidCredentials,
    UnexpectedError,
}

/// Adding `user` to `users`: refused with `UserAlreadyExists`, and nothing
/// changed, when its address is taken; otherwise filed under its address.
pub open spec fn user_store_add(users: Map<Seq<char>, UserModel>, user: UserModel) -> (Map<
    Seq<char>,
    UserModel,
>, Result<(), UserStoreError>) {
    if users.contains_key(user.email) {
        (users, Err(UserStoreError::UserAlreadyExists))
    } else {
        (users.insert(user.email, user), Ok(()))
    }
}

/// Looking up the user filed under `email`.
pub open spec fn user_store_get(users: Map<Seq<char>, UserModel>, email: Seq<char>) -> Result<
    UserModel,
    UserStoreError,
> {
    if users.contains_key(email) {
        Ok(users[email])
    } else {
        Err(UserStoreError::UserNotFound)
    }
}

/// Checking a log-in: `UserNotFound` for an unknown address,
/// `InvalidCredentials` when the user filed there does not have this
/// address and password, `Ok` otherwise.
pub open spec fn user_store_validate(
    users: Map<Seq<char>, UserModel>,
    email: Seq<char>,
    password: Seq<char>,
) -> Result<(), UserStoreError> {
    if !users.contains_key(email) {
        Err(UserStoreError::UserNotFound)
    } else if !(users[email].email == email && users[email].password == password) {
        Err(UserStoreError::InvalidCredentials)
    } else {
        Ok(())
    }
}

/// A store of users, one per e-mail address.
pub trait UserStore {
    /// The users, by e-mail address.
    spec fn users(&self) -> Map<Seq<char>, UserModel>;

    /// The store's internal invariant.
    spec fn well_formed(&self) -> bool;

    /// Adds a user whose address is not yet taken; otherwise refuses with
    /// `UserAlreadyExists` and changes nothing.
    fn add_user(&mut self, user: User) -> (r: Result<(), UserStoreError>)
        requires
            old(self).well_formed(),
        ensures
            final(self).well_formed(),
            (final(self).users(), r) == user_store_add(old(self).users(), user@),
    ;

    /// The user with this address, or `UserNotFound`.
    fn get_user(&self, email: &Email) -> (r: Result<User, UserStoreError>)
        requires
            self.well_formed(),
        ensures
            match r {
                Ok(u) => user_store_get(self.users(), email@) == Ok::<UserModel, UserStoreError>(u@),
                Err(e) => user_store_get(self.users(), email@) == Err::<UserModel, UserStoreError>(e),
            },
    ;

    /// Checks a log-in: `UserNotFound` for an unknown address,
    /// `InvalidCredentials` when the stored user does not match the address
    /// and password, `Ok` otherwise.
    fn validate_user(&self, email: &Email, password: &Password) -> (r: Result<(), UserStoreError>)
        requires
            self.well_formed(),
        ensures
            r == user_store_validate(self.users(), email@, password@),
    ;
}

//  ──────────────────────────── Banned token store ────────────────────────────

/// Why the banned-token store refused a request.
#[derive(Debug, PartialEq, Eq, Structural)]
pub enum TokenStoreError {
    UnexpectedError,
}

/// A set of tokens that may no longer be used.
pub trait BannedTokenStore {
    /// The banned tokens.
    spec fn tokens(&self) -> Set<Seq<char>>;

    /// The store's internal invariant.
    spec fn well_formed(&self) -> bool;

    /// Bans a token; banning always succeeds and keeps every earlier ban.
    fn ban(&mut self, token: &str) -> (r: Result<(), TokenStoreError>)
        requires
            old(self).well_formed(),
        ensures
            final(self).well_formed(),
            r is Ok,
            final(self).tokens() == old(self).tokens().insert(token@),
    ;

    /// Whether the token is banned.
    fn is_banned(&self, token: &str) -> (r: Result<bool, TokenStoreError>)
        requires
            self.well_formed(),
        ensures
            r == Ok::<bool, TokenStoreError>(self.tokens().contains(token@)),
    ;
}

//  ────────────────────────────── 2FA code store ──────────────────────────────

/// Why the 2FA code store refused a request.
#[derive(Debug, PartialEq, Eq, Structural)]
pub enum TwoFACodeStoreError {
    LoginAttemptIdNotFound,
    UnexpectedError,
}

/// What `uuid::Uuid::parse_str` gives for a text: the UUID as a `u128`, or
/// the `Debug` text of its error.
pub uninterp spec fn uuid_parse_str(input: Seq<char>) -> Result<u128, Seq<char>>;

/// The lower-case hexadecimal digit of value `d` (0 to 15).
pub open spec fn hex_char(d: int) -> char {
    if d < 10 {
        digit_char(d)
    } else if d == 10 {
        'a'
    } else if d == 11 {
        'b'
    } else if d == 12 {
        'c'
    } else if d == 13 {
        'd'
    } else if d == 14 {
        'e'
    } else {
        'f'
    }
}

/// Sixteen to the power `n`.
pub open spec fn pow16(n: nat) -> int
    decreases n,
{
    if n == 0 {
        1
    } else {
        16 * pow16((n - 1) as nat)
    }
}

/// The `i`-th of the 32 hexadecimal digits of `id`, most significant first.
pub open spec fn uuid_nibble(id: u128, i: int) -> int {
    (id as int / pow16((31 - i) as nat)) % 16
}

/// The text that `uuid::Uuid`'s `Display` writes: the 32 lower-case
/// hexadecimal digits of the 128 bits, most significant first, with a
/// hyphen after the 8th, 12th, 16th and 20th digit.
pub open spec fn uuid_text(id: u128) -> Seq<char> {
    Seq::new(
        36,
        |j: int|
            if j == 8 || j == 13 || j == 18 || j == 23 {
                '-'
            } else {
                let i = if j < 8 {
                    j
                } else if j < 13 {
                    j - 1
                } else if j < 18 {
                    j - 2
                } else if j < 23 {
                    j - 3
                } else {
                    j - 4
                };
                hex_char(uuid_nibble(id, i))
            },
    )
}

/// Whether a parse result is the UUID `id`.
pub open spec fn reads_back_as(parsed: Result<u128, Seq<char>>, id: u128) -> bool {
    parsed == Ok::<u128, Seq<char>>(id)
}

/// Calls `uuid::Uuid::parse_str`; the contract says only that the result
/// is the named one (a UUID as `u128`, or the `Debug` text of the error).
#[verifier::external_body]
fn parse_uuid(input: &str) -> (r: Result<u128, String>)
    ensures
        match r {
            Ok(v) => uuid_parse_str(input@) matches Ok(w) && w == v,
            Err(m) => uuid_parse_str(input@) matches Err(e) && e == m@,
        },
{
    match uuid::Uuid::parse_str(input) {
        Ok(id) => Ok(id.as_u128()),
        Err(e) => Err(format!("{e:?}")),
    }
}

/// Calls `uuid::Uuid::new_v4`. Every outcome is a version-4 UUID of the
/// RFC 4122 variant: the version nibble is 4 and the two variant bits are
/// `10`, as the crate sets them; the other bits are random.
#[verifier::external_body]
fn random_uuid_v4() -> (id: u128)
    ensures
        (id >> 76u128) & 0xfu128 == 4,
        (id >> 62u128) & 0x3u128 == 2,
{
    uuid::Uuid::new_v4().as_u128()
}

/// Writes a UUID with `Display` (`to_string`): its hyphenated lower-case
/// hexadecimal text, which `Uuid::parse_str` reads back as the same UUID
/// (the crate parses the hyphenated form it writes).
#[verifier::external_body]
fn uuid_to_text(id: u128) -> (text: String)
    ensures
        text@ == uuid_text(id),
        reads_back_as(uuid_parse_str(text@), id),
{
    uuid::Uuid::from_u128(id).to_string()
}

/// The identifier of one log-in attempt that waits for its second factor.
#[derive(Debug, Clone, PartialEq, Eq)]
pub struct LoginAttemptId(u128);

impl View for LoginAttemptId {
    type V = u128;

    closed spec fn view(&self) -> u128 {
        self.0
    }
}

impl LoginAttemptId {
    /// Reads an identifier with `Uuid::parse_str`; on failure the error is
    /// the `Debug` text of the UUID error.
    pub fn parse(id: String) -> (r: Result<LoginAttemptId, String>)
        ensures
            match r {
                Ok(a) => uuid_parse_str(id@) == Ok::<u128, Seq<char>>(a@),
                Err(m) => uuid_parse_str(id@) == Err::<u128, Seq<char>>(m@),
            },
    {
        let parsed = parse_uuid(id.as_str());
        Self::from_parsed(parsed)
    }

    /// Turns what the UUID parser gave into an identifier or its error text.
    pub fn from_parsed(parsed: Result<u128, String>) -> (r: Result<LoginAttemptId, String>)
        ensures
            match (r, parsed) {
                (Ok(a), Ok(v)) => a@ == v,
                (Err(m), Err(e)) => m@ == e@,
                _ => false,
            },
    {
        match parsed {
            Ok(v) => Ok(LoginAttemptId(v)),
            Err(e) => Err(e),
        }
    }

    /// Builds an identifier from the 128 bits of a UUID.
    pub fn from_u128(id: u128) -> (r: LoginAttemptId)
        ensures
            r@ == id,
    {
        LoginAttemptId(id)
    }

    /// The 128 bits of the UUID.
    pub fn as_u128(&self) -> (v: u128)
        ensures
            v == self@,
    {
        self.0
    }

    /// The hyphenated text of the UUID, which `parse` reads back as this
    /// identifier.
    pub fn to_string(&self) -> (s: String)
        ensures
            s@ == uuid_text(self@),
            uuid_parse_str(s@) == Ok::<u128, Seq<char>>(self@),
    {
        uuid_to_text(self.0)
    }

    /// Whether two identifiers are the same.
    pub fn same_as(&self, other: &LoginAttemptId) -> (b: bool)
        ensures
            b == (self@ == other@),
    {
        self.0 == other.0
    }

    /// A copy of the identifier.
    pub fn duplicate(&self) -> (r: LoginAttemptId)
        ensures
            r@ == self@,
    {
        LoginAttemptId(self.0)
    }
}

impl Default for LoginAttemptId {
    /// A fresh random version-4 UUID.
    fn default() -> (r: LoginAttemptId)
        ensures
            (r@ >> 76u128) & 0xfu128 == 4,
            (r@ >> 62u128) & 0x3u128 == 2,
    {
        LoginAttemptId(random_uuid_v4())
    }
}

/// The least accepted 2FA code.
pub const TWO_FA_CODE_MIN: i32 = 100000;

/// The greatest accepted 2FA code.
pub const TWO_FA_CODE_MAX: i32 = 999999;

/// Whether a text is an accepted 2FA code: it reads as an `i32` in
/// 100000..=999999.
pub open spec fn is_valid_two_fa_code(s: Seq<char>) -> bool {
    parse_i32(s) matches Ok(n) && TWO_FA_CODE_MIN <= n <= TWO_FA_CODE_MAX
}

/// Calls `rand::random_range(100000..=999999)`. Every outcome lies in the
/// range; which one comes is random.
#[verifier::external_body]
fn random_two_fa_number() -> (n: u32)
    ensures
        TWO_FA_CODE_MIN <= n <= TWO_FA_CODE_MAX,
{
    rand::random_range(100000u32..=999999u32)
}

/// A six-digit second-factor code, kept as the text the user types.
#[derive(Clone, Debug, PartialEq, Eq)]
pub struct TwoFACode(String);

impl View for TwoFACode {
    type V = Seq<char>;

    closed spec fn view(&self) -> Seq<char> {
        self.0@
    }
}

impl TwoFACode {
    /// Accepts a code that reads as an `i32` in 100000..=999999. Otherwise
    /// the error is `Bad 2FA code {n}` for a number out of range and
    /// `Cannot parse 2FA code {e:?}` for a text that is no `i32`.
    pub fn parse(code: String) -> (r: Result<TwoFACode, String>)
        ensures
            match r {
                Ok(c) => is_valid_two_fa_code(code@) && c@ == code@,
                Err(m) => !is_valid_two_fa_code(code@) && match parse_i32(code@) {
                    Ok(n) => m@ == "Bad 2FA code "@ + int_to_decimal(n),
                    Err(k) => m@ == "Cannot parse 2FA code "@ + parse_int_error_debug(k),
                },
            },
    {
        let code_num = parse_i32_text(code.as_str());
        match code_num {
            Ok(n) => {
                if n >= TWO_FA_CODE_MIN && n <= TWO_FA_CODE_MAX {
                    Ok(TwoFACode(code))
                } else {
                    let mut m = String::from_str("Bad 2FA code ");
                    push_int_decimal(&mut m, n as i64);
                    Err(m)
                }
            },
            Err(k) => {
                let mut m = String::from_str("Cannot parse 2FA code ");
                push_parse_int_error_debug(&mut m, k);
                Err(m)
            },
        }
    }

    /// The code as text.
    pub fn as_str(&self) -> (s: &str)
        ensures
            s@ == self@,
    {
        self.0.as_str()
    }

    /// Whether two codes are the same text.
    pub fn same_as(&self, other: &TwoFACode) -> (b: bool)
        ensures
            b == (self@ == other@),
    {
        self.0 == other.0
    }

    /// A copy of the code.
    pub fn duplicate(&self) -> (r: TwoFACode)
        ensures
            r@ == self@,
    {
        TwoFACode(self.0.clone())
    }
}

impl TwoFACode {
    /// The code written for a drawn number: its decimal text
    /// (`n.to_string()`).
    pub fn from_number(n: u32) -> (r: TwoFACode)
        ensures
            r@ == int_to_decimal(n as int),
    {
        let mut s = String::new();
        push_decimal_digits(&mut s, n as u64);
        assert(s@ =~= int_to_decimal(n as int));
        TwoFACode(s)
    }
}

impl Default for TwoFACode {
    /// A random code: the decimal text of a number drawn from
    /// 100000..=999999; it is always one that `parse` accepts.
    fn default() -> (r: TwoFACode)
        ensures
            is_valid_two_fa_code(r@),
            exists|n: int| TWO_FA_CODE_MIN <= n <= TWO_FA_CODE_MAX && r@ == int_to_decimal(n),
    {
        let drawn = random_two_fa_number();
        let r = TwoFACode::from_number(drawn);
        proof {
            lemma_parse_decimal_round_trip(drawn as int);
        }
        r
    }
}

/// Looking up what is pending for `email`.
pub open spec fn codes_get(codes: Map<Seq<char>, (u128, Seq<char>)>, email: Seq<char>) -> Result<
    (u128, Seq<char>),
    TwoFACodeStoreError,
> {
    if codes.contains_key(email) {
        Ok(codes[email])
    } else {
        Err(TwoFACodeStoreError::LoginAttemptIdNotFound)
    }
}

/// Dropping what is pending for `email`; `LoginAttemptIdNotFound` when
/// nothing is.
pub open spec fn codes_remove(codes: Map<Seq<char>, (u128, Seq<char>)>, email: Seq<char>) -> (Map<
    Seq<char>,
    (u128, Seq<char>),
>, Result<(), TwoFACodeStoreError>) {
    if codes.contains_key(email) {
        (codes.remove(email), Ok(()))
    } else {
        (codes, Err(TwoFACodeStoreError::LoginAttemptIdNotFound))
    }
}

/// A store of pending second factors: for each e-mail address, the
/// log-in attempt and the code that was sent.
pub trait TwoFACodeStore {
    /// The pending codes, by e-mail address.
    spec fn codes(&self) -> Map<Seq<char>, (u128, Seq<char>)>;

    /// The store's internal invariant.
    spec fn well_formed(&self) -> bool;

    /// Records the attempt and code for the address, replacing any that
    /// were pending for it.
    fn add_code(&mut self, email: Email, login_attempt_id: LoginAttemptId, code: TwoFACode) -> (r:
        Result<(), TwoFACodeStoreError>)
        requires
            old(self).well_formed(),
        ensures
            final(self).well_formed(),
            r is Ok,
            final(self).codes() == old(self).codes().insert(email@, (login_attempt_id@, code@)),
    ;

    /// Drops what is pending for the address; `LoginAttemptIdNotFound`
    /// when nothing is.
    fn remove_code(&mut self, email: &Email) -> (r: Result<(), TwoFACodeStoreError>)
        requires
            old(self).well_formed(),
        ensures
            final(self).well_formed(),
            (final(self).codes(), r) == codes_remove(old(self).codes(), email@),
    ;

    /// The attempt and code pending for the address, or
    /// `LoginAttemptIdNotFound`.
    fn get_code(&self, email: &Email) -> (r: Result<(LoginAttemptId, TwoFACode), TwoFACodeStoreError>)
        requires
            self.well_formed(),
        ensures
            match r {
                Ok((a, c)) => codes_get(self.codes(), email@) == Ok::<
                    (u128, Seq<char>),
                    TwoFACodeStoreError,
                >((a@, c@)),
                Err(e) => codes_get(self.codes(), email@) == Err::<
                    (u128, Seq<char>),
                    TwoFACodeStoreError,
                >(e),
            },
    ;
}

} // verus!
