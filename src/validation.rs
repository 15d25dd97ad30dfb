//! Account input checks and the shapes of authentication messages.

use vstd::prelude::*;
use vstd::utf8::encode_utf8;

verus! {

/// Fewest bytes in an acceptable password.
pub const PASSWORD_MIN_LENGTH: usize = 8;

/// Most bytes in an acceptable password.
pub const PASSWORD_MAX_LENGTH: usize = 64;

pub open spec fn is_upper_byte(b: u8) -> bool {
    65 <= b <= 90
}

pub open spec fn is_lower_byte(b: u8) -> bool {
    97 <= b <= 122
}

pub open spec fn is_digit_byte(b: u8) -> bool {
    48 <= b <= 57
}

/// One of `!@#$%^&*_-`.
pub open spec fn is_special_byte(b: u8) -> bool {
    b == 33 || b == 64 || b == 35 || b == 36 || b == 37 || b == 94 || b == 38 || b == 42 || b
        == 95 || b == 45
}

pub open spec fn is_password_byte(b: u8) -> bool {
    is_upper_byte(b) || is_lower_byte(b) || is_digit_byte(b) || is_special_byte(b)
}

/// Between 8 and 64 bytes, each an ASCII letter, a digit or one of
/// `!@#$%^&*_-`, with at least one upper-case letter, one lower-case
/// letter, one digit and one of the special characters.
pub open spec fn password_acceptable(bytes: Seq<u8>) -> bool {
    &&& PASSWORD_MIN_LENGTH <= bytes.len() <= PASSWORD_MAX_LENGTH
    &&& forall|i: int| 0 <= i < bytes.len() ==> #[trigger] is_password_byte(bytes[i])
    &&& exists|i: int| 0 <= i < bytes.len() && #[trigger] is_upper_byte(bytes[i])
    &&& exists|i: int| 0 <= i < bytes.len() && #[trigger] is_lower_byte(bytes[i])
    &&& exists|i: int| 0 <= i < bytes.len() && #[trigger] is_digit_byte(bytes[i])
    &&& exists|i: int| 0 <= i < bytes.len() && #[trigger] is_special_byte(bytes[i])
}

/// Whether a password meets the strength rules.
pub fn is_valid_password(password: &str) -> (r: bool)
    ensures
        r == password_acceptable(encode_utf8(password@)),
{
    let bytes = password.as_bytes();
    assert(bytes@ == encode_utf8(password@));
    let len = bytes.len();
    if len < PASSWORD_MIN_LENGTH || len > PASSWORD_MAX_LENGTH {
        return false;
    }
    let mut upper = false;
    let mut lower = false;
    let mut digit = false;
    let mut special = false;
    let mut i: usize = 0;
    while i < len
        invariant
            len == bytes@.len(),
            bytes@ == encode_utf8(password@),
            PASSWORD_MIN_LENGTH <= len <= PASSWORD_MAX_LENGTH,
            i <= len,
            forall|k: int| 0 <= k < i ==> #[trigger] is_password_byte(bytes@[k]),
            upper <==> exists|k: int| 0 <= k < i && #[trigger] is_upper_byte(bytes@[k]),
            lower <==> exists|k: int| 0 <= k < i && #[trigger] is_lower_byte(bytes@[k]),
            digit <==> exists|k: int| 0 <= k < i && #[trigger] is_digit_byte(bytes@[k]),
            special <==> exists|k: int| 0 <= k < i && #[trigger] is_special_byte(bytes@[k]),
        decreases len - i,
    {
        let b = bytes[i];
        if b >= 65 && b <= 90 {
            upper = true;
        } else if b >= 97 && b <= 122 {
            lower = true;
        } else if b >= 48 && b <= 57 {
            digit = true;
        } else if b == 33 || b == 64 || b == 35 || b == 36 || b == 37 || b == 94 || b == 38 || b
            == 42 || b == 95 || b == 45 {
            special = true;
        } else {
            assert(!is_password_byte(encode_utf8(password@)[i as int]));
            assert(!password_acceptable(encode_utf8(password@)));
            return false;
        }
        proof {
            let n = i as int;
            let c = bytes@[n];
            if is_upper_byte(c) {
                assert(0 <= n < n + 1 && is_upper_byte(bytes@[n]));
            } else {
                assert(forall|k: int| 0 <= k < n + 1 && #[trigger] is_upper_byte(bytes@[k]) ==> k < n);
            }
            if is_lower_byte(c) {
                assert(0 <= n < n + 1 && is_lower_byte(bytes@[n]));
            } else {
                assert(forall|k: int| 0 <= k < n + 1 && #[trigger] is_lower_byte(bytes@[k]) ==> k < n);
            }
            if is_digit_byte(c) {
                assert(0 <= n < n + 1 && is_digit_byte(bytes@[n]));
            } else {
                assert(forall|k: int| 0 <= k < n + 1 && #[trigger] is_digit_byte(bytes@[k]) ==> k < n);
            }
            if is_special_byte(c) {
                assert(0 <= n < n + 1 && is_special_byte(bytes@[n]));
            } else {
                assert(forall|k: int| 0 <= k < n + 1 && #[trigger] is_special_byte(bytes@[k]) ==> k < n);
            }
        }
        i = i + 1;
    }
    upper && lower && digit && special
}

/// A registration request.
pub struct RegisterData {
    pub name: String,
    pub email: String,
    pub password: String,
    pub re_password: String,
}

impl RegisterData {
    /// The two passwords agree and no field is empty.
    pub fn is_valid(&self) -> (r: bool)
        ensures
            r == (self.password@ == self.re_password@ && self.password@.len() > 0
                && self.re_password@.len() > 0 && self.name@.len() > 0 && self.email@.len() > 0),
    {
        self.password == self.re_password && !self.password.as_str().is_empty()
            && !self.re_password.as_str().is_empty() && !self.name.as_str().is_empty()
            && !self.email.as_str().is_empty()
    }
}

/// A login request.
pub struct LoginData {
    pub email: String,
    pub password: String,
}

/// The token pair handed out on login.
pub struct JwtTokens {
    pub access_token: String,
    pub refresh_token: String,
}

/// Claims of a refresh token: token id, issue and expiry times, user id.
pub struct RefreshTokenClaims {
    pub jti: String,
    pub iat: usize,
    pub exp: usize,
    pub uid: String,
}

/// Claims of an access token: issue and expiry times, user id.
pub struct Claims {
    pub iat: usize,
    pub exp: usize,
    pub uid: String,
}

} // verus!
