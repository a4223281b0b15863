use vstd::prelude::*;
use vstd::string::{StrSliceExecFns, StringExecFns};

use crate::clock::utcnow;
use crate::json::{
    integer_text, json_integer_value, decimal_text, json_quoted, json_string_value,
    object_members, parse_integer, parse_string, quote,
};
use crate::assoc::lookup;
use crate::record::{object_text, Record};

verus! {

/// An OAuth2 credential pair together with the instant it was issued.
///
/// `ctime` is the issue instant in Unix seconds and `expires_in` the lifetime
/// in seconds, so the token stops being valid at `ctime + expires_in`.
pub struct AccessToken {
    pub access_token: String,
    pub expires_in: i32,
    pub refresh_token: String,
    pub token_type: String,
    pub ctime: i64,
}

/// The string held as a JSON string by member `name` of the entries `s`.
pub open spec fn string_member(s: Seq<(Seq<char>, Seq<char>)>, name: Seq<char>) -> Option<Seq<char>> {
    match lookup(s, name) {
        Some(t) => json_string_value(t),
        None => None,
    }
}

/// The integer held as a JSON number by member `name` of the entries `s`.
pub open spec fn integer_member(s: Seq<(Seq<char>, Seq<char>)>, name: Seq<char>) -> Option<i64> {
    match lookup(s, name) {
        Some(t) => json_integer_value(t),
        None => None,
    }
}

/// The token that the JSON text `text` describes, read at instant `now`, as
/// `(access_token, expires_in, refresh_token, token_type, issued_at)`.
///
/// The three strings and `expires_in` (in the range of `i32`) are required;
/// `issued_at` is `now` where the member is absent, and must be an integer
/// where it is present. Other members are ignored.
pub open spec fn token_read(text: Seq<char>, now: i64) -> Option<(Seq<char>, i32, Seq<char>, Seq<char>, i64)> {
    match object_members(text) {
        None => None,
        Some(s) => {
            let access = string_member(s, "access_token"@);
            let expires = integer_member(s, "expires_in"@);
            let refresh = string_member(s, "refresh_token"@);
            let kind = string_member(s, "token_type"@);
            let issued = if lookup(s, "issued_at"@) is None {
                Some(now)
            } else {
                integer_member(s, "issued_at"@)
            };
            if access is Some && expires is Some && i32::MIN <= expires->0 <= i32::MAX
                && refresh is Some && kind is Some && issued is Some {
                Some((access->0, expires->0 as i32, refresh->0, kind->0, issued->0))
            } else {
                None
            }
        },
    }
}

/// The members that a token is written with, in order.
pub open spec fn token_entries(
    access: Seq<char>,
    expires_in: int,
    refresh: Seq<char>,
    kind: Seq<char>,
    issued_at: int,
) -> Seq<(Seq<char>, Seq<char>)> {
    seq![
        ("access_token"@, json_quoted(access)),
        ("expires_in"@, decimal_text(expires_in)),
        ("refresh_token"@, json_quoted(refresh)),
        ("token_type"@, json_quoted(kind)),
        ("issued_at"@, decimal_text(issued_at)),
    ]
}

/// The larger of zero and `x`.
pub open spec fn clamp_at_zero(x: int) -> int {
    if x > 0 { x } else { 0 }
}

impl AccessToken {
    /// The JSON text this token is stored as.
    pub open spec fn json(&self) -> Seq<char> {
        object_text(
            token_entries(
                self.access_token@,
                self.expires_in as int,
                self.refresh_token@,
                self.token_type@,
                self.ctime as int,
            ),
        )
    }

    /// Reads a token from JSON text, such as an upstream token response or the
    /// `token` member of a session record, stamping `now` as its issue instant
    /// where the text gives none.
    pub fn from_json(text: &str, now: i64) -> (r: Option<AccessToken>)
        ensures
            match r {
                Some(t) => token_read(text@, now) == Some(
                    (t.access_token@, t.expires_in, t.refresh_token@, t.token_type@, t.ctime),
                ),
                None => token_read(text@, now) is None,
            },
    {
        let rec = match Record::parse(text) {
            Some(rec) => rec,
            None => return None,
        };
        let access = match rec.get("access_token") {
            Some(t) => parse_string(t.as_str()),
            None => None,
        };
        let expires = match rec.get("expires_in") {
            Some(t) => parse_integer(t.as_str()),
            None => None,
        };
        let refresh = match rec.get("refresh_token") {
            Some(t) => parse_string(t.as_str()),
            None => None,
        };
        let kind = match rec.get("token_type") {
            Some(t) => parse_string(t.as_str()),
            None => None,
        };
        let issued = match rec.get("issued_at") {
            Some(t) => parse_integer(t.as_str()),
            None => Some(now),
        };
        match (access, expires, refresh, kind, issued) {
            (Some(access_token), Some(e), Some(refresh_token), Some(token_type), Some(ctime)) => {
                if i32::MIN as i64 <= e && e <= i32::MAX as i64 {
                    Some(AccessToken { access_token, expires_in: e as i32, refresh_token, token_type, ctime })
                } else {
                    None
                }
            },
            _ => None,
        }
    }

    /// The token as JSON text, with the members `access_token`, `expires_in`,
    /// `refresh_token`, `token_type` and `issued_at`, in that order.
    pub fn to_json(&self) -> (r: String)
        ensures
            r@ == self.json(),
    {
        proof {
            reveal_strlit("access_token");
            reveal_strlit("expires_in");
            reveal_strlit("refresh_token");
            reveal_strlit("token_type");
            reveal_strlit("issued_at");
        }
        let ghost names = seq!["access_token"@, "expires_in"@, "refresh_token"@, "token_type"@, "issued_at"@];
        assert(names[0].len() == 12 && names[1].len() == 10 && names[2].len() == 13
            && names[3].len() == 10 && names[4].len() == 9);
        assert(names[1][0] != names[3][0]);
        let ghost e = token_entries(
            self.access_token@,
            self.expires_in as int,
            self.refresh_token@,
            self.token_type@,
            self.ctime as int,
        );
        let mut rec = Record::new();
        rec.insert("access_token".to_owned(), quote(self.access_token.as_str()));
        assert(rec.entries() =~= e.take(1));
        rec.insert("expires_in".to_owned(), integer_text(self.expires_in as i128));
        assert(rec.entries() =~= e.take(2));
        rec.insert("refresh_token".to_owned(), quote(self.refresh_token.as_str()));
        assert(rec.entries() =~= e.take(3));
        rec.insert("token_type".to_owned(), quote(self.token_type.as_str()));
        assert(rec.entries() =~= e.take(4));
        rec.insert("issued_at".to_owned(), integer_text(self.ctime as i128));
        assert(rec.entries() =~= e);
        rec.to_json()
    }

    /// The instant (Unix seconds) at which the token stops being valid.
    pub open spec fn expiry(&self) -> int {
        self.ctime + self.expires_in
    }

    /// Whether the token counts as expired at instant `now`.
    pub open spec fn expired_at_spec(&self, now: int) -> bool {
        now >= self.expiry()
    }

    /// Seconds of validity left at instant `now`, never negative.
    pub open spec fn remaining_at(&self, now: int) -> int {
        clamp_at_zero(self.expiry() - now)
    }

    /// The issue instant, in Unix seconds.
    pub fn obtained_at(&self) -> (r: i64)
        ensures
            r == self.ctime,
    {
        self.ctime
    }

    /// The expiry instant, in Unix seconds.
    pub fn expires_at(&self) -> (r: i64)
        requires
            i64::MIN <= self.expiry() <= i64::MAX,
        ensures
            r == self.expiry(),
    {
        self.ctime + self.expires_in as i64
    }

    /// Whether the token is expired at instant `now`: `now >= ctime + expires_in`.
    pub fn expired_at(&self, now: i64) -> (r: bool)
        ensures
            r == self.expired_at_spec(now as int),
    {
        now as i128 >= self.ctime as i128 + self.expires_in as i128
    }

    /// Seconds of validity left at instant `now`: `max(0, ctime + expires_in - now)`,
    /// held at `i64::MAX` where that exceeds it.
    pub fn lifetime_at(&self, now: i64) -> (r: i64)
        ensures
            self.remaining_at(now as int) <= i64::MAX ==> r == self.remaining_at(now as int),
            self.remaining_at(now as int) > i64::MAX ==> r == i64::MAX,
    {
        let left: i128 = self.ctime as i128 + self.expires_in as i128 - now as i128;
        if left <= 0 {
            0
        } else if left > i64::MAX as i128 {
            i64::MAX
        } else {
            left as i64
        }
    }

    /// The access token for display: its first eight characters, an ellipsis,
    /// and its last eight characters.
    pub fn masked_access_token(&self) -> (r: String)
        requires
            self.access_token@.len() >= 8,
        ensures
            r@ == self.access_token@.subrange(0, 8) + seq!['.', '.', '.'] + self.access_token@.subrange(
                self.access_token@.len() - 8,
                self.access_token@.len() as int,
            ),
    {
        proof {
            reveal_strlit("...");
        }
        let s = self.access_token.as_str();
        let n = s.unicode_len();
        let mut out = String::new();
        out.append(s.substring_char(0, 8));
        out.append("...");
        out.append(s.substring_char(n - 8, n));
        out
    }

    /// Whether the token is expired now, by the system clock.
    pub fn expired(&self) -> (r: bool)
        ensures
            exists|now: i64| now >= 0 && r == #[trigger] self.expired_at_spec(now as int),
    {
        let now = utcnow();
        self.expired_at(now)
    }

    /// Seconds of validity left now, by the system clock: `max(0, ctime +
    /// expires_in - now)` for some instant `now` at or after the epoch.
    /// Past `i64::MAX` the value is held there.
    pub fn lifetime(&self) -> (r: i64)
        ensures
            0 <= r,
            exists|now: i64|
                now >= 0 && r == if #[trigger] self.remaining_at(now as int) <= i64::MAX {
                    self.remaining_at(now as int)
                } else {
                    i64::MAX as int
                },
            self.expiry() <= i64::MAX ==> exists|now: i64|
                now >= 0 && r == #[trigger] self.remaining_at(now as int),
    {
        let now = utcnow();
        proof {
            if self.expiry() <= i64::MAX {
                remaining_lifetime_fits(*self, now);
            }
        }
        self.lifetime_at(now)
    }
}

/// The remaining lifetime at an instant at or after the epoch,
/// `max(0, ctime + expires_in - now)`, fits in `i64` whenever the expiry instant
/// does, so `lifetime_at` returns it exactly there.
pub proof fn remaining_lifetime_fits(t: AccessToken, now: i64)
    requires
        now >= 0,
        t.expiry() <= i64::MAX,
    ensures
        0 <= t.remaining_at(now as int) <= i64::MAX,
{
}

} // verus!
