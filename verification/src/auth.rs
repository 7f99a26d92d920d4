//! The authentication gate: HTTP Basic credentials, checked against a table
//! built once at startup.
//!
//! The table maps the literal header value `Basic <base64(user:pass)>` to
//! the username. An empty table means authentication is off and every
//! request counts as anonymous.

use vstd::prelude::*;
use vstd::string::StringExecFns;
use crate::errors::{ConfigError, ProxyError};
use crate::message::{
    get_header, headers_view, spec_first_header, spec_with_header, with_header, HeaderSeq,
};
use crate::text::{before_char, between_char, spec_before_char, spec_between_char};

verus! {

/// What the standard base64 alphabet with padding encodes a string to.
/// The encoding is a function of the input bytes alone.
pub uninterp spec fn base64_std_of(s: Seq<char>) -> Seq<char>;

/// Relies on base64's `Engine::encode` with the `STANDARD` engine: a pure
/// encoding of the argument's bytes, here named `base64_std_of`.
#[verifier::external_body]
fn base64_standard(s: &str) -> (r: String)
    ensures
        r@ == base64_std_of(s@),
{
    base64::Engine::encode(&base64::engine::general_purpose::STANDARD, s)
}

/// The credential table: `(header value, username)` pairs. Lookup takes the
/// first pair whose key matches, and the builder keeps keys unique by
/// replacing an existing pair, so the table behaves as a map.
pub struct CredentialTable {
    pub entries: Vec<(String, String)>,
}

impl View for CredentialTable {
    type V = HeaderSeq;

    open spec fn view(&self) -> HeaderSeq {
        headers_view(self.entries@)
    }
}

/// A user specification `user:pass[:rest]` yields a table entry when both
/// the username (before the first `:`) and the password (between the first
/// and second `:`) are non-empty.
pub open spec fn spec_user_valid(raw: Seq<char>) -> bool {
    spec_before_char(raw, ':').len() > 0 && (match spec_between_char(raw, ':') {
        Some(p) => p.len() > 0,
        None => false,
    })
}

/// The key a user specification is filed under: `Basic ` followed by the
/// base64 encoding of the whole specification.
pub open spec fn spec_user_key(raw: Seq<char>) -> Seq<char> {
    "Basic "@ + base64_std_of(raw)
}

/// The first user specification that is not valid, if any: the builder
/// refuses the whole configuration on it.
pub open spec fn spec_first_invalid_user(users: Seq<Seq<char>>) -> Option<Seq<char>>
    decreases users.len(),
{
    if users.len() == 0 {
        None
    } else if !spec_user_valid(users[0]) {
        Some(users[0])
    } else {
        spec_first_invalid_user(users.drop_first())
    }
}

/// The table the (all valid) user specifications build up, later entries
/// replacing earlier ones of the same key. An invalid specification adds
/// nothing; the builder rejects it before this point.
pub open spec fn spec_table_of(users: Seq<Seq<char>>) -> HeaderSeq
    decreases users.len(),
{
    if users.len() == 0 {
        Seq::empty()
    } else {
        let rest = spec_table_of(users.drop_last());
        let raw = users.last();
        if spec_user_valid(raw) {
            spec_with_header(rest, spec_user_key(raw), spec_before_char(raw, ':'))
        } else {
            rest
        }
    }
}

/// The views of a sequence of strings.
pub open spec fn strings_view(ss: Seq<String>) -> Seq<Seq<char>> {
    Seq::new(ss.len(), |i: int| ss[i]@)
}

impl CredentialTable {
    /// Build the table from `user:pass` specifications, as given on the
    /// command line. A specification whose username or password is empty
    /// is a fatal configuration error; a repeated key keeps the later
    /// entry.
    pub fn build(users: &Vec<String>) -> (r: Result<CredentialTable, ConfigError>)
        ensures
            (match spec_first_invalid_user(strings_view(users@)) {
                None => (r matches Ok(t) && t@ == spec_table_of(strings_view(users@))),
                Some(bad) => (r matches Err(e) && e matches ConfigError::InvalidUser(s) && s@
                    == bad),
            }),
    {
        let n = users.len();
        let mut entries: Vec<(String, String)> = Vec::new();
        let mut i: usize = 0;
        proof {
            assert(strings_view(users@).subrange(0, 0) =~= Seq::<Seq<char>>::empty());
            assert(headers_view(entries@) =~= Seq::<(Seq<char>, Seq<char>)>::empty());
            assert(strings_view(users@).skip(0) =~= strings_view(users@));
        }
        while i < n
            invariant
                0 <= i <= n,
                n == users@.len(),
                headers_view(entries@) == spec_table_of(strings_view(users@).subrange(0, i as int)),
                spec_first_invalid_user(strings_view(users@)) == spec_first_invalid_user(
                    strings_view(users@).skip(i as int),
                ),
            decreases n - i,
        {
            proof {
                assert(strings_view(users@).subrange(0, i + 1).drop_last() =~= strings_view(
                    users@,
                ).subrange(0, i as int));
                assert(strings_view(users@).subrange(0, i + 1).last() == users@[i as int]@);
                assert(strings_view(users@).skip(i as int)[0] == strings_view(users@)[i as int]);
                assert(strings_view(users@).skip(i as int).drop_first() =~= strings_view(
                    users@,
                ).skip(i + 1));
            }
            let raw = &users[i];
            let username = before_char(raw.as_str(), ':');
            let password_ok = match between_char(raw.as_str(), ':') {
                Some(p) => !p.as_str().is_empty(),
                None => false,
            };
            if username.as_str().is_empty() || !password_ok {
                return Err(ConfigError::InvalidUser(raw.clone()));
            }
            let encoded = base64_standard(raw.as_str());
            let key = String::from_str("Basic ").concat(encoded.as_str());
            entries = with_header(&entries, key.as_str(), username.as_str());
            i = i + 1;
        }
        proof {
            assert(strings_view(users@).subrange(0, n as int) =~= strings_view(users@));
            assert(strings_view(users@).skip(n as int) =~= Seq::<Seq<char>>::empty());
        }
        Ok(CredentialTable { entries })
    }

    /// How authentication decides, given the table and the header value it
    /// inspects: an empty table authorizes everyone as anonymous; otherwise
    /// the value must be present verbatim in the table.
    pub open spec fn spec_check(tv: HeaderSeq, hv: Option<Seq<char>>) -> Result<
        Option<Seq<char>>,
        (),
    > {
        if tv.len() == 0 {
            Ok(None)
        } else {
            match hv {
                Some(v) => (match spec_first_header(tv, v) {
                    Some(u) => Ok(Some(u)),
                    None => Err(()),
                }),
                None => Err(()),
            }
        }
    }
}

/// Check the named header of a request against the credential table.
///
/// `Ok(None)` is the anonymous case (empty table); `Ok(Some(u))` names the
/// authenticated user; `Err` is the authentication failure the dispatcher
/// turns into a 407 or a silent drop.
pub fn check_auth(
    headers: &Vec<(String, String)>,
    header_name: &str,
    table: &CredentialTable,
) -> (r: Result<Option<String>, ProxyError>)
    ensures
        (match CredentialTable::spec_check(
            table@,
            spec_first_header(headers_view(headers@), header_name@),
        ) {
            Ok(None) => r == Ok::<Option<String>, ProxyError>(None),
            Ok(Some(u)) => r matches Ok(Some(s)) && s@ == u,
            Err(()) => r == Err::<Option<String>, ProxyError>(ProxyError::Unauthenticated),
        }),
{
    if table.entries.len() == 0 {
        return Ok(None);
    }
    match get_header(headers, header_name) {
        Some(v) => {
            match get_header(&table.entries, v.as_str()) {
                Some(u) => Ok(Some(u)),
                None => Err(ProxyError::Unauthenticated),
            }
        },
        None => Err(ProxyError::Unauthenticated),
    }
}

/// Authentication is deterministic on the header value: requests presenting the
/// same header value are decided the same way.
pub proof fn lemma_auth_deterministic(tv: HeaderSeq, h1: HeaderSeq, h2: HeaderSeq, name: Seq<char>)
    requires
        spec_first_header(h1, name) == spec_first_header(h2, name),
    ensures
        CredentialTable::spec_check(tv, spec_first_header(h1, name)) == CredentialTable::spec_check(
            tv,
            spec_first_header(h2, name),
        ),
{
}

} // verus!
