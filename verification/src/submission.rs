//! Parsing the inbound payload into a `Submission`.
//!
//! An invocation hands the pipeline a list of key/value pairs — the query
//! parameters of an HTTP-style invocation, or the members of a structured
//! event body. A well-formed submission carries five fields, each present
//! and non-empty: `name`, `email`, `telephone`, `detail` and `captcha`
//! (the human-verification token). A missing or empty field is a caller
//! error and rejects the payload before any outside call is made.

use vstd::prelude::*;

verus! {

/// The value of the first pair whose key equals `key`, if any.
pub open spec fn lookup(pairs: Seq<(String, String)>, key: Seq<char>) -> Option<Seq<char>>
    decreases pairs.len(),
{
    if pairs.len() == 0 {
        None
    } else if pairs[0].0@ == key {
        Some(pairs[0].1@)
    } else {
        lookup(pairs.drop_first(), key)
    }
}

/// The value of `key`, or the empty text where the key is absent.
pub open spec fn field_of(pairs: Seq<(String, String)>, key: Seq<char>) -> Seq<char> {
    match lookup(pairs, key) {
        Some(v) => v,
        None => Seq::empty(),
    }
}

/// Whether `key` is present with a non-empty value.
pub open spec fn field_ok(pairs: Seq<(String, String)>, key: Seq<char>) -> bool {
    match lookup(pairs, key) {
        Some(v) => v.len() > 0,
        None => false,
    }
}

/// The first required field that is missing or empty, in the fixed order
/// `name`, `email`, `telephone`, `detail`, `captcha`; `None` when the
/// payload is well-formed.
pub open spec fn missing_field(pairs: Seq<(String, String)>) -> Option<Seq<char>> {
    if !field_ok(pairs, "name"@) {
        Some("name"@)
    } else if !field_ok(pairs, "email"@) {
        Some("email"@)
    } else if !field_ok(pairs, "telephone"@) {
        Some("telephone"@)
    } else if !field_ok(pairs, "detail"@) {
        Some("detail"@)
    } else if !field_ok(pairs, "captcha"@) {
        Some("captcha"@)
    } else {
        None
    }
}

/// The parsed, validated contact-form input of one invocation.
#[derive(Debug, PartialEq, Eq)]
pub struct Submission {
    pub name: String,
    pub email: String,
    pub telephone: String,
    pub detail: String,
    /// The human-verification token (`captcha` key of the payload).
    pub captcha: String,
}

impl Submission {
    /// All five fields are non-empty.
    pub open spec fn wf(self) -> bool {
        &&& self.name@.len() > 0
        &&& self.email@.len() > 0
        &&& self.telephone@.len() > 0
        &&& self.detail@.len() > 0
        &&& self.captcha@.len() > 0
    }

    /// The submission holds exactly the field values of `pairs`.
    pub open spec fn from_pairs(self, pairs: Seq<(String, String)>) -> bool {
        &&& self.name@ == field_of(pairs, "name"@)
        &&& self.email@ == field_of(pairs, "email"@)
        &&& self.telephone@ == field_of(pairs, "telephone"@)
        &&& self.detail@ == field_of(pairs, "detail"@)
        &&& self.captcha@ == field_of(pairs, "captcha"@)
    }
}

/// A rejected payload: the name of the first required field that was
/// missing or empty.
#[derive(Debug, PartialEq, Eq)]
pub struct InputError {
    pub field: String,
}

/// The value of the first pair whose key equals `key`, cloned out.
fn find_value(pairs: &Vec<(String, String)>, key: &str) -> (r: Option<String>)
    ensures
        match r {
            Some(v) => lookup(pairs@, key@) == Some(v@),
            None => lookup(pairs@, key@) is None,
        },
{
    let owned_key = String::from_str(key);
    let n = pairs.len();
    let mut i: usize = 0;
    proof {
        assert(pairs@.skip(0) =~= pairs@);
    }
    while i < n
        invariant
            n == pairs@.len(),
            i <= n,
            owned_key@ == key@,
            lookup(pairs@, key@) == lookup(pairs@.skip(i as int), key@),
        decreases n - i,
    {
        proof {
            assert(pairs@.skip(i as int)[0] == pairs@[i as int]);
            assert(pairs@.skip(i as int).drop_first() =~= pairs@.skip(i + 1 as int));
        }
        if pairs[i].0 == owned_key {
            return Some(pairs[i].1.clone());
        }
        i = i + 1;
    }
    proof {
        assert(pairs@.skip(n as int) =~= Seq::<(String, String)>::empty());
    }
    None
}

/// Fetch one required field: present and non-empty, or its name as the
/// rejection reason.
fn require_field(pairs: &Vec<(String, String)>, key: &str) -> (r: Result<String, InputError>)
    ensures
        match r {
            Ok(v) => field_ok(pairs@, key@) && v@ == field_of(pairs@, key@),
            Err(e) => !field_ok(pairs@, key@) && e.field@ == key@,
        },
{
    match find_value(pairs, key) {
        Some(v) => {
            if v.unicode_len() > 0 {
                Ok(v)
            } else {
                Err(InputError { field: String::from_str(key) })
            }
        },
        None => Err(InputError { field: String::from_str(key) }),
    }
}

/// Parse the inbound key/value payload into a `Submission`.
///
/// Succeeds exactly when all five required fields are present and
/// non-empty, and then returns their values unchanged; otherwise reports
/// the first missing field, in the fixed order `name`, `email`,
/// `telephone`, `detail`, `captcha`.
pub fn parse_submission(pairs: &Vec<(String, String)>) -> (r: Result<Submission, InputError>)
    ensures
        match r {
            Ok(s) => {
                &&& missing_field(pairs@) is None
                &&& s.wf()
                &&& s.from_pairs(pairs@)
            },
            Err(e) => missing_field(pairs@) == Some(e.field@),
        },
{
    let name = match require_field(pairs, "name") {
        Ok(v) => v,
        Err(e) => {
            return Err(e);
        },
    };
    let email = match require_field(pairs, "email") {
        Ok(v) => v,
        Err(e) => {
            return Err(e);
        },
    };
    let telephone = match require_field(pairs, "telephone") {
        Ok(v) => v,
        Err(e) => {
            return Err(e);
        },
    };
    let detail = match require_field(pairs, "detail") {
        Ok(v) => v,
        Err(e) => {
            return Err(e);
        },
    };
    let captcha = match require_field(pairs, "captcha") {
        Ok(v) => v,
        Err(e) => {
            return Err(e);
        },
    };
    Ok(Submission { name, email, telephone, detail, captcha })
}

} // verus!
