//! The registration-string codec shared by watcher and host.
//!
//! The watcher derives one opaque string per registered item: the caller's
//! bus address (the sender) and the offered service name, joined by the
//! delimiter `/`. The host splits such a string back apart at the first
//! delimiter: the prefix is the addressing target, and the rest — beginning
//! with the delimiter itself — is the remote object path. A string without
//! any delimiter addresses the whole string at the root path `/`; a string
//! whose target segment is empty is malformed.

use vstd::prelude::*;
use vstd::string::StrSliceExecFns;
use vstd::string::StringExecFns;

use crate::errors::HostError;
use crate::text::contains_char;
use crate::text::find_char;
use crate::text::first_pos;
use crate::text::lemma_first_pos_is;

verus! {

/// The character that separates the sender from the service inside a
/// registration string, and the first character of every object path.
pub const DELIMITER: char = '/';

/// The registration string derived for a `(sender, service)` pair: the two
/// fields joined by the delimiter.
pub open spec fn spec_registration_string(sender: Seq<char>, service: Seq<char>) -> Seq<char> {
    sender + seq![DELIMITER] + service
}

/// How the host splits a registration string: `Some((target, path))` with
/// the part before the first delimiter as the addressing target and the
/// rest, delimiter included, as the object path; a string without a
/// delimiter addresses the whole string at the root path; `None` when the
/// target segment is empty.
pub open spec fn spec_parse_registration(s: Seq<char>) -> Option<(Seq<char>, Seq<char>)> {
    let p = first_pos(s, DELIMITER);
    if p == 0 {
        None
    } else if p == s.len() {
        Some((s, seq![DELIMITER]))
    } else {
        Some((s.subrange(0, p), s.subrange(p, s.len() as int)))
    }
}

/// The bus address of one remote item, recovered from a registration
/// string: the destination to address calls to, and the object path of the
/// item on that destination.
#[derive(Clone, Debug, PartialEq, Eq)]
pub struct ItemReference {
    pub destination: String,
    pub path: String,
}

impl ItemReference {
    /// The pair of views this reference denotes.
    pub open spec fn spec_address(&self) -> (Seq<char>, Seq<char>) {
        (self.destination@, self.path@)
    }
}

/// Join a sender and a service into the registration string the watcher
/// publishes for them.
pub fn make_registration_string(sender: &str, service: &str) -> (r: String)
    ensures
        r@ == spec_registration_string(sender@, service@),
{
    let mut r = sender.to_owned();
    r.append("/");
    r.append(service);
    proof {
        reveal_strlit("/");
        assert("/"@ =~= seq![DELIMITER]);
        assert(r@ =~= spec_registration_string(sender@, service@));
    }
    r
}

/// Split a registration string into the item reference it denotes, exactly
/// as `spec_parse_registration` reads it; a malformed string — one whose
/// addressing target is empty — is rejected, never anything else.
pub fn parse_registration(s: &str) -> (r: Result<ItemReference, HostError>)
    ensures
        match r {
            Ok(it) => spec_parse_registration(s@) == Some(it.spec_address()),
            Err(e) => spec_parse_registration(s@) is None && e == HostError::MalformedRegistration,
        },
{
    let n = s.unicode_len();
    match find_char(s, DELIMITER) {
        Some(p) => {
            if p == 0 {
                Err(HostError::MalformedRegistration)
            } else {
                let destination = s.substring_char(0, p).to_owned();
                let path = s.substring_char(p, n).to_owned();
                proof {
                    assert(destination@ =~= s@.subrange(0, p as int));
                    assert(path@ =~= s@.subrange(p as int, s@.len() as int));
                }
                Ok(ItemReference { destination, path })
            }
        },
        None => {
            if n == 0 {
                return Err(HostError::MalformedRegistration);
            }
            let destination = s.to_owned();
            let path = "/".to_owned();
            proof {
                reveal_strlit("/");
                assert(path@ =~= seq![DELIMITER]);
            }
            Ok(ItemReference { destination, path })
        },
    }
}

/// Round trip of the codec: a registration string built from a non-empty,
/// delimiter-free sender and a delimiter-free service parses back to the
/// sender as addressing target and to the service behind a leading
/// delimiter as object path.
pub proof fn lemma_registration_round_trip(sender: Seq<char>, service: Seq<char>)
    requires
        sender.len() > 0,
        !contains_char(sender, DELIMITER),
        !contains_char(service, DELIMITER),
    ensures
        spec_parse_registration(spec_registration_string(sender, service)) == Some(
            (sender, seq![DELIMITER] + service),
        ),
{
    let s = spec_registration_string(sender, service);
    assert forall|j: int| 0 <= j < sender.len() implies s[j] != DELIMITER by {
        assert(s[j] == sender[j]);
    }
    assert(s[sender.len() as int] == DELIMITER);
    lemma_first_pos_is(s, DELIMITER, sender.len() as int);
    assert(s.subrange(0, sender.len() as int) =~= sender);
    assert(s.subrange(sender.len() as int, s.len() as int) =~= seq![DELIMITER] + service);
}

} // verus!
