//! Fresh random identifiers (invite tokens, public channel tokens,
//! anonymous viewer names).

use vstd::prelude::*;

verus! {

/// A lower-case hexadecimal digit.
pub open spec fn is_lower_hex(c: char) -> bool {
    ('0' <= c && c <= '9') || ('a' <= c && c <= 'f')
}

/// The hyphenated text of a version 4 UUID:
/// `xxxxxxxx-xxxx-4xxx-xxxx-xxxxxxxxxxxx` in lower-case hex.
pub open spec fn is_uuid_v4_text(s: Seq<char>) -> bool {
    &&& s.len() == 36
    &&& forall|i: int|
        0 <= i < 36 ==> if i == 8 || i == 13 || i == 18 || i == 23 {
            #[trigger] s[i] == '-'
        } else {
            is_lower_hex(s[i])
        }
    &&& s[14] == '4'
}

/// A fresh random UUID as text, through `uuid::Uuid::new_v4` and its
/// `Display` (the hyphenated lower-case form, 36 characters, with the
/// version digit 4). Which UUID comes out is chance and is not stated.
#[verifier::external_body]
fn new_uuid_text() -> (s: String)
    ensures
        is_uuid_v4_text(s@),
{
    uuid::Uuid::new_v4().to_string()
}

/// A fresh invite token.
pub fn new_invite_token() -> (s: String)
    ensures
        is_uuid_v4_text(s@),
{
    new_uuid_text()
}

/// The public token of a channel: the one it has, or a fresh one. The flag
/// tells whether the token is fresh (and so must be stored).
pub fn channel_token(existing: Option<String>) -> (r: (String, bool))
    ensures
        match existing {
            Some(t) => r.0@ == t@ && !r.1,
            None => is_uuid_v4_text(r.0@) && r.1,
        },
{
    match existing {
        Some(t) => (t, false),
        None => (new_uuid_text(), true),
    }
}

/// The prefix of the name given to an anonymous viewer of a public channel.
pub open spec fn anon_prefix() -> Seq<char> {
    "public:anon:"@
}

/// The name of an anonymous public-channel viewer with identifier `id`.
pub fn anon_username_for(id: &str) -> (s: String)
    ensures
        s@ == anon_prefix() + id@,
{
    let mut s = "public:anon:".to_owned();
    s.append(id);
    s
}

/// A fresh name for an anonymous public-channel viewer.
pub fn new_anon_username() -> (s: String)
    ensures
        s@.len() == anon_prefix().len() + 36,
        s@.subrange(0, anon_prefix().len() as int) == anon_prefix(),
        is_uuid_v4_text(s@.subrange(anon_prefix().len() as int, s@.len() as int)),
{
    let id = new_uuid_text();
    let s = anon_username_for(&id);
    proof {
        reveal_strlit("public:anon:");
        assert(s@.subrange(0, anon_prefix().len() as int) =~= anon_prefix());
        assert(s@.subrange(anon_prefix().len() as int, s@.len() as int) =~= id@);
    }
    s
}

} // verus!
