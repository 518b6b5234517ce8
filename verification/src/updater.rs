//! Deciding whether a published release is an update.

use vstd::prelude::*;
use crate::text::{strip_leading_v, trim_start_v};

verus! {

/// The version of this server.
pub const CURRENT_VERSION: &'static str = "v0.7-beta";

/// A newer release that can be downloaded.
pub struct UpdateInfo {
    pub tag: String,
    pub page_url: String,
}

/// Release `tag` differs from version `current`, leading 'v's aside.
pub open spec fn spec_is_newer(tag: Seq<char>, current: Seq<char>) -> bool {
    strip_leading_v(tag) != strip_leading_v(current)
}

/// Whether release `tag` is another version than `current` (a leading 'v'
/// does not count).
pub fn is_newer(tag: &str, current: &str) -> (b: bool)
    ensures
        b == spec_is_newer(tag@, current@),
{
    let a = trim_start_v(tag);
    let b = trim_start_v(current);
    !(a == b)
}

/// The update a release offers: none when its tag names this version.
pub fn release_update(tag_name: String, html_url: String) -> (r: Option<UpdateInfo>)
    ensures
        spec_is_newer(tag_name@, CURRENT_VERSION@) ==> (r matches Some(info) && info.tag@
            == tag_name@ && info.page_url@ == html_url@),
        !spec_is_newer(tag_name@, CURRENT_VERSION@) ==> r is None,
{
    if !is_newer(&tag_name, CURRENT_VERSION) {
        return None;
    }
    Some(UpdateInfo { tag: tag_name, page_url: html_url })
}

/// A tag is never newer than itself, and newness does not depend on the
/// order of the two versions; a leading 'v' makes no difference.
pub proof fn law_is_newer(a: Seq<char>, b: Seq<char>)
    ensures
        !spec_is_newer(a, a),
        spec_is_newer(a, b) == spec_is_newer(b, a),
        spec_is_newer(seq!['v'] + a, b) == spec_is_newer(a, b),
{
    let va = seq!['v'] + a;
    assert(va.drop_first() =~= a);
}

/// A release is an update exactly when its version differs from this one:
/// for versions written without a leading 'v', any two different versions
/// (of whatever length) are newer than each other, and equal ones are not.
pub proof fn law_is_newer_when_different(a: Seq<char>, b: Seq<char>)
    requires
        a.len() == 0 || a[0] != 'v',
        b.len() == 0 || b[0] != 'v',
    ensures
        spec_is_newer(a, b) <==> a != b,
        spec_is_newer(seq!['v'] + a, seq!['v'] + b) <==> a != b,
{
    let va = seq!['v'] + a;
    let vb = seq!['v'] + b;
    assert(va.drop_first() =~= a);
    assert(vb.drop_first() =~= b);
    assert(va[0] == 'v' && vb[0] == 'v');
    assert(strip_leading_v(va) == strip_leading_v(a));
    assert(strip_leading_v(vb) == strip_leading_v(b));
}

} // verus!
