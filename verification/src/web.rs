//! Decisions of the HTTP browsing surface.
//!
//! The HTTP handlers themselves live outside the library; what they decide
//! — which store command a contact edit maps to, which asset class a path
//! names, what a recording download is called — is computed here.

use crate::db::Queries;
use crate::utils::spec_dec;
use vstd::prelude::*;

verus! {

/// A browsable caller entry as edited over HTTP.
#[derive(Debug, Clone)]
pub struct User {
    pub tel: String,
    pub name: String,
}

/// The store command behind a contact edit: an empty (already trimmed) name
/// deletes the contact, anything else upserts it.
pub fn modify_caller_query(tel: String, name: String) -> (q: Queries)
    ensures
        name@.len() == 0 ==> {
            &&& q matches Queries::DeleteContacts(t)
            &&& t@ == tel@
        },
        name@.len() > 0 ==> {
            &&& q matches Queries::AddContacts(t, n)
            &&& t@ == tel@
            &&& n@ == name@
        },
{
    if name.as_str().is_empty() {
        Queries::DeleteContacts(tel)
    } else {
        Queries::AddContacts(tel, name)
    }
}

/// The asset classes the static file handler serves, by path segment.
#[derive(Clone, Copy, Debug, PartialEq, Eq, Structural)]
pub enum AssetKind {
    Js,
    Css,
    Img,
}

/// Which asset class a path segment names; anything else is not served.
pub fn asset_kind(path: &str) -> (r: Option<AssetKind>)
    ensures
        path@ == seq!['j', 's'] ==> r == Some(AssetKind::Js),
        path@ == seq!['c', 's', 's'] ==> r == Some(AssetKind::Css),
        path@ == seq!['i', 'm', 'g'] ==> r == Some(AssetKind::Img),
        path@ != seq!['j', 's'] && path@ != seq!['c', 's', 's'] && path@ != seq!['i', 'm', 'g']
            ==> r is None,
{
    let n = path.unicode_len();
    if n == 2 && path.get_char(0) == 'j' && path.get_char(1) == 's' {
        proof {
            assert(path@ =~= seq!['j', 's']);
        }
        Some(AssetKind::Js)
    } else if n == 3 && path.get_char(0) == 'c' && path.get_char(1) == 's' && path.get_char(2)
        == 's' {
        proof {
            assert(path@ =~= seq!['c', 's', 's']);
        }
        Some(AssetKind::Css)
    } else if n == 3 && path.get_char(0) == 'i' && path.get_char(1) == 'm' && path.get_char(2)
        == 'g' {
        proof {
            assert(path@ =~= seq!['i', 'm', 'g']);
        }
        Some(AssetKind::Img)
    } else {
        None
    }
}

/// The attachment name a recording downloads under: `<id>.au`.
pub fn voice_attachment_name(id: i64) -> (r: String)
    requires
        0 <= id,
    ensures
        r@ == spec_dec(id as int) + ".au"@,
{
    let mut s = crate::utils::dec_u64(id as u64);
    s.append(".au");
    s
}

} // verus!
