use vstd::prelude::*;
use vstd::string::*;
use crate::model::{RemoteItem, RemoteItemView};

verus! {

/// The permission identifier that marks public link-sharing.
pub const ANYONE_WITH_LINK: &'static str = "anyoneWithLink";

/// Whether `char::is_numeric` holds of a character.
pub uninterp spec fn numeric_char(c: char) -> bool;

/// Relies on `char::is_numeric`: true for the characters of Unicode's number
/// categories; among ASCII characters, exactly for the ten decimal digits.
#[verifier::external_body]
fn char_is_numeric(c: char) -> (r: bool)
    ensures
        r == numeric_char(c),
        (c as u32) < 128 ==> (r <==> ('0' as u32 <= c as u32 && c as u32 <= '9' as u32)),
{
    c.is_numeric()
}

/// A stale link grant: a non-empty identifier that ends in `k` and whose
/// other characters are all numeric. `"k"` alone is stale.
pub open spec fn is_stale_link(p: Seq<char>) -> bool {
    &&& p.len() > 0
    &&& p.last() == 'k'
    &&& forall|i: int| 0 <= i < p.len() - 1 ==> numeric_char(#[trigger] p[i])
}

/// The sentinel that marks an item as shared with anyone holding its link.
pub open spec fn is_link_grant(p: Seq<char>) -> bool {
    p == ANYONE_WITH_LINK@
}

/// The stale identifiers among `ps`, in their order.
pub open spec fn stale_of(ps: Seq<Seq<char>>) -> Seq<Seq<char>>
    decreases ps.len(),
{
    if ps.len() == 0 {
        Seq::empty()
    } else if is_stale_link(ps.last()) {
        stale_of(ps.drop_last()).push(ps.last())
    } else {
        stale_of(ps.drop_last())
    }
}

/// An item is shared when one of its permission identifiers is the sentinel.
pub open spec fn shared_spec(item: RemoteItemView) -> bool {
    exists|i: int| 0 <= i < item.perms.len() && is_link_grant(#[trigger] item.perms[i])
}

/// Whether a permission identifier has the stale-link shape.
pub fn is_stale_permission(p: &str) -> (r: bool)
    ensures
        r == is_stale_link(p@),
{
    let n = p.unicode_len();
    if n == 0 {
        return false;
    }
    if p.get_char(n - 1) != 'k' {
        return false;
    }
    let mut i: usize = 0;
    while i < n - 1
        invariant
            n == p@.len(),
            n > 0,
            i <= n - 1,
            forall|j: int| 0 <= j < i ==> numeric_char(#[trigger] p@[j]),
        decreases n - 1 - i,
    {
        if !char_is_numeric(p.get_char(i)) {
            return false;
        }
        i = i + 1;
    }
    true
}

/// Whether a permission identifier is the link-sharing sentinel.
pub fn is_link_permission(p: &String) -> (r: bool)
    ensures
        r == is_link_grant(p@),
{
    let sentinel = String::from_str(ANYONE_WITH_LINK);
    *p == sentinel
}

/// The outcome of auditing one item: the permissions to revoke, in order, and
/// whether the item is link-shared.
pub struct PermissionAudit {
    pub revoke: Vec<String>,
    pub shared: bool,
}

/// Classifies every permission identifier of `item`. The stale ones are to be
/// revoked, all of them and in their order; the item is shared exactly when
/// one identifier is the sentinel. Stale identifiers never mark it shared.
pub fn audit_permissions(item: &RemoteItem) -> (r: PermissionAudit)
    ensures
        r.revoke.deep_view() == stale_of(item@.perms),
        r.shared == shared_spec(item@),
{
    let mut revoke: Vec<String> = Vec::new();
    let mut shared = false;
    match &item.permission_ids {
        None => {
            assert(item@.perms.len() == 0);
        },
        Some(ids) => {
            let ghost ps = ids.deep_view();
            let mut i: usize = 0;
            while i < ids.len()
                invariant
                    ps == ids.deep_view(),
                    ps == item@.perms,
                    i <= ids.len(),
                    revoke.deep_view() == stale_of(ps.take(i as int)),
                    shared == (exists|j: int| 0 <= j < i && is_link_grant(#[trigger] ps[j])),
                decreases ids.len() - i,
            {
                let id = &ids[i];
                assert(ps.take(i as int + 1).drop_last() =~= ps.take(i as int));
                assert(ps.take(i as int + 1).last() == id@);
                if is_stale_permission(id.as_str()) {
                    revoke.push(id.clone());
                    assert(revoke.deep_view() =~= stale_of(ps.take(i as int)).push(id@));
                }
                if is_link_permission(id) {
                    shared = true;
                }
                assert(is_link_grant(ps[i as int]) ==> exists|j: int| 0 <= j < i + 1 && is_link_grant(#[trigger] ps[j]));
                i = i + 1;
            }
            assert(ps.take(ids.len() as int) =~= ps);
        },
    }
    PermissionAudit { revoke, shared }
}

} // verus!
