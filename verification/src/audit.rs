//! What an application security audit is run on: the manifest read from the
//! string pool of an APK's binary manifest.

use vstd::prelude::*;
use crate::display::string_texts;
use crate::text::{chars_of, contains, has_infix, has_prefix, starts_with};

verus! {

broadcast use vstd::string::group_string_axioms;

/// The manifest an audit report is built from.
pub struct ManifestPlan {
    pub package_name: String,
    pub min_sdk: u32,
    pub target_sdk: u32,
    pub permissions: Vec<String>,
}

/// The package name read from a string pool: the first string holding a
/// dot, else `com.unknown.app`.
pub open spec fn package_from_pool(pool: Seq<Seq<char>>) -> Seq<char>
    decreases pool.len(),
{
    if pool.len() == 0 {
        "com.unknown.app"@
    } else if has_infix(pool[0], seq!['.']) {
        pool[0]
    } else {
        package_from_pool(pool.drop_first())
    }
}

/// The strings of a pool that name Android permissions, in pool order.
pub open spec fn permissions_in_pool(pool: Seq<Seq<char>>) -> Seq<Seq<char>>
    decreases pool.len(),
{
    if pool.len() == 0 {
        seq![]
    } else if has_prefix(pool.last(), "android.permission."@) {
        permissions_in_pool(pool.drop_last()).push(pool.last())
    } else {
        permissions_in_pool(pool.drop_last())
    }
}

fn package_name_of(pool: &Vec<String>) -> (name: String)
    ensures
        name@ == package_from_pool(string_texts(pool@)),
{
    let ghost ps = string_texts(pool@);
    let mut dot: Vec<char> = Vec::new();
    dot.push('.');
    assert(dot@ =~= seq!['.']);
    let mut i: usize = 0;
    assert(ps.subrange(0, ps.len() as int) =~= ps);
    while i < pool.len()
        invariant
            ps == string_texts(pool@),
            dot@ == seq!['.'],
            i <= pool@.len(),
            package_from_pool(ps) == package_from_pool(ps.subrange(i as int, ps.len() as int)),
        decreases pool@.len() - i,
    {
        let s = chars_of(pool[i].as_str());
        let ghost rest = ps.subrange(i as int, ps.len() as int);
        assert(rest[0] == s@);
        if contains(s.as_slice(), dot.as_slice()) {
            return pool[i].clone();
        }
        assert(rest.drop_first() =~= ps.subrange(i + 1, ps.len() as int));
        i = i + 1;
    }
    assert(ps.subrange(i as int, ps.len() as int) =~= Seq::<Seq<char>>::empty());
    "com.unknown.app".to_owned()
}

fn permissions_of(pool: &Vec<String>) -> (perms: Vec<String>)
    ensures
        string_texts(perms@) == permissions_in_pool(string_texts(pool@)),
{
    let ghost ps = string_texts(pool@);
    let prefix = chars_of("android.permission.");
    let mut perms: Vec<String> = Vec::new();
    let mut i: usize = 0;
    while i < pool.len()
        invariant
            ps == string_texts(pool@),
            prefix@ == "android.permission."@,
            i <= pool@.len(),
            string_texts(perms@) == permissions_in_pool(ps.take(i as int)),
        decreases pool@.len() - i,
    {
        let s = chars_of(pool[i].as_str());
        let ghost next = ps.take(i + 1);
        assert(next.drop_last() =~= ps.take(i as int));
        assert(next.last() == s@);
        if starts_with(s.as_slice(), prefix.as_slice()) {
            perms.push(pool[i].clone());
            assert(string_texts(perms@) =~= permissions_in_pool(ps.take(i as int)).push(s@));
        }
        i = i + 1;
    }
    assert(ps.take(pool@.len() as int) =~= ps);
    perms
}

/// The manifest an audit runs on. From a string pool: the package name
/// found in it, SDK levels 26 and 34, and the permissions named in it. When
/// the binary manifest could not be read: `com.app.audited`, SDK levels 28
/// and 34, and the Internet permission.
pub fn manifest_plan(pool: Option<Vec<String>>) -> (plan: ManifestPlan)
    ensures
        match pool {
            Some(p) => {
                &&& plan.package_name@ == package_from_pool(string_texts(p@))
                &&& plan.min_sdk == 26
                &&& plan.target_sdk == 34
                &&& string_texts(plan.permissions@) == permissions_in_pool(string_texts(p@))
            },
            None => {
                &&& plan.package_name@ == "com.app.audited"@
                &&& plan.min_sdk == 28
                &&& plan.target_sdk == 34
                &&& string_texts(plan.permissions@) == seq!["android.permission.INTERNET"@]
            },
        },
        forall|i: int| 0 <= i < plan.permissions@.len()
            ==> has_prefix(#[trigger] plan.permissions@[i]@, "android.permission."@),
{
    match pool {
        Some(p) => {
            let package_name = package_name_of(&p);
            let permissions = permissions_of(&p);
            proof {
                crate::laws::law_audit_lists_exactly_permissions(string_texts(p@));
                assert forall|i: int| 0 <= i < permissions@.len()
                    implies has_prefix(#[trigger] permissions@[i]@, "android.permission."@) by {
                    assert(string_texts(permissions@)[i] == permissions@[i]@);
                }
            }
            ManifestPlan { package_name, min_sdk: 26, target_sdk: 34, permissions }
        },
        None => {
            let mut permissions: Vec<String> = Vec::new();
            permissions.push("android.permission.INTERNET".to_owned());
            assert(string_texts(permissions@) =~= seq!["android.permission.INTERNET"@]);
            proof {
                reveal_strlit("android.permission.INTERNET");
                reveal_strlit("android.permission.");
                assert(permissions@[0]@ == string_texts(permissions@)[0]);
                assert("android.permission.INTERNET"@.subrange(0, 19) =~= "android.permission."@);
            }
            ManifestPlan { package_name: "com.app.audited".to_owned(), min_sdk: 28, target_sdk: 34, permissions }
        },
    }
}

} // verus!
