//! A user record with a growable list of post identifiers.
//!
//! Post identifiers are unsigned. Callers that append identifiers in
//! increasing order keep the list sorted, which `find_post` exploits with a
//! binary search; `has_post` is the linear-scan oracle it must agree with.

use vstd::prelude::*;
use crate::text::{dec_digits, u32_to_string};

verus! {

/// The identifier list is in non-decreasing order.
pub open spec fn sorted(s: Seq<u32>) -> bool {
    forall|i: int, j: int| 0 <= i <= j < s.len() ==> s[i] <= s[j]
}

/// A user: an identifier, a name, an email address, post identifiers, and
/// the most recently added post.
#[derive(Debug, Clone)]
pub struct User {
    pub id: u32,
    pub name: String,
    pub email: String,
    pub posts: Vec<u32>,
    pub last_post_id: Option<u32>,
}

impl User {
    /// A fresh user owns no posts.
    pub fn new(id: u32, name: String, email: String) -> (u: User)
        ensures
            u.id == id,
            u.name == name,
            u.email == email,
            u.posts@.len() == 0,
            u.last_post_id is None,
    {
        User { id, name, email, posts: Vec::new(), last_post_id: None }
    }

    /// Appends one post identifier and remembers it as the latest.
    pub fn add_post(&mut self, post_id: u32)
        ensures
            final(self).posts@ == old(self).posts@.push(post_id),
            final(self).last_post_id == Some(post_id),
            final(self).id == old(self).id,
            final(self).name == old(self).name,
            final(self).email == old(self).email,
    {
        self.posts.push(post_id);
        self.last_post_id = Some(post_id);
    }

    /// The user's name, borrowed.
    pub fn get_name(&self) -> (r: &str)
        ensures
            r@ == self.name@,
    {
        self.name.as_str()
    }

    /// The user's name as an owned copy.
    pub fn get_name_owned(&self) -> (r: String)
        ensures
            r@ == self.name@,
    {
        self.name.clone()
    }

    /// Moves the name out, consuming the user.
    pub fn take_name(self) -> (r: String)
        ensures
            r == self.name,
    {
        self.name
    }

    /// Binary search for a post identifier. The caller must keep the list
    /// sorted; the search then decides membership exactly.
    pub fn find_post(&self, post_id: u32) -> (r: bool)
        requires
            sorted(self.posts@),
        ensures
            r == self.posts@.contains(post_id),
    {
        let v = &self.posts;
        let mut lo: usize = 0;
        let mut hi: usize = v.len();
        while lo < hi
            invariant
                v@ == self.posts@,
                lo <= hi <= v@.len(),
                sorted(v@),
                forall|k: int| 0 <= k < v@.len() && v@[k] == post_id ==> lo <= k < hi,
            decreases hi - lo,
        {
            let mid = lo + (hi - lo) / 2;
            let x = v[mid];
            if x == post_id {
                assert(self.posts@.contains(post_id)) by {
                    assert(self.posts@[mid as int] == post_id);
                }
                return true;
            } else if x < post_id {
                lo = mid + 1;
            } else {
                hi = mid;
            }
        }
        proof {
            assert(!v@.contains(post_id)) by {
                if v@.contains(post_id) {
                    let k = choose|k: int| 0 <= k < v@.len() && v@[k] == post_id;
                    assert(lo <= k < hi);
                }
            }
        }
        false
    }

    /// Linear-scan membership: the oracle `find_post` agrees with on every
    /// sorted list.
    pub fn has_post(&self, post_id: u32) -> (r: bool)
        ensures
            r == self.posts@.contains(post_id),
    {
        let v = &self.posts;
        let mut i: usize = 0;
        while i < v.len()
            invariant
                v@ == self.posts@,
                0 <= i <= v@.len(),
                forall|j: int| 0 <= j < i ==> v@[j] != post_id,
            decreases v@.len() - i,
        {
            if v[i] == post_id {
                assert(self.posts@.contains(post_id)) by {
                    assert(self.posts@[i as int] == post_id);
                }
                return true;
            }
            i = i + 1;
        }
        proof {
            assert(!v@.contains(post_id)) by {
                if v@.contains(post_id) {
                    let k = choose|k: int| 0 <= k < v@.len() && v@[k] == post_id;
                }
            }
        }
        false
    }

    /// The post identifiers, borrowed.
    pub fn get_posts(&self) -> (r: &[u32])
        ensures
            r@ == self.posts@,
    {
        self.posts.as_slice()
    }

    /// The post identifiers as an owned copy.
    pub fn get_all_posts(&self) -> (r: Vec<u32>)
        ensures
            r@ == self.posts@,
    {
        let mut out: Vec<u32> = Vec::new();
        let mut i: usize = 0;
        while i < self.posts.len()
            invariant
                0 <= i <= self.posts@.len(),
                out@ == self.posts@.subrange(0, i as int),
            decreases self.posts@.len() - i,
        {
            out.push(self.posts[i]);
            proof {
                assert(out@ =~= self.posts@.subrange(0, i + 1));
            }
            i = i + 1;
        }
        proof {
            assert(out@ =~= self.posts@);
        }
        out
    }
}

/// The cross-check oracle: on any sorted post list and any queried
/// identifier, presence by binary search and presence by linear scan are
/// the same answer.
pub proof fn lemma_search_oracle(u: User, post_id: u32, by_binary: bool, by_linear: bool)
    requires
        sorted(u.posts@),
        call_ensures(User::find_post, (&u, post_id), by_binary),
        call_ensures(User::has_post, (&u, post_id), by_linear),
    ensures
        by_binary == by_linear,
{
}

/// Builds `count` users named `User 0`, `User 1`, ... (a space before the
/// number) with matching email addresses and no posts.
pub fn create_test_users(count: usize) -> (r: Vec<User>)
    requires
        count <= u32::MAX,
    ensures
        r@.len() == count,
        forall|i: int| 0 <= i < count ==> #[trigger] r@[i].id == i,
        forall|i: int| 0 <= i < count ==> (#[trigger] r@[i].name)@ == "User "@ + dec_digits(i as nat),
        forall|i: int| 0 <= i < count ==> (#[trigger] r@[i].email)@ == "user"@ + dec_digits(i as nat)
            + "@example.com"@,
        forall|i: int| 0 <= i < count ==> (#[trigger] r@[i].posts)@.len() == 0,
        forall|i: int| 0 <= i < count ==> #[trigger] r@[i].last_post_id is None,
{
    let mut users: Vec<User> = Vec::new();
    let mut i: usize = 0;
    while i < count
        invariant
            0 <= i <= count,
            count <= u32::MAX,
            users@.len() == i,
            forall|j: int| 0 <= j < i ==> #[trigger] users@[j].id == j,
            forall|j: int| 0 <= j < i ==> (#[trigger] users@[j].name)@ == "User "@ + dec_digits(
                j as nat,
            ),
            forall|j: int| 0 <= j < i ==> (#[trigger] users@[j].email)@ == "user"@ + dec_digits(
                j as nat,
            ) + "@example.com"@,
            forall|j: int| 0 <= j < i ==> (#[trigger] users@[j].posts)@.len() == 0,
            forall|j: int| 0 <= j < i ==> #[trigger] users@[j].last_post_id is None,
        decreases count - i,
    {
        let id = i as u32;
        let digits = u32_to_string(id);
        let mut name = String::from_str("User ");
        name.append(digits.as_str());
        let mut email = String::from_str("user");
        email.append(digits.as_str());
        email.append("@example.com");
        let user = User::new(id, name, email);
        users.push(user);
        i = i + 1;
    }
    users
}

/// The tuned builder reserves the whole list up front and writes the
/// compact name form without the space: `User0`, `User1`, ...
pub fn create_test_users_optimized(count: usize) -> (r: Vec<User>)
    requires
        count <= u32::MAX,
    ensures
        r@.len() == count,
        forall|i: int| 0 <= i < count ==> #[trigger] r@[i].id == i,
        forall|i: int| 0 <= i < count ==> (#[trigger] r@[i].name)@ == "User"@ + dec_digits(i as nat),
        forall|i: int| 0 <= i < count ==> (#[trigger] r@[i].email)@ == "user"@ + dec_digits(i as nat)
            + "@example.com"@,
        forall|i: int| 0 <= i < count ==> (#[trigger] r@[i].posts)@.len() == 0,
        forall|i: int| 0 <= i < count ==> #[trigger] r@[i].last_post_id is None,
{
    let mut users: Vec<User> = Vec::with_capacity(count);
    let mut i: usize = 0;
    while i < count
        invariant
            0 <= i <= count,
            count <= u32::MAX,
            users@.len() == i,
            forall|j: int| 0 <= j < i ==> #[trigger] users@[j].id == j,
            forall|j: int| 0 <= j < i ==> (#[trigger] users@[j].name)@ == "User"@ + dec_digits(
                j as nat,
            ),
            forall|j: int| 0 <= j < i ==> (#[trigger] users@[j].email)@ == "user"@ + dec_digits(
                j as nat,
            ) + "@example.com"@,
            forall|j: int| 0 <= j < i ==> (#[trigger] users@[j].posts)@.len() == 0,
            forall|j: int| 0 <= j < i ==> #[trigger] users@[j].last_post_id is None,
        decreases count - i,
    {
        let id = i as u32;
        let digits = u32_to_string(id);
        let mut name = String::from_str("User");
        name.append(digits.as_str());
        let mut email = String::from_str("user");
        email.append(digits.as_str());
        email.append("@example.com");
        let user = User::new(id, name, email);
        users.push(user);
        i = i + 1;
    }
    users
}

} // verus!
