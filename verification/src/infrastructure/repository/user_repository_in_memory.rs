//! A repository that keeps its rows in memory, oldest first.

use vstd::prelude::*;

use crate::domain::user::User;
use crate::domain::user::UserView;
use crate::domain::user_error::UserRepositoryError;
use crate::domain::user_id::UserId;
use crate::domain::user_repository_interface::has_email;
use crate::domain::user_repository_interface::has_id;
use crate::domain::user_repository_interface::is_listing_by_name;
use crate::domain::user_repository_interface::lemma_first_with_id_at;
use crate::domain::user_repository_interface::lemma_name_le_reflexive;
use crate::domain::user_repository_interface::lemma_name_le_total;
use crate::domain::user_repository_interface::lemma_name_le_transitive;
use crate::domain::user_repository_interface::name_le;
use crate::domain::user_repository_interface::sorted_by_name;
use crate::domain::user_repository_interface::user_views;
use crate::domain::user_repository_interface::UserRepositoryInterface;

verus! {

/// Compares two texts with the order that `str` has in the standard library,
/// which goes by the bytes of the texts and so by the code points of their
/// characters.
#[verifier::external_body]
fn comes_no_later(a: &str, b: &str) -> (le: bool)
    ensures
        le == name_le(a@, b@),
{
    a <= b
}

/// Whether `order` says for each user of `list` which row it is, no row
/// twice, and the users of one name stand in the order of their rows.
pub open spec fn keeps_stored_order(
    rows: Seq<UserView>,
    list: Seq<UserView>,
    order: Seq<int>,
) -> bool {
    &&& order.len() == list.len()
    &&& forall|i: int|
        0 <= i < list.len() ==> 0 <= #[trigger] order[i] < rows.len() && list[i] == rows[order[i]]
    &&& forall|i: int, j: int|
        0 <= i < j < list.len() ==> #[trigger] order[i] != #[trigger] order[j] && (list[i].name
            == list[j].name ==> order[i] < order[j])
}

/// Whether `list` shows the rows `rows` ordered by name, rows of one name
/// oldest first.
pub open spec fn is_stable_listing(rows: Seq<UserView>, list: Seq<UserView>) -> bool {
    is_listing_by_name(rows, list) && exists|order: Seq<int>|
        keeps_stored_order(rows, list, order)
}

/// Puts `user` into a list that is ordered by name, behind every user whose
/// name comes no later than its own, and returns the place it took.
fn insert_by_name(list: &mut Vec<User>, user: User) -> (position: usize)
    requires
        sorted_by_name(user_views(old(list)@)),
    ensures
        position <= old(list).len(),
        user_views(final(list)@) == user_views(old(list)@).insert(position as int, user@),
        sorted_by_name(user_views(final(list)@)),
        user_views(final(list)@).to_multiset() == user_views(old(list)@).to_multiset().insert(
            user@,
        ),
        forall|i: int|
            position <= i < old(list).len() ==> !name_le(
                (#[trigger] user_views(old(list)@)[i]).name,
                user.name@,
            ),
{
    let ghost before = user_views(list@);
    let mut position: usize = 0;
    while position < list.len() && comes_no_later(
        list[position].name.as_str(),
        user.name.as_str(),
    )
        invariant
            position <= list.len(),
            user_views(list@) == before,
            forall|i: int| 0 <= i < position ==> name_le((#[trigger] before[i]).name, user.name@),
        decreases list.len() - position,
    {
        position = position + 1;
    }
    list.insert(position, user);
    let ghost after = user_views(list@);
    proof {
        let at = position as int;
        assert(after =~= before.insert(at, user@));
        assert forall|i: int| at <= i < before.len() implies !name_le(
            (#[trigger] before[i]).name,
            user.name@,
        ) by {
            if i > at && name_le(before[i].name, user.name@) {
                lemma_name_le_transitive(before[at].name, before[i].name, user.name@);
            }
        }
        assert forall|i: int, j: int| 0 <= i < j < after.len() implies name_le(
            (#[trigger] after[i]).name,
            (#[trigger] after[j]).name,
        ) by {
            if j < at {
                assert(after[i] == before[i] && after[j] == before[j]);
            } else if j == at {
                assert(after[i] == before[i]);
            } else if i == at {
                assert(after[j] == before[j - 1]);
                lemma_name_le_total(before[j - 1].name, user.name@);
            } else if i < at {
                assert(after[i] == before[i] && after[j] == before[j - 1]);
            } else {
                assert(after[i] == before[i - 1] && after[j] == before[j - 1]);
            }
        }
        assert(after.remove(at) =~= before);
        assert(after[at] == user@);
        after.to_multiset_ensures();
        vstd::seq_lib::to_multiset_remove(after, at);
        assert(after.to_multiset() =~= before.to_multiset().insert(user@));
    }
    position
}

/// A store of users in memory. It never faults: it refuses a user only where
/// it holds the user's identifier already.
pub struct UserRepositoryInMemory {
    users: Vec<User>,
}

impl UserRepositoryInMemory {
    /// An empty store.
    pub fn new() -> (repository: Self)
        ensures
            repository.rows() == Seq::<UserView>::empty(),
            !repository.may_fault(),
    {
        let repository = UserRepositoryInMemory { users: Vec::new() };
        assert(repository.rows() =~= Seq::<UserView>::empty());
        repository
    }

    /// The number of stored users.
    pub fn len(&self) -> (count: usize)
        ensures
            count == self.rows().len(),
    {
        self.users.len()
    }

    /// Whether a stored user has the identifier `id`.
    pub fn contains_id(&self, id: &UserId) -> (found: bool)
        ensures
            found == has_id(self.rows(), *id),
    {
        let mut index: usize = 0;
        while index < self.users.len()
            invariant
                index <= self.users.len(),
                forall|i: int| 0 <= i < index ==> (#[trigger] self.rows()[i]).id != *id,
            decreases self.users.len() - index,
        {
            if self.users[index].id == *id {
                assert(self.rows()[index as int].id == *id);
                return true;
            }
            index = index + 1;
        }
        false
    }

    /// Whether a stored user has the email `email`.
    pub fn contains_email(&self, email: &str) -> (found: bool)
        ensures
            found == has_email(self.rows(), email@),
    {
        let wanted = String::from_str(email);
        let mut index: usize = 0;
        while index < self.users.len()
            invariant
                index <= self.users.len(),
                wanted@ == email@,
                forall|i: int| 0 <= i < index ==> (#[trigger] self.rows()[i]).email != email@,
            decreases self.users.len() - index,
        {
            if self.users[index].email == wanted {
                assert(self.rows()[index as int].email == email@);
                return true;
            }
            index = index + 1;
        }
        false
    }
}

impl UserRepositoryInterface for UserRepositoryInMemory {
    closed spec fn rows(&self) -> Seq<UserView> {
        user_views(self.users@)
    }

    open spec fn may_fault(&self) -> bool {
        false
    }

    fn create(&mut self, user: &User) -> (result: Result<User, UserRepositoryError>)
        ensures
            result is Ok <==> !has_id(old(self).rows(), user.id),
    {
        if self.contains_id(&user.id) {
            Err(UserRepositoryError::Storage(String::from_str("Failed to insert user")))
        } else {
            let ghost before = self.rows();
            self.users.push(user.clone());
            assert(self.rows() =~= before.push(user@));
            Ok(user.clone())
        }
    }

    fn find_all(&self) -> (result: Result<Vec<User>, UserRepositoryError>)
        ensures
            result matches Ok(users) && is_stable_listing(self.rows(), user_views(users@)),
    {
        let mut listed: Vec<User> = Vec::new();
        let mut index: usize = 0;
        let ghost mut order: Seq<int> = Seq::empty();
        assert(user_views(self.users@.subrange(0, 0)) =~= user_views(listed@));
        while index < self.users.len()
            invariant
                index <= self.users.len(),
                sorted_by_name(user_views(listed@)),
                user_views(listed@).to_multiset() == user_views(
                    self.users@.subrange(0, index as int),
                ).to_multiset(),
                keeps_stored_order(self.rows(), user_views(listed@), order),
                forall|i: int| 0 <= i < order.len() ==> #[trigger] order[i] < index,
            decreases self.users.len() - index,
        {
            let ghost seen = user_views(self.users@.subrange(0, index as int));
            let ghost before = user_views(listed@);
            let ghost order_before = order;
            let user = self.users[index].clone();
            let position = insert_by_name(&mut listed, user);
            proof {
                let row = self.users[index as int]@;
                let at = position as int;
                let after = user_views(listed@);
                assert(user_views(self.users@.subrange(0, index + 1)) =~= seen.push(row));
                vstd::seq_lib::to_multiset_build(seen, row);
                order = order_before.insert(at, index as int);
                lemma_name_le_reflexive(row.name);
                assert forall|i: int| 0 <= i < after.len() implies 0 <= #[trigger] order[i]
                    < self.rows().len() && after[i] == self.rows()[order[i]] by {
                    if i < at {
                        assert(order[i] == order_before[i] && after[i] == before[i]);
                    } else if i > at {
                        assert(order[i] == order_before[i - 1] && after[i] == before[i - 1]);
                    }
                }
                assert forall|i: int, j: int| 0 <= i < j < after.len() implies #[trigger] order[i]
                    != #[trigger] order[j] && (after[i].name == after[j].name ==> order[i]
                    < order[j]) by {
                    if j < at {
                        assert(order[i] == order_before[i] && order[j] == order_before[j]);
                        assert(after[i] == before[i] && after[j] == before[j]);
                    } else if j == at {
                        assert(order[i] == order_before[i]);
                    } else if i == at {
                        assert(order[j] == order_before[j - 1]);
                        assert(after[j] == before[j - 1]);
                    } else if i < at {
                        assert(order[i] == order_before[i] && order[j] == order_before[j - 1]);
                        assert(after[i] == before[i] && after[j] == before[j - 1]);
                    } else {
                        assert(order[i] == order_before[i - 1] && order[j] == order_before[j - 1]);
                        assert(after[i] == before[i - 1] && after[j] == before[j - 1]);
                    }
                }
            }
            index = index + 1;
        }
        assert(self.users@.subrange(0, index as int) =~= self.users@);
        Ok(listed)
    }

    fn find_by_id(&self, user_id: &UserId) -> (result: Result<User, UserRepositoryError>)
        ensures
            result is Ok <==> has_id(self.rows(), *user_id),
    {
        let mut index: usize = 0;
        while index < self.users.len()
            invariant
                index <= self.users.len(),
                forall|i: int| 0 <= i < index ==> (#[trigger] self.rows()[i]).id != *user_id,
            decreases self.users.len() - index,
        {
            if self.users[index].id == *user_id {
                proof {
                    lemma_first_with_id_at(self.rows(), *user_id, index as int);
                }
                return Ok(self.users[index].clone());
            }
            index = index + 1;
        }
        Err(UserRepositoryError::NotFound)
    }
}

} // verus!
