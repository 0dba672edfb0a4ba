//! What a store of users has to offer, stated over the rows it holds.

use vstd::prelude::*;

use crate::domain::user::User;
use crate::domain::user::UserView;
use crate::domain::user_error::UserRepositoryError;
use crate::domain::user_id::UserId;

verus! {

/// Whether some row has the identifier `id`.
pub open spec fn has_id(rows: Seq<UserView>, id: UserId) -> bool {
    exists|i: int| 0 <= i < rows.len() && (#[trigger] rows[i]).id == id
}

/// Whether some row has the email `email`.
pub open spec fn has_email(rows: Seq<UserView>, email: Seq<char>) -> bool {
    exists|i: int| 0 <= i < rows.len() && (#[trigger] rows[i]).email == email
}

/// The first row with the identifier `id`. It means something only where
/// `has_id(rows, id)` holds.
pub open spec fn first_with_id(rows: Seq<UserView>, id: UserId) -> UserView
    decreases rows.len(),
{
    if rows.len() == 0 {
        arbitrary()
    } else if rows[0].id == id {
        rows[0]
    } else {
        first_with_id(rows.drop_first(), id)
    }
}

/// The first row with an identifier is the row at `index` where that row has
/// the identifier and no row before it has.
pub proof fn lemma_first_with_id_at(rows: Seq<UserView>, id: UserId, index: int)
    requires
        0 <= index < rows.len(),
        rows[index].id == id,
        forall|i: int| 0 <= i < index ==> (#[trigger] rows[i]).id != id,
    ensures
        has_id(rows, id),
        first_with_id(rows, id) == rows[index],
    decreases index,
{
    if index > 0 {
        let rest = rows.drop_first();
        assert(rows[0].id != id);
        assert forall|i: int| 0 <= i < index - 1 implies (#[trigger] rest[i]).id != id by {
            assert(rest[i] == rows[i + 1]);
        }
        lemma_first_with_id_at(rest, id, index - 1);
    }
}

/// A row that is stored behind the others does not change which row is the
/// first with an identifier that some row had before.
pub proof fn lemma_first_with_id_survives_push(rows: Seq<UserView>, id: UserId, row: UserView)
    requires
        has_id(rows, id),
    ensures
        has_id(rows.push(row), id),
        first_with_id(rows.push(row), id) == first_with_id(rows, id),
    decreases rows.len(),
{
    let index = choose|i: int| 0 <= i < rows.len() && (#[trigger] rows[i]).id == id;
    assert(rows.push(row)[index] == rows[index]);
    if rows[0].id != id {
        let rest = rows.drop_first();
        assert(rest[index - 1] == rows[index]);
        assert(rows.push(row).drop_first() =~= rest.push(row));
        lemma_first_with_id_survives_push(rest, id, row);
    }
}

/// The order of names: text is compared character by character, by code
/// point, and a text comes before every longer text that it begins.
pub open spec fn name_le(a: Seq<char>, b: Seq<char>) -> bool
    decreases a.len(),
{
    if a.len() == 0 {
        true
    } else if b.len() == 0 {
        false
    } else if a[0] != b[0] {
        (a[0] as int) < (b[0] as int)
    } else {
        name_le(a.drop_first(), b.drop_first())
    }
}

/// A name comes no later than itself.
pub proof fn lemma_name_le_reflexive(a: Seq<char>)
    ensures
        name_le(a, a),
    decreases a.len(),
{
    if a.len() > 0 {
        lemma_name_le_reflexive(a.drop_first());
    }
}

/// Of two names one comes no later than the other.
pub proof fn lemma_name_le_total(a: Seq<char>, b: Seq<char>)
    ensures
        name_le(a, b) || name_le(b, a),
    decreases a.len(),
{
    if a.len() > 0 && b.len() > 0 && a[0] == b[0] {
        lemma_name_le_total(a.drop_first(), b.drop_first());
    }
}

/// A name that comes no later than a second, which comes no later than a
/// third, comes no later than the third.
pub proof fn lemma_name_le_transitive(a: Seq<char>, b: Seq<char>, c: Seq<char>)
    requires
        name_le(a, b),
        name_le(b, c),
    ensures
        name_le(a, c),
    decreases a.len(),
{
    if a.len() > 0 && b.len() > 0 && c.len() > 0 && a[0] == b[0] && b[0] == c[0] {
        lemma_name_le_transitive(a.drop_first(), b.drop_first(), c.drop_first());
    }
}

/// Whether the names of `list` never go down.
pub open spec fn sorted_by_name(list: Seq<UserView>) -> bool {
    forall|i: int, j: int|
        0 <= i < j < list.len() ==> name_le((#[trigger] list[i]).name, (#[trigger] list[j]).name)
}

/// Whether `list` shows exactly the rows `rows`, each as often as it is
/// stored, in the order of their names.
pub open spec fn is_listing_by_name(rows: Seq<UserView>, list: Seq<UserView>) -> bool {
    list.to_multiset() == rows.to_multiset() && sorted_by_name(list)
}

/// A listing shows every stored row.
pub proof fn lemma_listing_shows_row(rows: Seq<UserView>, list: Seq<UserView>, index: int)
    requires
        is_listing_by_name(rows, list),
        0 <= index < rows.len(),
    ensures
        list.contains(rows[index]),
        list.len() == rows.len(),
{
    rows.to_multiset_ensures();
    list.to_multiset_ensures();
    assert(rows.contains(rows[index]));
    assert(rows.to_multiset().count(rows[index]) > 0);
    assert(list.to_multiset().count(rows[index]) > 0);
}

/// What each user of `users` is.
pub open spec fn user_views(users: Seq<User>) -> Seq<UserView> {
    users.map_values(|user: User| user@)
}

/// A store of users, keyed by identifier.
///
/// The contract speaks of the rows that the store holds, and it binds the
/// stores that cannot fault: of such a store it says exactly when each
/// operation succeeds and what it returns. A store behind a connection can
/// fail at any time and can change under the hands of another writer; of a
/// store that may fault the contract promises nothing.
pub trait UserRepositoryInterface: Sized {
    /// The stored users, oldest first. It means something only of a store
    /// that cannot fault.
    open spec fn rows(&self) -> Seq<UserView> {
        Seq::empty()
    }

    /// Whether the store can answer otherwise than its rows say. A store says
    /// that it cannot by giving this a body of its own.
    open spec fn may_fault(&self) -> bool {
        true
    }

    /// Stores `user` as a new row and returns the row as stored. The store
    /// takes no second row with an identifier that it holds; a failed insert
    /// leaves the rows as they were.
    fn create(&mut self, user: &User) -> (result: Result<User, UserRepositoryError>)
        ensures
            final(self).may_fault() == old(self).may_fault(),
            !old(self).may_fault() ==> match result {
                Ok(stored) => {
                    &&& stored@ == user@
                    &&& !has_id(old(self).rows(), user.id)
                    &&& final(self).rows() == old(self).rows().push(user@)
                },
                Err(error) => {
                    &&& error is Storage
                    &&& final(self).rows() == old(self).rows()
                    &&& has_id(old(self).rows(), user.id)
                },
            },
    ;

    /// All stored users, ordered by name. An empty store gives an empty list.
    fn find_all(&self) -> (result: Result<Vec<User>, UserRepositoryError>)
        ensures
            !self.may_fault() ==> (result matches Ok(users) && is_listing_by_name(
                self.rows(),
                user_views(users@),
            )),
    ;

    /// The stored user with the identifier `user_id`, or `NotFound` where no
    /// row has it.
    fn find_by_id(&self, user_id: &UserId) -> (result: Result<User, UserRepositoryError>)
        ensures
            !self.may_fault() ==> match result {
                Ok(user) => has_id(self.rows(), *user_id) && user@ == first_with_id(
                    self.rows(),
                    *user_id,
                ),
                Err(error) => error is NotFound && !has_id(self.rows(), *user_id),
            },
    ;
}

} // verus!
