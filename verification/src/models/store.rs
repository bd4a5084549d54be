//! The credential store as the use cases rely on it: a sequence of records
//! in which no username occurs twice, searched by username and grown by
//! inserts that give each new record its id. The store itself lives outside
//! this library; what is proved here holds of any store that behaves so.

use crate::common::{conflict, internal, unauthorized, ErrorView};
use crate::models::user::UserView;
use crate::modules::auth::dto::{LoginView, UserDtoView};
use crate::modules::auth::service::{credentials_accepted, grant_outcome, login_outcome, registers};
use vstd::prelude::*;

verus! {

/// No username occurs in two records.
pub open spec fn usernames_unique(records: Seq<UserView>) -> bool {
    forall|i: int, j: int|
        0 <= i < j < records.len() ==> records[i].username != records[j].username
}

/// The first record with this username.
pub open spec fn find_by_username(records: Seq<UserView>, username: Seq<char>) -> Option<UserView>
    decreases records.len(),
{
    if records.len() == 0 {
        None
    } else if records.first().username == username {
        Some(records.first())
    } else {
        find_by_username(records.drop_first(), username)
    }
}

/// How many records have this username.
pub open spec fn count_named(records: Seq<UserView>, username: Seq<char>) -> nat
    decreases records.len(),
{
    if records.len() == 0 {
        0
    } else {
        count_named(records.drop_last(), username) + if records.last().username == username {
            1nat
        } else {
            0nat
        }
    }
}

/// `entity` as the store keeps it once it has given it `id`.
pub open spec fn stored(entity: UserView, id: Seq<char>) -> UserView {
    UserView { id: Some(id), ..entity }
}

/// One registration against the store: the records after it, and its
/// answer. `entity` is the record that the use case built and `id` the id
/// that the store would give it.
pub open spec fn register(
    records: Seq<UserView>,
    dto: UserDtoView,
    entity: UserView,
    id: Seq<char>,
) -> (Seq<UserView>, Result<Seq<char>, ErrorView>) {
    match find_by_username(records, dto.username) {
        Some(_) => (records, Err(conflict())),
        None => (records.push(stored(entity, id)), Ok(id)),
    }
}

/// A search finds a record exactly when some record has the username, and
/// what it finds has the username.
pub proof fn lemma_find_by_username(records: Seq<UserView>, username: Seq<char>)
    ensures
        find_by_username(records, username) is Some <==> exists|i: int|
            0 <= i < records.len() && #[trigger] records[i].username == username,
        find_by_username(records, username) matches Some(user) ==> user.username == username
            && records.contains(user),
    decreases records.len(),
{
    if records.len() > 0 && records.first().username != username {
        let rest = records.drop_first();
        lemma_find_by_username(rest, username);
        if find_by_username(rest, username) is Some {
            let i = choose|i: int| 0 <= i < rest.len() && #[trigger] rest[i].username == username;
            assert(records[i + 1].username == username);
            let user = find_by_username(rest, username)->0;
            let k = choose|k: int| 0 <= k < rest.len() && rest[k] == user;
            assert(records[k + 1] == user);
        } else {
            assert forall|i: int| 0 <= i < records.len() implies #[trigger] records[i].username
                != username by {
                if i > 0 {
                    assert(rest[i - 1].username != username);
                }
            }
        }
    } else if records.len() > 0 {
        assert(records[0].username == username);
    }
}

/// Where no username occurs twice, a username that occurs at all occurs
/// once.
pub proof fn lemma_count_named(records: Seq<UserView>, username: Seq<char>)
    requires
        usernames_unique(records),
    ensures
        count_named(records, username) == if find_by_username(records, username) is Some {
            1nat
        } else {
            0nat
        },
    decreases records.len(),
{
    lemma_find_by_username(records, username);
    if records.len() > 0 {
        let rest = records.drop_last();
        lemma_count_named(rest, username);
        lemma_find_by_username(rest, username);
        if records.last().username == username {
            if find_by_username(rest, username) is Some {
                let i = choose|i: int| 0 <= i < rest.len() && #[trigger] rest[i].username == username;
                assert(records[i].username == records[records.len() - 1].username);
            }
            assert(records[records.len() - 1].username == username);
        } else if find_by_username(records, username) is Some {
            let i = choose|i: int|
                0 <= i < records.len() && #[trigger] records[i].username == username;
            assert(rest[i].username == username);
        } else if find_by_username(rest, username) is Some {
            let i = choose|i: int| 0 <= i < rest.len() && #[trigger] rest[i].username == username;
            assert(records[i].username == username);
        }
    }
}

/// A record that was inserted under a free username is the one that a
/// search for that username finds, and the usernames stay unique.
pub proof fn lemma_inserted_is_found(records: Seq<UserView>, entity: UserView, id: Seq<char>)
    requires
        usernames_unique(records),
        find_by_username(records, entity.username) is None,
    ensures
        usernames_unique(records.push(stored(entity, id))),
        find_by_username(records.push(stored(entity, id)), entity.username) == Some(
            stored(entity, id),
        ),
    decreases records.len(),
{
    let after = records.push(stored(entity, id));
    lemma_find_by_username(records, entity.username);
    assert forall|i: int, j: int| 0 <= i < j < after.len() implies after[i].username
        != after[j].username by {
        if j == records.len() {
            assert(records[i].username != entity.username);
        }
    }
    if records.len() > 0 {
        let rest = records.drop_first();
        assert(records.first().username != entity.username) by {
            assert(records[0].username != entity.username);
        }
        lemma_find_by_username(rest, entity.username);
        assert forall|i: int| 0 <= i < rest.len() implies #[trigger] rest[i].username
            != entity.username by {
            assert(records[i + 1].username != entity.username);
        }
        assert forall|i: int, j: int| 0 <= i < j < rest.len() implies rest[i].username
            != rest[j].username by {
            assert(records[i + 1].username != records[j + 1].username);
        }
        lemma_inserted_is_found(rest, entity, id);
        assert(after.drop_first() =~= rest.push(stored(entity, id)));
    } else {
        assert(after.drop_first().len() == 0);
    }
}

/// Registering the same username twice: the second registration is a
/// conflict and stores nothing, and the store then holds exactly one record
/// with that username.
pub proof fn lemma_second_registration_conflicts(
    records: Seq<UserView>,
    first: UserDtoView,
    first_entity: UserView,
    first_id: Seq<char>,
    second: UserDtoView,
    second_entity: UserView,
    second_id: Seq<char>,
)
    requires
        usernames_unique(records),
        registers(first, first_entity),
        registers(second, second_entity),
        first.username == second.username,
    ensures
        ({
            let (after_first, _) = register(records, first, first_entity, first_id);
            let (after_second, answer) = register(after_first, second, second_entity, second_id);
            &&& answer == Err::<Seq<char>, ErrorView>(conflict())
            &&& after_second == after_first
            &&& usernames_unique(after_second)
            &&& count_named(after_second, first.username) == 1
        }),
{
    let (after_first, _) = register(records, first, first_entity, first_id);
    if find_by_username(records, first.username) is None {
        lemma_inserted_is_found(records, first_entity, first_id);
    }
    lemma_count_named(after_first, first.username);
}

/// A pair of username and password that was registered logs in: the
/// registration answers with the new id, a search for the username then
/// finds the record under that id, the credentials are accepted, and login
/// answers with the token issued to that id.
pub proof fn lemma_registered_pair_logs_in(
    records: Seq<UserView>,
    dto: UserDtoView,
    entity: UserView,
    id: Seq<char>,
    secret: Seq<char>,
    lifetime_minutes: i32,
    now: usize,
)
    requires
        usernames_unique(records),
        find_by_username(records, dto.username) is None,
        registers(dto, entity),
    ensures
        ({
            let (after, answer) = register(records, dto, entity, id);
            let found = find_by_username(after, dto.username);
            let params = LoginView { username: dto.username, password: dto.password };
            &&& answer == Ok::<Seq<char>, ErrorView>(id)
            &&& found == Some(stored(entity, id))
            &&& credentials_accepted(params, found)
            &&& login_outcome(params, found, secret, lifetime_minutes, now) == grant_outcome(
                true,
                id,
                now,
                lifetime_minutes,
                secret,
            )
            &&& login_outcome(params, found, secret, lifetime_minutes, now) != Err::<
                Seq<char>,
                ErrorView,
            >(unauthorized())
        }),
{
    lemma_inserted_is_found(records, entity, id);
    lemma_codes_differ();
}

/// The error of a refused login is not the error of a fault.
pub proof fn lemma_codes_differ()
    ensures
        forall|message: Seq<char>| #[trigger] internal(message) != unauthorized(),
        conflict() != unauthorized(),
{
    reveal_strlit("401");
    reveal_strlit("400");
    reveal_strlit("500");
    assert("401"@.len() == 3 && "401"@[0] == '4' && "401"@[2] == '1');
    assert("500"@[0] == '5');
    assert("400"@[2] == '0');
}

} // verus!
