//! Properties that relate several calls of the use cases and of the web layer.

use crate::id::{is_ulid_text, ulid_canonical};
use crate::json::TokenClaims;
use crate::model::{StatusV, TodoV, UserV};
use crate::password::bcrypt_verifies;
use crate::repository::{has_todo_id, has_user_id, has_username, unique_todo_ids, UserRepository};
use crate::usecase::{
    has_status_code, password_refused_by_some, unique_status_codes, create_todo_post, create_user_post, delete_todo_post, get_todo_post, login_user_post,
    update_todo_post, upsert_todo_post, UseCaseError, UserUseCase,
};
use crate::view::{CreateTodo, CreateUser, LoginUser, UpdateTodoView, UpsertTodoView, UserView};
use crate::web::{access_token_post, authorize_post, request_token, AppError};
use vstd::prelude::*;

verus! {

/// A registered user gets a non-empty id, and a second registration under
/// the same username never succeeds: it reports the username as taken (or,
/// where storage can fail, a storage failure), and stores nothing.
pub proof fn law_username_registered_once(
    before: Seq<UserV>,
    infallible: bool,
    first: CreateUser,
    r1: Result<UserView, UseCaseError>,
    middle: Seq<UserV>,
    second: CreateUser,
    r2: Result<UserView, UseCaseError>,
    after: Seq<UserV>,
)
    requires
        create_user_post(before, infallible, first, r1, middle),
        create_user_post(middle, infallible, second, r2, after),
        second.username@ == first.username@,
        r1 is Ok,
    ensures
        r1->Ok_0@.id.len() > 0,
        r2 matches Err(UseCaseError::UsernameExists(u)) && u@ == first.username@ || r2 matches Err(
            UseCaseError::Repository(_),
        ),
        infallible ==> (r2 matches Err(UseCaseError::UsernameExists(u)) && u@ == first.username@),
        after == middle,
{
    let v = r1->Ok_0;
    assert(middle[before.len() as int] == v@);
    assert(has_username(middle, second.username@));
}

/// A user who registered can log in with the same password: the login hands
/// back the stored user (where storage can fail, looking the username up may
/// fail instead).
pub proof fn law_login_after_registration(
    before: Seq<UserV>,
    infallible: bool,
    source: CreateUser,
    r1: Result<UserView, UseCaseError>,
    after: Seq<UserV>,
    login: LoginUser,
    r2: Result<UserView, UseCaseError>,
)
    requires
        create_user_post(before, infallible, source, r1, after),
        r1 is Ok,
        login.username@ == source.username@,
        login.password@ == source.password@,
        login_user_post(after, infallible, login, r2),
    ensures
        r2 matches Ok(v) ==> v@ == r1->Ok_0@,
        r2 is Ok || r2 matches Err(UseCaseError::NotRegistered(_)),
        infallible ==> r2 is Ok,
{
    let created = r1->Ok_0@;
    assert(after[before.len() as int] == created);
    assert forall|i: int| 0 <= i < after.len() && after[i].username == source.username@ implies after[i]
        == created by {
        if i < before.len() {
            assert(before[i] == after[i]);
            assert(has_username(before, source.username@));
        }
    }
    assert(has_username(after, source.username@));
    if password_refused_by_some(after, login.username@, login.password@) {
        let i = choose|i: int|
            0 <= i < after.len() && #[trigger] after[i].username == login.username@ && !bcrypt_verifies(
                login.password@,
                after[i].password,
            );
        assert(after[i] == created);
    }
    if let Ok(v) = r2 {
        let j = choose|j: int| 0 <= j < after.len() && after[j] == v@;
        assert(after[j].username == source.username@);
    }
}

/// A login succeeds only for a stored user with that username whose hash
/// accepts the password; the claims of the token issued to it name that
/// user's id and username.
pub proof fn law_login_token_names_user(
    users: Seq<UserV>,
    infallible: bool,
    source: LoginUser,
    r: Result<UserView, UseCaseError>,
    claims: TokenClaims,
)
    requires
        login_user_post(users, infallible, source, r),
        r is Ok,
        claims.sub@ == r->Ok_0.id@,
        claims.username@ == r->Ok_0.username@,
    ensures
        exists|i: int|
            0 <= i < users.len() && #[trigger] users[i].id == claims.sub@ && users[i].username
                == claims.username@ && claims.username@ == source.username@ && bcrypt_verifies(
                source.password@,
                users[i].password,
            ),
{
    let v = r->Ok_0@;
    let i = choose|i: int| 0 <= i < users.len() && users[i] == v;
    assert(users[i].id == claims.sub@);
}

/// No two users share a username.
pub open spec fn unique_usernames(users: Seq<UserV>) -> bool {
    forall|i: int, j: int| 0 <= i < users.len() && 0 <= j < users.len() && i != j ==> users[i].username
        != users[j].username
}

/// Registration keeps usernames unique.
pub proof fn law_registration_keeps_usernames_unique(
    before: Seq<UserV>,
    infallible: bool,
    source: CreateUser,
    r: Result<UserView, UseCaseError>,
    after: Seq<UserV>,
)
    requires
        unique_usernames(before),
        create_user_post(before, infallible, source, r, after),
    ensures
        unique_usernames(after),
{
    if let Ok(v) = r {
        assert forall|i: int, j: int| 0 <= i < after.len() && 0 <= j < after.len() && i != j implies after[i].username
            != after[j].username by {
            if i == before.len() {
                assert(before[j] == after[j]);
            } else if j == before.len() {
                assert(before[i] == after[i]);
            } else {
                assert(before[i] == after[i] && before[j] == after[j]);
            }
        }
    }
}

/// With usernames unique and storage that answers, a login with the password
/// that the user's hash accepts hands back exactly that user.
pub proof fn law_login_with_right_password(
    users: Seq<UserV>,
    infallible: bool,
    source: LoginUser,
    r: Result<UserView, UseCaseError>,
    k: int,
)
    requires
        unique_usernames(users),
        infallible,
        0 <= k < users.len(),
        users[k].username == source.username@,
        bcrypt_verifies(source.password@, users[k].password),
        login_user_post(users, infallible, source, r),
    ensures
        r matches Ok(v) && v@ == users[k],
{
    assert(has_username(users, source.username@));
    if password_refused_by_some(users, source.username@, source.password@) {
        let i = choose|i: int|
            0 <= i < users.len() && #[trigger] users[i].username == source.username@ && !bcrypt_verifies(
                source.password@,
                users[i].password,
            );
        assert(i == k);
    }
    let v = r->Ok_0@;
    let j = choose|j: int| 0 <= j < users.len() && users[j] == v;
    assert(users[j].username == source.username@);
    assert(j == k);
}

/// A login with a password that no user of that username accepts fails.
pub proof fn law_wrong_password_refused(
    users: Seq<UserV>,
    infallible: bool,
    source: LoginUser,
    r: Result<UserView, UseCaseError>,
)
    requires
        login_user_post(users, infallible, source, r),
        forall|i: int|
            0 <= i < users.len() && #[trigger] users[i].username == source.username@ ==> !bcrypt_verifies(
                source.password@,
                users[i].password,
            ),
    ensures
        r is Err,
{
    if let Ok(v) = r {
        let i = choose|i: int| 0 <= i < users.len() && users[i] == v@;
        assert(users[i].username == source.username@);
    }
}

/// A request that carries no non-empty token is refused as an invalid token
/// before any handler runs; one whose token does not decode is refused too,
/// and one that passes names a stored user.
pub proof fn law_unauthenticated_refused<R: UserRepository>(
    cookie_header: Option<Seq<char>>,
    authorization: Option<Seq<char>>,
    token: Result<String, AppError>,
    users: &UserUseCase<R>,
    decoded: Result<TokenClaims, String>,
    user: Result<UserView, AppError>,
)
    requires
        access_token_post(cookie_header, authorization, token),
        authorize_post(users, decoded, user),
    ensures
        request_token(cookie_header, authorization) is None ==> token matches Err(AppError::InvalidJwt(_)),
        decoded is Err ==> user matches Err(AppError::InvalidJwt(_)),
        user matches Ok(v) ==> users.users().contains(v@),
        decoded matches Ok(c) ==> (users.repository.infallible() && is_ulid_text(c.sub@) && has_user_id(
            users.users(),
            ulid_canonical(c.sub@),
        ) ==> user is Ok),
{
}

/// A todo just created is the one that a lookup by its id finds, with the
/// title and description it was given and the default status.
pub proof fn law_created_todo_found(
    before: Seq<TodoV>,
    default_status: StatusV,
    infallible: bool,
    source: CreateTodo,
    r1: Result<crate::view::TodoView, UseCaseError>,
    middle: Seq<TodoV>,
    r2: Result<Option<crate::view::TodoView>, UseCaseError>,
)
    requires
        unique_todo_ids(before),
        create_todo_post(before, default_status, infallible, source, r1, middle),
        r1 is Ok,
        get_todo_post(middle, infallible, r1->Ok_0.id@, r2),
    ensures
        r2 matches Ok(Some(v)) ==> v@ == r1->Ok_0@ && v@.title == source.title@ && v@.description
            == source.description@ && v@.status == default_status,
        r2 matches Ok(Some(_)) || r2 matches Err(UseCaseError::Repository(_)),
        infallible ==> r2 matches Ok(Some(_)),
{
    let c = r1->Ok_0@;
    assert(ulid_canonical(c.id) == c.id);
    assert(middle[before.len() as int] == c);
    if let Ok(Some(v)) = r2 {
        let j = choose|j: int| 0 <= j < middle.len() && middle[j] == v@;
        if j < before.len() {
            assert(before[j] == middle[j]);
            assert(has_todo_id(before, c.id));
        }
    }
}

/// An update that supplies only a title changes the title alone: the
/// description, status and creation time stay as they were.
pub proof fn law_update_title_only(
    before: Seq<TodoV>,
    statuses: Seq<StatusV>,
    infallible: bool,
    source: UpdateTodoView,
    r: Result<crate::view::TodoView, UseCaseError>,
    after: Seq<TodoV>,
)
    requires
        update_todo_post(before, statuses, infallible, source, r, after),
        source.title is Some,
        source.description is None,
        source.status_code is None,
        r is Ok,
    ensures
        exists|i: int|
            0 <= i < before.len() && #[trigger] before[i].id == r->Ok_0@.id && {
                let v = r->Ok_0@;
                &&& v.title == source.title->0@
                &&& v.description == before[i].description
                &&& v.status == before[i].status
                &&& v.created_at == before[i].created_at
                &&& after == before.update(i, v)
            },
{
}

/// An upsert with a full payload replaces every field: the result carries the
/// payload's title, description and status, and a lookup by the id then
/// finds exactly that todo.
pub proof fn law_upsert_replaces_all(
    before: Seq<TodoV>,
    statuses: Seq<StatusV>,
    infallible: bool,
    source: UpsertTodoView,
    r1: Result<crate::view::TodoView, UseCaseError>,
    after: Seq<TodoV>,
    r2: Result<Option<crate::view::TodoView>, UseCaseError>,
)
    requires
        unique_todo_ids(before),
        upsert_todo_post(before, statuses, infallible, source, r1, after),
        r1 is Ok,
        get_todo_post(after, infallible, source.id@, r2),
    ensures
        r1->Ok_0@.title == source.title@,
        r1->Ok_0@.description == source.description@,
        r1->Ok_0@.status.code == source.status_code@,
        r2 matches Ok(Some(w)) ==> w@ == r1->Ok_0@,
        r2 matches Ok(Some(_)) || r2 matches Err(UseCaseError::Repository(_)),
        infallible ==> r2 matches Ok(Some(_)),
{
    let v = r1->Ok_0@;
    if exists|i: int| 0 <= i < before.len() && #[trigger] before[i].id == v.id && v.created_at == before[i].created_at
        && after == before.update(i, v) {
        let i = choose|i: int| 0 <= i < before.len() && #[trigger] before[i].id == v.id && v.created_at
            == before[i].created_at && after == before.update(i, v);
        assert(after[i] == v);
        if let Ok(Some(w)) = r2 {
            let j = choose|j: int| 0 <= j < after.len() && after[j] == w@;
            if j != i {
                assert(before[j] == after[j]);
            }
        }
    } else {
        assert(after[before.len() as int] == v);
        if let Ok(Some(w)) = r2 {
            let j = choose|j: int| 0 <= j < after.len() && after[j] == w@;
            if j < before.len() {
                assert(before[j] == after[j]);
                assert(has_todo_id(before, v.id));
            }
        }
    }
}

/// Deleting a todo hands it back once; deleting the same id again finds
/// nothing and changes nothing.
pub proof fn law_delete_once(
    before: Seq<TodoV>,
    infallible: bool,
    id: Seq<char>,
    r1: Result<Option<crate::view::TodoView>, UseCaseError>,
    middle: Seq<TodoV>,
    r2: Result<Option<crate::view::TodoView>, UseCaseError>,
    after: Seq<TodoV>,
)
    requires
        unique_todo_ids(before),
        delete_todo_post(before, infallible, id, r1, middle),
        r1 matches Ok(Some(_)),
        delete_todo_post(middle, infallible, id, r2, after),
    ensures
        r2 matches Ok(None) || r2 matches Err(UseCaseError::Repository(_)),
        infallible ==> r2 matches Ok(None),
        after == middle,
{
    let v = r1->Ok_0->0@;
    let i = choose|i: int| 0 <= i < before.len() && #[trigger] before[i] == v && v.id == ulid_canonical(id)
        && middle == before.remove(i);
    assert forall|j: int| 0 <= j < middle.len() implies #[trigger] middle[j].id != ulid_canonical(id) by {
        if j < i {
            assert(middle[j] == before[j]);
        } else {
            assert(middle[j] == before[j + 1]);
        }
    }
}

/// Upserting the same payload twice gives the same todo back: same id,
/// fields, status and creation time, written at the same place.
pub proof fn law_upsert_twice_same(
    before: Seq<TodoV>,
    statuses: Seq<StatusV>,
    infallible: bool,
    source: UpsertTodoView,
    r1: Result<crate::view::TodoView, UseCaseError>,
    middle: Seq<TodoV>,
    r2: Result<crate::view::TodoView, UseCaseError>,
    after: Seq<TodoV>,
)
    requires
        unique_todo_ids(before),
        unique_status_codes(statuses),
        upsert_todo_post(before, statuses, infallible, source, r1, middle),
        r1 is Ok,
        upsert_todo_post(middle, statuses, infallible, source, r2, after),
    ensures
        infallible ==> r2 is Ok,
        r2 matches Ok(v2) ==> {
            let v1 = r1->Ok_0@;
            &&& v2@.id == v1.id
            &&& v2@.title == v1.title
            &&& v2@.description == v1.description
            &&& v2@.status == v1.status
            &&& v2@.created_at == v1.created_at
            &&& exists|k: int| 0 <= k < middle.len() && #[trigger] middle[k] == v1 && after == middle.update(k, v2@)
        },
{
    let v1 = r1->Ok_0@;
    law_upsert_keeps_ids_unique(before, statuses, infallible, source, r1, middle);
    let k: int = if exists|i: int| 0 <= i < before.len() && #[trigger] before[i].id == v1.id && v1.created_at
        == before[i].created_at && middle == before.update(i, v1) {
        choose|i: int| 0 <= i < before.len() && #[trigger] before[i].id == v1.id && v1.created_at
            == before[i].created_at && middle == before.update(i, v1)
    } else {
        before.len() as int
    };
    assert(0 <= k < middle.len() && middle[k] == v1);
    let ci = choose|i: int| 0 <= i < statuses.len() && statuses[i] == v1.status;
    assert(statuses[ci].code == source.status_code@);
    assert(has_status_code(statuses, source.status_code@));
    if let Ok(v2) = r2 {
        let w = v2@;
        assert(middle[k].id == w.id);
        if exists|j: int| 0 <= j < middle.len() && #[trigger] middle[j].id == w.id && w.created_at == middle[j].created_at
            && after == middle.update(j, w) {
            let j = choose|j: int| 0 <= j < middle.len() && #[trigger] middle[j].id == w.id && w.created_at
                == middle[j].created_at && after == middle.update(j, w);
            assert(j == k);
        } else {
            assert(has_todo_id(middle, w.id));
        }
        let cj = choose|j: int| 0 <= j < statuses.len() && statuses[j] == w.status;
        assert(statuses[cj].code == statuses[ci].code);
        assert(cj == ci);
    }
}

/// Creating a todo keeps todo ids unique.
pub proof fn law_create_keeps_ids_unique(
    before: Seq<TodoV>,
    default_status: StatusV,
    infallible: bool,
    source: CreateTodo,
    r: Result<crate::view::TodoView, UseCaseError>,
    after: Seq<TodoV>,
)
    requires
        unique_todo_ids(before),
        create_todo_post(before, default_status, infallible, source, r, after),
    ensures
        unique_todo_ids(after),
{
    if let Ok(v) = r {
        assert forall|i: int, j: int| 0 <= i < after.len() && 0 <= j < after.len() && i != j implies after[i].id
            != after[j].id by {
            if i == before.len() {
                assert(before[j] == after[j]);
            } else if j == before.len() {
                assert(before[i] == after[i]);
            } else {
                assert(before[i] == after[i] && before[j] == after[j]);
            }
        }
    }
}

/// Updating a todo keeps todo ids unique.
pub proof fn law_update_keeps_ids_unique(
    before: Seq<TodoV>,
    statuses: Seq<StatusV>,
    infallible: bool,
    source: UpdateTodoView,
    r: Result<crate::view::TodoView, UseCaseError>,
    after: Seq<TodoV>,
)
    requires
        unique_todo_ids(before),
        update_todo_post(before, statuses, infallible, source, r, after),
    ensures
        unique_todo_ids(after),
{
    if let Ok(v) = r {
        let k = choose|k: int|
            0 <= k < before.len() && #[trigger] before[k].id == ulid_canonical(source.id@) && v@.id
                == before[k].id && after == before.update(k, v@);
        assert forall|i: int, j: int| 0 <= i < after.len() && 0 <= j < after.len() && i != j implies after[i].id
            != after[j].id by {
            assert(after[i].id == before[i].id && after[j].id == before[j].id);
        }
    }
}

/// Replacing or adding a todo by id keeps todo ids unique.
pub proof fn law_upsert_keeps_ids_unique(
    before: Seq<TodoV>,
    statuses: Seq<StatusV>,
    infallible: bool,
    source: UpsertTodoView,
    r: Result<crate::view::TodoView, UseCaseError>,
    after: Seq<TodoV>,
)
    requires
        unique_todo_ids(before),
        upsert_todo_post(before, statuses, infallible, source, r, after),
    ensures
        unique_todo_ids(after),
{
    if let Ok(v) = r {
        let w = v@;
        if exists|k: int| 0 <= k < before.len() && #[trigger] before[k].id == w.id && w.created_at == before[k].created_at
            && after == before.update(k, w) {
            let k = choose|k: int| 0 <= k < before.len() && #[trigger] before[k].id == w.id && w.created_at
                == before[k].created_at && after == before.update(k, w);
            assert forall|i: int, j: int| 0 <= i < after.len() && 0 <= j < after.len() && i != j implies after[i].id
                != after[j].id by {
                assert(after[i].id == before[i].id && after[j].id == before[j].id);
            }
        } else {
            assert forall|i: int, j: int| 0 <= i < after.len() && 0 <= j < after.len() && i != j implies after[i].id
                != after[j].id by {
                if i == before.len() {
                    assert(before[j] == after[j]);
                } else if j == before.len() {
                    assert(before[i] == after[i]);
                } else {
                    assert(before[i] == after[i] && before[j] == after[j]);
                }
            }
        }
    }
}

/// Deleting a todo keeps todo ids unique.
pub proof fn law_delete_keeps_ids_unique(
    before: Seq<TodoV>,
    infallible: bool,
    id: Seq<char>,
    r: Result<Option<crate::view::TodoView>, UseCaseError>,
    after: Seq<TodoV>,
)
    requires
        unique_todo_ids(before),
        delete_todo_post(before, infallible, id, r, after),
    ensures
        unique_todo_ids(after),
{
    if let Ok(Some(v)) = r {
        let k = choose|k: int| 0 <= k < before.len() && #[trigger] before[k] == v@ && v@.id == ulid_canonical(id)
            && after == before.remove(k);
        assert forall|i: int, j: int| 0 <= i < after.len() && 0 <= j < after.len() && i != j implies after[i].id
            != after[j].id by {
            let bi = if i < k { i } else { i + 1 };
            let bj = if j < k { j } else { j + 1 };
            assert(after[i] == before[bi] && after[j] == before[bj]);
        }
    }
}

} // verus!
