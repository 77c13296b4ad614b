//! Bodies and parameters of the user endpoints, and the resolution of a
//! user's links to platform names.

use vstd::prelude::*;

use crate::clock::{rfc3339_text, to_rfc3339};
use crate::ids::{PlatformId, UserId, UserPlatformId};
use crate::user::{Platform, User, UserPlatform};

verus! {

/// A user with their platform accounts.
#[derive(Debug)]
pub struct UserResponse {
    pub id: UserId,
    pub display_name: String,
    pub platforms: Vec<UserPlatformResponse>,
    pub created_at: String,
    pub updated_at: String,
}

/// One platform account of a user, with the platform's name.
#[derive(Debug)]
pub struct UserPlatformResponse {
    pub id: UserPlatformId,
    pub platform: String,
    pub platform_user_id: String,
    pub platform_username: String,
}

/// A platform, as listed.
#[derive(Debug)]
pub struct PlatformResponse {
    pub id: PlatformId,
    pub name: String,
}

impl PlatformResponse {
    pub fn from(p: Platform) -> (r: Self)
        ensures
            r.id == p.id,
            r.name == p.name,
    {
        PlatformResponse { id: p.id, name: p.name }
    }
}

/// A request to create a user.
#[derive(Debug)]
pub struct CreateUserRequest {
    pub display_name: String,
}

/// A request to link a platform account to a user.
#[derive(Debug)]
pub struct LinkPlatformRequest {
    pub platform: String,
    pub platform_user_id: String,
    pub platform_username: String,
}

/// A request to rename a user.
#[derive(Debug)]
pub struct UpdateUserRequest {
    pub display_name: String,
}

/// A request to rename a platform account.
#[derive(Debug)]
pub struct UpdatePlatformRequest {
    pub platform_username: String,
}

/// A search for the user of a platform account.
#[derive(Debug)]
pub struct FindUserQuery {
    pub platform: String,
    pub platform_user_id: String,
}

/// A user named in a path.
#[derive(Debug)]
pub struct UserIdParam {
    pub id: UserId,
}

/// A user's account on a platform named in a path.
#[derive(Debug)]
pub struct PlatformNameParam {
    pub id: UserId,
    pub platform: String,
}

/// The name of the first platform with the id, or the empty text.
pub open spec fn name_of_platform(all: Seq<Platform>, id: PlatformId) -> Seq<char>
    decreases all.len(),
{
    if all.len() == 0 {
        Seq::empty()
    } else if all[0].id == id {
        all[0].name@
    } else {
        name_of_platform(all.skip(1), id)
    }
}

/// A link's platform is named by the platform with its id, wherever that
/// platform stands in the list (the first one, where several have the id);
/// the name is empty when no platform has the id, and a non-empty name is
/// always that of a platform with the id.
pub proof fn lemma_name_of_platform_by_id(all: Seq<Platform>, id: PlatformId)
    ensures
        forall|j: int|
            0 <= j < all.len() && all[j].id == id && (forall|k: int| 0 <= k < j ==> all[k].id != id)
                ==> name_of_platform(all, id) == (#[trigger] all[j]).name@,
        (forall|i: int| 0 <= i < all.len() ==> all[i].id != id) ==> name_of_platform(all, id)
            == Seq::<char>::empty(),
        name_of_platform(all, id).len() > 0 ==> exists|i: int|
            0 <= i < all.len() && all[i].id == id && name_of_platform(all, id) == all[i].name@,
    decreases all.len(),
{
    if all.len() > 0 {
        let t = all.skip(1);
        lemma_name_of_platform_by_id(t, id);
        if all[0].id == id {
            assert forall|j: int|
                0 <= j < all.len() && all[j].id == id && (forall|k: int| 0 <= k < j ==> all[k].id
                    != id) implies name_of_platform(all, id) == (#[trigger] all[j]).name@ by {
                if j > 0 {
                    assert(all[0].id != id);
                }
            }
        } else {
            assert forall|j: int|
                0 <= j < all.len() && all[j].id == id && (forall|k: int| 0 <= k < j ==> all[k].id
                    != id) implies name_of_platform(all, id) == (#[trigger] all[j]).name@ by {
                assert(j > 0);
                assert(t[j - 1] == all[j]);
                assert forall|k: int| 0 <= k < j - 1 implies t[k].id != id by {
                    assert(t[k] == all[k + 1]);
                }
            }
            if forall|i: int| 0 <= i < all.len() ==> all[i].id != id {
                assert forall|i: int| 0 <= i < t.len() implies t[i].id != id by {
                    assert(t[i] == all[i + 1]);
                }
            }
            if name_of_platform(all, id).len() > 0 {
                let i = choose|i: int|
                    0 <= i < t.len() && t[i].id == id && name_of_platform(t, id) == t[i].name@;
                assert(all[i + 1] == t[i]);
            }
        }
    }
}

fn platform_name_in(all: &Vec<Platform>, id: PlatformId) -> (r: String)
    ensures
        r@ == name_of_platform(all@, id),
        forall|j: int|
            0 <= j < all@.len() && all@[j].id == id && (forall|k: int| 0 <= k < j ==> all@[k].id
                != id) ==> r@ == (#[trigger] all@[j]).name@,
        (forall|i: int| 0 <= i < all@.len() ==> all@[i].id != id) ==> r@ == Seq::<char>::empty(),
{
    let mut i: usize = 0;
    proof {
        assert(all@.skip(0) == all@);
    }
    while i < all.len()
        invariant
            i <= all@.len(),
            name_of_platform(all@, id) == name_of_platform(all@.skip(i as int), id),
        decreases all@.len() - i,
    {
        proof {
            assert(all@.skip(i as int).skip(1) == all@.skip(i + 1));
            assert(all@.skip(i as int)[0] == all@[i as int]);
        }
        if all[i].id.0 == id.0 {
            proof {
                lemma_name_of_platform_by_id(all@, id);
            }
            return all[i].name.clone();
        }
        i += 1;
    }
    proof {
        lemma_name_of_platform_by_id(all@, id);
    }
    String::new()
}

/// Whether `r` shows the link `up` under the platform name `name`.
pub open spec fn shows_link(r: UserPlatformResponse, up: UserPlatform, name: Seq<char>) -> bool {
    &&& r.id == up.id
    &&& r.platform@ == name
    &&& r.platform_user_id == up.platform_user_id
    &&& r.platform_username == up.platform_username
}

/// Each link of a user with the name of its platform (empty where the
/// platform is unknown), in the links' order.
pub fn resolve_user_platforms(user_platforms: Vec<UserPlatform>, all_platforms: &Vec<Platform>) -> (r:
    Vec<UserPlatformResponse>)
    ensures
        r@.len() == user_platforms@.len(),
        forall|i: int|
            0 <= i < r@.len() ==> shows_link(
                #[trigger] r@[i],
                user_platforms@[i],
                name_of_platform(all_platforms@, user_platforms@[i].platform_id),
            ),
        forall|i: int, j: int|
            0 <= i < r@.len() && 0 <= j < all_platforms@.len() && all_platforms@[j].id
                == user_platforms@[i].platform_id && (forall|k: int|
                0 <= k < j ==> all_platforms@[k].id != user_platforms@[i].platform_id)
                ==> (#[trigger] r@[i]).platform@ == (#[trigger] all_platforms@[j]).name@,
{
    let ghost ups = user_platforms@;
    let mut result: Vec<UserPlatformResponse> = Vec::new();
    let mut i: usize = 0;
    let n = user_platforms.len();
    while i < n
        invariant
            i <= n,
            n == ups.len(),
            ups == user_platforms@,
            result@.len() == i,
            forall|k: int|
                0 <= k < i ==> shows_link(
                    #[trigger] result@[k],
                    ups[k],
                    name_of_platform(all_platforms@, ups[k].platform_id),
                ),
        decreases n - i,
    {
        let up = user_platforms[i].clone();
        let name = platform_name_in(all_platforms, up.platform_id);
        result.push(
            UserPlatformResponse {
                id: up.id,
                platform: name,
                platform_user_id: up.platform_user_id,
                platform_username: up.platform_username,
            },
        );
        i += 1;
    }
    proof {
        assert forall|i: int, j: int|
            0 <= i < result@.len() && 0 <= j < all_platforms@.len() && all_platforms@[j].id
                == ups[i].platform_id && (forall|k: int|
                0 <= k < j ==> all_platforms@[k].id != ups[i].platform_id)
                implies (#[trigger] result@[i]).platform@ == (#[trigger] all_platforms@[j]).name@ by {
            lemma_name_of_platform_by_id(all_platforms@, ups[i].platform_id);
        }
    }
    result
}

/// A user and their resolved accounts.
pub fn to_user_response(user: User, platforms: Vec<UserPlatformResponse>) -> (r: UserResponse)
    ensures
        r.id == user.id,
        r.display_name == user.display_name,
        r.platforms == platforms,
        r.created_at@ == rfc3339_text(user.created_at),
        r.updated_at@ == rfc3339_text(user.updated_at),
{
    let created_at = to_rfc3339(user.created_at);
    let updated_at = to_rfc3339(user.updated_at);
    UserResponse { id: user.id, display_name: user.display_name, platforms, created_at, updated_at }
}

} // verus!
