use vstd::prelude::*;
use crate::github::Repository;
use crate::github::User;
use crate::ranking::descending_order;
use crate::ranking::descending_order_of;
use crate::request::Response;
use crate::timestamp::parse_timestamp;
use crate::timestamp::spec_parse_timestamp;

verus! {

/// Status of an answer that carries what was asked for.
pub const STATUS_OK: u16 = 200;

/// Status of a request for a position that the list does not have.
pub const STATUS_BAD_REQUEST: u16 = 400;

/// Status of an answer for which no data could be had.
pub const STATUS_INTERNAL_ERROR: u16 = 500;

/// The contact details that the gateway publishes of the account.
#[derive(Debug)]
pub struct UserInformation {
    pub login: String,
    pub avatar_url: String,
    pub email: String,
    pub followers: u32,
    pub repository_count: u32,
}

/// The key by which repositories are ranked by stars.
pub open spec fn star_key(repository: Repository) -> (i64, u32) {
    (repository.stargazers_count as i64, 0u32)
}

/// The key by which repositories are ranked by size.
pub open spec fn size_key(repository: Repository) -> (i64, u32) {
    (repository.size as i64, 0u32)
}

/// The star keys of a list, item by item.
pub open spec fn star_keys(repositories: Seq<Repository>) -> Seq<(i64, u32)> {
    Seq::new(repositories.len(), |i: int| star_key(repositories[i]))
}

/// The size keys of a list, item by item.
pub open spec fn size_keys(repositories: Seq<Repository>) -> Seq<(i64, u32)> {
    Seq::new(repositories.len(), |i: int| size_key(repositories[i]))
}

/// Whether every repository's push timestamp can be read.
pub open spec fn all_pushed_readable(repositories: Seq<Repository>) -> bool {
    forall|i: int|
        0 <= i < repositories.len() ==> spec_parse_timestamp(
            (#[trigger] repositories[i]).pushed_at@,
        ) is Some
}

/// The keys by which repositories are ranked by their last push.
pub open spec fn pushed_keys(repositories: Seq<Repository>) -> Seq<(i64, u32)> {
    Seq::new(
        repositories.len(),
        |i: int| spec_parse_timestamp(repositories[i].pushed_at@).unwrap(),
    )
}

/// The sum of the star counts.
pub open spec fn spec_total_stars(repositories: Seq<Repository>) -> nat
    decreases repositories.len(),
{
    if repositories.len() == 0 {
        0
    } else {
        spec_total_stars(repositories.drop_last()) + repositories.last().stargazers_count as nat
    }
}

/// The answer to a request for the item at position `n` of `repositories`
/// listed from the largest key down, equal keys in their incoming order: the
/// item with status 200, or no item with status 400 where the list has no
/// position `n`.
pub open spec fn is_nth_answer(
    repositories: Seq<Repository>,
    keys: Seq<(i64, u32)>,
    n: int,
    answer: Response<Option<Repository>>,
) -> bool {
    if n >= repositories.len() {
        answer.status_code == 400 && answer.response is None
    } else {
        &&& answer.status_code == 200
        &&& answer.response == Some(repositories[descending_order_of(keys)[n] as int])
    }
}

/// The full list: status 200, or status 500 where the list is empty.
pub fn get_repositories(repositories: Vec<Repository>) -> (answer: Response<Vec<Repository>>)
    ensures
        answer.response == repositories,
        answer.status_code == (if repositories@.len() == 0 { 500u16 } else { 200u16 }),
{
    if repositories.len() == 0 {
        return Response::new(repositories, STATUS_INTERNAL_ERROR);
    }
    Response::new(repositories, STATUS_OK)
}

/// The item at position `n` of `repositories` ranked by `keys`, where
/// `keys[i]` is the key of `repositories[i]`.
pub fn nth_by_keys(repositories: Vec<Repository>, keys: &Vec<(i64, u32)>, n: usize) -> (answer:
    Response<Option<Repository>>)
    requires
        keys@.len() == repositories@.len(),
    ensures
        is_nth_answer(repositories@, keys@, n as int, answer),
{
    if n >= repositories.len() {
        return Response::new(None, STATUS_BAD_REQUEST);
    }
    let order = descending_order(keys);
    let mut rest = repositories;
    let repository = rest.remove(order[n]);
    Response::new(Some(repository), STATUS_OK)
}

fn keys_by_stars(repositories: &Vec<Repository>) -> (keys: Vec<(i64, u32)>)
    ensures
        keys@ == star_keys(repositories@),
{
    let mut keys: Vec<(i64, u32)> = Vec::new();
    let mut i: usize = 0;
    while i < repositories.len()
        invariant
            i <= repositories.len(),
            keys@ == star_keys(repositories@.subrange(0, i as int)),
        decreases repositories.len() - i,
    {
        keys.push((repositories[i].stargazers_count as i64, 0u32));
        i += 1;
        assert(keys@ =~= star_keys(repositories@.subrange(0, i as int)));
    }
    assert(repositories@.subrange(0, i as int) =~= repositories@);
    keys
}

fn keys_by_size(repositories: &Vec<Repository>) -> (keys: Vec<(i64, u32)>)
    ensures
        keys@ == size_keys(repositories@),
{
    let mut keys: Vec<(i64, u32)> = Vec::new();
    let mut i: usize = 0;
    while i < repositories.len()
        invariant
            i <= repositories.len(),
            keys@ == size_keys(repositories@.subrange(0, i as int)),
        decreases repositories.len() - i,
    {
        keys.push((repositories[i].size as i64, 0u32));
        i += 1;
        assert(keys@ =~= size_keys(repositories@.subrange(0, i as int)));
    }
    assert(repositories@.subrange(0, i as int) =~= repositories@);
    keys
}

/// The push instants of the repositories, or nothing where one of the
/// timestamps cannot be read.
pub fn keys_by_push(repositories: &Vec<Repository>) -> (keys: Option<Vec<(i64, u32)>>)
    ensures
        keys is Some <==> all_pushed_readable(repositories@),
        keys is Some ==> keys.unwrap()@ == pushed_keys(repositories@),
{
    let mut keys: Vec<(i64, u32)> = Vec::new();
    let mut i: usize = 0;
    while i < repositories.len()
        invariant
            i <= repositories.len(),
            all_pushed_readable(repositories@.subrange(0, i as int)),
            keys@ == pushed_keys(repositories@.subrange(0, i as int)),
        decreases repositories.len() - i,
    {
        match parse_timestamp(repositories[i].pushed_at.as_str()) {
            None => {
                return None;
            },
            Some(instant) => {
                keys.push(instant);
            },
        }
        i += 1;
        assert(keys@ =~= pushed_keys(repositories@.subrange(0, i as int)));
    }
    assert(repositories@.subrange(0, i as int) =~= repositories@);
    Some(keys)
}

/// The repository with the `n`-th most stars, counting from 0.
pub fn get_n_starred_repository(repositories: Vec<Repository>, n: usize) -> (answer: Response<
    Option<Repository>,
>)
    ensures
        is_nth_answer(repositories@, star_keys(repositories@), n as int, answer),
{
    let keys = keys_by_stars(&repositories);
    nth_by_keys(repositories, &keys, n)
}

/// The `n`-th largest repository, counting from 0.
pub fn get_n_largest_repository(repositories: Vec<Repository>, n: usize) -> (answer: Response<
    Option<Repository>,
>)
    ensures
        is_nth_answer(repositories@, size_keys(repositories@), n as int, answer),
{
    let keys = keys_by_size(&repositories);
    nth_by_keys(repositories, &keys, n)
}

/// The repository with the `n`-th most recent push, counting from 0. A
/// position that the list does not have is answered without looking at the
/// timestamps. Otherwise every timestamp must be readable: where one is
/// not, there is no answer.
pub fn get_n_last_pushed_repository(repositories: Vec<Repository>, n: usize) -> (answer: Option<
    Response<Option<Repository>>,
>)
    ensures
        answer is Some <==> (n >= repositories@.len() || all_pushed_readable(repositories@)),
        answer is Some ==> is_nth_answer(
            repositories@,
            pushed_keys(repositories@),
            n as int,
            answer.unwrap(),
        ),
{
    if n >= repositories.len() {
        return Some(Response::new(None, STATUS_BAD_REQUEST));
    }
    match keys_by_push(&repositories) {
        None => None,
        Some(keys) => Some(nth_by_keys(repositories, &keys, n)),
    }
}

/// A total over a part of the list is at most the total over the list.
proof fn total_stars_grows(repositories: Seq<Repository>, i: int)
    requires
        0 <= i <= repositories.len(),
    ensures
        spec_total_stars(repositories.subrange(0, i)) <= spec_total_stars(repositories),
    decreases repositories.len() - i,
{
    if i < repositories.len() {
        total_stars_grows(repositories, i + 1);
        assert(repositories.subrange(0, i + 1).drop_last() =~= repositories.subrange(0, i));
    } else {
        assert(repositories.subrange(0, i) =~= repositories);
    }
}

/// The sum of the star counts, where it fits the counter.
pub fn total_stars(repositories: &Vec<Repository>) -> (total: Option<u32>)
    ensures
        total is Some <==> spec_total_stars(repositories@) <= u32::MAX,
        total is Some ==> total.unwrap() == spec_total_stars(repositories@),
{
    let mut stars: u32 = 0;
    let mut i: usize = 0;
    while i < repositories.len()
        invariant
            i <= repositories.len(),
            stars == spec_total_stars(repositories@.subrange(0, i as int)),
        decreases repositories.len() - i,
    {
        proof {
            total_stars_grows(repositories@, i + 1);
            assert(repositories@.subrange(0, i + 1).drop_last() =~= repositories@.subrange(
                0,
                i as int,
            ));
        }
        match stars.checked_add(repositories[i].stargazers_count) {
            None => {
                return None;
            },
            Some(sum) => {
                stars = sum;
            },
        }
        i += 1;
    }
    assert(repositories@.subrange(0, i as int) =~= repositories@);
    Some(stars)
}

/// The total star count, always with status 200.
pub fn get_n_of_stars(repositories: &Vec<Repository>) -> (answer: Response<u32>)
    requires
        spec_total_stars(repositories@) <= u32::MAX,
    ensures
        answer.response == spec_total_stars(repositories@),
        answer.status_code == 200,
{
    let stars: u32 = total_stars(repositories).unwrap();
    Response::new(stars, STATUS_OK)
}

/// Whether the profile holds what the contact details are made of.
pub open spec fn has_contact_details(user: User) -> bool {
    user.email is Some && user.followers is Some && user.total_private_repos is Some
}

/// The contact details of the account with status 200, or none with status
/// 500 where there is no profile.
pub fn get_contact_information(user: Option<User>) -> (answer: Response<Option<UserInformation>>)
    requires
        user is Some ==> has_contact_details(user.unwrap()),
    ensures
        user is None ==> answer.status_code == 500 && answer.response is None,
        user is Some ==> answer.status_code == 200 && answer.response == Some(
            (UserInformation {
                login: user.unwrap().login,
                avatar_url: user.unwrap().avatar_url,
                email: user.unwrap().email.unwrap(),
                followers: user.unwrap().followers.unwrap(),
                repository_count: user.unwrap().total_private_repos.unwrap(),
            }),
        ),
{
    match user {
        None => Response::new(None, STATUS_INTERNAL_ERROR),
        Some(user) => {
            let followers: u32 = user.followers.unwrap();
            let repository_count: u32 = user.total_private_repos.unwrap();
            let contact_information = UserInformation {
                login: user.login,
                avatar_url: user.avatar_url,
                email: user.email.unwrap(),
                followers,
                repository_count,
            };
            Response::new(Some(contact_information), STATUS_OK)
        },
    }
}

} // verus!
