use github_cache::github::{repositories_url, user_url, Repository, RepositoryPermissions, User};
use github_cache::ranking::{descending_order, key_is_above};
use github_cache::refresh::{get_cached_repositories, refresh_step, RefreshAction, RefreshEvent, RefreshState};
use github_cache::request::Response;
use github_cache::storage::{JsonStorage, Probe, WriteError, FRESH_SECS};
use github_cache::timestamp::{normalise, parse_timestamp};
use github_cache::views::{
    get_contact_information, get_n_largest_repository, get_n_last_pushed_repository,
    get_n_of_stars, get_n_starred_repository, get_repositories, keys_by_push, nth_by_keys,
    total_stars,
};

fn user(login: &str) -> User {
    User {
        login: login.to_string(),
        id: 0,
        node_id: String::new(),
        avatar_url: String::new(),
        gavatar_id: None,
        url: String::new(),
        html_url: String::new(),
        followers_url: String::new(),
        following_url: String::new(),
        gists_url: String::new(),
        starred_url: String::new(),
        subscriptions_url: String::new(),
        organizations_url: String::new(),
        repos_url: String::new(),
        events_url: String::new(),
        received_events_url: String::new(),
        account_type: String::new(),
        site_admin: None,
        name: None,
        company: None,
        blog: None,
        location: None,
        email: None,
        hireable: None,
        bio: None,
        twitter_username: None,
        public_repos: None,
        public_gists: None,
        followers: None,
        following: None,
        created_at: None,
        updated_at: None,
        private_gists: None,
        total_private_repos: None,
        owned_private_repos: None,
        disk_usage: None,
        collaborators: None,
        two_factor_authentication: None,
        plan: None,
    }
}

fn repo(name: &str, stars: u32, size: u32, pushed: &str) -> Repository {
    Repository {
        id: 0,
        node_id: String::new(),
        name: name.to_string(),
        full_name: String::new(),
        private: None,
        owner: user("owner"),
        html_url: String::new(),
        description: None,
        fork: false,
        url: String::new(),
        forks_url: String::new(),
        keys_url: String::new(),
        collaborators_url: String::new(),
        hooks_url: String::new(),
        issue_events_url: String::new(),
        assignees_url: String::new(),
        events_url: String::new(),
        tags_url: String::new(),
        git_tags_url: String::new(),
        statuses_url: String::new(),
        languages_url: String::new(),
        stargazers_url: String::new(),
        contributors_url: String::new(),
        subscribers_url: String::new(),
        commits_url: String::new(),
        git_commits_url: String::new(),
        comments_url: String::new(),
        compare_url: String::new(),
        contents_url: String::new(),
        merges_url: String::new(),
        pulls_url: String::new(),
        archive_url: String::new(),
        issues_url: String::new(),
        milestones_url: String::new(),
        downloads_url: String::new(),
        deployments_url: String::new(),
        labels_url: String::new(),
        notifications_url: String::new(),
        permissions: RepositoryPermissions { maintain: None, triage: None, pull: None, push: None, admin: None },
        default_branch: String::new(),
        watchers: 0,
        open_issues: 0,
        forks: 0,
        visibility: String::new(),
        topics: Vec::new(),
        is_template: false,
        has_pages: false,
        allow_forking: false,
        license: None,
        open_issues_count: 0,
        disabled: false,
        archived: false,
        mirror_url: None,
        forks_count: 0,
        has_wiki: false,
        has_downloads: false,
        language: None,
        stargazers_count: stars,
        size: size,
        homepage: None,
        svn_url: String::new(),
        ssh_url: String::new(),
        clone_url: String::new(),
        git_url: String::new(),
        created_at: String::new(),
        updated_at: String::new(),
        pushed_at: pushed.to_string(),
    }
}

fn two_repositories() -> Vec<Repository> {
    vec![
        repo("first", 5, 10, "2024-01-01T00:00:00Z"),
        repo("second", 20, 3, "2024-06-01T00:00:00Z"),
    ]
}

fn storage() -> JsonStorage {
    JsonStorage::new("repositories.json".to_string())
}

#[test]
fn most_starred_comes_first() {
    let answer = get_n_starred_repository(two_repositories(), 0);
    assert_eq!(answer.status_code, 200);
    let found = answer.response.unwrap();
    assert_eq!(found.stargazers_count, 20);
    assert_eq!(found.name, "second");
}

#[test]
fn least_starred_comes_last() {
    let answer = get_n_starred_repository(two_repositories(), 1);
    assert_eq!(answer.status_code, 200);
    assert_eq!(answer.response.unwrap().stargazers_count, 5);
}

#[test]
fn position_past_the_end_is_a_bad_request() {
    let answer = get_n_starred_repository(two_repositories(), 2);
    assert_eq!(answer.status_code, 400);
    assert!(answer.response.is_none());
}

#[test]
fn position_beyond_the_end_is_a_bad_request() {
    let answer = get_n_largest_repository(two_repositories(), 7);
    assert_eq!(answer.status_code, 400);
    assert!(answer.response.is_none());
    let answer = get_n_starred_repository(Vec::new(), 0);
    assert_eq!(answer.status_code, 400);
    assert!(answer.response.is_none());
}

#[test]
fn stars_add_up() {
    let answer = get_n_of_stars(&two_repositories());
    assert_eq!(answer.response, 25);
    assert_eq!(answer.status_code, 200);
}

#[test]
fn no_repositories_have_no_stars() {
    let answer = get_n_of_stars(&Vec::new());
    assert_eq!(answer.response, 0);
    assert_eq!(answer.status_code, 200);
}

#[test]
fn star_total_that_does_not_fit_is_refused() {
    let many = vec![repo("a", u32::MAX, 0, ""), repo("b", 1, 0, "")];
    assert_eq!(total_stars(&many), None);
    let most = vec![repo("a", u32::MAX - 1, 0, ""), repo("b", 1, 0, "")];
    assert_eq!(total_stars(&most), Some(u32::MAX));
}

#[test]
fn last_pushed_comes_first() {
    let answer = get_n_last_pushed_repository(two_repositories(), 0).unwrap();
    assert_eq!(answer.status_code, 200);
    assert_eq!(answer.response.unwrap().stargazers_count, 20);
    let answer = get_n_last_pushed_repository(two_repositories(), 1).unwrap();
    assert_eq!(answer.response.unwrap().stargazers_count, 5);
}

#[test]
fn last_pushed_past_the_end_is_a_bad_request() {
    let answer = get_n_last_pushed_repository(two_repositories(), 2).unwrap();
    assert_eq!(answer.status_code, 400);
    assert!(answer.response.is_none());
    let unreadable = vec![repo("a", 1, 1, "yesterday")];
    let answer = get_n_last_pushed_repository(unreadable, 1).unwrap();
    assert_eq!(answer.status_code, 400);
}

#[test]
fn unreadable_push_time_gives_no_answer() {
    let list = vec![
        repo("a", 1, 1, "2024-01-01T00:00:00Z"),
        repo("b", 2, 2, "2024-13-01T00:00:00Z"),
    ];
    assert!(keys_by_push(&list).is_none());
    assert!(get_n_last_pushed_repository(list, 0).is_none());
    let list = vec![repo("a", 1, 1, "2024-01-01 00:00:00")];
    assert!(get_n_last_pushed_repository(list, 0).is_none());
}

#[test]
fn push_times_become_keys() {
    let keys = keys_by_push(&two_repositories()).unwrap();
    assert_eq!(keys, vec![(1704067200, 0), (1717200000, 0)]);
}

#[test]
fn largest_comes_first() {
    let answer = get_n_largest_repository(two_repositories(), 0);
    assert_eq!(answer.status_code, 200);
    let found = answer.response.unwrap();
    assert_eq!(found.size, 10);
    assert_eq!(found.name, "first");
    let answer = get_n_largest_repository(two_repositories(), 1);
    assert_eq!(answer.response.unwrap().size, 3);
}

#[test]
fn equal_keys_keep_their_order() {
    let list = vec![
        repo("a", 7, 1, ""),
        repo("b", 9, 1, ""),
        repo("c", 7, 1, ""),
        repo("d", 9, 1, ""),
    ];
    let names: Vec<String> = (0..4)
        .map(|n| get_n_starred_repository(list.clone(), n).response.unwrap().name)
        .collect();
    assert_eq!(names, vec!["b", "d", "a", "c"]);
    let names: Vec<String> = (0..4)
        .map(|n| get_n_largest_repository(list.clone(), n).response.unwrap().name)
        .collect();
    assert_eq!(names, vec!["a", "b", "c", "d"]);
}

#[test]
fn order_lists_positions_from_the_largest_key() {
    let keys = vec![(3, 0), (10, 0), (3, 5), (-4, 0), (10, 0)];
    assert_eq!(descending_order(&keys), vec![1, 4, 2, 0, 3]);
    assert_eq!(descending_order(&Vec::new()), Vec::<usize>::new());
    assert!(key_is_above((1, 0), (0, 9)));
    assert!(key_is_above((1, 2), (1, 1)));
    assert!(!key_is_above((1, 1), (1, 1)));
    assert!(!key_is_above((0, 9), (1, 0)));
}

#[test]
fn nth_by_keys_follows_the_keys() {
    let keys = vec![(1, 0), (2, 0)];
    let answer = nth_by_keys(two_repositories(), &keys, 0);
    assert_eq!(answer.status_code, 200);
    assert_eq!(answer.response.unwrap().name, "second");
    let keys = vec![(2, 0), (1, 0)];
    let answer = nth_by_keys(two_repositories(), &keys, 0);
    assert_eq!(answer.response.unwrap().name, "first");
}

#[test]
fn empty_list_is_an_internal_error() {
    let repositories = get_cached_repositories(None);
    assert!(repositories.is_empty());
    let answer = get_repositories(repositories);
    assert_eq!(answer.status_code, 500);
    assert!(answer.response.is_empty());
}

#[test]
fn full_list_is_returned_as_it_is() {
    let answer = get_repositories(get_cached_repositories(Some(two_repositories())));
    assert_eq!(answer.status_code, 200);
    assert_eq!(answer.response.len(), 2);
    assert_eq!(answer.response[0].name, "first");
    assert_eq!(answer.response[1].name, "second");
}

#[test]
fn timestamp_is_read_to_the_second() {
    assert_eq!(parse_timestamp("2024-06-01T00:00:00Z"), Some((1717200000, 0)));
    assert_eq!(parse_timestamp("1970-01-01T00:00:01Z"), Some((1, 0)));
    assert_eq!(parse_timestamp("1969-12-31T23:59:59Z"), Some((-1, 0)));
    assert_eq!(parse_timestamp("2024-06-01T00:00:00"), Some((1717200000, 0)));
}

#[test]
fn timestamp_without_separator_is_not_read() {
    assert_eq!(parse_timestamp(""), None);
    assert_eq!(parse_timestamp("2024-06-01 00:00:00Z"), None);
    assert_eq!(parse_timestamp("2024-06-01T"), None);
    assert_eq!(parse_timestamp("2024-06-01T25:00:00Z"), None);
    assert_eq!(parse_timestamp("T"), None);
}

#[test]
fn timestamp_is_rewritten_for_the_parser() {
    assert_eq!(normalise("2024-06-01T00:00:00Z"), Some("2024-06-01 00:00:00".to_string()));
    assert_eq!(normalise("aTbZcZTd"), Some("a bc".to_string()));
    assert_eq!(normalise("T"), Some(" ".to_string()));
    assert_eq!(normalise("Tx"), Some(" x".to_string()));
    assert_eq!(normalise("no separator"), None);
    assert_eq!(normalise(""), None);
}

#[test]
fn stored_value_is_read_back_within_the_hour() {
    let cache = storage();
    let text = "[{\"stars\":5}]".to_string();
    let bytes = cache.store(Some(text.clone())).unwrap();
    assert_eq!(bytes, text.as_bytes().to_vec());
    assert_eq!(cache.stored(true, true), Ok(()));
    let probe = Probe::Modified { elapsed_secs: 0 };
    assert_eq!(cache.get_stored_data(&probe, Some(bytes.clone())), Some(text.clone()));
    let probe = Probe::Modified { elapsed_secs: 3599 };
    assert_eq!(cache.get_stored_data(&probe, Some(bytes)), Some(text));
}

#[test]
fn text_beyond_ascii_is_read_back() {
    let cache = storage();
    let text = "{\"name\":\"caf\u{e9} \u{1f980}\"}".to_string();
    let bytes = cache.store(Some(text.clone())).unwrap();
    assert_eq!(bytes.len(), text.len());
    assert_eq!(cache.read_data(Some(bytes)), Some(text));
}

#[test]
fn missing_file_gives_nothing_until_stored() {
    let cache = storage();
    assert!(!cache.is_fresh(&Probe::Unopened));
    assert!(cache.is_missing(&Probe::Unopened));
    assert!(!cache.is_missing(&Probe::NoMetadata));
    assert!(!cache.is_missing(&Probe::NoModified));
    assert!(!cache.is_missing(&Probe::Modified { elapsed_secs: 0 }));
    assert_eq!(cache.get_stored_data(&Probe::Unopened, None), None);
    let bytes = cache.store(Some("7".to_string())).unwrap();
    let probe = Probe::Modified { elapsed_secs: 1 };
    assert_eq!(cache.get_stored_data(&probe, Some(bytes)), Some("7".to_string()));
}

#[test]
fn stale_file_gives_nothing() {
    let cache = storage();
    assert_eq!(FRESH_SECS, 3600);
    let bytes = b"[1, 2, 3]".to_vec();
    for elapsed_secs in [3600, 3601, 5400, u64::MAX] {
        let probe = Probe::Modified { elapsed_secs };
        assert!(!cache.is_fresh(&probe));
        assert_eq!(cache.get_stored_data(&probe, Some(bytes.clone())), None);
    }
    assert!(cache.is_fresh(&Probe::Modified { elapsed_secs: 3599 }));
}

#[test]
fn file_without_modification_time_gives_nothing() {
    let cache = storage();
    let bytes = b"[1]".to_vec();
    assert_eq!(cache.get_stored_data(&Probe::NoMetadata, Some(bytes.clone())), None);
    assert_eq!(cache.get_stored_data(&Probe::NoModified, Some(bytes.clone())), None);
    assert_eq!(cache.get_stored_data(&Probe::Unopened, Some(bytes)), None);
}

#[test]
fn broken_file_gives_nothing() {
    let cache = storage();
    let probe = Probe::Modified { elapsed_secs: 5 };
    assert_eq!(cache.get_stored_data(&probe, Some(vec![0xff, 0xfe, 0x00])), None);
    assert_eq!(cache.get_stored_data(&probe, Some(vec![0xc3])), None);
    assert_eq!(cache.get_stored_data(&probe, Some(Vec::new())), None);
    assert_eq!(cache.get_stored_data(&probe, None), None);
    assert_eq!(cache.read_data(Some(vec![0xed, 0xa0, 0x80])), None);
}

#[test]
fn each_failed_step_of_a_store_has_its_error() {
    let cache = storage();
    assert_eq!(cache.store(None), Err(WriteError::Serialize));
    assert_eq!(cache.stored(false, false), Err(WriteError::Create));
    assert_eq!(cache.stored(false, true), Err(WriteError::Create));
    assert_eq!(cache.stored(true, false), Err(WriteError::Write));
    assert_eq!(cache.stored(true, true), Ok(()));
    assert_eq!(cache.filename, "repositories.json");
}

#[test]
fn cached_value_ends_the_refresh_without_a_fetch() {
    for _ in 0..2 {
        let (state, action) = refresh_step(RefreshState::start(), RefreshEvent::Cached(Some(25u32)));
        assert!(matches!(state, RefreshState::Done));
        assert!(matches!(action, RefreshAction::Finish(Some(25))));
    }
}

#[test]
fn stale_cache_is_fetched_once_and_overwritten() {
    let cache = storage();
    let old = b"[\"old\"]".to_vec();
    let probe = Probe::Modified { elapsed_secs: 90 * 60 };
    let cached = cache.get_stored_data(&probe, Some(old));
    assert_eq!(cached, None);
    let mut fetches = 0;
    let (state, action) = refresh_step(RefreshState::start(), RefreshEvent::Cached(cached));
    assert!(matches!(state, RefreshState::Fetching));
    if matches!(action, RefreshAction::Fetch) {
        fetches += 1;
    }
    let (state, action) = refresh_step(state, RefreshEvent::Fetched(Some("[\"new\"]".to_string())));
    assert!(matches!(action, RefreshAction::Store));
    let pending = state.pending().unwrap().clone();
    let bytes = cache.store(Some(pending)).unwrap();
    assert_eq!(bytes, b"[\"new\"]".to_vec());
    let (state, action) = refresh_step(state, RefreshEvent::Stored(cache.stored(true, true).is_ok()));
    assert!(matches!(state, RefreshState::Done));
    assert!(state.pending().is_none());
    match action {
        RefreshAction::Finish(Some(value)) => assert_eq!(value, "[\"new\"]"),
        _ => panic!("the fetched value was not handed out"),
    }
    assert_eq!(fetches, 1);
    let probe = Probe::Modified { elapsed_secs: 0 };
    assert_eq!(cache.get_stored_data(&probe, Some(bytes)), Some("[\"new\"]".to_string()));
}

#[test]
fn failed_fetch_ends_the_refresh_with_nothing() {
    let (state, action) = refresh_step(RefreshState::<u8>::start(), RefreshEvent::Cached(None));
    assert!(matches!(action, RefreshAction::Fetch));
    let (state, action) = refresh_step(state, RefreshEvent::Fetched(None));
    assert!(matches!(state, RefreshState::Done));
    assert!(matches!(action, RefreshAction::Finish(None)));
}

#[test]
fn failed_store_aborts_the_refresh() {
    let (state, _) = refresh_step(RefreshState::start(), RefreshEvent::Cached(None));
    let (state, _) = refresh_step(state, RefreshEvent::Fetched(Some(3u8)));
    assert_eq!(state.pending(), Some(&3));
    let (state, action) = refresh_step(state, RefreshEvent::Stored(false));
    assert!(matches!(state, RefreshState::Done));
    assert!(matches!(action, RefreshAction::Abort));
}

#[test]
fn contact_information_is_taken_from_the_profile() {
    let mut profile = user("octocat");
    profile.avatar_url = "https://example.org/a.png".to_string();
    profile.email = Some("octocat@example.org".to_string());
    profile.followers = Some(12);
    profile.total_private_repos = Some(4);
    profile.public_repos = Some(99);
    let answer = get_contact_information(Some(profile));
    assert_eq!(answer.status_code, 200);
    let info = answer.response.unwrap();
    assert_eq!(info.login, "octocat");
    assert_eq!(info.avatar_url, "https://example.org/a.png");
    assert_eq!(info.email, "octocat@example.org");
    assert_eq!(info.followers, 12);
    assert_eq!(info.repository_count, 4);
}

#[test]
fn missing_profile_is_an_internal_error() {
    let answer = get_contact_information(None);
    assert_eq!(answer.status_code, 500);
    assert!(answer.response.is_none());
}

#[test]
fn envelope_keeps_payload_and_status() {
    let envelope = Response::new(vec![1u8, 2], 200);
    assert_eq!(envelope.response, vec![1, 2]);
    assert_eq!(envelope.status_code, 200);
    let wire = envelope.respond_to(Some("{}".to_string()));
    assert_eq!(wire, (200, Some("{}".to_string())));
    let wire = Response::new((), 400).respond_to(Some("null".to_string()));
    assert_eq!(wire.0, 400);
    let wire = envelope.respond_to(None);
    assert_eq!(wire, (500, None));
}

#[test]
fn upstream_addresses_hold_the_user_name() {
    assert_eq!(user_url("octocat"), "https://api.github.com/users/octocat");
    assert_eq!(repositories_url("octocat"), "https://api.github.com/users/octocat/repos");
    assert_eq!(user_url(""), "https://api.github.com/users/");
}
