use branch_head::data::{Branch, Commit, Data, GraphqlError, RateLimitInfo, Repo, User};
use branch_head::error::Error;
use branch_head::mapper::{
    clone_text, get_branch_info, get_commit_info_from_target, get_data, get_graphql_errors,
    get_rate_limit_info, get_repo_info, get_reported, get_user_from_actor, get_user_from_owner,
};
use branch_head::query::Variables;
use branch_head::response::{
    ActorUser, BranchRef, CommitTarget, GitActor, Owner, OwnerOn, RateLimit, RawResponse,
    Repository, ResponseData, ResponseError, Target, TargetOn,
};

fn variables() -> Variables {
    Variables { owner: "octo".to_string(), repo_name: "hello".to_string(), branch: "main".to_string() }
}

fn rate_limit() -> RateLimit {
    RateLimit {
        cost: 1,
        limit: 5000,
        node_count: 1,
        remaining: 4999,
        used: 1,
        reset_at: "2024-01-01T00:00:00Z".to_string(),
    }
}

fn ada() -> GitActor {
    GitActor {
        avatar_url: "u1".to_string(),
        name: Some("Ada".to_string()),
        email: Some("a@x.com".to_string()),
        user: Some(ActorUser { login: "ada".to_string() }),
    }
}

fn ada_user() -> User {
    User {
        avatar_url: "u1".to_string(),
        handle: Some("ada".to_string()),
        name: Some("Ada".to_string()),
        email: Some("a@x.com".to_string()),
    }
}

fn commit(author: Option<GitActor>, committer: Option<GitActor>) -> Target {
    Target {
        on: TargetOn::Commit(CommitTarget {
            oid: "abc123".to_string(),
            message: "init".to_string(),
            author,
            committer,
        }),
    }
}

fn user_owner() -> Owner {
    Owner {
        avatar_url: "o1".to_string(),
        login: "octo".to_string(),
        on: OwnerOn::User { name: Some("Octo".to_string()), email: "o@x.com".to_string() },
    }
}

fn organization(email: Option<&str>) -> Owner {
    Owner {
        avatar_url: "a1".to_string(),
        login: "acme".to_string(),
        on: OwnerOn::Organization {
            name: Some("Acme".to_string()),
            email: email.map(|email| email.to_string()),
        },
    }
}

fn repository(owner: Owner, target: Option<Option<Target>>) -> Repository {
    Repository {
        name_with_owner: "octo/hello".to_string(),
        owner,
        ref_: target.map(|target| BranchRef { name: "main".to_string(), target }),
    }
}

fn response(rate_limit: Option<RateLimit>, repository: Option<Repository>) -> RawResponse {
    RawResponse { data: Some(ResponseData { rate_limit, repository }), errors: None }
}

fn complete() -> RawResponse {
    response(
        Some(rate_limit()),
        Some(repository(user_owner(), Some(Some(commit(Some(ada()), Some(ada())))))),
    )
}

fn message_of(outcome: Result<Data, Error>) -> String {
    outcome.unwrap_err().message()
}

#[test]
fn clone_text_copies() {
    assert_eq!(clone_text(&Some("Ada".to_string())), Some("Ada".to_string()));
    assert_eq!(clone_text(&Some(String::new())), Some(String::new()));
    assert_eq!(clone_text(&None), None);
}

#[test]
fn rate_limit_info_equals_the_rate_limit() {
    assert_eq!(
        get_rate_limit_info(rate_limit()),
        RateLimitInfo {
            cost: 1,
            limit: 5000,
            node_count: 1,
            remaining: 4999,
            used: 1,
            reset_at: "2024-01-01T00:00:00Z".to_string(),
        }
    );
}

#[test]
fn rate_limit_info_keeps_extreme_values() {
    let info = get_rate_limit_info(RateLimit {
        cost: i64::MIN,
        limit: i64::MAX,
        node_count: 0,
        remaining: -1,
        used: 7,
        reset_at: String::new(),
    });
    assert_eq!(
        (info.cost, info.limit, info.node_count, info.remaining, info.used),
        (i64::MIN, i64::MAX, 0, -1, 7)
    );
    assert_eq!(info.reset_at, "");
}

#[test]
fn user_owner_has_login_as_handle_and_its_email() {
    assert_eq!(
        get_user_from_owner(&user_owner()).unwrap(),
        User {
            avatar_url: "o1".to_string(),
            handle: Some("octo".to_string()),
            name: Some("Octo".to_string()),
            email: Some("o@x.com".to_string()),
        }
    );
}

#[test]
fn user_owner_with_empty_email_keeps_it() {
    let owner = Owner {
        avatar_url: "o1".to_string(),
        login: "octo".to_string(),
        on: OwnerOn::User { name: None, email: String::new() },
    };
    let user = get_user_from_owner(&owner).unwrap();
    assert_eq!(user.email, Some(String::new()));
    assert_eq!(user.name, None);
}

#[test]
fn organization_owner_without_email_has_none() {
    let user = get_user_from_owner(&organization(None)).unwrap();
    assert_eq!(user.handle, Some("acme".to_string()));
    assert_eq!(user.email, None);
    assert_eq!(user.name, Some("Acme".to_string()));
    assert_eq!(user.avatar_url, "a1");
}

#[test]
fn organization_owner_with_email_keeps_it() {
    let user = get_user_from_owner(&organization(Some("hi@acme.io"))).unwrap();
    assert_eq!(user.handle, Some("acme".to_string()));
    assert_eq!(user.email, Some("hi@acme.io".to_string()));
}

#[test]
fn owner_of_another_type_is_refused() {
    let owner = Owner {
        avatar_url: "r1".to_string(),
        login: "robo".to_string(),
        on: OwnerOn::Other { typename: "Bot".to_string() },
    };
    match get_user_from_owner(&owner) {
        Err(Error::UnsupportedOwner(typename)) => assert_eq!(typename, "Bot"),
        other => panic!("{:?}", other),
    }
}

#[test]
fn actor_with_account_has_its_login_as_handle() {
    assert_eq!(get_user_from_actor(&ada()), ada_user());
}

#[test]
fn actor_without_account_has_no_handle() {
    let actor = GitActor {
        avatar_url: "u2".to_string(),
        name: Some("Grace".to_string()),
        email: None,
        user: None,
    };
    assert_eq!(
        get_user_from_actor(&actor),
        User {
            avatar_url: "u2".to_string(),
            handle: None,
            name: Some("Grace".to_string()),
            email: None,
        }
    );
}

#[test]
fn repo_info_has_name_and_owner() {
    let repo = get_repo_info(&repository(organization(None), None)).unwrap();
    assert_eq!(
        repo,
        Repo {
            name_with_owner: "octo/hello".to_string(),
            owner: User {
                avatar_url: "a1".to_string(),
                handle: Some("acme".to_string()),
                name: Some("Acme".to_string()),
                email: None,
            },
        }
    );
}

#[test]
fn repo_info_refuses_an_owner_of_another_type() {
    let owner = Owner {
        avatar_url: "r1".to_string(),
        login: "robo".to_string(),
        on: OwnerOn::Other { typename: "Mannequin".to_string() },
    };
    assert!(matches!(
        get_repo_info(&repository(owner, None)),
        Err(Error::UnsupportedOwner(typename)) if typename == "Mannequin"
    ));
}

#[test]
fn commit_info_of_a_commit() {
    let grace = GitActor { avatar_url: "u2".to_string(), name: None, email: None, user: None };
    let head = get_commit_info_from_target(&commit(Some(ada()), Some(grace))).unwrap();
    assert_eq!(
        head,
        Commit {
            author: ada_user(),
            committer: User { avatar_url: "u2".to_string(), handle: None, name: None, email: None },
            sha: "abc123".to_string(),
            message: "init".to_string(),
        }
    );
}

#[test]
fn commit_without_author_names_the_commit() {
    match get_commit_info_from_target(&commit(None, Some(ada()))) {
        Err(Error::NoAuthor { oid }) => assert_eq!(oid, "abc123"),
        other => panic!("{:?}", other),
    }
    let error = get_commit_info_from_target(&commit(None, None)).unwrap_err();
    assert_eq!(error.message(), "No author on commit abc123");
}

#[test]
fn commit_without_committer_names_the_commit() {
    match get_commit_info_from_target(&commit(Some(ada()), None)) {
        Err(Error::NoCommitter { oid }) => assert_eq!(oid, "abc123"),
        other => panic!("{:?}", other),
    }
}

#[test]
fn target_that_is_no_commit_is_refused() {
    let target = Target { on: TargetOn::Other { typename: "Tag".to_string() } };
    match get_commit_info_from_target(&target) {
        Err(Error::NotACommit { typename }) => assert_eq!(typename, "Tag"),
        other => panic!("{:?}", other),
    }
}

#[test]
fn branch_info_has_name_and_head() {
    let branch = BranchRef { name: "main".to_string(), target: Some(commit(Some(ada()), Some(ada()))) };
    assert_eq!(
        get_branch_info(&branch).unwrap(),
        Branch {
            name: "main".to_string(),
            head: Commit {
                author: ada_user(),
                committer: ada_user(),
                sha: "abc123".to_string(),
                message: "init".to_string(),
            },
        }
    );
}

#[test]
fn branch_without_target_has_no_commit_at_head() {
    let branch = BranchRef { name: "main".to_string(), target: None };
    match get_branch_info(&branch) {
        Err(Error::NoCommitAtHead { branch }) => assert_eq!(branch, "main"),
        other => panic!("{:?}", other),
    }
}

#[test]
fn reported_messages_keep_their_order() {
    let errors = Some(vec![
        ResponseError { message: "one".to_string() },
        ResponseError { message: "two".to_string() },
    ]);
    assert_eq!(get_reported(&errors), vec!["one".to_string(), "two".to_string()]);
    assert_eq!(get_reported(&None), Vec::<String>::new());
    assert_eq!(get_reported(&Some(Vec::new())), Vec::<String>::new());
    assert_eq!(
        get_graphql_errors(errors),
        vec![
            GraphqlError { message: "one".to_string() },
            GraphqlError { message: "two".to_string() }
        ]
    );
    assert_eq!(get_graphql_errors(None), Vec::new());
}

#[test]
fn complete_response_gives_data() {
    let data = get_data(complete(), &variables()).unwrap();
    assert_eq!(
        data,
        Data {
            errors: Vec::new(),
            rate_limit_info: RateLimitInfo {
                cost: 1,
                limit: 5000,
                node_count: 1,
                remaining: 4999,
                used: 1,
                reset_at: "2024-01-01T00:00:00Z".to_string(),
            },
            repo: Repo {
                name_with_owner: "octo/hello".to_string(),
                owner: User {
                    avatar_url: "o1".to_string(),
                    handle: Some("octo".to_string()),
                    name: Some("Octo".to_string()),
                    email: Some("o@x.com".to_string()),
                },
            },
            branch: Branch {
                name: "main".to_string(),
                head: Commit {
                    author: ada_user(),
                    committer: ada_user(),
                    sha: "abc123".to_string(),
                    message: "init".to_string(),
                },
            },
        }
    );
}

#[test]
fn data_rate_limit_is_the_raw_one() {
    let mut raw = complete();
    raw.data.as_mut().unwrap().rate_limit = Some(RateLimit {
        cost: 3,
        limit: 12500,
        node_count: 41,
        remaining: 12000,
        used: 500,
        reset_at: "2030-06-30T23:59:59Z".to_string(),
    });
    let info = get_data(raw, &variables()).unwrap().rate_limit_info;
    assert_eq!(
        (info.cost, info.limit, info.node_count, info.remaining, info.used),
        (3, 12500, 41, 12000, 500)
    );
    assert_eq!(info.reset_at, "2030-06-30T23:59:59Z");
}

#[test]
fn data_with_organization_owner() {
    let raw = response(
        Some(rate_limit()),
        Some(repository(organization(None), Some(Some(commit(Some(ada()), Some(ada())))))),
    );
    let owner = get_data(raw, &variables()).unwrap().repo.owner;
    assert_eq!(owner.handle, Some("acme".to_string()));
    assert_eq!(owner.email, None);
}

#[test]
fn data_carries_errors_reported_beside_complete_data() {
    let mut raw = complete();
    raw.errors = Some(vec![ResponseError { message: "deprecated field".to_string() }]);
    let data = get_data(raw, &variables()).unwrap();
    assert_eq!(data.errors, vec![GraphqlError { message: "deprecated field".to_string() }]);
}

#[test]
fn no_data_and_no_errors() {
    let raw = RawResponse { data: None, errors: None };
    assert!(matches!(get_data(raw, &variables()), Err(Error::NoData)));
    let raw = RawResponse { data: None, errors: Some(Vec::new()) };
    assert_eq!(message_of(get_data(raw, &variables())), "No data on response");
}

#[test]
fn no_data_lists_what_the_server_reported() {
    let raw = RawResponse {
        data: None,
        errors: Some(vec![
            ResponseError { message: "Field 'x' doesn't exist".to_string() },
            ResponseError { message: "Parse error".to_string() },
        ]),
    };
    match get_data(raw, &variables()) {
        Err(Error::Graphql(messages)) => {
            assert_eq!(messages, vec!["Field 'x' doesn't exist".to_string(), "Parse error".to_string()])
        }
        other => panic!("{:?}", other),
    }
}

#[test]
fn missing_rate_limit_is_fatal() {
    let raw = response(None, Some(repository(user_owner(), None)));
    assert!(matches!(get_data(raw, &variables()), Err(Error::NoRateLimit)));
    let raw = response(None, None);
    assert_eq!(message_of(get_data(raw, &variables())), "No rate limit on response");
}

#[test]
fn missing_repository_names_what_was_asked_for() {
    let raw = response(Some(rate_limit()), None);
    match get_data(raw, &variables()) {
        Err(Error::RepositoryNotFound { owner, repo_name }) => {
            assert_eq!(owner, "octo");
            assert_eq!(repo_name, "hello");
        }
        other => panic!("{:?}", other),
    }
}

#[test]
fn missing_branch_names_branch_and_repository() {
    let raw = response(Some(rate_limit()), Some(repository(user_owner(), None)));
    let asked = Variables {
        owner: "octo".to_string(),
        repo_name: "hello".to_string(),
        branch: "mian".to_string(),
    };
    let error = get_data(raw, &asked).unwrap_err();
    assert!(matches!(
        &error,
        Error::BranchNotFound { branch, name_with_owner }
            if branch == "mian" && name_with_owner == "octo/hello"
    ));
    let message = error.message();
    assert!(message.contains("mian"));
    assert!(message.contains("octo/hello"));
}

#[test]
fn unsupported_owner_comes_before_missing_branch() {
    let owner = Owner {
        avatar_url: "r1".to_string(),
        login: "robo".to_string(),
        on: OwnerOn::Other { typename: "Bot".to_string() },
    };
    let raw = response(Some(rate_limit()), Some(repository(owner, None)));
    assert!(matches!(get_data(raw, &variables()), Err(Error::UnsupportedOwner(_))));
}

#[test]
fn missing_target_is_fatal() {
    let raw = response(Some(rate_limit()), Some(repository(user_owner(), Some(None))));
    let error = get_data(raw, &variables()).unwrap_err();
    assert!(error.message().contains("no commit at branch head"));
    assert!(matches!(error, Error::NoCommitAtHead { branch } if branch == "main"));
}

#[test]
fn target_that_is_no_commit_does_not_resolve() {
    let target = Target { on: TargetOn::Other { typename: "Tag".to_string() } };
    let raw = response(Some(rate_limit()), Some(repository(user_owner(), Some(Some(target)))));
    let error = get_data(raw, &variables()).unwrap_err();
    assert!(error.message().contains("ref does not resolve to a commit"));
    assert!(matches!(error, Error::NotACommit { typename } if typename == "Tag"));
}

#[test]
fn missing_author_and_committer_name_the_commit() {
    let raw = response(
        Some(rate_limit()),
        Some(repository(user_owner(), Some(Some(commit(None, Some(ada())))))),
    );
    assert_eq!(message_of(get_data(raw, &variables())), "No author on commit abc123");
    let raw = response(
        Some(rate_limit()),
        Some(repository(user_owner(), Some(Some(commit(Some(ada()), None))))),
    );
    assert_eq!(message_of(get_data(raw, &variables())), "No committer on commit abc123");
}

#[test]
fn same_response_gives_equal_data() {
    let first = get_data(complete(), &variables()).unwrap();
    let second = get_data(complete(), &variables()).unwrap();
    assert_eq!(first, second);
}
