use repo_renamer::request::{
    authorization, is_success, list_request, rename_request, LIST_URL, REPOSITORY_URL, STATUS_OK,
    USER_AGENT,
};
use repo_renamer::{Method, Repo, Request};

#[test]
fn authorization_presents_a_bearer_token() {
    assert_eq!(authorization("abc123"), "Bearer abc123");
    assert_eq!(authorization(""), "Bearer ");
}

#[test]
fn list_request_asks_for_one_page_of_a_hundred() {
    let request = list_request("t0k3n");
    assert_eq!(
        request,
        Request {
            method: Method::Get,
            url: "https://api.github.com/user/repos?per_page=100".to_string(),
            user_agent: "rust".to_string(),
            authorization: "Bearer t0k3n".to_string(),
            body: None,
        }
    );
}

#[test]
fn rename_request_addresses_the_repository_by_owner_and_name() {
    let request = rename_request("octocat", "my-repo", "my_repo", "t0k3n");
    assert_eq!(
        request,
        Request {
            method: Method::Patch,
            url: "https://api.github.com/repos/octocat/my-repo".to_string(),
            user_agent: "rust".to_string(),
            authorization: "Bearer t0k3n".to_string(),
            body: Some(Repo { name: "my_repo".to_string() }),
        }
    );
}

#[test]
fn rename_request_body_carries_the_new_name_only() {
    let request = rename_request("u", "old_name", "old-name", "t");
    assert_eq!(request.body, Some(Repo { name: "old-name".to_string() }));
    assert_eq!(request.url, "https://api.github.com/repos/u/old_name");
}

#[test]
fn success_is_the_range_from_200_to_299() {
    assert!(!is_success(0));
    assert!(!is_success(199));
    assert!(is_success(200));
    assert!(is_success(201));
    assert!(is_success(204));
    assert!(is_success(299));
    assert!(!is_success(300));
    assert!(!is_success(304));
    assert!(!is_success(401));
    assert!(!is_success(404));
    assert!(!is_success(500));
    assert!(!is_success(u16::MAX));
}

#[test]
fn protocol_constants() {
    assert_eq!(LIST_URL, "https://api.github.com/user/repos?per_page=100");
    assert_eq!(REPOSITORY_URL, "https://api.github.com/repos/");
    assert_eq!(USER_AGENT, "rust");
    assert_eq!(STATUS_OK, 200);
}

#[test]
fn request_clone_keeps_every_field() {
    let request = rename_request("octocat", "a-b", "a_b", "secret");
    assert_eq!(request.clone(), request);
    let listing = list_request("secret");
    assert_eq!(listing.clone(), listing);
    let repo = Repo { name: "x-y".to_string() };
    assert_eq!(repo.clone(), repo);
}
