use gitlab_cli::gitlab::client::GitLabClient;
use gitlab_cli::gitlab::exchange::{Body, Expect, Failure, Method, Payload, Reply, Request};
use gitlab_cli::gitlab::users::{Grant, GrantStep};
use gitlab_cli::models::user::AccessLevel;

fn grant() -> Grant {
    GitLabClient::new("https://gitlab.example.com/api/v4", "test-token")
        .users()
        .add_to_project(123, 456, AccessLevel::Developer)
}

fn members_request() -> Request {
    Request {
        method: Method::Post,
        url: "https://gitlab.example.com/api/v4/projects/456/members".to_string(),
        body: Body::Member { user_id: 123, access_level: 30 },
        expect: Expect::Nothing,
    }
}

fn invitations_request() -> Request {
    Request {
        method: Method::Post,
        url: "https://gitlab.example.com/api/v4/projects/456/invitations".to_string(),
        body: Body::Invitation { user_id: "123".to_string(), access_level: 30 },
        expect: Expect::Nothing,
    }
}

fn refused(body: Option<&str>) -> Reply {
    Reply::Refused { reason: "HTTP 4xx".to_string(), body: body.map(|b| b.to_string()) }
}

fn unreachable(reason: &str) -> Reply {
    Reply::Unreachable { reason: reason.to_string() }
}

/// Runs a grant against the replies and returns how it ended, with the
/// requests that were made.
fn run(replies: Vec<Reply>) -> (GrantStep, Vec<Request>) {
    let mut grant = grant();
    let mut sent = vec![grant.request()];
    let mut last = None;
    for reply in replies {
        match grant.clone().step(reply) {
            GrantStep::Ask(next, request) => {
                sent.push(request.clone());
                assert_eq!(next.request(), request);
                grant = next;
            }
            over => {
                last = Some(over);
                break;
            }
        }
    }
    (last.expect("the grant did not end"), sent)
}

#[test]
fn grant_begins_at_the_members_endpoint_with_the_user_by_number() {
    assert_eq!(grant().request(), members_request());
}

#[test]
fn success_at_the_members_endpoint_makes_no_second_request() {
    let (end, sent) = run(vec![Reply::Success(Payload::Nothing)]);
    assert_eq!(end, GrantStep::Granted);
    assert_eq!(sent, vec![members_request()]);
}

#[test]
fn refusal_at_the_members_endpoint_asks_the_invitations_endpoint_once() {
    let (end, sent) =
        run(vec![refused(Some("members says no")), Reply::Success(Payload::Nothing)]);
    assert_eq!(end, GrantStep::Granted);
    assert_eq!(sent, vec![members_request(), invitations_request()]);
}

#[test]
fn unreachable_members_endpoint_asks_the_invitations_endpoint_once() {
    let (end, sent) = run(vec![unreachable("connection refused"), Reply::Success(Payload::Nothing)]);
    assert_eq!(end, GrantStep::Granted);
    assert_eq!(sent, vec![members_request(), invitations_request()]);
}

#[test]
fn the_invitation_carries_the_user_as_text() {
    let (_, sent) = run(vec![refused(None), Reply::Success(Payload::Nothing)]);
    match &sent[1].body {
        Body::Invitation { user_id, access_level } => {
            assert_eq!(user_id, "123");
            assert_eq!(*access_level, 30);
        }
        other => panic!("not an invitation: {:?}", other),
    }
}

#[test]
fn two_refusals_are_both_in_the_failure() {
    let (end, sent) = run(vec![
        refused(Some("{\"message\":\"403 Forbidden\"}")),
        refused(Some("{\"message\":\"invite failed\"}")),
    ]);
    let failure = Failure::GrantFailed {
        members: "{\"message\":\"403 Forbidden\"}".to_string(),
        invitations: "{\"message\":\"invite failed\"}".to_string(),
    };
    assert_eq!(end, GrantStep::Failed(failure.clone()));
    assert_eq!(sent.len(), 2);
    assert_eq!(
        failure.message(),
        "Failed to add user to project. Members endpoint error: {\"message\":\"403 Forbidden\"}. Invitations endpoint error: {\"message\":\"invite failed\"}"
    );
}

#[test]
fn a_refusal_without_a_readable_body_is_an_unknown_error() {
    let (end, _) = run(vec![refused(None), refused(None)]);
    assert_eq!(
        end,
        GrantStep::Failed(Failure::GrantFailed {
            members: "Unknown error".to_string(),
            invitations: "Unknown error".to_string(),
        })
    );
}

/// The message of a grant that failed.
fn message_of(end: &GrantStep) -> String {
    match end {
        GrantStep::Failed(failure) => failure.message(),
        other => panic!("the grant did not fail: {:?}", other),
    }
}

#[test]
fn refusal_after_unreachable_members_endpoint_holds_both_failures() {
    let (end, sent) = run(vec![unreachable("connection timed out"), refused(Some("nope"))]);
    assert_eq!(
        end,
        GrantStep::Failed(Failure::GrantFailed {
            members: "connection timed out".to_string(),
            invitations: "nope".to_string(),
        })
    );
    assert_eq!(sent, vec![members_request(), invitations_request()]);
    let message = message_of(&end);
    assert!(message.contains("connection timed out"));
    assert!(message.contains("nope"));
    assert_eq!(
        message,
        "Failed to add user to project. Members endpoint error: connection timed out. Invitations endpoint error: nope"
    );
}

#[test]
fn unreachable_invitations_endpoint_after_a_refusal_holds_both_failures() {
    let (end, sent) = run(vec![refused(Some("members says no")), unreachable("connection reset")]);
    assert_eq!(
        end,
        GrantStep::Failed(Failure::GrantFailed {
            members: "members says no".to_string(),
            invitations: "connection reset".to_string(),
        })
    );
    assert_eq!(sent.len(), 2);
    let message = message_of(&end);
    assert!(message.contains("members says no"));
    assert!(message.contains("connection reset"));
}

#[test]
fn two_unreachable_endpoints_hold_both_reasons() {
    let (end, sent) = run(vec![unreachable("first down"), unreachable("second down")]);
    assert_eq!(
        end,
        GrantStep::Failed(Failure::GrantFailed {
            members: "first down".to_string(),
            invitations: "second down".to_string(),
        })
    );
    assert_eq!(sent.len(), 2);
}

#[test]
fn every_pair_of_failures_stands_in_the_message() {
    let firsts = [
        (refused(Some("e1 body")), "e1 body"),
        (refused(None), "Unknown error"),
        (unreachable("e1 transport"), "e1 transport"),
        (Reply::Malformed { reason: "e1 unreadable".to_string() }, "e1 unreadable"),
    ];
    let seconds = [
        (refused(Some("e2 body")), "e2 body"),
        (refused(None), "Unknown error"),
        (unreachable("e2 transport"), "e2 transport"),
        (Reply::Malformed { reason: "e2 unreadable".to_string() }, "e2 unreadable"),
    ];
    for (first, e1) in firsts.iter() {
        for (second, e2) in seconds.iter() {
            let (end, sent) = run(vec![first.clone(), second.clone()]);
            assert_eq!(sent.len(), 2);
            let message = message_of(&end);
            assert!(message.contains(e1), "{:?} lacks {:?}", message, e1);
            assert!(message.contains(e2), "{:?} lacks {:?}", message, e2);
        }
    }
}

#[test]
fn every_level_travels_as_its_number() {
    let client = GitLabClient::new("http://h", "t");
    let levels = [
        (AccessLevel::NoAccess, 0),
        (AccessLevel::MinimalAccess, 5),
        (AccessLevel::Guest, 10),
        (AccessLevel::Planner, 15),
        (AccessLevel::Reporter, 20),
        (AccessLevel::Developer, 30),
        (AccessLevel::Maintainer, 40),
        (AccessLevel::Owner, 50),
    ];
    for (level, number) in levels {
        let request = client.users().add_to_project(1, 2, level).request();
        assert_eq!(request.url, "http://h/projects/2/members");
        assert_eq!(request.body, Body::Member { user_id: 1, access_level: number });
    }
}

#[test]
fn an_answer_that_cannot_be_read_is_a_failure_like_any_other() {
    let unreadable = || Reply::Malformed { reason: "expected value".to_string() };
    let (end, sent) = run(vec![unreadable(), Reply::Success(Payload::Nothing)]);
    assert_eq!(end, GrantStep::Granted);
    assert_eq!(sent, vec![members_request(), invitations_request()]);
    let (end, sent) = run(vec![refused(Some("no")), unreadable()]);
    assert_eq!(
        end,
        GrantStep::Failed(Failure::GrantFailed {
            members: "no".to_string(),
            invitations: "expected value".to_string(),
        })
    );
    assert_eq!(sent.len(), 2);
}
