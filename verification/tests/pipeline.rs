//! The pipeline driver: four dependent calls in sequence, and the abort of
//! the whole aggregation when any one of them fails.

use bzd_gateway::backend::messages_api::{
    GetTopicsResponse, GetTopicsUsersResponse, Topic as TopicRecord,
};
use bzd_gateway::backend::users_api::{
    GetSourcesResponse, GetUsersResponse, Source as SourceRecord, User as UserRecord,
};
use bzd_gateway::error::{AppError, BackendCode, BackendError};
use bzd_gateway::flow::{BackendRequest, BackendResponse, UsersFlow};
use bzd_gateway::user::AppUser;

fn caller() -> AppUser {
    AppUser { user_id: String::from("caller") }
}

fn sources_response() -> GetSourcesResponse {
    GetSourcesResponse {
        sources: vec![SourceRecord {
            source_id: Some(String::from("s1")),
            user_id: Some(String::from("caller")),
            source_user_id: Some(String::from("U2")),
        }],
        contacts: vec![],
    }
}

fn users_response() -> GetUsersResponse {
    GetUsersResponse {
        users: vec![UserRecord {
            user_id: Some(String::from("U2")),
            name: Some(String::from("Nia")),
            phone: Some(String::from("p")),
            abbr: Some(String::from("a")),
            color: Some(String::from("c")),
        }],
    }
}

fn topics_response() -> GetTopicsResponse {
    GetTopicsResponse {
        topics: vec![TopicRecord {
            topic_id: Some(String::from("t1")),
            user_id: Some(String::from("U2")),
            title: Some(String::from("Breakfast")),
        }],
    }
}

fn failure() -> BackendError {
    BackendError { code: BackendCode::Other }
}

#[test]
fn pipeline_runs_all_four_calls_in_sequence() {
    let flow = UsersFlow::start(caller());
    match flow.request() {
        Some(BackendRequest::Sources(q)) => {
            assert_eq!(q.user_id, Some(String::from("caller")))
        },
        _ => panic!("first call must fetch sources"),
    }

    let flow = flow.step(Ok(BackendResponse::Sources(sources_response())));
    match flow.request() {
        Some(BackendRequest::Users(q)) => assert_eq!(q.user_ids, vec![String::from("U2")]),
        _ => panic!("second call must fetch the referenced users"),
    }

    let flow = flow.step(Ok(BackendResponse::Users(users_response())));
    match flow.request() {
        Some(BackendRequest::Topics(q)) => assert_eq!(q.user_ids, vec![String::from("U2")]),
        _ => panic!("third call must fetch the users' topics"),
    }

    let flow = flow.step(Ok(BackendResponse::Topics(topics_response())));
    match flow.request() {
        Some(BackendRequest::TopicsUsers(q)) => {
            assert_eq!(q.topic_ids, vec![String::from("t1")]);
            assert_eq!(q.user_id, Some(String::from("caller")));
        },
        _ => panic!("fourth call must fetch the caller's memberships"),
    }

    let flow = flow.step(Ok(BackendResponse::TopicsUsers(GetTopicsUsersResponse {
        topics_users: vec![],
    })));
    assert!(flow.request().is_none());
    match flow {
        UsersFlow::Done { response } => {
            assert_eq!(response.sources.len(), 1);
            assert_eq!(response.sources[0].source_id, "s1");
            assert_eq!(response.sources[0].user.name, "Nia");
            assert_eq!(response.sources[0].topics.len(), 1);
            assert!(response.contacts.is_empty());
        },
        _ => panic!("pipeline must finish with the assembled listing"),
    }
}

#[test]
fn failure_of_third_call_aborts_whole_aggregation() {
    let flow = UsersFlow::start(caller())
        .step(Ok(BackendResponse::Sources(sources_response())))
        .step(Ok(BackendResponse::Users(users_response())))
        .step(Err(failure()));
    assert!(flow.request().is_none());
    match flow {
        UsersFlow::Failed { error } => assert_eq!(error, AppError::Internal),
        _ => panic!("a failed call must fail the aggregation; no partial data"),
    }
}

#[test]
fn failure_of_first_call_aborts_with_its_classification() {
    let flow = UsersFlow::start(caller()).step(Err(BackendError {
        code: BackendCode::InvalidArgument,
    }));
    match flow {
        UsersFlow::Failed { error } => assert_eq!(error, AppError::ValidationFailed),
        _ => panic!("a failed call must fail the aggregation"),
    }
}

#[test]
fn response_of_wrong_shape_is_internal_fault() {
    let flow = UsersFlow::start(caller())
        .step(Ok(BackendResponse::Users(users_response())));
    match flow {
        UsersFlow::Failed { error } => assert_eq!(error, AppError::Internal),
        _ => panic!("a response of the wrong shape must fail the aggregation"),
    }
}

#[test]
fn unresolved_reference_fails_final_assembly() {
    let flow = UsersFlow::start(caller())
        .step(Ok(BackendResponse::Sources(sources_response())))
        .step(Ok(BackendResponse::Users(GetUsersResponse { users: vec![] })))
        .step(Ok(BackendResponse::Topics(GetTopicsResponse { topics: vec![] })))
        .step(Ok(BackendResponse::TopicsUsers(GetTopicsUsersResponse {
            topics_users: vec![],
        })));
    match flow {
        UsersFlow::Failed { error } => assert_eq!(error, AppError::Internal),
        _ => panic!("an unresolved reference must fail the aggregation"),
    }
}

#[test]
fn finished_pipeline_ignores_further_events() {
    let flow = UsersFlow::start(caller()).step(Err(failure()));
    let flow = flow.step(Ok(BackendResponse::Sources(sources_response())));
    assert!(matches!(flow, UsersFlow::Failed { .. }));
}
