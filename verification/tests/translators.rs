//! The per-endpoint translators on concrete documents, the decimal parser,
//! and the error mapper.

use bzd_gateway::auth::complete;
use bzd_gateway::auth::join;
use bzd_gateway::auth::me;
use bzd_gateway::backend::messages_api::{
    CreateMessageRequest, CreateMessageResponse, CreateTopicRequest, CreateTopicResponse,
    CreateTopicUserResponse, DeleteTopicUserRequest, GetTopicResponse, GetTopicsResponse, Tp,
};
use bzd_gateway::backend::users_api::{
    CompleteRequest, CompleteResponse, CreateContactsRequest, CreateSourceResponse,
    GetUserResponse, JoinRequest, JoinResponse, User as UserRecord, Verification,
};
use bzd_gateway::backend::messages_api::Topic as TopicRecord;
use bzd_gateway::contacts;
use bzd_gateway::error::{AppError, BackendCode, BackendError};
use bzd_gateway::messages;
use bzd_gateway::numbers::parse_i64;
use bzd_gateway::sources;
use bzd_gateway::topics::{create_topic, create_topic_user, delete_topic_user, get_topics};
use bzd_gateway::user::AppUser;

fn caller(id: &str) -> AppUser {
    AppUser { user_id: String::from(id) }
}

#[test]
fn parse_i64_accepts_decimal_integers() {
    assert_eq!(parse_i64("157"), Some(157));
    assert_eq!(parse_i64("0"), Some(0));
    assert_eq!(parse_i64("+42"), Some(42));
    assert_eq!(parse_i64("-9"), Some(-9));
    assert_eq!(parse_i64("007"), Some(7));
    assert_eq!(parse_i64("9223372036854775807"), Some(i64::MAX));
    assert_eq!(parse_i64("-9223372036854775808"), Some(i64::MIN));
}

#[test]
fn parse_i64_rejects_everything_else() {
    assert_eq!(parse_i64(""), None);
    assert_eq!(parse_i64("+"), None);
    assert_eq!(parse_i64("-"), None);
    assert_eq!(parse_i64("1a"), None);
    assert_eq!(parse_i64("a1"), None);
    assert_eq!(parse_i64("1 2"), None);
    assert_eq!(parse_i64(" 1"), None);
    assert_eq!(parse_i64("1-2"), None);
    assert_eq!(parse_i64("9223372036854775808"), None);
    assert_eq!(parse_i64("-9223372036854775809"), None);
    assert_eq!(parse_i64("99999999999999999999999999"), None);
}

#[test]
fn join_request_parses_phone_number() {
    let req = join::Request { phone_number: String::from("15551234567") };
    let backend = JoinRequest::try_from(req).expect("translated");
    assert_eq!(backend.phone_number, Some(15551234567));
}

#[test]
fn join_request_rejects_non_numeric_phone() {
    let req = join::Request { phone_number: String::from("555-123") };
    let res = JoinRequest::try_from(req);
    assert!(matches!(res, Err(AppError::BadRequest)));
}

#[test]
fn join_response_carries_verification_id() {
    let res = JoinResponse {
        verification: Some(Verification { verification_id: Some(String::from("v1")) }),
    };
    let out = join::Response::try_from(res).expect("translated");
    assert_eq!(out.verification.verification_id, "v1");
}

#[test]
fn join_response_without_verification_is_internal() {
    let res = JoinResponse { verification: None };
    assert!(matches!(join::Response::try_from(res), Err(AppError::Internal)));
    let res = JoinResponse { verification: Some(Verification { verification_id: None }) };
    assert!(matches!(join::Response::try_from(res), Err(AppError::Internal)));
}

#[test]
fn complete_translators_carry_fields() {
    let req = complete::Request {
        verification_id: String::from("v1"),
        code: String::from("1234"),
    };
    let backend = CompleteRequest::from(req);
    assert_eq!(backend.verification_id, Some(String::from("v1")));
    assert_eq!(backend.code, Some(String::from("1234")));

    let out = complete::Response::try_from(CompleteResponse { jwt: Some(String::from("j.w.t")) })
        .expect("translated");
    assert_eq!(out.jwt, "j.w.t");
    let missing = complete::Response::try_from(CompleteResponse { jwt: None });
    assert!(matches!(missing, Err(AppError::Internal)));
}

#[test]
fn me_plan_calls_backend_only_when_authenticated() {
    match me::me_plan(Some(caller("u1"))) {
        me::MePlan::Call(req) => assert_eq!(req.user_id, Some(String::from("u1"))),
        me::MePlan::Respond(_) => panic!("authenticated caller must be looked up"),
    }
    match me::me_plan(None) {
        me::MePlan::Respond(resp) => assert!(resp.user.is_none()),
        me::MePlan::Call(_) => panic!("anonymous caller must not reach the backend"),
    }
}

#[test]
fn me_response_requires_user_record() {
    let res = GetUserResponse {
        user: Some(UserRecord {
            user_id: Some(String::from("u1")),
            name: None,
            phone: None,
            abbr: None,
            color: None,
        }),
    };
    let out = me::Response::try_from(res).expect("translated");
    match out.user {
        Some(u) => assert_eq!(u.user_id, "u1"),
        None => panic!("user expected"),
    }
    assert!(matches!(
        me::Response::try_from(GetUserResponse { user: None }),
        Err(AppError::Internal)
    ));
}

#[test]
fn contacts_request_keeps_entries_and_owner() {
    let req = contacts::Request {
        contacts: vec![
            contacts::Contact {
                phone_number: String::from("111"),
                name: String::from("a"),
                device_contact_id: String::from("d1"),
            },
            contacts::Contact {
                phone_number: String::from("222"),
                name: String::from("b"),
                device_contact_id: String::from("d2"),
            },
        ],
    };
    let backend = contacts::create_contacts_request(caller("owner"), req);
    assert_eq!(backend.user_id, Some(String::from("owner")));
    assert_eq!(backend.contacts.len(), 2);
    assert_eq!(backend.contacts[0].phone_number, Some(String::from("111")));
    assert_eq!(backend.contacts[0].name, Some(String::from("a")));
    assert_eq!(backend.contacts[0].device_contact_id, Some(String::from("d1")));
    assert_eq!(backend.contacts[1].phone_number, Some(String::from("222")));
}

#[test]
fn contacts_request_without_owner_defers_it() {
    let req = contacts::Request { contacts: vec![] };
    let backend = CreateContactsRequest::from(req);
    assert_eq!(backend.user_id, None);
    assert!(backend.contacts.is_empty());
}

#[test]
fn source_translators_carry_fields() {
    let backend = sources::create_source_request(
        caller("me"),
        sources::Request { user_id: String::from("them") },
    );
    assert_eq!(backend.user_id, Some(String::from("me")));
    assert_eq!(backend.source_user_id, Some(String::from("them")));

    let out = sources::Response::try_from(CreateSourceResponse {
        source_id: Some(String::from("s1")),
    })
    .expect("translated");
    assert_eq!(out.source_id, "s1");
    assert!(matches!(
        sources::Response::try_from(CreateSourceResponse { source_id: None }),
        Err(AppError::Internal)
    ));
}

#[test]
fn message_with_both_fields_becomes_reply() {
    let req = messages::Request {
        text: String::from("hello"),
        code: String::from("c1"),
        message_id: Some(String::from("m1")),
        topic_ids: Some(vec![String::from("t1"), String::from("t2")]),
    };
    let backend = messages::create_message_request(caller("u1"), req);
    assert_eq!(backend.user_id, Some(String::from("u1")));
    assert_eq!(backend.text, Some(String::from("hello")));
    assert_eq!(backend.code, Some(String::from("c1")));
    match backend.tp {
        Some(Tp::Regular(reg)) => assert_eq!(reg.message_id, Some(String::from("m1"))),
        _ => panic!("reply variant must take precedence"),
    }
}

#[test]
fn message_with_topics_starts_thread() {
    let req = messages::Request {
        text: String::from("hello"),
        code: String::from("c1"),
        message_id: None,
        topic_ids: Some(vec![String::from("t1")]),
    };
    let backend = CreateMessageRequest::from(req);
    match backend.tp {
        Some(Tp::Starting(st)) => assert_eq!(st.topic_ids, vec![String::from("t1")]),
        _ => panic!("new-thread variant expected"),
    }
}

#[test]
fn message_with_neither_field_has_no_association() {
    let req = messages::Request {
        text: String::from("hello"),
        code: String::from("c1"),
        message_id: None,
        topic_ids: None,
    };
    let backend = CreateMessageRequest::from(req);
    assert!(backend.tp.is_none());
}

#[test]
fn message_response_carries_identifier() {
    let out = messages::Response::try_from(CreateMessageResponse {
        message_id: Some(String::from("m9")),
    })
    .expect("translated");
    assert_eq!(out.message.message_id, "m9");
    assert!(matches!(
        messages::Response::try_from(CreateMessageResponse { message_id: None }),
        Err(AppError::Internal)
    ));
}

#[test]
fn topics_listing_translates_in_order() {
    let res = GetTopicsResponse {
        topics: vec![
            TopicRecord {
                topic_id: Some(String::from("t1")),
                user_id: Some(String::from("u1")),
                title: Some(String::from("first")),
            },
            TopicRecord {
                topic_id: Some(String::from("t2")),
                user_id: Some(String::from("u1")),
                title: Some(String::from("second")),
            },
        ],
    };
    let out = get_topics::Response::try_from(res).expect("translated");
    assert_eq!(out.topics.len(), 2);
    assert_eq!(out.topics[0].topic_id, "t1");
    assert_eq!(out.topics[0].title, "first");
    assert_eq!(out.topics[1].topic_id, "t2");
}

#[test]
fn topics_listing_fails_on_omitted_field() {
    let res = GetTopicsResponse {
        topics: vec![TopicRecord {
            topic_id: Some(String::from("t1")),
            user_id: None,
            title: None,
        }],
    };
    assert!(matches!(
        get_topics::Response::try_from(res),
        Err(AppError::Internal)
    ));
}

#[test]
fn topics_listing_request_scopes_to_caller() {
    let req = get_topics::get_topics_request(caller("u1"));
    assert_eq!(req.user_ids, vec![String::from("u1")]);
}

#[test]
fn create_topic_pipeline_builders() {
    let first = create_topic::create_topic_request(
        caller("u1"),
        create_topic::Request { title: String::from("plans") },
    );
    assert_eq!(first.title, Some(String::from("plans")));
    assert_eq!(first.user_id, Some(String::from("u1")));

    let bare = CreateTopicRequest::from(create_topic::Request { title: String::from("plans") });
    assert_eq!(bare.user_id, None);

    let second = create_topic::get_topic_request(
        CreateTopicResponse { topic_id: Some(String::from("t7")) },
        caller("u1"),
    );
    assert_eq!(second.topic_id, Some(String::from("t7")));
    assert_eq!(second.user_id, Some(String::from("u1")));
}

#[test]
fn create_topic_response_requires_topic() {
    let res = GetTopicResponse {
        topic: Some(TopicRecord {
            topic_id: Some(String::from("t7")),
            user_id: Some(String::from("u1")),
            title: Some(String::from("plans")),
        }),
    };
    let out = create_topic::Response::try_from(res).expect("translated");
    assert_eq!(out.topic.topic_id, "t7");
    assert_eq!(out.topic.title, "plans");
    assert!(matches!(
        create_topic::Response::try_from(GetTopicResponse { topic: None }),
        Err(AppError::Internal)
    ));
}

#[test]
fn topic_membership_translators_carry_fields() {
    let req = create_topic_user::create_topic_user_request(
        caller("u1"),
        create_topic_user::Request { topic_id: String::from("t1") },
    );
    assert_eq!(req.topic_id, Some(String::from("t1")));
    assert_eq!(req.user_id, Some(String::from("u1")));

    let out = create_topic_user::Response::try_from(CreateTopicUserResponse {
        topic_user_id: Some(String::from("tu1")),
    })
    .expect("translated");
    assert_eq!(out.topic_user.topic_user_id, "tu1");
    assert!(matches!(
        create_topic_user::Response::try_from(CreateTopicUserResponse { topic_user_id: None }),
        Err(AppError::Internal)
    ));
}

#[test]
fn topic_membership_deletion_builders() {
    let bare = DeleteTopicUserRequest::from(delete_topic_user::Request {
        topic_user_id: String::from("tu1"),
    });
    assert_eq!(bare.topic_user_id, Some(String::from("tu1")));
    assert_eq!(bare.user_id, None);

    let req = delete_topic_user::delete_topic_user_request(
        caller("u1"),
        delete_topic_user::Request { topic_user_id: String::from("tu1") },
    );
    assert_eq!(req.topic_user_id, Some(String::from("tu1")));
    assert_eq!(req.user_id, Some(String::from("u1")));
}

#[test]
fn error_classes_map_to_status_codes() {
    assert_eq!(AppError::BadRequest.status_code(), 400);
    assert_eq!(AppError::Unauthorized.status_code(), 401);
    assert_eq!(AppError::NotFound.status_code(), 404);
    assert_eq!(AppError::ValidationFailed.status_code(), 422);
    assert_eq!(AppError::Internal.status_code(), 500);
}

#[test]
fn backend_failures_are_reclassified() {
    assert_eq!(
        AppError::from_backend(BackendError { code: BackendCode::InvalidArgument }),
        AppError::ValidationFailed
    );
    assert_eq!(
        AppError::from_backend(BackendError { code: BackendCode::NotFound }),
        AppError::NotFound
    );
    assert_eq!(
        AppError::from_backend(BackendError { code: BackendCode::Other }),
        AppError::Internal
    );
}
