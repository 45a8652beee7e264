//! The aggregation engine on concrete data: the identifier-keyed join, the
//! union of referenced identifiers, and the data-integrity faults.

use bzd_gateway::backend::messages_api::{
    GetTopicsResponse, GetTopicsUsersResponse, Topic as TopicRecord, TopicUser as TopicUserRecord,
};
use bzd_gateway::backend::users_api::{
    Contact as ContactRecord, GetSourcesResponse, GetUsersResponse, Source as SourceRecord,
    User as UserRecord,
};
use bzd_gateway::error::AppError;
use bzd_gateway::user::AppUser;
use bzd_gateway::users::{
    find_user, get_sources_request, referenced_user_ids, topic_ids, Contact, Response, Source,
    User,
};

fn user_record(id: &str, name: &str) -> UserRecord {
    UserRecord {
        user_id: Some(String::from(id)),
        name: Some(String::from(name)),
        phone: Some(format!("{}-phone", id)),
        abbr: Some(format!("{}-abbr", id)),
        color: Some(format!("{}-color", id)),
    }
}

fn source_record(source_id: &str, owner: &str, referenced: &str) -> SourceRecord {
    SourceRecord {
        source_id: Some(String::from(source_id)),
        user_id: Some(String::from(owner)),
        source_user_id: Some(String::from(referenced)),
    }
}

fn contact_record(contact_id: &str, owner: &str, referenced: &str, name: &str) -> ContactRecord {
    ContactRecord {
        contact_id: Some(String::from(contact_id)),
        user_id: Some(String::from(owner)),
        contact_user_id: Some(String::from(referenced)),
        name: Some(String::from(name)),
    }
}

fn topic_record(topic_id: &str, owner: &str, title: &str) -> TopicRecord {
    TopicRecord {
        topic_id: Some(String::from(topic_id)),
        user_id: Some(String::from(owner)),
        title: Some(String::from(title)),
    }
}

fn empty_topics() -> GetTopicsResponse {
    GetTopicsResponse { topics: vec![] }
}

fn empty_topics_users() -> GetTopicsUsersResponse {
    GetTopicsUsersResponse { topics_users: vec![] }
}

#[test]
fn sources_request_scopes_to_caller() {
    let req = get_sources_request(&AppUser { user_id: String::from("caller") });
    assert_eq!(req.user_id, Some(String::from("caller")));
}

#[test]
fn listing_joins_one_source_with_referenced_profile() {
    // the caller has one source referencing U2 and no contacts; GetUsers
    // returns U2's full record
    let sources_res = GetSourcesResponse {
        sources: vec![source_record("s1", "caller", "U2")],
        contacts: vec![],
    };
    let ids = referenced_user_ids(&sources_res).expect("ids");
    assert_eq!(ids, vec![String::from("U2")]);
    let users_res = GetUsersResponse { users: vec![user_record("U2", "Nia")] };
    let out = Response::try_from(sources_res, users_res, empty_topics(), empty_topics_users())
        .expect("assembled");
    assert!(out.contacts.is_empty());
    assert_eq!(out.sources.len(), 1);
    let entry = &out.sources[0];
    assert_eq!(entry.source_id, "s1");
    assert_eq!(entry.user.user_id, "U2");
    assert_eq!(entry.user.name, "Nia");
    assert_eq!(entry.user.phone, "U2-phone");
    assert_eq!(entry.user.abbr, "U2-abbr");
    assert_eq!(entry.user.color, "U2-color");
    assert!(entry.topics.is_empty());
}

#[test]
fn listing_fails_internal_when_reference_unresolved() {
    let sources_res = GetSourcesResponse {
        sources: vec![source_record("s1", "caller", "U2")],
        contacts: vec![],
    };
    let users_res = GetUsersResponse { users: vec![user_record("U3", "Ada")] };
    let res = Response::try_from(sources_res, users_res, empty_topics(), empty_topics_users());
    assert!(matches!(res, Err(AppError::Internal)));
}

#[test]
fn listing_fails_internal_when_profile_incomplete() {
    let sources_res = GetSourcesResponse {
        sources: vec![source_record("s1", "caller", "U2")],
        contacts: vec![],
    };
    let mut record = user_record("U2", "Nia");
    record.color = None;
    let users_res = GetUsersResponse { users: vec![record] };
    let res = Response::try_from(sources_res, users_res, empty_topics(), empty_topics_users());
    assert!(matches!(res, Err(AppError::Internal)));
}

#[test]
fn listing_joins_contacts_by_identifier() {
    let sources_res = GetSourcesResponse {
        sources: vec![],
        contacts: vec![
            contact_record("c1", "caller", "U2", "Best friend"),
            contact_record("c2", "caller", "U3", "Neighbour"),
        ],
    };
    let users_res = GetUsersResponse {
        users: vec![user_record("U3", "Ada"), user_record("U2", "Nia")],
    };
    let out = Response::try_from(sources_res, users_res, empty_topics(), empty_topics_users())
        .expect("assembled");
    assert!(out.sources.is_empty());
    assert_eq!(out.contacts.len(), 2);
    assert_eq!(out.contacts[0].contact_id, "c1");
    assert_eq!(out.contacts[0].contact_name, "Best friend");
    assert_eq!(out.contacts[0].user.name, "Nia");
    assert_eq!(out.contacts[1].contact_id, "c2");
    assert_eq!(out.contacts[1].user.name, "Ada");
}

#[test]
fn contact_with_unresolved_reference_fails_whole_aggregation() {
    let sources_res = GetSourcesResponse {
        sources: vec![source_record("s1", "caller", "U2")],
        contacts: vec![contact_record("c1", "caller", "U9", "Ghost")],
    };
    let users_res = GetUsersResponse { users: vec![user_record("U2", "Nia")] };
    let res = Response::try_from(sources_res, users_res, empty_topics(), empty_topics_users());
    assert!(matches!(res, Err(AppError::Internal)));
}

#[test]
fn source_collects_topics_of_its_user_with_memberships() {
    let sources_res = GetSourcesResponse {
        sources: vec![source_record("s1", "caller", "U2")],
        contacts: vec![],
    };
    let users_res = GetUsersResponse { users: vec![user_record("U2", "Nia")] };
    let topics_res = GetTopicsResponse {
        topics: vec![
            topic_record("t1", "U2", "Breakfast"),
            topic_record("t2", "U3", "Other user's topic"),
            topic_record("t3", "U2", "Lunch"),
        ],
    };
    let tus_res = GetTopicsUsersResponse {
        topics_users: vec![TopicUserRecord {
            topic_user_id: Some(String::from("tu1")),
            topic_id: Some(String::from("t3")),
        }],
    };
    let out = Response::try_from(sources_res, users_res, topics_res, tus_res).expect("assembled");
    let entry = &out.sources[0];
    assert_eq!(entry.topics.len(), 2);
    assert_eq!(entry.topics[0].topic_id, "t1");
    assert_eq!(entry.topics[0].title, "Breakfast");
    assert!(entry.topics[0].topic_user.is_none());
    assert_eq!(entry.topics[1].topic_id, "t3");
    match &entry.topics[1].topic_user {
        Some(tu) => assert_eq!(tu.topic_user_id, "tu1"),
        None => panic!("membership expected for t3"),
    }
}

#[test]
fn referenced_ids_are_deduplicated_in_first_occurrence_order() {
    let res = GetSourcesResponse {
        sources: vec![
            source_record("s1", "caller", "U2"),
            source_record("s2", "caller", "U4"),
        ],
        contacts: vec![
            contact_record("c1", "caller", "U3", "a"),
            contact_record("c2", "caller", "U2", "b"),
        ],
    };
    // contacts come first, then sources; repeats keep their first place
    let ids = referenced_user_ids(&res).expect("ids");
    assert_eq!(
        ids,
        vec![String::from("U3"), String::from("U2"), String::from("U4")]
    );
}

#[test]
fn referenced_ids_fail_on_omitted_reference() {
    let res = GetSourcesResponse {
        sources: vec![],
        contacts: vec![ContactRecord {
            contact_id: Some(String::from("c1")),
            user_id: Some(String::from("caller")),
            contact_user_id: None,
            name: Some(String::from("x")),
        }],
    };
    assert!(matches!(referenced_user_ids(&res), Err(AppError::Internal)));
}

#[test]
fn topic_ids_are_deduplicated_and_required() {
    let res = GetTopicsResponse {
        topics: vec![
            topic_record("t1", "U2", "a"),
            topic_record("t2", "U2", "b"),
            topic_record("t1", "U3", "c"),
        ],
    };
    let ids = topic_ids(&res).expect("ids");
    assert_eq!(ids, vec![String::from("t1"), String::from("t2")]);

    let missing = GetTopicsResponse {
        topics: vec![TopicRecord { topic_id: None, user_id: None, title: None }],
    };
    assert!(matches!(topic_ids(&missing), Err(AppError::Internal)));
}

#[test]
fn find_user_returns_first_match() {
    let mut second = user_record("U2", "Second");
    second.phone = Some(String::from("other"));
    let users = vec![user_record("U2", "First"), second, user_record("U3", "Ada")];
    let id = String::from("U2");
    let found = find_user(&users, &id).expect("found");
    assert_eq!(found.name, Some(String::from("First")));
    let absent = String::from("U9");
    assert!(find_user(&users, &absent).is_none());
}

#[test]
fn single_entity_joins_match_listing() {
    let users = vec![user_record("U2", "Nia")];
    let contact = contact_record("c1", "caller", "U2", "Friend");
    let joined: Contact = Contact::try_from(&contact, &users).expect("joined");
    assert_eq!(joined.contact_id, "c1");
    assert_eq!(joined.user.user_id, "U2");

    let source = source_record("s1", "caller", "U2");
    let topics = vec![topic_record("t1", "U2", "Breakfast")];
    let tus = vec![];
    let joined: Source = Source::try_from(&source, &users, &topics, &tus).expect("joined");
    assert_eq!(joined.source_id, "s1");
    assert_eq!(joined.topics.len(), 1);

    let record = user_record("U2", "Nia");
    let profile: User = User::try_from(&record).expect("profile");
    assert_eq!(profile.name, "Nia");
    let mut bare = user_record("U2", "Nia");
    bare.abbr = None;
    assert!(matches!(User::try_from(&bare), Err(AppError::Internal)));
}

use bzd_gateway::backend::users_api::{GetSourceResponse, GetUserResponse};
use bzd_gateway::user_detail;

#[test]
fn detail_reports_topic_membership_intersection() {
    let source_res = GetSourceResponse { source: Some(source_record("s1", "caller", "U2")) };
    let user_res = GetUserResponse { user: Some(user_record("U2", "Nia")) };
    let topics_res = GetTopicsResponse {
        topics: vec![
            topic_record("t1", "U2", "Breakfast"),
            topic_record("t2", "U2", "Lunch"),
            topic_record("t3", "U2", "Dinner"),
        ],
    };
    let tus_res = GetTopicsUsersResponse {
        topics_users: vec![
            TopicUserRecord {
                topic_user_id: Some(String::from("tu3")),
                topic_id: Some(String::from("t3")),
            },
            TopicUserRecord {
                topic_user_id: Some(String::from("tu1")),
                topic_id: Some(String::from("t1")),
            },
        ],
    };
    let out = user_detail::Response::try_from(source_res, user_res, topics_res, tus_res)
        .expect("assembled");
    assert_eq!(out.user.user_id, "U2");
    assert_eq!(out.user.name, "Nia");
    // only topics with a membership record stay, in topic order
    assert_eq!(out.topics.len(), 2);
    assert_eq!(out.topics[0].topic_id, "t1");
    assert_eq!(out.topics[0].topic_user_id, "tu1");
    assert_eq!(out.topics[1].topic_id, "t3");
    assert_eq!(out.topics[1].topic_user_id, "tu3");
}

#[test]
fn detail_fails_without_source_or_profile() {
    let user_res = GetUserResponse { user: Some(user_record("U2", "Nia")) };
    let res = user_detail::Response::try_from(
        GetSourceResponse { source: None },
        user_res,
        empty_topics(),
        empty_topics_users(),
    );
    assert!(matches!(res, Err(AppError::Internal)));

    let source_res = GetSourceResponse { source: Some(source_record("s1", "caller", "U2")) };
    let res = user_detail::Response::try_from(
        source_res,
        GetUserResponse { user: None },
        empty_topics(),
        empty_topics_users(),
    );
    assert!(matches!(res, Err(AppError::Internal)));
}

#[test]
fn detail_request_builders_scope_calls() {
    let caller = AppUser { user_id: String::from("caller") };
    let target = String::from("U2");
    let first = user_detail::get_source_request(&caller, &target);
    assert_eq!(first.user_id, Some(String::from("caller")));
    assert_eq!(first.source_user_id, Some(String::from("U2")));
    let second = user_detail::get_user_request(&target);
    assert_eq!(second.user_id, Some(String::from("U2")));
    let third = user_detail::get_topics_request(&target);
    assert_eq!(third.user_ids, vec![String::from("U2")]);
    let fourth =
        user_detail::get_topics_users_request(vec![String::from("t1")], &target);
    assert_eq!(fourth.topic_ids, vec![String::from("t1")]);
    assert_eq!(fourth.user_id, Some(String::from("U2")));
}
