//! The per-user detail flow of the aggregation engine.
//!
//! Four dependent backend calls: the caller's source for the target user,
//! the target's record, the target's owned topics, and the target's
//! membership records across those topics. The response reports only the
//! intersection — topics present in both the topic list and the membership
//! list — joined by topic identifier; a topic without a membership record is
//! left out, while omitted fields are data-integrity faults.

use vstd::prelude::*;

use crate::backend::messages_api;
use crate::backend::messages_api::{
    GetTopicsRequest, GetTopicsResponse, GetTopicsUsersRequest, GetTopicsUsersResponse,
};
use crate::backend::users_api::{GetSourceRequest, GetSourceResponse, GetUserRequest, GetUserResponse};
use crate::error::AppError;
use crate::user::AppUser;
use crate::users::{spec_find_topic_user, spec_user, User};

verus! {

/// Outward document: the target user's profile and the topics the target
/// both owns and participates in.
#[derive(Clone, Debug)]
pub struct Response {
    pub user: User,
    pub topics: Vec<Topic>,
}

/// A topic of the target with the target's membership record in it.
#[derive(Clone, Debug)]
pub struct Topic {
    pub topic_id: String,
    pub title: String,
    pub topic_user_id: String,
}

/// What the first call asks: the caller's source referencing the target.
pub fn get_source_request(caller: &AppUser, target: &String) -> (r: GetSourceRequest)
    ensures
        r.user_id == Some(caller.user_id),
        r.source_user_id == Some(*target),
{
    GetSourceRequest {
        user_id: Some(caller.user_id.clone()),
        source_user_id: Some(target.clone()),
    }
}

/// What the second call asks: the target's record.
pub fn get_user_request(target: &String) -> (r: GetUserRequest)
    ensures
        r.user_id == Some(*target),
{
    GetUserRequest { user_id: Some(target.clone()) }
}

/// What the third call asks: the topics the target owns.
pub fn get_topics_request(target: &String) -> (r: GetTopicsRequest)
    ensures
        r.user_ids@.len() == 1,
        r.user_ids@[0] == *target,
{
    let mut user_ids: Vec<String> = Vec::new();
    user_ids.push(target.clone());
    GetTopicsRequest { user_ids }
}

/// What the fourth call asks: the target's membership records across the
/// given topics.
pub fn get_topics_users_request(topic_ids: Vec<String>, target: &String) -> (r:
    GetTopicsUsersRequest)
    ensures
        r.topic_ids == topic_ids,
        r.user_id == Some(*target),
{
    GetTopicsUsersRequest { topic_ids, user_id: Some(target.clone()) }
}

/// What one topic contributes to the intersection: nothing when no
/// membership record carries its identifier, the joined entry when one
/// does, and a fault when the backend omitted a promised field.
pub open spec fn spec_detail_topic(
    t: messages_api::Topic,
    tus: Seq<messages_api::TopicUser>,
) -> Result<Option<Topic>, AppError> {
    if t.topic_id is None || t.title is None {
        Err(AppError::Internal)
    } else {
        match spec_find_topic_user(tus, (t.topic_id->0)@) {
            None => Ok(None),
            Some(tu) => match tu.topic_user_id {
                Some(tuid) => Ok(
                    Some(Topic { topic_id: t.topic_id->0, title: t.title->0, topic_user_id: tuid }),
                ),
                None => Err(AppError::Internal),
            },
        }
    }
}

/// The intersection of the topic list and the membership list, in topic
/// order, or the first fault.
pub open spec fn spec_detail_topics(
    ts: Seq<messages_api::Topic>,
    tus: Seq<messages_api::TopicUser>,
) -> Result<Seq<Topic>, AppError>
    decreases ts.len(),
{
    if ts.len() == 0 {
        Ok(Seq::empty())
    } else {
        match spec_detail_topics(ts.drop_last(), tus) {
            Err(e) => Err(e),
            Ok(rest) => match spec_detail_topic(ts.last(), tus) {
                Err(e) => Err(e),
                Ok(None) => Ok(rest),
                Ok(Some(out)) => Ok(rest.push(out)),
            },
        }
    }
}

proof fn lemma_spec_detail_topics_err_persists(
    ts: Seq<messages_api::Topic>,
    tus: Seq<messages_api::TopicUser>,
    j: int,
    k: int,
)
    requires
        0 <= j <= k <= ts.len(),
        spec_detail_topics(ts.take(j), tus) is Err,
    ensures
        spec_detail_topics(ts.take(k), tus) == spec_detail_topics(ts.take(j), tus),
    decreases k - j,
{
    if j < k {
        lemma_spec_detail_topics_err_persists(ts, tus, j, k - 1);
        assert(ts.take(k).drop_last() =~= ts.take(k - 1));
    }
}

impl Topic {
    /// Joins one topic with the target's membership record for it; a topic
    /// without one contributes nothing.
    pub fn try_from(t: &messages_api::Topic, tus: &Vec<messages_api::TopicUser>) -> (r: Result<
        Option<Topic>,
        AppError,
    >)
        ensures
            r == spec_detail_topic(*t, tus@),
    {
        let topic_id = match &t.topic_id {
            Some(x) => x.clone(),
            None => return Err(AppError::Internal),
        };
        let title = match &t.title {
            Some(x) => x.clone(),
            None => return Err(AppError::Internal),
        };
        match crate::users::find_topic_user(tus, &topic_id) {
            None => Ok(None),
            Some(tu) => match &tu.topic_user_id {
                Some(tuid) => Ok(Some(Topic { topic_id, title, topic_user_id: tuid.clone() })),
                None => Err(AppError::Internal),
            },
        }
    }
}

impl Response {
    /// Assembles the detail document: the source must exist, the target's
    /// profile must be complete, and the topics report the intersection of
    /// the topic and membership lists. Any fault fails the whole
    /// aggregation; no partial result is ever returned.
    pub fn try_from(
        source_res: GetSourceResponse,
        user_res: GetUserResponse,
        topics_res: GetTopicsResponse,
        topics_users_res: GetTopicsUsersResponse,
    ) -> (r: Result<Response, AppError>)
        ensures
            match r {
                Ok(out) => {
                    &&& source_res.source is Some
                    &&& user_res.user matches Some(u) && spec_user(u) == Some(out.user)
                    &&& spec_detail_topics(topics_res.topics@, topics_users_res.topics_users@)
                        == Ok::<Seq<Topic>, AppError>(out.topics@)
                },
                Err(e) => {
                    ||| (source_res.source is None && e == AppError::Internal)
                    ||| (source_res.source is Some && !(user_res.user matches Some(u)
                        && spec_user(u) is Some) && e == AppError::Internal)
                    ||| (source_res.source is Some && (user_res.user matches Some(u)
                        && spec_user(u) is Some) && spec_detail_topics(
                        topics_res.topics@,
                        topics_users_res.topics_users@,
                    ) == Err::<Seq<Topic>, AppError>(e))
                },
            },
    {
        if source_res.source.is_none() {
            return Err(AppError::Internal);
        }
        let record = match &user_res.user {
            Some(u) => u,
            None => return Err(AppError::Internal),
        };
        let profile = match User::try_from(record) {
            Ok(x) => x,
            Err(e) => return Err(e),
        };
        let mut topics: Vec<Topic> = Vec::new();
        let mut i: usize = 0;
        proof {
            assert(topics_res.topics@.take(0) =~= Seq::<messages_api::Topic>::empty());
        }
        while i < topics_res.topics.len()
            invariant
                0 <= i <= topics_res.topics@.len(),
                source_res.source is Some,
                user_res.user matches Some(u) && spec_user(u) == Some(profile),
                spec_detail_topics(
                    topics_res.topics@.take(i as int),
                    topics_users_res.topics_users@,
                ) == Ok::<Seq<Topic>, AppError>(topics@),
            decreases topics_res.topics@.len() - i,
        {
            proof {
                assert(topics_res.topics@.take(i + 1).drop_last() =~= topics_res.topics@.take(
                    i as int,
                ));
                assert(topics_res.topics@.take(i + 1).last() == topics_res.topics@[i as int]);
            }
            match Topic::try_from(&topics_res.topics[i], &topics_users_res.topics_users) {
                Ok(Some(t)) => topics.push(t),
                Ok(None) => (),
                Err(e) => {
                    proof {
                        lemma_spec_detail_topics_err_persists(
                            topics_res.topics@,
                            topics_users_res.topics_users@,
                            i + 1,
                            topics_res.topics@.len() as int,
                        );
                        assert(topics_res.topics@.take(topics_res.topics@.len() as int)
                            =~= topics_res.topics@);
                    }
                    return Err(e);
                },
            }
            i += 1;
        }
        proof {
            assert(topics_res.topics@.take(topics_res.topics@.len() as int)
                =~= topics_res.topics@);
        }
        Ok(Response { user: profile, topics })
    }
}

} // verus!
