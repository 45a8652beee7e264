//! Translators of the topics-listing endpoint.

use vstd::prelude::*;

use crate::backend::messages_api;
use crate::backend::messages_api::{GetTopicsRequest, GetTopicsResponse};
use crate::error::AppError;
use crate::user::AppUser;

verus! {

/// Outward document: the caller's topics, in backend-supplied order.
#[derive(Clone, Debug)]
pub struct Response {
    pub topics: Vec<Topic>,
}

#[derive(Clone, Debug)]
pub struct Topic {
    pub topic_id: String,
    pub title: String,
}

/// What the listing endpoint asks the backend: the topics of the caller
/// alone.
pub fn get_topics_request(user: AppUser) -> (r: GetTopicsRequest)
    ensures
        r.user_ids@.len() == 1,
        r.user_ids@[0] == user.user_id,
{
    let mut user_ids: Vec<String> = Vec::new();
    user_ids.push(user.user_id);
    GetTopicsRequest { user_ids }
}

/// What translating one backend topic yields: its identifier and title, or
/// nothing when the backend omitted either.
pub open spec fn spec_topic(t: messages_api::Topic) -> Option<Topic> {
    if t.topic_id is Some && t.title is Some {
        Some(Topic { topic_id: t.topic_id->0, title: t.title->0 })
    } else {
        None
    }
}

/// What translating a backend topic list yields: every topic in order, or
/// the failure of the first topic with omitted data.
pub open spec fn spec_topics(ts: Seq<messages_api::Topic>) -> Result<Seq<Topic>, AppError>
    decreases ts.len(),
{
    if ts.len() == 0 {
        Ok(Seq::empty())
    } else {
        match spec_topics(ts.drop_last()) {
            Err(e) => Err(e),
            Ok(rest) => match spec_topic(ts.last()) {
                Some(t) => Ok(rest.push(t)),
                None => Err(AppError::Internal),
            },
        }
    }
}

/// Once a prefix of the topic list fails to translate, every longer prefix
/// fails the same way.
proof fn lemma_spec_topics_err_persists(ts: Seq<messages_api::Topic>, j: int, k: int)
    requires
        0 <= j <= k <= ts.len(),
        spec_topics(ts.take(j)) is Err,
    ensures
        spec_topics(ts.take(k)) == spec_topics(ts.take(j)),
    decreases k - j,
{
    if j < k {
        lemma_spec_topics_err_persists(ts, j, k - 1);
        assert(ts.take(k).drop_last() =~= ts.take(k - 1));
    }
}

impl Topic {
    /// Builds one outward topic; a backend topic without identifier or title
    /// omitted promised data.
    pub fn try_from(t: &messages_api::Topic) -> (r: Result<Topic, AppError>)
        ensures
            match r {
                Ok(out) => spec_topic(*t) == Some(out),
                Err(e) => e == AppError::Internal && spec_topic(*t) is None,
            },
    {
        match (&t.topic_id, &t.title) {
            (Some(topic_id), Some(title)) => Ok(
                Topic { topic_id: topic_id.clone(), title: title.clone() },
            ),
            _ => Err(AppError::Internal),
        }
    }
}

impl Response {
    /// Builds the outward listing, keeping every topic and the backend's
    /// order.
    pub fn try_from(res: GetTopicsResponse) -> (r: Result<Response, AppError>)
        ensures
            match r {
                Ok(out) => spec_topics(res.topics@) == Ok::<Seq<Topic>, AppError>(out.topics@),
                Err(e) => spec_topics(res.topics@) == Err::<Seq<Topic>, AppError>(e),
            },
    {
        let mut topics: Vec<Topic> = Vec::new();
        let mut i: usize = 0;
        while i < res.topics.len()
            invariant
                i <= res.topics@.len(),
                spec_topics(res.topics@.take(i as int)) == Ok::<Seq<Topic>, AppError>(topics@),
            decreases res.topics@.len() - i,
        {
            proof {
                assert(res.topics@.take(i + 1).drop_last() =~= res.topics@.take(i as int));
                assert(res.topics@.take(i + 1).last() == res.topics@[i as int]);
            }
            match Topic::try_from(&res.topics[i]) {
                Ok(t) => topics.push(t),
                Err(e) => {
                    proof {
                        lemma_spec_topics_err_persists(
                            res.topics@,
                            i + 1,
                            res.topics@.len() as int,
                        );
                        assert(res.topics@.take(res.topics@.len() as int) =~= res.topics@);
                    }
                    return Err(e);
                },
            }
            i += 1;
        }
        proof {
            assert(res.topics@.take(res.topics@.len() as int) =~= res.topics@);
        }
        Ok(Response { topics })
    }
}

} // verus!
