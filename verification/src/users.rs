//! The aggregation engine of the users listing.
//!
//! The listing is assembled out of four dependent backend calls: the caller's
//! sources and contacts, the records of every referenced user, the topics of
//! those users, and the caller's membership in those topics. The results are
//! joined in memory by entity identifier. Every reference must resolve: a
//! source or contact whose referenced user is absent from the user records is
//! a data-integrity fault that fails the whole aggregation — never a
//! silently-omitted field or a partial result. Top-level order follows the
//! backend-supplied order of the primary lists.

use vstd::prelude::*;

use crate::backend::messages_api;
use crate::backend::messages_api::{GetTopicsRequest, GetTopicsResponse, GetTopicsUsersRequest, GetTopicsUsersResponse};
use crate::backend::users_api;
use crate::backend::users_api::{GetSourcesRequest, GetSourcesResponse, GetUsersRequest, GetUsersResponse};
use crate::error::AppError;
use crate::user::AppUser;

verus! {

/// Outward document: the caller's sources and contacts, each with the joined
/// profile of its referenced user.
#[derive(Clone, Debug)]
pub struct Response {
    pub sources: Vec<Source>,
    pub contacts: Vec<Contact>,
}

/// A source with its referenced user's profile and that user's topics.
#[derive(Clone, Debug)]
pub struct Source {
    pub source_id: String,
    pub user: User,
    pub topics: Vec<Topic>,
}

/// A topic of a referenced user, with the caller's membership if one exists.
#[derive(Clone, Debug)]
pub struct Topic {
    pub topic_id: String,
    pub title: String,
    pub topic_user: Option<TopicUser>,
}

#[derive(Clone, Debug)]
pub struct TopicUser {
    pub topic_user_id: String,
}

/// A contact with its referenced user's profile.
#[derive(Clone, Debug)]
pub struct Contact {
    pub contact_id: String,
    pub contact_name: String,
    pub user: User,
}

/// The joined profile of a referenced user.
#[derive(Clone, Debug)]
pub struct User {
    pub user_id: String,
    pub name: String,
    pub phone: String,
    pub abbr: String,
    pub color: String,
}

/// String equality, by text.
pub fn string_eq(a: &String, b: &String) -> (r: bool)
    ensures
        r == (a@ == b@),
{
    a.eq(b)
}

/// The texts of a sequence of strings.
pub open spec fn str_views(s: Seq<String>) -> Seq<Seq<char>> {
    s.map_values(|x: String| x@)
}

/// The first user record carrying identifier `id`, if any.
pub open spec fn spec_find_user(users: Seq<users_api::User>, id: Seq<char>) -> Option<
    users_api::User,
>
    decreases users.len(),
{
    if users.len() == 0 {
        None
    } else if users[0].user_id matches Some(uid) && uid@ == id {
        Some(users[0])
    } else {
        spec_find_user(users.skip(1), id)
    }
}

/// Looks a referenced user up in the records the users backend returned.
pub fn find_user<'a>(users: &'a Vec<users_api::User>, id: &String) -> (r: Option<
    &'a users_api::User,
>)
    ensures
        match r {
            Some(u) => spec_find_user(users@, id@) == Some(*u),
            None => spec_find_user(users@, id@) is None,
        },
{
    let mut i: usize = 0;
    proof {
        assert(users@.skip(0) =~= users@);
    }
    while i < users.len()
        invariant
            0 <= i <= users@.len(),
            spec_find_user(users@.skip(i as int), id@) == spec_find_user(users@, id@),
        decreases users@.len() - i,
    {
        proof {
            assert(users@.skip(i as int)[0] == users@[i as int]);
            assert(users@.skip(i as int).skip(1) =~= users@.skip(i + 1));
        }
        let matched = match &users[i].user_id {
            Some(uid) => string_eq(uid, id),
            None => false,
        };
        if matched {
            return Some(&users[i]);
        }
        i += 1;
    }
    proof {
        assert(users@.skip(users@.len() as int) =~= Seq::<users_api::User>::empty());
    }
    None
}

/// The first membership record carrying topic identifier `topic_id`, if any.
pub open spec fn spec_find_topic_user(
    tus: Seq<messages_api::TopicUser>,
    topic_id: Seq<char>,
) -> Option<messages_api::TopicUser>
    decreases tus.len(),
{
    if tus.len() == 0 {
        None
    } else if tus[0].topic_id matches Some(tid) && tid@ == topic_id {
        Some(tus[0])
    } else {
        spec_find_topic_user(tus.skip(1), topic_id)
    }
}

/// Looks a topic's membership record up by topic identifier.
pub fn find_topic_user<'a>(tus: &'a Vec<messages_api::TopicUser>, topic_id: &String) -> (r: Option<
    &'a messages_api::TopicUser,
>)
    ensures
        match r {
            Some(tu) => spec_find_topic_user(tus@, topic_id@) == Some(*tu),
            None => spec_find_topic_user(tus@, topic_id@) is None,
        },
{
    let mut i: usize = 0;
    proof {
        assert(tus@.skip(0) =~= tus@);
    }
    while i < tus.len()
        invariant
            0 <= i <= tus@.len(),
            spec_find_topic_user(tus@.skip(i as int), topic_id@) == spec_find_topic_user(
                tus@,
                topic_id@,
            ),
        decreases tus@.len() - i,
    {
        proof {
            assert(tus@.skip(i as int)[0] == tus@[i as int]);
            assert(tus@.skip(i as int).skip(1) =~= tus@.skip(i + 1));
        }
        let matched = match &tus[i].topic_id {
            Some(tid) => string_eq(tid, topic_id),
            None => false,
        };
        if matched {
            return Some(&tus[i]);
        }
        i += 1;
    }
    proof {
        assert(tus@.skip(tus@.len() as int) =~= Seq::<messages_api::TopicUser>::empty());
    }
    None
}

/// What translating one user record yields: its full profile, or nothing
/// when the backend omitted any promised field.
pub open spec fn spec_user(u: users_api::User) -> Option<User> {
    if u.user_id is Some && u.name is Some && u.phone is Some && u.abbr is Some
        && u.color is Some {
        Some(
            User {
                user_id: u.user_id->0,
                name: u.name->0,
                phone: u.phone->0,
                abbr: u.abbr->0,
                color: u.color->0,
            },
        )
    } else {
        None
    }
}

impl User {
    /// Builds one outward profile out of one backend user record.
    pub fn try_from(u: &users_api::User) -> (r: Result<User, AppError>)
        ensures
            match r {
                Ok(out) => spec_user(*u) == Some(out),
                Err(e) => e == AppError::Internal && spec_user(*u) is None,
            },
    {
        match (&u.user_id, &u.name, &u.phone, &u.abbr, &u.color) {
            (Some(user_id), Some(name), Some(phone), Some(abbr), Some(color)) => Ok(
                User {
                    user_id: user_id.clone(),
                    name: name.clone(),
                    phone: phone.clone(),
                    abbr: abbr.clone(),
                    color: color.clone(),
                },
            ),
            _ => Err(AppError::Internal),
        }
    }
}

/// What the first call of the pipeline asks: the caller's sources and
/// contacts.
pub fn get_sources_request(user: &AppUser) -> (r: GetSourcesRequest)
    ensures
        r.user_id == Some(user.user_id),
{
    GetSourcesRequest { user_id: Some(user.user_id.clone()) }
}

/// What the second call asks: the records of the given users.
pub fn get_users_request(user_ids: Vec<String>) -> (r: GetUsersRequest)
    ensures
        r.user_ids == user_ids,
{
    GetUsersRequest { user_ids }
}

/// What the third call asks: the topics of the given users.
pub fn get_topics_request(user_ids: Vec<String>) -> (r: GetTopicsRequest)
    ensures
        r.user_ids == user_ids,
{
    GetTopicsRequest { user_ids }
}

/// What the fourth call asks: the caller's membership records across the
/// given topics.
pub fn get_topics_users_request(topic_ids: Vec<String>, user: &AppUser) -> (r:
    GetTopicsUsersRequest)
    ensures
        r.topic_ids == topic_ids,
        r.user_id == Some(user.user_id),
{
    GetTopicsUsersRequest { topic_ids, user_id: Some(user.user_id.clone()) }
}

} // verus!

verus! {

/// The referenced user identifier of each contact, in order, or the first
/// omission.
pub open spec fn spec_contact_ids(cs: Seq<users_api::Contact>) -> Result<Seq<Seq<char>>, AppError>
    decreases cs.len(),
{
    if cs.len() == 0 {
        Ok(Seq::empty())
    } else {
        match spec_contact_ids(cs.drop_last()) {
            Err(e) => Err(e),
            Ok(rest) => match cs.last().contact_user_id {
                Some(id) => Ok(rest.push(id@)),
                None => Err(AppError::Internal),
            },
        }
    }
}

/// The referenced user identifier of each source, in order, or the first
/// omission.
pub open spec fn spec_source_ids(ss: Seq<users_api::Source>) -> Result<Seq<Seq<char>>, AppError>
    decreases ss.len(),
{
    if ss.len() == 0 {
        Ok(Seq::empty())
    } else {
        match spec_source_ids(ss.drop_last()) {
            Err(e) => Err(e),
            Ok(rest) => match ss.last().source_user_id {
                Some(id) => Ok(rest.push(id@)),
                None => Err(AppError::Internal),
            },
        }
    }
}

/// Every user identifier the caller's relationships reference — contacts
/// first, then sources — or the first omission.
pub open spec fn spec_referenced_ids(res: GetSourcesResponse) -> Result<Seq<Seq<char>>, AppError> {
    match spec_contact_ids(res.contacts@) {
        Err(e) => Err(e),
        Ok(cids) => match spec_source_ids(res.sources@) {
            Err(e) => Err(e),
            Ok(sids) => Ok(cids + sids),
        },
    }
}

/// Keeps the first occurrence of every text and drops the rest, preserving
/// order.
pub open spec fn dedup_first(s: Seq<Seq<char>>) -> Seq<Seq<char>>
    decreases s.len(),
{
    if s.len() == 0 {
        Seq::empty()
    } else {
        let rest = dedup_first(s.drop_last());
        if rest.contains(s.last()) {
            rest
        } else {
            rest.push(s.last())
        }
    }
}

proof fn lemma_spec_contact_ids_err_persists(cs: Seq<users_api::Contact>, j: int, k: int)
    requires
        0 <= j <= k <= cs.len(),
        spec_contact_ids(cs.take(j)) is Err,
    ensures
        spec_contact_ids(cs.take(k)) == spec_contact_ids(cs.take(j)),
    decreases k - j,
{
    if j < k {
        lemma_spec_contact_ids_err_persists(cs, j, k - 1);
        assert(cs.take(k).drop_last() =~= cs.take(k - 1));
    }
}

proof fn lemma_spec_source_ids_err_persists(ss: Seq<users_api::Source>, j: int, k: int)
    requires
        0 <= j <= k <= ss.len(),
        spec_source_ids(ss.take(j)) is Err,
    ensures
        spec_source_ids(ss.take(k)) == spec_source_ids(ss.take(j)),
    decreases k - j,
{
    if j < k {
        lemma_spec_source_ids_err_persists(ss, j, k - 1);
        assert(ss.take(k).drop_last() =~= ss.take(k - 1));
    }
}

/// Is the text of `x` among the texts of `v`?
fn contains_string(v: &Vec<String>, x: &String) -> (b: bool)
    ensures
        b == str_views(v@).contains(x@),
{
    let mut i: usize = 0;
    while i < v.len()
        invariant
            0 <= i <= v@.len(),
            forall|k: int| 0 <= k < i ==> (#[trigger] v@[k])@ != x@,
        decreases v@.len() - i,
    {
        if string_eq(&v[i], x) {
            proof {
                assert(str_views(v@)[i as int] == x@);
            }
            return true;
        }
        i += 1;
    }
    proof {
        if str_views(v@).contains(x@) {
            let j = choose|j: int| 0 <= j < str_views(v@).len() && str_views(v@)[j] == x@;
            assert(v@[j]@ == x@);
            assert(false);
        }
    }
    false
}

/// Drops repeated texts, keeping first occurrences and their order.
fn dedup_strings(raw: Vec<String>) -> (out: Vec<String>)
    ensures
        str_views(out@) == dedup_first(str_views(raw@)),
{
    let ghost vs = str_views(raw@);
    let mut out: Vec<String> = Vec::new();
    let mut i: usize = 0;
    proof {
        assert(vs.take(0) =~= Seq::<Seq<char>>::empty());
        assert(str_views(out@) =~= dedup_first(vs.take(0)));
    }
    while i < raw.len()
        invariant
            0 <= i <= raw@.len(),
            vs == str_views(raw@),
            str_views(out@) == dedup_first(vs.take(i as int)),
        decreases raw@.len() - i,
    {
        proof {
            assert(vs.take(i + 1).drop_last() =~= vs.take(i as int));
            assert(vs.take(i + 1).last() == vs[i as int]);
            assert(vs[i as int] == raw@[i as int]@);
        }
        if !contains_string(&out, &raw[i]) {
            out.push(raw[i].clone());
            proof {
                assert(str_views(out@) =~= dedup_first(vs.take(i + 1)));
            }
        }
        i += 1;
    }
    proof {
        assert(vs.take(raw@.len() as int) =~= vs);
    }
    out
}

/// The union of every user identifier referenced by the caller's contacts
/// and sources, each once, in first-occurrence order (contacts first, then
/// sources, as the backend listed them); a relationship without its
/// reference is a data-integrity fault.
pub fn referenced_user_ids(res: &GetSourcesResponse) -> (r: Result<Vec<String>, AppError>)
    ensures
        match r {
            Ok(ids) => spec_referenced_ids(*res) matches Ok(raw) && str_views(ids@)
                == dedup_first(raw),
            Err(e) => spec_referenced_ids(*res) == Err::<Seq<Seq<char>>, AppError>(e),
        },
{
    let mut raw: Vec<String> = Vec::new();
    let mut i: usize = 0;
    proof {
        assert(res.contacts@.take(0) =~= Seq::<users_api::Contact>::empty());
        assert(str_views(raw@) =~= Seq::<Seq<char>>::empty());
    }
    while i < res.contacts.len()
        invariant
            0 <= i <= res.contacts@.len(),
            spec_contact_ids(res.contacts@.take(i as int)) == Ok::<Seq<Seq<char>>, AppError>(
                str_views(raw@),
            ),
        decreases res.contacts@.len() - i,
    {
        proof {
            assert(res.contacts@.take(i + 1).drop_last() =~= res.contacts@.take(i as int));
            assert(res.contacts@.take(i + 1).last() == res.contacts@[i as int]);
        }
        match &res.contacts[i].contact_user_id {
            Some(id) => {
                raw.push(id.clone());
                proof {
                    assert(str_views(raw@) =~= spec_contact_ids(
                        res.contacts@.take(i + 1),
                    )->Ok_0);
                }
            },
            None => {
                proof {
                    lemma_spec_contact_ids_err_persists(
                        res.contacts@,
                        i + 1,
                        res.contacts@.len() as int,
                    );
                    assert(res.contacts@.take(res.contacts@.len() as int) =~= res.contacts@);
                }
                return Err(AppError::Internal);
            },
        }
        i += 1;
    }
    proof {
        assert(res.contacts@.take(res.contacts@.len() as int) =~= res.contacts@);
    }
    let ghost cids = str_views(raw@);
    let mut j: usize = 0;
    proof {
        assert(res.sources@.take(0) =~= Seq::<users_api::Source>::empty());
        assert(cids + Seq::<Seq<char>>::empty() =~= cids);
    }
    while j < res.sources.len()
        invariant
            0 <= j <= res.sources@.len(),
            spec_contact_ids(res.contacts@) == Ok::<Seq<Seq<char>>, AppError>(cids),
            spec_source_ids(res.sources@.take(j as int)) matches Ok(sids) && str_views(raw@)
                == cids + sids,
        decreases res.sources@.len() - j,
    {
        proof {
            assert(res.sources@.take(j + 1).drop_last() =~= res.sources@.take(j as int));
            assert(res.sources@.take(j + 1).last() == res.sources@[j as int]);
        }
        let ghost before = raw@;
        let ghost sids = spec_source_ids(res.sources@.take(j as int))->Ok_0;
        match &res.sources[j].source_user_id {
            Some(id) => {
                raw.push(id.clone());
                proof {
                    let ghost pushed = res.sources@[j as int].source_user_id->0@;
                    assert(raw@ == before.push(res.sources@[j as int].source_user_id->0));
                    assert(str_views(raw@) =~= str_views(before).push(pushed));
                    assert(spec_source_ids(res.sources@.take(j + 1)) == Ok::<
                        Seq<Seq<char>>,
                        AppError,
                    >(sids.push(pushed)));
                    assert(str_views(before).push(pushed) =~= cids + sids.push(pushed));
                }
            },
            None => {
                proof {
                    lemma_spec_source_ids_err_persists(
                        res.sources@,
                        j + 1,
                        res.sources@.len() as int,
                    );
                    assert(res.sources@.take(res.sources@.len() as int) =~= res.sources@);
                }
                return Err(AppError::Internal);
            },
        }
        j += 1;
    }
    proof {
        assert(res.sources@.take(res.sources@.len() as int) =~= res.sources@);
    }
    Ok(dedup_strings(raw))
}

} // verus!

verus! {

/// The identifier of each topic, in order, or the first omission.
pub open spec fn spec_topic_ids(ts: Seq<messages_api::Topic>) -> Result<Seq<Seq<char>>, AppError>
    decreases ts.len(),
{
    if ts.len() == 0 {
        Ok(Seq::empty())
    } else {
        match spec_topic_ids(ts.drop_last()) {
            Err(e) => Err(e),
            Ok(rest) => match ts.last().topic_id {
                Some(id) => Ok(rest.push(id@)),
                None => Err(AppError::Internal),
            },
        }
    }
}

proof fn lemma_spec_topic_ids_err_persists(ts: Seq<messages_api::Topic>, j: int, k: int)
    requires
        0 <= j <= k <= ts.len(),
        spec_topic_ids(ts.take(j)) is Err,
    ensures
        spec_topic_ids(ts.take(k)) == spec_topic_ids(ts.take(j)),
    decreases k - j,
{
    if j < k {
        lemma_spec_topic_ids_err_persists(ts, j, k - 1);
        assert(ts.take(k).drop_last() =~= ts.take(k - 1));
    }
}

/// The identifiers of the topics the third call returned, each once, in
/// first-occurrence order; a topic without its identifier is a
/// data-integrity fault.
pub fn topic_ids(res: &GetTopicsResponse) -> (r: Result<Vec<String>, AppError>)
    ensures
        match r {
            Ok(ids) => spec_topic_ids(res.topics@) matches Ok(raw) && str_views(ids@)
                == dedup_first(raw),
            Err(e) => spec_topic_ids(res.topics@) == Err::<Seq<Seq<char>>, AppError>(e),
        },
{
    let mut raw: Vec<String> = Vec::new();
    let mut i: usize = 0;
    proof {
        assert(res.topics@.take(0) =~= Seq::<messages_api::Topic>::empty());
        assert(str_views(raw@) =~= Seq::<Seq<char>>::empty());
    }
    while i < res.topics.len()
        invariant
            0 <= i <= res.topics@.len(),
            spec_topic_ids(res.topics@.take(i as int)) == Ok::<Seq<Seq<char>>, AppError>(
                str_views(raw@),
            ),
        decreases res.topics@.len() - i,
    {
        proof {
            assert(res.topics@.take(i + 1).drop_last() =~= res.topics@.take(i as int));
            assert(res.topics@.take(i + 1).last() == res.topics@[i as int]);
        }
        match &res.topics[i].topic_id {
            Some(id) => {
                raw.push(id.clone());
                proof {
                    assert(str_views(raw@) =~= spec_topic_ids(res.topics@.take(i + 1))->Ok_0);
                }
            },
            None => {
                proof {
                    lemma_spec_topic_ids_err_persists(
                        res.topics@,
                        i + 1,
                        res.topics@.len() as int,
                    );
                    assert(res.topics@.take(res.topics@.len() as int) =~= res.topics@);
                }
                return Err(AppError::Internal);
            },
        }
        i += 1;
    }
    proof {
        assert(res.topics@.take(res.topics@.len() as int) =~= res.topics@);
    }
    Ok(dedup_strings(raw))
}

/// What joining one contact against the user records yields: the contact
/// with its referenced user's profile, or the fault that stops it — an
/// omitted field, or a reference that does not resolve.
pub open spec fn spec_join_contact(c: users_api::Contact, users: Seq<users_api::User>) -> Result<
    Contact,
    AppError,
> {
    if c.contact_id is None || c.name is None || c.contact_user_id is None {
        Err(AppError::Internal)
    } else {
        match spec_find_user(users, (c.contact_user_id->0)@) {
            None => Err(AppError::Internal),
            Some(u) => match spec_user(u) {
                None => Err(AppError::Internal),
                Some(profile) => Ok(
                    Contact {
                        contact_id: c.contact_id->0,
                        contact_name: c.name->0,
                        user: profile,
                    },
                ),
            },
        }
    }
}

/// What joining every contact yields: all of them in backend order, or the
/// first fault.
pub open spec fn spec_join_contacts(
    cs: Seq<users_api::Contact>,
    users: Seq<users_api::User>,
) -> Result<Seq<Contact>, AppError>
    decreases cs.len(),
{
    if cs.len() == 0 {
        Ok(Seq::empty())
    } else {
        match spec_join_contacts(cs.drop_last(), users) {
            Err(e) => Err(e),
            Ok(rest) => match spec_join_contact(cs.last(), users) {
                Ok(c) => Ok(rest.push(c)),
                Err(e) => Err(e),
            },
        }
    }
}

proof fn lemma_spec_join_contacts_err_persists(
    cs: Seq<users_api::Contact>,
    users: Seq<users_api::User>,
    j: int,
    k: int,
)
    requires
        0 <= j <= k <= cs.len(),
        spec_join_contacts(cs.take(j), users) is Err,
    ensures
        spec_join_contacts(cs.take(k), users) == spec_join_contacts(cs.take(j), users),
    decreases k - j,
{
    if j < k {
        lemma_spec_join_contacts_err_persists(cs, users, j, k - 1);
        assert(cs.take(k).drop_last() =~= cs.take(k - 1));
    }
}

impl Contact {
    /// Joins one contact with its referenced user's profile; an unresolved
    /// reference fails the aggregation, it is never dropped or defaulted.
    pub fn try_from(c: &users_api::Contact, users: &Vec<users_api::User>) -> (r: Result<
        Contact,
        AppError,
    >)
        ensures
            r == spec_join_contact(*c, users@),
    {
        let contact_id = match &c.contact_id {
            Some(x) => x.clone(),
            None => return Err(AppError::Internal),
        };
        let contact_name = match &c.name {
            Some(x) => x.clone(),
            None => return Err(AppError::Internal),
        };
        let contact_user_id = match &c.contact_user_id {
            Some(x) => x,
            None => return Err(AppError::Internal),
        };
        let record = match find_user(users, contact_user_id) {
            Some(u) => u,
            None => return Err(AppError::Internal),
        };
        match User::try_from(record) {
            Ok(profile) => Ok(Contact { contact_id, contact_name, user: profile }),
            Err(e) => Err(e),
        }
    }
}

/// What joining one topic with the caller's membership records yields: the
/// topic with the membership attached when one exists for it.
pub open spec fn spec_join_topic(
    t: messages_api::Topic,
    tus: Seq<messages_api::TopicUser>,
) -> Result<Topic, AppError> {
    if t.topic_id is None || t.title is None {
        Err(AppError::Internal)
    } else {
        match spec_find_topic_user(tus, (t.topic_id->0)@) {
            None => Ok(Topic { topic_id: t.topic_id->0, title: t.title->0, topic_user: None }),
            Some(tu) => match tu.topic_user_id {
                Some(tuid) => Ok(
                    Topic {
                        topic_id: t.topic_id->0,
                        title: t.title->0,
                        topic_user: Some(TopicUser { topic_user_id: tuid }),
                    },
                ),
                None => Err(AppError::Internal),
            },
        }
    }
}

impl Topic {
    /// Joins one topic with the caller's membership record for it, if any.
    pub fn try_from(t: &messages_api::Topic, tus: &Vec<messages_api::TopicUser>) -> (r: Result<
        Topic,
        AppError,
    >)
        ensures
            r == spec_join_topic(*t, tus@),
    {
        let topic_id = match &t.topic_id {
            Some(x) => x.clone(),
            None => return Err(AppError::Internal),
        };
        let title = match &t.title {
            Some(x) => x.clone(),
            None => return Err(AppError::Internal),
        };
        match find_topic_user(tus, &topic_id) {
            None => Ok(Topic { topic_id, title, topic_user: None }),
            Some(tu) => match &tu.topic_user_id {
                Some(tuid) => Ok(
                    Topic {
                        topic_id,
                        title,
                        topic_user: Some(TopicUser { topic_user_id: tuid.clone() }),
                    },
                ),
                None => Err(AppError::Internal),
            },
        }
    }
}

/// What collecting a source user's topics yields: every topic owned by that
/// user, in backend order, each joined with the caller's membership, or the
/// first fault.
pub open spec fn spec_source_topics(
    ts: Seq<messages_api::Topic>,
    tus: Seq<messages_api::TopicUser>,
    source_user_id: Seq<char>,
) -> Result<Seq<Topic>, AppError>
    decreases ts.len(),
{
    if ts.len() == 0 {
        Ok(Seq::empty())
    } else {
        match spec_source_topics(ts.drop_last(), tus, source_user_id) {
            Err(e) => Err(e),
            Ok(rest) => {
                let t = ts.last();
                if t.user_id matches Some(uid) && uid@ == source_user_id {
                    match spec_join_topic(t, tus) {
                        Ok(out) => Ok(rest.push(out)),
                        Err(e) => Err(e),
                    }
                } else {
                    Ok(rest)
                }
            },
        }
    }
}

proof fn lemma_spec_source_topics_err_persists(
    ts: Seq<messages_api::Topic>,
    tus: Seq<messages_api::TopicUser>,
    source_user_id: Seq<char>,
    j: int,
    k: int,
)
    requires
        0 <= j <= k <= ts.len(),
        spec_source_topics(ts.take(j), tus, source_user_id) is Err,
    ensures
        spec_source_topics(ts.take(k), tus, source_user_id) == spec_source_topics(
            ts.take(j),
            tus,
            source_user_id,
        ),
    decreases k - j,
{
    if j < k {
        lemma_spec_source_topics_err_persists(ts, tus, source_user_id, j, k - 1);
        assert(ts.take(k).drop_last() =~= ts.take(k - 1));
    }
}

/// What joining one source yields: its identifier, its referenced user's
/// profile, and that user's joined topics — or the fault that stops it.
pub open spec fn spec_join_source(
    s: users_api::Source,
    users: Seq<users_api::User>,
    ts: Seq<messages_api::Topic>,
    tus: Seq<messages_api::TopicUser>,
) -> Result<(String, User, Seq<Topic>), AppError> {
    if s.source_id is None || s.source_user_id is None {
        Err(AppError::Internal)
    } else {
        match spec_find_user(users, (s.source_user_id->0)@) {
            None => Err(AppError::Internal),
            Some(u) => match spec_user(u) {
                None => Err(AppError::Internal),
                Some(profile) => match spec_source_topics(ts, tus, (s.source_user_id->0)@) {
                    Err(e) => Err(e),
                    Ok(topics) => Ok((s.source_id->0, profile, topics)),
                },
            },
        }
    }
}

/// Does the outward source `s` carry exactly the joined parts `t`?
pub open spec fn source_matches(s: Source, t: (String, User, Seq<Topic>)) -> bool {
    s.source_id == t.0 && s.user == t.1 && s.topics@ == t.2
}

/// What joining every source yields: all of them in backend order, or the
/// first fault.
pub open spec fn spec_join_sources(
    ss: Seq<users_api::Source>,
    users: Seq<users_api::User>,
    ts: Seq<messages_api::Topic>,
    tus: Seq<messages_api::TopicUser>,
) -> Result<Seq<(String, User, Seq<Topic>)>, AppError>
    decreases ss.len(),
{
    if ss.len() == 0 {
        Ok(Seq::empty())
    } else {
        match spec_join_sources(ss.drop_last(), users, ts, tus) {
            Err(e) => Err(e),
            Ok(rest) => match spec_join_source(ss.last(), users, ts, tus) {
                Ok(out) => Ok(rest.push(out)),
                Err(e) => Err(e),
            },
        }
    }
}

proof fn lemma_spec_join_sources_err_persists(
    ss: Seq<users_api::Source>,
    users: Seq<users_api::User>,
    ts: Seq<messages_api::Topic>,
    tus: Seq<messages_api::TopicUser>,
    j: int,
    k: int,
)
    requires
        0 <= j <= k <= ss.len(),
        spec_join_sources(ss.take(j), users, ts, tus) is Err,
    ensures
        spec_join_sources(ss.take(k), users, ts, tus) == spec_join_sources(
            ss.take(j),
            users,
            ts,
            tus,
        ),
    decreases k - j,
{
    if j < k {
        lemma_spec_join_sources_err_persists(ss, users, ts, tus, j, k - 1);
        assert(ss.take(k).drop_last() =~= ss.take(k - 1));
    }
}

impl Source {
    /// Joins one source with its referenced user's profile and that user's
    /// topics; an unresolved reference fails the aggregation, it is never
    /// dropped or defaulted.
    pub fn try_from(
        s: &users_api::Source,
        users: &Vec<users_api::User>,
        topics: &Vec<messages_api::Topic>,
        tus: &Vec<messages_api::TopicUser>,
    ) -> (r: Result<Source, AppError>)
        ensures
            match r {
                Ok(out) => spec_join_source(*s, users@, topics@, tus@) matches Ok(parts)
                    && source_matches(out, parts),
                Err(e) => spec_join_source(*s, users@, topics@, tus@) == Err::<
                    (String, User, Seq<Topic>),
                    AppError,
                >(e),
            },
    {
        let source_id = match &s.source_id {
            Some(x) => x.clone(),
            None => return Err(AppError::Internal),
        };
        let source_user_id = match &s.source_user_id {
            Some(x) => x,
            None => return Err(AppError::Internal),
        };
        let record = match find_user(users, source_user_id) {
            Some(u) => u,
            None => return Err(AppError::Internal),
        };
        let profile = match User::try_from(record) {
            Ok(x) => x,
            Err(e) => return Err(e),
        };
        let mut out_topics: Vec<Topic> = Vec::new();
        let mut i: usize = 0;
        proof {
            assert(topics@.take(0) =~= Seq::<messages_api::Topic>::empty());
        }
        while i < topics.len()
            invariant
                0 <= i <= topics@.len(),
                s.source_user_id matches Some(x) && x@ == source_user_id@,
                spec_source_topics(topics@.take(i as int), tus@, source_user_id@) == Ok::<
                    Seq<Topic>,
                    AppError,
                >(out_topics@),
            decreases topics@.len() - i,
        {
            proof {
                assert(topics@.take(i + 1).drop_last() =~= topics@.take(i as int));
                assert(topics@.take(i + 1).last() == topics@[i as int]);
            }
            let owned = match &topics[i].user_id {
                Some(uid) => string_eq(uid, source_user_id),
                None => false,
            };
            if owned {
                match Topic::try_from(&topics[i], tus) {
                    Ok(t) => out_topics.push(t),
                    Err(e) => {
                        proof {
                            lemma_spec_source_topics_err_persists(
                                topics@,
                                tus@,
                                source_user_id@,
                                i + 1,
                                topics@.len() as int,
                            );
                            assert(topics@.take(topics@.len() as int) =~= topics@);
                        }
                        return Err(e);
                    },
                }
            }
            i += 1;
        }
        proof {
            assert(topics@.take(topics@.len() as int) =~= topics@);
        }
        Ok(Source { source_id, user: profile, topics: out_topics })
    }
}

} // verus!

verus! {

/// Does the outward listing `out` hold exactly what joining the four
/// backend responses yields?
pub open spec fn spec_assembled(
    sources_res: GetSourcesResponse,
    users_res: GetUsersResponse,
    topics_res: GetTopicsResponse,
    topics_users_res: GetTopicsUsersResponse,
    out: Response,
) -> bool {
    &&& spec_join_contacts(sources_res.contacts@, users_res.users@) == Ok::<
        Seq<Contact>,
        AppError,
    >(out.contacts@)
    &&& spec_join_sources(
        sources_res.sources@,
        users_res.users@,
        topics_res.topics@,
        topics_users_res.topics_users@,
    ) matches Ok(parts)
    &&& out.sources@.len() == parts.len()
    &&& forall|i: int|
        0 <= i < parts.len() ==> source_matches(#[trigger] out.sources@[i], parts[i])
}

/// Does joining the four backend responses fail with `e`? Contacts are
/// joined first, so their fault wins.
pub open spec fn spec_assembly_fails(
    sources_res: GetSourcesResponse,
    users_res: GetUsersResponse,
    topics_res: GetTopicsResponse,
    topics_users_res: GetTopicsUsersResponse,
    e: AppError,
) -> bool {
    ||| spec_join_contacts(sources_res.contacts@, users_res.users@) == Err::<
        Seq<Contact>,
        AppError,
    >(e)
    ||| (spec_join_contacts(sources_res.contacts@, users_res.users@) is Ok
        && spec_join_sources(
        sources_res.sources@,
        users_res.users@,
        topics_res.topics@,
        topics_users_res.topics_users@,
    ) == Err::<Seq<(String, User, Seq<Topic>)>, AppError>(e))
}

impl Response {
    /// Assembles the outward listing out of the four backend responses:
    /// every contact and every source joined with its referenced user's
    /// profile, sources additionally with that user's topics. Any fault —
    /// an omitted field or an unresolved reference — fails the whole
    /// aggregation; no partial result is ever returned.
    pub fn try_from(
        sources_res: GetSourcesResponse,
        users_res: GetUsersResponse,
        topics_res: GetTopicsResponse,
        topics_users_res: GetTopicsUsersResponse,
    ) -> (r: Result<Response, AppError>)
        ensures
            match r {
                Ok(out) => spec_assembled(
                    sources_res,
                    users_res,
                    topics_res,
                    topics_users_res,
                    out,
                ),
                Err(e) => spec_assembly_fails(
                    sources_res,
                    users_res,
                    topics_res,
                    topics_users_res,
                    e,
                ),
            },
    {
        let mut contacts: Vec<Contact> = Vec::new();
        let mut i: usize = 0;
        proof {
            assert(sources_res.contacts@.take(0) =~= Seq::<users_api::Contact>::empty());
        }
        while i < sources_res.contacts.len()
            invariant
                0 <= i <= sources_res.contacts@.len(),
                spec_join_contacts(sources_res.contacts@.take(i as int), users_res.users@)
                    == Ok::<Seq<Contact>, AppError>(contacts@),
            decreases sources_res.contacts@.len() - i,
        {
            proof {
                assert(sources_res.contacts@.take(i + 1).drop_last() =~= sources_res.contacts@
                    .take(i as int));
                assert(sources_res.contacts@.take(i + 1).last() == sources_res.contacts@[
                    i as int]);
            }
            match Contact::try_from(&sources_res.contacts[i], &users_res.users) {
                Ok(c) => contacts.push(c),
                Err(e) => {
                    proof {
                        lemma_spec_join_contacts_err_persists(
                            sources_res.contacts@,
                            users_res.users@,
                            i + 1,
                            sources_res.contacts@.len() as int,
                        );
                        assert(sources_res.contacts@.take(sources_res.contacts@.len() as int)
                            =~= sources_res.contacts@);
                    }
                    return Err(e);
                },
            }
            i += 1;
        }
        proof {
            assert(sources_res.contacts@.take(sources_res.contacts@.len() as int)
                =~= sources_res.contacts@);
        }
        let mut sources: Vec<Source> = Vec::new();
        let ghost users_v = users_res.users@;
        let ghost topics_v = topics_res.topics@;
        let ghost tus_v = topics_users_res.topics_users@;
        let mut j: usize = 0;
        proof {
            assert(sources_res.sources@.take(0) =~= Seq::<users_api::Source>::empty());
        }
        while j < sources_res.sources.len()
            invariant
                0 <= j <= sources_res.sources@.len(),
                spec_join_contacts(sources_res.contacts@, users_res.users@) == Ok::<
                    Seq<Contact>,
                    AppError,
                >(contacts@),
                users_v == users_res.users@,
                topics_v == topics_res.topics@,
                tus_v == topics_users_res.topics_users@,
                spec_join_sources(
                    sources_res.sources@.take(j as int),
                    users_v,
                    topics_v,
                    tus_v,
                ) matches Ok(parts) && sources@.len() == parts.len() && forall|k: int|
                    0 <= k < parts.len() ==> source_matches(#[trigger] sources@[k], parts[k]),
            decreases sources_res.sources@.len() - j,
        {
            proof {
                assert(sources_res.sources@.take(j + 1).drop_last() =~= sources_res.sources@
                    .take(j as int));
                assert(sources_res.sources@.take(j + 1).last() == sources_res.sources@[
                    j as int]);
            }
            match Source::try_from(
                &sources_res.sources[j],
                &users_res.users,
                &topics_res.topics,
                &topics_users_res.topics_users,
            ) {
                Ok(s) => sources.push(s),
                Err(e) => {
                    proof {
                        assert(spec_join_sources(
                            sources_res.sources@.take(j + 1),
                            users_v,
                            topics_v,
                            tus_v,
                        ) == Err::<Seq<(String, User, Seq<Topic>)>, AppError>(e));
                        lemma_spec_join_sources_err_persists(
                            sources_res.sources@,
                            users_v,
                            topics_v,
                            tus_v,
                            j + 1,
                            sources_res.sources@.len() as int,
                        );
                        assert(sources_res.sources@.take(sources_res.sources@.len() as int)
                            =~= sources_res.sources@);
                    }
                    return Err(e);
                },
            }
            j += 1;
        }
        proof {
            assert(sources_res.sources@.take(sources_res.sources@.len() as int)
                =~= sources_res.sources@);
        }
        Ok(Response { sources, contacts })
    }
}

/// When exactly one user record carries identifier `id`, the lookup finds
/// that record.
proof fn lemma_find_user_unique(users: Seq<users_api::User>, id: Seq<char>, u: users_api::User)
    requires
        users.contains(u),
        u.user_id matches Some(x) && x@ == id,
        forall|j: int|
            0 <= j < users.len() ==> ((#[trigger] users[j].user_id) matches Some(y) && y@ == id
                ==> users[j] == u),
    ensures
        spec_find_user(users, id) == Some(u),
    decreases users.len(),
{
    if users.len() > 0 {
        if users[0].user_id matches Some(y) && y@ == id {
        } else {
            assert(users.skip(1).contains(u)) by {
                let w = choose|w: int| 0 <= w < users.len() && users[w] == u;
                assert(users.skip(1)[w - 1] == u);
            }
            assert(forall|j: int|
                0 <= j < users.skip(1).len() ==> (#[trigger] users.skip(1)[j]) == users[j + 1]);
            lemma_find_user_unique(users.skip(1), id, u);
        }
    }
}

/// No user record carries identifier `id`: the lookup finds nothing.
proof fn lemma_find_user_absent(users: Seq<users_api::User>, id: Seq<char>)
    requires
        forall|j: int|
            0 <= j < users.len() ==> !((#[trigger] users[j].user_id) matches Some(y) && y@
                == id),
    ensures
        spec_find_user(users, id) is None,
    decreases users.len(),
{
    if users.len() > 0 {
        assert(forall|j: int|
            0 <= j < users.skip(1).len() ==> (#[trigger] users.skip(1)[j]) == users[j + 1]);
        lemma_find_user_absent(users.skip(1), id);
    }
}

/// Law (join correctness, resolving case): a source referencing user `u` —
/// the one record carrying that identifier, with a full profile — is joined
/// with exactly `u`'s name, phone, abbreviation and color.
pub proof fn lemma_join_carries_referenced_user(
    s: users_api::Source,
    users: Seq<users_api::User>,
    ts: Seq<messages_api::Topic>,
    tus: Seq<messages_api::TopicUser>,
    u: users_api::User,
)
    requires
        s.source_id is Some,
        s.source_user_id matches Some(sid) && u.user_id matches Some(x) && x@ == sid@,
        users.contains(u),
        forall|j: int|
            0 <= j < users.len() ==> ((#[trigger] users[j].user_id) matches Some(y) && y@ == (
            s.source_user_id->0)@ ==> users[j] == u),
        spec_user(u) is Some,
        spec_source_topics(ts, tus, (s.source_user_id->0)@) is Ok,
    ensures
        spec_join_source(s, users, ts, tus) matches Ok(parts) && parts.0 == s.source_id->0
            && parts.1 == spec_user(u)->0,
{
    lemma_find_user_unique(users, (s.source_user_id->0)@, u);
}

/// Law (join correctness, unresolved case): a source whose referenced user
/// is absent from the user records fails the whole aggregation with an
/// internal fault — it never yields a partial or defaulted entry.
pub proof fn lemma_join_fails_on_unresolved_user(
    s: users_api::Source,
    users: Seq<users_api::User>,
    ts: Seq<messages_api::Topic>,
    tus: Seq<messages_api::TopicUser>,
)
    requires
        s.source_id is Some,
        s.source_user_id is Some,
        forall|j: int|
            0 <= j < users.len() ==> !((#[trigger] users[j].user_id) matches Some(y) && y@ == (
            s.source_user_id->0)@),
    ensures
        spec_join_source(s, users, ts, tus) == Err::<(String, User, Seq<Topic>), AppError>(
            AppError::Internal,
        ),
        spec_join_sources(seq![s], users, ts, tus) == Err::<
            Seq<(String, User, Seq<Topic>)>,
            AppError,
        >(AppError::Internal),
{
    lemma_find_user_absent(users, (s.source_user_id->0)@);
    assert(seq![s].drop_last() =~= Seq::<users_api::Source>::empty());
    assert(seq![s].last() == s);
    assert(spec_join_sources(Seq::<users_api::Source>::empty(), users, ts, tus) == Ok::<
        Seq<(String, User, Seq<Topic>)>,
        AppError,
    >(Seq::empty()));
}

} // verus!

verus! {

/// Law: deduplication computes the union — the deduplicated list carries
/// exactly the texts of the original list, each once.
pub proof fn lemma_dedup_first_union(s: Seq<Seq<char>>)
    ensures
        forall|x: Seq<char>| #[trigger] dedup_first(s).contains(x) <==> s.contains(x),
        forall|i: int, j: int|
            0 <= i < j < dedup_first(s).len() ==> dedup_first(s)[i] != dedup_first(s)[j],
    decreases s.len(),
{
    if s.len() > 0 {
        lemma_dedup_first_union(s.drop_last());
        let rest = dedup_first(s.drop_last());
        let d = dedup_first(s);
        assert forall|x: Seq<char>| #[trigger] d.contains(x) implies s.contains(x) by {
            let w = choose|w: int| 0 <= w < d.len() && d[w] == x;
            if rest.contains(s.last()) {
                assert(rest.contains(x));
            } else {
                if w < rest.len() {
                    assert(rest.contains(x));
                } else {
                    assert(x == s.last());
                    assert(s[s.len() - 1] == x);
                }
            }
            if rest.contains(x) {
                assert(s.drop_last().contains(x));
                let v = choose|v: int| 0 <= v < s.drop_last().len() && s.drop_last()[v] == x;
                assert(s[v] == x);
            }
        }
        assert forall|x: Seq<char>| s.contains(x) implies #[trigger] d.contains(x) by {
            let w = choose|w: int| 0 <= w < s.len() && s[w] == x;
            if w < s.len() - 1 {
                assert(s.drop_last()[w] == x);
                assert(s.drop_last().contains(x));
                assert(rest.contains(x));
                let v = choose|v: int| 0 <= v < rest.len() && rest[v] == x;
                assert(d[v] == x);
            } else {
                if rest.contains(s.last()) {
                    let v = choose|v: int| 0 <= v < rest.len() && rest[v] == x;
                    assert(d[v] == x);
                } else {
                    assert(d[rest.len() as int] == x);
                }
            }
        }
    }
}

} // verus!
