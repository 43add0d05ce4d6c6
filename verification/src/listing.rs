//! Searching and ordering the index.
use crate::protocol::{Project, SessionMeta};
use vstd::prelude::*;

verus! {

/// Position `i` holds the first element that satisfies `wanted`.
pub open spec fn is_first<T>(list: Seq<T>, wanted: spec_fn(T) -> bool, i: int) -> bool {
    &&& 0 <= i < list.len()
    &&& wanted(list[i])
    &&& forall|j: int| 0 <= j < i ==> !wanted(#[trigger] list[j])
}

/// The first element that satisfies `wanted`.
pub open spec fn first<T>(list: Seq<T>, wanted: spec_fn(T) -> bool) -> Option<T>
    decreases list.len(),
{
    if list.len() == 0 {
        None
    } else if wanted(list[0]) {
        Some(list[0])
    } else {
        first(list.subrange(1, list.len() as int), wanted)
    }
}

pub proof fn lemma_first<T>(list: Seq<T>, wanted: spec_fn(T) -> bool, i: int)
    requires
        is_first(list, wanted, i),
    ensures
        first(list, wanted) == Some(list[i]),
    decreases i,
{
    if i > 0 {
        let rest = list.subrange(1, list.len() as int);
        assert(!wanted(list[0]));
        assert forall|j: int| 0 <= j < i - 1 implies !wanted(#[trigger] rest[j]) by {
            assert(rest[j] == list[j + 1]);
        }
        lemma_first(rest, wanted, i - 1);
    }
}

pub proof fn lemma_no_first<T>(list: Seq<T>, wanted: spec_fn(T) -> bool)
    requires
        forall|j: int| 0 <= j < list.len() ==> !wanted(#[trigger] list[j]),
    ensures
        first(list, wanted) is None,
    decreases list.len(),
{
    if list.len() > 0 {
        let rest = list.subrange(1, list.len() as int);
        assert forall|j: int| 0 <= j < rest.len() implies !wanted(#[trigger] rest[j]) by {
            assert(rest[j] == list[j + 1]);
        }
        lemma_no_first(rest, wanted);
    }
}

/// What `first` finds stands in the list and satisfies `wanted`; when it finds
/// nothing, nothing does.
pub proof fn lemma_first_meaning<T>(list: Seq<T>, wanted: spec_fn(T) -> bool)
    ensures
        match first(list, wanted) {
            Some(found) => exists|i: int| is_first(list, wanted, i) && list[i] == found,
            None => forall|j: int| 0 <= j < list.len() ==> !wanted(#[trigger] list[j]),
        },
    decreases list.len(),
{
    if list.len() > 0 {
        if wanted(list[0]) {
            assert(is_first(list, wanted, 0));
        } else {
            let rest = list.subrange(1, list.len() as int);
            lemma_first_meaning(rest, wanted);
            match first(rest, wanted) {
                Some(found) => {
                    let k = choose|i: int| is_first(rest, wanted, i) && rest[i] == found;
                    assert forall|j: int| 0 <= j < k + 1 implies !wanted(#[trigger] list[j]) by {
                        if j > 0 {
                            assert(list[j] == rest[j - 1]);
                        }
                    }
                    assert(is_first(list, wanted, k + 1));
                },
                None => {
                    assert forall|j: int| 0 <= j < list.len() implies !wanted(
                        #[trigger] list[j],
                    ) by {
                        if j > 0 {
                            assert(list[j] == rest[j - 1]);
                        }
                    }
                },
            }
        }
    }
}

/// Sessions with this id.
pub open spec fn has_session_id(id: Seq<char>) -> spec_fn(SessionMeta) -> bool {
    |meta: SessionMeta| meta.id@ == id
}

/// Projects with this id.
pub open spec fn has_project_id(id: Seq<char>) -> spec_fn(Project) -> bool {
    |project: Project| project.id@ == id
}

pub open spec fn session_by_id(sessions: Seq<SessionMeta>, id: Seq<char>) -> Option<SessionMeta> {
    first(sessions, has_session_id(id))
}

pub open spec fn project_by_id(projects: Seq<Project>, id: Seq<char>) -> Option<Project> {
    first(projects, has_project_id(id))
}

/// Whether the index lists a project.
pub open spec fn lists_project(projects: Seq<Project>, id: Seq<char>) -> bool {
    project_by_id(projects, id) is Some
}

/// Whether the index lists a session, archived or not.
pub open spec fn lists_session(sessions: Seq<SessionMeta>, id: Seq<char>) -> bool {
    session_by_id(sessions, id) is Some
}

/// Where a session stands in the index.
pub fn find_session(sessions: &Vec<SessionMeta>, id: &str) -> (at: Option<usize>)
    ensures
        match at {
            Some(i) => is_first(sessions@, has_session_id(id@), i as int) && session_by_id(
                sessions@,
                id@,
            ) == Some(sessions@[i as int]),
            None => session_by_id(sessions@, id@) is None && forall|j: int|
                0 <= j < sessions@.len() ==> #[trigger] sessions@[j].id@ != id@,
        },
{
    let mut i: usize = 0;
    while i < sessions.len()
        invariant
            i <= sessions@.len(),
            forall|j: int| 0 <= j < i ==> #[trigger] sessions@[j].id@ != id@,
        decreases sessions@.len() - i,
    {
        if *sessions[i].id.as_str() == *id {
            proof {
                lemma_first(sessions@, has_session_id(id@), i as int);
            }
            return Some(i);
        }
        i += 1;
    }
    proof {
        lemma_no_first(sessions@, has_session_id(id@));
    }
    None
}

/// Where a project stands in the index.
pub fn find_project(projects: &Vec<Project>, id: &str) -> (at: Option<usize>)
    ensures
        match at {
            Some(i) => is_first(projects@, has_project_id(id@), i as int) && project_by_id(
                projects@,
                id@,
            ) == Some(projects@[i as int]),
            None => project_by_id(projects@, id@) is None && forall|j: int|
                0 <= j < projects@.len() ==> #[trigger] projects@[j].id@ != id@,
        },
{
    let mut i: usize = 0;
    while i < projects.len()
        invariant
            i <= projects@.len(),
            forall|j: int| 0 <= j < i ==> #[trigger] projects@[j].id@ != id@,
        decreases projects@.len() - i,
    {
        if *projects[i].id.as_str() == *id {
            proof {
                lemma_first(projects@, has_project_id(id@), i as int);
            }
            return Some(i);
        }
        i += 1;
    }
    proof {
        lemma_no_first(projects@, has_project_id(id@));
    }
    None
}

/// The list with the first element that satisfies `same` replaced by `item`, or
/// with `item` at its end when there is none.
pub open spec fn upserted<T>(list: Seq<T>, same: spec_fn(T) -> bool, item: T) -> Seq<T> {
    if exists|i: int| is_first(list, same, i) {
        list.update(choose|i: int| is_first(list, same, i), item)
    } else {
        list.push(item)
    }
}

proof fn lemma_first_unique<T>(list: Seq<T>, same: spec_fn(T) -> bool, i: int, j: int)
    requires
        is_first(list, same, i),
        is_first(list, same, j),
    ensures
        i == j,
{
}

pub fn upsert_session(sessions: &mut Vec<SessionMeta>, meta: SessionMeta)
    ensures
        final(sessions)@ == upserted(old(sessions)@, has_session_id(meta.id@), meta),
{
    let ghost same = has_session_id(meta.id@);
    match find_session(sessions, meta.id.as_str()) {
        Some(i) => {
            proof {
                lemma_first_unique(
                    sessions@,
                    same,
                    i as int,
                    choose|k: int| is_first(sessions@, same, k),
                );
            }
            sessions.set(i, meta);
        },
        None => {
            assert(!exists|k: int| is_first(sessions@, same, k));
            sessions.push(meta);
        },
    }
}

pub fn upsert_project(projects: &mut Vec<Project>, project: Project)
    ensures
        final(projects)@ == upserted(old(projects)@, has_project_id(project.id@), project),
{
    let ghost same = has_project_id(project.id@);
    match find_project(projects, project.id.as_str()) {
        Some(i) => {
            proof {
                lemma_first_unique(
                    projects@,
                    same,
                    i as int,
                    choose|k: int| is_first(projects@, same, k),
                );
            }
            projects.set(i, project);
        },
        None => {
            assert(!exists|k: int| is_first(projects@, same, k));
            projects.push(project);
        },
    }
}

/// The sessions but those with this id.
pub open spec fn sessions_without(sessions: Seq<SessionMeta>, id: Seq<char>) -> Seq<SessionMeta> {
    sessions.filter(|meta: SessionMeta| meta.id@ != id)
}

/// The projects but those with this id.
pub open spec fn projects_without(projects: Seq<Project>, id: Seq<char>) -> Seq<Project> {
    projects.filter(|project: Project| project.id@ != id)
}

pub fn remove_session(sessions: &mut Vec<SessionMeta>, id: &str)
    ensures
        final(sessions)@ == sessions_without(old(sessions)@, id@),
{
    let ghost before = sessions@;
    let ghost kept = |meta: SessionMeta| meta.id@ != id@;
    let mut left: Vec<SessionMeta> = Vec::new();
    let mut i: usize = 0;
    assert(before.take(0) =~= Seq::<SessionMeta>::empty());
    assert(before.take(0).filter(kept) =~= Seq::<SessionMeta>::empty());
    while i < sessions.len()
        invariant
            i <= sessions@.len(),
            sessions@ == before,
            kept == (|meta: SessionMeta| meta.id@ != id@),
            left@ == before.take(i as int).filter(kept),
        decreases sessions@.len() - i,
    {
        proof {
            let next = before.take(i + 1);
            assert(next.drop_last() =~= before.take(i as int));
            assert(next.last() == before[i as int]);
            reveal(Seq::filter);
        }
        if !(*sessions[i].id.as_str() == *id) {
            left.push(sessions[i].clone());
        }
        i += 1;
    }
    assert(before.take(i as int) =~= before);
    *sessions = left;
}

pub fn remove_project(projects: &mut Vec<Project>, id: &str)
    ensures
        final(projects)@ == projects_without(old(projects)@, id@),
{
    let ghost before = projects@;
    let ghost kept = |project: Project| project.id@ != id@;
    let mut left: Vec<Project> = Vec::new();
    let mut i: usize = 0;
    assert(before.take(0) =~= Seq::<Project>::empty());
    assert(before.take(0).filter(kept) =~= Seq::<Project>::empty());
    while i < projects.len()
        invariant
            i <= projects@.len(),
            projects@ == before,
            kept == (|project: Project| project.id@ != id@),
            left@ == before.take(i as int).filter(kept),
        decreases projects@.len() - i,
    {
        proof {
            let next = before.take(i + 1);
            assert(next.drop_last() =~= before.take(i as int));
            assert(next.last() == before[i as int]);
            reveal(Seq::filter);
        }
        if !(*projects[i].id.as_str() == *id) {
            left.push(projects[i].clone());
        }
        i += 1;
    }
    assert(before.take(i as int) =~= before);
    *projects = left;
}

/// What a list of sessions is ordered by.
#[derive(Clone, Copy, Debug, PartialEq, Eq, Structural)]
pub enum Recency {
    Updated,
    Archived,
}

/// How recent a session is; one that was never archived is older than any.
pub open spec fn recency(meta: SessionMeta, by: Recency) -> int {
    match by {
        Recency::Updated => meta.updated_at as int,
        Recency::Archived => match meta.archived_at {
            Some(at) => at as int,
            None => -1,
        },
    }
}

/// How many sessions at the front are at least as recent as `meta`.
pub open spec fn ahead_of(sorted: Seq<SessionMeta>, meta: SessionMeta, by: Recency) -> int
    decreases sorted.len(),
{
    if sorted.len() == 0 {
        0
    } else if recency(sorted.last(), by) >= recency(meta, by) {
        sorted.len() as int
    } else {
        ahead_of(sorted.drop_last(), meta, by)
    }
}

/// The sessions, most recent first; equally recent ones keep their order.
pub open spec fn most_recent_first(sessions: Seq<SessionMeta>, by: Recency) -> Seq<SessionMeta>
    decreases sessions.len(),
{
    if sessions.len() == 0 {
        sessions
    } else {
        let sorted = most_recent_first(sessions.drop_last(), by);
        sorted.insert(ahead_of(sorted, sessions.last(), by), sessions.last())
    }
}

proof fn lemma_ahead_bounds(sorted: Seq<SessionMeta>, meta: SessionMeta, by: Recency)
    ensures
        0 <= ahead_of(sorted, meta, by) <= sorted.len(),
        ahead_of(sorted, meta, by) > 0 ==> recency(
            sorted[ahead_of(sorted, meta, by) - 1],
            by,
        ) >= recency(meta, by),
        forall|j: int|
            ahead_of(sorted, meta, by) <= j < sorted.len() ==> recency(#[trigger] sorted[j], by)
                < recency(meta, by),
    decreases sorted.len(),
{
    if sorted.len() > 0 && recency(sorted.last(), by) < recency(meta, by) {
        lemma_ahead_bounds(sorted.drop_last(), meta, by);
        let ahead = ahead_of(sorted, meta, by);
        assert forall|j: int| ahead <= j < sorted.len() implies recency(#[trigger] sorted[j], by)
            < recency(meta, by) by {
            if j < sorted.len() - 1 {
                assert(sorted.drop_last()[j] == sorted[j]);
            }
        }
        if ahead > 0 {
            assert(sorted.drop_last()[ahead - 1] == sorted[ahead - 1]);
        }
    }
}

fn recency_of(meta: &SessionMeta, by: Recency) -> (key: (bool, u64))
    ensures
        key.0 == (recency(*meta, by) >= 0),
        key.0 ==> key.1 == recency(*meta, by),
        !key.0 ==> recency(*meta, by) == -1,
{
    match by {
        Recency::Updated => (true, meta.updated_at),
        Recency::Archived => match meta.archived_at {
            Some(at) => (true, at),
            None => (false, 0),
        },
    }
}

fn at_least_as_recent(a: &SessionMeta, b: &SessionMeta, by: Recency) -> (so: bool)
    ensures
        so == (recency(*a, by) >= recency(*b, by)),
{
    let left = recency_of(a, by);
    let right = recency_of(b, by);
    if !right.0 {
        true
    } else if !left.0 {
        false
    } else {
        left.1 >= right.1
    }
}

/// Order sessions, most recent first, keeping equally recent ones in order.
pub fn sort_most_recent_first(sessions: Vec<SessionMeta>, by: Recency) -> (sorted: Vec<SessionMeta>)
    ensures
        sorted@ == most_recent_first(sessions@, by),
{
    let mut sorted: Vec<SessionMeta> = Vec::new();
    let mut i: usize = 0;
    assert(sessions@.take(0) =~= Seq::<SessionMeta>::empty());
    while i < sessions.len()
        invariant
            i <= sessions@.len(),
            sorted@ == most_recent_first(sessions@.take(i as int), by),
        decreases sessions@.len() - i,
    {
        let meta = sessions[i].clone();
        let mut at: usize = sorted.len();
        assert(sorted@.take(at as int) =~= sorted@);
        while at > 0 && !at_least_as_recent(&sorted[at - 1], &meta, by)
            invariant
                at <= sorted@.len(),
                ahead_of(sorted@, meta, by) == ahead_of(sorted@.take(at as int), meta, by),
            decreases at,
        {
            assert(sorted@.take(at as int).drop_last() =~= sorted@.take(at - 1));
            at -= 1;
        }
        proof {
            if at > 0 {
                assert(sorted@.take(at as int).last() == sorted@[at - 1]);
            }
            assert(ahead_of(sorted@, meta, by) == at);
            let next = sessions@.take(i + 1);
            assert(next.drop_last() =~= sessions@.take(i as int));
            assert(next.last() == meta);
        }
        sorted.insert(at, meta);
        i += 1;
    }
    assert(sessions@.take(i as int) =~= sessions@);
    sorted
}

/// Ordering loses and invents no session.
pub proof fn law_most_recent_first_permutes(sessions: Seq<SessionMeta>, by: Recency)
    ensures
        most_recent_first(sessions, by).to_multiset() == sessions.to_multiset(),
        most_recent_first(sessions, by).len() == sessions.len(),
    decreases sessions.len(),
{
    broadcast use vstd::seq_lib::group_to_multiset_ensures;

    if sessions.len() > 0 {
        law_most_recent_first_permutes(sessions.drop_last(), by);
        let sorted = most_recent_first(sessions.drop_last(), by);
        let at = ahead_of(sorted, sessions.last(), by);
        lemma_ahead_bounds(sorted, sessions.last(), by);
        assert(sorted.insert(at, sessions.last()).to_multiset() =~= sorted.to_multiset().insert(
            sessions.last(),
        ));
        assert(sessions =~= sessions.drop_last().push(sessions.last()));
        assert(sessions.to_multiset() =~= sessions.drop_last().to_multiset().insert(
            sessions.last(),
        ));
    }
}

/// After ordering, no session stands before a more recent one.
pub proof fn law_most_recent_first_sorts(sessions: Seq<SessionMeta>, by: Recency)
    ensures
        forall|i: int, j: int|
            0 <= i <= j < most_recent_first(sessions, by).len() ==> recency(
                #[trigger] most_recent_first(sessions, by)[i],
                by,
            ) >= recency(#[trigger] most_recent_first(sessions, by)[j], by),
    decreases sessions.len(),
{
    if sessions.len() > 0 {
        law_most_recent_first_sorts(sessions.drop_last(), by);
        let sorted = most_recent_first(sessions.drop_last(), by);
        let meta = sessions.last();
        let at = ahead_of(sorted, meta, by);
        lemma_ahead_bounds(sorted, meta, by);
        let after = sorted.insert(at, meta);
        assert forall|i: int, j: int| 0 <= i <= j < after.len() implies recency(
            #[trigger] after[i],
            by,
        ) >= recency(#[trigger] after[j], by) by {
            let x = if i < at { i } else { i - 1 };
            let y = if j < at { j } else { j - 1 };
            if i != at {
                assert(after[i] == sorted[x]);
            }
            if j != at {
                assert(after[j] == sorted[y]);
            }
            if i < at && j == at {
                assert(recency(sorted[i], by) >= recency(sorted[at - 1], by));
            }
        }
    }
}

/// Sessions that are in order stay as they are.
proof fn lemma_ordered_stays(sessions: Seq<SessionMeta>, by: Recency)
    requires
        forall|i: int, j: int|
            0 <= i <= j < sessions.len() ==> recency(#[trigger] sessions[i], by) >= recency(
                #[trigger] sessions[j],
                by,
            ),
    ensures
        most_recent_first(sessions, by) == sessions,
    decreases sessions.len(),
{
    if sessions.len() > 0 {
        let init = sessions.drop_last();
        assert forall|i: int, j: int| 0 <= i <= j < init.len() implies recency(
            #[trigger] init[i],
            by,
        ) >= recency(#[trigger] init[j], by) by {
            assert(init[i] == sessions[i] && init[j] == sessions[j]);
        }
        lemma_ordered_stays(init, by);
        if init.len() > 0 {
            assert(init.last() == sessions[sessions.len() - 2]);
            assert(recency(init.last(), by) >= recency(sessions[sessions.len() - 1], by));
        }
        assert(init.insert(init.len() as int, sessions.last()) =~= sessions);
    }
}

/// No two sessions have the same id.
pub open spec fn distinct(sessions: Seq<SessionMeta>) -> bool {
    forall|i: int, j: int|
        0 <= i < j < sessions.len() ==> (#[trigger] sessions[i]).id@ != (#[trigger] sessions[j]).id@
}

/// Where a session is listed once at most, listing it anew leaves one, which is the new
/// one.
proof fn lemma_upserted_once(sessions: Seq<SessionMeta>, meta: SessionMeta)
    requires
        distinct(sessions),
    ensures
        distinct(upserted(sessions, has_session_id(meta.id@), meta)),
        upserted(sessions, has_session_id(meta.id@), meta).contains(meta),
{
    let same = has_session_id(meta.id@);
    let after = upserted(sessions, same, meta);
    if exists|i: int| is_first(sessions, same, i) {
        let at = choose|i: int| is_first(sessions, same, i);
        assert(after[at] == meta);
        assert forall|i: int, j: int| 0 <= i < j < after.len() implies (#[trigger] after[i]).id@ != (
        #[trigger] after[j]).id@ by {
            assert(sessions[i].id@ != sessions[j].id@);
            assert(same(sessions[at]));
        }
    } else {
        lemma_first_meaning(sessions, same);
        assert(after[sessions.len() as int] == meta);
        assert forall|i: int, j: int| 0 <= i < j < after.len() implies (#[trigger] after[i]).id@ != (
        #[trigger] after[j]).id@ by {
            assert(after[i] == sessions[i]);
            if j < sessions.len() {
                assert(after[j] == sessions[j]);
            } else {
                assert(!same(sessions[i]));
            }
        }
    }
}

/// Ordering sessions keeps their ids distinct.
proof fn lemma_ordered_distinct(sessions: Seq<SessionMeta>, by: Recency)
    requires
        distinct(sessions),
    ensures
        distinct(most_recent_first(sessions, by)),
{
    broadcast use vstd::seq_lib::group_to_multiset_ensures;

    let after = most_recent_first(sessions, by);
    law_most_recent_first_permutes(sessions, by);
    assert(sessions.no_duplicates());
    sessions.lemma_multiset_has_no_duplicates();
    after.lemma_multiset_has_no_duplicates_conv();
    assert forall|i: int, j: int| 0 <= i < j < after.len() implies (#[trigger] after[i]).id@ != (
    #[trigger] after[j]).id@ by {
        assert(after.to_multiset().contains(after[i]) && after.to_multiset().contains(after[j]));
        assert(sessions.contains(after[i]) && sessions.contains(after[j]));
        let x = choose|x: int| 0 <= x < sessions.len() && sessions[x] == after[i];
        let y = choose|y: int| 0 <= y < sessions.len() && sessions[y] == after[j];
        assert(after[i] != after[j]);
        if x < y {
            assert(sessions[x].id@ != sessions[y].id@);
        } else {
            assert(sessions[y].id@ != sessions[x].id@);
        }
    }
}

/// Listing a session keeps ids distinct.
pub proof fn law_listing_a_session_keeps_ids_distinct(
    sessions: Seq<SessionMeta>,
    meta: SessionMeta,
    by: Recency,
)
    requires
        distinct(sessions),
    ensures
        distinct(most_recent_first(upserted(sessions, has_session_id(meta.id@), meta), by)),
{
    lemma_upserted_once(sessions, meta);
    lemma_ordered_distinct(upserted(sessions, has_session_id(meta.id@), meta), by);
}

/// Listing a session a second time changes nothing.
pub proof fn law_listing_a_session_again_changes_nothing(
    sessions: Seq<SessionMeta>,
    meta: SessionMeta,
    by: Recency,
)
    requires
        distinct(sessions),
    ensures
        ({
            let same = has_session_id(meta.id@);
            let once = most_recent_first(upserted(sessions, same, meta), by);
            most_recent_first(upserted(once, same, meta), by) == once
        }),
{
    broadcast use vstd::seq_lib::group_to_multiset_ensures;

    let same = has_session_id(meta.id@);
    let listed = upserted(sessions, same, meta);
    let once = most_recent_first(listed, by);
    lemma_upserted_once(sessions, meta);
    lemma_ordered_distinct(listed, by);
    law_most_recent_first_permutes(listed, by);
    law_most_recent_first_sorts(listed, by);
    assert(listed.to_multiset().contains(meta));
    assert(once.contains(meta));
    let at = choose|i: int| 0 <= i < once.len() && once[i] == meta;
    assert forall|j: int| 0 <= j < at implies !same(#[trigger] once[j]) by {
        assert(once[j].id@ != once[at].id@);
    }
    assert(is_first(once, same, at));
    lemma_first_unique(once, same, at, choose|i: int| is_first(once, same, i));
    assert(upserted(once, same, meta) =~= once);
    lemma_ordered_stays(once, by);
}

} // verus!
