//! What the bot remembers between runs, and the files that it is kept in.
use std::collections::HashSet;
use vstd::prelude::*;
use vstd::string::*;

verus! {

broadcast use vstd::std_specs::hash::group_hash_axioms;

/// The file that keeps the id of the newest announced story.
#[derive(Debug)]
pub struct TrackerFile {
    pub last_id: Option<String>,
}

/// The id in a saved file; none where there is no readable file.
pub open spec fn saved_id(saved: Option<TrackerFile>) -> Option<Seq<char>> {
    match saved {
        Some(file) => file.last_id.deep_view(),
        None => None,
    }
}

/// Remembers the newest story that was announced.
#[derive(Debug)]
pub struct FeedTracker {
    pub path: String,
    pub state: Option<String>,
}

impl View for FeedTracker {
    type V = Option<Seq<char>>;

    open spec fn view(&self) -> Option<Seq<char>> {
        self.state.deep_view()
    }
}

impl FeedTracker {
    /// A tracker that goes on from `saved`, the file at `path` where it could
    /// be read.
    pub fn load(path: String, saved: Option<TrackerFile>) -> (tracker: FeedTracker)
        ensures
            tracker.path@ == path@,
            tracker@ == saved_id(saved),
    {
        let state = match saved {
            Some(file) => file.last_id,
            None => None,
        };
        FeedTracker { path, state }
    }

    /// The id of the newest announced story.
    pub fn last_id(&self) -> (id: Option<String>)
        ensures
            id.deep_view() == self@,
    {
        match &self.state {
            Some(id) => Some(id.clone()),
            None => None,
        }
    }

    /// Remembers another id. What is returned is to be written to the tracker's
    /// file.
    pub fn update(&mut self, new_id: Option<String>) -> (file: TrackerFile)
        ensures
            final(self)@ == new_id.deep_view(),
            final(self).path@ == old(self).path@,
            file.last_id.deep_view() == new_id.deep_view(),
    {
        self.state = new_id;
        TrackerFile { last_id: self.last_id() }
    }
}

/// The file that keeps the subscribed chats.
#[derive(Debug)]
pub struct SubscriberFile {
    pub subscribers: Vec<i64>,
}

/// The chats in a saved file; none where there is no readable file.
pub open spec fn saved_chats(saved: Option<SubscriberFile>) -> Set<i64> {
    match saved {
        Some(file) => file.subscribers@.to_set(),
        None => Set::empty(),
    }
}

/// Whether `list` names every chat of `chats` once, and no other.
pub open spec fn lists(list: Seq<i64>, chats: Set<i64>) -> bool {
    &&& list.no_duplicates()
    &&& list.to_set() == chats
}

/// Remembers the chats that stories are announced in.
#[derive(Debug)]
pub struct SubscriberStore {
    pub path: String,
    pub inner: HashSet<i64>,
}

impl View for SubscriberStore {
    type V = Set<i64>;

    open spec fn view(&self) -> Set<i64> {
        self.inner@
    }
}

impl SubscriberStore {
    /// A store that goes on from `saved`, the file at `path` where it could be
    /// read.
    pub fn load(path: String, saved: Option<SubscriberFile>) -> (store: SubscriberStore)
        ensures
            store.path@ == path@,
            store@ == saved_chats(saved),
    {
        let mut inner: HashSet<i64> = HashSet::new();
        if let Some(file) = saved {
            let ghost chats = file.subscribers@;
            let mut i: usize = 0;
            while i < file.subscribers.len()
                invariant
                    i <= file.subscribers.len(),
                    chats == file.subscribers@,
                    inner@ == chats.take(i as int).to_set(),
                decreases file.subscribers.len() - i,
            {
                inner.insert(file.subscribers[i]);
                proof {
                    let taken = chats.take(i as int);
                    let next = chats.take(i + 1);
                    assert(next =~= taken.push(chats[i as int]));
                    assert(next.to_set() =~= taken.to_set().insert(chats[i as int])) by {
                        assert(next[i as int] == chats[i as int]);
                    }
                }
                i += 1;
            }
            assert(chats.take(i as int) =~= chats);
        }
        SubscriberStore { path, inner }
    }

    /// Subscribes a chat. Where it was not subscribed before, what is returned
    /// is to be written to the store's file.
    pub fn add(&mut self, chat_id: i64) -> (file: Option<SubscriberFile>)
        ensures
            final(self)@ == old(self)@.insert(chat_id),
            final(self).path@ == old(self).path@,
            match file {
                Some(file) => !old(self)@.contains(chat_id) && lists(
                    file.subscribers@,
                    final(self)@,
                ),
                None => old(self)@.contains(chat_id),
            },
    {
        if self.inner.insert(chat_id) {
            Some(self.persist())
        } else {
            None
        }
    }

    /// The subscribed chats, in no particular order.
    pub fn all(&self) -> (chats: Vec<i64>)
        ensures
            lists(chats@, self@),
    {
        let mut chats: Vec<i64> = Vec::new();
        for chat in it: self.inner.iter()
            invariant
                chats@ == it.seq().unref().take(it.index()),
                it.seq().unref().to_set() == self.inner@,
                it.seq().no_duplicates(),
                it.index() == it.seq().len() ==> chats@.to_set() == self.inner@,
                chats@.no_duplicates(),
        {
            chats.push(*chat);
            assert(chats@ =~= it.seq().unref().take(it.index() + 1));
            assert(it.index() + 1 == it.seq().len() ==> it.seq().unref().take(it.index() + 1)
                =~= it.seq().unref());
        }
        chats
    }

    /// What the store's file is to hold.
    pub fn persist(&self) -> (file: SubscriberFile)
        ensures
            lists(file.subscribers@, self@),
    {
        SubscriberFile { subscribers: self.all() }
    }
}

/// A tracker loaded from what an update wrote remembers the updated id.
pub proof fn law_saved_id_loads_back(file: TrackerFile, id: Option<Seq<char>>)
    requires
        file.last_id.deep_view() == id,
    ensures
        saved_id(Some(file)) == id,
{
}

/// A store loaded from what another store wrote holds the same chats.
pub proof fn law_saved_chats_load_back(file: SubscriberFile, chats: Set<i64>)
    requires
        lists(file.subscribers@, chats),
    ensures
        saved_chats(Some(file)) == chats,
{
}

/// What a file holds is taken over as it is, and where there is none nothing is
/// remembered.
pub proof fn law_files_are_taken_over(
    tracker: TrackerFile,
    subscribers: SubscriberFile,
    chat_id: i64,
)
    ensures
        tracker.last_id matches Some(id) ==> saved_id(Some(tracker)) == Some(id@),
        tracker.last_id is None ==> saved_id(Some(tracker)) is None,
        saved_id(None) is None,
        saved_chats(Some(subscribers)).contains(chat_id) <==> subscribers.subscribers@.contains(
            chat_id,
        ),
        !saved_chats(None).contains(chat_id),
{
}

/// A list of chats names each of them at one place, and nothing else.
pub proof fn law_lists_name_each_chat_once(list: Seq<i64>, chats: Set<i64>)
    ensures
        lists(list, chats) <==> {
            &&& forall|i: int, j: int| 0 <= i < j < list.len() ==> list[i] != list[j]
            &&& forall|i: int| 0 <= i < list.len() ==> chats.contains(#[trigger] list[i])
            &&& forall|chat_id: i64| #[trigger]
                chats.contains(chat_id) ==> exists|i: int|
                    0 <= i < list.len() && list[i] == chat_id
        },
{
    if lists(list, chats) {
        assert forall|chat_id: i64| #[trigger] chats.contains(chat_id) implies exists|i: int|
            0 <= i < list.len() && list[i] == chat_id by {
            assert(list.to_set().contains(chat_id));
            assert(list.contains(chat_id));
        }
        assert forall|i: int| 0 <= i < list.len() implies chats.contains(#[trigger] list[i]) by {
            assert(list.to_set().contains(list[i]));
        }
    } else if {
        &&& forall|i: int, j: int| 0 <= i < j < list.len() ==> list[i] != list[j]
        &&& forall|i: int| 0 <= i < list.len() ==> chats.contains(#[trigger] list[i])
        &&& forall|chat_id: i64| #[trigger]
            chats.contains(chat_id) ==> exists|i: int| 0 <= i < list.len() && list[i] == chat_id
    } {
        assert(list.no_duplicates());
        assert(list.to_set() =~= chats);
    }
}

/// What is stated of a tracker is stated of the id that it holds, and what is
/// stated of a store of the chats that it holds.
pub proof fn law_store_views(tracker: FeedTracker, store: SubscriberStore)
    ensures
        tracker.state matches Some(id) ==> tracker@ == Some(id@),
        tracker.state is None ==> tracker@ is None,
        store@ == store.inner@,
{
}

/// A tracker loaded from the file of an update remembers the id that was handed
/// in; without a file it remembers none.
pub proof fn law_tracker_remembers_the_update(
    tracker: &mut FeedTracker,
    new_id: Option<String>,
    file: TrackerFile,
    path: String,
    loaded: FeedTracker,
    id: Option<String>,
    fresh: FeedTracker,
)
    requires
        call_ensures(FeedTracker::update, (tracker, new_id), file),
        call_ensures(FeedTracker::load, (path, Some(file)), loaded),
        call_ensures(FeedTracker::last_id, (&loaded,), id),
        call_ensures(FeedTracker::load, (path, None), fresh),
    ensures
        final(tracker)@ == loaded@,
        final(tracker).path@ == old(tracker).path@,
        loaded.path@ == path@,
        new_id matches Some(text) ==> (id matches Some(kept) && kept@ == text@),
        new_id is None ==> id is None,
        fresh@ is None,
        fresh.path@ == path@,
{
}

/// Subscribing adds the chat and no other; a file is written exactly where the
/// chat is new, and a store loaded from that file has the same chats.
pub proof fn law_subscribing_adds_one_chat(
    store: &mut SubscriberStore,
    chat_id: i64,
    other: i64,
    file: Option<SubscriberFile>,
    path: String,
    loaded: SubscriberStore,
    fresh: SubscriberStore,
)
    requires
        call_ensures(SubscriberStore::add, (store, chat_id), file),
        call_ensures(SubscriberStore::load, (path, file), loaded),
        call_ensures(SubscriberStore::load, (path, None), fresh),
    ensures
        final(store)@.contains(chat_id),
        other != chat_id ==> final(store)@.contains(other) == old(store)@.contains(other),
        file is Some <==> !old(store)@.contains(chat_id),
        file is Some ==> loaded@ == final(store)@,
        final(store).path@ == old(store).path@,
        loaded.path@ == path@,
        !fresh@.contains(chat_id),
{
}

/// The chats of a store are listed each once, and so they are in its file.
pub proof fn law_listed_chats(
    store: SubscriberStore,
    chats: Vec<i64>,
    file: SubscriberFile,
    i: int,
    j: int,
    chat_id: i64,
)
    requires
        call_ensures(SubscriberStore::all, (&store,), chats),
        call_ensures(SubscriberStore::persist, (&store,), file),
    ensures
        0 <= i < j < chats@.len() ==> chats@[i] != chats@[j],
        0 <= i < chats@.len() ==> store@.contains(chats@[i]),
        chats@.contains(chat_id) <==> store@.contains(chat_id),
        file.subscribers@.contains(chat_id) <==> store@.contains(chat_id),
        file.subscribers@.no_duplicates(),
{
    if 0 <= i < chats@.len() {
        assert(chats@.to_set().contains(chats@[i]));
    }
    assert(chats@.to_set().contains(chat_id) == chats@.contains(chat_id));
    assert(file.subscribers@.to_set().contains(chat_id) == file.subscribers@.contains(chat_id));
}

} // verus!
