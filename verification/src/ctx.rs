//! Application context: the data and download directories, and the event history that
//! is replayed to every new subscriber of the event stream.

use vstd::prelude::*;
use std::collections::VecDeque;
use crate::json::{decode_json, json_decode, lemma_key_position_props, JsonValue};
use crate::storage::store_wrapper::{load_string, loaded_string, object_entries, save_string, savable, saved_string};
use crate::paths::{join, spec_join};
use crate::text::owned;

verus! {

/// How many past events are kept for replay to new subscribers.
pub const EVENT_HISTORY_LIMIT: usize = 256;

/// The last `EVENT_HISTORY_LIMIT` entries of `log` (all of it when it is shorter).
pub open spec fn retained<T>(log: Seq<T>) -> Seq<T> {
    if log.len() <= EVENT_HISTORY_LIMIT {
        log
    } else {
        log.subrange(log.len() - EVENT_HISTORY_LIMIT, log.len() as int)
    }
}

/// The history of published events, oldest first, each as (event name, payload).
pub struct EventBus {
    history: VecDeque<(String, String)>,
}

/// The event seen through the views of its strings.
pub open spec fn event_view(e: (String, String)) -> (Seq<char>, Seq<char>) {
    (e.0@, e.1@)
}

impl View for EventBus {
    type V = Seq<(Seq<char>, Seq<char>)>;

    closed spec fn view(&self) -> Seq<(Seq<char>, Seq<char>)> {
        self.history@.map_values(|e: (String, String)| event_view(e))
    }
}

impl EventBus {
    /// The history never holds more than `EVENT_HISTORY_LIMIT` events.
    #[verifier::type_invariant]
    closed spec fn bounded(self) -> bool {
        self.history@.len() <= EVENT_HISTORY_LIMIT
    }

    /// An event bus with an empty history.
    pub fn new() -> (r: EventBus)
        ensures
            r@ == Seq::<(Seq<char>, Seq<char>)>::empty(),
    {
        let r = EventBus { history: VecDeque::new() };
        assert(r@ =~= Seq::<(Seq<char>, Seq<char>)>::empty());
        r
    }

    /// Records an event; when the history is full the oldest event is dropped first.
    pub fn publish(&mut self, event: String, payload: String)
        ensures
            final(self)@ == retained(old(self)@.push((event@, payload@))),
    {
        proof {
            use_type_invariant(&*self);
        }
        let ghost before = self@;
        let mut history = VecDeque::new();
        std::mem::swap(&mut history, &mut self.history);
        let ghost h0 = history@;
        assert(before == h0.map_values(|e: (String, String)| event_view(e)));
        if history.len() >= EVENT_HISTORY_LIMIT {
            history.pop_front();
        }
        let ghost h1 = history@;
        history.push_back((event, payload));
        let ghost h2 = history@;
        let ghost log = before.push((event@, payload@));
        let ghost mapped = h2.map_values(|e: (String, String)| event_view(e));
        assert(mapped =~= retained(log)) by {
            if h0.len() >= EVENT_HISTORY_LIMIT {
                assert(h1 =~= h0.subrange(1, h0.len() as int));
                assert forall|i: int| 0 <= i < mapped.len() implies mapped[i] == retained(log)[i] by {
                    if i < mapped.len() - 1 {
                        assert(h2[i] == h0[i + 1]);
                    }
                }
            } else {
                assert forall|i: int| 0 <= i < mapped.len() implies mapped[i] == retained(log)[i] by {
                    if i < mapped.len() - 1 {
                        assert(h2[i] == h0[i]);
                    }
                }
            }
        }
        self.history = history;
    }

    /// A copy of the history, oldest first, for a new subscriber.
    pub fn subscribe(&self) -> (r: Vec<(String, String)>)
        ensures
            r@.map_values(|e: (String, String)| event_view(e)) == self@,
    {
        let mut r: Vec<(String, String)> = Vec::new();
        let n = self.history.len();
        let mut i: usize = 0;
        while i < n
            invariant
                n == self.history@.len(),
                i <= n,
                r@.len() == i,
                forall|j: int| 0 <= j < i ==> event_view(#[trigger] r@[j]) == event_view(self.history@[j]),
            decreases n - i,
        {
            let e = &self.history[i];
            r.push((e.0.clone(), e.1.clone()));
            i += 1;
        }
        assert(r@.map_values(|e: (String, String)| event_view(e)) =~= self@);
        r
    }
}

/// Publishing one more event after a history of `log` leaves the same history as keeping
/// the last `EVENT_HISTORY_LIMIT` events of the longer log: the history is always the
/// most recent events, in the order they were published.
pub proof fn lemma_retained_push<T>(log: Seq<T>, e: T)
    ensures
        retained(retained(log).push(e)) == retained(log.push(e)),
{
    let a = retained(retained(log).push(e));
    let b = retained(log.push(e));
    assert(a =~= b) by {
        if log.len() > EVENT_HISTORY_LIMIT {
            assert forall|i: int| 0 <= i < a.len() implies a[i] == b[i] by {}
        }
    }
}

/// The history after publishing the events of `log` one at a time, oldest first, starting
/// from an empty history.
pub open spec fn history_after<T>(log: Seq<T>) -> Seq<T>
    decreases log.len(),
{
    if log.len() == 0 {
        Seq::empty()
    } else {
        retained(history_after(log.drop_last()).push(log.last()))
    }
}

/// After any number of events, the history holds the last `EVENT_HISTORY_LIMIT` of them
/// (all of them when there are fewer), in the order they were published.
pub proof fn lemma_history_after<T>(log: Seq<T>)
    ensures
        history_after(log) == retained(log),
    decreases log.len(),
{
    if log.len() > 0 {
        lemma_history_after(log.drop_last());
        lemma_retained_push(log.drop_last(), log.last());
        assert(log.drop_last().push(log.last()) =~= log);
    }
}

/// Publishing one more event keeps the history equal to the history of the longer log: a
/// context created empty and given the events of `log` by `emit` holds `history_after(log)`,
/// which is `retained(log)`.
pub proof fn lemma_emit_extends_history<T>(before: Seq<T>, log: Seq<T>, e: T)
    requires
        before == history_after(log),
    ensures
        retained(before.push(e)) == history_after(log.push(e)),
        history_after(log.push(e)) == retained(log.push(e)),
{
    assert(log.push(e).drop_last() =~= log);
    lemma_history_after(log.push(e));
}

/// Application context: where data and downloads are kept, and the history of the events
/// published so far.
pub struct AppCtx {
    data_dir: String,
    download_dir: String,
    events: EventBus,
    /// Every event published through this context, oldest first.
    published: Ghost<Seq<(Seq<char>, Seq<char>)>>,
}

impl AppCtx {
    /// The events kept for replay are the last `EVENT_HISTORY_LIMIT` of those published.
    #[verifier::type_invariant]
    closed spec fn history_is_recent(self) -> bool {
        self.events@ == retained(self.published@)
    }

    /// A context for the given data and download directories, with no events yet.
    pub fn new(data_dir: String, download_dir: String) -> (r: AppCtx)
        ensures
            r.data_dir_view() == data_dir@,
            r.download_dir_view() == download_dir@,
            r.published_view() == Seq::<(Seq<char>, Seq<char>)>::empty(),
            r.events_view() == Seq::<(Seq<char>, Seq<char>)>::empty(),
    {
        AppCtx { data_dir, download_dir, events: EventBus::new(), published: Ghost(Seq::empty()) }
    }

    /// Every event published through this context, oldest first, each as (event name,
    /// payload).
    pub closed spec fn published_view(&self) -> Seq<(Seq<char>, Seq<char>)> {
        self.published@
    }

    /// The events kept for replay, oldest first, each as (event name, payload).
    pub closed spec fn events_view(&self) -> Seq<(Seq<char>, Seq<char>)> {
        self.events@
    }

    /// Publishes an event whose payload has been encoded as JSON; a payload that could not
    /// be encoded is published as `null`. Returns the published event, for live delivery.
    pub fn emit(&mut self, event: &str, payload: Option<String>) -> (r: (String, String))
        ensures
            r.0@ == event@,
            r.1@ == match payload {
                Some(p) => p@,
                None => "null"@,
            },
            final(self).published_view() == old(self).published_view().push((r.0@, r.1@)),
            final(self).events_view() == retained(final(self).published_view()),
            final(self).events_view() == retained(old(self).events_view().push((r.0@, r.1@))),
            final(self).data_dir_view() == old(self).data_dir_view(),
            final(self).download_dir_view() == old(self).download_dir_view(),
    {
        let data = match payload {
            Some(p) => p,
            None => owned("null"),
        };
        let name = owned(event);
        let published = (name.clone(), data.clone());
        let ghost e = (name@, data@);
        let mut taken = AppCtx::new(String::new(), String::new());
        std::mem::swap(self, &mut taken);
        proof {
            use_type_invariant(&taken);
        }
        let AppCtx { data_dir, download_dir, mut events, published: log } = taken;
        events.publish(name, data);
        proof {
            lemma_retained_push(log@, e);
        }
        *self = AppCtx { data_dir, download_dir, events, published: Ghost(log@.push(e)) };
        published
    }

    /// The events kept for replay, oldest first, for a new subscriber: the last
    /// `EVENT_HISTORY_LIMIT` of all the events published through this context (all of them
    /// when there are fewer), in the order they were published.
    pub fn subscribe(&self) -> (r: Vec<(String, String)>)
        ensures
            r@.map_values(|e: (String, String)| event_view(e)) == self.events_view(),
            r@.map_values(|e: (String, String)| event_view(e)) == retained(self.published_view()),
    {
        proof {
            use_type_invariant(self);
        }
        self.events.subscribe()
    }

    /// The data directory.
    pub closed spec fn data_dir_view(&self) -> Seq<char> {
        self.data_dir@
    }

    /// The download directory.
    pub closed spec fn download_dir_view(&self) -> Seq<char> {
        self.download_dir@
    }

    /// The data directory.
    pub fn data_dir(&self) -> (r: &str)
        ensures
            r@ == self.data_dir_view(),
    {
        self.data_dir.as_str()
    }

    /// The download directory.
    pub fn download_dir(&self) -> (r: &str)
        ensures
            r@ == self.download_dir_view(),
    {
        self.download_dir.as_str()
    }

    /// The path of the data document, `data.json` in the data directory.
    pub fn store_path(&self) -> (r: String)
        ensures
            r@ == spec_join(self.data_dir_view(), "data.json"@),
    {
        join(self.data_dir.as_str(), "data.json")
    }

    /// The data document as read from disk: the decoded document, or an empty object when
    /// the file was missing or did not decode.
    pub fn read_store(decoded: Option<JsonValue>) -> (r: JsonValue)
        ensures
            match decoded {
                Some(d) => r == d,
                None => r matches JsonValue::Object(e) && e@.len() == 0,
            },
    {
        match decoded {
            Some(d) => d,
            None => JsonValue::empty_object(),
        }
    }

    /// The data document that `text`, the content of `data.json`, holds: the decoded
    /// document, or an empty object when the text is missing or not JSON.
    pub fn decode_store(text: &str) -> (r: JsonValue)
        ensures
            match json_decode(text@) {
                Some(d) => r == d,
                None => r matches JsonValue::Object(e) && e@.len() == 0,
            },
    {
        AppCtx::read_store(decode_json(text))
    }

    /// Loads the string stored under `key` in the data document whose text is `text` (the
    /// content of `data.json`): the string there, or the empty string.
    pub fn load_string(text: &str, key: &str) -> (r: String)
        ensures
            r@ == match json_decode(text@) {
                Some(d) => loaded_string(d, key@),
                None => Seq::empty(),
            },
    {
        let doc = AppCtx::decode_store(text);
        proof {
            if json_decode(text@) is None {
                lemma_key_position_props(object_entries(doc), key@);
            }
        }
        load_string(&doc, key)
    }

    /// The data document to write back after saving `value` under `key` in the document
    /// whose text is `text`. Text that is missing or not JSON counts as an empty object; a
    /// document that is neither an object nor `null` cannot take a key, and gives none.
    pub fn save_string(text: &str, key: &str, value: &str) -> (r: Option<JsonValue>)
        ensures
            match json_decode(text@) {
                Some(d) => if savable(d) {
                    r matches Some(doc) && saved_string(d, doc, key@, value@)
                } else {
                    r is None
                },
                None => r matches Some(doc) && saved_string(JsonValue::Null, doc, key@, value@),
            },
    {
        let mut doc = AppCtx::decode_store(text);
        let takes_key = match &doc {
            JsonValue::Object(_) => true,
            JsonValue::Null => true,
            _ => false,
        };
        if !takes_key {
            return None;
        }
        save_string(&mut doc, key, value);
        Some(doc)
    }
}

} // verus!
