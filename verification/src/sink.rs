//! Event sink toward the presentation layer.
//!
//! The sink accepts (topic, payload) pairs and records them in emission
//! order; the host shell forwards each recorded event to its presentation
//! layer as soon as it is handed over.  Delivery is fire-and-forget: the
//! sink never blocks, asks for no acknowledgment, and a presentation layer
//! that is not yet listening simply misses the event.
use vstd::prelude::*;

verus! {

/// One event toward the presentation layer: a topic and a bare string
/// payload.
pub struct Event {
    pub topic: String,
    pub payload: String,
}

impl View for Event {
    type V = (Seq<char>, Seq<char>);

    open spec fn view(&self) -> (Seq<char>, Seq<char>) {
        (self.topic@, self.payload@)
    }
}

impl Clone for Event {
    fn clone(&self) -> (r: Self)
        ensures
            r@ == self@,
    {
        Event { topic: self.topic.clone(), payload: self.payload.clone() }
    }
}

/// One-way channel to the presentation layer.  Its view is the sequence of
/// events handed over so far, in emission order.
pub struct EventSink {
    sent: Vec<Event>,
}

impl View for EventSink {
    type V = Seq<(Seq<char>, Seq<char>)>;

    closed spec fn view(&self) -> Seq<(Seq<char>, Seq<char>)> {
        self.sent@.map_values(|e: Event| e@)
    }
}

impl EventSink {
    /// A sink over which nothing has been emitted yet.
    pub fn new() -> (r: Self)
        ensures
            r@ == Seq::<(Seq<char>, Seq<char>)>::empty(),
    {
        let r = EventSink { sent: Vec::new() };
        proof {
            assert(r@ =~= Seq::<(Seq<char>, Seq<char>)>::empty());
        }
        r
    }

    /// Hands one event over to the presentation layer.  Never blocks and
    /// never fails from the caller's point of view.
    pub fn emit(&mut self, topic: String, payload: String)
        ensures
            final(self)@ == old(self)@.push((topic@, payload@)),
    {
        self.sent.push(Event { topic, payload });
        proof {
            assert(self@ =~= old(self)@.push((topic@, payload@)));
        }
    }

    /// How many events have been emitted.
    pub fn count(&self) -> (r: usize)
        ensures
            r == self@.len(),
    {
        self.sent.len()
    }

    /// The `i`-th emitted event, in emission order.
    pub fn event(&self, i: usize) -> (e: &Event)
        requires
            i < self@.len(),
        ensures
            e@ == self@[i as int],
    {
        &self.sent[i]
    }
}

} // verus!
