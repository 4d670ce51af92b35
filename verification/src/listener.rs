//! The event dispatcher: a registry of subscribers per event kind, the parser
//! of one line of the compositor's event stream, and the decision of who is
//! handed which payload.
//!
//! The registry never runs a subscriber. Dispatching yields the parsed payload
//! together with the subscribers that are owed it, in registration order; the
//! caller runs each of them on its own, so that none can delay or fail another.
//! Subscribers may be registered at any time between two dispatches.
//!
//! The registry is keyed by event kind, and every kind has one wire name of its
//! own, so two kinds can never be registered under one name. A name that is
//! not in the vocabulary, or under which nobody is registered, names an event
//! that nobody cares about: its record is ignored, not rejected.

use crate::command::{socket_in, socket_path};
use crate::event::{Event, EventData, EventKind, EventParseError};
use crate::text::{
    first_pair, from_utf8, split, split_at_pair, split_on, trim, trimmed, views,
};
use std::collections::HashMap;
use vstd::prelude::*;
use vstd::utf8::{decode_utf8, valid_utf8};

verus! {

/// The subscribers of one event kind.
pub struct AnyEventStore<S> {
    functions: Vec<S>,
    kind: EventKind,
}

/// One parsed event and the subscribers that are to receive it.
pub struct Dispatch<'a, S> {
    /// The payload, parsed once for all subscribers.
    pub data: EventData,
    /// Who receives the payload, in registration order.
    pub subscribers: &'a [S],
}

impl<S> AnyEventStore<S> {
    /// The registered subscribers, oldest first.
    pub closed spec fn subscribers(&self) -> Seq<S> {
        self.functions@
    }

    /// The kind of event whose records this store parses.
    pub closed spec fn kind(&self) -> EventKind {
        self.kind
    }

    /// An empty store for the events of kind `E`.
    pub fn new<E: Event>() -> (store: Self)
        ensures
            store.subscribers() == Seq::<S>::empty(),
            store.kind() == E::kind(),
    {
        AnyEventStore { functions: Vec::new(), kind: E::event_kind() }
    }

    /// Adds a subscriber after those already registered.
    pub fn register(&mut self, f: S)
        ensures
            final(self).subscribers() == old(self).subscribers().push(f),
            final(self).kind() == old(self).kind(),
    {
        self.functions.push(f);
    }

    /// Parses the raw fields of one record and pairs the payload with every
    /// subscriber. Fails, with no subscriber named, when the fields do not
    /// parse as the kind of this store.
    pub fn call<'a>(&'a self, data: &[&str]) -> (r: Result<Dispatch<'a, S>, EventParseError>)
        ensures
            r is Ok <==> data@.len() == self.kind().arity(),
            r is Err ==> r->Err_0 == EventParseError::InvalidData,
            r is Ok ==> {
                &&& r->Ok_0.data.kind() == self.kind()
                &&& r->Ok_0.data.fields() == views(data@)
                &&& r->Ok_0.subscribers@ == self.subscribers()
            },
    {
        match self.kind.parse(data) {
            Ok(data) => Ok(Dispatch { data, subscribers: self.functions.as_slice() }),
            Err(e) => Err(e),
        }
    }
}

/// What dispatching one record comes to.
pub enum Outcome<S> {
    /// No subscriber is registered under the record's name: nothing happens.
    Ignored,
    /// The record parsed; each of `subscribers` receives the payload once.
    Delivered { kind: EventKind, fields: Seq<Seq<char>>, subscribers: Seq<S> },
    /// The record did not parse; no subscriber receives anything.
    Rejected(EventParseError),
}

/// The subscribers registered for `kind`, oldest first; none when the kind was
/// never registered.
pub open spec fn subscribers_of<S>(registry: Map<EventKind, Seq<S>>, kind: EventKind) -> Seq<S> {
    if registry.dom().contains(kind) {
        registry[kind]
    } else {
        Seq::empty()
    }
}

/// The registry after `f` subscribed to `kind`.
pub open spec fn registered<S>(registry: Map<EventKind, Seq<S>>, kind: EventKind, f: S) -> Map<
    EventKind,
    Seq<S>,
> {
    registry.insert(kind, subscribers_of(registry, kind).push(f))
}

/// The registry after each of `fs` subscribed to `kind`, in order.
pub open spec fn registered_all<S>(
    registry: Map<EventKind, Seq<S>>,
    kind: EventKind,
    fs: Seq<S>,
) -> Map<EventKind, Seq<S>>
    decreases fs.len(),
{
    if fs.len() == 0 {
        registry
    } else {
        registered(registered_all(registry, kind, fs.drop_last()), kind, fs.last())
    }
}

/// What dispatching the record `name`, `fields` comes to in `registry`.
pub open spec fn dispatched<S>(
    registry: Map<EventKind, Seq<S>>,
    name: Seq<char>,
    fields: Seq<Seq<char>>,
) -> Outcome<S> {
    match EventKind::of_name(name) {
        Some(kind) => if !registry.dom().contains(kind) {
            Outcome::Ignored
        } else if fields.len() == kind.arity() {
            Outcome::Delivered { kind, fields, subscribers: registry[kind] }
        } else {
            Outcome::Rejected(EventParseError::InvalidData)
        },
        None => Outcome::Ignored,
    }
}

/// The outcome that a dispatch result stands for.
pub open spec fn outcome_of<S>(r: Result<Option<Dispatch<'_, S>>, EventParseError>) -> Outcome<S> {
    match r {
        Ok(None) => Outcome::Ignored,
        Ok(Some(d)) => Outcome::Delivered {
            kind: d.data.kind(),
            fields: d.data.fields(),
            subscribers: d.subscribers@,
        },
        Err(e) => Outcome::Rejected(e),
    }
}

/// One line of the event stream, split into its parts.
pub struct Record<'a> {
    /// The event name: what stands before the separator.
    pub name: &'a str,
    /// The raw fields: what stands after the separator, split on commas, each
    /// field without surrounding white space.
    pub fields: Vec<&'a str>,
}

/// Where the separator `>>` first occurs in a line, or the length of the line.
pub open spec fn separator(line: Seq<char>) -> int {
    first_pair(line, '>', '>')
}

/// Whether a line, once trimmed, holds the separator between name and payload.
pub open spec fn well_formed(line: Seq<char>) -> bool {
    separator(trimmed(line)) < trimmed(line).len()
}

/// The event name of a well-formed line.
pub open spec fn record_name(line: Seq<char>) -> Seq<char> {
    trimmed(line).take(separator(trimmed(line)))
}

/// The raw fields of a well-formed line.
pub open spec fn record_fields(line: Seq<char>) -> Seq<Seq<char>> {
    let payload = trimmed(line).skip(separator(trimmed(line)) + 2);
    let pieces = split(payload, ',');
    Seq::new(pieces.len(), |i: int| trimmed(pieces[i]))
}

/// Splits one line of the event stream into name and raw fields. The line is
/// trimmed, cut at the first `>>`, and what follows is split on commas, each
/// field trimmed. A line without `>>` is a protocol violation.
pub fn parse_record<'a>(line: &'a str) -> (r: Result<Record<'a>, EventParseError>)
    ensures
        match r {
            Ok(record) => {
                &&& well_formed(line@)
                &&& record.name@ == record_name(line@)
                &&& views(record.fields@) == record_fields(line@)
            },
            Err(e) => !well_formed(line@) && e == EventParseError::InvalidData,
        },
{
    let body = trim(line);
    let (name, payload) = match split_at_pair(body, '>', '>') {
        Some(parts) => parts,
        None => {
            return Err(EventParseError::InvalidData);
        },
    };
    let pieces = split_on(payload, ',');
    let mut fields: Vec<&'a str> = Vec::new();
    let mut i: usize = 0;
    while i < pieces.len()
        invariant
            i <= pieces.len(),
            fields.len() == i,
            forall|j: int| 0 <= j < i ==> #[trigger] fields@[j]@ == trimmed(pieces@[j]@),
        decreases pieces.len() - i,
    {
        fields.push(trim(pieces[i]));
        i += 1;
    }
    proof {
        let expected = record_fields(line@);
        assert(views(pieces@).len() == pieces@.len());
        assert forall|j: int| 0 <= j < fields@.len() implies views(fields@)[j] == expected[j] by {
            assert(views(pieces@)[j] == pieces@[j]@);
        }
        assert(views(fields@) =~= expected);
    }
    Ok(Record { name, fields })
}

/// Why a line of the event stream ended the listening.
#[derive(Debug, Clone, Copy, PartialEq, Eq)]
pub enum ListenError {
    /// The line is not UTF-8.
    Utf8,
    /// The line is not a record, or its fields do not parse as its kind.
    Parse(EventParseError),
}

/// What handling one line of the event stream comes to.
pub enum LineOutcome<S> {
    /// The line was acted on, with the outcome given.
    Handled(Outcome<S>),
    /// The line ends the listening with the error given.
    Failed(ListenError),
}

/// What the line `bytes` comes to in `registry`.
pub open spec fn line_outcome<S>(registry: Map<EventKind, Seq<S>>, bytes: Seq<u8>) -> LineOutcome<
    S,
> {
    if !valid_utf8(bytes) {
        LineOutcome::Failed(ListenError::Utf8)
    } else {
        let line = decode_utf8(bytes);
        if !well_formed(line) {
            LineOutcome::Failed(ListenError::Parse(EventParseError::InvalidData))
        } else {
            match dispatched(registry, record_name(line), record_fields(line)) {
                Outcome::Rejected(e) => LineOutcome::Failed(ListenError::Parse(e)),
                outcome => LineOutcome::Handled(outcome),
            }
        }
    }
}

/// The line outcome that a result of handling a line stands for.
pub open spec fn line_outcome_of<S>(r: Result<Option<Dispatch<'_, S>>, ListenError>) -> LineOutcome<
    S,
> {
    match r {
        Ok(None) => LineOutcome::Handled(Outcome::Ignored),
        Ok(Some(d)) => LineOutcome::Handled(
            Outcome::Delivered {
                kind: d.data.kind(),
                fields: d.data.fields(),
                subscribers: d.subscribers@,
            },
        ),
        Err(e) => LineOutcome::Failed(e),
    }
}

/// What listening to the lines `lines`, and then to the end of the stream,
/// comes to: the outcome of every line before the first that fails, in order,
/// and the error that ends the listening. Lines after the failing one are not
/// looked at. A stream that ends without a failing line ends the listening as
/// an empty line does.
pub open spec fn listened<S>(registry: Map<EventKind, Seq<S>>, lines: Seq<Seq<u8>>) -> (
    Seq<Outcome<S>>,
    ListenError,
)
    decreases lines.len(),
{
    if lines.len() == 0 {
        (Seq::empty(), ListenError::Parse(EventParseError::InvalidData))
    } else {
        match line_outcome(registry, lines[0]) {
            LineOutcome::Failed(e) => (Seq::empty(), e),
            LineOutcome::Handled(outcome) => {
                let rest = listened(registry, lines.drop_first());
                (seq![outcome] + rest.0, rest.1)
            },
        }
    }
}

/// The outcomes that a list of dispatches stands for.
pub open spec fn outcomes_of<S>(dispatches: Seq<Option<Dispatch<'_, S>>>) -> Seq<Outcome<S>> {
    Seq::new(
        dispatches.len(),
        |i: int| outcome_of(Ok::<Option<Dispatch<'_, S>>, EventParseError>(dispatches[i])),
    )
}

/// The bytes of a list of lines.
pub open spec fn line_bytes(lines: Seq<Vec<u8>>) -> Seq<Seq<u8>> {
    Seq::new(lines.len(), |i: int| lines[i]@)
}

/// The path of the socket on which the compositor instance `instance`
/// announces its events, under the runtime directory `runtime_dir`.
pub fn event_socket(runtime_dir: &str, instance: &str) -> (path: String)
    ensures
        path@ == socket_path(runtime_dir@, instance@, ".socket2.sock"@),
{
    socket_in(runtime_dir, instance, ".socket2.sock")
}

/// The registry of subscribers, by event kind.
pub struct EventListener<S> {
    events: HashMap<u8, AnyEventStore<S>>,
}

impl<S> EventListener<S> {
    #[verifier::type_invariant]
    spec fn well_keyed(&self) -> bool {
        forall|i: u8| #[trigger]
            self.events@.dom().contains(i) ==> self.events@[i].kind().index() == i
    }

    /// The subscribers of each registered kind, oldest first.
    pub closed spec fn registry(&self) -> Map<EventKind, Seq<S>> {
        Map::new(
            |kind: EventKind| self.events@.dom().contains(kind.index()),
            |kind: EventKind| self.events@[kind.index()].subscribers(),
        )
    }

    /// A listener with no subscriber.
    pub fn new() -> (listener: Self)
        ensures
            listener.registry() == Map::<EventKind, Seq<S>>::empty(),
    {
        let listener = EventListener { events: HashMap::new() };
        assert(listener.registry() =~= Map::<EventKind, Seq<S>>::empty());
        listener
    }

    /// Subscribes `f` to the events of kind `E`, after the subscribers that
    /// the kind already has. The other kinds keep theirs.
    pub fn register<E: Event>(&mut self, f: S)
        ensures
            final(self).registry() == registered(old(self).registry(), E::kind(), f),
    {
        let mut taken = EventListener::new();
        core::mem::swap(self, &mut taken);
        proof {
            use_type_invariant(&taken);
        }
        let mut events = taken.events;
        let kind = E::event_kind();
        let key = kind.id();
        let mut store = match events.remove(&key) {
            Some(store) => store,
            None => AnyEventStore::new::<E>(),
        };
        store.register(f);
        events.insert(key, store);
        *self = EventListener { events };
        proof {
            let before = old(self).registry();
            let after = self.registry();
            let expected = registered(before, E::kind(), f);
            assert forall|k: EventKind| after.dom().contains(k) <==> expected.dom().contains(
                k,
            ) by {}
            assert forall|k: EventKind| after.dom().contains(k) implies after[k] == expected[k] by {
                if k != E::kind() {
                    assert(k.index() != key);
                }
            }
            assert(after =~= expected);
        }
    }

    /// Dispatches one record. A name under which nothing is registered is
    /// ignored, whatever its fields. Otherwise the fields are parsed once as
    /// the kind of that name, and the payload is paired with every subscriber
    /// of the kind; a parse failure is returned and names no subscriber.
    pub fn send<'a>(&'a self, event: &str, data: &[&str]) -> (r: Result<
        Option<Dispatch<'a, S>>,
        EventParseError,
    >)
        ensures
            outcome_of(r) == dispatched(self.registry(), event@, views(data@)),
    {
        proof {
            use_type_invariant(self);
        }
        let kind = match EventKind::from_name(event) {
            Some(kind) => kind,
            None => {
                return Ok(None);
            },
        };
        let key = kind.id();
        match self.events.get(&key) {
            Some(store) => {
                assert(store.kind().index() == kind.index());
                match store.call(data) {
                    Ok(dispatch) => Ok(Some(dispatch)),
                    Err(e) => Err(e),
                }
            },
            None => Ok(None),
        }
    }

    /// Handles one line of the event stream, given as the bytes read up to and
    /// including the line break: decodes it, splits it into a record and
    /// dispatches the record.
    pub fn handle_line<'a>(&'a self, line: Vec<u8>) -> (r: Result<
        Option<Dispatch<'a, S>>,
        ListenError,
    >)
        ensures
            line_outcome_of(r) == line_outcome(self.registry(), line@),
    {
        let text = match from_utf8(line) {
            Some(text) => text,
            None => {
                return Err(ListenError::Utf8);
            },
        };
        let record = match parse_record(text.as_str()) {
            Ok(record) => record,
            Err(e) => {
                return Err(ListenError::Parse(e));
            },
        };
        match self.send(record.name, record.fields.as_slice()) {
            Ok(dispatch) => Ok(dispatch),
            Err(e) => Err(ListenError::Parse(e)),
        }
    }

    /// Listens to a stream of which `lines` are the lines, each given as its
    /// bytes, up to the end of the stream.
    ///
    /// The lines are handled in the order in which they arrived. The first line
    /// that fails ends the listening: what was dispatched before it stands, and
    /// no later line is looked at. Listening never ends without an error; the
    /// end of the stream is one, that of a line without a separator.
    pub fn listen<'a>(&'a self, lines: &[Vec<u8>]) -> (r: (
        Vec<Option<Dispatch<'a, S>>>,
        ListenError,
    ))
        ensures
            outcomes_of(r.0@) == listened(self.registry(), line_bytes(lines@)).0,
            r.1 == listened(self.registry(), line_bytes(lines@)).1,
    {
        let ghost all = line_bytes(lines@);
        let mut dispatches: Vec<Option<Dispatch<'a, S>>> = Vec::new();
        let mut i: usize = 0;
        proof {
            assert(all.skip(0) =~= all);
            assert(outcomes_of(dispatches@) + listened(self.registry(), all).0 =~= listened(
                self.registry(),
                all,
            ).0);
        }
        while i < lines.len()
            invariant
                i <= lines.len(),
                all == line_bytes(lines@),
                outcomes_of(dispatches@) + listened(self.registry(), all.skip(i as int)).0
                    == listened(self.registry(), all).0,
                listened(self.registry(), all.skip(i as int)).1 == listened(
                    self.registry(),
                    all,
                ).1,
            decreases lines.len() - i,
        {
            let line = lines[i].clone();
            let ghost rest = all.skip(i as int);
            proof {
                assert(line@ =~= lines@[i as int]@);
                assert(rest[0] == line@);
                assert(rest.drop_first() =~= all.skip(i + 1));
            }
            match self.handle_line(line) {
                Ok(dispatch) => {
                    proof {
                        let outcome = outcome_of(
                            Ok::<Option<Dispatch<'_, S>>, EventParseError>(dispatch),
                        );
                        assert(line_outcome(self.registry(), rest[0]) == LineOutcome::Handled(
                            outcome,
                        ));
                        assert(outcomes_of(dispatches@.push(dispatch)) =~= outcomes_of(
                            dispatches@,
                        ) + seq![outcome]);
                        assert(outcomes_of(dispatches@.push(dispatch)) + listened(
                            self.registry(),
                            all.skip(i + 1),
                        ).0 =~= outcomes_of(dispatches@) + (seq![outcome] + listened(
                            self.registry(),
                            rest.drop_first(),
                        ).0));
                    }
                    dispatches.push(dispatch);
                },
                Err(e) => {
                    proof {
                        assert(line_outcome(self.registry(), rest[0]) == LineOutcome::<S>::Failed(e));
                        assert(outcomes_of(dispatches@) + Seq::<Outcome<S>>::empty()
                            =~= outcomes_of(dispatches@));
                    }
                    return (dispatches, e);
                },
            }
            i += 1;
        }
        proof {
            assert(all.skip(lines.len() as int).len() == 0);
            assert(outcomes_of(dispatches@) + Seq::<Outcome<S>>::empty() =~= outcomes_of(
                dispatches@,
            ));
        }
        (dispatches, ListenError::Parse(EventParseError::InvalidData))
    }
}

/// Fan-out is complete: after `fs` subscribed to `kind`, a record of that kind
/// with the right number of fields is delivered to the subscribers that the
/// kind had before, followed by each of `fs` exactly once, in order.
pub proof fn lemma_fan_out_is_complete<S>(
    registry: Map<EventKind, Seq<S>>,
    kind: EventKind,
    fs: Seq<S>,
    fields: Seq<Seq<char>>,
)
    requires
        fs.len() > 0,
        fields.len() == kind.arity(),
    ensures
        dispatched(registered_all(registry, kind, fs), kind.wire_name(), fields)
            == (Outcome::Delivered {
            kind,
            fields,
            subscribers: subscribers_of(registry, kind) + fs,
        }),
        !registry.dom().contains(kind) ==> subscribers_of(registry, kind) + fs == fs,
{
    lemma_registered_all(registry, kind, fs);
    crate::event::lemma_names_identify_kinds(kind, kind.wire_name());
    if !registry.dom().contains(kind) {
        assert(subscribers_of(registry, kind) + fs =~= fs);
    }
}

/// Subscribing to one kind adds to that kind only.
pub proof fn lemma_registered_all<S>(
    registry: Map<EventKind, Seq<S>>,
    kind: EventKind,
    fs: Seq<S>,
)
    ensures
        fs.len() > 0 ==> registered_all(registry, kind, fs).dom().contains(kind),
        subscribers_of(registered_all(registry, kind, fs), kind) == subscribers_of(registry, kind)
            + fs,
        forall|other: EventKind|
            other != kind ==> #[trigger] registered_all(registry, kind, fs).dom().contains(other)
                == registry.dom().contains(other),
        forall|other: EventKind|
            other != kind ==> #[trigger] subscribers_of(registered_all(registry, kind, fs), other)
                == subscribers_of(registry, other),
    decreases fs.len(),
{
    if fs.len() == 0 {
        assert(subscribers_of(registry, kind) + fs =~= subscribers_of(registry, kind));
    } else {
        let before = registered_all(registry, kind, fs.drop_last());
        lemma_registered_all(registry, kind, fs.drop_last());
        assert((subscribers_of(registry, kind) + fs.drop_last()).push(fs.last())
            =~= subscribers_of(registry, kind) + fs);
        assert forall|other: EventKind| other != kind implies #[trigger] registered_all(
            registry,
            kind,
            fs,
        ).dom().contains(other) == registry.dom().contains(other) by {
            assert(before.dom().contains(other) == registry.dom().contains(other));
        }
        assert forall|other: EventKind| other != kind implies #[trigger] subscribers_of(
            registered_all(registry, kind, fs),
            other,
        ) == subscribers_of(registry, other) by {
            assert(before.dom().contains(other) == registry.dom().contains(other));
            assert(subscribers_of(before, other) == subscribers_of(registry, other));
        }
    }
}

/// A record whose name has no subscriber is ignored, whatever its fields, and
/// so is a record whose name is not in the vocabulary.
pub proof fn lemma_unregistered_is_ignored<S>(
    registry: Map<EventKind, Seq<S>>,
    name: Seq<char>,
    fields: Seq<Seq<char>>,
)
    requires
        EventKind::of_name(name) matches Some(kind) ==> !registry.dom().contains(kind),
    ensures
        dispatched(registry, name, fields) == Outcome::<S>::Ignored,
{
}

} // verus!
