//! The vocabulary of compositor events: the closed set of event kinds, the
//! payload of each, and the strict parser from raw fields to a payload.
//!
//! Every kind has a wire name and a fixed, ordered list of fields. A record
//! parses only when it carries exactly as many raw fields as its kind declares.

use crate::text::{equal, views};
use vstd::prelude::*;

verus! {

/// Why the raw fields of a record were rejected.
#[derive(Debug, Clone, Copy, PartialEq, Eq)]
pub enum EventParseError {
    /// The record does not have the shape of its kind: wrong number of fields,
    /// or no separator between name and payload.
    InvalidData,
    /// The raw fields ran out before the named field.
    MissingField(&'static str),
    /// The named field could not be converted to its declared type.
    ParseFailed(&'static str),
}

impl EventParseError {
    /// The text of the error message.
    pub open spec fn message(self) -> Seq<char> {
        match self {
            EventParseError::InvalidData => "Event had invalid data or format"@,
            EventParseError::MissingField(name) => "Missing field: "@ + name@,
            EventParseError::ParseFailed(name) => "Failed to parse field: "@ + name@,
        }
    }

    /// Renders the error for a log line.
    pub fn to_string(&self) -> (text: String)
        ensures
            text@ == self.message(),
    {
        match self {
            EventParseError::InvalidData => "Event had invalid data or format".to_owned(),
            EventParseError::MissingField(name) => "Missing field: ".to_owned().concat(name),
            EventParseError::ParseFailed(name) => "Failed to parse field: ".to_owned().concat(name),
        }
    }
}

/// The kinds of event that the compositor announces and this library parses.
#[derive(Debug, Clone, Copy, PartialEq, Eq, Structural)]
pub enum EventKind {
    Workspace,
    ActiveWindow,
    OpenWindow,
    CloseWindow,
    MoveWindow,
}

impl EventKind {
    /// The name that precedes the payload on the wire.
    pub open spec fn wire_name(self) -> Seq<char> {
        match self {
            EventKind::Workspace => "workspace"@,
            EventKind::ActiveWindow => "activewindow"@,
            EventKind::OpenWindow => "openwindow"@,
            EventKind::CloseWindow => "closewindow"@,
            EventKind::MoveWindow => "movewindow"@,
        }
    }

    /// How many fields a record of this kind carries.
    pub open spec fn arity(self) -> nat {
        match self {
            EventKind::Workspace => 1,
            EventKind::ActiveWindow => 2,
            EventKind::OpenWindow => 4,
            EventKind::CloseWindow => 1,
            EventKind::MoveWindow => 2,
        }
    }

    /// The names of the fields, in wire order.
    pub open spec fn field_names(self) -> Seq<Seq<char>> {
        match self {
            EventKind::Workspace => seq!["name"@],
            EventKind::ActiveWindow => seq!["class"@, "title"@],
            EventKind::OpenWindow => seq!["address"@, "name"@, "class"@, "title"@],
            EventKind::CloseWindow => seq!["address"@],
            EventKind::MoveWindow => seq!["address"@, "workspace"@],
        }
    }

    /// The kind announced under `name`, if any. Names are matched exactly.
    pub open spec fn of_name(name: Seq<char>) -> Option<EventKind> {
        if name == "workspace"@ {
            Some(EventKind::Workspace)
        } else if name == "activewindow"@ {
            Some(EventKind::ActiveWindow)
        } else if name == "openwindow"@ {
            Some(EventKind::OpenWindow)
        } else if name == "closewindow"@ {
            Some(EventKind::CloseWindow)
        } else if name == "movewindow"@ {
            Some(EventKind::MoveWindow)
        } else {
            None
        }
    }

    /// A small number that identifies the kind: its position in the vocabulary.
    pub open spec fn index(self) -> u8 {
        match self {
            EventKind::Workspace => 0,
            EventKind::ActiveWindow => 1,
            EventKind::OpenWindow => 2,
            EventKind::CloseWindow => 3,
            EventKind::MoveWindow => 4,
        }
    }

    /// The name that precedes the payload on the wire.
    pub fn name(self) -> (name: &'static str)
        ensures
            name@ == self.wire_name(),
    {
        match self {
            EventKind::Workspace => "workspace",
            EventKind::ActiveWindow => "activewindow",
            EventKind::OpenWindow => "openwindow",
            EventKind::CloseWindow => "closewindow",
            EventKind::MoveWindow => "movewindow",
        }
    }

    /// How many fields a record of this kind carries.
    pub fn field_count(self) -> (n: usize)
        ensures
            n == self.arity(),
    {
        match self {
            EventKind::Workspace => 1,
            EventKind::ActiveWindow => 2,
            EventKind::OpenWindow => 4,
            EventKind::CloseWindow => 1,
            EventKind::MoveWindow => 2,
        }
    }

    /// The name of the field at position `index`.
    pub fn field_name(self, index: usize) -> (name: &'static str)
        requires
            index < self.arity(),
        ensures
            name@ == self.field_names()[index as int],
    {
        match self {
            EventKind::Workspace => "name",
            EventKind::ActiveWindow => if index == 0 {
                "class"
            } else {
                "title"
            },
            EventKind::OpenWindow => if index == 0 {
                "address"
            } else if index == 1 {
                "name"
            } else if index == 2 {
                "class"
            } else {
                "title"
            },
            EventKind::CloseWindow => "address",
            EventKind::MoveWindow => if index == 0 {
                "address"
            } else {
                "workspace"
            },
        }
    }

    /// The position of the kind in the vocabulary.
    pub fn id(self) -> (i: u8)
        ensures
            i == self.index(),
    {
        match self {
            EventKind::Workspace => 0,
            EventKind::ActiveWindow => 1,
            EventKind::OpenWindow => 2,
            EventKind::CloseWindow => 3,
            EventKind::MoveWindow => 4,
        }
    }

    /// Looks a wire name up in the vocabulary.
    pub fn from_name(name: &str) -> (kind: Option<EventKind>)
        ensures
            kind == EventKind::of_name(name@),
    {
        if equal(name, "workspace") {
            Some(EventKind::Workspace)
        } else if equal(name, "activewindow") {
            Some(EventKind::ActiveWindow)
        } else if equal(name, "openwindow") {
            Some(EventKind::OpenWindow)
        } else if equal(name, "closewindow") {
            Some(EventKind::CloseWindow)
        } else if equal(name, "movewindow") {
            Some(EventKind::MoveWindow)
        } else {
            None
        }
    }

    /// Parses the raw fields of a record of this kind into its payload.
    pub fn parse(self, elements: &[&str]) -> (r: Result<EventData, EventParseError>)
        ensures
            r is Ok <==> elements@.len() == self.arity(),
            r is Err ==> r->Err_0 == EventParseError::InvalidData,
            r is Ok ==> r->Ok_0.kind() == self && r->Ok_0.fields() == views(elements@),
    {
        match self {
            EventKind::Workspace => match Workspace::parse_data(elements) {
                Ok(data) => Ok(EventData::Workspace(data)),
                Err(e) => Err(e),
            },
            EventKind::ActiveWindow => match ActiveWindow::parse_data(elements) {
                Ok(data) => Ok(EventData::ActiveWindow(data)),
                Err(e) => Err(e),
            },
            EventKind::OpenWindow => match OpenWindow::parse_data(elements) {
                Ok(data) => Ok(EventData::OpenWindow(data)),
                Err(e) => Err(e),
            },
            EventKind::CloseWindow => match CloseWindow::parse_data(elements) {
                Ok(data) => Ok(EventData::CloseWindow(data)),
                Err(e) => Err(e),
            },
            EventKind::MoveWindow => match MoveWindow::parse_data(elements) {
                Ok(data) => Ok(EventData::MoveWindow(data)),
                Err(e) => Err(e),
            },
        }
    }
}

/// What parsing the raw fields `elements` as a record of `kind` yields: the
/// fields themselves when their number is the arity of the kind, and
/// `InvalidData` for any other number.
pub open spec fn parsed(kind: EventKind, elements: Seq<Seq<char>>) -> Result<
    Seq<Seq<char>>,
    EventParseError,
> {
    if elements.len() == kind.arity() {
        Ok(elements)
    } else {
        Err(EventParseError::InvalidData)
    }
}

/// Every kind is found again under its own wire name, and under no other.
pub proof fn lemma_names_identify_kinds(kind: EventKind, name: Seq<char>)
    ensures
        EventKind::of_name(kind.wire_name()) == Some(kind),
        EventKind::of_name(name) == Some(kind) <==> name == kind.wire_name(),
{
    reveal_strlit("workspace");
    reveal_strlit("activewindow");
    reveal_strlit("openwindow");
    reveal_strlit("closewindow");
    reveal_strlit("movewindow");
    assert("activewindow"@[0] != "openwindow"@[0]);
    assert("closewindow"@[0] != "movewindow"@[0]);
    assert("openwindow"@[0] != "movewindow"@[0]);
}

/// A record with one field too few or one too many never parses.
pub proof fn lemma_arity_is_enforced(kind: EventKind, elements: Seq<Seq<char>>)
    requires
        elements.len() + 1 == kind.arity() || elements.len() == kind.arity() + 1,
    ensures
        parsed(kind, elements) == Err::<Seq<Seq<char>>, EventParseError>(
            EventParseError::InvalidData,
        ),
{
}

/// The field at position `index` of a record, as an owned string. The fields
/// running out before `index` is reported under the name of the field.
pub fn field(elements: &[&str], index: usize, name: &'static str) -> (r: Result<
    String,
    EventParseError,
>)
    ensures
        match r {
            Ok(value) => index < elements@.len() && value@ == elements@[index as int]@,
            Err(e) => index >= elements@.len() && e == EventParseError::MissingField(name),
        },
{
    if index < elements.len() {
        Ok(elements[index].to_owned())
    } else {
        Err(EventParseError::MissingField(name))
    }
}

/// An event kind: its wire name, the type of its payload and the parser of
/// that payload.
pub trait Event: Sized {
    /// The name under which the compositor announces the event.
    const NAME: &'static str;

    /// The payload of the event.
    type Data;

    /// The place of this event in the vocabulary.
    spec fn kind() -> EventKind;

    /// The field values of a payload, in wire order.
    spec fn fields_of(data: &Self::Data) -> Seq<Seq<char>>;

    /// `NAME` is the wire name of the kind.
    proof fn lemma_name()
        ensures
            Self::NAME@ == Self::kind().wire_name(),
    ;

    /// The place of this event in the vocabulary.
    fn event_kind() -> (k: EventKind)
        ensures
            k == Self::kind(),
    ;

    /// Parses the raw fields of one record. The number of fields must be the
    /// arity of the kind; each field is then taken positionally.
    fn parse_data(elements: &[&str]) -> (r: Result<Self::Data, EventParseError>)
        ensures
            r is Ok <==> elements@.len() == Self::kind().arity(),
            r is Err ==> r->Err_0 == EventParseError::InvalidData,
            r is Ok ==> Self::fields_of(&r->Ok_0) == views(elements@),
    ;
}

/// Payload of [`Workspace`]: the workspace that became active.
#[derive(Debug, Clone, PartialEq, Eq)]
pub struct WorkspaceData {
    pub name: String,
}

/// Payload of [`ActiveWindow`]: the window that received focus.
#[derive(Debug, Clone, PartialEq, Eq)]
pub struct ActiveWindowData {
    pub class: String,
    pub title: String,
}

/// Payload of [`OpenWindow`]: a window that was mapped.
#[derive(Debug, Clone, PartialEq, Eq)]
pub struct OpenWindowData {
    pub address: String,
    pub name: String,
    pub class: String,
    pub title: String,
}

/// Payload of [`CloseWindow`]: a window that was unmapped.
#[derive(Debug, Clone, PartialEq, Eq)]
pub struct CloseWindowData {
    pub address: String,
}

/// Payload of [`MoveWindow`]: a window that changed workspace.
#[derive(Debug, Clone, PartialEq, Eq)]
pub struct MoveWindowData {
    pub address: String,
    pub workspace: String,
}

/// The active workspace changed.
pub struct Workspace;

/// The focused window changed.
pub struct ActiveWindow;

/// A window was opened.
pub struct OpenWindow;

/// A window was closed.
pub struct CloseWindow;

/// A window was moved to another workspace.
pub struct MoveWindow;

impl Event for Workspace {
    const NAME: &'static str = "workspace";

    type Data = WorkspaceData;

    open spec fn kind() -> EventKind {
        EventKind::Workspace
    }

    open spec fn fields_of(data: &WorkspaceData) -> Seq<Seq<char>> {
        seq![data.name@]
    }

    proof fn lemma_name() {
    }

    fn event_kind() -> (k: EventKind) {
        EventKind::Workspace
    }

    fn parse_data(elements: &[&str]) -> (r: Result<WorkspaceData, EventParseError>) {
        if elements.len() != 1 {
            return Err(EventParseError::InvalidData);
        }
        let name = match field(elements, 0, EventKind::Workspace.field_name(0)) {
            Ok(value) => value,
            Err(e) => {
                return Err(e);
            },
        };
        let data = WorkspaceData { name };
        assert(Self::fields_of(&data) =~= views(elements@));
        Ok(data)
    }
}

impl Event for ActiveWindow {
    const NAME: &'static str = "activewindow";

    type Data = ActiveWindowData;

    open spec fn kind() -> EventKind {
        EventKind::ActiveWindow
    }

    open spec fn fields_of(data: &ActiveWindowData) -> Seq<Seq<char>> {
        seq![data.class@, data.title@]
    }

    proof fn lemma_name() {
    }

    fn event_kind() -> (k: EventKind) {
        EventKind::ActiveWindow
    }

    fn parse_data(elements: &[&str]) -> (r: Result<ActiveWindowData, EventParseError>) {
        if elements.len() != 2 {
            return Err(EventParseError::InvalidData);
        }
        let class = match field(elements, 0, EventKind::ActiveWindow.field_name(0)) {
            Ok(value) => value,
            Err(e) => {
                return Err(e);
            },
        };
        let title = match field(elements, 1, EventKind::ActiveWindow.field_name(1)) {
            Ok(value) => value,
            Err(e) => {
                return Err(e);
            },
        };
        let data = ActiveWindowData { class, title };
        assert(Self::fields_of(&data) =~= views(elements@));
        Ok(data)
    }
}

impl Event for OpenWindow {
    const NAME: &'static str = "openwindow";

    type Data = OpenWindowData;

    open spec fn kind() -> EventKind {
        EventKind::OpenWindow
    }

    open spec fn fields_of(data: &OpenWindowData) -> Seq<Seq<char>> {
        seq![data.address@, data.name@, data.class@, data.title@]
    }

    proof fn lemma_name() {
    }

    fn event_kind() -> (k: EventKind) {
        EventKind::OpenWindow
    }

    fn parse_data(elements: &[&str]) -> (r: Result<OpenWindowData, EventParseError>) {
        if elements.len() != 4 {
            return Err(EventParseError::InvalidData);
        }
        let address = match field(elements, 0, EventKind::OpenWindow.field_name(0)) {
            Ok(value) => value,
            Err(e) => {
                return Err(e);
            },
        };
        let name = match field(elements, 1, EventKind::OpenWindow.field_name(1)) {
            Ok(value) => value,
            Err(e) => {
                return Err(e);
            },
        };
        let class = match field(elements, 2, EventKind::OpenWindow.field_name(2)) {
            Ok(value) => value,
            Err(e) => {
                return Err(e);
            },
        };
        let title = match field(elements, 3, EventKind::OpenWindow.field_name(3)) {
            Ok(value) => value,
            Err(e) => {
                return Err(e);
            },
        };
        let data = OpenWindowData { address, name, class, title };
        assert(Self::fields_of(&data) =~= views(elements@));
        Ok(data)
    }
}

impl Event for CloseWindow {
    const NAME: &'static str = "closewindow";

    type Data = CloseWindowData;

    open spec fn kind() -> EventKind {
        EventKind::CloseWindow
    }

    open spec fn fields_of(data: &CloseWindowData) -> Seq<Seq<char>> {
        seq![data.address@]
    }

    proof fn lemma_name() {
    }

    fn event_kind() -> (k: EventKind) {
        EventKind::CloseWindow
    }

    fn parse_data(elements: &[&str]) -> (r: Result<CloseWindowData, EventParseError>) {
        if elements.len() != 1 {
            return Err(EventParseError::InvalidData);
        }
        let address = match field(elements, 0, EventKind::CloseWindow.field_name(0)) {
            Ok(value) => value,
            Err(e) => {
                return Err(e);
            },
        };
        let data = CloseWindowData { address };
        assert(Self::fields_of(&data) =~= views(elements@));
        Ok(data)
    }
}

impl Event for MoveWindow {
    const NAME: &'static str = "movewindow";

    type Data = MoveWindowData;

    open spec fn kind() -> EventKind {
        EventKind::MoveWindow
    }

    open spec fn fields_of(data: &MoveWindowData) -> Seq<Seq<char>> {
        seq![data.address@, data.workspace@]
    }

    proof fn lemma_name() {
    }

    fn event_kind() -> (k: EventKind) {
        EventKind::MoveWindow
    }

    fn parse_data(elements: &[&str]) -> (r: Result<MoveWindowData, EventParseError>) {
        if elements.len() != 2 {
            return Err(EventParseError::InvalidData);
        }
        let address = match field(elements, 0, EventKind::MoveWindow.field_name(0)) {
            Ok(value) => value,
            Err(e) => {
                return Err(e);
            },
        };
        let workspace = match field(elements, 1, EventKind::MoveWindow.field_name(1)) {
            Ok(value) => value,
            Err(e) => {
                return Err(e);
            },
        };
        let data = MoveWindowData { address, workspace };
        assert(Self::fields_of(&data) =~= views(elements@));
        Ok(data)
    }
}

/// A parsed payload of any kind: what a subscriber is handed.
#[derive(Debug, Clone, PartialEq, Eq)]
pub enum EventData {
    Workspace(WorkspaceData),
    ActiveWindow(ActiveWindowData),
    OpenWindow(OpenWindowData),
    CloseWindow(CloseWindowData),
    MoveWindow(MoveWindowData),
}

impl EventData {
    /// The kind of event that the payload belongs to.
    pub open spec fn kind(&self) -> EventKind {
        match self {
            EventData::Workspace(_) => EventKind::Workspace,
            EventData::ActiveWindow(_) => EventKind::ActiveWindow,
            EventData::OpenWindow(_) => EventKind::OpenWindow,
            EventData::CloseWindow(_) => EventKind::CloseWindow,
            EventData::MoveWindow(_) => EventKind::MoveWindow,
        }
    }

    /// The field values of the payload, in wire order.
    pub open spec fn fields(&self) -> Seq<Seq<char>> {
        match self {
            EventData::Workspace(data) => Workspace::fields_of(data),
            EventData::ActiveWindow(data) => ActiveWindow::fields_of(data),
            EventData::OpenWindow(data) => OpenWindow::fields_of(data),
            EventData::CloseWindow(data) => CloseWindow::fields_of(data),
            EventData::MoveWindow(data) => MoveWindow::fields_of(data),
        }
    }

    /// The kind of event that the payload belongs to.
    pub fn event_kind(&self) -> (k: EventKind)
        ensures
            k == self.kind(),
    {
        match self {
            EventData::Workspace(_) => EventKind::Workspace,
            EventData::ActiveWindow(_) => EventKind::ActiveWindow,
            EventData::OpenWindow(_) => EventKind::OpenWindow,
            EventData::CloseWindow(_) => EventKind::CloseWindow,
            EventData::MoveWindow(_) => EventKind::MoveWindow,
        }
    }
}

} // verus!
