//! One event of a server-to-caller stream, as the fields it is made of.
//!
//! An event is built field by field and keeps the order in which it was
//! built. What cannot be sent cannot be built: a name, an id or a comment
//! with a line break in it, an id with a NUL in it, or a second name, id,
//! retry time or data.

use crate::text::chars_of;
use vstd::prelude::*;
use vstd::string::StringExecFns;

verus! {

/// One field of an event.
#[derive(Debug, Clone, PartialEq, Eq)]
pub enum Field {
    /// The name of the event.
    Event(String),
    /// The data of the event.
    Data(String),
    /// The id of the event.
    Id(String),
    /// The time after which to reconnect, in milliseconds.
    Retry(u64),
    /// A comment, which readers pass over.
    Comment(String),
}

/// What a field holds, with its text as characters.
pub enum FieldModel {
    Event(Seq<char>),
    Data(Seq<char>),
    Id(Seq<char>),
    Retry(u64),
    Comment(Seq<char>),
}

impl View for Field {
    type V = FieldModel;

    open spec fn view(&self) -> FieldModel {
        match *self {
            Field::Event(name) => FieldModel::Event(name@),
            Field::Data(data) => FieldModel::Data(data@),
            Field::Id(id) => FieldModel::Id(id@),
            Field::Retry(millis) => FieldModel::Retry(millis),
            Field::Comment(text) => FieldModel::Comment(text@),
        }
    }
}

/// The kind of a field.
#[derive(Debug, Clone, Copy, PartialEq, Eq, Structural)]
pub enum FieldKind {
    Event,
    Data,
    Id,
    Retry,
    Comment,
}

impl FieldModel {
    /// The kind of this field.
    pub open spec fn kind(self) -> FieldKind {
        match self {
            FieldModel::Event(_) => FieldKind::Event,
            FieldModel::Data(_) => FieldKind::Data,
            FieldModel::Id(_) => FieldKind::Id,
            FieldModel::Retry(_) => FieldKind::Retry,
            FieldModel::Comment(_) => FieldKind::Comment,
        }
    }
}

/// Whether one of `fields` is of the kind `kind`.
pub open spec fn has_kind(fields: Seq<FieldModel>, kind: FieldKind) -> bool {
    exists|i: int| 0 <= i < fields.len() && (#[trigger] fields[i]).kind() == kind
}

/// Whether at most one of `fields` is of the kind `kind`.
pub open spec fn at_most_one(fields: Seq<FieldModel>, kind: FieldKind) -> bool {
    forall|i: int, j: int|
        0 <= i < j < fields.len() ==> !((#[trigger] fields[i]).kind() == kind && (
        #[trigger] fields[j]).kind() == kind)
}

/// Whether `fields` can be sent as one event: each field can be sent, and
/// there is one name, one data field, one id and one retry time at most.
pub open spec fn is_sendable(fields: Seq<FieldModel>) -> bool {
    &&& forall|i: int| 0 <= i < fields.len() ==> field_is_sendable(#[trigger] fields[i])
    &&& at_most_one(fields, FieldKind::Event)
    &&& at_most_one(fields, FieldKind::Data)
    &&& at_most_one(fields, FieldKind::Id)
    &&& at_most_one(fields, FieldKind::Retry)
}

/// Whether `text` holds no line break.
pub open spec fn is_single_line(text: Seq<char>) -> bool {
    forall|i: int| 0 <= i < text.len() ==> #[trigger] text[i] != '\n' && text[i] != '\r'
}

/// Whether `text` can be an id: it holds no line break and no NUL.
pub open spec fn is_id(text: Seq<char>) -> bool {
    forall|i: int|
        0 <= i < text.len() ==> #[trigger] text[i] != '\n' && text[i] != '\r' && text[i] != '\0'
}

/// Whether a field can be sent.
pub open spec fn field_is_sendable(field: FieldModel) -> bool {
    match field {
        FieldModel::Event(name) => is_single_line(name),
        FieldModel::Id(id) => is_id(id),
        FieldModel::Comment(text) => is_single_line(text),
        _ => true,
    }
}

/// What the fields of an event hold, in order.
pub open spec fn field_models(fields: Seq<Field>) -> Seq<FieldModel> {
    fields.map_values(|field: Field| field@)
}

/// Whether `text` holds no line break.
pub fn single_line(text: &str) -> (single: bool)
    ensures
        single == is_single_line(text@),
{
    let chars = chars_of(text);
    let mut i: usize = 0;
    while i < chars.len()
        invariant
            i <= chars.len(),
            chars@ == text@,
            forall|j: int| 0 <= j < i ==> #[trigger] chars@[j] != '\n' && chars@[j] != '\r',
        decreases chars.len() - i,
    {
        if chars[i] == '\n' || chars[i] == '\r' {
            assert(text@[i as int] == '\n' || text@[i as int] == '\r');
            return false;
        }
        i = i + 1;
    }
    true
}

/// Whether `text` can be an id.
pub fn valid_id(text: &str) -> (valid: bool)
    ensures
        valid == is_id(text@),
{
    let chars = chars_of(text);
    let mut i: usize = 0;
    while i < chars.len()
        invariant
            i <= chars.len(),
            chars@ == text@,
            forall|j: int|
                0 <= j < i ==> #[trigger] chars@[j] != '\n' && chars@[j] != '\r' && chars@[j]
                    != '\0',
        decreases chars.len() - i,
    {
        if chars[i] == '\n' || chars[i] == '\r' || chars[i] == '\0' {
            assert(text@[i as int] == '\n' || text@[i as int] == '\r' || text@[i as int] == '\0');
            return false;
        }
        i = i + 1;
    }
    true
}

/// An event of a server-to-caller stream.
#[derive(Debug, PartialEq, Eq)]
pub struct Event {
    fields: Vec<Field>,
    named: bool,
    filled: bool,
    identified: bool,
    timed: bool,
}

impl Event {
    #[verifier::type_invariant]
    spec fn well_formed(self) -> bool {
        let fields = field_models(self.fields@);
        &&& is_sendable(fields)
        &&& self.named == has_kind(fields, FieldKind::Event)
        &&& self.filled == has_kind(fields, FieldKind::Data)
        &&& self.identified == has_kind(fields, FieldKind::Id)
        &&& self.timed == has_kind(fields, FieldKind::Retry)
    }

    /// The fields of the event, in the order in which they were set.
    pub closed spec fn spec_fields(self) -> Seq<FieldModel> {
        field_models(self.fields@)
    }

    /// Whether the event has a name.
    pub closed spec fn spec_has_event(self) -> bool {
        self.named
    }

    /// Whether the event has data.
    pub closed spec fn spec_has_data(self) -> bool {
        self.filled
    }

    /// Whether the event has an id.
    pub closed spec fn spec_has_id(self) -> bool {
        self.identified
    }

    /// Whether the event has a retry time.
    pub closed spec fn spec_has_retry(self) -> bool {
        self.timed
    }

    /// Whether `after` is `before` with `field` set last and nothing else
    /// changed but what tells that such a field is set.
    pub open spec fn extends(after: Event, before: Event, field: FieldModel) -> bool {
        &&& after.spec_fields() == before.spec_fields().push(field)
        &&& after.spec_has_event() == (before.spec_has_event() || field is Event)
        &&& after.spec_has_data() == (before.spec_has_data() || field is Data)
        &&& after.spec_has_id() == (before.spec_has_id() || field is Id)
        &&& after.spec_has_retry() == (before.spec_has_retry() || field is Retry)
    }

    /// An event without fields.
    pub fn new() -> (event: Self)
        ensures
            event.spec_fields() == Seq::<FieldModel>::empty(),
            !event.spec_has_event(),
            !event.spec_has_data(),
            !event.spec_has_id(),
            !event.spec_has_retry(),
    {
        let fields: Vec<Field> = Vec::new();
        assert(field_models(fields@) =~= Seq::empty());
        Event { fields, named: false, filled: false, identified: false, timed: false }
    }

    /// The event with `field` set last.
    fn with(self, field: Field) -> (event: Self)
        requires
            field_is_sendable(field@),
            field@ is Event ==> !self.spec_has_event(),
            field@ is Data ==> !self.spec_has_data(),
            field@ is Id ==> !self.spec_has_id(),
            field@ is Retry ==> !self.spec_has_retry(),
        ensures
            Self::extends(event, self, field@),
    {
        proof {
            use_type_invariant(&self);
        }
        let named = self.named || matches!(field, Field::Event(_));
        let filled = self.filled || matches!(field, Field::Data(_));
        let identified = self.identified || matches!(field, Field::Id(_));
        let timed = self.timed || matches!(field, Field::Retry(_));
        let mut fields = self.fields;
        let ghost before = field_models(fields@);
        fields.push(field);
        proof {
            let after = field_models(fields@);
            assert(after =~= before.push(field@));
            lemma_push_keeps_shape(before, field@, FieldKind::Event);
            lemma_push_keeps_shape(before, field@, FieldKind::Data);
            lemma_push_keeps_shape(before, field@, FieldKind::Id);
            lemma_push_keeps_shape(before, field@, FieldKind::Retry);
        }
        Event { fields, named, filled, identified, timed }
    }

    /// Sets the data of the event. An event takes data once.
    pub fn data(self, data: &str) -> (event: Self)
        requires
            !self.spec_has_data(),
        ensures
            Self::extends(event, self, FieldModel::Data(data@)),
    {
        self.with(Field::Data(String::from_str(data)))
    }

    /// Sets the data of the event to a value that was encoded as JSON, or
    /// hands on the error of the encoding. An event takes data once.
    pub fn json_data<E>(self, encoded: Result<String, E>) -> (event: Result<Self, E>)
        requires
            !self.spec_has_data(),
        ensures
            match (encoded, event) {
                (Ok(json), Ok(set)) => Self::extends(set, self, FieldModel::Data(json@)),
                (Err(error), Err(handed)) => handed == error,
                _ => false,
            },
    {
        match encoded {
            Ok(json) => Ok(self.with(Field::Data(json))),
            Err(error) => Err(error),
        }
    }

    /// Sets the name of the event, by which readers tell events apart. An
    /// event takes a name once, and the name holds no line break.
    pub fn event(self, name: &str) -> (event: Self)
        requires
            !self.spec_has_event(),
            is_single_line(name@),
        ensures
            Self::extends(event, self, FieldModel::Event(name@)),
    {
        self.with(Field::Event(String::from_str(name)))
    }

    /// Sets the id of the event, from which a reader resumes a stream. An
    /// event takes an id once, and the id holds no line break and no NUL.
    pub fn id(self, id: &str) -> (event: Self)
        requires
            !self.spec_has_id(),
            is_id(id@),
        ensures
            Self::extends(event, self, FieldModel::Id(id@)),
    {
        self.with(Field::Id(String::from_str(id)))
    }

    /// Sets the time after which a reader reconnects, in milliseconds. An
    /// event takes it once.
    pub fn retry(self, millis: u64) -> (event: Self)
        requires
            !self.spec_has_retry(),
        ensures
            Self::extends(event, self, FieldModel::Retry(millis)),
    {
        self.with(Field::Retry(millis))
    }

    /// Adds a comment, which holds no line break. An event takes any number
    /// of comments.
    pub fn comment(self, text: &str) -> (event: Self)
        requires
            is_single_line(text@),
        ensures
            Self::extends(event, self, FieldModel::Comment(text@)),
    {
        self.with(Field::Comment(String::from_str(text)))
    }

    /// Whether the event has a name.
    pub fn has_event(&self) -> (named: bool)
        ensures
            named == self.spec_has_event(),
    {
        self.named
    }

    /// Whether the event has data.
    pub fn has_data(&self) -> (filled: bool)
        ensures
            filled == self.spec_has_data(),
    {
        self.filled
    }

    /// Whether the event has an id.
    pub fn has_id(&self) -> (identified: bool)
        ensures
            identified == self.spec_has_id(),
    {
        self.identified
    }

    /// Whether the event has a retry time.
    pub fn has_retry(&self) -> (timed: bool)
        ensures
            timed == self.spec_has_retry(),
    {
        self.timed
    }

    /// The fields of the event, in the order in which they were set. Each
    /// can be sent: names, ids and comments hold no line break, ids no NUL;
    /// and there is one name, one id, one retry time and one data field at
    /// most.
    pub fn fields(&self) -> (fields: &Vec<Field>)
        ensures
            field_models(fields@) == self.spec_fields(),
            is_sendable(self.spec_fields()),
            self.spec_has_event() == has_kind(self.spec_fields(), FieldKind::Event),
            self.spec_has_data() == has_kind(self.spec_fields(), FieldKind::Data),
            self.spec_has_id() == has_kind(self.spec_fields(), FieldKind::Id),
            self.spec_has_retry() == has_kind(self.spec_fields(), FieldKind::Retry),
    {
        proof {
            use_type_invariant(self);
        }
        &self.fields
    }
}

/// A field set last leaves the fields before it as they are: a kind is
/// among the fields afterwards if it was before or is the kind of the new
/// field, and stays single if the new field is of another kind or the first
/// of its own.
pub proof fn lemma_push_keeps_shape(before: Seq<FieldModel>, field: FieldModel, kind: FieldKind)
    ensures
        has_kind(before.push(field), kind) == (has_kind(before, kind) || field.kind() == kind),
        at_most_one(before, kind) && !(field.kind() == kind && has_kind(before, kind))
            ==> at_most_one(before.push(field), kind),
        (forall|i: int| 0 <= i < before.len() ==> field_is_sendable(#[trigger] before[i]))
            && field_is_sendable(field) ==> (forall|i: int|
            0 <= i < before.push(field).len() ==> field_is_sendable(
                #[trigger] before.push(field)[i],
            )),
{
    let after = before.push(field);
    assert(after[before.len() as int] == field);
    assert forall|i: int| 0 <= i < before.len() implies #[trigger] after[i] == before[i] by {}
    if has_kind(before, kind) {
        let k = choose|i: int| 0 <= i < before.len() && (#[trigger] before[i]).kind() == kind;
        assert(after[k].kind() == kind);
    }
    if has_kind(after, kind) && field.kind() != kind {
        let k = choose|i: int| 0 <= i < after.len() && (#[trigger] after[i]).kind() == kind;
        assert(before[k].kind() == kind);
    }
    if at_most_one(before, kind) && !(field.kind() == kind && has_kind(before, kind)) {
        assert forall|i: int, j: int| 0 <= i < j < after.len() implies !((#[trigger] after[i]).kind()
            == kind && (#[trigger] after[j]).kind() == kind) by {
            if j < before.len() {
                assert(before[i].kind() == after[i].kind());
                assert(before[j].kind() == after[j].kind());
            } else if after[i].kind() == kind && field.kind() == kind {
                assert(before[i].kind() == kind);
            }
        }
    }
}

impl Clone for Event {
    fn clone(&self) -> (copy: Self)
        ensures
            copy.spec_fields() == self.spec_fields(),
            copy.spec_has_event() == self.spec_has_event(),
            copy.spec_has_data() == self.spec_has_data(),
            copy.spec_has_id() == self.spec_has_id(),
            copy.spec_has_retry() == self.spec_has_retry(),
    {
        proof {
            use_type_invariant(self);
        }
        let mut fields: Vec<Field> = Vec::new();
        let mut i: usize = 0;
        while i < self.fields.len()
            invariant
                i <= self.fields.len(),
                field_models(fields@) == field_models(self.fields@).take(i as int),
            decreases self.fields.len() - i,
        {
            let field = match &self.fields[i] {
                Field::Event(name) => Field::Event(name.clone()),
                Field::Data(data) => Field::Data(data.clone()),
                Field::Id(id) => Field::Id(id.clone()),
                Field::Retry(millis) => Field::Retry(*millis),
                Field::Comment(text) => Field::Comment(text.clone()),
            };
            let ghost before = fields@;
            fields.push(field);
            proof {
                assert(field_models(fields@) =~= field_models(before).push(field@));
                assert(field_models(self.fields@).take(i + 1) =~= field_models(self.fields@).take(
                    i as int,
                ).push(self.fields@[i as int]@));
            }
            i = i + 1;
        }
        proof {
            assert(field_models(self.fields@).take(self.fields.len() as int) =~= field_models(
                self.fields@,
            ));
        }
        Event {
            fields,
            named: self.named,
            filled: self.filled,
            identified: self.identified,
            timed: self.timed,
        }
    }
}

impl Default for Event {
    fn default() -> (event: Self)
        ensures
            event.spec_fields() == Seq::<FieldModel>::empty(),
            !event.spec_has_event(),
            !event.spec_has_data(),
            !event.spec_has_id(),
            !event.spec_has_retry(),
    {
        Event::new()
    }
}

} // verus!
