//! Values and the formatting contract that turns one value into text.

use vstd::prelude::*;
use vstd::string::StringExecFns;
use crate::text::{
    decimal, float_text, push_float, push_integer, push_quoted, quoted,
};

verus! {

/// A calendar date.
#[derive(Clone, Copy, Debug, PartialEq, Eq)]
pub struct Date {
    pub year: u16,
    pub month: u8,
    pub day: u8,
}

/// A time of day.
#[derive(Clone, Copy, Debug, PartialEq, Eq)]
pub struct Time {
    pub hour: u8,
    pub minute: u8,
    pub second: u8,
    pub nanosecond: u32,
}

/// An offset from UTC.
#[derive(Clone, Copy, Debug, PartialEq, Eq)]
pub enum Offset {
    /// UTC itself.
    Z,
    /// A distance from UTC in minutes.
    Custom { minutes: i16 },
}

/// What a `Datetime` holds.
pub ghost struct DatetimeView {
    pub date: Option<Date>,
    pub time: Option<Time>,
    pub offset: Option<Offset>,
}

/// Whether an offset can be negated in sixteen bits, which writing it needs.
pub open spec fn offset_writable(offset: Option<Offset>) -> bool {
    offset matches Some(Offset::Custom { minutes }) ==> minutes > i16::MIN
}

/// A date, a time, or both, with an optional offset. Every `Datetime` has a
/// writable offset.
#[derive(Clone, Copy, Debug, PartialEq, Eq)]
pub struct Datetime {
    date: Option<Date>,
    time: Option<Time>,
    offset: Option<Offset>,
}

impl View for Datetime {
    type V = DatetimeView;

    closed spec fn view(&self) -> DatetimeView {
        DatetimeView { date: self.date, time: self.time, offset: self.offset }
    }
}

impl Datetime {
    #[verifier::type_invariant]
    spec fn inv(self) -> bool {
        offset_writable(self.offset)
    }

    /// Builds a `Datetime`; `None` exactly when the offset is not writable.
    pub fn new(date: Option<Date>, time: Option<Time>, offset: Option<Offset>) -> (made: Option<
        Datetime,
    >)
        ensures
            made is Some <==> offset_writable(offset),
            made matches Some(dt) ==> dt@ == (DatetimeView { date, time, offset }),
    {
        let writable: bool = match offset {
            Some(Offset::Custom { minutes }) => minutes > i16::MIN,
            _ => true,
        };
        if writable {
            Some(Datetime { date, time, offset })
        } else {
            None
        }
    }

    /// The date part.
    pub fn date(&self) -> (date: Option<Date>)
        ensures
            date == self@.date,
    {
        self.date
    }

    /// The time part.
    pub fn time(&self) -> (time: Option<Time>)
        ensures
            time == self@.time,
    {
        self.time
    }

    /// The offset part.
    pub fn offset(&self) -> (offset: Option<Offset>)
        ensures
            offset == self@.offset,
            offset_writable(offset),
    {
        proof {
            use_type_invariant(self);
        }
        self.offset
    }
}

/// The canonical text of a date-time value, as `toml` writes it.
pub uninterp spec fn datetime_text(dt: DatetimeView) -> Seq<char>;

/// Trusted: `Display` of `toml::value::Datetime`, reached through `to_string`,
/// is a function of the date, time and offset alone. It negates a negative
/// custom offset, so the smallest sixteen-bit offset is kept out.
#[verifier::external_body]
fn datetime_to_text(dt: &Datetime) -> (text: String)
    requires
        offset_writable(dt@.offset),
    ensures
        text@ == datetime_text(dt@),
{
    toml::value::Datetime {
        date: dt.date.map(|d| toml::value::Date { year: d.year, month: d.month, day: d.day }),
        time: dt.time.map(|t| toml::value::Time {
            hour: t.hour,
            minute: t.minute,
            second: t.second,
            nanosecond: t.nanosecond,
        }),
        offset: dt.offset.map(|o| match o {
            Offset::Z => toml::value::Offset::Z,
            Offset::Custom { minutes } => toml::value::Offset::Custom { minutes },
        }),
    }.to_string()
}

/// A value: a scalar, an array of values, or a table of named values whose
/// entries keep the order they were given in.
#[derive(Debug, PartialEq, Eq)]
pub enum Value {
    /// A text.
    String(String),
    /// A signed integer.
    Integer(i64),
    /// A floating-point number, held as its shortest round-trip decimal
    /// representation.
    Float(String),
    /// A truth value.
    Boolean(bool),
    /// A date-time.
    Datetime(Datetime),
    /// A sequence of values.
    Array(Vec<Value>),
    /// Named values, in order.
    Table(Vec<(String, Value)>),
}

/// The mathematical content of a `Value`.
pub ghost enum ValueView {
    String(Seq<char>),
    Integer(int),
    Float(Seq<char>),
    Boolean(bool),
    Datetime(DatetimeView),
    Array(Seq<ValueView>),
    Table(Seq<(Seq<char>, ValueView)>),
}

impl View for Value {
    type V = ValueView;

    open spec fn view(&self) -> ValueView
        decreases self,
    {
        match self {
            Value::String(s) => ValueView::String(s@),
            Value::Integer(i) => ValueView::Integer(*i as int),
            Value::Float(repr) => ValueView::Float(repr@),
            Value::Boolean(b) => ValueView::Boolean(*b),
            Value::Datetime(dt) => ValueView::Datetime(dt@),
            Value::Array(items) => ValueView::Array(
                Seq::new(
                    items.len() as nat,
                    |i: int|
                        if 0 <= i < items.len() {
                            items[i]@
                        } else {
                            arbitrary()
                        },
                ),
            ),
            Value::Table(entries) => ValueView::Table(
                Seq::new(
                    entries.len() as nat,
                    |i: int|
                        if 0 <= i < entries.len() {
                            (entries[i].0@, entries[i].1@)
                        } else {
                            arbitrary()
                        },
                ),
            ),
        }
    }
}

impl Value {
    /// The view of an array holds the views of its items, in order.
    pub proof fn lemma_view_items(self)
        requires
            self is Array,
        ensures
            self@ is Array,
            self@->Array_0.len() == self->Array_0.len(),
            forall|j: int|
                0 <= j < self->Array_0.len() ==> self@->Array_0[j] == (#[trigger] self->Array_0[j])@,
    {
        reveal_with_fuel(<Value as View>::view, 2);
    }

    /// The view of a table holds the keys and the views of its values, in
    /// order.
    pub proof fn lemma_view_entries(self)
        requires
            self is Table,
        ensures
            self@ is Table,
            self@->Table_0.len() == self->Table_0.len(),
            forall|j: int|
                0 <= j < self->Table_0.len() ==> self@->Table_0[j] == (
                    (#[trigger] self->Table_0[j]).0@,
                    self->Table_0[j].1@,
                ),
    {
        reveal_with_fuel(<Value as View>::view, 2);
    }
}

/// The entries of a table as keys and views of values, in order.
pub open spec fn entries_view(entries: Vec<(String, Value)>) -> Seq<(Seq<char>, ValueView)> {
    Seq::new(entries.len() as nat, |i: int| (entries[i].0@, entries[i].1@))
}

/// The view of a value that may be absent.
pub open spec fn opt_view(value: Option<&Value>) -> Option<ValueView> {
    match value {
        Some(v) => Some(v@),
        None => None,
    }
}

impl Value {
    /// The view of a table is the table of the views of its entries.
    pub proof fn lemma_view_table(self)
        requires
            self is Table,
        ensures
            self@ == ValueView::Table(entries_view(self->Table_0)),
    {
        self.lemma_view_entries();
        assert(self@->Table_0 =~= entries_view(self->Table_0));
    }
}

/// The text of a value:
/// a text is quoted; an integer is its decimal literal; a float is its
/// representation, with `.0` added when it has no decimal point; a truth value
/// is `true` or `false`; a date-time is its canonical text; an array is its
/// items between brackets and a table its `key = value` pairs between braces,
/// both separated by a comma and a space.
pub open spec fn value_text(v: ValueView) -> Seq<char>
    decreases v, 0nat,
{
    match v {
        ValueView::String(s) => quoted(s),
        ValueView::Integer(i) => decimal(i),
        ValueView::Float(repr) => float_text(repr),
        ValueView::Boolean(b) => if b {
            "true"@
        } else {
            "false"@
        },
        ValueView::Datetime(dt) => datetime_text(dt),
        ValueView::Array(items) => seq!['['] + items_text(items, items.len()) + seq![']'],
        ValueView::Table(entries) => "{ "@ + pairs_text(entries, entries.len()) + " }"@,
    }
}

/// The first `n` items of an array, each as text, separated by `, `.
pub open spec fn items_text(items: Seq<ValueView>, n: nat) -> Seq<char>
    decreases items, n,
{
    if n == 0 || n > items.len() {
        Seq::empty()
    } else if n == 1 {
        value_text(items[0])
    } else {
        items_text(items, (n - 1) as nat) + ", "@ + value_text(items[n - 1])
    }
}

/// The first `n` entries of a table, each as `key = value`, separated by `, `.
pub open spec fn pairs_text(entries: Seq<(Seq<char>, ValueView)>, n: nat) -> Seq<char>
    decreases entries, n,
{
    if n == 0 || n > entries.len() {
        Seq::empty()
    } else if n == 1 {
        entries[0].0 + " = "@ + value_text(entries[0].1)
    } else {
        pairs_text(entries, (n - 1) as nat) + ", "@ + entries[n - 1].0 + " = "@ + value_text(
            entries[n - 1].1,
        )
    }
}

/// Appends the text of `val`.
pub(crate) fn push_value(out: &mut String, val: &Value)
    ensures
        final(out)@ == old(out)@ + value_text(val@),
    decreases val,
{
    let ghost start = out@;
    match val {
        Value::String(s) => {
            push_quoted(out, s.as_str());
        },
        Value::Integer(i) => {
            push_integer(out, *i);
        },
        Value::Float(repr) => {
            push_float(out, repr.as_str());
        },
        Value::Boolean(b) => {
            if *b {
                out.append("true");
            } else {
                out.append("false");
            }
        },
        Value::Datetime(dt) => {
            proof {
                use_type_invariant(dt);
            }
            let text = datetime_to_text(dt);
            out.append(text.as_str());
        },
        Value::Array(items) => {
            let ghost views = val@->Array_0;
            proof {
                val.lemma_view_items();
            }
            out.push('[');
            let mut i: usize = 0;
            while i < items.len()
                invariant
                    i <= items.len(),
                    decreases_to!(val => items),
                    views.len() == items.len(),
                    forall|j: int| 0 <= j < items.len() ==> views[j] == (#[trigger] items[j])@,
                    out@ == start + seq!['['] + items_text(views, i as nat),
                decreases items.len() - i,
            {
                if i > 0 {
                    out.append(", ");
                }
                push_value(out, &items[i]);
                i += 1;
            }
            out.push(']');
        },
        Value::Table(entries) => {
            let ghost views = val@->Table_0;
            proof {
                val.lemma_view_entries();
            }
            out.append("{ ");
            let mut i: usize = 0;
            while i < entries.len()
                invariant
                    i <= entries.len(),
                    decreases_to!(val => entries),
                    views.len() == entries.len(),
                    forall|j: int|
                        0 <= j < entries.len() ==> views[j] == ((#[trigger] entries[j]).0@, entries[j].1@),
                    out@ == start + "{ "@ + pairs_text(views, i as nat),
                decreases entries.len() - i,
            {
                if i > 0 {
                    out.append(", ");
                }
                out.append(entries[i].0.as_str());
                out.append(" = ");
                push_value(out, &entries[i].1);
                i += 1;
            }
            out.append(" }");
        },
    }
}

/// Formats one value as text.
pub fn fmt_value(val: &Value) -> (text: String)
    ensures
        text@ == value_text(val@),
{
    let mut out = String::new();
    push_value(&mut out, val);
    out
}

} // verus!

