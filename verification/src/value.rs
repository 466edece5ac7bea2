//! The library's own model of one cell value, and of a whole result set.
//!
//! A row is an ordered sequence of [`Value`]s sharing one column schema.
//! Temporal values are held as plain calendar/clock fields; numeric values
//! that the database reports as floating point or arbitrary-precision
//! decimal are held as their decimal text (and, where one exists, the
//! floating-point token used by the numeric output formats), since the
//! renderers only ever read those representations. A JSON cell is held as
//! its serialized text and passed through.

use vstd::prelude::*;
use vstd::string::*;

use crate::fields::{Field, FieldV, KindV};
use crate::strutil::{dec_padded, push_char, u64_to_dec_padded};

verus! {

/// A calendar date.
#[derive(Clone, Copy, Debug, PartialEq, Eq)]
pub struct Date {
    pub year: u16,
    pub month: u8,
    pub day: u8,
}

/// Spec-level mirror of [`Date`].
pub struct DateV {
    pub year: int,
    pub month: int,
    pub day: int,
}

impl View for Date {
    type V = DateV;

    open spec fn view(&self) -> DateV {
        DateV { year: self.year as int, month: self.month as int, day: self.day as int }
    }
}

/// A time of day, to whole seconds.
#[derive(Clone, Copy, Debug, PartialEq, Eq)]
pub struct Time {
    pub hour: u8,
    pub minute: u8,
    pub second: u8,
}

/// Spec-level mirror of [`Time`].
pub struct TimeV {
    pub hour: int,
    pub minute: int,
    pub second: int,
}

impl View for Time {
    type V = TimeV;

    open spec fn view(&self) -> TimeV {
        TimeV { hour: self.hour as int, minute: self.minute as int, second: self.second as int }
    }
}

/// A timezone-naive datetime.
#[derive(Clone, Copy, Debug, PartialEq, Eq)]
pub struct DateTime {
    pub date: Date,
    pub time: Time,
}

/// Spec-level mirror of [`DateTime`].
pub struct DateTimeV {
    pub date: DateV,
    pub time: TimeV,
}

impl View for DateTime {
    type V = DateTimeV;

    open spec fn view(&self) -> DateTimeV {
        DateTimeV { date: self.date@, time: self.time@ }
    }
}

/// A timezone-aware datetime: the local wall-clock value together with its
/// offset from UTC in minutes (positive east of Greenwich).
#[derive(Clone, Copy, Debug, PartialEq, Eq)]
pub struct DateTimeTz {
    pub local: DateTime,
    pub offset_minutes: i32,
}

/// Spec-level mirror of [`DateTimeTz`].
pub struct DateTimeTzV {
    pub local: DateTimeV,
    pub offset_minutes: int,
}

impl View for DateTimeTz {
    type V = DateTimeTzV;

    open spec fn view(&self) -> DateTimeTzV {
        DateTimeTzV { local: self.local@, offset_minutes: self.offset_minutes as int }
    }
}

/// A numeric value the backend reports in a representation the renderers
/// never compute with: `text` is the value's exact decimal notation, and
/// `num` is the floating-point token the numeric output formats use
/// (`None` where no finite floating-point representation exists).
#[derive(Clone, Debug, PartialEq, Eq)]
pub struct NumText {
    pub text: String,
    pub num: Option<String>,
}

/// Spec-level mirror of [`NumText`].
pub struct NumTextV {
    pub text: Seq<char>,
    pub num: Option<Seq<char>>,
}

impl View for NumText {
    type V = NumTextV;

    open spec fn view(&self) -> NumTextV {
        NumTextV {
            text: self.text@,
            num: match &self.num {
                Some(s) => Some(s@),
                None => None,
            },
        }
    }
}

/// One raw cell value, as handed to the renderers. `Null` stands for a
/// value that was never decoded: the cells of a column whose kind has no
/// renderer. Temporal kinds are nullable at the source, so they carry an
/// `Option`.
#[derive(Clone, Debug, PartialEq, Eq)]
pub enum Value {
    Null,
    I8(i8),
    I16(i16),
    I32(i32),
    I64(i64),
    F32(NumText),
    F64(NumText),
    Str(String),
    Bool(bool),
    Dec(NumText),
    Date(Option<Date>),
    Time(Option<Time>),
    DateTime(Option<DateTime>),
    DateTimeTz(Option<DateTimeTz>),
    Json(String),
}

/// Spec-level mirror of [`Value`].
pub enum ValueV {
    Null,
    I8(int),
    I16(int),
    I32(int),
    I64(int),
    F32(NumTextV),
    F64(NumTextV),
    Str(Seq<char>),
    Bool(bool),
    Dec(NumTextV),
    Date(Option<DateV>),
    Time(Option<TimeV>),
    DateTime(Option<DateTimeV>),
    DateTimeTz(Option<DateTimeTzV>),
    Json(Seq<char>),
}

impl View for Value {
    type V = ValueV;

    open spec fn view(&self) -> ValueV {
        match self {
            Value::Null => ValueV::Null,
            Value::I8(v) => ValueV::I8(*v as int),
            Value::I16(v) => ValueV::I16(*v as int),
            Value::I32(v) => ValueV::I32(*v as int),
            Value::I64(v) => ValueV::I64(*v as int),
            Value::F32(n) => ValueV::F32(n@),
            Value::F64(n) => ValueV::F64(n@),
            Value::Str(s) => ValueV::Str(s@),
            Value::Bool(b) => ValueV::Bool(*b),
            Value::Dec(n) => ValueV::Dec(n@),
            Value::Date(d) => ValueV::Date(
                match d {
                    Some(d) => Some(d@),
                    None => None,
                },
            ),
            Value::Time(t) => ValueV::Time(
                match t {
                    Some(t) => Some(t@),
                    None => None,
                },
            ),
            Value::DateTime(dt) => ValueV::DateTime(
                match dt {
                    Some(dt) => Some(dt@),
                    None => None,
                },
            ),
            Value::DateTimeTz(dt) => ValueV::DateTimeTz(
                match dt {
                    Some(dt) => Some(dt@),
                    None => None,
                },
            ),
            Value::Json(s) => ValueV::Json(s@),
        }
    }
}

/// Whether a raw cell value has the shape a column of kind `k` calls for.
/// The kinds without a renderer carry no decoded value, so their cells are
/// `Null`.
pub open spec fn value_matches_kind(v: ValueV, k: KindV) -> bool {
    match k {
        KindV::INT8 => v is I8,
        KindV::INT16 => v is I16,
        KindV::INT32 => v is I32,
        KindV::INT64 => v is I64,
        KindV::UINT8 => v is Null,
        KindV::UINT16 => v is Null,
        KindV::UINT32 => v is Null,
        KindV::UINT64 => v is Null,
        KindV::FLOAT32 => v is F32,
        KindV::FLOAT64 => v is F64,
        KindV::STR => v is Str,
        KindV::BOOL => v is Bool,
        KindV::DECIMAL => v is Dec,
        KindV::DATE => v is Date,
        KindV::TIME => v is Time,
        KindV::DATETIME => v is DateTime,
        KindV::DATETIMETZ => v is DateTimeTz,
        KindV::JSON => v is Json,
        KindV::UNKNOWN(_) => v is Null,
    }
}

/// The full materialized result of one query: the column schema and the
/// rows, all sharing that schema.
#[derive(Clone, Debug)]
pub struct ResultSet {
    pub columns: Vec<Field>,
    pub rows: Vec<Vec<Value>>,
}

/// Spec-level mirror of [`ResultSet`].
pub struct ResultSetV {
    pub columns: Seq<FieldV>,
    pub rows: Seq<Seq<ValueV>>,
}

impl View for ResultSet {
    type V = ResultSetV;

    open spec fn view(&self) -> ResultSetV {
        ResultSetV {
            columns: self.columns@.map_values(|f: Field| f@),
            rows: self.rows@.map_values(|row: Vec<Value>| row@.map_values(|v: Value| v@)),
        }
    }
}

impl ResultSetV {
    /// The contract between the schema and the rows: every row is exactly as
    /// wide as the schema, and every cell has the shape its column's kind
    /// calls for. Violating this is a programming-contract failure of the
    /// caller, not a recoverable runtime error.
    pub open spec fn wf(self) -> bool {
        forall|r: int|
            0 <= r < self.rows.len() ==> #[trigger] self.rows[r].len() == self.columns.len()
                && forall|c: int|
                0 <= c < self.columns.len() ==> value_matches_kind(
                    #[trigger] self.rows[r][c],
                    self.columns[c].kind,
                )
    }
}

/// The ISO notation of a date: `yyyy-mm-dd`.
pub open spec fn date_chars(d: DateV) -> Seq<char> {
    dec_padded(d.year as nat, 4) + seq!['-'] + dec_padded(d.month as nat, 2) + seq!['-']
        + dec_padded(d.day as nat, 2)
}

/// The clock notation of a time: `hh:mm:ss`.
pub open spec fn time_chars(t: TimeV) -> Seq<char> {
    dec_padded(t.hour as nat, 2) + seq![':'] + dec_padded(t.minute as nat, 2) + seq![':']
        + dec_padded(t.second as nat, 2)
}

/// The notation of a naive datetime: the date, one space, the time.
pub open spec fn datetime_chars(dt: DateTimeV) -> Seq<char> {
    date_chars(dt.date) + seq![' '] + time_chars(dt.time)
}

/// The notation of an offset from UTC: a sign and `hh:mm`.
pub open spec fn offset_chars(offset_minutes: int) -> Seq<char> {
    let mag = if offset_minutes < 0 {
        -offset_minutes
    } else {
        offset_minutes
    };
    let sign = if offset_minutes < 0 {
        seq!['-']
    } else {
        seq!['+']
    };
    sign + dec_padded((mag / 60) as nat, 2) + seq![':'] + dec_padded((mag % 60) as nat, 2)
}

/// The notation of a timezone-aware datetime: the local wall-clock value,
/// one space, the offset.
pub open spec fn datetimetz_chars(dt: DateTimeTzV) -> Seq<char> {
    datetime_chars(dt.local) + seq![' '] + offset_chars(dt.offset_minutes)
}

impl Date {
    /// Renders the date in ISO notation, `yyyy-mm-dd`.
    pub fn render(&self) -> (r: String)
        ensures
            r@ == date_chars(self@),
    {
        let mut out = u64_to_dec_padded(self.year as u64, 4);
        push_char(&mut out, '-');
        let month = u64_to_dec_padded(self.month as u64, 2);
        out.append(month.as_str());
        push_char(&mut out, '-');
        let day = u64_to_dec_padded(self.day as u64, 2);
        out.append(day.as_str());
        proof {
            assert(out@ =~= date_chars(self@));
        }
        out
    }
}

impl Time {
    /// Renders the time as `hh:mm:ss`.
    pub fn render(&self) -> (r: String)
        ensures
            r@ == time_chars(self@),
    {
        let mut out = u64_to_dec_padded(self.hour as u64, 2);
        push_char(&mut out, ':');
        let minute = u64_to_dec_padded(self.minute as u64, 2);
        out.append(minute.as_str());
        push_char(&mut out, ':');
        let second = u64_to_dec_padded(self.second as u64, 2);
        out.append(second.as_str());
        proof {
            assert(out@ =~= time_chars(self@));
        }
        out
    }
}

impl DateTime {
    /// Renders the naive datetime as `yyyy-mm-dd hh:mm:ss`.
    pub fn render(&self) -> (r: String)
        ensures
            r@ == datetime_chars(self@),
    {
        let mut out = self.date.render();
        push_char(&mut out, ' ');
        let time = self.time.render();
        out.append(time.as_str());
        proof {
            assert(out@ =~= datetime_chars(self@));
        }
        out
    }
}

impl DateTimeTz {
    /// Renders the timezone-aware datetime as `yyyy-mm-dd hh:mm:ss +hh:mm`.
    pub fn render(&self) -> (r: String)
        ensures
            r@ == datetimetz_chars(self@),
    {
        let mut out = self.local.render();
        push_char(&mut out, ' ');
        let mag: u32 = if self.offset_minutes < 0 {
            (-(self.offset_minutes as i64)) as u32
        } else {
            self.offset_minutes as u32
        };
        if self.offset_minutes < 0 {
            push_char(&mut out, '-');
        } else {
            push_char(&mut out, '+');
        }
        let hours = u64_to_dec_padded((mag / 60) as u64, 2);
        out.append(hours.as_str());
        push_char(&mut out, ':');
        let minutes = u64_to_dec_padded((mag % 60) as u64, 2);
        out.append(minutes.as_str());
        proof {
            assert(out@ =~= datetimetz_chars(self@));
        }
        out
    }
}

} // verus!
