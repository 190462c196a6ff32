//! The monitorable device properties: their names, the typed values they carry,
//! how a raw bus value becomes one, and how each is rendered as text.
use vstd::prelude::*;
use vstd::string::*;
use crate::text::{push_two_digits, str_eq, two_digits};

verus! {

/// A dynamically typed value as the bus delivers it, reduced to the shapes
/// that the property model distinguishes. A double is carried by its IEEE-754
/// bit pattern.
#[derive(Debug, Clone, Copy, PartialEq, Eq, Structural)]
pub enum RawValue {
    U64(u64),
    Bool(bool),
    I64(i64),
    U32(u32),
    F64(u64),
    Other,
}

/// A property of a UPower device that can be monitored, with its typed value.
/// `Percentage` holds the IEEE-754 bit pattern of the reading.
#[derive(Debug, Clone, Copy, PartialEq, Eq, Structural)]
pub enum Property {
    UpdateTime(u64),
    Online(bool),
    TimeToEmpty(i64),
    TimeToFull(i64),
    Percentage(u64),
    IsPresent(bool),
    State(u32),
}

/// Why a name and a raw value make no property.
#[derive(Debug, Clone, Copy, PartialEq, Eq, Structural)]
pub enum PropertyError {
    /// The name is not one of the property names.
    UnknownProperty,
    /// The name is known but the value has another type than the property's.
    TypeMismatch,
}

/// The property names, in the order of the variants.
pub open spec fn property_names() -> Seq<Seq<char>> {
    seq![
        "UpdateTime"@,
        "Online"@,
        "TimeToEmpty"@,
        "TimeToFull"@,
        "Percentage"@,
        "IsPresent"@,
        "State"@,
    ]
}

/// Whether `s` names a property.
pub open spec fn is_name(s: Seq<char>) -> bool {
    property_names().contains(s)
}

/// Whether `v` has the payload type of the property named `name`.
pub open spec fn value_fits(name: Seq<char>, v: RawValue) -> bool {
    if name == "UpdateTime"@ {
        v is U64
    } else if name == "Online"@ {
        v is Bool
    } else if name == "TimeToEmpty"@ {
        v is I64
    } else if name == "TimeToFull"@ {
        v is I64
    } else if name == "Percentage"@ {
        v is F64
    } else if name == "IsPresent"@ {
        v is Bool
    } else if name == "State"@ {
        v is U32
    } else {
        false
    }
}

/// The property that `name` and `v` make, or why they make none.
pub open spec fn parse_spec(name: Seq<char>, v: RawValue) -> Result<Property, PropertyError> {
    if name == "UpdateTime"@ {
        match v { RawValue::U64(t) => Ok(Property::UpdateTime(t)), _ => Err(PropertyError::TypeMismatch) }
    } else if name == "Online"@ {
        match v { RawValue::Bool(b) => Ok(Property::Online(b)), _ => Err(PropertyError::TypeMismatch) }
    } else if name == "TimeToEmpty"@ {
        match v { RawValue::I64(t) => Ok(Property::TimeToEmpty(t)), _ => Err(PropertyError::TypeMismatch) }
    } else if name == "TimeToFull"@ {
        match v { RawValue::I64(t) => Ok(Property::TimeToFull(t)), _ => Err(PropertyError::TypeMismatch) }
    } else if name == "Percentage"@ {
        match v { RawValue::F64(p) => Ok(Property::Percentage(p)), _ => Err(PropertyError::TypeMismatch) }
    } else if name == "IsPresent"@ {
        match v { RawValue::Bool(b) => Ok(Property::IsPresent(b)), _ => Err(PropertyError::TypeMismatch) }
    } else if name == "State"@ {
        match v { RawValue::U32(s) => Ok(Property::State(s)), _ => Err(PropertyError::TypeMismatch) }
    } else {
        Err(PropertyError::UnknownProperty)
    }
}

/// The last second that chrono represents: +262142-12-31T23:59:59Z.
pub const MAX_UPDATE_TIME: i64 = 8210266876799;

/// The first second that chrono represents: -262143-01-01T00:00:00Z.
pub const MIN_UPDATE_TIME: i64 = -8334601315200;

/// Text of the UTC instant `t` seconds after the Unix epoch, in RFC 3339 form
/// with whole seconds and a `Z` suffix, as chrono writes it.
pub uninterp spec fn utc_seconds_text(t: i64) -> Seq<char>;

/// Relies on chrono's `DateTime::from_timestamp`, which is `None` exactly
/// where the day falls outside chrono's years -262143 to 262142, and
/// `DateTime::to_rfc3339_opts` with whole seconds and `Z`.
#[verifier::external_body]
fn utc_seconds_string(t: i64) -> (r: Option<String>)
    ensures
        r matches Some(s) ==> s@ == utc_seconds_text(t),
        r is Some <==> MIN_UPDATE_TIME <= t <= MAX_UPDATE_TIME,
{
    match chrono::DateTime::from_timestamp(t, 0) {
        Some(d) => Some(d.to_rfc3339_opts(chrono::SecondsFormat::Secs, true)),
        None => None,
    }
}

/// `HH:MM:SS` for a number of seconds; a non-positive number gives `00:00:00`.
pub open spec fn hhmmss(t: int) -> Seq<char> {
    if t <= 0 {
        "00:00:00"@
    } else {
        two_digits((t / 3600) as nat) + seq![':'] + two_digits(((t % 3600) / 60) as nat) + seq![':']
            + two_digits((t % 60) as nat)
    }
}

/// The name of a charge state code, for the codes `0..=6`.
pub open spec fn state_name(n: u32) -> Seq<char> {
    if n == 0 {
        "Unknown"@
    } else if n == 1 {
        "Charging"@
    } else if n == 2 {
        "Discharging"@
    } else if n == 3 {
        "Empty"@
    } else if n == 4 {
        "FullyCharged"@
    } else if n == 5 {
        "PendingCharge"@
    } else {
        "PendingDischarge"@
    }
}

pub open spec fn bool_text(b: bool) -> Seq<char> {
    if b { "true"@ } else { "false"@ }
}

impl Property {
    /// The name of this property's variant.
    pub open spec fn name_spec(self) -> Seq<char> {
        match self {
            Property::UpdateTime(_) => "UpdateTime"@,
            Property::Online(_) => "Online"@,
            Property::TimeToEmpty(_) => "TimeToEmpty"@,
            Property::TimeToFull(_) => "TimeToFull"@,
            Property::Percentage(_) => "Percentage"@,
            Property::IsPresent(_) => "IsPresent"@,
            Property::State(_) => "State"@,
        }
    }

    /// Whether this library renders the property: a state code within the
    /// table, an update time that chrono can represent, and not a percentage,
    /// whose floating-point text the application writes.
    pub open spec fn renderable(self) -> bool {
        match self {
            Property::UpdateTime(t) => t <= MAX_UPDATE_TIME as u64,
            Property::State(n) => n <= 6,
            Property::Percentage(_) => false,
            _ => true,
        }
    }

    /// The text of a renderable property.
    pub open spec fn rendering(self) -> Seq<char> {
        match self {
            Property::UpdateTime(t) => utc_seconds_text(t as i64),
            Property::Online(b) => bool_text(b),
            Property::IsPresent(b) => bool_text(b),
            Property::TimeToEmpty(t) => hhmmss(t as int),
            Property::TimeToFull(t) => hhmmss(t as int),
            Property::State(n) => state_name(n),
            Property::Percentage(_) => Seq::empty(),
        }
    }

    /// The property named `name` with the value `v`, or why there is none.
    pub fn parse(name: &str, v: &RawValue) -> (r: Result<Property, PropertyError>)
        ensures
            r == parse_spec(name@, *v),
    {
        if str_eq(name, "UpdateTime") {
            match v { RawValue::U64(t) => Ok(Property::UpdateTime(*t)), _ => Err(PropertyError::TypeMismatch) }
        } else if str_eq(name, "Online") {
            match v { RawValue::Bool(b) => Ok(Property::Online(*b)), _ => Err(PropertyError::TypeMismatch) }
        } else if str_eq(name, "TimeToEmpty") {
            match v { RawValue::I64(t) => Ok(Property::TimeToEmpty(*t)), _ => Err(PropertyError::TypeMismatch) }
        } else if str_eq(name, "TimeToFull") {
            match v { RawValue::I64(t) => Ok(Property::TimeToFull(*t)), _ => Err(PropertyError::TypeMismatch) }
        } else if str_eq(name, "Percentage") {
            match v { RawValue::F64(p) => Ok(Property::Percentage(*p)), _ => Err(PropertyError::TypeMismatch) }
        } else if str_eq(name, "IsPresent") {
            match v { RawValue::Bool(b) => Ok(Property::IsPresent(*b)), _ => Err(PropertyError::TypeMismatch) }
        } else if str_eq(name, "State") {
            match v { RawValue::U32(s) => Ok(Property::State(*s)), _ => Err(PropertyError::TypeMismatch) }
        } else {
            Err(PropertyError::UnknownProperty)
        }
    }

    /// The text of the property: an RFC 3339 UTC time, `true`/`false`,
    /// `HH:MM:SS`, or the name of the charge state.
    pub fn to_string(&self) -> (r: String)
        requires
            self.renderable(),
        ensures
            r@ == self.rendering(),
    {
        match self {
            Property::UpdateTime(t) => match utc_seconds_string(*t as i64) {
                Some(s) => s,
                None => String::new(),
            },
            Property::Online(b) => bool_string(*b),
            Property::IsPresent(b) => bool_string(*b),
            Property::TimeToEmpty(t) => secs_to_hhmmss(*t),
            Property::TimeToFull(t) => secs_to_hhmmss(*t),
            Property::State(n) => state_string(*n),
            Property::Percentage(_) => String::new(),
        }
    }
}

#[verifier::external_type_specification]
#[verifier::external_body]
pub struct ExValue<'a>(zbus::zvariant::Value<'a>);

/// Relies on the variants of zvariant's `Value`: the basic ones that the
/// property model reads move over with their payload, a double by its bits.
#[verifier::external_body]
fn raw_value_of(v: &zbus::zvariant::Value) -> (r: RawValue) {
    match v {
        zbus::zvariant::Value::U64(t) => RawValue::U64(*t),
        zbus::zvariant::Value::Bool(b) => RawValue::Bool(*b),
        zbus::zvariant::Value::I64(t) => RawValue::I64(*t),
        zbus::zvariant::Value::U32(n) => RawValue::U32(*n),
        zbus::zvariant::Value::F64(p) => RawValue::F64(p.to_bits()),
        _ => RawValue::Other,
    }
}

/// One entry of a notification's changed properties, its value reduced to
/// the shapes that the property model reads.
pub fn notification_entry(k: &str, v: &zbus::zvariant::Value) -> (r: (String, RawValue))
    ensures
        r.0@ == k@,
{
    (String::from_str(k), raw_value_of(v))
}

impl Property {
    /// The property named `k` with the bus value `v`: an unknown name fails
    /// whatever the value, and a success carries the name asked for.
    pub fn from_key_value(k: &str, v: &zbus::zvariant::Value) -> (r: Result<Property, PropertyError>)
        ensures
            !is_name(k@) ==> r == Err::<Property, PropertyError>(PropertyError::UnknownProperty),
            is_name(k@) ==> r != Err::<Property, PropertyError>(PropertyError::UnknownProperty),
            r matches Ok(p) ==> p.name_spec() == k@,
    {
        let raw = raw_value_of(v);
        proof {
            lemma_parse_unknown_name(k@, raw);
            lemma_parse_known_name(k@, raw);
        }
        Property::parse(k, &raw)
    }
}

/// The property names, in the order of the variants.
pub fn names() -> (r: Vec<&'static str>)
    ensures
        r@.map_values(|s: &'static str| s@) == property_names(),
{
    let r = vec!["UpdateTime", "Online", "TimeToEmpty", "TimeToFull", "Percentage", "IsPresent", "State"];
    assert(r@.map_values(|s: &'static str| s@) =~= property_names());
    r
}

/// Whether `s` names a property.
pub fn is_property_name(s: &str) -> (r: bool)
    ensures
        r == is_name(s@),
{
    let table = names();
    let mut i: usize = 0;
    while i < table.len()
        invariant
            table@.map_values(|s: &'static str| s@) == property_names(),
            i <= table@.len(),
            forall|j: int| 0 <= j < i ==> property_names()[j] != s@,
        decreases table.len() - i,
    {
        assert(table@.map_values(|s: &'static str| s@)[i as int] == table@[i as int]@);
        if str_eq(table[i], s) {
            return true;
        }
        i = i + 1;
    }
    false
}

/// A known name with a value of its payload type parses to the property of
/// that name holding that value.
pub proof fn lemma_parse_accepts_fitting(name: Seq<char>, v: RawValue)
    requires
        is_name(name),
        value_fits(name, v),
    ensures
        parse_spec(name, v) matches Ok(p) && p.name_spec() == name && payload_of(p) == v,
{
    lemma_name_cases(name);
}

/// The text that the rendering table gives for a payload: each payload type
/// belongs to properties that share one rendering rule.
pub open spec fn table_text(v: RawValue) -> Seq<char> {
    match v {
        RawValue::U64(t) => utc_seconds_text(t as i64),
        RawValue::Bool(b) => bool_text(b),
        RawValue::I64(t) => hhmmss(t as int),
        RawValue::U32(n) => state_name(n),
        _ => Seq::empty(),
    }
}

/// A known name with a value of its payload type parses, and the property
/// renders as the table says for that name and value.
pub proof fn lemma_parse_then_render(name: Seq<char>, v: RawValue)
    requires
        is_name(name),
        value_fits(name, v),
    ensures
        parse_spec(name, v) matches Ok(p) && (p.renderable() ==> p.rendering() == table_text(v)),
{
    lemma_name_cases(name);
}

/// A known name with a value of another type fails with `TypeMismatch`.
pub proof fn lemma_parse_rejects_misfit(name: Seq<char>, v: RawValue)
    requires
        is_name(name),
        !value_fits(name, v),
    ensures
        parse_spec(name, v) == Err::<Property, PropertyError>(PropertyError::TypeMismatch),
{
    lemma_name_cases(name);
}

proof fn lemma_name_cases(name: Seq<char>)
    requires
        is_name(name),
    ensures
        name == "UpdateTime"@ || name == "Online"@ || name == "TimeToEmpty"@ || name == "TimeToFull"@
            || name == "Percentage"@ || name == "IsPresent"@ || name == "State"@,
{
    let i = choose|i: int| 0 <= i < property_names().len() && property_names()[i] == name;
    assert(property_names()[0] == "UpdateTime"@);
    assert(property_names()[1] == "Online"@);
    assert(property_names()[2] == "TimeToEmpty"@);
    assert(property_names()[3] == "TimeToFull"@);
    assert(property_names()[4] == "Percentage"@);
    assert(property_names()[5] == "IsPresent"@);
    assert(property_names()[6] == "State"@);
}

/// A name that is no property name fails with `UnknownProperty`, whatever the value.
pub proof fn lemma_parse_unknown_name(name: Seq<char>, v: RawValue)
    ensures
        !is_name(name) ==> parse_spec(name, v) == Err::<Property, PropertyError>(PropertyError::UnknownProperty),
{
    if !is_name(name) {
        assert(property_names()[0] == "UpdateTime"@);
        assert(property_names()[1] == "Online"@);
        assert(property_names()[2] == "TimeToEmpty"@);
        assert(property_names()[3] == "TimeToFull"@);
        assert(property_names()[4] == "Percentage"@);
        assert(property_names()[5] == "IsPresent"@);
        assert(property_names()[6] == "State"@);
    }
}

/// A property name never fails with `UnknownProperty`, and a success carries that name.
pub proof fn lemma_parse_known_name(name: Seq<char>, v: RawValue)
    ensures
        is_name(name) ==> parse_spec(name, v) != Err::<Property, PropertyError>(PropertyError::UnknownProperty),
        parse_spec(name, v) matches Ok(p) ==> p.name_spec() == name,
{
}

/// The raw value that a property carries.
pub open spec fn payload_of(p: Property) -> RawValue {
    match p {
        Property::UpdateTime(t) => RawValue::U64(t),
        Property::Online(b) => RawValue::Bool(b),
        Property::TimeToEmpty(t) => RawValue::I64(t),
        Property::TimeToFull(t) => RawValue::I64(t),
        Property::Percentage(p) => RawValue::F64(p),
        Property::IsPresent(b) => RawValue::Bool(b),
        Property::State(n) => RawValue::U32(n),
    }
}

fn bool_string(b: bool) -> (r: String)
    ensures
        r@ == bool_text(b),
{
    if b { String::from_str("true") } else { String::from_str("false") }
}

fn state_string(n: u32) -> (r: String)
    requires
        n <= 6,
    ensures
        r@ == state_name(n),
{
    if n == 0 {
        String::from_str("Unknown")
    } else if n == 1 {
        String::from_str("Charging")
    } else if n == 2 {
        String::from_str("Discharging")
    } else if n == 3 {
        String::from_str("Empty")
    } else if n == 4 {
        String::from_str("FullyCharged")
    } else if n == 5 {
        String::from_str("PendingCharge")
    } else {
        String::from_str("PendingDischarge")
    }
}

/// Converts seconds to `HH:MM:SS`; a non-positive count gives `00:00:00`.
pub fn secs_to_hhmmss(s: i64) -> (r: String)
    ensures
        r@ == hhmmss(s as int),
{
    if s <= 0 {
        return String::from_str("00:00:00");
    }
    let h = (s / 3600) as u64;
    let m = ((s % 3600) / 60) as u64;
    let sec = (s % 60) as u64;
    let mut out = String::new();
    push_two_digits(&mut out, h);
    out.append(":");
    push_two_digits(&mut out, m);
    out.append(":");
    push_two_digits(&mut out, sec);
    proof {
        reveal_strlit(":");
    }
    assert(out@ =~= hhmmss(s as int));
    out
}

} // verus!
