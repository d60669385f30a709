use vstd::prelude::*;

verus! {

/// The kinds of reading the BME280 can measure; a button press selects the
/// next kind to be posted.
#[derive(PartialEq, Eq, Structural, Clone, Copy, Debug)]
pub enum SensorType {
    Temperature,
    Humidity,
    Pressure,
}

impl SensorType {
    /// Place of the kind in the selection cycle.
    pub open spec fn position(self) -> int {
        match self {
            SensorType::Temperature => 0,
            SensorType::Humidity => 1,
            SensorType::Pressure => 2,
        }
    }

    /// The kind that follows `self` in the cycle Temperature, Humidity, Pressure.
    pub open spec fn successor(self) -> SensorType {
        match self {
            SensorType::Temperature => SensorType::Humidity,
            SensorType::Humidity => SensorType::Pressure,
            SensorType::Pressure => SensorType::Temperature,
        }
    }

    /// The kind reached from `self` after `presses` button presses.
    pub open spec fn advanced(self, presses: nat) -> SensorType
        decreases presses,
    {
        if presses == 0 {
            self
        } else {
            self.advanced((presses - 1) as nat).successor()
        }
    }

    /// The kind selected after one more button press.
    pub fn next(&self) -> (r: Self)
        ensures
            r == self.successor(),
            r.position() == (self.position() + 1) % 3,
            *self == SensorType::Temperature ==> r == SensorType::Humidity,
            *self == SensorType::Humidity ==> r == SensorType::Pressure,
            *self == SensorType::Pressure ==> r == SensorType::Temperature,
    {
        match *self {
            Self::Temperature => Self::Humidity,
            Self::Humidity => Self::Pressure,
            Self::Pressure => Self::Temperature,
        }
    }
}

/// Pressing the button three times selects the kind that was selected before.
pub proof fn lemma_next_cycles_in_three(s: SensorType)
    ensures
        s.successor().successor().successor() == s,
        s.advanced(3) == s,
{
    reveal_with_fuel(SensorType::advanced, 4);
}

/// A button press always changes the selected kind.
pub proof fn lemma_next_changes_kind(s: SensorType)
    ensures
        s.successor() != s,
{
}

/// Different kinds are followed by different kinds: no kind is skipped.
pub proof fn lemma_next_injective(a: SensorType, b: SensorType)
    requires
        a.successor() == b.successor(),
    ensures
        a == b,
{
}

/// From any selected kind, every kind is selected after fewer than three presses.
pub proof fn lemma_every_kind_reachable(s: SensorType, t: SensorType)
    ensures
        0 <= (t.position() - s.position()) % 3 < 3,
        s.advanced(((t.position() - s.position()) % 3) as nat) == t,
{
    reveal_with_fuel(SensorType::advanced, 3);
}

/// One reading of the BME280, each field the IEEE-754 bit pattern of the
/// `f32` value the sensor reported (degrees Celsius, percent relative
/// humidity, pascals).
#[derive(PartialEq, Eq, Structural, Clone, Copy, Debug)]
pub struct Measurements {
    pub temperature: u32,
    pub humidity: u32,
    pub pressure: u32,
}

impl Measurements {
    /// The field of the reading that belongs to `kind`.
    pub open spec fn field(self, kind: SensorType) -> u32 {
        match kind {
            SensorType::Temperature => self.temperature,
            SensorType::Humidity => self.humidity,
            SensorType::Pressure => self.pressure,
        }
    }
}

/// Sensor value exchanged between the HTTP client and server: the kind of
/// the reading and the IEEE-754 bit pattern of its `f32` value.
#[derive(PartialEq, Eq, Structural, Clone, Copy, Debug)]
pub enum SensorValue {
    Temperature(u32),
    Humidity(u32),
    Pressure(u32),
}

/// Text put before the reading when a value of `kind` is shown.
pub open spec fn label(kind: SensorType) -> Seq<char> {
    match kind {
        SensorType::Temperature => "temp: "@,
        SensorType::Humidity => "humi: "@,
        SensorType::Pressure => "pres: "@,
    }
}

impl SensorValue {
    pub open spec fn kind_of(self) -> SensorType {
        match self {
            SensorValue::Temperature(_) => SensorType::Temperature,
            SensorValue::Humidity(_) => SensorType::Humidity,
            SensorValue::Pressure(_) => SensorType::Pressure,
        }
    }

    pub open spec fn reading_of(self) -> u32 {
        match self {
            SensorValue::Temperature(v) => v,
            SensorValue::Humidity(v) => v,
            SensorValue::Pressure(v) => v,
        }
    }

    /// The kind of the value.
    pub fn kind(&self) -> (r: SensorType)
        ensures
            r == self.kind_of(),
            *self is Temperature ==> r == SensorType::Temperature,
            *self is Humidity ==> r == SensorType::Humidity,
            *self is Pressure ==> r == SensorType::Pressure,
    {
        match *self {
            SensorValue::Temperature(_) => SensorType::Temperature,
            SensorValue::Humidity(_) => SensorType::Humidity,
            SensorValue::Pressure(_) => SensorType::Pressure,
        }
    }

    /// The bit pattern of the reading the value carries.
    pub fn reading(&self) -> (r: u32)
        ensures
            r == self.reading_of(),
            *self == SensorValue::Temperature(r) || *self == SensorValue::Humidity(r) || *self
                == SensorValue::Pressure(r),
    {
        match *self {
            SensorValue::Temperature(v) => v,
            SensorValue::Humidity(v) => v,
            SensorValue::Pressure(v) => v,
        }
    }

    /// The value to post for the selected kind, taken from one measurement.
    pub fn from_measurements(kind: SensorType, m: &Measurements) -> (r: SensorValue)
        ensures
            r.kind_of() == kind,
            r.reading_of() == m.field(kind),
            kind == SensorType::Temperature ==> r == SensorValue::Temperature(m.temperature),
            kind == SensorType::Humidity ==> r == SensorValue::Humidity(m.humidity),
            kind == SensorType::Pressure ==> r == SensorValue::Pressure(m.pressure),
    {
        match kind {
            SensorType::Temperature => SensorValue::Temperature(m.temperature),
            SensorType::Humidity => SensorValue::Humidity(m.humidity),
            SensorType::Pressure => SensorValue::Pressure(m.pressure),
        }
    }

    /// The text shown for the value: its kind's label followed by
    /// `reading_text`, the reading written with two decimals.
    pub fn to_string(&self, reading_text: &str) -> (r: String)
        ensures
            r@ == label(self.kind_of()) + reading_text@,
            *self is Temperature ==> r@ == "temp: "@ + reading_text@,
            *self is Humidity ==> r@ == "humi: "@ + reading_text@,
            *self is Pressure ==> r@ == "pres: "@ + reading_text@,
    {
        let mut r = match *self {
            SensorValue::Temperature(_) => String::from_str("temp: "),
            SensorValue::Humidity(_) => String::from_str("humi: "),
            SensorValue::Pressure(_) => String::from_str("pres: "),
        };
        r.append(reading_text);
        r
    }
}

/// The shown text tells the kind of the value: texts of values of different
/// kinds differ, whatever readings they show.
pub proof fn lemma_text_tells_kind(a: SensorType, b: SensorType, x: Seq<char>, y: Seq<char>)
    requires
        label(a) + x == label(b) + y,
    ensures
        a == b,
{
    reveal_strlit("temp: ");
    reveal_strlit("humi: ");
    reveal_strlit("pres: ");
    assert((label(a) + x)[0] == label(a)[0]);
    assert((label(b) + y)[0] == label(b)[0]);
}

/// The kind of a value is its variant, whatever its reading, and the
/// reading of a value is the bit pattern inside its variant, unchanged.
pub proof fn lemma_value_kind_and_reading(v: u32)
    ensures
        SensorValue::Temperature(v).kind_of() == SensorType::Temperature,
        SensorValue::Humidity(v).kind_of() == SensorType::Humidity,
        SensorValue::Pressure(v).kind_of() == SensorType::Pressure,
        SensorValue::Temperature(v).reading_of() == v,
        SensorValue::Humidity(v).reading_of() == v,
        SensorValue::Pressure(v).reading_of() == v,
{
}

/// A value is determined by its kind and its reading: two values with the
/// same kind and reading are equal, so a value built for a kind carries the
/// measured field itself.
pub proof fn lemma_value_determined(a: SensorValue, b: SensorValue)
    requires
        a.kind_of() == b.kind_of(),
        a.reading_of() == b.reading_of(),
    ensures
        a == b,
{
}

/// The field of a measurement that belongs to each kind: temperature,
/// humidity and pressure, whatever the other fields hold.
pub proof fn lemma_measurement_fields(m: Measurements)
    ensures
        m.field(SensorType::Temperature) == m.temperature,
        m.field(SensorType::Humidity) == m.humidity,
        m.field(SensorType::Pressure) == m.pressure,
{
}

/// The shown text of a value begins with the label of its variant and
/// ends with the reading text: "temp: " for a temperature, "humi: " for a
/// humidity, "pres: " for a pressure, whatever the reading.
pub proof fn lemma_labels_of_variants(v: u32, t: Seq<char>)
    ensures
        label(SensorValue::Temperature(v).kind_of()) + t == "temp: "@ + t,
        label(SensorValue::Humidity(v).kind_of()) + t == "humi: "@ + t,
        label(SensorValue::Pressure(v).kind_of()) + t == "pres: "@ + t,
{
}

/// A button press moves Temperature to Humidity, Humidity to Pressure and
/// Pressure back to Temperature.
pub proof fn lemma_successor_order()
    ensures
        SensorType::Temperature.successor() == SensorType::Humidity,
        SensorType::Humidity.successor() == SensorType::Pressure,
        SensorType::Pressure.successor() == SensorType::Temperature,
{
}

} // verus!
