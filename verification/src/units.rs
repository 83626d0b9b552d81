//! Unit vocabularies and the translation between them.
//!
//! [`Unit`] is the closed unit vocabulary of the instrumentation side.
//! [`MetricUnit`] is the richer vocabulary of the backend: durations,
//! information sizes, fractions, an opaque custom unit carrying an arbitrary
//! string, and "no unit". [`translate`] maps the former onto the latter,
//! falling back to a custom unit that preserves the unit's own spelling, and
//! [`parse_unit`] reads the backend's textual unit grammar, under which every
//! spelling denotes a unit (unknown spellings denote custom units).

use vstd::prelude::*;

verus! {

/// The instrumentation side's unit vocabulary.
#[derive(Clone, Copy, Debug, PartialEq, Eq, Structural)]
pub enum Unit {
    Count,
    Percent,
    Seconds,
    Milliseconds,
    Microseconds,
    Nanoseconds,
    Tebibytes,
    Gigibytes,
    Mebibytes,
    Kibibytes,
    Bytes,
    TerabitsPerSecond,
    GigabitsPerSecond,
    MegabitsPerSecond,
    KilobitsPerSecond,
    BitsPerSecond,
    CountPerSecond,
}

/// Time duration units of the backend.
#[derive(Clone, Copy, Debug, PartialEq, Eq, Structural)]
pub enum DurationUnit {
    NanoSecond,
    MicroSecond,
    MilliSecond,
    Second,
    Minute,
    Hour,
    Day,
    Week,
}

/// Information size units of the backend.
#[derive(Clone, Copy, Debug, PartialEq, Eq, Structural)]
pub enum InformationUnit {
    Bit,
    Byte,
    KiloByte,
    KibiByte,
    MegaByte,
    MebiByte,
    GigaByte,
    GibiByte,
    TeraByte,
    TebiByte,
    PetaByte,
    PebiByte,
    ExaByte,
    ExbiByte,
}

/// Fraction units of the backend.
#[derive(Clone, Copy, Debug, PartialEq, Eq, Structural)]
pub enum FractionUnit {
    Ratio,
    Percent,
}

/// The backend's unit vocabulary.
#[derive(Debug, PartialEq)]
pub enum MetricUnit {
    Duration(DurationUnit),
    Information(InformationUnit),
    Fraction(FractionUnit),
    /// A user-defined unit without builtin meaning, kept as its spelling.
    Custom(String),
    /// No unit at all.
    NoUnit,
}

/// The mathematical model of a [`MetricUnit`]: the custom spelling is a
/// character sequence instead of a `String`.
pub enum MetricUnitV {
    Duration(DurationUnit),
    Information(InformationUnit),
    Fraction(FractionUnit),
    Custom(Seq<char>),
    NoUnit,
}

impl View for MetricUnit {
    type V = MetricUnitV;

    open spec fn view(&self) -> MetricUnitV {
        match self {
            MetricUnit::Duration(d) => MetricUnitV::Duration(*d),
            MetricUnit::Information(i) => MetricUnitV::Information(*i),
            MetricUnit::Fraction(f) => MetricUnitV::Fraction(*f),
            MetricUnit::Custom(s) => MetricUnitV::Custom(s@),
            MetricUnit::NoUnit => MetricUnitV::NoUnit,
        }
    }
}

impl Clone for MetricUnit {
    fn clone(&self) -> (r: Self)
        ensures
            r == *self,
    {
        match self {
            MetricUnit::Duration(d) => MetricUnit::Duration(*d),
            MetricUnit::Information(i) => MetricUnit::Information(*i),
            MetricUnit::Fraction(f) => MetricUnit::Fraction(*f),
            MetricUnit::Custom(s) => MetricUnit::Custom(s.clone()),
            MetricUnit::NoUnit => MetricUnit::NoUnit,
        }
    }
}

/// The exact table from the instrumentation vocabulary into the backend
/// vocabulary: every duration, information size and fraction concept maps to
/// its one-to-one backend variant; everything else becomes a custom unit
/// carrying the instrumentation unit's canonical spelling verbatim.
pub open spec fn spec_translate(unit: Unit) -> MetricUnitV {
    match unit {
        Unit::Percent => MetricUnitV::Fraction(FractionUnit::Percent),
        Unit::Seconds => MetricUnitV::Duration(DurationUnit::Second),
        Unit::Milliseconds => MetricUnitV::Duration(DurationUnit::MilliSecond),
        Unit::Microseconds => MetricUnitV::Duration(DurationUnit::MicroSecond),
        Unit::Nanoseconds => MetricUnitV::Duration(DurationUnit::NanoSecond),
        Unit::Tebibytes => MetricUnitV::Information(InformationUnit::TebiByte),
        Unit::Gigibytes => MetricUnitV::Information(InformationUnit::GibiByte),
        Unit::Mebibytes => MetricUnitV::Information(InformationUnit::MebiByte),
        Unit::Kibibytes => MetricUnitV::Information(InformationUnit::KibiByte),
        Unit::Bytes => MetricUnitV::Information(InformationUnit::Byte),
        Unit::Count => MetricUnitV::Custom("count"@),
        Unit::TerabitsPerSecond => MetricUnitV::Custom("terabits_per_second"@),
        Unit::GigabitsPerSecond => MetricUnitV::Custom("gigabits_per_second"@),
        Unit::MegabitsPerSecond => MetricUnitV::Custom("megabits_per_second"@),
        Unit::KilobitsPerSecond => MetricUnitV::Custom("kilobits_per_second"@),
        Unit::BitsPerSecond => MetricUnitV::Custom("bits_per_second"@),
        Unit::CountPerSecond => MetricUnitV::Custom("count_per_second"@),
    }
}

/// Maps an instrumentation unit to the backend unit it stands for.
///
/// Total: units with no exact backend counterpart come back as a custom unit
/// whose payload is the unit's own spelling, so the quantity is never
/// silently dropped.
pub fn translate(unit: Unit) -> (r: MetricUnit)
    ensures
        r@ == spec_translate(unit),
{
    match unit {
        Unit::Percent => MetricUnit::Fraction(FractionUnit::Percent),
        Unit::Seconds => MetricUnit::Duration(DurationUnit::Second),
        Unit::Milliseconds => MetricUnit::Duration(DurationUnit::MilliSecond),
        Unit::Microseconds => MetricUnit::Duration(DurationUnit::MicroSecond),
        Unit::Nanoseconds => MetricUnit::Duration(DurationUnit::NanoSecond),
        Unit::Tebibytes => MetricUnit::Information(InformationUnit::TebiByte),
        Unit::Gigibytes => MetricUnit::Information(InformationUnit::GibiByte),
        Unit::Mebibytes => MetricUnit::Information(InformationUnit::MebiByte),
        Unit::Kibibytes => MetricUnit::Information(InformationUnit::KibiByte),
        Unit::Bytes => MetricUnit::Information(InformationUnit::Byte),
        Unit::Count => MetricUnit::Custom("count".to_owned()),
        Unit::TerabitsPerSecond => MetricUnit::Custom("terabits_per_second".to_owned()),
        Unit::GigabitsPerSecond => MetricUnit::Custom("gigabits_per_second".to_owned()),
        Unit::MegabitsPerSecond => MetricUnit::Custom("megabits_per_second".to_owned()),
        Unit::KilobitsPerSecond => MetricUnit::Custom("kilobits_per_second".to_owned()),
        Unit::BitsPerSecond => MetricUnit::Custom("bits_per_second".to_owned()),
        Unit::CountPerSecond => MetricUnit::Custom("count_per_second".to_owned()),
    }
}

/// Relies on `str`'s `PartialEq`: two string slices compare equal exactly
/// when their character sequences are equal.
#[verifier::external_body]
pub(crate) fn str_eq(a: &str, b: &str) -> (r: bool)
    ensures
        r == (a@ == b@),
{
    a == b
}

/// The backend's textual unit grammar. Every spelling denotes a unit: the
/// canonical duration, information and fraction names (plus the short forms
/// `ns`, `ms` and `s`) denote their exact unit, the empty string and `none`
/// denote "no unit", and any other spelling denotes the custom unit that
/// carries it verbatim.
pub open spec fn spec_parse_unit(s: Seq<char>) -> MetricUnitV {
    if s == "nanosecond"@ || s == "ns"@ {
        MetricUnitV::Duration(DurationUnit::NanoSecond)
    } else if s == "microsecond"@ {
        MetricUnitV::Duration(DurationUnit::MicroSecond)
    } else if s == "millisecond"@ || s == "ms"@ {
        MetricUnitV::Duration(DurationUnit::MilliSecond)
    } else if s == "second"@ || s == "s"@ {
        MetricUnitV::Duration(DurationUnit::Second)
    } else if s == "minute"@ {
        MetricUnitV::Duration(DurationUnit::Minute)
    } else if s == "hour"@ {
        MetricUnitV::Duration(DurationUnit::Hour)
    } else if s == "day"@ {
        MetricUnitV::Duration(DurationUnit::Day)
    } else if s == "week"@ {
        MetricUnitV::Duration(DurationUnit::Week)
    } else if s == "bit"@ {
        MetricUnitV::Information(InformationUnit::Bit)
    } else if s == "byte"@ {
        MetricUnitV::Information(InformationUnit::Byte)
    } else if s == "kilobyte"@ {
        MetricUnitV::Information(InformationUnit::KiloByte)
    } else if s == "kibibyte"@ {
        MetricUnitV::Information(InformationUnit::KibiByte)
    } else if s == "megabyte"@ {
        MetricUnitV::Information(InformationUnit::MegaByte)
    } else if s == "mebibyte"@ {
        MetricUnitV::Information(InformationUnit::MebiByte)
    } else if s == "gigabyte"@ {
        MetricUnitV::Information(InformationUnit::GigaByte)
    } else if s == "gibibyte"@ {
        MetricUnitV::Information(InformationUnit::GibiByte)
    } else if s == "terabyte"@ {
        MetricUnitV::Information(InformationUnit::TeraByte)
    } else if s == "tebibyte"@ {
        MetricUnitV::Information(InformationUnit::TebiByte)
    } else if s == "petabyte"@ {
        MetricUnitV::Information(InformationUnit::PetaByte)
    } else if s == "pebibyte"@ {
        MetricUnitV::Information(InformationUnit::PebiByte)
    } else if s == "exabyte"@ {
        MetricUnitV::Information(InformationUnit::ExaByte)
    } else if s == "exbibyte"@ {
        MetricUnitV::Information(InformationUnit::ExbiByte)
    } else if s == "ratio"@ {
        MetricUnitV::Fraction(FractionUnit::Ratio)
    } else if s == "percent"@ {
        MetricUnitV::Fraction(FractionUnit::Percent)
    } else if s == ""@ || s == "none"@ {
        MetricUnitV::NoUnit
    } else {
        MetricUnitV::Custom(s)
    }
}

/// Reads a spelling of the backend's textual unit grammar.
///
/// Total: spellings outside the canonical tables come back as the custom
/// unit carrying the spelling verbatim.
pub fn parse_unit(s: &str) -> (r: MetricUnit)
    ensures
        r@ == spec_parse_unit(s@),
{
    if str_eq(s, "nanosecond") || str_eq(s, "ns") {
        MetricUnit::Duration(DurationUnit::NanoSecond)
    } else if str_eq(s, "microsecond") {
        MetricUnit::Duration(DurationUnit::MicroSecond)
    } else if str_eq(s, "millisecond") || str_eq(s, "ms") {
        MetricUnit::Duration(DurationUnit::MilliSecond)
    } else if str_eq(s, "second") || str_eq(s, "s") {
        MetricUnit::Duration(DurationUnit::Second)
    } else if str_eq(s, "minute") {
        MetricUnit::Duration(DurationUnit::Minute)
    } else if str_eq(s, "hour") {
        MetricUnit::Duration(DurationUnit::Hour)
    } else if str_eq(s, "day") {
        MetricUnit::Duration(DurationUnit::Day)
    } else if str_eq(s, "week") {
        MetricUnit::Duration(DurationUnit::Week)
    } else if str_eq(s, "bit") {
        MetricUnit::Information(InformationUnit::Bit)
    } else if str_eq(s, "byte") {
        MetricUnit::Information(InformationUnit::Byte)
    } else if str_eq(s, "kilobyte") {
        MetricUnit::Information(InformationUnit::KiloByte)
    } else if str_eq(s, "kibibyte") {
        MetricUnit::Information(InformationUnit::KibiByte)
    } else if str_eq(s, "megabyte") {
        MetricUnit::Information(InformationUnit::MegaByte)
    } else if str_eq(s, "mebibyte") {
        MetricUnit::Information(InformationUnit::MebiByte)
    } else if str_eq(s, "gigabyte") {
        MetricUnit::Information(InformationUnit::GigaByte)
    } else if str_eq(s, "gibibyte") {
        MetricUnit::Information(InformationUnit::GibiByte)
    } else if str_eq(s, "terabyte") {
        MetricUnit::Information(InformationUnit::TeraByte)
    } else if str_eq(s, "tebibyte") {
        MetricUnit::Information(InformationUnit::TebiByte)
    } else if str_eq(s, "petabyte") {
        MetricUnit::Information(InformationUnit::PetaByte)
    } else if str_eq(s, "pebibyte") {
        MetricUnit::Information(InformationUnit::PebiByte)
    } else if str_eq(s, "exabyte") {
        MetricUnit::Information(InformationUnit::ExaByte)
    } else if str_eq(s, "exbibyte") {
        MetricUnit::Information(InformationUnit::ExbiByte)
    } else if str_eq(s, "ratio") {
        MetricUnit::Fraction(FractionUnit::Ratio)
    } else if str_eq(s, "percent") {
        MetricUnit::Fraction(FractionUnit::Percent)
    } else if str_eq(s, "") || str_eq(s, "none") {
        MetricUnit::NoUnit
    } else {
        MetricUnit::Custom(s.to_owned())
    }
}

/// The canonical spelling of a backend unit: the name the backend prints for
/// it, the custom payload verbatim, and `none` for "no unit".
pub open spec fn spec_unit_text(u: MetricUnitV) -> Seq<char> {
    match u {
        MetricUnitV::Duration(d) => match d {
            DurationUnit::NanoSecond => "nanosecond"@,
            DurationUnit::MicroSecond => "microsecond"@,
            DurationUnit::MilliSecond => "millisecond"@,
            DurationUnit::Second => "second"@,
            DurationUnit::Minute => "minute"@,
            DurationUnit::Hour => "hour"@,
            DurationUnit::Day => "day"@,
            DurationUnit::Week => "week"@,
        },
        MetricUnitV::Information(i) => match i {
            InformationUnit::Bit => "bit"@,
            InformationUnit::Byte => "byte"@,
            InformationUnit::KiloByte => "kilobyte"@,
            InformationUnit::KibiByte => "kibibyte"@,
            InformationUnit::MegaByte => "megabyte"@,
            InformationUnit::MebiByte => "mebibyte"@,
            InformationUnit::GigaByte => "gigabyte"@,
            InformationUnit::GibiByte => "gibibyte"@,
            InformationUnit::TeraByte => "terabyte"@,
            InformationUnit::TebiByte => "tebibyte"@,
            InformationUnit::PetaByte => "petabyte"@,
            InformationUnit::PebiByte => "pebibyte"@,
            InformationUnit::ExaByte => "exabyte"@,
            InformationUnit::ExbiByte => "exbibyte"@,
        },
        MetricUnitV::Fraction(f) => match f {
            FractionUnit::Ratio => "ratio"@,
            FractionUnit::Percent => "percent"@,
        },
        MetricUnitV::Custom(s) => s,
        MetricUnitV::NoUnit => "none"@,
    }
}

impl MetricUnit {
    /// The canonical spelling of this unit.
    pub fn as_text(&self) -> (r: String)
        ensures
            r@ == spec_unit_text(self@),
    {
        match self {
            MetricUnit::Duration(d) => match d {
                DurationUnit::NanoSecond => "nanosecond".to_owned(),
                DurationUnit::MicroSecond => "microsecond".to_owned(),
                DurationUnit::MilliSecond => "millisecond".to_owned(),
                DurationUnit::Second => "second".to_owned(),
                DurationUnit::Minute => "minute".to_owned(),
                DurationUnit::Hour => "hour".to_owned(),
                DurationUnit::Day => "day".to_owned(),
                DurationUnit::Week => "week".to_owned(),
            },
            MetricUnit::Information(i) => match i {
                InformationUnit::Bit => "bit".to_owned(),
                InformationUnit::Byte => "byte".to_owned(),
                InformationUnit::KiloByte => "kilobyte".to_owned(),
                InformationUnit::KibiByte => "kibibyte".to_owned(),
                InformationUnit::MegaByte => "megabyte".to_owned(),
                InformationUnit::MebiByte => "mebibyte".to_owned(),
                InformationUnit::GigaByte => "gigabyte".to_owned(),
                InformationUnit::GibiByte => "gibibyte".to_owned(),
                InformationUnit::TeraByte => "terabyte".to_owned(),
                InformationUnit::TebiByte => "tebibyte".to_owned(),
                InformationUnit::PetaByte => "petabyte".to_owned(),
                InformationUnit::PebiByte => "pebibyte".to_owned(),
                InformationUnit::ExaByte => "exabyte".to_owned(),
                InformationUnit::ExbiByte => "exbibyte".to_owned(),
            },
            MetricUnit::Fraction(f) => match f {
                FractionUnit::Ratio => "ratio".to_owned(),
                FractionUnit::Percent => "percent".to_owned(),
            },
            MetricUnit::Custom(s) => s.clone(),
            MetricUnit::NoUnit => "none".to_owned(),
        }
    }
}

} // verus!
