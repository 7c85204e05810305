//! Sensor values: typed readings (boolean, integer, string) queried from the
//! device by name, with their unit text and a printable rendering.
//!
//! Real-number sensor values exist in the native driver as well, but carry
//! floating-point payloads and are handled only by the unverified layer; the
//! synchronization protocol reads booleans and integers.

use vstd::prelude::*;
use vstd::string::StrSliceExecFns;
use vstd::string::StringExecFns;

verus! {

/// The type of a sensor's payload.
#[derive(Clone, Copy, Debug, PartialEq, Eq, Structural)]
pub enum DataType {
    Boolean,
    Integer,
    RealNum,
    String,
}

/// The payload of one sensor value.
#[allow(inconsistent_fields)]
pub enum SensorData {
    Boolean { value: bool },
    Integer { value: i32, formatter: String },
    Text { value: String },
}

/// One typed sensor reading: its name, its unit text, and its payload. For a
/// boolean sensor the unit is the caller's true- or false-representation,
/// selected by the value, as the native driver does.
pub struct SensorValue {
    pub name: String,
    pub unit: String,
    pub data: SensorData,
}

/// The decimal digit character for `d`.
pub open spec fn spec_digit(d: nat) -> char {
    if d == 0 {
        '0'
    } else if d == 1 {
        '1'
    } else if d == 2 {
        '2'
    } else if d == 3 {
        '3'
    } else if d == 4 {
        '4'
    } else if d == 5 {
        '5'
    } else if d == 6 {
        '6'
    } else if d == 7 {
        '7'
    } else if d == 8 {
        '8'
    } else {
        '9'
    }
}

/// The decimal rendering of a nonnegative number.
pub open spec fn spec_u32_dec(n: nat) -> Seq<char>
    decreases n,
{
    if n < 10 {
        seq![spec_digit(n)]
    } else {
        spec_u32_dec(n / 10) + seq![spec_digit(n % 10)]
    }
}

/// The decimal rendering of a signed number: a minus sign before the
/// magnitude when it is negative.
pub open spec fn spec_i32_dec(v: int) -> Seq<char> {
    if v < 0 {
        seq!['-'] + spec_u32_dec((-v) as nat)
    } else {
        spec_u32_dec(v as nat)
    }
}

fn digit_str(d: u32) -> (r: &'static str)
    requires
        d < 10,
    ensures
        r@ == seq![spec_digit(d as nat)],
{
    match d {
        0 => {
            proof {
                reveal_strlit("0");
                assert("0"@ =~= seq![spec_digit(0)]);
            }
            "0"
        },
        1 => {
            proof {
                reveal_strlit("1");
                assert("1"@ =~= seq![spec_digit(1)]);
            }
            "1"
        },
        2 => {
            proof {
                reveal_strlit("2");
                assert("2"@ =~= seq![spec_digit(2)]);
            }
            "2"
        },
        3 => {
            proof {
                reveal_strlit("3");
                assert("3"@ =~= seq![spec_digit(3)]);
            }
            "3"
        },
        4 => {
            proof {
                reveal_strlit("4");
                assert("4"@ =~= seq![spec_digit(4)]);
            }
            "4"
        },
        5 => {
            proof {
                reveal_strlit("5");
                assert("5"@ =~= seq![spec_digit(5)]);
            }
            "5"
        },
        6 => {
            proof {
                reveal_strlit("6");
                assert("6"@ =~= seq![spec_digit(6)]);
            }
            "6"
        },
        7 => {
            proof {
                reveal_strlit("7");
                assert("7"@ =~= seq![spec_digit(7)]);
            }
            "7"
        },
        8 => {
            proof {
                reveal_strlit("8");
                assert("8"@ =~= seq![spec_digit(8)]);
            }
            "8"
        },
        _ => {
            proof {
                reveal_strlit("9");
                assert("9"@ =~= seq![spec_digit(9)]);
            }
            "9"
        },
    }
}

fn push_dec_u32(n: u32, out: &mut String)
    ensures
        final(out)@ == old(out)@ + spec_u32_dec(n as nat),
    decreases n,
{
    let ghost prior = old(out)@;
    if n >= 10 {
        push_dec_u32(n / 10, out);
    }
    let d = digit_str(n % 10);
    out.append(d);
    proof {
        if n < 10 {
            assert(out@ =~= prior + spec_u32_dec(n as nat));
        } else {
            assert(out@ =~= prior + (spec_u32_dec(n as nat / 10) + seq![
                spec_digit(n as nat % 10),
            ]));
        }
    }
}

/// Renders a signed number in decimal.
pub fn i32_to_dec_string(value: i32) -> (r: String)
    ensures
        r@ == spec_i32_dec(value as int),
{
    let mut out = String::new();
    if value < 0 {
        out.append("-");
        let mag64: i64 = -(value as i64);
        let mag: u32 = mag64 as u32;
        proof {
            assert(mag == -(value as int));
        }
        let ghost prior = out@;
        push_dec_u32(mag, &mut out);
        proof {
            reveal_strlit("-");
            assert(prior =~= seq!['-']);
            assert(out@ =~= spec_i32_dec(value as int));
        }
    } else {
        push_dec_u32(value as u32, &mut out);
        proof {
            assert(out@ =~= spec_i32_dec(value as int));
        }
    }
    out
}

impl SensorValue {
    /// The characters of this value's printable payload: `true`/`false` for a
    /// boolean, the decimal rendering for an integer, the text itself for a
    /// string.
    pub open spec fn spec_value_chars(self) -> Seq<char> {
        match self.data {
            SensorData::Boolean { value } => if value {
                "true"@
            } else {
                "false"@
            },
            SensorData::Integer { value, formatter: _ } => spec_i32_dec(value as int),
            SensorData::Text { value } => value@,
        }
    }

    /// The characters of the printable form: `name: unit` for a boolean —
    /// whose unit is its selected representation — and `name: value unit` for
    /// the others.
    pub open spec fn spec_pp_chars(self) -> Seq<char> {
        match self.data {
            SensorData::Boolean { value: _ } => self.name@ + ": "@ + self.unit@,
            _ => self.name@ + ": "@ + self.spec_value_chars() + " "@ + self.unit@,
        }
    }

    /// An empty sensor value, as the native layer starts from before a query
    /// fills it.
    pub fn new() -> (r: Result<SensorValue, &'static str>)
        ensures
            r matches Ok(s) && {
                &&& s.name@ == Seq::<char>::empty()
                &&& s.unit@ == Seq::<char>::empty()
                &&& s.data matches SensorData::Text { value } && value@ == Seq::<char>::empty()
            },
    {
        Ok(
            SensorValue {
                name: String::new(),
                unit: String::new(),
                data: SensorData::Text { value: String::new() },
            },
        )
    }

    /// A boolean sensor value. Its unit is the representation selected by the
    /// value: `repr_true` when set, `repr_false` otherwise.
    pub fn from_bool(name: &str, value: bool, repr_true: &str, repr_false: &str) -> (r: Result<
        SensorValue,
        &'static str,
    >)
        ensures
            r matches Ok(s) && {
                &&& s.name@ == name@
                &&& s.unit@ == (if value {
                    repr_true@
                } else {
                    repr_false@
                })
                &&& s.data matches SensorData::Boolean { value: v } && v == value
            },
    {
        let unit = if value {
            repr_true.to_owned()
        } else {
            repr_false.to_owned()
        };
        Ok(SensorValue { name: name.to_owned(), unit, data: SensorData::Boolean { value } })
    }

    /// An integer sensor value with its unit and formatter text. The
    /// formatter is kept as descriptive text; the printable payload is the
    /// decimal rendering.
    pub fn from_int(name: &str, value: i32, unit: &str, formatter: &str) -> (r: Result<
        SensorValue,
        &'static str,
    >)
        ensures
            r matches Ok(s) && {
                &&& s.name@ == name@
                &&& s.unit@ == unit@
                &&& s.data matches SensorData::Integer { value: v, formatter: f } && v == value
                    && f@ == formatter@
            },
    {
        Ok(
            SensorValue {
                name: name.to_owned(),
                unit: unit.to_owned(),
                data: SensorData::Integer { value, formatter: formatter.to_owned() },
            },
        )
    }

    /// A string sensor value with its unit.
    pub fn from_string(name: &str, value: &str, unit: &str) -> (r: Result<
        SensorValue,
        &'static str,
    >)
        ensures
            r matches Ok(s) && {
                &&& s.name@ == name@
                &&& s.unit@ == unit@
                &&& s.data matches SensorData::Text { value: v } && v@ == value@
            },
    {
        Ok(
            SensorValue {
                name: name.to_owned(),
                unit: unit.to_owned(),
                data: SensorData::Text { value: value.to_owned() },
            },
        )
    }

    pub fn get_name(&self) -> (r: Result<String, &'static str>)
        ensures
            r matches Ok(s) && s@ == self.name@,
    {
        Ok(self.name.clone())
    }

    pub fn get_unit(&self) -> (r: Result<String, &'static str>)
        ensures
            r matches Ok(s) && s@ == self.unit@,
    {
        Ok(self.unit.clone())
    }

    /// The printable payload: `true`/`false`, the decimal rendering, or the
    /// text itself.
    pub fn get_value(&self) -> (r: Result<String, &'static str>)
        ensures
            r matches Ok(s) && s@ == self.spec_value_chars(),
    {
        match &self.data {
            SensorData::Boolean { value } => {
                if *value {
                    Ok(String::from_str("true"))
                } else {
                    Ok(String::from_str("false"))
                }
            },
            SensorData::Integer { value, formatter: _ } => Ok(i32_to_dec_string(*value)),
            SensorData::Text { value } => Ok(value.clone()),
        }
    }

    pub fn get_data_type(&self) -> (r: Result<DataType, &'static str>)
        ensures
            r matches Ok(t) && t == (match self.data {
                SensorData::Boolean { value: _ } => DataType::Boolean,
                SensorData::Integer { value: _, formatter: _ } => DataType::Integer,
                SensorData::Text { value: _ } => DataType::String,
            }),
    {
        match &self.data {
            SensorData::Boolean { value: _ } => Ok(DataType::Boolean),
            SensorData::Integer { value: _, formatter: _ } => Ok(DataType::Integer),
            SensorData::Text { value: _ } => Ok(DataType::String),
        }
    }

    /// The boolean payload; an error when the sensor holds another type.
    pub fn to_bool(&self) -> (r: Result<bool, &'static str>)
        ensures
            match self.data {
                SensorData::Boolean { value } => r == Ok::<bool, &'static str>(value),
                _ => r matches Err(m) && m@ == "Sensor value does not hold a boolean"@,
            },
    {
        match &self.data {
            SensorData::Boolean { value } => Ok(*value),
            _ => Err("Sensor value does not hold a boolean"),
        }
    }

    /// The integer payload; an error when the sensor holds another type.
    pub fn to_int(&self) -> (r: Result<i32, &'static str>)
        ensures
            match self.data {
                SensorData::Integer { value, formatter: _ } => r == Ok::<i32, &'static str>(value),
                _ => r matches Err(m) && m@ == "Sensor value does not hold an integer"@,
            },
    {
        match &self.data {
            SensorData::Integer { value, formatter: _ } => Ok(*value),
            _ => Err("Sensor value does not hold an integer"),
        }
    }

    /// The printable form of the whole reading.
    pub fn to_pp_string(&self) -> (r: Result<String, &'static str>)
        ensures
            r matches Ok(s) && s@ == self.spec_pp_chars(),
    {
        let mut out = self.name.clone();
        out.append(": ");
        match &self.data {
            SensorData::Boolean { value: _ } => {
                out.append(self.unit.as_str());
                proof {
                    assert(out@ =~= self.spec_pp_chars());
                }
            },
            _ => {
                let value = self.get_value()?;
                out.append(value.as_str());
                out.append(" ");
                out.append(self.unit.as_str());
                proof {
                    assert(out@ =~= self.spec_pp_chars());
                }
            },
        }
        Ok(out)
    }
}

} // verus!
