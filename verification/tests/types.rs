use usrp::error::err_to_string;
use usrp::io::sc16_to_le_bytes;
use usrp::sensors::{i32_to_dec_string, DataType, SensorValue};
use usrp::string_vector::StringVector;
use usrp::subdev_spec::SubdevSpec;
use usrp::time::TimeSpec;

#[test]
fn create_bool_sensor_value() {
    let x = SensorValue::from_bool("test_bool", true, "test_true", "test_false").unwrap();
    let x_name = x.get_name().unwrap();
    assert_eq!("test_bool", &x_name);
    assert_eq!(DataType::Boolean, x.get_data_type().unwrap());
    assert_eq!("true", x.get_value().unwrap());
    assert_eq!(true, x.to_bool().unwrap());
}

#[test]
fn create_string_sensor_value() {
    let x = SensorValue::from_string("test_string", "One Ring to Rule Them All", "unit_test").unwrap();
    assert_eq!("test_string", x.get_name().unwrap());
    assert_eq!(DataType::String, x.get_data_type().unwrap());
    assert_eq!("One Ring to Rule Them All", x.get_value().unwrap());
}

#[test]
fn create_int_sensor_value() {
    let x = SensorValue::from_int("temperature", 75, "[deg]", "%d").unwrap();
    assert_eq!("temperature", x.get_name().unwrap());
    assert_eq!(DataType::Integer, x.get_data_type().unwrap());
    assert_eq!("75", x.get_value().unwrap());
    assert_eq!(75, x.to_int().unwrap());
    assert_eq!("[deg]", x.get_unit().unwrap());
}

#[test]
fn subdev_spec_basic() -> Result<(), &'static str> {
    let mut s = SubdevSpec::new("A0")?;
    assert_eq!(1, s.len()?);

    s.push_back("A1")?;
    assert_eq!(2, s.len()?);

    Ok(())
}

#[test]
fn subdev_spec_markup_round_trip() {
    let s = SubdevSpec::new("A:0 B:1").unwrap();
    assert_eq!(2, s.len().unwrap());
    assert_eq!("A:0 B:1", s.to_string().unwrap());

    let empty = SubdevSpec::new("").unwrap();
    assert_eq!(0, empty.len().unwrap());
    assert_eq!("", empty.to_string().unwrap());

    let padded = SubdevSpec::new("  A:0   B:1 ").unwrap();
    assert_eq!(2, padded.len().unwrap());
    assert_eq!("A:0 B:1", padded.to_string().unwrap());
}

#[test]
fn bool_sensor_unit_tracks_value() {
    let t = SensorValue::from_bool("locked", true, "yes", "no").unwrap();
    assert_eq!("yes", t.get_unit().unwrap());
    assert_eq!("locked: yes", t.to_pp_string().unwrap());

    let f = SensorValue::from_bool("locked", false, "yes", "no").unwrap();
    assert_eq!("no", f.get_unit().unwrap());
    assert_eq!("false", f.get_value().unwrap());
}

#[test]
fn int_sensor_pp_string() {
    let x = SensorValue::from_int("temperature", 75, "[deg]", "%d").unwrap();
    assert_eq!("temperature: 75 [deg]", x.to_pp_string().unwrap());
}

#[test]
fn sensor_type_mismatch_is_rejected() {
    let x = SensorValue::from_int("n", 5, "", "%d").unwrap();
    assert!(x.to_bool().is_err());
    let b = SensorValue::from_bool("b", true, "t", "f").unwrap();
    assert!(b.to_int().is_err());
}

#[test]
fn decimal_rendering() {
    assert_eq!("0", i32_to_dec_string(0));
    assert_eq!("9", i32_to_dec_string(9));
    assert_eq!("10", i32_to_dec_string(10));
    assert_eq!("75", i32_to_dec_string(75));
    assert_eq!("-1", i32_to_dec_string(-1));
    assert_eq!("-12345", i32_to_dec_string(-12345));
    assert_eq!("2147483647", i32_to_dec_string(i32::MAX));
    assert_eq!("-2147483648", i32_to_dec_string(i32::MIN));
}

#[test]
fn error_code_names() {
    assert_eq!("None", err_to_string(0));
    assert_eq!("uhd::key_error", err_to_string(11));
    assert_eq!("uhd::not_implemented", err_to_string(20));
    assert_eq!("uhd::lookup_error", err_to_string(41));
    assert_eq!("uhd::value", err_to_string(43));
    assert_eq!("Unknown error at the C level", err_to_string(100));
    assert_eq!("Unknown error at the Rust level", err_to_string(7));
    assert_eq!("Unknown error at the Rust level", err_to_string(-1));
}

#[test]
fn string_vector_round_trip() {
    let entries = vec![
        String::from("internal"),
        String::from("external"),
        String::from("gpsdo"),
    ];
    let v = StringVector::from_entries(entries.clone());
    assert_eq!(3, v.len().unwrap());
    assert_eq!("external", v.get_at(1).unwrap());
    assert!(v.get_at(3).is_err());
    assert_eq!(entries, v.get_rust_vec().unwrap());

    let mut w = StringVector::new().unwrap();
    assert_eq!(0, w.len().unwrap());
    w.push_back(String::from("TX/RX"));
    assert_eq!(vec![String::from("TX/RX")], w.get_rust_vec().unwrap());
}

#[test]
fn sample_bytes_are_interleaved_little_endian() {
    let data = vec![(1i16, -1i16), (258i16, -2i16)];
    let bytes = sc16_to_le_bytes(&data);
    assert_eq!(
        vec![1u8, 0, 255, 255, 2, 1, 254, 255],
        bytes
    );
    assert_eq!(8, bytes.len());
    assert_eq!(0, sc16_to_le_bytes(&Vec::new()).len());
}

#[test]
fn sample_bytes_round_trip() {
    let data = vec![(0i16, 0i16), (i16::MAX, i16::MIN), (-3, 7)];
    let bytes = sc16_to_le_bytes(&data);
    assert_eq!(data, usrp::io::sc16_from_le_bytes(&bytes).unwrap());

    // A byte count that is not whole samples is rejected.
    assert!(usrp::io::sc16_from_le_bytes(&vec![1u8, 2, 3]).is_err());
}

#[test]
fn time_spec_construction() {
    let t = TimeSpec::new(5, 500_000_000);
    assert_eq!(5, t.full_secs);
    assert_eq!(500_000_000, t.frac_ns);
    let z = TimeSpec::zero();
    assert_eq!(0, z.full_secs);
    assert_eq!(0, z.frac_ns);
}
