use http_app::sensor::{Measurements, SensorType, SensorValue};

#[test]
fn next_follows_cycle() {
    assert_eq!(SensorType::Temperature.next(), SensorType::Humidity);
    assert_eq!(SensorType::Humidity.next(), SensorType::Pressure);
    assert_eq!(SensorType::Pressure.next(), SensorType::Temperature);
}

#[test]
fn three_presses_return_to_start() {
    for s in [SensorType::Temperature, SensorType::Humidity, SensorType::Pressure] {
        assert_eq!(s.next().next().next(), s);
        assert_ne!(s.next(), s);
    }
}

#[test]
fn every_kind_reached_within_two_presses() {
    let all = [SensorType::Temperature, SensorType::Humidity, SensorType::Pressure];
    for s in all {
        for t in all {
            assert!(s == t || s.next() == t || s.next().next() == t);
        }
    }
}

#[test]
fn value_follows_selected_kind() {
    let m = Measurements {
        temperature: 23.5f32.to_bits(),
        humidity: 40.25f32.to_bits(),
        pressure: 101325.0f32.to_bits(),
    };
    assert_eq!(
        SensorValue::from_measurements(SensorType::Temperature, &m),
        SensorValue::Temperature(23.5f32.to_bits())
    );
    assert_eq!(
        SensorValue::from_measurements(SensorType::Humidity, &m),
        SensorValue::Humidity(40.25f32.to_bits())
    );
    assert_eq!(
        SensorValue::from_measurements(SensorType::Pressure, &m),
        SensorValue::Pressure(101325.0f32.to_bits())
    );
}

#[test]
fn kind_and_reading() {
    let v = SensorValue::Humidity(7);
    assert_eq!(v.kind(), SensorType::Humidity);
    assert_eq!(v.reading(), 7);
    assert_eq!(SensorValue::Pressure(9).kind(), SensorType::Pressure);
    assert_eq!(SensorValue::Temperature(3).reading(), 3);
}

#[test]
fn text_of_each_kind() {
    let t = 23.456f32;
    let text = format!("{:.2}", t);
    assert_eq!(SensorValue::Temperature(t.to_bits()).to_string(&text), "temp: 23.46");
    assert_eq!(SensorValue::Humidity(0).to_string("40.25"), "humi: 40.25");
    assert_eq!(SensorValue::Pressure(0).to_string("101325.00"), "pres: 101325.00");
}

#[test]
fn text_matches_two_decimal_format() {
    for x in [0.0f32, -3.125, 99.999, 1013.25] {
        assert_eq!(
            SensorValue::Temperature(x.to_bits()).to_string(&format!("{:.2}", x)),
            format!("temp: {:.2}", x)
        );
        assert_eq!(
            SensorValue::Humidity(x.to_bits()).to_string(&format!("{:.2}", x)),
            format!("humi: {:.2}", x)
        );
        assert_eq!(
            SensorValue::Pressure(x.to_bits()).to_string(&format!("{:.2}", x)),
            format!("pres: {:.2}", x)
        );
    }
}
