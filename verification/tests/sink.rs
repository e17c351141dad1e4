use ev_mcu::alert::decode_alerts;
use ev_mcu::decoder::decode;
use ev_mcu::frame::{Frame, CELLVOLT_GROUP0, CELLVOLT_GROUP1, MCUSUM_ID, PACKSUM_ID};
use ev_mcu::record::{ChargeState, PlugState, Scale, Scaled, TelemetryRecord};
use ev_mcu::sink::{metric_line, metric_topic};
use ev_mcu::text::{push_decimal, push_integer, push_scaled, push_two_digits};

fn scaled(raw: i32, scale: Scale) -> String {
    let mut line = String::new();
    push_scaled(&mut line, Scaled { raw, scale });
    line
}

#[test]
fn topic_of_metric_lines() {
    assert_eq!(metric_topic(), "mcu");
}

#[test]
fn digits_and_integers() {
    let mut line = String::new();
    for digit in 0..10u32 {
        push_decimal(&mut line, digit);
    }
    assert_eq!(line, "0123456789");
    let mut line = String::from("x=");
    push_decimal(&mut line, 0);
    line.push(' ');
    push_decimal(&mut line, 7);
    line.push(' ');
    push_decimal(&mut line, 1230);
    line.push(' ');
    push_decimal(&mut line, u32::MAX);
    assert_eq!(line, "x=0 7 1230 4294967295");
    let mut line = String::new();
    push_integer(&mut line, -128);
    line.push(' ');
    push_integer(&mut line, 127);
    line.push(' ');
    push_integer(&mut line, 0);
    line.push(' ');
    push_integer(&mut line, i32::MIN);
    assert_eq!(line, "-128 127 0 -2147483648");
    let mut line = String::new();
    push_two_digits(&mut line, 0);
    push_two_digits(&mut line, 7);
    push_two_digits(&mut line, 20);
    push_two_digits(&mut line, 255);
    assert_eq!(line, "000720255");
}

#[test]
fn integers_agree_with_std_formatting() {
    for value in -300..300i32 {
        let mut line = String::new();
        push_integer(&mut line, value);
        assert_eq!(line, format!("{}", value));
    }
    for n in 0..=255u8 {
        let mut line = String::new();
        push_two_digits(&mut line, n);
        assert_eq!(line, format!("{:02}", n));
    }
}

#[test]
fn fraction_digits_stop_at_the_last_nonzero_digit() {
    assert_eq!(scaled(16, Scale::TenThousandths), "0.0016");
    assert_eq!(scaled(5000, Scale::TenThousandths), "0.5");
    assert_eq!(scaled(1050, Scale::TenThousandths), "0.105");
    assert_eq!(scaled(9, Scale::Tenths), "0.9");
    assert_eq!(scaled(7, Scale::Hundredths), "0.07");
    assert_eq!(scaled(70, Scale::Hundredths), "0.7");
    assert_eq!(scaled(20, Scale::Tenths), "2");
}

#[test]
fn scaled_values_as_text() {
    assert_eq!(scaled(100, Scale::Tenths), "10");
    assert_eq!(scaled(-10, Scale::Tenths), "-1");
    assert_eq!(scaled(-5, Scale::Tenths), "-0.5");
    assert_eq!(scaled(0, Scale::Tenths), "0");
    assert_eq!(scaled(10016, Scale::TenThousandths), "1.0016");
    assert_eq!(scaled(10000, Scale::TenThousandths), "1");
    assert_eq!(scaled(1, Scale::TenThousandths), "0.0001");
    assert_eq!(scaled(32500, Scale::TenThousandths), "3.25");
    assert_eq!(scaled(1234, Scale::Hundredths), "12.34");
    assert_eq!(scaled(65535, Scale::Hundredths), "655.35");
    assert_eq!(scaled(65530, Scale::Hundredths), "655.3");
    assert_eq!(scaled(i32::MIN, Scale::Tenths), "-214748364.8");
}

#[test]
fn scaled_text_agrees_with_floating_point_formatting() {
    for raw in 0..=u16::MAX {
        assert_eq!(scaled(raw as i32, Scale::Tenths), format!("{}", raw as f32 / 10.0));
        assert_eq!(scaled(raw as i32, Scale::Hundredths), format!("{}", raw as f32 / 100.0));
        assert_eq!(scaled(raw as i32, Scale::TenThousandths), format!("{}", raw as f32 / 10000.0));
    }
    for raw in i16::MIN..=i16::MAX {
        if raw != 0 {
            assert_eq!(scaled(raw as i32, Scale::Tenths), format!("{}", raw as f32 / 10.0));
        }
    }
}

#[test]
fn pack_summary_line() {
    let record = TelemetryRecord::PackSummary {
        voltage: Scaled { raw: 100, scale: Scale::Tenths },
        current: Scaled { raw: -10, scale: Scale::Tenths },
    };
    assert_eq!(metric_line(&record), "power,system=pack pack_voltage=10,pack_current=-1");
    let frame = Frame { identifier: PACKSUM_ID, payload: vec![0, 0, 0xE7, 0x03, 0x85, 0xFF, 0, 0] };
    let records = decode(&frame).unwrap();
    assert_eq!(metric_line(&records[0]), "power,system=pack pack_voltage=99.9,pack_current=-12.3");
}

#[test]
fn cell_voltage_summary_line() {
    let record = TelemetryRecord::CellVoltageSummary {
        low: Scaled { raw: 30000, scale: Scale::TenThousandths },
        mean: Scaled { raw: 32008, scale: Scale::TenThousandths },
        high: Scaled { raw: 33700, scale: Scale::TenThousandths },
    };
    assert_eq!(
        metric_line(&record),
        "power,system=cells cell_voltage_low=3,cell_voltage_mean=3.2008,cell_voltage_high=3.37"
    );
}

#[test]
fn cell_group_lines() {
    let frame =
        Frame { identifier: CELLVOLT_GROUP0, payload: vec![2, 0, 0x10, 0x27, 0x20, 0x27, 0x30, 0x27] };
    let records = decode(&frame).unwrap();
    assert_eq!(metric_line(&records[0]), "power,system=pack cv_07=1,cv_08=1.0016,cv_09=1.0032");
    let frame = Frame { identifier: CELLVOLT_GROUP1, payload: vec![3, 0, 0x4C, 0x81, 0, 0, 0, 0] };
    let records = decode(&frame).unwrap();
    assert_eq!(metric_line(&records[0]), "power,system=pack cv_20=3.31");
    let uneven = TelemetryRecord::CellGroupVoltages {
        group_index: 0,
        cell_numbers: vec![1, 2, 3],
        voltages: vec![Scaled { raw: 5, scale: Scale::TenThousandths }],
    };
    assert_eq!(metric_line(&uneven), "power,system=pack cv_01=0.0005");
    let empty = TelemetryRecord::CellGroupVoltages {
        group_index: 9,
        cell_numbers: Vec::new(),
        voltages: Vec::new(),
    };
    assert_eq!(metric_line(&empty), "power,system=pack ");
}

#[test]
fn thermistor_soc_and_aux_lines() {
    let record = TelemetryRecord::ThermistorSummary {
        count: 6,
        temp_low: -10,
        temp_high: 25,
        alarm_low: -20,
        alarm_high: 60,
    };
    assert_eq!(
        metric_line(&record),
        "power,system=pack thermistor_count=6,thermistor_temp_low=-10,thermistor_temp_high=25,thermistor_temp_low_alarm=-20,thermistor_temp_high_alarm=60"
    );
    let record = TelemetryRecord::SocSummary {
        soc: 87,
        kwh_current: Scaled { raw: 123, scale: Scale::Tenths },
        kwh_max: Scaled { raw: 250, scale: Scale::Tenths },
    };
    assert_eq!(
        metric_line(&record),
        "power,system=pack soc=87,pack_kwh_current=12.3,pack_kwh_max=25"
    );
    let record = TelemetryRecord::AuxThermistorPair { th_a: 21, th_b: -2 };
    assert_eq!(metric_line(&record), "power,system=pack th_04=21,th_05=-2");
}

#[test]
fn charge_summary_line_quotes_text() {
    let record = TelemetryRecord::ChargeSummary {
        charge_kwh: Scaled { raw: 1234, scale: Scale::Hundredths },
        charge_state: ChargeState::TopBalance,
        plug_state: PlugState::WaitingForDisconnect,
    };
    assert_eq!(
        metric_line(&record),
        "power,system=mcu charge_kwh=12.34,charge_state=\"Top Balance\",charge_plug_state=\"Waiting For Disc\""
    );
}

#[test]
fn alert_line_lists_every_flag_in_order() {
    let record = TelemetryRecord::AlertBitfield { flags: decode_alerts(0x0400) };
    assert_eq!(
        metric_line(&record),
        "power,system=bms BMS_FAULT_ILLEGAL_CONF=0,BMS_FAULT_NOT_LOCKED=0,BMS_FAULT_TH_UNDERTEMP=0,BMS_FAULT_TH_OVERTEMP=0,BMS_FAULT_CELL_LVC=1,BMS_FAULT_CELL_HVC=0,BMS_FAULT_THERM_CENSUS=0,BMS_FAULT_CELL_CENSUS=0,BMS_FAULT_HARDWARE=0"
    );
    let frame = Frame { identifier: MCUSUM_ID, payload: vec![0, 0, 0, 0, 0, 1, 0x40, 0x40] };
    let records = decode(&frame).unwrap();
    assert_eq!(
        metric_line(&records[0]),
        "power,system=bms BMS_FAULT_ILLEGAL_CONF=1,BMS_FAULT_NOT_LOCKED=0,BMS_FAULT_TH_UNDERTEMP=0,BMS_FAULT_TH_OVERTEMP=0,BMS_FAULT_CELL_LVC=0,BMS_FAULT_CELL_HVC=0,BMS_FAULT_THERM_CENSUS=0,BMS_FAULT_CELL_CENSUS=0,BMS_FAULT_HARDWARE=1"
    );
    assert_eq!(
        metric_line(&records[1]),
        "power,system=mcu charge_kwh=0,charge_state=\"Standby\",charge_plug_state=\"Disconnected\""
    );
    let none = TelemetryRecord::AlertBitfield { flags: Vec::new() };
    assert_eq!(metric_line(&none), "power,system=bms ");
}
