use han_bridge::builder::build_message;
use han_bridge::record::Message;
use han_bridge::telegram::{DecodeError, DecodedObject, Direction, Line, PowerKind, Telegram};

fn telegram_of(objects: Vec<Result<DecodedObject, DecodeError>>) -> Telegram {
    Telegram { identification: b"meter".to_vec(), objects }
}

#[test]
fn empty_telegram_builds_zero_record() {
    let t = telegram_of(vec![]);
    let m = build_message(&t).unwrap();
    assert_eq!(m, Message::default());
}

#[test]
fn every_object_kind_lands_in_its_field() {
    let t = telegram_of(vec![
        Ok(DecodedObject::DateTime(1700000000)),
        Ok(DecodedObject::Energy(PowerKind::Active, Direction::FromGrid, 1)),
        Ok(DecodedObject::Energy(PowerKind::Active, Direction::ToGrid, 2)),
        Ok(DecodedObject::Energy(PowerKind::Reactive, Direction::FromGrid, 3)),
        Ok(DecodedObject::Energy(PowerKind::Reactive, Direction::ToGrid, 4)),
        Ok(DecodedObject::TotalPower(PowerKind::Active, Direction::FromGrid, 5)),
        Ok(DecodedObject::TotalPower(PowerKind::Active, Direction::ToGrid, 6)),
        Ok(DecodedObject::TotalPower(PowerKind::Reactive, Direction::FromGrid, 7)),
        Ok(DecodedObject::TotalPower(PowerKind::Reactive, Direction::ToGrid, 8)),
        Ok(DecodedObject::LinePower(Line::L1, PowerKind::Active, Direction::FromGrid, 9)),
        Ok(DecodedObject::LinePower(Line::L1, PowerKind::Active, Direction::ToGrid, 10)),
        Ok(DecodedObject::LinePower(Line::L1, PowerKind::Reactive, Direction::FromGrid, 11)),
        Ok(DecodedObject::LinePower(Line::L1, PowerKind::Reactive, Direction::ToGrid, 12)),
        Ok(DecodedObject::LinePower(Line::L2, PowerKind::Active, Direction::FromGrid, 13)),
        Ok(DecodedObject::LinePower(Line::L2, PowerKind::Active, Direction::ToGrid, 14)),
        Ok(DecodedObject::LinePower(Line::L2, PowerKind::Reactive, Direction::FromGrid, 15)),
        Ok(DecodedObject::LinePower(Line::L2, PowerKind::Reactive, Direction::ToGrid, 16)),
        Ok(DecodedObject::LinePower(Line::L3, PowerKind::Active, Direction::FromGrid, 17)),
        Ok(DecodedObject::LinePower(Line::L3, PowerKind::Active, Direction::ToGrid, 18)),
        Ok(DecodedObject::LinePower(Line::L3, PowerKind::Reactive, Direction::FromGrid, 19)),
        Ok(DecodedObject::LinePower(Line::L3, PowerKind::Reactive, Direction::ToGrid, 20)),
        Ok(DecodedObject::Voltage(Line::L1, 21)),
        Ok(DecodedObject::Voltage(Line::L2, 22)),
        Ok(DecodedObject::Voltage(Line::L3, 23)),
        Ok(DecodedObject::Current(Line::L1, 24)),
        Ok(DecodedObject::Current(Line::L2, 25)),
        Ok(DecodedObject::Current(Line::L3, 26)),
    ]);
    let m = build_message(&t).unwrap();
    assert_eq!(m.unix_timestamp, 1700000000);
    assert_eq!(m.uptime_min, 0);
    assert_eq!(m.energy_active_from_grid_wh, 1);
    assert_eq!(m.energy_active_to_grid_wh, 2);
    assert_eq!(m.energy_reactive_from_grid_varh, 3);
    assert_eq!(m.energy_reactive_to_grid_varh, 4);
    assert_eq!(m.total_power_active_from_grid_w, 5);
    assert_eq!(m.total_power_active_to_grid_w, 6);
    assert_eq!(m.total_power_reactive_from_grid_var, 7);
    assert_eq!(m.total_power_reactive_to_grid_var, 8);
    assert_eq!(m.power_l1_power_active_from_grid_w, 9);
    assert_eq!(m.power_l1_power_active_to_grid_w, 10);
    assert_eq!(m.power_l1_power_reactive_from_grid_var, 11);
    assert_eq!(m.power_l1_power_reactive_to_grid_var, 12);
    assert_eq!(m.power_l2_power_active_from_grid_w, 13);
    assert_eq!(m.power_l2_power_active_to_grid_w, 14);
    assert_eq!(m.power_l2_power_reactive_from_grid_var, 15);
    assert_eq!(m.power_l2_power_reactive_to_grid_var, 16);
    assert_eq!(m.power_l3_power_active_from_grid_w, 17);
    assert_eq!(m.power_l3_power_active_to_grid_w, 18);
    assert_eq!(m.power_l3_power_reactive_from_grid_var, 19);
    assert_eq!(m.power_l3_power_reactive_to_grid_var, 20);
    assert_eq!(m.voltage_l1_dv, 21);
    assert_eq!(m.voltage_l2_dv, 22);
    assert_eq!(m.voltage_l3_dv, 23);
    assert_eq!(m.current_l1_da, 24);
    assert_eq!(m.current_l2_da, 25);
    assert_eq!(m.current_l3_da, 26);
}

#[test]
fn later_occurrence_wins_for_same_field() {
    let t = telegram_of(vec![
        Ok(DecodedObject::Energy(PowerKind::Active, Direction::FromGrid, 100)),
        Ok(DecodedObject::Voltage(Line::L2, 2301)),
        Ok(DecodedObject::Energy(PowerKind::Active, Direction::FromGrid, 200)),
        Ok(DecodedObject::Voltage(Line::L2, 2310)),
        Ok(DecodedObject::Energy(PowerKind::Active, Direction::FromGrid, 300)),
    ]);
    let m = build_message(&t).unwrap();
    assert_eq!(m.energy_active_from_grid_wh, 300);
    assert_eq!(m.voltage_l2_dv, 2310);
    // a near miss on the selector does not touch the field
    assert_eq!(m.energy_active_to_grid_wh, 0);
    assert_eq!(m.voltage_l1_dv, 0);
}

#[test]
fn current_per_line_is_kept_apart() {
    let t = telegram_of(vec![
        Ok(DecodedObject::Current(Line::L1, 11)),
        Ok(DecodedObject::Current(Line::L2, 22)),
        Ok(DecodedObject::Current(Line::L3, 33)),
    ]);
    let m = build_message(&t).unwrap();
    assert_eq!(m.current_l1_da, 11);
    assert_eq!(m.current_l2_da, 22);
    assert_eq!(m.current_l3_da, 33);
}

#[test]
fn one_bad_object_discards_the_whole_record() {
    let t = telegram_of(vec![
        Ok(DecodedObject::Energy(PowerKind::Active, Direction::FromGrid, 100)),
        Err(DecodeError::UnrecognizedReference),
        Ok(DecodedObject::Voltage(Line::L1, 2300)),
    ]);
    assert_eq!(build_message(&t), Err(DecodeError::UnrecognizedReference));
}

#[test]
fn first_object_error_is_the_one_reported() {
    let t = telegram_of(vec![
        Ok(DecodedObject::DateTime(5)),
        Err(DecodeError::Checksum),
        Err(DecodeError::InvalidFormat),
    ]);
    assert_eq!(build_message(&t), Err(DecodeError::Checksum));
}
