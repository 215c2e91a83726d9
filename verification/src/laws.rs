//! Field-level laws of the record builder.
//!
//! For every addressable field of the record, the built record carries the
//! value of the *last* object of the telegram that addresses that field,
//! and zero when no object addresses it.  The spec functions here name the
//! last matching value of a sequence for each field selector; the proof
//! functions state the law itself against `record_of`.

use vstd::prelude::*;

use crate::builder::{apply_object, record_of};
use crate::record::Message;
use crate::telegram::{DecodedObject, Direction, Line, PowerKind};

verus! {

/// The value of the last `DateTime` object in `objs`, or zero ("epoch")
/// when the sequence carries none.
pub open spec fn last_timestamp(objs: Seq<DecodedObject>) -> i64
    decreases objs.len(),
{
    if objs.len() == 0 {
        0
    } else {
        match objs.last() {
            DecodedObject::DateTime(t) => t,
            _ => last_timestamp(objs.drop_last()),
        }
    }
}

/// The value of the last `Energy(p, d, _)` object in `objs`, or zero.
pub open spec fn last_energy(objs: Seq<DecodedObject>, p: PowerKind, d: Direction) -> u32
    decreases objs.len(),
{
    if objs.len() == 0 {
        0
    } else {
        match objs.last() {
            DecodedObject::Energy(p2, d2, v) => if p2 == p && d2 == d {
                v
            } else {
                last_energy(objs.drop_last(), p, d)
            },
            _ => last_energy(objs.drop_last(), p, d),
        }
    }
}

/// The value of the last `TotalPower(p, d, _)` object in `objs`, or zero.
pub open spec fn last_total_power(objs: Seq<DecodedObject>, p: PowerKind, d: Direction) -> u32
    decreases objs.len(),
{
    if objs.len() == 0 {
        0
    } else {
        match objs.last() {
            DecodedObject::TotalPower(p2, d2, v) => if p2 == p && d2 == d {
                v
            } else {
                last_total_power(objs.drop_last(), p, d)
            },
            _ => last_total_power(objs.drop_last(), p, d),
        }
    }
}

/// The value of the last `LinePower(l, p, d, _)` object in `objs`, or zero.
pub open spec fn last_line_power(
    objs: Seq<DecodedObject>,
    l: Line,
    p: PowerKind,
    d: Direction,
) -> u32
    decreases objs.len(),
{
    if objs.len() == 0 {
        0
    } else {
        match objs.last() {
            DecodedObject::LinePower(l2, p2, d2, v) => if l2 == l && p2 == p && d2 == d {
                v
            } else {
                last_line_power(objs.drop_last(), l, p, d)
            },
            _ => last_line_power(objs.drop_last(), l, p, d),
        }
    }
}

/// The value of the last `Voltage(l, _)` object in `objs`, or zero.
pub open spec fn last_voltage(objs: Seq<DecodedObject>, l: Line) -> u16
    decreases objs.len(),
{
    if objs.len() == 0 {
        0
    } else {
        match objs.last() {
            DecodedObject::Voltage(l2, v) => if l2 == l {
                v
            } else {
                last_voltage(objs.drop_last(), l)
            },
            _ => last_voltage(objs.drop_last(), l),
        }
    }
}

/// The value of the last `Current(l, _)` object in `objs`, or zero.
pub open spec fn last_current(objs: Seq<DecodedObject>, l: Line) -> u16
    decreases objs.len(),
{
    if objs.len() == 0 {
        0
    } else {
        match objs.last() {
            DecodedObject::Current(l2, v) => if l2 == l {
                v
            } else {
                last_current(objs.drop_last(), l)
            },
            _ => last_current(objs.drop_last(), l),
        }
    }
}

/// The record field holding the cumulative energy counter for `(p, d)`.
pub open spec fn energy_field(m: Message, p: PowerKind, d: Direction) -> u32 {
    match (p, d) {
        (PowerKind::Active, Direction::FromGrid) => m.energy_active_from_grid_wh,
        (PowerKind::Active, Direction::ToGrid) => m.energy_active_to_grid_wh,
        (PowerKind::Reactive, Direction::FromGrid) => m.energy_reactive_from_grid_varh,
        (PowerKind::Reactive, Direction::ToGrid) => m.energy_reactive_to_grid_varh,
    }
}

/// The record field holding the total instantaneous power for `(p, d)`.
pub open spec fn total_power_field(m: Message, p: PowerKind, d: Direction) -> u32 {
    match (p, d) {
        (PowerKind::Active, Direction::FromGrid) => m.total_power_active_from_grid_w,
        (PowerKind::Active, Direction::ToGrid) => m.total_power_active_to_grid_w,
        (PowerKind::Reactive, Direction::FromGrid) => m.total_power_reactive_from_grid_var,
        (PowerKind::Reactive, Direction::ToGrid) => m.total_power_reactive_to_grid_var,
    }
}

/// The record field holding the per-line instantaneous power for
/// `(l, p, d)`.
pub open spec fn line_power_field(m: Message, l: Line, p: PowerKind, d: Direction) -> u32 {
    match (l, p, d) {
        (Line::L1, PowerKind::Active, Direction::FromGrid) => m.power_l1_power_active_from_grid_w,
        (Line::L1, PowerKind::Active, Direction::ToGrid) => m.power_l1_power_active_to_grid_w,
        (Line::L1, PowerKind::Reactive, Direction::FromGrid) => m.power_l1_power_reactive_from_grid_var,
        (Line::L1, PowerKind::Reactive, Direction::ToGrid) => m.power_l1_power_reactive_to_grid_var,
        (Line::L2, PowerKind::Active, Direction::FromGrid) => m.power_l2_power_active_from_grid_w,
        (Line::L2, PowerKind::Active, Direction::ToGrid) => m.power_l2_power_active_to_grid_w,
        (Line::L2, PowerKind::Reactive, Direction::FromGrid) => m.power_l2_power_reactive_from_grid_var,
        (Line::L2, PowerKind::Reactive, Direction::ToGrid) => m.power_l2_power_reactive_to_grid_var,
        (Line::L3, PowerKind::Active, Direction::FromGrid) => m.power_l3_power_active_from_grid_w,
        (Line::L3, PowerKind::Active, Direction::ToGrid) => m.power_l3_power_active_to_grid_w,
        (Line::L3, PowerKind::Reactive, Direction::FromGrid) => m.power_l3_power_reactive_from_grid_var,
        (Line::L3, PowerKind::Reactive, Direction::ToGrid) => m.power_l3_power_reactive_to_grid_var,
    }
}

/// The record field holding the voltage of line `l`.
pub open spec fn voltage_field(m: Message, l: Line) -> u16 {
    match l {
        Line::L1 => m.voltage_l1_dv,
        Line::L2 => m.voltage_l2_dv,
        Line::L3 => m.voltage_l3_dv,
    }
}

/// The record field holding the current of line `l`.
pub open spec fn current_field(m: Message, l: Line) -> u16 {
    match l {
        Line::L1 => m.current_l1_da,
        Line::L2 => m.current_l2_da,
        Line::L3 => m.current_l3_da,
    }
}

/// The built record's timestamp is that of the last `DateTime` object of
/// the sequence, and zero when the sequence carries none.
pub proof fn lemma_timestamp_last_write(objs: Seq<DecodedObject>)
    ensures
        record_of(objs).unix_timestamp == last_timestamp(objs),
    decreases objs.len(),
{
    if objs.len() > 0 {
        lemma_timestamp_last_write(objs.drop_last());
    }
}

/// The built record's energy counter for each `(p, d)` is the value of the
/// last matching `Energy` object, and zero when none matches.
pub proof fn lemma_energy_last_write(objs: Seq<DecodedObject>, p: PowerKind, d: Direction)
    ensures
        energy_field(record_of(objs), p, d) == last_energy(objs, p, d),
    decreases objs.len(),
{
    if objs.len() > 0 {
        lemma_energy_last_write(objs.drop_last(), p, d);
    }
}

/// The built record's total-power field for each `(p, d)` is the value of
/// the last matching `TotalPower` object, and zero when none matches.
pub proof fn lemma_total_power_last_write(objs: Seq<DecodedObject>, p: PowerKind, d: Direction)
    ensures
        total_power_field(record_of(objs), p, d) == last_total_power(objs, p, d),
    decreases objs.len(),
{
    if objs.len() > 0 {
        lemma_total_power_last_write(objs.drop_last(), p, d);
    }
}

/// The built record's per-line power field for each `(l, p, d)` is the
/// value of the last matching `LinePower` object, and zero when none
/// matches.  In particular each line's reading lands in its own field.
pub proof fn lemma_line_power_last_write(
    objs: Seq<DecodedObject>,
    l: Line,
    p: PowerKind,
    d: Direction,
)
    ensures
        line_power_field(record_of(objs), l, p, d) == last_line_power(objs, l, p, d),
    decreases objs.len(),
{
    if objs.len() > 0 {
        lemma_line_power_last_write(objs.drop_last(), l, p, d);
    }
}

/// The built record's voltage for each line is the value of the last
/// matching `Voltage` object, and zero when none matches.
pub proof fn lemma_voltage_last_write(objs: Seq<DecodedObject>, l: Line)
    ensures
        voltage_field(record_of(objs), l) == last_voltage(objs, l),
    decreases objs.len(),
{
    if objs.len() > 0 {
        lemma_voltage_last_write(objs.drop_last(), l);
    }
}

/// The built record's current for each line is the value of the last
/// matching `Current` object, and zero when none matches.  In particular
/// each line's current lands in its own field.
pub proof fn lemma_current_last_write(objs: Seq<DecodedObject>, l: Line)
    ensures
        current_field(record_of(objs), l) == last_current(objs, l),
    decreases objs.len(),
{
    if objs.len() > 0 {
        lemma_current_last_write(objs.drop_last(), l);
    }
}

/// No telegram object addresses `uptime_min`: the builder leaves it zero.
/// It is derived later from the session epoch.
pub proof fn lemma_uptime_left_zero(objs: Seq<DecodedObject>)
    ensures
        record_of(objs).uptime_min == 0,
    decreases objs.len(),
{
    if objs.len() > 0 {
        lemma_uptime_left_zero(objs.drop_last());
    }
}

} // verus!
