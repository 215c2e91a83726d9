//! Building a measurement record from a telegram's object sequence.
//!
//! The builder starts from the all-zero record and applies the objects in
//! wire order, each overwriting the field it addresses, so when the same
//! field is addressed twice the later occurrence wins.  A telegram that
//! carries an object the decoder could not parse is refused as a whole:
//! the builder short-circuits on the first per-object error rather than
//! publish a partial record.

use vstd::prelude::*;

use crate::record::Message;
use crate::telegram::{DecodeError, DecodedObject, Direction, Line, PowerKind, Telegram};

verus! {

/// The record `m` with the one field addressed by `o` overwritten.
pub open spec fn apply_object(m: Message, o: DecodedObject) -> Message {
    match o {
        DecodedObject::DateTime(t) => Message { unix_timestamp: t, ..m },
        DecodedObject::Energy(p, d, v) => match (p, d) {
            (PowerKind::Active, Direction::FromGrid) => Message {
                energy_active_from_grid_wh: v,
                ..m
            },
            (PowerKind::Active, Direction::ToGrid) => Message { energy_active_to_grid_wh: v, ..m },
            (PowerKind::Reactive, Direction::FromGrid) => Message {
                energy_reactive_from_grid_varh: v,
                ..m
            },
            (PowerKind::Reactive, Direction::ToGrid) => Message {
                energy_reactive_to_grid_varh: v,
                ..m
            },
        },
        DecodedObject::TotalPower(p, d, v) => match (p, d) {
            (PowerKind::Active, Direction::FromGrid) => Message {
                total_power_active_from_grid_w: v,
                ..m
            },
            (PowerKind::Active, Direction::ToGrid) => Message {
                total_power_active_to_grid_w: v,
                ..m
            },
            (PowerKind::Reactive, Direction::FromGrid) => Message {
                total_power_reactive_from_grid_var: v,
                ..m
            },
            (PowerKind::Reactive, Direction::ToGrid) => Message {
                total_power_reactive_to_grid_var: v,
                ..m
            },
        },
        DecodedObject::LinePower(l, p, d, v) => match (l, p, d) {
            (Line::L1, PowerKind::Active, Direction::FromGrid) => Message {
                power_l1_power_active_from_grid_w: v,
                ..m
            },
            (Line::L1, PowerKind::Active, Direction::ToGrid) => Message {
                power_l1_power_active_to_grid_w: v,
                ..m
            },
            (Line::L1, PowerKind::Reactive, Direction::FromGrid) => Message {
                power_l1_power_reactive_from_grid_var: v,
                ..m
            },
            (Line::L1, PowerKind::Reactive, Direction::ToGrid) => Message {
                power_l1_power_reactive_to_grid_var: v,
                ..m
            },
            (Line::L2, PowerKind::Active, Direction::FromGrid) => Message {
                power_l2_power_active_from_grid_w: v,
                ..m
            },
            (Line::L2, PowerKind::Active, Direction::ToGrid) => Message {
                power_l2_power_active_to_grid_w: v,
                ..m
            },
            (Line::L2, PowerKind::Reactive, Direction::FromGrid) => Message {
                power_l2_power_reactive_from_grid_var: v,
                ..m
            },
            (Line::L2, PowerKind::Reactive, Direction::ToGrid) => Message {
                power_l2_power_reactive_to_grid_var: v,
                ..m
            },
            (Line::L3, PowerKind::Active, Direction::FromGrid) => Message {
                power_l3_power_active_from_grid_w: v,
                ..m
            },
            (Line::L3, PowerKind::Active, Direction::ToGrid) => Message {
                power_l3_power_active_to_grid_w: v,
                ..m
            },
            (Line::L3, PowerKind::Reactive, Direction::FromGrid) => Message {
                power_l3_power_reactive_from_grid_var: v,
                ..m
            },
            (Line::L3, PowerKind::Reactive, Direction::ToGrid) => Message {
                power_l3_power_reactive_to_grid_var: v,
                ..m
            },
        },
        DecodedObject::Voltage(l, v) => match l {
            Line::L1 => Message { voltage_l1_dv: v, ..m },
            Line::L2 => Message { voltage_l2_dv: v, ..m },
            Line::L3 => Message { voltage_l3_dv: v, ..m },
        },
        DecodedObject::Current(l, v) => match l {
            Line::L1 => Message { current_l1_da: v, ..m },
            Line::L2 => Message { current_l2_da: v, ..m },
            Line::L3 => Message { current_l3_da: v, ..m },
        },
    }
}

/// The record obtained by applying `objs` in order to the all-zero record.
pub open spec fn record_of(objs: Seq<DecodedObject>) -> Message
    decreases objs.len(),
{
    if objs.len() == 0 {
        Message::zeroed()
    } else {
        apply_object(record_of(objs.drop_last()), objs.last())
    }
}

/// The first per-object decode error in `objs`, or `None` when every
/// object decoded.
pub open spec fn first_object_error(objs: Seq<Result<DecodedObject, DecodeError>>) -> Option<
    DecodeError,
>
    decreases objs.len(),
{
    if objs.len() == 0 {
        None
    } else {
        match objs.first() {
            Result::Err(e) => Some(e),
            Result::Ok(_) => first_object_error(objs.drop_first()),
        }
    }
}

/// The objects of a fully decoded sequence, stripped of the `Ok` wrapper.
/// Meaningful when `first_object_error(objs)` is `None`.
pub open spec fn ok_values(objs: Seq<Result<DecodedObject, DecodeError>>) -> Seq<DecodedObject> {
    objs.map_values(|r: Result<DecodedObject, DecodeError>| r->Ok_0)
}

/// The record a fully decoded telegram builds.
pub open spec fn telegram_record(t: Telegram) -> Message {
    record_of(ok_values(t.objects@))
}

proof fn lemma_first_error_none(objs: Seq<Result<DecodedObject, DecodeError>>)
    requires
        forall|j: int| 0 <= j < objs.len() ==> objs[j] is Ok,
    ensures
        first_object_error(objs) is None,
    decreases objs.len(),
{
    if objs.len() > 0 {
        lemma_first_error_none(objs.drop_first());
    }
}

proof fn lemma_first_error_at(objs: Seq<Result<DecodedObject, DecodeError>>, i: int)
    requires
        0 <= i < objs.len(),
        forall|j: int| 0 <= j < i ==> objs[j] is Ok,
        objs[i] is Err,
    ensures
        first_object_error(objs) == Some(objs[i]->Err_0),
    decreases i,
{
    if i > 0 {
        lemma_first_error_at(objs.drop_first(), i - 1);
    }
}

/// Overwrites in `message` the one field that `o` addresses.
fn apply(message: &mut Message, o: &DecodedObject)
    ensures
        *final(message) == apply_object(*old(message), *o),
{
    match o {
        DecodedObject::DateTime(t) => message.unix_timestamp = *t,
        DecodedObject::Energy(p, d, v) => match (p, d) {
            (PowerKind::Active, Direction::FromGrid) => message.energy_active_from_grid_wh = *v,
            (PowerKind::Active, Direction::ToGrid) => message.energy_active_to_grid_wh = *v,
            (PowerKind::Reactive, Direction::FromGrid) => message.energy_reactive_from_grid_varh =
                *v,
            (PowerKind::Reactive, Direction::ToGrid) => message.energy_reactive_to_grid_varh = *v,
        },
        DecodedObject::TotalPower(p, d, v) => match (p, d) {
            (PowerKind::Active, Direction::FromGrid) => message.total_power_active_from_grid_w =
                *v,
            (PowerKind::Active, Direction::ToGrid) => message.total_power_active_to_grid_w = *v,
            (PowerKind::Reactive, Direction::FromGrid) => message.total_power_reactive_from_grid_var
                = *v,
            (PowerKind::Reactive, Direction::ToGrid) => message.total_power_reactive_to_grid_var =
                *v,
        },
        DecodedObject::LinePower(l, p, d, v) => match (l, p, d) {
            (Line::L1, PowerKind::Active, Direction::FromGrid) => message.power_l1_power_active_from_grid_w
                = *v,
            (Line::L1, PowerKind::Active, Direction::ToGrid) => message.power_l1_power_active_to_grid_w
                = *v,
            (Line::L1, PowerKind::Reactive, Direction::FromGrid) => message.power_l1_power_reactive_from_grid_var
                = *v,
            (Line::L1, PowerKind::Reactive, Direction::ToGrid) => message.power_l1_power_reactive_to_grid_var
                = *v,
            (Line::L2, PowerKind::Active, Direction::FromGrid) => message.power_l2_power_active_from_grid_w
                = *v,
            (Line::L2, PowerKind::Active, Direction::ToGrid) => message.power_l2_power_active_to_grid_w
                = *v,
            (Line::L2, PowerKind::Reactive, Direction::FromGrid) => message.power_l2_power_reactive_from_grid_var
                = *v,
            (Line::L2, PowerKind::Reactive, Direction::ToGrid) => message.power_l2_power_reactive_to_grid_var
                = *v,
            (Line::L3, PowerKind::Active, Direction::FromGrid) => message.power_l3_power_active_from_grid_w
                = *v,
            (Line::L3, PowerKind::Active, Direction::ToGrid) => message.power_l3_power_active_to_grid_w
                = *v,
            (Line::L3, PowerKind::Reactive, Direction::FromGrid) => message.power_l3_power_reactive_from_grid_var
                = *v,
            (Line::L3, PowerKind::Reactive, Direction::ToGrid) => message.power_l3_power_reactive_to_grid_var
                = *v,
        },
        DecodedObject::Voltage(l, v) => match l {
            Line::L1 => message.voltage_l1_dv = *v,
            Line::L2 => message.voltage_l2_dv = *v,
            Line::L3 => message.voltage_l3_dv = *v,
        },
        DecodedObject::Current(l, v) => match l {
            Line::L1 => message.current_l1_da = *v,
            Line::L2 => message.current_l2_da = *v,
            Line::L3 => message.current_l3_da = *v,
        },
    }
}

/// Builds the measurement record for `telegram`.
///
/// Succeeds exactly when every object of the telegram decoded, and then
/// returns the fold of the objects over the all-zero record; otherwise
/// returns the first per-object decode error and builds nothing.
pub fn build_message(telegram: &Telegram) -> (r: Result<Message, DecodeError>)
    ensures
        r is Ok <==> first_object_error(telegram.objects@) is None,
        r matches Ok(m) ==> m == telegram_record(*telegram),
        r matches Err(e) ==> first_object_error(telegram.objects@) == Some(e),
{
    let ghost objs = telegram.objects@;
    let mut message = Message::default();
    let n = telegram.objects.len();
    let mut i: usize = 0;
    while i < n
        invariant
            0 <= i <= n,
            n == objs.len(),
            objs == telegram.objects@,
            forall|j: int| 0 <= j < i ==> objs[j] is Ok,
            message == record_of(ok_values(objs.take(i as int))),
        decreases n - i,
    {
        match &telegram.objects[i] {
            Ok(o) => {
                assert(ok_values(objs.take(i + 1)) == ok_values(objs.take(i as int)).push(*o));
                assert(record_of(ok_values(objs.take(i + 1))) == apply_object(message, *o)) by {
                    let s = ok_values(objs.take(i + 1));
                    assert(s.drop_last() == ok_values(objs.take(i as int)));
                }
                apply(&mut message, o);
            },
            Err(e) => {
                proof {
                    lemma_first_error_at(objs, i as int);
                }
                return Err(*e);
            },
        }
        i = i + 1;
    }
    proof {
        lemma_first_error_none(objs);
        assert(objs.take(n as int) == objs);
    }
    Ok(message)
}

} // verus!
