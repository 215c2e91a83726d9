//! The flat measurement record, one instance per telegram.
//!
//! Every field starts at zero and is overwritten only when the telegram
//! carries the corresponding object, so a zero can also mean "unreported
//! this cycle".  `uptime_min` is not carried by the telegram at all; it is
//! derived by the orchestrator from the record's timestamp and the session
//! epoch (the timestamp of the first record of the process lifetime).

use vstd::prelude::*;

verus! {

/// Why an uptime could not be derived for a record.
#[derive(Clone, Copy, Debug, PartialEq, Eq, Structural)]
pub enum UptimeError {
    /// The record's timestamp lies before the session epoch.
    EpochInFuture,
    /// The elapsed minutes do not fit the record's unsigned 32-bit field.
    TooLarge,
}

/// Whole minutes elapsed from `epoch` to `t`, rounded toward zero;
/// meaningful when `epoch <= t`.
pub open spec fn uptime_minutes_of(t: int, epoch: int) -> int {
    (t - epoch) / 60
}

/// One flat measurement record.  Timestamps are unix seconds; energy
/// counters are cumulative watt-hours / var-hours; power fields are
/// instantaneous watts / vars; voltages are decivolts, currents deciamps.
#[derive(Clone, Copy, Debug, PartialEq, Eq, Structural)]
pub struct Message {
    pub unix_timestamp: i64,
    pub uptime_min: u32,

    pub energy_active_from_grid_wh: u32,
    pub energy_reactive_from_grid_varh: u32,
    pub energy_active_to_grid_wh: u32,
    pub energy_reactive_to_grid_varh: u32,

    pub total_power_active_from_grid_w: u32,
    pub total_power_reactive_from_grid_var: u32,
    pub total_power_active_to_grid_w: u32,
    pub total_power_reactive_to_grid_var: u32,

    pub power_l1_power_active_from_grid_w: u32,
    pub power_l1_power_reactive_from_grid_var: u32,
    pub power_l1_power_active_to_grid_w: u32,
    pub power_l1_power_reactive_to_grid_var: u32,
    pub voltage_l1_dv: u16,
    pub current_l1_da: u16,

    pub power_l2_power_active_from_grid_w: u32,
    pub power_l2_power_reactive_from_grid_var: u32,
    pub power_l2_power_active_to_grid_w: u32,
    pub power_l2_power_reactive_to_grid_var: u32,
    pub voltage_l2_dv: u16,
    pub current_l2_da: u16,

    pub power_l3_power_active_from_grid_w: u32,
    pub power_l3_power_reactive_from_grid_var: u32,
    pub power_l3_power_active_to_grid_w: u32,
    pub power_l3_power_reactive_to_grid_var: u32,
    pub voltage_l3_dv: u16,
    pub current_l3_da: u16,
}

impl Message {
    /// The record with every field zero: the state before any object of a
    /// telegram has been applied.
    pub open spec fn zeroed() -> Message {
        Message {
            unix_timestamp: 0,
            uptime_min: 0,
            energy_active_from_grid_wh: 0,
            energy_reactive_from_grid_varh: 0,
            energy_active_to_grid_wh: 0,
            energy_reactive_to_grid_varh: 0,
            total_power_active_from_grid_w: 0,
            total_power_reactive_from_grid_var: 0,
            total_power_active_to_grid_w: 0,
            total_power_reactive_to_grid_var: 0,
            power_l1_power_active_from_grid_w: 0,
            power_l1_power_reactive_from_grid_var: 0,
            power_l1_power_active_to_grid_w: 0,
            power_l1_power_reactive_to_grid_var: 0,
            voltage_l1_dv: 0,
            current_l1_da: 0,
            power_l2_power_active_from_grid_w: 0,
            power_l2_power_reactive_from_grid_var: 0,
            power_l2_power_active_to_grid_w: 0,
            power_l2_power_reactive_to_grid_var: 0,
            voltage_l2_dv: 0,
            current_l2_da: 0,
            power_l3_power_active_from_grid_w: 0,
            power_l3_power_reactive_from_grid_var: 0,
            power_l3_power_active_to_grid_w: 0,
            power_l3_power_reactive_to_grid_var: 0,
            voltage_l3_dv: 0,
            current_l3_da: 0,
        }
    }

    /// The record's timestamp in unix seconds.
    pub fn unix_timestamp(&self) -> (t: i64)
        ensures
            t == self.unix_timestamp,
    {
        self.unix_timestamp
    }

    /// Derives `uptime_min` from this record's timestamp and the session
    /// epoch.  Fails explicitly — it neither wraps nor panics — when the
    /// timestamp lies before the epoch or the minutes overflow the field;
    /// on failure the record is left unchanged.
    pub fn set_uptime(&mut self, started_unix_timestamp: i64) -> (r: Result<(), UptimeError>)
        ensures
            r is Ok <==> started_unix_timestamp <= old(self).unix_timestamp
                && uptime_minutes_of(old(self).unix_timestamp as int, started_unix_timestamp as int)
                    <= u32::MAX,
            r == Result::<(), UptimeError>::Err(UptimeError::EpochInFuture)
                <==> old(self).unix_timestamp < started_unix_timestamp,
            r is Ok ==> *final(self) == (Message {
                uptime_min: uptime_minutes_of(
                    old(self).unix_timestamp as int,
                    started_unix_timestamp as int,
                ) as u32,
                ..*old(self)
            }),
            r is Err ==> *final(self) == *old(self),
    {
        if self.unix_timestamp < started_unix_timestamp {
            return Err(UptimeError::EpochInFuture);
        }
        let elapsed_wide: i128 = self.unix_timestamp as i128 - started_unix_timestamp as i128;
        assert(0 <= elapsed_wide <= u64::MAX);
        let elapsed: u64 = elapsed_wide as u64;
        let minutes: u64 = elapsed / 60;
        if minutes > u32::MAX as u64 {
            return Err(UptimeError::TooLarge);
        }
        self.uptime_min = minutes as u32;
        Ok(())
    }
}

impl Default for Message {
    /// A fresh record with every field zero.
    fn default() -> (m: Message)
        ensures
            m == Message::zeroed(),
    {
        Message {
            unix_timestamp: 0,
            uptime_min: 0,
            energy_active_from_grid_wh: 0,
            energy_reactive_from_grid_varh: 0,
            energy_active_to_grid_wh: 0,
            energy_reactive_to_grid_varh: 0,
            total_power_active_from_grid_w: 0,
            total_power_reactive_from_grid_var: 0,
            total_power_active_to_grid_w: 0,
            total_power_reactive_to_grid_var: 0,
            power_l1_power_active_from_grid_w: 0,
            power_l1_power_reactive_from_grid_var: 0,
            power_l1_power_active_to_grid_w: 0,
            power_l1_power_reactive_to_grid_var: 0,
            voltage_l1_dv: 0,
            current_l1_da: 0,
            power_l2_power_active_from_grid_w: 0,
            power_l2_power_reactive_from_grid_var: 0,
            power_l2_power_active_to_grid_w: 0,
            power_l2_power_reactive_to_grid_var: 0,
            voltage_l2_dv: 0,
            current_l2_da: 0,
            power_l3_power_active_from_grid_w: 0,
            power_l3_power_reactive_from_grid_var: 0,
            power_l3_power_active_to_grid_w: 0,
            power_l3_power_reactive_to_grid_var: 0,
            voltage_l3_dv: 0,
            current_l3_da: 0,
        }
    }
}

} // verus!
