//! Control library for FTMS-speaking indoor exercise equipment.
//!
//! The library models the equipment abstraction layer: a capability interface
//! implemented by each device variant, a cancellable discovery/connection
//! state machine, the FTMS control-point codec, and the parsing of telemetry
//! notifications into a normalized record. The raw wireless transport is an
//! external collaborator: the application performs the radio work and feeds
//! its results (scan listings, connect outcomes, notification payloads) into
//! the state machine, whose decisions are verified here.

use vstd::prelude::*;

pub mod clock;
pub mod connection;
pub mod devices;
pub mod errors;
pub mod shutdown;
pub mod ftms;
pub mod telemetry;
pub mod text;

use std::sync::mpsc::Receiver;

use crate::devices::{DebugBike, Iconsole0028Bike, NonBluetoothDevice};
use crate::errors::KondisError;
use crate::ftms::FTMSData;

verus! {

/// Spec-level range check shared by every target-setting operation: a target
/// value is acceptable exactly when it lies in `[1, max_level]`.
pub open spec fn in_target_range(value: i16, max_level: i16) -> bool {
    1 <= value && value <= max_level
}

/// Equipment types supported.
#[derive(Clone, Copy, Debug, PartialEq, Eq, Structural)]
pub enum EquipmentType {
    /// iConsole+0028 bike.
    Iconsole0028Bike,
    /// Debug bike: any wireless bike whose name contains "Console".
    DebugBike,
    /// A device implemented without any connection, for tests and demos.
    NonBluetoothDevice,
}

/// The capability interface every device variant implements.
///
/// Each variant pins its own behaviour down through the `*_post` spec
/// functions; the clauses stated here hold of every variant: a constructed
/// device is well formed and carries its configured `max_level`, and a
/// target value outside `[1, max_level]` is rejected with the validation
/// error while the device stays unchanged, so nothing reaches the wire.
pub trait Equipment: Sized {
    /// Well-formedness of a constructed device.
    spec fn inv(&self) -> bool;

    /// The configured bound shared by the cadence and power target ranges.
    spec fn max_level_spec(&self) -> i16;

    /// What this variant's `new` guarantees.
    spec fn new_post(max_level: i16, r: Result<Self, KondisError>) -> bool;

    /// What this variant's `connect` guarantees.
    spec fn connect_post(pre: Self, post: Self, r: Result<bool, KondisError>) -> bool;

    /// What this variant's `disconnect` guarantees.
    spec fn disconnect_post(pre: Self, post: Self, r: Result<(), KondisError>) -> bool;

    /// What this variant's `set_target_cadence` guarantees.
    spec fn set_target_cadence_post(
        pre: Self,
        post: Self,
        rpm: i16,
        r: Result<(), KondisError>,
    ) -> bool;

    /// What this variant's `set_target_power` guarantees.
    spec fn set_target_power_post(
        pre: Self,
        post: Self,
        watts: i16,
        r: Result<(), KondisError>,
    ) -> bool;

    /// What this variant's `read` guarantees.
    spec fn read_post(&self, r: Result<Option<FTMSData>, KondisError>) -> bool;

    /// Construct the device. `max_level` bounds both target ranges;
    /// `shutdown_rx` is the cancellation channel checked while discovery
    /// runs, so a waiting shutdown signal aborts construction.
    fn new(max_level: i16, shutdown_rx: &mut Receiver<()>) -> (r: Result<Self, KondisError>)
        ensures
            r matches Ok(d) ==> d.inv() && d.max_level_spec() == max_level,
            Self::new_post(max_level, r),
    ;

    /// Finalize the connection; returns whether control of the equipment
    /// was acquired.
    fn connect(&mut self) -> (r: Result<bool, KondisError>)
        requires
            old(self).inv(),
        ensures
            final(self).inv(),
            final(self).max_level_spec() == old(self).max_level_spec(),
            Self::connect_post(*old(self), *final(self), r),
    ;

    /// Tear the session down; safe to call even if never connected.
    fn disconnect(&mut self) -> (r: Result<(), KondisError>)
        requires
            old(self).inv(),
        ensures
            final(self).inv(),
            final(self).max_level_spec() == old(self).max_level_spec(),
            Self::disconnect_post(*old(self), *final(self), r),
    ;

    /// Set the target cadence, in revolutions per minute.
    fn set_target_cadence(&mut self, rpm: i16) -> (r: Result<(), KondisError>)
        requires
            old(self).inv(),
        ensures
            final(self).inv(),
            final(self).max_level_spec() == old(self).max_level_spec(),
            !in_target_range(rpm, old(self).max_level_spec()) ==> r == Err::<(), KondisError>(
                KondisError::Validation { value: rpm, max_level: old(self).max_level_spec() },
            ) && *final(self) == *old(self),
            Self::set_target_cadence_post(*old(self), *final(self), rpm, r),
    ;

    /// Set the target power, in watts.
    fn set_target_power(&mut self, watts: i16) -> (r: Result<(), KondisError>)
        requires
            old(self).inv(),
        ensures
            final(self).inv(),
            final(self).max_level_spec() == old(self).max_level_spec(),
            !in_target_range(watts, old(self).max_level_spec()) ==> r == Err::<(), KondisError>(
                KondisError::Validation { value: watts, max_level: old(self).max_level_spec() },
            ) && *final(self) == *old(self),
            Self::set_target_power_post(*old(self), *final(self), watts, r),
    ;

    /// Read the latest telemetry record, or none if nothing has arrived
    /// yet; never blocks.
    fn read(&self) -> (r: Result<Option<FTMSData>, KondisError>)
        requires
            self.inv(),
        ensures
            self.read_post(r),
    ;
}

/// A constructed device of any variant: the closed, type-erased form the
/// factory hands out, dispatching each capability to the variant inside.
pub enum AnyEquipment {
    Iconsole0028Bike(Iconsole0028Bike),
    DebugBike(DebugBike),
    NonBluetoothDevice(NonBluetoothDevice),
}

impl AnyEquipment {
    /// Well-formedness of the variant inside.
    pub open spec fn wf(&self) -> bool {
        match self {
            AnyEquipment::Iconsole0028Bike(e) => e.inv(),
            AnyEquipment::DebugBike(e) => e.inv(),
            AnyEquipment::NonBluetoothDevice(e) => e.inv(),
        }
    }

    /// The configured bound of the variant inside.
    pub open spec fn max_level_spec(&self) -> i16 {
        match self {
            AnyEquipment::Iconsole0028Bike(e) => e.max_level_spec(),
            AnyEquipment::DebugBike(e) => e.max_level_spec(),
            AnyEquipment::NonBluetoothDevice(e) => e.max_level_spec(),
        }
    }

    /// The kind of the variant inside.
    pub open spec fn kind(&self) -> EquipmentType {
        match self {
            AnyEquipment::Iconsole0028Bike(_) => EquipmentType::Iconsole0028Bike,
            AnyEquipment::DebugBike(_) => EquipmentType::DebugBike,
            AnyEquipment::NonBluetoothDevice(_) => EquipmentType::NonBluetoothDevice,
        }
    }

    /// Finalize the connection of the variant inside; returns whether
    /// control of the equipment was acquired.
    pub fn connect(&mut self) -> (r: Result<bool, KondisError>)
        requires
            old(self).wf(),
        ensures
            final(self).wf(),
            final(self).kind() == old(self).kind(),
            final(self).max_level_spec() == old(self).max_level_spec(),
            spec_any_connect_post(*old(self), *final(self), r),
    {
        match self {
            AnyEquipment::Iconsole0028Bike(e) => e.connect(),
            AnyEquipment::DebugBike(e) => e.connect(),
            AnyEquipment::NonBluetoothDevice(e) => e.connect(),
        }
    }

    /// Tear the variant inside down; safe even if never connected.
    pub fn disconnect(&mut self) -> (r: Result<(), KondisError>)
        requires
            old(self).wf(),
        ensures
            final(self).wf(),
            final(self).kind() == old(self).kind(),
            final(self).max_level_spec() == old(self).max_level_spec(),
            spec_any_disconnect_post(*old(self), *final(self), r),
    {
        match self {
            AnyEquipment::Iconsole0028Bike(e) => e.disconnect(),
            AnyEquipment::DebugBike(e) => e.disconnect(),
            AnyEquipment::NonBluetoothDevice(e) => e.disconnect(),
        }
    }

    /// Set the target cadence of the variant inside; a value outside
    /// `[1, max_level]` is rejected with the validation error and nothing
    /// changes.
    pub fn set_target_cadence(&mut self, rpm: i16) -> (r: Result<(), KondisError>)
        requires
            old(self).wf(),
        ensures
            final(self).wf(),
            final(self).kind() == old(self).kind(),
            final(self).max_level_spec() == old(self).max_level_spec(),
            !in_target_range(rpm, old(self).max_level_spec()) ==> r == Err::<(), KondisError>(
                KondisError::Validation { value: rpm, max_level: old(self).max_level_spec() },
            ) && *final(self) == *old(self),
            spec_any_set_cadence_post(*old(self), *final(self), rpm, r),
    {
        match self {
            AnyEquipment::Iconsole0028Bike(e) => e.set_target_cadence(rpm),
            AnyEquipment::DebugBike(e) => e.set_target_cadence(rpm),
            AnyEquipment::NonBluetoothDevice(e) => e.set_target_cadence(rpm),
        }
    }

    /// Set the target power of the variant inside; a value outside
    /// `[1, max_level]` is rejected with the validation error and nothing
    /// changes.
    pub fn set_target_power(&mut self, watts: i16) -> (r: Result<(), KondisError>)
        requires
            old(self).wf(),
        ensures
            final(self).wf(),
            final(self).kind() == old(self).kind(),
            final(self).max_level_spec() == old(self).max_level_spec(),
            !in_target_range(watts, old(self).max_level_spec()) ==> r == Err::<(), KondisError>(
                KondisError::Validation { value: watts, max_level: old(self).max_level_spec() },
            ) && *final(self) == *old(self),
            spec_any_set_power_post(*old(self), *final(self), watts, r),
    {
        match self {
            AnyEquipment::Iconsole0028Bike(e) => e.set_target_power(watts),
            AnyEquipment::DebugBike(e) => e.set_target_power(watts),
            AnyEquipment::NonBluetoothDevice(e) => e.set_target_power(watts),
        }
    }

    /// Read the latest telemetry record of the variant inside.
    pub fn read(&self) -> (r: Result<Option<FTMSData>, KondisError>)
        requires
            self.wf(),
        ensures
            spec_any_read_post(*self, r),
    {
        match self {
            AnyEquipment::Iconsole0028Bike(e) => e.read(),
            AnyEquipment::DebugBike(e) => e.read(),
            AnyEquipment::NonBluetoothDevice(e) => e.read(),
        }
    }
}

/// The variant-exact meaning of `connect` on a type-erased device.
pub open spec fn spec_any_connect_post(
    pre: AnyEquipment,
    post: AnyEquipment,
    r: Result<bool, KondisError>,
) -> bool {
    match (pre, post) {
        (AnyEquipment::Iconsole0028Bike(a), AnyEquipment::Iconsole0028Bike(b)) =>
            Iconsole0028Bike::connect_post(a, b, r),
        (AnyEquipment::DebugBike(a), AnyEquipment::DebugBike(b)) => DebugBike::connect_post(
            a,
            b,
            r,
        ),
        (AnyEquipment::NonBluetoothDevice(a), AnyEquipment::NonBluetoothDevice(b)) =>
            NonBluetoothDevice::connect_post(a, b, r),
        _ => false,
    }
}

/// The variant-exact meaning of `disconnect` on a type-erased device.
pub open spec fn spec_any_disconnect_post(
    pre: AnyEquipment,
    post: AnyEquipment,
    r: Result<(), KondisError>,
) -> bool {
    match (pre, post) {
        (AnyEquipment::Iconsole0028Bike(a), AnyEquipment::Iconsole0028Bike(b)) =>
            Iconsole0028Bike::disconnect_post(a, b, r),
        (AnyEquipment::DebugBike(a), AnyEquipment::DebugBike(b)) => DebugBike::disconnect_post(
            a,
            b,
            r,
        ),
        (AnyEquipment::NonBluetoothDevice(a), AnyEquipment::NonBluetoothDevice(b)) =>
            NonBluetoothDevice::disconnect_post(a, b, r),
        _ => false,
    }
}

/// The variant-exact meaning of `set_target_cadence` on a type-erased
/// device.
pub open spec fn spec_any_set_cadence_post(
    pre: AnyEquipment,
    post: AnyEquipment,
    rpm: i16,
    r: Result<(), KondisError>,
) -> bool {
    match (pre, post) {
        (AnyEquipment::Iconsole0028Bike(a), AnyEquipment::Iconsole0028Bike(b)) =>
            Iconsole0028Bike::set_target_cadence_post(a, b, rpm, r),
        (AnyEquipment::DebugBike(a), AnyEquipment::DebugBike(b)) =>
            DebugBike::set_target_cadence_post(a, b, rpm, r),
        (AnyEquipment::NonBluetoothDevice(a), AnyEquipment::NonBluetoothDevice(b)) =>
            NonBluetoothDevice::set_target_cadence_post(a, b, rpm, r),
        _ => false,
    }
}

/// The variant-exact meaning of `set_target_power` on a type-erased device.
pub open spec fn spec_any_set_power_post(
    pre: AnyEquipment,
    post: AnyEquipment,
    watts: i16,
    r: Result<(), KondisError>,
) -> bool {
    match (pre, post) {
        (AnyEquipment::Iconsole0028Bike(a), AnyEquipment::Iconsole0028Bike(b)) =>
            Iconsole0028Bike::set_target_power_post(a, b, watts, r),
        (AnyEquipment::DebugBike(a), AnyEquipment::DebugBike(b)) =>
            DebugBike::set_target_power_post(a, b, watts, r),
        (AnyEquipment::NonBluetoothDevice(a), AnyEquipment::NonBluetoothDevice(b)) =>
            NonBluetoothDevice::set_target_power_post(a, b, watts, r),
        _ => false,
    }
}

/// The variant-exact meaning of `read` on a type-erased device.
pub open spec fn spec_any_read_post(
    e: AnyEquipment,
    r: Result<Option<FTMSData>, KondisError>,
) -> bool {
    match e {
        AnyEquipment::Iconsole0028Bike(a) => a.read_post(r),
        AnyEquipment::DebugBike(a) => a.read_post(r),
        AnyEquipment::NonBluetoothDevice(a) => a.read_post(r),
    }
}

/// Map an equipment kind and configuration to a constructed, type-erased
/// device. Every kind is constructible; a construction failure — for the
/// transport-backed kinds, the shutdown signal already waiting — is
/// propagated as absence rather than a panic.
pub fn equipment_type_to_equipment(
    equipment_type: EquipmentType,
    max_level: i16,
    shutdown_rx: &mut Receiver<()>,
) -> (r: Option<AnyEquipment>)
    ensures
        r matches Some(e) ==> e.wf() && e.max_level_spec() == max_level && e.kind()
            == equipment_type,
        equipment_type is NonBluetoothDevice ==> r is Some,
        r matches Some(e) ==> spec_any_new_sound(equipment_type, max_level, e),
{
    match equipment_type {
        EquipmentType::Iconsole0028Bike => {
            let equip = Iconsole0028Bike::new(max_level, shutdown_rx);
            match equip {
                Ok(e) => Some(AnyEquipment::Iconsole0028Bike(e)),
                Err(_) => None,
            }
        }
        EquipmentType::DebugBike => {
            let equip = DebugBike::new(max_level, shutdown_rx);
            match equip {
                Ok(e) => Some(AnyEquipment::DebugBike(e)),
                Err(_) => None,
            }
        }
        EquipmentType::NonBluetoothDevice => {
            let equip = NonBluetoothDevice::new(max_level, shutdown_rx);
            match equip {
                Ok(e) => Some(AnyEquipment::NonBluetoothDevice(e)),
                Err(_) => None,
            }
        }
    }
}

/// What a device the factory handed out satisfies: its own variant's `new`
/// guarantee for the requested configuration.
pub open spec fn spec_any_new_sound(
    equipment_type: EquipmentType,
    max_level: i16,
    e: AnyEquipment,
) -> bool {
    match e {
        AnyEquipment::Iconsole0028Bike(b) => Iconsole0028Bike::new_post(
            max_level,
            Ok(b),
        ),
        AnyEquipment::DebugBike(b) => DebugBike::new_post(max_level, Ok(b)),
        AnyEquipment::NonBluetoothDevice(b) => NonBluetoothDevice::new_post(
            max_level,
            Ok(b),
        ),
    }
}

} // verus!
