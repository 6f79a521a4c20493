use vstd::prelude::*;

use std::sync::mpsc::Receiver;
use std::time::Instant;

use crate::errors::KondisError;
use crate::ftms::FTMSData;
use crate::{in_target_range, Equipment};

verus! {

/// Which target a recorded setting was for.
#[derive(Clone, Copy, Debug, PartialEq, Eq, Structural)]
pub enum TargetKind {
    Cadence,
    Power,
}

/// One recorded target setting of the simulated device: the requested value
/// together with the elapsed-time stamp, in whole seconds, at which it was
/// requested.
#[derive(Clone, Copy, Debug, PartialEq, Eq, Structural)]
pub struct SetRecord {
    pub kind: TargetKind,
    pub value: i16,
    pub stamp: u16,
}

/// A device implemented without any connection: `connect` and `disconnect`
/// are observable no-ops, the target setters perform only the range
/// validation and record the requested value with an elapsed-time stamp,
/// and `read` synthesizes a record with zero metrics and a real elapsed
/// time. Used to validate the capability contract without hardware.
pub struct NonBluetoothDevice {
    pub name: String,
    pub max_level: i16,
    pub start_time: Instant,
    pub log: Vec<SetRecord>,
    pub last_stamp: u16,
}

impl NonBluetoothDevice {
    /// Well-formedness: every recorded value passed the range validation,
    /// the recorded stamps never decrease, and none of them exceeds the
    /// stamp of the most recent recording.
    pub open spec fn wf(&self) -> bool {
        &&& forall|i: int|
            0 <= i < self.log@.len() ==> in_target_range(self.log@[i].value, self.max_level)
        &&& forall|i: int, j: int|
            0 <= i <= j < self.log@.len() ==> self.log@[i].stamp <= self.log@[j].stamp
        &&& forall|i: int| 0 <= i < self.log@.len() ==> self.log@[i].stamp <= self.last_stamp
    }

    /// The elapsed time since construction, in whole seconds, clamped so
    /// that it fits a 16-bit stamp and never falls below the stamp last
    /// recorded: the stream of stamps this device reports is monotonically
    /// non-decreasing whatever the clock reading was.
    fn elapsed_stamp(&self) -> (t: u16)
        ensures
            t >= self.last_stamp,
    {
        let secs: u64 = self.start_time.elapsed().as_secs();
        let capped: u16 = if secs > 65535 {
            65535
        } else {
            secs as u16
        };
        if capped < self.last_stamp {
            self.last_stamp
        } else {
            capped
        }
    }

    /// Validate a target value and, if it is in range, record it with a
    /// fresh elapsed-time stamp.
    fn record_target(&mut self, kind: TargetKind, value: i16) -> (r: Result<(), KondisError>)
        requires
            old(self).wf(),
        ensures
            final(self).wf(),
            spec_setter_post(*old(self), *final(self), kind, value, r),
    {
        if value < 1 || value > self.max_level {
            return Err(
                KondisError::Validation { value, max_level: self.max_level },
            );
        }
        let t = self.elapsed_stamp();
        self.log.push(SetRecord { kind, value, stamp: t });
        self.last_stamp = t;
        Ok(())
    }
}

/// What a target setter of the simulated device guarantees: an out-of-range
/// value is rejected with the validation error and nothing is recorded; an
/// in-range value succeeds and is appended to the log with a stamp no
/// smaller than any recorded before.
pub open spec fn spec_setter_post(
    pre: NonBluetoothDevice,
    post: NonBluetoothDevice,
    kind: TargetKind,
    value: i16,
    r: Result<(), KondisError>,
) -> bool {
    if in_target_range(value, pre.max_level) {
        &&& r is Ok
        &&& post.last_stamp >= pre.last_stamp
        &&& post.log@ == pre.log@.push(
            SetRecord { kind, value, stamp: post.last_stamp },
        )
        &&& post.name == pre.name
        &&& post.max_level == pre.max_level
        &&& post.start_time == pre.start_time
    } else {
        &&& r == Err::<(), KondisError>(
            KondisError::Validation { value, max_level: pre.max_level },
        )
        &&& post == pre
    }
}

/// Law: the elapsed-time stamps a well-formed simulated device has recorded
/// are monotonically non-decreasing, in the order they were recorded.
pub proof fn lemma_recorded_stamps_monotonic(d: NonBluetoothDevice, i: int, j: int)
    requires
        d.wf(),
        0 <= i <= j < d.log@.len(),
    ensures
        d.log@[i].stamp <= d.log@[j].stamp,
{
}

impl Equipment for NonBluetoothDevice {
    open spec fn inv(&self) -> bool {
        self.wf()
    }

    open spec fn max_level_spec(&self) -> i16 {
        self.max_level
    }

    open spec fn new_post(max_level: i16, r: Result<Self, KondisError>) -> bool {
        match r {
            Ok(d) => {
                &&& d.max_level == max_level
                &&& d.log@.len() == 0
                &&& d.last_stamp == 0
                &&& d.name@ == "some hypothetical non-bluetooth device"@
            },
            Err(_) => false,
        }
    }

    open spec fn connect_post(pre: Self, post: Self, r: Result<bool, KondisError>) -> bool {
        r == Ok::<bool, KondisError>(true) && post == pre
    }

    open spec fn disconnect_post(pre: Self, post: Self, r: Result<(), KondisError>) -> bool {
        r is Ok && post == pre
    }

    open spec fn set_target_cadence_post(
        pre: Self,
        post: Self,
        rpm: i16,
        r: Result<(), KondisError>,
    ) -> bool {
        spec_setter_post(pre, post, TargetKind::Cadence, rpm, r)
    }

    open spec fn set_target_power_post(
        pre: Self,
        post: Self,
        watts: i16,
        r: Result<(), KondisError>,
    ) -> bool {
        spec_setter_post(pre, post, TargetKind::Power, watts, r)
    }

    /// A read always succeeds and always carries a record whose metric
    /// fields are all zero; only the elapsed time varies, and it never
    /// falls below the stamp of the most recent recording.
    open spec fn read_post(&self, r: Result<Option<FTMSData>, KondisError>) -> bool {
        match r {
            Ok(opt) => match opt {
                Some(d) => d.metrics_zero() && d.time >= self.last_stamp,
                None => false,
            },
            Err(_) => false,
        }
    }

    fn new(max_level: i16, _shutdown_rx: &mut Receiver<()>) -> (r: Result<Self, KondisError>) {
        Ok(
            NonBluetoothDevice {
                name: String::from_str("some hypothetical non-bluetooth device"),
                max_level,
                start_time: Instant::now(),
                log: Vec::new(),
                last_stamp: 0,
            },
        )
    }

    fn connect(&mut self) -> (r: Result<bool, KondisError>) {
        Ok(true)
    }

    fn disconnect(&mut self) -> (r: Result<(), KondisError>) {
        Ok(())
    }

    fn set_target_cadence(&mut self, rpm: i16) -> (r: Result<(), KondisError>) {
        self.record_target(TargetKind::Cadence, rpm)
    }

    fn set_target_power(&mut self, watts: i16) -> (r: Result<(), KondisError>) {
        self.record_target(TargetKind::Power, watts)
    }

    fn read(&self) -> (r: Result<Option<FTMSData>, KondisError>) {
        let mut data = FTMSData::zeroed();
        data.time = self.elapsed_stamp();
        Ok(Some(data))
    }
}

} // verus!
