use vstd::prelude::*;

use std::sync::mpsc::Receiver;

use crate::connection::{
    spec_control_held, ConnectionSession, ConnectionState, DeviceMatcher,
};
use crate::errors::KondisError;
use crate::ftms::{spec_encode_command, ControlCommand, FTMSData, StopCode};
use crate::shutdown::shutdown_signaled;
use crate::{in_target_range, Equipment};

verus! {

/// What a transport-backed variant's `new` guarantees: construction fails
/// only because the shutdown signal was already waiting, and a constructed
/// bike is still discovering — the cancellation check preempts any
/// connection, so a cancelled construction never reaches a connected state.
pub open spec fn spec_bike_new_post(
    max_level: i16,
    state: ConnectionState,
    latest: Option<FTMSData>,
    outbox_len: int,
    failed_with: Option<KondisError>,
) -> bool {
    match failed_with {
        Some(e) => e == KondisError::Cancelled,
        None => state is Discovering && latest is None && outbox_len == 0,
    }
}

/// What a bike's `connect` reports per state: `true` once control of the
/// equipment is held, `false` while the grant is still pending, and a
/// transport error while no link stands. The transport work itself is the
/// application's: it drives the session's event methods.
pub open spec fn spec_bike_connect_result(
    state: ConnectionState,
    r: Result<bool, KondisError>,
) -> bool {
    match state {
        ConnectionState::ControlGranted => r == Ok::<bool, KondisError>(true),
        ConnectionState::Subscribed => r == Ok::<bool, KondisError>(true),
        ConnectionState::ControlPending => r == Ok::<bool, KondisError>(false),
        _ => r == Err::<bool, KondisError>(KondisError::Transport),
    }
}

/// What a bike's target setter guarantees: an out-of-range value is
/// rejected with the validation error, a command attempted before control
/// was granted is rejected locally, and otherwise exactly the encoded wire
/// command is appended to the outbox — nothing else of the bike changes.
pub open spec fn spec_bike_setter_post(
    pre_session: ConnectionSession,
    pre_outbox: Vec<Vec<u8>>,
    post_outbox: Vec<Vec<u8>>,
    max_level: i16,
    cmd: ControlCommand,
    value: i16,
    r: Result<(), KondisError>,
) -> bool {
    if !in_target_range(value, max_level) {
        &&& r == Err::<(), KondisError>(
            KondisError::Validation { value, max_level },
        )
        &&& post_outbox == pre_outbox
    } else if !spec_control_held(pre_session.state) {
        &&& r == Err::<(), KondisError>(KondisError::ControlNotGranted)
        &&& post_outbox == pre_outbox
    } else {
        &&& r is Ok
        &&& post_outbox@.len() == pre_outbox@.len() + 1
        &&& post_outbox@.last()@ == spec_encode_command(cmd)
        &&& forall|i: int| 0 <= i < pre_outbox@.len() ==> post_outbox@[i] == pre_outbox@[i]
    }
}

/// Law: when the shutdown signal is already waiting, constructing a
/// transport-backed variant fails with the cancellation error and nothing
/// else; and a construction that did succeed left the machine discovering,
/// short of every connected state — in particular control is not held, so
/// no control command can have reached the wire.
pub proof fn lemma_bike_new_never_connected(
    max_level: i16,
    state: ConnectionState,
    latest: Option<FTMSData>,
    outbox_len: int,
    failed_with: Option<KondisError>,
)
    requires
        spec_bike_new_post(max_level, state, latest, outbox_len, failed_with),
    ensures
        failed_with matches Some(e) ==> e == KondisError::Cancelled,
        failed_with is None ==> state is Discovering && !spec_control_held(state) && outbox_len
            == 0,
{
}

/// Validate a target value against `max_level`, gate it on control-point
/// ownership, and queue the encoded command for the application to write.
fn queue_target_command(
    session: &ConnectionSession,
    outbox: &mut Vec<Vec<u8>>,
    max_level: i16,
    cmd: ControlCommand,
    value: i16,
) -> (r: Result<(), KondisError>)
    requires
        (cmd matches ControlCommand::TargetCadence(v) && v == value) || (
        cmd matches ControlCommand::TargetPower(v) && v == value),
    ensures
        spec_bike_setter_post(*session, *old(outbox), *final(outbox), max_level, cmd, value, r),
{
    if value < 1 || value > max_level {
        return Err(KondisError::Validation { value, max_level });
    }
    match session.authorize_command(&cmd) {
        Ok(bytes) => {
            outbox.push(bytes);
            Ok(())
        }
        Err(e) => Err(e),
    }
}

/// The real wireless bike driver: the full state machine run against the
/// live transport, whose discovery predicate is the bike's fixed identity.
pub struct Iconsole0028Bike {
    pub name: String,
    pub max_level: i16,
    pub session: ConnectionSession,
    /// Wire frames queued for the application to write to the control
    /// point, in order.
    pub outbox: Vec<Vec<u8>>,
}

/// The debug bike driver: the identical state machine, but its discovery
/// predicate accepts any peripheral advertising a console-style name, so
/// the full protocol path can be run against arbitrary hardware.
pub struct DebugBike {
    pub name: String,
    pub max_level: i16,
    pub session: ConnectionSession,
    /// Wire frames queued for the application to write to the control
    /// point, in order.
    pub outbox: Vec<Vec<u8>>,
}

impl Iconsole0028Bike {
    /// Decide construction from the observed cancellation flag: a waiting
    /// shutdown signal forces the cancellation error — the only way this
    /// construction fails — and otherwise a fresh driver comes back,
    /// discovering under the fixed identity, short of every connected
    /// state.
    pub fn construct(max_level: i16, cancelled: bool) -> (r: Result<
        Iconsole0028Bike,
        KondisError,
    >)
        ensures
            cancelled ==> r == Err::<Iconsole0028Bike, KondisError>(KondisError::Cancelled),
            !cancelled ==> (r matches Ok(b) && b.inv() && b.max_level == max_level
                && b.session.state is Discovering && b.session.latest is None && b.outbox@.len()
                == 0),
    {
        if cancelled {
            return Err(KondisError::Cancelled);
        }
        let name = String::from_str("iConsole+0028");
        let mut session = ConnectionSession::new(DeviceMatcher::Exact(String::from_str(
            "iConsole+0028",
        )));
        session.start_discovery();
        Ok(Iconsole0028Bike { name, max_level, session, outbox: Vec::new() })
    }
}

impl DebugBike {
    /// Decide construction from the observed cancellation flag: a waiting
    /// shutdown signal forces the cancellation error — the only way this
    /// construction fails — and otherwise a fresh driver comes back,
    /// discovering under the console-name predicate, short of every
    /// connected state.
    pub fn construct(max_level: i16, cancelled: bool) -> (r: Result<DebugBike, KondisError>)
        ensures
            cancelled ==> r == Err::<DebugBike, KondisError>(KondisError::Cancelled),
            !cancelled ==> (r matches Ok(b) && b.inv() && b.max_level == max_level
                && b.session.state is Discovering && b.session.latest is None && b.outbox@.len()
                == 0),
    {
        if cancelled {
            return Err(KondisError::Cancelled);
        }
        let name = String::from_str("debug bike");
        let mut session = ConnectionSession::new(DeviceMatcher::NameContains(String::from_str(
            "Console",
        )));
        session.start_discovery();
        Ok(DebugBike { name, max_level, session, outbox: Vec::new() })
    }
}

impl Equipment for Iconsole0028Bike {
    /// The discovery predicate is this bike's fixed identity.
    open spec fn inv(&self) -> bool {
        &&& self.session.matcher matches DeviceMatcher::Exact(id) && id@ == self.name@
        &&& self.name@ == "iConsole+0028"@
    }

    open spec fn max_level_spec(&self) -> i16 {
        self.max_level
    }

    open spec fn new_post(max_level: i16, r: Result<Self, KondisError>) -> bool {
        match r {
            Ok(b) => spec_bike_new_post(
                max_level,
                b.session.state,
                b.session.latest,
                b.outbox@.len() as int,
                None,
            ),
            Err(e) => spec_bike_new_post(
                max_level,
                ConnectionState::Disconnected,
                None,
                0,
                Some(e),
            ),
        }
    }

    open spec fn connect_post(pre: Self, post: Self, r: Result<bool, KondisError>) -> bool {
        post == pre && spec_bike_connect_result(pre.session.state, r)
    }

    open spec fn disconnect_post(pre: Self, post: Self, r: Result<(), KondisError>) -> bool {
        &&& r is Ok
        &&& post.session.state is Disconnected
        &&& post.session.latest is None
        &&& post.name == pre.name
        &&& post.max_level == pre.max_level
        &&& if pre.session.state is Subscribed {
            &&& post.outbox@.len() == pre.outbox@.len() + 1
            &&& post.outbox@.last()@ == spec_encode_command(
                ControlCommand::Stop(StopCode::Stop),
            )
            &&& forall|i: int| 0 <= i < pre.outbox@.len() ==> post.outbox@[i] == pre.outbox@[i]
        } else {
            post.outbox == pre.outbox
        }
    }

    open spec fn set_target_cadence_post(
        pre: Self,
        post: Self,
        rpm: i16,
        r: Result<(), KondisError>,
    ) -> bool {
        &&& spec_bike_setter_post(
            pre.session,
            pre.outbox,
            post.outbox,
            pre.max_level,
            ControlCommand::TargetCadence(rpm),
            rpm,
            r,
        )
        &&& post.session == pre.session
        &&& post.name == pre.name
        &&& post.max_level == pre.max_level
    }

    open spec fn set_target_power_post(
        pre: Self,
        post: Self,
        watts: i16,
        r: Result<(), KondisError>,
    ) -> bool {
        &&& spec_bike_setter_post(
            pre.session,
            pre.outbox,
            post.outbox,
            pre.max_level,
            ControlCommand::TargetPower(watts),
            watts,
            r,
        )
        &&& post.session == pre.session
        &&& post.name == pre.name
        &&& post.max_level == pre.max_level
    }

    /// A read never blocks: it reports the cached record, none before any
    /// notification arrived.
    open spec fn read_post(&self, r: Result<Option<FTMSData>, KondisError>) -> bool {
        r == Ok::<Option<FTMSData>, KondisError>(self.session.latest)
    }

    fn new(max_level: i16, shutdown_rx: &mut Receiver<()>) -> (r: Result<Self, KondisError>) {
        let cancelled = shutdown_signaled(shutdown_rx);
        Iconsole0028Bike::construct(max_level, cancelled)
    }

    fn connect(&mut self) -> (r: Result<bool, KondisError>) {
        bike_connect_result(&self.session)
    }

    fn disconnect(&mut self) -> (r: Result<(), KondisError>) {
        let stop = self.session.disconnect();
        match stop {
            Some(bytes) => {
                self.outbox.push(bytes);
            }
            None => {}
        }
        Ok(())
    }

    fn set_target_cadence(&mut self, rpm: i16) -> (r: Result<(), KondisError>) {
        queue_target_command(
            &self.session,
            &mut self.outbox,
            self.max_level,
            ControlCommand::TargetCadence(rpm),
            rpm,
        )
    }

    fn set_target_power(&mut self, watts: i16) -> (r: Result<(), KondisError>) {
        queue_target_command(
            &self.session,
            &mut self.outbox,
            self.max_level,
            ControlCommand::TargetPower(watts),
            watts,
        )
    }

    fn read(&self) -> (r: Result<Option<FTMSData>, KondisError>) {
        Ok(self.session.latest)
    }
}

/// The local part of `connect`: report whether control of the equipment is
/// held, given how far the application has driven the session.
fn bike_connect_result(session: &ConnectionSession) -> (r: Result<bool, KondisError>)
    ensures
        spec_bike_connect_result(session.state, r),
{
    match session.state {
        ConnectionState::ControlGranted => Ok(true),
        ConnectionState::Subscribed => Ok(true),
        ConnectionState::ControlPending => Ok(false),
        _ => Err(KondisError::Transport),
    }
}

impl Equipment for DebugBike {
    /// The discovery predicate accepts any console-style name.
    open spec fn inv(&self) -> bool {
        self.session.matcher matches DeviceMatcher::NameContains(m) && m@ == "Console"@
    }

    open spec fn max_level_spec(&self) -> i16 {
        self.max_level
    }

    open spec fn new_post(max_level: i16, r: Result<Self, KondisError>) -> bool {
        match r {
            Ok(b) => spec_bike_new_post(
                max_level,
                b.session.state,
                b.session.latest,
                b.outbox@.len() as int,
                None,
            ),
            Err(e) => spec_bike_new_post(
                max_level,
                ConnectionState::Disconnected,
                None,
                0,
                Some(e),
            ),
        }
    }

    open spec fn connect_post(pre: Self, post: Self, r: Result<bool, KondisError>) -> bool {
        post == pre && spec_bike_connect_result(pre.session.state, r)
    }

    open spec fn disconnect_post(pre: Self, post: Self, r: Result<(), KondisError>) -> bool {
        &&& r is Ok
        &&& post.session.state is Disconnected
        &&& post.session.latest is None
        &&& post.name == pre.name
        &&& post.max_level == pre.max_level
        &&& if pre.session.state is Subscribed {
            &&& post.outbox@.len() == pre.outbox@.len() + 1
            &&& post.outbox@.last()@ == spec_encode_command(
                ControlCommand::Stop(StopCode::Stop),
            )
            &&& forall|i: int| 0 <= i < pre.outbox@.len() ==> post.outbox@[i] == pre.outbox@[i]
        } else {
            post.outbox == pre.outbox
        }
    }

    open spec fn set_target_cadence_post(
        pre: Self,
        post: Self,
        rpm: i16,
        r: Result<(), KondisError>,
    ) -> bool {
        &&& spec_bike_setter_post(
            pre.session,
            pre.outbox,
            post.outbox,
            pre.max_level,
            ControlCommand::TargetCadence(rpm),
            rpm,
            r,
        )
        &&& post.session == pre.session
        &&& post.name == pre.name
        &&& post.max_level == pre.max_level
    }

    open spec fn set_target_power_post(
        pre: Self,
        post: Self,
        watts: i16,
        r: Result<(), KondisError>,
    ) -> bool {
        &&& spec_bike_setter_post(
            pre.session,
            pre.outbox,
            post.outbox,
            pre.max_level,
            ControlCommand::TargetPower(watts),
            watts,
            r,
        )
        &&& post.session == pre.session
        &&& post.name == pre.name
        &&& post.max_level == pre.max_level
    }

    /// A read never blocks: it reports the cached record, none before any
    /// notification arrived.
    open spec fn read_post(&self, r: Result<Option<FTMSData>, KondisError>) -> bool {
        r == Ok::<Option<FTMSData>, KondisError>(self.session.latest)
    }

    fn new(max_level: i16, shutdown_rx: &mut Receiver<()>) -> (r: Result<Self, KondisError>) {
        let cancelled = shutdown_signaled(shutdown_rx);
        DebugBike::construct(max_level, cancelled)
    }

    fn connect(&mut self) -> (r: Result<bool, KondisError>) {
        bike_connect_result(&self.session)
    }

    fn disconnect(&mut self) -> (r: Result<(), KondisError>) {
        let stop = self.session.disconnect();
        match stop {
            Some(bytes) => {
                self.outbox.push(bytes);
            }
            None => {}
        }
        Ok(())
    }

    fn set_target_cadence(&mut self, rpm: i16) -> (r: Result<(), KondisError>) {
        queue_target_command(
            &self.session,
            &mut self.outbox,
            self.max_level,
            ControlCommand::TargetCadence(rpm),
            rpm,
        )
    }

    fn set_target_power(&mut self, watts: i16) -> (r: Result<(), KondisError>) {
        queue_target_command(
            &self.session,
            &mut self.outbox,
            self.max_level,
            ControlCommand::TargetPower(watts),
            watts,
        )
    }

    fn read(&self) -> (r: Result<Option<FTMSData>, KondisError>) {
        Ok(self.session.latest)
    }
}

} // verus!
