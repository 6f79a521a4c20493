use vstd::prelude::*;

use crate::errors::KondisError;
use crate::ftms::{
    spec_decode_ack, spec_encode_command, ControlCommand, FTMSData, StopCode,
};
use crate::telemetry::spec_decode_telemetry;
use crate::text::{spec_contains_seq, str_contains, str_eq};

verus! {

/// The discovery predicate a device variant filters peripherals with:
/// an exact identity for the real bike, a substring of a console-style
/// name for the debug bike.
pub enum DeviceMatcher {
    /// The peripheral's advertised name must equal this identity.
    Exact(String),
    /// The peripheral's advertised name must contain this marker.
    NameContains(String),
}

impl DeviceMatcher {
    /// Whether a peripheral with the given advertised name is accepted.
    pub open spec fn spec_accepts(&self, name: Seq<char>) -> bool {
        match self {
            DeviceMatcher::Exact(id) => name == id@,
            DeviceMatcher::NameContains(marker) => spec_contains_seq(name, marker@),
        }
    }

    /// Whether a peripheral with the given advertised name is accepted.
    pub fn accepts(&self, name: &str) -> (r: bool)
        ensures
            r == self.spec_accepts(name@),
    {
        match self {
            DeviceMatcher::Exact(id) => str_eq(name, id.as_str()),
            DeviceMatcher::NameContains(marker) => str_contains(name, marker.as_str()),
        }
    }
}

/// The states of the discovery/connection state machine.
#[derive(Clone, Copy, Debug, PartialEq, Eq, Structural)]
pub enum ConnectionState {
    Disconnected,
    Discovering,
    Found,
    ControlPending,
    ControlGranted,
    Subscribed,
}

/// Whether control commands may be sent in this state: control has been
/// granted and not torn down.
pub open spec fn spec_control_held(s: ConnectionState) -> bool {
    s is ControlGranted || s is Subscribed
}

/// Whether a command needs control-point ownership before it may be sent.
pub open spec fn spec_needs_control(cmd: ControlCommand) -> bool {
    match cmd {
        ControlCommand::TargetPower(_) => true,
        ControlCommand::TargetCadence(_) => true,
        ControlCommand::Stop(_) => true,
        _ => false,
    }
}

/// The discovery/connection state machine of a transport-backed variant.
///
/// The radio itself is an external collaborator: the application performs
/// each scan, connect, write and subscribe, and feeds the outcome back in
/// through the event methods here, whose decisions are all verified. The
/// machine also caches the latest decoded telemetry record, last write wins.
pub struct ConnectionSession {
    pub matcher: DeviceMatcher,
    pub state: ConnectionState,
    pub latest: Option<FTMSData>,
}

impl ConnectionSession {
    /// A fresh session for the given discovery predicate, not yet connected.
    pub fn new(matcher: DeviceMatcher) -> (r: ConnectionSession)
        ensures
            r.state is Disconnected,
            r.latest is None,
            r.matcher == matcher,
    {
        ConnectionSession { matcher, state: ConnectionState::Disconnected, latest: None }
    }

    /// Enter the discovery phase.
    pub fn start_discovery(&mut self)
        requires
            old(self).state is Disconnected,
        ensures
            final(self).state is Discovering,
            final(self).matcher == old(self).matcher,
            final(self).latest == old(self).latest,
    {
        self.state = ConnectionState::Discovering;
    }

    /// One discovery poll over a scan listing. The cancellation signal is
    /// checked first: if it has fired, discovery aborts. Otherwise the first
    /// peripheral the matcher accepts is selected, or discovery continues.
    pub fn poll_scan(&mut self, cancelled: bool, names: &Vec<String>) -> (r: Result<
        Option<usize>,
        KondisError,
    >)
        requires
            old(self).state is Discovering,
        ensures
            final(self).matcher == old(self).matcher,
            final(self).latest == old(self).latest,
            cancelled ==> r == Err::<Option<usize>, KondisError>(KondisError::Cancelled)
                && final(self).state is Disconnected,
            !cancelled ==> match r {
                Ok(found) => match found {
                    Some(i) => {
                        &&& final(self).state is Found
                        &&& 0 <= i < names@.len()
                        &&& old(self).matcher.spec_accepts(names@[i as int]@)
                        &&& forall|j: int|
                            0 <= j < i ==> !old(self).matcher.spec_accepts(names@[j]@)
                    },
                    None => {
                        &&& final(self).state is Discovering
                        &&& forall|j: int|
                            0 <= j < names@.len() ==> !old(self).matcher.spec_accepts(
                                names@[j]@,
                            )
                    },
                },
                Err(_) => false,
            },
    {
        if cancelled {
            self.state = ConnectionState::Disconnected;
            return Err(KondisError::Cancelled);
        }
        let n = names.len();
        let mut i: usize = 0;
        while i < n
            invariant
                !cancelled,
                n == names@.len(),
                i <= n,
                forall|j: int| 0 <= j < i ==> !self.matcher.spec_accepts(names@[j]@),
                self == old(self),
            decreases n - i,
        {
            if self.matcher.accepts(names[i].as_str()) {
                self.state = ConnectionState::Found;
                return Ok(Some(i));
            }
            i = i + 1;
        }
        Ok(None)
    }

    /// Record the outcome of the transport-level connect to the selected
    /// peripheral. On success the machine requests control-point ownership
    /// and hands back the wire bytes of the `RequestControl` command to
    /// write; on failure it reports a transport error, not retried here.
    pub fn on_connect_result(&mut self, success: bool) -> (r: Result<Vec<u8>, KondisError>)
        requires
            old(self).state is Found,
        ensures
            final(self).matcher == old(self).matcher,
            final(self).latest == old(self).latest,
            success ==> final(self).state is ControlPending && match r {
                Ok(bytes) => bytes@ == spec_encode_command(ControlCommand::RequestControl),
                Err(_) => false,
            },
            !success ==> final(self).state is Disconnected && r == Err::<Vec<u8>, KondisError>(
                KondisError::Transport,
            ),
    {
        if success {
            self.state = ConnectionState::ControlPending;
            Ok(crate::ftms::encode_command(&ControlCommand::RequestControl))
        } else {
            self.state = ConnectionState::Disconnected;
            Err(KondisError::Transport)
        }
    }

    /// Process the control-point acknowledgment that answers the
    /// `RequestControl` write. A payload that is no acknowledgment is a
    /// protocol error and leaves the machine waiting; an acknowledgment
    /// grants control exactly when it echoes the `RequestControl` operation
    /// byte with the success result byte.
    pub fn on_control_response(&mut self, payload: &Vec<u8>) -> (r: Result<bool, KondisError>)
        requires
            old(self).state is ControlPending,
        ensures
            final(self).matcher == old(self).matcher,
            final(self).latest == old(self).latest,
            match r {
                Ok(granted) => {
                    &&& spec_decode_ack(payload@) matches Some(ack)
                    &&& granted == (ack.0 == 0x00 && ack.1 == 0x01)
                    &&& granted ==> final(self).state is ControlGranted
                    &&& !granted ==> final(self).state is ControlPending
                },
                Err(e) => {
                    &&& e == KondisError::ProtocolDecode
                    &&& spec_decode_ack(payload@) is None
                    &&& final(self).state is ControlPending
                },
            },
    {
        match crate::ftms::decode_ack(payload) {
            Some((op, result)) => {
                let granted = op == 0x00 && result == 0x01;
                if granted {
                    self.state = ConnectionState::ControlGranted;
                }
                Ok(granted)
            }
            None => Err(KondisError::ProtocolDecode),
        }
    }

    /// Record that the subscription to the telemetry characteristic stands.
    pub fn on_subscribed(&mut self)
        requires
            old(self).state is ControlGranted,
        ensures
            final(self).state is Subscribed,
            final(self).matcher == old(self).matcher,
            final(self).latest == old(self).latest,
    {
        self.state = ConnectionState::Subscribed;
    }

    /// Process one telemetry notification. A well-formed payload replaces
    /// the cached record, last write wins; a malformed one is dropped and
    /// the previous record is retained, so one corrupt notification never
    /// tears the subscription down.
    pub fn on_notification(&mut self, payload: &Vec<u8>) -> (r: Result<(), KondisError>)
        requires
            old(self).state is Subscribed,
        ensures
            final(self).matcher == old(self).matcher,
            final(self).state == old(self).state,
            match r {
                Ok(_) => {
                    &&& final(self).latest matches Some(d)
                    &&& spec_decode_telemetry(payload@, old(self).spec_prev_record()) == Some(d)
                },
                Err(e) => {
                    &&& e == KondisError::ProtocolDecode
                    &&& spec_decode_telemetry(payload@, old(self).spec_prev_record()) is None
                    &&& final(self).latest == old(self).latest
                },
            },
    {
        let prev: FTMSData = match &self.latest {
            Some(d) => *d,
            None => FTMSData::zeroed(),
        };
        match crate::telemetry::decode_telemetry(payload, &prev) {
            Ok(d) => {
                self.latest = Some(d);
                Ok(())
            }
            Err(e) => Err(e),
        }
    }

    /// The record a notification is decoded against: the cached record, or
    /// the all-zero record before anything has arrived.
    pub open spec fn spec_prev_record(&self) -> FTMSData {
        match self.latest {
            Some(d) => d,
            None => FTMSData::spec_zeroed(),
        }
    }

    /// Gate a control command on control-point ownership: commands that
    /// drive the machine are rejected locally until control was granted, so
    /// nothing undefined ever reaches the wire. Accepted commands come back
    /// as the exact wire bytes to write.
    pub fn authorize_command(&self, cmd: &ControlCommand) -> (r: Result<Vec<u8>, KondisError>)
        ensures
            match r {
                Ok(bytes) => bytes@ == spec_encode_command(*cmd) && (spec_needs_control(*cmd)
                    ==> spec_control_held(self.state)),
                Err(e) => {
                    &&& e == KondisError::ControlNotGranted
                    &&& spec_needs_control(*cmd)
                    &&& !spec_control_held(self.state)
                },
            },
    {
        let needs_control = match cmd {
            ControlCommand::TargetPower(_) => true,
            ControlCommand::TargetCadence(_) => true,
            ControlCommand::Stop(_) => true,
            _ => false,
        };
        let held = match self.state {
            ConnectionState::ControlGranted => true,
            ConnectionState::Subscribed => true,
            _ => false,
        };
        if needs_control && !held {
            return Err(KondisError::ControlNotGranted);
        }
        Ok(crate::ftms::encode_command(cmd))
    }

    /// Tear the session down: the machine returns to `Disconnected` from
    /// any state and the cached record is dropped. If the session was
    /// subscribed, the wire bytes of a `Stop` command are handed back for a
    /// best-effort send; a failure of that send is the caller's soft error
    /// and does not undo the disconnect.
    pub fn disconnect(&mut self) -> (r: Option<Vec<u8>>)
        ensures
            final(self).state is Disconnected,
            final(self).latest is None,
            final(self).matcher == old(self).matcher,
            old(self).state is Subscribed ==> (r matches Some(bytes) && bytes@
                == spec_encode_command(ControlCommand::Stop(StopCode::Stop))),
            !(old(self).state is Subscribed) ==> r is None,
    {
        let was_subscribed = match self.state {
            ConnectionState::Subscribed => true,
            _ => false,
        };
        self.state = ConnectionState::Disconnected;
        self.latest = None;
        if was_subscribed {
            Some(crate::ftms::encode_command(&ControlCommand::Stop(StopCode::Stop)))
        } else {
            None
        }
    }
}

} // verus!
