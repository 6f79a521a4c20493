use vstd::prelude::*;

verus! {

/// Normalized snapshot of equipment state, one instance per successful read.
///
/// Every field carries the raw FTMS wire unit as a plain integer: `speed` in
/// hundredths of a km/h, `cadence` in halves of a revolution per minute,
/// `distance` in metres (24-bit on the wire), `resistance` in unitless signed
/// steps, `power` in watts, `calories` in kilocalories, `heart_rate` in beats
/// per minute and `time` in seconds elapsed since the connection started.
/// All fields default to zero when unset.
#[derive(Clone, Copy, Debug, PartialEq, Eq, Structural)]
pub struct FTMSData {
    pub speed: u16,
    pub cadence: u16,
    pub distance: u32,
    pub resistance: i16,
    pub power: u8,
    pub calories: u16,
    pub heart_rate: u8,
    pub time: u16,
}

impl FTMSData {
    /// The record with every field at its zero default.
    pub fn zeroed() -> (r: FTMSData)
        ensures
            r == FTMSData::spec_zeroed(),
    {
        FTMSData {
            speed: 0,
            cadence: 0,
            distance: 0,
            resistance: 0,
            power: 0,
            calories: 0,
            heart_rate: 0,
            time: 0,
        }
    }

    /// Spec view of the all-zero record.
    pub open spec fn spec_zeroed() -> FTMSData {
        FTMSData {
            speed: 0,
            cadence: 0,
            distance: 0,
            resistance: 0,
            power: 0,
            calories: 0,
            heart_rate: 0,
            time: 0,
        }
    }

    /// Whether every metric field is zero; the elapsed time may be anything.
    pub open spec fn metrics_zero(self) -> bool {
        &&& self.speed == 0
        &&& self.cadence == 0
        &&& self.distance == 0
        &&& self.resistance == 0
        &&& self.power == 0
        &&& self.calories == 0
        &&& self.heart_rate == 0
    }
}

/// FTMS control operation codes. The wire byte of each tag is given by
/// [`op_code_byte`]; `Success` is a response tag, never sent by this side.
#[derive(Clone, Copy, Debug, PartialEq, Eq, Structural)]
pub enum FTMSControlOpCode {
    RequestControl,
    TargetPower,
    Start,
    Stop,
    SpinDownControl,
    TargetCadence,
    Success,
}

/// Spec mapping of each control operation tag to its one-byte wire code.
pub open spec fn spec_op_code_byte(op: FTMSControlOpCode) -> u8 {
    match op {
        FTMSControlOpCode::RequestControl => 0x00,
        FTMSControlOpCode::TargetPower => 0x05,
        FTMSControlOpCode::Start => 0x07,
        FTMSControlOpCode::Stop => 0x08,
        FTMSControlOpCode::SpinDownControl => 0x13,
        FTMSControlOpCode::TargetCadence => 0x14,
        FTMSControlOpCode::Success => 0x80,
    }
}

/// The one-byte wire code of a control operation tag.
pub fn op_code_byte(op: FTMSControlOpCode) -> (r: u8)
    ensures
        r == spec_op_code_byte(op),
{
    match op {
        FTMSControlOpCode::RequestControl => 0x00,
        FTMSControlOpCode::TargetPower => 0x05,
        FTMSControlOpCode::Start => 0x07,
        FTMSControlOpCode::Stop => 0x08,
        FTMSControlOpCode::SpinDownControl => 0x13,
        FTMSControlOpCode::TargetCadence => 0x14,
        FTMSControlOpCode::Success => 0x80,
    }
}

/// Stop codes: the parameter byte of the `Stop` command.
#[derive(Clone, Copy, Debug, PartialEq, Eq, Structural)]
pub enum StopCode {
    Stop,
    Pause,
}

/// Spec mapping of each stop code to its wire byte.
pub open spec fn spec_stop_code_byte(code: StopCode) -> u8 {
    match code {
        StopCode::Stop => 0x01,
        StopCode::Pause => 0x02,
    }
}

/// The wire byte of a stop code.
pub fn stop_code_byte(code: StopCode) -> (r: u8)
    ensures
        r == spec_stop_code_byte(code),
{
    match code {
        StopCode::Stop => 0x01,
        StopCode::Pause => 0x02,
    }
}

/// An outgoing control command: an operation tag together with its parameter.
#[derive(Clone, Copy, Debug, PartialEq, Eq, Structural)]
pub enum ControlCommand {
    RequestControl,
    TargetPower(i16),
    Start,
    Stop(StopCode),
    SpinDownControl,
    TargetCadence(i16),
}

/// Low byte of the little-endian encoding of a signed 16-bit value.
pub open spec fn spec_le_lo(v: i16) -> u8 {
    ((v as u16) % 256) as u8
}

/// High byte of the little-endian encoding of a signed 16-bit value.
pub open spec fn spec_le_hi(v: i16) -> u8 {
    ((v as u16) / 256) as u8
}

/// Wire encoding of a control command: the operation byte, followed by a
/// 2-byte little-endian signed parameter for the target commands, or the
/// stop-code byte for `Stop`.
pub open spec fn spec_encode_command(cmd: ControlCommand) -> Seq<u8> {
    match cmd {
        ControlCommand::RequestControl => seq![spec_op_code_byte(
            FTMSControlOpCode::RequestControl,
        )],
        ControlCommand::TargetPower(w) => seq![
            spec_op_code_byte(FTMSControlOpCode::TargetPower),
            spec_le_lo(w),
            spec_le_hi(w),
        ],
        ControlCommand::Start => seq![spec_op_code_byte(FTMSControlOpCode::Start)],
        ControlCommand::Stop(c) => seq![
            spec_op_code_byte(FTMSControlOpCode::Stop),
            spec_stop_code_byte(c),
        ],
        ControlCommand::SpinDownControl => seq![spec_op_code_byte(
            FTMSControlOpCode::SpinDownControl,
        )],
        ControlCommand::TargetCadence(r) => seq![
            spec_op_code_byte(FTMSControlOpCode::TargetCadence),
            spec_le_lo(r),
            spec_le_hi(r),
        ],
    }
}

/// Encode a control command into the bytes written to the control point.
pub fn encode_command(cmd: &ControlCommand) -> (r: Vec<u8>)
    ensures
        r@ == spec_encode_command(*cmd),
{
    let mut out: Vec<u8> = Vec::new();
    match cmd {
        ControlCommand::RequestControl => {
            out.push(op_code_byte(FTMSControlOpCode::RequestControl));
        }
        ControlCommand::TargetPower(w) => {
            out.push(op_code_byte(FTMSControlOpCode::TargetPower));
            let u: u16 = *w as u16;
            out.push((u % 256) as u8);
            out.push((u / 256) as u8);
        }
        ControlCommand::Start => {
            out.push(op_code_byte(FTMSControlOpCode::Start));
        }
        ControlCommand::Stop(c) => {
            out.push(op_code_byte(FTMSControlOpCode::Stop));
            out.push(stop_code_byte(*c));
        }
        ControlCommand::SpinDownControl => {
            out.push(op_code_byte(FTMSControlOpCode::SpinDownControl));
        }
        ControlCommand::TargetCadence(r) => {
            out.push(op_code_byte(FTMSControlOpCode::TargetCadence));
            let u: u16 = *r as u16;
            out.push((u % 256) as u8);
            out.push((u / 256) as u8);
        }
    }
    proof {
        assert(out@ =~= spec_encode_command(*cmd));
    }
    out
}

/// The signed 16-bit value carried by a little-endian byte pair.
pub open spec fn spec_le_val(lo: u8, hi: u8) -> i16 {
    ((lo as u16) + (hi as u16) * 256) as i16
}

/// Spec decoding of control-point bytes back into a command: the inverse of
/// [`spec_encode_command`]. `None` marks a payload that no command encodes
/// to (empty, unknown operation byte, or a length that does not match the
/// operation).
pub open spec fn spec_decode_command(bytes: Seq<u8>) -> Option<ControlCommand> {
    if bytes.len() == 0 {
        None
    } else if bytes[0] == spec_op_code_byte(FTMSControlOpCode::RequestControl) && bytes.len()
        == 1 {
        Some(ControlCommand::RequestControl)
    } else if bytes[0] == spec_op_code_byte(FTMSControlOpCode::TargetPower) && bytes.len() == 3 {
        Some(ControlCommand::TargetPower(spec_le_val(bytes[1], bytes[2])))
    } else if bytes[0] == spec_op_code_byte(FTMSControlOpCode::Start) && bytes.len() == 1 {
        Some(ControlCommand::Start)
    } else if bytes[0] == spec_op_code_byte(FTMSControlOpCode::Stop) && bytes.len() == 2 && bytes[1]
        == spec_stop_code_byte(StopCode::Stop) {
        Some(ControlCommand::Stop(StopCode::Stop))
    } else if bytes[0] == spec_op_code_byte(FTMSControlOpCode::Stop) && bytes.len() == 2 && bytes[1]
        == spec_stop_code_byte(StopCode::Pause) {
        Some(ControlCommand::Stop(StopCode::Pause))
    } else if bytes[0] == spec_op_code_byte(FTMSControlOpCode::SpinDownControl) && bytes.len()
        == 1 {
        Some(ControlCommand::SpinDownControl)
    } else if bytes[0] == spec_op_code_byte(FTMSControlOpCode::TargetCadence) && bytes.len() == 3 {
        Some(ControlCommand::TargetCadence(spec_le_val(bytes[1], bytes[2])))
    } else {
        None
    }
}

/// Decode control-point bytes back into the command they encode, as a mock
/// receiver would; `None` marks a payload no command encodes to.
pub fn decode_command(bytes: &Vec<u8>) -> (r: Option<ControlCommand>)
    ensures
        r == spec_decode_command(bytes@),
{
    if bytes.len() == 0 {
        return None;
    }
    let op: u8 = bytes[0];
    if op == 0x00 && bytes.len() == 1 {
        Some(ControlCommand::RequestControl)
    } else if op == 0x05 && bytes.len() == 3 {
        Some(ControlCommand::TargetPower(le_val(bytes[1], bytes[2])))
    } else if op == 0x07 && bytes.len() == 1 {
        Some(ControlCommand::Start)
    } else if op == 0x08 && bytes.len() == 2 && bytes[1] == 0x01 {
        Some(ControlCommand::Stop(StopCode::Stop))
    } else if op == 0x08 && bytes.len() == 2 && bytes[1] == 0x02 {
        Some(ControlCommand::Stop(StopCode::Pause))
    } else if op == 0x13 && bytes.len() == 1 {
        Some(ControlCommand::SpinDownControl)
    } else if op == 0x14 && bytes.len() == 3 {
        Some(ControlCommand::TargetCadence(le_val(bytes[1], bytes[2])))
    } else {
        None
    }
}

/// Reassemble the signed 16-bit value of a little-endian byte pair.
pub fn le_val(lo: u8, hi: u8) -> (r: i16)
    ensures
        r == spec_le_val(lo, hi),
{
    let u: u16 = (lo as u16) + (hi as u16) * 256;
    u as i16
}

/// Splitting a signed 16-bit value into little-endian bytes and reassembling
/// them gives the value back.
pub proof fn lemma_le_round_trip(v: i16)
    ensures
        spec_le_val(spec_le_lo(v), spec_le_hi(v)) == v,
{
    let u: u16 = v as u16;
    assert((((u % 256) as u8) as u16 + (((u / 256) as u8) as u16) * 256) as i16 == v)
        by (bit_vector)
        requires
            u == v as u16,
    ;
}

/// Round-trip law: decoding the encoding of any control command yields that
/// command back.
pub proof fn lemma_command_round_trip(cmd: ControlCommand)
    ensures
        spec_decode_command(spec_encode_command(cmd)) == Some(cmd),
{
    match cmd {
        ControlCommand::TargetPower(w) => {
            lemma_le_round_trip(w);
        }
        ControlCommand::TargetCadence(r) => {
            lemma_le_round_trip(r);
        }
        _ => {}
    }
}

/// Soundness of the decoder at spec level: a decoded command encodes back to
/// exactly the bytes it was decoded from.
pub proof fn lemma_decode_sound(bytes: Seq<u8>, cmd: ControlCommand)
    requires
        spec_decode_command(bytes) == Some(cmd),
    ensures
        spec_encode_command(cmd) == bytes,
{
    if bytes.len() >= 1 && bytes[0] == 0x05 && bytes.len() == 3 {
        lemma_le_split_round_trip(bytes[1], bytes[2]);
        assert(spec_encode_command(cmd) =~= bytes);
    } else if bytes.len() >= 1 && bytes[0] == 0x14 && bytes.len() == 3 {
        lemma_le_split_round_trip(bytes[1], bytes[2]);
        assert(spec_encode_command(cmd) =~= bytes);
    } else {
        assert(spec_encode_command(cmd) =~= bytes);
    }
}

/// Spec decoding of a control-point acknowledgment: the response tag byte,
/// the echoed operation byte, and a result byte. Any other shape is not an
/// acknowledgment.
pub open spec fn spec_decode_ack(bytes: Seq<u8>) -> Option<(u8, u8)> {
    if bytes.len() == 3 && bytes[0] == spec_op_code_byte(FTMSControlOpCode::Success) {
        Some((bytes[1], bytes[2]))
    } else {
        None
    }
}

/// Decode a control-point acknowledgment into the echoed operation byte and
/// the result byte; `None` marks a payload that is no acknowledgment.
pub fn decode_ack(bytes: &Vec<u8>) -> (r: Option<(u8, u8)>)
    ensures
        r == spec_decode_ack(bytes@),
{
    if bytes.len() == 3 && bytes[0] == 0x80 {
        Some((bytes[1], bytes[2]))
    } else {
        None
    }
}

/// Reassembling a little-endian byte pair and splitting it again gives the
/// same two bytes back.
pub proof fn lemma_le_split_round_trip(lo: u8, hi: u8)
    ensures
        spec_le_lo(spec_le_val(lo, hi)) == lo,
        spec_le_hi(spec_le_val(lo, hi)) == hi,
{
    let v: i16 = spec_le_val(lo, hi);
    assert(((v as u16) % 256) as u8 == lo && ((v as u16) / 256) as u8 == hi) by (bit_vector)
        requires
            v == ((lo as u16) + (hi as u16) * 256) as i16,
    ;
}

} // verus!
