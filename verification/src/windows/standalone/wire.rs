//! The control protocol between the embedding application and its helper.
//!
//! A frame is the length of its payload, in four bytes with the lowest one first, and
//! the payload.

use crate::native::{NativeString, NativeText};
use crate::text::{concat2, concat3, decimal_string};
use crate::utf16::{decode_utf16, encode_utf16};
use crate::windows::failure::{Failure, FailureModel};
use crate::windows::standalone::command::validate_native_os_str;
use crate::windows::standalone::outcome::{WindowsSandboxStandaloneOutcome, WindowsSandboxStandaloneRootOutcome};
use vstd::prelude::*;
use vstd::string::*;

verus! {

pub const MAX_FRAME_BYTES: usize = 1_048_576;

pub const STANDALONE_WIRE_VERSION: u32 = 1;

/// How the target's token is restricted.
#[derive(Clone, Copy, Debug, PartialEq, Eq, Structural)]
pub enum WireTokenMode {
    ReadOnly,
    WritableRoots,
}

/// A native Windows value on the wire: its UTF-16 units, well-formed or not.
#[derive(Clone, Debug)]
pub struct WireNativeString(pub Vec<u16>);

impl DeepView for WireNativeString {
    type V = Seq<u16>;

    open spec fn deep_view(&self) -> Seq<u16> {
        self.0@
    }
}

impl View for WireNativeString {
    type V = Seq<u16>;

    open spec fn view(&self) -> Seq<u16> {
        self.deep_view()
    }
}

/// The units of a Windows value. Windows has no value in bytes.
pub open spec fn wide_units(value: NativeText) -> Seq<u16> {
    match value {
        NativeText::Unicode(text) => crate::utf16::encoded(text),
        NativeText::Wide(units) => units,
        NativeText::Bytes(_) => Seq::empty(),
    }
}

/// Whether a value is one of Windows: text where its units are well-formed, and units
/// only where they are not.
pub open spec fn is_windows_value(value: NativeText) -> bool {
    match value {
        NativeText::Unicode(_) => true,
        NativeText::Wide(units) => crate::utf16::decoded(units) is None,
        NativeText::Bytes(_) => false,
    }
}

/// The Windows value with these units.
pub open spec fn windows_value(units: Seq<u16>) -> NativeText {
    match crate::utf16::decoded(units) {
        Some(text) => NativeText::Unicode(text),
        None => NativeText::Wide(units),
    }
}

/// What a unit sequence on the wire decodes to.
pub open spec fn received_value(units: Seq<u16>) -> Result<NativeText, FailureModel> {
    if units.contains(0u16) {
        Err(FailureModel::plain("standalone helper received a native value containing NUL"@))
    } else {
        Ok(windows_value(units))
    }
}

fn has_zero(units: &Vec<u16>) -> (result: bool)
    ensures
        result == units@.contains(0u16),
{
    for index in 0..units.len()
        invariant
            forall|i: int| 0 <= i < index ==> units@[i] != 0,
    {
        if units[index] == 0 {
            assert(units@[index as int] == 0u16);
            return true;
        }
    }
    false
}

impl WireNativeString {
    /// A native value for the wire.
    pub fn from_os_str(value: &NativeString) -> (result: Result<Self, Failure>)
        requires
            !(value@ is Bytes),
        ensures
            if value@.has_nul() {
                result matches Err(failure) && failure@
                    == crate::windows::standalone::command::nul_failure("native Windows value"@)
            } else {
                result matches Ok(wire) && wire@ == wide_units(value@)
            },
    {
        validate_native_os_str(value, "native Windows value")?;
        match value {
            NativeString::Unicode(text) => Ok(WireNativeString(encode_utf16(text.as_str()))),
            NativeString::Wide(units) => {
                let copy = units.clone();
                assert(copy@ =~= units@);
                Ok(WireNativeString(copy))
            },
            NativeString::Bytes(_) => Ok(WireNativeString(Vec::new())),
        }
    }

    /// The native value from the wire.
    pub fn into_os_string(self) -> (result: Result<NativeString, Failure>)
        ensures
            match received_value(self@) {
                Ok(value) => result matches Ok(native) && native@ == value,
                Err(expected) => result matches Err(failure) && failure@ == expected,
            },
    {
        if has_zero(&self.0) {
            return Err(Failure::new("standalone helper received a native value containing NUL"));
        }
        match decode_utf16(&self.0) {
            Some(text) => Ok(NativeString::Unicode(text)),
            None => Ok(NativeString::Wide(self.0)),
        }
    }
}

/// A standard stream on the wire: a handle of the receiver, or the null device.
#[derive(Clone, Copy, Debug, PartialEq, Eq, Structural)]
pub enum WireStream {
    Handle(u64),
    Null,
}

/// The request that starts the target.
#[derive(Debug)]
pub struct WireSpawnRequest {
    pub program: WireNativeString,
    pub args: Vec<WireNativeString>,
    pub environment: Vec<(WireNativeString, WireNativeString)>,
    pub cwd: WireNativeString,
    pub state_dir: WireNativeString,
    pub token_mode: WireTokenMode,
    pub capability_sids: Vec<String>,
    pub network_proxy_restricting_sid: Option<String>,
    /// The account of the embedding application, which alone may open the helper.
    pub runner_sid: String,
    pub stdin: WireStream,
    pub stdout: WireStream,
    pub stderr: WireStream,
    pub use_private_desktop: bool,
    pub descendant_grace_ms: u64,
    pub force_stop_timeout_ms: u64,
}

/// What a [`WireSpawnRequest`] holds.
pub struct SpawnModel {
    pub program: Seq<u16>,
    pub args: Seq<Seq<u16>>,
    pub environment: Seq<(Seq<u16>, Seq<u16>)>,
    pub cwd: Seq<u16>,
    pub state_dir: Seq<u16>,
    pub token_mode: WireTokenMode,
    pub capability_sids: Seq<Seq<char>>,
    pub network_proxy_restricting_sid: Option<Seq<char>>,
    pub runner_sid: Seq<char>,
    pub stdin: WireStream,
    pub stdout: WireStream,
    pub stderr: WireStream,
    pub use_private_desktop: bool,
    pub descendant_grace_ms: u64,
    pub force_stop_timeout_ms: u64,
}

impl DeepView for WireSpawnRequest {
    type V = SpawnModel;

    open spec fn deep_view(&self) -> SpawnModel {
        SpawnModel {
            program: self.program@,
            args: self.args.deep_view(),
            environment: self.environment.deep_view(),
            cwd: self.cwd@,
            state_dir: self.state_dir@,
            token_mode: self.token_mode,
            capability_sids: self.capability_sids.deep_view(),
            network_proxy_restricting_sid: self.network_proxy_restricting_sid.deep_view(),
            runner_sid: self.runner_sid@,
            stdin: self.stdin,
            stdout: self.stdout,
            stderr: self.stderr,
            use_private_desktop: self.use_private_desktop,
            descendant_grace_ms: self.descendant_grace_ms,
            force_stop_timeout_ms: self.force_stop_timeout_ms,
        }
    }
}

impl View for WireSpawnRequest {
    type V = SpawnModel;

    open spec fn view(&self) -> SpawnModel {
        self.deep_view()
    }
}

/// What the embedding application says to its helper.
#[derive(Debug)]
pub enum ParentMessage {
    Spawn(Box<WireSpawnRequest>),
    CommitLaunch,
    ForceTerminate { force_stop_timeout_ms: u64 },
}

/// What the helper says to the embedding application.
#[derive(Debug)]
pub enum HelperMessage {
    Ready { process_id: u32 },
    Committed,
    RootExited(WindowsSandboxStandaloneRootOutcome),
    Final(WindowsSandboxStandaloneOutcome),
    Error { stage: String, message: String, windows_error_code: Option<u32> },
}

/// The four bytes of a length, the lowest one first.
pub open spec fn length_bytes(length: nat) -> Seq<u8> {
    seq![
        (length % 256) as u8,
        (length / 0x100 % 256) as u8,
        (length / 0x1_0000 % 256) as u8,
        (length / 0x100_0000 % 256) as u8,
    ]
}

/// The length that four bytes spell.
pub open spec fn length_value(bytes: Seq<u8>) -> nat {
    (bytes[0] + 0x100 * bytes[1] + 0x1_0000 * bytes[2] + 0x100_0000 * bytes[3]) as nat
}

/// The bytes of a frame.
pub open spec fn frame_bytes(payload: Seq<u8>) -> Seq<u8> {
    length_bytes(payload.len()) + payload
}

/// The bytes of the frame with a payload.
pub fn write_wire_frame(payload: &Vec<u8>) -> (result: Result<Vec<u8>, Failure>)
    ensures
        if payload.len() > MAX_FRAME_BYTES {
            result matches Err(failure) && failure@ == FailureModel::plain(
                "standalone Windows helper frame exceeds 1048576 bytes"@,
            )
        } else {
            result matches Ok(bytes) && bytes@ == frame_bytes(payload@)
        },
{
    if payload.len() > MAX_FRAME_BYTES {
        return Err(Failure::new("standalone Windows helper frame exceeds 1048576 bytes"));
    }
    let length: usize = payload.len();
    let mut bytes: Vec<u8> = Vec::new();
    bytes.push((length % 256) as u8);
    bytes.push((length / 0x100 % 256) as u8);
    bytes.push((length / 0x1_0000 % 256) as u8);
    bytes.push((length / 0x100_0000 % 256) as u8);
    assert(bytes@ =~= length_bytes(payload@.len()));
    for index in 0..payload.len()
        invariant
            bytes@ == length_bytes(payload@.len()) + payload@.take(index as int),
    {
        bytes.push(payload[index]);
        assert(bytes@ =~= length_bytes(payload@.len()) + payload@.take(index + 1));
    }
    assert(payload@.take(payload.len() as int) =~= payload@);
    Ok(bytes)
}

/// What to do next with the bytes of a frame that were received so far.
#[derive(Debug)]
pub enum FrameRead {
    /// Read the first byte. Where there is none, the channel was closed.
    First,
    /// Read so many more bytes. Where there are fewer, the frame is truncated.
    More(usize),
    /// The frame is complete; this is its payload.
    Payload(Vec<u8>),
    /// The frame is not accepted.
    Refused(Failure),
}

/// What a [`FrameRead`] holds.
pub enum FrameReadModel {
    First,
    More(nat),
    Payload(Seq<u8>),
    Refused(FailureModel),
}

impl DeepView for FrameRead {
    type V = FrameReadModel;

    open spec fn deep_view(&self) -> FrameReadModel {
        match self {
            FrameRead::First => FrameReadModel::First,
            FrameRead::More(count) => FrameReadModel::More(*count as nat),
            FrameRead::Payload(payload) => FrameReadModel::Payload(payload@),
            FrameRead::Refused(failure) => FrameReadModel::Refused(failure@),
        }
    }
}

/// What to do next with the bytes of a frame that were received so far.
pub open spec fn frame_progress(received: Seq<u8>) -> FrameReadModel {
    if received.len() == 0 {
        FrameReadModel::First
    } else if received.len() < 4 {
        FrameReadModel::More((4 - received.len()) as nat)
    } else {
        let length = length_value(received);
        if length > MAX_FRAME_BYTES {
            FrameReadModel::Refused(
                FailureModel::plain(
                    "standalone Windows helper frame length "@ + crate::text::decimal(length) + " exceeds 1048576"@,
                ),
            )
        } else if received.len() < 4 + length {
            FrameReadModel::More((4 + length - received.len()) as nat)
        } else {
            FrameReadModel::Payload(received.subrange(4, (4 + length) as int))
        }
    }
}

/// Decides what to do next with the bytes of a frame that were received so far.
pub fn read_wire_frame(received: &Vec<u8>) -> (result: FrameRead)
    ensures
        result.deep_view() == frame_progress(received@),
{
    if received.len() == 0 {
        return FrameRead::First;
    }
    if received.len() < 4 {
        return FrameRead::More(4 - received.len());
    }
    let length: u64 = received[0] as u64 + 0x100 * (received[1] as u64) + 0x1_0000 * (received[2] as u64) + 0x100_0000 * (
    received[3] as u64);
    if length > 1_048_576 {
        let digits = decimal_string(length);
        let message = concat3("standalone Windows helper frame length ", digits.as_str(), " exceeds 1048576");
        return FrameRead::Refused(Failure::new(message.as_str()));
    }
    let count: usize = length as usize;
    if received.len() < 4 + count {
        return FrameRead::More(4 + count - received.len());
    }
    let mut payload: Vec<u8> = Vec::new();
    for index in 0..count
        invariant
            4 + count <= received.len(),
            payload@ == received@.subrange(4, 4 + index),
    {
        payload.push(received[4 + index]);
        assert(payload@ =~= received@.subrange(4, 4 + index + 1));
    }
    FrameRead::Payload(payload)
}

/// The failure of a read inside a frame.
pub open spec fn interrupted_frame(received: nat, error: Seq<char>) -> FailureModel {
    if received == 0 {
        FailureModel::plain(error)
    } else if received < 4 {
        FailureModel::plain(error).within("truncated standalone Windows frame length"@)
    } else {
        FailureModel::plain(error).within("truncated standalone Windows frame payload"@)
    }
}

/// The failure of a read, by how many bytes of the frame were received before it.
pub fn frame_read_failure(received: usize, error: &str) -> (result: Failure)
    ensures
        result@ == interrupted_frame(received as nat, error@),
{
    let failure = Failure::new(error);
    if received == 0 {
        failure
    } else if received < 4 {
        failure.within("truncated standalone Windows frame length")
    } else {
        failure.within("truncated standalone Windows frame payload")
    }
}

/// The failure of a payload that is no message.
pub fn malformed_frame(error: &str) -> (result: Failure)
    ensures
        result@ == FailureModel::plain(error@).within("malformed standalone Windows helper JSON"@),
{
    Failure::new(error).within("malformed standalone Windows helper JSON")
}

/// Checks the protocol version of a frame.
pub fn require_wire_version(version: u32) -> (result: Result<(), Failure>)
    ensures
        if version == STANDALONE_WIRE_VERSION {
            result is Ok
        } else {
            result matches Err(failure) && failure@ == FailureModel::plain(
                "unsupported standalone Windows helper protocol version "@ + crate::text::decimal(version as nat),
            )
        },
{
    if version != STANDALONE_WIRE_VERSION {
        let digits = decimal_string(version as u64);
        let message = concat2("unsupported standalone Windows helper protocol version ", digits.as_str());
        return Err(Failure::new(message.as_str()));
    }
    Ok(())
}

proof fn lemma_length_round_trip(length: nat, rest: Seq<u8>)
    requires
        length <= MAX_FRAME_BYTES,
    ensures
        length_value(length_bytes(length) + rest) == length,
{
    let bytes = length_bytes(length) + rest;
    assert(bytes[0] == (length % 256) as u8);
    assert(bytes[1] == (length / 0x100 % 256) as u8);
    assert(bytes[2] == (length / 0x1_0000 % 256) as u8);
    assert(bytes[3] == (length / 0x100_0000 % 256) as u8);
}

/// Reading the bytes of a frame gives back its payload, whatever follows it.
pub proof fn reading_undoes_writing(payload: Seq<u8>, rest: Seq<u8>)
    requires
        payload.len() <= MAX_FRAME_BYTES,
    ensures
        frame_progress(frame_bytes(payload) + rest) == FrameReadModel::Payload(payload),
{
    let received = frame_bytes(payload) + rest;
    assert(received =~= length_bytes(payload.len()) + (payload + rest));
    lemma_length_round_trip(payload.len(), payload + rest);
    assert(received.subrange(4, (4 + payload.len()) as int) =~= payload);
}

/// A reader never takes more than one frame: at every point inside a frame it asks for
/// bytes of that frame only, and not for the clean end of the channel.
pub proof fn reading_stays_within_the_frame(payload: Seq<u8>, received: int)
    requires
        payload.len() <= MAX_FRAME_BYTES,
        0 < received < frame_bytes(payload).len(),
    ensures
        frame_progress(frame_bytes(payload).take(received)) matches FrameReadModel::More(count) && 0 < count
            && received + count <= frame_bytes(payload).len(),
        received >= 4 ==> frame_progress(frame_bytes(payload).take(received)) == FrameReadModel::More(
            (frame_bytes(payload).len() - received) as nat,
        ),
{
    if received >= 4 {
        let taken = frame_bytes(payload).take(received);
        assert(taken =~= length_bytes(payload.len()) + payload.take(received - 4));
        lemma_length_round_trip(payload.len(), payload.take(received - 4));
    }
}

proof fn lemma_units_hold_no_nul(text: Seq<char>)
    ensures
        crate::utf16::encoded(text).contains(0u16) == text.contains('\0'),
    decreases text.len(),
{
    if text.len() > 0 {
        let init = text.drop_last();
        lemma_units_hold_no_nul(init);
        let lead = crate::utf16::encoded(init);
        let last = crate::utf16::units_of(text.last());
        let units = crate::utf16::encoded(text);
        assert(units =~= lead + last);
        vstd::utf8::char_u32_cast(text.last(), text.last() as u32);
        assert(last.contains(0u16) == (text.last() == '\0')) by {
            if text.last() == '\0' {
                assert(last[0] == 0u16);
            }
        }
        if units.contains(0u16) {
            let place = choose|place: int| 0 <= place < units.len() && units[place] == 0u16;
            if place < lead.len() {
                assert(lead[place] == 0u16);
                let found = choose|found: int| 0 <= found < init.len() && init[found] == '\0';
                assert(text[found] == '\0');
            } else {
                assert(last[place - lead.len()] == 0u16);
                assert(text[text.len() - 1] == '\0');
            }
        }
        if text.contains('\0') {
            let found = choose|found: int| 0 <= found < text.len() && text[found] == '\0';
            if found < init.len() {
                assert(init[found] == '\0');
                let place = choose|place: int| 0 <= place < lead.len() && lead[place] == 0u16;
                assert(units[place] == 0u16);
            } else {
                let place = choose|place: int| 0 <= place < last.len() && last[place] == 0u16;
                assert(units[lead.len() + place] == 0u16);
            }
        }
    }
}

/// A native value without a NUL, unpaired surrogates and all, comes off the wire as it
/// was put on it.
pub proof fn native_values_survive_the_wire(value: NativeText)
    requires
        is_windows_value(value),
        !value.has_nul(),
    ensures
        received_value(wide_units(value)) == Ok::<NativeText, FailureModel>(value),
{
    match value {
        NativeText::Unicode(text) => {
            lemma_units_hold_no_nul(text);
            crate::utf16::decoding_undoes_encoding(text);
        },
        _ => {},
    }
}

/// What one read from a channel gives.
pub enum StreamRead {
    /// The channel was closed before another frame.
    Closed,
    /// The payload of a frame.
    Frame(Seq<u8>),
    /// The channel ended inside a frame, after so many bytes of it.
    Truncated(nat),
    Refused(FailureModel),
}

/// What a read gives that received so many bytes of a frame from a channel, and what it
/// leaves there.
pub open spec fn read_from(stream: Seq<u8>, received: nat) -> (StreamRead, Seq<u8>)
    decreases stream.len() - received,
{
    if received > stream.len() {
        (StreamRead::Truncated(received), Seq::empty())
    } else {
        match frame_progress(stream.take(received as int)) {
            FrameReadModel::First => if stream.len() == 0 {
                (StreamRead::Closed, stream)
            } else {
                read_from(stream, 1)
            },
            FrameReadModel::More(count) => if received + count > stream.len() {
                (StreamRead::Truncated(received), Seq::empty())
            } else {
                read_from(stream, received + count)
            },
            FrameReadModel::Payload(payload) => (StreamRead::Frame(payload), stream.skip(received as int)),
            FrameReadModel::Refused(failure) => (StreamRead::Refused(failure), stream.skip(received as int)),
        }
    }
}

/// The frames of some payloads, one after the other.
pub open spec fn stream_of(payloads: Seq<Seq<u8>>) -> Seq<u8>
    decreases payloads.len(),
{
    if payloads.len() == 0 {
        Seq::empty()
    } else {
        frame_bytes(payloads[0]) + stream_of(payloads.skip(1))
    }
}

/// What successive reads from a channel give.
pub open spec fn successive_reads(stream: Seq<u8>, count: nat) -> Seq<StreamRead>
    decreases count,
{
    if count == 0 {
        Seq::empty()
    } else {
        let (first, rest) = read_from(stream, 0);
        seq![first] + successive_reads(rest, (count - 1) as nat)
    }
}

proof fn lemma_read_frame(payload: Seq<u8>, rest: Seq<u8>)
    requires
        payload.len() <= MAX_FRAME_BYTES,
    ensures
        read_from(frame_bytes(payload) + rest, 0) == (StreamRead::Frame(payload), rest),
{
    let frame = frame_bytes(payload);
    let stream = frame + rest;
    reveal_with_fuel(read_from, 4);
    assert(stream.take(0).len() == 0);
    assert(stream.take(1) =~= frame.take(1));
    assert(frame_progress(stream.take(1)) == FrameReadModel::More(3));
    assert(stream.take(4) =~= frame.take(4));
    assert(stream.take(frame.len() as int) =~= frame);
    assert(frame + Seq::<u8>::empty() =~= frame);
    reading_undoes_writing(payload, Seq::empty());
    assert(stream.skip(frame.len() as int) =~= rest);
    if payload.len() > 0 {
        reading_stays_within_the_frame(payload, 4);
        assert(frame_progress(stream.take(4)) == FrameReadModel::More((frame.len() - 4) as nat));
    } else {
        assert(frame.len() == 4);
    }
}

/// A stream of frames reads back whole: as many reads as there are frames give their
/// payloads in order, and the next one finds the channel closed.
pub proof fn streams_read_back_whole(payloads: Seq<Seq<u8>>)
    requires
        forall|index: int|
            0 <= index < payloads.len() ==> (#[trigger] payloads[index]).len() <= MAX_FRAME_BYTES,
    ensures
        successive_reads(stream_of(payloads), payloads.len() + 1) == payloads.map_values(
            |payload: Seq<u8>| StreamRead::Frame(payload),
        ).push(StreamRead::Closed),
    decreases payloads.len(),
{
    let expected = payloads.map_values(|payload: Seq<u8>| StreamRead::Frame(payload)).push(StreamRead::Closed);
    if payloads.len() == 0 {
        let none = Seq::<u8>::empty();
        assert(none.take(0) =~= none);
        assert(read_from(none, 0) == (StreamRead::Closed, none));
        assert(successive_reads(none, 0) =~= Seq::<StreamRead>::empty());
        assert(successive_reads(none, 1) =~= expected);
    } else {
        let rest = payloads.skip(1);
        assert forall|index: int| 0 <= index < rest.len() implies (#[trigger] rest[index]).len() <= MAX_FRAME_BYTES by {
            assert(rest[index] == payloads[index + 1]);
        }
        streams_read_back_whole(rest);
        lemma_read_frame(payloads[0], stream_of(rest));
        assert(successive_reads(stream_of(payloads), payloads.len() + 1) =~= expected);
    }
}

/// A frame that the channel cuts short anywhere is reported as truncated, and not as the
/// clean end of the channel.
pub proof fn cut_frames_are_truncated(payload: Seq<u8>, cut: int)
    requires
        payload.len() <= MAX_FRAME_BYTES,
        0 < cut < frame_bytes(payload).len(),
    ensures
        read_from(frame_bytes(payload).take(cut), 0).0 is Truncated,
{
    let frame = frame_bytes(payload);
    let stream = frame.take(cut);
    reveal_with_fuel(read_from, 4);
    assert(stream.take(0).len() == 0);
    assert(stream.take(1) =~= frame.take(1));
    assert(frame_progress(stream.take(1)) == FrameReadModel::More(3));
    if cut >= 4 {
        assert(stream.take(4) =~= frame.take(4));
        reading_stays_within_the_frame(payload, 4);
    }
}

/// A length beyond the limit is refused as soon as it was read, whatever follows it.
pub proof fn long_frames_are_refused(stream: Seq<u8>)
    requires
        stream.len() >= 4,
        length_value(stream) > MAX_FRAME_BYTES,
    ensures
        read_from(stream, 0) == (
            StreamRead::Refused(
                FailureModel::plain(
                    "standalone Windows helper frame length "@ + crate::text::decimal(length_value(stream))
                        + " exceeds 1048576"@,
                ),
            ),
            stream.skip(4),
        ),
{
    reveal_with_fuel(read_from, 4);
    assert(stream.take(0).len() == 0);
    assert(frame_progress(stream.take(1)) == FrameReadModel::More(3));
    assert(length_value(stream.take(4)) == length_value(stream));
}

/// A length is spelled in four bytes of which the first weighs least, and the bytes spell
/// it back.
pub proof fn lengths_are_spelled_lowest_byte_first(length: nat, bytes: Seq<u8>)
    requires
        length < 0x1_0000_0000,
        bytes.len() >= 4,
    ensures
        length_bytes(length).len() == 4,
        length == length_bytes(length)[0] + 0x100 * length_bytes(length)[1] + 0x1_0000 * length_bytes(length)[2]
            + 0x100_0000 * length_bytes(length)[3],
        length_value(bytes) == bytes[0] + 0x100 * bytes[1] + 0x1_0000 * bytes[2] + 0x100_0000 * bytes[3],
{
}

/// A frame is its length and its payload, and is accepted up to one mebibyte of payload.
pub proof fn frames_hold_their_payload(payload: Seq<u8>, received: Seq<u8>)
    requires
        payload.len() < 0x1_0000_0000,
    ensures
        frame_bytes(payload).len() == 4 + payload.len(),
        frame_bytes(payload).skip(4) == payload,
        length_value(frame_bytes(payload)) == payload.len(),
        frame_progress(received) is First <==> received.len() == 0,
        frame_progress(received) is Refused <==> received.len() >= 4 && length_value(received) > 0x10_0000,
        frame_progress(received) matches FrameReadModel::Payload(read) ==> received.len() >= 4 + read.len()
            && read.len() == length_value(received) && read == received.subrange(4, (4 + read.len()) as int),
        0 < received.len() < 4 ==> frame_progress(received) == FrameReadModel::More((4 - received.len()) as nat),
{
    assert(frame_bytes(payload).skip(4) =~= payload);
    lengths_are_spelled_lowest_byte_first(payload.len(), frame_bytes(payload));
    let spelled = length_bytes(payload.len());
    assert(frame_bytes(payload)[0] == spelled[0] && frame_bytes(payload)[1] == spelled[1]);
    assert(frame_bytes(payload)[2] == spelled[2] && frame_bytes(payload)[3] == spelled[3]);
}

/// A value is taken off the wire exactly where it holds no NUL, as text where its units
/// are well-formed and as its own units where they are not.
pub proof fn values_come_off_the_wire_without_nul(units: Seq<u16>, text: Seq<char>)
    ensures
        received_value(units) is Ok <==> !units.contains(0u16),
        received_value(units) matches Ok(value) ==> is_windows_value(value) && wide_units(value) == units,
        wide_units(NativeText::Unicode(text)) == crate::utf16::encoded(text),
        wide_units(NativeText::Wide(units)) == units,
{
    if crate::utf16::decoded(units) is Some {
        crate::utf16::encoding_undoes_decoding(units);
    }
}

/// A read that fails inside a frame says that the frame is truncated, in its length or in
/// its payload; one that fails before any byte says only why.
pub proof fn interrupted_frames_are_told_apart(received: nat, error: Seq<char>)
    ensures
        received == 0 ==> interrupted_frame(received, error) == FailureModel::plain(error),
        0 < received < 4 ==> interrupted_frame(received, error).message
            == "truncated standalone Windows frame length"@,
        received >= 4 ==> interrupted_frame(received, error).message == "truncated standalone Windows frame payload"@,
        received > 0 ==> interrupted_frame(received, error).cause == Some(error),
{
}

} // verus!
