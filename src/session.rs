//! A session: exclusive ownership of one engine instance, and the interpretation
//! of what that instance reports.
use vstd::prelude::*;
use vstd::utf8::{encode_utf8, valid_utf8};

use crate::constants::{MAX_INSTANCES, MAX_LENGTH_VARIABLE};
use crate::error::Error;
use crate::params::{is_fixed_length, parameters_valid, Parameters};
use crate::protocols::{COUNT, ProtocolId};
use crate::text::utf8_text;

verus! {

/// Whether a handle lies in the range the engine hands out.
pub fn is_valid_instance(instance: i32) -> (r: bool)
    ensures
        r == (0 < instance <= MAX_INSTANCES),
{
    instance > 0 && instance <= MAX_INSTANCES
}

/// The largest payload, in bytes, that a session with parameters `p` can send:
/// the fixed length under fixed-length framing, 140 bytes otherwise.
pub open spec fn max_text_len(p: Parameters) -> nat {
    if is_fixed_length(p) {
        p.payload_length as nat
    } else {
        MAX_LENGTH_VARIABLE as nat
    }
}

/// Whether `r` is the text outcome for payload bytes `payload`: the text they
/// encode when they are valid UTF-8, a UTF-8 error otherwise.
pub open spec fn text_outcome(payload: Seq<u8>, r: Result<String, Error>) -> bool {
    if valid_utf8(payload) {
        r matches Ok(s) && encode_utf8(s@) == payload
    } else {
        r matches Err(Error::Utf8Error(_))
    }
}

/// The side of the engine a protocol toggle applies to.
#[derive(Debug, Clone, Copy, PartialEq, Eq, Structural)]
pub enum Direction {
    Rx,
    Tx,
}

/// An instruction to enable or disable a protocol for reception or transmission.
///
/// Toggling is process-wide in the engine: it changes the behaviour of every
/// session, not only the one that issued it.
#[derive(Debug, Clone, Copy, PartialEq, Eq, Structural)]
pub struct ProtocolToggle {
    pub direction: Direction,
    pub protocol_id: ProtocolId,
    /// 1 to enable, 0 to disable, as the engine takes it.
    pub enabled: i32,
}

/// The toggle for a protocol, a side of the engine and a wanted state.
pub open spec fn toggle_of(direction: Direction, protocol_id: ProtocolId, enabled: bool) -> ProtocolToggle {
    ProtocolToggle { direction, protocol_id, enabled: if enabled { 1 } else { 0 } }
}

fn make_toggle(direction: Direction, protocol_id: ProtocolId, enabled: bool) -> (r: ProtocolToggle)
    ensures
        r == toggle_of(direction, protocol_id, enabled),
{
    ProtocolToggle { direction, protocol_id, enabled: if enabled { 1 } else { 0 } }
}

/// The toggles that enable or disable each protocol of `protocol_ids`, in order,
/// for reception when `is_rx` holds and for transmission otherwise.
pub fn toggle_protocols(protocol_ids: &[ProtocolId], enabled: bool, is_rx: bool) -> (r: Vec<
    ProtocolToggle,
>)
    ensures
        r@.len() == protocol_ids@.len(),
        forall|i: int|
            0 <= i < r@.len() ==> #[trigger] r@[i] == toggle_of(
                if is_rx { Direction::Rx } else { Direction::Tx },
                protocol_ids@[i],
                enabled,
            ),
{
    let direction = if is_rx { Direction::Rx } else { Direction::Tx };
    let mut r: Vec<ProtocolToggle> = Vec::new();
    let mut i: usize = 0;
    while i < protocol_ids.len()
        invariant
            i <= protocol_ids@.len(),
            r@.len() == i,
            forall|j: int|
                0 <= j < i ==> #[trigger] r@[j] == toggle_of(direction, protocol_ids@[j], enabled),
        decreases protocol_ids@.len() - i,
    {
        r.push(make_toggle(direction, protocol_ids[i], enabled));
        i = i + 1;
    }
    r
}

/// Exclusive owner of one engine instance.
///
/// A session is never copied. Its handle goes back to the engine exactly once,
/// through `release`, which consumes the session.
pub struct GGWave {
    instance: i32,
    params: Parameters,
}

impl GGWave {
    #[verifier::type_invariant]
    spec fn inv(self) -> bool {
        self.instance >= 0 && parameters_valid(self.params)
    }

    /// The engine handle this session owns.
    pub closed spec fn handle(self) -> i32 {
        self.instance
    }

    /// The parameters the instance was created with.
    pub closed spec fn config(self) -> Parameters {
        self.params
    }

    /// The session for the engine's answer `code` to a creation request with
    /// parameters `params`, which `check_parameters` accepted: a negative code means
    /// the engine could not create an instance.
    pub fn from_init_result(code: i32, params: Parameters) -> (r: Result<GGWave, Error>)
        requires
            parameters_valid(params),
        ensures
            r is Ok <==> code >= 0,
            r matches Ok(g) ==> g.handle() == code && g.config() == params,
            r is Err ==> r matches Err(Error::InitializationFailed),
    {
        if code < 0 {
            Err(Error::InitializationFailed)
        } else {
            Ok(GGWave { instance: code, params })
        }
    }

    /// Takes ownership of an existing handle, created with `params`.
    pub fn from_raw_instance(instance: i32, params: Parameters) -> (r: GGWave)
        requires
            instance >= 0,
            parameters_valid(params),
        ensures
            r.handle() == instance,
            r.config() == params,
    {
        GGWave { instance, params }
    }

    /// The engine handle, for direct use of the engine.
    pub fn raw_instance(&self) -> (r: i32)
        ensures
            r == self.handle(),
            r >= 0,
    {
        proof {
            use_type_invariant(self);
        }
        self.instance
    }

    /// The parameters the instance was created with.
    pub fn parameters(&self) -> (r: Parameters)
        ensures
            r == self.config(),
            parameters_valid(r),
    {
        proof {
            use_type_invariant(self);
        }
        self.params
    }

    /// Ends the session and hands back its handle, which must then be freed in the
    /// engine. Consuming the session makes a second release impossible.
    pub fn release(self) -> (r: i32)
        ensures
            r == self.handle(),
    {
        self.instance
    }

    /// The format of the samples this session produces.
    pub fn get_output_sample_format(&self) -> (r: u32)
        ensures
            r == self.config().sample_format_out,
    {
        self.params.sample_format_out
    }

    /// Whether this session uses fixed-length framing.
    pub fn is_fixed_length(&self) -> (r: bool)
        ensures
            r == is_fixed_length(self.config()),
    {
        self.params.payload_length > 0
    }

    /// The largest text, in bytes, that this session can encode.
    pub fn max_text_length(&self) -> (r: usize)
        ensures
            r == max_text_len(self.config()),
    {
        proof {
            use_type_invariant(self);
        }
        if self.params.payload_length > 0 {
            self.params.payload_length as usize
        } else {
            MAX_LENGTH_VARIABLE
        }
    }

    /// The payload of a bounded decode, from the output buffer the engine filled
    /// and the code it returned; a negative code is the engine's fault code.
    pub fn decode_binary(&self, output: &[u8], code: i32) -> (r: Result<Vec<u8>, Error>)
        requires
            code <= output@.len(),
        ensures
            code < 0 ==> r == Err::<Vec<u8>, Error>(Error::DecodeFailed(code)),
            code >= 0 ==> (r matches Ok(v) && v@ == output@.take(code as int)),
    {
        if code < 0 {
            return Err(Error::DecodeFailed(code));
        }
        let n = code as usize;
        let mut v: Vec<u8> = Vec::with_capacity(n);
        let mut i: usize = 0;
        while i < n
            invariant
                n <= output@.len(),
                i <= n,
                v@ == output@.take(i as int),
            decreases n - i,
        {
            v.push(output[i]);
            i = i + 1;
            assert(v@ =~= output@.take(i as int));
        }
        Ok(v)
    }

    /// The text of a bounded decode, from the output buffer the engine filled and
    /// the code it returned. A negative code is the engine's fault code; otherwise
    /// the first `code` bytes must be UTF-8 text.
    pub fn decode_to_string(&self, output: &[u8], code: i32) -> (r: Result<String, Error>)
        requires
            code <= output@.len(),
        ensures
            code < 0 ==> (r matches Err(Error::DecodeFailed(c)) && c == code),
            code >= 0 ==> text_outcome(output@.take(code as int), r),
    {
        let payload = self.decode_binary(output, code)?;
        match utf8_text(payload.as_slice()) {
            Ok(s) => Ok(s),
            Err(e) => Err(Error::Utf8Error(e)),
        }
    }

    /// The outcome of one streaming decode step, from the output buffer and the
    /// engine's code: a negative code is a fault, zero means no complete message
    /// yet, and a positive code is the length of a message that must be UTF-8 text.
    pub fn process_audio_chunk(&self, output: &[u8], code: i32) -> (r: Result<
        Option<String>,
        Error,
    >)
        requires
            code <= output@.len(),
        ensures
            code < 0 ==> (r matches Err(Error::DecodeFailed(c)) && c == code),
            code == 0 ==> r matches Ok(None),
            code > 0 ==> {
                let payload = output@.take(code as int);
                if valid_utf8(payload) {
                    r matches Ok(Some(s)) && encode_utf8(s@) == payload
                } else {
                    r matches Err(Error::Utf8Error(_))
                }
            },
    {
        if code == 0 {
            return Ok(None);
        }
        let s = self.decode_to_string(output, code)?;
        Ok(Some(s))
    }

    /// The toggle that enables or disables reception of a protocol.
    pub fn toggle_rx_protocol(&self, protocol_id: ProtocolId, enabled: bool) -> (r: ProtocolToggle)
        ensures
            r == toggle_of(Direction::Rx, protocol_id, enabled),
    {
        make_toggle(Direction::Rx, protocol_id, enabled)
    }

    /// The toggle that enables or disables transmission of a protocol.
    pub fn toggle_tx_protocol(&self, protocol_id: ProtocolId, enabled: bool) -> (r: ProtocolToggle)
        ensures
            r == toggle_of(Direction::Tx, protocol_id, enabled),
    {
        make_toggle(Direction::Tx, protocol_id, enabled)
    }

    /// The toggles that enable reception of every protocol, in protocol order.
    pub fn enable_all_rx_protocols(&self) -> (r: Vec<ProtocolToggle>)
        ensures
            r@.len() == COUNT,
            forall|i: int|
                0 <= i < COUNT ==> #[trigger] r@[i] == toggle_of(Direction::Rx, i as ProtocolId, true),
    {
        let mut r: Vec<ProtocolToggle> = Vec::new();
        let mut id: ProtocolId = 0;
        while id < COUNT
            invariant
                id <= COUNT,
                r@.len() == id,
                forall|i: int|
                    0 <= i < id ==> #[trigger] r@[i] == toggle_of(Direction::Rx, i as ProtocolId, true),
            decreases COUNT - id,
        {
            r.push(self.toggle_rx_protocol(id, true));
            id = id + 1;
        }
        r
    }
}

} // verus!
