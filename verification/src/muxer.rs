use vstd::prelude::*;

use vstd::string::{StrSliceExecFns, StringExecFns, StringSliceAdditionalSpecFns};
use vstd::utf8::encode_utf8;

use crate::codec::{bin_of, decode_plist, encode_binary, plist_of};
use crate::pval::{
    get_str, lemma_arr_model_index, lemma_dict_model_index, lemma_ps_get_str_model, ps_get_str,
    ps_wf, pv_get_str, pv_model, str_eq, PSpec, PValue,
};
use crate::raw_packet::{
    decode_packet, encode_packet, framed_reply, packet_msg_type, packet_tag, packet_total_len,
    packet_version,
};
use crate::Errors;

verus! {

/// TCP port of the emulated multiplexer on loopback.
pub const LISTEN_PORT: u16 = 27015;

/// Device identifier the shim advertises for its single synthetic device.
pub const DEVICE_ID: i64 = 420;

/// Interface index the shim advertises.
pub const INTERFACE_INDEX: i64 = 69;

/// The 152-byte packed socket address for an IPv4 address: length 16,
/// family 2, the four octets at offsets four to seven, zeroes elsewhere.
pub open spec fn netaddr_v4_bytes(a: u8, b: u8, c: u8, d: u8) -> Seq<u8> {
    Seq::new(
        152,
        |i: int|
            if i == 0 {
                0x10u8
            } else if i == 1 {
                0x02u8
            } else if i == 4 {
                a
            } else if i == 5 {
                b
            } else if i == 6 {
                c
            } else if i == 7 {
                d
            } else {
                0u8
            },
    )
}

/// Packs an IPv4 address as the 152-byte socket-address blob of the device
/// descriptor.
pub fn encode_netaddr(a: u8, b: u8, c: u8, d: u8) -> (r: Vec<u8>)
    ensures
        r@ == netaddr_v4_bytes(a, b, c, d),
        r@.len() == 152,
        r@[0] == 0x10u8 && r@[1] == 0x02u8 && r@[2] == 0u8 && r@[3] == 0u8,
        r@[4] == a && r@[5] == b && r@[6] == c && r@[7] == d,
        forall|i: int| 8 <= i < 152 ==> r@[i] == 0u8,
{
    let mut out: Vec<u8> = Vec::new();
    out.push(0x10);
    out.push(0x02);
    out.push(0x00);
    out.push(0x00);
    out.push(a);
    out.push(b);
    out.push(c);
    out.push(d);
    while out.len() < 152
        invariant
            8 <= out@.len() <= 152,
            out@[0] == 0x10u8 && out@[1] == 0x02u8 && out@[2] == 0u8 && out@[3] == 0u8,
            out@[4] == a && out@[5] == b && out@[6] == c && out@[7] == d,
            forall|i: int| 8 <= i < out@.len() ==> out@[i] == 0u8,
        decreases 152 - out@.len(),
    {
        out.push(0x00);
    }
    proof {
        assert(out@ =~= netaddr_v4_bytes(a, b, c, d));
    }
    out
}

/// The 152-byte packed socket address for an IPv6 address: length 0x1c,
/// family 0x1e, the sixteen octets at offsets eight to twenty-three, zeroes
/// elsewhere.
pub open spec fn netaddr_v6_bytes(octets: Seq<u8>) -> Seq<u8> {
    Seq::new(
        152,
        |i: int|
            if i == 0 {
                0x1cu8
            } else if i == 1 {
                0x1eu8
            } else if 8 <= i < 24 {
                octets[i - 8]
            } else {
                0u8
            },
    )
}

/// Packs an IPv6 address as the 152-byte socket-address blob.
pub fn encode_netaddr_v6(octets: &[u8]) -> (r: Vec<u8>)
    requires
        octets@.len() == 16,
    ensures
        r@ == netaddr_v6_bytes(octets@),
        r@.len() == 152,
{
    let mut out: Vec<u8> = Vec::new();
    out.push(0x1c);
    out.push(0x1e);
    out.push(0x00);
    out.push(0x00);
    out.push(0x00);
    out.push(0x00);
    out.push(0x00);
    out.push(0x00);
    for k in 0..16
        invariant
            octets@.len() == 16,
            out@.len() == 8 + k,
            out@[0] == 0x1cu8 && out@[1] == 0x1eu8,
            forall|i: int| 2 <= i < 8 ==> out@[i] == 0u8,
            forall|i: int| 8 <= i < 8 + k ==> out@[i] == octets@[i - 8],
    {
        out.push(octets[k]);
    }
    while out.len() < 152
        invariant
            24 <= out@.len() <= 152,
            out@[0] == 0x1cu8 && out@[1] == 0x1eu8,
            forall|i: int| 2 <= i < 8 ==> out@[i] == 0u8,
            forall|i: int| 8 <= i < 24 ==> out@[i] == octets@[i - 8],
            forall|i: int| 24 <= i < out@.len() ==> out@[i] == 0u8,
        decreases 152 - out@.len(),
    {
        out.push(0x00);
    }
    proof {
        assert(out@ =~= netaddr_v6_bytes(octets@));
    }
    out
}

/// The validated pairing record: the property list supplied by the caller
/// together with the device identifier it carries.
#[derive(Debug)]
pub struct PairingRecord {
    pub plist: PValue,
    pub udid: String,
}

impl PairingRecord {
    /// The record is a dictionary whose `UDID` entry is the string `udid`,
    /// and its deep value is well formed — no dictionary inside it repeats a
    /// key — as every decoded property list is.
    pub open spec fn wf(&self) -> bool {
        &&& self.plist is Dict
        &&& pv_get_str(self.plist, "UDID"@) == Some(self.udid@)
        &&& ps_wf(pv_model(self.plist))
    }
}

/// Checks a decoded pairing file: it must be a dictionary holding the device
/// identifier `UDID` as a string; anything else is rejected.
pub fn validate_pairing(p: PValue) -> (r: Result<PairingRecord, Errors>)
    ensures
        match r {
            Ok(rec) => rec.plist == p && pv_get_str(p, "UDID"@) == Some(rec.udid@) && (ps_wf(
                pv_model(p),
            ) ==> rec.wf()),
            Err(e) => e == Errors::PairingFile && pv_get_str(p, "UDID"@) is None,
        },
{
    let is_dict = matches!(p, PValue::Dict(_));
    if !is_dict {
        return Err(Errors::PairingFile);
    }
    let udid = match get_str(&p, "UDID") {
        Some(s) => s.clone(),
        None => {
            return Err(Errors::PairingFile);
        },
    };
    Ok(PairingRecord { plist: p, udid })
}

/// Why a request could not be answered: the body is not a dictionary naming a
/// message type, or the type is one the shim does not emulate.
#[derive(Debug, Clone, Copy, PartialEq, Eq, Structural)]
pub enum HandlePacketError {
    BadPacket,
    UnknownMessageType,
}

/// The message type a request body names.
pub open spec fn msg_type_of(body: PValue) -> Option<Seq<char>> {
    pv_get_str(body, "MessageType"@)
}

/// The synthetic device descriptor, exactly: stable identifiers, the network
/// transport, the packed address of the tunnelled device, and the pairing
/// record's UDID as serial number.
pub open spec fn device_properties_model(udid: Seq<char>) -> PSpec {
    PSpec::Dict(
        seq![
            ("ConnectionType"@, PSpec::Str("Network"@)),
            ("DeviceID"@, PSpec::Int(420)),
            ("EscapedFullServiceName"@, PSpec::Str("yurmomlolllllll"@)),
            ("InterfaceIndex"@, PSpec::Int(69)),
            ("NetworkAddress"@, PSpec::Data(netaddr_v4_bytes(10, 7, 0, 1))),
            ("SerialNumber"@, PSpec::Str(udid)),
        ],
    )
}

/// One attachment announcement for the synthetic device, exactly.
pub open spec fn device_entry_model(udid: Seq<char>) -> PSpec {
    PSpec::Dict(
        seq![
            ("DeviceID"@, PSpec::Int(420)),
            ("MessageType"@, PSpec::Str("Attached"@)),
            ("Properties"@, device_properties_model(udid)),
        ],
    )
}

/// The reply to `ListDevices` and `Listen`, exactly: a device list holding one
/// entry, the synthetic device.
pub open spec fn list_devices_reply_model(udid: Seq<char>) -> PSpec {
    PSpec::Dict(seq![("DeviceList"@, PSpec::Arr(seq![device_entry_model(udid)]))])
}

/// The reply to `ReadPairRecord`, exactly: the pairing record serialised as a
/// binary property list.
pub open spec fn pair_record_reply_model(record: PSpec) -> PSpec {
    PSpec::Dict(seq![("PairRecordData"@, PSpec::Data(bin_of(record)))])
}

fn make_device_properties(udid: &String) -> (r: PValue)
    ensures
        pv_model(r) == device_properties_model(udid@),
{
    let mut entries: Vec<(String, PValue)> = Vec::new();
    entries.push(
        (String::from_str("ConnectionType"), PValue::Str(String::from_str("Network"))),
    );
    entries.push((String::from_str("DeviceID"), PValue::Int(DEVICE_ID)));
    entries.push(
        (
            String::from_str("EscapedFullServiceName"),
            PValue::Str(String::from_str("yurmomlolllllll")),
        ),
    );
    entries.push((String::from_str("InterfaceIndex"), PValue::Int(INTERFACE_INDEX)));
    entries.push((String::from_str("NetworkAddress"), PValue::Data(encode_netaddr(10, 7, 0, 1))));
    entries.push((String::from_str("SerialNumber"), PValue::Str(udid.clone())));
    let r = PValue::Dict(entries);
    proof {
        lemma_dict_model_index(entries@);
        assert(crate::pval::dict_model(entries@) =~= seq![
            ("ConnectionType"@, PSpec::Str("Network"@)),
            ("DeviceID"@, PSpec::Int(420)),
            ("EscapedFullServiceName"@, PSpec::Str("yurmomlolllllll"@)),
            ("InterfaceIndex"@, PSpec::Int(69)),
            ("NetworkAddress"@, PSpec::Data(netaddr_v4_bytes(10, 7, 0, 1))),
            ("SerialNumber"@, PSpec::Str(udid@)),
        ]);
    }
    r
}

fn make_device_entry(udid: &String) -> (r: PValue)
    ensures
        pv_model(r) == device_entry_model(udid@),
{
    let props = make_device_properties(udid);
    let mut entries: Vec<(String, PValue)> = Vec::new();
    entries.push((String::from_str("DeviceID"), PValue::Int(DEVICE_ID)));
    entries.push(
        (String::from_str("MessageType"), PValue::Str(String::from_str("Attached"))),
    );
    entries.push((String::from_str("Properties"), props));
    let r = PValue::Dict(entries);
    proof {
        lemma_dict_model_index(entries@);
        assert(crate::pval::dict_model(entries@) =~= seq![
            ("DeviceID"@, PSpec::Int(420)),
            ("MessageType"@, PSpec::Str("Attached"@)),
            ("Properties"@, device_properties_model(udid@)),
        ]);
    }
    r
}

fn make_list_devices_reply(udid: &String) -> (r: PValue)
    ensures
        pv_model(r) == list_devices_reply_model(udid@),
{
    let dev = make_device_entry(udid);
    let mut devices: Vec<PValue> = Vec::new();
    devices.push(dev);
    proof {
        lemma_arr_model_index(devices@);
        assert(crate::pval::arr_model(devices@) =~= seq![device_entry_model(udid@)]);
    }
    let mut entries: Vec<(String, PValue)> = Vec::new();
    entries.push((String::from_str("DeviceList"), PValue::Arr(devices)));
    let r = PValue::Dict(entries);
    proof {
        lemma_dict_model_index(entries@);
        assert(crate::pval::dict_model(entries@) =~= seq![
            ("DeviceList"@, PSpec::Arr(seq![device_entry_model(udid@)])),
        ]);
    }
    r
}

fn make_pair_record_reply(record: &PValue) -> (r: PValue)
    ensures
        pv_model(r) == pair_record_reply_model(pv_model(*record)),
{
    let data = encode_binary(record);
    let mut entries: Vec<(String, PValue)> = Vec::new();
    entries.push((String::from_str("PairRecordData"), PValue::Data(data)));
    let r = PValue::Dict(entries);
    proof {
        lemma_dict_model_index(entries@);
        assert(crate::pval::dict_model(entries@) =~= seq![
            ("PairRecordData"@, PSpec::Data(bin_of(pv_model(*record)))),
        ]);
    }
    r
}

/// Answers one decoded request. `ListDevices` and `Listen` get the one-device
/// list whose serial number is the pairing record's UDID; `ReadPairRecord`
/// gets the record itself, serialised; everything else is turned away.
pub fn handle_packet(body: &PValue, pairing: &PairingRecord) -> (r: Result<
    PValue,
    HandlePacketError,
>)
    requires
        pairing.wf(),
    ensures
        match r {
            Ok(reply) => {
                &&& (msg_type_of(*body) == Some("ListDevices"@) || msg_type_of(*body) == Some(
                    "Listen"@,
                ) || msg_type_of(*body) == Some("ReadPairRecord"@))
                &&& ((msg_type_of(*body) == Some("ListDevices"@) || msg_type_of(*body) == Some(
                    "Listen"@,
                )) ==> pv_model(reply) == list_devices_reply_model(pairing.udid@))
                &&& (msg_type_of(*body) == Some("ReadPairRecord"@) ==> pv_model(reply)
                    == pair_record_reply_model(pv_model(pairing.plist)))
            },
            Err(HandlePacketError::BadPacket) => msg_type_of(*body) is None,
            Err(HandlePacketError::UnknownMessageType) => (msg_type_of(*body) matches Some(t) && t
                != "ListDevices"@ && t != "Listen"@ && t != "ReadPairRecord"@),
        },
{
    let mt = match get_str(body, "MessageType") {
        Some(s) => s,
        None => {
            return Err(HandlePacketError::BadPacket);
        },
    };
    proof {
        reveal_strlit("ListDevices");
        reveal_strlit("Listen");
        reveal_strlit("ReadPairRecord");
        assert("ListDevices"@.len() == 11);
        assert("Listen"@.len() == 6);
        assert("ReadPairRecord"@.len() == 14);
    }
    if str_eq(mt.as_str(), "ListDevices") || str_eq(mt.as_str(), "Listen") {
        Ok(make_list_devices_reply(&pairing.udid))
    } else if str_eq(mt.as_str(), "ReadPairRecord") {
        Ok(make_pair_record_reply(&pairing.plist))
    } else {
        Err(HandlePacketError::UnknownMessageType)
    }
}

/// The request carries one whole packet.
pub open spec fn request_complete(req: Seq<u8>) -> bool {
    req.len() >= 16 && 16 <= packet_total_len(req) <= req.len()
}

/// The body bytes of a complete request.
pub open spec fn request_body_bytes(req: Seq<u8>) -> Seq<u8> {
    req.subrange(16, packet_total_len(req) as int)
}

/// The message type a parsed request body names.
pub open spec fn ps_msg_type(m: PSpec) -> Option<Seq<char>> {
    ps_get_str(m, "MessageType"@)
}

/// The reply owed for a parsed request body: the one-device list for
/// `ListDevices` and `Listen`, the serialised pairing record for
/// `ReadPairRecord`, and nothing for every other body.
pub open spec fn reply_model_for(m: PSpec, pairing: PairingRecord) -> Option<PSpec> {
    if ps_msg_type(m) == Some("ListDevices"@) || ps_msg_type(m) == Some("Listen"@) {
        Some(list_devices_reply_model(pairing.udid@))
    } else if ps_msg_type(m) == Some("ReadPairRecord"@) {
        Some(pair_record_reply_model(pv_model(pairing.plist)))
    } else {
        None
    }
}

/// Computes the full reply for one connection's request bytes, or nothing when
/// the connection is to be closed silently. A complete request whose body
/// parses to one of the three supported message types is owed its reply —
/// framed with version 1, message type 8, and the tag the request carried —
/// whenever that reply fits a frame; every other request is turned away.
pub fn respond(request: &[u8], pairing: &PairingRecord) -> (r: Option<Vec<u8>>)
    requires
        pairing.wf(),
    ensures
        (r matches Some(reply) ==> {
            &&& reply@.len() >= 16
            &&& packet_total_len(reply@) == reply@.len()
            &&& packet_version(reply@) == 1
            &&& packet_msg_type(reply@) == 8
            &&& packet_tag(reply@) == packet_tag(request@)
        }),
        !request_complete(request@) ==> r is None,
        request_complete(request@) && plist_of(request_body_bytes(request@)) is None ==> r
            is None,
        request_complete(request@) ==> (plist_of(request_body_bytes(request@)) matches Some(m)
            ==> match reply_model_for(m, *pairing) {
            Some(rm) => match r {
                Some(reply) => reply@ == framed_reply(bin_of(rm), packet_tag(request@)),
                None => bin_of(rm).len() + 16 > u32::MAX,
            },
            None => r is None,
        }),
{
    let (tag, body_bytes) = match decode_packet(request) {
        Ok(p) => p,
        Err(_) => {
            return None;
        },
    };
    proof {
        assert(request_complete(request@));
        assert(body_bytes@ == request_body_bytes(request@));
    }
    let body = match decode_plist(body_bytes.as_slice()) {
        Some(v) => v,
        None => {
            return None;
        },
    };
    proof {
        lemma_ps_get_str_model(body, "MessageType"@);
    }
    let reply = match handle_packet(&body, pairing) {
        Ok(v) => v,
        Err(_) => {
            return None;
        },
    };
    let reply_bytes = encode_binary(&reply);
    if reply_bytes.len() <= (u32::MAX as usize) - 16 {
        Some(encode_packet(reply_bytes.as_slice(), tag))
    } else {
        None
    }
}

/// Law: the bytes the `ReadPairRecord` reply carries under `PairRecordData`,
/// decoded again, yield exactly the pairing record's deep value.
pub fn pair_record_data_round_trip(pairing: &PairingRecord) -> (r: Option<PValue>)
    requires
        pairing.wf(),
    ensures
        r matches Some(w) && pv_model(w) == pv_model(pairing.plist),
{
    let data = encode_binary(&pairing.plist);
    decode_plist(data.as_slice())
}

/// Process-wide lifecycle owned by `start`: whether the shim started, and how
/// many listener threads and heartbeat workers were spawned.
pub struct MuxerState {
    pub started: bool,
    pub listeners: u64,
    pub heartbeats: u64,
    pub pairing: Option<PairingRecord>,
}

impl MuxerState {
    /// Once started, the shim holds a valid pairing record and exactly one
    /// listener and one heartbeat worker; before that, none.
    pub open spec fn wf(&self) -> bool {
        &&& (self.started ==> (self.pairing matches Some(p) && p.wf()))
        &&& self.listeners == if self.started {
            1u64
        } else {
            0u64
        }
        &&& self.heartbeats == if self.started {
            1u64
        } else {
            0u64
        }
    }

    /// A process begins with nothing running.
    pub fn new() -> (r: Self)
        ensures
            r.wf(),
            !r.started,
            r.listeners == 0,
    {
        MuxerState { started: false, listeners: 0, heartbeats: 0, pairing: None }
    }
}

/// What the caller must do after `start` returns successfully: on a fresh
/// start, bind the listener, spawn the heartbeat worker and set the logger up
/// at `log_file`; on a repeated start, nothing.
#[derive(Debug)]
pub struct StartAction {
    pub fresh: bool,
    pub console_logging: bool,
    pub log_file: String,
}

/// The log file kept under the caller-supplied path: the seven characters of
/// the `file://` prefix are dropped and `/minimuxer.log` is appended.
pub open spec fn log_file_of(log_path: Seq<char>) -> Seq<char> {
    log_path.skip(7) + "/minimuxer.log"@
}

fn log_file_path(log_path: &str) -> (r: String)
    requires
        log_path@.len() >= 7,
    ensures
        r@ == log_file_of(log_path@),
{
    let n = log_path.unicode_len();
    let stem = log_path.substring_char(7, n);
    proof {
        assert(stem@ =~= log_path@.skip(7));
    }
    String::from_str(stem).concat("/minimuxer.log")
}

/// Starts the muxer and the heartbeat worker, with a choice whether log lines
/// also go to the console. A repeated start succeeds without doing anything
/// again; a pairing file that does not decode to a dictionary with a string
/// `UDID` is rejected and nothing is started.
#[allow(non_snake_case)]
pub fn startWithLogger(
    state: &mut MuxerState,
    pairing_file: String,
    log_path: String,
    is_console_logging_enabled: bool,
) -> (r: Result<StartAction, Errors>)
    requires
        old(state).wf(),
        log_path@.len() >= 7,
    ensures
        final(state).wf(),
        old(state).started ==> (r matches Ok(a) && !a.fresh && a.console_logging
            == is_console_logging_enabled && a.log_file@ == log_file_of(log_path@) && *final(state)
            == *old(state)),
        !old(state).started ==> match r {
            Ok(a) => {
                &&& a.fresh
                &&& a.console_logging == is_console_logging_enabled
                &&& a.log_file@ == log_file_of(log_path@)
                &&& final(state).started
                &&& final(state).listeners == 1
                &&& final(state).heartbeats == 1
                &&& (final(state).pairing matches Some(rec) && rec.wf() && plist_of(
                    encode_utf8(pairing_file@),
                ) == Some(pv_model(rec.plist)) && pv_get_str(rec.plist, "UDID"@) == Some(
                    rec.udid@,
                ))
            },
            Err(e) => e == Errors::PairingFile && *final(state) == *old(state),
        },
        !old(state).started ==> (r is Err <==> !(plist_of(encode_utf8(pairing_file@)) matches Some(
            m,
        ) && ps_get_str(m, "UDID"@) is Some)),
{
    let log_file = log_file_path(log_path.as_str());
    if state.started {
        return Ok(
            StartAction { fresh: false, console_logging: is_console_logging_enabled, log_file },
        );
    }
    let pairing_str = pairing_file.as_str();
    let pairing_bytes = pairing_str.as_bytes();
    proof {
        assert(pairing_bytes@ == encode_utf8(pairing_file@));
    }
    let decoded = match decode_plist(pairing_bytes) {
        Some(v) => v,
        None => {
            return Err(Errors::PairingFile);
        },
    };
    proof {
        lemma_ps_get_str_model(decoded, "UDID"@);
    }
    let record = match validate_pairing(decoded) {
        Ok(rec) => rec,
        Err(e) => {
            return Err(e);
        },
    };
    state.pairing = Some(record);
    state.started = true;
    state.listeners = state.listeners + 1;
    state.heartbeats = state.heartbeats + 1;
    Ok(StartAction { fresh: true, console_logging: is_console_logging_enabled, log_file })
}

/// Starts the muxer and the heartbeat worker, logging to the console as well,
/// as callers without a logging preference expect.
pub fn start(state: &mut MuxerState, pairing_file: String, log_path: String) -> (r: Result<
    StartAction,
    Errors,
>)
    requires
        old(state).wf(),
        log_path@.len() >= 7,
    ensures
        final(state).wf(),
        old(state).started ==> (r matches Ok(a) && !a.fresh && a.console_logging && a.log_file@
            == log_file_of(log_path@) && *final(state) == *old(state)),
        !old(state).started ==> match r {
            Ok(a) => {
                &&& a.fresh
                &&& a.console_logging
                &&& a.log_file@ == log_file_of(log_path@)
                &&& final(state).started
                &&& final(state).listeners == 1
                &&& final(state).heartbeats == 1
                &&& (final(state).pairing matches Some(rec) && rec.wf() && plist_of(
                    encode_utf8(pairing_file@),
                ) == Some(pv_model(rec.plist)))
            },
            Err(e) => e == Errors::PairingFile && *final(state) == *old(state),
        },
        !old(state).started ==> (r is Err <==> !(plist_of(encode_utf8(pairing_file@)) matches Some(
            m,
        ) && ps_get_str(m, "UDID"@) is Some)),
{
    startWithLogger(state, pairing_file, log_path, true)
}

/// Law: starting twice with the same pairing file succeeds the second time
/// whenever the first start succeeded, and exactly one listener and one
/// heartbeat worker are left running.
pub fn start_twice(pairing_file: String, log_path: String) -> (r: (
    Result<StartAction, Errors>,
    Result<StartAction, Errors>,
    MuxerState,
))
    requires
        log_path@.len() >= 7,
    ensures
        r.0 is Ok ==> (r.1 is Ok && r.2.started && r.2.listeners == 1 && r.2.heartbeats == 1),
{
    let mut state = MuxerState::new();
    let first = start(&mut state, pairing_file.clone(), log_path.clone());
    let second = start(&mut state, pairing_file, log_path);
    (first, second, state)
}

/// The loopback endpoint the native libraries are pointed at so that their
/// connections reach the emulated multiplexer.
pub fn mux_socket_address() -> (r: String)
    ensures
        r@ == "127.0.0.1:27015"@,
{
    String::from_str("127.0.0.1:27015")
}

/// Accept-loop bookkeeping: failures in a row since the last accepted
/// connection or rebind.
pub struct ListenerState {
    pub retries: u32,
}

/// What the accept loop does next.
#[derive(Debug, Clone, Copy, PartialEq, Eq, Structural)]
pub enum ListenerAction {
    Handle,
    RetryAfter5Ms,
    Rebind,
}

/// One turn of the accept loop: a connection is handled and the failure count
/// cleared; a failure waits briefly and retries, and the fiftieth straight
/// failure drops the listener and rebinds instead.
pub fn listen_step(state: &mut ListenerState, accepted: bool) -> (a: ListenerAction)
    requires
        old(state).retries < 50,
    ensures
        final(state).retries < 50,
        accepted ==> a == ListenerAction::Handle && final(state).retries == 0,
        !accepted && old(state).retries + 1 < 50 ==> a == ListenerAction::RetryAfter5Ms
            && final(state).retries == old(state).retries + 1,
        !accepted && old(state).retries + 1 >= 50 ==> a == ListenerAction::Rebind
            && final(state).retries == 0,
{
    if accepted {
        state.retries = 0;
        ListenerAction::Handle
    } else {
        let next = state.retries + 1;
        if next < 50 {
            state.retries = next;
            ListenerAction::RetryAfter5Ms
        } else {
            state.retries = 0;
            ListenerAction::Rebind
        }
    }
}

} // verus!

