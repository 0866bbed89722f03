use minimuxer::muxer::{
    encode_netaddr, encode_netaddr_v6, handle_packet, listen_step, mux_socket_address,
    pair_record_data_round_trip, respond, start, start_twice, validate_pairing,
    HandlePacketError, ListenerAction, ListenerState, MuxerState, PairingRecord, startWithLogger,
};
use minimuxer::pval::PValue;
use minimuxer::raw_packet::{assemble_reads, decode_packet, encode_packet, PacketError};
use minimuxer::Errors;

const PAIRING_XML: &str =
    "<plist><dict><key>UDID</key><string>ABCDEF</string></dict></plist>";

fn xml_bytes(v: &plist::Value) -> Vec<u8> {
    let mut out = Vec::new();
    v.to_writer_xml(&mut out).unwrap();
    out
}

fn request_bytes(message_type: &str, tag: u32) -> Vec<u8> {
    let mut dict = plist::Dictionary::new();
    dict.insert("MessageType".to_string(), message_type.into());
    let body = xml_bytes(&plist::Value::Dictionary(dict));
    let mut out = Vec::new();
    out.extend_from_slice(&((16 + body.len()) as u32).to_le_bytes());
    out.extend_from_slice(&1u32.to_le_bytes());
    out.extend_from_slice(&8u32.to_le_bytes());
    out.extend_from_slice(&tag.to_le_bytes());
    out.extend_from_slice(&body);
    out
}

fn started_state() -> MuxerState {
    let mut state = MuxerState::new();
    start(&mut state, PAIRING_XML.to_string(), "file:///tmp".to_string()).unwrap();
    state
}

fn pairing_of(state: &MuxerState) -> &PairingRecord {
    state.pairing.as_ref().unwrap()
}

#[test]
fn list_devices_reply_matches_pairing_record() {
    let state = started_state();
    let reply = respond(&request_bytes("ListDevices", 7), pairing_of(&state)).unwrap();

    // Header: total length, version 1, message type 8, echoed tag 7.
    let total = u32::from_le_bytes(reply[0..4].try_into().unwrap());
    assert_eq!(total as usize, reply.len());
    assert_eq!(u32::from_le_bytes(reply[4..8].try_into().unwrap()), 1);
    assert_eq!(u32::from_le_bytes(reply[8..12].try_into().unwrap()), 8);
    assert_eq!(u32::from_le_bytes(reply[12..16].try_into().unwrap()), 7);

    let body = plist::Value::from_reader(std::io::Cursor::new(&reply[16..])).unwrap();
    let list = body
        .as_dictionary()
        .unwrap()
        .get("DeviceList")
        .unwrap()
        .as_array()
        .unwrap();
    assert_eq!(list.len(), 1);
    let dev = list[0].as_dictionary().unwrap();
    assert_eq!(dev.get("DeviceID").unwrap().as_signed_integer().unwrap(), 420);
    assert_eq!(dev.get("MessageType").unwrap().as_string().unwrap(), "Attached");
    let props = dev.get("Properties").unwrap().as_dictionary().unwrap();
    assert_eq!(props.get("SerialNumber").unwrap().as_string().unwrap(), "ABCDEF");
    assert_eq!(props.get("DeviceID").unwrap().as_signed_integer().unwrap(), 420);
    assert_eq!(props.get("ConnectionType").unwrap().as_string().unwrap(), "Network");
    assert_eq!(props.get("InterfaceIndex").unwrap().as_signed_integer().unwrap(), 69);
    assert_eq!(
        props.get("EscapedFullServiceName").unwrap().as_string().unwrap(),
        "yurmomlolllllll"
    );
    let addr = props.get("NetworkAddress").unwrap().as_data().unwrap();
    assert_eq!(addr.len(), 152);
    assert_eq!(&addr[0..8], &[0x10, 0x02, 0x00, 0x00, 0x0A, 0x07, 0x00, 0x01]);
    assert!(addr[8..].iter().all(|b| *b == 0));
}

#[test]
fn listen_reply_equals_list_devices_reply() {
    let state = started_state();
    let a = respond(&request_bytes("Listen", 9), pairing_of(&state)).unwrap();
    let b = respond(&request_bytes("ListDevices", 9), pairing_of(&state)).unwrap();
    assert_eq!(a, b);
}

#[test]
fn read_pair_record_round_trips_the_pairing_record() {
    let state = started_state();
    let reply = respond(&request_bytes("ReadPairRecord", 3), pairing_of(&state)).unwrap();
    assert_eq!(u32::from_le_bytes(reply[12..16].try_into().unwrap()), 3);
    let body = plist::Value::from_reader(std::io::Cursor::new(&reply[16..])).unwrap();
    let record = body
        .as_dictionary()
        .unwrap()
        .get("PairRecordData")
        .unwrap()
        .as_data()
        .unwrap();
    let parsed = plist::Value::from_reader(std::io::Cursor::new(record)).unwrap();
    let dict = parsed.as_dictionary().unwrap();
    assert_eq!(dict.len(), 1);
    assert_eq!(dict.get("UDID").unwrap().as_string().unwrap(), "ABCDEF");
}

#[test]
fn pair_record_data_decodes_back_to_the_record() {
    let state = started_state();
    let back = pair_record_data_round_trip(pairing_of(&state)).unwrap();
    match back {
        minimuxer::pval::PValue::Dict(entries) => {
            assert_eq!(entries.len(), 1);
            assert_eq!(entries[0].0, "UDID");
            assert!(matches!(&entries[0].1, minimuxer::pval::PValue::Str(s) if s == "ABCDEF"));
        }
        _ => panic!("the record came back as something else"),
    }
}

#[test]
fn split_header_and_body_give_the_same_reply() {
    let state = started_state();
    let whole = request_bytes("ListDevices", 5);
    let first: Vec<u8> = whole[0..16].to_vec();
    let second: Vec<u8> = whole[16..].to_vec();
    // The body arrives a moment after the header; joining the two reads must
    // give the same reply as one read.
    let assembled = assemble_reads(&first, &second);
    assert_eq!(assembled, whole);
    let a = respond(&assembled, pairing_of(&state)).unwrap();
    let b = respond(&whole, pairing_of(&state)).unwrap();
    assert_eq!(a, b);
}

#[test]
fn unknown_message_type_closes_silently_and_serving_continues() {
    let state = started_state();
    let reply = respond(&request_bytes("ReadBUID", 11), pairing_of(&state));
    assert!(reply.is_none());
    // The listener keeps serving: the next request is answered as usual.
    let next = respond(&request_bytes("ListDevices", 12), pairing_of(&state));
    assert!(next.is_some());
}

#[test]
fn handle_packet_rejects_bodies_without_message_type() {
    let state = started_state();
    let body = PValue::Dict(vec![("Other".to_string(), PValue::Int(1))]);
    let r = handle_packet(&body, pairing_of(&state));
    assert_eq!(r.unwrap_err(), HandlePacketError::BadPacket);
    let body = PValue::Int(4);
    let r = handle_packet(&body, pairing_of(&state));
    assert_eq!(r.unwrap_err(), HandlePacketError::BadPacket);
    let body = PValue::Dict(vec![("MessageType".to_string(), PValue::Str("ReadBUID".to_string()))]);
    let r = handle_packet(&body, pairing_of(&state));
    assert_eq!(r.unwrap_err(), HandlePacketError::UnknownMessageType);
}

#[test]
fn start_twice_leaves_one_listener() {
    let (first, second, state) = start_twice(PAIRING_XML.to_string(), "file:///tmp".to_string());
    assert!(first.is_ok());
    assert!(second.is_ok());
    assert!(first.unwrap().fresh);
    assert!(!second.unwrap().fresh);
    assert!(state.started);
    assert_eq!(state.listeners, 1);
    assert_eq!(state.heartbeats, 1);
}

#[test]
fn start_rejects_pairing_files_without_udid() {
    let mut state = MuxerState::new();
    let bad = "<plist><dict><key>Name</key><string>x</string></dict></plist>".to_string();
    let r = start(&mut state, bad, "file:///tmp".to_string());
    assert_eq!(r.unwrap_err(), Errors::PairingFile);
    assert!(!state.started);
    assert_eq!(state.listeners, 0);

    let not_plist = "hello".to_string();
    let r = start(&mut state, not_plist, "file:///tmp".to_string());
    assert_eq!(r.unwrap_err(), Errors::PairingFile);
}

#[test]
fn start_action_names_the_log_file() {
    let mut state = MuxerState::new();
    let action = startWithLogger(
        &mut state,
        PAIRING_XML.to_string(),
        "file:///var/docs".to_string(),
        false,
    )
    .unwrap();
    assert_eq!(action.log_file, "/var/docs/minimuxer.log");
    assert!(!action.console_logging);
    assert!(action.fresh);
}

#[test]
fn validate_pairing_needs_a_string_udid() {
    let good = PValue::Dict(vec![("UDID".to_string(), PValue::Str("X1".to_string()))]);
    let rec = validate_pairing(good).unwrap();
    assert_eq!(rec.udid, "X1");
    let bad = PValue::Dict(vec![("UDID".to_string(), PValue::Int(7))]);
    assert_eq!(validate_pairing(bad).unwrap_err(), Errors::PairingFile);
}

#[test]
fn binary_and_xml_request_bodies_are_answered_alike() {
    let state = started_state();
    let mut dict = plist::Dictionary::new();
    dict.insert("MessageType".to_string(), "ListDevices".into());
    let mut binary_body = Vec::new();
    plist::Value::Dictionary(dict)
        .to_writer_binary(&mut binary_body)
        .unwrap();
    let mut request = Vec::new();
    request.extend_from_slice(&((16 + binary_body.len()) as u32).to_le_bytes());
    request.extend_from_slice(&1u32.to_le_bytes());
    request.extend_from_slice(&8u32.to_le_bytes());
    request.extend_from_slice(&21u32.to_le_bytes());
    request.extend_from_slice(&binary_body);
    let from_binary = respond(&request, pairing_of(&state)).unwrap();
    let from_xml = respond(&request_bytes("ListDevices", 21), pairing_of(&state)).unwrap();
    assert_eq!(from_binary, from_xml);
}

#[test]
fn netaddr_packs_the_ipv4_address() {
    let a = encode_netaddr(192, 168, 1, 2);
    assert_eq!(a.len(), 152);
    assert_eq!(&a[0..8], &[0x10, 0x02, 0x00, 0x00, 192, 168, 1, 2]);
    assert!(a[8..].iter().all(|b| *b == 0));
}

#[test]
fn netaddr_packs_the_ipv6_address() {
    let octets: Vec<u8> = (1..=16).collect();
    let a = encode_netaddr_v6(&octets);
    assert_eq!(a.len(), 152);
    assert_eq!(&a[0..2], &[0x1C, 0x1E]);
    assert!(a[2..8].iter().all(|b| *b == 0));
    assert_eq!(&a[8..24], octets.as_slice());
    assert!(a[24..].iter().all(|b| *b == 0));
}

#[test]
fn packet_decode_reports_incomplete_and_malformed() {
    assert_eq!(decode_packet(&[0u8; 10]).unwrap_err(), PacketError::Incomplete);
    let mut short = Vec::new();
    short.extend_from_slice(&8u32.to_le_bytes());
    short.extend_from_slice(&[0u8; 12]);
    assert_eq!(decode_packet(&short).unwrap_err(), PacketError::Malformed);
    let mut partial = Vec::new();
    partial.extend_from_slice(&32u32.to_le_bytes());
    partial.extend_from_slice(&[0u8; 12]);
    assert_eq!(decode_packet(&partial).unwrap_err(), PacketError::Incomplete);
}

#[test]
fn packet_encode_then_decode_returns_tag_and_body() {
    let body = vec![1u8, 2, 3, 4, 5];
    let packet = encode_packet(&body, 0xDEAD_BEEF);
    let (tag, decoded) = decode_packet(&packet).unwrap();
    assert_eq!(tag, 0xDEAD_BEEF);
    assert_eq!(decoded, body);
}

#[test]
fn listener_rebinds_after_fifty_straight_failures() {
    let mut state = ListenerState { retries: 0 };
    for _ in 0..49 {
        assert_eq!(listen_step(&mut state, false), ListenerAction::RetryAfter5Ms);
    }
    assert_eq!(listen_step(&mut state, false), ListenerAction::Rebind);
    assert_eq!(state.retries, 0);
    assert_eq!(listen_step(&mut state, true), ListenerAction::Handle);
    assert_eq!(state.retries, 0);
}

#[test]
fn mux_address_points_at_loopback() {
    assert_eq!(mux_socket_address(), "127.0.0.1:27015");
}
