use yaxi::display::auth::{entry, XAuth};
use yaxi::display::error::Error;
use yaxi::display::request::{pad, put_u16, put_u32, ByteOrder, SetupRequest};
use yaxi::display::xid::Xid;
use yaxi::display::{decode_event, Atom, Display, EventListener, Predefined, Visual};
use yaxi::keyboard::Keysym;
use yaxi::proto::{
    ErrorCode, Event, EventKind, PropertyState, Reply, ReplyKind, SequenceManager, VisualClass,
};
use yaxi::window::{
    ConfigureValue, PropFormat, PropMode, ValuesBuilder, Window, WindowArguments, WindowKind,
    WindowValue,
};
use yaxi::proto::{Queue, WindowClass};

fn record(code: u8, detail: u8, sequence: u16) -> Vec<u8> {
    let mut b = vec![0u8; 32];
    b[0] = code;
    b[1] = detail;
    b[2..4].copy_from_slice(&sequence.to_le_bytes());
    b
}

fn root_window() -> Window {
    Window::new(
        ByteOrder::Little,
        Visual { id: 33, class: VisualClass::TrueColor },
        24,
        0x100,
    )
}

#[test]
fn pad_rounds_to_four() {
    assert_eq!(pad(0), 0);
    assert_eq!(pad(1), 3);
    assert_eq!(pad(2), 2);
    assert_eq!(pad(3), 1);
    assert_eq!(pad(4), 0);
    assert_eq!(pad(7), 1);
}

#[test]
fn fields_follow_byte_order() {
    let mut little = Vec::new();
    put_u32(&mut little, ByteOrder::Little, 0x0102_0304);
    put_u16(&mut little, ByteOrder::Little, 0x0506);
    assert_eq!(little, vec![4, 3, 2, 1, 6, 5]);
    let mut big = Vec::new();
    put_u32(&mut big, ByteOrder::Big, 0x0102_0304);
    put_u16(&mut big, ByteOrder::Big, 0x0506);
    assert_eq!(big, vec![1, 2, 3, 4, 5, 6]);
}

#[test]
fn setup_request_layout() {
    let request = SetupRequest {
        endian: 0x6c,
        major_version: 11,
        minor_version: 0,
        name_len: 18,
        data_len: 16,
    };
    assert_eq!(
        request.encode(ByteOrder::Little),
        vec![0x6c, 0, 11, 0, 0, 0, 18, 0, 16, 0, 0, 0]
    );
    let bytes = Display::setup_request(ByteOrder::Little, b"MIT-MAGIC-COOKIE-1", &[7u8; 16]);
    assert_eq!(bytes.len(), 12 + 20 + 16);
    assert_eq!(&bytes[12..30], b"MIT-MAGIC-COOKIE-1");
    assert_eq!(&bytes[30..32], &[0, 0]);
}

#[test]
fn sequence_numbers_count_every_request() {
    let mut sequence = SequenceManager::new();
    assert_eq!(sequence.skip(), 1);
    assert_eq!(sequence.append(ReplyKind::InternAtom), 2);
    assert_eq!(sequence.issue(None), 3);
    assert_eq!(sequence.issue(Some(ReplyKind::GetProperty)), 4);
    assert_eq!(sequence.get(4).unwrap().kind, ReplyKind::GetProperty);
    assert_eq!(sequence.get(2).unwrap().kind, ReplyKind::InternAtom);
    assert_eq!(sequence.get(2), Err(Error::InvalidId));
}

#[test]
fn sequence_numbers_wrap_at_sixteen_bits() {
    let mut sequence = SequenceManager { id: 65535, sequences: Vec::new() };
    assert_eq!(sequence.skip(), 0);
    assert_eq!(sequence.skip(), 1);
}

#[test]
fn queue_surfaces_errors_first() {
    let mut queue: Queue<u32> = Queue::new();
    queue.push(1);
    queue.push(2);
    queue.post_error(Error::NoReply);
    assert_eq!(queue.pop(), Err(Error::NoReply));
    assert_eq!(queue.pop(), Ok(Some(1)));
    assert_eq!(queue.poll(), Ok(true));
    assert_eq!(queue.pop(), Ok(Some(2)));
    assert_eq!(queue.pop(), Ok(None));
    queue.terminate();
    assert_eq!(queue.pop(), Err(Error::Terminated));
    assert_eq!(queue.poll_error(), Err(Error::Terminated));
}

#[test]
fn intern_atom_round_trip_through_router() {
    let display_order = ByteOrder::Little;
    let mut listener = EventListener::new(display_order);
    let name = "WM_NAME";
    let root = root_window();
    let _ = root;
    let mut reply = record(1, 0, 1);
    reply[8..12].copy_from_slice(&39u32.to_le_bytes());
    let id = listener.sequence.issue(Some(ReplyKind::InternAtom));
    assert_eq!(id, 1);
    assert_eq!(listener.extra_len(&reply), 0);
    listener.handle_event(&reply).unwrap();
    let answer = listener.replies.pop().unwrap().unwrap();
    assert_eq!(Display::intern_atom_reply(answer), Ok(Atom::new(39)));
    assert_eq!(name.len(), 7);
    // The same sequence is not pending any more: a second reply is a protocol violation.
    assert_eq!(listener.handle_event(&reply), Err(Error::InvalidId));
}

#[test]
fn intern_atom_of_none_is_invalid() {
    let mut listener = EventListener::new(ByteOrder::Little);
    listener.sequence.issue(Some(ReplyKind::InternAtom));
    listener.handle_event(&record(1, 0, 1)).unwrap();
    let answer = listener.replies.pop().unwrap().unwrap();
    assert_eq!(Display::intern_atom_reply(answer), Err(Error::InvalidAtom));
}

#[test]
fn error_record_resolves_its_request() {
    let mut listener = EventListener::new(ByteOrder::Little);
    listener.sequence.issue(Some(ReplyKind::GetProperty));
    let mut error = record(0, 3, 1);
    error[4..8].copy_from_slice(&0x1234u32.to_le_bytes());
    error[10] = 20;
    listener.handle_event(&error).unwrap();
    assert!(listener.sequence.sequences.is_empty());
    assert_eq!(
        listener.replies.pop(),
        Err(Error::Event {
            error: ErrorCode::Window,
            major_opcode: 20,
            minor_opcode: 0,
            bad_value: 0x1234,
            sequence: 1,
        })
    );
}

#[test]
fn property_reply_carries_value_and_type() {
    let mut listener = EventListener::new(ByteOrder::Little);
    listener.sequence.issue(Some(ReplyKind::GetProperty));
    let mut reply = record(1, 8, 1);
    reply[4..8].copy_from_slice(&2u32.to_le_bytes());
    reply[8..12].copy_from_slice(&31u32.to_le_bytes());
    reply[16..20].copy_from_slice(&5u32.to_le_bytes());
    assert_eq!(listener.extra_len(&reply), 8);
    reply.extend_from_slice(b"hello\0\0\0");
    listener.handle_event(&reply).unwrap();
    let answer = listener.replies.pop().unwrap().unwrap();
    assert_eq!(
        Window::property_from_reply(answer),
        Ok(Some((b"hello".to_vec(), Atom::new(31))))
    );
}

#[test]
fn short_property_reply_is_refused() {
    let mut listener = EventListener::new(ByteOrder::Little);
    listener.sequence.issue(Some(ReplyKind::GetProperty));
    let mut reply = record(1, 8, 1);
    reply[16..20].copy_from_slice(&5u32.to_le_bytes());
    listener.handle_event(&reply).unwrap();
    assert_eq!(listener.replies.pop(), Err(Error::InvalidReply));
}

#[test]
fn terminate_cuts_off_waiters() {
    let mut listener = EventListener::new(ByteOrder::Little);
    listener.sequence.issue(Some(ReplyKind::GetProperty));
    listener.terminate();
    assert!(listener.sequence.sequences.is_empty());
    assert_eq!(listener.replies.pop(), Err(Error::Terminated));
    assert_eq!(listener.events.pop(), Err(Error::Terminated));
}

#[test]
fn key_press_event_is_decoded() {
    let mut b = record(2, 38, 9);
    b[12..16].copy_from_slice(&0x200u32.to_le_bytes());
    b[24..26].copy_from_slice(&10u16.to_le_bytes());
    b[26..28].copy_from_slice(&20u16.to_le_bytes());
    match decode_event(&b, ByteOrder::Little) {
        Some(Event::KeyEvent { kind, window, keycode, coordinates, send_event, .. }) => {
            assert_eq!(kind, EventKind::Press);
            assert_eq!(window, 0x200);
            assert_eq!(keycode, 38);
            assert_eq!((coordinates.x, coordinates.y), (10, 20));
            assert!(!send_event);
        },
        other => panic!("unexpected {:?}", other),
    }
}

#[test]
fn selection_notify_and_property_events_are_decoded() {
    let mut b = record(31 | 0x80, 0, 1);
    b[8..12].copy_from_slice(&7u32.to_le_bytes());
    b[12..16].copy_from_slice(&100u32.to_le_bytes());
    b[16..20].copy_from_slice(&101u32.to_le_bytes());
    b[20..24].copy_from_slice(&102u32.to_le_bytes());
    match decode_event(&b, ByteOrder::Little) {
        Some(Event::SelectionNotify { requestor, selection, target, property, .. }) => {
            assert_eq!(requestor, 7);
            assert_eq!((selection.id, target.id, property.id), (100, 101, 102));
        },
        other => panic!("unexpected {:?}", other),
    }
    let mut p = record(28, 0, 1);
    p[16] = 1;
    match decode_event(&p, ByteOrder::Little) {
        Some(Event::PropertyNotify { state, .. }) => assert_eq!(state, PropertyState::Deleted),
        other => panic!("unexpected {:?}", other),
    }
    assert!(decode_event(&record(8, 0, 1), ByteOrder::Little).is_none());
}

#[test]
fn configure_request_values_follow_mask() {
    let mut b = record(23, 1, 1);
    b[16..18].copy_from_slice(&5u16.to_le_bytes());
    b[22..24].copy_from_slice(&9u16.to_le_bytes());
    b[26..28].copy_from_slice(&(0x1u16 | 0x8 | 0x40).to_le_bytes());
    match decode_event(&b, ByteOrder::Little) {
        Some(Event::ConfigureRequest { values, .. }) => {
            assert_eq!(values.len(), 3);
            assert_eq!(values[0], ConfigureValue::X(5));
            assert_eq!(values[1], ConfigureValue::Height(9));
        },
        other => panic!("unexpected {:?}", other),
    }
}

#[test]
fn change_property_is_padded() {
    let window = root_window();
    let request = window.change_property(
        Atom::new(39),
        Atom::new(Predefined::STRING),
        PropFormat::Format8,
        PropMode::Replace,
        b"hello",
    );
    assert!(request.reply.is_none());
    assert_eq!(request.bytes.len(), 24 + 8);
    assert_eq!(request.bytes[0], 18);
    assert_eq!(u16::from_le_bytes([request.bytes[2], request.bytes[3]]), 8);
    assert_eq!(u32::from_le_bytes([request.bytes[20], request.bytes[21], request.bytes[22], request.bytes[23]]), 5);
    assert_eq!(&request.bytes[24..29], b"hello");
    assert_eq!(&request.bytes[29..], &[0, 0, 0]);
}

#[test]
fn format32_counts_units() {
    assert_eq!(PropFormat::Format32.encode(12), 3);
    assert_eq!(PropFormat::Format16.encode(12), 6);
    assert_eq!(PropFormat::Format8.encode(12), 12);
}

#[test]
fn values_go_in_ascending_bit_order() {
    let values = ValuesBuilder::new(vec![
        ConfigureValue::Height(4),
        ConfigureValue::X(1),
        ConfigureValue::Height(5),
    ]);
    let (bytes, mask, count) = values.build(ByteOrder::Little);
    assert_eq!(mask, 0x9);
    assert_eq!(count, 2);
    assert_eq!(bytes, vec![1, 0, 0, 0, 5, 0, 0, 0]);
}

#[test]
fn create_window_takes_fresh_ids() {
    let root = root_window();
    let mut xid = Xid::new(0x0400_0000, 0x001f_ffff);
    let (child, request) = root
        .create_window(
            &mut xid,
            WindowArguments {
                depth: 24,
                x: 0,
                y: 0,
                width: 1,
                height: 1,
                border_width: 0,
                class: WindowClass::InputOutput,
                visual: root.visual(),
                values: ValuesBuilder::new(vec![WindowValue::BgPixel(7)]),
            },
        )
        .unwrap();
    assert_eq!(child.id(), 0x0400_0001);
    assert_eq!(request.bytes.len(), 36);
    assert_eq!(u16::from_le_bytes([request.bytes[2], request.bytes[3]]), 9);
    let (second, _) = root
        .create_window(
            &mut xid,
            WindowArguments {
                depth: 24,
                x: 0,
                y: 0,
                width: 1,
                height: 1,
                border_width: 0,
                class: WindowClass::InputOutput,
                visual: root.visual(),
                values: ValuesBuilder::new(vec![]),
            },
        )
        .unwrap();
    assert_eq!(second.id(), 0x0400_0002);
}

#[test]
fn resource_ids_run_out() {
    let mut xid = Xid::new(0, 2);
    assert_eq!(xid.next(), Ok(1));
    assert_eq!(xid.next(), Err(Error::RanOutOfXid));
}

#[test]
fn destroy_and_map_pick_opcodes() {
    let window = root_window();
    assert_eq!(window.destroy(WindowKind::Window).bytes[0], 4);
    assert_eq!(window.destroy(WindowKind::SubWindows).bytes[0], 5);
    assert_eq!(window.map(WindowKind::Window).bytes[0], 8);
    assert_eq!(window.unmap(WindowKind::SubWindows).bytes[0], 11);
}

#[test]
fn latin1_keysyms_have_characters() {
    assert_eq!(Keysym::new(0x61).character(), Ok('a'));
    assert_eq!(Keysym::new(0xe9).character(), Ok('é'));
    assert_eq!(Keysym::new(0xff0d).character(), Err(Error::InvalidKeysym));
}

#[test]
fn xauth_entry_is_read() {
    let mut file = vec![1, 0];
    for field in [&b"host"[..], &b"0"[..], &b"MIT-MAGIC-COOKIE-1"[..], &[9u8; 16][..]] {
        file.extend_from_slice(&(field.len() as u16).to_be_bytes());
        file.extend_from_slice(field);
    }
    let parsed = entry(file.clone()).unwrap();
    assert_eq!(parsed.family, 256);
    assert_eq!(parsed.address, b"host".to_vec());
    assert_eq!(parsed.name, b"MIT-MAGIC-COOKIE-1".to_vec());
    assert_eq!(parsed.data, vec![9u8; 16]);
    file.truncate(10);
    assert_eq!(XAuth::new(file).entry(), Err(Error::Stream));
}

#[test]
fn get_property_reads_whole_value() {
    let window = root_window();
    let request = window.get_property(Atom::new(39), Atom::new(0), true);
    assert_eq!(request.reply, Some(ReplyKind::GetProperty));
    assert_eq!(request.bytes.len(), 24);
    assert_eq!(request.bytes[1], 1);
    assert_eq!(&request.bytes[20..24], &[0xff, 0xff, 0, 0]);
}

#[test]
fn unexpected_reply_kind_is_refused() {
    let reply = Reply::GetSelectionOwner(yaxi::display::request::GetSelectionOwnerResponse {
        length: 0,
        owner: 0,
    });
    assert_eq!(Display::intern_atom_reply(reply.clone()), Err(Error::InvalidReply));
    assert_eq!(Display::get_selection_owner_reply(reply), Ok(None));
}

fn setup_body() -> Vec<u8> {
    let mut b = vec![0u8; 32];
    b[4..8].copy_from_slice(&0x0400_0000u32.to_le_bytes());
    b[8..12].copy_from_slice(&0x001f_ffffu32.to_le_bytes());
    b[16..18].copy_from_slice(&2u16.to_le_bytes());
    b[20] = 1;
    b[21] = 1;
    b[26] = 8;
    b[27] = 255;
    b.extend_from_slice(b"ab\0\0");
    b.extend_from_slice(&[24, 32, 32, 0, 0, 0, 0, 0]);
    let mut screen = vec![0u8; 40];
    screen[0..4].copy_from_slice(&0x1e3u32.to_le_bytes());
    screen[32..36].copy_from_slice(&0x21u32.to_le_bytes());
    screen[38] = 24;
    screen[39] = 1;
    b.extend_from_slice(&screen);
    b.extend_from_slice(&[24, 0, 1, 0, 0, 0, 0, 0]);
    let mut visual = vec![0u8; 24];
    visual[0..4].copy_from_slice(&0x21u32.to_le_bytes());
    visual[4] = 4;
    b.extend_from_slice(&visual);
    b
}

#[test]
fn setup_is_accepted_and_gives_root_window() {
    let head = [1u8, 0, 11, 0, 0, 0, 0, 0];
    let display = Display::connect(ByteOrder::Little, &head, &setup_body()).unwrap();
    assert_eq!(display.xid.base, 0x0400_0000);
    assert_eq!(display.display_keycodes().min, 8);
    let root = display.default_root_window().unwrap();
    assert_eq!(root.id(), 0x1e3);
    assert_eq!(root.depth(), 24);
    assert_eq!(root.visual().class, VisualClass::TrueColor);
    let mut short = setup_body();
    short.pop();
    assert_eq!(Display::connect(ByteOrder::Little, &head, &short).err(), Some(Error::Stream));
}

#[test]
fn setup_refusals_are_reported() {
    let failed = Display::connect(ByteOrder::Little, &[0, 3, 11, 0, 0, 0, 1, 0], b"bad\0");
    assert_eq!(failed.err(), Some(Error::SetupFailed { reason: String::from("bad") }));
    let auth = Display::connect(ByteOrder::Little, &[2, 0, 11, 0, 0, 0, 0, 0], &[]);
    assert_eq!(auth.err(), Some(Error::Authenthicate));
    let odd = Display::connect(ByteOrder::Little, &[7, 0, 11, 0, 0, 0, 0, 0], &[]);
    assert_eq!(odd.err(), Some(Error::InvalidStatus));
}

#[test]
fn keymap_lookups() {
    let head = [1u8, 0, 11, 0, 0, 0, 0, 0];
    let display = Display::connect(ByteOrder::Little, &head, &setup_body()).unwrap();
    let keysyms = vec![Keysym::new(0x61), Keysym::new(0x41), Keysym::new(0x62), Keysym::new(0x42)];
    assert_eq!(display.keysym_from_keycode(&keysyms, 2, 9), Ok(Keysym::new(0x62)));
    assert_eq!(display.keysym_from_keycode(&keysyms, 2, 7), Err(Error::InvalidKeysym));
    assert_eq!(display.keycode_from_keysym(&keysyms, 2, Keysym::new(0x42)), Ok(9));
    assert_eq!(display.keysym_from_character(&keysyms, 'b'), Ok(Keysym::new(0x62)));
    assert_eq!(display.keysym_from_character(&keysyms, 'z'), Err(Error::InvalidKeysym));
    assert_eq!(display.get_keyboard_mapping().bytes[5], 248);
}

#[test]
fn pushed_error_reaches_every_later_caller() {
    let mut queue: Queue<u32> = Queue::new();
    queue.push(1);
    queue.push_error(Error::Stream);
    assert_eq!(queue.poll_error(), Err(Error::Stream));
    assert_eq!(queue.poll_error(), Err(Error::Stream));
    assert_eq!(queue.pop(), Err(Error::Stream));
    assert_eq!(queue.poll(), Err(Error::Stream));
    queue.push_error(Error::NoReply);
    assert_eq!(queue.pop(), Err(Error::Stream));
}

#[test]
fn posted_request_error_is_handed_out_once() {
    let mut queue: Queue<u32> = Queue::new();
    queue.post_error(Error::InvalidReply);
    assert_eq!(queue.poll_error(), Err(Error::InvalidReply));
    assert_eq!(queue.poll_error(), Ok(()));
}
