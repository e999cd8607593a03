use yaxi::clipboard::atoms::{Atoms, ATOM_COUNT};
use yaxi::clipboard::event::{EventHandler, ReadStep, INCR_CHUNK_SIZE};
use yaxi::clipboard::model::{AtomHandle, Cache, ClipboardData, HandoverState, HandoverStatus};
use yaxi::clipboard::error::Error;
use yaxi::clipboard::{
    html_data, image_from_data, targets_from_bytes, text_data, text_from_data, Html, Image,
    ImageFormat,
};
use yaxi::display::request::ByteOrder;
use yaxi::display::{Atom, Visual};
use yaxi::ewmh::{desktop_geometry, desktop_viewports, u32_list, u32_value, DesktopGeometry};
use yaxi::proto::{PropertyState, VisualClass};
use yaxi::window::Window;

const OWN_WINDOW: u32 = 0x0400_0001;
const MARKER: u32 = 500;

fn atoms() -> Atoms {
    let interned: Vec<Atom> = (0..ATOM_COUNT as u32).map(|i| Atom::new(100 + i)).collect();
    Atoms::new(&interned).unwrap()
}

fn handler() -> EventHandler {
    let window = Window::new(
        ByteOrder::Little,
        Visual { id: 33, class: VisualClass::TrueColor },
        24,
        OWN_WINDOW,
    );
    EventHandler::new(atoms(), AtomHandle::new(window, Atom::new(MARKER)))
}

fn le32(b: &[u8], at: usize) -> u32 {
    u32::from_le_bytes([b[at], b[at + 1], b[at + 2], b[at + 3]])
}

#[test]
fn atoms_follow_name_order() {
    let a = atoms();
    assert_eq!(Atoms::names().len(), ATOM_COUNT);
    assert_eq!(a.selections.clipboard, Atom::new(100));
    assert_eq!(a.protocol.targets, Atom::new(104));
    assert_eq!(a.protocol.incr, Atom::new(112));
    assert_eq!(a.formats.utf8_string, Atom::new(116));
    assert_eq!(a.formats.uri_list, Atom::new(129));
    assert!(a.is_side_effect_target(a.protocol.save_targets));
    assert!(!a.is_side_effect_target(a.formats.html));
    assert_eq!(Atoms::new(&[]), Err(Error::InvalidProperty));
}

#[test]
fn cache_set_get_and_clear() {
    let a = atoms();
    let mut cache = Cache::new(a);
    let clipboard = a.selections.clipboard;
    let primary = a.selections.primary;
    cache.set(clipboard, a.formats.utf8_string, ClipboardData::from_bytes(b"one".to_vec(), a.formats.utf8_string));
    cache.set(clipboard, a.formats.utf8_string, ClipboardData::from_bytes(b"two".to_vec(), a.formats.utf8_string));
    cache.set(primary, a.formats.html, ClipboardData::from_bytes(b"<p>".to_vec(), a.formats.html));
    assert_eq!(cache.get(clipboard, a.formats.utf8_string).unwrap().bytes(), b"two");
    assert_eq!(cache.entries.len(), 2);
    assert!(!cache.is_empty(clipboard));
    cache.clear_selection(clipboard);
    assert!(cache.is_empty(clipboard));
    assert!(cache.get(primary, a.formats.html).is_some());
    cache.remove(primary, a.formats.html);
    assert!(cache.get(primary, a.formats.html).is_none());
}

#[test]
fn cache_lists_targets_and_sizes() {
    let a = atoms();
    let mut cache = Cache::new(a);
    let clipboard = a.selections.clipboard;
    cache.set(clipboard, a.formats.utf8_string, ClipboardData::from_bytes(b"hello".to_vec(), a.formats.utf8_string));
    cache.set(clipboard, a.protocol.multiple, ClipboardData::from_bytes(vec![], a.protocol.multiple));
    assert_eq!(
        cache.get_targets(clipboard),
        vec![
            a.formats.utf8_string,
            a.protocol.multiple,
            a.protocol.save_targets,
            a.protocol.targets,
            a.protocol.target_sizes
        ]
    );
    let sizes = cache.get_target_sizes(clipboard);
    assert_eq!(sizes.len(), 6);
    assert_eq!(sizes[0].size, 5);
    assert_eq!(sizes[1].size, -1);
    assert_eq!(sizes[4].size, 16);
    assert_eq!(sizes[5].size, 40);
    assert_eq!(cache.get_target_size(clipboard, a.formats.utf8_string).unwrap().size, 5);
    assert!(cache.get_target_size(clipboard, a.formats.html).is_none());
}

#[test]
fn write_takes_ownership_and_lists_targets() {
    let mut h = handler();
    let a = h.atoms;
    let request = h.write(a.selections.clipboard, text_data(&a, "hello"));
    assert_eq!(request.bytes[0], 22);
    assert_eq!(le32(&request.bytes, 4), OWN_WINDOW);
    let targets = h.get(a.selections.clipboard, a.protocol.targets).unwrap();
    assert_eq!(
        targets_from_bytes(targets.bytes(), ByteOrder::Little),
        vec![
            a.protocol.targets,
            a.protocol.timestamp,
            a.protocol.multiple,
            a.formats.utf8_string,
            a.formats.utf8_mime,
            a.formats.utf8_mime_alt
        ]
    );
    assert_eq!(h.get(a.selections.clipboard, a.formats.utf8_mime).unwrap().bytes(), b"hello");
}

#[test]
fn selection_request_sends_small_value() {
    let mut h = handler();
    let a = h.atoms;
    h.write(a.selections.clipboard, text_data(&a, "hello"));
    let plan = h.handle_selection_request(a.selections.clipboard, a.formats.utf8_string, Atom::new(77), 0x600, 5);
    assert_eq!(plan.len(), 2);
    let property = &plan[0].bytes;
    assert_eq!(property[0], 18);
    assert_eq!(le32(property, 4), 0x600);
    assert_eq!(le32(property, 8), 77);
    assert_eq!(&property[24..29], b"hello");
    let notify = &plan[1].bytes;
    assert_eq!(notify[0], 25);
    assert_eq!(notify[12], 31);
    assert_eq!(le32(notify, 32), 77);
}

#[test]
fn selection_request_without_value_is_refused() {
    let mut h = handler();
    let a = h.atoms;
    let plan = h.handle_selection_request(a.selections.clipboard, a.formats.html, Atom::new(77), 0x600, 5);
    assert_eq!(plan.len(), 1);
    assert_eq!(le32(&plan[0].bytes, 32), 0);
}

#[test]
fn selection_clear_empties_cache() {
    let mut h = handler();
    let a = h.atoms;
    h.write(a.selections.clipboard, text_data(&a, "hello"));
    h.handle_selection_clear(a.selections.clipboard);
    assert!(h.is_empty(a.selections.clipboard));
}

#[test]
fn incr_round_trip_of_large_value() {
    let mut owner = handler();
    let a = owner.atoms;
    let value: Vec<u8> = (0..200_000u32).map(|i| (i % 251) as u8).collect();
    owner.write(a.selections.clipboard, vec![ClipboardData::from_bytes(value.clone(), a.formats.utf8_string)]);
    let plan = owner.handle_selection_request(a.selections.clipboard, a.formats.utf8_string, Atom::new(77), 0x600, 5);
    assert_eq!(plan.len(), 3);
    assert_eq!(plan[0].bytes[0], 2);
    assert_eq!(le32(&plan[1].bytes, 12), a.protocol.incr.id);
    assert_eq!(le32(&plan[1].bytes, 24), 200_000);

    let mut reader = handler();
    let step = reader.read(a.selections.clipboard, a.formats.utf8_string, Some(0x600));
    assert!(matches!(step, ReadStep::Convert(_)));
    reader.handle_property(a.selections.clipboard, a.formats.utf8_string, Some((200_000u32.to_le_bytes().to_vec(), a.protocol.incr)));
    assert!(!reader.is_complete(a.selections.clipboard, a.formats.utf8_string));

    let mut chunks = 0;
    loop {
        let request = owner
            .incr_send(0x600, Atom::new(77), PropertyState::Deleted)
            .expect("a chunk follows each deletion");
        let n = le32(&request.bytes, 20) as usize;
        let chunk = request.bytes[24..24 + n].to_vec();
        assert!(n <= INCR_CHUNK_SIZE);
        let (sel, target, _) = reader
            .incr_fetch(OWN_WINDOW, Atom::new(MARKER), PropertyState::NewValue)
            .expect("the reader fetches each chunk");
        reader.handle_property(sel, target, Some((chunk, a.formats.utf8_string)));
        chunks += 1;
        if n == 0 {
            break;
        }
    }
    assert_eq!(chunks, 200_000 / INCR_CHUNK_SIZE + 2);
    assert!(owner.outgoing.is_empty());
    let data = reader.finish_read(a.selections.clipboard, a.formats.utf8_string).unwrap();
    assert_eq!(data.bytes, value);
}

#[test]
fn refused_conversion_ends_read_without_data() {
    let mut h = handler();
    let a = h.atoms;
    let step = h.read(a.selections.clipboard, a.formats.html, Some(0x600));
    assert!(matches!(step, ReadStep::Convert(_)));
    assert!(h.handle_selection_notify(OWN_WINDOW, a.selections.clipboard, a.formats.html, Atom::new(0), 1).is_none());
    assert!(h.is_complete(a.selections.clipboard, a.formats.html));
    assert!(h.finish_read(a.selections.clipboard, a.formats.html).is_none());
}

#[test]
fn read_of_own_selection_uses_cache() {
    let mut h = handler();
    let a = h.atoms;
    h.write(a.selections.clipboard, text_data(&a, "hi"));
    match h.read(a.selections.clipboard, a.formats.utf8_string, Some(OWN_WINDOW)) {
        ReadStep::Cached(data) => assert_eq!(data.bytes(), b"hi"),
        _ => panic!("expected the cached value"),
    }
    assert!(matches!(h.read(a.selections.clipboard, a.formats.utf8_string, None), ReadStep::Unowned));
}

#[test]
fn regular_read_completes_with_value() {
    let mut h = handler();
    let a = h.atoms;
    h.read(a.selections.clipboard, a.formats.utf8_string, Some(0x600));
    let fetch = h.handle_selection_notify(OWN_WINDOW, a.selections.clipboard, a.formats.utf8_string, Atom::new(MARKER), 1);
    assert!(fetch.is_some());
    h.handle_property(a.selections.clipboard, a.formats.utf8_string, Some((b"text".to_vec(), a.formats.utf8_string)));
    assert!(h.is_complete(a.selections.clipboard, a.formats.utf8_string));
    let data = h.finish_read(a.selections.clipboard, a.formats.utf8_string).unwrap();
    assert_eq!(data.bytes(), b"text");
    assert_eq!(text_from_data(data), Ok(Some(String::from("text"))));
}

#[test]
fn handover_completes_on_both_signals() {
    let mut h = handler();
    let a = h.atoms;
    assert!(h.handover_request(true).is_none());
    h.write(a.selections.clipboard, text_data(&a, "keep"));
    assert!(h.handover_request(false).is_none());
    let request = h.handover_request(true).unwrap();
    assert_eq!(request.bytes[0], 24);
    assert_eq!(h.handover.state, HandoverState::InProgress);
    assert_eq!(h.check_handover_state(), None);
    h.handle_selection_request(a.selections.clipboard, a.formats.utf8_string, Atom::new(9), 0x700, 1);
    assert!(h.handover.written);
    h.handle_selection_notify(OWN_WINDOW, a.selections.clipboard_manager, a.protocol.save_targets, Atom::new(MARKER), 2);
    assert_eq!(h.handover.state, HandoverState::Completed);
    assert!(h.check_handover_state().unwrap().is_completed());
}

#[test]
fn handover_status_update() {
    let mut status = HandoverStatus::new();
    status.set_in_progress();
    assert!(status.is_in_progress());
    assert!(!status.update(true, false));
    assert!(status.update(false, true));
    assert!(status.is_completed());
}

#[test]
fn text_and_html_values() {
    let a = atoms();
    let text = text_data(&a, "héllo");
    assert_eq!(text.len(), 3);
    assert_eq!(text[2].format, a.formats.utf8_mime_alt);
    assert_eq!(text[0].bytes, "héllo".as_bytes().to_vec());
    let html = html_data(&a, "<b>x</b>", Some("x"));
    assert_eq!(html.len(), 2);
    assert_eq!(html[1].format, a.formats.utf8_string);
    assert_eq!(text_from_data(ClipboardData::from_bytes(vec![], a.formats.utf8_string)), Ok(None));
    assert_eq!(text_from_data(ClipboardData::from_bytes(vec![0xff, 0xfe], a.formats.utf8_string)), Err(Error::Utf8));
    let page = Html::new(String::from("<p>"), None);
    assert!(!page.is_empty());
    assert_eq!(page.html(), "<p>");
    assert_eq!(page.alt(), None);
}

#[test]
fn images_by_format() {
    let a = atoms();
    let image = image_from_data(&a, ClipboardData::from_bytes(vec![1, 2, 3], a.formats.jpeg)).unwrap();
    assert_eq!(image.format(), ImageFormat::Jpeg);
    assert_eq!(image.len(), 3);
    assert!(image_from_data(&a, ClipboardData::from_bytes(vec![1], a.formats.html)).is_none());
    assert!(image_from_data(&a, ClipboardData::from_bytes(vec![], a.formats.png)).is_none());
    assert_eq!(ImageFormat::Bmp.atom(&a), a.formats.bmp);
    let owned = Image { bytes: vec![4, 5], format: ImageFormat::Png };
    assert_eq!(owned.bytes(), &[4, 5]);
    assert_eq!(owned.into_bytes(), vec![4, 5]);
}

#[test]
fn ewmh_property_values() {
    let bytes: Vec<u8> = [7u32, 9, 11].iter().flat_map(|v| v.to_le_bytes()).collect();
    assert_eq!(u32_list(&bytes, ByteOrder::Little), vec![7, 9, 11]);
    assert_eq!(u32_value(&bytes, ByteOrder::Little), 7);
    assert_eq!(u32_value(&[5], ByteOrder::Little), 5);
    assert_eq!(desktop_geometry(&bytes, ByteOrder::Little), DesktopGeometry { width: 7, height: 9 });
    let viewports = desktop_viewports(&bytes, ByteOrder::Little);
    assert_eq!(viewports.len(), 1);
    assert_eq!((viewports[0].x, viewports[0].y), (7, 9));
}

fn ewmh() -> yaxi::ewmh::Ewmh {
    let interned: Vec<Atom> = (0..yaxi::ewmh::EWMH_ATOM_COUNT as u32).map(|i| Atom::new(300 + i)).collect();
    let atoms = yaxi::ewmh::EwmhAtoms::new(&interned).unwrap();
    let root = Window::new(ByteOrder::Little, Visual { id: 33, class: VisualClass::TrueColor }, 24, 0x1e3);
    root.ewmh(atoms)
}

#[test]
fn ewmh_requests_and_window_types() {
    let e = ewmh();
    let set = e.ewmh_set_current_desktop(3);
    assert_eq!(set.bytes.len(), 28);
    assert_eq!(le32(&set.bytes, 8), 303);
    assert_eq!(le32(&set.bytes, 24), 3);
    let get = e.ewmh_get_active_window();
    assert_eq!(le32(&get.bytes, 8), 300);
    let names = e.ewmh_set_desktop_names(&[String::from("a"), String::from("bc")]).unwrap();
    assert_eq!(&names.bytes[24..29], b"a\0bc\0");
    let value: Vec<u8> = [313u32, 999, 319].iter().flat_map(|v| v.to_le_bytes()).collect();
    assert_eq!(
        e.window_types(&value),
        vec![yaxi::ewmh::EwmhWindowType::Dock, yaxi::ewmh::EwmhWindowType::Normal]
    );
}

#[test]
fn property_contains_listed_atom() {
    let window = Window::new(ByteOrder::Little, Visual { id: 33, class: VisualClass::TrueColor }, 24, 1);
    let value: Vec<u8> = [5u32, 9].iter().flat_map(|v| v.to_le_bytes()).collect();
    assert!(window.property_contains(&value, &[Atom::new(9)]));
    assert!(!window.property_contains(&value, &[Atom::new(7)]));
}

#[test]
fn targets_reply_lists_each_atom_once() {
    let mut h = handler();
    let a = h.atoms;
    h.write(a.selections.clipboard, text_data(&a, "hello"));
    let plan = h.handle_selection_request(a.selections.clipboard, a.protocol.targets, Atom::new(77), 0x600, 5);
    assert_eq!(plan.len(), 2);
    let n = le32(&plan[0].bytes, 20) as usize;
    let listed = targets_from_bytes(&plan[0].bytes[24..24 + 4 * n], ByteOrder::Little);
    assert_eq!(
        listed,
        vec![
            a.formats.utf8_string,
            a.formats.utf8_mime,
            a.formats.utf8_mime_alt,
            a.protocol.multiple,
            a.protocol.save_targets,
            a.protocol.targets,
            a.protocol.target_sizes
        ]
    );
    let mut sorted: Vec<u32> = listed.iter().map(|t| t.id).collect();
    sorted.sort();
    sorted.dedup();
    assert_eq!(sorted.len(), listed.len());
}

#[test]
fn later_value_of_a_format_wins() {
    let mut h = handler();
    let a = h.atoms;
    h.write(
        a.selections.clipboard,
        vec![
            ClipboardData::from_bytes(b"old".to_vec(), a.formats.html),
            ClipboardData::from_bytes(b"new".to_vec(), a.formats.html),
        ],
    );
    assert_eq!(h.get(a.selections.clipboard, a.formats.html).unwrap().bytes(), b"new");
}
