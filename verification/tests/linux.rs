use clipipe::clipboard::{Data, Dest, Error, ErrorChain, ErrorDetail, Source};
use clipipe::linux::{
    have_env_var, Atoms, Backend, CopyCall, CopyClipboardType, DisplayServer, Offer, Opened,
    PasteCall, PasteClipboardType, Pasted, WaylandBackend, WaylandCopy, X11Backend, X11Copy,
    X11Paste, LOAD_TIMEOUT_MS, TEXT_PLAIN,
};
use std::collections::HashMap;

const ATOMS: Atoms = Atoms { primary: 1, clipboard: 317, utf8_string: 318, property: 400 };

fn broken_pipe() -> ErrorChain {
    ErrorChain::caused_by(
        "Wayland compositor communication error".to_string(),
        ErrorChain::root("Broken pipe".to_string()),
    )
}

fn x11() -> X11Backend {
    X11Backend::new(Ok(ATOMS)).expect("a connection opens the backend")
}

/// The two clipboards of a compositor, as far as a copy and a paste see them.
struct Compositor {
    regular: Option<Vec<u8>>,
    primary: Option<Vec<u8>>,
}

impl Compositor {
    fn copy(&mut self, offer: WaylandCopy) {
        match offer.clipboard {
            CopyClipboardType::Regular => self.regular = Some(offer.bytes),
            CopyClipboardType::Primary => self.primary = Some(offer.bytes),
            CopyClipboardType::Both => {
                self.regular = Some(offer.bytes.clone());
                self.primary = Some(offer.bytes);
            }
        }
    }

    fn paste(&self, clipboard: PasteClipboardType) -> Offer {
        let held = match clipboard {
            PasteClipboardType::Regular => &self.regular,
            PasteClipboardType::Primary => &self.primary,
        };
        match held {
            Some(bytes) => Offer::Contents { bytes: bytes.clone(), mime: TEXT_PLAIN.to_string() },
            None => Offer::ClipboardEmpty,
        }
    }
}

/// The selections of an X server, as far as a store and a load see them.
fn store_all(server: &mut HashMap<u32, (u32, Vec<u8>)>, copy: X11Copy) {
    for selection in copy.selections {
        server.insert(selection, (copy.target, copy.bytes.clone()));
    }
}

fn load(server: &HashMap<u32, (u32, Vec<u8>)>, paste: X11Paste) -> Result<Vec<u8>, ErrorChain> {
    match server.get(&paste.selection) {
        Some((target, bytes)) if *target == paste.target => Ok(bytes.clone()),
        _ => Err(ErrorChain::root("Selection timed out".to_string())),
    }
}

#[test]
fn text_plain_is_the_mime_type() {
    assert_eq!(TEXT_PLAIN, "text/plain");
}

#[test]
fn wayland_copy_type_with_primary_selection() {
    let backend = WaylandBackend::new(Some(true));
    assert!(backend.primary_supported());
    assert_eq!(backend.copy_type(Dest::Default), CopyClipboardType::Regular);
    assert_eq!(backend.copy_type(Dest::Clipboard), CopyClipboardType::Regular);
    assert_eq!(backend.copy_type(Dest::Primary), CopyClipboardType::Primary);
    assert_eq!(backend.copy_type(Dest::Both), CopyClipboardType::Both);
}

#[test]
fn wayland_copy_type_without_primary_selection() {
    let backend = WaylandBackend::new(Some(false));
    assert!(!backend.primary_supported());
    assert_eq!(backend.copy_type(Dest::Default), CopyClipboardType::Regular);
    assert_eq!(backend.copy_type(Dest::Clipboard), CopyClipboardType::Regular);
    assert_eq!(backend.copy_type(Dest::Primary), CopyClipboardType::Regular);
    assert_eq!(backend.copy_type(Dest::Both), CopyClipboardType::Regular);
}

#[test]
fn wayland_without_an_answer_has_no_primary_selection() {
    let backend = WaylandBackend::new(None);
    assert!(!backend.primary_supported());
    assert_eq!(backend, WaylandBackend::new(Some(false)));
    assert_eq!(backend.copy_type(Dest::Primary), CopyClipboardType::Regular);
    assert_eq!(backend.copy_type(Dest::Both), CopyClipboardType::Regular);
    assert_eq!(backend.paste_type(Source::Primary), PasteClipboardType::Regular);
    assert_eq!(
        Backend::new(Opened::Wayland { primary_selection: None }),
        Ok(Backend::Wayland(WaylandBackend::new(Some(false))))
    );
}

#[test]
fn wayland_paste_type() {
    let with = WaylandBackend::new(Some(true));
    assert_eq!(with.paste_type(Source::Default), PasteClipboardType::Regular);
    assert_eq!(with.paste_type(Source::Clipboard), PasteClipboardType::Regular);
    assert_eq!(with.paste_type(Source::Primary), PasteClipboardType::Primary);
    let without = WaylandBackend::new(Some(false));
    assert_eq!(without.paste_type(Source::Default), PasteClipboardType::Regular);
    assert_eq!(without.paste_type(Source::Clipboard), PasteClipboardType::Regular);
    assert_eq!(without.paste_type(Source::Primary), PasteClipboardType::Regular);
}

#[test]
fn wayland_copy_offers_the_utf8_bytes() {
    let backend = WaylandBackend::new(Some(true));
    assert_eq!(
        backend.copy(Dest::Primary, "h\u{e9}"),
        WaylandCopy { clipboard: CopyClipboardType::Primary, bytes: vec![b'h', 0xc3, 0xa9] }
    );
    assert_eq!(
        backend.copy(Dest::Default, ""),
        WaylandCopy { clipboard: CopyClipboardType::Regular, bytes: vec![] }
    );
}

#[test]
fn selector_fallback_without_primary_selection() {
    let backend = WaylandBackend::new(Some(false));
    let clipboard = backend.copy(Dest::Clipboard, "text");
    assert_eq!(backend.copy(Dest::Primary, "text"), clipboard);
    assert_eq!(backend.copy(Dest::Both, "text"), clipboard);
    assert_eq!(backend.paste_type(Source::Primary), backend.paste_type(Source::Clipboard));
}

#[test]
fn wayland_pasted_contents() {
    let offer = Offer::Contents {
        bytes: "gr\u{fc}n\n".as_bytes().to_vec(),
        mime: "text/plain;charset=utf-8".to_string(),
    };
    assert_eq!(
        WaylandBackend::pasted(offer),
        Ok(Data {
            data: "gr\u{fc}n\n".to_string(),
            mime: Some("text/plain;charset=utf-8".to_string()),
        })
    );
}

#[test]
fn wayland_pasted_replaces_what_is_not_utf8() {
    let offer = Offer::Contents { bytes: vec![b'a', 0xff, b'b'], mime: "text/plain".to_string() };
    assert_eq!(
        WaylandBackend::pasted(offer),
        Ok(Data { data: "a\u{fffd}b".to_string(), mime: Some("text/plain".to_string()) })
    );
}

#[test]
fn firefox_quirk_filtering() {
    for mime in ["text/_moz_htmlcontext", "text/_moz_htmlinfo", "text/_moz"] {
        let offer = Offer::Contents { bytes: b"<html>".to_vec(), mime: mime.to_string() };
        assert_eq!(WaylandBackend::pasted(offer), Ok(Data { data: String::new(), mime: None }));
    }
    let offer = Offer::Contents { bytes: vec![0xff, 0xfe], mime: "text/_moz".to_string() };
    assert_eq!(WaylandBackend::pasted(offer), Ok(Data::empty()));
}

#[test]
fn wayland_other_text_types_are_kept() {
    let offer = Offer::Contents { bytes: b"x".to_vec(), mime: "text/_mo".to_string() };
    assert_eq!(
        WaylandBackend::pasted(offer),
        Ok(Data { data: "x".to_string(), mime: Some("text/_mo".to_string()) })
    );
}

#[test]
fn wayland_empty_clipboard_is_no_error() {
    assert_eq!(WaylandBackend::pasted(Offer::ClipboardEmpty), Ok(Data::empty()));
    assert_eq!(WaylandBackend::pasted(Offer::NoSeats), Ok(Data::empty()));
    assert_eq!(WaylandBackend::pasted(Offer::NoMimeType), Ok(Data::empty()));
}

#[test]
fn wayland_empty_contents_carry_no_mime() {
    let offer = Offer::Contents { bytes: vec![], mime: "text/plain".to_string() };
    assert_eq!(WaylandBackend::pasted(offer), Ok(Data { data: String::new(), mime: None }));
}

#[test]
fn wayland_failure_is_a_system_error() {
    let result = WaylandBackend::pasted(Offer::Failed(broken_pipe()));
    assert_eq!(result, Err(Error::new_with_source(ErrorDetail::System, broken_pipe())));
}

#[test]
fn wayland_round_trip() {
    for supported in [true, false] {
        let backend = WaylandBackend::new(Some(supported));
        let pairs = [
            (Dest::Default, Source::Default),
            (Dest::Clipboard, Source::Clipboard),
            (Dest::Primary, Source::Primary),
            (Dest::Both, Source::Primary),
            (Dest::Both, Source::Clipboard),
            (Dest::Both, Source::Default),
        ];
        for (dest, source) in pairs {
            let mut compositor = Compositor { regular: None, primary: None };
            compositor.copy(backend.copy(dest, "round \u{1f600} trip"));
            let offer = compositor.paste(backend.paste_type(source));
            assert_eq!(
                WaylandBackend::pasted(offer),
                Ok(Data {
                    data: "round \u{1f600} trip".to_string(),
                    mime: Some("text/plain".to_string()),
                })
            );
        }
    }
}

#[test]
fn wayland_fresh_clipboard_pastes_empty_every_time() {
    let backend = WaylandBackend::new(Some(true));
    let compositor = Compositor { regular: None, primary: None };
    for _ in 0..3 {
        let offer = compositor.paste(backend.paste_type(Source::Default));
        assert_eq!(WaylandBackend::pasted(offer), Ok(Data { data: String::new(), mime: None }));
    }
}

#[test]
fn x11_backend_keeps_the_atoms() {
    assert_eq!(x11().atoms(), ATOMS);
}

#[test]
fn x11_connection_failure_is_a_system_error() {
    let cause = ErrorChain::root("XCB - couldn't establish conection".to_string());
    let same = ErrorChain::root("XCB - couldn't establish conection".to_string());
    assert_eq!(X11Backend::new(Err(cause)), Err(Error::system(same)));
}

#[test]
fn x11_source_atom() {
    assert_eq!(x11().source_atom(Source::Default), 1);
    assert_eq!(x11().source_atom(Source::Primary), 1);
    assert_eq!(x11().source_atom(Source::Clipboard), 317);
}

#[test]
fn x11_dest_atoms() {
    assert_eq!(x11().dest_atoms(Dest::Default), vec![1]);
    assert_eq!(x11().dest_atoms(Dest::Primary), vec![1]);
    assert_eq!(x11().dest_atoms(Dest::Clipboard), vec![317]);
    assert_eq!(x11().dest_atoms(Dest::Both), vec![1, 317]);
}

#[test]
fn x11_copy_stores_utf8_under_each_selection() {
    assert_eq!(
        x11().copy(Dest::Both, "\u{e9}"),
        X11Copy { selections: vec![1, 317], target: 318, bytes: vec![0xc3, 0xa9] }
    );
    assert_eq!(
        x11().copy(Dest::Clipboard, "x"),
        X11Copy { selections: vec![317], target: 318, bytes: vec![b'x'] }
    );
}

#[test]
fn x11_paste_waits_a_tenth_of_a_second() {
    assert_eq!(LOAD_TIMEOUT_MS, 100);
    assert_eq!(
        x11().paste(Source::Clipboard),
        X11Paste { selection: 317, target: 318, property: 400, timeout_ms: 100 }
    );
    assert_eq!(
        x11().paste(Source::Default),
        X11Paste { selection: 1, target: 318, property: 400, timeout_ms: 100 }
    );
}

#[test]
fn x11_pasted_reports_no_mime() {
    assert_eq!(
        X11Backend::pasted(Ok(b"text".to_vec())),
        Ok(Data { data: "text".to_string(), mime: None })
    );
    assert_eq!(X11Backend::pasted(Ok(vec![])), Ok(Data::empty()));
    assert_eq!(
        X11Backend::pasted(Ok(vec![0xc3, 0x28])),
        Ok(Data { data: "\u{fffd}(".to_string(), mime: None })
    );
}

#[test]
fn x11_timeout_is_a_system_error() {
    let result = X11Backend::pasted(Err(ErrorChain::root("Selection timed out".to_string())));
    assert_eq!(
        result,
        Err(Error::system(ErrorChain::root("Selection timed out".to_string())))
    );
}

#[test]
fn both_destination_copy() {
    let backend = x11();
    let mut server = HashMap::new();
    store_all(&mut server, backend.copy(Dest::Both, "x"));
    let primary = X11Backend::pasted(load(&server, backend.paste(Source::Primary)));
    assert_eq!(primary, Ok(Data { data: "x".to_string(), mime: None }));
    let clipboard = X11Backend::pasted(load(&server, backend.paste(Source::Clipboard)));
    assert_eq!(clipboard, Ok(Data { data: "x".to_string(), mime: None }));
}

#[test]
fn x11_round_trip() {
    let backend = x11();
    let pairs = [
        (Dest::Default, Source::Default),
        (Dest::Clipboard, Source::Clipboard),
        (Dest::Primary, Source::Primary),
        (Dest::Both, Source::Default),
    ];
    for (dest, source) in pairs {
        let mut server = HashMap::new();
        store_all(&mut server, backend.copy(dest, "tab\there \u{4e2d}"));
        let pasted = X11Backend::pasted(load(&server, backend.paste(source)));
        assert_eq!(pasted, Ok(Data { data: "tab\there \u{4e2d}".to_string(), mime: None }));
    }
}

#[test]
fn x11_clipboard_copy_does_not_reach_the_primary_selection() {
    let backend = x11();
    let mut server = HashMap::new();
    store_all(&mut server, backend.copy(Dest::Clipboard, "x"));
    assert!(load(&server, backend.paste(Source::Primary)).is_err());
}

#[test]
fn env_var_is_usable_when_set_and_not_empty() {
    assert!(have_env_var(Some("wayland-0")));
    assert!(have_env_var(Some(":0")));
    assert!(!have_env_var(Some("")));
    assert!(!have_env_var(None));
}

#[test]
fn detect_prefers_wayland() {
    assert_eq!(Backend::detect(Some("wayland-0"), Some(":0")), Ok(DisplayServer::Wayland));
    assert_eq!(Backend::detect(Some("wayland-0"), None), Ok(DisplayServer::Wayland));
    assert_eq!(Backend::detect(Some("wayland-0"), Some("")), Ok(DisplayServer::Wayland));
}

#[test]
fn detect_falls_back_to_x11() {
    assert_eq!(Backend::detect(None, Some(":0")), Ok(DisplayServer::X11));
    assert_eq!(Backend::detect(Some(""), Some(":1")), Ok(DisplayServer::X11));
}

#[test]
fn detect_without_display_server() {
    let expected = Err(Error::new(ErrorDetail::NoDisplayServer));
    assert_eq!(Backend::detect(None, None), expected);
    assert_eq!(Backend::detect(Some(""), Some("")), expected);
    assert_eq!(Backend::detect(Some(""), None), expected);
    assert_eq!(Backend::detect(None, None).unwrap_err().message(), "no display server available");
}

#[test]
fn backend_new_for_each_display_server() {
    assert_eq!(
        Backend::new(Opened::Wayland { primary_selection: Some(true) }),
        Ok(Backend::Wayland(WaylandBackend::new(Some(true))))
    );
    assert_eq!(
        Backend::new(Opened::Wayland { primary_selection: Some(false) }),
        Ok(Backend::Wayland(WaylandBackend::new(Some(false))))
    );
    assert_eq!(Backend::new(Opened::X11(Ok(ATOMS))), Ok(Backend::X11(x11())));
    assert_eq!(
        Backend::new(Opened::X11(Err(broken_pipe()))),
        Err(Error::system(broken_pipe()))
    );
}

#[test]
fn backend_copy_and_paste_go_to_the_variant() {
    let wayland = Backend::Wayland(WaylandBackend::new(Some(true)));
    assert_eq!(
        wayland.copy(Dest::Both, "x"),
        CopyCall::Wayland(WaylandCopy { clipboard: CopyClipboardType::Both, bytes: vec![b'x'] })
    );
    assert_eq!(wayland.paste(Source::Primary), PasteCall::Wayland(PasteClipboardType::Primary));
    let x11 = Backend::X11(x11());
    assert_eq!(
        x11.copy(Dest::Both, "x"),
        CopyCall::X11(X11Copy { selections: vec![1, 317], target: 318, bytes: vec![b'x'] })
    );
    assert_eq!(
        x11.paste(Source::Primary),
        PasteCall::X11(X11Paste { selection: 1, target: 318, property: 400, timeout_ms: 100 })
    );
}

#[test]
fn backend_pasted_reads_the_answer_by_its_kind() {
    let offer = Offer::Contents { bytes: b"w".to_vec(), mime: "text/plain".to_string() };
    assert_eq!(
        Backend::pasted(Pasted::Wayland(offer)),
        Ok(Data { data: "w".to_string(), mime: Some("text/plain".to_string()) })
    );
    assert_eq!(
        Backend::pasted(Pasted::X11(Ok(b"x".to_vec()))),
        Ok(Data { data: "x".to_string(), mime: None })
    );
    assert_eq!(Backend::pasted(Pasted::Wayland(Offer::NoSeats)), Ok(Data::empty()));
    assert_eq!(
        Backend::pasted(Pasted::X11(Err(broken_pipe()))),
        Err(Error::system(broken_pipe()))
    );
}
