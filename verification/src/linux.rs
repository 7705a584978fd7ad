//! The two clipboard subsystems of a Linux desktop, Wayland and X11: which
//! native selection each logical selector stands for, what is handed to the
//! subsystem, and what its answer means.

use crate::clipboard::{
    paste_view, Data, DataView, Dest, Error, ErrorChain, ErrorDetail, ErrorView, Source,
};
use crate::text::{decode_lossy, lemma_utf8_round_trip, starts_with, utf8_lossy};
use vstd::prelude::*;
use vstd::utf8::encode_utf8;

verus! {

/// The MIME type that copies are offered in and pastes ask for first.
pub const TEXT_PLAIN: &'static str = "text/plain";

/// How the MIME types begin that a browser keeps for its own use.
pub const INTERNAL_MIME_PREFIX: &'static str = "text/_moz";

/// The Wayland clipboard that a copy is offered on.
#[derive(Clone, Copy, Debug, PartialEq, Eq, Structural)]
pub enum CopyClipboardType {
    Regular,
    Primary,
    Both,
}

/// The Wayland clipboard that a paste asks.
#[derive(Clone, Copy, Debug, PartialEq, Eq, Structural)]
pub enum PasteClipboardType {
    Regular,
    Primary,
}

impl CopyClipboardType {
    /// Whether what is offered on `self` is what a paste from `paste` gets.
    pub open spec fn reaches(self, paste: PasteClipboardType) -> bool {
        match self {
            CopyClipboardType::Regular => paste == PasteClipboardType::Regular,
            CopyClipboardType::Primary => paste == PasteClipboardType::Primary,
            CopyClipboardType::Both => true,
        }
    }
}

/// A copy for the compositor: `bytes`, offered as plain text on `clipboard`.
#[derive(Clone, Debug, PartialEq, Eq)]
pub struct WaylandCopy {
    pub clipboard: CopyClipboardType,
    pub bytes: Vec<u8>,
}

/// What the compositor answered to a paste.
#[derive(Debug, PartialEq, Eq)]
pub enum Offer {
    /// The owner of the clipboard sent `bytes`, labelled with `mime`.
    Contents { bytes: Vec<u8>, mime: String },
    /// The clipboard of the seat is empty.
    ClipboardEmpty,
    /// There is no seat to ask.
    NoSeats,
    /// Nothing on offer is text.
    NoMimeType,
    /// The paste failed, for the reason given.
    Failed(ErrorChain),
}

/// The mathematical value of an [`Offer`].
pub enum OfferView {
    Contents { bytes: Seq<u8>, mime: Seq<char> },
    ClipboardEmpty,
    NoSeats,
    NoMimeType,
    Failed(Seq<Seq<char>>),
}

impl View for Offer {
    type V = OfferView;

    open spec fn view(&self) -> OfferView {
        match self {
            Offer::Contents { bytes, mime } => OfferView::Contents { bytes: bytes@, mime: mime@ },
            Offer::ClipboardEmpty => OfferView::ClipboardEmpty,
            Offer::NoSeats => OfferView::NoSeats,
            Offer::NoMimeType => OfferView::NoMimeType,
            Offer::Failed(cause) => OfferView::Failed(cause@),
        }
    }
}

/// Whether `mime` is one of the types that a browser keeps for its own use
/// and offers without real content behind them.
pub open spec fn is_internal_mime(mime: Seq<char>) -> bool {
    INTERNAL_MIME_PREFIX@.is_prefix_of(mime)
}

/// Pasted text with its label: text that is empty carries none.
pub open spec fn labelled(text: Seq<char>, mime: Seq<char>) -> DataView {
    DataView {
        data: text,
        mime: if text.len() == 0 {
            None
        } else {
            Some(mime)
        },
    }
}

/// The Wayland backend: all it keeps is whether the compositor has a primary
/// selection.
#[derive(Clone, Copy, Debug, PartialEq, Eq)]
pub struct WaylandBackend {
    primary_supported: bool,
}

impl WaylandBackend {
    /// Whether the compositor has a primary selection.
    pub closed spec fn has_primary(self) -> bool {
        self.primary_supported
    }

    /// The clipboard that a copy to `dest` goes to. Without a primary
    /// selection everything goes to the regular clipboard.
    pub open spec fn copy_target(self, dest: Dest) -> CopyClipboardType {
        match dest {
            Dest::Default | Dest::Clipboard => CopyClipboardType::Regular,
            Dest::Primary => if self.has_primary() {
                CopyClipboardType::Primary
            } else {
                CopyClipboardType::Regular
            },
            Dest::Both => if self.has_primary() {
                CopyClipboardType::Both
            } else {
                CopyClipboardType::Regular
            },
        }
    }

    /// The clipboard that a paste from `source` asks.
    pub open spec fn paste_target(self, source: Source) -> PasteClipboardType {
        match source {
            Source::Default | Source::Clipboard => PasteClipboardType::Regular,
            Source::Primary => if self.has_primary() {
                PasteClipboardType::Primary
            } else {
                PasteClipboardType::Regular
            },
        }
    }

    /// What a paste returns for the compositor's answer. An empty clipboard,
    /// in any of its three forms, is an empty result and no error; so is an
    /// offer of a browser's internal type, whatever bytes came with it.
    pub open spec fn paste_result(offer: OfferView) -> Result<DataView, ErrorView> {
        match offer {
            OfferView::Contents { bytes, mime } => Ok(
                if is_internal_mime(mime) {
                    DataView::empty()
                } else {
                    labelled(utf8_lossy(bytes), mime)
                },
            ),
            OfferView::ClipboardEmpty | OfferView::NoSeats | OfferView::NoMimeType => Ok(
                DataView::empty(),
            ),
            OfferView::Failed(cause) => Err(ErrorView::system(cause)),
        }
    }

    /// The backend for a compositor that was asked whether it has a primary
    /// selection: `probed` is its answer, or `None` where it gave none. Only
    /// a compositor that said yes has one.
    pub fn new(probed: Option<bool>) -> (backend: WaylandBackend)
        ensures
            backend.has_primary() == (probed == Some(true)),
    {
        WaylandBackend {
            primary_supported: match probed {
                Some(supported) => supported,
                None => false,
            },
        }
    }

    /// Whether the compositor has a primary selection.
    pub fn primary_supported(&self) -> (supported: bool)
        ensures
            supported == self.has_primary(),
    {
        self.primary_supported
    }

    /// The clipboard that a copy to `dest` goes to.
    pub fn copy_type(&self, dest: Dest) -> (clipboard: CopyClipboardType)
        ensures
            clipboard == self.copy_target(dest),
    {
        match (dest, self.primary_supported) {
            (Dest::Default, _) | (Dest::Clipboard, _) => CopyClipboardType::Regular,
            (Dest::Primary, true) => CopyClipboardType::Primary,
            (Dest::Both, true) => CopyClipboardType::Both,
            // Fall back to the regular clipboard without a word.
            (Dest::Primary, false) | (Dest::Both, false) => CopyClipboardType::Regular,
        }
    }

    /// The clipboard that a paste from `source` asks.
    pub fn paste_type(&self, source: Source) -> (clipboard: PasteClipboardType)
        ensures
            clipboard == self.paste_target(source),
    {
        match (source, self.primary_supported) {
            (Source::Default, _) | (Source::Clipboard, _) => PasteClipboardType::Regular,
            (Source::Primary, true) => PasteClipboardType::Primary,
            // Fall back to the regular clipboard without a word.
            (Source::Primary, false) => PasteClipboardType::Regular,
        }
    }

    /// The offer that copies `data` to `dest`: its UTF-8 bytes, on the
    /// clipboard that `dest` stands for.
    pub fn copy(&self, dest: Dest, data: &str) -> (offer: WaylandCopy)
        ensures
            offer.clipboard == self.copy_target(dest),
            offer.bytes@ == encode_utf8(data@),
    {
        WaylandCopy { clipboard: self.copy_type(dest), bytes: data.as_bytes_vec() }
    }

    /// Ends a paste with what the compositor answered.
    pub fn pasted(offer: Offer) -> (result: Result<Data, Error>)
        ensures
            paste_view(result) == Self::paste_result(offer@),
    {
        match offer {
            Offer::Contents { bytes, mime } => {
                if starts_with(mime.as_str(), INTERNAL_MIME_PREFIX) {
                    // A browser's internal type: nothing real is behind it.
                    Ok(Data::empty())
                } else {
                    let data = decode_lossy(bytes.as_slice());
                    let mime = if data.as_str().is_empty() {
                        None
                    } else {
                        Some(mime)
                    };
                    Ok(Data { data, mime })
                }
            },
            Offer::ClipboardEmpty | Offer::NoSeats | Offer::NoMimeType => Ok(Data::empty()),
            Offer::Failed(cause) => Err(Error::system(cause)),
        }
    }

    /// A copy can be pasted back: the clipboard that a paste asks is one
    /// that the copy was offered on, and the bytes of the copy decode to the
    /// text that was copied, under whatever label that is not a browser's
    /// internal one.
    pub proof fn lemma_round_trip(
        self,
        dest: Dest,
        source: Source,
        text: Seq<char>,
        mime: Seq<char>,
    )
        requires
            dest.feeds(source),
            !is_internal_mime(mime),
        ensures
            self.copy_target(dest).reaches(self.paste_target(source)),
            Self::paste_result(OfferView::Contents { bytes: encode_utf8(text), mime }) == Ok::<
                DataView,
                ErrorView,
            >(labelled(text, mime)),
    {
        lemma_utf8_round_trip(text);
    }

    /// Without a primary selection, a copy to the primary selection or to
    /// both is the copy to the clipboard.
    pub proof fn lemma_fallback(self)
        requires
            !self.has_primary(),
        ensures
            self.copy_target(Dest::Primary) == self.copy_target(Dest::Clipboard),
            self.copy_target(Dest::Both) == self.copy_target(Dest::Clipboard),
            self.paste_target(Source::Primary) == self.paste_target(Source::Clipboard),
    {
    }

    /// An offer of a browser's internal type pastes as an empty clipboard,
    /// whatever bytes it holds.
    pub proof fn lemma_internal_offer(bytes: Seq<u8>, mime: Seq<char>)
        requires
            is_internal_mime(mime),
        ensures
            Self::paste_result(OfferView::Contents { bytes, mime }) == Ok::<DataView, ErrorView>(
                DataView::empty(),
            ),
    {
    }
}

/// An X11 atom: the number that the server gave to a name.
pub type Atom = u32;

/// How long a paste waits for the owner of the selection, in milliseconds.
pub const LOAD_TIMEOUT_MS: u64 = 100;

/// The atoms that the backend works with, as the connection interned them.
#[derive(Clone, Copy, Debug, PartialEq, Eq, Structural)]
pub struct Atoms {
    pub primary: Atom,
    pub clipboard: Atom,
    pub utf8_string: Atom,
    pub property: Atom,
}

/// A copy for the X server: `bytes`, stored as `target` under each of
/// `selections`, one after the other. The first store that fails ends the
/// copy; what was stored before it stays.
#[derive(Clone, Debug, PartialEq, Eq)]
pub struct X11Copy {
    pub selections: Vec<Atom>,
    pub target: Atom,
    pub bytes: Vec<u8>,
}

/// A paste for the X server: the selection to load, as `target`, through
/// `property`, waiting no longer than `timeout_ms` for its owner.
#[derive(Clone, Copy, Debug, PartialEq, Eq, Structural)]
pub struct X11Paste {
    pub selection: Atom,
    pub target: Atom,
    pub property: Atom,
    pub timeout_ms: u64,
}

/// The mathematical value of what the X server answered to a load.
pub open spec fn loaded_view(loaded: Result<Vec<u8>, ErrorChain>) -> Result<
    Seq<u8>,
    Seq<Seq<char>>,
> {
    match loaded {
        Ok(bytes) => Ok(bytes@),
        Err(cause) => Err(cause@),
    }
}

/// The X11 backend: the atoms of its connection.
#[derive(Clone, Copy, Debug, PartialEq, Eq)]
pub struct X11Backend {
    atoms: Atoms,
}

impl X11Backend {
    /// The atoms of the connection.
    pub closed spec fn atoms_spec(self) -> Atoms {
        self.atoms
    }

    /// The selection that a paste from `source` loads.
    pub open spec fn source_selection(self, source: Source) -> Atom {
        match source {
            Source::Default | Source::Primary => self.atoms_spec().primary,
            Source::Clipboard => self.atoms_spec().clipboard,
        }
    }

    /// The selections that a copy to `dest` stores under, in order.
    pub open spec fn dest_selections(self, dest: Dest) -> Seq<Atom> {
        match dest {
            Dest::Default | Dest::Primary => seq![self.atoms_spec().primary],
            Dest::Clipboard => seq![self.atoms_spec().clipboard],
            Dest::Both => seq![self.atoms_spec().primary, self.atoms_spec().clipboard],
        }
    }

    /// What a paste returns for the server's answer. X11 reports no MIME type.
    pub open spec fn paste_result(loaded: Result<Seq<u8>, Seq<Seq<char>>>) -> Result<
        DataView,
        ErrorView,
    > {
        match loaded {
            Ok(bytes) => Ok(DataView { data: utf8_lossy(bytes), mime: None }),
            Err(cause) => Err(ErrorView::system(cause)),
        }
    }

    /// The backend for a connection that was tried: `connected` holds the
    /// atoms of the connection, or why there is none. A failure to connect
    /// is a system error.
    pub fn new(connected: Result<Atoms, ErrorChain>) -> (result: Result<X11Backend, Error>)
        ensures
            match connected {
                Ok(atoms) => result matches Ok(backend) && backend.atoms_spec() == atoms,
                Err(cause) => result matches Err(error) && error@ == ErrorView::system(cause@),
            },
    {
        match connected {
            Ok(atoms) => Ok(X11Backend { atoms }),
            Err(cause) => Err(Error::system(cause)),
        }
    }

    /// The atoms of the connection.
    pub fn atoms(&self) -> (atoms: Atoms)
        ensures
            atoms == self.atoms_spec(),
    {
        self.atoms
    }

    /// The selection that a paste from `source` loads.
    pub fn source_atom(&self, source: Source) -> (atom: Atom)
        ensures
            atom == self.source_selection(source),
    {
        match source {
            Source::Default | Source::Primary => self.atoms.primary,
            Source::Clipboard => self.atoms.clipboard,
        }
    }

    /// The selections that a copy to `dest` stores under, in order.
    pub fn dest_atoms(&self, dest: Dest) -> (atoms: Vec<Atom>)
        ensures
            atoms@ == self.dest_selections(dest),
    {
        let mut atoms = Vec::new();
        match dest {
            Dest::Default | Dest::Primary => {
                atoms.push(self.atoms.primary);
            },
            Dest::Clipboard => {
                atoms.push(self.atoms.clipboard);
            },
            Dest::Both => {
                atoms.push(self.atoms.primary);
                atoms.push(self.atoms.clipboard);
            },
        }
        atoms
    }

    /// The stores that copy `data` to `dest`: its UTF-8 bytes, under each
    /// selection that `dest` stands for.
    pub fn copy(&self, dest: Dest, data: &str) -> (stores: X11Copy)
        ensures
            stores.selections@ == self.dest_selections(dest),
            stores.target == self.atoms_spec().utf8_string,
            stores.bytes@ == encode_utf8(data@),
    {
        X11Copy {
            selections: self.dest_atoms(dest),
            target: self.atoms.utf8_string,
            bytes: data.as_bytes_vec(),
        }
    }

    /// The load that pastes from `source`.
    pub fn paste(&self, source: Source) -> (load: X11Paste)
        ensures
            load == (X11Paste {
                selection: self.source_selection(source),
                target: self.atoms_spec().utf8_string,
                property: self.atoms_spec().property,
                timeout_ms: LOAD_TIMEOUT_MS,
            }),
    {
        X11Paste {
            selection: self.source_atom(source),
            target: self.atoms.utf8_string,
            property: self.atoms.property,
            timeout_ms: LOAD_TIMEOUT_MS,
        }
    }

    /// Ends a paste with what the server answered.
    pub fn pasted(loaded: Result<Vec<u8>, ErrorChain>) -> (result: Result<Data, Error>)
        ensures
            paste_view(result) == Self::paste_result(loaded_view(loaded)),
    {
        match loaded {
            Ok(bytes) => Ok(Data { data: decode_lossy(bytes.as_slice()), mime: None }),
            Err(cause) => Err(Error::system(cause)),
        }
    }

    /// A copy can be pasted back: the selection that a paste loads is one
    /// that the copy stored under, and the bytes of the copy decode to the
    /// text that was copied.
    pub proof fn lemma_round_trip(self, dest: Dest, source: Source, text: Seq<char>)
        requires
            dest.feeds(source),
        ensures
            self.dest_selections(dest).contains(self.source_selection(source)),
            Self::paste_result(Ok(encode_utf8(text))) == Ok::<DataView, ErrorView>(
                DataView { data: text, mime: None },
            ),
    {
        lemma_utf8_round_trip(text);
        let stored = self.dest_selections(dest);
        let wanted = self.source_selection(source);
        assert(stored[0] == wanted || (stored.len() == 2 && stored[1] == wanted));
    }
}

/// The display servers that a backend can be opened on.
#[derive(Clone, Copy, Debug, PartialEq, Eq, Structural)]
pub enum DisplayServer {
    Wayland,
    X11,
}

/// What opening a display server found.
#[derive(Debug, PartialEq, Eq)]
pub enum Opened {
    /// The compositor was asked whether it has a primary selection, and
    /// said so or gave no answer.
    Wayland { primary_selection: Option<bool> },
    /// The X server was connected to, or could not be.
    X11(Result<Atoms, ErrorChain>),
}

/// What a backend asks of its display server to make a copy.
#[derive(Clone, Debug, PartialEq, Eq)]
pub enum CopyCall {
    Wayland(WaylandCopy),
    X11(X11Copy),
}

/// What a backend asks of its display server to make a paste.
#[derive(Clone, Copy, Debug, PartialEq, Eq, Structural)]
pub enum PasteCall {
    /// Ask this clipboard, of whichever seat, for plain text first.
    Wayland(PasteClipboardType),
    X11(X11Paste),
}

/// What a display server answered to a paste.
#[derive(Debug, PartialEq, Eq)]
pub enum Pasted {
    Wayland(Offer),
    X11(Result<Vec<u8>, ErrorChain>),
}

/// Whether a variable of the environment is set to something: `value` is
/// what it holds, if it is set at all.
pub fn have_env_var(value: Option<&str>) -> (usable: bool)
    ensures
        usable == is_usable(option_text(value)),
{
    match value {
        Some(text) => !text.is_empty(),
        None => false,
    }
}

/// The mathematical value of a variable's text.
pub open spec fn option_text(value: Option<&str>) -> Option<Seq<char>> {
    match value {
        Some(text) => Some(text@),
        None => None,
    }
}

/// A variable is usable when it is set and not empty.
pub open spec fn is_usable(value: Option<Seq<char>>) -> bool {
    value matches Some(text) && text.len() > 0
}

/// The backend of a Linux session.
#[derive(Clone, Copy, Debug, PartialEq, Eq)]
pub enum Backend {
    Wayland(WaylandBackend),
    X11(X11Backend),
}

impl Backend {
    /// Whether the display server has a primary selection. An X server
    /// always has one.
    pub open spec fn has_primary(self) -> bool {
        match self {
            Backend::Wayland(wayland) => wayland.has_primary(),
            Backend::X11(_) => true,
        }
    }

    /// The display server that a session with these two variables runs on:
    /// Wayland where its variable is usable, else X11 where its variable is,
    /// else none.
    pub open spec fn choice(
        wayland_display: Option<Seq<char>>,
        display: Option<Seq<char>>,
    ) -> Option<DisplayServer> {
        if is_usable(wayland_display) {
            Some(DisplayServer::Wayland)
        } else if is_usable(display) {
            Some(DisplayServer::X11)
        } else {
            None
        }
    }

    /// What a copy of `data` to `dest` asks of the display server.
    pub open spec fn copy_call(self, dest: Dest, data: Seq<char>) -> CopyCallView {
        match self {
            Backend::Wayland(wayland) => CopyCallView::Wayland {
                clipboard: wayland.copy_target(dest),
                bytes: encode_utf8(data),
            },
            Backend::X11(x11) => CopyCallView::X11 {
                selections: x11.dest_selections(dest),
                target: x11.atoms_spec().utf8_string,
                bytes: encode_utf8(data),
            },
        }
    }

    /// What a paste from `source` asks of the display server.
    pub open spec fn paste_call(self, source: Source) -> PasteCall {
        match self {
            Backend::Wayland(wayland) => PasteCall::Wayland(wayland.paste_target(source)),
            Backend::X11(x11) => PasteCall::X11(
                X11Paste {
                    selection: x11.source_selection(source),
                    target: x11.atoms_spec().utf8_string,
                    property: x11.atoms_spec().property,
                    timeout_ms: LOAD_TIMEOUT_MS,
                },
            ),
        }
    }

    /// What a paste returns for the display server's answer.
    pub open spec fn paste_result(answer: PastedView) -> Result<DataView, ErrorView> {
        match answer {
            PastedView::Wayland(offer) => WaylandBackend::paste_result(offer),
            PastedView::X11(loaded) => X11Backend::paste_result(loaded),
        }
    }

    /// Chooses the display server from the two variables of the environment
    /// that name one, each given as what it holds if it is set. With neither
    /// usable there is no display server, which is an error.
    pub fn detect(wayland_display: Option<&str>, display: Option<&str>) -> (result: Result<
        DisplayServer,
        Error,
    >)
        ensures
            match result {
                Ok(server) => Self::choice(option_text(wayland_display), option_text(display))
                    == Some(server),
                Err(error) => Self::choice(option_text(wayland_display), option_text(display))
                    is None && error@ == (ErrorView {
                    detail: ErrorDetail::NoDisplayServer,
                    source: None,
                }),
            },
    {
        if have_env_var(wayland_display) {
            Ok(DisplayServer::Wayland)
        } else if have_env_var(display) {
            Ok(DisplayServer::X11)
        } else {
            Err(Error::new(ErrorDetail::NoDisplayServer))
        }
    }

    /// The backend for the display server that was opened. An X server that
    /// could not be connected to is a system error.
    pub fn new(opened: Opened) -> (result: Result<Backend, Error>)
        ensures
            match opened {
                Opened::Wayland { primary_selection } => result matches Ok(
                    Backend::Wayland(wayland),
                ) && wayland.has_primary() == (primary_selection == Some(true)),
                Opened::X11(Ok(atoms)) => result matches Ok(Backend::X11(x11)) && x11.atoms_spec()
                    == atoms,
                Opened::X11(Err(cause)) => result matches Err(error) && error@
                    == ErrorView::system(cause@),
            },
    {
        match opened {
            Opened::Wayland { primary_selection } => Ok(
                Backend::Wayland(WaylandBackend::new(primary_selection)),
            ),
            Opened::X11(connected) => match X11Backend::new(connected) {
                Ok(x11) => Ok(Backend::X11(x11)),
                Err(error) => Err(error),
            },
        }
    }

    /// What to ask of the display server to copy `data` to `dest`.
    pub fn copy(&self, dest: Dest, data: &str) -> (call: CopyCall)
        ensures
            call@ == self.copy_call(dest, data@),
    {
        match self {
            Backend::Wayland(wayland) => CopyCall::Wayland(wayland.copy(dest, data)),
            Backend::X11(x11) => CopyCall::X11(x11.copy(dest, data)),
        }
    }

    /// What to ask of the display server to paste from `source`.
    pub fn paste(&self, source: Source) -> (call: PasteCall)
        ensures
            call == self.paste_call(source),
    {
        match self {
            Backend::Wayland(wayland) => PasteCall::Wayland(wayland.paste_type(source)),
            Backend::X11(x11) => PasteCall::X11(x11.paste(source)),
        }
    }

    /// Ends a paste with what the display server answered.
    pub fn pasted(answer: Pasted) -> (result: Result<Data, Error>)
        ensures
            paste_view(result) == Self::paste_result(answer@),
    {
        match answer {
            Pasted::Wayland(offer) => WaylandBackend::pasted(offer),
            Pasted::X11(loaded) => X11Backend::pasted(loaded),
        }
    }
}

/// The mathematical value of a [`CopyCall`].
pub enum CopyCallView {
    Wayland { clipboard: CopyClipboardType, bytes: Seq<u8> },
    X11 { selections: Seq<Atom>, target: Atom, bytes: Seq<u8> },
}

impl View for CopyCall {
    type V = CopyCallView;

    open spec fn view(&self) -> CopyCallView {
        match self {
            CopyCall::Wayland(offer) => CopyCallView::Wayland {
                clipboard: offer.clipboard,
                bytes: offer.bytes@,
            },
            CopyCall::X11(stores) => CopyCallView::X11 {
                selections: stores.selections@,
                target: stores.target,
                bytes: stores.bytes@,
            },
        }
    }
}

/// The mathematical value of a [`Pasted`].
pub enum PastedView {
    Wayland(OfferView),
    X11(Result<Seq<u8>, Seq<Seq<char>>>),
}

impl View for Pasted {
    type V = PastedView;

    open spec fn view(&self) -> PastedView {
        match self {
            Pasted::Wayland(offer) => PastedView::Wayland(offer@),
            Pasted::X11(loaded) => PastedView::X11(loaded_view(*loaded)),
        }
    }
}

} // verus!
