//! What holds of the backends and the protocol together.

use crate::clipboard::{DataView, Dest, ErrorView, Source};
use crate::json::{Json, Members};
use crate::linux::{
    is_internal_mime, Atom, CopyCallView, CopyClipboardType, OfferView, PasteCall,
    PasteClipboardType, PastedView,
};
use crate::protocol::{
    chain_members, copy_reply, failure_reply, line_of, paste_reply, pasted_reply, query_reply,
    Clipipe, StepView,
};
use crate::text::{lemma_utf8_lossy_empty, lemma_utf8_round_trip, without_crlf};
use vstd::prelude::*;

verus! {

/// The reply to a paste that found nothing: empty text, no MIME type,
/// success.
pub open spec fn empty_paste_reply() -> Members {
    Members::empty().insert("data"@, Json::Text(Seq::empty())).insert(
        "success"@,
        Json::Bool(true),
    )
}

/// Whether the display server's answer to a paste says that the clipboard
/// is empty: one of the three answers of a compositor that mean so, or a
/// load or an offer of no bytes.
pub open spec fn is_empty_answer(answer: PastedView) -> bool {
    match answer {
        PastedView::Wayland(OfferView::Contents { bytes, mime }) => bytes.len() == 0,
        PastedView::Wayland(OfferView::ClipboardEmpty) => true,
        PastedView::Wayland(OfferView::NoSeats) => true,
        PastedView::Wayland(OfferView::NoMimeType) => true,
        PastedView::Wayland(OfferView::Failed(_)) => false,
        PastedView::X11(loaded) => loaded matches Ok(bytes) && bytes.len() == 0,
    }
}

/// The keys of a reply are different words.
pub proof fn lemma_keys_differ()
    ensures
        "success"@ != "data"@,
        "success"@ != "mime"@,
        "data"@ != "mime"@,
        "success"@ != "message"@,
        "success"@ != "source"@,
        "message"@ != "source"@,
        "success"@ != "version"@,
{
    reveal_strlit("success");
    reveal_strlit("data");
    reveal_strlit("mime");
    reveal_strlit("message");
    reveal_strlit("source");
    reveal_strlit("version");
    assert("success"@.len() == 7 && "success"@[0] == 's');
    assert("data"@.len() == 4 && "data"@[0] == 'd');
    assert("mime"@.len() == 4 && "mime"@[0] == 'm');
    assert("message"@.len() == 7 && "message"@[0] == 'm');
    assert("source"@.len() == 6);
    assert("version"@.len() == 7 && "version"@[0] == 'v');
}

/// A reply to a paste without a MIME type has no `mime` member, and every
/// reply to a paste is a success with the text under `data`.
pub proof fn lemma_paste_reply(data: DataView)
    ensures
        paste_reply(data).contains_key("success"@),
        paste_reply(data)["success"@] == Json::Bool(true),
        paste_reply(data).contains_key("data"@),
        paste_reply(data)["data"@] == Json::Text(data.data),
        paste_reply(data).contains_key("mime"@) <==> data.mime is Some,
        data.mime matches Some(mime) ==> paste_reply(data)["mime"@] == Json::Text(mime),
        paste_reply(DataView::empty()) == empty_paste_reply(),
{
    lemma_keys_differ();
}

/// A reply to a failure is no success; it carries the message of the
/// failure and, under `source`, the same for its cause, down to the root of
/// the chain, which has no `source`.
pub proof fn lemma_failure_reply(chain: Seq<Seq<char>>)
    requires
        chain.len() >= 1,
    ensures
        failure_reply(chain).contains_key("success"@),
        failure_reply(chain)["success"@] == Json::Bool(false),
        failure_reply(chain).contains_key("message"@),
        failure_reply(chain)["message"@] == Json::Text(chain[0]),
        failure_reply(chain).contains_key("source"@) <==> chain.len() > 1,
        chain.len() > 1 ==> failure_reply(chain)["source"@] == Json::Object(
            chain_members(chain.skip(1)),
        ),
        chain_members(chain).contains_key("message"@),
        chain_members(chain)["message"@] == Json::Text(chain[0]),
        chain_members(chain).contains_key("source"@) <==> chain.len() > 1,
        !chain_members(chain).contains_key("success"@),
{
    lemma_keys_differ();
}

/// A reply says whether the request succeeded: the replies to a query, to
/// a copy and to a paste are successes, and no reply to a failure is one.
pub proof fn lemma_success_member(version: Seq<char>, data: DataView, chain: Seq<Seq<char>>)
    ensures
        query_reply(version)["success"@] == Json::Bool(true),
        copy_reply()["success"@] == Json::Bool(true),
        paste_reply(data)["success"@] == Json::Bool(true),
        failure_reply(chain)["success"@] == Json::Bool(false),
        query_reply(version) != failure_reply(chain),
        copy_reply() != failure_reply(chain),
        paste_reply(data) != failure_reply(chain),
{
    lemma_keys_differ();
}

/// A line that is no JSON object does not stop the dispatcher: it is
/// answered with a failure that carries what the parser said, and nothing
/// else.
pub proof fn lemma_malformed_line(clipipe: Clipipe, message: Seq<char>)
    ensures
        clipipe.step_for(Err(message)) == StepView::Reply(
            line_of(failure_reply(seq![message])),
        ),
        failure_reply(seq![message]) == Members::empty().insert(
            "message"@,
            Json::Text(message),
        ).insert("success"@, Json::Bool(false)),
        failure_reply(seq![message])["success"@] == Json::Bool(false),
{
    lemma_failure_reply(seq![message]);
}

/// On a display server without a primary selection, a copy to the primary
/// selection or to both asks for just what a copy to the clipboard asks
/// for.
pub proof fn lemma_selector_fallback(backend: crate::linux::Backend, data: Seq<char>)
    requires
        !backend.has_primary(),
    ensures
        backend.copy_call(Dest::Primary, data) == backend.copy_call(Dest::Clipboard, data),
        backend.copy_call(Dest::Both, data) == backend.copy_call(Dest::Clipboard, data),
{
}

/// Pasting from an empty clipboard is a success with empty text and no
/// MIME type, whichever way the display server says that it is empty, and
/// as often as it is asked.
pub proof fn lemma_empty_clipboard(answer: PastedView)
    requires
        is_empty_answer(answer),
    ensures
        crate::linux::Backend::paste_result(answer) == Ok::<DataView, ErrorView>(
            DataView::empty(),
        ),
        pasted_reply(crate::linux::Backend::paste_result(answer)) == empty_paste_reply(),
        !empty_paste_reply().contains_key("mime"@),
        empty_paste_reply()["success"@] == Json::Bool(true),
        empty_paste_reply()["data"@] == Json::Text(Seq::empty()),
{
    lemma_utf8_lossy_empty();
    lemma_paste_reply(DataView::empty());
}

/// The same on Windows, for the two native codes of an empty clipboard and
/// for a clipboard that holds empty text.
pub proof fn lemma_empty_clipboard_windows(
    backend: crate::windows::Backend,
    got: Result<Seq<char>, (i32, Seq<Seq<char>>)>,
)
    requires
        match got {
            Ok(text) => text.len() == 0,
            Err((code, _)) => crate::windows::is_empty_code(code),
        },
    ensures
        backend.paste_result(got) == Ok::<DataView, ErrorView>(DataView::empty()),
        pasted_reply(backend.paste_result(got)) == empty_paste_reply(),
{
    lemma_paste_reply(DataView::empty());
    assert(without_crlf(Seq::<char>::empty()) =~= Seq::<char>::empty());
    if let Ok(text) = got {
        assert(text =~= Seq::<char>::empty());
    }
}

/// An offer of a browser's internal type is answered like an empty
/// clipboard, whatever bytes came with it.
pub proof fn lemma_internal_offer(bytes: Seq<u8>, mime: Seq<char>)
    requires
        is_internal_mime(mime),
    ensures
        pasted_reply(
            crate::linux::Backend::paste_result(
                PastedView::Wayland(OfferView::Contents { bytes, mime }),
            ),
        ) == empty_paste_reply(),
        !empty_paste_reply().contains_key("mime"@),
{
    lemma_paste_reply(DataView::empty());
}

/// What a display server keeps of the copies made to it: the bytes last
/// offered on each clipboard of a compositor, and the bytes last stored
/// under each selection of an X server. This is all that the laws below
/// suppose of a display server: that it hands back what it was given.
pub struct Kept {
    pub regular: Option<Seq<u8>>,
    pub primary: Option<Seq<u8>>,
    pub selections: Map<Atom, Seq<u8>>,
}

/// The selections of an X server after `bytes` were stored under each of
/// `selections` in turn.
pub open spec fn stored_under(
    held: Map<Atom, Seq<u8>>,
    selections: Seq<Atom>,
    bytes: Seq<u8>,
) -> Map<Atom, Seq<u8>>
    decreases selections.len(),
{
    if selections.len() == 0 {
        held
    } else {
        stored_under(held.insert(selections[0], bytes), selections.skip(1), bytes)
    }
}

/// What the display server keeps once it has done what `call` asks.
pub open spec fn after_copy(kept: Kept, call: CopyCallView) -> Kept {
    match call {
        CopyCallView::Wayland { clipboard, bytes } => match clipboard {
            CopyClipboardType::Regular => Kept { regular: Some(bytes), ..kept },
            CopyClipboardType::Primary => Kept { primary: Some(bytes), ..kept },
            CopyClipboardType::Both => Kept { regular: Some(bytes), primary: Some(bytes), ..kept },
        },
        CopyCallView::X11 { selections, target, bytes } => Kept {
            selections: stored_under(kept.selections, selections, bytes),
            ..kept
        },
    }
}

/// What the display server answers to `call`. A compositor labels what it
/// hands back with `mime`; an X server that has nothing under the selection
/// fails with `failure`.
pub open spec fn answer_to(
    kept: Kept,
    call: PasteCall,
    mime: Seq<char>,
    failure: Seq<Seq<char>>,
) -> PastedView {
    match call {
        PasteCall::Wayland(clipboard) => {
            let held = match clipboard {
                PasteClipboardType::Regular => kept.regular,
                PasteClipboardType::Primary => kept.primary,
            };
            PastedView::Wayland(
                match held {
                    Some(bytes) => OfferView::Contents { bytes, mime },
                    None => OfferView::ClipboardEmpty,
                },
            )
        },
        PasteCall::X11(load) => PastedView::X11(
            if kept.selections.contains_key(load.selection) {
                Ok(kept.selections[load.selection])
            } else {
                Err(failure)
            },
        ),
    }
}

/// What is copied can be pasted: after a copy of `text` to `dest`, a paste
/// from a source that `dest` feeds returns `text`, whatever the display
/// server kept before. A copy to both feeds every source. The label that a
/// compositor hands back must not be a browser's internal one, for such an
/// offer is taken for empty.
pub proof fn lemma_copy_then_paste(
    backend: crate::linux::Backend,
    kept: Kept,
    dest: Dest,
    source: Source,
    text: Seq<char>,
    mime: Seq<char>,
    failure: Seq<Seq<char>>,
)
    requires
        dest.feeds(source),
        !is_internal_mime(mime),
    ensures
        crate::linux::Backend::paste_result(
            answer_to(
                after_copy(kept, backend.copy_call(dest, text)),
                backend.paste_call(source),
                mime,
                failure,
            ),
        ) matches Ok(data) && data.data == text,
{
    lemma_utf8_round_trip(text);
    reveal_with_fuel(stored_under, 3);
    match backend {
        crate::linux::Backend::Wayland(wayland) => {
            wayland.lemma_round_trip(dest, source, text, mime);
        },
        crate::linux::Backend::X11(x11) => {
            x11.lemma_round_trip(dest, source, text);
            let selections = x11.dest_selections(dest);
            if selections.len() == 2 {
                assert(selections.skip(1)[0] == selections[1]);
                assert(selections.skip(1).skip(1).len() == 0);
            } else {
                assert(selections.skip(1).len() == 0);
            }
        },
    }
}

} // verus!
