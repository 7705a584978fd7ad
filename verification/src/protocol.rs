//! The request protocol: one JSON object a line in, one JSON object a line
//! out. A request names an action; the reply says whether it succeeded and
//! carries what it returned, or the chain of failures that stopped it.

use crate::clipboard::{
    copy_view, paste_view, Data, DataView, Dest, Error, ErrorChain, ErrorView, Source,
};
use crate::json::{
    as_str, bool_value, get, insert, json_object, json_text, members, new_object, object_value,
    parse_object, text_value, to_text, Json, Members, Object,
};
use crate::text::{joined, same_text};
use vstd::prelude::*;

verus! {

/// One member of a request, as far as the dispatcher looks at it.
#[derive(Clone, Debug, PartialEq, Eq)]
pub enum Field {
    /// The request has no such member.
    Missing,
    /// The member is a string with this text.
    Text(String),
    /// The member is something else, which reads like this as JSON.
    Other(String),
}

/// The mathematical value of a [`Field`].
pub enum FieldView {
    Missing,
    Text(Seq<char>),
    Other(Seq<char>),
}

impl View for Field {
    type V = FieldView;

    open spec fn view(&self) -> FieldView {
        match self {
            Field::Missing => FieldView::Missing,
            Field::Text(text) => FieldView::Text(text@),
            Field::Other(text) => FieldView::Other(text@),
        }
    }
}

/// The members of a request that the dispatcher looks at.
#[derive(Clone, Debug, PartialEq, Eq)]
pub struct Request {
    pub action: Field,
    pub clipboard: Field,
    pub data: Field,
}

/// The mathematical value of a [`Request`].
pub struct RequestView {
    pub action: FieldView,
    pub clipboard: FieldView,
    pub data: FieldView,
}

impl View for Request {
    type V = RequestView;

    open spec fn view(&self) -> RequestView {
        RequestView { action: self.action@, clipboard: self.clipboard@, data: self.data@ }
    }
}

/// The member under `key` of an object with these members.
pub open spec fn field_of(object: Members, key: Seq<char>) -> FieldView {
    if !object.contains_key(key) {
        FieldView::Missing
    } else {
        match object[key] {
            Json::Text(text) => FieldView::Text(text),
            other => FieldView::Other(json_text(other)),
        }
    }
}

/// The request that an object with these members makes.
pub open spec fn request_of(object: Members) -> RequestView {
    RequestView {
        action: field_of(object, "action"@),
        clipboard: field_of(object, "clipboard"@),
        data: field_of(object, "data"@),
    }
}

fn read_field(object: &Object, key: &str) -> (field: Field)
    ensures
        field@ == field_of(members(*object), key@),
{
    match get(object, key) {
        None => Field::Missing,
        Some(value) => match as_str(value) {
            Some(text) => Field::Text(text.to_owned()),
            None => Field::Other(to_text(value)),
        },
    }
}

fn read_request(object: &Object) -> (request: Request)
    ensures
        request@ == request_of(members(*object)),
{
    Request {
        action: read_field(object, "action"),
        clipboard: read_field(object, "clipboard"),
        data: read_field(object, "data"),
    }
}

/// What a request asks for.
#[derive(Clone, Debug, PartialEq, Eq)]
pub enum Action {
    Copy(Dest, String),
    Paste(Source),
    Query,
}

/// The mathematical value of an [`Action`].
pub enum ActionView {
    Copy(Dest, Seq<char>),
    Paste(Source),
    Query,
}

impl View for Action {
    type V = ActionView;

    open spec fn view(&self) -> ActionView {
        match self {
            Action::Copy(dest, data) => ActionView::Copy(*dest, data@),
            Action::Paste(source) => ActionView::Paste(*source),
            Action::Query => ActionView::Query,
        }
    }
}

/// The mathematical value of a parsing result: the value parsed, or the
/// message of the one failure that stopped it.
pub open spec fn parse_view<T: View>(result: Result<T, ErrorChain>) -> Result<T::V, Seq<char>> {
    match result {
        Ok(value) => Ok(value@),
        Err(chain) => Err(chain.message@),
    }
}

/// The same for a value that is its own mathematical value.
pub open spec fn named<T>(result: Result<T, ErrorChain>) -> Result<T, Seq<char>> {
    match result {
        Ok(value) => Ok(value),
        Err(chain) => Err(chain.message@),
    }
}

/// Whether a parsing result is a value or a failure without a cause.
pub open spec fn is_plain<T>(result: Result<T, ErrorChain>) -> bool {
    result matches Err(chain) ==> chain.source is None
}

impl Action {
    /// The source that the `clipboard` member of a paste names: the default
    /// one where it is missing, else one of three names.
    pub open spec fn source_of(name: FieldView) -> Result<Source, Seq<char>> {
        match name {
            FieldView::Missing => Ok(Source::Default),
            FieldView::Text(name) => if name == "default"@ {
                Ok(Source::Default)
            } else if name == "clipboard"@ {
                Ok(Source::Clipboard)
            } else if name == "primary"@ {
                Ok(Source::Primary)
            } else {
                Err("Invalid clipboard source: "@ + name)
            },
            FieldView::Other(value) => Err("Invalid clipboard source: "@ + value),
        }
    }

    /// The destination that the `clipboard` member of a copy names: the
    /// default one where it is missing, else one of four names.
    pub open spec fn dest_of(name: FieldView) -> Result<Dest, Seq<char>> {
        match name {
            FieldView::Missing => Ok(Dest::Default),
            FieldView::Text(name) => if name == "default"@ {
                Ok(Dest::Default)
            } else if name == "clipboard"@ {
                Ok(Dest::Clipboard)
            } else if name == "primary"@ {
                Ok(Dest::Primary)
            } else if name == "both"@ {
                Ok(Dest::Both)
            } else {
                Err("Invalid clipboard destination: "@ + name)
            },
            FieldView::Other(value) => Err("Invalid clipboard destination: "@ + value),
        }
    }

    /// The text that the `data` member of a copy holds. It must be there
    /// and be a string.
    pub open spec fn data_of(data: FieldView) -> Result<Seq<char>, Seq<char>> {
        match data {
            FieldView::Missing => Err("Request is missing `data`"@),
            FieldView::Text(text) => Ok(text),
            FieldView::Other(value) => Err("Invalid clipboard data: "@ + value),
        }
    }

    /// The action that a request asks for, or what is wrong with the
    /// request. Of a copy the destination is looked at before the data.
    pub open spec fn parsed(request: RequestView) -> Result<ActionView, Seq<char>> {
        match request.action {
            FieldView::Missing => Err("No action specified"@),
            FieldView::Text(name) => if name == "copy"@ {
                match Self::dest_of(request.clipboard) {
                    Err(message) => Err(message),
                    Ok(dest) => match Self::data_of(request.data) {
                        Err(message) => Err(message),
                        Ok(data) => Ok(ActionView::Copy(dest, data)),
                    },
                }
            } else if name == "paste"@ {
                match Self::source_of(request.clipboard) {
                    Err(message) => Err(message),
                    Ok(source) => Ok(ActionView::Paste(source)),
                }
            } else if name == "query"@ {
                Ok(ActionView::Query)
            } else {
                Err("Invalid action: "@ + name)
            },
            FieldView::Other(value) => Err("Expected string for action: "@ + value),
        }
    }

    /// Reads the `clipboard` member of a paste.
    pub fn source(name: &Field) -> (result: Result<Source, ErrorChain>)
        ensures
            is_plain(result),
            named(result) == Self::source_of(name@),
    {
        match name {
            Field::Missing => Ok(Source::Default),
            Field::Text(name) => {
                if same_text(name.as_str(), "default") {
                    Ok(Source::Default)
                } else if same_text(name.as_str(), "clipboard") {
                    Ok(Source::Clipboard)
                } else if same_text(name.as_str(), "primary") {
                    Ok(Source::Primary)
                } else {
                    Err(ErrorChain::root(joined("Invalid clipboard source: ", name.as_str())))
                }
            },
            Field::Other(value) => Err(
                ErrorChain::root(joined("Invalid clipboard source: ", value.as_str())),
            ),
        }
    }

    /// Reads the `clipboard` member of a copy.
    pub fn dest(name: &Field) -> (result: Result<Dest, ErrorChain>)
        ensures
            is_plain(result),
            named(result) == Self::dest_of(name@),
    {
        match name {
            Field::Missing => Ok(Dest::Default),
            Field::Text(name) => {
                if same_text(name.as_str(), "default") {
                    Ok(Dest::Default)
                } else if same_text(name.as_str(), "clipboard") {
                    Ok(Dest::Clipboard)
                } else if same_text(name.as_str(), "primary") {
                    Ok(Dest::Primary)
                } else if same_text(name.as_str(), "both") {
                    Ok(Dest::Both)
                } else {
                    Err(
                        ErrorChain::root(
                            joined("Invalid clipboard destination: ", name.as_str()),
                        ),
                    )
                }
            },
            Field::Other(value) => Err(
                ErrorChain::root(joined("Invalid clipboard destination: ", value.as_str())),
            ),
        }
    }

    /// Reads the `data` member of a copy.
    pub fn data(data: &Field) -> (result: Result<String, ErrorChain>)
        ensures
            is_plain(result),
            parse_view(result) == Self::data_of(data@),
    {
        match data {
            Field::Missing => Err(ErrorChain::root("Request is missing `data`".to_owned())),
            Field::Text(text) => Ok(text.clone()),
            Field::Other(value) => Err(
                ErrorChain::root(joined("Invalid clipboard data: ", value.as_str())),
            ),
        }
    }

    /// Reads the action that a request asks for.
    pub fn parse(doc: &Request) -> (result: Result<Action, ErrorChain>)
        ensures
            is_plain(result),
            parse_view(result) == Self::parsed(doc@),
    {
        match &doc.action {
            Field::Missing => Err(ErrorChain::root("No action specified".to_owned())),
            Field::Text(name) => {
                if same_text(name.as_str(), "copy") {
                    let dest = match Self::dest(&doc.clipboard) {
                        Ok(dest) => dest,
                        Err(chain) => {
                            return Err(chain);
                        },
                    };
                    let data = match Self::data(&doc.data) {
                        Ok(data) => data,
                        Err(chain) => {
                            return Err(chain);
                        },
                    };
                    Ok(Action::Copy(dest, data))
                } else if same_text(name.as_str(), "paste") {
                    match Self::source(&doc.clipboard) {
                        Ok(source) => Ok(Action::Paste(source)),
                        Err(chain) => Err(chain),
                    }
                } else if same_text(name.as_str(), "query") {
                    Ok(Action::Query)
                } else {
                    Err(ErrorChain::root(joined("Invalid action: ", name.as_str())))
                }
            },
            Field::Other(value) => Err(
                ErrorChain::root(joined("Expected string for action: ", value.as_str())),
            ),
        }
    }
}

/// Whether `text` can stand on a line of its own: it holds no line feed.
pub open spec fn is_line(text: Seq<char>) -> bool {
    !text.contains('\n')
}

/// The line that an object with these members is written as.
pub open spec fn line_of(object: Members) -> Seq<char> {
    json_text(Json::Object(object))
}

/// The members that tell of a chain of failures: the message of the first
/// and, where it has a cause, the same for the rest of the chain under
/// `source`.
pub open spec fn chain_members(chain: Seq<Seq<char>>) -> Members
    decreases chain.len(),
{
    let own = Members::empty().insert("message"@, Json::Text(chain[0]));
    if chain.len() <= 1 {
        own
    } else {
        own.insert("source"@, Json::Object(chain_members(chain.skip(1))))
    }
}

/// The reply to a request that failed with this chain of failures.
pub open spec fn failure_reply(chain: Seq<Seq<char>>) -> Members {
    chain_members(chain).insert("success"@, Json::Bool(false))
}

/// The reply to a query.
pub open spec fn query_reply(version: Seq<char>) -> Members {
    Members::empty().insert("version"@, Json::Text(version)).insert("success"@, Json::Bool(true))
}

/// The reply to a copy that succeeded.
pub open spec fn copy_reply() -> Members {
    Members::empty().insert("success"@, Json::Bool(true))
}

/// The reply to a paste that returned `data`: the text always, the MIME
/// type where there is one.
pub open spec fn paste_reply(data: DataView) -> Members {
    let text = Members::empty().insert("data"@, Json::Text(data.data));
    let labelled = match data.mime {
        Some(mime) => text.insert("mime"@, Json::Text(mime)),
        None => text,
    };
    labelled.insert("success"@, Json::Bool(true))
}

/// The reply to a copy that ended with `result`.
pub open spec fn copied_reply(result: Result<(), ErrorView>) -> Members {
    match result {
        Ok(()) => copy_reply(),
        Err(error) => failure_reply(error.chain()),
    }
}

/// The reply to a paste that ended with `result`.
pub open spec fn pasted_reply(result: Result<DataView, ErrorView>) -> Members {
    match result {
        Ok(data) => paste_reply(data),
        Err(error) => failure_reply(error.chain()),
    }
}

/// What the dispatcher does with a request line.
#[derive(Clone, Debug, PartialEq, Eq)]
pub enum Step {
    /// Answer with this line; nothing is asked of the clipboard.
    Reply(String),
    /// Copy this text to this destination, then answer with what
    /// [`Clipipe::copied`] makes of the outcome.
    Copy(Dest, String),
    /// Paste from this source, then answer with what [`Clipipe::pasted`]
    /// makes of the outcome.
    Paste(Source),
}

/// The mathematical value of a [`Step`].
pub enum StepView {
    Reply(Seq<char>),
    Copy(Dest, Seq<char>),
    Paste(Source),
}

impl View for Step {
    type V = StepView;

    open spec fn view(&self) -> StepView {
        match self {
            Step::Reply(line) => StepView::Reply(line@),
            Step::Copy(dest, data) => StepView::Copy(*dest, data@),
            Step::Paste(source) => StepView::Paste(*source),
        }
    }
}

fn chain_object(chain: &ErrorChain) -> (object: Object)
    ensures
        members(object) == chain_members(chain@),
    decreases chain,
{
    let mut object = new_object();
    insert(&mut object, "message".to_owned(), text_value(chain.message.clone()));
    match &chain.source {
        None => {},
        Some(inner) => {
            proof {
                inner.lemma_messages_nonempty();
                assert(chain@.skip(1) =~= inner@);
            }
            let cause = chain_object(inner);
            insert(&mut object, "source".to_owned(), object_value(cause));
        },
    }
    object
}

fn written(object: Object) -> (line: String)
    ensures
        line@ == line_of(members(object)),
        is_line(line@),
{
    let value = object_value(object);
    to_text(&value)
}

/// The dispatcher. It keeps the version that a query reports, and nothing
/// from one request to the next.
#[derive(Clone, Debug, PartialEq, Eq)]
pub struct Clipipe {
    version: String,
}

impl Clipipe {
    /// The version that a query reports.
    pub closed spec fn version(self) -> Seq<char> {
        self.version@
    }

    /// What the dispatcher does with a line that reads as `read`: a line
    /// that is no JSON object, or asks for nothing that the protocol knows,
    /// is answered with the failure; a query with the version; a copy and a
    /// paste go to the clipboard.
    pub open spec fn step_for(self, read: Result<Members, Seq<char>>) -> StepView {
        match read {
            Err(message) => StepView::Reply(line_of(failure_reply(seq![message]))),
            Ok(object) => match Action::parsed(request_of(object)) {
                Err(message) => StepView::Reply(line_of(failure_reply(seq![message]))),
                Ok(ActionView::Query) => StepView::Reply(line_of(query_reply(self.version()))),
                Ok(ActionView::Copy(dest, data)) => StepView::Copy(dest, data),
                Ok(ActionView::Paste(source)) => StepView::Paste(source),
            },
        }
    }

    /// A dispatcher that reports `version` to a query.
    pub fn new(version: &str) -> (clipipe: Clipipe)
        ensures
            clipipe.version() == version@,
    {
        Clipipe { version: version.to_owned() }
    }

    /// The reply line to a query.
    pub fn query(&self) -> (line: String)
        ensures
            line@ == line_of(query_reply(self.version())),
            is_line(line@),
    {
        let mut reply = new_object();
        insert(&mut reply, "version".to_owned(), text_value(self.version.clone()));
        insert(&mut reply, "success".to_owned(), bool_value(true));
        written(reply)
    }

    /// The reply line to a request that failed with `chain`.
    pub fn failed(chain: &ErrorChain) -> (line: String)
        ensures
            line@ == line_of(failure_reply(chain@)),
            is_line(line@),
    {
        let mut reply = chain_object(chain);
        insert(&mut reply, "success".to_owned(), bool_value(false));
        written(reply)
    }

    /// The reply line to a copy that ended with `result`.
    pub fn copied(result: Result<(), Error>) -> (line: String)
        ensures
            line@ == line_of(copied_reply(copy_view(result))),
            is_line(line@),
    {
        match result {
            Ok(()) => {
                let mut reply = new_object();
                insert(&mut reply, "success".to_owned(), bool_value(true));
                written(reply)
            },
            Err(error) => Self::failed(&error.into_chain()),
        }
    }

    /// The reply line to a paste that ended with `result`.
    pub fn pasted(result: Result<Data, Error>) -> (line: String)
        ensures
            line@ == line_of(pasted_reply(paste_view(result))),
            is_line(line@),
    {
        match result {
            Ok(Data { data, mime }) => {
                let mut reply = new_object();
                insert(&mut reply, "data".to_owned(), text_value(data));
                if let Some(mime) = mime {
                    insert(&mut reply, "mime".to_owned(), text_value(mime));
                }
                insert(&mut reply, "success".to_owned(), bool_value(true));
                written(reply)
            },
            Err(error) => Self::failed(&error.into_chain()),
        }
    }

    /// What to do with the action that was parsed from a request, or with
    /// the failure to parse one.
    pub fn dispatch(&self, parsed: Result<Action, ErrorChain>) -> (step: Step)
        ensures
            step@ == match parsed {
                Err(chain) => StepView::Reply(line_of(failure_reply(chain@))),
                Ok(Action::Query) => StepView::Reply(line_of(query_reply(self.version()))),
                Ok(Action::Copy(dest, data)) => StepView::Copy(dest, data@),
                Ok(Action::Paste(source)) => StepView::Paste(source),
            },
            step matches Step::Reply(line) ==> is_line(line@),
    {
        match parsed {
            Err(chain) => Step::Reply(Self::failed(&chain)),
            Ok(Action::Query) => Step::Reply(self.query()),
            Ok(Action::Copy(dest, data)) => Step::Copy(dest, data),
            Ok(Action::Paste(source)) => Step::Paste(source),
        }
    }

    /// What to do with one line of input. Every line has an answer: no
    /// line stops the dispatcher.
    pub fn request(&self, line: &str) -> (step: Step)
        ensures
            step@ == self.step_for(json_object(line@)),
            step matches Step::Reply(reply) ==> is_line(reply@),
    {
        let parsed = match parse_object(line) {
            Err(message) => Err(ErrorChain::root(message)),
            Ok(object) => Action::parse(&read_request(&object)),
        };
        self.dispatch(parsed)
    }
}

} // verus!
